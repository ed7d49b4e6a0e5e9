//! Interrupt-driven press detection for the three physical buttons.
//!
//! Each button is an edge detector: the hardware interrupt may do nothing
//! but raise a flag (no blocking, no allocation in interrupt context), and
//! the line disarms itself when it fires. A consumer thread polls the flag
//! at a short fixed interval; on seeing it set, it clears the flag, re-arms
//! the interrupt line and hands its caller the press event. The interrupt
//! registration itself happens at the hardware edge outside this crate; its
//! outcome is passed in at construction.

use vstd::prelude::*;

verus! {

/// Which physical button: the select key, volume up, or volume down.
#[derive(Debug, Clone, Copy, PartialEq, Eq, Structural)]
pub enum ButtonType {
    K0,
    Up,
    Down,
}

/// A discrete press event, identifying the button whose edge fired.
#[derive(Debug, Clone, Copy, PartialEq, Eq, Structural)]
pub enum ButtonEvent {
    AnyEdge(ButtonType),
}

/// Why a button could not be set up.
#[derive(Debug, Clone, Copy, PartialEq, Eq, Structural)]
pub enum ConfigError {
    /// The interrupt handler could not be registered on the line. There is
    /// no runtime recovery: the button stays unresponsive, which the device
    /// accepts as degraded but non-fatal.
    InterruptRegistration,
}

/// The edge-detector state machine of one button. `pending` is the flag the
/// interrupt raises; `armed` tells whether the line will fire again.
pub struct Button {
    typ: ButtonType,
    pending: bool,
    armed: bool,
}

impl Button {
    /// The button's fixed role.
    pub closed spec fn spec_typ(&self) -> ButtonType {
        self.typ
    }

    /// Whether an edge has fired and not yet been consumed.
    pub closed spec fn pending(&self) -> bool {
        self.pending
    }

    /// Whether the interrupt line will fire on the next edge.
    pub closed spec fn armed(&self) -> bool {
        self.armed
    }

    /// Set up the detector for one button. `registered` is the hardware's
    /// verdict on registering the interrupt handler; a refusal is a
    /// configuration error and the button is never constructed.
    pub fn new(typ: ButtonType, registered: bool) -> (r: Result<Button, ConfigError>)
        ensures
            registered ==> (r matches Ok(b) && b.spec_typ() == typ && !b.pending() && b.armed()),
            !registered ==> (r matches Err(e) && e == ConfigError::InterruptRegistration),
    {
        if registered {
            Ok(Button { typ, pending: false, armed: true })
        } else {
            Err(ConfigError::InterruptRegistration)
        }
    }

    /// Whether the line is armed right now; an edge can fire only then.
    pub fn is_armed(&self) -> (r: bool)
        ensures
            r == self.armed(),
    {
        self.armed
    }

    /// The interrupt handler's whole effect: raise the flag. The line
    /// disarms itself when it fires, and stays disarmed until a poll
    /// consumes the event.
    pub fn fire(&mut self)
        requires
            old(self).armed(),
        ensures
            final(self).spec_typ() == old(self).spec_typ(),
            final(self).pending(),
            !final(self).armed(),
    {
        self.pending = true;
        self.armed = false;
    }

    /// One iteration of the consumer's polling loop: consume a pending edge,
    /// re-arm the line and report the press; with nothing pending, change
    /// nothing and report nothing. The consumer sleeps a short bounded
    /// interval between polls, outside this crate.
    pub fn poll(&mut self) -> (r: Option<ButtonEvent>)
        ensures
            final(self).spec_typ() == old(self).spec_typ(),
            old(self).pending() ==> r == Some(ButtonEvent::AnyEdge(old(self).spec_typ()))
                && !final(self).pending() && final(self).armed(),
            !old(self).pending() ==> r is None && *final(self) == *old(self),
    {
        if self.pending {
            self.pending = false;
            self.armed = true;
            Some(ButtonEvent::AnyEdge(self.typ))
        } else {
            None
        }
    }
}

} // verus!
