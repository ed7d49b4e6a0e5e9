//! Process-wide playback gain, clamped to `[1, VOLUME_MAX]`.
//!
//! The device adjusts this value from several threads (button pollers and the
//! HTTP handler); callers there serialize access with a lock and mutate the
//! value only through the operations below, which saturate silently at both
//! bounds.

use vstd::prelude::*;

verus! {

/// Ceiling for the gain factor. The device has no use for gains past this:
/// every sample is already clamped to the signed-16-bit range on playback.
pub const VOLUME_MAX: u8 = 10;

/// One step of the gain register: saturating increment or decrement.
#[derive(Clone, Copy, Debug, PartialEq, Eq, Structural)]
pub enum VolumeOp {
    Inc,
    Dec,
}

/// The playback gain register. Invariant: the level stays in `[1, VOLUME_MAX]`.
pub struct VolumeState {
    level: u8,
}

/// The level after applying one saturating step to `level`.
pub open spec fn apply_op(level: int, op: VolumeOp) -> int {
    match op {
        VolumeOp::Inc => if level < VOLUME_MAX { level + 1 } else { level },
        VolumeOp::Dec => if level > 1 { level - 1 } else { level },
    }
}

/// The level after applying a whole sequence of steps, first step first.
pub open spec fn apply_ops(level: int, ops: Seq<VolumeOp>) -> int
    decreases ops.len(),
{
    if ops.len() == 0 {
        level
    } else {
        apply_ops(apply_op(level, ops[0]), ops.drop_first())
    }
}

/// Volume bounds law: from any level in `[1, VOLUME_MAX]`, every sequence of
/// increment and decrement steps leaves the level in `[1, VOLUME_MAX]`.
pub proof fn lemma_volume_bounds(level: int, ops: Seq<VolumeOp>)
    requires
        1 <= level <= VOLUME_MAX,
    ensures
        1 <= apply_ops(level, ops) <= VOLUME_MAX,
    decreases ops.len(),
{
    if ops.len() > 0 {
        lemma_volume_bounds(apply_op(level, ops[0]), ops.drop_first());
    }
}

impl View for VolumeState {
    type V = int;

    closed spec fn view(&self) -> int {
        self.level as int
    }
}

impl VolumeState {
    /// The level is within its clamp bounds.
    pub open spec fn wf(&self) -> bool {
        1 <= self@ <= VOLUME_MAX
    }

    /// A register at the default gain of 1.
    pub fn new() -> (v: VolumeState)
        ensures
            v.wf(),
            v@ == 1,
    {
        VolumeState { level: 1 }
    }

    /// Current gain factor, always in `[1, VOLUME_MAX]`.
    pub fn get(&self) -> (r: u8)
        requires
            self.wf(),
        ensures
            r as int == self@,
            1 <= r <= VOLUME_MAX,
    {
        self.level
    }

    /// Raise the gain one step; a step at the ceiling is a silent no-op.
    pub fn increment(&mut self)
        requires
            old(self).wf(),
        ensures
            final(self).wf(),
            final(self)@ == apply_op(old(self)@, VolumeOp::Inc),
    {
        if self.level < VOLUME_MAX {
            self.level = self.level + 1;
        }
    }

    /// Lower the gain one step; a step at the floor is a silent no-op.
    pub fn decrement(&mut self)
        requires
            old(self).wf(),
        ensures
            final(self).wf(),
            final(self)@ == apply_op(old(self)@, VolumeOp::Dec),
    {
        if self.level > 1 {
            self.level = self.level - 1;
        }
    }

    /// Set the gain outright, clamped into `[1, VOLUME_MAX]`.
    pub fn set(&mut self, value: u8)
        ensures
            final(self).wf(),
            final(self)@ == if value < 1 {
                1int
            } else if value > VOLUME_MAX {
                VOLUME_MAX as int
            } else {
                value as int
            },
    {
        if value < 1 {
            self.level = 1;
        } else if value > VOLUME_MAX {
            self.level = VOLUME_MAX;
        } else {
            self.level = value;
        }
    }
}

} // verus!
