//! The orchestrator: the three one-directional channels between the stages,
//! and the per-iteration step of each consumer loop.
//!
//! Producers (the API handlers, the start-up greeting, and a button role
//! reserved for later use) feed text to the synthesis channel and to the
//! display channel; the synthesis stage feeds PCM chunks to the audio
//! channel. Each channel has exactly one consumer thread — the synthesis
//! engine and the audio sink are not reentrant, so fan-out must never be
//! introduced. The greeting is enqueued before the network comes up, so the
//! device speaks on boot whatever the network's state.

use vstd::prelude::*;

use crate::audio;
use crate::channel::Fifo;
use crate::global::TTS_TEXT_HELLO;
use crate::pcm::PcmChunk;
use crate::tts;
use crate::tts::{pulls_wf, spec_chunks, PullOutcome};
use crate::volume::VolumeState;
use vstd::string::StringExecFns;

verus! {

/// The pipeline's channels. Each is written by its producers and drained by
/// exactly one consumer loop.
pub struct Pipeline {
    /// Text requests awaiting synthesis.
    pub synth_queue: Fifo<String>,
    /// Text requests awaiting display.
    pub display_queue: Fifo<String>,
    /// Synthesized chunks awaiting playback.
    pub audio_queue: Fifo<PcmChunk>,
}

impl Pipeline {
    /// A freshly wired pipeline with nothing in flight.
    pub fn new() -> (p: Pipeline)
        ensures
            p.synth_queue@ == Seq::<String>::empty(),
            p.display_queue@ == Seq::<String>::empty(),
            p.audio_queue@ == Seq::<PcmChunk>::empty(),
    {
        Pipeline {
            synth_queue: Fifo::new(),
            display_queue: Fifo::new(),
            audio_queue: Fifo::new(),
        }
    }

    /// Enqueue one text request for both the synthesis stage and the
    /// display, exactly once each; the audio channel is untouched.
    pub fn submit_text(&mut self, text: String)
        ensures
            final(self).synth_queue@ == old(self).synth_queue@.push(text),
            final(self).display_queue@ == old(self).display_queue@.push(text),
            final(self).audio_queue@ == old(self).audio_queue@,
    {
        self.display_queue.send(text.clone());
        self.synth_queue.send(text);
    }

    /// The boot step: enqueue the fixed greeting once to the synthesis
    /// channel and once to the display channel. The caller runs this before
    /// Wi-Fi and the HTTP server come up.
    pub fn startup(&mut self)
        ensures
            final(self).synth_queue@.len() == old(self).synth_queue@.len() + 1,
            final(self).synth_queue@.subrange(0, old(self).synth_queue@.len() as int) == old(self).synth_queue@,
            final(self).synth_queue@.last()@ == TTS_TEXT_HELLO@,
            final(self).display_queue@.len() == old(self).display_queue@.len() + 1,
            final(self).display_queue@.subrange(0, old(self).display_queue@.len() as int) == old(self).display_queue@,
            final(self).display_queue@.last()@ == TTS_TEXT_HELLO@,
            final(self).audio_queue@ == old(self).audio_queue@,
    {
        self.submit_text(String::from_str(TTS_TEXT_HELLO));
        proof {
            assert(self.synth_queue@.subrange(0, old(self).synth_queue@.len() as int) =~= old(self).synth_queue@);
            assert(self.display_queue@.subrange(0, old(self).display_queue@.len() as int) =~= old(self).display_queue@);
        }
    }

    /// One iteration of the synthesis consumer loop: take the next text
    /// request, if any, and stream its chunks onto the audio channel in
    /// production order. `parse_ok` and `pulls` are the engine's outputs for
    /// that request. Returns the text that was taken up. With no request
    /// pending, nothing changes and the consumer blocks outside.
    pub fn synthesis_step(&mut self, parse_ok: bool, pulls: Vec<PullOutcome>) -> (r: Option<String>)
        requires
            pulls_wf(pulls@),
        ensures
            final(self).display_queue@ == old(self).display_queue@,
            old(self).synth_queue@.len() == 0 ==> r is None
                && final(self).synth_queue@ == old(self).synth_queue@
                && final(self).audio_queue@ == old(self).audio_queue@,
            old(self).synth_queue@.len() > 0 ==> r == Some(old(self).synth_queue@[0])
                && final(self).synth_queue@ == old(self).synth_queue@.drop_first()
                && final(self).audio_queue@.len() == old(self).audio_queue@.len()
                + (if parse_ok { spec_chunks(pulls@).len() } else { 0 })
                && final(self).audio_queue@.subrange(0, old(self).audio_queue@.len() as int) == old(self).audio_queue@
                && (forall|i: int|
                    old(self).audio_queue@.len() <= i < final(self).audio_queue@.len()
                        ==> (#[trigger] final(self).audio_queue@[i])@
                            == spec_chunks(pulls@)[i - old(self).audio_queue@.len()]
                        && final(self).audio_queue@[i].wf()),
    {
        match self.synth_queue.try_recv() {
            None => None,
            Some(text) => {
                tts::play(parse_ok, pulls, &mut self.audio_queue);
                Some(text)
            },
        }
    }

    /// One iteration of the audio consumer loop: take the next pending chunk
    /// and gain-adjust it at the current volume; the caller writes the
    /// returned buffer to the output device (and, on a write timeout there,
    /// drops it and moves on).
    pub fn audio_step(&mut self, volume: &VolumeState) -> (r: Option<Vec<u8>>)
        requires
            volume.wf(),
        ensures
            final(self).synth_queue@ == old(self).synth_queue@,
            final(self).display_queue@ == old(self).display_queue@,
            old(self).audio_queue@.len() == 0 ==> r is None
                && final(self).audio_queue@ == old(self).audio_queue@,
            old(self).audio_queue@.len() > 0 ==> final(self).audio_queue@ == old(self).audio_queue@.drop_first()
                && (r matches Some(out) && out@ == audio::amplified_bytes(old(self).audio_queue@[0]@, volume@ as u8)),
    {
        audio::next_playback(&mut self.audio_queue, volume)
    }

    /// One iteration of the display consumer loop: take the next status
    /// text, if any; the caller hands it to the rendering engine.
    pub fn display_step(&mut self) -> (r: Option<String>)
        ensures
            final(self).synth_queue@ == old(self).synth_queue@,
            final(self).audio_queue@ == old(self).audio_queue@,
            old(self).display_queue@.len() == 0 ==> r is None
                && final(self).display_queue@ == old(self).display_queue@,
            old(self).display_queue@.len() > 0 ==> r == Some(old(self).display_queue@[0])
                && final(self).display_queue@ == old(self).display_queue@.drop_first(),
    {
        self.display_queue.try_recv()
    }
}

} // verus!
