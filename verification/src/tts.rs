//! The synthesis stage: text requests become finite streams of PCM chunks.
//!
//! The speech engine itself (its voice-data binding and its DSP) is an
//! external collaborator: it reports whether a text parsed into phonetic
//! units, and then hands back one buffer per pull together with a sample
//! count, ending the stream with a non-positive count. The decisions around
//! those reports are verified here: a parse failure drops the request with
//! zero chunks, every produced chunk holds whole samples, and the stream ends
//! at the first non-positive pull, so synthesis of any request terminates.

use vstd::prelude::*;

use crate::channel::Fifo;
use crate::pcm::PcmChunk;

verus! {

/// What becomes of the device after trying to bind the engine to its voice
/// data at start-up.
#[derive(Debug, Clone, Copy, PartialEq, Eq, Structural)]
pub enum EngineSetup {
    /// The voice-data partition was found and mapped; synthesis can start.
    Ready,
    /// The device cannot speak without its voice data and has no degraded
    /// mode, so it restarts outright instead of limping on.
    Restart,
}

/// The constructor's verdict on binding the engine: locating the named
/// voice-data partition and mapping it read-only both have to succeed, and
/// either failure is fatal.
pub fn engine_setup(partition_found: bool, mapped: bool) -> (r: EngineSetup)
    ensures
        r == EngineSetup::Ready <==> partition_found && mapped,
{
    if partition_found && mapped {
        EngineSetup::Ready
    } else {
        EngineSetup::Restart
    }
}

/// One pull from the engine's output stream: the reported sample count and
/// the bytes handed back with it.
pub struct PullOutcome {
    /// Sample count the engine reported; non-positive means end of stream.
    pub len: i32,
    /// The bytes of this pull: two per reported sample.
    pub data: Vec<u8>,
}

/// The engine hands back exactly two bytes per reported sample.
pub open spec fn pull_wf(p: PullOutcome) -> bool {
    p.len > 0 ==> p.data@.len() == 2 * p.len
}

/// Every pull of the stream is well-formed.
pub open spec fn pulls_wf(pulls: Seq<PullOutcome>) -> bool {
    forall|i: int| 0 <= i < pulls.len() ==> pull_wf(#[trigger] pulls[i])
}

/// The chunk contents produced for one request: the data of every pull up to
/// but not including the first one with a non-positive sample count.
pub open spec fn spec_chunks(pulls: Seq<PullOutcome>) -> Seq<Seq<u8>>
    decreases pulls.len(),
{
    if pulls.len() == 0 || pulls[0].len <= 0 {
        Seq::empty()
    } else {
        seq![pulls[0].data@] + spec_chunks(pulls.drop_first())
    }
}

/// One decision of the streaming loop: a non-positive reported sample count
/// ends the stream, anything else wraps the pulled bytes as the next chunk.
pub fn step_pull(p: PullOutcome) -> (r: Option<PcmChunk>)
    requires
        pull_wf(p),
    ensures
        p.len <= 0 ==> r is None,
        p.len > 0 ==> (r matches Some(c) && c@ == p.data@ && c.wf()),
{
    if p.len <= 0 {
        None
    } else {
        match PcmChunk::new(p.data) {
            Ok(c) => Some(c),
            Err(_) => None,
        }
    }
}

/// Synthesize one utterance. `parse_ok` is the engine's verdict on parsing
/// the request text into phonetic units: a failure drops the request, giving
/// zero chunks. `pulls` are the engine's successive stream outputs; chunks
/// are produced in pull order until the first non-positive sample count.
///
/// Synthesis terminates for every request: the result is a finite sequence,
/// never longer than the engine's output stream, and it is empty whenever
/// the engine reports a non-positive count on the very first pull.
pub fn synthesize(parse_ok: bool, pulls: Vec<PullOutcome>) -> (r: Vec<PcmChunk>)
    requires
        pulls_wf(pulls@),
    ensures
        !parse_ok ==> r@.len() == 0,
        parse_ok ==> r@.map_values(|c: PcmChunk| c@) == spec_chunks(pulls@),
        forall|i: int| 0 <= i < r@.len() ==> (#[trigger] r@[i]).wf(),
        r@.len() <= pulls@.len(),
        pulls@.len() > 0 && pulls@[0].len <= 0 ==> r@.len() == 0,
{
    let mut out: Vec<PcmChunk> = Vec::new();
    if !parse_ok {
        return out;
    }
    let mut rest: Vec<PullOutcome> = pulls;
    let mut stopped: bool = false;
    while !stopped && rest.len() > 0
        invariant
            pulls_wf(rest@),
            !stopped ==> out@.map_values(|c: PcmChunk| c@) + spec_chunks(rest@) == spec_chunks(
                pulls@,
            ),
            stopped ==> out@.map_values(|c: PcmChunk| c@) == spec_chunks(pulls@),
            forall|i: int| 0 <= i < out@.len() ==> (#[trigger] out@[i]).wf(),
            out@.len() + rest@.len() <= pulls@.len(),
            pulls@.len() > 0 && pulls@[0].len <= 0 ==> out@.len() == 0,
        decreases rest@.len(),
    {
        let ghost prev_rest = rest@;
        let ghost prev_out = out@;
        let p: PullOutcome = rest.remove(0);
        if p.len <= 0 {
            stopped = true;
            proof {
                assert(spec_chunks(prev_rest) =~= Seq::<Seq<u8>>::empty());
            }
        } else {
            proof {
                assert(pull_wf(p));
                assert(p.data@.len() % 2 == 0);
            }
            match PcmChunk::new(p.data) {
                Ok(c) => {
                    out.push(c);
                    proof {
                        assert(spec_chunks(prev_rest) =~= seq![c@] + spec_chunks(rest@));
                        assert(out@.map_values(|x: PcmChunk| x@) =~= prev_out.map_values(
                            |x: PcmChunk| x@,
                        ).push(c@));
                        assert(out@.map_values(|x: PcmChunk| x@) + spec_chunks(rest@)
                            =~= prev_out.map_values(|x: PcmChunk| x@) + spec_chunks(prev_rest));
                    }
                },
                Err(_) => {
                    // Unreachable: a well-formed pull always has an even byte count.
                    stopped = true;
                    proof {
                        assert(false);
                    }
                },
            }
        }
    }
    proof {
        if !stopped {
            assert(spec_chunks(rest@) =~= Seq::<Seq<u8>>::empty());
            assert(out@.map_values(|c: PcmChunk| c@) + spec_chunks(rest@) =~= out@.map_values(
                |c: PcmChunk| c@,
            ));
        }
        assert(out@.len() == out@.map_values(|c: PcmChunk| c@).len());
    }
    out
}

/// The synthesis stage for one request, as the consumer loop runs it: every
/// produced chunk is pushed onto the audio channel in production order, and
/// nothing else changes on that channel.
pub fn play(parse_ok: bool, pulls: Vec<PullOutcome>, tx: &mut Fifo<PcmChunk>)
    requires
        pulls_wf(pulls@),
    ensures
        final(tx)@.len() == old(tx)@.len() + (if parse_ok {
            spec_chunks(pulls@).len()
        } else {
            0
        }),
        final(tx)@.subrange(0, old(tx)@.len() as int) == old(tx)@,
        forall|i: int|
            old(tx)@.len() <= i < final(tx)@.len() ==> (#[trigger] final(tx)@[i])@ == spec_chunks(
                pulls@,
            )[i - old(tx)@.len()] && final(tx)@[i].wf(),
{
    let ghost base = tx@;
    let mut chunks: Vec<PcmChunk> = synthesize(parse_ok, pulls);
    let ghost produced = chunks@;
    let ghost mut sent: int = 0;
    proof {
        assert(tx@ =~= base + produced.subrange(0, 0));
    }
    while chunks.len() > 0
        invariant
            0 <= sent && sent + chunks@.len() == produced.len(),
            chunks@ == produced.subrange(sent, produced.len() as int),
            tx@ == base + produced.subrange(0, sent),
            forall|i: int| 0 <= i < produced.len() ==> (#[trigger] produced[i]).wf(),
            parse_ok ==> produced.map_values(|c: PcmChunk| c@) == spec_chunks(pulls@),
            !parse_ok ==> produced.len() == 0,
        decreases chunks@.len(),
    {
        let ghost prev_chunks = chunks@;
        let c: PcmChunk = chunks.remove(0);
        tx.send(c);
        proof {
            sent = sent + 1;
            assert(chunks@ =~= produced.subrange(sent, produced.len() as int));
            assert(tx@ =~= base + produced.subrange(0, sent));
        }
    }
    proof {
        assert(tx@ =~= base + produced);
        assert(tx@.subrange(0, base.len() as int) =~= base);
        if parse_ok {
            assert(forall|i: int|
                base.len() <= i < tx@.len() ==> (#[trigger] tx@[i])@ == produced.map_values(
                    |c: PcmChunk| c@,
                )[i - base.len()]);
        }
    }
}

} // verus!
