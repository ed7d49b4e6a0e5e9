//! The audio sink: gain adjustment and the per-chunk playback step.
//!
//! Samples are signed 16-bit little-endian mono values. Amplification
//! multiplies each sample by an integer gain factor and clamps the product to
//! the signed-16-bit range before storing it back, so high gains saturate
//! instead of wrapping around. The actual write to the output device, with
//! its bounded timeout, happens outside this crate; a timed-out chunk is
//! dropped there and the consumer loop moves on to the next one.

use vstd::prelude::*;

use crate::channel::Fifo;
use crate::pcm::PcmChunk;
use crate::volume::VolumeState;

verus! {

/// The signed 16-bit sample stored little-endian in the byte pair `(lo, hi)`.
pub open spec fn sample_of(lo: u8, hi: u8) -> int {
    let raw = lo + 256 * hi;
    if raw >= 32768 {
        raw - 65536
    } else {
        raw as int
    }
}

/// `v` clamped into the signed-16-bit range.
pub open spec fn clamp_i16(v: int) -> int {
    if v < -32768 {
        -32768
    } else if v > 32767 {
        32767
    } else {
        v
    }
}

/// The sample `(lo, hi)` multiplied by `gain` and clamped.
pub open spec fn amplified_sample(lo: u8, hi: u8, gain: u8) -> int {
    clamp_i16(sample_of(lo, hi) * gain)
}

/// The unsigned 16-bit two's-complement image of a sample value.
pub open spec fn raw16(v: int) -> int {
    if v < 0 {
        v + 65536
    } else {
        v
    }
}

/// Low byte of the little-endian encoding of sample value `v`.
pub open spec fn lo_byte(v: int) -> u8 {
    (raw16(v) % 256) as u8
}

/// High byte of the little-endian encoding of sample value `v`.
pub open spec fn hi_byte(v: int) -> u8 {
    (raw16(v) / 256) as u8
}

/// Byte `i` of the buffer after amplification: each complete two-byte sample
/// is amplified in place, and a lone trailing byte is left untouched.
pub open spec fn amplified_byte_at(b: Seq<u8>, gain: u8, i: int) -> u8 {
    let p = 2 * (i / 2);
    if p + 1 < b.len() {
        let v = amplified_sample(b[p], b[p + 1], gain);
        if i % 2 == 0 {
            lo_byte(v)
        } else {
            hi_byte(v)
        }
    } else {
        b[i]
    }
}

/// The whole buffer after amplification at `gain`.
pub open spec fn amplified_bytes(b: Seq<u8>, gain: u8) -> Seq<u8> {
    Seq::new(b.len(), |i: int| amplified_byte_at(b, gain, i))
}

/// Gain clamping law: whatever the sample and the gain factor, the amplified
/// sample stays within the signed-16-bit range.
pub proof fn lemma_amplified_sample_in_range(lo: u8, hi: u8, gain: u8)
    ensures
        -32768 <= amplified_sample(lo, hi, gain) <= 32767,
{
}

/// Gain identity law: at gain 1 amplification returns every buffer unchanged.
pub proof fn lemma_gain_one_identity(b: Seq<u8>)
    ensures
        amplified_bytes(b, 1) == b,
{
    assert forall|i: int| 0 <= i < b.len() implies amplified_bytes(b, 1)[i] == b[i] by {
        let p = 2 * (i / 2);
        if p + 1 < b.len() {
            lemma_sample_bytes_round_trip(b[p], b[p + 1]);
            assert(amplified_sample(b[p], b[p + 1], 1) == sample_of(b[p], b[p + 1]));
            if i % 2 == 0 {
                assert(p == i);
            } else {
                assert(p == i - 1);
            }
        }
    }
    assert(amplified_bytes(b, 1) =~= b);
}

/// Encoding a sample value back to little-endian bytes returns the bytes the
/// value was read from.
pub proof fn lemma_sample_bytes_round_trip(lo: u8, hi: u8)
    ensures
        lo_byte(sample_of(lo, hi)) == lo,
        hi_byte(sample_of(lo, hi)) == hi,
{
    let v = sample_of(lo, hi);
    assert(raw16(v) == lo + 256 * hi);
    vstd::arithmetic::div_mod::lemma_fundamental_div_mod_converse(
        lo + 256 * hi,
        256,
        hi as int,
        lo as int,
    );
}

/// Amplify a PCM byte buffer in place: every complete 16-bit little-endian
/// sample is multiplied by `gain` and clamped to the signed-16-bit range; a
/// lone trailing byte is left as it was.
pub fn amplify_pcm_data(input: &mut Vec<u8>, gain: u8)
    ensures
        final(input)@ == amplified_bytes(old(input)@, gain),
{
    let len: usize = input.len();
    let mut i: usize = 0;
    while i < len / 2
        invariant
            len == input@.len(),
            len == old(input)@.len(),
            i <= len / 2,
            forall|j: int|
                0 <= j < 2 * i ==> input@[j] == amplified_byte_at(old(input)@, gain, j),
            forall|j: int| 2 * i <= j < len ==> input@[j] == old(input)@[j],
        decreases len / 2 - i,
    {
        let lo: u8 = input[2 * i];
        let hi: u8 = input[2 * i + 1];
        let raw: u16 = lo as u16 + 256 * (hi as u16);
        let sample: i32 = if raw >= 32768 {
            raw as i32 - 65536
        } else {
            raw as i32
        };
        proof {
            assert(sample == sample_of(lo, hi));
            assert(-32768 * 255 <= sample * (gain as i32) <= 32767 * 255) by (nonlinear_arith)
                requires
                    -32768 <= sample <= 32767,
                    0 <= gain <= 255,
            ;
        }
        let amplified: i32 = sample * (gain as i32);
        let clamped: i32 = if amplified < -32768 {
            -32768
        } else if amplified > 32767 {
            32767
        } else {
            amplified
        };
        let raw_out: u16 = if clamped < 0 {
            (clamped + 65536) as u16
        } else {
            clamped as u16
        };
        proof {
            assert(clamped == amplified_sample(lo, hi, gain));
            assert(raw_out == raw16(clamped as int));
        }
        input[2 * i] = (raw_out % 256) as u8;
        input[2 * i + 1] = (raw_out / 256) as u8;
        proof {
            assert(input@[2 * i as int] == amplified_byte_at(old(input)@, gain, 2 * i as int));
            assert(input@[2 * i as int + 1] == amplified_byte_at(
                old(input)@,
                gain,
                2 * i as int + 1,
            ));
        }
        i = i + 1;
    }
    proof {
        assert(input@ =~= amplified_bytes(old(input)@, gain));
    }
}

/// One iteration of the audio sink's consumer loop: take the next pending
/// chunk off the channel and gain-adjust it at the current volume. The caller
/// hands the returned buffer to the output device; when the channel is empty
/// it blocks for the next chunk instead.
pub fn next_playback(queue: &mut Fifo<PcmChunk>, volume: &VolumeState) -> (r: Option<Vec<u8>>)
    requires
        volume.wf(),
    ensures
        old(queue)@.len() == 0 ==> r is None && final(queue)@ == old(queue)@,
        old(queue)@.len() > 0 ==> final(queue)@ == old(queue)@.drop_first() && (r matches Some(
            out,
        ) && out@ == amplified_bytes(old(queue)@[0]@, volume@ as u8)),
{
    match queue.try_recv() {
        None => None,
        Some(chunk) => {
            let mut data: Vec<u8> = chunk.into_bytes();
            let gain: u8 = volume.get();
            amplify_pcm_data(&mut data, gain);
            Some(data)
        },
    }
}

} // verus!
