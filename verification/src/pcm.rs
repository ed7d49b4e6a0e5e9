//! PCM audio buffers.
//!
//! A chunk holds signed 16-bit little-endian mono samples at the fixed device
//! sample rate, so a well-formed chunk always has an even number of bytes; an
//! odd trailing byte count is an invariant violation and is rejected at
//! construction.

use vstd::prelude::*;

verus! {

/// Why a byte buffer was rejected as a PCM chunk.
#[derive(Clone, Copy, Debug, PartialEq, Eq, Structural)]
pub enum ChunkError {
    /// The buffer's byte count is odd, so it cannot hold whole 16-bit samples.
    OddLength,
}

/// A buffer of whole signed 16-bit little-endian samples; its view is the
/// byte sequence. Invariant: the length is even.
pub struct PcmChunk {
    bytes: Vec<u8>,
}

impl View for PcmChunk {
    type V = Seq<u8>;

    closed spec fn view(&self) -> Seq<u8> {
        self.bytes@
    }
}

impl PcmChunk {
    /// The chunk holds only whole samples: an even number of bytes.
    pub open spec fn wf(&self) -> bool {
        self@.len() % 2 == 0
    }

    /// Wrap a byte buffer as a chunk; a buffer with an odd byte count is
    /// rejected, never carried further down the pipeline.
    pub fn new(bytes: Vec<u8>) -> (r: Result<PcmChunk, ChunkError>)
        ensures
            bytes@.len() % 2 == 0 <==> r is Ok,
            r matches Ok(c) ==> c@ == bytes@ && c.wf(),
            r matches Err(e) ==> e == ChunkError::OddLength,
    {
        if bytes.len() % 2 == 0 {
            Ok(PcmChunk { bytes })
        } else {
            Err(ChunkError::OddLength)
        }
    }

    /// Number of bytes in the chunk.
    pub fn len(&self) -> (n: usize)
        ensures
            n == self@.len(),
    {
        self.bytes.len()
    }

    /// Borrow the sample bytes.
    pub fn bytes(&self) -> (b: &Vec<u8>)
        ensures
            b@ == self@,
    {
        &self.bytes
    }

    /// Give up the chunk for its sample bytes.
    pub fn into_bytes(self) -> (b: Vec<u8>)
        ensures
            b@ == self@,
    {
        self.bytes
    }
}

} // verus!
