//! Device-wide constants and process start-up state.

use vstd::prelude::*;

use crate::volume::VolumeState;

verus! {

/// Playback sample rate in hertz.
pub const SAMPLE_RATE: u32 = 16000;

/// Longest request body the API accepts, in bytes.
pub const MAX_LEN: usize = 128;

/// The greeting the device speaks and shows once at boot.
pub const TTS_TEXT_HELLO: &'static str = "欢迎使用文字转转语音示例";

/// Set up the process-wide playback gain at its default of 1. The caller
/// shares the returned register across threads behind a lock.
pub fn init() -> (v: VolumeState)
    ensures
        v.wf(),
        v@ == 1,
{
    VolumeState::new()
}

} // verus!
