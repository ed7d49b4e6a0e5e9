//! Core logic of a voice-output device: text requests flow through a
//! synthesis stage to an audio sink over FIFO channels, while buttons and a
//! network API adjust a clamped playback gain.
//!
//! The hardware edges (I2S output, GPIO interrupts, the speech engine's FFI,
//! the display, Wi-Fi and the HTTP server) live outside this crate; the
//! decisions they feed are verified here over plain values.

pub mod audio;
pub mod button;
pub mod channel;
pub mod global;
pub mod pcm;
pub mod pipeline;
pub mod server;
pub mod tts;
pub mod volume;
