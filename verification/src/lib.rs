//! The core of a local media player: playback state, frame queues, the audio
//! fill path, video pacing and pixel conversion, and the command surface that
//! drives them. Devices, codecs, threads and the host runtime live outside
//! this crate and hand it plain values.

pub mod audio;
pub mod frame;
pub mod player;
pub mod plugin;
pub mod queue;
pub mod state;
pub mod text;
pub mod types;
pub mod video;
