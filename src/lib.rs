//! A speech-to-text pipeline whose control logic is verified: the decoding of
//! raw PCM bytes into samples, the fixed inference settings, and the state
//! machine that drives the model and assembles its text segments.

pub mod pcm;
pub mod config;
pub mod error;
pub mod transcript;
pub mod pipeline;
pub mod runs;
