//! Verified core of a voice-driven assistant: the audio sample ring buffer,
//! the recording / generation state machine, command detection on
//! transcribed speech, speech segmentation, text normalization for speech
//! synthesis, and the scripted test runner.

pub mod audio;
pub mod text;
pub mod processor;
pub mod state;
pub mod speech;
pub mod testconfig;
pub mod error;
pub mod status;
pub mod cli;
pub mod ui;
pub mod messages;
