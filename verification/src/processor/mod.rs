//! Decision logic of the processing pipeline: command detection on
//! transcribed speech, the conversation kept for the language model,
//! speech segmentation, and the orchestrator that routes events between
//! them and the shared application state.

pub mod handler;
pub mod llm;
pub mod orchestrator;
pub mod stt;
