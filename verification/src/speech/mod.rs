//! Speech synthesis support: text normalization before synthesis and the
//! ordering of synthesized audio segments for playback.

pub mod tts;
