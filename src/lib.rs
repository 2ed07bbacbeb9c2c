//! Core logic of a voice-dictation helper: the settings record, the
//! global-hotkey acquisition engine and the transcription pipeline.

pub mod config;
pub mod hotkey;
pub mod openai;
pub mod pipeline;
