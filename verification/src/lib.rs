//! Core of a push-to-talk dictation helper: the audio resampling pipeline and
//! the model lifecycle state machines, with machine-checked contracts.

pub mod audio;
pub mod catalog;
pub mod commands;
pub mod downloads;
pub mod error;
pub mod events;
pub mod resample;
pub mod runtime;
pub mod status;
pub mod text;
pub mod transcript;
pub mod worker;
