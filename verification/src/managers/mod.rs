//! Managers: models and transcription.
//!
//! - `model`: what is known of a model
//! - `inference`: languages and the options that an engine is run with
//! - `postprocess`: what is done to a recognised text
//! - `transcription`: the loaded engine, its unloading, and the sessions
//! - `loading`: the loading of a model, step by step
//! - `transcribing`: a transcription by the loaded engine, step by step
//! - `accelerators`: what an engine can run on

pub mod accelerators;
pub mod inference;
pub mod loading;
pub mod model;
pub mod postprocess;
pub mod transcribing;
pub mod transcription;
