//! Verified core of a dictation client for the Doubao (Volcano Engine) cloud
//! speech recogniser.

pub mod text;
pub mod cloud_asr;
pub mod settings;
pub mod streaming_paste;
pub mod managers;
