//! The settings that the library reads.

use vstd::prelude::*;

verus! {

/// When an idle model is unloaded.
#[derive(Debug, Clone, Copy, PartialEq, Eq, Structural)]
pub enum ModelUnloadTimeout {
    Never,
    /// After each transcription.
    Immediately,
    /// After a time without activity.
    After { seconds: u64 },
}

/// How a finished text reaches the focused application.
#[derive(Debug, Clone, Copy, PartialEq, Eq, Structural)]
pub enum PasteMethod {
    /// Not at all.
    Disabled,
    /// By one of the ways to paste.
    Enabled,
}

/// What happens to the clipboard.
#[derive(Debug, Clone, Copy, PartialEq, Eq, Structural)]
pub enum ClipboardHandling {
    DontModify,
    CopyToClipboard,
}

/// The credentials of the cloud service, as far as they are set. Like everything that holds
/// them it has no `Debug`, so that they reach no log.
#[derive(Clone)]
pub struct DoubaoCredentials {
    pub api_key: Option<String>,
    pub resource_id: Option<String>,
}

/// The settings.
#[derive(Clone)]
pub struct AppSettings {
    pub selected_model: String,
    pub selected_language: String,
    pub app_language: String,
    pub translate_to_english: bool,
    pub custom_words: Vec<String>,
    /// The bits of the threshold, a double precision number.
    pub word_correction_threshold: u64,
    pub custom_filler_words: Option<Vec<String>>,
    pub model_unload_timeout: ModelUnloadTimeout,
    pub doubao_credentials: DoubaoCredentials,
    pub streaming_paste: bool,
    pub paste_method: PasteMethod,
    pub append_trailing_space: bool,
    pub auto_submit: bool,
    pub clipboard_handling: ClipboardHandling,
}

} // verus!
