//! What is known of a model.

use vstd::prelude::*;

verus! {

/// The engine that runs a model.
#[derive(Debug, Clone, Copy, PartialEq, Eq, Structural)]
pub enum EngineType {
    Whisper,
    Parakeet,
    Moonshine,
    MoonshineStreaming,
    SenseVoice,
    GigaAM,
    Canary,
    Cohere,
    /// The cloud recogniser.
    Doubao,
}

/// A model.
#[derive(Debug, Clone)]
pub struct ModelInfo {
    pub name: String,
    pub is_downloaded: bool,
    pub engine_type: EngineType,
    /// The languages that the model takes; an empty list stands for all.
    pub supported_languages: Vec<String>,
}

/// Whether a model is known and runs on `engine`.
pub open spec fn runs_on(info: Option<ModelInfo>, engine: EngineType) -> bool {
    info is Some && info->0.engine_type == engine
}

/// Tells whether a model is known and runs on `engine`.
pub fn is_engine(info: &Option<ModelInfo>, engine: EngineType) -> (r: bool)
    ensures
        r == runs_on(*info, engine),
{
    match info {
        Some(info) => info.engine_type == engine,
        None => false,
    }
}

/// A model runs on one engine at most, and one that is not known on none.
pub proof fn models_run_on_their_own_engine(
    info: Option<ModelInfo>,
    engine: EngineType,
    other: EngineType,
)
    ensures
        info matches Some(info) ==> runs_on(Some(info), info.engine_type),
        info is None ==> !runs_on(info, engine),
        runs_on(info, engine) && runs_on(info, other) ==> engine == other,
{
}

} // verus!
