//! The loaded engine: its loading and unloading, its use, and the cloud recogniser's
//! session that runs beside it.
//!
//! The manager is generic over what it only keeps: the engine, the handle of the session
//! that uploads while recording, and that of the text typed meanwhile.

use crate::cloud_asr::doubao::client::DoubaoClient;
#[allow(unused_imports)]
use crate::cloud_asr::doubao::client::{resource_or_default, DEFAULT_ENDPOINT};
use crate::managers::model::{is_engine, EngineType, ModelInfo};
#[allow(unused_imports)]
use crate::managers::model::runs_on;
use crate::managers::postprocess::postprocess_transcript_text;
#[allow(unused_imports)]
use crate::managers::postprocess::{custom_words_are_used_however_many, postprocessing};
use crate::settings::{AppSettings, DoubaoCredentials, ModelUnloadTimeout, PasteMethod};
use crate::text::{is_blank, same_text};
#[allow(unused_imports)]
use crate::text::{blank, opt_text};
use vstd::prelude::*;

verus! {

/// How often the idle check is made, in seconds.
pub const IDLE_CHECK_SECS: u64 = 10;

/// A change in the state of the model, for those who watch it.
#[derive(Debug, Clone)]
pub struct ModelStateEvent {
    pub event_type: String,
    pub model_id: Option<String>,
    pub model_name: Option<String>,
    pub error: Option<String>,
}

impl ModelStateEvent {
    /// Whether the event has this content.
    pub open spec fn says(
        self,
        event_type: Seq<char>,
        model_id: Option<Seq<char>>,
        model_name: Option<Seq<char>>,
        error: Option<Seq<char>>,
    ) -> bool {
        &&& self.event_type@ == event_type
        &&& opt_text(self.model_id) == model_id
        &&& opt_text(self.model_name) == model_name
        &&& opt_text(self.error) == error
    }
}

/// Why a model was not loaded.
#[derive(Debug)]
pub struct LoadFailure {
    /// What those who watch are told, if anything.
    pub event: Option<ModelStateEvent>,
    pub error: String,
}

/// Whether a failure with this error is announced as a failure to load a model.
pub open spec fn announces_failure(
    failure: LoadFailure,
    model_id: Seq<char>,
    info: ModelInfo,
    error: Seq<char>,
) -> bool {
    &&& failure.error@ == error
    &&& failure.event is Some
    &&& failure.event->0.says("loading_failed"@, Some(model_id), Some(info.name@), Some(error))
}

fn announced_failure(model_id: &str, info: &ModelInfo, error: String) -> (r: LoadFailure)
    ensures
        announces_failure(r, model_id@, *info, error@),
{
    let event = ModelStateEvent {
        event_type: "loading_failed".to_owned(),
        model_id: Some(model_id.to_owned()),
        model_name: Some(info.name.clone()),
        error: Some(error.clone()),
    };
    LoadFailure { event: Some(event), error }
}

/// What those who watch are told when a model starts to load.
pub fn loading_started(model_id: &str) -> (r: ModelStateEvent)
    ensures
        r.says("loading_started"@, Some(model_id@), None, None),
{
    ModelStateEvent {
        event_type: "loading_started".to_owned(),
        model_id: Some(model_id.to_owned()),
        model_name: None,
        error: None,
    }
}

/// Whether `r` is what accepting a model for loading comes to.
pub open spec fn accepted(
    model_id: Seq<char>,
    info: Option<ModelInfo>,
    r: Result<ModelInfo, LoadFailure>,
) -> bool {
    match info {
        None => {
            &&& r is Err
            &&& r->Err_0.event is None
            &&& r->Err_0.error@ == "Model not found: "@ + model_id
        },
        Some(info) => if info.is_downloaded {
            r == Ok::<_, LoadFailure>(info)
        } else {
            &&& r is Err
            &&& announces_failure(r->Err_0, model_id, info, "Model not downloaded"@)
        },
    }
}

/// Accepts a model for loading: it must be known and downloaded. That it is not known is
/// not announced.
pub fn find_model(model_id: &str, info: Option<ModelInfo>) -> (r: Result<ModelInfo, LoadFailure>)
    ensures
        accepted(model_id@, info, r),
{
    match info {
        None => Err(
            LoadFailure { event: None, error: "Model not found: ".to_owned().concat(model_id) },
        ),
        Some(info) => if info.is_downloaded {
            Ok(info)
        } else {
            Err(announced_failure(model_id, &info, "Model not downloaded".to_owned()))
        },
    }
}

/// How the weights of a model are stored.
#[derive(Debug, Clone, Copy, PartialEq, Eq, Structural)]
pub enum Weights {
    /// The engine does not ask.
    Unspecified,
    /// As the engine takes them by default.
    Standard,
    /// Quantised to eight bits.
    Int8,
}

/// How an engine comes to be.
pub enum EngineRecipe {
    /// It is loaded from the model's files.
    Local { engine: EngineType, weights: Weights },
    /// It is a client of the cloud recogniser.
    Cloud(DoubaoClient),
}

/// How the weights of an engine's models are stored.
pub open spec fn weights_of(engine: EngineType) -> Weights {
    match engine {
        EngineType::Whisper | EngineType::Doubao => Weights::Unspecified,
        EngineType::Moonshine | EngineType::MoonshineStreaming => Weights::Standard,
        _ => Weights::Int8,
    }
}

/// The key among credentials, unless it is blank.
pub open spec fn usable_key(credentials: DoubaoCredentials) -> Option<Seq<char>> {
    match credentials.api_key {
        Some(key) => if blank(key@) {
            None
        } else {
            Some(key@)
        },
        None => None,
    }
}

/// The resource among credentials, or the empty text.
pub open spec fn resource_text(credentials: DoubaoCredentials) -> Seq<char> {
    match credentials.resource_id {
        Some(id) => id@,
        None => Seq::empty(),
    }
}

fn configured_key(credentials: &DoubaoCredentials) -> (r: Option<String>)
    ensures
        opt_text(r) == usable_key(*credentials),
        r matches Some(used) ==> (credentials.api_key matches Some(key) && used@ == key@),
        credentials.api_key matches Some(key) ==> !blank(key@) ==> r is Some,
{
    match &credentials.api_key {
        Some(key) => if is_blank(key.as_str()) {
            None
        } else {
            Some(key.clone())
        },
        None => None,
    }
}

fn configured_resource(credentials: &DoubaoCredentials) -> (r: String)
    ensures
        r@ == resource_text(*credentials),
        credentials.resource_id matches Some(id) ==> r@ == id@,
        credentials.resource_id is None ==> r@.len() == 0,
{
    match &credentials.resource_id {
        Some(id) => id.clone(),
        None => {
            let r = String::new();
            assert(r@ =~= Seq::<char>::empty());
            r
        },
    }
}

/// Whether `r` says how the engine of a model comes to be.
pub open spec fn is_recipe(
    model_id: Seq<char>,
    info: ModelInfo,
    settings: AppSettings,
    r: Result<EngineRecipe, LoadFailure>,
) -> bool {
    if info.engine_type == EngineType::Doubao {
        match usable_key(settings.doubao_credentials) {
            Some(key) => {
                let resource = resource_text(settings.doubao_credentials);
                &&& r is Ok
                &&& r->Ok_0 is Cloud
                &&& r->Ok_0->Cloud_0.api_key@ == key
                &&& r->Ok_0->Cloud_0.resource_id@ == resource_or_default(resource)
                &&& r->Ok_0->Cloud_0.endpoint@ == DEFAULT_ENDPOINT@
            },
            None => r is Err && announces_failure(
                r->Err_0,
                model_id,
                info,
                "Doubao API key not configured. Please set it in Settings → Models."@,
            ),
        }
    } else {
        r == Ok::<_, LoadFailure>(
            EngineRecipe::Local {
                engine: info.engine_type,
                weights: weights_of(info.engine_type),
            },
        )
    }
}

/// Says how the engine of a model comes to be. The cloud recogniser needs a key.
pub fn engine_recipe(model_id: &str, info: &ModelInfo, settings: &AppSettings) -> (r: Result<
    EngineRecipe,
    LoadFailure,
>)
    ensures
        is_recipe(model_id@, *info, *settings, r),
        r matches Ok(EngineRecipe::Cloud(client)) ==> {
            &&& info.engine_type == EngineType::Doubao
            &&& settings.doubao_credentials.api_key matches Some(key) && client.api_key@ == key@
            &&& settings.doubao_credentials.resource_id matches Some(id) ==> !blank(id@)
                ==> client.resource_id@ == id@
        },
        info.engine_type == EngineType::Doubao ==> (r is Ok <==> (
        settings.doubao_credentials.api_key matches Some(key) && !blank(key@))),
{
    let engine = info.engine_type;
    let weights = match engine {
        EngineType::Whisper => Weights::Unspecified,
        EngineType::Moonshine | EngineType::MoonshineStreaming => Weights::Standard,
        EngineType::Doubao => {
            return match configured_key(&settings.doubao_credentials) {
                Some(key) => {
                    let resource_id = configured_resource(&settings.doubao_credentials);
                    Ok(EngineRecipe::Cloud(DoubaoClient::new(key, resource_id)))
                },
                None => Err(
                    announced_failure(
                        model_id,
                        info,
                        "Doubao API key not configured. Please set it in Settings → Models.".to_owned(),
                    ),
                ),
            };
        },
        _ => Weights::Int8,
    };
    Ok(EngineRecipe::Local { engine, weights })
}

/// The name by which a failure to load speaks of an engine.
pub open spec fn loader_name(engine: EngineType) -> Seq<char> {
    match engine {
        EngineType::Whisper => "whisper"@,
        EngineType::Parakeet => "parakeet"@,
        EngineType::Moonshine => "moonshine"@,
        EngineType::MoonshineStreaming => "moonshine streaming"@,
        EngineType::SenseVoice => "SenseVoice"@,
        EngineType::GigaAM => "gigaam"@,
        EngineType::Canary => "canary"@,
        EngineType::Cohere => "cohere"@,
        EngineType::Doubao => "doubao"@,
    }
}

/// The error of an engine that could not be loaded from its files.
pub open spec fn load_error(
    engine: EngineType,
    model_id: Seq<char>,
    error: Seq<char>,
) -> Seq<char> {
    "Failed to load "@ + loader_name(engine) + " model "@ + model_id + ": "@ + error
}

/// Announces that an engine could not be loaded from its files.
pub fn engine_load_failed(model_id: &str, info: &ModelInfo, error: &str) -> (r: LoadFailure)
    ensures
        announces_failure(
            r,
            model_id@,
            *info,
            load_error(info.engine_type, model_id@, error@),
        ),
{
    let name = match info.engine_type {
        EngineType::Whisper => "whisper",
        EngineType::Parakeet => "parakeet",
        EngineType::Moonshine => "moonshine",
        EngineType::MoonshineStreaming => "moonshine streaming",
        EngineType::SenseVoice => "SenseVoice",
        EngineType::GigaAM => "gigaam",
        EngineType::Canary => "canary",
        EngineType::Cohere => "cohere",
        EngineType::Doubao => "doubao",
    };
    let message = "Failed to load ".to_owned().concat(name).concat(" model ").concat(
        model_id,
    ).concat(": ").concat(error);
    announced_failure(model_id, info, message)
}

/// A session that is to upload while recording.
pub struct DoubaoStreamPlan {
    pub api_key: String,
    pub resource_id: String,
    /// Whether intermediate texts are typed.
    pub streaming_paste: bool,
}

/// The right to load a model: there is one at a time, and giving it back ends the loading.
#[derive(Debug)]
pub struct LoadingGuard {
    _private: (),
}

/// Whether a transcription can start.
#[derive(Debug, Clone, Copy, PartialEq, Eq, Structural)]
pub enum Readiness {
    /// A model is being loaded; wait until that is over.
    Wait,
    NotLoaded,
    Ready,
}

/// How a transcription begins.
#[derive(Debug)]
pub enum TranscriptionStart {
    /// There is no audio: the text is empty, and perhaps the model was unloaded.
    Empty(Option<ModelStateEvent>),
    /// There is audio.
    Audio,
}

/// Why there is no transcription.
#[derive(Debug)]
pub enum TranscriptionError {
    NotLoaded,
    EngineGone,
    /// The engine panicked with this message.
    Panicked(String),
    /// The engine failed with this message.
    Failed(String),
}

impl TranscriptionError {
    /// The text of the error.
    pub open spec fn text(self) -> Seq<char> {
        match self {
            TranscriptionError::NotLoaded => "Model is not loaded for transcription."@,
            TranscriptionError::EngineGone =>
                "Model failed to load after auto-load attempt. Please check your model settings."@,
            TranscriptionError::Panicked(message) => "Transcription engine panicked: "@ + message@
                + ". The model has been unloaded and will reload on next attempt."@,
            TranscriptionError::Failed(message) => message@,
        }
    }

    /// The error as a message.
    pub fn message(&self) -> (r: String)
        ensures
            r@ == self.text(),
    {
        match self {
            TranscriptionError::NotLoaded => "Model is not loaded for transcription.".to_owned(),
            TranscriptionError::EngineGone =>
                "Model failed to load after auto-load attempt. Please check your model settings.".to_owned(),
            TranscriptionError::Panicked(message) =>
                "Transcription engine panicked: ".to_owned().concat(message.as_str()).concat(
                ". The model has been unloaded and will reload on next attempt.",
            ),
            TranscriptionError::Failed(message) => message.clone(),
        }
    }
}

/// The manager. `E` is an engine, `S` a session that uploads while recording, `P` the
/// handle of the text that is typed meanwhile.
#[derive(Debug)]
pub struct TranscriptionManager<E, S, P> {
    engine: Option<E>,
    current_model_id: Option<String>,
    last_activity: u64,
    is_loading: bool,
    doubao_stream: Option<S>,
    streaming_paste: Option<P>,
}

/// The manager as a mathematical value.
#[verifier::ext_equal]
pub struct ManagerState<E, S, P> {
    pub engine: Option<E>,
    pub current_model: Option<Seq<char>>,
    /// The time of the last activity, in milliseconds.
    pub last_activity: u64,
    pub is_loading: bool,
    pub doubao_stream: Option<S>,
    pub streaming_paste: Option<P>,
}

impl<E, S, P> View for TranscriptionManager<E, S, P> {
    type V = ManagerState<E, S, P>;

    closed spec fn view(&self) -> ManagerState<E, S, P> {
        ManagerState {
            engine: self.engine,
            current_model: opt_text(self.current_model_id),
            last_activity: self.last_activity,
            is_loading: self.is_loading,
            doubao_stream: self.doubao_stream,
            streaming_paste: self.streaming_paste,
        }
    }
}

impl<E, S, P> ManagerState<E, S, P> {
    /// The manager without a model.
    pub open spec fn unloaded(self) -> Self {
        ManagerState { engine: None, current_model: None, ..self }
    }

    /// The manager after activity at the time `now`.
    pub open spec fn touched(self, now: u64) -> Self {
        ManagerState { last_activity: now, ..self }
    }

    /// The manager while its engine is in use.
    pub open spec fn engine_out(self) -> Self {
        ManagerState { engine: None, ..self }
    }

    /// The manager with an engine put back.
    pub open spec fn engine_back(self, engine: E) -> Self {
        ManagerState { engine: Some(engine), ..self }
    }

    /// The manager after its engine, while in use, panicked.
    pub open spec fn engine_lost(self) -> Self {
        ManagerState { current_model: None, ..self }
    }

    /// The manager with a model that was loaded at the time `now`.
    pub open spec fn loaded(self, engine: E, model_id: Seq<char>, now: u64) -> Self {
        ManagerState {
            engine: Some(engine),
            current_model: Some(model_id),
            last_activity: now,
            ..self
        }
    }

    /// The manager while a model is being loaded, or when that is over.
    pub open spec fn loading(self, is_loading: bool) -> Self {
        ManagerState { is_loading, ..self }
    }

    /// The manager with a session that was started, and the handle of what it types.
    pub open spec fn streaming(self, session: S, paste: Option<P>) -> Self {
        ManagerState { doubao_stream: Some(session), streaming_paste: paste, ..self }
    }

    /// The manager with its session handed out.
    pub open spec fn stream_out(self) -> Self {
        ManagerState { doubao_stream: None, ..self }
    }

    /// The manager with the handle of what was typed handed out.
    pub open spec fn paste_out(self) -> Self {
        ManagerState { streaming_paste: None, ..self }
    }

    /// Whether a transcription can go on.
    pub open spec fn readiness(self) -> Readiness {
        if self.is_loading {
            Readiness::Wait
        } else if self.engine is None {
            Readiness::NotLoaded
        } else {
            Readiness::Ready
        }
    }

    /// Whether a model may start to load.
    pub open spec fn grants_loading(self) -> bool {
        !self.is_loading
    }

    /// Whether the selected model is to be loaded.
    pub open spec fn starts_to_load(self, settings: AppSettings) -> bool {
        !self.is_loading && !self.matches_selection(settings)
    }

    /// Whether the loaded engine is that of the selected model.
    pub open spec fn matches_selection(self, settings: AppSettings) -> bool {
        self.engine is Some && self.current_model == Some(settings.selected_model@)
    }

    /// Whether the settings have the model unloaded after each transcription.
    pub open spec fn unloads_at_once(self, settings: AppSettings) -> bool {
        settings.model_unload_timeout == ModelUnloadTimeout::Immediately && self.engine is Some
    }

    /// Whether the model has been idle for longer than the settings allow.
    pub open spec fn idle_too_long(self, now: u64, settings: AppSettings) -> bool {
        match settings.model_unload_timeout {
            ModelUnloadTimeout::After { seconds } => now - self.last_activity > seconds * 1000
                && self.engine is Some,
            _ => false,
        }
    }
}

/// Whether `r` is the session, if there is to be one, that uploads while recording.
pub open spec fn is_stream_plan(
    info: Option<ModelInfo>,
    settings: AppSettings,
    r: Option<DoubaoStreamPlan>,
) -> bool {
    let key = usable_key(settings.doubao_credentials);
    if runs_on(info, EngineType::Doubao) && key is Some {
        &&& r is Some
        &&& r->0.api_key@ == key->0
        &&& r->0.resource_id@ == resource_text(settings.doubao_credentials)
        &&& r->0.streaming_paste == (settings.streaming_paste && settings.paste_method
            != PasteMethod::Disabled)
    } else {
        r is None
    }
}

/// Whether `post` and `event` are what the idle check comes to at the time `now`.
pub open spec fn idle_check<E, S, P>(
    pre: ManagerState<E, S, P>,
    now: u64,
    recording: bool,
    settings: AppSettings,
    post: ManagerState<E, S, P>,
    event: Option<ModelStateEvent>,
) -> bool {
    if settings.model_unload_timeout == ModelUnloadTimeout::Immediately {
        post == pre && event is None
    } else if recording {
        post == pre.touched(now) && event is None
    } else {
        unloads_when(pre.idle_too_long(now, settings), pre, post, event)
    }
}

/// Whether `r` is what a recognised text of the selected model comes to.
pub open spec fn postprocesses<
    C: Fn(&str, &Vec<String>, u64) -> String,
    G: Fn(&str, &str, &Option<Vec<String>>) -> String,
>(
    raw: Seq<char>,
    info: Option<ModelInfo>,
    settings: AppSettings,
    correct: C,
    filter: G,
    r: String,
) -> bool {
    postprocessing(raw, runs_on(info, EngineType::Whisper), settings, correct, filter, r)
}

/// Whether `event` says that the model was unloaded.
pub open spec fn says_unloaded(event: ModelStateEvent) -> bool {
    event.says("unloaded"@, None, None, None)
}

/// Whether `pre`, `post` and `event` are those of a step that unloads the model if `when`
/// holds, and does nothing if not.
pub open spec fn unloads_when<E, S, P>(
    when: bool,
    pre: ManagerState<E, S, P>,
    post: ManagerState<E, S, P>,
    event: Option<ModelStateEvent>,
) -> bool {
    if when {
        &&& post == pre.unloaded()
        &&& event is Some
        &&& says_unloaded(event->0)
    } else {
        &&& post == pre
        &&& event is None
    }
}

impl<E, S, P> TranscriptionManager<E, S, P> {
    /// Makes a manager without a model, at the time `now`.
    pub fn new(now: u64) -> (r: Self)
        ensures
            r@ == (ManagerState::<E, S, P> {
                engine: None,
                current_model: None,
                last_activity: now,
                is_loading: false,
                doubao_stream: None,
                streaming_paste: None,
            }),
    {
        TranscriptionManager {
            engine: None,
            current_model_id: None,
            last_activity: now,
            is_loading: false,
            doubao_stream: None,
            streaming_paste: None,
        }
    }

    /// Tells whether an engine is loaded.
    pub fn is_model_loaded(&self) -> (r: bool)
        ensures
            r == (self@.engine is Some),
    {
        self.engine.is_some()
    }

    /// The id of the model that was loaded last and not unloaded.
    pub fn get_current_model(&self) -> (r: Option<String>)
        ensures
            opt_text(r) == self@.current_model,
    {
        match &self.current_model_id {
            Some(id) => Some(id.clone()),
            None => None,
        }
    }

    /// Starts loading a model, unless one is being loaded.
    pub fn try_start_loading(&mut self) -> (r: Option<LoadingGuard>)
        ensures
            r is Some <==> !old(self)@.is_loading,
            r is Some <==> old(self)@.grants_loading(),
            final(self)@ == old(self)@.loading(true),
    {
        if self.is_loading {
            return None;
        }
        self.is_loading = true;
        Some(LoadingGuard { _private: () })
    }

    /// Ends the loading that `guard` stands for, however it went.
    pub fn finish_loading(&mut self, guard: LoadingGuard)
        ensures
            final(self)@ == old(self)@.loading(false),
    {
        self.is_loading = false;
    }

    /// Starts loading the selected model, unless it is loaded or a model is being loaded.
    /// An engine of another model is no reason not to.
    pub fn initiate_model_load(&mut self, settings: &AppSettings) -> (r: Option<LoadingGuard>)
        ensures
            r is Some <==> !old(self)@.is_loading && !old(self)@.matches_selection(*settings),
            final(self)@ == (if r is Some {
                old(self)@.loading(true)
            } else {
                old(self)@
            }),
            r is Some <==> old(self)@.starts_to_load(*settings),
    {
        if self.is_loading || self.loaded_engine_matches_selection(settings) {
            return None;
        }
        self.try_start_loading()
    }

    /// Tells whether the loaded engine is that of the selected model.
    pub fn loaded_engine_matches_selection(&self, settings: &AppSettings) -> (r: bool)
        ensures
            r == self@.matches_selection(*settings),
    {
        let current = match &self.current_model_id {
            Some(id) => same_text(id.as_str(), settings.selected_model.as_str()),
            None => false,
        };
        current && self.is_model_loaded()
    }

    /// Takes in an engine that has been loaded, at the time `now`.
    pub fn engine_loaded(
        &mut self,
        engine: E,
        model_id: &str,
        info: &ModelInfo,
        now: u64,
    ) -> (r: ModelStateEvent)
        ensures
            final(self)@ == old(self)@.loaded(engine, model_id@, now),
            r.says("loading_completed"@, Some(model_id@), Some(info.name@), None),
    {
        self.engine = Some(engine);
        self.current_model_id = Some(model_id.to_owned());
        self.touch_activity(now);
        ModelStateEvent {
            event_type: "loading_completed".to_owned(),
            model_id: Some(model_id.to_owned()),
            model_name: Some(info.name.clone()),
            error: None,
        }
    }

    /// Unloads the model.
    pub fn unload_model(&mut self) -> (r: ModelStateEvent)
        ensures
            final(self)@ == old(self)@.unloaded(),
            says_unloaded(r),
    {
        self.engine = None;
        self.current_model_id = None;
        ModelStateEvent {
            event_type: "unloaded".to_owned(),
            model_id: None,
            model_name: None,
            error: None,
        }
    }

    /// Notes activity at the time `now`.
    pub fn touch_activity(&mut self, now: u64)
        ensures
            final(self)@ == old(self)@.touched(now),
    {
        self.last_activity = now;
    }

    /// Unloads the model where the settings ask for that after each transcription.
    pub fn maybe_unload_immediately(&mut self, settings: &AppSettings) -> (r: Option<
        ModelStateEvent,
    >)
        ensures
            unloads_when(old(self)@.unloads_at_once(*settings), old(self)@, final(self)@, r),
    {
        if settings.model_unload_timeout == ModelUnloadTimeout::Immediately
            && self.is_model_loaded() {
            Some(self.unload_model())
        } else {
            None
        }
    }

    /// Looks, at the time `now`, whether the model has been idle for too long. A recording
    /// counts as activity. Where models are unloaded after each transcription, nothing
    /// happens here: that could be in the middle of a recording.
    pub fn check_idle(&mut self, now: u64, recording: bool, settings: &AppSettings) -> (r: Option<
        ModelStateEvent,
    >)
        ensures
            if settings.model_unload_timeout == ModelUnloadTimeout::Immediately {
                final(self)@ == old(self)@ && r is None
            } else if recording {
                final(self)@ == old(self)@.touched(now) && r is None
            } else {
                unloads_when(
                    old(self)@.idle_too_long(now, *settings),
                    old(self)@,
                    final(self)@,
                    r,
                )
            },
            idle_check(old(self)@, now, recording, *settings, final(self)@, r),
    {
        if settings.model_unload_timeout == ModelUnloadTimeout::Immediately {
            return None;
        }
        if recording {
            self.touch_activity(now);
            return None;
        }
        if let ModelUnloadTimeout::After { seconds } = settings.model_unload_timeout {
            let idle: u64 = now.saturating_sub(self.last_activity);
            let limit: u128 = seconds as u128 * 1000;
            if idle as u128 > limit && self.is_model_loaded() {
                return Some(self.unload_model());
            }
        }
        None
    }

    /// Plans the session that uploads while recording: there is one where the selected
    /// model is that of the cloud recogniser and a key is configured. Its texts are typed
    /// while they come where the settings ask for it and pasting is enabled.
    pub fn begin_doubao_stream(
        &self,
        info: &Option<ModelInfo>,
        settings: &AppSettings,
    ) -> (r: Option<DoubaoStreamPlan>)
        ensures
            r is Some <==> runs_on(*info, EngineType::Doubao) && usable_key(
                settings.doubao_credentials,
            ) is Some,
            r matches Some(plan) ==> {
                &&& Some(plan.api_key@) == usable_key(settings.doubao_credentials)
                &&& plan.resource_id@ == resource_text(settings.doubao_credentials)
                &&& plan.streaming_paste == (settings.streaming_paste && settings.paste_method
                    != PasteMethod::Disabled)
            },
            is_stream_plan(*info, *settings, r),
            r matches Some(plan) ==> {
                &&& settings.doubao_credentials.api_key matches Some(key) && plan.api_key@ == key@
                &&& settings.doubao_credentials.resource_id matches Some(id)
                    ==> plan.resource_id@ == id@
            },
    {
        if !is_engine(info, EngineType::Doubao) {
            return None;
        }
        match configured_key(&settings.doubao_credentials) {
            Some(api_key) => Some(
                DoubaoStreamPlan {
                    api_key,
                    resource_id: configured_resource(&settings.doubao_credentials),
                    streaming_paste: settings.streaming_paste && settings.paste_method
                        != PasteMethod::Disabled,
                },
            ),
            None => None,
        }
    }

    /// Keeps the session that was started, and the handle of what it types.
    pub fn doubao_stream_started(&mut self, session: S, paste: Option<P>)
        ensures
            final(self)@ == (ManagerState {
                doubao_stream: Some(session),
                streaming_paste: paste,
                ..old(self)@
            }),
            final(self)@ == old(self)@.streaming(session, paste),
    {
        self.doubao_stream = Some(session);
        self.streaming_paste = paste;
    }

    /// Hands out the session, if there is one, for the end of the recording.
    pub fn take_doubao_stream(&mut self) -> (r: Option<S>)
        ensures
            r == old(self)@.doubao_stream,
            final(self)@ == (ManagerState { doubao_stream: None, ..old(self)@ }),
            final(self)@ == old(self)@.stream_out(),
    {
        self.doubao_stream.take()
    }

    /// Hands out the session and the handle of what it typed, to be aborted and taken back.
    pub fn abort_doubao_stream(&mut self) -> (r: (Option<S>, Option<P>))
        ensures
            r.0 == old(self)@.doubao_stream,
            r.1 == old(self)@.streaming_paste,
            final(self)@ == (ManagerState {
                doubao_stream: None,
                streaming_paste: None,
                ..old(self)@
            }),
            final(self)@ == old(self)@.stream_out().paste_out(),
    {
        let session = self.take_doubao_stream();
        let paste = self.abort_streaming_paste();
        (session, paste)
    }

    /// Hands out the handle of what was typed, to be brought to the final text. Without one
    /// the text is pasted as a whole.
    pub fn finalize_streaming_paste(&mut self) -> (r: Option<P>)
        ensures
            r == old(self)@.streaming_paste,
            final(self)@ == (ManagerState { streaming_paste: None, ..old(self)@ }),
            final(self)@ == old(self)@.paste_out(),
    {
        self.streaming_paste.take()
    }

    /// Hands out the handle of what was typed, to be taken back.
    pub fn abort_streaming_paste(&mut self) -> (r: Option<P>)
        ensures
            r == old(self)@.streaming_paste,
            final(self)@ == (ManagerState { streaming_paste: None, ..old(self)@ }),
            final(self)@ == old(self)@.paste_out(),
    {
        self.streaming_paste.take()
    }

    /// Begins a transcription at the time `now`. Without audio it is over, and the model
    /// may be unloaded as after any other.
    pub fn begin_transcription(
        &mut self,
        now: u64,
        has_audio: bool,
        settings: &AppSettings,
    ) -> (r: TranscriptionStart)
        ensures
            ({
                let touched = old(self)@.touched(now);
                match r {
                    TranscriptionStart::Audio => has_audio && final(self)@ == touched,
                    TranscriptionStart::Empty(event) => !has_audio && unloads_when(
                        touched.unloads_at_once(*settings),
                        touched,
                        final(self)@,
                        event,
                    ),
                }
            }),
    {
        self.touch_activity(now);
        if has_audio {
            TranscriptionStart::Audio
        } else {
            TranscriptionStart::Empty(self.maybe_unload_immediately(settings))
        }
    }

    /// Tells whether a transcription can go on. While a model is being loaded it waits,
    /// whether or not there is an engine.
    pub fn readiness(&self) -> (r: Readiness)
        ensures
            r == (if self@.is_loading {
                Readiness::Wait
            } else if self@.engine is None {
                Readiness::NotLoaded
            } else {
                Readiness::Ready
            }),
            r == self@.readiness(),
    {
        if self.is_loading {
            Readiness::Wait
        } else if self.engine.is_none() {
            Readiness::NotLoaded
        } else {
            Readiness::Ready
        }
    }

    /// Takes the engine out for a transcription, so that one that panics is not kept.
    pub fn take_engine(&mut self) -> (r: Result<E, TranscriptionError>)
        ensures
            r == (match old(self)@.engine {
                Some(engine) => Ok::<_, TranscriptionError>(engine),
                None => Err(TranscriptionError::EngineGone),
            }),
            final(self)@ == old(self)@.engine_out(),
    {
        match self.engine.take() {
            Some(engine) => Ok(engine),
            None => Err(TranscriptionError::EngineGone),
        }
    }

    /// Puts the engine back after a transcription that succeeded or failed, and passes its
    /// result on.
    pub fn engine_returned(&mut self, engine: E, result: Result<String, String>) -> (r: Result<
        String,
        TranscriptionError,
    >)
        ensures
            final(self)@ == old(self)@.engine_back(engine),
            r == (match result {
                Ok(text) => Ok::<_, TranscriptionError>(text),
                Err(message) => Err(TranscriptionError::Failed(message)),
            }),
    {
        self.engine = Some(engine);
        match result {
            Ok(text) => Ok(text),
            Err(message) => Err(TranscriptionError::Failed(message)),
        }
    }

    /// Notes that the engine, which was taken out, panicked: the model is no longer loaded.
    pub fn engine_panicked(&mut self, message: String) -> (r: (ModelStateEvent, TranscriptionError))
        ensures
            final(self)@ == old(self)@.engine_lost(),
            r.0.says("unloaded"@, None, None, Some("Engine panicked: "@ + message@)),
            r.1 == TranscriptionError::Panicked(message),
    {
        self.current_model_id = None;
        let event = ModelStateEvent {
            event_type: "unloaded".to_owned(),
            model_id: None,
            model_name: None,
            error: Some("Engine panicked: ".to_owned().concat(message.as_str())),
        };
        (event, TranscriptionError::Panicked(message))
    }

    /// Post-processes a recognised text for the selected model: Whisper has been given the
    /// custom words, so that they are not applied to its text again.
    pub fn postprocess_transcript<
        C: Fn(&str, &Vec<String>, u64) -> String,
        G: Fn(&str, &str, &Option<Vec<String>>) -> String,
    >(
        raw_text: &str,
        info: &Option<ModelInfo>,
        settings: &AppSettings,
        correct: C,
        filter: G,
    ) -> (r: String)
        requires
            forall|t: &str, words: &Vec<String>, threshold: u64| #[trigger]
                call_requires(correct, (t, words, threshold)),
            forall|t: &str, language: &str, fillers: &Option<Vec<String>>| #[trigger]
                call_requires(filter, (t, language, fillers)),
        ensures
            postprocessing(
                raw_text@,
                runs_on(*info, EngineType::Whisper),
                *settings,
                correct,
                filter,
                r,
            ),
            postprocesses(raw_text@, *info, *settings, correct, filter, r),
    {
        postprocess_transcript_text(
            raw_text,
            is_engine(info, EngineType::Whisper),
            settings,
            correct,
            filter,
        )
    }
}

/// A transcription that does not panic leaves the manager as it was, engine and all.
pub proof fn transcription_keeps_the_engine<E, S, P>(state: ManagerState<E, S, P>)
    requires
        state.engine is Some,
    ensures
        state.engine_out().engine_back(state.engine->0) == state,
{
}

/// A transcription that panics unloads the model, so that the selected one is loaded anew;
/// the sessions go on.
pub proof fn panic_unloads_the_model<E, S, P>(
    state: ManagerState<E, S, P>,
    settings: AppSettings,
)
    ensures
        state.engine_out().engine_lost() == state.unloaded(),
        !state.engine_out().engine_lost().matches_selection(settings),
{
}

/// An engine is used for no other model than the one it was loaded for.
pub proof fn stale_engine_does_not_match<E, S, P>(
    state: ManagerState<E, S, P>,
    engine: E,
    model_id: Seq<char>,
    now: u64,
    settings: AppSettings,
)
    ensures
        state.loaded(engine, model_id, now).matches_selection(settings) <==> model_id
            == settings.selected_model@,
{
}

/// The idle check unloads no model before the full time has gone by since it was loaded
/// or last used.
pub proof fn activity_keeps_the_model<E, S, P>(
    state: ManagerState<E, S, P>,
    active: u64,
    now: u64,
    seconds: u64,
    settings: AppSettings,
)
    requires
        settings.model_unload_timeout == (ModelUnloadTimeout::After { seconds }),
        now <= active + seconds * 1000,
    ensures
        !state.touched(active).idle_too_long(now, settings),
        forall|engine: E, model_id: Seq<char>| #[trigger]
            state.loaded(engine, model_id, active).idle_too_long(now, settings) == false,
{
}

/// The configured credentials are what is used. A key that is not blank makes a client of the
/// cloud recogniser with this very key, and a resource that is not blank is the client's
/// resource; without a resource, or with a blank one, the client has the default one. Without
/// a key, or with a blank one, there is no client.
pub proof fn configured_credentials_are_used(
    model_id: Seq<char>,
    info: ModelInfo,
    settings: AppSettings,
    r: Result<EngineRecipe, LoadFailure>,
)
    requires
        is_recipe(model_id, info, settings, r),
        info.engine_type == EngineType::Doubao,
    ensures
        match settings.doubao_credentials.api_key {
            Some(key) => {
                &&& blank(key@) ==> r is Err
                &&& !blank(key@) ==> {
                    &&& r matches Ok(EngineRecipe::Cloud(client)) && {
                        &&& client.api_key@ == key@
                        &&& match settings.doubao_credentials.resource_id {
                            Some(id) => {
                                &&& !blank(id@) ==> client.resource_id@ == id@
                                &&& blank(id@) ==> client.resource_id@
                                    == "volc.seedasr.sauc.duration"@
                            },
                            None => client.resource_id@ == "volc.seedasr.sauc.duration"@,
                        }
                        &&& client.endpoint@ == "wss://openspeech.bytedance.com/api/v3/sauc/bigmodel_async"@
                    }
                }
            },
            None => r is Err,
        },
{
}

/// A session that uploads while recording is planned just where the selected model is known
/// and that of the cloud recogniser and a key is configured that is not blank. It has this
/// very key and, where a resource is configured, this very resource, blank or not. Its texts
/// are typed while they come just where the settings ask for it and pasting is on.
pub proof fn stream_plans_use_the_credentials(
    info: Option<ModelInfo>,
    settings: AppSettings,
    r: Option<DoubaoStreamPlan>,
)
    requires
        is_stream_plan(info, settings, r),
    ensures
        r is Some <==> {
            &&& info matches Some(info) && info.engine_type == EngineType::Doubao
            &&& settings.doubao_credentials.api_key matches Some(key) && !blank(key@)
        },
        r matches Some(plan) ==> {
            &&& settings.doubao_credentials.api_key matches Some(key) && plan.api_key@ == key@
            &&& settings.doubao_credentials.resource_id matches Some(id) ==> plan.resource_id@
                == id@
            &&& settings.doubao_credentials.resource_id is None ==> plan.resource_id@.len() == 0
            &&& plan.streaming_paste <==> settings.streaming_paste && settings.paste_method
                == PasteMethod::Enabled
        },
{
}

/// Both ways of transcribing connect alike: under the same settings there is a client for
/// complete recordings just where there is a session that uploads meanwhile, and they have
/// the same key and, unless it is blank, the same resource.
pub proof fn both_ways_of_transcribing_use_the_same_credentials(
    model_id: Seq<char>,
    info: ModelInfo,
    settings: AppSettings,
    recipe: Result<EngineRecipe, LoadFailure>,
    plan: Option<DoubaoStreamPlan>,
)
    requires
        info.engine_type == EngineType::Doubao,
        is_recipe(model_id, info, settings, recipe),
        is_stream_plan(Some(info), settings, plan),
    ensures
        recipe is Ok <==> plan is Some,
        plan matches Some(plan) ==> {
            &&& recipe matches Ok(EngineRecipe::Cloud(client)) && {
                &&& client.api_key@ == plan.api_key@
                &&& !blank(plan.resource_id@) ==> client.resource_id@ == plan.resource_id@
            }
        },
{
}

/// Engines other than the cloud recogniser are loaded from files, whatever the settings:
/// Moonshine's models as they are by default, Whisper's without asking, all others quantised.
pub proof fn local_engines_are_loaded_from_files(
    model_id: Seq<char>,
    info: ModelInfo,
    settings: AppSettings,
    r: Result<EngineRecipe, LoadFailure>,
)
    requires
        is_recipe(model_id, info, settings, r),
        info.engine_type != EngineType::Doubao,
    ensures
        r matches Ok(EngineRecipe::Local { engine, weights }) && {
            &&& engine == info.engine_type
            &&& weights == Weights::Unspecified <==> engine == EngineType::Whisper
            &&& weights == Weights::Standard <==> engine == EngineType::Moonshine || engine
                == EngineType::MoonshineStreaming
            &&& weights == Weights::Int8 <==> engine == EngineType::Parakeet || engine
                == EngineType::SenseVoice || engine == EngineType::GigaAM || engine
                == EngineType::Canary || engine == EngineType::Cohere
        },
{
}

/// A model is accepted for loading, as it is, just where it is known and downloaded. One that
/// is not known is refused without a word to those who watch; one that is not downloaded is
/// announced by its id and name with the error that is returned.
pub proof fn known_and_downloaded_models_are_accepted(
    model_id: Seq<char>,
    info: Option<ModelInfo>,
    r: Result<ModelInfo, LoadFailure>,
)
    requires
        accepted(model_id, info, r),
    ensures
        r is Ok <==> info is Some && info->0.is_downloaded,
        r matches Ok(found) ==> info == Some(found),
        r matches Err(failure) ==> {
            &&& failure.event is Some <==> info is Some
            &&& info is None ==> failure.error@ == "Model not found: "@ + model_id
            &&& failure.event matches Some(event) ==> {
                &&& event.event_type@ == "loading_failed"@
                &&& event.model_id matches Some(id) && id@ == model_id
                &&& event.model_name matches Some(name) && name@ == info->0.name@
                &&& event.error matches Some(error) && error@ == failure.error@
            }
        },
{
}

/// A failure that is announced is announced as what it is: those who watch are told the model
/// and the very error that is returned.
pub proof fn failures_are_announced_as_they_are(
    failure: LoadFailure,
    model_id: Seq<char>,
    info: ModelInfo,
    error: Seq<char>,
)
    requires
        announces_failure(failure, model_id, info, error),
    ensures
        failure.error@ == error,
        failure.event matches Some(event) && {
            &&& event.event_type@ == "loading_failed"@
            &&& event.model_id matches Some(id) && id@ == model_id
            &&& event.model_name matches Some(name) && name@ == info.name@
            &&& event.error matches Some(told) && told@ == error
        },
{
}

/// An engine that could not be loaded is named in the error, with its model and the reason.
pub proof fn load_errors_name_their_engine(model_id: Seq<char>, error: Seq<char>)
    ensures
        load_error(EngineType::Whisper, model_id, error) == "Failed to load "@ + "whisper"@
            + " model "@ + model_id + ": "@ + error,
        load_error(EngineType::Parakeet, model_id, error) == "Failed to load "@ + "parakeet"@
            + " model "@ + model_id + ": "@ + error,
        load_error(EngineType::Moonshine, model_id, error) == "Failed to load "@ + "moonshine"@
            + " model "@ + model_id + ": "@ + error,
        load_error(EngineType::MoonshineStreaming, model_id, error) == "Failed to load "@
            + "moonshine streaming"@ + " model "@ + model_id + ": "@ + error,
        load_error(EngineType::SenseVoice, model_id, error) == "Failed to load "@
            + "SenseVoice"@ + " model "@ + model_id + ": "@ + error,
        load_error(EngineType::GigaAM, model_id, error) == "Failed to load "@ + "gigaam"@
            + " model "@ + model_id + ": "@ + error,
        load_error(EngineType::Canary, model_id, error) == "Failed to load "@ + "canary"@
            + " model "@ + model_id + ": "@ + error,
        load_error(EngineType::Cohere, model_id, error) == "Failed to load "@ + "cohere"@
            + " model "@ + model_id + ": "@ + error,
{
}

/// What the idle check does, by the clock and the settings alone. It unloads the model just
/// where there is an engine, nothing is being recorded, the settings give a number of seconds
/// and more than these have gone by since the last activity. A recording counts as activity,
/// except where models are unloaded after each transcription. Nothing else changes.
pub proof fn idle_models_are_unloaded<E, S, P>(
    pre: ManagerState<E, S, P>,
    now: u64,
    recording: bool,
    settings: AppSettings,
    post: ManagerState<E, S, P>,
    event: Option<ModelStateEvent>,
)
    requires
        idle_check(pre, now, recording, settings, post, event),
    ensures
        event is Some <==> !recording && pre.engine is Some && (
        settings.model_unload_timeout matches ModelUnloadTimeout::After { seconds } && now
            > pre.last_activity + 1000 * seconds),
        event is Some ==> post.engine is None && post.current_model is None,
        event is None ==> post.engine == pre.engine && post.current_model == pre.current_model,
        post.last_activity == (if recording && settings.model_unload_timeout
            != ModelUnloadTimeout::Immediately {
            now
        } else {
            pre.last_activity
        }),
        post.is_loading == pre.is_loading,
        post.doubao_stream == pre.doubao_stream,
        post.streaming_paste == pre.streaming_paste,
{
}

/// A model is not unloaded within the time that the settings allow after a check that found a
/// recording, however long it had been idle before.
pub proof fn recordings_keep_the_model<E, S, P>(
    first: ManagerState<E, S, P>,
    second: ManagerState<E, S, P>,
    third: ManagerState<E, S, P>,
    then: u64,
    now: u64,
    seconds: u64,
    settings: AppSettings,
    event_then: Option<ModelStateEvent>,
    event_now: Option<ModelStateEvent>,
)
    requires
        settings.model_unload_timeout == (ModelUnloadTimeout::After { seconds }),
        idle_check(first, then, true, settings, second, event_then),
        idle_check(second, now, false, settings, third, event_now),
        now <= then + 1000 * seconds,
    ensures
        event_then is None,
        event_now is None,
        third.engine == first.engine,
        third.current_model == first.current_model,
{
}

/// What a step that may unload the model does. It tells those who watch just where it unloads,
/// and then without a model or an error; the engine and the name of the model go together, and
/// nothing else changes.
pub proof fn unloading_is_told<E, S, P>(
    when: bool,
    pre: ManagerState<E, S, P>,
    post: ManagerState<E, S, P>,
    event: Option<ModelStateEvent>,
)
    requires
        unloads_when(when, pre, post, event),
    ensures
        event is Some <==> when,
        event matches Some(event) ==> {
            &&& event.event_type@ == "unloaded"@
            &&& event.model_id is None
            &&& event.model_name is None
            &&& event.error is None
            &&& post.engine is None
            &&& post.current_model is None
        },
        event is None ==> post.engine == pre.engine && post.current_model == pre.current_model,
        post.last_activity == pre.last_activity,
        post.is_loading == pre.is_loading,
        post.doubao_stream == pre.doubao_stream,
        post.streaming_paste == pre.streaming_paste,
{
}

/// A transcription is followed by unloading just where the settings ask for it at once and
/// there is an engine; with any number of seconds, or with none, it is not.
pub proof fn only_at_once_unloads_after_a_transcription<E, S, P>(
    state: ManagerState<E, S, P>,
    settings: AppSettings,
)
    ensures
        state.unloads_at_once(settings) <==> state.engine is Some
            && settings.model_unload_timeout is Immediately,
        settings.model_unload_timeout is Never ==> !state.unloads_at_once(settings),
        settings.model_unload_timeout is After ==> !state.unloads_at_once(settings),
{
}

/// Each change of the manager touches its own part and can be taken back by another: noting
/// activity again forgets the first time, ending a loading undoes its start, unloading undoes
/// loading but for the time, and what is handed out was what was put in.
pub proof fn changes_keep_to_their_part<E, S, P>(
    state: ManagerState<E, S, P>,
    engine: E,
    model_id: Seq<char>,
    session: S,
    paste: Option<P>,
    then: u64,
    now: u64,
)
    ensures
        state.touched(then).touched(state.last_activity) == state,
        state.touched(then).last_activity == then,
        state.loading(true).is_loading,
        !state.loading(false).is_loading,
        state.loading(!state.is_loading).loading(state.is_loading) == state,
        state.loaded(engine, model_id, now).engine == Some(engine),
        state.loaded(engine, model_id, now).current_model == Some(model_id),
        state.loaded(engine, model_id, now).last_activity == now,
        state.loaded(engine, model_id, now).unloaded() == state.unloaded().touched(now),
        state.unloaded().engine is None && state.unloaded().current_model is None,
        state.unloaded().is_loading == state.is_loading,
        state.unloaded().doubao_stream == state.doubao_stream,
        state.unloaded().streaming_paste == state.streaming_paste,
        state.unloaded().last_activity == state.last_activity,
        state.engine_out().engine is None,
        state.engine_out().current_model == state.current_model,
        state.engine_back(engine).engine == Some(engine),
        state.engine_lost().current_model is None,
        state.engine_lost().engine == state.engine,
        state.streaming(session, paste).doubao_stream == Some(session),
        state.streaming(session, paste).streaming_paste == paste,
        state.streaming(session, paste).stream_out().paste_out()
            == state.stream_out().paste_out(),
        state.stream_out().doubao_stream is None,
        state.stream_out().streaming_paste == state.streaming_paste,
        state.stream_out().engine == state.engine,
        state.paste_out().streaming_paste is None,
        state.paste_out().doubao_stream == state.doubao_stream,
        state.paste_out().engine == state.engine,
{
}

/// A transcription waits just while a model is being loaded, engine or not, and goes on just
/// where there is an engine and none is being loaded.
pub proof fn transcriptions_wait_for_loading<E, S, P>(state: ManagerState<E, S, P>)
    ensures
        state.readiness() == Readiness::Wait <==> state.is_loading,
        state.readiness() == Readiness::Ready <==> !state.is_loading && state.engine is Some,
        state.readiness() == Readiness::NotLoaded <==> !state.is_loading && state.engine is None,
{
}

/// The selected model is loaded just where none is being loaded and no engine of that model is
/// there: a stale engine, or the name of a model without an engine, is no reason not to.
pub proof fn the_selected_model_is_loaded_once<E, S, P>(
    state: ManagerState<E, S, P>,
    settings: AppSettings,
)
    ensures
        state.starts_to_load(settings) <==> !state.is_loading && (state.engine is None
            || state.current_model is None || state.current_model->0 != settings.selected_model@),
        !state.loading(true).starts_to_load(settings),
        state.unloaded().loading(false).starts_to_load(settings),
        state.engine_out().loading(false).starts_to_load(settings),
        forall|engine: E, now: u64| !#[trigger]
            state.loaded(engine, settings.selected_model@, now).starts_to_load(settings),
{
}

/// The idle check is made every ten seconds.
pub proof fn the_idle_check_is_made_often()
    ensures
        IDLE_CHECK_SECS == 10,
{
}

/// The custom words are skipped just for a model that is known and runs on Whisper. The texts
/// of all other models are corrected by them, where there are any, and every text is filtered.
pub proof fn only_whisper_skips_the_custom_words<
    C: Fn(&str, &Vec<String>, u64) -> String,
    G: Fn(&str, &str, &Option<Vec<String>>) -> String,
>(
    raw: Seq<char>,
    info: Option<ModelInfo>,
    settings: AppSettings,
    correct: C,
    filter: G,
    r: String,
)
    requires
        postprocesses(raw, info, settings, correct, filter, r),
    ensures
        settings.custom_words@.len() > 0 && !(info matches Some(info) && info.engine_type
            == EngineType::Whisper) ==> exists|
            t: &str,
            corrected: String,
            u: &str,
            language: &str,
        |
            t@ == raw && u@ == corrected@ && language@ == settings.app_language@
                && #[trigger] call_ensures(
                correct,
                (t, &settings.custom_words, settings.word_correction_threshold),
                corrected,
            ) && #[trigger] call_ensures(filter, (u, language, &settings.custom_filler_words), r),
        settings.custom_words@.len() == 0 || (info matches Some(info) && info.engine_type
            == EngineType::Whisper) ==> exists|u: &str, language: &str|
            u@ == raw && language@ == settings.app_language@ && #[trigger] call_ensures(
                filter,
                (u, language, &settings.custom_filler_words),
                r,
            ),
{
    custom_words_are_used_however_many(
        raw,
        runs_on(info, EngineType::Whisper),
        settings,
        correct,
        filter,
        r,
    );
}

/// Just one model is loaded at a time: while one is, no other loading is granted, and as soon
/// as that is over, one is.
pub proof fn one_model_is_loaded_at_a_time<E, S, P>(state: ManagerState<E, S, P>)
    ensures
        !state.loading(true).grants_loading(),
        state.loading(false).grants_loading(),
        state.grants_loading() <==> !state.is_loading,
{
}

/// A transcription that an engine failed or panicked in tells what the engine said: just that
/// where it failed, and between two fixed texts where it panicked.
pub proof fn failed_transcriptions_tell_what_the_engine_said(message: String)
    ensures
        TranscriptionError::Failed(message).text() == message@,
        ({
            let told = TranscriptionError::Panicked(message).text();
            let head = "Transcription engine panicked: "@;
            &&& told.len() >= head.len() + message@.len()
            &&& told.take(head.len() as int) == head
            &&& told.subrange(head.len() as int, (head.len() + message@.len()) as int) == message@
        }),
{
    let told = TranscriptionError::Panicked(message).text();
    let head = "Transcription engine panicked: "@;
    assert(told.take(head.len() as int) =~= head);
    assert(told.subrange(head.len() as int, (head.len() + message@.len()) as int) =~= message@);
}

} // verus!
