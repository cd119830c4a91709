//! Models, their languages and the transcription manager.

use doubao_asr::cloud_asr::doubao::client::{DEFAULT_ENDPOINT, DEFAULT_RESOURCE_ID};
use doubao_asr::managers::accelerators::{
    get_available_accelerators, gpu_device_options, GpuDevice,
};
use doubao_asr::managers::inference::{
    inference_failed, plan_inference, validate_language, InferencePlan,
};
use doubao_asr::managers::loading::{LoadEvent, LoadStep};
use doubao_asr::managers::model::{EngineType, ModelInfo};
use doubao_asr::managers::postprocess::postprocess_transcript_text;
use doubao_asr::managers::transcribing::{TranscribeEvent, TranscribeStep};
use doubao_asr::managers::transcription::{
    engine_load_failed, engine_recipe, find_model, loading_started, EngineRecipe, Readiness,
    TranscriptionError, TranscriptionManager, TranscriptionStart, Weights,
};
use doubao_asr::settings::{
    AppSettings, ClipboardHandling, DoubaoCredentials, ModelUnloadTimeout, PasteMethod,
};

type Manager = TranscriptionManager<&'static str, u8, char>;

fn get_default_settings() -> AppSettings {
    AppSettings {
        selected_model: "m".to_string(),
        selected_language: "auto".to_string(),
        app_language: "en".to_string(),
        translate_to_english: false,
        custom_words: Vec::new(),
        word_correction_threshold: 0.18f64.to_bits(),
        custom_filler_words: None,
        model_unload_timeout: ModelUnloadTimeout::Never,
        doubao_credentials: DoubaoCredentials { api_key: None, resource_id: None },
        streaming_paste: false,
        paste_method: PasteMethod::Enabled,
        append_trailing_space: false,
        auto_submit: false,
        clipboard_handling: ClipboardHandling::DontModify,
    }
}

fn info(engine_type: EngineType) -> ModelInfo {
    ModelInfo {
        name: "Name".to_string(),
        is_downloaded: true,
        engine_type,
        supported_languages: Vec::new(),
    }
}

/// Replaces each word that is a custom word but for its case.
fn correct(text: &str, words: &Vec<String>, threshold: u64) -> String {
    assert_eq!(f64::from_bits(threshold), 0.18);
    let fixed: Vec<String> = text
        .split(' ')
        .map(|w| {
            words
                .iter()
                .find(|c| c.to_lowercase() == w.to_lowercase())
                .cloned()
                .unwrap_or_else(|| w.to_string())
        })
        .collect();
    fixed.join(" ")
}

/// Takes out filler words.
fn filter(text: &str, language: &str, fillers: &Option<Vec<String>>) -> String {
    assert_eq!(language, "en");
    let default = vec!["uhm".to_string()];
    let fillers = fillers.as_ref().unwrap_or(&default);
    let kept: Vec<&str> = text
        .split(' ')
        .filter(|w| !fillers.iter().any(|f| f == w))
        .collect();
    kept.join(" ")
}

#[test]
fn test_postprocess_applies_custom_words_unless_skipped() {
    let mut settings = get_default_settings();
    settings.custom_words = vec!["Handy".to_string()];

    let corrected = postprocess_transcript_text("handy is nice", false, &settings, correct, filter);
    assert_eq!(corrected, "Handy is nice");

    let skipped = postprocess_transcript_text("handy is nice", true, &settings, correct, filter);
    assert_eq!(skipped, "handy is nice");
}

#[test]
fn test_postprocess_passthrough_without_custom_words() {
    let settings = get_default_settings();
    assert_eq!(
        postprocess_transcript_text("hello world", false, &settings, correct, filter),
        "hello world"
    );
}

#[test]
fn postprocess_filters_what_was_corrected() {
    let mut settings = get_default_settings();
    settings.custom_words = vec!["Uhm".to_string()];
    settings.custom_filler_words = Some(vec!["Uhm".to_string()]);
    let text = postprocess_transcript_text("uhm yes", false, &settings, correct, filter);
    assert_eq!(text, "yes");
}

#[test]
fn whisper_text_is_not_corrected_again() {
    let mut settings = get_default_settings();
    settings.custom_words = vec!["Handy".to_string()];
    let text = |i: Option<ModelInfo>| {
        Manager::postprocess_transcript("handy", &i, &settings, correct, filter)
    };
    assert_eq!(text(Some(info(EngineType::Whisper))), "handy");
    assert_eq!(text(Some(info(EngineType::Doubao))), "Handy");
    assert_eq!(text(None), "Handy");
}

#[test]
fn unsupported_language_falls_back() {
    let mut settings = get_default_settings();
    let mut model = info(EngineType::Whisper);
    model.supported_languages = vec!["en".to_string(), "de".to_string()];
    let model = Some(model);
    assert_eq!(validate_language(&settings, &model), "auto");
    settings.selected_language = "de".to_string();
    assert_eq!(validate_language(&settings, &model), "de");
    settings.selected_language = "fr".to_string();
    assert_eq!(validate_language(&settings, &model), "auto");
    assert_eq!(validate_language(&settings, &None), "fr");
    assert_eq!(validate_language(&settings, &Some(info(EngineType::Canary))), "fr");
}

fn language(engine: EngineType, code: &str) -> Option<String> {
    match plan_inference(engine, code, &get_default_settings()) {
        InferencePlan::Whisper { language, .. } => language,
        InferencePlan::SenseVoice { language } => language,
        InferencePlan::Options { language, .. } => language,
        InferencePlan::Doubao { language } => language,
        InferencePlan::Parakeet | InferencePlan::Default => None,
    }
}

#[test]
fn engines_map_languages_their_own_way() {
    let some = |s: &str| Some(s.to_string());
    for engine in [
        EngineType::Whisper,
        EngineType::Parakeet,
        EngineType::Moonshine,
        EngineType::MoonshineStreaming,
        EngineType::SenseVoice,
        EngineType::GigaAM,
        EngineType::Canary,
        EngineType::Cohere,
        EngineType::Doubao,
    ] {
        assert_eq!(language(engine, "auto"), None);
    }
    assert_eq!(language(EngineType::Whisper, "zh-Hant"), some("zh"));
    assert_eq!(language(EngineType::Whisper, "fr"), some("fr"));
    assert_eq!(language(EngineType::Cohere, "zh-Hans"), some("zh"));
    assert_eq!(language(EngineType::Canary, "zh-Hans"), some("zh-Hans"));
    assert_eq!(language(EngineType::SenseVoice, "zh-Hans"), some("zh"));
    assert_eq!(language(EngineType::SenseVoice, "yue"), some("yue"));
    assert_eq!(language(EngineType::SenseVoice, "fr"), None);
}

#[test]
fn cloud_languages_are_bcp47() {
    for (code, tag) in [
        ("zh", "zh-CN"),
        ("zh-Hans", "zh-CN"),
        ("zh-Hant", "zh-CN"),
        ("en", "en-US"),
        ("ja", "ja-JP"),
        ("ko", "ko-KR"),
        ("yue", "yue-CN"),
        ("ru", "ru-RU"),
        ("fr", "fr-FR"),
        ("de", "de-DE"),
        ("es", "es-MX"),
        ("pt", "pt-BR"),
        ("id", "id-ID"),
        ("fil", "fil-PH"),
        ("ms", "ms-MY"),
        ("th", "th-TH"),
        ("ar", "ar-SA"),
        ("it", "it-IT"),
        ("bn", "bn-BD"),
        ("el", "el-GR"),
        ("nl", "nl-NL"),
        ("tr", "tr-TR"),
        ("vi", "vi-VN"),
        ("pl", "pl-PL"),
        ("ro", "ro-RO"),
        ("ne", "ne-NP"),
        ("uk", "uk-UA"),
        ("sv", "sv"),
    ] {
        assert_eq!(language(EngineType::Doubao, code).as_deref(), Some(tag));
    }
}

#[test]
fn whisper_gets_the_custom_words() {
    let mut settings = get_default_settings();
    settings.translate_to_english = true;
    settings.custom_words = vec!["Handy".to_string(), "Tauri".to_string()];
    match plan_inference(EngineType::Whisper, "auto", &settings) {
        InferencePlan::Whisper { translate, initial_prompt, .. } => {
            assert!(translate);
            assert_eq!(initial_prompt.as_deref(), Some("Handy, Tauri"));
        }
        other => panic!("{other:?}"),
    }
    assert!(matches!(
        plan_inference(EngineType::Cohere, "auto", &settings),
        InferencePlan::Options { translate: false, .. }
    ));
    assert!(matches!(
        plan_inference(EngineType::Canary, "auto", &settings),
        InferencePlan::Options { translate: true, .. }
    ));
    settings.custom_words.clear();
    assert!(matches!(
        plan_inference(EngineType::Whisper, "auto", &settings),
        InferencePlan::Whisper { initial_prompt: None, .. }
    ));
}

#[test]
fn failed_runs_name_their_engine() {
    assert_eq!(
        inference_failed(EngineType::MoonshineStreaming, "e"),
        "Moonshine streaming transcription failed: e"
    );
    assert_eq!(inference_failed(EngineType::Doubao, "e"), "Doubao transcription failed: e");
}

#[test]
fn models_must_be_known_and_downloaded() {
    let event = loading_started("m");
    assert_eq!(event.event_type, "loading_started");
    assert_eq!(event.model_id.as_deref(), Some("m"));

    let unknown = find_model("m", None).unwrap_err();
    assert_eq!(unknown.error, "Model not found: m");
    assert!(unknown.event.is_none());

    let mut model = info(EngineType::Canary);
    model.is_downloaded = false;
    let missing = find_model("m", Some(model)).unwrap_err();
    assert_eq!(missing.error, "Model not downloaded");
    let event = missing.event.unwrap();
    assert_eq!(event.event_type, "loading_failed");
    assert_eq!(event.model_name.as_deref(), Some("Name"));
    assert_eq!(event.error.as_deref(), Some("Model not downloaded"));

    assert_eq!(find_model("m", Some(info(EngineType::Canary))).unwrap().name, "Name");
}

#[test]
fn engines_have_their_recipes() {
    let settings = get_default_settings();
    let weights = |engine| match engine_recipe("m", &info(engine), &settings) {
        Ok(EngineRecipe::Local { engine: e, weights }) => {
            assert_eq!(e, engine);
            weights
        }
        _ => panic!("no local engine"),
    };
    assert_eq!(weights(EngineType::Whisper), Weights::Unspecified);
    assert_eq!(weights(EngineType::Moonshine), Weights::Standard);
    assert_eq!(weights(EngineType::MoonshineStreaming), Weights::Standard);
    for engine in [
        EngineType::Parakeet,
        EngineType::SenseVoice,
        EngineType::GigaAM,
        EngineType::Canary,
        EngineType::Cohere,
    ] {
        assert_eq!(weights(engine), Weights::Int8);
    }
    let failure = engine_load_failed("m", &info(EngineType::GigaAM), "no file");
    assert_eq!(failure.error, "Failed to load gigaam model m: no file");
    assert_eq!(failure.event.unwrap().error.unwrap(), failure.error);
}

#[test]
fn cloud_engine_needs_a_key() {
    let mut settings = get_default_settings();
    let model = info(EngineType::Doubao);
    let expected = "Doubao API key not configured. Please set it in Settings → Models.";
    assert_eq!(engine_recipe("m", &model, &settings).err().unwrap().error, expected);
    settings.doubao_credentials.api_key = Some(" ".to_string());
    let failure = engine_recipe("m", &model, &settings).err().unwrap();
    assert_eq!(failure.event.unwrap().error.as_deref(), Some(expected));
    settings.doubao_credentials.api_key = Some("k".to_string());
    match engine_recipe("m", &model, &settings) {
        Ok(EngineRecipe::Cloud(client)) => {
            assert_eq!(client.api_key, "k");
            assert_eq!(client.resource_id, DEFAULT_RESOURCE_ID);
            assert_eq!(client.endpoint, DEFAULT_ENDPOINT);
        }
        _ => panic!("no cloud engine"),
    }
}

fn loaded(now: u64) -> Manager {
    let mut manager = Manager::new(0);
    let event = manager.engine_loaded("engine", "m", &info(EngineType::Canary), now);
    assert_eq!(event.event_type, "loading_completed");
    assert_eq!(event.model_name.as_deref(), Some("Name"));
    manager
}

#[test]
fn one_model_is_loaded_at_a_time() {
    let mut manager = Manager::new(0);
    let guard = manager.try_start_loading().unwrap();
    assert!(manager.try_start_loading().is_none());
    assert!(manager.initiate_model_load(&get_default_settings()).is_none());
    assert_eq!(manager.readiness(), Readiness::Wait);
    manager.finish_loading(guard);
    assert_eq!(manager.readiness(), Readiness::NotLoaded);
    assert!(manager.initiate_model_load(&get_default_settings()).is_some());
}

#[test]
fn stale_engine_is_replaced() {
    let mut settings = get_default_settings();
    let mut manager = loaded(0);
    assert!(manager.loaded_engine_matches_selection(&settings));
    assert!(manager.initiate_model_load(&settings).is_none());
    settings.selected_model = "other".to_string();
    assert!(!manager.loaded_engine_matches_selection(&settings));
    assert!(manager.initiate_model_load(&settings).is_some());
}

#[test]
fn unloading_is_announced() {
    let mut manager = loaded(0);
    let event = manager.unload_model();
    assert_eq!(event.event_type, "unloaded");
    assert!(event.model_id.is_none() && event.error.is_none());
    assert!(!manager.is_model_loaded());
    assert!(manager.get_current_model().is_none());
}

#[test]
fn idle_models_are_unloaded() {
    let mut settings = get_default_settings();
    let mut manager = loaded(1000);
    assert!(manager.check_idle(u64::MAX, false, &settings).is_none());
    settings.model_unload_timeout = ModelUnloadTimeout::After { seconds: 5 };
    assert!(manager.check_idle(0, false, &settings).is_none());
    assert!(manager.check_idle(6000, false, &settings).is_none());
    assert!(manager.check_idle(9000, true, &settings).is_none());
    assert!(manager.check_idle(14000, false, &settings).is_none());
    assert!(manager.check_idle(14001, false, &settings).is_some());
    assert!(!manager.is_model_loaded());
    assert!(manager.check_idle(99999, false, &settings).is_none());
    settings.model_unload_timeout = ModelUnloadTimeout::Immediately;
    assert!(loaded(0).check_idle(u64::MAX, false, &settings).is_none());
}

#[test]
fn transcription_takes_and_returns_the_engine() {
    let settings = get_default_settings();
    let mut manager = loaded(0);
    assert!(matches!(
        manager.begin_transcription(5, true, &settings),
        TranscriptionStart::Audio
    ));
    assert_eq!(manager.readiness(), Readiness::Ready);
    let engine = manager.take_engine().unwrap();
    assert!(!manager.is_model_loaded());
    let gone = manager.take_engine().unwrap_err();
    assert_eq!(
        gone.message(),
        "Model failed to load after auto-load attempt. Please check your model settings."
    );
    let text = manager.engine_returned(engine, Ok("raw".to_string())).unwrap();
    assert_eq!(text, "raw");
    assert!(manager.is_model_loaded());
    assert_eq!(manager.get_current_model().as_deref(), Some("m"));
    assert!(manager.maybe_unload_immediately(&settings).is_none());
}

fn settings_step(step: TranscribeStep<&'static str>) -> bool {
    matches!(step, TranscribeStep::Configure)
}

fn configured(settings: &AppSettings) -> TranscribeEvent<&'static str> {
    TranscribeEvent::Configured { settings: settings.clone(), info: None }
}

#[test]
fn transcription_runs_to_its_text() {
    let mut settings = get_default_settings();
    settings.custom_words = vec!["Handy".to_string()];
    settings.selected_language = "de".to_string();
    let mut manager = loaded(0);
    let (mut run, step, note) = manager.transcribe(5, true, &settings);
    assert!(settings_step(step) && note.is_none());
    let (step, _) = manager.step_transcription(&mut run, configured(&settings));
    let engine = match step {
        TranscribeStep::Run { engine, language } => {
            assert_eq!(language, "de");
            engine
        }
        _ => panic!("not running"),
    };
    assert!(!manager.is_model_loaded());
    let result = Ok("uhm handy".to_string());
    let kind = EngineType::Canary;
    let returned = TranscribeEvent::Returned { engine, kind, result };
    let (step, _) = manager.step_transcription(&mut run, returned);
    assert!(manager.is_model_loaded());
    let raw = match step {
        TranscribeStep::Postprocess { raw } => raw,
        _ => panic!("not processing"),
    };
    let text = Manager::postprocess_transcript(&raw, &None, &settings, correct, filter);
    let (step, _) = manager.step_transcription(&mut run, TranscribeEvent::Processed(text));
    assert!(matches!(step, TranscribeStep::Reconfigure) && !run.is_over());
    settings.model_unload_timeout = ModelUnloadTimeout::Immediately;
    let (step, note) =
        manager.step_transcription(&mut run, TranscribeEvent::Reconfigured(settings));
    assert!(matches!(step, TranscribeStep::Done(Ok(t)) if t == "Handy"));
    assert_eq!(note.unwrap().event_type, "unloaded");
    assert!(run.is_over() && !manager.is_model_loaded());
}

#[test]
fn transcription_waits_while_a_model_is_loaded() {
    let settings = get_default_settings();
    let mut manager = Manager::new(0);
    let guard = manager.try_start_loading().unwrap();
    let (mut run, step, _) = manager.transcribe(1, true, &settings);
    assert!(matches!(step, TranscribeStep::Wait));
    let (step, _) = manager.step_transcription(&mut run, TranscribeEvent::Woken);
    assert!(matches!(step, TranscribeStep::Wait));
    manager.engine_loaded("engine", "m", &info(EngineType::Canary), 2);
    manager.finish_loading(guard);
    let (step, _) = manager.step_transcription(&mut run, TranscribeEvent::Woken);
    assert!(settings_step(step));
    manager.unload_model();
    let (step, _) = manager.step_transcription(&mut run, configured(&settings));
    assert!(matches!(step, TranscribeStep::Done(Err(TranscriptionError::EngineGone))));
}

#[test]
fn transcription_ends_early() {
    let settings = get_default_settings();
    let mut manager = Manager::new(0);
    let (run, step, _) = manager.transcribe(1, false, &settings);
    assert!(run.is_over());
    assert!(matches!(step, TranscribeStep::Done(Ok(t)) if t.is_empty()));
    let (_, step, _) = manager.transcribe(1, true, &settings);
    assert!(matches!(step, TranscribeStep::Done(Err(TranscriptionError::NotLoaded))));

    let mut manager = loaded(0);
    let (mut run, _, _) = manager.transcribe(1, true, &settings);
    manager.step_transcription(&mut run, configured(&settings));
    let failed = TranscribeEvent::Returned {
        engine: "engine",
        kind: EngineType::Canary,
        result: Err("e".to_string()),
    };
    match manager.step_transcription(&mut run, failed).0 {
        TranscribeStep::Done(Err(e)) => assert_eq!(e.message(), "Canary transcription failed: e"),
        _ => panic!("not over"),
    }
    assert!(manager.is_model_loaded());

    let (mut run, _, _) = manager.transcribe(1, true, &settings);
    manager.step_transcription(&mut run, configured(&settings));
    let panicked = TranscribeEvent::Panicked("boom".to_string());
    let (step, note) = manager.step_transcription(&mut run, panicked);
    assert!(matches!(step, TranscribeStep::Done(Err(TranscriptionError::Panicked(_)))));
    assert_eq!(note.unwrap().error.as_deref(), Some("Engine panicked: boom"));
    assert!(manager.get_current_model().is_none());
}

#[test]
fn loading_runs_to_its_engine() {
    let mut manager = Manager::new(0);
    let (mut run, step, started) = Manager::load_model("m");
    assert_eq!(started.event_type, "loading_started");
    assert!(matches!(step, LoadStep::Find));
    let (step, note) =
        manager.step_load(&mut run, LoadEvent::Found(Some(info(EngineType::Parakeet))));
    assert!(matches!(step, LoadStep::Locate) && note.is_none());
    let (step, note) = manager.step_load(&mut run, LoadEvent::Located(Ok(())));
    assert!(matches!(step, LoadStep::Configure) && note.is_none());
    let (step, note) =
        manager.step_load(&mut run, LoadEvent::Configured(get_default_settings()));
    assert!(note.is_none() && !run.is_over());
    assert!(matches!(
        step,
        LoadStep::Load { engine: EngineType::Parakeet, weights: Weights::Int8 }
    ));
    let (step, note) = manager.step_load(&mut run, LoadEvent::Loaded { engine: "e", now: 7 });
    assert!(matches!(step, LoadStep::Done(Ok(()))));
    assert_eq!(note.unwrap().event_type, "loading_completed");
    assert!(run.is_over());
    assert_eq!(manager.get_current_model().as_deref(), Some("m"));
}

#[test]
fn loading_stops_at_a_failure() {
    let mut manager = Manager::new(0);
    let fails = |events: Vec<LoadEvent<&'static str>>, manager: &mut Manager| {
        let (mut run, _, _) = Manager::load_model("m");
        let mut last = None;
        for event in events {
            last = Some(manager.step_load(&mut run, event));
        }
        assert!(run.is_over() && !manager.is_model_loaded());
        match last.unwrap() {
            (LoadStep::Done(Err(e)), note) => (e, note.map(|n| n.event_type)),
            _ => panic!("not over"),
        }
    };
    let failed = Some("loading_failed".to_string());
    let found = |engine| LoadEvent::Found(Some(info(engine)));
    assert_eq!(
        fails(vec![LoadEvent::Found(None)], &mut manager),
        ("Model not found: m".to_string(), None)
    );
    assert_eq!(
        fails(
            vec![found(EngineType::Canary), LoadEvent::Located(Err("no path".to_string()))],
            &mut manager
        ),
        ("no path".to_string(), None)
    );
    let settings = get_default_settings();
    assert_eq!(
        fails(
            vec![
                found(EngineType::Doubao),
                LoadEvent::Located(Ok(())),
                LoadEvent::Configured(settings.clone()),
            ],
            &mut manager
        )
        .1,
        failed
    );
    assert_eq!(
        fails(
            vec![
                found(EngineType::Canary),
                LoadEvent::Located(Ok(())),
                LoadEvent::Configured(settings),
                LoadEvent::Failed("bad file".to_string()),
            ],
            &mut manager
        ),
        ("Failed to load canary model m: bad file".to_string(), failed)
    );
}

#[test]
fn skipping_custom_words_is_having_none() {
    let mut settings = get_default_settings();
    settings.custom_words = vec!["Handy".to_string()];
    let bare = get_default_settings();
    let text = |skip, s: &AppSettings| {
        postprocess_transcript_text("uhm handy", skip, s, correct, filter)
    };
    assert_eq!(text(true, &settings), "handy");
    assert_eq!(text(true, &bare), "handy");
    assert_eq!(text(false, &bare), "handy");
}

#[test]
fn failed_transcription_keeps_the_engine() {
    let mut manager = loaded(0);
    let engine = manager.take_engine().unwrap();
    let error = manager.engine_returned(engine, Err("bad".to_string())).unwrap_err();
    assert_eq!(error.message(), "bad");
    assert!(manager.is_model_loaded());
    assert_eq!(
        TranscriptionError::NotLoaded.message(),
        "Model is not loaded for transcription."
    );
}

#[test]
fn panicked_engine_is_gone() {
    let mut manager = loaded(0);
    let _engine = manager.take_engine().unwrap();
    let (event, error) = manager.engine_panicked("boom".to_string());
    assert_eq!(event.event_type, "unloaded");
    assert_eq!(event.error.as_deref(), Some("Engine panicked: boom"));
    assert_eq!(
        error.message(),
        "Transcription engine panicked: boom. The model has been unloaded and will reload on next attempt."
    );
    assert!(!manager.is_model_loaded());
    assert!(manager.get_current_model().is_none());
}

#[test]
fn models_are_unloaded_at_once_where_asked() {
    let mut settings = get_default_settings();
    settings.model_unload_timeout = ModelUnloadTimeout::Immediately;
    let mut manager = loaded(0);
    match manager.begin_transcription(1, false, &settings) {
        TranscriptionStart::Empty(Some(event)) => assert_eq!(event.event_type, "unloaded"),
        other => panic!("{other:?}"),
    }
    assert!(!manager.is_model_loaded());
    assert!(manager.maybe_unload_immediately(&settings).is_none());
    let mut manager = loaded(0);
    assert!(manager.maybe_unload_immediately(&settings).is_some());
    assert!(manager.get_current_model().is_none());
}

#[test]
fn cloud_sessions_are_planned() {
    let mut settings = get_default_settings();
    let manager = Manager::new(0);
    let cloud = Some(info(EngineType::Doubao));
    assert!(manager.begin_doubao_stream(&cloud, &settings).is_none());
    settings.doubao_credentials.api_key = Some("k".to_string());
    assert!(manager.begin_doubao_stream(&None, &settings).is_none());
    let local = Some(info(EngineType::Whisper));
    assert!(manager.begin_doubao_stream(&local, &settings).is_none());
    let plan = manager.begin_doubao_stream(&cloud, &settings).unwrap();
    assert_eq!((plan.api_key.as_str(), plan.resource_id.as_str()), ("k", ""));
    assert!(!plan.streaming_paste);
    settings.streaming_paste = true;
    assert!(manager.begin_doubao_stream(&cloud, &settings).unwrap().streaming_paste);
    settings.paste_method = PasteMethod::Disabled;
    assert!(!manager.begin_doubao_stream(&cloud, &settings).unwrap().streaming_paste);
}

#[test]
fn sessions_are_kept_and_handed_out() {
    let mut manager = Manager::new(0);
    manager.doubao_stream_started(7, Some('p'));
    assert_eq!(manager.take_doubao_stream(), Some(7));
    assert_eq!(manager.take_doubao_stream(), None);
    assert_eq!(manager.finalize_streaming_paste(), Some('p'));
    assert_eq!(manager.abort_streaming_paste(), None);
    manager.doubao_stream_started(8, Some('q'));
    assert_eq!(manager.abort_doubao_stream(), (Some(8), Some('q')));
    assert_eq!(manager.abort_doubao_stream(), (None, None));
}

#[test]
fn accelerators_are_listed() {
    let devices = vec![GpuDevice {
        id: 3,
        name: "gpu".to_string(),
        total_vram: 5 * 1024 * 1024 + 1023,
    }];
    let options = gpu_device_options(true, &devices);
    assert_eq!(options.len(), 1);
    assert_eq!((options[0].id, options[0].total_vram_mb), (3, 5));
    assert_eq!(options[0].name, "gpu");
    assert!(gpu_device_options(false, &devices).is_empty());
    let all = get_available_accelerators(vec!["cpu".to_string()], options);
    assert_eq!(all.whisper, vec!["auto", "cpu", "gpu"]);
    assert_eq!(all.ort, vec!["cpu"]);
    assert_eq!(all.gpu_devices.len(), 1);
}
