//! Typing a growing text.

use doubao_asr::settings::{
    AppSettings, ClipboardHandling, DoubaoCredentials, ModelUnloadTimeout, PasteMethod,
};
use doubao_asr::streaming_paste::{
    compute_delta, plan_finalize, type_delta, KeyAction, PasteRun, PasteStep, StreamingPaste,
};

fn settings() -> AppSettings {
    AppSettings {
        selected_model: String::new(),
        selected_language: "auto".to_string(),
        app_language: "en".to_string(),
        translate_to_english: false,
        custom_words: Vec::new(),
        word_correction_threshold: 0.18f64.to_bits(),
        custom_filler_words: None,
        model_unload_timeout: ModelUnloadTimeout::Never,
        doubao_credentials: DoubaoCredentials { api_key: None, resource_id: None },
        streaming_paste: true,
        paste_method: PasteMethod::Enabled,
        append_trailing_space: false,
        auto_submit: false,
        clipboard_handling: ClipboardHandling::DontModify,
    }
}

/// What the world outside holds: an input field, a clipboard, and how often return was
/// pressed.
#[derive(Default)]
struct World {
    screen: String,
    clipboard: Option<String>,
    returns: usize,
    log: Vec<&'static str>,
    fails: Option<&'static str>,
}

impl World {
    fn attempt(&mut self, what: &'static str) -> Result<(), String> {
        self.log.push(what);
        if self.fails == Some(what) {
            Err(what.to_string())
        } else {
            Ok(())
        }
    }

    fn perform(
        &mut self,
        paste: &mut StreamingPaste,
        begun: (PasteRun, PasteStep),
    ) -> Result<(), String> {
        let (mut run, mut step) = begun;
        loop {
            let outcome = match step {
                PasteStep::Type(keys) => self.attempt("type").map(|_| self.press(&keys)),
                PasteStep::Submit => self.attempt("submit").map(|_| self.returns += 1),
                PasteStep::Copy(t) => self.attempt("copy").map(|_| self.clipboard = Some(t)),
                PasteStep::Done(result) => {
                    assert!(run.is_over());
                    return result;
                }
            };
            assert!(!run.is_over());
            step = paste.step(&mut run, outcome);
        }
    }

    fn press(&mut self, keys: &[KeyAction]) {
        for key in keys {
            match key {
                KeyAction::Backspace => {
                    self.screen.pop();
                }
                KeyAction::Text(t) => self.screen.push_str(t),
            }
        }
    }
}

#[test]
fn delta_from_empty_types_whole_text() {
    let (bs, suffix) = compute_delta("", "你好");
    assert_eq!(bs, 0);
    assert_eq!(suffix, "你好");
}

#[test]
fn delta_pure_append_no_backspace() {
    let (bs, suffix) = compute_delta("你好", "你好世界");
    assert_eq!(bs, 0);
    assert_eq!(suffix, "世界");
}

#[test]
fn delta_tail_revision_backspaces_only_diverging_suffix() {
    let (bs, suffix) = compute_delta("我想去", "我想吃");
    assert_eq!(bs, 1);
    assert_eq!(suffix, "吃");
}

#[test]
fn delta_full_rewrite_backspaces_all() {
    let (bs, suffix) = compute_delta("abc", "xyz");
    assert_eq!(bs, 3);
    assert_eq!(suffix, "xyz");
}

#[test]
fn delta_to_empty_backspaces_all_no_suffix() {
    let (bs, suffix) = compute_delta("hello", "");
    assert_eq!(bs, 5);
    assert_eq!(suffix, "");
}

#[test]
fn delta_identical_is_noop() {
    let (bs, suffix) = compute_delta("same", "same");
    assert_eq!(bs, 0);
    assert_eq!(suffix, "");
}

#[test]
fn delta_counts_unicode_scalars_not_bytes() {
    let (bs, suffix) = compute_delta("中文测试", "中文");
    assert_eq!(bs, 2);
    assert_eq!(suffix, "");
}

#[test]
fn keys_are_backspaces_and_then_text() {
    let keys = type_delta(2, "ab".to_string());
    assert_eq!(keys.len(), 3);
    assert!(matches!(keys[0], KeyAction::Backspace));
    assert!(matches!(keys[1], KeyAction::Backspace));
    assert!(matches!(&keys[2], KeyAction::Text(t) if t == "ab"));
    assert_eq!(type_delta(1, String::new()).len(), 1);
    assert_eq!(keys[0].failure("x"), "Failed to send backspace: x");
    assert_eq!(keys[2].failure("x"), "Failed to type streaming text: x");
}

#[test]
fn screen_follows_the_texts() {
    let mut world = World { screen: "before ".to_string(), ..World::default() };
    let mut paste = StreamingPaste::new();
    for text in ["我", "我想去", "我想吃饭", "你"] {
        let begun = paste.apply_partial(text);
        world.perform(&mut paste, begun).unwrap();
        assert_eq!(world.screen, format!("before {text}"));
        assert_eq!(paste.committed(), text);
    }
    let begun = paste.abort();
    world.perform(&mut paste, begun).unwrap();
    assert_eq!(world.screen, "before ");
    assert_eq!(paste.committed(), "");
    assert_eq!(world.log, vec!["type"; 5]);
}

#[test]
fn abort_sends_a_backspace_for_each_character() {
    let mut world = World::default();
    let mut paste = StreamingPaste::new();
    let begun = paste.align_to("中文ab");
    world.perform(&mut paste, begun).unwrap();
    let (mut run, step) = paste.abort();
    match step {
        PasteStep::Type(keys) => {
            assert_eq!(keys.len(), 4);
            assert!(keys.iter().all(|k| matches!(k, KeyAction::Backspace)));
        }
        other => panic!("{other:?}"),
    }
    assert!(matches!(paste.step(&mut run, Ok(())), PasteStep::Done(Ok(()))));
    let (run, step) = paste.abort();
    assert!(run.is_over());
    assert!(matches!(step, PasteStep::Done(Ok(()))));
}

#[test]
fn default_has_typed_nothing() {
    assert_eq!(StreamingPaste::default().committed(), "");
}

#[test]
fn nothing_to_do_presses_no_key() {
    let mut world = World::default();
    let mut paste = StreamingPaste::new();
    let begun = paste.apply_partial("same");
    world.perform(&mut paste, begun).unwrap();
    assert!(paste.keys_to("same").is_empty());
    assert!(matches!(paste.apply_partial("same").1, PasteStep::Done(Ok(()))));
}

#[test]
fn failed_typing_does_not_count() {
    let mut world = World::default();
    let mut paste = StreamingPaste::new();
    let begun = paste.apply_partial("one");
    world.perform(&mut paste, begun).unwrap();
    world.fails = Some("type");
    let begun = paste.apply_partial("two");
    assert_eq!(world.perform(&mut paste, begun), Err("type".to_string()));
    assert_eq!(paste.committed(), "one");
}

#[test]
fn plan_follows_the_settings() {
    let mut s = settings();
    let plan = plan_finalize(&s, "done");
    assert_eq!((plan.target.as_str(), plan.submit, plan.copy), ("done", false, false));
    s.append_trailing_space = true;
    s.auto_submit = true;
    s.clipboard_handling = ClipboardHandling::CopyToClipboard;
    let plan = plan_finalize(&s, "done");
    assert_eq!((plan.target.as_str(), plan.submit, plan.copy), ("done ", true, true));
    s.paste_method = PasteMethod::Disabled;
    assert!(!plan_finalize(&s, "done").submit);
}

fn all_settings() -> AppSettings {
    let mut s = settings();
    s.append_trailing_space = true;
    s.auto_submit = true;
    s.clipboard_handling = ClipboardHandling::CopyToClipboard;
    s
}

#[test]
fn finalize_types_submits_and_copies() {
    let mut world = World::default();
    let mut paste = StreamingPaste::new();
    let begun = paste.apply_partial("draft");
    world.perform(&mut paste, begun).unwrap();
    let begun = paste.finalize(&all_settings(), "drawn");
    world.perform(&mut paste, begun).unwrap();
    assert_eq!(world.screen, "drawn ");
    assert_eq!(world.returns, 1);
    assert_eq!(world.clipboard.as_deref(), Some("drawn "));
    assert_eq!(world.log, vec!["type", "type", "submit", "copy"]);
}

#[test]
fn finalize_without_keys_still_submits() {
    let mut world = World::default();
    let mut paste = StreamingPaste::new();
    let begun = paste.apply_partial("done ");
    world.perform(&mut paste, begun).unwrap();
    let begun = paste.finalize(&all_settings(), "done");
    world.perform(&mut paste, begun).unwrap();
    assert_eq!(world.log, vec!["type", "submit", "copy"]);
}

#[test]
fn finalize_does_no_more_than_asked() {
    let mut world = World::default();
    let mut paste = StreamingPaste::new();
    let begun = paste.finalize(&settings(), "t");
    world.perform(&mut paste, begun).unwrap();
    assert_eq!(world.log, vec!["type"]);
    assert_eq!((world.returns, world.clipboard), (0, None));
}

#[test]
fn finalize_stops_at_the_first_failure() {
    for (fails, log) in [
        ("type", vec!["type"]),
        ("submit", vec!["type", "submit"]),
        ("copy", vec!["type", "submit", "copy"]),
    ] {
        let mut world = World { fails: Some(fails), ..World::default() };
        let mut paste = StreamingPaste::new();
        let begun = paste.finalize(&all_settings(), "t");
        assert_eq!(world.perform(&mut paste, begun), Err(fails.to_string()));
        assert_eq!(world.log, log);
    }
}
