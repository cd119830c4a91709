//! Typing a growing text while it is being recognised.
//!
//! The recogniser sends the whole text each time, and later text may correct what came
//! before. So the text on screen is kept track of, and each new text is reached from it by
//! as few keys as possible: backspaces down to the common prefix, then the rest.

use crate::settings::{AppSettings, ClipboardHandling, PasteMethod};
#[allow(unused_imports)]
use crate::text::{appended_texts_are_ends, ends_in};
use vstd::prelude::*;

verus! {

/// How long the return key waits for the typed text to arrive, in milliseconds.
pub const SUBMIT_DELAY_MS: u64 = 50;

/// The length of the longest common prefix.
pub open spec fn common_prefix(a: Seq<char>, b: Seq<char>) -> nat
    decreases a.len(),
{
    if a.len() == 0 || b.len() == 0 || a[0] != b[0] {
        0
    } else {
        1 + common_prefix(a.skip(1), b.skip(1))
    }
}

/// What the longest common prefix is: both texts start with it, and no longer one.
pub proof fn common_prefix_is_longest(a: Seq<char>, b: Seq<char>)
    ensures
        ({
            let p = common_prefix(a, b) as int;
            &&& p <= a.len()
            &&& p <= b.len()
            &&& a.take(p) == b.take(p)
            &&& p < a.len() && p < b.len() ==> a[p] != b[p]
        }),
    decreases a.len(),
{
    if !(a.len() == 0 || b.len() == 0 || a[0] != b[0]) {
        common_prefix_is_longest(a.skip(1), b.skip(1));
        let p = common_prefix(a, b) as int;
        let q = common_prefix(a.skip(1), b.skip(1)) as int;
        assert forall|i: int| 0 <= i < p implies a[i] == b[i] by {
            if i > 0 {
                assert(a.skip(1).take(q)[i - 1] == b.skip(1).take(q)[i - 1]);
            }
        }
    }
    assert(a.take(common_prefix(a, b) as int) =~= b.take(common_prefix(a, b) as int));
}

proof fn common_prefix_at(a: Seq<char>, b: Seq<char>, p: nat)
    requires
        p <= a.len(),
        p <= b.len(),
        forall|i: int| 0 <= i < p ==> a[i] == b[i],
        p == a.len() || p == b.len() || a[p as int] != b[p as int],
    ensures
        common_prefix(a, b) == p,
{
    common_prefix_is_longest(a, b);
    let q = common_prefix(a, b) as int;
    if q < p {
        assert(a[q] == b[q]);
    } else if p < q {
        assert(a.take(q)[p as int] == b.take(q)[p as int]);
    }
}

/// The backspaces that lead from `old` to `new`.
pub open spec fn delta_backspaces(old_text: Seq<char>, new_text: Seq<char>) -> int {
    old_text.len() - common_prefix(old_text, new_text)
}

/// What is then typed.
pub open spec fn delta_suffix(old_text: Seq<char>, new_text: Seq<char>) -> Seq<char> {
    new_text.skip(common_prefix(old_text, new_text) as int)
}

fn chars_of(s: &str) -> (r: Vec<char>)
    ensures
        r@ == s@,
{
    let mut r: Vec<char> = Vec::new();
    for c in it: s.chars()
        invariant
            it.seq() == s@,
            r@ == s@.take(it.index()),
    {
        r.push(c);
        assert(s@.take(it.index() + 1) =~= s@.take(it.index()).push(c));
    }
    assert(s@.take(s@.len() as int) =~= s@);
    r
}

/// Computes the keys that turn `old_text` into `new_text`: how many backspaces, and what
/// is typed then. A backspace takes away one Unicode scalar value.
pub fn compute_delta(old_text: &str, new_text: &str) -> (r: (usize, String))
    ensures
        r.0 == delta_backspaces(old_text@, new_text@),
        r.1@ == delta_suffix(old_text@, new_text@),
{
    let old_chars = chars_of(old_text);
    let new_chars = chars_of(new_text);
    let mut prefix: usize = 0;
    while prefix < old_chars.len() && prefix < new_chars.len() && old_chars[prefix]
        == new_chars[prefix]
        invariant
            prefix <= old_chars.len(),
            prefix <= new_chars.len(),
            forall|i: int| 0 <= i < prefix ==> old_chars@[i] == new_chars@[i],
        decreases old_chars.len() - prefix,
    {
        prefix = prefix + 1;
    }
    proof {
        common_prefix_at(old_text@, new_text@, prefix as nat);
    }
    let suffix = new_text.substring_char(prefix, new_chars.len()).to_owned();
    assert(suffix@ =~= delta_suffix(old_text@, new_text@));
    (old_chars.len() - prefix, suffix)
}

/// A key, or a text, to be sent to the focused application.
#[derive(Debug)]
pub enum KeyAction {
    Backspace,
    Text(String),
}

impl KeyAction {
    /// The text for an action that failed.
    pub open spec fn failure_text(self, error: Seq<char>) -> Seq<char> {
        match self {
            KeyAction::Backspace => "Failed to send backspace: "@ + error,
            KeyAction::Text(_) => "Failed to type streaming text: "@ + error,
        }
    }

    /// The message for an action that failed.
    pub fn failure(&self, error: &str) -> (r: String)
        ensures
            r@ == (match *self {
                KeyAction::Backspace => "Failed to send backspace: "@ + error@,
                KeyAction::Text(_) => "Failed to type streaming text: "@ + error@,
            }),
            r@ == self.failure_text(error@),
    {
        match self {
            KeyAction::Backspace => "Failed to send backspace: ".to_owned().concat(error),
            KeyAction::Text(_) => "Failed to type streaming text: ".to_owned().concat(error),
        }
    }
}

/// Whether `actions` are `backspaces` backspaces and then, unless it is empty, the text
/// `suffix`.
pub open spec fn are_keys(actions: Seq<KeyAction>, backspaces: int, suffix: Seq<char>) -> bool {
    &&& actions.len() == backspaces + if suffix.len() > 0 {
        1int
    } else {
        0int
    }
    &&& forall|i: int| 0 <= i < backspaces ==> #[trigger] actions[i] is Backspace
    &&& suffix.len() > 0 ==> (actions[backspaces] matches KeyAction::Text(t) && t@ == suffix)
}

/// Lists the keys for a delta.
pub fn type_delta(backspaces: usize, suffix: String) -> (r: Vec<KeyAction>)
    ensures
        are_keys(r@, backspaces as int, suffix@),
{
    let mut r: Vec<KeyAction> = Vec::new();
    let mut i: usize = 0;
    while i < backspaces
        invariant
            i <= backspaces,
            r@.len() == i,
            forall|j: int| 0 <= j < i ==> #[trigger] r@[j] is Backspace,
        decreases backspaces - i,
    {
        r.push(KeyAction::Backspace);
        i = i + 1;
    }
    if suffix.as_str().unicode_len() > 0 {
        r.push(KeyAction::Text(suffix));
    }
    r
}

/// The text in an input field after keys have been sent to it.
pub open spec fn after_keys(screen: Seq<char>, actions: Seq<KeyAction>) -> Seq<char>
    decreases actions.len(),
{
    if actions.len() == 0 {
        screen
    } else {
        let before = after_keys(screen, actions.drop_last());
        match actions.last() {
            KeyAction::Backspace => if before.len() > 0 {
                before.drop_last()
            } else {
                before
            },
            KeyAction::Text(t) => before + t@,
        }
    }
}

/// The text that a session has typed into the focused input field.
#[derive(Debug)]
pub struct StreamingPaste {
    committed: String,
}

impl View for StreamingPaste {
    type V = Seq<char>;

    closed spec fn view(&self) -> Seq<char> {
        self.committed@
    }
}

/// What is to be done when the final text is known.
#[derive(Debug)]
pub struct FinalizePlan {
    /// The text that is to stand in the input field, and on the clipboard.
    pub target: String,
    /// Whether a return key follows.
    pub submit: bool,
    /// Whether the text is copied to the clipboard.
    pub copy: bool,
}

/// The text that is to stand in the input field at the end.
pub open spec fn final_target(settings: AppSettings, final_text: Seq<char>) -> Seq<char> {
    if settings.append_trailing_space {
        final_text + seq![' ']
    } else {
        final_text
    }
}

/// Whether a return key follows.
pub open spec fn submits(settings: AppSettings) -> bool {
    settings.auto_submit && settings.paste_method != PasteMethod::Disabled
}

/// Whether the text is copied to the clipboard.
pub open spec fn copies(settings: AppSettings) -> bool {
    settings.clipboard_handling == ClipboardHandling::CopyToClipboard
}

/// Plans the end of a session.
pub fn plan_finalize(settings: &AppSettings, final_text: &str) -> (r: FinalizePlan)
    ensures
        r.target@ == final_target(*settings, final_text@),
        r.submit == submits(*settings),
        r.copy == copies(*settings),
        r.target@ == (if settings.append_trailing_space {
            final_text@.push(' ')
        } else {
            final_text@
        }),
        r.submit <==> settings.auto_submit && settings.paste_method == PasteMethod::Enabled,
        r.copy <==> settings.clipboard_handling == ClipboardHandling::CopyToClipboard,
{
    let target = if settings.append_trailing_space {
        proof {
            reveal_strlit(" ");
            assert(" "@ =~= seq![' ']);
        }
        final_text.to_owned().concat(" ")
    } else {
        final_text.to_owned()
    };
    assert(final_text@ + seq![' '] =~= final_text@.push(' '));
    FinalizePlan {
        target,
        submit: settings.auto_submit && settings.paste_method != PasteMethod::Disabled,
        copy: settings.clipboard_handling == ClipboardHandling::CopyToClipboard,
    }
}

/// Something to be done for a text that is pasted.
#[derive(Debug)]
pub enum PasteStep {
    /// Send these keys, in this order, up to the first that fails.
    Type(Vec<KeyAction>),
    /// Press the return key.
    Submit,
    /// Copy this text to the clipboard.
    Copy(String),
    /// Nothing; this is the result.
    Done(Result<(), String>),
}

/// What a text that is pasted waits for.
#[derive(Debug, Clone, Copy, PartialEq, Eq, Structural)]
pub enum PasteStage {
    Typing,
    Submitting,
    Copying,
    /// Nothing more is to be done.
    Over,
}

/// A text that is being pasted.
#[derive(Debug)]
pub struct PasteRun {
    target: String,
    submit: bool,
    copy: bool,
    stage: PasteStage,
}

/// A text that is being pasted, as a mathematical value.
#[verifier::ext_equal]
pub struct RunState {
    /// The text that the input field is to end in.
    pub target: Seq<char>,
    pub submit: bool,
    pub copy: bool,
    pub stage: PasteStage,
}

impl View for PasteRun {
    type V = RunState;

    closed spec fn view(&self) -> RunState {
        RunState {
            target: self.target@,
            submit: self.submit,
            copy: self.copy,
            stage: self.stage,
        }
    }
}

impl RunState {
    /// The run at a stage.
    pub open spec fn at(self, stage: PasteStage) -> RunState {
        RunState { stage, ..self }
    }
}

/// Whether `step` sends just the keys that lead from `typed` to `target`.
pub open spec fn types(typed: Seq<char>, target: Seq<char>, step: PasteStep) -> bool {
    step matches PasteStep::Type(keys) && are_keys(
        keys@,
        delta_backspaces(typed, target),
        delta_suffix(typed, target),
    )
}

/// What follows once nothing is left to submit: the text is copied if it is to be, else the
/// run has succeeded.
pub open spec fn copies_next(pre: RunState, post: RunState, step: PasteStep) -> bool {
    if pre.copy {
        &&& post == pre.at(PasteStage::Copying)
        &&& step matches PasteStep::Copy(t) && t@ == pre.target
    } else {
        &&& post == pre.at(PasteStage::Over)
        &&& step == PasteStep::Done(Ok(()))
    }
}

/// What follows once the text is typed: it is submitted if it is to be.
pub open spec fn submits_next(pre: RunState, post: RunState, step: PasteStep) -> bool {
    if pre.submit {
        &&& post == pre.at(PasteStage::Submitting)
        &&& step is Submit
    } else {
        copies_next(pre, post, step)
    }
}

/// How a run begins where `typed` is the text typed so far. No key is sent where the text is
/// there already.
pub open spec fn begins(
    typed: Seq<char>,
    target: Seq<char>,
    submit: bool,
    copy: bool,
    post: RunState,
    step: PasteStep,
) -> bool {
    let run = RunState { target, submit, copy, stage: PasteStage::Typing };
    if typed == target {
        submits_next(run, post, step)
    } else {
        &&& post == run
        &&& types(typed, target, step)
    }
}

/// What the outcome of the last step comes to: the next step, or after a failure the end.
pub open spec fn paste_step(
    pre: RunState,
    outcome: Result<(), String>,
    post: RunState,
    step: PasteStep,
) -> bool {
    match outcome {
        Err(e) => {
            &&& post == pre.at(PasteStage::Over)
            &&& step == PasteStep::Done(Err(e))
        },
        Ok(_) => match pre.stage {
            PasteStage::Typing => submits_next(pre, post, step),
            PasteStage::Submitting => copies_next(pre, post, step),
            _ => {
                &&& post == pre.at(PasteStage::Over)
                &&& step == PasteStep::Done(Ok(()))
            },
        },
    }
}

/// The text that counts as typed after a step: the target once all keys for it were sent.
pub open spec fn typed_after(
    typed: Seq<char>,
    pre: RunState,
    outcome: Result<(), String>,
) -> Seq<char> {
    if pre.stage == PasteStage::Typing && outcome is Ok {
        pre.target
    } else {
        typed
    }
}

impl PasteRun {
    fn copies_next(&mut self) -> (r: PasteStep)
        ensures
            copies_next(old(self)@, final(self)@, r),
    {
        if self.copy {
            self.stage = PasteStage::Copying;
            PasteStep::Copy(self.target.clone())
        } else {
            self.stage = PasteStage::Over;
            PasteStep::Done(Ok(()))
        }
    }

    fn submits_next(&mut self) -> (r: PasteStep)
        ensures
            submits_next(old(self)@, final(self)@, r),
    {
        if self.submit {
            self.stage = PasteStage::Submitting;
            PasteStep::Submit
        } else {
            self.copies_next()
        }
    }

    /// Tells whether nothing more is to be done.
    pub fn is_over(&self) -> (r: bool)
        ensures
            r == (self@.stage == PasteStage::Over),
    {
        self.stage == PasteStage::Over
    }
}

impl StreamingPaste {
    /// Starts a session; nothing has been typed.
    pub fn new() -> (r: Self)
        ensures
            r@ == Seq::<char>::empty(),
    {
        let r = StreamingPaste { committed: String::new() };
        assert(r@ =~= Seq::<char>::empty());
        r
    }

    /// The text that counts as typed.
    pub fn committed(&self) -> (r: String)
        ensures
            r@ == self@,
    {
        self.committed.clone()
    }

    /// Lists the keys that lead from the typed text to `target`.
    pub fn keys_to(&self, target: &str) -> (r: Vec<KeyAction>)
        ensures
            are_keys(r@, delta_backspaces(self@, target@), delta_suffix(self@, target@)),
    {
        let (backspaces, suffix) = compute_delta(self.committed.as_str(), target);
        type_delta(backspaces, suffix)
    }

    /// Starts to turn the typed text into `target`, and perhaps to submit and copy it.
    fn begin(&self, target: String, submit: bool, copy: bool) -> (r: (PasteRun, PasteStep))
        ensures
            begins(self@, target@, submit, copy, r.0@, r.1),
    {
        let keys = self.keys_to(target.as_str());
        proof {
            no_keys_iff_same(self@, target@);
            delta_reaches_the_new_text(self@, target@);
        }
        let mut run = PasteRun { target, submit, copy, stage: PasteStage::Typing };
        if keys.len() == 0 {
            let step = run.submits_next();
            (run, step)
        } else {
            (run, PasteStep::Type(keys))
        }
    }

    /// Starts to turn the typed text into `target`.
    pub fn align_to(&self, target: &str) -> (r: (PasteRun, PasteStep))
        ensures
            begins(self@, target@, false, false, r.0@, r.1),
            r.0@.target == target@ && !r.0@.submit && !r.0@.copy,
            r.1 is Type <==> self@ != target@,
            r.1 is Done <==> self@ == target@,
    {
        self.begin(target.to_owned(), false, false)
    }

    /// Starts to show a new intermediate text.
    pub fn apply_partial(&self, new_text: &str) -> (r: (PasteRun, PasteStep))
        ensures
            begins(self@, new_text@, false, false, r.0@, r.1),
            r.0@.target == new_text@ && !r.0@.submit && !r.0@.copy,
            r.1 is Type <==> self@ != new_text@,
            r.1 is Done <==> self@ == new_text@,
    {
        self.align_to(new_text)
    }

    /// Starts to end the session with the final text: it is typed, then submitted and
    /// copied as the settings say.
    pub fn finalize(&self, settings: &AppSettings, final_text: &str) -> (r: (PasteRun, PasteStep))
        ensures
            begins(
                self@,
                final_target(*settings, final_text@),
                submits(*settings),
                copies(*settings),
                r.0@,
                r.1,
            ),
            r.0@.target == (if settings.append_trailing_space {
                final_text@.push(' ')
            } else {
                final_text@
            }),
            r.0@.submit <==> settings.auto_submit && settings.paste_method == PasteMethod::Enabled,
            r.0@.copy <==> settings.clipboard_handling == ClipboardHandling::CopyToClipboard,
    {
        let plan = plan_finalize(settings, final_text);
        self.begin(plan.target, plan.submit, plan.copy)
    }

    /// Starts to take back all that was typed: one backspace for each character, and no key
    /// where nothing was typed.
    pub fn abort(&self) -> (r: (PasteRun, PasteStep))
        ensures
            begins(self@, Seq::empty(), false, false, r.0@, r.1),
            r.0@.target == Seq::<char>::empty() && !r.0@.submit && !r.0@.copy,
            if self@.len() == 0 {
                r.1 == PasteStep::Done(Ok(()))
            } else {
                r.1 matches PasteStep::Type(keys) && are_keys(
                    keys@,
                    self@.len() as int,
                    Seq::empty(),
                )
            },
    {
        proof {
            taking_back_is_backspaces(self@);
        }
        let nothing = String::new();
        assert(nothing@ =~= Seq::<char>::empty());
        let r = self.begin(nothing, false, false);
        assert(self@.len() == 0 ==> self@ =~= Seq::<char>::empty());
        r
    }

    /// Takes in the outcome of the last step. Only when all keys were sent does the new text
    /// count as typed; after a failure nothing more is done.
    pub fn step(&mut self, run: &mut PasteRun, outcome: Result<(), String>) -> (r: PasteStep)
        requires
            old(run)@.stage != PasteStage::Over,
        ensures
            paste_step(old(run)@, outcome, final(run)@, r),
            final(self)@ == typed_after(old(self)@, old(run)@, outcome),
    {
        match outcome {
            Err(e) => {
                run.stage = PasteStage::Over;
                PasteStep::Done(Err(e))
            },
            Ok(_) => match run.stage {
                PasteStage::Typing => {
                    self.committed = run.target.clone();
                    run.submits_next()
                },
                PasteStage::Submitting => run.copies_next(),
                _ => {
                    run.stage = PasteStage::Over;
                    PasteStep::Done(Ok(()))
                },
            },
        }
    }
}

impl Default for StreamingPaste {
    fn default() -> (r: Self)
        ensures
            r@ == Seq::<char>::empty(),
    {
        StreamingPaste::new()
    }
}

/// What leads to the empty text is a backspace for each character.
pub proof fn taking_back_is_backspaces(typed: Seq<char>)
    ensures
        delta_backspaces(typed, Seq::empty()) == typed.len(),
        delta_suffix(typed, Seq::empty()) == Seq::<char>::empty(),
{
    assert(delta_suffix(typed, Seq::empty()) =~= Seq::<char>::empty());
}

/// No key is needed just where the text is there already.
pub proof fn no_keys_iff_same(old_text: Seq<char>, new_text: Seq<char>)
    ensures
        delta_backspaces(old_text, new_text) == 0 && delta_suffix(old_text, new_text).len() == 0
            <==> old_text == new_text,
{
    common_prefix_is_longest(old_text, new_text);
    let p = common_prefix(old_text, new_text) as int;
    if p == old_text.len() && p == new_text.len() {
        assert(old_text.take(p) =~= old_text);
        assert(new_text.take(p) =~= new_text);
    }
    if old_text == new_text && p < old_text.len() {
        assert(old_text[p] == new_text[p]);
    }
}

/// The delta turns the old text into the new one.
pub proof fn delta_reaches_the_new_text(old_text: Seq<char>, new_text: Seq<char>)
    ensures
        0 <= delta_backspaces(old_text, new_text) <= old_text.len(),
        old_text.take(old_text.len() - delta_backspaces(old_text, new_text)) + delta_suffix(
            old_text,
            new_text,
        ) == new_text,
{
    common_prefix_is_longest(old_text, new_text);
    let p = common_prefix(old_text, new_text) as int;
    assert(new_text.take(p) + new_text.skip(p) =~= new_text);
}

/// No other number of backspaces with another text gets there with fewer backspaces or
/// with fewer characters typed.
pub proof fn delta_is_least(
    old_text: Seq<char>,
    new_text: Seq<char>,
    backspaces: int,
    suffix: Seq<char>,
)
    requires
        0 <= backspaces <= old_text.len(),
        old_text.take(old_text.len() - backspaces) + suffix == new_text,
    ensures
        delta_backspaces(old_text, new_text) <= backspaces,
        delta_suffix(old_text, new_text).len() <= suffix.len(),
{
    common_prefix_is_longest(old_text, new_text);
    let p = common_prefix(old_text, new_text) as int;
    let kept = old_text.len() - backspaces;
    let whole = old_text.take(kept) + suffix;
    if p < kept {
        assert(whole[p] == old_text[p]);
    }
}

proof fn backspaces_take_away(screen: Seq<char>, actions: Seq<KeyAction>)
    requires
        actions.len() <= screen.len(),
        forall|i: int| 0 <= i < actions.len() ==> #[trigger] actions[i] is Backspace,
    ensures
        after_keys(screen, actions) == screen.take(screen.len() - actions.len()),
    decreases actions.len(),
{
    if actions.len() > 0 {
        assert(actions[actions.len() - 1] is Backspace);
        assert forall|i: int| 0 <= i < actions.drop_last().len() implies #[trigger] (
        actions.drop_last())[i] is Backspace by {
            assert(actions[i] is Backspace);
        }
        backspaces_take_away(screen, actions.drop_last());
    }
    assert(after_keys(screen, actions) =~= screen.take(screen.len() - actions.len()));
}

/// Sent to an input field that ends in the old text, the keys leave it ending in the new
/// text, and do not touch what stands before.
pub proof fn keys_leave_the_rest_alone(
    before: Seq<char>,
    old_text: Seq<char>,
    new_text: Seq<char>,
    actions: Seq<KeyAction>,
)
    requires
        are_keys(
            actions,
            delta_backspaces(old_text, new_text),
            delta_suffix(old_text, new_text),
        ),
    ensures
        after_keys(before + old_text, actions) == before + new_text,
{
    delta_reaches_the_new_text(old_text, new_text);
    let n = delta_backspaces(old_text, new_text);
    let suffix = delta_suffix(old_text, new_text);
    let screen = before + old_text;
    let kept = before + old_text.take(old_text.len() - n);
    backspaces_take_away(screen, actions.take(n));
    assert(screen.take(screen.len() - n) =~= kept);
    if suffix.len() > 0 {
        assert(actions.drop_last() =~= actions.take(n));
        assert(kept + suffix =~= before + new_text);
    } else {
        assert(actions.take(n) =~= actions);
        assert(kept =~= before + new_text);
    }
}

/// The keys that a step sends.
pub open spec fn keys_of(step: PasteStep) -> Seq<KeyAction> {
    match step {
        PasteStep::Type(keys) => keys@,
        _ => Seq::empty(),
    }
}

/// Whether `runs` and `steps` are those with which a session, from its start, began to paste
/// `targets` one after another, each typing having succeeded before the next began.
pub open spec fn typed_through(
    targets: Seq<Seq<char>>,
    runs: Seq<RunState>,
    steps: Seq<PasteStep>,
) -> bool
    decreases targets.len(),
{
    &&& runs.len() == targets.len()
    &&& steps.len() == targets.len()
    &&& targets.len() > 0 ==> {
        &&& typed_through(targets.drop_last(), runs.drop_last(), steps.drop_last())
        &&& begins(
            typed_last(targets.drop_last()),
            targets.last(),
            runs.last().submit,
            runs.last().copy,
            runs.last(),
            steps.last(),
        )
    }
}

/// The text that counts as typed after all of `targets`.
pub open spec fn typed_last(targets: Seq<Seq<char>>) -> Seq<char> {
    if targets.len() == 0 {
        Seq::empty()
    } else {
        targets.last()
    }
}

/// The text in an input field after the keys of several steps.
pub open spec fn after_steps(screen: Seq<char>, steps: Seq<PasteStep>) -> Seq<char>
    decreases steps.len(),
{
    if steps.len() == 0 {
        screen
    } else {
        after_keys(after_steps(screen, steps.drop_last()), keys_of(steps.last()))
    }
}

/// However many texts are pasted one after another, the input field ends in the last one,
/// after what stood there before.
pub proof fn screen_shows_the_last_text(
    before: Seq<char>,
    targets: Seq<Seq<char>>,
    runs: Seq<RunState>,
    steps: Seq<PasteStep>,
)
    requires
        typed_through(targets, runs, steps),
    ensures
        after_steps(before, steps) == before + typed_last(targets),
    decreases targets.len(),
{
    if targets.len() == 0 {
        assert(before + typed_last(targets) =~= before);
    } else {
        screen_shows_the_last_text(
            before,
            targets.drop_last(),
            runs.drop_last(),
            steps.drop_last(),
        );
        let typed = typed_last(targets.drop_last());
        if typed != targets.last() {
            keys_leave_the_rest_alone(before, typed, targets.last(), keys_of(steps.last()));
        }
    }
}

/// Taking back what was typed restores the input field, whatever was typed meanwhile.
pub proof fn abort_restores_the_screen(
    before: Seq<char>,
    targets: Seq<Seq<char>>,
    runs: Seq<RunState>,
    steps: Seq<PasteStep>,
)
    requires
        typed_through(targets, runs, steps),
        targets.len() > 0,
        targets.last() == Seq::<char>::empty(),
    ensures
        after_steps(before, steps) == before,
{
    screen_shows_the_last_text(before, targets, runs, steps);
    assert(before + Seq::<char>::empty() =~= before);
}

/// Whether `runs`, `typed` and `steps` are those of a run that began where `typed[0]` was
/// typed, and whose steps but the last had `outcomes`.
pub open spec fn pasted(
    target: Seq<char>,
    submit: bool,
    copy: bool,
    outcomes: Seq<Result<(), String>>,
    typed: Seq<Seq<char>>,
    runs: Seq<RunState>,
    steps: Seq<PasteStep>,
) -> bool
    decreases outcomes.len(),
{
    let n = outcomes.len() as int;
    &&& typed.len() == n + 1
    &&& runs.len() == n + 1
    &&& steps.len() == n + 1
    &&& if n == 0 {
        begins(typed[0], target, submit, copy, runs[0], steps[0])
    } else {
        &&& pasted(
            target,
            submit,
            copy,
            outcomes.drop_last(),
            typed.drop_last(),
            runs.drop_last(),
            steps.drop_last(),
        )
        &&& runs[n - 1].stage != PasteStage::Over
        &&& paste_step(runs[n - 1], outcomes[n - 1], runs[n], steps[n])
        &&& typed[n] == typed_after(typed[n - 1], runs[n - 1], outcomes[n - 1])
    }
}

/// The stage that a step stands for.
pub open spec fn stage_of(step: PasteStep) -> PasteStage {
    match step {
        PasteStep::Type(_) => PasteStage::Typing,
        PasteStep::Submit => PasteStage::Submitting,
        PasteStep::Copy(_) => PasteStage::Copying,
        PasteStep::Done(_) => PasteStage::Over,
    }
}

/// The stages of a run without a failure: the text is typed unless it is there already, then
/// submitted and copied if it is to be.
pub open spec fn stages(differs: bool, submit: bool, copy: bool) -> Seq<PasteStage> {
    let typing = if differs {
        seq![PasteStage::Typing]
    } else {
        Seq::empty()
    };
    let submitting = if submit {
        seq![PasteStage::Submitting]
    } else {
        Seq::empty()
    };
    let copying = if copy {
        seq![PasteStage::Copying]
    } else {
        Seq::empty()
    };
    typing + submitting + copying + seq![PasteStage::Over]
}

/// A run does what it is to do, each thing once and in order: typing, submitting, copying.
/// While nothing fails its steps are the first of [`stages`], and a run that is over has
/// gone through them all and typed its text.
pub proof fn run_goes_through_its_stages(
    target: Seq<char>,
    submit: bool,
    copy: bool,
    outcomes: Seq<Result<(), String>>,
    typed: Seq<Seq<char>>,
    runs: Seq<RunState>,
    steps: Seq<PasteStep>,
)
    requires
        pasted(target, submit, copy, outcomes, typed, runs, steps),
        forall|i: int| 0 <= i < outcomes.len() ==> #[trigger] outcomes[i] is Ok,
    ensures
        ({
            let all = stages(typed[0] != target, submit, copy);
            &&& steps.len() <= all.len()
            &&& forall|i: int| 0 <= i < steps.len() ==> stage_of(#[trigger] steps[i]) == all[i]
            &&& forall|i: int|
                0 <= i < steps.len() ==> (#[trigger] steps[i] matches PasteStep::Copy(t) ==> t@
                    == target)
            &&& runs.last().stage == PasteStage::Over ==> {
                &&& steps.len() == all.len()
                &&& steps.last() == PasteStep::Done(Ok(()))
            }
            &&& !(steps.last() is Type) ==> typed.last() == target
        }),
    decreases outcomes.len(),
{
    let n = outcomes.len() as int;
    run_stays_the_same(target, submit, copy, outcomes, typed, runs, steps);
    if n > 0 {
        assert forall|i: int| 0 <= i < n - 1 implies #[trigger] outcomes.drop_last()[i] is Ok by {
            assert(outcomes[i] is Ok);
        }
        assert(outcomes[n - 1] is Ok);
        run_goes_through_its_stages(
            target,
            submit,
            copy,
            outcomes.drop_last(),
            typed.drop_last(),
            runs.drop_last(),
            steps.drop_last(),
        );
        run_stays_the_same(
            target,
            submit,
            copy,
            outcomes.drop_last(),
            typed.drop_last(),
            runs.drop_last(),
            steps.drop_last(),
        );
        let all = stages(typed[0] != target, submit, copy);
        assert(stage_of(steps.drop_last()[n - 1]) == all[n - 1]);
        assert(stage_of(steps[n]) == all[n]);
        assert forall|i: int| 0 <= i < steps.len() implies stage_of(#[trigger] steps[i])
            == all[i] by {
            if i < n {
                assert(steps.drop_last()[i] == steps[i]);
            }
        }
        assert forall|i: int| 0 <= i < steps.len() implies (
        #[trigger] steps[i] matches PasteStep::Copy(t) ==> t@ == target) by {
            if i < n {
                assert(steps.drop_last()[i] == steps[i]);
            }
        }
    }
}

proof fn run_stays_the_same(
    target: Seq<char>,
    submit: bool,
    copy: bool,
    outcomes: Seq<Result<(), String>>,
    typed: Seq<Seq<char>>,
    runs: Seq<RunState>,
    steps: Seq<PasteStep>,
)
    requires
        pasted(target, submit, copy, outcomes, typed, runs, steps),
    ensures
        runs.last().target == target,
        runs.last().submit == submit,
        runs.last().copy == copy,
        runs.last().stage == stage_of(steps.last()),
    decreases outcomes.len(),
{
    if outcomes.len() > 0 {
        run_stays_the_same(
            target,
            submit,
            copy,
            outcomes.drop_last(),
            typed.drop_last(),
            runs.drop_last(),
            steps.drop_last(),
        );
    }
}

/// A step that fails is the last: what was to follow is not done. Where the typing failed,
/// the text is not submitted, not copied, and does not count as typed.
pub proof fn failure_ends_the_run(
    target: Seq<char>,
    submit: bool,
    copy: bool,
    outcomes: Seq<Result<(), String>>,
    typed: Seq<Seq<char>>,
    runs: Seq<RunState>,
    steps: Seq<PasteStep>,
    i: int,
    error: String,
)
    requires
        pasted(target, submit, copy, outcomes, typed, runs, steps),
        0 <= i < outcomes.len(),
        outcomes[i] == Err::<(), String>(error),
    ensures
        i == outcomes.len() - 1,
        steps.last() == PasteStep::Done(Err(error)),
        steps[i] is Type ==> typed.last() == typed[i],
    decreases outcomes.len(),
{
    run_stays_the_same(target, submit, copy, outcomes, typed, runs, steps);
    if i < outcomes.len() - 1 {
        failure_ends_the_run(
            target,
            submit,
            copy,
            outcomes.drop_last(),
            typed.drop_last(),
            runs.drop_last(),
            steps.drop_last(),
            i,
            error,
        );
        run_stays_the_same(
            target,
            submit,
            copy,
            outcomes.drop_last(),
            typed.drop_last(),
            runs.drop_last(),
            steps.drop_last(),
        );
    }
}

/// The keys are as few as can be: whatever other number of backspaces and text lead to the
/// new text, no more keys are sent than those take, and no more is typed. No empty text is
/// ever typed.
pub proof fn keys_are_few(
    old_text: Seq<char>,
    new_text: Seq<char>,
    actions: Seq<KeyAction>,
    backspaces: int,
    suffix: Seq<char>,
)
    requires
        are_keys(
            actions,
            delta_backspaces(old_text, new_text),
            delta_suffix(old_text, new_text),
        ),
        0 <= backspaces <= old_text.len(),
        old_text.take(old_text.len() - backspaces) + suffix == new_text,
    ensures
        suffix.len() == 0 ==> actions.len() <= backspaces,
        actions.len() <= backspaces + 1,
        forall|i: int|
            0 <= i < actions.len() ==> (#[trigger] actions[i] matches KeyAction::Text(t) ==> 0
                < t@.len() <= suffix.len()),
{
    delta_is_least(old_text, new_text, backspaces, suffix);
    delta_reaches_the_new_text(old_text, new_text);
    let n = delta_backspaces(old_text, new_text);
    assert forall|i: int| 0 <= i < actions.len() implies (
    #[trigger] actions[i] matches KeyAction::Text(t) ==> 0 < t@.len() <= suffix.len()) by {
        if i < n {
            assert(actions[i] is Backspace);
        } else {
            assert(i == n);
        }
    }
}

/// What a run that ends a session does, by the settings alone, where no step fails. The text
/// is copied to the clipboard if and only if the clipboard is to be written, whatever the
/// other settings say; a return key is sent if and only if texts are submitted and pasting is
/// on; a space follows the text, on screen and on the clipboard, if and only if one is to be
/// appended. Each thing is done once: the text is typed first and copied last.
pub proof fn finalize_does_what_the_settings_say(
    settings: AppSettings,
    final_text: Seq<char>,
    outcomes: Seq<Result<(), String>>,
    typed: Seq<Seq<char>>,
    runs: Seq<RunState>,
    steps: Seq<PasteStep>,
)
    requires
        pasted(
            final_target(settings, final_text),
            submits(settings),
            copies(settings),
            outcomes,
            typed,
            runs,
            steps,
        ),
        forall|i: int| 0 <= i < outcomes.len() ==> #[trigger] outcomes[i] is Ok,
        steps.last() is Done,
    ensures
        ({
            let target = if settings.append_trailing_space {
                final_text.push(' ')
            } else {
                final_text
            };
            &&& (exists|i: int| 0 <= i < steps.len() && #[trigger] steps[i] is Copy)
                <==> settings.clipboard_handling == ClipboardHandling::CopyToClipboard
            &&& (exists|i: int| 0 <= i < steps.len() && #[trigger] steps[i] is Submit)
                <==> settings.auto_submit && settings.paste_method == PasteMethod::Enabled
            &&& (exists|i: int| 0 <= i < steps.len() && #[trigger] steps[i] is Type) <==> typed[0]
                != target
            &&& forall|i: int|
                0 <= i < steps.len() ==> (#[trigger] steps[i] matches PasteStep::Copy(t) ==> t@
                    == target && i == steps.len() - 2)
            &&& forall|i: int| 0 <= i < steps.len() && #[trigger] steps[i] is Type ==> i == 0
            &&& forall|i: int, j: int|
                0 <= i < j < steps.len() && #[trigger] steps[i] is Submit ==> !(
                #[trigger] steps[j] is Submit)
            &&& typed.last() == target
            &&& steps.last() == PasteStep::Done(Ok(()))
        }),
{
    let target = final_target(settings, final_text);
    let all = stages(typed[0] != target, submits(settings), copies(settings));
    assert(final_text + seq![' '] =~= final_text.push(' '));
    run_stays_the_same(
        target,
        submits(settings),
        copies(settings),
        outcomes,
        typed,
        runs,
        steps,
    );
    run_goes_through_its_stages(
        target,
        submits(settings),
        copies(settings),
        outcomes,
        typed,
        runs,
        steps,
    );
    let typing: int = if typed[0] != target {
        1
    } else {
        0
    };
    let submitting: int = if submits(settings) {
        1
    } else {
        0
    };
    assert(typed[0] != target ==> stage_of(steps[0]) == PasteStage::Typing);
    assert(submits(settings) ==> stage_of(steps[typing]) == PasteStage::Submitting);
    assert(copies(settings) ==> stage_of(steps[typing + submitting]) == PasteStage::Copying);
}

/// Whether a final text is copied to the clipboard depends on the setting for the clipboard
/// alone: two settings that agree in it agree in whether they copy, however else they differ
/// and whatever text was typed before.
pub proof fn copying_depends_on_the_clipboard_setting_alone(
    a: AppSettings,
    b: AppSettings,
    final_text: Seq<char>,
    outcomes_a: Seq<Result<(), String>>,
    typed_a: Seq<Seq<char>>,
    runs_a: Seq<RunState>,
    steps_a: Seq<PasteStep>,
    outcomes_b: Seq<Result<(), String>>,
    typed_b: Seq<Seq<char>>,
    runs_b: Seq<RunState>,
    steps_b: Seq<PasteStep>,
)
    requires
        a.clipboard_handling == b.clipboard_handling,
        pasted(
            final_target(a, final_text),
            submits(a),
            copies(a),
            outcomes_a,
            typed_a,
            runs_a,
            steps_a,
        ),
        pasted(
            final_target(b, final_text),
            submits(b),
            copies(b),
            outcomes_b,
            typed_b,
            runs_b,
            steps_b,
        ),
        forall|i: int| 0 <= i < outcomes_a.len() ==> #[trigger] outcomes_a[i] is Ok,
        forall|i: int| 0 <= i < outcomes_b.len() ==> #[trigger] outcomes_b[i] is Ok,
        steps_a.last() is Done,
        steps_b.last() is Done,
    ensures
        (exists|i: int| 0 <= i < steps_a.len() && #[trigger] steps_a[i] is Copy) <==> (exists|
            i: int,
        |
            0 <= i < steps_b.len() && #[trigger] steps_b[i] is Copy),
{
    finalize_does_what_the_settings_say(a, final_text, outcomes_a, typed_a, runs_a, steps_a);
    finalize_does_what_the_settings_say(b, final_text, outcomes_b, typed_b, runs_b, steps_b);
}

/// Showing an intermediate text, or taking it back, never submits or copies anything,
/// whether or not a step fails: keys are sent at most once, and only where the text is not
/// there already.
pub proof fn intermediate_texts_are_only_typed(
    target: Seq<char>,
    outcomes: Seq<Result<(), String>>,
    typed: Seq<Seq<char>>,
    runs: Seq<RunState>,
    steps: Seq<PasteStep>,
)
    requires
        pasted(target, false, false, outcomes, typed, runs, steps),
    ensures
        steps.len() <= 2,
        typed[0] != target <==> steps[0] is Type,
        forall|i: int|
            0 <= i < steps.len() ==> (#[trigger] steps[i] is Type && i == 0 || steps[i] is Done),
    decreases outcomes.len(),
{
    let n = outcomes.len() as int;
    run_stays_the_same(target, false, false, outcomes, typed, runs, steps);
    if n > 0 {
        intermediate_texts_are_only_typed(
            target,
            outcomes.drop_last(),
            typed.drop_last(),
            runs.drop_last(),
            steps.drop_last(),
        );
        run_stays_the_same(
            target,
            false,
            false,
            outcomes.drop_last(),
            typed.drop_last(),
            runs.drop_last(),
            steps.drop_last(),
        );
        assert(steps.drop_last()[n - 1] == steps[n - 1]);
        assert(steps[n] is Done);
        assert forall|i: int| 0 <= i < steps.len() implies (#[trigger] steps[i] is Type && i == 0
            || steps[i] is Done) by {
            if i < n {
                assert(steps.drop_last()[i] == steps[i]);
            }
        }
    }
}

/// The return key waits a twentieth of a second.
pub proof fn the_return_key_waits()
    ensures
        1000 == 20 * SUBMIT_DELAY_MS,
{
}

/// A key that could not be sent is told with what went wrong at the end.
pub proof fn failed_keys_tell_why(key: KeyAction, error: Seq<char>)
    ensures
        ends_in(key.failure_text(error), error),
        key is Backspace ==> key.failure_text(error) == "Failed to send backspace: "@ + error,
        key is Text ==> key.failure_text(error) == "Failed to type streaming text: "@ + error,
{
    match key {
        KeyAction::Backspace => appended_texts_are_ends("Failed to send backspace: "@, error),
        KeyAction::Text(_) => appended_texts_are_ends("Failed to type streaming text: "@, error),
    }
}

} // verus!
