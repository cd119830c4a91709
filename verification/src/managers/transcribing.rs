//! A transcription by the loaded engine, step by step.
//!
//! A transcription counts as activity, waits while a model is being loaded, takes the engine
//! out, has it run and puts it back. The text is then post-processed, and at last the model
//! may be unloaded. The settings are read anew for that.

use crate::managers::inference::{inference_failed, validate_language};
#[allow(unused_imports)]
use crate::managers::inference::{engine_name, validated};
use crate::managers::model::{EngineType, ModelInfo};
#[allow(unused_imports)]
use crate::managers::model::runs_on;
#[allow(unused_imports)]
use crate::managers::postprocess::{
    corrects_alike, equal_texts_come_to_the_same, filters_alike, postprocessing,
};
use crate::managers::transcription::{
    ModelStateEvent, Readiness, TranscriptionError, TranscriptionManager, TranscriptionStart,
};
#[allow(unused_imports)]
use crate::managers::transcription::{unloads_when, ManagerState};
use crate::settings::AppSettings;
use vstd::prelude::*;

verus! {

/// Something to be done for a transcription.
pub enum TranscribeStep<E> {
    /// Wait until no model is being loaded.
    Wait,
    /// Read the settings and what is known of the selected model.
    Configure,
    /// Run this engine on the audio, for this language.
    Run { engine: E, language: String },
    /// Post-process this text.
    Postprocess { raw: String },
    /// Read the settings again.
    Reconfigure,
    /// Nothing; this is the result.
    Done(Result<String, TranscriptionError>),
}

/// The outcome of a step.
pub enum TranscribeEvent<E> {
    /// The loading may be over.
    Woken,
    Configured { settings: AppSettings, info: Option<ModelInfo> },
    /// The engine, which is of this kind, has run.
    Returned { engine: E, kind: EngineType, result: Result<String, String> },
    /// The engine panicked with this message, and is gone.
    Panicked(String),
    /// The text that was post-processed.
    Processed(String),
    Reconfigured(AppSettings),
}

/// What a transcription waits for.
#[derive(Debug, Clone, Copy, PartialEq, Eq, Structural)]
pub enum TranscribeStage {
    Waiting,
    Configuring,
    Running,
    Processing,
    Unloading,
    /// Nothing more is to be done.
    Over,
}

/// A transcription under way.
pub struct TranscriptionRun {
    stage: TranscribeStage,
    text: String,
}

/// A transcription under way, as a mathematical value.
#[verifier::ext_equal]
pub struct TranscribeState {
    pub stage: TranscribeStage,
    /// The text, once it has been post-processed.
    pub text: Seq<char>,
}

impl View for TranscriptionRun {
    type V = TranscribeState;

    closed spec fn view(&self) -> TranscribeState {
        TranscribeState { stage: self.stage, text: self.text@ }
    }
}

impl TranscribeState {
    /// The run at a stage.
    pub open spec fn at(self, stage: TranscribeStage) -> TranscribeState {
        TranscribeState { stage, ..self }
    }

    /// Whether an event is one that the run waits for.
    pub open spec fn expects<E>(self, event: TranscribeEvent<E>) -> bool {
        match event {
            TranscribeEvent::Woken => self.stage == TranscribeStage::Waiting,
            TranscribeEvent::Configured { .. } => self.stage == TranscribeStage::Configuring,
            TranscribeEvent::Returned { .. } | TranscribeEvent::Panicked(_) => self.stage
                == TranscribeStage::Running,
            TranscribeEvent::Processed(_) => self.stage == TranscribeStage::Processing,
            TranscribeEvent::Reconfigured(_) => self.stage == TranscribeStage::Unloading,
        }
    }
}

/// What comes next where the engine is needed: to wait while a model is being loaded, an
/// error where there is no engine, else to go on.
pub open spec fn needs_engine<E, S, P>(
    pre: TranscribeState,
    manager: ManagerState<E, S, P>,
    post: TranscribeState,
    step: TranscribeStep<E>,
) -> bool {
    if manager.is_loading {
        post == pre.at(TranscribeStage::Waiting) && step is Wait
    } else if manager.engine is None {
        post == pre.at(TranscribeStage::Over) && step == TranscribeStep::<E>::Done(
            Err(TranscriptionError::NotLoaded),
        )
    } else {
        post == pre.at(TranscribeStage::Configuring) && step is Configure
    }
}

/// How a transcription begins, at the time `now`. Without audio it is over at once, with an
/// empty text.
pub open spec fn transcription_begins<E, S, P>(
    manager: ManagerState<E, S, P>,
    now: u64,
    has_audio: bool,
    settings: AppSettings,
    post: TranscribeState,
    manager_post: ManagerState<E, S, P>,
    step: TranscribeStep<E>,
    note: Option<ModelStateEvent>,
) -> bool {
    let touched = manager.touched(now);
    if has_audio {
        &&& manager_post == touched
        &&& note is None
        &&& needs_engine(
            TranscribeState { stage: TranscribeStage::Waiting, text: Seq::empty() },
            touched,
            post,
            step,
        )
    } else {
        &&& unloads_when(touched.unloads_at_once(settings), touched, manager_post, note)
        &&& post == (TranscribeState { stage: TranscribeStage::Over, text: Seq::empty() })
        &&& step matches TranscribeStep::Done(Ok(text)) && text@ == Seq::<char>::empty()
    }
}

/// What an event comes to, for the run and for the manager.
pub open spec fn transcribe_step<E, S, P>(
    pre: TranscribeState,
    manager: ManagerState<E, S, P>,
    event: TranscribeEvent<E>,
    post: TranscribeState,
    manager_post: ManagerState<E, S, P>,
    step: TranscribeStep<E>,
    note: Option<ModelStateEvent>,
) -> bool {
    match event {
        TranscribeEvent::Woken => {
            &&& manager_post == manager
            &&& note is None
            &&& needs_engine(pre, manager, post, step)
        },
        TranscribeEvent::Configured { settings, info } => {
            &&& manager_post == manager.engine_out()
            &&& note is None
            &&& match manager.engine {
                Some(taken) => {
                    &&& post == pre.at(TranscribeStage::Running)
                    &&& step matches TranscribeStep::Run { engine, language } && engine == taken
                        && language@ == validated(settings, info)
                },
                None => {
                    &&& post == pre.at(TranscribeStage::Over)
                    &&& step == TranscribeStep::<E>::Done(Err(TranscriptionError::EngineGone))
                },
            }
        },
        TranscribeEvent::Returned { engine, kind, result } => {
            &&& manager_post == manager.engine_back(engine)
            &&& note is None
            &&& match result {
                Ok(raw) => {
                    &&& post == pre.at(TranscribeStage::Processing)
                    &&& step == (TranscribeStep::<E>::Postprocess { raw })
                },
                Err(error) => {
                    &&& post == pre.at(TranscribeStage::Over)
                    &&& step matches TranscribeStep::Done(Err(TranscriptionError::Failed(message)))
                        && message@ == engine_name(kind) + " transcription failed: "@ + error@
                },
            }
        },
        TranscribeEvent::Panicked(message) => {
            &&& manager_post == manager.engine_lost()
            &&& note is Some
            &&& note->0.says("unloaded"@, None, None, Some("Engine panicked: "@ + message@))
            &&& post == pre.at(TranscribeStage::Over)
            &&& step == TranscribeStep::<E>::Done(Err(TranscriptionError::Panicked(message)))
        },
        TranscribeEvent::Processed(text) => {
            &&& manager_post == manager
            &&& note is None
            &&& post == (TranscribeState { stage: TranscribeStage::Unloading, text: text@ })
            &&& step is Reconfigure
        },
        TranscribeEvent::Reconfigured(settings) => {
            &&& unloads_when(manager.unloads_at_once(settings), manager, manager_post, note)
            &&& post == pre.at(TranscribeStage::Over)
            &&& step matches TranscribeStep::Done(Ok(text)) && text@ == pre.text
        },
    }
}

impl TranscriptionRun {
    /// Tells whether nothing more is to be done.
    pub fn is_over(&self) -> (r: bool)
        ensures
            r == (self@.stage == TranscribeStage::Over),
    {
        self.stage == TranscribeStage::Over
    }

    fn end<E>(&mut self, result: Result<String, TranscriptionError>) -> (r: TranscribeStep<E>)
        ensures
            final(self)@ == old(self)@.at(TranscribeStage::Over),
            r == TranscribeStep::<E>::Done(result),
    {
        self.stage = TranscribeStage::Over;
        TranscribeStep::Done(result)
    }
}

impl<E, S, P> TranscriptionManager<E, S, P> {
    fn need_engine(&self, run: &mut TranscriptionRun) -> (r: TranscribeStep<E>)
        ensures
            needs_engine(old(run)@, self@, final(run)@, r),
    {
        match self.readiness() {
            Readiness::Wait => {
                run.stage = TranscribeStage::Waiting;
                TranscribeStep::Wait
            },
            Readiness::NotLoaded => run.end(Err(TranscriptionError::NotLoaded)),
            Readiness::Ready => {
                run.stage = TranscribeStage::Configuring;
                TranscribeStep::Configure
            },
        }
    }

    /// Starts a transcription at the time `now`.
    pub fn transcribe(&mut self, now: u64, has_audio: bool, settings: &AppSettings) -> (r: (
        TranscriptionRun,
        TranscribeStep<E>,
        Option<ModelStateEvent>,
    ))
        ensures
            transcription_begins(
                old(self)@,
                now,
                has_audio,
                *settings,
                r.0@,
                final(self)@,
                r.1,
                r.2,
            ),
    {
        let mut run = TranscriptionRun { stage: TranscribeStage::Waiting, text: String::new() };
        assert(run@.text =~= Seq::empty());
        match self.begin_transcription(now, has_audio, settings) {
            TranscriptionStart::Empty(note) => {
                let nothing = String::new();
                assert(nothing@ =~= Seq::<char>::empty());
                let step = run.end(Ok(nothing));
                (run, step, note)
            },
            TranscriptionStart::Audio => {
                let step = self.need_engine(&mut run);
                (run, step, None)
            },
        }
    }

    /// Takes in the outcome of the last step.
    pub fn step_transcription(
        &mut self,
        run: &mut TranscriptionRun,
        event: TranscribeEvent<E>,
    ) -> (r: (TranscribeStep<E>, Option<ModelStateEvent>))
        requires
            old(run)@.expects(event),
        ensures
            transcribe_step(old(run)@, old(self)@, event, final(run)@, final(self)@, r.0, r.1),
    {
        match event {
            TranscribeEvent::Woken => (self.need_engine(run), None),
            TranscribeEvent::Configured { settings, info } => {
                let language = validate_language(&settings, &info);
                match self.take_engine() {
                    Ok(engine) => {
                        run.stage = TranscribeStage::Running;
                        (TranscribeStep::Run { engine, language }, None)
                    },
                    Err(e) => (run.end(Err(e)), None),
                }
            },
            TranscribeEvent::Returned { engine, kind, result } => {
                let result = match result {
                    Ok(raw) => Ok(raw),
                    Err(error) => Err(inference_failed(kind, error.as_str())),
                };
                match self.engine_returned(engine, result) {
                    Ok(raw) => {
                        run.stage = TranscribeStage::Processing;
                        (TranscribeStep::Postprocess { raw }, None)
                    },
                    Err(e) => (run.end(Err(e)), None),
                }
            },
            TranscribeEvent::Panicked(message) => {
                let (note, error) = self.engine_panicked(message);
                (run.end(Err(error)), Some(note))
            },
            TranscribeEvent::Processed(text) => {
                run.text = text;
                run.stage = TranscribeStage::Unloading;
                (TranscribeStep::Reconfigure, None)
            },
            TranscribeEvent::Reconfigured(settings) => {
                let note = self.maybe_unload_immediately(&settings);
                let text = run.text.clone();
                (run.end(Ok(text)), note)
            },
        }
    }
}

/// Whether these are the states, steps and announcements of a transcription that meets
/// `events`. Between two steps the manager may have changed: `before` and `after` are its
/// states before and after each step.
pub open spec fn transcribes<E, S, P>(
    now: u64,
    has_audio: bool,
    settings: AppSettings,
    events: Seq<TranscribeEvent<E>>,
    runs: Seq<TranscribeState>,
    before: Seq<ManagerState<E, S, P>>,
    after: Seq<ManagerState<E, S, P>>,
    steps: Seq<TranscribeStep<E>>,
    notes: Seq<Option<ModelStateEvent>>,
) -> bool
    decreases events.len(),
{
    let n = events.len() as int;
    &&& runs.len() == n + 1
    &&& before.len() == n + 1
    &&& after.len() == n + 1
    &&& steps.len() == n + 1
    &&& notes.len() == n + 1
    &&& if n == 0 {
        transcription_begins(
            before[0],
            now,
            has_audio,
            settings,
            runs[0],
            after[0],
            steps[0],
            notes[0],
        )
    } else {
        &&& transcribes(
            now,
            has_audio,
            settings,
            events.drop_last(),
            runs.drop_last(),
            before.drop_last(),
            after.drop_last(),
            steps.drop_last(),
            notes.drop_last(),
        )
        &&& runs[n - 1].expects(events[n - 1])
        &&& transcribe_step(
            runs[n - 1],
            before[n],
            events[n - 1],
            runs[n],
            after[n],
            steps[n],
            notes[n],
        )
    }
}

/// Where a step stands in the order of steps.
pub open spec fn transcribe_rank<E>(step: TranscribeStep<E>) -> int {
    match step {
        TranscribeStep::Wait => 0,
        TranscribeStep::Configure => 1,
        TranscribeStep::Run { .. } => 2,
        TranscribeStep::Postprocess { .. } => 3,
        TranscribeStep::Reconfigure => 4,
        TranscribeStep::Done(_) => 5,
    }
}

/// Where a stage stands in the order of stages.
pub open spec fn stage_rank(stage: TranscribeStage) -> int {
    match stage {
        TranscribeStage::Waiting => 0,
        TranscribeStage::Configuring => 1,
        TranscribeStage::Running => 2,
        TranscribeStage::Processing => 3,
        TranscribeStage::Unloading => 4,
        TranscribeStage::Over => 5,
    }
}

/// The steps of a transcription come in order, and none twice but waiting: to wait, to read
/// the settings, to run the engine, to post-process, to read the settings again, the end.
pub proof fn transcription_goes_in_order<E, S, P>(
    now: u64,
    has_audio: bool,
    settings: AppSettings,
    events: Seq<TranscribeEvent<E>>,
    runs: Seq<TranscribeState>,
    before: Seq<ManagerState<E, S, P>>,
    after: Seq<ManagerState<E, S, P>>,
    steps: Seq<TranscribeStep<E>>,
    notes: Seq<Option<ModelStateEvent>>,
)
    requires
        transcribes(now, has_audio, settings, events, runs, before, after, steps, notes),
    ensures
        stage_rank(runs.last().stage) == transcribe_rank(steps.last()),
        forall|i: int, j: int|
            0 <= i < j < steps.len() ==> transcribe_rank(#[trigger] steps[i]) < transcribe_rank(
                #[trigger] steps[j],
            ) || (steps[i] is Wait && steps[j] is Wait),
    decreases events.len(),
{
    let n = events.len() as int;
    if n > 0 {
        transcription_goes_in_order(
            now,
            has_audio,
            settings,
            events.drop_last(),
            runs.drop_last(),
            before.drop_last(),
            after.drop_last(),
            steps.drop_last(),
            notes.drop_last(),
        );
        let earlier = steps.drop_last();
        assert(earlier.last() == steps[n - 1]);
        assert(transcribe_rank(steps[n - 1]) < transcribe_rank(steps[n]) || (steps[n - 1] is Wait
            && steps[n] is Wait));
        assert forall|i: int, j: int| 0 <= i < j < steps.len() implies transcribe_rank(
            #[trigger] steps[i],
        ) < transcribe_rank(#[trigger] steps[j]) || (steps[i] is Wait && steps[j] is Wait) by {
            if j < n {
                assert(earlier[i] == steps[i] && earlier[j] == steps[j]);
            } else if i < n - 1 {
                assert(earlier[i] == steps[i] && earlier[n - 1] == steps[n - 1]);
            }
        }
    }
}

/// A transcription that is woken while a model is being loaded waits on: it takes no engine
/// then.
pub proof fn transcription_waits_for_the_loading<E, S, P>(
    pre: TranscribeState,
    manager: ManagerState<E, S, P>,
    post: TranscribeState,
    manager_post: ManagerState<E, S, P>,
    step: TranscribeStep<E>,
    note: Option<ModelStateEvent>,
)
    requires
        manager.is_loading,
        transcribe_step(
            pre,
            manager,
            TranscribeEvent::Woken,
            post,
            manager_post,
            step,
            note,
        ),
    ensures
        step is Wait,
        manager_post == manager,
{
}

proof fn transcription_history<E, S, P>(
    now: u64,
    has_audio: bool,
    settings: AppSettings,
    events: Seq<TranscribeEvent<E>>,
    runs: Seq<TranscribeState>,
    before: Seq<ManagerState<E, S, P>>,
    after: Seq<ManagerState<E, S, P>>,
    steps: Seq<TranscribeStep<E>>,
    notes: Seq<Option<ModelStateEvent>>,
)
    requires
        transcribes(now, has_audio, settings, events, runs, before, after, steps, notes),
    ensures
        runs.last().stage == TranscribeStage::Processing ==> {
            let n = events.len() as int;
            &&& n >= 1
            &&& events[n - 1] matches TranscribeEvent::Returned { engine, result: Ok(raw), .. }
                && steps[n] == (TranscribeStep::<E>::Postprocess { raw }) && after[n].engine
                == Some(engine)
        },
        runs.last().stage == TranscribeStage::Unloading ==> {
            let n = events.len() as int;
            &&& n >= 2
            &&& events[n - 2] matches TranscribeEvent::Returned { engine, result: Ok(raw), .. }
                && steps[n - 1] == (TranscribeStep::<E>::Postprocess { raw }) && after[n
                - 1].engine == Some(engine)
            &&& events[n - 1] matches TranscribeEvent::Processed(text) && runs[n].text == text@
        },
    decreases events.len(),
{
    if events.len() > 0 {
        transcription_history(
            now,
            has_audio,
            settings,
            events.drop_last(),
            runs.drop_last(),
            before.drop_last(),
            after.drop_last(),
            steps.drop_last(),
            notes.drop_last(),
        );
    }
}

/// A transcription of audio that succeeds has had its engine run and put back, has had the
/// engine's text post-processed, and returns just what that gave.
pub proof fn transcription_returns_the_processed_text<E, S, P>(
    now: u64,
    settings: AppSettings,
    events: Seq<TranscribeEvent<E>>,
    runs: Seq<TranscribeState>,
    before: Seq<ManagerState<E, S, P>>,
    after: Seq<ManagerState<E, S, P>>,
    steps: Seq<TranscribeStep<E>>,
    notes: Seq<Option<ModelStateEvent>>,
    text: String,
)
    requires
        transcribes(now, true, settings, events, runs, before, after, steps, notes),
        steps.last() == TranscribeStep::<E>::Done(Ok(text)),
    ensures
        ({
            let n = events.len() as int;
            &&& n >= 3
            &&& events[n - 3] matches TranscribeEvent::Returned { engine, result: Ok(raw), .. }
                && after[n - 2].engine == Some(engine) && steps[n - 2] == (TranscribeStep::<
                E,
            >::Postprocess { raw })
            &&& events[n - 2] matches TranscribeEvent::Processed(processed) && text@ == processed@
            &&& events[n - 1] is Reconfigured
        }),
{
    let n = events.len() as int;
    if n > 0 {
        transcription_history(
            now,
            true,
            settings,
            events.drop_last(),
            runs.drop_last(),
            before.drop_last(),
            after.drop_last(),
            steps.drop_last(),
            notes.drop_last(),
        );
    }
}

/// A transcription and a session that recognised the same text give the same in the end:
/// what the one has its engine's text post-processed to is what the other has its own
/// post-processed to.
pub proof fn transcription_and_session_agree<
    E,
    S,
    P,
    C: Fn(&str, &Vec<String>, u64) -> String,
    G: Fn(&str, &str, &Option<Vec<String>>) -> String,
>(
    now: u64,
    settings: AppSettings,
    info: Option<ModelInfo>,
    correct: C,
    filter: G,
    events: Seq<TranscribeEvent<E>>,
    runs: Seq<TranscribeState>,
    before: Seq<ManagerState<E, S, P>>,
    after: Seq<ManagerState<E, S, P>>,
    steps: Seq<TranscribeStep<E>>,
    notes: Seq<Option<ModelStateEvent>>,
    raw: String,
    processed: String,
    text: String,
    session_text: String,
)
    requires
        corrects_alike(correct),
        filters_alike(filter),
        transcribes(now, true, settings, events, runs, before, after, steps, notes),
        steps.last() == TranscribeStep::<E>::Done(Ok(text)),
        events.len() >= 3 ==> steps[events.len() - 2] == (TranscribeStep::<E>::Postprocess { raw })
            && events[events.len() - 2] == TranscribeEvent::<E>::Processed(processed),
        postprocessing(
            raw@,
            runs_on(info, EngineType::Whisper),
            settings,
            correct,
            filter,
            processed,
        ),
        postprocessing(
            raw@,
            runs_on(info, EngineType::Whisper),
            settings,
            correct,
            filter,
            session_text,
        ),
    ensures
        text@ == session_text@,
{
    transcription_returns_the_processed_text(
        now,
        settings,
        events,
        runs,
        before,
        after,
        steps,
        notes,
        text,
    );
    equal_texts_come_to_the_same(
        raw@,
        runs_on(info, EngineType::Whisper),
        settings,
        correct,
        filter,
        processed,
        session_text,
    );
}

/// How a transcription begins, by the manager's fields. It counts as activity, audio or not.
/// Without audio its text is empty, whether or not a model is there or being loaded, and the
/// model is unloaded just where the settings ask for that at once. With audio nothing is
/// unloaded: it waits while a model is being loaded, and is refused just where none is and
/// there is no engine.
pub proof fn transcriptions_begin_with_activity<E, S, P>(
    manager: ManagerState<E, S, P>,
    now: u64,
    has_audio: bool,
    settings: AppSettings,
    post: TranscribeState,
    manager_post: ManagerState<E, S, P>,
    step: TranscribeStep<E>,
    note: Option<ModelStateEvent>,
)
    requires
        transcription_begins(
            manager,
            now,
            has_audio,
            settings,
            post,
            manager_post,
            step,
            note,
        ),
    ensures
        manager_post.last_activity == now,
        manager_post.is_loading == manager.is_loading,
        manager_post.doubao_stream == manager.doubao_stream,
        manager_post.streaming_paste == manager.streaming_paste,
        note is Some <==> !has_audio && manager.engine is Some
            && settings.model_unload_timeout is Immediately,
        note is Some ==> manager_post.engine is None && manager_post.current_model is None,
        note is None ==> manager_post.engine == manager.engine && manager_post.current_model
            == manager.current_model,
        !has_audio ==> (step matches TranscribeStep::Done(Ok(text)) && text@.len() == 0),
        has_audio ==> {
            &&& step is Wait <==> manager.is_loading
            &&& step is Configure <==> !manager.is_loading && manager.engine is Some
            &&& step is Done <==> !manager.is_loading && manager.engine is None
            &&& step is Done ==> step->Done_0 == Err::<String, _>(TranscriptionError::NotLoaded)
        },
{
}

/// What each outcome comes to, by the manager's fields. The engine is taken out for the run
/// and put back whether the run succeeded or failed; one that panicked is not, and its model
/// is no longer loaded. The language is the selected one where the model takes it. A failed
/// run is an error that ends in the engine's own. The model is unloaded, if at all, only
/// once the text is there, by the settings read then.
pub proof fn transcription_answers_each_outcome<E, S, P>(
    pre: TranscribeState,
    manager: ManagerState<E, S, P>,
    event: TranscribeEvent<E>,
    post: TranscribeState,
    manager_post: ManagerState<E, S, P>,
    step: TranscribeStep<E>,
    note: Option<ModelStateEvent>,
)
    requires
        pre.expects(event),
        transcribe_step(pre, manager, event, post, manager_post, step, note),
    ensures
        manager_post.last_activity == manager.last_activity,
        manager_post.is_loading == manager.is_loading,
        manager_post.doubao_stream == manager.doubao_stream,
        manager_post.streaming_paste == manager.streaming_paste,
        match event {
            TranscribeEvent::Woken => {
                &&& manager_post == manager
                &&& note is None
                &&& step is Wait <==> manager.is_loading
                &&& step is Configure <==> !manager.is_loading && manager.engine is Some
                &&& step is Done <==> !manager.is_loading && manager.engine is None
                &&& step is Done ==> step->Done_0 == Err::<String, _>(
                    TranscriptionError::NotLoaded,
                )
            },
            TranscribeEvent::Configured { settings, info } => {
                &&& note is None
                &&& manager_post.engine is None
                &&& manager_post.current_model == manager.current_model
                &&& manager.engine is None ==> step is Done && step->Done_0 == Err::<String, _>(
                    TranscriptionError::EngineGone,
                )
                &&& manager.engine matches Some(taken) ==> (step matches TranscribeStep::Run {
                    engine,
                    language,
                } && engine == taken && {
                    &&& language@ == settings.selected_language@ || language@ == "auto"@
                    &&& info is None ==> language@ == settings.selected_language@
                    &&& info matches Some(info) ==> info.supported_languages@.len() == 0
                        ==> language@ == settings.selected_language@
                })
            },
            TranscribeEvent::Returned { engine, result, .. } => {
                &&& note is None
                &&& manager_post.engine == Some(engine)
                &&& manager_post.current_model == manager.current_model
                &&& result matches Ok(raw) ==> (step matches TranscribeStep::Postprocess {
                    raw: handed,
                } && handed == raw)
                &&& result matches Err(error) ==> (step matches TranscribeStep::Done(
                    Err(TranscriptionError::Failed(message)),
                ) && message@.len() >= error@.len() && message@.skip(
                    message@.len() - error@.len(),
                ) == error@)
            },
            TranscribeEvent::Panicked(message) => {
                &&& manager_post.engine == manager.engine
                &&& manager_post.current_model is None
                &&& step is Done && step->Done_0 == Err::<String, _>(
                    TranscriptionError::Panicked(message),
                )
                &&& note matches Some(note) && note.event_type@ == "unloaded"@
                    && note.model_id is None && note.model_name is None && (
                note.error matches Some(told) && told@ == "Engine panicked: "@ + message@)
            },
            TranscribeEvent::Processed(text) => manager_post == manager && note is None && post.text
                == text@ && step is Reconfigure,
            TranscribeEvent::Reconfigured(settings) => {
                &&& step matches TranscribeStep::Done(Ok(text)) && text@ == pre.text
                &&& note is Some <==> manager.engine is Some
                    && settings.model_unload_timeout is Immediately
                &&& note is Some ==> manager_post.engine is None
                    && manager_post.current_model is None
                &&& note is None ==> manager_post == manager
            },
        },
{
    if let TranscribeEvent::Returned { kind, result: Err(error), .. } = event {
        let message = step->Done_0->Err_0->Failed_0@;
        assert(message.skip(message.len() - error@.len()) =~= error@);
    }
}

} // verus!
