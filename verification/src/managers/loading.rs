//! The loading of a model, step by step.
//!
//! Each step says what is to be done next, and the outcome of that is handed in for the
//! following step. The start is announced before all else, the completion after the engine
//! has been taken in, and only then.

use crate::cloud_asr::doubao::client::DoubaoClient;
use crate::managers::model::{EngineType, ModelInfo};
use crate::managers::transcription::{
    engine_load_failed, engine_recipe, find_model, loading_started, EngineRecipe, ModelStateEvent,
    TranscriptionManager, Weights,
};
#[allow(unused_imports)]
use crate::managers::transcription::{
    accepted, announces_failure, is_recipe, load_error, LoadFailure, ManagerState,
};
use crate::settings::AppSettings;
#[allow(unused_imports)]
use crate::text::{blank, opt_text};
use vstd::prelude::*;

verus! {

/// Something to be done for a model that is being loaded.
pub enum LoadStep {
    /// Look the model up.
    Find,
    /// Find the model's files.
    Locate,
    /// Read the settings.
    Configure,
    /// Load the engine from the model's files.
    Load { engine: EngineType, weights: Weights },
    /// Make an engine of the client of the cloud recogniser.
    Connect(DoubaoClient),
    /// Nothing; this is the result.
    Done(Result<(), String>),
}

/// The outcome of a step.
pub enum LoadEvent<E> {
    /// What is known of the model.
    Found(Option<ModelInfo>),
    /// Whether its files were found.
    Located(Result<(), String>),
    Configured(AppSettings),
    /// The engine was made, at the time `now`.
    Loaded { engine: E, now: u64 },
    /// The engine could not be loaded.
    Failed(String),
}

/// What a model that is being loaded waits for.
#[derive(Debug, Clone, Copy, PartialEq, Eq, Structural)]
pub enum LoadStage {
    Finding,
    Locating,
    Configuring,
    Loading,
    /// Nothing more is to be done.
    Over,
}

/// A model that is being loaded.
pub struct LoadRun {
    model_id: String,
    info: Option<ModelInfo>,
    stage: LoadStage,
}

/// A model that is being loaded, as a mathematical value.
#[verifier::ext_equal]
pub struct LoadState {
    pub model_id: Seq<char>,
    /// What is known of the model, once it has been accepted.
    pub info: Option<ModelInfo>,
    pub stage: LoadStage,
}

impl View for LoadRun {
    type V = LoadState;

    closed spec fn view(&self) -> LoadState {
        LoadState { model_id: self.model_id@, info: self.info, stage: self.stage }
    }
}

impl LoadState {
    /// The state's invariant: past the search the model has been accepted.
    pub open spec fn wf(self) -> bool {
        self.stage != LoadStage::Finding && self.stage != LoadStage::Over ==> self.info is Some
    }

    /// The run at a stage.
    pub open spec fn at(self, stage: LoadStage) -> LoadState {
        LoadState { stage, ..self }
    }

    /// Whether an event is one that the run waits for.
    pub open spec fn expects<E>(self, event: LoadEvent<E>) -> bool {
        match event {
            LoadEvent::Found(_) => self.stage == LoadStage::Finding,
            LoadEvent::Located(_) => self.stage == LoadStage::Locating,
            LoadEvent::Configured(_) => self.stage == LoadStage::Configuring,
            LoadEvent::Loaded { .. } | LoadEvent::Failed(_) => self.stage == LoadStage::Loading,
        }
    }
}

/// Whether a run ends with a failure: its error is the result, and its announcement, if it
/// has one, is made.
pub open spec fn load_fails(
    pre: LoadState,
    failure: LoadFailure,
    post: LoadState,
    step: LoadStep,
    note: Option<ModelStateEvent>,
) -> bool {
    &&& post == pre.at(LoadStage::Over)
    &&& step == LoadStep::Done(Err(failure.error))
    &&& note == failure.event
}

/// Whether a run goes on to a stage, with nothing to announce.
pub open spec fn load_goes_on(
    pre: LoadState,
    stage: LoadStage,
    post: LoadState,
    note: Option<ModelStateEvent>,
) -> bool {
    post == pre.at(stage) && note is None
}

/// How a run begins: the start is announced, and the model is looked up.
pub open spec fn load_begins(
    model_id: Seq<char>,
    post: LoadState,
    step: LoadStep,
    note: ModelStateEvent,
) -> bool {
    &&& post == (LoadState { model_id, info: None, stage: LoadStage::Finding })
    &&& step is Find
    &&& note.says("loading_started"@, Some(model_id), None, None)
}

/// What looking the model up comes to.
pub open spec fn found_step(
    pre: LoadState,
    info: Option<ModelInfo>,
    post: LoadState,
    step: LoadStep,
    note: Option<ModelStateEvent>,
) -> bool {
    exists|r: Result<ModelInfo, LoadFailure>| #[trigger]
        accepted(pre.model_id, info, r) && match r {
            Ok(info) => {
                &&& load_goes_on(
                    LoadState { info: Some(info), ..pre },
                    LoadStage::Locating,
                    post,
                    note,
                )
                &&& step is Locate
            },
            Err(failure) => load_fails(pre, failure, post, step, note),
        }
}

/// What the settings come to: the engine is loaded, or made of a client.
pub open spec fn configured_step(
    pre: LoadState,
    settings: AppSettings,
    post: LoadState,
    step: LoadStep,
    note: Option<ModelStateEvent>,
) -> bool {
    exists|r: Result<EngineRecipe, LoadFailure>| #[trigger]
        is_recipe(pre.model_id, pre.info->0, settings, r) && match r {
            Ok(recipe) => {
                &&& load_goes_on(pre, LoadStage::Loading, post, note)
                &&& match recipe {
                    EngineRecipe::Local { engine, weights } => step == (LoadStep::Load {
                        engine,
                        weights,
                    }),
                    EngineRecipe::Cloud(client) => step == LoadStep::Connect(client),
                }
            },
            Err(failure) => load_fails(pre, failure, post, step, note),
        }
}

/// What an engine that could not be loaded comes to.
pub open spec fn failed_step(
    pre: LoadState,
    error: Seq<char>,
    post: LoadState,
    step: LoadStep,
    note: Option<ModelStateEvent>,
) -> bool {
    let info = pre.info->0;
    exists|failure: LoadFailure| #[trigger]
        announces_failure(
            failure,
            pre.model_id,
            info,
            load_error(info.engine_type, pre.model_id, error),
        ) && load_fails(pre, failure, post, step, note)
}

/// What an event comes to, for the run and for the manager.
pub open spec fn load_step<E, S, P>(
    pre: LoadState,
    manager: ManagerState<E, S, P>,
    event: LoadEvent<E>,
    post: LoadState,
    manager_post: ManagerState<E, S, P>,
    step: LoadStep,
    note: Option<ModelStateEvent>,
) -> bool {
    match event {
        LoadEvent::Found(info) => manager_post == manager && found_step(
            pre,
            info,
            post,
            step,
            note,
        ),
        LoadEvent::Located(Ok(_)) => {
            &&& manager_post == manager
            &&& load_goes_on(pre, LoadStage::Configuring, post, note)
            &&& step is Configure
        },
        LoadEvent::Located(Err(error)) => manager_post == manager && load_fails(
            pre,
            LoadFailure { event: None, error },
            post,
            step,
            note,
        ),
        LoadEvent::Configured(settings) => manager_post == manager && configured_step(
            pre,
            settings,
            post,
            step,
            note,
        ),
        LoadEvent::Failed(error) => manager_post == manager && failed_step(
            pre,
            error@,
            post,
            step,
            note,
        ),
        LoadEvent::Loaded { engine, now } => {
            &&& manager_post == manager.loaded(engine, pre.model_id, now)
            &&& post == pre.at(LoadStage::Over)
            &&& step == LoadStep::Done(Ok(()))
            &&& note is Some
            &&& note->0.says(
                "loading_completed"@,
                Some(pre.model_id),
                Some(pre.info->0.name@),
                None,
            )
        },
    }
}

impl LoadRun {
    /// Tells whether nothing more is to be done.
    pub fn is_over(&self) -> (r: bool)
        ensures
            r == (self@.stage == LoadStage::Over),
    {
        self.stage == LoadStage::Over
    }

    fn found(&mut self, info: Option<ModelInfo>) -> (r: (LoadStep, Option<ModelStateEvent>))
        ensures
            final(self)@.wf(),
            found_step(old(self)@, info, final(self)@, r.0, r.1),
    {
        let accepted_model = find_model(self.model_id.as_str(), info);
        assert(accepted(self@.model_id, info, accepted_model));
        match accepted_model {
            Ok(info) => {
                self.info = Some(info);
                self.stage = LoadStage::Locating;
                (LoadStep::Locate, None)
            },
            Err(failure) => {
                self.stage = LoadStage::Over;
                (LoadStep::Done(Err(failure.error)), failure.event)
            },
        }
    }

    fn configured(&mut self, settings: &AppSettings) -> (r: (LoadStep, Option<ModelStateEvent>))
        requires
            old(self)@.info is Some,
        ensures
            final(self)@.wf(),
            configured_step(old(self)@, *settings, final(self)@, r.0, r.1),
    {
        let recipe = match &self.info {
            Some(info) => engine_recipe(self.model_id.as_str(), info, settings),
            None => vstd::pervasive::unreached(),
        };
        assert(is_recipe(self@.model_id, self@.info->0, *settings, recipe));
        match recipe {
            Ok(recipe) => {
                self.stage = LoadStage::Loading;
                let step = match recipe {
                    EngineRecipe::Local { engine, weights } => LoadStep::Load { engine, weights },
                    EngineRecipe::Cloud(client) => LoadStep::Connect(client),
                };
                (step, None)
            },
            Err(failure) => {
                self.stage = LoadStage::Over;
                (LoadStep::Done(Err(failure.error)), failure.event)
            },
        }
    }

    fn failed(&mut self, error: &str) -> (r: (LoadStep, Option<ModelStateEvent>))
        requires
            old(self)@.info is Some,
        ensures
            final(self)@.wf(),
            failed_step(old(self)@, error@, final(self)@, r.0, r.1),
    {
        let failure = match &self.info {
            Some(info) => engine_load_failed(self.model_id.as_str(), info, error),
            None => vstd::pervasive::unreached(),
        };
        assert(announces_failure(
            failure,
            self@.model_id,
            self@.info->0,
            load_error(self@.info->0.engine_type, self@.model_id, error@),
        ));
        self.stage = LoadStage::Over;
        (LoadStep::Done(Err(failure.error)), failure.event)
    }
}

impl<E, S, P> TranscriptionManager<E, S, P> {
    /// Starts to load a model.
    pub fn load_model(model_id: &str) -> (r: (LoadRun, LoadStep, ModelStateEvent))
        ensures
            r.0@.wf(),
            load_begins(model_id@, r.0@, r.1, r.2),
    {
        let run = LoadRun {
            model_id: model_id.to_owned(),
            info: None,
            stage: LoadStage::Finding,
        };
        (run, LoadStep::Find, loading_started(model_id))
    }

    /// Takes in the outcome of the last step. Only an engine that was made changes the
    /// manager.
    pub fn step_load(&mut self, run: &mut LoadRun, event: LoadEvent<E>) -> (r: (
        LoadStep,
        Option<ModelStateEvent>,
    ))
        requires
            old(run)@.wf(),
            old(run)@.expects(event),
        ensures
            final(run)@.wf(),
            load_step(old(run)@, old(self)@, event, final(run)@, final(self)@, r.0, r.1),
    {
        match event {
            LoadEvent::Found(info) => run.found(info),
            LoadEvent::Located(Ok(_)) => {
                run.stage = LoadStage::Configuring;
                (LoadStep::Configure, None)
            },
            LoadEvent::Located(Err(error)) => {
                run.stage = LoadStage::Over;
                (LoadStep::Done(Err(error)), None)
            },
            LoadEvent::Configured(settings) => run.configured(&settings),
            LoadEvent::Failed(error) => run.failed(error.as_str()),
            LoadEvent::Loaded { engine, now } => {
                run.stage = LoadStage::Over;
                let note = match &run.info {
                    Some(info) => Some(
                        self.engine_loaded(engine, run.model_id.as_str(), info, now),
                    ),
                    None => None,
                };
                (LoadStep::Done(Ok(())), note)
            },
        }
    }
}

/// Whether these are the states, steps and announcements of a run that loads a model and
/// meets `events`. Between two steps the manager may have changed: `before` and `after` are
/// its states before and after each step but the first, which does not touch it.
pub open spec fn loads<E, S, P>(
    model_id: Seq<char>,
    events: Seq<LoadEvent<E>>,
    runs: Seq<LoadState>,
    before: Seq<ManagerState<E, S, P>>,
    after: Seq<ManagerState<E, S, P>>,
    steps: Seq<LoadStep>,
    notes: Seq<Option<ModelStateEvent>>,
) -> bool
    decreases events.len(),
{
    let n = events.len() as int;
    &&& runs.len() == n + 1
    &&& before.len() == n
    &&& after.len() == n
    &&& steps.len() == n + 1
    &&& notes.len() == n + 1
    &&& if n == 0 {
        notes[0] is Some && load_begins(model_id, runs[0], steps[0], notes[0]->0)
    } else {
        &&& loads(
            model_id,
            events.drop_last(),
            runs.drop_last(),
            before.drop_last(),
            after.drop_last(),
            steps.drop_last(),
            notes.drop_last(),
        )
        &&& runs[n - 1].wf()
        &&& runs[n - 1].expects(events[n - 1])
        &&& load_step(
            runs[n - 1],
            before[n - 1],
            events[n - 1],
            runs[n],
            after[n - 1],
            steps[n],
            notes[n],
        )
    }
}

/// Where a step stands in the order of steps.
pub open spec fn load_rank(step: LoadStep) -> int {
    match step {
        LoadStep::Find => 0,
        LoadStep::Locate => 1,
        LoadStep::Configure => 2,
        LoadStep::Load { .. } | LoadStep::Connect(_) => 3,
        LoadStep::Done(_) => 4,
    }
}

/// Where a stage stands in the order of stages.
pub open spec fn stage_rank(stage: LoadStage) -> int {
    match stage {
        LoadStage::Finding => 0,
        LoadStage::Locating => 1,
        LoadStage::Configuring => 2,
        LoadStage::Loading => 3,
        LoadStage::Over => 4,
    }
}

/// The steps of a loading come in order, none of them twice: the model is looked up, its
/// files are found, the settings are read, the engine is made, and then all is over.
pub proof fn loading_goes_in_order<E, S, P>(
    model_id: Seq<char>,
    events: Seq<LoadEvent<E>>,
    runs: Seq<LoadState>,
    before: Seq<ManagerState<E, S, P>>,
    after: Seq<ManagerState<E, S, P>>,
    steps: Seq<LoadStep>,
    notes: Seq<Option<ModelStateEvent>>,
)
    requires
        loads(model_id, events, runs, before, after, steps, notes),
    ensures
        runs.last().model_id == model_id,
        stage_rank(runs.last().stage) == load_rank(steps.last()),
        forall|i: int, j: int|
            0 <= i < j < steps.len() ==> load_rank(#[trigger] steps[i]) < load_rank(
                #[trigger] steps[j],
            ),
    decreases events.len(),
{
    let n = events.len() as int;
    if n > 0 {
        loading_goes_in_order(
            model_id,
            events.drop_last(),
            runs.drop_last(),
            before.drop_last(),
            after.drop_last(),
            steps.drop_last(),
            notes.drop_last(),
        );
        assert(load_rank(steps[n - 1]) < load_rank(steps[n]));
        assert forall|i: int, j: int| 0 <= i < j < steps.len() implies load_rank(
            #[trigger] steps[i],
        ) < load_rank(#[trigger] steps[j]) by {
            if j < n {
                assert(load_rank(steps.drop_last()[i]) < load_rank(steps.drop_last()[j]));
            } else if i < n - 1 {
                assert(load_rank(steps.drop_last()[i]) < load_rank(steps.drop_last()[n - 1]));
            }
        }
    }
}

/// The start is announced first. A loading that succeeds has taken in its engine, under the
/// model's id, and announces its completion last; there is nothing to announce in between.
pub proof fn loading_announces_start_and_completion<E, S, P>(
    model_id: Seq<char>,
    events: Seq<LoadEvent<E>>,
    runs: Seq<LoadState>,
    before: Seq<ManagerState<E, S, P>>,
    after: Seq<ManagerState<E, S, P>>,
    steps: Seq<LoadStep>,
    notes: Seq<Option<ModelStateEvent>>,
)
    requires
        loads(model_id, events, runs, before, after, steps, notes),
    ensures
        notes[0] is Some,
        notes[0]->0.says("loading_started"@, Some(model_id), None, None),
        forall|i: int| 1 <= i < notes.len() - 1 ==> #[trigger] notes[i] is None,
        !(steps.last() is Done) && notes.len() > 1 ==> notes.last() is None,
        steps.last() == LoadStep::Done(Ok(())) ==> {
            &&& events.len() > 0
            &&& events.last() matches LoadEvent::Loaded { engine, now } && after.last()
                == before.last().loaded(engine, model_id, now)
            &&& notes.last() is Some
            &&& notes.last()->0.event_type@ == "loading_completed"@
            &&& opt_text(notes.last()->0.model_id) == Some(model_id)
        },
    decreases events.len(),
{
    let n = events.len() as int;
    if n > 0 {
        loading_announces_start_and_completion(
            model_id,
            events.drop_last(),
            runs.drop_last(),
            before.drop_last(),
            after.drop_last(),
            steps.drop_last(),
            notes.drop_last(),
        );
        loading_goes_in_order(
            model_id,
            events.drop_last(),
            runs.drop_last(),
            before.drop_last(),
            after.drop_last(),
            steps.drop_last(),
            notes.drop_last(),
        );
        assert(steps.drop_last().last() == steps[n - 1]);
        assert(!(steps[n - 1] is Done));
        assert forall|i: int| 1 <= i < notes.len() - 1 implies #[trigger] notes[i] is None by {
            assert(notes.drop_last()[i] == notes[i]);
        }
    }
}

/// A loading that fails leaves the manager as it was, and so does every step before the
/// engine is made.
pub proof fn failed_loading_changes_nothing<E, S, P>(
    model_id: Seq<char>,
    events: Seq<LoadEvent<E>>,
    runs: Seq<LoadState>,
    before: Seq<ManagerState<E, S, P>>,
    after: Seq<ManagerState<E, S, P>>,
    steps: Seq<LoadStep>,
    notes: Seq<Option<ModelStateEvent>>,
)
    requires
        loads(model_id, events, runs, before, after, steps, notes),
        steps.last() != LoadStep::Done(Ok(())),
    ensures
        forall|i: int| 0 <= i < events.len() ==> #[trigger] after[i] == before[i],
    decreases events.len(),
{
    let n = events.len() as int;
    if n > 0 {
        loading_goes_in_order(
            model_id,
            events.drop_last(),
            runs.drop_last(),
            before.drop_last(),
            after.drop_last(),
            steps.drop_last(),
            notes.drop_last(),
        );
        assert(steps.drop_last().last() == steps[n - 1]);
        failed_loading_changes_nothing(
            model_id,
            events.drop_last(),
            runs.drop_last(),
            before.drop_last(),
            after.drop_last(),
            steps.drop_last(),
            notes.drop_last(),
        );
        assert forall|i: int| 0 <= i < events.len() implies #[trigger] after[i] == before[i] by {
            if i < n - 1 {
                assert(after.drop_last()[i] == before.drop_last()[i]);
            }
        }
    }
}

/// What each outcome comes to, by the fields of what is handed in. A model that is not known
/// ends the loading unannounced, one that is not downloaded announced; files that are not
/// found end it unannounced with their error; a key that is missing or blank, and an engine
/// that cannot be loaded, end it announced. Whatever is announced then is a failure to load
/// this model, with the error that is returned. Otherwise the next step follows, and nothing
/// is announced until the engine is there.
pub proof fn loading_answers_each_outcome<E, S, P>(
    pre: LoadState,
    manager: ManagerState<E, S, P>,
    event: LoadEvent<E>,
    post: LoadState,
    manager_post: ManagerState<E, S, P>,
    step: LoadStep,
    note: Option<ModelStateEvent>,
)
    requires
        pre.wf(),
        pre.expects(event),
        load_step(pre, manager, event, post, manager_post, step, note),
    ensures
        post.model_id == pre.model_id,
        match event {
            LoadEvent::Found(info) => {
                &&& step is Locate <==> info is Some && info->0.is_downloaded
                &&& step is Locate ==> post.info == info && note is None
                &&& !(step is Locate) ==> step is Done && step->Done_0 is Err
                &&& info is None ==> note is None
                &&& info matches Some(info) ==> !info.is_downloaded ==> note is Some
            },
            LoadEvent::Located(Ok(_)) => step is Configure && note is None && post.info == pre.info,
            LoadEvent::Located(Err(error)) => step == LoadStep::Done(Err(error)) && note is None,
            LoadEvent::Configured(settings) => if pre.info->0.engine_type == EngineType::Doubao {
                match settings.doubao_credentials.api_key {
                    Some(key) => if blank(key@) {
                        step is Done && step->Done_0 is Err && note is Some
                    } else {
                        &&& note is None
                        &&& step matches LoadStep::Connect(client) && {
                            &&& client.api_key@ == key@
                            &&& settings.doubao_credentials.resource_id matches Some(id)
                                ==> !blank(id@) ==> client.resource_id@ == id@
                        }
                    },
                    None => step is Done && step->Done_0 is Err && note is Some,
                }
            } else {
                &&& note is None
                &&& step matches LoadStep::Load { engine, .. } && engine
                    == pre.info->0.engine_type
            },
            LoadEvent::Failed(error) => step is Done && step->Done_0 is Err && note is Some,
            LoadEvent::Loaded { engine, now } => {
                &&& step == LoadStep::Done(Ok(()))
                &&& manager_post.engine == Some(engine)
                &&& manager_post.current_model == Some(pre.model_id)
                &&& manager_post.last_activity == now
                &&& manager_post.is_loading == manager.is_loading
                &&& manager_post.doubao_stream == manager.doubao_stream
                &&& manager_post.streaming_paste == manager.streaming_paste
                &&& note matches Some(note) && {
                    &&& note.event_type@ == "loading_completed"@
                    &&& note.model_id matches Some(id) && id@ == pre.model_id
                    &&& note.model_name matches Some(name) && name@ == pre.info->0.name@
                    &&& note.error is None
                }
            },
        },
        !(event is Loaded) ==> manager_post == manager,
        step matches LoadStep::Done(Err(error)) ==> (note matches Some(note) ==> {
            &&& note.event_type@ == "loading_failed"@
            &&& note.model_id matches Some(id) && id@ == pre.model_id
            &&& note.error matches Some(told) && told@ == error@
        }),
{
    if let LoadEvent::Configured(settings) = event {
        let r = choose|r: Result<EngineRecipe, LoadFailure>| #[trigger]
            is_recipe(pre.model_id, pre.info->0, settings, r) && match r {
                Ok(recipe) => {
                    &&& load_goes_on(pre, LoadStage::Loading, post, note)
                    &&& match recipe {
                        EngineRecipe::Local { engine, weights } => step == (LoadStep::Load {
                            engine,
                            weights,
                        }),
                        EngineRecipe::Cloud(client) => step == LoadStep::Connect(client),
                    }
                },
                Err(failure) => load_fails(pre, failure, post, step, note),
            };
        assert(is_recipe(pre.model_id, pre.info->0, settings, r));
    }
}

/// A loading begins with looking the model up, and with an announcement that names the model by
/// its id and nothing else.
pub proof fn loading_begins_with_its_announcement(
    model_id: Seq<char>,
    post: LoadState,
    step: LoadStep,
    note: ModelStateEvent,
)
    requires
        load_begins(model_id, post, step, note),
    ensures
        step is Find,
        post.model_id == model_id,
        note.event_type@ == "loading_started"@,
        note.model_id matches Some(id) && id@ == model_id,
        note.model_name is None,
        note.error is None,
{
}

} // verus!
