//! Creating a named thread, with a goal where an objective is given.
use vstd::prelude::*;
use vstd::string::*;

use crate::command::{
    fail_under, finish, quietly, Action, ActionView, Event, EventView, StartParams,
    StartParamsView, Step, StepView,
};
use crate::error::{texts, CtlError, CtlErrorView};
use crate::goal::{first_goal_step, fits, law_first_goal_says_the_objective, set_first_goal};
use crate::json::{json_object, Json, JsonView};
use crate::registry::{
    law_registered_is_found, registered, EntryView, Registry, RegistryView, ThreadEntry,
};
use crate::text::{copy_opt, opt_text};

verus! {

/// How a thread is to be created.
pub struct StartOptions {
    pub name: String,
    pub cwd: Option<String>,
    pub model: String,
    pub sandbox: String,
    pub objective: Option<String>,
    pub budget: u64,
    /// Leaves the goal for later though an objective is given.
    pub no_objective_yet: bool,
}

/// What `StartOptions` say.
pub struct StartOptionsView {
    pub name: Seq<char>,
    pub cwd: Option<Seq<char>>,
    pub model: Seq<char>,
    pub sandbox: Seq<char>,
    pub objective: Option<Seq<char>>,
    pub budget: u64,
    pub no_objective_yet: bool,
}

impl View for StartOptions {
    type V = StartOptionsView;

    open spec fn view(&self) -> StartOptionsView {
        StartOptionsView {
            name: self.name@,
            cwd: opt_text(self.cwd),
            model: self.model@,
            sandbox: self.sandbox@,
            objective: opt_text(self.objective),
            budget: self.budget,
            no_objective_yet: self.no_objective_yet,
        }
    }
}

impl StartOptionsView {
    /// Whether the thread gets its goal at once.
    pub open spec fn runs_setup(self) -> bool {
        !self.no_objective_yet && self.objective is Some
    }
}

/// How far the creation has come. Once there is a thread, its id is kept.
pub enum StartPhase {
    Connecting,
    Creating,
    /// The first turn is being begun.
    Materializing(String),
    /// The first turn is under way.
    Awaiting(String),
    SettingGoal(String),
    Saving(String),
    Ended,
}

/// What a `StartPhase` says.
pub enum StartPhaseView {
    Connecting,
    Creating,
    Materializing(Seq<char>),
    Awaiting(Seq<char>),
    SettingGoal(Seq<char>),
    Saving(Seq<char>),
    Ended,
}

impl View for StartPhase {
    type V = StartPhaseView;

    open spec fn view(&self) -> StartPhaseView {
        match self {
            StartPhase::Connecting => StartPhaseView::Connecting,
            StartPhase::Creating => StartPhaseView::Creating,
            StartPhase::Materializing(id) => StartPhaseView::Materializing(id@),
            StartPhase::Awaiting(id) => StartPhaseView::Awaiting(id@),
            StartPhase::SettingGoal(id) => StartPhaseView::SettingGoal(id@),
            StartPhase::Saving(id) => StartPhaseView::Saving(id@),
            StartPhase::Ended => StartPhaseView::Ended,
        }
    }
}

/// The creation of a thread. The registry is as it was when the name was found free.
pub struct StartSession {
    pub options: StartOptions,
    pub registry: Registry,
    pub phase: StartPhase,
}

/// What a `StartSession` says.
pub struct StartSessionView {
    pub options: StartOptionsView,
    pub registry: RegistryView,
    pub phase: StartPhaseView,
}

impl View for StartSession {
    type V = StartSessionView;

    open spec fn view(&self) -> StartSessionView {
        StartSessionView {
            options: self.options@,
            registry: self.registry@,
            phase: self.phase@,
        }
    }
}

/// How the thread is created.
pub open spec fn start_params(options: StartOptionsView) -> StartParamsView {
    StartParamsView {
        cwd: options.cwd,
        model: options.model,
        sandbox: options.sandbox,
        more: JsonView::Object(seq![("skipGitRepoCheck"@, JsonView::Bool(true))]),
    }
}

/// What is registered of the thread.
pub open spec fn new_entry(options: StartOptionsView, id: Seq<char>, now: u64) -> EntryView {
    EntryView {
        thread_id: id,
        cwd: options.cwd,
        model: Some(options.model),
        sandbox: Some(options.sandbox),
        created_at_unix: now,
    }
}

/// The registry with the new thread.
pub open spec fn grown_registry(
    session: StartSessionView,
    id: Seq<char>,
    now: u64,
) -> RegistryView {
    registered(session.registry, session.options.name, new_entry(session.options, id, now))
}

/// What is told of the new thread.
pub open spec fn started_lines(options: StartOptionsView, id: Seq<char>) -> Seq<char> {
    let both = "name: "@ + options.name + "\nthread: "@ + id + "\n"@;
    if options.runs_setup() {
        both + "goal: active\n"@
    } else {
        both
    }
}

/// How the creation goes on once nothing but the registration is left.
pub open spec fn save_step(session: StartSessionView, id: Seq<char>, now: u64) -> (
    StartPhaseView,
    StepView,
) {
    (
        StartPhaseView::Saving(id),
        quietly(ActionView::SaveRegistry(grown_registry(session, id, now))),
    )
}

/// How the creation goes on after `event`, at the time `now`.
pub open spec fn start_next(session: StartSessionView, event: EventView, now: u64) -> (
    StartPhaseView,
    StepView,
) {
    let options = session.options;
    match (session.phase, event) {
        (StartPhaseView::Connecting, EventView::Done) => (
            StartPhaseView::Creating,
            quietly(ActionView::StartThread(start_params(options))),
        ),
        (StartPhaseView::Creating, EventView::Started(id)) => if options.runs_setup() {
            (
                StartPhaseView::Materializing(id),
                quietly(
                    ActionView::StartTurn {
                        thread_id: id,
                        text:
                            "Acknowledge with the single word READY. Do not run any commands or edit any files."@,
                    },
                ),
            )
        } else {
            save_step(session, id, now)
        },
        (StartPhaseView::Creating, _) => (
            StartPhaseView::Ended,
            fail_under(seq!["thread/start"@]),
        ),
        (StartPhaseView::Materializing(id), EventView::Started(_)) => (
            StartPhaseView::Awaiting(id),
            quietly(ActionView::AwaitTurn),
        ),
        (StartPhaseView::Materializing(_), _) => (
            StartPhaseView::Ended,
            fail_under(seq!["materialize turn/start"@]),
        ),
        (StartPhaseView::Awaiting(id), EventView::Done) => match options.objective {
            Some(objective) => (
                if fits(objective) {
                    StartPhaseView::SettingGoal(id)
                } else {
                    StartPhaseView::Ended
                },
                first_goal_step(id, objective, options.budget),
            ),
            None => (StartPhaseView::Ended, fail_under(Seq::empty())),
        },
        (StartPhaseView::Awaiting(_), EventView::TimedOut) => (
            StartPhaseView::Ended,
            quietly(ActionView::Fail(CtlErrorView::TimedOut)),
        ),
        (StartPhaseView::SettingGoal(id), EventView::Replied(_)) => save_step(
            session,
            id,
            now,
        ),
        (StartPhaseView::SettingGoal(_), _) => (
            StartPhaseView::Ended,
            fail_under(seq!["thread/goal/set"@]),
        ),
        (StartPhaseView::Saving(id), EventView::Done) => (
            StartPhaseView::Ended,
            finish(started_lines(options, id)),
        ),
        _ => (StartPhaseView::Ended, fail_under(Seq::empty())),
    }
}

/// The directory that a new thread works in: the one that is asked for, or else the current one.
pub fn thread_cwd(asked: Option<String>, current: Option<String>) -> (r: Option<String>)
    ensures
        r == if asked is Some {
            asked
        } else {
            current
        },
{
    match asked {
        Some(cwd) => Some(cwd),
        None => current,
    }
}

/// Begins to create a thread, unless its name is taken. The first thing to do is to connect.
pub fn cmd_start(registry: Registry, options: StartOptions) -> (r: Result<
    (StartSession, Step),
    CtlError,
>)
    ensures
        if registry@.threads.contains_key(options@.name) {
            r matches Err(e) && e@ == CtlErrorView::NameTaken(options@.name)
        } else {
            r matches Ok((session, step)) && session@ == (StartSessionView {
                options: options@,
                registry: registry@,
                phase: StartPhaseView::Connecting,
            }) && step@ == quietly(ActionView::Connect)
        },
{
    if registry.get(options.name.as_str()).is_some() {
        Err(CtlError::NameTaken(options.name))
    } else {
        let session = StartSession { options, registry, phase: StartPhase::Connecting };
        Ok((session, Step::quiet(Action::Connect)))
    }
}

impl StartSession {
    fn thread_params(&self) -> (r: StartParams)
        ensures
            r@ == start_params(self@.options),
    {
        let more: Json = json_object().with("skipGitRepoCheck", Json::Bool(true));
        assert(more@->Object_0 =~= start_params(self@.options).more->Object_0);
        StartParams {
            cwd: copy_opt(&self.options.cwd),
            model: self.options.model.clone(),
            sandbox: self.options.sandbox.clone(),
            more,
        }
    }

    fn runs_setup(&self) -> (r: bool)
        ensures
            r == self@.options.runs_setup(),
    {
        !self.options.no_objective_yet && self.options.objective.is_some()
    }

    fn save(&self, id: String, now: u64) -> (r: (StartPhase, Step))
        ensures
            (r.0@, r.1@) == save_step(self@, id@, now),
    {
        let entry = ThreadEntry {
            thread_id: id.clone(),
            cwd: copy_opt(&self.options.cwd),
            model: Some(self.options.model.clone()),
            sandbox: Some(self.options.sandbox.clone()),
            created_at_unix: now,
        };
        let grown: Registry = self.registry.copy().with(self.options.name.clone(), entry);
        (StartPhase::Saving(id), Step::quiet(Action::SaveRegistry(grown)))
    }

    fn report(&self, id: &str) -> (r: String)
        ensures
            r@ == started_lines(self@.options, id@),
    {
        let mut output: String = "name: ".to_owned();
        output.append(self.options.name.as_str());
        output.append("\nthread: ");
        output.append(id);
        output.append("\n");
        if self.runs_setup() {
            output.append("goal: active\n");
        }
        output
    }

    fn set_goal(&self, id: String) -> (r: (StartPhase, Step))
        ensures
            (r.0@, r.1@) == match self@.options.objective {
                Some(objective) => (
                    if fits(objective) {
                        StartPhaseView::SettingGoal(id@)
                    } else {
                        StartPhaseView::Ended
                    },
                    first_goal_step(id@, objective, self@.options.budget),
                ),
                None => (StartPhaseView::Ended, fail_under(Seq::empty())),
            },
    {
        match &self.options.objective {
            Some(objective) => {
                let step: Step = set_first_goal(
                    id.as_str(),
                    objective.as_str(),
                    self.options.budget,
                );
                match &step.action {
                    Action::Fail(_) => (StartPhase::Ended, step),
                    _ => (StartPhase::SettingGoal(id), step),
                }
            },
            None => (StartPhase::Ended, Step::fail_plainly()),
        }
    }

    fn next(&self, event: Event, now: u64) -> (r: (StartPhase, Step))
        ensures
            (r.0@, r.1@) == start_next(self@, event@, now),
    {
        match &self.phase {
            StartPhase::Connecting => match event {
                Event::Done => (
                    StartPhase::Creating,
                    Step::quiet(Action::StartThread(self.thread_params())),
                ),
                _ => (StartPhase::Ended, Step::fail_plainly()),
            },
            StartPhase::Creating => match event {
                Event::Started(id) => if self.runs_setup() {
                    let text: String =
                        "Acknowledge with the single word READY. Do not run any commands or edit any files.".to_owned();
                    let turn = Action::StartTurn { thread_id: id.clone(), text };
                    (StartPhase::Materializing(id), Step::quiet(turn))
                } else {
                    self.save(id, now)
                },
                _ => (StartPhase::Ended, Step::fail_at("thread/start")),
            },
            StartPhase::Materializing(id) => match event {
                Event::Started(_) => (
                    StartPhase::Awaiting(id.clone()),
                    Step::quiet(Action::AwaitTurn),
                ),
                _ => (StartPhase::Ended, Step::fail_at("materialize turn/start")),
            },
            StartPhase::Awaiting(id) => match event {
                Event::Done => self.set_goal(id.clone()),
                Event::TimedOut => (
                    StartPhase::Ended,
                    Step::quiet(Action::Fail(CtlError::TimedOut)),
                ),
                _ => (StartPhase::Ended, Step::fail_plainly()),
            },
            StartPhase::SettingGoal(id) => match event {
                Event::Replied(_) => self.save(id.clone(), now),
                _ => (StartPhase::Ended, Step::fail_at("thread/goal/set")),
            },
            StartPhase::Saving(id) => match event {
                Event::Done => (StartPhase::Ended, Step::finish(self.report(id.as_str()))),
                _ => (StartPhase::Ended, Step::fail_plainly()),
            },
            StartPhase::Ended => (StartPhase::Ended, Step::fail_plainly()),
        }
    }

    /// Goes on after `event`, at the time `now`.
    pub fn step(self, event: Event, now: u64) -> (r: (StartSession, Step))
        ensures
            (r.0@.phase, r.1@) == start_next(self@, event@, now),
            r.0@ == (StartSessionView { phase: r.0@.phase, ..self@ }),
    {
        let (phase, step) = self.next(event, now);
        (StartSession { phase, ..self }, step)
    }
}

/// The creation after these events, each with the time at which it came.
pub open spec fn start_after(
    session: StartSessionView,
    events: Seq<(EventView, u64)>,
) -> StartSessionView
    decreases events.len(),
{
    if events.len() == 0 {
        session
    } else {
        let before = start_after(session, events.drop_last());
        StartSessionView { phase: start_next(before, events.last().0, events.last().1).0, ..before }
    }
}

/// What the last of these events led to.
pub open spec fn start_last(session: StartSessionView, events: Seq<(EventView, u64)>) -> StepView {
    start_next(
        start_after(session, events.drop_last()),
        events.last().0,
        events.last().1,
    ).1
}

/// Whether a thread with this id was created first, and then, where it gets its goal at once, its
/// first turn was completed and its goal acknowledged.
pub open spec fn set_up(
    options: StartOptionsView,
    events: Seq<(EventView, u64)>,
    id: Seq<char>,
) -> bool {
    &&& events.len() == if options.runs_setup() {
        5int
    } else {
        2
    }
    &&& events[0].0 is Done
    &&& events[1].0 == EventView::Started(id)
    &&& options.runs_setup() ==> events[2].0 is Started && events[3].0 is Done
        && events[4].0 is Replied && fits(options.objective->0)
}

/// Once the app-server has given the new thread its id, what is sent goes to that thread.
pub proof fn law_setup_keeps_to_the_new_thread(
    session: StartSessionView,
    event: EventView,
    now: u64,
)
    ensures
        match start_next(session, event, now).1.action {
            ActionView::StartTurn { thread_id, .. } => session.phase is Creating && event
                == EventView::Started(thread_id),
            ActionView::Request { params, .. } => session.phase matches StartPhaseView::Awaiting(
                id,
            ) && params.text_at("threadId"@) == Some(id),
            ActionView::Resume(_) | ActionView::Query { .. } => false,
            _ => true,
        },
        match start_next(session, event, now).0 {
            StartPhaseView::Materializing(id) => event == EventView::Started(id),
            StartPhaseView::Awaiting(id) => session.phase == StartPhaseView::Materializing(id),
            StartPhaseView::SettingGoal(id) => session.phase == StartPhaseView::Awaiting(id),
            _ => true,
        },
{
    if session.options.objective is Some && session.phase is Awaiting {
        law_first_goal_says_the_objective(
            session.phase->Awaiting_0,
            session.options.objective->0,
            session.options.budget,
        );
    }
}

/// A creation is over exactly when it says so, and a creation that is over does nothing more.
pub proof fn law_start_stays_ended(session: StartSessionView, event: EventView, now: u64)
    ensures
        start_next(session, event, now).0 is Ended <==> (start_next(
            session,
            event,
            now,
        ).1.action is Finish || start_next(session, event, now).1.action is Fail),
        session.phase is Ended ==> start_next(session, event, now).0 is Ended,
{
}

/// Each phase tells which events led to it.
proof fn lemma_phase_tells(session: StartSessionView, events: Seq<(EventView, u64)>)
    requires
        session.phase is Connecting,
    ensures
        start_after(session, events).options == session.options,
        start_after(session, events).registry == session.registry,
        match start_after(session, events).phase {
            StartPhaseView::Connecting => events.len() == 0,
            StartPhaseView::Creating => events.len() == 1 && events[0].0 is Done,
            StartPhaseView::Materializing(id) => events.len() == 2 && events[0].0 is Done
                && events[1].0 == EventView::Started(id) && session.options.runs_setup(),
            StartPhaseView::Awaiting(id) => events.len() == 3 && events[0].0 is Done
                && events[1].0 == EventView::Started(id) && events[2].0 is Started
                && session.options.runs_setup(),
            StartPhaseView::SettingGoal(id) => events.len() == 4 && events[0].0 is Done
                && events[1].0 == EventView::Started(id) && events[2].0 is Started
                && events[3].0 is Done && session.options.runs_setup() && fits(
                session.options.objective->0,
            ),
            StartPhaseView::Saving(id) => set_up(session.options, events, id),
            StartPhaseView::Ended => true,
        },
    decreases events.len(),
{
    if events.len() > 0 {
        let init = events.drop_last();
        lemma_phase_tells(session, init);
        assert(forall|i: int| 0 <= i < init.len() ==> init[i] == events[i]);
        assert(events.last() == events[init.len() as int]);
    }
}

/// A thread is registered only once it exists and, where it gets its goal at once, only after
/// its first turn was completed and its goal acknowledged; a creation that fails before that
/// leaves the registry as it was. What is registered is the new thread, under its name.
pub proof fn law_registered_only_when_set_up(
    session: StartSessionView,
    events: Seq<(EventView, u64)>,
    saved: RegistryView,
)
    requires
        session.phase is Connecting,
        events.len() > 0,
        start_last(session, events).action == ActionView::SaveRegistry(saved),
    ensures
        exists|id: Seq<char>| #[trigger]
            set_up(session.options, events, id) && saved == grown_registry(
                session,
                id,
                events.last().1,
            ),
{
    let init = events.drop_last();
    lemma_phase_tells(session, init);
    lemma_phase_tells(session, events);
    assert(events.last() == events[init.len() as int]);
    assert(start_after(session, events).phase is Saving);
    let id = start_after(session, events).phase->Saving_0;
    assert(set_up(session.options, events, id));
}

/// A creation succeeds only after the thread was registered: the event before the last led to
/// that, and the last says that it was done. The registry then finds the thread under its name,
/// and its id is the one that is told.
pub proof fn law_started_thread_is_found(session: StartSessionView, events: Seq<(EventView, u64)>)
    requires
        session.phase is Connecting,
        events.len() > 0,
        start_last(session, events).action is Finish,
    ensures
        events.len() > 1,
        start_last(session, events.drop_last()).action matches ActionView::SaveRegistry(saved)
            && saved.threads.contains_key(session.options.name) && start_last(session, events)
            == finish(
            started_lines(session.options, saved.threads[session.options.name].thread_id),
        ),
{
    let init = events.drop_last();
    lemma_phase_tells(session, init);
    assert(start_after(session, init).phase is Saving);
    let id = start_after(session, init).phase->Saving_0;
    lemma_phase_tells(session, init.drop_last());
    let now = init.last().1;
    assert(start_last(session, init).action == ActionView::SaveRegistry(
        grown_registry(session, id, now),
    ));
    law_registered_is_found(
        session.registry,
        session.options.name,
        new_entry(session.options, id, now),
        session.options.name,
    );
}

/// A thread is created as it was asked for: the request that follows the connection carries the
/// directory, the model and the sandbox of the options, and skips the check for a repository.
pub proof fn law_created_as_asked(
    session: StartSession,
    event: Event,
    now: u64,
    r: (StartSession, Step),
)
    requires
        call_ensures(StartSession::step, (session, event, now), r),
        session.phase is Connecting,
        event is Done,
    ensures
        r.0.phase is Creating,
        r.1.output@ == ""@,
        r.1.action matches Action::StartThread(params) && opt_text(params.cwd) == opt_text(
            session.options.cwd,
        ) && params.model@ == session.options.model@ && params.sandbox@
            == session.options.sandbox@ && params.more@ == JsonView::Object(
            seq![("skipGitRepoCheck"@, JsonView::Bool(true))],
        ),
{
}

/// A thread is registered as it was asked for: under the name, with the id that it was given,
/// with the directory, the model and the sandbox of the options and with the time; every other
/// entry stays as it was.
pub proof fn law_registered_as_asked(
    session: StartSession,
    event: Event,
    now: u64,
    r: (StartSession, Step),
    other: Seq<char>,
)
    requires
        call_ensures(StartSession::step, (session, event, now), r),
        r.1.action is SaveRegistry,
    ensures
        r.0.phase is Saving,
        r.1.output@ == ""@,
        ({
            let saved = r.1.action->SaveRegistry_0@;
            let name = session.options.name@;
            &&& saved.daemon_port == session.registry@.daemon_port
            &&& saved.threads.contains_key(name)
            &&& saved.threads[name].thread_id == r.0.phase->Saving_0@
            &&& saved.threads[name].cwd == opt_text(session.options.cwd)
            &&& saved.threads[name].model == Some(session.options.model@)
            &&& saved.threads[name].sandbox == Some(session.options.sandbox@)
            &&& saved.threads[name].created_at_unix == now
            &&& other != name ==> (saved.threads.contains_key(other)
                <==> session.registry@.threads.contains_key(other))
            &&& other != name && saved.threads.contains_key(other) ==> saved.threads[other]
                == session.registry@.threads[other]
        }),
        match session.phase {
            StartPhase::Creating => event matches Event::Started(id) && id@
                == r.0.phase->Saving_0@,
            StartPhase::SettingGoal(id) => event is Replied && id@ == r.0.phase->Saving_0@,
            _ => false,
        },
{
}

/// A creation goes on with the options and the registry that it began with.
pub proof fn law_creation_keeps_its_options(
    session: StartSession,
    event: Event,
    now: u64,
    r: (StartSession, Step),
)
    requires
        call_ensures(StartSession::step, (session, event, now), r),
    ensures
        r.0.options.name@ == session.options.name@,
        opt_text(r.0.options.cwd) == opt_text(session.options.cwd),
        r.0.options.model@ == session.options.model@,
        r.0.options.sandbox@ == session.options.sandbox@,
        opt_text(r.0.options.objective) == opt_text(session.options.objective),
        r.0.options.budget == session.options.budget,
        r.0.options.no_objective_yet == session.options.no_objective_yet,
        r.0.registry@ == session.registry@,
{
    assert(r.0@.options == session@.options);
}

/// A thread that was created runs a first turn exactly where an objective is given and not put
/// off; else it is registered at once.
pub proof fn law_objective_takes_a_first_turn(
    session: StartSession,
    event: Event,
    now: u64,
    r: (StartSession, Step),
)
    requires
        call_ensures(StartSession::step, (session, event, now), r),
        session.phase is Creating,
        event is Started,
    ensures
        session.options.objective is Some && !session.options.no_objective_yet ==> r.1.output@
            == ""@ && (r.0.phase matches StartPhase::Materializing(id) && id@
            == event->Started_0@) && (r.1.action matches Action::StartTurn { thread_id, text }
            && thread_id@ == event->Started_0@ && text@
            == "Acknowledge with the single word READY. Do not run any commands or edit any files."@),
        session.options.objective is None || session.options.no_objective_yet ==> (r.0.phase
            matches StartPhase::Saving(id) && id@ == event->Started_0@) && r.1.action
            is SaveRegistry,
{
}

/// The first turn is awaited, and then the goal is set on the new thread, with the objective and
/// the budget of the options, unless the objective has more than four thousand characters.
pub proof fn law_goal_follows_the_first_turn(
    session: StartSession,
    event: Event,
    now: u64,
    r: (StartSession, Step),
)
    requires
        call_ensures(StartSession::step, (session, event, now), r),
    ensures
        session.phase is Materializing && event is Started ==> r.1.action is AwaitTurn
            && r.1.output@ == ""@ && (r.0.phase matches StartPhase::Awaiting(id) && id@
            == session.phase->Materializing_0@),
        session.phase is Awaiting && event is Done && (session.options.objective matches Some(
            objective,
        ) && objective@.len() <= 4000) ==> r.1.output@ == ""@ && (r.0.phase
            matches StartPhase::SettingGoal(id) && id@ == session.phase->Awaiting_0@) && (
        r.1.action matches Action::Request { method, params } && method@ == "thread/goal/set"@
            && params@ == JsonView::Object(
            seq![
                ("threadId"@, JsonView::Text(session.phase->Awaiting_0@)),
                ("objective"@, JsonView::Text(session.options.objective->0@)),
                ("tokenBudget"@, JsonView::UInt(session.options.budget)),
            ],
        )),
        session.phase is Awaiting && event is Done && (session.options.objective matches Some(
            objective,
        ) && objective@.len() > 4000) ==> r.0.phase is Ended && (r.1.action matches Action::Fail(
            CtlError::StartObjectiveTooLong(n),
        ) && n == session.options.objective->0@.len()),
        session.phase is Awaiting && event is TimedOut ==> r.0.phase is Ended && (
        r.1.action matches Action::Fail(e) && e is TimedOut),
        session.phase is SettingGoal && event is Replied ==> r.1.action is SaveRegistry,
{
}

/// Once the thread is registered, its name and its id are told, and that its goal is active
/// exactly where it was given one.
pub proof fn law_creation_is_told(
    session: StartSession,
    event: Event,
    now: u64,
    r: (StartSession, Step),
)
    requires
        call_ensures(StartSession::step, (session, event, now), r),
        session.phase is Saving,
        event is Done,
    ensures
        r.0.phase is Ended,
        r.1.action is Finish,
        r.1.output@ == "name: "@ + session.options.name@ + "\nthread: "@
            + session.phase->Saving_0@ + "\n"@ + (if session.options.objective is Some
            && !session.options.no_objective_yet {
            "goal: active\n"@
        } else {
            Seq::empty()
        }),
{
    let both = "name: "@ + session.options.name@ + "\nthread: "@ + session.phase->Saving_0@
        + "\n"@;
    assert(both + Seq::empty() =~= both);
}

/// A creation that fails names the step that failed.
pub proof fn law_failed_creation_names_its_step(
    session: StartSession,
    now: u64,
    r: (StartSession, Step),
)
    requires
        call_ensures(StartSession::step, (session, Event::Failed, now), r),
    ensures
        r.0.phase is Ended,
        r.1.output@ == ""@,
        r.1.action matches Action::Fail(CtlError::Outside(contexts)) && match session.phase {
            StartPhase::Creating => contexts@.len() == 1 && contexts@[0]@ == "thread/start"@,
            StartPhase::Materializing(_) => contexts@.len() == 1 && contexts@[0]@
                == "materialize turn/start"@,
            StartPhase::SettingGoal(_) => contexts@.len() == 1 && contexts@[0]@
                == "thread/goal/set"@,
            _ => contexts@.len() == 0,
        },
{
    match r.1.action {
        Action::Fail(CtlError::Outside(contexts)) => {
            let told = texts(contexts@);
            assert(told.len() == contexts@.len());
            if told.len() > 0 {
                assert(told[0] == contexts@[0]@);
            }
        },
        _ => {},
    }
}

/// A creation is refused exactly where its name is taken; otherwise it begins with the options
/// and the registry that it was given, by connecting.
pub proof fn law_only_a_taken_name_is_refused(
    registry: Registry,
    options: StartOptions,
    r: Result<(StartSession, Step), CtlError>,
)
    requires
        call_ensures(cmd_start, (registry, options), r),
    ensures
        match r {
            Ok((session, step)) => {
                &&& !registry@.threads.contains_key(options.name@)
                &&& session.registry@ == registry@
                &&& session.options.name@ == options.name@
                &&& opt_text(session.options.cwd) == opt_text(options.cwd)
                &&& session.options.model@ == options.model@
                &&& session.options.sandbox@ == options.sandbox@
                &&& opt_text(session.options.objective) == opt_text(options.objective)
                &&& session.options.budget == options.budget
                &&& session.options.no_objective_yet == options.no_objective_yet
                &&& session.phase is Connecting
                &&& step.action is Connect
                &&& step.output@ == ""@
            },
            Err(CtlError::NameTaken(name)) => registry@.threads.contains_key(options.name@)
                && name@ == options.name@,
            Err(_) => false,
        },
{
    match r {
        Ok((session, step)) => {
            assert(session@.options == options@);
        },
        Err(_) => {},
    }
}

/// A thread works in the directory that is asked for, or else in the current one.
pub proof fn law_asked_directory_comes_first(
    asked: Option<String>,
    current: Option<String>,
    r: Option<String>,
)
    requires
        call_ensures(thread_cwd, (asked, current), r),
    ensures
        asked is Some ==> r == asked,
        asked is None ==> r == current,
{
}

} // verus!
