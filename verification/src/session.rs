//! Commands on a registered thread: each connects, takes the thread up again, and acts on it.
use vstd::prelude::*;
use vstd::string::*;

use crate::command::{
    ask, fail_under, finish, params_for, quietly, resume_thread, resume_view, thread_params,
    Action, ActionView, Event, EventView, ResumeView, Step, StepView,
};
use crate::error::{texts, CtlError, CtlErrorView};
use crate::goal::{
    change_goal, goal_method, goal_step, law_goal_params_say_the_change, GoalChange,
    GoalChangeView,
};
use crate::json::{first_member, json_member, pretty, pretty_json, value_get, Json, JsonView};
use crate::notice::{incoming_line, incoming_output, stream_output, IncomingView};
use crate::registry::{lookup_thread, EntryView, Registry, RegistryView, ThreadEntry};
use crate::start::{new_entry, start_params, StartOptionsView};
use crate::text::opt_text;
use crate::turns::{
    active_turn, active_turn_id, interrupt_params, interrupt_view, law_active_turn_is_latest,
    read_params, steer_params, steer_view, thread_read_params,
};

verus! {

/// What is to be done with a thread.
pub enum ThreadCommand {
    /// Begin a turn with this message.
    Say(String),
    /// Add this message to the turn in flight.
    Steer(String),
    /// Interrupt the turn in flight.
    Interrupt,
    /// Change the goal.
    Goal(GoalChange),
    /// Tell of the thread and its goal.
    Status,
    /// Show what happens on the thread, with or without the pieces of the agent's messages.
    Tail { no_deltas: bool },
}

/// What a `ThreadCommand` says.
pub enum ThreadCommandView {
    Say(Seq<char>),
    Steer(Seq<char>),
    Interrupt,
    Goal(GoalChangeView),
    Status,
    Tail { no_deltas: bool },
}

impl View for ThreadCommand {
    type V = ThreadCommandView;

    open spec fn view(&self) -> ThreadCommandView {
        match self {
            ThreadCommand::Say(message) => ThreadCommandView::Say(message@),
            ThreadCommand::Steer(message) => ThreadCommandView::Steer(message@),
            ThreadCommand::Interrupt => ThreadCommandView::Interrupt,
            ThreadCommand::Goal(change) => ThreadCommandView::Goal(change@),
            ThreadCommand::Status => ThreadCommandView::Status,
            ThreadCommand::Tail { no_deltas } => ThreadCommandView::Tail {
                no_deltas: *no_deltas,
            },
        }
    }
}

/// How far a command has come.
#[derive(Clone, Copy, PartialEq, Eq, Structural)]
pub enum ThreadPhase {
    Connecting,
    Resuming,
    /// Looking for the turn in flight.
    ReadingTurns,
    Acting,
    Ended,
}

/// A command on the thread that is registered under a name.
pub struct ThreadSession {
    pub name: String,
    pub entry: ThreadEntry,
    pub command: ThreadCommand,
    pub phase: ThreadPhase,
}

/// What a `ThreadSession` says.
pub struct SessionView {
    pub name: Seq<char>,
    pub entry: EntryView,
    pub command: ThreadCommandView,
    pub phase: ThreadPhase,
}

impl View for ThreadSession {
    type V = SessionView;

    open spec fn view(&self) -> SessionView {
        SessionView {
            name: self.name@,
            entry: self.entry@,
            command: self.command@,
            phase: self.phase,
        }
    }
}

/// How a command ends that prints a reply as it was laid out, if it could be.
pub open spec fn print_lines(lines: Option<Seq<char>>) -> StepView {
    match lines {
        Some(all) => finish(all + "\n"@),
        None => quietly(ActionView::Fail(CtlErrorView::BadReply)),
    }
}

/// The lines that tell of a thread itself.
pub open spec fn thread_lines(name: Seq<char>, entry: EntryView) -> Seq<char> {
    let both = "name: "@ + name + "\nthread: "@ + entry.thread_id + "\n"@;
    match entry.cwd {
        Some(cwd) => both + "cwd: "@ + cwd + "\n"@,
        None => both,
    }
}

/// What is told of a thread, where `goal` is its goal as it was laid out, if it has one and if
/// that could be done.
pub open spec fn status_step(
    name: Seq<char>,
    entry: EntryView,
    goal: Option<Option<Seq<char>>>,
) -> StepView {
    match goal {
        None => finish(thread_lines(name, entry)),
        Some(Some(lines)) => finish(thread_lines(name, entry) + "goal: "@ + lines + "\n"@),
        Some(None) => StepView {
            output: thread_lines(name, entry),
            action: ActionView::Fail(CtlErrorView::BadReply),
        },
    }
}

/// The goal in a reply that came as the document `text`, as it is laid out.
pub open spec fn goal_lines(text: Seq<char>) -> Option<Option<Seq<char>>> {
    match json_member(text, "goal"@) {
        Some(goal) => Some(pretty_json(goal)),
        None => None,
    }
}

/// What a command does once its thread is taken up again.
pub open spec fn after_resume(entry: EntryView, command: ThreadCommandView) -> (
    ThreadPhase,
    StepView,
) {
    let id = entry.thread_id;
    match command {
        ThreadCommandView::Say(message) => (
            ThreadPhase::Acting,
            quietly(ActionView::StartTurn { thread_id: id, text: message }),
        ),
        ThreadCommandView::Steer(_) | ThreadCommandView::Interrupt => (
            ThreadPhase::ReadingTurns,
            quietly(ActionView::Query { method: "thread/read"@, params: read_params(id) }),
        ),
        ThreadCommandView::Goal(change) => (
            if goal_step(id, change).action is Fail {
                ThreadPhase::Ended
            } else {
                ThreadPhase::Acting
            },
            goal_step(id, change),
        ),
        ThreadCommandView::Status => (
            ThreadPhase::Acting,
            ask("thread/goal/get"@, thread_params(id)),
        ),
        ThreadCommandView::Tail { .. } => (
            ThreadPhase::Acting,
            StepView {
                output: "(tailing "@ + id + "; ctrl-c to exit)\n"@,
                action: ActionView::NextEvent,
            },
        ),
    }
}

/// What a command does once it knows which turn is in flight.
pub open spec fn after_reading(
    entry: EntryView,
    command: ThreadCommandView,
    turn: Option<Seq<char>>,
) -> (ThreadPhase, StepView) {
    let id = entry.thread_id;
    match (command, turn) {
        (ThreadCommandView::Steer(message), Some(active)) => (
            ThreadPhase::Acting,
            ask("turn/steer"@, steer_view(id, active, message)),
        ),
        (ThreadCommandView::Steer(_), None) => (
            ThreadPhase::Ended,
            quietly(ActionView::Fail(CtlErrorView::NothingToSteer(id))),
        ),
        (_, Some(active)) => (
            ThreadPhase::Acting,
            ask("turn/interrupt"@, interrupt_view(id, active)),
        ),
        (_, None) => (
            ThreadPhase::Ended,
            quietly(ActionView::Fail(CtlErrorView::NothingToInterrupt(id))),
        ),
    }
}

/// What a command does after it has acted.
pub open spec fn after_acting(session: SessionView, event: EventView) -> (ThreadPhase, StepView) {
    match (session.command, event) {
        (ThreadCommandView::Say(_), EventView::Started(turn)) => (
            ThreadPhase::Ended,
            finish("turn: "@ + turn + "\n"@),
        ),
        (ThreadCommandView::Say(_), _) => (ThreadPhase::Ended, fail_under(seq!["turn/start"@])),
        (ThreadCommandView::Status, EventView::Replied(text)) => (
            ThreadPhase::Ended,
            status_step(session.name, session.entry, goal_lines(text)),
        ),
        (ThreadCommandView::Status, _) => (
            ThreadPhase::Ended,
            status_step(session.name, session.entry, None),
        ),
        (ThreadCommandView::Tail { no_deltas }, EventView::Received(incoming)) => (
            ThreadPhase::Acting,
            StepView {
                output: incoming_output(incoming, no_deltas),
                action: ActionView::NextEvent,
            },
        ),
        (ThreadCommandView::Tail { .. }, EventView::Interrupted) => (
            ThreadPhase::Ended,
            finish("\n(interrupted)\n"@),
        ),
        (ThreadCommandView::Tail { .. }, _) => (ThreadPhase::Ended, fail_under(Seq::empty())),
        (_, EventView::Replied(text)) => (
            ThreadPhase::Ended,
            print_lines(pretty_json(text)),
        ),
        (ThreadCommandView::Steer(_), _) => (ThreadPhase::Ended, fail_under(seq!["turn/steer"@])),
        (ThreadCommandView::Interrupt, _) => (
            ThreadPhase::Ended,
            fail_under(seq!["turn/interrupt"@]),
        ),
        (ThreadCommandView::Goal(change), _) => (
            ThreadPhase::Ended,
            fail_under(seq![goal_method(change)]),
        ),
    }
}

/// How a command goes on after `event`.
pub open spec fn session_next(session: SessionView, event: EventView) -> (ThreadPhase, StepView) {
    match session.phase {
        ThreadPhase::Connecting => match event {
            EventView::Done => (
                ThreadPhase::Resuming,
                quietly(ActionView::Resume(resume_view(session.entry))),
            ),
            _ => (ThreadPhase::Ended, fail_under(Seq::empty())),
        },
        ThreadPhase::Resuming => match event {
            EventView::Done => after_resume(session.entry, session.command),
            _ => (
                ThreadPhase::Ended,
                fail_under(seq!["thread/resume "@ + session.entry.thread_id]),
            ),
        },
        ThreadPhase::ReadingTurns => match event {
            EventView::Answered(body) => after_reading(
                session.entry,
                session.command,
                active_turn(body),
            ),
            _ => (
                ThreadPhase::Ended,
                fail_under(
                    seq![
                        "thread/read"@,
                        if session.command is Steer {
                            "look up active turn for steer"@
                        } else {
                            "look up active turn for interrupt"@
                        },
                    ],
                ),
            ),
        },
        ThreadPhase::Acting => after_acting(session, event),
        ThreadPhase::Ended => (ThreadPhase::Ended, fail_under(Seq::empty())),
    }
}

/// Begins a command on the thread that is registered under `name`.
fn open_session(registry: &Registry, name: String, command: ThreadCommand) -> (r: Result<
    (ThreadSession, Step),
    CtlError,
>)
    ensures
        opened(registry@, name@, command@, r),
{
    match lookup_thread(registry, name.as_str()) {
        Ok(entry) => {
            let session = ThreadSession { name, entry, command, phase: ThreadPhase::Connecting };
            Ok((session, Step::quiet(Action::Connect)))
        },
        Err(e) => Err(e),
    }
}

/// How a command on the thread under `name` begins: with the thread's entry, and with connecting
/// as the first thing to do; or not at all where there is no such thread.
pub open spec fn opened(
    registry: RegistryView,
    name: Seq<char>,
    command: ThreadCommandView,
    r: Result<(ThreadSession, Step), CtlError>,
) -> bool {
    if registry.threads.contains_key(name) {
        r matches Ok((session, step)) && session@ == (SessionView {
            name,
            entry: registry.threads[name],
            command,
            phase: ThreadPhase::Connecting,
        }) && step@ == quietly(ActionView::Connect)
    } else {
        r matches Err(e) && e@ == CtlErrorView::NoThread(name)
    }
}

/// Begins to say `message` on a thread, as a turn of its own.
pub fn cmd_say(registry: &Registry, name: String, message: String) -> (r: Result<
    (ThreadSession, Step),
    CtlError,
>)
    ensures
        opened(registry@, name@, ThreadCommandView::Say(message@), r),
{
    open_session(registry, name, ThreadCommand::Say(message))
}

/// Begins to add `message` to the turn in flight on a thread.
pub fn cmd_steer(registry: &Registry, name: String, message: String) -> (r: Result<
    (ThreadSession, Step),
    CtlError,
>)
    ensures
        opened(registry@, name@, ThreadCommandView::Steer(message@), r),
{
    open_session(registry, name, ThreadCommand::Steer(message))
}

/// Begins to interrupt the turn in flight on a thread.
pub fn cmd_interrupt(registry: &Registry, name: String) -> (r: Result<
    (ThreadSession, Step),
    CtlError,
>)
    ensures
        opened(registry@, name@, ThreadCommandView::Interrupt, r),
{
    open_session(registry, name, ThreadCommand::Interrupt)
}

/// Begins to change the goal of a thread.
pub fn cmd_goal(registry: &Registry, name: String, change: GoalChange) -> (r: Result<
    (ThreadSession, Step),
    CtlError,
>)
    ensures
        opened(registry@, name@, ThreadCommandView::Goal(change@), r),
{
    open_session(registry, name, ThreadCommand::Goal(change))
}

/// Begins to tell of a thread.
pub fn cmd_status(registry: &Registry, name: String) -> (r: Result<
    (ThreadSession, Step),
    CtlError,
>)
    ensures
        opened(registry@, name@, ThreadCommandView::Status, r),
{
    open_session(registry, name, ThreadCommand::Status)
}

/// Begins to show what happens on a thread.
pub fn cmd_tail(registry: &Registry, name: String, no_deltas: bool) -> (r: Result<
    (ThreadSession, Step),
    CtlError,
>)
    ensures
        opened(registry@, name@, ThreadCommandView::Tail { no_deltas }, r),
{
    open_session(registry, name, ThreadCommand::Tail { no_deltas })
}

/// How a command ends that prints a reply as it was laid out, if it could be.
pub fn print_reply(lines: Option<String>) -> (r: Step)
    ensures
        r@ == print_lines(opt_text(lines)),
{
    match lines {
        Some(all) => {
            let mut output: String = all;
            output.append("\n");
            Step::finish(output)
        },
        None => Step::quiet(Action::Fail(CtlError::BadReply)),
    }
}

/// What is told of a thread, where `goal` is its goal as it was laid out, if it has one and if
/// that could be done.
pub fn print_status(name: &str, entry: &ThreadEntry, goal: Option<Option<String>>) -> (r: Step)
    ensures
        r@ == status_step(
            name@,
            entry@,
            match goal {
                Some(lines) => Some(opt_text(lines)),
                None => None,
            },
        ),
{
    let mut output: String = "name: ".to_owned();
    output.append(name);
    output.append("\nthread: ");
    output.append(entry.thread_id.as_str());
    output.append("\n");
    match &entry.cwd {
        Some(cwd) => {
            output.append("cwd: ");
            output.append(cwd.as_str());
            output.append("\n");
        },
        None => {},
    }
    assert(output@ =~= thread_lines(name@, entry@));
    match goal {
        None => Step::finish(output),
        Some(Some(lines)) => {
            output.append("goal: ");
            output.append(lines.as_str());
            output.append("\n");
            Step::finish(output)
        },
        Some(None) => Step { output, action: Action::Fail(CtlError::BadReply) },
    }
}

/// What a command does once its thread is taken up again.
pub fn act_on_thread(entry: &ThreadEntry, command: &ThreadCommand) -> (r: (ThreadPhase, Step))
    ensures
        (r.0, r.1@) == after_resume(entry@, command@),
{
    let id: &str = entry.thread_id.as_str();
    match command {
        ThreadCommand::Say(message) => (
            ThreadPhase::Acting,
            Step::quiet(
                Action::StartTurn { thread_id: id.to_owned(), text: message.clone() },
            ),
        ),
        ThreadCommand::Steer(_) | ThreadCommand::Interrupt => (
            ThreadPhase::ReadingTurns,
            Step::quiet(
                Action::Query { method: "thread/read".to_owned(), params: thread_read_params(id) },
            ),
        ),
        ThreadCommand::Goal(change) => {
            let step: Step = change_goal(id, change);
            let phase = match &step.action {
                Action::Fail(_) => ThreadPhase::Ended,
                _ => ThreadPhase::Acting,
            };
            (phase, step)
        },
        ThreadCommand::Status => (
            ThreadPhase::Acting,
            Step::ask("thread/goal/get", params_for(id)),
        ),
        ThreadCommand::Tail { .. } => {
            let mut output: String = "(tailing ".to_owned();
            output.append(id);
            output.append("; ctrl-c to exit)\n");
            (ThreadPhase::Acting, Step { output, action: Action::NextEvent })
        },
    }
}

/// What a command does once it knows which turn is in flight.
pub fn act_on_turn(entry: &ThreadEntry, command: &ThreadCommand, turn: Option<String>) -> (r: (
    ThreadPhase,
    Step,
))
    ensures
        (r.0, r.1@) == after_reading(entry@, command@, opt_text(turn)),
{
    let id: &str = entry.thread_id.as_str();
    match command {
        ThreadCommand::Steer(message) => match turn {
            Some(active) => (
                ThreadPhase::Acting,
                Step::ask("turn/steer", steer_params(id, active.as_str(), message.as_str())),
            ),
            None => (
                ThreadPhase::Ended,
                Step::quiet(Action::Fail(CtlError::NothingToSteer(id.to_owned()))),
            ),
        },
        _ => match turn {
            Some(active) => (
                ThreadPhase::Acting,
                Step::ask("turn/interrupt", interrupt_params(id, active.as_str())),
            ),
            None => (
                ThreadPhase::Ended,
                Step::quiet(Action::Fail(CtlError::NothingToInterrupt(id.to_owned()))),
            ),
        },
    }
}

impl ThreadSession {
    fn finish_acting(&self, event: Event) -> (r: (ThreadPhase, Step))
        ensures
            (r.0, r.1@) == after_acting(self@, event@),
            self@.command is Status ==> r.1@.action is Finish,
    {
        match &self.command {
            ThreadCommand::Say(_) => match event {
                Event::Started(turn) => {
                    let mut output: String = "turn: ".to_owned();
                    output.append(turn.as_str());
                    output.append("\n");
                    (ThreadPhase::Ended, Step::finish(output))
                },
                _ => (ThreadPhase::Ended, Step::fail_at("turn/start")),
            },
            ThreadCommand::Status => match event {
                Event::Replied(text) => {
                    let goal: Option<Option<String>> = match value_get(text.as_str(), "goal") {
                        Some(found) => Some(pretty(found.as_str())),
                        None => None,
                    };
                    (ThreadPhase::Ended, print_status(self.name.as_str(), &self.entry, goal))
                },
                _ => (ThreadPhase::Ended, print_status(self.name.as_str(), &self.entry, None)),
            },
            ThreadCommand::Tail { no_deltas } => match event {
                Event::Received(incoming) => {
                    let output: String = incoming_line(&incoming, *no_deltas);
                    (ThreadPhase::Acting, Step { output, action: Action::NextEvent })
                },
                Event::Interrupted => (
                    ThreadPhase::Ended,
                    Step::finish("\n(interrupted)\n".to_owned()),
                ),
                _ => (ThreadPhase::Ended, Step::fail_plainly()),
            },
            ThreadCommand::Steer(_) => match event {
                Event::Replied(text) => (ThreadPhase::Ended, print_reply(pretty(text.as_str()))),
                _ => (ThreadPhase::Ended, Step::fail_at("turn/steer")),
            },
            ThreadCommand::Interrupt => match event {
                Event::Replied(text) => (ThreadPhase::Ended, print_reply(pretty(text.as_str()))),
                _ => (ThreadPhase::Ended, Step::fail_at("turn/interrupt")),
            },
            ThreadCommand::Goal(change) => match event {
                Event::Replied(text) => (ThreadPhase::Ended, print_reply(pretty(text.as_str()))),
                _ => if change.clear {
                    (ThreadPhase::Ended, Step::fail_at("thread/goal/clear"))
                } else {
                    (ThreadPhase::Ended, Step::fail_at("thread/goal/set"))
                },
            },
        }
    }

    /// Goes on after `event`. Once a thread was taken up to tell of it, that succeeds whatever
    /// came of the request for its goal.
    pub fn step(self, event: Event) -> (r: (ThreadSession, Step))
        ensures
            (r.0@.phase, r.1@) == session_next(self@, event@),
            r.0@ == (SessionView { phase: r.0@.phase, ..self@ }),
            self@.phase == ThreadPhase::Acting && self@.command is Status ==> r.1@.action is Finish,
    {
        let (phase, step) = match self.phase {
            ThreadPhase::Connecting => match event {
                Event::Done => (
                    ThreadPhase::Resuming,
                    Step::quiet(Action::Resume(resume_thread(&self.entry))),
                ),
                _ => (ThreadPhase::Ended, Step::fail_plainly()),
            },
            ThreadPhase::Resuming => match event {
                Event::Done => act_on_thread(&self.entry, &self.command),
                _ => {
                    let mut context: String = "thread/resume ".to_owned();
                    context.append(self.entry.thread_id.as_str());
                    (ThreadPhase::Ended, Step::fail_at(context.as_str()))
                },
            },
            ThreadPhase::ReadingTurns => match event {
                Event::Answered(body) => act_on_turn(
                    &self.entry,
                    &self.command,
                    active_turn_id(&body),
                ),
                _ => match &self.command {
                    ThreadCommand::Steer(_) => (
                        ThreadPhase::Ended,
                        Step::fail_within("thread/read", "look up active turn for steer"),
                    ),
                    _ => (
                        ThreadPhase::Ended,
                        Step::fail_within("thread/read", "look up active turn for interrupt"),
                    ),
                },
            },
            ThreadPhase::Acting => self.finish_acting(event),
            ThreadPhase::Ended => (ThreadPhase::Ended, Step::fail_plainly()),
        };
        (ThreadSession { phase, ..self }, step)
    }
}

/// Whether an action reaches no thread but the one with this id.
pub open spec fn about_thread(action: ActionView, id: Seq<char>) -> bool {
    match action {
        ActionView::Resume(params) => params.thread_id == id,
        ActionView::StartTurn { thread_id, .. } => thread_id == id,
        ActionView::Request { params, .. } => params.text_at("threadId"@) == Some(id),
        ActionView::Query { params, .. } => params.text_at("threadId"@) == Some(id),
        ActionView::StartThread(_) | ActionView::AwaitTurn | ActionView::LoadRegistry
        | ActionView::SaveRegistry(_) => false,
        ActionView::Connect | ActionView::NextEvent | ActionView::Finish | ActionView::Fail(_) =>
        true,
    }
}

/// Whatever happens, a command reaches the thread that is registered under its name and no
/// other, and leaves the registry alone.
pub proof fn law_commands_keep_to_their_thread(session: SessionView, event: EventView)
    ensures
        about_thread(session_next(session, event).1.action, session.entry.thread_id),
{
    let id = session.entry.thread_id;
    match session.command {
        ThreadCommandView::Goal(change) => {
            law_goal_params_say_the_change(id, change);
        },
        _ => {},
    }
    assert(thread_params(id).text_at("threadId"@) == Some(id));
    assert(read_params(id).text_at("threadId"@) == Some(id));
    assert forall|turn: Seq<char>, message: Seq<char>| #[trigger]
        steer_view(id, turn, message).text_at("threadId"@) == Some(id) by {}
    assert forall|turn: Seq<char>| #[trigger]
        interrupt_view(id, turn).text_at("threadId"@) == Some(id) by {}
}

/// Nothing is asked of a thread that was not taken up first: from connecting a command goes on
/// to take its thread up, and from there only once that is done.
pub proof fn law_resumed_before_anything_else(session: SessionView, event: EventView)
    ensures
        session.phase == ThreadPhase::Connecting ==> {
            let (phase, step) = session_next(session, event);
            if event is Done {
                phase == ThreadPhase::Resuming && step.action == ActionView::Resume(
                    resume_view(session.entry),
                )
            } else {
                phase == ThreadPhase::Ended && step.action is Fail
            }
        },
        session.phase == ThreadPhase::Resuming && !(event is Done) ==> {
            let (phase, step) = session_next(session, event);
            phase == ThreadPhase::Ended && step.action is Fail
        },
        session_next(session, event).0 != ThreadPhase::Connecting,
        session_next(session, event).0 == ThreadPhase::Resuming ==> session.phase
            == ThreadPhase::Connecting,
{
}

/// A thread is taken up again as it was created: in the same directory, with the same model and
/// in the same sandbox.
pub proof fn law_resumed_as_created(options: StartOptionsView, id: Seq<char>, now: u64)
    ensures
        resume_view(new_entry(options, id, now)) == (ResumeView {
            thread_id: id,
            cwd: start_params(options).cwd,
            model: Some(start_params(options).model),
            sandbox: Some(start_params(options).sandbox),
        }),
{
}

/// A command is over exactly when it says so, and a command that is over does nothing more.
pub proof fn law_ended_stays_ended(session: SessionView, event: EventView)
    ensures
        session_next(session, event).0 == ThreadPhase::Ended <==> (session_next(
            session,
            event,
        ).1.action is Finish || session_next(session, event).1.action is Fail),
        session.phase == ThreadPhase::Ended ==> session_next(session, event).0
            == ThreadPhase::Ended,
{
}

/// A thread without a turn in flight is neither steered nor interrupted: the command fails, and
/// nothing is sent. With one, the request names that turn.
pub proof fn law_only_the_turn_in_flight(session: SessionView, body: JsonView)
    requires
        session.phase == ThreadPhase::ReadingTurns,
        session.command is Steer || session.command is Interrupt,
    ensures
        ({
            let id = session.entry.thread_id;
            let step = session_next(session, EventView::Answered(body)).1;
            match active_turn(body) {
                None => step.action == ActionView::Fail(
                    if session.command is Steer {
                        CtlErrorView::NothingToSteer(id)
                    } else {
                        CtlErrorView::NothingToInterrupt(id)
                    },
                ),
                Some(turn) => step.action matches ActionView::Request { method, params } && (
                if session.command is Steer {
                    method == "turn/steer"@ && params.text_at("expectedTurnId"@) == Some(turn)
                } else {
                    method == "turn/interrupt"@ && params.text_at("turnId"@) == Some(turn)
                }),
            }
        }),
{
    reveal_strlit("threadId");
    reveal_strlit("expectedTurnId");
    reveal_strlit("turnId");
    assert("threadId"@.len() == 8 && "expectedTurnId"@.len() == 14 && "turnId"@.len() == 6);
    reveal_with_fuel(first_member, 2);
    let id = session.entry.thread_id;
    match active_turn(body) {
        Some(turn) => {
            assert(interrupt_view(id, turn).text_at("turnId"@) == Some(turn));
            match session.command {
                ThreadCommandView::Steer(message) => {
                    assert(steer_view(id, turn, message).text_at("expectedTurnId"@) == Some(turn));
                },
                _ => {},
            }
        },
        None => {},
    }
}

/// A thread's status is told though its goal could not be had.
pub proof fn law_status_needs_no_goal(session: SessionView, event: EventView)
    requires
        session.phase == ThreadPhase::Acting,
        session.command is Status,
        !(event is Replied),
    ensures
        session_next(session, event).1 == finish(thread_lines(session.name, session.entry)),
{
}

/// A tail after these events have come in.
pub open spec fn tail_run(session: SessionView, stream: Seq<IncomingView>) -> (
    ThreadPhase,
    Seq<char>,
)
    decreases stream.len(),
{
    if stream.len() == 0 {
        (session.phase, ""@)
    } else {
        let (phase, output) = tail_run(session, stream.drop_last());
        let (after, step) = session_next(
            SessionView { phase, ..session },
            EventView::Received(stream.last()),
        );
        (after, output + step.output)
    }
}

/// A tail shows what is to be shown of each event, in the order in which they come in, and
/// nothing else; it goes on after each of them.
pub proof fn law_tail_shows_the_stream(session: SessionView, stream: Seq<IncomingView>)
    requires
        session.phase == ThreadPhase::Acting,
        session.command is Tail,
    ensures
        tail_run(session, stream) == (
            ThreadPhase::Acting,
            stream_output(stream, session.command->no_deltas),
        ),
    decreases stream.len(),
{
    if stream.len() > 0 {
        law_tail_shows_the_stream(session, stream.drop_last());
    }
}

/// Tailing a thread goes on until the user interrupts it or the events fail, and sends nothing
/// meanwhile.
pub proof fn law_tail_only_listens(session: SessionView, event: EventView)
    requires
        session.phase == ThreadPhase::Acting,
        session.command is Tail,
    ensures
        session_next(session, event).1.action is NextEvent <==> event is Received,
        session_next(session, event).1.action is Finish <==> event is Interrupted,
        session_next(session, event).1.action is Fail <==> !(event is Received)
            && !(event is Interrupted),
{
}

/// Whether a command begins on the thread that is registered under `name`, with its entry and
/// with connecting as the first thing to do, or is refused where there is no such thread.
pub open spec fn begins(
    registry: Registry,
    name: String,
    r: Result<(ThreadSession, Step), CtlError>,
) -> bool {
    match r {
        Ok((session, step)) => registry@.threads.contains_key(name@) && session.name@ == name@
            && session.entry@ == registry@.threads[name@] && session.phase is Connecting
            && step.action is Connect && step.output@ == ""@,
        Err(CtlError::NoThread(missing)) => !registry@.threads.contains_key(name@) && missing@
            == name@,
        Err(_) => false,
    }
}

/// Every command on a thread begins on the registered thread, and is the one that was asked for.
pub proof fn law_commands_begin_as_asked(
    registry: &Registry,
    name: String,
    message: String,
    change: GoalChange,
    no_deltas: bool,
    say: Result<(ThreadSession, Step), CtlError>,
    steer: Result<(ThreadSession, Step), CtlError>,
    interrupt: Result<(ThreadSession, Step), CtlError>,
    goal: Result<(ThreadSession, Step), CtlError>,
    status: Result<(ThreadSession, Step), CtlError>,
    tail: Result<(ThreadSession, Step), CtlError>,
)
    requires
        call_ensures(cmd_say, (registry, name, message), say),
        call_ensures(cmd_steer, (registry, name, message), steer),
        call_ensures(cmd_interrupt, (registry, name), interrupt),
        call_ensures(cmd_goal, (registry, name, change), goal),
        call_ensures(cmd_status, (registry, name), status),
        call_ensures(cmd_tail, (registry, name, no_deltas), tail),
    ensures
        begins(*registry, name, say),
        begins(*registry, name, steer),
        begins(*registry, name, interrupt),
        begins(*registry, name, goal),
        begins(*registry, name, status),
        begins(*registry, name, tail),
        say matches Ok((session, _)) ==> (session.command matches ThreadCommand::Say(text) && text@
            == message@),
        steer matches Ok((session, _)) ==> (session.command matches ThreadCommand::Steer(text)
            && text@ == message@),
        interrupt matches Ok((session, _)) ==> session.command is Interrupt,
        goal matches Ok((session, _)) ==> (session.command matches ThreadCommand::Goal(kept)
            && opt_text(kept.set) == opt_text(change.set) && kept.pause == change.pause
            && kept.resume == change.resume && kept.clear == change.clear && kept.budget
            == change.budget),
        status matches Ok((session, _)) ==> session.command is Status,
        tail matches Ok((session, _)) ==> (session.command matches ThreadCommand::Tail {
            no_deltas: kept,
        } && kept == no_deltas),
{
}

/// Whatever happens, a command stays what it is, on the thread that it began on.
pub proof fn law_a_command_stays_what_it_is(
    session: ThreadSession,
    event: Event,
    r: (ThreadSession, Step),
)
    requires
        call_ensures(ThreadSession::step, (session, event), r),
    ensures
        r.0.name@ == session.name@,
        r.0.entry@ == session.entry@,
        r.0.command@ == session.command@,
{
}

/// The first thing that a connected command sends is that its thread be taken up again, with
/// what is registered of it.
pub proof fn law_resumed_as_registered(
    session: ThreadSession,
    event: Event,
    r: (ThreadSession, Step),
)
    requires
        call_ensures(ThreadSession::step, (session, event), r),
        session.phase is Connecting,
        event is Done,
    ensures
        r.0.phase is Resuming,
        r.1.output@ == ""@,
        r.1.action matches Action::Resume(params) && params.thread_id@ == session.entry.thread_id@
            && opt_text(params.cwd) == opt_text(session.entry.cwd) && opt_text(params.model)
            == opt_text(session.entry.model) && opt_text(params.sandbox) == opt_text(
            session.entry.sandbox,
        ),
{
}

/// What is said begins a turn on the thread with the message as it is, and the turn's id is told.
pub proof fn law_what_is_said_begins_a_turn(
    session: ThreadSession,
    event: Event,
    r: (ThreadSession, Step),
)
    requires
        call_ensures(ThreadSession::step, (session, event), r),
        session.command is Say,
    ensures
        session.phase is Resuming && event is Done ==> r.0.phase is Acting && r.1.output@ == ""@ && (
        r.1.action matches Action::StartTurn { thread_id, text } && thread_id@
            == session.entry.thread_id@ && text@ == session.command->Say_0@),
        session.phase is Acting && event is Started ==> r.1.action is Finish && r.1.output@
            == "turn: "@ + event->Started_0@ + "\n"@,
{
}

/// To steer or to interrupt a thread, it is first read with its turns.
pub proof fn law_turns_are_read_first(
    session: ThreadSession,
    event: Event,
    r: (ThreadSession, Step),
)
    requires
        call_ensures(ThreadSession::step, (session, event), r),
        session.command is Steer || session.command is Interrupt,
        session.phase is Resuming,
        event is Done,
    ensures
        r.0.phase is ReadingTurns,
        r.1.output@ == ""@,
        r.1.action matches Action::Query { method, params } && method@ == "thread/read"@ && params@
            == JsonView::Object(
            seq![
                ("threadId"@, JsonView::Text(session.entry.thread_id@)),
                ("includeTurns"@, JsonView::Bool(true)),
            ],
        ),
{
}

/// Steering and interrupting reach the turn that the reading of the turns finds active, and send
/// nothing where it finds none: the message goes to that turn, or that turn is interrupted.
pub proof fn law_the_active_turn_is_reached(
    session: ThreadSession,
    body: Json,
    found: Option<String>,
    r: (ThreadSession, Step),
)
    requires
        call_ensures(ThreadSession::step, (session, Event::Answered(body)), r),
        call_ensures(active_turn_id, (&body,), found),
        session.command is Steer || session.command is Interrupt,
        session.phase is ReadingTurns,
    ensures
        r.1.output@ == ""@,
        found is None ==> r.0.phase is Ended && match session.command {
            ThreadCommand::Steer(_) => r.1.action matches Action::Fail(
                CtlError::NothingToSteer(id),
            ) && id@ == session.entry.thread_id@,
            _ => r.1.action matches Action::Fail(CtlError::NothingToInterrupt(id)) && id@
                == session.entry.thread_id@,
        },
        found is Some ==> r.0.phase is Acting && (r.1.action matches Action::Request {
            method,
            params,
        } && match session.command {
            ThreadCommand::Steer(message) => method@ == "turn/steer"@ && params@
                == JsonView::Object(
                seq![
                    ("threadId"@, JsonView::Text(session.entry.thread_id@)),
                    ("expectedTurnId"@, JsonView::Text(found->0@)),
                    (
                        "input"@,
                        JsonView::Array(
                            seq![
                                JsonView::Object(
                                    seq![
                                        ("type"@, JsonView::Text("text"@)),
                                        ("text"@, JsonView::Text(message@)),
                                    ],
                                ),
                            ],
                        ),
                    ),
                ],
            ),
            _ => method@ == "turn/interrupt"@ && params@ == JsonView::Object(
                seq![
                    ("threadId"@, JsonView::Text(session.entry.thread_id@)),
                    ("turnId"@, JsonView::Text(found->0@)),
                ],
            ),
        }),
{
}

/// A thread none of whose turns has the status `inProgress` is idle: it is neither steered nor
/// interrupted.
pub proof fn law_an_idle_thread_is_left_alone(
    session: ThreadSession,
    body: Json,
    thread: JsonView,
    turns: Seq<JsonView>,
    r: (ThreadSession, Step),
)
    requires
        call_ensures(ThreadSession::step, (session, Event::Answered(body)), r),
        session.phase is ReadingTurns,
        body@.get("thread"@) == Some(thread),
        thread.get("turns"@) == Some(JsonView::Array(turns)),
        forall|j: int|
            0 <= j < turns.len() ==> (#[trigger] turns[j]).get("status"@) != Some(
                JsonView::Text("inProgress"@),
            ),
    ensures
        r.1.action is Fail,
        r.0.phase is Ended,
{
    if turns.len() > 0 {
        law_active_turn_is_latest(body@, 0);
    }
    assert(active_turn(body@) is None);
}

/// A change of a goal does what the change asks for, on the thread of the command.
pub proof fn law_goal_command_makes_the_change(
    session: ThreadSession,
    event: Event,
    id: &str,
    r: (ThreadSession, Step),
    change: Step,
)
    requires
        call_ensures(ThreadSession::step, (session, event), r),
        session.command is Goal,
        session.phase is Resuming,
        event is Done,
        id@ == session.entry.thread_id@,
        call_ensures(change_goal, (id, &session.command->Goal_0), change),
    ensures
        r.1@ == change@,
        change.action is Fail <==> r.0.phase is Ended,
        !(change.action is Fail) <==> r.0.phase is Acting,
{
}

/// The reply to a steer, an interrupt or a change of a goal is printed as it is laid out.
pub proof fn law_replies_are_printed(
    session: ThreadSession,
    text: String,
    r: (ThreadSession, Step),
)
    requires
        call_ensures(ThreadSession::step, (session, Event::Replied(text)), r),
        session.command is Steer || session.command is Interrupt || session.command is Goal,
        session.phase is Acting,
    ensures
        r.0.phase is Ended,
        pretty_json(text@) matches Some(lines) ==> r.1.action is Finish && r.1.output@ == lines
            + "\n"@,
        pretty_json(text@) is None ==> (r.1.action matches Action::Fail(e) && e is BadReply),
{
}

/// A status asks for the thread's goal and then tells the name, the thread, its directory where
/// it has one, and the goal where the reply has one.
pub proof fn law_status_tells_name_thread_and_goal(
    session: ThreadSession,
    event: Event,
    r: (ThreadSession, Step),
)
    requires
        call_ensures(ThreadSession::step, (session, event), r),
        session.command is Status,
    ensures
        session.phase is Resuming && event is Done ==> r.0.phase is Acting && r.1.output@ == ""@ && (
        r.1.action matches Action::Request { method, params } && method@ == "thread/goal/get"@
            && params@ == JsonView::Object(
            seq![("threadId"@, JsonView::Text(session.entry.thread_id@))],
        )),
        session.phase is Acting ==> {
            let lines = "name: "@ + session.name@ + "\nthread: "@ + session.entry.thread_id@ + "\n"@
                + match session.entry.cwd {
                Some(cwd) => "cwd: "@ + cwd@ + "\n"@,
                None => Seq::empty(),
            };
            let goal = match event {
                Event::Replied(text) => json_member(text@, "goal"@),
                _ => None,
            };
            &&& r.1.action is Finish
            &&& goal matches Some(found) ==> (pretty_json(found) matches Some(laid_out)
                && r.1.output@ == lines + ("goal: "@ + laid_out + "\n"@))
            &&& goal is None ==> r.1.output@ == lines
        },
{
    if session.phase is Acting {
        let start = "name: "@ + session.name@ + "\nthread: "@ + session.entry.thread_id@ + "\n"@;
        let told = thread_lines(session.name@, session.entry@);
        match session.entry.cwd {
            Some(cwd) => {
                assert(told =~= start + ("cwd: "@ + cwd@ + "\n"@));
            },
            None => {
                assert(told =~= start + Seq::empty());
            },
        }
        match event {
            Event::Replied(text) => {
                match json_member(text@, "goal"@) {
                    Some(found) => {
                        match pretty_json(found) {
                            Some(laid_out) => {
                                assert(told + "goal: "@ + laid_out + "\n"@ =~= told + ("goal: "@
                                    + laid_out + "\n"@));
                            },
                            None => {},
                        }
                    },
                    None => {},
                }
            },
            _ => {},
        }
    }
}

/// A tail says which thread it follows, shows each event as it is to be shown, and ends when the
/// user interrupts it.
pub proof fn law_tail_shows_each_event(
    session: ThreadSession,
    event: Event,
    r: (ThreadSession, Step),
    line: String,
)
    requires
        call_ensures(ThreadSession::step, (session, event), r),
        session.command is Tail,
        event matches Event::Received(incoming) ==> call_ensures(
            incoming_line,
            (&incoming, session.command->no_deltas),
            line,
        ),
    ensures
        session.phase is Resuming && event is Done ==> r.0.phase is Acting && r.1.action
            is NextEvent && r.1.output@ == "(tailing "@ + session.entry.thread_id@
            + "; ctrl-c to exit)\n"@,
        session.phase is Acting && event is Received ==> r.0.phase is Acting && r.1.action
            is NextEvent && r.1.output@ == line@,
        session.phase is Acting && event is Interrupted ==> r.0.phase is Ended && r.1.action
            is Finish && r.1.output@ == "\n(interrupted)\n"@,
{
}

/// A command that fails names the step that failed; a status alone does without its goal.
pub proof fn law_failed_command_names_its_step(session: ThreadSession, r: (ThreadSession, Step))
    requires
        call_ensures(ThreadSession::step, (session, Event::Failed), r),
        !(session.phase is Acting && session.command is Status),
        session.phase is ReadingTurns ==> session.command is Steer || session.command is Interrupt,
    ensures
        r.0.phase is Ended,
        r.1.output@ == ""@,
        r.1.action matches Action::Fail(CtlError::Outside(contexts)) && match session.phase {
            ThreadPhase::Connecting | ThreadPhase::Ended => contexts@.len() == 0,
            ThreadPhase::Resuming => contexts@.len() == 1 && contexts@[0]@ == "thread/resume "@
                + session.entry.thread_id@,
            ThreadPhase::ReadingTurns => contexts@.len() == 2 && contexts@[0]@ == "thread/read"@
                && contexts@[1]@ == (if session.command is Steer {
                "look up active turn for steer"@
            } else {
                "look up active turn for interrupt"@
            }),
            ThreadPhase::Acting => match session.command {
                ThreadCommand::Say(_) => contexts@.len() == 1 && contexts@[0]@ == "turn/start"@,
                ThreadCommand::Steer(_) => contexts@.len() == 1 && contexts@[0]@ == "turn/steer"@,
                ThreadCommand::Interrupt => contexts@.len() == 1 && contexts@[0]@
                    == "turn/interrupt"@,
                ThreadCommand::Goal(change) => contexts@.len() == 1 && contexts@[0]@ == (
                if change.clear {
                    "thread/goal/clear"@
                } else {
                    "thread/goal/set"@
                }),
                ThreadCommand::Tail { .. } => contexts@.len() == 0,
                ThreadCommand::Status => true,
            },
        },
{
    match r.1.action {
        Action::Fail(CtlError::Outside(contexts)) => {
            let told = texts(contexts@);
            assert(told.len() == contexts@.len());
            if told.len() > 0 {
                assert(told[0] == contexts@[0]@);
            }
            if told.len() > 1 {
                assert(told[1] == contexts@[1]@);
            }
        },
        _ => {},
    }
}

/// What is printed of a reply and of a status, given how they were laid out.
pub proof fn law_printed_as_laid_out(
    lines: Option<String>,
    reply: Step,
    name: &str,
    entry: &ThreadEntry,
    goal: Option<Option<String>>,
    status: Step,
)
    requires
        call_ensures(print_reply, (lines,), reply),
        call_ensures(print_status, (name, entry, goal), status),
    ensures
        lines matches Some(all) ==> reply.action is Finish && reply.output@ == all@ + "\n"@,
        lines is None ==> (reply.action matches Action::Fail(e) && e is BadReply)
            && reply.output@ == ""@,
        ({
            let told = "name: "@ + name@ + "\nthread: "@ + entry.thread_id@ + "\n"@
                + match entry.cwd {
                Some(cwd) => "cwd: "@ + cwd@ + "\n"@,
                None => Seq::empty(),
            };
            match goal {
                None => status.action is Finish && status.output@ == told,
                Some(Some(all)) => status.action is Finish && status.output@ == told + ("goal: "@
                    + all@ + "\n"@),
                Some(None) => (status.action matches Action::Fail(e) && e is BadReply)
                    && status.output@ == told,
            }
        }),
{
    let start = "name: "@ + name@ + "\nthread: "@ + entry.thread_id@ + "\n"@;
    let told = thread_lines(name@, entry@);
    match entry.cwd {
        Some(cwd) => {
            assert(told =~= start + ("cwd: "@ + cwd@ + "\n"@));
        },
        None => {
            assert(told =~= start + Seq::empty());
        },
    }
    match goal {
        Some(Some(all)) => {
            assert(told + "goal: "@ + all@ + "\n"@ =~= told + ("goal: "@ + all@ + "\n"@));
        },
        _ => {},
    }
}

} // verus!
