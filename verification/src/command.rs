//! What commands ask to be done, and what they are told of it.
use vstd::prelude::*;
use vstd::string::*;

use crate::error::{texts, CtlError, CtlErrorView};
use crate::json::{json_object, Json, JsonView};
use crate::notice::{Incoming, IncomingView};
use crate::registry::{EntryView, Registry, RegistryView, ThreadEntry};
use crate::text::{copy_opt, opt_text};

verus! {

/// How a thread is taken up again.
pub struct ResumeParams {
    pub thread_id: String,
    pub cwd: Option<String>,
    pub model: Option<String>,
    pub sandbox: Option<String>,
}

/// What `ResumeParams` say.
pub struct ResumeView {
    pub thread_id: Seq<char>,
    pub cwd: Option<Seq<char>>,
    pub model: Option<Seq<char>>,
    pub sandbox: Option<Seq<char>>,
}

impl View for ResumeParams {
    type V = ResumeView;

    open spec fn view(&self) -> ResumeView {
        ResumeView {
            thread_id: self.thread_id@,
            cwd: opt_text(self.cwd),
            model: opt_text(self.model),
            sandbox: opt_text(self.sandbox),
        }
    }
}

/// How the thread of a registry entry is taken up again: as it was created.
pub open spec fn resume_view(entry: EntryView) -> ResumeView {
    ResumeView {
        thread_id: entry.thread_id,
        cwd: entry.cwd,
        model: entry.model,
        sandbox: entry.sandbox,
    }
}

/// How the thread of a registry entry is taken up again.
pub fn resume_thread(entry: &ThreadEntry) -> (r: ResumeParams)
    ensures
        r@ == resume_view(entry@),
{
    ResumeParams {
        thread_id: entry.thread_id.clone(),
        cwd: copy_opt(&entry.cwd),
        model: copy_opt(&entry.model),
        sandbox: copy_opt(&entry.sandbox),
    }
}

/// How a thread is created. The members of `more` go along with the rest.
pub struct StartParams {
    pub cwd: Option<String>,
    pub model: String,
    pub sandbox: String,
    pub more: Json,
}

/// What `StartParams` say.
pub struct StartParamsView {
    pub cwd: Option<Seq<char>>,
    pub model: Seq<char>,
    pub sandbox: Seq<char>,
    pub more: JsonView,
}

impl View for StartParams {
    type V = StartParamsView;

    open spec fn view(&self) -> StartParamsView {
        StartParamsView {
            cwd: opt_text(self.cwd),
            model: self.model@,
            sandbox: self.sandbox@,
            more: self.more@,
        }
    }
}

/// What is to be done next.
pub enum Action {
    /// Connect to the daemon.
    Connect,
    /// Take a thread up again.
    Resume(ResumeParams),
    /// Create a thread.
    StartThread(StartParams),
    /// Begin a turn on a thread with this text.
    StartTurn { thread_id: String, text: String },
    /// Wait until a turn is completed.
    AwaitTurn,
    /// Send a request, and await the reply as the JSON document that it comes as.
    Request { method: String, params: Json },
    /// Send a request, and await the reply as a value to read.
    Query { method: String, params: Json },
    /// Read the registry.
    LoadRegistry,
    /// Write this registry.
    SaveRegistry(Registry),
    /// Receive the next event, or the user's interrupt.
    NextEvent,
    /// Nothing more; the command succeeded.
    Finish,
    /// Nothing more; the command failed.
    Fail(CtlError),
}

/// What an `Action` asks for.
pub enum ActionView {
    Connect,
    Resume(ResumeView),
    StartThread(StartParamsView),
    StartTurn { thread_id: Seq<char>, text: Seq<char> },
    AwaitTurn,
    Request { method: Seq<char>, params: JsonView },
    Query { method: Seq<char>, params: JsonView },
    LoadRegistry,
    SaveRegistry(RegistryView),
    NextEvent,
    Finish,
    Fail(CtlErrorView),
}

impl View for Action {
    type V = ActionView;

    open spec fn view(&self) -> ActionView {
        match self {
            Action::Connect => ActionView::Connect,
            Action::Resume(params) => ActionView::Resume(params@),
            Action::StartThread(params) => ActionView::StartThread(params@),
            Action::StartTurn { thread_id, text } => ActionView::StartTurn {
                thread_id: thread_id@,
                text: text@,
            },
            Action::AwaitTurn => ActionView::AwaitTurn,
            Action::Request { method, params } => ActionView::Request {
                method: method@,
                params: params@,
            },
            Action::Query { method, params } => ActionView::Query {
                method: method@,
                params: params@,
            },
            Action::LoadRegistry => ActionView::LoadRegistry,
            Action::SaveRegistry(registry) => ActionView::SaveRegistry(registry@),
            Action::NextEvent => ActionView::NextEvent,
            Action::Finish => ActionView::Finish,
            Action::Fail(e) => ActionView::Fail(e@),
        }
    }
}

/// How an action went.
pub enum Event {
    /// The action was carried out.
    Done,
    /// The action failed.
    Failed,
    /// What was waited for did not come in time.
    TimedOut,
    /// A thread or a turn was begun, and has this id.
    Started(String),
    /// A request was answered with this JSON document.
    Replied(String),
    /// A query was answered with this value.
    Answered(Json),
    /// The registry was read.
    Loaded(Registry),
    /// An event came in.
    Received(Incoming),
    /// The user interrupted.
    Interrupted,
}

/// What an `Event` tells.
pub enum EventView {
    Done,
    Failed,
    TimedOut,
    Started(Seq<char>),
    Replied(Seq<char>),
    Answered(JsonView),
    Loaded(RegistryView),
    Received(IncomingView),
    Interrupted,
}

impl View for Event {
    type V = EventView;

    open spec fn view(&self) -> EventView {
        match self {
            Event::Done => EventView::Done,
            Event::Failed => EventView::Failed,
            Event::TimedOut => EventView::TimedOut,
            Event::Started(id) => EventView::Started(id@),
            Event::Replied(text) => EventView::Replied(text@),
            Event::Answered(body) => EventView::Answered(body@),
            Event::Loaded(registry) => EventView::Loaded(registry@),
            Event::Received(incoming) => EventView::Received(incoming@),
            Event::Interrupted => EventView::Interrupted,
        }
    }
}

/// What to print, and what to do next.
pub struct Step {
    pub output: String,
    pub action: Action,
}

/// What a `Step` says.
pub struct StepView {
    pub output: Seq<char>,
    pub action: ActionView,
}

impl View for Step {
    type V = StepView;

    open spec fn view(&self) -> StepView {
        StepView { output: self.output@, action: self.action@ }
    }
}

/// A step that prints nothing.
pub open spec fn quietly(action: ActionView) -> StepView {
    StepView { output: ""@, action }
}

/// The last step of a command that succeeds.
pub open spec fn finish(output: Seq<char>) -> StepView {
    StepView { output, action: ActionView::Finish }
}

/// The last step of a command of which a step outside failed.
pub open spec fn fail_under(contexts: Seq<Seq<char>>) -> StepView {
    quietly(ActionView::Fail(CtlErrorView::Outside(contexts)))
}

/// A step that sends a request.
pub open spec fn ask(method: Seq<char>, params: JsonView) -> StepView {
    quietly(ActionView::Request { method, params })
}

/// Parameters that name a thread and nothing else.
pub open spec fn thread_params(thread_id: Seq<char>) -> JsonView {
    JsonView::Object(seq![("threadId"@, JsonView::Text(thread_id))])
}

/// Parameters that name a thread and nothing else.
pub fn params_for(thread_id: &str) -> (r: Json)
    ensures
        r@ == thread_params(thread_id@),
{
    json_object().with("threadId", Json::Text(thread_id.to_owned()))
}

impl Step {
    /// A step that prints nothing.
    pub fn quiet(action: Action) -> (r: Step)
        ensures
            r@ == quietly(action@),
    {
        Step { output: "".to_owned(), action }
    }

    /// The last step of a command that succeeds.
    pub fn finish(output: String) -> (r: Step)
        ensures
            r@ == finish(output@),
    {
        Step { output, action: Action::Finish }
    }

    /// A step that sends a request.
    pub fn ask(method: &str, params: Json) -> (r: Step)
        ensures
            r@ == ask(method@, params@),
    {
        Step::quiet(Action::Request { method: method.to_owned(), params })
    }

    /// The last step of a command of which a step outside failed, for which nothing is to be
    /// said.
    pub fn fail_plainly() -> (r: Step)
        ensures
            r@ == fail_under(Seq::empty()),
    {
        let contexts: Vec<String> = Vec::new();
        assert(texts(contexts@) =~= Seq::empty());
        Step::quiet(Action::Fail(CtlError::Outside(contexts)))
    }

    /// The last step of a command of which a step outside failed, under one description.
    pub fn fail_at(context: &str) -> (r: Step)
        ensures
            r@ == fail_under(seq![context@]),
    {
        let contexts: Vec<String> = vec![context.to_owned()];
        assert(texts(contexts@) =~= seq![context@]);
        Step::quiet(Action::Fail(CtlError::Outside(contexts)))
    }

    /// The last step of a command of which a step outside failed, under two descriptions.
    pub fn fail_within(inner: &str, outer: &str) -> (r: Step)
        ensures
            r@ == fail_under(seq![inner@, outer@]),
    {
        let contexts: Vec<String> = vec![inner.to_owned(), outer.to_owned()];
        assert(texts(contexts@) =~= seq![inner@, outer@]);
        Step::quiet(Action::Fail(CtlError::Outside(contexts)))
    }
}

} // verus!
