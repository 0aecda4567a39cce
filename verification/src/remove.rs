//! Dropping a named thread.
use vstd::prelude::*;
use vstd::string::*;

use crate::command::{
    ask, fail_under, finish, params_for, quietly, thread_params, Action, ActionView, Event,
    EventView, Step, StepView,
};
use crate::error::{texts, CtlError, CtlErrorView};
use crate::json::JsonView;
use crate::registry::{
    law_unregister_undoes_register, law_unregistered_is_gone, lookup_thread, unregistered,
    Registry, RegistryView,
};
use crate::start::{grown_registry, new_entry, StartSessionView};

verus! {

/// How far the removal has come.
#[derive(Clone, Copy, PartialEq, Eq, Structural)]
pub enum RemovePhase {
    Connecting,
    Archiving,
    Loading,
    Saving,
    Ended,
}

/// The removal of the thread that is registered under a name.
pub struct RemoveSession {
    pub name: String,
    pub thread_id: String,
    pub phase: RemovePhase,
}

/// What a `RemoveSession` says.
pub struct RemoveView {
    pub name: Seq<char>,
    pub thread_id: Seq<char>,
    pub phase: RemovePhase,
}

impl View for RemoveSession {
    type V = RemoveView;

    open spec fn view(&self) -> RemoveView {
        RemoveView { name: self.name@, thread_id: self.thread_id@, phase: self.phase }
    }
}

/// How the removal goes on after `event`. What became of the archiving does not matter.
pub open spec fn remove_next(session: RemoveView, event: EventView) -> (RemovePhase, StepView) {
    match (session.phase, event) {
        (RemovePhase::Connecting, EventView::Done) => (
            RemovePhase::Archiving,
            ask("thread/archive"@, thread_params(session.thread_id)),
        ),
        (RemovePhase::Archiving, _) => (RemovePhase::Loading, quietly(ActionView::LoadRegistry)),
        (RemovePhase::Loading, EventView::Loaded(registry)) => (
            RemovePhase::Saving,
            quietly(ActionView::SaveRegistry(unregistered(registry, session.name))),
        ),
        (RemovePhase::Saving, EventView::Done) => (
            RemovePhase::Ended,
            finish("removed: "@ + session.name + "\n"@),
        ),
        _ => (RemovePhase::Ended, fail_under(Seq::empty())),
    }
}

/// How the removal begins: unless the rollout is kept, the thread is archived first.
pub open spec fn remove_first(keep_rollout: bool) -> (RemovePhase, StepView) {
    if keep_rollout {
        (RemovePhase::Loading, quietly(ActionView::LoadRegistry))
    } else {
        (RemovePhase::Connecting, quietly(ActionView::Connect))
    }
}

/// Begins to remove the thread that is registered under `name`, with the first thing to do.
pub fn cmd_rm(registry: &Registry, name: String, keep_rollout: bool) -> (r: Result<
    (RemoveSession, Step),
    CtlError,
>)
    ensures
        if registry@.threads.contains_key(name@) {
            r matches Ok((session, step)) && (session@.phase, step@) == remove_first(keep_rollout)
                && session@.name == name@ && session@.thread_id
                == registry@.threads[name@].thread_id
        } else {
            r matches Err(e) && e@ == CtlErrorView::NoThread(name@)
        },
{
    match lookup_thread(registry, name.as_str()) {
        Ok(entry) => {
            let thread_id: String = entry.thread_id;
            if keep_rollout {
                let session = RemoveSession { name, thread_id, phase: RemovePhase::Loading };
                Ok((session, Step::quiet(Action::LoadRegistry)))
            } else {
                let session = RemoveSession { name, thread_id, phase: RemovePhase::Connecting };
                Ok((session, Step::quiet(Action::Connect)))
            }
        },
        Err(e) => Err(e),
    }
}

impl RemoveSession {
    /// Goes on after `event`.
    pub fn step(self, event: Event) -> (r: (RemoveSession, Step))
        ensures
            (r.0@.phase, r.1@) == remove_next(self@, event@),
            r.0@ == (RemoveView { phase: r.0@.phase, ..self@ }),
    {
        let (phase, step) = match self.phase {
            RemovePhase::Connecting => match event {
                Event::Done => (
                    RemovePhase::Archiving,
                    Step::ask("thread/archive", params_for(self.thread_id.as_str())),
                ),
                _ => (RemovePhase::Ended, Step::fail_plainly()),
            },
            RemovePhase::Archiving => (RemovePhase::Loading, Step::quiet(Action::LoadRegistry)),
            RemovePhase::Loading => match event {
                Event::Loaded(registry) => {
                    let rest: Registry = registry.without(self.name.as_str());
                    (RemovePhase::Saving, Step::quiet(Action::SaveRegistry(rest)))
                },
                _ => (RemovePhase::Ended, Step::fail_plainly()),
            },
            RemovePhase::Saving => match event {
                Event::Done => {
                    let mut output: String = "removed: ".to_owned();
                    output.append(self.name.as_str());
                    output.append("\n");
                    (RemovePhase::Ended, Step::finish(output))
                },
                _ => (RemovePhase::Ended, Step::fail_plainly()),
            },
            RemovePhase::Ended => (RemovePhase::Ended, Step::fail_plainly()),
        };
        (RemoveSession { phase, ..self }, step)
    }
}

/// A removal that is asked to archive drops the thread from the registry whatever the archiving
/// came to: after any answer the registry is read, and what is written back no longer holds the
/// name and has every other name as before.
pub proof fn law_removed_whatever_the_archive_says(
    session: RemoveView,
    answer: EventView,
    registry: RegistryView,
    other: Seq<char>,
)
    requires
        session.phase == RemovePhase::Archiving,
    ensures
        ({
            let (phase, step) = remove_next(session, answer);
            let loading = RemoveView { phase, ..session };
            let saved = remove_next(loading, EventView::Loaded(registry)).1;
            &&& step.action is LoadRegistry
            &&& saved.action matches ActionView::SaveRegistry(rest)
                && !rest.threads.contains_key(session.name) && rest.daemon_port
                == registry.daemon_port && (other != session.name ==> (
            rest.threads.contains_key(other) <==> registry.threads.contains_key(other)) && (
            registry.threads.contains_key(other) ==> rest.threads[other]
                == registry.threads[other]))
        }),
{
    law_unregistered_is_gone(registry, session.name, other);
}

/// Removing a thread undoes its creation: where the registry is as the creation left it, what is
/// written back is the registry as it was before.
pub proof fn law_removal_undoes_creation(
    creation: StartSessionView,
    id: Seq<char>,
    now: u64,
    removal: RemoveView,
)
    requires
        !creation.registry.threads.contains_key(creation.options.name),
        removal.name == creation.options.name,
        removal.phase == RemovePhase::Loading,
    ensures
        remove_next(removal, EventView::Loaded(grown_registry(creation, id, now))).1.action
            == ActionView::SaveRegistry(creation.registry),
{
    law_unregister_undoes_register(
        creation.registry,
        creation.options.name,
        new_entry(creation.options, id, now),
    );
}

/// A removal that keeps the rollout sends nothing to the app-server.
pub proof fn law_kept_rollout_is_left_alone(session: RemoveView, event: EventView)
    ensures
        remove_first(true).0 == RemovePhase::Loading,
        remove_first(true).1.action is LoadRegistry,
        session.phase != RemovePhase::Connecting && session.phase != RemovePhase::Archiving ==> {
            let (phase, step) = remove_next(session, event);
            phase != RemovePhase::Connecting && phase != RemovePhase::Archiving && (
            step.action is LoadRegistry || step.action is SaveRegistry || step.action is Finish
                || step.action is Fail)
        },
{
}

/// A removal is over exactly when it says so, and it succeeds only once the registry was
/// written.
pub proof fn law_removal_ends(session: RemoveView, event: EventView)
    ensures
        remove_next(session, event).0 == RemovePhase::Ended <==> (remove_next(
            session,
            event,
        ).1.action is Finish || remove_next(session, event).1.action is Fail),
        remove_next(session, event).1.action is Finish <==> session.phase == RemovePhase::Saving
            && event is Done,
        remove_next(session, event).0 == RemovePhase::Saving <==> remove_next(
            session,
            event,
        ).1.action is SaveRegistry,
        session.phase == RemovePhase::Ended ==> remove_next(session, event).0
            == RemovePhase::Ended,
{
}

/// A removal begins on the registered thread: with the registry where the rollout is kept, else
/// by connecting to archive the thread. Of a name without a thread nothing is removed.
pub proof fn law_removal_begins_as_asked(
    registry: &Registry,
    name: String,
    keep_rollout: bool,
    r: Result<(RemoveSession, Step), CtlError>,
)
    requires
        call_ensures(cmd_rm, (registry, name, keep_rollout), r),
    ensures
        match r {
            Ok((session, step)) => {
                &&& registry@.threads.contains_key(name@)
                &&& session.name@ == name@
                &&& session.thread_id@ == registry@.threads[name@].thread_id
                &&& step.output@ == ""@
                &&& keep_rollout ==> step.action is LoadRegistry && session.phase is Loading
                &&& !keep_rollout ==> step.action is Connect && session.phase is Connecting
            },
            Err(CtlError::NoThread(missing)) => !registry@.threads.contains_key(name@)
                && missing@ == name@,
            Err(_) => false,
        },
{
}

/// A removal archives the thread of its name, then reads the registry whatever came of that,
/// writes it back without the name and with everything else, and tells the name.
pub proof fn law_removal_takes_its_steps(
    session: RemoveSession,
    event: Event,
    r: (RemoveSession, Step),
    other: Seq<char>,
)
    requires
        call_ensures(RemoveSession::step, (session, event), r),
    ensures
        r.0.name@ == session.name@,
        r.0.thread_id@ == session.thread_id@,
        session.phase is Connecting && event is Done ==> r.0.phase is Archiving && (
        r.1.action matches Action::Request { method, params } && method@ == "thread/archive"@
            && params@ == JsonView::Object(
            seq![("threadId"@, JsonView::Text(session.thread_id@))],
        )),
        session.phase is Archiving ==> r.0.phase is Loading && r.1.action is LoadRegistry,
        session.phase is Loading && event is Loaded ==> r.0.phase is Saving && (
        r.1.action matches Action::SaveRegistry(rest) && {
            let before = event->Loaded_0@;
            &&& rest@.daemon_port == before.daemon_port
            &&& !rest@.threads.contains_key(session.name@)
            &&& other != session.name@ ==> (rest@.threads.contains_key(other)
                <==> before.threads.contains_key(other))
            &&& rest@.threads.contains_key(other) ==> rest@.threads[other]
                == before.threads[other]
        }),
        session.phase is Saving && event is Done ==> r.0.phase is Ended && r.1.action is Finish
            && r.1.output@ == "removed: "@ + session.name@ + "\n"@,
        !(r.1.action is Finish) ==> r.1.output@ == ""@,
{
}

/// A removal that fails elsewhere than in the archiving ends without a description of its own.
pub proof fn law_failed_removal_ends(session: RemoveSession, r: (RemoveSession, Step))
    requires
        call_ensures(RemoveSession::step, (session, Event::Failed), r),
        !(session.phase is Archiving),
    ensures
        r.0.phase is Ended,
        r.1.action matches Action::Fail(CtlError::Outside(contexts)) && contexts@.len() == 0,
{
    match r.1.action {
        Action::Fail(CtlError::Outside(contexts)) => {
            assert(texts(contexts@).len() == contexts@.len());
        },
        _ => {},
    }
}

} // verus!
