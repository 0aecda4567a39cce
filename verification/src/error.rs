//! Why a command ends without having done what it was asked for.
use vstd::prelude::*;
use vstd::string::*;

use crate::daemon::READY_TIMEOUT;
use crate::text::{decimal, push_decimal};

verus! {

/// The number of characters that the app-server accepts in a goal's objective.
pub const OBJECTIVE_CAP: usize = 4000;

/// Why a command failed.
pub enum CtlError {
    /// The user has no home directory.
    NoHome,
    /// No thread is registered under this name.
    NoThread(String),
    /// A new thread was to get a name that is taken.
    NameTaken(String),
    /// `start` was given an objective of this many characters, more than the app-server accepts.
    StartObjectiveTooLong(usize),
    /// `goal --set` was given an objective of this many characters, more than the app-server
    /// accepts.
    GoalObjectiveTooLong(usize),
    /// `steer` found no turn in flight on this thread.
    NothingToSteer(String),
    /// `interrupt` found no turn in flight on this thread.
    NothingToInterrupt(String),
    /// The event that was waited for did not come in time.
    TimedOut,
    /// The daemon was spawned but did not answer in time; what it wrote is in this file.
    NotReady(String),
    /// A reply could not be laid out as JSON.
    BadReply,
    /// A step outside this library failed. Its cause is known to the caller, who puts it under
    /// these descriptions, the innermost first.
    Outside(Vec<String>),
}

/// What a `CtlError` says.
pub enum CtlErrorView {
    NoHome,
    NoThread(Seq<char>),
    NameTaken(Seq<char>),
    StartObjectiveTooLong(nat),
    GoalObjectiveTooLong(nat),
    NothingToSteer(Seq<char>),
    NothingToInterrupt(Seq<char>),
    TimedOut,
    NotReady(Seq<char>),
    BadReply,
    Outside(Seq<Seq<char>>),
}

/// The texts of a list of strings.
pub open spec fn texts(v: Seq<String>) -> Seq<Seq<char>> {
    Seq::new(v.len(), |i: int| v[i]@)
}

impl View for CtlError {
    type V = CtlErrorView;

    open spec fn view(&self) -> CtlErrorView {
        match self {
            CtlError::NoHome => CtlErrorView::NoHome,
            CtlError::NoThread(name) => CtlErrorView::NoThread(name@),
            CtlError::NameTaken(name) => CtlErrorView::NameTaken(name@),
            CtlError::StartObjectiveTooLong(n) => CtlErrorView::StartObjectiveTooLong(*n as nat),
            CtlError::GoalObjectiveTooLong(n) => CtlErrorView::GoalObjectiveTooLong(*n as nat),
            CtlError::NothingToSteer(id) => CtlErrorView::NothingToSteer(id@),
            CtlError::NothingToInterrupt(id) => CtlErrorView::NothingToInterrupt(id@),
            CtlError::TimedOut => CtlErrorView::TimedOut,
            CtlError::NotReady(log) => CtlErrorView::NotReady(log@),
            CtlError::BadReply => CtlErrorView::BadReply,
            CtlError::Outside(contexts) => CtlErrorView::Outside(texts(contexts@)),
        }
    }
}

/// The message that an error is reported with.
pub open spec fn error_text(e: CtlErrorView) -> Seq<char> {
    match e {
        CtlErrorView::NoHome => "no home dir"@,
        CtlErrorView::NoThread(name) => "no thread named '"@ + name + "'; try `codexctl ls`"@,
        CtlErrorView::NameTaken(name) => "thread '"@ + name
            + "' already registered; pick another name or `codexctl rm "@ + name + "` first"@,
        CtlErrorView::StartObjectiveTooLong(n) => "objective is "@ + decimal(n)
            + " chars; app-server caps at 4000. Use `codexctl start ... --no-objective-yet` then `codexctl say <name>` for detail and `codexctl goal <name> --set` with a short objective."@,
        CtlErrorView::GoalObjectiveTooLong(n) => "objective is "@ + decimal(n)
            + " chars; app-server caps at 4000"@,
        CtlErrorView::NothingToSteer(id) => "no active turn on thread "@ + id
            + " — turn/steer requires a turn in flight; use `codexctl say` instead"@,
        CtlErrorView::NothingToInterrupt(id) => "no active turn on thread "@ + id
            + " — turn/interrupt requires a turn in flight"@,
        CtlErrorView::TimedOut => "timed out waiting for expected event"@,
        CtlErrorView::NotReady(log) => "daemon spawned but did not become ready in "@ + decimal(
            (READY_TIMEOUT / 1_000_000_000) as nat,
        ) + "s; see "@ + log,
        CtlErrorView::BadReply => "reply is not a JSON document"@,
        CtlErrorView::Outside(contexts) => if contexts.len() == 0 {
            ""@
        } else {
            contexts.last()
        },
    }
}

impl CtlError {
    /// The message that this error is reported with; of a step that failed outside, the outermost
    /// of its descriptions.
    pub fn message(&self) -> (r: String)
        ensures
            r@ == error_text(self@),
    {
        let mut out: String = String::new();
        match self {
            CtlError::NoHome => out.append("no home dir"),
            CtlError::NoThread(name) => {
                out.append("no thread named '");
                out.append(name.as_str());
                out.append("'; try `codexctl ls`");
            },
            CtlError::NameTaken(name) => {
                out.append("thread '");
                out.append(name.as_str());
                out.append("' already registered; pick another name or `codexctl rm ");
                out.append(name.as_str());
                out.append("` first");
            },
            CtlError::StartObjectiveTooLong(n) => {
                out.append("objective is ");
                push_decimal(&mut out, *n as u64);
                out.append(
                    " chars; app-server caps at 4000. Use `codexctl start ... --no-objective-yet` then `codexctl say <name>` for detail and `codexctl goal <name> --set` with a short objective.",
                );
            },
            CtlError::GoalObjectiveTooLong(n) => {
                out.append("objective is ");
                push_decimal(&mut out, *n as u64);
                out.append(" chars; app-server caps at 4000");
            },
            CtlError::NothingToSteer(id) => {
                out.append("no active turn on thread ");
                out.append(id.as_str());
                out.append(
                    " — turn/steer requires a turn in flight; use `codexctl say` instead",
                );
            },
            CtlError::NothingToInterrupt(id) => {
                out.append("no active turn on thread ");
                out.append(id.as_str());
                out.append(" — turn/interrupt requires a turn in flight");
            },
            CtlError::TimedOut => out.append("timed out waiting for expected event"),
            CtlError::NotReady(log) => {
                out.append("daemon spawned but did not become ready in ");
                push_decimal(&mut out, READY_TIMEOUT / 1_000_000_000);
                out.append("s; see ");
                out.append(log.as_str());
            },
            CtlError::BadReply => out.append("reply is not a JSON document"),
            CtlError::Outside(contexts) => {
                if contexts.len() > 0 {
                    out.append(contexts[contexts.len() - 1].as_str());
                } else {
                    out.append("");
                }
            },
        }
        assert(out@ =~= error_text(self@));
        out
    }
}

/// Every error says what happened, and to what.
pub proof fn law_messages_name_what_failed(e: CtlError, r: String)
    requires
        call_ensures(CtlError::message, (&e,), r),
    ensures
        match e {
            CtlError::NoHome => r@ == "no home dir"@,
            CtlError::NoThread(name) => r@ == "no thread named '"@ + name@
                + "'; try `codexctl ls`"@,
            CtlError::NameTaken(name) => r@ == "thread '"@ + name@
                + "' already registered; pick another name or `codexctl rm "@ + name@
                + "` first"@,
            CtlError::StartObjectiveTooLong(n) => r@ == "objective is "@ + decimal(n as nat)
                + " chars; app-server caps at 4000. Use `codexctl start ... --no-objective-yet` then `codexctl say <name>` for detail and `codexctl goal <name> --set` with a short objective."@,
            CtlError::GoalObjectiveTooLong(n) => r@ == "objective is "@ + decimal(n as nat)
                + " chars; app-server caps at 4000"@,
            CtlError::NothingToSteer(id) => r@ == "no active turn on thread "@ + id@
                + " — turn/steer requires a turn in flight; use `codexctl say` instead"@,
            CtlError::NothingToInterrupt(id) => r@ == "no active turn on thread "@ + id@
                + " — turn/interrupt requires a turn in flight"@,
            CtlError::TimedOut => r@ == "timed out waiting for expected event"@,
            CtlError::NotReady(log) => r@ == "daemon spawned but did not become ready in "@
                + decimal(15) + "s; see "@ + log@,
            CtlError::BadReply => r@ == "reply is not a JSON document"@,
            CtlError::Outside(contexts) => contexts@.len() > 0 ==> r@ == contexts@.last()@,
        },
{
}

} // verus!
