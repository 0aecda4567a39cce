//! Stopping the daemon: ask it to exit, look until it has, and kill it when it takes too long.
use vstd::prelude::*;
use vstd::string::*;

use crate::daemon::{raw_pid, signal_target, STOP_PAUSE, STOP_TIMEOUT};
use crate::error::{texts, CtlError, CtlErrorView};
use crate::text::{decimal, push_decimal};

verus! {

/// What is to be done next.
pub enum StopAction {
    /// See whether this process is alive.
    CheckAlive(i32),
    /// Send SIGTERM to this process.
    Terminate(i32),
    /// Send SIGKILL to this process.
    Kill(i32),
    /// Wait for this many milliseconds.
    Sleep(u64),
    /// Remove the pid file, if it is there.
    RemovePid,
    /// Remove the pid file and the port file, if they are there.
    RemovePidAndPort,
    /// Nothing more; the command succeeded.
    Finish,
    /// Nothing more; the command failed.
    Fail(CtlError),
}

/// What a `StopAction` asks for.
pub enum StopActionView {
    CheckAlive(int),
    Terminate(int),
    Kill(int),
    Sleep(nat),
    RemovePid,
    RemovePidAndPort,
    Finish,
    Fail(CtlErrorView),
}

impl View for StopAction {
    type V = StopActionView;

    open spec fn view(&self) -> StopActionView {
        match self {
            StopAction::CheckAlive(pid) => StopActionView::CheckAlive(*pid as int),
            StopAction::Terminate(pid) => StopActionView::Terminate(*pid as int),
            StopAction::Kill(pid) => StopActionView::Kill(*pid as int),
            StopAction::Sleep(millis) => StopActionView::Sleep(*millis as nat),
            StopAction::RemovePid => StopActionView::RemovePid,
            StopAction::RemovePidAndPort => StopActionView::RemovePidAndPort,
            StopAction::Finish => StopActionView::Finish,
            StopAction::Fail(e) => StopActionView::Fail(e@),
        }
    }
}

/// How an action went.
#[derive(Clone, Copy, PartialEq, Eq, Structural)]
pub enum StopEvent {
    /// The process was found alive, or not.
    Alive(bool),
    /// The signal was sent, or could not be.
    Signalled(bool),
    /// The action was carried out.
    Done,
}

/// How far a stop has come.
#[derive(Clone, Copy, PartialEq, Eq, Structural)]
pub enum StopPhase {
    Checking,
    Terminating,
    Polling,
    Sleeping,
    Killing,
    CleaningStale,
    CleaningStopped,
    CleaningKilled,
    Ended,
}

/// A stop of the daemon with this process id.
#[derive(Clone, Copy, PartialEq, Eq, Structural)]
pub struct StopSession {
    pub pid: u32,
    pub phase: StopPhase,
}

/// What to print, and what to do next.
pub struct StopStep {
    pub output: String,
    pub action: StopAction,
}

/// What a `StopStep` says.
pub struct StopStepView {
    pub output: Seq<char>,
    pub action: StopActionView,
}

impl View for StopStep {
    type V = StopStepView;

    open spec fn view(&self) -> StopStepView {
        StopStepView { output: self.output@, action: self.action@ }
    }
}

/// A step that prints nothing.
pub open spec fn silent_stop(action: StopActionView) -> StopStepView {
    StopStepView { output: ""@, action }
}

/// A line about the daemon's process: what precedes its id, the id, and what follows it.
pub open spec fn pid_line(before: Seq<char>, pid: u32, after: Seq<char>) -> Seq<char> {
    before + decimal(pid as nat) + after
}

/// Looking at the process once more, or killing it once `elapsed` nanoseconds have gone by since
/// it was asked to exit.
pub open spec fn stop_poll(pid: u32, elapsed: u64) -> (StopPhase, StopActionView) {
    if elapsed < STOP_TIMEOUT {
        (StopPhase::Polling, StopActionView::CheckAlive(signal_target(pid)))
    } else {
        (StopPhase::Killing, StopActionView::Kill(signal_target(pid)))
    }
}

/// How a stop goes on after `event`, `elapsed` nanoseconds after the process was asked to exit.
pub open spec fn stop_next(session: StopSession, event: StopEvent, elapsed: u64) -> (
    StopPhase,
    StopStepView,
) {
    let pid = session.pid;
    match (session.phase, event) {
        (StopPhase::Checking, StopEvent::Alive(alive)) => if alive {
            (StopPhase::Terminating, silent_stop(StopActionView::Terminate(signal_target(pid))))
        } else {
            (
                StopPhase::CleaningStale,
                StopStepView {
                    output: pid_line(
                        "daemon: stale pidfile (pid "@,
                        pid,
                        " not alive); cleaning up\n"@,
                    ),
                    action: StopActionView::RemovePid,
                },
            )
        },
        (StopPhase::Terminating, StopEvent::Signalled(true)) | (
            StopPhase::Sleeping,
            StopEvent::Done,
        ) => (stop_poll(pid, elapsed).0, silent_stop(stop_poll(pid, elapsed).1)),
        (StopPhase::Terminating, StopEvent::Signalled(false)) => (
            StopPhase::Ended,
            silent_stop(
                StopActionView::Fail(CtlErrorView::Outside(seq!["send SIGTERM"@])),
            ),
        ),
        (StopPhase::Polling, StopEvent::Alive(alive)) => if alive {
            (StopPhase::Sleeping, silent_stop(StopActionView::Sleep(STOP_PAUSE as nat)))
        } else {
            (StopPhase::CleaningStopped, silent_stop(StopActionView::RemovePidAndPort))
        },
        (StopPhase::Killing, StopEvent::Signalled(_)) => (
            StopPhase::CleaningKilled,
            silent_stop(StopActionView::RemovePidAndPort),
        ),
        (StopPhase::CleaningStale, StopEvent::Done) => (
            StopPhase::Ended,
            silent_stop(StopActionView::Finish),
        ),
        (StopPhase::CleaningStopped, StopEvent::Done) => (
            StopPhase::Ended,
            StopStepView {
                output: pid_line("daemon: stopped (pid "@, pid, ")\n"@),
                action: StopActionView::Finish,
            },
        ),
        (StopPhase::CleaningKilled, StopEvent::Done) => (
            StopPhase::Ended,
            StopStepView {
                output: pid_line("daemon: SIGKILLed (pid "@, pid, ")\n"@),
                action: StopActionView::Finish,
            },
        ),
        _ => (
            StopPhase::Ended,
            silent_stop(StopActionView::Fail(CtlErrorView::Outside(Seq::empty()))),
        ),
    }
}

fn silent(action: StopAction) -> (r: StopStep)
    ensures
        r@ == silent_stop(action@),
{
    StopStep { output: "".to_owned(), action }
}

fn telling(before: &str, pid: u32, after: &str, action: StopAction) -> (r: StopStep)
    ensures
        r@ == (StopStepView { output: pid_line(before@, pid, after@), action: action@ }),
{
    let mut output: String = before.to_owned();
    push_decimal(&mut output, pid as u64);
    output.append(after);
    StopStep { output, action }
}

/// Begins to stop the daemon whose process id is on record.
pub fn daemon_stop(pid: Option<u32>) -> (r: (Option<StopSession>, StopStep))
    ensures
        match pid {
            Some(id) => {
                &&& r.0 == Some(StopSession { pid: id, phase: StopPhase::Checking })
                &&& r.1@ == silent_stop(StopActionView::CheckAlive(signal_target(id)))
            },
            None => {
                &&& r.0 is None
                &&& r.1@ == (StopStepView {
                    output: "daemon: not running\n"@,
                    action: StopActionView::Finish,
                })
            },
        },
{
    match pid {
        Some(id) => (
            Some(StopSession { pid: id, phase: StopPhase::Checking }),
            silent(StopAction::CheckAlive(raw_pid(id))),
        ),
        None => (
            None,
            StopStep {
                output: "daemon: not running\n".to_owned(),
                action: StopAction::Finish,
            },
        ),
    }
}

impl StopSession {
    fn poll(self, elapsed: u64) -> (r: (StopSession, StopStep))
        ensures
            r.0.pid == self.pid,
            (r.0.phase, r.1@) == (
                stop_poll(self.pid, elapsed).0,
                silent_stop(stop_poll(self.pid, elapsed).1),
            ),
    {
        if elapsed < STOP_TIMEOUT {
            (
                StopSession { pid: self.pid, phase: StopPhase::Polling },
                silent(StopAction::CheckAlive(raw_pid(self.pid))),
            )
        } else {
            (
                StopSession { pid: self.pid, phase: StopPhase::Killing },
                silent(StopAction::Kill(raw_pid(self.pid))),
            )
        }
    }

    /// Goes on after `event`, `elapsed` nanoseconds after the process was asked to exit.
    pub fn step(self, event: StopEvent, elapsed: u64) -> (r: (StopSession, StopStep))
        ensures
            r.0.pid == self.pid,
            (r.0.phase, r.1@) == stop_next(self, event, elapsed),
    {
        let pid: u32 = self.pid;
        let (phase, step) = match (self.phase, event) {
            (StopPhase::Checking, StopEvent::Alive(alive)) => if alive {
                (StopPhase::Terminating, silent(StopAction::Terminate(raw_pid(pid))))
            } else {
                (
                    StopPhase::CleaningStale,
                    telling(
                        "daemon: stale pidfile (pid ",
                        pid,
                        " not alive); cleaning up\n",
                        StopAction::RemovePid,
                    ),
                )
            },
            (StopPhase::Terminating, StopEvent::Signalled(true)) => {
                return self.poll(elapsed);
            },
            (StopPhase::Sleeping, StopEvent::Done) => {
                return self.poll(elapsed);
            },
            (StopPhase::Terminating, StopEvent::Signalled(false)) => {
                let contexts: Vec<String> = vec!["send SIGTERM".to_owned()];
                assert(texts(contexts@) =~= seq!["send SIGTERM"@]);
                (StopPhase::Ended, silent(StopAction::Fail(CtlError::Outside(contexts))))
            },
            (StopPhase::Polling, StopEvent::Alive(alive)) => if alive {
                (StopPhase::Sleeping, silent(StopAction::Sleep(STOP_PAUSE)))
            } else {
                (StopPhase::CleaningStopped, silent(StopAction::RemovePidAndPort))
            },
            (StopPhase::Killing, StopEvent::Signalled(_)) => (
                StopPhase::CleaningKilled,
                silent(StopAction::RemovePidAndPort),
            ),
            (StopPhase::CleaningStale, StopEvent::Done) => (
                StopPhase::Ended,
                silent(StopAction::Finish),
            ),
            (StopPhase::CleaningStopped, StopEvent::Done) => (
                StopPhase::Ended,
                telling("daemon: stopped (pid ", pid, ")\n", StopAction::Finish),
            ),
            (StopPhase::CleaningKilled, StopEvent::Done) => (
                StopPhase::Ended,
                telling("daemon: SIGKILLed (pid ", pid, ")\n", StopAction::Finish),
            ),
            _ => {
                let contexts: Vec<String> = Vec::new();
                assert(texts(contexts@) =~= Seq::empty());
                (StopPhase::Ended, silent(StopAction::Fail(CtlError::Outside(contexts))))
            },
        };
        (StopSession { pid, phase }, step)
    }
}

/// Where a stop stands after `events`, each with the time that had gone by.
pub open spec fn stop_after(start: StopSession, events: Seq<(StopEvent, u64)>) -> StopSession
    decreases events.len(),
{
    if events.len() == 0 {
        start
    } else {
        let before = stop_after(start, events.drop_last());
        StopSession { pid: before.pid, phase: stop_next(before, events.last().0, events.last().1).0 }
    }
}

/// What a stop does at its `i`-th event.
pub open spec fn stop_at(
    start: StopSession,
    events: Seq<(StopEvent, u64)>,
    i: int,
) -> StopStepView {
    stop_next(stop_after(start, events.take(i)), events[i].0, events[i].1).1
}

/// Whether a stop took this action before its `n`-th event.
pub open spec fn stop_took(
    start: StopSession,
    events: Seq<(StopEvent, u64)>,
    n: int,
    action: StopActionView,
) -> bool {
    exists|j: int| 0 <= j < n && (#[trigger] stop_at(start, events, j)).action == action
}

/// A stop of the process `pid` that was just begun.
pub open spec fn fresh_stop(pid: u32) -> StopSession {
    StopSession { pid, phase: StopPhase::Checking }
}

proof fn lemma_stop_history(pid: u32, events: Seq<(StopEvent, u64)>, n: int)
    requires
        0 <= n <= events.len(),
    ensures
        ({
            let start = fresh_stop(pid);
            let now = stop_after(start, events.take(n));
            let phase = now.phase;
            &&& now.pid == pid
            &&& phase is Polling || phase is Sleeping || phase is Killing || phase
                is CleaningStopped || phase is CleaningKilled || phase is Terminating ==> stop_took(
                start,
                events,
                n,
                StopActionView::Terminate(signal_target(pid)),
            )
            &&& phase is CleaningStopped || phase is CleaningKilled ==> stop_took(
                start,
                events,
                n,
                StopActionView::RemovePidAndPort,
            )
            &&& phase is CleaningStopped ==> exists|j: int|
                0 <= j < n && (#[trigger] events[j]).0 == StopEvent::Alive(false)
            &&& phase is Killing || phase is CleaningKilled ==> stop_took(
                start,
                events,
                n,
                StopActionView::Kill(signal_target(pid)),
            )
            &&& phase is CleaningStale ==> stop_took(start, events, n, StopActionView::RemovePid)
            &&& phase is Checking || phase is CleaningStale ==> !stop_took(
                start,
                events,
                n,
                StopActionView::Terminate(signal_target(pid)),
            )
        }),
    decreases n,
{
    let start = fresh_stop(pid);
    if n > 0 {
        lemma_stop_history(pid, events, n - 1);
        assert(events.take(n).drop_last() =~= events.take(n - 1));
        assert(events.take(n).last() == events[n - 1]);
        let before = stop_after(start, events.take(n - 1));
        let step = stop_at(start, events, n - 1);
        assert(forall|action: StopActionView|
            stop_took(start, events, n - 1, action) ==> stop_took(start, events, n, action));
        assert(stop_took(start, events, n, step.action));
        assert forall|action: StopActionView| stop_took(start, events, n, action) implies stop_took(
            start,
            events,
            n - 1,
            action,
        ) || action == step.action by {
            let j = choose|j: int|
                0 <= j < n && (#[trigger] stop_at(start, events, j)).action == action;
            if j < n - 1 {
                assert(stop_at(start, events, j).action == action);
            }
        }
    } else {
        assert(events.take(0) =~= Seq::empty());
    }
}

/// The daemon is killed only where it was asked to exit first and had its time to do so.
pub proof fn law_kill_comes_last(pid: u32, events: Seq<(StopEvent, u64)>, i: int)
    requires
        0 <= i < events.len(),
        stop_at(fresh_stop(pid), events, i).action is Kill,
    ensures
        events[i].1 >= STOP_TIMEOUT,
        stop_took(fresh_stop(pid), events, i, StopActionView::Terminate(signal_target(pid))),
{
    lemma_stop_history(pid, events, i);
}

/// A stop that succeeds leaves no pid file behind, and no port file where there was a daemon to
/// stop.
pub proof fn law_stop_cleans_up(pid: u32, events: Seq<(StopEvent, u64)>, i: int)
    requires
        0 <= i < events.len(),
        stop_at(fresh_stop(pid), events, i).action is Finish,
    ensures
        stop_took(fresh_stop(pid), events, i, StopActionView::RemovePid) || stop_took(
            fresh_stop(pid),
            events,
            i,
            StopActionView::RemovePidAndPort,
        ),
        stop_took(fresh_stop(pid), events, i, StopActionView::Terminate(signal_target(pid)))
            ==> stop_took(fresh_stop(pid), events, i, StopActionView::RemovePidAndPort),
{
    lemma_stop_history(pid, events, i);
}

/// The daemon is said to have stopped only after it was seen not to be alive, and to have been
/// killed only after it was.
pub proof fn law_stop_tells_the_truth(pid: u32, events: Seq<(StopEvent, u64)>, i: int)
    requires
        0 <= i < events.len(),
        stop_at(fresh_stop(pid), events, i).action is Finish,
    ensures
        stop_at(fresh_stop(pid), events, i).output == pid_line(
            "daemon: stopped (pid "@,
            pid,
            ")\n"@,
        ) ==> exists|j: int| 0 <= j < i && (#[trigger] events[j]).0 == StopEvent::Alive(false),
        stop_at(fresh_stop(pid), events, i).output == pid_line(
            "daemon: SIGKILLed (pid "@,
            pid,
            ")\n"@,
        ) ==> stop_took(fresh_stop(pid), events, i, StopActionView::Kill(signal_target(pid))),
{
    lemma_stop_history(pid, events, i);
    reveal_strlit("");
    reveal_strlit("daemon: stopped (pid ");
    reveal_strlit("daemon: SIGKILLed (pid ");
    let stopped = pid_line("daemon: stopped (pid "@, pid, ")\n"@);
    let killed = pid_line("daemon: SIGKILLed (pid "@, pid, ")\n"@);
    assert(stopped[8] == 's');
    assert(killed[8] == 'S');
    assert(""@.len() == 0);
    assert(stopped != killed);
    assert(killed != ""@);
    let phase = stop_after(fresh_stop(pid), events.take(i)).phase;
    assert(phase is CleaningStale || phase is CleaningStopped || phase is CleaningKilled);
}

/// A stop looks at, asks and kills the process whose id is on record and no other.
pub proof fn law_stop_keeps_to_the_recorded_process(
    session: StopSession,
    event: StopEvent,
    elapsed: u64,
    r: (StopSession, StopStep),
)
    requires
        call_ensures(StopSession::step, (session, event, elapsed), r),
    ensures
        r.0.pid == session.pid,
        match r.1.action {
            StopAction::CheckAlive(target) | StopAction::Terminate(target) | StopAction::Kill(
                target,
            ) => target as int == session.pid || target + 0x1_0000_0000 == session.pid,
            _ => true,
        },
{
}

/// A stop begins with a look at the recorded process; without one there is nothing to stop.
pub proof fn law_stop_begins_with_a_look(pid: Option<u32>, r: (Option<StopSession>, StopStep))
    requires
        call_ensures(daemon_stop, (pid,), r),
    ensures
        pid is None ==> r.0 is None && r.1.action is Finish && r.1.output@
            == "daemon: not running\n"@,
        pid matches Some(id) ==> {
            &&& r.0 matches Some(session) && session.pid == id && session.phase is Checking
            &&& r.1.action matches StopAction::CheckAlive(target) && (target as int == id || target
                + 0x1_0000_0000 == id)
            &&& r.1.output@ == ""@
        },
{
}

/// A process that is alive is asked to exit; of one that is not, only the stale pid file is
/// removed, and that is told.
pub proof fn law_only_a_live_daemon_is_asked_to_exit(
    session: StopSession,
    alive: bool,
    elapsed: u64,
    r: (StopSession, StopStep),
)
    requires
        call_ensures(StopSession::step, (session, StopEvent::Alive(alive), elapsed), r),
        session.phase is Checking,
    ensures
        alive ==> r.1.action is Terminate && r.0.phase is Terminating && r.1.output@ == ""@,
        !alive ==> r.1.action is RemovePid && r.0.phase is CleaningStale && r.1.output@
            == "daemon: stale pidfile (pid "@ + decimal(session.pid as nat)
            + " not alive); cleaning up\n"@,
{
}

/// A process that could not be asked to exit fails the stop; one that was asked has five seconds
/// in which it is looked at again and again, and is killed once they are over.
pub proof fn law_five_seconds_to_exit(
    session: StopSession,
    event: StopEvent,
    elapsed: u64,
    r: (StopSession, StopStep),
)
    requires
        call_ensures(StopSession::step, (session, event, elapsed), r),
    ensures
        session.phase is Terminating && event == StopEvent::Signalled(false) ==> r.0.phase
            is Ended && (r.1.action matches StopAction::Fail(CtlError::Outside(contexts))
            && contexts@.len() == 1 && contexts@[0]@ == "send SIGTERM"@),
        ((session.phase is Terminating && event == StopEvent::Signalled(true)) || (session.phase
            is Sleeping && event is Done)) && elapsed < 5_000_000_000 ==> r.1.action is CheckAlive
            && r.0.phase is Polling && r.1.output@ == ""@,
        ((session.phase is Terminating && event == StopEvent::Signalled(true)) || (session.phase
            is Sleeping && event is Done)) && elapsed >= 5_000_000_000 ==> r.1.action is Kill
            && r.0.phase is Killing && r.1.output@ == ""@,
        session.phase is Polling && event == StopEvent::Alive(true) ==> r.1.action
            == StopAction::Sleep(100) && r.0.phase is Sleeping && r.1.output@ == ""@,
{
    if session.phase is Terminating && event == StopEvent::Signalled(false) {
        assert(r.1@.action == StopActionView::Fail(CtlErrorView::Outside(seq!["send SIGTERM"@])));
        match r.1.action {
            StopAction::Fail(CtlError::Outside(contexts)) => {
                let told = texts(contexts@);
                assert(told.len() == contexts@.len());
                assert(told[0] == contexts@[0]@);
            },
            _ => {},
        }
    }
}

/// Once the daemon has exited or was killed, both its files are removed and then it is told which
/// of the two it was; of a stale pid file nothing more is told.
pub proof fn law_a_stop_ends_with_its_report(
    session: StopSession,
    event: StopEvent,
    elapsed: u64,
    r: (StopSession, StopStep),
)
    requires
        call_ensures(StopSession::step, (session, event, elapsed), r),
    ensures
        session.phase is Polling && event == StopEvent::Alive(false) ==> r.1.action
            is RemovePidAndPort && r.0.phase is CleaningStopped && r.1.output@ == ""@,
        session.phase is Killing && event is Signalled ==> r.1.action is RemovePidAndPort
            && r.0.phase is CleaningKilled && r.1.output@ == ""@,
        event is Done && session.phase is CleaningStopped ==> r.1.action is Finish && r.1.output@
            == "daemon: stopped (pid "@ + decimal(session.pid as nat) + ")\n"@,
        event is Done && session.phase is CleaningKilled ==> r.1.action is Finish && r.1.output@
            == "daemon: SIGKILLed (pid "@ + decimal(session.pid as nat) + ")\n"@,
        event is Done && session.phase is CleaningStale ==> r.1.action is Finish && r.1.output@
            == ""@,
{
}

} // verus!
