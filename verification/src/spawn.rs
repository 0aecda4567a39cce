//! Launching the daemon and waiting until it answers.
use vstd::prelude::*;
use vstd::string::*;

use crate::daemon::{
    listen_address, listen_url, number_file, number_line, READY_PAUSE, READY_TIMEOUT,
};
use crate::error::{texts, CtlError, CtlErrorView};
use crate::paths::{daemon_log_path, joined};
use crate::text::{decimal, opt_text, push_decimal};

verus! {

/// What a standard stream of a process is tied to.
#[derive(Clone, Copy, PartialEq, Eq, Structural)]
pub enum StreamEnd {
    /// Nothing: there is nothing to read, and what is written is lost.
    Null,
    /// The log file.
    Log,
}

/// A process to launch: a program, its arguments, a variable to set in its environment, with its
/// value, where there is one, and its standard streams.
pub struct Launch {
    pub program: String,
    pub args: Vec<String>,
    pub variable: Option<(String, String)>,
    pub stdin: StreamEnd,
    pub stdout: StreamEnd,
    pub stderr: StreamEnd,
}

/// What a `Launch` says.
pub struct LaunchView {
    pub program: Seq<char>,
    pub args: Seq<Seq<char>>,
    pub variable: Option<(Seq<char>, Seq<char>)>,
    pub stdin: StreamEnd,
    pub stdout: StreamEnd,
    pub stderr: StreamEnd,
}

impl View for Launch {
    type V = LaunchView;

    open spec fn view(&self) -> LaunchView {
        LaunchView {
            program: self.program@,
            args: texts(self.args@),
            variable: match self.variable {
                Some((name, value)) => Some((name@, value@)),
                None => None,
            },
            stdin: self.stdin,
            stdout: self.stdout,
            stderr: self.stderr,
        }
    }
}

/// How a file is to be opened.
pub struct OpenFile {
    pub path: Vec<u8>,
    /// Whether it is created where there is none.
    pub create: bool,
    /// Whether what is written goes after what the file holds, which is kept.
    pub append: bool,
}

/// What an `OpenFile` says.
pub struct OpenFileView {
    pub path: Seq<u8>,
    pub create: bool,
    pub append: bool,
}

impl View for OpenFile {
    type V = OpenFileView;

    open spec fn view(&self) -> OpenFileView {
        OpenFileView { path: self.path@, create: self.create, append: self.append }
    }
}

/// What is to be done next.
pub enum SpawnAction {
    /// Open the log file.
    OpenLog(OpenFile),
    /// Take a second handle on the log file.
    ShareLog,
    /// Create this directory with those above it, if that can be done.
    MakeDir(String),
    /// Launch this process, with its streams tied as it says.
    Launch(Launch),
    /// Write this to the pid file.
    WritePid(String),
    /// Write this to the port file.
    WritePort(String),
    /// See whether something answers on this port of the local host, within `PROBE_TIMEOUT`.
    Probe(u16),
    /// Wait for this many milliseconds.
    Sleep(u64),
    /// Nothing more; the daemon answers.
    Finish,
    /// Nothing more; the daemon could not be had.
    Fail(CtlError),
}

/// What a `SpawnAction` asks for.
pub enum SpawnActionView {
    OpenLog(OpenFileView),
    ShareLog,
    MakeDir(Seq<char>),
    Launch(LaunchView),
    WritePid(Seq<char>),
    WritePort(Seq<char>),
    Probe(u16),
    Sleep(u64),
    Finish,
    Fail(CtlErrorView),
}

impl View for SpawnAction {
    type V = SpawnActionView;

    open spec fn view(&self) -> SpawnActionView {
        match self {
            SpawnAction::OpenLog(file) => SpawnActionView::OpenLog(file@),
            SpawnAction::ShareLog => SpawnActionView::ShareLog,
            SpawnAction::MakeDir(path) => SpawnActionView::MakeDir(path@),
            SpawnAction::Launch(launch) => SpawnActionView::Launch(launch@),
            SpawnAction::WritePid(line) => SpawnActionView::WritePid(line@),
            SpawnAction::WritePort(line) => SpawnActionView::WritePort(line@),
            SpawnAction::Probe(port) => SpawnActionView::Probe(*port),
            SpawnAction::Sleep(millis) => SpawnActionView::Sleep(*millis),
            SpawnAction::Finish => SpawnActionView::Finish,
            SpawnAction::Fail(e) => SpawnActionView::Fail(e@),
        }
    }
}

/// How an action went.
#[derive(Clone, Copy, PartialEq, Eq, Structural)]
pub enum SpawnEvent {
    /// The action was carried out.
    Done,
    /// The action failed.
    Failed,
    /// The process was launched and has this id.
    Launched(u32),
    /// Something answered, or nothing did.
    Answered(bool),
}

/// How far a launch has come.
#[derive(Clone, Copy, PartialEq, Eq, Structural)]
pub enum SpawnPhase {
    OpeningLog,
    SharingLog,
    MakingDir,
    Launching,
    WritingPid,
    WritingPort,
    Probing,
    Sleeping,
    Ended,
}

/// A launch of the daemon on a port, with the directory for its database, where the user named
/// one, and the log file as it is shown to the user.
pub struct SpawnSession {
    pub port: u16,
    pub sqlite_home: Option<String>,
    pub log: String,
    pub phase: SpawnPhase,
}

/// What a `SpawnSession` says.
pub struct SpawnView {
    pub port: u16,
    pub sqlite_home: Option<Seq<char>>,
    pub log: Seq<char>,
    pub phase: SpawnPhase,
}

impl View for SpawnSession {
    type V = SpawnView;

    open spec fn view(&self) -> SpawnView {
        SpawnView {
            port: self.port,
            sqlite_home: opt_text(self.sqlite_home),
            log: self.log@,
            phase: self.phase,
        }
    }
}

/// What to print, and what to do next.
pub struct SpawnStep {
    pub output: String,
    pub action: SpawnAction,
}

/// What a `SpawnStep` says.
pub struct SpawnStepView {
    pub output: Seq<char>,
    pub action: SpawnActionView,
}

impl View for SpawnStep {
    type V = SpawnStepView;

    open spec fn view(&self) -> SpawnStepView {
        SpawnStepView { output: self.output@, action: self.action@ }
    }
}

/// A step that prints nothing.
pub open spec fn silent_spawn(action: SpawnActionView) -> SpawnStepView {
    SpawnStepView { output: ""@, action }
}

/// How the log file in `dir` is opened: it is created where there is none, and what it holds is
/// kept.
pub open spec fn log_file(dir: Seq<u8>) -> OpenFileView {
    OpenFileView { path: joined(dir, "daemon.log"@), create: true, append: true }
}

/// The app-server's process: it listens on `port`, has goals switched on, and keeps its database
/// in `sqlite_home` where the user named that, else where it always does. It gets no input, and
/// both its outputs go to the log file.
pub open spec fn app_server_view(port: u16, sqlite_home: Option<Seq<char>>) -> LaunchView {
    LaunchView {
        program: "codex"@,
        args: seq![
            "app-server"@,
            "--listen"@,
            listen_address(port),
            "-c"@,
            "features.goals=true"@,
        ],
        variable: match sqlite_home {
            Some(path) => Some(("CODEX_SQLITE_HOME"@, path)),
            None => None,
        },
        stdin: StreamEnd::Null,
        stdout: StreamEnd::Log,
        stderr: StreamEnd::Log,
    }
}

/// The failure of a step, under the given descriptions.
pub open spec fn spawn_failure(contexts: Seq<Seq<char>>) -> (SpawnPhase, SpawnStepView) {
    (SpawnPhase::Ended, silent_spawn(SpawnActionView::Fail(CtlErrorView::Outside(contexts))))
}

/// Looking for an answer once more, or giving up once `elapsed` nanoseconds have gone by.
pub open spec fn spawn_poll(port: u16, log: Seq<char>, elapsed: u64) -> (
    SpawnPhase,
    SpawnStepView,
) {
    if elapsed < READY_TIMEOUT {
        (SpawnPhase::Probing, silent_spawn(SpawnActionView::Probe(port)))
    } else {
        (SpawnPhase::Ended, silent_spawn(SpawnActionView::Fail(CtlErrorView::NotReady(log))))
    }
}

/// How a launch goes on after `event`, `elapsed` nanoseconds after the port file was written.
pub open spec fn spawn_next(session: SpawnView, event: SpawnEvent, elapsed: u64) -> (
    SpawnPhase,
    SpawnStepView,
) {
    let port = session.port;
    match (session.phase, event) {
        (SpawnPhase::OpeningLog, SpawnEvent::Done) => (
            SpawnPhase::SharingLog,
            silent_spawn(SpawnActionView::ShareLog),
        ),
        (SpawnPhase::OpeningLog, SpawnEvent::Failed) => spawn_failure(
            seq!["open log "@ + session.log],
        ),
        (SpawnPhase::SharingLog, SpawnEvent::Done) => match session.sqlite_home {
            Some(path) => (
                SpawnPhase::MakingDir,
                silent_spawn(SpawnActionView::MakeDir(path)),
            ),
            None => (
                SpawnPhase::Launching,
                silent_spawn(SpawnActionView::Launch(app_server_view(port, None))),
            ),
        },
        (SpawnPhase::MakingDir, SpawnEvent::Done) | (SpawnPhase::MakingDir, SpawnEvent::Failed) => (
            SpawnPhase::Launching,
            silent_spawn(SpawnActionView::Launch(app_server_view(port, session.sqlite_home))),
        ),
        (SpawnPhase::Launching, SpawnEvent::Launched(pid)) => (
            SpawnPhase::WritingPid,
            silent_spawn(SpawnActionView::WritePid(number_line(pid as nat))),
        ),
        (SpawnPhase::Launching, SpawnEvent::Failed) => spawn_failure(
            seq!["spawn codex app-server"@],
        ),
        (SpawnPhase::WritingPid, SpawnEvent::Done) => (
            SpawnPhase::WritingPort,
            silent_spawn(SpawnActionView::WritePort(number_line(port as nat))),
        ),
        (SpawnPhase::WritingPort, SpawnEvent::Done) | (SpawnPhase::Sleeping, SpawnEvent::Done) =>
            spawn_poll(port, session.log, elapsed),
        (SpawnPhase::Probing, SpawnEvent::Answered(true)) => (
            SpawnPhase::Ended,
            SpawnStepView {
                output: "daemon: started on port "@ + decimal(port as nat) + "\n"@,
                action: SpawnActionView::Finish,
            },
        ),
        (SpawnPhase::Probing, SpawnEvent::Answered(false)) => (
            SpawnPhase::Sleeping,
            silent_spawn(SpawnActionView::Sleep(READY_PAUSE)),
        ),
        _ => spawn_failure(Seq::empty()),
    }
}

fn silent(action: SpawnAction) -> (r: SpawnStep)
    ensures
        r@ == silent_spawn(action@),
{
    SpawnStep { output: "".to_owned(), action }
}

/// The app-server's process.
pub fn app_server(port: u16, sqlite_home: &Option<String>) -> (r: Launch)
    ensures
        r@ == app_server_view(port, opt_text(*sqlite_home)),
{
    let args: Vec<String> = vec![
        "app-server".to_owned(),
        "--listen".to_owned(),
        listen_url(port),
        "-c".to_owned(),
        "features.goals=true".to_owned(),
    ];
    assert(texts(args@) =~= app_server_view(port, opt_text(*sqlite_home)).args);
    Launch {
        program: "codex".to_owned(),
        args,
        variable: match sqlite_home {
            Some(path) => Some(("CODEX_SQLITE_HOME".to_owned(), path.clone())),
            None => None,
        },
        stdin: StreamEnd::Null,
        stdout: StreamEnd::Log,
        stderr: StreamEnd::Log,
    }
}

/// Begins to launch a daemon on `port`. Its database goes to the directory that the user named in
/// the environment, if any; its output goes to the log file in `config_dir`, which is shown to the
/// user as `log`.
pub fn spawn_daemon(port: u16, named: Option<String>, config_dir: &[u8], log: String) -> (r: (
    SpawnSession,
    SpawnStep,
))
    ensures
        r.0@ == (SpawnView {
            port,
            sqlite_home: opt_text(named),
            log: log@,
            phase: SpawnPhase::OpeningLog,
        }),
        r.1@ == silent_spawn(SpawnActionView::OpenLog(log_file(config_dir@))),
{
    (
        SpawnSession { port, sqlite_home: named, log, phase: SpawnPhase::OpeningLog },
        silent(
            SpawnAction::OpenLog(
                OpenFile { path: daemon_log_path(config_dir), create: true, append: true },
            ),
        ),
    )
}

fn fail_under(contexts: Vec<String>) -> (r: (SpawnPhase, SpawnStep))
    ensures
        (r.0, r.1@) == spawn_failure(texts(contexts@)),
{
    (SpawnPhase::Ended, silent(SpawnAction::Fail(CtlError::Outside(contexts))))
}

impl SpawnSession {
    fn poll(&self, elapsed: u64) -> (r: (SpawnPhase, SpawnStep))
        ensures
            (r.0, r.1@) == spawn_poll(self.port, self.log@, elapsed),
    {
        if elapsed < READY_TIMEOUT {
            (SpawnPhase::Probing, silent(SpawnAction::Probe(self.port)))
        } else {
            (
                SpawnPhase::Ended,
                silent(SpawnAction::Fail(CtlError::NotReady(self.log.clone()))),
            )
        }
    }

    /// Goes on after `event`, `elapsed` nanoseconds after the port file was written.
    pub fn step(self, event: SpawnEvent, elapsed: u64) -> (r: (SpawnSession, SpawnStep))
        ensures
            (r.0@.phase, r.1@) == spawn_next(self@, event, elapsed),
            r.0@ == (SpawnView { phase: r.0@.phase, ..self@ }),
    {
        let port: u16 = self.port;
        let (phase, step) = match (self.phase, event) {
            (SpawnPhase::OpeningLog, SpawnEvent::Done) => (
                SpawnPhase::SharingLog,
                silent(SpawnAction::ShareLog),
            ),
            (SpawnPhase::OpeningLog, SpawnEvent::Failed) => {
                let mut context: String = "open log ".to_owned();
                context.append(self.log.as_str());
                let contexts: Vec<String> = vec![context];
                assert(texts(contexts@) =~= seq!["open log "@ + self.log@]);
                fail_under(contexts)
            },
            (SpawnPhase::SharingLog, SpawnEvent::Done) => match &self.sqlite_home {
                Some(path) => (
                    SpawnPhase::MakingDir,
                    silent(SpawnAction::MakeDir(path.clone())),
                ),
                None => (
                    SpawnPhase::Launching,
                    silent(SpawnAction::Launch(app_server(port, &None))),
                ),
            },
            (SpawnPhase::MakingDir, SpawnEvent::Done) | (
                SpawnPhase::MakingDir,
                SpawnEvent::Failed,
            ) => (
                SpawnPhase::Launching,
                silent(SpawnAction::Launch(app_server(port, &self.sqlite_home))),
            ),
            (SpawnPhase::Launching, SpawnEvent::Launched(pid)) => {
                (SpawnPhase::WritingPid, silent(SpawnAction::WritePid(number_file(pid as u64))))
            },
            (SpawnPhase::Launching, SpawnEvent::Failed) => {
                let contexts: Vec<String> = vec!["spawn codex app-server".to_owned()];
                assert(texts(contexts@) =~= seq!["spawn codex app-server"@]);
                fail_under(contexts)
            },
            (SpawnPhase::WritingPid, SpawnEvent::Done) => {
                (SpawnPhase::WritingPort, silent(SpawnAction::WritePort(number_file(port as u64))))
            },
            (SpawnPhase::WritingPort, SpawnEvent::Done) | (
                SpawnPhase::Sleeping,
                SpawnEvent::Done,
            ) => self.poll(elapsed),
            (SpawnPhase::Probing, SpawnEvent::Answered(true)) => {
                let mut output: String = "daemon: started on port ".to_owned();
                push_decimal(&mut output, port as u64);
                output.append("\n");
                (SpawnPhase::Ended, SpawnStep { output, action: SpawnAction::Finish })
            },
            (SpawnPhase::Probing, SpawnEvent::Answered(false)) => (
                SpawnPhase::Sleeping,
                silent(SpawnAction::Sleep(READY_PAUSE)),
            ),
            _ => {
                let contexts: Vec<String> = Vec::new();
                assert(texts(contexts@) =~= Seq::empty());
                fail_under(contexts)
            },
        };
        (SpawnSession { phase, ..self }, step)
    }
}

/// A launch is said to have succeeded only where the daemon answered.
pub proof fn law_started_means_answered(session: SpawnView, event: SpawnEvent, elapsed: u64)
    requires
        spawn_next(session, event, elapsed).1.action is Finish,
    ensures
        session.phase == SpawnPhase::Probing,
        event == SpawnEvent::Answered(true),
{
}

/// A daemon is given up for not answering only once its time is over.
pub proof fn law_patience(session: SpawnView, event: SpawnEvent, elapsed: u64)
    requires
        spawn_next(session, event, elapsed).1.action matches SpawnActionView::Fail(e)
            && e is NotReady,
    ensures
        elapsed >= READY_TIMEOUT,
{
}

/// What is launched is the app-server on the port of the launch, without input and with both its
/// outputs going to the log file; nothing else is ever launched, and the log file is not opened
/// again.
pub proof fn law_only_the_app_server_is_launched(
    session: SpawnView,
    event: SpawnEvent,
    elapsed: u64,
)
    ensures
        spawn_next(session, event, elapsed).1.action matches SpawnActionView::Launch(launch)
            ==> launch == app_server_view(session.port, session.sqlite_home) && launch.stdin
            == StreamEnd::Null && launch.stdout == StreamEnd::Log && launch.stderr
            == StreamEnd::Log,
        !(spawn_next(session, event, elapsed).1.action is OpenLog),
{
}

/// Where codex keeps its database is left alone unless the user named a directory for it: then,
/// and only then, that directory is created and the process told of it.
pub proof fn law_database_is_where_the_user_says(
    session: SpawnView,
    event: SpawnEvent,
    elapsed: u64,
)
    ensures
        match spawn_next(session, event, elapsed).1.action {
            SpawnActionView::MakeDir(dir) => session.sqlite_home == Some(dir),
            SpawnActionView::Launch(launch) => launch.variable == match session.sqlite_home {
                Some(dir) => Some(("CODEX_SQLITE_HOME"@, dir)),
                None => None,
            },
            _ => true,
        },
{
}

/// Where a launch stands after `events`, each with the time that had gone by.
pub open spec fn spawn_after(start: SpawnView, events: Seq<(SpawnEvent, u64)>) -> SpawnView
    decreases events.len(),
{
    if events.len() == 0 {
        start
    } else {
        let before = spawn_after(start, events.drop_last());
        SpawnView { phase: spawn_next(before, events.last().0, events.last().1).0, ..before }
    }
}

/// What a launch does at its `i`-th event.
pub open spec fn spawn_at(
    start: SpawnView,
    events: Seq<(SpawnEvent, u64)>,
    i: int,
) -> SpawnStepView {
    spawn_next(spawn_after(start, events.take(i)), events[i].0, events[i].1).1
}

/// Whether the process that was launched before the `n`-th event was put on record.
pub open spec fn pid_on_record(start: SpawnView, events: Seq<(SpawnEvent, u64)>, n: int) -> bool {
    exists|j: int|
        0 <= j && j + 1 < n && recorded_pid(events[j].0, #[trigger] spawn_at(start, events, j))
            && events[j + 1].0 == SpawnEvent::Done
}

/// Whether a step writes the id of the process whose launch `event` reports to the pid file.
pub open spec fn recorded_pid(event: SpawnEvent, step: SpawnStepView) -> bool {
    match event {
        SpawnEvent::Launched(pid) => step.action == SpawnActionView::WritePid(
            number_line(pid as nat),
        ),
        _ => false,
    }
}

/// Whether the port was put on record before the `n`-th event.
pub open spec fn port_on_record(start: SpawnView, events: Seq<(SpawnEvent, u64)>, n: int) -> bool {
    exists|j: int|
        0 <= j && j + 1 < n && (#[trigger] spawn_at(start, events, j)).action
            == SpawnActionView::WritePort(number_line(start.port as nat)) && events[j + 1].0
            == SpawnEvent::Done
}

proof fn lemma_spawn_history(start: SpawnView, events: Seq<(SpawnEvent, u64)>, n: int)
    requires
        0 <= n <= events.len(),
        start.phase == SpawnPhase::OpeningLog,
    ensures
        ({
            let now = spawn_after(start, events.take(n));
            let phase = now.phase;
            &&& now == (SpawnView { phase, ..start })
            &&& phase is WritingPid ==> n > 0 && recorded_pid(
                events[n - 1].0,
                spawn_at(start, events, n - 1),
            )
            &&& phase is WritingPort ==> n > 0 && pid_on_record(start, events, n) && spawn_at(
                start,
                events,
                n - 1,
            ).action == SpawnActionView::WritePort(number_line(start.port as nat))
            &&& phase is Probing || phase is Sleeping ==> pid_on_record(start, events, n)
                && port_on_record(start, events, n)
        }),
    decreases n,
{
    if n > 0 {
        lemma_spawn_history(start, events, n - 1);
        assert(events.take(n).drop_last() =~= events.take(n - 1));
        assert(events.take(n).last() == events[n - 1]);
        let before = spawn_after(start, events.take(n - 1));
        let step = spawn_at(start, events, n - 1);
        if before.phase is WritingPid && events[n - 1].0 is Done {
            assert(recorded_pid(events[n - 2].0, spawn_at(start, events, n - 2)));
            assert(pid_on_record(start, events, n));
        }
        if before.phase is WritingPort && events[n - 1].0 is Done {
            assert(spawn_at(start, events, n - 2).action == SpawnActionView::WritePort(
                number_line(start.port as nat),
            ));
            assert(port_on_record(start, events, n));
        }
        assert(pid_on_record(start, events, n - 1) ==> pid_on_record(start, events, n));
        assert(port_on_record(start, events, n - 1) ==> port_on_record(start, events, n));
    } else {
        assert(events.take(0) =~= Seq::empty());
    }
}

/// A launch that has come this far comes to launch no process any more.
pub open spec fn past_launch(phase: SpawnPhase) -> bool {
    !(phase is OpeningLog || phase is SharingLog || phase is MakingDir)
}

proof fn lemma_stays_past_launch(
    start: SpawnView,
    events: Seq<(SpawnEvent, u64)>,
    n: int,
    m: int,
)
    requires
        0 <= n <= m <= events.len(),
        past_launch(spawn_after(start, events.take(n)).phase),
    ensures
        past_launch(spawn_after(start, events.take(m)).phase),
    decreases m - n,
{
    if n < m {
        lemma_stays_past_launch(start, events, n, m - 1);
        assert(events.take(m).drop_last() =~= events.take(m - 1));
    }
}

/// One process is launched at most, whatever happens.
pub proof fn law_launched_once(
    start: SpawnView,
    events: Seq<(SpawnEvent, u64)>,
    i: int,
    j: int,
)
    requires
        0 <= i < j < events.len(),
        spawn_at(start, events, i).action is Launch,
    ensures
        !(spawn_at(start, events, j).action is Launch),
{
    assert(events.take(i + 1).drop_last() =~= events.take(i));
    assert(events.take(i + 1).last() == events[i]);
    lemma_stays_past_launch(start, events, i + 1, j);
}

/// Before the daemon is first asked for an answer, its files tell of it: the pid file holds the
/// id of the process that was launched, and the port file the port that it was given.
pub proof fn law_recorded_before_probed(
    start: SpawnView,
    events: Seq<(SpawnEvent, u64)>,
    i: int,
)
    requires
        0 <= i < events.len(),
        start.phase == SpawnPhase::OpeningLog,
        spawn_at(start, events, i).action is Probe,
    ensures
        pid_on_record(start, events, i + 1),
        port_on_record(start, events, i + 1),
{
    lemma_spawn_history(start, events, i + 1);
    assert(events.take(i + 1).drop_last() =~= events.take(i));
    assert(events.take(i + 1).last() == events[i]);
}

/// The daemon is launched to listen on the very port that the same launch records and probes.
pub proof fn law_listens_where_it_is_looked_for(
    session: SpawnSession,
    event: SpawnEvent,
    elapsed: u64,
    r: (SpawnSession, SpawnStep),
)
    requires
        call_ensures(SpawnSession::step, (session, event, elapsed), r),
    ensures
        r.0.port == session.port,
        match r.1.action {
            SpawnAction::Launch(launch) => {
                &&& launch.program@ == "codex"@
                &&& launch.args@.len() == 5
                &&& launch.args@[0]@ == "app-server"@
                &&& launch.args@[1]@ == "--listen"@
                &&& launch.args@[2]@ == "ws://127.0.0.1:"@ + decimal(session.port as nat)
                &&& launch.args@[3]@ == "-c"@
                &&& launch.args@[4]@ == "features.goals=true"@
                &&& launch.stdin == StreamEnd::Null
                &&& launch.stdout == StreamEnd::Log
                &&& launch.stderr == StreamEnd::Log
            },
            SpawnAction::WritePid(line) => event matches SpawnEvent::Launched(pid) && line@
                == decimal(pid as nat) + "\n"@,
            SpawnAction::WritePort(line) => line@ == decimal(session.port as nat) + "\n"@,
            SpawnAction::Probe(port) => port == session.port,
            SpawnAction::Finish => r.1.output@ == "daemon: started on port "@ + decimal(
                session.port as nat,
            ) + "\n"@,
            _ => true,
        },
        !(r.1.action is Finish) ==> r.1.output@ == ""@,
{
    match r.1.action {
        SpawnAction::Launch(launch) => {
            let all = app_server_view(session.port, opt_text(session.sqlite_home));
            assert(launch@ == all);
            assert(texts(launch.args@) == all.args);
            assert(texts(launch.args@)[0] == all.args[0]);
            assert(texts(launch.args@)[1] == all.args[1]);
            assert(texts(launch.args@)[2] == all.args[2]);
            assert(texts(launch.args@)[3] == all.args[3]);
            assert(texts(launch.args@)[4] == all.args[4]);
        },
        _ => {},
    }
}

/// The database goes where the user says: where a directory is named, it is created and handed
/// to the process; where none is, nothing is said of it.
pub proof fn law_named_database_is_handed_on(
    session: SpawnSession,
    event: SpawnEvent,
    elapsed: u64,
    r: (SpawnSession, SpawnStep),
)
    requires
        call_ensures(SpawnSession::step, (session, event, elapsed), r),
    ensures
        opt_text(r.0.sqlite_home) == opt_text(session.sqlite_home),
        r.1.action matches SpawnAction::MakeDir(dir) ==> (session.sqlite_home matches Some(named)
            && named@ == dir@),
        r.1.action matches SpawnAction::Launch(launch) ==> match session.sqlite_home {
            Some(named) => launch.variable matches Some((name, value)) && name@
                == "CODEX_SQLITE_HOME"@ && value@ == named@,
            None => launch.variable is None,
        },
{
}

/// A launch takes its steps in their order, one for each that went well: open the log, share it,
/// create a named directory, launch, record the process and the port.
pub proof fn law_launch_takes_its_steps(
    session: SpawnSession,
    event: SpawnEvent,
    elapsed: u64,
    r: (SpawnSession, SpawnStep),
)
    requires
        call_ensures(SpawnSession::step, (session, event, elapsed), r),
    ensures
        session.phase is OpeningLog && event is Done ==> r.1.action is ShareLog && r.0.phase
            is SharingLog,
        session.phase is SharingLog && event is Done && session.sqlite_home is Some
            ==> r.1.action is MakeDir && r.0.phase is MakingDir,
        session.phase is SharingLog && event is Done && session.sqlite_home is None
            ==> r.1.action is Launch && r.0.phase is Launching,
        session.phase is MakingDir && (event is Done || event is Failed) ==> r.1.action is Launch
            && r.0.phase is Launching,
        session.phase is Launching && event is Launched ==> r.1.action is WritePid && r.0.phase
            is WritingPid,
        session.phase is WritingPid && event is Done ==> r.1.action is WritePort && r.0.phase
            is WritingPort,
        r.1.action is ShareLog ==> session.phase is OpeningLog,
        r.1.action is WritePid ==> session.phase is Launching,
        r.1.action is WritePort ==> session.phase is WritingPid,
{
}

/// A daemon that was recorded is probed for fifteen seconds, with a pause after each probe that
/// nothing answered; it is started with the first answer, and given up once the time is over.
pub proof fn law_fifteen_seconds_to_answer(
    session: SpawnSession,
    event: SpawnEvent,
    elapsed: u64,
    r: (SpawnSession, SpawnStep),
)
    requires
        call_ensures(SpawnSession::step, (session, event, elapsed), r),
    ensures
        event is Done && (session.phase is WritingPort || session.phase is Sleeping) && elapsed
            < 15_000_000_000 ==> r.1.action is Probe && r.0.phase is Probing,
        event is Done && (session.phase is WritingPort || session.phase is Sleeping) && elapsed
            >= 15_000_000_000 ==> r.0.phase is Ended && (r.1.action matches SpawnAction::Fail(
            CtlError::NotReady(log),
        ) && log@ == session.log@),
        session.phase is Probing && event == SpawnEvent::Answered(false) ==> r.1.action
            == SpawnAction::Sleep(150) && r.0.phase is Sleeping,
        session.phase is Probing && event == SpawnEvent::Answered(true) ==> r.1.action is Finish
            && r.0.phase is Ended,
        r.1.action is Finish ==> session.phase is Probing,
{
}

/// A launch that fails names the step that failed.
pub proof fn law_failed_launch_names_its_step(
    session: SpawnSession,
    elapsed: u64,
    r: (SpawnSession, SpawnStep),
)
    requires
        call_ensures(SpawnSession::step, (session, SpawnEvent::Failed, elapsed), r),
        !(session.phase is MakingDir),
    ensures
        r.0.phase is Ended,
        r.1.action matches SpawnAction::Fail(CtlError::Outside(contexts)) && (if session.phase
            is OpeningLog {
            contexts@.len() == 1 && contexts@[0]@ == "open log "@ + session.log@
        } else if session.phase is Launching {
            contexts@.len() == 1 && contexts@[0]@ == "spawn codex app-server"@
        } else {
            contexts@.len() == 0
        }),
{
    match r.1.action {
        SpawnAction::Fail(CtlError::Outside(contexts)) => {
            let told = texts(contexts@);
            assert(told.len() == contexts@.len());
            if told.len() > 0 {
                assert(told[0] == contexts@[0]@);
            }
        },
        _ => {},
    }
}

/// A launch begins with the log file, which is created where there is none and keeps what it
/// holds, and goes on with the port, the directory and the log that it was given.
pub proof fn law_launch_begins_with_the_log(
    port: u16,
    named: Option<String>,
    dir: &[u8],
    log: String,
    r: (SpawnSession, SpawnStep),
)
    requires
        call_ensures(spawn_daemon, (port, named, dir, log), r),
    ensures
        r.0.port == port,
        opt_text(r.0.sqlite_home) == opt_text(named),
        r.0.log@ == log@,
        r.0.phase is OpeningLog,
        r.1.action matches SpawnAction::OpenLog(file) && file.path@ == joined(
            dir@,
            "daemon.log"@,
        ) && file.create && file.append,
        r.1.output@ == ""@,
{
}

} // verus!
