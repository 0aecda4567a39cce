//! The daemon's life, the connection to it, and waiting.
use codexctl::connect::{connect, ConnectAction, ConnectEvent};
use codexctl::daemon::{
    daemon_running, daemon_start, daemon_status, ensure_daemon, listen_url, raw_pid, DaemonNeed,
    DEFAULT_PORT, PROBE_TIMEOUT, READY_PAUSE, READY_TIMEOUT, STOP_PAUSE, STOP_TIMEOUT,
};
use codexctl::error::CtlError;
use codexctl::notice::{turn_completed, Incoming, Notice};
use codexctl::spawn::{
    app_server, spawn_daemon, SpawnAction, SpawnEvent, SpawnSession, StreamEnd,
};
use codexctl::stop::{daemon_stop, StopAction, StopEvent, StopSession};
use codexctl::wait::{await_turn, wait_for, WaitAction, WaitEvent, TURN_TIMEOUT};

#[test]
fn the_times_are_as_documented() {
    assert_eq!(DEFAULT_PORT, 7373);
    assert_eq!(READY_TIMEOUT, 15_000_000_000);
    assert_eq!(STOP_TIMEOUT, 5_000_000_000);
    assert_eq!(READY_PAUSE, 150);
    assert_eq!(STOP_PAUSE, 100);
    assert_eq!(PROBE_TIMEOUT, 200);
    assert_eq!(TURN_TIMEOUT, 120_000_000_000);
}

#[test]
fn a_recorded_id_addresses_the_process_that_a_cast_gives() {
    for pid in [0u32, 1, 4242, i32::MAX as u32, i32::MAX as u32 + 1, u32::MAX] {
        assert_eq!(raw_pid(pid), pid as i32);
    }
}

#[test]
fn the_daemon_runs_where_its_process_is_alive() {
    assert!(daemon_running(Some(1), true));
    assert!(!daemon_running(Some(1), false));
    assert!(!daemon_running(None, true));
    assert!(!daemon_running(None, false));
}

#[test]
fn the_status_tells_pid_and_port() {
    assert_eq!(daemon_status(Some(42), Some(7373), true), "daemon: running pid=42 port=7373\n");
    assert_eq!(
        daemon_status(Some(42), Some(7373), false),
        "daemon: stale pidfile (pid 42 not alive)\n"
    );
    assert_eq!(daemon_status(Some(42), None, true), "daemon: stale pidfile (pid 42 not alive)\n");
    assert_eq!(daemon_status(None, Some(7373), true), "daemon: not running\n");
    assert_eq!(daemon_status(None, None, false), "daemon: not running\n");
}

#[test]
fn starting_a_running_daemon_leaves_it_alone() {
    let (output, need) = daemon_start(8000, Some(7373), true);
    assert_eq!(output, "daemon: already running on port 7373\n");
    assert!(matches!(need, DaemonNeed::Running(7373)));
    let (output, need) = daemon_start(8000, None, true);
    assert_eq!(output, "daemon: already running on port 8000\n");
    assert!(matches!(need, DaemonNeed::Running(8000)));
    let (output, need) = daemon_start(8000, Some(7373), false);
    assert_eq!(output, "");
    assert!(matches!(need, DaemonNeed::Launch(8000)));
}

#[test]
fn commands_use_the_running_daemon_or_launch_one() {
    assert!(matches!(ensure_daemon(Some(9000), true), DaemonNeed::Running(9000)));
    assert!(matches!(ensure_daemon(Some(9000), false), DaemonNeed::Launch(7373)));
    assert!(matches!(ensure_daemon(None, true), DaemonNeed::Launch(7373)));
    assert!(matches!(ensure_daemon(None, false), DaemonNeed::Launch(7373)));
}

#[test]
fn the_daemon_listens_on_the_local_host() {
    assert_eq!(listen_url(7373), "ws://127.0.0.1:7373");
    assert_eq!(listen_url(0), "ws://127.0.0.1:0");
}

#[test]
fn stopping_without_a_pid_does_nothing() {
    let (session, step) = daemon_stop(None);
    assert!(session.is_none());
    assert_eq!(step.output, "daemon: not running\n");
    assert!(matches!(step.action, StopAction::Finish));
}

fn stopping(pid: u32) -> StopSession {
    let (session, step) = daemon_stop(Some(pid));
    assert_eq!(step.output, "");
    assert!(matches!(step.action, StopAction::CheckAlive(p) if p == pid as i32));
    session.unwrap()
}

#[test]
fn stopping_a_dead_daemon_cleans_its_pid_file_up() {
    let (session, step) = stopping(42).step(StopEvent::Alive(false), 0);
    assert_eq!(step.output, "daemon: stale pidfile (pid 42 not alive); cleaning up\n");
    assert!(matches!(step.action, StopAction::RemovePid));
    let (_, step) = session.step(StopEvent::Done, 0);
    assert_eq!(step.output, "");
    assert!(matches!(step.action, StopAction::Finish));
}

#[test]
fn a_daemon_that_exits_is_stopped() {
    let (session, step) = stopping(42).step(StopEvent::Alive(true), 0);
    assert!(matches!(step.action, StopAction::Terminate(42)));
    let (session, step) = session.step(StopEvent::Signalled(true), 0);
    assert!(matches!(step.action, StopAction::CheckAlive(42)));
    let (session, step) = session.step(StopEvent::Alive(true), 10);
    assert!(matches!(step.action, StopAction::Sleep(100)));
    let (session, step) = session.step(StopEvent::Done, 4_999_999_999);
    assert!(matches!(step.action, StopAction::CheckAlive(42)));
    let (session, step) = session.step(StopEvent::Alive(false), 6_000_000_000);
    assert_eq!(step.output, "");
    assert!(matches!(step.action, StopAction::RemovePidAndPort));
    let (session, step) = session.step(StopEvent::Done, 6_000_000_000);
    assert_eq!(step.output, "daemon: stopped (pid 42)\n");
    assert!(matches!(step.action, StopAction::Finish));
    let (_, step) = session.step(StopEvent::Done, 6_000_000_000);
    assert!(matches!(step.action, StopAction::Fail(CtlError::Outside(c)) if c.is_empty()));
}

#[test]
fn a_daemon_that_hangs_is_killed_after_five_seconds() {
    let (session, _) = stopping(42).step(StopEvent::Alive(true), 0);
    let (session, _) = session.step(StopEvent::Signalled(true), 0);
    let (session, _) = session.step(StopEvent::Alive(true), 10);
    let (session, step) = session.step(StopEvent::Done, 5_000_000_000);
    assert!(matches!(step.action, StopAction::Kill(42)));
    for sent in [true, false] {
        let (session, step) = session.step(StopEvent::Signalled(sent), 5_000_000_001);
        assert!(matches!(step.action, StopAction::RemovePidAndPort));
        let (_, step) = session.step(StopEvent::Done, 5_000_000_001);
        assert_eq!(step.output, "daemon: SIGKILLed (pid 42)\n");
        assert!(matches!(step.action, StopAction::Finish));
    }
}

#[test]
fn a_signal_that_cannot_be_sent_fails_the_stop() {
    let (session, _) = stopping(42).step(StopEvent::Alive(true), 0);
    let (_, step) = session.step(StopEvent::Signalled(false), 0);
    match step.action {
        StopAction::Fail(e) => assert_eq!(e.message(), "send SIGTERM"),
        _ => panic!(),
    }
}

#[test]
fn the_app_server_is_launched_with_goals() {
    let launch = app_server(7373, &Some("/s".to_string()));
    assert_eq!(launch.program, "codex");
    assert_eq!(
        launch.args,
        vec!["app-server", "--listen", "ws://127.0.0.1:7373", "-c", "features.goals=true"]
    );
    assert_eq!(launch.variable, Some(("CODEX_SQLITE_HOME".to_string(), "/s".to_string())));
    assert!(matches!(launch.stdin, StreamEnd::Null));
    assert!(matches!(launch.stdout, StreamEnd::Log));
    assert!(matches!(launch.stderr, StreamEnd::Log));
    let launch = app_server(7373, &None);
    assert_eq!(launch.args[2], "ws://127.0.0.1:7373");
    assert_eq!(launch.variable, None);
}

fn spawning(named: Option<&str>) -> SpawnSession {
    let (session, step) = spawn_daemon(
        7373,
        named.map(|n| n.to_string()),
        b"/c",
        "/c/daemon.log".to_string(),
    );
    match step.action {
        SpawnAction::OpenLog(file) => {
            assert_eq!(file.path, b"/c/daemon.log".to_vec());
            assert!(file.create);
            assert!(file.append);
        }
        _ => panic!(),
    }
    session
}

fn probing() -> SpawnSession {
    let (session, step) = spawning(None).step(SpawnEvent::Done, 0);
    assert!(matches!(step.action, SpawnAction::ShareLog));
    let (session, step) = session.step(SpawnEvent::Done, 0);
    assert!(matches!(step.action, SpawnAction::Launch(launch) if launch.variable.is_none()));
    let (session, step) = session.step(SpawnEvent::Launched(4242), 0);
    assert!(matches!(step.action, SpawnAction::WritePid(line) if line == "4242\n"));
    let (session, step) = session.step(SpawnEvent::Done, 0);
    assert!(matches!(step.action, SpawnAction::WritePort(line) if line == "7373\n"));
    let (session, step) = session.step(SpawnEvent::Done, 0);
    assert!(matches!(step.action, SpawnAction::Probe(7373)));
    session
}

#[test]
fn a_daemon_that_answers_is_started() {
    let (session, step) = probing().step(SpawnEvent::Answered(false), 1);
    assert!(matches!(step.action, SpawnAction::Sleep(150)));
    let (session, step) = session.step(SpawnEvent::Done, 14_999_999_999);
    assert!(matches!(step.action, SpawnAction::Probe(7373)));
    let (_, step) = session.step(SpawnEvent::Answered(true), 16_000_000_000);
    assert_eq!(step.output, "daemon: started on port 7373\n");
    assert!(matches!(step.action, SpawnAction::Finish));
}

#[test]
fn a_daemon_that_does_not_answer_is_given_up() {
    let (session, _) = probing().step(SpawnEvent::Answered(false), 1);
    let (_, step) = session.step(SpawnEvent::Done, 15_000_000_000);
    match step.action {
        SpawnAction::Fail(e) => assert_eq!(
            e.message(),
            "daemon spawned but did not become ready in 15s; see /c/daemon.log"
        ),
        _ => panic!(),
    }
}

#[test]
fn a_named_database_directory_is_used() {
    let (session, _) = spawning(Some("/mine")).step(SpawnEvent::Done, 0);
    let (session, step) = session.step(SpawnEvent::Done, 0);
    assert!(matches!(step.action, SpawnAction::MakeDir(dir) if dir == "/mine"));
    let (_, step) = session.step(SpawnEvent::Failed, 0);
    match step.action {
        SpawnAction::Launch(launch) => assert_eq!(
            launch.variable,
            Some(("CODEX_SQLITE_HOME".to_string(), "/mine".to_string()))
        ),
        _ => panic!(),
    }
}

#[test]
fn a_launch_fails_with_its_step() {
    let (_, step) = spawning(None).step(SpawnEvent::Failed, 0);
    assert!(matches!(&step.action, SpawnAction::Fail(e) if e.message() == "open log /c/daemon.log"));
    let (session, _) = spawning(None).step(SpawnEvent::Done, 0);
    let (session, _) = session.step(SpawnEvent::Done, 0);
    let (_, step) = session.step(SpawnEvent::Failed, 0);
    assert!(matches!(&step.action, SpawnAction::Fail(e) if e.message() == "spawn codex app-server"));
    let (session, _) = spawning(None).step(SpawnEvent::Done, 0);
    let (_, step) = session.step(SpawnEvent::Failed, 0);
    assert!(matches!(&step.action, SpawnAction::Fail(CtlError::Outside(c)) if c.is_empty()));
}

#[test]
fn a_connection_introduces_the_client() {
    let (session, action) = connect("0.1.0".to_string());
    assert!(matches!(action, ConnectAction::EnsureDaemon));
    let (session, action) = session.step(ConnectEvent::Ready(9000));
    assert!(matches!(action, ConnectAction::OpenSocket(url) if url == "ws://127.0.0.1:9000"));
    let (session, action) = session.step(ConnectEvent::Done);
    match action {
        ConnectAction::Initialize(intro) => {
            assert_eq!(intro.name, "codexctl");
            assert_eq!(intro.title, "codexctl");
            assert_eq!(intro.version, "0.1.0");
            assert!(intro.experimental_api);
        }
        _ => panic!(),
    }
    let (session, action) = session.step(ConnectEvent::Done);
    assert!(matches!(action, ConnectAction::Announce));
    let (_, action) = session.step(ConnectEvent::Done);
    assert!(matches!(action, ConnectAction::Finish));
}

#[test]
fn a_connection_fails_with_its_step() {
    let contexts = ["", "connect ws", "initialize", "initialized"];
    for (n, context) in contexts.iter().enumerate() {
        let (mut session, _) = connect("0.1.0".to_string());
        for k in 0..n {
            let event = if k == 0 { ConnectEvent::Ready(1) } else { ConnectEvent::Done };
            session = session.step(event).0;
        }
        let (session, action) = session.step(ConnectEvent::Failed);
        match action {
            ConnectAction::Fail(e) => assert_eq!(e.message(), *context),
            _ => panic!(),
        }
        assert!(matches!(session.step(ConnectEvent::Done).1, ConnectAction::Fail(_)));
    }
}

fn completed() -> Incoming {
    Incoming::Notification(Notice::TurnCompleted { status: None })
}

#[test]
fn a_wait_receives_in_what_is_left_of_its_time() {
    let wanted = |event: &Incoming| turn_completed(event);
    assert!(matches!(wait_for(&wanted, 100, WaitEvent::Begun, 30), WaitAction::Receive(70)));
    assert!(matches!(
        wait_for(&wanted, 100, WaitEvent::Begun, 100),
        WaitAction::Fail(CtlError::TimedOut)
    ));
    let other = || WaitEvent::Received(Incoming::Other);
    assert!(matches!(wait_for(&wanted, 100, other(), 99), WaitAction::Receive(1)));
    assert!(matches!(
        wait_for(&wanted, 100, other(), 101),
        WaitAction::Fail(CtlError::TimedOut)
    ));
    assert!(matches!(
        wait_for(&wanted, 100, WaitEvent::Received(completed()), 500),
        WaitAction::Finish(Incoming::Notification(Notice::TurnCompleted { status: None }))
    ));
}

#[test]
fn a_first_turn_is_awaited_for_two_minutes() {
    assert!(matches!(await_turn(WaitEvent::Begun, 0), WaitAction::Receive(120_000_000_000)));
    let started = Incoming::Notification(Notice::TurnStarted { id: "t".to_string() });
    assert!(matches!(
        await_turn(WaitEvent::Received(started), 20_000_000_000),
        WaitAction::Receive(100_000_000_000)
    ));
    let done = Notice::TurnCompleted { status: Some("completed".to_string()) };
    match await_turn(WaitEvent::Received(Incoming::Notification(done)), 1) {
        WaitAction::Finish(Incoming::Notification(Notice::TurnCompleted { status })) => {
            assert_eq!(status, Some("completed".to_string()))
        }
        _ => panic!(),
    }
    match await_turn(WaitEvent::Quiet, 1) {
        WaitAction::Fail(e) => assert_eq!(e.message(), "timed out waiting for expected event"),
        _ => panic!(),
    }
    assert!(matches!(
        await_turn(WaitEvent::Failed, 1),
        WaitAction::Fail(CtlError::Outside(c)) if c.is_empty()
    ));
}
