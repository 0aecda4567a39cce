//! The daemon: the files that tell of it, whether it runs, and what it takes to have one.
use vstd::prelude::*;
use vstd::string::*;

use crate::text::{
    decimal, law_number_round_trip, law_numeral_is_read, number_in, opt_text, parse_number, push_decimal,
};

verus! {

/// The port that the daemon listens on unless it is given another.
pub const DEFAULT_PORT: u16 = 7373;

/// How long a daemon may take to answer after it was launched, in nanoseconds.
pub const READY_TIMEOUT: u64 = 15_000_000_000;

/// How long a daemon may take to exit after it was asked to, in nanoseconds.
pub const STOP_TIMEOUT: u64 = 5_000_000_000;

/// How long to wait between two looks at a daemon that is starting, in milliseconds.
pub const READY_PAUSE: u64 = 150;

/// How long a daemon may take to accept a connection when it is probed, in milliseconds.
pub const PROBE_TIMEOUT: u64 = 200;

/// How long to wait between two looks at a daemon that is stopping, in milliseconds.
pub const STOP_PAUSE: u64 = 100;

/// The number that an optional file's text holds.
pub open spec fn file_number(contents: Option<Seq<char>>, max: nat) -> Option<nat> {
    match contents {
        Some(text) => number_in(text, max),
        None => None,
    }
}

/// The port in the port file, which holds `contents` or could not be read as text.
pub fn read_daemon_port(contents: Option<String>) -> (r: Option<u16>)
    ensures
        r is Some <==> file_number(opt_text(contents), u16::MAX as nat) is Some,
        r matches Some(port) ==> file_number(opt_text(contents), u16::MAX as nat) == Some(
            port as nat,
        ),
{
    match contents {
        Some(text) => match parse_number(text.as_str(), 0xffff) {
            Some(port) => Some(port as u16),
            None => None,
        },
        None => None,
    }
}

/// The process id in the pid file, which holds `contents` or could not be read as text.
pub fn read_daemon_pid(contents: Option<String>) -> (r: Option<u32>)
    ensures
        r is Some <==> file_number(opt_text(contents), u32::MAX as nat) is Some,
        r matches Some(pid) ==> file_number(opt_text(contents), u32::MAX as nat) == Some(
            pid as nat,
        ),
{
    match contents {
        Some(text) => parse_number(text.as_str(), 0xffff_ffff),
        None => None,
    }
}

/// A number as the one line of a file.
pub open spec fn number_line(n: nat) -> Seq<char> {
    decimal(n) + "\n"@
}

/// A number as the one line of a file.
pub fn number_file(n: u64) -> (r: String)
    ensures
        r@ == number_line(n as nat),
{
    let mut out: String = String::new();
    push_decimal(&mut out, n);
    out.append("\n");
    assert(out@ =~= number_line(n as nat));
    out
}

/// The port file of a daemon that was started is read as the port it was started on.
pub proof fn law_port_file_round_trip(port: u16)
    ensures
        file_number(Some(number_line(port as nat)), u16::MAX as nat) == Some(port as nat),
{
    law_number_round_trip(port as nat, u16::MAX as nat);
}

/// The pid file of a daemon that was started is read as its process id.
pub proof fn law_pid_file_round_trip(pid: u32)
    ensures
        file_number(Some(number_line(pid as nat)), u32::MAX as nat) == Some(pid as nat),
{
    law_number_round_trip(pid as nat, u32::MAX as nat);
}

/// The process that a recorded process id addresses when a signal is sent: ids past the largest
/// signed one wrap around to negative numbers.
pub open spec fn signal_target(pid: u32) -> int {
    if pid <= i32::MAX {
        pid as int
    } else {
        pid - 0x1_0000_0000
    }
}

/// The process that a recorded process id addresses when a signal is sent.
pub fn raw_pid(pid: u32) -> (r: i32)
    ensures
        r == signal_target(pid),
{
    if pid <= 0x7fff_ffff {
        pid as i32
    } else {
        (pid as i64 - 0x1_0000_0000) as i32
    }
}

/// Whether the daemon runs: its process id is known, and a process with that id is alive.
pub fn daemon_running(pid: Option<u32>, alive: bool) -> (r: bool)
    ensures
        r == (pid is Some && alive),
{
    match pid {
        Some(_) => alive,
        None => false,
    }
}

/// The address that a daemon on `port` listens on.
pub open spec fn listen_address(port: u16) -> Seq<char> {
    "ws://127.0.0.1:"@ + decimal(port as nat)
}

/// The address that a daemon on `port` listens on.
pub fn listen_url(port: u16) -> (r: String)
    ensures
        r@ == listen_address(port),
{
    let mut out: String = String::new();
    out.append("ws://127.0.0.1:");
    push_decimal(&mut out, port as u64);
    assert(out@ =~= listen_address(port));
    out
}

/// The line that tells of the daemon.
pub open spec fn status_line(pid: Option<u32>, port: Option<u16>, alive: bool) -> Seq<char> {
    match (pid, port) {
        (Some(id), Some(number)) if alive => "daemon: running pid="@ + decimal(id as nat)
            + " port="@ + decimal(number as nat) + "\n"@,
        (Some(id), _) => "daemon: stale pidfile (pid "@ + decimal(id as nat) + " not alive)\n"@,
        _ => "daemon: not running\n"@,
    }
}

/// Tells of the daemon, given what its files say and whether the process in them is alive.
pub fn daemon_status(pid: Option<u32>, port: Option<u16>, alive: bool) -> (r: String)
    ensures
        r@ == status_line(pid, port, alive),
{
    let mut out: String = String::new();
    match pid {
        Some(id) => {
            match port {
                Some(number) if alive => {
                    out.append("daemon: running pid=");
                    push_decimal(&mut out, id as u64);
                    out.append(" port=");
                    push_decimal(&mut out, number as u64);
                    out.append("\n");
                },
                _ => {
                    out.append("daemon: stale pidfile (pid ");
                    push_decimal(&mut out, id as u64);
                    out.append(" not alive)\n");
                },
            }
        },
        None => out.append("daemon: not running\n"),
    }
    assert(out@ =~= status_line(pid, port, alive));
    out
}

/// What it takes to have a daemon.
pub enum DaemonNeed {
    /// A daemon runs; this is its port.
    Running(u16),
    /// A daemon is to be launched on this port.
    Launch(u16),
}

/// What `daemon start` on `port` takes, and what it reports at once. A daemon that runs stays as
/// it is, on the port on record, or on `port` where none is.
pub fn daemon_start(port: u16, recorded: Option<u16>, running: bool) -> (r: (String, DaemonNeed))
    ensures
        running ==> {
            let current = match recorded {
                Some(known) => known,
                None => port,
            };
            &&& r.0@ == "daemon: already running on port "@ + decimal(current as nat) + "\n"@
            &&& r.1 == DaemonNeed::Running(current)
        },
        !running ==> r.0@ == ""@ && r.1 == DaemonNeed::Launch(port),
{
    let mut out: String = String::new();
    if running {
        let current: u16 = match recorded {
            Some(known) => known,
            None => port,
        };
        out.append("daemon: already running on port ");
        push_decimal(&mut out, current as u64);
        out.append("\n");
        assert(out@ =~= "daemon: already running on port "@ + decimal(current as nat) + "\n"@);
        (out, DaemonNeed::Running(current))
    } else {
        out.append("");
        assert(out@ =~= ""@);
        (out, DaemonNeed::Launch(port))
    }
}

/// What a command that needs the daemon takes: the port on record where a daemon runs, else a
/// new daemon on the default port.
pub fn ensure_daemon(recorded: Option<u16>, running: bool) -> (r: DaemonNeed)
    ensures
        r == match recorded {
            Some(port) if running => DaemonNeed::Running(port),
            _ => DaemonNeed::Launch(DEFAULT_PORT),
        },
{
    match recorded {
        Some(port) if running => DaemonNeed::Running(port),
        _ => DaemonNeed::Launch(DEFAULT_PORT),
    }
}

/// What the daemon's files are written with is what they are read as; a number that is no port
/// is not read as one.
pub proof fn law_what_is_recorded_is_read(
    n: u64,
    line: String,
    port: Option<u16>,
    pid: Option<u32>,
)
    requires
        call_ensures(number_file, (n,), line),
        call_ensures(read_daemon_port, (Some(line),), port),
        call_ensures(read_daemon_pid, (Some(line),), pid),
    ensures
        line@ == decimal(n as nat) + "\n"@,
        n <= u16::MAX ==> port == Some(n as u16),
        n > u16::MAX ==> port is None,
        n <= u32::MAX ==> pid == Some(n as u32),
        n > u32::MAX ==> pid is None,
{
    reveal_strlit("\n");
    law_numeral_is_read(Seq::empty(), n as nat, "\n"@, u16::MAX as nat);
    law_numeral_is_read(Seq::empty(), n as nat, "\n"@, u32::MAX as nat);
    assert(Seq::empty() + decimal(n as nat) + "\n"@ =~= line@);
}

/// Where a file of the daemon could not be read, nothing is on record.
pub proof fn law_no_file_no_record(port: Option<u16>, pid: Option<u32>)
    requires
        call_ensures(read_daemon_port, (None,), port),
        call_ensures(read_daemon_pid, (None,), pid),
    ensures
        port is None,
        pid is None,
{
}

/// A recorded process id addresses the process with that id, and beyond the largest signed id
/// the number that has the same lower bits.
pub proof fn law_signals_reach_the_recorded_process(pid: u32, r: i32)
    requires
        call_ensures(raw_pid, (pid,), r),
    ensures
        r >= 0 ==> r == pid,
        r < 0 ==> r + 0x1_0000_0000 == pid,
{
}

/// The daemon is told to run exactly where its process is on record and alive.
pub proof fn law_running_means_alive(pid: Option<u32>, alive: bool, r: bool)
    requires
        call_ensures(daemon_running, (pid, alive), r),
    ensures
        r <==> pid is Some && alive,
{
}

/// The daemon listens on the port that it is given, on the local host.
pub proof fn law_address_names_the_port(port: u16, r: String)
    requires
        call_ensures(listen_url, (port,), r),
    ensures
        r@ == "ws://127.0.0.1:"@ + decimal(port as nat),
{
}

/// The status names the process and the port of a daemon whose both files are there and whose
/// process is alive, calls every other recorded process stale, and without one says that no
/// daemon runs.
pub proof fn law_status_tells_of_the_daemon(
    pid: Option<u32>,
    port: Option<u16>,
    alive: bool,
    r: String,
)
    requires
        call_ensures(daemon_status, (pid, port, alive), r),
    ensures
        pid is Some && port is Some && alive ==> r@ == "daemon: running pid="@ + decimal(
            pid->0 as nat,
        ) + " port="@ + decimal(port->0 as nat) + "\n"@,
        pid is Some && (port is None || !alive) ==> r@ == "daemon: stale pidfile (pid "@ + decimal(
            pid->0 as nat,
        ) + " not alive)\n"@,
        pid is None ==> r@ == "daemon: not running\n"@,
{
}

/// Starting a daemon launches one, on the port that is asked for, exactly where none runs; one
/// that runs is left alone and its port is told.
pub proof fn law_start_launches_unless_running(
    port: u16,
    recorded: Option<u16>,
    running: bool,
    r: (String, DaemonNeed),
)
    requires
        call_ensures(daemon_start, (port, recorded, running), r),
    ensures
        !running ==> r.1 == DaemonNeed::Launch(port) && r.0@ == ""@,
        running && recorded is Some ==> r.1 == DaemonNeed::Running(recorded->0) && r.0@
            == "daemon: already running on port "@ + decimal(recorded->0 as nat) + "\n"@,
        running && recorded is None ==> r.1 == DaemonNeed::Running(port) && r.0@
            == "daemon: already running on port "@ + decimal(port as nat) + "\n"@,
{
}

/// A command uses the daemon that runs, on the port that is on record, and otherwise has one
/// launched on the default port.
pub proof fn law_running_daemon_is_used(recorded: Option<u16>, running: bool, r: DaemonNeed)
    requires
        call_ensures(ensure_daemon, (recorded, running), r),
    ensures
        running && recorded is Some ==> r == DaemonNeed::Running(recorded->0),
        !running || recorded is None ==> r == DaemonNeed::Launch(7373),
{
}

} // verus!
