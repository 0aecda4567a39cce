//! Where the controller keeps its files. A path is the sequence of its bytes.
use vstd::prelude::*;
use vstd::string::*;
use vstd::utf8::*;

use crate::error::{CtlError, CtlErrorView};

verus! {

/// The path of the entry `name` in the directory `base`.
pub open spec fn joined(base: Seq<u8>, name: Seq<char>) -> Seq<u8> {
    if base.len() == 0 || base.last() == 0x2f {
        base + encode_utf8(name)
    } else {
        base.push(0x2f) + encode_utf8(name)
    }
}

/// The path of the entry `name` in the directory `base`.
fn join(base: &[u8], name: &str) -> (r: Vec<u8>)
    ensures
        r@ == joined(base@, name@),
{
    let mut out: Vec<u8> = Vec::new();
    let mut i: usize = 0;
    while i < base.len()
        invariant
            i <= base@.len(),
            out@ == base@.take(i as int),
        decreases base@.len() - i,
    {
        out.push(base[i]);
        i = i + 1;
    }
    assert(out@ =~= base@);
    if base.len() > 0 && base[base.len() - 1] != 0x2f {
        out.push(0x2f);
    }
    let ghost front = out@;
    let bytes: &[u8] = name.as_bytes();
    let mut k: usize = 0;
    while k < bytes.len()
        invariant
            k <= bytes@.len(),
            out@ == front + bytes@.take(k as int),
        decreases bytes@.len() - k,
    {
        out.push(bytes[k]);
        k = k + 1;
        assert(out@ =~= front + bytes@.take(k as int));
    }
    assert(out@ =~= front + bytes@);
    out
}

/// The user's home directory as `dirs::home_dir` finds it: on Unix by the variable `HOME`, or
/// else in the user database. Which directory that is rests on the machine.
#[verifier::external_body]
fn home_dir() -> (r: Option<Vec<u8>>)
{
    dirs::home_dir().map(|home| home.into_os_string().into_encoded_bytes())
}

/// Whether `home` is what a search for the user's home directory may find.
pub closed spec fn found_home(home: Option<Vec<u8>>) -> bool {
    call_ensures(home_dir, (), home)
}

/// What the controller's directory is for a user with this home directory.
pub open spec fn config_dir_of(home: Option<Vec<u8>>, r: Result<Vec<u8>, CtlError>) -> bool {
    match home {
        Some(base) => r matches Ok(dir) && dir@ == joined(base@, ".codexctl"@),
        None => r matches Err(e) && e@ == CtlErrorView::NoHome,
    }
}

/// The controller's directory for a user with this home directory.
pub fn config_dir_in(home: Option<Vec<u8>>) -> (r: Result<Vec<u8>, CtlError>)
    ensures
        config_dir_of(home, r),
{
    match home {
        Some(base) => Ok(join(base.as_slice(), ".codexctl")),
        None => Err(CtlError::NoHome),
    }
}

/// The controller's directory, `.codexctl` in the home directory that was found.
pub fn config_dir() -> (r: Result<Vec<u8>, CtlError>)
    ensures
        exists|home: Option<Vec<u8>>| #[trigger] found_home(home) && config_dir_of(home, r),
{
    let home: Option<Vec<u8>> = home_dir();
    assert(found_home(home));
    config_dir_in(home)
}

/// The file that holds the registry of named threads.
pub fn registry_path(config_dir: &[u8]) -> (r: Vec<u8>)
    ensures
        r@ == joined(config_dir@, "threads.json"@),
{
    join(config_dir, "threads.json")
}

/// The file that a new registry is written to before it takes the place of the old one.
pub fn registry_draft_path(config_dir: &[u8]) -> (r: Vec<u8>)
    ensures
        r@ == joined(config_dir@, "threads.json.tmp"@),
{
    join(config_dir, "threads.json.tmp")
}

/// The file that holds the daemon's process id.
pub fn pid_path(config_dir: &[u8]) -> (r: Vec<u8>)
    ensures
        r@ == joined(config_dir@, "daemon.pid"@),
{
    join(config_dir, "daemon.pid")
}

/// The file that holds the port which the daemon listens on.
pub fn port_path(config_dir: &[u8]) -> (r: Vec<u8>)
    ensures
        r@ == joined(config_dir@, "daemon.port"@),
{
    join(config_dir, "daemon.port")
}

/// The file that the daemon's output goes to.
pub fn daemon_log_path(config_dir: &[u8]) -> (r: Vec<u8>)
    ensures
        r@ == joined(config_dir@, "daemon.log"@),
{
    join(config_dir, "daemon.log")
}

/// Entries with different names in one directory have different paths.
pub proof fn law_joined_injective(base: Seq<u8>, a: Seq<char>, b: Seq<char>)
    requires
        joined(base, a) == joined(base, b),
    ensures
        a == b,
{
    let front = if base.len() == 0 || base.last() == 0x2f {
        base
    } else {
        base.push(0x2f)
    };
    assert(encode_utf8(a) =~= joined(base, a).skip(front.len() as int));
    assert(encode_utf8(b) =~= joined(base, b).skip(front.len() as int));
    encode_utf8_decode_utf8(a);
    encode_utf8_decode_utf8(b);
}

/// No two of the controller's files share a path, whatever its directory is. So writing the
/// registry's draft never touches the registry, nor does one daemon file overwrite another.
pub proof fn law_files_apart(dir: Seq<u8>)
    ensures
        joined(dir, "threads.json"@) != joined(dir, "threads.json.tmp"@),
        joined(dir, "threads.json"@) != joined(dir, "daemon.pid"@),
        joined(dir, "threads.json"@) != joined(dir, "daemon.port"@),
        joined(dir, "threads.json"@) != joined(dir, "daemon.log"@),
        joined(dir, "threads.json.tmp"@) != joined(dir, "daemon.pid"@),
        joined(dir, "threads.json.tmp"@) != joined(dir, "daemon.port"@),
        joined(dir, "threads.json.tmp"@) != joined(dir, "daemon.log"@),
        joined(dir, "daemon.pid"@) != joined(dir, "daemon.port"@),
        joined(dir, "daemon.pid"@) != joined(dir, "daemon.log"@),
        joined(dir, "daemon.port"@) != joined(dir, "daemon.log"@),
{
    reveal_strlit("threads.json");
    reveal_strlit("threads.json.tmp");
    reveal_strlit("daemon.pid");
    reveal_strlit("daemon.port");
    reveal_strlit("daemon.log");
    assert("daemon.pid"@[7] == 'p');
    assert("daemon.log"@[7] == 'l');
    assert forall|a: Seq<char>, b: Seq<char>| a != b implies #[trigger] joined(dir, a)
        != #[trigger] joined(dir, b) by {
        if joined(dir, a) == joined(dir, b) {
            law_joined_injective(dir, a, b);
        }
    }
}

/// The path of an entry is the directory's, a slash unless that ends in one, and the entry's
/// name.
pub proof fn law_entry_follows_its_directory(base: Seq<u8>, name: Seq<char>)
    ensures
        base.len() > 0 && base.last() != 0x2f ==> joined(base, name) == base + seq![0x2fu8]
            + encode_utf8(name),
        base.len() == 0 || base.last() == 0x2f ==> joined(base, name) == base + encode_utf8(name),
{
    assert(base.push(0x2f) =~= base + seq![0x2fu8]);
}

/// The controller's files have their names in its directory, which is `.codexctl` in the home
/// directory.
pub proof fn law_files_have_their_names(
    home: Vec<u8>,
    dir: &[u8],
    config: Result<Vec<u8>, CtlError>,
    registry: Vec<u8>,
    pid: Vec<u8>,
    port: Vec<u8>,
    log: Vec<u8>,
)
    requires
        call_ensures(config_dir_in, (Some(home),), config),
        call_ensures(registry_path, (dir,), registry),
        call_ensures(pid_path, (dir,), pid),
        call_ensures(port_path, (dir,), port),
        call_ensures(daemon_log_path, (dir,), log),
    ensures
        config matches Ok(path) && path@ == joined(home@, ".codexctl"@),
        registry@ == joined(dir@, "threads.json"@),
        pid@ == joined(dir@, "daemon.pid"@),
        port@ == joined(dir@, "daemon.port"@),
        log@ == joined(dir@, "daemon.log"@),
{
}

/// Without a home directory there is no directory for the controller.
pub proof fn law_no_home_no_directory(config: Result<Vec<u8>, CtlError>)
    requires
        call_ensures(config_dir_in, (None,), config),
    ensures
        config matches Err(e) && e is NoHome,
{
}

} // verus!
