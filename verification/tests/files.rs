//! Numbers, paths, the registry and its listing.
use std::collections::HashMap;

use codexctl::clock::{unix_now, unix_time};
use codexctl::daemon::{number_file, read_daemon_pid, read_daemon_port};
use codexctl::error::CtlError;
use codexctl::listing::cmd_ls;
use codexctl::paths::{
    config_dir, config_dir_in, daemon_log_path, pid_path, port_path, registry_draft_path,
    registry_path,
};
use codexctl::registry::{
    lookup_thread, parsed_registry, read_registry, write_registry, Registry, RegistryRead,
    RegistryWrite, ThreadEntry, WriteAction,
};
use codexctl::text::{
    chars_of, is_before, parse_number, push_decimal, push_head, push_padded, push_signed,
    same_text,
};

fn entry(id: &str, cwd: Option<&str>) -> ThreadEntry {
    ThreadEntry {
        thread_id: id.to_string(),
        cwd: cwd.map(|c| c.to_string()),
        model: Some("gpt-5.5".to_string()),
        sandbox: Some("workspace-write".to_string()),
        created_at_unix: 1700000000,
    }
}

fn names(registry: &Registry) -> Vec<String> {
    registry.threads().iter().map(|pair| pair.0.clone()).collect()
}

#[test]
fn decimal_numbers_are_written_as_rust_writes_them() {
    for n in [0u64, 7, 10, 42, 999, 1000, 65535, u64::MAX] {
        let mut out = String::from("n=");
        push_decimal(&mut out, n);
        assert_eq!(out, format!("n={}", n));
    }
    for n in [0i64, 1, -1, -10, 127, i64::MIN, i64::MAX] {
        let mut out = String::new();
        push_signed(&mut out, n);
        assert_eq!(out, n.to_string());
    }
}

#[test]
fn numbers_are_read_as_rust_reads_them() {
    let inputs = [
        "", " ", "0", "7373\n", "  7373  ", "+5", "+", "++5", "-1", "-0", "1 2", "1x", "65535",
        "65536", "00042", "4294967295", "4294967296", "99999999999999999999", "\u{a0}12\u{3000}",
        "\u{661}", "1_000", "\n\t8080\r\n", "\u{200b}1",
    ];
    for text in inputs {
        assert_eq!(
            read_daemon_port(Some(text.to_string())),
            text.trim().parse::<u16>().ok(),
            "{:?}",
            text
        );
        assert_eq!(
            read_daemon_pid(Some(text.to_string())),
            text.trim().parse::<u32>().ok(),
            "{:?}",
            text
        );
    }
    assert_eq!(parse_number("12", 11), None);
    assert_eq!(parse_number("11", 11), Some(11));
}

#[test]
fn a_file_that_cannot_be_read_holds_no_number() {
    assert_eq!(read_daemon_port(None), None);
    assert_eq!(read_daemon_pid(None), None);
}

#[test]
fn number_files_are_read_back() {
    assert_eq!(number_file(7373), "7373\n");
    for port in [0u16, 1, 7373, u16::MAX] {
        assert_eq!(read_daemon_port(Some(number_file(port as u64))), Some(port));
    }
    for pid in [0u32, 1, 4242, u32::MAX] {
        assert_eq!(read_daemon_pid(Some(number_file(pid as u64))), Some(pid));
    }
}

#[test]
fn padding_counts_characters() {
    for text in ["", "ab", "abcde", "abcdef", "äöü"] {
        let mut out = String::from("|");
        push_padded(&mut out, text, 5);
        assert_eq!(out, format!("|{:<5}", text));
    }
}

#[test]
fn heads_count_characters() {
    let mut out = String::new();
    push_head(&mut out, "äöüß", 3);
    assert_eq!(out, "äöü");
    out = String::new();
    push_head(&mut out, "äö", 3);
    assert_eq!(out, "äö");
    out = String::new();
    push_head(&mut out, "abc", 3);
    assert_eq!(out, "abc");
}

#[test]
fn texts_are_ordered_by_code_points() {
    let texts = ["", "A", "B", "a", "aa", "ab", "b", "ä", "\u{ffff}", "\u{10000}"];
    for a in texts {
        for b in texts {
            assert_eq!(is_before(a, b), a < b);
            assert_eq!(same_text(a, b), a == b);
        }
    }
    assert_eq!(chars_of("aä"), vec!['a', 'ä']);
}

#[test]
fn files_lie_in_the_config_directory() {
    let dir = match config_dir_in(Some(b"/home/me".to_vec())) {
        Ok(dir) => dir,
        Err(_) => panic!(),
    };
    assert_eq!(dir, b"/home/me/.codexctl".to_vec());
    assert_eq!(registry_path(&dir), b"/home/me/.codexctl/threads.json".to_vec());
    assert_eq!(registry_draft_path(&dir), b"/home/me/.codexctl/threads.json.tmp".to_vec());
    assert_eq!(pid_path(&dir), b"/home/me/.codexctl/daemon.pid".to_vec());
    assert_eq!(port_path(&dir), b"/home/me/.codexctl/daemon.port".to_vec());
    assert_eq!(daemon_log_path(&dir), b"/home/me/.codexctl/daemon.log".to_vec());
}

#[test]
fn no_two_files_share_a_path() {
    for dir in [b"/home/me/.codexctl".to_vec(), b"/".to_vec(), b"".to_vec()] {
        let all = [
            registry_path(&dir),
            registry_draft_path(&dir),
            pid_path(&dir),
            port_path(&dir),
            daemon_log_path(&dir),
        ];
        for i in 0..all.len() {
            for j in 0..i {
                assert_ne!(all[i], all[j]);
            }
        }
    }
}

#[test]
fn a_directory_with_a_slash_gets_no_second_one() {
    assert!(matches!(config_dir_in(Some(b"/".to_vec())), Ok(dir) if dir == b"/.codexctl".to_vec()));
    assert_eq!(pid_path(b"x/"), b"x/daemon.pid".to_vec());
    assert_eq!(pid_path(b""), b"daemon.pid".to_vec());
}

#[test]
fn paths_are_joined_as_std_joins_them() {
    for base in ["/", "/home/me", "/home/me/", "rel", "a//"] {
        let expected = std::path::Path::new(base).join("daemon.log");
        assert_eq!(
            daemon_log_path(base.as_bytes()),
            expected.to_str().unwrap().as_bytes().to_vec()
        );
    }
}

#[test]
fn without_a_home_there_is_no_config_directory() {
    match config_dir_in(None) {
        Ok(_) => panic!(),
        Err(e) => {
            assert!(matches!(e, CtlError::NoHome));
            assert_eq!(e.message(), "no home dir");
        }
    }
}

#[test]
fn the_config_directory_lies_in_the_home_directory() {
    let home = dirs::home_dir().map(|h| h.to_str().unwrap().as_bytes().to_vec());
    match (config_dir(), config_dir_in(home)) {
        (Ok(dir), Ok(expected)) => {
            assert_eq!(dir, expected);
            assert!(dir.ends_with(b"/.codexctl"));
        }
        (Err(CtlError::NoHome), Err(CtlError::NoHome)) => {}
        _ => panic!(),
    }
}

#[test]
fn time_stamps_are_seconds_since_the_epoch() {
    assert_eq!(unix_time(Some(1700000000)), 1700000000);
    assert_eq!(unix_time(None), 0);
    let before = std::time::SystemTime::now()
        .duration_since(std::time::UNIX_EPOCH)
        .unwrap()
        .as_secs();
    let now = unix_now();
    assert!(before <= now && now <= before + 20);
}

#[test]
fn what_is_registered_is_found() {
    let registry = Registry::new()
        .with("beta".to_string(), entry("t-2", None))
        .with("alpha".to_string(), entry("t-1", Some("/a")));
    match lookup_thread(&registry, "alpha") {
        Ok(found) => {
            assert_eq!(found.thread_id, "t-1");
            assert_eq!(found.cwd, Some("/a".to_string()));
            assert_eq!(found.model, Some("gpt-5.5".to_string()));
            assert_eq!(found.sandbox, Some("workspace-write".to_string()));
            assert_eq!(found.created_at_unix, 1700000000);
        }
        Err(_) => panic!(),
    }
    assert!(registry.get("gamma").is_none());
    assert_eq!(names(&registry), vec!["alpha", "beta"]);
    assert_eq!(registry.daemon_port(), None);
}

#[test]
fn an_unknown_thread_is_not_found() {
    match lookup_thread(&Registry::new(), "ghost") {
        Ok(_) => panic!(),
        Err(e) => {
            assert!(matches!(&e, CtlError::NoThread(name) if name == "ghost"));
            assert_eq!(e.message(), "no thread named 'ghost'; try `codexctl ls`");
        }
    }
}

#[test]
fn registering_again_replaces() {
    let registry = Registry::new()
        .with("a".to_string(), entry("t-1", None))
        .with("b".to_string(), entry("t-2", None))
        .with("a".to_string(), entry("t-3", None));
    assert_eq!(names(&registry), vec!["a", "b"]);
    assert_eq!(registry.get("a").unwrap().thread_id, "t-3");
    assert_eq!(registry.get("b").unwrap().thread_id, "t-2");
}

#[test]
fn unregistering_undoes_registering() {
    let registry = Registry::new()
        .with("a".to_string(), entry("t-1", None))
        .with("c".to_string(), entry("t-3", None));
    let grown = registry.copy().with("b".to_string(), entry("t-2", None));
    assert_eq!(names(&grown), vec!["a", "b", "c"]);
    let back = grown.without("b");
    assert_eq!(names(&back), names(&registry));
    assert!(back.get("b").is_none());
    assert_eq!(back.get("c").unwrap().thread_id, "t-3");
    assert_eq!(names(&back.without("nobody")), vec!["a", "c"]);
}

#[test]
fn a_registry_is_rebuilt_from_its_entries() {
    let registry = Registry::from_threads(
        Some(7373),
        vec![
            ("b".to_string(), entry("t-2", None)),
            ("a".to_string(), entry("t-1", None)),
            ("b".to_string(), entry("t-4", Some("/b"))),
        ],
    );
    assert_eq!(registry.daemon_port(), Some(7373));
    assert_eq!(names(&registry), vec!["a", "b"]);
    assert_eq!(registry.get("b").unwrap().thread_id, "t-4");
    let pairs = registry.threads().iter().map(|pair| (pair.0.clone(), pair.1.copy())).collect();
    let again = Registry::from_threads(registry.daemon_port(), pairs);
    assert_eq!(names(&again), names(&registry));
    assert_eq!(again.get("b").unwrap().cwd, Some("/b".to_string()));
}

#[test]
fn a_missing_or_empty_registry_file_is_an_empty_registry() {
    for contents in [None, Some(Vec::new())] {
        match read_registry(contents) {
            RegistryRead::Ready(registry) => assert!(names(&registry).is_empty()),
            RegistryRead::Parse(_) => panic!(),
        }
    }
    match read_registry(Some(b"{}".to_vec())) {
        RegistryRead::Ready(_) => panic!(),
        RegistryRead::Parse(bytes) => assert_eq!(bytes, b"{}".to_vec()),
    }
}

#[test]
fn an_unreadable_registry_is_an_empty_registry() {
    assert!(names(&parsed_registry(None)).is_empty());
    let registry = Registry::new().with("a".to_string(), entry("t-1", None));
    assert_eq!(names(&parsed_registry(Some(registry))), vec!["a"]);
}

fn drafting(body: &[u8]) -> RegistryWrite {
    let (session, action) = write_registry(b"/c".to_vec(), body.to_vec());
    match action {
        WriteAction::WriteDraft { path, body: written } => {
            assert_eq!(path, b"/c/threads.json.tmp".to_vec());
            assert_eq!(written, body.to_vec());
        }
        _ => panic!(),
    }
    session
}

fn is_plain_failure(action: WriteAction) -> bool {
    matches!(action, WriteAction::Fail(CtlError::Outside(contexts)) if contexts.is_empty())
}

#[test]
fn a_registry_is_drafted_and_then_takes_its_place() {
    let (session, action) = drafting(b"{}").step(true);
    match action {
        WriteAction::Rename { draft, target } => {
            assert_eq!(draft, b"/c/threads.json.tmp".to_vec());
            assert_eq!(target, b"/c/threads.json".to_vec());
        }
        _ => panic!(),
    }
    let (session, action) = session.step(true);
    assert!(matches!(action, WriteAction::Finish));
    assert!(is_plain_failure(session.step(true).1));
}

#[test]
fn a_draft_that_fails_leaves_the_registry_alone() {
    let (session, action) = drafting(b"{}").step(false);
    assert!(is_plain_failure(action));
    assert!(is_plain_failure(session.step(true).1));
    let (session, _) = drafting(b"{}").step(true);
    assert!(is_plain_failure(session.step(false).1));
}

fn write_all(files: &mut HashMap<Vec<u8>, Vec<u8>>, body: &[u8], renames: bool) -> bool {
    let (mut session, mut action) = write_registry(b"/c".to_vec(), body.to_vec());
    loop {
        let done = match action {
            WriteAction::WriteDraft { path, body } => {
                files.insert(path, body);
                true
            }
            WriteAction::Rename { draft, target } => {
                if renames {
                    let body = files.remove(&draft).unwrap();
                    files.insert(target, body);
                }
                renames
            }
            WriteAction::Finish => return true,
            WriteAction::Fail(_) => return false,
        };
        let (next, after) = session.step(done);
        session = next;
        action = after;
    }
}

#[test]
fn the_last_write_is_read() {
    let mut files = HashMap::new();
    assert!(write_all(&mut files, b"first", true));
    assert!(write_all(&mut files, b"second", true));
    assert!(!write_all(&mut files, b"third", false));
    let contents = files.get(&registry_path(b"/c")).cloned();
    match read_registry(contents) {
        RegistryRead::Parse(bytes) => assert_eq!(bytes, b"second".to_vec()),
        RegistryRead::Ready(_) => panic!(),
    }
}

#[test]
fn an_empty_listing_gives_a_hint() {
    assert_eq!(
        cmd_ls(&Registry::new()),
        "(no threads; create with `codexctl start <name> --cwd <path>`)\n"
    );
}

#[test]
fn the_listing_has_a_line_for_each_thread_in_order() {
    let registry = Registry::new()
        .with("zeta".to_string(), entry("0199-zzz", None))
        .with("a-name-that-is-longer-than-its-column".to_string(), entry("0199-aaa", Some("/w")))
        .with("Beta".to_string(), entry("0199-bbb", Some("/work dir")));
    let mut expected = format!("{:<24}  {:<40}  {}\n", "NAME", "THREAD", "CWD");
    expected += &format!("{:<24}  {:<40}  {}\n", "Beta", "0199-bbb", "/work dir");
    expected += &format!(
        "{:<24}  {:<40}  {}\n",
        "a-name-that-is-longer-than-its-column", "0199-aaa", "/w"
    );
    expected += &format!("{:<24}  {:<40}  {}\n", "zeta", "0199-zzz", "-");
    assert_eq!(cmd_ls(&registry), expected);
}
