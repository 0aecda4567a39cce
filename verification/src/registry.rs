//! The registry of named threads.
use vstd::prelude::*;
use vstd::string::*;

use crate::error::{texts, CtlError, CtlErrorView};
use crate::paths::{joined, law_files_apart, registry_draft_path, registry_path};
use crate::text::{
    copy_opt, is_before, lemma_text_less_total, lemma_text_less_transitive, opt_text, same_text,
    text_less,
};

verus! {

/// What the registry knows of a thread.
pub struct ThreadEntry {
    pub thread_id: String,
    pub cwd: Option<String>,
    pub model: Option<String>,
    pub sandbox: Option<String>,
    pub created_at_unix: u64,
}

/// What a `ThreadEntry` says.
pub struct EntryView {
    pub thread_id: Seq<char>,
    pub cwd: Option<Seq<char>>,
    pub model: Option<Seq<char>>,
    pub sandbox: Option<Seq<char>>,
    pub created_at_unix: u64,
}

impl View for ThreadEntry {
    type V = EntryView;

    open spec fn view(&self) -> EntryView {
        EntryView {
            thread_id: self.thread_id@,
            cwd: opt_text(self.cwd),
            model: opt_text(self.model),
            sandbox: opt_text(self.sandbox),
            created_at_unix: self.created_at_unix,
        }
    }
}

impl ThreadEntry {
    /// A copy of this entry.
    pub fn copy(&self) -> (r: ThreadEntry)
        ensures
            r@ == self@,
    {
        ThreadEntry {
            thread_id: self.thread_id.clone(),
            cwd: copy_opt(&self.cwd),
            model: copy_opt(&self.model),
            sandbox: copy_opt(&self.sandbox),
            created_at_unix: self.created_at_unix,
        }
    }
}

/// The thread entries by name, and the port that the daemon was last known on.
pub struct Registry {
    daemon_port: Option<u16>,
    threads: Vec<(String, ThreadEntry)>,
}

/// What a `Registry` holds.
pub struct RegistryView {
    pub daemon_port: Option<u16>,
    pub threads: Map<Seq<char>, EntryView>,
}

/// Whether each of `names` stands before the next, in the order of their code points.
pub open spec fn ascending(names: Seq<Seq<char>>) -> bool {
    forall|i: int, j: int| 0 <= i < j < names.len() ==> text_less(#[trigger] names[i], #[trigger] names[j])
}

/// The names of a list of named entries.
pub open spec fn names_of(pairs: Seq<(String, ThreadEntry)>) -> Seq<Seq<char>> {
    Seq::new(pairs.len(), |i: int| pairs[i].0@)
}

/// A place of `name` in a list of names.
pub open spec fn place_of(names: Seq<Seq<char>>, name: Seq<char>) -> int {
    choose|i: int| 0 <= i < names.len() && names[i] == name
}

/// The entries of a list by their names.
pub open spec fn entries_by_name(pairs: Seq<(String, ThreadEntry)>) -> Map<Seq<char>, EntryView> {
    Map::new(
        |name: Seq<char>| names_of(pairs).contains(name),
        |name: Seq<char>| pairs[place_of(names_of(pairs), name)].1@,
    )
}

impl View for Registry {
    type V = RegistryView;

    closed spec fn view(&self) -> RegistryView {
        RegistryView {
            daemon_port: self.daemon_port,
            threads: entries_by_name(self.threads@),
        }
    }
}

/// A registry that holds nothing.
pub open spec fn empty_registry() -> RegistryView {
    RegistryView { daemon_port: None, threads: Map::empty() }
}

/// `registry` with `entry` under `name`, in place of what was there.
pub open spec fn registered(
    registry: RegistryView,
    name: Seq<char>,
    entry: EntryView,
) -> RegistryView {
    RegistryView { threads: registry.threads.insert(name, entry), ..registry }
}

/// `registry` without what it holds under `name`.
pub open spec fn unregistered(registry: RegistryView, name: Seq<char>) -> RegistryView {
    RegistryView { threads: registry.threads.remove(name), ..registry }
}

/// In an ascending list a name has one place.
proof fn lemma_place(names: Seq<Seq<char>>, i: int)
    requires
        ascending(names),
        0 <= i < names.len(),
    ensures
        place_of(names, names[i]) == i,
        names.contains(names[i]),
{
    let k = place_of(names, names[i]);
    assert(0 <= k < names.len() && names[k] == names[i]);
    lemma_text_less_total(names[i], names[k]);
    if i < k {
        assert(text_less(names[i], names[k]));
    } else if k < i {
        assert(text_less(names[k], names[i]));
    }
}

/// What lies under the name at place `i` of an ascending list.
pub proof fn lemma_entry_at(pairs: Seq<(String, ThreadEntry)>, i: int)
    requires
        ascending(names_of(pairs)),
        0 <= i < pairs.len(),
    ensures
        entries_by_name(pairs).contains_key(pairs[i].0@),
        entries_by_name(pairs)[pairs[i].0@] == pairs[i].1@,
{
    lemma_place(names_of(pairs), i);
    assert(names_of(pairs)[i] == pairs[i].0@);
}

/// A list of named entries is known by its ascending order and by what lies at each place.
proof fn lemma_entries_are(
    pairs: Seq<(String, ThreadEntry)>,
    expected: Map<Seq<char>, EntryView>,
)
    requires
        ascending(names_of(pairs)),
        forall|i: int|
            0 <= i < pairs.len() ==> expected.contains_key((#[trigger] pairs[i]).0@)
                && expected[pairs[i].0@] == pairs[i].1@,
        forall|name: Seq<char>| #[trigger]
            expected.contains_key(name) ==> names_of(pairs).contains(name),
    ensures
        entries_by_name(pairs) == expected,
{
    let found = entries_by_name(pairs);
    assert forall|name: Seq<char>| found.contains_key(name) implies expected.contains_key(name)
        && found[name] == expected[name] by {
        let i = choose|i: int| 0 <= i < names_of(pairs).len() && names_of(pairs)[i] == name;
        assert(pairs[i].0@ == name);
        lemma_entry_at(pairs, i);
    }
    assert(found =~= expected);
}

/// An entry for a new name, put before the first name that follows it.
proof fn lemma_inserted(
    before: Seq<(String, ThreadEntry)>,
    at: int,
    pair: (String, ThreadEntry),
)
    requires
        ascending(names_of(before)),
        0 <= at <= before.len(),
        forall|j: int| 0 <= j < at ==> text_less((#[trigger] before[j]).0@, pair.0@),
        at < before.len() ==> text_less(pair.0@, before[at].0@),
    ensures
        ascending(names_of(before.insert(at, pair))),
        entries_by_name(before.insert(at, pair)) == entries_by_name(before).insert(
            pair.0@,
            pair.1@,
        ),
{
    let after = before.insert(at, pair);
    let old_names = names_of(before);
    let names = names_of(after);
    assert forall|j: int| at <= j < before.len() implies text_less(
        pair.0@,
        (#[trigger] before[j]).0@,
    ) by {
        if j > at {
            assert(text_less(old_names[at], old_names[j]));
            lemma_text_less_transitive(pair.0@, before[at].0@, before[j].0@);
        }
    }
    assert forall|i: int, j: int| 0 <= i < j < names.len() implies text_less(
        #[trigger] names[i],
        #[trigger] names[j],
    ) by {
        let i0 = if i < at {
            i
        } else {
            i - 1
        };
        let j0 = if j < at {
            j
        } else {
            j - 1
        };
        if i != at && j != at {
            assert(names[i] == old_names[i0]);
            assert(names[j] == old_names[j0]);
            assert(text_less(old_names[i0], old_names[j0]));
        } else if i == at {
            assert(names[j] == before[j0].0@);
        } else {
            assert(names[i] == before[i0].0@);
        }
    }
    let expected = entries_by_name(before).insert(pair.0@, pair.1@);
    assert forall|i: int| 0 <= i < after.len() implies expected.contains_key(
        (#[trigger] after[i]).0@,
    ) && expected[after[i].0@] == after[i].1@ by {
        if i != at {
            let i0 = if i < at {
                i
            } else {
                i - 1
            };
            assert(after[i] == before[i0]);
            lemma_entry_at(before, i0);
            lemma_text_less_total(before[i0].0@, pair.0@);
        }
    }
    assert forall|name: Seq<char>| #[trigger] expected.contains_key(name) implies names.contains(
        name,
    ) by {
        if name == pair.0@ {
            assert(names[at] == name);
        } else {
            let i0 = choose|i: int| 0 <= i < old_names.len() && old_names[i] == name;
            let i = if i0 < at {
                i0
            } else {
                i0 + 1
            };
            assert(names[i] == name);
        }
    }
    lemma_entries_are(after, expected);
}

/// An entry for a name that has one already.
proof fn lemma_replaced(
    before: Seq<(String, ThreadEntry)>,
    at: int,
    pair: (String, ThreadEntry),
)
    requires
        ascending(names_of(before)),
        0 <= at < before.len(),
        before[at].0@ == pair.0@,
    ensures
        ascending(names_of(before.update(at, pair))),
        entries_by_name(before.update(at, pair)) == entries_by_name(before).insert(
            pair.0@,
            pair.1@,
        ),
{
    let after = before.update(at, pair);
    assert(names_of(after) =~= names_of(before));
    let names = names_of(before);
    let expected = entries_by_name(before).insert(pair.0@, pair.1@);
    assert forall|i: int| 0 <= i < after.len() implies expected.contains_key(
        (#[trigger] after[i]).0@,
    ) && expected[after[i].0@] == after[i].1@ by {
        if i != at {
            lemma_entry_at(before, i);
            lemma_place(names, i);
            lemma_place(names, at);
            assert(names[i] == before[i].0@);
            assert(names[at] == pair.0@);
        }
    }
    assert forall|name: Seq<char>| #[trigger] expected.contains_key(name) implies names_of(
        after,
    ).contains(name) by {
        if name == pair.0@ {
            assert(names[at] == name);
        }
    }
    lemma_entries_are(after, expected);
}

/// The list without the entry at place `at`.
proof fn lemma_removed(before: Seq<(String, ThreadEntry)>, at: int)
    requires
        ascending(names_of(before)),
        0 <= at < before.len(),
    ensures
        ascending(names_of(before.remove(at))),
        entries_by_name(before.remove(at)) == entries_by_name(before).remove(before[at].0@),
{
    let after = before.remove(at);
    let old_names = names_of(before);
    let names = names_of(after);
    assert forall|i: int, j: int| 0 <= i < j < names.len() implies text_less(
        #[trigger] names[i],
        #[trigger] names[j],
    ) by {
        let i0 = if i < at {
            i
        } else {
            i + 1
        };
        let j0 = if j < at {
            j
        } else {
            j + 1
        };
        assert(names[i] == old_names[i0]);
        assert(names[j] == old_names[j0]);
        assert(text_less(old_names[i0], old_names[j0]));
    }
    let expected = entries_by_name(before).remove(before[at].0@);
    assert forall|i: int| 0 <= i < after.len() implies expected.contains_key(
        (#[trigger] after[i]).0@,
    ) && expected[after[i].0@] == after[i].1@ by {
        let i0 = if i < at {
            i
        } else {
            i + 1
        };
        assert(after[i] == before[i0]);
        lemma_entry_at(before, i0);
        lemma_place(old_names, i0);
        lemma_place(old_names, at);
        assert(old_names[i0] == before[i0].0@);
        assert(old_names[at] == before[at].0@);
    }
    assert forall|name: Seq<char>| #[trigger] expected.contains_key(name) implies names.contains(
        name,
    ) by {
        let i0 = choose|i: int| 0 <= i < old_names.len() && old_names[i] == name;
        assert(i0 != at);
        let i = if i0 < at {
            i0
        } else {
            i0 - 1
        };
        assert(names[i] == name);
    }
    lemma_entries_are(after, expected);
}

impl Registry {
    /// The names are in ascending order, so none occurs twice.
    #[verifier::type_invariant]
    spec fn in_order(self) -> bool {
        ascending(names_of(self.threads@))
    }

    /// A registry that holds nothing.
    pub fn new() -> (r: Registry)
        ensures
            r@ == empty_registry(),
    {
        let r = Registry { daemon_port: None, threads: Vec::new() };
        assert(r@.threads =~= Map::empty());
        r
    }

    /// A copy of this registry.
    pub fn copy(&self) -> (r: Registry)
        ensures
            r@ == self@,
    {
        proof {
            use_type_invariant(self);
        }
        let mut threads: Vec<(String, ThreadEntry)> = Vec::new();
        let mut i: usize = 0;
        while i < self.threads.len()
            invariant
                i <= self.threads@.len(),
                threads@.len() == i,
                forall|j: int|
                    0 <= j < i ==> (#[trigger] threads@[j]).0@ == self.threads@[j].0@
                        && threads@[j].1@ == self.threads@[j].1@,
            decreases self.threads@.len() - i,
        {
            threads.push((self.threads[i].0.clone(), self.threads[i].1.copy()));
            i = i + 1;
        }
        assert(names_of(threads@) =~= names_of(self.threads@));
        assert(entries_by_name(threads@) =~= entries_by_name(self.threads@));
        Registry { daemon_port: self.daemon_port, threads }
    }

    /// The port that the daemon was last known on.
    pub fn daemon_port(&self) -> (r: Option<u16>)
        ensures
            r == self@.daemon_port,
    {
        self.daemon_port
    }

    /// The entries with their names, in ascending order of the names.
    pub fn threads(&self) -> (r: &Vec<(String, ThreadEntry)>)
        ensures
            ascending(names_of(r@)),
            entries_by_name(r@) == self@.threads,
    {
        proof {
            use_type_invariant(self);
        }
        &self.threads
    }

    /// What is registered under `name`.
    pub fn get(&self, name: &str) -> (r: Option<&ThreadEntry>)
        ensures
            match r {
                Some(entry) => self@.threads.contains_key(name@) && self@.threads[name@]
                    == entry@,
                None => !self@.threads.contains_key(name@),
            },
    {
        proof {
            use_type_invariant(self);
        }
        let mut i: usize = 0;
        while i < self.threads.len()
            invariant
                ascending(names_of(self.threads@)),
                i <= self.threads@.len(),
                forall|j: int| 0 <= j < i ==> (#[trigger] self.threads@[j]).0@ != name@,
            decreases self.threads@.len() - i,
        {
            if same_text(self.threads[i].0.as_str(), name) {
                proof {
                    lemma_entry_at(self.threads@, i as int);
                }
                return Some(&self.threads[i].1);
            }
            i = i + 1;
        }
        assert(!names_of(self.threads@).contains(name@));
        None
    }

    /// This registry with `entry` under `name`, in place of what was there.
    pub fn with(self, name: String, entry: ThreadEntry) -> (r: Registry)
        ensures
            r@ == registered(self@, name@, entry@),
    {
        proof {
            use_type_invariant(&self);
        }
        let Registry { daemon_port, threads } = self;
        let mut threads: Vec<(String, ThreadEntry)> = threads;
        let ghost before = threads@;
        let mut at: usize = 0;
        while at < threads.len() && is_before(threads[at].0.as_str(), name.as_str())
            invariant
                at <= threads@.len(),
                forall|j: int|
                    0 <= j < at ==> text_less((#[trigger] threads@[j]).0@, name@),
            decreases threads@.len() - at,
        {
            at = at + 1;
        }
        if at < threads.len() && same_text(threads[at].0.as_str(), name.as_str()) {
            proof {
                lemma_replaced(before, at as int, (name, entry));
            }
            threads.remove(at);
            threads.insert(at, (name, entry));
            assert(threads@ =~= before.update(at as int, (name, entry)));
        } else {
            proof {
                if at < before.len() {
                    lemma_text_less_total(before[at as int].0@, name@);
                }
                lemma_inserted(before, at as int, (name, entry));
            }
            threads.insert(at, (name, entry));
        }
        Registry { daemon_port, threads }
    }

    /// This registry without what it holds under `name`.
    pub fn without(self, name: &str) -> (r: Registry)
        ensures
            r@ == unregistered(self@, name@),
    {
        proof {
            use_type_invariant(&self);
        }
        let Registry { daemon_port, threads } = self;
        let mut threads: Vec<(String, ThreadEntry)> = threads;
        let ghost before = threads@;
        let mut at: usize = 0;
        while at < threads.len() && !same_text(threads[at].0.as_str(), name)
            invariant
                at <= threads@.len(),
                forall|j: int| 0 <= j < at ==> (#[trigger] threads@[j]).0@ != name@,
            decreases threads@.len() - at,
        {
            at = at + 1;
        }
        if at < threads.len() {
            proof {
                lemma_removed(before, at as int);
            }
            threads.remove(at);
        } else {
            assert(!names_of(before).contains(name@));
            assert(entries_by_name(before) =~= entries_by_name(before).remove(name@));
        }
        Registry { daemon_port, threads }
    }

    /// The registry that holds the given entries. Of two with one name the later one counts.
    pub fn from_threads(daemon_port: Option<u16>, threads: Vec<(String, ThreadEntry)>) -> (r:
        Registry)
        ensures
            r@ == (RegistryView { daemon_port, threads: last_entries(threads@) }),
    {
        let ghost all = threads@;
        let mut r: Registry = Registry { daemon_port, threads: Vec::new() };
        assert(r@.threads =~= last_entries(all.take(0)));
        for pair in it: threads
            invariant
                it.seq() == all,
                r@.daemon_port == daemon_port,
                r@.threads == last_entries(all.take(it.index() as int)),
        {
            assert(all.take(it.index() + 1).drop_last() =~= all.take(it.index() as int));
            r = r.with(pair.0, pair.1);
        }
        assert(all.take(all.len() as int) =~= all);
        r
    }
}

/// The entries of a list by their names, where of two with one name the later one counts.
pub open spec fn last_entries(pairs: Seq<(String, ThreadEntry)>) -> Map<Seq<char>, EntryView>
    decreases pairs.len(),
{
    if pairs.len() == 0 {
        Map::empty()
    } else {
        last_entries(pairs.drop_last()).insert(pairs.last().0@, pairs.last().1@)
    }
}

/// What is registered under `name`, or that nothing is.
pub fn lookup_thread(registry: &Registry, name: &str) -> (r: Result<ThreadEntry, CtlError>)
    ensures
        if registry@.threads.contains_key(name@) {
            r matches Ok(entry) && entry@ == registry@.threads[name@]
        } else {
            r matches Err(e) && e@ == CtlErrorView::NoThread(name@)
        },
{
    match registry.get(name) {
        Some(entry) => Ok(entry.copy()),
        None => Err(CtlError::NoThread(name.to_owned())),
    }
}

/// What becomes of the registry file's contents.
pub enum RegistryRead {
    /// The registry is known.
    Ready(Registry),
    /// The registry is what these bytes say.
    Parse(Vec<u8>),
}

/// What a `RegistryRead` says.
pub enum RegistryReadView {
    Ready(RegistryView),
    Parse(Seq<u8>),
}

impl View for RegistryRead {
    type V = RegistryReadView;

    open spec fn view(&self) -> RegistryReadView {
        match self {
            RegistryRead::Ready(registry) => RegistryReadView::Ready(registry@),
            RegistryRead::Parse(bytes) => RegistryReadView::Parse(bytes@),
        }
    }
}

/// What becomes of the registry file's contents, or of a file that does not exist.
pub open spec fn registry_read(contents: Option<Seq<u8>>) -> RegistryReadView {
    match contents {
        Some(bytes) if bytes.len() > 0 => RegistryReadView::Parse(bytes),
        _ => RegistryReadView::Ready(empty_registry()),
    }
}

/// The bytes of an optional file.
pub open spec fn opt_bytes(contents: Option<Vec<u8>>) -> Option<Seq<u8>> {
    match contents {
        Some(bytes) => Some(bytes@),
        None => None,
    }
}

/// Reads the registry file, which holds `contents` or does not exist. A file that does not exist
/// or is empty stands for an empty registry.
pub fn read_registry(contents: Option<Vec<u8>>) -> (r: RegistryRead)
    ensures
        r@ == registry_read(opt_bytes(contents)),
{
    match contents {
        Some(bytes) => {
            if bytes.len() > 0 {
                RegistryRead::Parse(bytes)
            } else {
                RegistryRead::Ready(Registry::new())
            }
        },
        None => RegistryRead::Ready(Registry::new()),
    }
}

/// The registry that a file's bytes stand for: what they were parsed as, or an empty registry
/// where they could not be parsed.
pub open spec fn registry_parsed(parsed: Option<RegistryView>) -> RegistryView {
    match parsed {
        Some(registry) => registry,
        None => empty_registry(),
    }
}

/// The registry that a file's bytes stand for.
pub fn parsed_registry(parsed: Option<Registry>) -> (r: Registry)
    ensures
        r@ == registry_parsed(
            match parsed {
                Some(registry) => Some(registry@),
                None => None,
            },
        ),
{
    match parsed {
        Some(registry) => registry,
        None => Registry::new(),
    }
}

/// What is to be done next to write a registry.
pub enum WriteAction {
    /// Write these bytes to this file, in place of what it holds.
    WriteDraft { path: Vec<u8>, body: Vec<u8> },
    /// Give the first file the second one's name, in place of what has that name.
    Rename { draft: Vec<u8>, target: Vec<u8> },
    /// Nothing more; the registry is written.
    Finish,
    /// Nothing more; the registry could not be written.
    Fail(CtlError),
}

/// What a `WriteAction` asks for.
pub enum WriteActionView {
    WriteDraft { path: Seq<u8>, body: Seq<u8> },
    Rename { draft: Seq<u8>, target: Seq<u8> },
    Finish,
    Fail(CtlErrorView),
}

impl View for WriteAction {
    type V = WriteActionView;

    open spec fn view(&self) -> WriteActionView {
        match self {
            WriteAction::WriteDraft { path, body } => WriteActionView::WriteDraft {
                path: path@,
                body: body@,
            },
            WriteAction::Rename { draft, target } => WriteActionView::Rename {
                draft: draft@,
                target: target@,
            },
            WriteAction::Finish => WriteActionView::Finish,
            WriteAction::Fail(e) => WriteActionView::Fail(e@),
        }
    }
}

/// How far a write has come.
#[derive(Clone, Copy, PartialEq, Eq, Structural)]
pub enum WritePhase {
    Drafting,
    Renaming,
    Ended,
}

/// A write of the registry in a directory.
pub struct RegistryWrite {
    pub dir: Vec<u8>,
    pub phase: WritePhase,
}

/// The file that a registry is drafted in.
pub open spec fn draft_file(dir: Seq<u8>) -> Seq<u8> {
    joined(dir, "threads.json.tmp"@)
}

/// The file that holds the registry.
pub open spec fn registry_file(dir: Seq<u8>) -> Seq<u8> {
    joined(dir, "threads.json"@)
}

/// How a write begins: its bytes go to the draft.
pub open spec fn write_first(dir: Seq<u8>, body: Seq<u8>) -> WriteActionView {
    WriteActionView::WriteDraft { path: draft_file(dir), body }
}

/// How a write goes on after an action that was carried out, or was not. The draft takes the
/// registry's place once it is written.
pub open spec fn write_next(dir: Seq<u8>, phase: WritePhase, done: bool) -> (
    WritePhase,
    WriteActionView,
) {
    match phase {
        WritePhase::Drafting if done => (
            WritePhase::Renaming,
            WriteActionView::Rename { draft: draft_file(dir), target: registry_file(dir) },
        ),
        WritePhase::Renaming if done => (WritePhase::Ended, WriteActionView::Finish),
        _ => (
            WritePhase::Ended,
            WriteActionView::Fail(CtlErrorView::Outside(Seq::empty())),
        ),
    }
}

/// Begins to write a registry, which comes as `body`, to its file in `config_dir`.
pub fn write_registry(config_dir: Vec<u8>, body: Vec<u8>) -> (r: (RegistryWrite, WriteAction))
    ensures
        r.0.dir@ == config_dir@,
        r.0.phase == WritePhase::Drafting,
        r.1@ == write_first(config_dir@, body@),
{
    let path: Vec<u8> = registry_draft_path(config_dir.as_slice());
    (
        RegistryWrite { dir: config_dir, phase: WritePhase::Drafting },
        WriteAction::WriteDraft { path, body },
    )
}

impl RegistryWrite {
    /// Goes on after an action that was carried out, or was not.
    pub fn step(self, done: bool) -> (r: (RegistryWrite, WriteAction))
        ensures
            r.0.dir@ == self.dir@,
            (r.0.phase, r.1@) == write_next(self.dir@, self.phase, done),
    {
        let (phase, action) = match self.phase {
            WritePhase::Drafting if done => {
                let draft: Vec<u8> = registry_draft_path(self.dir.as_slice());
                let target: Vec<u8> = registry_path(self.dir.as_slice());
                (WritePhase::Renaming, WriteAction::Rename { draft, target })
            },
            WritePhase::Renaming if done => (WritePhase::Ended, WriteAction::Finish),
            _ => {
                let contexts: Vec<String> = Vec::new();
                assert(texts(contexts@) =~= Seq::empty());
                (WritePhase::Ended, WriteAction::Fail(CtlError::Outside(contexts)))
            },
        };
        (RegistryWrite { phase, ..self }, action)
    }
}

/// Whether files that were `before` may be `after` once `action` was carried out, or was not.
/// A file whose writing failed may hold anything; a renaming is done as a whole or not at all.
pub open spec fn files_may_become(
    before: Map<Seq<u8>, Seq<u8>>,
    action: WriteActionView,
    done: bool,
    after: Map<Seq<u8>, Seq<u8>>,
) -> bool {
    match action {
        WriteActionView::WriteDraft { path, body } => if done {
            after == before.insert(path, body)
        } else {
            after.remove(path) == before.remove(path)
        },
        WriteActionView::Rename { draft, target } => if done {
            before.contains_key(draft) && after == before.remove(draft).insert(
                target,
                before[draft],
            )
        } else {
            after == before
        },
        _ => after == before,
    }
}

/// What files may be before and after a write of `body`, and whether it succeeds: the draft is
/// written or not, and where it was, it is renamed or not.
pub open spec fn write_may_give(
    dir: Seq<u8>,
    body: Seq<u8>,
    before: Map<Seq<u8>, Seq<u8>>,
    drafted: (bool, Map<Seq<u8>, Seq<u8>>),
    renamed: (bool, Map<Seq<u8>, Seq<u8>>),
) -> bool {
    let (phase, second) = write_next(dir, WritePhase::Drafting, drafted.0);
    files_may_become(before, write_first(dir, body), drafted.0, drafted.1) && files_may_become(
        drafted.1,
        second,
        renamed.0,
        renamed.1,
    )
}

/// The last action of a write, with these outcomes of the draft and of the renaming.
pub open spec fn write_outcome(dir: Seq<u8>, drafted: bool, renamed: bool) -> WriteActionView {
    let (phase, second) = write_next(dir, WritePhase::Drafting, drafted);
    if phase == WritePhase::Ended {
        second
    } else {
        write_next(dir, phase, renamed).1
    }
}

/// What a file holds, if it exists.
pub open spec fn contents_of(files: Map<Seq<u8>, Seq<u8>>, path: Seq<u8>) -> Option<Seq<u8>> {
    if files.contains_key(path) {
        Some(files[path])
    } else {
        None
    }
}

/// A write that fails leaves the registry's file as it was, or absent; one that succeeds leaves
/// exactly what was written there. No file but that one and the draft is touched.
pub proof fn law_write_is_whole_or_not_at_all(
    dir: Seq<u8>,
    body: Seq<u8>,
    before: Map<Seq<u8>, Seq<u8>>,
    drafted: (bool, Map<Seq<u8>, Seq<u8>>),
    renamed: (bool, Map<Seq<u8>, Seq<u8>>),
    other: Seq<u8>,
)
    requires
        write_may_give(dir, body, before, drafted, renamed),
    ensures
        write_outcome(dir, drafted.0, renamed.0) is Finish ==> contents_of(
            renamed.1,
            registry_file(dir),
        ) == Some(body),
        write_outcome(dir, drafted.0, renamed.0) is Fail ==> contents_of(
            renamed.1,
            registry_file(dir),
        ) == contents_of(before, registry_file(dir)),
        write_outcome(dir, drafted.0, renamed.0) is Finish || write_outcome(
            dir,
            drafted.0,
            renamed.0,
        ) is Fail,
        other != registry_file(dir) && other != draft_file(dir) ==> contents_of(renamed.1, other)
            == contents_of(before, other),
{
    law_files_apart(dir);
    let draft = draft_file(dir);
    if !drafted.0 {
        let kept = drafted.1.remove(draft);
        assert(contents_of(kept, registry_file(dir)) == contents_of(
            before,
            registry_file(dir),
        ));
        assert(other != draft ==> contents_of(kept, other) == contents_of(before, other));
    }
}

/// The registry's file is touched by no action but the renaming, which comes only after the
/// draft was written.
pub proof fn law_registry_file_is_only_renamed_to(
    dir: Seq<u8>,
    body: Seq<u8>,
    phase: WritePhase,
    done: bool,
)
    ensures
        write_first(dir, body)->path != registry_file(dir),
        !(write_next(dir, phase, done).1 is WriteDraft),
        write_next(dir, phase, done).1 is Rename <==> phase == WritePhase::Drafting && done,
{
    law_files_apart(dir);
}

/// The registry that a file stands for, where `parse` is what its bytes are parsed as.
pub open spec fn registry_in(
    contents: Option<Seq<u8>>,
    parse: spec_fn(Seq<u8>) -> Option<RegistryView>,
) -> RegistryView {
    match registry_read(contents) {
        RegistryReadView::Ready(registry) => registry,
        RegistryReadView::Parse(bytes) => registry_parsed(parse(bytes)),
    }
}

/// What is read is what was written last: of two registries that were written one after the
/// other, the second is read back whole, and nothing of the first, wherever its bytes are parsed
/// as the port and the named entries that they were made from.
pub proof fn law_last_write_is_read(
    dir: Seq<u8>,
    parse: spec_fn(Seq<u8>) -> Option<RegistryView>,
    registry: RegistryView,
    pairs: Seq<(String, ThreadEntry)>,
    bodies: (Seq<u8>, Seq<u8>),
    before: Map<Seq<u8>, Seq<u8>>,
    drafted: ((bool, Map<Seq<u8>, Seq<u8>>), (bool, Map<Seq<u8>, Seq<u8>>)),
    renamed: ((bool, Map<Seq<u8>, Seq<u8>>), (bool, Map<Seq<u8>, Seq<u8>>)),
)
    requires
        write_may_give(dir, bodies.0, before, drafted.0, renamed.0),
        write_may_give(dir, bodies.1, renamed.0.1, drafted.1, renamed.1),
        write_outcome(dir, drafted.1.0, renamed.1.0) is Finish,
        bodies.1.len() > 0,
        ascending(names_of(pairs)),
        entries_by_name(pairs) == registry.threads,
        parse(bodies.1) == Some(
            (RegistryView { daemon_port: registry.daemon_port, threads: last_entries(pairs) }),
        ),
    ensures
        registry_in(contents_of(renamed.1.1, registry_file(dir)), parse) == registry,
{
    law_rebuilt_registry(pairs);
    law_write_is_whole_or_not_at_all(
        dir,
        bodies.1,
        renamed.0.1,
        drafted.1,
        renamed.1,
        registry_file(dir),
    );
}

/// What is registered is found again under its name, and nothing else changes.
pub proof fn law_registered_is_found(
    registry: RegistryView,
    name: Seq<char>,
    entry: EntryView,
    other: Seq<char>,
)
    ensures
        registered(registry, name, entry).threads.contains_key(name),
        registered(registry, name, entry).threads[name] == entry,
        registered(registry, name, entry).daemon_port == registry.daemon_port,
        other != name ==> (registered(registry, name, entry).threads.contains_key(other)
            <==> registry.threads.contains_key(other)),
        other != name && registry.threads.contains_key(other) ==> registered(
            registry,
            name,
            entry,
        ).threads[other] == registry.threads[other],
{
}

/// What is unregistered is no longer found, and nothing else changes.
pub proof fn law_unregistered_is_gone(
    registry: RegistryView,
    name: Seq<char>,
    other: Seq<char>,
)
    ensures
        !unregistered(registry, name).threads.contains_key(name),
        unregistered(registry, name).daemon_port == registry.daemon_port,
        other != name ==> (unregistered(registry, name).threads.contains_key(other)
            <==> registry.threads.contains_key(other)),
        other != name && registry.threads.contains_key(other) ==> unregistered(
            registry,
            name,
        ).threads[other] == registry.threads[other],
{
}

/// Unregistering a name that was free before it was registered undoes the registration.
pub proof fn law_unregister_undoes_register(
    registry: RegistryView,
    name: Seq<char>,
    entry: EntryView,
)
    requires
        !registry.threads.contains_key(name),
    ensures
        unregistered(registered(registry, name, entry), name) == registry,
{
    assert(registry.threads.insert(name, entry).remove(name) =~= registry.threads);
}

/// A registry that is built again from the entries which it hands out is the same registry.
pub proof fn law_rebuilt_registry(pairs: Seq<(String, ThreadEntry)>)
    requires
        ascending(names_of(pairs)),
    ensures
        last_entries(pairs) == entries_by_name(pairs),
    decreases pairs.len(),
{
    if pairs.len() == 0 {
        assert(entries_by_name(pairs) =~= Map::empty());
    } else {
        let init = pairs.drop_last();
        let names = names_of(pairs);
        assert forall|i: int, j: int| 0 <= i < j < names_of(init).len() implies text_less(
            #[trigger] names_of(init)[i],
            #[trigger] names_of(init)[j],
        ) by {
            assert(text_less(names[i], names[j]));
        }
        law_rebuilt_registry(init);
        assert forall|j: int| 0 <= j < init.len() implies text_less(
            (#[trigger] init[j]).0@,
            pairs.last().0@,
        ) by {
            assert(text_less(names[j], names[pairs.len() - 1]));
        }
        lemma_inserted(init, init.len() as int, pairs.last());
        assert(init.insert(init.len() as int, pairs.last()) =~= pairs);
    }
}

/// An entry says what its fields hold.
pub proof fn law_entry_says_its_fields(entry: ThreadEntry)
    ensures
        entry@.thread_id == entry.thread_id@,
        entry@.cwd == opt_text(entry.cwd),
        entry@.model == opt_text(entry.model),
        entry@.sandbox == opt_text(entry.sandbox),
        entry@.created_at_unix == entry.created_at_unix,
        entry.cwd matches Some(cwd) ==> entry@.cwd == Some(cwd@),
        entry.model matches Some(model) ==> entry@.model == Some(model@),
        entry.sandbox matches Some(sandbox) ==> entry@.sandbox == Some(sandbox@),
        entry.cwd is None ==> entry@.cwd is None,
        entry.model is None ==> entry@.model is None,
        entry.sandbox is None ==> entry@.sandbox is None,
{
}

/// What a registry finds under a name after an entry was put there: the entry itself under its
/// own name, and under every other name what was found before.
pub proof fn law_put_entry_is_got(
    registry: Registry,
    name: String,
    entry: ThreadEntry,
    grown: Registry,
    asked: &str,
    before: Option<&ThreadEntry>,
    after: Option<&ThreadEntry>,
)
    requires
        call_ensures(Registry::with, (registry, name, entry), grown),
        call_ensures(Registry::get, (&registry, asked), before),
        call_ensures(Registry::get, (&grown, asked), after),
    ensures
        asked@ == name@ ==> (after matches Some(found) && found.thread_id@ == entry.thread_id@
            && opt_text(found.cwd) == opt_text(entry.cwd) && opt_text(found.model) == opt_text(
            entry.model,
        ) && opt_text(found.sandbox) == opt_text(entry.sandbox) && found.created_at_unix
            == entry.created_at_unix),
        asked@ != name@ ==> match before {
            Some(kept) => after matches Some(found) && found@ == kept@,
            None => after is None,
        },
        grown@.daemon_port == registry@.daemon_port,
{
    if asked@ == name@ {
        assert(after->0@ == entry@);
    }
}

/// What a registry finds under a name after one was dropped: nothing under that one, and under
/// every other what was found before.
pub proof fn law_dropped_entry_is_not_got(
    registry: Registry,
    name: &str,
    rest: Registry,
    asked: &str,
    before: Option<&ThreadEntry>,
    after: Option<&ThreadEntry>,
)
    requires
        call_ensures(Registry::without, (registry, name), rest),
        call_ensures(Registry::get, (&registry, asked), before),
        call_ensures(Registry::get, (&rest, asked), after),
    ensures
        asked@ == name@ ==> after is None,
        asked@ != name@ ==> match before {
            Some(kept) => after matches Some(found) && found@ == kept@,
            None => after is None,
        },
        rest@.daemon_port == registry@.daemon_port,
{
}

/// A new registry is empty, and a copy finds what its model finds.
pub proof fn law_new_is_empty_and_copy_is_the_same(
    registry: Registry,
    fresh: Registry,
    copied: Registry,
    asked: &str,
    in_fresh: Option<&ThreadEntry>,
)
    requires
        call_ensures(Registry::new, (), fresh),
        call_ensures(Registry::copy, (&registry,), copied),
        call_ensures(Registry::get, (&fresh, asked), in_fresh),
    ensures
        in_fresh is None,
        fresh@.daemon_port is None,
        copied@ == registry@,
{
}

/// A thread is looked up under its name: what is registered there is given back, and a name
/// without a thread is refused.
pub proof fn law_lookup_finds_what_is_registered(
    registry: &Registry,
    name: &str,
    found: Option<&ThreadEntry>,
    r: Result<ThreadEntry, CtlError>,
)
    requires
        call_ensures(Registry::get, (registry, name), found),
        call_ensures(lookup_thread, (registry, name), r),
    ensures
        match found {
            Some(entry) => r matches Ok(given) && given@ == entry@,
            None => r matches Err(CtlError::NoThread(missing)) && missing@ == name@,
        },
        found is Some <==> registry@.threads.contains_key(name@),
{
}

/// A registry that is built of a list has the names of the list and no others, and under each the
/// last entry that the list has for it.
pub proof fn law_last_entry_of_a_name_counts(
    port: Option<u16>,
    pairs: Vec<(String, ThreadEntry)>,
    name: Seq<char>,
    i: int,
    r: Registry,
)
    requires
        call_ensures(Registry::from_threads, (port, pairs), r),
    ensures
        r@.daemon_port == port,
        0 <= i < pairs@.len() && pairs@[i].0@ == name && (forall|j: int|
            i < j < pairs@.len() ==> (#[trigger] pairs@[j]).0@ != name)
            ==> r@.threads.contains_key(name) && r@.threads[name] == pairs@[i].1@,
        (forall|j: int| 0 <= j < pairs@.len() ==> (#[trigger] pairs@[j]).0@ != name)
            ==> !r@.threads.contains_key(name),
{
    lemma_last_entry(pairs@, name, i);
}

proof fn lemma_last_entry(pairs: Seq<(String, ThreadEntry)>, name: Seq<char>, i: int)
    ensures
        0 <= i < pairs.len() && pairs[i].0@ == name && (forall|j: int|
            i < j < pairs.len() ==> (#[trigger] pairs[j]).0@ != name) ==> last_entries(
            pairs,
        ).contains_key(name) && last_entries(pairs)[name] == pairs[i].1@,
        (forall|j: int| 0 <= j < pairs.len() ==> (#[trigger] pairs[j]).0@ != name)
            ==> !last_entries(pairs).contains_key(name),
    decreases pairs.len(),
{
    if pairs.len() > 0 {
        let init = pairs.drop_last();
        lemma_last_entry(init, name, i);
        assert(forall|j: int| 0 <= j < init.len() ==> init[j] == pairs[j]);
        assert(pairs.last() == pairs[pairs.len() - 1]);
        if forall|j: int| 0 <= j < pairs.len() ==> (#[trigger] pairs[j]).0@ != name {
            assert(forall|j: int| 0 <= j < init.len() ==> (#[trigger] init[j]).0@ != name);
        }
        if 0 <= i < init.len() && (forall|j: int|
            i < j < pairs.len() ==> (#[trigger] pairs[j]).0@ != name) {
            assert(forall|j: int| i < j < init.len() ==> (#[trigger] init[j]).0@ != name);
        }
    }
}

/// A registry hands its entries out in the order of their names, each once and all of them.
pub proof fn law_entries_are_handed_out_in_order(
    registry: &Registry,
    r: &Vec<(String, ThreadEntry)>,
    i: int,
    j: int,
    name: Seq<char>,
)
    requires
        call_ensures(Registry::threads, (registry,), r),
    ensures
        0 <= i < j < r@.len() ==> text_less(r@[i].0@, r@[j].0@),
        0 <= i < r@.len() ==> registry@.threads.contains_key(r@[i].0@)
            && registry@.threads[r@[i].0@] == r@[i].1@,
        registry@.threads.contains_key(name) ==> exists|k: int|
            0 <= k < r@.len() && (#[trigger] r@[k]).0@ == name,
{
    let names = names_of(r@);
    if 0 <= i < j < r@.len() {
        assert(text_less(names[i], names[j]));
    }
    if 0 <= i < r@.len() {
        lemma_entry_at(r@, i);
    }
    if registry@.threads.contains_key(name) {
        assert(names.contains(name));
        let k = choose|k: int| 0 <= k < names.len() && names[k] == name;
        assert(r@[k].0@ == name);
    }
}

/// A registry file that holds something is parsed as it is; one that holds nothing or does not
/// exist is an empty registry, and so is one that cannot be parsed.
pub proof fn law_registry_file_is_read(
    contents: Option<Vec<u8>>,
    read: RegistryRead,
    parsed: Option<Registry>,
    r: Registry,
)
    requires
        call_ensures(read_registry, (contents,), read),
        call_ensures(parsed_registry, (parsed,), r),
    ensures
        match contents {
            Some(bytes) if bytes@.len() > 0 => read matches RegistryRead::Parse(all) && all@
                == bytes@,
            _ => read matches RegistryRead::Ready(registry) && registry@.daemon_port is None
                && registry@.threads == Map::<Seq<char>, EntryView>::empty(),
        },
        parsed matches Some(registry) ==> r@ == registry@,
        parsed is None ==> r@.daemon_port is None && r@.threads == Map::<
            Seq<char>,
            EntryView,
        >::empty(),
{
}

/// A registry is written to its draft with the bytes that it comes as, and the draft then takes
/// the registry's place; a write that fails says so and does nothing more.
pub proof fn law_registry_is_written_through_its_draft(
    dir: Vec<u8>,
    body: Vec<u8>,
    first: (RegistryWrite, WriteAction),
    session: RegistryWrite,
    done: bool,
    r: (RegistryWrite, WriteAction),
)
    requires
        call_ensures(write_registry, (dir, body), first),
        call_ensures(RegistryWrite::step, (session, done), r),
    ensures
        first.0.dir@ == dir@,
        first.0.phase is Drafting,
        first.1 matches WriteAction::WriteDraft { path, body: written } && path@ == joined(
            dir@,
            "threads.json.tmp"@,
        ) && written@ == body@,
        r.0.dir@ == session.dir@,
        session.phase is Drafting && done ==> r.0.phase is Renaming && (
        r.1 matches WriteAction::Rename { draft, target } && draft@ == joined(
            session.dir@,
            "threads.json.tmp"@,
        ) && target@ == joined(session.dir@, "threads.json"@)),
        session.phase is Renaming && done ==> r.0.phase is Ended && r.1 is Finish,
        !done || session.phase is Ended ==> r.0.phase is Ended && r.1 is Fail,
{
}

} // verus!
