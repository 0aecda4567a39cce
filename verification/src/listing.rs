//! The list of named threads.
use vstd::prelude::*;
use vstd::string::*;

use crate::registry::{
    ascending, entries_by_name, lemma_entry_at, names_of, EntryView, Registry, ThreadEntry,
};
use crate::text::{lemma_text_less_total, padded, push_padded, text_less};

verus! {

/// How wide the column of the names is.
pub const NAME_WIDTH: usize = 24;

/// How wide the column of the thread ids is.
pub const THREAD_WIDTH: usize = 40;

/// A line of the list.
pub open spec fn row(name: Seq<char>, thread: Seq<char>, cwd: Seq<char>) -> Seq<char> {
    padded(name, NAME_WIDTH as nat) + "  "@ + padded(thread, THREAD_WIDTH as nat) + "  "@ + cwd
        + "\n"@
}

/// The line of a named thread. A thread without a directory shows a dash.
pub open spec fn thread_row(name: Seq<char>, entry: EntryView) -> Seq<char> {
    row(
        name,
        entry.thread_id,
        match entry.cwd {
            Some(cwd) => cwd,
            None => "-"@,
        },
    )
}

/// The lines of the threads with these names, in their order.
pub open spec fn rows(threads: Map<Seq<char>, EntryView>, names: Seq<Seq<char>>) -> Seq<char>
    decreases names.len(),
{
    if names.len() == 0 {
        ""@
    } else {
        rows(threads, names.drop_last()) + thread_row(names.last(), threads[names.last()])
    }
}

/// Whether these are the names of the threads, each once and in ascending order.
pub open spec fn lists_names(
    threads: Map<Seq<char>, EntryView>,
    names: Seq<Seq<char>>,
) -> bool {
    ascending(names) && forall|name: Seq<char>| #[trigger]
        names.contains(name) <==> threads.contains_key(name)
}

/// The names of the threads in ascending order.
pub open spec fn sorted_names(threads: Map<Seq<char>, EntryView>) -> Seq<Seq<char>> {
    choose|names: Seq<Seq<char>>| lists_names(threads, names)
}

/// The list of named threads: a heading and a line for each in the order of the names, or a hint
/// where there is none.
pub open spec fn listing(threads: Map<Seq<char>, EntryView>) -> Seq<char> {
    if threads == Map::<Seq<char>, EntryView>::empty() {
        "(no threads; create with `codexctl start <name> --cwd <path>`)\n"@
    } else {
        row("NAME"@, "THREAD"@, "CWD"@) + rows(threads, sorted_names(threads))
    }
}

/// Two ascending lists with the same names agree at each place.
proof fn lemma_same_place(a: Seq<Seq<char>>, b: Seq<Seq<char>>, i: int)
    requires
        ascending(a),
        ascending(b),
        forall|name: Seq<char>| #[trigger] a.contains(name) <==> b.contains(name),
        0 <= i < a.len(),
    ensures
        i < b.len(),
        a[i] == b[i],
    decreases i,
{
    assert forall|j: int| 0 <= j < i implies j < b.len() && #[trigger] a[j] == b[j] by {
        lemma_same_place(a, b, j);
    }
    assert(a.contains(a[i]));
    let k = choose|k: int| 0 <= k < b.len() && b[k] == a[i];
    if k < i {
        assert(text_less(a[k], a[i]));
        lemma_text_less_total(a[k], a[i]);
    }
    assert(a.contains(b[i]));
    let m = choose|m: int| 0 <= m < a.len() && a[m] == b[i];
    if m < i {
        assert(text_less(b[m], b[i]));
        lemma_text_less_total(b[m], b[i]);
    }
    lemma_text_less_total(a[i], b[i]);
    if i < k {
        assert(text_less(b[i], b[k]));
        if i < m {
            assert(text_less(a[i], a[m]));
        }
    }
}

/// There is one list of the threads' names in ascending order.
pub proof fn law_one_ascending_list(threads: Map<Seq<char>, EntryView>, names: Seq<Seq<char>>)
    requires
        lists_names(threads, names),
    ensures
        sorted_names(threads) == names,
{
    let found = sorted_names(threads);
    assert(lists_names(threads, found));
    assert forall|i: int| 0 <= i < names.len() implies i < found.len() && #[trigger] names[i]
        == found[i] by {
        lemma_same_place(names, found, i);
    }
    assert forall|i: int| 0 <= i < found.len() implies i < names.len() && #[trigger] found[i]
        == names[i] by {
        lemma_same_place(found, names, i);
    }
    if names.len() < found.len() {
        assert(found[names.len() as int] == names[names.len() as int]);
    }
    if found.len() < names.len() {
        assert(names[found.len() as int] == found[found.len() as int]);
    }
    assert(found =~= names);
}

/// The list names each of the threads once, in ascending order.
pub proof fn law_listed_once_in_order(pairs: Seq<(String, ThreadEntry)>)
    requires
        ascending(names_of(pairs)),
    ensures
        sorted_names(entries_by_name(pairs)) == names_of(pairs),
{
    assert(lists_names(entries_by_name(pairs), names_of(pairs)));
    law_one_ascending_list(entries_by_name(pairs), names_of(pairs));
}

/// The line of a thread whose name is among `names` stands among their lines.
proof fn lemma_row_stands(threads: Map<Seq<char>, EntryView>, names: Seq<Seq<char>>, i: int)
    requires
        0 <= i < names.len(),
    ensures
        exists|before: Seq<char>, after: Seq<char>|
            #[trigger] (before + thread_row(names[i], threads[names[i]]) + after) == rows(
                threads,
                names,
            ),
    decreases names.len(),
{
    let line = thread_row(names[i], threads[names[i]]);
    let init = rows(threads, names.drop_last());
    if i == names.len() - 1 {
        assert(init + line + Seq::<char>::empty() =~= rows(threads, names));
    } else {
        lemma_row_stands(threads, names.drop_last(), i);
        let (before, after) = choose|before: Seq<char>, after: Seq<char>|
            #[trigger] (before + line + after) == init;
        let last = thread_row(names.last(), threads[names.last()]);
        assert(before + line + (after + last) =~= rows(threads, names));
    }
}

/// Every registered thread has its line in the list.
pub proof fn law_every_thread_is_listed(pairs: Seq<(String, ThreadEntry)>, i: int)
    requires
        ascending(names_of(pairs)),
        0 <= i < pairs.len(),
    ensures
        exists|before: Seq<char>, after: Seq<char>|
            #[trigger] (before + thread_row(pairs[i].0@, pairs[i].1@) + after) == listing(
                entries_by_name(pairs),
            ),
{
    let threads = entries_by_name(pairs);
    let names = names_of(pairs);
    law_listed_once_in_order(pairs);
    lemma_entry_at(pairs, i);
    lemma_row_stands(threads, names, i);
    let line = thread_row(pairs[i].0@, pairs[i].1@);
    let (before, after) = choose|before: Seq<char>, after: Seq<char>|
        #[trigger] (before + line + after) == rows(threads, names);
    let heading = row("NAME"@, "THREAD"@, "CWD"@);
    assert((heading + before) + line + after =~= listing(threads));
}

fn push_row(out: &mut String, name: &str, thread: &str, cwd: &str)
    ensures
        final(out)@ == old(out)@ + row(name@, thread@, cwd@),
{
    push_padded(out, name, NAME_WIDTH);
    out.append("  ");
    push_padded(out, thread, THREAD_WIDTH);
    out.append("  ");
    out.append(cwd);
    out.append("\n");
    assert(out@ =~= old(out)@ + row(name@, thread@, cwd@));
}

/// The list of named threads.
pub fn cmd_ls(registry: &Registry) -> (r: String)
    ensures
        r@ == listing(registry@.threads),
{
    let pairs: &Vec<(String, ThreadEntry)> = registry.threads();
    let ghost names = names_of(pairs@);
    let ghost threads = registry@.threads;
    proof {
        law_listed_once_in_order(pairs@);
    }
    if pairs.len() == 0 {
        assert(threads =~= Map::empty());
        return "(no threads; create with `codexctl start <name> --cwd <path>`)\n".to_owned();
    }
    proof {
        lemma_entry_at(pairs@, 0);
    }
    let mut out: String = "".to_owned();
    push_row(&mut out, "NAME", "THREAD", "CWD");
    proof {
        reveal_strlit("");
        assert(out@ =~= row("NAME"@, "THREAD"@, "CWD"@) + rows(threads, names.take(0)));
    }
    let mut i: usize = 0;
    while i < pairs.len()
        invariant
            i <= pairs@.len(),
            names == names_of(pairs@),
            ascending(names),
            threads == entries_by_name(pairs@),
            out@ == row("NAME"@, "THREAD"@, "CWD"@) + rows(threads, names.take(i as int)),
        decreases pairs@.len() - i,
    {
        proof {
            lemma_entry_at(pairs@, i as int);
            assert(names.take(i + 1).drop_last() =~= names.take(i as int));
            assert(names.take(i + 1).last() == pairs@[i as int].0@);
        }
        let ghost before = out@;
        let entry: &ThreadEntry = &pairs[i].1;
        let cwd: &str = match &entry.cwd {
            Some(cwd) => cwd.as_str(),
            None => "-",
        };
        push_row(&mut out, pairs[i].0.as_str(), entry.thread_id.as_str(), cwd);
        assert(out@ =~= row("NAME"@, "THREAD"@, "CWD"@) + rows(threads, names.take(i + 1)));
        i = i + 1;
    }
    assert(names.take(i as int) =~= names);
    out
}

/// The list is a heading and then one line for each thread, in the order of the names: the name in
/// a column of twenty-four characters, the whole id in one of forty, and the directory, or a dash
/// where there is none. Without threads it is a hint.
pub proof fn law_list_is_a_line_for_each_thread(
    registry: &Registry,
    pairs: Seq<(String, ThreadEntry)>,
    r: String,
)
    requires
        call_ensures(cmd_ls, (registry,), r),
        ascending(names_of(pairs)),
        entries_by_name(pairs) == registry@.threads,
    ensures
        pairs.len() == 0 ==> r@
            == "(no threads; create with `codexctl start <name> --cwd <path>`)\n"@,
        pairs.len() > 0 ==> r@ == padded("NAME"@, 24) + "  "@ + padded("THREAD"@, 40) + "  "@
            + "CWD"@ + "\n"@ + rows(registry@.threads, names_of(pairs)),
{
    law_listed_once_in_order(pairs);
    if pairs.len() > 0 {
        lemma_entry_at(pairs, 0);
    } else {
        assert(registry@.threads =~= Map::empty());
    }
}

/// The lines of the threads follow each other; each has the whole of its name, id and directory.
pub proof fn law_lines_follow_each_other(
    threads: Map<Seq<char>, EntryView>,
    names: Seq<Seq<char>>,
    name: Seq<char>,
)
    ensures
        rows(threads, Seq::empty()) == ""@,
        rows(threads, names.push(name)) == rows(threads, names) + (padded(name, 24) + "  "@
            + padded(threads[name].thread_id, 40) + "  "@ + match threads[name].cwd {
            Some(cwd) => cwd,
            None => "-"@,
        } + "\n"@),
{
    assert(names.push(name).drop_last() =~= names);
}

} // verus!
