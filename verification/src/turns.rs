//! Turns: which one is in flight, and what is said to it.
use vstd::prelude::*;
use vstd::string::*;

use crate::json::{json_list, json_object, json_text, Json, JsonView};
use crate::text::{opt_text, same_text};

verus! {

/// Whether a turn is in progress.
pub open spec fn in_progress(turn: JsonView) -> bool {
    turn.text_at("status"@) == Some("inProgress"@)
}

/// The turns that a thread's reading lists; none where it has no such list.
pub open spec fn listed_turns(body: JsonView) -> Seq<JsonView> {
    match body.get("thread"@) {
        Some(thread) => match thread.get("turns"@) {
            Some(turns) => match turns.as_array() {
                Some(items) => items,
                None => Seq::empty(),
            },
            None => Seq::empty(),
        },
        None => Seq::empty(),
    }
}

/// The id of the last of `turns` that is in progress.
pub open spec fn last_in_progress(turns: Seq<JsonView>) -> Option<Seq<char>>
    decreases turns.len(),
{
    if turns.len() == 0 {
        None
    } else if in_progress(turns.last()) {
        turns.last().text_at("id"@)
    } else {
        last_in_progress(turns.drop_last())
    }
}

/// The id of the turn that is in flight on a thread, by a reading of the thread.
pub open spec fn active_turn(body: JsonView) -> Option<Seq<char>> {
    last_in_progress(listed_turns(body))
}

fn is_in_progress(turn: &Json) -> (r: bool)
    ensures
        r == in_progress(turn@),
{
    match turn.text_at("status") {
        Some(status) => same_text(status, "inProgress"),
        None => false,
    }
}

/// The id of the turn that is in flight on a thread, by the reply to `thread/read`; nothing where
/// the thread is idle. Turns are listed in the order in which they were begun.
pub fn active_turn_id(body: &Json) -> (r: Option<String>)
    ensures
        opt_text(r) == active_turn(body@),
{
    let turns: &Vec<Json> = match body.get("thread") {
        Some(thread) => match thread.get("turns") {
            Some(list) => match list.as_array() {
                Some(items) => items,
                None => return None,
            },
            None => return None,
        },
        None => return None,
    };
    let ghost all = listed_turns(body@);
    let mut n: usize = turns.len();
    assert(all.take(n as int) =~= all);
    while n > 0
        invariant
            n <= turns@.len(),
            all.len() == turns@.len(),
            forall|i: int| 0 <= i < all.len() ==> #[trigger] all[i] == turns@[i]@,
            last_in_progress(all.take(n as int)) == active_turn(body@),
        decreases n,
    {
        let turn: &Json = &turns[n - 1];
        assert(all.take(n as int).last() == turn@);
        assert(all.take(n as int).drop_last() =~= all.take(n - 1));
        if is_in_progress(turn) {
            return match turn.text_at("id") {
                Some(id) => Some(id.to_owned()),
                None => None,
            };
        }
        n = n - 1;
    }
    None
}

/// The active turn is the latest one in progress: it is in progress, and none that was begun
/// later is. Where no turn is in progress there is none.
pub proof fn law_active_turn_is_latest(body: JsonView, i: int)
    requires
        0 <= i < listed_turns(body).len(),
    ensures
        in_progress(listed_turns(body)[i]) && (forall|j: int|
            i < j < listed_turns(body).len() ==> !in_progress(#[trigger] listed_turns(body)[j]))
            ==> active_turn(body) == listed_turns(body)[i].text_at("id"@),
        (forall|j: int|
            0 <= j < listed_turns(body).len() ==> !in_progress(#[trigger] listed_turns(body)[j]))
            ==> active_turn(body) is None,
{
    lemma_last_in_progress(listed_turns(body), i);
}

proof fn lemma_last_in_progress(turns: Seq<JsonView>, i: int)
    requires
        0 <= i < turns.len(),
    ensures
        in_progress(turns[i]) && (forall|j: int|
            i < j < turns.len() ==> !in_progress(#[trigger] turns[j])) ==> last_in_progress(turns)
            == turns[i].text_at("id"@),
        (forall|j: int| 0 <= j < turns.len() ==> !in_progress(#[trigger] turns[j]))
            ==> last_in_progress(turns) is None,
    decreases turns.len(),
{
    let init = turns.drop_last();
    assert(turns.last() == turns[turns.len() - 1]);
    assert(forall|j: int| 0 <= j < init.len() ==> init[j] == turns[j]);
    if i < init.len() {
        lemma_last_in_progress(init, i);
    } else if init.len() > 0 {
        lemma_last_in_progress(init, 0);
    }
}

/// The parameters of a reading of a thread with its turns.
pub open spec fn read_params(thread_id: Seq<char>) -> JsonView {
    JsonView::Object(
        seq![
            ("threadId"@, JsonView::Text(thread_id)),
            ("includeTurns"@, JsonView::Bool(true)),
        ],
    )
}

/// The parameters of a reading of a thread with its turns.
pub fn thread_read_params(thread_id: &str) -> (r: Json)
    ensures
        r@ == read_params(thread_id@),
{
    let r: Json = json_object().with("threadId", json_text(thread_id)).with(
        "includeTurns",
        Json::Bool(true),
    );
    assert(r@->Object_0 =~= read_params(thread_id@)->Object_0);
    r
}

/// The parameters with which a text is added to the turn in flight, which has to be `turn`.
pub open spec fn steer_view(thread_id: Seq<char>, turn: Seq<char>, message: Seq<char>) -> JsonView {
    JsonView::Object(
        seq![
            ("threadId"@, JsonView::Text(thread_id)),
            ("expectedTurnId"@, JsonView::Text(turn)),
            (
                "input"@,
                JsonView::Array(
                    seq![
                        JsonView::Object(
                            seq![
                                ("type"@, JsonView::Text("text"@)),
                                ("text"@, JsonView::Text(message)),
                            ],
                        ),
                    ],
                ),
            ),
        ],
    )
}

/// The parameters with which a text is added to the turn in flight.
pub fn steer_params(thread_id: &str, turn: &str, message: &str) -> (r: Json)
    ensures
        r@ == steer_view(thread_id@, turn@, message@),
{
    let item: Json = json_object().with("type", json_text("text")).with(
        "text",
        json_text(message),
    );
    let ghost expected = steer_view(thread_id@, turn@, message@);
    assert(item@->Object_0 =~= expected->Object_0[2].1->Array_0[0]->Object_0);
    let r: Json = json_object().with("threadId", json_text(thread_id)).with(
        "expectedTurnId",
        json_text(turn),
    ).with("input", json_list(item));
    assert(r@->Object_0 =~= expected->Object_0);
    r
}

/// The parameters with which a turn is interrupted.
pub open spec fn interrupt_view(thread_id: Seq<char>, turn: Seq<char>) -> JsonView {
    JsonView::Object(
        seq![("threadId"@, JsonView::Text(thread_id)), ("turnId"@, JsonView::Text(turn))],
    )
}

/// The parameters with which a turn is interrupted.
pub fn interrupt_params(thread_id: &str, turn: &str) -> (r: Json)
    ensures
        r@ == interrupt_view(thread_id@, turn@),
{
    let r: Json = json_object().with("threadId", json_text(thread_id)).with(
        "turnId",
        json_text(turn),
    );
    assert(r@->Object_0 =~= interrupt_view(thread_id@, turn@)->Object_0);
    r
}

/// The active turn is the last listed one whose status is `inProgress`, by its id; where no turn
/// has that status, whatever else theirs may be, there is no active turn.
pub proof fn law_only_a_turn_in_progress_is_active(
    body: &Json,
    thread: JsonView,
    turns: Seq<JsonView>,
    i: int,
    r: Option<String>,
)
    requires
        call_ensures(active_turn_id, (body,), r),
        body@.get("thread"@) == Some(thread),
        thread.get("turns"@) == Some(JsonView::Array(turns)),
    ensures
        (forall|j: int|
            0 <= j < turns.len() ==> (#[trigger] turns[j]).get("status"@) != Some(
                JsonView::Text("inProgress"@),
            )) ==> r is None,
        0 <= i < turns.len() && turns[i].get("status"@) == Some(JsonView::Text("inProgress"@)) && (
        forall|j: int|
            i < j < turns.len() ==> (#[trigger] turns[j]).get("status"@) != Some(
                JsonView::Text("inProgress"@),
            )) ==> match turns[i].get("id"@) {
            Some(JsonView::Text(id)) => r matches Some(found) && found@ == id,
            _ => r is None,
        },
{
    assert(listed_turns(body@) == turns);
    if turns.len() > 0 {
        lemma_last_in_progress(turns, 0);
    }
    if 0 <= i < turns.len() {
        lemma_last_in_progress(turns, i);
    }
}

/// A reply that lists no turns has no active one.
pub proof fn law_no_list_no_active_turn(body: &Json, r: Option<String>)
    requires
        call_ensures(active_turn_id, (body,), r),
        match body@.get("thread"@) {
            Some(thread) => !(thread.get("turns"@) matches Some(JsonView::Array(_))),
            None => true,
        },
    ensures
        r is None,
{
}

/// What is added to a turn is one text, the message; it names the thread and the turn that has to
/// be in flight.
pub proof fn law_steering_carries_the_message(
    thread_id: &str,
    turn: &str,
    message: &str,
    steer: Json,
    interrupt: Json,
    read: Json,
)
    requires
        call_ensures(steer_params, (thread_id, turn, message), steer),
        call_ensures(interrupt_params, (thread_id, turn), interrupt),
        call_ensures(thread_read_params, (thread_id,), read),
    ensures
        steer@ == JsonView::Object(
            seq![
                ("threadId"@, JsonView::Text(thread_id@)),
                ("expectedTurnId"@, JsonView::Text(turn@)),
                (
                    "input"@,
                    JsonView::Array(
                        seq![
                            JsonView::Object(
                                seq![
                                    ("type"@, JsonView::Text("text"@)),
                                    ("text"@, JsonView::Text(message@)),
                                ],
                            ),
                        ],
                    ),
                ),
            ],
        ),
        interrupt@ == JsonView::Object(
            seq![("threadId"@, JsonView::Text(thread_id@)), ("turnId"@, JsonView::Text(turn@))],
        ),
        read@ == JsonView::Object(
            seq![
                ("threadId"@, JsonView::Text(thread_id@)),
                ("includeTurns"@, JsonView::Bool(true)),
            ],
        ),
{
}

} // verus!
