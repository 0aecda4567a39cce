//! JSON values: what requests carry and what replies are read for.
use vstd::prelude::*;
use vstd::string::*;

use crate::text::same_text;

verus! {

/// A JSON value. Numbers come as the three kinds that a reader can tell apart.
pub enum Json {
    Null,
    Bool(bool),
    /// An integer from zero up.
    UInt(u64),
    /// An integer below zero.
    NegInt(i64),
    /// Any other number, as it is written.
    Float(String),
    Text(String),
    Array(Vec<Json>),
    /// The members of an object; of two with one key the first counts.
    Object(Vec<(String, Json)>),
}

/// What a JSON value is.
pub enum JsonView {
    Null,
    Bool(bool),
    UInt(u64),
    NegInt(i64),
    Float(Seq<char>),
    Text(Seq<char>),
    Array(Seq<JsonView>),
    Object(Seq<(Seq<char>, JsonView)>),
}

/// What `j` is, with everything below it.
pub open spec fn json_view(j: Json) -> JsonView
    decreases j,
{
    match j {
        Json::Null => JsonView::Null,
        Json::Bool(b) => JsonView::Bool(b),
        Json::UInt(n) => JsonView::UInt(n),
        Json::NegInt(n) => JsonView::NegInt(n),
        Json::Float(t) => JsonView::Float(t@),
        Json::Text(t) => JsonView::Text(t@),
        Json::Array(items) => JsonView::Array(
            Seq::new(
                items@.len(),
                |i: int|
                    if 0 <= i < items@.len() {
                        json_view(items@[i])
                    } else {
                        JsonView::Null
                    },
            ),
        ),
        Json::Object(members) => JsonView::Object(
            Seq::new(
                members@.len(),
                |i: int|
                    if 0 <= i < members@.len() {
                        (members@[i].0@, json_view(members@[i].1))
                    } else {
                        (Seq::empty(), JsonView::Null)
                    },
            ),
        ),
    }
}

impl View for Json {
    type V = JsonView;

    open spec fn view(&self) -> JsonView {
        json_view(*self)
    }
}

/// An array is the sequence of what its items are.
proof fn lemma_array_view(items: Vec<Json>)
    ensures
        Json::Array(items)@ matches JsonView::Array(all) && all.len() == items@.len()
            && forall|i: int| 0 <= i < all.len() ==> #[trigger] all[i] == items@[i]@,
{
    reveal_with_fuel(json_view, 2);
}

/// An object is the sequence of what its members are.
proof fn lemma_object_view(members: Vec<(String, Json)>)
    ensures
        Json::Object(members)@ matches JsonView::Object(all) && all.len() == members@.len()
            && forall|i: int|
            0 <= i < all.len() ==> #[trigger] all[i] == (members@[i].0@, members@[i].1@),
{
    reveal_with_fuel(json_view, 2);
}

impl JsonView {
    /// The member of this value under `key`: there is one only in an object.
    pub open spec fn get(self, key: Seq<char>) -> Option<JsonView> {
        match self {
            JsonView::Object(members) => first_member(members, key),
            _ => None,
        }
    }

    /// The text of a value that is a text.
    pub open spec fn as_text(self) -> Option<Seq<char>> {
        match self {
            JsonView::Text(t) => Some(t),
            _ => None,
        }
    }

    /// The items of a value that is an array.
    pub open spec fn as_array(self) -> Option<Seq<JsonView>> {
        match self {
            JsonView::Array(items) => Some(items),
            _ => None,
        }
    }

    /// The number of a value that is an integer from zero up.
    pub open spec fn as_u64(self) -> Option<u64> {
        match self {
            JsonView::UInt(n) => Some(n),
            _ => None,
        }
    }

    /// The number of a value that is an integer which an `i64` can hold.
    pub open spec fn as_i64(self) -> Option<i64> {
        match self {
            JsonView::UInt(n) => if n <= i64::MAX {
                Some(n as i64)
            } else {
                None
            },
            JsonView::NegInt(n) => Some(n),
            _ => None,
        }
    }

    /// The text under `key`, if there is one.
    pub open spec fn text_at(self, key: Seq<char>) -> Option<Seq<char>> {
        match self.get(key) {
            Some(value) => value.as_text(),
            None => None,
        }
    }
}

/// The value of the first of `members` whose key is `key`.
pub open spec fn first_member(members: Seq<(Seq<char>, JsonView)>, key: Seq<char>) -> Option<
    JsonView,
>
    decreases members.len(),
{
    if members.len() == 0 {
        None
    } else if members[0].0 == key {
        Some(members[0].1)
    } else {
        first_member(members.skip(1), key)
    }
}

/// The value behind an optional reference.
pub open spec fn opt_json(v: Option<&Json>) -> Option<JsonView> {
    match v {
        Some(j) => Some(j@),
        None => None,
    }
}

/// The text behind an optional reference.
pub open spec fn opt_str(v: Option<&str>) -> Option<Seq<char>> {
    match v {
        Some(t) => Some(t@),
        None => None,
    }
}

/// A text as a JSON value.
pub fn json_text(t: &str) -> (r: Json)
    ensures
        r@ == JsonView::Text(t@),
{
    Json::Text(t.to_owned())
}

/// An object without members.
pub fn json_object() -> (r: Json)
    ensures
        r@ == JsonView::Object(Seq::empty()),
{
    let r = Json::Object(Vec::new());
    assert(r@->Object_0 =~= Seq::empty());
    r
}

/// An array of one item.
pub fn json_list(item: Json) -> (r: Json)
    ensures
        r@ == JsonView::Array(seq![item@]),
{
    let items: Vec<Json> = vec![item];
    proof {
        lemma_array_view(items);
    }
    let r = Json::Array(items);
    assert(r@->Array_0 =~= seq![item@]);
    r
}

/// The value of `v` with a member added at its end, where `v` is an object.
pub open spec fn with_member(v: JsonView, key: Seq<char>, value: JsonView) -> JsonView {
    match v {
        JsonView::Object(members) => JsonView::Object(members.push((key, value))),
        _ => v,
    }
}

impl Json {
    /// This object with one more member; any other value is left as it is.
    pub fn with(self, key: &str, value: Json) -> (r: Json)
        ensures
            r@ == with_member(self@, key@, value@),
    {
        match self {
            Json::Object(members) => {
                let mut all = members;
                let ghost old_view = Json::Object(all)@->Object_0;
                proof {
                    lemma_object_view(all);
                }
                all.push((key.to_owned(), value));
                let r = Json::Object(all);
                proof {
                    lemma_object_view(all);
                }
                assert(r@->Object_0 =~= old_view.push((key@, value@)));
                r
            },
            other => other,
        }
    }

    /// The member of this value under `key`.
    pub fn get(&self, key: &str) -> (r: Option<&Json>)
        ensures
            opt_json(r) == self@.get(key@),
    {
        match self {
            Json::Object(members) => {
                let ghost all = self@->Object_0;
                proof {
                    lemma_object_view(*members);
                }
                let mut i: usize = 0;
                assert(all.skip(0) =~= all);
                while i < members.len()
                    invariant
                        self@ == JsonView::Object(all),
                        i <= members@.len(),
                        all.len() == members@.len(),
                        forall|j: int|
                            0 <= j < all.len() ==> #[trigger] all[j] == (
                                members@[j].0@,
                                members@[j].1@,
                            ),
                        first_member(all.skip(i as int), key@) == first_member(all, key@),
                    decreases members@.len() - i,
                {
                    assert(all.skip(i as int)[0] == all[i as int]);
                    assert(all.skip(i as int).skip(1) =~= all.skip(i + 1));
                    if same_text(members[i].0.as_str(), key) {
                        return Some(&members[i].1);
                    }
                    i = i + 1;
                }
                None
            },
            _ => None,
        }
    }

    /// The text of a value that is a text.
    pub fn as_text(&self) -> (r: Option<&str>)
        ensures
            opt_str(r) == self@.as_text(),
    {
        match self {
            Json::Text(t) => Some(t.as_str()),
            _ => None,
        }
    }

    /// The items of a value that is an array.
    pub fn as_array(&self) -> (r: Option<&Vec<Json>>)
        ensures
            r is Some <==> self@.as_array() is Some,
            r matches Some(items) ==> self@.as_array() matches Some(all) && all.len()
                == items@.len() && forall|i: int|
                0 <= i < all.len() ==> #[trigger] all[i] == items@[i]@,
    {
        match self {
            Json::Array(items) => {
                proof {
                    lemma_array_view(*items);
                }
                Some(items)
            },
            _ => None,
        }
    }

    /// The number of a value that is an integer from zero up.
    pub fn as_u64(&self) -> (r: Option<u64>)
        ensures
            r == self@.as_u64(),
    {
        match self {
            Json::UInt(n) => Some(*n),
            _ => None,
        }
    }

    /// The number of a value that is an integer which an `i64` can hold.
    pub fn as_i64(&self) -> (r: Option<i64>)
        ensures
            r == self@.as_i64(),
    {
        match self {
            Json::UInt(n) => if *n <= 0x7fff_ffff_ffff_ffff {
                Some(*n as i64)
            } else {
                None
            },
            Json::NegInt(n) => Some(*n),
            _ => None,
        }
    }

    /// The text under `key`, if there is one.
    pub fn text_at(&self, key: &str) -> (r: Option<&str>)
        ensures
            opt_str(r) == self@.text_at(key@),
    {
        match self.get(key) {
            Some(value) => value.as_text(),
            None => None,
        }
    }
}

/// What is found under a key once a member is added at the end.
pub proof fn lemma_added_member(
    members: Seq<(Seq<char>, JsonView)>,
    added: Seq<char>,
    value: JsonView,
    key: Seq<char>,
)
    ensures
        first_member(members.push((added, value)), key) == match first_member(members, key) {
            Some(found) => Some(found),
            None => if added == key {
                Some(value)
            } else {
                None
            },
        },
    decreases members.len(),
{
    reveal_with_fuel(first_member, 2);
    let all = members.push((added, value));
    if members.len() == 0 {
        assert(all.skip(1) =~= Seq::empty());
    } else if members[0].0 != key {
        lemma_added_member(members.skip(1), added, value, key);
        assert(all.skip(1) =~= members.skip(1).push((added, value)));
    }
}

/// Why `serde_json` could not read a text or lay it out.
#[verifier::external_type_specification]
#[verifier::external_body]
pub struct ExSerdeJsonError(serde_json::Error);

/// The JSON document `text` laid out over indented lines, or nothing where `text` is not one
/// JSON document.
pub uninterp spec fn pretty_json(text: Seq<char>) -> Option<Seq<char>>;

/// Lays out a JSON document with `serde_json::to_string_pretty`, which is handed the document as
/// `serde_json::from_str` reads it. The result depends on the text alone; how the lines come out
/// is left to `serde_json`.
#[verifier::external_body]
fn to_string_pretty(text: &str) -> (r: Result<String, serde_json::Error>)
    ensures
        match r {
            Ok(lines) => pretty_json(text@) == Some(lines@),
            Err(_) => pretty_json(text@) is None,
        },
{
    let value: serde_json::Value = serde_json::from_str(text)?;
    serde_json::to_string_pretty(&value)
}

/// The member of the JSON document `text` under `key`, as a JSON document of its own.
pub uninterp spec fn json_member(text: Seq<char>, key: Seq<char>) -> Option<Seq<char>>;

/// Looks a member up with `serde_json::Value::get` in the document that `serde_json::from_str`
/// reads, and writes it out again. There is no member in a document that is not an object, nor
/// in a text that is not a JSON document. What is written out is a JSON document, so it can be
/// laid out.
#[verifier::external_body]
pub(crate) fn value_get(text: &str, key: &str) -> (r: Option<String>)
    ensures
        match r {
            Some(member) => json_member(text@, key@) == Some(member@) && pretty_json(
                member@,
            ) is Some,
            None => json_member(text@, key@) is None,
        },
{
    let value: serde_json::Value = serde_json::from_str(text).ok()?;
    value.get(key).map(|member| member.to_string())
}

/// A JSON document laid out over indented lines; nothing where `text` is not one document.
pub fn pretty(text: &str) -> (r: Option<String>)
    ensures
        match r {
            Some(lines) => pretty_json(text@) == Some(lines@),
            None => pretty_json(text@) is None,
        },
{
    match to_string_pretty(text) {
        Ok(lines) => Some(lines),
        Err(_) => None,
    }
}

/// What is found under a key is the value of the first member with that key; where no member has
/// it, nothing is found, nor in a value that is not an object.
pub proof fn law_first_member_is_found(
    members: Seq<(Seq<char>, JsonView)>,
    key: Seq<char>,
    i: int,
)
    ensures
        0 <= i < members.len() && members[i].0 == key && (forall|j: int|
            0 <= j < i ==> (#[trigger] members[j]).0 != key) ==> JsonView::Object(members).get(key)
            == Some(members[i].1),
        (forall|j: int| 0 <= j < members.len() ==> (#[trigger] members[j]).0 != key)
            ==> JsonView::Object(members).get(key) is None,
        forall|v: JsonView| !(v is Object) ==> (#[trigger] v.get(key)) is None,
    decreases members.len(),
{
    if members.len() > 0 && members[0].0 != key {
        let rest = members.skip(1);
        assert(forall|j: int| 0 <= j < rest.len() ==> rest[j] == members[j + 1]);
        law_first_member_is_found(rest, key, i - 1);
        assert(JsonView::Object(rest).get(key) == JsonView::Object(members).get(key));
        if 0 <= i < members.len() && members[i].0 == key && (forall|j: int|
            0 <= j < i ==> (#[trigger] members[j]).0 != key) {
            assert forall|j: int| 0 <= j < i - 1 implies (#[trigger] rest[j]).0 != key by {
                assert(members[j + 1].0 != key);
            }
            assert(rest[i - 1] == members[i]);
        }
        if forall|j: int| 0 <= j < members.len() ==> (#[trigger] members[j]).0 != key {
            assert forall|j: int| 0 <= j < rest.len() implies (#[trigger] rest[j]).0 != key by {
                assert(members[j + 1].0 != key);
            }
        }
    }
}

/// A value is read as what it is and as nothing else.
pub proof fn law_values_are_read_as_they_are(v: JsonView, key: Seq<char>)
    ensures
        v.as_text() == (match v {
            JsonView::Text(t) => Some(t),
            _ => None,
        }),
        v.as_array() == (match v {
            JsonView::Array(items) => Some(items),
            _ => None,
        }),
        v.as_u64() == (match v {
            JsonView::UInt(n) => Some(n),
            _ => None,
        }),
        match v.as_i64() {
            Some(n) => v == JsonView::NegInt(n) || (n >= 0 && v == JsonView::UInt(n as u64)),
            None => !(v is NegInt) && (v matches JsonView::UInt(n) ==> n > i64::MAX),
        },
        v.text_at(key) == (match v.get(key) {
            Some(JsonView::Text(t)) => Some(t),
            _ => None,
        }),
{
}

/// A JSON value says what it holds.
pub proof fn law_json_says_what_it_holds(j: Json, i: int)
    ensures
        match j {
            Json::Null => j@ == JsonView::Null,
            Json::Bool(b) => j@ == JsonView::Bool(b),
            Json::UInt(n) => j@ == JsonView::UInt(n),
            Json::NegInt(n) => j@ == JsonView::NegInt(n),
            Json::Float(t) => j@ == JsonView::Float(t@),
            Json::Text(t) => j@ == JsonView::Text(t@),
            Json::Array(items) => j@ matches JsonView::Array(all) && all.len() == items@.len() && (
            0 <= i < all.len() ==> all[i] == items@[i]@),
            Json::Object(members) => j@ matches JsonView::Object(all) && all.len()
                == members@.len() && (0 <= i < all.len() ==> all[i] == (
                members@[i].0@,
                members@[i].1@,
            )),
        },
{
    match j {
        Json::Array(items) => lemma_array_view(items),
        Json::Object(members) => lemma_object_view(members),
        _ => {},
    }
}

/// A member that is added is found under its key unless one with that key was there before, and
/// changes nothing that is found under other keys.
pub proof fn law_added_member_is_found(
    object: Json,
    key: &str,
    value: Json,
    other: Seq<char>,
    r: Json,
)
    requires
        call_ensures(Json::with, (object, key, value), r),
        object is Object,
    ensures
        r is Object,
        object@.get(key@) is None ==> r@.get(key@) == Some(value@),
        other != key@ || object@.get(key@) is Some ==> r@.get(other) == object@.get(other),
{
    let members = object@->Object_0;
    lemma_added_member(members, key@, value@, key@);
    lemma_added_member(members, key@, value@, other);
}

} // verus!
