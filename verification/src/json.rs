//! JSON documents as trees of plain values, and the reading of a text as one.

use crate::number::Number;
use crate::text::same_text;
use crate::views::views;
use vstd::prelude::*;
use vstd::string::StringExecFns;

verus! {

/// A JSON value.
///
/// An object holds its members in a list; a key is looked up from the front,
/// so that of two members with one key the first is the one that counts.
#[derive(Debug)]
pub enum Json {
    Null,
    Bool(bool),
    Number(Number),
    Text(String),
    List(Vec<Json>),
    Object(Vec<Member>),
}

/// One `key: value` pair of a JSON object.
#[derive(Debug)]
pub struct Member {
    pub key: String,
    pub value: Json,
}

/// The mathematical value of a [`Json`].
pub ghost enum JsonView {
    Null,
    Bool(bool),
    Number(Number),
    Text(Seq<char>),
    List(Seq<JsonView>),
    Object(Seq<MemberView>),
}

/// The mathematical value of a [`Member`].
pub ghost struct MemberView {
    pub key: Seq<char>,
    pub value: JsonView,
}

impl View for Json {
    type V = JsonView;

    open spec fn view(&self) -> JsonView {
        json_view(self)
    }
}

/// The value of `json`.
pub open spec fn json_view(json: &Json) -> JsonView
    decreases json,
{
    match json {
        Json::Null => JsonView::Null,
        Json::Bool(b) => JsonView::Bool(*b),
        Json::Number(n) => JsonView::Number(*n),
        Json::Text(s) => JsonView::Text(s@),
        Json::List(items) => JsonView::List(
            Seq::new(
                items.len() as nat,
                |i: int|
                    if 0 <= i < items.len() {
                        json_view(&items[i])
                    } else {
                        JsonView::Null
                    },
            ),
        ),
        Json::Object(members) => JsonView::Object(
            Seq::new(
                members.len() as nat,
                |i: int|
                    if 0 <= i < members.len() {
                        MemberView { key: members[i].key@, value: json_view(&members[i].value) }
                    } else {
                        MemberView { key: Seq::empty(), value: JsonView::Null }
                    },
            ),
        ),
    }
}

impl View for Member {
    type V = MemberView;

    open spec fn view(&self) -> MemberView {
        MemberView { key: self.key@, value: self.value@ }
    }
}

/// The value of a list is the values of its items.
pub proof fn lemma_list_view(items: Vec<Json>)
    ensures
        Json::List(items)@ == JsonView::List(views(items@)),
{
    assert(Json::List(items)@->List_0 =~= views(items@));
}

/// The value of an object is the values of its members.
pub proof fn lemma_object_view(members: Vec<Member>)
    ensures
        Json::Object(members)@ == JsonView::Object(views(members@)),
{
    assert(Json::Object(members)@->Object_0 =~= views(members@));
}

/// The value of the first member of `members` whose key is `key`.
pub open spec fn lookup(members: Seq<MemberView>, key: Seq<char>) -> Option<JsonView>
    decreases members.len(),
{
    if members.len() == 0 {
        None
    } else if members[0].key == key {
        Some(members[0].value)
    } else {
        lookup(members.drop_first(), key)
    }
}

impl JsonView {
    /// The value under `key`, where `self` is an object that has that key.
    pub open spec fn member(self, key: Seq<char>) -> Option<JsonView> {
        match self {
            JsonView::Object(members) => lookup(members, key),
            _ => None,
        }
    }
}

impl Json {
    /// Whether `self` is an object.
    pub fn is_object(&self) -> (object: bool)
        ensures
            object == (self@ is Object),
    {
        match self {
            Json::Object(_) => true,
            _ => false,
        }
    }

    /// The value under `key`, where `self` is an object that has that key.
    pub fn get(&self, key: &str) -> (found: Option<&Json>)
        ensures
            match found {
                Some(value) => self@.member(key@) == Some(value@),
                None => self@.member(key@) is None,
            },
    {
        match self {
            Json::Object(members) => {
                let ghost all = views(members@);
                proof {
                    lemma_object_view(*members);
                    assert(all.skip(0) =~= all);
                }
                let mut i: usize = 0;
                while i < members.len()
                    invariant
                        i <= members.len(),
                        self@ == JsonView::Object(all),
                        all == views(members@),
                        lookup(all, key@) == lookup(all.skip(i as int), key@),
                    decreases members.len() - i,
                {
                    let member = &members[i];
                    proof {
                        let rest = all.skip(i as int);
                        assert(rest[0] == member@);
                        assert(rest.drop_first() =~= all.skip(i + 1));
                    }
                    if same_text(member.key.as_str(), key) {
                        return Some(&member.value);
                    }
                    i += 1;
                }
                None
            },
            _ => None,
        }
    }

    /// Reads `body` as one JSON document; where it is none, the message says
    /// why.
    pub fn read(body: &[u8]) -> (json: Result<Json, String>)
        ensures
            match json {
                Ok(j) => document(body@) == Some(j@),
                Err(_) => document(body@) is None,
            },
    {
        match parse_value(body) {
            Ok(value) => match lift(&value, MAX_NESTING) {
                Some(json) => Ok(json),
                None => Err(String::from_str("nested too deep")),
            },
            Err(e) => Err(describe(&e)),
        }
    }
}

/// How deep the arrays and objects of a document may be nested in one
/// another.
pub const MAX_NESTING: usize = 128;

/// Whether the arrays and objects of `json` are nested at most `depth` deep.
pub open spec fn fits(json: JsonView, depth: nat) -> bool
    decreases depth,
{
    match json {
        JsonView::List(items) => depth > 0 && forall|i: int|
            0 <= i < items.len() ==> fits(#[trigger] items[i], (depth - 1) as nat),
        JsonView::Object(members) => depth > 0 && forall|i: int|
            0 <= i < members.len() ==> fits((#[trigger] members[i]).value, (depth - 1) as nat),
        _ => true,
    }
}

/// The document that `body` spells: the JSON value that `serde_json` reads
/// `body` as, where it reads one and that is nested at most `MAX_NESTING`
/// deep.
pub open spec fn document(body: Seq<u8>) -> Option<JsonView> {
    match json_reading(body) {
        Some(json) => if fits(json, MAX_NESTING as nat) {
            Some(json)
        } else {
            None
        },
        None => None,
    }
}

/// The number that `value` holds, where it holds one.
fn lift_number(value: &serde_json::Value) -> (number: Option<Number>)
    ensures
        match number {
            Some(n) => value_json(*value) == JsonView::Number(n),
            None => !(value_json(*value) is Number),
        },
{
    match value.as_u64() {
        Some(u) => Some(Number::Unsigned(u)),
        None => match value.as_i64() {
            Some(i) => Some(Number::Signed(i)),
            None => match double_bits(value) {
                Some(bits) => Some(Number::Double(bits)),
                None => None,
            },
        },
    }
}

/// Builds the [`Json`] that holds what `value` holds, where that is nested
/// at most `depth` deep.
fn lift(value: &serde_json::Value, depth: usize) -> (json: Option<Json>)
    ensures
        json is Some <==> fits(value_json(*value), depth as nat),
        json matches Some(j) ==> j@ == value_json(*value),
    decreases depth,
{
    if value.is_null() {
        return Some(Json::Null);
    }
    if let Some(flag) = value.as_bool() {
        return Some(Json::Bool(flag));
    }
    if let Some(number) = lift_number(value) {
        return Some(Json::Number(number));
    }
    if let Some(text) = value.as_str() {
        return Some(Json::Text(text.to_owned()));
    }
    if let Some(elements) = value.as_array() {
        if depth == 0 {
            return None;
        }
        let ghost all = elements@.map_values(|element: serde_json::Value| value_json(element));
        let mut items: Vec<Json> = Vec::new();
        let mut i: usize = 0;
        while i < elements.len()
            invariant
                i <= elements.len(),
                depth > 0,
                value_json(*value) == JsonView::List(all),
                all == elements@.map_values(|element: serde_json::Value| value_json(element)),
                items.len() == i,
                forall|k: int| 0 <= k < i ==> (#[trigger] items[k])@ == all[k],
                forall|k: int| 0 <= k < i ==> fits(#[trigger] all[k], (depth - 1) as nat),
            decreases elements.len() - i,
        {
            match lift(&elements[i], depth - 1) {
                Some(item) => items.push(item),
                None => {
                    assert(!fits(JsonView::List(all)->List_0[i as int], (depth - 1) as nat));
                    return None;
                },
            }
            i += 1;
        }
        proof {
            lemma_list_view(items);
            assert(views(items@) =~= all);
        }
        return Some(Json::List(items));
    }
    match members_of(value) {
        Some(entries) => {
            if depth == 0 {
                return None;
            }
            let ghost all = entries@.map_values(
                |entry: (&String, &serde_json::Value)|
                    MemberView { key: entry.0@, value: value_json(*entry.1) },
            );
            let mut members: Vec<Member> = Vec::new();
            let mut i: usize = 0;
            while i < entries.len()
                invariant
                    i <= entries.len(),
                    depth > 0,
                    value_json(*value) == JsonView::Object(all),
                    all == entries@.map_values(
                        |entry: (&String, &serde_json::Value)|
                            MemberView { key: entry.0@, value: value_json(*entry.1) },
                    ),
                    members.len() == i,
                    forall|k: int| 0 <= k < i ==> (#[trigger] members[k])@ == all[k],
                    forall|k: int| 0 <= k < i ==> fits((#[trigger] all[k]).value, (depth - 1) as nat),
                decreases entries.len() - i,
            {
                let entry = &entries[i];
                match lift(entry.1, depth - 1) {
                    Some(item) => members.push(Member { key: entry.0.clone(), value: item }),
                    None => {
                        assert(!fits(
                            JsonView::Object(all)->Object_0[i as int].value,
                            (depth - 1) as nat,
                        ));
                        return None;
                    },
                }
                i += 1;
            }
            proof {
                lemma_object_view(members);
                assert(views(members@) =~= all);
            }
            Some(Json::Object(members))
        },
        None => {
            proof {
                let json = value_json(*value);
                assert(json is Null || json is Bool || json is Number || json is Text
                    || json is List || json is Object);
            }
            vstd::pervasive::unreached()
        },
    }
}

#[verifier::external_type_specification]
#[verifier::external_body]
pub struct ExValue(serde_json::Value);

#[verifier::external_type_specification]
#[verifier::external_body]
pub struct ExError(serde_json::Error);

/// The JSON value that `body` spells, as `serde_json` reads it; `None` where
/// `serde_json` rejects `body`.
pub uninterp spec fn json_reading(body: Seq<u8>) -> Option<JsonView>;

/// The JSON value that a `serde_json::Value` holds.
pub uninterp spec fn value_json(value: serde_json::Value) -> JsonView;

/// `serde_json::from_slice` at `serde_json::Value`: the document that `body`
/// spells, or the error that says why it spells none.
#[verifier::external_body]
fn parse_value(body: &[u8]) -> (parsed: Result<serde_json::Value, serde_json::Error>)
    ensures
        match parsed {
            Ok(value) => json_reading(body@) == Some(value_json(value)),
            Err(_) => json_reading(body@) is None,
        },
{
    serde_json::from_slice::<serde_json::Value>(body)
}

/// `Value::is_null` tells whether the value is `null`.
pub assume_specification[ serde_json::Value::is_null ](value: &serde_json::Value) -> (null: bool)
    ensures
        null == (value_json(*value) is Null),
;

/// `Value::as_bool` gives the boolean that the value is, and nothing of any
/// other value.
pub assume_specification[ serde_json::Value::as_bool ](value: &serde_json::Value) -> (flag:
    Option<bool>)
    ensures
        flag == match value_json(*value) {
            JsonView::Bool(b) => Some(b),
            _ => None,
        },
;

/// `Value::as_str` gives the text of a string, and nothing of any other
/// value.
pub assume_specification<'a>[ serde_json::Value::as_str ](value: &'a serde_json::Value) -> (string:
    Option<&'a str>)
    ensures
        match string {
            Some(string) => value_json(*value) == JsonView::Text(string@),
            None => !(value_json(*value) is Text),
        },
;

/// `Value::as_u64` gives the integer of a number that is held unsigned, and
/// nothing of any other value.
pub assume_specification[ serde_json::Value::as_u64 ](value: &serde_json::Value) -> (unsigned:
    Option<u64>)
    ensures
        unsigned == match value_json(*value) {
            JsonView::Number(Number::Unsigned(u)) => Some(u),
            _ => None,
        },
;

/// `Value::as_i64` gives the integer of a number that is held signed, that
/// of a number that is held unsigned where it is at most `i64::MAX`, and
/// nothing of any other value.
pub assume_specification[ serde_json::Value::as_i64 ](value: &serde_json::Value) -> (signed:
    Option<i64>)
    ensures
        signed == match value_json(*value) {
            JsonView::Number(Number::Signed(i)) => Some(i),
            JsonView::Number(Number::Unsigned(u)) => if u <= i64::MAX {
                Some(u as i64)
            } else {
                None
            },
            _ => None,
        },
;

/// `Value::as_array` gives the items of an array, and nothing of any other
/// value.
pub assume_specification<'a>[ serde_json::Value::as_array ](value: &'a serde_json::Value) -> (array:
    Option<&'a Vec<serde_json::Value>>)
    ensures
        match array {
            Some(array) => value_json(*value) == JsonView::List(
                array@.map_values(|item: serde_json::Value| value_json(item)),
            ),
            None => !(value_json(*value) is List),
        },
;

/// `Value::as_f64`, and of the float that it gives the bits: every number
/// has them, no other value has, and of a number that is held as a double
/// they are the bits that are held.
#[verifier::external_body]
fn double_bits(value: &serde_json::Value) -> (bits: Option<u64>)
    ensures
        bits is Some <==> value_json(*value) is Number,
        value_json(*value) matches JsonView::Number(Number::Double(held)) ==> bits == Some(held),
{
    value.as_f64().map(|double| double.to_bits())
}

/// `Value::as_object`, and of the map that it gives the entries that
/// `Map::iter` walks, in its order: the members of an object, and nothing of
/// any other value.
#[verifier::external_body]
fn members_of(value: &serde_json::Value) -> (entries: Option<Vec<(&String, &serde_json::Value)>>)
    ensures
        match entries {
            Some(entries) => value_json(*value) == JsonView::Object(
                entries@.map_values(
                    |entry: (&String, &serde_json::Value)|
                        MemberView { key: entry.0@, value: value_json(*entry.1) },
                ),
            ),
            None => !(value_json(*value) is Object),
        },
{
    value.as_object().map(|map| map.iter().collect())
}

/// The message of a `serde_json::Error`, by its `Display`.
#[verifier::external_body]
fn describe(error: &serde_json::Error) -> (message: String) {
    error.to_string()
}

} // verus!
