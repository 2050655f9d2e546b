//! Encoding of typed values as JSON, and the law that decoding undoes it.

use crate::decode::{first_bad, items, FromJson};
use crate::fault::SchemaErrorView;
use crate::instant::{representable, Timestamp};
use crate::json::{lemma_list_view, lemma_object_view, lookup, Json, JsonView, Member, MemberView};
use crate::number::Number;
use crate::views::{option_view, option_views, views};
use vstd::prelude::*;
use vstd::string::StringExecFns;

verus! {

/// A type whose values are encoded as JSON, so that decoding gives them back.
pub trait ToJson: FromJson {
    /// Whether `value` is the value of something of this type.
    spec fn valid(value: Self::V) -> bool;

    /// The JSON value that stands for `value`.
    spec fn written(value: Self::V) -> JsonView;

    /// Encodes `self`.
    fn to_json(&self) -> (json: Json)
        ensures
            Self::valid(self@),
            json@ == Self::written(self@),
    ;

    /// Decoding what was encoded gives the value back; and no value is
    /// encoded as `null`, which stands for an absent one.
    proof fn round_trip(value: Self::V)
        requires
            Self::valid(value),
        ensures
            Self::written(value) !is Null,
            Self::read(Self::written(value)) == Ok::<Self::V, SchemaErrorView>(value),
    ;
}

/// An object without members yet.
pub open spec fn no_members() -> Seq<MemberView> {
    Seq::empty()
}

/// The member that holds `value` under `key`.
pub open spec fn put<T: ToJson>(key: Seq<char>, value: T::V) -> Seq<MemberView> {
    seq![MemberView { key, value: T::written(value) }]
}

/// The member that holds `value` under `key`, where there is a value.
pub open spec fn put_maybe<T: ToJson>(key: Seq<char>, value: Option<T::V>) -> Seq<MemberView> {
    match value {
        Some(value) => put::<T>(key, value),
        None => Seq::empty(),
    }
}

/// The array that stands for `values`.
pub open spec fn written_items<T: ToJson>(values: Seq<T::V>) -> JsonView {
    JsonView::List(values.map_values(|value: T::V| T::written(value)))
}

/// The member that holds the list `values` under `key`.
pub open spec fn put_items<T: ToJson>(key: Seq<char>, values: Seq<T::V>) -> Seq<MemberView> {
    seq![MemberView { key, value: written_items::<T>(values) }]
}

/// The member that holds the list `values` under `key`, where there is a
/// list.
pub open spec fn put_maybe_items<T: ToJson>(key: Seq<char>, values: Option<Seq<T::V>>) -> Seq<
    MemberView,
> {
    match values {
        Some(values) => put_items::<T>(key, values),
        None => Seq::empty(),
    }
}

/// Whether an optional value is absent or valid.
pub open spec fn valid_maybe<T: ToJson>(value: Option<T::V>) -> bool {
    value matches Some(value) ==> T::valid(value)
}

/// Whether each of `values` is valid.
pub open spec fn valid_items<T: ToJson>(values: Seq<T::V>) -> bool {
    forall|i: int| 0 <= i < values.len() ==> T::valid(#[trigger] values[i])
}

/// Whether an optional list is absent or holds valid values only.
pub open spec fn valid_maybe_items<T: ToJson>(values: Option<Seq<T::V>>) -> bool {
    values matches Some(values) ==> valid_items::<T>(values)
}

/// A key is looked up in the first of two runs of members that has it.
pub proof fn lemma_lookup_concat(first: Seq<MemberView>, second: Seq<MemberView>, key: Seq<char>)
    ensures
        lookup(first + second, key) == match lookup(first, key) {
            Some(value) => Some(value),
            None => lookup(second, key),
        },
    decreases first.len(),
{
    if first.len() == 0 {
        assert(first + second =~= second);
    } else {
        assert((first + second)[0] == first[0]);
        assert((first + second).drop_first() =~= first.drop_first() + second);
        lemma_lookup_concat(first.drop_first(), second, key);
    }
}

/// After the members `before`, a member under `key` is found by `probe`
/// exactly when `before` has no `probe` and `key` is `probe`.
pub proof fn lemma_lookup_member(
    before: Seq<MemberView>,
    key: Seq<char>,
    value: JsonView,
    probe: Seq<char>,
)
    ensures
        lookup(before + seq![MemberView { key, value }], probe) == match lookup(before, probe) {
            Some(found) => Some(found),
            None => if key == probe {
                Some(value)
            } else {
                None
            },
        },
{
    let last = seq![MemberView { key, value }];
    lemma_lookup_concat(before, last, probe);
    reveal_with_fuel(lookup, 2);
}

/// Members that are not there change no lookup.
pub proof fn lemma_lookup_nothing(before: Seq<MemberView>, probe: Seq<char>)
    ensures
        lookup(before + Seq::<MemberView>::empty(), probe) == lookup(before, probe),
{
    assert(before + Seq::<MemberView>::empty() =~= before);
}

/// Decoding an encoded list gives the list back.
pub proof fn lemma_items_round_trip<T: ToJson>(values: Seq<T::V>)
    requires
        valid_items::<T>(values),
    ensures
        items::<T>(written_items::<T>(values)) == Ok::<Seq<T::V>, SchemaErrorView>(values),
{
    let encoded = values.map_values(|value: T::V| T::written(value));
    assert forall|i: int| 0 <= i < encoded.len() implies T::read(#[trigger] encoded[i]) == Ok::<
        T::V,
        SchemaErrorView,
    >(values[i]) by {
        T::round_trip(values[i]);
    }
    assert forall|i: int| !first_bad::<T>(encoded, i) by {
        if 0 <= i < encoded.len() {
            assert(T::read(encoded[i]) is Ok);
        }
    }
    assert(Seq::new(encoded.len(), |k: int| T::read(encoded[k])->Ok_0) =~= values);
}

/// Adds the member that holds `value` under `key`.
pub fn put_member<T: ToJson>(members: &mut Vec<Member>, key: &str, value: &T)
    ensures
        T::valid(value@),
        views(final(members)@) == views(old(members)@) + put::<T>(key@, value@),
{
    let member = Member { key: String::from_str(key), value: value.to_json() };
    members.push(member);
    assert(views(members@) =~= views(old(members)@) + put::<T>(key@, value@));
}

/// Adds the member that holds `value` under `key`, where there is a value.
pub fn put_optional<T: ToJson>(members: &mut Vec<Member>, key: &str, value: &Option<T>)
    ensures
        valid_maybe::<T>(option_view(*value)),
        views(final(members)@) == views(old(members)@) + put_maybe::<T>(
            key@,
            option_view(*value),
        ),
{
    match value {
        Some(value) => put_member::<T>(members, key, value),
        None => {
            assert(views(members@) =~= views(members@) + Seq::empty());
        },
    }
}

/// Encodes `values` as an array.
pub fn list_to_json<T: ToJson>(values: &Vec<T>) -> (json: Json)
    ensures
        valid_items::<T>(views(values@)),
        json@ == written_items::<T>(views(values@)),
{
    let mut items: Vec<Json> = Vec::new();
    let mut i: usize = 0;
    while i < values.len()
        invariant
            i <= values.len(),
            items.len() == i,
            forall|k: int| 0 <= k < i ==> T::valid(#[trigger] values[k]@),
            forall|k: int| 0 <= k < i ==> (#[trigger] items[k])@ == T::written(values[k]@),
        decreases values.len() - i,
    {
        let item = values[i].to_json();
        items.push(item);
        i += 1;
    }
    proof {
        lemma_list_view(items);
        assert(views(items@) =~= views(values@).map_values(|value: T::V| T::written(value)));
    }
    Json::List(items)
}

/// Adds the member that holds the list `values` under `key`.
pub fn put_list<T: ToJson>(members: &mut Vec<Member>, key: &str, values: &Vec<T>)
    ensures
        valid_items::<T>(views(values@)),
        views(final(members)@) == views(old(members)@) + put_items::<T>(
            key@,
            views(values@),
        ),
{
    let member = Member { key: String::from_str(key), value: list_to_json::<T>(values) };
    members.push(member);
    assert(views(members@) =~= views(old(members)@) + put_items::<T>(
        key@,
        views(values@),
    ));
}

/// Adds the member that holds the list `values` under `key`, where there is
/// a list.
pub fn put_optional_list<T: ToJson>(
    members: &mut Vec<Member>,
    key: &str,
    values: &Option<Vec<T>>,
)
    ensures
        valid_maybe_items::<T>(option_views(*values)),
        views(final(members)@) == views(old(members)@) + put_maybe_items::<T>(
            key@,
            option_views(*values),
        ),
{
    match values {
        Some(values) => put_list::<T>(members, key, values),
        None => {
            assert(views(members@) =~= views(members@) + Seq::empty());
        },
    }
}

/// The lookups in an object that was built member by member: each goes to
/// the first member that has the key.
pub proof fn lemma_lookups()
    ensures
        forall|before: Seq<MemberView>, key: Seq<char>, value: JsonView, probe: Seq<char>| #[trigger]
            lookup(before + seq![MemberView { key, value }], probe) == match lookup(
                before,
                probe,
            ) {
                Some(found) => Some(found),
                None => if key == probe {
                    Some(value)
                } else {
                    None
                },
            },
        forall|before: Seq<MemberView>, probe: Seq<char>| #[trigger]
            lookup(before + Seq::<MemberView>::empty(), probe) == lookup(before, probe),
{
    assert forall|before: Seq<MemberView>, key: Seq<char>, value: JsonView, probe: Seq<char>| #[trigger]
        lookup(before + seq![MemberView { key, value }], probe) == match lookup(before, probe) {
            Some(found) => Some(found),
            None => if key == probe {
                Some(value)
            } else {
                None
            },
        } by {
        lemma_lookup_member(before, key, value, probe);
    }
    assert forall|before: Seq<MemberView>, probe: Seq<char>| #[trigger]
        lookup(before + Seq::<MemberView>::empty(), probe) == lookup(before, probe) by {
        lemma_lookup_nothing(before, probe);
    }
}

/// A list of members without members yet.
pub fn new_members() -> (members: Vec<Member>)
    ensures
        views(members@) == no_members(),
{
    let members: Vec<Member> = Vec::new();
    assert(views(members@) =~= no_members());
    members
}

/// The object that holds `members`.
pub fn object(members: Vec<Member>) -> (json: Json)
    ensures
        json@ == JsonView::Object(views(members@)),
{
    proof {
        lemma_object_view(members);
    }
    Json::Object(members)
}

/// The number that stands for the integer `i`.
pub open spec fn written_integer(i: int) -> JsonView {
    if i >= 0 {
        JsonView::Number(Number::Unsigned(i as u64))
    } else {
        JsonView::Number(Number::Signed(i as i64))
    }
}

impl ToJson for u32 {
    open spec fn valid(value: u32) -> bool {
        true
    }

    open spec fn written(value: u32) -> JsonView {
        written_integer(value as int)
    }

    fn to_json(&self) -> (json: Json) {
        Json::Number(Number::Unsigned(*self as u64))
    }

    proof fn round_trip(value: u32) {
    }
}

impl ToJson for i32 {
    open spec fn valid(value: i32) -> bool {
        true
    }

    open spec fn written(value: i32) -> JsonView {
        written_integer(value as int)
    }

    fn to_json(&self) -> (json: Json) {
        if *self >= 0 {
            Json::Number(Number::Unsigned(*self as u64))
        } else {
            Json::Number(Number::Signed(*self as i64))
        }
    }

    proof fn round_trip(value: i32) {
    }
}

impl ToJson for Timestamp {
    open spec fn valid(value: int) -> bool {
        representable(value)
    }

    open spec fn written(value: int) -> JsonView {
        written_integer(value)
    }

    fn to_json(&self) -> (json: Json) {
        let seconds = self.seconds();
        if seconds >= 0 {
            Json::Number(Number::Unsigned(seconds as u64))
        } else {
            Json::Number(Number::Signed(seconds))
        }
    }

    proof fn round_trip(value: int) {
    }
}

impl ToJson for Number {
    open spec fn valid(value: Number) -> bool {
        true
    }

    open spec fn written(value: Number) -> JsonView {
        JsonView::Number(value)
    }

    fn to_json(&self) -> (json: Json) {
        Json::Number(*self)
    }

    proof fn round_trip(value: Number) {
    }
}

impl ToJson for String {
    open spec fn valid(value: Seq<char>) -> bool {
        true
    }

    open spec fn written(value: Seq<char>) -> JsonView {
        JsonView::Text(value)
    }

    fn to_json(&self) -> (json: Json) {
        Json::Text(self.clone())
    }

    proof fn round_trip(value: Seq<char>) {
    }
}

} // verus!
