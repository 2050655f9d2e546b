//! Decoding of JSON values into typed values: the rules by which a member of
//! a report is required or optional, and by which a scalar is read.

use crate::fault::{Fault, SchemaError, SchemaErrorView, Step, StepView};
use crate::instant::{representable, Timestamp};
use crate::json::{lemma_list_view, Json, JsonView};
use crate::number::Number;
use crate::views::{option_view, option_views, views};
use vstd::prelude::*;
use vstd::string::StringExecFns;

verus! {

/// A type whose values are decoded from JSON.
pub trait FromJson: Sized + View {
    /// What `json` decodes to: the value, or the first thing in `json` that
    /// does not fit.
    spec fn read(json: JsonView) -> Result<Self::V, SchemaErrorView>;

    /// Decodes `json`.
    fn from_json(json: &Json) -> (decoded: Result<Self, SchemaError>)
        ensures
            outcome(decoded) == Self::read(json@),
    ;
}

/// The mathematical value of what a decoder returned.
pub open spec fn outcome<T: View>(decoded: Result<T, SchemaError>) -> Result<
    T::V,
    SchemaErrorView,
> {
    match decoded {
        Ok(value) => Ok(value@),
        Err(error) => Err(error@),
    }
}

/// The error for a required member `key` that is absent.
pub open spec fn missing(key: Seq<char>) -> SchemaErrorView {
    SchemaErrorView::here(Fault::Missing).under(StepView::Key(key))
}

/// `decoded`, with an error seen from outside the member `key`.
pub open spec fn under_key<V>(decoded: Result<V, SchemaErrorView>, key: Seq<char>) -> Result<
    V,
    SchemaErrorView,
> {
    match decoded {
        Ok(value) => Ok(value),
        Err(error) => Err(error.under(StepView::Key(key))),
    }
}

/// The integer that `json` is: a number written without fraction or exponent.
pub open spec fn integer(json: JsonView) -> Result<int, SchemaErrorView> {
    match json {
        JsonView::Number(number) => match number.integer() {
            Some(i) => Ok(i),
            None => Err(SchemaErrorView::here(Fault::WrongType)),
        },
        _ => Err(SchemaErrorView::here(Fault::WrongType)),
    }
}

/// A required member: the member `key` of `json` must be there and decode.
pub open spec fn field<T: FromJson>(json: JsonView, key: Seq<char>) -> Result<
    T::V,
    SchemaErrorView,
> {
    match json.member(key) {
        Some(value) => under_key(T::read(value), key),
        None => Err(missing(key)),
    }
}

/// An optional member: the member `key` of `json` may be absent or `null`;
/// where it is neither, it must decode.
pub open spec fn maybe<T: FromJson>(json: JsonView, key: Seq<char>) -> Result<
    Option<T::V>,
    SchemaErrorView,
> {
    match json.member(key) {
        None => Ok(None),
        Some(JsonView::Null) => Ok(None),
        Some(value) => match T::read(value) {
            Ok(decoded) => Ok(Some(decoded)),
            Err(error) => Err(error.under(StepView::Key(key))),
        },
    }
}

/// Whether item `i` is the first of `items` that does not decode.
pub open spec fn first_bad<T: FromJson>(items: Seq<JsonView>, i: int) -> bool {
    &&& 0 <= i < items.len()
    &&& T::read(items[i]) is Err
    &&& forall|k: int| 0 <= k < i ==> T::read(#[trigger] items[k]) is Ok
}

/// A list: `json` must be an array, and each item must decode; the error is
/// that of the first item that does not.
pub open spec fn items<T: FromJson>(json: JsonView) -> Result<Seq<T::V>, SchemaErrorView> {
    match json {
        JsonView::List(items) => if exists|i: int| first_bad::<T>(items, i) {
            let i = choose|i: int| first_bad::<T>(items, i);
            Err(T::read(items[i])->Err_0.under(StepView::Index(i)))
        } else {
            Ok(Seq::new(items.len(), |k: int| T::read(items[k])->Ok_0))
        },
        _ => Err(SchemaErrorView::here(Fault::WrongType)),
    }
}

/// A required list under `key`.
pub open spec fn field_items<T: FromJson>(json: JsonView, key: Seq<char>) -> Result<
    Seq<T::V>,
    SchemaErrorView,
> {
    match json.member(key) {
        Some(value) => under_key(items::<T>(value), key),
        None => Err(missing(key)),
    }
}

/// An optional list under `key`.
pub open spec fn maybe_items<T: FromJson>(json: JsonView, key: Seq<char>) -> Result<
    Option<Seq<T::V>>,
    SchemaErrorView,
> {
    match json.member(key) {
        None => Ok(None),
        Some(JsonView::Null) => Ok(None),
        Some(value) => match items::<T>(value) {
            Ok(decoded) => Ok(Some(decoded)),
            Err(error) => Err(error.under(StepView::Key(key))),
        },
    }
}

/// Decodes the required member `key` of `json`.
pub fn required<T: FromJson>(json: &Json, key: &str) -> (decoded: Result<T, SchemaError>)
    ensures
        outcome(decoded) == field::<T>(json@, key@),
{
    match json.get(key) {
        Some(value) => match T::from_json(value) {
            Ok(decoded) => Ok(decoded),
            Err(error) => Err(error.under(Step::Key(String::from_str(key)))),
        },
        None => Err(SchemaError::here(Fault::Missing).under(Step::Key(String::from_str(key)))),
    }
}

/// Decodes the optional member `key` of `json`.
pub fn optional<T: FromJson>(json: &Json, key: &str) -> (decoded: Result<Option<T>, SchemaError>)
    ensures
        match decoded {
            Ok(value) => maybe::<T>(json@, key@) == Ok::<_, SchemaErrorView>(option_view(value)),
            Err(error) => maybe::<T>(json@, key@) == Err::<Option<T::V>, _>(error@),
        },
{
    match json.get(key) {
        None => Ok(None),
        Some(Json::Null) => Ok(None),
        Some(value) => match T::from_json(value) {
            Ok(decoded) => Ok(Some(decoded)),
            Err(error) => Err(error.under(Step::Key(String::from_str(key)))),
        },
    }
}

/// Decodes the array `json` item by item.
pub fn list<T: FromJson>(json: &Json) -> (decoded: Result<Vec<T>, SchemaError>)
    ensures
        match decoded {
            Ok(values) => items::<T>(json@) == Ok::<_, SchemaErrorView>(views(values@)),
            Err(error) => items::<T>(json@) == Err::<Seq<T::V>, _>(error@),
        },
{
    match json {
        Json::List(elements) => {
            let ghost all = views(elements@);
            proof {
                lemma_list_view(*elements);
            }
            let mut values: Vec<T> = Vec::new();
            let mut i: usize = 0;
            while i < elements.len()
                invariant
                    i <= elements.len(),
                    json@ == JsonView::List(all),
                    all == views(elements@),
                    values.len() == i,
                    forall|k: int|
                        0 <= k < i ==> T::read(#[trigger] all[k]) == Ok::<_, SchemaErrorView>(
                            values[k]@,
                        ),
                decreases elements.len() - i,
            {
                match T::from_json(&elements[i]) {
                    Ok(value) => {
                        values.push(value);
                    },
                    Err(error) => {
                        proof {
                            assert(first_bad::<T>(all, i as int));
                            let first = choose|c: int| first_bad::<T>(all, c);
                            assert(first == i);
                        }
                        return Err(error.under(Step::Index(i)));
                    },
                }
                i += 1;
            }
            proof {
                assert forall|c: int| !first_bad::<T>(all, c) by {
                    if 0 <= c < all.len() {
                        assert(T::read(all[c]) is Ok);
                    }
                }
                assert(views(values@) =~= Seq::new(all.len(), |k: int| T::read(all[k])->Ok_0));
            }
            Ok(values)
        },
        _ => Err(SchemaError::here(Fault::WrongType)),
    }
}

/// Decodes the required list under `key` of `json`.
pub fn required_list<T: FromJson>(json: &Json, key: &str) -> (decoded: Result<
    Vec<T>,
    SchemaError,
>)
    ensures
        match decoded {
            Ok(values) => field_items::<T>(json@, key@) == Ok::<_, SchemaErrorView>(views(values@)),
            Err(error) => field_items::<T>(json@, key@) == Err::<Seq<T::V>, _>(error@),
        },
{
    match json.get(key) {
        Some(value) => match list::<T>(value) {
            Ok(decoded) => Ok(decoded),
            Err(error) => Err(error.under(Step::Key(String::from_str(key)))),
        },
        None => Err(SchemaError::here(Fault::Missing).under(Step::Key(String::from_str(key)))),
    }
}

/// Decodes the optional list under `key` of `json`.
pub fn optional_list<T: FromJson>(json: &Json, key: &str) -> (decoded: Result<
    Option<Vec<T>>,
    SchemaError,
>)
    ensures
        match decoded {
            Ok(values) => maybe_items::<T>(json@, key@) == Ok::<_, SchemaErrorView>(
                option_views(values),
            ),
            Err(error) => maybe_items::<T>(json@, key@) == Err::<Option<Seq<T::V>>, _>(error@),
        },
{
    match json.get(key) {
        None => Ok(None),
        Some(Json::Null) => Ok(None),
        Some(value) => match list::<T>(value) {
            Ok(decoded) => Ok(Some(decoded)),
            Err(error) => Err(error.under(Step::Key(String::from_str(key)))),
        },
    }
}

/// Reads `json` as an integer.
pub fn as_integer(json: &Json) -> (read: Result<i128, SchemaError>)
    ensures
        match read {
            Ok(i) => integer(json@) == Ok::<int, SchemaErrorView>(i as int),
            Err(error) => integer(json@) == Err::<int, _>(error@),
        },
{
    match json {
        Json::Number(Number::Unsigned(u)) => Ok(*u as i128),
        Json::Number(Number::Signed(i)) => Ok(*i as i128),
        _ => Err(SchemaError::here(Fault::WrongType)),
    }
}

impl FromJson for u32 {
    /// An integer from 0 to `u32::MAX`.
    open spec fn read(json: JsonView) -> Result<u32, SchemaErrorView> {
        match integer(json) {
            Ok(i) => if 0 <= i <= u32::MAX {
                Ok(i as u32)
            } else {
                Err(SchemaErrorView::here(Fault::OutOfRange))
            },
            Err(error) => Err(error),
        }
    }

    fn from_json(json: &Json) -> (decoded: Result<u32, SchemaError>) {
        let i = as_integer(json)?;
        if 0 <= i && i <= u32::MAX as i128 {
            Ok(i as u32)
        } else {
            Err(SchemaError::here(Fault::OutOfRange))
        }
    }
}

impl FromJson for i32 {
    /// An integer from `i32::MIN` to `i32::MAX`.
    open spec fn read(json: JsonView) -> Result<i32, SchemaErrorView> {
        match integer(json) {
            Ok(i) => if i32::MIN <= i <= i32::MAX {
                Ok(i as i32)
            } else {
                Err(SchemaErrorView::here(Fault::OutOfRange))
            },
            Err(error) => Err(error),
        }
    }

    fn from_json(json: &Json) -> (decoded: Result<i32, SchemaError>) {
        let i = as_integer(json)?;
        if i32::MIN as i128 <= i && i <= i32::MAX as i128 {
            Ok(i as i32)
        } else {
            Err(SchemaError::here(Fault::OutOfRange))
        }
    }
}

impl FromJson for Timestamp {
    /// An integer count of seconds that names a representable instant.
    open spec fn read(json: JsonView) -> Result<int, SchemaErrorView> {
        match integer(json) {
            Ok(i) => if representable(i) {
                Ok(i)
            } else {
                Err(SchemaErrorView::here(Fault::BadInstant))
            },
            Err(error) => Err(error),
        }
    }

    fn from_json(json: &Json) -> (decoded: Result<Timestamp, SchemaError>) {
        let i = as_integer(json)?;
        if i64::MIN as i128 <= i && i <= i64::MAX as i128 {
            match Timestamp::from_seconds(i as i64) {
                Some(instant) => Ok(instant),
                None => Err(SchemaError::here(Fault::BadInstant)),
            }
        } else {
            Err(SchemaError::here(Fault::BadInstant))
        }
    }
}

impl FromJson for Number {
    /// Any number.
    open spec fn read(json: JsonView) -> Result<Number, SchemaErrorView> {
        match json {
            JsonView::Number(number) => Ok(number),
            _ => Err(SchemaErrorView::here(Fault::WrongType)),
        }
    }

    fn from_json(json: &Json) -> (decoded: Result<Number, SchemaError>) {
        match json {
            Json::Number(number) => Ok(*number),
            _ => Err(SchemaError::here(Fault::WrongType)),
        }
    }
}

impl FromJson for String {
    /// Any string.
    open spec fn read(json: JsonView) -> Result<Seq<char>, SchemaErrorView> {
        match json {
            JsonView::Text(text) => Ok(text),
            _ => Err(SchemaErrorView::here(Fault::WrongType)),
        }
    }

    fn from_json(json: &Json) -> (decoded: Result<String, SchemaError>) {
        match json {
            Json::Text(text) => Ok(text.clone()),
            _ => Err(SchemaError::here(Fault::WrongType)),
        }
    }
}

} // verus!
