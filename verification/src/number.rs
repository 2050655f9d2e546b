//! JSON numbers, kept in the form in which the document gave them.

use vstd::prelude::*;

verus! {

/// A JSON number.
///
/// A parser gives an integer from 0 to `u64::MAX` as `Unsigned`, an integer
/// from `i64::MIN` to -1 as `Signed`, and every other number as the `Double`
/// nearest to it.
#[derive(Clone, Copy, Debug, PartialEq, Eq, Structural)]
pub enum Number {
    /// An integer.
    Unsigned(u64),
    /// An integer; a parser gives no integer from 0 on in this form.
    Signed(i64),
    /// A double-precision float, by its IEEE 754 bit pattern.
    Double(u64),
}

impl View for Number {
    type V = Number;

    open spec fn view(&self) -> Number {
        *self
    }
}

impl Number {
    /// The integer that the number is, if it was written as one.
    pub open spec fn integer(self) -> Option<int> {
        match self {
            Number::Unsigned(u) => Some(u as int),
            Number::Signed(i) => Some(i as int),
            Number::Double(_) => None,
        }
    }
}

} // verus!
