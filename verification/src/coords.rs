//! Coordinates, in the decimal text in which a request carries them.

use crate::text::same_text;
use vstd::prelude::*;
use vstd::string::StrSliceExecFns;

verus! {

/// Whether `c` is one of the ten digits.
pub open spec fn is_digit(c: char) -> bool {
    '0' <= c <= '9'
}

/// Where the run of digits of `text` that begins at `from` ends.
pub open spec fn digits_end(text: Seq<char>, from: int) -> int
    decreases text.len() - from,
{
    if 0 <= from < text.len() && is_digit(text[from]) {
        digits_end(text, from + 1)
    } else {
        from
    }
}

/// Whether `text` is a decimal numeral: an optional minus sign, one or more
/// digits and, optionally, a point and one or more digits.
pub open spec fn is_decimal(text: Seq<char>) -> bool {
    let whole = if text.len() > 0 && text[0] == '-' {
        1int
    } else {
        0int
    };
    let point = digits_end(text, whole);
    let end = digits_end(text, point + 1);
    &&& whole < point
    &&& point == text.len() || (text[point] == '.' && point + 1 < end && end == text.len())
}

/// Whether `text` is a form in which a floating-point number prints by
/// default: a decimal numeral without exponent, or one of `NaN`, `inf` and
/// `-inf`.
pub open spec fn is_degrees(text: Seq<char>) -> bool {
    is_decimal(text) || text == "NaN"@ || text == "inf"@ || text == "-inf"@
}

/// From `from` to `digits_end` there are only digits, and no digit follows.
pub proof fn lemma_digits_end(text: Seq<char>, from: int)
    requires
        0 <= from <= text.len(),
    ensures
        from <= digits_end(text, from) <= text.len(),
        forall|i: int| from <= i < digits_end(text, from) ==> is_digit(#[trigger] text[i]),
        digits_end(text, from) < text.len() ==> !is_digit(text[digits_end(text, from)]),
    decreases text.len() - from,
{
    if from < text.len() && is_digit(text[from]) {
        lemma_digits_end(text, from + 1);
    }
}

/// A form in which a floating-point number prints holds digits, `-`, `.` and
/// the letters of `NaN` and `inf`, and so none of the characters that part a
/// query.
pub proof fn lemma_degrees_have_no_mark(text: Seq<char>)
    requires
        is_degrees(text),
    ensures
        !text.contains('&'),
        forall|i: int| 0 <= i < text.len() ==> '\0' <= #[trigger] text[i] <= '\u{7f}',
{
    reveal_strlit("NaN");
    reveal_strlit("inf");
    reveal_strlit("-inf");
    if is_decimal(text) {
        let whole = if text.len() > 0 && text[0] == '-' {
            1int
        } else {
            0int
        };
        lemma_digits_end(text, whole);
        let point = digits_end(text, whole);
        if point < text.len() {
            lemma_digits_end(text, point + 1);
        }
    }
}

/// Where the run of digits of `text` that begins at `from` ends.
fn skip_digits(text: &str, from: usize) -> (end: usize)
    requires
        text.is_ascii(),
        from <= text@.len(),
    ensures
        end == digits_end(text@, from as int),
        from <= end <= text@.len(),
{
    let len = text.unicode_len();
    let mut end = from;
    while end < len
        invariant
            text.is_ascii(),
            len == text@.len(),
            from <= end <= len,
            digits_end(text@, from as int) == digits_end(text@, end as int),
        decreases len - end,
    {
        let b = text.get_ascii(end);
        if !(48 <= b && b <= 57) {
            return end;
        }
        end += 1;
    }
    end
}

/// Tells whether `text` is a decimal numeral.
pub fn is_decimal_text(text: &str) -> (decimal: bool)
    ensures
        decimal == is_decimal(text@),
{
    if !text.is_ascii() {
        proof {
            if is_decimal(text@) {
                lemma_degrees_have_no_mark(text@);
            }
        }
        return false;
    }
    let len = text.unicode_len();
    let whole: usize = if len > 0 && text.get_ascii(0) == 45 {
        1
    } else {
        0
    };
    let point = skip_digits(text, whole);
    if point == whole {
        return false;
    }
    if point == len {
        return true;
    }
    if text.get_ascii(point) != 46 {
        return false;
    }
    let end = skip_digits(text, point + 1);
    point + 1 < end && end == len
}

/// A place on the globe.
///
/// The two coordinates are held as the text that stands for them in a
/// request, which is a form in which a floating-point number of degrees
/// prints.
#[derive(Debug)]
pub struct Coords {
    lat: String,
    lon: String,
}

impl Coords {
    #[verifier::type_invariant]
    spec fn well_formed(self) -> bool {
        is_degrees(self.lat@) && is_degrees(self.lon@)
    }

    /// The text of the latitude.
    pub closed spec fn lat_text(self) -> Seq<char> {
        self.lat@
    }

    /// The text of the longitude.
    pub closed spec fn lon_text(self) -> Seq<char> {
        self.lon@
    }

    /// The place at latitude `lat` and longitude `lon`, where both are forms
    /// in which a floating-point number prints.
    pub fn new(lat: &str, lon: &str) -> (coords: Option<Coords>)
        ensures
            coords is Some <==> is_degrees(lat@) && is_degrees(lon@),
            coords matches Some(c) ==> c.lat_text() == lat@ && c.lon_text() == lon@,
    {
        if is_degrees_text(lat) && is_degrees_text(lon) {
            Some(Coords { lat: lat.to_owned(), lon: lon.to_owned() })
        } else {
            None
        }
    }

    /// The text of the latitude.
    pub fn lat(&self) -> (lat: &str)
        ensures
            lat@ == self.lat_text(),
            is_degrees(lat@),
    {
        proof {
            use_type_invariant(self);
        }
        self.lat.as_str()
    }

    /// The text of the longitude.
    pub fn lon(&self) -> (lon: &str)
        ensures
            lon@ == self.lon_text(),
            is_degrees(lon@),
    {
        proof {
            use_type_invariant(self);
        }
        self.lon.as_str()
    }
}

impl Clone for Coords {
    fn clone(&self) -> (copy: Coords)
        ensures
            copy.lat_text() == self.lat_text(),
            copy.lon_text() == self.lon_text(),
    {
        proof {
            use_type_invariant(self);
        }
        Coords { lat: self.lat.clone(), lon: self.lon.clone() }
    }
}

/// Tells whether `text` is a form in which a floating-point number prints.
pub fn is_degrees_text(text: &str) -> (degrees: bool)
    ensures
        degrees == is_degrees(text@),
{
    is_decimal_text(text) || same_text(text, "NaN") || same_text(text, "inf") || same_text(
        text,
        "-inf",
    )
}

} // verus!
