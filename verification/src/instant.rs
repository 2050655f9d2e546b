//! Instants of UTC, counted in whole seconds from the Unix epoch.

use vstd::prelude::*;

verus! {

/// The first second that names a representable instant: the first second of
/// the year -262143.
pub const FIRST_SECOND: i64 = -8_334_601_228_800;

/// The last second that names a representable instant: the last second of
/// the year 262142.
pub const LAST_SECOND: i64 = 8_210_266_876_799;

/// Whether `seconds` from the epoch name an instant that `chrono` represents.
pub open spec fn representable(seconds: int) -> bool {
    FIRST_SECOND <= seconds <= LAST_SECOND
}

#[verifier::external_type_specification]
#[verifier::external_body]
pub struct ExNaiveDateTime(chrono::NaiveDateTime);

/// The date and time of day, in UTC, of the instant `seconds` after the
/// epoch, as `chrono` computes them; `None` where it represents no such
/// instant.
pub uninterp spec fn utc_at(seconds: i64) -> Option<chrono::NaiveDateTime>;

/// `chrono::DateTime::from_timestamp` with no nanoseconds, and of the instant
/// it gives the `naive_utc`. It gives an instant exactly for the seconds from
/// the first of `NaiveDate::MIN` to the last of `NaiveDate::MAX`.
#[verifier::external_body]
fn utc_from_seconds(seconds: i64) -> (utc: Option<chrono::NaiveDateTime>)
    ensures
        utc == utc_at(seconds),
        utc is Some <==> representable(seconds as int),
{
    chrono::DateTime::from_timestamp(seconds, 0).map(|instant| instant.naive_utc())
}

/// An instant of UTC, to the second.
#[derive(Clone, Copy, Debug, PartialEq, Eq, Structural)]
pub struct Timestamp {
    seconds: i64,
}

impl View for Timestamp {
    type V = int;

    /// The seconds from the epoch to the instant.
    closed spec fn view(&self) -> int {
        self.seconds as int
    }
}

impl Timestamp {
    #[verifier::type_invariant]
    spec fn in_range(self) -> bool {
        representable(self.seconds as int)
    }

    /// The instant `seconds` after the epoch, where there is one.
    pub fn from_seconds(seconds: i64) -> (instant: Option<Timestamp>)
        ensures
            instant is Some <==> representable(seconds as int),
            instant matches Some(t) ==> t@ == seconds,
    {
        match utc_from_seconds(seconds) {
            Some(_) => Some(Timestamp { seconds }),
            None => None,
        }
    }

    /// The seconds from the epoch to the instant.
    pub fn seconds(&self) -> (seconds: i64)
        ensures
            seconds == self@,
            representable(seconds as int),
    {
        proof {
            use_type_invariant(self);
        }
        self.seconds
    }

    /// The date and the time of day of the instant, in UTC.
    pub fn naive_utc(&self) -> (utc: chrono::NaiveDateTime)
        ensures
            representable(self@),
            utc_at(self@ as i64) == Some(utc),
    {
        proof {
            use_type_invariant(self);
        }
        match utc_from_seconds(self.seconds) {
            Some(utc) => utc,
            None => vstd::pervasive::unreached(),
        }
    }
}

} // verus!
