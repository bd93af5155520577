//! Instants on the UTC time line, and their renderings by `chrono`.

use crate::text::text_view;
use vstd::prelude::*;

verus! {

/// Whether `chrono::DateTime::from_timestamp` can represent the instant that
/// lies `secs` seconds and `nanos` nanoseconds after the Unix epoch.
pub uninterp spec fn chrono_represents(secs: int, nanos: int) -> bool;

/// What `chrono::DateTime::to_rfc3339` writes for that instant in UTC.
pub uninterp spec fn chrono_rfc3339(secs: int, nanos: int) -> Seq<char>;

/// What `chrono::DateTime::format` writes for that instant in UTC with the
/// format `%Y-%m-%d`.
pub uninterp spec fn chrono_day(secs: int, nanos: int) -> Seq<char>;

/// Builds the instant with `chrono::DateTime::from_timestamp` and renders it
/// with `to_rfc3339`. `None` comes exactly when chrono cannot represent the
/// instant; the text itself is only named.
#[verifier::external_body]
fn rfc3339_text(secs: i64, nanos: u32) -> (out: Option<String>)
    ensures
        out is Some <==> chrono_represents(secs as int, nanos as int),
        out matches Some(s) ==> s@ == chrono_rfc3339(secs as int, nanos as int),
{
    chrono::DateTime::from_timestamp(secs, nanos).map(|d| d.to_rfc3339())
}

/// Builds the instant with `chrono::DateTime::from_timestamp` and renders
/// its calendar day with `format("%Y-%m-%d")`. `None` comes exactly when
/// chrono cannot represent the instant; the text itself is only named.
#[verifier::external_body]
fn day_text(secs: i64, nanos: u32) -> (out: Option<String>)
    ensures
        out is Some <==> chrono_represents(secs as int, nanos as int),
        out matches Some(s) ==> s@ == chrono_day(secs as int, nanos as int),
{
    chrono::DateTime::from_timestamp(secs, nanos).map(|d| d.format("%Y-%m-%d").to_string())
}

/// What a reading of the clock counts as, in nanoseconds since the Unix
/// epoch: itself, and 0 where the instant did not fit.
pub fn reading_or_zero(reading: Option<i64>) -> (out: i64)
    ensures
        out == match reading {
            Some(n) => n,
            None => 0,
        },
{
    match reading {
        Some(n) => n,
        None => 0,
    }
}

/// An instant: whole seconds since the Unix epoch, and the nanoseconds past
/// that second.
#[derive(Clone, Copy, Debug, PartialEq, Eq, Structural)]
pub struct Timestamp {
    pub secs: i64,
    pub nanos: u32,
}

impl Timestamp {
    /// Whether `self` lies strictly after `other` on the time line.
    pub open spec fn after(self, other: Timestamp) -> bool {
        self.secs > other.secs || (self.secs == other.secs && self.nanos > other.nanos)
    }

    /// The RFC 3339 text of this instant, where it has one.
    pub open spec fn marker_text(self) -> Option<Seq<char>> {
        if chrono_represents(self.secs as int, self.nanos as int) {
            Some(chrono_rfc3339(self.secs as int, self.nanos as int))
        } else {
            None
        }
    }

    /// The calendar day of this instant as `YYYY-MM-DD`, where it has one.
    pub open spec fn day_text(self) -> Option<Seq<char>> {
        if chrono_represents(self.secs as int, self.nanos as int) {
            Some(chrono_day(self.secs as int, self.nanos as int))
        } else {
            None
        }
    }

    /// Tests whether `self` lies strictly after `other`.
    pub fn is_after(&self, other: &Timestamp) -> (b: bool)
        ensures
            b == self.after(*other),
    {
        self.secs > other.secs || (self.secs == other.secs && self.nanos > other.nanos)
    }

    /// The marker of this instant: its RFC 3339 text in UTC.
    pub fn marker(&self) -> (out: Option<String>)
        ensures
            text_view(out) == self.marker_text(),
    {
        rfc3339_text(self.secs, self.nanos)
    }

    /// The calendar day of this instant in UTC.
    pub fn day(&self) -> (out: Option<String>)
        ensures
            text_view(out) == self.day_text(),
    {
        day_text(self.secs, self.nanos)
    }
}

} // verus!
