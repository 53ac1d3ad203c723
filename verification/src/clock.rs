//! Instants of time: where they come from, how they are ordered and how they
//! are written.

use chrono::{DateTime, Utc};
use vstd::prelude::*;

verus! {

/// The RFC 3339 text of the instant `secs` whole seconds and `nanos`
/// nanoseconds after the Unix epoch, in UTC, as chrono writes it; `None`
/// where chrono has no date for that instant.
pub uninterp spec fn rfc3339_text(secs: int, nanos: int) -> Option<Seq<char>>;

/// The calendar date of the same instant in UTC, written as day, month and
/// year with `/` between them, as chrono formats `%d/%m/%Y`; `None` where
/// chrono has no date for that instant.
pub uninterp spec fn calendar_date_text(secs: int, nanos: int) -> Option<Seq<char>>;

/// The instant can be written.
pub open spec fn representable(secs: int, nanos: int) -> bool {
    rfc3339_text(secs, nanos) is Some
}

/// Calls chrono's `Utc::now` and reads the result with `DateTime::timestamp`
/// and `DateTime::timestamp_subsec_nanos`. Trusted: chrono documents that
/// `DateTime::from_timestamp` accepts this pair again, so the instant is
/// representable. Nothing is claimed of which instant it is. chrono panics
/// when the system clock reads earlier than the Unix epoch.
#[verifier::external_body]
fn read_clock() -> (instant: (i64, u32))
    ensures
        representable(instant.0 as int, instant.1 as int),
{
    let now = Utc::now();
    (now.timestamp(), now.timestamp_subsec_nanos())
}

/// Calls chrono's `DateTime::from_timestamp` and, where that gives a date,
/// `DateTime::to_rfc3339` on it. Trusted: the outcome is named
/// `rfc3339_text` of the two arguments.
#[verifier::external_body]
fn write_rfc3339(secs: i64, nanos: u32) -> (text: Option<String>)
    ensures
        match text {
            Some(t) => rfc3339_text(secs as int, nanos as int) == Some(t@),
            None => rfc3339_text(secs as int, nanos as int) is None,
        },
{
    match DateTime::from_timestamp(secs, nanos) {
        Some(instant) => Some(instant.to_rfc3339()),
        None => None,
    }
}

/// Calls chrono's `DateTime::from_timestamp` and, where that gives a date,
/// `DateTime::format` with `%d/%m/%Y` on it. Trusted: the outcome is named
/// `calendar_date_text` of the two arguments, and it is there exactly when
/// `DateTime::from_timestamp` gives a date, which is when the instant is
/// representable.
#[verifier::external_body]
fn write_calendar_date(secs: i64, nanos: u32) -> (text: Option<String>)
    ensures
        match text {
            Some(t) => calendar_date_text(secs as int, nanos as int) == Some(t@),
            None => calendar_date_text(secs as int, nanos as int) is None,
        },
        text is Some <==> representable(secs as int, nanos as int),
{
    match DateTime::from_timestamp(secs, nanos) {
        Some(instant) => Some(instant.format("%d/%m/%Y").to_string()),
        None => None,
    }
}

/// An instant in UTC that chrono can write: whole seconds since the Unix
/// epoch and the nanoseconds past that second.
#[derive(Clone, Copy, Debug)]
pub struct Timestamp {
    secs: i64,
    nanos: u32,
}

impl Timestamp {
    #[verifier::type_invariant]
    spec fn valid(self) -> bool {
        representable(self.secs as int, self.nanos as int)
    }

    /// Whole seconds since the Unix epoch.
    pub closed spec fn secs(self) -> int {
        self.secs as int
    }

    /// Nanoseconds past the whole second.
    pub closed spec fn nanos(self) -> int {
        self.nanos as int
    }

    /// The instant is `other` or later.
    pub open spec fn at_or_after(self, other: Timestamp) -> bool {
        self.secs() > other.secs() || (self.secs() == other.secs() && self.nanos() >= other.nanos())
    }

    /// The later of two instants; `self` where they are the same.
    pub open spec fn later_of(self, other: Timestamp) -> Timestamp {
        if self.at_or_after(other) {
            self
        } else {
            other
        }
    }

    /// The RFC 3339 text of the instant.
    pub open spec fn text(self) -> Seq<char> {
        rfc3339_text(self.secs(), self.nanos())->0
    }

    /// The calendar date of the instant, as day/month/year.
    pub open spec fn date_text(self) -> Seq<char> {
        calendar_date_text(self.secs(), self.nanos())->0
    }

    /// The current instant of the system clock. Which instant that is
    /// cannot be said; whichever it is, it can be written.
    pub fn now() -> (instant: Timestamp)
        ensures
            representable(instant.secs(), instant.nanos()),
    {
        let (secs, nanos) = read_clock();
        Timestamp { secs, nanos }
    }

    /// The instant `secs` seconds and `nanos` nanoseconds after the Unix
    /// epoch, where it is representable.
    pub fn from_unix(secs: i64, nanos: u32) -> (instant: Option<Timestamp>)
        ensures
            instant is Some <==> representable(secs as int, nanos as int),
            instant matches Some(t) ==> t.secs() == secs && t.nanos() == nanos,
    {
        match write_rfc3339(secs, nanos) {
            Some(_) => Some(Timestamp { secs, nanos }),
            None => None,
        }
    }

    /// Whole seconds since the Unix epoch.
    pub fn unix_seconds(&self) -> (secs: i64)
        ensures
            secs == self.secs(),
    {
        self.secs
    }

    /// Nanoseconds past the whole second.
    pub fn subsec_nanos(&self) -> (nanos: u32)
        ensures
            nanos == self.nanos(),
    {
        self.nanos
    }

    /// Whether this instant is `other` or later.
    pub fn is_at_or_after(&self, other: &Timestamp) -> (later: bool)
        ensures
            later == self.at_or_after(*other),
    {
        self.secs > other.secs || (self.secs == other.secs && self.nanos >= other.nanos)
    }

    /// The later of this instant and `other`.
    pub fn latest(self, other: Timestamp) -> (later: Timestamp)
        ensures
            later == self.later_of(other),
    {
        if self.is_at_or_after(&other) {
            self
        } else {
            other
        }
    }

    /// Writes the instant as RFC 3339 text.
    pub fn to_rfc3339(&self) -> (text: String)
        ensures
            text@ == self.text(),
    {
        proof {
            use_type_invariant(self);
        }
        match write_rfc3339(self.secs, self.nanos) {
            Some(text) => text,
            None => String::new(),
        }
    }

    /// Writes the calendar date of the instant as day/month/year.
    pub fn to_calendar_date(&self) -> (text: String)
        ensures
            text@ == self.date_text(),
    {
        proof {
            use_type_invariant(self);
        }
        match write_calendar_date(self.secs, self.nanos) {
            Some(text) => text,
            None => String::new(),
        }
    }
}

} // verus!
