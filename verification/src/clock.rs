//! Instants, and how a written date is read, through `chrono`. The
//! contract of the reading is stated here and believed, not proved.

use vstd::prelude::*;

verus! {

/// A point in time: whole seconds since the start of 1970 in UTC, and the
/// nanoseconds past that second.
#[derive(Debug, Clone, Copy, PartialEq, Eq)]
pub struct Timestamp {
    pub secs: i64,
    pub nanos: u32,
}

/// The instant that a written date names, as `chrono` reads it with
/// `DateTime<Utc>`'s `FromStr`; `None` where it refuses the text.
pub uninterp spec fn utc_timestamp_of(text: Seq<char>) -> Option<Timestamp>;

/// Whether `a` is later than `b`.
pub open spec fn later_than(a: Timestamp, b: Timestamp) -> bool {
    a.secs > b.secs || (a.secs == b.secs && a.nanos > b.nanos)
}

/// `DateTime<Utc>`'s `FromStr`, with `DateTime::timestamp` and
/// `DateTime::timestamp_subsec_nanos` on what it gives: the instant that
/// `text` names.
#[verifier::external_body]
pub(crate) fn parse_utc(text: &str) -> (instant: Option<Timestamp>)
    ensures
        instant == utc_timestamp_of(text@),
{
    match text.parse::<chrono::DateTime<chrono::Utc>>() {
        Ok(moment) => Some(
            Timestamp { secs: moment.timestamp(), nanos: moment.timestamp_subsec_nanos() },
        ),
        Err(_) => None,
    }
}

impl Timestamp {
    /// Whether this instant is later than `other`.
    pub fn is_later_than(&self, other: &Timestamp) -> (later: bool)
        ensures
            later == later_than(*self, *other),
    {
        self.secs > other.secs || (self.secs == other.secs && self.nanos > other.nanos)
    }
}

/// The seconds of one day.
pub const SECS_PER_DAY: u64 = 86400;

/// The day that a second falls on, counted from the start of 1970 in UTC.
pub fn day_of(now: u64) -> (day: u64)
    ensures
        day == now / SECS_PER_DAY,
{
    now / SECS_PER_DAY
}

} // verus!
