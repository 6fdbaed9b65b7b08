//! Instants on the UTC time line, and the calendar text of an instant.

use chrono::{DateTime, Utc};
use vstd::prelude::*;

verus! {

/// An instant, counted in nanoseconds from the Unix epoch (UTC).
#[derive(Debug, Clone, Copy, PartialEq, Eq, Structural)]
pub struct Timestamp {
    pub nanos: i64,
}

/// The number of nanoseconds in one second.
pub const NANOS_PER_SECOND: i64 = 1_000_000_000;

/// The pattern in which log markers spell an instant: year, month, day,
/// hour, minute and second.
pub open spec fn marker_pattern() -> Seq<char> {
    "%Y-%m-%d %H:%M:%S"@
}

/// The calendar text of the instant `nanos` under a `strftime` pattern.
pub uninterp spec fn formatted_time(nanos: int, pattern: Seq<char>) -> Seq<char>;

/// The quotient of `a` by a positive `b`, rounded toward zero.
pub open spec fn quotient_toward_zero(a: int, b: int) -> int
    recommends
        b > 0,
{
    if a >= 0 {
        a / b
    } else {
        -((-a) / b)
    }
}

/// What is left of `a` once the multiples of `b` counted by
/// [`quotient_toward_zero`] are taken away; it has the sign of `a`.
pub open spec fn remainder_toward_zero(a: int, b: int) -> int
    recommends
        b > 0,
{
    a - b * quotient_toward_zero(a, b)
}

/// The whole seconds that lie between `earlier` and `later`, negative when
/// `later` comes first.
pub open spec fn whole_seconds_between(later: Timestamp, earlier: Timestamp) -> int {
    quotient_toward_zero(later.nanos - earlier.nanos, NANOS_PER_SECOND as int)
}

/// `DateTime::from_timestamp_nanos`, `DateTime::format` and the `Display` of
/// what it returns: the calendar text of the instant under the pattern. The
/// pattern is confined to the one the crate's documentation shows to format.
#[verifier::external_body]
pub(crate) fn format_time(nanos: i64, pattern: &str) -> (r: String)
    requires
        pattern@ == marker_pattern(),
    ensures
        r@ == formatted_time(nanos as int, pattern@),
{
    DateTime::from_timestamp_nanos(nanos).format(pattern).to_string()
}

/// `Utc::now` followed by `DateTime::timestamp_nanos_opt`: the reading of the
/// system clock, or nothing when it lies outside the span a `Timestamp` covers.
#[verifier::external_body]
pub(crate) fn clock_nanos() -> Option<i64> {
    Utc::now().timestamp_nanos_opt()
}

/// The instant that stands for a reading of the clock: the instant read, or
/// the last representable one where the clock is beyond the span covered.
pub open spec fn instant_of(reading: Option<i64>) -> Timestamp {
    match reading {
        Some(nanos) => Timestamp { nanos },
        None => Timestamp { nanos: i64::MAX },
    }
}

impl Timestamp {
    /// The instant that stands for a reading of the clock, `None` being the
    /// reading of a clock beyond the span covered.
    pub fn from_reading(reading: Option<i64>) -> (t: Timestamp)
        ensures
            t == instant_of(reading),
    {
        match reading {
            Some(nanos) => Timestamp { nanos },
            None => Timestamp { nanos: i64::MAX },
        }
    }

    /// The reading of the system clock, as [`Timestamp::from_reading`] takes
    /// it. What the clock says cannot be known beforehand, so nothing is
    /// promised of the instant.
    pub fn now() -> Timestamp {
        Timestamp::from_reading(clock_nanos())
    }

    /// The whole seconds from `earlier` to `self`.
    pub fn seconds_since(&self, earlier: &Timestamp) -> (s: i64)
        ensures
            s == whole_seconds_between(*self, *earlier),
    {
        let gap: i128 = self.nanos as i128 - earlier.nanos as i128;
        if gap >= 0 {
            (gap / 1_000_000_000) as i64
        } else {
            let back: i128 = -gap;
            -((back / 1_000_000_000) as i64)
        }
    }

    /// The instant as the log markers spell it.
    pub fn marker_text(&self) -> (r: String)
        ensures
            r@ == formatted_time(self.nanos as int, marker_pattern()),
    {
        format_time(self.nanos, "%Y-%m-%d %H:%M:%S")
    }
}

} // verus!
