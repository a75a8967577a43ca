//! Instants on the UTC time line, read from RFC 3339 text.

use vstd::prelude::*;

verus! {

/// A point on the UTC time line.
///
/// `secs` counts the whole non-leap seconds since 1970-01-01T00:00:00Z and
/// `nanos` the nanoseconds since that second began. Within a leap second
/// `secs` stays at the second before it and `nanos` runs from 1_000_000_000.
#[derive(Clone, Copy, Debug, PartialEq, Eq, Structural)]
pub struct Instant {
    pub secs: i64,
    pub nanos: u32,
}

impl Instant {
    /// The instant lies in the range that RFC 3339 text can name, from a day
    /// before the start of the year 0000 to a day after the end of the year
    /// 9999, and only the last second of a minute is stretched into a leap
    /// second.
    pub open spec fn wf(self) -> bool {
        &&& -62_167_305_600 <= self.secs <= 253_402_387_199
        &&& self.nanos < 2_000_000_000
        &&& self.nanos >= 1_000_000_000 ==> (self.secs as int) % 60 == 59
    }

    /// The instant is not inside a leap second.
    pub open spec fn leap_free(self) -> bool {
        self.nanos < 1_000_000_000
    }

    /// The second of the UTC day in which the instant lies.
    pub open spec fn second_of_day(self) -> int {
        (self.secs as int) % 86_400
    }

    /// Nanoseconds since 1970-01-01T00:00:00Z.
    pub open spec fn total_nanos(self) -> int {
        self.secs * 1_000_000_000 + self.nanos
    }
}

/// `n / d` rounded toward zero, for a positive `d`.
pub open spec fn div_toward_zero(n: int, d: int) -> int {
    if n >= 0 {
        n / d
    } else {
        -((-n) / d)
    }
}

/// The whole days in a number of seconds, rounded toward zero.
pub open spec fn whole_days_of(seconds: int) -> int {
    div_toward_zero(seconds, 86_400)
}

/// What a leap second adds to a span, in seconds. A span that ends at a
/// later second of the day than the one it starts in counts the leap second
/// it starts in; one that ends in a leap second, at an earlier second of the
/// day than it starts at, counts that second backwards.
pub open spec fn leap_adjustment(later: Instant, earlier: Instant) -> int {
    if later.second_of_day() > earlier.second_of_day() && !earlier.leap_free() {
        1
    } else if later.second_of_day() < earlier.second_of_day() && !later.leap_free() {
        -1
    } else {
        0
    }
}

/// Whole seconds from `earlier` to `later`, rounded toward zero and negative
/// where `later` comes first.
pub open spec fn elapsed_seconds(later: Instant, earlier: Instant) -> int {
    div_toward_zero(
        later.total_nanos() - earlier.total_nanos() + leap_adjustment(later, earlier)
            * 1_000_000_000,
        1_000_000_000,
    )
}

/// The instant that chrono reads from RFC 3339 text, as seconds and
/// nanoseconds, or `None` where chrono rejects the text.
pub uninterp spec fn rfc3339_instant(text: Seq<char>) -> Option<(int, int)>;

/// What parsing `text` gives, as an `Instant`.
pub open spec fn parsed(text: Seq<char>) -> Option<Instant> {
    match rfc3339_instant(text) {
        Some((secs, nanos)) => Some(Instant { secs: secs as i64, nanos: nanos as u32 }),
        None => None,
    }
}

/// Calls `chrono::DateTime::parse_from_rfc3339` and hands back the result's
/// `timestamp()` and `timestamp_subsec_nanos()`.
///
/// Believed, not proved: the result is a function of the text alone; an
/// accepted text has a four-digit year and an offset of less than a day, so
/// the instant lies within the range of `Instant::wf`; the nanoseconds
/// stay below two seconds and reach one second only in the last second of a
/// minute.
#[verifier::external_body]
fn parse_rfc3339(text: &str) -> (r: Option<Instant>)
    ensures
        r matches Some(i) ==> rfc3339_instant(text@) == Some((i.secs as int, i.nanos as int))
            && i.wf(),
        r is None ==> rfc3339_instant(text@) is None,
{
    match chrono::DateTime::parse_from_rfc3339(text) {
        Ok(d) => Some(Instant { secs: d.timestamp(), nanos: d.timestamp_subsec_nanos() }),
        Err(_) => None,
    }
}

/// Whole seconds from `earlier` to `later`, negative where `later` comes
/// first. Rebuilds both instants with `chrono::DateTime::from_timestamp`,
/// subtracts with `signed_duration_since` and reads `num_seconds()`.
///
/// Believed, not proved: chrono subtracts the dates and the times of day
/// exactly, adds or takes one second for a leap second as
/// `leap_adjustment` says, and `num_seconds()` rounds toward zero.
#[verifier::external_body]
pub(crate) fn seconds_between(later: Instant, earlier: Instant) -> (r: i64)
    requires
        later.wf(),
        earlier.wf(),
    ensures
        r == elapsed_seconds(later, earlier),
{
    let a = chrono::DateTime::from_timestamp(later.secs, later.nanos).unwrap();
    let b = chrono::DateTime::from_timestamp(earlier.secs, earlier.nanos).unwrap();
    a.signed_duration_since(b).num_seconds()
}

/// Reads an RFC 3339 date-time, such as `2024-01-10T00:00:00Z`.
pub fn parse_timestamp(text: &str) -> (r: Option<Instant>)
    ensures
        r == parsed(text@),
        r matches Some(i) ==> i.wf(),
{
    parse_rfc3339(text)
}

/// The whole days in a number of seconds, rounded toward zero.
pub fn whole_days(seconds: i64) -> (r: i64)
    ensures
        r == whole_days_of(seconds as int),
{
    if seconds >= 0 {
        seconds / 86_400
    } else {
        let days: u64 = magnitude(seconds) / 86_400;
        -(days as i64)
    }
}

/// The size of a number of seconds, without its sign.
pub fn magnitude(seconds: i64) -> (r: u64)
    ensures
        r == if seconds >= 0 { seconds as int } else { -(seconds as int) },
{
    if seconds >= 0 {
        seconds as u64
    } else {
        let above: i64 = seconds + 1;
        let m: i64 = -above;
        m as u64 + 1
    }
}

} // verus!
