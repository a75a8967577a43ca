//! The three figures of a reply: the number of posts, the whole days since
//! the post before the newest, and the posts per day over the whole log.

use crate::clock::{
    elapsed_seconds, magnitude, parse_timestamp, parsed, seconds_between, whole_days,
    whole_days_of, Instant,
};
use vstd::prelude::*;

verus! {

/// One recorded post.
#[derive(Clone, Debug)]
pub struct BreadPost {
    /// The identifier that the chat platform gave the message.
    pub id: u64,
    /// When the message was created, as RFC 3339 text.
    pub date: String,
    /// A link back to the message.
    pub message_url: String,
}

/// Why a figure could not be computed.
#[derive(Clone, Copy, Debug, PartialEq, Eq, Structural)]
pub enum StatsError {
    /// A stored timestamp is no RFC 3339 date-time.
    Parse,
    /// The log holds fewer than two posts.
    InsufficientHistory,
    /// The newest and the oldest post are less than a second apart, so no
    /// rate exists.
    ZeroSpan,
}

/// Posts per day as an exact ratio: `posts` posts within `span_seconds`
/// seconds, that is `posts * 86400 / span_seconds` posts per day.
#[derive(Clone, Copy, Debug, PartialEq, Eq, Structural)]
pub struct Rate {
    pub posts: usize,
    pub span_seconds: u64,
}

/// The size of an integer, without its sign.
pub open spec fn abs(n: int) -> int {
    if n >= 0 {
        n
    } else {
        -n
    }
}

/// Every timestamp of the log is an RFC 3339 date-time.
pub open spec fn all_parse(posts: Seq<BreadPost>) -> bool {
    forall|i: int| 0 <= i < posts.len() ==> parsed((#[trigger] posts[i]).date@) is Some
}

/// The instant of post `i`.
pub open spec fn instant_at(posts: Seq<BreadPost>, i: int) -> Instant {
    parsed(posts[i].date@).unwrap()
}

/// Whole days from the second post of a newest-first log to its first.
pub open spec fn days_since_last_post(posts: Seq<BreadPost>) -> Result<int, StatsError> {
    if posts.len() < 2 {
        Err(StatsError::InsufficientHistory)
    } else if !all_parse(posts) {
        Err(StatsError::Parse)
    } else {
        Ok(whole_days_of(elapsed_seconds(instant_at(posts, 0), instant_at(posts, 1))))
    }
}

/// Whole seconds between the first and the last post of a log, without sign.
pub open spec fn span_seconds(posts: Seq<BreadPost>) -> int {
    abs(elapsed_seconds(instant_at(posts, posts.len() - 1), instant_at(posts, 0)))
}

/// Why a log has no rate, if it has none.
pub open spec fn rate_failure(posts: Seq<BreadPost>) -> Option<StatsError> {
    if posts.len() < 2 {
        Some(StatsError::InsufficientHistory)
    } else if !all_parse(posts) {
        Some(StatsError::Parse)
    } else if span_seconds(posts) == 0 {
        Some(StatsError::ZeroSpan)
    } else {
        None
    }
}

/// A count of days, or the error in its place, is the one that `model` gives.
pub open spec fn days_agree(r: Result<i64, StatsError>, model: Result<int, StatsError>) -> bool {
    match r {
        Ok(days) => model == Ok::<int, StatsError>(days as int),
        Err(e) => model == Err::<int, StatsError>(e),
    }
}

/// The number of posts in the log.
pub fn total_count(posts: &Vec<BreadPost>) -> (r: usize)
    ensures
        r == posts@.len(),
{
    posts.len()
}

/// The instants of all posts, in the order of the log, or `None` where a
/// timestamp is no RFC 3339 date-time.
pub fn parse_all(posts: &Vec<BreadPost>) -> (r: Option<Vec<Instant>>)
    ensures
        r is Some <==> all_parse(posts@),
        r matches Some(instants) ==> instants@.len() == posts@.len() && forall|i: int|
            0 <= i < instants@.len() ==> (#[trigger] instants@[i]) == instant_at(posts@, i)
                && instants@[i].wf(),
{
    let n: usize = posts.len();
    let mut instants: Vec<Instant> = Vec::new();
    let mut i: usize = 0;
    while i < n
        invariant
            i <= n,
            n == posts@.len(),
            instants@.len() == i,
            forall|j: int|
                #![trigger instants@[j]]
                #![trigger posts@[j]]
                0 <= j < i ==> parsed(posts@[j].date@) == Some(instants@[j]) && instants@[j].wf(),
        decreases n - i,
    {
        match parse_timestamp(posts[i].date.as_str()) {
            Some(instant) => {
                instants.push(instant);
            },
            None => {
                assert(parsed(posts@[i as int].date@) is None);
                return None;
            },
        }
        i += 1;
    }
    Some(instants)
}

/// The rate of `count` posts over `elapsed` seconds; the sign of `elapsed`
/// does not matter. Fails with `ZeroSpan` exactly when `elapsed` is zero.
pub fn rate_over(count: usize, elapsed: i64) -> (r: Result<Rate, StatsError>)
    ensures
        match r {
            Ok(rate) => elapsed != 0 && rate.posts == count && rate.span_seconds == abs(
                elapsed as int,
            ),
            Err(e) => elapsed == 0 && e == StatsError::ZeroSpan,
        },
{
    if elapsed == 0 {
        Err(StatsError::ZeroSpan)
    } else {
        Ok(Rate { posts: count, span_seconds: magnitude(elapsed) })
    }
}

/// Whole days between the newest post and the one before it, rounded toward
/// zero. `posts` is ordered newest first.
///
/// Fails with `InsufficientHistory` exactly when there are fewer than two
/// posts, and otherwise with `Parse` exactly when some timestamp of the log
/// is no RFC 3339 date-time.
pub fn calculate_time_since_last_post(posts: &Vec<BreadPost>) -> (r: Result<i64, StatsError>)
    ensures
        days_agree(r, days_since_last_post(posts@)),
        r == Err::<i64, StatsError>(StatsError::InsufficientHistory) <==> posts@.len() < 2,
        r == Err::<i64, StatsError>(StatsError::Parse) <==> posts@.len() >= 2 && !all_parse(
            posts@,
        ),
        r matches Ok(days) ==> days == whole_days_of(
            elapsed_seconds(instant_at(posts@, 0), instant_at(posts@, 1)),
        ),
{
    if posts.len() < 2 {
        return Err(StatsError::InsufficientHistory);
    }
    match parse_all(posts) {
        Some(instants) => Ok(whole_days(seconds_between(instants[0], instants[1]))),
        None => Err(StatsError::Parse),
    }
}

/// Posts per day over the whole log, as the number of posts and the seconds
/// between the newest and the oldest. `posts` is ordered newest first.
///
/// Fails with `InsufficientHistory` exactly when there are fewer than two
/// posts, otherwise with `Parse` exactly when some timestamp of the log is
/// no RFC 3339 date-time, and otherwise with `ZeroSpan` exactly when the
/// first and the last post are less than a second apart.
pub fn calculate_bppd(posts: &Vec<BreadPost>) -> (r: Result<Rate, StatsError>)
    ensures
        match r {
            Ok(rate) => rate_failure(posts@) is None && rate.posts == posts@.len()
                && rate.span_seconds == span_seconds(posts@),
            Err(e) => rate_failure(posts@) == Some(e),
        },
        r matches Ok(rate) ==> rate.span_seconds > 0,
        r == Err::<Rate, StatsError>(StatsError::InsufficientHistory) <==> posts@.len() < 2,
        r == Err::<Rate, StatsError>(StatsError::Parse) <==> posts@.len() >= 2 && !all_parse(
            posts@,
        ),
        r == Err::<Rate, StatsError>(StatsError::ZeroSpan) <==> posts@.len() >= 2 && all_parse(
            posts@,
        ) && span_seconds(posts@) == 0,
{
    let n: usize = posts.len();
    if n < 2 {
        return Err(StatsError::InsufficientHistory);
    }
    match parse_all(posts) {
        Some(instants) => rate_over(n, seconds_between(instants[n - 1], instants[0])),
        None => Err(StatsError::Parse),
    }
}

/// Rounding toward zero keeps the sign and drops less than a day: the whole
/// days of a span, turned back into seconds, are no further from zero than
/// the span and come within a day of it.
pub proof fn lemma_whole_days_truncate(seconds: int)
    ensures
        ({
            let days = whole_days_of(seconds);
            &&& seconds >= 0 ==> days * 86_400 <= seconds < (days + 1) * 86_400
            &&& seconds <= 0 ==> (days - 1) * 86_400 < seconds <= days * 86_400
        }),
{
}

/// Outside leap seconds, the days since the last post are the days between
/// the two newest timestamps with the broken day dropped: counted in
/// nanoseconds, the days reach no further from zero than the distance
/// between the two instants and come within a day of it.
pub proof fn lemma_days_since_last_post_truncate(posts: Seq<BreadPost>, days: int)
    requires
        days_since_last_post(posts) == Ok::<int, StatsError>(days),
        instant_at(posts, 0).leap_free(),
        instant_at(posts, 1).leap_free(),
    ensures
        ({
            let distance = instant_at(posts, 0).total_nanos() - instant_at(posts, 1).total_nanos();
            let day = 86_400_000_000_000int;
            &&& distance >= 0 ==> days * day <= distance < (days + 1) * day
            &&& distance <= 0 ==> (days - 1) * day < distance <= days * day
        }),
{
}

/// A log of fewer than two posts has neither figure, whatever its one
/// timestamp holds.
pub proof fn lemma_short_log_is_insufficient(posts: Seq<BreadPost>)
    requires
        posts.len() < 2,
    ensures
        days_since_last_post(posts) == Err::<int, StatsError>(StatsError::InsufficientHistory),
        rate_failure(posts) == Some(StatsError::InsufficientHistory),
{
}

/// One timestamp that is no RFC 3339 date-time, anywhere in a log of two or
/// more posts, takes both figures away.
pub proof fn lemma_broken_record_fails_the_log(posts: Seq<BreadPost>, i: int)
    requires
        posts.len() >= 2,
        0 <= i < posts.len(),
        parsed(posts[i].date@) is None,
    ensures
        days_since_last_post(posts) == Err::<int, StatsError>(StatsError::Parse),
        rate_failure(posts) == Some(StatsError::Parse),
{
}

/// Outside leap seconds, a span counted backwards is the span counted
/// forwards with the opposite sign, so its size does not depend on the
/// direction in which it was counted.
pub proof fn lemma_span_direction(a: Instant, b: Instant)
    requires
        a.leap_free(),
        b.leap_free(),
    ensures
        elapsed_seconds(a, b) == -elapsed_seconds(b, a),
        abs(elapsed_seconds(a, b)) == abs(elapsed_seconds(b, a)),
{
}

/// Outside leap seconds, moving both instants by the same number of seconds
/// leaves the span between them unchanged.
pub proof fn lemma_span_shift(a: Instant, b: Instant, a2: Instant, b2: Instant, shift: int)
    requires
        a.leap_free(),
        b.leap_free(),
        a2.nanos == a.nanos,
        b2.nanos == b.nanos,
        a2.secs == a.secs + shift,
        b2.secs == b.secs + shift,
    ensures
        elapsed_seconds(a2, b2) == elapsed_seconds(a, b),
        whole_days_of(elapsed_seconds(a2, b2)) == whole_days_of(elapsed_seconds(a, b)),
{
}

/// Outside leap seconds, the days since the last post do not fall when the
/// newest instant moves later.
pub proof fn lemma_days_monotone(newest: Instant, later: Instant, previous: Instant)
    requires
        newest.leap_free(),
        later.leap_free(),
        previous.leap_free(),
        newest.total_nanos() <= later.total_nanos(),
    ensures
        whole_days_of(elapsed_seconds(newest, previous)) <= whole_days_of(
            elapsed_seconds(later, previous),
        ),
{
}

} // verus!
