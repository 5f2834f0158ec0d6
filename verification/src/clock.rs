//! Instants as nanoseconds since the Unix epoch, and the arithmetic on them
//! that the calendar bounds.

use vstd::prelude::*;

verus! {

/// Nanoseconds in one second.
pub const NANOS_PER_SECOND: i128 = 1_000_000_000;

/// Nanoseconds in one day.
pub const NANOS_PER_DAY: i128 = 86_400_000_000_000;

/// First second that the calendar represents: the start of the year -9999.
pub const FIRST_SECOND: i64 = -377_705_116_800;

/// Last second that the calendar represents: the end of the year 9999.
pub const LAST_SECOND: i64 = 253_402_300_799;

/// First second of the last day that the calendar represents.
pub const LAST_DAY_SECOND: i64 = 253_402_214_400;

/// Whether the calendar represents an instant.
pub open spec fn representable(instant: int) -> bool {
    FIRST_SECOND * NANOS_PER_SECOND <= instant < (LAST_SECOND + 1) * NANOS_PER_SECOND
}

/// The instant that a Unix timestamp names, where the calendar reaches it.
pub open spec fn instant_of_timestamp(seconds: int) -> Option<i128> {
    if FIRST_SECOND <= seconds <= LAST_SECOND {
        Some((seconds * NANOS_PER_SECOND) as i128)
    } else {
        None
    }
}

/// The sum of an instant and a span of seconds, where the calendar reaches it.
pub open spec fn instant_plus_seconds(instant: int, seconds: int) -> Option<i128> {
    if representable(instant) && representable(instant + seconds * NANOS_PER_SECOND) {
        Some((instant + seconds * NANOS_PER_SECOND) as i128)
    } else {
        None
    }
}

/// `OffsetDateTime::from_unix_timestamp` of the `time` crate accepts exactly
/// the seconds of the years -9999 to 9999, and names the instant that many
/// seconds after the epoch.
#[verifier::external_body]
pub(crate) fn from_unix_timestamp(seconds: i64) -> (instant: Option<i128>)
    ensures
        instant == instant_of_timestamp(seconds as int),
{
    time::OffsetDateTime::from_unix_timestamp(seconds).ok().map(
        |instant| instant.unix_timestamp_nanos(),
    )
}

/// `OffsetDateTime::checked_add` of the `time` crate adds a span exactly and
/// answers nothing where the sum leaves the years -9999 to 9999. An instant
/// outside those years has no `OffsetDateTime` and answers nothing either.
#[verifier::external_body]
pub(crate) fn checked_add_seconds(instant: i128, seconds: i64) -> (sum: Option<i128>)
    ensures
        sum == instant_plus_seconds(instant as int, seconds as int),
{
    time::OffsetDateTime::from_unix_timestamp_nanos(instant).ok().and_then(
        |start| start.checked_add(time::Duration::seconds(seconds)),
    ).map(|sum| sum.unix_timestamp_nanos())
}

/// The later of two instants.
pub fn later(left: i128, right: i128) -> (latest: i128)
    ensures
        latest == if left >= right { left } else { right },
{
    if left >= right {
        left
    } else {
        right
    }
}

/// The earlier of two instants.
pub fn earlier(left: i128, right: i128) -> (earliest: i128)
    ensures
        earliest == if left <= right { left } else { right },
{
    if left <= right {
        left
    } else {
        right
    }
}

/// Whole seconds from an instant to the next UTC midnight, at least one.
pub open spec fn seconds_to_midnight(now: int) -> int {
    let remaining = (NANOS_PER_DAY - now % NANOS_PER_DAY as int) / NANOS_PER_SECOND as int;
    if now >= LAST_DAY_SECOND * NANOS_PER_SECOND || remaining < 1 {
        1
    } else {
        remaining
    }
}

/// Whole seconds until the next UTC midnight, at least one. On the last day
/// of the calendar there is no next midnight and one second is answered.
pub fn seconds_until_utc_midnight(now: i128) -> (seconds: u64)
    requires
        representable(now as int),
    ensures
        seconds == seconds_to_midnight(now as int),
{
    if now >= LAST_DAY_SECOND as i128 * NANOS_PER_SECOND {
        return 1;
    }
    let mut within: i128 = now % NANOS_PER_DAY;
    if within < 0 {
        within = within + NANOS_PER_DAY;
    }
    proof {
        vstd::arithmetic::div_mod::lemma_mod_bound(now as int, NANOS_PER_DAY as int);
        assert(within == now as int % NANOS_PER_DAY as int);
    }
    let remaining: i128 = (NANOS_PER_DAY - within) / NANOS_PER_SECOND;
    assert(0 <= remaining <= 86_400);
    if remaining < 1 {
        1
    } else {
        remaining as u64
    }
}

} // verus!
