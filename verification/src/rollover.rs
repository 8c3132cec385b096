//! The correction that a caller applies to the end before a loop begins.
//!
//! Start and end are read as clock times of a day that recur daily. An end
//! that does not lie strictly after both the start and the current time is
//! therefore taken to mean the same time on the next day. The correction is
//! applied once: it does not look further ahead than that one day.

use vstd::prelude::*;

verus! {

/// The number of days by which a passed end is pushed forward.
pub const ROLLOVER_DAYS: i64 = 1;

/// The number of seconds in a day.
pub const SECS_PER_DAY: i64 = 86_400;

/// What chrono makes of the timestamp `secs` moved forward by `days` whole
/// days: the timestamp of the moved instant, or `None` where chrono cannot
/// represent the instant, the span or their sum.
pub uninterp spec fn shifted_by_days(secs: i64, days: i64) -> Option<i64>;

/// Whether the end has to be pushed forward: it does not lie strictly after
/// both the start and the current time.
pub open spec fn needs_rollover(start: int, end: int, now: int) -> bool {
    end <= start || end <= now
}

/// The end after the correction.
pub open spec fn rolled_end(start: int, end: int, now: int) -> int {
    if needs_rollover(start, end, now) {
        end + ROLLOVER_DAYS * SECS_PER_DAY
    } else {
        end
    }
}

/// Moves a timestamp forward by whole days with chrono: the instant is made
/// by `DateTime::from_timestamp`, the span by `TimeDelta::try_days`, they are
/// added by `DateTime::checked_add_signed`, and `DateTime::timestamp` reads
/// the sum.
///
/// The contract names the result, and claims that a sum which chrono can
/// represent lies `days` times 86400 seconds after `secs`: chrono's
/// timestamps count no leap seconds, and an instant made from whole seconds
/// is none. It does not say for which arguments chrono gives `None`.
#[verifier::external_body]
fn shift_by_days(secs: i64, days: i64) -> (shifted: Option<i64>)
    ensures
        shifted == shifted_by_days(secs, days),
        shifted matches Some(v) ==> v == secs + days * SECS_PER_DAY,
{
    let instant = chrono::DateTime::from_timestamp(secs, 0)?;
    let span = chrono::TimeDelta::try_days(days)?;
    Some(instant.checked_add_signed(span)?.timestamp())
}

/// Decides whether the end has to be pushed forward.
pub fn must_roll_over(start: i64, end: i64, now: i64) -> (decision: bool)
    ensures
        decision == needs_rollover(start as int, end as int, now as int),
{
    end <= start || end <= now
}

/// Applies the correction to `end`.
///
/// An end that lies strictly after `start` and `now` is returned as it is.
/// Any other end is moved forward by one day; the result is `None` where
/// chrono cannot represent the moved end.
pub fn rollover(start: i64, end: i64, now: i64) -> (corrected: Option<i64>)
    ensures
        !needs_rollover(start as int, end as int, now as int) ==> corrected == Some(end),
        needs_rollover(start as int, end as int, now as int) ==> corrected == shifted_by_days(
            end,
            ROLLOVER_DAYS,
        ),
        corrected matches Some(v) ==> v == rolled_end(start as int, end as int, now as int),
{
    if must_roll_over(start, end, now) {
        shift_by_days(end, ROLLOVER_DAYS)
    } else {
        Some(end)
    }
}

/// Where start and current time lie less than a day after the end, which
/// holds of all clock times of one day, the corrected end lies strictly
/// after both.
pub proof fn lemma_rollover_restores_order(start: int, end: int, now: int)
    requires
        start - end < ROLLOVER_DAYS * SECS_PER_DAY,
        now - end < ROLLOVER_DAYS * SECS_PER_DAY,
    ensures
        rolled_end(start, end, now) > start,
        rolled_end(start, end, now) > now,
{
}

} // verus!
