//! When a cron rule is due. Nothing is kept between runs: the next firing
//! after the last start is computed from the cron expression each time.

use std::str::FromStr;

use vstd::prelude::*;

use crate::features::automation::error::AutomationError;
use crate::text::copy_str;

verus! {

/// The instant (milliseconds since the Unix epoch) that an RFC 3339 text
/// denotes, or `None` when it is not RFC 3339.
pub uninterp spec fn rfc3339_millis(value: Seq<char>) -> Option<int>;

/// The first firing of the cron expression strictly after `after_ms`
/// (`Some(None)` when it never fires again), or `None` when the expression
/// cannot be read or `after_ms` is not an instant `chrono` can hold.
pub uninterp spec fn cron_next_after(expression: Seq<char>, after_ms: int) -> Option<Option<int>>;

/// Reads an RFC 3339 time with `chrono::DateTime::parse_from_rfc3339` and
/// takes its `timestamp_millis`; the result is named `rfc3339_millis`.
#[verifier::external_body]
fn parse_rfc3339_millis(value: &str) -> (r: Option<i64>)
    ensures
        match r {
            Some(ms) => rfc3339_millis(value@) == Some(ms as int),
            None => rfc3339_millis(value@) is None,
        },
{
    match chrono::DateTime::parse_from_rfc3339(value) {
        Ok(time) => Some(time.timestamp_millis()),
        Err(_) => None,
    }
}

/// The next firing of a cron expression: reads it with
/// `cron::Schedule::from_str`, turns `after_ms` into a UTC instant with
/// `chrono::DateTime::from_timestamp_millis`, and takes the first item of
/// `Schedule::after` as milliseconds. The result is named `cron_next_after`;
/// an instant that `chrono` cannot hold, like an expression that `cron`
/// cannot read, gives `Err`.
#[verifier::external_body]
fn next_cron_firing(expression: &str, after_ms: i64) -> (r: Result<Option<i64>, ()>)
    requires
        after_ms <= CRON_LAST_START_MS,
    ensures
        match r {
            Ok(next) => cron_next_after(expression@, after_ms as int) == Some(
                match next {
                    Some(ms) => Some(ms as int),
                    None => None::<int>,
                },
            ),
            Err(()) => cron_next_after(expression@, after_ms as int) is None,
        },
{
    let schedule = match cron::Schedule::from_str(expression) {
        Ok(schedule) => schedule,
        Err(_) => return Err(()),
    };
    let after = match chrono::DateTime::from_timestamp_millis(after_ms) {
        Some(after) => after,
        None => return Err(()),
    };
    match schedule.after(&after).next() {
        Some(next) => Ok(Some(next.timestamp_millis())),
        None => Ok(None),
    }
}

/// Reads an RFC 3339 time as milliseconds since the Unix epoch.
pub fn parse_time(value: &str) -> (r: Result<i64, AutomationError>)
    ensures
        match rfc3339_millis(value@) {
            Some(ms) => (r matches Ok(t) && t as int == ms),
            None => (r matches Err(AutomationError::InvalidTime(v)) && v@ == value@),
        },
{
    match parse_rfc3339_millis(value) {
        Some(ms) => Ok(ms),
        None => Err(AutomationError::InvalidTime(copy_str(value))),
    }
}

/// Due when the next firing after `last` has come by `now`.
pub open spec fn spec_due(next: Option<int>, now: int) -> bool {
    next is Some && next->0 <= now
}

/// The latest instant (milliseconds since the Unix epoch) after which
/// `cron` can look for a firing: it starts one second later, and `chrono`
/// holds no instant past +262142-12-31T23:59:59.999 UTC (one second more
/// would make `chrono`'s addition panic).
pub const CRON_LAST_START_MS: i64 = 8210266876798999;

/// Whether the cron expression fires after `last` and no later than `now`
/// (both in milliseconds since the Unix epoch).
pub fn is_due(expression: &str, last: i64, now: i64) -> (r: Result<bool, AutomationError>)
    requires
        last <= CRON_LAST_START_MS,
    ensures
        match cron_next_after(expression@, last as int) {
            Some(next) => r == Ok::<bool, AutomationError>(spec_due(next, now as int)),
            None => (r matches Err(AutomationError::InvalidCron(e)) && e@ == expression@),
        },
{
    match next_cron_firing(expression, last) {
        Ok(Some(next)) => Ok(next <= now),
        Ok(None) => Ok(false),
        Err(()) => Err(AutomationError::InvalidCron(copy_str(expression))),
    }
}

/// Whether a schedule fires now: after its last start `last` (written
/// `last_text`), no later than `now`. A start past the last instant a cron
/// search can begin from is refused as a time that cannot be used.
pub fn schedule_fires(expression: &str, last: i64, last_text: &str, now: i64) -> (r: Result<
    bool,
    AutomationError,
>)
    ensures
        last > CRON_LAST_START_MS ==> (r matches Err(AutomationError::InvalidTime(v)) && v@ == last_text@),
        last <= CRON_LAST_START_MS ==> match cron_next_after(expression@, last as int) {
            Some(next) => r == Ok::<bool, AutomationError>(spec_due(next, now as int)),
            None => (r matches Err(AutomationError::InvalidCron(e)) && e@ == expression@),
        },
{
    if last > CRON_LAST_START_MS {
        return Err(AutomationError::InvalidTime(copy_str(last_text)));
    }
    is_due(expression, last, now)
}

} // verus!
