//! The wall clock, read from the system and placed on chrono's calendar.
use vstd::prelude::*;

verus! {

/// A bound on Unix seconds well inside chrono's calendar range.
pub const CALENDAR_BOUND: i64 = 8_000_000_000_000;

/// Unix seconds that chrono's calendar range surely holds.
pub open spec fn within_calendar(seconds: int) -> bool {
    -CALENDAR_BOUND <= seconds <= CALENDAR_BOUND
}

/// The largest Unix second that chrono's calendar can hold is below this.
pub const CALENDAR_END: i64 = 8_300_000_000_000;

/// Reads the system clock with `std::time::SystemTime::now()` and returns how
/// long after the Unix epoch it is, as whole seconds and the nanoseconds
/// beyond them; `None` when the clock reads before the epoch (where
/// `duration_since` gives an error). The reading depends on the clock, so
/// nothing is promised of the seconds; `Duration::subsec_nanos` is always
/// below one billion.
#[verifier::external_body]
fn read_system_clock() -> (since_epoch: Option<(u64, u32)>)
    ensures
        since_epoch matches Some((_, nanos)) ==> nanos < 1_000_000_000,
{
    let elapsed = std::time::SystemTime::now().duration_since(std::time::UNIX_EPOCH).ok()?;
    Some((elapsed.as_secs(), elapsed.subsec_nanos()))
}

/// The instant `secs` seconds and `nanos` nanoseconds after the epoch as a
/// `chrono::DateTime<Utc>` (`DateTime::from_timestamp`), read back as Unix
/// seconds (`timestamp`) and milliseconds (`timestamp_millis`); `None` when
/// chrono's calendar (years -262143 to 262142) cannot hold it. So a result
/// has the given seconds, below `CALENDAR_END`, and milliseconds that add
/// the whole milliseconds of `nanos`; an instant within `CALENDAR_BOUND`
/// always has one.
#[verifier::external_body]
fn utc_timestamps(secs: u64, nanos: u32) -> (stamps: Option<(i64, i64)>)
    ensures
        stamps matches Some((s, ms)) ==> s == secs && s < CALENDAR_END && (nanos < 1_000_000_000
            ==> ms == secs * 1000 + nanos / 1_000_000),
        (secs <= CALENDAR_BOUND && nanos < 1_000_000_000) ==> stamps is Some,
{
    let secs = i64::try_from(secs).ok()?;
    chrono::DateTime::from_timestamp(secs, nanos).map(|t| (t.timestamp(), t.timestamp_millis()))
}

/// The current time in whole Unix seconds, as the system clock and chrono's
/// calendar give it; `None` when the clock cannot be read as a date.
pub(crate) fn current_timestamp() -> (seconds: Option<i64>)
    ensures
        seconds matches Some(s) ==> 0 <= s < CALENDAR_END,
{
    match read_system_clock() {
        Some((secs, nanos)) => match utc_timestamps(secs, nanos) {
            Some((s, _)) => Some(s),
            None => None,
        },
        None => None,
    }
}

/// The current time in Unix milliseconds; `None` when the clock cannot be
/// read as a date.
pub(crate) fn current_timestamp_millis() -> (millis: Option<i64>)
    ensures
        millis matches Some(ms) ==> ms >= 0,
{
    match read_system_clock() {
        Some((secs, nanos)) => match utc_timestamps(secs, nanos) {
            Some((_, ms)) => Some(ms),
            None => None,
        },
        None => None,
    }
}

/// The instant at which tokens are judged: the current Unix second, or, when
/// the clock cannot be read, `-1`, which the unsigned expiry comparison reads
/// as the largest size, past every expiry but the unbounded one.
pub(crate) fn judging_instant() -> (now: i64)
    ensures
        0 <= now < CALENDAR_END || now == -1,
{
    match current_timestamp() {
        Some(s) => s,
        None => -1,
    }
}

/// Adds `days` whole days to the instant `seconds` (Unix seconds) with
/// `chrono::DateTime::checked_add_signed` and returns the Unix seconds of the
/// result. chrono counts a day as 86400 seconds in UTC, so a result is that
/// sum; `None` comes only when chrono's calendar range (years -262143 to
/// 262142) cannot hold the instant or the result, so instants and sums within
/// `CALENDAR_BOUND` seconds of the epoch (about 253 000 years) always give a
/// result. Where exactly near its ends the range stops is left unsaid.
#[verifier::external_body]
pub(crate) fn timestamp_after_days(seconds: i64, days: i32) -> (later: Option<i64>)
    ensures
        later matches Some(t) ==> t == seconds + 86400 * days,
        within_calendar(seconds as int) && within_calendar(seconds + 86400 * days) ==> later is Some,
{
    chrono::DateTime::from_timestamp(seconds, 0)
        .and_then(|start| start.checked_add_signed(chrono::Duration::days(days as i64)))
        .map(|end| end.timestamp())
}

} // verus!
