//! The wall clock.

use vstd::prelude::*;

verus! {

#[verifier::external_type_specification]
#[verifier::external_body]
pub struct ExSystemTime(std::time::SystemTime);

#[verifier::external_type_specification]
#[verifier::external_body]
pub struct ExSystemTimeError(std::time::SystemTimeError);

/// `SystemTime::now` reads the clock; nothing is said of what it shows.
pub assume_specification[ std::time::SystemTime::now ]() -> std::time::SystemTime
;

/// `SystemTime::duration_since` the Unix epoch; an error when the clock stands before it.
#[verifier::external_body]
fn since_epoch(t: std::time::SystemTime) -> (r: Result<
    std::time::Duration,
    std::time::SystemTimeError,
>) {
    t.duration_since(std::time::UNIX_EPOCH)
}

/// `Duration::as_secs`: the whole seconds of a span of time.
#[verifier::external_body]
fn whole_seconds(d: std::time::Duration) -> u64 {
    d.as_secs()
}

/// `Duration::as_millis`: the whole milliseconds of a span of time.
#[verifier::external_body]
fn whole_milliseconds(d: std::time::Duration) -> u128 {
    d.as_millis()
}

/// The Unix time in seconds; `None` when the clock stands before the epoch. Nothing is said of
/// which time it is; `seconds_shown` says what becomes of each reading.
pub fn unix_seconds() -> Option<i64> {
    let elapsed: Option<u64> = match since_epoch(std::time::SystemTime::now()) {
        Ok(d) => Some(whole_seconds(d)),
        Err(_) => None,
    };
    seconds_shown(elapsed)
}

/// The Unix time in seconds; zero when the clock stands before the epoch. Nothing is said of
/// which time it is; `or_epoch` says what becomes of each reading.
pub fn now_unix() -> i64 {
    or_epoch(unix_seconds())
}

/// The Unix time in milliseconds, as far as it goes; zero when the clock stands before the
/// epoch. Nothing is said of which time it is; `millis_shown` says what becomes of each reading.
pub fn now_ms_u64() -> u64 {
    let elapsed: Option<u128> = match since_epoch(std::time::SystemTime::now()) {
        Ok(d) => Some(whole_milliseconds(d)),
        Err(_) => None,
    };
    millis_shown(elapsed)
}

/// The same as a signed number, as far as it goes; `to_signed_ms` says what becomes of each
/// reading.
pub fn now_ms() -> (r: i64)
    ensures
        r >= 0,
{
    to_signed_ms(now_ms_u64())
}

// ── Readings of the clock ─────────────────────────────────────────────────────

/// The Unix time in seconds, where `elapsed` is the whole seconds since the epoch and `None`
/// stands for a clock before it.
pub fn seconds_shown(elapsed: Option<u64>) -> (r: Option<i64>)
    ensures
        r == (match elapsed {
            Some(secs) => Some(secs as i64),
            None => None,
        }),
{
    match elapsed {
        Some(secs) => Some(secs as i64),
        None => None,
    }
}

/// A time, or the epoch where the clock stands before it.
pub fn or_epoch(now: Option<i64>) -> (r: i64)
    ensures
        r == (match now {
            Some(secs) => secs,
            None => 0,
        }),
{
    match now {
        Some(secs) => secs,
        None => 0,
    }
}

/// The Unix time in milliseconds, as far as it goes, where `elapsed` is the whole milliseconds
/// since the epoch and `None` stands for a clock before it.
pub fn millis_shown(elapsed: Option<u128>) -> (r: u64)
    ensures
        r == (match elapsed {
            Some(ms) => if ms <= u64::MAX {
                ms as u64
            } else {
                u64::MAX
            },
            None => 0,
        }),
{
    match elapsed {
        Some(ms) => if ms <= u64::MAX as u128 {
            ms as u64
        } else {
            u64::MAX
        },
        None => 0,
    }
}

/// A time in milliseconds as a signed number, as far as it goes.
pub open spec fn signed_ms(ms: u64) -> i64 {
    if ms <= i64::MAX {
        ms as i64
    } else {
        i64::MAX
    }
}

pub fn to_signed_ms(ms: u64) -> (r: i64)
    ensures
        r == signed_ms(ms),
{
    if ms <= i64::MAX as u64 {
        ms as i64
    } else {
        i64::MAX
    }
}

} // verus!
