//! Timestamp normalization.
//!
//! Each browser stores visit times as a count from its own epoch:
//! Chrome counts microseconds from 1601-01-01T00:00:00Z, Firefox counts
//! microseconds from 1970-01-01T00:00:00Z, and Safari counts seconds from
//! 2001-01-01T00:00:00Z. This module maps each raw count to a single common
//! representation: microseconds since the Unix epoch. Overflow is reported,
//! never clamped.

use vstd::prelude::*;

verus! {

/// Microseconds from 1601-01-01T00:00:00Z (the Chrome epoch) to
/// 1970-01-01T00:00:00Z (the Unix epoch): 134774 days.
pub const CHROME_EPOCH_OFFSET_MICROS: i64 = 11_644_473_600_000_000;

/// Seconds from 1970-01-01T00:00:00Z (the Unix epoch) to
/// 2001-01-01T00:00:00Z (the Safari epoch): 11323 days.
pub const SAFARI_EPOCH_OFFSET_SECS: i64 = 978_307_200;

pub const MICROS_PER_SEC: i64 = 1_000_000;

pub const SECS_PER_DAY: i64 = 86_400;

/// A Gregorian leap year: divisible by 4, except centuries not divisible
/// by 400.
pub open spec fn is_leap_year(y: int) -> bool {
    y % 4 == 0 && (y % 100 != 0 || y % 400 == 0)
}

/// How many leap years lie strictly before year `y`, counting from year 1.
pub open spec fn leap_years_before(y: int) -> int {
    (y - 1) / 4 - (y - 1) / 100 + (y - 1) / 400
}

/// Days in the Gregorian calendar from 1601-01-01 to January 1 of year `y`:
/// 365 per elapsed year, one more per elapsed leap year.
pub open spec fn gregorian_days_from_1601(y: int) -> int {
    365 * (y - 1601) + leap_years_before(y) - leap_years_before(1601)
}

/// The leap-year count steps by one exactly at leap years, so
/// `gregorian_days_from_1601` advances by 366 over a leap year and by 365
/// over a common year.
pub proof fn lemma_leap_count_step(y: int)
    requires
        1 <= y,
    ensures
        leap_years_before(y + 1) - leap_years_before(y) == if is_leap_year(y) {
            1int
        } else {
            0int
        },
        gregorian_days_from_1601(y + 1) - gregorian_days_from_1601(y) == if is_leap_year(y) {
            366int
        } else {
            365int
        },
{
}

/// The Chrome epoch offset is exactly the calendar distance from
/// 1601-01-01 to 1970-01-01, rendered in microseconds.
pub proof fn lemma_chrome_offset_matches_calendar()
    ensures
        CHROME_EPOCH_OFFSET_MICROS == gregorian_days_from_1601(1970) * SECS_PER_DAY
            * MICROS_PER_SEC,
{
}

/// The Safari epoch offset is exactly the calendar distance from
/// 1970-01-01 to 2001-01-01, rendered in seconds.
pub proof fn lemma_safari_offset_matches_calendar()
    ensures
        SAFARI_EPOCH_OFFSET_SECS == (gregorian_days_from_1601(2001) - gregorian_days_from_1601(
            1970,
        )) * SECS_PER_DAY,
{
}

/// An absolute UTC instant, counted in microseconds since the Unix epoch.
/// Negative values lie before 1970.
#[derive(Clone, Copy, PartialEq, Eq, Structural, Debug)]
pub struct UtcInstant {
    pub micros: i64,
}

/// Whether a mathematical integer is representable as an `i64`.
pub open spec fn fits_i64(x: int) -> bool {
    i64::MIN <= x <= i64::MAX
}

/// The instant `t` microseconds after the Chrome epoch, as microseconds
/// since the Unix epoch.
pub open spec fn chrome_utc_micros(t: int) -> int {
    t - CHROME_EPOCH_OFFSET_MICROS
}

/// The instant `t` microseconds after the Unix epoch: Firefox already
/// counts from the Unix epoch, so the raw value is the answer.
pub open spec fn firefox_utc_micros(t: int) -> int {
    t
}

/// The instant `s` whole seconds after the Safari epoch, as microseconds
/// since the Unix epoch.
pub open spec fn safari_utc_micros(s: int) -> int {
    (s + SAFARI_EPOCH_OFFSET_SECS) * MICROS_PER_SEC
}

/// Converts a raw Chrome visit time (microseconds since 1601-01-01T00:00:00Z)
/// to a UTC instant. Returns `None` exactly when the shifted value does not
/// fit the representation; that is a fatal condition for the caller, not a
/// value to clamp.
pub fn chrome_to_utc(t: i64) -> (r: Option<UtcInstant>)
    ensures
        r is Some <==> fits_i64(chrome_utc_micros(t as int)),
        r matches Some(u) ==> u.micros == chrome_utc_micros(t as int),
{
    match t.checked_sub(CHROME_EPOCH_OFFSET_MICROS) {
        Some(m) => Some(UtcInstant { micros: m }),
        None => None,
    }
}

/// Converts a raw Firefox visit time (microseconds since 1970-01-01T00:00:00Z)
/// to a UTC instant. Total: the raw count already uses the Unix epoch.
pub fn firefox_to_utc(t: i64) -> (r: UtcInstant)
    ensures
        r.micros == firefox_utc_micros(t as int),
{
    UtcInstant { micros: t }
}

/// Converts a raw Safari visit time, already truncated to whole seconds since
/// 2001-01-01T00:00:00Z, to a UTC instant. Returns `None` exactly when the
/// shifted and scaled value does not fit the representation.
pub fn safari_to_utc(s: i64) -> (r: Option<UtcInstant>)
    ensures
        r is Some <==> fits_i64(safari_utc_micros(s as int)),
        r matches Some(u) ==> u.micros == safari_utc_micros(s as int),
{
    match s.checked_add(SAFARI_EPOCH_OFFSET_SECS) {
        Some(sec) => match sec.checked_mul(MICROS_PER_SEC) {
            Some(m) => Some(UtcInstant { micros: m }),
            None => None,
        },
        None => None,
    }
}

/// Larger raw Chrome timestamps map to strictly later instants.
pub proof fn lemma_chrome_monotonic(t1: int, t2: int)
    requires
        t1 < t2,
    ensures
        chrome_utc_micros(t1) < chrome_utc_micros(t2),
{
}

/// Larger raw Firefox timestamps map to strictly later instants.
pub proof fn lemma_firefox_monotonic(t1: int, t2: int)
    requires
        t1 < t2,
    ensures
        firefox_utc_micros(t1) < firefox_utc_micros(t2),
{
}

/// Larger whole-second Safari timestamps map to strictly later instants.
pub proof fn lemma_safari_monotonic(s1: int, s2: int)
    requires
        s1 < s2,
    ensures
        safari_utc_micros(s1) < safari_utc_micros(s2),
{
}

} // verus!
