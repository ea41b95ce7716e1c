//! Billing periods: calendar months in UTC, and the time left until the next one.

use chrono::{Datelike, Timelike};
use vstd::prelude::*;

verus! {

/// Smallest year that chrono's date types represent.
pub const MIN_YEAR: i32 = -262143;

/// Largest year that chrono's date types represent.
pub const MAX_YEAR: i32 = 262142;

pub const SECONDS_PER_DAY: u64 = 86400;

pub open spec fn is_leap_year(y: int) -> bool {
    (y % 4 == 0 && y % 100 != 0) || y % 400 == 0
}

pub open spec fn days_in_month(y: int, m: int) -> int {
    if m == 2 {
        if is_leap_year(y) { 29 } else { 28 }
    } else if m == 4 || m == 6 || m == 9 || m == 11 {
        30
    } else {
        31
    }
}

pub open spec fn days_in_year(y: int) -> int {
    if is_leap_year(y) { 366 } else { 365 }
}

/// Days of year `y` that lie before the first day of month `m`.
pub open spec fn days_before_month(y: int, m: int) -> int
    decreases m,
{
    if m <= 1 {
        0
    } else {
        days_before_month(y, m - 1) + days_in_month(y, m - 1)
    }
}

/// Days from 1970-01-01 to the first day of year `y` (negative before 1970).
pub open spec fn days_before_year(y: int) -> int
    decreases (if y >= 1970 { y - 1970 } else { 1970 - y }),
{
    if y > 1970 {
        days_before_year(y - 1) + days_in_year(y - 1)
    } else if y < 1970 {
        days_before_year(y + 1) - days_in_year(y)
    } else {
        0
    }
}

/// Days from 1970-01-01 to the given calendar day.
pub open spec fn day_number(y: int, m: int, d: int) -> int {
    days_before_year(y) + days_before_month(y, m) + d - 1
}

/// A calendar month: the unit in which usage is counted and reset.
#[derive(Clone, Copy, Debug, PartialEq, Eq, Structural)]
pub struct Period {
    pub year: i32,
    pub month: u32,
}

impl Period {
    pub open spec fn wf(self) -> bool {
        &&& MIN_YEAR <= self.year <= MAX_YEAR
        &&& 1 <= self.month <= 12
    }
}

/// The period that follows `p`; December rolls over into January of the next year.
pub open spec fn next_period(p: Period) -> Period {
    if p.month == 12 {
        Period { year: (p.year + 1) as i32, month: 1 }
    } else {
        Period { year: p.year, month: (p.month + 1) as u32 }
    }
}

/// A UTC instant at the resolution of whole seconds, as calendar fields.
#[derive(Clone, Copy, Debug, PartialEq, Eq, Structural)]
pub struct CivilInstant {
    pub year: i32,
    pub month: u32,
    pub day: u32,
    pub hour: u32,
    pub minute: u32,
    pub second: u32,
}

impl CivilInstant {
    pub open spec fn wf(self) -> bool {
        &&& MIN_YEAR <= self.year <= MAX_YEAR
        &&& 1 <= self.month <= 12
        &&& 1 <= self.day <= days_in_month(self.year as int, self.month as int)
        &&& self.hour < 24
        &&& self.minute < 60
        &&& self.second < 60
    }

    /// Seconds since 1970-01-01T00:00:00Z.
    pub open spec fn epoch_seconds(self) -> int {
        day_number(self.year as int, self.month as int, self.day as int) * 86400 + self.hour * 3600
            + self.minute * 60 + self.second
    }

    pub open spec fn period(self) -> Period {
        Period { year: self.year, month: self.month }
    }

    /// The period this instant lies in.
    pub fn current_period(&self) -> (r: Period)
        ensures
            r == self.period(),
    {
        Period { year: self.year, month: self.month }
    }
}

/// The first instant of period `p`.
pub open spec fn period_start(p: Period) -> CivilInstant {
    CivilInstant { year: p.year, month: p.month, day: 1, hour: 0, minute: 0, second: 0 }
}

/// Seconds from `now` to the first instant of the month after the one `now` lies in.
pub open spec fn seconds_to_period_end(now: CivilInstant) -> int {
    period_start(next_period(now.period())).epoch_seconds() - now.epoch_seconds()
}

proof fn lemma_days_before_next_month(y: int, m: int)
    requires
        1 <= m < 12,
    ensures
        days_before_month(y, m + 1) == days_before_month(y, m) + days_in_month(y, m),
{
}

proof fn lemma_days_before_december(y: int)
    ensures
        days_before_month(y, 12) + 31 == days_in_year(y),
{
    reveal_with_fuel(days_before_month, 13);
}

proof fn lemma_days_before_next_year(y: int)
    ensures
        days_before_year(y + 1) == days_before_year(y) + days_in_year(y),
    decreases (if y >= 1970 { y - 1970 } else { 1970 - y }),
{
    if y >= 1970 {
        assert(days_before_year(y + 1) == days_before_year(y) + days_in_year(y));
    } else {
        assert(days_before_year(y) == days_before_year(y + 1) - days_in_year(y));
    }
}

/// Days from day `d` of period `p` (inclusive) to the start of the next period.
proof fn lemma_days_to_next_period(p: Period, d: int)
    requires
        p.wf(),
    ensures
        day_number(next_period(p).year as int, next_period(p).month as int, 1) - day_number(
            p.year as int,
            p.month as int,
            d,
        ) == days_in_month(p.year as int, p.month as int) - d + 1,
{
    if p.month == 12 {
        lemma_days_before_december(p.year as int);
        lemma_days_before_next_year(p.year as int);
        assert(days_before_month(p.year as int + 1, 1) == 0);
    } else {
        lemma_days_before_next_month(p.year as int, p.month as int);
    }
}

#[verifier::rlimit(50)]
proof fn lemma_leap_year_exec(y: i32)
    ensures
        ((y % 4 == 0 && y % 100 != 0) || y % 400 == 0) == is_leap_year(y as int),
{
    assert((y % 4 == 0) == ((y as int) % 4 == 0)) by (nonlinear_arith);
    assert((y % 100 == 0) == ((y as int) % 100 == 0)) by (nonlinear_arith);
    assert((y % 400 == 0) == ((y as int) % 400 == 0)) by (nonlinear_arith);
}

/// Whether `y` is a leap year of the Gregorian calendar.
pub fn leap_year(y: i32) -> (r: bool)
    ensures
        r == is_leap_year(y as int),
{
    proof {
        lemma_leap_year_exec(y);
    }
    (y % 4 == 0 && y % 100 != 0) || y % 400 == 0
}

/// A counter written in December lives until the first instant of January of
/// the following year, never into a thirteenth month.
pub proof fn lemma_december_rolls_into_january(now: CivilInstant)
    requires
        now.wf(),
        now.month == 12,
    ensures
        next_period(now.period()) == (Period { year: (now.year + 1) as i32, month: 1 }),
        seconds_to_period_end(now) == (CivilInstant { year: (now.year + 1) as i32, month: 1, day: 1, hour: 0, minute: 0, second: 0 }).epoch_seconds() - now.epoch_seconds(),
        seconds_to_period_end(now) == (31 - now.day) * 86400 + 86400 - (now.hour * 3600 + now.minute * 60 + now.second),
{
    lemma_days_to_next_period(now.period(), now.day as int);
}

/// Number of days in month `m` of year `y`.
pub fn month_length(y: i32, m: u32) -> (r: u32)
    requires
        1 <= m <= 12,
    ensures
        r == days_in_month(y as int, m as int),
{
    if m == 2 {
        if leap_year(y) {
            29
        } else {
            28
        }
    } else if m == 4 || m == 6 || m == 9 || m == 11 {
        30
    } else {
        31
    }
}

/// The period that follows `p`.
pub fn following_period(p: &Period) -> (r: Period)
    requires
        p.wf(),
    ensures
        r == next_period(*p),
{
    if p.month == 12 {
        Period { year: p.year + 1, month: 1 }
    } else {
        Period { year: p.year, month: p.month + 1 }
    }
}

/// Seconds from `now` until the first instant of the following calendar month:
/// the lifetime to give a usage counter written at `now`.
pub fn seconds_until_next_period(now: &CivilInstant) -> (r: u64)
    requires
        now.wf(),
    ensures
        r as int == seconds_to_period_end(*now),
        r as int == (days_in_month(now.year as int, now.month as int) - now.day) * 86400 + 86400 - (now.hour * 3600
            + now.minute * 60 + now.second),
        0 < r <= 31 * 86400,
{
    let dim = month_length(now.year, now.month);
    let days_after_today = (dim - now.day) as u64;
    let elapsed_today = now.hour as u64 * 3600 + now.minute as u64 * 60 + now.second as u64;
    proof {
        lemma_days_to_next_period(now.period(), now.day as int);
    }
    days_after_today * SECONDS_PER_DAY + (SECONDS_PER_DAY - elapsed_today)
}

/// Relies on chrono::Utc::now and the Datelike / Timelike accessors: the calendar
/// fields of the current UTC time, each within chrono's documented range.
#[verifier::external_body]
fn current_instant() -> (r: CivilInstant)
    ensures
        r.wf(),
{
    let now = chrono::Utc::now();
    CivilInstant {
        year: now.year(),
        month: now.month(),
        day: now.day(),
        hour: now.hour(),
        minute: now.minute(),
        second: now.second(),
    }
}

/// The current UTC time.
pub fn now_utc() -> (r: CivilInstant)
    ensures
        r.wf(),
{
    current_instant()
}

/// Seconds from the current time until the start of the next calendar month.
pub fn calculate_seconds_until_month_end() -> (r: u64)
    ensures
        exists|now: CivilInstant| now.wf() && r as int == seconds_to_period_end(now),
        0 < r <= 31 * 86400,
{
    let now = current_instant();
    seconds_until_next_period(&now)
}

} // verus!
