//! Calendar dates of the proleptic Gregorian calendar and their Unix timestamps.
use chrono::{NaiveDate, TimeZone, Utc};
use vstd::prelude::*;

verus! {

/// First year that `chrono::NaiveDate` represents.
pub const MIN_YEAR: i32 = -262143;

/// Last year that `chrono::NaiveDate` represents.
pub const MAX_YEAR: i32 = 262142;

pub open spec fn is_leap_year(y: int) -> bool {
    (y % 4 == 0 && y % 100 != 0) || y % 400 == 0
}

pub open spec fn days_in_month(y: int, m: int) -> int {
    if m == 2 {
        if is_leap_year(y) { 29 } else { 28 }
    } else if m == 4 || m == 6 || m == 9 || m == 11 {
        30
    } else {
        31
    }
}

/// A day that exists in the calendar and that `chrono::NaiveDate` can hold.
pub open spec fn is_valid_date(y: int, m: int, d: int) -> bool {
    &&& MIN_YEAR <= y <= MAX_YEAR
    &&& 1 <= m <= 12
    &&& 1 <= d <= days_in_month(y, m)
}

/// Days from 0001-01-01 to the first of January of year `y`.
pub open spec fn days_before_year(y: int) -> int {
    365 * (y - 1) + (y - 1) / 4 - (y - 1) / 100 + (y - 1) / 400
}

/// Days from the first of January of year `y` to the first day of month `m`.
pub open spec fn days_before_month(y: int, m: int) -> int
    decreases m,
{
    if m <= 1 {
        0
    } else {
        days_before_month(y, m - 1) + days_in_month(y, m - 1)
    }
}

/// Days from 1970-01-01 to the given day (negative before it).
pub open spec fn days_since_epoch(y: int, m: int, d: int) -> int {
    days_before_year(y) + days_before_month(y, m) + (d - 1) - days_before_year(1970)
}

/// Unix timestamp of midnight UTC at the start of the given day.
pub open spec fn midnight_timestamp(y: int, m: int, d: int) -> int {
    days_since_epoch(y, m, d) * 86400
}

/// The day after the given one.
pub open spec fn next_day(y: int, m: int, d: int) -> (int, int, int) {
    if d < days_in_month(y, m) {
        (y, m, d + 1)
    } else if m < 12 {
        (y, m + 1, 1)
    } else {
        (y + 1, 1, 1)
    }
}

proof fn lemma_div_step(y: int, k: int)
    requires
        k == 4 || k == 100 || k == 400,
    ensures
        y / k - (y - 1) / k == if y % k == 0 { 1int } else { 0int },
{
}

proof fn lemma_year_length(y: int)
    ensures
        days_before_year(y + 1) - days_before_year(y) == if is_leap_year(y) { 366int } else { 365int },
{
    lemma_div_step(y, 4);
    lemma_div_step(y, 100);
    lemma_div_step(y, 400);
    if y % 400 == 0 {
        assert(y % 100 == 0);
        assert(y % 4 == 0);
    }
    if y % 100 == 0 {
        assert(y % 4 == 0);
    }
}

/// Midnight UTC of 1970-01-01 is timestamp zero.
pub proof fn lemma_unix_epoch_is_zero()
    ensures
        midnight_timestamp(1970, 1, 1) == 0,
{
}

/// Each day starts 86400 seconds after the day before it.
pub proof fn lemma_next_day_timestamp(y: int, m: int, d: int)
    requires
        1 <= m <= 12,
        1 <= d <= days_in_month(y, m),
    ensures
        midnight_timestamp(next_day(y, m, d).0, next_day(y, m, d).1, next_day(y, m, d).2)
            == midnight_timestamp(y, m, d) + 86400,
{
    if d < days_in_month(y, m) {
    } else if m < 12 {
    } else {
        reveal_with_fuel(days_before_month, 12);
        lemma_year_length(y);
    }
}

/// Relies on chrono's `NaiveDate::from_ymd_opt`, which returns `None` exactly for
/// an invalid month or day of the month, or a year outside `MIN_YEAR..=MAX_YEAR`.
#[verifier::external_body]
fn chrono_accepts_date(year: i32, month: u32, day: u32) -> (r: bool)
    ensures
        r == is_valid_date(year as int, month as int, day as int),
{
    NaiveDate::from_ymd_opt(year, month, day).is_some()
}

/// Relies on chrono's `NaiveDate::from_ymd_opt`, `NaiveDate::and_hms_opt`,
/// `TimeZone::from_utc_datetime` on `Utc` and `DateTime::timestamp`: the number of
/// non-leap seconds from 1970-01-01 00:00:00 UTC to midnight UTC of that day.
#[verifier::external_body]
fn chrono_midnight_timestamp(year: i32, month: u32, day: u32) -> (r: i64)
    requires
        is_valid_date(year as int, month as int, day as int),
    ensures
        r as int == midnight_timestamp(year as int, month as int, day as int),
{
    let date = NaiveDate::from_ymd_opt(year, month, day).unwrap();
    let midnight = date.and_hms_opt(0, 0, 0).unwrap();
    Utc.from_utc_datetime(&midnight).timestamp()
}

/// A day of the calendar, with no time of day and no time zone.
#[derive(Clone, Copy, Debug, PartialEq, Eq)]
pub struct CalendarDate {
    year: i32,
    month: u32,
    day: u32,
}

impl CalendarDate {
    #[verifier::type_invariant]
    spec fn inv(self) -> bool {
        is_valid_date(self.year as int, self.month as int, self.day as int)
    }

    /// Year, month and day.
    pub closed spec fn view(self) -> (int, int, int) {
        (self.year as int, self.month as int, self.day as int)
    }

    /// Unix timestamp of midnight UTC at the start of this day.
    pub open spec fn timestamp_spec(self) -> int {
        midnight_timestamp(self@.0, self@.1, self@.2)
    }

    /// The date with that year, month and day, or `None` where no such day exists.
    pub fn from_ymd_opt(year: i32, month: u32, day: u32) -> (r: Option<CalendarDate>)
        ensures
            r is Some <==> is_valid_date(year as int, month as int, day as int),
            r matches Some(d) ==> d@ == (year as int, month as int, day as int),
    {
        if chrono_accepts_date(year, month, day) {
            Some(CalendarDate { year, month, day })
        } else {
            None
        }
    }

    pub fn year(&self) -> (r: i32)
        ensures
            r as int == self@.0,
    {
        self.year
    }

    pub fn month(&self) -> (r: u32)
        ensures
            r as int == self@.1,
    {
        self.month
    }

    pub fn day(&self) -> (r: u32)
        ensures
            r as int == self@.2,
    {
        self.day
    }

    /// Unix timestamp of midnight UTC at the start of this day.
    pub fn timestamp(&self) -> (r: i64)
        ensures
            r as int == self.timestamp_spec(),
    {
        proof {
            use_type_invariant(self);
        }
        chrono_midnight_timestamp(self.year, self.month, self.day)
    }
}

} // verus!
