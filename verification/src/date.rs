//! The calendar date model: a plain year/month/day triple in the proleptic
//! Gregorian calendar, restricted to the years 1 through 9999 so that every
//! date has a four-digit `YYYY-MM-DD` form.

use vstd::prelude::*;

verus! {

/// One calendar date, as shown to the user.
#[derive(Clone, Copy, PartialEq, Eq, Structural, Debug)]
pub struct Date {
    pub year: u16,
    pub month: u8,
    pub day: u8,
}

/// Gregorian leap-year rule.
pub open spec fn is_leap_year(y: int) -> bool {
    (y % 4 == 0 && y % 100 != 0) || y % 400 == 0
}

/// Number of days in month `m` of year `y`, for `1 <= m <= 12`.
pub open spec fn days_in_month_spec(y: int, m: int) -> int {
    if m == 2 {
        if is_leap_year(y) {
            29
        } else {
            28
        }
    } else if m == 4 || m == 6 || m == 9 || m == 11 {
        30
    } else {
        31
    }
}

/// A well-formed date: each field in range and the day within its month.
pub open spec fn valid_parts(y: int, m: int, d: int) -> bool {
    &&& 1 <= y <= 9999
    &&& 1 <= m <= 12
    &&& 1 <= d <= days_in_month_spec(y, m)
}

pub open spec fn valid_date(d: Date) -> bool {
    valid_parts(d.year as int, d.month as int, d.day as int)
}

/// The last date the model can hold.
pub open spec fn is_last_date(d: Date) -> bool {
    d.year == 9999 && d.month == 12 && d.day == 31
}

/// The first date the model can hold.
pub open spec fn is_first_date(d: Date) -> bool {
    d.year == 1 && d.month == 1 && d.day == 1
}

pub fn leap_year(y: u16) -> (r: bool)
    ensures
        r == is_leap_year(y as int),
{
    (y % 4 == 0 && y % 100 != 0) || y % 400 == 0
}

pub fn days_in_month(y: u16, m: u8) -> (r: u8)
    requires
        1 <= m <= 12,
    ensures
        r as int == days_in_month_spec(y as int, m as int),
        28 <= r <= 31,
{
    if m == 2 {
        if leap_year(y) {
            29
        } else {
            28
        }
    } else if m == 4 || m == 6 || m == 9 || m == 11 {
        30
    } else {
        31
    }
}

/// The date one day after `d`.
pub open spec fn next_date_spec(d: Date) -> Date {
    if d.day < days_in_month_spec(d.year as int, d.month as int) {
        Date { year: d.year, month: d.month, day: (d.day + 1) as u8 }
    } else if d.month < 12 {
        Date { year: d.year, month: (d.month + 1) as u8, day: 1 }
    } else {
        Date { year: (d.year + 1) as u16, month: 1, day: 1 }
    }
}

/// The date one day before `d`.
pub open spec fn prev_date_spec(d: Date) -> Date {
    if d.day > 1 {
        Date { year: d.year, month: d.month, day: (d.day - 1) as u8 }
    } else if d.month > 1 {
        Date {
            year: d.year,
            month: (d.month - 1) as u8,
            day: days_in_month_spec(d.year as int, d.month as int - 1) as u8,
        }
    } else {
        Date { year: (d.year - 1) as u16, month: 12, day: 31 }
    }
}

pub fn next_day(d: &Date) -> (r: Date)
    requires
        valid_date(*d),
        !is_last_date(*d),
    ensures
        r == next_date_spec(*d),
        valid_date(r),
{
    if d.day < days_in_month(d.year, d.month) {
        Date { year: d.year, month: d.month, day: d.day + 1 }
    } else if d.month < 12 {
        Date { year: d.year, month: d.month + 1, day: 1 }
    } else {
        Date { year: d.year + 1, month: 1, day: 1 }
    }
}

pub fn prev_day(d: &Date) -> (r: Date)
    requires
        valid_date(*d),
        !is_first_date(*d),
    ensures
        r == prev_date_spec(*d),
        valid_date(r),
{
    if d.day > 1 {
        Date { year: d.year, month: d.month, day: d.day - 1 }
    } else if d.month > 1 {
        Date { year: d.year, month: d.month - 1, day: days_in_month(d.year, d.month - 1) }
    } else {
        Date { year: d.year - 1, month: 12, day: 31 }
    }
}

pub fn is_valid_date(d: &Date) -> (r: bool)
    ensures
        r == valid_date(*d),
{
    1 <= d.year && d.year <= 9999 && 1 <= d.month && d.month <= 12 && 1 <= d.day && d.day
        <= days_in_month(d.year, d.month)
}

pub fn last_date(d: &Date) -> (r: bool)
    ensures
        r == is_last_date(*d),
{
    d.year == 9999 && d.month == 12 && d.day == 31
}

pub fn first_date(d: &Date) -> (r: bool)
    ensures
        r == is_first_date(*d),
{
    d.year == 1 && d.month == 1 && d.day == 1
}

/// Days of year `y` that precede month `m`, for `1 <= m <= 12`.
pub open spec fn days_before_month_spec(y: int, m: int) -> int {
    (if m == 1 {
        0int
    } else if m == 2 {
        31int
    } else if m == 3 {
        59int
    } else if m == 4 {
        90int
    } else if m == 5 {
        120int
    } else if m == 6 {
        151int
    } else if m == 7 {
        181int
    } else if m == 8 {
        212int
    } else if m == 9 {
        243int
    } else if m == 10 {
        273int
    } else if m == 11 {
        304int
    } else {
        334int
    }) + if m > 2 && is_leap_year(y) {
        1int
    } else {
        0int
    }
}

/// The ordinal of `d` counting from the first representable date:
/// day number 1 is the first of January of year 1.
pub open spec fn day_number_spec(d: Date) -> int {
    let y = d.year as int - 1;
    365 * y + y / 4 - y / 100 + y / 400 + days_before_month_spec(d.year as int, d.month as int)
        + d.day as int
}

/// The weekday of `d`, numbered from Sunday: 0 is Sunday, 1 is Monday, and
/// so on up to 6 for Saturday.
pub open spec fn weekday_spec(d: Date) -> int {
    day_number_spec(d) % 7
}

pub fn days_before_month(y: u16, m: u8) -> (r: u16)
    requires
        1 <= m <= 12,
    ensures
        r as int == days_before_month_spec(y as int, m as int),
        r <= 335,
{
    let base: u16 = match m {
        1 => 0,
        2 => 31,
        3 => 59,
        4 => 90,
        5 => 120,
        6 => 151,
        7 => 181,
        8 => 212,
        9 => 243,
        10 => 273,
        11 => 304,
        _ => 334,
    };
    if m > 2 && leap_year(y) {
        base + 1
    } else {
        base
    }
}

pub fn weekday_from_sunday(d: &Date) -> (w: u8)
    requires
        valid_date(*d),
    ensures
        w as int == weekday_spec(*d),
        w < 7,
{
    let y: u32 = d.year as u32 - 1;
    assert(y / 100 <= y / 4) by {
        vstd::arithmetic::div_mod::lemma_div_is_ordered_by_denominator(y as int, 4, 100);
    };
    let n: u32 = 365 * y + y / 4 - y / 100 + y / 400 + days_before_month(d.year, d.month) as u32
        + d.day as u32;
    (n % 7) as u8
}

/// Relies on std::time::SystemTime::now read against the Unix epoch,
/// chrono::DateTime::from_timestamp (checked: None outside chrono's range),
/// DateTime::with_timezone with chrono::Local, and chrono's Datelike
/// accessors year, month and day, which do not panic on a DateTime: a
/// chrono date is a valid Gregorian calendar date, so month is 1 to 12 and
/// day is 1 up to the length of that month. The year is chrono's calendar
/// year and may lie outside 1 to 9999. A clock before the epoch or outside
/// chrono's range yields the epoch date instead. The result depends on the
/// clock, so nothing more is promised of it.
#[verifier::external_body]
fn now_local_ymd() -> (r: (i32, u8, u8))
    ensures
        1 <= r.1 <= 12,
        1 <= r.2 <= days_in_month_spec(r.0 as int, r.1 as int),
{
    let secs: u64 = match std::time::SystemTime::now().duration_since(std::time::UNIX_EPOCH) {
        Ok(since) => since.as_secs(),
        Err(_) => return (1970, 1, 1),
    };
    let utc = match chrono::DateTime::from_timestamp(i64::try_from(secs).unwrap_or(i64::MAX), 0) {
        Some(t) => t,
        None => return (1970, 1, 1),
    };
    let now = utc.with_timezone(&chrono::Local);
    (chrono::Datelike::year(&now), chrono::Datelike::month(&now) as u8, chrono::Datelike::day(
        &now,
    ) as u8)
}

/// Interprets a year/month/day triple read from the clock as a [`Date`],
/// clamping years outside the representable range to the nearest end.
pub fn clamp_clock_date(y: i32, m: u8, d: u8) -> (r: Date)
    requires
        1 <= m <= 12,
        1 <= d <= days_in_month_spec(y as int, m as int),
    ensures
        valid_date(r),
        1 <= y <= 9999 ==> r == (Date { year: y as u16, month: m, day: d }),
        y < 1 ==> is_first_date(r),
        y > 9999 ==> is_last_date(r),
{
    if y < 1 {
        Date { year: 1, month: 1, day: 1 }
    } else if y > 9999 {
        Date { year: 9999, month: 12, day: 31 }
    } else {
        Date { year: y as u16, month: m, day: d }
    }
}

/// The current local date, clamped to the representable range.
pub fn today() -> (r: Date)
    ensures
        valid_date(r),
{
    let (y, m, d) = now_local_ymd();
    clamp_clock_date(y, m, d)
}

/// Advancing a day and then going back a day returns to the starting date,
/// for every valid date that has a successor.
pub proof fn lemma_prev_of_next(d: Date)
    requires
        valid_date(d),
        !is_last_date(d),
    ensures
        valid_date(next_date_spec(d)),
        prev_date_spec(next_date_spec(d)) == d,
{
}

/// Going back a day and then advancing a day returns to the starting date,
/// for every valid date that has a predecessor.
pub proof fn lemma_next_of_prev(d: Date)
    requires
        valid_date(d),
        !is_first_date(d),
    ensures
        valid_date(prev_date_spec(d)),
        next_date_spec(prev_date_spec(d)) == d,
{
}

} // verus!
