//! Proleptic Gregorian calendar arithmetic: leap years, month lengths,
//! validity of a (year, month, day) triple, and the day of the week.

use vstd::prelude::*;

verus! {

/// A year is a leap year exactly when it is divisible by 4 but not by 100,
/// or divisible by 400.
pub open spec fn is_leap_year(y: int) -> bool {
    (y % 4 == 0 && y % 100 != 0) || y % 400 == 0
}

/// Number of days in the given month of the given year; 0 outside 1..=12.
pub open spec fn days_in_month(y: int, m: int) -> int {
    if m == 1 || m == 3 || m == 5 || m == 7 || m == 8 || m == 10 || m == 12 {
        31
    } else if m == 4 || m == 6 || m == 9 || m == 11 {
        30
    } else if m == 2 {
        if is_leap_year(y) { 29 } else { 28 }
    } else {
        0
    }
}

/// A (year, month, day) triple names a real Gregorian calendar date.
pub open spec fn is_valid_date(y: int, m: int, d: int) -> bool {
    &&& 1 <= m <= 12
    &&& 1 <= d <= days_in_month(y, m)
}

/// An (hour, minute, second) triple is a legal time of day.
pub open spec fn is_valid_time(h: int, mi: int, s: int) -> bool {
    &&& 0 <= h <= 23
    &&& 0 <= mi <= 59
    &&& 0 <= s <= 59
}

/// Number of leap years among the years 0, 1, ..., y - 1.
/// Year 0 itself is a leap year, hence the trailing `+ 1` for positive y.
pub open spec fn leap_years_before(y: int) -> int {
    if y <= 0 {
        0
    } else {
        (y - 1) / 4 - (y - 1) / 100 + (y - 1) / 400 + 1
    }
}

/// Number of days in all years 0, 1, ..., y - 1.
pub open spec fn days_before_year(y: int) -> int {
    365 * y + leap_years_before(y)
}

/// Number of days in the months 1, ..., m - 1 of year y.
pub open spec fn days_before_month(y: int, m: int) -> int {
    let feb: int = if is_leap_year(y) { 29 } else { 28 };
    if m <= 1 { 0 }
    else if m == 2 { 31 }
    else if m == 3 { 31 + feb }
    else if m == 4 { 62 + feb }
    else if m == 5 { 92 + feb }
    else if m == 6 { 123 + feb }
    else if m == 7 { 153 + feb }
    else if m == 8 { 184 + feb }
    else if m == 9 { 215 + feb }
    else if m == 10 { 245 + feb }
    else if m == 11 { 276 + feb }
    else { 306 + feb }
}

/// Days elapsed from 0000-01-01 (day number 0) to the given date.
pub open spec fn day_number(y: int, m: int, d: int) -> int {
    days_before_year(y) + days_before_month(y, m) + (d - 1)
}

/// Day of the week with 0 = Sunday, ..., 6 = Saturday.
/// Day number 0 (0000-01-01) falls on a Saturday, hence the offset 6.
pub open spec fn weekday_from_sunday0(y: int, m: int, d: int) -> int {
    (day_number(y, m, d) + 6) % 7
}

/// Whether (year, month, day) is a real Gregorian calendar date.
pub fn valid_date(y: u16, m: u8, d: u8) -> (r: bool)
    ensures
        r == is_valid_date(y as int, m as int, d as int),
{
    let leap: bool = (y % 4 == 0 && y % 100 != 0) || y % 400 == 0;
    let dim: u8 = if m == 1 || m == 3 || m == 5 || m == 7 || m == 8 || m == 10 || m == 12 {
        31
    } else if m == 4 || m == 6 || m == 9 || m == 11 {
        30
    } else if m == 2 {
        if leap { 29 } else { 28 }
    } else {
        0
    };
    1 <= m && m <= 12 && 1 <= d && d <= dim
}

/// Whether (hour, minute, second) is a legal time of day.
pub fn valid_time(h: u8, mi: u8, s: u8) -> (r: bool)
    ensures
        r == is_valid_time(h as int, mi as int, s as int),
{
    h <= 23 && mi <= 59 && s <= 59
}

/// Day of the week of the given date, 0 = Sunday, ..., 6 = Saturday.
pub fn weekday_from_sunday(y: u16, m: u8, d: u8) -> (r: u8)
    requires
        1 <= m <= 12,
        1 <= d,
    ensures
        r as int == weekday_from_sunday0(y as int, m as int, d as int),
        r <= 6,
{
    let yy: u64 = y as u64;
    let leaps: u64 = if yy == 0 {
        0
    } else {
        proof {
            assert((yy - 1) / 100 <= (yy - 1) / 4) by (nonlinear_arith)
                requires yy >= 1;
        }
        (yy - 1) / 4 - (yy - 1) / 100 + (yy - 1) / 400 + 1
    };
    let leap: bool = (y % 4 == 0 && y % 100 != 0) || y % 400 == 0;
    let feb: u64 = if leap { 29 } else { 28 };
    let before_month: u64 = if m <= 1 { 0 }
        else if m == 2 { 31 }
        else if m == 3 { 31 + feb }
        else if m == 4 { 62 + feb }
        else if m == 5 { 92 + feb }
        else if m == 6 { 123 + feb }
        else if m == 7 { 153 + feb }
        else if m == 8 { 184 + feb }
        else if m == 9 { 215 + feb }
        else if m == 10 { 245 + feb }
        else if m == 11 { 276 + feb }
        else { 306 + feb };
    let n: u64 = 365 * yy + leaps + before_month + (d as u64 - 1) + 6;
    (n % 7) as u8
}

} // verus!
