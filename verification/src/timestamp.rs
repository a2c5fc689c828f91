//! UTC calendar arithmetic and the timestamp text used in file names.
use vstd::prelude::*;
use crate::text::{push_char, push_zero_padded, zero_padded};

verus! {

/// Gregorian leap-year rule.
pub open spec fn is_leap_year(year: int) -> bool {
    (year % 4 == 0 && year % 100 != 0) || year % 400 == 0
}

/// Number of days in `year`.
pub open spec fn year_length(year: int) -> int {
    if is_leap_year(year) { 366 } else { 365 }
}

/// Leap years among the years `1 ..= year - 1`.
pub open spec fn leap_years_before(year: int) -> int {
    (year - 1) / 4 - (year - 1) / 100 + (year - 1) / 400
}

/// Days from 1970-01-01 to January 1st of `year`.
pub open spec fn days_to_year(year: int) -> int {
    365 * (year - 1970) + leap_years_before(year) - leap_years_before(1970)
}

/// Number of days in month `month` (1-based) of `year`.
pub open spec fn month_length(year: int, month: int) -> int {
    if month == 2 {
        if is_leap_year(year) { 29 } else { 28 }
    } else if month == 4 || month == 6 || month == 9 || month == 11 {
        30
    } else {
        31
    }
}

/// Days from January 1st of `year` to the first day of `month`.
pub open spec fn days_before_month(year: int, month: int) -> int {
    let common: int = if month <= 1 { 0 }
        else if month == 2 { 31 }
        else if month == 3 { 59 }
        else if month == 4 { 90 }
        else if month == 5 { 120 }
        else if month == 6 { 151 }
        else if month == 7 { 181 }
        else if month == 8 { 212 }
        else if month == 9 { 243 }
        else if month == 10 { 273 }
        else if month == 11 { 304 }
        else { 334 };
    if month > 2 && is_leap_year(year) { common + 1 } else { common }
}

/// `(year, month, day)` is the calendar date that lies `days` days after 1970-01-01.
pub open spec fn is_civil_date(days: int, year: int, month: int, day: int) -> bool {
    &&& year >= 1970
    &&& 1 <= month <= 12
    &&& 1 <= day <= month_length(year, month)
    &&& days == days_to_year(year) + days_before_month(year, month) + day - 1
}

/// The `YYYY-MM-DD_HH-MM-SS` text of a date and a time of day.
pub open spec fn timestamp_text(year: nat, month: nat, day: nat, hour: nat, minute: nat, second: nat) -> Seq<char> {
    zero_padded(year, 4) + seq!['-'] + zero_padded(month, 2) + seq!['-'] + zero_padded(day, 2)
        + seq!['_'] + zero_padded(hour, 2) + seq!['-'] + zero_padded(minute, 2) + seq!['-']
        + zero_padded(second, 2)
}

/// The UTC timestamp text of `unix_seconds` seconds after the epoch.
pub open spec fn utc_timestamp_text_of(unix_seconds: nat, year: nat, month: nat, day: nat) -> Seq<char> {
    let second_of_day = unix_seconds % 86400;
    timestamp_text(year, month, day, second_of_day / 3600, (second_of_day % 3600) / 60, second_of_day % 60)
}

/// The calendar date `days` days after 1970-01-01.
pub open spec fn civil_date_of(days: int) -> (int, int, int) {
    choose|year: int, month: int, day: int| is_civil_date(days, year, month, day)
}

/// The UTC `YYYY-MM-DD_HH-MM-SS` timestamp text of `unix_seconds` seconds after the epoch.
pub open spec fn utc_timestamp_text(unix_seconds: nat) -> Seq<char> {
    let (year, month, day) = civil_date_of(unix_seconds as int / 86400);
    utc_timestamp_text_of(unix_seconds, year as nat, month as nat, day as nat)
}

proof fn lemma_year_step(year: int)
    requires
        year >= 1,
    ensures
        days_to_year(year + 1) == days_to_year(year) + year_length(year),
{
    assert(year / 4 == (year - 1) / 4 + (if year % 4 == 0 { 1int } else { 0 }));
    assert(year / 100 == (year - 1) / 100 + (if year % 100 == 0 { 1int } else { 0 }));
    assert(year / 400 == (year - 1) / 400 + (if year % 400 == 0 { 1int } else { 0 }));
}

proof fn lemma_cycle_start(cycles: int)
    requires
        cycles >= 0,
    ensures
        days_to_year(1970 + 400 * cycles) == 146097 * cycles,
{
    assert((1969 + 400 * cycles) / 4 == 492 + 100 * cycles);
    assert((1969 + 400 * cycles) / 100 == 19 + 4 * cycles);
    assert((1969 + 400 * cycles) / 400 == 4 + cycles);
}

proof fn lemma_year_length_bounds(year: int)
    ensures
        365 <= year_length(year) <= 366,
        days_before_month(year, 12) + 31 == year_length(year),
{
}

proof fn lemma_days_to_year_monotone(earlier: int, later: int)
    requires
        1 <= earlier <= later,
    ensures
        days_to_year(earlier) + 365 * (later - earlier) <= days_to_year(later),
{
    assert((later - 1) / 4 >= (earlier - 1) / 4);
    assert((later - 1) / 400 >= (earlier - 1) / 400);
    assert((later - 1) / 4 - (later - 1) / 100 >= (earlier - 1) / 4 - (earlier - 1) / 100) by {
        let a = earlier - 1;
        let b = later - 1;
        assert(b / 4 - a / 4 >= (b / 100 - a / 100) * 25 - 25 + 1 || b / 100 == a / 100);
    }
}

/// Each day since 1970-01-01 has exactly one calendar date: two dates that name the
/// same day are the same date.
pub proof fn civil_date_is_unique(days: int, y1: int, m1: int, d1: int, y2: int, m2: int, d2: int)
    requires
        is_civil_date(days, y1, m1, d1),
        is_civil_date(days, y2, m2, d2),
    ensures
        y1 == y2 && m1 == m2 && d1 == d2,
{
    lemma_year_length_bounds(y1);
    lemma_year_length_bounds(y2);
    if y1 < y2 {
        lemma_year_step(y1);
        lemma_days_to_year_monotone(y1 + 1, y2);
        assert(false);
    } else if y2 < y1 {
        lemma_year_step(y2);
        lemma_days_to_year_monotone(y2 + 1, y1);
        assert(false);
    }
}

/// Splits a day count since 1970-01-01 into its calendar date.
pub fn civil_from_days(days: u64) -> (date: (u64, u64, u64))
    ensures
        is_civil_date(days as int, date.0 as int, date.1 as int, date.2 as int),
{
    let cycles = days / 146097;
    let mut rest = days % 146097;
    let mut year: u64 = 1970 + 400 * cycles;
    proof {
        lemma_cycle_start(cycles as int);
    }
    while rest >= 365 && (rest >= 366 || !(year % 4 == 0 && year % 100 != 0 || year % 400 == 0))
        invariant
            year >= 1970,
            year <= 1970 + 400 * cycles + 400,
            cycles == days / 146097,
            days_to_year(year as int) + rest == days,
            rest < 146097 - (days_to_year(year as int) - days_to_year(1970 + 400 * cycles)),
        decreases rest,
    {
        let length: u64 = if year % 4 == 0 && year % 100 != 0 || year % 400 == 0 { 366 } else { 365 };
        proof {
            lemma_year_step(year as int);
            lemma_year_length_bounds(year as int);
        }
        rest = rest - length;
        year = year + 1;
    }
    proof {
        lemma_year_length_bounds(year as int);
    }
    let leap = year % 4 == 0 && year % 100 != 0 || year % 400 == 0;
    let mut month: u64 = 1;
    let ghost year_rest = rest;
    loop
        invariant_except_break
            1 <= month <= 12,
            days_before_month(year as int, month as int) + rest == year_rest,
            year_rest < year_length(year as int),
            leap == is_leap_year(year as int),
        ensures
            1 <= month <= 12,
            days_before_month(year as int, month as int) + rest == year_rest,
            rest < month_length(year as int, month as int),
        decreases 12 - month,
    {
        let length: u64 = if month == 2 {
            if leap { 29 } else { 28 }
        } else if month == 4 || month == 6 || month == 9 || month == 11 {
            30
        } else {
            31
        };
        if rest < length {
            break;
        }
        rest = rest - length;
        month = month + 1;
    }
    (year, month, rest + 1)
}

/// Formats seconds since the Unix epoch as a UTC `YYYY-MM-DD_HH-MM-SS` timestamp.
pub fn format_utc_timestamp(unix_seconds: u64) -> (text: String)
    ensures
        text@ == utc_timestamp_text(unix_seconds as nat),
{
    let (year, month, day) = civil_from_days(unix_seconds / 86400);
    proof {
        let days = unix_seconds as int / 86400;
        assert(is_civil_date(days, year as int, month as int, day as int));
        let (y, m, d) = civil_date_of(days);
        civil_date_is_unique(days, year as int, month as int, day as int, y, m, d);
    }
    let second_of_day = unix_seconds % 86400;
    let mut text = String::new();
    push_zero_padded(&mut text, year, 4);
    push_char(&mut text, '-');
    push_zero_padded(&mut text, month, 2);
    push_char(&mut text, '-');
    push_zero_padded(&mut text, day, 2);
    push_char(&mut text, '_');
    push_zero_padded(&mut text, second_of_day / 3600, 2);
    push_char(&mut text, '-');
    push_zero_padded(&mut text, (second_of_day % 3600) / 60, 2);
    push_char(&mut text, '-');
    push_zero_padded(&mut text, second_of_day % 60, 2);
    assert(text@ == utc_timestamp_text_of(unix_seconds as nat, year as nat, month as nat, day as nat));
    text
}

} // verus!
