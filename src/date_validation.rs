use vstd::prelude::*;
use vstd::string::*;

use crate::errors::{is_invalid_input, ApiError};

verus! {

/// A proleptic Gregorian calendar date, as read from `YYYY-MM-DD`.
#[derive(Clone, Copy, Debug, PartialEq, Eq)]
pub struct CalendarDate {
    pub year: u32,
    pub month: u32,
    pub day: u32,
}

pub open spec fn is_leap_year(y: int) -> bool {
    y % 4 == 0 && (y % 100 != 0 || y % 400 == 0)
}

pub open spec fn days_in_month(y: int, m: int) -> int {
    if m == 2 {
        if is_leap_year(y) { 29 } else { 28 }
    } else if m == 4 || m == 6 || m == 9 || m == 11 {
        30
    } else {
        31
    }
}

/// The day `d` of month `m` of year `y` exists in the calendar.
pub open spec fn is_calendar_date(y: int, m: int, d: int) -> bool {
    1 <= m <= 12 && 1 <= d <= days_in_month(y, m)
}

pub open spec fn is_digit(c: char) -> bool {
    '0' <= c <= '9'
}

pub open spec fn digit_at(s: Seq<char>, i: int) -> int {
    s[i] as int - '0' as int
}

/// `s` has the shape `DDDD-DD-DD`, each `D` an ASCII digit.
pub open spec fn has_date_shape(s: Seq<char>) -> bool {
    &&& s.len() == 10
    &&& s[4] == '-'
    &&& s[7] == '-'
    &&& forall|i: int| 0 <= i < 10 && i != 4 && i != 7 ==> is_digit(#[trigger] s[i])
}

pub open spec fn year_field(s: Seq<char>) -> int {
    digit_at(s, 0) * 1000 + digit_at(s, 1) * 100 + digit_at(s, 2) * 10 + digit_at(s, 3)
}

pub open spec fn month_field(s: Seq<char>) -> int {
    digit_at(s, 5) * 10 + digit_at(s, 6)
}

pub open spec fn day_field(s: Seq<char>) -> int {
    digit_at(s, 8) * 10 + digit_at(s, 9)
}

/// The date that `s` spells strictly as `YYYY-MM-DD`, if it spells one.
pub open spec fn spec_parse_date(s: Seq<char>) -> Option<CalendarDate> {
    if has_date_shape(s) && is_calendar_date(year_field(s), month_field(s), day_field(s)) {
        Some(
            CalendarDate {
                year: year_field(s) as u32,
                month: month_field(s) as u32,
                day: day_field(s) as u32,
            },
        )
    } else {
        None
    }
}

/// Chronological order on dates.
pub open spec fn date_le(a: CalendarDate, b: CalendarDate) -> bool {
    a.year < b.year || (a.year == b.year && (a.month < b.month || (a.month == b.month && a.day
        <= b.day)))
}

/// Both strings spell dates and the first is not after the second.
pub open spec fn is_valid_range(start: Seq<char>, end: Seq<char>) -> bool {
    &&& spec_parse_date(start) is Some
    &&& spec_parse_date(end) is Some
    &&& date_le(spec_parse_date(start)->Some_0, spec_parse_date(end)->Some_0)
}

/// Relies on chrono's `NaiveDate::from_ymd_opt`, which returns `None` exactly
/// when the month or day is out of range or the day does not exist in that
/// year; every year from 0 to 9999 lies within its range.
#[verifier::external_body]
fn calendar_day_exists(year: u32, month: u32, day: u32) -> (r: bool)
    requires
        year <= 9999,
    ensures
        r == is_calendar_date(year as int, month as int, day as int),
{
    chrono::NaiveDate::from_ymd_opt(year as i32, month, day).is_some()
}

fn digit_value(s: &str, i: usize) -> (r: Option<u32>)
    requires
        i < s@.len(),
    ensures
        r is Some <==> is_digit(s@[i as int]),
        r is Some ==> r->Some_0 as int == digit_at(s@, i as int) && r->Some_0 <= 9,
{
    let c = s.get_char(i);
    if '0' <= c && c <= '9' {
        Some((c as u32) - ('0' as u32))
    } else {
        None
    }
}

/// Reads `s` strictly as `YYYY-MM-DD`: four, two and two ASCII digits
/// separated by `-`, naming a day that exists.
pub fn parse_date(s: &str) -> (r: Option<CalendarDate>)
    ensures
        r == spec_parse_date(s@),
{
    let n = s.unicode_len();
    if n != 10 {
        return None;
    }
    if s.get_char(4) != '-' || s.get_char(7) != '-' {
        return None;
    }
    let mut digits: Vec<u32> = Vec::new();
    let mut i: usize = 0;
    while i < 10
        invariant
            n == 10,
            s@.len() == 10,
            0 <= i <= 10,
            digits@.len() == i,
            forall|j: int|
                0 <= j < i ==> is_digit(s@[j]) || j == 4 || j == 7,
            forall|j: int|
                0 <= j < i && j != 4 && j != 7 ==> #[trigger] digits@[j] as int == digit_at(s@, j)
                    && digits@[j] <= 9,
        decreases 10 - i,
    {
        if i == 4 || i == 7 {
            digits.push(0);
        } else {
            match digit_value(s, i) {
                Some(v) => digits.push(v),
                None => {
                    return None;
                },
            }
        }
        i = i + 1;
    }
    assert(has_date_shape(s@));
    let year = digits[0] * 1000 + digits[1] * 100 + digits[2] * 10 + digits[3];
    let month = digits[5] * 10 + digits[6];
    let day = digits[8] * 10 + digits[9];
    if calendar_day_exists(year, month, day) {
        Some(CalendarDate { year, month, day })
    } else {
        None
    }
}

/// Chronological order, as `date_le` states it.
pub fn date_not_after(a: &CalendarDate, b: &CalendarDate) -> (r: bool)
    ensures
        r == date_le(*a, *b),
{
    a.year < b.year || (a.year == b.year && (a.month < b.month || (a.month == b.month && a.day
        <= b.day)))
}

/// Parses both ends of a range and checks that it is not reversed; the error
/// names the first field that fails.
pub fn validate_dates(start: &str, end: &str) -> (r: Result<(CalendarDate, CalendarDate), ApiError>)
    ensures
        spec_parse_date(start@) is None ==> r is Err && is_invalid_input(
            r->Err_0,
            "Invalid start_date format"@,
        ),
        spec_parse_date(start@) is Some && spec_parse_date(end@) is None ==> r is Err
            && is_invalid_input(r->Err_0, "Invalid end_date format"@),
        spec_parse_date(start@) is Some && spec_parse_date(end@) is Some && !is_valid_range(
            start@,
            end@,
        ) ==> r is Err && is_invalid_input(
            r->Err_0,
            "start_date must be before or equal to end_date"@,
        ),
        is_valid_range(start@, end@) ==> r == Ok::<(CalendarDate, CalendarDate), ApiError>(
            (spec_parse_date(start@)->Some_0, spec_parse_date(end@)->Some_0),
        ),
{
    let start_date = match parse_date(start) {
        Some(d) => d,
        None => {
            return Err(ApiError::InvalidInput(String::from_str("Invalid start_date format")));
        },
    };
    let end_date = match parse_date(end) {
        Some(d) => d,
        None => {
            return Err(ApiError::InvalidInput(String::from_str("Invalid end_date format")));
        },
    };
    if !date_not_after(&start_date, &end_date) {
        return Err(
            ApiError::InvalidInput(
                String::from_str("start_date must be before or equal to end_date"),
            ),
        );
    }
    Ok((start_date, end_date))
}

} // verus!
