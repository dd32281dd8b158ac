//! Calendar dates written as `YYYY-MM-DD`.
//!
//! The written form is checked here, character by character. Whether the
//! three numbers name a day that exists is left to `chrono`.

use vstd::prelude::*;

verus! {

/// Whether `c` is one of the ten ASCII digits.
pub open spec fn is_digit(c: char) -> bool {
    '0' <= c && c <= '9'
}

/// The number a digit stands for.
pub open spec fn digit_value(c: char) -> int {
    c as int - '0' as int
}

/// What the written form asks of position `i`: a hyphen after the year and
/// after the month, a digit everywhere else.
pub open spec fn shape_at(s: Seq<char>, i: int) -> bool {
    if i == 4 || i == 7 {
        s[i] == '-'
    } else {
        is_digit(s[i])
    }
}

/// Ten characters: four digits, a hyphen, two digits, a hyphen, two digits.
pub open spec fn is_date_shaped(s: Seq<char>) -> bool {
    s.len() == 10 && forall|i: int| 0 <= i < 10 ==> shape_at(s, i)
}

/// The year that a text of the written form holds.
pub open spec fn year_of(s: Seq<char>) -> int {
    1000 * digit_value(s[0]) + 100 * digit_value(s[1]) + 10 * digit_value(s[2]) + digit_value(
        s[3],
    )
}

/// The month that a text of the written form holds.
pub open spec fn month_of(s: Seq<char>) -> int {
    10 * digit_value(s[5]) + digit_value(s[6])
}

/// The day of the month that a text of the written form holds.
pub open spec fn day_of(s: Seq<char>) -> int {
    10 * digit_value(s[8]) + digit_value(s[9])
}

/// Leap years of the Gregorian calendar, carried back before its adoption.
pub open spec fn is_leap_year(year: int) -> bool {
    year % 4 == 0 && (year % 100 != 0 || year % 400 == 0)
}

/// The number of days of a month, for `month` from 1 to 12.
pub open spec fn days_in_month(year: int, month: int) -> int {
    if month == 2 {
        if is_leap_year(year) {
            29
        } else {
            28
        }
    } else if month == 4 || month == 6 || month == 9 || month == 11 {
        30
    } else {
        31
    }
}

/// Whether the calendar has the day `day` of month `month` in year `year`.
pub open spec fn is_calendar_date(year: int, month: int, day: int) -> bool {
    1 <= month <= 12 && 1 <= day <= days_in_month(year, month)
}

/// A date in the exact form `YYYY-MM-DD` that names an existing day.
pub open spec fn is_iso_date(s: Seq<char>) -> bool {
    is_date_shaped(s) && is_calendar_date(year_of(s), month_of(s), day_of(s))
}

/// `chrono::NaiveDate`, carried through unopened.
#[verifier::external_type_specification]
#[verifier::external_body]
pub struct ExNaiveDate(chrono::NaiveDate);

/// `chrono::format::ParseError`, carried through unopened.
#[verifier::external_type_specification]
#[verifier::external_body]
pub struct ExParseError(chrono::format::ParseError);

/// `chrono::NaiveDate::parse_from_str` with the pattern `%Y-%m-%d`.
///
/// Trusted, and claimed only for texts of the written form: there the parser
/// reads the year from the first four digits, the month and the day from the
/// two pairs, and succeeds exactly when the month is 1 to 12 and the day
/// exists in that month of that year.
#[verifier::external_body]
fn parse_naive_date(text: &str) -> (parsed: Result<chrono::NaiveDate, chrono::format::ParseError>)
    requires
        is_date_shaped(text@),
    ensures
        parsed.is_ok() == is_calendar_date(year_of(text@), month_of(text@), day_of(text@)),
{
    chrono::NaiveDate::parse_from_str(text, "%Y-%m-%d")
}

fn is_digit_char(c: char) -> (b: bool)
    ensures
        b == is_digit(c),
{
    '0' <= c && c <= '9'
}

/// Checks the written form, without looking at the calendar.
pub fn has_date_shape(text: &str) -> (b: bool)
    ensures
        b == is_date_shaped(text@),
{
    if text.unicode_len() != 10 {
        return false;
    }
    let mut i: usize = 0;
    while i < 10
        invariant
            text@.len() == 10,
            i <= 10,
            forall|j: int| 0 <= j < i ==> shape_at(text@, j),
        decreases 10 - i,
    {
        let c = text.get_char(i);
        let fits = if i == 4 || i == 7 {
            c == '-'
        } else {
            is_digit_char(c)
        };
        if !fits {
            assert(!shape_at(text@, i as int));
            return false;
        }
        i += 1;
    }
    true
}

/// Whether `text` is a date in the exact form `YYYY-MM-DD` that names an
/// existing day.
pub fn is_valid_date(text: &str) -> (b: bool)
    ensures
        b == is_iso_date(text@),
{
    if !has_date_shape(text) {
        return false;
    }
    match parse_naive_date(text) {
        Ok(_) => true,
        Err(_) => false,
    }
}

} // verus!
