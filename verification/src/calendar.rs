//! Dates: the shape `YYYY-MM-DD`, the Gregorian calendar, and the check of a
//! date field, which is left to `chrono`.

use vstd::prelude::*;
use crate::record::{ErrorView, ParseError};
use crate::text::{digit_value, is_digit, CharClass};

verus! {

/// Whether `year` has a 29th of February.
pub open spec fn is_leap_year(year: int) -> bool {
    year % 4 == 0 && (year % 100 != 0 || year % 400 == 0)
}

/// The number of days of `month` in `year`; 0 where `month` is not 1 to 12.
pub open spec fn days_in_month(year: int, month: int) -> int {
    if month == 4 || month == 6 || month == 9 || month == 11 {
        30
    } else if month == 2 {
        if is_leap_year(year) {
            29
        } else {
            28
        }
    } else if 1 <= month <= 12 {
        31
    } else {
        0
    }
}

/// Whether the calendar has a day `day` of `month` in `year`.
pub open spec fn is_calendar_date(year: int, month: int, day: int) -> bool {
    1 <= month <= 12 && 1 <= day <= days_in_month(year, month)
}

/// Whether `t` has the shape `YYYY-MM-DD`: four digits, a hyphen, two
/// digits, a hyphen, two digits.
pub open spec fn is_date_text(t: Seq<char>) -> bool {
    &&& t.len() == 10
    &&& is_digit(t[0]) && is_digit(t[1]) && is_digit(t[2]) && is_digit(t[3])
    &&& t[4] == '-'
    &&& is_digit(t[5]) && is_digit(t[6])
    &&& t[7] == '-'
    &&& is_digit(t[8]) && is_digit(t[9])
}

/// The number that the two digits at `i` and `i + 1` write.
pub open spec fn two_digits(t: Seq<char>, i: int) -> int {
    10 * digit_value(t[i]) + digit_value(t[i + 1])
}

/// The year that a text of the shape `YYYY-MM-DD` gives.
pub open spec fn date_year(t: Seq<char>) -> int {
    100 * two_digits(t, 0) + two_digits(t, 2)
}

/// The month that a text of the shape `YYYY-MM-DD` gives.
pub open spec fn date_month(t: Seq<char>) -> int {
    two_digits(t, 5)
}

/// The day that a text of the shape `YYYY-MM-DD` gives.
pub open spec fn date_day(t: Seq<char>) -> int {
    two_digits(t, 8)
}

/// Whether `t` has the shape `YYYY-MM-DD` and names a day of the calendar.
pub open spec fn is_real_date(t: Seq<char>) -> bool {
    is_date_text(t) && is_calendar_date(date_year(t), date_month(t), date_day(t))
}

/// `chrono::NaiveDate`, a date of the proleptic Gregorian calendar. The
/// library only tells whether one could be made.
#[verifier::external_type_specification]
#[verifier::external_body]
pub struct ExNaiveDate(chrono::NaiveDate);

/// Calls `chrono::NaiveDate::parse_from_str` with the format `%Y-%m-%d`.
///
/// Trusted, not proved: on a text of the shape `YYYY-MM-DD`, `chrono` reads
/// the three numbers as year, month and day and returns a date exactly when
/// the month is 1 to 12 and the day exists in that month of that year, 29
/// February in leap years only. Years 0000 to 9999 all lie within the range
/// of `NaiveDate`. The reason that `chrono` gives for a failure is dropped.
#[verifier::external_body]
fn chrono_date(field: &str) -> (parsed: Option<chrono::NaiveDate>)
    requires
        is_date_text(field@),
    ensures
        parsed is Some <==> is_calendar_date(
            date_year(field@),
            date_month(field@),
            date_day(field@),
        ),
{
    chrono::NaiveDate::parse_from_str(field, "%Y-%m-%d").ok()
}

/// Tests whether `chars` has the shape `YYYY-MM-DD`.
pub fn has_date_shape(chars: &[char]) -> (b: bool)
    ensures
        b == is_date_text(chars@),
{
    let digit = CharClass::Digit;
    chars.len() == 10 && digit.contains(chars[0]) && digit.contains(chars[1]) && digit.contains(
        chars[2],
    ) && digit.contains(chars[3]) && chars[4] == '-' && digit.contains(chars[5])
        && digit.contains(chars[6]) && chars[7] == '-' && digit.contains(chars[8])
        && digit.contains(chars[9])
}

/// What is reported of a date field that names no day of the calendar.
pub open spec fn date_error(t: Seq<char>) -> ErrorView {
    ErrorView::FieldFormat("Invalid date: "@ + t)
}

/// What reading the date field `t` gives: the field itself where it names
/// a day of the calendar.
pub open spec fn date_field(t: Seq<char>) -> Result<Seq<char>, ErrorView> {
    if is_real_date(t) {
        Ok(t)
    } else {
        Err(date_error(t))
    }
}

/// Reads a date field: accepts `field` where it has the shape `YYYY-MM-DD`
/// and names a day of the calendar, and reports a field-format error
/// otherwise.
pub fn read_date(field: &str) -> (r: Result<String, ParseError>)
    ensures
        match r {
            Ok(date) => date_field(field@) == Ok::<Seq<char>, ErrorView>(date@),
            Err(e) => date_field(field@) == Err::<Seq<char>, ErrorView>(e@),
        },
{
    let chars = crate::text::chars_of(field);
    if has_date_shape(chars.as_slice()) {
        match chrono_date(field) {
            Some(_) => {
                return Ok(String::from_str(field));
            },
            None => {},
        }
    }
    Err(ParseError::FieldFormat(String::from_str("Invalid date: ").concat(field)))
}

} // verus!
