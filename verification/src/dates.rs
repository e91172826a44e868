//! Calendar dates, read and written by `chrono`.
//!
//! Dates of birth are written `MM/DD/YYYY`. Reading and writing them is left
//! to `chrono`, whose rules for that take pages: the results are given names
//! here, together with the facts that `chrono` documents of them.

use vstd::prelude::*;

verus! {

/// A date of the proleptic Gregorian calendar.
#[derive(Debug, Clone, Copy)]
pub struct Date {
    pub year: i32,
    pub month: u32,
    pub day: u32,
}

/// The format in which dates of birth are read and written.
pub open spec fn birth_date_format() -> Seq<char> {
    "%m/%d/%Y"@
}

/// The earliest year that `chrono` can represent (262144 BCE).
pub open spec fn earliest_year() -> int {
    -262143
}

/// The latest year that `chrono` can represent.
pub open spec fn latest_year() -> int {
    262142
}

/// Whether `year` is a leap year of the proleptic Gregorian calendar.
pub open spec fn is_leap_year(year: int) -> bool {
    (year % 4 == 0 && year % 100 != 0) || year % 400 == 0
}

/// The number of days of a month.
pub open spec fn days_in_month(year: int, month: int) -> int {
    if month == 2 {
        if is_leap_year(year) { 29 } else { 28 }
    } else if month == 4 || month == 6 || month == 9 || month == 11 {
        30
    } else {
        31
    }
}

impl Date {
    /// The date exists in the calendar, within the years `chrono` can represent.
    pub open spec fn is_calendar_date(self) -> bool {
        &&& earliest_year() <= self.year <= latest_year()
        &&& 1 <= self.month <= 12
        &&& 1 <= self.day <= days_in_month(self.year as int, self.month as int)
    }
}

/// The date that `chrono` reads from `text` in the given format, if it reads one.
pub uninterp spec fn parsed_date(text: Seq<char>, format: Seq<char>) -> Option<Date>;

/// The decimal digit for `n`, from 0 to 9.
pub open spec fn digit(n: int) -> char {
    (('0' as u32) + n) as char
}

/// The decimal digits of `n`, without leading zeros.
pub open spec fn decimal(n: nat) -> Seq<char>
    decreases n,
{
    if n < 10 {
        seq![digit(n as int)]
    } else {
        decimal(n / 10).push(digit((n % 10) as int))
    }
}

/// The decimal digits of `n`, with zeros in front up to `width` digits.
pub open spec fn padded(n: nat, width: nat) -> Seq<char> {
    let d = decimal(n);
    if d.len() < width {
        Seq::new((width - d.len()) as nat, |i: int| '0') + d
    } else {
        d
    }
}

/// A year as `%Y` writes it: four digits or more, zero-padded, with a sign
/// in front only for years before 0 or after 9999.
pub open spec fn year_text(year: int) -> Seq<char> {
    if 0 <= year <= 9999 {
        padded(year as nat, 4)
    } else if year < 0 {
        seq!['-'] + padded((-year) as nat, 4)
    } else {
        seq!['+'] + padded(year as nat, 4)
    }
}

/// A date written in the format of dates of birth, `%m/%d/%Y`: the month and
/// the day in two digits, then the year.
pub open spec fn birth_date_text(date: Date) -> Seq<char> {
    padded(date.month as nat, 2) + seq!['/'] + padded(date.day as nat, 2) + seq!['/'] + year_text(date.year as int)
}

/// Reads a date from `text` in the given format, through
/// `chrono::NaiveDate::parse_from_str`. The result is the named value
/// `parsed_date`; a date that `chrono` reads always exists in the calendar.
#[verifier::external_body]
pub(crate) fn parse_date(text: &str, format: &str) -> (r: Option<Date>)
    ensures
        r == parsed_date(text@, format@),
        r matches Some(d) ==> d.is_calendar_date(),
{
    match chrono::NaiveDate::parse_from_str(text, format) {
        Ok(d) => Some(Date {
            year: chrono::Datelike::year(&d),
            month: chrono::Datelike::month(&d),
            day: chrono::Datelike::day(&d),
        }),
        Err(_) => None,
    }
}

/// Writes `date` in the format of dates of birth, through
/// `chrono::NaiveDate::format`: the month and day zero-padded to two digits,
/// then the year as `%Y` writes it.
#[verifier::external_body]
pub(crate) fn format_date(date: Date, format: &str) -> (r: String)
    requires
        date.is_calendar_date(),
        format@ == birth_date_format(),
    ensures
        r@ == birth_date_text(date),
{
    chrono::NaiveDate::from_ymd_opt(date.year, date.month, date.day).unwrap().format(format).to_string()
}

} // verus!
