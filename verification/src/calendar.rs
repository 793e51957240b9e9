//! Calendar dates of the proleptic Gregorian calendar, as a task's deadline
//! holds them.

use chrono::Datelike;
use chrono::NaiveDate;
use vstd::prelude::*;

use crate::text::decimal;
use crate::text::digit_char;

verus! {

/// The first year that a date can lie in.
pub const MIN_YEAR: i32 = -262143;

/// The last year that a date can lie in.
pub const MAX_YEAR: i32 = 262142;

/// Years divisible by four are leap years, centuries only when divisible by
/// four hundred.
pub open spec fn leap_year(year: int) -> bool {
    year % 4 == 0 && (year % 100 != 0 || year % 400 == 0)
}

/// The number of days of a month.
pub open spec fn days_in_month(year: int, month: int) -> int {
    if month == 2 {
        if leap_year(year) {
            29
        } else {
            28
        }
    } else if month == 4 || month == 6 || month == 9 || month == 11 {
        30
    } else {
        31
    }
}

/// Year, month and day name a day of the calendar.
pub open spec fn calendar_date(year: int, month: int, day: int) -> bool {
    &&& MIN_YEAR <= year <= MAX_YEAR
    &&& 1 <= month <= 12
    &&& 1 <= day <= days_in_month(year, month)
}

/// A number below one hundred in two digits.
pub open spec fn two_digits(n: int) -> Seq<char> {
    seq![digit_char(n / 10), digit_char(n % 10)]
}

/// A year with its sign and at least four digits.
pub open spec fn signed_year(year: int) -> Seq<char> {
    let digits = decimal((if year < 0 { -year } else { year }) as nat);
    let zeros = Seq::new((if digits.len() < 4 { 4 - digits.len() } else { 0 }) as nat, |i: int| '0');
    seq![if year < 0 { '-' } else { '+' }] + zeros + digits
}

/// A date as `YYYY-MM-DD`; a year outside `0..=9999` is written with its sign.
pub open spec fn date_text(year: int, month: int, day: int) -> Seq<char> {
    let y = if 0 <= year <= 9999 {
        two_digits(year / 100) + two_digits(year % 100)
    } else {
        signed_year(year)
    };
    y + seq!['-'] + two_digits(month) + seq!['-'] + two_digits(day)
}

/// What `NaiveDate::parse_from_str` reads out of `text` under `format`: year,
/// month and day, or nothing where the text does not fit the format.
pub uninterp spec fn parsed_date(text: Seq<char>, format: Seq<char>) -> Option<(int, int, int)>;

/// A day of the calendar. Every value names an existing day.
#[derive(Clone, Copy, Debug, PartialEq, Eq, Structural)]
pub struct Date {
    year: i32,
    month: u32,
    day: u32,
}

impl View for Date {
    type V = (int, int, int);

    closed spec fn view(&self) -> (int, int, int) {
        (self.year as int, self.month as int, self.day as int)
    }
}

impl Date {
    #[verifier::type_invariant]
    spec fn exists_in_calendar(self) -> bool {
        calendar_date(self.year as int, self.month as int, self.day as int)
    }

    /// The date of the given year, month and day, if there is such a day.
    pub fn new(year: i32, month: u32, day: u32) -> (date: Option<Date>)
        ensures
            date is Some <==> calendar_date(year as int, month as int, day as int),
            date is Some ==> date->0@ == (year as int, month as int, day as int),
    {
        if year < MIN_YEAR || year > MAX_YEAR || month < 1 || month > 12 || day < 1 {
            return None;
        }
        let shifted: u32 = (year + 262400) as u32;
        assert(leap_year(shifted as int) == leap_year(year as int));
        let leap = shifted % 4 == 0 && (shifted % 100 != 0 || shifted % 400 == 0);
        let last: u32 = if month == 2 {
            if leap {
                29
            } else {
                28
            }
        } else if month == 4 || month == 6 || month == 9 || month == 11 {
            30
        } else {
            31
        };
        if day > last {
            None
        } else {
            Some(Date { year, month, day })
        }
    }

    /// The year; years before the year 1 are zero and negative.
    pub fn year(&self) -> (year: i32)
        ensures
            year == self@.0,
            calendar_date(self@.0, self@.1, self@.2),
    {
        proof {
            use_type_invariant(self);
        }
        self.year
    }

    /// The month, from 1.
    pub fn month(&self) -> (month: u32)
        ensures
            month == self@.1,
            1 <= month <= 12,
    {
        proof {
            use_type_invariant(self);
        }
        self.month
    }

    /// The day of the month, from 1.
    pub fn day(&self) -> (day: u32)
        ensures
            day == self@.2,
            1 <= day <= 31,
    {
        proof {
            use_type_invariant(self);
        }
        self.day
    }

    /// The date as `YYYY-MM-DD`.
    pub fn text(&self) -> (text: String)
        ensures
            text@ == date_text(self@.0, self@.1, self@.2),
    {
        proof {
            use_type_invariant(self);
        }
        display(self.year, self.month, self.day)
    }

    /// Reads a date out of `text` under a `strftime` format.
    pub fn parse(text: &str, format: &str) -> (date: Option<Date>)
        ensures
            date matches Some(d) ==> parsed_date(text@, format@) == Some(d@),
            date is None ==> parsed_date(text@, format@) is None,
    {
        match parse_ymd(text, format) {
            Some((year, month, day)) => {
                let date = Date::new(year, month, day);
                date
            },
            None => None,
        }
    }
}

/// `NaiveDate`'s `Display`: the year as four digits, or with its sign and at
/// least four digits outside `0..=9999`, then month and day in two digits
/// each, with hyphens between. The date must exist, as `from_ymd_opt` has it.
#[verifier::external_body]
fn display(year: i32, month: u32, day: u32) -> (text: String)
    requires
        calendar_date(year as int, month as int, day as int),
    ensures
        text@ == date_text(year as int, month as int, day as int),
{
    match NaiveDate::from_ymd_opt(year, month, day) {
        Some(date) => date.to_string(),
        None => String::new(),
    }
}

/// `NaiveDate::parse_from_str`: the year, month and day of the date it reads,
/// which is a day of the calendar, or `None` where it reports an error.
#[verifier::external_body]
fn parse_ymd(text: &str, format: &str) -> (ymd: Option<(i32, u32, u32)>)
    ensures
        ymd matches Some(d) ==> parsed_date(text@, format@) == Some(
            (d.0 as int, d.1 as int, d.2 as int),
        ) && calendar_date(d.0 as int, d.1 as int, d.2 as int),
        ymd is None ==> parsed_date(text@, format@) is None,
{
    match NaiveDate::parse_from_str(text, format) {
        Ok(date) => Some((date.year(), date.month(), date.day())),
        Err(_) => None,
    }
}

} // verus!
