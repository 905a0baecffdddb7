//! Calendar dates: how they are encoded in a payload, and the age-threshold dates computed
//! from a date of birth.

use vstd::prelude::*;
use crate::issuer::IssuerCountry;
use crate::text::{all_digits, decimal, string_of};

verus! {

/// A date of the proleptic Gregorian calendar.
#[derive(Debug, Clone, Copy, PartialEq, Eq, Structural)]
pub struct Date {
    pub year: i32,
    pub month: u8,
    pub day: u8,
}

/// Whether `year` is a leap year of the proleptic Gregorian calendar.
pub open spec fn is_leap(year: int) -> bool {
    year % 4 == 0 && (year % 100 != 0 || year % 400 == 0)
}

pub open spec fn days_in_year(year: int) -> int {
    if is_leap(year) {
        366
    } else {
        365
    }
}

pub open spec fn days_in_month(year: int, month: int) -> int {
    if month == 2 {
        if is_leap(year) {
            29
        } else {
            28
        }
    } else if month == 4 || month == 6 || month == 9 || month == 11 {
        30
    } else {
        31
    }
}

/// The number of days of the year that come before the first of `month`.
pub open spec fn days_before_month(year: int, month: int) -> int {
    let feb: int = if is_leap(year) { 1 } else { 0 };
    if month <= 1 {
        0
    } else if month == 2 {
        31
    } else if month == 3 {
        59 + feb
    } else if month == 4 {
        90 + feb
    } else if month == 5 {
        120 + feb
    } else if month == 6 {
        151 + feb
    } else if month == 7 {
        181 + feb
    } else if month == 8 {
        212 + feb
    } else if month == 9 {
        243 + feb
    } else if month == 10 {
        273 + feb
    } else if month == 11 {
        304 + feb
    } else {
        334 + feb
    }
}

/// The years that dates may have.
pub open spec fn year_in_range(year: int) -> bool {
    -9999 <= year <= 9999
}

impl Date {
    /// Whether the date exists in the calendar.
    pub open spec fn valid(self) -> bool {
        &&& year_in_range(self.year as int)
        &&& 1 <= self.month <= 12
        &&& 1 <= self.day <= days_in_month(self.year as int, self.month as int)
    }

    /// The position of the date in its year, counting the first of January as 1.
    pub open spec fn day_of_year(self) -> int {
        days_before_month(self.year as int, self.month as int) + self.day
    }
}

/// The valid date of `year` whose position in the year is `ordinal`.
pub open spec fn date_with_ordinal(year: int, ordinal: int) -> Date {
    choose|d: Date| d.valid() && d.year == year && d.day_of_year() == ordinal
}

/// Two valid dates of one year at the same position of it are the same date.
pub proof fn lemma_day_of_year_unique(a: Date, b: Date)
    requires
        a.valid(),
        b.valid(),
        a.year == b.year,
        a.day_of_year() == b.day_of_year(),
    ensures
        a == b,
{
}

/// The date that 8 digits encode, read as month, day and year, or as year, month and day.
pub open spec fn date_from_digits(s: Seq<char>, month_first: bool) -> Option<Date> {
    if s.len() == 8 && all_digits(s) {
        let m = if month_first { decimal(s.subrange(0, 2)) } else { decimal(s.subrange(4, 6)) };
        let d = if month_first { decimal(s.subrange(2, 4)) } else { decimal(s.subrange(6, 8)) };
        let y = if month_first { decimal(s.subrange(4, 8)) } else { decimal(s.subrange(0, 4)) };
        let date = Date { year: y as i32, month: m as u8, day: d as u8 };
        if 1 <= m <= 12 && 1 <= d <= days_in_month(y as int, m as int) {
            Some(date)
        } else {
            None
        }
    } else {
        None
    }
}

/// The date that a date token encodes. It must have 8 characters. Month, day and year is
/// tried first, with year, month and day as the fallback, for issuers of the United States
/// outside version 1; otherwise year, month and day alone.
pub open spec fn date_of_token(s: Seq<char>, country: IssuerCountry, version: u8) -> Option<Date> {
    if s.len() != 8 {
        None
    } else if country == IssuerCountry::UnitedStates && version != 1 {
        match date_from_digits(s, true) {
            Some(d) => Some(d),
            None => date_from_digits(s, false),
        }
    } else {
        date_from_digits(s, false)
    }
}

/// Relies on `time::util::is_leap_year`: leap years of the proleptic Gregorian calendar.
pub assume_specification[ time::util::is_leap_year ](year: i32) -> (r: bool)
    ensures
        r == is_leap(year as int),
;

/// Relies on `time::Date::parse` with the format description `[month][day][year]`: each
/// component is a fixed number of ASCII digits, and the date must exist.
#[verifier::external_body]
fn parse_month_day_year(s: &str) -> (r: Option<Date>)
    requires
        s@.len() == 8,
    ensures
        r == date_from_digits(s@, true),
{
    let layout = time::format_description::parse_borrowed::<2>("[month][day][year]").ok()?;
    let d = time::Date::parse(s, &layout).ok()?;
    Some(Date { year: d.year(), month: d.month() as u8, day: d.day() })
}

/// Relies on `time::Date::parse` with the format description `[year][month][day]`: each
/// component is a fixed number of ASCII digits, and the date must exist.
#[verifier::external_body]
fn parse_year_month_day(s: &str) -> (r: Option<Date>)
    requires
        s@.len() == 8,
    ensures
        r == date_from_digits(s@, false),
{
    let layout = time::format_description::parse_borrowed::<2>("[year][month][day]").ok()?;
    let d = time::Date::parse(s, &layout).ok()?;
    Some(Date { year: d.year(), month: d.month() as u8, day: d.day() })
}

/// Relies on `time::Date::from_ordinal_date`: the date at position `ordinal` of `year`, when
/// the year is in range and has that many days.
#[verifier::external_body]
fn from_ordinal(year: i32, ordinal: u16) -> (r: Option<Date>)
    ensures
        match r {
            Some(d) => year_in_range(year as int) && 1 <= ordinal <= days_in_year(year as int)
                && d.valid() && d.year == year && d.day_of_year() == ordinal,
            None => !(year_in_range(year as int) && 1 <= ordinal <= days_in_year(year as int)),
        },
{
    let d = time::Date::from_ordinal_date(year, ordinal).ok()?;
    Some(Date { year: d.year(), month: d.month() as u8, day: d.day() })
}

/// The date that a date token encodes (see `date_of_token`).
pub fn decode_date(input: &str, country: IssuerCountry, version: u8) -> (r: Option<Date>)
    ensures
        r == date_of_token(input@, country, version),
{
    if input.unicode_len() != 8 {
        return None;
    }
    if country == IssuerCountry::UnitedStates && version != 1 {
        match parse_month_day_year(input) {
            Some(d) => Some(d),
            None => parse_year_month_day(input),
        }
    } else {
        parse_year_month_day(input)
    }
}

/// The position of the day in an ordinal adjusted for the leap day: a birthday after the end
/// of February keeps its calendar date when one of the two years has a leap day and the other
/// has none.
pub open spec fn adjusted_ordinal(year: int, ordinal: int, future_year: int) -> int {
    if ordinal > 60 {
        if is_leap(year) && !is_leap(future_year) {
            ordinal - 1
        } else if !is_leap(year) && is_leap(future_year) {
            ordinal + 1
        } else {
            ordinal
        }
    } else {
        ordinal
    }
}

/// The date `age` years after `birth`, at the same position of the year adjusted for the
/// leap day, if that date exists.
pub open spec fn threshold_date(birth: Date, age: int) -> Option<Date> {
    let future = birth.year + age;
    let o = adjusted_ordinal(birth.year as int, birth.day_of_year(), future);
    if year_in_range(future) && 1 <= o <= days_in_year(future) {
        Some(date_with_ordinal(future, o))
    } else {
        None
    }
}

impl Date {
    /// The position of the date in its year, counting the first of January as 1.
    pub fn ordinal(&self) -> (r: u16)
        requires
            self.valid(),
        ensures
            r == self.day_of_year(),
    {
        let feb: u16 = if time::util::is_leap_year(self.year) {
            1
        } else {
            0
        };
        let before: u16 = match self.month {
            1 => 0,
            2 => 31,
            3 => 59 + feb,
            4 => 90 + feb,
            5 => 120 + feb,
            6 => 151 + feb,
            7 => 181 + feb,
            8 => 212 + feb,
            9 => 243 + feb,
            10 => 273 + feb,
            11 => 304 + feb,
            _ => 334 + feb,
        };
        before + self.day as u16
    }

    /// Whether the date exists in the calendar.
    pub fn is_valid(&self) -> (r: bool)
        ensures
            r == self.valid(),
    {
        if self.year < -9999 || self.year > 9999 || self.month < 1 || self.month > 12 {
            return false;
        }
        let length: u8 = if self.month == 2 {
            if time::util::is_leap_year(self.year) {
                29
            } else {
                28
            }
        } else if self.month == 4 || self.month == 6 || self.month == 9 || self.month == 11 {
            30
        } else {
            31
        };
        1 <= self.day && self.day <= length
    }

    /// The date in the form `YYYY-MM-DD`, with a leading `-` for years before year zero.
    pub fn to_iso_string(&self) -> (r: String)
        requires
            self.valid(),
        ensures
            r@ == iso_text(*self),
    {
        let mut out: Vec<char> = Vec::new();
        let a: u32 = if self.year < 0 {
            out.push('-');
            (0 - (self.year as i64)) as u32
        } else {
            self.year as u32
        };
        out.push(digit_char((a / 1000) as u8));
        out.push(digit_char((a / 100 % 10) as u8));
        out.push(digit_char((a / 10 % 10) as u8));
        out.push(digit_char((a % 10) as u8));
        out.push('-');
        out.push(digit_char(self.month / 10));
        out.push(digit_char(self.month % 10));
        out.push('-');
        out.push(digit_char(self.day / 10));
        out.push(digit_char(self.day % 10));
        let r = string_of(out.as_slice());
        assert(r@ =~= iso_text(*self));
        r
    }
}

/// The ASCII digit for `d`.
pub open spec fn digit_text(d: int) -> char {
    (d + 48) as char
}

/// A valid date in the form `YYYY-MM-DD`: a `-` before years below zero, the year's magnitude
/// in four digits (zero-padded), then the two-digit month and the two-digit day.
pub open spec fn iso_text(d: Date) -> Seq<char> {
    let a: int = if d.year < 0 { -d.year } else { d.year as int };
    let sign: Seq<char> = if d.year < 0 { seq!['-'] } else { Seq::empty() };
    sign + seq![
        digit_text(a / 1000),
        digit_text(a / 100 % 10),
        digit_text(a / 10 % 10),
        digit_text(a % 10),
        '-',
        digit_text(d.month as int / 10),
        digit_text(d.month as int % 10),
        '-',
        digit_text(d.day as int / 10),
        digit_text(d.day as int % 10),
    ]
}

fn digit_char(d: u8) -> (r: char)
    requires
        d < 10,
    ensures
        r == digit_text(d as int),
{
    (48u8 + d) as char
}

/// The date `age` years after `birth`, at the same position of the year adjusted for the
/// leap day, if that date exists.
pub fn threshold_after(birth: Date, age: i32) -> (r: Option<Date>)
    requires
        birth.valid(),
    ensures
        r == threshold_date(birth, age as int),
{
    let year = birth.year;
    let ordinal = birth.ordinal();
    let wide: i64 = year as i64 + age as i64;
    if wide < -9999 || wide > 9999 {
        return None;
    }
    let future = wide as i32;
    let year_is_leap = time::util::is_leap_year(year);
    let future_is_leap = time::util::is_leap_year(future);
    let o: u16 = if ordinal > 60 {
        if year_is_leap && !future_is_leap {
            ordinal - 1
        } else if !year_is_leap && future_is_leap {
            ordinal + 1
        } else {
            ordinal
        }
    } else {
        ordinal
    };
    let r = from_ordinal(future, o);
    proof {
        if let Some(d) = r {
            let c = date_with_ordinal(future as int, o as int);
            assert(c.valid() && c.year == future && c.day_of_year() == o);
            lemma_day_of_year_unique(c, d);
        }
    }
    r
}


/// For issuers of the United States outside version 1, an 8-digit token whose month, day and
/// year reading is a date of the calendar decodes to that date, even where the year, month
/// and day reading would be a date as well.
pub proof fn lemma_month_first_preferred(s: Seq<char>, version: u8)
    requires
        s.len() == 8,
        all_digits(s),
        version != 1,
        1 <= decimal(s.subrange(0, 2)) <= 12,
        1 <= decimal(s.subrange(2, 4)) <= days_in_month(
            decimal(s.subrange(4, 8)) as int,
            decimal(s.subrange(0, 2)) as int,
        ),
    ensures
        date_of_token(s, IssuerCountry::UnitedStates, version) == Some(
            Date {
                year: decimal(s.subrange(4, 8)) as i32,
                month: decimal(s.subrange(0, 2)) as u8,
                day: decimal(s.subrange(2, 4)) as u8,
            },
        ),
{
    let y = s.subrange(4, 8);
    assert(all_digits(y));
    crate::text::lemma_decimal_bound(y);
    assert(crate::text::pow10(4) == 10000) by {
        assert(crate::text::pow10(0) == 1);
        assert(crate::text::pow10(1) == 10);
        assert(crate::text::pow10(2) == 100);
        assert(crate::text::pow10(3) == 1000);
    }
}

/// A birthday after the end of February in a leap year falls, in a later year without a leap
/// day, one position earlier in that year, so that it keeps its calendar date.
pub proof fn lemma_leap_birthday_threshold(birth: Date, age: int)
    requires
        birth.valid(),
        is_leap(birth.year as int),
        birth.day_of_year() > 60,
        !is_leap(birth.year + age),
        year_in_range(birth.year + age),
    ensures
        threshold_date(birth, age) == Some(
            date_with_ordinal(birth.year + age, birth.day_of_year() - 1),
        ),
{
}

} // verus!
