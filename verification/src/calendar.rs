//! Calendar dates and times of day as plain values, in the proleptic
//! Gregorian calendar. Whether a date exists, and which date lies a number of
//! days after another, is asked of `chrono`.
use chrono::Datelike;
use chrono::Timelike;
use vstd::prelude::*;

verus! {

/// The first and the last year that `chrono` has dates for.
pub const MIN_YEAR: i32 = -262143;

pub const MAX_YEAR: i32 = 262142;

pub open spec fn is_leap_year(year: int) -> bool {
    year % 4 == 0 && (year % 100 != 0 || year % 400 == 0)
}

pub open spec fn days_in_year(year: int) -> int {
    if is_leap_year(year) {
        366
    } else {
        365
    }
}

pub open spec fn days_in_month(year: int, month: int) -> int {
    if month == 2 {
        if is_leap_year(year) {
            29
        } else {
            28
        }
    } else if month == 4 || month == 6 || month == 9 || month == 11 {
        30
    } else {
        31
    }
}

/// The calendar has a day `day` in month `month` of `year`.
pub open spec fn date_exists(year: int, month: int, day: int) -> bool {
    1 <= month <= 12 && 1 <= day <= days_in_month(year, month)
}

/// The days of `year` that lie before its month `month`.
pub open spec fn days_before_month(year: int, month: int) -> int
    decreases month,
{
    if month <= 1 {
        0
    } else {
        days_before_month(year, month - 1) + days_in_month(year, month - 1)
    }
}

/// The days between the first day of year 1 and the first day of `year`;
/// negative for the years before.
pub open spec fn days_before_year(year: int) -> int {
    365 * (year - 1) + (year - 1) / 4 - (year - 1) / 100 + (year - 1) / 400
}

/// The number of a day, counted so that 1 is the first day of year 1 and
/// each day has the number after that of the day before.
pub open spec fn day_number(year: int, month: int, day: int) -> int {
    days_before_year(year) + days_before_month(year, month) + day
}

/// A calendar date.
#[derive(Debug, Clone, Copy, PartialEq, Eq, Structural, PartialOrd, Ord, Hash)]
pub struct Date {
    pub year: i32,
    pub month: u32,
    pub day: u32,
}

/// A time of day, to the second.
#[derive(Debug, Clone, Copy, PartialEq, Eq, Structural, PartialOrd, Ord, Hash)]
pub struct Time {
    pub hour: u32,
    pub minute: u32,
    pub second: u32,
}

/// A date and a time of day, without a time zone.
#[derive(Debug, Clone, Copy, PartialEq, Eq, Structural, PartialOrd, Ord, Hash)]
pub struct DateTime {
    pub date: Date,
    pub time: Time,
}

/// The day `day` of month `month` of `year`, counted within the year.
pub open spec fn day_of_year(year: int, month: int, day: int) -> int {
    days_before_month(year, month) + day
}

/// The days before each month, written out.
pub proof fn lemma_days_before_month(year: int)
    ensures
        days_before_month(year, 1) == 0,
        days_before_month(year, 2) == 31,
        days_before_month(year, 3) == days_in_year(year) - 306,
        days_before_month(year, 4) == days_in_year(year) - 275,
        days_before_month(year, 5) == days_in_year(year) - 245,
        days_before_month(year, 6) == days_in_year(year) - 214,
        days_before_month(year, 7) == days_in_year(year) - 184,
        days_before_month(year, 8) == days_in_year(year) - 153,
        days_before_month(year, 9) == days_in_year(year) - 122,
        days_before_month(year, 10) == days_in_year(year) - 92,
        days_before_month(year, 11) == days_in_year(year) - 61,
        days_before_month(year, 12) == days_in_year(year) - 31,
{
    reveal_with_fuel(days_before_month, 13);
}

/// A year begins when the year before it has had all its days.
pub proof fn lemma_next_year(year: int)
    ensures
        days_before_year(year + 1) == days_before_year(year) + days_in_year(year),
{
}

/// Later years begin later, by at least the length of the years between.
pub proof fn lemma_years_in_order(earlier: int, later: int)
    requires
        earlier < later,
    ensures
        days_before_year(earlier) + days_in_year(earlier) <= days_before_year(later),
    decreases later - earlier,
{
    lemma_next_year(earlier);
    if earlier + 1 < later {
        lemma_years_in_order(earlier + 1, later);
    }
}

/// Two days of the calendar with one number are one day.
pub proof fn lemma_day_number_injective(
    year: int,
    month: int,
    day: int,
    other_year: int,
    other_month: int,
    other_day: int,
)
    requires
        date_exists(year, month, day),
        date_exists(other_year, other_month, other_day),
        day_number(year, month, day) == day_number(other_year, other_month, other_day),
    ensures
        year == other_year,
        month == other_month,
        day == other_day,
{
    lemma_days_before_month(year);
    lemma_days_before_month(other_year);
    if year < other_year {
        lemma_years_in_order(year, other_year);
    }
    if other_year < year {
        lemma_years_in_order(other_year, year);
    }
}

/// The date with the number `n`.
pub open spec fn date_numbered(n: int) -> Date {
    choose|d: Date| d.is_valid() && d.number() == n
}

/// The day `ordinal` of `year`, counted from 1 for the first of January and
/// on into the years before and after: day 0 is the last day of the year
/// before, day 366 of a year of 365 days the first day of the next.
pub open spec fn ordinal_date(year: int, ordinal: int) -> Date {
    date_numbered(day_number(year, 1, 1) + ordinal - 1)
}

/// A valid date is the only one with its number.
pub proof fn lemma_date_numbered(d: Date)
    requires
        d.is_valid(),
    ensures
        date_numbered(d.number()) == d,
{
    let e = date_numbered(d.number());
    lemma_day_number_injective(
        d.year as int,
        d.month as int,
        d.day as int,
        e.year as int,
        e.month as int,
        e.day as int,
    );
}

/// The day of a year that a date of that year is, counted from 1, names
/// that date: in a leap year day 60 is the 29th of February, in another
/// year the first of March.
pub proof fn law_ordinal_date_within_year(d: Date)
    requires
        d.is_valid(),
    ensures
        ordinal_date(d.year as int, day_of_year(d.year as int, d.month as int, d.day as int))
            == d,
{
    lemma_date_numbered(d);
}

/// The days are counted on past the end of a year: those behind the last
/// day of `year` are the days of the next year.
pub proof fn law_ordinal_date_rolls_over(year: int, ordinal: int)
    ensures
        ordinal_date(year, days_in_year(year) + ordinal) == ordinal_date(year + 1, ordinal),
        ordinal_date(year, 0) == ordinal_date(year - 1, days_in_year(year - 1)),
{
    lemma_next_year(year);
    lemma_next_year(year - 1);
}

/// The midnight with which `date` begins.
pub open spec fn midnight(date: Date) -> DateTime {
    DateTime { date, time: Time { hour: 0, minute: 0, second: 0 } }
}

/// The date that `year`, `month` and `day` name, where there is one.
pub open spec fn date_of(year: i32, month: u32, day: u32) -> Option<Date> {
    if date_exists(year as int, month as int, day as int) && MIN_YEAR <= year <= MAX_YEAR {
        Some(Date { year, month, day })
    } else {
        None
    }
}

/// The time that `hour`, `minute` and `second` name, where there is one.
pub open spec fn time_of(hour: u32, minute: u32, second: u32) -> Option<Time> {
    if hour < 24 && minute < 60 && second < 60 {
        Some(Time { hour, minute, second })
    } else {
        None
    }
}

impl Date {
    /// The date is one of the calendar, in a year that `chrono` has.
    pub open spec fn is_valid(self) -> bool {
        date_of(self.year, self.month, self.day) is Some
    }

    pub open spec fn number(self) -> int {
        day_number(self.year as int, self.month as int, self.day as int)
    }

    /// `chrono::NaiveDate::from_ymd_opt`, and the fields of the date it made
    /// read back: a date with these fields where the calendar has that day
    /// and the year lies in `MIN_YEAR..=MAX_YEAR`, else nothing.
    #[verifier::external_body]
    pub(crate) fn from_ymd_opt(year: i32, month: u32, day: u32) -> (r: Option<Date>)
        ensures
            r == date_of(year, month, day),
    {
        match chrono::NaiveDate::from_ymd_opt(year, month, day) {
            Some(d) => Some(Date { year: d.year(), month: d.month(), day: d.day() }),
            None => None,
        }
    }

    /// `chrono::NaiveDate + chrono::Duration::days(days)`: the date whose
    /// number is that of `self` plus `days`. The bounds keep the sum within
    /// the years that `chrono` has, where the addition does not panic.
    #[verifier::external_body]
    pub(crate) fn plus_days(self, days: i64) -> (r: Date)
        requires
            self.is_valid(),
            -200000 <= self.year <= 200000,
            -1000000 <= days <= 1000000,
        ensures
            r.is_valid(),
            r.number() == self.number() + days,
    {
        let start = chrono::NaiveDate::from_ymd_opt(self.year, self.month, self.day).unwrap();
        let d = start + chrono::Duration::days(days);
        Date { year: d.year(), month: d.month(), day: d.day() }
    }

    /// The day `ordinal` of `year`, which may lie in another year.
    pub fn from_ordinal(year: i32, ordinal: u32) -> (r: Date)
        requires
            -200000 <= year <= 200000,
            ordinal <= 1000000,
        ensures
            r == ordinal_date(year as int, ordinal as int),
            r.is_valid(),
    {
        let first = Date { year, month: 1, day: 1 };
        let r = first.plus_days(ordinal as i64 - 1);
        proof {
            lemma_date_numbered(r);
        }
        r
    }

    /// This date at midnight.
    pub fn at_midnight(self) -> (r: DateTime)
        ensures
            r == midnight(self),
    {
        DateTime { date: self, time: Time { hour: 0, minute: 0, second: 0 } }
    }
}

impl Time {
    pub open spec fn is_valid(self) -> bool {
        time_of(self.hour, self.minute, self.second) is Some
    }

    /// `chrono::NaiveTime::from_hms_opt`, and the fields of the time it made
    /// read back: a time with these fields where the hour is under 24 and
    /// minute and second are under 60, else nothing.
    #[verifier::external_body]
    pub(crate) fn from_hms_opt(hour: u32, minute: u32, second: u32) -> (r: Option<Time>)
        ensures
            r == time_of(hour, minute, second),
    {
        match chrono::NaiveTime::from_hms_opt(hour, minute, second) {
            Some(t) => Some(Time { hour: t.hour(), minute: t.minute(), second: t.second() }),
            None => None,
        }
    }
}

impl DateTime {
    pub open spec fn is_valid(self) -> bool {
        self.date.is_valid() && self.time.is_valid()
    }
}

} // verus!
