//! Parsers for the dates and times in product names: signed years, calendar
//! dates, times of day, and timestamps with or without a `T` in them.
use crate::calendar::{date_of, time_of, Date, DateTime, Time};
use crate::common_parsers::{
    advances, after, digits_at, digits_in_range_at, has, is_digit, lemma_digits_moved,
    lemma_pow10_values, lower, lower_char, reject, take_n_digits, take_n_digits_in_range, value,
    Parsed,
};
use crate::from_str::ParseError;
use crate::input::Input;
use vstd::prelude::*;

verus! {

/// A year: a sign, which may be missing, and four digits.
pub open spec fn year_at(s: Seq<char>, pos: int) -> Parsed<i32> {
    let negative = has(s, pos, 1) && s[pos] == '-';
    let signed = has(s, pos, 1) && (s[pos] == '-' || s[pos] == '+');
    let start = if signed {
        pos + 1
    } else {
        pos
    };
    match digits_at(s, start, 4) {
        Ok((v, next)) => Ok(
            (
                if negative {
                    (0 - v) as i32
                } else {
                    v as i32
                },
                next,
            ),
        ),
        Err(e) => Err(e),
    }
}

/// Reads a year: a sign, which may be missing, and four digits.
pub fn date_year(s: &Input, pos: usize) -> (r: Parsed<i32>)
    ensures
        advances(r, s@, pos),
        r == year_at(s@, pos as int),
        r matches Ok((y, next)) ==> -9999 <= y <= 9999 && pos + 4 <= next <= pos + 5,
{
    let len = s.len();
    let mut negative = false;
    let mut start = pos;
    if pos < len {
        let c = s.get(pos);
        if c == '-' || c == '+' {
            negative = c == '-';
            start = pos + 1;
        }
    }
    match take_n_digits(s, start, 4) {
        Ok((v, next)) => {
            proof {
                lemma_pow10_values();
            }
            let year: i32 = if negative {
                0 - (v as i32)
            } else {
                v as i32
            };
            Ok((year, next))
        },
        Err(e) => Err(e),
    }
}

/// A date: a year, a month of two digits in `1..=12` and a day of two digits
/// in `1..=31`. Where the three name no day of the calendar, the date is
/// rejected where it starts.
#[verifier::opaque]
pub open spec fn date_at(s: Seq<char>, pos: int) -> Parsed<Date> {
    match year_at(s, pos) {
        Err(e) => Err(e),
        Ok((year, after_year)) => match digits_in_range_at(s, after_year as int, 2, 1, 12) {
            Err(e) => Err(e),
            Ok((month, after_month)) => match digits_in_range_at(s, after_month as int, 2, 1, 31) {
                Err(e) => Err(e),
                Ok((day, after_day)) => match date_of(year, month, day) {
                    Some(date) => Ok((date, after_day)),
                    None => reject(pos),
                },
            },
        },
    }
}

/// Reads a calendar date, as `YYYYMMDD` with or without a sign before it.
pub fn parse_simple_date(s: &Input, pos: usize) -> (r: Parsed<Date>)
    ensures
        advances(r, s@, pos),
        r == date_at(s@, pos as int),
        r matches Ok((date, next)) ==> date.is_valid() && -9999 <= date.year <= 9999 && pos + 8
            <= next <= pos + 9,
{
    reveal(date_at);
    let (year, after_year) = match date_year(s, pos) {
        Ok(v) => v,
        Err(e) => { return Err(e); },
    };
    let (month, after_month) = match take_n_digits_in_range(s, after_year, 2, 1, 12) {
        Ok(v) => v,
        Err(e) => { return Err(e); },
    };
    let (day, after_day) = match take_n_digits_in_range(s, after_month, 2, 1, 31) {
        Ok(v) => v,
        Err(e) => { return Err(e); },
    };
    match Date::from_ymd_opt(year, month, day) {
        Some(date) => Ok((date, after_day)),
        None => Err(ParseError::FailedAtPosition(pos)),
    }
}

/// A time of day: two digits each for an hour in `0..=24`, a minute in
/// `0..=59` and a second in `0..=60`. Hour 24 and second 60 pass as fields,
/// but name no time of day: such a time is rejected where it starts.
#[verifier::opaque]
pub open spec fn time_at(s: Seq<char>, pos: int) -> Parsed<Time> {
    match digits_in_range_at(s, pos, 2, 0, 24) {
        Err(e) => Err(e),
        Ok((hour, after_hour)) => match digits_in_range_at(s, after_hour as int, 2, 0, 59) {
            Err(e) => Err(e),
            Ok((minute, after_minute)) => match digits_in_range_at(s, after_minute as int, 2, 0, 60) {
                Err(e) => Err(e),
                Ok((second, after_second)) => match time_of(hour, minute, second) {
                    Some(time) => Ok((time, after_second)),
                    None => reject(pos),
                },
            },
        },
    }
}

/// Reads a time of day, as `HHMMSS`.
pub fn parse_simple_time(s: &Input, pos: usize) -> (r: Parsed<Time>)
    ensures
        advances(r, s@, pos),
        r == time_at(s@, pos as int),
        r matches Ok((time, next)) ==> time.is_valid() && next == pos + 6,
{
    reveal(time_at);
    let (hour, after_hour) = match take_n_digits_in_range(s, pos, 2, 0, 24) {
        Ok(v) => v,
        Err(e) => { return Err(e); },
    };
    let (minute, after_minute) = match take_n_digits_in_range(s, after_hour, 2, 0, 59) {
        Ok(v) => v,
        Err(e) => { return Err(e); },
    };
    let (second, after_second) = match take_n_digits_in_range(s, after_minute, 2, 0, 60) {
        Ok(v) => v,
        Err(e) => { return Err(e); },
    };
    match Time::from_hms_opt(hour, minute, second) {
        Some(time) => Ok((time, after_second)),
        None => Err(ParseError::FailedAtPosition(pos)),
    }
}

/// A date and a time of day, with or without a `T`, in either case, between
/// them.
#[verifier::opaque]
pub open spec fn timestamp_at(s: Seq<char>, pos: int) -> Parsed<DateTime> {
    match date_at(s, pos) {
        Err(e) => Err(e),
        Ok((date, after_date)) => {
            let time_start = if has(s, after_date as int, 1) && lower(s[after_date as int]) == 't' {
                after_date + 1
            } else {
                after_date as int
            };
            match time_at(s, time_start) {
                Err(e) => Err(e),
                Ok((time, after_time)) => Ok((DateTime { date, time }, after_time)),
            }
        },
    }
}

/// Reads a date and a time of day, as `YYYYMMDDTHHMMSS` or without the `T`.
pub fn parse_esa_timestamp(s: &Input, pos: usize) -> (r: Parsed<DateTime>)
    ensures
        advances(r, s@, pos),
        r == timestamp_at(s@, pos as int),
        r matches Ok((dt, next)) ==> dt.is_valid() && pos + 14 <= next <= pos + 16,
{
    reveal(timestamp_at);
    let (date, after_date) = match parse_simple_date(s, pos) {
        Ok(v) => v,
        Err(e) => { return Err(e); },
    };
    let time_start = if after_date < s.len() && lower_char(s.get(after_date)) == 't' {
        after_date + 1
    } else {
        after_date
    };
    match parse_simple_time(s, time_start) {
        Ok((time, after_time)) => Ok((DateTime { date, time }, after_time)),
        Err(e) => Err(e),
    }
}

/// A date is read from the characters that it consumes alone.
pub proof fn lemma_date_is_local(a: Seq<char>, b: Seq<char>, pos: int)
    requires
        date_at(a, pos) is Ok,
        after(date_at(a, pos)) <= b.len() <= usize::MAX,
        a.len() <= usize::MAX,
        a.subrange(pos, after(date_at(a, pos))) == b.subrange(pos, after(date_at(a, pos))),
    ensures
        date_at(b, pos) == date_at(a, pos),
{
    reveal(date_at);
    let end = after(date_at(a, pos));
    let signed = has(a, pos, 1) && (a[pos] == '-' || a[pos] == '+');
    let start = if signed {
        pos + 1
    } else {
        pos
    };
    assert(end == start + 8);
    assert(a[pos] == a.subrange(pos, end)[0]);
    assert(b[pos] == b.subrange(pos, end)[0]);
    lemma_digits_moved(a, pos, b, pos, end - pos, start - pos, 4);
    lemma_digits_moved(a, pos, b, pos, end - pos, start - pos + 4, 2);
    lemma_digits_moved(a, pos, b, pos, end - pos, start - pos + 6, 2);
}

/// A time of day that stands in one text as in another is read as the same
/// time.
pub proof fn lemma_time_moved(a: Seq<char>, pa: int, b: Seq<char>, pb: int)
    requires
        time_at(a, pa) is Ok,
        has(b, pb, 6),
        a.len() <= usize::MAX,
        b.len() <= usize::MAX,
        a.subrange(pa, pa + 6) == b.subrange(pb, pb + 6),
    ensures
        time_at(b, pb) is Ok,
        value(time_at(b, pb)) == value(time_at(a, pa)),
        after(time_at(b, pb)) == pb + 6,
        after(time_at(a, pa)) == pa + 6,
{
    reveal(time_at);
    lemma_digits_moved(a, pa, b, pb, 6, 0, 2);
    lemma_digits_moved(a, pa, b, pb, 6, 2, 2);
    lemma_digits_moved(a, pa, b, pb, 6, 4, 2);
}

/// A date and a time of day are read as the same value with a `T`, in
/// either case, between them and without one: where `date` is read as a
/// date and `time`, behind it, as a time of day, the two are read as one
/// value both as they stand and with `separator` put between them.
pub proof fn law_separator_is_optional(date: Seq<char>, time: Seq<char>, separator: char)
    requires
        separator == 'T' || separator == 't',
        date.len() + time.len() < usize::MAX,
        date_at(date + time, 0) is Ok,
        after(date_at(date + time, 0)) == date.len(),
        time_at(date + time, date.len() as int) is Ok,
    ensures
        timestamp_at(date + time, 0) is Ok,
        timestamp_at(date + seq![separator] + time, 0) is Ok,
        value(timestamp_at(date + seq![separator] + time, 0)) == value(
            timestamp_at(date + time, 0),
        ),
        after(timestamp_at(date + seq![separator] + time, 0)) == after(
            timestamp_at(date + time, 0),
        ) + 1,
{
    reveal(timestamp_at);
    let plain = date + time;
    let separated = date + seq![separator] + time;
    let n = date.len() as int;
    assert(plain.subrange(0, n) =~= separated.subrange(0, n));
    lemma_date_is_local(plain, separated, 0);
    assert(has(plain, n, 6) && is_digit(plain[n])) by {
        reveal(time_at);
    }
    assert(separated[n] == separator);
    assert(plain.subrange(n, n + 6) =~= separated.subrange(n + 1, n + 7));
    lemma_time_moved(plain, n, separated, n + 1);
}

} // verus!
