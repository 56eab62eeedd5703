use eo_identifiers::input::Input;
use eo_identifiers::calendar::{Date, DateTime, Time};
use eo_identifiers::common_parsers::{
    one_of, tag_no_case, take_alphanumeric, take_alphanumeric_n, take_alphanumeric_upper,
    take_char, take_chars, take_n_digits, take_n_digits_in_range, take_repeated,
};
use eo_identifiers::temporal::{
    date_year, parse_esa_timestamp, parse_simple_date, parse_simple_time,
};
use eo_identifiers::ParseError;

#[test]
fn parse_esa_timestamp_with_t() {
    let (ts, _) = parse_esa_timestamp(&Input::new("20200207T051836"), 0).unwrap();
    assert_eq!(ts.date.year, 2020);
    assert_eq!(ts.date.month, 2);
    assert_eq!(ts.date.day, 7);
    assert_eq!(ts.time.hour, 5);
    assert_eq!(ts.time.minute, 18);
    assert_eq!(ts.time.second, 36);
}

#[test]
fn parse_esa_timestamp_without_t() {
    let (ts, _) = parse_esa_timestamp(&Input::new("20200207051836"), 0).unwrap();
    assert_eq!(ts.date.year, 2020);
    assert_eq!(ts.date.month, 2);
    assert_eq!(ts.date.day, 7);
    assert_eq!(ts.time.hour, 5);
    assert_eq!(ts.time.minute, 18);
    assert_eq!(ts.time.second, 36);
}

#[test]
fn timestamp_is_the_same_with_and_without_separator() {
    let expected = DateTime {
        date: Date { year: 2020, month: 2, day: 7 },
        time: Time { hour: 5, minute: 18, second: 36 },
    };
    assert_eq!(parse_esa_timestamp(&Input::new("20200207T051836"), 0), Ok((expected, 15)));
    assert_eq!(parse_esa_timestamp(&Input::new("20200207t051836"), 0), Ok((expected, 15)));
    assert_eq!(parse_esa_timestamp(&Input::new("20200207051836"), 0), Ok((expected, 14)));
    assert_eq!(parse_esa_timestamp(&Input::new("__20200207051836.SAFE"), 2), Ok((expected, 16)));
}

#[test]
fn timestamp_errors_are_positioned() {
    assert_eq!(parse_esa_timestamp(&Input::new("20200207X051836"), 0), Err(ParseError::FailedAtPosition(8)));
    assert_eq!(parse_esa_timestamp(&Input::new("20200207T0518"), 0), Err(ParseError::FailedAtPosition(13)));
    assert_eq!(parse_esa_timestamp(&Input::new("20201307T051836"), 0), Err(ParseError::FailedAtPosition(4)));
    assert_eq!(parse_esa_timestamp(&Input::new(""), 0), Err(ParseError::FailedAtPosition(0)));
}

#[test]
fn digits_round_trip() {
    for w in 1..=4usize {
        let limit = 10u32.pow(w as u32);
        for v in 0..limit {
            let text = format!("{:0width$}rest", v, width = w);
            assert_eq!(take_n_digits(&Input::new(&text), 0, w), Ok((v, w)));
        }
    }
}

#[test]
fn digits_round_trip_at_an_offset() {
    assert_eq!(take_n_digits(&Input::new("ab0421cd"), 2, 4), Ok((421, 6)));
    assert_eq!(take_n_digits(&Input::new("000000000"), 0, 9), Ok((0, 9)));
    assert_eq!(take_n_digits(&Input::new("999999999"), 0, 9), Ok((999_999_999, 9)));
    assert_eq!(take_n_digits(&Input::new("7"), 0, 0), Ok((0, 0)));
}

#[test]
fn digits_shape_violations() {
    assert_eq!(take_n_digits(&Input::new("12a4"), 0, 4), Err(ParseError::FailedAtPosition(0)));
    assert_eq!(take_n_digits(&Input::new("123"), 0, 4), Err(ParseError::FailedAtPosition(0)));
    assert_eq!(take_n_digits(&Input::new("ab12"), 2, 3), Err(ParseError::FailedAtPosition(2)));
    assert_eq!(take_n_digits(&Input::new("12"), 5, 1), Err(ParseError::FailedAtPosition(5)));
    assert_eq!(take_n_digits(&Input::new("\u{0661}\u{0662}"), 0, 2), Err(ParseError::FailedAtPosition(0)));
}

#[test]
fn range_is_enforced() {
    for v in 0..1000u32 {
        let text = format!("R{:03}", v);
        let r = take_n_digits_in_range(&Input::new(&text), 1, 3, 1, 143);
        if 1 <= v && v <= 143 {
            assert_eq!(r, Ok((v, 4)));
        } else {
            assert_eq!(r, Err(ParseError::FailedAtPosition(1)));
        }
    }
}

#[test]
fn range_bounds_and_their_neighbours() {
    assert_eq!(take_n_digits_in_range(&Input::new("01"), 0, 2, 1, 12), Ok((1, 2)));
    assert_eq!(take_n_digits_in_range(&Input::new("12"), 0, 2, 1, 12), Ok((12, 2)));
    assert_eq!(take_n_digits_in_range(&Input::new("00"), 0, 2, 1, 12), Err(ParseError::FailedAtPosition(0)));
    assert_eq!(take_n_digits_in_range(&Input::new("13"), 0, 2, 1, 12), Err(ParseError::FailedAtPosition(0)));
    assert_eq!(take_n_digits_in_range(&Input::new("xx13"), 2, 2, 1, 12), Err(ParseError::FailedAtPosition(2)));
    assert_eq!(take_n_digits_in_range(&Input::new("1x"), 0, 2, 1, 12), Err(ParseError::FailedAtPosition(0)));
}

#[test]
fn signed_years() {
    assert_eq!(date_year(&Input::new("2020"), 0), Ok((2020, 4)));
    assert_eq!(date_year(&Input::new("+2020"), 0), Ok((2020, 5)));
    assert_eq!(date_year(&Input::new("-0044"), 0), Ok((-44, 5)));
    assert_eq!(date_year(&Input::new("-0000"), 0), Ok((0, 5)));
    assert_eq!(date_year(&Input::new("-9999x"), 0), Ok((-9999, 5)));
    assert_eq!(date_year(&Input::new("+20"), 0), Err(ParseError::FailedAtPosition(1)));
    assert_eq!(date_year(&Input::new("202"), 0), Err(ParseError::FailedAtPosition(0)));
    assert_eq!(date_year(&Input::new("--2020"), 0), Err(ParseError::FailedAtPosition(1)));
}

#[test]
fn alphanumeric_runs() {
    assert_eq!(take_alphanumeric_n(&Input::new("53NMJ_"), 0, 5), Ok(("53NMJ", 5)));
    assert_eq!(take_alphanumeric_n(&Input::new("T53nmj"), 1, 5), Ok(("53nmj", 6)));
    assert_eq!(take_alphanumeric_n(&Input::new("53N_J"), 0, 5), Err(ParseError::FailedAtPosition(0)));
    assert_eq!(take_alphanumeric_n(&Input::new("53N"), 0, 5), Err(ParseError::FailedAtPosition(0)));
    assert_eq!(take_alphanumeric_n(&Input::new("53N\u{e9}J"), 0, 5), Err(ParseError::FailedAtPosition(0)));
    assert_eq!(take_alphanumeric(&Input::new("L2SP_140"), 0), Ok(("L2SP", 4)));
    assert_eq!(take_alphanumeric(&Input::new("_L2SP"), 0), Ok(("", 0)));
    assert_eq!(take_alphanumeric(&Input::new("abc"), 3), Ok(("", 3)));
    assert_eq!(take_alphanumeric(&Input::new("abc"), 4), Err(ParseError::FailedAtPosition(4)));
}

#[test]
fn alphanumeric_runs_are_put_in_upper_case() {
    assert_eq!(take_alphanumeric_upper(&Input::new("edc00"), 0, 3), Ok(("EDC".to_string(), 3)));
    assert_eq!(take_alphanumeric_upper(&Input::new("x53nMj"), 1, 5), Ok(("53NMJ".to_string(), 6)));
    assert_eq!(take_alphanumeric_upper(&Input::new("e_c"), 0, 3), Err(ParseError::FailedAtPosition(0)));
}

#[test]
fn tags_in_either_case() {
    assert_eq!(tag_no_case(&Input::new("MSIL1C"), 0, "msi"), Ok(((), 3)));
    assert_eq!(tag_no_case(&Input::new("msil1c"), 0, "MSI"), Ok(((), 3)));
    assert_eq!(tag_no_case(&Input::new("xMsI"), 1, "msi"), Ok(((), 4)));
    assert_eq!(tag_no_case(&Input::new("MS"), 0, "msi"), Err(ParseError::FailedAtPosition(0)));
    assert_eq!(tag_no_case(&Input::new("MSX"), 0, "msi"), Err(ParseError::FailedAtPosition(0)));
    assert_eq!(tag_no_case(&Input::new("a\u{212a}"), 0, "ak"), Err(ParseError::FailedAtPosition(0)));
    assert_eq!(tag_no_case(&Input::new("@"), 0, "`"), Err(ParseError::FailedAtPosition(0)));
    assert_eq!(tag_no_case(&Input::new("["), 0, "{"), Err(ParseError::FailedAtPosition(0)));
}

#[test]
fn first_matching_tag() {
    let tags = ["l1tp", "l1gs", "l1gt", "cu"];
    assert_eq!(one_of(&Input::new("L1GT_"), 0, &tags), Ok((2, 4)));
    assert_eq!(one_of(&Input::new("cube"), 0, &tags), Ok((3, 2)));
    assert_eq!(one_of(&Input::new("L1G"), 0, &tags), Err(ParseError::FailedAtPosition(0)));
    assert_eq!(one_of(&Input::new("x"), 0, &[]), Err(ParseError::FailedAtPosition(0)));
    assert_eq!(one_of(&Input::new("ab"), 0, &["a", "ab"]), Ok((0, 1)));
}

#[test]
fn single_characters() {
    assert_eq!(take_char(&Input::new("a_b"), 1, '_'), Ok(((), 2)));
    assert_eq!(take_char(&Input::new("a-b"), 1, '_'), Err(ParseError::FailedAtPosition(1)));
    assert_eq!(take_char(&Input::new("a"), 1, '_'), Err(ParseError::FailedAtPosition(1)));
    assert_eq!(take_chars(&Input::new("L\u{e9}8"), 1, 1), Ok(("\u{e9}", 2)));
    assert_eq!(take_chars(&Input::new("L"), 1, 1), Err(ParseError::FailedAtPosition(1)));
    assert_eq!(take_repeated(&Input::new("a____b"), 1, 4, '_'), Ok(((), 5)));
    assert_eq!(take_repeated(&Input::new("a___b"), 1, 4, '_'), Err(ParseError::FailedAtPosition(1)));
}

#[test]
fn calendar_dates() {
    assert_eq!(
        parse_simple_date(&Input::new("20151209_"), 0),
        Ok((Date { year: 2015, month: 12, day: 9 }, 8))
    );
    assert_eq!(
        parse_simple_date(&Input::new("-00440315"), 0),
        Ok((Date { year: -44, month: 3, day: 15 }, 9))
    );
    assert_eq!(
        parse_simple_date(&Input::new("20200229"), 0),
        Ok((Date { year: 2020, month: 2, day: 29 }, 8))
    );
    assert_eq!(parse_simple_date(&Input::new("20151309"), 0), Err(ParseError::FailedAtPosition(4)));
    assert_eq!(parse_simple_date(&Input::new("20150009"), 0), Err(ParseError::FailedAtPosition(4)));
    assert_eq!(parse_simple_date(&Input::new("20151232"), 0), Err(ParseError::FailedAtPosition(6)));
    assert_eq!(parse_simple_date(&Input::new("20151200"), 0), Err(ParseError::FailedAtPosition(6)));
}

#[test]
fn dates_that_the_calendar_lacks_are_rejected_where_they_start() {
    assert_eq!(parse_simple_date(&Input::new("20230230"), 0), Err(ParseError::FailedAtPosition(0)));
    assert_eq!(parse_simple_date(&Input::new("20190229"), 0), Err(ParseError::FailedAtPosition(0)));
    assert_eq!(parse_simple_date(&Input::new("x20230431"), 1), Err(ParseError::FailedAtPosition(1)));
    assert_eq!(parse_simple_date(&Input::new("19000229"), 0), Err(ParseError::FailedAtPosition(0)));
    assert_eq!(
        parse_simple_date(&Input::new("20000229"), 0),
        Ok((Date { year: 2000, month: 2, day: 29 }, 8))
    );
}

#[test]
fn times_of_day() {
    assert_eq!(parse_simple_time(&Input::new("051836"), 0), Ok((Time { hour: 5, minute: 18, second: 36 }, 6)));
    assert_eq!(parse_simple_time(&Input::new("235959"), 0), Ok((Time { hour: 23, minute: 59, second: 59 }, 6)));
    assert_eq!(parse_simple_time(&Input::new("000000"), 0), Ok((Time { hour: 0, minute: 0, second: 0 }, 6)));
    assert_eq!(parse_simple_time(&Input::new("250000"), 0), Err(ParseError::FailedAtPosition(0)));
    assert_eq!(parse_simple_time(&Input::new("236000"), 0), Err(ParseError::FailedAtPosition(2)));
    assert_eq!(parse_simple_time(&Input::new("235961"), 0), Err(ParseError::FailedAtPosition(4)));
}

#[test]
fn hour_24_and_second_60_pass_as_fields_but_name_no_time() {
    assert_eq!(parse_simple_time(&Input::new("x240000"), 1), Err(ParseError::FailedAtPosition(1)));
    assert_eq!(parse_simple_time(&Input::new("x235960"), 1), Err(ParseError::FailedAtPosition(1)));
    assert_eq!(parse_esa_timestamp(&Input::new("20200207T240000"), 0), Err(ParseError::FailedAtPosition(9)));
}
