use eo_identifiers::common_parsers::{take_alphanumeric_n, take_chars, take_n_digits};
use eo_identifiers::input::Input;
use eo_identifiers::ParseError;

#[test]
fn input_of_ascii_text() {
    let input = Input::new("LC80390222013076EDC00");
    assert_eq!(input.len(), 21);
    assert_eq!(input.get(0), 'L');
    assert_eq!(input.get(20), '0');
    assert_eq!(input.slice(16, 19), "EDC");
    assert_eq!(input.slice(21, 21), "");
    assert_eq!(input.slice(0, 21), "LC80390222013076EDC00");
}

#[test]
fn input_of_other_text() {
    let input = Input::new("L\u{e9}8\u{1f600}039");
    assert_eq!(input.len(), 7);
    assert_eq!(input.get(0), 'L');
    assert_eq!(input.get(1), '\u{e9}');
    assert_eq!(input.get(2), '8');
    assert_eq!(input.get(3), '\u{1f600}');
    assert_eq!(input.get(6), '9');
    assert_eq!(input.slice(1, 4), "\u{e9}8\u{1f600}");
    assert_eq!(input.slice(4, 7), "039");
    assert_eq!(input.slice(7, 7), "");
}

#[test]
fn empty_input() {
    let input = Input::new("");
    assert_eq!(input.len(), 0);
    assert_eq!(input.slice(0, 0), "");
    assert_eq!(take_n_digits(&input, 0, 1), Err(ParseError::FailedAtPosition(0)));
    assert_eq!(take_n_digits(&input, 0, 0), Ok((0, 0)));
}

#[test]
fn positions_count_characters() {
    let input = Input::new("\u{e9}\u{e9}042ab");
    assert_eq!(take_n_digits(&input, 2, 3), Ok((42, 5)));
    assert_eq!(take_alphanumeric_n(&input, 2, 5), Ok(("042ab", 7)));
    assert_eq!(take_chars(&input, 0, 3), Ok(("\u{e9}\u{e9}0", 3)));
    assert_eq!(take_n_digits(&input, 1, 3), Err(ParseError::FailedAtPosition(1)));
}
