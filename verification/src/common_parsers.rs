//! Parsers for the token shapes that recur in product names: runs of digits
//! of a fixed width, with or without a range, runs of letters and digits,
//! single and repeated characters, and tags in either letter case.
//!
//! A parser takes the text and the position at which to read. It gives the
//! value that it read and the position behind it, or an error that holds the
//! position at which the text was rejected. A field is rejected where it
//! starts, whether its shape is wrong or its value out of range.
use crate::from_str::ParseError;
use crate::input::Input;
use vstd::prelude::*;
use vstd::utf8::is_ascii_chars;

verus! {

/// What a parser gives: a value and the position behind what it consumed, or
/// the error.
pub type Parsed<T> = Result<(T, usize), ParseError>;

/// The rejection of the input at `pos`.
pub open spec fn reject<T>(pos: int) -> Parsed<T> {
    Err(ParseError::FailedAtPosition(pos as usize))
}

/// What a parser consumed lies in `s` from `pos` on.
pub open spec fn advances<T>(r: Parsed<T>, s: Seq<char>, pos: usize) -> bool {
    r matches Ok((_, next)) ==> pos <= next <= s.len()
}

/// The value that a parser gave.
pub open spec fn value<T>(p: Parsed<T>) -> T {
    p->Ok_0.0
}

/// The position behind what a parser consumed.
pub open spec fn after<T>(p: Parsed<T>) -> int {
    p->Ok_0.1 as int
}

/// The error of a parser, as that of another.
pub open spec fn failure<T, U>(p: Parsed<T>) -> Parsed<U> {
    Err(p->Err_0)
}

/// What a parser gave, with the value replaced by its view.
pub open spec fn view_of<T: View>(r: Parsed<T>) -> Parsed<T::V> {
    match r {
        Ok((v, next)) => Ok((v@, next)),
        Err(e) => Err(e),
    }
}

/// What a parser gave, with the text that it may hold replaced by its view.
pub open spec fn option_view_of<T: View>(r: Parsed<Option<T>>) -> Parsed<Option<T::V>> {
    match r {
        Ok((Some(v), next)) => Ok((Some(v@), next)),
        Ok((None, next)) => Ok((None, next)),
        Err(e) => Err(e),
    }
}

/// What a grammar gives: the rest of the input and the value, or the error.
pub type Recognised<'a, T> = Result<(&'a str, T), ParseError>;

/// What a parser gave on `s`, with the rest of `s` in place of the position.
pub open spec fn with_rest<V>(s: Seq<char>, p: Parsed<V>) -> Result<(Seq<char>, V), ParseError> {
    match p {
        Ok((v, next)) => Ok((s.subrange(next as int, s.len() as int), v)),
        Err(e) => Err(e),
    }
}

/// What a grammar gave, with the rest and the value replaced by their views.
pub open spec fn rest_view_of<T: View>(r: Recognised<T>) -> Result<(Seq<char>, T::V), ParseError> {
    match r {
        Ok((rest, v)) => Ok((rest@, v@)),
        Err(e) => Err(e),
    }
}

/// Gives the rest of `s` in place of the position that a parser reached.
pub fn finish<'a, T: View>(s: &Input<'a>, p: Parsed<T>) -> (r: Recognised<'a, T>)
    requires
        advances(p, s@, 0),
    ensures
        rest_view_of(r) == with_rest(s@, view_of(p)),
{
    match p {
        Ok((v, next)) => Ok((s.slice(next, s.len()), v)),
        Err(e) => Err(e),
    }
}

pub open spec fn is_digit(c: char) -> bool {
    '0' <= c && c <= '9'
}

pub fn is_char_digit(c: char) -> (b: bool)
    ensures
        b == is_digit(c),
{
    '0' <= c && c <= '9'
}

pub open spec fn is_alphanumeric(c: char) -> bool {
    is_digit(c) || ('a' <= c && c <= 'z') || ('A' <= c && c <= 'Z')
}

pub fn is_char_alphanumeric(c: char) -> (b: bool)
    ensures
        b == is_alphanumeric(c),
{
    ('0' <= c && c <= '9') || ('a' <= c && c <= 'z') || ('A' <= c && c <= 'Z')
}

/// The letter `c` in lower case, any other character unchanged.
pub open spec fn lower(c: char) -> char {
    if 'A' <= c && c <= 'Z' {
        ((c as u8) + 32) as char
    } else {
        c
    }
}

/// The letter `c` in lower case, any other character unchanged.
pub fn lower_char(c: char) -> (l: char)
    ensures
        l == lower(c),
{
    if 'A' <= c && c <= 'Z' {
        ((c as u8) + 32) as char
    } else {
        c
    }
}

/// The letter `c` in upper case, any other character unchanged.
pub open spec fn upper(c: char) -> char {
    if 'a' <= c && c <= 'z' {
        ((c as u8) - 32) as char
    } else {
        c
    }
}

/// `t` with each of its letters `a` to `z` in upper case.
pub open spec fn ascii_uppercase(t: Seq<char>) -> Seq<char> {
    Seq::new(t.len(), |i: int| upper(t[i]))
}

/// What `str::to_uppercase` makes of a text.
pub uninterp spec fn uppercase_of(t: Seq<char>) -> Seq<char>;

/// `str::to_uppercase`: the text in upper case as Unicode defines it, which
/// for a text of ASCII characters is the text with its letters `a` to `z`
/// replaced by `A` to `Z`.
#[verifier::external_body]
pub(crate) fn to_uppercase(t: &str) -> (r: String)
    ensures
        r@ == uppercase_of(t@),
        is_ascii_chars(t@) ==> r@ == ascii_uppercase(t@),
{
    t.to_uppercase()
}

/// `s` holds `n` characters from `pos` on.
pub open spec fn has(s: Seq<char>, pos: int, n: int) -> bool {
    0 <= pos && 0 <= n && pos + n <= s.len()
}

/// Any `n` characters at `pos`.
pub open spec fn chars_at(s: Seq<char>, pos: int, n: int) -> Parsed<Seq<char>> {
    if has(s, pos, n) {
        Ok((s.subrange(pos, pos + n), (pos + n) as usize))
    } else {
        reject(pos)
    }
}

/// Reads any `n` characters at `pos`.
pub fn take_chars<'a>(s: &Input<'a>, pos: usize, n: usize) -> (r: Parsed<&'a str>)
    ensures
        advances(r, s@, pos),
        view_of(r) == chars_at(s@, pos as int, n as int),
        r matches Ok((_, next)) ==> next == pos + n,
{
    let len = s.len();
    if pos > len || n > len - pos {
        return Err(ParseError::FailedAtPosition(pos));
    }
    Ok((s.slice(pos, pos + n), pos + n))
}

/// The character `c` at `pos`.
pub open spec fn char_at(s: Seq<char>, pos: int, c: char) -> Parsed<()> {
    if has(s, pos, 1) && s[pos] == c {
        Ok(((), (pos + 1) as usize))
    } else {
        reject(pos)
    }
}

/// Reads the character `c` at `pos`.
pub fn take_char(s: &Input, pos: usize, c: char) -> (r: Parsed<()>)
    ensures
        advances(r, s@, pos),
        r == char_at(s@, pos as int, c),
        r matches Ok((_, next)) ==> next == pos + 1,
{
    let len = s.len();
    if pos < len && s.get(pos) == c {
        Ok(((), pos + 1))
    } else {
        Err(ParseError::FailedAtPosition(pos))
    }
}

/// `s` holds `n` times the character `c` from `pos` on.
pub open spec fn repeated(s: Seq<char>, pos: int, n: int, c: char) -> bool {
    has(s, pos, n) && forall|i: int| pos <= i < pos + n ==> #[trigger] s[i] == c
}

/// `n` times the character `c` at `pos`.
pub open spec fn repeated_at(s: Seq<char>, pos: int, n: int, c: char) -> Parsed<()> {
    if repeated(s, pos, n, c) {
        Ok(((), (pos + n) as usize))
    } else {
        reject(pos)
    }
}

/// Reads `n` times the character `c` at `pos`.
pub fn take_repeated(s: &Input, pos: usize, n: usize, c: char) -> (r: Parsed<()>)
    ensures
        advances(r, s@, pos),
        r == repeated_at(s@, pos as int, n as int, c),
        r matches Ok((_, next)) ==> next == pos + n,
{
    let len = s.len();
    if pos > len || n > len - pos {
        return Err(ParseError::FailedAtPosition(pos));
    }
    let mut i: usize = 0;
    while i < n
        invariant
            i <= n,
            pos + n <= len == s@.len(),
            forall|k: int| pos <= k < pos + i ==> #[trigger] s@[k] == c,
        decreases n - i,
    {
        if s.get(pos + i) != c {
            return Err(ParseError::FailedAtPosition(pos));
        }
        i += 1;
    }
    Ok(((), pos + n))
}

/// `s` holds `n` digits from `pos` on.
pub open spec fn digit_run(s: Seq<char>, pos: int, n: int) -> bool {
    has(s, pos, n) && forall|i: int| pos <= i < pos + n ==> is_digit(#[trigger] s[i])
}

/// The number that the digits `t` write in base ten.
pub open spec fn decimal_value(t: Seq<char>) -> nat
    decreases t.len(),
{
    if t.len() == 0 {
        0
    } else {
        (decimal_value(t.drop_last()) * 10 + (t.last() as u8 - '0' as u8)) as nat
    }
}

pub open spec fn pow10(n: nat) -> nat
    decreases n,
{
    if n == 0 {
        1
    } else {
        10 * pow10((n - 1) as nat)
    }
}

pub proof fn lemma_pow10_values()
    ensures
        pow10(0) == 1,
        pow10(1) == 10,
        pow10(2) == 100,
        pow10(3) == 1000,
        pow10(4) == 10000,
        pow10(9) == 1000000000,
{
    reveal_with_fuel(pow10, 10);
}

pub proof fn lemma_pow10_monotonic(a: nat, b: nat)
    requires
        a <= b,
    ensures
        pow10(a) <= pow10(b),
    decreases b,
{
    if a < b {
        lemma_pow10_monotonic(a, (b - 1) as nat);
    }
}

/// A run of `n` digits at `pos`, read as a number.
pub open spec fn digits_at(s: Seq<char>, pos: int, n: int) -> Parsed<u32> {
    if digit_run(s, pos, n) {
        Ok((decimal_value(s.subrange(pos, pos + n)) as u32, (pos + n) as usize))
    } else {
        reject(pos)
    }
}

/// Reads exactly `n` digits at `pos` as a number.
pub fn take_n_digits(s: &Input, pos: usize, n: usize) -> (r: Parsed<u32>)
    requires
        n <= 9,
    ensures
        advances(r, s@, pos),
        r == digits_at(s@, pos as int, n as int),
        r matches Ok((v, next)) ==> v < pow10(n as nat) && next == pos + n,
{
    let len = s.len();
    if pos > len || n > len - pos {
        return Err(ParseError::FailedAtPosition(pos));
    }
    let mut value: u32 = 0;
    let mut i: usize = 0;
    while i < n
        invariant
            i <= n <= 9,
            pos + n <= len == s@.len(),
            forall|k: int| pos <= k < pos + i ==> is_digit(#[trigger] s@[k]),
            value == decimal_value(s@.subrange(pos as int, pos + i)),
            value < pow10(i as nat),
        decreases n - i,
    {
        let c = s.get(pos + i);
        if !is_char_digit(c) {
            return Err(ParseError::FailedAtPosition(pos));
        }
        proof {
            let t = s@.subrange(pos as int, pos + i + 1);
            assert(t.drop_last() == s@.subrange(pos as int, pos + i));
            assert(t.last() == c);
            lemma_pow10_monotonic((i + 1) as nat, 9);
            lemma_pow10_values();
        }
        value = value * 10 + (c as u32 - '0' as u32);
        i += 1;
    }
    Ok((value, pos + n))
}

/// A run of `n` digits at `pos` whose number lies in `lo..=hi`. A number out
/// of range is rejected where the run starts, as a run that is none.
pub open spec fn digits_in_range_at(s: Seq<char>, pos: int, n: int, lo: u32, hi: u32) -> Parsed<
    u32,
> {
    match digits_at(s, pos, n) {
        Ok((v, next)) => if lo <= v && v <= hi {
            Ok((v, next))
        } else {
            reject(pos)
        },
        Err(e) => Err(e),
    }
}

/// Reads exactly `n` digits at `pos` as a number that must lie in `lo..=hi`.
pub fn take_n_digits_in_range(s: &Input, pos: usize, n: usize, lo: u32, hi: u32) -> (r: Parsed<u32>)
    requires
        n <= 9,
    ensures
        advances(r, s@, pos),
        r == digits_in_range_at(s@, pos as int, n as int, lo, hi),
        r matches Ok((v, next)) ==> lo <= v <= hi && next == pos + n,
{
    match take_n_digits(s, pos, n) {
        Ok((v, next)) => {
            if lo <= v && v <= hi {
                Ok((v, next))
            } else {
                Err(ParseError::FailedAtPosition(pos))
            }
        },
        Err(e) => Err(e),
    }
}

/// The character that writes the digit `d`.
pub open spec fn digit_char(d: nat) -> char {
    ('0' as u8 + d) as char
}

/// The number `v` written in `w` digits, with zeros in front where it has
/// fewer.
pub open spec fn digits_of(v: nat, w: nat) -> Seq<char>
    decreases w,
{
    if w == 0 {
        Seq::empty()
    } else {
        digits_of(v / 10, (w - 1) as nat).push(digit_char(v % 10))
    }
}

/// A number under `10^w` written in `w` digits is `w` digits, which write
/// that number.
pub proof fn lemma_digits_of(v: nat, w: nat)
    requires
        v < pow10(w),
    ensures
        digits_of(v, w).len() == w,
        forall|i: int| 0 <= i < w ==> is_digit(#[trigger] digits_of(v, w)[i]),
        decimal_value(digits_of(v, w)) == v,
    decreases w,
{
    if w > 0 {
        lemma_digits_of(v / 10, (w - 1) as nat);
        assert(digits_of(v, w).drop_last() == digits_of(v / 10, (w - 1) as nat));
    }
}

/// A number written in `w` digits, zeros in front, is read back as that
/// number, and exactly the `w` digits are consumed, whatever follows them.
pub proof fn law_digits_round_trip(s: Seq<char>, pos: int, v: nat, w: nat)
    requires
        w <= 9,
        v < pow10(w),
        has(s, pos, w as int),
        s.len() <= usize::MAX,
        s.subrange(pos, pos + w) == digits_of(v, w),
    ensures
        digits_at(s, pos, w as int) == Ok::<(u32, usize), ParseError>(
            (v as u32, (pos + w) as usize),
        ),
{
    lemma_digits_of(v, w);
    assert forall|i: int| pos <= i < pos + w implies is_digit(#[trigger] s[i]) by {
        assert(s[i] == digits_of(v, w)[i - pos]);
    }
}

/// A number written in `w` digits is accepted by a parser with a range
/// where it lies in the range, and rejected where its digits start where it
/// does not: so the numbers next below and next above the range are.
pub proof fn law_range_is_enforced(s: Seq<char>, pos: int, v: nat, w: nat, lo: u32, hi: u32)
    requires
        w <= 9,
        v < pow10(w),
        has(s, pos, w as int),
        s.len() <= usize::MAX,
        s.subrange(pos, pos + w) == digits_of(v, w),
    ensures
        digits_in_range_at(s, pos, w as int, lo, hi) == if lo <= v <= hi {
            Ok::<(u32, usize), ParseError>((v as u32, (pos + w) as usize))
        } else {
            reject(pos)
        },
{
    law_digits_round_trip(s, pos, v, w);
    lemma_pow10_monotonic(w, 9);
    lemma_pow10_values();
}

/// Digits that stand in a part of one text that is also a part of another
/// are digits there too, and are read as the same number: of `width`
/// characters that `a` holds at `pa` and `b` at `pb`, the `n` from the one
/// at `offset` on.
pub proof fn lemma_digits_moved(
    a: Seq<char>,
    pa: int,
    b: Seq<char>,
    pb: int,
    width: int,
    offset: int,
    n: int,
)
    requires
        has(a, pa, width),
        has(b, pb, width),
        a.subrange(pa, pa + width) == b.subrange(pb, pb + width),
        0 <= offset,
        0 <= n,
        offset + n <= width,
        digit_run(a, pa + offset, n),
    ensures
        digit_run(b, pb + offset, n),
        a.subrange(pa + offset, pa + offset + n) == b.subrange(pb + offset, pb + offset + n),
{
    let part = a.subrange(pa, pa + width);
    assert forall|i: int| pb + offset <= i < pb + offset + n implies is_digit(#[trigger] b[i]) by {
        assert(b[i] == b.subrange(pb, pb + width)[i - pb]);
        assert(a[pa + (i - pb)] == part[i - pb]);
    }
    assert(a.subrange(pa + offset, pa + offset + n) =~= part.subrange(offset, offset + n));
    assert(b.subrange(pb + offset, pb + offset + n) =~= part.subrange(offset, offset + n));
}

/// `s` holds `n` letters or digits from `pos` on.
pub open spec fn alphanumeric_run(s: Seq<char>, pos: int, n: int) -> bool {
    has(s, pos, n) && forall|i: int| pos <= i < pos + n ==> is_alphanumeric(#[trigger] s[i])
}

/// A run of exactly `n` letters or digits at `pos`.
pub open spec fn alphanumeric_at(s: Seq<char>, pos: int, n: int) -> Parsed<Seq<char>> {
    if alphanumeric_run(s, pos, n) {
        Ok((s.subrange(pos, pos + n), (pos + n) as usize))
    } else {
        reject(pos)
    }
}

/// Reads exactly `n` letters or digits at `pos`.
pub fn take_alphanumeric_n<'a>(s: &Input<'a>, pos: usize, n: usize) -> (r: Parsed<&'a str>)
    ensures
        advances(r, s@, pos),
        view_of(r) == alphanumeric_at(s@, pos as int, n as int),
        r matches Ok((_, next)) ==> next == pos + n,
{
    let len = s.len();
    if pos > len || n > len - pos {
        return Err(ParseError::FailedAtPosition(pos));
    }
    let mut i: usize = 0;
    while i < n
        invariant
            i <= n,
            pos + n <= len == s@.len(),
            forall|k: int| pos <= k < pos + i ==> is_alphanumeric(#[trigger] s@[k]),
        decreases n - i,
    {
        if !is_char_alphanumeric(s.get(pos + i)) {
            return Err(ParseError::FailedAtPosition(pos));
        }
        i += 1;
    }
    Ok((s.slice(pos, pos + n), pos + n))
}

/// A run of exactly `n` letters or digits at `pos`, in upper case.
#[verifier::opaque]
pub open spec fn upper_alphanumeric_at(s: Seq<char>, pos: int, n: int) -> Parsed<Seq<char>> {
    match alphanumeric_at(s, pos, n) {
        Ok((t, next)) => Ok((ascii_uppercase(t), next)),
        Err(e) => Err(e),
    }
}

/// Reads exactly `n` letters or digits at `pos` and puts them in upper case.
pub fn take_alphanumeric_upper(s: &Input, pos: usize, n: usize) -> (r: Parsed<String>)
    ensures
        advances(r, s@, pos),
        view_of(r) == upper_alphanumeric_at(s@, pos as int, n as int),
        r matches Ok((text, next)) ==> next == pos + n && text@.len() == n,
{
    reveal(upper_alphanumeric_at);
    match take_alphanumeric_n(s, pos, n) {
        Ok((text, next)) => {
            assert(is_ascii_chars(text@));
            Ok((to_uppercase(text), next))
        },
        Err(e) => Err(e),
    }
}

/// The length of the longest run of letters and digits at `pos`.
pub open spec fn alphanumeric_len(s: Seq<char>, pos: int) -> nat
    decreases s.len() - pos,
{
    if 0 <= pos < s.len() && is_alphanumeric(s[pos]) {
        1 + alphanumeric_len(s, pos + 1)
    } else {
        0
    }
}

/// The characters that `alphanumeric_len` counts are letters or digits.
pub proof fn lemma_alphanumeric_len_run(s: Seq<char>, pos: int)
    requires
        0 <= pos <= s.len(),
    ensures
        pos + alphanumeric_len(s, pos) <= s.len(),
        forall|i: int| pos <= i < pos + alphanumeric_len(s, pos) ==> is_alphanumeric(#[trigger] s[i]),
    decreases s.len() - pos,
{
    if pos < s.len() && is_alphanumeric(s[pos]) {
        lemma_alphanumeric_len_run(s, pos + 1);
    }
}

/// The letters and digits at `pos`, as many as there are. That there are
/// none is no error; that `pos` lies behind the end of `s` is one.
pub open spec fn alphanumerics_at(s: Seq<char>, pos: int) -> Parsed<Seq<char>> {
    if has(s, pos, 0) {
        let n = alphanumeric_len(s, pos);
        Ok((s.subrange(pos, pos + n), (pos + n) as usize))
    } else {
        reject(pos)
    }
}

/// Reads the letters and digits at `pos`, as many as there are.
pub fn take_alphanumeric<'a>(s: &Input<'a>, pos: usize) -> (r: Parsed<&'a str>)
    ensures
        advances(r, s@, pos),
        view_of(r) == alphanumerics_at(s@, pos as int),
        r matches Ok((_, next)) ==> next == pos + alphanumeric_len(s@, pos as int),
{
    let len = s.len();
    if pos > len {
        return Err(ParseError::FailedAtPosition(pos));
    }
    let mut end: usize = pos;
    while end < len && is_char_alphanumeric(s.get(end))
        invariant
            pos <= end <= len == s@.len(),
            pos + alphanumeric_len(s@, pos as int) == end + alphanumeric_len(s@, end as int),
        decreases len - end,
    {
        end += 1;
    }
    Ok((s.slice(pos, end), end))
}

/// `s` holds the tag `t` at `pos`, in any letter case.
pub open spec fn tag_no_case_matches(s: Seq<char>, pos: int, t: Seq<char>) -> bool {
    has(s, pos, t.len() as int) && forall|i: int|
        0 <= i < t.len() ==> lower(#[trigger] s[pos + i]) == lower(t[i])
}

/// The tag `t` at `pos`, in any letter case.
pub open spec fn tag_no_case_at(s: Seq<char>, pos: int, t: Seq<char>) -> Parsed<()> {
    if tag_no_case_matches(s, pos, t) {
        Ok(((), (pos + t.len()) as usize))
    } else {
        reject(pos)
    }
}

/// Reads the tag `t` at `pos`, in any letter case.
pub fn tag_no_case(s: &Input, pos: usize, t: &str) -> (r: Parsed<()>)
    ensures
        advances(r, s@, pos),
        r == tag_no_case_at(s@, pos as int, t@),
        r matches Ok((_, next)) ==> next == pos + t@.len(),
{
    let len = s.len();
    let n = t.unicode_len();
    if pos > len || n > len - pos {
        return Err(ParseError::FailedAtPosition(pos));
    }
    let mut i: usize = 0;
    while i < n
        invariant
            i <= n == t@.len(),
            pos + n <= len == s@.len(),
            forall|k: int| 0 <= k < i ==> lower(#[trigger] s@[pos + k]) == lower(t@[k]),
        decreases n - i,
    {
        if lower_char(s.get(pos + i)) != lower_char(t.get_char(i)) {
            return Err(ParseError::FailedAtPosition(pos));
        }
        i += 1;
    }
    Ok(((), pos + n))
}

/// The index of the first of `tags`, from index `from` on, that `s` holds at
/// `pos` in any letter case.
pub open spec fn first_tag_from(s: Seq<char>, pos: int, tags: Seq<&str>, from: int) -> Option<int>
    decreases tags.len() - from,
{
    if from < 0 || from >= tags.len() {
        None
    } else if tag_no_case_matches(s, pos, tags[from]@) {
        Some(from)
    } else {
        first_tag_from(s, pos, tags, from + 1)
    }
}

/// What `first_tag_from` gives is the index of a tag that `s` holds at `pos`,
/// and `s` holds none of the tags between `from` and that one; where it
/// gives nothing, `s` holds none of the tags from `from` on.
pub proof fn lemma_first_tag(s: Seq<char>, pos: int, tags: Seq<&str>, from: int)
    requires
        0 <= from,
    ensures
        match first_tag_from(s, pos, tags, from) {
            Some(i) => from <= i < tags.len() && tag_no_case_matches(s, pos, tags[i]@)
                && forall|j: int| from <= j < i ==> !tag_no_case_matches(s, pos, (#[trigger] tags[j])@),
            None => forall|j: int|
                from <= j < tags.len() ==> !tag_no_case_matches(s, pos, (#[trigger] tags[j])@),
        },
    decreases tags.len() - from,
{
    if from < tags.len() && !tag_no_case_matches(s, pos, tags[from]@) {
        lemma_first_tag(s, pos, tags, from + 1);
    }
}

/// The first of `tags` at `pos`, in any letter case: its index.
pub open spec fn one_of_at(s: Seq<char>, pos: int, tags: Seq<&str>) -> Parsed<usize> {
    match first_tag_from(s, pos, tags, 0) {
        Some(i) => Ok((i as usize, (pos + tags[i]@.len()) as usize)),
        None => reject(pos),
    }
}

/// Finds the first of `tags` that stands at `pos`, in any letter case, and
/// gives its index.
pub fn one_of(s: &Input, pos: usize, tags: &[&str]) -> (r: Parsed<usize>)
    ensures
        advances(r, s@, pos),
        r == one_of_at(s@, pos as int, tags@),
        r matches Ok((i, next)) ==> i < tags@.len() && next == pos + tags@[i as int]@.len(),
{
    let mut i: usize = 0;
    while i < tags.len()
        invariant
            i <= tags.len(),
            first_tag_from(s@, pos as int, tags@, 0) == first_tag_from(
                s@,
                pos as int,
                tags@,
                i as int,
            ),
        decreases tags.len() - i,
    {
        match tag_no_case(s, pos, tags[i]) {
            Ok((_, next)) => {
                return Ok((i, next));
            },
            Err(_) => {},
        }
        i += 1;
    }
    Err(ParseError::FailedAtPosition(pos))
}

} // verus!
