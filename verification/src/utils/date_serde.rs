//! The wire form of a date: `YYYY-MM-DD`, ten characters, nothing else.
//!
//! Example:
//! ```json
//! { "date": "2025-11-15" }
//! ```
//!
//! Writing a timestamp drops its time of day; reading a date gives midnight
//! UTC at the start of that day.

use vstd::prelude::*;
use vstd::string::*;
use vstd::arithmetic::div_mod::lemma_fundamental_div_mod_converse;
use crate::error::Error;
use crate::utils::calendar::{is_valid_date, Timestamp};
use crate::utils::text::{digit_char, digit_str, digit_value, is_digit, lemma_digit_round_trip};

verus! {

/// The number written by the two digits of `text` that start at `from`.
pub open spec fn two_digit_number(text: Seq<char>, from: int) -> int {
    digit_value(text[from]) * 10 + digit_value(text[from + 1])
}

/// The number written by the four digits of `text` that start at `from`.
pub open spec fn four_digit_number(text: Seq<char>, from: int) -> int {
    two_digit_number(text, from) * 100 + two_digit_number(text, from + 2)
}

/// Whether `text` has the shape `DDDD-DD-DD`, `D` a decimal digit.
pub open spec fn has_date_shape(text: Seq<char>) -> bool {
    &&& text.len() == 10
    &&& is_digit(text[0])
    &&& is_digit(text[1])
    &&& is_digit(text[2])
    &&& is_digit(text[3])
    &&& text[4] == '-'
    &&& is_digit(text[5])
    &&& is_digit(text[6])
    &&& text[7] == '-'
    &&& is_digit(text[8])
    &&& is_digit(text[9])
}

/// The year that a text of the date shape writes.
pub open spec fn year_of(text: Seq<char>) -> int {
    four_digit_number(text, 0)
}

/// The month that a text of the date shape writes.
pub open spec fn month_of(text: Seq<char>) -> int {
    two_digit_number(text, 5)
}

/// The day of the month that a text of the date shape writes.
pub open spec fn day_of(text: Seq<char>) -> int {
    two_digit_number(text, 8)
}

/// Whether `text` is a date in wire form: the fixed shape, and a month and
/// day that exist in that year.
pub open spec fn is_calendar_date(text: Seq<char>) -> bool {
    has_date_shape(text) && is_valid_date(year_of(text), month_of(text), day_of(text))
}

/// What a date in wire form stands for: midnight UTC on that day.
pub open spec fn decoded(text: Seq<char>) -> Timestamp {
    Timestamp {
        year: year_of(text) as i32,
        month: month_of(text) as u32,
        day: day_of(text) as u32,
        hour: 0,
        minute: 0,
        second: 0,
    }
}

/// Whether a timestamp has a wire form: a real day in a year of four digits.
pub open spec fn is_encodable(date: Timestamp) -> bool {
    date.wf() && 0 <= date.year <= 9999
}

/// The two-digit numeral of `n`, zero-padded.
pub open spec fn two_digits(n: int) -> Seq<char> {
    seq![digit_char(n / 10), digit_char(n % 10)]
}

/// The four-digit numeral of `n`, zero-padded.
pub open spec fn four_digits(n: int) -> Seq<char> {
    two_digits(n / 100) + two_digits(n % 100)
}

/// The wire form of a timestamp's day.
pub open spec fn encoded(date: Timestamp) -> Seq<char> {
    four_digits(date.year as int) + seq!['-'] + two_digits(date.month as int) + seq!['-']
        + two_digits(date.day as int)
}

/// What the `MalformedDate` failure says of a timestamp that has no wire
/// form.
pub open spec fn no_wire_form() -> Seq<char> {
    "timestamp has no YYYY-MM-DD form"@
}

/// Reads the decimal digit at position `at`, if there is one.
fn digit_at(text: &str, at: usize) -> (digit: Option<u32>)
    requires
        at < text@.len(),
    ensures
        digit.is_some() == is_digit(text@[at as int]),
        digit matches Some(d) ==> d == digit_value(text@[at as int]) && d <= 9,
{
    let code = text.get_char(at) as u32;
    if 48 <= code && code <= 57 {
        Some(code - 48)
    } else {
        None
    }
}

/// Reads the number written by the two characters from `from` on, if both
/// are digits.
fn read_two(text: &str, from: usize) -> (number: Option<u32>)
    requires
        from + 2 <= text@.len(),
        from <= 8,
    ensures
        number.is_some() == (is_digit(text@[from as int]) && is_digit(text@[from + 1])),
        number matches Some(n) ==> n == two_digit_number(text@, from as int) && n <= 99,
{
    match (digit_at(text, from), digit_at(text, from + 1)) {
        (Some(tens), Some(ones)) => Some(tens * 10 + ones),
        _ => None,
    }
}

/// Reads the number written by the four characters from `from` on, if all
/// are digits.
fn read_four(text: &str, from: usize) -> (number: Option<u32>)
    requires
        from + 4 <= text@.len(),
        from <= 6,
    ensures
        number.is_some() == (is_digit(text@[from as int]) && is_digit(text@[from + 1]) && is_digit(
            text@[from + 2],
        ) && is_digit(text@[from + 3])),
        number matches Some(n) ==> n == four_digit_number(text@, from as int) && n <= 9999,
{
    match (read_two(text, from), read_two(text, from + 2)) {
        (Some(high), Some(low)) => Some(high * 100 + low),
        _ => None,
    }
}

/// Whether the character at position `at` is a hyphen.
fn hyphen_at(text: &str, at: usize) -> (yes: bool)
    requires
        at < text@.len(),
    ensures
        yes == (text@[at as int] == '-'),
{
    text.get_char(at) == '-'
}

/// Reads a date in wire form: midnight UTC on that day.
///
/// Fails with `MalformedDate`, carrying the input, exactly when the input
/// is not in wire form.
pub fn deserialize(text: &str) -> (result: Result<Timestamp, Error>)
    ensures
        is_calendar_date(text@) ==> result == Ok::<Timestamp, Error>(decoded(text@)),
        !is_calendar_date(text@) ==> (result matches Err(Error::MalformedDate(input)) && input@
            == text@),
{
    if text.unicode_len() != 10 {
        return Err(Error::MalformedDate(String::from_str(text)));
    }
    if !hyphen_at(text, 4) || !hyphen_at(text, 7) {
        return Err(Error::MalformedDate(String::from_str(text)));
    }
    let year = read_four(text, 0);
    let month = read_two(text, 5);
    let day = read_two(text, 8);
    match (year, month, day) {
        (Some(y), Some(m), Some(d)) => {
            match Timestamp::midnight(y as i32, m, d) {
                Some(date) => Ok(date),
                None => Err(Error::MalformedDate(String::from_str(text))),
            }
        },
        _ => Err(Error::MalformedDate(String::from_str(text))),
    }
}

/// Appends the two-digit, zero-padded numeral of `n`.
fn push_two_digits(out: &mut String, n: u32)
    requires
        n <= 99,
    ensures
        final(out)@ == old(out)@ + two_digits(n as int),
{
    out.append(digit_str(n / 10));
    out.append(digit_str(n % 10));
    assert(out@ =~= old(out)@ + two_digits(n as int));
}

/// Writes the day of a timestamp in wire form, dropping the time of day.
///
/// Fails with `MalformedDate` exactly when the timestamp has no wire form:
/// its fields name no real day, or its year does not fit four digits.
pub fn serialize(date: &Timestamp) -> (result: Result<String, Error>)
    ensures
        is_encodable(*date) ==> (result matches Ok(text) && text@ == encoded(*date)),
        !is_encodable(*date) ==> (result matches Err(Error::MalformedDate(message)) && message@
            == no_wire_form()),
{
    if !date.is_valid() || date.year < 0 || date.year > 9999 {
        return Err(Error::MalformedDate(String::from_str("timestamp has no YYYY-MM-DD form")));
    }
    let year: u32 = date.year as u32;
    let mut out = String::new();
    push_two_digits(&mut out, year / 100);
    push_two_digits(&mut out, year % 100);
    assert(out@ =~= four_digits(date.year as int));
    out.append("-");
    push_two_digits(&mut out, date.month);
    out.append("-");
    push_two_digits(&mut out, date.day);
    proof {
        reveal_strlit("-");
        assert("-"@ =~= seq!['-']);
        assert(out@ =~= encoded(*date));
    }
    Ok(out)
}

/// Writing a number below 100 in two digits and reading them gives the
/// number back.
proof fn lemma_two_digits_read(n: int)
    requires
        0 <= n <= 99,
    ensures
        two_digits(n).len() == 2,
        is_digit(two_digits(n)[0]),
        is_digit(two_digits(n)[1]),
        two_digit_number(two_digits(n), 0) == n,
{
    lemma_digit_round_trip(n / 10, '0');
    lemma_digit_round_trip(n % 10, '0');
}

/// Reading two digits and writing the number in two digits gives the two
/// characters back.
proof fn lemma_two_digits_written(text: Seq<char>, from: int)
    requires
        0 <= from,
        from + 2 <= text.len(),
        is_digit(text[from]),
        is_digit(text[from + 1]),
    ensures
        0 <= two_digit_number(text, from) <= 99,
        two_digits(two_digit_number(text, from)) == text.subrange(from, from + 2),
{
    let tens = digit_value(text[from]);
    let ones = digit_value(text[from + 1]);
    lemma_digit_round_trip(0, text[from]);
    lemma_digit_round_trip(0, text[from + 1]);
    lemma_fundamental_div_mod_converse(tens * 10 + ones, 10, tens, ones);
    assert(two_digits(two_digit_number(text, from)) =~= text.subrange(from, from + 2));
}

/// Decoding a date in wire form and encoding the result gives the same
/// text back.
pub proof fn lemma_decode_then_encode(text: Seq<char>)
    requires
        is_calendar_date(text),
    ensures
        is_encodable(decoded(text)),
        encoded(decoded(text)) == text,
{
    lemma_two_digits_written(text, 0);
    lemma_two_digits_written(text, 2);
    lemma_two_digits_written(text, 5);
    lemma_two_digits_written(text, 8);
    let high = two_digit_number(text, 0);
    let low = two_digit_number(text, 2);
    lemma_fundamental_div_mod_converse(high * 100 + low, 100, high, low);
    assert(four_digits(year_of(text)) =~= text.subrange(0, 4));
    assert(seq!['-'] =~= text.subrange(4, 5));
    assert(seq!['-'] =~= text.subrange(7, 8));
    assert(encoded(decoded(text)) =~= text.subrange(0, 4) + text.subrange(4, 5) + text.subrange(
        5,
        7,
    ) + text.subrange(7, 8) + text.subrange(8, 10));
    assert(encoded(decoded(text)) =~= text);
}

/// Encoding a timestamp that has a wire form gives a date in wire form, and
/// decoding that gives the same day at midnight.
pub proof fn lemma_encode_then_decode(date: Timestamp)
    requires
        is_encodable(date),
    ensures
        is_calendar_date(encoded(date)),
        decoded(encoded(date)) == date.at_midnight(),
{
    let text = encoded(date);
    let y = date.year as int;
    let yy = two_digits(y / 100);
    let y2 = two_digits(y % 100);
    let mm = two_digits(date.month as int);
    let dd = two_digits(date.day as int);
    lemma_two_digits_read(y / 100);
    lemma_two_digits_read(y % 100);
    lemma_two_digits_read(date.month as int);
    lemma_two_digits_read(date.day as int);
    assert(text.len() == 10);
    assert(text[0] == yy[0] && text[1] == yy[1]);
    assert(text[2] == y2[0] && text[3] == y2[1]);
    assert(text[4] == '-');
    assert(text[5] == mm[0] && text[6] == mm[1]);
    assert(text[7] == '-');
    assert(text[8] == dd[0] && text[9] == dd[1]);
    assert(two_digit_number(text, 0) == y / 100);
    assert(two_digit_number(text, 2) == y % 100);
    assert(year_of(text) == y);
    assert(month_of(text) == date.month);
    assert(day_of(text) == date.day);
}

/// A text that is too short, too long, or holds anything but digits and the
/// two hyphens in their places is no date in wire form; nor is one whose
/// month or day does not exist.
pub proof fn lemma_not_a_date(text: Seq<char>)
    ensures
        text.len() != 10 ==> !is_calendar_date(text),
        text.len() == 10 && (text[4] != '-' || text[7] != '-') ==> !is_calendar_date(text),
        !(1 <= month_of(text) <= 12) ==> !is_calendar_date(text),
        !(1 <= day_of(text) <= 31) ==> !is_calendar_date(text),
{
}

} // verus!
