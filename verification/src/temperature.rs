//! The temperature field: the first two characters of the sensor's text,
//! read as a two-digit number and shown as `+NN.00°C`.

use vstd::prelude::*;
use vstd::string::*;
use crate::text::{
    char_digit_value, char_is_digit, digit_char_of_value, digit_value, is_digit, push_char,
    push_two_digits, two_digits, viewed,
};

verus! {

/// Why a sensor text gives no temperature.
#[derive(Clone, Copy, Debug, PartialEq, Eq, Structural)]
pub enum SensorError {
    /// The text holds fewer than two characters.
    TooShort,
    /// One of the first two characters is not a decimal digit.
    NotNumeric,
}

/// Whether the text begins with two decimal digits.
pub open spec fn has_numeric_prefix(raw: Seq<char>) -> bool {
    raw.len() >= 2 && is_digit(raw[0]) && is_digit(raw[1])
}

/// The number that the first two characters of the text write.
pub open spec fn prefix_value(raw: Seq<char>) -> int {
    10 * digit_value(raw[0]) + digit_value(raw[1])
}

/// What reading a sensor text gives: the two-digit number at its start, or
/// the reason why there is none.
pub open spec fn parsed_temperature(raw: Seq<char>) -> Result<u8, SensorError> {
    if raw.len() < 2 {
        Err(SensorError::TooShort)
    } else if !has_numeric_prefix(raw) {
        Err(SensorError::NotNumeric)
    } else {
        Ok(prefix_value(raw) as u8)
    }
}

/// The temperature field for the two-digit reading `value`.
pub open spec fn temperature_text(value: int) -> Seq<char> {
    seq!['+'] + two_digits(value) + seq!['.', '0', '0', '\u{b0}', 'C']
}

/// The temperature field of a sensor text, or the reason why it has none.
pub open spec fn temperature_field(raw: Seq<char>) -> Result<Seq<char>, SensorError> {
    match parsed_temperature(raw) {
        Ok(value) => Ok(temperature_text(value as int)),
        Err(e) => Err(e),
    }
}

/// Reads the two-digit number at the start of the sensor's text. The rest
/// of the text is not looked at.
pub fn parse_temperature(raw: &str) -> (r: Result<u8, SensorError>)
    ensures
        r == parsed_temperature(raw@),
        r is Ok ==> r->Ok_0 <= 99,
{
    if raw.unicode_len() < 2 {
        return Err(SensorError::TooShort);
    }
    let first: char = raw.get_char(0);
    let second: char = raw.get_char(1);
    if !char_is_digit(first) || !char_is_digit(second) {
        return Err(SensorError::NotNumeric);
    }
    let tens: u8 = char_digit_value(first);
    let ones: u8 = char_digit_value(second);
    Ok(10 * tens + ones)
}

/// Renders a two-digit reading as `+NN.00°C`.
pub fn render_temperature(value: u8) -> (r: String)
    requires
        value <= 99,
    ensures
        r@ == temperature_text(value as int),
{
    let mut out = String::new();
    push_char(&mut out, '+');
    push_two_digits(&mut out, value);
    push_char(&mut out, '.');
    push_char(&mut out, '0');
    push_char(&mut out, '0');
    push_char(&mut out, '\u{b0}');
    push_char(&mut out, 'C');
    assert(out@ =~= temperature_text(value as int));
    out
}

/// The temperature field for the sensor's text: `+NN.00°C` where `NN` are
/// its first two characters, which must be decimal digits.
pub fn read_temperature(raw: &str) -> (r: Result<String, SensorError>)
    ensures
        viewed(r) == temperature_field(raw@),
        r is Ok <==> has_numeric_prefix(raw@),
{
    match parse_temperature(raw) {
        Ok(value) => Ok(render_temperature(value)),
        Err(e) => Err(e),
    }
}

/// For every sensor text that begins with two decimal digits, the rendered
/// field is a plus sign, those two characters as they stand, and `.00°C`.
pub proof fn temperature_field_keeps_prefix(raw: Seq<char>)
    requires
        has_numeric_prefix(raw),
    ensures
        temperature_field(raw) == Ok::<Seq<char>, SensorError>(
            seq!['+', raw[0], raw[1], '.', '0', '0', '\u{b0}', 'C'],
        ),
{
    let value = prefix_value(raw);
    digit_char_of_value(raw[0]);
    digit_char_of_value(raw[1]);
    assert(temperature_text(value) =~= seq!['+', raw[0], raw[1], '.', '0', '0', '\u{b0}', 'C']);
}

} // verus!
