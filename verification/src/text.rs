//! Small helpers on characters and strings that the other modules share.

use vstd::prelude::*;

verus! {

/// Whether `c` is one of the ten ASCII decimal digits.
pub open spec fn is_digit(c: char) -> bool {
    48 <= c as u32 <= 57
}

/// The value of the decimal digit `c`.
pub open spec fn digit_value(c: char) -> int {
    c as u32 - 48
}

/// The character that writes the digit `d`, for `0 <= d <= 9`.
pub open spec fn digit_char(d: int) -> char {
    ((48 + d) as u8) as char
}

/// The two characters that write `n` in decimal, zero-padded, for `0 <= n <= 99`.
pub open spec fn two_digits(n: int) -> Seq<char> {
    seq![digit_char(n / 10), digit_char(n % 10)]
}

/// A result that holds a string on success, with the string taken as the
/// sequence of its characters.
pub open spec fn viewed<E>(r: Result<String, E>) -> Result<Seq<char>, E> {
    match r {
        Ok(s) => Ok(s@),
        Err(e) => Err(e),
    }
}

/// Executable form of [`is_digit`].
pub fn char_is_digit(c: char) -> (r: bool)
    ensures
        r == is_digit(c),
{
    let code: u32 = c as u32;
    48 <= code && code <= 57
}

/// The value of a decimal digit character.
pub fn char_digit_value(c: char) -> (r: u8)
    requires
        is_digit(c),
    ensures
        r == digit_value(c),
        r <= 9,
{
    let code: u32 = c as u32;
    (code - 48) as u8
}

/// `String::push` of std: appends one character to the end of the string.
#[verifier::external_body]
pub(crate) fn push_char(s: &mut String, c: char)
    ensures
        final(s)@ == old(s)@.push(c),
{
    s.push(c);
}

/// Appends the two decimal digits of `n`, zero-padded, to `s`.
pub fn push_two_digits(s: &mut String, n: u8)
    requires
        n <= 99,
    ensures
        final(s)@ == old(s)@ + two_digits(n as int),
{
    let tens: u8 = n / 10;
    let ones: u8 = n % 10;
    push_char(s, (48u8 + tens) as char);
    push_char(s, (48u8 + ones) as char);
    assert(final(s)@ =~= old(s)@ + two_digits(n as int));
}

/// Writing a number below one hundred with two digits gives two digit
/// characters whose values are its tens and its ones.
pub proof fn two_digits_are_digits(n: int)
    requires
        0 <= n <= 99,
    ensures
        two_digits(n).len() == 2,
        is_digit(two_digits(n)[0]),
        is_digit(two_digits(n)[1]),
        digit_value(two_digits(n)[0]) == n / 10,
        digit_value(two_digits(n)[1]) == n % 10,
{
}

/// A digit character is the character that writes its own value.
pub proof fn digit_char_of_value(c: char)
    requires
        is_digit(c),
    ensures
        digit_char(digit_value(c)) == c,
{
    let code: u32 = c as u32;
    vstd::utf8::char_u32_cast(c, code);
    assert((code as u8) as char == code as char);
}

} // verus!
