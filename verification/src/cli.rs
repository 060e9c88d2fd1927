//! The command line: `-l` or `--loop` makes the bar loop, `-r` or
//! `--refresh-rate` with a number of milliseconds sets its refresh rate.

use vstd::prelude::*;
use vstd::string::*;
use crate::bar::X11Bar;
use crate::text::{char_digit_value, char_is_digit, digit_value, is_digit};

verus! {

/// Why the arguments give no settings.
#[derive(Clone, Copy, Debug, PartialEq, Eq, Structural)]
pub enum UsageError {
    /// The refresh-rate option is the last argument: its value is missing.
    MissingRefreshRate,
    /// The argument at this index should be the refresh rate and is not a
    /// number of milliseconds.
    InvalidRefreshRate(usize),
}

/// The number that a run of decimal digits writes.
pub open spec fn digits_value(s: Seq<char>) -> nat
    decreases s.len(),
{
    if s.len() == 0 {
        0
    } else {
        digits_value(s.drop_last()) * 10 + digit_value(s.last()) as nat
    }
}

/// Whether every character is a decimal digit.
pub open spec fn all_digits(s: Seq<char>) -> bool {
    forall|i: int| 0 <= i < s.len() ==> is_digit(#[trigger] s[i])
}

/// The text without its one optional leading plus sign.
pub open spec fn unsigned_body(s: Seq<char>) -> Seq<char> {
    if s.len() > 0 && s[0] == '+' {
        s.drop_first()
    } else {
        s
    }
}

/// The refresh rate that a text writes: an optional plus sign, then one or
/// more decimal digits and nothing else, with a value that fits 64 bits.
pub open spec fn parsed_millis(s: Seq<char>) -> Option<u64> {
    let body = unsigned_body(s);
    if body.len() > 0 && all_digits(body) && digits_value(body) <= u64::MAX {
        Some(digits_value(body) as u64)
    } else {
        None
    }
}

/// Whether the text is the refresh-rate option.
pub open spec fn is_rate_flag(s: Seq<char>) -> bool {
    s == "-r"@ || s == "--refresh-rate"@
}

/// Whether the text is the loop option.
pub open spec fn is_loop_flag(s: Seq<char>) -> bool {
    s == "-l"@ || s == "--loop"@
}

/// Whether argument `i` is the refresh-rate option.
pub open spec fn rate_flag_at(args: Seq<String>, i: int) -> bool {
    0 <= i < args.len() && is_rate_flag(args[i]@)
}

/// Whether argument `i` is the loop option.
pub open spec fn loop_flag_at(args: Seq<String>, i: int) -> bool {
    0 <= i < args.len() && is_loop_flag(args[i]@)
}

/// Whether argument `i` is a refresh-rate option without a usable value
/// behind it.
pub open spec fn bad_rate_at(args: Seq<String>, i: int) -> bool {
    rate_flag_at(args, i) && (i + 1 >= args.len() || parsed_millis(args[i + 1]@) is None)
}

/// The error for the unusable refresh-rate option at argument `i`.
pub open spec fn usage_error_at(args: Seq<String>, i: int) -> UsageError {
    if i + 1 >= args.len() {
        UsageError::MissingRefreshRate
    } else {
        UsageError::InvalidRefreshRate((i + 1) as usize)
    }
}

/// Whether `bar` holds what well-formed arguments ask for: it loops where
/// a loop option occurs, and its refresh rate is the value behind the last
/// refresh-rate option, or one second where there is none.
pub open spec fn settings_of(args: Seq<String>, bar: X11Bar) -> bool {
    &&& bar.is_looped <==> exists|i: int| loop_flag_at(args, i)
    &&& (forall|i: int| !rate_flag_at(args, i)) ==> bar.refresh_rate_ms == 1000
    &&& forall|i: int|
        #![trigger rate_flag_at(args, i)]
        rate_flag_at(args, i) && (forall|j: int| i < j ==> !rate_flag_at(args, j)) ==> i + 1
            < args.len() && parsed_millis(args[i + 1]@) == Some(bar.refresh_rate_ms)
}

/// The two options are different texts.
pub proof fn rate_flag_is_no_loop_flag(s: Seq<char>)
    requires
        is_rate_flag(s),
    ensures
        !is_loop_flag(s),
{
    reveal_strlit("-r");
    reveal_strlit("--refresh-rate");
    reveal_strlit("-l");
    reveal_strlit("--loop");
    assert("-r"@[1] == 'r');
    assert("-l"@[1] == 'l');
    assert("--refresh-rate"@.len() == 14);
    assert("--loop"@.len() == 6);
    assert("-l"@.len() == 2);
}

/// A text with anything but a decimal digit in it, the one leading plus
/// sign apart, writes no refresh rate.
pub proof fn non_numeric_is_rejected(s: Seq<char>, at: int)
    requires
        0 <= at < s.len(),
        !is_digit(s[at]),
        at > 0 || s[0] != '+',
    ensures
        parsed_millis(s) is None,
{
    let body = unsigned_body(s);
    if s[0] == '+' {
        assert(body[at - 1] == s[at]);
    } else {
        assert(body[at] == s[at]);
    }
}

/// Reads a refresh rate in milliseconds: an optional plus sign and decimal
/// digits. Anything else, an empty text and a number beyond 64 bits give
/// nothing.
pub fn parse_millis(text: &str) -> (r: Option<u64>)
    ensures
        r == parsed_millis(text@),
{
    let len: usize = text.unicode_len();
    let start: usize = if len > 0 && text.get_char(0) == '+' {
        1
    } else {
        0
    };
    let ghost body = unsigned_body(text@);
    assert(body =~= text@.subrange(start as int, len as int));
    if start >= len {
        return None;
    }
    let mut value: u64 = 0;
    let mut overflowed: bool = false;
    let mut i: usize = start;
    while i < len
        invariant
            len == text@.len(),
            start <= i <= len,
            body == unsigned_body(text@),
            body == text@.subrange(start as int, len as int),
            all_digits(body.take(i - start)),
            !overflowed ==> value == digits_value(body.take(i - start)),
            overflowed ==> digits_value(body.take(i - start)) > u64::MAX,
        decreases len - i,
    {
        let c: char = text.get_char(i);
        if !char_is_digit(c) {
            assert(body[i - start] == c);
            return None;
        }
        let d: u64 = char_digit_value(c) as u64;
        proof {
            let next = body.take(i - start + 1);
            assert(next.drop_last() =~= body.take(i - start));
            assert(next.last() == c);
        }
        if !overflowed {
            if value > (u64::MAX - d) / 10 {
                overflowed = true;
            } else {
                value = value * 10 + d;
            }
        }
        i = i + 1;
    }
    proof {
        assert(body.take(len - start) =~= body);
    }
    if overflowed {
        None
    } else {
        Some(value)
    }
}

/// Reads the settings from the program's arguments, the program's own name
/// included.
///
/// With fewer than two arguments the settings are the default ones. Else
/// every argument is looked at in turn; what is neither option is passed
/// over. A refresh-rate option whose value is missing or is no number is an
/// error, and the first such option decides which: no rate is made up.
pub fn cli(args: &Vec<String>) -> (r: Result<X11Bar, UsageError>)
    ensures
        args.len() < 2 ==> r == Ok::<X11Bar, UsageError>(
            X11Bar { refresh_rate_ms: 1000, is_looped: false },
        ),
        r is Err <==> args.len() >= 2 && exists|i: int| bad_rate_at(args@, i),
        r is Err ==> exists|i: int|
            #![trigger bad_rate_at(args@, i)]
            bad_rate_at(args@, i) && r->Err_0 == usage_error_at(args@, i) && forall|j: int|
                0 <= j < i ==> !bad_rate_at(args@, j),
        r is Ok && args.len() >= 2 ==> settings_of(args@, r->Ok_0),
{
    let mut bar = X11Bar::default();
    let n: usize = args.len();
    if n < 2 {
        return Ok(bar);
    }
    let rate_short = String::from_str("-r");
    let rate_long = String::from_str("--refresh-rate");
    let loop_short = String::from_str("-l");
    let loop_long = String::from_str("--loop");
    let ghost mut last: int = -1;
    let ghost mut seen_loop: int = -1;
    let mut i: usize = 0;
    while i < n
        invariant
            n == args@.len(),
            2 <= n,
            i <= n,
            rate_short@ == "-r"@,
            rate_long@ == "--refresh-rate"@,
            loop_short@ == "-l"@,
            loop_long@ == "--loop"@,
            forall|j: int| 0 <= j < i ==> !bad_rate_at(args@, j),
            bar.is_looped <==> 0 <= seen_loop,
            seen_loop < i,
            0 <= seen_loop ==> loop_flag_at(args@, seen_loop),
            seen_loop < 0 ==> forall|j: int| 0 <= j < i ==> !loop_flag_at(args@, j),
            -1 <= last < i,
            forall|j: int| last < j < i ==> !rate_flag_at(args@, j),
            last < 0 ==> bar.refresh_rate_ms == 1000,
            0 <= last ==> rate_flag_at(args@, last) && last + 1 < n && parsed_millis(
                args@[last + 1]@,
            ) == Some(bar.refresh_rate_ms),
        decreases n - i,
    {
        if args[i] == rate_short || args[i] == rate_long {
            proof {
                rate_flag_is_no_loop_flag(args@[i as int]@);
            }
            if i + 1 >= n {
                assert(bad_rate_at(args@, i as int));
                return Err(UsageError::MissingRefreshRate);
            }
            match parse_millis(args[i + 1].as_str()) {
                None => {
                    assert(bad_rate_at(args@, i as int));
                    return Err(UsageError::InvalidRefreshRate(i + 1));
                },
                Some(ms) => {
                    bar.refresh_rate_ms = ms;
                    proof {
                        last = i as int;
                    }
                },
            }
        } else if args[i] == loop_short || args[i] == loop_long {
            bar.is_looped = true;
            proof {
                seen_loop = i as int;
            }
        }
        i = i + 1;
    }
    proof {
        assert(settings_of(args@, bar)) by {
            assert forall|k: int|
                rate_flag_at(args@, k) && (forall|j: int| k < j ==> !rate_flag_at(args@, j))
                implies k + 1 < args@.len() && parsed_millis(args@[k + 1]@) == Some(
                bar.refresh_rate_ms,
            ) by {
                if k < last {
                    assert(rate_flag_at(args@, last));
                }
            }
        }
    }
    Ok(bar)
}

/// A refresh-rate option whose value holds anything but decimal digits, the
/// one leading plus sign apart, makes the arguments an error.
pub proof fn malformed_rate_is_an_error(args: Seq<String>, i: int, at: int)
    requires
        rate_flag_at(args, i),
        i + 1 < args.len(),
        0 <= at < args[i + 1]@.len(),
        !is_digit(args[i + 1]@[at]),
        at > 0 || args[i + 1]@[0] != '+',
    ensures
        bad_rate_at(args, i),
{
    non_numeric_is_rejected(args[i + 1]@, at);
}

} // verus!
