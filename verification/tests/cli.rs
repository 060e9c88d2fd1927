use x11bar::bar::X11Bar;
use x11bar::cli::{cli, parse_millis, UsageError};

fn args(list: &[&str]) -> Vec<String> {
    list.iter().map(|s| s.to_string()).collect()
}

#[test]
fn no_arguments_give_the_default() {
    let expected = X11Bar { refresh_rate_ms: 1000, is_looped: false };
    assert_eq!(cli(&args(&[])), Ok(expected));
    assert_eq!(cli(&args(&["bar"])), Ok(expected));
    assert_eq!(cli(&args(&["-l"])), Ok(expected));
    assert_eq!(cli(&args(&["-r"])), Ok(expected));
}

#[test]
fn loop_option_sets_loop() {
    let expected = X11Bar { refresh_rate_ms: 1000, is_looped: true };
    assert_eq!(cli(&args(&["bar", "-l"])), Ok(expected));
    assert_eq!(cli(&args(&["bar", "--loop"])), Ok(expected));
    assert_eq!(cli(&args(&["bar", "-l", "--loop"])), Ok(expected));
}

#[test]
fn refresh_rate_option_sets_rate() {
    assert_eq!(
        cli(&args(&["bar", "-r", "250"])),
        Ok(X11Bar { refresh_rate_ms: 250, is_looped: false })
    );
    assert_eq!(
        cli(&args(&["bar", "--refresh-rate", "5000", "--loop"])),
        Ok(X11Bar { refresh_rate_ms: 5000, is_looped: true })
    );
    assert_eq!(
        cli(&args(&["bar", "-l", "-r", "0"])),
        Ok(X11Bar { refresh_rate_ms: 0, is_looped: true })
    );
}

#[test]
fn last_refresh_rate_wins() {
    assert_eq!(
        cli(&args(&["bar", "-r", "10", "--refresh-rate", "20"])),
        Ok(X11Bar { refresh_rate_ms: 20, is_looped: false })
    );
}

#[test]
fn program_name_is_read_as_an_argument() {
    assert_eq!(
        cli(&args(&["-l", "x"])),
        Ok(X11Bar { refresh_rate_ms: 1000, is_looped: true })
    );
    assert_eq!(
        cli(&args(&["-r", "70"])),
        Ok(X11Bar { refresh_rate_ms: 70, is_looped: false })
    );
}

#[test]
fn unknown_arguments_are_passed_over() {
    assert_eq!(
        cli(&args(&["bar", "-x", "--verbose", "12", "-l"])),
        Ok(X11Bar { refresh_rate_ms: 1000, is_looped: true })
    );
}

#[test]
fn malformed_refresh_rate_is_an_error() {
    assert_eq!(cli(&args(&["bar", "-r", "abc"])), Err(UsageError::InvalidRefreshRate(2)));
    assert_eq!(cli(&args(&["bar", "-r", "1.5"])), Err(UsageError::InvalidRefreshRate(2)));
    assert_eq!(cli(&args(&["bar", "-r", ""])), Err(UsageError::InvalidRefreshRate(2)));
    assert_eq!(cli(&args(&["bar", "-r", "-5"])), Err(UsageError::InvalidRefreshRate(2)));
    assert_eq!(cli(&args(&["bar", "-r", "12ms"])), Err(UsageError::InvalidRefreshRate(2)));
    assert_eq!(cli(&args(&["bar", "-l", "-r", "-l"])), Err(UsageError::InvalidRefreshRate(3)));
    assert_eq!(
        cli(&args(&["bar", "-r", "10", "-r", "x", "-r", "y"])),
        Err(UsageError::InvalidRefreshRate(4))
    );
}

#[test]
fn missing_refresh_rate_is_an_error() {
    assert_eq!(cli(&args(&["bar", "-r"])), Err(UsageError::MissingRefreshRate));
    assert_eq!(cli(&args(&["bar", "-l", "--refresh-rate"])), Err(UsageError::MissingRefreshRate));
    assert_eq!(cli(&args(&["bar", "-r", "5", "-r"])), Err(UsageError::MissingRefreshRate));
}

#[test]
fn millis_are_plain_decimal() {
    assert_eq!(parse_millis("0"), Some(0));
    assert_eq!(parse_millis("1000"), Some(1000));
    assert_eq!(parse_millis("007"), Some(7));
    assert_eq!(parse_millis("+15"), Some(15));
    assert_eq!(parse_millis("18446744073709551615"), Some(u64::MAX));
    assert_eq!(parse_millis("18446744073709551616"), None);
    assert_eq!(parse_millis("99999999999999999999999"), None);
    assert_eq!(parse_millis(""), None);
    assert_eq!(parse_millis("+"), None);
    assert_eq!(parse_millis("++1"), None);
    assert_eq!(parse_millis("-1"), None);
    assert_eq!(parse_millis(" 1"), None);
    assert_eq!(parse_millis("1 "), None);
    assert_eq!(parse_millis("1_000"), None);
    assert_eq!(parse_millis("0x10"), None);
    assert_eq!(parse_millis("١٢"), None);
}

#[test]
fn millis_agree_with_the_standard_parser() {
    let inputs = [
        "", "+", "-", "0", "+0", "-0", "00", "42", "+42", "4+2", "18446744073709551615",
        "18446744073709551616", "184467440737095516150", "000000000000000000000000001", "1e3",
        "12 ", "\t12", "٣", "1\u{b0}",
    ];
    for input in inputs {
        assert_eq!(parse_millis(input), input.parse::<u64>().ok());
    }
}
