use jukebot::text::{i64_to_string, parse_i64, str_eq, u64_to_string, IntParseError};

#[test]
fn parse_i64_agrees_with_std() {
    let inputs = [
        "0",
        "007",
        "-0",
        "+42",
        "-42",
        "9223372036854775807",
        "9223372036854775808",
        "-9223372036854775808",
        "-9223372036854775809",
        "18446744073709551616",
        "",
        "+",
        "-",
        " 1",
        "4 2",
        "0x10",
        "twelve",
    ];
    for input in inputs {
        match input.parse::<i64>() {
            Ok(v) => assert_eq!(parse_i64(input), Ok(v), "input {:?}", input),
            Err(_) => assert!(parse_i64(input).is_err(), "input {:?}", input),
        }
    }
}

#[test]
fn parse_i64_classifies_failures_as_std_does() {
    assert_eq!(parse_i64(""), Err(IntParseError::Empty));
    assert_eq!(parse_i64("-"), Err(IntParseError::InvalidDigit));
    assert_eq!(parse_i64("12a"), Err(IntParseError::InvalidDigit));
    assert_eq!(
        parse_i64("9223372036854775808"),
        Err(IntParseError::PosOverflow)
    );
    assert_eq!(
        parse_i64("-9223372036854775809"),
        Err(IntParseError::NegOverflow)
    );
}

#[test]
fn decimal_rendering_is_exact() {
    assert_eq!(u64_to_string(0), "0");
    assert_eq!(u64_to_string(10), "10");
    assert_eq!(u64_to_string(18446744073709551615), "18446744073709551615");
    assert_eq!(i64_to_string(0), "0");
    assert_eq!(i64_to_string(-1), "-1");
    assert_eq!(i64_to_string(i64::MAX), "9223372036854775807");
    assert_eq!(i64_to_string(i64::MIN), "-9223372036854775808");
}

#[test]
fn str_eq_compares_by_characters() {
    assert!(str_eq("", ""));
    assert!(str_eq("pause", "pause"));
    assert!(!str_eq("pause", "paused"));
    assert!(!str_eq("play", "stop"));
}
