use discord_task_bot::text::{i64_to_text, parse_i64, parse_u64, str_equals, u64_to_text, usize_to_text};

#[test]
fn renders_integers_in_decimal() {
    assert_eq!(u64_to_text(0), "0");
    assert_eq!(u64_to_text(7), "7");
    assert_eq!(u64_to_text(10), "10");
    assert_eq!(u64_to_text(u64::MAX), u64::MAX.to_string());
    assert_eq!(i64_to_text(-1), "-1");
    assert_eq!(i64_to_text(-90), "-90");
    assert_eq!(i64_to_text(i64::MIN), i64::MIN.to_string());
    assert_eq!(i64_to_text(i64::MAX), i64::MAX.to_string());
    assert_eq!(usize_to_text(42), "42");
}

#[test]
fn parses_u64_as_std_does() {
    for s in ["0", "42", "+42", "-0", "-1", "", "+", "12a", " 1", "18446744073709551615", "18446744073709551616", "00012", "１２"] {
        assert_eq!(parse_u64(s), s.parse::<u64>().ok(), "input {:?}", s);
    }
}

#[test]
fn parses_i64_as_std_does() {
    for s in [
        "0", "-0", "+5", "-5", "", "-", "+", "--1", "9223372036854775807", "9223372036854775808",
        "-9223372036854775808", "-9223372036854775809", "1800", "1:0", "x",
    ] {
        assert_eq!(parse_i64(s), s.parse::<i64>().ok(), "input {:?}", s);
    }
}

#[test]
fn compares_strings() {
    assert!(str_equals("Done", "Done"));
    assert!(!str_equals("Done", "done"));
    assert!(!str_equals("Done", "Don"));
    assert!(str_equals("", ""));
    assert!(str_equals("完了", "完了"));
}

#[test]
fn rendered_numbers_read_back() {
    for n in [0i64, 1, -1, 42, -1800, i64::MIN, i64::MAX] {
        assert_eq!(parse_i64(&i64_to_text(n)), Some(n));
    }
    for n in [0u64, 9, 10, 1234567890123, u64::MAX] {
        assert_eq!(parse_u64(&u64_to_text(n)), Some(n));
    }
}
