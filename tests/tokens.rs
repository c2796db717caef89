use sithra_onebot::echo::{echo_text, parse_echo};

#[test]
fn echo_text_is_decimal() {
    assert_eq!(echo_text(0), "0");
    assert_eq!(echo_text(7), "7");
    assert_eq!(echo_text(42), "42");
    assert_eq!(echo_text(1000), "1000");
    assert_eq!(echo_text(u64::MAX), "18446744073709551615");
}

#[test]
fn parse_echo_accepts_canonical_text_only() {
    assert_eq!(parse_echo("0"), Some(0));
    assert_eq!(parse_echo("1"), Some(1));
    assert_eq!(parse_echo("18446744073709551615"), Some(u64::MAX));
    assert_eq!(parse_echo(""), None);
    assert_eq!(parse_echo("01"), None);
    assert_eq!(parse_echo("+1"), None);
    assert_eq!(parse_echo("-1"), None);
    assert_eq!(parse_echo("1a"), None);
    assert_eq!(parse_echo("18446744073709551616"), None);
    assert_eq!(parse_echo("99999999999999999999999"), None);
}

#[test]
fn distinct_tokens_have_distinct_echo_text() {
    for a in 0..200u64 {
        for b in 0..200u64 {
            if a != b {
                assert_ne!(echo_text(a), echo_text(b));
            }
        }
        assert_eq!(parse_echo(&echo_text(a)), Some(a));
    }
}
