use humantime::{parse_duration, Duration, Error, SpanErrorKind};

fn overflow_err(input: &str) -> Result<Duration, Error> {
    Err(Error::MalformedSpan(input.to_string(), SpanErrorKind::RangeOverflow))
}

#[test]
fn test_overlow() {
    assert_eq!(parse_duration("100000000000000000000ns"), overflow_err("100000000000000000000ns"));
    assert_eq!(parse_duration("100000000000000000000us"), overflow_err("100000000000000000000us"));
    assert_eq!(parse_duration("100000000000000000000ms"), overflow_err("100000000000000000000ms"));
    assert_eq!(parse_duration("100000000000000000000s"), overflow_err("100000000000000000000s"));
    assert_eq!(parse_duration("100000000000000000000m"), overflow_err("100000000000000000000m"));
    assert_eq!(parse_duration("100000000000000000000h"), overflow_err("100000000000000000000h"));
    assert_eq!(parse_duration("100000000000000000000d"), overflow_err("100000000000000000000d"));
    assert_eq!(parse_duration("100000000000000000000w"), overflow_err("100000000000000000000w"));
    assert_eq!(parse_duration("100000000000000000000M"), overflow_err("100000000000000000000M"));
    assert_eq!(parse_duration("100000000000000000000Y"), overflow_err("100000000000000000000Y"));
}

#[test]
fn overflow_after_unit_conversion() {
    // the literal itself fits in the range; the converted seconds do not
    assert_eq!(parse_duration("10000000000000000 years"), overflow_err("10000000000000000 years"));
    assert_eq!(parse_duration("1e19 d"), overflow_err("1e19 d"));
}

#[test]
fn overflow_in_exponent() {
    assert_eq!(parse_duration("1e20ns"), overflow_err("1e20ns"));
    assert_eq!(parse_duration("1e9999s"), overflow_err("1e9999s"));
}

#[test]
fn empty_input_is_rejected() {
    assert_eq!(parse_duration(""), Err(Error::EmptyInput));
    assert_eq!(parse_duration("   \t \n "), Err(Error::EmptyInput));
}

#[test]
fn malformed_without_any_span() {
    assert_eq!(
        parse_duration("abc"),
        Err(Error::MalformedSpan("abc".to_string(), SpanErrorKind::NumericLiteral))
    );
    assert_eq!(
        parse_duration("5q"),
        Err(Error::MalformedSpan("q".to_string(), SpanErrorKind::UnitSuffix))
    );
    assert_eq!(
        parse_duration("5"),
        Err(Error::MalformedSpan("".to_string(), SpanErrorKind::UnitSuffix))
    );
}

#[test]
fn trailing_garbage_is_reported_exactly() {
    assert_eq!(parse_duration("2h 15q"), Err(Error::ParseFailed("15q".to_string())));
    assert_eq!(parse_duration("1h xyz"), Err(Error::ParseFailed("xyz".to_string())));
    assert_eq!(parse_duration("20min17nsecs"), Err(Error::ParseFailed("s".to_string())));
    assert_eq!(parse_duration("2h 15m   "), Ok(Duration::new(8100, 0)));
}

#[test]
fn non_ascii_is_a_parse_failure() {
    assert_eq!(
        parse_duration("\u{e5}bc"),
        Err(Error::MalformedSpan("\u{e5}bc".to_string(), SpanErrorKind::NumericLiteral))
    );
    assert_eq!(parse_duration("5s \u{e5}"), Err(Error::ParseFailed("\u{e5}".to_string())));
}

#[test]
fn malformed_payload_is_trimmed() {
    assert_eq!(
        parse_duration("abc "),
        Err(Error::MalformedSpan("abc".to_string(), SpanErrorKind::NumericLiteral))
    );
    assert_eq!(parse_duration("abc "), parse_duration("abc"));
    assert_eq!(
        parse_duration("5q \n"),
        Err(Error::MalformedSpan("q".to_string(), SpanErrorKind::UnitSuffix))
    );
    assert_eq!(
        parse_duration("100000000000000000000ns  "),
        overflow_err("100000000000000000000ns")
    );
}

#[test]
fn surrounding_whitespace_is_ignored() {
    let inputs = [
        "abc ", " abc", "  2h 15m \t", " 0 ", "\u{b}5s\u{b}", "2h xyz  ", "1e20ns ", " .5m\r\n",
    ];
    for s in inputs {
        assert_eq!(parse_duration(s), parse_duration(s.trim()));
    }
    assert_eq!(parse_duration("\u{b}5s"), Ok(Duration::new(5, 0)));
}
