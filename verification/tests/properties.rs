use humantime::{parse_duration, Duration};

// Duration addition on parse results, for the composition checks.
fn add(a: Duration, b: Duration) -> Duration {
    a.checked_add(b).unwrap()
}

#[test]
fn zero_through_both_grammar_paths() {
    // the bare-zero special case and the ordinary span path agree
    assert_eq!(parse_duration("0"), Ok(Duration::new(0, 0)));
    assert_eq!(parse_duration("0s"), Ok(Duration::new(0, 0)));
    assert_eq!(parse_duration("0"), parse_duration("0s"));
    assert_eq!(parse_duration(" 0 "), Ok(Duration::new(0, 0)));
}

#[test]
fn additive_composition_over_separators() {
    let a = parse_duration("2h").unwrap();
    let b = parse_duration("15m").unwrap();
    let sum = add(a, b);
    assert_eq!(parse_duration("2h 15m"), Ok(sum));
    assert_eq!(parse_duration("2h\t15m"), Ok(sum));
    assert_eq!(parse_duration("2h and 15m"), Ok(sum));
    assert_eq!(parse_duration("2hand15m"), Ok(sum));
    assert_eq!(parse_duration("2hand 15m"), Ok(sum));
    assert_eq!(parse_duration("2h and15m"), Ok(sum));

    let c = parse_duration("3ns").unwrap();
    assert_eq!(parse_duration("2h 15m 3ns"), Ok(add(sum, c)));
}

#[test]
fn additive_composition_with_fractions() {
    let a = parse_duration("0.0001 days").unwrap();
    let b = parse_duration(".5m").unwrap();
    assert_eq!(parse_duration("0.0001 days and .5m"), Ok(add(a, b)));
}

#[test]
fn scientific_notation_forms() {
    assert_eq!(parse_duration("2e3s"), Ok(Duration::new(2000, 0)));
    assert_eq!(parse_duration("2E3s"), Ok(Duration::new(2000, 0)));
    assert_eq!(parse_duration("25e-1s"), Ok(Duration::new(2, 500_000_000)));
    assert_eq!(parse_duration("1e+2s"), Ok(Duration::new(100, 0)));
    assert_eq!(parse_duration("5.s"), Ok(Duration::new(5, 0)));
}

#[test]
fn nanosecond_rounding_is_half_away_from_zero() {
    // 0.0000000005 s is exactly half a nanosecond: rounds up
    assert_eq!(parse_duration("0.0000000005s"), Ok(Duration::new(0, 1)));
    // just below half rounds down
    assert_eq!(parse_duration("0.0000000004s"), Ok(Duration::new(0, 0)));
    // a fractional carry that lands on a whole second
    assert_eq!(parse_duration("0.9999999999s"), Ok(Duration::new(1, 0)));
}

#[test]
fn duration_accessors() {
    let d = parse_duration("1.5s").unwrap();
    assert_eq!(d.as_secs(), 1);
    assert_eq!(d.subsec_nanos(), 500_000_000);
    let z = Duration::zero();
    assert_eq!(z, Duration::new(0, 0));
}

#[test]
fn checked_add_carries_and_saturates_to_none() {
    let a = Duration::new(1, 600_000_000);
    let b = Duration::new(2, 700_000_000);
    assert_eq!(a.checked_add(b), Some(Duration::new(4, 300_000_000)));
    let big = Duration::new(u64::MAX, 999_999_999);
    assert_eq!(big.checked_add(Duration::new(0, 1)), None);
    assert_eq!(big.checked_add(Duration::new(0, 0)), Some(big));
}

#[test]
fn largest_representable_literal() {
    // u64::MAX seconds, written out in full, still parses exactly
    assert_eq!(
        parse_duration("18446744073709551615s"),
        Ok(Duration::new(u64::MAX, 0))
    );
}
