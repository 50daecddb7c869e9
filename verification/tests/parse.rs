use humantime::{parse_duration, Duration};

#[test]
fn test_nanosecond() {
    assert_eq!(parse_duration("1nanos"), Ok(Duration::new(0, 1)));
    assert_eq!(parse_duration("1 nanos"), Ok(Duration::new(0, 1)));

    assert_eq!(parse_duration("2nsec"), Ok(Duration::new(0, 2)));
    assert_eq!(parse_duration("2 nsec"), Ok(Duration::new(0, 2)));

    assert_eq!(parse_duration("3ns"), Ok(Duration::new(0, 3)));
    assert_eq!(parse_duration("3 ns"), Ok(Duration::new(0, 3)));
}

#[test]
fn test_microsecond() {
    assert_eq!(parse_duration("1micros"), Ok(Duration::new(0, 1000)));
    assert_eq!(parse_duration("1 micros"), Ok(Duration::new(0, 1000)));

    assert_eq!(parse_duration("2usec"), Ok(Duration::new(0, 2000)));
    assert_eq!(parse_duration("2 usec"), Ok(Duration::new(0, 2000)));

    assert_eq!(parse_duration("3us"), Ok(Duration::new(0, 3000)));
    assert_eq!(parse_duration("3 us"), Ok(Duration::new(0, 3000)));
}

#[test]
fn test_millisecond() {
    assert_eq!(parse_duration("1millis"), Ok(Duration::new(0, 1_000_000)));
    assert_eq!(parse_duration("1 millis"), Ok(Duration::new(0, 1_000_000)));

    assert_eq!(parse_duration("2msec"), Ok(Duration::new(0, 2_000_000)));
    assert_eq!(parse_duration("2 msec"), Ok(Duration::new(0, 2_000_000)));

    assert_eq!(parse_duration("3ms"), Ok(Duration::new(0, 3_000_000)));
    assert_eq!(parse_duration("3 ms"), Ok(Duration::new(0, 3_000_000)));
}

#[test]
fn test_seconds() {
    assert_eq!(parse_duration("1seconds"), Ok(Duration::new(1, 0)));
    assert_eq!(parse_duration("1 seconds"), Ok(Duration::new(1, 0)));

    assert_eq!(parse_duration("2second"), Ok(Duration::new(2, 0)));
    assert_eq!(parse_duration("2 second"), Ok(Duration::new(2, 0)));

    assert_eq!(parse_duration("3secs"), Ok(Duration::new(3, 0)));
    assert_eq!(parse_duration("3 secs"), Ok(Duration::new(3, 0)));

    assert_eq!(parse_duration("4sec"), Ok(Duration::new(4, 0)));
    assert_eq!(parse_duration("4 sec"), Ok(Duration::new(4, 0)));

    assert_eq!(parse_duration("5s"), Ok(Duration::new(5, 0)));
    assert_eq!(parse_duration("5 s"), Ok(Duration::new(5, 0)));
}

#[test]
fn test_minutes() {
    assert_eq!(parse_duration("1minutes"), Ok(Duration::new(1 * 60, 0)));
    assert_eq!(parse_duration("1 minutes"), Ok(Duration::new(1 * 60, 0)));

    assert_eq!(parse_duration("2minute"), Ok(Duration::new(2 * 60, 0)));
    assert_eq!(parse_duration("2 minute"), Ok(Duration::new(2 * 60, 0)));

    assert_eq!(parse_duration("3mins"), Ok(Duration::new(3 * 60, 0)));
    assert_eq!(parse_duration("3 mins"), Ok(Duration::new(3 * 60, 0)));

    assert_eq!(parse_duration("4min"), Ok(Duration::new(4 * 60, 0)));
    assert_eq!(parse_duration("4 min"), Ok(Duration::new(4 * 60, 0)));

    assert_eq!(parse_duration("5m"), Ok(Duration::new(5 * 60, 0)));
    assert_eq!(parse_duration("5 m"), Ok(Duration::new(5 * 60, 0)));
}

#[test]
fn test_hours() {
    assert_eq!(parse_duration("1hours"), Ok(Duration::new(1 * 3600, 0)));
    assert_eq!(parse_duration("1 hours"), Ok(Duration::new(1 * 3600, 0)));

    assert_eq!(parse_duration("2hour"), Ok(Duration::new(2 * 3600, 0)));
    assert_eq!(parse_duration("2 hour"), Ok(Duration::new(2 * 3600, 0)));

    assert_eq!(parse_duration("3hrs"), Ok(Duration::new(3 * 3600, 0)));
    assert_eq!(parse_duration("3 hrs"), Ok(Duration::new(3 * 3600, 0)));

    assert_eq!(parse_duration("4hr"), Ok(Duration::new(4 * 3600, 0)));
    assert_eq!(parse_duration("4 hr"), Ok(Duration::new(4 * 3600, 0)));

    assert_eq!(parse_duration("5h"), Ok(Duration::new(5 * 3600, 0)));
    assert_eq!(parse_duration("5 h"), Ok(Duration::new(5 * 3600, 0)));

    assert_eq!(parse_duration("5H"), Ok(Duration::new(5 * 3600, 0)));
    assert_eq!(parse_duration("5 H"), Ok(Duration::new(5 * 3600, 0)));
}

#[test]
fn test_days() {
    assert_eq!(parse_duration("1days"), Ok(Duration::new(1 * 86400, 0)));
    assert_eq!(parse_duration("1 days"), Ok(Duration::new(1 * 86400, 0)));

    assert_eq!(parse_duration("2day"), Ok(Duration::new(2 * 86400, 0)));
    assert_eq!(parse_duration("2 day"), Ok(Duration::new(2 * 86400, 0)));

    assert_eq!(parse_duration("3dys"), Ok(Duration::new(3 * 86400, 0)));
    assert_eq!(parse_duration("3 dys"), Ok(Duration::new(3 * 86400, 0)));

    assert_eq!(parse_duration("4dy"), Ok(Duration::new(4 * 86400, 0)));
    assert_eq!(parse_duration("4 dy"), Ok(Duration::new(4 * 86400, 0)));

    assert_eq!(parse_duration("5d"), Ok(Duration::new(5 * 86400, 0)));
    assert_eq!(parse_duration("5 d"), Ok(Duration::new(5 * 86400, 0)));

    assert_eq!(parse_duration("5D"), Ok(Duration::new(5 * 86400, 0)));
    assert_eq!(parse_duration("5 D"), Ok(Duration::new(5 * 86400, 0)));
}

#[test]
fn test_weeks() {
    assert_eq!(parse_duration("1weeks"), Ok(Duration::new(1 * 604_800, 0)));
    assert_eq!(parse_duration("1 weeks"), Ok(Duration::new(1 * 604_800, 0)));

    assert_eq!(parse_duration("2week"), Ok(Duration::new(2 * 604_800, 0)));
    assert_eq!(parse_duration("2 week"), Ok(Duration::new(2 * 604_800, 0)));

    assert_eq!(parse_duration("3wks"), Ok(Duration::new(3 * 604_800, 0)));
    assert_eq!(parse_duration("3 wks"), Ok(Duration::new(3 * 604_800, 0)));

    assert_eq!(parse_duration("4wk"), Ok(Duration::new(4 * 604_800, 0)));
    assert_eq!(parse_duration("4 wk"), Ok(Duration::new(4 * 604_800, 0)));

    assert_eq!(parse_duration("5w"), Ok(Duration::new(5 * 604_800, 0)));
    assert_eq!(parse_duration("5 w"), Ok(Duration::new(5 * 604_800, 0)));

    assert_eq!(parse_duration("5W"), Ok(Duration::new(5 * 604_800, 0)));
    assert_eq!(parse_duration("5 W"), Ok(Duration::new(5 * 604_800, 0)));
}

#[test]
fn test_months() {
    assert_eq!(parse_duration("1months"), Ok(Duration::new(1 * 2_630_016, 0)));
    assert_eq!(parse_duration("1 months"), Ok(Duration::new(1 * 2_630_016, 0)));

    assert_eq!(parse_duration("2month"), Ok(Duration::new(2 * 2_630_016, 0)));
    assert_eq!(parse_duration("2 month"), Ok(Duration::new(2 * 2_630_016, 0)));

    assert_eq!(parse_duration("3mths"), Ok(Duration::new(3 * 2_630_016, 0)));
    assert_eq!(parse_duration("3 mths"), Ok(Duration::new(3 * 2_630_016, 0)));

    assert_eq!(parse_duration("4mth"), Ok(Duration::new(4 * 2_630_016, 0)));
    assert_eq!(parse_duration("4 mth"), Ok(Duration::new(4 * 2_630_016, 0)));

    assert_eq!(parse_duration("5M"), Ok(Duration::new(5 * 2_630_016, 0)));
    assert_eq!(parse_duration("5 M"), Ok(Duration::new(5 * 2_630_016, 0)));
}

#[test]
fn test_years() {
    assert_eq!(parse_duration("1years"), Ok(Duration::new(1 * 31_557_600, 0)));
    assert_eq!(parse_duration("1 years"), Ok(Duration::new(1 * 31_557_600, 0)));

    assert_eq!(parse_duration("2year"), Ok(Duration::new(2 * 31_557_600, 0)));
    assert_eq!(parse_duration("2 year"), Ok(Duration::new(2 * 31_557_600, 0)));

    assert_eq!(parse_duration("3yrs"), Ok(Duration::new(3 * 31_557_600, 0)));
    assert_eq!(parse_duration("3 yrs"), Ok(Duration::new(3 * 31_557_600, 0)));

    assert_eq!(parse_duration("4yr"), Ok(Duration::new(4 * 31_557_600, 0)));
    assert_eq!(parse_duration("4 yr"), Ok(Duration::new(4 * 31_557_600, 0)));

    assert_eq!(parse_duration("5y"), Ok(Duration::new(5 * 31_557_600, 0)));
    assert_eq!(parse_duration("5 y"), Ok(Duration::new(5 * 31_557_600, 0)));

    assert_eq!(parse_duration("5Y"), Ok(Duration::new(5 * 31_557_600, 0)));
    assert_eq!(parse_duration("5 Y"), Ok(Duration::new(5 * 31_557_600, 0)));
}

#[test]
fn test_fractions() {
    assert_eq!(parse_duration(".5m"), Ok(Duration::new(30, 0)));
    assert_eq!(parse_duration("1.5m"), Ok(Duration::new(90, 0)));
    assert_eq!(parse_duration("3.44d"), Ok(Duration::new(297_216, 0)));
    assert_eq!(parse_duration("0.0001 days"), Ok(Duration::new(8, 640_000_000)));
    assert_eq!(parse_duration("11e-1 days"), Ok(Duration::new(95_040, 0)));
    assert_eq!(parse_duration("11.2e-1 days"), Ok(Duration::new(96_768, 0)));
}

#[test]
fn allow_0_with_no_unit() {
    assert_eq!(parse_duration("0"), Ok(Duration::new(0, 0)));
}

#[test]
fn test_combo() {
    assert_eq!(parse_duration("20 min 17 nsec"), Ok(Duration::new(1200, 17)));
    assert_eq!(parse_duration("20min17nsec"), Ok(Duration::new(1200, 17)));
    assert_eq!(parse_duration("2h 15m"), Ok(Duration::new(8100, 0)));
    assert_eq!(parse_duration("2hand15m"), Ok(Duration::new(8100, 0)));
    assert_eq!(parse_duration("2h and 15m"), Ok(Duration::new(8100, 0)));
    assert_eq!(parse_duration("2hand 15m"), Ok(Duration::new(8100, 0)));
}
