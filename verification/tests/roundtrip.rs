use humantime::{parse_duration, Duration};

// The external canonical formatter for whole-second durations: largest units
// first, years and months as the calendar-approximate 365.25 and 30.44 days,
// zero components skipped, and the zero duration written "0s".
fn format_duration(d: Duration) -> String {
    let secs = d.as_secs();
    if secs == 0 && d.subsec_nanos() == 0 {
        return "0s".to_string();
    }
    let years = secs / 31_557_600;
    let ydays = secs % 31_557_600;
    let months = ydays / 2_630_016;
    let mdays = ydays % 2_630_016;
    let days = mdays / 86400;
    let day_secs = mdays % 86400;
    let hours = day_secs / 3600;
    let minutes = day_secs % 3600 / 60;
    let seconds = day_secs % 60;

    let mut out = String::new();
    let mut push = |value: u64, name: &str, plural: bool| {
        if value > 0 {
            if !out.is_empty() {
                out.push(' ');
            }
            out.push_str(&value.to_string());
            out.push_str(name);
            if plural && value > 1 {
                out.push('s');
            }
        }
    };
    push(years, "year", true);
    push(months, "month", true);
    push(days, "day", true);
    push(hours, "h", false);
    push(minutes, "m", false);
    push(seconds, "s", false);
    out
}

#[test]
fn all_86400_seconds() {
    for second in 0..86400u64 {
        let d = Duration::new(second, 0);
        assert_eq!(d, parse_duration(&format_duration(d)).unwrap());
    }
}

#[test]
fn random_second() {
    for _ in 0..10000 {
        let sec = rand::random_range(0..253_370_764_800u64);
        let d = Duration::new(sec, 0);
        assert_eq!(d, parse_duration(&format_duration(d)).unwrap());
    }
}
