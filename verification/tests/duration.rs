use planif::settings::{format_duration, Duration};

#[test]
fn macro_test() {
    let mut s = String::new();
    format_duration(&mut s, Some(2), "Y");
    format_duration(&mut s, Some(1), "D");
    assert_eq!(s, "2Y1D");
}

#[test]
fn duration_all_set() {
    let d = Duration {
        years: Some(1),
        months: Some(2),
        days: Some(3),
        hours: Some(4),
        minutes: Some(5),
        seconds: Some(6),
    };

    assert_eq!("P1Y2M3DT4H5M6S", d.to_string());
}

#[test]
fn duration_time_only() {
    let mut d = Duration::new();
    d.hours = Some(1);
    d.minutes = Some(2);
    d.seconds = Some(3);

    assert_eq!("PT1H2M3S", d.to_string());
}

#[test]
fn duration_zero_year_removed() {
    let mut d = Duration::new();
    d.years = Some(0);

    assert_eq!("P", d.to_string());
}

#[test]
fn duration_all_absent_is_bare_marker() {
    assert_eq!("P", Duration::new().to_string());
    assert_eq!("P", Duration::default().to_string());
}

#[test]
fn duration_seconds_alone_has_time_part() {
    let mut d = Duration::new();
    d.seconds = Some(30);
    assert_eq!("PT30S", d.to_string());
}

#[test]
fn duration_zero_time_field_is_absent() {
    let mut d = Duration::new();
    d.days = Some(4);
    d.minutes = Some(0);
    assert_eq!("P4D", d.to_string());

    let mut d = Duration::new();
    d.hours = Some(0);
    assert_eq!("P", d.to_string());

    let mut d = Duration::new();
    d.hours = Some(0);
    d.minutes = Some(0);
    d.seconds = Some(0);
    assert_eq!("P", d.to_string());
}

#[test]
fn duration_zero_time_field_beside_a_positive_one() {
    let mut d = Duration::new();
    d.hours = Some(0);
    d.seconds = Some(9);
    assert_eq!("PT9S", d.to_string());
}

#[test]
fn duration_date_only() {
    let mut d = Duration::new();
    d.months = Some(1);
    d.days = Some(4);
    assert_eq!("P1M4D", d.to_string());
}

#[test]
fn duration_many_digits() {
    let mut d = Duration::new();
    d.years = Some(10);
    d.days = Some(1234567890);
    d.minutes = Some(905);
    assert_eq!("P10Y1234567890DT905M", d.to_string());
}

#[test]
fn duration_largest_number() {
    let mut d = Duration::new();
    d.hours = Some(usize::MAX);
    assert_eq!(format!("PT{}H", usize::MAX), d.to_string());
}

#[test]
fn format_duration_skips_unset_and_zero() {
    let mut s = String::from("x");
    format_duration(&mut s, None, "Y");
    assert_eq!(s, "x");
    format_duration(&mut s, Some(0), "Y");
    assert_eq!(s, "x");
    format_duration(&mut s, Some(7), "Y");
    assert_eq!(s, "x7Y");
    format_duration(&mut s, Some(100), "M");
    assert_eq!(s, "x7Y100M");
}

#[test]
fn format_duration_matches_std_numerals() {
    for n in [1usize, 9, 10, 11, 99, 100, 101, 1000, 65535, 4294967295] {
        let mut s = String::new();
        format_duration(&mut s, Some(n), "S");
        assert_eq!(s, format!("{}S", n));
    }
}
