use logterm::timestamp::{
    absolute, elapsed_millis, fit, format_diff, format_timestamp, DateFormat, Timestamp,
};

#[test]
fn written_time_is_cut_to_the_width() {
    assert_eq!(fit(Some("12:34:56.789000000"), 12), "12:34:56.789");
    assert_eq!(fit(Some("01-02"), 5), "01-02");
    assert_eq!(fit(Some("01-02"), 0), "");
}

#[test]
fn written_time_that_is_short_stays_short() {
    assert_eq!(fit(Some("01-02"), 12), "01-02");
    assert_eq!(fit(Some(""), 12), "");
}

#[test]
fn failed_time_is_blank() {
    assert_eq!(fit(None, 12), "            ");
    assert_eq!(fit(None, 0), "");
}

#[test]
fn absolute_drops_the_sign() {
    assert_eq!(absolute(0), 0);
    assert_eq!(absolute(1500), 1500);
    assert_eq!(absolute(-1500), 1500);
    assert_eq!(absolute(i64::MAX), 9_223_372_036_854_775_807);
    assert_eq!(absolute(i64::MIN), 9_223_372_036_854_775_808);
    assert_eq!(absolute(i64::MIN + 1), 9_223_372_036_854_775_807);
}

fn at(hour: i32, minute: i32, second: i32, millis: i32) -> Timestamp {
    Timestamp::new(118, 0, 2, hour, minute, second, millis * 1_000_000)
}

#[test]
fn timestamp_holds_its_fields() {
    let at = Timestamp::new(118, 5, 15, 10, 20, 30, 400);
    assert_eq!(
        at,
        Timestamp {
            year: 118,
            month: 5,
            day: 15,
            hour: 10,
            minute: 20,
            second: 30,
            nanosecond: 400
        }
    );
}

#[test]
fn timestamp_takes_any_fields() {
    let at = Timestamp::new(i32::MAX, i32::MIN, 0, -1, 99, 61, -5);
    assert_eq!(at.year, i32::MAX);
    assert_eq!(at.month, i32::MIN);
    assert_eq!(at.day, 0);
    assert_eq!(at.hour, -1);
    assert_eq!(at.minute, 99);
    assert_eq!(at.second, 61);
    assert_eq!(at.nanosecond, -5);
}

#[test]
fn calendar_dates() {
    assert!(Timestamp::new(118, 0, 1, 0, 0, 0, 0).in_calendar());
    assert!(Timestamp::new(118, 11, 31, 23, 59, 59, 999_999_999).in_calendar());
    assert!(Timestamp::new(0, 5, 30, 12, 0, 0, 0).in_calendar());
    assert!(Timestamp::new(-299, 0, 1, 0, 0, 0, 0).in_calendar());
    assert!(Timestamp::new(8099, 11, 31, 23, 59, 59, 0).in_calendar());
}

#[test]
fn years_outside_the_calendar() {
    assert!(!Timestamp::new(-300, 11, 31, 23, 59, 59, 0).in_calendar());
    assert!(!Timestamp::new(8100, 0, 1, 0, 0, 0, 0).in_calendar());
    assert!(!Timestamp::new(i32::MAX, 0, 1, 0, 0, 0, 0).in_calendar());
    assert!(!Timestamp::new(i32::MIN, 0, 1, 0, 0, 0, 0).in_calendar());
}

#[test]
fn months_outside_the_calendar() {
    assert!(!Timestamp::new(118, 12, 1, 0, 0, 0, 0).in_calendar());
    assert!(!Timestamp::new(118, -1, 1, 0, 0, 0, 0).in_calendar());
}

#[test]
fn days_outside_their_month() {
    let lengths = [31, 28, 31, 30, 31, 30, 31, 31, 30, 31, 30, 31];
    for (month, length) in lengths.iter().enumerate() {
        let month = month as i32;
        assert!(!Timestamp::new(118, month, 0, 0, 0, 0, 0).in_calendar());
        assert!(Timestamp::new(118, month, 1, 0, 0, 0, 0).in_calendar());
        assert!(Timestamp::new(118, month, *length, 0, 0, 0, 0).in_calendar());
        assert!(!Timestamp::new(118, month, *length + 1, 0, 0, 0, 0).in_calendar());
    }
    assert!(!Timestamp::new(118, 0, 40, 0, 0, 0, 0).in_calendar());
}

#[test]
fn february_in_leap_years() {
    assert!(Timestamp::new(116, 1, 29, 0, 0, 0, 0).in_calendar());
    assert!(!Timestamp::new(116, 1, 30, 0, 0, 0, 0).in_calendar());
    assert!(!Timestamp::new(117, 1, 29, 0, 0, 0, 0).in_calendar());
    assert!(Timestamp::new(100, 1, 29, 0, 0, 0, 0).in_calendar());
    assert!(!Timestamp::new(0, 1, 29, 0, 0, 0, 0).in_calendar());
    assert!(!Timestamp::new(200, 1, 29, 0, 0, 0, 0).in_calendar());
    assert!(Timestamp::new(500, 1, 29, 0, 0, 0, 0).in_calendar());
}

#[test]
fn times_outside_the_day() {
    assert!(!Timestamp::new(118, 0, 1, 24, 0, 0, 0).in_calendar());
    assert!(!Timestamp::new(118, 0, 1, -1, 0, 0, 0).in_calendar());
    assert!(!Timestamp::new(118, 0, 1, 0, 60, 0, 0).in_calendar());
    assert!(!Timestamp::new(118, 0, 1, 0, -1, 0, 0).in_calendar());
    assert!(!Timestamp::new(118, 0, 1, 0, 0, 60, 0).in_calendar());
    assert!(!Timestamp::new(118, 0, 1, 0, 0, 70, 0).in_calendar());
    assert!(!Timestamp::new(118, 0, 1, 0, 0, -1, 0).in_calendar());
    assert!(!Timestamp::new(118, 0, 1, 0, 0, 0, 1_000_000_000).in_calendar());
    assert!(!Timestamp::new(118, 0, 1, 0, 0, 0, -1).in_calendar());
}

#[test]
fn date_format_is_selected_by_two_switches() {
    assert_eq!(DateFormat::select(true, false), DateFormat::DateTime);
    assert_eq!(DateFormat::select(true, true), DateFormat::Date);
    assert_eq!(DateFormat::select(false, false), DateFormat::Time);
    assert_eq!(DateFormat::select(false, true), DateFormat::Hidden);
}

#[test]
fn date_format_patterns_and_widths() {
    assert_eq!(DateFormat::DateTime.pattern(), "%m-%d %H:%M:%S.%f");
    assert_eq!(DateFormat::DateTime.width(), 18);
    assert_eq!(DateFormat::Date.pattern(), "%m-%d");
    assert_eq!(DateFormat::Date.width(), 5);
    assert_eq!(DateFormat::Time.pattern(), "%H:%M:%S.%f");
    assert_eq!(DateFormat::Time.width(), 12);
    assert_eq!(DateFormat::Hidden.pattern(), "");
    assert_eq!(DateFormat::Hidden.width(), 0);
}

#[test]
fn time_of_day_is_cut_to_milliseconds() {
    assert_eq!(format_timestamp(DateFormat::Time, &at(12, 34, 56, 789)), "12:34:56.789");
    assert_eq!(format_timestamp(DateFormat::Time, &at(1, 2, 3, 4)), "01:02:03.004");
}

#[test]
fn date_and_time() {
    assert_eq!(
        format_timestamp(DateFormat::DateTime, &at(12, 34, 56, 789)),
        "01-02 12:34:56.789"
    );
    let new_years_eve = Timestamp::new(118, 11, 31, 23, 59, 59, 999_999_999);
    assert_eq!(format_timestamp(DateFormat::DateTime, &new_years_eve), "12-31 23:59:59.999");
}

#[test]
fn date_alone() {
    assert_eq!(format_timestamp(DateFormat::Date, &at(12, 34, 56, 789)), "01-02");
}

#[test]
fn hidden_time_is_empty() {
    assert_eq!(format_timestamp(DateFormat::Hidden, &at(12, 34, 56, 789)), "");
}

#[test]
fn time_outside_the_calendar_is_blank() {
    let thirteenth_month = Timestamp::new(118, 12, 1, 10, 0, 0, 0);
    assert_eq!(format_timestamp(DateFormat::Time, &thirteenth_month), "            ");
    assert_eq!(format_timestamp(DateFormat::DateTime, &thirteenth_month), " ".repeat(18));
    assert_eq!(format_timestamp(DateFormat::Date, &thirteenth_month), "     ");
    assert_eq!(format_timestamp(DateFormat::Hidden, &thirteenth_month), "");
}

#[test]
fn elapsed_time_in_milliseconds() {
    assert_eq!(elapsed_millis(&at(12, 0, 1, 500), &at(12, 0, 0, 0)), Some(1500));
    assert_eq!(elapsed_millis(&at(13, 0, 0, 0), &at(12, 0, 0, 0)), Some(3_600_000));
    assert_eq!(elapsed_millis(&at(12, 0, 0, 7), &at(12, 0, 0, 0)), Some(7));
    assert_eq!(elapsed_millis(&at(12, 0, 0, 0), &at(12, 0, 0, 0)), Some(0));
}

#[test]
fn elapsed_time_has_no_sign() {
    assert_eq!(elapsed_millis(&at(12, 0, 0, 0), &at(12, 0, 1, 500)), Some(1500));
    assert_eq!(elapsed_millis(&at(11, 59, 59, 999), &at(12, 0, 0, 0)), Some(1));
}

#[test]
fn elapsed_time_across_days_and_years() {
    let first = Timestamp::new(118, 0, 1, 0, 0, 0, 0);
    let next_day = Timestamp::new(118, 0, 2, 0, 0, 0, 0);
    let next_year = Timestamp::new(119, 0, 1, 0, 0, 0, 0);
    let after_leap_year = Timestamp::new(121, 0, 1, 0, 0, 0, 0);
    assert_eq!(elapsed_millis(&next_day, &first), Some(86_400_000));
    assert_eq!(elapsed_millis(&next_year, &first), Some(365 * 86_400_000));
    assert_eq!(elapsed_millis(&after_leap_year, &next_year), Some((365 + 366) * 86_400_000));
}

#[test]
fn elapsed_time_in_a_year_without_a_number() {
    let first = Timestamp::new(0, 5, 15, 10, 0, 0, 0);
    let second = Timestamp::new(0, 5, 15, 10, 0, 2, 250_000_000);
    assert_eq!(elapsed_millis(&second, &first), Some(2250));
}

#[test]
fn elapsed_time_over_the_whole_calendar() {
    let first = Timestamp::new(-299, 0, 1, 0, 0, 0, 0);
    let last = Timestamp::new(8099, 11, 31, 23, 59, 59, 999_999_999);
    let days: u64 = 8399 * 365 + 2036;
    assert_eq!(elapsed_millis(&last, &first), Some(days * 86_400_000 - 1));
    assert_eq!(elapsed_millis(&first, &last), Some(days * 86_400_000 - 1));
}

#[test]
fn no_elapsed_time_outside_the_calendar() {
    let inside = at(12, 0, 0, 0);
    let outside = [
        Timestamp::new(118, 12, 1, 0, 0, 0, 0),
        Timestamp::new(118, 0, 40, 0, 0, 0, 0),
        Timestamp::new(118, 0, 1, 0, 0, 70, 0),
        Timestamp::new(118, 1, 30, 0, 0, 0, 0),
        Timestamp::new(i32::MAX, 0, 1, 0, 0, 0, 0),
        Timestamp::new(118, 0, 1, 0, 0, 0, -1),
    ];
    for other in outside.iter() {
        assert_eq!(elapsed_millis(&inside, other), None);
        assert_eq!(elapsed_millis(other, &inside), None);
        assert_eq!(elapsed_millis(other, other), None);
    }
}

#[test]
fn diff_is_seconds_and_three_digits() {
    assert_eq!(format_diff(1500, 8), "1.500");
    assert_eq!(format_diff(1005, 8), "1.005");
    assert_eq!(format_diff(0, 8), "0.000");
    assert_eq!(format_diff(42, 8), "0.042");
    assert_eq!(format_diff(999, 5), "0.999");
    assert_eq!(format_diff(61_001, 8), "61.001");
}

#[test]
fn diff_that_just_fits() {
    assert_eq!(format_diff(1_234_567, 8), "1234.567");
    assert_eq!(format_diff(9_999_999, 8), "9999.999");
    assert_eq!(format_diff(1500, 5), "1.500");
}

#[test]
fn diff_that_is_too_wide_is_a_placeholder() {
    assert_eq!(format_diff(10_000_000, 8), "-.---");
    assert_eq!(format_diff(12_345_678, 8), "-.---");
    assert_eq!(format_diff(1500, 4), "-.---");
    assert_eq!(format_diff(0, 0), "-.---");
    assert_eq!(format_diff(u64::MAX, 8), "-.---");
}

#[test]
fn diff_of_the_largest_time() {
    assert_eq!(format_diff(u64::MAX, 30), "18446744073709551.615");
}

#[test]
fn time_of_any_fields_is_displayed_or_blank() {
    let most = i32::MAX;
    let least = i32::MIN;
    let last = Timestamp::new(most, 11, most, most, most, most, most);
    assert_eq!(format_timestamp(DateFormat::Time, &last), "2147483647:2");
    assert_eq!(format_timestamp(DateFormat::DateTime, &last), "12-2147483647 2147");
    assert_eq!(format_timestamp(DateFormat::Date, &last), "12-21");
    let first = Timestamp::new(least, 0, least, least, least, least, least);
    assert_eq!(format_timestamp(DateFormat::Time, &first), "-2147483648:");
    let nowhere = Timestamp::new(least, least, least, least, 0, 0, 0);
    assert_eq!(format_timestamp(DateFormat::DateTime, &nowhere), " ".repeat(18));
    let beyond = Timestamp::new(0, most, 1, 0, 0, 0, 0);
    assert_eq!(format_timestamp(DateFormat::Time, &beyond), " ".repeat(12));
}
