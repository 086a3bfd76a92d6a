use distribbuidora_pdv::timestamp::{leap_year, month_length, Timestamp};

fn ts(year: u16, month: u8, day: u8, hour: u8, minute: u8, second: u8) -> Timestamp {
    Timestamp::new(year, month, day, hour, minute, second).unwrap()
}

#[test]
fn timestamps_are_real_dates_and_times() {
    assert!(Timestamp::new(2024, 2, 29, 0, 0, 0).is_some());
    assert!(Timestamp::new(2023, 2, 29, 0, 0, 0).is_none());
    assert!(Timestamp::new(1900, 2, 29, 0, 0, 0).is_none());
    assert!(Timestamp::new(2000, 2, 29, 0, 0, 0).is_some());
    assert!(Timestamp::new(2024, 4, 31, 0, 0, 0).is_none());
    assert!(Timestamp::new(2024, 0, 1, 0, 0, 0).is_none());
    assert!(Timestamp::new(2024, 13, 1, 0, 0, 0).is_none());
    assert!(Timestamp::new(2024, 1, 0, 0, 0, 0).is_none());
    assert!(Timestamp::new(2024, 1, 1, 24, 0, 0).is_none());
    assert!(Timestamp::new(2024, 1, 1, 0, 60, 0).is_none());
    assert!(Timestamp::new(2024, 1, 1, 0, 0, 60).is_none());
    assert!(Timestamp::new(10000, 1, 1, 0, 0, 0).is_none());
    assert!(Timestamp::new(0, 1, 1, 0, 0, 0).is_some());
    assert!(Timestamp::new(9999, 12, 31, 23, 59, 59).is_some());
}

#[test]
fn fields_read_back() {
    let t = ts(2024, 5, 17, 10, 30, 59);
    assert_eq!(
        (t.year(), t.month(), t.day(), t.hour(), t.minute(), t.second()),
        (2024, 5, 17, 10, 30, 59)
    );
}

#[test]
fn leap_years_follow_the_gregorian_rule() {
    assert!(leap_year(2024));
    assert!(!leap_year(2023));
    assert!(!leap_year(1900));
    assert!(leap_year(2000));
    assert!(leap_year(0));
    assert_eq!(month_length(2024, 2), 29);
    assert_eq!(month_length(2023, 2), 28);
    assert_eq!(month_length(2023, 12), 31);
    assert_eq!(month_length(2023, 11), 30);
    assert_eq!(month_length(2023, 0), 0);
    assert_eq!(month_length(2023, 13), 0);
}

#[test]
fn day_numbers_count_from_the_first_day_of_year_zero() {
    assert_eq!(ts(0, 1, 1, 0, 0, 0).day_of_era(), 0);
    assert_eq!(ts(0, 12, 31, 0, 0, 0).day_of_era(), 365);
    assert_eq!(ts(1, 1, 1, 0, 0, 0).day_of_era(), 366);
    assert_eq!(ts(1970, 1, 1, 0, 0, 0).day_of_era(), 719528);
    assert_eq!(ts(2024, 2, 29, 0, 0, 0).day_of_era(), 739310);
    assert_eq!(ts(2024, 3, 1, 0, 0, 0).day_of_era(), 739311);
    assert_eq!(
        ts(2025, 1, 1, 0, 0, 0).day_of_era() - ts(2024, 1, 1, 0, 0, 0).day_of_era(),
        366
    );
    assert_eq!(
        ts(2101, 1, 1, 0, 0, 0).day_of_era() - ts(2100, 1, 1, 0, 0, 0).day_of_era(),
        365
    );
}

#[test]
fn seconds_follow_the_clock() {
    assert_eq!(ts(0, 1, 1, 0, 0, 0).seconds(), 0);
    assert_eq!(ts(0, 1, 1, 1, 1, 1).seconds(), 3661);
    assert_eq!(ts(1970, 1, 1, 0, 0, 0).seconds(), 719528 * 86400);
    assert_eq!(
        ts(2024, 1, 1, 0, 0, 0).seconds() - ts(2023, 12, 31, 23, 59, 59).seconds(),
        1
    );
    assert_eq!(
        ts(2024, 5, 31, 12, 0, 0).seconds() - ts(2024, 5, 1, 12, 0, 0).seconds(),
        30 * 86400
    );
}

#[test]
fn same_day_and_same_month() {
    let a = ts(2024, 5, 17, 0, 0, 0);
    assert!(a.on_same_day(&ts(2024, 5, 17, 23, 59, 59)));
    assert!(!a.on_same_day(&ts(2024, 5, 18, 0, 0, 0)));
    assert!(!a.on_same_day(&ts(2024, 6, 17, 0, 0, 0)));
    assert!(!a.on_same_day(&ts(2023, 5, 17, 0, 0, 0)));
    assert!(a.in_same_month(&ts(2024, 5, 1, 0, 0, 0)));
    assert!(!a.in_same_month(&ts(2023, 5, 17, 0, 0, 0)));
    assert!(!a.in_same_month(&ts(2024, 4, 17, 0, 0, 0)));
}

#[test]
fn timestamps_are_written_with_padding() {
    assert_eq!(ts(2024, 5, 7, 9, 3, 1).render(), "2024-05-07 09:03:01");
    assert_eq!(ts(0, 1, 1, 0, 0, 0).render(), "0000-01-01 00:00:00");
    assert_eq!(ts(987, 12, 31, 23, 59, 59).render(), "0987-12-31 23:59:59");
    assert_eq!(ts(9999, 10, 10, 10, 10, 10).render(), "9999-10-10 10:10:10");
}

#[test]
fn timestamps_are_read_back() {
    assert_eq!(Timestamp::parse("2024-05-07 09:03:01"), Some(ts(2024, 5, 7, 9, 3, 1)));
    assert_eq!(Timestamp::parse("0000-01-01 00:00:00"), Some(ts(0, 1, 1, 0, 0, 0)));
    for t in [ts(2024, 2, 29, 23, 59, 59), ts(1999, 12, 31, 0, 0, 0), ts(30, 6, 15, 12, 30, 45)] {
        assert_eq!(Timestamp::parse(&t.render()), Some(t));
    }
}

#[test]
fn malformed_timestamps_are_not_read() {
    for text in [
        "",
        "2024-05-07",
        "2024-05-07T09:03:01",
        "2024-05-07 09:03:1",
        "2024-05-07 09:03:010",
        "2024/05/07 09:03:01",
        "2024-05-07 09.03.01",
        "2024-02-30 09:03:01",
        "2024-13-07 09:03:01",
        "2024-05-07 24:00:00",
        "20a4-05-07 09:03:01",
        "2024-05-07 09:03:0١",
        " 2024-05-07 09:03:01",
        "+024-05-07 09:03:01",
    ] {
        assert_eq!(Timestamp::parse(text), None, "{}", text);
    }
}
