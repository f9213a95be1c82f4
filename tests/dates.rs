use stock_download::calendar::CalendarDate;

#[test]
fn february_thirtieth_is_rejected() {
    assert!(CalendarDate::from_ymd_opt(2021, 2, 30).is_none());
}

#[test]
fn impossible_month_and_day_are_rejected() {
    assert!(CalendarDate::from_ymd_opt(2021, 13, 1).is_none());
    assert!(CalendarDate::from_ymd_opt(2021, 0, 1).is_none());
    assert!(CalendarDate::from_ymd_opt(2021, 4, 31).is_none());
    assert!(CalendarDate::from_ymd_opt(2021, 1, 0).is_none());
}

#[test]
fn leap_days_follow_the_gregorian_rule() {
    assert!(CalendarDate::from_ymd_opt(2024, 2, 29).is_some());
    assert!(CalendarDate::from_ymd_opt(2023, 2, 29).is_none());
    assert!(CalendarDate::from_ymd_opt(1900, 2, 29).is_none());
    assert!(CalendarDate::from_ymd_opt(2000, 2, 29).is_some());
}

#[test]
fn years_outside_the_supported_range_are_rejected() {
    assert!(CalendarDate::from_ymd_opt(262142, 12, 31).is_some());
    assert!(CalendarDate::from_ymd_opt(262143, 1, 1).is_none());
    assert!(CalendarDate::from_ymd_opt(-262143, 1, 1).is_some());
    assert!(CalendarDate::from_ymd_opt(-262144, 12, 31).is_none());
}

#[test]
fn accepted_date_keeps_its_fields() {
    let d = CalendarDate::from_ymd_opt(2023, 7, 14).unwrap();
    assert_eq!((d.year(), d.month(), d.day()), (2023, 7, 14));
}

#[test]
fn midnight_timestamps() {
    assert_eq!(CalendarDate::from_ymd_opt(1970, 1, 1).unwrap().timestamp(), 0);
    assert_eq!(CalendarDate::from_ymd_opt(2021, 1, 1).unwrap().timestamp(), 1609459200);
    assert_eq!(CalendarDate::from_ymd_opt(2015, 5, 15).unwrap().timestamp(), 1431648000);
    assert_eq!(CalendarDate::from_ymd_opt(1969, 12, 31).unwrap().timestamp(), -86400);
}

#[test]
fn consecutive_days_are_a_day_apart() {
    let last = CalendarDate::from_ymd_opt(2020, 12, 31).unwrap().timestamp();
    let first = CalendarDate::from_ymd_opt(2021, 1, 1).unwrap().timestamp();
    assert_eq!(first - last, 86400);
}

#[test]
fn year_zero_is_a_leap_year_before_the_common_era() {
    assert!(CalendarDate::from_ymd_opt(0, 2, 29).is_some());
    assert_eq!(CalendarDate::from_ymd_opt(0, 1, 1).unwrap().timestamp(), -62167219200);
}
