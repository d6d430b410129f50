use drg_chs10::Date;

#[test]
fn calendar_days_are_checked() {
    assert!(Date::from_ymd(2024, 2, 29).is_some());
    assert!(Date::from_ymd(2023, 2, 29).is_none());
    assert!(Date::from_ymd(1900, 2, 29).is_none());
    assert!(Date::from_ymd(2000, 2, 29).is_some());
    assert!(Date::from_ymd(2023, 4, 31).is_none());
    assert!(Date::from_ymd(2023, 13, 1).is_none());
    assert!(Date::from_ymd(2023, 0, 1).is_none());
    assert!(Date::from_ymd(2023, 1, 0).is_none());
    assert!(Date::from_ymd(-4, 2, 29).is_some());
    assert!(Date::from_ymd(262142, 12, 31).is_some());
    assert!(Date::from_ymd(262143, 1, 1).is_none());
    assert!(Date::from_ymd(-262143, 1, 1).is_some());
    assert!(Date::from_ymd(-262144, 1, 1).is_none());
}

#[test]
fn dates_order_by_year_month_day() {
    let a = Date::from_ymd(2024, 4, 2).unwrap();
    let b = Date::from_ymd(2024, 4, 3).unwrap();
    let c = Date::from_ymd(2023, 12, 31).unwrap();
    assert!(a.is_on_or_before(&b));
    assert!(!b.is_on_or_before(&a));
    assert!(a.is_on_or_before(&a));
    assert!(c.is_on_or_before(&a));
    assert_eq!((a.year(), a.month(), a.day()), (2024, 4, 2));
}
