use r2cn_core::date::{contract_end_month, current_month, get_last_month, month_of_unix_seconds, CalendarDate};

#[test]
pub fn test_get_last_month() {
    let date = CalendarDate::new(2025, 1, 1);
    let test1 = get_last_month(date);
    assert_eq!(test1, CalendarDate::new(2024, 12, 1));
    let date2 = CalendarDate::new(2024, 10, 1);
    let test2 = get_last_month(date2);
    assert_eq!(test2, CalendarDate::new(2024, 9, 1));
}

#[test]
fn last_month_drops_the_day() {
    assert_eq!(get_last_month(CalendarDate::new(2025, 3, 31)), CalendarDate::new(2025, 2, 1));
}

#[test]
fn contract_deadline_is_truncated_to_its_month() {
    let d = contract_end_month("2025-06-17 10:20:30").unwrap();
    assert_eq!(d, CalendarDate::new(2025, 6, 1));
}

#[test]
fn contract_deadline_in_another_form_is_refused() {
    assert_eq!(contract_end_month("2025/06/17"), None);
    assert_eq!(contract_end_month("2025-13-01 00:00:00"), None);
    assert_eq!(contract_end_month(""), None);
}

#[test]
fn date_order_goes_by_year_month_day() {
    let a = CalendarDate::new(2024, 12, 1);
    let b = CalendarDate::new(2025, 1, 1);
    assert!(a.is_on_or_before(&b));
    assert!(!b.is_on_or_before(&a));
    assert!(a.is_on_or_before(&a));
    assert!(CalendarDate::new(2025, 1, 1).is_on_or_before(&CalendarDate::new(2025, 1, 2)));
}

#[test]
fn clock_months_are_well_formed() {
    let now = current_month().unwrap();
    assert_eq!(now.day, 1);
    assert!(1 <= now.month && now.month <= 12);
    assert!(now.year >= 2024);
}

#[test]
fn month_of_a_unix_time() {
    assert_eq!(month_of_unix_seconds(0), Some(CalendarDate::new(1970, 1, 1)));
    assert_eq!(month_of_unix_seconds(1_431_648_000), Some(CalendarDate::new(2015, 5, 1)));
    assert_eq!(month_of_unix_seconds(1_735_689_599), Some(CalendarDate::new(2024, 12, 1)));
    assert_eq!(month_of_unix_seconds(1_735_689_600), Some(CalendarDate::new(2025, 1, 1)));
    assert_eq!(month_of_unix_seconds(u64::MAX), None);
    assert_eq!(month_of_unix_seconds(i64::MAX as u64), None);
}
