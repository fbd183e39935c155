use tera_inference::date::{format_date, CalendarDate};

#[test]
fn long_form_date_renders_through_chrono() {
    let d = CalendarDate::new(2024, 1, 15).unwrap();
    assert_eq!(format_date(&d), "Monday, January 15, 2024");
}

#[test]
fn single_digit_day_is_space_padded() {
    let d = CalendarDate::new(2024, 1, 5).unwrap();
    assert_eq!(format_date(&d), "Friday, January  5, 2024");
}

#[test]
fn leap_day_exists_only_in_leap_years() {
    assert!(CalendarDate::new(2024, 2, 29).is_some());
    assert!(CalendarDate::new(2023, 2, 29).is_none());
    assert!(CalendarDate::new(1900, 2, 29).is_none());
    assert!(CalendarDate::new(2000, 2, 29).is_some());
}

#[test]
fn out_of_range_dates_are_rejected() {
    assert!(CalendarDate::new(0, 1, 1).is_none());
    assert!(CalendarDate::new(2024, 13, 1).is_none());
    assert!(CalendarDate::new(2024, 4, 31).is_none());
    assert!(CalendarDate::new(2024, 12, 31).is_some());
}
