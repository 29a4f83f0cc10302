use cast_ui::calendar::{
    calendar_grid_day, days_in_month, is_leap_year, month_name, weekday_monday_index,
    CalendarDate, CalendarMonth,
};

#[test]
fn calendar_date_clamps_invalid_parts() {
    assert_eq!(
        CalendarDate::new(2026, 13, 99),
        CalendarDate::new(2026, 12, 31)
    );
    assert_eq!(CalendarDate::new(2025, 2, 29).day, 28);
    assert_eq!(CalendarDate::new(2024, 2, 29).day, 29);
}

#[test]
fn calendar_month_shift_crosses_year_boundaries() {
    let mut month = CalendarMonth::new(2026, 1);
    month.shift(-1);
    assert_eq!(month, CalendarMonth::new(2025, 12));
    month.shift(2);
    assert_eq!(month, CalendarMonth::new(2026, 2));
}

#[test]
fn weekday_uses_monday_index() {
    assert_eq!(weekday_monday_index(2026, 6, 1), 0);
    assert_eq!(weekday_monday_index(2026, 5, 31), 6);
}

#[test]
fn calendar_date_clamps_low_parts() {
    assert_eq!(CalendarDate::new(2026, 0, 0), CalendarDate::new(2026, 1, 1));
    assert_eq!(CalendarDate::new(2026, 4, 31).day, 30);
}

#[test]
fn leap_years_and_month_lengths() {
    assert!(is_leap_year(2024));
    assert!(!is_leap_year(1900));
    assert!(is_leap_year(2000));
    assert!(!is_leap_year(2026));
    assert_eq!(days_in_month(2024, 2), 29);
    assert_eq!(days_in_month(2023, 2), 28);
    assert_eq!(days_in_month(2023, 9), 30);
    assert_eq!(days_in_month(2023, 12), 31);
    assert_eq!(days_in_month(2023, 13), 31);
}

#[test]
fn month_labels() {
    assert_eq!(month_name(3), "March");
    assert_eq!(month_name(0), "January");
    assert_eq!(CalendarMonth::new(2026, 2).label(), "February 2026");
    assert_eq!(CalendarMonth::new(-44, 3).label(), "March -44");
}

#[test]
fn shifting_there_and_back_returns_to_the_month() {
    for delta in [-30, -13, -12, -1, 0, 1, 11, 12, 25] {
        let mut month = CalendarMonth::new(2026, 7);
        month.shift(delta);
        month.shift(-delta);
        assert_eq!(month, CalendarMonth::new(2026, 7));
    }
    let mut a = CalendarMonth::new(1999, 11);
    a.shift(3);
    a.shift(4);
    let mut b = CalendarMonth::new(1999, 11);
    b.shift(7);
    assert_eq!(a, b);
    assert_eq!(b, CalendarMonth::new(2000, 6));
}

#[test]
fn weekday_advances_day_by_day() {
    let mut previous = weekday_monday_index(2023, 12, 31);
    for (year, month) in [(2024, 1), (2024, 2), (2024, 3)] {
        for day in 1..=days_in_month(year, month) {
            let today = weekday_monday_index(year, month, day);
            assert_eq!(today, (previous + 1) % 7);
            previous = today;
        }
    }
}

#[test]
fn grid_pads_before_the_first_day() {
    assert_eq!(calendar_grid_day(0, 0, 3, 30), None);
    assert_eq!(calendar_grid_day(0, 3, 3, 30), Some(1));
    assert_eq!(calendar_grid_day(3, 6, 0, 30), Some(28));
    assert_eq!(calendar_grid_day(4, 6, 0, 30), None);
}

#[test]
fn weekday_step_into_march_breaks_before_year_one() {
    let feb = weekday_monday_index(0, 2, 29);
    let march = weekday_monday_index(0, 3, 1);
    assert_ne!(march, (feb + 1) % 7);
    let feb = weekday_monday_index(-1, 2, 28);
    let march = weekday_monday_index(-1, 3, 1);
    assert_eq!(march, (feb + 1) % 7);
}
