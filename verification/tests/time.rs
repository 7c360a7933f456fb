use chrono::{Datelike, Timelike};
use tasklog::time::{ClockReading, Time};

fn at(hours: u32, minutes: u32, seconds: u32, days: u32, months: u32, years: u32) -> Time {
    Time { seconds, minutes, hours, days, months, years }
}

fn sort_key(t: &Time) -> (u32, u32, u32, u32, u32, u32) {
    (t.years, t.months, t.days, t.hours, t.minutes, t.seconds)
}

fn local_now() -> (u32, u32, u32, u32, u32, u32) {
    let now = chrono::Local::now();
    let year = u32::try_from(now.year().max(0)).unwrap_or_default();
    (year, now.month(), now.day(), now.hour(), now.minute(), now.second())
}

#[test]
fn now_is_a_valid_timestamp_inside_the_call() {
    let earliest = local_now();
    let t = Time::now();
    let latest = local_now();
    assert!(t.seconds <= 59 && t.minutes <= 59 && t.hours <= 23);
    assert!((1..=31).contains(&t.days) && (1..=12).contains(&t.months));
    if earliest <= latest {
        assert!(earliest <= sort_key(&t));
        assert!(sort_key(&t) <= latest);
    }
}

#[test]
fn reading_is_taken_over_field_by_field() {
    let r = ClockReading { second: 3, minute: 2, hour: 1, day: 4, month: 5, year: 2024 };
    assert_eq!(Time::from_reading(r), at(1, 2, 3, 4, 5, 2024));
}

#[test]
fn negative_years_become_zero() {
    let r = ClockReading { second: 0, minute: 0, hour: 0, day: 1, month: 1, year: -308 };
    assert_eq!(Time::from_reading(r).years, 0);
    let r = ClockReading { second: 0, minute: 0, hour: 0, day: 1, month: 1, year: i32::MIN };
    assert_eq!(Time::from_reading(r).years, 0);
    let r = ClockReading { second: 0, minute: 0, hour: 0, day: 1, month: 1, year: 0 };
    assert_eq!(Time::from_reading(r).years, 0);
    let r = ClockReading { second: 59, minute: 59, hour: 23, day: 31, month: 12, year: i32::MAX };
    assert_eq!(Time::from_reading(r), at(23, 59, 59, 31, 12, 2147483647));
}

#[test]
fn timestamps_compare_field_by_field() {
    assert_eq!(at(1, 2, 3, 4, 5, 2024), at(1, 2, 3, 4, 5, 2024));
    assert_ne!(at(1, 2, 3, 4, 5, 2024), at(1, 2, 3, 4, 5, 2025));
    assert_ne!(at(1, 2, 3, 4, 5, 2024), at(2, 1, 3, 4, 5, 2024));
    let copy = at(9, 8, 7, 6, 5, 4);
    assert_eq!(copy.clone(), copy);
}
