use zond::error::Error;
use zond::time::Time;

#[test]
fn date_string_pads_month_and_day() {
    let t = Time::new(2024, 1, 2, 3, 4, 5);
    assert_eq!(t.date_string(), "2024-01-02");
}

#[test]
fn date_string_agrees_with_format() {
    for (y, m, d) in [(2024, 12, 31), (5, 1, 1), (-44, 3, 15), (i32::MIN, 0, 100), (i32::MAX, 10, 9)] {
        let t = Time::new(y, m, d, 0, 0, 0);
        assert_eq!(t.date_string(), format!("{}-{:02}-{:02}", y, m, d));
    }
}

#[test]
fn rfc3339_has_all_fields() {
    let t = Time::new(2024, 1, 2, 3, 4, 5);
    assert_eq!(t.to_rfc_3339(), "2024-01-02T03:04:05Z");
}

#[test]
fn accessors_give_the_fields() {
    let t = Time::new(2023, 11, 30, 23, 59, 58);
    assert_eq!(t.year(), 2023);
    assert_eq!(t.month(), 11);
    assert_eq!(t.day(), 30);
    assert_eq!(t.hour(), 23);
    assert_eq!(t.minute(), 59);
}

#[test]
fn timestamp_of_a_known_date() {
    let t = Time::new(2024, 1, 1, 0, 0, 0);
    assert_eq!(t.timestamp().unwrap(), 1_704_067_200);
}

#[test]
fn timestamp_of_the_epoch_is_zero() {
    assert_eq!(Time::new(1970, 1, 1, 0, 0, 0).timestamp().unwrap(), 0);
    assert_eq!(Time::new(1970, 1, 1, 0, 1, 1).timestamp().unwrap(), 61);
    assert_eq!(Time::new(1969, 12, 31, 23, 59, 59).timestamp().unwrap(), -1);
}

#[test]
fn timestamp_refuses_an_impossible_date() {
    let t = Time::new(2024, 2, 30, 0, 0, 0);
    assert!(matches!(t.timestamp(), Err(Error::TimeError(_))));
}

#[test]
fn timestamp_refuses_a_year_of_fewer_than_four_digits() {
    assert!(matches!(Time::new(999, 1, 1, 0, 0, 0).timestamp(), Err(Error::TimeError(_))));
    assert!(matches!(Time::new(-2024, 1, 1, 0, 0, 0).timestamp(), Err(Error::TimeError(_))));
}

#[test]
fn timestamp_refuses_an_hour_out_of_range() {
    assert!(matches!(Time::new(2024, 1, 1, 24, 0, 0).timestamp(), Err(Error::TimeError(_))));
}

#[test]
fn timestamps_order_as_the_times_do() {
    let a = Time::new(2024, 1, 1, 0, 0, 0).timestamp().unwrap();
    let b = Time::new(2024, 1, 1, 0, 0, 1).timestamp().unwrap();
    let c = Time::new(2024, 2, 1, 0, 0, 0).timestamp().unwrap();
    assert!(a < b && b < c);
}

#[test]
fn now_is_a_time_that_has_a_timestamp() {
    let t = Time::now();
    assert!((1..=12).contains(&t.month()));
    assert!((1..=31).contains(&t.day()));
    assert!(t.hour() <= 23 && t.minute() <= 59);
    assert!(t.timestamp().unwrap() > 1_700_000_000);
}

fn is_leap(year: i64) -> bool {
    year % 4 == 0 && (year % 100 != 0 || year % 400 == 0)
}

fn month_length(year: i64, month: i64) -> i64 {
    match month {
        2 if is_leap(year) => 29,
        2 => 28,
        4 | 6 | 9 | 11 => 30,
        _ => 31,
    }
}

fn seconds_by_counting(year: i64, month: i64, day: i64, hour: i64, minute: i64, second: i64) -> i64 {
    let mut days: i64 = 0;
    if year >= 1970 {
        for y in 1970..year {
            days += if is_leap(y) { 366 } else { 365 };
        }
    } else {
        for y in year..1970 {
            days -= if is_leap(y) { 366 } else { 365 };
        }
    }
    for m in 1..month {
        days += month_length(year, m);
    }
    days += day - 1;
    days * 86_400 + hour * 3_600 + minute * 60 + second.min(59)
}

#[test]
fn timestamp_counts_the_seconds_since_1970() {
    for year in [1000, 1582, 1600, 1899, 1900, 1969, 1970, 1971, 1999, 2000, 2023, 2024, 2100, 2400, 9999] {
        for month in 1..=12 {
            for day in 1..=month_length(year, month) {
                let t = Time::new(year as i32, month as u32, day as u32, 13, 14, 15);
                assert_eq!(
                    t.timestamp().unwrap(),
                    seconds_by_counting(year, month, day, 13, 14, 15),
                    "{}",
                    t.to_rfc_3339()
                );
            }
        }
    }
}

#[test]
fn timestamp_of_the_first_and_last_second_of_each_year() {
    for year in 1000..=9999 {
        let first = Time::new(year, 1, 1, 0, 0, 0);
        let last = Time::new(year, 12, 31, 23, 59, 59);
        assert_eq!(first.timestamp().unwrap(), seconds_by_counting(year as i64, 1, 1, 0, 0, 0));
        assert_eq!(last.timestamp().unwrap(), seconds_by_counting(year as i64, 12, 31, 23, 59, 59));
        if year < 9999 {
            assert_eq!(last.timestamp().unwrap() + 1, Time::new(year + 1, 1, 1, 0, 0, 0).timestamp().unwrap());
        }
    }
}

#[test]
fn timestamp_is_there_exactly_for_dates_and_times() {
    for year in [999, 1000, 2023, 2024, 9999, 10000, -1, 0] {
        for month in [0, 1, 2, 12, 13, 99, 100] {
            for day in [0, 1, 28, 29, 30, 31, 32, 100] {
                for (hour, minute, second) in
                    [(0, 0, 0), (23, 59, 59), (23, 59, 60), (24, 0, 0), (0, 60, 0), (0, 0, 61), (0, 0, 100), (100, 0, 0), (0, 100, 0)]
                {
                    let t = Time::new(year, month, day, hour, minute, second);
                    let holds = (1000..=9999).contains(&year)
                        && (1..=12).contains(&month)
                        && day >= 1
                        && (day as i64) <= month_length(year as i64, month as i64)
                        && hour <= 23
                        && minute <= 59
                        && second <= 60;
                    match t.timestamp() {
                        Ok(v) => {
                            assert!(holds, "{}", t.to_rfc_3339());
                            let counted = seconds_by_counting(
                                year as i64,
                                month as i64,
                                day as i64,
                                hour as i64,
                                minute as i64,
                                second as i64,
                            );
                            assert_eq!(v, counted, "{}", t.to_rfc_3339());
                        }
                        Err(e) => {
                            assert!(!holds, "{}", t.to_rfc_3339());
                            assert!(matches!(e, Error::TimeError(_)));
                        }
                    }
                }
            }
        }
    }
}

#[test]
fn a_leap_second_counts_as_the_second_before_it() {
    let leap = Time::new(2016, 12, 31, 23, 59, 60).timestamp().unwrap();
    let before = Time::new(2016, 12, 31, 23, 59, 59).timestamp().unwrap();
    assert_eq!(leap, before);
    assert_eq!(before, 1_483_228_799);
}

#[test]
fn precedes_orders_field_by_field() {
    let a = Time::new(2024, 1, 31, 23, 59, 59);
    let b = Time::new(2024, 2, 1, 0, 0, 0);
    assert!(a.precedes(&b));
    assert!(!b.precedes(&a));
    assert!(!a.precedes(&a));
    assert!(a < b);
    assert!(Time::new(2023, 12, 31, 0, 0, 0).precedes(&a));
    assert!(Time::new(2024, 1, 31, 23, 59, 58).precedes(&a));
    assert!(Time::new(2024, 1, 31, 22, 59, 59).precedes(&a));
}

#[test]
fn precedes_agrees_with_the_timestamps() {
    let times = [
        Time::new(1999, 12, 31, 23, 59, 59),
        Time::new(2000, 1, 1, 0, 0, 0),
        Time::new(2000, 2, 29, 12, 0, 0),
        Time::new(2000, 3, 1, 0, 0, 0),
        Time::new(2000, 3, 1, 0, 0, 1),
        Time::new(2000, 3, 1, 0, 1, 0),
        Time::new(2001, 1, 1, 0, 0, 0),
    ];
    for a in &times {
        for b in &times {
            assert_eq!(a.precedes(b), a.timestamp().unwrap() < b.timestamp().unwrap());
        }
    }
}

#[test]
fn from_parts_takes_the_second_as_zero() {
    let t = Time::from_parts(2024, 6, 7, 8, 9, String::from("CET"));
    assert_eq!(t, Time::new(2024, 6, 7, 8, 9, 0));
    assert_eq!(t.tz(), "UTC");
}

#[test]
fn to_string_does_not_pad() {
    assert_eq!(Time::new(2024, 1, 2, 3, 4, 5).to_string(), "2024-1-2T3:4:5Z");
    assert_eq!(Time::new(-7, 10, 20, 0, 0, 0).to_string(), "-7-10-20T0:0:0Z");
}
