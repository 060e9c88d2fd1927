use chrono::NaiveDate;
use x11bar::clock::ClockReading;

#[test]
fn date_is_day_month_short_year() {
    let c = ClockReading::new(2024, 3, 5, 14, 2, 9).unwrap();
    assert_eq!(c.format_date(), "05.03.24");
    assert_eq!(c.format_time(), "14:02:09");
}

#[test]
fn fields_are_zero_padded() {
    let c = ClockReading::new(2000, 1, 1, 0, 0, 0).unwrap();
    assert_eq!(c.format_date(), "01.01.00");
    assert_eq!(c.format_time(), "00:00:00");
    let c = ClockReading::new(1999, 12, 31, 23, 59, 59).unwrap();
    assert_eq!(c.format_date(), "31.12.99");
    assert_eq!(c.format_time(), "23:59:59");
}

#[test]
fn year_in_century_is_never_negative() {
    assert_eq!(ClockReading::new(2024, 1, 1, 0, 0, 0).unwrap().year_in_century(), 24);
    assert_eq!(ClockReading::new(1900, 1, 1, 0, 0, 0).unwrap().year_in_century(), 0);
    assert_eq!(ClockReading::new(7, 1, 1, 0, 0, 0).unwrap().year_in_century(), 7);
    assert_eq!(ClockReading::new(0, 1, 1, 0, 0, 0).unwrap().year_in_century(), 0);
    assert_eq!(ClockReading::new(-1, 1, 1, 0, 0, 0).unwrap().year_in_century(), 99);
    assert_eq!(ClockReading::new(-101, 1, 1, 0, 0, 0).unwrap().year_in_century(), 99);
    assert_eq!(ClockReading::new(i32::MIN, 1, 1, 0, 0, 0).unwrap().year_in_century(), 52);
    assert_eq!(ClockReading::new(i32::MAX, 1, 1, 0, 0, 0).unwrap().year_in_century(), 47);
}

#[test]
fn fields_out_of_range_give_no_reading() {
    assert_eq!(ClockReading::new(2024, 0, 1, 0, 0, 0), None);
    assert_eq!(ClockReading::new(2024, 13, 1, 0, 0, 0), None);
    assert_eq!(ClockReading::new(2024, 1, 0, 0, 0, 0), None);
    assert_eq!(ClockReading::new(2024, 1, 32, 0, 0, 0), None);
    assert_eq!(ClockReading::new(2024, 1, 1, 24, 0, 0), None);
    assert_eq!(ClockReading::new(2024, 1, 1, 0, 60, 0), None);
    assert_eq!(ClockReading::new(2024, 1, 1, 0, 0, 60), None);
    assert_eq!(
        ClockReading::new(2024, 12, 31, 23, 59, 59),
        Some(ClockReading { year: 2024, month: 12, day: 31, hour: 23, minute: 59, second: 59 })
    );
}

#[test]
fn fields_are_written_as_the_calendar_library_writes_them() {
    let cases = [
        (2024, 3, 5, 14, 2, 9),
        (1970, 1, 1, 0, 0, 0),
        (2099, 12, 31, 23, 59, 59),
        (2000, 2, 29, 12, 30, 45),
        (1, 10, 9, 8, 7, 6),
        (0, 6, 15, 1, 1, 1),
        (-1, 6, 15, 1, 1, 1),
        (-250, 11, 30, 19, 0, 10),
    ];
    for (year, month, day, hour, minute, second) in cases {
        let theirs = NaiveDate::from_ymd_opt(year, month, day)
            .unwrap()
            .and_hms_opt(hour, minute, second)
            .unwrap();
        let ours = ClockReading::new(year, month, day, hour, minute, second).unwrap();
        assert_eq!(ours.format_date(), theirs.format("%d.%m.%y").to_string());
        assert_eq!(ours.format_time(), theirs.format("%H:%M:%S").to_string());
    }
}
