use brighten::naming::{compute_filename, get_timestamp, LocalTime};
use chrono::{Datelike, Local, Timelike};

fn at(year: i32, month: u32, day: u32, hour: u32, minute: u32, second: u32) -> LocalTime {
    LocalTime { year, month, day, hour, minute, second }
}

fn formatted(t: &LocalTime) -> String {
    format!(
        "{:02}-{:02}-{}_{:02}:{:02}:{:02}_brightened.png",
        t.month, t.day, t.year, t.hour, t.minute, t.second
    )
}

#[test]
fn filename_pads_every_field_but_the_year() {
    assert_eq!(compute_filename(&at(2024, 3, 7, 9, 5, 2)), "03-07-2024_09:05:02_brightened.png");
}

#[test]
fn filename_keeps_two_digit_fields_as_they_are() {
    assert_eq!(
        compute_filename(&at(1999, 12, 31, 23, 59, 59)),
        "12-31-1999_23:59:59_brightened.png"
    );
    assert_eq!(compute_filename(&at(2000, 10, 10, 10, 10, 10)), "10-10-2000_10:10:10_brightened.png");
}

#[test]
fn filename_writes_zero_fields_as_double_zero() {
    assert_eq!(compute_filename(&at(2031, 1, 1, 0, 0, 0)), "01-01-2031_00:00:00_brightened.png");
}

#[test]
fn filename_has_thirty_four_characters_for_four_digit_years() {
    for year in [1000, 1970, 2024, 9999] {
        let name = compute_filename(&at(year, 6, 15, 12, 30, 45));
        assert_eq!(name.len(), 34);
        let bytes = name.as_bytes();
        assert_eq!(bytes[2], b'-');
        assert_eq!(bytes[5], b'-');
        assert_eq!(bytes[10], b'_');
        assert_eq!(bytes[13], b':');
        assert_eq!(bytes[16], b':');
        assert!(name.ends_with("_brightened.png"));
    }
}

#[test]
fn filename_writes_the_year_in_full_whatever_its_length() {
    assert_eq!(compute_filename(&at(987, 1, 2, 3, 4, 5)), "01-02-987_03:04:05_brightened.png");
    assert_eq!(compute_filename(&at(0, 1, 2, 3, 4, 5)), "01-02-0_03:04:05_brightened.png");
    assert_eq!(compute_filename(&at(12345, 1, 2, 3, 4, 5)), "01-02-12345_03:04:05_brightened.png");
    assert_eq!(compute_filename(&at(-44, 3, 15, 12, 0, 0)), "03-15--44_12:00:00_brightened.png");
    assert_eq!(
        compute_filename(&at(i32::MIN, 1, 1, 0, 0, 0)),
        "01-01--2147483648_00:00:00_brightened.png"
    );
    assert_eq!(
        compute_filename(&at(i32::MAX, 1, 1, 0, 0, 0)),
        "01-01-2147483647_00:00:00_brightened.png"
    );
}

#[test]
fn filename_agrees_with_std_formatting_on_every_clock_value() {
    for month in 1..=12 {
        for day in [1, 9, 10, 28, 31] {
            for hour in [0, 9, 10, 23] {
                for minute in [0, 5, 59] {
                    for second in [0, 7, 59] {
                        let t = at(2024, month, day, hour, minute, second);
                        assert_eq!(compute_filename(&t), formatted(&t));
                    }
                }
            }
        }
    }
}

#[test]
fn filename_agrees_with_std_formatting_beyond_the_clock() {
    for value in [0, 99, 100, 101, 1000, 4_000_000_000, u32::MAX] {
        let t = at(2024, value, value, value, value, value);
        assert_eq!(compute_filename(&t), formatted(&t));
    }
    for year in [-1, -10, -9999, 9, 10, 99, 100, 999, 10000, 262142, -262143] {
        let t = at(year, 1, 1, 0, 0, 0);
        assert_eq!(compute_filename(&t), formatted(&t));
    }
}

#[test]
fn same_second_gives_the_same_name() {
    let first = at(2024, 3, 7, 9, 5, 2);
    let again = at(2024, 3, 7, 9, 5, 2);
    assert_eq!(compute_filename(&first), compute_filename(&again));
}

#[test]
fn different_seconds_give_different_names() {
    let base = at(2024, 3, 7, 9, 5, 2);
    let others = [
        at(2025, 3, 7, 9, 5, 2),
        at(2024, 4, 7, 9, 5, 2),
        at(2024, 3, 8, 9, 5, 2),
        at(2024, 3, 7, 10, 5, 2),
        at(2024, 3, 7, 9, 6, 2),
        at(2024, 3, 7, 9, 5, 3),
        at(2024, 7, 3, 9, 5, 2),
        at(2024, 3, 7, 5, 9, 2),
    ];
    for other in others {
        assert_ne!(compute_filename(&base), compute_filename(&other));
    }
}

#[test]
fn timestamp_is_the_name_of_the_current_local_time() {
    let before = Local::now();
    let name = get_timestamp();
    let after = Local::now();
    let of = |t: &chrono::DateTime<Local>| {
        compute_filename(&at(t.year(), t.month(), t.day(), t.hour(), t.minute(), t.second()))
    };
    assert!(name == of(&before) || name == of(&after), "{name}");
}

#[test]
fn timestamp_has_the_fixed_layout() {
    let name = get_timestamp();
    assert_eq!(name.len(), 34);
    let bytes = name.as_bytes();
    for (i, b) in bytes[..19].iter().enumerate() {
        match i {
            2 | 5 => assert_eq!(*b, b'-'),
            10 => assert_eq!(*b, b'_'),
            13 | 16 => assert_eq!(*b, b':'),
            _ => assert!(b.is_ascii_digit()),
        }
    }
    assert_eq!(&name[19..], "_brightened.png");
    let month: u32 = name[0..2].parse().unwrap();
    let day: u32 = name[3..5].parse().unwrap();
    let hour: u32 = name[11..13].parse().unwrap();
    let minute: u32 = name[14..16].parse().unwrap();
    let second: u32 = name[17..19].parse().unwrap();
    assert!((1..=12).contains(&month));
    assert!((1..=31).contains(&day));
    assert!(hour <= 23 && minute <= 59 && second <= 59);
}
