use memelibre::keygen::{make_object_key, now_utc_parts, TimeParts};

#[test]
fn key_renders_the_exact_timestamp() {
    let t = TimeParts { year: 2024, month: 1, day: 2, hour: 3, minute: 4, second: 5, milli: 678 };
    assert_eq!(make_object_key(&t, "gif"), "2024-01-02_03:04:05.678.gif");
}

#[test]
fn key_zero_pads_every_field() {
    let t = TimeParts { year: 987, month: 12, day: 31, hour: 23, minute: 59, second: 59, milli: 7 };
    assert_eq!(make_object_key(&t, "webp"), "0987-12-31_23:59:59.007.webp");
}

#[test]
fn leap_second_milliseconds_are_clamped_to_three_digits() {
    let t =
        TimeParts { year: 2016, month: 12, day: 31, hour: 23, minute: 59, second: 59, milli: 1999 };
    assert_eq!(make_object_key(&t, "webp"), "2016-12-31_23:59:59.999.webp");
}

#[test]
fn instants_one_millisecond_apart_get_distinct_keys() {
    let t1 = TimeParts { year: 2024, month: 6, day: 7, hour: 8, minute: 9, second: 10, milli: 11 };
    let t2 = TimeParts { milli: 12, ..t1 };
    assert_ne!(make_object_key(&t1, "webp"), make_object_key(&t2, "webp"));
    let t3 = TimeParts { second: 11, ..t1 };
    assert_ne!(make_object_key(&t1, "webp"), make_object_key(&t3, "webp"));
}

#[test]
fn clock_parts_are_in_documented_ranges() {
    let t = now_utc_parts();
    assert!((1..=12).contains(&t.month));
    assert!((1..=31).contains(&t.day));
    assert!(t.hour <= 23);
    assert!(t.minute <= 59);
    assert!(t.second <= 59);
    assert!(t.milli <= 1999);
    assert!(t.year >= 2024);
}

#[test]
fn fresh_key_has_the_timestamp_shape() {
    let t = now_utc_parts();
    let key = make_object_key(&t, "webp");
    assert_eq!(key.len(), "YYYY-MM-DD_HH:MM:SS.mmm.webp".len());
    assert!(key.ends_with(".webp"));
    assert_eq!(&key[4..5], "-");
    assert_eq!(&key[10..11], "_");
}
