use vid2img::timing::{div_trunc, Rational, TimingData};

fn at(timestamp: i64, num: i32, den: i32) -> TimingData {
    TimingData { timestamp, time_base: Rational { num, den } }
}

#[test]
fn thirtieths_of_a_second_in_milliseconds() {
    let ms: Vec<i64> = (0..10).map(|ts| at(ts, 1, 30).ts_in_ms()).collect();
    assert_eq!(ms, vec![0, 33, 66, 100, 133, 166, 200, 233, 266, 300]);
}

#[test]
fn milliseconds_scale_by_thousand_num_over_den() {
    assert_eq!(at(90000, 1, 90000).ts_in_ms(), 1000);
    assert_eq!(at(7, 1001, 30000).ts_in_ms(), 233);
    assert_eq!(at(3, 2, 1).ts_in_ms(), 6000);
}

#[test]
fn milliseconds_round_toward_zero() {
    assert_eq!(at(-1, 1, 30).ts_in_ms(), -33);
    assert_eq!(at(1, 1, -30).ts_in_ms(), -33);
    assert_eq!(div_trunc(-7, 2), -3);
    assert_eq!(div_trunc(7, -2), -3);
    assert_eq!(div_trunc(-7, -2), 3);
}

#[test]
fn later_timestamps_never_give_fewer_milliseconds() {
    let mut last = i64::MIN;
    for ts in 0..200 {
        let ms = at(ts, 1001, 24000).ts_in_ms();
        assert!(ms >= last);
        last = ms;
    }
}

#[test]
fn largest_timestamp_that_fits_keeps_exact_value() {
    let ts = i64::MAX / 1000;
    assert_eq!(at(ts, 1, 1000).ts_in_ms(), ts);
    assert_eq!(at(-ts, 1, 1000).ts_in_ms(), -ts);
}

#[test]
fn division_of_the_smallest_value() {
    assert_eq!(div_trunc(i64::MIN, 1), i64::MIN);
    assert_eq!(div_trunc(i64::MIN, 2), i64::MIN / 2);
    assert_eq!(div_trunc(i64::MIN, -2), i64::MAX / 2 + 1);
    assert_eq!(div_trunc(i64::MIN, 1_000_000), -9_223_372_036_854);
}
