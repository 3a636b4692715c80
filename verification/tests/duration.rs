use cand::duration::render_duration;

#[test]
fn nanosecond_range() {
    assert_eq!(render_duration(0), "0ns");
    assert_eq!(render_duration(1), "1ns");
    assert_eq!(render_duration(999), "999ns");
}

#[test]
fn microsecond_boundary() {
    assert_eq!(render_duration(1_000), "1µs");
    assert_eq!(render_duration(999_999), "999µs");
}

#[test]
fn millisecond_boundary() {
    assert_eq!(render_duration(1_000_000), "1ms");
    assert_eq!(render_duration(999_999_999), "999ms");
}

#[test]
fn second_boundary() {
    assert_eq!(render_duration(1_000_000_000), "1.0s");
    assert_eq!(render_duration(59_001_000_000), "59.1s");
    assert_eq!(render_duration(59_999_000_000), "59.999s");
}

#[test]
fn minute_boundary() {
    assert_eq!(render_duration(60_000_000_000), "1:00min");
    assert_eq!(render_duration(61_000_000_000), "1:01min");
    assert_eq!(render_duration(3_599_999_000_000), "59:59min");
}

#[test]
fn hour_boundary() {
    assert_eq!(render_duration(3_600_000_000_000), "1:00:00");
    assert_eq!(render_duration(3_661_000_000_000), "1:01:01");
    assert_eq!(render_duration(86_399_000_000_000), "23:59:59");
}

#[test]
fn day_boundary() {
    assert_eq!(render_duration(86_400_000_000_000), "1d");
    assert_eq!(render_duration(90_000_000_000_000), "1d1h");
    assert_eq!(render_duration(93_784_000_000_000), "1d2h");
    assert_eq!(render_duration(172_800_000_000_000), "2d");
}
