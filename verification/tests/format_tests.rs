use qubit_clock::format::{format_duration_millis, format_duration_nanos};

#[test]
fn format_duration_millis_documented_examples() {
    assert_eq!(format_duration_millis(500), "500 ms");
    assert_eq!(format_duration_millis(1500), "1.5s");
    assert_eq!(format_duration_millis(65000), "1m 5s");
    assert_eq!(format_duration_millis(3665000), "1h 1m 5s");
}

#[test]
fn format_duration_millis_edges() {
    assert_eq!(format_duration_millis(-1), "0 ms");
    assert_eq!(format_duration_millis(i64::MIN), "0 ms");
    assert_eq!(format_duration_millis(0), "0 ms");
    assert_eq!(format_duration_millis(999), "999 ms");
    assert_eq!(format_duration_millis(1000), "1s");
    assert_eq!(format_duration_millis(1049), "1s");
    assert_eq!(format_duration_millis(1050), "1.1s");
    assert_eq!(format_duration_millis(59_949), "59.9s");
    assert_eq!(format_duration_millis(59_950), "1m");
    assert_eq!(format_duration_millis(60_000), "1m");
    assert_eq!(format_duration_millis(60_499), "1m");
    assert_eq!(format_duration_millis(60_500), "1m 1s");
    assert_eq!(format_duration_millis(3_600_000), "1h");
    assert_eq!(format_duration_millis(3_660_000), "1h 1m");
    assert_eq!(format_duration_millis(3_601_000), "1h 1s");
    assert_eq!(format_duration_millis(36_000_000), "10h");
}

#[test]
fn format_duration_millis_largest_value() {
    // i64::MAX milliseconds rounds to 9_223_372_036_854_776 seconds.
    assert_eq!(format_duration_millis(i64::MAX), "2562047788015h 12m 56s");
}

#[test]
fn format_duration_nanos_documented_examples() {
    assert_eq!(format_duration_nanos(500), "500 ns");
    assert_eq!(format_duration_nanos(1500), "1.5 μs");
    assert_eq!(format_duration_nanos(1500000), "1.5 ms");
    assert_eq!(format_duration_nanos(1500000000), "1.5s");
}

#[test]
fn format_duration_nanos_edges() {
    assert_eq!(format_duration_nanos(-5), "0 ns");
    assert_eq!(format_duration_nanos(0), "0 ns");
    assert_eq!(format_duration_nanos(999), "999 ns");
    assert_eq!(format_duration_nanos(1000), "1 μs");
    assert_eq!(format_duration_nanos(999_949), "999.9 μs");
    assert_eq!(format_duration_nanos(999_950), "1 ms");
    assert_eq!(format_duration_nanos(999_950_000), "1s");
    assert_eq!(format_duration_nanos(59_950_000_000), "1m");
    assert_eq!(format_duration_nanos(65_000_000_000), "1m 5s");
    assert_eq!(format_duration_nanos(3_665_000_000_000), "1h 1m 5s");
}
