use llama_engine::progress::format_eta;
use llama_engine::progress::format_speed;

#[test]
fn test_format_speed() {
    assert_eq!(format_speed(500), "500 B/s");
    assert_eq!(format_speed(1_500), "1.5 KB/s");
    assert_eq!(format_speed(1_500_000), "1.5 MB/s");
    assert_eq!(format_speed(1_500_000_000), "1.5 GB/s");
}

#[test]
fn test_format_eta() {
    assert_eq!(format_eta(0, 100, 10), "10s");
    assert_eq!(format_eta(0, 6000, 100), "1m 0s");
    assert_eq!(format_eta(0, 3600 * 100, 100), "1h 0m");
    assert_eq!(format_eta(100, 100, 10), "Unknown");
    assert_eq!(format_eta(0, 100, 0), "Unknown");
}

#[test]
fn test_format_speed_boundaries() {
    assert_eq!(format_speed(0), "0 B/s");
    assert_eq!(format_speed(999), "999 B/s");
    assert_eq!(format_speed(1_000), "1.0 KB/s");
    // The tenths digit rounds half up, carrying into the whole part.
    assert_eq!(format_speed(1_950), "2.0 KB/s");
    assert_eq!(format_speed(1_949), "1.9 KB/s");
    assert_eq!(format_speed(999_999), "1000.0 KB/s");
    assert_eq!(format_speed(2_340_000_000), "2.3 GB/s");
}

#[test]
fn test_format_eta_boundaries() {
    assert_eq!(format_eta(50, 100, 50), "1s");
    assert_eq!(format_eta(0, 59, 1), "59s");
    assert_eq!(format_eta(0, 60, 1), "1m 0s");
    assert_eq!(format_eta(0, 3599, 1), "59m 59s");
    assert_eq!(format_eta(0, 3600, 1), "1h 0m");
    assert_eq!(format_eta(0, 7320, 1), "2h 2m");
    assert_eq!(format_eta(101, 100, 10), "Unknown");
}
