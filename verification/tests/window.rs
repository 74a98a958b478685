use flow_aggregator::window::time_bucket;
use flow_aggregator::window::WINDOW_SECONDS;

#[test]
fn window_is_three_hundred_seconds() {
    assert_eq!(WINDOW_SECONDS, 300);
}

#[test]
fn bucket_rounds_down_to_window_start() {
    assert_eq!(time_bucket(0), 0);
    assert_eq!(time_bucket(1), 0);
    assert_eq!(time_bucket(299), 0);
    assert_eq!(time_bucket(300), 300);
    assert_eq!(time_bucket(301), 300);
    assert_eq!(time_bucket(599), 300);
    assert_eq!(time_bucket(600), 600);
    assert_eq!(time_bucket(1_700_000_123), 1_700_000_100);
}

#[test]
fn bucket_of_largest_time_does_not_overflow() {
    assert_eq!(time_bucket(u64::MAX), 18_446_744_073_709_551_600);
    assert_eq!(time_bucket(u64::MAX) % 300, 0);
}

#[test]
fn bucket_is_idempotent_on_samples() {
    for t in [0u64, 1, 299, 300, 12_345, 1_700_000_123, u64::MAX] {
        assert_eq!(time_bucket(time_bucket(t)), time_bucket(t));
    }
}

#[test]
fn bucket_is_monotonic_on_samples() {
    let samples = [0u64, 1, 299, 300, 301, 599, 600, 12_345, 1_700_000_123, u64::MAX];
    for pair in samples.windows(2) {
        assert!(time_bucket(pair[0]) <= time_bucket(pair[1]));
    }
}

#[test]
fn times_in_one_window_share_a_bucket() {
    assert_eq!(time_bucket(900), time_bucket(1199));
    assert_eq!(time_bucket(905), time_bucket(1100));
}

#[test]
fn times_one_window_apart_differ() {
    for t in [0u64, 1, 299, 300, 899, 900, 1_700_000_123] {
        assert_ne!(time_bucket(t), time_bucket(t + 300));
        assert_eq!(time_bucket(t + 300), time_bucket(t) + 300);
    }
    assert_ne!(time_bucket(299), time_bucket(300));
}
