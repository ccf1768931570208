use bore_client::backoff::cap_delay;
use bore_client::backoff::next_delay;
use bore_client::backoff::Backoff;

#[test]
fn delay_doubles() {
    assert_eq!(next_delay(1000, 30000), 2000);
    assert_eq!(next_delay(0, 30000), 0);
}

#[test]
fn delay_stops_at_maximum() {
    assert_eq!(next_delay(15000, 30000), 30000);
    assert_eq!(next_delay(16000, 30000), 30000);
    assert_eq!(next_delay(60000, 30000), 30000);
    assert_eq!(next_delay(5, 0), 0);
}

#[test]
fn delay_beyond_range_is_maximum() {
    assert_eq!(next_delay(u64::MAX, u64::MAX), u64::MAX);
    assert_eq!(next_delay(u64::MAX / 2 + 1, 7), 7);
    assert_eq!(next_delay(u64::MAX / 2, u64::MAX), u64::MAX - 1);
}

#[test]
fn delays_grow_exponentially() {
    let mut backoff = Backoff::new(0, 1000, 30000);
    let delays: Vec<u64> = (0..8).map(|_| backoff.wait()).collect();
    assert_eq!(delays, vec![1000, 2000, 4000, 8000, 16000, 30000, 30000, 30000]);
}

#[test]
fn first_delay_is_within_maximum() {
    let mut backoff = Backoff::new(0, 60000, 30000);
    assert_eq!(backoff.wait(), 30000);
    assert_eq!(backoff.wait(), 30000);
    backoff.reset(60000);
    assert_eq!(backoff.wait(), 30000);
    assert_eq!(backoff.wait(), 30000);
}

#[test]
fn delay_is_cut_down() {
    assert_eq!(cap_delay(5000, 1000), 1000);
    assert_eq!(cap_delay(1000, 1000), 1000);
    assert_eq!(cap_delay(999, 1000), 999);
    assert_eq!(cap_delay(u64::MAX, 0), 0);
}

#[test]
fn limit_is_reached_by_last_attempt() {
    let mut backoff = Backoff::new(2, 10, 20);
    assert_eq!(backoff.attempt(), 0);
    assert_eq!(backoff.max_retries(), 2);
    assert_eq!(backoff.max_delay_ms(), 20);
    backoff.begin();
    assert_eq!(backoff.attempt(), 1);
    assert!(!backoff.is_spent());
    assert!(!backoff.is_exceeded());
    backoff.begin();
    assert!(backoff.is_spent());
    assert!(!backoff.is_exceeded());
    backoff.begin();
    assert!(backoff.is_spent());
    assert!(backoff.is_exceeded());
}

#[test]
fn zero_is_no_limit() {
    let mut backoff = Backoff::new(0, 10, 20);
    for _ in 0..1000 {
        backoff.begin();
        assert!(!backoff.is_spent());
        assert!(!backoff.is_exceeded());
    }
    assert_eq!(backoff.attempt(), 1000);
}

#[test]
fn reset_takes_delay_back() {
    let mut backoff = Backoff::new(0, 10, 100);
    assert_eq!(backoff.wait(), 10);
    assert_eq!(backoff.wait(), 20);
    backoff.reset(10);
    assert_eq!(backoff.wait(), 10);
    assert_eq!(backoff.wait(), 20);
}
