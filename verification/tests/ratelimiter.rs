use testaustime::ratelimiter::{rate_limit_key, RateLimiterStorage};

/// Nanoseconds in a millisecond; the tests below give times in milliseconds.
const MS: u64 = 1_000_000;

fn count_of(s: &RateLimiterStorage, ip: &str) -> Option<(usize, u64)> {
    s.clients.iter().find(|c| c.ip == ip).map(|c| (c.count, c.reset_at))
}

#[test]
fn allowance_counts_down_in_a_window() {
    let mut s = RateLimiterStorage::new(3, 60);
    let d = s.handle("1.2.3.4".to_string(), (1_000) * MS);
    assert_eq!(d.remaining, Some(2));
    assert_eq!(d.reset_ns, 60_000 * MS);
    assert!(!d.clean_scheduled);
    let d = s.handle("1.2.3.4".to_string(), (11_000) * MS);
    assert_eq!(d.remaining, Some(1));
    assert_eq!(d.reset_ns, 50_000 * MS);
    let d = s.handle("1.2.3.4".to_string(), (21_000) * MS);
    assert_eq!(d.remaining, Some(0));
    assert_eq!(count_of(&s, "1.2.3.4"), Some((3, 61_000 * MS)));
    // The allowance is used up: further requests in the window are refused.
    let d = s.handle("1.2.3.4".to_string(), (30_000) * MS);
    assert_eq!(d.remaining, None);
    assert_eq!(d.reset_ns, 31_000 * MS);
    assert_eq!(count_of(&s, "1.2.3.4"), Some((3, 61_000 * MS)));
    assert_eq!(s.handle("1.2.3.4".to_string(), (60_999) * MS).remaining, None);
    assert_eq!(s.handle("5.6.7.8".to_string(), (30_000) * MS).remaining, Some(2));
}

#[test]
fn at_most_maxrpm_requests_per_window() {
    let mut s = RateLimiterStorage::new(2, 60);
    let results: Vec<Option<usize>> =
        (0..5u64).map(|i| s.handle("1.2.3.4".to_string(), (i * 1_000) * MS).remaining).collect();
    assert_eq!(results, vec![Some(1), Some(0), None, None, None]);
}

#[test]
fn window_resets_after_interval() {
    let mut s = RateLimiterStorage::new(2, 10);
    s.handle("a".to_string(), 0);
    s.handle("a".to_string(), (1) * MS);
    assert_eq!(s.handle("a".to_string(), (9_999) * MS).remaining, None);
    let d = s.handle("a".to_string(), (10_000) * MS);
    assert_eq!(d.remaining, Some(1));
    assert_eq!(d.reset_ns, 10_000 * MS);
    assert_eq!(count_of(&s, "a"), Some((1, 20_000 * MS)));
}

#[test]
fn clients_are_counted_apart() {
    let mut s = RateLimiterStorage::new(5, 60);
    s.handle("a".to_string(), 0);
    s.handle("a".to_string(), 0);
    let d = s.handle("b".to_string(), 0);
    assert_eq!(d.remaining, Some(4));
    assert_eq!(count_of(&s, "a"), Some((2, 60_000 * MS)));
    assert_eq!(count_of(&s, "b"), Some((1, 60_000 * MS)));
    assert_eq!(s.clients.len(), 2);
}

#[test]
fn zero_limit_refuses_everything() {
    let mut s = RateLimiterStorage::new(0, 60);
    assert_eq!(s.handle("a".to_string(), 0).remaining, None);
    assert_eq!(s.handle("a".to_string(), (1) * MS).remaining, None);
}

#[test]
fn cleaning_is_scheduled_and_drops_stale_clients() {
    let mut s = RateLimiterStorage::new(100_000, 1);
    let mut scheduled = 0;
    for i in 0..1002u64 {
        let d = s.handle(format!("ip{}", i % 3), i * MS);
        if d.clean_scheduled {
            scheduled += 1;
            assert_eq!(i, 1001);
        }
    }
    assert_eq!(scheduled, 1);
    assert_eq!(s.event_count, 0);
    // ip0, ip1, ip2 have windows ending around 1_000..2_002 ms.
    s.handle("late".to_string(), (5_000_000) * MS);
    s.clean(5_000_000 * MS);
    assert_eq!(s.clients.len(), 1);
    assert_eq!(s.clients[0].ip, "late");
}

#[test]
fn rate_limit_keys() {
    let token = "secret".to_string();
    // Bypass with the right token: the client-ip header decides.
    assert_eq!(rate_limit_key(Some("secret".to_string()), &token, false, 1, Some(2), Some(3)), Some(2));
    assert_eq!(rate_limit_key(Some("secret".to_string()), &token, true, 1, None, Some(3)), None);
    // A wrong token is ignored.
    assert_eq!(rate_limit_key(Some("nope".to_string()), &token, false, 1, Some(2), Some(3)), Some(3));
    // Peer address when limiting by peer.
    assert_eq!(rate_limit_key(None, &token, true, 1, Some(2), Some(3)), Some(1));
    // Forwarded address, else the peer.
    assert_eq!(rate_limit_key(None, &token, false, 1, None, Some(3)), Some(3));
    assert_eq!(rate_limit_key(None, &token, false, 1, None, None), Some(1));
}
