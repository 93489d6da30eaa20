use std::time::Duration;

use webpad::auth::{backoff_millis, is_fresh, token_of, AuthManager, FailureState, IpBackoffManager};
use webpad::net::IpAddr;

const SECOND: u128 = 1_000_000_000;

#[test]
fn create_token_returns_non_empty_string() {
    let mut manager = AuthManager::new("test-secret-hash".to_string());
    let token = manager.create_session();
    assert!(!token.is_empty());
}

#[test]
fn validate_valid_token_returns_true() {
    let mut manager = AuthManager::new("test-secret-hash".to_string());
    let token = manager.create_session();
    assert!(manager.validate_token(&token));
}

#[test]
fn validate_invalid_token_returns_false() {
    let manager = AuthManager::new("test-secret-hash".to_string());
    assert!(!manager.validate_token("nonexistent-token"));
}

#[test]
fn validate_empty_token_returns_false() {
    let manager = AuthManager::new("test-secret-hash".to_string());
    assert!(!manager.validate_token(""));
}

#[test]
fn removed_token_is_invalid() {
    let mut manager = AuthManager::new("test-secret-hash".to_string());
    let token = manager.create_session();
    manager.remove_session(&token);
    assert!(!manager.validate_token(&token));
}

#[test]
fn auth_test_verify_password_matches() {
    let hash = webpad::password::hash_password("test-secret-password");
    let manager = AuthManager::new(hash);
    assert!(manager.verify_password("test-secret-password"));
}

#[test]
fn auth_test_verify_password_wrong() {
    let manager = AuthManager::new("test-secret-hash".to_string());
    assert!(!manager.verify_password("wrong-password"));
}

#[test]
fn different_tokens_are_unique() {
    let mut manager = AuthManager::new("hash".to_string());
    let t1 = manager.create_session();
    let t2 = manager.create_session();
    assert_ne!(t1, t2);
}

#[test]
fn session_count_tracks_correctly() {
    let mut manager = AuthManager::new("hash".to_string());
    assert_eq!(manager.session_count(), 0);
    let _t1 = manager.create_session();
    assert_eq!(manager.session_count(), 1);
    let _t2 = manager.create_session();
    assert_eq!(manager.session_count(), 2);
    manager.remove_session(&_t1);
    assert_eq!(manager.session_count(), 1);
}

#[test]
fn token_is_sixty_four_lower_hex_digits() {
    let mut manager = AuthManager::new(String::new());
    let token = manager.create_session();
    assert_eq!(token.len(), 64);
    assert!(token.chars().all(|c| matches!(c, '0'..='9' | 'a'..='f')));
}

#[test]
fn token_is_the_hex_notation_of_its_bytes() {
    assert_eq!(token_of(&vec![0x00, 0x0f, 0xa5, 0xff]), "000fa5ff");
    assert_eq!(token_of(&vec![]), "");
    let mut manager = AuthManager::new(String::new());
    let token = manager.open_session(&vec![0xab; 32]);
    assert_eq!(token, "ab".repeat(32));
    assert!(manager.validate_token(&"ab".repeat(32)));
    assert!(!manager.validate_token(&"AB".repeat(32)));
}

#[test]
fn session_opened_twice_counts_once() {
    let mut manager = AuthManager::new(String::new());
    let first = manager.open_session(&vec![7; 32]);
    let second = manager.open_session(&vec![7; 32]);
    assert_eq!(first, second);
    assert_eq!(manager.session_count(), 1);
    manager.remove_session(&first);
    assert_eq!(manager.session_count(), 0);
    manager.remove_session(&first);
    assert_eq!(manager.session_count(), 0);
}

#[test]
fn removing_an_unknown_session_changes_nothing() {
    let mut manager = AuthManager::new(String::new());
    let token = manager.create_session();
    manager.remove_session("unknown");
    assert_eq!(manager.session_count(), 1);
    assert!(manager.validate_token(&token));
}

#[test]
fn manager_without_hash_lets_nobody_in() {
    let manager = AuthManager::new(String::new());
    assert!(!manager.verify_password(""));
    assert!(!manager.verify_password("anything"));
}

#[test]
fn waiting_time_doubles_up_to_the_limit() {
    let waits: Vec<u64> = (1..=7).map(|n| backoff_millis(500, 10000, n)).collect();
    assert_eq!(waits, vec![500, 1000, 2000, 4000, 8000, 10000, 10000]);
    assert_eq!(backoff_millis(500, 10000, u32::MAX), 10000);
}

#[test]
fn waiting_time_at_the_edges() {
    assert_eq!(backoff_millis(0, 10000, 9), 0);
    assert_eq!(backoff_millis(500, 0, 1), 0);
    assert_eq!(backoff_millis(500, 100, 1), 100);
    assert_eq!(backoff_millis(1, u64::MAX, 64), 1 << 63);
    assert_eq!(backoff_millis(1, u64::MAX, 65), u64::MAX);
    assert_eq!(backoff_millis(3, u64::MAX, 63), 3 << 62);
    assert_eq!(backoff_millis(u64::MAX, u64::MAX, 2), u64::MAX);
}

#[test]
fn failure_makes_its_address_wait() {
    let mut manager = IpBackoffManager::new(500, 10000, 5);
    let ip = IpAddr::V4(0x7f000001);
    assert_eq!(manager.check_backoff_at(ip, 0), None);
    assert_eq!(manager.record_failure_at(ip, SECOND), 500);
    assert_eq!(manager.check_backoff_at(ip, SECOND), Some(500_000_000));
    assert_eq!(manager.check_backoff_at(ip, SECOND + 499_999_999), Some(1));
    assert_eq!(manager.check_backoff_at(ip, SECOND + 500_000_000), None);
    assert_eq!(manager.record_failure_at(ip, 2 * SECOND), 1000);
    assert_eq!(manager.check_backoff_at(ip, 2 * SECOND), Some(SECOND));
}

#[test]
fn addresses_wait_apart() {
    let mut manager = IpBackoffManager::new(500, 10000, 5);
    let v4 = IpAddr::V4(1);
    let v6 = IpAddr::V6(1);
    let other = IpAddr::V4(2);
    manager.record_failure_at(v4, 0);
    assert_eq!(manager.check_backoff_at(v6, 0), None);
    assert_eq!(manager.check_backoff_at(other, 0), None);
    manager.record_failure_at(v6, 0);
    manager.record_failure_at(v6, 0);
    assert_eq!(manager.check_backoff_at(v4, 0), Some(500_000_000));
    assert_eq!(manager.check_backoff_at(v6, 0), Some(SECOND));
}

#[test]
fn address_is_cut_off_at_the_most_failures() {
    let mut manager = IpBackoffManager::new(500, 10000, 5);
    let ip = IpAddr::V6(7);
    for _ in 0..4 {
        manager.record_failure_at(ip, 0);
        assert!(!manager.should_disconnect(ip));
    }
    manager.record_failure_at(ip, 0);
    assert!(manager.should_disconnect(ip));
    assert!(!manager.should_disconnect(IpAddr::V6(8)));
    assert_eq!(manager.remaining_attempts(ip), 0);
    assert_eq!(manager.remaining_attempts(IpAddr::V6(8)), 5);
    manager.reset_ip(ip);
    assert!(!manager.should_disconnect(ip));
    assert_eq!(manager.check_backoff_at(ip, 0), None);
    assert_eq!(manager.record_failure_at(ip, 0), 500);
}

#[test]
fn no_failures_allowed_cuts_off_only_after_the_first() {
    let mut manager = IpBackoffManager::new(500, 10000, 0);
    let ip = IpAddr::V4(9);
    assert!(!manager.should_disconnect(ip));
    manager.record_failure_at(ip, 0);
    assert!(manager.should_disconnect(ip));
}

#[test]
fn expired_entries_are_swept_when_another_address_fails() {
    let mut manager = IpBackoffManager::new(500, 10000, 1);
    let ip = IpAddr::V4(1);
    manager.record_failure_at(ip, 0);
    manager.record_failure_at(IpAddr::V4(2), 300 * SECOND - 1);
    assert!(manager.should_disconnect(ip));
    manager.record_failure_at(IpAddr::V4(2), 300 * SECOND);
    assert!(!manager.should_disconnect(ip));
    assert!(manager.should_disconnect(IpAddr::V4(2)));
}

#[test]
fn own_expired_failures_still_count() {
    let mut manager = IpBackoffManager::new(500, 10000, 5);
    let ip = IpAddr::V4(1);
    manager.record_failure_at(ip, 0);
    assert_eq!(manager.record_failure_at(ip, 1000 * SECOND), 1000);
}

#[test]
fn running_wait_is_not_swept() {
    let state = FailureState { failures: 1, last_failure: 0, backoff_until: 400 * SECOND };
    assert!(is_fresh(&state, 350 * SECOND));
    assert!(!is_fresh(&state, 400 * SECOND));
    let early = FailureState { failures: 1, last_failure: 10 * SECOND, backoff_until: 0 };
    assert!(is_fresh(&early, 0));
}

#[test]
fn real_clock_makes_an_address_wait() {
    let mut manager = IpBackoffManager::new(500, 600_000, 5);
    let ip = IpAddr::V4(3);
    assert_eq!(manager.check_backoff(ip), None);
    assert_eq!(manager.record_failure(ip), Duration::from_millis(500));
    for _ in 0..9 {
        manager.record_failure(ip);
    }
    assert_eq!(manager.record_failure(ip), Duration::from_millis(512_000));
    let wait = manager.check_backoff(ip).unwrap();
    assert!(wait <= Duration::from_millis(512_000));
    assert!(wait > Duration::from_millis(400_000));
    manager.reset_ip(ip);
    assert_eq!(manager.check_backoff(ip), None);
}

#[test]
fn clock_goes_on() {
    let manager = IpBackoffManager::new(1, 1, 1);
    let a = manager.now();
    let b = manager.now();
    assert!(a <= b);
    assert!(b < 3600 * SECOND);
}
