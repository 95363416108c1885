use user_management::sessions::{
    one_time_session_category, state_key, OneTimeSessions, SessionTable, Sessions,
    SESSION_CATEGORY, STATE_STORE,
};

#[test]
fn opened_session_accepts_its_token() {
    let mut s = Sessions::new();
    assert!(s.open("refresh-token-one", 100).is_ok());
    assert!(s.accepts(b"refresh-token-one"));
    assert!(!s.accepts(b"refresh-token-two"));
    let entries = s.iter();
    assert_eq!(entries.len(), 1);
    assert_eq!(entries[0].1, 100);
    assert!(entries[0].0.starts_with("$argon2id$"));
}

#[test]
fn revoke_all_rejects_every_token() {
    let mut s = Sessions::new();
    s.open("a-first-token", 10).unwrap();
    s.open("a-second-token", 20).unwrap();
    assert_eq!(s.iter().len(), 2);
    s.revoke_all();
    assert!(s.iter().is_empty());
    assert!(!s.accepts(b"a-first-token"));
    assert!(!s.accepts(b"a-second-token"));
}

#[test]
fn one_time_token_is_accepted_once() {
    let mut s = OneTimeSessions::new();
    s.open("one-time-token", 1_000).unwrap();
    assert!(s.redeem_at(b"one-time-token", 500));
    assert!(!s.redeem_at(b"one-time-token", 500));
    assert!(s.iter().is_empty());
}

#[test]
fn expired_one_time_token_is_rejected_and_dropped() {
    let mut s = OneTimeSessions::new();
    s.open("old-token", 100).unwrap();
    s.open("new-token", 300).unwrap();
    assert!(!s.redeem_at(b"old-token", 100));
    let left = s.iter();
    assert_eq!(left.len(), 1);
    assert_eq!(left[0].1, 300);
    assert!(s.redeem_at(b"new-token", 299));
}

#[test]
fn clear_expired_keeps_future_sessions() {
    let mut s = Sessions::new();
    s.open("long-gone-token", 1).unwrap();
    s.open("far-future-token", i64::MAX).unwrap();
    s.clear_expired();
    let left = s.iter();
    assert_eq!(left.len(), 1);
    assert_eq!(left[0].1, i64::MAX);
    assert!(s.accepts(b"far-future-token"));
}

#[test]
fn one_time_redeem_against_clock() {
    let mut s = OneTimeSessions::new();
    s.open("clock-token", i64::MAX).unwrap();
    assert!(s.redeem(b"clock-token"));
    assert!(!s.redeem(b"clock-token"));
}

#[test]
fn table_insert_replaces_expiry_of_same_hash() {
    let mut t = SessionTable::new();
    t.insert("h1".to_string(), 5);
    t.insert("h2".to_string(), 6);
    t.insert("h1".to_string(), 7);
    assert_eq!(t.to_vec(), vec![("h1".to_string(), 7), ("h2".to_string(), 6)]);
}

#[test]
fn table_from_entries_keeps_later_expiry() {
    let t = SessionTable::from_entries(vec![
        ("a".to_string(), 1),
        ("b".to_string(), 2),
        ("a".to_string(), 3),
    ]);
    assert_eq!(t.to_vec(), vec![("a".to_string(), 3), ("b".to_string(), 2)]);
}

#[test]
fn table_retain_unexpired_is_strict() {
    let mut t = SessionTable::from_entries(vec![
        ("a".to_string(), 10),
        ("b".to_string(), 11),
        ("c".to_string(), 9),
    ]);
    t.retain_unexpired(10);
    assert_eq!(t.to_vec(), vec![("b".to_string(), 11)]);
    t.retain_unexpired(10);
    assert_eq!(t.to_vec(), vec![("b".to_string(), 11)]);
}

#[test]
fn table_take_first_match_removes_one_entry() {
    let mut t = SessionTable::new();
    assert!(t.open("token-x-123", 50).is_ok());
    assert!(t.open("token-y-456", 60).is_ok());
    assert!(t.holds(b"token-y-456"));
    assert!(t.take_first_match(b"token-y-456"));
    assert!(!t.holds(b"token-y-456"));
    assert!(t.holds(b"token-x-123"));
    assert_eq!(t.to_vec().len(), 1);
    assert!(!t.take_first_match(b"token-y-456"));
}

#[test]
fn table_clear_empties() {
    let mut t = SessionTable::from_entries(vec![("a".to_string(), 1)]);
    t.clear();
    assert!(t.to_vec().is_empty());
}

#[test]
fn state_keys() {
    assert_eq!(state_key(SESSION_CATEGORY, "0123"), "sessions--0123");
    assert_eq!(one_time_session_category("lost_password"), "one_time_lost_password");
    assert_eq!(
        state_key(&one_time_session_category("google"), "u"),
        "one_time_google--u"
    );
    assert_eq!(STATE_STORE, "state_store");
}
