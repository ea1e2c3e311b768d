use oauth_gate::model::{ClientData, PendingAuthorization};
use oauth_gate::store::{shard_for, PendingStore, StoreError};

fn client() -> ClientData {
    ClientData {
        client_id: "myid".to_string(),
        client_secret: "mysecret".to_string(),
        redirect_url: "http://localhost:8080/".to_string(),
    }
}

fn pending(token: &str) -> PendingAuthorization {
    PendingAuthorization {
        correlation_token: token.to_string(),
        client: client(),
        scopes: vec!["scopeA".to_string()],
        created_at: 1000,
    }
}

#[test]
fn take_after_put_returns_context() {
    let mut s = PendingStore::new();
    assert_eq!(s.put(pending("t1"), None, 1000), Ok(()));
    assert_eq!(s.take(&"t1".to_string(), 2000), Some(pending("t1")));
}

#[test]
fn take_is_consumed_once() {
    let mut s = PendingStore::new();
    s.put(pending("t1"), None, 0).unwrap();
    let mut successes = 0;
    for now in 0..10u64 {
        if s.take(&"t1".to_string(), now).is_some() {
            successes += 1;
        }
    }
    assert_eq!(successes, 1);
}

#[test]
fn take_of_unknown_token_is_empty() {
    let mut s = PendingStore::new();
    s.put(pending("t1"), None, 0).unwrap();
    assert_eq!(s.take(&"t2".to_string(), 0), None);
    assert_eq!(s.take(&"t1".to_string(), 0), Some(pending("t1")));
}

#[test]
fn put_refuses_live_duplicate() {
    let mut s = PendingStore::new();
    s.put(pending("t1"), None, 0).unwrap();
    let mut other = pending("t1");
    other.created_at = 5;
    assert_eq!(s.put(other, None, 10), Err(StoreError::DuplicateToken));
    assert_eq!(s.take(&"t1".to_string(), 10), Some(pending("t1")));
}

#[test]
fn expired_entry_is_gone() {
    let mut s = PendingStore::new();
    s.put(pending("t1"), Some(50), 1000).unwrap();
    assert_eq!(s.take(&"t1".to_string(), 1100), None);
}

#[test]
fn entry_before_deadline_is_live() {
    let mut s = PendingStore::new();
    s.put(pending("t1"), Some(50), 1000).unwrap();
    assert_eq!(s.take(&"t1".to_string(), 1049), Some(pending("t1")));
}

#[test]
fn entry_at_deadline_is_gone() {
    let mut s = PendingStore::new();
    s.put(pending("t1"), Some(50), 1000).unwrap();
    assert_eq!(s.take(&"t1".to_string(), 1050), None);
}

#[test]
fn expired_entry_may_be_replaced() {
    let mut s = PendingStore::new();
    s.put(pending("t1"), Some(50), 1000).unwrap();
    let mut fresh = pending("t1");
    fresh.created_at = 2000;
    assert_eq!(s.put(fresh.clone(), None, 2000), Ok(()));
    assert_eq!(s.take(&"t1".to_string(), 9000), Some(fresh));
}

#[test]
fn huge_ttl_saturates() {
    let mut s = PendingStore::new();
    s.put(pending("t1"), Some(u64::MAX), 10).unwrap();
    assert_eq!(s.take(&"t1".to_string(), u64::MAX - 1), Some(pending("t1")));
}

#[test]
fn distinct_tokens_are_independent() {
    let mut s = PendingStore::new();
    s.put(pending("a"), None, 0).unwrap();
    s.put(pending("b"), None, 0).unwrap();
    s.put(pending("c"), None, 0).unwrap();
    assert_eq!(s.take(&"b".to_string(), 0), Some(pending("b")));
    assert_eq!(s.take(&"a".to_string(), 0), Some(pending("a")));
    assert_eq!(s.take(&"b".to_string(), 0), None);
    assert_eq!(s.take(&"c".to_string(), 0), Some(pending("c")));
}

#[test]
fn shard_is_code_point_sum_modulo() {
    // 'a' + 'b' = 97 + 98 = 195
    assert_eq!(shard_for(&"ab".to_string(), 16), 195 % 16);
    assert_eq!(shard_for(&"ab".to_string(), 1), 0);
    assert_eq!(shard_for(&String::new(), 7), 0);
    assert_eq!(shard_for(&"\u{e9}".to_string(), 100), 233 % 100);
}

#[test]
fn shard_is_stable_and_in_range() {
    for t in ["x", "abc", "Zm9vYmFy+/==", "state-123"] {
        let s1 = shard_for(&t.to_string(), 8);
        assert!(s1 < 8);
        assert_eq!(s1, shard_for(&t.to_string(), 8));
    }
}
