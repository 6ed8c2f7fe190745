use session_auth::store::TtlStore;

#[test]
fn set_then_get_returns_value() {
    let mut store = TtlStore::new();
    store.set_ex("k".to_string(), "v".to_string(), 10, 100);
    assert_eq!(store.get("k", 100), Some("v".to_string()));
    assert_eq!(store.get("k", 109), Some("v".to_string()));
    assert_eq!(store.get("absent", 100), None);
}

#[test]
fn record_expires_at_deadline() {
    let mut store = TtlStore::new();
    store.set_ex("k".to_string(), "v".to_string(), 10, 100);
    assert_eq!(store.get("k", 110), None);
    assert_eq!(store.get("k", 200), None);
}

#[test]
fn overwrite_replaces_value_and_deadline() {
    let mut store = TtlStore::new();
    store.set_ex("k".to_string(), "old".to_string(), 10, 100);
    store.set_ex("k".to_string(), "new".to_string(), 50, 105);
    assert_eq!(store.get("k", 120), Some("new".to_string()));
    assert_eq!(store.get("k", 155), None);
}

#[test]
fn del_reports_live_presence() {
    let mut store = TtlStore::new();
    store.set_ex("k".to_string(), "v".to_string(), 10, 100);
    assert!(store.del("k", 101));
    assert!(!store.del("k", 102));
    assert_eq!(store.get("k", 101), None);
}

#[test]
fn del_of_expired_record_reports_false() {
    let mut store = TtlStore::new();
    store.set_ex("k".to_string(), "v".to_string(), 10, 100);
    assert!(!store.del("k", 110));
    assert_eq!(store.get("k", 100), None);
}

#[test]
fn keys_are_independent() {
    let mut store = TtlStore::new();
    store.set_ex("a".to_string(), "1".to_string(), 10, 0);
    store.set_ex("b".to_string(), "2".to_string(), 10, 0);
    assert!(store.del("a", 1));
    assert_eq!(store.get("a", 1), None);
    assert_eq!(store.get("b", 1), Some("2".to_string()));
}
