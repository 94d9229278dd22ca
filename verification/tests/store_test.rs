use mini_tiktok_auth::credential_store::CredentialStore;
use mini_tiktok_auth::protocol::TTL_SECONDS;
use mini_tiktok_auth::session_cache::SessionCache;

#[test]
fn set_then_get_refreshes() {
    let mut cache = SessionCache::new();
    cache.set("tok".to_string(), 5, 100);

    // Just inside the window: live, and the expiry slides forward.
    let first = cache.get_and_refresh(&"tok".to_string(), 100 + TTL_SECONDS - 1);
    assert_eq!(first, Some(5));

    // Inside the window the refresh opened, far outside the first one.
    let second = cache.get_and_refresh(&"tok".to_string(), 100 + 2 * (TTL_SECONDS - 1));
    assert_eq!(second, Some(5));
}

#[test]
fn expires_exactly_at_ttl() {
    let mut cache = SessionCache::new();
    cache.set("tok".to_string(), 5, 100);
    assert_eq!(cache.get_and_refresh(&"tok".to_string(), 100 + TTL_SECONDS), None);
    // An expired entry stays dead.
    assert_eq!(cache.get_and_refresh(&"tok".to_string(), 100 + TTL_SECONDS + 1), None);
}

#[test]
fn set_overwrites_mapping() {
    let mut cache = SessionCache::new();
    cache.set("tok".to_string(), 5, 100);
    cache.set("tok".to_string(), 9, 200);
    assert_eq!(cache.get_and_refresh(&"tok".to_string(), 300), Some(9));
}

#[test]
fn distinct_tokens_distinct_sessions() {
    let mut cache = SessionCache::new();
    cache.set("tok-a".to_string(), 5, 100);
    cache.set("tok-b".to_string(), 9, 100);
    assert_eq!(cache.get_and_refresh(&"tok-a".to_string(), 200), Some(5));
    assert_eq!(cache.get_and_refresh(&"tok-b".to_string(), 200), Some(9));
    assert_eq!(cache.get_and_refresh(&"tok-c".to_string(), 200), None);
}

#[test]
fn find_user_returns_first_match() {
    let mut store = CredentialStore::new();
    store.add_user("alice".to_string(), 1, "hash-one".to_string());
    store.add_user("bob".to_string(), 2, "hash-two".to_string());
    store.add_user("alice".to_string(), 3, "hash-three".to_string());

    let (user_id, hash) = store.find_user(&"alice".to_string()).unwrap();
    assert_eq!(user_id, 1);
    assert_eq!(hash, "hash-one");

    let (bob_id, _) = store.find_user(&"bob".to_string()).unwrap();
    assert_eq!(bob_id, 2);

    assert_eq!(store.find_user(&"mallory".to_string()), None);
}
