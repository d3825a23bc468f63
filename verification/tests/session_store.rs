use customer_identity::controllers::identity::{
    get_user_session_from_req, renew_session,
};
use customer_identity::controllers::scopes::SessionScopes;
use customer_identity::session_store::SessionStore;
use customer_identity::storage::{SessionWrite, StoreRead};
use customer_identity::types::response::{HeaderValue, HttpStatus};
use customer_identity::utilities::token::create_token;

#[test]
fn empty_store_holds_nothing() {
    let store = SessionStore::new();
    assert_eq!(store.get("k", 0), StoreRead::Missing);
    assert_eq!(store.get("", 0), StoreRead::Missing);
}

#[test]
fn put_then_get() {
    let mut store = SessionStore::new();
    store.put("token", "customer", 60, 1000);
    assert_eq!(store.get("token", 1000), StoreRead::Found("customer".to_string()));
    assert_eq!(store.get("token", 1059), StoreRead::Found("customer".to_string()));
    assert_eq!(store.get("other", 1000), StoreRead::Missing);
}

#[test]
fn entries_expire() {
    let mut store = SessionStore::new();
    store.put("token", "customer", 60, 1000);
    assert_eq!(store.get("token", 1060), StoreRead::Missing);
    assert_eq!(store.get("token", 5000), StoreRead::Missing);
    store.put("zero", "customer", 0, 1000);
    assert_eq!(store.get("zero", 1000), StoreRead::Missing);
}

#[test]
fn expiry_saturates() {
    let mut store = SessionStore::new();
    store.put("token", "customer", u64::MAX, 1000);
    assert_eq!(store.get("token", u64::MAX - 1), StoreRead::Found("customer".to_string()));
    assert_eq!(store.get("token", u64::MAX), StoreRead::Missing);
}

#[test]
fn put_replaces_what_the_key_held() {
    let mut store = SessionStore::new();
    store.put("a", "1", 10, 0);
    store.put("b", "2", 10, 0);
    store.put("a", "3", 100, 5);
    assert_eq!(store.get("a", 50), StoreRead::Found("3".to_string()));
    assert_eq!(store.get("b", 5), StoreRead::Found("2".to_string()));
    assert_eq!(store.get("b", 50), StoreRead::Missing);
}

#[test]
fn renew_extends_a_live_entry() {
    let mut store = SessionStore::new();
    store.put("a", "1", 10, 0);
    assert!(store.renew("a", 100, 9));
    assert_eq!(store.get("a", 108), StoreRead::Found("1".to_string()));
    assert_eq!(store.get("a", 109), StoreRead::Missing);
}

#[test]
fn renew_leaves_a_dead_entry_dead() {
    let mut store = SessionStore::new();
    store.put("a", "1", 10, 0);
    assert!(!store.renew("a", 100, 10));
    assert_eq!(store.get("a", 10), StoreRead::Missing);
    assert!(!store.renew("never", 100, 0));
    assert_eq!(store.get("never", 0), StoreRead::Missing);
}

#[test]
fn delete_forgets_only_its_key() {
    let mut store = SessionStore::new();
    store.put("a", "1", 10, 0);
    store.put("b", "2", 10, 0);
    store.put("c", "3", 10, 0);
    store.delete("b");
    assert_eq!(store.get("a", 0), StoreRead::Found("1".to_string()));
    assert_eq!(store.get("b", 0), StoreRead::Missing);
    assert_eq!(store.get("c", 0), StoreRead::Found("3".to_string()));
    store.delete("b");
    store.delete("zzz");
    assert_eq!(store.get("a", 0), StoreRead::Found("1".to_string()));
    store.put("b", "4", 10, 0);
    assert_eq!(store.get("b", 0), StoreRead::Found("4".to_string()));
}

#[test]
fn session_lives_as_long_as_token_and_store_agree() {
    let key = b"signing-key";
    let now = 1_700_000_000;
    let token = create_token(
        &"c1".to_string(),
        vec![SessionScopes::TotalAccess],
        "issuer",
        key,
        3600,
        now,
    )
    .unwrap();
    let header = HeaderValue::Text(token.clone());
    let mut store = SessionStore::new();
    store.write(&SessionWrite { token: token.clone(), value: "c1".to_string(), ttl: 600 }, now);

    let stored = store.get(&token, now + 599);
    assert!(get_user_session_from_req(&header, &stored, key, now + 599).is_ok());

    // The store has let go of the token; the token itself is still good.
    let stored = store.get(&token, now + 600);
    let (status, _) = get_user_session_from_req(&header, &stored, key, now + 600).unwrap_err();
    assert_eq!(status, HttpStatus::UNAUTHORIZED);

    // Renewed in time, the session goes on until the token expires.
    let stored = store.get(&token, now + 599);
    let write = renew_session(&header, &stored).unwrap();
    store.write(&write, now + 599);
    let stored = store.get(&token, now + 3600);
    assert!(get_user_session_from_req(&header, &stored, key, now + 3600).is_ok());
    let stored = store.get(&token, now + 3601);
    let (status, response) =
        get_user_session_from_req(&header, &stored, key, now + 3601).unwrap_err();
    assert_eq!(status, HttpStatus::UNAUTHORIZED);
    assert_eq!(response.message, "unauthorized: token.expired");

    // Deleted, the session is over at once.
    store.delete(&token);
    let stored = store.get(&token, now);
    assert!(get_user_session_from_req(&header, &stored, key, now).is_err());
}

#[test]
fn store_entry_of_another_grant_does_not_open_a_session() {
    let key = b"signing-key";
    let now = 1_700_000_000;
    let mine = create_token(&"c1".to_string(), vec![SessionScopes::TotalAccess], "i", key, 60, now)
        .unwrap();
    let mut store = SessionStore::new();
    store.put(&mine, "c2", 600, now);
    let stored = store.get(&mine, now);
    let (status, response) =
        get_user_session_from_req(&HeaderValue::Text(mine), &stored, key, now).unwrap_err();
    assert_eq!((status, response.message.as_str()), (HttpStatus::UNAUTHORIZED, "unauthorized"));
}
