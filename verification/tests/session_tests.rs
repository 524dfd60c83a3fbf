use auth_core::backend::{create_backend, seed_user, Backend};
use auth_core::gate::resolve_request;
use auth_core::handlers::{items, login, logout};
use auth_core::items::ItemStore;
use auth_core::session::{Resolution, SessionManager, DEFAULT_WINDOW_SECONDS};
use auth_core::AuthError;

fn seeded_store() -> ItemStore {
    let mut store = ItemStore::new();
    store.add("item1".to_string(), "user1".to_string());
    store.add("item2".to_string(), "user1".to_string());
    store.add("item3".to_string(), "user2".to_string());
    store
}

#[test]
fn bind_resolve_unbind() {
    let mut mgr = SessionManager::new(600);
    let t0 = mgr.create_anonymous(1000);
    assert!(matches!(mgr.resolve(&t0, 1001), Resolution::Anonymous));
    assert!(mgr.bind(&t0, "user1".to_string(), 1010));
    match mgr.resolve(&t0, 1020) {
        Resolution::Authenticated(id) => assert_eq!(id, "user1"),
        _ => panic!("a bound live token must resolve authenticated"),
    }
    mgr.unbind(&t0);
    assert!(matches!(mgr.resolve(&t0, 1030), Resolution::Anonymous));
}

#[test]
fn sliding_expiry() {
    let mut mgr = SessionManager::new(600);
    let t = mgr.create_anonymous(1000);
    // Live through the whole window...
    assert!(matches!(mgr.resolve(&t, 1600), Resolution::Anonymous));
    // ...gone once the window has elapsed with no touch.
    assert!(matches!(mgr.resolve(&t, 1601), Resolution::NotFound));
}

#[test]
fn touch_renews_expiry() {
    let mut mgr = SessionManager::new(600);
    let t = mgr.create_anonymous(1000);
    assert!(mgr.bind(&t, "user1".to_string(), 1000));
    assert!(mgr.touch(&t, 1500));
    // Without the touch the session would have expired at 1600.
    assert!(matches!(mgr.resolve(&t, 2000), Resolution::Authenticated(_)));
    assert!(matches!(mgr.resolve(&t, 2101), Resolution::NotFound));
    // A dead session cannot be touched back to life.
    assert!(!mgr.touch(&t, 2500));
    assert!(!mgr.bind(&t, "user1".to_string(), 2500));
}

#[test]
fn fresh_tokens_distinct() {
    let mut mgr = SessionManager::new(DEFAULT_WINDOW_SECONDS);
    let a = mgr.create_anonymous(0);
    let b = mgr.create_anonymous(0);
    assert_ne!(a, b);
    assert!(matches!(mgr.resolve(&a, 1), Resolution::Anonymous));
    assert!(matches!(mgr.resolve(&b, 1), Resolution::Anonymous));
}

#[test]
fn unknown_token_not_found() {
    let mgr = SessionManager::new(600);
    assert!(matches!(mgr.resolve(&"no such token".to_string(), 0), Resolution::NotFound));
}

#[test]
fn login_success_and_failures() {
    let backend = create_backend();
    let mut mgr = SessionManager::new(600);
    let t = mgr.create_anonymous(1000);

    // Wrong password and unknown user fail alike.
    assert_eq!(
        login(&backend, &mut mgr, &t, "user1".to_string(), "wrong".to_string(), 1001),
        Err(AuthError::InvalidCredentials)
    );
    assert_eq!(
        login(&backend, &mut mgr, &t, "ghost".to_string(), "1234".to_string(), 1001),
        Err(AuthError::InvalidCredentials)
    );
    // A failed login leaves the session anonymous.
    assert!(matches!(mgr.resolve(&t, 1001), Resolution::Anonymous));

    // Good credentials on a live session succeed.
    assert_eq!(login(&backend, &mut mgr, &t, "user1".to_string(), "1234".to_string(), 1002), Ok(()));
    match mgr.resolve(&t, 1003) {
        Resolution::Authenticated(id) => assert_eq!(id, "user1"),
        _ => panic!("login must authenticate the session"),
    }

    // Good credentials without a live session fail closed.
    assert_eq!(
        login(&backend, &mut mgr, &t, "user1".to_string(), "1234".to_string(), 5000),
        Err(AuthError::NotAuthenticated)
    );

    // Bad credentials report InvalidCredentials even when the session is
    // dead as well.
    assert_eq!(
        login(&backend, &mut mgr, &"nope".to_string(), "user1".to_string(), "wrong".to_string(), 5000),
        Err(AuthError::InvalidCredentials)
    );
}

#[test]
fn logout_is_idempotent() {
    let backend = create_backend();
    let mut mgr = SessionManager::new(600);
    let t = mgr.create_anonymous(1000);
    assert_eq!(login(&backend, &mut mgr, &t, "user1".to_string(), "1234".to_string(), 1001), Ok(()));
    assert_eq!(logout(&mut mgr, &t), Ok(()));
    assert!(matches!(mgr.resolve(&t, 1002), Resolution::Anonymous));
    assert_eq!(logout(&mut mgr, &t), Ok(()));
    assert!(matches!(mgr.resolve(&t, 1002), Resolution::Anonymous));
    // Even on a token that never existed, logout reports success.
    assert_eq!(logout(&mut mgr, &"no such token".to_string()), Ok(()));
}

#[test]
fn protected_query_requires_identity() {
    let store = seeded_store();
    let backend = create_backend();

    // Anonymous: refused, fail closed.
    assert_eq!(items(&store, &None), Err(AuthError::NotAuthenticated));

    // Authenticated as user1: exactly user1's items, in store order.
    let user = backend.get_user(&"user1".to_string());
    assert_eq!(
        items(&store, &user),
        Ok(vec!["item1".to_string(), "item2".to_string()])
    );

    // Authenticated as user2: only user2's items.
    let user2 = backend.get_user(&"user2".to_string());
    assert_eq!(items(&store, &user2), Ok(vec!["item3".to_string()]));
}

#[test]
fn items_for_unknown_identity_empty() {
    let store = seeded_store();
    let ghost_user = seed_user("ghost".to_string(), "pw");
    assert_eq!(items(&store, &Some(ghost_user)), Ok(Vec::new()));
}

#[test]
fn gate_issues_fresh_session_without_cookie() {
    let backend = create_backend();
    let mut mgr = SessionManager::new(600);
    let (token, user) = resolve_request(&mut mgr, &backend, None, 1000);
    assert!(user.is_none());
    assert!(matches!(mgr.resolve(&token, 1000), Resolution::Anonymous));
}

#[test]
fn gate_replaces_unknown_or_expired_token() {
    let backend = create_backend();
    let mut mgr = SessionManager::new(600);

    let stale = "stale token".to_string();
    let (fresh, user) = resolve_request(&mut mgr, &backend, Some(&stale), 1000);
    assert!(user.is_none());
    assert_ne!(fresh, stale);

    let t = mgr.create_anonymous(2000);
    let (fresh2, user2) = resolve_request(&mut mgr, &backend, Some(&t), 9000);
    assert!(user2.is_none());
    assert_ne!(fresh2, t);
}

#[test]
fn gate_attaches_identity_and_renews() {
    let backend = create_backend();
    let mut mgr = SessionManager::new(600);
    let t = mgr.create_anonymous(1000);
    assert_eq!(login(&backend, &mut mgr, &t, "user1".to_string(), "1234".to_string(), 1001), Ok(()));

    let (token, user) = resolve_request(&mut mgr, &backend, Some(&t), 1500);
    assert_eq!(token, t);
    assert_eq!(user.unwrap().username, "user1");
    // The auth gate renewed the window: live well past the login's expiry.
    assert!(matches!(mgr.resolve(&t, 2100), Resolution::Authenticated(_)));
}

#[test]
fn gate_demotes_vanished_identity() {
    // The session is bound to an identity the store no longer holds: the
    // gate fails closed, demoting the session to anonymous.
    let backend = Backend::new(vec![seed_user("other".to_string(), "pw")]);
    let mut mgr = SessionManager::new(600);
    let t = mgr.create_anonymous(1000);
    assert!(mgr.bind(&t, "vanished".to_string(), 1001));

    let (token, user) = resolve_request(&mut mgr, &backend, Some(&t), 1002);
    assert_eq!(token, t);
    assert!(user.is_none());
    assert!(matches!(mgr.resolve(&t, 1003), Resolution::Anonymous));
}

#[test]
fn session_window_configured() {
    let mgr = SessionManager::new(DEFAULT_WINDOW_SECONDS);
    assert_eq!(mgr.window(), 600);
    let short = SessionManager::new(5);
    assert_eq!(short.window(), 5);
}
