use auth_core::backend::{create_backend, credentials_match, seed_user, Backend, User};
use auth_core::client::{AppUser, ClientAuthState};
use auth_core::handlers::current_user;

#[test]
fn hash_round_trip() {
    let a = seed_user("alice".to_string(), "correct horse");
    let b = seed_user("alice".to_string(), "correct horse");
    // Fresh salts: two hashes of one password are distinct strings...
    assert_ne!(a.password_hash, b.password_hash);
    // ...and neither is the plaintext itself.
    assert_ne!(a.password_hash, "correct horse");
    assert_ne!(b.password_hash, "correct horse");
    // ...yet both verify against the password they hash.
    assert!(credentials_match(&a, "correct horse"));
    assert!(credentials_match(&b, "correct horse"));
}

#[test]
fn wrong_password_rejected() {
    let u = seed_user("alice".to_string(), "p2");
    assert!(!credentials_match(&u, "p1"));
    assert!(!credentials_match(&u, ""));
    assert!(!credentials_match(&u, "p2 "));
}

#[test]
fn malformed_stored_hash_rejected() {
    let u = User {
        username: "alice".to_string(),
        password_hash: "not a phc string".to_string(),
    };
    assert!(!credentials_match(&u, "anything"));
    assert!(!credentials_match(&u, "not a phc string"));
}

#[test]
fn authenticate_seeded_store() {
    let backend = create_backend();
    let hit = backend.authenticate(("user1".to_string(), "1234".to_string()));
    match hit {
        Some(u) => assert_eq!(u.username, "user1"),
        None => panic!("seeded credentials must authenticate"),
    }
    assert!(backend.authenticate(("user1".to_string(), "wrong".to_string())).is_none());
    assert!(backend.authenticate(("ghost".to_string(), "1234".to_string())).is_none());
    let hit2 = backend.authenticate(("user2".to_string(), "5678".to_string()));
    match hit2 {
        Some(u) => assert_eq!(u.username, "user2"),
        None => panic!("seeded credentials must authenticate"),
    }
}

#[test]
fn get_user_lookup() {
    let backend = create_backend();
    let u = backend.get_user(&"user1".to_string());
    match u {
        Some(u) => assert_eq!(u.username, "user1"),
        None => panic!("seeded identity must resolve"),
    }
    assert!(backend.get_user(&"ghost".to_string()).is_none());
    assert_eq!(backend.get_user(&"user1".to_string()).unwrap().id(), "user1");
}

#[test]
fn backend_new_keeps_users() {
    let u = seed_user("solo".to_string(), "pw");
    let backend = Backend::new(vec![u]);
    assert!(backend.get_user(&"solo".to_string()).is_some());
    assert!(backend.authenticate(("solo".to_string(), "pw".to_string())).is_some());
}

#[test]
fn current_user_mirrors_attached_identity() {
    let backend = create_backend();
    let user = backend.get_user(&"user1".to_string());
    let mirrored = current_user(&user);
    assert_eq!(mirrored.unwrap().username, "user1");
    assert!(current_user(&None).is_none());
}

#[test]
fn client_state_login_logout() {
    let mut state = ClientAuthState::new();
    assert!(!state.should_render_protected());
    state.apply_login_result("user1".to_string(), true);
    assert!(state.should_render_protected());
    assert_eq!(state.user.as_ref().unwrap().username, "user1");
    state.clear();
    assert!(!state.should_render_protected());
    state.apply_login_result("user1".to_string(), false);
    assert!(state.user.is_none());
}

#[test]
fn client_state_server_sync() {
    // A signed-out server answer clears the cache.
    let mut state = ClientAuthState::new();
    state.apply_login_result("user1".to_string(), true);
    state.sync_with_server(None);
    assert!(state.user.is_none());

    // A confirming answer keeps it.
    state.apply_login_result("user1".to_string(), true);
    state.sync_with_server(Some(AppUser { username: "user1".to_string() }));
    assert_eq!(state.user.as_ref().unwrap().username, "user1");

    // A diverging answer clears it.
    state.sync_with_server(Some(AppUser { username: "user2".to_string() }));
    assert!(state.user.is_none());

    // A server answer with no local identity leaves the client signed out.
    state.sync_with_server(Some(AppUser { username: "user1".to_string() }));
    assert!(state.user.is_none());
}
