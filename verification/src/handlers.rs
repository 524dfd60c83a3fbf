//! The request handlers' decision logic: login, logout, the "who am I"
//! query, and the protected item query.
//!
//! Each function works on the session table, the credential store and the
//! identity the auth gate attached; transport, cookies and rendering stay
//! with the host.

use vstd::prelude::*;
use crate::AuthError;
use crate::backend::{Backend, User};
use crate::client::AppUser;
use crate::hashing::password_matches;
use crate::items::{ItemStore, spec_items_for};
use crate::session::{SessionManager, session_live, spec_bind, spec_unbind};

verus! {

/// Checks the credentials and, on a match, binds the identity to the live
/// session named by `token`. Bad credentials fail with
/// `InvalidCredentials` — unknown user and wrong password alike; good
/// credentials presented without a live session fail with
/// `NotAuthenticated`. Only a successful login changes the table.
pub fn login(
    backend: &Backend,
    manager: &mut SessionManager,
    token: &String,
    username: String,
    password: String,
    now: u64,
) -> (r: Result<(), AuthError>)
    requires
        backend.wf(),
        old(manager).wf(),
        now + old(manager).spec_window() <= u64::MAX,
    ensures
        final(manager).wf(),
        final(manager).spec_window() == old(manager).spec_window(),
        ({
            let good = backend@.contains_key(username@)
                && password_matches(backend@[username@], password@);
            match r {
                Ok(()) => good && session_live(old(manager)@, token@, now)
                    && final(manager)@ == spec_bind(
                    old(manager)@,
                    token@,
                    username@,
                    (now + old(manager).spec_window()) as u64,
                ),
                Err(AuthError::InvalidCredentials) => !good && final(manager)@ == old(manager)@,
                Err(AuthError::NotAuthenticated) => good
                    && !session_live(old(manager)@, token@, now)
                    && final(manager)@ == old(manager)@,
            }
        }),
{
    match backend.authenticate((username, password)) {
        Some(user) => {
            if manager.bind(token, user.username, now) {
                Ok(())
            } else {
                Err(AuthError::NotAuthenticated)
            }
        },
        None => Err(AuthError::InvalidCredentials),
    }
}

/// Unbinds whatever identity the token carries. Succeeds whether or not the
/// session was authenticated — or even present — so a second logout is a
/// no-op with the same observable outcome.
pub fn logout(manager: &mut SessionManager, token: &String) -> (r: Result<(), AuthError>)
    requires
        old(manager).wf(),
    ensures
        final(manager).wf(),
        final(manager).spec_window() == old(manager).spec_window(),
        final(manager)@ == spec_unbind(old(manager)@, token@),
        r == Ok::<(), AuthError>(()),
{
    manager.unbind(token);
    Ok(())
}

/// The "who am I" answer: the identity the auth gate attached, as the client
/// mirrors it.
pub fn current_user(user: &Option<User>) -> (r: Option<AppUser>)
    ensures
        match user {
            Some(u) => r matches Some(a) && a.username@ == u.username@,
            None => r is None,
        },
{
    match user {
        Some(u) => Some(AppUser { username: u.username.clone() }),
        None => None,
    }
}

/// The protected query: with an authenticated identity attached it returns
/// exactly that identity's items; without one it fails with
/// `NotAuthenticated` and reads nothing.
pub fn items(store: &ItemStore, user: &Option<User>) -> (r: Result<Vec<String>, AuthError>)
    ensures
        match user {
            Some(u) => r matches Ok(v) && v.deep_view() == spec_items_for(
                store.items@,
                u.username@,
            ),
            None => r matches Err(e) && e == AuthError::NotAuthenticated,
        },
{
    match user {
        Some(u) => Ok(store.list_items_for(&u.username)),
        None => Err(AuthError::NotAuthenticated),
    }
}

} // verus!
