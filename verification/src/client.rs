//! The client-held mirror of the authenticated identity.
//!
//! A non-authoritative cache: it gates navigation to protected views for the
//! user's convenience, is refreshed from the server after login and logout,
//! and is never consulted for an authorization decision — the server
//! re-checks every protected operation.

use vstd::prelude::*;

verus! {

/// The identity as the client knows it.
#[derive(Debug, Clone)]
pub struct AppUser {
    pub username: String,
}

/// The client-local auth state: the identity last confirmed by the server,
/// or none.
pub struct ClientAuthState {
    pub user: Option<AppUser>,
}

impl ClientAuthState {
    /// A fresh client starts signed out.
    pub fn new() -> (r: ClientAuthState)
        ensures
            r.user is None,
    {
        ClientAuthState { user: None }
    }

    /// Records a login attempt's outcome: the identity on success, signed
    /// out on failure.
    pub fn apply_login_result(&mut self, username: String, succeeded: bool)
        ensures
            succeeded ==> (final(self).user matches Some(u) && u.username@ == username@),
            !succeeded ==> final(self).user is None,
    {
        if succeeded {
            self.user = Some(AppUser { username });
        } else {
            self.user = None;
        }
    }

    /// Signs the client out immediately, ahead of the server's confirmation.
    pub fn clear(&mut self)
        ensures
            final(self).user is None,
    {
        self.user = None;
    }

    /// Reconciles the cache with the server's answer to "who am I": a signed
    /// out or diverging answer clears the cache, a confirming answer keeps
    /// it.
    pub fn sync_with_server(&mut self, server: Option<AppUser>)
        ensures
            match server {
                None => final(self).user is None,
                Some(su) => match old(self).user {
                    None => final(self).user is None,
                    Some(lu) => if lu.username@ == su.username@ {
                        final(self).user == old(self).user
                    } else {
                        final(self).user is None
                    },
                },
            },
    {
        match server {
            None => {
                self.user = None;
            },
            Some(su) => {
                match &self.user {
                    None => {},
                    Some(lu) => {
                        if lu.username != su.username {
                            self.user = None;
                        }
                    },
                }
            },
        }
    }

    /// Whether the client may render a protected view; otherwise it shows
    /// the login view instead. A convenience, not a security boundary.
    pub fn should_render_protected(&self) -> (r: bool)
        ensures
            r == (self.user is Some),
    {
        self.user.is_some()
    }
}

} // verus!
