//! The per-request auth gate.
//!
//! The single chokepoint every request passes before its handler runs: it
//! resolves the presented session token, replaces a missing, unknown or
//! expired one with a fresh anonymous session, re-hydrates the bound
//! identity from the credential store — demoting the session if the identity
//! no longer resolves, fail closed — and renews the sliding expiry.

use vstd::prelude::*;
use crate::backend::{Backend, User};
use crate::session::{
    SessionManager, SessionState, Resolution, session_live, spec_touch, spec_unbind,
};

verus! {

/// A fresh anonymous session was issued: a token not in the old table, now
/// bound to no identity and live until `expiry`.
pub open spec fn issued_fresh(
    m0: Map<Seq<char>, SessionState>,
    m1: Map<Seq<char>, SessionState>,
    token: Seq<char>,
    expiry: u64,
) -> bool {
    !m0.contains_key(token) && m1 == m0.insert(
        token,
        SessionState { identity: None, expiry },
    )
}

/// Resolves one request's session. Returns the token the response cookie
/// must carry (the presented one, or a fresh one) and the identity attached
/// to the request context, if any. On return the token always names a live
/// session whose expiry was renewed to `now + window`.
pub fn resolve_request(
    manager: &mut SessionManager,
    backend: &Backend,
    token: Option<&String>,
    now: u64,
) -> (r: (String, Option<User>))
    requires
        old(manager).wf(),
        backend.wf(),
        now + old(manager).spec_window() <= u64::MAX,
    ensures
        final(manager).wf(),
        final(manager).spec_window() == old(manager).spec_window(),
        session_live(final(manager)@, r.0@, now),
        ({
            let e = (now + old(manager).spec_window()) as u64;
            match token {
                None => issued_fresh(old(manager)@, final(manager)@, r.0@, e) && r.1 is None,
                Some(tok) => {
                    if !session_live(old(manager)@, tok@, now) {
                        issued_fresh(old(manager)@, final(manager)@, r.0@, e) && r.1 is None
                    } else {
                        r.0@ == tok@ && match old(manager)@[tok@].identity {
                            None => final(manager)@ == spec_touch(old(manager)@, tok@, e)
                                && r.1 is None,
                            Some(id) => {
                                if backend@.contains_key(id) {
                                    final(manager)@ == spec_touch(old(manager)@, tok@, e)
                                        && (r.1 matches Some(u) && u.username@ == id)
                                } else {
                                    final(manager)@ == spec_touch(
                                        spec_unbind(old(manager)@, tok@),
                                        tok@,
                                        e,
                                    ) && r.1 is None
                                }
                            },
                        }
                    }
                },
            }
        }),
{
    match token {
        None => {
            let t = manager.create_anonymous(now);
            (t, None)
        },
        Some(tok) => {
            match manager.resolve(tok, now) {
                Resolution::NotFound => {
                    let t = manager.create_anonymous(now);
                    (t, None)
                },
                Resolution::Anonymous => {
                    let _ = manager.touch(tok, now);
                    (tok.clone(), None)
                },
                Resolution::Authenticated(id) => {
                    match backend.get_user(&id) {
                        Some(user) => {
                            let _ = manager.touch(tok, now);
                            (tok.clone(), Some(user))
                        },
                        None => {
                            manager.unbind(tok);
                            let _ = manager.touch(tok, now);
                            (tok.clone(), None)
                        },
                    }
                },
            }
        },
    }
}

} // verus!
