//! Server-side sessions with sliding expiry.
//!
//! The manager maps an opaque session token to a record holding the bound
//! identity (or none, for an anonymous session) and an expiry timestamp.
//! Activity renews the expiry to `now + window`; a token whose expiry has
//! passed resolves as not found. All timestamps are seconds handed in by the
//! caller, so the state machine itself is independent of any clock.

use vstd::prelude::*;
use vstd::string::StringExecFns;
use vstd::string::StrSliceExecFns;
use argon2::password_hash::rand_core::OsRng;
use argon2::password_hash::SaltString;
use crate::table::{
    assoc_map, assoc_unique, lemma_assoc_map_contains, lemma_assoc_map_index,
    lemma_assoc_map_update, lemma_assoc_map_push, lemma_assoc_unique_push,
};

verus! {

/// The default sliding window: ten minutes of
/// inactivity end a session.
pub const DEFAULT_WINDOW_SECONDS: u64 = 600;

/// The model of one session: the bound identity, if any, and the timestamp
/// until which the session stays live.
pub ghost struct SessionState {
    pub identity: Option<Seq<char>>,
    pub expiry: u64,
}

/// One stored session.
struct SessionRecord {
    token: String,
    identity_id: Option<String>,
    expiry: u64,
}

impl View for SessionRecord {
    type V = SessionState;

    closed spec fn view(&self) -> SessionState {
        SessionState { identity: self.identity_id.deep_view(), expiry: self.expiry }
    }
}

/// The entry sequence of the session vector: each record keyed by its token.
spec fn session_entries(s: Seq<SessionRecord>) -> Seq<(Seq<char>, SessionState)> {
    s.map_values(|r: SessionRecord| (r.token@, r@))
}

/// A token resolves while it is present and its expiry has not passed.
pub open spec fn session_live(m: Map<Seq<char>, SessionState>, token: Seq<char>, now: u64) -> bool {
    m.contains_key(token) && now <= m[token].expiry
}

/// Binding sets the identity and a fresh expiry.
pub open spec fn spec_bind(
    m: Map<Seq<char>, SessionState>,
    token: Seq<char>,
    identity: Seq<char>,
    expiry: u64,
) -> Map<Seq<char>, SessionState> {
    m.insert(token, SessionState { identity: Some(identity), expiry })
}

/// Unbinding clears the identity of a present token and touches nothing
/// else; on an absent token it is a no-op.
pub open spec fn spec_unbind(
    m: Map<Seq<char>, SessionState>,
    token: Seq<char>,
) -> Map<Seq<char>, SessionState> {
    if m.contains_key(token) {
        m.insert(token, SessionState { identity: None, expiry: m[token].expiry })
    } else {
        m
    }
}

/// Touching renews the expiry and keeps the identity.
pub open spec fn spec_touch(
    m: Map<Seq<char>, SessionState>,
    token: Seq<char>,
    expiry: u64,
) -> Map<Seq<char>, SessionState> {
    m.insert(token, SessionState { identity: m[token].identity, expiry })
}

/// What a token resolves to: a live authenticated session with its bound
/// identity id, a live anonymous session, or nothing (unknown token, or one
/// whose expiry has passed).
pub enum Resolution {
    Authenticated(String),
    Anonymous,
    NotFound,
}

/// Relies on `SaltString::generate` over the operating system's randomness:
/// a fresh random string. Nothing is promised of the value; the caller
/// checks freshness against the table itself.
#[verifier::external_body]
fn random_token() -> (r: String)
    ensures
        r@.len() > 0,
{
    SaltString::generate(&mut OsRng).as_str().to_string()
}

/// The session table. Its model is the map from each live or expired token
/// to that session's state; tokens are unique.
pub struct SessionManager {
    sessions: Vec<SessionRecord>,
    window: u64,
}

impl View for SessionManager {
    type V = Map<Seq<char>, SessionState>;

    closed spec fn view(&self) -> Map<Seq<char>, SessionState> {
        assoc_map(session_entries(self.sessions@))
    }
}

impl SessionManager {
    /// Tokens are unique, so each token keys exactly one record.
    pub closed spec fn wf(&self) -> bool {
        assoc_unique(session_entries(self.sessions@))
    }

    /// The configured sliding window.
    pub closed spec fn spec_window(&self) -> u64 {
        self.window
    }

    pub fn window(&self) -> (r: u64)
        ensures
            r == self.spec_window(),
    {
        self.window
    }

    /// An empty table with the given sliding window, in seconds.
    pub fn new(window: u64) -> (r: SessionManager)
        ensures
            r.wf(),
            r.spec_window() == window,
            r@ == Map::<Seq<char>, SessionState>::empty(),
    {
        let r = SessionManager { sessions: Vec::new(), window };
        proof {
            assert(session_entries(r.sessions@) =~= Seq::<(Seq<char>, SessionState)>::empty());
        }
        r
    }

    /// The index of the record carrying `token`, if one does.
    fn find_index(&self, token: &String) -> (r: Option<usize>)
        requires
            self.wf(),
        ensures
            match r {
                Some(i) => i < self.sessions@.len()
                    && self.sessions@[i as int].token@ == token@
                    && self@.contains_key(token@)
                    && self@[token@] == self.sessions@[i as int]@,
                None => !self@.contains_key(token@),
            },
    {
        let n = self.sessions.len();
        let mut k: usize = 0;
        while k < n
            invariant
                self.wf(),
                n == self.sessions@.len(),
                k <= n,
                forall|j: int| 0 <= j < k ==> session_entries(self.sessions@)[j].0 != token@,
            decreases n - k,
        {
            if self.sessions[k].token == *token {
                proof {
                    lemma_assoc_map_index(session_entries(self.sessions@), k as int);
                }
                return Some(k);
            }
            k += 1;
        }
        proof {
            lemma_assoc_map_contains(session_entries(self.sessions@), token@);
        }
        None
    }

    /// The length of the longest stored token.
    fn longest_token(&self) -> (r: usize)
        ensures
            forall|j: int| 0 <= j < self.sessions@.len()
                ==> session_entries(self.sessions@)[j].0.len() <= r,
    {
        let n = self.sessions.len();
        let mut bound: usize = 0;
        let mut k: usize = 0;
        while k < n
            invariant
                n == self.sessions@.len(),
                k <= n,
                forall|j: int| 0 <= j < k ==> session_entries(self.sessions@)[j].0.len() <= bound,
            decreases n - k,
        {
            let l = self.sessions[k].token.as_str().unicode_len();
            if l > bound {
                bound = l;
            }
            k += 1;
        }
        bound
    }

    /// Issues a fresh anonymous session: a token not yet in the table, bound
    /// to no identity, live until `now + window`. The token is random; on the
    /// rare collision more random material is appended until it is fresh,
    /// which a token longer than every stored one always is.
    pub fn create_anonymous(&mut self, now: u64) -> (r: String)
        requires
            old(self).wf(),
            now + old(self).spec_window() <= u64::MAX,
        ensures
            final(self).wf(),
            final(self).spec_window() == old(self).spec_window(),
            !old(self)@.contains_key(r@),
            final(self)@ == old(self)@.insert(
                r@,
                SessionState { identity: None, expiry: (now + old(self).spec_window()) as u64 },
            ),
    {
        let bound = self.longest_token();
        let mut token = random_token();
        let mut taken = self.find_index(&token).is_some();
        while taken
            invariant
                self.wf(),
                *self == *old(self),
                taken == self@.contains_key(token@),
                forall|j: int| 0 <= j < self.sessions@.len()
                    ==> session_entries(self.sessions@)[j].0.len() <= bound,
            decreases (if token@.len() <= bound { bound + 1 - token@.len() } else { 0int }),
        {
            proof {
                let entries = session_entries(self.sessions@);
                lemma_assoc_map_contains(entries, token@);
                let j = choose|j: int| 0 <= j < entries.len() && entries[j].0 == token@;
                assert(entries[j].0.len() <= bound);
                assert(token@.len() <= bound);
            }
            let extra = random_token();
            token.append(extra.as_str());
            taken = self.find_index(&token).is_some();
        }
        let handed_out = token.clone();
        let expiry = now + self.window;
        let ghost entries = session_entries(self.sessions@);
        self.sessions.push(SessionRecord { token, identity_id: None, expiry });
        proof {
            assert(session_entries(self.sessions@) =~= entries.push(
                (handed_out@, SessionState { identity: None, expiry }),
            ));
            lemma_assoc_map_contains(entries, handed_out@);
            lemma_assoc_unique_push(entries, handed_out@, SessionState { identity: None, expiry });
            lemma_assoc_map_push(entries, handed_out@, SessionState { identity: None, expiry });
        }
        handed_out
    }

    /// Looks a token up: `NotFound` for an unknown token or one whose expiry
    /// has passed, else the live session's standing.
    pub fn resolve(&self, token: &String, now: u64) -> (r: Resolution)
        requires
            self.wf(),
        ensures
            match r {
                Resolution::Authenticated(id) => session_live(self@, token@, now)
                    && self@[token@].identity == Some(id@),
                Resolution::Anonymous => session_live(self@, token@, now)
                    && self@[token@].identity is None,
                Resolution::NotFound => !session_live(self@, token@, now),
            },
    {
        match self.find_index(token) {
            Some(i) => {
                let record = &self.sessions[i];
                if now <= record.expiry {
                    match &record.identity_id {
                        Some(id) => Resolution::Authenticated(id.clone()),
                        None => Resolution::Anonymous,
                    }
                } else {
                    Resolution::NotFound
                }
            },
            None => Resolution::NotFound,
        }
    }

    /// Binds an identity to a live session and starts a fresh window:
    /// the transition from anonymous to authenticated on login. Returns
    /// whether the token named a live session; otherwise nothing changes.
    pub fn bind(&mut self, token: &String, identity_id: String, now: u64) -> (r: bool)
        requires
            old(self).wf(),
            now + old(self).spec_window() <= u64::MAX,
        ensures
            final(self).wf(),
            final(self).spec_window() == old(self).spec_window(),
            r == session_live(old(self)@, token@, now),
            r ==> final(self)@ == spec_bind(
                old(self)@,
                token@,
                identity_id@,
                (now + old(self).spec_window()) as u64,
            ),
            !r ==> final(self)@ == old(self)@,
    {
        match self.find_index(token) {
            Some(i) => {
                if now <= self.sessions[i].expiry {
                    let expiry = now + self.window;
                    let ghost entries = session_entries(self.sessions@);
                    let record = &mut self.sessions[i];
                    record.identity_id = Some(identity_id);
                    record.expiry = expiry;
                    proof {
                        let state = SessionState {
                            identity: self.sessions@[i as int]@.identity,
                            expiry,
                        };
                        assert(session_entries(self.sessions@) =~= entries.update(
                            i as int,
                            (token@, state),
                        ));
                        lemma_assoc_map_update(entries, i as int, state);
                    }
                    true
                } else {
                    false
                }
            },
            None => false,
        }
    }

    /// Renews a live session's expiry to `now + window`, the sliding-expiry
    /// step taken on every resolved request. Returns whether the token named
    /// a live session; otherwise nothing changes.
    pub fn touch(&mut self, token: &String, now: u64) -> (r: bool)
        requires
            old(self).wf(),
            now + old(self).spec_window() <= u64::MAX,
        ensures
            final(self).wf(),
            final(self).spec_window() == old(self).spec_window(),
            r == session_live(old(self)@, token@, now),
            r ==> final(self)@ == spec_touch(
                old(self)@,
                token@,
                (now + old(self).spec_window()) as u64,
            ),
            !r ==> final(self)@ == old(self)@,
    {
        match self.find_index(token) {
            Some(i) => {
                if now <= self.sessions[i].expiry {
                    let expiry = now + self.window;
                    let ghost entries = session_entries(self.sessions@);
                    let record = &mut self.sessions[i];
                    record.expiry = expiry;
                    proof {
                        let state = SessionState {
                            identity: self.sessions@[i as int]@.identity,
                            expiry,
                        };
                        assert(session_entries(self.sessions@) =~= entries.update(
                            i as int,
                            (token@, state),
                        ));
                        lemma_assoc_map_update(entries, i as int, state);
                    }
                    true
                } else {
                    false
                }
            },
            None => false,
        }
    }

    /// Clears the identity bound to a token: the logout transition back to
    /// anonymous. Idempotent; an unknown token is a no-op.
    pub fn unbind(&mut self, token: &String)
        requires
            old(self).wf(),
        ensures
            final(self).wf(),
            final(self).spec_window() == old(self).spec_window(),
            final(self)@ == spec_unbind(old(self)@, token@),
    {
        match self.find_index(token) {
            Some(i) => {
                let ghost entries = session_entries(self.sessions@);
                let ghost expiry = self.sessions@[i as int].expiry;
                let record = &mut self.sessions[i];
                record.identity_id = None;
                proof {
                    let state = SessionState { identity: None, expiry };
                    assert(session_entries(self.sessions@) =~= entries.update(
                        i as int,
                        (token@, state),
                    ));
                    lemma_assoc_map_update(entries, i as int, state);
                }
            },
            None => {},
        }
    }
}

/// Binding an identity to a token and resolving within the window yields a
/// live session authenticated for exactly that identity.
pub proof fn lemma_bind_then_resolve(
    m: Map<Seq<char>, SessionState>,
    token: Seq<char>,
    identity: Seq<char>,
    expiry: u64,
    now: u64,
)
    requires
        now <= expiry,
    ensures
        session_live(spec_bind(m, token, identity, expiry), token, now),
        spec_bind(m, token, identity, expiry)[token].identity == Some(identity),
{
}

/// After an unbind the token never resolves authenticated: it is anonymous
/// while it is live, and not found once expired or absent.
pub proof fn lemma_unbind_then_resolve(
    m: Map<Seq<char>, SessionState>,
    token: Seq<char>,
    now: u64,
)
    ensures
        session_live(spec_unbind(m, token), token, now) == session_live(m, token, now),
        session_live(spec_unbind(m, token), token, now) ==> spec_unbind(
            m,
            token,
        )[token].identity is None,
{
}

/// A session not renewed within its window is gone on the next resolve:
/// whatever a record carries, once `now` passes its expiry the token no
/// longer resolves.
pub proof fn lemma_sliding_expiry(
    m: Map<Seq<char>, SessionState>,
    token: Seq<char>,
    state: SessionState,
    now: u64,
)
    requires
        state.expiry < now,
    ensures
        !session_live(m.insert(token, state), token, now),
{
}

/// Unbinding twice leaves exactly the state one unbind leaves.
pub proof fn lemma_unbind_idempotent(m: Map<Seq<char>, SessionState>, token: Seq<char>)
    ensures
        spec_unbind(spec_unbind(m, token), token) == spec_unbind(m, token),
{
    if m.contains_key(token) {
        assert(spec_unbind(spec_unbind(m, token), token) =~= spec_unbind(m, token));
    }
}

} // verus!
