//! The credential store and the authentication backend.
//!
//! The store holds the registered identities with their password hashes and
//! answers lookup by identity id. The backend composes the store with the
//! password hasher: `authenticate` checks a credential pair and hands back
//! the identity only on a match; unknown user and wrong password are not
//! distinguished in the result.

use vstd::prelude::*;
use crate::hashing::{hash_password, verify_password, password_matches, MAX_PASSWORD_CHARS};
use vstd::string::StrSliceExecFns;
use crate::table::{assoc_map, assoc_unique, lemma_assoc_map_contains, lemma_assoc_map_index};

verus! {

/// A registered identity: a unique name and its stored password hash.
#[derive(Debug, Clone)]
pub struct User {
    pub username: String,
    pub password_hash: String,
}

impl User {
    /// The identity's unique id.
    pub fn id(&self) -> (r: String)
        ensures
            r@ == self.username@,
    {
        self.username.clone()
    }
}

/// The entry sequence of a user vector: each user keyed by its username.
pub open spec fn user_entries(s: Seq<User>) -> Seq<(Seq<char>, Seq<char>)> {
    s.map_values(|u: User| (u.username@, u.password_hash@))
}

/// Builds a `User` whose stored hash verifies against `password`.
pub fn seed_user(username: String, password: &str) -> (r: User)
    requires
        password@.len() <= MAX_PASSWORD_CHARS,
    ensures
        r.username@ == username@,
        password_matches(r.password_hash@, password@),
{
    let password_hash = hash_password(password);
    User { username, password_hash }
}

/// Checks a plaintext password against a user's stored hash.
pub fn credentials_match(user: &User, password: &str) -> (r: bool)
    ensures
        r == password_matches(user.password_hash@, password@),
{
    verify_password(password, user.password_hash.as_str())
}

/// The credential store and password check behind authentication. Its model
/// is the map from each username to the stored password hash.
#[derive(Debug, Clone)]
pub struct Backend {
    pub users: Vec<User>,
}

impl View for Backend {
    type V = Map<Seq<char>, Seq<char>>;

    open spec fn view(&self) -> Map<Seq<char>, Seq<char>> {
        assoc_map(user_entries(self.users@))
    }
}

/// A credential pair handed to `authenticate`: the claimed id and the
/// plaintext password.
pub type Credentials = (String, String);

impl Backend {
    /// Usernames are unique, so each username keys exactly one record.
    pub open spec fn wf(&self) -> bool {
        assoc_unique(user_entries(self.users@))
    }

    pub fn new(users: Vec<User>) -> (r: Backend)
        requires
            assoc_unique(user_entries(users@)),
        ensures
            r.wf(),
            r@ == assoc_map(user_entries(users@)),
            r.users == users,
    {
        Backend { users }
    }

    /// Looks the claimed id up and checks the password against the stored
    /// hash. Returns the identity exactly when the id is known and the
    /// password matches its hash; every other case, unknown id included,
    /// yields `None`. The unknown-id path still pays the hashing cost, so
    /// that response latency does not betray which ids exist.
    pub fn authenticate(&self, credentials: Credentials) -> (r: Option<User>)
        requires
            self.wf(),
        ensures
            match r {
                Some(u) => self@.contains_key(credentials.0@)
                    && password_matches(self@[credentials.0@], credentials.1@)
                    && u.username@ == credentials.0@
                    && u.password_hash@ == self@[credentials.0@],
                None => !(self@.contains_key(credentials.0@)
                    && password_matches(self@[credentials.0@], credentials.1@)),
            },
    {
        let (username, password) = credentials;
        match self.get_user(&username) {
            Some(user) => {
                if credentials_match(&user, password.as_str()) {
                    Some(user)
                } else {
                    None
                }
            },
            None => {
                if password.as_str().unicode_len() <= MAX_PASSWORD_CHARS {
                    let _ = hash_password(password.as_str());
                }
                None
            },
        }
    }

    /// Direct lookup by id, used to re-hydrate a session's bound identity.
    pub fn get_user(&self, user_id: &String) -> (r: Option<User>)
        requires
            self.wf(),
        ensures
            match r {
                Some(u) => self@.contains_key(user_id@)
                    && u.username@ == user_id@
                    && u.password_hash@ == self@[user_id@],
                None => !self@.contains_key(user_id@),
            },
    {
        let n = self.users.len();
        let mut k: usize = 0;
        while k < n
            invariant
                self.wf(),
                n == self.users@.len(),
                k <= n,
                forall|j: int| 0 <= j < k ==> user_entries(self.users@)[j].0 != user_id@,
            decreases n - k,
        {
            if self.users[k].username == *user_id {
                proof {
                    lemma_assoc_map_index(user_entries(self.users@), k as int);
                }
                return Some(User {
                    username: self.users[k].username.clone(),
                    password_hash: self.users[k].password_hash.clone(),
                });
            }
            k += 1;
        }
        proof {
            lemma_assoc_map_contains(user_entries(self.users@), user_id@);
        }
        None
    }
}

/// A demo credential store: `user1` and `user2`,
/// each seeded with a freshly hashed password.
pub fn create_backend() -> (r: Backend)
    ensures
        r.wf(),
        r@.dom() == set!["user1"@, "user2"@],
        password_matches(r@["user1"@], "1234"@),
        password_matches(r@["user2"@], "5678"@),
{
    proof {
        reveal_strlit("1234");
        reveal_strlit("5678");
    }
    let u1 = seed_user("user1".to_string(), "1234");
    let u2 = seed_user("user2".to_string(), "5678");
    let mut users: Vec<User> = Vec::new();
    users.push(u1);
    users.push(u2);
    proof {
        reveal_strlit("user1");
        reveal_strlit("user2");
        assert(user_entries(users@).len() == 2);
        assert(user_entries(users@)[0].0 == "user1"@);
        assert(user_entries(users@)[1].0 == "user2"@);
        assert("user1"@[4] == '1' && "user2"@[4] == '2');
        assert("user1"@ != "user2"@);
    }
    let backend = Backend::new(users);
    proof {
        lemma_assoc_map_index(user_entries(backend.users@), 0);
        lemma_assoc_map_index(user_entries(backend.users@), 1);
        lemma_assoc_map_contains(user_entries(backend.users@), "user1"@);
        lemma_assoc_map_contains(user_entries(backend.users@), "user2"@);
        assert forall|k: Seq<char>| backend@.dom().contains(k) implies set!["user1"@, "user2"@].contains(k) by {
            lemma_assoc_map_contains(user_entries(backend.users@), k);
        }
        assert(backend@.dom() =~= set!["user1"@, "user2"@]);
    }
    backend
}

} // verus!
