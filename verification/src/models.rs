//! The persisted records of the credential store: user accounts and
//! single-use invitations.  Creation times are plain seconds since the
//! Unix epoch; only the clock itself is read from outside.

use vstd::prelude::*;

verus! {

/// A user record: a unique username, the encoded password hash (never the
/// plaintext password), and an immutable creation time.
#[derive(Debug, PartialEq)]
pub struct User {
    pub username: String,
    pub hash: String,
    pub created_at: i64,
}

/// A single-use invitation: a unique unguessable token, its creation time,
/// and the time it was consumed — absent while the invitation is open.
#[derive(Debug, PartialEq)]
pub struct Invitation {
    pub token: String,
    pub created_at: i64,
    pub consumed_at: Option<i64>,
}

/// Relies on `chrono::Local::now`: the current local time as seconds since
/// the Unix epoch; nothing is assumed of the value.
#[verifier::external_body]
pub(crate) fn now_seconds() -> i64 {
    chrono::Local::now().timestamp()
}

impl Clone for User {
    fn clone(&self) -> (r: Self)
        ensures
            r == *self,
    {
        User {
            username: self.username.clone(),
            hash: self.hash.clone(),
            created_at: self.created_at,
        }
    }
}

impl Clone for Invitation {
    fn clone(&self) -> (r: Self)
        ensures
            r == *self,
    {
        Invitation {
            token: self.token.clone(),
            created_at: self.created_at,
            consumed_at: self.consumed_at,
        }
    }
}

impl User {
    /// Builds a user record from a username and an already-hashed password,
    /// stamped with the current time.
    pub fn from_details(username: String, pwd: String) -> (r: User)
        ensures
            r.username == username,
            r.hash == pwd,
    {
        User { username, hash: pwd, created_at: now_seconds() }
    }
}

} // verus!
