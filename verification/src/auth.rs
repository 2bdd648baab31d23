//! The request-level flows: invitation-gated registration and login.
//!
//! Registration consumes an invitation, hashes the supplied password under
//! the process-wide hash secret, and persists the new user.  Login looks
//! the user up, checks the password against the stored hash, and mints a
//! session token.  A wrong password and an unknown username are reported
//! by the same `BadCredentials` value, so a caller cannot enumerate
//! usernames; a corrupted stored hash is likewise treated as a failed
//! verification, not distinguished to the caller.

use crate::hash::{argon2_verdict, generate_hash, verify_hash, MAX_HASH_INPUT};
use crate::models::User;
use crate::session::{issue, session_verdict, SessionToken};
use crate::store::{token_open, username_taken, CredentialStore, StoreError};
use vstd::prelude::*;

verus! {

/// The user-facing failures of registration and login.
#[derive(Debug, Clone, Copy, PartialEq, Eq, Structural)]
pub enum AuthError {
    UsernameTaken,
    InvalidInvitation,
    BadCredentials,
}

/// Registers `username` with `password`, gated by the single-use
/// invitation carrying `invitation_token`.  The username is refused while
/// taken, the invitation while unknown or consumed; on success the
/// invitation is consumed, and the stored record carries a hash that
/// verifies against exactly this password and secret.
pub fn register(
    store: &mut CredentialStore,
    invitation_token: &String,
    username: String,
    password: &String,
    hash_secret: &String,
) -> (r: Result<User, AuthError>)
    requires
        old(store).wf(),
        username@.len() <= MAX_HASH_INPUT,
        password@.len() <= MAX_HASH_INPUT,
        hash_secret@.len() <= MAX_HASH_INPUT,
    ensures
        final(store).wf(),
        username_taken(old(store).users(), username@) ==> r == Err::<User, AuthError>(
            AuthError::UsernameTaken,
        ) && final(store).users() == old(store).users() && final(store).invitations() == old(
            store,
        ).invitations(),
        (!username_taken(old(store).users(), username@) && !token_open(
            old(store).invitations(),
            invitation_token@,
        )) ==> r == Err::<User, AuthError>(AuthError::InvalidInvitation) && final(store).users()
            == old(store).users() && final(store).invitations() == old(store).invitations(),
        (!username_taken(old(store).users(), username@) && token_open(
            old(store).invitations(),
            invitation_token@,
        )) ==> r is Ok,
        r matches Ok(u) ==> u.username@ == username@ && argon2_verdict(
            password@,
            u.hash@,
            hash_secret@,
        ) == Some(true) && final(store).users() == old(store).users().push(u) && !token_open(
            final(store).invitations(),
            invitation_token@,
        ),
{
    if store.user_exists(&username) {
        return Err(AuthError::UsernameTaken);
    }
    match store.consume_invitation(invitation_token) {
        Err(_) => Err(AuthError::InvalidInvitation),
        Ok(()) => {
            match generate_hash(password, hash_secret) {
                Err(_) => {
                    // Unreachable: the length bounds in `requires` make
                    // hashing succeed.
                    proof {
                        assert(false);
                    }
                    Err(AuthError::InvalidInvitation)
                },
                Ok(password_hash) => {
                    match store.create_user(username, password_hash) {
                        Ok(u) => Ok(u),
                        Err(_) => {
                            // Unreachable: the username was free and the
                            // consumption changed no user record.
                            proof {
                                assert(false);
                            }
                            Err(AuthError::UsernameTaken)
                        },
                    }
                },
            }
        },
    }
}

/// Logs `username` in with `password`: on success, a session token for
/// `username` expiring at `now + ttl`, signed under `session_secret`.
/// Succeeds if and only if a stored user carries the username and its
/// stored hash verifies against the password; every failure — unknown
/// username, wrong password, or an undecodable stored hash — is the same
/// `BadCredentials`.
pub fn login(
    store: &CredentialStore,
    username: &String,
    password: &String,
    hash_secret: &String,
    session_secret: &String,
    now: u64,
    ttl: u64,
) -> (r: Result<SessionToken, AuthError>)
    requires
        store.wf(),
        now + ttl <= u64::MAX,
        username@.len() + 16 <= MAX_HASH_INPUT,
        session_secret@.len() <= MAX_HASH_INPUT,
    ensures
        r is Ok <==> exists|i: int|
            0 <= i < store.users().len() && (#[trigger] store.users()[i].username)@ == username@
                && argon2_verdict(password@, store.users()[i].hash@, hash_secret@) == Some(true),
        r matches Ok(t) ==> t.username@ == username@ && t.expires_at == now + ttl
            && session_verdict(t, session_secret@) == Some(true),
        r is Err ==> r == Err::<SessionToken, AuthError>(AuthError::BadCredentials),
{
    match store.find_user(username) {
        None => Err(AuthError::BadCredentials),
        Some(u) => {
            let ghost i0 = choose|i: int|
                0 <= i < store.users().len() && #[trigger] store.users()[i] == u;
            match verify_hash(&u.hash, password, hash_secret) {
                Ok(true) => {
                    match issue(username, session_secret, now, ttl) {
                        Ok(t) => Ok(t),
                        Err(_) => {
                            // Unreachable: the length bounds in `requires`
                            // make issuance succeed.
                            proof {
                                assert(false);
                            }
                            Err(AuthError::BadCredentials)
                        },
                    }
                },
                _ => {
                    proof {
                        assert forall|j: int|
                            0 <= j < store.users().len() && (#[trigger] store.users()[j].username)@
                                == username@ implies argon2_verdict(
                            password@,
                            store.users()[j].hash@,
                            hash_secret@,
                        ) != Some(true) by {
                            if j < i0 {
                                assert(store.users()[j].username@ != store.users()[i0].username@);
                            } else if j > i0 {
                                assert(store.users()[i0].username@ != store.users()[j].username@);
                            } else {
                                assert(store.users()[j] == u);
                            }
                        }
                    }
                    Err(AuthError::BadCredentials)
                },
            }
        },
    }
}

} // verus!
