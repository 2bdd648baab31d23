//! Stateless signed session tokens.
//!
//! A login mints a token binding a username to an expiry instant; the
//! binding is authenticated by a keyed hash of the pair under a
//! process-wide session secret, so a token a client tampered with fails
//! validation.  Sessions are not persisted server-side: logout is the
//! client discarding its token, and a discarded token stays formally
//! valid until its expiry — the deliberate tradeoff of the stateless
//! design, which `revoke` documents.

use crate::hash::{argon2_verdict, generate_hash, verify_hash, HashError, MAX_HASH_INPUT};
use crate::hex::{hex_digits, lemma_hex_digits_len, lemma_hex_digits_injective, lemma_pow16_16};
use vstd::prelude::*;

verus! {

/// Why a presented token was rejected: `Invalid` covers a bad signature
/// and a malformed payload alike — callers must not learn which —
/// while `Expired` marks a well-signed token past its expiry.
#[derive(Debug, Clone, Copy, PartialEq, Eq, Structural)]
pub enum SessionError {
    Invalid,
    Expired,
}

/// The default session lifetime: one day, in seconds.
pub const DEFAULT_SESSION_TTL_SECS: u64 = 86400;

/// A minted session token: the subject username, the expiry instant in
/// seconds, and the keyed-hash tag authenticating the pair.  Clients
/// cannot forge the tag without the session secret.
#[derive(Debug, PartialEq)]
pub struct SessionToken {
    pub username: String,
    pub expires_at: u64,
    pub tag: String,
}

impl Clone for SessionToken {
    fn clone(&self) -> (r: Self)
        ensures
            r == *self,
    {
        SessionToken {
            username: self.username.clone(),
            expires_at: self.expires_at,
            tag: self.tag.clone(),
        }
    }
}

/// The signed payload: the expiry as 16 fixed-width hexadecimal digits,
/// followed by the username.  The fixed-width prefix makes the pairing
/// injective — see `lemma_payload_injective`.
pub open spec fn payload_chars(username: Seq<char>, expires_at: u64) -> Seq<char> {
    hex_digits(expires_at as nat, 16) + username
}

/// The keyed-hash verdict on a token under `secret`: whether the tag
/// authenticates exactly this token's username-and-expiry payload.
pub open spec fn session_verdict(token: SessionToken, secret: Seq<char>) -> Option<bool> {
    argon2_verdict(payload_chars(token.username@, token.expires_at), token.tag@, secret)
}

/// What validation returns: `Invalid` unless the tag authenticates the
/// payload, `Expired` for an authentic token whose expiry has arrived,
/// and otherwise the bound username.
pub open spec fn validate_spec(token: SessionToken, secret: Seq<char>, now: u64) -> Result<
    String,
    SessionError,
> {
    if session_verdict(token, secret) != Some(true) {
        Err(SessionError::Invalid)
    } else if now >= token.expires_at {
        Err(SessionError::Expired)
    } else {
        Ok(token.username)
    }
}

/// The executable form of `payload_chars`.
fn payload(username: &String, expires_at: u64) -> (r: String)
    ensures
        r@ == payload_chars(username@, expires_at),
{
    let mut p = String::new();
    crate::hex::push_hex(&mut p, expires_at, 16);
    vstd::string::StringExecFns::append(&mut p, username.as_str());
    p
}

/// Mints a session token for `username` expiring at `now + ttl`, its tag
/// the keyed hash of the payload under `secret`.  The freshly minted
/// token validates under the same secret.
pub fn issue(username: &String, secret: &String, now: u64, ttl: u64) -> (r: Result<
    SessionToken,
    HashError,
>)
    requires
        now + ttl <= u64::MAX,
        username@.len() + 16 <= MAX_HASH_INPUT,
        secret@.len() <= MAX_HASH_INPUT,
    ensures
        r is Ok,
        r matches Ok(t) ==> t.username@ == username@ && t.expires_at == now + ttl
            && session_verdict(t, secret@) == Some(true),
{
    let expires_at = now + ttl;
    let p = payload(username, expires_at);
    proof {
        lemma_hex_digits_len(expires_at as nat, 16);
    }
    match generate_hash(&p, secret) {
        Ok(tag) => Ok(SessionToken { username: username.clone(), expires_at, tag }),
        Err(e) => Err(e),
    }
}

/// Validates a presented token under `secret` at time `now`: returns the
/// bound username if and only if the tag authenticates the payload and
/// the expiry has not arrived, and otherwise says only `Invalid` or
/// `Expired` as `validate_spec` prescribes.
pub fn validate(token: &SessionToken, secret: &String, now: u64) -> (r: Result<
    String,
    SessionError,
>)
    ensures
        r == validate_spec(*token, secret@, now),
{
    let p = payload(&token.username, token.expires_at);
    match verify_hash(&token.tag, &p, secret) {
        Ok(true) => {
            if now >= token.expires_at {
                Err(SessionError::Expired)
            } else {
                Ok(token.username.clone())
            }
        },
        Ok(false) => Err(SessionError::Invalid),
        Err(_) => Err(SessionError::Invalid),
    }
}

/// Logout under the stateless design: sessions keep no server-side state,
/// so there is nothing to destroy here — the caller discards the token
/// (clears the cookie), and until its expiry the token would still
/// validate.  Authoritative logout would need a server-tracked session
/// store instead.
pub fn revoke(token: &SessionToken) {
    let _ = token;
}

/// Two equal payloads bind equal usernames and equal expiry instants:
/// a tag authenticating one username-and-expiry pair authenticates no
/// other pair.
pub proof fn lemma_payload_injective(u1: Seq<char>, e1: u64, u2: Seq<char>, e2: u64)
    requires
        payload_chars(u1, e1) == payload_chars(u2, e2),
    ensures
        u1 == u2,
        e1 == e2,
{
    lemma_hex_digits_len(e1 as nat, 16);
    lemma_hex_digits_len(e2 as nat, 16);
    let p1 = payload_chars(u1, e1);
    let p2 = payload_chars(u2, e2);
    assert(p1.subrange(0, 16) =~= hex_digits(e1 as nat, 16));
    assert(p2.subrange(0, 16) =~= hex_digits(e2 as nat, 16));
    lemma_pow16_16();
    lemma_hex_digits_injective(e1 as nat, e2 as nat, 16);
    assert(u1 =~= p1.skip(16));
    assert(u2 =~= p2.skip(16));
}

/// An authentic token is accepted exactly until its expiry: validated
/// before `expires_at` it yields its bound username, and from
/// `expires_at` on it is reported expired, never invalid.
pub proof fn lemma_issued_token_validates(token: SessionToken, secret: Seq<char>, now: u64)
    requires
        session_verdict(token, secret) == Some(true),
    ensures
        now < token.expires_at ==> validate_spec(token, secret, now) == Ok::<
            String,
            SessionError,
        >(token.username),
        now >= token.expires_at ==> validate_spec(token, secret, now) == Err::<
            String,
            SessionError,
        >(SessionError::Expired),
{
}

} // verus!
