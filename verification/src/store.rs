//! The credential store: user records keyed by unique usernames and
//! single-use invitations keyed by unique tokens.
//!
//! The store is the place where the exactly-once guarantees live: an
//! invitation token moves from open to consumed at most once, and a
//! username is created at most once.  Both are stated as contracts over
//! the store's sequence views and proved; the concurrent form of the
//! guarantee follows because each transition is a single atomic step of
//! one store value, so racing calls are serialized against it.

use crate::hash::random_bytes16;
use crate::hex::{
    bytes_to_hex, hex_digits, lemma_bytes_hex_len, lemma_hex_digits_injective,
    lemma_hex_digits_len, lemma_pow16_16, push_hex,
};
use crate::models::{now_seconds, Invitation, User};
use vstd::prelude::*;

verus! {

/// The errors of the store: a registration with a username that already
/// exists, and a consumption of an invitation token that is unknown or
/// already consumed.
#[derive(Debug, Clone, Copy, PartialEq, Eq, Structural)]
pub enum StoreError {
    UsernameTaken,
    InvalidInvitation,
}

/// Some user in `users` carries the username `name`.
pub open spec fn username_taken(users: Seq<User>, name: Seq<char>) -> bool {
    exists|i: int| 0 <= i < users.len() && (#[trigger] users[i].username)@ == name
}

/// No two users in `users` share a username.
pub open spec fn usernames_unique(users: Seq<User>) -> bool {
    forall|i: int, j: int|
        0 <= i < j < users.len() ==> (#[trigger] users[i].username)@ != (
        #[trigger] users[j].username)@
}

/// Some invitation in `invs` carries the token `t`.
pub open spec fn token_known(invs: Seq<Invitation>, t: Seq<char>) -> bool {
    exists|i: int| 0 <= i < invs.len() && (#[trigger] invs[i].token)@ == t
}

/// Some invitation in `invs` carries the token `t` and is still open.
pub open spec fn token_open(invs: Seq<Invitation>, t: Seq<char>) -> bool {
    exists|i: int|
        0 <= i < invs.len() && (#[trigger] invs[i].token)@ == t && invs[i].consumed_at is None
}

/// No two invitations in `invs` share a token.
pub open spec fn tokens_unique(invs: Seq<Invitation>) -> bool {
    forall|i: int, j: int|
        0 <= i < j < invs.len() ==> (#[trigger] invs[i].token)@ != (#[trigger] invs[j].token)@
}

/// An invitation token is 48 characters: 32 of random material followed by
/// the invitation's serial number as 16 fixed-width hexadecimal digits.
/// The serial makes every token provably unique; the random prefix makes
/// it unguessable.
pub open spec fn token_with_serial(tok: Seq<char>, serial: nat) -> bool {
    tok.len() == 48 && tok.subrange(32, 48) == hex_digits(serial, 16)
}

/// Every stored invitation's token embeds the invitation's own index as
/// its serial.
pub open spec fn serials_ok(invs: Seq<Invitation>) -> bool {
    forall|i: int|
        0 <= i < invs.len() ==> #[trigger] token_with_serial(invs[i].token@, i as nat)
}

/// The in-memory credential store.  Its well-formedness — unique usernames
/// and unique invitation tokens — is established by `new` and preserved by
/// every method.
pub struct CredentialStore {
    users: Vec<User>,
    invitations: Vec<Invitation>,
}

impl CredentialStore {
    /// The stored user records.
    pub closed spec fn users(self) -> Seq<User> {
        self.users@
    }

    /// The stored invitations.
    pub closed spec fn invitations(self) -> Seq<Invitation> {
        self.invitations@
    }

    /// Well-formedness: usernames and invitation tokens are unique keys,
    /// and each token embeds its invitation's serial.
    pub open spec fn wf(self) -> bool {
        usernames_unique(self.users()) && tokens_unique(self.invitations()) && serials_ok(
            self.invitations(),
        )
    }

    /// An empty store.
    pub fn new() -> (s: CredentialStore)
        ensures
            s.wf(),
            s.users() == Seq::<User>::empty(),
            s.invitations() == Seq::<Invitation>::empty(),
    {
        CredentialStore { users: Vec::new(), invitations: Vec::new() }
    }

    /// Whether some stored invitation carries the token `t`.
    pub fn token_exists(&self, t: &String) -> (r: bool)
        ensures
            r == token_known(self.invitations(), t@),
    {
        let n = self.invitations.len();
        let mut i: usize = 0;
        while i < n
            invariant
                n == self.invitations@.len(),
                i <= n,
                forall|j: int| 0 <= j < i ==> (#[trigger] self.invitations@[j].token)@ != t@,
            decreases n - i,
        {
            if self.invitations[i].token == *t {
                return true;
            }
            i += 1;
        }
        false
    }

    /// Whether some stored user carries the username `name`.
    pub fn user_exists(&self, name: &String) -> (r: bool)
        ensures
            r == username_taken(self.users(), name@),
    {
        let n = self.users.len();
        let mut i: usize = 0;
        while i < n
            invariant
                n == self.users@.len(),
                i <= n,
                forall|j: int| 0 <= j < i ==> (#[trigger] self.users@[j].username)@ != name@,
            decreases n - i,
        {
            if self.users[i].username == *name {
                return true;
            }
            i += 1;
        }
        false
    }

    /// Creates an invitation under a fresh token and persists it
    /// unconsumed.  The token is 128 random bits rendered as hexadecimal,
    /// followed by the store's next serial, so it is unguessable and is
    /// carried by no older invitation.
    pub fn create_invitation(&mut self) -> (r: Invitation)
        requires
            old(self).wf(),
        ensures
            final(self).wf(),
            final(self).users() == old(self).users(),
            final(self).invitations() == old(self).invitations().push(r),
            r.consumed_at is None,
            !token_known(old(self).invitations(), r.token@),
            token_open(final(self).invitations(), r.token@),
    {
        let bytes = random_bytes16();
        let mut tok = bytes_to_hex(&bytes);
        let serial: u64 = self.invitations.len() as u64;
        push_hex(&mut tok, serial, 16);
        proof {
            lemma_bytes_hex_len(bytes@);
            lemma_hex_digits_len(serial as nat, 16);
            assert(tok@.subrange(32, 48) =~= hex_digits(serial as nat, 16));
            assert(token_with_serial(tok@, serial as nat));
            lemma_pow16_16();
            assert forall|i: int|
                0 <= i < old(self).invitations().len() implies (#[trigger] old(
                self,
            ).invitations()[i].token)@ != tok@ by {
                assert(token_with_serial(old(self).invitations()[i].token@, i as nat));
                if old(self).invitations()[i].token@ == tok@ {
                    lemma_hex_digits_injective(i as nat, serial as nat, 16);
                }
            }
        }
        let inv = Invitation { token: tok, created_at: now_seconds(), consumed_at: None };
        self.invitations.push(inv.clone());
        proof {
            let pre = old(self).invitations();
            let post = self.invitations();
            assert forall|i: int|
                0 <= i < post.len() implies #[trigger] token_with_serial(
                post[i].token@,
                i as nat,
            ) by {
                if i < pre.len() {
                    assert(post[i] == pre[i]);
                    assert(token_with_serial(pre[i].token@, i as nat));
                } else {
                    assert(post[i] == inv);
                }
            }
            assert forall|i: int, j: int|
                0 <= i < j < post.len() implies (#[trigger] post[i].token)@ != (
            #[trigger] post[j].token)@ by {
                if j < pre.len() {
                    assert(pre[i].token@ != pre[j].token@);
                } else {
                    assert(post[j] == inv);
                    assert(pre[i].token@ != inv.token@);
                }
            }
            assert(post[post.len() - 1] == inv);
        }
        inv
    }

    /// Atomically consumes the invitation carrying `token`: succeeds if and
    /// only if the token is known and still open, and then marks exactly
    /// that invitation consumed.  Once it has succeeded, the token is open
    /// in no later state reachable by this store, so a second consumption
    /// of the same token always fails with `InvalidInvitation`.
    pub fn consume_invitation(&mut self, token: &String) -> (r: Result<(), StoreError>)
        requires
            old(self).wf(),
        ensures
            final(self).wf(),
            final(self).users() == old(self).users(),
            r is Ok <==> token_open(old(self).invitations(), token@),
            r is Err ==> final(self).invitations() == old(self).invitations() && r == Err::<
                (),
                StoreError,
            >(StoreError::InvalidInvitation),
            r is Ok ==> exists|i: int|
                {
                    &&& 0 <= i < old(self).invitations().len()
                    &&& (#[trigger] old(self).invitations()[i].token)@ == token@
                    &&& old(self).invitations()[i].consumed_at is None
                    &&& final(self).invitations()[i].token == old(self).invitations()[i].token
                    &&& final(self).invitations()[i].created_at
                        == old(self).invitations()[i].created_at
                    &&& final(self).invitations()[i].consumed_at is Some
                    &&& final(self).invitations() == old(self).invitations().update(
                        i,
                        final(self).invitations()[i],
                    )
                },
            r is Ok ==> !token_open(final(self).invitations(), token@),
    {
        let n = self.invitations.len();
        let mut i: usize = 0;
        while i < n
            invariant
                self.users() == old(self).users(),
                self.invitations() == old(self).invitations(),
                self.wf(),
                n == self.invitations@.len(),
                i <= n,
                forall|j: int| 0 <= j < i ==> (#[trigger] self.invitations@[j].token)@ != token@,
            decreases n - i,
        {
            if self.invitations[i].token == *token {
                if self.invitations[i].consumed_at.is_some() {
                    proof {
                        let invs = self.invitations();
                        assert forall|j: int|
                            0 <= j < invs.len() && (#[trigger] invs[j].token)@
                                == token@ implies !(invs[j].consumed_at is None) by {
                            if j < i as int {
                                assert(invs[j].token@ != invs[i as int].token@);
                            } else if j > i as int {
                                assert(invs[i as int].token@ != invs[j].token@);
                            }
                        }
                        assert(!token_open(invs, token@));
                    }
                    return Err(StoreError::InvalidInvitation);
                }
                let inv = self.invitations.remove(i);
                let marked = Invitation {
                    token: inv.token,
                    created_at: inv.created_at,
                    consumed_at: Some(now_seconds()),
                };
                self.invitations.insert(i, marked);
                proof {
                    let pre = old(self).invitations();
                    let post = self.invitations();
                    assert(post =~= pre.update(i as int, post[i as int]));
                    lemma_consumed_token_closed(pre, post, i as int, token@);
                    assert forall|j: int|
                        0 <= j < post.len() implies #[trigger] token_with_serial(
                        post[j].token@,
                        j as nat,
                    ) by {
                        assert(post[j].token == pre[j].token);
                        assert(token_with_serial(pre[j].token@, j as nat));
                    }
                }
                return Ok(());
            }
            i += 1;
        }
        Err(StoreError::InvalidInvitation)
    }

    /// Atomically creates a user: succeeds if and only if no stored user
    /// already carries `username`, and then appends exactly one record with
    /// that username and the given password hash.  Once it has succeeded,
    /// the username is taken, so a second creation under the same username
    /// always fails with `UsernameTaken`.
    pub fn create_user(&mut self, username: String, password_hash: String) -> (r: Result<
        User,
        StoreError,
    >)
        requires
            old(self).wf(),
        ensures
            final(self).wf(),
            final(self).invitations() == old(self).invitations(),
            r is Ok <==> !username_taken(old(self).users(), username@),
            r is Err ==> final(self).users() == old(self).users() && r == Err::<User, StoreError>(
                StoreError::UsernameTaken,
            ),
            r matches Ok(u) ==> u.username == username && u.hash == password_hash
                && final(self).users() == old(self).users().push(u),
            r is Ok ==> username_taken(final(self).users(), username@),
    {
        if self.user_exists(&username) {
            return Err(StoreError::UsernameTaken);
        }
        let u = User::from_details(username, password_hash);
        self.users.push(u.clone());
        proof {
            let post = self.users();
            assert(post[post.len() - 1] == u);
        }
        Ok(u)
    }

    /// Looks a user up by username: returns a record if and only if one
    /// carries `username`, and then the stored record itself.
    pub fn find_user(&self, username: &String) -> (r: Option<User>)
        ensures
            r is Some <==> username_taken(self.users(), username@),
            r matches Some(u) ==> u.username@ == username@ && exists|i: int|
                0 <= i < self.users().len() && #[trigger] self.users()[i] == u,
    {
        let n = self.users.len();
        let mut i: usize = 0;
        while i < n
            invariant
                n == self.users@.len(),
                i <= n,
                forall|j: int| 0 <= j < i ==> (#[trigger] self.users@[j].username)@ != username@,
            decreases n - i,
        {
            if self.users[i].username == *username {
                return Some(self.users[i].clone());
            }
            i += 1;
        }
        None
    }
}

/// Exactly-once consumption, at the level of the store's view: if the
/// invitations changed only by marking the invitation at `i` — the one
/// carrying `t` — consumed, and tokens were unique, then no invitation
/// carrying `t` remains open.
pub proof fn lemma_consumed_token_closed(
    pre: Seq<Invitation>,
    post: Seq<Invitation>,
    i: int,
    t: Seq<char>,
)
    requires
        tokens_unique(pre),
        0 <= i < pre.len(),
        pre[i].token@ == t,
        post == pre.update(i, post[i]),
        post[i].token@ == t,
        post[i].consumed_at is Some,
    ensures
        !token_open(post, t),
        tokens_unique(post),
{
    assert forall|j: int| 0 <= j < post.len() && (#[trigger] post[j].token)@ == t implies !(
    post[j].consumed_at is None) by {
        if j != i {
            assert(post[j] == pre[j]);
            assert(pre[j].token@ == pre[i].token@);
            if j < i {
                assert((pre[j].token)@ != (pre[i].token)@);
            } else {
                assert((pre[i].token)@ != (pre[j].token)@);
            }
        }
    }
    assert forall|j: int, k: int| 0 <= j < k < post.len() implies (#[trigger] post[j].token)@ != (
    #[trigger] post[k].token)@ by {
        assert(pre[j].token == post[j].token || j == i);
        assert(pre[k].token == post[k].token || k == i);
        assert((pre[j].token)@ != (pre[k].token)@);
    }
}

/// Exactly-once creation, at the level of the store's view: after a user
/// record is appended, its username is taken — so a later creation under
/// the same username must fail — and it stays taken however many further
/// records are appended.
pub proof fn lemma_username_stays_taken(users: Seq<User>, u: User, name: Seq<char>)
    ensures
        username_taken(users.push(u), u.username@),
        username_taken(users, name) ==> username_taken(users.push(u), name),
{
    let post = users.push(u);
    assert(post[users.len() as int] == u);
    if username_taken(users, name) {
        let i = choose|i: int| 0 <= i < users.len() && (#[trigger] users[i].username)@ == name;
        assert(post[i] == users[i]);
    }
}

} // verus!
