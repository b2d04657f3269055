//! The relay's session registry: who is logged in, under which token, at
//! which virtual address.
//!
//! The registry lives in memory for the lifetime of the relay. Usernames
//! are unique; a token leads to the address of the first user that holds
//! it.

use crate::error::{Error, SessionError};
use vstd::prelude::*;

verus! {

/// Netmask of the virtual network (255.0.0.0).
pub const NETMASK: u32 = 0xFF00_0000;

/// A registered user.
#[derive(Clone, Debug, PartialEq, Eq)]
pub struct User {
    pub username: String,
    pub token: String,
    /// Virtual IPv4 address, most significant octet first.
    pub address: u32,
}

/// A registered user as contracts see it.
pub struct UserView {
    pub username: Seq<char>,
    pub token: Seq<char>,
    pub address: u32,
}

impl View for User {
    type V = UserView;

    open spec fn view(&self) -> UserView {
        UserView { username: self.username@, token: self.token@, address: self.address }
    }
}

/// What a successful login hands to the client.
#[derive(Clone, Debug, PartialEq, Eq)]
pub struct LoginResp {
    pub token: String,
    /// Virtual IPv4 address, most significant octet first.
    pub address: u32,
    pub netmask: u32,
}

/// Whether some user of `users` is called `name`.
pub open spec fn has_user(users: Seq<UserView>, name: Seq<char>) -> bool {
    exists|i: int| 0 <= i < users.len() && (#[trigger] users[i]).username == name
}

/// Whether no two users of `users` share a username.
pub open spec fn distinct_names(users: Seq<UserView>) -> bool {
    forall|i: int, j: int|
        0 <= i < j < users.len() ==> (#[trigger] users[i]).username != (#[trigger] users[j]).username
}

/// Whether `users[i]` is the first user that holds `token`.
pub open spec fn first_holder(users: Seq<UserView>, token: Seq<char>, i: int) -> bool {
    &&& 0 <= i < users.len()
    &&& users[i].token == token
    &&& forall|j: int| 0 <= j < i ==> (#[trigger] users[j]).token != token
}

/// Whether some user of `users` holds `token`.
pub open spec fn has_token(users: Seq<UserView>, token: Seq<char>) -> bool {
    exists|i: int| 0 <= i < users.len() && (#[trigger] users[i]).token == token
}

/// The address that `token` leads to: that of the first user holding it.
pub open spec fn address_of(users: Seq<UserView>, token: Seq<char>) -> Option<u32> {
    if exists|i: int| first_holder(users, token, i) {
        Some(users[choose|i: int| first_holder(users, token, i)].address)
    } else {
        None
    }
}

/// A token has at most one first holder.
pub proof fn lemma_first_holder_unique(users: Seq<UserView>, token: Seq<char>, i: int, j: int)
    requires
        first_holder(users, token, i),
        first_holder(users, token, j),
    ensures
        i == j,
{
    if i < j {
        assert(users[i].token != token);
    } else if j < i {
        assert(users[j].token != token);
    }
}

/// Where `users[i]` is the first holder of `token`, the token leads to its
/// address.
pub proof fn lemma_address_of_first_holder(users: Seq<UserView>, token: Seq<char>, i: int)
    requires
        first_holder(users, token, i),
    ensures
        address_of(users, token) == Some(users[i].address),
{
    let k: int = choose|k: int| first_holder(users, token, k);
    lemma_first_holder_unique(users, token, i, k);
}

/// A token that nobody holds leads nowhere.
pub proof fn lemma_address_of_unknown(users: Seq<UserView>, token: Seq<char>)
    requires
        !has_token(users, token),
    ensures
        address_of(users, token) is None,
{
    if exists|i: int| first_holder(users, token, i) {
        let k: int = choose|k: int| first_holder(users, token, k);
        assert(users[k].token == token);
    }
}

/// The session registry.
pub struct Db {
    users: Vec<User>,
}

impl View for Db {
    type V = Seq<UserView>;

    closed spec fn view(&self) -> Seq<UserView> {
        Seq::new(self.users@.len(), |i: int| self.users@[i]@)
    }
}

impl Db {
    /// The registry's invariant: usernames are unique.
    #[verifier::type_invariant]
    pub open spec fn wf(&self) -> bool {
        distinct_names(self@)
    }

    /// An empty registry. It never fails.
    pub fn try_new() -> (res: Result<Self, Error>)
        ensures
            res is Ok,
            res->Ok_0@ == Seq::<UserView>::empty(),
    {
        let db: Db = Db { users: Vec::new() };
        assert(db@ =~= Seq::<UserView>::empty());
        Ok(db)
    }

    /// Number of registered users.
    pub fn len(&self) -> (n: usize)
        ensures
            n == self@.len(),
    {
        self.users.len()
    }

    /// Whether a user called `username` is registered.
    pub fn contains(&self, username: &str) -> (found: bool)
        ensures
            found == has_user(self@, username@),
    {
        let name: String = username.to_owned();
        let mut i: usize = 0;
        while i < self.users.len()
            invariant
                i <= self.users@.len(),
                name@ == username@,
                forall|j: int| 0 <= j < i ==> (#[trigger] self@[j]).username != username@,
            decreases self.users@.len() - i,
        {
            if self.users[i].username == name {
                assert(self@[i as int].username == username@);
                return true;
            }
            i = i + 1;
        }
        false
    }

    /// Registers `username` with the given address and token.
    ///
    /// Fails with `UserAlreadyExists`, changing nothing, when the username
    /// is taken. Otherwise the user is added behind the others, and the
    /// response carries the token, the address and the network's netmask.
    pub fn register(&mut self, username: &str, address: u32, token: String) -> (res: Result<
        LoginResp,
        SessionError,
    >)
        ensures
            distinct_names(old(self)@),
            distinct_names(final(self)@),
            has_user(old(self)@, username@) ==> {
                &&& res == Err::<LoginResp, SessionError>(SessionError::UserAlreadyExists)
                &&& final(self)@ == old(self)@
            },
            !has_user(old(self)@, username@) ==> {
                &&& res is Ok
                &&& res->Ok_0.token@ == token@
                &&& res->Ok_0.address == address
                &&& res->Ok_0.netmask == NETMASK
                &&& final(self)@ == old(self)@.push(
                    UserView { username: username@, token: token@, address },
                )
            },
    {
        proof {
            use_type_invariant(&*self);
        }
        if self.contains(username) {
            return Err(SessionError::UserAlreadyExists);
        }
        let name: String = username.to_owned();
        let kept: String = token.clone();
        let ghost before: Seq<UserView> = self@;
        // The list is taken out, grown and put back whole: the invariant is
        // then asked for once, of the registry as it will be.
        let mut taken: Db = Db { users: Vec::new() };
        assert(taken@ =~= Seq::<UserView>::empty());
        core::mem::swap(self, &mut taken);
        let Db { users } = taken;
        let mut users: Vec<User> = users;
        users.push(User { username: name, token: kept, address });
        proof {
            let added: UserView = UserView { username: username@, token: token@, address };
            let after: Seq<UserView> = Seq::new(users@.len(), |i: int| users@[i]@);
            assert(after =~= before.push(added));
            assert forall|i: int, j: int| 0 <= i < j < after.len() implies (#[trigger] after[i]).username
                != (#[trigger] after[j]).username by {
                if j < before.len() {
                    assert(before[i].username != before[j].username);
                } else {
                    assert(before[i].username != username@);
                }
            }
        }
        *self = Db { users };
        Ok(LoginResp { token, address, netmask: NETMASK })
    }

    /// Looks up the address that `token` leads to.
    ///
    /// Fails with `SessionNotFound` when no user holds the token.
    pub fn upgrade_conn(&self, token: &str) -> (res: Result<u32, SessionError>)
        ensures
            match address_of(self@, token@) {
                Some(address) => res == Ok::<u32, SessionError>(address),
                None => res == Err::<u32, SessionError>(SessionError::SessionNotFound),
            },
            has_token(self@, token@) <==> res is Ok,
    {
        let wanted: String = token.to_owned();
        let mut i: usize = 0;
        while i < self.users.len()
            invariant
                i <= self.users@.len(),
                wanted@ == token@,
                forall|j: int| 0 <= j < i ==> (#[trigger] self@[j]).token != token@,
            decreases self.users@.len() - i,
        {
            if self.users[i].token == wanted {
                proof {
                    assert(self@[i as int].token == token@);
                    assert(first_holder(self@, token@, i as int));
                    lemma_address_of_first_holder(self@, token@, i as int);
                }
                return Ok(self.users[i].address);
            }
            i = i + 1;
        }
        proof {
            lemma_address_of_unknown(self@, token@);
        }
        Err(SessionError::SessionNotFound)
    }
}

/// Logging in twice under one name fails the second time: once a user is
/// registered, the name is taken.
pub proof fn lemma_registered_name_is_taken(users: Seq<UserView>, user: UserView)
    ensures
        has_user(users.push(user), user.username),
{
    assert(users.push(user)[users.len() as int] == user);
}

/// The token handed out at a login leads to a session from then on. It
/// leads to the address handed out with it, unless an earlier user holds
/// the same token: then it goes on leading to that user's address. Tokens
/// held before the login lead where they led.
pub proof fn lemma_token_leads_to_session(users: Seq<UserView>, user: UserView)
    ensures
        address_of(users.push(user), user.token) is Some,
        !has_token(users, user.token) ==> address_of(users.push(user), user.token) == Some(
            user.address,
        ),
        forall|token: Seq<char>| #[trigger]
            has_token(users, token) ==> address_of(users.push(user), token) == address_of(
                users,
                token,
            ),
{
    let after: Seq<UserView> = users.push(user);
    assert(after[users.len() as int] == user);
    assert forall|token: Seq<char>| #[trigger] has_token(users, token) implies address_of(
        after,
        token,
    ) == address_of(users, token) by {
        lemma_has_token_first_holder(users, token);
        let k: int = choose|k: int| first_holder(users, token, k);
        lemma_address_of_first_holder(users, token, k);
        assert forall|j: int| 0 <= j < k implies (#[trigger] after[j]).token != token by {
            assert(after[j] == users[j]);
        }
        assert(after[k] == users[k]);
        assert(first_holder(after, token, k));
        lemma_address_of_first_holder(after, token, k);
    }
    if has_token(users, user.token) {
        lemma_has_token_first_holder(users, user.token);
    } else {
        assert forall|j: int| 0 <= j < users.len() implies (#[trigger] after[j]).token
            != user.token by {
            assert(after[j] == users[j]);
        }
        assert(first_holder(after, user.token, users.len() as int));
        lemma_address_of_first_holder(after, user.token, users.len() as int);
    }
}

/// A token that somebody holds has a first holder.
pub proof fn lemma_has_token_first_holder(users: Seq<UserView>, token: Seq<char>)
    requires
        has_token(users, token),
    ensures
        exists|i: int| first_holder(users, token, i),
        address_of(users, token) is Some,
    decreases users.len(),
{
    let last: int = users.len() - 1;
    let front: Seq<UserView> = users.drop_last();
    if has_token(front, token) {
        lemma_has_token_first_holder(front, token);
        let k: int = choose|k: int| first_holder(front, token, k);
        assert(users[k] == front[k]);
        assert forall|j: int| 0 <= j < k implies (#[trigger] users[j]).token != token by {
            assert(users[j] == front[j]);
        }
        assert(first_holder(users, token, k));
    } else {
        let w: int = choose|w: int| 0 <= w < users.len() && (#[trigger] users[w]).token == token;
        if w < last {
            assert(front[w] == users[w]);
            assert(false);
        }
        assert forall|j: int| 0 <= j < last implies (#[trigger] users[j]).token != token by {
            assert(front[j] == users[j]);
        }
        assert(first_holder(users, token, last));
    }
}

} // verus!
