//! The user store: an identity-indexed, login-indexed collection of records.
//!
//! The store enforces login uniqueness and allocates strictly increasing
//! identities. Every mutation happens inside a single exclusive borrow, so
//! the uniqueness check, the identity allocation and the append are one
//! atomic unit with respect to any other access.

use vstd::prelude::*;

use crate::user::{user_views, User, UserView};

verus! {

#[derive(Debug, Clone, PartialEq, Eq, Structural)]
pub enum UserRepositorySelectAllError {
    UnexpectedError,
}

#[derive(Debug, Clone, PartialEq, Eq, Structural)]
pub enum UserRepositorySelectOneError {
    NotFound,
    UnexpectedError,
}

#[derive(Debug, Clone, PartialEq, Eq, Structural)]
pub enum UserRepositoryInsertError {
    LoginAlreadyUsed,
    UnexpectedError,
}

/// Some record carries this login.
pub open spec fn has_login(users: Seq<UserView>, login: Seq<char>) -> bool {
    exists|i: int| 0 <= i < users.len() && users[i].login == login
}

/// The position of a record carrying this login.
pub open spec fn login_index(users: Seq<UserView>, login: Seq<char>) -> int {
    choose|i: int| 0 <= i < users.len() && users[i].login == login
}

/// The record carrying this login (meaningful when `has_login` holds; under
/// `store_ok` it is the only one).
pub open spec fn user_with_login(users: Seq<UserView>, login: Seq<char>) -> UserView {
    users[login_index(users, login)]
}

/// Some record carries this identity.
pub open spec fn has_id(users: Seq<UserView>, id: i32) -> bool {
    exists|i: int| 0 <= i < users.len() && users[i].id == id
}

/// The position of a record carrying this identity.
pub open spec fn id_index(users: Seq<UserView>, id: i32) -> int {
    choose|i: int| 0 <= i < users.len() && users[i].id == id
}

/// The record carrying this identity (meaningful when `has_id` holds; under
/// `store_ok` it is the only one).
pub open spec fn user_with_id(users: Seq<UserView>, id: i32) -> UserView {
    users[id_index(users, id)]
}

/// The store's invariant: logins are pairwise distinct, identities are
/// strictly increasing in insertion order, and the next-identity counter is
/// strictly greater than every assigned identity.
pub open spec fn store_ok(users: Seq<UserView>, next_id: int) -> bool {
    &&& forall|i: int, j: int|
        0 <= i < j < users.len() ==> users[i].login != users[j].login
    &&& forall|i: int, j: int| 0 <= i < j < users.len() ==> users[i].id < users[j].id
    &&& forall|i: int| 0 <= i < users.len() ==> users[i].id < next_id
}

/// Under `store_ok`, the record at position `k` is the one `user_with_id`
/// picks for its identity: identities are unique.
pub proof fn lemma_user_index_by_id(users: Seq<UserView>, next_id: int, k: int)
    requires
        store_ok(users, next_id),
        0 <= k < users.len(),
    ensures
        has_id(users, users[k].id),
        id_index(users, users[k].id) == k,
        user_with_id(users, users[k].id) == users[k],
{
    assert(has_id(users, users[k].id));
    let j = id_index(users, users[k].id);
    if j < k {
        assert(users[j].id < users[k].id);
    } else if k < j {
        assert(users[k].id < users[j].id);
    }
}

/// Under `store_ok`, the record at position `k` is the one `user_with_login`
/// picks for its login: logins are unique.
pub proof fn lemma_user_index_by_login(users: Seq<UserView>, next_id: int, k: int)
    requires
        store_ok(users, next_id),
        0 <= k < users.len(),
    ensures
        has_login(users, users[k].login),
        login_index(users, users[k].login) == k,
        user_with_login(users, users[k].login) == users[k],
{
    assert(has_login(users, users[k].login));
    let j = login_index(users, users[k].login);
    if j < k {
        assert(users[j].login != users[k].login);
    } else if k < j {
        assert(users[k].login != users[j].login);
    }
}

/// Law (login uniqueness): once a record with a given login is in the store
/// it stays there, so after one insert of a login succeeds, `has_login` holds
/// and every later insert of the same login is refused by
/// `MemoryUserRepository::insert`: of any number of inserts of one login, at
/// most one succeeds.
pub proof fn lemma_login_unique_after_insert(users: Seq<UserView>, record: UserView)
    ensures
        has_login(users.push(record), record.login),
        forall|l: Seq<char>| has_login(users, l) ==> has_login(users.push(record), l),
{
    assert(users.push(record)[users.len() as int] == record);
    assert forall|l: Seq<char>| has_login(users, l) implies has_login(
        users.push(record),
        l,
    ) by {
        let i = choose|i: int| 0 <= i < users.len() && users[i].login == l;
        assert(users.push(record)[i] == users[i]);
    }
}

/// Law (identity monotonicity): under the store invariant, the identities
/// assigned to successful inserts are pairwise distinct and strictly
/// increasing in the order the store observed them.
pub proof fn lemma_ids_monotonic(users: Seq<UserView>, next_id: int)
    requires
        store_ok(users, next_id),
    ensures
        forall|i: int, j: int| 0 <= i < j < users.len() ==> users[i].id < users[j].id,
        forall|i: int, j: int|
            0 <= i < users.len() && 0 <= j < users.len() && i != j ==> users[i].id != users[j].id,
{
    assert forall|i: int, j: int|
        0 <= i < users.len() && 0 <= j < users.len() && i != j implies users[i].id
        != users[j].id by {
        if i < j {
            assert(users[i].id < users[j].id);
        } else {
            assert(users[j].id < users[i].id);
        }
    }
}

/// In-memory user store. All operations go through a borrow of the whole
/// store, so a reader sees either none or all of an insert, and two inserts
/// can never interleave.
pub struct MemoryUserRepository {
    users: Vec<User>,
    next_index: i32,
}

impl View for MemoryUserRepository {
    type V = Seq<UserView>;

    closed spec fn view(&self) -> Seq<UserView> {
        user_views(self.users@)
    }
}

impl MemoryUserRepository {
    /// The identity the next successful insert will be assigned.
    pub closed spec fn next_id_spec(&self) -> int {
        self.next_index as int
    }

    pub open spec fn wf(&self) -> bool {
        store_ok(self@, self.next_id_spec())
    }

    /// An empty store; identities start at 1.
    pub fn new() -> (r: Self)
        ensures
            r@ == Seq::<UserView>::empty(),
            r.next_id_spec() == 1,
            r.wf(),
    {
        let r = Self { users: Vec::new(), next_index: 1 };
        proof {
            assert(r@ =~= Seq::<UserView>::empty());
        }
        r
    }

    /// Whether another identity can still be allocated, that is, whether the
    /// counter is below its machine limit: `insert`'s precondition.
    pub fn can_allocate_id(&self) -> (r: bool)
        ensures
            r == (self.next_id_spec() < i32::MAX as int),
    {
        self.next_index < i32::MAX
    }

    /// A snapshot copy of every record; never fails on the in-memory store.
    pub fn select_all(&self) -> (r: Result<Vec<User>, UserRepositorySelectAllError>)
        ensures
            r matches Ok(us) && user_views(us@) == self@,
    {
        let mut out: Vec<User> = Vec::new();
        let mut i: usize = 0;
        while i < self.users.len()
            invariant
                i <= self.users@.len(),
                out@.len() == i,
                forall|k: int| 0 <= k < i ==> out@[k] == self.users@[k],
            decreases self.users@.len() - i,
        {
            out.push(self.users[i].clone());
            i += 1;
        }
        proof {
            assert(user_views(out@) =~= self@);
        }
        Ok(out)
    }

    /// The record with this identity, or `NotFound`.
    pub fn select_one_by_id(&self, id: i32) -> (r: Result<User, UserRepositorySelectOneError>)
        requires
            self.wf(),
        ensures
            has_id(self@, id) ==> (r matches Ok(u) && u@ == user_with_id(self@, id)),
            !has_id(self@, id) ==> r == Err::<User, _>(UserRepositorySelectOneError::NotFound),
    {
        let mut i: usize = 0;
        while i < self.users.len()
            invariant
                i <= self.users@.len(),
                self.wf(),
                forall|k: int| 0 <= k < i ==> self@[k].id != id,
            decreases self.users@.len() - i,
        {
            if self.users[i].get_id() == id {
                let u = self.users[i].clone();
                proof {
                    lemma_user_index_by_id(self@, self.next_id_spec(), i as int);
                }
                return Ok(u);
            }
            i += 1;
        }
        Err(UserRepositorySelectOneError::NotFound)
    }

    /// The record with this login (exact, case-sensitive), or `NotFound`.
    pub fn select_one_by_login(&self, login: String) -> (r: Result<
        User,
        UserRepositorySelectOneError,
    >)
        requires
            self.wf(),
        ensures
            has_login(self@, login@) ==> (r matches Ok(u) && u@ == user_with_login(
                self@,
                login@,
            )),
            !has_login(self@, login@) ==> r == Err::<User, _>(
                UserRepositorySelectOneError::NotFound,
            ),
    {
        let mut i: usize = 0;
        while i < self.users.len()
            invariant
                i <= self.users@.len(),
                self.wf(),
                forall|k: int| 0 <= k < i ==> self@[k].login != login@,
            decreases self.users@.len() - i,
        {
            if self.users[i].login_matches(&login) {
                let u = self.users[i].clone();
                proof {
                    lemma_user_index_by_login(self@, self.next_id_spec(), i as int);
                }
                return Ok(u);
            }
            i += 1;
        }
        Err(UserRepositorySelectOneError::NotFound)
    }

    /// Atomically: check that no record carries `login`; if none does,
    /// allocate the next identity, append the record and advance the counter.
    /// Succeeds if and only if the login was free.
    pub fn insert(&mut self, login: String, hash: String, salt: String) -> (r: Result<
        i32,
        UserRepositoryInsertError,
    >)
        requires
            old(self).wf(),
            old(self).next_id_spec() < i32::MAX as int,
        ensures
            final(self).wf(),
            has_login(old(self)@, login@) ==> r == Err::<i32, _>(
                UserRepositoryInsertError::LoginAlreadyUsed,
            ) && *final(self) == *old(self),
            !has_login(old(self)@, login@) ==> (r matches Ok(id) && id as int == old(
                self,
            ).next_id_spec() && final(self)@ == old(self)@.push(
                UserView { id: id, login: login@, hash: hash@, salt: salt@ },
            ) && final(self).next_id_spec() == old(self).next_id_spec() + 1),
    {
        let mut i: usize = 0;
        while i < self.users.len()
            invariant
                i <= self.users@.len(),
                *self == *old(self),
                old(self).wf(),
                old(self).next_id_spec() < i32::MAX as int,
                forall|k: int| 0 <= k < i ==> self@[k].login != login@,
            decreases self.users@.len() - i,
        {
            if self.users[i].login_matches(&login) {
                proof {
                    assert(self@[i as int].login == login@);
                    assert(has_login(old(self)@, login@));
                }
                return Err(UserRepositoryInsertError::LoginAlreadyUsed);
            }
            i += 1;
        }
        let user_id = self.next_index;
        let ghost pre = self@;
        let ghost added = UserView { id: user_id, login: login@, hash: hash@, salt: salt@ };
        let user = User::new(user_id, login, hash, salt);
        self.users.push(user);
        self.next_index = self.next_index + 1;
        proof {
            assert(self@ =~= pre.push(added));
            assert forall|a: int, b: int|
                0 <= a < b < self@.len() implies self@[a].login != self@[b].login by {
                if b < pre.len() {
                    assert(self@[a] == pre[a] && self@[b] == pre[b]);
                } else {
                    assert(self@[b] == added && self@[a] == pre[a]);
                }
            }
            assert forall|a: int, b: int|
                0 <= a < b < self@.len() implies self@[a].id < self@[b].id by {
                if b < pre.len() {
                    assert(self@[a] == pre[a] && self@[b] == pre[b]);
                } else {
                    assert(self@[b] == added && self@[a] == pre[a]);
                }
            }
        }
        Ok(user_id)
    }
}

} // verus!
