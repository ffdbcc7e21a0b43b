//! Boundary value shapes and the request-boundary input policy.
//!
//! The response projections carry only the public fields of a record: the
//! credential digest and salt never leave the service boundary.

use vstd::prelude::*;

use crate::user::{User, Users};

verus! {

/// The error body handed back by the excluded HTTP layer.
#[derive(Debug)]
pub struct ErrorDTO {
    message: String,
}

impl ErrorDTO {
    pub fn new(message: String) -> (r: Self)
        ensures
            r.message_spec() == message@,
    {
        Self { message }
    }

    pub closed spec fn message_spec(&self) -> Seq<char> {
        self.message@
    }

    pub fn clone_message(&self) -> (r: String)
        ensures
            r@ == self.message_spec(),
    {
        self.message.clone()
    }
}

/// Public projection of a record: identity and login only.
#[derive(Debug)]
pub struct GetUserResDTO {
    id: i32,
    login: String,
}

impl GetUserResDTO {
    pub closed spec fn id_spec(&self) -> i32 {
        self.id
    }

    pub closed spec fn login_spec(&self) -> Seq<char> {
        self.login@
    }

    pub fn from_user(user: User) -> (r: Self)
        ensures
            r.id_spec() == user@.id,
            r.login_spec() == user@.login,
    {
        Self { id: user.get_id(), login: user.clone_login() }
    }

    pub fn get_id(&self) -> (r: i32)
        ensures
            r == self.id_spec(),
    {
        self.id
    }

    pub fn clone_login(&self) -> (r: String)
        ensures
            r@ == self.login_spec(),
    {
        self.login.clone()
    }
}

/// The projection of a whole directory snapshot, record by record, in
/// order.
pub fn users_to_res_dtos(users: Users) -> (r: Vec<GetUserResDTO>)
    ensures
        r@.len() == users@.len(),
        forall|k: int|
            0 <= k < r@.len() ==> r@[k].id_spec() == users@[k].id && r@[k].login_spec()
                == users@[k].login,
{
    let items = users.into_users();
    let mut out: Vec<GetUserResDTO> = Vec::new();
    let mut i: usize = 0;
    while i < items.len()
        invariant
            i <= items@.len(),
            out@.len() == i,
            forall|k: int|
                0 <= k < i ==> out@[k].id_spec() == items@[k]@.id && out@[k].login_spec()
                    == items@[k]@.login,
        decreases items@.len() - i,
    {
        out.push(GetUserResDTO::from_user(items[i].clone()));
        i += 1;
    }
    out
}

/// Public projection returned by protected profile retrieval.
#[derive(Debug)]
pub struct GetProfileResDTO {
    id: i32,
    login: String,
}

impl GetProfileResDTO {
    pub closed spec fn id_spec(&self) -> i32 {
        self.id
    }

    pub closed spec fn login_spec(&self) -> Seq<char> {
        self.login@
    }

    pub fn from_user(user: User) -> (r: Self)
        ensures
            r.id_spec() == user@.id,
            r.login_spec() == user@.login,
    {
        Self { id: user.get_id(), login: user.clone_login() }
    }

    pub fn get_id(&self) -> (r: i32)
        ensures
            r == self.id_spec(),
    {
        self.id
    }

    pub fn clone_login(&self) -> (r: String)
        ensures
            r@ == self.login_spec(),
    {
        self.login.clone()
    }
}

/// Registration request body.
#[derive(Debug)]
pub struct RegisterUserReqDTO {
    pub login: String,
    pub password: String,
}

/// Login request body.
#[derive(Debug)]
pub struct LoginUserReqDTO {
    pub login: String,
    pub password: String,
}

/// Login response body: the token travels in the session cookie, not here.
#[derive(Debug, Default)]
pub struct LoginUserResDTO {}

/// Logout response body.
#[derive(Debug, Default)]
pub struct LogoutUserResDTO {}

/// Request-boundary input policy, enforced by the caller before the account
/// service is invoked: login and password must each be 3 to 30 bytes long.
pub fn credentials_within_policy(login: &str, password: &str) -> (ok: bool)
    ensures
        ok == (3 <= login.len() <= 30 && 3 <= password.len() <= 30),
{
    3 <= login.len() && login.len() <= 30 && 3 <= password.len() && password.len() <= 30
}

} // verus!
