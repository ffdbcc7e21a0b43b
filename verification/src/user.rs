//! Account records: the stored `User` and the `Users` collection.

use vstd::prelude::*;

verus! {

/// Mathematical content of one account record: the identity, the login and
/// the stored credential (digest plus the salt it was derived with).
pub struct UserView {
    pub id: i32,
    pub login: Seq<char>,
    pub hash: Seq<char>,
    pub salt: Seq<char>,
}

/// One account record. Created only by registration; the credential fields
/// hold a salted digest, never the plaintext password.
#[derive(Debug)]
pub struct User {
    id: i32,
    login: String,
    hash: String,
    salt: String,
}

impl View for User {
    type V = UserView;

    closed spec fn view(&self) -> UserView {
        UserView { id: self.id, login: self.login@, hash: self.hash@, salt: self.salt@ }
    }
}

impl Clone for User {
    fn clone(&self) -> (r: Self)
        ensures
            r == *self,
    {
        User {
            id: self.id,
            login: self.login.clone(),
            hash: self.hash.clone(),
            salt: self.salt.clone(),
        }
    }
}

impl User {
    pub fn new(id: i32, login: String, hash: String, salt: String) -> (r: Self)
        ensures
            r@ == (UserView { id: id, login: login@, hash: hash@, salt: salt@ }),
    {
        Self { id, login, hash, salt }
    }

    pub fn get_id(&self) -> (r: i32)
        ensures
            r == self@.id,
    {
        self.id
    }

    pub fn login_matches(&self, login: &String) -> (r: bool)
        ensures
            r == (self@.login == login@),
    {
        self.login == *login
    }

    pub fn clone_login(&self) -> (r: String)
        ensures
            r@ == self@.login,
    {
        self.login.clone()
    }

    pub fn clone_salt(&self) -> (r: String)
        ensures
            r@ == self@.salt,
    {
        self.salt.clone()
    }

    pub fn clone_hash(&self) -> (r: String)
        ensures
            r@ == self@.hash,
    {
        self.hash.clone()
    }
}

/// The records of a sequence of users, in order.
pub open spec fn user_views(users: Seq<User>) -> Seq<UserView> {
    users.map_values(|u: User| u@)
}

/// A snapshot of the whole directory, as handed out by the account service.
#[derive(Debug)]
pub struct Users(Vec<User>);

impl View for Users {
    type V = Seq<UserView>;

    closed spec fn view(&self) -> Seq<UserView> {
        user_views(self.0@)
    }
}

impl Users {
    pub fn new(users: Vec<User>) -> (r: Self)
        ensures
            r@ == user_views(users@),
    {
        Self(users)
    }

    pub fn into_users(self) -> (r: Vec<User>)
        ensures
            user_views(r@) == self@,
    {
        self.0
    }
}

} // verus!
