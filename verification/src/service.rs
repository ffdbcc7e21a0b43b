//! Account service: orchestrates the store, the credential codec and the
//! token codec.

use vstd::prelude::*;

use crate::credential::{generate_salt, hash_password, is_salt_char, sha256_hex};
use crate::store::{
    has_id, has_login, lemma_user_index_by_id, store_ok, user_with_id, user_with_login,
    MemoryUserRepository, UserRepositoryInsertError, UserRepositorySelectAllError,
    UserRepositorySelectOneError,
};
use crate::token::{token_claim, token_of, JwtData};
use crate::user::{User, UserView, Users};

verus! {

#[derive(Debug, Clone, PartialEq, Eq, Structural)]
pub enum UserServiceGetAllError {
    UnexpectedError,
}

#[derive(Debug, Clone, PartialEq, Eq, Structural)]
pub enum UserServiceGetOneError {
    NotFound,
    UnexpectedError,
}

#[derive(Debug, Clone, PartialEq, Eq, Structural)]
pub enum UserServiceRegisterError {
    LoginAlreadyUsed,
    UnexpectedError,
}

#[derive(Debug, Clone, PartialEq, Eq, Structural)]
pub enum UserServiceLoginError {
    NotFound,
    WrongPassword,
    UnexpectedError,
}

/// The account service: owns the user store and the signing secret (handed
/// in once at construction, never global state).
pub struct UserServiceImp {
    user_repository: MemoryUserRepository,
    jwt_secret: String,
}

impl View for UserServiceImp {
    type V = Seq<UserView>;

    closed spec fn view(&self) -> Seq<UserView> {
        self.user_repository@
    }
}

impl UserServiceImp {
    /// The identity the next successful registration will be assigned.
    pub closed spec fn next_id_spec(&self) -> int {
        self.user_repository.next_id_spec()
    }

    /// The process-wide signing secret of the token codec.
    pub closed spec fn secret_spec(&self) -> Seq<char> {
        self.jwt_secret@
    }

    pub open spec fn wf(&self) -> bool {
        store_ok(self@, self.next_id_spec())
    }

    pub fn new(user_repository: MemoryUserRepository, jwt_secret: String) -> (r: Self)
        ensures
            r@ == user_repository@,
            r.next_id_spec() == user_repository.next_id_spec(),
            r.secret_spec() == jwt_secret@,
    {
        Self { user_repository, jwt_secret }
    }

    /// Whether another registration can still be assigned an identity:
    /// `register`'s precondition, for callers that must test it at run time.
    pub fn can_allocate_id(&self) -> (r: bool)
        ensures
            r == (self.next_id_spec() < i32::MAX as int),
    {
        self.user_repository.can_allocate_id()
    }

    /// A snapshot of the whole directory.
    pub fn get_all(&self) -> (r: Result<Users, UserServiceGetAllError>)
        ensures
            r matches Ok(us) && us@ == self@,
    {
        match self.user_repository.select_all() {
            Ok(users) => Ok(Users::new(users)),
            Err(UserRepositorySelectAllError::UnexpectedError) => Err(
                UserServiceGetAllError::UnexpectedError,
            ),
        }
    }

    /// The record with this identity, or `NotFound`.
    pub fn get_one_by_id(&self, id: i32) -> (r: Result<User, UserServiceGetOneError>)
        requires
            self.wf(),
        ensures
            has_id(self@, id) ==> (r matches Ok(u) && u@ == user_with_id(self@, id)),
            !has_id(self@, id) ==> r == Err::<User, _>(UserServiceGetOneError::NotFound),
    {
        match self.user_repository.select_one_by_id(id) {
            Ok(user) => Ok(user),
            Err(UserRepositorySelectOneError::NotFound) => Err(UserServiceGetOneError::NotFound),
            Err(UserRepositorySelectOneError::UnexpectedError) => Err(
                UserServiceGetOneError::UnexpectedError,
            ),
        }
    }

    /// The record with this login (exact, case-sensitive), or `NotFound`.
    pub fn get_one_by_login(&self, login: String) -> (r: Result<User, UserServiceGetOneError>)
        requires
            self.wf(),
        ensures
            has_login(self@, login@) ==> (r matches Ok(u) && u@ == user_with_login(self@, login@)),
            !has_login(self@, login@) ==> r == Err::<User, _>(UserServiceGetOneError::NotFound),
    {
        match self.user_repository.select_one_by_login(login) {
            Ok(user) => Ok(user),
            Err(UserRepositorySelectOneError::NotFound) => Err(UserServiceGetOneError::NotFound),
            Err(UserRepositorySelectOneError::UnexpectedError) => Err(
                UserServiceGetOneError::UnexpectedError,
            ),
        }
    }

    /// Registration: generate a fresh 64-character salt, derive the salted
    /// digest, insert under a fresh identity, and hand back the canonical
    /// stored record. Succeeds if and only if the login was free; the
    /// plaintext password is never stored.
    pub fn register(&mut self, login: String, password: String) -> (r: Result<
        User,
        UserServiceRegisterError,
    >)
        requires
            old(self).wf(),
            old(self).next_id_spec() < i32::MAX as int,
        ensures
            final(self).wf(),
            final(self).secret_spec() == old(self).secret_spec(),
            has_login(old(self)@, login@) ==> r == Err::<User, _>(
                UserServiceRegisterError::LoginAlreadyUsed,
            ) && final(self)@ == old(self)@ && final(self).next_id_spec() == old(
                self,
            ).next_id_spec(),
            !has_login(old(self)@, login@) ==> (r matches Ok(u) && u@.id as int == old(
                self,
            ).next_id_spec() && u@.login == login@ && u@.salt.len() == 64 && (forall|i: int|
                0 <= i < u@.salt.len() ==> is_salt_char(u@.salt[i])) && u@.hash == sha256_hex(
                password@ + u@.salt,
            ) && final(self)@ == old(self)@.push(u@) && final(self).next_id_spec() == old(
                self,
            ).next_id_spec() + 1),
    {
        let salt = generate_salt(64);
        let hash = hash_password(password.as_str(), salt.as_str());
        let result = self.user_repository.insert(login, hash, salt);
        match result {
            Err(UserRepositoryInsertError::LoginAlreadyUsed) => Err(
                UserServiceRegisterError::LoginAlreadyUsed,
            ),
            Err(UserRepositoryInsertError::UnexpectedError) => Err(
                UserServiceRegisterError::UnexpectedError,
            ),
            Ok(user_id) => {
                proof {
                    lemma_user_index_by_id(
                        self.user_repository@,
                        self.user_repository.next_id_spec(),
                        self.user_repository@.len() - 1,
                    );
                }
                match self.user_repository.select_one_by_id(user_id) {
                    Ok(user) => Ok(user),
                    Err(_) => Err(UserServiceRegisterError::UnexpectedError),
                }
            },
        }
    }

    /// Authentication: look the login up, re-derive the digest from the
    /// offered password and the stored salt, and on a byte-for-byte match
    /// issue a signed session token for the record's identity.
    pub fn login(&self, login: String, password: String) -> (r: Result<
        String,
        UserServiceLoginError,
    >)
        requires
            self.wf(),
        ensures
            !has_login(self@, login@) ==> r == Err::<String, _>(UserServiceLoginError::NotFound),
            has_login(self@, login@) && user_with_login(self@, login@).hash != sha256_hex(
                password@ + user_with_login(self@, login@).salt,
            ) ==> r == Err::<String, _>(UserServiceLoginError::WrongPassword),
            has_login(self@, login@) && user_with_login(self@, login@).hash == sha256_hex(
                password@ + user_with_login(self@, login@).salt,
            ) ==> (r matches Ok(t) && t@ == token_of(
                self.secret_spec(),
                user_with_login(self@, login@).id,
            ) && token_claim(self.secret_spec(), t@) == Some(user_with_login(self@, login@).id)),
    {
        let user = match self.user_repository.select_one_by_login(login) {
            Ok(u) => u,
            Err(UserRepositorySelectOneError::NotFound) => {
                return Err(UserServiceLoginError::NotFound);
            },
            Err(UserRepositorySelectOneError::UnexpectedError) => {
                return Err(UserServiceLoginError::UnexpectedError);
            },
        };
        let salt = user.clone_salt();
        let hash = hash_password(password.as_str(), salt.as_str());
        let stored = user.clone_hash();
        if !(hash == stored) {
            return Err(UserServiceLoginError::WrongPassword);
        }
        let jwt_data = JwtData::new(user.get_id());
        Ok(jwt_data.into_token(self.jwt_secret.as_str()))
    }

    /// Verify a bearer token against this service's signing secret.
    pub fn verify_token(&self, token_str: &str) -> (r: Result<JwtData, ()>)
        ensures
            match token_claim(self.secret_spec(), token_str@) {
                Some(id) => r matches Ok(d) && d.user_id_spec() == id,
                None => r == Err::<JwtData, ()>(()),
            },
    {
        JwtData::from_token_str(token_str, self.jwt_secret.as_str())
    }
}

/// Law (credential round trip): a successful registration stores, for the
/// new login, exactly the digest derived from the registered password and
/// the record's salt. By `login`'s contract, offering the same password
/// then succeeds, and offering any password whose derived digest differs is
/// refused with `WrongPassword`.
pub proof fn lemma_credential_round_trip(users: Seq<UserView>, record: UserView, password: Seq<char>)
    requires
        !has_login(users, record.login),
        record.hash == sha256_hex(password + record.salt),
    ensures
        has_login(users.push(record), record.login),
        user_with_login(users.push(record), record.login) == record,
        user_with_login(users.push(record), record.login).hash == sha256_hex(
            password + user_with_login(users.push(record), record.login).salt,
        ),
{
    let pushed = users.push(record);
    assert(pushed[users.len() as int] == record);
    assert(has_login(pushed, record.login));
    let j = crate::store::login_index(pushed, record.login);
    if j < users.len() {
        assert(pushed[j] == users[j]);
        assert(has_login(users, record.login));
    }
}

} // verus!
