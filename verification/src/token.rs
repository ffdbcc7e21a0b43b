//! Session token codec: issues and verifies signed bearer tokens carrying
//! exactly one claim, the subject's user id.

use hmac::{Hmac, Mac};
use jwt::{SignWithKey, VerifyWithKey};
use sha2::Sha256;
use std::collections::BTreeMap;
use vstd::prelude::*;

verus! {

/// The compact signed token that signing the single `user_id` claim with an
/// HMAC-SHA256 key built from `secret` yields; a function of the secret and
/// the identity alone.
pub uninterp spec fn token_of(secret: Seq<char>, user_id: i32) -> Seq<char>;

/// The identity a token resolves to under `secret`: `Some` exactly when the
/// token's signature verifies and it carries a well-formed `user_id` claim;
/// a function of the secret and the token alone.
pub uninterp spec fn token_claim(secret: Seq<char>, token: Seq<char>) -> Option<i32>;

/// Relies on jwt's SignWithKey for claim maps with hmac's Hmac<Sha256>:
/// signing is deterministic (fixed header, ordered claim serialization,
/// HMAC), and the token it returns verifies under the same key back to the
/// same claim, as the crate's sign/verify round trip shows. The key accepts
/// any secret length and the single integer claim always serializes, so the
/// unwraps cannot panic.
#[verifier::external_body]
fn sign_user_id(secret: &str, user_id: i32) -> (t: String)
    ensures
        t@ == token_of(secret@, user_id),
        token_claim(secret@, t@) == Some(user_id),
{
    let key: Hmac<Sha256> = Hmac::new_from_slice(secret.as_bytes()).unwrap();
    let mut claims = BTreeMap::new();
    claims.insert("user_id", user_id);
    claims.sign_with_key(&key).unwrap()
}

/// Relies on jwt's VerifyWithKey for claim maps with hmac's Hmac<Sha256>:
/// it recomputes the signature over the embedded claims and rejects the
/// token unless it matches; the outcome is a function of the secret and the
/// token alone.
#[verifier::external_body]
fn verify_user_id(secret: &str, token_str: &str) -> (r: Option<i32>)
    ensures
        r == token_claim(secret@, token_str@),
{
    let key: Hmac<Sha256> = match Hmac::new_from_slice(secret.as_bytes()) {
        Ok(k) => k,
        Err(_) => return None,
    };
    let claims: BTreeMap<String, i32> = match token_str.verify_with_key(&key) {
        Ok(c) => c,
        Err(_) => return None,
    };
    claims.get("user_id").copied()
}

/// The claim set of a session token: exactly one claim, the subject's id.
#[derive(Debug)]
pub struct JwtData {
    user_id: i32,
}

impl JwtData {
    pub closed spec fn user_id_spec(&self) -> i32 {
        self.user_id
    }

    pub fn new(user_id: i32) -> (r: Self)
        ensures
            r.user_id_spec() == user_id,
    {
        Self { user_id }
    }

    pub fn get_user_id(&self) -> (r: i32)
        ensures
            r == self.user_id_spec(),
    {
        self.user_id
    }

    /// Issue: sign the claim set with the given secret. The token verifies
    /// back to the same identity (see `from_token_str`).
    pub fn into_token(self, secret: &str) -> (t: String)
        ensures
            t@ == token_of(secret@, self.user_id_spec()),
            token_claim(secret@, t@) == Some(self.user_id_spec()),
    {
        sign_user_id(secret, self.user_id)
    }

    /// Verify: recompute the signature over the embedded claims and read the
    /// `user_id` claim back; forged and malformed tokens are rejected.
    pub fn from_token_str(token_str: &str, secret: &str) -> (r: Result<JwtData, ()>)
        ensures
            match token_claim(secret@, token_str@) {
                Some(id) => r matches Ok(d) && d.user_id_spec() == id,
                None => r == Err::<JwtData, ()>(()),
            },
    {
        match verify_user_id(secret, token_str) {
            Some(user_id) => Ok(JwtData::new(user_id)),
            None => Err(()),
        }
    }
}

} // verus!
