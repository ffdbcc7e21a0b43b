//! Session gate: the request-boundary guard for protected operations.

use vstd::prelude::*;

use crate::service::UserServiceImp;
use crate::store::{has_id, user_with_id};
use crate::token::token_claim;
use crate::user::{User, UserView};

verus! {

/// The guard's single, deliberately opaque rejection: the caller cannot
/// tell a missing token, a forged token and a stale identity apart.
#[derive(Debug, Clone, PartialEq, Eq, Structural)]
pub enum AuthGuardError {
    Unauthorized,
}

/// What the guard decides for one request: no token, a token whose
/// signature does not hold, and a token whose identity no longer exists
/// are all rejected with the same `Unauthorized`; only a verified token
/// naming a live identity admits the request, with that record attached.
pub open spec fn gate_decision(
    users: Seq<UserView>,
    secret: Seq<char>,
    cookie: Option<Seq<char>>,
) -> Result<UserView, AuthGuardError> {
    match cookie {
        None => Err(AuthGuardError::Unauthorized),
        Some(token) => match token_claim(secret, token) {
            None => Err(AuthGuardError::Unauthorized),
            Some(id) => if has_id(users, id) {
                Ok(user_with_id(users, id))
            } else {
                Err(AuthGuardError::Unauthorized)
            },
        },
    }
}

/// Request-boundary guard: applied to protected operations only. Stateless
/// per request; it never caches a verified identity.
pub struct AuthGuard {}

impl Default for AuthGuard {
    fn default() -> (r: Self)
        ensures
            r == (AuthGuard {  }),
    {
        AuthGuard {  }
    }
}

impl AuthGuard {
    /// Admit or reject one request, given the token carried by its
    /// designated cookie (if any): verify the token, resolve the claimed
    /// identity, and short-circuit to `Unauthorized` on any failure.
    pub fn authorize(&self, user_service: &UserServiceImp, jwt_cookie: Option<&str>) -> (r:
        Result<User, AuthGuardError>)
        requires
            user_service.wf(),
        ensures
            (match r {
                Ok(u) => Ok(u@),
                Err(e) => Err(e),
            }) == gate_decision(
                user_service@,
                user_service.secret_spec(),
                match jwt_cookie {
                    Some(t) => Some(t@),
                    None => None,
                },
            ),
    {
        let token_str = match jwt_cookie {
            Some(t) => t,
            None => {
                return Err(AuthGuardError::Unauthorized);
            },
        };
        let jwt_data = match user_service.verify_token(token_str) {
            Ok(d) => d,
            Err(_) => {
                return Err(AuthGuardError::Unauthorized);
            },
        };
        match user_service.get_one_by_id(jwt_data.get_user_id()) {
            Ok(user) => Ok(user),
            Err(_) => Err(AuthGuardError::Unauthorized),
        }
    }
}

} // verus!
