use user_auth::gate::{AuthGuard, AuthGuardError};
use user_auth::service::UserServiceImp;
use user_auth::store::MemoryUserRepository;
use user_auth::token::JwtData;

fn service_with_bob() -> (UserServiceImp, String) {
    let mut service = UserServiceImp::new(
        MemoryUserRepository::new(),
        "a-signing-secret".to_string(),
    );
    service
        .register("bob".to_string(), "hunter22".to_string())
        .unwrap();
    let token = service
        .login("bob".to_string(), "hunter22".to_string())
        .unwrap();
    (service, token)
}

#[test]
fn valid_token_is_admitted_with_the_resolved_identity() {
    let (service, token) = service_with_bob();
    let gate = AuthGuard::default();
    let user = gate.authorize(&service, Some(&token)).unwrap();
    assert_eq!(user.get_id(), 1);
    assert_eq!(user.clone_login(), "bob");
}

#[test]
fn missing_token_is_rejected() {
    let (service, _) = service_with_bob();
    let gate = AuthGuard::default();
    let rejected = gate.authorize(&service, None);
    assert!(matches!(rejected, Err(AuthGuardError::Unauthorized)));
}

#[test]
fn malformed_token_is_rejected() {
    let (service, _) = service_with_bob();
    let gate = AuthGuard::default();
    let rejected = gate.authorize(&service, Some("eyJhbGciOiJIUzI1NiJ9.broken"));
    assert!(matches!(rejected, Err(AuthGuardError::Unauthorized)));
}

#[test]
fn token_for_a_nonexistent_identity_is_rejected() {
    let (service, _) = service_with_bob();
    let gate = AuthGuard::default();
    // Correctly signed, but the subject was never registered.
    let stale = JwtData::new(99).into_token("a-signing-secret");
    let rejected = gate.authorize(&service, Some(&stale));
    assert!(matches!(rejected, Err(AuthGuardError::Unauthorized)));
}

#[test]
fn all_rejections_are_indistinguishable() {
    let (service, _) = service_with_bob();
    let gate = AuthGuard::default();
    let missing = gate.authorize(&service, None).unwrap_err();
    let malformed = gate.authorize(&service, Some("junk")).unwrap_err();
    let stale = gate
        .authorize(
            &service,
            Some(&JwtData::new(99).into_token("a-signing-secret")),
        )
        .unwrap_err();
    assert_eq!(missing, malformed);
    assert_eq!(malformed, stale);
}
