//! End-to-end scenario: registration, duplicate rejection, login, and
//! protected profile retrieval through the session gate.

use user_auth::dto::GetProfileResDTO;
use user_auth::gate::AuthGuard;
use user_auth::service::{UserServiceImp, UserServiceRegisterError};
use user_auth::store::MemoryUserRepository;

#[test]
fn register_login_and_profile_retrieval() {
    let mut service = UserServiceImp::new(
        MemoryUserRepository::new(),
        "a-signing-secret".to_string(),
    );

    // Register ("bob", "hunter22") and expect {id: 1, login: "bob"}.
    let bob = service
        .register("bob".to_string(), "hunter22".to_string())
        .unwrap();
    assert_eq!(bob.get_id(), 1);
    assert_eq!(bob.clone_login(), "bob");

    // A second registration of "bob" fails, whatever the password.
    let again = service.register("bob".to_string(), "other22".to_string());
    assert!(matches!(again, Err(UserServiceRegisterError::LoginAlreadyUsed)));

    // Login with the right password yields a token.
    let token = service
        .login("bob".to_string(), "hunter22".to_string())
        .unwrap();
    assert!(!token.is_empty());

    // The guard admits the token, which resolves to {id: 1, login: "bob"}.
    let gate = AuthGuard::default();
    let admitted = gate.authorize(&service, Some(&token)).unwrap();
    let profile = GetProfileResDTO::from_user(admitted);
    assert_eq!(profile.get_id(), 1);
    assert_eq!(profile.clone_login(), "bob");
}
