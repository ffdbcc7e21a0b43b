use user_auth::config::EnvConfig;
use user_auth::dto::{
    credentials_within_policy, users_to_res_dtos, ErrorDTO, GetProfileResDTO, GetUserResDTO,
};
use user_auth::service::UserServiceImp;
use user_auth::store::MemoryUserRepository;
use user_auth::user::User;

#[test]
fn policy_accepts_lengths_from_three_to_thirty_bytes() {
    assert!(credentials_within_policy("abc", "abc"));
    assert!(credentials_within_policy(&"a".repeat(30), &"b".repeat(30)));
}

#[test]
fn policy_rejects_out_of_range_lengths() {
    assert!(!credentials_within_policy("ab", "hunter22"));
    assert!(!credentials_within_policy(&"a".repeat(31), "hunter22"));
    assert!(!credentials_within_policy("bob", "ab"));
    assert!(!credentials_within_policy("bob", &"b".repeat(31)));
}

#[test]
fn user_projection_keeps_id_and_login_only() {
    let user = User::new(5, "ann".to_string(), "digest".to_string(), "salt".to_string());
    let dto = GetUserResDTO::from_user(user);
    assert_eq!(dto.get_id(), 5);
    assert_eq!(dto.clone_login(), "ann");
}

#[test]
fn profile_projection_keeps_id_and_login_only() {
    let user = User::new(5, "ann".to_string(), "digest".to_string(), "salt".to_string());
    let dto = GetProfileResDTO::from_user(user);
    assert_eq!(dto.get_id(), 5);
    assert_eq!(dto.clone_login(), "ann");
}

#[test]
fn directory_projection_maps_every_record_in_order() {
    let mut service = UserServiceImp::new(
        MemoryUserRepository::new(),
        "a-signing-secret".to_string(),
    );
    service
        .register("ann".to_string(), "hunter22".to_string())
        .unwrap();
    service
        .register("ben".to_string(), "hunter22".to_string())
        .unwrap();
    let dtos = users_to_res_dtos(service.get_all().unwrap());
    assert_eq!(dtos.len(), 2);
    assert_eq!(dtos[0].get_id(), 1);
    assert_eq!(dtos[0].clone_login(), "ann");
    assert_eq!(dtos[1].get_id(), 2);
    assert_eq!(dtos[1].clone_login(), "ben");
}

#[test]
fn error_dto_carries_its_message() {
    let dto = ErrorDTO::new("You are unauthorized".to_string());
    assert_eq!(dto.clone_message(), "You are unauthorized");
}

#[test]
fn env_config_hands_each_value_back() {
    let config = EnvConfig::new(
        "secret".to_string(),
        "localhost".to_string(),
        "*".to_string(),
        "GET, POST".to_string(),
        "content-type".to_string(),
        "true".to_string(),
    );
    config.check();
    assert_eq!(config.clone_jwt_secret(), "secret");
    assert_eq!(config.clone_jwt_domain(), "localhost");
    assert_eq!(config.clone_access_control_allow_origin(), "*");
    assert_eq!(config.clone_access_control_allow_methods(), "GET, POST");
    assert_eq!(config.clone_access_control_allow_headers(), "content-type");
    assert_eq!(config.clone_access_control_allow_credentials(), "true");
}
