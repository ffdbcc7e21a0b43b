use user_auth::token::JwtData;

#[test]
fn token_round_trips_to_issued_identity() {
    let token = JwtData::new(7).into_token("a-signing-secret");
    let data = JwtData::from_token_str(&token, "a-signing-secret").unwrap();
    assert_eq!(data.get_user_id(), 7);
}

#[test]
fn issuing_is_deterministic() {
    let one = JwtData::new(7).into_token("a-signing-secret");
    let two = JwtData::new(7).into_token("a-signing-secret");
    assert_eq!(one, two);
}

#[test]
fn tokens_differ_by_identity_and_secret() {
    let base = JwtData::new(7).into_token("a-signing-secret");
    assert_ne!(base, JwtData::new(8).into_token("a-signing-secret"));
    assert_ne!(base, JwtData::new(7).into_token("another-secret"));
}

#[test]
fn token_shape_is_three_dot_separated_segments() {
    let token = JwtData::new(7).into_token("a-signing-secret");
    assert_eq!(token.matches('.').count(), 2);
}

#[test]
fn any_single_character_mutation_fails_verification() {
    let token = JwtData::new(7).into_token("a-signing-secret");
    for pos in 0..token.len() {
        let mut mutated: Vec<char> = token.chars().collect();
        mutated[pos] = if mutated[pos] == 'B' { 'C' } else { 'B' };
        let mutated: String = mutated.into_iter().collect();
        if mutated == token {
            continue;
        }
        assert!(
            JwtData::from_token_str(&mutated, "a-signing-secret").is_err(),
            "mutation at position {} was accepted",
            pos
        );
    }
}

#[test]
fn verification_with_another_secret_fails() {
    let token = JwtData::new(7).into_token("a-signing-secret");
    assert!(JwtData::from_token_str(&token, "another-secret").is_err());
}

#[test]
fn malformed_tokens_fail_verification() {
    assert!(JwtData::from_token_str("", "a-signing-secret").is_err());
    assert!(JwtData::from_token_str("not-a-token", "a-signing-secret").is_err());
    assert!(JwtData::from_token_str("a.b.c", "a-signing-secret").is_err());
}
