use apiary_auth::config::{AuthConfig, HashCost, DEFAULT_VALIDITY_WINDOW};
use apiary_auth::error::{AuthError, GateRejection};
use apiary_auth::models::utilisateur_models::{TokenClaims, Utilisateur};
use apiary_auth::token::{
    claims_for, claims_of, finish_issue, generate_jwt_token, generate_jwt_token_at, judge_claims,
    verify_token, verify_token_at, RawClaims,
};

const T0: i64 = 1_700_000_000;

fn config_with(secret: &str, window: i64) -> AuthConfig {
    let cost = HashCost { memory_kib: 64, iterations: 1, lanes: 1 };
    AuthConfig::new(secret.to_string(), window, cost).unwrap()
}

fn alice() -> Utilisateur {
    Utilisateur {
        id: 42,
        nom_apiculteur: Some("Martin".to_string()),
        prenom_apiculteur: Some("Alice".to_string()),
        mail: Some("alice@example.org".to_string()),
        telephone: None,
        mot_de_passe: None,
        numero_apiculteur: Some(1001),
        date_naissance: None,
    }
}

fn rejected() -> Result<TokenClaims, AuthError> {
    Err(AuthError::AuthorizationFailure(GateRejection::InvalidToken))
}

fn signed_json(body: serde_json::Value, secret: &str) -> String {
    jsonwebtoken::encode(
        &jsonwebtoken::Header::default(),
        &body,
        &jsonwebtoken::EncodingKey::from_secret(secret.as_bytes()),
    )
    .unwrap()
}

fn object(fields: Vec<(&str, serde_json::Value)>) -> serde_json::Value {
    let mut map = serde_json::Map::new();
    for (name, value) in fields {
        map.insert(name.to_string(), value);
    }
    serde_json::Value::Object(map)
}

#[test]
fn default_window_is_three_days() {
    assert_eq!(DEFAULT_VALIDITY_WINDOW, 3 * 24 * 60 * 60);
}

#[test]
fn issued_token_carries_subject_issue_time_and_expiry() {
    let config = config_with("s3cret", DEFAULT_VALIDITY_WINDOW);
    let token = generate_jwt_token_at(&alice(), &config, T0).unwrap();
    let claims = verify_token_at(&token, &config, T0).unwrap();
    assert_eq!(
        claims,
        TokenClaims {
            sub: "alice@example.org".to_string(),
            user_id: 42,
            iat: 1_700_000_000,
            exp: 1_700_259_200,
        }
    );
}

#[test]
fn token_is_accepted_inside_the_window_and_rejected_from_its_end() {
    let window = 600;
    let config = config_with("s3cret", window);
    let token = generate_jwt_token_at(&alice(), &config, T0).unwrap();
    assert!(verify_token_at(&token, &config, T0).is_ok());
    assert!(verify_token_at(&token, &config, T0 + 1).is_ok());
    assert!(verify_token_at(&token, &config, T0 + window - 1).is_ok());
    assert_eq!(verify_token_at(&token, &config, T0 + window), rejected());
    assert_eq!(verify_token_at(&token, &config, T0 + window + 1), rejected());
    assert_eq!(verify_token_at(&token, &config, i64::MAX), rejected());
}

#[test]
fn token_is_accepted_before_its_issue_time() {
    let config = config_with("s3cret", 600);
    let token = generate_jwt_token_at(&alice(), &config, T0).unwrap();
    assert!(verify_token_at(&token, &config, T0 - 5).is_ok());
    assert!(verify_token_at(&token, &config, -1).is_ok());
}

#[test]
fn expiry_check_has_no_leeway() {
    let config = config_with("s3cret", 1);
    let token = generate_jwt_token_at(&alice(), &config, T0).unwrap();
    assert!(verify_token_at(&token, &config, T0).is_ok());
    assert_eq!(verify_token_at(&token, &config, T0 + 1), rejected());
}

#[test]
fn token_under_another_secret_is_rejected() {
    let issuer = config_with("s3cret", 600);
    let other = config_with("rotated", 600);
    let token = generate_jwt_token_at(&alice(), &issuer, T0).unwrap();
    assert_eq!(verify_token_at(&token, &other, T0), rejected());
}

#[test]
fn malformed_and_tampered_tokens_are_rejected() {
    let config = config_with("s3cret", 600);
    assert_eq!(verify_token_at("", &config, T0), rejected());
    assert_eq!(verify_token_at("abc", &config, T0), rejected());
    assert_eq!(verify_token_at("a.b.c", &config, T0), rejected());
    let token = generate_jwt_token_at(&alice(), &config, T0).unwrap();
    let mut tampered = token.clone();
    let last = tampered.pop().unwrap();
    tampered.push(if last == 'A' { 'B' } else { 'A' });
    assert_eq!(verify_token_at(&tampered, &config, T0), rejected());
    let truncated = &token[..token.len() - 3];
    assert_eq!(verify_token_at(truncated, &config, T0), rejected());
}

#[test]
fn token_is_what_the_signer_gives_for_the_four_claims() {
    let config = config_with("s3cret", 600);
    let token = generate_jwt_token_at(&alice(), &config, T0).unwrap();
    let expected = signed_json(
        object(vec![
            ("sub", serde_json::Value::from("alice@example.org")),
            ("user_id", serde_json::Value::from(42)),
            ("iat", serde_json::Value::from(T0)),
            ("exp", serde_json::Value::from(T0 + 600)),
        ]),
        "s3cret",
    );
    assert_eq!(token, expected);
    assert_eq!(token.split('.').count(), 3);
}

#[test]
fn token_without_a_claim_is_rejected() {
    let config = config_with("s3cret", 600);
    let no_iat = signed_json(
        object(vec![
            ("sub", serde_json::Value::from("alice@example.org")),
            ("user_id", serde_json::Value::from(42)),
            ("exp", serde_json::Value::from(T0 + 600)),
        ]),
        "s3cret",
    );
    assert_eq!(verify_token_at(&no_iat, &config, T0), rejected());
    let no_exp = signed_json(
        object(vec![
            ("sub", serde_json::Value::from("alice@example.org")),
            ("user_id", serde_json::Value::from(42)),
            ("iat", serde_json::Value::from(T0)),
        ]),
        "s3cret",
    );
    assert_eq!(verify_token_at(&no_exp, &config, T0), rejected());
    let wrong_type = signed_json(
        object(vec![
            ("sub", serde_json::Value::from(7)),
            ("user_id", serde_json::Value::from(42)),
            ("iat", serde_json::Value::from(T0)),
            ("exp", serde_json::Value::from(T0 + 600)),
        ]),
        "s3cret",
    );
    assert_eq!(verify_token_at(&wrong_type, &config, T0), rejected());
}

#[test]
fn token_with_extra_claims_is_accepted() {
    let config = config_with("s3cret", 600);
    let token = signed_json(
        object(vec![
            ("sub", serde_json::Value::from("bob@example.org")),
            ("user_id", serde_json::Value::from(-3)),
            ("iat", serde_json::Value::from(5)),
            ("exp", serde_json::Value::from(T0 + 600)),
            ("role", serde_json::Value::from("keeper")),
        ]),
        "s3cret",
    );
    let claims = verify_token_at(&token, &config, T0).unwrap();
    assert_eq!(
        claims,
        TokenClaims {
            sub: "bob@example.org".to_string(),
            user_id: -3,
            iat: 5,
            exp: (T0 + 600) as u64,
        }
    );
}

#[test]
fn token_signed_with_another_algorithm_is_rejected() {
    let config = config_with("s3cret", 600);
    let body = object(vec![
        ("sub", serde_json::Value::from("alice@example.org")),
        ("user_id", serde_json::Value::from(42)),
        ("iat", serde_json::Value::from(T0)),
        ("exp", serde_json::Value::from(T0 + 600)),
    ]);
    let token = jsonwebtoken::encode(
        &jsonwebtoken::Header::new(jsonwebtoken::Algorithm::HS512),
        &body,
        &jsonwebtoken::EncodingKey::from_secret("s3cret".as_bytes()),
    )
    .unwrap();
    assert_eq!(verify_token_at(&token, &config, T0), rejected());
}

#[test]
fn user_id_out_of_range_is_rejected() {
    let config = config_with("s3cret", 600);
    let token = signed_json(
        object(vec![
            ("sub", serde_json::Value::from("alice@example.org")),
            ("user_id", serde_json::Value::from(2_147_483_648i64)),
            ("iat", serde_json::Value::from(T0)),
            ("exp", serde_json::Value::from(T0 + 600)),
        ]),
        "s3cret",
    );
    assert_eq!(verify_token_at(&token, &config, T0), rejected());
}

#[test]
fn user_without_email_gets_an_empty_subject() {
    let config = config_with("s3cret", 600);
    let mut user = alice();
    user.mail = None;
    let token = generate_jwt_token_at(&user, &config, T0).unwrap();
    let claims = verify_token_at(&token, &config, T0).unwrap();
    assert_eq!(claims.sub, "");
    assert_eq!(claims.user_id, 42);
}

#[test]
fn subject_with_unusual_characters_comes_back_unchanged() {
    let config = config_with("s3cret", 600);
    let mut user = alice();
    user.mail = Some("a\"b\\c\u{0}\u{e9}\u{1F41D}\n@example.org".to_string());
    user.id = i32::MIN;
    let token = generate_jwt_token_at(&user, &config, 0).unwrap();
    let claims = verify_token_at(&token, &config, 0).unwrap();
    assert_eq!(claims.sub, "a\"b\\c\u{0}\u{e9}\u{1F41D}\n@example.org");
    assert_eq!(claims.user_id, i32::MIN);
    assert_eq!(claims.iat, 0);
    assert_eq!(claims.exp, 600);
}

#[test]
fn issue_fails_before_the_epoch_and_past_the_end_of_time() {
    let config = config_with("s3cret", 600);
    assert_eq!(generate_jwt_token_at(&alice(), &config, -1), Err(AuthError::ConfigurationError));
    assert_eq!(
        generate_jwt_token_at(&alice(), &config, i64::MAX - 599),
        Err(AuthError::ConfigurationError)
    );
    let token = generate_jwt_token_at(&alice(), &config, i64::MAX - 600).unwrap();
    assert!(verify_token_at(&token, &config, i64::MAX - 1).is_ok());
    assert_eq!(verify_token_at(&token, &config, i64::MAX), rejected());
}

#[test]
fn claims_for_adds_the_window_to_the_issue_time() {
    let claims = claims_for(&alice(), 1_000, 259_200).unwrap();
    assert_eq!(claims.iat, 1_000);
    assert_eq!(claims.exp, 260_200);
    assert_eq!(claims.user_id, 42);
    assert_eq!(claims.sub, "alice@example.org");
    assert_eq!(claims_for(&alice(), 1_000, 0), None);
    assert_eq!(claims_for(&alice(), 1_000, -5), None);
    assert_eq!(claims_for(&alice(), -1, 10), None);
    assert_eq!(claims_for(&alice(), i64::MAX, 1), None);
}

#[test]
fn claims_of_wants_every_claim() {
    let full = RawClaims {
        sub: Some("a@b.c".to_string()),
        user_id: Some(9),
        iat: Some(1),
        exp: Some(2),
    };
    assert_eq!(
        claims_of(full),
        Some(TokenClaims { sub: "a@b.c".to_string(), user_id: 9, iat: 1, exp: 2 })
    );
    let no_sub = RawClaims { sub: None, user_id: Some(9), iat: Some(1), exp: Some(2) };
    assert_eq!(claims_of(no_sub), None);
    let no_id = RawClaims { sub: Some("a".to_string()), user_id: None, iat: Some(1), exp: Some(2) };
    assert_eq!(claims_of(no_id), None);
    let no_iat = RawClaims { sub: Some("a".to_string()), user_id: Some(9), iat: None, exp: Some(2) };
    assert_eq!(claims_of(no_iat), None);
    let no_exp = RawClaims { sub: Some("a".to_string()), user_id: Some(9), iat: Some(1), exp: None };
    assert_eq!(claims_of(no_exp), None);
    let low = RawClaims {
        sub: Some("a".to_string()),
        user_id: Some(-2_147_483_649),
        iat: Some(1),
        exp: Some(2),
    };
    assert_eq!(claims_of(low), None);
    let edge = RawClaims {
        sub: Some("a".to_string()),
        user_id: Some(-2_147_483_648),
        iat: Some(1),
        exp: Some(2),
    };
    assert_eq!(claims_of(edge).unwrap().user_id, i32::MIN);
}

#[test]
fn judge_claims_compares_the_expiry_with_the_given_instant() {
    let raw = |exp: u64| RawClaims {
        sub: Some("a@b.c".to_string()),
        user_id: Some(9),
        iat: Some(1),
        exp: Some(exp),
    };
    assert!(judge_claims(Ok(raw(100)), 99).is_ok());
    assert_eq!(judge_claims(Ok(raw(100)), 100), rejected());
    assert_eq!(judge_claims(Ok(raw(100)), 101), rejected());
    assert!(judge_claims(Ok(raw(0)), -1).is_ok());
    assert_eq!(judge_claims(Ok(raw(0)), 0), rejected());
    assert!(judge_claims(Ok(raw(u64::MAX)), i64::MAX).is_ok());
    let failure = jsonwebtoken::errors::Error::from(jsonwebtoken::errors::ErrorKind::InvalidToken);
    assert_eq!(judge_claims(Err(failure), 0), rejected());
}

#[test]
fn finish_issue_maps_the_signer_failure_to_a_configuration_error() {
    assert_eq!(finish_issue(Ok("tok".to_string())), Ok("tok".to_string()));
    let failure =
        jsonwebtoken::errors::Error::from(jsonwebtoken::errors::ErrorKind::InvalidAlgorithm);
    assert_eq!(finish_issue(Err(failure)), Err(AuthError::ConfigurationError));
}

#[test]
fn token_issued_now_verifies_now() {
    let config = config_with("s3cret", DEFAULT_VALIDITY_WINDOW);
    let token = generate_jwt_token(&alice(), &config).unwrap();
    let claims = verify_token(&token, &config).unwrap();
    assert_eq!(claims.user_id, 42);
    assert_eq!(claims.exp - claims.iat, DEFAULT_VALIDITY_WINDOW as u64);
    let now = chrono::Utc::now().timestamp() as u64;
    assert!(claims.iat <= now && now <= claims.iat + 5);
}

#[test]
fn token_is_readable_by_the_decoder_called_directly() {
    let config = config_with("s3cret", 600);
    let token = generate_jwt_token_at(&alice(), &config, T0).unwrap();
    let mut rules = jsonwebtoken::Validation::new(jsonwebtoken::Algorithm::HS256);
    rules.validate_exp = false;
    let data = jsonwebtoken::decode::<serde_json::Value>(
        &token,
        &jsonwebtoken::DecodingKey::from_secret("s3cret".as_bytes()),
        &rules,
    )
    .unwrap();
    assert_eq!(data.claims["sub"], serde_json::Value::from("alice@example.org"));
    assert_eq!(data.claims["user_id"], serde_json::Value::from(42));
    assert_eq!(data.claims["iat"], serde_json::Value::from(T0));
    assert_eq!(data.claims["exp"], serde_json::Value::from(T0 + 600));
    assert_eq!(data.header.alg, jsonwebtoken::Algorithm::HS256);
}

#[test]
fn issuing_at_the_current_time_always_gives_a_token() {
    for window in [1, 600, DEFAULT_VALIDITY_WINDOW, 1 << 48] {
        let config = config_with("s", window);
        let mut user = alice();
        user.mail = None;
        let token = generate_jwt_token(&user, &config).unwrap();
        let claims = verify_token(&token, &config).unwrap();
        assert_eq!(claims.exp - claims.iat, window as u64);
        assert_eq!(claims.user_id, 42);
        assert_eq!(claims.sub, "");
    }
}
