use argon2::PasswordHasher;
use apiary_auth::config::{AuthConfig, HashCost};
use apiary_auth::error::AuthError;
use apiary_auth::password::{
    cost_of, hash_password, hash_password_with_salt, is_hashable, verify_password,
};

fn fast_config() -> AuthConfig {
    let cost = HashCost { memory_kib: 64, iterations: 1, lanes: 1 };
    AuthConfig::new("test-secret".to_string(), 259_200, cost).unwrap()
}

#[test]
fn hash_then_verify_accepts_the_same_password() {
    let config = fast_config();
    let hash = hash_password("Secret123", &config).unwrap();
    assert!(verify_password("Secret123", &hash));
}

#[test]
fn hash_of_another_password_is_rejected() {
    let config = fast_config();
    let hash = hash_password("Other456", &config).unwrap();
    assert!(!verify_password("Secret123", &hash));
}

#[test]
fn two_hashes_of_one_password_differ() {
    let config = fast_config();
    let first = hash_password("Secret123", &config).unwrap();
    let second = hash_password("Secret123", &config).unwrap();
    assert_ne!(first, second);
    assert!(verify_password("Secret123", &first));
    assert!(verify_password("Secret123", &second));
}

#[test]
fn empty_password_is_a_configuration_error() {
    let config = fast_config();
    assert_eq!(hash_password("", &config), Err(AuthError::ConfigurationError));
    assert_eq!(
        hash_password_with_salt("", "c29tZXNhbHRzb21lc2FsdA", &config),
        Err(AuthError::ConfigurationError)
    );
}

#[test]
fn hash_with_fixed_salt_is_the_argon2id_phc_string() {
    let config = fast_config();
    let hash = hash_password_with_salt("Secret123", "c29tZXNhbHRzb21lc2FsdA", &config).unwrap();
    assert!(hash.starts_with("$argon2id$v=19$m=64,t=1,p=1$c29tZXNhbHRzb21lc2FsdA$"));
    let again = hash_password_with_salt("Secret123", "c29tZXNhbHRzb21lc2FsdA", &config).unwrap();
    assert_eq!(hash, again);
    assert!(verify_password("Secret123", &hash));
    assert!(!verify_password("secret123", &hash));
}

#[test]
fn bad_salt_is_a_configuration_error() {
    let config = fast_config();
    assert_eq!(
        hash_password_with_salt("Secret123", "not a salt!", &config),
        Err(AuthError::ConfigurationError)
    );
}

#[test]
fn malformed_stored_hash_is_rejected_without_panic() {
    assert!(!verify_password("Secret123", ""));
    assert!(!verify_password("Secret123", "not-a-hash"));
    assert!(!verify_password("Secret123", "$argon2id$v=19$m=64,t=1,p=1$c29tZXNhbHQ"));
}

#[test]
fn stored_hash_with_a_cost_out_of_bounds_is_rejected() {
    let huge_lanes =
        "$argon2id$v=19$m=8,t=1,p=4294967295$c29tZXNhbHRzb21lc2FsdA$AAAAAAAAAAAAAAAAAAAAAAAAAAAAAAAAAAAAAAAAAAA";
    assert!(!verify_password("Secret123", huge_lanes));
    let huge_memory =
        "$argon2id$v=19$m=4294967295,t=1,p=1$c29tZXNhbHRzb21lc2FsdA$AAAAAAAAAAAAAAAAAAAAAAAAAAAAAAAAAAAAAAAAAAA";
    assert!(!verify_password("Secret123", huge_memory));
}

#[test]
fn recommended_cost_matches_the_hasher_default() {
    let cost = HashCost::recommended();
    let params = argon2::Params::default();
    assert_eq!(cost.memory_kib, params.m_cost());
    assert_eq!(cost.iterations, params.t_cost());
    assert_eq!(cost.lanes, params.p_cost());
    assert!(cost.is_valid());
}

#[test]
fn hash_agrees_with_the_hasher_called_directly() {
    let config = fast_config();
    let salt = argon2::password_hash::SaltString::from_b64("c29tZXNhbHRzb21lc2FsdA").unwrap();
    let params = argon2::Params::new(64, 1, 1, None).unwrap();
    let expected =
        argon2::Argon2::from(params).hash_password(b"Secret123", &salt).unwrap().to_string();
    let got = hash_password_with_salt("Secret123", "c29tZXNhbHRzb21lc2FsdA", &config).unwrap();
    assert_eq!(got, expected);
}

#[test]
fn hash_made_elsewhere_with_default_cost_is_accepted() {
    let salt = argon2::password_hash::SaltString::from_b64("c29tZXNhbHRzb21lc2FsdA").unwrap();
    let stored = argon2::Argon2::default().hash_password(b"Secret123", &salt).unwrap().to_string();
    assert!(verify_password("Secret123", &stored));
    assert!(!verify_password("Secret124", &stored));
}

const DIGEST: &str = "AAAAAAAAAAAAAAAAAAAAAAAAAAAAAAAAAAAAAAAAAAA";

fn phc(params: &str) -> String {
    format!("$argon2id$v=19${}$c29tZXNhbHRzb21lc2FsdA${}", params, DIGEST)
}

fn pair(name: &str, value: Option<u32>) -> (String, Option<u32>) {
    (name.to_string(), value)
}

#[test]
fn stored_hash_that_repeats_a_parameter_is_rejected_without_panic() {
    assert!(!verify_password("Secret123", &phc("m=8,t=1,p=1,p=536870912")));
    assert!(!verify_password("Secret123", &phc("m=8,t=1,p=1,m=4294967295")));
    assert!(!verify_password("Secret123", &phc("m=8,t=1,p=1,t=4294967295")));
    assert!(!verify_password("Secret123", &phc("p=536870912,m=8,t=1,p=1")));
    assert!(!verify_password("Secret123", &phc("m=8,m=8,t=1,p=1")));
}

#[test]
fn genuine_hash_with_a_repeated_parameter_appended_is_rejected() {
    let config = fast_config();
    let hash = hash_password_with_salt("Secret123", "c29tZXNhbHRzb21lc2FsdA", &config).unwrap();
    assert!(verify_password("Secret123", &hash));
    let repeated = hash.replace("m=64,t=1,p=1", "m=64,t=1,p=1,p=1");
    assert_ne!(repeated, hash);
    assert!(!verify_password("Secret123", &repeated));
}

#[test]
fn stored_hash_that_leaves_out_a_parameter_is_rejected() {
    assert!(!verify_password("Secret123", &phc("m=8,t=1")));
    assert!(!verify_password("Secret123", &phc("t=1,p=1")));
    assert!(!verify_password("Secret123", &phc("m=8,p=1")));
}

#[test]
fn cost_of_wants_each_parameter_exactly_once() {
    let cost = HashCost { memory_kib: 64, iterations: 3, lanes: 2 };
    assert_eq!(
        cost_of(&vec![pair("m", Some(64)), pair("t", Some(3)), pair("p", Some(2))]),
        Some(cost)
    );
    assert_eq!(
        cost_of(&vec![pair("p", Some(2)), pair("keyid", None), pair("t", Some(3)), pair("m", Some(64))]),
        Some(cost)
    );
    assert_eq!(cost_of(&vec![]), None);
    assert_eq!(cost_of(&vec![pair("m", Some(64)), pair("t", Some(3))]), None);
    assert_eq!(
        cost_of(&vec![pair("m", Some(64)), pair("t", Some(3)), pair("p", Some(2)), pair("p", Some(9))]),
        None
    );
    assert_eq!(
        cost_of(&vec![pair("m", Some(1)), pair("m", Some(64)), pair("t", Some(3)), pair("p", Some(2))]),
        None
    );
    assert_eq!(
        cost_of(&vec![pair("m", Some(64)), pair("t", None), pair("p", Some(2))]),
        None
    );
    assert_eq!(
        cost_of(&vec![pair("mm", Some(64)), pair("t", Some(3)), pair("p", Some(2))]),
        None
    );
    assert_eq!(
        cost_of(&vec![pair("M", Some(64)), pair("t", Some(3)), pair("p", Some(2))]),
        None
    );
}

#[test]
fn is_hashable_refuses_only_the_empty_password_here() {
    assert!(!is_hashable(""));
    assert!(is_hashable("a"));
    assert!(is_hashable(" "));
    assert!(is_hashable("\u{1F41D}"));
}

#[test]
fn every_non_empty_password_gets_a_hash() {
    let config = fast_config();
    for password in ["a", " ", "Secret123", "\u{e9}\u{1F41D}", "\0"] {
        let hash = hash_password(password, &config).unwrap();
        assert!(verify_password(password, &hash));
    }
}

#[test]
fn salt_of_fewer_than_eight_bytes_is_refused() {
    let config = fast_config();
    assert_eq!(
        hash_password_with_salt("Secret123", "c29tZQ", &config),
        Err(AuthError::ConfigurationError)
    );
    assert!(hash_password_with_salt("Secret123", "c29tZXNhbHQ", &config).is_ok());
}
