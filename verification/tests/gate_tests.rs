use apiary_auth::config::{AuthConfig, HashCost};
use apiary_auth::error::{AuthError, GateRejection};
use apiary_auth::middleware::auth::{bearer_token, is_space, Auth, AuthMiddleware, TokenClaims};
use apiary_auth::models::utilisateur_models::Utilisateur;
use apiary_auth::services::session_service::{
    cleanup_expired_sessions_at, create_user_session_at, invalidate_session,
    invalidate_user_sessions, SessionStore,
};
use apiary_auth::token::generate_jwt_token_at;

const T0: i64 = 1_700_000_000;
const WINDOW: i64 = 600;

fn config() -> AuthConfig {
    let cost = HashCost { memory_kib: 64, iterations: 1, lanes: 1 };
    AuthConfig::new("s3cret".to_string(), WINDOW, cost).unwrap()
}

fn gate(check_sessions: bool) -> AuthMiddleware<&'static str> {
    Auth::new(config().with_session_check(check_sessions)).new_transform("handlers")
}

fn user(id: i32, mail: &str) -> Utilisateur {
    Utilisateur {
        id,
        nom_apiculteur: None,
        prenom_apiculteur: None,
        mail: Some(mail.to_string()),
        telephone: None,
        mot_de_passe: None,
        numero_apiculteur: None,
        date_naissance: None,
    }
}

fn turned_away(reason: GateRejection) -> Result<TokenClaims, AuthError> {
    Err(AuthError::AuthorizationFailure(reason))
}

fn login(store: &mut SessionStore, id: i32, mail: &str, now: i64) -> String {
    let token = generate_jwt_token_at(&user(id, mail), &config(), now).unwrap();
    create_user_session_at(store, &config(), id, token.clone(), None, None, now).unwrap();
    token
}

#[test]
fn bearer_token_reads_what_follows_the_prefix() {
    assert_eq!(bearer_token("Bearer abc.def.ghi"), Some("abc.def.ghi"));
    assert_eq!(bearer_token("Bearer   abc  "), Some("abc"));
    assert_eq!(bearer_token("Bearer \tabc\r\n"), Some("abc"));
    assert_eq!(bearer_token("Bearer a b"), Some("a b"));
    assert_eq!(bearer_token("Bearer "), Some(""));
    assert_eq!(bearer_token("Bearer    "), Some(""));
    assert_eq!(bearer_token("Bearer \u{3000}abc\u{a0}\u{2003}"), Some("abc"));
    assert_eq!(bearer_token("Bearer \u{e9}t\u{e9}"), Some("\u{e9}t\u{e9}"));
}

#[test]
fn bearer_token_refuses_other_formats() {
    assert_eq!(bearer_token(""), None);
    assert_eq!(bearer_token("Bearer"), None);
    assert_eq!(bearer_token("bearer abc"), None);
    assert_eq!(bearer_token("BEARER abc"), None);
    assert_eq!(bearer_token("Basic abc"), None);
    assert_eq!(bearer_token(" Bearer abc"), None);
    assert_eq!(bearer_token("Bearer\tabc"), None);
    assert_eq!(bearer_token("Bearerabc"), None);
    assert_eq!(bearer_token("Beare"), None);
}

#[test]
fn bearer_token_agrees_with_prefix_strip_and_trim() {
    for header in [
        "Bearer abc",
        "Bearer  abc ",
        "Bearer \u{85}x\u{1680}",
        "Bearer \u{2028}\u{2029}y\u{202f}\u{205f}",
        "Bearer \u{200b}z",
        "Bearer \u{feff}z",
        "Bearer \u{1c}q\u{1f}",
        "Token abc",
    ] {
        let expected = header.strip_prefix("Bearer ").map(|rest| rest.trim());
        assert_eq!(bearer_token(header), expected);
    }
}

#[test]
fn is_space_agrees_with_the_standard_library() {
    let mut code: u32 = 0;
    while code <= 0x3100 {
        if let Some(c) = char::from_u32(code) {
            assert_eq!(is_space(c), c.is_whitespace());
        }
        code += 1;
    }
    assert!(!is_space('\u{feff}'));
    assert!(!is_space('\u{10ffff}'));
}

#[test]
fn request_without_header_is_turned_away() {
    let store = SessionStore::new();
    assert_eq!(gate(true).call_at(None, &store, T0), turned_away(GateRejection::MissingHeader));
    assert_eq!(gate(false).call_at(None, &store, T0), turned_away(GateRejection::MissingHeader));
}

#[test]
fn request_with_another_scheme_is_turned_away() {
    let mut store = SessionStore::new();
    let token = login(&mut store, 7, "a@b.c", T0);
    let header = format!("Basic {}", token);
    assert_eq!(
        gate(true).call_at(Some(&header), &store, T0),
        turned_away(GateRejection::MalformedHeader)
    );
    assert_eq!(
        gate(true).call_at(Some(&token), &store, T0),
        turned_away(GateRejection::MalformedHeader)
    );
    assert_eq!(
        gate(true).call_at(Some(""), &store, T0),
        turned_away(GateRejection::MalformedHeader)
    );
}

#[test]
fn request_with_a_bad_token_is_turned_away() {
    let store = SessionStore::new();
    assert_eq!(
        gate(true).call_at(Some("Bearer not.a.token"), &store, T0),
        turned_away(GateRejection::InvalidToken)
    );
    assert_eq!(
        gate(true).call_at(Some("Bearer "), &store, T0),
        turned_away(GateRejection::InvalidToken)
    );
}

#[test]
fn request_with_token_and_active_session_is_admitted() {
    let mut store = SessionStore::new();
    let token = login(&mut store, 7, "a@b.c", T0);
    let header = format!("Bearer {}", token);
    let claims = gate(true).call_at(Some(&header), &store, T0 + 1).unwrap();
    assert_eq!(
        claims,
        TokenClaims {
            sub: "a@b.c".to_string(),
            user_id: 7,
            iat: T0 as u64,
            exp: (T0 + WINDOW) as u64,
        }
    );
    let padded = format!("Bearer   {}  ", token);
    assert_eq!(gate(true).call_at(Some(&padded), &store, T0 + 1), Ok(claims));
}

#[test]
fn token_without_a_session_is_turned_away_by_the_full_gate() {
    let store = SessionStore::new();
    let token = generate_jwt_token_at(&user(7, "a@b.c"), &config(), T0).unwrap();
    let header = format!("Bearer {}", token);
    assert_eq!(
        gate(true).call_at(Some(&header), &store, T0),
        turned_away(GateRejection::InactiveSession)
    );
    assert!(gate(false).call_at(Some(&header), &store, T0).is_ok());
}

#[test]
fn expired_token_is_turned_away() {
    let mut store = SessionStore::new();
    let token = login(&mut store, 7, "a@b.c", T0);
    let header = format!("Bearer {}", token);
    assert!(gate(true).call_at(Some(&header), &store, T0 + WINDOW - 1).is_ok());
    assert_eq!(
        gate(true).call_at(Some(&header), &store, T0 + WINDOW),
        turned_away(GateRejection::InvalidToken)
    );
    assert_eq!(
        gate(false).call_at(Some(&header), &store, T0 + WINDOW),
        turned_away(GateRejection::InvalidToken)
    );
}

#[test]
fn invalidated_session_closes_the_full_gate_at_once() {
    let mut store = SessionStore::new();
    let token = login(&mut store, 7, "a@b.c", T0);
    let header = format!("Bearer {}", token);
    assert!(gate(true).call_at(Some(&header), &store, T0 + 1).is_ok());
    invalidate_session(&mut store, 1).unwrap();
    assert_eq!(
        gate(true).call_at(Some(&header), &store, T0 + 1),
        turned_away(GateRejection::InactiveSession)
    );
}

#[test]
fn invalidate_all_rejects_earlier_tokens_and_spares_later_sessions() {
    let mut store = SessionStore::new();
    let first = format!("Bearer {}", login(&mut store, 7, "a@b.c", T0));
    let second = format!("Bearer {}", login(&mut store, 7, "a@b.c", T0 + 1));
    let other = format!("Bearer {}", login(&mut store, 8, "x@y.z", T0 + 1));
    assert_eq!(invalidate_user_sessions(&mut store, 7), Ok(2));
    let later = format!("Bearer {}", login(&mut store, 7, "a@b.c", T0 + 3));
    let full = gate(true);
    assert_eq!(
        full.call_at(Some(&first), &store, T0 + 3),
        turned_away(GateRejection::InactiveSession)
    );
    assert_eq!(
        full.call_at(Some(&second), &store, T0 + 3),
        turned_away(GateRejection::InactiveSession)
    );
    assert_eq!(full.call_at(Some(&other), &store, T0 + 3).unwrap().user_id, 8);
    assert_eq!(full.call_at(Some(&later), &store, T0 + 3).unwrap().user_id, 7);
    assert_eq!(full.call_at(Some(&later), &store, T0 + WINDOW + 2).unwrap().user_id, 7);
}

#[test]
fn gate_without_session_check_honours_a_revoked_token_until_it_expires() {
    let mut store = SessionStore::new();
    let header = format!("Bearer {}", login(&mut store, 7, "a@b.c", T0));
    invalidate_user_sessions(&mut store, 7).unwrap();
    let relaxed = gate(false);
    assert!(relaxed.call_at(Some(&header), &store, T0 + 1).is_ok());
    assert!(relaxed.call_at(Some(&header), &store, T0 + WINDOW - 1).is_ok());
    assert_eq!(
        relaxed.call_at(Some(&header), &store, T0 + WINDOW),
        turned_away(GateRejection::InvalidToken)
    );
}

#[test]
fn gate_does_not_depend_on_the_sweep() {
    let mut store = SessionStore::new();
    let header = format!("Bearer {}", login(&mut store, 7, "a@b.c", T0));
    let full = gate(true);
    let before = full.call_at(Some(&header), &store, T0 + 5);
    cleanup_expired_sessions_at(&mut store, T0 + 5).unwrap();
    assert_eq!(full.call_at(Some(&header), &store, T0 + 5), before);
    assert!(before.is_ok());
}

#[test]
fn gate_reads_the_clock_when_no_instant_is_given() {
    let mut store = SessionStore::new();
    let now = chrono::Utc::now().timestamp();
    let fresh = format!("Bearer {}", login(&mut store, 7, "a@b.c", now));
    let stale = format!("Bearer {}", login(&mut store, 7, "a@b.c", now - WINDOW - 10));
    let full = gate(true);
    assert_eq!(full.call(Some(&fresh), &store).unwrap().user_id, 7);
    assert_eq!(full.call(Some(&stale), &store), turned_away(GateRejection::InvalidToken));
    assert_eq!(full.call(None, &store), turned_away(GateRejection::MissingHeader));
}

#[test]
fn gate_keeps_the_service_it_wraps() {
    assert_eq!(*gate(true).service(), "handlers");
}

#[test]
fn every_rejection_is_answered_with_the_same_status_and_message() {
    let mut store = SessionStore::new();
    let token = login(&mut store, 7, "a@b.c", T0);
    let orphan = generate_jwt_token_at(&user(9, "x@y.z"), &config(), T0).unwrap();
    let full = gate(true);
    let rejections = [
        full.call_at(None, &store, T0),
        full.call_at(Some("Basic abc"), &store, T0),
        full.call_at(Some("Bearer bad"), &store, T0),
        full.call_at(Some(&format!("Bearer {}", token)), &store, T0 + WINDOW),
        full.call_at(Some(&format!("Bearer {}", orphan)), &store, T0),
    ];
    let mut reasons = Vec::new();
    for rejection in rejections {
        let e = rejection.unwrap_err();
        assert_eq!(e.status_code(), 401);
        assert_eq!(e.message(), "unauthorized");
        reasons.push(e);
    }
    assert_ne!(reasons[0], reasons[1]);
    assert_ne!(reasons[1], reasons[2]);
    assert_ne!(reasons[3], reasons[4]);
}
