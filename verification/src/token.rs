//! The token issuer and verifier: HS256-signed bearer tokens that carry the
//! subject, the time of issue and the time of expiry.

use vstd::prelude::*;
use crate::clock::{current_timestamp, on_the_clock};
use crate::config::AuthConfig;
use crate::error::{AuthError, GateRejection};
use crate::models::utilisateur_models::{ClaimsView, TokenClaims, Utilisateur, UtilisateurView};
use crate::text::opt_text;

verus! {

/// The error type of `jsonwebtoken`.
#[verifier::external_type_specification]
#[verifier::external_body]
pub struct ExTokenError(jsonwebtoken::errors::Error);

/// The claims found in a token whose signature holds, each as far as it is
/// present with the expected JSON type.
#[derive(Debug, PartialEq, Eq)]
pub struct RawClaims {
    pub sub: Option<String>,
    pub user_id: Option<i64>,
    pub iat: Option<u64>,
    pub exp: Option<u64>,
}

/// The view of a `RawClaims`.
pub struct RawClaimsView {
    pub sub: Option<Seq<char>>,
    pub user_id: Option<i64>,
    pub iat: Option<u64>,
    pub exp: Option<u64>,
}

impl View for RawClaims {
    type V = RawClaimsView;

    open spec fn view(&self) -> RawClaimsView {
        RawClaimsView {
            sub: opt_text(self.sub),
            user_id: self.user_id,
            iat: self.iat,
            exp: self.exp,
        }
    }
}

/// The compact JWT that HS256 under `secret` gives for the four claims.
pub uninterp spec fn jwt_signed(
    sub: Seq<char>,
    user_id: i32,
    iat: u64,
    exp: u64,
    secret: Seq<char>,
) -> Seq<char>;

/// The claims of `token`, where it is a well-formed JWT with an `exp` claim
/// whose HS256 signature holds under `secret`; `None` otherwise. The clock
/// plays no part in it.
pub uninterp spec fn jwt_opened(token: Seq<char>, secret: Seq<char>) -> Option<RawClaimsView>;

/// What a decoder finds in a token that was made from `claims`.
pub open spec fn raw_of(claims: ClaimsView) -> RawClaimsView {
    RawClaimsView {
        sub: Some(claims.sub),
        user_id: Some(claims.user_id as i64),
        iat: Some(claims.iat),
        exp: Some(claims.exp),
    }
}

/// Signs `claims` under `secret`.
///
/// Calls `jsonwebtoken::encode` with the default header (HS256) and a key
/// made by `EncodingKey::from_secret`, on a JSON object that holds the four
/// claims under the names `sub`, `user_id`, `iat` and `exp`. The contract
/// names the result and adds what the crate's source shows: signing with
/// HS256 under a key made from a secret has no failing path, and `decode`
/// under the same secret verifies the signature it computes the same way
/// and reads the same claims back.
#[verifier::external_body]
fn jwt_encode(claims: &TokenClaims, secret: &str) -> (res: Result<
    String,
    jsonwebtoken::errors::Error,
>)
    ensures
        res is Ok,
        res matches Ok(t) ==> {
            &&& t@ == jwt_signed(claims.sub@, claims.user_id, claims.iat, claims.exp, secret@)
            &&& jwt_opened(t@, secret@) == Some(raw_of(claims@))
        },
{
    let mut body = serde_json::Map::new();
    body.insert("sub".to_string(), serde_json::Value::from(claims.sub.as_str()));
    body.insert("user_id".to_string(), serde_json::Value::from(claims.user_id));
    body.insert("iat".to_string(), serde_json::Value::from(claims.iat));
    body.insert("exp".to_string(), serde_json::Value::from(claims.exp));
    let key = jsonwebtoken::EncodingKey::from_secret(secret.as_bytes());
    jsonwebtoken::encode(&jsonwebtoken::Header::default(), &body, &key)
}

/// Checks the signature of `token` under `secret` and reads its claims.
///
/// Calls `jsonwebtoken::decode` with a key made by
/// `DecodingKey::from_secret` and the validation rules for HS256, with the
/// crate's own expiry check switched off: it reads the system clock and
/// allows a leeway, while this library compares `exp` with the instant it
/// is given.
#[verifier::external_body]
fn jwt_decode(token: &str, secret: &str) -> (res: Result<RawClaims, jsonwebtoken::errors::Error>)
    ensures
        res is Ok <==> jwt_opened(token@, secret@) is Some,
        res matches Ok(raw) ==> jwt_opened(token@, secret@) == Some(raw@),
{
    let mut rules = jsonwebtoken::Validation::new(jsonwebtoken::Algorithm::HS256);
    rules.validate_exp = false;
    let key = jsonwebtoken::DecodingKey::from_secret(secret.as_bytes());
    let claims = jsonwebtoken::decode::<serde_json::Value>(token, &key, &rules)?.claims;
    Ok(
        RawClaims {
            sub: claims["sub"].as_str().map(String::from),
            user_id: claims["user_id"].as_i64(),
            iat: claims["iat"].as_u64(),
            exp: claims["exp"].as_u64(),
        },
    )
}

/// The claims of a token issued to `user` at `now` for `window` seconds:
/// the subject is the user's email (empty where there is none), the expiry
/// is `now + window`. `None` where `now` lies before the epoch or the expiry
/// is not representable.
pub open spec fn spec_claims_for(user: UtilisateurView, now: i64, window: i64) -> Option<
    ClaimsView,
> {
    if 0 <= now && 0 < window && now + window <= i64::MAX {
        Some(
            ClaimsView {
                sub: match user.mail {
                    Some(m) => m,
                    None => Seq::empty(),
                },
                user_id: user.id,
                iat: now as u64,
                exp: (now + window) as u64,
            },
        )
    } else {
        None
    }
}

/// The complete claims in `raw`: all four present, the user id within
/// range.
pub open spec fn spec_claims_of(raw: RawClaimsView) -> Option<ClaimsView> {
    if raw.sub is Some && raw.iat is Some && raw.exp is Some && (raw.user_id matches Some(id)
        && i32::MIN <= id <= i32::MAX) {
        Some(
            ClaimsView {
                sub: raw.sub->Some_0,
                user_id: raw.user_id->Some_0 as i32,
                iat: raw.iat->Some_0,
                exp: raw.exp->Some_0,
            },
        )
    } else {
        None
    }
}

/// The claims that a decoder's answer yields at `now`: complete claims
/// whose expiry lies after `now`.
pub open spec fn spec_judge_claims(raw: Option<RawClaimsView>, now: i64) -> Option<ClaimsView> {
    match raw {
        Some(r) => match spec_claims_of(r) {
            Some(c) => if now < c.exp {
                Some(c)
            } else {
                None
            },
            None => None,
        },
        None => None,
    }
}

/// The claims under which `token` is accepted at `now`; `None` where it is
/// rejected.
pub open spec fn spec_verify_token(token: Seq<char>, secret: Seq<char>, now: i64) -> Option<
    ClaimsView,
> {
    spec_judge_claims(jwt_opened(token, secret), now)
}

/// The token issued to `user` at `now`; a configuration error where the
/// claims cannot be formed: `now` lies before the epoch, or the expiry is
/// not representable.
pub open spec fn spec_issue(user: UtilisateurView, secret: Seq<char>, now: i64, window: i64)
    -> Result<Seq<char>, AuthError> {
    match spec_claims_for(user, now, window) {
        Some(c) => Ok(jwt_signed(c.sub, c.user_id, c.iat, c.exp, secret)),
        None => Err(AuthError::ConfigurationError),
    }
}

/// The view of an issuing result.
pub open spec fn token_view(res: Result<String, AuthError>) -> Result<Seq<char>, AuthError> {
    match res {
        Ok(t) => Ok(t@),
        Err(e) => Err(e),
    }
}

/// The view of a verification result.
pub open spec fn verdict_view(res: Result<TokenClaims, AuthError>) -> Option<ClaimsView> {
    match res {
        Ok(c) => Some(c@),
        Err(_) => None,
    }
}

/// Forms the claims of a token issued to `user` at `now` for `window`
/// seconds.
pub fn claims_for(user: &Utilisateur, now: i64, window: i64) -> (res: Option<TokenClaims>)
    ensures
        res is Some <==> spec_claims_for(user@, now, window) is Some,
        res matches Some(c) ==> Some(c@) == spec_claims_for(user@, now, window),
{
    if now < 0 || window <= 0 {
        return None;
    }
    match now.checked_add(window) {
        None => None,
        Some(expiry) => {
            let sub = match &user.mail {
                Some(m) => m.clone(),
                None => String::new(),
            };
            Some(TokenClaims { sub, user_id: user.id, iat: now as u64, exp: expiry as u64 })
        },
    }
}

/// Picks the complete claims out of what a decoder found.
pub fn claims_of(raw: RawClaims) -> (res: Option<TokenClaims>)
    ensures
        res is Some <==> spec_claims_of(raw@) is Some,
        res matches Some(c) ==> Some(c@) == spec_claims_of(raw@),
{
    match (raw.sub, raw.user_id, raw.iat, raw.exp) {
        (Some(sub), Some(id), Some(iat), Some(exp)) => {
            if id < -2_147_483_648 || id > 2_147_483_647 {
                None
            } else {
                Some(TokenClaims { sub, user_id: id as i32, iat, exp })
            }
        },
        _ => None,
    }
}

/// The view of a decoder's answer.
pub open spec fn decoded_view(raw: Result<RawClaims, jsonwebtoken::errors::Error>) -> Option<
    RawClaimsView,
> {
    match raw {
        Ok(r) => Some(r@),
        Err(_) => None,
    }
}

/// Judges a decoder's answer at `now`.
///
/// The claims come back exactly when the decoder succeeded, the claims are
/// complete and the expiry lies after `now`. Everything else is the one
/// rejection `InvalidToken`.
pub fn judge_claims(raw: Result<RawClaims, jsonwebtoken::errors::Error>, now: i64) -> (res: Result<
    TokenClaims,
    AuthError,
>)
    ensures
        verdict_view(res) == spec_judge_claims(decoded_view(raw), now),
        res matches Err(e) ==> e == AuthError::AuthorizationFailure(GateRejection::InvalidToken),
{
    let rejected = Err(AuthError::AuthorizationFailure(GateRejection::InvalidToken));
    match raw {
        Err(_) => rejected,
        Ok(r) => match claims_of(r) {
            None => rejected,
            Some(c) => {
                if now < 0 || (now as u64) < c.exp {
                    Ok(c)
                } else {
                    rejected
                }
            },
        },
    }
}

/// Turns the signer's answer into the library's result.
pub fn finish_issue(raw: Result<String, jsonwebtoken::errors::Error>) -> (res: Result<
    String,
    AuthError,
>)
    ensures
        raw matches Ok(t) ==> res == Ok::<String, AuthError>(t),
        raw is Err ==> res == Err::<String, AuthError>(AuthError::ConfigurationError),
{
    match raw {
        Ok(t) => Ok(t),
        Err(_) => Err(AuthError::ConfigurationError),
    }
}

/// A token that carries `claims` is accepted, with those claims, at every
/// instant before its expiry, and rejected at every instant from its expiry
/// on.
pub proof fn lemma_token_accepted_until_expiry(
    token: Seq<char>,
    secret: Seq<char>,
    claims: ClaimsView,
    at: i64,
)
    requires
        jwt_opened(token, secret) == Some(raw_of(claims)),
    ensures
        at < claims.exp ==> spec_verify_token(token, secret, at) == Some(claims),
        at >= claims.exp ==> spec_verify_token(token, secret, at) is None,
{
    assert(spec_claims_of(raw_of(claims)) == Some(claims));
}

/// Verifies `token` at the instant `now`.
///
/// The token is accepted exactly when its signature holds under the
/// configured secret, its claims are complete and its expiry lies after
/// `now`; every other token is rejected with `InvalidToken`.
pub fn verify_token_at(token: &str, config: &AuthConfig, now: i64) -> (res: Result<
    TokenClaims,
    AuthError,
>)
    ensures
        verdict_view(res) == spec_verify_token(token@, config.spec_secret(), now),
        res matches Err(e) ==> e == AuthError::AuthorizationFailure(GateRejection::InvalidToken),
{
    judge_claims(jwt_decode(token, config.secret()), now)
}

/// Verifies `token` at the current time.
pub fn verify_token(token: &str, config: &AuthConfig) -> (res: Result<TokenClaims, AuthError>)
    ensures
        exists|now: i64|
            on_the_clock(now) && verdict_view(res) == #[trigger] spec_verify_token(
                token@,
                config.spec_secret(),
                now,
            ),
        res matches Err(e) ==> e == AuthError::AuthorizationFailure(GateRejection::InvalidToken),
{
    let now = current_timestamp();
    let res = verify_token_at(token, config, now);
    assert(verdict_view(res) == spec_verify_token(token@, config.spec_secret(), now));
    res
}

/// `token` is what issuing to `user` at `now` for `window` seconds gives:
/// the signer's output for the user's claims, accepted under `secret` with
/// those claims at every instant before `now + window` and rejected at
/// every instant from then on.
pub open spec fn issued_at(
    token: Seq<char>,
    user: UtilisateurView,
    secret: Seq<char>,
    now: i64,
    window: i64,
) -> bool {
    &&& spec_issue(user, secret, now, window) == Ok::<Seq<char>, AuthError>(token)
    &&& spec_claims_for(user, now, window) matches Some(claims)
    &&& forall|at: i64|
        at < now + window ==> #[trigger] spec_verify_token(token, secret, at) == Some(claims)
    &&& forall|at: i64| at >= now + window ==> #[trigger] spec_verify_token(token, secret, at) is None
}

/// Issues a token to `user` at the instant `now`.
///
/// The result is `spec_issue` of the arguments: a token, unless `now` lies
/// before the epoch or the expiry `now + window` is not representable. A
/// token that comes back is accepted under the same secret at every instant
/// before its expiry, with the claims it was made from, and rejected at
/// every instant from the expiry on.
pub fn generate_jwt_token_at(user: &Utilisateur, config: &AuthConfig, now: i64) -> (res: Result<
    String,
    AuthError,
>)
    ensures
        token_view(res) == spec_issue(
            user@,
            config.spec_secret(),
            now,
            config.spec_validity_window(),
        ),
        res is Ok <==> 0 <= now && now + config.spec_validity_window() <= i64::MAX,
        res matches Ok(t) ==> issued_at(
            t@,
            user@,
            config.spec_secret(),
            now,
            config.spec_validity_window(),
        ),
{
    match claims_for(user, now, config.validity_window()) {
        None => Err(AuthError::ConfigurationError),
        Some(claims) => {
            let res = finish_issue(jwt_encode(&claims, config.secret()));
            proof {
                let token = res->Ok_0@;
                let secret = config.spec_secret();
                let expiry = now + config.spec_validity_window();
                assert forall|at: i64| at < expiry implies #[trigger] spec_verify_token(
                    token,
                    secret,
                    at,
                ) == Some(claims@) by {
                    lemma_token_accepted_until_expiry(token, secret, claims@, at);
                }
                assert forall|at: i64| at >= expiry implies #[trigger] spec_verify_token(
                    token,
                    secret,
                    at,
                ) is None by {
                    lemma_token_accepted_until_expiry(token, secret, claims@, at);
                }
            }
            res
        },
    }
}

/// Issues a token to `user` at the current time.
///
/// A token always comes back. It is the one `spec_issue` gives for some
/// instant on the clock, and it is accepted under the same secret, with the
/// user's id and email as its claims, until one validity window after that
/// instant.
pub fn generate_jwt_token(user: &Utilisateur, config: &AuthConfig) -> (res: Result<
    String,
    AuthError,
>)
    ensures
        res is Ok,
        exists|now: i64|
            on_the_clock(now) && #[trigger] issued_at(
                res->Ok_0@,
                user@,
                config.spec_secret(),
                now,
                config.spec_validity_window(),
            ),
{
    let now = current_timestamp();
    let window = config.validity_window();
    assert(now + window <= i64::MAX);
    let res = generate_jwt_token_at(user, config, now);
    assert(issued_at(
        res->Ok_0@,
        user@,
        config.spec_secret(),
        now,
        config.spec_validity_window(),
    ));
    res
}

} // verus!
