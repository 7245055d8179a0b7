//! The auth gate: it reads the bearer token out of the `Authorization`
//! header, verifies it, asks the session store whether the session behind
//! it is still active, and hands the claims to the handlers.

use vstd::prelude::*;
use crate::clock::{current_timestamp, on_the_clock};
use crate::config::AuthConfig;
use crate::error::{AuthError, GateRejection, STATUS_UNAUTHORIZED};
use crate::models::session_models::SessionView;
use crate::models::utilisateur_models::ClaimsView;
pub use crate::models::utilisateur_models::TokenClaims;
use crate::services::session_service::{
    is_session_valid_at,
    lemma_invalidation_revokes,
    lemma_new_session_is_active,
    spec_invalidate_user_sessions,
    spec_is_session_valid,
    spec_user_session,
    SessionStore,
};
use crate::token::{spec_verify_token, verify_token_at};

verus! {

/// The number of characters in `Bearer `.
pub const BEARER_PREFIX_LEN: usize = 7;

/// The characters of `Bearer `.
pub open spec fn bearer_prefix() -> Seq<char> {
    seq!['B', 'e', 'a', 'r', 'e', 'r', ' ']
}

/// White space, as Unicode's `White_Space` property has it.
pub open spec fn spec_is_space(c: char) -> bool {
    ||| '\u{9}' <= c <= '\u{D}'
    ||| c == ' '
    ||| c == '\u{85}'
    ||| c == '\u{A0}'
    ||| c == '\u{1680}'
    ||| '\u{2000}' <= c <= '\u{200A}'
    ||| c == '\u{2028}'
    ||| c == '\u{2029}'
    ||| c == '\u{202F}'
    ||| c == '\u{205F}'
    ||| c == '\u{3000}'
}

/// `s` without its leading white space.
pub open spec fn spec_trim_start(s: Seq<char>) -> Seq<char>
    decreases s.len(),
{
    if s.len() > 0 && spec_is_space(s.first()) {
        spec_trim_start(s.drop_first())
    } else {
        s
    }
}

/// `s` without its trailing white space.
pub open spec fn spec_trim_end(s: Seq<char>) -> Seq<char>
    decreases s.len(),
{
    if s.len() > 0 && spec_is_space(s.last()) {
        spec_trim_end(s.drop_last())
    } else {
        s
    }
}

/// `s` without the white space at either end.
pub open spec fn spec_trim(s: Seq<char>) -> Seq<char> {
    spec_trim_end(spec_trim_start(s))
}

/// The token that a header value carries: what follows `Bearer `, without
/// the white space around it. `None` where the value does not start with
/// `Bearer `.
pub open spec fn spec_bearer_token(header: Seq<char>) -> Option<Seq<char>> {
    if header.len() >= BEARER_PREFIX_LEN && header.take(BEARER_PREFIX_LEN as int)
        == bearer_prefix() {
        Some(spec_trim(header.skip(BEARER_PREFIX_LEN as int)))
    } else {
        None
    }
}

/// Whether `c` is white space.
#[verifier::when_used_as_spec(spec_is_space)]
pub fn is_space(c: char) -> (yes: bool)
    ensures
        yes == spec_is_space(c),
{
    ('\u{9}' <= c && c <= '\u{D}') || c == ' ' || c == '\u{85}' || c == '\u{A0}' || c
        == '\u{1680}' || ('\u{2000}' <= c && c <= '\u{200A}') || c == '\u{2028}' || c
        == '\u{2029}' || c == '\u{202F}' || c == '\u{205F}' || c == '\u{3000}'
}

/// Whether the header value starts with `Bearer `.
fn has_bearer_prefix(header: &str, len: usize) -> (yes: bool)
    requires
        len == header@.len(),
    ensures
        yes == (header@.len() >= BEARER_PREFIX_LEN && header@.take(BEARER_PREFIX_LEN as int)
            == bearer_prefix()),
{
    if len < BEARER_PREFIX_LEN {
        return false;
    }
    let yes = header.get_char(0) == 'B' && header.get_char(1) == 'e' && header.get_char(2) == 'a'
        && header.get_char(3) == 'r' && header.get_char(4) == 'e' && header.get_char(5) == 'r'
        && header.get_char(6) == ' ';
    proof {
        let head = header@.take(BEARER_PREFIX_LEN as int);
        if yes {
            assert(head =~= bearer_prefix());
        } else {
            assert(head[0] == header@[0] && head[1] == header@[1] && head[2] == header@[2]
                && head[3] == header@[3] && head[4] == header@[4] && head[5] == header@[5]
                && head[6] == header@[6]);
        }
    }
    yes
}

/// Reads the token out of a header value.
pub fn bearer_token(header: &str) -> (res: Option<&str>)
    ensures
        res is Some <==> spec_bearer_token(header@) is Some,
        res matches Some(t) ==> Some(t@) == spec_bearer_token(header@),
{
    let len = header.unicode_len();
    if !has_bearer_prefix(header, len) {
        return None;
    }
    let ghost all = header@;
    let mut start: usize = BEARER_PREFIX_LEN;
    while start < len && is_space(header.get_char(start))
        invariant
            BEARER_PREFIX_LEN <= start <= len,
            len == header@.len(),
            all == header@,
            spec_trim_start(all.skip(BEARER_PREFIX_LEN as int)) == spec_trim_start(
                all.skip(start as int),
            ),
        decreases len - start,
    {
        assert(all.skip(start as int).drop_first() =~= all.skip(start + 1));
        start = start + 1;
    }
    assert(spec_trim_start(all.skip(start as int)) == all.skip(start as int));
    let mut end: usize = len;
    while end > start && is_space(header.get_char(end - 1))
        invariant
            start <= end <= len,
            len == header@.len(),
            all == header@,
            spec_trim_end(all.skip(start as int)) == spec_trim_end(
                all.subrange(start as int, end as int),
            ),
        decreases end - start,
    {
        assert(all.subrange(start as int, end as int).drop_last() =~= all.subrange(
            start as int,
            end - 1,
        ));
        end = end - 1;
    }
    assert(all.skip(start as int) =~= all.subrange(start as int, len as int));
    assert(spec_trim_end(all.subrange(start as int, end as int)) == all.subrange(
        start as int,
        end as int,
    ));
    Some(header.substring_char(start, end))
}

/// What the auth gate decides for a request: the claims that it hands on,
/// or the check that turned the request away.
///
/// The header must be present and carry a bearer token; the token must
/// verify at `now`; and, with the session check on, a session that carries
/// the token must be active at `now`.
pub open spec fn spec_gate(
    header: Option<Seq<char>>,
    secret: Seq<char>,
    check_sessions: bool,
    rows: Seq<SessionView>,
    now: i64,
) -> Result<ClaimsView, GateRejection> {
    match header {
        None => Err(GateRejection::MissingHeader),
        Some(value) => match spec_bearer_token(value) {
            None => Err(GateRejection::MalformedHeader),
            Some(token) => match spec_verify_token(token, secret, now) {
                None => Err(GateRejection::InvalidToken),
                Some(claims) => if check_sessions && !spec_is_session_valid(rows, token, now) {
                    Err(GateRejection::InactiveSession)
                } else {
                    Ok(claims)
                },
            },
        },
    }
}

/// Holding a token is never enough for the auth gate with its session
/// check on: whatever it admits carries a token that verifies at `now` and
/// has an active session at `now`.
pub proof fn lemma_gate_admits_only_token_with_session(
    header: Option<Seq<char>>,
    secret: Seq<char>,
    rows: Seq<SessionView>,
    now: i64,
)
    requires
        spec_gate(header, secret, true, rows, now) is Ok,
    ensures
        header is Some,
        spec_bearer_token(header->Some_0) is Some,
        spec_verify_token(spec_bearer_token(header->Some_0)->Some_0, secret, now) == Some(
            spec_gate(header, secret, true, rows, now)->Ok_0,
        ),
        spec_is_session_valid(rows, spec_bearer_token(header->Some_0)->Some_0, now),
{
}

/// Once every session of a user is invalidated, the auth gate with its
/// session check on turns away each request whose token only that user's
/// sessions carry, at any instant.
pub proof fn lemma_gate_rejects_after_invalidation(
    header: Seq<char>,
    secret: Seq<char>,
    rows: Seq<SessionView>,
    user_id: i32,
    now: i64,
)
    requires
        spec_bearer_token(header) is Some,
        forall|i: int|
            0 <= i < rows.len() && (#[trigger] rows[i]).token == spec_bearer_token(header)
                ==> rows[i].id_utilisateur == Some(user_id),
    ensures
        spec_gate(
            Some(header),
            secret,
            true,
            spec_invalidate_user_sessions(rows, user_id),
            now,
        ) is Err,
{
    lemma_invalidation_revokes(rows, user_id, spec_bearer_token(header)->Some_0, now);
}

/// A session opened after the invalidation is not touched by it: while
/// the token verifies and the session has not reached its expiry, the auth
/// gate admits the request with the claims of the token.
pub proof fn lemma_gate_admits_session_opened_later(
    header: Seq<char>,
    secret: Seq<char>,
    rows: Seq<SessionView>,
    user_id: i32,
    id: i32,
    user_agent: Option<Seq<char>>,
    ip: Option<Seq<char>>,
    made: i64,
    window: i64,
    at: i64,
)
    requires
        spec_bearer_token(header) matches Some(token) && spec_user_session(
            user_id,
            token,
            user_agent,
            ip,
            made,
            window,
        ) is Some && spec_verify_token(token, secret, at) is Some,
        at < made + window,
    ensures
        ({
            let token = spec_bearer_token(header)->Some_0;
            let row = spec_user_session(user_id, token, user_agent, ip, made, window)->Some_0;
            spec_gate(
                Some(header),
                secret,
                true,
                spec_invalidate_user_sessions(rows, user_id).push(row.with_id(id)),
                at,
            ) == Ok::<ClaimsView, GateRejection>(spec_verify_token(token, secret, at)->Some_0)
        }),
{
    lemma_new_session_is_active(
        spec_invalidate_user_sessions(rows, user_id),
        id,
        user_id,
        spec_bearer_token(header)->Some_0,
        user_agent,
        ip,
        made,
        window,
        at,
    );
}

/// With the session check off, the auth gate does not look at the store: a
/// token of an invalidated session is honoured until the token expires.
pub proof fn lemma_gate_without_session_check(
    header: Option<Seq<char>>,
    secret: Seq<char>,
    rows: Seq<SessionView>,
    other_rows: Seq<SessionView>,
    now: i64,
)
    ensures
        spec_gate(header, secret, false, rows, now) == spec_gate(
            header,
            secret,
            false,
            other_rows,
            now,
        ),
{
}

/// The session check only ever turns requests away: what the auth gate admits
/// with the check on, it admits with the check off, with the same claims.
pub proof fn lemma_session_check_only_rejects(
    header: Option<Seq<char>>,
    secret: Seq<char>,
    rows: Seq<SessionView>,
    now: i64,
)
    ensures
        spec_gate(header, secret, true, rows, now) is Ok ==> spec_gate(
            header,
            secret,
            false,
            rows,
            now,
        ) == spec_gate(header, secret, true, rows, now),
{
}

/// The view of a header value.
pub open spec fn header_view(header: Option<&str>) -> Option<Seq<char>> {
    match header {
        Some(value) => Some(value@),
        None => None,
    }
}

/// The view of what the auth gate answered.
pub open spec fn gate_view(res: Result<TokenClaims, AuthError>) -> Result<
    ClaimsView,
    GateRejection,
> {
    match res {
        Ok(claims) => Ok(claims@),
        Err(AuthError::AuthorizationFailure(reason)) => Err(reason),
        Err(_) => Err(GateRejection::InvalidToken),
    }
}

/// The failure is one of the auth gate, and is answered as every such
/// failure is: with the status `401` and the one message for it.
pub open spec fn answered_as_unauthorized(e: AuthError) -> bool {
    &&& e is AuthorizationFailure
    &&& e.spec_status_code() == STATUS_UNAUTHORIZED
    &&& e.spec_message() == AuthError::AuthorizationFailure(
        GateRejection::InvalidToken,
    ).spec_message()
}

/// The factory of the auth gate: it holds the configuration and wraps a
/// service.
pub struct Auth {
    config: AuthConfig,
}

/// The auth gate around a service.
pub struct AuthMiddleware<S> {
    service: S,
    config: AuthConfig,
}

impl Auth {
    /// The configuration that this factory hands to what it makes.
    pub closed spec fn spec_config(self) -> AuthConfig {
        self.config
    }

    /// A factory over `config`.
    pub fn new(config: AuthConfig) -> (auth: Auth)
        ensures
            auth.spec_config() == config,
    {
        Auth { config }
    }

    /// Wraps `service` in an auth gate.
    pub fn new_transform<S>(&self, service: S) -> (gate: AuthMiddleware<S>)
        ensures
            gate.spec_service() == service,
            gate.spec_config().spec_secret() == self.spec_config().spec_secret(),
            gate.spec_config().spec_check_sessions() == self.spec_config().spec_check_sessions(),
            gate.spec_config().spec_validity_window()
                == self.spec_config().spec_validity_window(),
            gate.spec_config().spec_hash_cost() == self.spec_config().spec_hash_cost(),
    {
        AuthMiddleware { service, config: self.config.duplicate() }
    }
}

impl<S> AuthMiddleware<S> {
    /// The wrapped service.
    pub closed spec fn spec_service(self) -> S {
        self.service
    }

    /// The configuration of this gate.
    pub closed spec fn spec_config(self) -> AuthConfig {
        self.config
    }

    /// The wrapped service, to which an admitted request goes on.
    pub fn service(&self) -> (service: &S)
        ensures
            *service == self.spec_service(),
    {
        &self.service
    }

    /// Decides on a request at the instant `now`, from the value of its
    /// `Authorization` header and the session store.
    ///
    /// The answer is `spec_gate` of the arguments: the claims of the token,
    /// or `AuthorizationFailure` with the check that failed. The check is
    /// for the log: every rejection has the same status and message.
    pub fn call_at(&self, auth_header: Option<&str>, sessions: &SessionStore, now: i64) -> (res:
        Result<TokenClaims, AuthError>)
        ensures
            gate_view(res) == spec_gate(
                header_view(auth_header),
                self.spec_config().spec_secret(),
                self.spec_config().spec_check_sessions(),
                sessions@,
                now,
            ),
            res matches Err(e) ==> answered_as_unauthorized(e),
    {
        let value = match auth_header {
            None => {
                return Err(AuthError::AuthorizationFailure(GateRejection::MissingHeader));
            },
            Some(value) => value,
        };
        let token = match bearer_token(value) {
            None => {
                return Err(AuthError::AuthorizationFailure(GateRejection::MalformedHeader));
            },
            Some(token) => token,
        };
        let claims = match verify_token_at(token, &self.config, now) {
            Err(e) => {
                return Err(e);
            },
            Ok(claims) => claims,
        };
        if self.config.check_sessions() {
            match is_session_valid_at(sessions, token, now) {
                Ok(true) => {},
                _ => {
                    return Err(AuthError::AuthorizationFailure(GateRejection::InactiveSession));
                },
            }
        }
        Ok(claims)
    }

    /// Decides on a request at the current time.
    pub fn call(&self, auth_header: Option<&str>, sessions: &SessionStore) -> (res: Result<
        TokenClaims,
        AuthError,
    >)
        ensures
            exists|now: i64|
                on_the_clock(now) && gate_view(res) == #[trigger] spec_gate(
                    header_view(auth_header),
                    self.spec_config().spec_secret(),
                    self.spec_config().spec_check_sessions(),
                    sessions@,
                    now,
                ),
            res matches Err(e) ==> answered_as_unauthorized(e),
    {
        let now = current_timestamp();
        let res = self.call_at(auth_header, sessions, now);
        assert(gate_view(res) == spec_gate(
            header_view(auth_header),
            self.spec_config().spec_secret(),
            self.spec_config().spec_check_sessions(),
            sessions@,
            now,
        ));
        res
    }
}

} // verus!
