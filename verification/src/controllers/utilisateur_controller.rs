//! The user endpoints: registration, login and the profile.

use vstd::prelude::*;
use crate::clock::{current_timestamp, on_the_clock};
use crate::config::AuthConfig;
use crate::controllers::reply::{
    handle_db_result,
    handle_result,
    reply_view,
    spec_handle_result,
    Body,
    Reply,
};
use crate::error::{AuthError, StoreError, STATUS_CREATED, STATUS_OK, STATUS_UNAUTHORIZED};
use crate::models::session_models::SessionView;
use crate::models::utilisateur_models::{
    AuthResponse,
    AuthResponseView,
    LoginCredentials,
    NewUtilisateur,
    UpdateUtilisateur,
    Utilisateur,
    UtilisateurView,
};
use crate::password::password_matches;
use crate::services::session_service::{
    create_user_session_at,
    lemma_new_session_is_active,
    spec_is_session_valid,
    spec_user_session,
    SessionStore,
};
use crate::services::utilisateur_service;
use crate::services::utilisateur_service::{
    after_update,
    has_hashable_password,
    holds_mail,
    names_taken_mail,
    spec_authenticate,
    spec_credentials_match,
    spec_update,
    user_identified_by,
    user_views,
    UserStore,
};
use crate::table::first_match;
use crate::text::opt_text;
use crate::token::issued_at;

verus! {

/// The view of an answer that carries a user.
pub open spec fn user_reply_view(reply: Reply<Utilisateur>) -> Reply<UtilisateurView> {
    reply_view(reply, |user: Utilisateur| user@)
}

/// The view of a login answer.
pub open spec fn login_reply_view(reply: Reply<AuthResponse>) -> Reply<AuthResponseView> {
    reply_view(reply, |auth: AuthResponse| auth@)
}

/// Lists every user: `200` with the rows.
pub fn get_all_utilisateurs(store: &UserStore) -> (reply: Reply<Vec<Utilisateur>>)
    ensures
        reply.status == STATUS_OK,
        reply.body matches Body::Data(all) && user_views(all@) == store@,
{
    handle_db_result(utilisateur_service::get_all_utilisateurs(store), STATUS_OK)
}

/// Reads the user under `id`: `200` with the row, or a server error where
/// no row has that id.
pub fn get_utilisateur_by_id(store: &UserStore, id: i32) -> (reply: Reply<Utilisateur>)
    ensures
        match first_match(store@, user_identified_by(id)) {
            Some(row) => reply.status == STATUS_OK && (reply.body matches Body::Data(u) && u@
                == row),
            None => reply == Reply::<Utilisateur>::spec_failure(
                AuthError::PersistenceError(StoreError::NotFound),
            ),
        },
{
    handle_db_result(utilisateur_service::get_utilisateur_by_id(store, id), STATUS_OK)
}

/// Registers a user.
///
/// The checks come in this order. Without a password that the hasher takes:
/// a server error. With an email that is taken: `409`. Without an id left:
/// a server error. Every other registration is answered `201` with the new
/// row, which holds a hash in place of the password, and the table grows by
/// that row. A failure changes nothing.
pub fn create_utilisateur(
    store: &mut UserStore,
    config: &AuthConfig,
    new_utilisateur: NewUtilisateur,
) -> (reply: Reply<Utilisateur>)
    ensures
        !has_hashable_password(new_utilisateur@) ==> reply == Reply::<Utilisateur>::spec_failure(
            AuthError::ConfigurationError,
        ),
        has_hashable_password(new_utilisateur@) && names_taken_mail(old(store)@, new_utilisateur@)
            ==> reply == Reply::<Utilisateur>::spec_failure(AuthError::Conflict),
        has_hashable_password(new_utilisateur@) && !names_taken_mail(
            old(store)@,
            new_utilisateur@,
        ) && old(store).spec_next_id() == i32::MAX ==> reply == Reply::<Utilisateur>::spec_failure(
            AuthError::PersistenceError(StoreError::ConstraintViolation),
        ),
        has_hashable_password(new_utilisateur@) && !names_taken_mail(
            old(store)@,
            new_utilisateur@,
        ) && old(store).spec_next_id() < i32::MAX ==> reply.status == STATUS_CREATED
            && reply.body is Data,
        reply.body matches Body::Data(user) ==> {
            &&& reply.status == STATUS_CREATED
            &&& user@.mot_de_passe is Some
            &&& user@ == new_utilisateur@.with_password(user@.mot_de_passe->Some_0).with_id(
                old(store).spec_next_id(),
            )
            &&& password_matches(new_utilisateur@.mot_de_passe->Some_0, user@.mot_de_passe->Some_0)
            &&& final(store)@ == old(store)@.push(user@)
            &&& final(store).spec_next_id() == old(store).spec_next_id() + 1
        },
        reply.body is Failure ==> final(store)@ == old(store)@ && final(store).spec_next_id()
            == old(store).spec_next_id(),
        !(reply.body is Empty),
{
    handle_result(
        utilisateur_service::create_utilisateur(store, config, new_utilisateur),
        STATUS_CREATED,
    )
}

/// Replaces the profile under `id`: `200` with the new row; `409` where
/// another user holds the email; a server error where no row has that id.
pub fn update_utilisateur(store: &mut UserStore, id: i32, utilisateur: UpdateUtilisateur) -> (reply:
    Reply<Utilisateur>)
    ensures
        user_reply_view(reply) == spec_handle_result(
            spec_update(old(store)@, id, utilisateur@),
            STATUS_OK,
        ),
        final(store)@ == after_update(old(store)@, id, spec_update(old(store)@, id, utilisateur@)),
        final(store).spec_next_id() == old(store).spec_next_id(),
{
    handle_result(utilisateur_service::update_utilisateur(store, id, utilisateur), STATUS_OK)
}

/// What a login yields at `now`: the user with a fresh token, where the
/// credentials hold and the session can be opened.
///
/// Every failure of the credentials is the one `AuthenticationFailure`.
pub open spec fn spec_login(
    users: Seq<UtilisateurView>,
    next_session_id: i32,
    secret: Seq<char>,
    window: i64,
    email: Seq<char>,
    password: Seq<char>,
    now: i64,
) -> Result<AuthResponseView, AuthError> {
    match spec_authenticate(users, secret, window, email, password, now) {
        Err(e) => Err(e),
        Ok(None) => Err(AuthError::AuthenticationFailure),
        Ok(Some(auth)) => if next_session_id < i32::MAX {
            Ok(auth)
        } else {
            Err(AuthError::PersistenceError(StoreError::ConstraintViolation))
        },
    }
}

/// The sessions table after a login with the outcome `outcome`: on success
/// it holds one more row, the session opened for the user at `now`.
pub open spec fn sessions_after_login(
    sessions: Seq<SessionView>,
    next_session_id: i32,
    outcome: Result<AuthResponseView, AuthError>,
    user_agent: Option<Seq<char>>,
    ip: Option<Seq<char>>,
    now: i64,
    window: i64,
) -> Seq<SessionView> {
    match outcome {
        Ok(auth) => match spec_user_session(
            auth.user.id,
            auth.token,
            user_agent,
            ip,
            now,
            window,
        ) {
            Some(fields) => sessions.push(fields.with_id(next_session_id)),
            None => sessions,
        },
        Err(_) => sessions,
    }
}

/// What a login at `now` does: the answer, and the sessions table after it.
///
/// The answer is the one to `spec_login`: `200` with the user and the
/// token, or the failure under its status. On success the token is one
/// issued to the user at `now`, the table has grown by the session that
/// carries it, and that session is active until one window after `now`.
/// On failure the table is as it was.
pub open spec fn logged_in_at(
    reply: Reply<AuthResponseView>,
    before: Seq<SessionView>,
    next_id: i32,
    after: Seq<SessionView>,
    next_id_after: i32,
    users: Seq<UtilisateurView>,
    secret: Seq<char>,
    window: i64,
    email: Seq<char>,
    password: Seq<char>,
    user_agent: Option<Seq<char>>,
    ip: Option<Seq<char>>,
    now: i64,
) -> bool {
    let outcome = spec_login(users, next_id, secret, window, email, password, now);
    &&& reply == spec_handle_result(outcome, STATUS_OK)
    &&& after == sessions_after_login(before, next_id, outcome, user_agent, ip, now, window)
    &&& next_id_after == if outcome is Ok {
        next_id + 1
    } else {
        next_id as int
    }
    &&& outcome matches Ok(auth) ==> {
        &&& Some(auth.user) == first_match(users, holds_mail(email, None))
        &&& issued_at(auth.token, auth.user, secret, now, window)
        &&& forall|at: i64|
            at < now + window ==> #[trigger] spec_is_session_valid(after, auth.token, at)
    }
}

/// Logs a user in at the instant `now`: checks the credentials, issues a
/// token and opens the session that stands behind it.
///
/// What happens is `logged_in_at` of the arguments. Credentials that do not
/// hold are answered `401` with `AuthenticationFailure`, and nothing else.
/// Credentials that hold are answered `200` with the token and the user,
/// unless `now` lies before the epoch, the expiry is not representable or
/// no session id is left, which are server errors.
pub fn login_at(
    users: &UserStore,
    sessions: &mut SessionStore,
    config: &AuthConfig,
    credentials: &LoginCredentials,
    user_agent: Option<String>,
    ip: Option<String>,
    now: i64,
) -> (reply: Reply<AuthResponse>)
    ensures
        logged_in_at(
            login_reply_view(reply),
            old(sessions)@,
            old(sessions).spec_next_id(),
            final(sessions)@,
            final(sessions).spec_next_id(),
            users@,
            config.spec_secret(),
            config.spec_validity_window(),
            credentials.email@,
            credentials.password@,
            opt_text(user_agent),
            opt_text(ip),
            now,
        ),
        !spec_credentials_match(users@, credentials.email@, credentials.password@) ==> reply
            == Reply::<AuthResponse>::spec_failure(AuthError::AuthenticationFailure),
        spec_credentials_match(users@, credentials.email@, credentials.password@) && 0 <= now
            && now + config.spec_validity_window() <= i64::MAX && old(sessions).spec_next_id()
            < i32::MAX ==> reply.status == STATUS_OK && reply.body is Data,
{
    let auth = match utilisateur_service::authenticate_user_at(
        users,
        config,
        credentials.email.as_str(),
        credentials.password.as_str(),
        now,
    ) {
        Err(e) => {
            return Reply::failure(e);
        },
        Ok(None) => {
            return Reply::failure(AuthError::AuthenticationFailure);
        },
        Ok(Some(auth)) => auth,
    };
    let ghost before = sessions@;
    let ghost next = sessions.spec_next_id();
    let res = create_user_session_at(
        sessions,
        config,
        auth.user.id,
        auth.token.clone(),
        user_agent,
        ip,
        now,
    );
    match res {
        Err(e) => Reply::failure(AuthError::PersistenceError(e)),
        Ok(_) => {
            proof {
                assert forall|at: i64| at < now + config.spec_validity_window() implies
                    #[trigger] spec_is_session_valid(sessions@, auth@.token, at) by {
                    lemma_new_session_is_active(
                        before,
                        next,
                        auth.user.id,
                        auth@.token,
                        opt_text(user_agent),
                        opt_text(ip),
                        now,
                        config.spec_validity_window(),
                        at,
                    );
                }
            }
            Reply::data(STATUS_OK, auth)
        },
    }
}

/// Logs a user in at the current time.
///
/// Credentials that hold are answered `200` with the user and a fresh
/// token whenever a session id is left, and the session is opened.
/// Credentials that do not hold are answered `401` with
/// `AuthenticationFailure`. What happens is `logged_in_at` for some instant
/// on the clock.
pub fn login(
    users: &UserStore,
    sessions: &mut SessionStore,
    config: &AuthConfig,
    credentials: &LoginCredentials,
    user_agent: Option<String>,
    ip: Option<String>,
) -> (reply: Reply<AuthResponse>)
    ensures
        !spec_credentials_match(users@, credentials.email@, credentials.password@) ==> reply
            == Reply::<AuthResponse>::spec_failure(AuthError::AuthenticationFailure),
        spec_credentials_match(users@, credentials.email@, credentials.password@) && old(
            sessions,
        ).spec_next_id() < i32::MAX ==> reply.status == STATUS_OK && reply.body is Data,
        spec_credentials_match(users@, credentials.email@, credentials.password@) && old(
            sessions,
        ).spec_next_id() == i32::MAX ==> reply == Reply::<AuthResponse>::spec_failure(
            AuthError::PersistenceError(StoreError::ConstraintViolation),
        ),
        reply.body is Failure ==> final(sessions)@ == old(sessions)@,
        !(reply.body is Empty),
        exists|now: i64|
            on_the_clock(now) && #[trigger] logged_in_at(
                login_reply_view(reply),
                old(sessions)@,
                old(sessions).spec_next_id(),
                final(sessions)@,
                final(sessions).spec_next_id(),
                users@,
                config.spec_secret(),
                config.spec_validity_window(),
                credentials.email@,
                credentials.password@,
                opt_text(user_agent),
                opt_text(ip),
                now,
            ),
{
    let now = current_timestamp();
    let window = config.validity_window();
    assert(now + window <= i64::MAX);
    let reply = login_at(users, sessions, config, credentials, user_agent, ip, now);
    assert(logged_in_at(
        login_reply_view(reply),
        old(sessions)@,
        old(sessions).spec_next_id(),
        sessions@,
        sessions.spec_next_id(),
        users@,
        config.spec_secret(),
        config.spec_validity_window(),
        credentials.email@,
        credentials.password@,
        opt_text(user_agent),
        opt_text(ip),
        now,
    ));
    reply
}

/// A login with an email that no user holds and a login with a wrong
/// password are answered alike: `401` with `AuthenticationFailure`.
pub proof fn lemma_login_failures_are_answered_alike(
    users: Seq<UtilisateurView>,
    next_session_id: i32,
    secret: Seq<char>,
    window: i64,
    known: Seq<char>,
    unknown: Seq<char>,
    wrong: Seq<char>,
    any: Seq<char>,
    now: i64,
)
    requires
        !spec_credentials_match(users, unknown, any),
        !spec_credentials_match(users, known, wrong),
    ensures
        spec_handle_result(
            spec_login(users, next_session_id, secret, window, known, wrong, now),
            STATUS_OK,
        ) == spec_handle_result(
            spec_login(users, next_session_id, secret, window, unknown, any, now),
            STATUS_OK,
        ),
        spec_handle_result(
            spec_login(users, next_session_id, secret, window, known, wrong, now),
            STATUS_OK,
        ) == Reply::<AuthResponseView>::spec_failure(AuthError::AuthenticationFailure),
        Reply::<AuthResponseView>::spec_failure(AuthError::AuthenticationFailure).status
            == STATUS_UNAUTHORIZED,
{
}

} // verus!
