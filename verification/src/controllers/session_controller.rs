//! The session management endpoints.

use vstd::prelude::*;
use crate::clock::{current_timestamp, on_the_clock};
use crate::controllers::reply::{handle_db_result, Body, Reply};
use crate::error::{
    AuthError,
    StoreError,
    STATUS_CREATED,
    STATUS_NO_CONTENT,
    STATUS_OK,
};
use crate::models::session_models::{NewSession, Session, UpdateSession};
use crate::services::session_service;
use crate::services::session_service::{
    identified_by,
    other_than,
    owned_by,
    spec_invalidate_user_sessions,
    spec_is_session_valid,
    spec_update_session,
    views,
    SessionStore,
};
use crate::table::first_match;

verus! {

/// Lists every session: `200` with the rows.
pub fn get_all_sessions(store: &SessionStore) -> (reply: Reply<Vec<Session>>)
    ensures
        reply.status == STATUS_OK,
        reply.body matches Body::Data(all) && views(all@) == store@,
{
    handle_db_result(session_service::get_all_sessions(store), STATUS_OK)
}

/// Reads the session under `id`: `200` with the row, or a server error
/// where no row has that id.
pub fn get_session_by_id(store: &SessionStore, id: i32) -> (reply: Reply<Session>)
    ensures
        match first_match(store@, identified_by(id)) {
            Some(row) => reply.status == STATUS_OK && (reply.body matches Body::Data(s) && s@
                == row),
            None => reply == Reply::<Session>::spec_failure(
                AuthError::PersistenceError(StoreError::NotFound),
            ),
        },
{
    handle_db_result(session_service::get_session_by_id(store, id), STATUS_OK)
}

/// Lists the sessions of a user: `200` with the rows.
pub fn get_sessions_by_user_id(store: &SessionStore, user_id: i32) -> (reply: Reply<Vec<Session>>)
    ensures
        reply.status == STATUS_OK,
        reply.body matches Body::Data(found) && views(found@) == store@.filter(owned_by(user_id)),
{
    handle_db_result(session_service::get_sessions_by_user_id(store, user_id), STATUS_OK)
}

/// Creates a session: `201` with the new row, or a server error where the
/// id space is exhausted.
pub fn create_session(store: &mut SessionStore, new_session: NewSession) -> (reply: Reply<Session>)
    ensures
        old(store).spec_next_id() == i32::MAX ==> {
            &&& reply == Reply::<Session>::spec_failure(
                AuthError::PersistenceError(StoreError::ConstraintViolation),
            )
            &&& final(store)@ == old(store)@
            &&& final(store).spec_next_id() == old(store).spec_next_id()
        },
        old(store).spec_next_id() < i32::MAX ==> {
            &&& reply.status == STATUS_CREATED
            &&& reply.body matches Body::Data(s) && s@ == new_session@.with_id(
                old(store).spec_next_id(),
            )
            &&& final(store)@ == old(store)@.push(new_session@.with_id(old(store).spec_next_id()))
            &&& final(store).spec_next_id() == old(store).spec_next_id() + 1
        },
{
    handle_db_result(session_service::create_session(store, new_session), STATUS_CREATED)
}

/// Updates the session under `id`: `200` with the row as it stands after
/// the update, or a server error where the update is empty or no row has
/// that id.
pub fn update_session(store: &mut SessionStore, id: i32, session: UpdateSession) -> (reply: Reply<
    Session,
>)
    ensures
        final(store).spec_next_id() == old(store).spec_next_id(),
        session@.is_empty() ==> reply == Reply::<Session>::spec_failure(
            AuthError::PersistenceError(StoreError::NoChanges),
        ) && final(store)@ == old(store)@,
        !session@.is_empty() ==> match first_match(old(store)@, identified_by(id)) {
            Some(row) => {
                &&& reply.status == STATUS_OK
                &&& reply.body matches Body::Data(s) && s@ == row.updated(session@)
                &&& final(store)@ == spec_update_session(old(store)@, id, session@)
            },
            None => {
                &&& reply == Reply::<Session>::spec_failure(
                    AuthError::PersistenceError(StoreError::NotFound),
                )
                &&& final(store)@ == old(store)@
            },
        },
{
    handle_db_result(session_service::update_session(store, id, session), STATUS_OK)
}

/// Deletes the session under `id`: `204` without a body, whether or not a
/// row went.
pub fn delete_session(store: &mut SessionStore, id: i32) -> (reply: Reply<usize>)
    ensures
        reply == Reply::<usize>::spec_empty(STATUS_NO_CONTENT),
        final(store)@ == old(store)@.filter(other_than(id)),
        final(store).spec_next_id() == old(store).spec_next_id(),
{
    match session_service::delete_session(store, id) {
        Ok(_) => Reply::empty(STATUS_NO_CONTENT),
        Err(e) => Reply::failure(AuthError::PersistenceError(e)),
    }
}

/// Says whether a session that carries `token` is active at `now`: `200`
/// with the answer.
pub fn validate_session_at(store: &SessionStore, token: String, now: i64) -> (reply: Reply<bool>)
    ensures
        reply == Reply::<bool>::spec_data(STATUS_OK, spec_is_session_valid(store@, token@, now)),
{
    handle_db_result(
        session_service::is_session_valid_at(store, token.as_str(), now),
        STATUS_OK,
    )
}

/// Says whether a session that carries `token` is active at the current
/// time: `200` with the answer.
pub fn validate_session(store: &SessionStore, token: String) -> (reply: Reply<bool>)
    ensures
        exists|now: i64|
            on_the_clock(now) && reply == Reply::<bool>::spec_data(
                STATUS_OK,
                #[trigger] spec_is_session_valid(store@, token@, now),
            ),
{
    let now = current_timestamp();
    let reply = validate_session_at(store, token, now);
    assert(reply == Reply::<bool>::spec_data(
        STATUS_OK,
        spec_is_session_valid(store@, token@, now),
    ));
    reply
}

/// Invalidates every session of a user: `204` without a body.
pub fn invalidate_user_sessions(store: &mut SessionStore, user_id: i32) -> (reply: Reply<usize>)
    ensures
        reply == Reply::<usize>::spec_empty(STATUS_NO_CONTENT),
        final(store)@ == spec_invalidate_user_sessions(old(store)@, user_id),
        final(store).spec_next_id() == old(store).spec_next_id(),
{
    match session_service::invalidate_user_sessions(store, user_id) {
        Ok(_) => Reply::empty(STATUS_NO_CONTENT),
        Err(e) => Reply::failure(AuthError::PersistenceError(e)),
    }
}

} // verus!
