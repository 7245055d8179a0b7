//! Session records, what a session is made from, what an update may change,
//! and the state derived from a record and the clock.

use vstd::prelude::*;
use crate::text::{clone_text, opt_text};

verus! {

/// A persisted session: one issued token with its revocation flag and
/// expiry. Times are whole seconds since the Unix epoch.
#[derive(Debug, PartialEq, Eq)]
pub struct Session {
    pub id: i32,
    pub id_utilisateur: Option<i32>,
    pub token: Option<String>,
    pub user_agent: Option<String>,
    pub ip_address: Option<String>,
    pub date_creation: Option<i64>,
    pub date_expiration: Option<i64>,
    pub est_valide: Option<bool>,
}

/// The fields that a session is created from.
#[derive(Debug, PartialEq, Eq)]
pub struct NewSession {
    pub id_utilisateur: Option<i32>,
    pub token: Option<String>,
    pub user_agent: Option<String>,
    pub ip_address: Option<String>,
    pub date_creation: Option<i64>,
    pub date_expiration: Option<i64>,
    pub est_valide: Option<bool>,
}

/// The fields that an update sets. A field left at `None` is not touched.
#[derive(Debug, PartialEq, Eq)]
pub struct UpdateSession {
    pub id_utilisateur: Option<i32>,
    pub token: Option<String>,
    pub user_agent: Option<String>,
    pub ip_address: Option<String>,
    pub date_creation: Option<i64>,
    pub date_expiration: Option<i64>,
    pub est_valide: Option<bool>,
}

/// The short form of a session that is handed to a client.
#[derive(Debug, PartialEq, Eq)]
pub struct SessionResponse {
    pub id: i32,
    pub token: String,
    pub date_expiration: i64,
}

/// The view of a `Session`.
pub struct SessionView {
    pub id: i32,
    pub id_utilisateur: Option<i32>,
    pub token: Option<Seq<char>>,
    pub user_agent: Option<Seq<char>>,
    pub ip_address: Option<Seq<char>>,
    pub date_creation: Option<i64>,
    pub date_expiration: Option<i64>,
    pub est_valide: Option<bool>,
}

/// The view of a `NewSession` and of an `UpdateSession`.
pub struct SessionFields {
    pub id_utilisateur: Option<i32>,
    pub token: Option<Seq<char>>,
    pub user_agent: Option<Seq<char>>,
    pub ip_address: Option<Seq<char>>,
    pub date_creation: Option<i64>,
    pub date_expiration: Option<i64>,
    pub est_valide: Option<bool>,
}

/// The view of a `SessionResponse`.
pub struct SessionResponseView {
    pub id: i32,
    pub token: Seq<char>,
    pub date_expiration: i64,
}

impl View for Session {
    type V = SessionView;

    open spec fn view(&self) -> SessionView {
        SessionView {
            id: self.id,
            id_utilisateur: self.id_utilisateur,
            token: opt_text(self.token),
            user_agent: opt_text(self.user_agent),
            ip_address: opt_text(self.ip_address),
            date_creation: self.date_creation,
            date_expiration: self.date_expiration,
            est_valide: self.est_valide,
        }
    }
}

impl View for NewSession {
    type V = SessionFields;

    open spec fn view(&self) -> SessionFields {
        SessionFields {
            id_utilisateur: self.id_utilisateur,
            token: opt_text(self.token),
            user_agent: opt_text(self.user_agent),
            ip_address: opt_text(self.ip_address),
            date_creation: self.date_creation,
            date_expiration: self.date_expiration,
            est_valide: self.est_valide,
        }
    }
}

impl View for UpdateSession {
    type V = SessionFields;

    open spec fn view(&self) -> SessionFields {
        SessionFields {
            id_utilisateur: self.id_utilisateur,
            token: opt_text(self.token),
            user_agent: opt_text(self.user_agent),
            ip_address: opt_text(self.ip_address),
            date_creation: self.date_creation,
            date_expiration: self.date_expiration,
            est_valide: self.est_valide,
        }
    }
}

impl View for SessionResponse {
    type V = SessionResponseView;

    open spec fn view(&self) -> SessionResponseView {
        SessionResponseView {
            id: self.id,
            token: self.token@,
            date_expiration: self.date_expiration,
        }
    }
}

/// The state of a session at one instant.
#[derive(Debug, Clone, Copy, PartialEq, Eq, Structural)]
pub enum SessionState {
    /// The flag is set and the expiry lies in the future.
    Active,
    /// The expiry has been reached, whatever the flag says.
    Expired,
    /// The expiry has not been reached, but the flag is not set; or the
    /// record carries no expiry at all.
    Invalidated,
}

/// The expiry has been reached at `now`.
pub open spec fn spec_is_expired(expiry: Option<i64>, now: i64) -> bool {
    expiry matches Some(e) && e <= now
}

/// The state of a session, from its flag, its expiry and the clock alone.
pub open spec fn spec_session_state(valid: Option<bool>, expiry: Option<i64>, now: i64)
    -> SessionState {
    if spec_is_expired(expiry, now) {
        SessionState::Expired
    } else if expiry is Some && valid == Some(true) {
        SessionState::Active
    } else {
        SessionState::Invalidated
    }
}

/// The session authorizes requests at `now`: its flag is set and its expiry
/// lies in the future.
pub open spec fn spec_is_active(valid: Option<bool>, expiry: Option<i64>, now: i64) -> bool {
    valid == Some(true) && (expiry matches Some(e) && e > now)
}

/// Whether the expiry has been reached at `now`.
#[verifier::when_used_as_spec(spec_is_expired)]
pub fn is_expired(expiry: Option<i64>, now: i64) -> (yes: bool)
    ensures
        yes == spec_is_expired(expiry, now),
{
    match expiry {
        Some(e) => e <= now,
        None => false,
    }
}

/// The state of a session, from its flag, its expiry and the clock alone.
#[verifier::when_used_as_spec(spec_session_state)]
pub fn session_state(valid: Option<bool>, expiry: Option<i64>, now: i64) -> (state: SessionState)
    ensures
        state == spec_session_state(valid, expiry, now),
        state == SessionState::Active <==> spec_is_active(valid, expiry, now),
{
    match expiry {
        Some(e) => {
            if e <= now {
                SessionState::Expired
            } else {
                match valid {
                    Some(true) => SessionState::Active,
                    _ => SessionState::Invalidated,
                }
            }
        },
        None => SessionState::Invalidated,
    }
}

impl SessionView {
    /// The state of this record at `now`.
    pub open spec fn state(self, now: i64) -> SessionState {
        spec_session_state(self.est_valide, self.date_expiration, now)
    }

    /// This record authorizes requests at `now`.
    pub open spec fn is_active(self, now: i64) -> bool {
        spec_is_active(self.est_valide, self.date_expiration, now)
    }

    /// The expiry of this record has been reached at `now`.
    pub open spec fn is_expired(self, now: i64) -> bool {
        spec_is_expired(self.date_expiration, now)
    }

    /// This record with its flag cleared.
    pub open spec fn revoked(self) -> SessionView {
        SessionView { est_valide: Some(false), ..self }
    }

    /// This record after the update `changes`: each field that the update
    /// carries replaces the record's.
    pub open spec fn updated(self, changes: SessionFields) -> SessionView {
        SessionView {
            id: self.id,
            id_utilisateur: if changes.id_utilisateur is Some {
                changes.id_utilisateur
            } else {
                self.id_utilisateur
            },
            token: if changes.token is Some {
                changes.token
            } else {
                self.token
            },
            user_agent: if changes.user_agent is Some {
                changes.user_agent
            } else {
                self.user_agent
            },
            ip_address: if changes.ip_address is Some {
                changes.ip_address
            } else {
                self.ip_address
            },
            date_creation: if changes.date_creation is Some {
                changes.date_creation
            } else {
                self.date_creation
            },
            date_expiration: if changes.date_expiration is Some {
                changes.date_expiration
            } else {
                self.date_expiration
            },
            est_valide: if changes.est_valide is Some {
                changes.est_valide
            } else {
                self.est_valide
            },
        }
    }
}

impl SessionFields {
    /// The record that these fields make under the id `id`.
    pub open spec fn with_id(self, id: i32) -> SessionView {
        SessionView {
            id,
            id_utilisateur: self.id_utilisateur,
            token: self.token,
            user_agent: self.user_agent,
            ip_address: self.ip_address,
            date_creation: self.date_creation,
            date_expiration: self.date_expiration,
            est_valide: self.est_valide,
        }
    }

    /// No field is set.
    pub open spec fn is_empty(self) -> bool {
        &&& self.id_utilisateur is None
        &&& self.token is None
        &&& self.user_agent is None
        &&& self.ip_address is None
        &&& self.date_creation is None
        &&& self.date_expiration is None
        &&& self.est_valide is None
    }

    /// The update that clears the flag and touches nothing else.
    pub open spec fn revocation() -> SessionFields {
        SessionFields {
            id_utilisateur: None,
            token: None,
            user_agent: None,
            ip_address: None,
            date_creation: None,
            date_expiration: None,
            est_valide: Some(false),
        }
    }
}

impl Clone for Session {
    fn clone(&self) -> (res: Session)
        ensures
            res == *self,
    {
        Session {
            id: self.id,
            id_utilisateur: self.id_utilisateur,
            token: clone_text(&self.token),
            user_agent: clone_text(&self.user_agent),
            ip_address: clone_text(&self.ip_address),
            date_creation: self.date_creation,
            date_expiration: self.date_expiration,
            est_valide: self.est_valide,
        }
    }
}

impl Session {
    /// The state of this session at `now`.
    pub fn state(&self, now: i64) -> (state: SessionState)
        ensures
            state == self@.state(now),
    {
        session_state(self.est_valide, self.date_expiration, now)
    }

    /// Whether this session authorizes requests at `now`.
    pub fn is_active(&self, now: i64) -> (yes: bool)
        ensures
            yes == self@.is_active(now),
    {
        session_state(self.est_valide, self.date_expiration, now) == SessionState::Active
    }

    /// The record that `fields` make under the id `id`.
    pub fn from_new(id: i32, fields: NewSession) -> (row: Session)
        ensures
            row@ == fields@.with_id(id),
    {
        Session {
            id,
            id_utilisateur: fields.id_utilisateur,
            token: fields.token,
            user_agent: fields.user_agent,
            ip_address: fields.ip_address,
            date_creation: fields.date_creation,
            date_expiration: fields.date_expiration,
            est_valide: fields.est_valide,
        }
    }

    /// This session after the update `changes`.
    pub fn apply(self, changes: UpdateSession) -> (row: Session)
        ensures
            row@ == self@.updated(changes@),
    {
        Session {
            id: self.id,
            id_utilisateur: if changes.id_utilisateur.is_some() {
                changes.id_utilisateur
            } else {
                self.id_utilisateur
            },
            token: if changes.token.is_some() {
                changes.token
            } else {
                self.token
            },
            user_agent: if changes.user_agent.is_some() {
                changes.user_agent
            } else {
                self.user_agent
            },
            ip_address: if changes.ip_address.is_some() {
                changes.ip_address
            } else {
                self.ip_address
            },
            date_creation: if changes.date_creation.is_some() {
                changes.date_creation
            } else {
                self.date_creation
            },
            date_expiration: if changes.date_expiration.is_some() {
                changes.date_expiration
            } else {
                self.date_expiration
            },
            est_valide: if changes.est_valide.is_some() {
                changes.est_valide
            } else {
                self.est_valide
            },
        }
    }

    /// The short form of this session, where it carries a token and an
    /// expiry.
    pub fn response(&self) -> (res: Option<SessionResponse>)
        ensures
            res is Some <==> self@.token is Some && self@.date_expiration is Some,
            res matches Some(r) ==> r@ == (SessionResponseView {
                id: self@.id,
                token: self@.token->Some_0,
                date_expiration: self@.date_expiration->Some_0,
            }),
    {
        match (&self.token, self.date_expiration) {
            (Some(t), Some(e)) => Some(
                SessionResponse { id: self.id, token: t.clone(), date_expiration: e },
            ),
            _ => None,
        }
    }
}

impl UpdateSession {
    /// Whether no field is set.
    pub fn is_empty(&self) -> (yes: bool)
        ensures
            yes == self@.is_empty(),
    {
        self.id_utilisateur.is_none() && self.token.is_none() && self.user_agent.is_none()
            && self.ip_address.is_none() && self.date_creation.is_none()
            && self.date_expiration.is_none() && self.est_valide.is_none()
    }

    /// The update that clears the flag and touches nothing else.
    pub fn revocation() -> (changes: UpdateSession)
        ensures
            changes@ == SessionFields::revocation(),
    {
        UpdateSession {
            id_utilisateur: None,
            token: None,
            user_agent: None,
            ip_address: None,
            date_creation: None,
            date_expiration: None,
            est_valide: Some(false),
        }
    }
}

} // verus!
