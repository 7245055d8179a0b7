//! The failure kinds of the authentication subsystem, as tagged values.

use vstd::prelude::*;

verus! {

/// Why the session or user store refused an operation.
#[derive(Debug, Clone, Copy, PartialEq, Eq, Structural)]
pub enum StoreError {
    /// No row has the requested id.
    NotFound,
    /// An update carried no field to change.
    NoChanges,
    /// The row would break a constraint of the table: the id space is
    /// exhausted.
    ConstraintViolation,
}

/// Which check of the request gate turned a request away.
///
/// The reason is for the server's own log. Every reason is answered with
/// the same status.
#[derive(Debug, Clone, Copy, PartialEq, Eq, Structural)]
pub enum GateRejection {
    /// The request carries no `Authorization` header.
    MissingHeader,
    /// The header does not start with `Bearer `.
    MalformedHeader,
    /// The token is malformed, carries a bad signature, lacks a claim or
    /// has expired.
    InvalidToken,
    /// The token is sound, but no active session stands behind it.
    InactiveSession,
}

/// A failure of the authentication subsystem.
#[derive(Debug, Clone, Copy, PartialEq, Eq, Structural)]
pub enum AuthError {
    /// Bad credentials. Unknown email and wrong password are not told apart.
    AuthenticationFailure,
    /// A missing, malformed, expired or revoked token.
    AuthorizationFailure(GateRejection),
    /// An unusable signing secret, validity window or hashing cost, or an
    /// input that the hasher or signer cannot take.
    ConfigurationError,
    /// The store refused the operation.
    PersistenceError(StoreError),
    /// The email is already registered.
    Conflict,
}

/// Status of a successful read or update.
pub const STATUS_OK: u16 = 200;

/// Status of a successful creation.
pub const STATUS_CREATED: u16 = 201;

/// Status of a successful deletion or invalidation, answered without a body.
pub const STATUS_NO_CONTENT: u16 = 204;

/// Status of every authentication and authorization failure.
pub const STATUS_UNAUTHORIZED: u16 = 401;

/// Status of a registration with an email that is already taken.
pub const STATUS_CONFLICT: u16 = 409;

/// Status of a configuration or persistence failure: an opaque server error.
pub const STATUS_SERVER_ERROR: u16 = 500;

impl AuthError {
    /// The HTTP status that answers this failure.
    pub open spec fn spec_status_code(self) -> u16 {
        match self {
            AuthError::AuthenticationFailure => STATUS_UNAUTHORIZED,
            AuthError::AuthorizationFailure(_) => STATUS_UNAUTHORIZED,
            AuthError::ConfigurationError => STATUS_SERVER_ERROR,
            AuthError::PersistenceError(_) => STATUS_SERVER_ERROR,
            AuthError::Conflict => STATUS_CONFLICT,
        }
    }

    /// The HTTP status that answers this failure.
    #[verifier::when_used_as_spec(spec_status_code)]
    pub fn status_code(self) -> (status: u16)
        ensures
            status == self.spec_status_code(),
    {
        match self {
            AuthError::AuthenticationFailure => STATUS_UNAUTHORIZED,
            AuthError::AuthorizationFailure(_) => STATUS_UNAUTHORIZED,
            AuthError::ConfigurationError => STATUS_SERVER_ERROR,
            AuthError::PersistenceError(_) => STATUS_SERVER_ERROR,
            AuthError::Conflict => STATUS_CONFLICT,
        }
    }

    /// The message that goes out with this failure: one per kind, whatever
    /// went on inside.
    pub open spec fn spec_message(self) -> Seq<char> {
        match self {
            AuthError::AuthenticationFailure => "invalid credentials"@,
            AuthError::AuthorizationFailure(_) => "unauthorized"@,
            AuthError::ConfigurationError => "server error"@,
            AuthError::PersistenceError(_) => "server error"@,
            AuthError::Conflict => "email already registered"@,
        }
    }

    /// The message that goes out with this failure. It names the kind of
    /// failure and nothing of which check failed or what the store said.
    pub fn message(self) -> (msg: &'static str)
        ensures
            msg@ == self.spec_message(),
    {
        match self {
            AuthError::AuthenticationFailure => "invalid credentials",
            AuthError::AuthorizationFailure(_) => "unauthorized",
            AuthError::ConfigurationError => "server error",
            AuthError::PersistenceError(_) => "server error",
            AuthError::Conflict => "email already registered",
        }
    }
}

/// Every request that the auth gate turns away is answered alike, whichever
/// check failed: the same status, `401`, and the same message.
pub proof fn lemma_rejections_are_answered_alike(first: GateRejection, second: GateRejection)
    ensures
        AuthError::AuthorizationFailure(first).spec_status_code() == STATUS_UNAUTHORIZED,
        AuthError::AuthorizationFailure(first).spec_status_code() == AuthError::AuthorizationFailure(
            second,
        ).spec_status_code(),
        AuthError::AuthorizationFailure(first).spec_message() == AuthError::AuthorizationFailure(
            second,
        ).spec_message(),
{
}

/// Every failure of the store, and every failure of the configuration, is
/// answered as the same opaque server error.
pub proof fn lemma_server_errors_are_opaque(first: StoreError, second: StoreError)
    ensures
        AuthError::PersistenceError(first).spec_status_code() == STATUS_SERVER_ERROR,
        AuthError::PersistenceError(first).spec_status_code() == AuthError::PersistenceError(
            second,
        ).spec_status_code(),
        AuthError::PersistenceError(first).spec_message() == AuthError::PersistenceError(
            second,
        ).spec_message(),
        AuthError::PersistenceError(first).spec_message()
            == AuthError::ConfigurationError.spec_message(),
        AuthError::ConfigurationError.spec_status_code() == STATUS_SERVER_ERROR,
{
}

} // verus!
