//! The answer of an endpoint: a status and a body.

use vstd::prelude::*;
use crate::error::{AuthError, StoreError, STATUS_SERVER_ERROR};

verus! {

/// The body of an answer.
#[derive(Debug, PartialEq, Eq)]
pub enum Body<T> {
    /// The data that was asked for.
    Data(T),
    /// Nothing: the status says it all.
    Empty,
    /// The kind of failure. It is rendered as one generic message per kind.
    Failure(AuthError),
}

/// The answer of an endpoint.
#[derive(Debug, PartialEq, Eq)]
pub struct Reply<T> {
    pub status: u16,
    pub body: Body<T>,
}

impl<T> Reply<T> {
    /// The answer that carries `data` under `status`.
    pub open spec fn spec_data(status: u16, data: T) -> Reply<T> {
        Reply { status, body: Body::Data(data) }
    }

    /// The answer without a body under `status`.
    pub open spec fn spec_empty(status: u16) -> Reply<T> {
        Reply { status, body: Body::Empty }
    }

    /// The answer to the failure `e`: its status and its kind, nothing
    /// else.
    pub open spec fn spec_failure(e: AuthError) -> Reply<T> {
        Reply { status: e.spec_status_code(), body: Body::Failure(e) }
    }

    /// The answer that carries `data` under `status`.
    pub fn data(status: u16, data: T) -> (reply: Reply<T>)
        ensures
            reply == Self::spec_data(status, data),
    {
        Reply { status, body: Body::Data(data) }
    }

    /// The answer without a body under `status`.
    pub fn empty(status: u16) -> (reply: Reply<T>)
        ensures
            reply == Self::spec_empty(status),
    {
        Reply { status, body: Body::Empty }
    }

    /// The answer to the failure `e`.
    pub fn failure(e: AuthError) -> (reply: Reply<T>)
        ensures
            reply == Self::spec_failure(e),
    {
        Reply { status: e.status_code(), body: Body::Failure(e) }
    }
}

/// The answer with its data seen through `view`.
pub open spec fn reply_view<T, V>(reply: Reply<T>, view: spec_fn(T) -> V) -> Reply<V> {
    Reply {
        status: reply.status,
        body: match reply.body {
            Body::Data(data) => Body::Data(view(data)),
            Body::Empty => Body::Empty,
            Body::Failure(e) => Body::Failure(e),
        },
    }
}

/// The answer to what a store operation gave: the data under `ok_status`,
/// or an opaque server error that names the store's refusal.
pub open spec fn spec_handle_db_result<T>(result: Result<T, StoreError>, ok_status: u16) -> Reply<
    T,
> {
    match result {
        Ok(data) => Reply::spec_data(ok_status, data),
        Err(e) => Reply::spec_failure(AuthError::PersistenceError(e)),
    }
}

/// Answers what a store operation gave.
pub fn handle_db_result<T>(result: Result<T, StoreError>, ok_status: u16) -> (reply: Reply<T>)
    ensures
        reply == spec_handle_db_result(result, ok_status),
        result is Err ==> reply.status == STATUS_SERVER_ERROR,
{
    match result {
        Ok(data) => Reply::data(ok_status, data),
        Err(e) => Reply::failure(AuthError::PersistenceError(e)),
    }
}

/// The answer to what a service gave: the data under `ok_status`, or the
/// failure under its own status.
pub open spec fn spec_handle_result<T>(result: Result<T, AuthError>, ok_status: u16) -> Reply<T> {
    match result {
        Ok(data) => Reply::spec_data(ok_status, data),
        Err(e) => Reply::spec_failure(e),
    }
}

/// Answers what a service gave.
pub fn handle_result<T>(result: Result<T, AuthError>, ok_status: u16) -> (reply: Reply<T>)
    ensures
        reply == spec_handle_result(result, ok_status),
{
    match result {
        Ok(data) => Reply::data(ok_status, data),
        Err(e) => Reply::failure(e),
    }
}

} // verus!
