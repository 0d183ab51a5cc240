//! What the HTTP surface answers: the status of each outcome and the body of
//! the liveness probe. Serialisation and the transport are the caller's.

use vstd::prelude::*;
use crate::user::{User, UserError};

verus! {

pub const STATUS_OK: u16 = 200;

pub const STATUS_CREATED: u16 = 201;

/// A request body that was read but lacks what the operation needs.
pub const STATUS_UNPROCESSABLE: u16 = 422;

pub const STATUS_SERVER_ERROR: u16 = 500;

/// Client input errors are the caller's fault; every store error is the
/// server's, whatever its kind.
pub open spec fn spec_error_status(e: UserError) -> u16 {
    match e {
        UserError::ClientInput => STATUS_UNPROCESSABLE,
        _ => STATUS_SERVER_ERROR,
    }
}

pub fn error_status(e: UserError) -> (r: u16)
    ensures
        r == spec_error_status(e),
{
    match e {
        UserError::ClientInput => STATUS_UNPROCESSABLE,
        _ => STATUS_SERVER_ERROR,
    }
}

/// The status of `POST /users`.
pub fn create_status(r: &Result<User, UserError>) -> (s: u16)
    ensures
        r is Ok ==> s == STATUS_CREATED,
        r is Err ==> s == spec_error_status(r->Err_0),
{
    match r {
        Ok(_) => STATUS_CREATED,
        Err(e) => error_status(*e),
    }
}

/// The status of `GET /users`.
pub fn list_status(r: &Result<Vec<User>, UserError>) -> (s: u16)
    ensures
        r is Ok ==> s == STATUS_OK,
        r is Err ==> s == spec_error_status(r->Err_0),
{
    match r {
        Ok(_) => STATUS_OK,
        Err(e) => error_status(*e),
    }
}

/// The body of the liveness probe `GET /`.
pub fn root() -> (r: String)
    ensures
        r@ == "Hello, World!"@,
{
    "Hello, World!".to_owned()
}

} // verus!
