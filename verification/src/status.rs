//! The HTTP status codes that the service answers with, as numbers, taken
//! from actix-web's `StatusCode` constants.

use actix_web::http::StatusCode;
use vstd::prelude::*;

verus! {

/// `StatusCode::CREATED.as_u16()`: actix-web (through the `http` crate)
/// defines `CREATED` as the code 201, and `as_u16` gives that number.
#[verifier::external_body]
pub(crate) fn created_code() -> (r: u16)
    ensures
        r == 201,
{
    StatusCode::CREATED.as_u16()
}

/// `StatusCode::ACCEPTED.as_u16()`: the constant is the code 202.
#[verifier::external_body]
pub(crate) fn accepted_code() -> (r: u16)
    ensures
        r == 202,
{
    StatusCode::ACCEPTED.as_u16()
}

/// `StatusCode::NOT_FOUND.as_u16()`: the constant is the code 404.
#[verifier::external_body]
pub(crate) fn not_found_code() -> (r: u16)
    ensures
        r == 404,
{
    StatusCode::NOT_FOUND.as_u16()
}

/// `StatusCode::INTERNAL_SERVER_ERROR.as_u16()`: the constant is the code 500.
#[verifier::external_body]
pub(crate) fn internal_server_error_code() -> (r: u16)
    ensures
        r == 500,
{
    StatusCode::INTERNAL_SERVER_ERROR.as_u16()
}

} // verus!
