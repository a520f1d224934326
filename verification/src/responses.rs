//! The reply decisions of the HTTP handlers: which status a handler
//! answers with, decided from the outcome alone. The handlers
//! themselves are framework glue in the shell; these functions are the
//! part of them that decides.

use vstd::prelude::*;

verus! {

/// The registration handler's status: created on success, bad request
/// on failure.
pub fn register_status<T, E>(outcome: &Result<T, E>) -> (status: u16)
    ensures
        status == (if outcome is Ok {
            201u16
        } else {
            400u16
        }),
{
    match outcome {
        Ok(_) => 201,
        Err(_) => 400,
    }
}

/// The avatar-upload handler's status: ok on success, internal server
/// error on failure.
pub fn upload_avatar_status<T, E>(outcome: &Result<T, E>) -> (status: u16)
    ensures
        status == (if outcome is Ok {
            200u16
        } else {
            500u16
        }),
{
    match outcome {
        Ok(_) => 200,
        Err(_) => 500,
    }
}

/// The own-missions listing handler's status: ok on success, internal
/// server error on failure.
pub fn my_missions_status<T, E>(outcome: &Result<T, E>) -> (status: u16)
    ensures
        status == (if outcome is Ok {
            200u16
        } else {
            500u16
        }),
{
    match outcome {
        Ok(_) => 200,
        Err(_) => 500,
    }
}

} // verus!
