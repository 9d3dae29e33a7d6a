//! Screening done at the HTTP edge before any dispatch work.

use vstd::prelude::*;
use crate::command::GpioCmd;
use crate::errors::RequestError;

verus! {

/// The request body size cap, in bytes.
pub const MAX_BODY_BYTES: usize = 1024;

/// How the edge screens a request: an oversized body is turned away
/// before anything else, then a body that did not parse as a command.
/// Only an admitted command may reach the dispatcher.
pub open spec fn screen_spec(body_len: usize, parsed: Option<GpioCmd>) -> Result<
    GpioCmd,
    RequestError,
> {
    if body_len > MAX_BODY_BYTES {
        Err(RequestError::BodyTooLarge)
    } else {
        match parsed {
            Some(cmd) => Ok(cmd),
            None => Err(RequestError::MalformedBody),
        }
    }
}

/// Screen one request body: its size, and whether it parsed as a
/// command. A rejection here means the dispatcher is never consulted
/// for this request.
pub fn screen_request(body_len: usize, parsed: Option<GpioCmd>) -> (r: Result<
    GpioCmd,
    RequestError,
>)
    ensures
        r == screen_spec(body_len, parsed),
{
    if body_len > MAX_BODY_BYTES {
        Err(RequestError::BodyTooLarge)
    } else {
        match parsed {
            Some(cmd) => Ok(cmd),
            None => Err(RequestError::MalformedBody),
        }
    }
}

/// The fixed informational text served at the API root.
pub fn api_info() -> (s: &'static str)
    ensures
        s@ == "This is the GPIO API"@,
{
    "This is the GPIO API"
}

} // verus!
