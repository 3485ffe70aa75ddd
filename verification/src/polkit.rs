//! The daemon's authorization gate. D-Bus policy only answers "can this
//! process reach the daemon at all"; polkit answers whether *this caller*
//! may do *this action* now. Asking polkit is I/O; what its answer means is
//! decided here.
use vstd::prelude::*;

use crate::error::ControlError;

verus! {

/// How a polkit `CheckAuthorization` round ended.
#[derive(Debug)]
pub enum PolkitAnswer {
    /// The polkit authority could not be reached or asked.
    Unreachable(zbus::Error),
    /// No polkit subject could be built for the caller.
    NoSubject,
    /// polkit answered; `true` when the caller is authorized.
    Answered(bool),
}

/// What an answer means for the request: only an explicit "authorized"
/// lets it go on.
pub open spec fn verdict_of(answer: PolkitAnswer) -> Result<(), ControlError> {
    match answer {
        PolkitAnswer::Unreachable(e) => Err(ControlError::PolkitUnavailable(e)),
        PolkitAnswer::NoSubject => Err(ControlError::NotAuthorized),
        PolkitAnswer::Answered(true) => Ok(()),
        PolkitAnswer::Answered(false) => Err(ControlError::NotAuthorized),
    }
}

/// Turns polkit's answer into the request's outcome.
pub fn verdict(answer: PolkitAnswer) -> (r: Result<(), ControlError>)
    ensures
        r == verdict_of(answer),
{
    match answer {
        PolkitAnswer::Unreachable(e) => Err(ControlError::PolkitUnavailable(e)),
        PolkitAnswer::NoSubject => Err(ControlError::NotAuthorized),
        PolkitAnswer::Answered(authorized) => {
            if authorized {
                Ok(())
            } else {
                Err(ControlError::NotAuthorized)
            }
        },
    }
}

} // verus!
