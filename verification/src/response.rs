//! How one push attempt ended.

use vstd::prelude::*;
use crate::encoder::EncodeError;

verus! {

/// Why a push attempt failed. No failure leaves the scheduler: the next
/// tick is the retry.
#[derive(Clone, Debug, PartialEq, Eq)]
pub enum PushFailure {
    /// The snapshot could not be encoded; nothing was sent.
    Encode(EncodeError),
    /// The request did not get a response.
    Transport { detail: String },
    /// The endpoint answered with a status outside 200..=299.
    Rejected { status: u16, body: String },
}

/// Whether an HTTP status reports success: 200 to 299.
pub open spec fn status_is_success(status: u16) -> bool {
    200 <= status < 300
}

/// Whether a failure came from sending, so that the client it was sent with
/// must not be used again. An encode error says nothing of the client.
pub open spec fn failure_rebuilds_client(failure: PushFailure) -> bool {
    !(failure is Encode)
}

/// Whether an attempt with this outcome must be followed by a new client.
pub open spec fn outcome_rebuilds_client(outcome: Result<(), PushFailure>) -> bool {
    match outcome {
        Ok(_) => false,
        Err(failure) => failure_rebuilds_client(failure),
    }
}

/// Whether an HTTP status reports success.
pub fn is_success(status: u16) -> (r: bool)
    ensures
        r == status_is_success(status),
{
    200 <= status && status < 300
}

/// The outcome of an attempt whose request was answered: success for a
/// status from 200 to 299, else a rejection that keeps status and body.
pub fn classify_response(status: u16, body: String) -> (r: Result<(), PushFailure>)
    ensures
        status_is_success(status) ==> r == Ok::<(), PushFailure>(()),
        !status_is_success(status) ==> r == Err::<(), PushFailure>(PushFailure::Rejected { status, body }),
{
    if is_success(status) {
        Ok(())
    } else {
        Err(PushFailure::Rejected { status, body })
    }
}

impl PushFailure {
    /// Whether the client that made the attempt must be replaced.
    pub fn rebuilds_client(&self) -> (r: bool)
        ensures
            r == failure_rebuilds_client(*self),
    {
        match self {
            PushFailure::Encode(_) => false,
            PushFailure::Transport { .. } => true,
            PushFailure::Rejected { .. } => true,
        }
    }
}

} // verus!
