//! What a request that failed, or that was only accepted, is answered with.
use vstd::prelude::*;

use crate::plc::{PlcError, PlcEvent, PlcState};

verus! {

/// The status that every refusal carries.
pub const IM_A_TEAPOT: u16 = 418;

/// The bound, in milliseconds, that a request gives the supervisor to bring
/// the runtime to rest.
pub const TRANSITION_TIMEOUT_MS: u64 = 2000;

/// The body of a refusal.
#[derive(Debug, Clone, PartialEq, Eq)]
pub struct Error {
    pub code: &'static str,
    pub title: &'static str,
}

/// A refusal: a status and its body.
#[derive(Debug, Clone, PartialEq, Eq)]
pub struct ErrorResponse {
    pub status: u16,
    pub error: Error,
}

/// An event for the supervisor, with the time it is given.
#[derive(Debug, Clone, PartialEq, Eq)]
pub struct TransitionRequest {
    pub event: PlcEvent,
    pub timeout_ms: u64,
}

impl Error {
    /// A body with the given code and title.
    pub fn new(code: &'static str, title: &'static str) -> (error: Error)
        ensures
            error.code@ == code@,
            error.title@ == title@,
    {
        Error { code, title }
    }

    /// The body that stands for any failure of the database: what failed is
    /// not passed on.
    pub fn database() -> (body: Error)
        ensures
            body.code@ == "database"@,
            body.title@ == "help"@,
    {
        Error { code: "database", title: "help" }
    }

    /// The refusal that carries this body under `status`.
    pub fn to_response(self, status: u16) -> (response: ErrorResponse)
        ensures
            response.status == status,
            response.error == self,
    {
        ErrorResponse { status, error: self }
    }

    /// The refusal with the given status, code and title.
    pub fn response(
        status: u16,
        code: &'static str,
        title: &'static str,
    ) -> (response: ErrorResponse)
        ensures
            response.status == status,
            response.error.code@ == code@,
            response.error.title@ == title@,
    {
        ErrorResponse { status, error: Error::new(code, title) }
    }
}

/// Whether a statement that removes by key removed its row: it did exactly
/// when one row went.
pub fn removed(affected: usize) -> (gone: bool)
    ensures
        gone == (affected == 1),
{
    affected == 1
}

/// The answer to a request that asked the supervisor for a transition:
/// accepted where the transition succeeded, whatever state it led to, and
/// a refusal with empty code and title where it did not, whatever the
/// error.
pub fn accepted(outcome: &Result<PlcState, PlcError>) -> (answer: Result<(), ErrorResponse>)
    ensures
        outcome is Ok <==> answer is Ok,
        answer matches Err(refusal) ==> {
            &&& refusal.status == IM_A_TEAPOT
            &&& refusal.error.code@ == ""@
            &&& refusal.error.title@ == ""@
        },
{
    match outcome {
        Ok(_) => Ok(()),
        Err(_) => Err(Error::response(IM_A_TEAPOT, "", "")),
    }
}

} // verus!
