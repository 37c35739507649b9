use vstd::prelude::*;

verus! {

/// Status code with which the backend reports success.
pub const STATUS_SUCCESS: u32 = 0;

/// Status code reserved for an invalid argument; the library raises the same
/// error itself when a required field is missing.
pub const STATUS_INVALID_ARGUMENT: u32 = 1;

/// Failure of a session, generation or conversion request.
#[derive(Debug, Clone, Copy, PartialEq, Eq, Structural)]
pub enum SdError {
    /// A required field is missing or empty, or the backend rejected an argument.
    InvalidArgument,
    /// Any other non-success status of the backend, kept verbatim.
    BackendFailure(u32),
}

/// The outcome that a backend status code stands for.
pub open spec fn status_outcome(code: u32) -> Result<(), SdError> {
    if code == STATUS_SUCCESS {
        Ok(())
    } else if code == STATUS_INVALID_ARGUMENT {
        Err(SdError::InvalidArgument)
    } else {
        Err(SdError::BackendFailure(code))
    }
}

/// The status code that an error carries.
pub open spec fn error_code(e: SdError) -> u32 {
    match e {
        SdError::InvalidArgument => STATUS_INVALID_ARGUMENT,
        SdError::BackendFailure(c) => c,
    }
}

impl SdError {
    /// The numeric status code of this error, for diagnostics.
    pub fn code(&self) -> (r: u32)
        ensures
            r == error_code(*self),
    {
        match self {
            SdError::InvalidArgument => STATUS_INVALID_ARGUMENT,
            SdError::BackendFailure(c) => *c,
        }
    }
}

/// Maps a backend status code to a result: zero is success, the reserved
/// invalid-argument code is `InvalidArgument`, anything else is kept as a
/// `BackendFailure`.
pub fn result_from_status(code: u32) -> (r: Result<(), SdError>)
    ensures
        r == status_outcome(code),
        r is Err ==> error_code(r->Err_0) == code,
{
    if code == STATUS_SUCCESS {
        Ok(())
    } else if code == STATUS_INVALID_ARGUMENT {
        Err(SdError::InvalidArgument)
    } else {
        Err(SdError::BackendFailure(code))
    }
}

} // verus!
