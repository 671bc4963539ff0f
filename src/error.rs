//! Typed errors for the native engine's status codes.
use vstd::prelude::*;

verus! {

/// The status the native engine reports for a call that succeeded.
pub const STATUS_OK: i32 = 0;

/// A native call failed; `status` is the code that the engine reported, unchanged.
#[derive(Clone, Copy, Debug, PartialEq, Eq, Structural)]
pub struct InferenceError {
    pub status: i32,
}

/// The native runtime could not be set up.
#[derive(Clone, Debug, PartialEq, Eq)]
pub enum LoadingError {
    /// The shared library could not be found or loaded; holds the loader's message.
    SystemFailure(String),
    /// A discovered plugin configuration path is not valid Unicode.
    CannotStringifyPath,
}

/// Why a `Core` could not be constructed.
#[derive(Clone, Debug, PartialEq, Eq)]
pub enum SetupError {
    /// The native engine refused to create the core.
    Inference(InferenceError),
    /// The native runtime could not be loaded or configured.
    Loading(LoadingError),
}

/// What a native status code means: success, or a failure that carries the code.
pub open spec fn status_result(status: i32) -> Result<(), InferenceError> {
    if status == STATUS_OK {
        Ok(())
    } else {
        Err(InferenceError { status })
    }
}

/// Translate a native status code; no failure is turned into a success.
pub fn check_status(status: i32) -> (r: Result<(), InferenceError>)
    ensures
        r == status_result(status),
        r is Ok <==> status == STATUS_OK,
        r matches Err(e) ==> e.status == status,
{
    if status == STATUS_OK {
        Ok(())
    } else {
        Err(InferenceError { status })
    }
}

} // verus!
