//! Error taxonomy and the single point where raw driver status codes are
//! interpreted.

use vstd::prelude::*;

verus! {

/// Status code of a successful driver call.
pub const CUDA_SUCCESS: u32 = 0;

/// Status code for a malformed argument (for instance a launch-geometry axis
/// of zero).
pub const CUDA_ERROR_INVALID_VALUE: u32 = 1;

/// Status code for an exhausted device memory pool.
pub const CUDA_ERROR_OUT_OF_MEMORY: u32 = 2;

/// Status code for an operation against a dead or unbindable context.
pub const CUDA_ERROR_INVALID_CONTEXT: u32 = 201;

/// Status code for an invalid object handle (for instance a kernel function
/// handle that no loaded module produced).
pub const CUDA_ERROR_INVALID_HANDLE: u32 = 400;

/// Status code of a non-blocking query on an operation that is still in
/// flight. Recoverable by retrying, not a true failure.
pub const CUDA_ERROR_NOT_READY: u32 = 600;

/// Status code of an assertion trap raised by device code.
pub const CUDA_ERROR_ASSERT: u32 = 710;

/// Every failure the runtime reports.
#[derive(Debug)]
pub enum AccelError {
    /// Device initialisation failed.
    InitFailed,
    /// A context guard could not bind its context (dead or invalid handle).
    ContextError,
    /// Raw error of a device API entry point, with the entry point's name for
    /// diagnostics.
    CUDAError { api_name: String, error: u32 },
    /// An async operation issued previously has not completed yet.
    AsyncOperationNotReady,
    /// An assertion in device code has failed.
    DeviceAssertionFailed,
    /// No device found for the given ID.
    DeviceNotFound { id: usize, count: usize },
    /// A checked copy between handles of unequal element counts, caught
    /// before any driver call is issued.
    SizeMismatch { dest: usize, source: usize },
    /// A checked copy whose source and destination are the same allocation,
    /// caught before any driver call is issued.
    AliasedCopy,
}

impl AccelError {
    /// Short diagnostic text, in place of a `Display` implementation.
    pub fn describe(&self) -> (s: &'static str) {
        match self {
            AccelError::InitFailed => "device initialisation failed",
            AccelError::ContextError => "context guard failed to bind its context",
            AccelError::CUDAError { .. } => "device API error",
            AccelError::AsyncOperationNotReady => "async operation has not completed yet",
            AccelError::DeviceAssertionFailed => "assertion in device code has failed",
            AccelError::DeviceNotFound { .. } => "no device found for given ID",
            AccelError::SizeMismatch { .. } => "memory sizes mismatch on copy",
            AccelError::AliasedCopy => "source and destination of a copy are identical",
        }
    }
}

/// Convert the return code of a driver entry point into a result.
///
/// This is the only place raw status codes are interpreted; every other
/// component sees `AccelError` values.
pub fn check(error: u32, api_name: &str) -> (r: Result<(), AccelError>)
    ensures
        r is Ok <==> error == CUDA_SUCCESS,
        error == CUDA_ERROR_ASSERT ==> r == Err::<(), AccelError>(AccelError::DeviceAssertionFailed),
        error == CUDA_ERROR_NOT_READY ==> r == Err::<(), AccelError>(AccelError::AsyncOperationNotReady),
        (error != CUDA_SUCCESS && error != CUDA_ERROR_ASSERT && error != CUDA_ERROR_NOT_READY)
            ==> (r matches Err(AccelError::CUDAError { api_name: n, error: e })
                && n@ == api_name@ && e == error),
{
    if error == CUDA_SUCCESS {
        Ok(())
    } else if error == CUDA_ERROR_ASSERT {
        Err(AccelError::DeviceAssertionFailed)
    } else if error == CUDA_ERROR_NOT_READY {
        Err(AccelError::AsyncOperationNotReady)
    } else {
        Err(AccelError::CUDAError { api_name: api_name.to_owned(), error })
    }
}

} // verus!
