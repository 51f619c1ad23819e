//! Backend-local error type, decoupling runtime details from public errors.
use vstd::prelude::*;
use crate::error as public;
use vstd::std_specs::convert::FromSpecImpl;

verus! {

/// Backend-local error type.
#[derive(Debug)]
pub enum BackendError {
    /// Requested allocation exceeds the configured budget.
    OutOfMemory { requested_mb: Option<usize>, limit_mb: Option<usize> },
    /// Backend (typically WGPU) is unavailable or not built.
    DeviceUnavailable { message: String },
    /// Kernel failed to compile or execute.
    KernelFailure { message: String },
}

pub type Result<T> = std::result::Result<T, BackendError>;

/// The message of the resource error that an out-of-memory backend error becomes.
pub open spec fn oom_message() -> Seq<char> {
    "out of memory while allocating backend buffer"@
}

/// Whether `r` is how the backend error `err` is reported through the public error type.
pub open spec fn reports(err: BackendError, r: public::Error) -> bool {
    match err {
        BackendError::OutOfMemory { requested_mb, limit_mb } => match r {
            public::Error::ResourceError { message, requested_memory_mb, limit_memory_mb } => {
                &&& message@ == oom_message()
                &&& requested_memory_mb == requested_mb
                &&& limit_memory_mb == limit_mb
            },
            _ => false,
        },
        BackendError::DeviceUnavailable { message } => r == (public::Error::ResourceError {
            message,
            requested_memory_mb: None,
            limit_memory_mb: None,
        }),
        BackendError::KernelFailure { message } => r == public::Error::InternalError(message),
    }
}

/// Report a backend error through the public error type.
pub fn to_public_error(err: BackendError) -> (r: public::Error)
    ensures
        reports(err, r),
{
    match err {
        BackendError::OutOfMemory { requested_mb, limit_mb } => {
            let message = String::from_str("out of memory while allocating backend buffer");
            public::Error::ResourceError {
                message,
                requested_memory_mb: requested_mb,
                limit_memory_mb: limit_mb,
            }
        },
        BackendError::DeviceUnavailable { message } => public::Error::ResourceError {
            message,
            requested_memory_mb: None,
            limit_memory_mb: None,
        },
        BackendError::KernelFailure { message } => public::Error::InternalError(message),
    }
}

impl From<BackendError> for public::Error {
    fn from(err: BackendError) -> (r: public::Error)
        ensures
            reports(err, r),
    {
        to_public_error(err)
    }
}

/// The conversion states its mapping in the `ensures` of `from` ([`reports`],
/// over the characters of the messages); the spec-level `from_spec` is not
/// offered, because two strings with the same characters need not be the same
/// value to the verifier.
impl FromSpecImpl<BackendError> for public::Error {
    open spec fn obeys_from_spec() -> bool {
        false
    }

    open spec fn from_spec(v: BackendError) -> public::Error {
        choose|r: public::Error| reports(v, r)
    }
}

} // verus!
