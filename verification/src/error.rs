//! Public, semantically stable error types of the crate.
//!
//! Floating-point payloads (an energy, a k-point) are carried as their IEEE-754
//! bit patterns (`f64::to_bits`), so that every value stays exact and comparable.
use vstd::prelude::*;
use vstd::std_specs::convert::FromSpecImpl;

verus! {

/// Detailed input and validation errors.
#[derive(Debug)]
pub enum InputError {
    UnsupportedElement { symbol: String },
    UnsupportedBasis { basis: String },
    UnsupportedPseudo { pseudo: String },
    UnsupportedDimension { dimension: i32 },
    UnsupportedKMesh { kmesh: [usize; 3] },
    InvalidAtomSpec { message: String },
    InvalidParameter { parameter: String, message: String },
}

/// Public error type of the crate.
#[derive(Debug)]
pub enum Error {
    /// Invalid user input or unsupported configuration.
    InputError(InputError),
    /// Self-consistent field (SCF) procedure failed to converge.
    /// `last_energy` holds the bit pattern of the last energy, if any.
    ConvergenceError { reason: String, last_energy: Option<u64>, iterations: usize },
    /// Insufficient resources (e.g., host or device memory).
    ResourceError {
        message: String,
        requested_memory_mb: Option<usize>,
        limit_memory_mb: Option<usize>,
    },
    /// Internal bug or unexpected state.
    InternalError(String),
    /// SCF result was not converged when a follow-up workflow attempted to use it.
    ScfNotConverged { message: String },
    /// Band-structure run was requested with no band k-points.
    EmptyKPointPath,
    /// Integral evaluation failed at a specific band k-point; `kpoint` holds the
    /// bit patterns of the three fractional coordinates.
    IntegralFailure { kpoint: [u64; 3], message: String },
    /// Generalized eigenproblem failed while solving for band energies.
    EigenFailure { message: String },
    /// SCF method does not support band-structure evaluation.
    IncompatibleMethod { method: String },
    /// Feature exists in design but is not implemented yet.
    NotImplemented { feature: String },
}

/// Crate-wide result alias.
pub type Result<T> = std::result::Result<T, Error>;

/// Whether `r` is an `InvalidParameter` input error for `parameter` with `message`.
pub open spec fn is_invalid_parameter<T>(r: Result<T>, parameter: Seq<char>, message: Seq<char>) -> bool {
    r matches Err(Error::InputError(InputError::InvalidParameter { parameter: p, message: m }))
        && p@ == parameter && m@ == message
}

/// Whether `r` is an `InvalidAtomSpec` input error with `message`.
pub open spec fn is_invalid_atom_spec<T>(r: Result<T>, message: Seq<char>) -> bool {
    r matches Err(Error::InputError(InputError::InvalidAtomSpec { message: m })) && m@ == message
}

impl From<InputError> for Error {
    fn from(err: InputError) -> (r: Error) {
        Error::InputError(err)
    }
}

impl FromSpecImpl<InputError> for Error {
    open spec fn obeys_from_spec() -> bool {
        true
    }

    open spec fn from_spec(v: InputError) -> Error {
        Error::InputError(v)
    }
}

} // verus!
