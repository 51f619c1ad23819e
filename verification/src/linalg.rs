//! The generalized eigenproblem F C = S C e of a band-structure run: the
//! solver types and the check on the matrix shapes that precedes a solve.
use vstd::prelude::*;
use crate::error::{Error, Result};

verus! {

/// CPU eigensolver: Cholesky reduction of the overlap to a standard symmetric
/// eigenproblem.
pub struct CpuEigenSolver;

/// CubeCL eigensolver; until GPU kernels exist it routes to the CPU solver.
pub struct CubeclEigenSolver;

/// How many bands a solve of an `n × n` problem returns when `n_bands` were asked.
pub open spec fn band_count(n: nat, n_bands: Option<usize>) -> nat {
    let asked: nat = match n_bands {
        Some(b) => b as nat,
        None => n,
    };
    if asked < n { asked } else { n }
}

/// Check the shapes of the Fock matrix (`fock_rows × fock_cols`) and of the
/// overlap matrix before a generalized eigensolve: both must be square and of
/// one dimension. On success, the number of bands the solve returns: `n_bands`,
/// or every band when it is `None`, and never more than the dimension.
pub fn eigen_band_count(
    fock_rows: usize,
    fock_cols: usize,
    overlap_rows: usize,
    overlap_cols: usize,
    n_bands: Option<usize>,
) -> (r: Result<usize>)
    ensures
        (fock_rows == fock_cols && overlap_rows == overlap_cols && fock_rows == overlap_rows)
            <==> r is Ok,
        r matches Ok(nb) ==> nb == band_count(fock_rows as nat, n_bands),
        r matches Err(e) ==> e matches Error::EigenFailure { message }
            && message@ == "non-square or dimension-mismatched matrices"@,
{
    if fock_rows != fock_cols || overlap_rows != overlap_cols || fock_rows != overlap_rows {
        return Err(
            Error::EigenFailure {
                message: String::from_str("non-square or dimension-mismatched matrices"),
            },
        );
    }
    let dim = fock_rows;
    let asked = match n_bands {
        Some(b) => b,
        None => dim,
    };
    if asked < dim {
        Ok(asked)
    } else {
        Ok(dim)
    }
}

/// Law: a solve returns every band when no count is asked, the count asked when it
/// is at most the dimension, and never more bands than the dimension.
pub proof fn lemma_band_count(n: nat, n_bands: Option<usize>)
    ensures
        band_count(n, None) == n,
        n_bands is Some && n_bands->0 <= n ==> band_count(n, n_bands) == n_bands->0,
        n_bands is Some && n_bands->0 > n ==> band_count(n, n_bands) == n,
        band_count(n, n_bands) <= n,
{
}

} // verus!
