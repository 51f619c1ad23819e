//! What a self-consistent field (SCF) run checks before it computes.
use vstd::prelude::*;
use crate::error::{is_invalid_parameter, Error, InputError, Result};
use crate::kpoints::{mesh_points, KMesh};

verus! {

/// SCF methods supported.
#[derive(Clone, Copy, Debug, PartialEq, Eq, Structural)]
pub enum Method {
    KRHF,
}

/// What `check_scf_inputs` returns for a cell of dimension `dimension` and the mesh `kmesh`.
pub open spec fn scf_inputs_outcome(dimension: i32, kmesh: Option<KMesh>, r: Result<KMesh>) -> bool {
    if dimension != 3 {
        r matches Err(Error::InputError(InputError::UnsupportedDimension { dimension: d }))
            && d == dimension
    } else {
        match kmesh {
            None => is_invalid_parameter(r, "kmesh"@, "k-point mesh missing"@),
            Some(m) => if mesh_points(m.dims) == 0 {
                is_invalid_parameter(r, "kmesh"@, "k-point mesh cannot be empty"@)
            } else {
                r == Ok::<KMesh, Error>(m)
            },
        }
    }
}

/// Check the inputs of an SCF run on a cell of dimension `dimension`: only 3D
/// periodic cells are supported, and a non-empty k-point mesh must be given.
/// Gives back the mesh.
pub fn check_scf_inputs(dimension: i32, kmesh: Option<KMesh>) -> (r: Result<KMesh>)
    ensures
        scf_inputs_outcome(dimension, kmesh, r),
{
    if dimension != 3 {
        return Err(Error::InputError(InputError::UnsupportedDimension { dimension }));
    }
    let m = match kmesh {
        Some(m) => m,
        None => {
            return Err(
                Error::InputError(
                    InputError::InvalidParameter {
                        parameter: String::from_str("kmesh"),
                        message: String::from_str("k-point mesh missing"),
                    },
                ),
            );
        },
    };
    if m.is_empty() {
        return Err(
            Error::InputError(
                InputError::InvalidParameter {
                    parameter: String::from_str("kmesh"),
                    message: String::from_str("k-point mesh cannot be empty"),
                },
            ),
        );
    }
    Ok(m)
}

/// Law: the inputs are accepted exactly when the cell is 3D and a mesh is given
/// with no dimension 0, and then the mesh given back is the mesh given.
pub proof fn lemma_scf_inputs_accepted(dimension: i32, kmesh: Option<KMesh>, r: Result<KMesh>)
    requires
        scf_inputs_outcome(dimension, kmesh, r),
    ensures
        r is Ok <==> (dimension == 3 && kmesh is Some && kmesh->0.dims[0] != 0 && kmesh->0.dims[1]
            != 0 && kmesh->0.dims[2] != 0),
        r is Ok ==> kmesh == Some(r->Ok_0),
{
    if let Some(m) = kmesh {
        let (a, b, c) = (m.dims[0] as int, m.dims[1] as int, m.dims[2] as int);
        assert((a * b * c == 0) == (a == 0 || b == 0 || c == 0)) by (nonlinear_arith)
            requires
                a >= 0,
                b >= 0,
                c >= 0,
        ;
    }
}

} // verus!
