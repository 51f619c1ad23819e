//! What a band-structure run decides before it computes: which k-points, and
//! which linear-algebra backend.
use vstd::prelude::*;
use crate::error::{is_invalid_parameter, Error, InputError, Result};

verus! {

/// Linear algebra backend choice for band eigenproblems.
#[derive(Clone, Copy, Debug, PartialEq, Eq, Structural)]
pub enum BandLinalgBackend {
    /// Select Cubecl when the SCF integral provider prefers GPU, else CPU.
    Auto,
    Cpu,
    Cubecl,
}

/// The backend that `requested` stands for when the integral provider does or
/// does not prefer the GPU; never `Auto`.
pub open spec fn resolved_backend(requested: BandLinalgBackend, prefers_gpu: bool) -> BandLinalgBackend {
    match requested {
        BandLinalgBackend::Auto => if prefers_gpu {
            BandLinalgBackend::Cubecl
        } else {
            BandLinalgBackend::Cpu
        },
        other => other,
    }
}

/// Resolve `Auto` to Cubecl when the integral provider prefers the GPU, else to CPU.
pub fn resolve_linalg_backend(requested: BandLinalgBackend, prefers_gpu: bool) -> (r: BandLinalgBackend)
    ensures
        r == resolved_backend(requested, prefers_gpu),
        r != BandLinalgBackend::Auto,
{
    match requested {
        BandLinalgBackend::Auto => if prefers_gpu {
            BandLinalgBackend::Cubecl
        } else {
            BandLinalgBackend::Cpu
        },
        other => other,
    }
}

/// What `band_kpoints` returns.
pub open spec fn band_kpoints_outcome<K>(
    dimension: i32,
    scf_converged: bool,
    path: Option<Seq<K>>,
    explicit: Option<Seq<K>>,
    gamma: K,
    r: Result<Seq<K>>,
) -> bool {
    if dimension != 3 {
        r matches Err(Error::InputError(InputError::UnsupportedDimension { dimension: d }))
            && d == dimension
    } else if !scf_converged {
        r matches Err(Error::ScfNotConverged { message }) && message@
            == "call BandStructureBuilder after SCF convergence"@
    } else if path is Some && explicit is Some {
        is_invalid_parameter(r, "kpoints"@, "use either kpath or explicit kpoints, not both"@)
    } else {
        let chosen = match (path, explicit) {
            (Some(p), _) => p,
            (None, Some(l)) => l,
            (None, None) => seq![gamma],
        };
        if chosen.len() == 0 {
            r matches Err(Error::EmptyKPointPath)
        } else {
            r == Ok::<Seq<K>, Error>(chosen)
        }
    }
}

/// Choose the k-points of a band-structure run, after checking that the cell is
/// 3D and that the SCF converged: the points of the path, or the explicit list,
/// or the Gamma point when neither is given. Giving both, or ending with no
/// point, is an error.
pub fn band_kpoints<K>(
    dimension: i32,
    scf_converged: bool,
    path: Option<Vec<K>>,
    explicit: Option<Vec<K>>,
    gamma: K,
) -> (r: Result<Vec<K>>)
    ensures
        band_kpoints_outcome(
            dimension,
            scf_converged,
            match path {
                Some(p) => Some(p@),
                None => None,
            },
            match explicit {
                Some(l) => Some(l@),
                None => None,
            },
            gamma,
            match r {
                Ok(v) => Ok(v@),
                Err(e) => Err(e),
            },
        ),
{
    if dimension != 3 {
        return Err(Error::InputError(InputError::UnsupportedDimension { dimension }));
    }
    if !scf_converged {
        return Err(
            Error::ScfNotConverged {
                message: String::from_str("call BandStructureBuilder after SCF convergence"),
            },
        );
    }
    let kpoints = match (path, explicit) {
        (Some(_), Some(_)) => {
            return Err(
                Error::InputError(
                    InputError::InvalidParameter {
                        parameter: String::from_str("kpoints"),
                        message: String::from_str("use either kpath or explicit kpoints, not both"),
                    },
                ),
            );
        },
        (Some(p), None) => p,
        (None, Some(l)) => l,
        (None, None) => {
            let mut v = Vec::new();
            v.push(gamma);
            proof {
                assert(v@ =~= seq![gamma]);
            }
            v
        },
    };
    if kpoints.len() == 0 {
        return Err(Error::EmptyKPointPath);
    }
    Ok(kpoints)
}

/// Law: a 3D run after a converged SCF takes the k-points it is given, unchanged:
/// the path's points when only a path is given, the explicit list when only a list
/// is given, and the Gamma point alone when neither is; an empty choice is refused.
pub proof fn lemma_band_kpoints_given<K>(
    path: Option<Seq<K>>,
    explicit: Option<Seq<K>>,
    gamma: K,
    r: Result<Seq<K>>,
)
    requires
        band_kpoints_outcome(3, true, path, explicit, gamma, r),
    ensures
        path is Some && explicit is None && path->0.len() > 0 ==> r == Ok::<Seq<K>, Error>(path->0),
        explicit is Some && path is None && explicit->0.len() > 0 ==> r == Ok::<Seq<K>, Error>(
            explicit->0,
        ),
        path is None && explicit is None ==> (r is Ok && r->Ok_0.len() == 1 && r->Ok_0[0] == gamma),
        path is Some && explicit is None && path->0.len() == 0 ==> (r matches Err(Error::EmptyKPointPath)),
        explicit is Some && path is None && explicit->0.len() == 0 ==> (r matches Err(Error::EmptyKPointPath)),
        path is Some && explicit is Some ==> r is Err,
{
}

} // verus!
