//! k-point meshes.
use vstd::prelude::*;

verus! {

/// Uniform k-point mesh for SCF.
#[derive(Clone, Copy, Debug, PartialEq, Eq)]
pub struct KMesh {
    pub dims: [u32; 3],
}

/// Number of points of a mesh with dimensions `dims`.
pub open spec fn mesh_points(dims: [u32; 3]) -> int {
    dims[0] * dims[1] * dims[2]
}

impl KMesh {
    pub fn new(dims: [u32; 3]) -> (r: Self)
        ensures
            r.dims == dims,
    {
        KMesh { dims }
    }

    /// Number of points of the mesh (the product of its dimensions).
    pub fn len(&self) -> (r: u128)
        ensures
            r == mesh_points(self.dims),
    {
        let a = self.dims[0] as u128;
        let b = self.dims[1] as u128;
        let c = self.dims[2] as u128;
        proof {
            assert(a * b <= 0xffff_ffff_ffff_ffff_ffff_ffffu128) by (nonlinear_arith)
                requires
                    a <= 0xffff_ffffu128,
                    b <= 0xffff_ffffu128,
            ;
            assert(a * b * c <= 0xffff_ffff_ffff_ffff_ffff_ffff_ffff_ffffu128) by (nonlinear_arith)
                requires
                    a * b <= 0xffff_ffff_ffff_ffff_ffff_ffffu128,
                    c <= 0xffff_ffffu128,
            ;
        }
        a * b * c
    }

    /// Whether the mesh has no points (some dimension is 0).
    pub fn is_empty(&self) -> (r: bool)
        ensures
            r == (mesh_points(self.dims) == 0),
    {
        proof {
            let (a, b, c) = (self.dims[0] as int, self.dims[1] as int, self.dims[2] as int);
            assert((a * b * c == 0) == (a == 0 || b == 0 || c == 0)) by (nonlinear_arith)
                requires
                    a >= 0,
                    b >= 0,
                    c >= 0,
            ;
        }
        self.dims[0] == 0 || self.dims[1] == 0 || self.dims[2] == 0
    }
}

/// Law: the number of points of a mesh does not depend on the order of its
/// dimensions, a mesh with every other dimension 1 has as many points as its one
/// dimension says, and a mesh has no point exactly when some dimension is 0.
pub proof fn lemma_mesh_points(a: u32, b: u32, c: u32)
    ensures
        mesh_points([a, b, c]) == mesh_points([b, c, a]),
        mesh_points([a, b, c]) == mesh_points([b, a, c]),
        mesh_points([a, 1, 1]) == a,
        mesh_points([a, b, c]) == a * mesh_points([1, b, c]),
        (mesh_points([a, b, c]) == 0) <==> (a == 0 || b == 0 || c == 0),
{
    let (x, y, z) = (a as int, b as int, c as int);
    let one = [a, 1u32, 1u32];
    assert(one[0] == a && one[1] == 1 && one[2] == 1);
    assert(x * 1 * 1 == x) by (nonlinear_arith);
    assert(x * y * z == y * z * x && x * y * z == y * x * z && x * y * z == x * (1 * y * z)) by (nonlinear_arith);
    assert((x * y * z == 0) == (x == 0 || y == 0 || z == 0)) by (nonlinear_arith)
        requires
            x >= 0,
            y >= 0,
            z >= 0,
    ;
}

} // verus!
