//! Index arithmetic and argument checks of the host kernels (naive 3D FFT and GEMM).
//!
//! The kernels themselves compute with floating-point numbers; what they decide
//! before computing (whether the grid or the matrices are acceptable, and where
//! an element lives) stands here.
use vstd::prelude::*;
use crate::backend::error::{BackendError, Result};
use crate::decimal::{decimal, push_decimal};

verus! {

/// Largest grid (in elements) that the naive host FFT accepts.
pub const FFT_MAX_ELEMENTS: usize = 2048;

/// Row-major position of `(x, y, z)` in a grid with `ny * nz` elements per `x` plane.
pub open spec fn index3_spec(x: int, y: int, z: int, ny: int, nz: int) -> int {
    (x * ny + y) * nz + z
}

/// Row-major position of `(x, y, z)` in a grid with `ny * nz` elements per `x` plane.
pub fn index3(x: usize, y: usize, z: usize, ny: usize, nz: usize) -> (r: usize)
    requires
        x * ny + y <= usize::MAX,
        index3_spec(x as int, y as int, z as int, ny as int, nz as int) <= usize::MAX,
    ensures
        r == index3_spec(x as int, y as int, z as int, ny as int, nz as int),
{
    proof {
        assert(0 <= x * ny) by (nonlinear_arith);
        assert(0 <= (x * ny + y) * nz) by (nonlinear_arith)
            requires
                0 <= x * ny + y,
                0 <= nz,
        ;
    }
    (x * ny + y) * nz + z
}

/// Within an `nx * ny * nz` grid, `index3` lands inside the grid.
pub proof fn lemma_index3_in_grid(x: int, y: int, z: int, nx: int, ny: int, nz: int)
    requires
        0 <= x < nx,
        0 <= y < ny,
        0 <= z < nz,
    ensures
        0 <= index3_spec(x, y, z, ny, nz) < nx * ny * nz,
{
    assert(0 <= x * ny + y < (x + 1) * ny) by (nonlinear_arith)
        requires
            0 <= x,
            0 <= y < ny,
    ;
    assert((x + 1) * ny <= nx * ny) by (nonlinear_arith)
        requires
            x + 1 <= nx,
            0 <= ny,
    ;
    let a = x * ny + y;
    assert(0 <= a * nz + z < (a + 1) * nz) by (nonlinear_arith)
        requires
            0 <= a,
            0 <= z < nz,
    ;
    assert((a + 1) * nz <= (nx * ny) * nz) by (nonlinear_arith)
        requires
            a + 1 <= nx * ny,
            0 <= nz,
    ;
    assert((nx * ny) * nz == nx * ny * nz) by (nonlinear_arith);
}

/// Within a grid, distinct points have distinct positions.
pub proof fn lemma_index3_injective(
    x1: int,
    y1: int,
    z1: int,
    x2: int,
    y2: int,
    z2: int,
    ny: int,
    nz: int,
)
    requires
        0 <= x1,
        0 <= x2,
        0 <= y1 < ny,
        0 <= y2 < ny,
        0 <= z1 < nz,
        0 <= z2 < nz,
        index3_spec(x1, y1, z1, ny, nz) == index3_spec(x2, y2, z2, ny, nz),
    ensures
        x1 == x2 && y1 == y2 && z1 == z2,
{
    let a1 = x1 * ny + y1;
    let a2 = x2 * ny + y2;
    assert(0 <= x1 * ny + y1 && 0 <= x2 * ny + y2) by (nonlinear_arith)
        requires
            0 <= x1,
            0 <= x2,
            0 <= y1,
            0 <= y2,
            0 <= ny,
    ;
    lemma_div_mod_unique(a1, z1, a2, z2, nz);
    lemma_div_mod_unique(x1, y1, x2, y2, ny);
}

proof fn lemma_div_mod_unique(q1: int, r1: int, q2: int, r2: int, d: int)
    requires
        0 <= q1,
        0 <= q2,
        0 <= r1 < d,
        0 <= r2 < d,
        q1 * d + r1 == q2 * d + r2,
    ensures
        q1 == q2 && r1 == r2,
{
    if q1 < q2 {
        assert(q1 * d + d <= q2 * d) by (nonlinear_arith)
            requires
                q1 + 1 <= q2,
                0 <= d,
        ;
    } else if q2 < q1 {
        assert(q2 * d + d <= q1 * d) by (nonlinear_arith)
            requires
                q2 + 1 <= q1,
                0 <= d,
        ;
    }
}

/// Message of the error for a grid too large for the naive host FFT.
pub open spec fn fft_too_large_message(total: nat) -> Seq<char> {
    "cpu_fft3d grid too large for naive path ("@ + decimal(total) + " elements, limit "@
        + decimal(FFT_MAX_ELEMENTS as nat) + ")"@
}

/// Check a grid of `dims` with real and imaginary inputs of `re_len` and `im_len`
/// elements before the naive host FFT: the grid must hold at most
/// [`FFT_MAX_ELEMENTS`] elements and each input at least that many. On success
/// gives the number of grid elements.
pub fn cpu_fft3d_check(dims: [usize; 3], re_len: usize, im_len: usize) -> (r: Result<usize>)
    requires
        dims[0] * dims[1] <= usize::MAX,
        dims[0] * dims[1] * dims[2] <= usize::MAX,
    ensures
        ({
            let total = dims[0] * dims[1] * dims[2];
            if total > FFT_MAX_ELEMENTS {
                r matches Err(BackendError::KernelFailure { message }) && message@
                    == fft_too_large_message(total as nat)
            } else if re_len < total || im_len < total {
                r matches Err(BackendError::KernelFailure { message }) && message@
                    == "cpu_fft3d input length mismatch"@
            } else {
                r == Ok::<usize, BackendError>(total as usize)
            }
        }),
{
    let (nx, ny, nz) = (dims[0], dims[1], dims[2]);
    proof {
        assert(0 <= nx * ny) by (nonlinear_arith);
    }
    let total = nx * ny * nz;
    if total > FFT_MAX_ELEMENTS {
        let mut message = String::from_str("cpu_fft3d grid too large for naive path (");
        push_decimal(&mut message, total);
        message.append(" elements, limit ");
        push_decimal(&mut message, FFT_MAX_ELEMENTS);
        message.append(")");
        return Err(BackendError::KernelFailure { message });
    }
    if re_len < total || im_len < total {
        return Err(
            BackendError::KernelFailure {
                message: String::from_str("cpu_fft3d input length mismatch"),
            },
        );
    }
    Ok(total)
}

/// Message of the error for mismatched GEMM shapes.
pub open spec fn gemm_shape_message(
    a_rows: nat,
    a_cols: nat,
    b_rows: nat,
    b_cols: nat,
    c_rows: nat,
    c_cols: nat,
) -> Seq<char> {
    "gemm shape mismatch: a "@ + decimal(a_rows) + "x"@ + decimal(a_cols) + ", b "@ + decimal(
        b_rows,
    ) + "x"@ + decimal(b_cols) + ", c "@ + decimal(c_rows) + "x"@ + decimal(c_cols)
}

/// Check the shapes of `C = alpha * A * B + beta * C`: `B` must have as many rows
/// as `A` has columns, and `C` as many rows as `A` and as many columns as `B`.
pub fn gemm_shape_check(
    a_rows: usize,
    a_cols: usize,
    b_rows: usize,
    b_cols: usize,
    c_rows: usize,
    c_cols: usize,
) -> (r: Result<()>)
    ensures
        (b_rows == a_cols && c_rows == a_rows && c_cols == b_cols) ==> r is Ok,
        !(b_rows == a_cols && c_rows == a_rows && c_cols == b_cols) ==> (r matches Err(
            BackendError::KernelFailure { message },
        ) && message@ == gemm_shape_message(
            a_rows as nat,
            a_cols as nat,
            b_rows as nat,
            b_cols as nat,
            c_rows as nat,
            c_cols as nat,
        )),
{
    if b_rows != a_cols || c_rows != a_rows || c_cols != b_cols {
        let mut message = String::from_str("gemm shape mismatch: a ");
        push_decimal(&mut message, a_rows);
        message.append("x");
        push_decimal(&mut message, a_cols);
        message.append(", b ");
        push_decimal(&mut message, b_rows);
        message.append("x");
        push_decimal(&mut message, b_cols);
        message.append(", c ");
        push_decimal(&mut message, c_rows);
        message.append("x");
        push_decimal(&mut message, c_cols);
        return Err(BackendError::KernelFailure { message });
    }
    Ok(())
}

/// Check the buffer lengths of an `m x k` by `k x n` GEMM into `m x n`.
pub fn gemm_len_check(a_len: usize, b_len: usize, c_len: usize, m: usize, k: usize, n: usize) -> (r:
    Result<()>)
    requires
        m * k <= usize::MAX,
        k * n <= usize::MAX,
        m * n <= usize::MAX,
    ensures
        (a_len == m * k && b_len == k * n && c_len == m * n) ==> r is Ok,
        !(a_len == m * k && b_len == k * n && c_len == m * n) ==> (r matches Err(
            BackendError::KernelFailure { message },
        ) && message@ == "gemm buffer length mismatch"@),
{
    if a_len != m * k || b_len != k * n || c_len != m * n {
        return Err(
            BackendError::KernelFailure {
                message: String::from_str("gemm buffer length mismatch"),
            },
        );
    }
    Ok(())
}

} // verus!
