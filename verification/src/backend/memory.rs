//! Memory-footprint estimates and the byte accounting of backend allocations.
use vstd::prelude::*;
use crate::backend::error::{BackendError, Result};
use crate::backend::types::{DeviceBuffer, DeviceBufferRaw};
use cubecl_runtime::server::Handle as CubeHandle;

verus! {

/// One mebibyte.
pub const MIB: usize = 1048576;

/// Size of one `f64` element in bytes.
pub const F64_BYTES: usize = 8;

/// `a * b`, or `usize::MAX` when the product does not fit.
pub open spec fn sat_mul(a: int, b: int) -> int {
    if a * b > usize::MAX {
        usize::MAX as int
    } else {
        a * b
    }
}

/// `a + b`, or `usize::MAX` when the sum does not fit.
pub open spec fn sat_add(a: int, b: int) -> int {
    if a + b > usize::MAX {
        usize::MAX as int
    } else {
        a + b
    }
}

/// Saturating multiplication of `usize` values.
pub fn saturating_mul(a: usize, b: usize) -> (r: usize)
    ensures
        r == sat_mul(a as int, b as int),
{
    match a.checked_mul(b) {
        Some(p) => p,
        None => usize::MAX,
    }
}

/// Parameters used to estimate memory footprint for an SCF/Band job.
#[derive(Debug, Clone, Copy)]
pub struct ScfMemoryParams {
    /// Number of k-points.
    pub kpoints: usize,
    /// Number of atomic orbitals (AOs) / basis functions.
    pub aos: usize,
    /// Number of bands (occupied + virtual) considered.
    pub bands: usize,
    /// FFT mesh dimensions (nx, ny, nz).
    pub fft_mesh: [usize; 3],
    /// Count of temporary work buffers needed simultaneously.
    pub scratch_buffers: usize,
}

impl ScfMemoryParams {
    /// Parameters with two scratch buffers (density and Fock scratch).
    pub fn new(kpoints: usize, aos: usize, bands: usize, fft_mesh: [usize; 3]) -> (r: Self)
        ensures
            r == (ScfMemoryParams { kpoints, aos, bands, fft_mesh, scratch_buffers: 2 }),
    {
        ScfMemoryParams { kpoints, aos, bands, fft_mesh, scratch_buffers: 2 }
    }

    /// Set the number of scratch buffers; at least one is kept.
    pub fn with_scratch_buffers(self, scratch_buffers: usize) -> (r: Self)
        ensures
            r == (ScfMemoryParams {
                scratch_buffers: if scratch_buffers >= 1 { scratch_buffers } else { 1 },
                ..self
            }),
    {
        let s = if scratch_buffers >= 1 {
            scratch_buffers
        } else {
            1
        };
        ScfMemoryParams { scratch_buffers: s, ..self }
    }
}

/// `n`, or 1 when `n` is 0.
pub open spec fn at_least_one(n: int) -> int {
    if n >= 1 {
        n
    } else {
        1
    }
}

/// Elements of the `kpoints` AO x AO matrices (saturating).
pub open spec fn ao_matrix_elems(p: ScfMemoryParams) -> int {
    sat_mul(sat_mul(p.aos as int, p.aos as int), at_least_one(p.kpoints as int))
}

/// Elements of the band amplitudes over all k-points (saturating).
pub open spec fn band_matrix_elems(p: ScfMemoryParams) -> int {
    sat_mul(sat_mul(p.bands as int, p.aos as int), at_least_one(p.kpoints as int))
}

/// Elements of the split-complex FFT grid (saturating).
pub open spec fn fft_elems(p: ScfMemoryParams) -> int {
    sat_mul(
        sat_mul(sat_mul(sat_mul(1, p.fft_mesh[0] as int), p.fft_mesh[1] as int), p.fft_mesh[2] as int),
        2,
    )
}

/// Elements of the scratch buffers (saturating).
pub open spec fn scratch_elems(p: ScfMemoryParams) -> int {
    sat_mul(ao_matrix_elems(p), at_least_one(p.scratch_buffers as int))
}

/// Bytes of all `f64` elements of an SCF workload (saturating at every step).
pub open spec fn total_bytes(p: ScfMemoryParams) -> int {
    sat_mul(
        sat_add(sat_add(sat_add(ao_matrix_elems(p), band_matrix_elems(p)), fft_elems(p)), scratch_elems(p)),
        F64_BYTES as int,
    )
}

/// `n` bytes in mebibytes, rounded up.
pub open spec fn mib_ceil(n: int) -> int {
    (n + (MIB - 1)) / (MIB as int)
}

/// Bytes of an SCF workload: AO matrices per k-point, band amplitudes, the
/// split-complex FFT grid and the scratch buffers, each an `f64`; every product
/// and sum saturates at `usize::MAX`.
pub fn scf_memory_bytes(params: &ScfMemoryParams) -> (r: usize)
    ensures
        r == total_bytes(*params),
{
    let k = if params.kpoints >= 1 {
        params.kpoints
    } else {
        1
    };
    let ao_mat = saturating_mul(saturating_mul(params.aos, params.aos), k);
    let band_mat = saturating_mul(saturating_mul(params.bands, params.aos), k);
    let mut cells: usize = 1;
    let mut i: usize = 0;
    while i < 3
        invariant
            i <= 3,
            cells == (if i == 0 {
                1int
            } else if i == 1 {
                sat_mul(1, params.fft_mesh[0] as int)
            } else if i == 2 {
                sat_mul(sat_mul(1, params.fft_mesh[0] as int), params.fft_mesh[1] as int)
            } else {
                sat_mul(
                    sat_mul(sat_mul(1, params.fft_mesh[0] as int), params.fft_mesh[1] as int),
                    params.fft_mesh[2] as int,
                )
            }),
        decreases 3 - i,
    {
        cells = saturating_mul(cells, params.fft_mesh[i]);
        i = i + 1;
    }
    let fft_cells = saturating_mul(cells, 2);
    let sb = if params.scratch_buffers >= 1 {
        params.scratch_buffers
    } else {
        1
    };
    let scratch = saturating_mul(ao_mat, sb);
    let total_f64 = ao_mat.saturating_add(band_mat).saturating_add(fft_cells).saturating_add(
        scratch,
    );
    saturating_mul(total_f64, F64_BYTES)
}

/// Rough upper bound for an SCF workload in MB: the bytes of [`scf_memory_bytes`]
/// rounded up to whole mebibytes. A saturated byte total rounds up too, so the
/// estimate never overflows and never reports a saturated workload as small.
pub fn estimate_scf_memory_mb(params: &ScfMemoryParams) -> (r: usize)
    ensures
        r == mib_ceil(total_bytes(*params)),
{
    let total = scf_memory_bytes(params);
    let whole = total / MIB;
    let part = total % MIB;
    proof {
        let t = total as int;
        let m = MIB as int;
        assert(t == whole * m + part && 0 <= part < m) by (nonlinear_arith)
            requires
                whole == t / m,
                part == t % m,
                t >= 0,
                m > 0,
        ;
        if part == 0 {
            assert((t + (m - 1)) / m == whole) by (nonlinear_arith)
                requires
                    t == whole * m,
                    m > 0,
            ;
        } else {
            assert((t + (m - 1)) / m == whole + 1) by (nonlinear_arith)
                requires
                    t == whole * m + part,
                    0 < part < m,
                    m > 0,
            ;
        }
        assert(whole <= usize::MAX / MIB);
    }
    if part == 0 {
        whole
    } else {
        whole + 1
    }
}

/// Law: the estimate never under-counts. It covers every byte of the workload
/// and exceeds it by less than one mebibyte.
pub proof fn lemma_estimate_covers(p: ScfMemoryParams)
    ensures
        mib_ceil(total_bytes(p)) * (MIB as int) >= total_bytes(p),
        mib_ceil(total_bytes(p)) * (MIB as int) < total_bytes(p) + (MIB as int),
{
    let t = total_bytes(p);
    assert(t >= 0);
    let q = (t + (MIB - 1)) / (MIB as int);
    let r = (t + (MIB - 1)) % (MIB as int);
    assert(t + (MIB - 1) == q * (MIB as int) + r && 0 <= r < MIB as int) by (nonlinear_arith)
        requires
            q == (t + (MIB - 1)) / (MIB as int),
            r == (t + (MIB - 1)) % (MIB as int),
            t >= 0,
    ;
}

/// A chain of two saturating products is the plain product, capped at `usize::MAX`.
proof fn lemma_sat_mul_chain(a: int, b: int, c: int)
    requires
        0 <= a,
        0 <= b,
        0 <= c,
    ensures
        sat_mul(sat_mul(a, b), c) == (if a * b * c <= usize::MAX { a * b * c } else { usize::MAX as int }),
{
    if c == 0 {
        assert(a * b * c == 0) by (nonlinear_arith)
            requires
                c == 0,
        ;
        lemma_sat_mul_nonneg(a, b);
        assert(sat_mul(a, b) * c == 0) by (nonlinear_arith)
            requires
                c == 0,
        ;
    } else if a * b <= usize::MAX {
        assert(sat_mul(a, b) == a * b);
    } else {
        assert(a * b * c >= a * b) by (nonlinear_arith)
            requires
                a * b >= 0,
                c >= 1,
        ;
        assert((usize::MAX as int) * c >= usize::MAX as int) by (nonlinear_arith)
            requires
                c >= 1,
        ;
    }
}

/// Law: the FFT term counts the real and imaginary part of every point of the
/// whole `fft_mesh[0] x fft_mesh[1] x fft_mesh[2]` grid, capped at `usize::MAX`.
pub proof fn lemma_fft_elems_exact(p: ScfMemoryParams)
    ensures
        ({
            let n = 2 * p.fft_mesh[0] * p.fft_mesh[1] * p.fft_mesh[2];
            fft_elems(p) == (if n <= usize::MAX { n } else { usize::MAX as int })
        }),
{
    let f0 = p.fft_mesh[0] as int;
    let f1 = p.fft_mesh[1] as int;
    let f2 = p.fft_mesh[2] as int;
    assert(sat_mul(1, f0) == f0);
    lemma_sat_mul_chain(f0, f1, f2);
    let c = sat_mul(sat_mul(f0, f1), f2);
    let q = f0 * f1 * f2;
    assert(q >= 0) by (nonlinear_arith)
        requires
            q == f0 * f1 * f2,
            f0 >= 0,
            f1 >= 0,
            f2 >= 0,
    ;
    assert(2 * p.fft_mesh[0] * p.fft_mesh[1] * p.fft_mesh[2] == q * 2) by (nonlinear_arith)
        requires
            q == f0 * f1 * f2,
            f0 == p.fft_mesh[0],
            f1 == p.fft_mesh[1],
            f2 == p.fft_mesh[2],
    ;
}

/// Law: when nothing saturates, the byte total is exactly eight bytes for each of
/// the `aos * aos` entries per k-point, the `bands * aos` amplitudes per k-point,
/// the two parts of every FFT grid point and the `aos * aos` entries per k-point of
/// each scratch buffer (a count of 0 k-points or scratch buffers counts as 1).
pub proof fn lemma_total_bytes_exact(p: ScfMemoryParams)
    requires
        ({
            let k: int = if p.kpoints >= 1 { p.kpoints as int } else { 1 };
            let s: int = if p.scratch_buffers >= 1 { p.scratch_buffers as int } else { 1 };
            8 * (p.aos * p.aos * k + p.bands * p.aos * k + 2 * p.fft_mesh[0] * p.fft_mesh[1]
                * p.fft_mesh[2] + p.aos * p.aos * k * s) <= usize::MAX
        }),
    ensures
        ({
            let k: int = if p.kpoints >= 1 { p.kpoints as int } else { 1 };
            let s: int = if p.scratch_buffers >= 1 { p.scratch_buffers as int } else { 1 };
            total_bytes(p) == 8 * (p.aos * p.aos * k + p.bands * p.aos * k + 2 * p.fft_mesh[0]
                * p.fft_mesh[1] * p.fft_mesh[2] + p.aos * p.aos * k * s)
        }),
{
    let k: int = if p.kpoints >= 1 { p.kpoints as int } else { 1 };
    let s: int = if p.scratch_buffers >= 1 { p.scratch_buffers as int } else { 1 };
    let aos = p.aos as int;
    let bands = p.bands as int;
    let a = aos * aos * k;
    let b = bands * aos * k;
    let f = 2 * p.fft_mesh[0] * p.fft_mesh[1] * p.fft_mesh[2];
    let sc = aos * aos * k * s;
    assert(a >= 0 && b >= 0 && f >= 0 && sc >= 0) by (nonlinear_arith)
        requires
            aos >= 0,
            bands >= 0,
            k >= 1,
            s >= 1,
            p.fft_mesh[0] >= 0,
            p.fft_mesh[1] >= 0,
            p.fft_mesh[2] >= 0,
            a == aos * aos * k,
            b == bands * aos * k,
            f == 2 * p.fft_mesh[0] * p.fft_mesh[1] * p.fft_mesh[2],
            sc == aos * aos * k * s,
    ;
    assert(at_least_one(p.kpoints as int) == k);
    assert(at_least_one(p.scratch_buffers as int) == s);
    lemma_sat_mul_chain(aos, aos, k);
    lemma_sat_mul_chain(bands, aos, k);
    lemma_fft_elems_exact(p);
    assert(ao_matrix_elems(p) == a);
    assert(band_matrix_elems(p) == b);
    assert(fft_elems(p) == f);
    assert(scratch_elems(p) == sc);
}

/// Law: a workload whose byte total saturates is estimated at no less than
/// `usize::MAX` bytes in whole mebibytes: saturation never shows as a small estimate.
pub proof fn lemma_estimate_saturated(p: ScfMemoryParams)
    requires
        total_bytes(p) == usize::MAX,
    ensures
        mib_ceil(total_bytes(p)) >= (usize::MAX as int) / (MIB as int),
        mib_ceil(total_bytes(p)) * (MIB as int) >= usize::MAX,
{
    lemma_estimate_covers(p);
    let t = usize::MAX as int;
    let m = MIB as int;
    assert((t + (m - 1)) / m >= t / m) by (nonlinear_arith)
        requires
            m > 0,
            t >= 0,
    ;
}

/// Law: a workload with at least one atomic orbital is estimated at one
/// mebibyte or more.
pub proof fn lemma_estimate_positive(p: ScfMemoryParams)
    requires
        p.aos >= 1,
    ensures
        mib_ceil(total_bytes(p)) >= 1,
{
    assert(p.aos * p.aos >= 1) by (nonlinear_arith)
        requires
            p.aos >= 1,
    ;
    assert(sat_mul(p.aos as int, p.aos as int) >= 1);
    assert(sat_mul(p.aos as int, p.aos as int) * at_least_one(p.kpoints as int) >= 1) by (nonlinear_arith)
        requires
            sat_mul(p.aos as int, p.aos as int) >= 1,
            at_least_one(p.kpoints as int) >= 1,
    ;
    assert(ao_matrix_elems(p) >= 1);
    lemma_sat_mul_nonneg(p.bands as int, p.aos as int);
    lemma_sat_mul_nonneg(sat_mul(p.bands as int, p.aos as int), at_least_one(p.kpoints as int));
    lemma_sat_mul_nonneg(1, p.fft_mesh[0] as int);
    lemma_sat_mul_nonneg(sat_mul(1, p.fft_mesh[0] as int), p.fft_mesh[1] as int);
    lemma_sat_mul_nonneg(
        sat_mul(sat_mul(1, p.fft_mesh[0] as int), p.fft_mesh[1] as int),
        p.fft_mesh[2] as int,
    );
    lemma_sat_mul_nonneg(
        sat_mul(sat_mul(sat_mul(1, p.fft_mesh[0] as int), p.fft_mesh[1] as int), p.fft_mesh[2] as int),
        2,
    );
    lemma_sat_mul_nonneg(ao_matrix_elems(p), at_least_one(p.scratch_buffers as int));
    let sum = sat_add(sat_add(sat_add(ao_matrix_elems(p), band_matrix_elems(p)), fft_elems(p)), scratch_elems(p));
    assert(sum >= 1);
    assert(sat_mul(sum, 8) >= 1) by (nonlinear_arith)
        requires
            sum >= 1,
    ;
    lemma_estimate_covers(p);
}

proof fn lemma_sat_mul_mono(a: int, b: int, c: int, d: int)
    requires
        0 <= a <= c,
        0 <= b <= d,
    ensures
        sat_mul(a, b) <= sat_mul(c, d),
{
    assert(a * b <= c * d) by (nonlinear_arith)
        requires
            0 <= a <= c,
            0 <= b <= d,
    ;
}

proof fn lemma_at_least_one_mono(a: int, c: int)
    requires
        a <= c,
    ensures
        1 <= at_least_one(a) <= at_least_one(c),
{
}

/// Law: the estimate is monotone: a workload that is at least as large in every
/// parameter is estimated at least as high.
pub proof fn lemma_estimate_monotone(p: ScfMemoryParams, q: ScfMemoryParams)
    requires
        p.kpoints <= q.kpoints,
        p.aos <= q.aos,
        p.bands <= q.bands,
        p.fft_mesh[0] <= q.fft_mesh[0],
        p.fft_mesh[1] <= q.fft_mesh[1],
        p.fft_mesh[2] <= q.fft_mesh[2],
        p.scratch_buffers <= q.scratch_buffers,
    ensures
        total_bytes(p) <= total_bytes(q),
        mib_ceil(total_bytes(p)) <= mib_ceil(total_bytes(q)),
{
    lemma_at_least_one_mono(p.kpoints as int, q.kpoints as int);
    lemma_at_least_one_mono(p.scratch_buffers as int, q.scratch_buffers as int);
    lemma_sat_mul_mono(p.aos as int, p.aos as int, q.aos as int, q.aos as int);
    lemma_sat_mul_nonneg(p.aos as int, p.aos as int);
    lemma_sat_mul_mono(
        sat_mul(p.aos as int, p.aos as int),
        at_least_one(p.kpoints as int),
        sat_mul(q.aos as int, q.aos as int),
        at_least_one(q.kpoints as int),
    );
    lemma_sat_mul_mono(p.bands as int, p.aos as int, q.bands as int, q.aos as int);
    lemma_sat_mul_nonneg(p.bands as int, p.aos as int);
    lemma_sat_mul_mono(
        sat_mul(p.bands as int, p.aos as int),
        at_least_one(p.kpoints as int),
        sat_mul(q.bands as int, q.aos as int),
        at_least_one(q.kpoints as int),
    );
    let f1p = sat_mul(1, p.fft_mesh[0] as int);
    let f1q = sat_mul(1, q.fft_mesh[0] as int);
    lemma_sat_mul_mono(1, p.fft_mesh[0] as int, 1, q.fft_mesh[0] as int);
    lemma_sat_mul_nonneg(1, p.fft_mesh[0] as int);
    let f2p = sat_mul(f1p, p.fft_mesh[1] as int);
    let f2q = sat_mul(f1q, q.fft_mesh[1] as int);
    lemma_sat_mul_mono(f1p, p.fft_mesh[1] as int, f1q, q.fft_mesh[1] as int);
    lemma_sat_mul_nonneg(f1p, p.fft_mesh[1] as int);
    let f3p = sat_mul(f2p, p.fft_mesh[2] as int);
    let f3q = sat_mul(f2q, q.fft_mesh[2] as int);
    lemma_sat_mul_mono(f2p, p.fft_mesh[2] as int, f2q, q.fft_mesh[2] as int);
    lemma_sat_mul_nonneg(f2p, p.fft_mesh[2] as int);
    lemma_sat_mul_mono(f3p, 2, f3q, 2);
    lemma_sat_mul_nonneg(f3p, 2);
    lemma_sat_mul_nonneg(sat_mul(p.aos as int, p.aos as int), at_least_one(p.kpoints as int));
    lemma_sat_mul_mono(
        ao_matrix_elems(p),
        at_least_one(p.scratch_buffers as int),
        ao_matrix_elems(q),
        at_least_one(q.scratch_buffers as int),
    );
    lemma_sat_mul_nonneg(sat_mul(p.bands as int, p.aos as int), at_least_one(p.kpoints as int));
    lemma_sat_mul_nonneg(ao_matrix_elems(p), at_least_one(p.scratch_buffers as int));
    let sp = sat_add(sat_add(sat_add(ao_matrix_elems(p), band_matrix_elems(p)), fft_elems(p)), scratch_elems(p));
    let sq = sat_add(sat_add(sat_add(ao_matrix_elems(q), band_matrix_elems(q)), fft_elems(q)), scratch_elems(q));
    assert(0 <= sp <= sq);
    lemma_sat_mul_mono(sp, 8, sq, 8);
    let tp = total_bytes(p);
    let tq = total_bytes(q);
    vstd::arithmetic::div_mod::lemma_div_is_ordered(tp + (MIB - 1), tq + (MIB - 1), MIB as int);
}

proof fn lemma_sat_mul_nonneg(a: int, b: int)
    requires
        a >= 0,
        b >= 0,
    ensures
        sat_mul(a, b) >= 0,
{
    assert(a * b >= 0) by (nonlinear_arith)
        requires
            a >= 0,
            b >= 0,
    ;
}

/// Mathematical model of a memory accountant: bytes in use and the byte limit.
pub ghost struct AccountantView {
    pub used: nat,
    pub max: nat,
}

/// Usage after reserving `bytes` more (saturating at `usize::MAX`).
pub open spec fn reserved_usage(used: int, bytes: int) -> int {
    sat_add(used, bytes)
}

/// Whether reserving `bytes` more stays within the limit.
pub open spec fn reserve_fits(m: AccountantView, bytes: int) -> bool {
    reserved_usage(m.used as int, bytes) <= m.max
}

/// Usage after releasing `bytes` (wrapping around below zero, as `usize::wrapping_sub`).
pub open spec fn released_usage(used: int, bytes: int) -> int {
    if used >= bytes {
        used - bytes
    } else {
        used - bytes + usize::MAX + 1
    }
}

/// The out-of-memory error for a reservation of `bytes` under the limit `max`.
pub open spec fn oom_error(bytes: int, max: int) -> BackendError {
    BackendError::OutOfMemory {
        requested_mb: Some((bytes / (MIB as int)) as usize),
        limit_mb: Some((max / (MIB as int)) as usize),
    }
}

/// Law: a reservation that fits, released again, leaves the usage where it was
/// (provided the reservation did not saturate at `usize::MAX`).
pub proof fn lemma_reserve_then_release(m: AccountantView, bytes: int)
    requires
        0 <= bytes,
        reserve_fits(m, bytes),
        m.used + bytes <= usize::MAX,
    ensures
        released_usage(reserved_usage(m.used as int, bytes), bytes) == m.used,
{
}

/// Law: a reservation succeeds exactly when the bytes in use plus the bytes asked
/// for stay within the limit, or when they pass `usize::MAX` under a limit of
/// `usize::MAX` (the usage then saturates); a successful one adds the bytes asked
/// for to the usage, saturating at `usize::MAX`.
pub proof fn lemma_reserve_fits_exactly(m: AccountantView, bytes: int)
    requires
        0 <= bytes <= usize::MAX,
        m.used <= usize::MAX,
        m.max <= usize::MAX,
    ensures
        reserve_fits(m, bytes) <==> (m.used + bytes <= m.max || (m.used + bytes > usize::MAX
            && m.max == usize::MAX)),
        m.used + bytes <= usize::MAX ==> reserved_usage(m.used as int, bytes) == m.used + bytes,
        m.used + bytes > usize::MAX ==> reserved_usage(m.used as int, bytes) == usize::MAX,
{
}

/// Law: releasing bytes takes them off the usage; releasing more than is in use
/// wraps around modulo `usize::MAX + 1`, as an atomic `fetch_sub` does.
pub proof fn lemma_release_exact(used: int, bytes: int)
    requires
        0 <= used <= usize::MAX,
        0 <= bytes <= usize::MAX,
    ensures
        bytes <= used ==> released_usage(used, bytes) + bytes == used,
        bytes > used ==> released_usage(used, bytes) + bytes == used + usize::MAX + 1,
        0 <= released_usage(used, bytes) <= usize::MAX,
{
}

/// Law: a refused reservation reports the bytes asked for and the limit, each in
/// whole mebibytes rounded down.
pub proof fn lemma_oom_error_sizes(bytes: int, max: int)
    requires
        0 <= bytes <= usize::MAX,
        0 <= max <= usize::MAX,
    ensures
        oom_error(bytes, max) matches BackendError::OutOfMemory { requested_mb: Some(rq), limit_mb: Some(lm) }
            && rq * (MIB as int) <= bytes < (rq + 1) * (MIB as int)
            && lm * (MIB as int) <= max < (lm + 1) * (MIB as int),
{
    let m = MIB as int;
    assert(bytes / m * m <= bytes < (bytes / m + 1) * m) by (nonlinear_arith)
        requires
            m > 0,
            bytes >= 0,
    ;
    assert(max / m * m <= max < (max / m + 1) * m) by (nonlinear_arith)
        requires
            m > 0,
            max >= 0,
    ;
}

/// Law: usage within the limit stays within it across a reservation, whether it
/// succeeds or not, and across the release of at most what is in use.
pub proof fn lemma_usage_within_limit(m: AccountantView, bytes: int)
    requires
        0 <= bytes,
        m.used <= m.max,
    ensures
        reserve_fits(m, bytes) ==> reserved_usage(m.used as int, bytes) <= m.max,
        bytes <= m.used ==> released_usage(m.used as int, bytes) <= m.max,
{
}

/// Message of the error for writing more values than a buffer holds.
pub open spec fn write_too_long_message() -> Seq<char> {
    "write_f64 length exceeds buffer"@
}

/// Check that `data_len` values fit in `buf`.
pub fn check_write_len<T>(buf: &DeviceBuffer<T>, data_len: usize) -> (r: Result<()>)
    ensures
        data_len <= buf.len_spec() ==> r is Ok,
        data_len > buf.len_spec() ==> (r matches Err(BackendError::KernelFailure { message })
            && message@ == write_too_long_message()),
{
    if data_len > buf.len() {
        return Err(
            BackendError::KernelFailure {
                message: String::from_str("write_f64 length exceeds buffer"),
            },
        );
    }
    Ok(())
}

/// Byte accounting of the allocations of one runtime against its limit.
#[derive(Debug)]
pub struct MemoryAccountant {
    used_bytes: usize,
    max_bytes: usize,
}

impl View for MemoryAccountant {
    type V = AccountantView;

    closed spec fn view(&self) -> AccountantView {
        AccountantView { used: self.used_bytes as nat, max: self.max_bytes as nat }
    }
}

impl MemoryAccountant {
    /// An accountant with nothing in use and a limit of `max_memory_mb` mebibytes
    /// (saturating at `usize::MAX` bytes).
    pub fn new(max_memory_mb: usize) -> (r: Self)
        ensures
            r@ == (AccountantView { used: 0, max: sat_mul(max_memory_mb as int, MIB as int) as nat }),
    {
        MemoryAccountant { used_bytes: 0, max_bytes: saturating_mul(max_memory_mb, MIB) }
    }

    /// Byte limit.
    pub fn max_bytes(&self) -> (r: usize)
        ensures
            r == self@.max,
    {
        self.max_bytes
    }

    /// Bytes in use.
    pub fn used_bytes(&self) -> (r: usize)
        ensures
            r == self@.used,
    {
        self.used_bytes
    }

    /// Reserve `bytes`: succeeds, and counts them, exactly when the usage after
    /// the reservation (saturating) stays within the limit; otherwise reports the
    /// request and the limit in whole mebibytes and changes nothing.
    pub fn try_reserve(&mut self, bytes: usize) -> (r: Result<()>)
        ensures
            final(self)@.max == old(self)@.max,
            reserve_fits(old(self)@, bytes as int) ==> r is Ok && final(self)@.used
                == reserved_usage(old(self)@.used as int, bytes as int),
            !reserve_fits(old(self)@, bytes as int) ==> r == Err::<(), BackendError>(
                oom_error(bytes as int, old(self)@.max as int),
            ) && final(self)@ == old(self)@,
    {
        let next = self.used_bytes.saturating_add(bytes);
        if next > self.max_bytes {
            return Err(
                BackendError::OutOfMemory {
                    requested_mb: Some(bytes / MIB),
                    limit_mb: Some(self.max_bytes / MIB),
                },
            );
        }
        self.used_bytes = next;
        Ok(())
    }

    /// Release `bytes` (wrapping, as `AtomicUsize::fetch_sub` does).
    pub fn release(&mut self, bytes: usize)
        ensures
            final(self)@ == (AccountantView {
                used: released_usage(old(self)@.used as int, bytes as int) as nat,
                ..old(self)@
            }),
    {
        self.used_bytes = self.used_bytes.wrapping_sub(bytes);
    }

    /// Bytes in use, in whole mebibytes (rounded down).
    pub fn used_memory_mb(&self) -> (r: usize)
        ensures
            r == self@.used / (MIB as nat),
    {
        self.used_bytes / MIB
    }

    /// Reserve room for `len` `f64` elements and give back the bytes reserved.
    /// A byte count that overflows `usize` is an out-of-memory error without a
    /// requested size.
    pub fn reserve_f64(&mut self, len: usize) -> (r: Result<usize>)
        ensures
            final(self)@.max == old(self)@.max,
            len * F64_BYTES > usize::MAX ==> r == Err::<usize, BackendError>(
                BackendError::OutOfMemory {
                    requested_mb: None,
                    limit_mb: Some((old(self)@.max / (MIB as nat)) as usize),
                },
            ) && final(self)@ == old(self)@,
            len * F64_BYTES <= usize::MAX ==> {
                let bytes = len * F64_BYTES;
                &&& reserve_fits(old(self)@, bytes) ==> r == Ok::<usize, BackendError>(
                    bytes as usize,
                ) && final(self)@.used == reserved_usage(old(self)@.used as int, bytes)
                &&& !reserve_fits(old(self)@, bytes) ==> r == Err::<usize, BackendError>(
                    oom_error(bytes, old(self)@.max as int),
                ) && final(self)@ == old(self)@
            },
    {
        let bytes = match len.checked_mul(F64_BYTES) {
            Some(b) => b,
            None => {
                return Err(
                    BackendError::OutOfMemory {
                        requested_mb: None,
                        limit_mb: Some(self.max_bytes / MIB),
                    },
                );
            },
        };
        match self.try_reserve(bytes) {
            Ok(()) => Ok(bytes),
            Err(e) => Err(e),
        }
    }

    /// Account for writing `data_len` `f64` values into `buf` whose storage has
    /// been replaced by `handle`. When the byte size changes, the old bytes are
    /// released and the new ones reserved; on a failed reservation the error is
    /// returned with the buffer left as it was (its old bytes stay released).
    /// On success the buffer holds `handle` and, if the size changed, the new sizes.
    pub fn commit_write_f64<T>(
        &mut self,
        buf: &mut DeviceBuffer<T>,
        data_len: usize,
        handle: CubeHandle,
    ) -> (r: Result<()>)
        requires
            data_len * F64_BYTES <= usize::MAX,
        ensures
            final(self)@.max == old(self)@.max,
            ({
                let bytes = data_len * F64_BYTES;
                let old_bytes = old(buf).bytes_spec() as int;
                let after_release = released_usage(old(self)@.used as int, old_bytes);
                let mid = AccountantView { used: after_release as nat, max: old(self)@.max };
                if bytes == old_bytes {
                    &&& r is Ok
                    &&& final(self)@ == old(self)@
                    &&& final(buf).raw_spec() == DeviceBufferRaw::CubeHandle(handle)
                    &&& final(buf).len_spec() == old(buf).len_spec()
                    &&& final(buf).bytes_spec() == old(buf).bytes_spec()
                } else if reserve_fits(mid, bytes) {
                    &&& r is Ok
                    &&& final(self)@.used == reserved_usage(after_release, bytes)
                    &&& final(buf).raw_spec() == DeviceBufferRaw::CubeHandle(handle)
                    &&& final(buf).len_spec() == data_len
                    &&& final(buf).bytes_spec() == bytes
                } else {
                    &&& r == Err::<(), BackendError>(oom_error(bytes, old(self)@.max as int))
                    &&& final(self)@ == mid
                    &&& *final(buf) == *old(buf)
                }
            }),
            final(buf).usage_spec() == old(buf).usage_spec(),
    {
        let bytes = data_len * F64_BYTES;
        if bytes != buf.bytes() {
            self.release(buf.bytes());
            match self.try_reserve(bytes) {
                Ok(()) => {},
                Err(e) => {
                    return Err(e);
                },
            }
            buf.set_sizes(data_len, bytes);
        }
        buf.set_raw(DeviceBufferRaw::CubeHandle(handle));
        Ok(())
    }
}

} // verus!
