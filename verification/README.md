# rustyscf

Library-first crate for periodic band-structure workflows (KRHF SCF on a k-mesh,
band energies along k-paths), built on CubeCL runtimes.

- `src/` is the verified library (Verus): atom-specification parsing and cell
  construction, backend configuration, memory-footprint estimates and the byte
  accounting of device allocations, the argument checks and index arithmetic of
  the host FFT/GEMM kernels, the shape check of the band eigenproblem, and what SCF and band-structure runs decide before
  they compute. Floating-point values that pass through (lattice vectors, an
  energy, a k-point in an error) are held as `f64` bit patterns.
- `app/` is the host layer: the floating-point numerics (integrals, eigensolver,
  SCF loop, band structure, FFT and GEMM bodies), the CubeCL CPU runtime, the
  error types with `Display`, and logging.
- `tests/` exercises the library.
