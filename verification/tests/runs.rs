use rustyscf::band::{band_kpoints, resolve_linalg_backend, BandLinalgBackend};
use rustyscf::cell::CellBuilder;
use rustyscf::decimal::push_decimal;
use rustyscf::error::{Error, InputError};
use rustyscf::kpoints::KMesh;
use rustyscf::linalg::eigen_band_count;
use rustyscf::scf::{check_scf_inputs, Method};
use rustyscf::util::bitset::zeroed;

fn minimal_cell() -> rustyscf::cell::Cell {
    CellBuilder::new()
        .with_atom("H 0 0 0")
        .with_a([[1.0f64, 0.0, 0.0], [0.0, 1.0, 0.0], [0.0, 0.0, 1.0]].map(|r| r.map(f64::to_bits)))
        .with_basis("gth-dzvp")
        .with_pseudo("gth-pbe")
        .build()
        .unwrap()
}

#[test]
fn zeroed_creates_false_bits() {
    let bits = zeroed(4);
    assert_eq!(bits.len(), 4);
    assert!(bits.not_any());
    assert_eq!(zeroed(0).len(), 0);
}

#[test]
fn kmesh_size() {
    let m = KMesh::new([4, 4, 4]);
    assert_eq!(m.dims, [4, 4, 4]);
    assert_eq!(m.len(), 64);
    assert!(!m.is_empty());
    assert!(KMesh::new([4, 0, 4]).is_empty());
    assert_eq!(KMesh::new([u32::MAX, u32::MAX, u32::MAX]).len(), (u32::MAX as u128).pow(3));
}

#[test]
fn missing_kmesh_is_invalid_parameter() {
    let cell = minimal_cell();
    assert_eq!(Method::KRHF, Method::KRHF);
    match check_scf_inputs(cell.dimension(), None) {
        Err(Error::InputError(InputError::InvalidParameter { parameter, message })) => {
            assert_eq!(parameter, "kmesh");
            assert_eq!(message, "k-point mesh missing");
        }
        other => panic!("unexpected error: {other:?}"),
    }
}

#[test]
fn cell_dimension_not_3_is_rejected() {
    match check_scf_inputs(2, Some(KMesh::new([4, 4, 4]))) {
        Err(Error::InputError(InputError::UnsupportedDimension { dimension })) => {
            assert_eq!(dimension, 2);
        }
        other => panic!("unexpected error: {other:?}"),
    }
}

#[test]
fn empty_kmesh_is_rejected_and_valid_mesh_passes() {
    let cell = minimal_cell();
    match check_scf_inputs(cell.dimension(), Some(KMesh::new([0, 4, 4]))) {
        Err(Error::InputError(InputError::InvalidParameter { parameter, message })) => {
            assert_eq!(parameter, "kmesh");
            assert_eq!(message, "k-point mesh cannot be empty");
        }
        other => panic!("unexpected error: {other:?}"),
    }
    assert_eq!(
        check_scf_inputs(cell.dimension(), Some(KMesh::new([4, 4, 4]))).unwrap(),
        KMesh::new([4, 4, 4])
    );
}

#[test]
fn empty_kpath_is_rejected() {
    let res = band_kpoints(3, true, Some(Vec::<[f64; 3]>::new()), None, [0.0; 3]);
    assert!(matches!(res, Err(Error::EmptyKPointPath)));
}

#[test]
fn band_backend_resolution() {
    assert_eq!(resolve_linalg_backend(BandLinalgBackend::Auto, true), BandLinalgBackend::Cubecl);
    assert_eq!(resolve_linalg_backend(BandLinalgBackend::Auto, false), BandLinalgBackend::Cpu);
    assert_eq!(resolve_linalg_backend(BandLinalgBackend::Cpu, true), BandLinalgBackend::Cpu);
    assert_eq!(resolve_linalg_backend(BandLinalgBackend::Cubecl, false), BandLinalgBackend::Cubecl);
}

#[test]
fn band_kpoint_selection() {
    assert_eq!(band_kpoints(3, true, Some(vec![1, 2]), None, 0).unwrap(), vec![1, 2]);
    assert_eq!(band_kpoints(3, true, None, Some(vec![5]), 0).unwrap(), vec![5]);
    assert_eq!(band_kpoints(3, true, None::<Vec<i32>>, None, 7).unwrap(), vec![7]);
    assert!(matches!(band_kpoints(3, true, Some(Vec::<i32>::new()), None, 0), Err(Error::EmptyKPointPath)));
    match band_kpoints(3, true, Some(vec![1]), Some(vec![2]), 0) {
        Err(Error::InputError(InputError::InvalidParameter { parameter, message })) => {
            assert_eq!(parameter, "kpoints");
            assert_eq!(message, "use either kpath or explicit kpoints, not both");
        }
        other => panic!("unexpected: {other:?}"),
    }
    match band_kpoints(3, false, Some(vec![1]), None, 0) {
        Err(Error::ScfNotConverged { message }) => {
            assert_eq!(message, "call BandStructureBuilder after SCF convergence")
        }
        other => panic!("unexpected: {other:?}"),
    }
    match band_kpoints(2, true, Some(vec![1]), None, 0) {
        Err(Error::InputError(InputError::UnsupportedDimension { dimension })) => {
            assert_eq!(dimension, 2)
        }
        other => panic!("unexpected: {other:?}"),
    }
}

#[test]
fn decimal_text() {
    for n in [0usize, 7, 10, 99, 100, 2048, 123456789, usize::MAX] {
        let mut s = String::from("n=");
        push_decimal(&mut s, n);
        assert_eq!(s, format!("n={n}"));
    }
}

#[test]
fn input_errors_convert() {
    let e: Error = InputError::UnsupportedDimension { dimension: 1 }.into();
    assert!(matches!(e, Error::InputError(InputError::UnsupportedDimension { dimension: 1 })));
}

#[test]
fn eigen_band_count_defaults_to_every_band() {
    assert_eq!(eigen_band_count(4, 4, 4, 4, None).unwrap(), 4);
}

#[test]
fn eigen_band_count_caps_at_dimension() {
    assert_eq!(eigen_band_count(3, 3, 3, 3, Some(2)).unwrap(), 2);
    assert_eq!(eigen_band_count(3, 3, 3, 3, Some(10)).unwrap(), 3);
    assert_eq!(eigen_band_count(0, 0, 0, 0, Some(1)).unwrap(), 0);
}

#[test]
fn eigen_band_count_rejects_bad_shapes() {
    for (fr, fc, or, oc) in [(2, 3, 2, 2), (2, 2, 3, 2), (2, 2, 3, 3)] {
        match eigen_band_count(fr, fc, or, oc, None) {
            Err(Error::EigenFailure { message }) => {
                assert_eq!(message, "non-square or dimension-mismatched matrices")
            }
            other => panic!("unexpected {:?}", other),
        }
    }
}
