use rustyscf::atoms::{element_to_z, is_whitespace, parse_atom_string};
use rustyscf::cell::{basis_nao_guess, CellBuilder, Unit};
use rustyscf::error::{Error, InputError};

fn lattice(a: [[f64; 3]; 3]) -> [[u64; 3]; 3] {
    a.map(|row| row.map(f64::to_bits))
}

#[test]
fn missing_atom_is_invalid_atom_spec() {
    let err = CellBuilder::new()
        .with_a(lattice([[0.0; 3]; 3]))
        .build()
        .unwrap_err();
    match err {
        Error::InputError(InputError::InvalidAtomSpec { message }) => {
            assert!(message.contains("atom"));
        }
        other => panic!("unexpected error: {other:?}"),
    }
}

#[test]
fn missing_lattice_vectors_is_invalid_parameter() {
    let err = CellBuilder::new()
        .with_atom("H 0 0 0")
        .with_basis("gth-dzvp")
        .with_pseudo("gth-pbe")
        .build()
        .unwrap_err();
    match err {
        Error::InputError(InputError::InvalidParameter { parameter, .. }) => {
            assert_eq!(parameter, "a");
        }
        other => panic!("unexpected error: {other:?}"),
    }
}

#[test]
fn missing_basis_is_invalid_parameter() {
    let err = CellBuilder::new()
        .with_atom("H 0 0 0")
        .with_a(lattice([[1.0, 0.0, 0.0], [0.0, 1.0, 0.0], [0.0, 0.0, 1.0]]))
        .with_pseudo("gth-pbe")
        .build()
        .unwrap_err();
    match err {
        Error::InputError(InputError::InvalidParameter { parameter, .. }) => {
            assert_eq!(parameter, "basis");
        }
        other => panic!("unexpected error: {other:?}"),
    }
}

#[test]
fn missing_pseudo_is_invalid_parameter() {
    let err = CellBuilder::new()
        .with_atom("H 0 0 0")
        .with_a(lattice([[1.0, 0.0, 0.0], [0.0, 1.0, 0.0], [0.0, 0.0, 1.0]]))
        .with_basis("gth-dzvp")
        .build()
        .unwrap_err();
    match err {
        Error::InputError(InputError::InvalidParameter { parameter, .. }) => {
            assert_eq!(parameter, "pseudo");
        }
        other => panic!("unexpected error: {other:?}"),
    }
}

#[test]
fn unsupported_dimension_is_rejected() {
    let err = CellBuilder::new()
        .with_atom("H 0 0 0")
        .with_a(lattice([[1.0, 0.0, 0.0], [0.0, 1.0, 0.0], [0.0, 0.0, 1.0]]))
        .with_basis("gth-dzvp")
        .with_pseudo("gth-pbe")
        .with_dimension(2)
        .build()
        .unwrap_err();
    match err {
        Error::InputError(InputError::UnsupportedDimension { dimension }) => {
            assert_eq!(dimension, 2);
        }
        other => panic!("unexpected error: {other:?}"),
    }
}

#[test]
fn cell_getters_expose_fields() {
    let cell = CellBuilder::new()
        .with_atom("H 0 0 0")
        .with_a(lattice([[1.0, 0.0, 0.0], [0.0, 1.0, 0.0], [0.0, 0.0, 1.0]]))
        .with_basis("gth-dzvp")
        .with_pseudo("gth-pbe")
        .build()
        .unwrap();

    assert_eq!(cell.atom(), "H 0 0 0");
    assert_eq!(
        cell.lattice(),
        lattice([[1.0, 0.0, 0.0], [0.0, 1.0, 0.0], [0.0, 0.0, 1.0]])
    );
    assert_eq!(cell.unit(), Unit::Angstrom);
    assert_eq!(cell.basis(), "gth-dzvp");
    assert_eq!(cell.pseudo(), "gth-pbe");
    assert_eq!(cell.spin(), 0);
    assert_eq!(cell.dimension(), 3);
}

fn h2(atom: &str, basis: &str) -> rustyscf::cell::Cell {
    CellBuilder::new()
        .with_atom(atom)
        .with_a(lattice([[2.0, 0.0, 0.0], [0.0, 2.0, 0.0], [0.0, 0.0, 2.0]]))
        .with_unit(Unit::Bohr)
        .with_basis(basis)
        .with_pseudo("gth-pbe")
        .build()
        .unwrap()
}

#[test]
fn cell_counts_atoms_orbitals_and_electrons() {
    let cell = h2("H 0 0 0; H 1 1 1", "gth-dzvp");
    assert_eq!(cell.unit(), Unit::Bohr);
    assert_eq!(cell.num_atoms(), 2);
    assert_eq!(cell.atomic_numbers(), &[1, 1]);
    assert_eq!(cell.nao(), 2);
    assert_eq!(cell.electron_count(), 2);

    let szv = h2("H 0 0 0; H 1 1 1", "gth-szv");
    assert_eq!(szv.nao(), 2);

    let mixed = h2("Li 0 0 0; F 1 1 1; ", "gth-dzvp");
    assert_eq!(mixed.atomic_numbers(), &[3, 9]);
    assert_eq!(mixed.nao(), 2);
    assert_eq!(mixed.electron_count(), 12);
    let clone = mixed.clone();
    assert_eq!(clone.atom(), mixed.atom());
    assert_eq!(clone.nao(), 2);
}

#[test]
fn orbital_guess_is_one_per_atom() {
    let cell = h2("H 0 0 0", "GTH-DZVP");
    assert_eq!(cell.nao(), 1);
    assert_eq!(cell.nao(), cell.num_atoms());
    assert_eq!(basis_nao_guess("Basis GTH-SZV-MOLOPT", &[1, 1, 1]), 3);
    assert_eq!(basis_nao_guess("gth-dzvp", &[1, 1, 1]), 3);
    assert_eq!(basis_nao_guess("GTH-DZVP", &[1, 2]), 2);
    assert_eq!(basis_nao_guess("sto-3g", &[]), 0);
}

#[test]
fn spin_is_subtracted_from_electrons() {
    let cell = CellBuilder::new()
        .with_atom("O 0 0 0")
        .with_a(lattice([[1.0, 0.0, 0.0], [0.0, 1.0, 0.0], [0.0, 0.0, 1.0]]))
        .with_basis("gth-dzvp")
        .with_pseudo("gth-pbe")
        .with_spin(2)
        .build()
        .unwrap();
    assert_eq!(cell.electron_count(), 6);
    let neg = CellBuilder::new()
        .with_atom("O 0 0 0")
        .with_a(lattice([[1.0, 0.0, 0.0], [0.0, 1.0, 0.0], [0.0, 0.0, 1.0]]))
        .with_basis("gth-dzvp")
        .with_pseudo("gth-pbe")
        .with_spin(-1)
        .build()
        .unwrap();
    assert_eq!(neg.electron_count(), 0);
}

#[test]
fn atom_parsing_errors() {
    let err = CellBuilder::new()
        .with_atom("H 0 0 0; Xx 1 1 1")
        .with_a(lattice([[1.0, 0.0, 0.0], [0.0, 1.0, 0.0], [0.0, 0.0, 1.0]]))
        .with_basis("gth-dzvp")
        .with_pseudo("gth-pbe")
        .build()
        .unwrap_err();
    match err {
        Error::InputError(InputError::InvalidAtomSpec { message }) => {
            assert_eq!(message, "unsupported element symbol Xx");
        }
        other => panic!("unexpected error: {other:?}"),
    }
    match parse_atom_string(" ;  ; \t") {
        Err(Error::InputError(InputError::InvalidAtomSpec { message })) => {
            assert_eq!(message, "atom specification produced zero atoms");
        }
        other => panic!("unexpected: {other:?}"),
    }
    match parse_atom_string("") {
        Err(Error::InputError(InputError::InvalidAtomSpec { message })) => {
            assert_eq!(message, "atom specification produced zero atoms");
        }
        other => panic!("unexpected: {other:?}"),
    }
    match parse_atom_string("h 0 0 0") {
        Err(Error::InputError(InputError::InvalidAtomSpec { message })) => {
            assert_eq!(message, "unsupported element symbol h");
        }
        other => panic!("unexpected: {other:?}"),
    }
}

#[test]
fn atom_parsing_tokens() {
    assert_eq!(parse_atom_string("H").unwrap(), (1, vec![1]));
    assert_eq!(parse_atom_string("\u{3000}Ne\u{a0}1 2 3;;Ar").unwrap(), (2, vec![10, 18]));
    assert_eq!(parse_atom_string("He;Na\t0;Mg\n").unwrap(), (3, vec![2, 11, 12]));
}

#[test]
fn joined_specifications_concatenate() {
    let a = "C 0 0 0; O 0 0 1";
    let b = "N 1 0 0";
    let joined = format!("{a};{b}");
    let (na, za) = parse_atom_string(a).unwrap();
    let (nb, zb) = parse_atom_string(b).unwrap();
    let (n, z) = parse_atom_string(&joined).unwrap();
    assert_eq!(n, na + nb);
    assert_eq!(z, [za, zb].concat());
}

#[test]
fn element_table() {
    let table = [
        ("H", 1), ("He", 2), ("Li", 3), ("Be", 4), ("B", 5), ("C", 6), ("N", 7), ("O", 8),
        ("F", 9), ("Ne", 10), ("Na", 11), ("Mg", 12), ("Al", 13), ("Si", 14), ("P", 15),
        ("S", 16), ("Cl", 17), ("Ar", 18),
    ];
    for (sym, z) in table {
        assert_eq!(element_to_z(sym), Some(z));
    }
    assert_eq!(element_to_z("K"), None);
    assert_eq!(element_to_z(""), None);
    assert_eq!(element_to_z("Hel"), None);
    assert_eq!(element_to_z("HE"), None);
}

#[test]
fn whitespace_classification() {
    for c in [' ', '\t', '\n', '\u{b}', '\u{c}', '\r', '\u{85}', '\u{a0}', '\u{1680}', '\u{2000}', '\u{200a}', '\u{2028}', '\u{2029}', '\u{202f}', '\u{205f}', '\u{3000}'] {
        assert!(is_whitespace(c));
        assert_eq!(is_whitespace(c), c.is_whitespace());
    }
    for c in ['a', '0', ';', '\u{200b}', '\u{180e}'] {
        assert!(!is_whitespace(c));
        assert_eq!(is_whitespace(c), c.is_whitespace());
    }
}

#[test]
fn blank_entries_and_trailing_separators_are_ignored() {
    let base = parse_atom_string("C 0 0 0; O 0 0 1").unwrap();
    assert_eq!(parse_atom_string("C 0 0 0; O 0 0 1;").unwrap(), base);
    assert_eq!(parse_atom_string("C 0 0 0; O 0 0 1; \t ").unwrap(), base);
    assert_eq!(parse_atom_string("C 0 0 0;;  ; O 0 0 1").unwrap(), base);
}
