//! Periodic simulation cells and their builder.
//!
//! Lattice vectors are floating-point numbers; the cell holds them as the bit
//! patterns of their `f64` values (`f64::to_bits`), row by row, so that they
//! pass through unchanged.
use vstd::prelude::*;
use crate::atoms::{atom_numbers, parse_atom_string};
use crate::error::{is_invalid_atom_spec, is_invalid_parameter, Error, InputError, Result};

verus! {

broadcast use vstd::string::group_string_axioms;

/// Unit for lattice vectors and atomic coordinates.
#[derive(Clone, Copy, Debug, PartialEq, Eq, Structural)]
pub enum Unit {
    Angstrom,
    Bohr,
}

/// Bit patterns of the nine `f64` entries of the lattice vectors (rows).
pub type LatticeBits = [[u64; 3]; 3];

// ---------------------------------------------------------------------------
// Basis-size guess
// ---------------------------------------------------------------------------

/// Minimal basis size guess: one contracted function per atom, whatever the
/// basis is named.
pub fn basis_nao_guess(_basis: &str, atomic_numbers: &[u8]) -> (r: usize)
    ensures
        r == atomic_numbers@.len(),
{
    atomic_numbers.len()
}

// ---------------------------------------------------------------------------
// Cell
// ---------------------------------------------------------------------------

/// Sum of the atomic numbers in `zs`.
pub open spec fn z_sum(zs: Seq<u8>) -> nat
    decreases zs.len(),
{
    if zs.len() == 0 {
        0
    } else {
        z_sum(zs.drop_last()) + (zs.last() as nat)
    }
}

/// `a - b`, or 0 when `b > a`.
pub open spec fn sat_sub(a: int, b: int) -> int {
    if a >= b {
        a - b
    } else {
        0
    }
}

/// Mathematical model of a cell.
pub ghost struct CellView {
    pub atom: Seq<char>,
    pub a: LatticeBits,
    pub unit: Unit,
    pub basis: Seq<char>,
    pub pseudo: Seq<char>,
    pub spin: i32,
    pub dimension: i32,
    pub natoms: nat,
    pub atomic_numbers: Seq<u8>,
    pub nao: nat,
}

/// Periodic simulation cell.
#[derive(Debug)]
pub struct Cell {
    atom: String,
    a: LatticeBits,
    unit: Unit,
    basis: String,
    pseudo: String,
    spin: i32,
    dimension: i32,
    natoms: usize,
    atomic_numbers: Vec<u8>,
    nao: usize,
}

impl View for Cell {
    type V = CellView;

    closed spec fn view(&self) -> CellView {
        CellView {
            atom: self.atom@,
            a: self.a,
            unit: self.unit,
            basis: self.basis@,
            pseudo: self.pseudo@,
            spin: self.spin,
            dimension: self.dimension,
            natoms: self.natoms as nat,
            atomic_numbers: self.atomic_numbers@,
            nao: self.nao as nat,
        }
    }
}

/// Facts that every cell satisfies.
pub open spec fn cell_facts(c: CellView) -> bool {
    &&& atom_numbers(c.atom) == Ok::<Seq<u8>, Seq<char>>(c.atomic_numbers)
    &&& c.natoms == c.atomic_numbers.len()
    &&& c.natoms >= 1
    &&& forall|i: int| 0 <= i < c.atomic_numbers.len() ==> 1 <= #[trigger] c.atomic_numbers[i] <= 18
    &&& c.nao == c.natoms
}

/// The sum over a prefix of `zs` is at most the sum over `zs`.
proof fn lemma_z_sum_prefix(zs: Seq<u8>, i: int)
    requires
        0 <= i <= zs.len(),
    ensures
        z_sum(zs.take(i)) <= z_sum(zs),
    decreases zs.len() - i,
{
    if i < zs.len() {
        assert(zs.take(i + 1).drop_last() =~= zs.take(i));
        lemma_z_sum_prefix(zs, i + 1);
    } else {
        assert(zs.take(i) =~= zs);
    }
}

impl Cell {
    #[verifier::type_invariant]
    closed spec fn inv(&self) -> bool {
        cell_facts(self@)
    }

    /// Atomic specification string (PySCF-style).
    pub fn atom(&self) -> (r: &str)
        ensures
            r@ == self@.atom,
    {
        self.atom.as_str()
    }

    /// Lattice vectors (rows), as bit patterns, in the configured unit.
    pub fn lattice(&self) -> (r: LatticeBits)
        ensures
            r == self@.a,
    {
        self.a
    }

    pub fn unit(&self) -> (r: Unit)
        ensures
            r == self@.unit,
    {
        self.unit
    }

    pub fn basis(&self) -> (r: &str)
        ensures
            r@ == self@.basis,
    {
        self.basis.as_str()
    }

    pub fn pseudo(&self) -> (r: &str)
        ensures
            r@ == self@.pseudo,
    {
        self.pseudo.as_str()
    }

    pub fn spin(&self) -> (r: i32)
        ensures
            r == self@.spin,
    {
        self.spin
    }

    pub fn dimension(&self) -> (r: i32)
        ensures
            r == self@.dimension,
    {
        self.dimension
    }

    pub fn num_atoms(&self) -> (r: usize)
        ensures
            r == self@.natoms,
    {
        self.natoms
    }

    /// Minimal basis size guess: one contracted function per atom.
    pub fn nao(&self) -> (r: usize)
        ensures
            r == self@.nao,
    {
        self.nao
    }

    /// Atomic numbers of the atoms, in the order of the specification.
    pub fn atomic_numbers(&self) -> (r: &[u8])
        ensures
            r@ == self@.atomic_numbers,
    {
        self.atomic_numbers.as_slice()
    }

    /// Number of electrons: the sum of the atomic numbers minus the spin taken
    /// as `usize` (a negative spin wraps to a huge value), floored at zero.
    /// The sum of the atomic numbers must fit in `usize`.
    pub fn electron_count(&self) -> (r: usize)
        requires
            z_sum(self@.atomic_numbers) <= usize::MAX,
        ensures
            r == sat_sub(z_sum(self@.atomic_numbers) as int, (self@.spin as usize) as int),
    {
        let zs = &self.atomic_numbers;
        let mut sum: usize = 0;
        let mut i: usize = 0;
        while i < zs.len()
            invariant
                i <= zs@.len(),
                z_sum(zs@) <= usize::MAX,
                sum == z_sum(zs@.take(i as int)),
            decreases zs@.len() - i,
        {
            proof {
                assert(zs@.take(i + 1).drop_last() =~= zs@.take(i as int));
                lemma_z_sum_prefix(zs@, i + 1);
            }
            sum = sum + zs[i] as usize;
            i = i + 1;
        }
        proof {
            assert(zs@.take(zs@.len() as int) =~= zs@);
        }
        let spin = self.spin as usize;
        if sum >= spin {
            sum - spin
        } else {
            0
        }
    }
}

impl Clone for Cell {
    fn clone(&self) -> (r: Self)
        ensures
            r@ == self@,
    {
        proof {
            use_type_invariant(self);
        }
        let atomic_numbers = self.atomic_numbers.clone();
        assert(atomic_numbers@ =~= self.atomic_numbers@);
        Cell {
            atom: self.atom.clone(),
            a: self.a,
            unit: self.unit,
            basis: self.basis.clone(),
            pseudo: self.pseudo.clone(),
            spin: self.spin,
            dimension: self.dimension,
            natoms: self.natoms,
            atomic_numbers,
            nao: self.nao,
        }
    }
}

// ---------------------------------------------------------------------------
// Builder
// ---------------------------------------------------------------------------

/// Mathematical model of a cell builder.
pub ghost struct CellBuilderView {
    pub atom: Option<Seq<char>>,
    pub a: Option<LatticeBits>,
    pub unit: Unit,
    pub basis: Option<Seq<char>>,
    pub pseudo: Option<Seq<char>>,
    pub spin: i32,
    pub dimension: i32,
}

/// Builder for [`Cell`].
pub struct CellBuilder {
    atom: Option<String>,
    a: Option<LatticeBits>,
    unit: Unit,
    basis: Option<String>,
    pseudo: Option<String>,
    spin: i32,
    dimension: i32,
}

/// Characters of an optional string.
pub open spec fn opt_chars(s: Option<String>) -> Option<Seq<char>> {
    match s {
        Some(x) => Some(x@),
        None => None,
    }
}

impl View for CellBuilder {
    type V = CellBuilderView;

    closed spec fn view(&self) -> CellBuilderView {
        CellBuilderView {
            atom: opt_chars(self.atom),
            a: self.a,
            unit: self.unit,
            basis: opt_chars(self.basis),
            pseudo: opt_chars(self.pseudo),
            spin: self.spin,
            dimension: self.dimension,
        }
    }
}

/// Message of the error for a missing atom specification.
pub open spec fn missing_atom_message() -> Seq<char> {
    "atom specification missing"@
}

/// The cell that a builder with view `b` makes from the atomic numbers `zs`.
pub open spec fn built_cell(b: CellBuilderView, zs: Seq<u8>) -> CellView {
    CellView {
        atom: b.atom.unwrap(),
        a: b.a.unwrap(),
        unit: b.unit,
        basis: b.basis.unwrap(),
        pseudo: b.pseudo.unwrap(),
        spin: b.spin,
        dimension: b.dimension,
        natoms: zs.len(),
        atomic_numbers: zs,
        nao: zs.len(),
    }
}

/// What `CellBuilder::build` returns for a builder with view `b`.
pub open spec fn build_outcome(b: CellBuilderView, r: Result<Cell>) -> bool {
    if b.atom is None {
        is_invalid_atom_spec(r, missing_atom_message())
    } else if b.a is None {
        is_invalid_parameter(r, "a"@, "lattice vectors missing"@)
    } else if b.basis is None {
        is_invalid_parameter(r, "basis"@, "basis set missing"@)
    } else if b.pseudo is None {
        is_invalid_parameter(r, "pseudo"@, "pseudopotential missing"@)
    } else if b.dimension != 3 {
        r matches Err(Error::InputError(InputError::UnsupportedDimension { dimension }))
            && dimension == b.dimension
    } else {
        match atom_numbers(b.atom.unwrap()) {
            Ok(zs) => if zs.len() == 0 {
                is_invalid_atom_spec(r, crate::atoms::zero_atoms_message())
            } else {
                r matches Ok(cell) && cell@ == built_cell(b, zs)
            },
            Err(sym) => is_invalid_atom_spec(r, crate::atoms::unsupported_symbol_message(sym)),
        }
    }
}

impl CellBuilder {
    /// Create a new builder with defaults (Angstrom, spin 0, dimension 3, nothing else set).
    pub fn new() -> (r: Self)
        ensures
            r@ == (CellBuilderView {
                atom: None,
                a: None,
                unit: Unit::Angstrom,
                basis: None,
                pseudo: None,
                spin: 0,
                dimension: 3,
            }),
    {
        CellBuilder {
            atom: None,
            a: None,
            unit: Unit::Angstrom,
            basis: None,
            pseudo: None,
            spin: 0,
            dimension: 3,
        }
    }

    pub fn with_atom(self, atom: &str) -> (r: Self)
        ensures
            r@ == (CellBuilderView { atom: Some(atom@), ..self@ }),
    {
        CellBuilder { atom: Some(String::from_str(atom)), ..self }
    }

    pub fn with_a(self, a: LatticeBits) -> (r: Self)
        ensures
            r@ == (CellBuilderView { a: Some(a), ..self@ }),
    {
        CellBuilder { a: Some(a), ..self }
    }

    pub fn with_unit(self, unit: Unit) -> (r: Self)
        ensures
            r@ == (CellBuilderView { unit, ..self@ }),
    {
        CellBuilder { unit, ..self }
    }

    pub fn with_basis(self, basis: &str) -> (r: Self)
        ensures
            r@ == (CellBuilderView { basis: Some(basis@), ..self@ }),
    {
        CellBuilder { basis: Some(String::from_str(basis)), ..self }
    }

    pub fn with_pseudo(self, pseudo: &str) -> (r: Self)
        ensures
            r@ == (CellBuilderView { pseudo: Some(pseudo@), ..self@ }),
    {
        CellBuilder { pseudo: Some(String::from_str(pseudo)), ..self }
    }

    pub fn with_spin(self, spin: i32) -> (r: Self)
        ensures
            r@ == (CellBuilderView { spin, ..self@ }),
    {
        CellBuilder { spin, ..self }
    }

    pub fn with_dimension(self, dimension: i32) -> (r: Self)
        ensures
            r@ == (CellBuilderView { dimension, ..self@ }),
    {
        CellBuilder { dimension, ..self }
    }

    /// Build a validated [`Cell`]: the atom specification, the lattice, the basis
    /// and the pseudopotential must be set (checked in that order), the
    /// dimension must be 3, and the atom specification must name at least one
    /// supported element and nothing else.
    pub fn build(self) -> (r: Result<Cell>)
        ensures
            build_outcome(self@, r),
    {
        let atom = match self.atom {
            Some(x) => x,
            None => {
                return Err(
                    Error::InputError(
                        InputError::InvalidAtomSpec {
                            message: String::from_str("atom specification missing"),
                        },
                    ),
                );
            },
        };
        let a = match self.a {
            Some(x) => x,
            None => {
                return Err(
                    Error::InputError(
                        InputError::InvalidParameter {
                            parameter: String::from_str("a"),
                            message: String::from_str("lattice vectors missing"),
                        },
                    ),
                );
            },
        };
        let basis = match self.basis {
            Some(x) => x,
            None => {
                return Err(
                    Error::InputError(
                        InputError::InvalidParameter {
                            parameter: String::from_str("basis"),
                            message: String::from_str("basis set missing"),
                        },
                    ),
                );
            },
        };
        let pseudo = match self.pseudo {
            Some(x) => x,
            None => {
                return Err(
                    Error::InputError(
                        InputError::InvalidParameter {
                            parameter: String::from_str("pseudo"),
                            message: String::from_str("pseudopotential missing"),
                        },
                    ),
                );
            },
        };
        if self.dimension != 3 {
            return Err(
                Error::InputError(InputError::UnsupportedDimension { dimension: self.dimension }),
            );
        }
        let (natoms, atomic_numbers) = match parse_atom_string(atom.as_str()) {
            Ok(x) => x,
            Err(e) => {
                return Err(e);
            },
        };
        let nao = basis_nao_guess(basis.as_str(), atomic_numbers.as_slice());
        proof {
            lemma_atom_numbers_range(atom@);
        }
        Ok(
            Cell {
                atom,
                a,
                unit: self.unit,
                basis,
                pseudo,
                spin: self.spin,
                dimension: self.dimension,
                natoms,
                atomic_numbers,
                nao,
            },
        )
    }
}

/// Law: a successfully built cell keeps the builder's inputs, is 3D, has at least
/// one atom, as many atomic numbers as atoms (each of H to Ar, in the order of the
/// specification) and one orbital per atom.
pub proof fn lemma_built_cell(b: CellBuilderView, r: Result<Cell>)
    requires
        build_outcome(b, r),
        r is Ok,
    ensures
        ({
            let c = r->Ok_0@;
            &&& c.atom == b.atom.unwrap()
            &&& c.a == b.a.unwrap()
            &&& c.unit == b.unit
            &&& c.basis == b.basis.unwrap()
            &&& c.pseudo == b.pseudo.unwrap()
            &&& c.spin == b.spin
            &&& c.dimension == 3
            &&& atom_numbers(c.atom) == Ok::<Seq<u8>, Seq<char>>(c.atomic_numbers)
            &&& c.natoms == c.atomic_numbers.len()
            &&& c.natoms >= 1
            &&& forall|i: int| 0 <= i < c.atomic_numbers.len() ==> 1 <= #[trigger] c.atomic_numbers[i] <= 18
            &&& c.nao == c.natoms
        }),
{
    lemma_atom_numbers_range(b.atom.unwrap());
}

/// Law: the electrons of atoms are counted by their atomic numbers, one for one:
/// a single atom of atomic number `z` counts `z`, the count of two groups of atoms
/// is the sum of their counts, and with spin 0 nothing is subtracted.
pub proof fn lemma_electron_count_additive(a: Seq<u8>, b: Seq<u8>, z: u8)
    ensures
        z_sum(seq![z]) == z as nat,
        z_sum(a + b) == z_sum(a) + z_sum(b),
        sat_sub(z_sum(a) as int, (0i32 as usize) as int) == z_sum(a),
        forall|spin: int| 0 <= spin <= z_sum(a) ==> #[trigger] sat_sub(z_sum(a) as int, spin) + spin == z_sum(a),
        forall|spin: int| spin > z_sum(a) ==> #[trigger] sat_sub(z_sum(a) as int, spin) == 0,
    decreases b.len(),
{
    assert(seq![z].drop_last() =~= Seq::<u8>::empty());
    assert(z_sum(Seq::<u8>::empty()) == 0);
    assert(seq![z].last() == z);
    assert(z_sum(seq![z]) == z_sum(seq![z].drop_last()) + (seq![z].last() as nat));
    if b.len() == 0 {
        assert(a + b =~= a);
    } else {
        lemma_electron_count_additive(a, b.drop_last(), z);
        assert((a + b).drop_last() =~= a + b.drop_last());
        assert((a + b).last() == b.last());
    }
}

/// Every atomic number that parsing yields lies in 1..=18.
pub proof fn lemma_atom_numbers_range(atom: Seq<char>)
    ensures
        atom_numbers(atom) matches Ok(zs) ==> forall|i: int|
            0 <= i < zs.len() ==> 1 <= #[trigger] zs[i] <= 18,
{
    lemma_parse_entries_range(crate::atoms::split_on(atom, ';'));
}

proof fn lemma_parse_entries_range(es: Seq<Seq<char>>)
    ensures
        crate::atoms::parse_entries(es) matches Ok(zs) ==> forall|i: int|
            0 <= i < zs.len() ==> 1 <= #[trigger] zs[i] <= 18,
    decreases es.len(),
{
    if es.len() > 0 {
        lemma_parse_entries_range(es.drop_first());
        crate::atoms::lemma_element_z_range(crate::atoms::entry_symbol(es[0]));
        match crate::atoms::parse_entries(es) {
            Ok(zs) => {
                assert forall|i: int| 0 <= i < zs.len() implies 1 <= #[trigger] zs[i] <= 18 by {
                    if !crate::atoms::is_blank(es[0]) && i > 0 {
                        match crate::atoms::parse_entries(es.drop_first()) {
                            Ok(rest) => assert(zs[i] == rest[i - 1]),
                            Err(_) => {},
                        }
                    }
                }
            },
            Err(_) => {},
        }
    }
}

} // verus!
