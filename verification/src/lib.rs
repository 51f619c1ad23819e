//! rustyscf: library-first crate for band-structure workflows.
//!
//! The verified core: cell construction and atom-specification parsing, backend
//! configuration, memory estimates and accounting, kernel argument checks, and
//! the decisions that SCF and band-structure runs make before computing.
pub mod atoms;
pub mod backend;
pub mod band;
pub mod cell;
pub mod decimal;
pub mod error;
pub mod kpoints;
pub mod linalg;
pub mod scf;
pub mod util;

pub use crate::backend::{BackendConfig, BackendKind};
pub use crate::band::BandLinalgBackend;
pub use crate::cell::{Cell, CellBuilder, Unit};
pub use crate::error::{Error, Result};
pub use crate::kpoints::KMesh;
pub use crate::scf::Method;
