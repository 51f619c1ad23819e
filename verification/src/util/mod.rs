//! Small helpers.
pub mod bitset;
