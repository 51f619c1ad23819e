//! Occupancy/flag bit vectors.
use vstd::prelude::*;

verus! {

/// Growable bit vector: a `bitvec` bit vector (`usize` storage, least-significant
/// bit first) that the verifier sees only through [`bits`].
#[verifier::external_body]
pub struct BitVec {
    inner: bitvec::vec::BitVec,
}

/// The bits that a bit vector holds, in order.
pub uninterp spec fn bits(v: BitVec) -> Seq<bool>;

/// Largest length that a bit vector can encode (`BitSlice::MAX_BITS`, `usize::MAX >> 3`).
pub open spec fn max_bits() -> nat {
    (usize::MAX as nat) / 8
}

/// Calls `bitvec::vec::BitVec::repeat(bit, len)`, which makes a bit vector of
/// `len` copies of `bit`; it panics when `len` exceeds `BitSlice::MAX_BITS`,
/// which `requires` rules out.
#[verifier::external_body]
fn repeat(bit: bool, len: usize) -> (r: BitVec)
    requires
        len <= max_bits(),
    ensures
        bits(r) == Seq::new(len as nat, |i: int| bit),
{
    BitVec { inner: bitvec::vec::BitVec::repeat(bit, len) }
}

impl BitVec {
    /// Calls `BitSlice::len`: the number of bits.
    #[verifier::external_body]
    pub fn len(&self) -> (r: usize)
        ensures
            r == bits(*self).len(),
    {
        self.inner.len()
    }

    /// Calls `BitSlice::not_any`: whether no bit is set.
    #[verifier::external_body]
    pub fn not_any(&self) -> (r: bool)
        ensures
            r == (forall|i: int| 0 <= i < bits(*self).len() ==> !#[trigger] bits(*self)[i]),
    {
        self.inner.not_any()
    }
}

/// Allocate a bit vector of `len` bits, all clear.
pub fn zeroed(len: usize) -> (r: BitVec)
    requires
        len <= max_bits(),
    ensures
        bits(r).len() == len,
        forall|i: int| 0 <= i < len ==> !#[trigger] bits(r)[i],
{
    repeat(false, len)
}

} // verus!
