//! A table of flags, a [`BitVec`].

use bit_vec::BitVec;
use vstd::prelude::*;

verus! {

/// `bit_vec::BitVec`, of which only its bits are spoken of.
#[verifier::external_type_specification]
#[verifier::external_body]
#[verifier::reject_recursive_types(B)]
pub struct ExBitVec<B>(BitVec<B>);

/// The bits of a table, from the first to the last.
pub uninterp spec fn bits(table: BitVec) -> Seq<bool>;

/// Whether some bit is set.
pub open spec fn holds_any(bits: Seq<bool>) -> bool {
    exists|i: int| 0 <= i < bits.len() && #[trigger] bits[i]
}

/// `BitVec::from_elem`: a table of `len` equal bits. Tables that might not fit into memory are left
/// out.
#[verifier::external_body]
pub(crate) fn from_elem(len: usize, bit: bool) -> (table: BitVec)
    requires
        len <= u16::MAX,
    ensures
        bits(table) == Seq::new(len as nat, |i: int| bit),
{
    BitVec::from_elem(len, bit)
}

/// `BitVec::get`: the bit at `i`, if there is one.
#[verifier::external_body]
pub(crate) fn get(table: &BitVec, i: usize) -> (res: Option<bool>)
    ensures
        res == if i < bits(*table).len() {
            Some(bits(*table)[i as int])
        } else {
            None
        },
{
    table.get(i)
}

/// `BitVec::set`: replaces the bit at `i` and no other one.
#[verifier::external_body]
pub(crate) fn set(table: &mut BitVec, i: usize, bit: bool)
    requires
        i < bits(*old(table)).len(),
    ensures
        bits(*final(table)) == bits(*old(table)).update(i as int, bit),
{
    table.set(i, bit);
}

/// `BitVec::any`: whether some bit is set.
#[verifier::external_body]
pub(crate) fn any(table: &BitVec) -> (res: bool)
    ensures
        res == holds_any(bits(*table)),
{
    table.any()
}

} // verus!
