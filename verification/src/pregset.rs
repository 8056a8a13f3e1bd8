//! Sets of physical registers, kept in `regalloc2::PRegSet`.
//!
//! A set is known here by the indices of its members: the index of a
//! physical register is its class number times 64 plus its hardware
//! encoding, as `RealReg::spec_index` gives it.

use regalloc2::PReg;
use regalloc2::PRegSet;
use vstd::prelude::*;

verus! {

#[verifier::external_type_specification]
#[verifier::external_body]
pub struct ExPRegSet(regalloc2::PRegSet);

/// The indices of the physical registers that a set holds.
pub uninterp spec fn preg_set_members(set: PRegSet) -> Set<int>;

/// `PRegSet::empty`: a set without members.
#[verifier::external_body]
pub(crate) fn preg_set_empty() -> (set: PRegSet)
    ensures
        preg_set_members(set) == Set::<int>::empty(),
{
    PRegSet::empty()
}

/// `PRegSet::add`: the register with the given index joins the set and
/// every member stays.
#[verifier::external_body]
pub(crate) fn preg_set_add(set: &mut PRegSet, index: u8)
    ensures
        preg_set_members(*final(set)) == preg_set_members(*old(set)).insert(index as int),
{
    set.add(PReg::from_index(index as usize))
}

/// `PRegSet::remove`: the register with the given index leaves the set and
/// every other member stays.
#[verifier::external_body]
pub(crate) fn preg_set_remove(set: &mut PRegSet, index: u8)
    ensures
        preg_set_members(*final(set)) == preg_set_members(*old(set)).remove(index as int),
{
    set.remove(PReg::from_index(index as usize))
}

} // verus!
