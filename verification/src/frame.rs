//! The layout of a function's stack frame.

use crate::abi::is_power_of_two;
use crate::reg::{RealReg, RegClass, SpillSlot, Writable};
use vstd::prelude::*;

verus! {

/// The sizes of the areas of a stack frame, from high addresses to low,
/// and the callee-saved registers that the function overwrites.
#[derive(Debug)]
pub struct FrameLayout {
    /// The size of a machine word in bytes.
    pub word_bytes: u32,
    /// The size of the incoming arguments on the stack.
    pub incoming_args_size: u32,
    /// The size of the incoming argument area once tail calls are counted.
    pub tail_args_size: u32,
    /// The size of the area with the return address and the saved frame
    /// pointer.
    pub setup_area_size: u32,
    /// The size of the area in which callee-saved registers are saved.
    pub clobber_size: u32,
    /// The size of the fixed part of the frame: stack slots and spill slots.
    pub fixed_frame_storage_size: u32,
    /// The size of all stack slots.
    pub stackslots_size: u32,
    /// The size of the area for the arguments of calls.
    pub outgoing_args_size: u32,
    /// The callee-saved registers that are overwritten, in order.
    pub clobbered_callee_saves: Vec<Writable<RealReg>>,
}

/// A frame layout with its registers as a sequence.
pub ghost struct FrameLayoutView {
    pub word_bytes: u32,
    pub incoming_args_size: u32,
    pub tail_args_size: u32,
    pub setup_area_size: u32,
    pub clobber_size: u32,
    pub fixed_frame_storage_size: u32,
    pub stackslots_size: u32,
    pub outgoing_args_size: u32,
    pub clobbered_callee_saves: Seq<Writable<RealReg>>,
}

impl View for FrameLayout {
    type V = FrameLayoutView;

    open spec fn view(&self) -> FrameLayoutView {
        FrameLayoutView {
            word_bytes: self.word_bytes,
            incoming_args_size: self.incoming_args_size,
            tail_args_size: self.tail_args_size,
            setup_area_size: self.setup_area_size,
            clobber_size: self.clobber_size,
            fixed_frame_storage_size: self.fixed_frame_storage_size,
            stackslots_size: self.stackslots_size,
            outgoing_args_size: self.outgoing_args_size,
            clobbered_callee_saves: self.clobbered_callee_saves@,
        }
    }
}

/// The number of leading registers of class `Int`.
pub open spec fn spec_int_prefix(regs: Seq<Writable<RealReg>>) -> nat
    decreases regs.len(),
{
    if regs.len() == 0 || regs[0].reg.spec_class() != RegClass::Int {
        0
    } else {
        1 + spec_int_prefix(regs.drop_first())
    }
}

/// `val` rounded up to a multiple of `mask + 1`, where `mask` is one less
/// than a power of two.
pub open spec fn spec_round_up(val: u32, mask: u32) -> u32 {
    ((val + mask) as u32) & !mask
}

/// Rounding up to a power of two gives the least multiple that is not
/// below the value.
pub proof fn lemma_round_up(val: u32, align: u32)
    requires
        is_power_of_two(align),
        val + (align - 1) <= u32::MAX,
    ensures
        spec_round_up(val, (align - 1) as u32) % align == 0,
        val <= spec_round_up(val, (align - 1) as u32) < val + align,
{
    let mask = (align - 1) as u32;
    let sum = (val + mask) as u32;
    assert(align != 0 && align & mask == 0 && mask == (align - 1) as u32 && sum >= mask ==> (sum
        & !mask) % align == 0 && sum & !mask <= sum && sum - (sum & !mask) <= mask) by (bit_vector);
}

impl FrameLayout {
    /// The distance from the frame pointer to the stack pointer while the
    /// function's body runs.
    pub open spec fn spec_active_size(&self) -> int {
        self.outgoing_args_size + self.fixed_frame_storage_size + self.clobber_size
    }

    /// The offset of a spill slot from the stack pointer: spill slots
    /// stand above the stack slots, one machine word each.
    pub open spec fn spec_spillslot_offset(&self, spillslot: SpillSlot) -> int {
        self.stackslots_size + spillslot.index * self.word_bytes
    }

    /// The registers of class `Int` come first, and those after them are of
    /// class `Float`.
    pub open spec fn saves_sorted(&self) -> bool {
        forall|i: int|
            spec_int_prefix(self.clobbered_callee_saves@) <= i < self.clobbered_callee_saves@.len()
                ==> (#[trigger] self.clobbered_callee_saves@[i]).reg.spec_class()
                == RegClass::Float
    }

    /// The overwritten callee-saved registers, those of class `Int` and
    /// those of class `Float` apart.
    pub fn clobbered_callee_saves_by_class(
        &self,
    ) -> (r: (&[Writable<RealReg>], &[Writable<RealReg>]))
        requires
            self.saves_sorted(),
        ensures
            r.0@ + r.1@ == self.clobbered_callee_saves@,
            r.0@.len() == spec_int_prefix(self.clobbered_callee_saves@),
            forall|i: int| 0 <= i < r.0@.len() ==> (#[trigger] r.0@[i]).reg.spec_class() == RegClass::Int,
            forall|i: int|
                0 <= i < r.1@.len() ==> (#[trigger] r.1@[i]).reg.spec_class() == RegClass::Float,
    {
        let all = self.clobbered_callee_saves.as_slice();
        let mut n: usize = 0;
        proof {
            assert(all@.skip(0) =~= all@);
        }
        while n < all.len() && all[n].reg.class() == RegClass::Int
            invariant
                all@ == self.clobbered_callee_saves@,
                n <= all@.len(),
                forall|i: int| 0 <= i < n ==> (#[trigger] all@[i]).reg.spec_class() == RegClass::Int,
                spec_int_prefix(all@) == n + spec_int_prefix(all@.skip(n as int)),
            decreases all@.len() - n,
        {
            proof {
                assert(all@.skip(n as int).drop_first() =~= all@.skip(n + 1));
                assert(all@.skip(n as int)[0] == all@[n as int]);
            }
            n += 1;
        }
        proof {
            if n < all@.len() {
                assert(all@.skip(n as int)[0] == all@[n as int]);
            }
        }
        let (ints, floats) = all.split_at(n);
        proof {
            assert(ints@ + floats@ =~= all@);
            assert forall|i: int| 0 <= i < floats@.len() implies (#[trigger] floats@[i]).reg.spec_class()
                == RegClass::Float by {
                assert(floats@[i] == all@[n + i]);
            }
        }
        (ints, floats)
    }

    /// The distance from the frame pointer to the stack pointer while the
    /// function's body runs: the outgoing arguments, the fixed storage and
    /// the saved registers.
    pub fn active_size(&self) -> (n: u32)
        requires
            self.spec_active_size() <= u32::MAX,
        ensures
            n == self.spec_active_size(),
            n == self.outgoing_args_size + self.fixed_frame_storage_size + self.clobber_size,
    {
        self.outgoing_args_size + self.fixed_frame_storage_size + self.clobber_size
    }

    /// The offset from the stack pointer to the stack slots.
    pub fn sp_to_sized_stack_slots(&self) -> (n: u32)
        ensures
            n == self.outgoing_args_size,
    {
        self.outgoing_args_size
    }

    /// The offset of a spill slot from the stack pointer.
    pub fn spillslot_offset(&self, spillslot: SpillSlot) -> (off: i64)
        requires
            self.spec_spillslot_offset(spillslot) <= i64::MAX,
        ensures
            off == self.spec_spillslot_offset(spillslot),
    {
        let islot = spillslot.index as i64;
        let word = self.word_bytes as i64;
        assert(0 <= islot * word) by (nonlinear_arith)
            requires
                0 <= islot,
                0 <= word,
        ;
        let spill_off = islot * word;
        let sp_off = self.stackslots_size as i64 + spill_off;
        sp_off
    }
}

} // verus!
