//! The handlers of the instructions that set up and take down a frame.
//!
//! A frame begins with the link register and the frame pointer of the
//! caller, pushed in that order; the frame pointer then points at the
//! saved frame pointer. The combined instructions also make room for the
//! frame and save or restore registers, with one check of the stack
//! pointer for all of it.

use crate::interp::encode::{Encode, PushFrame, PushFrameSave};
use crate::interp::machine::{InterpView, Interpreter};
use crate::interp::regs::UpperRegSet;
use crate::interp::state::{Done, StateView, TrapKind};
use crate::interp::value::XRegVal;
use core::ops::ControlFlow;
use vstd::prelude::*;

verus! {

/// The state after the first `k` of the registers `members` have been
/// saved below the frame pointer of a frame that was made with `amt`
/// bytes of room: the first just below it, each next one eight bytes
/// lower.
pub open spec fn spec_saved(st: StateView, members: Seq<int>, amt: int, k: nat) -> StateView
    decreases k,
{
    if k == 0 {
        st
    } else {
        let before = spec_saved(st, members, amt, (k - 1) as nat);
        before.write_value::<u64>(
            (before.sp() + amt - 8 * k) as u64,
            before.x[members[k - 1]].bits,
        )
    }
}

/// The address from which the `k`-th register is restored: the stack
/// pointer plus the room of the frame less eight bytes for each register
/// up to this one.
pub open spec fn spec_restore_addr(st: StateView, amt: int, k: nat) -> u64 {
    st.sp().wrapping_add_signed((amt - 8 * k) as i64)
}

/// The state after the first `k` of the registers `members` have been
/// restored from below the frame pointer. Each is read at the stack
/// pointer of the moment plus its offset.
pub open spec fn spec_restored(st: StateView, members: Seq<int>, amt: int, k: nat) -> StateView
    decreases k,
{
    if k == 0 {
        st
    } else {
        let before = spec_restored(st, members, amt, (k - 1) as nat);
        before.set_x(
            members[k - 1],
            XRegVal { bits: before.value_at::<u64>(spec_restore_addr(before, amt, k)) },
        )
    }
}

/// Each of the first `k` registers is read from memory of the machine.
pub open spec fn spec_restorable(st: StateView, members: Seq<int>, amt: int, k: nat) -> bool
    decreases k,
{
    if k == 0 {
        true
    } else {
        let before = spec_restored(st, members, amt, (k - 1) as nat);
        &&& spec_restorable(st, members, amt, (k - 1) as nat)
        &&& before.in_bounds(spec_restore_addr(before, amt, k), 8)
    }
}

/// Saving registers changes the bytes of the stack only, and not their
/// number.
pub proof fn lemma_saved_keeps(st: StateView, members: Seq<int>, amt: int, k: nat)
    requires
        st.wf(),
        st.sp_valid(),
        8 * k <= amt,
        st.sp() + amt <= st.stack_end(),
    ensures
        spec_saved(st, members, amt, k).x == st.x,
        spec_saved(st, members, amt, k).f == st.f,
        spec_saved(st, members, amt, k).v == st.v,
        spec_saved(st, members, amt, k).fp == st.fp,
        spec_saved(st, members, amt, k).lr == st.lr,
        spec_saved(st, members, amt, k).done_reason == st.done_reason,
        spec_saved(st, members, amt, k).stack.len() == st.stack.len(),
    decreases k,
{
    if k > 0 {
        lemma_saved_keeps(st, members, amt, (k - 1) as nat);
        vstd::bytes::lemma_auto_spec_u64_to_from_le_bytes();
    }
}

impl Interpreter {
    /// Pushes the link register and then the frame pointer, and points the
    /// frame pointer at the stack pointer. Each push may trap with a
    /// stack overflow.
    pub fn push_frame(&mut self) -> (r: ControlFlow<Done>)
        requires
            old(self)@.wf(),
            old(self)@.state.sp_valid(),
        ensures
            ({
                let start = old(self)@;
                let first = start.pushed(start.state.lr);
                let second = first.pushed(start.state.fp);
                if !start.has_room(8) {
                    r is Break && final(self)@ == start.trapped(
                        PushFrame::spec_width(),
                        Some(TrapKind::StackOverflow),
                    )
                } else if !first.has_room(8) {
                    r is Break && final(self)@ == first.trapped(
                        PushFrame::spec_width(),
                        Some(TrapKind::StackOverflow),
                    )
                } else {
                    r is Continue && final(self)@ == second.set_fp(second.state.sp())
                }
            }),
    {
        let lr = self.lr();
        let fp = self.fp();
        proof {
            vstd::bytes::lemma_auto_spec_u64_to_from_le_bytes();
        }
        match self.push::<PushFrame, u64>(lr) {
            ControlFlow::Continue(_) => {},
            ControlFlow::Break(done) => {
                return ControlFlow::Break(done);
            },
        }
        match self.push::<PushFrame, u64>(fp) {
            ControlFlow::Continue(_) => {},
            ControlFlow::Break(done) => {
                return ControlFlow::Break(done);
            },
        }
        let sp = self.state().sp();
        self.set_fp(sp);
        ControlFlow::Continue(())
    }

    /// Moves the stack pointer to the frame pointer, then pops the frame
    /// pointer and the link register of the caller. The frame was pushed
    /// before, so it lies in the stack.
    pub fn pop_frame(&mut self) -> (r: ControlFlow<Done>)
        requires
            old(self)@.wf(),
            old(self)@.state.in_bounds(old(self)@.state.fp, 16),
        ensures
            r is Continue,
            ({
                let start = old(self)@;
                let frame = start.state.fp;
                final(self)@ == (InterpView {
                    state: start.state.set_sp((frame + 16) as u64),
                    ..start
                }).set_fp(start.state.value_at::<u64>(frame)).set_lr(
                    start.state.value_at::<u64>((frame + 8) as u64),
                )
            }),
    {
        let frame = self.fp();
        self.set_sp_unchecked(frame);
        let fp = self.pop::<u64>();
        let lr = self.pop::<u64>();
        self.set_fp(fp);
        self.set_lr(lr);
        proof {
            let start = old(self)@;
            assert(self@.state.x =~= start.state.set_sp((frame + 16) as u64).x);
        }
        ControlFlow::Continue(())
    }

    /// Makes a frame in one step: moves the stack pointer down by `amt`
    /// bytes and 16 more, stores the link register and the frame pointer
    /// at the top of that room, points the frame pointer at the stored
    /// frame pointer, and saves the registers `regs` below it. Traps with
    /// a stack overflow, before anything is written, if the room would
    /// leave the stack.
    ///
    /// The room of `amt` bytes holds the saved registers.
    pub fn push_frame_save(&mut self, amt: u16, regs: UpperRegSet) -> (r: ControlFlow<Done>)
        requires
            old(self)@.wf(),
            old(self)@.state.sp_valid(),
            8 * regs.spec_members(16).len() <= amt,
        ensures
            ({
                let start = old(self)@;
                let new_sp = (start.state.sp() - amt - 16) as u64;
                if !start.has_room((amt + 16) as nat) {
                    r is Break && final(self)@ == start.trapped(
                        PushFrameSave::spec_width(),
                        Some(TrapKind::StackOverflow),
                    )
                } else {
                    let framed = StateView {
                        fp: (new_sp + amt) as u64,
                        ..start.state.set_sp(new_sp).write_value::<u64>(
                            (new_sp + amt + 8) as u64,
                            start.state.lr,
                        ).write_value::<u64>((new_sp + amt) as u64, start.state.fp)
                    };
                    r is Continue && final(self)@ == (InterpView {
                        state: spec_saved(
                            framed,
                            regs.spec_members(16),
                            amt as int,
                            regs.spec_members(16).len(),
                        ),
                        ..start
                    })
                }
            }),
    {
        let full_amt: u64 = amt as u64 + 16;
        let sp = self.state().sp();
        let new_sp = sp.wrapping_sub(full_amt);
        match self.set_sp::<PushFrameSave>(new_sp) {
            ControlFlow::Continue(_) => {},
            ControlFlow::Break(done) => {
                return ControlFlow::Break(done);
            },
        }
        proof {
            vstd::bytes::lemma_auto_spec_u64_to_from_le_bytes();
        }
        let lr = self.lr();
        let fp = self.fp();
        self.write::<u64>(new_sp + amt as u64 + 8, lr);
        self.write::<u64>(new_sp + amt as u64, fp);
        self.set_fp(new_sp + amt as u64);
        let ghost framed = self@.state;
        let members = regs.members();
        let ghost wanted = regs.spec_members(16);
        let mut k: usize = 0;
        while k < members.len()
            invariant
                k <= members@.len(),
                members@.len() == wanted.len(),
                forall|j: int| 0 <= j < members@.len() ==> (#[trigger] members@[j]).spec_index() == wanted[j],
                8 * wanted.len() <= amt,
                framed.wf(),
                framed.sp() == new_sp,
                framed.sp_valid(),
                framed.sp() + amt + 16 <= framed.stack_end(),
                self@ == (InterpView {
                    state: spec_saved(framed, wanted, amt as int, k as nat),
                    ..old(self)@
                }),
            decreases members@.len() - k,
        {
            proof {
                lemma_saved_keeps(framed, wanted, amt as int, k as nat);
            }
            let reg = members[k];
            let val = self.x_u64(reg);
            let addr = new_sp + amt as u64 - 8 * (k as u64 + 1);
            self.write::<u64>(addr, val);
            k += 1;
        }
        ControlFlow::Continue(())
    }

    /// Takes down a frame made by `push_frame_save`: restores the
    /// registers `regs` from below the frame pointer, then pops the frame
    /// as `pop_frame` does.
    pub fn pop_frame_restore(&mut self, amt: u16, regs: UpperRegSet) -> (r: ControlFlow<Done>)
        requires
            old(self)@.wf(),
            spec_restorable(
                old(self)@.state,
                regs.spec_members(16),
                amt as int,
                regs.spec_members(16).len(),
            ),
            spec_restored(
                old(self)@.state,
                regs.spec_members(16),
                amt as int,
                regs.spec_members(16).len(),
            ).in_bounds(old(self)@.state.fp, 16),
        ensures
            r is Continue,
            ({
                let start = old(self)@;
                let restored = spec_restored(
                    start.state,
                    regs.spec_members(16),
                    amt as int,
                    regs.spec_members(16).len(),
                );
                let frame = start.state.fp;
                final(self)@ == (InterpView {
                    state: restored.set_sp((frame + 16) as u64),
                    ..start
                }).set_fp(restored.value_at::<u64>(frame)).set_lr(
                    restored.value_at::<u64>((frame + 8) as u64),
                )
            }),
    {
        let members = regs.members();
        let ghost wanted = regs.spec_members(16);
        let ghost start = self@;
        proof {
            regs.lemma_members_range(16);
        }
        let mut k: usize = 0;
        while k < members.len()
            invariant
                k <= members@.len(),
                members@.len() == wanted.len(),
                wanted.len() <= 16,
                forall|j: int| 0 <= j < members@.len() ==> (#[trigger] members@[j]).spec_index() == wanted[j],
                forall|j: int| 0 <= j < wanted.len() ==> 16 <= #[trigger] wanted[j] < 32,
                start.wf(),
                spec_restorable(start.state, wanted, amt as int, wanted.len()),
                self@ == (InterpView {
                    state: spec_restored(start.state, wanted, amt as int, k as nat),
                    ..start
                }),
            decreases members@.len() - k,
        {
            proof {
                lemma_restorable_prefix(
                    start.state,
                    wanted,
                    amt as int,
                    wanted.len(),
                    (k + 1) as nat,
                );
                lemma_restored_keeps(start.state, wanted, amt as int, k as nat);
                let before = spec_restored(start.state, wanted, amt as int, k as nat);
                assert(before.in_bounds(spec_restore_addr(before, amt as int, (k + 1) as nat), 8));
            }
            let reg = members[k];
            let sp = self.state().sp();
            let offset: i64 = amt as i64 - 8 * (k as i64 + 1);
            let addr = sp.wrapping_add_signed(offset);
            let val = self.read::<u64>(addr);
            self.set_x_u64(reg, val);
            k += 1;
        }
        proof {
            lemma_restored_keeps(start.state, wanted, amt as int, wanted.len());
        }
        self.pop_frame()
    }
}

/// What can be restored in full can be restored in part.
pub proof fn lemma_restorable_prefix(st: StateView, members: Seq<int>, amt: int, n: nat, k: nat)
    requires
        k <= n,
        spec_restorable(st, members, amt, n),
    ensures
        spec_restorable(st, members, amt, k),
    decreases n - k,
{
    if k < n {
        lemma_restorable_prefix(st, members, amt, n, k + 1);
    }
}

/// Restoring registers changes integer registers only.
pub proof fn lemma_restored_keeps(st: StateView, members: Seq<int>, amt: int, k: nat)
    requires
        st.wf(),
        forall|j: int| 0 <= j < k ==> 0 <= #[trigger] members[j] < 32,
    ensures
        spec_restored(st, members, amt, k).wf(),
        spec_restored(st, members, amt, k).f == st.f,
        spec_restored(st, members, amt, k).v == st.v,
        spec_restored(st, members, amt, k).fp == st.fp,
        spec_restored(st, members, amt, k).lr == st.lr,
        spec_restored(st, members, amt, k).done_reason == st.done_reason,
        spec_restored(st, members, amt, k).stack == st.stack,
    decreases k,
{
    if k > 0 {
        lemma_restored_keeps(st, members, amt, (k - 1) as nat);
    }
}

impl Interpreter {
    /// Does a frame of two words lie in the stack at the frame pointer?
    pub fn frame_in_stack(&self) -> (ok: bool)
        ensures
            ok == (self@.wf() && self@.state.in_bounds(self@.state.fp, 16)),
    {
        self.in_bounds(self.fp(), 16)
    }

    /// Can a frame with `amt` bytes of room be made that saves the
    /// registers `regs`: is the stack pointer in the stack, and does the
    /// room hold the registers?
    pub fn can_save(&self, amt: u16, regs: UpperRegSet) -> (ok: bool)
        ensures
            ok == ({
                &&& self@.wf()
                &&& self@.state.sp_valid()
                &&& 8 * regs.spec_members(16).len() <= amt
            }),
    {
        proof {
            regs.lemma_members_range(16);
        }
        let count = regs.members().len();
        self.sp_valid() && 8 * count <= amt as usize
    }

    /// Can `amt` bytes of stack be freed: is the stack pointer in the
    /// stack, and does it stay there?
    pub fn can_free(&self, amt: u32) -> (ok: bool)
        ensures
            ok == (self@.state.sp_valid() && self@.state.sp() + amt <= self@.state.stack_end()),
    {
        if !self.sp_valid() {
            return false;
        }
        let sp = self.state().sp();
        let end = self.state().stack_end();
        amt as u64 <= end - sp
    }

    /// Can the registers `regs` be restored from a frame with `amt` bytes
    /// of room, and the frame be popped afterwards?
    pub fn restorable(&self, amt: u16, regs: UpperRegSet) -> (ok: bool)
        ensures
            ok == ({
                &&& self@.wf()
                &&& spec_restorable(
                    self@.state,
                    regs.spec_members(16),
                    amt as int,
                    regs.spec_members(16).len(),
                )
                &&& spec_restored(
                    self@.state,
                    regs.spec_members(16),
                    amt as int,
                    regs.spec_members(16).len(),
                ).in_bounds(self@.state.fp, 16)
            }),
    {
        let members = regs.members();
        let ghost wanted = regs.spec_members(16);
        let ghost st = self@.state;
        proof {
            regs.lemma_members_range(16);
        }
        let mut sp = self.state().sp();
        let mut k: usize = 0;
        while k < members.len()
            invariant
                k <= members@.len(),
                members@.len() == wanted.len(),
                wanted.len() <= 16,
                forall|j: int| 0 <= j < members@.len() ==> (#[trigger] members@[j]).spec_index() == wanted[j],
                forall|j: int| 0 <= j < wanted.len() ==> 16 <= #[trigger] wanted[j] < 32,
                st == self@.state,
                st.wf(),
                wanted == regs.spec_members(16),
                spec_restorable(st, wanted, amt as int, k as nat),
                sp == spec_restored(st, wanted, amt as int, k as nat).sp(),
            decreases members@.len() - k,
        {
            proof {
                lemma_restored_keeps(st, wanted, amt as int, k as nat);
            }
            let offset: i64 = amt as i64 - 8 * (k as i64 + 1);
            let addr = sp.wrapping_add_signed(offset);
            if !self.in_bounds(addr, 8) {
                proof {
                    let before = spec_restored(st, wanted, amt as int, k as nat);
                    assert(addr == spec_restore_addr(before, amt as int, (k + 1) as nat));
                    assert(!spec_restorable(st, wanted, amt as int, (k + 1) as nat));
                    if spec_restorable(st, wanted, amt as int, wanted.len()) {
                        lemma_restorable_prefix(
                            st,
                            wanted,
                            amt as int,
                            wanted.len(),
                            (k + 1) as nat,
                        );
                    }
                }
                return false;
            }
            if members[k].index() == 30 {
                sp = self.read::<u64>(addr);
            }
            k += 1;
        }
        proof {
            lemma_restored_keeps(st, wanted, amt as int, wanted.len());
        }
        self.in_bounds(self.fp(), 16)
    }
}

} // verus!
