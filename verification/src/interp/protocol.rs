//! How a stop of the interpreter reaches the caller.
//!
//! A handler that stops the interpreter records the reason in the machine
//! and returns the token of a stop; a handler that lets the interpreter
//! go on records nothing.

use crate::interp::dispatch::Op;
use crate::interp::machine::InterpView;
use crate::interp::ops_frame::{spec_restored, spec_saved};
use crate::interp::state::{Done, StateView};
use core::ops::ControlFlow;
use vstd::prelude::*;

verus! {

/// Saving registers records no reason and takes none away.
proof fn lemma_saved_reason(st: StateView, members: Seq<int>, amt: int, k: nat)
    ensures
        spec_saved(st, members, amt, k).done_reason == st.done_reason,
    decreases k,
{
    if k > 0 {
        lemma_saved_reason(st, members, amt, (k - 1) as nat);
    }
}

/// Restoring registers records no reason and takes none away.
proof fn lemma_restored_reason(st: StateView, members: Seq<int>, amt: int, k: nat)
    ensures
        spec_restored(st, members, amt, k).done_reason == st.done_reason,
    decreases k,
{
    if k > 0 {
        lemma_restored_reason(st, members, amt, (k - 1) as nat);
    }
}

/// The law for an arithmetic instruction.
proof fn lemma_arith_stop(before: InterpView, op: Op, r: ControlFlow<Done>, after: InterpView)
    requires
        before.state.done_reason is None,
        before.ready(op),
        before.arith_steps_to(op, r, after),
    ensures
        r is Break <==> after.state.done_reason is Some,
{
}

/// The law for an instruction of control flow.
proof fn lemma_control_stop(before: InterpView, op: Op, r: ControlFlow<Done>, after: InterpView)
    requires
        before.state.done_reason is None,
        before.ready(op),
        before.control_steps_to(op, r, after),
    ensures
        r is Break <==> after.state.done_reason is Some,
{
}

/// The law for an instruction on frames.
proof fn lemma_frame_stop(before: InterpView, op: Op, r: ControlFlow<Done>, after: InterpView)
    requires
        before.state.done_reason is None,
        before.ready(op),
        before.frame_steps_to(op, r, after),
    ensures
        r is Break <==> after.state.done_reason is Some,
{
    match op {
        Op::PushFrameSave { amt, regs } => {
            let new_sp = (before.state.sp() - amt - 16) as u64;
            let framed = StateView {
                fp: (new_sp + amt) as u64,
                ..before.state.set_sp(new_sp).write_value::<u64>(
                    (new_sp + amt + 8) as u64,
                    before.state.lr,
                ).write_value::<u64>((new_sp + amt) as u64, before.state.fp)
            };
            lemma_saved_reason(
                framed,
                regs.spec_members(16),
                amt as int,
                regs.spec_members(16).len(),
            );
        },
        Op::PopFrameRestore { amt, regs } => {
            lemma_restored_reason(
                before.state,
                regs.spec_members(16),
                amt as int,
                regs.spec_members(16).len(),
            );
        },
        _ => {},
    }
}

/// The law for a load or store at a register plus a constant.
proof fn lemma_offset_stop(before: InterpView, op: Op, r: ControlFlow<Done>, after: InterpView)
    requires
        before.state.done_reason is None,
        before.ready(op),
        before.offset_steps_to(op, r, after),
    ensures
        r is Break <==> after.state.done_reason is Some,
{
}

/// The law for a load or store at an address that is tested for null.
proof fn lemma_checked_stop(before: InterpView, op: Op, r: ControlFlow<Done>, after: InterpView)
    requires
        before.state.done_reason is None,
        before.ready(op),
        before.checked_steps_to(op, r, after),
    ensures
        r is Break <==> after.state.done_reason is Some,
{
}

/// The law for a load or store in a heap with its bound in a register.
proof fn lemma_bounded_stop(before: InterpView, op: Op, r: ControlFlow<Done>, after: InterpView)
    requires
        before.state.done_reason is None,
        before.ready(op),
        before.bounded_steps_to(op, r, after),
    ensures
        r is Break <==> after.state.done_reason is Some,
{
}

/// The law for a load or store in a heap with its bound in memory.
proof fn lemma_guarded_stop(before: InterpView, op: Op, r: ControlFlow<Done>, after: InterpView)
    requires
        before.state.done_reason is None,
        before.ready(op),
        before.guarded_steps_to(op, r, after),
    ensures
        r is Break <==> after.state.done_reason is Some,
{
}

/// The law for a move between the banks of registers.
proof fn lemma_moves_stop(before: InterpView, op: Op, r: ControlFlow<Done>, after: InterpView)
    requires
        before.state.done_reason is None,
        before.ready(op),
        before.moves_steps_to(op, r, after),
    ensures
        r is Break <==> after.state.done_reason is Some,
{
}

/// The law for a conversion to an integer.
proof fn lemma_conversion_stop(before: InterpView, op: Op, r: ControlFlow<Done>, after: InterpView)
    requires
        before.state.done_reason is None,
        before.ready(op),
        before.conversion_steps_to(op, r, after),
    ensures
        r is Break <==> after.state.done_reason is Some,
{
}

/// The law for a vector instruction that works lane by lane.
proof fn lemma_lanewise_stop(before: InterpView, op: Op, r: ControlFlow<Done>, after: InterpView)
    requires
        before.state.done_reason is None,
        before.ready(op),
        before.lanewise_steps_to(op, r, after),
    ensures
        r is Break <==> after.state.done_reason is Some,
{
}

/// The law for a vector instruction that moves lanes.
proof fn lemma_lanes_stop(before: InterpView, op: Op, r: ControlFlow<Done>, after: InterpView)
    requires
        before.state.done_reason is None,
        before.ready(op),
        before.lanes_steps_to(op, r, after),
    ensures
        r is Break <==> after.state.done_reason is Some,
{
}

/// The law for an instruction on the sign of a number.
proof fn lemma_sign_stop(before: InterpView, op: Op, r: ControlFlow<Done>, after: InterpView)
    requires
        before.state.done_reason is None,
        before.ready(op),
        before.sign_steps_to(op, r, after),
    ensures
        r is Break <==> after.state.done_reason is Some,
{
}

/// An instruction stops the interpreter exactly if it records a reason:
/// where none was recorded before, a reason is recorded afterwards if
/// and only if the instruction returned a stop.
pub proof fn lemma_stop_is_recorded(
    before: InterpView,
    op: Op,
    r: ControlFlow<Done>,
    after: InterpView,
)
    requires
        before.state.done_reason is None,
        before.ready(op),
        before.steps_to(op, r, after),
    ensures
        r is Break <==> after.state.done_reason is Some,
{
    if before.arith_steps_to(op, r, after) {
        lemma_arith_stop(before, op, r, after);
    }     else if before.control_steps_to(op, r, after) {
        lemma_control_stop(before, op, r, after);
    }     else if before.frame_steps_to(op, r, after) {
        lemma_frame_stop(before, op, r, after);
    }     else if before.offset_steps_to(op, r, after) {
        lemma_offset_stop(before, op, r, after);
    }     else if before.checked_steps_to(op, r, after) {
        lemma_checked_stop(before, op, r, after);
    }     else if before.bounded_steps_to(op, r, after) {
        lemma_bounded_stop(before, op, r, after);
    }     else if before.guarded_steps_to(op, r, after) {
        lemma_guarded_stop(before, op, r, after);
    }     else if before.moves_steps_to(op, r, after) {
        lemma_moves_stop(before, op, r, after);
    }     else if before.conversion_steps_to(op, r, after) {
        lemma_conversion_stop(before, op, r, after);
    }     else if before.lanewise_steps_to(op, r, after) {
        lemma_lanewise_stop(before, op, r, after);
    }     else if before.lanes_steps_to(op, r, after) {
        lemma_lanes_stop(before, op, r, after);
    }     else if before.sign_steps_to(op, r, after) {
        lemma_sign_stop(before, op, r, after);
    }
}

} // verus!
