//! The interpreter: a machine state and a program counter, with the
//! operations that all handlers share.

use crate::interp::encode::Encode;
use crate::interp::regs::{AddrG32, AddrG32Bne, AddrO32, AddrZ, FReg, PcRelOffset, VReg, XReg, SP};
use crate::interp::state::{
    Done, DoneReason, MachineState, MemValue, StateView, TrapKind, STACK_BASE,
};
use crate::interp::lanes::{spec_from_lanes16, spec_from_lanes32, spec_from_lanes64, spec_from_lanes8};
use crate::interp::value::{spec_with_low32, FRegVal, VRegVal, XRegVal};
use core::ops::ControlFlow;
use vstd::prelude::*;

verus! {

/// The interpreter as contracts see it.
pub ghost struct InterpView {
    /// The machine state.
    pub state: StateView,
    /// The address behind the instruction that is being carried out.
    pub pc: u64,
}

impl InterpView {
    /// The machine is well formed.
    pub open spec fn wf(self) -> bool {
        self.state.wf()
    }

    /// Integer register `i` as an unsigned 32-bit number.
    pub open spec fn x_u32(self, i: int) -> u32 {
        self.state.x[i].bits as u32
    }

    /// Integer register `i` as a signed 32-bit number.
    pub open spec fn x_i32(self, i: int) -> i32 {
        self.state.x[i].bits as i32
    }

    /// Integer register `i` as an unsigned 64-bit number.
    pub open spec fn x_u64(self, i: int) -> u64 {
        self.state.x[i].bits
    }

    /// Integer register `i` as a signed 64-bit number.
    pub open spec fn x_i64(self, i: int) -> i64 {
        self.state.x[i].bits as i64
    }

    /// The interpreter with integer register `i` holding `val`.
    pub open spec fn set_x(self, i: int, val: XRegVal) -> InterpView {
        InterpView { state: self.state.set_x(i, val), ..self }
    }

    /// The interpreter with the lower half of integer register `i`
    /// replaced by `v`.
    pub open spec fn set_x_u32(self, i: int, v: u32) -> InterpView {
        self.set_x(i, XRegVal { bits: spec_with_low32(self.state.x[i].bits, v) })
    }

    /// The interpreter with the lower half of integer register `i`
    /// replaced by the bits of `v`.
    pub open spec fn set_x_i32(self, i: int, v: i32) -> InterpView {
        self.set_x_u32(i, v as u32)
    }

    /// The interpreter with integer register `i` holding `v`.
    pub open spec fn set_x_u64(self, i: int, v: u64) -> InterpView {
        self.set_x(i, XRegVal { bits: v })
    }

    /// The interpreter with integer register `i` holding the bits of `v`.
    pub open spec fn set_x_i64(self, i: int, v: i64) -> InterpView {
        self.set_x(i, XRegVal { bits: v as u64 })
    }

    /// The interpreter with float register `i` holding `val`.
    pub open spec fn set_f(self, i: int, val: FRegVal) -> InterpView {
        InterpView { state: self.state.set_f(i, val), ..self }
    }

    /// The interpreter with vector register `i` holding `val`.
    pub open spec fn set_v(self, i: int, val: VRegVal) -> InterpView {
        InterpView { state: self.state.set_v(i, val), ..self }
    }

    /// The address at which the instruction of width `width` begins.
    pub open spec fn current_pc(self, width: u8) -> u64 {
        self.pc.wrapping_sub(width as u64)
    }

    /// The interpreter after a jump of `offset` bytes from the start of
    /// the instruction of width `width`.
    pub open spec fn jumped(self, width: u8, offset: i32) -> InterpView {
        InterpView { pc: self.current_pc(width).wrapping_add_signed(offset as i64), ..self }
    }

    /// The interpreter stopped by a trap of the instruction of width
    /// `width`.
    pub open spec fn trapped(self, width: u8, kind: Option<TrapKind>) -> InterpView {
        InterpView {
            state: StateView {
                done_reason: Some(DoneReason::Trap { pc: self.current_pc(width), kind }),
                ..self.state
            },
            ..self
        }
    }

    /// The interpreter stopped for the reason given.
    pub open spec fn stopped(self, reason: DoneReason<()>) -> InterpView {
        InterpView { state: StateView { done_reason: Some(reason), ..self.state }, ..self }
    }

    /// The interpreter after a push of `val`: the stack pointer is lower
    /// by the size of the value, and the value lies at the new stack
    /// pointer.
    pub open spec fn pushed<T: MemValue>(self, val: T) -> InterpView {
        let new_sp = (self.state.sp() - T::spec_size()) as u64;
        InterpView { state: self.state.set_sp(new_sp).write_value(new_sp, val), ..self }
    }

    /// Is there room below the stack pointer for a value of `size` bytes?
    pub open spec fn has_room(self, size: nat) -> bool {
        self.state.sp() - size >= STACK_BASE
    }

    /// The interpreter with `val` written at `addr`.
    pub open spec fn written<T: MemValue>(self, addr: u64, val: T) -> InterpView {
        InterpView { state: self.state.write_value(addr, val), ..self }
    }

    /// The interpreter with the lower half of float register `i` replaced
    /// by `bits`.
    pub open spec fn set_f32_bits(self, i: int, bits: u32) -> InterpView {
        self.set_f(i, FRegVal { bits: spec_with_low32(self.state.f[i].bits, bits) })
    }

    /// The interpreter with float register `i` holding `bits`.
    pub open spec fn set_f64_bits(self, i: int, bits: u64) -> InterpView {
        self.set_f(i, FRegVal { bits })
    }

    /// The interpreter with vector register `i` holding `bits`.
    pub open spec fn set_v128(self, i: int, bits: u128) -> InterpView {
        self.set_v(i, VRegVal { bits })
    }

    /// May `size` bytes be accessed through `addr`? What the mode reads
    /// on the way is there to be read, and the address that it yields
    /// lies in the machine's memory. The bytecode vouches for this.
    pub open spec fn can_access<A: AddressingMode>(self, addr: A, size: nat) -> bool {
        &&& addr.spec_ready(self.state, size)
        &&& match addr.spec_addr(self.state, size) {
            Some(a) => self.state.in_bounds(a, size),
            None => true,
        }
    }

    /// The interpreter after a pop of a value of `size` bytes.
    pub open spec fn popped(self, size: nat) -> InterpView {
        InterpView { state: self.state.set_sp((self.state.sp() + size) as u64), ..self }
    }
}

/// A machine state that is interpreted, and the place in the bytecode.
pub struct Interpreter {
    state: MachineState,
    pc: u64,
}

impl View for Interpreter {
    type V = InterpView;

    closed spec fn view(&self) -> InterpView {
        InterpView { state: self.state@, pc: self.pc }
    }
}

impl Interpreter {
    /// An interpreter for `state` whose next instruction is read at `pc`.
    pub fn new(state: MachineState, pc: u64) -> (i: Interpreter)
        ensures
            i@ == (InterpView { state: state@, pc }),
    {
        Interpreter { state, pc }
    }

    /// Gives the machine state back.
    pub fn into_state(self) -> (state: MachineState)
        ensures
            state@ == self@.state,
    {
        self.state
    }

    /// The machine state.
    pub fn state(&self) -> (state: &MachineState)
        ensures
            state@ == self@.state,
    {
        &self.state
    }

    /// The address behind the instruction that is being carried out.
    pub fn pc(&self) -> (pc: u64)
        ensures
            pc == self@.pc,
    {
        self.pc
    }

    /// Moves to the instruction at `pc`.
    pub fn set_pc(&mut self, pc: u64)
        ensures
            final(self)@ == (InterpView { pc, ..old(self)@ }),
    {
        self.pc = pc;
    }

    /// Integer register `reg` as an unsigned 32-bit number.
    pub fn x_u32(&self, reg: XReg) -> (v: u32)
        ensures
            v == self@.x_u32(reg.spec_index()),
            self@.wf(),
    {
        self.state.x(reg).get_u32()
    }

    /// Integer register `reg` as a signed 32-bit number.
    pub fn x_i32(&self, reg: XReg) -> (v: i32)
        ensures
            v == self@.x_i32(reg.spec_index()),
            self@.wf(),
    {
        self.state.x(reg).get_i32()
    }

    /// Integer register `reg` as an unsigned 64-bit number.
    pub fn x_u64(&self, reg: XReg) -> (v: u64)
        ensures
            v == self@.x_u64(reg.spec_index()),
            self@.wf(),
    {
        self.state.x(reg).get_u64()
    }

    /// Integer register `reg` as a signed 64-bit number.
    pub fn x_i64(&self, reg: XReg) -> (v: i64)
        ensures
            v == self@.x_i64(reg.spec_index()),
            self@.wf(),
    {
        self.state.x(reg).get_i64()
    }

    /// Writes the lower half of integer register `reg`.
    pub fn set_x_u32(&mut self, reg: XReg, v: u32)
        ensures
            final(self)@ == old(self)@.set_x_u32(reg.spec_index(), v),
    {
        let mut val = self.state.x(reg);
        val.set_u32(v);
        self.state.set_x(reg, val);
    }

    /// Writes the lower half of integer register `reg`.
    pub fn set_x_i32(&mut self, reg: XReg, v: i32)
        ensures
            final(self)@ == old(self)@.set_x_i32(reg.spec_index(), v),
    {
        let mut val = self.state.x(reg);
        val.set_i32(v);
        self.state.set_x(reg, val);
    }

    /// Writes integer register `reg`.
    pub fn set_x_u64(&mut self, reg: XReg, v: u64)
        ensures
            final(self)@ == old(self)@.set_x_u64(reg.spec_index(), v),
    {
        let mut val = self.state.x(reg);
        val.set_u64(v);
        self.state.set_x(reg, val);
    }

    /// Writes integer register `reg`.
    pub fn set_x_i64(&mut self, reg: XReg, v: i64)
        ensures
            final(self)@ == old(self)@.set_x_i64(reg.spec_index(), v),
    {
        let mut val = self.state.x(reg);
        val.set_i64(v);
        self.state.set_x(reg, val);
    }

    /// The value of an integer register.
    pub fn x(&self, reg: XReg) -> (val: XRegVal)
        ensures
            val == self@.state.x[reg.spec_index()],
            self@.wf(),
    {
        self.state.x(reg)
    }

    /// Sets an integer register.
    pub fn set_x(&mut self, reg: XReg, val: XRegVal)
        ensures
            final(self)@ == old(self)@.set_x(reg.spec_index(), val),
    {
        self.state.set_x(reg, val);
    }

    /// The value of a float register.
    pub fn f(&self, reg: FReg) -> (val: FRegVal)
        ensures
            val == self@.state.f[reg.spec_index()],
            self@.wf(),
    {
        self.state.f(reg)
    }

    /// Sets a float register.
    pub fn set_f(&mut self, reg: FReg, val: FRegVal)
        ensures
            final(self)@ == old(self)@.set_f(reg.spec_index(), val),
    {
        self.state.set_f(reg, val);
    }

    /// The value of a vector register.
    pub fn v(&self, reg: VReg) -> (val: VRegVal)
        ensures
            val == self@.state.v[reg.spec_index()],
            self@.wf(),
    {
        self.state.v(reg)
    }

    /// Sets a vector register.
    pub fn set_v(&mut self, reg: VReg, val: VRegVal)
        ensures
            final(self)@ == old(self)@.set_v(reg.spec_index(), val),
    {
        self.state.set_v(reg, val);
    }

    /// The frame pointer.
    pub fn fp(&self) -> (fp: u64)
        ensures
            fp == self@.state.fp,
    {
        self.state.fp()
    }

    /// The link register.
    pub fn lr(&self) -> (lr: u64)
        ensures
            lr == self@.state.lr,
    {
        self.state.lr()
    }

    /// Sets the frame pointer.
    pub fn set_fp(&mut self, fp: u64)
        ensures
            final(self)@ == (
                InterpView { state: StateView { fp, ..old(self)@.state }, ..old(self)@ }
            ),
    {
        self.state.set_fp(fp);
    }

    /// Sets the link register.
    pub fn set_lr(&mut self, lr: u64)
        ensures
            final(self)@ == (
                InterpView { state: StateView { lr, ..old(self)@.state }, ..old(self)@ }
            ),
    {
        self.state.set_lr(lr);
    }

    /// The address at which the instruction `I` that is being carried out
    /// begins: the program counter stands behind it.
    pub fn current_pc<I: Encode>(&self) -> (pc: u64)
        ensures
            pc == self@.current_pc(I::spec_width()),
    {
        self.pc.wrapping_sub(I::width() as u64)
    }

    /// Jumps `offset` bytes from the start of the instruction `I` that is
    /// being carried out.
    pub fn pc_rel_jump<I: Encode>(&mut self, offset: PcRelOffset) -> (r: ControlFlow<Done>)
        ensures
            r is Continue,
            final(self)@ == old(self)@.jumped(I::spec_width(), offset.0),
    {
        let my_pc = self.current_pc::<I>();
        self.pc = my_pc.wrapping_add_signed(offset.0 as i64);
        ControlFlow::Continue(())
    }

    /// Stops with a trap of unknown kind, raised by instruction `I`.
    pub fn done_trap<I: Encode>(&mut self) -> (r: ControlFlow<Done>)
        ensures
            r is Break,
            final(self)@ == old(self)@.trapped(I::spec_width(), None),
    {
        self.done_trap_kind::<I>(None)
    }

    /// Stops with a trap of the given kind, raised by instruction `I`. The
    /// trap is reported at the address at which the instruction begins.
    pub fn done_trap_kind<I: Encode>(&mut self, kind: Option<TrapKind>) -> (r: ControlFlow<Done>)
        ensures
            r is Break,
            final(self)@ == old(self)@.trapped(I::spec_width(), kind),
    {
        let pc = self.current_pc::<I>();
        self.state.set_done_reason(DoneReason::Trap { pc, kind });
        ControlFlow::Break(Done::new())
    }

    /// Stops to let the host run its function `id`; the host resumes
    /// behind the instruction.
    pub fn done_call_indirect_host(&mut self, id: u8) -> (r: ControlFlow<Done>)
        ensures
            r is Break,
            final(self)@ == old(self)@.stopped(
                DoneReason::CallIndirectHost { id, resume: old(self)@.pc },
            ),
    {
        self.state.set_done_reason(DoneReason::CallIndirectHost { id, resume: self.pc });
        ControlFlow::Break(Done::new())
    }

    /// Stops because the bytecode returned to the host.
    pub fn done_return_to_host(&mut self) -> (r: ControlFlow<Done>)
        ensures
            r is Break,
            final(self)@ == old(self)@.stopped(DoneReason::ReturnToHost(())),
    {
        self.state.set_done_reason(DoneReason::ReturnToHost(()));
        ControlFlow::Break(Done::new())
    }

    /// Sets the stack pointer to `sp`, unless `sp` lies below the stack:
    /// then instruction `I` traps with a stack overflow and the stack
    /// pointer stays.
    pub fn set_sp<I: Encode>(&mut self, sp: u64) -> (r: ControlFlow<Done>)
        requires
            sp <= old(self)@.state.stack_end(),
        ensures
            sp >= STACK_BASE ==> r is Continue && final(self)@ == (InterpView {
                state: old(self)@.state.set_sp(sp),
                ..old(self)@
            }),
            sp < STACK_BASE ==> r is Break && final(self)@ == old(self)@.trapped(
                I::spec_width(),
                Some(TrapKind::StackOverflow),
            ),
    {
        let base_raw = self.state.stack_base();
        if sp < base_raw {
            return self.done_trap_kind::<I>(Some(TrapKind::StackOverflow));
        }
        self.set_sp_unchecked(sp);
        ControlFlow::Continue(())
    }

    /// Sets the stack pointer to `sp`, which points into the stack or just
    /// behind it. For moves towards the high end only, which cannot leave
    /// the stack at the low end.
    pub fn set_sp_unchecked(&mut self, sp: u64)
        requires
            STACK_BASE <= sp <= old(self)@.state.stack_end(),
        ensures
            final(self)@ == (InterpView { state: old(self)@.state.set_sp(sp), ..old(self)@ }),
    {
        self.state.set_x(XReg::sp(), XRegVal::new_ptr(sp));
    }

    /// Pushes `val`: the stack pointer moves down by the size of the
    /// value and the value is written there. Where that would leave the
    /// stack, instruction `I` traps with a stack overflow and neither the
    /// stack pointer nor the stack changes.
    pub fn push<I: Encode, T: MemValue>(&mut self, val: T) -> (r: ControlFlow<Done>)
        requires
            old(self)@.state.sp_valid(),
        ensures
            old(self)@.has_room(T::spec_size()) ==> r is Continue && final(self)@ == old(
                self,
            )@.pushed(val),
            !old(self)@.has_room(T::spec_size()) ==> r is Break && final(self)@ == old(
                self,
            )@.trapped(I::spec_width(), Some(TrapKind::StackOverflow)),
    {
        let sp = self.state.sp();
        let size = T::size();
        if sp < size {
            return self.done_trap_kind::<I>(Some(TrapKind::StackOverflow));
        }
        let new_sp = sp - size;
        match self.set_sp::<I>(new_sp) {
            ControlFlow::Continue(_) => {},
            ControlFlow::Break(done) => {
                return ControlFlow::Break(done);
            },
        }
        self.state.write::<T>(new_sp, val);
        ControlFlow::Continue(())
    }

    /// Pops a value: it is read at the stack pointer, which then moves up
    /// by the size of the value. A pop undoes a push, so the value lies
    /// in the stack.
    pub fn pop<T: MemValue>(&mut self) -> (val: T)
        requires
            old(self)@.state.in_bounds(old(self)@.state.sp(), T::spec_size()),
        ensures
            val == old(self)@.state.value_at::<T>(old(self)@.state.sp()),
            final(self)@ == old(self)@.popped(T::spec_size()),
    {
        let sp = self.state.sp();
        let val = self.state.read::<T>(sp);
        self.set_sp_unchecked(sp + T::size());
        val
    }
}

/// A way to compute the address of an access to memory.
pub trait AddressingMode: Copy {
    /// What the mode itself reads is there to be read, and its
    /// subtractions do not wrap.
    spec fn spec_ready(self, st: StateView, size: nat) -> bool;

    /// The address of an access of `size` bytes, or none if the access
    /// traps as out of bounds.
    spec fn spec_addr(self, st: StateView, size: nat) -> Option<u64>;

    /// Tests whether `size` bytes may be accessed through this address.
    fn check(self, i: &Interpreter, size: u64) -> (ok: bool)
        requires
            1 <= size <= 16,
        ensures
            ok == (self.spec_ready(i@.state, size as nat) && match self.spec_addr(
                i@.state,
                size as nat,
            ) {
                Some(a) => i@.state.in_bounds(a, size as nat),
                None => true,
            }),
    ;

    /// Computes the address of an access of `size` bytes by instruction
    /// `I`, or stops with a trap.
    fn addr<I: Encode>(self, i: &mut Interpreter, size: u64) -> (r: ControlFlow<Done, u64>)
        requires
            1 <= size <= 16,
            self.spec_ready(old(i)@.state, size as nat),
        ensures
            match self.spec_addr(old(i)@.state, size as nat) {
                Some(a) => r == ControlFlow::<Done, u64>::Continue(a) && final(i)@ == old(i)@,
                None => r is Break && final(i)@ == old(i)@.trapped(
                    I::spec_width(),
                    Some(TrapKind::MemoryOutOfBounds),
                ),
            },
    ;
}

impl AddressingMode for AddrO32 {
    open spec fn spec_ready(self, st: StateView, size: nat) -> bool {
        true
    }

    /// The register plus the offset, trusted as it is.
    open spec fn spec_addr(self, st: StateView, size: nat) -> Option<u64> {
        Some(st.x[self.addr.spec_index()].bits.wrapping_add_signed(self.offset as i64))
    }

    fn check(self, i: &Interpreter, size: u64) -> (ok: bool) {
        let base = i.x(self.addr).get_ptr();
        i.in_bounds(base.wrapping_add_signed(self.offset as i64), size)
    }

    fn addr<I: Encode>(self, i: &mut Interpreter, size: u64) -> (r: ControlFlow<Done, u64>) {
        let base = i.x(self.addr).get_ptr();
        ControlFlow::Continue(base.wrapping_add_signed(self.offset as i64))
    }
}

impl AddressingMode for AddrZ {
    open spec fn spec_ready(self, st: StateView, size: nat) -> bool {
        true
    }

    /// The register plus the offset, unless the register holds the null
    /// address.
    open spec fn spec_addr(self, st: StateView, size: nat) -> Option<u64> {
        if st.x[self.addr.spec_index()].bits == 0 {
            None
        } else {
            Some(st.x[self.addr.spec_index()].bits.wrapping_add_signed(self.offset as i64))
        }
    }

    fn check(self, i: &Interpreter, size: u64) -> (ok: bool) {
        let host_addr = i.x(self.addr).get_ptr();
        host_addr == 0 || i.in_bounds(host_addr.wrapping_add_signed(self.offset as i64), size)
    }

    fn addr<I: Encode>(self, i: &mut Interpreter, size: u64) -> (r: ControlFlow<Done, u64>) {
        let host_addr = i.x(self.addr).get_ptr();
        if host_addr == 0 {
            return match i.done_trap_kind::<I>(Some(TrapKind::MemoryOutOfBounds)) {
                ControlFlow::Break(done) => ControlFlow::Break(done),
                ControlFlow::Continue(_) => vstd::pervasive::unreached(),
            };
        }
        ControlFlow::Continue(host_addr.wrapping_add_signed(self.offset as i64))
    }
}

/// The address in a heap of the access at `wasm_addr` plus `offset`, or
/// none if the access would reach past `bound`.
///
/// The bound is compared with the untrusted address by subtraction, so
/// that nothing is added to the untrusted address before it is checked.
pub open spec fn spec_heap_addr(
    base: u64,
    bound: u64,
    wasm_addr: u32,
    offset: u64,
    size: nat,
) -> Option<
    u64,
> {
    if wasm_addr > bound - offset - size {
        None
    } else {
        Some(base.wrapping_add(wasm_addr as u64).wrapping_add(offset))
    }
}

fn heap_check(
    i: &Interpreter,
    base: u64,
    bound: u64,
    wasm_addr: u32,
    offset: u64,
    size: u64,
) -> (ok:
    bool)
    requires
        1 <= size <= 16,
        offset <= 0xffff,
    ensures
        ok == (bound >= offset + size && match spec_heap_addr(
            base,
            bound,
            wasm_addr,
            offset,
            size as nat,
        ) {
            Some(a) => i@.state.in_bounds(a, size as nat),
            None => true,
        }),
{
    if bound < offset + size {
        return false;
    }
    if wasm_addr as u64 > bound - offset - size {
        return true;
    }
    i.in_bounds(base.wrapping_add(wasm_addr as u64).wrapping_add(offset), size)
}

fn heap_addr<I: Encode>(
    i: &mut Interpreter,
    base: u64,
    bound: u64,
    wasm_addr: u32,
    offset: u64,
    size: u64,
) -> (r: ControlFlow<Done, u64>)
    requires
        bound >= offset + size,
    ensures
        match spec_heap_addr(base, bound, wasm_addr, offset, size as nat) {
            Some(a) => r == ControlFlow::<Done, u64>::Continue(a) && final(i)@ == old(i)@,
            None => r is Break && final(i)@ == old(i)@.trapped(
                I::spec_width(),
                Some(TrapKind::MemoryOutOfBounds),
            ),
        },
{
    if wasm_addr as u64 > bound - offset - size {
        return match i.done_trap_kind::<I>(Some(TrapKind::MemoryOutOfBounds)) {
            ControlFlow::Break(done) => ControlFlow::Break(done),
            ControlFlow::Continue(_) => vstd::pervasive::unreached(),
        };
    }
    ControlFlow::Continue(base.wrapping_add(wasm_addr as u64).wrapping_add(offset))
}

impl AddressingMode for AddrG32 {
    /// The bound covers the constant offset and the size of the access.
    open spec fn spec_ready(self, st: StateView, size: nat) -> bool {
        st.x[self.host_heap_bound.spec_index()].bits >= self.offset + size
    }

    open spec fn spec_addr(self, st: StateView, size: nat) -> Option<u64> {
        spec_heap_addr(
            st.x[self.host_heap_base.spec_index()].bits,
            st.x[self.host_heap_bound.spec_index()].bits,
            st.x[self.wasm_addr.spec_index()].bits as u32,
            self.offset as u64,
            size,
        )
    }

    fn check(self, i: &Interpreter, size: u64) -> (ok: bool) {
        let bound = i.x_u64(self.host_heap_bound);
        let wasm_addr = i.x_u32(self.wasm_addr);
        let base = i.x(self.host_heap_base).get_ptr();
        heap_check(i, base, bound, wasm_addr, self.offset as u64, size)
    }

    fn addr<I: Encode>(self, i: &mut Interpreter, size: u64) -> (r: ControlFlow<Done, u64>) {
        let bound = i.x_u64(self.host_heap_bound);
        let offset = self.offset as u64;
        let wasm_addr = i.x_u32(self.wasm_addr);
        let base = i.x(self.host_heap_base).get_ptr();
        heap_addr::<I>(i, base, bound, wasm_addr, offset, size)
    }
}

impl AddrG32Bne {
    /// The address at which the bound is kept.
    pub open spec fn spec_bound_addr(self, st: StateView) -> u64 {
        st.x[self.host_heap_bound_addr.spec_index()].bits.wrapping_add(
            self.host_heap_bound_offset as u64,
        )
    }
}

impl AddressingMode for AddrG32Bne {
    /// The bound is in memory, and it covers the constant offset and the
    /// size of the access.
    open spec fn spec_ready(self, st: StateView, size: nat) -> bool {
        &&& st.in_bounds(self.spec_bound_addr(st), 8)
        &&& st.value_at::<u64>(self.spec_bound_addr(st)) >= self.offset + size
    }

    open spec fn spec_addr(self, st: StateView, size: nat) -> Option<u64> {
        spec_heap_addr(
            st.x[self.host_heap_base.spec_index()].bits,
            st.value_at::<u64>(self.spec_bound_addr(st)),
            st.x[self.wasm_addr.spec_index()].bits as u32,
            self.offset as u64,
            size,
        )
    }

    fn check(self, i: &Interpreter, size: u64) -> (ok: bool) {
        let bound_addr = i.x(self.host_heap_bound_addr).get_ptr().wrapping_add(
            self.host_heap_bound_offset as u64,
        );
        if !i.in_bounds(bound_addr, 8) {
            return false;
        }
        let bound = i.state().read::<u64>(bound_addr);
        let wasm_addr = i.x_u32(self.wasm_addr);
        let base = i.x(self.host_heap_base).get_ptr();
        heap_check(i, base, bound, wasm_addr, self.offset as u64, size)
    }

    fn addr<I: Encode>(self, i: &mut Interpreter, size: u64) -> (r: ControlFlow<Done, u64>) {
        let bound_addr = i.x(self.host_heap_bound_addr).get_ptr().wrapping_add(
            self.host_heap_bound_offset as u64,
        );
        let bound = i.state().read::<u64>(bound_addr);
        let wasm_addr = i.x_u32(self.wasm_addr);
        let offset = self.offset as u64;
        let base = i.x(self.host_heap_base).get_ptr();
        heap_addr::<I>(i, base, bound, wasm_addr, offset, size)
    }
}

impl Interpreter {
    /// Do the `len` bytes at `addr` lie in the machine's memory?
    pub fn in_bounds(&self, addr: u64, len: u64) -> (ok: bool)
        requires
            len <= 16,
        ensures
            ok == self@.state.in_bounds(addr, len as nat),
            self@.wf(),
    {
        let end = self.state.stack_end();
        STACK_BASE <= addr && addr <= end - len
    }

    /// Does the stack pointer point into the stack or just behind it?
    pub fn sp_valid(&self) -> (ok: bool)
        ensures
            ok == self@.state.sp_valid(),
            self@.wf(),
    {
        let sp = self.state.sp();
        let end = self.state.stack_end();
        STACK_BASE <= sp && sp <= end
    }

    /// Writes the 16 lanes of 8 bits of vector register `reg`.
    pub fn set_v_u8x16(&mut self, reg: VReg, lanes: [u8; 16])
        ensures
            final(self)@ == old(self)@.set_v128(reg.spec_index(), spec_from_lanes8(lanes@, 16)),
    {
        let mut val = self.v(reg);
        val.set_u8x16(lanes);
        self.set_v(reg, val);
    }

    /// Writes the 8 lanes of 16 bits of vector register `reg`.
    pub fn set_v_u16x8(&mut self, reg: VReg, lanes: [u16; 8])
        ensures
            final(self)@ == old(self)@.set_v128(reg.spec_index(), spec_from_lanes16(lanes@, 8)),
    {
        let mut val = self.v(reg);
        val.set_u16x8(lanes);
        self.set_v(reg, val);
    }

    /// Writes the 4 lanes of 32 bits of vector register `reg`.
    pub fn set_v_u32x4(&mut self, reg: VReg, lanes: [u32; 4])
        ensures
            final(self)@ == old(self)@.set_v128(reg.spec_index(), spec_from_lanes32(lanes@, 4)),
    {
        let mut val = self.v(reg);
        val.set_u32x4(lanes);
        self.set_v(reg, val);
    }

    /// Writes the 2 lanes of 64 bits of vector register `reg`.
    pub fn set_v_u64x2(&mut self, reg: VReg, lanes: [u64; 2])
        ensures
            final(self)@ == old(self)@.set_v128(reg.spec_index(), spec_from_lanes64(lanes@, 2)),
    {
        let mut val = self.v(reg);
        val.set_u64x2(lanes);
        self.set_v(reg, val);
    }

    /// Reads the value at `addr`.
    pub fn read<T: MemValue>(&self, addr: u64) -> (val: T)
        requires
            self@.state.in_bounds(addr, T::spec_size()),
        ensures
            val == self@.state.value_at::<T>(addr),
    {
        self.state.read::<T>(addr)
    }

    /// Writes `val` at `addr`.
    pub fn write<T: MemValue>(&mut self, addr: u64, val: T)
        requires
            old(self)@.state.in_bounds(addr, T::spec_size()),
        ensures
            final(self)@ == old(self)@.written::<T>(addr, val),
    {
        self.state.write::<T>(addr, val);
    }

    /// Writes the lower half of float register `reg`.
    pub fn set_f32_bits(&mut self, reg: FReg, bits: u32)
        ensures
            final(self)@ == old(self)@.set_f32_bits(reg.spec_index(), bits),
    {
        let mut val = self.f(reg);
        val.set_f32_bits(bits);
        self.set_f(reg, val);
    }

    /// Writes float register `reg`.
    pub fn set_f64_bits(&mut self, reg: FReg, bits: u64)
        ensures
            final(self)@ == old(self)@.set_f64_bits(reg.spec_index(), bits),
    {
        self.set_f(reg, FRegVal::new_f64_bits(bits));
    }

    /// Writes vector register `reg`.
    pub fn set_v128(&mut self, reg: VReg, bits: u128)
        ensures
            final(self)@ == old(self)@.set_v128(reg.spec_index(), bits),
    {
        self.set_v(reg, VRegVal::new_u128(bits));
    }

    /// Loads a value through `addr`, for instruction `I`: the value, or a
    /// stop with a trap where the addressing mode finds the access out of
    /// bounds.
    pub fn load<T: MemValue, I: Encode, A: AddressingMode>(&mut self, addr: A) -> (r: ControlFlow<
        Done,
        T,
    >)
        requires
            old(self)@.can_access(addr, T::spec_size()),
        ensures
            match addr.spec_addr(old(self)@.state, T::spec_size()) {
                Some(a) => r == ControlFlow::<Done, T>::Continue(
                    old(self)@.state.value_at::<T>(a),
                ) && final(self)@ == old(self)@,
                None => r is Break && final(self)@ == old(self)@.trapped(
                    I::spec_width(),
                    Some(TrapKind::MemoryOutOfBounds),
                ),
            },
    {
        match addr.addr::<I>(self, T::size()) {
            ControlFlow::Continue(a) => ControlFlow::Continue(self.state.read::<T>(a)),
            ControlFlow::Break(done) => ControlFlow::Break(done),
        }
    }

    /// Stores `val` through `addr`, for instruction `I`, or stops with a
    /// trap where the addressing mode finds the access out of bounds.
    pub fn store<T: MemValue, I: Encode, A: AddressingMode>(&mut self, addr: A, val: T) -> (r:
        ControlFlow<Done>)
        requires
            old(self)@.can_access(addr, T::spec_size()),
        ensures
            match addr.spec_addr(old(self)@.state, T::spec_size()) {
                Some(a) => r is Continue && final(self)@ == old(self)@.written::<T>(a, val),
                None => r is Break && final(self)@ == old(self)@.trapped(
                    I::spec_width(),
                    Some(TrapKind::MemoryOutOfBounds),
                ),
            },
    {
        match addr.addr::<I>(self, T::size()) {
            ControlFlow::Continue(a) => {
                self.state.write::<T>(a, val);
                ControlFlow::Continue(())
            },
            ControlFlow::Break(done) => ControlFlow::Break(done),
        }
    }
}

impl InterpView {
    /// The interpreter after the values `vals` have been pushed, the first
    /// one first.
    pub open spec fn pushed_all<T: MemValue>(self, vals: Seq<T>) -> InterpView
        decreases vals.len(),
    {
        if vals.len() == 0 {
            self
        } else {
            self.pushed_all(vals.drop_last()).pushed(vals.last())
        }
    }

    /// The values that `n` pops return, the first pop first.
    pub open spec fn popped_values<T: MemValue>(self, n: nat) -> Seq<T>
        decreases n,
    {
        if n == 0 {
            Seq::empty()
        } else {
            seq![self.state.value_at::<T>(self.state.sp())] + self.popped(
                T::spec_size(),
            ).popped_values::<T>((n - 1) as nat)
        }
    }

    /// The interpreter after `n` pops of values of `size` bytes.
    pub open spec fn popped_n(self, size: nat, n: nat) -> InterpView
        decreases n,
    {
        if n == 0 {
            self
        } else {
            self.popped(size).popped_n(size, (n - 1) as nat)
        }
    }

    /// Do two interpreters have the same stack pointer and the same bytes
    /// from the stack pointer upwards?
    pub open spec fn agrees_above(self, other: InterpView) -> bool {
        &&& self.state.sp() == other.state.sp()
        &&& self.state.stack.len() == other.state.stack.len()
        &&& forall|i: int|
            self.state.sp() - STACK_BASE <= i < self.state.stack.len() ==> self.state.stack[i]
                == other.state.stack[i]
    }
}

/// A pop gives back the value of the push before it and leaves the stack
/// pointer where it was.
pub proof fn lemma_push_pop<T: MemValue>(s: InterpView, val: T)
    requires
        s.wf(),
        s.state.sp_valid(),
        s.has_room(T::spec_size()),
    ensures
        s.pushed(val).wf(),
        s.pushed(val).state.sp_valid(),
        s.pushed(val).state.sp() == s.state.sp() - T::spec_size(),
        s.pushed(val).state.stack.len() == s.state.stack.len(),
        s.pushed(val).state.in_bounds(s.pushed(val).state.sp(), T::spec_size()),
        s.pushed(val).state.value_at::<T>(s.pushed(val).state.sp()) == val,
        s.pushed(val).popped(T::spec_size()).agrees_above(s),
        s.pushed(val).popped(T::spec_size()).pc == s.pc,
{
    val.lemma_round_trip();
    let p = s.pushed(val);
    let new_sp = (s.state.sp() - T::spec_size()) as u64;
    let off = new_sp - STACK_BASE;
    assert(p.state.x[SP as int].bits == new_sp);
    assert(p.state.bytes_at(new_sp, T::spec_size()) =~= val.spec_to_bytes());
    let back = p.popped(T::spec_size());
    assert(back.state.x[SP as int].bits == s.state.sp());
    assert forall|i: int|
        back.state.sp() - STACK_BASE <= i < back.state.stack.len() implies back.state.stack[i]
        == s.state.stack[i] by {}
}

/// What pops return depends on the stack pointer and on the bytes from
/// the stack pointer upwards only.
pub proof fn lemma_pops_agree<T: MemValue>(a: InterpView, b: InterpView, n: nat)
    requires
        a.wf(),
        b.wf(),
        a.agrees_above(b),
        STACK_BASE <= a.state.sp(),
        a.state.sp() + n * T::spec_size() <= a.state.stack_end(),
    ensures
        a.popped_values::<T>(n) == b.popped_values::<T>(n),
        a.popped_n(T::spec_size(), n).state.sp() == b.popped_n(T::spec_size(), n).state.sp(),
        a.popped_n(T::spec_size(), n).state.sp() == a.state.sp() + n * T::spec_size(),
    decreases n,
{
    if n > 0 {
        let size = T::spec_size();
        assert(n * size == size + (n - 1) * size) by (nonlinear_arith);
        assert((n - 1) * size >= 0) by (nonlinear_arith)
            requires
                n >= 1,
                size >= 0,
        ;
        let a1 = a.popped(size);
        let b1 = b.popped(size);
        assert(a.state.bytes_at(a.state.sp(), size) =~= b.state.bytes_at(b.state.sp(), size));
        assert(a1.state.x[SP as int].bits == a.state.sp() + size);
        assert(b1.state.x[SP as int].bits == b.state.sp() + size);
        lemma_pops_agree::<T>(a1, b1, (n - 1) as nat);
    } else {
        assert(n * T::spec_size() == 0) by (nonlinear_arith)
            requires
                n == 0,
        ;
    }
}

/// Pushing values that fit the stack moves the stack pointer down by
/// their size and changes nothing from the old stack pointer upwards.
pub proof fn lemma_pushed_all<T: MemValue>(s: InterpView, vals: Seq<T>)
    requires
        s.wf(),
        s.state.sp_valid(),
        s.state.sp() - vals.len() * T::spec_size() >= STACK_BASE,
    ensures
        s.pushed_all(vals).wf(),
        s.pushed_all(vals).state.sp_valid(),
        s.pushed_all(vals).state.sp() == s.state.sp() - vals.len() * T::spec_size(),
        s.pushed_all(vals).state.stack.len() == s.state.stack.len(),
        s.pushed_all(vals).pc == s.pc,
    decreases vals.len(),
{
    let size = T::spec_size();
    if vals.len() > 0 {
        let n = vals.len();
        assert(n * size == size + (n - 1) * size) by (nonlinear_arith);
        assert((n - 1) * size >= 0) by (nonlinear_arith)
            requires
                n >= 1,
                size >= 0,
        ;
        lemma_pushed_all::<T>(s, vals.drop_last());
        lemma_push_pop::<T>(s.pushed_all(vals.drop_last()), vals.last());
    } else {
        assert(vals.len() * size == 0) by (nonlinear_arith)
            requires
                vals.len() == 0,
        ;
    }
}

/// Popping as many values as were pushed gives the pushed values in
/// reverse order and brings the stack pointer back to where it was, for
/// all values that fit the stack.
pub proof fn lemma_push_pop_inverse<T: MemValue>(s: InterpView, vals: Seq<T>)
    requires
        s.wf(),
        s.state.sp_valid(),
        s.state.sp() - vals.len() * T::spec_size() >= STACK_BASE,
    ensures
        s.pushed_all(vals).popped_values::<T>(vals.len()) == vals.reverse(),
        s.pushed_all(vals).popped_n(T::spec_size(), vals.len()).state.sp() == s.state.sp(),
    decreases vals.len(),
{
    let size = T::spec_size();
    let n = vals.len();
    if n > 0 {
        assert(n * size == size + (n - 1) * size) by (nonlinear_arith);
        assert((n - 1) * size >= 0) by (nonlinear_arith)
            requires
                n >= 1,
                size >= 0,
        ;
        let q = s.pushed_all(vals.drop_last());
        let p = q.pushed(vals.last());
        lemma_pushed_all::<T>(s, vals.drop_last());
        lemma_push_pop::<T>(q, vals.last());
        let back = p.popped(size);
        lemma_pops_agree::<T>(back, q, (n - 1) as nat);
        lemma_push_pop_inverse::<T>(s, vals.drop_last());
        assert(vals.reverse() =~= seq![vals.last()] + vals.drop_last().reverse());
    } else {
        assert(vals.reverse() =~= Seq::<T>::empty());
    }
}

} // verus!
