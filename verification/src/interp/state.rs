//! The machine state: three banks of registers, the frame pointer and
//! the link register, the stack, and why the machine stopped.

use crate::interp::regs::{FReg, VReg, XReg, SP};
use crate::interp::value::{FRegVal, VRegVal, XRegVal};
use vstd::bytes::{
    spec_u128_from_le_bytes, spec_u128_to_le_bytes, spec_u16_from_le_bytes, spec_u16_to_le_bytes,
    spec_u32_from_le_bytes, spec_u32_to_le_bytes, spec_u64_from_le_bytes, spec_u64_to_le_bytes,
    u128_from_le_bytes, u128_to_le_bytes, u16_from_le_bytes, u16_to_le_bytes, u32_from_le_bytes,
    u32_to_le_bytes, u64_from_le_bytes, u64_to_le_bytes,
};
use vstd::prelude::*;

verus! {

/// The return address that stands for the host: returning to it ends the
/// run.
pub const HOST_RETURN_ADDR: u64 = 0xffff_ffff_ffff_ffff;

/// The address of the lowest byte of the stack.
pub const STACK_BASE: u64 = 0x1_0000_0000;

/// The largest stack, in bytes.
pub const MAX_STACK_SIZE: usize = 0x4000_0000;

/// The stack size of a machine made without one.
pub const DEFAULT_STACK_SIZE: usize = 0x10_0000;

/// Why a trap was raised.
#[derive(Clone, Copy, Debug, PartialEq, Eq, Structural)]
pub enum TrapKind {
    DivideByZero,
    IntegerOverflow,
    BadConversionToInteger,
    MemoryOutOfBounds,
    DisabledOpcode,
    StackOverflow,
}

/// Why the interpreter stopped.
#[derive(Clone, Copy, Debug)]
pub enum DoneReason<T> {
    /// A trap was raised by the instruction at `pc`.
    Trap { pc: u64, kind: Option<TrapKind> },
    /// The host is asked to run the function `id` and then to resume at
    /// `resume`.
    CallIndirectHost { id: u8, resume: u64 },
    /// The bytecode returned to the host.
    ReturnToHost(T),
}

/// The token that a handler returns when the interpreter has stopped. The
/// reason is kept in the machine state.
#[derive(Clone, Copy, Debug)]
pub struct Done {
    _priv: (),
}

impl Done {
    pub(crate) fn new() -> Done {
        Done { _priv: () }
    }
}

/// A value that is stored in memory as a fixed number of bytes, in
/// little-endian order.
pub trait MemValue: Copy {
    /// The number of bytes, from 1 to 16.
    spec fn spec_size() -> nat;

    spec fn spec_to_bytes(self) -> Seq<u8>;

    spec fn spec_from_bytes(bytes: Seq<u8>) -> Self;

    /// A value is as many bytes as its size, and reading them back gives
    /// the value.
    proof fn lemma_round_trip(self)
        ensures
            1 <= Self::spec_size() <= 16,
            self.spec_to_bytes().len() == Self::spec_size(),
            Self::spec_from_bytes(self.spec_to_bytes()) == self,
    ;

    fn size() -> (n: u64)
        ensures
            n == Self::spec_size(),
            1 <= n <= 16,
    ;

    fn to_bytes(self) -> (bytes: Vec<u8>)
        ensures
            bytes@ == self.spec_to_bytes(),
            bytes@.len() == Self::spec_size(),
    ;

    fn from_bytes(bytes: &[u8]) -> (val: Self)
        requires
            bytes@.len() == Self::spec_size(),
        ensures
            val == Self::spec_from_bytes(bytes@),
    ;
}

impl MemValue for u8 {
    open spec fn spec_size() -> nat {
        1
    }

    open spec fn spec_to_bytes(self) -> Seq<u8> {
        seq![self]
    }

    open spec fn spec_from_bytes(bytes: Seq<u8>) -> u8 {
        bytes[0]
    }

    proof fn lemma_round_trip(self) {
    }

    fn size() -> (n: u64) {
        1
    }

    fn to_bytes(self) -> (bytes: Vec<u8>) {
        vec![self]
    }

    fn from_bytes(bytes: &[u8]) -> (val: u8) {
        bytes[0]
    }
}

impl MemValue for u16 {
    open spec fn spec_size() -> nat {
        2
    }

    open spec fn spec_to_bytes(self) -> Seq<u8> {
        spec_u16_to_le_bytes(self)
    }

    open spec fn spec_from_bytes(bytes: Seq<u8>) -> u16 {
        spec_u16_from_le_bytes(bytes)
    }

    proof fn lemma_round_trip(self) {
        vstd::bytes::lemma_auto_spec_u16_to_from_le_bytes();
    }

    fn size() -> (n: u64) {
        2
    }

    fn to_bytes(self) -> (bytes: Vec<u8>) {
        u16_to_le_bytes(self)
    }

    fn from_bytes(bytes: &[u8]) -> (val: u16) {
        u16_from_le_bytes(bytes)
    }
}

impl MemValue for u32 {
    open spec fn spec_size() -> nat {
        4
    }

    open spec fn spec_to_bytes(self) -> Seq<u8> {
        spec_u32_to_le_bytes(self)
    }

    open spec fn spec_from_bytes(bytes: Seq<u8>) -> u32 {
        spec_u32_from_le_bytes(bytes)
    }

    proof fn lemma_round_trip(self) {
        vstd::bytes::lemma_auto_spec_u32_to_from_le_bytes();
    }

    fn size() -> (n: u64) {
        4
    }

    fn to_bytes(self) -> (bytes: Vec<u8>) {
        u32_to_le_bytes(self)
    }

    fn from_bytes(bytes: &[u8]) -> (val: u32) {
        u32_from_le_bytes(bytes)
    }
}

impl MemValue for u64 {
    open spec fn spec_size() -> nat {
        8
    }

    open spec fn spec_to_bytes(self) -> Seq<u8> {
        spec_u64_to_le_bytes(self)
    }

    open spec fn spec_from_bytes(bytes: Seq<u8>) -> u64 {
        spec_u64_from_le_bytes(bytes)
    }

    proof fn lemma_round_trip(self) {
        vstd::bytes::lemma_auto_spec_u64_to_from_le_bytes();
    }

    fn size() -> (n: u64) {
        8
    }

    fn to_bytes(self) -> (bytes: Vec<u8>) {
        u64_to_le_bytes(self)
    }

    fn from_bytes(bytes: &[u8]) -> (val: u64) {
        u64_from_le_bytes(bytes)
    }
}

impl MemValue for u128 {
    open spec fn spec_size() -> nat {
        16
    }

    open spec fn spec_to_bytes(self) -> Seq<u8> {
        spec_u128_to_le_bytes(self)
    }

    open spec fn spec_from_bytes(bytes: Seq<u8>) -> u128 {
        spec_u128_from_le_bytes(bytes)
    }

    proof fn lemma_round_trip(self) {
        vstd::bytes::lemma_auto_spec_u128_to_from_le_bytes();
    }

    fn size() -> (n: u64) {
        16
    }

    fn to_bytes(self) -> (bytes: Vec<u8>) {
        u128_to_le_bytes(self)
    }

    fn from_bytes(bytes: &[u8]) -> (val: u128) {
        u128_from_le_bytes(bytes)
    }
}

impl MemValue for i32 {
    open spec fn spec_size() -> nat {
        4
    }

    open spec fn spec_to_bytes(self) -> Seq<u8> {
        spec_u32_to_le_bytes(self as u32)
    }

    open spec fn spec_from_bytes(bytes: Seq<u8>) -> i32 {
        spec_u32_from_le_bytes(bytes) as i32
    }

    proof fn lemma_round_trip(self) {
        vstd::bytes::lemma_auto_spec_u32_to_from_le_bytes();
        assert(((self as u32) as i32) == self) by (bit_vector);
    }

    fn size() -> (n: u64) {
        4
    }

    fn to_bytes(self) -> (bytes: Vec<u8>) {
        u32_to_le_bytes(
            #[verifier::truncate]
            (self as u32),
        )
    }

    fn from_bytes(bytes: &[u8]) -> (val: i32) {
        #[verifier::truncate]
        (u32_from_le_bytes(bytes) as i32)
    }
}

impl MemValue for i64 {
    open spec fn spec_size() -> nat {
        8
    }

    open spec fn spec_to_bytes(self) -> Seq<u8> {
        spec_u64_to_le_bytes(self as u64)
    }

    open spec fn spec_from_bytes(bytes: Seq<u8>) -> i64 {
        spec_u64_from_le_bytes(bytes) as i64
    }

    proof fn lemma_round_trip(self) {
        vstd::bytes::lemma_auto_spec_u64_to_from_le_bytes();
        assert(((self as u64) as i64) == self) by (bit_vector);
    }

    fn size() -> (n: u64) {
        8
    }

    fn to_bytes(self) -> (bytes: Vec<u8>) {
        u64_to_le_bytes(
            #[verifier::truncate]
            (self as u64),
        )
    }

    fn from_bytes(bytes: &[u8]) -> (val: i64) {
        #[verifier::truncate]
        (u64_from_le_bytes(bytes) as i64)
    }
}

/// The machine state as contracts see it.
pub ghost struct StateView {
    /// The integer registers.
    pub x: Seq<XRegVal>,
    /// The float registers.
    pub f: Seq<FRegVal>,
    /// The vector registers.
    pub v: Seq<VRegVal>,
    /// The frame pointer.
    pub fp: u64,
    /// The link register.
    pub lr: u64,
    /// The bytes of the stack, lowest address first.
    pub stack: Seq<u8>,
    /// Why the machine stopped, until the reason is taken.
    pub done_reason: Option<DoneReason<()>>,
}

impl StateView {
    /// Each bank has 32 registers, and the stack is a whole number of
    /// 16-byte units of at most `MAX_STACK_SIZE` bytes.
    pub open spec fn wf(self) -> bool {
        &&& self.x.len() == 32
        &&& self.f.len() == 32
        &&& self.v.len() == 32
        &&& self.stack.len() % 16 == 0
        &&& self.stack.len() <= MAX_STACK_SIZE + 15
    }

    /// The stack pointer.
    pub open spec fn sp(self) -> u64 {
        self.x[SP as int].bits
    }

    /// The address behind the highest byte of the stack.
    pub open spec fn stack_end(self) -> u64 {
        (STACK_BASE + self.stack.len()) as u64
    }

    /// Does the stack pointer point into the stack or just behind it?
    pub open spec fn sp_valid(self) -> bool {
        STACK_BASE <= self.sp() <= self.stack_end()
    }

    /// Do the `len` bytes at `addr` lie in the machine's memory?
    pub open spec fn in_bounds(self, addr: u64, len: nat) -> bool {
        STACK_BASE <= addr && addr + len <= STACK_BASE + self.stack.len()
    }

    /// The `len` bytes at `addr`.
    pub open spec fn bytes_at(self, addr: u64, len: nat) -> Seq<u8> {
        self.stack.subrange(addr - STACK_BASE, addr - STACK_BASE + len)
    }

    /// The value at `addr`.
    pub open spec fn value_at<T: MemValue>(self, addr: u64) -> T {
        T::spec_from_bytes(self.bytes_at(addr, T::spec_size()))
    }

    /// The state with `bytes` written at `addr`.
    pub open spec fn write_bytes(self, addr: u64, bytes: Seq<u8>) -> StateView {
        StateView {
            stack: self.stack.take(addr - STACK_BASE) + bytes + self.stack.skip(
                addr - STACK_BASE + bytes.len(),
            ),
            ..self
        }
    }

    /// The state with `val` written at `addr`.
    pub open spec fn write_value<T: MemValue>(self, addr: u64, val: T) -> StateView {
        self.write_bytes(addr, val.spec_to_bytes())
    }

    /// The state with integer register `i` holding `val`.
    pub open spec fn set_x(self, i: int, val: XRegVal) -> StateView {
        StateView { x: self.x.update(i, val), ..self }
    }

    /// The state with float register `i` holding `val`.
    pub open spec fn set_f(self, i: int, val: FRegVal) -> StateView {
        StateView { f: self.f.update(i, val), ..self }
    }

    /// The state with vector register `i` holding `val`.
    pub open spec fn set_v(self, i: int, val: VRegVal) -> StateView {
        StateView { v: self.v.update(i, val), ..self }
    }

    /// The state with the stack pointer at `sp`.
    pub open spec fn set_sp(self, sp: u64) -> StateView {
        self.set_x(SP as int, XRegVal { bits: sp })
    }
}

/// The stack: one run of bytes that begins at `STACK_BASE` and whose
/// length is a multiple of 16.
pub struct Stack {
    storage: Vec<u8>,
}

impl Stack {
    #[verifier::type_invariant]
    spec fn inv(self) -> bool {
        self.storage@.len() % 16 == 0 && self.storage@.len() <= MAX_STACK_SIZE + 15
    }

    /// The bytes of the stack, lowest address first.
    pub closed spec fn spec_bytes(&self) -> Seq<u8> {
        self.storage@
    }

    /// A stack of at least `size` bytes: `size` rounded up to a multiple
    /// of 16.
    pub fn new(size: usize) -> (stack: Stack)
        requires
            size <= MAX_STACK_SIZE,
        ensures
            stack.spec_bytes().len() == (size + 15) / 16 * 16,
    {
        let len: usize = (size + 15) / 16 * 16;
        Stack { storage: vec![0u8; len] }
    }

    /// The address behind the highest byte.
    pub fn top(&self) -> (addr: u64)
        ensures
            addr == STACK_BASE + self.spec_bytes().len(),
    {
        proof {
            use_type_invariant(self);
        }
        STACK_BASE + self.storage.len() as u64
    }

    /// The address of the lowest byte.
    pub fn base(&self) -> (addr: u64)
        ensures
            addr == STACK_BASE,
    {
        STACK_BASE
    }

    /// The length in bytes.
    pub fn len(&self) -> (n: usize)
        ensures
            n == self.spec_bytes().len(),
            n % 16 == 0,
            n <= MAX_STACK_SIZE + 15,
    {
        proof {
            use_type_invariant(self);
        }
        self.storage.len()
    }

    /// Reads the value at `addr`.
    pub fn read<T: MemValue>(&self, addr: u64) -> (val: T)
        requires
            STACK_BASE <= addr,
            addr + T::spec_size() <= STACK_BASE + self.spec_bytes().len(),
        ensures
            val == T::spec_from_bytes(
                self.spec_bytes().subrange(addr - STACK_BASE, addr - STACK_BASE + T::spec_size()),
            ),
    {
        proof {
            use_type_invariant(self);
        }
        let start = (addr - STACK_BASE) as usize;
        let end = start + T::size() as usize;
        T::from_bytes(&self.storage.as_slice()[start..end])
    }

    /// Writes `val` at `addr`.
    pub fn write<T: MemValue>(&mut self, addr: u64, val: T)
        requires
            STACK_BASE <= addr,
            addr + T::spec_size() <= STACK_BASE + old(self).spec_bytes().len(),
        ensures
            final(self).spec_bytes() == old(self).spec_bytes().take(addr - STACK_BASE)
                + val.spec_to_bytes() + old(self).spec_bytes().skip(
                addr - STACK_BASE + T::spec_size(),
            ),
            final(self).spec_bytes().len() == old(self).spec_bytes().len(),
    {
        proof {
            use_type_invariant(&*self);
        }
        let start = (addr - STACK_BASE) as usize;
        let bytes = val.to_bytes();
        let n = bytes.len();
        let ghost before = self.storage@;
        let mut i: usize = 0;
        while i < n
            invariant
                i <= n,
                n == bytes@.len(),
                start + n <= before.len(),
                self.storage@.len() == before.len(),
                before.len() % 16 == 0,
                before.len() <= MAX_STACK_SIZE + 15,
                self.storage@ == before.take(start as int) + bytes@.take(i as int) + before.skip(
                    start + i,
                ),
            decreases n - i,
        {
            self.storage[start + i] = bytes[i];
            proof {
                assert(self.storage@ =~= before.take(start as int) + bytes@.take(i + 1)
                    + before.skip(start + i + 1));
            }
            i += 1;
        }
        proof {
            assert(bytes@.take(n as int) =~= bytes@);
        }
    }
}

/// The registers and the stack of a machine.
pub struct MachineState {
    x_regs: [XRegVal; 32],
    f_regs: [FRegVal; 32],
    v_regs: [VRegVal; 32],
    fp: u64,
    lr: u64,
    stack: Stack,
    done_reason: Option<DoneReason<()>>,
}

impl View for MachineState {
    type V = StateView;

    closed spec fn view(&self) -> StateView {
        StateView {
            x: self.x_regs@,
            f: self.f_regs@,
            v: self.v_regs@,
            fp: self.fp,
            lr: self.lr,
            stack: self.stack.spec_bytes(),
            done_reason: self.done_reason,
        }
    }
}

impl MachineState {
    /// A machine with a stack of at least `stack_size` bytes: all
    /// registers zero but the stack pointer, which stands behind the
    /// stack; the frame pointer and the link register lead to the host.
    pub fn with_stack(stack_size: usize) -> (state: MachineState)
        requires
            stack_size <= MAX_STACK_SIZE,
        ensures
            state@.wf(),
            state@.stack.len() == (stack_size + 15) / 16 * 16,
            state@.sp() == state@.stack_end(),
            forall|i: int| 0 <= i < 32 && i != SP ==> (#[trigger] state@.x[i]).bits == 0,
            forall|i: int| 0 <= i < 32 ==> (#[trigger] state@.f[i]).bits == 0,
            forall|i: int| 0 <= i < 32 ==> (#[trigger] state@.v[i]).bits == 0,
            state@.fp == HOST_RETURN_ADDR,
            state@.lr == HOST_RETURN_ADDR,
            state@.done_reason is None,
    {
        let stack = Stack::new(stack_size);
        let sp = stack.top();
        let mut state = MachineState {
            x_regs: [XRegVal { bits: 0 };32],
            f_regs: [FRegVal { bits: 0 };32],
            v_regs: [VRegVal { bits: 0 };32],
            stack,
            done_reason: None,
            fp: HOST_RETURN_ADDR,
            lr: HOST_RETURN_ADDR,
        };
        state.x_regs[SP] = XRegVal::new_ptr(sp);
        state
    }

    /// The value of an integer register.
    pub fn x(&self, reg: XReg) -> (val: XRegVal)
        ensures
            val == self@.x[reg.spec_index()],
            self@.wf(),
            0 <= reg.spec_index() < 32,
    {
        let _ = self.stack.len();
        self.x_regs[reg.index()]
    }

    /// Sets an integer register.
    pub fn set_x(&mut self, reg: XReg, val: XRegVal)
        ensures
            final(self)@ == old(self)@.set_x(reg.spec_index(), val),
            final(self)@.wf(),
            0 <= reg.spec_index() < 32,
    {
        let _ = self.stack.len();
        self.x_regs[reg.index()] = val;
    }

    /// The value of a float register.
    pub fn f(&self, reg: FReg) -> (val: FRegVal)
        ensures
            val == self@.f[reg.spec_index()],
            self@.wf(),
            0 <= reg.spec_index() < 32,
    {
        let _ = self.stack.len();
        self.f_regs[reg.index()]
    }

    /// Sets a float register.
    pub fn set_f(&mut self, reg: FReg, val: FRegVal)
        ensures
            final(self)@ == old(self)@.set_f(reg.spec_index(), val),
            final(self)@.wf(),
            0 <= reg.spec_index() < 32,
    {
        let _ = self.stack.len();
        self.f_regs[reg.index()] = val;
    }

    /// The value of a vector register.
    pub fn v(&self, reg: VReg) -> (val: VRegVal)
        ensures
            val == self@.v[reg.spec_index()],
            self@.wf(),
            0 <= reg.spec_index() < 32,
    {
        let _ = self.stack.len();
        self.v_regs[reg.index()]
    }

    /// Sets a vector register.
    pub fn set_v(&mut self, reg: VReg, val: VRegVal)
        ensures
            final(self)@ == old(self)@.set_v(reg.spec_index(), val),
            final(self)@.wf(),
            0 <= reg.spec_index() < 32,
    {
        let _ = self.stack.len();
        self.v_regs[reg.index()] = val;
    }

    /// The stack pointer.
    pub fn sp(&self) -> (sp: u64)
        ensures
            sp == self@.sp(),
            self@.wf(),
    {
        self.x(XReg::sp()).get_ptr()
    }

    /// The frame pointer.
    pub fn fp(&self) -> (fp: u64)
        ensures
            fp == self@.fp,
    {
        self.fp
    }

    /// The link register.
    pub fn lr(&self) -> (lr: u64)
        ensures
            lr == self@.lr,
    {
        self.lr
    }

    /// Sets the frame pointer.
    pub fn set_fp(&mut self, fp: u64)
        ensures
            final(self)@ == (StateView { fp, ..old(self)@ }),
    {
        self.fp = fp;
    }

    /// Sets the link register.
    pub fn set_lr(&mut self, lr: u64)
        ensures
            final(self)@ == (StateView { lr, ..old(self)@ }),
    {
        self.lr = lr;
    }

    /// The address of the lowest byte of the stack.
    pub fn stack_base(&self) -> (addr: u64)
        ensures
            addr == STACK_BASE,
    {
        self.stack.base()
    }

    /// The address behind the highest byte of the stack.
    pub fn stack_end(&self) -> (addr: u64)
        ensures
            addr == self@.stack_end(),
            self@.wf(),
    {
        let _ = self.stack.len();
        self.stack.top()
    }

    /// Reads the value at `addr`.
    pub fn read<T: MemValue>(&self, addr: u64) -> (val: T)
        requires
            self@.in_bounds(addr, T::spec_size()),
        ensures
            val == self@.value_at::<T>(addr),
    {
        self.stack.read::<T>(addr)
    }

    /// Writes `val` at `addr`.
    pub fn write<T: MemValue>(&mut self, addr: u64, val: T)
        requires
            old(self)@.in_bounds(addr, T::spec_size()),
        ensures
            final(self)@ == old(self)@.write_value(addr, val),
            final(self)@.stack.len() == old(self)@.stack.len(),
    {
        proof {
            val.lemma_round_trip();
        }
        self.stack.write::<T>(addr, val);
    }

    /// Has a handler recorded why the machine stopped?
    pub fn has_stopped(&self) -> (b: bool)
        ensures
            b == (self@.done_reason is Some),
    {
        self.done_reason.is_some()
    }

    /// Records why the machine stopped.
    pub fn set_done_reason(&mut self, reason: DoneReason<()>)
        ensures
            final(self)@ == (StateView { done_reason: Some(reason), ..old(self)@ }),
    {
        self.done_reason = Some(reason);
    }

    /// Takes the reason why the machine stopped, which a handler recorded
    /// when it returned the token.
    pub fn done_decode(&mut self, done: Done) -> (reason: DoneReason<()>)
        requires
            old(self)@.done_reason is Some,
        ensures
            Some(reason) == old(self)@.done_reason,
            final(self)@ == (StateView { done_reason: None, ..old(self)@ }),
    {
        let reason = self.done_reason;
        self.done_reason = None;
        match reason {
            Some(reason) => reason,
            None => vstd::pervasive::unreached(),
        }
    }
}

} // verus!
