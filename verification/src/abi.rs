//! Where arguments and return values live: the locations that a calling
//! convention assigns, and the interface through which a target machine
//! supplies its policy and its instructions.

use crate::frame::{FrameLayout, FrameLayoutView};
use crate::ir::{AbiParam, ArgumentExtension, ArgumentPurpose, CallConv, CodegenError, Flags, Signature, Type};
use crate::lists::{ABIArgSlotVec, CallArgList, CallRetList};
use crate::reg::{AllocView, RealReg, Reg, RegClass, VRegAllocator, Writable};
use regalloc2::PRegSet;
use vstd::prelude::*;

verus! {

/// An incoming argument: the virtual register that receives it and the
/// physical register it arrives in.
#[derive(Clone, Copy, Debug, PartialEq, Eq, Structural)]
pub struct ArgPair {
    pub vreg: Writable<Reg>,
    pub preg: Reg,
}

/// A returned value: the virtual register that holds it and the physical
/// register it leaves in.
#[derive(Clone, Copy, Debug, PartialEq, Eq, Structural)]
pub struct RetPair {
    pub vreg: Reg,
    pub preg: Reg,
}

/// Where one register-sized part of an argument or return value lives.
#[derive(Clone, Copy, Debug, PartialEq, Eq, Structural)]
pub enum ABIArgSlot {
    /// In a physical register.
    Reg { reg: RealReg, ty: Type, extension: ArgumentExtension },
    /// On the stack, at an offset from the base of the stack arguments.
    Stack { offset: i64, ty: Type, extension: ArgumentExtension },
}

impl ABIArgSlot {
    /// The type of the value in the slot.
    pub open spec fn spec_get_type(&self) -> Type {
        match self {
            ABIArgSlot::Reg { ty, .. } => *ty,
            ABIArgSlot::Stack { ty, .. } => *ty,
        }
    }

    /// The widening that the slot's value was declared with.
    pub open spec fn spec_extension(&self) -> ArgumentExtension {
        match self {
            ABIArgSlot::Reg { extension, .. } => *extension,
            ABIArgSlot::Stack { extension, .. } => *extension,
        }
    }

    /// The type of the value in the slot.
    pub fn get_type(&self) -> (ty: Type)
        ensures
            ty == self.spec_get_type(),
    {
        match self {
            ABIArgSlot::Reg { ty, .. } => *ty,
            ABIArgSlot::Stack { ty, .. } => *ty,
        }
    }

    /// How the value is widened to the full slot.
    pub fn extension(&self) -> (e: ArgumentExtension)
        ensures
            e == self.spec_extension(),
    {
        match self {
            ABIArgSlot::Reg { extension, .. } => *extension,
            ABIArgSlot::Stack { extension, .. } => *extension,
        }
    }
}

/// Where an argument or a return value lives.
///
/// A value is in one or more slots, or it is a structure in a stack
/// buffer, or it is passed through a pointer that the caller never sees.
/// One purpose covers all the slots of a value.
pub enum ABIArg {
    /// One slot for each register-sized part of the value.
    Slots { slots: ABIArgSlotVec, purpose: ArgumentPurpose },
    /// A structure in a buffer among the stack arguments.
    StructArg { offset: i64, size: u64, purpose: ArgumentPurpose },
    /// A value in a buffer whose address is passed in `pointer`.
    ImplicitPtrArg { pointer: ABIArgSlot, offset: i64, ty: Type, purpose: ArgumentPurpose },
}

/// An `ABIArg` with its slots as a sequence.
pub ghost enum ABIArgView {
    Slots { slots: Seq<ABIArgSlot>, purpose: ArgumentPurpose },
    StructArg { offset: i64, size: u64, purpose: ArgumentPurpose },
    ImplicitPtrArg { pointer: ABIArgSlot, offset: i64, ty: Type, purpose: ArgumentPurpose },
}

impl View for ABIArg {
    type V = ABIArgView;

    open spec fn view(&self) -> ABIArgView {
        match self {
            ABIArg::Slots { slots, purpose } => ABIArgView::Slots {
                slots: slots@,
                purpose: *purpose,
            },
            ABIArg::StructArg { offset, size, purpose } => ABIArgView::StructArg {
                offset: *offset,
                size: *size,
                purpose: *purpose,
            },
            ABIArg::ImplicitPtrArg { pointer, offset, ty, purpose } => ABIArgView::ImplicitPtrArg {
                pointer: *pointer,
                offset: *offset,
                ty: *ty,
                purpose: *purpose,
            },
        }
    }
}

impl ABIArgView {
    /// A value in slots has at least one slot.
    pub open spec fn wf(self) -> bool {
        self is Slots ==> self->Slots_slots.len() >= 1
    }
}

/// The views of a sequence of locations.
pub open spec fn arg_views(args: Seq<ABIArg>) -> Seq<ABIArgView> {
    args.map_values(|a: ABIArg| a@)
}

impl Clone for ABIArg {
    fn clone(&self) -> (r: Self)
        ensures
            r@ == self@,
    {
        match self {
            ABIArg::Slots { slots, purpose } => ABIArg::Slots {
                slots: slots.clone(),
                purpose: *purpose,
            },
            ABIArg::StructArg { offset, size, purpose } => ABIArg::StructArg {
                offset: *offset,
                size: *size,
                purpose: *purpose,
            },
            ABIArg::ImplicitPtrArg { pointer, offset, ty, purpose } => ABIArg::ImplicitPtrArg {
                pointer: *pointer,
                offset: *offset,
                ty: *ty,
                purpose: *purpose,
            },
        }
    }
}

impl ABIArg {
    /// A value in one register.
    pub fn reg(
        reg: RealReg,
        ty: Type,
        extension: ArgumentExtension,
        purpose: ArgumentPurpose,
    ) -> (arg: ABIArg)
        ensures
            arg@ == (ABIArgView::Slots {
                slots: seq![ABIArgSlot::Reg { reg, ty, extension }],
                purpose,
            }),
    {
        ABIArg::Slots { slots: ABIArgSlotVec::one(ABIArgSlot::Reg { reg, ty, extension }), purpose }
    }

    /// A value in one stack slot.
    pub fn stack(
        offset: i64,
        ty: Type,
        extension: ArgumentExtension,
        purpose: ArgumentPurpose,
    ) -> (arg: ABIArg)
        ensures
            arg@ == (ABIArgView::Slots {
                slots: seq![ABIArgSlot::Stack { offset, ty, extension }],
                purpose,
            }),
    {
        ABIArg::Slots {
            slots: ABIArgSlotVec::one(ABIArgSlot::Stack { offset, ty, extension }),
            purpose,
        }
    }
}

/// Whether locations are computed for arguments or for return values.
#[derive(Clone, Copy, Debug, PartialEq, Eq, Structural)]
pub enum ArgsOrRets {
    Args,
    Rets,
}

/// A place on the stack, before a target machine turns it into one of its
/// addressing modes.
#[derive(Clone, Copy, Debug, PartialEq, Eq, Structural)]
pub enum StackAMode {
    /// An offset into the frame's incoming argument area, with the size of
    /// that area.
    IncomingArg(i64, u32),
    /// An offset within the frame's stack slots.
    Slot(i64),
    /// An offset into the argument area of a callee's frame.
    OutgoingArg(i64),
}

impl StackAMode {
    /// The offset of the place.
    pub open spec fn spec_offset(&self) -> i64 {
        match self {
            StackAMode::IncomingArg(off, _) => *off,
            StackAMode::Slot(off) => *off,
            StackAMode::OutgoingArg(off) => *off,
        }
    }

    /// The same kind of place with the given offset.
    pub open spec fn spec_with_offset(&self, off: i64) -> StackAMode {
        match self {
            StackAMode::IncomingArg(_, size) => StackAMode::IncomingArg(off, *size),
            StackAMode::Slot(_) => StackAMode::Slot(off),
            StackAMode::OutgoingArg(_) => StackAMode::OutgoingArg(off),
        }
    }

    /// The place `offset` bytes further on.
    pub fn offset_by(&self, offset: u32) -> (r: StackAMode)
        requires
            self.spec_offset() + offset <= i64::MAX,
        ensures
            r == self.spec_with_offset((self.spec_offset() + offset) as i64),
    {
        match self {
            StackAMode::IncomingArg(off, size) => StackAMode::IncomingArg(
                *off + offset as i64,
                *size,
            ),
            StackAMode::Slot(off) => StackAMode::Slot(*off + offset as i64),
            StackAMode::OutgoingArg(off) => StackAMode::OutgoingArg(*off + offset as i64),
        }
    }
}

/// The flags of one instruction set.
pub trait IsaFlags: Clone {
    spec fn spec_is_forward_edge_cfi_enabled(&self) -> bool;

    /// Is control-flow integrity for forward edges switched on?
    fn is_forward_edge_cfi_enabled(&self) -> (b: bool)
        ensures
            b == self.spec_is_forward_edge_cfi_enabled(),
    ;
}

/// Collects the locations that one run of a location assigner produces,
/// behind the locations of all earlier runs, which it keeps as they are.
pub struct ArgsAccumulator {
    sig_set_abi_args: Vec<ABIArg>,
    start: usize,
    non_formal_flag: bool,
}

impl ArgsAccumulator {
    /// All locations held: those of earlier runs, then those of this run.
    pub closed spec fn spec_all(&self) -> Seq<ABIArg> {
        self.sig_set_abi_args@
    }

    /// The number of locations that earlier runs left.
    pub closed spec fn spec_start(&self) -> int {
        self.start as int
    }

    /// Has a location been pushed that stands for no formal parameter?
    pub closed spec fn spec_non_formal(&self) -> bool {
        self.non_formal_flag
    }

    /// The formal arguments come first: there are no more of them than locations.
    pub open spec fn wf(&self) -> bool {
        0 <= self.spec_start() <= self.spec_all().len()
    }

    /// The locations of this run.
    pub open spec fn spec_args(&self) -> Seq<ABIArg> {
        self.spec_all().subrange(self.spec_start(), self.spec_all().len() as int)
    }

    /// Starts a run behind the locations in `sig_set_abi_args`.
    pub fn new(sig_set_abi_args: Vec<ABIArg>) -> (acc: Self)
        ensures
            acc.wf(),
            acc.spec_all() == sig_set_abi_args@,
            acc.spec_start() == sig_set_abi_args@.len(),
            !acc.spec_non_formal(),
    {
        let start = sig_set_abi_args.len();
        ArgsAccumulator { sig_set_abi_args, start, non_formal_flag: false }
    }

    /// Ends the run and gives all locations back.
    pub fn into_inner(self) -> (all: Vec<ABIArg>)
        ensures
            all@ == self.spec_all(),
    {
        self.sig_set_abi_args
    }

    /// Appends the location of a formal parameter. Formal parameters come
    /// before every other location.
    pub fn push(&mut self, arg: ABIArg)
        requires
            !old(self).spec_non_formal(),
        ensures
            final(self).spec_all() == old(self).spec_all().push(arg),
            final(self).spec_start() == old(self).spec_start(),
            !final(self).spec_non_formal(),
    {
        self.sig_set_abi_args.push(arg)
    }

    /// Appends a location that stands for no formal parameter.
    pub fn push_non_formal(&mut self, arg: ABIArg)
        ensures
            final(self).spec_all() == old(self).spec_all().push(arg),
            final(self).spec_start() == old(self).spec_start(),
            final(self).spec_non_formal(),
    {
        self.non_formal_flag = true;
        self.sig_set_abi_args.push(arg)
    }

    /// The locations of this run.
    pub fn args(&self) -> (a: &[ABIArg])
        requires
            self.wf(),
        ensures
            a@ == self.spec_args(),
    {
        let len = self.sig_set_abi_args.len();
        let a = &self.sig_set_abi_args.as_slice()[self.start..len];
        a
    }
}

impl ArgsAccumulator {
    /// The locations of this run, to be changed in place. The locations of
    /// earlier runs stay as they are.
    pub fn args_mut(&mut self) -> (a: &mut [ABIArg])
        requires
            old(self).wf(),
        ensures
            a@ == old(self).spec_args(),
            final(self).wf(),
            final(self).spec_all() == old(self).spec_all().take(old(self).spec_start())
                + final(a)@,
            final(self).spec_start() == old(self).spec_start(),
            final(self).spec_non_formal() == old(self).spec_non_formal(),
    {
        let start = self.start;
        let (_, tail) = self.sig_set_abi_args.as_mut_slice().split_at_mut(start);
        tail
    }
}

/// A label of the emitted code.
#[derive(Clone, Copy, Debug, PartialEq, Eq, Structural)]
pub struct MachLabel(pub u32);

/// The tag of an exception.
#[derive(Clone, Copy, Debug, PartialEq, Eq, Structural)]
pub struct ExceptionTag(pub u32);

/// A register argument of a call: the virtual register that is read and
/// the physical register the convention wants it in.
#[derive(Clone, Copy, Debug, PartialEq, Eq, Structural)]
pub struct CallArgPair {
    pub vreg: Reg,
    pub preg: Reg,
}

/// A return value of a call: the virtual register that receives it and
/// the place where it arrives.
#[derive(Clone, Copy, Debug, PartialEq, Eq, Structural)]
pub struct CallRetPair {
    pub vreg: Writable<Reg>,
    pub location: RetLocation,
}

/// Where a return value is found once a call has come back.
#[derive(Clone, Copy, Debug, PartialEq, Eq, Structural)]
pub enum RetLocation {
    /// In a physical register.
    Reg(Reg, Type),
    /// On the stack.
    Stack(StackAMode, Type),
}

/// What a try-call adds to a call: where to continue, and the handlers.
pub struct TryCallInfo {
    /// The label to continue at when the call returns normally.
    pub continuation: MachLabel,
    /// The handlers, in the order in which they are tried.
    pub exception_handlers: Vec<TryCallHandler>,
}

/// One handler at the site of a try-call.
#[derive(Clone, Copy, Debug, PartialEq, Eq, Structural)]
pub enum TryCallHandler {
    /// Recover at the label if the tag matches.
    Tag(ExceptionTag, MachLabel),
    /// Recover at the label whatever the tag.
    Default(MachLabel),
    /// From here on, tags are read in the context that the register holds.
    Context(Reg),
}

/// What is known of a call apart from its instruction.
pub struct CallInfo<T> {
    /// The destination of the call.
    pub dest: T,
    /// The registers the call reads.
    pub uses: CallArgList,
    /// The registers the call writes.
    pub defs: CallRetList,
    /// The registers the call may overwrite.
    pub clobbers: PRegSet,
    /// The calling convention of the callee.
    pub callee_conv: CallConv,
    /// The calling convention of the caller.
    pub caller_conv: CallConv,
    /// The number of bytes of stack arguments that the callee removes.
    pub callee_pop_size: u32,
    /// Present for a try-call.
    pub try_call_info: Option<TryCallInfo>,
}

/// The locations that an assigner appends, and what it returns.
pub ghost struct ArgLocs {
    /// The locations appended, in order.
    pub args: Seq<ABIArgView>,
    /// The stack space used and the index of the synthetic argument, or
    /// the error.
    pub result: Result<(u32, Option<usize>), CodegenError>,
}

/// Is `n` a power of two?
pub open spec fn is_power_of_two(n: u32) -> bool {
    n != 0 && n & ((n - 1) as u32) == 0
}

/// What a target machine supplies: its word size and stack alignment, its
/// assignment of locations, its register conventions, and the
/// instructions for each operation that the engine asks for.
///
/// Each generator is a function of its arguments: the instruction it
/// returns is the one that the spec function beside it names.
pub trait ABIMachineSpec: Sized {
    /// The machine's instructions.
    type I;

    /// The machine's flags.
    type F: IsaFlags;

    /// The most stack space that arguments, or return values, may take.
    spec fn spec_stack_arg_ret_size_limit() -> u32;

    fn stack_arg_ret_size_limit() -> (n: u32)
        ensures
            n == Self::spec_stack_arg_ret_size_limit(),
    ;

    /// The number of bits in a machine word.
    spec fn spec_word_bits() -> u32;

    fn word_bits() -> (b: u32)
        ensures
            b == Self::spec_word_bits(),
            b == 32 || b == 64,
    ;

    /// The number of bytes in a machine word.
    fn word_bytes() -> (b: u32)
        ensures
            b == Self::spec_word_bits() / 8,
            b == 4 || b == 8,
    {
        Self::word_bits() / 8
    }

    /// The integer type as wide as a machine word.
    fn word_type() -> (ty: Type)
        ensures
            ty == spec_word_type(Self::spec_word_bits()),
    {
        if Self::word_bits() == 32 {
            Type::I32
        } else {
            Type::I64
        }
    }

    /// The class of the registers that hold a machine word.
    spec fn spec_word_reg_class() -> RegClass;

    fn word_reg_class() -> (rc: RegClass)
        ensures
            rc == Self::spec_word_reg_class(),
    ;

    /// The alignment of the stack in bytes, a power of two.
    spec fn spec_stack_align(call_conv: CallConv) -> u32;

    fn stack_align(call_conv: CallConv) -> (a: u32)
        ensures
            a == Self::spec_stack_align(call_conv),
            is_power_of_two(a),
    ;

    /// The locations for a list of parameters or return values.
    spec fn arg_locs(
        call_conv: CallConv,
        flags: Flags,
        params: Seq<AbiParam>,
        args_or_rets: ArgsOrRets,
        add_ret_area_ptr: bool,
    ) -> ArgLocs;

    /// Assigns registers and stack slots to `params`, in order, and appends
    /// the locations to `args`. With `add_ret_area_ptr`, one more location
    /// follows them, for the pointer to the return area.
    ///
    /// Returns the stack space used and, with `add_ret_area_ptr`, the
    /// index of that last location among those appended.
    fn compute_arg_locs(
        call_conv: CallConv,
        flags: &Flags,
        params: &Vec<AbiParam>,
        args_or_rets: ArgsOrRets,
        add_ret_area_ptr: bool,
        args: &mut ArgsAccumulator,
    ) -> (r: Result<(u32, Option<usize>), CodegenError>)
        requires
            old(args).wf(),
            old(args).spec_args().len() == 0,
            !old(args).spec_non_formal(),
        ensures
            r == Self::arg_locs(call_conv, *flags, params@, args_or_rets, add_ret_area_ptr).result,
            final(args).spec_start() == old(args).spec_start(),
            final(args).wf(),
            final(args).spec_all().len() >= old(args).spec_all().len(),
            final(args).spec_all().take(old(args).spec_all().len() as int) == old(args).spec_all(),
            arg_views(final(args).spec_args()) == Self::arg_locs(
                call_conv,
                *flags,
                params@,
                args_or_rets,
                add_ret_area_ptr,
            ).args,
            forall|i: int|
                0 <= i < final(args).spec_args().len() ==> (#[trigger] final(args).spec_args()[i])@.wf(),
            r is Ok ==> final(args).spec_args().len() == params@.len() + (if add_ret_area_ptr {
                1int
            } else {
                0int
            }),
            r is Ok ==> r->Ok_0.1 == (if add_ret_area_ptr {
                Some(params@.len() as usize)
            } else {
                None
            }),
            r is Ok && add_ret_area_ptr ==> final(args).spec_args()[params@.len() as int] is Slots
                && final(args).spec_args()[params@.len() as int]@->Slots_slots.len() == 1,
    ;

    spec fn load_stack_inst(mem: StackAMode, into_reg: Writable<Reg>, ty: Type) -> Self::I;

    /// A load from the stack.
    fn gen_load_stack(mem: StackAMode, into_reg: Writable<Reg>, ty: Type) -> (inst: Self::I)
        ensures
            inst == Self::load_stack_inst(mem, into_reg, ty),
    ;

    spec fn store_stack_inst(mem: StackAMode, from_reg: Reg, ty: Type) -> Self::I;

    /// A store to the stack.
    fn gen_store_stack(mem: StackAMode, from_reg: Reg, ty: Type) -> (inst: Self::I)
        ensures
            inst == Self::store_stack_inst(mem, from_reg, ty),
    ;

    spec fn move_inst(to_reg: Writable<Reg>, from_reg: Reg, ty: Type) -> Self::I;

    /// A move between registers.
    fn gen_move(to_reg: Writable<Reg>, from_reg: Reg, ty: Type) -> (inst: Self::I)
        ensures
            inst == Self::move_inst(to_reg, from_reg, ty),
    ;

    spec fn extend_inst(
        to_reg: Writable<Reg>,
        from_reg: Reg,
        is_signed: bool,
        from_bits: u8,
        to_bits: u8,
    ) -> Self::I;

    /// A widening of an integer.
    fn gen_extend(
        to_reg: Writable<Reg>,
        from_reg: Reg,
        is_signed: bool,
        from_bits: u8,
        to_bits: u8,
    ) -> (inst: Self::I)
        ensures
            inst == Self::extend_inst(to_reg, from_reg, is_signed, from_bits, to_bits),
    ;

    spec fn args_inst(args: Seq<ArgPair>) -> Self::I;

    /// The pseudo-instruction that binds the incoming register arguments.
    fn gen_args(args: Vec<ArgPair>) -> (inst: Self::I)
        ensures
            inst == Self::args_inst(args@),
    ;

    spec fn rets_inst(rets: Seq<RetPair>) -> Self::I;

    /// The pseudo-instruction that binds the returned registers.
    fn gen_rets(rets: Vec<RetPair>) -> (inst: Self::I)
        ensures
            inst == Self::rets_inst(rets@),
    ;

    spec fn add_imm_insts(
        call_conv: CallConv,
        into_reg: Writable<Reg>,
        from_reg: Reg,
        imm: u32,
    ) -> Seq<Self::I>;

    /// An addition of a constant.
    fn gen_add_imm(call_conv: CallConv, into_reg: Writable<Reg>, from_reg: Reg, imm: u32) -> (insts:
        Vec<Self::I>)
        ensures
            insts@ == Self::add_imm_insts(call_conv, into_reg, from_reg, imm),
    ;

    spec fn stack_lower_bound_trap_insts(limit_reg: Reg) -> Seq<Self::I>;

    /// A trap if the stack pointer is below the limit in `limit_reg`.
    fn gen_stack_lower_bound_trap(limit_reg: Reg) -> (insts: Vec<Self::I>)
        ensures
            insts@ == Self::stack_lower_bound_trap_insts(limit_reg),
    ;

    spec fn get_stack_addr_inst(mem: StackAMode, into_reg: Writable<Reg>) -> Self::I;

    /// The address of a place on the stack.
    fn gen_get_stack_addr(mem: StackAMode, into_reg: Writable<Reg>) -> (inst: Self::I)
        ensures
            inst == Self::get_stack_addr_inst(mem, into_reg),
    ;

    spec fn spec_stacklimit_reg(call_conv: CallConv) -> Reg;

    /// The fixed register in which a stack limit is computed.
    fn get_stacklimit_reg(call_conv: CallConv) -> (reg: Reg)
        ensures
            reg == Self::spec_stacklimit_reg(call_conv),
    ;

    spec fn load_base_offset_inst(
        into_reg: Writable<Reg>,
        base: Reg,
        offset: i32,
        ty: Type,
    ) -> Self::I;

    /// A load from `base` plus `offset`.
    fn gen_load_base_offset(into_reg: Writable<Reg>, base: Reg, offset: i32, ty: Type) -> (inst:
        Self::I)
        ensures
            inst == Self::load_base_offset_inst(into_reg, base, offset, ty),
    ;

    spec fn store_base_offset_inst(base: Reg, offset: i32, from_reg: Reg, ty: Type) -> Self::I;

    /// A store to `base` plus `offset`.
    fn gen_store_base_offset(base: Reg, offset: i32, from_reg: Reg, ty: Type) -> (inst: Self::I)
        ensures
            inst == Self::store_base_offset_inst(base, offset, from_reg, ty),
    ;

    spec fn sp_reg_adjust_insts(amount: i32) -> Seq<Self::I>;

    /// An adjustment of the stack pointer.
    fn gen_sp_reg_adjust(amount: i32) -> (insts: Vec<Self::I>)
        ensures
            insts@ == Self::sp_reg_adjust_insts(amount),
    ;

    spec fn frame_layout(
        call_conv: CallConv,
        flags: Flags,
        sig: &Signature,
        regs: Seq<Writable<RealReg>>,
        is_leaf: bool,
        incoming_args_size: u32,
        tail_args_size: u32,
        stackslots_size: u32,
        fixed_frame_storage_size: u32,
        outgoing_args_size: u32,
    ) -> FrameLayoutView;

    /// The layout of a frame: the callee-saved registers among `regs`, in
    /// order, and the size of each area. The sizes that are given are
    /// recorded as they are; the machine adds the sizes of the setup area
    /// and of the area for saved registers.
    fn compute_frame_layout(
        call_conv: CallConv,
        flags: &Flags,
        sig: &Signature,
        regs: &Vec<Writable<RealReg>>,
        is_leaf: bool,
        incoming_args_size: u32,
        tail_args_size: u32,
        stackslots_size: u32,
        fixed_frame_storage_size: u32,
        outgoing_args_size: u32,
    ) -> (layout: FrameLayout)
        ensures
            layout@ == Self::frame_layout(
                call_conv,
                *flags,
                sig,
                regs@,
                is_leaf,
                incoming_args_size,
                tail_args_size,
                stackslots_size,
                fixed_frame_storage_size,
                outgoing_args_size,
            ),            layout.incoming_args_size == incoming_args_size,
            layout.tail_args_size == tail_args_size,
            layout.stackslots_size == stackslots_size,
            layout.fixed_frame_storage_size == fixed_frame_storage_size,
            layout.outgoing_args_size == outgoing_args_size,
    ;

    spec fn prologue_frame_setup_insts(
        call_conv: CallConv,
        flags: Flags,
        isa_flags: &Self::F,
        frame_layout: FrameLayoutView,
    ) -> Seq<Self::I>;

    /// The machine's usual frame setup.
    fn gen_prologue_frame_setup(
        call_conv: CallConv,
        flags: &Flags,
        isa_flags: &Self::F,
        frame_layout: &FrameLayout,
    ) -> (insts: Vec<Self::I>)
        ensures
            insts@ == Self::prologue_frame_setup_insts(call_conv, *flags, isa_flags, frame_layout@),
    ;

    spec fn epilogue_frame_restore_insts(
        call_conv: CallConv,
        flags: Flags,
        isa_flags: &Self::F,
        frame_layout: FrameLayoutView,
    ) -> Seq<Self::I>;

    /// The machine's usual frame teardown.
    fn gen_epilogue_frame_restore(
        call_conv: CallConv,
        flags: &Flags,
        isa_flags: &Self::F,
        frame_layout: &FrameLayout,
    ) -> (insts: Vec<Self::I>)
        ensures
            insts@ == Self::epilogue_frame_restore_insts(
                call_conv,
                *flags,
                isa_flags,
                frame_layout@,
            ),
    ;

    spec fn return_insts(
        call_conv: CallConv,
        isa_flags: &Self::F,
        frame_layout: FrameLayoutView,
    ) -> Seq<
        Self::I,
    >;

    /// The return.
    fn gen_return(call_conv: CallConv, isa_flags: &Self::F, frame_layout: &FrameLayout) -> (insts:
        Vec<Self::I>)
        ensures
            insts@ == Self::return_insts(call_conv, isa_flags, frame_layout@),
    ;

    spec fn probestack_insts(frame_size: u32) -> Seq<Self::I>;

    /// Appends a call to the stack-probing routine.
    fn gen_probestack(insts: &mut Vec<Self::I>, frame_size: u32)
        ensures
            final(insts)@ == old(insts)@ + Self::probestack_insts(frame_size),
    ;

    spec fn inline_probestack_insts(call_conv: CallConv, frame_size: u32, guard_size: u32) -> Seq<
        Self::I,
    >;

    /// Appends stack-probing code.
    fn gen_inline_probestack(
        insts: &mut Vec<Self::I>,
        call_conv: CallConv,
        frame_size: u32,
        guard_size: u32,
    )
        ensures
            final(insts)@ == old(insts)@ + Self::inline_probestack_insts(
                call_conv,
                frame_size,
                guard_size,
            ),
    ;

    spec fn clobber_save_insts(
        call_conv: CallConv,
        flags: Flags,
        frame_layout: FrameLayoutView,
    ) -> Seq<
        Self::I,
    >;

    /// Saves the clobbered callee-saved registers.
    fn gen_clobber_save(call_conv: CallConv, flags: &Flags, frame_layout: &FrameLayout) -> (insts:
        Vec<Self::I>)
        ensures
            insts@ == Self::clobber_save_insts(call_conv, *flags, frame_layout@),
    ;

    spec fn clobber_restore_insts(
        call_conv: CallConv,
        flags: Flags,
        frame_layout: FrameLayoutView,
    ) -> Seq<Self::I>;

    /// Restores the clobbered callee-saved registers.
    fn gen_clobber_restore(
        call_conv: CallConv,
        flags: &Flags,
        frame_layout: &FrameLayout,
    ) -> (insts:
        Vec<Self::I>)
        ensures
            insts@ == Self::clobber_restore_insts(call_conv, *flags, frame_layout@),
    ;

    /// The instructions of a memory copy when the allocator of virtual
    /// registers is in state `vregs`.
    spec fn memcpy_insts(
        call_conv: CallConv,
        dst: Reg,
        src: Reg,
        size: usize,
        vregs: AllocView,
    ) -> Seq<
        Self::I,
    >;

    /// The state in which a memory copy leaves the allocator.
    spec fn memcpy_vregs(
        call_conv: CallConv,
        dst: Reg,
        src: Reg,
        size: usize,
        vregs: AllocView,
    ) -> AllocView;

    /// A copy of `size` bytes from `src` to `dst`, with temporaries from
    /// `vregs`.
    fn gen_memcpy(
        call_conv: CallConv,
        dst: Reg,
        src: Reg,
        size: usize,
        vregs: &mut VRegAllocator,
    ) -> (insts:
        Vec<Self::I>)
        ensures
            insts@ == Self::memcpy_insts(call_conv, dst, src, size, old(vregs)@),
            final(vregs)@ == Self::memcpy_vregs(call_conv, dst, src, size, old(vregs)@),
    ;

    spec fn spec_number_of_spillslots_for_value(
        rc: RegClass,
        target_vector_bytes: u32,
        isa_flags: &Self::F,
    ) -> u32;

    /// The number of spill slots that a value of class `rc` takes.
    fn get_number_of_spillslots_for_value(
        rc: RegClass,
        target_vector_bytes: u32,
        isa_flags: &Self::F,
    ) -> (n:
        u32)
        ensures
            n == Self::spec_number_of_spillslots_for_value(rc, target_vector_bytes, isa_flags),
    ;

    /// The indices of the registers that a call does not preserve.
    spec fn regs_clobbered_by_call(call_conv_of_callee: CallConv, is_exception: bool) -> Set<int>;

    /// The registers that a call to a callee with the given convention
    /// does not preserve.
    fn get_regs_clobbered_by_call(
        call_conv_of_callee: CallConv,
        is_exception: bool,
    ) -> (set: PRegSet)
        ensures
            crate::pregset::preg_set_members(set) == Self::regs_clobbered_by_call(
                call_conv_of_callee,
                is_exception,
            ),
    ;

    spec fn spec_ext_mode(call_conv: CallConv, specified: ArgumentExtension) -> ArgumentExtension;

    /// The widening that is carried out for an argument declared with
    /// `specified`.
    fn get_ext_mode(call_conv: CallConv, specified: ArgumentExtension) -> (ext: ArgumentExtension)
        ensures
            ext == Self::spec_ext_mode(call_conv, specified),
    ;

    spec fn spec_retval_temp_reg(call_conv_of_callee: CallConv) -> Writable<Reg>;

    /// A register that is free after a call and holds no return value.
    fn retval_temp_reg(call_conv_of_callee: CallConv) -> (reg: Writable<Reg>)
        ensures
            reg == Self::spec_retval_temp_reg(call_conv_of_callee),
    ;

    spec fn spec_exception_payload_regs(call_conv: CallConv) -> Seq<Reg>;

    /// The registers in which an exception's payload arrives.
    fn exception_payload_regs(call_conv: CallConv) -> (regs: Vec<Reg>)
        ensures
            regs@ == Self::spec_exception_payload_regs(call_conv),
    ;

    spec fn spec_canonical_type_for_rc(rc: RegClass) -> Type;

    /// The type in which a whole register of class `rc` is saved.
    fn canonical_type_for_rc(rc: RegClass) -> (ty: Type)
        ensures
            ty == Self::spec_canonical_type_for_rc(rc),
    ;

    spec fn spec_dynamic_vector_bytes(ty: Type) -> u32;

    /// The size in bytes of a dynamic vector of the given concrete type.
    fn dynamic_vector_bytes(ty: Type) -> (n: u32)
        ensures
            n == Self::spec_dynamic_vector_bytes(ty),
    ;

    /// A copy of an instruction.
    fn clone_inst(inst: &Self::I) -> (copy: Self::I)
        ensures
            copy == *inst,
    ;

    spec fn spec_worst_case_size() -> u32;

    /// The most bytes that one instruction takes.
    fn worst_case_size() -> (n: u32)
        ensures
            n == Self::spec_worst_case_size(),
    ;
}

/// The integer type that is `bits` wide, for a word of 32 or 64 bits.
pub open spec fn spec_word_type(bits: u32) -> Type {
    if bits == 32 {
        Type::I32
    } else {
        Type::I64
    }
}

/// Where the context of an exception handler is found at run time.
#[derive(Clone, Copy, Debug, PartialEq, Eq, Structural)]
pub enum ExceptionContextLoc {
    /// At an offset from the stack pointer.
    SPOffset(u32),
    /// In the general-purpose register with this encoding.
    GPR(u8),
}

/// A handler of a try-call as the emitted code records it.
#[derive(Clone, Copy, Debug, PartialEq, Eq, Structural)]
pub enum MachExceptionHandler {
    Tag(ExceptionTag, MachLabel),
    Default(MachLabel),
    Context(ExceptionContextLoc),
}

/// The recorded form of one handler: a context in a spill slot is found
/// at the slot's offset from the stack pointer, a context in a physical
/// register by the register's encoding.
pub open spec fn spec_exception_handler(
    handler: TryCallHandler,
    layout: &FrameLayout,
) -> MachExceptionHandler {
    match handler {
        TryCallHandler::Tag(tag, label) => MachExceptionHandler::Tag(tag, label),
        TryCallHandler::Default(label) => MachExceptionHandler::Default(label),
        TryCallHandler::Context(reg) => match reg {
            Reg::Spill(slot) => MachExceptionHandler::Context(
                ExceptionContextLoc::SPOffset(layout.spec_spillslot_offset(slot) as u32),
            ),
            Reg::Real(r) => MachExceptionHandler::Context(
                ExceptionContextLoc::GPR(r.spec_hw_enc() as u8),
            ),
            Reg::Virtual(_) => arbitrary(),
        },
    }
}

impl TryCallInfo {
    /// After register allocation, every context is in a spill slot whose
    /// offset fits 32 bits or in a physical register.
    pub open spec fn allocated(&self, layout: &FrameLayout) -> bool {
        forall|i: int|
            0 <= i < self.exception_handlers@.len() ==> match #[trigger] self.exception_handlers@[i] {
                TryCallHandler::Context(Reg::Spill(slot)) => layout.spec_spillslot_offset(slot)
                    <= u32::MAX,
                TryCallHandler::Context(Reg::Virtual(_)) => false,
                _ => true,
            }
    }

    /// The handlers in the form in which the emitted code records them.
    pub fn exception_handlers(&self, layout: &FrameLayout) -> (r: Vec<MachExceptionHandler>)
        requires
            self.allocated(layout),
        ensures
            r@ == self.exception_handlers@.map_values(
                |h: TryCallHandler| spec_exception_handler(h, layout),
            ),
    {
        let mut r: Vec<MachExceptionHandler> = Vec::new();
        let mut i: usize = 0;
        while i < self.exception_handlers.len()
            invariant
                i <= self.exception_handlers@.len(),
                self.allocated(layout),
                r@ == self.exception_handlers@.take(i as int).map_values(
                    |h: TryCallHandler| spec_exception_handler(h, layout),
                ),
            decreases self.exception_handlers@.len() - i,
        {
            let handler = self.exception_handlers[i];
            let recorded = match handler {
                TryCallHandler::Tag(tag, label) => MachExceptionHandler::Tag(tag, label),
                TryCallHandler::Default(label) => MachExceptionHandler::Default(label),
                TryCallHandler::Context(reg) => {
                    let loc = match reg {
                        Reg::Spill(slot) => ExceptionContextLoc::SPOffset(
                            layout.spillslot_offset(slot) as u32,
                        ),
                        Reg::Real(r) => ExceptionContextLoc::GPR(r.hw_enc()),
                        Reg::Virtual(_) => vstd::pervasive::unreached(),
                    };
                    MachExceptionHandler::Context(loc)
                },
            };
            r.push(recorded);
            proof {
                assert(r@ =~= self.exception_handlers@.take(i + 1).map_values(
                    |h: TryCallHandler| spec_exception_handler(h, layout),
                ));
            }
            i += 1;
        }
        proof {
            assert(self.exception_handlers@.take(self.exception_handlers@.len() as int)
                =~= self.exception_handlers@);
        }
        r
    }
}

impl<T> CallInfo<T> {
    /// A call that reads, writes and overwrites no register, with one
    /// convention for caller and callee.
    pub fn empty(dest: T, call_conv: CallConv) -> (info: CallInfo<T>)
        ensures
            info.dest == dest,
            info.uses@ == Seq::<CallArgPair>::empty(),
            info.defs@ == Seq::<CallRetPair>::empty(),
            crate::pregset::preg_set_members(info.clobbers) == Set::<int>::empty(),
            info.caller_conv == call_conv,
            info.callee_conv == call_conv,
            info.callee_pop_size == 0,
            info.try_call_info is None,
    {
        CallInfo {
            dest,
            uses: CallArgList::new(),
            defs: CallRetList::new(),
            clobbers: crate::pregset::preg_set_empty(),
            caller_conv: call_conv,
            callee_conv: call_conv,
            callee_pop_size: 0,
            try_call_info: None,
        }
    }
}

} // verus!
