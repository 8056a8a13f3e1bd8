//! The calling convention of the interpreter's own machine.
//!
//! Integer values travel in the integer registers from x0 on, floats in
//! the float registers from f0 on and vectors in the vector registers
//! from v0 on: 16 registers of each bank for arguments, and for return
//! values 15 integer registers and 16 of each other bank. What finds
//! no register goes to the stack. The instructions are named by what
//! they do; their encoding is left to the emitter.

use crate::abi::{
    arg_views, ABIArg, ABIArgSlot, ABIArgView, ABIMachineSpec, ArgLocs, ArgPair, ArgsAccumulator,
    ArgsOrRets, IsaFlags, RetPair, StackAMode,
};
use crate::frame::{FrameLayout, FrameLayoutView};
use crate::ir::{
    AbiParam, ArgumentExtension, ArgumentPurpose, CallConv, CodegenError, Flags, Signature, Type,
};
use crate::lists::ABIArgSlotVec;
use crate::pregset::{preg_set_add, preg_set_empty, preg_set_members};
use crate::reg::{AllocView, RealReg, Reg, RegClass, VRegAllocator, Writable};
use regalloc2::PRegSet;
use vstd::prelude::*;

verus! {

/// A list of bindings of incoming arguments.
#[derive(Debug, PartialEq, Eq)]
pub enum ArgPairs {
    Nil,
    Cons(ArgPair, Box<ArgPairs>),
}

/// A list of bindings of returned values.
#[derive(Debug, PartialEq, Eq)]
pub enum RetPairs {
    Nil,
    Cons(RetPair, Box<RetPairs>),
}

/// The list with the items of `pairs`, in order.
pub open spec fn spec_arg_pairs(pairs: Seq<ArgPair>) -> ArgPairs
    decreases pairs.len(),
{
    if pairs.len() == 0 {
        ArgPairs::Nil
    } else {
        ArgPairs::Cons(pairs[0], Box::new(spec_arg_pairs(pairs.drop_first())))
    }
}

/// The list with the items of `pairs`, in order.
pub open spec fn spec_ret_pairs(pairs: Seq<RetPair>) -> RetPairs
    decreases pairs.len(),
{
    if pairs.len() == 0 {
        RetPairs::Nil
    } else {
        RetPairs::Cons(pairs[0], Box::new(spec_ret_pairs(pairs.drop_first())))
    }
}

impl ArgPairs {
    /// The items of the list, in order.
    pub open spec fn spec_items(&self) -> Seq<ArgPair>
        decreases self,
    {
        match self {
            ArgPairs::Nil => Seq::empty(),
            ArgPairs::Cons(pair, rest) => seq![*pair] + rest.spec_items(),
        }
    }

    /// The list with the items of `pairs`, in order.
    pub fn from_vec(pairs: &Vec<ArgPair>) -> (list: ArgPairs)
        ensures
            list == spec_arg_pairs(pairs@),
    {
        let mut list = ArgPairs::Nil;
        let mut i: usize = pairs.len();
        proof {
            assert(pairs@.skip(pairs@.len() as int) =~= Seq::<ArgPair>::empty());
        }
        while i > 0
            invariant
                i <= pairs@.len(),
                list == spec_arg_pairs(pairs@.skip(i as int)),
            decreases i,
        {
            i -= 1;
            proof {
                assert(pairs@.skip(i as int).drop_first() =~= pairs@.skip(i + 1));
            }
            list = ArgPairs::Cons(pairs[i], Box::new(list));
        }
        proof {
            assert(pairs@.skip(0) =~= pairs@);
        }
        list
    }

    /// The items of the list, in order.
    pub fn to_vec(&self) -> (pairs: Vec<ArgPair>)
        ensures
            pairs@ == self.spec_items(),
    {
        let mut pairs: Vec<ArgPair> = Vec::new();
        let mut cur = self;
        loop
            invariant
                pairs@ + cur.spec_items() == self.spec_items(),
            decreases cur,
        {
            match cur {
                ArgPairs::Nil => {
                    proof {
                        assert(pairs@ + Seq::<ArgPair>::empty() =~= pairs@);
                    }
                    return pairs;
                },
                ArgPairs::Cons(pair, rest) => {
                    proof {
                        assert(
                            pairs@.push(*pair) + rest.spec_items() =~= pairs@ + cur.spec_items()
                        );
                    }
                    pairs.push(*pair);
                    cur = &**rest;
                },
            }
        }
    }
}

impl Clone for ArgPairs {
    fn clone(&self) -> (r: Self)
        ensures
            r == *self,
        decreases self,
    {
        match self {
            ArgPairs::Nil => ArgPairs::Nil,
            ArgPairs::Cons(pair, rest) => ArgPairs::Cons(*pair, Box::new((**rest).clone())),
        }
    }
}

impl RetPairs {
    /// The items of the list, in order.
    pub open spec fn spec_items(&self) -> Seq<RetPair>
        decreases self,
    {
        match self {
            RetPairs::Nil => Seq::empty(),
            RetPairs::Cons(pair, rest) => seq![*pair] + rest.spec_items(),
        }
    }

    /// The list with the items of `pairs`, in order.
    pub fn from_vec(pairs: &Vec<RetPair>) -> (list: RetPairs)
        ensures
            list == spec_ret_pairs(pairs@),
    {
        let mut list = RetPairs::Nil;
        let mut i: usize = pairs.len();
        proof {
            assert(pairs@.skip(pairs@.len() as int) =~= Seq::<RetPair>::empty());
        }
        while i > 0
            invariant
                i <= pairs@.len(),
                list == spec_ret_pairs(pairs@.skip(i as int)),
            decreases i,
        {
            i -= 1;
            proof {
                assert(pairs@.skip(i as int).drop_first() =~= pairs@.skip(i + 1));
            }
            list = RetPairs::Cons(pairs[i], Box::new(list));
        }
        proof {
            assert(pairs@.skip(0) =~= pairs@);
        }
        list
    }

    /// The items of the list, in order.
    pub fn to_vec(&self) -> (pairs: Vec<RetPair>)
        ensures
            pairs@ == self.spec_items(),
    {
        let mut pairs: Vec<RetPair> = Vec::new();
        let mut cur = self;
        loop
            invariant
                pairs@ + cur.spec_items() == self.spec_items(),
            decreases cur,
        {
            match cur {
                RetPairs::Nil => {
                    proof {
                        assert(pairs@ + Seq::<RetPair>::empty() =~= pairs@);
                    }
                    return pairs;
                },
                RetPairs::Cons(pair, rest) => {
                    proof {
                        assert(
                            pairs@.push(*pair) + rest.spec_items() =~= pairs@ + cur.spec_items()
                        );
                    }
                    pairs.push(*pair);
                    cur = &**rest;
                },
            }
        }
    }
}

impl Clone for RetPairs {
    fn clone(&self) -> (r: Self)
        ensures
            r == *self,
        decreases self,
    {
        match self {
            RetPairs::Nil => RetPairs::Nil,
            RetPairs::Cons(pair, rest) => RetPairs::Cons(*pair, Box::new((**rest).clone())),
        }
    }
}

/// An instruction of the machine, before it is encoded.
#[derive(Debug, PartialEq, Eq)]
pub enum PulleyInst {
    LoadStack { mem: StackAMode, into_reg: Writable<Reg>, ty: Type },
    StoreStack { mem: StackAMode, from_reg: Reg, ty: Type },
    Move { to_reg: Writable<Reg>, from_reg: Reg, ty: Type },
    Extend { to_reg: Writable<Reg>, from_reg: Reg, is_signed: bool, from_bits: u8, to_bits: u8 },
    Args(ArgPairs),
    Rets(RetPairs),
    AddImm { into_reg: Writable<Reg>, from_reg: Reg, imm: u32 },
    StackLowerBoundTrap { limit_reg: Reg },
    GetStackAddr { mem: StackAMode, into_reg: Writable<Reg> },
    LoadBaseOffset { into_reg: Writable<Reg>, base: Reg, offset: i32, ty: Type },
    StoreBaseOffset { base: Reg, offset: i32, from_reg: Reg, ty: Type },
    SpAdjust { amount: i32 },
    PushFrame,
    PopFrame,
    Ret,
    Probestack { frame_size: u32 },
    InlineProbestack { frame_size: u32, guard_size: u32 },
    /// Moves the stack pointer down by `stack_size` bytes and saves
    /// `count` registers at the top of that space.
    ClobberSave { count: u32, stack_size: u32 },
    /// Restores `count` registers and moves the stack pointer up by
    /// `stack_size` bytes.
    ClobberRestore { count: u32, stack_size: u32 },
    /// Copies `size` bytes from `src` to `dst`, with `tmp` as scratch.
    Memcpy { dst: Reg, src: Reg, size: usize, tmp: Reg },
}

/// The machine has no flags of its own.
#[derive(Clone, Copy, Debug, PartialEq, Eq, Structural)]
pub struct PulleyFlags;

impl IsaFlags for PulleyFlags {
    open spec fn spec_is_forward_edge_cfi_enabled(&self) -> bool {
        false
    }

    fn is_forward_edge_cfi_enabled(&self) -> (b: bool) {
        false
    }
}

/// The interpreter's machine as a target of the calling-convention
/// engine.
pub struct PulleyMachineDeps;

/// The number of registers of class `rc` that arguments, or return
/// values, may take.
pub open spec fn spec_reg_limit(rc: RegClass, args_or_rets: ArgsOrRets) -> nat {
    if rc == RegClass::Int && args_or_rets == ArgsOrRets::Rets {
        15
    } else {
        16
    }
}

/// `n` rounded up to a multiple of `align`, which is not zero.
pub open spec fn spec_align_to(n: int, align: int) -> int {
    (n + align - 1) / align * align
}

/// The class of the registers that hold a value of type `ty`.
pub open spec fn spec_type_class(ty: Type) -> RegClass {
    match ty {
        Type::F32 | Type::F64 => RegClass::Float,
        Type::V128 => RegClass::Vector,
        _ => RegClass::Int,
    }
}

/// How far the assignment of locations has come.
pub ghost struct Assigned {
    /// The locations assigned so far.
    pub locs: Seq<ABIArgView>,
    /// The number of integer registers taken.
    pub x: nat,
    /// The number of float registers taken.
    pub f: nat,
    /// The number of vector registers taken.
    pub v: nat,
    /// The stack space taken.
    pub stack: nat,
    /// The reason why the assignment failed, if it did.
    pub error: Option<CodegenError>,
}

impl Assigned {
    /// The number of registers of class `rc` taken.
    pub open spec fn taken(self, rc: RegClass) -> nat {
        match rc {
            RegClass::Int => self.x,
            RegClass::Float => self.f,
            RegClass::Vector => self.v,
        }
    }

    /// One more register of class `rc` taken.
    pub open spec fn take(self, rc: RegClass) -> Assigned {
        match rc {
            RegClass::Int => Assigned { x: self.x + 1, ..self },
            RegClass::Float => Assigned { f: self.f + 1, ..self },
            RegClass::Vector => Assigned { v: self.v + 1, ..self },
        }
    }
}

/// The outcome of finding a slot for one part of a value.
pub ghost struct SlotChoice {
    pub slot: ABIArgSlot,
    pub after: Assigned,
}

/// Finds a slot for a part of type `ty`: the next register of its class
/// if one is left, else the next place on the stack, aligned to the
/// part's size, which counts as eight bytes at least. Return values go
/// to the stack only where the flags allow it.
pub open spec fn spec_choose_slot(
    st: Assigned,
    flags: Flags,
    args_or_rets: ArgsOrRets,
    ty: Type,
    extension: ArgumentExtension,
) -> SlotChoice {
    let rc = spec_type_class(ty);
    if st.taken(rc) < spec_reg_limit(rc, args_or_rets) {
        SlotChoice {
            slot: ABIArgSlot::Reg {
                reg: RealReg::spec_new(st.taken(rc) as u8, rc),
                ty,
                extension,
            },
            after: st.take(rc),
        }
    } else if args_or_rets == ArgsOrRets::Rets && !flags.enable_multi_ret_implicit_sret {
        SlotChoice {
            slot: ABIArgSlot::Stack { offset: 0, ty, extension },
            after: Assigned { error: Some(CodegenError::Unsupported), ..st },
        }
    } else {
        let size = if ty.spec_bytes() < 8 {
            8int
        } else {
            ty.spec_bytes() as int
        };
        let offset = spec_align_to(st.stack as int, size);
        if offset + size > u32::MAX {
            SlotChoice {
                slot: ABIArgSlot::Stack { offset: 0, ty, extension },
                after: Assigned { error: Some(CodegenError::ImplLimitExceeded), ..st },
            }
        } else {
            SlotChoice {
                slot: ABIArgSlot::Stack { offset: offset as i64, ty, extension },
                after: Assigned { stack: (offset + size) as nat, ..st },
            }
        }
    }
}

/// Assigns a location to one parameter: one slot, or two slots of 64 bits
/// for a 128-bit integer. A structure passed by value is not supported.
pub open spec fn spec_assign_param(
    st: Assigned,
    flags: Flags,
    args_or_rets: ArgsOrRets,
    param: AbiParam,
) -> Assigned {
    if param.purpose is StructArgument {
        Assigned { error: Some(CodegenError::Unsupported), ..st }
    } else if param.value_type is I128 {
        let first = spec_choose_slot(st, flags, args_or_rets, Type::I64, param.extension);
        if first.after.error is Some {
            Assigned { error: first.after.error, ..st }
        } else {
            let second = spec_choose_slot(
                first.after,
                flags,
                args_or_rets,
                Type::I64,
                param.extension,
            );
            if second.after.error is Some {
                Assigned { error: second.after.error, ..st }
            } else {
                Assigned {
                    locs: st.locs.push(
                        ABIArgView::Slots {
                            slots: seq![first.slot, second.slot],
                            purpose: param.purpose,
                        },
                    ),
                    ..second.after
                }
            }
        }
    } else {
        let choice = spec_choose_slot(st, flags, args_or_rets, param.value_type, param.extension);
        if choice.after.error is Some {
            Assigned { error: choice.after.error, ..st }
        } else {
            Assigned {
                locs: st.locs.push(
                    ABIArgView::Slots { slots: seq![choice.slot], purpose: param.purpose },
                ),
                ..choice.after
            }
        }
    }
}

/// Assigns locations to the parameters in order, until one fails.
pub open spec fn spec_assign_params(
    start: Assigned,
    flags: Flags,
    args_or_rets: ArgsOrRets,
    params: Seq<AbiParam>,
) -> Assigned
    decreases params.len(),
{
    if params.len() == 0 {
        start
    } else {
        let before = spec_assign_params(start, flags, args_or_rets, params.drop_last());
        if before.error is Some {
            before
        } else {
            spec_assign_param(before, flags, args_or_rets, params.last())
        }
    }
}

/// A failure among the first `n` parameters is the failure of all.
pub proof fn lemma_assign_params_prefix(
    start: Assigned,
    flags: Flags,
    args_or_rets: ArgsOrRets,
    params: Seq<AbiParam>,
    n: int,
)
    requires
        0 <= n <= params.len(),
        spec_assign_params(start, flags, args_or_rets, params.take(n)).error is Some,
    ensures
        spec_assign_params(start, flags, args_or_rets, params) == spec_assign_params(
            start,
            flags,
            args_or_rets,
            params.take(n),
        ),
    decreases params.len() - n,
{
    if n < params.len() {
        assert(params.take(n + 1).drop_last() =~= params.take(n));
        lemma_assign_params_prefix(start, flags, args_or_rets, params, n + 1);
    } else {
        assert(params.take(n) =~= params);
    }
}

/// The state in which the assignment begins: the pointer to the return
/// area, where there is one, has the first integer register.
pub open spec fn spec_assign_start(add_ret_area_ptr: bool) -> Assigned {
    Assigned {
        locs: Seq::empty(),
        x: if add_ret_area_ptr {
            1
        } else {
            0
        },
        f: 0,
        v: 0,
        stack: 0,
        error: None,
    }
}

/// The location of the pointer to the return area: the first integer
/// register.
pub open spec fn spec_ret_area_loc() -> ABIArgView {
    ABIArgView::Slots {
        slots: seq![
            ABIArgSlot::Reg {
                reg: RealReg::spec_new(0, RegClass::Int),
                ty: Type::I64,
                extension: ArgumentExtension::NoExt,
            },
        ],
        purpose: ArgumentPurpose::Normal,
    }
}

/// The locations of a list of parameters or return values, and the stack
/// space they take, rounded up to 16 bytes.
pub open spec fn spec_pulley_arg_locs(
    flags: Flags,
    params: Seq<AbiParam>,
    args_or_rets: ArgsOrRets,
    add_ret_area_ptr: bool,
) -> ArgLocs {
    let done = spec_assign_params(
        spec_assign_start(add_ret_area_ptr),
        flags,
        args_or_rets,
        params,
    );
    match done.error {
        Some(e) => ArgLocs { args: done.locs, result: Err(e) },
        None => {
            let locs = if add_ret_area_ptr {
                done.locs.push(spec_ret_area_loc())
            } else {
                done.locs
            };
            let space = spec_align_to(done.stack as int, 16);
            if space > u32::MAX {
                ArgLocs { args: locs, result: Err(CodegenError::ImplLimitExceeded) }
            } else {
                ArgLocs {
                    args: locs,
                    result: Ok(
                        (
                            space as u32,
                            if add_ret_area_ptr {
                                Some(params.len() as usize)
                            } else {
                                None
                            },
                        ),
                    ),
                }
            }
        },
    }
}

/// The registers that a call does not preserve: the integer registers x0
/// to x15, and every float and vector register.
pub open spec fn spec_pulley_clobbers() -> Set<int> {
    Set::new(|i: int| 0 <= i < 16 || 64 <= i < 96 || 128 <= i < 160)
}

fn align_to(n: u32, align: u32) -> (r: Option<u32>)
    requires
        align == 8 || align == 16,
    ensures
        match r {
            Some(a) => a == spec_align_to(n as int, align as int),
            None => spec_align_to(n as int, align as int) > u32::MAX,
        },
{
    let wide: u64 = (n as u64 + align as u64 - 1) / (align as u64) * (align as u64);
    if wide > u32::MAX as u64 {
        None
    } else {
        Some(wide as u32)
    }
}

fn type_class(ty: Type) -> (rc: RegClass)
    ensures
        rc == spec_type_class(ty),
{
    match ty {
        Type::F32 | Type::F64 => RegClass::Float,
        Type::V128 => RegClass::Vector,
        _ => RegClass::Int,
    }
}

/// The registers taken and the stack used while locations are assigned.
struct Taken {
    x: u8,
    f: u8,
    v: u8,
    stack: u32,
}

impl Taken {
    spec fn matches(&self, st: Assigned) -> bool {
        self.x == st.x && self.f == st.f && self.v == st.v && self.stack == st.stack
    }

    spec fn in_range(&self) -> bool {
        self.x <= 16 && self.f <= 16 && self.v <= 16
    }
}

fn choose_slot(
    taken: &mut Taken,
    flags: &Flags,
    args_or_rets: ArgsOrRets,
    ty: Type,
    extension: ArgumentExtension,
    Ghost(st): Ghost<Assigned>,
) -> (r: Result<ABIArgSlot, CodegenError>)
    requires
        old(taken).matches(st),
        old(taken).in_range(),
        st.error is None,
        !(ty is I128) && !(ty is V128) ==> ty.spec_bytes() <= 8,
        ty.spec_bytes() <= 16,
    ensures
        ({
            let choice = spec_choose_slot(st, *flags, args_or_rets, ty, extension);
            match r {
                Ok(slot) => {
                    &&& choice.after.error is None
                    &&& slot == choice.slot
                    &&& final(taken).matches(choice.after)
                    &&& final(taken).in_range()
                },
                Err(e) => choice.after.error == Some(e) && *final(taken) == *old(taken),
            }
        }),
{
    let rc = type_class(ty);
    let limit: u8 = if rc == RegClass::Int && args_or_rets == ArgsOrRets::Rets {
        15
    } else {
        16
    };
    let next = match rc {
        RegClass::Int => taken.x,
        RegClass::Float => taken.f,
        RegClass::Vector => taken.v,
    };
    if next < limit {
        match rc {
            RegClass::Int => {
                taken.x = taken.x + 1;
            },
            RegClass::Float => {
                taken.f = taken.f + 1;
            },
            RegClass::Vector => {
                taken.v = taken.v + 1;
            },
        }
        return Ok(ABIArgSlot::Reg { reg: RealReg::new(next, rc), ty, extension });
    }
    if args_or_rets == ArgsOrRets::Rets && !flags.enable_multi_ret_implicit_sret() {
        return Err(CodegenError::Unsupported);
    }
    let size: u32 = if ty.bytes() < 8 {
        8
    } else {
        ty.bytes()
    };
    let offset = match align_to(taken.stack, size) {
        Some(offset) => offset,
        None => {
            return Err(CodegenError::ImplLimitExceeded);
        },
    };
    match offset.checked_add(size) {
        Some(end) => {
            taken.stack = end;
            Ok(ABIArgSlot::Stack { offset: offset as i64, ty, extension })
        },
        None => Err(CodegenError::ImplLimitExceeded),
    }
}

impl ABIMachineSpec for PulleyMachineDeps {
    type I = PulleyInst;

    type F = PulleyFlags;

    open spec fn spec_stack_arg_ret_size_limit() -> u32 {
        0x800_0000
    }

    fn stack_arg_ret_size_limit() -> (n: u32) {
        0x800_0000
    }

    open spec fn spec_word_bits() -> u32 {
        64
    }

    fn word_bits() -> (b: u32) {
        64
    }

    open spec fn spec_word_reg_class() -> RegClass {
        RegClass::Int
    }

    fn word_reg_class() -> (rc: RegClass) {
        RegClass::Int
    }

    open spec fn spec_stack_align(call_conv: CallConv) -> u32 {
        16
    }

    fn stack_align(call_conv: CallConv) -> (a: u32) {
        assert(16u32 & 15u32 == 0) by (bit_vector);
        16
    }

    open spec fn arg_locs(
        call_conv: CallConv,
        flags: Flags,
        params: Seq<AbiParam>,
        args_or_rets: ArgsOrRets,
        add_ret_area_ptr: bool,
    ) -> ArgLocs {
        spec_pulley_arg_locs(flags, params, args_or_rets, add_ret_area_ptr)
    }

    fn compute_arg_locs(
        call_conv: CallConv,
        flags: &Flags,
        params: &Vec<AbiParam>,
        args_or_rets: ArgsOrRets,
        add_ret_area_ptr: bool,
        args: &mut ArgsAccumulator,
    ) -> (r: Result<(u32, Option<usize>), CodegenError>) {
        let ghost base = args.spec_all();
        let ghost start = spec_assign_start(add_ret_area_ptr);
        let mut taken = Taken {
            x: if add_ret_area_ptr {
                1
            } else {
                0
            },
            f: 0,
            v: 0,
            stack: 0,
        };
        let mut i: usize = 0;
        proof {
            assert(params@.take(0) =~= Seq::<AbiParam>::empty());
            assert(arg_views(args.spec_args()) =~= Seq::<ABIArgView>::empty());
        }
        while i < params.len()
            invariant
                i <= params@.len(),
                start == spec_assign_start(add_ret_area_ptr),
                base == old(args).spec_all(),
                args.wf(),
                args.spec_start() == old(args).spec_start(),
                args.spec_start() == base.len(),
                args.spec_all().len() == base.len() + i,
                args.spec_all().take(base.len() as int) == base,
                !args.spec_non_formal(),
                taken.in_range(),
                ({
                    let st = spec_assign_params(
                        start,
                        *flags,
                        args_or_rets,
                        params@.take(i as int),
                    );
                    &&& st.error is None
                    &&& taken.matches(st)
                    &&& arg_views(args.spec_args()) == st.locs
                }),
                forall|k: int|
                    0 <= k < args.spec_args().len() ==> (#[trigger] args.spec_args()[k])@.wf(),
            decreases params@.len() - i,
        {
            let param = params[i];
            let ghost st = spec_assign_params(start, *flags, args_or_rets, params@.take(i as int));
            let ghost before_args = args.spec_args();
            proof {
                assert(params@.take(i + 1).drop_last() =~= params@.take(i as int));
                assert(params@.take(i + 1).last() == param);
                if spec_assign_params(start, *flags, args_or_rets, params@.take(i + 1)).error is Some {
                    lemma_assign_params_prefix(start, *flags, args_or_rets, params@, i + 1);
                }
            }
            if let ArgumentPurpose::StructArgument(_) = param.purpose {
                return Err(CodegenError::Unsupported);
            }
            let mut slots = ABIArgSlotVec::new();
            match param.value_type {
                Type::I128 => {
                    let first = match choose_slot(
                        &mut taken,
                        flags,
                        args_or_rets,
                        Type::I64,
                        param.extension,
                        Ghost(st),
                    ) {
                        Ok(slot) => slot,
                        Err(e) => {
                            return Err(e);
                        },
                    };
                    let ghost mid = spec_choose_slot(
                        st,
                        *flags,
                        args_or_rets,
                        Type::I64,
                        param.extension,
                    ).after;
                    let second = match choose_slot(
                        &mut taken,
                        flags,
                        args_or_rets,
                        Type::I64,
                        param.extension,
                        Ghost(mid),
                    ) {
                        Ok(slot) => slot,
                        Err(e) => {
                            return Err(e);
                        },
                    };
                    slots.push(first);
                    slots.push(second);
                    proof {
                        assert(slots@ =~= seq![first, second]);
                    }
                },
                ty => {
                    let slot = match choose_slot(
                        &mut taken,
                        flags,
                        args_or_rets,
                        ty,
                        param.extension,
                        Ghost(st),
                    ) {
                        Ok(slot) => slot,
                        Err(e) => {
                            return Err(e);
                        },
                    };
                    slots.push(slot);
                    proof {
                        assert(slots@ =~= seq![slot]);
                    }
                },
            }
            args.push(ABIArg::Slots { slots, purpose: param.purpose });
            proof {
                let after = args.spec_args();
                assert(after =~= before_args.push(after.last()));
                assert(arg_views(after) =~= arg_views(before_args).push(after.last()@));
                assert forall|k: int| 0 <= k < after.len() implies (#[trigger] after[k])@.wf() by {
                    if k < before_args.len() {
                        assert(after[k] == before_args[k]);
                    }
                }
                assert(args.spec_all().take(base.len() as int) =~= base);
            }
            i += 1;
        }
        proof {
            assert(params@.take(params@.len() as int) =~= params@);
        }
        let pos = if add_ret_area_ptr {
            let ghost before_args = args.spec_args();
            args.push_non_formal(
                ABIArg::reg(
                    RealReg::new(0, RegClass::Int),
                    Type::I64,
                    ArgumentExtension::NoExt,
                    ArgumentPurpose::Normal,
                ),
            );
            proof {
                let after = args.spec_args();
                assert(after =~= before_args.push(after.last()));
                assert(arg_views(after) =~= arg_views(before_args).push(after.last()@));
                assert forall|k: int| 0 <= k < after.len() implies (#[trigger] after[k])@.wf() by {
                    if k < before_args.len() {
                        assert(after[k] == before_args[k]);
                    }
                }
                assert(args.spec_all().take(base.len() as int) =~= base);
            }
            Some(params.len())
        } else {
            None
        };
        match align_to(taken.stack, 16) {
            Some(space) => Ok((space, pos)),
            None => Err(CodegenError::ImplLimitExceeded),
        }
    }

    open spec fn load_stack_inst(mem: StackAMode, into_reg: Writable<Reg>, ty: Type) -> PulleyInst {
        PulleyInst::LoadStack { mem, into_reg, ty }
    }

    fn gen_load_stack(mem: StackAMode, into_reg: Writable<Reg>, ty: Type) -> (inst: PulleyInst) {
        PulleyInst::LoadStack { mem, into_reg, ty }
    }

    open spec fn store_stack_inst(mem: StackAMode, from_reg: Reg, ty: Type) -> PulleyInst {
        PulleyInst::StoreStack { mem, from_reg, ty }
    }

    fn gen_store_stack(mem: StackAMode, from_reg: Reg, ty: Type) -> (inst: PulleyInst) {
        PulleyInst::StoreStack { mem, from_reg, ty }
    }

    open spec fn move_inst(to_reg: Writable<Reg>, from_reg: Reg, ty: Type) -> PulleyInst {
        PulleyInst::Move { to_reg, from_reg, ty }
    }

    fn gen_move(to_reg: Writable<Reg>, from_reg: Reg, ty: Type) -> (inst: PulleyInst) {
        PulleyInst::Move { to_reg, from_reg, ty }
    }

    open spec fn extend_inst(
        to_reg: Writable<Reg>,
        from_reg: Reg,
        is_signed: bool,
        from_bits: u8,
        to_bits: u8,
    ) -> PulleyInst {
        PulleyInst::Extend { to_reg, from_reg, is_signed, from_bits, to_bits }
    }

    fn gen_extend(
        to_reg: Writable<Reg>,
        from_reg: Reg,
        is_signed: bool,
        from_bits: u8,
        to_bits: u8,
    ) -> (inst: PulleyInst) {
        PulleyInst::Extend { to_reg, from_reg, is_signed, from_bits, to_bits }
    }

    open spec fn args_inst(args: Seq<ArgPair>) -> PulleyInst {
        PulleyInst::Args(spec_arg_pairs(args))
    }

    fn gen_args(args: Vec<ArgPair>) -> (inst: PulleyInst) {
        PulleyInst::Args(ArgPairs::from_vec(&args))
    }

    open spec fn rets_inst(rets: Seq<RetPair>) -> PulleyInst {
        PulleyInst::Rets(spec_ret_pairs(rets))
    }

    fn gen_rets(rets: Vec<RetPair>) -> (inst: PulleyInst) {
        PulleyInst::Rets(RetPairs::from_vec(&rets))
    }

    open spec fn add_imm_insts(
        call_conv: CallConv,
        into_reg: Writable<Reg>,
        from_reg: Reg,
        imm: u32,
    ) -> Seq<PulleyInst> {
        seq![PulleyInst::AddImm { into_reg, from_reg, imm }]
    }

    fn gen_add_imm(call_conv: CallConv, into_reg: Writable<Reg>, from_reg: Reg, imm: u32) -> (insts:
        Vec<PulleyInst>) {
        vec![PulleyInst::AddImm { into_reg, from_reg, imm }]
    }

    open spec fn stack_lower_bound_trap_insts(limit_reg: Reg) -> Seq<PulleyInst> {
        seq![PulleyInst::StackLowerBoundTrap { limit_reg }]
    }

    fn gen_stack_lower_bound_trap(limit_reg: Reg) -> (insts: Vec<PulleyInst>) {
        vec![PulleyInst::StackLowerBoundTrap { limit_reg }]
    }

    open spec fn get_stack_addr_inst(mem: StackAMode, into_reg: Writable<Reg>) -> PulleyInst {
        PulleyInst::GetStackAddr { mem, into_reg }
    }

    fn gen_get_stack_addr(mem: StackAMode, into_reg: Writable<Reg>) -> (inst: PulleyInst) {
        PulleyInst::GetStackAddr { mem, into_reg }
    }

    open spec fn spec_stacklimit_reg(call_conv: CallConv) -> Reg {
        Reg::Real(RealReg::spec_new(31, RegClass::Int))
    }

    fn get_stacklimit_reg(call_conv: CallConv) -> (reg: Reg) {
        Reg::from_real(RealReg::new(31, RegClass::Int))
    }

    open spec fn load_base_offset_inst(
        into_reg: Writable<Reg>,
        base: Reg,
        offset: i32,
        ty: Type,
    ) -> PulleyInst {
        PulleyInst::LoadBaseOffset { into_reg, base, offset, ty }
    }

    fn gen_load_base_offset(into_reg: Writable<Reg>, base: Reg, offset: i32, ty: Type) -> (inst:
        PulleyInst) {
        PulleyInst::LoadBaseOffset { into_reg, base, offset, ty }
    }

    open spec fn store_base_offset_inst(
        base: Reg,
        offset: i32,
        from_reg: Reg,
        ty: Type,
    ) -> PulleyInst {
        PulleyInst::StoreBaseOffset { base, offset, from_reg, ty }
    }

    fn gen_store_base_offset(
        base: Reg,
        offset: i32,
        from_reg: Reg,
        ty: Type,
    ) -> (inst: PulleyInst) {
        PulleyInst::StoreBaseOffset { base, offset, from_reg, ty }
    }

    open spec fn sp_reg_adjust_insts(amount: i32) -> Seq<PulleyInst> {
        seq![PulleyInst::SpAdjust { amount }]
    }

    fn gen_sp_reg_adjust(amount: i32) -> (insts: Vec<PulleyInst>) {
        vec![PulleyInst::SpAdjust { amount }]
    }

    open spec fn frame_layout(
        call_conv: CallConv,
        flags: Flags,
        sig: &Signature,
        regs: Seq<Writable<RealReg>>,
        is_leaf: bool,
        incoming_args_size: u32,
        tail_args_size: u32,
        stackslots_size: u32,
        fixed_frame_storage_size: u32,
        outgoing_args_size: u32,
    ) -> FrameLayoutView {
        let saves = spec_callee_saves(regs);
        FrameLayoutView {
            word_bytes: 8,
            incoming_args_size,
            tail_args_size,
            setup_area_size: 16,
            clobber_size: spec_align_to(8 * (saves.len() as int), 16) as u32,
            fixed_frame_storage_size,
            stackslots_size,
            outgoing_args_size,
            clobbered_callee_saves: saves,
        }
    }

    fn compute_frame_layout(
        call_conv: CallConv,
        flags: &Flags,
        sig: &Signature,
        regs: &Vec<Writable<RealReg>>,
        is_leaf: bool,
        incoming_args_size: u32,
        tail_args_size: u32,
        stackslots_size: u32,
        fixed_frame_storage_size: u32,
        outgoing_args_size: u32,
    ) -> (layout: FrameLayout) {
        let mut saves: Vec<Writable<RealReg>> = Vec::new();
        let mut i: usize = 0;
        proof {
            assert(regs@.take(0) =~= Seq::<Writable<RealReg>>::empty());
        }
        while i < regs.len()
            invariant
                i <= regs@.len(),
                saves@ == spec_callee_saves(regs@.take(i as int)),
                saves@.len() <= 16,
            decreases regs@.len() - i,
        {
            let r = regs[i];
            proof {
                assert(regs@.take(i + 1).drop_last() =~= regs@.take(i as int));
                assert(regs@.take(i + 1).last() == r);
            }
            if is_callee_save(r.to_reg()) && saves.len() < 16 {
                saves.push(r);
            }
            i += 1;
        }
        proof {
            assert(regs@.take(regs@.len() as int) =~= regs@);
        }
        let clobber_size: u32 = (8 * (saves.len() as u32) + 15) / 16 * 16;
        FrameLayout {
            word_bytes: 8,
            incoming_args_size,
            tail_args_size,
            setup_area_size: 16,
            clobber_size,
            fixed_frame_storage_size,
            stackslots_size,
            outgoing_args_size,
            clobbered_callee_saves: saves,
        }
    }

    open spec fn prologue_frame_setup_insts(
        call_conv: CallConv,
        flags: Flags,
        isa_flags: &PulleyFlags,
        frame_layout: FrameLayoutView,
    ) -> Seq<PulleyInst> {
        seq![PulleyInst::PushFrame]
    }

    fn gen_prologue_frame_setup(
        call_conv: CallConv,
        flags: &Flags,
        isa_flags: &PulleyFlags,
        frame_layout: &FrameLayout,
    ) -> (insts: Vec<PulleyInst>) {
        vec![PulleyInst::PushFrame]
    }

    open spec fn epilogue_frame_restore_insts(
        call_conv: CallConv,
        flags: Flags,
        isa_flags: &PulleyFlags,
        frame_layout: FrameLayoutView,
    ) -> Seq<PulleyInst> {
        seq![PulleyInst::PopFrame]
    }

    fn gen_epilogue_frame_restore(
        call_conv: CallConv,
        flags: &Flags,
        isa_flags: &PulleyFlags,
        frame_layout: &FrameLayout,
    ) -> (insts: Vec<PulleyInst>) {
        vec![PulleyInst::PopFrame]
    }

    open spec fn return_insts(
        call_conv: CallConv,
        isa_flags: &PulleyFlags,
        frame_layout: FrameLayoutView,
    ) -> Seq<PulleyInst> {
        seq![PulleyInst::Ret]
    }

    fn gen_return(
        call_conv: CallConv,
        isa_flags: &PulleyFlags,
        frame_layout: &FrameLayout,
    ) -> (insts:
        Vec<PulleyInst>) {
        vec![PulleyInst::Ret]
    }

    open spec fn probestack_insts(frame_size: u32) -> Seq<PulleyInst> {
        seq![PulleyInst::Probestack { frame_size }]
    }

    fn gen_probestack(insts: &mut Vec<PulleyInst>, frame_size: u32) {
        insts.push(PulleyInst::Probestack { frame_size });
        proof {
            assert(insts@ =~= old(insts)@ + seq![PulleyInst::Probestack { frame_size }]);
        }
    }

    open spec fn inline_probestack_insts(
        call_conv: CallConv,
        frame_size: u32,
        guard_size: u32,
    ) -> Seq<
        PulleyInst,
    > {
        seq![PulleyInst::InlineProbestack { frame_size, guard_size }]
    }

    fn gen_inline_probestack(
        insts: &mut Vec<PulleyInst>,
        call_conv: CallConv,
        frame_size: u32,
        guard_size: u32,
    ) {
        insts.push(PulleyInst::InlineProbestack { frame_size, guard_size });
        proof {
            assert(insts@ =~= old(insts)@ + seq![
                PulleyInst::InlineProbestack { frame_size, guard_size },
            ]);
        }
    }

    open spec fn clobber_save_insts(
        call_conv: CallConv,
        flags: Flags,
        frame_layout: FrameLayoutView,
    ) -> Seq<
        PulleyInst,
    > {
        seq![
            PulleyInst::ClobberSave {
                count: frame_layout.clobbered_callee_saves.len() as u32,
                stack_size: spec_frame_stack(frame_layout),
            },
        ]
    }

    fn gen_clobber_save(call_conv: CallConv, flags: &Flags, frame_layout: &FrameLayout) -> (insts:
        Vec<PulleyInst>) {
        vec![
            PulleyInst::ClobberSave {
                count: frame_layout.clobbered_callee_saves.len() as u32,
                stack_size: frame_stack(frame_layout),
            },
        ]
    }

    open spec fn clobber_restore_insts(
        call_conv: CallConv,
        flags: Flags,
        frame_layout: FrameLayoutView,
    ) -> Seq<PulleyInst> {
        seq![
            PulleyInst::ClobberRestore {
                count: frame_layout.clobbered_callee_saves.len() as u32,
                stack_size: spec_frame_stack(frame_layout),
            },
        ]
    }

    fn gen_clobber_restore(
        call_conv: CallConv,
        flags: &Flags,
        frame_layout: &FrameLayout,
    ) -> (insts:
        Vec<PulleyInst>) {
        vec![
            PulleyInst::ClobberRestore {
                count: frame_layout.clobbered_callee_saves.len() as u32,
                stack_size: frame_stack(frame_layout),
            },
        ]
    }

    open spec fn memcpy_insts(
        call_conv: CallConv,
        dst: Reg,
        src: Reg,
        size: usize,
        vregs: AllocView,
    ) -> Seq<PulleyInst> {
        seq![PulleyInst::Memcpy { dst, src, size, tmp: vregs.tmp(Type::I64) }]
    }

    open spec fn memcpy_vregs(
        call_conv: CallConv,
        dst: Reg,
        src: Reg,
        size: usize,
        vregs: AllocView,
    ) -> AllocView {
        vregs.step(Type::I64)
    }

    fn gen_memcpy(
        call_conv: CallConv,
        dst: Reg,
        src: Reg,
        size: usize,
        vregs: &mut VRegAllocator,
    ) -> (insts:
        Vec<PulleyInst>) {
        let tmp = vregs.alloc_tmp(Type::I64);
        vec![PulleyInst::Memcpy { dst, src, size, tmp }]
    }

    open spec fn spec_number_of_spillslots_for_value(
        rc: RegClass,
        target_vector_bytes: u32,
        isa_flags: &PulleyFlags,
    ) -> u32 {
        match rc {
            RegClass::Int => 1,
            RegClass::Float => 1,
            RegClass::Vector => 2,
        }
    }

    fn get_number_of_spillslots_for_value(
        rc: RegClass,
        target_vector_bytes: u32,
        isa_flags: &PulleyFlags,
    ) -> (n: u32) {
        match rc {
            RegClass::Int => 1,
            RegClass::Float => 1,
            RegClass::Vector => 2,
        }
    }

    open spec fn regs_clobbered_by_call(call_conv_of_callee: CallConv, is_exception: bool) -> Set<
        int,
    > {
        spec_pulley_clobbers()
    }

    fn get_regs_clobbered_by_call(call_conv_of_callee: CallConv, is_exception: bool) -> (set:
        PRegSet) {
        let mut set = preg_set_empty();
        let mut i: u8 = 0;
        while i < 160
            invariant
                i <= 160,
                preg_set_members(set) =~= Set::new(
                    |k: int| 0 <= k < i && (0 <= k < 16 || 64 <= k < 96 || 128 <= k < 160),
                ),
            decreases 160 - i,
        {
            if i < 16 || (64 <= i && i < 96) || 128 <= i {
                preg_set_add(&mut set, i);
            }
            i += 1;
        }
        proof {
            assert(preg_set_members(set) =~= spec_pulley_clobbers());
        }
        set
    }

    open spec fn spec_ext_mode(
        call_conv: CallConv,
        specified: ArgumentExtension,
    ) -> ArgumentExtension {
        specified
    }

    fn get_ext_mode(call_conv: CallConv, specified: ArgumentExtension) -> (ext: ArgumentExtension) {
        specified
    }

    open spec fn spec_retval_temp_reg(call_conv_of_callee: CallConv) -> Writable<Reg> {
        Writable { reg: Reg::Real(RealReg::spec_new(15, RegClass::Int)) }
    }

    fn retval_temp_reg(call_conv_of_callee: CallConv) -> (reg: Writable<Reg>) {
        Writable::from_reg(Reg::from_real(RealReg::new(15, RegClass::Int)))
    }

    open spec fn spec_exception_payload_regs(call_conv: CallConv) -> Seq<Reg> {
        seq![
            Reg::Real(RealReg::spec_new(0, RegClass::Int)),
            Reg::Real(RealReg::spec_new(1, RegClass::Int)),
        ]
    }

    fn exception_payload_regs(call_conv: CallConv) -> (regs: Vec<Reg>) {
        vec![
            Reg::from_real(RealReg::new(0, RegClass::Int)),
            Reg::from_real(RealReg::new(1, RegClass::Int)),
        ]
    }

    open spec fn spec_canonical_type_for_rc(rc: RegClass) -> Type {
        match rc {
            RegClass::Int => Type::I64,
            RegClass::Float => Type::F64,
            RegClass::Vector => Type::V128,
        }
    }

    fn canonical_type_for_rc(rc: RegClass) -> (ty: Type) {
        match rc {
            RegClass::Int => Type::I64,
            RegClass::Float => Type::F64,
            RegClass::Vector => Type::V128,
        }
    }

    open spec fn spec_dynamic_vector_bytes(ty: Type) -> u32 {
        16
    }

    fn dynamic_vector_bytes(ty: Type) -> (n: u32) {
        16
    }

    fn clone_inst(inst: &PulleyInst) -> (copy: PulleyInst) {
        match inst {
            PulleyInst::LoadStack { mem, into_reg, ty } => PulleyInst::LoadStack {
                mem: *mem,
                into_reg: *into_reg,
                ty: *ty,
            },
            PulleyInst::StoreStack { mem, from_reg, ty } => PulleyInst::StoreStack {
                mem: *mem,
                from_reg: *from_reg,
                ty: *ty,
            },
            PulleyInst::Move { to_reg, from_reg, ty } => PulleyInst::Move {
                to_reg: *to_reg,
                from_reg: *from_reg,
                ty: *ty,
            },
            PulleyInst::Extend { to_reg, from_reg, is_signed, from_bits, to_bits } => PulleyInst::Extend {
                to_reg: *to_reg,
                from_reg: *from_reg,
                is_signed: *is_signed,
                from_bits: *from_bits,
                to_bits: *to_bits,
            },
            PulleyInst::Args(pairs) => PulleyInst::Args(pairs.clone()),
            PulleyInst::Rets(pairs) => PulleyInst::Rets(pairs.clone()),
            PulleyInst::AddImm { into_reg, from_reg, imm } => PulleyInst::AddImm {
                into_reg: *into_reg,
                from_reg: *from_reg,
                imm: *imm,
            },
            PulleyInst::StackLowerBoundTrap { limit_reg } => PulleyInst::StackLowerBoundTrap {
                limit_reg: *limit_reg,
            },
            PulleyInst::GetStackAddr { mem, into_reg } => PulleyInst::GetStackAddr {
                mem: *mem,
                into_reg: *into_reg,
            },
            PulleyInst::LoadBaseOffset { into_reg, base, offset, ty } => PulleyInst::LoadBaseOffset {
                into_reg: *into_reg,
                base: *base,
                offset: *offset,
                ty: *ty,
            },
            PulleyInst::StoreBaseOffset { base, offset, from_reg, ty } => PulleyInst::StoreBaseOffset {
                base: *base,
                offset: *offset,
                from_reg: *from_reg,
                ty: *ty,
            },
            PulleyInst::SpAdjust { amount } => PulleyInst::SpAdjust { amount: *amount },
            PulleyInst::PushFrame => PulleyInst::PushFrame,
            PulleyInst::PopFrame => PulleyInst::PopFrame,
            PulleyInst::Ret => PulleyInst::Ret,
            PulleyInst::Probestack { frame_size } => PulleyInst::Probestack {
                frame_size: *frame_size,
            },
            PulleyInst::InlineProbestack { frame_size, guard_size } => PulleyInst::InlineProbestack {
                frame_size: *frame_size,
                guard_size: *guard_size,
            },
            PulleyInst::ClobberSave { count, stack_size } => PulleyInst::ClobberSave {
                count: *count,
                stack_size: *stack_size,
            },
            PulleyInst::ClobberRestore { count, stack_size } => PulleyInst::ClobberRestore {
                count: *count,
                stack_size: *stack_size,
            },
            PulleyInst::Memcpy { dst, src, size, tmp } => PulleyInst::Memcpy {
                dst: *dst,
                src: *src,
                size: *size,
                tmp: *tmp,
            },
        }
    }

    open spec fn spec_worst_case_size() -> u32 {
        10
    }

    fn worst_case_size() -> (n: u32) {
        10
    }
}

/// Is the register preserved across calls? The integer registers x16 to
/// x31 are.
pub open spec fn spec_is_callee_save(reg: RealReg) -> bool {
    reg.spec_class() == RegClass::Int && reg.spec_hw_enc() >= 16
}

fn is_callee_save(reg: RealReg) -> (b: bool)
    ensures
        b == spec_is_callee_save(reg),
{
    reg.class() == RegClass::Int && reg.hw_enc() >= 16
}

/// The registers among `regs` that are preserved across calls, in the
/// order of `regs`: at most 16.
pub open spec fn spec_callee_saves(regs: Seq<Writable<RealReg>>) -> Seq<Writable<RealReg>>
    decreases regs.len(),
{
    if regs.len() == 0 {
        Seq::empty()
    } else {
        let before = spec_callee_saves(regs.drop_last());
        if spec_is_callee_save(regs.last().reg) && before.len() < 16 {
            before.push(regs.last())
        } else {
            before
        }
    }
}

/// The stack that the body of a function uses: the saved registers, the
/// fixed storage and the outgoing arguments, as far as 32 bits count it.
pub open spec fn spec_frame_stack(layout: FrameLayoutView) -> u32 {
    if layout.clobber_size + layout.fixed_frame_storage_size + layout.outgoing_args_size
        <= u32::MAX {
        (layout.clobber_size + layout.fixed_frame_storage_size + layout.outgoing_args_size) as u32
    } else {
        u32::MAX
    }
}

fn frame_stack(layout: &FrameLayout) -> (n: u32)
    ensures
        n == spec_frame_stack(layout@),
{
    let wide: u64 = layout.clobber_size as u64 + layout.fixed_frame_storage_size as u64
        + layout.outgoing_args_size as u64;
    if wide <= u32::MAX as u64 {
        wide as u32
    } else {
        u32::MAX
    }
}

} // verus!
