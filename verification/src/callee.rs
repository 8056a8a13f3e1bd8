//! The calling-convention state of one function while it is compiled.

use crate::abi::{
    spec_word_type, ABIArg, ABIArgSlot, ABIArgView, ABIMachineSpec, ArgPair, RetPair, StackAMode,
};
use crate::abi::IsaFlags;
use crate::ir::ArgumentExtension;
use crate::abi::{is_power_of_two, CallArgPair, CallInfo, CallRetPair, RetLocation, TryCallInfo};
use crate::frame::lemma_round_up;
use crate::ir::ProbestackStrategy;
use crate::pregset::{preg_set_members, preg_set_remove};
use crate::reg::{RealReg, RegClass, SpillSlot};
use crate::lists::{CallArgList, CallRetList, RetPairList};
use crate::reg::{AllocView, VRegAllocator, ValueRegs};
use crate::frame::{spec_round_up, FrameLayout};
use crate::ir::{
    last_with_purpose, ArgumentPurpose, CallConv, CodegenError, DynamicStackSlotData, Flags,
    Function, GlobalValueData, Signature, StackSlotData, Type,
};
use crate::reg::{Reg, Writable};
use crate::sigset::{spec_lowered_returns, Sig, SigSet};
use vstd::prelude::*;

verus! {

/// `val` rounded up to a multiple of `mask + 1`, unless that overflows.
pub open spec fn spec_checked_round_up(val: u32, mask: u32) -> Option<u32> {
    if val + mask > u32::MAX {
        None
    } else {
        Some(spec_round_up(val, mask))
    }
}

/// Rounds `val` up to a multiple of `mask + 1`; nothing where that
/// overflows.
pub fn checked_round_up(val: u32, mask: u32) -> (r: Option<u32>)
    ensures
        r == spec_checked_round_up(val, mask),
{
    match val.checked_add(mask) {
        Some(sum) => Some(sum & !mask),
        None => None,
    }
}

/// Where the stack slots of a function lie.
pub ghost struct SlotOffsets {
    /// The offset of each slot.
    pub offsets: Seq<u32>,
    /// The end of the last slot.
    pub end: u32,
}

/// The alignment of a stack slot of fixed size: its own, and at least a
/// machine word.
pub open spec fn spec_slot_align(word_bytes: u32, align_shift: u8) -> u32 {
    if word_bytes >= 1u32 << align_shift {
        word_bytes
    } else {
        1u32 << align_shift
    }
}

/// Places the stack slots of fixed size one after the other, each at its
/// alignment. Fails where an offset leaves 32 bits.
pub open spec fn spec_place_sized(slots: Seq<StackSlotData>, word_bytes: u32) -> Option<SlotOffsets>
    decreases slots.len(),
{
    if slots.len() == 0 {
        Some(SlotOffsets { offsets: Seq::empty(), end: 0 })
    } else {
        match spec_place_sized(slots.drop_last(), word_bytes) {
            None => None,
            Some(before) => {
                let align = spec_slot_align(word_bytes, slots.last().align_shift);
                match spec_checked_round_up(before.end, (align - 1) as u32) {
                    None => None,
                    Some(start) => if start + slots.last().size > u32::MAX {
                        None
                    } else {
                        Some(
                            SlotOffsets {
                                offsets: before.offsets.push(start),
                                end: (start + slots.last().size) as u32,
                            },
                        )
                    },
                }
            },
        }
    }
}

/// Places the dynamic stack slots behind `first_end`, each at the
/// alignment of a machine word. Fails with `ImplLimitExceeded` where an
/// offset leaves 32 bits and with `Unsupported` where a slot's type has
/// no concrete type.
pub open spec fn spec_place_dynamic<M: ABIMachineSpec>(
    slots: Seq<DynamicStackSlotData>,
    types: Seq<Option<Type>>,
    first_end: u32,
) -> Result<SlotOffsets, CodegenError>
    decreases slots.len(),
{
    if slots.len() == 0 {
        Ok(SlotOffsets { offsets: Seq::empty(), end: first_end })
    } else {
        match spec_place_dynamic::<M>(slots.drop_last(), types, first_end) {
            Err(e) => Err(e),
            Ok(before) => match spec_checked_round_up(
                before.end,
                (M::spec_word_bits() / 8 - 1) as u32,
            ) {
                None => Err(CodegenError::ImplLimitExceeded),
                Some(start) => match types[slots.last().dyn_ty as int] {
                    None => Err(CodegenError::Unsupported),
                    Some(ty) => if start + M::spec_dynamic_vector_bytes(ty) > u32::MAX {
                        Err(CodegenError::ImplLimitExceeded)
                    } else {
                        Ok(
                            SlotOffsets {
                                offsets: before.offsets.push(start),
                                end: (start + M::spec_dynamic_vector_bytes(ty)) as u32,
                            },
                        )
                    },
                },
            },
        }
    }
}

/// Where every dynamic slot is placed, every slot's type is concrete.
pub proof fn lemma_place_dynamic_concrete<M: ABIMachineSpec>(
    slots: Seq<DynamicStackSlotData>,
    types: Seq<Option<Type>>,
    first_end: u32,
)
    requires
        spec_place_dynamic::<M>(slots, types, first_end) is Ok,
    ensures
        spec_place_dynamic::<M>(slots, types, first_end)->Ok_0.offsets.len() == slots.len(),
        forall|j: int| 0 <= j < slots.len() ==> types[(#[trigger] slots[j]).dyn_ty as int] is Some,
    decreases slots.len(),
{
    if slots.len() > 0 {
        lemma_place_dynamic_concrete::<M>(slots.drop_last(), types, first_end);
        assert forall|j: int| 0 <= j < slots.len() implies types[(#[trigger] slots[j]).dyn_ty as int] is Some by {
            if j < slots.len() - 1 {
                assert(slots.drop_last()[j] == slots[j]);
            }
        }
    }
}

/// The layout of all stack slots of a function.
pub ghost struct StackSlots {
    pub sized: Seq<u32>,
    pub dynamic: Seq<u32>,
    /// The size of the whole area, a multiple of the word size.
    pub size: u32,
}

/// Places the slots of fixed size, then the dynamic ones, and rounds the
/// end up to a machine word.
pub open spec fn spec_stack_slots<M: ABIMachineSpec>(f: &Function) -> Result<StackSlots, CodegenError> {
    let word_bytes = (M::spec_word_bits() / 8) as u32;
    match spec_place_sized(f.sized_stack_slots@, word_bytes) {
        None => Err(CodegenError::ImplLimitExceeded),
        Some(sized) => match spec_place_dynamic::<M>(
            f.dynamic_stack_slots@,
            f.dynamic_types@,
            sized.end,
        ) {
            Err(e) => Err(e),
            Ok(dynamic) => match spec_checked_round_up(dynamic.end, (word_bytes - 1) as u32) {
                None => Err(CodegenError::ImplLimitExceeded),
                Some(size) => Ok(
                    StackSlots { sized: sized.offsets, dynamic: dynamic.offsets, size },
                ),
            },
        },
    }
}

/// Each dynamic type with its size on the machine.
pub open spec fn spec_type_sizes<M: ABIMachineSpec>(types: Seq<Option<Type>>) -> Seq<(Type, u32)> {
    types.map_values(|t: Option<Type>| (t->Some_0, M::spec_dynamic_vector_bytes(t->Some_0)))
}

/// The greatest size among the entries, or 0 where there is none.
pub open spec fn spec_max_size(entries: Seq<(Type, u32)>) -> u32
    decreases entries.len(),
{
    if entries.len() == 0 {
        0
    } else {
        let before = spec_max_size(entries.drop_last());
        if entries.last().1 >= before {
            entries.last().1
        } else {
            before
        }
    }
}

/// Is the signature without the returned pointer that its parameter for a
/// returned structure calls for?
pub open spec fn spec_missing_struct_return(sig: &Signature) -> bool {
    last_with_purpose(sig.params@, ArgumentPurpose::StructReturn) is Some && last_with_purpose(
        sig.returns@,
        ArgumentPurpose::StructReturn,
    ) is None
}

/// Is the signature without the returned pointer that its parameter for a
/// returned structure calls for?
pub fn missing_struct_return(sig: &Signature) -> (b: bool)
    ensures
        b == spec_missing_struct_return(sig),
{
    sig.uses_special_param(ArgumentPurpose::StructReturn) && !sig.uses_special_return(
        ArgumentPurpose::StructReturn,
    )
}

/// The signature with the pointer to a returned structure among its
/// return values, as locations are assigned to it.
pub fn ensure_struct_return_ptr_is_returned(sig: &Signature) -> (r: Signature)
    requires
        last_with_purpose(sig.returns@, ArgumentPurpose::StructReturn) is None,
        last_with_purpose(sig.params@, ArgumentPurpose::StructReturn) is Some ==> sig.returns@.len()
            == 0,
    ensures
        r.params@ == sig.params@,
        r.returns@ == spec_lowered_returns(sig),
        r.call_conv == sig.call_conv,
        !spec_missing_struct_return(&r),
{
    let mut r = sig.clone();
    proof {
        crate::ir::lemma_last_with_purpose(sig.params@, ArgumentPurpose::StructReturn);
    }
    if let Some(struct_ret_index) = r.special_param_index(ArgumentPurpose::StructReturn) {
        let p = r.params[struct_ret_index];
        r.returns.insert(0, p);
        proof {
            assert(r.returns@ =~= seq![p]);
            assert(r.returns@.drop_last() =~= Seq::<crate::ir::AbiParam>::empty());
        }
    }
    r
}

/// The register in which the parameter with the given purpose arrives,
/// if there is such a parameter and it arrives in a register.
pub open spec fn spec_special_purpose_param_register(
    signature: &Signature,
    sigs: &SigSet,
    sig: Sig,
    purpose: ArgumentPurpose,
) -> Option<Reg> {
    match last_with_purpose(signature.params@, purpose) {
        None => None,
        Some(idx) => match sigs.spec_args(sig)[idx]@ {
            ABIArgView::Slots { slots, .. } => match slots[0] {
                ABIArgSlot::Reg { reg, .. } => Some(Reg::Real(reg)),
                _ => None,
            },
            _ => None,
        },
    }
}

/// The register in which the parameter with the given purpose arrives,
/// if there is such a parameter and it arrives in a register.
pub fn get_special_purpose_param_register(
    signature: &Signature,
    sigs: &SigSet,
    sig: Sig,
    purpose: ArgumentPurpose,
) -> (r: Option<Reg>)
    requires
        sigs.wf(),
        sigs.has(sig),
        sigs.spec_num_args(sig) == signature.params@.len(),
    ensures
        r == spec_special_purpose_param_register(signature, sigs, sig, purpose),
{
    proof {
        crate::ir::lemma_last_with_purpose(signature.params@, purpose);
    }
    let idx = match signature.special_param_index(purpose) {
        Some(idx) => idx,
        None => {
            return None;
        },
    };
    let args = sigs.args(sig);
    proof {
        let data = sigs.spec_sigs()[sig.0 as int];
        assert(sigs.entry_wf(sig.0 as int));
        assert(args@[idx as int] == sigs.spec_abi_args()[data.rets_end + idx]);
    }
    match &args[idx] {
        ABIArg::Slots { slots, .. } => match slots.get(0) {
            ABIArgSlot::Reg { reg, .. } => Some(Reg::from_real(reg)),
            _ => None,
        },
        _ => None,
    }
}

/// The register that holds global value `gv` and the instructions that
/// compute it, if it is the VM context, which arrives in a register, or
/// is reached from it by at most `fuel` loads.
pub open spec fn spec_gv<M: ABIMachineSpec>(
    f: &Function,
    vmctx: Option<Reg>,
    gv: usize,
    fuel: nat,
) -> Option<(Reg, Seq<M::I>)>
    decreases fuel,
{
    if fuel == 0 || gv >= f.global_values@.len() {
        None
    } else {
        match f.global_values@[gv as int] {
            GlobalValueData::VMContext => match vmctx {
                Some(reg) => Some((reg, Seq::empty())),
                None => None,
            },
            GlobalValueData::Load { base, offset } => match spec_gv::<M>(
                f,
                vmctx,
                base,
                (fuel - 1) as nat,
            ) {
                Some((base_reg, insts)) => {
                    let into_reg = Writable { reg: M::spec_stacklimit_reg(f.signature.call_conv) };
                    Some(
                        (
                            into_reg.reg,
                            insts.push(
                                M::load_base_offset_inst(
                                    into_reg,
                                    base_reg,
                                    offset,
                                    crate::abi::spec_word_type(M::spec_word_bits()),
                                ),
                            ),
                        ),
                    )
                },
                None => None,
            },
            GlobalValueData::Other => None,
        }
    }
}

/// Appends to `insts` the instructions that bring global value `gv` into a
/// register, and returns that register.
pub fn generate_gv<M: ABIMachineSpec>(
    f: &Function,
    sigs: &SigSet,
    sig: Sig,
    gv: usize,
    insts: &mut Vec<M::I>,
    fuel: usize,
) -> (reg: Reg)
    requires
        sigs.wf(),
        sigs.has(sig),
        sigs.spec_num_args(sig) == f.signature.params@.len(),
        spec_gv::<M>(
            f,
            spec_special_purpose_param_register(
                &f.signature,
                sigs,
                sig,
                ArgumentPurpose::VMContext,
            ),
            gv,
            fuel as nat,
        ) is Some,
    ensures
        ({
            let r = spec_gv::<M>(
                f,
                spec_special_purpose_param_register(
                    &f.signature,
                    sigs,
                    sig,
                    ArgumentPurpose::VMContext,
                ),
                gv,
                fuel as nat,
            )->Some_0;
            reg == r.0 && final(insts)@ == old(insts)@ + r.1
        }),
    decreases fuel,
{
    match f.global_values[gv] {
        GlobalValueData::VMContext => {
            let r = get_special_purpose_param_register(
                &f.signature,
                sigs,
                sig,
                ArgumentPurpose::VMContext,
            );
            proof {
                assert(insts@ + Seq::<M::I>::empty() =~= insts@);
            }
            match r {
                Some(reg) => reg,
                None => vstd::pervasive::unreached(),
            }
        },
        GlobalValueData::Load { base, offset } => {
            let ghost before = insts@;
            let base_reg = generate_gv::<M>(f, sigs, sig, base, insts, fuel - 1);
            let into_reg = Writable::from_reg(M::get_stacklimit_reg(f.signature.call_conv));
            let ghost mid = insts@;
            insts.push(M::gen_load_base_offset(into_reg, base_reg, offset, M::word_type()));
            proof {
                let inner = spec_gv::<M>(
                    f,
                    spec_special_purpose_param_register(
                        &f.signature,
                        sigs,
                        sig,
                        ArgumentPurpose::VMContext,
                    ),
                    base,
                    (fuel - 1) as nat,
                )->Some_0;
                assert(insts@ =~= before + inner.1.push(insts@.last()));
            }
            into_reg.to_reg()
        },
        GlobalValueData::Other => vstd::pervasive::unreached(),
    }
}

/// The register that holds the stack limit of `f`, kept in global value
/// `gv`, and the instructions that compute it.
pub fn gen_stack_limit<M: ABIMachineSpec>(f: &Function, sigs: &SigSet, sig: Sig, gv: usize) -> (r: (
    Reg,
    Vec<M::I>,
))
    requires
        sigs.wf(),
        sigs.has(sig),
        sigs.spec_num_args(sig) == f.signature.params@.len(),
        spec_gv::<M>(
            f,
            spec_special_purpose_param_register(
                &f.signature,
                sigs,
                sig,
                ArgumentPurpose::VMContext,
            ),
            gv,
            f.global_values@.len(),
        ) is Some,
    ensures
        Some((r.0, r.1@)) == spec_gv::<M>(
            f,
            spec_special_purpose_param_register(
                &f.signature,
                sigs,
                sig,
                ArgumentPurpose::VMContext,
            ),
            gv,
            f.global_values@.len(),
        ),
{
    let mut insts: Vec<M::I> = Vec::new();
    let reg = generate_gv::<M>(f, sigs, sig, gv, &mut insts, f.global_values.len());
    proof {
        let r = spec_gv::<M>(
            f,
            spec_special_purpose_param_register(
                &f.signature,
                sigs,
                sig,
                ArgumentPurpose::VMContext,
            ),
            gv,
            f.global_values@.len(),
        )->Some_0;
        assert(Seq::<M::I>::empty() + r.1 =~= r.1);
    }
    (reg, insts)
}

/// The calling-convention state of one function.
///
/// The frame layout is absent until register allocation is done; it is
/// then computed once. The sizes of the two argument areas only grow:
/// each holds the most that any call so far has asked for.
pub struct Callee<M: ABIMachineSpec> {
    /// The signature, with the pointer to a returned structure among the
    /// return values.
    pub ir_sig: Signature,
    /// The identifier of the signature.
    pub sig: Sig,
    /// The dynamic types with their sizes.
    pub dynamic_type_sizes: Vec<(Type, u32)>,
    /// The offset of each dynamic stack slot.
    pub dynamic_stackslots: Vec<u32>,
    /// The offset of each stack slot of fixed size.
    pub sized_stackslots: Vec<u32>,
    /// The size of all stack slots.
    pub stackslots_size: u32,
    /// The stack space for the arguments of calls.
    pub outgoing_args_size: u32,
    /// The size of the incoming argument area, which tail calls may grow.
    pub tail_args_size: u32,
    /// The incoming register arguments bound so far.
    pub reg_args: Vec<ArgPair>,
    /// The frame layout, once it is computed.
    pub frame_layout: Option<FrameLayout>,
    /// The register that holds the pointer to the return area.
    pub ret_area_ptr: Option<Reg>,
    /// The calling convention of the function.
    pub call_conv: CallConv,
    /// The settings of the compilation.
    pub flags: Flags,
    /// The flags of the instruction set.
    pub isa_flags: M::F,
    /// Does the function call no other function?
    pub is_leaf: bool,
    /// The register that holds the stack limit and the instructions that
    /// compute it, if the function checks one.
    pub stack_limit: Option<(Reg, Vec<M::I>)>,
}

/// The functions for which a `Callee` can be made without a fatal error.
pub open spec fn spec_can_make_callee<M: ABIMachineSpec>(f: &Function, sigs: &SigSet) -> bool {
    &&& sigs.wf()
    &&& sigs.spec_position(&f.signature) is Some
    &&& last_with_purpose(f.signature.returns@, ArgumentPurpose::StructReturn) is None
    &&& last_with_purpose(f.signature.params@, ArgumentPurpose::StructReturn) is Some
        ==> f.signature.returns@.len() == 0
    &&& forall|i: int|
        0 <= i < f.sized_stack_slots@.len() ==> (#[trigger] f.sized_stack_slots@[i]).align_shift < 32
    &&& forall|j: int|
        0 <= j < f.dynamic_stack_slots@.len() ==> (#[trigger] f.dynamic_stack_slots@[j]).dyn_ty
            < f.dynamic_types@.len()
    &&& forall|t: int|
        0 <= t < f.dynamic_types@.len() && (#[trigger] f.dynamic_types@[t]) is None
            ==> spec_type_in_use(f.dynamic_stack_slots@, t, f.dynamic_stack_slots@.len() as int)
    &&& spec_stack_slots::<M>(f) is Ok ==> match f.stack_limit {
        Some(gv) => spec_gv::<M>(
            f,
            spec_special_purpose_param_register(
                &f.signature,
                sigs,
                sigs.spec_sig_for(&f.signature),
                ArgumentPurpose::VMContext,
            ),
            gv,
            f.global_values@.len(),
        ) is Some,
        None => true,
    }
}

/// Tests whether global value `gv` is the VM context, which arrives in
/// `vmctx`, or is reached from it by at most `fuel` loads.
pub fn gv_reachable<M: ABIMachineSpec>(f: &Function, vmctx: Option<Reg>, gv: usize, fuel: usize) -> (b:
    bool)
    ensures
        b == (spec_gv::<M>(f, vmctx, gv, fuel as nat) is Some),
    decreases fuel,
{
    if fuel == 0 || gv >= f.global_values.len() {
        return false;
    }
    match f.global_values[gv] {
        GlobalValueData::VMContext => vmctx.is_some(),
        GlobalValueData::Load { base, .. } => gv_reachable::<M>(f, vmctx, base, fuel - 1),
        GlobalValueData::Other => false,
    }
}

/// Is some dynamic stack slot among the first `n` of type `t`?
pub open spec fn spec_type_in_use(slots: Seq<DynamicStackSlotData>, t: int, n: int) -> bool {
    exists|j: int| 0 <= j < n && (#[trigger] slots[j]).dyn_ty == t
}

fn type_in_use(slots: &Vec<DynamicStackSlotData>, t: usize) -> (b: bool)
    ensures
        b == spec_type_in_use(slots@, t as int, slots@.len() as int),
{
    let mut j: usize = 0;
    while j < slots.len()
        invariant
            j <= slots@.len(),
            !spec_type_in_use(slots@, t as int, j as int),
        decreases slots@.len() - j,
    {
        if slots[j].dyn_ty == t {
            return true;
        }
        j += 1;
    }
    false
}

/// Tests `spec_can_make_callee`: can a `Callee` be made for `f` without a
/// fatal error?
pub fn can_make_callee<M: ABIMachineSpec>(f: &Function, sigs: &SigSet) -> (b: bool)
    requires
        sigs.wf(),
    ensures
        b == spec_can_make_callee::<M>(f, sigs),
{
    if !sigs.have_abi_sig_for_signature(&f.signature) {
        return false;
    }
    if f.signature.uses_special_return(ArgumentPurpose::StructReturn) {
        return false;
    }
    if f.signature.uses_special_param(ArgumentPurpose::StructReturn) && f.signature.returns.len()
        != 0 {
        return false;
    }
    let mut i: usize = 0;
    while i < f.sized_stack_slots.len()
        invariant
            i <= f.sized_stack_slots@.len(),
            forall|k: int| 0 <= k < i ==> (#[trigger] f.sized_stack_slots@[k]).align_shift < 32,
        decreases f.sized_stack_slots@.len() - i,
    {
        if f.sized_stack_slots[i].align_shift >= 32 {
            return false;
        }
        i += 1;
    }
    let mut j: usize = 0;
    while j < f.dynamic_stack_slots.len()
        invariant
            j <= f.dynamic_stack_slots@.len(),
            forall|k: int|
                0 <= k < j ==> (#[trigger] f.dynamic_stack_slots@[k]).dyn_ty < f.dynamic_types@.len(),
        decreases f.dynamic_stack_slots@.len() - j,
    {
        if f.dynamic_stack_slots[j].dyn_ty >= f.dynamic_types.len() {
            return false;
        }
        j += 1;
    }
    let mut t: usize = 0;
    while t < f.dynamic_types.len()
        invariant
            t <= f.dynamic_types@.len(),
            forall|u: int|
                0 <= u < t && (#[trigger] f.dynamic_types@[u]) is None ==> spec_type_in_use(
                    f.dynamic_stack_slots@,
                    u,
                    f.dynamic_stack_slots@.len() as int,
                ),
        decreases f.dynamic_types@.len() - t,
    {
        if f.dynamic_types[t].is_none() && !type_in_use(&f.dynamic_stack_slots, t) {
            return false;
        }
        t += 1;
    }
    let gv = match f.stack_limit {
        Some(gv) => gv,
        None => {
            return true;
        },
    };
    let end_offset = match place_sized::<M>(&f.sized_stack_slots) {
        Some((_, end)) => end,
        None => {
            return true;
        },
    };
    let end_offset = match place_dynamic::<M>(&f.dynamic_stack_slots, &f.dynamic_types, end_offset) {
        Ok((_, end)) => end,
        Err(_) => {
            return true;
        },
    };
    if checked_round_up(end_offset, M::word_bytes() - 1).is_none() {
        return true;
    }
    let sig = sigs.abi_sig_for_signature(&f.signature);
    let vmctx = get_special_purpose_param_register(
        &f.signature,
        sigs,
        sig,
        ArgumentPurpose::VMContext,
    );
    gv_reachable::<M>(f, vmctx, gv, f.global_values.len())
}

fn place_sized<M: ABIMachineSpec>(slots: &Vec<StackSlotData>) -> (r: Option<(Vec<u32>, u32)>)
    requires
        forall|i: int| 0 <= i < slots@.len() ==> (#[trigger] slots@[i]).align_shift < 32,
    ensures
        match r {
            Some((offsets, end)) => spec_place_sized(slots@, (M::spec_word_bits() / 8) as u32) == Some(
                SlotOffsets { offsets: offsets@, end },
            ),
            None => spec_place_sized(slots@, (M::spec_word_bits() / 8) as u32) is None,
        },
{
    let word_bytes = M::word_bytes();
    let mut end_offset: u32 = 0;
    let mut offsets: Vec<u32> = Vec::new();
    let mut i: usize = 0;
    proof {
        assert(slots@.take(0) =~= Seq::<StackSlotData>::empty());
    }
    while i < slots.len()
        invariant
            i <= slots@.len(),
            word_bytes == M::spec_word_bits() / 8,
            forall|k: int| 0 <= k < slots@.len() ==> (#[trigger] slots@[k]).align_shift < 32,
            spec_place_sized(slots@.take(i as int), word_bytes) == Some(
                SlotOffsets { offsets: offsets@, end: end_offset },
            ),
        decreases slots@.len() - i,
    {
        let data = slots[i];
        proof {
            assert(slots@.take(i + 1).drop_last() =~= slots@.take(i as int));
            assert(slots@.take(i + 1).last() == data);
            if spec_place_sized(slots@.take(i + 1), word_bytes) is None {
                lemma_place_sized_prefix(slots@, word_bytes, i + 1);
            }
        }
        let shift: u8 = data.align_shift;
        let shifted: u32 = 1u32 << shift;
        let align = if word_bytes >= shifted {
            word_bytes
        } else {
            shifted
        };
        assert(shifted >= 1) by (bit_vector)
            requires
                shifted == 1u32 << shift,
                shift < 32,
        ;
        let mask = align - 1;
        let start_offset = match checked_round_up(end_offset, mask) {
            Some(s) => s,
            None => {
                return None;
            },
        };
        end_offset = match start_offset.checked_add(data.size) {
            Some(e) => e,
            None => {
                return None;
            },
        };
        offsets.push(start_offset);
        i += 1;
    }
    proof {
        assert(slots@.take(slots@.len() as int) =~= slots@);
    }
    Some((offsets, end_offset))
}

/// Where a prefix of the slots cannot be placed, the slots cannot.
pub proof fn lemma_place_sized_prefix(slots: Seq<StackSlotData>, word_bytes: u32, n: int)
    requires
        0 <= n <= slots.len(),
        spec_place_sized(slots.take(n), word_bytes) is None,
    ensures
        spec_place_sized(slots, word_bytes) is None,
    decreases slots.len() - n,
{
    if n < slots.len() {
        assert(slots.take(n + 1).drop_last() =~= slots.take(n));
        lemma_place_sized_prefix(slots, word_bytes, n + 1);
    } else {
        assert(slots.take(n) =~= slots);
    }
}

/// Where a prefix of the dynamic slots cannot be placed, the slots
/// cannot, for the same reason.
pub proof fn lemma_place_dynamic_prefix<M: ABIMachineSpec>(
    slots: Seq<DynamicStackSlotData>,
    types: Seq<Option<Type>>,
    first_end: u32,
    n: int,
)
    requires
        0 <= n <= slots.len(),
        spec_place_dynamic::<M>(slots.take(n), types, first_end) is Err,
    ensures
        spec_place_dynamic::<M>(slots, types, first_end) == spec_place_dynamic::<M>(
            slots.take(n),
            types,
            first_end,
        ),
    decreases slots.len() - n,
{
    if n < slots.len() {
        assert(slots.take(n + 1).drop_last() =~= slots.take(n));
        lemma_place_dynamic_prefix::<M>(slots, types, first_end, n + 1);
    } else {
        assert(slots.take(n) =~= slots);
    }
}

fn place_dynamic<M: ABIMachineSpec>(
    slots: &Vec<DynamicStackSlotData>,
    types: &Vec<Option<Type>>,
    first_end: u32,
) -> (r: Result<(Vec<u32>, u32), CodegenError>)
    requires
        forall|j: int| 0 <= j < slots@.len() ==> (#[trigger] slots@[j]).dyn_ty < types@.len(),
    ensures
        match r {
            Ok((offsets, end)) => spec_place_dynamic::<M>(slots@, types@, first_end) == Ok::<
                SlotOffsets,
                CodegenError,
            >(SlotOffsets { offsets: offsets@, end }),
            Err(e) => spec_place_dynamic::<M>(slots@, types@, first_end) == Err::<
                SlotOffsets,
                CodegenError,
            >(e),
        },
{
    let word_bytes = M::word_bytes();
    let mut end_offset: u32 = first_end;
    let mut offsets: Vec<u32> = Vec::new();
    let mut i: usize = 0;
    proof {
        assert(slots@.take(0) =~= Seq::<DynamicStackSlotData>::empty());
    }
    while i < slots.len()
        invariant
            i <= slots@.len(),
            word_bytes == M::spec_word_bits() / 8,
            word_bytes == 4 || word_bytes == 8,
            forall|j: int| 0 <= j < slots@.len() ==> (#[trigger] slots@[j]).dyn_ty < types@.len(),
            spec_place_dynamic::<M>(slots@.take(i as int), types@, first_end) == Ok::<
                SlotOffsets,
                CodegenError,
            >(SlotOffsets { offsets: offsets@, end: end_offset }),
        decreases slots@.len() - i,
    {
        let data = slots[i];
        proof {
            assert(slots@.take(i + 1).drop_last() =~= slots@.take(i as int));
            assert(slots@.take(i + 1).last() == data);
            if spec_place_dynamic::<M>(slots@.take(i + 1), types@, first_end) is Err {
                lemma_place_dynamic_prefix::<M>(slots@, types@, first_end, i + 1);
            }
        }
        let mask = word_bytes - 1;
        let start_offset = match checked_round_up(end_offset, mask) {
            Some(s) => s,
            None => {
                return Err(CodegenError::ImplLimitExceeded);
            },
        };
        let ty = match types[data.dyn_ty] {
            Some(ty) => ty,
            None => {
                return Err(CodegenError::Unsupported);
            },
        };
        end_offset = match start_offset.checked_add(M::dynamic_vector_bytes(ty)) {
            Some(e) => e,
            None => {
                return Err(CodegenError::ImplLimitExceeded);
            },
        };
        offsets.push(start_offset);
        i += 1;
    }
    proof {
        assert(slots@.take(slots@.len() as int) =~= slots@);
    }
    Ok((offsets, end_offset))
}

fn type_sizes<M: ABIMachineSpec>(types: &Vec<Option<Type>>) -> (r: Vec<(Type, u32)>)
    requires
        forall|t: int| 0 <= t < types@.len() ==> (#[trigger] types@[t]) is Some,
    ensures
        r@ == spec_type_sizes::<M>(types@),
{
    let mut r: Vec<(Type, u32)> = Vec::new();
    let mut i: usize = 0;
    while i < types.len()
        invariant
            i <= types@.len(),
            forall|t: int| 0 <= t < types@.len() ==> (#[trigger] types@[t]) is Some,
            r@ == spec_type_sizes::<M>(types@.take(i as int)),
        decreases types@.len() - i,
    {
        match types[i] {
            Some(ty) => {
                r.push((ty, M::dynamic_vector_bytes(ty)));
            },
            None => {},
        }
        proof {
            assert(r@ =~= spec_type_sizes::<M>(types@.take(i + 1)));
        }
        i += 1;
    }
    proof {
        assert(types@.take(types@.len() as int) =~= types@);
    }
    r
}

impl<M: ABIMachineSpec> Callee<M> {
    /// The signature has its returned pointer, and the frame layout, once
    /// computed, covers this function.
    pub open spec fn wf(&self) -> bool {
        !spec_missing_struct_return(&self.ir_sig)
    }

    /// The state with which the compilation of `f` begins.
    ///
    /// Fails with `ImplLimitExceeded` where the offset of a stack slot
    /// leaves 32 bits, and with `Unsupported` where a dynamic stack slot
    /// has a type without a concrete type.
    pub fn new(f: &Function, flags: &Flags, isa_flags: &M::F, sigs: &SigSet) -> (r: Result<
        Self,
        CodegenError,
    >)
        requires
            spec_can_make_callee::<M>(f, sigs),
        ensures
            match spec_stack_slots::<M>(f) {
                Err(e) => r == Err::<Self, CodegenError>(e),
                Ok(slots) => {
                    &&& r is Ok
                    &&& r->Ok_0.wf()
                    &&& r->Ok_0.ir_sig.params@ == f.signature.params@
                    &&& r->Ok_0.ir_sig.returns@ == spec_lowered_returns(&f.signature)
                    &&& r->Ok_0.ir_sig.call_conv == f.signature.call_conv
                    &&& r->Ok_0.sig == sigs.spec_sig_for(&f.signature)
                    &&& r->Ok_0.dynamic_type_sizes@ == spec_type_sizes::<M>(f.dynamic_types@)
                    &&& r->Ok_0.dynamic_stackslots@ == slots.dynamic
                    &&& r->Ok_0.sized_stackslots@ == slots.sized
                    &&& r->Ok_0.stackslots_size == slots.size
                    &&& r->Ok_0.outgoing_args_size == 0
                    &&& r->Ok_0.tail_args_size == sigs.spec_sigs()[r->Ok_0.sig.0 as int].sized_stack_arg_space
                    &&& r->Ok_0.reg_args@ == Seq::<ArgPair>::empty()
                    &&& r->Ok_0.frame_layout is None
                    &&& r->Ok_0.ret_area_ptr is None
                    &&& r->Ok_0.call_conv == f.signature.call_conv
                    &&& r->Ok_0.flags == *flags
                    &&& r->Ok_0.is_leaf == f.is_leaf
                    &&& match f.stack_limit {
                        Some(gv) => r->Ok_0.stack_limit is Some && Some(
                            (r->Ok_0.stack_limit->Some_0.0, r->Ok_0.stack_limit->Some_0.1@),
                        ) == spec_gv::<M>(
                            f,
                            spec_special_purpose_param_register(
                                &f.signature,
                                sigs,
                                r->Ok_0.sig,
                                ArgumentPurpose::VMContext,
                            ),
                            gv,
                            f.global_values@.len(),
                        ),
                        None => r->Ok_0.stack_limit is None,
                    }
                },
            },
    {
        let sig = sigs.abi_sig_for_signature(&f.signature);
        let call_conv = f.signature.call_conv;

        let (sized_stackslots, end_offset) = match place_sized::<M>(&f.sized_stack_slots) {
            Some(pair) => pair,
            None => {
                return Err(CodegenError::ImplLimitExceeded);
            },
        };
        let (dynamic_stackslots, end_offset) = match place_dynamic::<M>(
            &f.dynamic_stack_slots,
            &f.dynamic_types,
            end_offset,
        ) {
            Ok(pair) => pair,
            Err(e) => {
                return Err(e);
            },
        };
        let stackslots_size = match checked_round_up(end_offset, M::word_bytes() - 1) {
            Some(size) => size,
            None => {
                return Err(CodegenError::ImplLimitExceeded);
            },
        };
        proof {
            lemma_place_dynamic_concrete::<M>(
                f.dynamic_stack_slots@,
                f.dynamic_types@,
                spec_place_sized(
                    f.sized_stack_slots@,
                    (M::spec_word_bits() / 8) as u32,
                )->Some_0.end,
            );
        }
        let dynamic_type_sizes = type_sizes::<M>(&f.dynamic_types);
        let stack_limit = match f.stack_limit {
            Some(gv) => Some(gen_stack_limit::<M>(f, sigs, sig, gv)),
            None => None,
        };
        let tail_args_size = sigs.get(sig).sized_stack_arg_space;

        Ok(
            Callee {
                ir_sig: ensure_struct_return_ptr_is_returned(&f.signature),
                sig,
                dynamic_stackslots,
                dynamic_type_sizes,
                sized_stackslots,
                stackslots_size,
                outgoing_args_size: 0,
                tail_args_size,
                reg_args: Vec::new(),
                frame_layout: None,
                ret_area_ptr: None,
                call_conv,
                flags: *flags,
                isa_flags: isa_flags.clone(),
                is_leaf: f.is_leaf,
                stack_limit,
            },
        )
    }
}

/// The type in which a slot's value is moved once it has been widened:
/// the word type where the convention widens a value narrower than a
/// word, else the slot's own type.
pub open spec fn spec_widened_type<M: ABIMachineSpec>(
    call_conv: CallConv,
    ty: Type,
    extension: ArgumentExtension,
) -> Type {
    if M::spec_ext_mode(call_conv, extension) != ArgumentExtension::NoExt && ty.spec_bits()
        < M::spec_word_bits() {
        spec_word_type(M::spec_word_bits())
    } else {
        ty
    }
}

/// What copying incoming slots into registers yields: bindings for the
/// slots in registers and loads for the slots on the stack.
pub ghost struct SlotCopies<I> {
    pub reg_args: Seq<ArgPair>,
    pub insts: Seq<I>,
}

/// Copies each of `slots` into the register of `into_regs` at the same
/// position.
pub open spec fn spec_copy_slots<M: ABIMachineSpec>(
    call_conv: CallConv,
    arg_space: u32,
    slots: Seq<ABIArgSlot>,
    into_regs: Seq<Writable<Reg>>,
) -> SlotCopies<M::I>
    decreases slots.len(),
{
    if slots.len() == 0 {
        SlotCopies { reg_args: Seq::empty(), insts: Seq::empty() }
    } else {
        let before = spec_copy_slots::<M>(call_conv, arg_space, slots.drop_last(), into_regs);
        let into_reg = into_regs[slots.len() - 1];
        match slots.last() {
            ABIArgSlot::Reg { reg, .. } => SlotCopies {
                reg_args: before.reg_args.push(ArgPair { vreg: into_reg, preg: Reg::Real(reg) }),
                ..before
            },
            ABIArgSlot::Stack { offset, ty, extension } => SlotCopies {
                insts: before.insts.push(
                    M::load_stack_inst(
                        StackAMode::IncomingArg(offset, arg_space),
                        into_reg,
                        spec_widened_type::<M>(call_conv, ty, extension),
                    ),
                ),
                ..before
            },
        }
    }
}

/// What copying one incoming argument into registers yields.
pub ghost struct ArgCopy<I> {
    /// The bindings added for the registers the argument arrives in.
    pub reg_args: Seq<ArgPair>,
    /// The instructions emitted.
    pub insts: Seq<I>,
    /// The allocator of virtual registers afterwards.
    pub vregs: AllocView,
}

/// Copies an incoming argument into `into_regs`: a value in slots slot by
/// slot; for a structure the address of its buffer; a value behind an
/// implicit pointer by loading through the pointer.
pub open spec fn spec_copy_arg<M: ABIMachineSpec>(
    arg: ABIArgView,
    call_conv: CallConv,
    arg_space: u32,
    into_regs: Seq<Writable<Reg>>,
    vregs: AllocView,
) -> ArgCopy<M::I> {
    match arg {
        ABIArgView::Slots { slots, .. } => {
            let copies = spec_copy_slots::<M>(call_conv, arg_space, slots, into_regs);
            ArgCopy { reg_args: copies.reg_args, insts: copies.insts, vregs }
        },
        ABIArgView::StructArg { offset, .. } => ArgCopy {
            reg_args: Seq::empty(),
            insts: seq![
                M::get_stack_addr_inst(StackAMode::IncomingArg(offset, arg_space), into_regs[0]),
            ],
            vregs,
        },
        ABIArgView::ImplicitPtrArg { pointer, ty, .. } => {
            let tmp = vregs.tmp(pointer.spec_get_type());
            let load = M::load_base_offset_inst(into_regs[0], tmp, 0, ty);
            match pointer {
                ABIArgSlot::Reg { reg, ty: pointer_ty, .. } => ArgCopy {
                    reg_args: seq![ArgPair { vreg: Writable { reg: tmp }, preg: Reg::Real(reg) }],
                    insts: seq![load],
                    vregs: vregs.step(pointer_ty),
                },
                ABIArgSlot::Stack { offset, ty: pointer_ty, .. } => ArgCopy {
                    reg_args: Seq::empty(),
                    insts: seq![
                        M::load_stack_inst(
                            StackAMode::IncomingArg(offset, arg_space),
                            Writable { reg: tmp },
                            pointer_ty,
                        ),
                        load,
                    ],
                    vregs: vregs.step(pointer_ty),
                },
            }
        },
    }
}

/// An argument can be copied into registers that are as many as its
/// slots; a structure and a value behind a pointer take one register.
pub open spec fn spec_copy_arg_fits(arg: ABIArgView, into_regs: Seq<Writable<Reg>>) -> bool {
    match arg {
        ABIArgView::Slots { slots, .. } => into_regs.len() == slots.len(),
        ABIArgView::StructArg { .. } => into_regs.len() == 1,
        ABIArgView::ImplicitPtrArg { pointer, .. } => into_regs.len() == 1 && !(
        pointer.spec_get_type() is I128),
    }
}

impl<M: ABIMachineSpec> Callee<M> {
    /// The catalog holds this function's signature.
    pub open spec fn in_sigs(&self, sigs: &SigSet) -> bool {
        sigs.wf() && sigs.has(self.sig)
    }

    /// The stack space of this function's arguments.
    pub open spec fn spec_stack_args_size(&self, sigs: &SigSet) -> u32 {
        sigs.spec_sigs()[self.sig.0 as int].sized_stack_arg_space
    }

    /// The calling convention of this function's signature.
    pub open spec fn spec_sig_call_conv(&self, sigs: &SigSet) -> CallConv {
        sigs.spec_sigs()[self.sig.0 as int].call_conv
    }

    /// Copies incoming argument `idx` into `into_regs`.
    ///
    /// A slot in a register is not moved here: it is bound, and all
    /// bindings are handed out together by `take_args`. A slot on the
    /// stack is loaded at once, in its widened type.
    pub fn gen_copy_arg_to_regs(
        &mut self,
        sigs: &SigSet,
        idx: usize,
        into_regs: ValueRegs<Writable<Reg>>,
        vregs: &mut VRegAllocator,
    ) -> (insts: Vec<M::I>)
        requires
            old(self).in_sigs(sigs),
            idx < sigs.spec_args(old(self).sig).len(),
            spec_copy_arg_fits(sigs.spec_args(old(self).sig)[idx as int]@, into_regs@),
        ensures
            ({
                let copy = spec_copy_arg::<M>(
                    sigs.spec_args(old(self).sig)[idx as int]@,
                    old(self).spec_sig_call_conv(sigs),
                    old(self).spec_stack_args_size(sigs),
                    into_regs@,
                    old(vregs)@,
                );
                &&& insts@ == copy.insts
                &&& final(self).reg_args@ == old(self).reg_args@ + copy.reg_args
                &&& final(vregs)@ == copy.vregs
            }),
            *final(self) == (Callee { reg_args: final(self).reg_args, ..*old(self) }),
    {
        let mut insts: Vec<M::I> = Vec::new();
        let data = sigs.get(self.sig);
        let call_conv = data.call_conv;
        let arg_space = data.sized_stack_arg_space;
        let ghost old_reg_args = self.reg_args@;
        match &sigs.args(self.sig)[idx] {
            ABIArg::Slots { slots, .. } => {
                let n = slots.len();
                let mut i: usize = 0;
                proof {
                    assert(slots@.take(0) =~= Seq::<ABIArgSlot>::empty());
                    assert(old_reg_args + Seq::<ArgPair>::empty() =~= old_reg_args);
                }
                while i < n
                    invariant
                        i <= n,
                        n == slots@.len(),
                        n == into_regs@.len(),
                        insts@ == spec_copy_slots::<M>(
                            call_conv,
                            arg_space,
                            slots@.take(i as int),
                            into_regs@,
                        ).insts,
                        self.reg_args@ == old_reg_args + spec_copy_slots::<M>(
                            call_conv,
                            arg_space,
                            slots@.take(i as int),
                            into_regs@,
                        ).reg_args,
                        *self == (Callee { reg_args: self.reg_args, ..*old(self) }),
                    decreases n - i,
                {
                    let slot = slots.get(i);
                    let into_reg = into_regs.get(i);
                    proof {
                        assert(slots@.take(i + 1).drop_last() =~= slots@.take(i as int));
                        assert(slots@.take(i + 1).last() == slot);
                    }
                    match slot {
                        ABIArgSlot::Reg { reg, .. } => {
                            let ghost before = self.reg_args@;
                            self.reg_args.push(
                                ArgPair { vreg: into_reg, preg: Reg::from_real(reg) },
                            );
                            proof {
                                let prev = spec_copy_slots::<M>(
                                    call_conv,
                                    arg_space,
                                    slots@.take(i as int),
                                    into_regs@,
                                ).reg_args;
                                assert(self.reg_args@ =~= old_reg_args + prev.push(
                                    self.reg_args@.last(),
                                ));
                            }
                        },
                        ABIArgSlot::Stack { offset, ty, extension } => {
                            let ext = M::get_ext_mode(call_conv, extension);
                            let ty = if ext != ArgumentExtension::NoExt && M::word_bits() > ty.bits() {
                                M::word_type()
                            } else {
                                ty
                            };
                            insts.push(
                                M::gen_load_stack(
                                    StackAMode::IncomingArg(offset, arg_space),
                                    into_reg,
                                    ty,
                                ),
                            );
                        },
                    }
                    i += 1;
                }
                proof {
                    assert(slots@.take(n as int) =~= slots@);
                }
            },
            ABIArg::StructArg { offset, .. } => {
                let into_reg = into_regs.get(0);
                insts.push(
                    M::gen_get_stack_addr(StackAMode::IncomingArg(*offset, arg_space), into_reg),
                );
                proof {
                    assert(old_reg_args + Seq::<ArgPair>::empty() =~= old_reg_args);
                }
            },
            ABIArg::ImplicitPtrArg { pointer, ty, .. } => {
                let into_reg = into_regs.get(0);
                let base = match pointer {
                    ABIArgSlot::Reg { reg, ty, .. } => {
                        let tmp = vregs.alloc_tmp(*ty);
                        self.reg_args.push(
                            ArgPair { vreg: Writable::from_reg(tmp), preg: Reg::from_real(*reg) },
                        );
                        proof {
                            assert(self.reg_args@ =~= old_reg_args + seq![self.reg_args@.last()]);
                        }
                        tmp
                    },
                    ABIArgSlot::Stack { offset, ty, .. } => {
                        let addr_reg = Writable::from_reg(vregs.alloc_tmp(*ty));
                        insts.push(
                            M::gen_load_stack(
                                StackAMode::IncomingArg(*offset, arg_space),
                                addr_reg,
                                *ty,
                            ),
                        );
                        proof {
                            assert(old_reg_args + Seq::<ArgPair>::empty() =~= old_reg_args);
                        }
                        addr_reg.to_reg()
                    },
                };
                insts.push(M::gen_load_base_offset(into_reg, base, 0, *ty));
            },
        }
        insts
    }
}

/// Does the convention widen a value of type `ty` declared with
/// `extension`? It does where it asks for a widening and the value is
/// narrower than a machine word.
pub open spec fn spec_widens<M: ABIMachineSpec>(
    call_conv: CallConv,
    ty: Type,
    extension: ArgumentExtension,
) -> bool {
    M::spec_ext_mode(call_conv, extension) != ArgumentExtension::NoExt && ty.spec_bits()
        < M::spec_word_bits()
}

/// What copying a return value to where it is returned yields.
pub ghost struct RetCopy<I> {
    /// The bindings for the slots in registers.
    pub reg_pairs: Seq<RetPair>,
    /// The instructions emitted: widenings, and stores for the slots on
    /// the stack.
    pub insts: Seq<I>,
    /// The allocator of virtual registers afterwards.
    pub vregs: AllocView,
}

/// Copies the registers `from_regs` to the return slots at the same
/// positions.
///
/// A value that the convention widens is widened into a fresh register
/// first. A slot in a register is bound to the widened value. A slot on
/// the stack is stored through the pointer to the return area.
pub open spec fn spec_copy_rets<M: ABIMachineSpec>(
    call_conv: CallConv,
    ret_area_ptr: Option<Reg>,
    slots: Seq<ABIArgSlot>,
    from_regs: Seq<Reg>,
    vregs: AllocView,
) -> RetCopy<M::I>
    decreases slots.len(),
{
    if slots.len() == 0 {
        RetCopy { reg_pairs: Seq::empty(), insts: Seq::empty(), vregs }
    } else {
        let before = spec_copy_rets::<M>(
            call_conv,
            ret_area_ptr,
            slots.drop_last(),
            from_regs,
            vregs,
        );
        let from_reg = from_regs[slots.len() - 1];
        let ty = slots.last().spec_get_type();
        let extension = slots.last().spec_extension();
        let widens = spec_widens::<M>(call_conv, ty, extension);
        let dst = before.vregs.tmp(ty);
        let extend = M::extend_inst(
            Writable { reg: dst },
            from_reg,
            M::spec_ext_mode(call_conv, extension) == ArgumentExtension::Sext,
            ty.spec_bits() as u8,
            M::spec_word_bits() as u8,
        );
        let insts = if widens {
            before.insts.push(extend)
        } else {
            before.insts
        };
        let after = if widens {
            before.vregs.step(ty)
        } else {
            before.vregs
        };
        match slots.last() {
            ABIArgSlot::Reg { reg, .. } => RetCopy {
                reg_pairs: before.reg_pairs.push(
                    RetPair {
                        vreg: if widens {
                            dst
                        } else {
                            from_reg
                        },
                        preg: Reg::Real(reg),
                    },
                ),
                insts,
                vregs: after,
            },
            ABIArgSlot::Stack { offset, .. } => RetCopy {
                reg_pairs: before.reg_pairs,
                insts: insts.push(
                    M::store_base_offset_inst(
                        ret_area_ptr->Some_0,
                        offset as i32,
                        from_reg,
                        spec_widened_type::<M>(call_conv, ty, extension),
                    ),
                ),
                vregs: after,
            },
        }
    }
}

/// A return value can be copied from registers that are as many as its
/// slots. For a slot on the stack there is a pointer to the return area,
/// the slot's offset fits 32 bits, and a value that is widened comes from
/// a register of the class of machine words.
pub open spec fn spec_copy_rets_fits<M: ABIMachineSpec>(
    call_conv: CallConv,
    ret_area_ptr: Option<Reg>,
    arg: ABIArgView,
    from_regs: Seq<Reg>,
) -> bool {
    &&& arg is Slots
    &&& arg->Slots_slots.len() == from_regs.len()
    &&& forall|i: int|
        0 <= i < arg->Slots_slots.len() ==> match #[trigger] arg->Slots_slots[i] {
            ABIArgSlot::Reg { .. } => true,
            ABIArgSlot::Stack { offset, ty, extension } => {
                &&& ret_area_ptr is Some
                &&& i32::MIN <= offset <= i32::MAX
                &&& spec_widens::<M>(call_conv, ty, extension) ==> from_regs[i].spec_class()
                    == Some(M::spec_word_reg_class())
            },
        }
}

impl<M: ABIMachineSpec> Callee<M> {
    /// Copies `from_regs` to return value `idx`.
    ///
    /// Only a value in slots can be returned: a structure or a value
    /// behind an implicit pointer in return position is a fault of the
    /// caller.
    pub fn gen_copy_regs_to_retval(
        &self,
        sigs: &SigSet,
        idx: usize,
        from_regs: ValueRegs<Reg>,
        vregs: &mut VRegAllocator,
    ) -> (r: (RetPairList, Vec<M::I>))
        requires
            self.in_sigs(sigs),
            idx < sigs.spec_rets(self.sig).len(),
            spec_copy_rets_fits::<M>(
                self.spec_sig_call_conv(sigs),
                self.ret_area_ptr,
                sigs.spec_rets(self.sig)[idx as int]@,
                from_regs@,
            ),
        ensures
            ({
                let copy = spec_copy_rets::<M>(
                    self.spec_sig_call_conv(sigs),
                    self.ret_area_ptr,
                    sigs.spec_rets(self.sig)[idx as int]@->Slots_slots,
                    from_regs@,
                    old(vregs)@,
                );
                &&& r.0@ == copy.reg_pairs
                &&& r.1@ == copy.insts
                &&& final(vregs)@ == copy.vregs
            }),
    {
        let mut reg_pairs = RetPairList::new();
        let mut ret: Vec<M::I> = Vec::new();
        let word_bits = M::word_bits() as u8;
        let call_conv = sigs.get(self.sig).call_conv;
        match &sigs.rets(self.sig)[idx] {
            ABIArg::Slots { slots, .. } => {
                let n = slots.len();
                let mut i: usize = 0;
                proof {
                    assert(slots@.take(0) =~= Seq::<ABIArgSlot>::empty());
                }
                while i < n
                    invariant
                        i <= n,
                        n == slots@.len(),
                        n == from_regs@.len(),
                        word_bits == M::spec_word_bits(),
                        word_bits == 32 || word_bits == 64,
                        call_conv == self.spec_sig_call_conv(sigs),
                        spec_copy_rets_fits::<M>(
                            call_conv,
                            self.ret_area_ptr,
                            sigs.spec_rets(self.sig)[idx as int]@,
                            from_regs@,
                        ),
                        sigs.spec_rets(self.sig)[idx as int]@->Slots_slots == slots@,
                        ({
                            let copy = spec_copy_rets::<M>(
                                call_conv,
                                self.ret_area_ptr,
                                slots@.take(i as int),
                                from_regs@,
                                old(vregs)@,
                            );
                            &&& reg_pairs@ == copy.reg_pairs
                            &&& ret@ == copy.insts
                            &&& vregs@ == copy.vregs
                        }),
                    decreases n - i,
                {
                    let slot = slots.get(i);
                    let from_reg = from_regs.get(i);
                    proof {
                        assert(slots@.take(i + 1).drop_last() =~= slots@.take(i as int));
                        assert(slots@.take(i + 1).last() == slot);
                    }
                    match slot {
                        ABIArgSlot::Reg { reg, ty, extension } => {
                            let from_bits = ty.bits() as u8;
                            let ext = M::get_ext_mode(call_conv, extension);
                            let vreg = if ext != ArgumentExtension::NoExt && from_bits < word_bits {
                                let signed = ext == ArgumentExtension::Sext;
                                let dst = Writable::from_reg(vregs.alloc_tmp(ty));
                                ret.push(
                                    M::gen_extend(dst, from_reg, signed, from_bits, word_bits),
                                );
                                dst.to_reg()
                            } else {
                                from_reg
                            };
                            reg_pairs.push(RetPair { vreg, preg: Reg::from_real(reg) });
                        },
                        ABIArgSlot::Stack { offset, ty, extension } => {
                            let mut ty = ty;
                            let from_bits = ty.bits() as u8;
                            let off = offset as i32;
                            let ext = M::get_ext_mode(call_conv, extension);
                            if ext != ArgumentExtension::NoExt && from_bits < word_bits {
                                let signed = ext == ArgumentExtension::Sext;
                                let dst = Writable::from_reg(vregs.alloc_tmp(ty));
                                ret.push(
                                    M::gen_extend(dst, from_reg, signed, from_bits, word_bits),
                                );
                                ty = M::word_type();
                            }
                            let ptr = match self.ret_area_ptr {
                                Some(ptr) => ptr,
                                None => vstd::pervasive::unreached(),
                            };
                            ret.push(M::gen_store_base_offset(ptr, off, from_reg, ty));
                        },
                    }
                    i += 1;
                }
                proof {
                    assert(slots@.take(n as int) =~= slots@);
                }
            },
            ABIArg::StructArg { .. } => vstd::pervasive::unreached(),
            ABIArg::ImplicitPtrArg { .. } => vstd::pervasive::unreached(),
        }
        (reg_pairs, ret)
    }
}

/// What setting up the arguments of a call has yielded so far.
pub ghost struct CallArgs<I> {
    /// The arguments passed in registers.
    pub uses: Seq<CallArgPair>,
    /// The instructions emitted.
    pub insts: Seq<I>,
    /// The allocator of virtual registers.
    pub vregs: AllocView,
}

/// The place of a stack argument of a call: in the caller's own incoming
/// argument area for a tail call, else in the outgoing argument area.
pub open spec fn spec_stack_arg(
    is_tail_call: bool,
    stack_arg_space: u32,
    offset: i64,
) -> StackAMode {
    if is_tail_call {
        StackAMode::IncomingArg(offset, stack_arg_space)
    } else {
        StackAMode::OutgoingArg(offset)
    }
}

/// Passes `vreg` in `slot`: a slot in a register is added to the uses, a
/// slot on the stack is stored to.
pub open spec fn spec_process_slot<M: ABIMachineSpec>(
    st: CallArgs<M::I>,
    is_tail_call: bool,
    stack_arg_space: u32,
    slot: ABIArgSlot,
    vreg: Reg,
    ty: Type,
) -> CallArgs<M::I> {
    match slot {
        ABIArgSlot::Reg { reg, .. } => CallArgs {
            uses: st.uses.push(CallArgPair { vreg, preg: Reg::Real(reg) }),
            ..st
        },
        ABIArgSlot::Stack { offset, .. } => CallArgs {
            insts: st.insts.push(
                M::store_stack_inst(
                    spec_stack_arg(is_tail_call, stack_arg_space, offset),
                    vreg,
                    ty,
                ),
            ),
            ..st
        },
    }
}

/// Passes the registers `from_regs` in the slots at the same positions,
/// each widened first where the convention asks for it.
pub open spec fn spec_pass_slots<M: ABIMachineSpec>(
    st: CallArgs<M::I>,
    call_conv: CallConv,
    is_tail_call: bool,
    stack_arg_space: u32,
    slots: Seq<ABIArgSlot>,
    from_regs: Seq<Reg>,
) -> CallArgs<M::I>
    decreases slots.len(),
{
    if slots.len() == 0 {
        st
    } else {
        let before = spec_pass_slots::<M>(
            st,
            call_conv,
            is_tail_call,
            stack_arg_space,
            slots.drop_last(),
            from_regs,
        );
        let from_reg = from_regs[slots.len() - 1];
        let ty = slots.last().spec_get_type();
        let extension = slots.last().spec_extension();
        let word_ty = spec_word_type(M::spec_word_bits());
        if spec_widens::<M>(call_conv, ty, extension) {
            let tmp = before.vregs.tmp(word_ty);
            let widened = CallArgs {
                insts: before.insts.push(
                    M::extend_inst(
                        Writable { reg: tmp },
                        from_reg,
                        M::spec_ext_mode(call_conv, extension) == ArgumentExtension::Sext,
                        ty.spec_bits() as u8,
                        M::spec_word_bits() as u8,
                    ),
                ),
                vregs: before.vregs.step(word_ty),
                ..before
            };
            spec_process_slot::<M>(
                widened,
                is_tail_call,
                stack_arg_space,
                slots.last(),
                tmp,
                word_ty,
            )
        } else {
            spec_process_slot::<M>(
                before,
                is_tail_call,
                stack_arg_space,
                slots.last(),
                from_reg,
                ty,
            )
        }
    }
}

/// The first pass over one argument: a structure is copied into its
/// buffer among the stack arguments; nothing is done for any other.
pub open spec fn spec_copy_struct_arg<M: ABIMachineSpec>(
    st: CallArgs<M::I>,
    libcall_conv: CallConv,
    is_tail_call: bool,
    stack_arg_space: u32,
    arg: ABIArgView,
    from_regs: Seq<Reg>,
) -> CallArgs<M::I> {
    match arg {
        ABIArgView::StructArg { offset, size, .. } => {
            let word_ty = spec_word_type(M::spec_word_bits());
            let tmp = st.vregs.tmp(word_ty);
            let vregs = st.vregs.step(word_ty);
            CallArgs {
                uses: st.uses,
                insts: st.insts.push(
                    M::get_stack_addr_inst(
                        spec_stack_arg(is_tail_call, stack_arg_space, offset),
                        Writable { reg: tmp },
                    ),
                ) + M::memcpy_insts(libcall_conv, tmp, from_regs[0], size as usize, vregs),
                vregs: M::memcpy_vregs(libcall_conv, tmp, from_regs[0], size as usize, vregs),
            }
        },
        _ => st,
    }
}

/// The second pass over one argument: a value in slots is passed slot by
/// slot; a value behind an implicit pointer is stored in its buffer and
/// the buffer's address is passed; nothing is done for a structure.
pub open spec fn spec_pass_arg<M: ABIMachineSpec>(
    st: CallArgs<M::I>,
    call_conv: CallConv,
    is_tail_call: bool,
    stack_arg_space: u32,
    arg: ABIArgView,
    from_regs: Seq<Reg>,
) -> CallArgs<M::I> {
    match arg {
        ABIArgView::Slots { slots, .. } => spec_pass_slots::<M>(
            st,
            call_conv,
            is_tail_call,
            stack_arg_space,
            slots,
            from_regs,
        ),
        ABIArgView::ImplicitPtrArg { offset, pointer, ty, .. } => {
            let word_ty = spec_word_type(M::spec_word_bits());
            let tmp = st.vregs.tmp(word_ty);
            let stored = CallArgs {
                uses: st.uses,
                insts: st.insts.push(
                    M::get_stack_addr_inst(
                        spec_stack_arg(is_tail_call, stack_arg_space, offset),
                        Writable { reg: tmp },
                    ),
                ).push(M::store_base_offset_inst(tmp, 0, from_regs[0], ty)),
                vregs: st.vregs.step(word_ty),
            };
            spec_process_slot::<M>(stored, is_tail_call, stack_arg_space, pointer, tmp, word_ty)
        },
        ABIArgView::StructArg { .. } => st,
    }
}

/// The first pass over the first `n` arguments.
pub open spec fn spec_first_pass<M: ABIMachineSpec>(
    st: CallArgs<M::I>,
    libcall_conv: CallConv,
    is_tail_call: bool,
    stack_arg_space: u32,
    locs: Seq<ABIArg>,
    values: Seq<ValueRegs<Reg>>,
    n: nat,
) -> CallArgs<M::I>
    decreases n,
{
    if n == 0 {
        st
    } else {
        spec_copy_struct_arg::<M>(
            spec_first_pass::<M>(
                st,
                libcall_conv,
                is_tail_call,
                stack_arg_space,
                locs,
                values,
                (n - 1) as nat,
            ),
            libcall_conv,
            is_tail_call,
            stack_arg_space,
            locs[n - 1]@,
            values[n - 1]@,
        )
    }
}

/// The second pass over the first `n` arguments.
pub open spec fn spec_second_pass<M: ABIMachineSpec>(
    st: CallArgs<M::I>,
    call_conv: CallConv,
    is_tail_call: bool,
    stack_arg_space: u32,
    locs: Seq<ABIArg>,
    values: Seq<ValueRegs<Reg>>,
    n: nat,
) -> CallArgs<M::I>
    decreases n,
{
    if n == 0 {
        st
    } else {
        spec_pass_arg::<M>(
            spec_second_pass::<M>(
                st,
                call_conv,
                is_tail_call,
                stack_arg_space,
                locs,
                values,
                (n - 1) as nat,
            ),
            call_conv,
            is_tail_call,
            stack_arg_space,
            locs[n - 1]@,
            values[n - 1]@,
        )
    }
}

/// Passes the pointer to the return area in `ret_arg`, if the callee
/// takes one: the caller's own pointer for a tail call, else the address
/// behind the outgoing stack arguments.
pub open spec fn spec_pass_ret_area<M: ABIMachineSpec>(
    st: CallArgs<M::I>,
    is_tail_call: bool,
    stack_arg_space: u32,
    ret_arg: Option<ABIArgView>,
    own_ret_area_ptr: Option<Reg>,
) -> CallArgs<M::I> {
    match ret_arg {
        None => st,
        Some(arg) => {
            let word_ty = spec_word_type(M::spec_word_bits());
            if is_tail_call {
                spec_process_slot::<M>(
                    st,
                    is_tail_call,
                    stack_arg_space,
                    arg->Slots_slots[0],
                    own_ret_area_ptr->Some_0,
                    word_ty,
                )
            } else {
                let tmp = st.vregs.tmp(word_ty);
                let addressed = CallArgs {
                    uses: st.uses,
                    insts: st.insts.push(
                        M::get_stack_addr_inst(
                            StackAMode::OutgoingArg(stack_arg_space as i64),
                            Writable { reg: tmp },
                        ),
                    ),
                    vregs: st.vregs.step(word_ty),
                };
                spec_process_slot::<M>(
                    addressed,
                    is_tail_call,
                    stack_arg_space,
                    arg->Slots_slots[0],
                    tmp,
                    word_ty,
                )
            }
        },
    }
}

/// The arguments of a call, set up in three steps: every structure is
/// copied into its buffer; then every other argument is passed; last the
/// pointer to the return area, if the callee takes one.
///
/// Structures come first because copying one may overwrite registers
/// that would otherwise hold arguments already.
pub open spec fn spec_call_args<M: ABIMachineSpec>(
    sigs: &SigSet,
    sig: Sig,
    values: Seq<ValueRegs<Reg>>,
    is_tail_call: bool,
    flags: Flags,
    own_ret_area_ptr: Option<Reg>,
    vregs: AllocView,
) -> CallArgs<M::I> {
    let data = sigs.spec_sigs()[sig.0 as int];
    let locs = sigs.spec_args(sig);
    let start = CallArgs { uses: Seq::empty(), insts: Seq::empty(), vregs };
    let first = spec_first_pass::<M>(
        start,
        CallConv::spec_for_libcall(&flags, data.call_conv),
        is_tail_call,
        data.sized_stack_arg_space,
        locs,
        values,
        values.len(),
    );
    let second = spec_second_pass::<M>(
        first,
        data.call_conv,
        is_tail_call,
        data.sized_stack_arg_space,
        locs,
        values,
        values.len(),
    );
    spec_pass_ret_area::<M>(
        second,
        is_tail_call,
        data.sized_stack_arg_space,
        sigs.spec_get_ret_arg(sig),
        own_ret_area_ptr,
    )
}

/// The registers of one argument fit its location: as many as its slots,
/// a value that is widened in a register of the class of machine words;
/// one register for a structure or a value behind a pointer.
pub open spec fn spec_call_arg_fits<M: ABIMachineSpec>(
    call_conv: CallConv,
    arg: ABIArgView,
    from_regs: Seq<Reg>,
) -> bool {
    match arg {
        ABIArgView::Slots { slots, .. } => {
            &&& from_regs.len() == slots.len()
            &&& forall|j: int|
                0 <= j < slots.len() && spec_widens::<M>(
                    call_conv,
                    (#[trigger] slots[j]).spec_get_type(),
                    slots[j].spec_extension(),
                ) ==> from_regs[j].spec_class() == Some(M::spec_word_reg_class())
        },
        _ => from_regs.len() == 1,
    }
}

fn stack_arg(is_tail_call: bool, stack_arg_space: u32, offset: i64) -> (mem: StackAMode)
    ensures
        mem == spec_stack_arg(is_tail_call, stack_arg_space, offset),
{
    if is_tail_call {
        StackAMode::IncomingArg(offset, stack_arg_space)
    } else {
        StackAMode::OutgoingArg(offset)
    }
}

fn process_arg_slot<M: ABIMachineSpec>(
    uses: &mut CallArgList,
    insts: &mut Vec<M::I>,
    is_tail_call: bool,
    stack_arg_space: u32,
    slot: ABIArgSlot,
    vreg: Reg,
    ty: Type,
    Ghost(vregs): Ghost<AllocView>,
)
    ensures
        (CallArgs { uses: final(uses)@, insts: final(insts)@, vregs }) == spec_process_slot::<M>(
            CallArgs { uses: old(uses)@, insts: old(insts)@, vregs },
            is_tail_call,
            stack_arg_space,
            slot,
            vreg,
            ty,
        ),
{
    match slot {
        ABIArgSlot::Reg { reg, .. } => {
            uses.push(CallArgPair { vreg, preg: Reg::from_real(reg) });
        },
        ABIArgSlot::Stack { offset, .. } => {
            insts.push(
                M::gen_store_stack(stack_arg(is_tail_call, stack_arg_space, offset), vreg, ty),
            );
        },
    }
}

impl<M: ABIMachineSpec> Callee<M> {
    /// Can the arguments of a call with signature `sig` be set up? A tail
    /// call is made from a function of the `Tail` convention, and if its
    /// callee takes a pointer to a return area, the caller has one of its
    /// own to hand on.
    pub open spec fn spec_tail_call_ok(&self, sigs: &SigSet, sig: Sig, is_tail_call: bool) -> bool {
        is_tail_call ==> {
            &&& self.call_conv == CallConv::Tail
            &&& sigs.spec_get_ret_arg(sig) is Some ==> self.ret_area_ptr is Some
        }
    }

    /// Tests `spec_tail_call_ok`.
    pub fn tail_call_ok(&self, sigs: &SigSet, sig: Sig, is_tail_call: bool) -> (ok: bool)
        requires
            sigs.wf(),
            sigs.has(sig),
        ensures
            ok == self.spec_tail_call_ok(sigs, sig, is_tail_call),
    {
        if !is_tail_call {
            return true;
        }
        let has_ret_arg = sigs.get(sig).stack_ret_arg.is_some();
        self.call_conv == CallConv::Tail && (!has_ret_arg || self.ret_area_ptr.is_some())
    }

    /// Sets up the argument values `args` for a call with signature `sig`.
    ///
    /// Returns the arguments passed in registers, to be attached to the
    /// call, and the instructions to emit before it.
    pub fn gen_call_args(
        &self,
        sigs: &SigSet,
        sig: Sig,
        args: &Vec<ValueRegs<Reg>>,
        is_tail_call: bool,
        flags: &Flags,
        vregs: &mut VRegAllocator,
    ) -> (r: (CallArgList, Vec<M::I>))
        requires
            sigs.wf(),
            sigs.has(sig),
            args@.len() == sigs.spec_num_args(sig),
            self.spec_tail_call_ok(sigs, sig, is_tail_call),
            forall|i: int|
                0 <= i < args@.len() ==> spec_call_arg_fits::<M>(
                    sigs.spec_sigs()[sig.0 as int].call_conv,
                    (#[trigger] sigs.spec_args(sig)[i])@,
                    args@[i]@,
                ),
        ensures
            ({
                let done = spec_call_args::<M>(
                    sigs,
                    sig,
                    args@,
                    is_tail_call,
                    *flags,
                    self.ret_area_ptr,
                    old(vregs)@,
                );
                &&& r.0@ == done.uses
                &&& r.1@ == done.insts
                &&& final(vregs)@ == done.vregs
            }),
    {
        let mut uses = CallArgList::new();
        let mut insts: Vec<M::I> = Vec::new();

        let data = sigs.get(sig);
        let call_conv = data.call_conv;
        let stack_arg_space = data.sized_stack_arg_space;
        let libcall_conv = CallConv::for_libcall(flags, call_conv);
        let locs = sigs.args(sig);
        let n = args.len();
        proof {
            assert(sigs.entry_wf(sig.0 as int));
        }

        let word_ty = M::word_type();
        let word_bits = M::word_bits();
        let ghost start = CallArgs::<M::I> { uses: Seq::empty(), insts: Seq::empty(), vregs: vregs@ };

        let mut idx: usize = 0;
        while idx < n
            invariant
                idx <= n,
                n == args@.len(),
                n <= locs@.len(),
                locs@ == sigs.spec_args(sig),
                word_ty == spec_word_type(M::spec_word_bits()),
                libcall_conv == CallConv::spec_for_libcall(flags, call_conv),
                forall|i: int|
                    0 <= i < args@.len() ==> spec_call_arg_fits::<M>(
                        call_conv,
                        (#[trigger] sigs.spec_args(sig)[i])@,
                        args@[i]@,
                    ),
                (CallArgs { uses: uses@, insts: insts@, vregs: vregs@ }) == spec_first_pass::<M>(
                    start,
                    libcall_conv,
                    is_tail_call,
                    stack_arg_space,
                    locs@,
                    args@,
                    idx as nat,
                ),
            decreases n - idx,
        {
            let from_regs = args[idx];
            match &locs[idx] {
                ABIArg::StructArg { offset, size, .. } => {
                    let tmp = vregs.alloc_tmp(word_ty);
                    insts.push(
                        M::gen_get_stack_addr(
                            stack_arg(is_tail_call, stack_arg_space, *offset),
                            Writable::from_reg(tmp),
                        ),
                    );
                    let mut copy = M::gen_memcpy(
                        libcall_conv,
                        tmp,
                        from_regs.get(0),
                        *size as usize,
                        vregs,
                    );
                    insts.append(&mut copy);
                },
                _ => {},
            }
            idx += 1;
        }

        let ghost first = CallArgs::<M::I> { uses: uses@, insts: insts@, vregs: vregs@ };
        let mut idx: usize = 0;
        while idx < n
            invariant
                idx <= n,
                n == args@.len(),
                n <= locs@.len(),
                locs@ == sigs.spec_args(sig),
                word_ty == spec_word_type(M::spec_word_bits()),
                word_bits == M::spec_word_bits(),
                word_bits == 32 || word_bits == 64,
                forall|i: int|
                    0 <= i < args@.len() ==> spec_call_arg_fits::<M>(
                        call_conv,
                        (#[trigger] sigs.spec_args(sig)[i])@,
                        args@[i]@,
                    ),
                (CallArgs { uses: uses@, insts: insts@, vregs: vregs@ }) == spec_second_pass::<M>(
                    first,
                    call_conv,
                    is_tail_call,
                    stack_arg_space,
                    locs@,
                    args@,
                    idx as nat,
                ),
            decreases n - idx,
        {
            let from_regs = args[idx];
            let ghost before = CallArgs::<M::I> { uses: uses@, insts: insts@, vregs: vregs@ };
            proof {
                assert(
                    spec_call_arg_fits::<M>(
                        call_conv,
                        sigs.spec_args(sig)[idx as int]@,
                        args@[idx as int]@,
                    )
                );
            }
            match &locs[idx] {
                ABIArg::Slots { slots, .. } => {
                    let m = slots.len();
                    let mut j: usize = 0;
                    proof {
                        assert(slots@.take(0) =~= Seq::<ABIArgSlot>::empty());
                    }
                    while j < m
                        invariant
                            j <= m,
                            m == slots@.len(),
                            m == from_regs@.len(),
                            word_ty == spec_word_type(M::spec_word_bits()),
                            word_bits == M::spec_word_bits(),
                            word_bits == 32 || word_bits == 64,
                            (CallArgs { uses: uses@, insts: insts@, vregs: vregs@ })
                                == spec_pass_slots::<M>(
                                before,
                                call_conv,
                                is_tail_call,
                                stack_arg_space,
                                slots@.take(j as int),
                                from_regs@,
                            ),
                        decreases m - j,
                    {
                        let slot = slots.get(j);
                        let from_reg = from_regs.get(j);
                        proof {
                            assert(slots@.take(j + 1).drop_last() =~= slots@.take(j as int));
                            assert(slots@.take(j + 1).last() == slot);
                        }
                        let ty = slot.get_type();
                        let extension = slot.extension();
                        let ext = M::get_ext_mode(call_conv, extension);
                        let (vreg, ty) = if ext != ArgumentExtension::NoExt && ty.bits() < word_bits {
                            let signed = ext == ArgumentExtension::Sext;
                            let tmp = vregs.alloc_tmp(word_ty);
                            insts.push(
                                M::gen_extend(
                                    Writable::from_reg(tmp),
                                    from_reg,
                                    signed,
                                    ty.bits() as u8,
                                    word_bits as u8,
                                ),
                            );
                            (tmp, word_ty)
                        } else {
                            (from_reg, ty)
                        };
                        process_arg_slot::<M>(
                            &mut uses,
                            &mut insts,
                            is_tail_call,
                            stack_arg_space,
                            slot,
                            vreg,
                            ty,
                            Ghost(vregs@),
                        );
                        j += 1;
                    }
                    proof {
                        assert(slots@.take(m as int) =~= slots@);
                    }
                },
                ABIArg::ImplicitPtrArg { offset, pointer, ty, .. } => {
                    let vreg = from_regs.get(0);
                    let tmp = vregs.alloc_tmp(word_ty);
                    insts.push(
                        M::gen_get_stack_addr(
                            stack_arg(is_tail_call, stack_arg_space, *offset),
                            Writable::from_reg(tmp),
                        ),
                    );
                    insts.push(M::gen_store_base_offset(tmp, 0, vreg, *ty));
                    process_arg_slot::<M>(
                        &mut uses,
                        &mut insts,
                        is_tail_call,
                        stack_arg_space,
                        *pointer,
                        tmp,
                        word_ty,
                        Ghost(vregs@),
                    );
                },
                ABIArg::StructArg { .. } => {},
            }
            idx += 1;
        }

        if let Some(ret_arg) = sigs.get_ret_arg(sig) {
            let ret_area = if is_tail_call {
                match self.ret_area_ptr {
                    Some(ptr) => ptr,
                    None => vstd::pervasive::unreached(),
                }
            } else {
                let tmp = vregs.alloc_tmp(word_ty);
                let amode = StackAMode::OutgoingArg(stack_arg_space as i64);
                insts.push(M::gen_get_stack_addr(amode, Writable::from_reg(tmp)));
                tmp
            };
            proof {
                let k = data.stack_ret_arg->Some_0 as int;
                assert(sigs.spec_args(sig)[k] == sigs.spec_abi_args()[data.rets_end + k]);
            }
            match ret_arg {
                ABIArg::Slots { slots, .. } => {
                    process_arg_slot::<M>(
                        &mut uses,
                        &mut insts,
                        is_tail_call,
                        stack_arg_space,
                        slots.get(0),
                        ret_area,
                        word_ty,
                        Ghost(vregs@),
                    );
                },
                _ => vstd::pervasive::unreached(),
            }
        }

        (uses, insts)
    }
}

/// Where each slot of a return value arrives after a call, for the
/// registers `regs` that receive the slots in order.
///
/// A slot on the stack lies behind the callee's stack arguments in the
/// outgoing argument area. Nothing is widened on the way out, but a slot
/// is read in its widened type.
pub open spec fn spec_ret_defs<M: ABIMachineSpec>(
    callee_conv: CallConv,
    stack_arg_space: u32,
    slots: Seq<ABIArgSlot>,
    regs: Seq<Reg>,
) -> Seq<CallRetPair>
    decreases slots.len(),
{
    if slots.len() == 0 {
        Seq::empty()
    } else {
        let before = spec_ret_defs::<M>(callee_conv, stack_arg_space, slots.drop_last(), regs);
        let vreg = Writable { reg: regs[slots.len() - 1] };
        let ty = spec_widened_type::<M>(
            callee_conv,
            slots.last().spec_get_type(),
            slots.last().spec_extension(),
        );
        match slots.last() {
            ABIArgSlot::Reg { reg, .. } => before.push(
                CallRetPair { vreg, location: RetLocation::Reg(Reg::Real(reg), ty) },
            ),
            ABIArgSlot::Stack { offset, .. } => before.push(
                CallRetPair {
                    vreg,
                    location: RetLocation::Stack(
                        StackAMode::OutgoingArg((offset + stack_arg_space) as i64),
                        ty,
                    ),
                },
            ),
        }
    }
}

/// The return values of a call that have been dealt with so far.
pub ghost struct RetDefs {
    /// Where each slot arrives.
    pub defs: Seq<CallRetPair>,
    /// The number of entries of the outputs that were used.
    pub used: nat,
}

/// Is the return value a copy of the pointer to a returned structure?
/// It receives no output.
pub open spec fn spec_skipped_ret(loc: ABIArgView) -> bool {
    loc is Slots && loc->Slots_purpose == ArgumentPurpose::StructReturn
}

/// Deals with the first `n` return values: each takes the next entry of
/// `outputs`, except a returned pointer to a returned structure, which
/// is passed over.
pub open spec fn spec_rets_pass<M: ABIMachineSpec>(
    callee_conv: CallConv,
    stack_arg_space: u32,
    locs: Seq<ABIArg>,
    outputs: Seq<ValueRegs<Reg>>,
    n: nat,
) -> RetDefs
    decreases n,
{
    if n == 0 {
        RetDefs { defs: Seq::empty(), used: 0 }
    } else {
        let before = spec_rets_pass::<M>(
            callee_conv,
            stack_arg_space,
            locs,
            outputs,
            (n - 1) as nat,
        );
        if spec_skipped_ret(locs[n - 1]@) {
            before
        } else {
            RetDefs {
                defs: before.defs + spec_ret_defs::<M>(
                    callee_conv,
                    stack_arg_space,
                    locs[n - 1]@->Slots_slots,
                    outputs[before.used as int]@,
                ),
                used: before.used + 1,
            }
        }
    }
}

/// The first position at or behind `from` of a return value that arrives
/// in register `preg`.
pub open spec fn spec_find_def(defs: Seq<CallRetPair>, preg: Reg, from: int) -> Option<int>
    decreases defs.len() - from,
{
    if from < 0 || from >= defs.len() {
        None
    } else if defs[from].location is Reg && defs[from].location->Reg_0 == preg {
        Some(from)
    } else {
        spec_find_def(defs, preg, from + 1)
    }
}

/// The return values of a try-call with the payload of an exception
/// added.
pub ghost struct PayloadDefs {
    pub defs: Seq<CallRetPair>,
    pub vregs: AllocView,
}

/// Adds the first `n` payload registers: one that is also the register
/// of a return value becomes an alias of that value's register, any
/// other a return value of its own.
pub open spec fn spec_payload_pass(
    start: PayloadDefs,
    word_ty: Type,
    pregs: Seq<Reg>,
    payloads: Seq<Writable<Reg>>,
    n: nat,
) -> PayloadDefs
    decreases n,
{
    if n == 0 {
        start
    } else {
        let before = spec_payload_pass(start, word_ty, pregs, payloads, (n - 1) as nat);
        let preg = pregs[n - 1];
        let vreg = payloads[n - 1];
        match spec_find_def(before.defs, preg, 0) {
            Some(k) => PayloadDefs {
                defs: before.defs,
                vregs: AllocView {
                    aliases: before.vregs.aliases.push((vreg.reg, before.defs[k].vreg.reg)),
                    ..before.vregs
                },
            },
            None => PayloadDefs {
                defs: before.defs.push(
                    CallRetPair { vreg, location: RetLocation::Reg(preg, word_ty) },
                ),
                vregs: before.vregs,
            },
        }
    }
}

/// The outputs fit the return values: every return value is in slots;
/// each that is not passed over finds its entry of `outputs`, with as
/// many registers as it has slots; no entry is left over; and the place
/// of each slot on the stack can be addressed.
pub open spec fn spec_call_rets_fit<M: ABIMachineSpec>(
    callee_conv: CallConv,
    stack_arg_space: u32,
    locs: Seq<ABIArg>,
    outputs: Seq<ValueRegs<Reg>>,
) -> bool {
    &&& forall|i: int|
        0 <= i < locs.len() ==> {
            let used = spec_rets_pass::<M>(
                callee_conv,
                stack_arg_space,
                locs,
                outputs,
                i as nat,
            ).used;
            &&& (#[trigger] locs[i])@ is Slots
            &&& !spec_skipped_ret(locs[i]@) ==> {
                &&& used < outputs.len()
                &&& outputs[used as int]@.len() == locs[i]@->Slots_slots.len()
                &&& forall|j: int|
                    0 <= j < locs[i]@->Slots_slots.len() ==> match #[trigger] locs[i]@->Slots_slots[j] {
                        ABIArgSlot::Stack { offset, .. } => offset + stack_arg_space <= i64::MAX,
                        _ => true,
                    }
            }
        }
    &&& spec_rets_pass::<M>(callee_conv, stack_arg_space, locs, outputs, locs.len()).used
        == outputs.len()
}

fn find_def(defs: &CallRetList, preg: Reg) -> (r: Option<usize>)
    ensures
        match r {
            Some(k) => spec_find_def(defs@, preg, 0) == Some(k as int) && k < defs@.len(),
            None => spec_find_def(defs@, preg, 0) is None,
        },
{
    let n = defs.len();
    let mut k: usize = 0;
    while k < n
        invariant
            k <= n,
            n == defs@.len(),
            spec_find_def(defs@, preg, 0) == spec_find_def(defs@, preg, k as int),
        decreases n - k,
    {
        let def = defs.get(k);
        match def.location {
            RetLocation::Reg(r, _) => {
                if r == preg {
                    return Some(k);
                }
            },
            _ => {},
        }
        k += 1;
    }
    None
}

impl<M: ABIMachineSpec> Callee<M> {
    /// Says where the return values of a call with signature `sig` arrive
    /// and which of the registers `outputs` receives each.
    ///
    /// For a try-call, `try_call_payloads` holds the registers that
    /// receive the payload of an exception.
    pub fn gen_call_rets(
        &self,
        sigs: &SigSet,
        sig: Sig,
        outputs: &Vec<ValueRegs<Reg>>,
        try_call_payloads: Option<&Vec<Writable<Reg>>>,
        vregs: &mut VRegAllocator,
    ) -> (defs: CallRetList)
        requires
            sigs.wf(),
            sigs.has(sig),
            spec_call_rets_fit::<M>(
                sigs.spec_sigs()[sig.0 as int].call_conv,
                sigs.spec_sigs()[sig.0 as int].sized_stack_arg_space,
                sigs.spec_rets(sig),
                outputs@,
            ),
            match try_call_payloads {
                Some(payloads) => payloads@.len() >= M::spec_exception_payload_regs(
                    sigs.spec_sigs()[sig.0 as int].call_conv,
                ).len(),
                None => true,
            },
        ensures
            ({
                let data = sigs.spec_sigs()[sig.0 as int];
                let rets = spec_rets_pass::<M>(
                    data.call_conv,
                    data.sized_stack_arg_space,
                    sigs.spec_rets(sig),
                    outputs@,
                    sigs.spec_rets(sig).len(),
                );
                match try_call_payloads {
                    None => defs@ == rets.defs && final(vregs)@ == old(vregs)@,
                    Some(payloads) => {
                        let pregs = M::spec_exception_payload_regs(data.call_conv);
                        let done = spec_payload_pass(
                            PayloadDefs { defs: rets.defs, vregs: old(vregs)@ },
                            spec_word_type(M::spec_word_bits()),
                            pregs,
                            payloads@,
                            pregs.len(),
                        );
                        defs@ == done.defs && final(vregs)@ == done.vregs
                    },
                }
            }),
    {
        let data = sigs.get(sig);
        let callee_conv = data.call_conv;
        let stack_arg_space = data.sized_stack_arg_space;
        let word_ty = M::word_type();
        let word_bits = M::word_bits();

        let mut defs = CallRetList::new();
        let mut next_output: usize = 0;
        let locs = sigs.rets(sig);
        let num_rets = locs.len();
        let mut idx: usize = 0;
        while idx < num_rets
            invariant
                idx <= num_rets,
                num_rets == locs@.len(),
                locs@ == sigs.spec_rets(sig),
                word_ty == spec_word_type(M::spec_word_bits()),
                word_bits == M::spec_word_bits(),
                spec_call_rets_fit::<M>(callee_conv, stack_arg_space, locs@, outputs@),
                (RetDefs { defs: defs@, used: next_output as nat }) == spec_rets_pass::<M>(
                    callee_conv,
                    stack_arg_space,
                    locs@,
                    outputs@,
                    idx as nat,
                ),
                vregs@ == old(vregs)@,
            decreases num_rets - idx,
        {
            proof {
                assert(locs@[idx as int]@ is Slots);
            }
            match &locs[idx] {
                ABIArg::Slots { slots, purpose } => {
                    if *purpose != ArgumentPurpose::StructReturn {
                        assert(next_output < outputs.len());
                        let retval_regs = outputs[next_output];
                        next_output = next_output + 1;
                        let ghost before = defs@;
                        let m = slots.len();
                        let mut j: usize = 0;
                        proof {
                            assert(slots@.take(0) =~= Seq::<ABIArgSlot>::empty());
                            assert(before + Seq::<CallRetPair>::empty() =~= before);
                        }
                        while j < m
                            invariant
                                j <= m,
                                m == slots@.len(),
                                m == retval_regs@.len(),
                                word_ty == spec_word_type(M::spec_word_bits()),
                                word_bits == M::spec_word_bits(),
                                forall|k: int|
                                    0 <= k < slots@.len() ==> match #[trigger] slots@[k] {
                                        ABIArgSlot::Stack { offset, .. } => offset + stack_arg_space
                                            <= i64::MAX,
                                        _ => true,
                                    },
                                defs@ == before + spec_ret_defs::<M>(
                                    callee_conv,
                                    stack_arg_space,
                                    slots@.take(j as int),
                                    retval_regs@,
                                ),
                            decreases m - j,
                        {
                            let slot = slots.get(j);
                            let retval_reg = retval_regs.get(j);
                            proof {
                                assert(slots@.take(j + 1).drop_last() =~= slots@.take(j as int));
                                assert(slots@.take(j + 1).last() == slot);
                                assert(slots@[j as int] == slot);
                            }
                            let ty = slot.get_type();
                            let ext = M::get_ext_mode(callee_conv, slot.extension());
                            let ty = if ext != ArgumentExtension::NoExt && ty.bits() < word_bits {
                                word_ty
                            } else {
                                ty
                            };
                            let ghost prev = spec_ret_defs::<M>(
                                callee_conv,
                                stack_arg_space,
                                slots@.take(j as int),
                                retval_regs@,
                            );
                            match slot {
                                ABIArgSlot::Reg { reg, .. } => {
                                    defs.push(
                                        CallRetPair {
                                            vreg: Writable::from_reg(retval_reg),
                                            location: RetLocation::Reg(Reg::from_real(reg), ty),
                                        },
                                    );
                                },
                                ABIArgSlot::Stack { offset, .. } => {
                                    let amode = StackAMode::OutgoingArg(
                                        offset + stack_arg_space as i64,
                                    );
                                    defs.push(
                                        CallRetPair {
                                            vreg: Writable::from_reg(retval_reg),
                                            location: RetLocation::Stack(amode, ty),
                                        },
                                    );
                                },
                            }
                            proof {
                                assert(defs@ =~= before + prev.push(defs@.last()));
                            }
                            j += 1;
                        }
                        proof {
                            assert(slots@.take(m as int) =~= slots@);
                        }
                    }
                },
                ABIArg::StructArg { .. } => vstd::pervasive::unreached(),
                ABIArg::ImplicitPtrArg { .. } => vstd::pervasive::unreached(),
            }
            idx += 1;
        }

        if let Some(payloads) = try_call_payloads {
            let pregs = M::exception_payload_regs(callee_conv);
            let ghost start = PayloadDefs { defs: defs@, vregs: vregs@ };
            let mut i: usize = 0;
            while i < pregs.len()
                invariant
                    i <= pregs@.len(),
                    pregs@.len() <= payloads@.len(),
                    (PayloadDefs { defs: defs@, vregs: vregs@ }) == spec_payload_pass(
                        start,
                        word_ty,
                        pregs@,
                        payloads@,
                        i as nat,
                    ),
                decreases pregs@.len() - i,
            {
                let preg = pregs[i];
                let vreg = payloads[i];
                match find_def(&defs, preg) {
                    Some(k) => {
                        let existing = defs.get(k);
                        vregs.set_vreg_alias(vreg.to_reg(), existing.vreg.to_reg());
                    },
                    None => {
                        defs.push(CallRetPair { vreg, location: RetLocation::Reg(preg, word_ty) });
                    },
                }
                i += 1;
            }
        }

        defs
    }
}

/// The indices of the physical registers in which return values arrive.
pub open spec fn spec_ret_regs(defs: Seq<CallRetPair>) -> Set<int> {
    Set::new(
        |index: int|
            exists|k: int|
                0 <= k < defs.len() && (#[trigger] defs[k]).location is Reg
                    && defs[k].location->Reg_0 is Real
                    && defs[k].location->Reg_0->Real_0.spec_index() == index,
    )
}

/// Every return value that arrives in a register arrives in a physical
/// one.
pub open spec fn spec_ret_regs_real(defs: Seq<CallRetPair>) -> bool {
    forall|k: int|
        0 <= k < defs.len() && (#[trigger] defs[k]).location is Reg ==> defs[k].location->Reg_0 is Real
            && defs[k].location->Reg_0->Real_0.wf()
}

/// The registers that a call overwrites: those that the callee's
/// convention does not preserve, except the registers in which return
/// values arrive.
pub open spec fn spec_call_clobbers<M: ABIMachineSpec>(
    callee_conv: CallConv,
    is_try_call: bool,
    defs: Seq<CallRetPair>,
) -> Set<int> {
    M::regs_clobbered_by_call(callee_conv, is_try_call).difference(spec_ret_regs(defs))
}

/// The number of bytes of stack arguments that the callee removes: all
/// of them under the `Tail` convention, none under any other.
pub open spec fn spec_callee_pop_size(callee_conv: CallConv, stack_arg_space: u32) -> u32 {
    if callee_conv == CallConv::Tail {
        stack_arg_space
    } else {
        0
    }
}

/// A register in which a return value arrives is not among the registers
/// that the call overwrites, though the callee's convention does not
/// preserve it.
pub proof fn lemma_clobbers_exclude_returns<M: ABIMachineSpec>(
    callee_conv: CallConv,
    is_try_call: bool,
    defs: Seq<CallRetPair>,
    k: int,
)
    requires
        0 <= k < defs.len(),
        defs[k].location is Reg,
        defs[k].location->Reg_0 is Real,
    ensures
        !spec_call_clobbers::<M>(callee_conv, is_try_call, defs).contains(
            defs[k].location->Reg_0->Real_0.spec_index(),
        ),
{
    assert(spec_ret_regs(defs).contains(defs[k].location->Reg_0->Real_0.spec_index()));
}

impl<M: ABIMachineSpec> Callee<M> {
    /// Gathers what is known of a call with signature `sig` to `dest`.
    ///
    /// `uses` and `defs` are the register arguments and the return values
    /// of the call; the registers it overwrites are computed from them.
    pub fn gen_call_info<T>(
        &self,
        sigs: &SigSet,
        sig: Sig,
        dest: T,
        uses: CallArgList,
        defs: CallRetList,
        try_call_info: Option<TryCallInfo>,
    ) -> (info: CallInfo<T>)
        requires
            sigs.wf(),
            sigs.has(sig),
            spec_ret_regs_real(defs@),
        ensures
            info.dest == dest,
            info.uses@ == uses@,
            info.defs@ == defs@,
            preg_set_members(info.clobbers) == spec_call_clobbers::<M>(
                sigs.spec_sigs()[sig.0 as int].call_conv,
                try_call_info is Some,
                defs@,
            ),
            info.callee_conv == sigs.spec_sigs()[sig.0 as int].call_conv,
            info.caller_conv == self.call_conv,
            info.callee_pop_size == spec_callee_pop_size(
                sigs.spec_sigs()[sig.0 as int].call_conv,
                sigs.spec_sigs()[sig.0 as int].sized_stack_arg_space,
            ),
            info.try_call_info == try_call_info,
    {
        let caller_conv = self.call_conv;
        let data = sigs.get(sig);
        let callee_conv = data.call_conv;
        let stack_arg_space = data.sized_stack_arg_space;

        let mut clobbers = M::get_regs_clobbered_by_call(callee_conv, try_call_info.is_some());
        let ghost all = preg_set_members(clobbers);
        let n = defs.len();
        let mut k: usize = 0;
        proof {
            assert(all.difference(spec_ret_regs(defs@.take(0))) =~= all);
        }
        while k < n
            invariant
                k <= n,
                n == defs@.len(),
                spec_ret_regs_real(defs@),
                preg_set_members(clobbers) == all.difference(spec_ret_regs(defs@.take(k as int))),
            decreases n - k,
        {
            let def = defs.get(k);
            let ghost before = spec_ret_regs(defs@.take(k as int));
            match def.location {
                RetLocation::Reg(preg, _) => {
                    match preg.to_real_reg() {
                        Some(physical) => {
                            preg_set_remove(&mut clobbers, physical.index());
                            proof {
                                let index = physical.spec_index();
                                let after = spec_ret_regs(defs@.take(k + 1));
                                assert(defs@.take(k + 1)[k as int] == defs@[k as int]);
                                assert forall|i: int| after.contains(i) <==> (before.contains(i) || i
                                    == index) by {
                                    if before.contains(i) {
                                        let w = choose|w: int|
                                            0 <= w < defs@.take(k as int).len() && (
                                            #[trigger] defs@.take(k as int)[w]).location is Reg
                                                && defs@.take(k as int)[w].location->Reg_0 is Real
                                                && defs@.take(
                                                k as int,
                                            )[w].location->Reg_0->Real_0.spec_index() == i;
                                        assert(defs@.take(k + 1)[w] == defs@.take(k as int)[w]);
                                    }
                                    if after.contains(i) {
                                        let w = choose|w: int|
                                            0 <= w < defs@.take(k + 1).len() && (
                                            #[trigger] defs@.take(k + 1)[w]).location is Reg
                                                && defs@.take(k + 1)[w].location->Reg_0 is Real
                                                && defs@.take(
                                                k + 1,
                                            )[w].location->Reg_0->Real_0.spec_index() == i;
                                        if w < k {
                                            assert(defs@.take(k as int)[w] == defs@.take(k + 1)[w]);
                                        }
                                    }
                                }
                                assert(
                                    all.difference(before).remove(index) =~= all.difference(after)
                                );
                            }
                        },
                        None => vstd::pervasive::unreached(),
                    }
                },
                RetLocation::Stack(_, _) => {
                    proof {
                        let after = spec_ret_regs(defs@.take(k + 1));
                        assert(defs@.take(k + 1)[k as int] == defs@[k as int]);
                        assert forall|i: int| after.contains(i) <==> before.contains(i) by {
                            if before.contains(i) {
                                let w = choose|w: int|
                                    0 <= w < defs@.take(k as int).len() && (#[trigger] defs@.take(
                                        k as int,
                                    )[w]).location is Reg && defs@.take(
                                        k as int,
                                    )[w].location->Reg_0 is Real && defs@.take(
                                        k as int,
                                    )[w].location->Reg_0->Real_0.spec_index() == i;
                                assert(defs@.take(k + 1)[w] == defs@.take(k as int)[w]);
                            }
                            if after.contains(i) {
                                let w = choose|w: int|
                                    0 <= w < defs@.take(k + 1).len() && (#[trigger] defs@.take(
                                        k + 1,
                                    )[w]).location is Reg && defs@.take(k + 1)[w].location->Reg_0 is Real
                                        && defs@.take(k + 1)[w].location->Reg_0->Real_0.spec_index()
                                        == i;
                                if w < k {
                                    assert(defs@.take(k as int)[w] == defs@.take(k + 1)[w]);
                                }
                            }
                        }
                        assert(after =~= before);
                    }
                },
            }
            k += 1;
        }
        proof {
            assert(defs@.take(n as int) =~= defs@);
        }

        let callee_pop_size = if callee_conv == CallConv::Tail {
            stack_arg_space
        } else {
            0
        };

        CallInfo {
            dest,
            uses,
            defs,
            clobbers,
            callee_conv,
            caller_conv,
            callee_pop_size,
            try_call_info,
        }
    }
}

/// The check of the stack pointer against the limit in `stack_limit` for
/// a frame of `stack_size` bytes.
///
/// For a frame without size the stack pointer itself is compared. Else
/// the limit plus the size is compared, after a comparison of the stack
/// pointer itself where the size is 32 KiB or more, so that the addition
/// cannot wrap unnoticed.
pub open spec fn spec_stack_check<M: ABIMachineSpec>(
    call_conv: CallConv,
    stack_limit: Reg,
    stack_size: u32,
) -> Seq<M::I> {
    if stack_size == 0 {
        M::stack_lower_bound_trap_insts(stack_limit)
    } else {
        let scratch = M::spec_stacklimit_reg(call_conv);
        (if stack_size >= 32 * 1024 {
            M::stack_lower_bound_trap_insts(stack_limit)
        } else {
            Seq::empty()
        }) + M::add_imm_insts(call_conv, Writable { reg: scratch }, stack_limit, stack_size)
            + M::stack_lower_bound_trap_insts(scratch)
    }
}

/// The stack that the check in the prologue covers: the growth of the
/// incoming argument area, the saved registers, the fixed storage, the
/// outgoing arguments and, unless the function is a leaf, the setup area
/// of a callee.
pub open spec fn spec_prologue_stack_size(layout: &FrameLayout, is_leaf: bool) -> int {
    (layout.tail_args_size - layout.incoming_args_size) + layout.clobber_size
        + layout.fixed_frame_storage_size + layout.outgoing_args_size + (if is_leaf {
        0
    } else {
        layout.setup_area_size as int
    })
}

/// The total size of the stack slots and `spillslots` spill slots, rounded
/// up to the alignment `align`.
pub open spec fn spec_total_stacksize(
    stackslots_size: u32,
    word_bytes: u32,
    spillslots: usize,
    align: u32,
) -> u32 {
    spec_round_up((stackslots_size + word_bytes * spillslots) as u32, (align - 1) as u32)
}

/// The total size of the fixed storage is a multiple of the stack
/// alignment and holds the stack slots and the spill slots.
pub proof fn lemma_total_stacksize_aligned(
    stackslots_size: u32,
    word_bytes: u32,
    spillslots: usize,
    align: u32,
)
    requires
        is_power_of_two(align),
        stackslots_size + word_bytes * spillslots + (align - 1) <= u32::MAX,
    ensures
        spec_total_stacksize(stackslots_size, word_bytes, spillslots, align) % align == 0,
        spec_total_stacksize(stackslots_size, word_bytes, spillslots, align) >= stackslots_size
            + word_bytes * spillslots,
        spec_total_stacksize(stackslots_size, word_bytes, spillslots, align) < stackslots_size
            + word_bytes * spillslots + align,
{
    assert(0 <= word_bytes * spillslots) by (nonlinear_arith);
    lemma_round_up((stackslots_size + word_bytes * spillslots) as u32, align);
}

impl<M: ABIMachineSpec> Callee<M> {
    /// The stack that the check in the prologue covers.
    pub open spec fn spec_checked_stack(&self) -> int {
        spec_prologue_stack_size(&self.frame_layout->Some_0, self.is_leaf)
    }

    /// What the prologue emits between the frame setup and the saving of
    /// registers: the stack check, if a limit is given, then the stack
    /// probe, if probing is switched on. A leaf without any stack skips
    /// both.
    pub open spec fn spec_prologue_checks(&self) -> Seq<M::I> {
        let total = self.spec_checked_stack() as u32;
        if total > 0 || !self.is_leaf {
            let check = match self.stack_limit {
                Some((reg, load)) => load@ + spec_stack_check::<M>(self.call_conv, reg, total),
                None => Seq::empty(),
            };
            let guard_size = 1u32 << self.flags.probestack_size_log2;
            let probe = if self.flags.enable_probestack {
                match self.flags.probestack_strategy {
                    ProbestackStrategy::Inline => M::inline_probestack_insts(
                        self.call_conv,
                        total,
                        guard_size,
                    ),
                    ProbestackStrategy::Outline => if total >= guard_size {
                        M::probestack_insts(total)
                    } else {
                        Seq::empty()
                    },
                }
            } else {
                Seq::empty()
            };
            check + probe
        } else {
            Seq::empty()
        }
    }

    /// The prologue: frame setup, checks, then the saving of the
    /// overwritten callee-saved registers.
    pub open spec fn spec_prologue(&self) -> Seq<M::I> {
        let layout = self.frame_layout->Some_0@;
        M::prologue_frame_setup_insts(self.call_conv, self.flags, &self.isa_flags, layout)
            + self.spec_prologue_checks() + M::clobber_save_insts(
            self.call_conv,
            self.flags,
            layout,
        )
    }

    /// The epilogue: the prologue's steps undone in reverse order, then
    /// the return.
    pub open spec fn spec_epilogue(&self) -> Seq<M::I> {
        let layout = self.frame_layout->Some_0@;
        M::clobber_restore_insts(self.call_conv, self.flags, layout)
            + M::epilogue_frame_restore_insts(self.call_conv, self.flags, &self.isa_flags, layout)
            + M::return_insts(self.call_conv, &self.isa_flags, layout)
    }

    /// The frame layout is computed and the stack that the prologue checks
    /// can be counted in 32 bits.
    pub open spec fn laid_out(&self) -> bool {
        &&& self.frame_layout is Some
        &&& self.frame_layout->Some_0.tail_args_size >= self.frame_layout->Some_0.incoming_args_size
        &&& self.spec_checked_stack() <= u32::MAX
        &&& self.flags.enable_probestack ==> self.flags.probestack_size_log2 < 32
    }

    /// Appends the check of the stack pointer against `stack_limit` for a
    /// frame of `stack_size` bytes.
    pub fn insert_stack_check(&self, stack_limit: Reg, stack_size: u32, insts: &mut Vec<M::I>)
        ensures
            final(insts)@ == old(insts)@ + spec_stack_check::<M>(
                self.call_conv,
                stack_limit,
                stack_size,
            ),
    {
        let ghost before = insts@;
        if stack_size == 0 {
            let mut trap = M::gen_stack_lower_bound_trap(stack_limit);
            insts.append(&mut trap);
            return ;
        }
        if stack_size >= 32 * 1024 {
            let mut trap = M::gen_stack_lower_bound_trap(stack_limit);
            insts.append(&mut trap);
        }
        let scratch = Writable::from_reg(M::get_stacklimit_reg(self.call_conv));
        let mut sum = M::gen_add_imm(self.call_conv, scratch, stack_limit, stack_size);
        insts.append(&mut sum);
        let mut trap = M::gen_stack_lower_bound_trap(scratch.to_reg());
        insts.append(&mut trap);
        proof {
            assert(insts@ =~= before + spec_stack_check::<M>(
                self.call_conv,
                stack_limit,
                stack_size,
            ));
        }
    }

    /// The signature, with the pointer to a returned structure among its
    /// return values.
    pub fn signature(&self) -> (sig: &Signature)
        requires
            self.wf(),
        ensures
            *sig == self.ir_sig,
            !spec_missing_struct_return(sig),
    {
        &self.ir_sig
    }

    /// Allocates the register for the pointer to the return area, if the
    /// signature has such a pointer.
    pub fn init_retval_area(&mut self, sigs: &SigSet, vregs: &mut VRegAllocator) -> (r: Result<
        (),
        CodegenError,
    >)
        requires
            old(self).in_sigs(sigs),
        ensures
            ({
                let word_ty = spec_word_type(M::spec_word_bits());
                if sigs.spec_sigs()[old(self).sig.0 as int].stack_ret_arg is Some {
                    if old(vregs)@.can_alloc(word_ty) {
                        &&& r is Ok
                        &&& final(vregs)@ == old(vregs)@.step(word_ty)
                        &&& *final(self) == (Callee {
                            ret_area_ptr: Some(old(vregs)@.tmp(word_ty)),
                            ..*old(self)
                        })
                    } else {
                        &&& r == Err::<(), CodegenError>(CodegenError::CodeTooLarge)
                        &&& final(vregs)@ == old(vregs)@
                        &&& *final(self) == *old(self)
                    }
                } else {
                    r is Ok && final(vregs)@ == old(vregs)@ && *final(self) == *old(self)
                }
            }),
    {
        if sigs.get(self.sig).stack_ret_arg.is_some() {
            let ret_area_ptr = match vregs.alloc_vregs(M::word_type()) {
                Ok(regs) => regs,
                Err(e) => {
                    return Err(e);
                },
            };
            self.ret_area_ptr = Some(ret_area_ptr.get(0));
        }
        Ok(())
    }

    /// The register that holds the pointer to the return area, if any.
    pub fn ret_area_ptr(&self) -> (r: Option<Reg>)
        ensures
            r == self.ret_area_ptr,
    {
        self.ret_area_ptr
    }

    /// Makes sure that the outgoing argument area holds `size` bytes: the
    /// area is as large as the largest size asked for.
    pub fn accumulate_outgoing_args_size(&mut self, size: u32)
        ensures
            *final(self) == (Callee {
                outgoing_args_size: if size > old(self).outgoing_args_size {
                    size
                } else {
                    old(self).outgoing_args_size
                },
                ..*old(self)
            }),
    {
        if size > self.outgoing_args_size {
            self.outgoing_args_size = size;
        }
    }

    /// Makes sure that the incoming argument area holds `size` bytes, for
    /// a tail call whose arguments take that much.
    pub fn accumulate_tail_args_size(&mut self, size: u32)
        ensures
            *final(self) == (Callee {
                tail_args_size: if size > old(self).tail_args_size {
                    size
                } else {
                    old(self).tail_args_size
                },
                ..*old(self)
            }),
    {
        if size > self.tail_args_size {
            self.tail_args_size = size;
        }
    }

    /// Is control-flow integrity for forward edges switched on?
    pub fn is_forward_edge_cfi_enabled(&self) -> (b: bool)
        ensures
            b == self.isa_flags.spec_is_forward_edge_cfi_enabled(),
    {
        self.isa_flags.is_forward_edge_cfi_enabled()
    }

    /// The calling convention of the function.
    pub fn call_conv(&self) -> (cc: CallConv)
        ensures
            cc == self.call_conv,
    {
        self.call_conv
    }

    /// The offsets of the stack slots of fixed size.
    pub fn sized_stackslot_offsets(&self) -> (offsets: &Vec<u32>)
        ensures
            offsets@ == self.sized_stackslots@,
    {
        &self.sized_stackslots
    }

    /// The offsets of the dynamic stack slots.
    pub fn dynamic_stackslot_offsets(&self) -> (offsets: &Vec<u32>)
        ensures
            offsets@ == self.dynamic_stackslots@,
    {
        &self.dynamic_stackslots
    }

    /// The instruction, if one is needed, that brings the pointer to the
    /// return area into its register: the copy of the argument that
    /// carries the pointer.
    pub fn gen_retval_area_setup(
        &mut self,
        sigs: &SigSet,
        vregs: &mut VRegAllocator,
    ) -> (inst: Option<
        M::I,
    >)
        requires
            old(self).in_sigs(sigs),
            sigs.spec_sigs()[old(self).sig.0 as int].stack_ret_arg is Some ==> old(
                self,
            ).ret_area_ptr is Some,
        ensures
            match sigs.spec_sigs()[old(self).sig.0 as int].stack_ret_arg {
                Some(i) => {
                    let copy = spec_copy_arg::<M>(
                        sigs.spec_args(old(self).sig)[i as int]@,
                        old(self).spec_sig_call_conv(sigs),
                        old(self).spec_stack_args_size(sigs),
                        seq![Writable { reg: old(self).ret_area_ptr->Some_0 }],
                        old(vregs)@,
                    );
                    &&& inst == (if copy.insts.len() > 0 {
                        Some(copy.insts[0])
                    } else {
                        None
                    })
                    &&& final(self).reg_args@ == old(self).reg_args@ + copy.reg_args
                    &&& final(vregs)@ == copy.vregs
                    &&& *final(self) == (Callee { reg_args: final(self).reg_args, ..*old(self) })
                },
                None => inst is None && *final(self) == *old(self) && final(vregs)@ == old(vregs)@,
            },
    {
        proof {
            assert(sigs.entry_wf(self.sig.0 as int));
        }
        if let Some(i) = sigs.get(self.sig).stack_ret_arg {
            let ptr = match self.ret_area_ptr {
                Some(ptr) => ptr,
                None => vstd::pervasive::unreached(),
            };
            let ret_area_ptr = Writable::from_reg(ptr);
            proof {
                let data = sigs.spec_sigs()[self.sig.0 as int];
                assert(
                    sigs.spec_args(self.sig)[i as int] == sigs.spec_abi_args()[data.rets_end + i]
                );
            }
            let mut insts = self.gen_copy_arg_to_regs(
                sigs,
                i as usize,
                ValueRegs::one(ret_area_ptr),
                vregs,
            );
            if insts.len() > 0 {
                Some(insts.swap_remove(0))
            } else {
                None
            }
        } else {
            None
        }
    }

    /// The pseudo-instruction that binds the returned registers.
    pub fn gen_rets(&self, rets: Vec<RetPair>) -> (inst: M::I)
        ensures
            inst == M::rets_inst(rets@),
    {
        M::gen_rets(rets)
    }

    /// The instruction that computes the address `offset` bytes into a
    /// stack slot of fixed size.
    pub fn sized_stackslot_addr(&self, slot: usize, offset: u32, into_reg: Writable<Reg>) -> (inst:
        M::I)
        requires
            slot < self.sized_stackslots@.len(),
        ensures
            inst == M::get_stack_addr_inst(
                StackAMode::Slot((self.sized_stackslots@[slot as int] + offset) as i64),
                into_reg,
            ),
    {
        let stack_off = self.sized_stackslots[slot] as i64;
        let sp_off: i64 = stack_off + (offset as i64);
        M::gen_get_stack_addr(StackAMode::Slot(sp_off), into_reg)
    }

    /// The instruction that computes the address of a dynamic stack slot.
    pub fn dynamic_stackslot_addr(&self, slot: usize, into_reg: Writable<Reg>) -> (inst: M::I)
        requires
            slot < self.dynamic_stackslots@.len(),
        ensures
            inst == M::get_stack_addr_inst(
                StackAMode::Slot(self.dynamic_stackslots@[slot as int] as i64),
                into_reg,
            ),
    {
        let stack_off = self.dynamic_stackslots[slot] as i64;
        M::gen_get_stack_addr(StackAMode::Slot(stack_off), into_reg)
    }

    /// The pseudo-instruction that binds all incoming register arguments
    /// gathered so far, to stand at the very top of the function; none if
    /// there are no such arguments. The gathered bindings are handed out
    /// once.
    pub fn take_args(&mut self) -> (inst: Option<M::I>)
        ensures
            inst == (if old(self).reg_args@.len() > 0 {
                Some(M::args_inst(old(self).reg_args@))
            } else {
                None
            }),
            final(self).reg_args@ == Seq::<ArgPair>::empty(),
            *final(self) == (Callee { reg_args: final(self).reg_args, ..*old(self) }),
    {
        if self.reg_args.len() > 0 {
            let mut taken: Vec<ArgPair> = Vec::new();
            core::mem::swap(&mut self.reg_args, &mut taken);
            Some(M::gen_args(taken))
        } else {
            proof {
                assert(self.reg_args@ =~= Seq::<ArgPair>::empty());
            }
            None
        }
    }

    /// Computes the frame layout, once register allocation has fixed the
    /// number of spill slots and the registers that are overwritten.
    ///
    /// The fixed storage holds the stack slots and the spill slots and is
    /// rounded up to the stack alignment, so its size is a multiple of the
    /// alignment. The active size of the frame is the sum of the outgoing
    /// arguments, the fixed storage and the saved registers.
    pub fn compute_frame_layout(
        &mut self,
        sigs: &SigSet,
        spillslots: usize,
        clobbered: Vec<Writable<RealReg>>,
    )
        requires
            old(self).wf(),
            old(self).in_sigs(sigs),
            old(self).frame_layout is None,
            old(self).stackslots_size + (M::spec_word_bits() / 8) * spillslots
                + M::spec_stack_align(old(self).call_conv) <= u32::MAX,
        ensures
            ({
                let total = spec_total_stacksize(
                    old(self).stackslots_size,
                    (M::spec_word_bits() / 8) as u32,
                    spillslots,
                    M::spec_stack_align(old(self).call_conv),
                );
                &&& total % M::spec_stack_align(old(self).call_conv) == 0
                &&& final(self).frame_layout is Some
                &&& final(self).frame_layout->Some_0.fixed_frame_storage_size == total
                &&& final(self).frame_layout->Some_0.stackslots_size == old(self).stackslots_size
                &&& final(self).frame_layout->Some_0.outgoing_args_size == old(
                    self,
                ).outgoing_args_size
                &&& final(self).frame_layout->Some_0.spec_active_size() == old(
                    self,
                ).outgoing_args_size + total + final(self).frame_layout->Some_0.clobber_size
                &&& final(self).frame_layout->Some_0@ == M::frame_layout(
                    old(self).call_conv,
                    old(self).flags,
                    &old(self).ir_sig,
                    clobbered@,
                    old(self).is_leaf,
                    old(self).spec_stack_args_size(sigs),
                    old(self).tail_args_size,
                    old(self).stackslots_size,
                    total,
                    old(self).outgoing_args_size,
                )
            }),
            *final(self) == (Callee { frame_layout: final(self).frame_layout, ..*old(self) }),
    {
        let bytes = M::word_bytes();
        let align = M::stack_align(self.call_conv);
        assert(bytes * spillslots <= u32::MAX && bytes * spillslots >= 0) by (nonlinear_arith)
            requires
                self.stackslots_size + bytes * spillslots + align <= u32::MAX,
                bytes >= 0,
                spillslots >= 0,
        ;
        assert(spillslots <= bytes * spillslots) by (nonlinear_arith)
            requires
                bytes >= 4,
                spillslots >= 0,
        ;
        proof {
            lemma_total_stacksize_aligned(self.stackslots_size, bytes, spillslots, align);
        }
        let total_stacksize = self.stackslots_size + bytes * (spillslots as u32);
        let mask = align - 1;
        let total_stacksize = (total_stacksize + mask) & !mask;
        let layout = M::compute_frame_layout(
            self.call_conv,
            &self.flags,
            self.signature(),
            &clobbered,
            self.is_leaf,
            self.stack_args_size(sigs),
            self.tail_args_size,
            self.stackslots_size,
            total_stacksize,
            self.outgoing_args_size,
        );
        self.frame_layout = Some(layout);
    }

    /// Emits the prologue.
    pub fn gen_prologue(&self) -> (insts: Vec<M::I>)
        requires
            self.laid_out(),
        ensures
            insts@ == self.spec_prologue(),
    {
        let frame_layout = self.frame_layout();
        let mut insts: Vec<M::I> = Vec::new();

        let mut setup = M::gen_prologue_frame_setup(
            self.call_conv,
            &self.flags,
            &self.isa_flags,
            frame_layout,
        );
        insts.append(&mut setup);
        let ghost after_setup = insts@;

        let total_stacksize = (frame_layout.tail_args_size - frame_layout.incoming_args_size)
            + frame_layout.clobber_size + frame_layout.fixed_frame_storage_size
            + frame_layout.outgoing_args_size + if self.is_leaf {
            0
        } else {
            frame_layout.setup_area_size
        };

        if total_stacksize > 0 || !self.is_leaf {
            if let Some((reg, stack_limit_load)) = &self.stack_limit {
                let mut i: usize = 0;
                while i < stack_limit_load.len()
                    invariant
                        i <= stack_limit_load@.len(),
                        insts@ == after_setup + stack_limit_load@.take(i as int),
                    decreases stack_limit_load@.len() - i,
                {
                    insts.push(M::clone_inst(&stack_limit_load[i]));
                    proof {
                        assert(stack_limit_load@.take(i + 1) =~= stack_limit_load@.take(
                            i as int,
                        ).push(stack_limit_load@[i as int]));
                    }
                    i += 1;
                }
                proof {
                    assert(stack_limit_load@.take(stack_limit_load@.len() as int)
                        =~= stack_limit_load@);
                }
                self.insert_stack_check(*reg, total_stacksize, &mut insts);
            }
            let ghost after_check = insts@;
            if self.flags.enable_probestack() {
                let guard_size: u32 = 1u32 << self.flags.probestack_size_log2();
                match self.flags.probestack_strategy() {
                    ProbestackStrategy::Inline => M::gen_inline_probestack(
                        &mut insts,
                        self.call_conv,
                        total_stacksize,
                        guard_size,
                    ),
                    ProbestackStrategy::Outline => {
                        if total_stacksize >= guard_size {
                            M::gen_probestack(&mut insts, total_stacksize);
                        }
                    },
                }
            }
            proof {
                assert(insts@ =~= after_setup + self.spec_prologue_checks());
            }
        } else {
            proof {
                assert(insts@ =~= after_setup + self.spec_prologue_checks());
            }
        }

        let mut save = M::gen_clobber_save(self.call_conv, &self.flags, frame_layout);
        insts.append(&mut save);
        insts
    }

    /// Emits the epilogue, the return included.
    pub fn gen_epilogue(&self) -> (insts: Vec<M::I>)
        requires
            self.frame_layout is Some,
        ensures
            insts@ == self.spec_epilogue(),
    {
        let frame_layout = self.frame_layout();
        let mut insts: Vec<M::I> = Vec::new();
        let mut restore = M::gen_clobber_restore(self.call_conv, &self.flags, frame_layout);
        insts.append(&mut restore);
        let mut teardown = M::gen_epilogue_frame_restore(
            self.call_conv,
            &self.flags,
            &self.isa_flags,
            frame_layout,
        );
        insts.append(&mut teardown);
        let mut ret = M::gen_return(self.call_conv, &self.isa_flags, frame_layout);
        insts.append(&mut ret);
        proof {
            assert(insts@ =~= self.spec_epilogue());
        }
        insts
    }

    /// The frame layout. It exists once `compute_frame_layout` has run.
    pub fn frame_layout(&self) -> (layout: &FrameLayout)
        requires
            self.frame_layout is Some,
        ensures
            *layout == self.frame_layout->Some_0,
    {
        match &self.frame_layout {
            Some(layout) => layout,
            None => vstd::pervasive::unreached(),
        }
    }

    /// The size of the frame: the saved registers and the fixed storage,
    /// without the arguments of calls.
    pub fn frame_size(&self) -> (n: u32)
        requires
            self.frame_layout is Some,
            self.frame_layout->Some_0.clobber_size
                + self.frame_layout->Some_0.fixed_frame_storage_size <= u32::MAX,
        ensures
            n == self.frame_layout->Some_0.clobber_size
                + self.frame_layout->Some_0.fixed_frame_storage_size,
    {
        let frame_layout = self.frame_layout();
        frame_layout.clobber_size + frame_layout.fixed_frame_storage_size
    }

    /// The distance from the base of the stack slots to the caller's
    /// stack pointer.
    pub fn slot_base_to_caller_sp_offset(&self) -> (n: u32)
        requires
            self.frame_layout is Some,
            self.frame_layout->Some_0.clobber_size
                + self.frame_layout->Some_0.fixed_frame_storage_size
                + self.frame_layout->Some_0.setup_area_size <= u32::MAX,
        ensures
            n == self.frame_layout->Some_0.clobber_size
                + self.frame_layout->Some_0.fixed_frame_storage_size
                + self.frame_layout->Some_0.setup_area_size,
    {
        let frame_layout = self.frame_layout();
        frame_layout.clobber_size + frame_layout.fixed_frame_storage_size
            + frame_layout.setup_area_size
    }

    /// The stack space that the function's arguments take.
    pub fn stack_args_size(&self, sigs: &SigSet) -> (n: u32)
        requires
            self.in_sigs(sigs),
        ensures
            n == self.spec_stack_args_size(sigs),
    {
        sigs.get(self.sig).sized_stack_arg_space
    }

    /// The number of spill slots that a value of class `rc` takes, for
    /// vectors as large as the largest dynamic type, or of 16 bytes where
    /// there is no dynamic type.
    pub fn get_spillslot_size(&self, rc: RegClass) -> (n: u32)
        ensures
            n == M::spec_number_of_spillslots_for_value(
                rc,
                if self.dynamic_type_sizes@.len() == 0 {
                    16
                } else {
                    spec_max_size(self.dynamic_type_sizes@)
                },
                &self.isa_flags,
            ),
    {
        let max = if self.dynamic_type_sizes.len() == 0 {
            16
        } else {
            let mut max: u32 = 0;
            let mut i: usize = 0;
            proof {
                assert(self.dynamic_type_sizes@.take(0) =~= Seq::<(Type, u32)>::empty());
            }
            while i < self.dynamic_type_sizes.len()
                invariant
                    i <= self.dynamic_type_sizes@.len(),
                    max == spec_max_size(self.dynamic_type_sizes@.take(i as int)),
                decreases self.dynamic_type_sizes@.len() - i,
            {
                proof {
                    assert(self.dynamic_type_sizes@.take(i + 1).drop_last()
                        =~= self.dynamic_type_sizes@.take(i as int));
                }
                if self.dynamic_type_sizes[i].1 >= max {
                    max = self.dynamic_type_sizes[i].1;
                }
                i += 1;
            }
            proof {
                assert(self.dynamic_type_sizes@.take(self.dynamic_type_sizes@.len() as int)
                    =~= self.dynamic_type_sizes@);
            }
            max
        };
        M::get_number_of_spillslots_for_value(rc, max, &self.isa_flags)
    }

    /// The offset of a spill slot from the stack pointer.
    pub fn get_spillslot_offset(&self, slot: SpillSlot) -> (off: i64)
        requires
            self.frame_layout is Some,
            self.frame_layout->Some_0.spec_spillslot_offset(slot) <= i64::MAX,
        ensures
            off == self.frame_layout->Some_0.spec_spillslot_offset(slot),
    {
        self.frame_layout().spillslot_offset(slot)
    }

    /// The store of a physical register to a spill slot.
    pub fn gen_spill(&self, to_slot: SpillSlot, from_reg: RealReg) -> (inst: M::I)
        requires
            self.frame_layout is Some,
            self.frame_layout->Some_0.spec_spillslot_offset(to_slot) <= i64::MAX,
        ensures
            inst == M::store_stack_inst(
                StackAMode::Slot(self.frame_layout->Some_0.spec_spillslot_offset(to_slot) as i64),
                Reg::Real(from_reg),
                M::spec_canonical_type_for_rc(from_reg.spec_class()),
            ),
    {
        let ty = M::canonical_type_for_rc(from_reg.class());
        let sp_off = self.get_spillslot_offset(to_slot);
        let from = StackAMode::Slot(sp_off);
        M::gen_store_stack(from, Reg::from_real(from_reg), ty)
    }

    /// The load of a physical register from a spill slot.
    pub fn gen_reload(&self, to_reg: Writable<RealReg>, from_slot: SpillSlot) -> (inst: M::I)
        requires
            self.frame_layout is Some,
            self.frame_layout->Some_0.spec_spillslot_offset(from_slot) <= i64::MAX,
        ensures
            inst == M::load_stack_inst(
                StackAMode::Slot(self.frame_layout->Some_0.spec_spillslot_offset(from_slot) as i64),
                Writable { reg: Reg::Real(to_reg.reg) },
                M::spec_canonical_type_for_rc(to_reg.reg.spec_class()),
            ),
    {
        let ty = M::canonical_type_for_rc(to_reg.to_reg().class());
        let sp_off = self.get_spillslot_offset(from_slot);
        let from = StackAMode::Slot(sp_off);
        M::gen_load_stack(from, Writable::from_reg(Reg::from_real(to_reg.to_reg())), ty)
    }
}

/// The number of return values that arrive on the stack.
pub open spec fn spec_stack_rets(defs: Seq<CallRetPair>) -> nat
    decreases defs.len(),
{
    if defs.len() == 0 {
        0
    } else {
        spec_stack_rets(defs.drop_last()) + (if defs.last().location is Stack {
            1nat
        } else {
            0nat
        })
    }
}

/// The number of machine words that a value of type `ty` takes.
pub open spec fn spec_word_parts(ty: Type, word_bytes: u32) -> u32 {
    ((ty.spec_bytes() + word_bytes - 1) / (word_bytes as int)) as u32
}

/// Moves the first `parts` machine words of a return value from its place
/// on the stack to a spill slot, each through the register `temp`.
pub open spec fn spec_move_parts<M: ABIMachineSpec>(
    amode: StackAMode,
    spillslot: SpillSlot,
    stackslots_size: u32,
    temp: Writable<Reg>,
    parts: nat,
) -> Seq<M::I>
    decreases parts,
{
    if parts == 0 {
        Seq::empty()
    } else {
        let part = (parts - 1) as int;
        let word_bytes = (M::spec_word_bits() / 8) as int;
        let word_ty = spec_word_type(M::spec_word_bits());
        spec_move_parts::<M>(amode, spillslot, stackslots_size, temp, (parts - 1) as nat).push(
            M::load_stack_inst(
                amode.spec_with_offset((amode.spec_offset() + part * word_bytes) as i64),
                temp,
                word_ty,
            ),
        ).push(
            M::store_stack_inst(
                StackAMode::Slot((stackslots_size + word_bytes * (spillslot.index + part)) as i64),
                temp.reg,
                word_ty,
            ),
        )
    }
}

/// The loads that fetch the return values that arrive on the stack: a
/// value whose register was spilled is moved word by word to its spill
/// slot, any other is loaded into its register.
pub open spec fn spec_retval_loads<M: ABIMachineSpec>(
    defs: Seq<CallRetPair>,
    callee_conv: CallConv,
    stackslots_size: u32,
) -> Seq<M::I>
    decreases defs.len(),
{
    if defs.len() == 0 {
        Seq::empty()
    } else {
        let before = spec_retval_loads::<M>(defs.drop_last(), callee_conv, stackslots_size);
        match defs.last().location {
            RetLocation::Reg(_, _) => before,
            RetLocation::Stack(amode, ty) => match defs.last().vreg.reg {
                Reg::Spill(spillslot) => before + spec_move_parts::<M>(
                    amode,
                    spillslot,
                    stackslots_size,
                    M::spec_retval_temp_reg(callee_conv),
                    spec_word_parts(ty, (M::spec_word_bits() / 8) as u32) as nat,
                ),
                _ => before.push(M::load_stack_inst(amode, defs.last().vreg, ty)),
            },
        }
    }
}

impl<T> CallInfo<T> {
    /// The temporary register is one that the call overwrites and is no
    /// register of a return value, and every place on the stack can be
    /// addressed word by word.
    pub open spec fn loads_wf<M: ABIMachineSpec>(&self) -> bool {
        let temp = M::spec_retval_temp_reg(self.callee_conv);
        &&& temp.reg is Real
        &&& M::regs_clobbered_by_call(self.callee_conv, self.try_call_info is Some).contains(
            temp.reg->Real_0.spec_index(),
        )
        &&& forall|k: int|
            0 <= k < self.defs@.len() ==> match (#[trigger] self.defs@[k]).location {
                RetLocation::Reg(preg, _) => preg != temp.reg,
                RetLocation::Stack(amode, _) => {
                    &&& amode.spec_offset() + 32 <= i64::MAX
                    &&& !(self.defs@[k].vreg.reg is Spill) ==> self.defs@[k].vreg != temp
                },
            }
    }

    /// The room in bytes that the loads of the return values need: ten
    /// instructions of the largest size for each value on the stack.
    pub fn retval_loads_space<M: ABIMachineSpec>(&self) -> (space: u32)
        requires
            10 * M::spec_worst_case_size() * spec_stack_rets(self.defs@) <= u32::MAX,
        ensures
            space == 10 * M::spec_worst_case_size() * spec_stack_rets(self.defs@),
    {
        let worst = M::worst_case_size();
        let n = self.defs.len();
        let mut space_needed: u32 = 0;
        let mut k: usize = 0;
        proof {
            assert(self.defs@.take(0) =~= Seq::<CallRetPair>::empty());
            assert(self.defs@.take(n as int) =~= self.defs@);
            lemma_stack_rets_monotone(self.defs@, 0);
        }
        while k < n
            invariant
                k <= n,
                n == self.defs@.len(),
                worst == M::spec_worst_case_size(),
                10 * worst * spec_stack_rets(self.defs@) <= u32::MAX,
                space_needed == 10 * worst * spec_stack_rets(self.defs@.take(k as int)),
            decreases n - k,
        {
            let def = self.defs.get(k);
            proof {
                assert(self.defs@.take(k + 1).drop_last() =~= self.defs@.take(k as int));
                assert(self.defs@.take(k + 1).last() == def);
                lemma_stack_rets_monotone(self.defs@, k + 1);
                let a = spec_stack_rets(self.defs@.take(k + 1));
                let b = spec_stack_rets(self.defs@);
                let c = spec_stack_rets(self.defs@.take(k as int));
                assert(10 * worst * a <= 10 * worst * b) by (nonlinear_arith)
                    requires
                        a <= b,
                        worst >= 0,
                ;
                assert(10 * worst * (c + 1) == 10 * worst * c + 10 * worst) by (nonlinear_arith);
            }
            match def.location {
                RetLocation::Stack(_, _) => {
                    space_needed = space_needed + 10 * worst;
                },
                _ => {},
            }
            k += 1;
        }
        space_needed
    }

    /// The instructions that fetch the return values that arrive on the
    /// stack once the call has come back.
    ///
    /// `island` is the instruction, if one is needed, that makes room
    /// for `retval_loads_space` bytes of code; it comes first, and is
    /// left out where no return value arrives on the stack.
    pub fn emit_retval_loads<M: ABIMachineSpec>(&self, stackslots_size: u32, island: Option<M::I>) -> (insts:
        Vec<M::I>)
        requires
            self.loads_wf::<M>(),
        ensures
            insts@ == (if spec_stack_rets(self.defs@) > 0 && island is Some {
                seq![island->Some_0]
            } else {
                Seq::empty()
            }) + spec_retval_loads::<M>(self.defs@, self.callee_conv, stackslots_size),
    {
        let mut insts: Vec<M::I> = Vec::new();
        let n = self.defs.len();
        let mut any_on_stack = false;
        let mut k: usize = 0;
        proof {
            assert(self.defs@.take(0) =~= Seq::<CallRetPair>::empty());
        }
        while k < n
            invariant
                k <= n,
                n == self.defs@.len(),
                any_on_stack == (spec_stack_rets(self.defs@.take(k as int)) > 0),
            decreases n - k,
        {
            let def = self.defs.get(k);
            proof {
                assert(self.defs@.take(k + 1).drop_last() =~= self.defs@.take(k as int));
                assert(self.defs@.take(k + 1).last() == def);
            }
            match def.location {
                RetLocation::Stack(_, _) => {
                    any_on_stack = true;
                },
                _ => {},
            }
            k += 1;
        }
        proof {
            assert(self.defs@.take(n as int) =~= self.defs@);
        }
        if any_on_stack {
            if let Some(island_inst) = island {
                insts.push(island_inst);
            }
        }
        let ghost head = insts@;

        let temp = M::retval_temp_reg(self.callee_conv);
        let word_bytes = M::word_bytes();
        let word_ty = M::word_type();
        let mut k: usize = 0;
        proof {
            assert(head + Seq::<M::I>::empty() =~= head);
        }
        while k < n
            invariant
                k <= n,
                n == self.defs@.len(),
                self.loads_wf::<M>(),
                temp == M::spec_retval_temp_reg(self.callee_conv),
                word_bytes == M::spec_word_bits() / 8,
                word_bytes == 4 || word_bytes == 8,
                word_ty == spec_word_type(M::spec_word_bits()),
                insts@ == head + spec_retval_loads::<M>(
                    self.defs@.take(k as int),
                    self.callee_conv,
                    stackslots_size,
                ),
            decreases n - k,
        {
            let def = self.defs.get(k);
            let ghost before = spec_retval_loads::<M>(
                self.defs@.take(k as int),
                self.callee_conv,
                stackslots_size,
            );
            proof {
                assert(self.defs@.take(k + 1).drop_last() =~= self.defs@.take(k as int));
                assert(self.defs@.take(k + 1).last() == def);
                assert(self.defs@[k as int] == def);
            }
            match def.location {
                RetLocation::Reg(_, _) => {},
                RetLocation::Stack(amode, ty) => {
                    if let Some(spillslot) = def.vreg.to_reg().to_spillslot() {
                        let parts = (ty.bytes() + word_bytes - 1) / word_bytes;
                        let mut part: u32 = 0;
                        proof {
                            assert(head + before + Seq::<M::I>::empty() =~= head + before);
                        }
                        while part < parts
                            invariant
                                part <= parts,
                                parts == spec_word_parts(ty, word_bytes),
                                parts <= 4,
                                amode.spec_offset() + 32 <= i64::MAX,
                                temp == M::spec_retval_temp_reg(self.callee_conv),
                                word_bytes == M::spec_word_bits() / 8,
                                word_bytes == 4 || word_bytes == 8,
                                word_ty == spec_word_type(M::spec_word_bits()),
                                insts@ == head + before + spec_move_parts::<M>(
                                    amode,
                                    spillslot,
                                    stackslots_size,
                                    temp,
                                    part as nat,
                                ),
                            decreases parts - part,
                        {
                            let ghost moved = spec_move_parts::<M>(
                                amode,
                                spillslot,
                                stackslots_size,
                                temp,
                                part as nat,
                            );
                            insts.push(
                                M::gen_load_stack(
                                    amode.offset_by(part * word_bytes),
                                    temp,
                                    word_ty,
                                ),
                            );
                            let index = spillslot.index as i64 + part as i64;
                            assert(0 <= (word_bytes as i64) * index <= 8 * index) by (
                                nonlinear_arith
                            )
                                requires
                                    0 <= word_bytes <= 8,
                                    0 <= index,
                            ;
                            let slot_off = stackslots_size as i64 + (word_bytes as i64) * index;
                            insts.push(
                                M::gen_store_stack(
                                    StackAMode::Slot(slot_off),
                                    temp.to_reg(),
                                    word_ty,
                                ),
                            );
                            proof {
                                let n1 = insts@.len() as int;
                                assert(insts@ =~= head + before + moved.push(insts@[n1 - 2]).push(
                                    insts@[n1 - 1],
                                ));
                            }
                            part += 1;
                        }
                        proof {
                            assert(head + before + spec_move_parts::<M>(
                                amode,
                                spillslot,
                                stackslots_size,
                                temp,
                                parts as nat,
                            ) =~= head + (before + spec_move_parts::<M>(
                                amode,
                                spillslot,
                                stackslots_size,
                                temp,
                                parts as nat,
                            )));
                        }
                    } else {
                        insts.push(M::gen_load_stack(amode, def.vreg, ty));
                        proof {
                            assert(insts@ =~= head + before.push(insts@.last()));
                        }
                    }
                },
            }
            k += 1;
        }
        proof {
            assert(self.defs@.take(n as int) =~= self.defs@);
        }
        insts
    }
}

/// A prefix of the return values has no more values on the stack than
/// all of them.
pub proof fn lemma_stack_rets_monotone(defs: Seq<CallRetPair>, n: int)
    requires
        0 <= n <= defs.len(),
    ensures
        spec_stack_rets(defs.take(n)) <= spec_stack_rets(defs),
    decreases defs.len() - n,
{
    if n < defs.len() {
        assert(defs.take(n + 1).drop_last() =~= defs.take(n));
        lemma_stack_rets_monotone(defs, n + 1);
    } else {
        assert(defs.take(n) =~= defs);
    }
}

} // verus!
