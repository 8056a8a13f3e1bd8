use abi_interp::abi::{
    ABIArg, ABIArgSlot, ABIMachineSpec, ArgPair, ArgsAccumulator, CallArgPair, CallInfo,
    CallRetPair, ExceptionContextLoc, ExceptionTag, MachExceptionHandler, MachLabel, RetLocation,
    RetPair, StackAMode, TryCallHandler, TryCallInfo,
};
use abi_interp::callee::{can_make_callee, checked_round_up, gv_reachable, Callee};
use abi_interp::frame::FrameLayout;
use abi_interp::ir::{
    AbiParam, ArgumentExtension, ArgumentPurpose, CallConv, CodegenError, DynamicStackSlotData,
    Flags, Function, GlobalValueData, ProbestackStrategy, Signature, StackSlotData, Type,
};
use abi_interp::lists::{ABIArgSlotVec, CallArgList, CallRetList};
use abi_interp::pulley_abi::{ArgPairs, PulleyFlags, PulleyInst, PulleyMachineDeps, RetPairs};
use abi_interp::reg::{
    writable_value_regs, RealReg, Reg, RegClass, SpillSlot, VRegAllocator, ValueRegs, VirtualReg,
    Writable,
};
use abi_interp::sigset::{resolvable, same_signature, Sig, SigData, SigSet};
use regalloc2::PReg;

type M = PulleyMachineDeps;

fn flags() -> Flags {
    Flags {
        enable_multi_ret_implicit_sret: true,
        enable_probestack: false,
        probestack_size_log2: 12,
        probestack_strategy: ProbestackStrategy::Outline,
        libcall_call_conv: None,
    }
}

fn signature(call_conv: CallConv, params: &[Type], returns: &[Type]) -> Signature {
    let mut sig = Signature::new(call_conv);
    for ty in params {
        sig.params.push(AbiParam::new(*ty));
    }
    for ty in returns {
        sig.returns.push(AbiParam::new(*ty));
    }
    sig
}

fn function(signature: Signature) -> Function {
    Function {
        signature,
        sized_stack_slots: Vec::new(),
        dynamic_stack_slots: Vec::new(),
        dynamic_types: Vec::new(),
        global_values: Vec::new(),
        stack_limit: None,
        is_leaf: true,
    }
}

fn x(n: u8) -> RealReg {
    RealReg::new(n, RegClass::Int)
}

fn xr(n: u8) -> Reg {
    Reg::from_real(x(n))
}

fn v(index: u32) -> Reg {
    Reg::Virtual(VirtualReg { index, class: RegClass::Int })
}

fn slots_of(arg: &ABIArg) -> Vec<ABIArgSlot> {
    match arg {
        ABIArg::Slots { slots, .. } => (0..slots.len()).map(|i| slots.get(i)).collect(),
        _ => panic!("not in slots"),
    }
}

// A signature whose 17 integer return values need two stack slots, so
// that the caller passes a pointer to a return area.
fn many_returns() -> Signature {
    signature(CallConv::Fast, &[Type::I32, Type::I64], &[Type::I64; 17])
}

#[test]
fn sig_data_size() {
    // The size of `SigData` is performance sensitive, so make sure
    // we don't regress it unintentionally.
    assert_eq!(std::mem::size_of::<SigData>(), 24);
}

#[test]
fn machine_word() {
    assert_eq!(M::word_bits(), 64);
    assert_eq!(M::word_bytes(), 8);
    assert_eq!(M::word_type(), Type::I64);
    assert_eq!(M::stack_align(CallConv::Fast), 16);
}

#[test]
fn type_widths() {
    assert_eq!(Type::I8.bits(), 8);
    assert_eq!(Type::I128.bytes(), 16);
    assert_eq!(Type::F32.bytes(), 4);
    assert!(Type::I16.is_int());
    assert!(!Type::V128.is_int());
}

#[test]
fn slot_type() {
    let slot = ABIArgSlot::Stack { offset: 8, ty: Type::I32, extension: ArgumentExtension::Sext };
    assert_eq!(slot.get_type(), Type::I32);
    assert_eq!(slot.extension(), ArgumentExtension::Sext);
    let slot = ABIArgSlot::Reg { reg: x(3), ty: Type::F64, extension: ArgumentExtension::NoExt };
    assert_eq!(slot.get_type(), Type::F64);
}

#[test]
fn arg_in_one_register_or_stack_slot() {
    let arg = ABIArg::reg(x(2), Type::I64, ArgumentExtension::Uext, ArgumentPurpose::VMContext);
    assert_eq!(
        slots_of(&arg),
        vec![ABIArgSlot::Reg { reg: x(2), ty: Type::I64, extension: ArgumentExtension::Uext }]
    );
    let arg = ABIArg::stack(24, Type::I32, ArgumentExtension::NoExt, ArgumentPurpose::Normal);
    assert_eq!(
        slots_of(&arg),
        vec![ABIArgSlot::Stack { offset: 24, ty: Type::I32, extension: ArgumentExtension::NoExt }]
    );
    let copy = arg.clone();
    assert_eq!(slots_of(&copy), slots_of(&arg));
}

#[test]
fn slot_list_grows_by_push() {
    let a = ABIArgSlot::Stack { offset: 0, ty: Type::I64, extension: ArgumentExtension::NoExt };
    let b = ABIArgSlot::Stack { offset: 8, ty: Type::I64, extension: ArgumentExtension::NoExt };
    let mut list = ABIArgSlotVec::new();
    assert_eq!(list.len(), 0);
    list.push(a);
    list.push(b);
    assert_eq!(list.len(), 2);
    assert_eq!(list.get(0), a);
    assert_eq!(list.get(1), b);
    let copy = list.clone();
    assert_eq!(copy.len(), 2);
    assert_eq!(copy.get(1), b);
}

#[test]
fn stack_amode_offset_by() {
    assert_eq!(StackAMode::IncomingArg(8, 32).offset_by(16), StackAMode::IncomingArg(24, 32));
    assert_eq!(StackAMode::Slot(-8).offset_by(8), StackAMode::Slot(0));
    assert_eq!(StackAMode::OutgoingArg(0).offset_by(4), StackAMode::OutgoingArg(4));
}

#[test]
fn accumulator_keeps_earlier_runs() {
    let earlier = vec![ABIArg::stack(0, Type::I64, ArgumentExtension::NoExt, ArgumentPurpose::Normal)];
    let mut acc = ArgsAccumulator::new(earlier);
    assert_eq!(acc.args().len(), 0);
    acc.push(ABIArg::reg(x(0), Type::I32, ArgumentExtension::NoExt, ArgumentPurpose::Normal));
    acc.push_non_formal(
        ABIArg::reg(x(1), Type::I64, ArgumentExtension::NoExt, ArgumentPurpose::Normal),
    );
    assert_eq!(acc.args().len(), 2);
    assert_eq!(
        slots_of(&acc.args()[1]),
        vec![ABIArgSlot::Reg { reg: x(1), ty: Type::I64, extension: ArgumentExtension::NoExt }]
    );
    let all = acc.into_inner();
    assert_eq!(all.len(), 3);
    assert_eq!(
        slots_of(&all[0]),
        vec![ABIArgSlot::Stack { offset: 0, ty: Type::I64, extension: ArgumentExtension::NoExt }]
    );
}

#[test]
fn special_param_is_the_last_with_its_purpose() {
    let mut sig = signature(CallConv::Fast, &[Type::I64, Type::I64, Type::I32], &[]);
    sig.params[0].purpose = ArgumentPurpose::VMContext;
    sig.params[1].purpose = ArgumentPurpose::VMContext;
    assert_eq!(sig.special_param_index(ArgumentPurpose::VMContext), Some(1));
    assert_eq!(sig.special_param_index(ArgumentPurpose::StructReturn), None);
    assert!(sig.uses_special_param(ArgumentPurpose::VMContext));
    assert!(!sig.uses_special_return(ArgumentPurpose::VMContext));
    assert!(same_signature(&sig, &sig.clone()));
    assert!(!same_signature(&sig, &signature(CallConv::Fast, &[Type::I64], &[])));
}

#[test]
fn pulley_locations_registers_then_stack() {
    let params: Vec<AbiParam> = (0..18).map(|_| AbiParam::new(Type::I32)).collect();
    let mut acc = ArgsAccumulator::new(Vec::new());
    let r = M::compute_arg_locs(
        CallConv::Fast,
        &flags(),
        &params,
        abi_interp::abi::ArgsOrRets::Args,
        false,
        &mut acc,
    );
    // Sixteen registers, then two slots of eight bytes: 16 bytes of stack.
    assert_eq!(r, Ok((16, None)));
    let args = acc.into_inner();
    assert_eq!(args.len(), 18);
    assert_eq!(
        slots_of(&args[15]),
        vec![ABIArgSlot::Reg { reg: x(15), ty: Type::I32, extension: ArgumentExtension::NoExt }]
    );
    assert_eq!(
        slots_of(&args[16]),
        vec![ABIArgSlot::Stack { offset: 0, ty: Type::I32, extension: ArgumentExtension::NoExt }]
    );
    assert_eq!(
        slots_of(&args[17]),
        vec![ABIArgSlot::Stack { offset: 8, ty: Type::I32, extension: ArgumentExtension::NoExt }]
    );
}

#[test]
fn pulley_locations_by_class_and_wide_values() {
    let params = vec![
        AbiParam::new(Type::F64),
        AbiParam::new(Type::I128),
        AbiParam::new(Type::V128),
        AbiParam::new(Type::F32),
    ];
    let mut acc = ArgsAccumulator::new(Vec::new());
    let r = M::compute_arg_locs(
        CallConv::Fast,
        &flags(),
        &params,
        abi_interp::abi::ArgsOrRets::Args,
        true,
        &mut acc,
    );
    assert_eq!(r, Ok((0, Some(4))));
    let args = acc.into_inner();
    assert_eq!(args.len(), 5);
    let none = ArgumentExtension::NoExt;
    let f = |n| RealReg::new(n, RegClass::Float);
    assert_eq!(
        slots_of(&args[0]),
        vec![ABIArgSlot::Reg { reg: f(0), ty: Type::F64, extension: none }],
    );
    // The pointer to the return area has x0, so the wide integer takes
    // x1 and x2.
    assert_eq!(
        slots_of(&args[1]),
        vec![
            ABIArgSlot::Reg { reg: x(1), ty: Type::I64, extension: none },
            ABIArgSlot::Reg { reg: x(2), ty: Type::I64, extension: none },
        ]
    );
    assert_eq!(
        slots_of(&args[2]),
        vec![ABIArgSlot::Reg { reg: RealReg::new(0, RegClass::Vector), ty: Type::V128, extension: none }]
    );
    assert_eq!(
        slots_of(&args[3]),
        vec![ABIArgSlot::Reg { reg: f(1), ty: Type::F32, extension: none }],
    );
    assert_eq!(
        slots_of(&args[4]),
        vec![ABIArgSlot::Reg { reg: x(0), ty: Type::I64, extension: none }],
    );
}

#[test]
fn pulley_return_values_stay_in_registers_without_the_flag() {
    let mut no_stack_rets = flags();
    no_stack_rets.enable_multi_ret_implicit_sret = false;
    let params: Vec<AbiParam> = (0..16).map(|_| AbiParam::new(Type::I64)).collect();
    let mut acc = ArgsAccumulator::new(Vec::new());
    let r = M::compute_arg_locs(
        CallConv::Fast,
        &no_stack_rets,
        &params,
        abi_interp::abi::ArgsOrRets::Rets,
        false,
        &mut acc,
    );
    // Fifteen integer registers carry return values; the sixteenth value
    // finds none.
    assert_eq!(r, Err(CodegenError::Unsupported));
    assert_eq!(acc.args().len(), 15);
}

#[test]
fn pulley_rejects_struct_arguments() {
    let params = vec![AbiParam::special(Type::I64, ArgumentPurpose::StructArgument(24))];
    let mut acc = ArgsAccumulator::new(Vec::new());
    let r = M::compute_arg_locs(
        CallConv::Fast,
        &flags(),
        &params,
        abi_interp::abi::ArgsOrRets::Args,
        false,
        &mut acc,
    );
    assert_eq!(r, Err(CodegenError::Unsupported));
}

#[test]
fn intern_counts_params_and_returns() {
    let own = signature(CallConv::Fast, &[Type::I32, Type::I64, Type::F64], &[Type::I64]);
    let set = SigSet::new::<M>(&own, &Vec::new(), &flags()).unwrap();
    assert!(set.have_abi_sig_for_signature(&own));
    assert_eq!(set.abi_sig_for_signature(&own), Sig(0));
    assert_eq!(set.num_args(Sig(0)), 3);
    assert_eq!(set.args(Sig(0)).len(), 3);
    assert_eq!(set.num_rets(Sig(0)), 1);
    assert!(set.get_ret_arg(Sig(0)).is_none());
    assert_eq!(set.get(Sig(0)).stack_ret_arg(), None);
    assert_eq!(set.get(Sig(0)).sized_stack_arg_space(), 0);
    assert_eq!(set.get(Sig(0)).sized_stack_ret_space(), 0);
    assert_eq!(set.get(Sig(0)).call_conv(), CallConv::Fast);
}

#[test]
fn intern_round_trip_with_return_area() {
    let own = many_returns();
    let set = SigSet::new::<M>(&own, &Vec::new(), &flags()).unwrap();
    // Two declared arguments; the pointer to the return area is a third
    // location that `num_args` does not count.
    assert_eq!(set.num_args(Sig(0)), 2);
    assert_eq!(set.args(Sig(0)).len(), 3);
    assert_eq!(set.num_rets(Sig(0)), 17);
    // Fifteen results in registers, two in slots of eight bytes.
    assert_eq!(set.get(Sig(0)).sized_stack_ret_space(), 16);
}

#[test]
fn return_area_pointer_is_the_last_argument() {
    let own = many_returns();
    let set = SigSet::new::<M>(&own, &Vec::new(), &flags()).unwrap();
    assert_eq!(set.get(Sig(0)).stack_ret_arg(), Some(own.params.len() as u16));
    let ret_arg = set.get_ret_arg(Sig(0)).unwrap();
    assert_eq!(slots_of(&ret_arg), slots_of(&set.args(Sig(0))[own.params.len()]));
    assert_eq!(slots_of(&ret_arg), slots_of(&set.get_arg(Sig(0), 2)));
    // The pointer travels in x0, so the declared arguments begin at x1.
    assert_eq!(
        slots_of(&ret_arg),
        vec![ABIArgSlot::Reg { reg: x(0), ty: Type::I64, extension: ArgumentExtension::NoExt }]
    );
    assert_eq!(
        slots_of(&set.get_arg(Sig(0), 0)),
        vec![ABIArgSlot::Reg { reg: x(1), ty: Type::I32, extension: ArgumentExtension::NoExt }]
    );
    assert_eq!(
        slots_of(&set.get_ret(Sig(0), 16)),
        vec![ABIArgSlot::Stack { offset: 8, ty: Type::I64, extension: ArgumentExtension::NoExt }]
    );
}

#[test]
fn intern_by_reference_once() {
    let own = signature(CallConv::Fast, &[], &[]);
    let refs = vec![
        signature(CallConv::Fast, &[Type::I64], &[Type::I32]),
        signature(CallConv::Tail, &[Type::I64, Type::F32], &[]),
    ];
    let mut set = SigSet::new::<M>(&own, &refs, &flags()).unwrap();
    assert_eq!(set.abi_sig_for_sig_ref(0), Sig(1));
    assert_eq!(set.abi_sig_for_sig_ref(1), Sig(2));
    assert_eq!(set.num_args(Sig(2)), 2);
    assert_eq!(set.num_rets(Sig(1)), 1);
    assert_eq!(set.get(Sig(2)).call_conv(), CallConv::Tail);
    // Entering a reference again gives its identifier back.
    assert_eq!(set.make_abi_sig_from_ir_sig_ref::<M>(1, &refs, &flags()), Ok(Sig(2)));
    assert_eq!(set.num_args(Sig(0)), 0);
    // A signature entered by value later gets the next identifier, and
    // the earlier ones keep their locations.
    let late = signature(CallConv::Fast, &[Type::F64], &[Type::F64]);
    assert!(!set.have_abi_sig_for_signature(&late));
    assert_eq!(set.make_abi_sig_from_ir_signature::<M>(late.clone(), &flags()), Ok(Sig(3)));
    assert_eq!(set.abi_sig_for_signature(&late), Sig(3));
    assert_eq!(set.num_args(Sig(1)), 1);
    assert_eq!(Sig(3).prev(), Some(Sig(2)));
    assert_eq!(Sig(0).prev(), None);
}

#[test]
fn struct_return_parameter_is_returned() {
    let mut own = signature(CallConv::Fast, &[Type::I64, Type::I32], &[]);
    own.params[0].purpose = ArgumentPurpose::StructReturn;
    let set = SigSet::new::<M>(&own, &Vec::new(), &flags()).unwrap();
    assert_eq!(set.num_args(Sig(0)), 2);
    assert_eq!(set.num_rets(Sig(0)), 1);
    let callee = Callee::<M>::new(&function(own), &flags(), &PulleyFlags, &set).unwrap();
    assert_eq!(callee.signature().returns.len(), 1);
    assert_eq!(callee.signature().returns[0].purpose, ArgumentPurpose::StructReturn);
}

#[test]
fn interning_fails_when_a_signature_cannot_be_resolved() {
    let mut own = signature(CallConv::Fast, &[Type::I64], &[]);
    own.params[0].purpose = ArgumentPurpose::StructArgument(16);
    assert!(matches!(
        SigSet::new::<M>(&own, &Vec::new(), &flags()),
        Err(CodegenError::Unsupported)
    ));
}

#[test]
fn frame_layout_sizes() {
    let layout = FrameLayout {
        word_bytes: 8,
        incoming_args_size: 0,
        tail_args_size: 0,
        setup_area_size: 16,
        clobber_size: 16,
        fixed_frame_storage_size: 48,
        stackslots_size: 32,
        outgoing_args_size: 64,
        clobbered_callee_saves: vec![
            Writable::from_reg(x(16)),
            Writable::from_reg(x(17)),
            Writable::from_reg(RealReg::new(3, RegClass::Float)),
        ],
    };
    assert_eq!(layout.active_size(), 64 + 48 + 16);
    assert_eq!(layout.sp_to_sized_stack_slots(), 64);
    // Spill slots stand above the stack slots, one word each.
    assert_eq!(layout.spillslot_offset(SpillSlot::new(0)), 32);
    assert_eq!(layout.spillslot_offset(SpillSlot::new(3)), 32 + 3 * 8);
    let (ints, floats) = layout.clobbered_callee_saves_by_class();
    assert_eq!(ints.len(), 2);
    assert_eq!(floats.len(), 1);
    assert_eq!(floats[0].to_reg().hw_enc(), 3);
}

#[test]
fn round_up_checked() {
    assert_eq!(checked_round_up(0, 7), Some(0));
    assert_eq!(checked_round_up(1, 7), Some(8));
    assert_eq!(checked_round_up(17, 15), Some(32));
    assert_eq!(checked_round_up(u32::MAX - 3, 7), None);
}

#[test]
fn callee_places_stack_slots() {
    let own = signature(CallConv::Fast, &[], &[]);
    let set = SigSet::new::<M>(&own, &Vec::new(), &flags()).unwrap();
    let mut f = function(own);
    f.sized_stack_slots = vec![
        StackSlotData { size: 4, align_shift: 0 },
        StackSlotData { size: 1, align_shift: 4 },
        StackSlotData { size: 8, align_shift: 3 },
    ];
    f.dynamic_types = vec![Some(Type::V128)];
    f.dynamic_stack_slots = vec![DynamicStackSlotData { dyn_ty: 0 }];
    let callee = Callee::<M>::new(&f, &flags(), &PulleyFlags, &set).unwrap();
    // 0..4, then 16..17 at its alignment of 16, then 24..32, then the
    // dynamic slot of 16 bytes at 32.
    assert_eq!(callee.sized_stackslot_offsets(), &vec![0, 16, 24]);
    assert_eq!(callee.dynamic_stackslot_offsets(), &vec![32]);
    assert_eq!(callee.stackslots_size, 48);
    assert_eq!(callee.call_conv(), CallConv::Fast);
    assert_eq!(callee.ret_area_ptr(), None);
    assert!(!callee.is_forward_edge_cfi_enabled());
    assert_eq!(callee.get_spillslot_size(RegClass::Int), 1);
    assert_eq!(callee.get_spillslot_size(RegClass::Vector), 2);
    let into = Writable::from_reg(v(7));
    assert_eq!(
        callee.sized_stackslot_addr(1, 4, into),
        PulleyInst::GetStackAddr { mem: StackAMode::Slot(20), into_reg: into }
    );
    assert_eq!(
        callee.dynamic_stackslot_addr(0, into),
        PulleyInst::GetStackAddr { mem: StackAMode::Slot(32), into_reg: into }
    );
}

#[test]
fn callee_reports_slots_that_do_not_fit() {
    let own = signature(CallConv::Fast, &[], &[]);
    let set = SigSet::new::<M>(&own, &Vec::new(), &flags()).unwrap();
    let mut f = function(own.clone());
    f.sized_stack_slots = vec![
        StackSlotData { size: 8, align_shift: 0 },
        StackSlotData { size: u32::MAX - 8, align_shift: 0 },
    ];
    assert!(matches!(
        Callee::<M>::new(&f, &flags(), &PulleyFlags, &set),
        Err(CodegenError::ImplLimitExceeded)
    ));
    let mut f = function(own);
    f.dynamic_types = vec![None];
    f.dynamic_stack_slots = vec![DynamicStackSlotData { dyn_ty: 0 }];
    assert!(matches!(
        Callee::<M>::new(&f, &flags(), &PulleyFlags, &set),
        Err(CodegenError::Unsupported)
    ));
}

#[test]
fn argument_areas_only_grow() {
    let own = signature(CallConv::Fast, &[], &[]);
    let set = SigSet::new::<M>(&own, &Vec::new(), &flags()).unwrap();
    let mut callee = Callee::<M>::new(&function(own), &flags(), &PulleyFlags, &set).unwrap();
    callee.accumulate_outgoing_args_size(32);
    callee.accumulate_outgoing_args_size(16);
    assert_eq!(callee.outgoing_args_size, 32);
    callee.accumulate_tail_args_size(48);
    callee.accumulate_tail_args_size(8);
    assert_eq!(callee.tail_args_size, 48);
    assert_eq!(callee.stack_args_size(&set), 0);
}

#[test]
fn frame_layout_is_aligned_and_additive() {
    let own = signature(CallConv::Fast, &[], &[]);
    let set = SigSet::new::<M>(&own, &Vec::new(), &flags()).unwrap();
    let mut f = function(own);
    f.sized_stack_slots = vec![StackSlotData { size: 8, align_shift: 3 }];
    let mut callee = Callee::<M>::new(&f, &flags(), &PulleyFlags, &set).unwrap();
    callee.accumulate_outgoing_args_size(32);
    let clobbered = vec![
        Writable::from_reg(x(3)),
        Writable::from_reg(x(16)),
        Writable::from_reg(x(20)),
        Writable::from_reg(x(21)),
    ];
    callee.compute_frame_layout(&set, 2, clobbered);
    let layout = callee.frame_layout();
    // Eight bytes of slots and two spill slots of eight bytes: 24,
    // rounded up to 32.
    assert_eq!(layout.fixed_frame_storage_size, 32);
    assert_eq!(layout.fixed_frame_storage_size % M::stack_align(CallConv::Fast), 0);
    // x3 is not preserved across calls; the other three take 24 bytes,
    // rounded up to 32.
    assert_eq!(layout.clobbered_callee_saves.len(), 3);
    assert_eq!(layout.clobber_size, 32);
    assert_eq!(
        layout.active_size(),
        layout.outgoing_args_size + layout.fixed_frame_storage_size + layout.clobber_size
    );
    assert_eq!(layout.active_size(), 32 + 32 + 32);
    assert_eq!(callee.frame_size(), 64);
    assert_eq!(callee.slot_base_to_caller_sp_offset(), 80);
    assert_eq!(callee.get_spillslot_offset(SpillSlot::new(1)), 16);
    assert_eq!(
        callee.gen_spill(SpillSlot::new(1), x(4)),
        PulleyInst::StoreStack { mem: StackAMode::Slot(16), from_reg: xr(4), ty: Type::I64 }
    );
    assert_eq!(
        callee.gen_reload(Writable::from_reg(RealReg::new(2, RegClass::Float)), SpillSlot::new(0)),
        PulleyInst::LoadStack {
            mem: StackAMode::Slot(8),
            into_reg: Writable::from_reg(Reg::from_real(RealReg::new(2, RegClass::Float))),
            ty: Type::F64,
        }
    );
}

#[test]
fn prologue_and_epilogue() {
    let mut own = signature(CallConv::Fast, &[Type::I64], &[]);
    own.params[0].purpose = ArgumentPurpose::VMContext;
    let set = SigSet::new::<M>(&own, &Vec::new(), &flags()).unwrap();
    let mut f = function(own);
    f.is_leaf = false;
    f.global_values = vec![GlobalValueData::VMContext, GlobalValueData::Load { base: 0, offset: 8 }];
    f.stack_limit = Some(1);
    let mut probing = flags();
    probing.enable_probestack = true;
    probing.probestack_size_log2 = 4;
    let mut callee = Callee::<M>::new(&f, &probing, &PulleyFlags, &set).unwrap();
    callee.compute_frame_layout(&set, 1, vec![Writable::from_reg(x(16))]);
    let limit = xr(31);
    // The checked stack: 16 bytes of saved registers, 16 of storage and
    // the 16 of a callee's setup area.
    assert_eq!(
        callee.gen_prologue(),
        vec![
            PulleyInst::PushFrame,
            PulleyInst::LoadBaseOffset {
                into_reg: Writable::from_reg(limit),
                base: xr(0),
                offset: 8,
                ty: Type::I64,
            },
            PulleyInst::AddImm { into_reg: Writable::from_reg(limit), from_reg: limit, imm: 48 },
            PulleyInst::StackLowerBoundTrap { limit_reg: limit },
            PulleyInst::Probestack { frame_size: 48 },
            PulleyInst::ClobberSave { count: 1, stack_size: 32 },
        ]
    );
    assert_eq!(
        callee.gen_epilogue(),
        vec![
            PulleyInst::ClobberRestore { count: 1, stack_size: 32 },
            PulleyInst::PopFrame,
            PulleyInst::Ret,
        ]
    );
}

#[test]
fn leaf_without_stack_skips_the_check() {
    let mut own = signature(CallConv::Fast, &[Type::I64], &[]);
    own.params[0].purpose = ArgumentPurpose::VMContext;
    let set = SigSet::new::<M>(&own, &Vec::new(), &flags()).unwrap();
    let mut f = function(own);
    f.global_values = vec![GlobalValueData::VMContext];
    f.stack_limit = Some(0);
    let mut callee = Callee::<M>::new(&f, &flags(), &PulleyFlags, &set).unwrap();
    callee.compute_frame_layout(&set, 0, Vec::new());
    assert_eq!(
        callee.gen_prologue(),
        vec![PulleyInst::PushFrame, PulleyInst::ClobberSave { count: 0, stack_size: 0 }]
    );
}

#[test]
fn stack_check_by_size() {
    let own = signature(CallConv::Fast, &[], &[]);
    let set = SigSet::new::<M>(&own, &Vec::new(), &flags()).unwrap();
    let callee = Callee::<M>::new(&function(own), &flags(), &PulleyFlags, &set).unwrap();
    let limit = xr(5);
    let scratch = xr(31);
    let mut insts = Vec::new();
    callee.insert_stack_check(limit, 0, &mut insts);
    assert_eq!(insts, vec![PulleyInst::StackLowerBoundTrap { limit_reg: limit }]);
    let mut insts = Vec::new();
    callee.insert_stack_check(limit, 32 * 1024, &mut insts);
    assert_eq!(
        insts,
        vec![
            PulleyInst::StackLowerBoundTrap { limit_reg: limit },
            PulleyInst::AddImm { into_reg: Writable::from_reg(scratch), from_reg: limit, imm: 32768 },
            PulleyInst::StackLowerBoundTrap { limit_reg: scratch },
        ]
    );
}

#[test]
fn incoming_arguments_are_bound_or_loaded() {
    let params: Vec<Type> = (0..17).map(|_| Type::I32).collect();
    let mut own = signature(CallConv::Fast, &params, &[]);
    own.params[16].extension = ArgumentExtension::Sext;
    let set = SigSet::new::<M>(&own, &Vec::new(), &flags()).unwrap();
    let mut callee = Callee::<M>::new(&function(own), &flags(), &PulleyFlags, &set).unwrap();
    let mut vregs = VRegAllocator::new(100, 200);
    let into0 = Writable::from_reg(v(50));
    let into16 = Writable::from_reg(v(51));
    assert_eq!(callee.gen_copy_arg_to_regs(&set, 0, ValueRegs::one(into0), &mut vregs), vec![]);
    // The seventeenth argument is on the stack and is loaded in its
    // widened type.
    assert_eq!(
        callee.gen_copy_arg_to_regs(&set, 16, ValueRegs::one(into16), &mut vregs),
        vec![PulleyInst::LoadStack {
            mem: StackAMode::IncomingArg(0, 16),
            into_reg: into16,
            ty: Type::I64,
        }]
    );
    // The bound register is handed out once, in the pseudo-instruction
    // at the top of the function.
    assert_eq!(
        callee.take_args(),
        Some(PulleyInst::Args(ArgPairs::Cons(
            ArgPair { vreg: into0, preg: xr(0) },
            Box::new(ArgPairs::Nil)
        )))
    );
    assert_eq!(callee.take_args(), None);
}

#[test]
fn return_values_are_widened_and_bound_or_stored() {
    let mut own = signature(CallConv::Fast, &[], &[Type::I64; 16]);
    own.returns[0].value_type = Type::I8;
    own.returns[0].extension = ArgumentExtension::Uext;
    own.returns[15].value_type = Type::I16;
    own.returns[15].extension = ArgumentExtension::Sext;
    let set = SigSet::new::<M>(&own, &Vec::new(), &flags()).unwrap();
    let mut callee = Callee::<M>::new(&function(own), &flags(), &PulleyFlags, &set).unwrap();
    let mut vregs = VRegAllocator::new(100, 200);
    assert_eq!(callee.init_retval_area(&set, &mut vregs), Ok(()));
    assert_eq!(callee.ret_area_ptr(), Some(v(100)));
    // The pointer arrives in x0: it is bound, so no instruction is needed.
    assert_eq!(callee.gen_retval_area_setup(&set, &mut vregs), None);
    assert_eq!(callee.reg_args, vec![ArgPair { vreg: Writable::from_reg(v(100)), preg: xr(0) }]);

    let (pairs, insts) = callee.gen_copy_regs_to_retval(&set, 0, ValueRegs::one(v(7)), &mut vregs);
    assert_eq!(pairs.len(), 1);
    assert_eq!(pairs.get(0), RetPair { vreg: v(101), preg: xr(0) });
    assert_eq!(
        insts,
        vec![PulleyInst::Extend {
            to_reg: Writable::from_reg(v(101)),
            from_reg: v(7),
            is_signed: false,
            from_bits: 8,
            to_bits: 64,
        }]
    );
    let (pairs, insts) = callee.gen_copy_regs_to_retval(&set, 1, ValueRegs::one(v(8)), &mut vregs);
    assert_eq!(pairs.get(0), RetPair { vreg: v(8), preg: xr(1) });
    assert_eq!(insts, vec![]);
    // The sixteenth value goes to the return area, widened.
    let (pairs, insts) = callee.gen_copy_regs_to_retval(&set, 15, ValueRegs::one(v(9)), &mut vregs);
    assert_eq!(pairs.len(), 0);
    assert_eq!(
        insts,
        vec![
            PulleyInst::Extend {
                to_reg: Writable::from_reg(v(102)),
                from_reg: v(9),
                is_signed: true,
                from_bits: 16,
                to_bits: 64,
            },
            PulleyInst::StoreBaseOffset { base: v(100), offset: 0, from_reg: v(9), ty: Type::I64 },
        ]
    );
    assert_eq!(
        callee.gen_rets(vec![RetPair { vreg: v(8), preg: xr(1) }]),
        PulleyInst::Rets(
            RetPairs::Cons(RetPair { vreg: v(8), preg: xr(1) }, Box::new(RetPairs::Nil)),
        )
    );
}

#[test]
fn call_arguments_in_registers_and_on_the_stack() {
    let own = signature(CallConv::Fast, &[], &[]);
    let params: Vec<Type> = (0..17).map(|_| Type::I64).collect();
    let mut callee_sig = signature(CallConv::Fast, &params, &[Type::I64; 16]);
    callee_sig.params[1].value_type = Type::I8;
    callee_sig.params[1].extension = ArgumentExtension::Sext;
    let set = SigSet::new::<M>(&own, &vec![callee_sig], &flags()).unwrap();
    let callee = Callee::<M>::new(&function(own), &flags(), &PulleyFlags, &set).unwrap();
    let mut vregs = VRegAllocator::new(300, 400);
    let args: Vec<ValueRegs<Reg>> = (0..17).map(|i| ValueRegs::one(v(10 + i))).collect();
    assert!(callee.tail_call_ok(&set, Sig(1), false));
    let (uses, insts) = callee.gen_call_args(&set, Sig(1), &args, false, &flags(), &mut vregs);
    // The pointer to the return area has x0; fifteen arguments follow in
    // x1 to x15; two go to the stack.
    assert_eq!(uses.len(), 16);
    assert_eq!(uses.get(0), CallArgPair { vreg: v(10), preg: xr(1) });
    assert_eq!(uses.get(1), CallArgPair { vreg: v(300), preg: xr(2) });
    assert_eq!(uses.get(14), CallArgPair { vreg: v(24), preg: xr(15) });
    assert_eq!(uses.get(15), CallArgPair { vreg: v(301), preg: xr(0) });
    assert_eq!(
        insts,
        vec![
            PulleyInst::Extend {
                to_reg: Writable::from_reg(v(300)),
                from_reg: v(11),
                is_signed: true,
                from_bits: 8,
                to_bits: 64,
            },
            PulleyInst::StoreStack { mem: StackAMode::OutgoingArg(0), from_reg: v(25), ty: Type::I64 },
            PulleyInst::StoreStack { mem: StackAMode::OutgoingArg(8), from_reg: v(26), ty: Type::I64 },
            PulleyInst::GetStackAddr {
                mem: StackAMode::OutgoingArg(16),
                into_reg: Writable::from_reg(v(301)),
            },
        ]
    );
}

#[test]
fn tail_call_needs_the_callers_return_area() {
    let own = signature(CallConv::Tail, &[], &[]);
    let callee_sig = signature(CallConv::Tail, &[], &[Type::I64; 16]);
    let set = SigSet::new::<M>(&own, &vec![callee_sig], &flags()).unwrap();
    let mut callee = Callee::<M>::new(&function(own), &flags(), &PulleyFlags, &set).unwrap();
    // The callee takes a pointer to a return area and the caller has
    // none to hand on: the tail call cannot be set up.
    assert!(set.get_ret_arg(Sig(1)).is_some());
    assert_eq!(callee.ret_area_ptr(), None);
    assert!(!callee.tail_call_ok(&set, Sig(1), true));
    assert!(callee.tail_call_ok(&set, Sig(1), false));
    // With a pointer of its own the caller hands that one on.
    callee.ret_area_ptr = Some(v(5));
    assert!(callee.tail_call_ok(&set, Sig(1), true));
    let mut vregs = VRegAllocator::new(300, 400);
    let (uses, insts) = callee.gen_call_args(&set, Sig(1), &Vec::new(), true, &flags(), &mut vregs);
    assert_eq!(uses.len(), 1);
    assert_eq!(uses.get(0), CallArgPair { vreg: v(5), preg: xr(0) });
    assert_eq!(insts, vec![]);
}

#[test]
fn tail_call_from_another_convention_is_refused() {
    let own = signature(CallConv::Fast, &[], &[]);
    let set = SigSet::new::<M>(&own, &Vec::new(), &flags()).unwrap();
    let callee = Callee::<M>::new(&function(own), &flags(), &PulleyFlags, &set).unwrap();
    assert!(!callee.tail_call_ok(&set, Sig(0), true));
}

#[test]
fn call_returns_in_registers_and_on_the_stack() {
    let own = signature(CallConv::Fast, &[], &[]);
    let params: Vec<Type> = (0..17).map(|_| Type::I64).collect();
    let mut callee_sig = signature(CallConv::Fast, &params, &[Type::I64; 16]);
    callee_sig.returns[15].value_type = Type::I32;
    callee_sig.returns[15].extension = ArgumentExtension::Uext;
    let set = SigSet::new::<M>(&own, &vec![callee_sig], &flags()).unwrap();
    let callee = Callee::<M>::new(&function(own), &flags(), &PulleyFlags, &set).unwrap();
    let mut vregs = VRegAllocator::new(300, 400);
    let outputs: Vec<ValueRegs<Reg>> = (0..16).map(|i| ValueRegs::one(v(40 + i))).collect();
    let defs = callee.gen_call_rets(&set, Sig(1), &outputs, None, &mut vregs);
    assert_eq!(defs.len(), 16);
    assert_eq!(
        defs.get(0),
        CallRetPair { vreg: Writable::from_reg(v(40)), location: RetLocation::Reg(xr(0), Type::I64) }
    );
    // The return area lies behind the 16 bytes of stack arguments, and
    // the narrow value is read in its widened type.
    assert_eq!(
        defs.get(15),
        CallRetPair {
            vreg: Writable::from_reg(v(55)),
            location: RetLocation::Stack(StackAMode::OutgoingArg(16), Type::I64),
        }
    );
}

#[test]
fn exception_payload_joins_the_return_values() {
    let own = signature(CallConv::Fast, &[], &[]);
    let callee_sig = signature(CallConv::Fast, &[], &[Type::I64]);
    let set = SigSet::new::<M>(&own, &vec![callee_sig], &flags()).unwrap();
    let callee = Callee::<M>::new(&function(own), &flags(), &PulleyFlags, &set).unwrap();
    let mut vregs = VRegAllocator::new(300, 400);
    let outputs = vec![ValueRegs::one(v(40))];
    let payloads = vec![Writable::from_reg(v(60)), Writable::from_reg(v(61))];
    let defs = callee.gen_call_rets(&set, Sig(1), &outputs, Some(&payloads), &mut vregs);
    // The first payload register is x0, where the return value arrives:
    // its register becomes an alias. The second, x1, is a new value.
    assert_eq!(defs.len(), 2);
    assert_eq!(
        defs.get(1),
        CallRetPair { vreg: Writable::from_reg(v(61)), location: RetLocation::Reg(xr(1), Type::I64) }
    );
    assert_eq!(vregs.aliases(), &vec![(v(60), v(40))]);
}

#[test]
fn clobbers_leave_out_the_return_registers() {
    let own = signature(CallConv::Fast, &[], &[]);
    let callee_sig = signature(CallConv::Tail, &[Type::I64; 17], &[Type::I64]);
    let set = SigSet::new::<M>(&own, &vec![callee_sig], &flags()).unwrap();
    let callee = Callee::<M>::new(&function(own), &flags(), &PulleyFlags, &set).unwrap();
    let mut vregs = VRegAllocator::new(300, 400);
    let defs = callee.gen_call_rets(&set, Sig(1), &vec![ValueRegs::one(v(40))], None, &mut vregs);
    let x0 = PReg::new(0, regalloc2::RegClass::Int);
    let x1 = PReg::new(1, regalloc2::RegClass::Int);
    let x16 = PReg::new(16, regalloc2::RegClass::Int);
    let f0 = PReg::new(0, regalloc2::RegClass::Float);
    // x0 is not preserved by a call under the convention ...
    let all = M::get_regs_clobbered_by_call(CallConv::Tail, false);
    assert!(all.contains(x0));
    assert!(all.contains(f0));
    assert!(!all.contains(x16));
    // ... but the return value arrives in it, so this call does not
    // overwrite it.
    let info = callee.gen_call_info(&set, Sig(1), 7u32, CallArgList::new(), defs, None);
    assert!(!info.clobbers.contains(x0));
    assert!(info.clobbers.contains(x1));
    assert!(info.clobbers.contains(f0));
    assert_eq!(info.dest, 7);
    assert_eq!(info.defs.len(), 1);
    assert_eq!(info.caller_conv, CallConv::Fast);
    assert_eq!(info.callee_conv, CallConv::Tail);
    // Under the `Tail` convention the callee removes its stack arguments:
    // one slot of eight bytes, rounded up to 16.
    assert_eq!(info.callee_pop_size, 16);
}

#[test]
fn callee_pops_nothing_under_other_conventions() {
    let own = signature(CallConv::Fast, &[], &[]);
    let callee_sig = signature(CallConv::Fast, &[Type::I64; 17], &[]);
    let set = SigSet::new::<M>(&own, &vec![callee_sig], &flags()).unwrap();
    let callee = Callee::<M>::new(&function(own), &flags(), &PulleyFlags, &set).unwrap();
    let info = callee.gen_call_info(&set, Sig(1), (), CallArgList::new(), CallRetList::new(), None);
    assert_eq!(info.callee_pop_size, 0);
    assert!(info.clobbers.contains(PReg::new(0, regalloc2::RegClass::Int)));
}

#[test]
fn empty_call_info() {
    let info = CallInfo::empty(3u8, CallConv::Fast);
    assert_eq!(info.uses.len(), 0);
    assert_eq!(info.defs.len(), 0);
    assert_eq!(info.callee_pop_size, 0);
    assert!(info.try_call_info.is_none());
    for index in 0..=255 {
        assert!(!info.clobbers.contains(PReg::from_index(index)));
    }
}

#[test]
fn stack_carried_returns_are_loaded_after_the_call() {
    let mut info = CallInfo::empty((), CallConv::Fast);
    let amode = StackAMode::OutgoingArg(32);
    info.defs.push(CallRetPair {
        vreg: Writable::from_reg(v(1)),
        location: RetLocation::Reg(xr(0), Type::I64),
    });
    info.defs.push(
        CallRetPair { vreg: Writable::from_reg(xr(3)), location: RetLocation::Stack(amode, Type::I32) },
    );
    info.defs.push(CallRetPair {
        vreg: Writable::from_reg(Reg::Spill(SpillSlot::new(2))),
        location: RetLocation::Stack(StackAMode::OutgoingArg(48), Type::I128),
    });
    // Ten instructions of ten bytes for each of the two values on the
    // stack.
    assert_eq!(info.retval_loads_space::<M>(), 200);
    let temp = Writable::from_reg(xr(15));
    let insts = info.emit_retval_loads::<M>(64, Some(PulleyInst::SpAdjust { amount: 0 }));
    assert_eq!(
        insts,
        vec![
            PulleyInst::SpAdjust { amount: 0 },
            PulleyInst::LoadStack { mem: amode, into_reg: Writable::from_reg(xr(3)), ty: Type::I32 },
            // The spilled value moves in two words through the temporary:
            // to slot 2 and the slot behind it.
            PulleyInst::LoadStack { mem: StackAMode::OutgoingArg(48), into_reg: temp, ty: Type::I64 },
            PulleyInst::StoreStack { mem: StackAMode::Slot(64 + 8 * 2), from_reg: xr(15), ty: Type::I64 },
            PulleyInst::LoadStack { mem: StackAMode::OutgoingArg(56), into_reg: temp, ty: Type::I64 },
            PulleyInst::StoreStack { mem: StackAMode::Slot(64 + 8 * 3), from_reg: xr(15), ty: Type::I64 },
        ]
    );
}

#[test]
fn exception_handlers_after_allocation() {
    let info = TryCallInfo {
        continuation: MachLabel(1),
        exception_handlers: vec![
            TryCallHandler::Tag(ExceptionTag(4), MachLabel(2)),
            TryCallHandler::Context(Reg::Spill(SpillSlot::new(3))),
            TryCallHandler::Context(xr(9)),
            TryCallHandler::Default(MachLabel(5)),
        ],
    };
    let layout = FrameLayout {
        word_bytes: 8,
        incoming_args_size: 0,
        tail_args_size: 0,
        setup_area_size: 16,
        clobber_size: 0,
        fixed_frame_storage_size: 64,
        stackslots_size: 16,
        outgoing_args_size: 0,
        clobbered_callee_saves: Vec::new(),
    };
    assert_eq!(
        info.exception_handlers(&layout),
        vec![
            MachExceptionHandler::Tag(ExceptionTag(4), MachLabel(2)),
            MachExceptionHandler::Context(ExceptionContextLoc::SPOffset(16 + 3 * 8)),
            MachExceptionHandler::Context(ExceptionContextLoc::GPR(9)),
            MachExceptionHandler::Default(MachLabel(5)),
        ]
    );
}

#[test]
fn virtual_registers_run_out() {
    let mut vregs = VRegAllocator::new(5, 7);
    assert_eq!(vregs.alloc_vregs(Type::I32).unwrap().only_reg(), Some(v(5)));
    // A 128-bit integer takes two registers and only one is left.
    assert_eq!(vregs.alloc_vregs(Type::I128).err(), Some(CodegenError::CodeTooLarge));
    let fake = vregs.alloc_with_deferred_error(Type::I128);
    assert_eq!(fake.len(), 2);
    assert_eq!(fake.get(0), v(0));
    assert_eq!(fake.only_reg(), None);
    assert_eq!(vregs.take_deferred_error(), Some(CodegenError::CodeTooLarge));
    assert_eq!(vregs.take_deferred_error(), None);
    let f = vregs.alloc_tmp(Type::F64);
    assert_eq!(f, Reg::Virtual(VirtualReg { index: 6, class: RegClass::Float }));
    let w = writable_value_regs(ValueRegs::two(v(1), v(2)));
    assert_eq!(w.get(1), Writable::from_reg(v(2)));
}

#[test]
fn registers_and_their_index() {
    let r = RealReg::new(5, RegClass::Float);
    assert_eq!(r.index(), 64 + 5);
    assert_eq!(RealReg::new(63, RegClass::Vector).index(), 128 + 63);
    assert_eq!(Reg::from_real(r).to_real_reg(), Some(r));
    assert_eq!(Reg::from_real(r).class(), RegClass::Float);
    assert_eq!(v(3).to_real_reg(), None);
    assert_eq!(v(3).to_virtual_reg(), Some(VirtualReg { index: 3, class: RegClass::Int }));
    assert_eq!(Reg::Spill(SpillSlot::new(4)).to_spillslot().map(|s| s.index()), Some(4));
}

#[test]
fn libcall_convention() {
    let mut f = flags();
    assert_eq!(CallConv::for_libcall(&f, CallConv::Tail), CallConv::Tail);
    f.libcall_call_conv = Some(CallConv::SystemV);
    assert_eq!(CallConv::for_libcall(&f, CallConv::Tail), CallConv::SystemV);
}

#[test]
fn functions_for_which_a_callee_can_be_made() {
    let mut own = signature(CallConv::Fast, &[Type::I64], &[]);
    own.params[0].purpose = ArgumentPurpose::VMContext;
    let set = SigSet::new::<M>(&own, &Vec::new(), &flags()).unwrap();
    let f = function(own.clone());
    assert!(can_make_callee::<M>(&f, &set));

    // Its signature has not been entered.
    let other = function(signature(CallConv::Fast, &[Type::I32], &[]));
    assert!(!can_make_callee::<M>(&other, &set));

    // A slot with an alignment beyond 32 bits.
    let mut g = function(own.clone());
    g.sized_stack_slots = vec![StackSlotData { size: 8, align_shift: 32 }];
    assert!(!can_make_callee::<M>(&g, &set));
    g.sized_stack_slots = vec![StackSlotData { size: 8, align_shift: 31 }];
    assert!(can_make_callee::<M>(&g, &set));

    // A dynamic slot of a type that does not exist.
    let mut g = function(own.clone());
    g.dynamic_stack_slots = vec![DynamicStackSlotData { dyn_ty: 0 }];
    assert!(!can_make_callee::<M>(&g, &set));
    g.dynamic_types = vec![Some(Type::I64)];
    assert!(can_make_callee::<M>(&g, &set));
    // A type without a concrete type is refused unless a slot has it.
    g.dynamic_types = vec![Some(Type::I64), None];
    assert!(!can_make_callee::<M>(&g, &set));
    g.dynamic_stack_slots.push(DynamicStackSlotData { dyn_ty: 1 });
    assert!(can_make_callee::<M>(&g, &set));
    assert!(matches!(
        Callee::<M>::new(&g, &flags(), &PulleyFlags, &set),
        Err(CodegenError::Unsupported)
    ));

    // The stack limit must lead to the VM context.
    let mut g = function(own.clone());
    g.global_values = vec![
        GlobalValueData::VMContext,
        GlobalValueData::Load { base: 0, offset: 8 },
        GlobalValueData::Other,
        GlobalValueData::Load { base: 2, offset: 0 },
        GlobalValueData::Load { base: 4, offset: 0 },
    ];
    for (gv, ok) in [(0, true), (1, true), (2, false), (3, false), (4, false), (5, false)] {
        g.stack_limit = Some(gv);
        assert_eq!(can_make_callee::<M>(&g, &set), ok);
        assert_eq!(gv_reachable::<M>(&g, Some(xr(0)), gv, 5), ok);
        assert!(!gv_reachable::<M>(&g, None, gv, 5));
    }
    assert!(gv_reachable::<M>(&g, Some(xr(0)), 1, 2));
    assert!(!gv_reachable::<M>(&g, Some(xr(0)), 1, 1));

    // Without a VM context among the parameters no limit is reached.
    let plain = signature(CallConv::Fast, &[Type::I64], &[]);
    let set = SigSet::new::<M>(&plain, &Vec::new(), &flags()).unwrap();
    let mut g = function(plain);
    g.global_values = vec![GlobalValueData::VMContext];
    g.stack_limit = Some(0);
    assert!(!can_make_callee::<M>(&g, &set));
}

#[test]
fn signatures_that_can_be_resolved() {
    let many: Vec<Type> = vec![Type::I64; 20];
    let plain = signature(CallConv::Fast, &[Type::I64, Type::F32], &[Type::I64]);
    assert!(resolvable::<M>(&plain, &flags()));

    // Return values on the stack need the flag that allows them: without
    // it this machine refuses them with an error, which is no fault.
    let wide = signature(CallConv::Fast, &[], &many);
    let mut strict = flags();
    strict.enable_multi_ret_implicit_sret = false;
    assert!(resolvable::<M>(&wide, &flags()));
    assert!(resolvable::<M>(&wide, &strict));
    assert!(resolvable::<M>(&plain, &strict));
    let mut set = SigSet::empty();
    assert_eq!(
        set.make_abi_sig_from_ir_signature::<M>(wide, &strict),
        Err(CodegenError::Unsupported),
    );

    // A returned structure is announced by a parameter alone.
    let mut by_param = signature(CallConv::Fast, &[Type::I64], &[]);
    by_param.params[0].purpose = ArgumentPurpose::StructReturn;
    assert!(resolvable::<M>(&by_param, &flags()));
    let mut both = by_param.clone();
    both.returns.push(AbiParam::new(Type::I32));
    assert!(!resolvable::<M>(&both, &flags()));
    let mut by_return = signature(CallConv::Fast, &[], &[Type::I64]);
    by_return.returns[0].purpose = ArgumentPurpose::StructReturn;
    assert!(!resolvable::<M>(&by_return, &flags()));
}
