use abi_interp::interp::bits::{rotl32, rotr64, swap_bytes16, swap_bytes32, swap_bytes64};
use abi_interp::interp::dispatch::Op;
use abi_interp::interp::encode::{Encode, Ret, XDiv32S};
use abi_interp::interp::machine::Interpreter;
use abi_interp::interp::regs::{
    AddrG32, AddrG32Bne, AddrO32, AddrZ, BinaryOperands, FReg, PcRelOffset, UpperRegSet, VReg,
    XReg, U6,
};
use abi_interp::interp::state::{
    DoneReason, MachineState, TrapKind, HOST_RETURN_ADDR, STACK_BASE,
};
use abi_interp::interp::value::{FRegVal, RegType, VRegVal, Val, XRegVal};
use abi_interp::interp::vm::Vm;
use std::ops::ControlFlow;

fn xreg(n: u8) -> XReg {
    XReg::new(n).unwrap()
}

fn freg(n: u8) -> FReg {
    FReg::new(n).unwrap()
}

fn vreg(n: u8) -> VReg {
    VReg::new(n).unwrap()
}

fn ops(dst: u8, src1: u8, src2: u8) -> BinaryOperands<XReg> {
    BinaryOperands { dst: xreg(dst), src1: xreg(src1), src2: xreg(src2) }
}

// An interpreter with a stack of 64 bytes whose program counter stands
// behind an instruction that begins at 0x1000, whatever its width.
fn interp() -> Interpreter {
    Interpreter::new(MachineState::with_stack(64), 0x1000)
}

fn with_u64(values: &[(u8, u64)]) -> Interpreter {
    let mut i = interp();
    for (reg, val) in values {
        i.set_x_u64(xreg(*reg), *val);
    }
    i
}

fn with_i32(a: i32, b: i32) -> Interpreter {
    let mut i = interp();
    i.set_x_i32(xreg(1), a);
    i.set_x_i32(xreg(2), b);
    i
}

// The trap that a handler reported: the address of the trapping
// instruction and the kind.
fn trap_of(
    mut i: Interpreter,
    r: ControlFlow<abi_interp::interp::state::Done>,
) -> (u64, Option<TrapKind>) {
    match r {
        ControlFlow::Break(done) => {
            let sp_before = i.state().sp();
            let mut state = i.into_state();
            assert_eq!(state.sp(), sp_before);
            match state.done_decode(done) {
                DoneReason::Trap { pc, kind } => (pc, kind),
                _ => panic!("stopped without a trap"),
            }
        }
        ControlFlow::Continue(()) => panic!("no trap"),
    }
}

#[test]
fn simple_push_pop() {
    let state = MachineState::with_stack(16);
    // The program counter is not read: any address will do.
    let mut i = Interpreter::new(state, 4);
    assert!(i.push::<Ret, i32>(0_i32).is_continue());
    assert_eq!(i.pop::<i32>(), 0_i32);
    assert!(i.push::<Ret, i32>(1_i32).is_continue());
    assert!(i.push::<Ret, i32>(2_i32).is_continue());
    assert!(i.push::<Ret, i32>(3_i32).is_continue());
    assert!(i.push::<Ret, i32>(4_i32).is_continue());
    assert!(i.push::<Ret, i32>(5_i32).is_break());
    assert!(i.push::<Ret, i32>(6_i32).is_break());
    assert_eq!(i.pop::<i32>(), 4_i32);
    assert_eq!(i.pop::<i32>(), 3_i32);
    assert_eq!(i.pop::<i32>(), 2_i32);
    assert_eq!(i.pop::<i32>(), 1_i32);
}

#[test]
fn new_machine_state() {
    let state = MachineState::with_stack(17);
    // The size is rounded up to a multiple of 16.
    assert_eq!(state.stack_end() - state.stack_base(), 32);
    assert_eq!(state.stack_base(), STACK_BASE);
    assert_eq!(state.sp(), state.stack_end());
    assert_eq!(state.fp(), HOST_RETURN_ADDR);
    assert_eq!(state.lr(), HOST_RETURN_ADDR);
    assert_eq!(state.x(xreg(0)).get_u64(), 0);
    assert_eq!(state.f(freg(31)).get_f64_bits(), 0);
    assert_eq!(state.v(vreg(7)).get_u128(), 0);
}

#[test]
fn register_names() {
    assert!(XReg::new(31).is_some());
    assert!(XReg::new(32).is_none());
    assert_eq!(XReg::sp().index(), 30);
    assert_eq!(XReg::spilltmp0().index(), 31);
    assert_eq!(XReg::x3().index(), 3);
    assert!(FReg::new(32).is_none());
    assert!(VReg::new(32).is_none());
    assert!(U6::new(63).is_some());
    assert!(U6::new(64).is_none());
    assert_eq!(Ret::width(), 1);
    assert_eq!(XDiv32S::width(), 3);
}

#[test]
fn upper_register_set_in_increasing_order() {
    let set = UpperRegSet::from_bits(0b1000_0000_0000_0101);
    let members: Vec<usize> = set.members().iter().map(|r| r.index()).collect();
    assert_eq!(members, vec![16, 18, 31]);
    assert_eq!(UpperRegSet::from_bits(0).members().len(), 0);
}

#[test]
fn narrow_write_keeps_the_upper_half() {
    let mut val = XRegVal::new_u64(0x1122_3344_5566_7788);
    val.set_u32(0xaabb_ccdd);
    assert_eq!(val.get_u64(), 0x1122_3344_aabb_ccdd);
    assert_eq!(val.get_u32(), 0xaabb_ccdd);
    val.set_i32(-2);
    assert_eq!(val.get_u64(), 0x1122_3344_ffff_fffe);
    assert_eq!(val.get_i32(), -2);
    val.set_i64(-1);
    assert_eq!(val.get_u64(), u64::MAX);
    assert_eq!(val.get_i64(), -1);
    val.set_ptr(0x10);
    assert_eq!(val.get_ptr(), 0x10);
    assert_eq!(XRegVal::new_i32(-1).get_u64(), 0xffff_ffff);
    assert_eq!(XRegVal::new_u32(7).get_u64(), 7);
    assert_eq!(XRegVal::new_i64(-3).get_i64(), -3);
    assert_eq!(XRegVal::new_ptr(0x20).get_u64(), 0x20);
    let mut f = FRegVal::new_f64_bits(0x4000_0000_0000_0000);
    f.set_f32_bits(0x3f80_0000);
    assert_eq!(f.get_f64_bits(), 0x4000_0000_3f80_0000);
    assert_eq!(f.get_f32_bits(), 0x3f80_0000);
    assert_eq!(FRegVal::new_f32_bits(5).get_f64_bits(), 5);
    let mut v = VRegVal::new_u128(1 << 100);
    assert_eq!(v.get_u128(), 1 << 100);
    v.set_u128(9);
    assert_eq!(v.get_u128(), 9);
}

#[test]
fn push_at_capacity_traps_and_keeps_the_stack_pointer() {
    let mut i = Interpreter::new(MachineState::with_stack(16), 0x1000);
    assert!(i.push::<Ret, u64>(1).is_continue());
    assert!(i.push::<Ret, u64>(2).is_continue());
    let full = i.state().sp();
    assert_eq!(full, STACK_BASE);
    let r = i.push::<Ret, u64>(3);
    assert_eq!(i.state().sp(), full);
    // The trap is reported at the start of the instruction, one byte
    // before the program counter.
    assert_eq!(trap_of(i, r), (0xfff, Some(TrapKind::StackOverflow)));
}

#[test]
fn pushes_come_back_in_reverse_order() {
    let mut i = interp();
    let start = i.state().sp();
    let vals: Vec<u32> = vec![0xdead_beef, 1, 0, u32::MAX, 77];
    for v in &vals {
        assert!(i.push::<Ret, u32>(*v).is_continue());
    }
    assert_eq!(i.state().sp(), start - 4 * vals.len() as u64);
    let mut back = Vec::new();
    for _ in &vals {
        back.push(i.pop::<u32>());
    }
    back.reverse();
    assert_eq!(back, vals);
    assert_eq!(i.state().sp(), start);
}

#[test]
fn values_in_memory_are_little_endian() {
    let mut i = interp();
    assert!(i.push::<Ret, u32>(0x0403_0201).is_continue());
    let sp = i.state().sp();
    assert_eq!(i.read::<u8>(sp), 1);
    assert_eq!(i.read::<u8>(sp + 3), 4);
    assert_eq!(i.read::<u16>(sp + 1), 0x0302);
    i.write::<u64>(sp - 8, 0x8877_6655_4433_2211);
    assert_eq!(i.read::<u32>(sp - 4), 0x8877_6655);
    i.write::<i64>(sp - 8, -2);
    assert_eq!(i.read::<i64>(sp - 8), -2);
    assert_eq!(i.read::<i32>(sp - 8), -2);
    i.write::<u128>(sp - 16, 1 << 64);
    assert_eq!(i.read::<u64>(sp - 8), 1);
}

#[test]
fn division_trap_matrix() {
    // 7 / 0, signed and unsigned: a division by zero.
    let mut i = with_i32(7, 0);
    let r = i.xdiv32_s(ops(0, 1, 2));
    assert_eq!(trap_of(i, r), (0x1000 - 3, Some(TrapKind::DivideByZero)));
    let mut i = with_i32(7, 0);
    let r = i.xdiv32_u(ops(0, 1, 2));
    assert_eq!(trap_of(i, r), (0x1000 - 3, Some(TrapKind::DivideByZero)));
    // The least number by -1: an integer overflow.
    let mut i = with_i32(i32::MIN, -1);
    let r = i.xdiv32_s(ops(0, 1, 2));
    assert_eq!(trap_of(i, r), (0x1000 - 3, Some(TrapKind::IntegerOverflow)));
    // Its remainder is zero, without a trap.
    let mut i = with_i32(i32::MIN, -1);
    i.set_x_i32(xreg(0), 5);
    assert!(i.xrem32_s(ops(0, 1, 2)).is_continue());
    assert_eq!(i.x_i32(xreg(0)), 0);
    // -7 / 2 rounds towards zero.
    let mut i = with_i32(-7, 2);
    assert!(i.xdiv32_s(ops(0, 1, 2)).is_continue());
    assert_eq!(i.x_i32(xreg(0)), -3);
    let mut i = with_i32(-7, 2);
    assert!(i.xrem32_s(ops(0, 1, 2)).is_continue());
    assert_eq!(i.x_i32(xreg(0)), -1);
    let mut i = with_i32(7, -2);
    assert!(i.xdiv32_s(ops(0, 1, 2)).is_continue());
    assert_eq!(i.x_i32(xreg(0)), -3);
    let mut i = with_i32(7, -2);
    assert!(i.xrem32_s(ops(0, 1, 2)).is_continue());
    assert_eq!(i.x_i32(xreg(0)), 1);
    // The greatest unsigned number by 1.
    let mut i = with_u64(&[(1, u32::MAX as u64), (2, 1)]);
    assert!(i.xdiv32_u(ops(0, 1, 2)).is_continue());
    assert_eq!(i.x_u32(xreg(0)), u32::MAX);
}

#[test]
fn division_of_64_bit_numbers() {
    let mut i = with_u64(&[(1, i64::MIN as u64), (2, u64::MAX)]);
    let r = i.xdiv64_s(ops(0, 1, 2));
    assert_eq!(trap_of(i, r), (0x1000 - 3, Some(TrapKind::IntegerOverflow)));
    let mut i = with_u64(&[(1, i64::MIN as u64), (2, u64::MAX)]);
    assert!(i.xrem64_s(ops(0, 1, 2)).is_continue());
    assert_eq!(i.x_i64(xreg(0)), 0);
    let mut i = with_u64(&[(1, (-100i64) as u64), (2, 7)]);
    assert!(i.xdiv64_s(ops(0, 1, 2)).is_continue());
    assert_eq!(i.x_i64(xreg(0)), -14);
    let mut i = with_u64(&[(1, u64::MAX), (2, 10)]);
    assert!(i.xdiv64_u(ops(0, 1, 2)).is_continue());
    assert_eq!(i.x_u64(xreg(0)), u64::MAX / 10);
    let mut i = with_u64(&[(1, u64::MAX), (2, 10)]);
    assert!(i.xrem64_u(ops(0, 1, 2)).is_continue());
    assert_eq!(i.x_u64(xreg(0)), 5);
    let mut i = with_u64(&[(1, 9), (2, 0)]);
    let r = i.xrem64_u(ops(0, 1, 2));
    assert_eq!(trap_of(i, r), (0x1000 - 3, Some(TrapKind::DivideByZero)));
    let mut i = with_u64(&[(1, 9), (2, 0)]);
    let r = i.xrem32_u(ops(0, 1, 2));
    assert_eq!(trap_of(i, r), (0x1000 - 3, Some(TrapKind::DivideByZero)));
    let mut i = with_u64(&[(1, 9), (2, 0)]);
    let r = i.xdiv64_u(ops(0, 1, 2));
    assert_eq!(trap_of(i, r), (0x1000 - 3, Some(TrapKind::DivideByZero)));
}

#[test]
fn arithmetic_wraps_and_keeps_the_upper_half() {
    let mut i = with_u64(&[(0, 0xaaaa_aaaa_0000_0000), (1, u32::MAX as u64), (2, 2)]);
    assert!(i.xadd32(ops(0, 1, 2)).is_continue());
    assert_eq!(i.x_u64(xreg(0)), 0xaaaa_aaaa_0000_0001);
    assert!(i.xadd64(ops(0, 1, 2)).is_continue());
    assert_eq!(i.x_u64(xreg(0)), 0x1_0000_0001);
    assert!(i.xsub32(ops(0, 2, 1)).is_continue());
    assert_eq!(i.x_u32(xreg(0)), 3);
    assert!(i.xsub64(ops(0, 2, 1)).is_continue());
    assert_eq!(i.x_u64(xreg(0)), 2u64.wrapping_sub(u32::MAX as u64));
    assert!(i.xmul32(ops(0, 1, 2)).is_continue());
    assert_eq!(i.x_u32(xreg(0)), u32::MAX.wrapping_mul(2));
    assert!(i.xmul64(ops(0, 1, 2)).is_continue());
    assert_eq!(i.x_u64(xreg(0)), 2 * u32::MAX as u64);
    assert!(i.xadd32_u8(xreg(0), xreg(1), 3).is_continue());
    assert_eq!(i.x_u32(xreg(0)), 2);
    assert!(i.xadd64_u32(xreg(0), xreg(1), 3).is_continue());
    assert_eq!(i.x_u64(xreg(0)), u32::MAX as u64 + 3);
    assert!(i.xsub64_u8(xreg(0), xreg(2), 3).is_continue());
    assert_eq!(i.x_u64(xreg(0)), u64::MAX);
    assert!(i.xmul32_s8(xreg(0), xreg(2), -3).is_continue());
    assert_eq!(i.x_i32(xreg(0)), -6);
    assert!(i.xmul64_s32(xreg(0), xreg(2), -3).is_continue());
    assert_eq!(i.x_i64(xreg(0)), -6);
    i.set_x_u64(xreg(3), 5);
    assert!(i.xmadd32(xreg(0), xreg(2), xreg(3), xreg(2)).is_continue());
    assert_eq!(i.x_u32(xreg(0)), 12);
    assert!(i.xmadd64(xreg(0), xreg(1), xreg(1), xreg(2)).is_continue());
    assert_eq!(i.x_u64(xreg(0)), (u32::MAX as u64) * (u32::MAX as u64) + 2);
    assert!(i.xneg32(xreg(0), xreg(2)).is_continue());
    assert_eq!(i.x_i32(xreg(0)), -2);
    i.set_x_i64(xreg(4), i64::MIN);
    assert!(i.xneg64(xreg(0), xreg(4)).is_continue());
    assert_eq!(i.x_i64(xreg(0)), i64::MIN);
    assert!(i.xabs64(xreg(0), xreg(4)).is_continue());
    assert_eq!(i.x_i64(xreg(0)), i64::MIN);
    i.set_x_i32(xreg(4), -9);
    assert!(i.xabs32(xreg(0), xreg(4)).is_continue());
    assert_eq!(i.x_i32(xreg(0)), 9);
}

#[test]
fn checked_addition_traps_on_overflow() {
    let mut i = with_u64(&[(1, u32::MAX as u64), (2, 1)]);
    let r = i.xadd32_uoverflow_trap(ops(0, 1, 2));
    assert_eq!(trap_of(i, r), (0x1000 - 5, None));
    let mut i = with_u64(&[(1, u32::MAX as u64), (2, 1)]);
    assert!(i.xadd64_uoverflow_trap(ops(0, 1, 2)).is_continue());
    assert_eq!(i.x_u64(xreg(0)), 1 << 32);
    let mut i = with_u64(&[(1, u64::MAX), (2, 1)]);
    let r = i.xadd64_uoverflow_trap(ops(0, 1, 2));
    assert_eq!(trap_of(i, r), (0x1000 - 5, None));
}

#[test]
fn shifts_take_the_amount_modulo_the_width() {
    let mut i = with_u64(&[(1, 0x8000_0001), (2, 33)]);
    assert!(i.xshl32(ops(0, 1, 2)).is_continue());
    assert_eq!(i.x_u32(xreg(0)), 2);
    assert!(i.xshr32_u(ops(0, 1, 2)).is_continue());
    assert_eq!(i.x_u32(xreg(0)), 0x4000_0000);
    assert!(i.xshr32_s(ops(0, 1, 2)).is_continue());
    assert_eq!(i.x_u32(xreg(0)), 0xc000_0000);
    assert!(i.xshl64(ops(0, 1, 2)).is_continue());
    assert_eq!(i.x_u64(xreg(0)), 0x8000_0001u64 << 33);
    i.set_x_u64(xreg(2), 65);
    assert!(i.xshr64_u(ops(0, 1, 2)).is_continue());
    assert_eq!(i.x_u64(xreg(0)), 0x4000_0000);
    i.set_x_i64(xreg(1), -8);
    assert!(i.xshr64_s(ops(0, 1, 2)).is_continue());
    assert_eq!(i.x_i64(xreg(0)), -4);
    let by = |n| BinaryOperands { dst: xreg(0), src1: xreg(1), src2: U6::new(n).unwrap() };
    assert!(i.xshl32_u6(by(33)).is_continue());
    assert_eq!(i.x_i32(xreg(0)), -16);
    assert!(i.xshr32_s_u6(by(1)).is_continue());
    assert_eq!(i.x_i32(xreg(0)), -4);
    assert!(i.xshr32_u_u6(by(28)).is_continue());
    assert_eq!(i.x_u32(xreg(0)), 0xf);
    assert!(i.xshl64_u6(by(60)).is_continue());
    assert_eq!(i.x_u64(xreg(0)), 0x8000_0000_0000_0000);
    assert!(i.xshr64_u_u6(by(63)).is_continue());
    assert_eq!(i.x_u64(xreg(0)), 1);
    assert!(i.xshr64_s_u6(by(63)).is_continue());
    assert_eq!(i.x_i64(xreg(0)), -1);
}

#[test]
fn comparisons_set_zero_or_one() {
    let mut i = with_u64(&[(1, u64::MAX), (2, 1)]);
    assert!(i.xult64(ops(0, 1, 2)).is_continue());
    assert_eq!(i.x_u32(xreg(0)), 0);
    assert!(i.xslt64(ops(0, 1, 2)).is_continue());
    assert_eq!(i.x_u32(xreg(0)), 1);
    assert!(i.xslteq32(ops(0, 1, 1)).is_continue());
    assert_eq!(i.x_u32(xreg(0)), 1);
    assert!(i.xulteq32(ops(0, 1, 2)).is_continue());
    assert_eq!(i.x_u32(xreg(0)), 0);
    assert!(i.xeq64(ops(0, 1, 1)).is_continue());
    assert_eq!(i.x_u32(xreg(0)), 1);
    assert!(i.xneq32(ops(0, 1, 1)).is_continue());
    assert_eq!(i.x_u32(xreg(0)), 0);
    assert!(i.xeq32(ops(0, 1, 2)).is_continue());
    assert_eq!(i.x_u32(xreg(0)), 0);
    assert!(i.xneq64(ops(0, 1, 2)).is_continue());
    assert_eq!(i.x_u32(xreg(0)), 1);
    assert!(i.xslt32(ops(0, 2, 1)).is_continue());
    assert_eq!(i.x_u32(xreg(0)), 0);
    assert!(i.xult32(ops(0, 2, 1)).is_continue());
    assert_eq!(i.x_u32(xreg(0)), 1);
    assert!(i.xslteq64(ops(0, 2, 1)).is_continue());
    assert_eq!(i.x_u32(xreg(0)), 0);
    assert!(i.xulteq64(ops(0, 2, 1)).is_continue());
    assert_eq!(i.x_u32(xreg(0)), 1);
    assert!(i.xmin32_s(ops(0, 1, 2)).is_continue());
    assert_eq!(i.x_i32(xreg(0)), -1);
    assert!(i.xmin32_u(ops(0, 1, 2)).is_continue());
    assert_eq!(i.x_u32(xreg(0)), 1);
    assert!(i.xmax64_s(ops(0, 1, 2)).is_continue());
    assert_eq!(i.x_i64(xreg(0)), 1);
    assert!(i.xmax64_u(ops(0, 1, 2)).is_continue());
    assert_eq!(i.x_u64(xreg(0)), u64::MAX);
    assert!(i.xmax32_s(ops(0, 1, 2)).is_continue());
    assert_eq!(i.x_i32(xreg(0)), 1);
    assert!(i.xmax32_u(ops(0, 1, 2)).is_continue());
    assert_eq!(i.x_u32(xreg(0)), u32::MAX);
    assert!(i.xmin64_s(ops(0, 1, 2)).is_continue());
    assert_eq!(i.x_i64(xreg(0)), -1);
    assert!(i.xmin64_u(ops(0, 1, 2)).is_continue());
    assert_eq!(i.x_u64(xreg(0)), 1);
}

#[test]
fn extensions_and_constants() {
    let mut i = with_u64(&[(1, 0x1234_5678_9abc_def0)]);
    assert!(i.zext8(xreg(0), xreg(1)).is_continue());
    assert_eq!(i.x_u64(xreg(0)), 0xf0);
    assert!(i.zext16(xreg(0), xreg(1)).is_continue());
    assert_eq!(i.x_u64(xreg(0)), 0xdef0);
    assert!(i.zext32(xreg(0), xreg(1)).is_continue());
    assert_eq!(i.x_u64(xreg(0)), 0x9abc_def0);
    assert!(i.sext8(xreg(0), xreg(1)).is_continue());
    assert_eq!(i.x_i64(xreg(0)), -16);
    assert!(i.sext16(xreg(0), xreg(1)).is_continue());
    assert_eq!(i.x_i64(xreg(0)), 0xdef0u16 as i16 as i64);
    assert!(i.sext32(xreg(0), xreg(1)).is_continue());
    assert_eq!(i.x_i64(xreg(0)), 0x9abc_def0u32 as i32 as i64);
    assert!(i.xconst8(xreg(0), -1).is_continue());
    assert_eq!(i.x_u64(xreg(0)), u64::MAX);
    assert!(i.xconst16(xreg(0), 0x7fff).is_continue());
    assert_eq!(i.x_u64(xreg(0)), 0x7fff);
    assert!(i.xconst32(xreg(0), i32::MIN).is_continue());
    assert_eq!(i.x_i64(xreg(0)), i32::MIN as i64);
    assert!(i.xconst64(xreg(0), i64::MAX).is_continue());
    assert_eq!(i.x_i64(xreg(0)), i64::MAX);
    assert!(i.xone(xreg(0)).is_continue());
    assert_eq!(i.x_u64(xreg(0)), 1);
    assert!(i.xzero(xreg(0)).is_continue());
    assert_eq!(i.x_u64(xreg(0)), 0);
    assert!(i.xmov(xreg(0), xreg(1)).is_continue());
    assert_eq!(i.x_u64(xreg(0)), 0x1234_5678_9abc_def0);
    assert!(i.nop().is_continue());
    assert!(i.xmov_fp(xreg(0)).is_continue());
    assert_eq!(i.x_u64(xreg(0)), HOST_RETURN_ADDR);
    i.set_lr(0x44);
    assert!(i.xmov_lr(xreg(0)).is_continue());
    assert_eq!(i.x_u64(xreg(0)), 0x44);
}

#[test]
fn bit_operations() {
    let mut i = with_u64(&[(1, 0xff00_ff00_0f0f_0f0f), (2, 0x0ff0_0ff0_00ff_00ff)]);
    assert!(i.xband64(ops(0, 1, 2)).is_continue());
    assert_eq!(i.x_u64(xreg(0)), 0x0f00_0f00_000f_000f);
    assert!(i.xbor32(ops(0, 1, 2)).is_continue());
    assert_eq!(i.x_u32(xreg(0)), 0x0fff_0fff);
    assert!(i.xbxor64(ops(0, 1, 2)).is_continue());
    assert_eq!(i.x_u64(xreg(0)), 0xf0f0_f0f0_0ff0_0ff0);
    assert!(i.xband32(ops(0, 1, 2)).is_continue());
    assert_eq!(i.x_u32(xreg(0)), 0x000f_000f);
    assert!(i.xbor64(ops(0, 1, 2)).is_continue());
    assert_eq!(i.x_u64(xreg(0)), 0xfff0_fff0_0fff_0fff);
    assert!(i.xbxor32(ops(0, 1, 2)).is_continue());
    assert_eq!(i.x_u32(xreg(0)), 0x0ff0_0ff0);
    assert!(i.xband64_s8(xreg(0), xreg(1), -16).is_continue());
    assert_eq!(i.x_u64(xreg(0)), 0xff00_ff00_0f0f_0f00);
    assert!(i.xbor32_s32(xreg(0), xreg(1), 0x30).is_continue());
    assert_eq!(i.x_u32(xreg(0)), 0x0f0f_0f3f);
    assert!(i.xbxor64_s32(xreg(0), xreg(1), -1).is_continue());
    assert_eq!(i.x_u64(xreg(0)), !0xff00_ff00_0f0f_0f0fu64);
    assert!(i.xbnot32(xreg(0), xreg(1)).is_continue());
    assert_eq!(i.x_u32(xreg(0)), 0xf0f0_f0f0);
    assert!(i.xbnot64(xreg(0), xreg(1)).is_continue());
    assert_eq!(i.x_u64(xreg(0)), 0x00ff_00ff_f0f0_f0f0);
    assert!(i.xpopcnt32(xreg(0), xreg(1)).is_continue());
    assert_eq!(i.x_u32(xreg(0)), 16);
    assert!(i.xpopcnt64(xreg(0), xreg(1)).is_continue());
    assert_eq!(i.x_u64(xreg(0)), 32);
    i.set_x_u64(xreg(3), 0x0000_0100_0000_1000);
    assert!(i.xctz32(xreg(0), xreg(3)).is_continue());
    assert_eq!(i.x_u32(xreg(0)), 12);
    assert!(i.xclz32(xreg(0), xreg(3)).is_continue());
    assert_eq!(i.x_u32(xreg(0)), 19);
    assert!(i.xctz64(xreg(0), xreg(3)).is_continue());
    assert_eq!(i.x_u64(xreg(0)), 12);
    assert!(i.xclz64(xreg(0), xreg(3)).is_continue());
    assert_eq!(i.x_u64(xreg(0)), 23);
    i.set_x_u64(xreg(4), 0);
    assert!(i.xctz32(xreg(0), xreg(4)).is_continue());
    assert_eq!(i.x_u32(xreg(0)), 32);
    assert!(i.xclz64(xreg(0), xreg(4)).is_continue());
    assert_eq!(i.x_u64(xreg(0)), 64);
    assert!(i.xbmask32(xreg(0), xreg(4)).is_continue());
    assert_eq!(i.x_u32(xreg(0)), 0);
    assert!(i.xbmask32(xreg(0), xreg(3)).is_continue());
    assert_eq!(i.x_u32(xreg(0)), u32::MAX);
    assert!(i.xbmask64(xreg(0), xreg(3)).is_continue());
    assert_eq!(i.x_u64(xreg(0)), u64::MAX);
    assert!(i.xbmask64(xreg(0), xreg(4)).is_continue());
    assert_eq!(i.x_u64(xreg(0)), 0);
}

#[test]
fn rotations_and_byte_swaps() {
    assert_eq!(rotl32(0x8000_0001, 1), 0x8000_0001u32.rotate_left(1));
    assert_eq!(rotl32(0x1234_5678, 0), 0x1234_5678);
    assert_eq!(rotl32(0x1234_5678, 36), 0x1234_5678u32.rotate_left(36));
    assert_eq!(rotr64(0x1234_5678_9abc_def0, 4), 0x0123_4567_89ab_cdef);
    assert_eq!(rotr64(0x1234_5678_9abc_def0, 64), 0x1234_5678_9abc_def0);
    assert_eq!(swap_bytes16(0x1234), 0x3412);
    assert_eq!(swap_bytes32(0x1234_5678), 0x7856_3412);
    assert_eq!(swap_bytes64(0x0102_0304_0506_0708), 0x0807_0605_0403_0201);
    let mut i = with_u64(&[(1, 0x1234_5678_9abc_def0), (2, 8)]);
    assert!(i.xrotl32(ops(0, 1, 2)).is_continue());
    assert_eq!(i.x_u32(xreg(0)), 0xbcde_f09a);
    assert!(i.xrotr32(ops(0, 1, 2)).is_continue());
    assert_eq!(i.x_u32(xreg(0)), 0xf09a_bcde);
    assert!(i.xrotl64(ops(0, 1, 2)).is_continue());
    assert_eq!(i.x_u64(xreg(0)), 0x3456_789a_bcde_f012);
    assert!(i.xrotr64(ops(0, 1, 2)).is_continue());
    assert_eq!(i.x_u64(xreg(0)), 0xf012_3456_789a_bcde);
    assert!(i.bswap32(xreg(0), xreg(1)).is_continue());
    assert_eq!(i.x_u32(xreg(0)), 0xf0de_bc9a);
    assert!(i.bswap64(xreg(0), xreg(1)).is_continue());
    assert_eq!(i.x_u64(xreg(0)), 0xf0de_bc9a_7856_3412);
}

#[test]
fn high_halves_of_products() {
    let mut i = with_u64(&[(1, u64::MAX), (2, u64::MAX)]);
    assert!(i.xmulhi64_u(ops(0, 1, 2)).is_continue());
    assert_eq!(i.x_u64(xreg(0)), u64::MAX - 1);
    assert!(i.xmulhi64_s(ops(0, 1, 2)).is_continue());
    assert_eq!(i.x_i64(xreg(0)), 0);
    i.set_x_i64(xreg(1), i64::MIN);
    i.set_x_i64(xreg(2), 2);
    assert!(i.xmulhi64_s(ops(0, 1, 2)).is_continue());
    assert_eq!(i.x_i64(xreg(0)), -1);
    assert!(i.xwidemul64_u(xreg(3), xreg(4), xreg(1), xreg(2)).is_continue());
    assert_eq!(i.get_u128(xreg(3), xreg(4)), 1u128 << 64);
}

#[test]
fn jump_tables() {
    let mut i = with_u64(&[(1, 2), (2, 9), (3, (1 << 32) | 1)]);
    assert_eq!(i.br_table32_entry(xreg(1), 4), 2);
    // A number beyond the table selects the last entry.
    assert_eq!(i.br_table32_entry(xreg(2), 4), 3);
    // Only the lower half of the register counts.
    assert_eq!(i.br_table32_entry(xreg(3), 4), 1);
    assert_eq!(i.br_table32_entry(xreg(2), 1), 0);
    // The offset is measured from the entry, which lies 4 * 2 bytes
    // behind the instruction.
    assert!(i.br_table32_jump(2, PcRelOffset(-0x10)).is_continue());
    assert_eq!(i.pc(), 0x1000 + 8 - 0x10);
}

#[test]
fn signed_wide_product() {
    let mut i = with_u64(&[(1, (-3i64) as u64), (2, 5)]);
    assert!(i.xwidemul64_s(xreg(3), xreg(4), xreg(1), xreg(2)).is_continue());
    assert_eq!(i.get_u128(xreg(3), xreg(4)), (-15i128) as u128);
    i.set_x_i64(xreg(1), i64::MIN);
    i.set_x_i64(xreg(2), i64::MIN);
    assert!(i.xwidemul64_s(xreg(3), xreg(4), xreg(1), xreg(2)).is_continue());
    assert_eq!(i.get_u128(xreg(3), xreg(4)), 1u128 << 126);
}

#[test]
fn wide_additions() {
    let mut i = with_u64(&[(1, u64::MAX), (2, 0), (3, 1), (4, 0)]);
    assert!(i.xadd128(xreg(5), xreg(6), xreg(1), xreg(2), xreg(3), xreg(4)).is_continue());
    assert_eq!(i.x_u64(xreg(5)), 0);
    assert_eq!(i.x_u64(xreg(6)), 1);
    assert!(i.xsub128(xreg(5), xreg(6), xreg(2), xreg(2), xreg(3), xreg(4)).is_continue());
    assert_eq!(i.get_u128(xreg(5), xreg(6)), u128::MAX);
    i.set_u128(xreg(1), xreg(2), u128::MAX);
    assert!(i.xadd128(xreg(5), xreg(6), xreg(1), xreg(2), xreg(3), xreg(4)).is_continue());
    assert_eq!(i.get_u128(xreg(5), xreg(6)), 0);
}

#[test]
fn selects() {
    let mut i = with_u64(&[(1, 1 << 32), (2, 10), (3, 20)]);
    // Only the lower half of the condition counts.
    assert!(i.xselect32(xreg(0), xreg(1), xreg(2), xreg(3)).is_continue());
    assert_eq!(i.x_u32(xreg(0)), 20);
    assert!(i.xselect64(xreg(0), xreg(2), xreg(2), xreg(3)).is_continue());
    assert_eq!(i.x_u64(xreg(0)), 10);
    i.set_f64_bits(freg(1), 11);
    i.set_f64_bits(freg(2), 22);
    assert!(i.fselect64(freg(0), xreg(1), freg(1), freg(2)).is_continue());
    assert_eq!(i.f(freg(0)).get_f64_bits(), 22);
    assert!(i.fselect32(freg(0), xreg(2), freg(1), freg(2)).is_continue());
    assert_eq!(i.f(freg(0)).get_f32_bits(), 11);
}

#[test]
fn jumps_are_measured_from_the_start_of_the_instruction() {
    let mut i = interp();
    // A jump is five bytes wide: the instruction begins at 0x1000 - 5.
    assert!(i.jump(PcRelOffset(0x100)).is_continue());
    assert_eq!(i.pc(), 0x1000 - 5 + 0x100);
    i.set_pc(0x1000);
    assert!(i.jump(PcRelOffset(-0x20)).is_continue());
    assert_eq!(i.pc(), 0x1000 - 5 - 0x20);
    i.set_pc(0x1000);
    assert_eq!(i.current_pc::<Ret>(), 0xfff);
    assert!(i.pc_rel_jump::<Ret>(PcRelOffset(1)).is_continue());
    assert_eq!(i.pc(), 0x1000);
    i.set_x_u64(xreg(7), 0x5000);
    assert!(i.xjump(xreg(7)).is_continue());
    assert_eq!(i.pc(), 0x5000);
}

#[test]
fn branches() {
    let mut i = with_u64(&[(1, 5), (2, (-5i64) as u64), (3, 1 << 32)]);
    let off = PcRelOffset(0x40);
    // Taken: from the start of the seven-byte instruction.
    assert!(i.br_if_xslt32(xreg(2), xreg(1), off).is_continue());
    assert_eq!(i.pc(), 0x1000 - 7 + 0x40);
    i.set_pc(0x1000);
    // Not taken: the program counter stays.
    assert!(i.br_if_xult32(xreg(2), xreg(1), off).is_continue());
    assert_eq!(i.pc(), 0x1000);
    assert!(i.br_if_xeq64(xreg(1), xreg(2), off).is_continue());
    assert_eq!(i.pc(), 0x1000);
    assert!(i.br_if_xneq64(xreg(1), xreg(2), off).is_continue());
    assert_eq!(i.pc(), 0x1000 - 7 + 0x40);
    i.set_pc(0x1000);
    // Only the lower half of the condition counts.
    assert!(i.br_if32(xreg(3), off).is_continue());
    assert_eq!(i.pc(), 0x1000);
    assert!(i.br_if_not32(xreg(3), off).is_continue());
    assert_eq!(i.pc(), 0x1000 - 6 + 0x40);
    i.set_pc(0x1000);
    assert!(i.br_if_xeq32_i8(xreg(2), -5, off).is_continue());
    assert_eq!(i.pc(), 0x1000 - 7 + 0x40);
    i.set_pc(0x1000);
    assert!(i.br_if_xsgt64_i32(xreg(2), -6, off).is_continue());
    assert_eq!(i.pc(), 0x1000 - 10 + 0x40);
    i.set_pc(0x1000);
    assert!(i.br_if_xugteq64_u8(xreg(2), 255, off).is_continue());
    assert_eq!(i.pc(), 0x1000 - 7 + 0x40);
    i.set_pc(0x1000);
    assert!(i.br_if_xult32_u32(xreg(1), 5, off).is_continue());
    assert_eq!(i.pc(), 0x1000);
    assert!(i.br_if_xulteq32_u32(xreg(1), 5, off).is_continue());
    assert_eq!(i.pc(), 0x1000 - 10 + 0x40);
}

#[test]
fn calls_and_returns() {
    let mut i = with_u64(&[(5, 50), (6, 60), (7, 70), (8, 80)]);
    assert!(i.call4(xreg(8), xreg(7), xreg(6), xreg(5), PcRelOffset(0x200)).is_continue());
    assert_eq!(i.lr(), 0x1000);
    assert_eq!(i.pc(), 0x1000 - 9 + 0x200);
    assert_eq!(
        [i.x_u64(xreg(0)), i.x_u64(xreg(1)), i.x_u64(xreg(2)), i.x_u64(xreg(3))],
        [80, 70, 60, 50]
    );
    // The sources are read before any argument register is written.
    assert!(i.call2(xreg(1), xreg(0), PcRelOffset(0)).is_continue());
    assert_eq!([i.x_u64(xreg(0)), i.x_u64(xreg(1))], [70, 80]);
    assert!(i.ret().is_continue());
    assert_eq!(i.pc(), 0x1000 - 9 + 0x200);
    i.set_x_u64(xreg(9), 0x7000);
    assert!(i.call_indirect(xreg(9)).is_continue());
    assert_eq!(i.pc(), 0x7000);
    assert!(i.call(PcRelOffset(8)).is_continue());
    assert_eq!(i.lr(), 0x7000);
    assert_eq!(i.pc(), 0x7000 - 5 + 8);
    assert!(i.call1(xreg(5), PcRelOffset(0)).is_continue());
    assert_eq!(i.x_u64(xreg(0)), 50);
    assert!(i.call3(xreg(6), xreg(6), xreg(6), PcRelOffset(0)).is_continue());
    assert_eq!(i.x_u64(xreg(2)), 60);
}

#[test]
fn return_to_the_host_ends_the_run() {
    let mut i = interp();
    match i.ret() {
        ControlFlow::Break(done) => {
            let mut state = i.into_state();
            assert!(matches!(state.done_decode(done), DoneReason::ReturnToHost(())));
        }
        ControlFlow::Continue(()) => panic!("went on"),
    }
    let mut i = interp();
    match i.call_indirect_host(9) {
        ControlFlow::Break(done) => {
            let mut state = i.into_state();
            assert!(matches!(
                state.done_decode(done),
                DoneReason::CallIndirectHost { id: 9, resume: 0x1000 }
            ));
        }
        ControlFlow::Continue(()) => panic!("went on"),
    }
    let mut i = interp();
    let r = i.trap();
    assert_eq!(trap_of(i, r), (0x1000 - 3, None));
    let mut i = interp();
    let r = i.done_trap_kind::<Ret>(Some(TrapKind::DisabledOpcode));
    assert_eq!(trap_of(i, r), (0xfff, Some(TrapKind::DisabledOpcode)));
    let mut i = interp();
    let r = i.done_trap::<XDiv32S>();
    assert_eq!(trap_of(i, r), (0xffd, None));
}

#[test]
fn stack_allocation() {
    let mut i = interp();
    let top = i.state().sp();
    assert!(i.stack_alloc32(48).is_continue());
    assert_eq!(i.state().sp(), top - 48);
    assert!(i.stack_free32(16).is_continue());
    assert_eq!(i.state().sp(), top - 32);
    let before = i.state().sp();
    let r = i.stack_alloc32(33);
    assert_eq!(i.state().sp(), before);
    assert_eq!(trap_of(i, r), (0x1000 - 5, Some(TrapKind::StackOverflow)));
    let mut i = interp();
    let r = i.stack_alloc32(u32::MAX);
    assert_eq!(trap_of(i, r), (0x1000 - 5, Some(TrapKind::StackOverflow)));
    let mut i = interp();
    assert!(i.set_sp::<Ret>(top - 64).is_continue());
    assert_eq!(i.state().sp(), STACK_BASE);
    let r = i.set_sp::<Ret>(STACK_BASE - 1);
    assert_eq!(trap_of(i, r), (0xfff, Some(TrapKind::StackOverflow)));
}

#[test]
fn frames() {
    let mut i = interp();
    let top = i.state().sp();
    i.set_lr(0x1111);
    i.set_fp(0x2222);
    assert!(i.push_frame().is_continue());
    assert_eq!(i.state().sp(), top - 16);
    assert_eq!(i.fp(), top - 16);
    assert_eq!(i.read::<u64>(top - 8), 0x1111);
    assert_eq!(i.read::<u64>(top - 16), 0x2222);
    i.set_lr(0);
    assert!(i.stack_alloc32(16).is_continue());
    assert!(i.pop_frame().is_continue());
    assert_eq!(i.state().sp(), top);
    assert_eq!(i.lr(), 0x1111);
    assert_eq!(i.fp(), 0x2222);
}

#[test]
fn frames_with_saved_registers() {
    let mut i = with_u64(&[(16, 160), (18, 180), (31, 310)]);
    let top = i.state().sp();
    i.set_lr(0x1111);
    i.set_fp(0x2222);
    let regs = UpperRegSet::from_bits(0b1000_0000_0000_0101);
    assert!(i.push_frame_save(32, regs).is_continue());
    assert_eq!(i.state().sp(), top - 48);
    assert_eq!(i.fp(), top - 16);
    assert_eq!(i.read::<u64>(top - 8), 0x1111);
    assert_eq!(i.read::<u64>(top - 16), 0x2222);
    // The registers lie below the frame pointer, the lowest number
    // highest.
    assert_eq!(i.read::<u64>(top - 24), 160);
    assert_eq!(i.read::<u64>(top - 32), 180);
    assert_eq!(i.read::<u64>(top - 40), 310);
    for reg in [16, 18, 31] {
        i.set_x_u64(xreg(reg), 0);
    }
    i.set_lr(0);
    assert!(i.pop_frame_restore(32, regs).is_continue());
    assert_eq!(i.state().sp(), top);
    assert_eq!(i.lr(), 0x1111);
    assert_eq!(i.fp(), 0x2222);
    assert_eq!([i.x_u64(xreg(16)), i.x_u64(xreg(18)), i.x_u64(xreg(31))], [160, 180, 310]);
    // One check covers the whole frame: too large a frame traps before
    // anything is written.
    let r = i.push_frame_save(64, UpperRegSet::from_bits(0));
    assert_eq!(i.state().sp(), top);
    assert_eq!(trap_of(i, r), (0x1000 - 5, Some(TrapKind::StackOverflow)));
}

#[test]
fn offset_addressing_reads_and_writes() {
    let mut i = interp();
    let top = i.state().sp();
    i.set_x_u64(xreg(1), top - 32);
    i.set_x_u64(xreg(2), 0x1122_3344_5566_7788);
    let at = |offset| AddrO32 { addr: xreg(1), offset };
    assert!(i.xstore64le_o32(at(8), xreg(2)).is_continue());
    assert!(i.xload64le_o32(xreg(0), at(8)).is_continue());
    assert_eq!(i.x_u64(xreg(0)), 0x1122_3344_5566_7788);
    assert!(i.xload32le_o32(xreg(0), at(12)).is_continue());
    assert_eq!(i.x_u64(xreg(0)), 0x1122_3344_1122_3344);
    assert!(i.xload8_u32_o32(xreg(0), at(8)).is_continue());
    assert_eq!(i.x_u32(xreg(0)), 0x88);
    assert!(i.xload8_s32_o32(xreg(0), at(8)).is_continue());
    assert_eq!(i.x_i32(xreg(0)), -0x78);
    assert!(i.xload16le_u32_o32(xreg(0), at(9)).is_continue());
    assert_eq!(i.x_u32(xreg(0)), 0x6677);
    assert!(i.xstore16le_o32(at(0), xreg(2)).is_continue());
    assert!(i.xstore8_o32(at(2), xreg(2)).is_continue());
    assert!(i.xstore32le_o32(at(4), xreg(2)).is_continue());
    assert_eq!(i.read::<u64>(top - 32), 0x5566_7788_0088_7788);
    assert!(i.xload16le_s32_o32(xreg(0), at(-0)).is_continue());
    assert_eq!(i.x_i32(xreg(0)), 0x7788);
    // A negative offset reaches below the register.
    i.set_x_u64(xreg(1), top);
    assert!(i.xload64le_o32(xreg(0), at(-32)).is_continue());
    assert_eq!(i.x_u64(xreg(0)), 0x5566_7788_0088_7788);
}

#[test]
fn big_endian_accesses_reverse_the_bytes() {
    let mut i = interp();
    let top = i.state().sp();
    i.set_x_u64(xreg(1), top - 16);
    i.set_x_u64(xreg(2), 0x1122_3344_5566_7788);
    let at = |offset| AddrO32 { addr: xreg(1), offset };
    assert!(i.xstore64be_o32(at(0), xreg(2)).is_continue());
    assert_eq!(i.read::<u8>(top - 16), 0x11);
    assert_eq!(i.read::<u64>(top - 16), 0x8877_6655_4433_2211);
    assert!(i.xload64be_o32(xreg(0), at(0)).is_continue());
    assert_eq!(i.x_u64(xreg(0)), 0x1122_3344_5566_7788);
    assert!(i.xload32be_o32(xreg(0), at(0)).is_continue());
    assert_eq!(i.x_u32(xreg(0)), 0x1122_3344);
    assert!(i.xload16be_u32_o32(xreg(0), at(6)).is_continue());
    assert_eq!(i.x_u32(xreg(0)), 0x7788);
    i.write::<u16>(top - 8, 0x80ff);
    assert!(i.xload16be_s32_o32(xreg(0), at(8)).is_continue());
    assert_eq!(i.x_i32(xreg(0)), 0xff80u16 as i16 as i32);
    assert!(i.xstore32be_o32(at(8), xreg(2)).is_continue());
    assert_eq!(i.read::<u32>(top - 8), 0x8877_6655);
    assert!(i.xstore16be_o32(at(12), xreg(2)).is_continue());
    assert_eq!(i.read::<u16>(top - 4), 0x8877);
    i.set_f64_bits(freg(1), 0x0102_0304_0506_0708);
    assert!(i.fstore64be_o32(at(0), freg(1)).is_continue());
    assert_eq!(i.read::<u64>(top - 16), 0x0807_0605_0403_0201);
    assert!(i.fload32be_o32(freg(2), at(4)).is_continue());
    assert_eq!(i.f(freg(2)).get_f32_bits(), 0x0506_0708);
    assert!(i.fstore32be_o32(at(0), freg(1)).is_continue());
    assert_eq!(i.read::<u32>(top - 16), 0x0807_0605);
    assert!(i.fload64be_o32(freg(2), at(0)).is_continue());
    assert_eq!(i.f(freg(2)).get_f64_bits(), 0x0506_0708_0506_0708);
}

#[test]
fn null_checked_addressing() {
    let mut i = interp();
    let top = i.state().sp();
    i.set_x_u64(xreg(1), top - 8);
    i.set_x_u64(xreg(2), 0xabcd);
    assert!(i.xstore32le_z(AddrZ { addr: xreg(1), offset: 4 }, xreg(2)).is_continue());
    assert!(i.xload32le_z(xreg(0), AddrZ { addr: xreg(1), offset: 4 }).is_continue());
    assert_eq!(i.x_u32(xreg(0)), 0xabcd);
    // The null address traps, whatever the offset.
    let r = i.xload32le_z(xreg(0), AddrZ { addr: xreg(3), offset: 4 });
    assert_eq!(i.x_u32(xreg(0)), 0xabcd);
    assert_eq!(trap_of(i, r), (0x1000 - 7, Some(TrapKind::MemoryOutOfBounds)));
    let mut i = interp();
    let r = i.xstore8_z(AddrZ { addr: xreg(3), offset: 0 }, xreg(2));
    assert_eq!(trap_of(i, r), (0x1000 - 7, Some(TrapKind::MemoryOutOfBounds)));
}

#[test]
fn bounds_checked_addressing_against_a_register() {
    let mut i = interp();
    let top = i.state().sp();
    // A heap of 32 bytes at the low end of the stack.
    i.set_x_u64(xreg(10), top - 64);
    i.set_x_u64(xreg(11), 32);
    let at = |offset| AddrG32 {
        host_heap_base: xreg(10),
        host_heap_bound: xreg(11),
        wasm_addr: xreg(1),
        offset,
    };
    i.set_x_u64(xreg(2), 0x0102_0304_0506_0708);
    // The last eight bytes: 16 + 8 + 8 == 32.
    i.set_x_u64(xreg(1), 16);
    assert!(i.xstore64le_g32(at(8), xreg(2)).is_continue());
    assert_eq!(i.read::<u64>(top - 64 + 24), 0x0102_0304_0506_0708);
    assert!(i.xload64le_g32(xreg(0), at(8)).is_continue());
    assert_eq!(i.x_u64(xreg(0)), 0x0102_0304_0506_0708);
    assert!(i.xload8_u32_g32(xreg(0), at(15)).is_continue());
    assert_eq!(i.x_u32(xreg(0)), 1);
    // One byte further the access reaches past the bound.
    i.set_x_u64(xreg(1), 17);
    let r = i.xload64le_g32(xreg(0), at(8));
    assert_eq!(trap_of(i, r), (0x1000 - 6, Some(TrapKind::MemoryOutOfBounds)));
    // Only the lower half of the address register counts, and a large
    // address cannot wrap around the bound.
    let mut i = interp();
    i.set_x_u64(xreg(10), top - 64);
    i.set_x_u64(xreg(11), 32);
    i.set_x_u64(xreg(1), (7 << 32) | 4);
    assert!(i.xload32le_g32(xreg(0), at(0)).is_continue());
    i.set_x_u64(xreg(1), u32::MAX as u64);
    let r = i.xstore8_g32(at(0), xreg(2));
    assert_eq!(trap_of(i, r), (0x1000 - 6, Some(TrapKind::MemoryOutOfBounds)));
}

#[test]
fn bounds_checked_addressing_against_memory() {
    let mut i = interp();
    let top = i.state().sp();
    // The bound is kept at the top of the stack, the heap of 16 bytes at
    // the low end.
    i.write::<u64>(top - 8, 16);
    i.set_x_u64(xreg(10), top - 64);
    i.set_x_u64(xreg(11), top - 16);
    let at = |offset| AddrG32Bne {
        host_heap_base: xreg(10),
        host_heap_bound_addr: xreg(11),
        host_heap_bound_offset: 8,
        wasm_addr: xreg(1),
        offset,
    };
    i.set_x_u64(xreg(1), 8);
    i.set_x_u64(xreg(2), 0xfeed);
    assert!(i.xstore32le_g32bne(at(4), xreg(2)).is_continue());
    assert!(i.xload32le_g32bne(xreg(0), at(4)).is_continue());
    assert_eq!(i.x_u32(xreg(0)), 0xfeed);
    assert_eq!(i.read::<u32>(top - 64 + 12), 0xfeed);
    // The bound is read anew for each access.
    i.write::<u64>(top - 8, 15);
    let r = i.xload32le_g32bne(xreg(0), at(4));
    assert_eq!(trap_of(i, r), (0x1000 - 6, Some(TrapKind::MemoryOutOfBounds)));
}

#[test]
fn float_and_vector_registers_in_memory() {
    let mut i = interp();
    let top = i.state().sp();
    i.set_x_u64(xreg(1), top - 32);
    let at = |offset| AddrO32 { addr: xreg(1), offset };
    assert!(i.fconst64(freg(1), 0x4009_21fb_5444_2d18).is_continue());
    assert!(i.fstore64le_o32(at(0), freg(1)).is_continue());
    assert!(i.fload64le_o32(freg(2), at(0)).is_continue());
    assert_eq!(i.f(freg(2)).get_f64_bits(), 0x4009_21fb_5444_2d18);
    assert!(i.fconst32(freg(2), 0x3f80_0000).is_continue());
    assert_eq!(i.f(freg(2)).get_f64_bits(), 0x4009_21fb_3f80_0000);
    assert!(i.fstore32le_o32(at(8), freg(2)).is_continue());
    assert!(i.fload32le_z(freg(3), AddrZ { addr: xreg(1), offset: 8 }).is_continue());
    assert_eq!(i.f(freg(3)).get_f32_bits(), 0x3f80_0000);
    assert!(i.fmov(freg(4), freg(1)).is_continue());
    assert_eq!(i.f(freg(4)).get_f64_bits(), 0x4009_21fb_5444_2d18);
    assert!(i.bitcast_int_from_float_64(xreg(5), freg(1)).is_continue());
    assert_eq!(i.x_u64(xreg(5)), 0x4009_21fb_5444_2d18);
    assert!(i.bitcast_int_from_float_32(xreg(5), freg(3)).is_continue());
    assert_eq!(i.x_u64(xreg(5)), 0x4009_21fb_3f80_0000);
    assert!(i.bitcast_float_from_int_32(freg(5), xreg(5)).is_continue());
    assert_eq!(i.f(freg(5)).get_f32_bits(), 0x3f80_0000);
    assert!(i.bitcast_float_from_int_64(freg(5), xreg(5)).is_continue());
    assert_eq!(i.f(freg(5)).get_f64_bits(), 0x4009_21fb_3f80_0000);
    assert!(i.vconst128(vreg(1), (7 << 64) | 9).is_continue());
    assert!(i.vstore128le_o32(at(16), vreg(1)).is_continue());
    assert_eq!(i.read::<u64>(top - 16), 9);
    assert_eq!(i.read::<u64>(top - 8), 7);
    assert!(i.vload128le_z(vreg(2), AddrZ { addr: xreg(1), offset: 16 }).is_continue());
    assert_eq!(i.v(vreg(2)).get_u128(), (7 << 64) | 9);
    assert!(i.vmov(vreg(3), vreg(2)).is_continue());
    assert_eq!(i.v(vreg(3)).get_u128(), (7 << 64) | 9);
}

#[test]
fn vector_bit_operations() {
    let mut i = interp();
    let v = |n| BinaryOperands { dst: vreg(0), src1: vreg(1), src2: vreg(n) };
    assert!(i.vconst128(vreg(1), 0xff00 << 64 | 0x0f0f).is_continue());
    assert!(i.vconst128(vreg(2), 0x0ff0 << 64 | 0x00ff).is_continue());
    assert!(i.vband128(v(2)).is_continue());
    assert_eq!(i.v(vreg(0)).get_u128(), 0x0f00 << 64 | 0x000f);
    assert!(i.vbor128(v(2)).is_continue());
    assert_eq!(i.v(vreg(0)).get_u128(), 0xfff0 << 64 | 0x0fff);
    assert!(i.vbxor128(v(2)).is_continue());
    assert_eq!(i.v(vreg(0)).get_u128(), 0xf0f0 << 64 | 0x0ff0);
    assert!(i.vbnot128(vreg(0), vreg(1)).is_continue());
    assert_eq!(i.v(vreg(0)).get_u128(), !(0xff00u128 << 64 | 0x0f0f));
    assert!(i.vconst128(vreg(3), 0xffff).is_continue());
    assert!(i.vbitselect128(vreg(0), vreg(3), vreg(1), vreg(2)).is_continue());
    assert_eq!(i.v(vreg(0)).get_u128(), 0x0ff0 << 64 | 0x0f0f);
}

#[test]
fn host_calls_pass_values_in_registers() {
    let mut vm = Vm::with_stack(64);
    assert_eq!(vm.fp(), HOST_RETURN_ADDR);
    vm.set_lr(0x99);
    let args = vec![
        Val::XReg(XRegVal::new_u64(1)),
        Val::FReg(FRegVal::new_f64_bits(2)),
        Val::XReg(XRegVal::new_u64(3)),
        Val::VReg(VRegVal::new_u128(4)),
    ];
    let old_lr = vm.call_start(&args);
    assert_eq!(old_lr, 0x99);
    assert_eq!(vm.lr(), HOST_RETURN_ADDR);
    assert_eq!(vm.state().x(xreg(0)).get_u64(), 1);
    assert_eq!(vm.state().x(xreg(1)).get_u64(), 3);
    assert_eq!(vm.state().f(freg(0)).get_f64_bits(), 2);
    assert_eq!(vm.state().v(vreg(0)).get_u128(), 4);
    vm.state_mut().set_x(xreg(0), XRegVal::new_u64(10));
    vm.state_mut().set_x(xreg(1), XRegVal::new_u64(11));
    let rets = vm.call_end(
        old_lr,
        &vec![RegType::XReg, RegType::VReg, RegType::XReg, RegType::FReg],
    );
    assert_eq!(vm.lr(), 0x99);
    assert_eq!(
        rets,
        vec![
            Val::XReg(XRegVal::new_u64(10)),
            Val::VReg(VRegVal::new_u128(4)),
            Val::XReg(XRegVal::new_u64(11)),
            Val::FReg(FRegVal::new_f64_bits(2)),
        ]
    );
    vm.set_fp(0x77);
    assert_eq!(vm.fp(), 0x77);
    vm.record_executing_pc(0x1234);
    assert_eq!(vm.executing_pc(), 0x1234);
    let vm = Vm::new();
    assert_eq!(vm.state().stack_end() - vm.state().stack_base(), 1 << 20);
}

#[test]
fn step_runs_the_handler_of_the_instruction() {
    let mut i = with_u64(&[(1, 40), (2, 2)]);
    assert!(i.step(Op::Xadd64 { operands: ops(0, 1, 2) }).is_continue());
    assert_eq!(i.x_u64(xreg(0)), 42);
    assert!(i.step(Op::Jump { offset: PcRelOffset(16) }).is_continue());
    assert_eq!(i.pc(), 0x1000 - 5 + 16);
    i.set_x_u64(xreg(2), 0);
    let r = i.step(Op::Xdiv64U { operands: ops(0, 1, 2) });
    assert_eq!(trap_of(i, r), (0x1000 - 5 + 16 - 3, Some(TrapKind::DivideByZero)));
    let mut i = interp();
    assert!(i.step(Op::Ret).is_break());
}

#[test]
fn readiness_of_instructions() {
    let mut i = interp();
    let top = i.state().sp();
    i.set_x_u64(xreg(1), top - 8);
    let load = |offset| Op::Xload64leO32 { dst: xreg(0), addr: AddrO32 { addr: xreg(1), offset } };
    assert!(i.is_ready(load(0)));
    // One byte further the access leaves the stack.
    assert!(!i.is_ready(load(1)));
    assert!(i.is_ready(load(-56)));
    assert!(!i.is_ready(load(-57)));
    // A null address traps, so the instruction may run.
    assert!(i.is_ready(Op::Xload64leZ { dst: xreg(0), addr: AddrZ { addr: xreg(2), offset: 0 } }));
    assert!(i.is_ready(Op::Xadd32 { operands: ops(0, 1, 2) }));
    assert!(i.is_ready(Op::PushFrame));
    // A frame pointer that leads to the host has no frame to pop.
    assert!(!i.is_ready(Op::PopFrame));
    assert!(i.step(Op::PushFrame).is_continue());
    assert!(i.is_ready(Op::PopFrame));
    assert!(i.is_ready(Op::StackFree32 { amt: 16 }));
    assert!(!i.is_ready(Op::StackFree32 { amt: 17 }));
    let regs = UpperRegSet::from_bits(0b11);
    assert!(i.is_ready(Op::PushFrameSave { amt: 16, regs }));
    // Eight bytes do not hold two registers.
    assert!(!i.is_ready(Op::PushFrameSave { amt: 8, regs }));
    assert!(i.step(Op::PushFrameSave { amt: 16, regs }).is_continue());
    assert!(i.is_ready(Op::PopFrameRestore { amt: 16, regs }));
    i.set_sp_unchecked(top);
    assert!(!i.is_ready(Op::PopFrameRestore { amt: 16, regs }));
    i.set_x_u64(XReg::sp(), 5);
    assert!(!i.is_ready(Op::PushFrame));
    assert!(!i.is_ready(Op::StackAlloc32 { amt: 0 }));
    // The bound of a heap must cover the offset and the size.
    i.set_x_u64(xreg(11), 9);
    let heap = |offset| Op::Xload64leG32 {
        dst: xreg(0),
        addr: AddrG32 { host_heap_base: xreg(1), host_heap_bound: xreg(11), wasm_addr: xreg(2), offset },
    };
    assert!(!i.is_ready(heap(2)));
    assert!(i.is_ready(heap(0)));
}

#[test]
fn runs_begin_and_end_at_the_machine() {
    let vm = Vm::with_stack(32);
    let mut i = vm.begin_run(0x2000);
    assert_eq!(i.pc(), 0x2000);
    assert!(i.step(Op::Xone { dst: xreg(4) }).is_continue());
    i.set_pc(0x2004);
    match i.step(Op::CallIndirectHost { id: 3 }) {
        ControlFlow::Break(done) => {
            let (vm, reason) = Vm::end_run(i, done);
            assert!(matches!(reason, DoneReason::CallIndirectHost { id: 3, resume: 0x2004 }));
            assert_eq!(vm.state().x(xreg(4)).get_u64(), 1);
            assert_eq!(vm.executing_pc(), 0x2004);
        }
        ControlFlow::Continue(()) => panic!("went on"),
    }
}

#[test]
fn a_stop_is_recorded() {
    let ops = BinaryOperands { dst: xreg(0), src1: xreg(1), src2: xreg(2) };
    let cases = [
        (Op::Xadd32 { operands: ops }, false),
        (Op::Xdiv32S { operands: ops }, true),
        (Op::Trap, true),
        (Op::Ret, true),
        (Op::CallIndirectHost { id: 3 }, true),
        (Op::Jump { offset: PcRelOffset(8) }, false),
        (Op::Xconst8 { dst: xreg(4), imm: 1 }, false),
    ];
    for (op, stops) in cases {
        let mut i = Interpreter::new(MachineState::with_stack(64), 0x1000);
        assert!(!i.state().has_stopped());
        assert!(i.is_ready(op));
        let r = i.step(op);
        assert_eq!(r.is_break(), stops);
        assert_eq!(i.state().has_stopped(), stops);
        if let std::ops::ControlFlow::Break(done) = r {
            let mut state = i.into_state();
            let _ = state.done_decode(done);
            assert!(!state.has_stopped());
        }
    }
}
