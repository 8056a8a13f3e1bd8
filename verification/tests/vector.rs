use abi_interp::interp::dispatch::Op;
use abi_interp::interp::lanes::shuffle_mask_ok;
use abi_interp::interp::machine::Interpreter;
use abi_interp::interp::regs::{AddrZ, BinaryOperands, FReg, VReg, XReg};
use abi_interp::interp::state::{DoneReason, MachineState, TrapKind};
use abi_interp::interp::value::VRegVal;

fn vreg(n: u8) -> VReg {
    VReg::new(n).unwrap()
}

fn xreg(n: u8) -> XReg {
    XReg::new(n).unwrap()
}

fn ops() -> BinaryOperands<VReg> {
    BinaryOperands { dst: vreg(0), src1: vreg(1), src2: vreg(2) }
}

fn by_x() -> BinaryOperands<VReg, VReg, XReg> {
    BinaryOperands { dst: vreg(0), src1: vreg(1), src2: xreg(2) }
}

const A: u128 = 0x80ff_7f01_0000_ffff_8000_7fff_0102_03fe;
const B: u128 = 0x8001_7fff_0001_0001_8001_0001_fffe_fd02;

fn interp() -> Interpreter {
    let mut i = Interpreter::new(MachineState::with_stack(32), 0x1000);
    i.set_v128(vreg(1), A);
    i.set_v128(vreg(2), B);
    i
}

fn result(i: &Interpreter) -> VRegVal {
    i.v(vreg(0))
}

fn a8() -> [u8; 16] {
    A.to_le_bytes()
}

fn b8() -> [u8; 16] {
    B.to_le_bytes()
}

fn lanes16(v: u128) -> [u16; 8] {
    let b = v.to_le_bytes();
    std::array::from_fn(|i| u16::from_le_bytes([b[2 * i], b[2 * i + 1]]))
}

fn lanes32(v: u128) -> [u32; 4] {
    let b = v.to_le_bytes();
    std::array::from_fn(
        |i| u32::from_le_bytes([b[4 * i], b[4 * i + 1], b[4 * i + 2], b[4 * i + 3]]),
    )
}

fn lanes64(v: u128) -> [u64; 2] {
    [v as u64, (v >> 64) as u64]
}

#[test]
fn lanes_are_little_endian() {
    let v = VRegVal::new_u128(A);
    assert_eq!(v.get_u8x16(), a8());
    assert_eq!(v.get_u16x8(), lanes16(A));
    assert_eq!(v.get_u32x4(), lanes32(A));
    assert_eq!(v.get_u64x2(), lanes64(A));
    let mut w = VRegVal::new_u128(0);
    w.set_u8x16(a8());
    assert_eq!(w.get_u128(), A);
    w.set_u16x8(lanes16(B));
    assert_eq!(w.get_u128(), B);
    w.set_u32x4(lanes32(A));
    assert_eq!(w.get_u128(), A);
    w.set_u64x2(lanes64(B));
    assert_eq!(w.get_u128(), B);
}

#[test]
fn wrapping_lane_arithmetic() {
    let mut i = interp();
    assert!(i.vaddi8x16(ops()).is_continue());
    assert_eq!(result(&i).get_u8x16(), std::array::from_fn(|k| a8()[k].wrapping_add(b8()[k])));
    assert!(i.vsubi16x8(ops()).is_continue());
    assert_eq!(
        result(&i).get_u16x8(),
        std::array::from_fn(|k| lanes16(A)[k].wrapping_sub(lanes16(B)[k]))
    );
    assert!(i.vmuli32x4(ops()).is_continue());
    assert_eq!(
        result(&i).get_u32x4(),
        std::array::from_fn(|k| lanes32(A)[k].wrapping_mul(lanes32(B)[k]))
    );
    assert!(i.vaddi64x2(ops()).is_continue());
    assert_eq!(
        result(&i).get_u64x2(),
        std::array::from_fn(|k| lanes64(A)[k].wrapping_add(lanes64(B)[k]))
    );
    assert!(i.vmuli8x16(ops()).is_continue());
    assert_eq!(result(&i).get_u8x16(), std::array::from_fn(|k| a8()[k].wrapping_mul(b8()[k])));
    assert!(i.vneg16x8(vreg(0), vreg(1)).is_continue());
    assert_eq!(
        result(&i).get_u16x8(),
        std::array::from_fn(|k| (lanes16(A)[k] as i16).wrapping_neg() as u16)
    );
    assert!(i.vabs8x16(vreg(0), vreg(1)).is_continue());
    assert_eq!(
        result(&i).get_u8x16(),
        std::array::from_fn(|k| (a8()[k] as i8).wrapping_abs() as u8)
    );
    assert!(i.vabs64x2(vreg(0), vreg(1)).is_continue());
    assert_eq!(
        result(&i).get_u64x2(),
        std::array::from_fn(|k| (lanes64(A)[k] as i64).wrapping_abs() as u64)
    );
}

#[test]
fn saturating_lane_arithmetic() {
    let mut i = interp();
    assert!(i.vaddi8x16_sat(ops()).is_continue());
    assert_eq!(
        result(&i).get_u8x16(),
        std::array::from_fn(|k| (a8()[k] as i8).saturating_add(b8()[k] as i8) as u8)
    );
    assert!(i.vaddu8x16_sat(ops()).is_continue());
    assert_eq!(result(&i).get_u8x16(), std::array::from_fn(|k| a8()[k].saturating_add(b8()[k])));
    assert!(i.vsubi16x8_sat(ops()).is_continue());
    assert_eq!(
        result(&i).get_u16x8(),
        std::array::from_fn(|k| (lanes16(A)[k] as i16).saturating_sub(lanes16(B)[k] as i16) as u16)
    );
    assert!(i.vsubu16x8_sat(ops()).is_continue());
    assert_eq!(
        result(&i).get_u16x8(),
        std::array::from_fn(|k| lanes16(A)[k].saturating_sub(lanes16(B)[k]))
    );
    assert!(i.vaddi16x8_sat(ops()).is_continue());
    assert_eq!(
        result(&i).get_u16x8(),
        std::array::from_fn(|k| (lanes16(A)[k] as i16).saturating_add(lanes16(B)[k] as i16) as u16)
    );
    assert!(i.vsubu8x16_sat(ops()).is_continue());
    assert_eq!(result(&i).get_u8x16(), std::array::from_fn(|k| a8()[k].saturating_sub(b8()[k])));
    assert!(i.vqmulrsi16x8(ops()).is_continue());
    assert_eq!(
        result(&i).get_u16x8(),
        std::array::from_fn(|k| {
            let x = lanes16(A)[k] as i16 as i32;
            let y = lanes16(B)[k] as i16 as i32;
            ((x * y + (1 << 14)) >> 15).clamp(i16::MIN as i32, i16::MAX as i32) as i16 as u16
        })
    );
    assert!(i.vavground8x16(ops()).is_continue());
    assert_eq!(
        result(&i).get_u8x16(),
        std::array::from_fn(|k| ((a8()[k] as u32 + b8()[k] as u32 + 1) / 2) as u8)
    );
    assert!(i.vpopcnt8x16(vreg(0), vreg(1)).is_continue());
    assert_eq!(result(&i).get_u8x16(), std::array::from_fn(|k| a8()[k].count_ones() as u8));
}

#[test]
fn lane_shifts() {
    let mut i = interp();
    i.set_x_u64(xreg(2), 9);
    assert!(i.vshli8x16(by_x()).is_continue());
    assert_eq!(result(&i).get_u8x16(), std::array::from_fn(|k| a8()[k].wrapping_shl(9)));
    assert!(i.vshri8x16_s(by_x()).is_continue());
    assert_eq!(
        result(&i).get_u8x16(),
        std::array::from_fn(|k| (a8()[k] as i8).wrapping_shr(9) as u8)
    );
    assert!(i.vshri16x8_u(by_x()).is_continue());
    assert_eq!(result(&i).get_u16x8(), std::array::from_fn(|k| lanes16(A)[k].wrapping_shr(9)));
    assert!(i.vshri32x4_s(by_x()).is_continue());
    assert_eq!(
        result(&i).get_u32x4(),
        std::array::from_fn(|k| (lanes32(A)[k] as i32).wrapping_shr(9) as u32)
    );
    i.set_x_u64(xreg(2), 65);
    assert!(i.vshli64x2(by_x()).is_continue());
    assert_eq!(result(&i).get_u64x2(), std::array::from_fn(|k| lanes64(A)[k].wrapping_shl(65)));
    assert!(i.vshri64x2_s(by_x()).is_continue());
    assert_eq!(
        result(&i).get_u64x2(),
        std::array::from_fn(|k| (lanes64(A)[k] as i64).wrapping_shr(65) as u64)
    );
}

#[test]
fn lane_comparisons() {
    let mut i = interp();
    let mask8 = |f: fn(u8, u8) -> bool| -> [u8; 16] {
        std::array::from_fn(|k| if f(a8()[k], b8()[k]) { u8::MAX } else { 0 })
    };
    assert!(i.veq8x16(ops()).is_continue());
    assert_eq!(result(&i).get_u8x16(), mask8(|x, y| x == y));
    assert!(i.vneq8x16(ops()).is_continue());
    assert_eq!(result(&i).get_u8x16(), mask8(|x, y| x != y));
    assert!(i.vslt8x16(ops()).is_continue());
    assert_eq!(result(&i).get_u8x16(), mask8(|x, y| (x as i8) < (y as i8)));
    assert!(i.vult8x16(ops()).is_continue());
    assert_eq!(result(&i).get_u8x16(), mask8(|x, y| x < y));
    assert!(i.vslteq16x8(ops()).is_continue());
    assert_eq!(
        result(&i).get_u16x8(),
        std::array::from_fn(|k| {
            if (lanes16(A)[k] as i16) <= (lanes16(B)[k] as i16) {
                u16::MAX
            } else {
                0
            }
        })
    );
    assert!(i.vulteq32x4(ops()).is_continue());
    assert_eq!(
        result(&i).get_u32x4(),
        std::array::from_fn(|k| if lanes32(A)[k] <= lanes32(B)[k] { u32::MAX } else { 0 })
    );
    assert!(i.vslt64x2(ops()).is_continue());
    assert_eq!(
        result(&i).get_u64x2(),
        std::array::from_fn(|k| {
            if (lanes64(A)[k] as i64) < (lanes64(B)[k] as i64) {
                u64::MAX
            } else {
                0
            }
        })
    );
    assert!(i.vmin8x16_s(ops()).is_continue());
    assert_eq!(
        result(&i).get_u8x16(),
        std::array::from_fn(|k| (a8()[k] as i8).min(b8()[k] as i8) as u8)
    );
    assert!(i.vmax16x8_u(ops()).is_continue());
    assert_eq!(result(&i).get_u16x8(), std::array::from_fn(|k| lanes16(A)[k].max(lanes16(B)[k])));
    assert!(i.vmax32x4_s(ops()).is_continue());
    assert_eq!(
        result(&i).get_u32x4(),
        std::array::from_fn(|k| (lanes32(A)[k] as i32).max(lanes32(B)[k] as i32) as u32)
    );
    assert!(i.vmin32x4_u(ops()).is_continue());
    assert_eq!(result(&i).get_u32x4(), std::array::from_fn(|k| lanes32(A)[k].min(lanes32(B)[k])));
}

#[test]
fn splats_extracts_and_inserts() {
    let mut i = interp();
    i.set_x_u64(xreg(2), 0x1122_3344_5566_7788);
    assert!(i.vsplatx8(vreg(0), xreg(2)).is_continue());
    assert_eq!(result(&i).get_u8x16(), [0x88; 16]);
    assert!(i.vsplatx16(vreg(0), xreg(2)).is_continue());
    assert_eq!(result(&i).get_u16x8(), [0x7788; 8]);
    assert!(i.vsplatx32(vreg(0), xreg(2)).is_continue());
    assert_eq!(result(&i).get_u32x4(), [0x5566_7788; 4]);
    assert!(i.vsplatx64(vreg(0), xreg(2)).is_continue());
    assert_eq!(result(&i).get_u64x2(), [0x1122_3344_5566_7788; 2]);
    i.set_f64_bits(FReg::new(3).unwrap(), 0x4000_0000_3f80_0000);
    assert!(i.vsplatf32(vreg(0), FReg::new(3).unwrap()).is_continue());
    assert_eq!(result(&i).get_u32x4(), [0x3f80_0000; 4]);
    assert!(i.vsplatf64(vreg(0), FReg::new(3).unwrap()).is_continue());
    assert_eq!(result(&i).get_u64x2(), [0x4000_0000_3f80_0000; 2]);

    assert!(i.xextractv8x16(xreg(5), vreg(1), 15).is_continue());
    assert_eq!(i.x_u32(xreg(5)), 0x80);
    assert!(i.xextractv16x8(xreg(5), vreg(1), 1).is_continue());
    assert_eq!(i.x_u32(xreg(5)), lanes16(A)[1] as u32);
    assert!(i.xextractv32x4(xreg(5), vreg(1), 3).is_continue());
    assert_eq!(i.x_u32(xreg(5)), lanes32(A)[3]);
    assert!(i.xextractv64x2(xreg(5), vreg(1), 1).is_continue());
    assert_eq!(i.x_u64(xreg(5)), lanes64(A)[1]);
    assert!(i.fextractv32x4(FReg::new(4).unwrap(), vreg(1), 2).is_continue());
    assert_eq!(i.f(FReg::new(4).unwrap()).get_f32_bits(), lanes32(A)[2]);
    assert!(i.fextractv64x2(FReg::new(4).unwrap(), vreg(1), 0).is_continue());
    assert_eq!(i.f(FReg::new(4).unwrap()).get_f64_bits(), lanes64(A)[0]);

    assert!(i.vinsertx8(by_x(), 3).is_continue());
    let mut want = a8();
    want[3] = 0x88;
    assert_eq!(result(&i).get_u8x16(), want);
    assert!(i.vinsertx32(by_x(), 0).is_continue());
    let mut want = lanes32(A);
    want[0] = 0x5566_7788;
    assert_eq!(result(&i).get_u32x4(), want);
    assert!(i.vinsertx64(by_x(), 1).is_continue());
    assert_eq!(result(&i).get_u64x2(), [lanes64(A)[0], 0x1122_3344_5566_7788]);
    let by_f = BinaryOperands { dst: vreg(0), src1: vreg(1), src2: FReg::new(3).unwrap() };
    assert!(i.vinsertf32(by_f, 1).is_continue());
    let mut want = lanes32(A);
    want[1] = 0x3f80_0000;
    assert_eq!(result(&i).get_u32x4(), want);
    assert!(i.vinsertf64(by_f, 0).is_continue());
    assert_eq!(result(&i).get_u64x2(), [0x4000_0000_3f80_0000, lanes64(A)[1]]);
    assert!(i.vinsertx16(by_x(), 7).is_continue());
    let mut want = lanes16(A);
    want[7] = 0x7788;
    assert_eq!(result(&i).get_u16x8(), want);
}

#[test]
fn masks_and_tests() {
    let mut i = interp();
    assert!(i.vbitmask8x16(xreg(0), vreg(1)).is_continue());
    let want = a8().iter().enumerate().fold(0u32, |m, (k, v)| m | ((*v >> 7) as u32) << k);
    assert_eq!(i.x_u32(xreg(0)), want);
    assert!(i.vbitmask16x8(xreg(0), vreg(1)).is_continue());
    let want = lanes16(A).iter().enumerate().fold(0u32, |m, (k, v)| m | ((*v >> 15) as u32) << k);
    assert_eq!(i.x_u32(xreg(0)), want);
    assert!(i.vbitmask32x4(xreg(0), vreg(1)).is_continue());
    let want = lanes32(A).iter().enumerate().fold(0u32, |m, (k, v)| m | (*v >> 31) << k);
    assert_eq!(i.x_u32(xreg(0)), want);
    assert!(i.vbitmask64x2(xreg(0), vreg(1)).is_continue());
    assert_eq!(i.x_u32(xreg(0)), 0b11);
    // A has lanes of 8 bits that are zero, but no zero lane of 64 bits.
    assert!(i.valltrue8x16(xreg(0), vreg(1)).is_continue());
    assert_eq!(i.x_u32(xreg(0)), 0);
    assert!(i.valltrue64x2(xreg(0), vreg(1)).is_continue());
    assert_eq!(i.x_u32(xreg(0)), 1);
    assert!(i.valltrue16x8(xreg(0), vreg(2)).is_continue());
    assert_eq!(i.x_u32(xreg(0)), 1);
    assert!(i.vanytrue8x16(xreg(0), vreg(1)).is_continue());
    assert_eq!(i.x_u32(xreg(0)), 1);
    i.set_v128(vreg(3), 0);
    assert!(i.vanytrue32x4(xreg(0), vreg(3)).is_continue());
    assert_eq!(i.x_u32(xreg(0)), 0);
    i.set_v128(vreg(3), 1 << 127);
    assert!(i.vanytrue64x2(xreg(0), vreg(3)).is_continue());
    assert_eq!(i.x_u32(xreg(0)), 1);
    assert!(i.valltrue32x4(xreg(0), vreg(3)).is_continue());
    assert_eq!(i.x_u32(xreg(0)), 0);
    i.set_x_u64(xreg(6), 1 << 32);
    assert!(i.vselect(vreg(0), xreg(6), vreg(1), vreg(2)).is_continue());
    assert_eq!(result(&i).get_u128(), B);
    i.set_x_u64(xreg(6), 1);
    assert!(i.vselect(vreg(0), xreg(6), vreg(1), vreg(2)).is_continue());
    assert_eq!(result(&i).get_u128(), A);
}

#[test]
fn widening_and_narrowing() {
    let mut i = interp();
    assert!(i.vwidenlow8x16_s(vreg(0), vreg(1)).is_continue());
    assert_eq!(result(&i).get_u16x8(), std::array::from_fn(|k| a8()[k] as i8 as i16 as u16));
    assert!(i.vwidenhigh8x16_u(vreg(0), vreg(1)).is_continue());
    assert_eq!(result(&i).get_u16x8(), std::array::from_fn(|k| a8()[k + 8] as u16));
    assert!(i.vwidenhigh16x8_s(vreg(0), vreg(1)).is_continue());
    assert_eq!(
        result(&i).get_u32x4(),
        std::array::from_fn(|k| lanes16(A)[k + 4] as i16 as i32 as u32)
    );
    assert!(i.vwidenlow32x4_u(vreg(0), vreg(1)).is_continue());
    assert_eq!(result(&i).get_u64x2(), std::array::from_fn(|k| lanes32(A)[k] as u64));
    assert!(i.vwidenhigh32x4_s(vreg(0), vreg(1)).is_continue());
    assert_eq!(
        result(&i).get_u64x2(),
        std::array::from_fn(|k| lanes32(A)[k + 2] as i32 as i64 as u64)
    );

    let narrow = |v: i64, lo: i64, hi: i64| v.clamp(lo, hi);
    assert!(i.vnarrow16x8_s(ops()).is_continue());
    assert_eq!(
        result(&i).get_u8x16(),
        std::array::from_fn(|k| {
            let v = if k < 8 { lanes16(A)[k] } else { lanes16(B)[k - 8] } as i16 as i64;
            narrow(v, -128, 127) as i8 as u8
        })
    );
    assert!(i.vnarrow16x8_u(ops()).is_continue());
    assert_eq!(
        result(&i).get_u8x16(),
        std::array::from_fn(|k| {
            let v = if k < 8 { lanes16(A)[k] } else { lanes16(B)[k - 8] } as i16 as i64;
            narrow(v, 0, 255) as u8
        })
    );
    assert!(i.vnarrow32x4_s(ops()).is_continue());
    assert_eq!(
        result(&i).get_u16x8(),
        std::array::from_fn(|k| {
            let v = if k < 4 { lanes32(A)[k] } else { lanes32(B)[k - 4] } as i32 as i64;
            narrow(v, -32768, 32767) as i16 as u16
        })
    );
    assert!(i.vnarrow64x2_u(ops()).is_continue());
    assert_eq!(
        result(&i).get_u32x4(),
        std::array::from_fn(|k| {
            let v = if k < 2 { lanes64(A)[k] } else { lanes64(B)[k - 2] } as i64;
            narrow(v, 0, u32::MAX as i64) as u32
        })
    );
    assert!(i.vnarrow64x2_s(ops()).is_continue());
    assert_eq!(
        result(&i).get_u32x4(),
        std::array::from_fn(|k| {
            let v = if k < 2 { lanes64(A)[k] } else { lanes64(B)[k - 2] } as i64;
            narrow(v, i32::MIN as i64, i32::MAX as i64) as i32 as u32
        })
    );
    assert!(i.vunarrow64x2_u(ops()).is_continue());
    assert_eq!(result(&i).get_u32x4(), [u32::MAX; 4]);
    i.set_v128(vreg(1), (7u128 << 64) | 9);
    assert!(i.vunarrow64x2_u(ops()).is_continue());
    assert_eq!(result(&i).get_u32x4(), [9, 7, u32::MAX, u32::MAX]);
}

#[test]
fn pairwise_swizzle_and_shuffle() {
    let mut i = interp();
    assert!(i.vaddpairwisei16x8_s(ops()).is_continue());
    assert_eq!(
        result(&i).get_u16x8(),
        std::array::from_fn(|k| {
            let (v, at) = if k < 4 { (lanes16(A), k) } else { (lanes16(B), k - 4) };
            v[2 * at].wrapping_add(v[2 * at + 1])
        })
    );
    assert!(i.vaddpairwisei32x4_s(ops()).is_continue());
    assert_eq!(
        result(&i).get_u32x4(),
        std::array::from_fn(|k| {
            let (v, at) = if k < 2 { (lanes32(A), k) } else { (lanes32(B), k - 2) };
            v[2 * at].wrapping_add(v[2 * at + 1])
        })
    );
    let picks: [u8; 16] = [0, 15, 16, 255, 3, 3, 128, 1, 2, 4, 8, 31, 12, 13, 14, 5];
    i.set_v128(vreg(2), u128::from_le_bytes(picks));
    assert!(i.vswizzlei8x16(ops()).is_continue());
    assert_eq!(
        result(&i).get_u8x16(),
        std::array::from_fn(|k| if picks[k] < 16 { a8()[picks[k] as usize] } else { 0 })
    );
    i.set_v128(vreg(2), B);
    let picks: [u8; 16] = [0, 15, 16, 31, 3, 19, 7, 1, 2, 4, 8, 30, 12, 13, 14, 5];
    let mask = u128::from_le_bytes(picks);
    assert!(shuffle_mask_ok(mask));
    assert!(!shuffle_mask_ok(mask | 32));
    assert!(i.vshuffle(vreg(0), vreg(1), vreg(2), mask).is_continue());
    assert_eq!(
        result(&i).get_u8x16(),
        std::array::from_fn(|k| {
            let m = picks[k] as usize;
            if m < 16 {
                a8()[m]
            } else {
                b8()[m - 16]
            }
        })
    );
}

#[test]
fn half_vector_loads() {
    let mut i = interp();
    let top = i.state().sp();
    i.write::<u64>(top - 8, 0x80ff_7f01_fffe_0280);
    i.set_x_u64(xreg(1), top - 16);
    let at = AddrZ { addr: xreg(1), offset: 8 };
    let bytes = 0x80ff_7f01_fffe_0280u64.to_le_bytes();
    assert!(i.vload8x8_s_z(vreg(0), at).is_continue());
    assert_eq!(result(&i).get_u16x8(), std::array::from_fn(|k| bytes[k] as i8 as i16 as u16));
    assert!(i.vload8x8_u_z(vreg(0), at).is_continue());
    assert_eq!(result(&i).get_u16x8(), std::array::from_fn(|k| bytes[k] as u16));
    assert!(i.vload16x4le_s_z(vreg(0), at).is_continue());
    assert_eq!(result(&i).get_u32x4(), [0x0280, 0xffff_fffe, 0x7f01, 0xffff_80ff]);
    assert!(i.vload16x4le_u_z(vreg(0), at).is_continue());
    assert_eq!(result(&i).get_u32x4(), [0x0280, 0xfffe, 0x7f01, 0x80ff]);
    assert!(i.vload32x2le_s_z(vreg(0), at).is_continue());
    assert_eq!(result(&i).get_u64x2(), [0xffff_ffff_fffe_0280, 0xffff_ffff_80ff_7f01]);
    assert!(i.vload32x2le_u_z(vreg(0), at).is_continue());
    assert_eq!(result(&i).get_u64x2(), [0xfffe_0280, 0x80ff_7f01]);
    // The null address traps.
    let r = i.vload8x8_u_z(vreg(0), AddrZ { addr: xreg(9), offset: 0 });
    match r {
        std::ops::ControlFlow::Break(done) => {
            assert!(matches!(
                i.into_state().done_decode(done),
                DoneReason::Trap { pc: 0xff7, kind: Some(TrapKind::MemoryOutOfBounds) }
            ));
        }
        std::ops::ControlFlow::Continue(()) => panic!("no trap"),
    }
}

#[test]
fn vector_instructions_through_the_step() {
    let mut i = interp();
    assert!(i.is_ready(Op::Xextractv8x16 { dst: xreg(0), src: vreg(1), lane: 15 }));
    assert!(!i.is_ready(Op::Xextractv8x16 { dst: xreg(0), src: vreg(1), lane: 16 }));
    assert!(!i.is_ready(Op::Vinsertx64 { operands: by_x(), lane: 2 }));
    assert!(!i.is_ready(Op::Vshuffle { dst: vreg(0), src1: vreg(1), src2: vreg(2), mask: 32 }));
    assert!(i.step(Op::Vbxor128 { operands: ops() }).is_continue());
    assert_eq!(result(&i).get_u128(), A ^ B);
    assert!(i.step(Op::Vsubi8x16 { operands: ops() }).is_continue());
    assert_eq!(result(&i).get_u8x16(), std::array::from_fn(|k| a8()[k].wrapping_sub(b8()[k])));
}

#[test]
fn sign_of_floats() {
    let mut i = interp();
    let (f0, f1, f2) = (FReg::new(0).unwrap(), FReg::new(1).unwrap(), FReg::new(2).unwrap());
    for (a, b) in [(1.5f32, -2.0f32), (-0.0, 7.0), (f32::NAN, -1.0), (f32::NEG_INFINITY, 0.0)] {
        i.set_f64_bits(f0, 0x1234_5678_9abc_def0);
        i.set_f32_bits(f1, a.to_bits());
        i.set_f32_bits(f2, b.to_bits());
        assert!(i.fneg32(f0, f1).is_continue());
        assert_eq!(i.f(f0).get_f32_bits(), (-a).to_bits());
        assert_eq!(i.f(f0).get_f64_bits() >> 32, 0x1234_5678);
        assert!(i.fabs32(f0, f1).is_continue());
        assert_eq!(i.f(f0).get_f32_bits(), a.abs().to_bits());
        let operands = BinaryOperands { dst: f0, src1: f1, src2: f2 };
        assert!(i.fcopysign32(operands).is_continue());
        assert_eq!(i.f(f0).get_f32_bits(), a.copysign(b).to_bits());
    }
    for (a, b) in [(1.5f64, -2.0f64), (-0.0, 7.0), (f64::NAN, -1.0), (f64::NEG_INFINITY, 0.0)] {
        i.set_f64_bits(f1, a.to_bits());
        i.set_f64_bits(f2, b.to_bits());
        assert!(i.fneg64(f0, f1).is_continue());
        assert_eq!(i.f(f0).get_f64_bits(), (-a).to_bits());
        assert!(i.fabs64(f0, f1).is_continue());
        assert_eq!(i.f(f0).get_f64_bits(), a.abs().to_bits());
        let operands = BinaryOperands { dst: f0, src1: f1, src2: f2 };
        assert!(i.step(Op::Fcopysign64 { operands }).is_continue());
        assert_eq!(i.f(f0).get_f64_bits(), a.copysign(b).to_bits());
    }
    let singles = [1.5f32, -0.0, f32::NAN, f32::NEG_INFINITY];
    i.set_v_u32x4(vreg(1), singles.map(f32::to_bits));
    assert!(i.vnegf32x4(vreg(0), vreg(1)).is_continue());
    assert_eq!(result(&i).get_u32x4(), singles.map(|x| (-x).to_bits()));
    assert!(i.vabsf32x4(vreg(0), vreg(1)).is_continue());
    assert_eq!(result(&i).get_u32x4(), singles.map(|x| x.abs().to_bits()));
    let doubles = [-1.5f64, f64::INFINITY];
    i.set_v_u64x2(vreg(1), doubles.map(f64::to_bits));
    assert!(i.vnegf64x2(vreg(0), vreg(1)).is_continue());
    assert_eq!(result(&i).get_u64x2(), doubles.map(|x| (-x).to_bits()));
    assert!(i.vabsf64x2(vreg(0), vreg(1)).is_continue());
    assert_eq!(result(&i).get_u64x2(), doubles.map(|x| x.abs().to_bits()));
}

#[test]
fn vectors_of_floats_to_integers() {
    let mut i = interp();
    let cases: [[f32; 4]; 3] = [
        [f32::NAN, 3.0e9, -3.0e9, -1.9],
        [2147483520.0, -2147483648.0, 4294967040.0, 0.99],
        [f32::INFINITY, f32::NEG_INFINITY, -0.0, 5.0e9],
    ];
    for lanes in cases {
        i.set_v_u32x4(vreg(1), lanes.map(f32::to_bits));
        assert!(i.vi32x4_from_f32x4_s(vreg(0), vreg(1)).is_continue());
        assert_eq!(result(&i).get_u32x4(), lanes.map(|x| x as i32 as u32));
        assert!(i.vi32x4_from_f32x4_u(vreg(0), vreg(1)).is_continue());
        assert_eq!(result(&i).get_u32x4(), lanes.map(|x| x as u32));
    }
    let cases: [[f64; 2]; 4] = [
        [f64::NAN, -1.9],
        [9.3e18, -9.3e18],
        [1.9e19, 9007199254740993.0],
        [f64::NEG_INFINITY, 18446744073709549568.0],
    ];
    for lanes in cases {
        i.set_v_u64x2(vreg(1), lanes.map(f64::to_bits));
        assert!(i.vi64x2_from_f64x2_s(vreg(0), vreg(1)).is_continue());
        assert_eq!(result(&i).get_u64x2(), lanes.map(|x| x as i64 as u64));
        assert!(i.vi64x2_from_f64x2_u(vreg(0), vreg(1)).is_continue());
        assert_eq!(result(&i).get_u64x2(), lanes.map(|x| x as u64));
    }
}
