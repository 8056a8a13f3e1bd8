use abi_interp::interp::fconv::{
    checked, saturated, trunc_f32, trunc_f64, Converted, Truncated,
};
use abi_interp::interp::machine::Interpreter;
use abi_interp::interp::regs::{FReg, XReg};
use abi_interp::interp::state::{DoneReason, MachineState, TrapKind};
use std::ops::ControlFlow;

fn interp_f32(val: f32) -> Interpreter {
    let mut i = Interpreter::new(MachineState::with_stack(16), 0x1000);
    i.set_f32_bits(FReg::new(1).unwrap(), val.to_bits());
    i
}

fn interp_f64(val: f64) -> Interpreter {
    let mut i = Interpreter::new(MachineState::with_stack(16), 0x1000);
    i.set_f64_bits(FReg::new(1).unwrap(), val.to_bits());
    i
}

fn kind_of(i: Interpreter, r: ControlFlow<abi_interp::interp::state::Done>) -> Option<TrapKind> {
    match r {
        ControlFlow::Break(done) => match i.into_state().done_decode(done) {
            DoneReason::Trap { pc, kind } => {
                // The instruction is five bytes wide.
                assert_eq!(pc, 0x1000 - 5);
                kind
            }
            _ => panic!("stopped without a trap"),
        },
        ControlFlow::Continue(()) => panic!("no trap"),
    }
}

fn dst() -> XReg {
    XReg::new(0).unwrap()
}

fn src() -> FReg {
    FReg::new(1).unwrap()
}

const SINGLES: [f32; 24] = [
    0.0,
    -0.0,
    0.5,
    -0.5,
    0.999_999_94,
    1.0,
    -1.0,
    1.5,
    -1.5,
    255.9,
    16_777_216.0,
    16_777_217.0,
    2_147_483_520.0,
    2_147_483_648.0,
    -2_147_483_648.0,
    -2_147_483_904.0,
    4_294_967_040.0,
    4_294_967_296.0,
    9_223_371_487_098_961_920.0,
    9_223_372_036_854_775_808.0,
    -9_223_372_036_854_775_808.0,
    18_446_742_974_197_923_840.0,
    f32::MAX,
    f32::MIN_POSITIVE,
];

const DOUBLES: [f64; 22] = [
    0.0,
    -0.0,
    0.9,
    -0.9,
    1.0,
    -1.0,
    123_456.789,
    -123_456.789,
    2_147_483_647.0,
    2_147_483_647.9,
    2_147_483_648.0,
    -2_147_483_648.9,
    -2_147_483_649.0,
    4_294_967_295.9,
    4_294_967_296.0,
    9_007_199_254_740_993.0,
    9_223_372_036_854_774_784.0,
    9_223_372_036_854_775_808.0,
    -9_223_372_036_854_775_808.0,
    18_446_744_073_709_549_568.0,
    1.0e300,
    5.0e-324,
];

#[test]
fn truncation_of_bits() {
    assert_eq!(trunc_f32(1.5f32.to_bits()), Truncated::Int { negative: false, magnitude: 1 });
    assert_eq!(trunc_f32((-0.75f32).to_bits()), Truncated::Int { negative: true, magnitude: 0 });
    assert_eq!(
        trunc_f32(16_777_216.0f32.to_bits()),
        Truncated::Int { negative: false, magnitude: 1 << 24 }
    );
    assert_eq!(
        trunc_f32((-3.0e9f32).to_bits()),
        Truncated::Int { negative: true, magnitude: 3_000_000_000 }
    );
    assert_eq!(trunc_f32(f32::NAN.to_bits()), Truncated::Nan);
    assert_eq!(trunc_f32(f32::INFINITY.to_bits()), Truncated::Big { negative: false });
    assert_eq!(trunc_f32(f32::MIN.to_bits()), Truncated::Big { negative: true });
    assert_eq!(trunc_f64(2.9f64.to_bits()), Truncated::Int { negative: false, magnitude: 2 });
    assert_eq!(
        trunc_f64(9_007_199_254_740_992.0f64.to_bits()),
        Truncated::Int { negative: false, magnitude: 1 << 53 }
    );
    assert_eq!(
        trunc_f64(18_446_744_073_709_549_568.0f64.to_bits()),
        Truncated::Int { negative: false, magnitude: u64::MAX - 2047 }
    );
    assert_eq!(trunc_f64(1.8446744073709552e19f64.to_bits()), Truncated::Big { negative: false });
    assert_eq!(trunc_f64(f64::NEG_INFINITY.to_bits()), Truncated::Big { negative: true });
    assert_eq!(trunc_f64(f64::NAN.to_bits()), Truncated::Nan);
}

#[test]
fn saturating_conversions_agree_with_casts() {
    for val in SINGLES.iter().copied().chain(SINGLES.iter().map(|v| -*v)) {
        let t = trunc_f32(val.to_bits());
        assert_eq!(saturated(t, true, false) as u32 as i32, val as i32, "{val}");
        assert_eq!(saturated(t, false, false) as u32, val as u32, "{val}");
        assert_eq!(saturated(t, true, true) as i64, val as i64, "{val}");
        assert_eq!(saturated(t, false, true), val as u64, "{val}");
    }
    for val in DOUBLES.iter().copied().chain(DOUBLES.iter().map(|v| -*v)) {
        let t = trunc_f64(val.to_bits());
        assert_eq!(saturated(t, true, false) as u32 as i32, val as i32, "{val}");
        assert_eq!(saturated(t, false, false) as u32, val as u32, "{val}");
        assert_eq!(saturated(t, true, true) as i64, val as i64, "{val}");
        assert_eq!(saturated(t, false, true), val as u64, "{val}");
    }
    let nan = trunc_f32(f32::NAN.to_bits());
    assert_eq!(saturated(nan, true, true), 0);
    assert_eq!(saturated(nan, false, false), 0);
}

#[test]
fn checked_conversions_agree_with_casts_in_range() {
    for val in DOUBLES.iter().copied().chain(DOUBLES.iter().map(|v| -*v)) {
        let t = trunc_f64(val.to_bits());
        let whole = val.trunc();
        let expect_i32 = if whole >= -2_147_483_648.0 && whole <= 2_147_483_647.0 {
            Converted::Value(val as i32 as i64 as u64)
        } else {
            Converted::Trap(TrapKind::IntegerOverflow)
        };
        assert_eq!(checked(t, true, false), expect_i32, "{val}");
        let expect_u32 = if whole > -1.0 && whole < 4_294_967_296.0 {
            Converted::Value(val as u32 as u64)
        } else {
            Converted::Trap(TrapKind::IntegerOverflow)
        };
        assert_eq!(checked(t, false, false), expect_u32, "{val}");
        let expect_i64 = if whole >= -9_223_372_036_854_775_808.0 && whole < 9_223_372_036_854_775_808.0 {
            Converted::Value(val as i64 as u64)
        } else {
            Converted::Trap(TrapKind::IntegerOverflow)
        };
        assert_eq!(checked(t, true, true), expect_i64, "{val}");
        let expect_u64 = if whole > -1.0 && whole < 18_446_744_073_709_551_616.0 {
            Converted::Value(val as u64)
        } else {
            Converted::Trap(TrapKind::IntegerOverflow)
        };
        assert_eq!(checked(t, false, true), expect_u64, "{val}");
    }
}

#[test]
fn checked_float_to_int_boundary() {
    // Exactly two to the 31st power does not fit a signed 32-bit
    // integer.
    let mut i = interp_f32(2_147_483_648.0);
    let r = i.x32_from_f32_s(dst(), src());
    assert_eq!(kind_of(i, r), Some(TrapKind::IntegerOverflow));
    // The greatest single-precision number below it does.
    let mut i = interp_f32(2_147_483_520.0);
    assert!(i.x32_from_f32_s(dst(), src()).is_continue());
    assert_eq!(i.x_i32(dst()), 2_147_483_520);
    // In double precision 2147483647 itself is a number, and fits.
    let mut i = interp_f64(2_147_483_647.0);
    assert!(i.x32_from_f64_s(dst(), src()).is_continue());
    assert_eq!(i.x_i32(dst()), i32::MAX);
    let mut i = interp_f64(2_147_483_647.9);
    assert!(i.x32_from_f64_s(dst(), src()).is_continue());
    assert_eq!(i.x_i32(dst()), i32::MAX);
    let mut i = interp_f64(2_147_483_648.0);
    let r = i.x32_from_f64_s(dst(), src());
    assert_eq!(kind_of(i, r), Some(TrapKind::IntegerOverflow));
    // The least number fits; the next whole number below it does not.
    let mut i = interp_f32(-2_147_483_648.0);
    assert!(i.x32_from_f32_s(dst(), src()).is_continue());
    assert_eq!(i.x_i32(dst()), i32::MIN);
    let mut i = interp_f64(-2_147_483_648.9);
    assert!(i.x32_from_f64_s(dst(), src()).is_continue());
    assert_eq!(i.x_i32(dst()), i32::MIN);
    let mut i = interp_f64(-2_147_483_649.0);
    let r = i.x32_from_f64_s(dst(), src());
    assert_eq!(kind_of(i, r), Some(TrapKind::IntegerOverflow));
}

#[test]
fn unsigned_boundaries() {
    // What cuts off to zero fits, though it is negative.
    let mut i = interp_f32(-0.9);
    assert!(i.x32_from_f32_u(dst(), src()).is_continue());
    assert_eq!(i.x_u32(dst()), 0);
    let mut i = interp_f32(-1.0);
    let r = i.x32_from_f32_u(dst(), src());
    assert_eq!(kind_of(i, r), Some(TrapKind::IntegerOverflow));
    let mut i = interp_f64(4_294_967_295.5);
    assert!(i.x32_from_f64_u(dst(), src()).is_continue());
    assert_eq!(i.x_u32(dst()), u32::MAX);
    let mut i = interp_f64(4_294_967_296.0);
    let r = i.x32_from_f64_u(dst(), src());
    assert_eq!(kind_of(i, r), Some(TrapKind::IntegerOverflow));
    let mut i = interp_f64(18_446_744_073_709_549_568.0);
    assert!(i.x64_from_f64_u(dst(), src()).is_continue());
    assert_eq!(i.x_u64(dst()), 18_446_744_073_709_549_568);
    let mut i = interp_f32(18_446_744_073_709_551_616.0);
    let r = i.x64_from_f32_u(dst(), src());
    assert_eq!(kind_of(i, r), Some(TrapKind::IntegerOverflow));
    let mut i = interp_f32(-9_223_372_036_854_775_808.0);
    assert!(i.x64_from_f32_s(dst(), src()).is_continue());
    assert_eq!(i.x_i64(dst()), i64::MIN);
    let mut i = interp_f64(9_223_372_036_854_775_808.0);
    let r = i.x64_from_f64_s(dst(), src());
    assert_eq!(kind_of(i, r), Some(TrapKind::IntegerOverflow));
}

#[test]
fn not_a_number_is_a_bad_conversion() {
    let bad = Some(TrapKind::BadConversionToInteger);
    let mut i = interp_f32(f32::NAN);
    let r = i.x32_from_f32_s(dst(), src());
    assert_eq!(kind_of(i, r), bad);
    let mut i = interp_f32(f32::NAN);
    let r = i.x32_from_f32_u(dst(), src());
    assert_eq!(kind_of(i, r), bad);
    let mut i = interp_f32(-f32::NAN);
    let r = i.x64_from_f32_s(dst(), src());
    assert_eq!(kind_of(i, r), bad);
    let mut i = interp_f32(f32::NAN);
    let r = i.x64_from_f32_u(dst(), src());
    assert_eq!(kind_of(i, r), bad);
    let mut i = interp_f64(f64::NAN);
    let r = i.x32_from_f64_s(dst(), src());
    assert_eq!(kind_of(i, r), bad);
    let mut i = interp_f64(f64::NAN);
    let r = i.x32_from_f64_u(dst(), src());
    assert_eq!(kind_of(i, r), bad);
    let mut i = interp_f64(f64::NAN);
    let r = i.x64_from_f64_s(dst(), src());
    assert_eq!(kind_of(i, r), bad);
    let mut i = interp_f64(-f64::NAN);
    let r = i.x64_from_f64_u(dst(), src());
    assert_eq!(kind_of(i, r), bad);
}

#[test]
fn saturating_handlers_never_trap() {
    let mut i = interp_f32(f32::NAN);
    i.set_x_u64(dst(), u64::MAX);
    assert!(i.x32_from_f32_s_sat(dst(), src()).is_continue());
    // The lower half is written, the upper half stays.
    assert_eq!(i.x_u64(dst()), 0xffff_ffff_0000_0000);
    let mut i = interp_f32(3.0e10);
    assert!(i.x32_from_f32_s_sat(dst(), src()).is_continue());
    assert_eq!(i.x_i32(dst()), i32::MAX);
    assert!(i.x32_from_f32_u_sat(dst(), src()).is_continue());
    assert_eq!(i.x_u32(dst()), u32::MAX);
    assert!(i.x64_from_f32_s_sat(dst(), src()).is_continue());
    assert_eq!(i.x_i64(dst()), 3.0e10f32 as i64);
    assert!(i.x64_from_f32_u_sat(dst(), src()).is_continue());
    assert_eq!(i.x_u64(dst()), 3.0e10f32 as u64);
    let mut i = interp_f64(-1.0e40);
    assert!(i.x32_from_f64_s_sat(dst(), src()).is_continue());
    assert_eq!(i.x_i32(dst()), i32::MIN);
    assert!(i.x32_from_f64_u_sat(dst(), src()).is_continue());
    assert_eq!(i.x_u32(dst()), 0);
    assert!(i.x64_from_f64_s_sat(dst(), src()).is_continue());
    assert_eq!(i.x_i64(dst()), i64::MIN);
    assert!(i.x64_from_f64_u_sat(dst(), src()).is_continue());
    assert_eq!(i.x_u64(dst()), 0);
}
