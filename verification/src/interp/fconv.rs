//! Conversion of floating-point numbers to integers, on the bits of the
//! numbers.
//!
//! A floating-point number is a sign, an exponent and a fraction. Cut
//! off towards zero it is an integer, which these conversions find from
//! the three fields alone.

use crate::interp::encode::{
    Encode, X32FromF32S, X32FromF32U, X32FromF64S, X32FromF64U, X64FromF32S, X64FromF32U,
    X64FromF64S, X64FromF64U,
};
use crate::interp::machine::InterpView;
use crate::interp::machine::Interpreter;
use crate::interp::regs::{FReg, XReg};
use crate::interp::state::{Done, TrapKind};
use core::ops::ControlFlow;
use vstd::arithmetic::power2::pow2;
use vstd::prelude::*;

verus! {

/// A floating-point number cut off towards zero.
#[derive(Clone, Copy, Debug, PartialEq, Eq, Structural)]
pub enum Truncated {
    /// Not a number.
    Nan,
    /// Infinite, or of a size of two to the 64th power or more.
    Big { negative: bool },
    /// An integer of a size below two to the 64th power.
    Int { negative: bool, magnitude: u64 },
}

/// The number with the given sign, biased exponent and fraction, cut off
/// towards zero, in a format with `frac_bits` bits of fraction, an
/// exponent bias of `bias`, and `exp_max` as the exponent of infinities
/// and of what is not a number.
///
/// A number with an exponent below the bias is less than one in size. Any
/// other is its fraction with a leading one bit, times two to the power
/// of the exponent less the bias less the number of bits of the
/// fraction.
pub open spec fn spec_truncated(
    negative: bool,
    exp: int,
    frac: int,
    frac_bits: nat,
    bias: int,
    exp_max: int,
) -> Truncated {
    if exp == exp_max {
        if frac != 0 {
            Truncated::Nan
        } else {
            Truncated::Big { negative }
        }
    } else if exp < bias {
        Truncated::Int { negative, magnitude: 0 }
    } else {
        let e = exp - bias;
        let mantissa = frac + pow2(frac_bits);
        if e >= 64 {
            Truncated::Big { negative }
        } else if e >= frac_bits {
            Truncated::Int {
                negative,
                magnitude: (mantissa * pow2((e - frac_bits) as nat)) as u64,
            }
        } else {
            Truncated::Int {
                negative,
                magnitude: (mantissa / (pow2((frac_bits - e) as nat) as int)) as u64,
            }
        }
    }
}

/// The single-precision number with the given bits, cut off towards
/// zero.
pub open spec fn spec_trunc_f32(bits: u32) -> Truncated {
    spec_truncated(
        bits >> 31 == 1,
        ((bits >> 23) & 0xff) as int,
        (bits & 0x7f_ffff) as int,
        23,
        127,
        255,
    )
}

/// The double-precision number with the given bits, cut off towards
/// zero.
pub open spec fn spec_trunc_f64(bits: u64) -> Truncated {
    spec_truncated(
        bits >> 63 == 1,
        ((bits >> 52) & 0x7ff) as int,
        (bits & 0xf_ffff_ffff_ffff) as int,
        52,
        1023,
        2047,
    )
}

fn truncate(negative: bool, exp: u64, frac: u64, frac_bits: u64, bias: u64, exp_max: u64) -> (t:
    Truncated)
    requires
        frac_bits == 23 || frac_bits == 52,
        frac < pow2(frac_bits as nat),
        bias < exp_max <= 2047,
    ensures
        t == spec_truncated(
            negative,
            exp as int,
            frac as int,
            frac_bits as nat,
            bias as int,
            exp_max as int,
        ),
{
    if exp == exp_max {
        if frac != 0 {
            return Truncated::Nan;
        } else {
            return Truncated::Big { negative };
        }
    }
    if exp < bias {
        return Truncated::Int { negative, magnitude: 0 };
    }
    let e = exp - bias;
    if e >= 64 {
        return Truncated::Big { negative };
    }
    proof {
        vstd::arithmetic::power2::lemma2_to64();
        vstd::arithmetic::power2::lemma2_to64_rest();
        vstd::bits::lemma_u64_shl_is_mul(1, frac_bits);
    }
    let mantissa: u64 = frac + (1u64 << frac_bits);
    if e >= frac_bits {
        let shift = e - frac_bits;
        proof {
            let fb = frac_bits as nat;
            vstd::arithmetic::power2::lemma_pow2_adds(fb + 1, shift as nat);
            vstd::arithmetic::power2::lemma_pow2_unfold(fb + 1);
            vstd::arithmetic::power2::lemma_pow2_pos(shift as nat);
            if e < 63 {
                vstd::arithmetic::power2::lemma_pow2_strictly_increases((e + 1) as nat, 64);
            }
            assert(pow2(64) == 0x1_0000_0000_0000_0000);
            assert(mantissa * pow2(shift as nat) < pow2(fb + 1) * pow2(shift as nat))
                by (nonlinear_arith)
                requires
                    mantissa < pow2(fb + 1),
                    pow2(shift as nat) > 0,
            ;
            vstd::bits::lemma_u64_shl_is_mul(mantissa, shift);
        }
        Truncated::Int { negative, magnitude: mantissa << shift }
    } else {
        let shift = frac_bits - e;
        proof {
            vstd::bits::lemma_u64_shr_is_div(mantissa, shift);
        }
        Truncated::Int { negative, magnitude: mantissa >> shift }
    }
}

/// Cuts the single-precision number with the given bits off towards
/// zero.
pub fn trunc_f32(bits: u32) -> (t: Truncated)
    ensures
        t == spec_trunc_f32(bits),
{
    let negative = (bits >> 31) == 1;
    let exp = (bits >> 23) & 0xff;
    let frac = bits & 0x7f_ffff;
    assert(bits & 0x7f_ffff < 0x80_0000) by (bit_vector);
    assert((bits >> 23) & 0xff <= 255) by (bit_vector);
    proof {
        vstd::arithmetic::power2::lemma2_to64();
    }
    truncate(negative, exp as u64, frac as u64, 23, 127, 255)
}

/// Cuts the double-precision number with the given bits off towards
/// zero.
pub fn trunc_f64(bits: u64) -> (t: Truncated)
    ensures
        t == spec_trunc_f64(bits),
{
    let negative = (bits >> 63) == 1;
    let exp = (bits >> 52) & 0x7ff;
    let frac = bits & 0xf_ffff_ffff_ffff;
    assert(bits & 0xf_ffff_ffff_ffff < 0x10_0000_0000_0000) by (bit_vector);
    assert((bits >> 52) & 0x7ff <= 2047) by (bit_vector);
    proof {
        vstd::arithmetic::power2::lemma2_to64_rest();
    }
    truncate(negative, exp, frac, 52, 1023, 2047)
}

/// The outcome of a conversion to an integer that is checked.
#[derive(Clone, Copy, Debug, PartialEq, Eq, Structural)]
pub enum Converted {
    /// The integer, as the bits of a number of 64 bits: a negative
    /// integer in two's complement.
    Value(u64),
    /// The conversion traps.
    Trap(TrapKind),
}

/// The conversion of a number cut off towards zero to an integer of the
/// given width and signedness, where it is checked.
///
/// What is not a number is a bad conversion. A number fits if it lies
/// strictly between the bounds of the integer type widened by one at
/// either side; any other is an integer overflow.
pub open spec fn spec_checked(t: Truncated, signed: bool, bits: nat) -> Converted {
    match t {
        Truncated::Nan => Converted::Trap(TrapKind::BadConversionToInteger),
        Truncated::Big { .. } => Converted::Trap(TrapKind::IntegerOverflow),
        Truncated::Int { negative, magnitude } => {
            let value = if negative {
                -(magnitude as int)
            } else {
                magnitude as int
            };
            let (least, greatest) = if signed {
                (-(pow2((bits - 1) as nat) as int), pow2((bits - 1) as nat) - 1)
            } else {
                (0int, pow2(bits) - 1)
            };
            if least <= value <= greatest {
                Converted::Value(
                    if value < 0 {
                        (value + 0x1_0000_0000_0000_0000) as u64
                    } else {
                        value as u64
                    },
                )
            } else {
                Converted::Trap(TrapKind::IntegerOverflow)
            }
        },
    }
}

/// The conversion of a number cut off towards zero to an integer of the
/// given width and signedness, where it saturates: what is not a number
/// gives zero, and a number beyond a bound of the integer type gives
/// that bound.
pub open spec fn spec_saturated(t: Truncated, signed: bool, bits: nat) -> u64 {
    let (least, greatest) = if signed {
        (-(pow2((bits - 1) as nat) as int), pow2((bits - 1) as nat) - 1)
    } else {
        (0int, pow2(bits) - 1)
    };
    let value = match t {
        Truncated::Nan => 0,
        Truncated::Big { negative } => if negative {
            least
        } else {
            greatest
        },
        Truncated::Int { negative, magnitude } => {
            let exact = if negative {
                -(magnitude as int)
            } else {
                magnitude as int
            };
            if exact < least {
                least
            } else if exact > greatest {
                greatest
            } else {
                exact
            }
        },
    };
    if value < 0 {
        (value + 0x1_0000_0000_0000_0000) as u64
    } else {
        value as u64
    }
}

/// The bounds of an integer type of 32 or 64 bits: the size of its least
/// number and its greatest number.
fn bounds(signed: bool, wide: bool) -> (r: (u64, u64))
    ensures
        ({
            let bits: nat = if wide {
                64
            } else {
                32
            };
            if signed {
                r.0 == pow2((bits - 1) as nat) && r.1 == pow2((bits - 1) as nat) - 1
            } else {
                r.0 == 0 && r.1 == pow2(bits) - 1
            }
        }),
{
    proof {
        vstd::arithmetic::power2::lemma2_to64();
        vstd::arithmetic::power2::lemma2_to64_rest();
    }
    match (signed, wide) {
        (true, false) => (0x8000_0000, 0x7fff_ffff),
        (true, true) => (0x8000_0000_0000_0000, 0x7fff_ffff_ffff_ffff),
        (false, false) => (0, 0xffff_ffff),
        (false, true) => (0, 0xffff_ffff_ffff_ffff),
    }
}

/// Converts a number cut off towards zero to an integer of 32 bits, or
/// of 64 bits if `wide`, with a check.
pub fn checked(t: Truncated, signed: bool, wide: bool) -> (c: Converted)
    ensures
        c == spec_checked(
            t,
            signed,
            if wide {
                64
            } else {
                32
            },
        ),
{
    let (least_size, greatest) = bounds(signed, wide);
    match t {
        Truncated::Nan => Converted::Trap(TrapKind::BadConversionToInteger),
        Truncated::Big { .. } => Converted::Trap(TrapKind::IntegerOverflow),
        Truncated::Int { negative, magnitude } => {
            if negative {
                if magnitude <= least_size {
                    Converted::Value(0u64.wrapping_sub(magnitude))
                } else {
                    Converted::Trap(TrapKind::IntegerOverflow)
                }
            } else if magnitude <= greatest {
                Converted::Value(magnitude)
            } else {
                Converted::Trap(TrapKind::IntegerOverflow)
            }
        },
    }
}

/// Converts a number cut off towards zero to an integer of 32 bits, or
/// of 64 bits if `wide`, saturating.
pub fn saturated(t: Truncated, signed: bool, wide: bool) -> (v: u64)
    ensures
        v == spec_saturated(
            t,
            signed,
            if wide {
                64
            } else {
                32
            },
        ),
{
    let (least_size, greatest) = bounds(signed, wide);
    match t {
        Truncated::Nan => 0,
        Truncated::Big { negative } => if negative {
            0u64.wrapping_sub(least_size)
        } else {
            greatest
        },
        Truncated::Int { negative, magnitude } => {
            if negative {
                if magnitude <= least_size {
                    0u64.wrapping_sub(magnitude)
                } else {
                    0u64.wrapping_sub(least_size)
                }
            } else if magnitude <= greatest {
                magnitude
            } else {
                greatest
            }
        },
    }
}

impl InterpView {
    /// Float register `i` as a single-precision number, cut off towards
    /// zero.
    pub open spec fn f32_truncated(self, i: int) -> Truncated {
        spec_trunc_f32(self.state.f[i].bits as u32)
    }

    /// Float register `i` as a double-precision number, cut off towards
    /// zero.
    pub open spec fn f64_truncated(self, i: int) -> Truncated {
        spec_trunc_f64(self.state.f[i].bits)
    }
}

impl Interpreter {
    /// Converts a single-precision number to a signed 32-bit integer,
    /// cutting off towards zero. Traps with a bad conversion for what is
    /// not a number, and with an integer overflow for a number that the
    /// integer type does not hold.
    pub fn x32_from_f32_s(&mut self, dst: XReg, src: FReg) -> (r: ControlFlow<Done>)
        ensures
            match spec_checked(old(self)@.f32_truncated(src.spec_index()), true, 32) {
                Converted::Value(v) => r is Continue && final(self)@ == old(self)@.set_x_u32(
                    dst.spec_index(),
                    v as u32,
                ),
                Converted::Trap(kind) => r is Break && final(self)@ == old(self)@.trapped(
                    X32FromF32S::spec_width(),
                    Some(kind),
                ),
            },
    {
        let a = self.f(src).get_f32_bits();
        match checked(trunc_f32(a), true, false) {
            Converted::Value(v) => {
                self.set_x_u32(
                    dst,
                    #[verifier::truncate]
                    (v as u32),
                );
                ControlFlow::Continue(())
            },
            Converted::Trap(kind) => self.done_trap_kind::<X32FromF32S>(Some(kind)),
        }
    }

    /// Converts a single-precision number to a signed 32-bit integer,
    /// cutting off towards zero and saturating: what is not a number
    /// gives zero, and a number beyond a bound of the integer type gives
    /// that bound.
    pub fn x32_from_f32_s_sat(&mut self, dst: XReg, src: FReg) -> (r: ControlFlow<Done>)
        ensures
            r is Continue,
            final(self)@ == old(self)@.set_x_u32(
                dst.spec_index(),
                spec_saturated(old(self)@.f32_truncated(src.spec_index()), true, 32) as u32,
            ),
    {
        let a = self.f(src).get_f32_bits();
        let v = saturated(trunc_f32(a), true, false);
        self.set_x_u32(
            dst,
            #[verifier::truncate]
            (v as u32),
        );
        ControlFlow::Continue(())
    }

    /// Converts a single-precision number to a unsigned 32-bit integer,
    /// cutting off towards zero. Traps with a bad conversion for what is
    /// not a number, and with an integer overflow for a number that the
    /// integer type does not hold.
    pub fn x32_from_f32_u(&mut self, dst: XReg, src: FReg) -> (r: ControlFlow<Done>)
        ensures
            match spec_checked(old(self)@.f32_truncated(src.spec_index()), false, 32) {
                Converted::Value(v) => r is Continue && final(self)@ == old(self)@.set_x_u32(
                    dst.spec_index(),
                    v as u32,
                ),
                Converted::Trap(kind) => r is Break && final(self)@ == old(self)@.trapped(
                    X32FromF32U::spec_width(),
                    Some(kind),
                ),
            },
    {
        let a = self.f(src).get_f32_bits();
        match checked(trunc_f32(a), false, false) {
            Converted::Value(v) => {
                self.set_x_u32(
                    dst,
                    #[verifier::truncate]
                    (v as u32),
                );
                ControlFlow::Continue(())
            },
            Converted::Trap(kind) => self.done_trap_kind::<X32FromF32U>(Some(kind)),
        }
    }

    /// Converts a single-precision number to a unsigned 32-bit integer,
    /// cutting off towards zero and saturating: what is not a number
    /// gives zero, and a number beyond a bound of the integer type gives
    /// that bound.
    pub fn x32_from_f32_u_sat(&mut self, dst: XReg, src: FReg) -> (r: ControlFlow<Done>)
        ensures
            r is Continue,
            final(self)@ == old(self)@.set_x_u32(
                dst.spec_index(),
                spec_saturated(old(self)@.f32_truncated(src.spec_index()), false, 32) as u32,
            ),
    {
        let a = self.f(src).get_f32_bits();
        let v = saturated(trunc_f32(a), false, false);
        self.set_x_u32(
            dst,
            #[verifier::truncate]
            (v as u32),
        );
        ControlFlow::Continue(())
    }

    /// Converts a double-precision number to a signed 32-bit integer,
    /// cutting off towards zero. Traps with a bad conversion for what is
    /// not a number, and with an integer overflow for a number that the
    /// integer type does not hold.
    pub fn x32_from_f64_s(&mut self, dst: XReg, src: FReg) -> (r: ControlFlow<Done>)
        ensures
            match spec_checked(old(self)@.f64_truncated(src.spec_index()), true, 32) {
                Converted::Value(v) => r is Continue && final(self)@ == old(self)@.set_x_u32(
                    dst.spec_index(),
                    v as u32,
                ),
                Converted::Trap(kind) => r is Break && final(self)@ == old(self)@.trapped(
                    X32FromF64S::spec_width(),
                    Some(kind),
                ),
            },
    {
        let a = self.f(src).get_f64_bits();
        match checked(trunc_f64(a), true, false) {
            Converted::Value(v) => {
                self.set_x_u32(
                    dst,
                    #[verifier::truncate]
                    (v as u32),
                );
                ControlFlow::Continue(())
            },
            Converted::Trap(kind) => self.done_trap_kind::<X32FromF64S>(Some(kind)),
        }
    }

    /// Converts a double-precision number to a signed 32-bit integer,
    /// cutting off towards zero and saturating: what is not a number
    /// gives zero, and a number beyond a bound of the integer type gives
    /// that bound.
    pub fn x32_from_f64_s_sat(&mut self, dst: XReg, src: FReg) -> (r: ControlFlow<Done>)
        ensures
            r is Continue,
            final(self)@ == old(self)@.set_x_u32(
                dst.spec_index(),
                spec_saturated(old(self)@.f64_truncated(src.spec_index()), true, 32) as u32,
            ),
    {
        let a = self.f(src).get_f64_bits();
        let v = saturated(trunc_f64(a), true, false);
        self.set_x_u32(
            dst,
            #[verifier::truncate]
            (v as u32),
        );
        ControlFlow::Continue(())
    }

    /// Converts a double-precision number to a unsigned 32-bit integer,
    /// cutting off towards zero. Traps with a bad conversion for what is
    /// not a number, and with an integer overflow for a number that the
    /// integer type does not hold.
    pub fn x32_from_f64_u(&mut self, dst: XReg, src: FReg) -> (r: ControlFlow<Done>)
        ensures
            match spec_checked(old(self)@.f64_truncated(src.spec_index()), false, 32) {
                Converted::Value(v) => r is Continue && final(self)@ == old(self)@.set_x_u32(
                    dst.spec_index(),
                    v as u32,
                ),
                Converted::Trap(kind) => r is Break && final(self)@ == old(self)@.trapped(
                    X32FromF64U::spec_width(),
                    Some(kind),
                ),
            },
    {
        let a = self.f(src).get_f64_bits();
        match checked(trunc_f64(a), false, false) {
            Converted::Value(v) => {
                self.set_x_u32(
                    dst,
                    #[verifier::truncate]
                    (v as u32),
                );
                ControlFlow::Continue(())
            },
            Converted::Trap(kind) => self.done_trap_kind::<X32FromF64U>(Some(kind)),
        }
    }

    /// Converts a double-precision number to a unsigned 32-bit integer,
    /// cutting off towards zero and saturating: what is not a number
    /// gives zero, and a number beyond a bound of the integer type gives
    /// that bound.
    pub fn x32_from_f64_u_sat(&mut self, dst: XReg, src: FReg) -> (r: ControlFlow<Done>)
        ensures
            r is Continue,
            final(self)@ == old(self)@.set_x_u32(
                dst.spec_index(),
                spec_saturated(old(self)@.f64_truncated(src.spec_index()), false, 32) as u32,
            ),
    {
        let a = self.f(src).get_f64_bits();
        let v = saturated(trunc_f64(a), false, false);
        self.set_x_u32(
            dst,
            #[verifier::truncate]
            (v as u32),
        );
        ControlFlow::Continue(())
    }

    /// Converts a single-precision number to a signed 64-bit integer,
    /// cutting off towards zero. Traps with a bad conversion for what is
    /// not a number, and with an integer overflow for a number that the
    /// integer type does not hold.
    pub fn x64_from_f32_s(&mut self, dst: XReg, src: FReg) -> (r: ControlFlow<Done>)
        ensures
            match spec_checked(old(self)@.f32_truncated(src.spec_index()), true, 64) {
                Converted::Value(v) => r is Continue && final(self)@ == old(self)@.set_x_u64(
                    dst.spec_index(),
                    v,
                ),
                Converted::Trap(kind) => r is Break && final(self)@ == old(self)@.trapped(
                    X64FromF32S::spec_width(),
                    Some(kind),
                ),
            },
    {
        let a = self.f(src).get_f32_bits();
        match checked(trunc_f32(a), true, true) {
            Converted::Value(v) => {
                self.set_x_u64(
                    dst,
                    v,
                );
                ControlFlow::Continue(())
            },
            Converted::Trap(kind) => self.done_trap_kind::<X64FromF32S>(Some(kind)),
        }
    }

    /// Converts a single-precision number to a signed 64-bit integer,
    /// cutting off towards zero and saturating: what is not a number
    /// gives zero, and a number beyond a bound of the integer type gives
    /// that bound.
    pub fn x64_from_f32_s_sat(&mut self, dst: XReg, src: FReg) -> (r: ControlFlow<Done>)
        ensures
            r is Continue,
            final(self)@ == old(self)@.set_x_u64(
                dst.spec_index(),
                spec_saturated(old(self)@.f32_truncated(src.spec_index()), true, 64),
            ),
    {
        let a = self.f(src).get_f32_bits();
        let v = saturated(trunc_f32(a), true, true);
        self.set_x_u64(
            dst,
            v,
        );
        ControlFlow::Continue(())
    }

    /// Converts a single-precision number to a unsigned 64-bit integer,
    /// cutting off towards zero. Traps with a bad conversion for what is
    /// not a number, and with an integer overflow for a number that the
    /// integer type does not hold.
    pub fn x64_from_f32_u(&mut self, dst: XReg, src: FReg) -> (r: ControlFlow<Done>)
        ensures
            match spec_checked(old(self)@.f32_truncated(src.spec_index()), false, 64) {
                Converted::Value(v) => r is Continue && final(self)@ == old(self)@.set_x_u64(
                    dst.spec_index(),
                    v,
                ),
                Converted::Trap(kind) => r is Break && final(self)@ == old(self)@.trapped(
                    X64FromF32U::spec_width(),
                    Some(kind),
                ),
            },
    {
        let a = self.f(src).get_f32_bits();
        match checked(trunc_f32(a), false, true) {
            Converted::Value(v) => {
                self.set_x_u64(
                    dst,
                    v,
                );
                ControlFlow::Continue(())
            },
            Converted::Trap(kind) => self.done_trap_kind::<X64FromF32U>(Some(kind)),
        }
    }

    /// Converts a single-precision number to a unsigned 64-bit integer,
    /// cutting off towards zero and saturating: what is not a number
    /// gives zero, and a number beyond a bound of the integer type gives
    /// that bound.
    pub fn x64_from_f32_u_sat(&mut self, dst: XReg, src: FReg) -> (r: ControlFlow<Done>)
        ensures
            r is Continue,
            final(self)@ == old(self)@.set_x_u64(
                dst.spec_index(),
                spec_saturated(old(self)@.f32_truncated(src.spec_index()), false, 64),
            ),
    {
        let a = self.f(src).get_f32_bits();
        let v = saturated(trunc_f32(a), false, true);
        self.set_x_u64(
            dst,
            v,
        );
        ControlFlow::Continue(())
    }

    /// Converts a double-precision number to a signed 64-bit integer,
    /// cutting off towards zero. Traps with a bad conversion for what is
    /// not a number, and with an integer overflow for a number that the
    /// integer type does not hold.
    pub fn x64_from_f64_s(&mut self, dst: XReg, src: FReg) -> (r: ControlFlow<Done>)
        ensures
            match spec_checked(old(self)@.f64_truncated(src.spec_index()), true, 64) {
                Converted::Value(v) => r is Continue && final(self)@ == old(self)@.set_x_u64(
                    dst.spec_index(),
                    v,
                ),
                Converted::Trap(kind) => r is Break && final(self)@ == old(self)@.trapped(
                    X64FromF64S::spec_width(),
                    Some(kind),
                ),
            },
    {
        let a = self.f(src).get_f64_bits();
        match checked(trunc_f64(a), true, true) {
            Converted::Value(v) => {
                self.set_x_u64(
                    dst,
                    v,
                );
                ControlFlow::Continue(())
            },
            Converted::Trap(kind) => self.done_trap_kind::<X64FromF64S>(Some(kind)),
        }
    }

    /// Converts a double-precision number to a signed 64-bit integer,
    /// cutting off towards zero and saturating: what is not a number
    /// gives zero, and a number beyond a bound of the integer type gives
    /// that bound.
    pub fn x64_from_f64_s_sat(&mut self, dst: XReg, src: FReg) -> (r: ControlFlow<Done>)
        ensures
            r is Continue,
            final(self)@ == old(self)@.set_x_u64(
                dst.spec_index(),
                spec_saturated(old(self)@.f64_truncated(src.spec_index()), true, 64),
            ),
    {
        let a = self.f(src).get_f64_bits();
        let v = saturated(trunc_f64(a), true, true);
        self.set_x_u64(
            dst,
            v,
        );
        ControlFlow::Continue(())
    }

    /// Converts a double-precision number to a unsigned 64-bit integer,
    /// cutting off towards zero. Traps with a bad conversion for what is
    /// not a number, and with an integer overflow for a number that the
    /// integer type does not hold.
    pub fn x64_from_f64_u(&mut self, dst: XReg, src: FReg) -> (r: ControlFlow<Done>)
        ensures
            match spec_checked(old(self)@.f64_truncated(src.spec_index()), false, 64) {
                Converted::Value(v) => r is Continue && final(self)@ == old(self)@.set_x_u64(
                    dst.spec_index(),
                    v,
                ),
                Converted::Trap(kind) => r is Break && final(self)@ == old(self)@.trapped(
                    X64FromF64U::spec_width(),
                    Some(kind),
                ),
            },
    {
        let a = self.f(src).get_f64_bits();
        match checked(trunc_f64(a), false, true) {
            Converted::Value(v) => {
                self.set_x_u64(
                    dst,
                    v,
                );
                ControlFlow::Continue(())
            },
            Converted::Trap(kind) => self.done_trap_kind::<X64FromF64U>(Some(kind)),
        }
    }

    /// Converts a double-precision number to a unsigned 64-bit integer,
    /// cutting off towards zero and saturating: what is not a number
    /// gives zero, and a number beyond a bound of the integer type gives
    /// that bound.
    pub fn x64_from_f64_u_sat(&mut self, dst: XReg, src: FReg) -> (r: ControlFlow<Done>)
        ensures
            r is Continue,
            final(self)@ == old(self)@.set_x_u64(
                dst.spec_index(),
                spec_saturated(old(self)@.f64_truncated(src.spec_index()), false, 64),
            ),
    {
        let a = self.f(src).get_f64_bits();
        let v = saturated(trunc_f64(a), false, true);
        self.set_x_u64(
            dst,
            v,
        );
        ControlFlow::Continue(())
    }
}

} // verus!
