//! The handlers that move bits between the banks of registers, and the
//! handlers of the 128-bit integer instructions, whose operands and
//! results take two integer registers each.

use crate::interp::machine::{InterpView, Interpreter};
use crate::interp::regs::{BinaryOperands, FReg, VReg, XReg};
use crate::interp::state::Done;
use core::ops::ControlFlow;
use vstd::prelude::*;

verus! {

/// The 128-bit number whose lower half is `lo` and whose upper half is
/// `hi`.
pub open spec fn spec_join128(lo: u64, hi: u64) -> u128 {
    (lo as u128) | ((hi as u128) << 64)
}

/// The lower half of a 128-bit number.
pub open spec fn spec_low64(val: u128) -> u64 {
    val as u64
}

/// The upper half of a 128-bit number.
pub open spec fn spec_high64(val: u128) -> u64 {
    (val >> 64) as u64
}

/// The sum of two 128-bit numbers, wrapping around.
pub open spec fn spec_add128(a: u128, b: u128) -> u128 {
    if a + b > u128::MAX {
        (a + b - 0x1_0000_0000_0000_0000_0000_0000_0000_0000) as u128
    } else {
        (a + b) as u128
    }
}

/// The difference of two 128-bit numbers, wrapping around.
pub open spec fn spec_sub128(a: u128, b: u128) -> u128 {
    if a - b < 0 {
        (a - b + 0x1_0000_0000_0000_0000_0000_0000_0000_0000) as u128
    } else {
        (a - b) as u128
    }
}

fn join128(lo: u64, hi: u64) -> (val: u128)
    ensures
        val == spec_join128(lo, hi),
{
    (lo as u128) | ((hi as u128) << 64)
}

impl InterpView {
    /// The 128-bit number in the integer registers `lo` and `hi`.
    pub open spec fn x_u128(self, lo: int, hi: int) -> u128 {
        spec_join128(self.x_u64(lo), self.x_u64(hi))
    }

    /// The interpreter with the 128-bit number `val` in the integer
    /// registers `lo` and `hi`: the lower half is written first.
    pub open spec fn set_x_u128(self, lo: int, hi: int, val: u128) -> InterpView {
        self.set_x_u64(lo, spec_low64(val)).set_x_u64(hi, spec_high64(val))
    }
}

impl Interpreter {
    /// The 128-bit number in the integer registers `lo` and `hi`.
    pub fn get_u128(&self, lo: XReg, hi: XReg) -> (val: u128)
        ensures
            val == self@.x_u128(lo.spec_index(), hi.spec_index()),
    {
        let lo = self.x_u64(lo);
        let hi = self.x_u64(hi);
        join128(lo, hi)
    }

    /// Writes the 128-bit number `val` to the integer registers `lo` and
    /// `hi`.
    pub fn set_u128(&mut self, lo: XReg, hi: XReg, val: u128)
        ensures
            final(self)@ == old(self)@.set_x_u128(lo.spec_index(), hi.spec_index(), val),
    {
        self.set_x_u64(
            lo,
            #[verifier::truncate]
            (val as u64),
        );
        self.set_x_u64(
            hi,
            #[verifier::truncate]
            ((val >> 64) as u64),
        );
    }

    /// Adds two 128-bit numbers, wrapping around.
    pub fn xadd128(
        &mut self,
        dst_lo: XReg,
        dst_hi: XReg,
        lhs_lo: XReg,
        lhs_hi: XReg,
        rhs_lo: XReg,
        rhs_hi: XReg,
    ) -> (r: ControlFlow<Done>)
        ensures
            r is Continue,
            final(self)@ == old(self)@.set_x_u128(
                dst_lo.spec_index(),
                dst_hi.spec_index(),
                spec_add128(
                    old(self)@.x_u128(lhs_lo.spec_index(), lhs_hi.spec_index()),
                    old(self)@.x_u128(rhs_lo.spec_index(), rhs_hi.spec_index()),
                ),
            ),
    {
        let lhs = self.get_u128(lhs_lo, lhs_hi);
        let rhs = self.get_u128(rhs_lo, rhs_hi);
        let result = if lhs > u128::MAX - rhs {
            lhs - (u128::MAX - rhs) - 1
        } else {
            lhs + rhs
        };
        self.set_u128(dst_lo, dst_hi, result);
        ControlFlow::Continue(())
    }

    /// Subtracts two 128-bit numbers, wrapping around.
    pub fn xsub128(
        &mut self,
        dst_lo: XReg,
        dst_hi: XReg,
        lhs_lo: XReg,
        lhs_hi: XReg,
        rhs_lo: XReg,
        rhs_hi: XReg,
    ) -> (r: ControlFlow<Done>)
        ensures
            r is Continue,
            final(self)@ == old(self)@.set_x_u128(
                dst_lo.spec_index(),
                dst_hi.spec_index(),
                spec_sub128(
                    old(self)@.x_u128(lhs_lo.spec_index(), lhs_hi.spec_index()),
                    old(self)@.x_u128(rhs_lo.spec_index(), rhs_hi.spec_index()),
                ),
            ),
    {
        let lhs = self.get_u128(lhs_lo, lhs_hi);
        let rhs = self.get_u128(rhs_lo, rhs_hi);
        let result = if lhs < rhs {
            u128::MAX - (rhs - lhs) + 1
        } else {
            lhs - rhs
        };
        self.set_u128(dst_lo, dst_hi, result);
        ControlFlow::Continue(())
    }

    /// The 128-bit product of two unsigned 64-bit numbers.
    pub fn xwidemul64_u(&mut self, dst_lo: XReg, dst_hi: XReg, lhs: XReg, rhs: XReg) -> (r:
        ControlFlow<Done>)
        ensures
            r is Continue,
            final(self)@ == old(self)@.set_x_u128(
                dst_lo.spec_index(),
                dst_hi.spec_index(),
                (old(self)@.x_u64(lhs.spec_index()) * old(self)@.x_u64(rhs.spec_index())) as u128,
            ),
    {
        let a = self.x_u64(lhs);
        let b = self.x_u64(rhs);
        assert(0 <= a * b <= 0xffff_ffff_ffff_ffff * 0xffff_ffff_ffff_ffff) by (nonlinear_arith)
            requires
                0 <= a <= 0xffff_ffff_ffff_ffff,
                0 <= b <= 0xffff_ffff_ffff_ffff,
        ;
        let result: u128 = (a as u128) * (b as u128);
        self.set_u128(dst_lo, dst_hi, result);
        ControlFlow::Continue(())
    }

    /// The 128-bit product of two signed 64-bit numbers.
    pub fn xwidemul64_s(&mut self, dst_lo: XReg, dst_hi: XReg, lhs: XReg, rhs: XReg) -> (r:
        ControlFlow<Done>)
        ensures
            r is Continue,
            final(self)@ == old(self)@.set_x_u128(
                dst_lo.spec_index(),
                dst_hi.spec_index(),
                ((old(self)@.x_i64(lhs.spec_index()) * old(self)@.x_i64(rhs.spec_index())) as i128)
                    as u128,
            ),
    {
        let a = self.x_i64(lhs);
        let b = self.x_i64(rhs);
        assert(-0x4000_0000_0000_0000_0000_0000_0000_0000 <= a * b
            <= 0x4000_0000_0000_0000_0000_0000_0000_0000) by (nonlinear_arith)
            requires
                -0x8000_0000_0000_0000 <= a <= 0x7fff_ffff_ffff_ffff,
                -0x8000_0000_0000_0000 <= b <= 0x7fff_ffff_ffff_ffff,
        ;
        let result: i128 = (a as i128) * (b as i128);
        self.set_u128(
            dst_lo,
            dst_hi,
            #[verifier::truncate]
            (result as u128),
        );
        ControlFlow::Continue(())
    }

    /// Copies a float register.
    pub fn fmov(&mut self, dst: FReg, src: FReg) -> (r: ControlFlow<Done>)
        ensures
            r is Continue,
            final(self)@ == old(self)@.set_f(
                dst.spec_index(),
                old(self)@.state.f[src.spec_index()],
            ),
    {
        let val = self.f(src);
        self.set_f(dst, val);
        ControlFlow::Continue(())
    }

    /// Copies a vector register.
    pub fn vmov(&mut self, dst: VReg, src: VReg) -> (r: ControlFlow<Done>)
        ensures
            r is Continue,
            final(self)@ == old(self)@.set_v(
                dst.spec_index(),
                old(self)@.state.v[src.spec_index()],
            ),
    {
        let val = self.v(src);
        self.set_v(dst, val);
        ControlFlow::Continue(())
    }

    /// Sets a float register to the single-precision number with the
    /// given bits.
    pub fn fconst32(&mut self, dst: FReg, bits: u32) -> (r: ControlFlow<Done>)
        ensures
            r is Continue,
            final(self)@ == old(self)@.set_f32_bits(dst.spec_index(), bits),
    {
        self.set_f32_bits(dst, bits);
        ControlFlow::Continue(())
    }

    /// Sets a float register to the double-precision number with the
    /// given bits.
    pub fn fconst64(&mut self, dst: FReg, bits: u64) -> (r: ControlFlow<Done>)
        ensures
            r is Continue,
            final(self)@ == old(self)@.set_f64_bits(dst.spec_index(), bits),
    {
        self.set_f64_bits(dst, bits);
        ControlFlow::Continue(())
    }

    /// Sets a vector register to a constant.
    pub fn vconst128(&mut self, dst: VReg, val: u128) -> (r: ControlFlow<Done>)
        ensures
            r is Continue,
            final(self)@ == old(self)@.set_v128(dst.spec_index(), val),
    {
        self.set_v128(dst, val);
        ControlFlow::Continue(())
    }

    /// Copies the bits of a single-precision number to the lower half of
    /// an integer register.
    pub fn bitcast_int_from_float_32(&mut self, dst: XReg, src: FReg) -> (r: ControlFlow<Done>)
        ensures
            r is Continue,
            final(self)@ == old(self)@.set_x_u32(
                dst.spec_index(),
                old(self)@.state.f[src.spec_index()].bits as u32,
            ),
    {
        let val = self.f(src).get_f32_bits();
        self.set_x_u32(dst, val);
        ControlFlow::Continue(())
    }

    /// Copies the bits of a double-precision number to an integer
    /// register.
    pub fn bitcast_int_from_float_64(&mut self, dst: XReg, src: FReg) -> (r: ControlFlow<Done>)
        ensures
            r is Continue,
            final(self)@ == old(self)@.set_x_u64(
                dst.spec_index(),
                old(self)@.state.f[src.spec_index()].bits,
            ),
    {
        let val = self.f(src).get_f64_bits();
        self.set_x_u64(dst, val);
        ControlFlow::Continue(())
    }

    /// Copies the lower half of an integer register to a float register,
    /// as the bits of a single-precision number.
    pub fn bitcast_float_from_int_32(&mut self, dst: FReg, src: XReg) -> (r: ControlFlow<Done>)
        ensures
            r is Continue,
            final(self)@ == old(self)@.set_f32_bits(
                dst.spec_index(),
                old(self)@.x_u32(src.spec_index()),
            ),
    {
        let val = self.x_u32(src);
        self.set_f32_bits(dst, val);
        ControlFlow::Continue(())
    }

    /// Copies an integer register to a float register, as the bits of a
    /// double-precision number.
    pub fn bitcast_float_from_int_64(&mut self, dst: FReg, src: XReg) -> (r: ControlFlow<Done>)
        ensures
            r is Continue,
            final(self)@ == old(self)@.set_f64_bits(
                dst.spec_index(),
                old(self)@.x_u64(src.spec_index()),
            ),
    {
        let val = self.x_u64(src);
        self.set_f64_bits(dst, val);
        ControlFlow::Continue(())
    }

    /// Chooses between two single-precision numbers: `if_nonzero` unless
    /// the lower half of `cond` is zero.
    pub fn fselect32(&mut self, dst: FReg, cond: XReg, if_nonzero: FReg, if_zero: FReg) -> (r:
        ControlFlow<Done>)
        ensures
            r is Continue,
            final(self)@ == old(self)@.set_f32_bits(
                dst.spec_index(),
                if old(self)@.x_u32(cond.spec_index()) != 0 {
                    old(self)@.state.f[if_nonzero.spec_index()].bits as u32
                } else {
                    old(self)@.state.f[if_zero.spec_index()].bits as u32
                },
            ),
    {
        let result = if self.x_u32(cond) != 0 {
            self.f(if_nonzero).get_f32_bits()
        } else {
            self.f(if_zero).get_f32_bits()
        };
        self.set_f32_bits(dst, result);
        ControlFlow::Continue(())
    }

    /// Chooses between two double-precision numbers: `if_nonzero` unless
    /// the lower half of `cond` is zero.
    pub fn fselect64(&mut self, dst: FReg, cond: XReg, if_nonzero: FReg, if_zero: FReg) -> (r:
        ControlFlow<Done>)
        ensures
            r is Continue,
            final(self)@ == old(self)@.set_f64_bits(
                dst.spec_index(),
                if old(self)@.x_u32(cond.spec_index()) != 0 {
                    old(self)@.state.f[if_nonzero.spec_index()].bits
                } else {
                    old(self)@.state.f[if_zero.spec_index()].bits
                },
            ),
    {
        let result = if self.x_u32(cond) != 0 {
            self.f(if_nonzero).get_f64_bits()
        } else {
            self.f(if_zero).get_f64_bits()
        };
        self.set_f64_bits(dst, result);
        ControlFlow::Continue(())
    }

    /// The bitwise and of two vectors.
    pub fn vband128(&mut self, operands: BinaryOperands<VReg>) -> (r: ControlFlow<Done>)
        ensures
            r is Continue,
            final(self)@ == old(self)@.set_v128(
                operands.dst.spec_index(),
                old(self)@.state.v[operands.src1.spec_index()].bits
                    & old(self)@.state.v[operands.src2.spec_index()].bits,
            ),
    {
        let a = self.v(operands.src1).get_u128();
        let b = self.v(operands.src2).get_u128();
        self.set_v128(operands.dst, a & b);
        ControlFlow::Continue(())
    }

    /// The bitwise or of two vectors.
    pub fn vbor128(&mut self, operands: BinaryOperands<VReg>) -> (r: ControlFlow<Done>)
        ensures
            r is Continue,
            final(self)@ == old(self)@.set_v128(
                operands.dst.spec_index(),
                old(self)@.state.v[operands.src1.spec_index()].bits
                    | old(self)@.state.v[operands.src2.spec_index()].bits,
            ),
    {
        let a = self.v(operands.src1).get_u128();
        let b = self.v(operands.src2).get_u128();
        self.set_v128(operands.dst, a | b);
        ControlFlow::Continue(())
    }

    /// The bitwise exclusive or of two vectors.
    pub fn vbxor128(&mut self, operands: BinaryOperands<VReg>) -> (r: ControlFlow<Done>)
        ensures
            r is Continue,
            final(self)@ == old(self)@.set_v128(
                operands.dst.spec_index(),
                old(self)@.state.v[operands.src1.spec_index()].bits
                    ^ old(self)@.state.v[operands.src2.spec_index()].bits,
            ),
    {
        let a = self.v(operands.src1).get_u128();
        let b = self.v(operands.src2).get_u128();
        self.set_v128(operands.dst, a ^ b);
        ControlFlow::Continue(())
    }

    /// The bitwise complement of a vector.
    pub fn vbnot128(&mut self, dst: VReg, src: VReg) -> (r: ControlFlow<Done>)
        ensures
            r is Continue,
            final(self)@ == old(self)@.set_v128(
                dst.spec_index(),
                !old(self)@.state.v[src.spec_index()].bits,
            ),
    {
        let a = self.v(src).get_u128();
        self.set_v128(dst, !a);
        ControlFlow::Continue(())
    }

    /// Chooses bit by bit between two vectors: the bit of `x` where the
    /// bit of `c` is one, else the bit of `y`.
    pub fn vbitselect128(&mut self, dst: VReg, c: VReg, x: VReg, y: VReg) -> (r: ControlFlow<Done>)
        ensures
            r is Continue,
            ({
                let cv = old(self)@.state.v[c.spec_index()].bits;
                let xv = old(self)@.state.v[x.spec_index()].bits;
                let yv = old(self)@.state.v[y.spec_index()].bits;
                final(self)@ == old(self)@.set_v128(dst.spec_index(), (cv & xv) | (!cv & yv))
            }),
    {
        let cv = self.v(c).get_u128();
        let xv = self.v(x).get_u128();
        let yv = self.v(y).get_u128();
        self.set_v128(dst, (cv & xv) | (!cv & yv));
        ControlFlow::Continue(())
    }
}

} // verus!
