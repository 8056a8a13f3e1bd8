//! The handlers that work on the sign of a floating-point number. The
//! sign is the highest bit of the format; these handlers change or copy
//! that bit alone, whatever the other bits hold.

use crate::interp::machine::Interpreter;
use crate::interp::regs::{BinaryOperands, FReg};
use crate::interp::state::Done;
use core::ops::ControlFlow;
use vstd::prelude::*;

verus! {

impl Interpreter {
    /// Negates a single-precision number: the sign bit changes, and no
    /// other.
    pub fn fneg32(&mut self, dst: FReg, src: FReg) -> (r: ControlFlow<Done>)
        ensures
            r is Continue,
            ({
                let a = old(self)@.state.f[src.spec_index()].bits as u32;
                final(self)@ == old(self)@.set_f32_bits(dst.spec_index(), a ^ 0x8000_0000u32)
            }),
    {
        let a = self.f(src).get_f32_bits();
        self.set_f32_bits(dst, a ^ 0x8000_0000u32);
        ControlFlow::Continue(())
    }

    /// The absolute value of a single-precision number: the sign bit is
    /// cleared, and no other bit changes.
    pub fn fabs32(&mut self, dst: FReg, src: FReg) -> (r: ControlFlow<Done>)
        ensures
            r is Continue,
            ({
                let a = old(self)@.state.f[src.spec_index()].bits as u32;
                final(self)@ == old(self)@.set_f32_bits(dst.spec_index(), a & 0x7fff_ffffu32)
            }),
    {
        let a = self.f(src).get_f32_bits();
        self.set_f32_bits(dst, a & 0x7fff_ffffu32);
        ControlFlow::Continue(())
    }

    /// The single-precision number `src1` with the sign of `src2`.
    pub fn fcopysign32(&mut self, operands: BinaryOperands<FReg>) -> (r: ControlFlow<Done>)
        ensures
            r is Continue,
            ({
                let a = old(self)@.state.f[operands.src1.spec_index()].bits as u32;
                let b = old(self)@.state.f[operands.src2.spec_index()].bits as u32;
                final(self)@ == old(self)@.set_f32_bits(
                    operands.dst.spec_index(),
                    (a & 0x7fff_ffffu32) | (b & 0x8000_0000u32),
                )
            }),
    {
        let a = self.f(operands.src1).get_f32_bits();
        let b = self.f(operands.src2).get_f32_bits();
        self.set_f32_bits(operands.dst, (a & 0x7fff_ffffu32) | (b & 0x8000_0000u32));
        ControlFlow::Continue(())
    }

    /// Negates a double-precision number: the sign bit changes, and no
    /// other.
    pub fn fneg64(&mut self, dst: FReg, src: FReg) -> (r: ControlFlow<Done>)
        ensures
            r is Continue,
            ({
                let a = old(self)@.state.f[src.spec_index()].bits;
                final(self)@ == old(self)@.set_f64_bits(
                    dst.spec_index(),
                    a ^ 0x8000_0000_0000_0000u64,
                )
            }),
    {
        let a = self.f(src).get_f64_bits();
        self.set_f64_bits(dst, a ^ 0x8000_0000_0000_0000u64);
        ControlFlow::Continue(())
    }

    /// The absolute value of a double-precision number: the sign bit is
    /// cleared, and no other bit changes.
    pub fn fabs64(&mut self, dst: FReg, src: FReg) -> (r: ControlFlow<Done>)
        ensures
            r is Continue,
            ({
                let a = old(self)@.state.f[src.spec_index()].bits;
                final(self)@ == old(self)@.set_f64_bits(
                    dst.spec_index(),
                    a & 0x7fff_ffff_ffff_ffffu64,
                )
            }),
    {
        let a = self.f(src).get_f64_bits();
        self.set_f64_bits(dst, a & 0x7fff_ffff_ffff_ffffu64);
        ControlFlow::Continue(())
    }

    /// The double-precision number `src1` with the sign of `src2`.
    pub fn fcopysign64(&mut self, operands: BinaryOperands<FReg>) -> (r: ControlFlow<Done>)
        ensures
            r is Continue,
            ({
                let a = old(self)@.state.f[operands.src1.spec_index()].bits;
                let b = old(self)@.state.f[operands.src2.spec_index()].bits;
                final(self)@ == old(self)@.set_f64_bits(
                    operands.dst.spec_index(),
                    (a & 0x7fff_ffff_ffff_ffffu64) | (b & 0x8000_0000_0000_0000u64),
                )
            }),
    {
        let a = self.f(operands.src1).get_f64_bits();
        let b = self.f(operands.src2).get_f64_bits();
        self.set_f64_bits(
            operands.dst,
            (a & 0x7fff_ffff_ffff_ffffu64) | (b & 0x8000_0000_0000_0000u64),
        );
        ControlFlow::Continue(())
    }
}

} // verus!
