//! The handlers of the integer instructions that touch registers only.
//!
//! Each handler reads its sources, computes, writes its destination and
//! lets the interpreter go on; division and checked addition may trap
//! instead. A 32-bit result replaces the lower half of
//! the destination and leaves the upper half as it was.

use crate::interp::bits::{
    count_ones32, count_ones64, spec_count_ones, spec_mulhi64_s, spec_mulhi64_u, spec_rotl32,
    spec_rotl64, spec_rotr32, spec_rotr64, spec_swap_bytes32, spec_swap_bytes64, mulhi64_s,
    mulhi64_u, rotl32, rotl64, rotr32, rotr64, swap_bytes32, swap_bytes64,
};
use crate::interp::bits::{lemma_div_trunc, spec_div_trunc, spec_rem_trunc};
use crate::interp::encode::{
    Encode, XDiv32S, XDiv32U, XDiv64S, XDiv64U, XRem32S, XRem32U, XRem64S, XRem64U,
    Xadd32UoverflowTrap, Xadd64UoverflowTrap,
};
use crate::interp::machine::Interpreter;
use crate::interp::regs::{BinaryOperands, XReg, U6};
use crate::interp::state::{Done, TrapKind};
use core::ops::ControlFlow;
use vstd::prelude::*;

verus! {

impl Interpreter {
    /// Copies all 64 bits of `src` to `dst`.
    pub fn xmov(&mut self, dst: XReg, src: XReg) -> (r: ControlFlow<Done>)
        ensures
            r is Continue,
            final(self)@ == old(self)@.set_x(
                dst.spec_index(),
                old(self)@.state.x[src.spec_index()],
            ),
    {
        let val = self.x(src);
        self.set_x(dst, val);
        ControlFlow::Continue(())
    }

    /// Sets `dst` to the sign-extended constant `imm`.
    pub fn xconst8(&mut self, dst: XReg, imm: i8) -> (r: ControlFlow<Done>)
        ensures
            r is Continue,
            final(self)@ == old(self)@.set_x_i64(dst.spec_index(), imm as i64),
    {
        self.set_x_i64(dst, imm as i64);
        ControlFlow::Continue(())
    }

    /// Sets `dst` to the sign-extended constant `imm`.
    pub fn xconst16(&mut self, dst: XReg, imm: i16) -> (r: ControlFlow<Done>)
        ensures
            r is Continue,
            final(self)@ == old(self)@.set_x_i64(dst.spec_index(), imm as i64),
    {
        self.set_x_i64(dst, imm as i64);
        ControlFlow::Continue(())
    }

    /// Sets `dst` to the sign-extended constant `imm`.
    pub fn xconst32(&mut self, dst: XReg, imm: i32) -> (r: ControlFlow<Done>)
        ensures
            r is Continue,
            final(self)@ == old(self)@.set_x_i64(dst.spec_index(), imm as i64),
    {
        self.set_x_i64(dst, imm as i64);
        ControlFlow::Continue(())
    }

    /// Sets `dst` to the constant `imm`.
    pub fn xconst64(&mut self, dst: XReg, imm: i64) -> (r: ControlFlow<Done>)
        ensures
            r is Continue,
            final(self)@ == old(self)@.set_x_i64(dst.spec_index(), imm),
    {
        self.set_x_i64(dst, imm);
        ControlFlow::Continue(())
    }

    /// Sets `dst` to zero.
    pub fn xzero(&mut self, dst: XReg) -> (r: ControlFlow<Done>)
        ensures
            r is Continue,
            final(self)@ == old(self)@.set_x_i64(dst.spec_index(), 0),
    {
        self.set_x_i64(dst, 0);
        ControlFlow::Continue(())
    }

    /// Sets `dst` to one.
    pub fn xone(&mut self, dst: XReg) -> (r: ControlFlow<Done>)
        ensures
            r is Continue,
            final(self)@ == old(self)@.set_x_i64(dst.spec_index(), 1),
    {
        self.set_x_i64(dst, 1);
        ControlFlow::Continue(())
    }

    /// Adds two 32-bit numbers, wrapping around.
    pub fn xadd32(&mut self, operands: BinaryOperands<XReg>) -> (r: ControlFlow<Done>)
        ensures
            r is Continue,
            ({
                let a = old(self)@.x_u32(operands.src1.spec_index());
                let b = old(self)@.x_u32(operands.src2.spec_index());
                final(self)@ == old(self)@.set_x_u32(operands.dst.spec_index(), a.wrapping_add(b))
            }),
    {
        let a = self.x_u32(operands.src1);
        let b = self.x_u32(operands.src2);
        self.set_x_u32(operands.dst, a.wrapping_add(b));
        ControlFlow::Continue(())
    }

    /// Adds an unsigned 32-bit constant to a 32-bit number, wrapping
    /// around.
    pub fn xadd32_u32(&mut self, dst: XReg, src1: XReg, src2: u32) -> (r: ControlFlow<Done>)
        ensures
            r is Continue,
            ({
                let a = old(self)@.x_u32(src1.spec_index());
                final(self)@ == old(self)@.set_x_u32(dst.spec_index(), a.wrapping_add(src2))
            }),
    {
        let a = self.x_u32(src1);
        self.set_x_u32(dst, a.wrapping_add(src2));
        ControlFlow::Continue(())
    }

    /// Adds an unsigned 8-bit constant to a 32-bit number, wrapping
    /// around.
    pub fn xadd32_u8(&mut self, dst: XReg, src1: XReg, src2: u8) -> (r: ControlFlow<Done>)
        ensures
            r is Continue,
            ({
                let a = old(self)@.x_u32(src1.spec_index());
                final(self)@ == old(self)@.set_x_u32(dst.spec_index(), a.wrapping_add(src2 as u32))
            }),
    {
        let a = self.x_u32(src1);
        self.set_x_u32(dst, a.wrapping_add(src2 as u32));
        ControlFlow::Continue(())
    }

    /// Multiplies two 32-bit numbers and adds a third, wrapping around.
    pub fn xmadd32(
        &mut self,
        dst: XReg,
        src1: XReg,
        src2: XReg,
        src3: XReg,
    ) -> (r: ControlFlow<Done>)
        ensures
            r is Continue,
            ({
                let a = old(self)@.x_u32(src1.spec_index());
                let b = old(self)@.x_u32(src2.spec_index());
                let c = old(self)@.x_u32(src3.spec_index());
                final(self)@ == old(self)@.set_x_u32(
                    dst.spec_index(),
                    a.wrapping_mul(b).wrapping_add(c),
                )
            }),
    {
        let a = self.x_u32(src1);
        let b = self.x_u32(src2);
        let c = self.x_u32(src3);
        self.set_x_u32(dst, a.wrapping_mul(b).wrapping_add(c));
        ControlFlow::Continue(())
    }

    /// Subtracts two 32-bit numbers, wrapping around.
    pub fn xsub32(&mut self, operands: BinaryOperands<XReg>) -> (r: ControlFlow<Done>)
        ensures
            r is Continue,
            ({
                let a = old(self)@.x_u32(operands.src1.spec_index());
                let b = old(self)@.x_u32(operands.src2.spec_index());
                final(self)@ == old(self)@.set_x_u32(operands.dst.spec_index(), a.wrapping_sub(b))
            }),
    {
        let a = self.x_u32(operands.src1);
        let b = self.x_u32(operands.src2);
        self.set_x_u32(operands.dst, a.wrapping_sub(b));
        ControlFlow::Continue(())
    }

    /// Subtracts an unsigned 32-bit constant from a 32-bit number,
    /// wrapping around.
    pub fn xsub32_u32(&mut self, dst: XReg, src1: XReg, src2: u32) -> (r: ControlFlow<Done>)
        ensures
            r is Continue,
            ({
                let a = old(self)@.x_u32(src1.spec_index());
                final(self)@ == old(self)@.set_x_u32(dst.spec_index(), a.wrapping_sub(src2))
            }),
    {
        let a = self.x_u32(src1);
        self.set_x_u32(dst, a.wrapping_sub(src2));
        ControlFlow::Continue(())
    }

    /// Subtracts an unsigned 8-bit constant from a 32-bit number,
    /// wrapping around.
    pub fn xsub32_u8(&mut self, dst: XReg, src1: XReg, src2: u8) -> (r: ControlFlow<Done>)
        ensures
            r is Continue,
            ({
                let a = old(self)@.x_u32(src1.spec_index());
                final(self)@ == old(self)@.set_x_u32(dst.spec_index(), a.wrapping_sub(src2 as u32))
            }),
    {
        let a = self.x_u32(src1);
        self.set_x_u32(dst, a.wrapping_sub(src2 as u32));
        ControlFlow::Continue(())
    }

    /// Multiplies two 32-bit numbers, wrapping around.
    pub fn xmul32(&mut self, operands: BinaryOperands<XReg>) -> (r: ControlFlow<Done>)
        ensures
            r is Continue,
            ({
                let a = old(self)@.x_u32(operands.src1.spec_index());
                let b = old(self)@.x_u32(operands.src2.spec_index());
                final(self)@ == old(self)@.set_x_u32(operands.dst.spec_index(), a.wrapping_mul(b))
            }),
    {
        let a = self.x_u32(operands.src1);
        let b = self.x_u32(operands.src2);
        self.set_x_u32(operands.dst, a.wrapping_mul(b));
        ControlFlow::Continue(())
    }

    /// Multiplies a 32-bit number by a signed 32-bit constant, wrapping
    /// around.
    pub fn xmul32_s32(&mut self, dst: XReg, src1: XReg, src2: i32) -> (r: ControlFlow<Done>)
        ensures
            r is Continue,
            ({
                let a = old(self)@.x_i32(src1.spec_index());
                final(self)@ == old(self)@.set_x_i32(dst.spec_index(), a.wrapping_mul(src2))
            }),
    {
        let a = self.x_i32(src1);
        self.set_x_i32(dst, a.wrapping_mul(src2));
        ControlFlow::Continue(())
    }

    /// Multiplies a 32-bit number by a signed 8-bit constant, wrapping
    /// around.
    pub fn xmul32_s8(&mut self, dst: XReg, src1: XReg, src2: i8) -> (r: ControlFlow<Done>)
        ensures
            r is Continue,
            ({
                let a = old(self)@.x_i32(src1.spec_index());
                final(self)@ == old(self)@.set_x_i32(dst.spec_index(), a.wrapping_mul(src2 as i32))
            }),
    {
        let a = self.x_i32(src1);
        self.set_x_i32(dst, a.wrapping_mul(src2 as i32));
        ControlFlow::Continue(())
    }

    /// Adds two 64-bit numbers, wrapping around.
    pub fn xadd64(&mut self, operands: BinaryOperands<XReg>) -> (r: ControlFlow<Done>)
        ensures
            r is Continue,
            ({
                let a = old(self)@.x_u64(operands.src1.spec_index());
                let b = old(self)@.x_u64(operands.src2.spec_index());
                final(self)@ == old(self)@.set_x_u64(operands.dst.spec_index(), a.wrapping_add(b))
            }),
    {
        let a = self.x_u64(operands.src1);
        let b = self.x_u64(operands.src2);
        self.set_x_u64(operands.dst, a.wrapping_add(b));
        ControlFlow::Continue(())
    }

    /// Adds an unsigned 32-bit constant to a 64-bit number, wrapping
    /// around.
    pub fn xadd64_u32(&mut self, dst: XReg, src1: XReg, src2: u32) -> (r: ControlFlow<Done>)
        ensures
            r is Continue,
            ({
                let a = old(self)@.x_u64(src1.spec_index());
                final(self)@ == old(self)@.set_x_u64(dst.spec_index(), a.wrapping_add(src2 as u64))
            }),
    {
        let a = self.x_u64(src1);
        self.set_x_u64(dst, a.wrapping_add(src2 as u64));
        ControlFlow::Continue(())
    }

    /// Adds an unsigned 8-bit constant to a 64-bit number, wrapping
    /// around.
    pub fn xadd64_u8(&mut self, dst: XReg, src1: XReg, src2: u8) -> (r: ControlFlow<Done>)
        ensures
            r is Continue,
            ({
                let a = old(self)@.x_u64(src1.spec_index());
                final(self)@ == old(self)@.set_x_u64(dst.spec_index(), a.wrapping_add(src2 as u64))
            }),
    {
        let a = self.x_u64(src1);
        self.set_x_u64(dst, a.wrapping_add(src2 as u64));
        ControlFlow::Continue(())
    }

    /// Multiplies two 64-bit numbers and adds a third, wrapping around.
    pub fn xmadd64(
        &mut self,
        dst: XReg,
        src1: XReg,
        src2: XReg,
        src3: XReg,
    ) -> (r: ControlFlow<Done>)
        ensures
            r is Continue,
            ({
                let a = old(self)@.x_u64(src1.spec_index());
                let b = old(self)@.x_u64(src2.spec_index());
                let c = old(self)@.x_u64(src3.spec_index());
                final(self)@ == old(self)@.set_x_u64(
                    dst.spec_index(),
                    a.wrapping_mul(b).wrapping_add(c),
                )
            }),
    {
        let a = self.x_u64(src1);
        let b = self.x_u64(src2);
        let c = self.x_u64(src3);
        self.set_x_u64(dst, a.wrapping_mul(b).wrapping_add(c));
        ControlFlow::Continue(())
    }

    /// Subtracts two 64-bit numbers, wrapping around.
    pub fn xsub64(&mut self, operands: BinaryOperands<XReg>) -> (r: ControlFlow<Done>)
        ensures
            r is Continue,
            ({
                let a = old(self)@.x_u64(operands.src1.spec_index());
                let b = old(self)@.x_u64(operands.src2.spec_index());
                final(self)@ == old(self)@.set_x_u64(operands.dst.spec_index(), a.wrapping_sub(b))
            }),
    {
        let a = self.x_u64(operands.src1);
        let b = self.x_u64(operands.src2);
        self.set_x_u64(operands.dst, a.wrapping_sub(b));
        ControlFlow::Continue(())
    }

    /// Subtracts an unsigned 32-bit constant from a 64-bit number,
    /// wrapping around.
    pub fn xsub64_u32(&mut self, dst: XReg, src1: XReg, src2: u32) -> (r: ControlFlow<Done>)
        ensures
            r is Continue,
            ({
                let a = old(self)@.x_u64(src1.spec_index());
                final(self)@ == old(self)@.set_x_u64(dst.spec_index(), a.wrapping_sub(src2 as u64))
            }),
    {
        let a = self.x_u64(src1);
        self.set_x_u64(dst, a.wrapping_sub(src2 as u64));
        ControlFlow::Continue(())
    }

    /// Subtracts an unsigned 8-bit constant from a 64-bit number,
    /// wrapping around.
    pub fn xsub64_u8(&mut self, dst: XReg, src1: XReg, src2: u8) -> (r: ControlFlow<Done>)
        ensures
            r is Continue,
            ({
                let a = old(self)@.x_u64(src1.spec_index());
                final(self)@ == old(self)@.set_x_u64(dst.spec_index(), a.wrapping_sub(src2 as u64))
            }),
    {
        let a = self.x_u64(src1);
        self.set_x_u64(dst, a.wrapping_sub(src2 as u64));
        ControlFlow::Continue(())
    }

    /// Multiplies two 64-bit numbers, wrapping around.
    pub fn xmul64(&mut self, operands: BinaryOperands<XReg>) -> (r: ControlFlow<Done>)
        ensures
            r is Continue,
            ({
                let a = old(self)@.x_u64(operands.src1.spec_index());
                let b = old(self)@.x_u64(operands.src2.spec_index());
                final(self)@ == old(self)@.set_x_u64(operands.dst.spec_index(), a.wrapping_mul(b))
            }),
    {
        let a = self.x_u64(operands.src1);
        let b = self.x_u64(operands.src2);
        self.set_x_u64(operands.dst, a.wrapping_mul(b));
        ControlFlow::Continue(())
    }

    /// Multiplies a 64-bit number by a signed 32-bit constant, wrapping
    /// around.
    pub fn xmul64_s32(&mut self, dst: XReg, src1: XReg, src2: i32) -> (r: ControlFlow<Done>)
        ensures
            r is Continue,
            ({
                let a = old(self)@.x_i64(src1.spec_index());
                final(self)@ == old(self)@.set_x_i64(dst.spec_index(), a.wrapping_mul(src2 as i64))
            }),
    {
        let a = self.x_i64(src1);
        self.set_x_i64(dst, a.wrapping_mul(src2 as i64));
        ControlFlow::Continue(())
    }

    /// Multiplies a 64-bit number by a signed 8-bit constant, wrapping
    /// around.
    pub fn xmul64_s8(&mut self, dst: XReg, src1: XReg, src2: i8) -> (r: ControlFlow<Done>)
        ensures
            r is Continue,
            ({
                let a = old(self)@.x_i64(src1.spec_index());
                final(self)@ == old(self)@.set_x_i64(dst.spec_index(), a.wrapping_mul(src2 as i64))
            }),
    {
        let a = self.x_i64(src1);
        self.set_x_i64(dst, a.wrapping_mul(src2 as i64));
        ControlFlow::Continue(())
    }

    /// Shifts a 32-bit number left by the amount in `src2`, taken modulo
    /// 32.
    pub fn xshl32(&mut self, operands: BinaryOperands<XReg>) -> (r: ControlFlow<Done>)
        ensures
            r is Continue,
            ({
                let a = old(self)@.x_u32(operands.src1.spec_index());
                let b = old(self)@.x_u32(operands.src2.spec_index());
                final(self)@ == old(self)@.set_x_u32(operands.dst.spec_index(), a.wrapping_shl(b))
            }),
    {
        let a = self.x_u32(operands.src1);
        let b = self.x_u32(operands.src2);
        self.set_x_u32(operands.dst, a.wrapping_shl(b));
        ControlFlow::Continue(())
    }

    /// Shifts an unsigned 32-bit number right by the amount in `src2`,
    /// taken modulo 32.
    pub fn xshr32_u(&mut self, operands: BinaryOperands<XReg>) -> (r: ControlFlow<Done>)
        ensures
            r is Continue,
            ({
                let a = old(self)@.x_u32(operands.src1.spec_index());
                let b = old(self)@.x_u32(operands.src2.spec_index());
                final(self)@ == old(self)@.set_x_u32(operands.dst.spec_index(), a.wrapping_shr(b))
            }),
    {
        let a = self.x_u32(operands.src1);
        let b = self.x_u32(operands.src2);
        self.set_x_u32(operands.dst, a.wrapping_shr(b));
        ControlFlow::Continue(())
    }

    /// Shifts a signed 32-bit number right by the amount in `src2`, taken
    /// modulo 32; the sign fills in.
    pub fn xshr32_s(&mut self, operands: BinaryOperands<XReg>) -> (r: ControlFlow<Done>)
        ensures
            r is Continue,
            ({
                let a = old(self)@.x_i32(operands.src1.spec_index());
                let b = old(self)@.x_u32(operands.src2.spec_index());
                final(self)@ == old(self)@.set_x_i32(operands.dst.spec_index(), a.wrapping_shr(b))
            }),
    {
        let a = self.x_i32(operands.src1);
        let b = self.x_u32(operands.src2);
        self.set_x_i32(operands.dst, a.wrapping_shr(b));
        ControlFlow::Continue(())
    }

    /// Shifts a 64-bit number left by the amount in `src2`, taken modulo
    /// 64.
    pub fn xshl64(&mut self, operands: BinaryOperands<XReg>) -> (r: ControlFlow<Done>)
        ensures
            r is Continue,
            ({
                let a = old(self)@.x_u64(operands.src1.spec_index());
                let b = old(self)@.x_u32(operands.src2.spec_index());
                final(self)@ == old(self)@.set_x_u64(operands.dst.spec_index(), a.wrapping_shl(b))
            }),
    {
        let a = self.x_u64(operands.src1);
        let b = self.x_u32(operands.src2);
        self.set_x_u64(operands.dst, a.wrapping_shl(b));
        ControlFlow::Continue(())
    }

    /// Shifts an unsigned 64-bit number right by the amount in `src2`,
    /// taken modulo 64.
    pub fn xshr64_u(&mut self, operands: BinaryOperands<XReg>) -> (r: ControlFlow<Done>)
        ensures
            r is Continue,
            ({
                let a = old(self)@.x_u64(operands.src1.spec_index());
                let b = old(self)@.x_u32(operands.src2.spec_index());
                final(self)@ == old(self)@.set_x_u64(operands.dst.spec_index(), a.wrapping_shr(b))
            }),
    {
        let a = self.x_u64(operands.src1);
        let b = self.x_u32(operands.src2);
        self.set_x_u64(operands.dst, a.wrapping_shr(b));
        ControlFlow::Continue(())
    }

    /// Shifts a signed 64-bit number right by the amount in `src2`, taken
    /// modulo 64; the sign fills in.
    pub fn xshr64_s(&mut self, operands: BinaryOperands<XReg>) -> (r: ControlFlow<Done>)
        ensures
            r is Continue,
            ({
                let a = old(self)@.x_i64(operands.src1.spec_index());
                let b = old(self)@.x_u32(operands.src2.spec_index());
                final(self)@ == old(self)@.set_x_i64(operands.dst.spec_index(), a.wrapping_shr(b))
            }),
    {
        let a = self.x_i64(operands.src1);
        let b = self.x_u32(operands.src2);
        self.set_x_i64(operands.dst, a.wrapping_shr(b));
        ControlFlow::Continue(())
    }

    /// Shifts a 32-bit number left by a constant, taken modulo 32.
    pub fn xshl32_u6(&mut self, operands: BinaryOperands<XReg, XReg, U6>) -> (r: ControlFlow<Done>)
        ensures
            r is Continue,
            ({
                let a = old(self)@.x_u32(operands.src1.spec_index());
                final(self)@ == old(self)@.set_x_u32(
                    operands.dst.spec_index(),
                    a.wrapping_shl(operands.src2.spec_value() as u32),
                )
            }),
    {
        let a = self.x_u32(operands.src1);
        let b = operands.src2.value() as u32;
        self.set_x_u32(operands.dst, a.wrapping_shl(b));
        ControlFlow::Continue(())
    }

    /// Shifts an unsigned 32-bit number right by a constant, taken modulo
    /// 32.
    pub fn xshr32_u_u6(
        &mut self,
        operands: BinaryOperands<XReg, XReg, U6>,
    ) -> (r: ControlFlow<Done>)
        ensures
            r is Continue,
            ({
                let a = old(self)@.x_u32(operands.src1.spec_index());
                final(self)@ == old(self)@.set_x_u32(
                    operands.dst.spec_index(),
                    a.wrapping_shr(operands.src2.spec_value() as u32),
                )
            }),
    {
        let a = self.x_u32(operands.src1);
        let b = operands.src2.value() as u32;
        self.set_x_u32(operands.dst, a.wrapping_shr(b));
        ControlFlow::Continue(())
    }

    /// Shifts a signed 32-bit number right by a constant, taken modulo
    /// 32; the sign fills in.
    pub fn xshr32_s_u6(
        &mut self,
        operands: BinaryOperands<XReg, XReg, U6>,
    ) -> (r: ControlFlow<Done>)
        ensures
            r is Continue,
            ({
                let a = old(self)@.x_i32(operands.src1.spec_index());
                final(self)@ == old(self)@.set_x_i32(
                    operands.dst.spec_index(),
                    a.wrapping_shr(operands.src2.spec_value() as u32),
                )
            }),
    {
        let a = self.x_i32(operands.src1);
        let b = operands.src2.value() as u32;
        self.set_x_i32(operands.dst, a.wrapping_shr(b));
        ControlFlow::Continue(())
    }

    /// Shifts a 64-bit number left by a constant, taken modulo 64.
    pub fn xshl64_u6(&mut self, operands: BinaryOperands<XReg, XReg, U6>) -> (r: ControlFlow<Done>)
        ensures
            r is Continue,
            ({
                let a = old(self)@.x_u64(operands.src1.spec_index());
                final(self)@ == old(self)@.set_x_u64(
                    operands.dst.spec_index(),
                    a.wrapping_shl(operands.src2.spec_value() as u32),
                )
            }),
    {
        let a = self.x_u64(operands.src1);
        let b = operands.src2.value() as u32;
        self.set_x_u64(operands.dst, a.wrapping_shl(b));
        ControlFlow::Continue(())
    }

    /// Shifts an unsigned 64-bit number right by a constant, taken modulo
    /// 64.
    pub fn xshr64_u_u6(
        &mut self,
        operands: BinaryOperands<XReg, XReg, U6>,
    ) -> (r: ControlFlow<Done>)
        ensures
            r is Continue,
            ({
                let a = old(self)@.x_u64(operands.src1.spec_index());
                final(self)@ == old(self)@.set_x_u64(
                    operands.dst.spec_index(),
                    a.wrapping_shr(operands.src2.spec_value() as u32),
                )
            }),
    {
        let a = self.x_u64(operands.src1);
        let b = operands.src2.value() as u32;
        self.set_x_u64(operands.dst, a.wrapping_shr(b));
        ControlFlow::Continue(())
    }

    /// Shifts a signed 64-bit number right by a constant, taken modulo
    /// 64; the sign fills in.
    pub fn xshr64_s_u6(
        &mut self,
        operands: BinaryOperands<XReg, XReg, U6>,
    ) -> (r: ControlFlow<Done>)
        ensures
            r is Continue,
            ({
                let a = old(self)@.x_i64(operands.src1.spec_index());
                final(self)@ == old(self)@.set_x_i64(
                    operands.dst.spec_index(),
                    a.wrapping_shr(operands.src2.spec_value() as u32),
                )
            }),
    {
        let a = self.x_i64(operands.src1);
        let b = operands.src2.value() as u32;
        self.set_x_i64(operands.dst, a.wrapping_shr(b));
        ControlFlow::Continue(())
    }

    /// Negates a 32-bit number, wrapping around.
    pub fn xneg32(&mut self, dst: XReg, src: XReg) -> (r: ControlFlow<Done>)
        ensures
            r is Continue,
            ({
                let a = old(self)@.x_i32(src.spec_index());
                final(self)@ == old(self)@.set_x_i32(dst.spec_index(), 0i32.wrapping_sub(a))
            }),
    {
        let a = self.x_i32(src);
        self.set_x_i32(dst, 0i32.wrapping_sub(a));
        ControlFlow::Continue(())
    }

    /// Negates a 64-bit number, wrapping around.
    pub fn xneg64(&mut self, dst: XReg, src: XReg) -> (r: ControlFlow<Done>)
        ensures
            r is Continue,
            ({
                let a = old(self)@.x_i64(src.spec_index());
                final(self)@ == old(self)@.set_x_i64(dst.spec_index(), 0i64.wrapping_sub(a))
            }),
    {
        let a = self.x_i64(src);
        self.set_x_i64(dst, 0i64.wrapping_sub(a));
        ControlFlow::Continue(())
    }

    /// Sets the lower half of `dst` to 1 if the two 64-bit numbers are
    /// equal, else to 0.
    pub fn xeq64(&mut self, operands: BinaryOperands<XReg>) -> (r: ControlFlow<Done>)
        ensures
            r is Continue,
            ({
                let a = old(self)@.x_u64(operands.src1.spec_index());
                let b = old(self)@.x_u64(operands.src2.spec_index());
                final(self)@ == old(self)@.set_x_u32(
                    operands.dst.spec_index(),
                    if a == b { 1u32 } else { 0u32 },
                )
            }),
    {
        let a = self.x_u64(operands.src1);
        let b = self.x_u64(operands.src2);
        self.set_x_u32(operands.dst, if a == b { 1u32 } else { 0u32 });
        ControlFlow::Continue(())
    }

    /// Sets the lower half of `dst` to 1 if the two 64-bit numbers
    /// differ, else to 0.
    pub fn xneq64(&mut self, operands: BinaryOperands<XReg>) -> (r: ControlFlow<Done>)
        ensures
            r is Continue,
            ({
                let a = old(self)@.x_u64(operands.src1.spec_index());
                let b = old(self)@.x_u64(operands.src2.spec_index());
                final(self)@ == old(self)@.set_x_u32(
                    operands.dst.spec_index(),
                    if a != b { 1u32 } else { 0u32 },
                )
            }),
    {
        let a = self.x_u64(operands.src1);
        let b = self.x_u64(operands.src2);
        self.set_x_u32(operands.dst, if a != b { 1u32 } else { 0u32 });
        ControlFlow::Continue(())
    }

    /// Sets the lower half of `dst` to 1 if the two 64-bit numbers are in
    /// strictly increasing order as signed numbers, else to 0.
    pub fn xslt64(&mut self, operands: BinaryOperands<XReg>) -> (r: ControlFlow<Done>)
        ensures
            r is Continue,
            ({
                let a = old(self)@.x_i64(operands.src1.spec_index());
                let b = old(self)@.x_i64(operands.src2.spec_index());
                final(self)@ == old(self)@.set_x_u32(
                    operands.dst.spec_index(),
                    if a < b { 1u32 } else { 0u32 },
                )
            }),
    {
        let a = self.x_i64(operands.src1);
        let b = self.x_i64(operands.src2);
        self.set_x_u32(operands.dst, if a < b { 1u32 } else { 0u32 });
        ControlFlow::Continue(())
    }

    /// Sets the lower half of `dst` to 1 if the two 64-bit numbers are in
    /// increasing order as signed numbers, else to 0.
    pub fn xslteq64(&mut self, operands: BinaryOperands<XReg>) -> (r: ControlFlow<Done>)
        ensures
            r is Continue,
            ({
                let a = old(self)@.x_i64(operands.src1.spec_index());
                let b = old(self)@.x_i64(operands.src2.spec_index());
                final(self)@ == old(self)@.set_x_u32(
                    operands.dst.spec_index(),
                    if a <= b { 1u32 } else { 0u32 },
                )
            }),
    {
        let a = self.x_i64(operands.src1);
        let b = self.x_i64(operands.src2);
        self.set_x_u32(operands.dst, if a <= b { 1u32 } else { 0u32 });
        ControlFlow::Continue(())
    }

    /// Sets the lower half of `dst` to 1 if the two 64-bit numbers are in
    /// strictly increasing order as unsigned numbers, else to 0.
    pub fn xult64(&mut self, operands: BinaryOperands<XReg>) -> (r: ControlFlow<Done>)
        ensures
            r is Continue,
            ({
                let a = old(self)@.x_u64(operands.src1.spec_index());
                let b = old(self)@.x_u64(operands.src2.spec_index());
                final(self)@ == old(self)@.set_x_u32(
                    operands.dst.spec_index(),
                    if a < b { 1u32 } else { 0u32 },
                )
            }),
    {
        let a = self.x_u64(operands.src1);
        let b = self.x_u64(operands.src2);
        self.set_x_u32(operands.dst, if a < b { 1u32 } else { 0u32 });
        ControlFlow::Continue(())
    }

    /// Sets the lower half of `dst` to 1 if the two 64-bit numbers are in
    /// increasing order as unsigned numbers, else to 0.
    pub fn xulteq64(&mut self, operands: BinaryOperands<XReg>) -> (r: ControlFlow<Done>)
        ensures
            r is Continue,
            ({
                let a = old(self)@.x_u64(operands.src1.spec_index());
                let b = old(self)@.x_u64(operands.src2.spec_index());
                final(self)@ == old(self)@.set_x_u32(
                    operands.dst.spec_index(),
                    if a <= b { 1u32 } else { 0u32 },
                )
            }),
    {
        let a = self.x_u64(operands.src1);
        let b = self.x_u64(operands.src2);
        self.set_x_u32(operands.dst, if a <= b { 1u32 } else { 0u32 });
        ControlFlow::Continue(())
    }

    /// Sets the lower half of `dst` to 1 if the two 32-bit numbers are
    /// equal, else to 0.
    pub fn xeq32(&mut self, operands: BinaryOperands<XReg>) -> (r: ControlFlow<Done>)
        ensures
            r is Continue,
            ({
                let a = old(self)@.x_u32(operands.src1.spec_index());
                let b = old(self)@.x_u32(operands.src2.spec_index());
                final(self)@ == old(self)@.set_x_u32(
                    operands.dst.spec_index(),
                    if a == b { 1u32 } else { 0u32 },
                )
            }),
    {
        let a = self.x_u32(operands.src1);
        let b = self.x_u32(operands.src2);
        self.set_x_u32(operands.dst, if a == b { 1u32 } else { 0u32 });
        ControlFlow::Continue(())
    }

    /// Sets the lower half of `dst` to 1 if the two 32-bit numbers
    /// differ, else to 0.
    pub fn xneq32(&mut self, operands: BinaryOperands<XReg>) -> (r: ControlFlow<Done>)
        ensures
            r is Continue,
            ({
                let a = old(self)@.x_u32(operands.src1.spec_index());
                let b = old(self)@.x_u32(operands.src2.spec_index());
                final(self)@ == old(self)@.set_x_u32(
                    operands.dst.spec_index(),
                    if a != b { 1u32 } else { 0u32 },
                )
            }),
    {
        let a = self.x_u32(operands.src1);
        let b = self.x_u32(operands.src2);
        self.set_x_u32(operands.dst, if a != b { 1u32 } else { 0u32 });
        ControlFlow::Continue(())
    }

    /// Sets the lower half of `dst` to 1 if the two 32-bit numbers are in
    /// strictly increasing order as signed numbers, else to 0.
    pub fn xslt32(&mut self, operands: BinaryOperands<XReg>) -> (r: ControlFlow<Done>)
        ensures
            r is Continue,
            ({
                let a = old(self)@.x_i32(operands.src1.spec_index());
                let b = old(self)@.x_i32(operands.src2.spec_index());
                final(self)@ == old(self)@.set_x_u32(
                    operands.dst.spec_index(),
                    if a < b { 1u32 } else { 0u32 },
                )
            }),
    {
        let a = self.x_i32(operands.src1);
        let b = self.x_i32(operands.src2);
        self.set_x_u32(operands.dst, if a < b { 1u32 } else { 0u32 });
        ControlFlow::Continue(())
    }

    /// Sets the lower half of `dst` to 1 if the two 32-bit numbers are in
    /// increasing order as signed numbers, else to 0.
    pub fn xslteq32(&mut self, operands: BinaryOperands<XReg>) -> (r: ControlFlow<Done>)
        ensures
            r is Continue,
            ({
                let a = old(self)@.x_i32(operands.src1.spec_index());
                let b = old(self)@.x_i32(operands.src2.spec_index());
                final(self)@ == old(self)@.set_x_u32(
                    operands.dst.spec_index(),
                    if a <= b { 1u32 } else { 0u32 },
                )
            }),
    {
        let a = self.x_i32(operands.src1);
        let b = self.x_i32(operands.src2);
        self.set_x_u32(operands.dst, if a <= b { 1u32 } else { 0u32 });
        ControlFlow::Continue(())
    }

    /// Sets the lower half of `dst` to 1 if the two 32-bit numbers are in
    /// strictly increasing order as unsigned numbers, else to 0.
    pub fn xult32(&mut self, operands: BinaryOperands<XReg>) -> (r: ControlFlow<Done>)
        ensures
            r is Continue,
            ({
                let a = old(self)@.x_u32(operands.src1.spec_index());
                let b = old(self)@.x_u32(operands.src2.spec_index());
                final(self)@ == old(self)@.set_x_u32(
                    operands.dst.spec_index(),
                    if a < b { 1u32 } else { 0u32 },
                )
            }),
    {
        let a = self.x_u32(operands.src1);
        let b = self.x_u32(operands.src2);
        self.set_x_u32(operands.dst, if a < b { 1u32 } else { 0u32 });
        ControlFlow::Continue(())
    }

    /// Sets the lower half of `dst` to 1 if the two 32-bit numbers are in
    /// increasing order as unsigned numbers, else to 0.
    pub fn xulteq32(&mut self, operands: BinaryOperands<XReg>) -> (r: ControlFlow<Done>)
        ensures
            r is Continue,
            ({
                let a = old(self)@.x_u32(operands.src1.spec_index());
                let b = old(self)@.x_u32(operands.src2.spec_index());
                final(self)@ == old(self)@.set_x_u32(
                    operands.dst.spec_index(),
                    if a <= b { 1u32 } else { 0u32 },
                )
            }),
    {
        let a = self.x_u32(operands.src1);
        let b = self.x_u32(operands.src2);
        self.set_x_u32(operands.dst, if a <= b { 1u32 } else { 0u32 });
        ControlFlow::Continue(())
    }

    /// Zero-extends the low 8 bits of `src` to 64 bits.
    pub fn zext8(&mut self, dst: XReg, src: XReg) -> (r: ControlFlow<Done>)
        ensures
            r is Continue,
            final(self)@ == old(self)@.set_x_u64(
                dst.spec_index(),
                (old(self)@.x_u64(src.spec_index()) as u8) as u64,
            ),
    {
        let low = #[verifier::truncate]
        (self.x_u64(src) as u8);
        self.set_x_u64(dst, low as u64);
        ControlFlow::Continue(())
    }

    /// Zero-extends the low 16 bits of `src` to 64 bits.
    pub fn zext16(&mut self, dst: XReg, src: XReg) -> (r: ControlFlow<Done>)
        ensures
            r is Continue,
            final(self)@ == old(self)@.set_x_u64(
                dst.spec_index(),
                (old(self)@.x_u64(src.spec_index()) as u16) as u64,
            ),
    {
        let low = #[verifier::truncate]
        (self.x_u64(src) as u16);
        self.set_x_u64(dst, low as u64);
        ControlFlow::Continue(())
    }

    /// Zero-extends the low 32 bits of `src` to 64 bits.
    pub fn zext32(&mut self, dst: XReg, src: XReg) -> (r: ControlFlow<Done>)
        ensures
            r is Continue,
            final(self)@ == old(self)@.set_x_u64(
                dst.spec_index(),
                (old(self)@.x_u64(src.spec_index()) as u32) as u64,
            ),
    {
        let low = #[verifier::truncate]
        (self.x_u64(src) as u32);
        self.set_x_u64(dst, low as u64);
        ControlFlow::Continue(())
    }

    /// Sign-extends the low 8 bits of `src` to 64 bits.
    pub fn sext8(&mut self, dst: XReg, src: XReg) -> (r: ControlFlow<Done>)
        ensures
            r is Continue,
            final(self)@ == old(self)@.set_x_i64(
                dst.spec_index(),
                (old(self)@.x_i64(src.spec_index()) as i8) as i64,
            ),
    {
        let low = #[verifier::truncate]
        (self.x_i64(src) as i8);
        self.set_x_i64(dst, low as i64);
        ControlFlow::Continue(())
    }

    /// Sign-extends the low 16 bits of `src` to 64 bits.
    pub fn sext16(&mut self, dst: XReg, src: XReg) -> (r: ControlFlow<Done>)
        ensures
            r is Continue,
            final(self)@ == old(self)@.set_x_i64(
                dst.spec_index(),
                (old(self)@.x_i64(src.spec_index()) as i16) as i64,
            ),
    {
        let low = #[verifier::truncate]
        (self.x_i64(src) as i16);
        self.set_x_i64(dst, low as i64);
        ControlFlow::Continue(())
    }

    /// Sign-extends the low 32 bits of `src` to 64 bits.
    pub fn sext32(&mut self, dst: XReg, src: XReg) -> (r: ControlFlow<Done>)
        ensures
            r is Continue,
            final(self)@ == old(self)@.set_x_i64(
                dst.spec_index(),
                (old(self)@.x_i64(src.spec_index()) as i32) as i64,
            ),
    {
        let low = #[verifier::truncate]
        (self.x_i64(src) as i32);
        self.set_x_i64(dst, low as i64);
        ControlFlow::Continue(())
    }

    /// The bitwise and of two 32-bit numbers.
    pub fn xband32(&mut self, operands: BinaryOperands<XReg>) -> (r: ControlFlow<Done>)
        ensures
            r is Continue,
            ({
                let a = old(self)@.x_u32(operands.src1.spec_index());
                let b = old(self)@.x_u32(operands.src2.spec_index());
                final(self)@ == old(self)@.set_x_u32(operands.dst.spec_index(), a & b)
            }),
    {
        let a = self.x_u32(operands.src1);
        let b = self.x_u32(operands.src2);
        self.set_x_u32(operands.dst, a & b);
        ControlFlow::Continue(())
    }

    /// The bitwise and of a 32-bit number and a sign-extended 32-bit
    /// constant.
    pub fn xband32_s32(&mut self, dst: XReg, src1: XReg, src2: i32) -> (r: ControlFlow<Done>)
        ensures
            r is Continue,
            ({
                let a = old(self)@.x_i32(src1.spec_index());
                final(self)@ == old(self)@.set_x_i32(dst.spec_index(), a & src2)
            }),
    {
        let a = self.x_i32(src1);
        self.set_x_i32(dst, a & src2);
        ControlFlow::Continue(())
    }

    /// The bitwise and of a 32-bit number and a sign-extended 8-bit
    /// constant.
    pub fn xband32_s8(&mut self, dst: XReg, src1: XReg, src2: i8) -> (r: ControlFlow<Done>)
        ensures
            r is Continue,
            ({
                let a = old(self)@.x_i32(src1.spec_index());
                final(self)@ == old(self)@.set_x_i32(dst.spec_index(), a & (src2 as i32))
            }),
    {
        let a = self.x_i32(src1);
        self.set_x_i32(dst, a & (src2 as i32));
        ControlFlow::Continue(())
    }

    /// The bitwise and of two 64-bit numbers.
    pub fn xband64(&mut self, operands: BinaryOperands<XReg>) -> (r: ControlFlow<Done>)
        ensures
            r is Continue,
            ({
                let a = old(self)@.x_u64(operands.src1.spec_index());
                let b = old(self)@.x_u64(operands.src2.spec_index());
                final(self)@ == old(self)@.set_x_u64(operands.dst.spec_index(), a & b)
            }),
    {
        let a = self.x_u64(operands.src1);
        let b = self.x_u64(operands.src2);
        self.set_x_u64(operands.dst, a & b);
        ControlFlow::Continue(())
    }

    /// The bitwise and of a 64-bit number and a sign-extended 32-bit
    /// constant.
    pub fn xband64_s32(&mut self, dst: XReg, src1: XReg, src2: i32) -> (r: ControlFlow<Done>)
        ensures
            r is Continue,
            ({
                let a = old(self)@.x_i64(src1.spec_index());
                final(self)@ == old(self)@.set_x_i64(dst.spec_index(), a & (src2 as i64))
            }),
    {
        let a = self.x_i64(src1);
        self.set_x_i64(dst, a & (src2 as i64));
        ControlFlow::Continue(())
    }

    /// The bitwise and of a 64-bit number and a sign-extended 8-bit
    /// constant.
    pub fn xband64_s8(&mut self, dst: XReg, src1: XReg, src2: i8) -> (r: ControlFlow<Done>)
        ensures
            r is Continue,
            ({
                let a = old(self)@.x_i64(src1.spec_index());
                final(self)@ == old(self)@.set_x_i64(dst.spec_index(), a & (src2 as i64))
            }),
    {
        let a = self.x_i64(src1);
        self.set_x_i64(dst, a & (src2 as i64));
        ControlFlow::Continue(())
    }

    /// The bitwise or of two 32-bit numbers.
    pub fn xbor32(&mut self, operands: BinaryOperands<XReg>) -> (r: ControlFlow<Done>)
        ensures
            r is Continue,
            ({
                let a = old(self)@.x_u32(operands.src1.spec_index());
                let b = old(self)@.x_u32(operands.src2.spec_index());
                final(self)@ == old(self)@.set_x_u32(operands.dst.spec_index(), a | b)
            }),
    {
        let a = self.x_u32(operands.src1);
        let b = self.x_u32(operands.src2);
        self.set_x_u32(operands.dst, a | b);
        ControlFlow::Continue(())
    }

    /// The bitwise or of a 32-bit number and a sign-extended 32-bit
    /// constant.
    pub fn xbor32_s32(&mut self, dst: XReg, src1: XReg, src2: i32) -> (r: ControlFlow<Done>)
        ensures
            r is Continue,
            ({
                let a = old(self)@.x_i32(src1.spec_index());
                final(self)@ == old(self)@.set_x_i32(dst.spec_index(), a | src2)
            }),
    {
        let a = self.x_i32(src1);
        self.set_x_i32(dst, a | src2);
        ControlFlow::Continue(())
    }

    /// The bitwise or of a 32-bit number and a sign-extended 8-bit
    /// constant.
    pub fn xbor32_s8(&mut self, dst: XReg, src1: XReg, src2: i8) -> (r: ControlFlow<Done>)
        ensures
            r is Continue,
            ({
                let a = old(self)@.x_i32(src1.spec_index());
                final(self)@ == old(self)@.set_x_i32(dst.spec_index(), a | (src2 as i32))
            }),
    {
        let a = self.x_i32(src1);
        self.set_x_i32(dst, a | (src2 as i32));
        ControlFlow::Continue(())
    }

    /// The bitwise or of two 64-bit numbers.
    pub fn xbor64(&mut self, operands: BinaryOperands<XReg>) -> (r: ControlFlow<Done>)
        ensures
            r is Continue,
            ({
                let a = old(self)@.x_u64(operands.src1.spec_index());
                let b = old(self)@.x_u64(operands.src2.spec_index());
                final(self)@ == old(self)@.set_x_u64(operands.dst.spec_index(), a | b)
            }),
    {
        let a = self.x_u64(operands.src1);
        let b = self.x_u64(operands.src2);
        self.set_x_u64(operands.dst, a | b);
        ControlFlow::Continue(())
    }

    /// The bitwise or of a 64-bit number and a sign-extended 32-bit
    /// constant.
    pub fn xbor64_s32(&mut self, dst: XReg, src1: XReg, src2: i32) -> (r: ControlFlow<Done>)
        ensures
            r is Continue,
            ({
                let a = old(self)@.x_i64(src1.spec_index());
                final(self)@ == old(self)@.set_x_i64(dst.spec_index(), a | (src2 as i64))
            }),
    {
        let a = self.x_i64(src1);
        self.set_x_i64(dst, a | (src2 as i64));
        ControlFlow::Continue(())
    }

    /// The bitwise or of a 64-bit number and a sign-extended 8-bit
    /// constant.
    pub fn xbor64_s8(&mut self, dst: XReg, src1: XReg, src2: i8) -> (r: ControlFlow<Done>)
        ensures
            r is Continue,
            ({
                let a = old(self)@.x_i64(src1.spec_index());
                final(self)@ == old(self)@.set_x_i64(dst.spec_index(), a | (src2 as i64))
            }),
    {
        let a = self.x_i64(src1);
        self.set_x_i64(dst, a | (src2 as i64));
        ControlFlow::Continue(())
    }

    /// The bitwise exclusive or of two 32-bit numbers.
    pub fn xbxor32(&mut self, operands: BinaryOperands<XReg>) -> (r: ControlFlow<Done>)
        ensures
            r is Continue,
            ({
                let a = old(self)@.x_u32(operands.src1.spec_index());
                let b = old(self)@.x_u32(operands.src2.spec_index());
                final(self)@ == old(self)@.set_x_u32(operands.dst.spec_index(), a ^ b)
            }),
    {
        let a = self.x_u32(operands.src1);
        let b = self.x_u32(operands.src2);
        self.set_x_u32(operands.dst, a ^ b);
        ControlFlow::Continue(())
    }

    /// The bitwise exclusive or of a 32-bit number and a sign-extended
    /// 32-bit constant.
    pub fn xbxor32_s32(&mut self, dst: XReg, src1: XReg, src2: i32) -> (r: ControlFlow<Done>)
        ensures
            r is Continue,
            ({
                let a = old(self)@.x_i32(src1.spec_index());
                final(self)@ == old(self)@.set_x_i32(dst.spec_index(), a ^ src2)
            }),
    {
        let a = self.x_i32(src1);
        self.set_x_i32(dst, a ^ src2);
        ControlFlow::Continue(())
    }

    /// The bitwise exclusive or of a 32-bit number and a sign-extended
    /// 8-bit constant.
    pub fn xbxor32_s8(&mut self, dst: XReg, src1: XReg, src2: i8) -> (r: ControlFlow<Done>)
        ensures
            r is Continue,
            ({
                let a = old(self)@.x_i32(src1.spec_index());
                final(self)@ == old(self)@.set_x_i32(dst.spec_index(), a ^ (src2 as i32))
            }),
    {
        let a = self.x_i32(src1);
        self.set_x_i32(dst, a ^ (src2 as i32));
        ControlFlow::Continue(())
    }

    /// The bitwise exclusive or of two 64-bit numbers.
    pub fn xbxor64(&mut self, operands: BinaryOperands<XReg>) -> (r: ControlFlow<Done>)
        ensures
            r is Continue,
            ({
                let a = old(self)@.x_u64(operands.src1.spec_index());
                let b = old(self)@.x_u64(operands.src2.spec_index());
                final(self)@ == old(self)@.set_x_u64(operands.dst.spec_index(), a ^ b)
            }),
    {
        let a = self.x_u64(operands.src1);
        let b = self.x_u64(operands.src2);
        self.set_x_u64(operands.dst, a ^ b);
        ControlFlow::Continue(())
    }

    /// The bitwise exclusive or of a 64-bit number and a sign-extended
    /// 32-bit constant.
    pub fn xbxor64_s32(&mut self, dst: XReg, src1: XReg, src2: i32) -> (r: ControlFlow<Done>)
        ensures
            r is Continue,
            ({
                let a = old(self)@.x_i64(src1.spec_index());
                final(self)@ == old(self)@.set_x_i64(dst.spec_index(), a ^ (src2 as i64))
            }),
    {
        let a = self.x_i64(src1);
        self.set_x_i64(dst, a ^ (src2 as i64));
        ControlFlow::Continue(())
    }

    /// The bitwise exclusive or of a 64-bit number and a sign-extended
    /// 8-bit constant.
    pub fn xbxor64_s8(&mut self, dst: XReg, src1: XReg, src2: i8) -> (r: ControlFlow<Done>)
        ensures
            r is Continue,
            ({
                let a = old(self)@.x_i64(src1.spec_index());
                final(self)@ == old(self)@.set_x_i64(dst.spec_index(), a ^ (src2 as i64))
            }),
    {
        let a = self.x_i64(src1);
        self.set_x_i64(dst, a ^ (src2 as i64));
        ControlFlow::Continue(())
    }

    /// The bitwise complement of a 32-bit number.
    pub fn xbnot32(&mut self, dst: XReg, src: XReg) -> (r: ControlFlow<Done>)
        ensures
            r is Continue,
            ({
                let a = old(self)@.x_u32(src.spec_index());
                final(self)@ == old(self)@.set_x_u32(dst.spec_index(), !a)
            }),
    {
        let a = self.x_u32(src);
        self.set_x_u32(dst, !a);
        ControlFlow::Continue(())
    }

    /// The bitwise complement of a 64-bit number.
    pub fn xbnot64(&mut self, dst: XReg, src: XReg) -> (r: ControlFlow<Done>)
        ensures
            r is Continue,
            ({
                let a = old(self)@.x_u64(src.spec_index());
                final(self)@ == old(self)@.set_x_u64(dst.spec_index(), !a)
            }),
    {
        let a = self.x_u64(src);
        self.set_x_u64(dst, !a);
        ControlFlow::Continue(())
    }

    /// The lesser of two unsigned 32-bit numbers.
    pub fn xmin32_u(&mut self, operands: BinaryOperands<XReg>) -> (r: ControlFlow<Done>)
        ensures
            r is Continue,
            ({
                let a = old(self)@.x_u32(operands.src1.spec_index());
                let b = old(self)@.x_u32(operands.src2.spec_index());
                final(self)@ == old(self)@.set_x_u32(
                    operands.dst.spec_index(),
                    if a < b { a } else { b },
                )
            }),
    {
        let a = self.x_u32(operands.src1);
        let b = self.x_u32(operands.src2);
        self.set_x_u32(operands.dst, if a < b { a } else { b });
        ControlFlow::Continue(())
    }

    /// The greater of two unsigned 32-bit numbers.
    pub fn xmax32_u(&mut self, operands: BinaryOperands<XReg>) -> (r: ControlFlow<Done>)
        ensures
            r is Continue,
            ({
                let a = old(self)@.x_u32(operands.src1.spec_index());
                let b = old(self)@.x_u32(operands.src2.spec_index());
                final(self)@ == old(self)@.set_x_u32(
                    operands.dst.spec_index(),
                    if a > b { a } else { b },
                )
            }),
    {
        let a = self.x_u32(operands.src1);
        let b = self.x_u32(operands.src2);
        self.set_x_u32(operands.dst, if a > b { a } else { b });
        ControlFlow::Continue(())
    }

    /// The lesser of two signed 32-bit numbers.
    pub fn xmin32_s(&mut self, operands: BinaryOperands<XReg>) -> (r: ControlFlow<Done>)
        ensures
            r is Continue,
            ({
                let a = old(self)@.x_i32(operands.src1.spec_index());
                let b = old(self)@.x_i32(operands.src2.spec_index());
                final(self)@ == old(self)@.set_x_i32(
                    operands.dst.spec_index(),
                    if a < b { a } else { b },
                )
            }),
    {
        let a = self.x_i32(operands.src1);
        let b = self.x_i32(operands.src2);
        self.set_x_i32(operands.dst, if a < b { a } else { b });
        ControlFlow::Continue(())
    }

    /// The greater of two signed 32-bit numbers.
    pub fn xmax32_s(&mut self, operands: BinaryOperands<XReg>) -> (r: ControlFlow<Done>)
        ensures
            r is Continue,
            ({
                let a = old(self)@.x_i32(operands.src1.spec_index());
                let b = old(self)@.x_i32(operands.src2.spec_index());
                final(self)@ == old(self)@.set_x_i32(
                    operands.dst.spec_index(),
                    if a > b { a } else { b },
                )
            }),
    {
        let a = self.x_i32(operands.src1);
        let b = self.x_i32(operands.src2);
        self.set_x_i32(operands.dst, if a > b { a } else { b });
        ControlFlow::Continue(())
    }

    /// The lesser of two unsigned 64-bit numbers.
    pub fn xmin64_u(&mut self, operands: BinaryOperands<XReg>) -> (r: ControlFlow<Done>)
        ensures
            r is Continue,
            ({
                let a = old(self)@.x_u64(operands.src1.spec_index());
                let b = old(self)@.x_u64(operands.src2.spec_index());
                final(self)@ == old(self)@.set_x_u64(
                    operands.dst.spec_index(),
                    if a < b { a } else { b },
                )
            }),
    {
        let a = self.x_u64(operands.src1);
        let b = self.x_u64(operands.src2);
        self.set_x_u64(operands.dst, if a < b { a } else { b });
        ControlFlow::Continue(())
    }

    /// The greater of two unsigned 64-bit numbers.
    pub fn xmax64_u(&mut self, operands: BinaryOperands<XReg>) -> (r: ControlFlow<Done>)
        ensures
            r is Continue,
            ({
                let a = old(self)@.x_u64(operands.src1.spec_index());
                let b = old(self)@.x_u64(operands.src2.spec_index());
                final(self)@ == old(self)@.set_x_u64(
                    operands.dst.spec_index(),
                    if a > b { a } else { b },
                )
            }),
    {
        let a = self.x_u64(operands.src1);
        let b = self.x_u64(operands.src2);
        self.set_x_u64(operands.dst, if a > b { a } else { b });
        ControlFlow::Continue(())
    }

    /// The lesser of two signed 64-bit numbers.
    pub fn xmin64_s(&mut self, operands: BinaryOperands<XReg>) -> (r: ControlFlow<Done>)
        ensures
            r is Continue,
            ({
                let a = old(self)@.x_i64(operands.src1.spec_index());
                let b = old(self)@.x_i64(operands.src2.spec_index());
                final(self)@ == old(self)@.set_x_i64(
                    operands.dst.spec_index(),
                    if a < b { a } else { b },
                )
            }),
    {
        let a = self.x_i64(operands.src1);
        let b = self.x_i64(operands.src2);
        self.set_x_i64(operands.dst, if a < b { a } else { b });
        ControlFlow::Continue(())
    }

    /// The greater of two signed 64-bit numbers.
    pub fn xmax64_s(&mut self, operands: BinaryOperands<XReg>) -> (r: ControlFlow<Done>)
        ensures
            r is Continue,
            ({
                let a = old(self)@.x_i64(operands.src1.spec_index());
                let b = old(self)@.x_i64(operands.src2.spec_index());
                final(self)@ == old(self)@.set_x_i64(
                    operands.dst.spec_index(),
                    if a > b { a } else { b },
                )
            }),
    {
        let a = self.x_i64(operands.src1);
        let b = self.x_i64(operands.src2);
        self.set_x_i64(operands.dst, if a > b { a } else { b });
        ControlFlow::Continue(())
    }

    /// Counts the zero bits below the lowest one bit of a 32-bit number;
    /// 32 for zero.
    pub fn xctz32(&mut self, dst: XReg, src: XReg) -> (r: ControlFlow<Done>)
        ensures
            r is Continue,
            ({
                let a = old(self)@.x_u32(src.spec_index());
                final(self)@ == old(self)@.set_x_u32(
                    dst.spec_index(),
                    vstd::std_specs::bits::u32_trailing_zeros(a),
                )
            }),
    {
        let a = self.x_u32(src);
        self.set_x_u32(dst, a.trailing_zeros());
        ControlFlow::Continue(())
    }

    /// Counts the zero bits below the lowest one bit of a 64-bit number;
    /// 64 for zero.
    pub fn xctz64(&mut self, dst: XReg, src: XReg) -> (r: ControlFlow<Done>)
        ensures
            r is Continue,
            ({
                let a = old(self)@.x_u64(src.spec_index());
                final(self)@ == old(self)@.set_x_u64(
                    dst.spec_index(),
                    vstd::std_specs::bits::u64_trailing_zeros(a) as u64,
                )
            }),
    {
        let a = self.x_u64(src);
        self.set_x_u64(dst, a.trailing_zeros() as u64);
        ControlFlow::Continue(())
    }

    /// Counts the zero bits above the highest one bit of a 32-bit number;
    /// 32 for zero.
    pub fn xclz32(&mut self, dst: XReg, src: XReg) -> (r: ControlFlow<Done>)
        ensures
            r is Continue,
            ({
                let a = old(self)@.x_u32(src.spec_index());
                final(self)@ == old(self)@.set_x_u32(
                    dst.spec_index(),
                    vstd::std_specs::bits::u32_leading_zeros(a),
                )
            }),
    {
        let a = self.x_u32(src);
        self.set_x_u32(dst, a.leading_zeros());
        ControlFlow::Continue(())
    }

    /// Counts the zero bits above the highest one bit of a 64-bit number;
    /// 64 for zero.
    pub fn xclz64(&mut self, dst: XReg, src: XReg) -> (r: ControlFlow<Done>)
        ensures
            r is Continue,
            ({
                let a = old(self)@.x_u64(src.spec_index());
                final(self)@ == old(self)@.set_x_u64(
                    dst.spec_index(),
                    vstd::std_specs::bits::u64_leading_zeros(a) as u64,
                )
            }),
    {
        let a = self.x_u64(src);
        self.set_x_u64(dst, a.leading_zeros() as u64);
        ControlFlow::Continue(())
    }

    /// Counts the one bits of a 32-bit number.
    pub fn xpopcnt32(&mut self, dst: XReg, src: XReg) -> (r: ControlFlow<Done>)
        ensures
            r is Continue,
            ({
                let a = old(self)@.x_u32(src.spec_index());
                final(self)@ == old(self)@.set_x_u32(dst.spec_index(), spec_count_ones(a as u64))
            }),
    {
        let a = self.x_u32(src);
        self.set_x_u32(dst, count_ones32(a));
        ControlFlow::Continue(())
    }

    /// Counts the one bits of a 64-bit number.
    pub fn xpopcnt64(&mut self, dst: XReg, src: XReg) -> (r: ControlFlow<Done>)
        ensures
            r is Continue,
            ({
                let a = old(self)@.x_u64(src.spec_index());
                final(self)@ == old(self)@.set_x_u64(dst.spec_index(), spec_count_ones(a) as u64)
            }),
    {
        let a = self.x_u64(src);
        self.set_x_u64(dst, count_ones64(a) as u64);
        ControlFlow::Continue(())
    }

    /// Rotates a 32-bit number left by the amount in `src2`.
    pub fn xrotl32(&mut self, operands: BinaryOperands<XReg>) -> (r: ControlFlow<Done>)
        ensures
            r is Continue,
            ({
                let a = old(self)@.x_u32(operands.src1.spec_index());
                let b = old(self)@.x_u32(operands.src2.spec_index());
                final(self)@ == old(self)@.set_x_u32(operands.dst.spec_index(), spec_rotl32(a, b))
            }),
    {
        let a = self.x_u32(operands.src1);
        let b = self.x_u32(operands.src2);
        self.set_x_u32(operands.dst, rotl32(a, b));
        ControlFlow::Continue(())
    }

    /// Rotates a 32-bit number right by the amount in `src2`.
    pub fn xrotr32(&mut self, operands: BinaryOperands<XReg>) -> (r: ControlFlow<Done>)
        ensures
            r is Continue,
            ({
                let a = old(self)@.x_u32(operands.src1.spec_index());
                let b = old(self)@.x_u32(operands.src2.spec_index());
                final(self)@ == old(self)@.set_x_u32(operands.dst.spec_index(), spec_rotr32(a, b))
            }),
    {
        let a = self.x_u32(operands.src1);
        let b = self.x_u32(operands.src2);
        self.set_x_u32(operands.dst, rotr32(a, b));
        ControlFlow::Continue(())
    }

    /// Rotates a 64-bit number left by the amount in `src2`.
    pub fn xrotl64(&mut self, operands: BinaryOperands<XReg>) -> (r: ControlFlow<Done>)
        ensures
            r is Continue,
            ({
                let a = old(self)@.x_u64(operands.src1.spec_index());
                let b = old(self)@.x_u32(operands.src2.spec_index());
                final(self)@ == old(self)@.set_x_u64(operands.dst.spec_index(), spec_rotl64(a, b))
            }),
    {
        let a = self.x_u64(operands.src1);
        let b = self.x_u32(operands.src2);
        self.set_x_u64(operands.dst, rotl64(a, b));
        ControlFlow::Continue(())
    }

    /// Rotates a 64-bit number right by the amount in `src2`.
    pub fn xrotr64(&mut self, operands: BinaryOperands<XReg>) -> (r: ControlFlow<Done>)
        ensures
            r is Continue,
            ({
                let a = old(self)@.x_u64(operands.src1.spec_index());
                let b = old(self)@.x_u32(operands.src2.spec_index());
                final(self)@ == old(self)@.set_x_u64(operands.dst.spec_index(), spec_rotr64(a, b))
            }),
    {
        let a = self.x_u64(operands.src1);
        let b = self.x_u32(operands.src2);
        self.set_x_u64(operands.dst, rotr64(a, b));
        ControlFlow::Continue(())
    }

    /// Chooses between two 32-bit numbers: `if_nonzero` unless the lower
    /// half of `cond` is zero.
    pub fn xselect32(
        &mut self,
        dst: XReg,
        cond: XReg,
        if_nonzero: XReg,
        if_zero: XReg,
    ) -> (r: ControlFlow<Done>)
        ensures
            r is Continue,
            ({
                let c = old(self)@.x_u32(cond.spec_index());
                let x = old(self)@.x_u32(if_nonzero.spec_index());
                let y = old(self)@.x_u32(if_zero.spec_index());
                final(self)@ == old(self)@.set_x_u32(dst.spec_index(), if c != 0 { x } else { y })
            }),
    {
        let c = self.x_u32(cond);
        let x = self.x_u32(if_nonzero);
        let y = self.x_u32(if_zero);
        self.set_x_u32(dst, if c != 0 { x } else { y });
        ControlFlow::Continue(())
    }

    /// Chooses between two 64-bit numbers: `if_nonzero` unless the lower
    /// half of `cond` is zero.
    pub fn xselect64(
        &mut self,
        dst: XReg,
        cond: XReg,
        if_nonzero: XReg,
        if_zero: XReg,
    ) -> (r: ControlFlow<Done>)
        ensures
            r is Continue,
            ({
                let c = old(self)@.x_u32(cond.spec_index());
                let x = old(self)@.x_u64(if_nonzero.spec_index());
                let y = old(self)@.x_u64(if_zero.spec_index());
                final(self)@ == old(self)@.set_x_u64(dst.spec_index(), if c != 0 { x } else { y })
            }),
    {
        let c = self.x_u32(cond);
        let x = self.x_u64(if_nonzero);
        let y = self.x_u64(if_zero);
        self.set_x_u64(dst, if c != 0 { x } else { y });
        ControlFlow::Continue(())
    }

    /// The absolute value of a signed 32-bit number, wrapping around for
    /// the least number.
    pub fn xabs32(&mut self, dst: XReg, src: XReg) -> (r: ControlFlow<Done>)
        ensures
            r is Continue,
            ({
                let a = old(self)@.x_i32(src.spec_index());
                final(self)@ == old(self)@.set_x_i32(
                    dst.spec_index(),
                    if a < 0 { 0i32.wrapping_sub(a) } else { a },
                )
            }),
    {
        let a = self.x_i32(src);
        self.set_x_i32(dst, if a < 0 { 0i32.wrapping_sub(a) } else { a });
        ControlFlow::Continue(())
    }

    /// The absolute value of a signed 64-bit number, wrapping around for
    /// the least number.
    pub fn xabs64(&mut self, dst: XReg, src: XReg) -> (r: ControlFlow<Done>)
        ensures
            r is Continue,
            ({
                let a = old(self)@.x_i64(src.spec_index());
                final(self)@ == old(self)@.set_x_i64(
                    dst.spec_index(),
                    if a < 0 { 0i64.wrapping_sub(a) } else { a },
                )
            }),
    {
        let a = self.x_i64(src);
        self.set_x_i64(dst, if a < 0 { 0i64.wrapping_sub(a) } else { a });
        ControlFlow::Continue(())
    }

    /// Sets the lower half of `dst` to all ones unless the 32-bit number
    /// in `src` is zero: then to zero.
    pub fn xbmask32(&mut self, dst: XReg, src: XReg) -> (r: ControlFlow<Done>)
        ensures
            r is Continue,
            ({
                let a = old(self)@.x_u32(src.spec_index());
                final(self)@ == old(self)@.set_x_u32(
                    dst.spec_index(),
                    if a == 0 { 0u32 } else { 0xffff_ffffu32 },
                )
            }),
    {
        let a = self.x_u32(src);
        self.set_x_u32(dst, if a == 0 { 0u32 } else { 0xffff_ffffu32 });
        ControlFlow::Continue(())
    }

    /// Sets `dst` to all ones unless the 64-bit number in `src` is zero:
    /// then to zero.
    pub fn xbmask64(&mut self, dst: XReg, src: XReg) -> (r: ControlFlow<Done>)
        ensures
            r is Continue,
            ({
                let a = old(self)@.x_u64(src.spec_index());
                final(self)@ == old(self)@.set_x_u64(
                    dst.spec_index(),
                    if a == 0 { 0u64 } else { 0xffff_ffff_ffff_ffffu64 },
                )
            }),
    {
        let a = self.x_u64(src);
        self.set_x_u64(dst, if a == 0 { 0u64 } else { 0xffff_ffff_ffff_ffffu64 });
        ControlFlow::Continue(())
    }

    /// Reverses the order of the four bytes of a 32-bit number.
    pub fn bswap32(&mut self, dst: XReg, src: XReg) -> (r: ControlFlow<Done>)
        ensures
            r is Continue,
            ({
                let a = old(self)@.x_u32(src.spec_index());
                final(self)@ == old(self)@.set_x_u32(dst.spec_index(), spec_swap_bytes32(a))
            }),
    {
        let a = self.x_u32(src);
        self.set_x_u32(dst, swap_bytes32(a));
        ControlFlow::Continue(())
    }

    /// Reverses the order of the eight bytes of a 64-bit number.
    pub fn bswap64(&mut self, dst: XReg, src: XReg) -> (r: ControlFlow<Done>)
        ensures
            r is Continue,
            ({
                let a = old(self)@.x_u64(src.spec_index());
                final(self)@ == old(self)@.set_x_u64(dst.spec_index(), spec_swap_bytes64(a))
            }),
    {
        let a = self.x_u64(src);
        self.set_x_u64(dst, swap_bytes64(a));
        ControlFlow::Continue(())
    }

    /// The upper 64 bits of the 128-bit product of two signed 64-bit
    /// numbers.
    pub fn xmulhi64_s(&mut self, operands: BinaryOperands<XReg>) -> (r: ControlFlow<Done>)
        ensures
            r is Continue,
            ({
                let a = old(self)@.x_i64(operands.src1.spec_index());
                let b = old(self)@.x_i64(operands.src2.spec_index());
                final(self)@ == old(self)@.set_x_i64(
                    operands.dst.spec_index(),
                    spec_mulhi64_s(a, b),
                )
            }),
    {
        let a = self.x_i64(operands.src1);
        let b = self.x_i64(operands.src2);
        self.set_x_i64(operands.dst, mulhi64_s(a, b));
        ControlFlow::Continue(())
    }

    /// The upper 64 bits of the 128-bit product of two unsigned 64-bit
    /// numbers.
    pub fn xmulhi64_u(&mut self, operands: BinaryOperands<XReg>) -> (r: ControlFlow<Done>)
        ensures
            r is Continue,
            ({
                let a = old(self)@.x_u64(operands.src1.spec_index());
                let b = old(self)@.x_u64(operands.src2.spec_index());
                final(self)@ == old(self)@.set_x_u64(
                    operands.dst.spec_index(),
                    spec_mulhi64_u(a, b),
                )
            }),
    {
        let a = self.x_u64(operands.src1);
        let b = self.x_u64(operands.src2);
        self.set_x_u64(operands.dst, mulhi64_u(a, b));
        ControlFlow::Continue(())
    }

    /// Does nothing.
    pub fn nop(&mut self) -> (r: ControlFlow<Done>)
        ensures
            r is Continue,
            final(self)@ == old(self)@,
    {
        ControlFlow::Continue(())
    }

    /// Copies the frame pointer to `dst`.
    pub fn xmov_fp(&mut self, dst: XReg) -> (r: ControlFlow<Done>)
        ensures
            r is Continue,
            final(self)@ == old(self)@.set_x_u64(dst.spec_index(), old(self)@.state.fp),
    {
        let fp = self.fp();
        self.set_x_u64(dst, fp);
        ControlFlow::Continue(())
    }

    /// Copies the link register to `dst`.
    pub fn xmov_lr(&mut self, dst: XReg) -> (r: ControlFlow<Done>)
        ensures
            r is Continue,
            final(self)@ == old(self)@.set_x_u64(dst.spec_index(), old(self)@.state.lr),
    {
        let lr = self.lr();
        self.set_x_u64(dst, lr);
        ControlFlow::Continue(())
    }

    /// Divides two signed 32-bit numbers, rounding towards zero. Traps
    /// with a division by zero if the divisor is zero, and with an
    /// integer overflow if the least number is divided by -1.
    pub fn xdiv32_s(&mut self, operands: BinaryOperands<XReg>) -> (r: ControlFlow<Done>)
        ensures
            ({
                let a = old(self)@.x_i32(operands.src1.spec_index());
                let b = old(self)@.x_i32(operands.src2.spec_index());
                if b == 0 {
                    r is Break && final(self)@ == old(self)@.trapped(
                        XDiv32S::spec_width(),
                        Some(TrapKind::DivideByZero),
                    )
                } else if a == i32::MIN && b == -1 {
                    r is Break && final(self)@ == old(self)@.trapped(
                        XDiv32S::spec_width(),
                        Some(TrapKind::IntegerOverflow),
                    )
                } else {
                    r is Continue && final(self)@ == old(self)@.set_x_i32(
                        operands.dst.spec_index(),
                        spec_div_trunc(a as int, b as int) as i32,
                    )
                }
            }),
    {
        let a = self.x_i32(operands.src1);
        let b = self.x_i32(operands.src2);
        proof {
            if b != 0 {
                lemma_div_trunc(a as int, b as int);
            }
        }
        match a.checked_div(b) {
            Some(result) => {
                self.set_x_i32(operands.dst, result);
                ControlFlow::Continue(())
            },
            None => {
                let kind = if b == 0 {
                    TrapKind::DivideByZero
                } else {
                    TrapKind::IntegerOverflow
                };
                self.done_trap_kind::<XDiv32S>(Some(kind))
            },
        }
    }

    /// Divides two signed 64-bit numbers, rounding towards zero. Traps
    /// with a division by zero if the divisor is zero, and with an
    /// integer overflow if the least number is divided by -1.
    pub fn xdiv64_s(&mut self, operands: BinaryOperands<XReg>) -> (r: ControlFlow<Done>)
        ensures
            ({
                let a = old(self)@.x_i64(operands.src1.spec_index());
                let b = old(self)@.x_i64(operands.src2.spec_index());
                if b == 0 {
                    r is Break && final(self)@ == old(self)@.trapped(
                        XDiv64S::spec_width(),
                        Some(TrapKind::DivideByZero),
                    )
                } else if a == i64::MIN && b == -1 {
                    r is Break && final(self)@ == old(self)@.trapped(
                        XDiv64S::spec_width(),
                        Some(TrapKind::IntegerOverflow),
                    )
                } else {
                    r is Continue && final(self)@ == old(self)@.set_x_i64(
                        operands.dst.spec_index(),
                        spec_div_trunc(a as int, b as int) as i64,
                    )
                }
            }),
    {
        let a = self.x_i64(operands.src1);
        let b = self.x_i64(operands.src2);
        proof {
            if b != 0 {
                lemma_div_trunc(a as int, b as int);
            }
        }
        match a.checked_div(b) {
            Some(result) => {
                self.set_x_i64(operands.dst, result);
                ControlFlow::Continue(())
            },
            None => {
                let kind = if b == 0 {
                    TrapKind::DivideByZero
                } else {
                    TrapKind::IntegerOverflow
                };
                self.done_trap_kind::<XDiv64S>(Some(kind))
            },
        }
    }

    /// Divides two unsigned 32-bit numbers, rounding towards zero. Traps
    /// with a division by zero if the divisor is zero.
    pub fn xdiv32_u(&mut self, operands: BinaryOperands<XReg>) -> (r: ControlFlow<Done>)
        ensures
            ({
                let a = old(self)@.x_u32(operands.src1.spec_index());
                let b = old(self)@.x_u32(operands.src2.spec_index());
                if b == 0 {
                    r is Break && final(self)@ == old(self)@.trapped(
                        XDiv32U::spec_width(),
                        Some(TrapKind::DivideByZero),
                    )
                } else {
                    r is Continue && final(self)@ == old(self)@.set_x_u32(
                        operands.dst.spec_index(),
                        (a / b) as u32,
                    )
                }
            }),
    {
        let a = self.x_u32(operands.src1);
        let b = self.x_u32(operands.src2);
        match a.checked_div(b) {
            Some(result) => {
                self.set_x_u32(operands.dst, result);
                ControlFlow::Continue(())
            },
            None => self.done_trap_kind::<XDiv32U>(Some(TrapKind::DivideByZero)),
        }
    }

    /// Divides two unsigned 64-bit numbers, rounding towards zero. Traps
    /// with a division by zero if the divisor is zero.
    pub fn xdiv64_u(&mut self, operands: BinaryOperands<XReg>) -> (r: ControlFlow<Done>)
        ensures
            ({
                let a = old(self)@.x_u64(operands.src1.spec_index());
                let b = old(self)@.x_u64(operands.src2.spec_index());
                if b == 0 {
                    r is Break && final(self)@ == old(self)@.trapped(
                        XDiv64U::spec_width(),
                        Some(TrapKind::DivideByZero),
                    )
                } else {
                    r is Continue && final(self)@ == old(self)@.set_x_u64(
                        operands.dst.spec_index(),
                        (a / b) as u64,
                    )
                }
            }),
    {
        let a = self.x_u64(operands.src1);
        let b = self.x_u64(operands.src2);
        match a.checked_div(b) {
            Some(result) => {
                self.set_x_u64(operands.dst, result);
                ControlFlow::Continue(())
            },
            None => self.done_trap_kind::<XDiv64U>(Some(TrapKind::DivideByZero)),
        }
    }

    /// The remainder of the division of two signed 32-bit numbers that
    /// rounds towards zero. Traps with a division by zero if the divisor
    /// is zero. The remainder of the least number by -1 is zero.
    pub fn xrem32_s(&mut self, operands: BinaryOperands<XReg>) -> (r: ControlFlow<Done>)
        ensures
            ({
                let a = old(self)@.x_i32(operands.src1.spec_index());
                let b = old(self)@.x_i32(operands.src2.spec_index());
                if b == 0 {
                    r is Break && final(self)@ == old(self)@.trapped(
                        XRem32S::spec_width(),
                        Some(TrapKind::DivideByZero),
                    )
                } else {
                    r is Continue && final(self)@ == old(self)@.set_x_i32(
                        operands.dst.spec_index(),
                        spec_rem_trunc(a as int, b as int) as i32,
                    )
                }
            }),
    {
        let a = self.x_i32(operands.src1);
        let b = self.x_i32(operands.src2);
        proof {
            if b != 0 {
                lemma_div_trunc(a as int, b as int);
            }
        }
        let result = if a == i32::MIN && b == -1 {
            Some(0)
        } else {
            a.checked_rem(b)
        };
        match result {
            Some(result) => {
                self.set_x_i32(operands.dst, result);
                ControlFlow::Continue(())
            },
            None => self.done_trap_kind::<XRem32S>(Some(TrapKind::DivideByZero)),
        }
    }

    /// The remainder of the division of two signed 64-bit numbers that
    /// rounds towards zero. Traps with a division by zero if the divisor
    /// is zero. The remainder of the least number by -1 is zero.
    pub fn xrem64_s(&mut self, operands: BinaryOperands<XReg>) -> (r: ControlFlow<Done>)
        ensures
            ({
                let a = old(self)@.x_i64(operands.src1.spec_index());
                let b = old(self)@.x_i64(operands.src2.spec_index());
                if b == 0 {
                    r is Break && final(self)@ == old(self)@.trapped(
                        XRem64S::spec_width(),
                        Some(TrapKind::DivideByZero),
                    )
                } else {
                    r is Continue && final(self)@ == old(self)@.set_x_i64(
                        operands.dst.spec_index(),
                        spec_rem_trunc(a as int, b as int) as i64,
                    )
                }
            }),
    {
        let a = self.x_i64(operands.src1);
        let b = self.x_i64(operands.src2);
        proof {
            if b != 0 {
                lemma_div_trunc(a as int, b as int);
            }
        }
        let result = if a == i64::MIN && b == -1 {
            Some(0)
        } else {
            a.checked_rem(b)
        };
        match result {
            Some(result) => {
                self.set_x_i64(operands.dst, result);
                ControlFlow::Continue(())
            },
            None => self.done_trap_kind::<XRem64S>(Some(TrapKind::DivideByZero)),
        }
    }

    /// The remainder of the division of two unsigned 32-bit numbers that
    /// rounds towards zero. Traps with a division by zero if the divisor
    /// is zero.
    pub fn xrem32_u(&mut self, operands: BinaryOperands<XReg>) -> (r: ControlFlow<Done>)
        ensures
            ({
                let a = old(self)@.x_u32(operands.src1.spec_index());
                let b = old(self)@.x_u32(operands.src2.spec_index());
                if b == 0 {
                    r is Break && final(self)@ == old(self)@.trapped(
                        XRem32U::spec_width(),
                        Some(TrapKind::DivideByZero),
                    )
                } else {
                    r is Continue && final(self)@ == old(self)@.set_x_u32(
                        operands.dst.spec_index(),
                        (a % b) as u32,
                    )
                }
            }),
    {
        let a = self.x_u32(operands.src1);
        let b = self.x_u32(operands.src2);
        match a.checked_rem(b) {
            Some(result) => {
                self.set_x_u32(operands.dst, result);
                ControlFlow::Continue(())
            },
            None => self.done_trap_kind::<XRem32U>(Some(TrapKind::DivideByZero)),
        }
    }

    /// The remainder of the division of two unsigned 64-bit numbers that
    /// rounds towards zero. Traps with a division by zero if the divisor
    /// is zero.
    pub fn xrem64_u(&mut self, operands: BinaryOperands<XReg>) -> (r: ControlFlow<Done>)
        ensures
            ({
                let a = old(self)@.x_u64(operands.src1.spec_index());
                let b = old(self)@.x_u64(operands.src2.spec_index());
                if b == 0 {
                    r is Break && final(self)@ == old(self)@.trapped(
                        XRem64U::spec_width(),
                        Some(TrapKind::DivideByZero),
                    )
                } else {
                    r is Continue && final(self)@ == old(self)@.set_x_u64(
                        operands.dst.spec_index(),
                        (a % b) as u64,
                    )
                }
            }),
    {
        let a = self.x_u64(operands.src1);
        let b = self.x_u64(operands.src2);
        match a.checked_rem(b) {
            Some(result) => {
                self.set_x_u64(operands.dst, result);
                ControlFlow::Continue(())
            },
            None => self.done_trap_kind::<XRem64U>(Some(TrapKind::DivideByZero)),
        }
    }

    /// Adds two unsigned 32-bit numbers, or traps if the sum does not fit
    /// 32 bits.
    pub fn xadd32_uoverflow_trap(
        &mut self,
        operands: BinaryOperands<XReg>,
    ) -> (r: ControlFlow<Done>)
        ensures
            ({
                let a = old(self)@.x_u32(operands.src1.spec_index());
                let b = old(self)@.x_u32(operands.src2.spec_index());
                if a + b > u32::MAX {
                    r is Break && final(self)@ == old(self)@.trapped(
                        Xadd32UoverflowTrap::spec_width(),
                        None,
                    )
                } else {
                    r is Continue && final(self)@ == old(self)@.set_x_u32(
                        operands.dst.spec_index(),
                        (a + b) as u32,
                    )
                }
            }),
    {
        let a = self.x_u32(operands.src1);
        let b = self.x_u32(operands.src2);
        match a.checked_add(b) {
            Some(c) => {
                self.set_x_u32(operands.dst, c);
                ControlFlow::Continue(())
            },
            None => self.done_trap::<Xadd32UoverflowTrap>(),
        }
    }

    /// Adds two unsigned 64-bit numbers, or traps if the sum does not fit
    /// 64 bits.
    pub fn xadd64_uoverflow_trap(
        &mut self,
        operands: BinaryOperands<XReg>,
    ) -> (r: ControlFlow<Done>)
        ensures
            ({
                let a = old(self)@.x_u64(operands.src1.spec_index());
                let b = old(self)@.x_u64(operands.src2.spec_index());
                if a + b > u64::MAX {
                    r is Break && final(self)@ == old(self)@.trapped(
                        Xadd64UoverflowTrap::spec_width(),
                        None,
                    )
                } else {
                    r is Continue && final(self)@ == old(self)@.set_x_u64(
                        operands.dst.spec_index(),
                        (a + b) as u64,
                    )
                }
            }),
    {
        let a = self.x_u64(operands.src1);
        let b = self.x_u64(operands.src2);
        match a.checked_add(b) {
            Some(c) => {
                self.set_x_u64(operands.dst, c);
                ControlFlow::Continue(())
            },
            None => self.done_trap::<Xadd64UoverflowTrap>(),
        }
    }
}

} // verus!
