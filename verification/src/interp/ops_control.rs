//! The handlers of the instructions that direct control: jumps,
//! branches, calls and returns, and the instructions that move the stack
//! pointer.
//!
//! A jump is measured from the start of the jumping instruction.

use crate::interp::encode::{
    Encode,
    BrIf, BrIfNot, BrIfXeq32, BrIfXeq32I32, BrIfXeq32I8, BrIfXeq64, BrIfXeq64I32,
    BrIfXeq64I8, BrIfXneq32, BrIfXneq32I32, BrIfXneq32I8, BrIfXneq64, BrIfXneq64I32,
    BrIfXneq64I8, BrIfXsgt32I32, BrIfXsgt32I8, BrIfXsgt64I32, BrIfXsgt64I8,
    BrIfXsgteq32I32, BrIfXsgteq32I8, BrIfXsgteq64I32, BrIfXsgteq64I8, BrIfXslt32,
    BrIfXslt32I32, BrIfXslt32I8, BrIfXslt64, BrIfXslt64I32, BrIfXslt64I8, BrIfXslteq32,
    BrIfXslteq32I32, BrIfXslteq32I8, BrIfXslteq64, BrIfXslteq64I32, BrIfXslteq64I8,
    BrIfXugt32U32, BrIfXugt32U8, BrIfXugt64U32, BrIfXugt64U8, BrIfXugteq32U32,
    BrIfXugteq32U8, BrIfXugteq64U32, BrIfXugteq64U8, BrIfXult32, BrIfXult32U32,
    BrIfXult32U8, BrIfXult64, BrIfXult64U32, BrIfXult64U8, BrIfXulteq32, BrIfXulteq32U32,
    BrIfXulteq32U8, BrIfXulteq64, BrIfXulteq64U32, BrIfXulteq64U8, Call, Call1, Call2,
    Call3, Call4, CallIndirectHost, Jump, StackAlloc32, Trap,
};
use crate::interp::machine::{Interpreter, InterpView};
use crate::interp::regs::{PcRelOffset, XReg};
use crate::interp::state::{Done, DoneReason, StateView, TrapKind, HOST_RETURN_ADDR};
use core::ops::ControlFlow;
use vstd::prelude::*;

verus! {

impl InterpView {
    /// The interpreter with the link register holding `lr`.
    pub open spec fn set_lr(self, lr: u64) -> InterpView {
        InterpView { state: StateView { lr, ..self.state }, ..self }
    }

    /// The interpreter with the frame pointer holding `fp`.
    pub open spec fn set_fp(self, fp: u64) -> InterpView {
        InterpView { state: StateView { fp, ..self.state }, ..self }
    }

    /// The interpreter with the program counter at `pc`.
    pub open spec fn set_pc(self, pc: u64) -> InterpView {
        InterpView { pc, ..self }
    }
}

impl Interpreter {
    /// Returns to the address in the link register, or stops with a
    /// return to the host if that address stands for the host.
    pub fn ret(&mut self) -> (r: ControlFlow<Done>)
        ensures
            old(self)@.state.lr == HOST_RETURN_ADDR ==> r is Break && final(self)@ == old(
                self,
            )@.stopped(DoneReason::ReturnToHost(())),
            old(self)@.state.lr != HOST_RETURN_ADDR ==> r is Continue && final(self)@ == old(
                self,
            )@.set_pc(old(self)@.state.lr),
    {
        let lr = self.lr();
        if lr == HOST_RETURN_ADDR {
            self.done_return_to_host()
        } else {
            self.set_pc(lr);
            ControlFlow::Continue(())
        }
    }

    /// Calls the function `offset` bytes from this instruction: the
    /// address behind the instruction goes to the link register.
    pub fn call(&mut self, offset: PcRelOffset) -> (r: ControlFlow<Done>)
        ensures
            r is Continue,
            final(self)@ == old(self)@.set_lr(old(self)@.pc).jumped(Call::spec_width(), offset.0),
    {
        let return_addr = self.pc();
        self.set_lr(return_addr);
        self.pc_rel_jump::<Call>(offset)
    }

    /// Calls like `call`, with `arg1` copied to the first argument
    /// register.
    pub fn call1(&mut self, arg1: XReg, offset: PcRelOffset) -> (r: ControlFlow<Done>)
        ensures
            r is Continue,
            final(self)@ == old(self)@.set_lr(old(self)@.pc).set_x(
                0,
                old(self)@.state.x[arg1.spec_index()],
            ).jumped(Call1::spec_width(), offset.0),
    {
        let return_addr = self.pc();
        self.set_lr(return_addr);
        let x0 = self.x(arg1);
        self.set_x(XReg::x0(), x0);
        self.pc_rel_jump::<Call1>(offset)
    }

    /// Calls like `call`, with two registers copied to the first two
    /// argument registers. Both are read before either is written.
    pub fn call2(&mut self, arg1: XReg, arg2: XReg, offset: PcRelOffset) -> (r: ControlFlow<Done>)
        ensures
            r is Continue,
            final(self)@ == old(self)@.set_lr(old(self)@.pc).set_x(
                0,
                old(self)@.state.x[arg1.spec_index()],
            ).set_x(1, old(self)@.state.x[arg2.spec_index()]).jumped(
                Call2::spec_width(),
                offset.0,
            ),
    {
        let return_addr = self.pc();
        self.set_lr(return_addr);
        let x0 = self.x(arg1);
        let x1 = self.x(arg2);
        self.set_x(XReg::x0(), x0);
        self.set_x(XReg::x1(), x1);
        self.pc_rel_jump::<Call2>(offset)
    }

    /// Calls like `call`, with three registers copied to the first three
    /// argument registers. All are read before any is written.
    pub fn call3(&mut self, arg1: XReg, arg2: XReg, arg3: XReg, offset: PcRelOffset) -> (r:
        ControlFlow<Done>)
        ensures
            r is Continue,
            final(self)@ == old(self)@.set_lr(old(self)@.pc).set_x(
                0,
                old(self)@.state.x[arg1.spec_index()],
            ).set_x(1, old(self)@.state.x[arg2.spec_index()]).set_x(
                2,
                old(self)@.state.x[arg3.spec_index()],
            ).jumped(Call3::spec_width(), offset.0),
    {
        let return_addr = self.pc();
        self.set_lr(return_addr);
        let x0 = self.x(arg1);
        let x1 = self.x(arg2);
        let x2 = self.x(arg3);
        self.set_x(XReg::x0(), x0);
        self.set_x(XReg::x1(), x1);
        self.set_x(XReg::x2(), x2);
        self.pc_rel_jump::<Call3>(offset)
    }

    /// Calls like `call`, with four registers copied to the four argument
    /// registers. All are read before any is written.
    pub fn call4(
        &mut self,
        arg1: XReg,
        arg2: XReg,
        arg3: XReg,
        arg4: XReg,
        offset: PcRelOffset,
    ) -> (r: ControlFlow<Done>)
        ensures
            r is Continue,
            final(self)@ == old(self)@.set_lr(old(self)@.pc).set_x(
                0,
                old(self)@.state.x[arg1.spec_index()],
            ).set_x(1, old(self)@.state.x[arg2.spec_index()]).set_x(
                2,
                old(self)@.state.x[arg3.spec_index()],
            ).set_x(3, old(self)@.state.x[arg4.spec_index()]).jumped(
                Call4::spec_width(),
                offset.0,
            ),
    {
        let return_addr = self.pc();
        self.set_lr(return_addr);
        let x0 = self.x(arg1);
        let x1 = self.x(arg2);
        let x2 = self.x(arg3);
        let x3 = self.x(arg4);
        self.set_x(XReg::x0(), x0);
        self.set_x(XReg::x1(), x1);
        self.set_x(XReg::x2(), x2);
        self.set_x(XReg::x3(), x3);
        self.pc_rel_jump::<Call4>(offset)
    }

    /// Calls the function whose address is in `dst`.
    pub fn call_indirect(&mut self, dst: XReg) -> (r: ControlFlow<Done>)
        ensures
            r is Continue,
            final(self)@ == old(self)@.set_lr(old(self)@.pc).set_pc(
                old(self)@.x_u64(dst.spec_index()),
            ),
    {
        let return_addr = self.pc();
        self.set_lr(return_addr);
        let target = self.x(dst).get_ptr();
        self.set_pc(target);
        ControlFlow::Continue(())
    }

    /// Jumps `offset` bytes from this instruction.
    pub fn jump(&mut self, offset: PcRelOffset) -> (r: ControlFlow<Done>)
        ensures
            r is Continue,
            final(self)@ == old(self)@.jumped(Jump::spec_width(), offset.0),
    {
        self.pc_rel_jump::<Jump>(offset)
    }

    /// Jumps to the address in `reg`.
    pub fn xjump(&mut self, reg: XReg) -> (r: ControlFlow<Done>)
        ensures
            r is Continue,
            final(self)@ == old(self)@.set_pc(old(self)@.x_u64(reg.spec_index())),
    {
        let target = self.x(reg).get_ptr();
        self.set_pc(target);
        ControlFlow::Continue(())
    }

    /// Jumps if the lower half of `cond` is not zero.
    pub fn br_if32(&mut self, cond: XReg, offset: PcRelOffset) -> (r: ControlFlow<Done>)
        ensures
            r is Continue,
            final(self)@ == (if old(self)@.x_u32(cond.spec_index()) != 0 {
                old(self)@.jumped(BrIf::spec_width(), offset.0)
            } else {
                old(self)@
            }),
    {
        let cond = self.x_u32(cond);
        if cond != 0 {
            self.pc_rel_jump::<BrIf>(offset)
        } else {
            ControlFlow::Continue(())
        }
    }

    /// Jumps if the lower half of `cond` is zero.
    pub fn br_if_not32(&mut self, cond: XReg, offset: PcRelOffset) -> (r: ControlFlow<Done>)
        ensures
            r is Continue,
            final(self)@ == (if old(self)@.x_u32(cond.spec_index()) == 0 {
                old(self)@.jumped(BrIfNot::spec_width(), offset.0)
            } else {
                old(self)@
            }),
    {
        let cond = self.x_u32(cond);
        if cond == 0 {
            self.pc_rel_jump::<BrIfNot>(offset)
        } else {
            ControlFlow::Continue(())
        }
    }

    /// Jumps if the 32-bit number in `a` equals the one in `b`, both read
    /// as unsigned.
    pub fn br_if_xeq32(&mut self, a: XReg, b: XReg, offset: PcRelOffset) -> (r: ControlFlow<Done>)
        ensures
            r is Continue,
            final(self)@ == (if old(self)@.x_u32(a.spec_index()) == old(self)@.x_u32(b.spec_index()) {
                old(self)@.jumped(BrIfXeq32::spec_width(), offset.0)
            } else {
                old(self)@
            }),
    {
        let a = self.x_u32(a);
        let b = self.x_u32(b);
        if a == b {
            self.pc_rel_jump::<BrIfXeq32>(offset)
        } else {
            ControlFlow::Continue(())
        }
    }

    /// Jumps if the 32-bit number in `a` differs from the one in `b`,
    /// both read as unsigned.
    pub fn br_if_xneq32(&mut self, a: XReg, b: XReg, offset: PcRelOffset) -> (r: ControlFlow<Done>)
        ensures
            r is Continue,
            final(self)@ == (if old(self)@.x_u32(a.spec_index()) != old(self)@.x_u32(b.spec_index()) {
                old(self)@.jumped(BrIfXneq32::spec_width(), offset.0)
            } else {
                old(self)@
            }),
    {
        let a = self.x_u32(a);
        let b = self.x_u32(b);
        if a != b {
            self.pc_rel_jump::<BrIfXneq32>(offset)
        } else {
            ControlFlow::Continue(())
        }
    }

    /// Jumps if the 32-bit number in `a` is less than the one in `b`,
    /// both read as signed.
    pub fn br_if_xslt32(&mut self, a: XReg, b: XReg, offset: PcRelOffset) -> (r: ControlFlow<Done>)
        ensures
            r is Continue,
            final(self)@ == (if old(self)@.x_i32(a.spec_index()) < old(self)@.x_i32(b.spec_index()) {
                old(self)@.jumped(BrIfXslt32::spec_width(), offset.0)
            } else {
                old(self)@
            }),
    {
        let a = self.x_i32(a);
        let b = self.x_i32(b);
        if a < b {
            self.pc_rel_jump::<BrIfXslt32>(offset)
        } else {
            ControlFlow::Continue(())
        }
    }

    /// Jumps if the 32-bit number in `a` is at most the one in `b`, both
    /// read as signed.
    pub fn br_if_xslteq32(
        &mut self,
        a: XReg,
        b: XReg,
        offset: PcRelOffset,
    ) -> (r: ControlFlow<Done>)
        ensures
            r is Continue,
            final(self)@ == (if old(self)@.x_i32(a.spec_index()) <= old(self)@.x_i32(b.spec_index()) {
                old(self)@.jumped(BrIfXslteq32::spec_width(), offset.0)
            } else {
                old(self)@
            }),
    {
        let a = self.x_i32(a);
        let b = self.x_i32(b);
        if a <= b {
            self.pc_rel_jump::<BrIfXslteq32>(offset)
        } else {
            ControlFlow::Continue(())
        }
    }

    /// Jumps if the 32-bit number in `a` is less than the one in `b`,
    /// both read as unsigned.
    pub fn br_if_xult32(&mut self, a: XReg, b: XReg, offset: PcRelOffset) -> (r: ControlFlow<Done>)
        ensures
            r is Continue,
            final(self)@ == (if old(self)@.x_u32(a.spec_index()) < old(self)@.x_u32(b.spec_index()) {
                old(self)@.jumped(BrIfXult32::spec_width(), offset.0)
            } else {
                old(self)@
            }),
    {
        let a = self.x_u32(a);
        let b = self.x_u32(b);
        if a < b {
            self.pc_rel_jump::<BrIfXult32>(offset)
        } else {
            ControlFlow::Continue(())
        }
    }

    /// Jumps if the 32-bit number in `a` is at most the one in `b`, both
    /// read as unsigned.
    pub fn br_if_xulteq32(
        &mut self,
        a: XReg,
        b: XReg,
        offset: PcRelOffset,
    ) -> (r: ControlFlow<Done>)
        ensures
            r is Continue,
            final(self)@ == (if old(self)@.x_u32(a.spec_index()) <= old(self)@.x_u32(b.spec_index()) {
                old(self)@.jumped(BrIfXulteq32::spec_width(), offset.0)
            } else {
                old(self)@
            }),
    {
        let a = self.x_u32(a);
        let b = self.x_u32(b);
        if a <= b {
            self.pc_rel_jump::<BrIfXulteq32>(offset)
        } else {
            ControlFlow::Continue(())
        }
    }

    /// Jumps if the 64-bit number in `a` equals the one in `b`, both read
    /// as unsigned.
    pub fn br_if_xeq64(&mut self, a: XReg, b: XReg, offset: PcRelOffset) -> (r: ControlFlow<Done>)
        ensures
            r is Continue,
            final(self)@ == (if old(self)@.x_u64(a.spec_index()) == old(self)@.x_u64(b.spec_index()) {
                old(self)@.jumped(BrIfXeq64::spec_width(), offset.0)
            } else {
                old(self)@
            }),
    {
        let a = self.x_u64(a);
        let b = self.x_u64(b);
        if a == b {
            self.pc_rel_jump::<BrIfXeq64>(offset)
        } else {
            ControlFlow::Continue(())
        }
    }

    /// Jumps if the 64-bit number in `a` differs from the one in `b`,
    /// both read as unsigned.
    pub fn br_if_xneq64(&mut self, a: XReg, b: XReg, offset: PcRelOffset) -> (r: ControlFlow<Done>)
        ensures
            r is Continue,
            final(self)@ == (if old(self)@.x_u64(a.spec_index()) != old(self)@.x_u64(b.spec_index()) {
                old(self)@.jumped(BrIfXneq64::spec_width(), offset.0)
            } else {
                old(self)@
            }),
    {
        let a = self.x_u64(a);
        let b = self.x_u64(b);
        if a != b {
            self.pc_rel_jump::<BrIfXneq64>(offset)
        } else {
            ControlFlow::Continue(())
        }
    }

    /// Jumps if the 64-bit number in `a` is less than the one in `b`,
    /// both read as signed.
    pub fn br_if_xslt64(&mut self, a: XReg, b: XReg, offset: PcRelOffset) -> (r: ControlFlow<Done>)
        ensures
            r is Continue,
            final(self)@ == (if old(self)@.x_i64(a.spec_index()) < old(self)@.x_i64(b.spec_index()) {
                old(self)@.jumped(BrIfXslt64::spec_width(), offset.0)
            } else {
                old(self)@
            }),
    {
        let a = self.x_i64(a);
        let b = self.x_i64(b);
        if a < b {
            self.pc_rel_jump::<BrIfXslt64>(offset)
        } else {
            ControlFlow::Continue(())
        }
    }

    /// Jumps if the 64-bit number in `a` is at most the one in `b`, both
    /// read as signed.
    pub fn br_if_xslteq64(
        &mut self,
        a: XReg,
        b: XReg,
        offset: PcRelOffset,
    ) -> (r: ControlFlow<Done>)
        ensures
            r is Continue,
            final(self)@ == (if old(self)@.x_i64(a.spec_index()) <= old(self)@.x_i64(b.spec_index()) {
                old(self)@.jumped(BrIfXslteq64::spec_width(), offset.0)
            } else {
                old(self)@
            }),
    {
        let a = self.x_i64(a);
        let b = self.x_i64(b);
        if a <= b {
            self.pc_rel_jump::<BrIfXslteq64>(offset)
        } else {
            ControlFlow::Continue(())
        }
    }

    /// Jumps if the 64-bit number in `a` is less than the one in `b`,
    /// both read as unsigned.
    pub fn br_if_xult64(&mut self, a: XReg, b: XReg, offset: PcRelOffset) -> (r: ControlFlow<Done>)
        ensures
            r is Continue,
            final(self)@ == (if old(self)@.x_u64(a.spec_index()) < old(self)@.x_u64(b.spec_index()) {
                old(self)@.jumped(BrIfXult64::spec_width(), offset.0)
            } else {
                old(self)@
            }),
    {
        let a = self.x_u64(a);
        let b = self.x_u64(b);
        if a < b {
            self.pc_rel_jump::<BrIfXult64>(offset)
        } else {
            ControlFlow::Continue(())
        }
    }

    /// Jumps if the 64-bit number in `a` is at most the one in `b`, both
    /// read as unsigned.
    pub fn br_if_xulteq64(
        &mut self,
        a: XReg,
        b: XReg,
        offset: PcRelOffset,
    ) -> (r: ControlFlow<Done>)
        ensures
            r is Continue,
            final(self)@ == (if old(self)@.x_u64(a.spec_index()) <= old(self)@.x_u64(b.spec_index()) {
                old(self)@.jumped(BrIfXulteq64::spec_width(), offset.0)
            } else {
                old(self)@
            }),
    {
        let a = self.x_u64(a);
        let b = self.x_u64(b);
        if a <= b {
            self.pc_rel_jump::<BrIfXulteq64>(offset)
        } else {
            ControlFlow::Continue(())
        }
    }

    /// Jumps if the signed 32-bit number in `a` equals the constant `b`.
    pub fn br_if_xeq32_i8(&mut self, a: XReg, b: i8, offset: PcRelOffset) -> (r: ControlFlow<Done>)
        ensures
            r is Continue,
            final(self)@ == (if old(self)@.x_i32(a.spec_index()) == (b as i32) {
                old(self)@.jumped(BrIfXeq32I8::spec_width(), offset.0)
            } else {
                old(self)@
            }),
    {
        let a = self.x_i32(a);
        if a == (b as i32) {
            self.pc_rel_jump::<BrIfXeq32I8>(offset)
        } else {
            ControlFlow::Continue(())
        }
    }

    /// Jumps if the signed 32-bit number in `a` equals the constant `b`.
    pub fn br_if_xeq32_i32(
        &mut self,
        a: XReg,
        b: i32,
        offset: PcRelOffset,
    ) -> (r: ControlFlow<Done>)
        ensures
            r is Continue,
            final(self)@ == (if old(self)@.x_i32(a.spec_index()) == b {
                old(self)@.jumped(BrIfXeq32I32::spec_width(), offset.0)
            } else {
                old(self)@
            }),
    {
        let a = self.x_i32(a);
        if a == b {
            self.pc_rel_jump::<BrIfXeq32I32>(offset)
        } else {
            ControlFlow::Continue(())
        }
    }

    /// Jumps if the signed 32-bit number in `a` differs from the constant
    /// `b`.
    pub fn br_if_xneq32_i8(&mut self, a: XReg, b: i8, offset: PcRelOffset) -> (r: ControlFlow<Done>)
        ensures
            r is Continue,
            final(self)@ == (if old(self)@.x_i32(a.spec_index()) != (b as i32) {
                old(self)@.jumped(BrIfXneq32I8::spec_width(), offset.0)
            } else {
                old(self)@
            }),
    {
        let a = self.x_i32(a);
        if a != (b as i32) {
            self.pc_rel_jump::<BrIfXneq32I8>(offset)
        } else {
            ControlFlow::Continue(())
        }
    }

    /// Jumps if the signed 32-bit number in `a` differs from the constant
    /// `b`.
    pub fn br_if_xneq32_i32(
        &mut self,
        a: XReg,
        b: i32,
        offset: PcRelOffset,
    ) -> (r: ControlFlow<Done>)
        ensures
            r is Continue,
            final(self)@ == (if old(self)@.x_i32(a.spec_index()) != b {
                old(self)@.jumped(BrIfXneq32I32::spec_width(), offset.0)
            } else {
                old(self)@
            }),
    {
        let a = self.x_i32(a);
        if a != b {
            self.pc_rel_jump::<BrIfXneq32I32>(offset)
        } else {
            ControlFlow::Continue(())
        }
    }

    /// Jumps if the signed 32-bit number in `a` is less than the constant
    /// `b`.
    pub fn br_if_xslt32_i8(&mut self, a: XReg, b: i8, offset: PcRelOffset) -> (r: ControlFlow<Done>)
        ensures
            r is Continue,
            final(self)@ == (if old(self)@.x_i32(a.spec_index()) < (b as i32) {
                old(self)@.jumped(BrIfXslt32I8::spec_width(), offset.0)
            } else {
                old(self)@
            }),
    {
        let a = self.x_i32(a);
        if a < (b as i32) {
            self.pc_rel_jump::<BrIfXslt32I8>(offset)
        } else {
            ControlFlow::Continue(())
        }
    }

    /// Jumps if the signed 32-bit number in `a` is less than the constant
    /// `b`.
    pub fn br_if_xslt32_i32(
        &mut self,
        a: XReg,
        b: i32,
        offset: PcRelOffset,
    ) -> (r: ControlFlow<Done>)
        ensures
            r is Continue,
            final(self)@ == (if old(self)@.x_i32(a.spec_index()) < b {
                old(self)@.jumped(BrIfXslt32I32::spec_width(), offset.0)
            } else {
                old(self)@
            }),
    {
        let a = self.x_i32(a);
        if a < b {
            self.pc_rel_jump::<BrIfXslt32I32>(offset)
        } else {
            ControlFlow::Continue(())
        }
    }

    /// Jumps if the signed 32-bit number in `a` is greater than the
    /// constant `b`.
    pub fn br_if_xsgt32_i8(&mut self, a: XReg, b: i8, offset: PcRelOffset) -> (r: ControlFlow<Done>)
        ensures
            r is Continue,
            final(self)@ == (if old(self)@.x_i32(a.spec_index()) > (b as i32) {
                old(self)@.jumped(BrIfXsgt32I8::spec_width(), offset.0)
            } else {
                old(self)@
            }),
    {
        let a = self.x_i32(a);
        if a > (b as i32) {
            self.pc_rel_jump::<BrIfXsgt32I8>(offset)
        } else {
            ControlFlow::Continue(())
        }
    }

    /// Jumps if the signed 32-bit number in `a` is greater than the
    /// constant `b`.
    pub fn br_if_xsgt32_i32(
        &mut self,
        a: XReg,
        b: i32,
        offset: PcRelOffset,
    ) -> (r: ControlFlow<Done>)
        ensures
            r is Continue,
            final(self)@ == (if old(self)@.x_i32(a.spec_index()) > b {
                old(self)@.jumped(BrIfXsgt32I32::spec_width(), offset.0)
            } else {
                old(self)@
            }),
    {
        let a = self.x_i32(a);
        if a > b {
            self.pc_rel_jump::<BrIfXsgt32I32>(offset)
        } else {
            ControlFlow::Continue(())
        }
    }

    /// Jumps if the signed 32-bit number in `a` is at most the constant
    /// `b`.
    pub fn br_if_xslteq32_i8(
        &mut self,
        a: XReg,
        b: i8,
        offset: PcRelOffset,
    ) -> (r: ControlFlow<Done>)
        ensures
            r is Continue,
            final(self)@ == (if old(self)@.x_i32(a.spec_index()) <= (b as i32) {
                old(self)@.jumped(BrIfXslteq32I8::spec_width(), offset.0)
            } else {
                old(self)@
            }),
    {
        let a = self.x_i32(a);
        if a <= (b as i32) {
            self.pc_rel_jump::<BrIfXslteq32I8>(offset)
        } else {
            ControlFlow::Continue(())
        }
    }

    /// Jumps if the signed 32-bit number in `a` is at most the constant
    /// `b`.
    pub fn br_if_xslteq32_i32(
        &mut self,
        a: XReg,
        b: i32,
        offset: PcRelOffset,
    ) -> (r: ControlFlow<Done>)
        ensures
            r is Continue,
            final(self)@ == (if old(self)@.x_i32(a.spec_index()) <= b {
                old(self)@.jumped(BrIfXslteq32I32::spec_width(), offset.0)
            } else {
                old(self)@
            }),
    {
        let a = self.x_i32(a);
        if a <= b {
            self.pc_rel_jump::<BrIfXslteq32I32>(offset)
        } else {
            ControlFlow::Continue(())
        }
    }

    /// Jumps if the signed 32-bit number in `a` is at least the constant
    /// `b`.
    pub fn br_if_xsgteq32_i8(
        &mut self,
        a: XReg,
        b: i8,
        offset: PcRelOffset,
    ) -> (r: ControlFlow<Done>)
        ensures
            r is Continue,
            final(self)@ == (if old(self)@.x_i32(a.spec_index()) >= (b as i32) {
                old(self)@.jumped(BrIfXsgteq32I8::spec_width(), offset.0)
            } else {
                old(self)@
            }),
    {
        let a = self.x_i32(a);
        if a >= (b as i32) {
            self.pc_rel_jump::<BrIfXsgteq32I8>(offset)
        } else {
            ControlFlow::Continue(())
        }
    }

    /// Jumps if the signed 32-bit number in `a` is at least the constant
    /// `b`.
    pub fn br_if_xsgteq32_i32(
        &mut self,
        a: XReg,
        b: i32,
        offset: PcRelOffset,
    ) -> (r: ControlFlow<Done>)
        ensures
            r is Continue,
            final(self)@ == (if old(self)@.x_i32(a.spec_index()) >= b {
                old(self)@.jumped(BrIfXsgteq32I32::spec_width(), offset.0)
            } else {
                old(self)@
            }),
    {
        let a = self.x_i32(a);
        if a >= b {
            self.pc_rel_jump::<BrIfXsgteq32I32>(offset)
        } else {
            ControlFlow::Continue(())
        }
    }

    /// Jumps if the unsigned 32-bit number in `a` is less than the
    /// constant `b`.
    pub fn br_if_xult32_u8(&mut self, a: XReg, b: u8, offset: PcRelOffset) -> (r: ControlFlow<Done>)
        ensures
            r is Continue,
            final(self)@ == (if old(self)@.x_u32(a.spec_index()) < (b as u32) {
                old(self)@.jumped(BrIfXult32U8::spec_width(), offset.0)
            } else {
                old(self)@
            }),
    {
        let a = self.x_u32(a);
        if a < (b as u32) {
            self.pc_rel_jump::<BrIfXult32U8>(offset)
        } else {
            ControlFlow::Continue(())
        }
    }

    /// Jumps if the unsigned 32-bit number in `a` is less than the
    /// constant `b`.
    pub fn br_if_xult32_u32(
        &mut self,
        a: XReg,
        b: u32,
        offset: PcRelOffset,
    ) -> (r: ControlFlow<Done>)
        ensures
            r is Continue,
            final(self)@ == (if old(self)@.x_u32(a.spec_index()) < b {
                old(self)@.jumped(BrIfXult32U32::spec_width(), offset.0)
            } else {
                old(self)@
            }),
    {
        let a = self.x_u32(a);
        if a < b {
            self.pc_rel_jump::<BrIfXult32U32>(offset)
        } else {
            ControlFlow::Continue(())
        }
    }

    /// Jumps if the unsigned 32-bit number in `a` is greater than the
    /// constant `b`.
    pub fn br_if_xugt32_u8(&mut self, a: XReg, b: u8, offset: PcRelOffset) -> (r: ControlFlow<Done>)
        ensures
            r is Continue,
            final(self)@ == (if old(self)@.x_u32(a.spec_index()) > (b as u32) {
                old(self)@.jumped(BrIfXugt32U8::spec_width(), offset.0)
            } else {
                old(self)@
            }),
    {
        let a = self.x_u32(a);
        if a > (b as u32) {
            self.pc_rel_jump::<BrIfXugt32U8>(offset)
        } else {
            ControlFlow::Continue(())
        }
    }

    /// Jumps if the unsigned 32-bit number in `a` is greater than the
    /// constant `b`.
    pub fn br_if_xugt32_u32(
        &mut self,
        a: XReg,
        b: u32,
        offset: PcRelOffset,
    ) -> (r: ControlFlow<Done>)
        ensures
            r is Continue,
            final(self)@ == (if old(self)@.x_u32(a.spec_index()) > b {
                old(self)@.jumped(BrIfXugt32U32::spec_width(), offset.0)
            } else {
                old(self)@
            }),
    {
        let a = self.x_u32(a);
        if a > b {
            self.pc_rel_jump::<BrIfXugt32U32>(offset)
        } else {
            ControlFlow::Continue(())
        }
    }

    /// Jumps if the unsigned 32-bit number in `a` is at most the constant
    /// `b`.
    pub fn br_if_xulteq32_u8(
        &mut self,
        a: XReg,
        b: u8,
        offset: PcRelOffset,
    ) -> (r: ControlFlow<Done>)
        ensures
            r is Continue,
            final(self)@ == (if old(self)@.x_u32(a.spec_index()) <= (b as u32) {
                old(self)@.jumped(BrIfXulteq32U8::spec_width(), offset.0)
            } else {
                old(self)@
            }),
    {
        let a = self.x_u32(a);
        if a <= (b as u32) {
            self.pc_rel_jump::<BrIfXulteq32U8>(offset)
        } else {
            ControlFlow::Continue(())
        }
    }

    /// Jumps if the unsigned 32-bit number in `a` is at most the constant
    /// `b`.
    pub fn br_if_xulteq32_u32(
        &mut self,
        a: XReg,
        b: u32,
        offset: PcRelOffset,
    ) -> (r: ControlFlow<Done>)
        ensures
            r is Continue,
            final(self)@ == (if old(self)@.x_u32(a.spec_index()) <= b {
                old(self)@.jumped(BrIfXulteq32U32::spec_width(), offset.0)
            } else {
                old(self)@
            }),
    {
        let a = self.x_u32(a);
        if a <= b {
            self.pc_rel_jump::<BrIfXulteq32U32>(offset)
        } else {
            ControlFlow::Continue(())
        }
    }

    /// Jumps if the unsigned 32-bit number in `a` is at least the
    /// constant `b`.
    pub fn br_if_xugteq32_u8(
        &mut self,
        a: XReg,
        b: u8,
        offset: PcRelOffset,
    ) -> (r: ControlFlow<Done>)
        ensures
            r is Continue,
            final(self)@ == (if old(self)@.x_u32(a.spec_index()) >= (b as u32) {
                old(self)@.jumped(BrIfXugteq32U8::spec_width(), offset.0)
            } else {
                old(self)@
            }),
    {
        let a = self.x_u32(a);
        if a >= (b as u32) {
            self.pc_rel_jump::<BrIfXugteq32U8>(offset)
        } else {
            ControlFlow::Continue(())
        }
    }

    /// Jumps if the unsigned 32-bit number in `a` is at least the
    /// constant `b`.
    pub fn br_if_xugteq32_u32(
        &mut self,
        a: XReg,
        b: u32,
        offset: PcRelOffset,
    ) -> (r: ControlFlow<Done>)
        ensures
            r is Continue,
            final(self)@ == (if old(self)@.x_u32(a.spec_index()) >= b {
                old(self)@.jumped(BrIfXugteq32U32::spec_width(), offset.0)
            } else {
                old(self)@
            }),
    {
        let a = self.x_u32(a);
        if a >= b {
            self.pc_rel_jump::<BrIfXugteq32U32>(offset)
        } else {
            ControlFlow::Continue(())
        }
    }

    /// Jumps if the signed 64-bit number in `a` equals the constant `b`.
    pub fn br_if_xeq64_i8(&mut self, a: XReg, b: i8, offset: PcRelOffset) -> (r: ControlFlow<Done>)
        ensures
            r is Continue,
            final(self)@ == (if old(self)@.x_i64(a.spec_index()) == (b as i64) {
                old(self)@.jumped(BrIfXeq64I8::spec_width(), offset.0)
            } else {
                old(self)@
            }),
    {
        let a = self.x_i64(a);
        if a == (b as i64) {
            self.pc_rel_jump::<BrIfXeq64I8>(offset)
        } else {
            ControlFlow::Continue(())
        }
    }

    /// Jumps if the signed 64-bit number in `a` equals the constant `b`.
    pub fn br_if_xeq64_i32(
        &mut self,
        a: XReg,
        b: i32,
        offset: PcRelOffset,
    ) -> (r: ControlFlow<Done>)
        ensures
            r is Continue,
            final(self)@ == (if old(self)@.x_i64(a.spec_index()) == (b as i64) {
                old(self)@.jumped(BrIfXeq64I32::spec_width(), offset.0)
            } else {
                old(self)@
            }),
    {
        let a = self.x_i64(a);
        if a == (b as i64) {
            self.pc_rel_jump::<BrIfXeq64I32>(offset)
        } else {
            ControlFlow::Continue(())
        }
    }

    /// Jumps if the signed 64-bit number in `a` differs from the constant
    /// `b`.
    pub fn br_if_xneq64_i8(&mut self, a: XReg, b: i8, offset: PcRelOffset) -> (r: ControlFlow<Done>)
        ensures
            r is Continue,
            final(self)@ == (if old(self)@.x_i64(a.spec_index()) != (b as i64) {
                old(self)@.jumped(BrIfXneq64I8::spec_width(), offset.0)
            } else {
                old(self)@
            }),
    {
        let a = self.x_i64(a);
        if a != (b as i64) {
            self.pc_rel_jump::<BrIfXneq64I8>(offset)
        } else {
            ControlFlow::Continue(())
        }
    }

    /// Jumps if the signed 64-bit number in `a` differs from the constant
    /// `b`.
    pub fn br_if_xneq64_i32(
        &mut self,
        a: XReg,
        b: i32,
        offset: PcRelOffset,
    ) -> (r: ControlFlow<Done>)
        ensures
            r is Continue,
            final(self)@ == (if old(self)@.x_i64(a.spec_index()) != (b as i64) {
                old(self)@.jumped(BrIfXneq64I32::spec_width(), offset.0)
            } else {
                old(self)@
            }),
    {
        let a = self.x_i64(a);
        if a != (b as i64) {
            self.pc_rel_jump::<BrIfXneq64I32>(offset)
        } else {
            ControlFlow::Continue(())
        }
    }

    /// Jumps if the signed 64-bit number in `a` is less than the constant
    /// `b`.
    pub fn br_if_xslt64_i8(&mut self, a: XReg, b: i8, offset: PcRelOffset) -> (r: ControlFlow<Done>)
        ensures
            r is Continue,
            final(self)@ == (if old(self)@.x_i64(a.spec_index()) < (b as i64) {
                old(self)@.jumped(BrIfXslt64I8::spec_width(), offset.0)
            } else {
                old(self)@
            }),
    {
        let a = self.x_i64(a);
        if a < (b as i64) {
            self.pc_rel_jump::<BrIfXslt64I8>(offset)
        } else {
            ControlFlow::Continue(())
        }
    }

    /// Jumps if the signed 64-bit number in `a` is less than the constant
    /// `b`.
    pub fn br_if_xslt64_i32(
        &mut self,
        a: XReg,
        b: i32,
        offset: PcRelOffset,
    ) -> (r: ControlFlow<Done>)
        ensures
            r is Continue,
            final(self)@ == (if old(self)@.x_i64(a.spec_index()) < (b as i64) {
                old(self)@.jumped(BrIfXslt64I32::spec_width(), offset.0)
            } else {
                old(self)@
            }),
    {
        let a = self.x_i64(a);
        if a < (b as i64) {
            self.pc_rel_jump::<BrIfXslt64I32>(offset)
        } else {
            ControlFlow::Continue(())
        }
    }

    /// Jumps if the signed 64-bit number in `a` is greater than the
    /// constant `b`.
    pub fn br_if_xsgt64_i8(&mut self, a: XReg, b: i8, offset: PcRelOffset) -> (r: ControlFlow<Done>)
        ensures
            r is Continue,
            final(self)@ == (if old(self)@.x_i64(a.spec_index()) > (b as i64) {
                old(self)@.jumped(BrIfXsgt64I8::spec_width(), offset.0)
            } else {
                old(self)@
            }),
    {
        let a = self.x_i64(a);
        if a > (b as i64) {
            self.pc_rel_jump::<BrIfXsgt64I8>(offset)
        } else {
            ControlFlow::Continue(())
        }
    }

    /// Jumps if the signed 64-bit number in `a` is greater than the
    /// constant `b`.
    pub fn br_if_xsgt64_i32(
        &mut self,
        a: XReg,
        b: i32,
        offset: PcRelOffset,
    ) -> (r: ControlFlow<Done>)
        ensures
            r is Continue,
            final(self)@ == (if old(self)@.x_i64(a.spec_index()) > (b as i64) {
                old(self)@.jumped(BrIfXsgt64I32::spec_width(), offset.0)
            } else {
                old(self)@
            }),
    {
        let a = self.x_i64(a);
        if a > (b as i64) {
            self.pc_rel_jump::<BrIfXsgt64I32>(offset)
        } else {
            ControlFlow::Continue(())
        }
    }

    /// Jumps if the signed 64-bit number in `a` is at most the constant
    /// `b`.
    pub fn br_if_xslteq64_i8(
        &mut self,
        a: XReg,
        b: i8,
        offset: PcRelOffset,
    ) -> (r: ControlFlow<Done>)
        ensures
            r is Continue,
            final(self)@ == (if old(self)@.x_i64(a.spec_index()) <= (b as i64) {
                old(self)@.jumped(BrIfXslteq64I8::spec_width(), offset.0)
            } else {
                old(self)@
            }),
    {
        let a = self.x_i64(a);
        if a <= (b as i64) {
            self.pc_rel_jump::<BrIfXslteq64I8>(offset)
        } else {
            ControlFlow::Continue(())
        }
    }

    /// Jumps if the signed 64-bit number in `a` is at most the constant
    /// `b`.
    pub fn br_if_xslteq64_i32(
        &mut self,
        a: XReg,
        b: i32,
        offset: PcRelOffset,
    ) -> (r: ControlFlow<Done>)
        ensures
            r is Continue,
            final(self)@ == (if old(self)@.x_i64(a.spec_index()) <= (b as i64) {
                old(self)@.jumped(BrIfXslteq64I32::spec_width(), offset.0)
            } else {
                old(self)@
            }),
    {
        let a = self.x_i64(a);
        if a <= (b as i64) {
            self.pc_rel_jump::<BrIfXslteq64I32>(offset)
        } else {
            ControlFlow::Continue(())
        }
    }

    /// Jumps if the signed 64-bit number in `a` is at least the constant
    /// `b`.
    pub fn br_if_xsgteq64_i8(
        &mut self,
        a: XReg,
        b: i8,
        offset: PcRelOffset,
    ) -> (r: ControlFlow<Done>)
        ensures
            r is Continue,
            final(self)@ == (if old(self)@.x_i64(a.spec_index()) >= (b as i64) {
                old(self)@.jumped(BrIfXsgteq64I8::spec_width(), offset.0)
            } else {
                old(self)@
            }),
    {
        let a = self.x_i64(a);
        if a >= (b as i64) {
            self.pc_rel_jump::<BrIfXsgteq64I8>(offset)
        } else {
            ControlFlow::Continue(())
        }
    }

    /// Jumps if the signed 64-bit number in `a` is at least the constant
    /// `b`.
    pub fn br_if_xsgteq64_i32(
        &mut self,
        a: XReg,
        b: i32,
        offset: PcRelOffset,
    ) -> (r: ControlFlow<Done>)
        ensures
            r is Continue,
            final(self)@ == (if old(self)@.x_i64(a.spec_index()) >= (b as i64) {
                old(self)@.jumped(BrIfXsgteq64I32::spec_width(), offset.0)
            } else {
                old(self)@
            }),
    {
        let a = self.x_i64(a);
        if a >= (b as i64) {
            self.pc_rel_jump::<BrIfXsgteq64I32>(offset)
        } else {
            ControlFlow::Continue(())
        }
    }

    /// Jumps if the unsigned 64-bit number in `a` is less than the
    /// constant `b`.
    pub fn br_if_xult64_u8(&mut self, a: XReg, b: u8, offset: PcRelOffset) -> (r: ControlFlow<Done>)
        ensures
            r is Continue,
            final(self)@ == (if old(self)@.x_u64(a.spec_index()) < (b as u64) {
                old(self)@.jumped(BrIfXult64U8::spec_width(), offset.0)
            } else {
                old(self)@
            }),
    {
        let a = self.x_u64(a);
        if a < (b as u64) {
            self.pc_rel_jump::<BrIfXult64U8>(offset)
        } else {
            ControlFlow::Continue(())
        }
    }

    /// Jumps if the unsigned 64-bit number in `a` is less than the
    /// constant `b`.
    pub fn br_if_xult64_u32(
        &mut self,
        a: XReg,
        b: u32,
        offset: PcRelOffset,
    ) -> (r: ControlFlow<Done>)
        ensures
            r is Continue,
            final(self)@ == (if old(self)@.x_u64(a.spec_index()) < (b as u64) {
                old(self)@.jumped(BrIfXult64U32::spec_width(), offset.0)
            } else {
                old(self)@
            }),
    {
        let a = self.x_u64(a);
        if a < (b as u64) {
            self.pc_rel_jump::<BrIfXult64U32>(offset)
        } else {
            ControlFlow::Continue(())
        }
    }

    /// Jumps if the unsigned 64-bit number in `a` is greater than the
    /// constant `b`.
    pub fn br_if_xugt64_u8(&mut self, a: XReg, b: u8, offset: PcRelOffset) -> (r: ControlFlow<Done>)
        ensures
            r is Continue,
            final(self)@ == (if old(self)@.x_u64(a.spec_index()) > (b as u64) {
                old(self)@.jumped(BrIfXugt64U8::spec_width(), offset.0)
            } else {
                old(self)@
            }),
    {
        let a = self.x_u64(a);
        if a > (b as u64) {
            self.pc_rel_jump::<BrIfXugt64U8>(offset)
        } else {
            ControlFlow::Continue(())
        }
    }

    /// Jumps if the unsigned 64-bit number in `a` is greater than the
    /// constant `b`.
    pub fn br_if_xugt64_u32(
        &mut self,
        a: XReg,
        b: u32,
        offset: PcRelOffset,
    ) -> (r: ControlFlow<Done>)
        ensures
            r is Continue,
            final(self)@ == (if old(self)@.x_u64(a.spec_index()) > (b as u64) {
                old(self)@.jumped(BrIfXugt64U32::spec_width(), offset.0)
            } else {
                old(self)@
            }),
    {
        let a = self.x_u64(a);
        if a > (b as u64) {
            self.pc_rel_jump::<BrIfXugt64U32>(offset)
        } else {
            ControlFlow::Continue(())
        }
    }

    /// Jumps if the unsigned 64-bit number in `a` is at most the constant
    /// `b`.
    pub fn br_if_xulteq64_u8(
        &mut self,
        a: XReg,
        b: u8,
        offset: PcRelOffset,
    ) -> (r: ControlFlow<Done>)
        ensures
            r is Continue,
            final(self)@ == (if old(self)@.x_u64(a.spec_index()) <= (b as u64) {
                old(self)@.jumped(BrIfXulteq64U8::spec_width(), offset.0)
            } else {
                old(self)@
            }),
    {
        let a = self.x_u64(a);
        if a <= (b as u64) {
            self.pc_rel_jump::<BrIfXulteq64U8>(offset)
        } else {
            ControlFlow::Continue(())
        }
    }

    /// Jumps if the unsigned 64-bit number in `a` is at most the constant
    /// `b`.
    pub fn br_if_xulteq64_u32(
        &mut self,
        a: XReg,
        b: u32,
        offset: PcRelOffset,
    ) -> (r: ControlFlow<Done>)
        ensures
            r is Continue,
            final(self)@ == (if old(self)@.x_u64(a.spec_index()) <= (b as u64) {
                old(self)@.jumped(BrIfXulteq64U32::spec_width(), offset.0)
            } else {
                old(self)@
            }),
    {
        let a = self.x_u64(a);
        if a <= (b as u64) {
            self.pc_rel_jump::<BrIfXulteq64U32>(offset)
        } else {
            ControlFlow::Continue(())
        }
    }

    /// Jumps if the unsigned 64-bit number in `a` is at least the
    /// constant `b`.
    pub fn br_if_xugteq64_u8(
        &mut self,
        a: XReg,
        b: u8,
        offset: PcRelOffset,
    ) -> (r: ControlFlow<Done>)
        ensures
            r is Continue,
            final(self)@ == (if old(self)@.x_u64(a.spec_index()) >= (b as u64) {
                old(self)@.jumped(BrIfXugteq64U8::spec_width(), offset.0)
            } else {
                old(self)@
            }),
    {
        let a = self.x_u64(a);
        if a >= (b as u64) {
            self.pc_rel_jump::<BrIfXugteq64U8>(offset)
        } else {
            ControlFlow::Continue(())
        }
    }

    /// Jumps if the unsigned 64-bit number in `a` is at least the
    /// constant `b`.
    pub fn br_if_xugteq64_u32(
        &mut self,
        a: XReg,
        b: u32,
        offset: PcRelOffset,
    ) -> (r: ControlFlow<Done>)
        ensures
            r is Continue,
            final(self)@ == (if old(self)@.x_u64(a.spec_index()) >= (b as u64) {
                old(self)@.jumped(BrIfXugteq64U32::spec_width(), offset.0)
            } else {
                old(self)@
            }),
    {
        let a = self.x_u64(a);
        if a >= (b as u64) {
            self.pc_rel_jump::<BrIfXugteq64U32>(offset)
        } else {
            ControlFlow::Continue(())
        }
    }


    /// The entry of a jump table of `amt` entries that the number in `idx`
    /// selects: the entry with that number, or the last entry for a
    /// number beyond the table. The table stands behind the instruction,
    /// four bytes for each entry.
    pub fn br_table32_entry(&self, idx: XReg, amt: u32) -> (entry: u32)
        requires
            amt > 0,
        ensures
            entry == (if self@.x_u32(idx.spec_index()) < amt - 1 {
                self@.x_u32(idx.spec_index())
            } else {
                (amt - 1) as u32
            }),
    {
        let idx = self.x_u32(idx);
        if idx < amt - 1 {
            idx
        } else {
            amt - 1
        }
    }

    /// Jumps through entry `entry` of the jump table behind the
    /// instruction, which holds the offset `rel`: the offset is measured
    /// from the entry itself.
    pub fn br_table32_jump(&mut self, entry: u32, rel: PcRelOffset) -> (r: ControlFlow<Done>)
        ensures
            r is Continue,
            final(self)@ == old(self)@.set_pc(
                old(self)@.pc.wrapping_add((4 * entry) as u64).wrapping_add_signed(rel.0 as i64),
            ),
    {
        let at = self.pc().wrapping_add(4 * (entry as u64));
        self.set_pc(at.wrapping_add_signed(rel.0 as i64));
        ControlFlow::Continue(())
    }

    /// Stops with a trap of unknown kind.
    pub fn trap(&mut self) -> (r: ControlFlow<Done>)
        ensures
            r is Break,
            final(self)@ == old(self)@.trapped(Trap::spec_width(), None),
    {
        self.done_trap::<Trap>()
    }

    /// Stops to let the host run its function `id`.
    pub fn call_indirect_host(&mut self, id: u8) -> (r: ControlFlow<Done>)
        ensures
            r is Break,
            final(self)@ == old(self)@.stopped(
                DoneReason::CallIndirectHost { id, resume: old(self)@.pc },
            ),
    {
        self.done_call_indirect_host(id)
    }

    /// Moves the stack pointer down by `amt` bytes, or traps with a stack
    /// overflow if that would leave the stack.
    pub fn stack_alloc32(&mut self, amt: u32) -> (r: ControlFlow<Done>)
        requires
            old(self)@.state.sp_valid(),
        ensures
            old(self)@.has_room(amt as nat) ==> r is Continue && final(self)@ == (InterpView {
                state: old(self)@.state.set_sp((old(self)@.state.sp() - amt) as u64),
                ..old(self)@
            }),
            !old(self)@.has_room(amt as nat) ==> r is Break && final(self)@ == old(self)@.trapped(
                StackAlloc32::spec_width(),
                Some(TrapKind::StackOverflow),
            ),
    {
        let sp = self.state().sp();
        let new_sp = sp.wrapping_sub(amt as u64);
        self.set_sp::<StackAlloc32>(new_sp)
    }

    /// Moves the stack pointer up by `amt` bytes: it frees what an
    /// earlier instruction took, so the stack pointer stays in the stack.
    pub fn stack_free32(&mut self, amt: u32) -> (r: ControlFlow<Done>)
        requires
            old(self)@.state.sp_valid(),
            old(self)@.state.sp() + amt <= old(self)@.state.stack_end(),
        ensures
            r is Continue,
            final(self)@ == old(self)@.popped(amt as nat),
    {
        let sp = self.state().sp();
        let new_sp = sp.wrapping_add(amt as u64);
        self.set_sp_unchecked(new_sp);
        ControlFlow::Continue(())
    }
}

} // verus!
