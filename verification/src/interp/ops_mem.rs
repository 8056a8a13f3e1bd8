//! The handlers of the instructions that read and write memory.
//!
//! An address comes in one of four modes. The modes differ in how the
//! address is computed and in what is checked on the way; reading and
//! writing are the same for all of them. Memory holds numbers in
//! little-endian order; the big-endian instructions reverse the bytes.

use crate::interp::bits::{
    spec_swap_bytes16, spec_swap_bytes32, spec_swap_bytes64, swap_bytes16, swap_bytes32,
    swap_bytes64,
};
use crate::interp::encode::{
    Encode,
    Fload32BeO32, Fload32LeG32, Fload32LeO32, Fload32LeZ, Fload64BeO32, Fload64LeG32,
    Fload64LeO32, Fload64LeZ, Fstore32BeO32, Fstore32LeG32, Fstore32LeO32, Fstore32LeZ,
    Fstore64BeO32, Fstore64LeG32, Fstore64LeO32, Fstore64LeZ, VLoad128LeG32,
    VLoad128LeO32, VLoad128LeZ, Vstore128LeG32, Vstore128LeO32, Vstore128LeZ,
    XLoad16BeS32O32, XLoad16BeU32O32, XLoad16LeS32G32, XLoad16LeS32G32Bne,
    XLoad16LeS32O32, XLoad16LeS32Z, XLoad16LeU32G32, XLoad16LeU32G32Bne, XLoad16LeU32O32,
    XLoad16LeU32Z, XLoad32BeO32, XLoad32LeG32, XLoad32LeG32Bne, XLoad32LeO32, XLoad32LeZ,
    XLoad64BeO32, XLoad64LeG32, XLoad64LeG32Bne, XLoad64LeO32, XLoad64LeZ, XLoad8S32G32,
    XLoad8S32G32Bne, XLoad8S32O32, XLoad8S32Z, XLoad8U32G32, XLoad8U32G32Bne,
    XLoad8U32O32, XLoad8U32Z, XStore16BeO32, XStore16LeG32, XStore16LeG32Bne,
    XStore16LeO32, XStore16LeZ, XStore32BeO32, XStore32LeG32, XStore32LeG32Bne,
    XStore32LeO32, XStore32LeZ, XStore64BeO32, XStore64LeG32, XStore64LeG32Bne,
    XStore64LeO32, XStore64LeZ, XStore8G32, XStore8G32Bne, XStore8O32, XStore8Z,
};
use crate::interp::machine::{AddressingMode, Interpreter};
use crate::interp::regs::{AddrG32, AddrG32Bne, AddrO32, AddrZ, FReg, VReg, XReg};
use crate::interp::state::{Done, TrapKind};
use core::ops::ControlFlow;
use vstd::prelude::*;

verus! {

impl Interpreter {
    /// Loads a byte at a register plus a constant and zero-extends it to
    /// 32 bits.
    pub fn xload8_u32_o32(&mut self, dst: XReg, addr: AddrO32) -> (r: ControlFlow<Done>)
        requires
            old(self)@.can_access(addr, 1),
        ensures
            match addr.spec_addr(old(self)@.state, 1) {
                Some(a) => {
                    let val = old(self)@.state.value_at::<u8>(a);
                    r is Continue && final(self)@ == old(self)@.set_x_u32(
                        dst.spec_index(),
                        val as u32,
                    )
                },
                None => r is Break && final(self)@ == old(self)@.trapped(
                    XLoad8U32O32::spec_width(),
                    Some(TrapKind::MemoryOutOfBounds),
                ),
            },
    {
        let val = match self.load::<u8, XLoad8U32O32, AddrO32>(addr) {
            ControlFlow::Continue(val) => val,
            ControlFlow::Break(done) => {
                return ControlFlow::Break(done);
            },
        };
        self.set_x_u32(dst, val as u32);
        ControlFlow::Continue(())
    }

    /// Loads a byte at a register plus a constant and sign-extends it to
    /// 32 bits.
    pub fn xload8_s32_o32(&mut self, dst: XReg, addr: AddrO32) -> (r: ControlFlow<Done>)
        requires
            old(self)@.can_access(addr, 1),
        ensures
            match addr.spec_addr(old(self)@.state, 1) {
                Some(a) => {
                    let val = old(self)@.state.value_at::<u8>(a);
                    r is Continue && final(self)@ == old(self)@.set_x_i32(
                        dst.spec_index(),
                        (val as i8) as i32,
                    )
                },
                None => r is Break && final(self)@ == old(self)@.trapped(
                    XLoad8S32O32::spec_width(),
                    Some(TrapKind::MemoryOutOfBounds),
                ),
            },
    {
        let val = match self.load::<u8, XLoad8S32O32, AddrO32>(addr) {
            ControlFlow::Continue(val) => val,
            ControlFlow::Break(done) => {
                return ControlFlow::Break(done);
            },
        };
        let signed = #[verifier::truncate]
        (val as i8);
        self.set_x_i32(dst, signed as i32);
        ControlFlow::Continue(())
    }

    /// Loads a little-endian 16-bit number at a register plus a constant
    /// and zero-extends it to 32 bits.
    pub fn xload16le_u32_o32(&mut self, dst: XReg, addr: AddrO32) -> (r: ControlFlow<Done>)
        requires
            old(self)@.can_access(addr, 2),
        ensures
            match addr.spec_addr(old(self)@.state, 2) {
                Some(a) => {
                    let val = old(self)@.state.value_at::<u16>(a);
                    r is Continue && final(self)@ == old(self)@.set_x_u32(
                        dst.spec_index(),
                        val as u32,
                    )
                },
                None => r is Break && final(self)@ == old(self)@.trapped(
                    XLoad16LeU32O32::spec_width(),
                    Some(TrapKind::MemoryOutOfBounds),
                ),
            },
    {
        let val = match self.load::<u16, XLoad16LeU32O32, AddrO32>(addr) {
            ControlFlow::Continue(val) => val,
            ControlFlow::Break(done) => {
                return ControlFlow::Break(done);
            },
        };
        self.set_x_u32(dst, val as u32);
        ControlFlow::Continue(())
    }

    /// Loads a little-endian 16-bit number at a register plus a constant
    /// and sign-extends it to 32 bits.
    pub fn xload16le_s32_o32(&mut self, dst: XReg, addr: AddrO32) -> (r: ControlFlow<Done>)
        requires
            old(self)@.can_access(addr, 2),
        ensures
            match addr.spec_addr(old(self)@.state, 2) {
                Some(a) => {
                    let val = old(self)@.state.value_at::<u16>(a);
                    r is Continue && final(self)@ == old(self)@.set_x_i32(
                        dst.spec_index(),
                        (val as i16) as i32,
                    )
                },
                None => r is Break && final(self)@ == old(self)@.trapped(
                    XLoad16LeS32O32::spec_width(),
                    Some(TrapKind::MemoryOutOfBounds),
                ),
            },
    {
        let val = match self.load::<u16, XLoad16LeS32O32, AddrO32>(addr) {
            ControlFlow::Continue(val) => val,
            ControlFlow::Break(done) => {
                return ControlFlow::Break(done);
            },
        };
        let signed = #[verifier::truncate]
        (val as i16);
        self.set_x_i32(dst, signed as i32);
        ControlFlow::Continue(())
    }

    /// Loads a little-endian 32-bit number at a register plus a constant.
    pub fn xload32le_o32(&mut self, dst: XReg, addr: AddrO32) -> (r: ControlFlow<Done>)
        requires
            old(self)@.can_access(addr, 4),
        ensures
            match addr.spec_addr(old(self)@.state, 4) {
                Some(a) => {
                    let val = old(self)@.state.value_at::<i32>(a);
                    r is Continue && final(self)@ == old(self)@.set_x_i32(dst.spec_index(), val)
                },
                None => r is Break && final(self)@ == old(self)@.trapped(
                    XLoad32LeO32::spec_width(),
                    Some(TrapKind::MemoryOutOfBounds),
                ),
            },
    {
        let val = match self.load::<i32, XLoad32LeO32, AddrO32>(addr) {
            ControlFlow::Continue(val) => val,
            ControlFlow::Break(done) => {
                return ControlFlow::Break(done);
            },
        };
        self.set_x_i32(dst, val);
        ControlFlow::Continue(())
    }

    /// Loads a little-endian 64-bit number at a register plus a constant.
    pub fn xload64le_o32(&mut self, dst: XReg, addr: AddrO32) -> (r: ControlFlow<Done>)
        requires
            old(self)@.can_access(addr, 8),
        ensures
            match addr.spec_addr(old(self)@.state, 8) {
                Some(a) => {
                    let val = old(self)@.state.value_at::<i64>(a);
                    r is Continue && final(self)@ == old(self)@.set_x_i64(dst.spec_index(), val)
                },
                None => r is Break && final(self)@ == old(self)@.trapped(
                    XLoad64LeO32::spec_width(),
                    Some(TrapKind::MemoryOutOfBounds),
                ),
            },
    {
        let val = match self.load::<i64, XLoad64LeO32, AddrO32>(addr) {
            ControlFlow::Continue(val) => val,
            ControlFlow::Break(done) => {
                return ControlFlow::Break(done);
            },
        };
        self.set_x_i64(dst, val);
        ControlFlow::Continue(())
    }

    /// Stores the low byte of a register at a register plus a constant.
    pub fn xstore8_o32(&mut self, addr: AddrO32, val: XReg) -> (r: ControlFlow<Done>)
        requires
            old(self)@.can_access(addr, 1),
        ensures
            match addr.spec_addr(old(self)@.state, 1) {
                Some(a) => r is Continue && final(self)@ == old(self)@.written::<u8>(
                    a,
                    old(self)@.x_u32(val.spec_index()) as u8,
                ),
                None => r is Break && final(self)@ == old(self)@.trapped(
                    XStore8O32::spec_width(),
                    Some(TrapKind::MemoryOutOfBounds),
                ),
            },
    {
        let val = #[verifier::truncate]
        (self.x_u32(val) as u8);
        self.store::<u8, XStore8O32, AddrO32>(addr, val)
    }

    /// Stores the low 16 bits of a register, in little-endian order, at a
    /// register plus a constant.
    pub fn xstore16le_o32(&mut self, addr: AddrO32, val: XReg) -> (r: ControlFlow<Done>)
        requires
            old(self)@.can_access(addr, 2),
        ensures
            match addr.spec_addr(old(self)@.state, 2) {
                Some(a) => r is Continue && final(self)@ == old(self)@.written::<u16>(
                    a,
                    old(self)@.x_u32(val.spec_index()) as u16,
                ),
                None => r is Break && final(self)@ == old(self)@.trapped(
                    XStore16LeO32::spec_width(),
                    Some(TrapKind::MemoryOutOfBounds),
                ),
            },
    {
        let val = #[verifier::truncate]
        (self.x_u32(val) as u16);
        self.store::<u16, XStore16LeO32, AddrO32>(addr, val)
    }

    /// Stores the low 32 bits of a register, in little-endian order, at a
    /// register plus a constant.
    pub fn xstore32le_o32(&mut self, addr: AddrO32, val: XReg) -> (r: ControlFlow<Done>)
        requires
            old(self)@.can_access(addr, 4),
        ensures
            match addr.spec_addr(old(self)@.state, 4) {
                Some(a) => r is Continue && final(self)@ == old(self)@.written::<u32>(
                    a,
                    old(self)@.x_u32(val.spec_index()),
                ),
                None => r is Break && final(self)@ == old(self)@.trapped(
                    XStore32LeO32::spec_width(),
                    Some(TrapKind::MemoryOutOfBounds),
                ),
            },
    {
        let val = self.x_u32(val);
        self.store::<u32, XStore32LeO32, AddrO32>(addr, val)
    }

    /// Stores a register, in little-endian order, at a register plus a
    /// constant.
    pub fn xstore64le_o32(&mut self, addr: AddrO32, val: XReg) -> (r: ControlFlow<Done>)
        requires
            old(self)@.can_access(addr, 8),
        ensures
            match addr.spec_addr(old(self)@.state, 8) {
                Some(a) => r is Continue && final(self)@ == old(self)@.written::<u64>(
                    a,
                    old(self)@.x_u64(val.spec_index()),
                ),
                None => r is Break && final(self)@ == old(self)@.trapped(
                    XStore64LeO32::spec_width(),
                    Some(TrapKind::MemoryOutOfBounds),
                ),
            },
    {
        let val = self.x_u64(val);
        self.store::<u64, XStore64LeO32, AddrO32>(addr, val)
    }

    /// Loads a byte at a register plus a constant, trapping if the
    /// register is null and zero-extends it to 32 bits.
    pub fn xload8_u32_z(&mut self, dst: XReg, addr: AddrZ) -> (r: ControlFlow<Done>)
        requires
            old(self)@.can_access(addr, 1),
        ensures
            match addr.spec_addr(old(self)@.state, 1) {
                Some(a) => {
                    let val = old(self)@.state.value_at::<u8>(a);
                    r is Continue && final(self)@ == old(self)@.set_x_u32(
                        dst.spec_index(),
                        val as u32,
                    )
                },
                None => r is Break && final(self)@ == old(self)@.trapped(
                    XLoad8U32Z::spec_width(),
                    Some(TrapKind::MemoryOutOfBounds),
                ),
            },
    {
        let val = match self.load::<u8, XLoad8U32Z, AddrZ>(addr) {
            ControlFlow::Continue(val) => val,
            ControlFlow::Break(done) => {
                return ControlFlow::Break(done);
            },
        };
        self.set_x_u32(dst, val as u32);
        ControlFlow::Continue(())
    }

    /// Loads a byte at a register plus a constant, trapping if the
    /// register is null and sign-extends it to 32 bits.
    pub fn xload8_s32_z(&mut self, dst: XReg, addr: AddrZ) -> (r: ControlFlow<Done>)
        requires
            old(self)@.can_access(addr, 1),
        ensures
            match addr.spec_addr(old(self)@.state, 1) {
                Some(a) => {
                    let val = old(self)@.state.value_at::<u8>(a);
                    r is Continue && final(self)@ == old(self)@.set_x_i32(
                        dst.spec_index(),
                        (val as i8) as i32,
                    )
                },
                None => r is Break && final(self)@ == old(self)@.trapped(
                    XLoad8S32Z::spec_width(),
                    Some(TrapKind::MemoryOutOfBounds),
                ),
            },
    {
        let val = match self.load::<u8, XLoad8S32Z, AddrZ>(addr) {
            ControlFlow::Continue(val) => val,
            ControlFlow::Break(done) => {
                return ControlFlow::Break(done);
            },
        };
        let signed = #[verifier::truncate]
        (val as i8);
        self.set_x_i32(dst, signed as i32);
        ControlFlow::Continue(())
    }

    /// Loads a little-endian 16-bit number at a register plus a constant,
    /// trapping if the register is null and zero-extends it to 32 bits.
    pub fn xload16le_u32_z(&mut self, dst: XReg, addr: AddrZ) -> (r: ControlFlow<Done>)
        requires
            old(self)@.can_access(addr, 2),
        ensures
            match addr.spec_addr(old(self)@.state, 2) {
                Some(a) => {
                    let val = old(self)@.state.value_at::<u16>(a);
                    r is Continue && final(self)@ == old(self)@.set_x_u32(
                        dst.spec_index(),
                        val as u32,
                    )
                },
                None => r is Break && final(self)@ == old(self)@.trapped(
                    XLoad16LeU32Z::spec_width(),
                    Some(TrapKind::MemoryOutOfBounds),
                ),
            },
    {
        let val = match self.load::<u16, XLoad16LeU32Z, AddrZ>(addr) {
            ControlFlow::Continue(val) => val,
            ControlFlow::Break(done) => {
                return ControlFlow::Break(done);
            },
        };
        self.set_x_u32(dst, val as u32);
        ControlFlow::Continue(())
    }

    /// Loads a little-endian 16-bit number at a register plus a constant,
    /// trapping if the register is null and sign-extends it to 32 bits.
    pub fn xload16le_s32_z(&mut self, dst: XReg, addr: AddrZ) -> (r: ControlFlow<Done>)
        requires
            old(self)@.can_access(addr, 2),
        ensures
            match addr.spec_addr(old(self)@.state, 2) {
                Some(a) => {
                    let val = old(self)@.state.value_at::<u16>(a);
                    r is Continue && final(self)@ == old(self)@.set_x_i32(
                        dst.spec_index(),
                        (val as i16) as i32,
                    )
                },
                None => r is Break && final(self)@ == old(self)@.trapped(
                    XLoad16LeS32Z::spec_width(),
                    Some(TrapKind::MemoryOutOfBounds),
                ),
            },
    {
        let val = match self.load::<u16, XLoad16LeS32Z, AddrZ>(addr) {
            ControlFlow::Continue(val) => val,
            ControlFlow::Break(done) => {
                return ControlFlow::Break(done);
            },
        };
        let signed = #[verifier::truncate]
        (val as i16);
        self.set_x_i32(dst, signed as i32);
        ControlFlow::Continue(())
    }

    /// Loads a little-endian 32-bit number at a register plus a constant,
    /// trapping if the register is null.
    pub fn xload32le_z(&mut self, dst: XReg, addr: AddrZ) -> (r: ControlFlow<Done>)
        requires
            old(self)@.can_access(addr, 4),
        ensures
            match addr.spec_addr(old(self)@.state, 4) {
                Some(a) => {
                    let val = old(self)@.state.value_at::<i32>(a);
                    r is Continue && final(self)@ == old(self)@.set_x_i32(dst.spec_index(), val)
                },
                None => r is Break && final(self)@ == old(self)@.trapped(
                    XLoad32LeZ::spec_width(),
                    Some(TrapKind::MemoryOutOfBounds),
                ),
            },
    {
        let val = match self.load::<i32, XLoad32LeZ, AddrZ>(addr) {
            ControlFlow::Continue(val) => val,
            ControlFlow::Break(done) => {
                return ControlFlow::Break(done);
            },
        };
        self.set_x_i32(dst, val);
        ControlFlow::Continue(())
    }

    /// Loads a little-endian 64-bit number at a register plus a constant,
    /// trapping if the register is null.
    pub fn xload64le_z(&mut self, dst: XReg, addr: AddrZ) -> (r: ControlFlow<Done>)
        requires
            old(self)@.can_access(addr, 8),
        ensures
            match addr.spec_addr(old(self)@.state, 8) {
                Some(a) => {
                    let val = old(self)@.state.value_at::<i64>(a);
                    r is Continue && final(self)@ == old(self)@.set_x_i64(dst.spec_index(), val)
                },
                None => r is Break && final(self)@ == old(self)@.trapped(
                    XLoad64LeZ::spec_width(),
                    Some(TrapKind::MemoryOutOfBounds),
                ),
            },
    {
        let val = match self.load::<i64, XLoad64LeZ, AddrZ>(addr) {
            ControlFlow::Continue(val) => val,
            ControlFlow::Break(done) => {
                return ControlFlow::Break(done);
            },
        };
        self.set_x_i64(dst, val);
        ControlFlow::Continue(())
    }

    /// Stores the low byte of a register at a register plus a constant,
    /// trapping if the register is null.
    pub fn xstore8_z(&mut self, addr: AddrZ, val: XReg) -> (r: ControlFlow<Done>)
        requires
            old(self)@.can_access(addr, 1),
        ensures
            match addr.spec_addr(old(self)@.state, 1) {
                Some(a) => r is Continue && final(self)@ == old(self)@.written::<u8>(
                    a,
                    old(self)@.x_u32(val.spec_index()) as u8,
                ),
                None => r is Break && final(self)@ == old(self)@.trapped(
                    XStore8Z::spec_width(),
                    Some(TrapKind::MemoryOutOfBounds),
                ),
            },
    {
        let val = #[verifier::truncate]
        (self.x_u32(val) as u8);
        self.store::<u8, XStore8Z, AddrZ>(addr, val)
    }

    /// Stores the low 16 bits of a register, in little-endian order, at a
    /// register plus a constant, trapping if the register is null.
    pub fn xstore16le_z(&mut self, addr: AddrZ, val: XReg) -> (r: ControlFlow<Done>)
        requires
            old(self)@.can_access(addr, 2),
        ensures
            match addr.spec_addr(old(self)@.state, 2) {
                Some(a) => r is Continue && final(self)@ == old(self)@.written::<u16>(
                    a,
                    old(self)@.x_u32(val.spec_index()) as u16,
                ),
                None => r is Break && final(self)@ == old(self)@.trapped(
                    XStore16LeZ::spec_width(),
                    Some(TrapKind::MemoryOutOfBounds),
                ),
            },
    {
        let val = #[verifier::truncate]
        (self.x_u32(val) as u16);
        self.store::<u16, XStore16LeZ, AddrZ>(addr, val)
    }

    /// Stores the low 32 bits of a register, in little-endian order, at a
    /// register plus a constant, trapping if the register is null.
    pub fn xstore32le_z(&mut self, addr: AddrZ, val: XReg) -> (r: ControlFlow<Done>)
        requires
            old(self)@.can_access(addr, 4),
        ensures
            match addr.spec_addr(old(self)@.state, 4) {
                Some(a) => r is Continue && final(self)@ == old(self)@.written::<u32>(
                    a,
                    old(self)@.x_u32(val.spec_index()),
                ),
                None => r is Break && final(self)@ == old(self)@.trapped(
                    XStore32LeZ::spec_width(),
                    Some(TrapKind::MemoryOutOfBounds),
                ),
            },
    {
        let val = self.x_u32(val);
        self.store::<u32, XStore32LeZ, AddrZ>(addr, val)
    }

    /// Stores a register, in little-endian order, at a register plus a
    /// constant, trapping if the register is null.
    pub fn xstore64le_z(&mut self, addr: AddrZ, val: XReg) -> (r: ControlFlow<Done>)
        requires
            old(self)@.can_access(addr, 8),
        ensures
            match addr.spec_addr(old(self)@.state, 8) {
                Some(a) => r is Continue && final(self)@ == old(self)@.written::<u64>(
                    a,
                    old(self)@.x_u64(val.spec_index()),
                ),
                None => r is Break && final(self)@ == old(self)@.trapped(
                    XStore64LeZ::spec_width(),
                    Some(TrapKind::MemoryOutOfBounds),
                ),
            },
    {
        let val = self.x_u64(val);
        self.store::<u64, XStore64LeZ, AddrZ>(addr, val)
    }

    /// Loads a byte in a heap, with the offset checked against the bound
    /// in a register and zero-extends it to 32 bits.
    pub fn xload8_u32_g32(&mut self, dst: XReg, addr: AddrG32) -> (r: ControlFlow<Done>)
        requires
            old(self)@.can_access(addr, 1),
        ensures
            match addr.spec_addr(old(self)@.state, 1) {
                Some(a) => {
                    let val = old(self)@.state.value_at::<u8>(a);
                    r is Continue && final(self)@ == old(self)@.set_x_u32(
                        dst.spec_index(),
                        val as u32,
                    )
                },
                None => r is Break && final(self)@ == old(self)@.trapped(
                    XLoad8U32G32::spec_width(),
                    Some(TrapKind::MemoryOutOfBounds),
                ),
            },
    {
        let val = match self.load::<u8, XLoad8U32G32, AddrG32>(addr) {
            ControlFlow::Continue(val) => val,
            ControlFlow::Break(done) => {
                return ControlFlow::Break(done);
            },
        };
        self.set_x_u32(dst, val as u32);
        ControlFlow::Continue(())
    }

    /// Loads a byte in a heap, with the offset checked against the bound
    /// in a register and sign-extends it to 32 bits.
    pub fn xload8_s32_g32(&mut self, dst: XReg, addr: AddrG32) -> (r: ControlFlow<Done>)
        requires
            old(self)@.can_access(addr, 1),
        ensures
            match addr.spec_addr(old(self)@.state, 1) {
                Some(a) => {
                    let val = old(self)@.state.value_at::<u8>(a);
                    r is Continue && final(self)@ == old(self)@.set_x_i32(
                        dst.spec_index(),
                        (val as i8) as i32,
                    )
                },
                None => r is Break && final(self)@ == old(self)@.trapped(
                    XLoad8S32G32::spec_width(),
                    Some(TrapKind::MemoryOutOfBounds),
                ),
            },
    {
        let val = match self.load::<u8, XLoad8S32G32, AddrG32>(addr) {
            ControlFlow::Continue(val) => val,
            ControlFlow::Break(done) => {
                return ControlFlow::Break(done);
            },
        };
        let signed = #[verifier::truncate]
        (val as i8);
        self.set_x_i32(dst, signed as i32);
        ControlFlow::Continue(())
    }

    /// Loads a little-endian 16-bit number in a heap, with the offset
    /// checked against the bound in a register and zero-extends it to 32
    /// bits.
    pub fn xload16le_u32_g32(&mut self, dst: XReg, addr: AddrG32) -> (r: ControlFlow<Done>)
        requires
            old(self)@.can_access(addr, 2),
        ensures
            match addr.spec_addr(old(self)@.state, 2) {
                Some(a) => {
                    let val = old(self)@.state.value_at::<u16>(a);
                    r is Continue && final(self)@ == old(self)@.set_x_u32(
                        dst.spec_index(),
                        val as u32,
                    )
                },
                None => r is Break && final(self)@ == old(self)@.trapped(
                    XLoad16LeU32G32::spec_width(),
                    Some(TrapKind::MemoryOutOfBounds),
                ),
            },
    {
        let val = match self.load::<u16, XLoad16LeU32G32, AddrG32>(addr) {
            ControlFlow::Continue(val) => val,
            ControlFlow::Break(done) => {
                return ControlFlow::Break(done);
            },
        };
        self.set_x_u32(dst, val as u32);
        ControlFlow::Continue(())
    }

    /// Loads a little-endian 16-bit number in a heap, with the offset
    /// checked against the bound in a register and sign-extends it to 32
    /// bits.
    pub fn xload16le_s32_g32(&mut self, dst: XReg, addr: AddrG32) -> (r: ControlFlow<Done>)
        requires
            old(self)@.can_access(addr, 2),
        ensures
            match addr.spec_addr(old(self)@.state, 2) {
                Some(a) => {
                    let val = old(self)@.state.value_at::<u16>(a);
                    r is Continue && final(self)@ == old(self)@.set_x_i32(
                        dst.spec_index(),
                        (val as i16) as i32,
                    )
                },
                None => r is Break && final(self)@ == old(self)@.trapped(
                    XLoad16LeS32G32::spec_width(),
                    Some(TrapKind::MemoryOutOfBounds),
                ),
            },
    {
        let val = match self.load::<u16, XLoad16LeS32G32, AddrG32>(addr) {
            ControlFlow::Continue(val) => val,
            ControlFlow::Break(done) => {
                return ControlFlow::Break(done);
            },
        };
        let signed = #[verifier::truncate]
        (val as i16);
        self.set_x_i32(dst, signed as i32);
        ControlFlow::Continue(())
    }

    /// Loads a little-endian 32-bit number in a heap, with the offset
    /// checked against the bound in a register.
    pub fn xload32le_g32(&mut self, dst: XReg, addr: AddrG32) -> (r: ControlFlow<Done>)
        requires
            old(self)@.can_access(addr, 4),
        ensures
            match addr.spec_addr(old(self)@.state, 4) {
                Some(a) => {
                    let val = old(self)@.state.value_at::<i32>(a);
                    r is Continue && final(self)@ == old(self)@.set_x_i32(dst.spec_index(), val)
                },
                None => r is Break && final(self)@ == old(self)@.trapped(
                    XLoad32LeG32::spec_width(),
                    Some(TrapKind::MemoryOutOfBounds),
                ),
            },
    {
        let val = match self.load::<i32, XLoad32LeG32, AddrG32>(addr) {
            ControlFlow::Continue(val) => val,
            ControlFlow::Break(done) => {
                return ControlFlow::Break(done);
            },
        };
        self.set_x_i32(dst, val);
        ControlFlow::Continue(())
    }

    /// Loads a little-endian 64-bit number in a heap, with the offset
    /// checked against the bound in a register.
    pub fn xload64le_g32(&mut self, dst: XReg, addr: AddrG32) -> (r: ControlFlow<Done>)
        requires
            old(self)@.can_access(addr, 8),
        ensures
            match addr.spec_addr(old(self)@.state, 8) {
                Some(a) => {
                    let val = old(self)@.state.value_at::<i64>(a);
                    r is Continue && final(self)@ == old(self)@.set_x_i64(dst.spec_index(), val)
                },
                None => r is Break && final(self)@ == old(self)@.trapped(
                    XLoad64LeG32::spec_width(),
                    Some(TrapKind::MemoryOutOfBounds),
                ),
            },
    {
        let val = match self.load::<i64, XLoad64LeG32, AddrG32>(addr) {
            ControlFlow::Continue(val) => val,
            ControlFlow::Break(done) => {
                return ControlFlow::Break(done);
            },
        };
        self.set_x_i64(dst, val);
        ControlFlow::Continue(())
    }

    /// Stores the low byte of a register in a heap, with the offset
    /// checked against the bound in a register.
    pub fn xstore8_g32(&mut self, addr: AddrG32, val: XReg) -> (r: ControlFlow<Done>)
        requires
            old(self)@.can_access(addr, 1),
        ensures
            match addr.spec_addr(old(self)@.state, 1) {
                Some(a) => r is Continue && final(self)@ == old(self)@.written::<u8>(
                    a,
                    old(self)@.x_u32(val.spec_index()) as u8,
                ),
                None => r is Break && final(self)@ == old(self)@.trapped(
                    XStore8G32::spec_width(),
                    Some(TrapKind::MemoryOutOfBounds),
                ),
            },
    {
        let val = #[verifier::truncate]
        (self.x_u32(val) as u8);
        self.store::<u8, XStore8G32, AddrG32>(addr, val)
    }

    /// Stores the low 16 bits of a register, in little-endian order, in a
    /// heap, with the offset checked against the bound in a register.
    pub fn xstore16le_g32(&mut self, addr: AddrG32, val: XReg) -> (r: ControlFlow<Done>)
        requires
            old(self)@.can_access(addr, 2),
        ensures
            match addr.spec_addr(old(self)@.state, 2) {
                Some(a) => r is Continue && final(self)@ == old(self)@.written::<u16>(
                    a,
                    old(self)@.x_u32(val.spec_index()) as u16,
                ),
                None => r is Break && final(self)@ == old(self)@.trapped(
                    XStore16LeG32::spec_width(),
                    Some(TrapKind::MemoryOutOfBounds),
                ),
            },
    {
        let val = #[verifier::truncate]
        (self.x_u32(val) as u16);
        self.store::<u16, XStore16LeG32, AddrG32>(addr, val)
    }

    /// Stores the low 32 bits of a register, in little-endian order, in a
    /// heap, with the offset checked against the bound in a register.
    pub fn xstore32le_g32(&mut self, addr: AddrG32, val: XReg) -> (r: ControlFlow<Done>)
        requires
            old(self)@.can_access(addr, 4),
        ensures
            match addr.spec_addr(old(self)@.state, 4) {
                Some(a) => r is Continue && final(self)@ == old(self)@.written::<u32>(
                    a,
                    old(self)@.x_u32(val.spec_index()),
                ),
                None => r is Break && final(self)@ == old(self)@.trapped(
                    XStore32LeG32::spec_width(),
                    Some(TrapKind::MemoryOutOfBounds),
                ),
            },
    {
        let val = self.x_u32(val);
        self.store::<u32, XStore32LeG32, AddrG32>(addr, val)
    }

    /// Stores a register, in little-endian order, in a heap, with the
    /// offset checked against the bound in a register.
    pub fn xstore64le_g32(&mut self, addr: AddrG32, val: XReg) -> (r: ControlFlow<Done>)
        requires
            old(self)@.can_access(addr, 8),
        ensures
            match addr.spec_addr(old(self)@.state, 8) {
                Some(a) => r is Continue && final(self)@ == old(self)@.written::<u64>(
                    a,
                    old(self)@.x_u64(val.spec_index()),
                ),
                None => r is Break && final(self)@ == old(self)@.trapped(
                    XStore64LeG32::spec_width(),
                    Some(TrapKind::MemoryOutOfBounds),
                ),
            },
    {
        let val = self.x_u64(val);
        self.store::<u64, XStore64LeG32, AddrG32>(addr, val)
    }

    /// Loads a byte in a heap, with the offset checked against the bound
    /// in memory and zero-extends it to 32 bits.
    pub fn xload8_u32_g32bne(&mut self, dst: XReg, addr: AddrG32Bne) -> (r: ControlFlow<Done>)
        requires
            old(self)@.can_access(addr, 1),
        ensures
            match addr.spec_addr(old(self)@.state, 1) {
                Some(a) => {
                    let val = old(self)@.state.value_at::<u8>(a);
                    r is Continue && final(self)@ == old(self)@.set_x_u32(
                        dst.spec_index(),
                        val as u32,
                    )
                },
                None => r is Break && final(self)@ == old(self)@.trapped(
                    XLoad8U32G32Bne::spec_width(),
                    Some(TrapKind::MemoryOutOfBounds),
                ),
            },
    {
        let val = match self.load::<u8, XLoad8U32G32Bne, AddrG32Bne>(addr) {
            ControlFlow::Continue(val) => val,
            ControlFlow::Break(done) => {
                return ControlFlow::Break(done);
            },
        };
        self.set_x_u32(dst, val as u32);
        ControlFlow::Continue(())
    }

    /// Loads a byte in a heap, with the offset checked against the bound
    /// in memory and sign-extends it to 32 bits.
    pub fn xload8_s32_g32bne(&mut self, dst: XReg, addr: AddrG32Bne) -> (r: ControlFlow<Done>)
        requires
            old(self)@.can_access(addr, 1),
        ensures
            match addr.spec_addr(old(self)@.state, 1) {
                Some(a) => {
                    let val = old(self)@.state.value_at::<u8>(a);
                    r is Continue && final(self)@ == old(self)@.set_x_i32(
                        dst.spec_index(),
                        (val as i8) as i32,
                    )
                },
                None => r is Break && final(self)@ == old(self)@.trapped(
                    XLoad8S32G32Bne::spec_width(),
                    Some(TrapKind::MemoryOutOfBounds),
                ),
            },
    {
        let val = match self.load::<u8, XLoad8S32G32Bne, AddrG32Bne>(addr) {
            ControlFlow::Continue(val) => val,
            ControlFlow::Break(done) => {
                return ControlFlow::Break(done);
            },
        };
        let signed = #[verifier::truncate]
        (val as i8);
        self.set_x_i32(dst, signed as i32);
        ControlFlow::Continue(())
    }

    /// Loads a little-endian 16-bit number in a heap, with the offset
    /// checked against the bound in memory and zero-extends it to 32
    /// bits.
    pub fn xload16le_u32_g32bne(&mut self, dst: XReg, addr: AddrG32Bne) -> (r: ControlFlow<Done>)
        requires
            old(self)@.can_access(addr, 2),
        ensures
            match addr.spec_addr(old(self)@.state, 2) {
                Some(a) => {
                    let val = old(self)@.state.value_at::<u16>(a);
                    r is Continue && final(self)@ == old(self)@.set_x_u32(
                        dst.spec_index(),
                        val as u32,
                    )
                },
                None => r is Break && final(self)@ == old(self)@.trapped(
                    XLoad16LeU32G32Bne::spec_width(),
                    Some(TrapKind::MemoryOutOfBounds),
                ),
            },
    {
        let val = match self.load::<u16, XLoad16LeU32G32Bne, AddrG32Bne>(addr) {
            ControlFlow::Continue(val) => val,
            ControlFlow::Break(done) => {
                return ControlFlow::Break(done);
            },
        };
        self.set_x_u32(dst, val as u32);
        ControlFlow::Continue(())
    }

    /// Loads a little-endian 16-bit number in a heap, with the offset
    /// checked against the bound in memory and sign-extends it to 32
    /// bits.
    pub fn xload16le_s32_g32bne(&mut self, dst: XReg, addr: AddrG32Bne) -> (r: ControlFlow<Done>)
        requires
            old(self)@.can_access(addr, 2),
        ensures
            match addr.spec_addr(old(self)@.state, 2) {
                Some(a) => {
                    let val = old(self)@.state.value_at::<u16>(a);
                    r is Continue && final(self)@ == old(self)@.set_x_i32(
                        dst.spec_index(),
                        (val as i16) as i32,
                    )
                },
                None => r is Break && final(self)@ == old(self)@.trapped(
                    XLoad16LeS32G32Bne::spec_width(),
                    Some(TrapKind::MemoryOutOfBounds),
                ),
            },
    {
        let val = match self.load::<u16, XLoad16LeS32G32Bne, AddrG32Bne>(addr) {
            ControlFlow::Continue(val) => val,
            ControlFlow::Break(done) => {
                return ControlFlow::Break(done);
            },
        };
        let signed = #[verifier::truncate]
        (val as i16);
        self.set_x_i32(dst, signed as i32);
        ControlFlow::Continue(())
    }

    /// Loads a little-endian 32-bit number in a heap, with the offset
    /// checked against the bound in memory.
    pub fn xload32le_g32bne(&mut self, dst: XReg, addr: AddrG32Bne) -> (r: ControlFlow<Done>)
        requires
            old(self)@.can_access(addr, 4),
        ensures
            match addr.spec_addr(old(self)@.state, 4) {
                Some(a) => {
                    let val = old(self)@.state.value_at::<i32>(a);
                    r is Continue && final(self)@ == old(self)@.set_x_i32(dst.spec_index(), val)
                },
                None => r is Break && final(self)@ == old(self)@.trapped(
                    XLoad32LeG32Bne::spec_width(),
                    Some(TrapKind::MemoryOutOfBounds),
                ),
            },
    {
        let val = match self.load::<i32, XLoad32LeG32Bne, AddrG32Bne>(addr) {
            ControlFlow::Continue(val) => val,
            ControlFlow::Break(done) => {
                return ControlFlow::Break(done);
            },
        };
        self.set_x_i32(dst, val);
        ControlFlow::Continue(())
    }

    /// Loads a little-endian 64-bit number in a heap, with the offset
    /// checked against the bound in memory.
    pub fn xload64le_g32bne(&mut self, dst: XReg, addr: AddrG32Bne) -> (r: ControlFlow<Done>)
        requires
            old(self)@.can_access(addr, 8),
        ensures
            match addr.spec_addr(old(self)@.state, 8) {
                Some(a) => {
                    let val = old(self)@.state.value_at::<i64>(a);
                    r is Continue && final(self)@ == old(self)@.set_x_i64(dst.spec_index(), val)
                },
                None => r is Break && final(self)@ == old(self)@.trapped(
                    XLoad64LeG32Bne::spec_width(),
                    Some(TrapKind::MemoryOutOfBounds),
                ),
            },
    {
        let val = match self.load::<i64, XLoad64LeG32Bne, AddrG32Bne>(addr) {
            ControlFlow::Continue(val) => val,
            ControlFlow::Break(done) => {
                return ControlFlow::Break(done);
            },
        };
        self.set_x_i64(dst, val);
        ControlFlow::Continue(())
    }

    /// Stores the low byte of a register in a heap, with the offset
    /// checked against the bound in memory.
    pub fn xstore8_g32bne(&mut self, addr: AddrG32Bne, val: XReg) -> (r: ControlFlow<Done>)
        requires
            old(self)@.can_access(addr, 1),
        ensures
            match addr.spec_addr(old(self)@.state, 1) {
                Some(a) => r is Continue && final(self)@ == old(self)@.written::<u8>(
                    a,
                    old(self)@.x_u32(val.spec_index()) as u8,
                ),
                None => r is Break && final(self)@ == old(self)@.trapped(
                    XStore8G32Bne::spec_width(),
                    Some(TrapKind::MemoryOutOfBounds),
                ),
            },
    {
        let val = #[verifier::truncate]
        (self.x_u32(val) as u8);
        self.store::<u8, XStore8G32Bne, AddrG32Bne>(addr, val)
    }

    /// Stores the low 16 bits of a register, in little-endian order, in a
    /// heap, with the offset checked against the bound in memory.
    pub fn xstore16le_g32bne(&mut self, addr: AddrG32Bne, val: XReg) -> (r: ControlFlow<Done>)
        requires
            old(self)@.can_access(addr, 2),
        ensures
            match addr.spec_addr(old(self)@.state, 2) {
                Some(a) => r is Continue && final(self)@ == old(self)@.written::<u16>(
                    a,
                    old(self)@.x_u32(val.spec_index()) as u16,
                ),
                None => r is Break && final(self)@ == old(self)@.trapped(
                    XStore16LeG32Bne::spec_width(),
                    Some(TrapKind::MemoryOutOfBounds),
                ),
            },
    {
        let val = #[verifier::truncate]
        (self.x_u32(val) as u16);
        self.store::<u16, XStore16LeG32Bne, AddrG32Bne>(addr, val)
    }

    /// Stores the low 32 bits of a register, in little-endian order, in a
    /// heap, with the offset checked against the bound in memory.
    pub fn xstore32le_g32bne(&mut self, addr: AddrG32Bne, val: XReg) -> (r: ControlFlow<Done>)
        requires
            old(self)@.can_access(addr, 4),
        ensures
            match addr.spec_addr(old(self)@.state, 4) {
                Some(a) => r is Continue && final(self)@ == old(self)@.written::<u32>(
                    a,
                    old(self)@.x_u32(val.spec_index()),
                ),
                None => r is Break && final(self)@ == old(self)@.trapped(
                    XStore32LeG32Bne::spec_width(),
                    Some(TrapKind::MemoryOutOfBounds),
                ),
            },
    {
        let val = self.x_u32(val);
        self.store::<u32, XStore32LeG32Bne, AddrG32Bne>(addr, val)
    }

    /// Stores a register, in little-endian order, in a heap, with the
    /// offset checked against the bound in memory.
    pub fn xstore64le_g32bne(&mut self, addr: AddrG32Bne, val: XReg) -> (r: ControlFlow<Done>)
        requires
            old(self)@.can_access(addr, 8),
        ensures
            match addr.spec_addr(old(self)@.state, 8) {
                Some(a) => r is Continue && final(self)@ == old(self)@.written::<u64>(
                    a,
                    old(self)@.x_u64(val.spec_index()),
                ),
                None => r is Break && final(self)@ == old(self)@.trapped(
                    XStore64LeG32Bne::spec_width(),
                    Some(TrapKind::MemoryOutOfBounds),
                ),
            },
    {
        let val = self.x_u64(val);
        self.store::<u64, XStore64LeG32Bne, AddrG32Bne>(addr, val)
    }

    /// Loads a big-endian 16-bit number at a register plus a constant and
    /// zero-extends it to 32 bits.
    pub fn xload16be_u32_o32(&mut self, dst: XReg, addr: AddrO32) -> (r: ControlFlow<Done>)
        requires
            old(self)@.can_access(addr, 2),
        ensures
            match addr.spec_addr(old(self)@.state, 2) {
                Some(a) => {
                    let val = old(self)@.state.value_at::<u16>(a);
                    r is Continue && final(self)@ == old(self)@.set_x_u32(
                        dst.spec_index(),
                        spec_swap_bytes16(val) as u32,
                    )
                },
                None => r is Break && final(self)@ == old(self)@.trapped(
                    XLoad16BeU32O32::spec_width(),
                    Some(TrapKind::MemoryOutOfBounds),
                ),
            },
    {
        let val = match self.load::<u16, XLoad16BeU32O32, AddrO32>(addr) {
            ControlFlow::Continue(val) => val,
            ControlFlow::Break(done) => {
                return ControlFlow::Break(done);
            },
        };
        self.set_x_u32(dst, swap_bytes16(val) as u32);
        ControlFlow::Continue(())
    }

    /// Loads a big-endian 16-bit number at a register plus a constant and
    /// sign-extends it to 32 bits.
    pub fn xload16be_s32_o32(&mut self, dst: XReg, addr: AddrO32) -> (r: ControlFlow<Done>)
        requires
            old(self)@.can_access(addr, 2),
        ensures
            match addr.spec_addr(old(self)@.state, 2) {
                Some(a) => {
                    let val = old(self)@.state.value_at::<u16>(a);
                    r is Continue && final(self)@ == old(self)@.set_x_i32(
                        dst.spec_index(),
                        (spec_swap_bytes16(val) as i16) as i32,
                    )
                },
                None => r is Break && final(self)@ == old(self)@.trapped(
                    XLoad16BeS32O32::spec_width(),
                    Some(TrapKind::MemoryOutOfBounds),
                ),
            },
    {
        let val = match self.load::<u16, XLoad16BeS32O32, AddrO32>(addr) {
            ControlFlow::Continue(val) => val,
            ControlFlow::Break(done) => {
                return ControlFlow::Break(done);
            },
        };
        let signed = #[verifier::truncate]
        (swap_bytes16(val) as i16);
        self.set_x_i32(dst, signed as i32);
        ControlFlow::Continue(())
    }

    /// Loads a big-endian 32-bit number at a register plus a constant.
    pub fn xload32be_o32(&mut self, dst: XReg, addr: AddrO32) -> (r: ControlFlow<Done>)
        requires
            old(self)@.can_access(addr, 4),
        ensures
            match addr.spec_addr(old(self)@.state, 4) {
                Some(a) => {
                    let val = old(self)@.state.value_at::<u32>(a);
                    r is Continue && final(self)@ == old(self)@.set_x_u32(
                        dst.spec_index(),
                        spec_swap_bytes32(val),
                    )
                },
                None => r is Break && final(self)@ == old(self)@.trapped(
                    XLoad32BeO32::spec_width(),
                    Some(TrapKind::MemoryOutOfBounds),
                ),
            },
    {
        let val = match self.load::<u32, XLoad32BeO32, AddrO32>(addr) {
            ControlFlow::Continue(val) => val,
            ControlFlow::Break(done) => {
                return ControlFlow::Break(done);
            },
        };
        self.set_x_u32(dst, swap_bytes32(val));
        ControlFlow::Continue(())
    }

    /// Loads a big-endian 64-bit number at a register plus a constant.
    pub fn xload64be_o32(&mut self, dst: XReg, addr: AddrO32) -> (r: ControlFlow<Done>)
        requires
            old(self)@.can_access(addr, 8),
        ensures
            match addr.spec_addr(old(self)@.state, 8) {
                Some(a) => {
                    let val = old(self)@.state.value_at::<u64>(a);
                    r is Continue && final(self)@ == old(self)@.set_x_u64(
                        dst.spec_index(),
                        spec_swap_bytes64(val),
                    )
                },
                None => r is Break && final(self)@ == old(self)@.trapped(
                    XLoad64BeO32::spec_width(),
                    Some(TrapKind::MemoryOutOfBounds),
                ),
            },
    {
        let val = match self.load::<u64, XLoad64BeO32, AddrO32>(addr) {
            ControlFlow::Continue(val) => val,
            ControlFlow::Break(done) => {
                return ControlFlow::Break(done);
            },
        };
        self.set_x_u64(dst, swap_bytes64(val));
        ControlFlow::Continue(())
    }

    /// Stores the low 16 bits of a register, in big-endian order, at a
    /// register plus a constant.
    pub fn xstore16be_o32(&mut self, addr: AddrO32, val: XReg) -> (r: ControlFlow<Done>)
        requires
            old(self)@.can_access(addr, 2),
        ensures
            match addr.spec_addr(old(self)@.state, 2) {
                Some(a) => r is Continue && final(self)@ == old(self)@.written::<u16>(
                    a,
                    spec_swap_bytes16(old(self)@.x_u32(val.spec_index()) as u16),
                ),
                None => r is Break && final(self)@ == old(self)@.trapped(
                    XStore16BeO32::spec_width(),
                    Some(TrapKind::MemoryOutOfBounds),
                ),
            },
    {
        let low = #[verifier::truncate]
        (self.x_u32(val) as u16);
        let val = swap_bytes16(low);
        self.store::<u16, XStore16BeO32, AddrO32>(addr, val)
    }

    /// Stores the low 32 bits of a register, in big-endian order, at a
    /// register plus a constant.
    pub fn xstore32be_o32(&mut self, addr: AddrO32, val: XReg) -> (r: ControlFlow<Done>)
        requires
            old(self)@.can_access(addr, 4),
        ensures
            match addr.spec_addr(old(self)@.state, 4) {
                Some(a) => r is Continue && final(self)@ == old(self)@.written::<u32>(
                    a,
                    spec_swap_bytes32(old(self)@.x_u32(val.spec_index())),
                ),
                None => r is Break && final(self)@ == old(self)@.trapped(
                    XStore32BeO32::spec_width(),
                    Some(TrapKind::MemoryOutOfBounds),
                ),
            },
    {
        let val = swap_bytes32(self.x_u32(val));
        self.store::<u32, XStore32BeO32, AddrO32>(addr, val)
    }

    /// Stores a register, in big-endian order, at a register plus a
    /// constant.
    pub fn xstore64be_o32(&mut self, addr: AddrO32, val: XReg) -> (r: ControlFlow<Done>)
        requires
            old(self)@.can_access(addr, 8),
        ensures
            match addr.spec_addr(old(self)@.state, 8) {
                Some(a) => r is Continue && final(self)@ == old(self)@.written::<u64>(
                    a,
                    spec_swap_bytes64(old(self)@.x_u64(val.spec_index())),
                ),
                None => r is Break && final(self)@ == old(self)@.trapped(
                    XStore64BeO32::spec_width(),
                    Some(TrapKind::MemoryOutOfBounds),
                ),
            },
    {
        let val = swap_bytes64(self.x_u64(val));
        self.store::<u64, XStore64BeO32, AddrO32>(addr, val)
    }

    /// Loads the bits of a single-precision number, in little-endian
    /// order, at a register plus a constant.
    pub fn fload32le_o32(&mut self, dst: FReg, addr: AddrO32) -> (r: ControlFlow<Done>)
        requires
            old(self)@.can_access(addr, 4),
        ensures
            match addr.spec_addr(old(self)@.state, 4) {
                Some(a) => {
                    let val = old(self)@.state.value_at::<u32>(a);
                    r is Continue && final(self)@ == old(self)@.set_f32_bits(dst.spec_index(), val)
                },
                None => r is Break && final(self)@ == old(self)@.trapped(
                    Fload32LeO32::spec_width(),
                    Some(TrapKind::MemoryOutOfBounds),
                ),
            },
    {
        let val = match self.load::<u32, Fload32LeO32, AddrO32>(addr) {
            ControlFlow::Continue(val) => val,
            ControlFlow::Break(done) => {
                return ControlFlow::Break(done);
            },
        };
        self.set_f32_bits(dst, val);
        ControlFlow::Continue(())
    }

    /// Loads the bits of a double-precision number, in little-endian
    /// order, at a register plus a constant.
    pub fn fload64le_o32(&mut self, dst: FReg, addr: AddrO32) -> (r: ControlFlow<Done>)
        requires
            old(self)@.can_access(addr, 8),
        ensures
            match addr.spec_addr(old(self)@.state, 8) {
                Some(a) => {
                    let val = old(self)@.state.value_at::<u64>(a);
                    r is Continue && final(self)@ == old(self)@.set_f64_bits(dst.spec_index(), val)
                },
                None => r is Break && final(self)@ == old(self)@.trapped(
                    Fload64LeO32::spec_width(),
                    Some(TrapKind::MemoryOutOfBounds),
                ),
            },
    {
        let val = match self.load::<u64, Fload64LeO32, AddrO32>(addr) {
            ControlFlow::Continue(val) => val,
            ControlFlow::Break(done) => {
                return ControlFlow::Break(done);
            },
        };
        self.set_f64_bits(dst, val);
        ControlFlow::Continue(())
    }

    /// Stores the bits of a single-precision number, in little-endian
    /// order, at a register plus a constant.
    pub fn fstore32le_o32(&mut self, addr: AddrO32, src: FReg) -> (r: ControlFlow<Done>)
        requires
            old(self)@.can_access(addr, 4),
        ensures
            match addr.spec_addr(old(self)@.state, 4) {
                Some(a) => r is Continue && final(self)@ == old(self)@.written::<u32>(
                    a,
                    old(self)@.state.f[src.spec_index()].bits as u32,
                ),
                None => r is Break && final(self)@ == old(self)@.trapped(
                    Fstore32LeO32::spec_width(),
                    Some(TrapKind::MemoryOutOfBounds),
                ),
            },
    {
        let val = self.f(src).get_f32_bits();
        self.store::<u32, Fstore32LeO32, AddrO32>(addr, val)
    }

    /// Stores the bits of a double-precision number, in little-endian
    /// order, at a register plus a constant.
    pub fn fstore64le_o32(&mut self, addr: AddrO32, src: FReg) -> (r: ControlFlow<Done>)
        requires
            old(self)@.can_access(addr, 8),
        ensures
            match addr.spec_addr(old(self)@.state, 8) {
                Some(a) => r is Continue && final(self)@ == old(self)@.written::<u64>(
                    a,
                    old(self)@.state.f[src.spec_index()].bits,
                ),
                None => r is Break && final(self)@ == old(self)@.trapped(
                    Fstore64LeO32::spec_width(),
                    Some(TrapKind::MemoryOutOfBounds),
                ),
            },
    {
        let val = self.f(src).get_f64_bits();
        self.store::<u64, Fstore64LeO32, AddrO32>(addr, val)
    }

    /// Loads a 128-bit vector, in little-endian order, at a register plus
    /// a constant.
    pub fn vload128le_o32(&mut self, dst: VReg, addr: AddrO32) -> (r: ControlFlow<Done>)
        requires
            old(self)@.can_access(addr, 16),
        ensures
            match addr.spec_addr(old(self)@.state, 16) {
                Some(a) => {
                    let val = old(self)@.state.value_at::<u128>(a);
                    r is Continue && final(self)@ == old(self)@.set_v128(dst.spec_index(), val)
                },
                None => r is Break && final(self)@ == old(self)@.trapped(
                    VLoad128LeO32::spec_width(),
                    Some(TrapKind::MemoryOutOfBounds),
                ),
            },
    {
        let val = match self.load::<u128, VLoad128LeO32, AddrO32>(addr) {
            ControlFlow::Continue(val) => val,
            ControlFlow::Break(done) => {
                return ControlFlow::Break(done);
            },
        };
        self.set_v128(dst, val);
        ControlFlow::Continue(())
    }

    /// Stores a 128-bit vector, in little-endian order, at a register
    /// plus a constant.
    pub fn vstore128le_o32(&mut self, addr: AddrO32, src: VReg) -> (r: ControlFlow<Done>)
        requires
            old(self)@.can_access(addr, 16),
        ensures
            match addr.spec_addr(old(self)@.state, 16) {
                Some(a) => r is Continue && final(self)@ == old(self)@.written::<u128>(
                    a,
                    old(self)@.state.v[src.spec_index()].bits,
                ),
                None => r is Break && final(self)@ == old(self)@.trapped(
                    Vstore128LeO32::spec_width(),
                    Some(TrapKind::MemoryOutOfBounds),
                ),
            },
    {
        let val = self.v(src).get_u128();
        self.store::<u128, Vstore128LeO32, AddrO32>(addr, val)
    }

    /// Loads the bits of a single-precision number, in little-endian
    /// order, at a register plus a constant, trapping if the register is
    /// null.
    pub fn fload32le_z(&mut self, dst: FReg, addr: AddrZ) -> (r: ControlFlow<Done>)
        requires
            old(self)@.can_access(addr, 4),
        ensures
            match addr.spec_addr(old(self)@.state, 4) {
                Some(a) => {
                    let val = old(self)@.state.value_at::<u32>(a);
                    r is Continue && final(self)@ == old(self)@.set_f32_bits(dst.spec_index(), val)
                },
                None => r is Break && final(self)@ == old(self)@.trapped(
                    Fload32LeZ::spec_width(),
                    Some(TrapKind::MemoryOutOfBounds),
                ),
            },
    {
        let val = match self.load::<u32, Fload32LeZ, AddrZ>(addr) {
            ControlFlow::Continue(val) => val,
            ControlFlow::Break(done) => {
                return ControlFlow::Break(done);
            },
        };
        self.set_f32_bits(dst, val);
        ControlFlow::Continue(())
    }

    /// Loads the bits of a double-precision number, in little-endian
    /// order, at a register plus a constant, trapping if the register is
    /// null.
    pub fn fload64le_z(&mut self, dst: FReg, addr: AddrZ) -> (r: ControlFlow<Done>)
        requires
            old(self)@.can_access(addr, 8),
        ensures
            match addr.spec_addr(old(self)@.state, 8) {
                Some(a) => {
                    let val = old(self)@.state.value_at::<u64>(a);
                    r is Continue && final(self)@ == old(self)@.set_f64_bits(dst.spec_index(), val)
                },
                None => r is Break && final(self)@ == old(self)@.trapped(
                    Fload64LeZ::spec_width(),
                    Some(TrapKind::MemoryOutOfBounds),
                ),
            },
    {
        let val = match self.load::<u64, Fload64LeZ, AddrZ>(addr) {
            ControlFlow::Continue(val) => val,
            ControlFlow::Break(done) => {
                return ControlFlow::Break(done);
            },
        };
        self.set_f64_bits(dst, val);
        ControlFlow::Continue(())
    }

    /// Stores the bits of a single-precision number, in little-endian
    /// order, at a register plus a constant, trapping if the register is
    /// null.
    pub fn fstore32le_z(&mut self, addr: AddrZ, src: FReg) -> (r: ControlFlow<Done>)
        requires
            old(self)@.can_access(addr, 4),
        ensures
            match addr.spec_addr(old(self)@.state, 4) {
                Some(a) => r is Continue && final(self)@ == old(self)@.written::<u32>(
                    a,
                    old(self)@.state.f[src.spec_index()].bits as u32,
                ),
                None => r is Break && final(self)@ == old(self)@.trapped(
                    Fstore32LeZ::spec_width(),
                    Some(TrapKind::MemoryOutOfBounds),
                ),
            },
    {
        let val = self.f(src).get_f32_bits();
        self.store::<u32, Fstore32LeZ, AddrZ>(addr, val)
    }

    /// Stores the bits of a double-precision number, in little-endian
    /// order, at a register plus a constant, trapping if the register is
    /// null.
    pub fn fstore64le_z(&mut self, addr: AddrZ, src: FReg) -> (r: ControlFlow<Done>)
        requires
            old(self)@.can_access(addr, 8),
        ensures
            match addr.spec_addr(old(self)@.state, 8) {
                Some(a) => r is Continue && final(self)@ == old(self)@.written::<u64>(
                    a,
                    old(self)@.state.f[src.spec_index()].bits,
                ),
                None => r is Break && final(self)@ == old(self)@.trapped(
                    Fstore64LeZ::spec_width(),
                    Some(TrapKind::MemoryOutOfBounds),
                ),
            },
    {
        let val = self.f(src).get_f64_bits();
        self.store::<u64, Fstore64LeZ, AddrZ>(addr, val)
    }

    /// Loads a 128-bit vector, in little-endian order, at a register plus
    /// a constant, trapping if the register is null.
    pub fn vload128le_z(&mut self, dst: VReg, addr: AddrZ) -> (r: ControlFlow<Done>)
        requires
            old(self)@.can_access(addr, 16),
        ensures
            match addr.spec_addr(old(self)@.state, 16) {
                Some(a) => {
                    let val = old(self)@.state.value_at::<u128>(a);
                    r is Continue && final(self)@ == old(self)@.set_v128(dst.spec_index(), val)
                },
                None => r is Break && final(self)@ == old(self)@.trapped(
                    VLoad128LeZ::spec_width(),
                    Some(TrapKind::MemoryOutOfBounds),
                ),
            },
    {
        let val = match self.load::<u128, VLoad128LeZ, AddrZ>(addr) {
            ControlFlow::Continue(val) => val,
            ControlFlow::Break(done) => {
                return ControlFlow::Break(done);
            },
        };
        self.set_v128(dst, val);
        ControlFlow::Continue(())
    }

    /// Stores a 128-bit vector, in little-endian order, at a register
    /// plus a constant, trapping if the register is null.
    pub fn vstore128le_z(&mut self, addr: AddrZ, src: VReg) -> (r: ControlFlow<Done>)
        requires
            old(self)@.can_access(addr, 16),
        ensures
            match addr.spec_addr(old(self)@.state, 16) {
                Some(a) => r is Continue && final(self)@ == old(self)@.written::<u128>(
                    a,
                    old(self)@.state.v[src.spec_index()].bits,
                ),
                None => r is Break && final(self)@ == old(self)@.trapped(
                    Vstore128LeZ::spec_width(),
                    Some(TrapKind::MemoryOutOfBounds),
                ),
            },
    {
        let val = self.v(src).get_u128();
        self.store::<u128, Vstore128LeZ, AddrZ>(addr, val)
    }

    /// Loads the bits of a single-precision number, in little-endian
    /// order, in a heap, with the offset checked against the bound in a
    /// register.
    pub fn fload32le_g32(&mut self, dst: FReg, addr: AddrG32) -> (r: ControlFlow<Done>)
        requires
            old(self)@.can_access(addr, 4),
        ensures
            match addr.spec_addr(old(self)@.state, 4) {
                Some(a) => {
                    let val = old(self)@.state.value_at::<u32>(a);
                    r is Continue && final(self)@ == old(self)@.set_f32_bits(dst.spec_index(), val)
                },
                None => r is Break && final(self)@ == old(self)@.trapped(
                    Fload32LeG32::spec_width(),
                    Some(TrapKind::MemoryOutOfBounds),
                ),
            },
    {
        let val = match self.load::<u32, Fload32LeG32, AddrG32>(addr) {
            ControlFlow::Continue(val) => val,
            ControlFlow::Break(done) => {
                return ControlFlow::Break(done);
            },
        };
        self.set_f32_bits(dst, val);
        ControlFlow::Continue(())
    }

    /// Loads the bits of a double-precision number, in little-endian
    /// order, in a heap, with the offset checked against the bound in a
    /// register.
    pub fn fload64le_g32(&mut self, dst: FReg, addr: AddrG32) -> (r: ControlFlow<Done>)
        requires
            old(self)@.can_access(addr, 8),
        ensures
            match addr.spec_addr(old(self)@.state, 8) {
                Some(a) => {
                    let val = old(self)@.state.value_at::<u64>(a);
                    r is Continue && final(self)@ == old(self)@.set_f64_bits(dst.spec_index(), val)
                },
                None => r is Break && final(self)@ == old(self)@.trapped(
                    Fload64LeG32::spec_width(),
                    Some(TrapKind::MemoryOutOfBounds),
                ),
            },
    {
        let val = match self.load::<u64, Fload64LeG32, AddrG32>(addr) {
            ControlFlow::Continue(val) => val,
            ControlFlow::Break(done) => {
                return ControlFlow::Break(done);
            },
        };
        self.set_f64_bits(dst, val);
        ControlFlow::Continue(())
    }

    /// Stores the bits of a single-precision number, in little-endian
    /// order, in a heap, with the offset checked against the bound in a
    /// register.
    pub fn fstore32le_g32(&mut self, addr: AddrG32, src: FReg) -> (r: ControlFlow<Done>)
        requires
            old(self)@.can_access(addr, 4),
        ensures
            match addr.spec_addr(old(self)@.state, 4) {
                Some(a) => r is Continue && final(self)@ == old(self)@.written::<u32>(
                    a,
                    old(self)@.state.f[src.spec_index()].bits as u32,
                ),
                None => r is Break && final(self)@ == old(self)@.trapped(
                    Fstore32LeG32::spec_width(),
                    Some(TrapKind::MemoryOutOfBounds),
                ),
            },
    {
        let val = self.f(src).get_f32_bits();
        self.store::<u32, Fstore32LeG32, AddrG32>(addr, val)
    }

    /// Stores the bits of a double-precision number, in little-endian
    /// order, in a heap, with the offset checked against the bound in a
    /// register.
    pub fn fstore64le_g32(&mut self, addr: AddrG32, src: FReg) -> (r: ControlFlow<Done>)
        requires
            old(self)@.can_access(addr, 8),
        ensures
            match addr.spec_addr(old(self)@.state, 8) {
                Some(a) => r is Continue && final(self)@ == old(self)@.written::<u64>(
                    a,
                    old(self)@.state.f[src.spec_index()].bits,
                ),
                None => r is Break && final(self)@ == old(self)@.trapped(
                    Fstore64LeG32::spec_width(),
                    Some(TrapKind::MemoryOutOfBounds),
                ),
            },
    {
        let val = self.f(src).get_f64_bits();
        self.store::<u64, Fstore64LeG32, AddrG32>(addr, val)
    }

    /// Loads a 128-bit vector, in little-endian order, in a heap, with
    /// the offset checked against the bound in a register.
    pub fn vload128le_g32(&mut self, dst: VReg, addr: AddrG32) -> (r: ControlFlow<Done>)
        requires
            old(self)@.can_access(addr, 16),
        ensures
            match addr.spec_addr(old(self)@.state, 16) {
                Some(a) => {
                    let val = old(self)@.state.value_at::<u128>(a);
                    r is Continue && final(self)@ == old(self)@.set_v128(dst.spec_index(), val)
                },
                None => r is Break && final(self)@ == old(self)@.trapped(
                    VLoad128LeG32::spec_width(),
                    Some(TrapKind::MemoryOutOfBounds),
                ),
            },
    {
        let val = match self.load::<u128, VLoad128LeG32, AddrG32>(addr) {
            ControlFlow::Continue(val) => val,
            ControlFlow::Break(done) => {
                return ControlFlow::Break(done);
            },
        };
        self.set_v128(dst, val);
        ControlFlow::Continue(())
    }

    /// Stores a 128-bit vector, in little-endian order, in a heap, with
    /// the offset checked against the bound in a register.
    pub fn vstore128le_g32(&mut self, addr: AddrG32, src: VReg) -> (r: ControlFlow<Done>)
        requires
            old(self)@.can_access(addr, 16),
        ensures
            match addr.spec_addr(old(self)@.state, 16) {
                Some(a) => r is Continue && final(self)@ == old(self)@.written::<u128>(
                    a,
                    old(self)@.state.v[src.spec_index()].bits,
                ),
                None => r is Break && final(self)@ == old(self)@.trapped(
                    Vstore128LeG32::spec_width(),
                    Some(TrapKind::MemoryOutOfBounds),
                ),
            },
    {
        let val = self.v(src).get_u128();
        self.store::<u128, Vstore128LeG32, AddrG32>(addr, val)
    }

    /// Loads the bits of a single-precision number, in big-endian order,
    /// at a register plus a constant.
    pub fn fload32be_o32(&mut self, dst: FReg, addr: AddrO32) -> (r: ControlFlow<Done>)
        requires
            old(self)@.can_access(addr, 4),
        ensures
            match addr.spec_addr(old(self)@.state, 4) {
                Some(a) => {
                    let val = old(self)@.state.value_at::<u32>(a);
                    r is Continue && final(self)@ == old(self)@.set_f32_bits(
                        dst.spec_index(),
                        spec_swap_bytes32(val),
                    )
                },
                None => r is Break && final(self)@ == old(self)@.trapped(
                    Fload32BeO32::spec_width(),
                    Some(TrapKind::MemoryOutOfBounds),
                ),
            },
    {
        let val = match self.load::<u32, Fload32BeO32, AddrO32>(addr) {
            ControlFlow::Continue(val) => val,
            ControlFlow::Break(done) => {
                return ControlFlow::Break(done);
            },
        };
        self.set_f32_bits(dst, swap_bytes32(val));
        ControlFlow::Continue(())
    }

    /// Loads the bits of a double-precision number, in big-endian order,
    /// at a register plus a constant.
    pub fn fload64be_o32(&mut self, dst: FReg, addr: AddrO32) -> (r: ControlFlow<Done>)
        requires
            old(self)@.can_access(addr, 8),
        ensures
            match addr.spec_addr(old(self)@.state, 8) {
                Some(a) => {
                    let val = old(self)@.state.value_at::<u64>(a);
                    r is Continue && final(self)@ == old(self)@.set_f64_bits(
                        dst.spec_index(),
                        spec_swap_bytes64(val),
                    )
                },
                None => r is Break && final(self)@ == old(self)@.trapped(
                    Fload64BeO32::spec_width(),
                    Some(TrapKind::MemoryOutOfBounds),
                ),
            },
    {
        let val = match self.load::<u64, Fload64BeO32, AddrO32>(addr) {
            ControlFlow::Continue(val) => val,
            ControlFlow::Break(done) => {
                return ControlFlow::Break(done);
            },
        };
        self.set_f64_bits(dst, swap_bytes64(val));
        ControlFlow::Continue(())
    }

    /// Stores the bits of a single-precision number, in big-endian order,
    /// at a register plus a constant.
    pub fn fstore32be_o32(&mut self, addr: AddrO32, src: FReg) -> (r: ControlFlow<Done>)
        requires
            old(self)@.can_access(addr, 4),
        ensures
            match addr.spec_addr(old(self)@.state, 4) {
                Some(a) => r is Continue && final(self)@ == old(self)@.written::<u32>(
                    a,
                    spec_swap_bytes32(old(self)@.state.f[src.spec_index()].bits as u32),
                ),
                None => r is Break && final(self)@ == old(self)@.trapped(
                    Fstore32BeO32::spec_width(),
                    Some(TrapKind::MemoryOutOfBounds),
                ),
            },
    {
        let val = swap_bytes32(self.f(src).get_f32_bits());
        self.store::<u32, Fstore32BeO32, AddrO32>(addr, val)
    }

    /// Stores the bits of a double-precision number, in big-endian order,
    /// at a register plus a constant.
    pub fn fstore64be_o32(&mut self, addr: AddrO32, src: FReg) -> (r: ControlFlow<Done>)
        requires
            old(self)@.can_access(addr, 8),
        ensures
            match addr.spec_addr(old(self)@.state, 8) {
                Some(a) => r is Continue && final(self)@ == old(self)@.written::<u64>(
                    a,
                    spec_swap_bytes64(old(self)@.state.f[src.spec_index()].bits),
                ),
                None => r is Break && final(self)@ == old(self)@.trapped(
                    Fstore64BeO32::spec_width(),
                    Some(TrapKind::MemoryOutOfBounds),
                ),
            },
    {
        let val = swap_bytes64(self.f(src).get_f64_bits());
        self.store::<u64, Fstore64BeO32, AddrO32>(addr, val)
    }
}

} // verus!
