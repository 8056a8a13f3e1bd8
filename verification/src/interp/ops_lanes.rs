//! The handlers of the vector instructions that move lanes: between
//! registers, between lanes of different widths, and from memory.

use crate::interp::encode::{
    Encode, VLoad16x4LeSZ, VLoad16x4LeUZ, VLoad32x2LeSZ, VLoad32x2LeUZ, VLoad8x8SZ, VLoad8x8UZ,
};
use crate::interp::lanes::{
    bits16, bits32, bits64, bits8, clamp_i16, clamp_i32, clamp_i8, clamp_u16, clamp_u32,
    clamp_u8, signed16, signed32, signed64, signed8, spec_bitmask16, spec_bitmask32,
    spec_bitmask64, spec_bitmask8, spec_clamp_i16, spec_clamp_i32, spec_clamp_i8,
    spec_clamp_u16, spec_clamp_u32, spec_clamp_u8, spec_from_lanes16, spec_from_lanes32,
    spec_from_lanes64, spec_from_lanes8, spec_lane16, spec_lane32, spec_lane64, spec_lane8,
    spec_unarrow, unarrow,
};
use crate::interp::machine::{AddressingMode, Interpreter};
use crate::interp::regs::{AddrZ, BinaryOperands, FReg, VReg, XReg};
use crate::interp::state::{Done, TrapKind};
use crate::interp::value::VRegVal;
use core::ops::ControlFlow;
use vstd::prelude::*;

verus! {

impl Interpreter {
    /// Copies the low 8 bits of an integer register to each of 16 lanes.
    pub fn vsplatx8(&mut self, dst: VReg, src: XReg) -> (r: ControlFlow<Done>)
        ensures
            r is Continue,
            ({
                let val = old(self)@.x_u32(src.spec_index()) as u8;
                final(self)@ == old(self)@.set_v128(
                    dst.spec_index(),
                    spec_from_lanes8(Seq::new(16, |i: int| val), 16),
                )
            }),
    {
        let ghost val = self@.x_u32(src.spec_index()) as u8;
        let v = #[verifier::truncate]
                (self.x_u32(src) as u8);
        let mut c = [0u8;16];
        let mut i: usize = 0;
        while i < 16
            invariant
                i <= 16,
                v == val,
                forall|j: int| 0 <= j < i ==> #[trigger] c@[j] == (val),
            decreases 16 - i,
        {
            c[i] = v;
            i += 1;
        }
        proof {
            assert(c@ =~= Seq::new(16, |i: int| val));
        }
        self.set_v_u8x16(dst, c);
        ControlFlow::Continue(())
    }

    /// Copies the low 16 bits of an integer register to each of 8 lanes.
    pub fn vsplatx16(&mut self, dst: VReg, src: XReg) -> (r: ControlFlow<Done>)
        ensures
            r is Continue,
            ({
                let val = old(self)@.x_u32(src.spec_index()) as u16;
                final(self)@ == old(self)@.set_v128(
                    dst.spec_index(),
                    spec_from_lanes16(Seq::new(8, |i: int| val), 8),
                )
            }),
    {
        let ghost val = self@.x_u32(src.spec_index()) as u16;
        let v = #[verifier::truncate]
                (self.x_u32(src) as u16);
        let mut c = [0u16;8];
        let mut i: usize = 0;
        while i < 8
            invariant
                i <= 8,
                v == val,
                forall|j: int| 0 <= j < i ==> #[trigger] c@[j] == (val),
            decreases 8 - i,
        {
            c[i] = v;
            i += 1;
        }
        proof {
            assert(c@ =~= Seq::new(8, |i: int| val));
        }
        self.set_v_u16x8(dst, c);
        ControlFlow::Continue(())
    }

    /// Copies the low 32 bits of an integer register to each of 4 lanes.
    pub fn vsplatx32(&mut self, dst: VReg, src: XReg) -> (r: ControlFlow<Done>)
        ensures
            r is Continue,
            ({
                let val = old(self)@.x_u32(src.spec_index());
                final(self)@ == old(self)@.set_v128(
                    dst.spec_index(),
                    spec_from_lanes32(Seq::new(4, |i: int| val), 4),
                )
            }),
    {
        let ghost val = self@.x_u32(src.spec_index());
        let v = self.x_u32(src);
        let mut c = [0u32;4];
        let mut i: usize = 0;
        while i < 4
            invariant
                i <= 4,
                v == val,
                forall|j: int| 0 <= j < i ==> #[trigger] c@[j] == (val),
            decreases 4 - i,
        {
            c[i] = v;
            i += 1;
        }
        proof {
            assert(c@ =~= Seq::new(4, |i: int| val));
        }
        self.set_v_u32x4(dst, c);
        ControlFlow::Continue(())
    }

    /// Copies the low 64 bits of an integer register to each of 2 lanes.
    pub fn vsplatx64(&mut self, dst: VReg, src: XReg) -> (r: ControlFlow<Done>)
        ensures
            r is Continue,
            ({
                let val = old(self)@.x_u64(src.spec_index());
                final(self)@ == old(self)@.set_v128(
                    dst.spec_index(),
                    spec_from_lanes64(Seq::new(2, |i: int| val), 2),
                )
            }),
    {
        let ghost val = self@.x_u64(src.spec_index());
        let v = self.x_u64(src);
        let mut c = [0u64;2];
        let mut i: usize = 0;
        while i < 2
            invariant
                i <= 2,
                v == val,
                forall|j: int| 0 <= j < i ==> #[trigger] c@[j] == (val),
            decreases 2 - i,
        {
            c[i] = v;
            i += 1;
        }
        proof {
            assert(c@ =~= Seq::new(2, |i: int| val));
        }
        self.set_v_u64x2(dst, c);
        ControlFlow::Continue(())
    }

    /// Copies the bits of a single-precision number to each of 4 lanes.
    pub fn vsplatf32(&mut self, dst: VReg, src: FReg) -> (r: ControlFlow<Done>)
        ensures
            r is Continue,
            ({
                let val = old(self)@.state.f[src.spec_index()].bits as u32;
                final(self)@ == old(self)@.set_v128(
                    dst.spec_index(),
                    spec_from_lanes32(Seq::new(4, |i: int| val), 4),
                )
            }),
    {
        let ghost val = self@.state.f[src.spec_index()].bits as u32;
        let v = self.f(src).get_f32_bits();
        let mut c = [0u32;4];
        let mut i: usize = 0;
        while i < 4
            invariant
                i <= 4,
                v == val,
                forall|j: int| 0 <= j < i ==> #[trigger] c@[j] == (val),
            decreases 4 - i,
        {
            c[i] = v;
            i += 1;
        }
        proof {
            assert(c@ =~= Seq::new(4, |i: int| val));
        }
        self.set_v_u32x4(dst, c);
        ControlFlow::Continue(())
    }

    /// Copies the bits of a double-precision number to each of 2 lanes.
    pub fn vsplatf64(&mut self, dst: VReg, src: FReg) -> (r: ControlFlow<Done>)
        ensures
            r is Continue,
            ({
                let val = old(self)@.state.f[src.spec_index()].bits;
                final(self)@ == old(self)@.set_v128(
                    dst.spec_index(),
                    spec_from_lanes64(Seq::new(2, |i: int| val), 2),
                )
            }),
    {
        let ghost val = self@.state.f[src.spec_index()].bits;
        let v = self.f(src).get_f64_bits();
        let mut c = [0u64;2];
        let mut i: usize = 0;
        while i < 2
            invariant
                i <= 2,
                v == val,
                forall|j: int| 0 <= j < i ==> #[trigger] c@[j] == (val),
            decreases 2 - i,
        {
            c[i] = v;
            i += 1;
        }
        proof {
            assert(c@ =~= Seq::new(2, |i: int| val));
        }
        self.set_v_u64x2(dst, c);
        ControlFlow::Continue(())
    }

    /// Replaces lane `lane` of 16 lanes of 8 bits by the low 8 bits of an
    /// integer register.
    pub fn vinsertx8(
        &mut self,
        operands: BinaryOperands<VReg, VReg, XReg>,
        lane: u8,
    ) -> (r: ControlFlow<Done>)
        requires
            lane < 16,
        ensures
            r is Continue,
            ({
                let a = old(self)@.state.v[operands.src1.spec_index()].bits;
                let val = old(self)@.x_u32(operands.src2.spec_index()) as u8;
                final(self)@ == old(self)@.set_v128(
                    operands.dst.spec_index(),
                    spec_from_lanes8(
                        Seq::new(16, |i: int| if i == lane { val } else { spec_lane8(a, i) }),
                        16,
                    ),
                )
            }),
    {
        let ghost a = self@.state.v[operands.src1.spec_index()].bits;
        let ghost val = self@.x_u32(operands.src2.spec_index()) as u8;
        let al = self.v(operands.src1).get_u8x16();
        let v = #[verifier::truncate]
                (self.x_u32(operands.src2) as u8);
        let mut c = [0u8;16];
        let mut i: usize = 0;
        while i < 16
            invariant
                i <= 16,
                forall|j: int| 0 <= j < 16 ==> #[trigger] al@[j] == spec_lane8(a, j),
                v == val,
                forall|j: int| 0 <= j < i ==> #[trigger] c@[j] == (
                    if j == lane { val } else { spec_lane8(a, j) }
                ),
            decreases 16 - i,
        {
            c[i] = if i == lane as usize { v } else { al[i] };
            i += 1;
        }
        proof {
            assert(c@ =~= Seq::new(16, |i: int| if i == lane { val } else { spec_lane8(a, i) }));
        }
        self.set_v_u8x16(operands.dst, c);
        ControlFlow::Continue(())
    }

    /// Replaces lane `lane` of 8 lanes of 16 bits by the low 16 bits of
    /// an integer register.
    pub fn vinsertx16(
        &mut self,
        operands: BinaryOperands<VReg, VReg, XReg>,
        lane: u8,
    ) -> (r: ControlFlow<Done>)
        requires
            lane < 8,
        ensures
            r is Continue,
            ({
                let a = old(self)@.state.v[operands.src1.spec_index()].bits;
                let val = old(self)@.x_u32(operands.src2.spec_index()) as u16;
                final(self)@ == old(self)@.set_v128(
                    operands.dst.spec_index(),
                    spec_from_lanes16(
                        Seq::new(8, |i: int| if i == lane { val } else { spec_lane16(a, i) }),
                        8,
                    ),
                )
            }),
    {
        let ghost a = self@.state.v[operands.src1.spec_index()].bits;
        let ghost val = self@.x_u32(operands.src2.spec_index()) as u16;
        let al = self.v(operands.src1).get_u16x8();
        let v = #[verifier::truncate]
                (self.x_u32(operands.src2) as u16);
        let mut c = [0u16;8];
        let mut i: usize = 0;
        while i < 8
            invariant
                i <= 8,
                forall|j: int| 0 <= j < 8 ==> #[trigger] al@[j] == spec_lane16(a, j),
                v == val,
                forall|j: int| 0 <= j < i ==> #[trigger] c@[j] == (
                    if j == lane { val } else { spec_lane16(a, j) }
                ),
            decreases 8 - i,
        {
            c[i] = if i == lane as usize { v } else { al[i] };
            i += 1;
        }
        proof {
            assert(c@ =~= Seq::new(8, |i: int| if i == lane { val } else { spec_lane16(a, i) }));
        }
        self.set_v_u16x8(operands.dst, c);
        ControlFlow::Continue(())
    }

    /// Replaces lane `lane` of 4 lanes of 32 bits by the low 32 bits of
    /// an integer register.
    pub fn vinsertx32(
        &mut self,
        operands: BinaryOperands<VReg, VReg, XReg>,
        lane: u8,
    ) -> (r: ControlFlow<Done>)
        requires
            lane < 4,
        ensures
            r is Continue,
            ({
                let a = old(self)@.state.v[operands.src1.spec_index()].bits;
                let val = old(self)@.x_u32(operands.src2.spec_index());
                final(self)@ == old(self)@.set_v128(
                    operands.dst.spec_index(),
                    spec_from_lanes32(
                        Seq::new(4, |i: int| if i == lane { val } else { spec_lane32(a, i) }),
                        4,
                    ),
                )
            }),
    {
        let ghost a = self@.state.v[operands.src1.spec_index()].bits;
        let ghost val = self@.x_u32(operands.src2.spec_index());
        let al = self.v(operands.src1).get_u32x4();
        let v = self.x_u32(operands.src2);
        let mut c = [0u32;4];
        let mut i: usize = 0;
        while i < 4
            invariant
                i <= 4,
                forall|j: int| 0 <= j < 4 ==> #[trigger] al@[j] == spec_lane32(a, j),
                v == val,
                forall|j: int| 0 <= j < i ==> #[trigger] c@[j] == (
                    if j == lane { val } else { spec_lane32(a, j) }
                ),
            decreases 4 - i,
        {
            c[i] = if i == lane as usize { v } else { al[i] };
            i += 1;
        }
        proof {
            assert(c@ =~= Seq::new(4, |i: int| if i == lane { val } else { spec_lane32(a, i) }));
        }
        self.set_v_u32x4(operands.dst, c);
        ControlFlow::Continue(())
    }

    /// Replaces lane `lane` of 2 lanes of 64 bits by the low 64 bits of
    /// an integer register.
    pub fn vinsertx64(
        &mut self,
        operands: BinaryOperands<VReg, VReg, XReg>,
        lane: u8,
    ) -> (r: ControlFlow<Done>)
        requires
            lane < 2,
        ensures
            r is Continue,
            ({
                let a = old(self)@.state.v[operands.src1.spec_index()].bits;
                let val = old(self)@.x_u64(operands.src2.spec_index());
                final(self)@ == old(self)@.set_v128(
                    operands.dst.spec_index(),
                    spec_from_lanes64(
                        Seq::new(2, |i: int| if i == lane { val } else { spec_lane64(a, i) }),
                        2,
                    ),
                )
            }),
    {
        let ghost a = self@.state.v[operands.src1.spec_index()].bits;
        let ghost val = self@.x_u64(operands.src2.spec_index());
        let al = self.v(operands.src1).get_u64x2();
        let v = self.x_u64(operands.src2);
        let mut c = [0u64;2];
        let mut i: usize = 0;
        while i < 2
            invariant
                i <= 2,
                forall|j: int| 0 <= j < 2 ==> #[trigger] al@[j] == spec_lane64(a, j),
                v == val,
                forall|j: int| 0 <= j < i ==> #[trigger] c@[j] == (
                    if j == lane { val } else { spec_lane64(a, j) }
                ),
            decreases 2 - i,
        {
            c[i] = if i == lane as usize { v } else { al[i] };
            i += 1;
        }
        proof {
            assert(c@ =~= Seq::new(2, |i: int| if i == lane { val } else { spec_lane64(a, i) }));
        }
        self.set_v_u64x2(operands.dst, c);
        ControlFlow::Continue(())
    }

    /// Replaces lane `lane` of 4 lanes of 32 bits by the bits of a
    /// floating-point number.
    pub fn vinsertf32(
        &mut self,
        operands: BinaryOperands<VReg, VReg, FReg>,
        lane: u8,
    ) -> (r: ControlFlow<Done>)
        requires
            lane < 4,
        ensures
            r is Continue,
            ({
                let a = old(self)@.state.v[operands.src1.spec_index()].bits;
                let val = old(self)@.state.f[operands.src2.spec_index()].bits as u32;
                final(self)@ == old(self)@.set_v128(
                    operands.dst.spec_index(),
                    spec_from_lanes32(
                        Seq::new(4, |i: int| if i == lane { val } else { spec_lane32(a, i) }),
                        4,
                    ),
                )
            }),
    {
        let ghost a = self@.state.v[operands.src1.spec_index()].bits;
        let ghost val = self@.state.f[operands.src2.spec_index()].bits as u32;
        let al = self.v(operands.src1).get_u32x4();
        let v = self.f(operands.src2).get_f32_bits();
        let mut c = [0u32;4];
        let mut i: usize = 0;
        while i < 4
            invariant
                i <= 4,
                forall|j: int| 0 <= j < 4 ==> #[trigger] al@[j] == spec_lane32(a, j),
                v == val,
                forall|j: int| 0 <= j < i ==> #[trigger] c@[j] == (
                    if j == lane { val } else { spec_lane32(a, j) }
                ),
            decreases 4 - i,
        {
            c[i] = if i == lane as usize { v } else { al[i] };
            i += 1;
        }
        proof {
            assert(c@ =~= Seq::new(4, |i: int| if i == lane { val } else { spec_lane32(a, i) }));
        }
        self.set_v_u32x4(operands.dst, c);
        ControlFlow::Continue(())
    }

    /// Replaces lane `lane` of 2 lanes of 64 bits by the bits of a
    /// floating-point number.
    pub fn vinsertf64(
        &mut self,
        operands: BinaryOperands<VReg, VReg, FReg>,
        lane: u8,
    ) -> (r: ControlFlow<Done>)
        requires
            lane < 2,
        ensures
            r is Continue,
            ({
                let a = old(self)@.state.v[operands.src1.spec_index()].bits;
                let val = old(self)@.state.f[operands.src2.spec_index()].bits;
                final(self)@ == old(self)@.set_v128(
                    operands.dst.spec_index(),
                    spec_from_lanes64(
                        Seq::new(2, |i: int| if i == lane { val } else { spec_lane64(a, i) }),
                        2,
                    ),
                )
            }),
    {
        let ghost a = self@.state.v[operands.src1.spec_index()].bits;
        let ghost val = self@.state.f[operands.src2.spec_index()].bits;
        let al = self.v(operands.src1).get_u64x2();
        let v = self.f(operands.src2).get_f64_bits();
        let mut c = [0u64;2];
        let mut i: usize = 0;
        while i < 2
            invariant
                i <= 2,
                forall|j: int| 0 <= j < 2 ==> #[trigger] al@[j] == spec_lane64(a, j),
                v == val,
                forall|j: int| 0 <= j < i ==> #[trigger] c@[j] == (
                    if j == lane { val } else { spec_lane64(a, j) }
                ),
            decreases 2 - i,
        {
            c[i] = if i == lane as usize { v } else { al[i] };
            i += 1;
        }
        proof {
            assert(c@ =~= Seq::new(2, |i: int| if i == lane { val } else { spec_lane64(a, i) }));
        }
        self.set_v_u64x2(operands.dst, c);
        ControlFlow::Continue(())
    }

    /// Widens the first 8 of 16 lanes of 8 bits to lanes of 16 bits, with
    /// sign extension.
    pub fn vwidenlow8x16_s(&mut self, dst: VReg, src: VReg) -> (r: ControlFlow<Done>)
        ensures
            r is Continue,
            ({
                let a = old(self)@.state.v[src.spec_index()].bits;
                final(self)@ == old(self)@.set_v128(
                    dst.spec_index(),
                    spec_from_lanes16(
                        Seq::new(8, |i: int| ((spec_lane8(a, i + 0) as i8) as i16) as u16),
                        8,
                    ),
                )
            }),
    {
        let ghost a = self@.state.v[src.spec_index()].bits;
        let al = self.v(src).get_u8x16();
        let mut c = [0u16;8];
        let mut i: usize = 0;
        while i < 8
            invariant
                i <= 8,
                forall|j: int| 0 <= j < 16 ==> #[trigger] al@[j] == spec_lane8(a, j),
                forall|j: int| 0 <= j < i ==> #[trigger] c@[j] == (
                    ((spec_lane8(a, j + 0) as i8) as i16) as u16
                ),
            decreases 8 - i,
        {
            c[i] = bits16(signed8(al[i + 0]) as i16);
            i += 1;
        }
        proof {
            assert(c@ =~= Seq::new(8, |i: int| ((spec_lane8(a, i + 0) as i8) as i16) as u16));
        }
        self.set_v_u16x8(dst, c);
        ControlFlow::Continue(())
    }

    /// Widens the first 8 of 16 lanes of 8 bits to lanes of 16 bits, with
    /// zero extension.
    pub fn vwidenlow8x16_u(&mut self, dst: VReg, src: VReg) -> (r: ControlFlow<Done>)
        ensures
            r is Continue,
            ({
                let a = old(self)@.state.v[src.spec_index()].bits;
                final(self)@ == old(self)@.set_v128(
                    dst.spec_index(),
                    spec_from_lanes16(Seq::new(8, |i: int| spec_lane8(a, i + 0) as u16), 8),
                )
            }),
    {
        let ghost a = self@.state.v[src.spec_index()].bits;
        let al = self.v(src).get_u8x16();
        let mut c = [0u16;8];
        let mut i: usize = 0;
        while i < 8
            invariant
                i <= 8,
                forall|j: int| 0 <= j < 16 ==> #[trigger] al@[j] == spec_lane8(a, j),
                forall|j: int| 0 <= j < i ==> #[trigger] c@[j] == (spec_lane8(a, j + 0) as u16),
            decreases 8 - i,
        {
            c[i] = al[i + 0] as u16;
            i += 1;
        }
        proof {
            assert(c@ =~= Seq::new(8, |i: int| spec_lane8(a, i + 0) as u16));
        }
        self.set_v_u16x8(dst, c);
        ControlFlow::Continue(())
    }

    /// Widens the last 8 of 16 lanes of 8 bits to lanes of 16 bits, with
    /// sign extension.
    pub fn vwidenhigh8x16_s(&mut self, dst: VReg, src: VReg) -> (r: ControlFlow<Done>)
        ensures
            r is Continue,
            ({
                let a = old(self)@.state.v[src.spec_index()].bits;
                final(self)@ == old(self)@.set_v128(
                    dst.spec_index(),
                    spec_from_lanes16(
                        Seq::new(8, |i: int| ((spec_lane8(a, i + 8) as i8) as i16) as u16),
                        8,
                    ),
                )
            }),
    {
        let ghost a = self@.state.v[src.spec_index()].bits;
        let al = self.v(src).get_u8x16();
        let mut c = [0u16;8];
        let mut i: usize = 0;
        while i < 8
            invariant
                i <= 8,
                forall|j: int| 0 <= j < 16 ==> #[trigger] al@[j] == spec_lane8(a, j),
                forall|j: int| 0 <= j < i ==> #[trigger] c@[j] == (
                    ((spec_lane8(a, j + 8) as i8) as i16) as u16
                ),
            decreases 8 - i,
        {
            c[i] = bits16(signed8(al[i + 8]) as i16);
            i += 1;
        }
        proof {
            assert(c@ =~= Seq::new(8, |i: int| ((spec_lane8(a, i + 8) as i8) as i16) as u16));
        }
        self.set_v_u16x8(dst, c);
        ControlFlow::Continue(())
    }

    /// Widens the last 8 of 16 lanes of 8 bits to lanes of 16 bits, with
    /// zero extension.
    pub fn vwidenhigh8x16_u(&mut self, dst: VReg, src: VReg) -> (r: ControlFlow<Done>)
        ensures
            r is Continue,
            ({
                let a = old(self)@.state.v[src.spec_index()].bits;
                final(self)@ == old(self)@.set_v128(
                    dst.spec_index(),
                    spec_from_lanes16(Seq::new(8, |i: int| spec_lane8(a, i + 8) as u16), 8),
                )
            }),
    {
        let ghost a = self@.state.v[src.spec_index()].bits;
        let al = self.v(src).get_u8x16();
        let mut c = [0u16;8];
        let mut i: usize = 0;
        while i < 8
            invariant
                i <= 8,
                forall|j: int| 0 <= j < 16 ==> #[trigger] al@[j] == spec_lane8(a, j),
                forall|j: int| 0 <= j < i ==> #[trigger] c@[j] == (spec_lane8(a, j + 8) as u16),
            decreases 8 - i,
        {
            c[i] = al[i + 8] as u16;
            i += 1;
        }
        proof {
            assert(c@ =~= Seq::new(8, |i: int| spec_lane8(a, i + 8) as u16));
        }
        self.set_v_u16x8(dst, c);
        ControlFlow::Continue(())
    }

    /// Widens the first 4 of 8 lanes of 16 bits to lanes of 32 bits, with
    /// sign extension.
    pub fn vwidenlow16x8_s(&mut self, dst: VReg, src: VReg) -> (r: ControlFlow<Done>)
        ensures
            r is Continue,
            ({
                let a = old(self)@.state.v[src.spec_index()].bits;
                final(self)@ == old(self)@.set_v128(
                    dst.spec_index(),
                    spec_from_lanes32(
                        Seq::new(4, |i: int| ((spec_lane16(a, i + 0) as i16) as i32) as u32),
                        4,
                    ),
                )
            }),
    {
        let ghost a = self@.state.v[src.spec_index()].bits;
        let al = self.v(src).get_u16x8();
        let mut c = [0u32;4];
        let mut i: usize = 0;
        while i < 4
            invariant
                i <= 4,
                forall|j: int| 0 <= j < 8 ==> #[trigger] al@[j] == spec_lane16(a, j),
                forall|j: int| 0 <= j < i ==> #[trigger] c@[j] == (
                    ((spec_lane16(a, j + 0) as i16) as i32) as u32
                ),
            decreases 4 - i,
        {
            c[i] = bits32(signed16(al[i + 0]) as i32);
            i += 1;
        }
        proof {
            assert(c@ =~= Seq::new(4, |i: int| ((spec_lane16(a, i + 0) as i16) as i32) as u32));
        }
        self.set_v_u32x4(dst, c);
        ControlFlow::Continue(())
    }

    /// Widens the first 4 of 8 lanes of 16 bits to lanes of 32 bits, with
    /// zero extension.
    pub fn vwidenlow16x8_u(&mut self, dst: VReg, src: VReg) -> (r: ControlFlow<Done>)
        ensures
            r is Continue,
            ({
                let a = old(self)@.state.v[src.spec_index()].bits;
                final(self)@ == old(self)@.set_v128(
                    dst.spec_index(),
                    spec_from_lanes32(Seq::new(4, |i: int| spec_lane16(a, i + 0) as u32), 4),
                )
            }),
    {
        let ghost a = self@.state.v[src.spec_index()].bits;
        let al = self.v(src).get_u16x8();
        let mut c = [0u32;4];
        let mut i: usize = 0;
        while i < 4
            invariant
                i <= 4,
                forall|j: int| 0 <= j < 8 ==> #[trigger] al@[j] == spec_lane16(a, j),
                forall|j: int| 0 <= j < i ==> #[trigger] c@[j] == (spec_lane16(a, j + 0) as u32),
            decreases 4 - i,
        {
            c[i] = al[i + 0] as u32;
            i += 1;
        }
        proof {
            assert(c@ =~= Seq::new(4, |i: int| spec_lane16(a, i + 0) as u32));
        }
        self.set_v_u32x4(dst, c);
        ControlFlow::Continue(())
    }

    /// Widens the last 4 of 8 lanes of 16 bits to lanes of 32 bits, with
    /// sign extension.
    pub fn vwidenhigh16x8_s(&mut self, dst: VReg, src: VReg) -> (r: ControlFlow<Done>)
        ensures
            r is Continue,
            ({
                let a = old(self)@.state.v[src.spec_index()].bits;
                final(self)@ == old(self)@.set_v128(
                    dst.spec_index(),
                    spec_from_lanes32(
                        Seq::new(4, |i: int| ((spec_lane16(a, i + 4) as i16) as i32) as u32),
                        4,
                    ),
                )
            }),
    {
        let ghost a = self@.state.v[src.spec_index()].bits;
        let al = self.v(src).get_u16x8();
        let mut c = [0u32;4];
        let mut i: usize = 0;
        while i < 4
            invariant
                i <= 4,
                forall|j: int| 0 <= j < 8 ==> #[trigger] al@[j] == spec_lane16(a, j),
                forall|j: int| 0 <= j < i ==> #[trigger] c@[j] == (
                    ((spec_lane16(a, j + 4) as i16) as i32) as u32
                ),
            decreases 4 - i,
        {
            c[i] = bits32(signed16(al[i + 4]) as i32);
            i += 1;
        }
        proof {
            assert(c@ =~= Seq::new(4, |i: int| ((spec_lane16(a, i + 4) as i16) as i32) as u32));
        }
        self.set_v_u32x4(dst, c);
        ControlFlow::Continue(())
    }

    /// Widens the last 4 of 8 lanes of 16 bits to lanes of 32 bits, with
    /// zero extension.
    pub fn vwidenhigh16x8_u(&mut self, dst: VReg, src: VReg) -> (r: ControlFlow<Done>)
        ensures
            r is Continue,
            ({
                let a = old(self)@.state.v[src.spec_index()].bits;
                final(self)@ == old(self)@.set_v128(
                    dst.spec_index(),
                    spec_from_lanes32(Seq::new(4, |i: int| spec_lane16(a, i + 4) as u32), 4),
                )
            }),
    {
        let ghost a = self@.state.v[src.spec_index()].bits;
        let al = self.v(src).get_u16x8();
        let mut c = [0u32;4];
        let mut i: usize = 0;
        while i < 4
            invariant
                i <= 4,
                forall|j: int| 0 <= j < 8 ==> #[trigger] al@[j] == spec_lane16(a, j),
                forall|j: int| 0 <= j < i ==> #[trigger] c@[j] == (spec_lane16(a, j + 4) as u32),
            decreases 4 - i,
        {
            c[i] = al[i + 4] as u32;
            i += 1;
        }
        proof {
            assert(c@ =~= Seq::new(4, |i: int| spec_lane16(a, i + 4) as u32));
        }
        self.set_v_u32x4(dst, c);
        ControlFlow::Continue(())
    }

    /// Widens the first 2 of 4 lanes of 32 bits to lanes of 64 bits, with
    /// sign extension.
    pub fn vwidenlow32x4_s(&mut self, dst: VReg, src: VReg) -> (r: ControlFlow<Done>)
        ensures
            r is Continue,
            ({
                let a = old(self)@.state.v[src.spec_index()].bits;
                final(self)@ == old(self)@.set_v128(
                    dst.spec_index(),
                    spec_from_lanes64(
                        Seq::new(2, |i: int| ((spec_lane32(a, i + 0) as i32) as i64) as u64),
                        2,
                    ),
                )
            }),
    {
        let ghost a = self@.state.v[src.spec_index()].bits;
        let al = self.v(src).get_u32x4();
        let mut c = [0u64;2];
        let mut i: usize = 0;
        while i < 2
            invariant
                i <= 2,
                forall|j: int| 0 <= j < 4 ==> #[trigger] al@[j] == spec_lane32(a, j),
                forall|j: int| 0 <= j < i ==> #[trigger] c@[j] == (
                    ((spec_lane32(a, j + 0) as i32) as i64) as u64
                ),
            decreases 2 - i,
        {
            c[i] = bits64(signed32(al[i + 0]) as i64);
            i += 1;
        }
        proof {
            assert(c@ =~= Seq::new(2, |i: int| ((spec_lane32(a, i + 0) as i32) as i64) as u64));
        }
        self.set_v_u64x2(dst, c);
        ControlFlow::Continue(())
    }

    /// Widens the first 2 of 4 lanes of 32 bits to lanes of 64 bits, with
    /// zero extension.
    pub fn vwidenlow32x4_u(&mut self, dst: VReg, src: VReg) -> (r: ControlFlow<Done>)
        ensures
            r is Continue,
            ({
                let a = old(self)@.state.v[src.spec_index()].bits;
                final(self)@ == old(self)@.set_v128(
                    dst.spec_index(),
                    spec_from_lanes64(Seq::new(2, |i: int| spec_lane32(a, i + 0) as u64), 2),
                )
            }),
    {
        let ghost a = self@.state.v[src.spec_index()].bits;
        let al = self.v(src).get_u32x4();
        let mut c = [0u64;2];
        let mut i: usize = 0;
        while i < 2
            invariant
                i <= 2,
                forall|j: int| 0 <= j < 4 ==> #[trigger] al@[j] == spec_lane32(a, j),
                forall|j: int| 0 <= j < i ==> #[trigger] c@[j] == (spec_lane32(a, j + 0) as u64),
            decreases 2 - i,
        {
            c[i] = al[i + 0] as u64;
            i += 1;
        }
        proof {
            assert(c@ =~= Seq::new(2, |i: int| spec_lane32(a, i + 0) as u64));
        }
        self.set_v_u64x2(dst, c);
        ControlFlow::Continue(())
    }

    /// Widens the last 2 of 4 lanes of 32 bits to lanes of 64 bits, with
    /// sign extension.
    pub fn vwidenhigh32x4_s(&mut self, dst: VReg, src: VReg) -> (r: ControlFlow<Done>)
        ensures
            r is Continue,
            ({
                let a = old(self)@.state.v[src.spec_index()].bits;
                final(self)@ == old(self)@.set_v128(
                    dst.spec_index(),
                    spec_from_lanes64(
                        Seq::new(2, |i: int| ((spec_lane32(a, i + 2) as i32) as i64) as u64),
                        2,
                    ),
                )
            }),
    {
        let ghost a = self@.state.v[src.spec_index()].bits;
        let al = self.v(src).get_u32x4();
        let mut c = [0u64;2];
        let mut i: usize = 0;
        while i < 2
            invariant
                i <= 2,
                forall|j: int| 0 <= j < 4 ==> #[trigger] al@[j] == spec_lane32(a, j),
                forall|j: int| 0 <= j < i ==> #[trigger] c@[j] == (
                    ((spec_lane32(a, j + 2) as i32) as i64) as u64
                ),
            decreases 2 - i,
        {
            c[i] = bits64(signed32(al[i + 2]) as i64);
            i += 1;
        }
        proof {
            assert(c@ =~= Seq::new(2, |i: int| ((spec_lane32(a, i + 2) as i32) as i64) as u64));
        }
        self.set_v_u64x2(dst, c);
        ControlFlow::Continue(())
    }

    /// Widens the last 2 of 4 lanes of 32 bits to lanes of 64 bits, with
    /// zero extension.
    pub fn vwidenhigh32x4_u(&mut self, dst: VReg, src: VReg) -> (r: ControlFlow<Done>)
        ensures
            r is Continue,
            ({
                let a = old(self)@.state.v[src.spec_index()].bits;
                final(self)@ == old(self)@.set_v128(
                    dst.spec_index(),
                    spec_from_lanes64(Seq::new(2, |i: int| spec_lane32(a, i + 2) as u64), 2),
                )
            }),
    {
        let ghost a = self@.state.v[src.spec_index()].bits;
        let al = self.v(src).get_u32x4();
        let mut c = [0u64;2];
        let mut i: usize = 0;
        while i < 2
            invariant
                i <= 2,
                forall|j: int| 0 <= j < 4 ==> #[trigger] al@[j] == spec_lane32(a, j),
                forall|j: int| 0 <= j < i ==> #[trigger] c@[j] == (spec_lane32(a, j + 2) as u64),
            decreases 2 - i,
        {
            c[i] = al[i + 2] as u64;
            i += 1;
        }
        proof {
            assert(c@ =~= Seq::new(2, |i: int| spec_lane32(a, i + 2) as u64));
        }
        self.set_v_u64x2(dst, c);
        ControlFlow::Continue(())
    }

    /// Narrows the signed numbers in the 8 lanes of 16 bits of `src1` and
    /// then of `src2` to signed numbers of 8 bits; a number beyond a
    /// bound of the narrow lane gives that bound.
    pub fn vnarrow16x8_s(&mut self, operands: BinaryOperands<VReg>) -> (r: ControlFlow<Done>)
        ensures
            r is Continue,
            ({
                let a = old(self)@.state.v[operands.src1.spec_index()].bits;
                let b = old(self)@.state.v[operands.src2.spec_index()].bits;
                final(self)@ == old(self)@.set_v128(
                    operands.dst.spec_index(),
                    spec_from_lanes8(
                        Seq::new(
                            16,
                            |i: int|
                                if i < 8 {
                                    (spec_clamp_i8(spec_lane16(a, i) as i16 as int)) as u8
                                } else {
                                    (spec_clamp_i8(spec_lane16(b, i - 8) as i16 as int)) as u8
                                },
                        ),
                        16,
                    ),
                )
            }),
    {
        let ghost a = self@.state.v[operands.src1.spec_index()].bits;
        let ghost b = self@.state.v[operands.src2.spec_index()].bits;
        let al = self.v(operands.src1).get_u16x8();
        let bl = self.v(operands.src2).get_u16x8();
        let mut c = [0u8;16];
        let mut i: usize = 0;
        while i < 16
            invariant
                i <= 16,
                forall|j: int| 0 <= j < 8 ==> #[trigger] al@[j] == spec_lane16(a, j),
                forall|j: int| 0 <= j < 8 ==> #[trigger] bl@[j] == spec_lane16(b, j),
                forall|j: int| 0 <= j < i ==> #[trigger] c@[j] == (
                    if j < 8 {
                        (spec_clamp_i8(spec_lane16(a, j) as i16 as int)) as u8
                    } else {
                        (spec_clamp_i8(spec_lane16(b, j - 8) as i16 as int)) as u8
                    }
                ),
            decreases 16 - i,
        {
            c[i] = if i < 8 {
                bits8(clamp_i8(signed16(al[i]) as i32))
            } else {
                bits8(clamp_i8(signed16(bl[i - 8]) as i32))
            };
            i += 1;
        }
        proof {
            assert(
                c@ =~= Seq::new(
                    16,
                    |i: int|
                        if i < 8 {
                            (spec_clamp_i8(spec_lane16(a, i) as i16 as int)) as u8
                        } else {
                            (spec_clamp_i8(spec_lane16(b, i - 8) as i16 as int)) as u8
                        },
                )
            );
        }
        self.set_v_u8x16(operands.dst, c);
        ControlFlow::Continue(())
    }

    /// Narrows the signed numbers in the 8 lanes of 16 bits of `src1` and
    /// then of `src2` to unsigned numbers of 8 bits; a number beyond a
    /// bound of the narrow lane gives that bound.
    pub fn vnarrow16x8_u(&mut self, operands: BinaryOperands<VReg>) -> (r: ControlFlow<Done>)
        ensures
            r is Continue,
            ({
                let a = old(self)@.state.v[operands.src1.spec_index()].bits;
                let b = old(self)@.state.v[operands.src2.spec_index()].bits;
                final(self)@ == old(self)@.set_v128(
                    operands.dst.spec_index(),
                    spec_from_lanes8(
                        Seq::new(
                            16,
                            |i: int|
                                if i < 8 {
                                    spec_clamp_u8(spec_lane16(a, i) as i16 as int)
                                } else {
                                    spec_clamp_u8(spec_lane16(b, i - 8) as i16 as int)
                                },
                        ),
                        16,
                    ),
                )
            }),
    {
        let ghost a = self@.state.v[operands.src1.spec_index()].bits;
        let ghost b = self@.state.v[operands.src2.spec_index()].bits;
        let al = self.v(operands.src1).get_u16x8();
        let bl = self.v(operands.src2).get_u16x8();
        let mut c = [0u8;16];
        let mut i: usize = 0;
        while i < 16
            invariant
                i <= 16,
                forall|j: int| 0 <= j < 8 ==> #[trigger] al@[j] == spec_lane16(a, j),
                forall|j: int| 0 <= j < 8 ==> #[trigger] bl@[j] == spec_lane16(b, j),
                forall|j: int| 0 <= j < i ==> #[trigger] c@[j] == (
                    if j < 8 {
                        spec_clamp_u8(spec_lane16(a, j) as i16 as int)
                    } else {
                        spec_clamp_u8(spec_lane16(b, j - 8) as i16 as int)
                    }
                ),
            decreases 16 - i,
        {
            c[i] = if i < 8 {
                clamp_u8(signed16(al[i]) as i32)
            } else {
                clamp_u8(signed16(bl[i - 8]) as i32)
            };
            i += 1;
        }
        proof {
            assert(
                c@ =~= Seq::new(
                    16,
                    |i: int|
                        if i < 8 {
                            spec_clamp_u8(spec_lane16(a, i) as i16 as int)
                        } else {
                            spec_clamp_u8(spec_lane16(b, i - 8) as i16 as int)
                        },
                )
            );
        }
        self.set_v_u8x16(operands.dst, c);
        ControlFlow::Continue(())
    }

    /// Narrows the signed numbers in the 4 lanes of 32 bits of `src1` and
    /// then of `src2` to signed numbers of 16 bits; a number beyond a
    /// bound of the narrow lane gives that bound.
    pub fn vnarrow32x4_s(&mut self, operands: BinaryOperands<VReg>) -> (r: ControlFlow<Done>)
        ensures
            r is Continue,
            ({
                let a = old(self)@.state.v[operands.src1.spec_index()].bits;
                let b = old(self)@.state.v[operands.src2.spec_index()].bits;
                final(self)@ == old(self)@.set_v128(
                    operands.dst.spec_index(),
                    spec_from_lanes16(
                        Seq::new(
                            8,
                            |i: int|
                                if i < 4 {
                                    (spec_clamp_i16(spec_lane32(a, i) as i32 as int)) as u16
                                } else {
                                    (spec_clamp_i16(spec_lane32(b, i - 4) as i32 as int)) as u16
                                },
                        ),
                        8,
                    ),
                )
            }),
    {
        let ghost a = self@.state.v[operands.src1.spec_index()].bits;
        let ghost b = self@.state.v[operands.src2.spec_index()].bits;
        let al = self.v(operands.src1).get_u32x4();
        let bl = self.v(operands.src2).get_u32x4();
        let mut c = [0u16;8];
        let mut i: usize = 0;
        while i < 8
            invariant
                i <= 8,
                forall|j: int| 0 <= j < 4 ==> #[trigger] al@[j] == spec_lane32(a, j),
                forall|j: int| 0 <= j < 4 ==> #[trigger] bl@[j] == spec_lane32(b, j),
                forall|j: int| 0 <= j < i ==> #[trigger] c@[j] == (
                    if j < 4 {
                        (spec_clamp_i16(spec_lane32(a, j) as i32 as int)) as u16
                    } else {
                        (spec_clamp_i16(spec_lane32(b, j - 4) as i32 as int)) as u16
                    }
                ),
            decreases 8 - i,
        {
            c[i] = if i < 4 {
                bits16(clamp_i16(signed32(al[i]) as i32))
            } else {
                bits16(clamp_i16(signed32(bl[i - 4]) as i32))
            };
            i += 1;
        }
        proof {
            assert(
                c@ =~= Seq::new(
                    8,
                    |i: int|
                        if i < 4 {
                            (spec_clamp_i16(spec_lane32(a, i) as i32 as int)) as u16
                        } else {
                            (spec_clamp_i16(spec_lane32(b, i - 4) as i32 as int)) as u16
                        },
                )
            );
        }
        self.set_v_u16x8(operands.dst, c);
        ControlFlow::Continue(())
    }

    /// Narrows the signed numbers in the 4 lanes of 32 bits of `src1` and
    /// then of `src2` to unsigned numbers of 16 bits; a number beyond a
    /// bound of the narrow lane gives that bound.
    pub fn vnarrow32x4_u(&mut self, operands: BinaryOperands<VReg>) -> (r: ControlFlow<Done>)
        ensures
            r is Continue,
            ({
                let a = old(self)@.state.v[operands.src1.spec_index()].bits;
                let b = old(self)@.state.v[operands.src2.spec_index()].bits;
                final(self)@ == old(self)@.set_v128(
                    operands.dst.spec_index(),
                    spec_from_lanes16(
                        Seq::new(
                            8,
                            |i: int|
                                if i < 4 {
                                    spec_clamp_u16(spec_lane32(a, i) as i32 as int)
                                } else {
                                    spec_clamp_u16(spec_lane32(b, i - 4) as i32 as int)
                                },
                        ),
                        8,
                    ),
                )
            }),
    {
        let ghost a = self@.state.v[operands.src1.spec_index()].bits;
        let ghost b = self@.state.v[operands.src2.spec_index()].bits;
        let al = self.v(operands.src1).get_u32x4();
        let bl = self.v(operands.src2).get_u32x4();
        let mut c = [0u16;8];
        let mut i: usize = 0;
        while i < 8
            invariant
                i <= 8,
                forall|j: int| 0 <= j < 4 ==> #[trigger] al@[j] == spec_lane32(a, j),
                forall|j: int| 0 <= j < 4 ==> #[trigger] bl@[j] == spec_lane32(b, j),
                forall|j: int| 0 <= j < i ==> #[trigger] c@[j] == (
                    if j < 4 {
                        spec_clamp_u16(spec_lane32(a, j) as i32 as int)
                    } else {
                        spec_clamp_u16(spec_lane32(b, j - 4) as i32 as int)
                    }
                ),
            decreases 8 - i,
        {
            c[i] = if i < 4 {
                clamp_u16(signed32(al[i]) as i32)
            } else {
                clamp_u16(signed32(bl[i - 4]) as i32)
            };
            i += 1;
        }
        proof {
            assert(
                c@ =~= Seq::new(
                    8,
                    |i: int|
                        if i < 4 {
                            spec_clamp_u16(spec_lane32(a, i) as i32 as int)
                        } else {
                            spec_clamp_u16(spec_lane32(b, i - 4) as i32 as int)
                        },
                )
            );
        }
        self.set_v_u16x8(operands.dst, c);
        ControlFlow::Continue(())
    }

    /// Narrows the signed numbers in the 2 lanes of 64 bits of `src1` and
    /// then of `src2` to signed numbers of 32 bits; a number beyond a
    /// bound of the narrow lane gives that bound.
    pub fn vnarrow64x2_s(&mut self, operands: BinaryOperands<VReg>) -> (r: ControlFlow<Done>)
        ensures
            r is Continue,
            ({
                let a = old(self)@.state.v[operands.src1.spec_index()].bits;
                let b = old(self)@.state.v[operands.src2.spec_index()].bits;
                final(self)@ == old(self)@.set_v128(
                    operands.dst.spec_index(),
                    spec_from_lanes32(
                        Seq::new(
                            4,
                            |i: int|
                                if i < 2 {
                                    (spec_clamp_i32(spec_lane64(a, i) as i64 as int)) as u32
                                } else {
                                    (spec_clamp_i32(spec_lane64(b, i - 2) as i64 as int)) as u32
                                },
                        ),
                        4,
                    ),
                )
            }),
    {
        let ghost a = self@.state.v[operands.src1.spec_index()].bits;
        let ghost b = self@.state.v[operands.src2.spec_index()].bits;
        let al = self.v(operands.src1).get_u64x2();
        let bl = self.v(operands.src2).get_u64x2();
        let mut c = [0u32;4];
        let mut i: usize = 0;
        while i < 4
            invariant
                i <= 4,
                forall|j: int| 0 <= j < 2 ==> #[trigger] al@[j] == spec_lane64(a, j),
                forall|j: int| 0 <= j < 2 ==> #[trigger] bl@[j] == spec_lane64(b, j),
                forall|j: int| 0 <= j < i ==> #[trigger] c@[j] == (
                    if j < 2 {
                        (spec_clamp_i32(spec_lane64(a, j) as i64 as int)) as u32
                    } else {
                        (spec_clamp_i32(spec_lane64(b, j - 2) as i64 as int)) as u32
                    }
                ),
            decreases 4 - i,
        {
            c[i] = if i < 2 {
                bits32(clamp_i32(signed64(al[i])))
            } else {
                bits32(clamp_i32(signed64(bl[i - 2])))
            };
            i += 1;
        }
        proof {
            assert(
                c@ =~= Seq::new(
                    4,
                    |i: int|
                        if i < 2 {
                            (spec_clamp_i32(spec_lane64(a, i) as i64 as int)) as u32
                        } else {
                            (spec_clamp_i32(spec_lane64(b, i - 2) as i64 as int)) as u32
                        },
                )
            );
        }
        self.set_v_u32x4(operands.dst, c);
        ControlFlow::Continue(())
    }

    /// Narrows the signed numbers in the 2 lanes of 64 bits of `src1` and
    /// then of `src2` to unsigned numbers of 32 bits; a number beyond a
    /// bound of the narrow lane gives that bound.
    pub fn vnarrow64x2_u(&mut self, operands: BinaryOperands<VReg>) -> (r: ControlFlow<Done>)
        ensures
            r is Continue,
            ({
                let a = old(self)@.state.v[operands.src1.spec_index()].bits;
                let b = old(self)@.state.v[operands.src2.spec_index()].bits;
                final(self)@ == old(self)@.set_v128(
                    operands.dst.spec_index(),
                    spec_from_lanes32(
                        Seq::new(
                            4,
                            |i: int|
                                if i < 2 {
                                    spec_clamp_u32(spec_lane64(a, i) as i64 as int)
                                } else {
                                    spec_clamp_u32(spec_lane64(b, i - 2) as i64 as int)
                                },
                        ),
                        4,
                    ),
                )
            }),
    {
        let ghost a = self@.state.v[operands.src1.spec_index()].bits;
        let ghost b = self@.state.v[operands.src2.spec_index()].bits;
        let al = self.v(operands.src1).get_u64x2();
        let bl = self.v(operands.src2).get_u64x2();
        let mut c = [0u32;4];
        let mut i: usize = 0;
        while i < 4
            invariant
                i <= 4,
                forall|j: int| 0 <= j < 2 ==> #[trigger] al@[j] == spec_lane64(a, j),
                forall|j: int| 0 <= j < 2 ==> #[trigger] bl@[j] == spec_lane64(b, j),
                forall|j: int| 0 <= j < i ==> #[trigger] c@[j] == (
                    if j < 2 {
                        spec_clamp_u32(spec_lane64(a, j) as i64 as int)
                    } else {
                        spec_clamp_u32(spec_lane64(b, j - 2) as i64 as int)
                    }
                ),
            decreases 4 - i,
        {
            c[i] = if i < 2 { clamp_u32(signed64(al[i])) } else { clamp_u32(signed64(bl[i - 2])) };
            i += 1;
        }
        proof {
            assert(
                c@ =~= Seq::new(
                    4,
                    |i: int|
                        if i < 2 {
                            spec_clamp_u32(spec_lane64(a, i) as i64 as int)
                        } else {
                            spec_clamp_u32(spec_lane64(b, i - 2) as i64 as int)
                        },
                )
            );
        }
        self.set_v_u32x4(operands.dst, c);
        ControlFlow::Continue(())
    }

    /// Narrows the unsigned numbers in the 2 lanes of 64 bits of `src1`
    /// and then of `src2` to 32 bits; a number beyond the greatest number
    /// of 32 bits gives that number.
    pub fn vunarrow64x2_u(&mut self, operands: BinaryOperands<VReg>) -> (r: ControlFlow<Done>)
        ensures
            r is Continue,
            ({
                let a = old(self)@.state.v[operands.src1.spec_index()].bits;
                let b = old(self)@.state.v[operands.src2.spec_index()].bits;
                final(self)@ == old(self)@.set_v128(
                    operands.dst.spec_index(),
                    spec_from_lanes32(
                        Seq::new(
                            4,
                            |i: int|
                                if i < 2 {
                                    spec_unarrow(spec_lane64(a, i))
                                } else {
                                    spec_unarrow(spec_lane64(b, i - 2))
                                },
                        ),
                        4,
                    ),
                )
            }),
    {
        let ghost a = self@.state.v[operands.src1.spec_index()].bits;
        let ghost b = self@.state.v[operands.src2.spec_index()].bits;
        let al = self.v(operands.src1).get_u64x2();
        let bl = self.v(operands.src2).get_u64x2();
        let mut c = [0u32;4];
        let mut i: usize = 0;
        while i < 4
            invariant
                i <= 4,
                forall|j: int| 0 <= j < 2 ==> #[trigger] al@[j] == spec_lane64(a, j),
                forall|j: int| 0 <= j < 2 ==> #[trigger] bl@[j] == spec_lane64(b, j),
                forall|j: int| 0 <= j < i ==> #[trigger] c@[j] == (
                    if j < 2 {
                        spec_unarrow(spec_lane64(a, j))
                    } else {
                        spec_unarrow(spec_lane64(b, j - 2))
                    }
                ),
            decreases 4 - i,
        {
            c[i] = if i < 2 { unarrow(al[i]) } else { unarrow(bl[i - 2]) };
            i += 1;
        }
        proof {
            assert(
                c@ =~= Seq::new(
                    4,
                    |i: int|
                        if i < 2 {
                            spec_unarrow(spec_lane64(a, i))
                        } else {
                            spec_unarrow(spec_lane64(b, i - 2))
                        },
                )
            );
        }
        self.set_v_u32x4(operands.dst, c);
        ControlFlow::Continue(())
    }

    /// Adds neighbouring lanes of 16 bits, wrapping around: the sums of
    /// `src1` fill the first 4 lanes, those of `src2` the last 4.
    pub fn vaddpairwisei16x8_s(&mut self, operands: BinaryOperands<VReg>) -> (r: ControlFlow<Done>)
        ensures
            r is Continue,
            ({
                let a = old(self)@.state.v[operands.src1.spec_index()].bits;
                let b = old(self)@.state.v[operands.src2.spec_index()].bits;
                final(self)@ == old(self)@.set_v128(
                    operands.dst.spec_index(),
                    spec_from_lanes16(
                        Seq::new(
                            8,
                            |i: int|
                                if i < 4 {
                                    spec_lane16(a, 2 * i).wrapping_add(spec_lane16(a, 2 * i + 1))
                                } else {
                                    spec_lane16(b, 2 * (i - 4)).wrapping_add(
                                        spec_lane16(b, 2 * (i - 4) + 1),
                                    )
                                },
                        ),
                        8,
                    ),
                )
            }),
    {
        let ghost a = self@.state.v[operands.src1.spec_index()].bits;
        let ghost b = self@.state.v[operands.src2.spec_index()].bits;
        let al = self.v(operands.src1).get_u16x8();
        let bl = self.v(operands.src2).get_u16x8();
        let mut c = [0u16;8];
        let mut i: usize = 0;
        while i < 8
            invariant
                i <= 8,
                forall|j: int| 0 <= j < 8 ==> #[trigger] al@[j] == spec_lane16(a, j),
                forall|j: int| 0 <= j < 8 ==> #[trigger] bl@[j] == spec_lane16(b, j),
                forall|j: int| 0 <= j < i ==> #[trigger] c@[j] == (
                    if j < 4 {
                        spec_lane16(a, 2 * j).wrapping_add(spec_lane16(a, 2 * j + 1))
                    } else {
                        spec_lane16(b, 2 * (j - 4)).wrapping_add(spec_lane16(b, 2 * (j - 4) + 1))
                    }
                ),
            decreases 8 - i,
        {
            c[i] = if i < 4 {
                al[2 * i].wrapping_add(al[2 * i + 1])
            } else {
                bl[2 * (i - 4)].wrapping_add(bl[2 * (i - 4) + 1])
            };
            i += 1;
        }
        proof {
            assert(
                c@ =~= Seq::new(
                    8,
                    |i: int|
                        if i < 4 {
                            spec_lane16(a, 2 * i).wrapping_add(spec_lane16(a, 2 * i + 1))
                        } else {
                            spec_lane16(b, 2 * (i - 4)).wrapping_add(
                                spec_lane16(b, 2 * (i - 4) + 1),
                            )
                        },
                )
            );
        }
        self.set_v_u16x8(operands.dst, c);
        ControlFlow::Continue(())
    }

    /// Adds neighbouring lanes of 32 bits, wrapping around: the sums of
    /// `src1` fill the first 2 lanes, those of `src2` the last 2.
    pub fn vaddpairwisei32x4_s(&mut self, operands: BinaryOperands<VReg>) -> (r: ControlFlow<Done>)
        ensures
            r is Continue,
            ({
                let a = old(self)@.state.v[operands.src1.spec_index()].bits;
                let b = old(self)@.state.v[operands.src2.spec_index()].bits;
                final(self)@ == old(self)@.set_v128(
                    operands.dst.spec_index(),
                    spec_from_lanes32(
                        Seq::new(
                            4,
                            |i: int|
                                if i < 2 {
                                    spec_lane32(a, 2 * i).wrapping_add(spec_lane32(a, 2 * i + 1))
                                } else {
                                    spec_lane32(b, 2 * (i - 2)).wrapping_add(
                                        spec_lane32(b, 2 * (i - 2) + 1),
                                    )
                                },
                        ),
                        4,
                    ),
                )
            }),
    {
        let ghost a = self@.state.v[operands.src1.spec_index()].bits;
        let ghost b = self@.state.v[operands.src2.spec_index()].bits;
        let al = self.v(operands.src1).get_u32x4();
        let bl = self.v(operands.src2).get_u32x4();
        let mut c = [0u32;4];
        let mut i: usize = 0;
        while i < 4
            invariant
                i <= 4,
                forall|j: int| 0 <= j < 4 ==> #[trigger] al@[j] == spec_lane32(a, j),
                forall|j: int| 0 <= j < 4 ==> #[trigger] bl@[j] == spec_lane32(b, j),
                forall|j: int| 0 <= j < i ==> #[trigger] c@[j] == (
                    if j < 2 {
                        spec_lane32(a, 2 * j).wrapping_add(spec_lane32(a, 2 * j + 1))
                    } else {
                        spec_lane32(b, 2 * (j - 2)).wrapping_add(spec_lane32(b, 2 * (j - 2) + 1))
                    }
                ),
            decreases 4 - i,
        {
            c[i] = if i < 2 {
                al[2 * i].wrapping_add(al[2 * i + 1])
            } else {
                bl[2 * (i - 2)].wrapping_add(bl[2 * (i - 2) + 1])
            };
            i += 1;
        }
        proof {
            assert(
                c@ =~= Seq::new(
                    4,
                    |i: int|
                        if i < 2 {
                            spec_lane32(a, 2 * i).wrapping_add(spec_lane32(a, 2 * i + 1))
                        } else {
                            spec_lane32(b, 2 * (i - 2)).wrapping_add(
                                spec_lane32(b, 2 * (i - 2) + 1),
                            )
                        },
                )
            );
        }
        self.set_v_u32x4(operands.dst, c);
        ControlFlow::Continue(())
    }

    /// Picks lanes of 8 bits: lane `i` of the result is the lane of
    /// `src1` whose number lane `i` of `src2` holds, or zero for a number
    /// of 16 or more.
    pub fn vswizzlei8x16(&mut self, operands: BinaryOperands<VReg>) -> (r: ControlFlow<Done>)
        ensures
            r is Continue,
            ({
                let a = old(self)@.state.v[operands.src1.spec_index()].bits;
                let b = old(self)@.state.v[operands.src2.spec_index()].bits;
                final(self)@ == old(self)@.set_v128(
                    operands.dst.spec_index(),
                    spec_from_lanes8(
                        Seq::new(
                            16,
                            |i: int|
                                if spec_lane8(b, i) < 16 {
                                    spec_lane8(a, spec_lane8(b, i) as int)
                                } else {
                                    0u8
                                },
                        ),
                        16,
                    ),
                )
            }),
    {
        let ghost a = self@.state.v[operands.src1.spec_index()].bits;
        let ghost b = self@.state.v[operands.src2.spec_index()].bits;
        let al = self.v(operands.src1).get_u8x16();
        let bl = self.v(operands.src2).get_u8x16();
        let mut c = [0u8;16];
        let mut i: usize = 0;
        while i < 16
            invariant
                i <= 16,
                forall|j: int| 0 <= j < 16 ==> #[trigger] al@[j] == spec_lane8(a, j),
                forall|j: int| 0 <= j < 16 ==> #[trigger] bl@[j] == spec_lane8(b, j),
                forall|j: int| 0 <= j < i ==> #[trigger] c@[j] == (
                    if spec_lane8(b, j) < 16 { spec_lane8(a, spec_lane8(b, j) as int) } else { 0u8 }
                ),
            decreases 16 - i,
        {
            c[i] = if bl[i] < 16 { al[bl[i] as usize] } else { 0u8 };
            i += 1;
        }
        proof {
            assert(
                c@ =~= Seq::new(
                    16,
                    |i: int|
                        if spec_lane8(b, i) < 16 {
                            spec_lane8(a, spec_lane8(b, i) as int)
                        } else {
                            0u8
                        },
                )
            );
        }
        self.set_v_u8x16(operands.dst, c);
        ControlFlow::Continue(())
    }

    /// Picks lanes of 8 bits from two vectors: byte `i` of `mask` is the
    /// number of a lane of `src1`, or 16 more than the number of a lane
    /// of `src2`.
    pub fn vshuffle(
        &mut self,
        dst: VReg,
        src1: VReg,
        src2: VReg,
        mask: u128,
    ) -> (r: ControlFlow<Done>)
        requires
            forall|j: int| 0 <= j < 16 ==> spec_lane8(mask, j) < 32,
        ensures
            r is Continue,
            ({
                let a = old(self)@.state.v[src1.spec_index()].bits;
                let b = old(self)@.state.v[src2.spec_index()].bits;
                final(self)@ == old(self)@.set_v128(
                    dst.spec_index(),
                    spec_from_lanes8(
                        Seq::new(
                            16,
                            |i: int|
                                if spec_lane8(mask, i) < 16 {
                                    spec_lane8(a, spec_lane8(mask, i) as int)
                                } else {
                                    spec_lane8(b, spec_lane8(mask, i) - 16)
                                },
                        ),
                        16,
                    ),
                )
            }),
    {
        let ghost a = self@.state.v[src1.spec_index()].bits;
        let ghost b = self@.state.v[src2.spec_index()].bits;
        let al = self.v(src1).get_u8x16();
        let bl = self.v(src2).get_u8x16();
        let ml = (VRegVal { bits: mask }).get_u8x16();
        let mut c = [0u8;16];
        let mut i: usize = 0;
        while i < 16
            invariant
                i <= 16,
                forall|j: int| 0 <= j < 16 ==> #[trigger] al@[j] == spec_lane8(a, j),
                forall|j: int| 0 <= j < 16 ==> #[trigger] bl@[j] == spec_lane8(b, j),
                forall|j: int| 0 <= j < 16 ==> #[trigger] ml@[j] == spec_lane8(mask, j),
                forall|j: int| 0 <= j < 16 ==> spec_lane8(mask, j) < 32,
                forall|j: int| 0 <= j < i ==> #[trigger] c@[j] == (
                    if spec_lane8(mask, j) < 16 {
                        spec_lane8(a, spec_lane8(mask, j) as int)
                    } else {
                        spec_lane8(b, spec_lane8(mask, j) - 16)
                    }
                ),
            decreases 16 - i,
        {
            c[i] = if ml[i] < 16 { al[ml[i] as usize] } else { bl[ml[i] as usize - 16] };
            i += 1;
        }
        proof {
            assert(
                c@ =~= Seq::new(
                    16,
                    |i: int|
                        if spec_lane8(mask, i) < 16 {
                            spec_lane8(a, spec_lane8(mask, i) as int)
                        } else {
                            spec_lane8(b, spec_lane8(mask, i) - 16)
                        },
                )
            );
        }
        self.set_v_u8x16(dst, c);
        ControlFlow::Continue(())
    }

    /// Loads 8 numbers of 8 bits, in little-endian order, at a register
    /// plus a constant, trapping if the register is null, and widens them
    /// to 8 lanes of 16 bits with sign extension.
    pub fn vload8x8_s_z(&mut self, dst: VReg, addr: AddrZ) -> (r: ControlFlow<Done>)
        requires
            old(self)@.can_access(addr, 8),
        ensures
            match addr.spec_addr(old(self)@.state, 8) {
                Some(at) => {
                    let val = old(self)@.state.value_at::<u64>(at);
                    r is Continue && final(self)@ == old(self)@.set_v128(
                        dst.spec_index(),
                        spec_from_lanes16(
                            Seq::new(
                                8,
                                |i: int| ((spec_lane8(val as u128, i) as i8) as i16) as u16,
                            ),
                            8,
                        ),
                    )
                },
                None => r is Break && final(self)@ == old(self)@.trapped(
                    VLoad8x8SZ::spec_width(),
                    Some(TrapKind::MemoryOutOfBounds),
                ),
            },
    {
        let val = match self.load::<u64, VLoad8x8SZ, AddrZ>(addr) {
            ControlFlow::Continue(val) => val,
            ControlFlow::Break(done) => {
                return ControlFlow::Break(done);
            },
        };
        let vl = (VRegVal { bits: val as u128 }).get_u8x16();
        let mut c = [0u16;8];
        let mut i: usize = 0;
        while i < 8
            invariant
                i <= 8,
                forall|j: int| 0 <= j < 16 ==> #[trigger] vl@[j] == spec_lane8(val as u128, j),
                forall|j: int| 0 <= j < i ==> #[trigger] c@[j] == (
                    ((spec_lane8(val as u128, j) as i8) as i16) as u16
                ),
            decreases 8 - i,
        {
            c[i] = bits16(signed8(vl[i]) as i16);
            i += 1;
        }
        proof {
            assert(c@ =~= Seq::new(8, |i: int| ((spec_lane8(val as u128, i) as i8) as i16) as u16));
        }
        self.set_v_u16x8(dst, c);
        ControlFlow::Continue(())
    }

    /// Loads 8 numbers of 8 bits, in little-endian order, at a register
    /// plus a constant, trapping if the register is null, and widens them
    /// to 8 lanes of 16 bits with zero extension.
    pub fn vload8x8_u_z(&mut self, dst: VReg, addr: AddrZ) -> (r: ControlFlow<Done>)
        requires
            old(self)@.can_access(addr, 8),
        ensures
            match addr.spec_addr(old(self)@.state, 8) {
                Some(at) => {
                    let val = old(self)@.state.value_at::<u64>(at);
                    r is Continue && final(self)@ == old(self)@.set_v128(
                        dst.spec_index(),
                        spec_from_lanes16(
                            Seq::new(8, |i: int| spec_lane8(val as u128, i) as u16),
                            8,
                        ),
                    )
                },
                None => r is Break && final(self)@ == old(self)@.trapped(
                    VLoad8x8UZ::spec_width(),
                    Some(TrapKind::MemoryOutOfBounds),
                ),
            },
    {
        let val = match self.load::<u64, VLoad8x8UZ, AddrZ>(addr) {
            ControlFlow::Continue(val) => val,
            ControlFlow::Break(done) => {
                return ControlFlow::Break(done);
            },
        };
        let vl = (VRegVal { bits: val as u128 }).get_u8x16();
        let mut c = [0u16;8];
        let mut i: usize = 0;
        while i < 8
            invariant
                i <= 8,
                forall|j: int| 0 <= j < 16 ==> #[trigger] vl@[j] == spec_lane8(val as u128, j),
                forall|j: int| 0 <= j < i ==> #[trigger] c@[j] == (
                    spec_lane8(val as u128, j) as u16
                ),
            decreases 8 - i,
        {
            c[i] = vl[i] as u16;
            i += 1;
        }
        proof {
            assert(c@ =~= Seq::new(8, |i: int| spec_lane8(val as u128, i) as u16));
        }
        self.set_v_u16x8(dst, c);
        ControlFlow::Continue(())
    }

    /// Loads 4 numbers of 16 bits, in little-endian order, at a register
    /// plus a constant, trapping if the register is null, and widens them
    /// to 4 lanes of 32 bits with sign extension.
    pub fn vload16x4le_s_z(&mut self, dst: VReg, addr: AddrZ) -> (r: ControlFlow<Done>)
        requires
            old(self)@.can_access(addr, 8),
        ensures
            match addr.spec_addr(old(self)@.state, 8) {
                Some(at) => {
                    let val = old(self)@.state.value_at::<u64>(at);
                    r is Continue && final(self)@ == old(self)@.set_v128(
                        dst.spec_index(),
                        spec_from_lanes32(
                            Seq::new(
                                4,
                                |i: int| ((spec_lane16(val as u128, i) as i16) as i32) as u32,
                            ),
                            4,
                        ),
                    )
                },
                None => r is Break && final(self)@ == old(self)@.trapped(
                    VLoad16x4LeSZ::spec_width(),
                    Some(TrapKind::MemoryOutOfBounds),
                ),
            },
    {
        let val = match self.load::<u64, VLoad16x4LeSZ, AddrZ>(addr) {
            ControlFlow::Continue(val) => val,
            ControlFlow::Break(done) => {
                return ControlFlow::Break(done);
            },
        };
        let vl = (VRegVal { bits: val as u128 }).get_u16x8();
        let mut c = [0u32;4];
        let mut i: usize = 0;
        while i < 4
            invariant
                i <= 4,
                forall|j: int| 0 <= j < 8 ==> #[trigger] vl@[j] == spec_lane16(val as u128, j),
                forall|j: int| 0 <= j < i ==> #[trigger] c@[j] == (
                    ((spec_lane16(val as u128, j) as i16) as i32) as u32
                ),
            decreases 4 - i,
        {
            c[i] = bits32(signed16(vl[i]) as i32);
            i += 1;
        }
        proof {
            assert(
                c@ =~= Seq::new(4, |i: int| ((spec_lane16(val as u128, i) as i16) as i32) as u32)
            );
        }
        self.set_v_u32x4(dst, c);
        ControlFlow::Continue(())
    }

    /// Loads 4 numbers of 16 bits, in little-endian order, at a register
    /// plus a constant, trapping if the register is null, and widens them
    /// to 4 lanes of 32 bits with zero extension.
    pub fn vload16x4le_u_z(&mut self, dst: VReg, addr: AddrZ) -> (r: ControlFlow<Done>)
        requires
            old(self)@.can_access(addr, 8),
        ensures
            match addr.spec_addr(old(self)@.state, 8) {
                Some(at) => {
                    let val = old(self)@.state.value_at::<u64>(at);
                    r is Continue && final(self)@ == old(self)@.set_v128(
                        dst.spec_index(),
                        spec_from_lanes32(
                            Seq::new(4, |i: int| spec_lane16(val as u128, i) as u32),
                            4,
                        ),
                    )
                },
                None => r is Break && final(self)@ == old(self)@.trapped(
                    VLoad16x4LeUZ::spec_width(),
                    Some(TrapKind::MemoryOutOfBounds),
                ),
            },
    {
        let val = match self.load::<u64, VLoad16x4LeUZ, AddrZ>(addr) {
            ControlFlow::Continue(val) => val,
            ControlFlow::Break(done) => {
                return ControlFlow::Break(done);
            },
        };
        let vl = (VRegVal { bits: val as u128 }).get_u16x8();
        let mut c = [0u32;4];
        let mut i: usize = 0;
        while i < 4
            invariant
                i <= 4,
                forall|j: int| 0 <= j < 8 ==> #[trigger] vl@[j] == spec_lane16(val as u128, j),
                forall|j: int| 0 <= j < i ==> #[trigger] c@[j] == (
                    spec_lane16(val as u128, j) as u32
                ),
            decreases 4 - i,
        {
            c[i] = vl[i] as u32;
            i += 1;
        }
        proof {
            assert(c@ =~= Seq::new(4, |i: int| spec_lane16(val as u128, i) as u32));
        }
        self.set_v_u32x4(dst, c);
        ControlFlow::Continue(())
    }

    /// Loads 2 numbers of 32 bits, in little-endian order, at a register
    /// plus a constant, trapping if the register is null, and widens them
    /// to 2 lanes of 64 bits with sign extension.
    pub fn vload32x2le_s_z(&mut self, dst: VReg, addr: AddrZ) -> (r: ControlFlow<Done>)
        requires
            old(self)@.can_access(addr, 8),
        ensures
            match addr.spec_addr(old(self)@.state, 8) {
                Some(at) => {
                    let val = old(self)@.state.value_at::<u64>(at);
                    r is Continue && final(self)@ == old(self)@.set_v128(
                        dst.spec_index(),
                        spec_from_lanes64(
                            Seq::new(
                                2,
                                |i: int| ((spec_lane32(val as u128, i) as i32) as i64) as u64,
                            ),
                            2,
                        ),
                    )
                },
                None => r is Break && final(self)@ == old(self)@.trapped(
                    VLoad32x2LeSZ::spec_width(),
                    Some(TrapKind::MemoryOutOfBounds),
                ),
            },
    {
        let val = match self.load::<u64, VLoad32x2LeSZ, AddrZ>(addr) {
            ControlFlow::Continue(val) => val,
            ControlFlow::Break(done) => {
                return ControlFlow::Break(done);
            },
        };
        let vl = (VRegVal { bits: val as u128 }).get_u32x4();
        let mut c = [0u64;2];
        let mut i: usize = 0;
        while i < 2
            invariant
                i <= 2,
                forall|j: int| 0 <= j < 4 ==> #[trigger] vl@[j] == spec_lane32(val as u128, j),
                forall|j: int| 0 <= j < i ==> #[trigger] c@[j] == (
                    ((spec_lane32(val as u128, j) as i32) as i64) as u64
                ),
            decreases 2 - i,
        {
            c[i] = bits64(signed32(vl[i]) as i64);
            i += 1;
        }
        proof {
            assert(
                c@ =~= Seq::new(2, |i: int| ((spec_lane32(val as u128, i) as i32) as i64) as u64)
            );
        }
        self.set_v_u64x2(dst, c);
        ControlFlow::Continue(())
    }

    /// Loads 2 numbers of 32 bits, in little-endian order, at a register
    /// plus a constant, trapping if the register is null, and widens them
    /// to 2 lanes of 64 bits with zero extension.
    pub fn vload32x2le_u_z(&mut self, dst: VReg, addr: AddrZ) -> (r: ControlFlow<Done>)
        requires
            old(self)@.can_access(addr, 8),
        ensures
            match addr.spec_addr(old(self)@.state, 8) {
                Some(at) => {
                    let val = old(self)@.state.value_at::<u64>(at);
                    r is Continue && final(self)@ == old(self)@.set_v128(
                        dst.spec_index(),
                        spec_from_lanes64(
                            Seq::new(2, |i: int| spec_lane32(val as u128, i) as u64),
                            2,
                        ),
                    )
                },
                None => r is Break && final(self)@ == old(self)@.trapped(
                    VLoad32x2LeUZ::spec_width(),
                    Some(TrapKind::MemoryOutOfBounds),
                ),
            },
    {
        let val = match self.load::<u64, VLoad32x2LeUZ, AddrZ>(addr) {
            ControlFlow::Continue(val) => val,
            ControlFlow::Break(done) => {
                return ControlFlow::Break(done);
            },
        };
        let vl = (VRegVal { bits: val as u128 }).get_u32x4();
        let mut c = [0u64;2];
        let mut i: usize = 0;
        while i < 2
            invariant
                i <= 2,
                forall|j: int| 0 <= j < 4 ==> #[trigger] vl@[j] == spec_lane32(val as u128, j),
                forall|j: int| 0 <= j < i ==> #[trigger] c@[j] == (
                    spec_lane32(val as u128, j) as u64
                ),
            decreases 2 - i,
        {
            c[i] = vl[i] as u64;
            i += 1;
        }
        proof {
            assert(c@ =~= Seq::new(2, |i: int| spec_lane32(val as u128, i) as u64));
        }
        self.set_v_u64x2(dst, c);
        ControlFlow::Continue(())
    }

    /// Copies lane `lane` of 16 lanes of 8 bits to an integer register,
    /// with zero extension.
    pub fn xextractv8x16(&mut self, dst: XReg, src: VReg, lane: u8) -> (r: ControlFlow<Done>)
        requires
            lane < 16,
        ensures
            r is Continue,
            final(self)@ == old(self)@.set_x_u32(
                dst.spec_index(),
                spec_lane8(old(self)@.state.v[src.spec_index()].bits, lane as int) as u32,
            ),
    {
        let a = self.v(src).get_u8x16();
        self.set_x_u32(dst, a[lane as usize] as u32);
        ControlFlow::Continue(())
    }

    /// Copies lane `lane` of 8 lanes of 16 bits to an integer register,
    /// with zero extension.
    pub fn xextractv16x8(&mut self, dst: XReg, src: VReg, lane: u8) -> (r: ControlFlow<Done>)
        requires
            lane < 8,
        ensures
            r is Continue,
            final(self)@ == old(self)@.set_x_u32(
                dst.spec_index(),
                spec_lane16(old(self)@.state.v[src.spec_index()].bits, lane as int) as u32,
            ),
    {
        let a = self.v(src).get_u16x8();
        self.set_x_u32(dst, a[lane as usize] as u32);
        ControlFlow::Continue(())
    }

    /// Copies lane `lane` of 4 lanes of 32 bits to an integer register,
    /// with zero extension.
    pub fn xextractv32x4(&mut self, dst: XReg, src: VReg, lane: u8) -> (r: ControlFlow<Done>)
        requires
            lane < 4,
        ensures
            r is Continue,
            final(self)@ == old(self)@.set_x_u32(
                dst.spec_index(),
                spec_lane32(old(self)@.state.v[src.spec_index()].bits, lane as int),
            ),
    {
        let a = self.v(src).get_u32x4();
        self.set_x_u32(dst, a[lane as usize]);
        ControlFlow::Continue(())
    }

    /// Copies lane `lane` of 2 lanes of 64 bits to an integer register,
    /// with zero extension.
    pub fn xextractv64x2(&mut self, dst: XReg, src: VReg, lane: u8) -> (r: ControlFlow<Done>)
        requires
            lane < 2,
        ensures
            r is Continue,
            final(self)@ == old(self)@.set_x_u64(
                dst.spec_index(),
                spec_lane64(old(self)@.state.v[src.spec_index()].bits, lane as int),
            ),
    {
        let a = self.v(src).get_u64x2();
        self.set_x_u64(dst, a[lane as usize]);
        ControlFlow::Continue(())
    }

    /// Copies lane `lane` of 4 lanes of 32 bits to a float register, as
    /// the bits of a floating-point number.
    pub fn fextractv32x4(&mut self, dst: FReg, src: VReg, lane: u8) -> (r: ControlFlow<Done>)
        requires
            lane < 4,
        ensures
            r is Continue,
            final(self)@ == old(self)@.set_f32_bits(
                dst.spec_index(),
                spec_lane32(old(self)@.state.v[src.spec_index()].bits, lane as int),
            ),
    {
        let a = self.v(src).get_u32x4();
        self.set_f32_bits(dst, a[lane as usize]);
        ControlFlow::Continue(())
    }

    /// Copies lane `lane` of 2 lanes of 64 bits to a float register, as
    /// the bits of a floating-point number.
    pub fn fextractv64x2(&mut self, dst: FReg, src: VReg, lane: u8) -> (r: ControlFlow<Done>)
        requires
            lane < 2,
        ensures
            r is Continue,
            final(self)@ == old(self)@.set_f64_bits(
                dst.spec_index(),
                spec_lane64(old(self)@.state.v[src.spec_index()].bits, lane as int),
            ),
    {
        let a = self.v(src).get_u64x2();
        self.set_f64_bits(dst, a[lane as usize]);
        ControlFlow::Continue(())
    }

    /// Gathers the highest bit of each of 16 lanes of 8 bits: bit `i` of
    /// the result is the highest bit of lane `i`.
    pub fn vbitmask8x16(&mut self, dst: XReg, src: VReg) -> (r: ControlFlow<Done>)
        ensures
            r is Continue,
            final(self)@ == old(self)@.set_x_u32(
                dst.spec_index(),
                spec_bitmask8(old(self)@.state.v[src.spec_index()].bits, 16),
            ),
    {
        let ghost bits = self@.state.v[src.spec_index()].bits;
        let a = self.v(src).get_u8x16();
        let mut result: u32 = 0;
        let mut i: usize = 0;
        while i < 16
            invariant
                i <= 16,
                forall|j: int| 0 <= j < 16 ==> #[trigger] a@[j] == spec_lane8(bits, j),
                result == spec_bitmask8(bits, i as nat),
            decreases 16 - i,
        {
            result = result | (((a[i] >> 7) as u32) << (i as u32));
            i += 1;
        }
        self.set_x_u32(dst, result);
        ControlFlow::Continue(())
    }

    /// Sets the lower half of `dst` to 1 if every one of 16 lanes of 8
    /// bits is other than zero, else to 0.
    pub fn valltrue8x16(&mut self, dst: XReg, src: VReg) -> (r: ControlFlow<Done>)
        ensures
            r is Continue,
            ({
                let bits = old(self)@.state.v[src.spec_index()].bits;
                final(self)@ == old(self)@.set_x_u32(
                    dst.spec_index(),
                    if forall|j: int| 0 <= j < 16 ==> spec_lane8(bits, j) != 0 {
                        1u32
                    } else {
                        0u32
                    },
                )
            }),
    {
        let ghost bits = self@.state.v[src.spec_index()].bits;
        let a = self.v(src).get_u8x16();
        let mut all = true;
        let mut i: usize = 0;
        while i < 16
            invariant
                i <= 16,
                forall|j: int| 0 <= j < 16 ==> #[trigger] a@[j] == spec_lane8(bits, j),
                all == (forall|j: int| 0 <= j < i ==> spec_lane8(bits, j) != 0),
            decreases 16 - i,
        {
            if a[i] == 0 {
                all = false;
            }
            i += 1;
        }
        self.set_x_u32(
            dst,
            if all {
                1
            } else {
                0
            },
        );
        ControlFlow::Continue(())
    }

    /// Sets the lower half of `dst` to 1 if one of 16 lanes of 8 bits is
    /// other than zero, else to 0.
    pub fn vanytrue8x16(&mut self, dst: XReg, src: VReg) -> (r: ControlFlow<Done>)
        ensures
            r is Continue,
            ({
                let bits = old(self)@.state.v[src.spec_index()].bits;
                final(self)@ == old(self)@.set_x_u32(
                    dst.spec_index(),
                    if exists|j: int| 0 <= j < 16 && spec_lane8(bits, j) != 0 {
                        1u32
                    } else {
                        0u32
                    },
                )
            }),
    {
        let ghost bits = self@.state.v[src.spec_index()].bits;
        let a = self.v(src).get_u8x16();
        let mut any = false;
        let mut i: usize = 0;
        while i < 16
            invariant
                i <= 16,
                forall|j: int| 0 <= j < 16 ==> #[trigger] a@[j] == spec_lane8(bits, j),
                any == (exists|j: int| 0 <= j < i && spec_lane8(bits, j) != 0),
            decreases 16 - i,
        {
            if a[i] != 0 {
                any = true;
            }
            i += 1;
        }
        self.set_x_u32(
            dst,
            if any {
                1
            } else {
                0
            },
        );
        ControlFlow::Continue(())
    }

    /// Gathers the highest bit of each of 8 lanes of 16 bits: bit `i` of
    /// the result is the highest bit of lane `i`.
    pub fn vbitmask16x8(&mut self, dst: XReg, src: VReg) -> (r: ControlFlow<Done>)
        ensures
            r is Continue,
            final(self)@ == old(self)@.set_x_u32(
                dst.spec_index(),
                spec_bitmask16(old(self)@.state.v[src.spec_index()].bits, 8),
            ),
    {
        let ghost bits = self@.state.v[src.spec_index()].bits;
        let a = self.v(src).get_u16x8();
        let mut result: u32 = 0;
        let mut i: usize = 0;
        while i < 8
            invariant
                i <= 8,
                forall|j: int| 0 <= j < 8 ==> #[trigger] a@[j] == spec_lane16(bits, j),
                result == spec_bitmask16(bits, i as nat),
            decreases 8 - i,
        {
            result = result | (((a[i] >> 15) as u32) << (i as u32));
            i += 1;
        }
        self.set_x_u32(dst, result);
        ControlFlow::Continue(())
    }

    /// Sets the lower half of `dst` to 1 if every one of 8 lanes of 16
    /// bits is other than zero, else to 0.
    pub fn valltrue16x8(&mut self, dst: XReg, src: VReg) -> (r: ControlFlow<Done>)
        ensures
            r is Continue,
            ({
                let bits = old(self)@.state.v[src.spec_index()].bits;
                final(self)@ == old(self)@.set_x_u32(
                    dst.spec_index(),
                    if forall|j: int| 0 <= j < 8 ==> spec_lane16(bits, j) != 0 {
                        1u32
                    } else {
                        0u32
                    },
                )
            }),
    {
        let ghost bits = self@.state.v[src.spec_index()].bits;
        let a = self.v(src).get_u16x8();
        let mut all = true;
        let mut i: usize = 0;
        while i < 8
            invariant
                i <= 8,
                forall|j: int| 0 <= j < 8 ==> #[trigger] a@[j] == spec_lane16(bits, j),
                all == (forall|j: int| 0 <= j < i ==> spec_lane16(bits, j) != 0),
            decreases 8 - i,
        {
            if a[i] == 0 {
                all = false;
            }
            i += 1;
        }
        self.set_x_u32(
            dst,
            if all {
                1
            } else {
                0
            },
        );
        ControlFlow::Continue(())
    }

    /// Sets the lower half of `dst` to 1 if one of 8 lanes of 16 bits is
    /// other than zero, else to 0.
    pub fn vanytrue16x8(&mut self, dst: XReg, src: VReg) -> (r: ControlFlow<Done>)
        ensures
            r is Continue,
            ({
                let bits = old(self)@.state.v[src.spec_index()].bits;
                final(self)@ == old(self)@.set_x_u32(
                    dst.spec_index(),
                    if exists|j: int| 0 <= j < 8 && spec_lane16(bits, j) != 0 {
                        1u32
                    } else {
                        0u32
                    },
                )
            }),
    {
        let ghost bits = self@.state.v[src.spec_index()].bits;
        let a = self.v(src).get_u16x8();
        let mut any = false;
        let mut i: usize = 0;
        while i < 8
            invariant
                i <= 8,
                forall|j: int| 0 <= j < 8 ==> #[trigger] a@[j] == spec_lane16(bits, j),
                any == (exists|j: int| 0 <= j < i && spec_lane16(bits, j) != 0),
            decreases 8 - i,
        {
            if a[i] != 0 {
                any = true;
            }
            i += 1;
        }
        self.set_x_u32(
            dst,
            if any {
                1
            } else {
                0
            },
        );
        ControlFlow::Continue(())
    }

    /// Gathers the highest bit of each of 4 lanes of 32 bits: bit `i` of
    /// the result is the highest bit of lane `i`.
    pub fn vbitmask32x4(&mut self, dst: XReg, src: VReg) -> (r: ControlFlow<Done>)
        ensures
            r is Continue,
            final(self)@ == old(self)@.set_x_u32(
                dst.spec_index(),
                spec_bitmask32(old(self)@.state.v[src.spec_index()].bits, 4),
            ),
    {
        let ghost bits = self@.state.v[src.spec_index()].bits;
        let a = self.v(src).get_u32x4();
        let mut result: u32 = 0;
        let mut i: usize = 0;
        while i < 4
            invariant
                i <= 4,
                forall|j: int| 0 <= j < 4 ==> #[trigger] a@[j] == spec_lane32(bits, j),
                result == spec_bitmask32(bits, i as nat),
            decreases 4 - i,
        {
            result = result | (((a[i] >> 31) as u32) << (i as u32));
            i += 1;
        }
        self.set_x_u32(dst, result);
        ControlFlow::Continue(())
    }

    /// Sets the lower half of `dst` to 1 if every one of 4 lanes of 32
    /// bits is other than zero, else to 0.
    pub fn valltrue32x4(&mut self, dst: XReg, src: VReg) -> (r: ControlFlow<Done>)
        ensures
            r is Continue,
            ({
                let bits = old(self)@.state.v[src.spec_index()].bits;
                final(self)@ == old(self)@.set_x_u32(
                    dst.spec_index(),
                    if forall|j: int| 0 <= j < 4 ==> spec_lane32(bits, j) != 0 {
                        1u32
                    } else {
                        0u32
                    },
                )
            }),
    {
        let ghost bits = self@.state.v[src.spec_index()].bits;
        let a = self.v(src).get_u32x4();
        let mut all = true;
        let mut i: usize = 0;
        while i < 4
            invariant
                i <= 4,
                forall|j: int| 0 <= j < 4 ==> #[trigger] a@[j] == spec_lane32(bits, j),
                all == (forall|j: int| 0 <= j < i ==> spec_lane32(bits, j) != 0),
            decreases 4 - i,
        {
            if a[i] == 0 {
                all = false;
            }
            i += 1;
        }
        self.set_x_u32(
            dst,
            if all {
                1
            } else {
                0
            },
        );
        ControlFlow::Continue(())
    }

    /// Sets the lower half of `dst` to 1 if one of 4 lanes of 32 bits is
    /// other than zero, else to 0.
    pub fn vanytrue32x4(&mut self, dst: XReg, src: VReg) -> (r: ControlFlow<Done>)
        ensures
            r is Continue,
            ({
                let bits = old(self)@.state.v[src.spec_index()].bits;
                final(self)@ == old(self)@.set_x_u32(
                    dst.spec_index(),
                    if exists|j: int| 0 <= j < 4 && spec_lane32(bits, j) != 0 {
                        1u32
                    } else {
                        0u32
                    },
                )
            }),
    {
        let ghost bits = self@.state.v[src.spec_index()].bits;
        let a = self.v(src).get_u32x4();
        let mut any = false;
        let mut i: usize = 0;
        while i < 4
            invariant
                i <= 4,
                forall|j: int| 0 <= j < 4 ==> #[trigger] a@[j] == spec_lane32(bits, j),
                any == (exists|j: int| 0 <= j < i && spec_lane32(bits, j) != 0),
            decreases 4 - i,
        {
            if a[i] != 0 {
                any = true;
            }
            i += 1;
        }
        self.set_x_u32(
            dst,
            if any {
                1
            } else {
                0
            },
        );
        ControlFlow::Continue(())
    }

    /// Gathers the highest bit of each of 2 lanes of 64 bits: bit `i` of
    /// the result is the highest bit of lane `i`.
    pub fn vbitmask64x2(&mut self, dst: XReg, src: VReg) -> (r: ControlFlow<Done>)
        ensures
            r is Continue,
            final(self)@ == old(self)@.set_x_u32(
                dst.spec_index(),
                spec_bitmask64(old(self)@.state.v[src.spec_index()].bits, 2),
            ),
    {
        let ghost bits = self@.state.v[src.spec_index()].bits;
        let a = self.v(src).get_u64x2();
        let mut result: u32 = 0;
        let mut i: usize = 0;
        while i < 2
            invariant
                i <= 2,
                forall|j: int| 0 <= j < 2 ==> #[trigger] a@[j] == spec_lane64(bits, j),
                result == spec_bitmask64(bits, i as nat),
            decreases 2 - i,
        {
            result = result | (((a[i] >> 63) as u32) << (i as u32));
            i += 1;
        }
        self.set_x_u32(dst, result);
        ControlFlow::Continue(())
    }

    /// Sets the lower half of `dst` to 1 if every one of 2 lanes of 64
    /// bits is other than zero, else to 0.
    pub fn valltrue64x2(&mut self, dst: XReg, src: VReg) -> (r: ControlFlow<Done>)
        ensures
            r is Continue,
            ({
                let bits = old(self)@.state.v[src.spec_index()].bits;
                final(self)@ == old(self)@.set_x_u32(
                    dst.spec_index(),
                    if forall|j: int| 0 <= j < 2 ==> spec_lane64(bits, j) != 0 {
                        1u32
                    } else {
                        0u32
                    },
                )
            }),
    {
        let ghost bits = self@.state.v[src.spec_index()].bits;
        let a = self.v(src).get_u64x2();
        let mut all = true;
        let mut i: usize = 0;
        while i < 2
            invariant
                i <= 2,
                forall|j: int| 0 <= j < 2 ==> #[trigger] a@[j] == spec_lane64(bits, j),
                all == (forall|j: int| 0 <= j < i ==> spec_lane64(bits, j) != 0),
            decreases 2 - i,
        {
            if a[i] == 0 {
                all = false;
            }
            i += 1;
        }
        self.set_x_u32(
            dst,
            if all {
                1
            } else {
                0
            },
        );
        ControlFlow::Continue(())
    }

    /// Sets the lower half of `dst` to 1 if one of 2 lanes of 64 bits is
    /// other than zero, else to 0.
    pub fn vanytrue64x2(&mut self, dst: XReg, src: VReg) -> (r: ControlFlow<Done>)
        ensures
            r is Continue,
            ({
                let bits = old(self)@.state.v[src.spec_index()].bits;
                final(self)@ == old(self)@.set_x_u32(
                    dst.spec_index(),
                    if exists|j: int| 0 <= j < 2 && spec_lane64(bits, j) != 0 {
                        1u32
                    } else {
                        0u32
                    },
                )
            }),
    {
        let ghost bits = self@.state.v[src.spec_index()].bits;
        let a = self.v(src).get_u64x2();
        let mut any = false;
        let mut i: usize = 0;
        while i < 2
            invariant
                i <= 2,
                forall|j: int| 0 <= j < 2 ==> #[trigger] a@[j] == spec_lane64(bits, j),
                any == (exists|j: int| 0 <= j < i && spec_lane64(bits, j) != 0),
            decreases 2 - i,
        {
            if a[i] != 0 {
                any = true;
            }
            i += 1;
        }
        self.set_x_u32(
            dst,
            if any {
                1
            } else {
                0
            },
        );
        ControlFlow::Continue(())
    }

    /// Chooses between two vectors: `if_nonzero` unless the lower half of
    /// `cond` is zero.
    pub fn vselect(&mut self, dst: VReg, cond: XReg, if_nonzero: VReg, if_zero: VReg) -> (r:
        ControlFlow<Done>)
        ensures
            r is Continue,
            final(self)@ == old(self)@.set_v(
                dst.spec_index(),
                if old(self)@.x_u32(cond.spec_index()) != 0 {
                    old(self)@.state.v[if_nonzero.spec_index()]
                } else {
                    old(self)@.state.v[if_zero.spec_index()]
                },
            ),
    {
        let result = if self.x_u32(cond) != 0 {
            self.v(if_nonzero)
        } else {
            self.v(if_zero)
        };
        self.set_v(dst, result);
        ControlFlow::Continue(())
    }
}

} // verus!
