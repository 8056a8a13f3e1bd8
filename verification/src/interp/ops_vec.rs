//! The handlers of the vector instructions that work lane by lane.

use crate::interp::bits::{count_ones32, spec_count_ones};
use crate::interp::fconv::{
    saturated, spec_saturated, spec_trunc_f32, spec_trunc_f64, trunc_f32, trunc_f64,
};
use crate::interp::lanes::{
    bits16, bits32, bits64, bits8, clamp_i16, clamp_i8, clamp_u16, clamp_u8, qmulr, signed16,
    signed32, signed64, signed8, spec_clamp_i16, spec_clamp_i8, spec_clamp_u16, spec_clamp_u8,
    spec_from_lanes16, spec_from_lanes32, spec_from_lanes64, spec_from_lanes8, spec_lane16,
    spec_lane32, spec_lane64, spec_lane8, spec_qmulr,
};
use crate::interp::machine::Interpreter;
use crate::interp::regs::{BinaryOperands, VReg, XReg};
use crate::interp::state::Done;
use core::ops::ControlFlow;
use vstd::prelude::*;

verus! {

impl Interpreter {
    /// Adds lane by lane, in 16 lanes of 8 bits, wrapping around.
    pub fn vaddi8x16(&mut self, operands: BinaryOperands<VReg>) -> (r: ControlFlow<Done>)
        ensures
            r is Continue,
            ({
                let a = old(self)@.state.v[operands.src1.spec_index()].bits;
                let b = old(self)@.state.v[operands.src2.spec_index()].bits;
                final(self)@ == old(self)@.set_v128(
                    operands.dst.spec_index(),
                    spec_from_lanes8(
                        Seq::new(
                            16,
                            |i: int|
                                {
                                    let x = spec_lane8(a, i);
                                    let y = spec_lane8(b, i);
                                    x.wrapping_add(y)
                                },
                        ),
                        16,
                    ),
                )
            }),
    {
        let ghost a = self@.state.v[operands.src1.spec_index()].bits;
        let ghost b = self@.state.v[operands.src2.spec_index()].bits;
        let al = self.v(operands.src1).get_u8x16();
        let bl = self.v(operands.src2).get_u8x16();
        let mut c = [0u8;16];
        let mut i: usize = 0;
        while i < 16
            invariant
                i <= 16,
                forall|j: int| 0 <= j < 16 ==> #[trigger] al@[j] == spec_lane8(a, j),
                forall|j: int| 0 <= j < 16 ==> #[trigger] bl@[j] == spec_lane8(b, j),
                forall|j: int|
                    0 <= j < i ==> #[trigger] c@[j] == ({
                        let x = spec_lane8(a, j);
                        let y = spec_lane8(b, j);
                        x.wrapping_add(y)
                    }),
            decreases 16 - i,
        {
            let x = al[i];
            let y = bl[i];
            c[i] = x.wrapping_add(y);
            i += 1;
        }
        proof {
            assert(c@ =~= Seq::new(
                16,
                |i: int|
                    {
                        let x = spec_lane8(a, i);
                        let y = spec_lane8(b, i);
                        x.wrapping_add(y)
                    },
            ));
        }
        self.set_v_u8x16(operands.dst, c);
        ControlFlow::Continue(())
    }

    /// Subtracts lane by lane, in 16 lanes of 8 bits, wrapping around.
    pub fn vsubi8x16(&mut self, operands: BinaryOperands<VReg>) -> (r: ControlFlow<Done>)
        ensures
            r is Continue,
            ({
                let a = old(self)@.state.v[operands.src1.spec_index()].bits;
                let b = old(self)@.state.v[operands.src2.spec_index()].bits;
                final(self)@ == old(self)@.set_v128(
                    operands.dst.spec_index(),
                    spec_from_lanes8(
                        Seq::new(
                            16,
                            |i: int|
                                {
                                    let x = spec_lane8(a, i);
                                    let y = spec_lane8(b, i);
                                    x.wrapping_sub(y)
                                },
                        ),
                        16,
                    ),
                )
            }),
    {
        let ghost a = self@.state.v[operands.src1.spec_index()].bits;
        let ghost b = self@.state.v[operands.src2.spec_index()].bits;
        let al = self.v(operands.src1).get_u8x16();
        let bl = self.v(operands.src2).get_u8x16();
        let mut c = [0u8;16];
        let mut i: usize = 0;
        while i < 16
            invariant
                i <= 16,
                forall|j: int| 0 <= j < 16 ==> #[trigger] al@[j] == spec_lane8(a, j),
                forall|j: int| 0 <= j < 16 ==> #[trigger] bl@[j] == spec_lane8(b, j),
                forall|j: int|
                    0 <= j < i ==> #[trigger] c@[j] == ({
                        let x = spec_lane8(a, j);
                        let y = spec_lane8(b, j);
                        x.wrapping_sub(y)
                    }),
            decreases 16 - i,
        {
            let x = al[i];
            let y = bl[i];
            c[i] = x.wrapping_sub(y);
            i += 1;
        }
        proof {
            assert(c@ =~= Seq::new(
                16,
                |i: int|
                    {
                        let x = spec_lane8(a, i);
                        let y = spec_lane8(b, i);
                        x.wrapping_sub(y)
                    },
            ));
        }
        self.set_v_u8x16(operands.dst, c);
        ControlFlow::Continue(())
    }

    /// Multiplies lane by lane, in 16 lanes of 8 bits, wrapping around.
    pub fn vmuli8x16(&mut self, operands: BinaryOperands<VReg>) -> (r: ControlFlow<Done>)
        ensures
            r is Continue,
            ({
                let a = old(self)@.state.v[operands.src1.spec_index()].bits;
                let b = old(self)@.state.v[operands.src2.spec_index()].bits;
                final(self)@ == old(self)@.set_v128(
                    operands.dst.spec_index(),
                    spec_from_lanes8(
                        Seq::new(
                            16,
                            |i: int|
                                {
                                    let x = spec_lane8(a, i);
                                    let y = spec_lane8(b, i);
                                    x.wrapping_mul(y)
                                },
                        ),
                        16,
                    ),
                )
            }),
    {
        let ghost a = self@.state.v[operands.src1.spec_index()].bits;
        let ghost b = self@.state.v[operands.src2.spec_index()].bits;
        let al = self.v(operands.src1).get_u8x16();
        let bl = self.v(operands.src2).get_u8x16();
        let mut c = [0u8;16];
        let mut i: usize = 0;
        while i < 16
            invariant
                i <= 16,
                forall|j: int| 0 <= j < 16 ==> #[trigger] al@[j] == spec_lane8(a, j),
                forall|j: int| 0 <= j < 16 ==> #[trigger] bl@[j] == spec_lane8(b, j),
                forall|j: int|
                    0 <= j < i ==> #[trigger] c@[j] == ({
                        let x = spec_lane8(a, j);
                        let y = spec_lane8(b, j);
                        x.wrapping_mul(y)
                    }),
            decreases 16 - i,
        {
            let x = al[i];
            let y = bl[i];
            c[i] = x.wrapping_mul(y);
            i += 1;
        }
        proof {
            assert(c@ =~= Seq::new(
                16,
                |i: int|
                    {
                        let x = spec_lane8(a, i);
                        let y = spec_lane8(b, i);
                        x.wrapping_mul(y)
                    },
            ));
        }
        self.set_v_u8x16(operands.dst, c);
        ControlFlow::Continue(())
    }

    /// Adds lane by lane, in 8 lanes of 16 bits, wrapping around.
    pub fn vaddi16x8(&mut self, operands: BinaryOperands<VReg>) -> (r: ControlFlow<Done>)
        ensures
            r is Continue,
            ({
                let a = old(self)@.state.v[operands.src1.spec_index()].bits;
                let b = old(self)@.state.v[operands.src2.spec_index()].bits;
                final(self)@ == old(self)@.set_v128(
                    operands.dst.spec_index(),
                    spec_from_lanes16(
                        Seq::new(
                            8,
                            |i: int|
                                {
                                    let x = spec_lane16(a, i);
                                    let y = spec_lane16(b, i);
                                    x.wrapping_add(y)
                                },
                        ),
                        8,
                    ),
                )
            }),
    {
        let ghost a = self@.state.v[operands.src1.spec_index()].bits;
        let ghost b = self@.state.v[operands.src2.spec_index()].bits;
        let al = self.v(operands.src1).get_u16x8();
        let bl = self.v(operands.src2).get_u16x8();
        let mut c = [0u16;8];
        let mut i: usize = 0;
        while i < 8
            invariant
                i <= 8,
                forall|j: int| 0 <= j < 8 ==> #[trigger] al@[j] == spec_lane16(a, j),
                forall|j: int| 0 <= j < 8 ==> #[trigger] bl@[j] == spec_lane16(b, j),
                forall|j: int|
                    0 <= j < i ==> #[trigger] c@[j] == ({
                        let x = spec_lane16(a, j);
                        let y = spec_lane16(b, j);
                        x.wrapping_add(y)
                    }),
            decreases 8 - i,
        {
            let x = al[i];
            let y = bl[i];
            c[i] = x.wrapping_add(y);
            i += 1;
        }
        proof {
            assert(c@ =~= Seq::new(
                8,
                |i: int|
                    {
                        let x = spec_lane16(a, i);
                        let y = spec_lane16(b, i);
                        x.wrapping_add(y)
                    },
            ));
        }
        self.set_v_u16x8(operands.dst, c);
        ControlFlow::Continue(())
    }

    /// Subtracts lane by lane, in 8 lanes of 16 bits, wrapping around.
    pub fn vsubi16x8(&mut self, operands: BinaryOperands<VReg>) -> (r: ControlFlow<Done>)
        ensures
            r is Continue,
            ({
                let a = old(self)@.state.v[operands.src1.spec_index()].bits;
                let b = old(self)@.state.v[operands.src2.spec_index()].bits;
                final(self)@ == old(self)@.set_v128(
                    operands.dst.spec_index(),
                    spec_from_lanes16(
                        Seq::new(
                            8,
                            |i: int|
                                {
                                    let x = spec_lane16(a, i);
                                    let y = spec_lane16(b, i);
                                    x.wrapping_sub(y)
                                },
                        ),
                        8,
                    ),
                )
            }),
    {
        let ghost a = self@.state.v[operands.src1.spec_index()].bits;
        let ghost b = self@.state.v[operands.src2.spec_index()].bits;
        let al = self.v(operands.src1).get_u16x8();
        let bl = self.v(operands.src2).get_u16x8();
        let mut c = [0u16;8];
        let mut i: usize = 0;
        while i < 8
            invariant
                i <= 8,
                forall|j: int| 0 <= j < 8 ==> #[trigger] al@[j] == spec_lane16(a, j),
                forall|j: int| 0 <= j < 8 ==> #[trigger] bl@[j] == spec_lane16(b, j),
                forall|j: int|
                    0 <= j < i ==> #[trigger] c@[j] == ({
                        let x = spec_lane16(a, j);
                        let y = spec_lane16(b, j);
                        x.wrapping_sub(y)
                    }),
            decreases 8 - i,
        {
            let x = al[i];
            let y = bl[i];
            c[i] = x.wrapping_sub(y);
            i += 1;
        }
        proof {
            assert(c@ =~= Seq::new(
                8,
                |i: int|
                    {
                        let x = spec_lane16(a, i);
                        let y = spec_lane16(b, i);
                        x.wrapping_sub(y)
                    },
            ));
        }
        self.set_v_u16x8(operands.dst, c);
        ControlFlow::Continue(())
    }

    /// Multiplies lane by lane, in 8 lanes of 16 bits, wrapping around.
    pub fn vmuli16x8(&mut self, operands: BinaryOperands<VReg>) -> (r: ControlFlow<Done>)
        ensures
            r is Continue,
            ({
                let a = old(self)@.state.v[operands.src1.spec_index()].bits;
                let b = old(self)@.state.v[operands.src2.spec_index()].bits;
                final(self)@ == old(self)@.set_v128(
                    operands.dst.spec_index(),
                    spec_from_lanes16(
                        Seq::new(
                            8,
                            |i: int|
                                {
                                    let x = spec_lane16(a, i);
                                    let y = spec_lane16(b, i);
                                    x.wrapping_mul(y)
                                },
                        ),
                        8,
                    ),
                )
            }),
    {
        let ghost a = self@.state.v[operands.src1.spec_index()].bits;
        let ghost b = self@.state.v[operands.src2.spec_index()].bits;
        let al = self.v(operands.src1).get_u16x8();
        let bl = self.v(operands.src2).get_u16x8();
        let mut c = [0u16;8];
        let mut i: usize = 0;
        while i < 8
            invariant
                i <= 8,
                forall|j: int| 0 <= j < 8 ==> #[trigger] al@[j] == spec_lane16(a, j),
                forall|j: int| 0 <= j < 8 ==> #[trigger] bl@[j] == spec_lane16(b, j),
                forall|j: int|
                    0 <= j < i ==> #[trigger] c@[j] == ({
                        let x = spec_lane16(a, j);
                        let y = spec_lane16(b, j);
                        x.wrapping_mul(y)
                    }),
            decreases 8 - i,
        {
            let x = al[i];
            let y = bl[i];
            c[i] = x.wrapping_mul(y);
            i += 1;
        }
        proof {
            assert(c@ =~= Seq::new(
                8,
                |i: int|
                    {
                        let x = spec_lane16(a, i);
                        let y = spec_lane16(b, i);
                        x.wrapping_mul(y)
                    },
            ));
        }
        self.set_v_u16x8(operands.dst, c);
        ControlFlow::Continue(())
    }

    /// Adds lane by lane, in 4 lanes of 32 bits, wrapping around.
    pub fn vaddi32x4(&mut self, operands: BinaryOperands<VReg>) -> (r: ControlFlow<Done>)
        ensures
            r is Continue,
            ({
                let a = old(self)@.state.v[operands.src1.spec_index()].bits;
                let b = old(self)@.state.v[operands.src2.spec_index()].bits;
                final(self)@ == old(self)@.set_v128(
                    operands.dst.spec_index(),
                    spec_from_lanes32(
                        Seq::new(
                            4,
                            |i: int|
                                {
                                    let x = spec_lane32(a, i);
                                    let y = spec_lane32(b, i);
                                    x.wrapping_add(y)
                                },
                        ),
                        4,
                    ),
                )
            }),
    {
        let ghost a = self@.state.v[operands.src1.spec_index()].bits;
        let ghost b = self@.state.v[operands.src2.spec_index()].bits;
        let al = self.v(operands.src1).get_u32x4();
        let bl = self.v(operands.src2).get_u32x4();
        let mut c = [0u32;4];
        let mut i: usize = 0;
        while i < 4
            invariant
                i <= 4,
                forall|j: int| 0 <= j < 4 ==> #[trigger] al@[j] == spec_lane32(a, j),
                forall|j: int| 0 <= j < 4 ==> #[trigger] bl@[j] == spec_lane32(b, j),
                forall|j: int|
                    0 <= j < i ==> #[trigger] c@[j] == ({
                        let x = spec_lane32(a, j);
                        let y = spec_lane32(b, j);
                        x.wrapping_add(y)
                    }),
            decreases 4 - i,
        {
            let x = al[i];
            let y = bl[i];
            c[i] = x.wrapping_add(y);
            i += 1;
        }
        proof {
            assert(c@ =~= Seq::new(
                4,
                |i: int|
                    {
                        let x = spec_lane32(a, i);
                        let y = spec_lane32(b, i);
                        x.wrapping_add(y)
                    },
            ));
        }
        self.set_v_u32x4(operands.dst, c);
        ControlFlow::Continue(())
    }

    /// Subtracts lane by lane, in 4 lanes of 32 bits, wrapping around.
    pub fn vsubi32x4(&mut self, operands: BinaryOperands<VReg>) -> (r: ControlFlow<Done>)
        ensures
            r is Continue,
            ({
                let a = old(self)@.state.v[operands.src1.spec_index()].bits;
                let b = old(self)@.state.v[operands.src2.spec_index()].bits;
                final(self)@ == old(self)@.set_v128(
                    operands.dst.spec_index(),
                    spec_from_lanes32(
                        Seq::new(
                            4,
                            |i: int|
                                {
                                    let x = spec_lane32(a, i);
                                    let y = spec_lane32(b, i);
                                    x.wrapping_sub(y)
                                },
                        ),
                        4,
                    ),
                )
            }),
    {
        let ghost a = self@.state.v[operands.src1.spec_index()].bits;
        let ghost b = self@.state.v[operands.src2.spec_index()].bits;
        let al = self.v(operands.src1).get_u32x4();
        let bl = self.v(operands.src2).get_u32x4();
        let mut c = [0u32;4];
        let mut i: usize = 0;
        while i < 4
            invariant
                i <= 4,
                forall|j: int| 0 <= j < 4 ==> #[trigger] al@[j] == spec_lane32(a, j),
                forall|j: int| 0 <= j < 4 ==> #[trigger] bl@[j] == spec_lane32(b, j),
                forall|j: int|
                    0 <= j < i ==> #[trigger] c@[j] == ({
                        let x = spec_lane32(a, j);
                        let y = spec_lane32(b, j);
                        x.wrapping_sub(y)
                    }),
            decreases 4 - i,
        {
            let x = al[i];
            let y = bl[i];
            c[i] = x.wrapping_sub(y);
            i += 1;
        }
        proof {
            assert(c@ =~= Seq::new(
                4,
                |i: int|
                    {
                        let x = spec_lane32(a, i);
                        let y = spec_lane32(b, i);
                        x.wrapping_sub(y)
                    },
            ));
        }
        self.set_v_u32x4(operands.dst, c);
        ControlFlow::Continue(())
    }

    /// Multiplies lane by lane, in 4 lanes of 32 bits, wrapping around.
    pub fn vmuli32x4(&mut self, operands: BinaryOperands<VReg>) -> (r: ControlFlow<Done>)
        ensures
            r is Continue,
            ({
                let a = old(self)@.state.v[operands.src1.spec_index()].bits;
                let b = old(self)@.state.v[operands.src2.spec_index()].bits;
                final(self)@ == old(self)@.set_v128(
                    operands.dst.spec_index(),
                    spec_from_lanes32(
                        Seq::new(
                            4,
                            |i: int|
                                {
                                    let x = spec_lane32(a, i);
                                    let y = spec_lane32(b, i);
                                    x.wrapping_mul(y)
                                },
                        ),
                        4,
                    ),
                )
            }),
    {
        let ghost a = self@.state.v[operands.src1.spec_index()].bits;
        let ghost b = self@.state.v[operands.src2.spec_index()].bits;
        let al = self.v(operands.src1).get_u32x4();
        let bl = self.v(operands.src2).get_u32x4();
        let mut c = [0u32;4];
        let mut i: usize = 0;
        while i < 4
            invariant
                i <= 4,
                forall|j: int| 0 <= j < 4 ==> #[trigger] al@[j] == spec_lane32(a, j),
                forall|j: int| 0 <= j < 4 ==> #[trigger] bl@[j] == spec_lane32(b, j),
                forall|j: int|
                    0 <= j < i ==> #[trigger] c@[j] == ({
                        let x = spec_lane32(a, j);
                        let y = spec_lane32(b, j);
                        x.wrapping_mul(y)
                    }),
            decreases 4 - i,
        {
            let x = al[i];
            let y = bl[i];
            c[i] = x.wrapping_mul(y);
            i += 1;
        }
        proof {
            assert(c@ =~= Seq::new(
                4,
                |i: int|
                    {
                        let x = spec_lane32(a, i);
                        let y = spec_lane32(b, i);
                        x.wrapping_mul(y)
                    },
            ));
        }
        self.set_v_u32x4(operands.dst, c);
        ControlFlow::Continue(())
    }

    /// Adds lane by lane, in 2 lanes of 64 bits, wrapping around.
    pub fn vaddi64x2(&mut self, operands: BinaryOperands<VReg>) -> (r: ControlFlow<Done>)
        ensures
            r is Continue,
            ({
                let a = old(self)@.state.v[operands.src1.spec_index()].bits;
                let b = old(self)@.state.v[operands.src2.spec_index()].bits;
                final(self)@ == old(self)@.set_v128(
                    operands.dst.spec_index(),
                    spec_from_lanes64(
                        Seq::new(
                            2,
                            |i: int|
                                {
                                    let x = spec_lane64(a, i);
                                    let y = spec_lane64(b, i);
                                    x.wrapping_add(y)
                                },
                        ),
                        2,
                    ),
                )
            }),
    {
        let ghost a = self@.state.v[operands.src1.spec_index()].bits;
        let ghost b = self@.state.v[operands.src2.spec_index()].bits;
        let al = self.v(operands.src1).get_u64x2();
        let bl = self.v(operands.src2).get_u64x2();
        let mut c = [0u64;2];
        let mut i: usize = 0;
        while i < 2
            invariant
                i <= 2,
                forall|j: int| 0 <= j < 2 ==> #[trigger] al@[j] == spec_lane64(a, j),
                forall|j: int| 0 <= j < 2 ==> #[trigger] bl@[j] == spec_lane64(b, j),
                forall|j: int|
                    0 <= j < i ==> #[trigger] c@[j] == ({
                        let x = spec_lane64(a, j);
                        let y = spec_lane64(b, j);
                        x.wrapping_add(y)
                    }),
            decreases 2 - i,
        {
            let x = al[i];
            let y = bl[i];
            c[i] = x.wrapping_add(y);
            i += 1;
        }
        proof {
            assert(c@ =~= Seq::new(
                2,
                |i: int|
                    {
                        let x = spec_lane64(a, i);
                        let y = spec_lane64(b, i);
                        x.wrapping_add(y)
                    },
            ));
        }
        self.set_v_u64x2(operands.dst, c);
        ControlFlow::Continue(())
    }

    /// Subtracts lane by lane, in 2 lanes of 64 bits, wrapping around.
    pub fn vsubi64x2(&mut self, operands: BinaryOperands<VReg>) -> (r: ControlFlow<Done>)
        ensures
            r is Continue,
            ({
                let a = old(self)@.state.v[operands.src1.spec_index()].bits;
                let b = old(self)@.state.v[operands.src2.spec_index()].bits;
                final(self)@ == old(self)@.set_v128(
                    operands.dst.spec_index(),
                    spec_from_lanes64(
                        Seq::new(
                            2,
                            |i: int|
                                {
                                    let x = spec_lane64(a, i);
                                    let y = spec_lane64(b, i);
                                    x.wrapping_sub(y)
                                },
                        ),
                        2,
                    ),
                )
            }),
    {
        let ghost a = self@.state.v[operands.src1.spec_index()].bits;
        let ghost b = self@.state.v[operands.src2.spec_index()].bits;
        let al = self.v(operands.src1).get_u64x2();
        let bl = self.v(operands.src2).get_u64x2();
        let mut c = [0u64;2];
        let mut i: usize = 0;
        while i < 2
            invariant
                i <= 2,
                forall|j: int| 0 <= j < 2 ==> #[trigger] al@[j] == spec_lane64(a, j),
                forall|j: int| 0 <= j < 2 ==> #[trigger] bl@[j] == spec_lane64(b, j),
                forall|j: int|
                    0 <= j < i ==> #[trigger] c@[j] == ({
                        let x = spec_lane64(a, j);
                        let y = spec_lane64(b, j);
                        x.wrapping_sub(y)
                    }),
            decreases 2 - i,
        {
            let x = al[i];
            let y = bl[i];
            c[i] = x.wrapping_sub(y);
            i += 1;
        }
        proof {
            assert(c@ =~= Seq::new(
                2,
                |i: int|
                    {
                        let x = spec_lane64(a, i);
                        let y = spec_lane64(b, i);
                        x.wrapping_sub(y)
                    },
            ));
        }
        self.set_v_u64x2(operands.dst, c);
        ControlFlow::Continue(())
    }

    /// Multiplies lane by lane, in 2 lanes of 64 bits, wrapping around.
    pub fn vmuli64x2(&mut self, operands: BinaryOperands<VReg>) -> (r: ControlFlow<Done>)
        ensures
            r is Continue,
            ({
                let a = old(self)@.state.v[operands.src1.spec_index()].bits;
                let b = old(self)@.state.v[operands.src2.spec_index()].bits;
                final(self)@ == old(self)@.set_v128(
                    operands.dst.spec_index(),
                    spec_from_lanes64(
                        Seq::new(
                            2,
                            |i: int|
                                {
                                    let x = spec_lane64(a, i);
                                    let y = spec_lane64(b, i);
                                    x.wrapping_mul(y)
                                },
                        ),
                        2,
                    ),
                )
            }),
    {
        let ghost a = self@.state.v[operands.src1.spec_index()].bits;
        let ghost b = self@.state.v[operands.src2.spec_index()].bits;
        let al = self.v(operands.src1).get_u64x2();
        let bl = self.v(operands.src2).get_u64x2();
        let mut c = [0u64;2];
        let mut i: usize = 0;
        while i < 2
            invariant
                i <= 2,
                forall|j: int| 0 <= j < 2 ==> #[trigger] al@[j] == spec_lane64(a, j),
                forall|j: int| 0 <= j < 2 ==> #[trigger] bl@[j] == spec_lane64(b, j),
                forall|j: int|
                    0 <= j < i ==> #[trigger] c@[j] == ({
                        let x = spec_lane64(a, j);
                        let y = spec_lane64(b, j);
                        x.wrapping_mul(y)
                    }),
            decreases 2 - i,
        {
            let x = al[i];
            let y = bl[i];
            c[i] = x.wrapping_mul(y);
            i += 1;
        }
        proof {
            assert(c@ =~= Seq::new(
                2,
                |i: int|
                    {
                        let x = spec_lane64(a, i);
                        let y = spec_lane64(b, i);
                        x.wrapping_mul(y)
                    },
            ));
        }
        self.set_v_u64x2(operands.dst, c);
        ControlFlow::Continue(())
    }

    /// Adds signed numbers lane by lane, in 16 lanes of 8 bits: a sum
    /// beyond a bound of the lane gives that bound.
    pub fn vaddi8x16_sat(&mut self, operands: BinaryOperands<VReg>) -> (r: ControlFlow<Done>)
        ensures
            r is Continue,
            ({
                let a = old(self)@.state.v[operands.src1.spec_index()].bits;
                let b = old(self)@.state.v[operands.src2.spec_index()].bits;
                final(self)@ == old(self)@.set_v128(
                    operands.dst.spec_index(),
                    spec_from_lanes8(
                        Seq::new(
                            16,
                            |i: int|
                                {
                                    let x = spec_lane8(a, i);
                                    let y = spec_lane8(b, i);
                                    spec_clamp_i8((x as i8) + (y as i8)) as u8
                                },
                        ),
                        16,
                    ),
                )
            }),
    {
        let ghost a = self@.state.v[operands.src1.spec_index()].bits;
        let ghost b = self@.state.v[operands.src2.spec_index()].bits;
        let al = self.v(operands.src1).get_u8x16();
        let bl = self.v(operands.src2).get_u8x16();
        let mut c = [0u8;16];
        let mut i: usize = 0;
        while i < 16
            invariant
                i <= 16,
                forall|j: int| 0 <= j < 16 ==> #[trigger] al@[j] == spec_lane8(a, j),
                forall|j: int| 0 <= j < 16 ==> #[trigger] bl@[j] == spec_lane8(b, j),
                forall|j: int|
                    0 <= j < i ==> #[trigger] c@[j] == ({
                        let x = spec_lane8(a, j);
                        let y = spec_lane8(b, j);
                        spec_clamp_i8((x as i8) + (y as i8)) as u8
                    }),
            decreases 16 - i,
        {
            let x = al[i];
            let y = bl[i];
            c[i] = bits8(clamp_i8(signed8(x) as i32 + signed8(y) as i32));
            i += 1;
        }
        proof {
            assert(c@ =~= Seq::new(
                16,
                |i: int|
                    {
                        let x = spec_lane8(a, i);
                        let y = spec_lane8(b, i);
                        spec_clamp_i8((x as i8) + (y as i8)) as u8
                    },
            ));
        }
        self.set_v_u8x16(operands.dst, c);
        ControlFlow::Continue(())
    }

    /// Adds unsigned numbers lane by lane, in 16 lanes of 8 bits: a sum
    /// beyond the greatest number of the lane gives that number.
    pub fn vaddu8x16_sat(&mut self, operands: BinaryOperands<VReg>) -> (r: ControlFlow<Done>)
        ensures
            r is Continue,
            ({
                let a = old(self)@.state.v[operands.src1.spec_index()].bits;
                let b = old(self)@.state.v[operands.src2.spec_index()].bits;
                final(self)@ == old(self)@.set_v128(
                    operands.dst.spec_index(),
                    spec_from_lanes8(
                        Seq::new(
                            16,
                            |i: int|
                                {
                                    let x = spec_lane8(a, i);
                                    let y = spec_lane8(b, i);
                                    spec_clamp_u8(x + y)
                                },
                        ),
                        16,
                    ),
                )
            }),
    {
        let ghost a = self@.state.v[operands.src1.spec_index()].bits;
        let ghost b = self@.state.v[operands.src2.spec_index()].bits;
        let al = self.v(operands.src1).get_u8x16();
        let bl = self.v(operands.src2).get_u8x16();
        let mut c = [0u8;16];
        let mut i: usize = 0;
        while i < 16
            invariant
                i <= 16,
                forall|j: int| 0 <= j < 16 ==> #[trigger] al@[j] == spec_lane8(a, j),
                forall|j: int| 0 <= j < 16 ==> #[trigger] bl@[j] == spec_lane8(b, j),
                forall|j: int|
                    0 <= j < i ==> #[trigger] c@[j] == ({
                        let x = spec_lane8(a, j);
                        let y = spec_lane8(b, j);
                        spec_clamp_u8(x + y)
                    }),
            decreases 16 - i,
        {
            let x = al[i];
            let y = bl[i];
            c[i] = clamp_u8(x as i32 + y as i32);
            i += 1;
        }
        proof {
            assert(c@ =~= Seq::new(
                16,
                |i: int|
                    {
                        let x = spec_lane8(a, i);
                        let y = spec_lane8(b, i);
                        spec_clamp_u8(x + y)
                    },
            ));
        }
        self.set_v_u8x16(operands.dst, c);
        ControlFlow::Continue(())
    }

    /// Subtracts signed numbers lane by lane, in 16 lanes of 8 bits: a
    /// difference beyond a bound of the lane gives that bound.
    pub fn vsubi8x16_sat(&mut self, operands: BinaryOperands<VReg>) -> (r: ControlFlow<Done>)
        ensures
            r is Continue,
            ({
                let a = old(self)@.state.v[operands.src1.spec_index()].bits;
                let b = old(self)@.state.v[operands.src2.spec_index()].bits;
                final(self)@ == old(self)@.set_v128(
                    operands.dst.spec_index(),
                    spec_from_lanes8(
                        Seq::new(
                            16,
                            |i: int|
                                {
                                    let x = spec_lane8(a, i);
                                    let y = spec_lane8(b, i);
                                    spec_clamp_i8((x as i8) - (y as i8)) as u8
                                },
                        ),
                        16,
                    ),
                )
            }),
    {
        let ghost a = self@.state.v[operands.src1.spec_index()].bits;
        let ghost b = self@.state.v[operands.src2.spec_index()].bits;
        let al = self.v(operands.src1).get_u8x16();
        let bl = self.v(operands.src2).get_u8x16();
        let mut c = [0u8;16];
        let mut i: usize = 0;
        while i < 16
            invariant
                i <= 16,
                forall|j: int| 0 <= j < 16 ==> #[trigger] al@[j] == spec_lane8(a, j),
                forall|j: int| 0 <= j < 16 ==> #[trigger] bl@[j] == spec_lane8(b, j),
                forall|j: int|
                    0 <= j < i ==> #[trigger] c@[j] == ({
                        let x = spec_lane8(a, j);
                        let y = spec_lane8(b, j);
                        spec_clamp_i8((x as i8) - (y as i8)) as u8
                    }),
            decreases 16 - i,
        {
            let x = al[i];
            let y = bl[i];
            c[i] = bits8(clamp_i8(signed8(x) as i32 - signed8(y) as i32));
            i += 1;
        }
        proof {
            assert(c@ =~= Seq::new(
                16,
                |i: int|
                    {
                        let x = spec_lane8(a, i);
                        let y = spec_lane8(b, i);
                        spec_clamp_i8((x as i8) - (y as i8)) as u8
                    },
            ));
        }
        self.set_v_u8x16(operands.dst, c);
        ControlFlow::Continue(())
    }

    /// Subtracts unsigned numbers lane by lane, in 16 lanes of 8 bits: a
    /// difference below zero gives zero.
    pub fn vsubu8x16_sat(&mut self, operands: BinaryOperands<VReg>) -> (r: ControlFlow<Done>)
        ensures
            r is Continue,
            ({
                let a = old(self)@.state.v[operands.src1.spec_index()].bits;
                let b = old(self)@.state.v[operands.src2.spec_index()].bits;
                final(self)@ == old(self)@.set_v128(
                    operands.dst.spec_index(),
                    spec_from_lanes8(
                        Seq::new(
                            16,
                            |i: int|
                                {
                                    let x = spec_lane8(a, i);
                                    let y = spec_lane8(b, i);
                                    spec_clamp_u8(x - y)
                                },
                        ),
                        16,
                    ),
                )
            }),
    {
        let ghost a = self@.state.v[operands.src1.spec_index()].bits;
        let ghost b = self@.state.v[operands.src2.spec_index()].bits;
        let al = self.v(operands.src1).get_u8x16();
        let bl = self.v(operands.src2).get_u8x16();
        let mut c = [0u8;16];
        let mut i: usize = 0;
        while i < 16
            invariant
                i <= 16,
                forall|j: int| 0 <= j < 16 ==> #[trigger] al@[j] == spec_lane8(a, j),
                forall|j: int| 0 <= j < 16 ==> #[trigger] bl@[j] == spec_lane8(b, j),
                forall|j: int|
                    0 <= j < i ==> #[trigger] c@[j] == ({
                        let x = spec_lane8(a, j);
                        let y = spec_lane8(b, j);
                        spec_clamp_u8(x - y)
                    }),
            decreases 16 - i,
        {
            let x = al[i];
            let y = bl[i];
            c[i] = clamp_u8(x as i32 - y as i32);
            i += 1;
        }
        proof {
            assert(c@ =~= Seq::new(
                16,
                |i: int|
                    {
                        let x = spec_lane8(a, i);
                        let y = spec_lane8(b, i);
                        spec_clamp_u8(x - y)
                    },
            ));
        }
        self.set_v_u8x16(operands.dst, c);
        ControlFlow::Continue(())
    }

    /// Adds signed numbers lane by lane, in 8 lanes of 16 bits: a sum
    /// beyond a bound of the lane gives that bound.
    pub fn vaddi16x8_sat(&mut self, operands: BinaryOperands<VReg>) -> (r: ControlFlow<Done>)
        ensures
            r is Continue,
            ({
                let a = old(self)@.state.v[operands.src1.spec_index()].bits;
                let b = old(self)@.state.v[operands.src2.spec_index()].bits;
                final(self)@ == old(self)@.set_v128(
                    operands.dst.spec_index(),
                    spec_from_lanes16(
                        Seq::new(
                            8,
                            |i: int|
                                {
                                    let x = spec_lane16(a, i);
                                    let y = spec_lane16(b, i);
                                    spec_clamp_i16((x as i16) + (y as i16)) as u16
                                },
                        ),
                        8,
                    ),
                )
            }),
    {
        let ghost a = self@.state.v[operands.src1.spec_index()].bits;
        let ghost b = self@.state.v[operands.src2.spec_index()].bits;
        let al = self.v(operands.src1).get_u16x8();
        let bl = self.v(operands.src2).get_u16x8();
        let mut c = [0u16;8];
        let mut i: usize = 0;
        while i < 8
            invariant
                i <= 8,
                forall|j: int| 0 <= j < 8 ==> #[trigger] al@[j] == spec_lane16(a, j),
                forall|j: int| 0 <= j < 8 ==> #[trigger] bl@[j] == spec_lane16(b, j),
                forall|j: int|
                    0 <= j < i ==> #[trigger] c@[j] == ({
                        let x = spec_lane16(a, j);
                        let y = spec_lane16(b, j);
                        spec_clamp_i16((x as i16) + (y as i16)) as u16
                    }),
            decreases 8 - i,
        {
            let x = al[i];
            let y = bl[i];
            c[i] = bits16(clamp_i16(signed16(x) as i32 + signed16(y) as i32));
            i += 1;
        }
        proof {
            assert(c@ =~= Seq::new(
                8,
                |i: int|
                    {
                        let x = spec_lane16(a, i);
                        let y = spec_lane16(b, i);
                        spec_clamp_i16((x as i16) + (y as i16)) as u16
                    },
            ));
        }
        self.set_v_u16x8(operands.dst, c);
        ControlFlow::Continue(())
    }

    /// Adds unsigned numbers lane by lane, in 8 lanes of 16 bits: a sum
    /// beyond the greatest number of the lane gives that number.
    pub fn vaddu16x8_sat(&mut self, operands: BinaryOperands<VReg>) -> (r: ControlFlow<Done>)
        ensures
            r is Continue,
            ({
                let a = old(self)@.state.v[operands.src1.spec_index()].bits;
                let b = old(self)@.state.v[operands.src2.spec_index()].bits;
                final(self)@ == old(self)@.set_v128(
                    operands.dst.spec_index(),
                    spec_from_lanes16(
                        Seq::new(
                            8,
                            |i: int|
                                {
                                    let x = spec_lane16(a, i);
                                    let y = spec_lane16(b, i);
                                    spec_clamp_u16(x + y)
                                },
                        ),
                        8,
                    ),
                )
            }),
    {
        let ghost a = self@.state.v[operands.src1.spec_index()].bits;
        let ghost b = self@.state.v[operands.src2.spec_index()].bits;
        let al = self.v(operands.src1).get_u16x8();
        let bl = self.v(operands.src2).get_u16x8();
        let mut c = [0u16;8];
        let mut i: usize = 0;
        while i < 8
            invariant
                i <= 8,
                forall|j: int| 0 <= j < 8 ==> #[trigger] al@[j] == spec_lane16(a, j),
                forall|j: int| 0 <= j < 8 ==> #[trigger] bl@[j] == spec_lane16(b, j),
                forall|j: int|
                    0 <= j < i ==> #[trigger] c@[j] == ({
                        let x = spec_lane16(a, j);
                        let y = spec_lane16(b, j);
                        spec_clamp_u16(x + y)
                    }),
            decreases 8 - i,
        {
            let x = al[i];
            let y = bl[i];
            c[i] = clamp_u16(x as i32 + y as i32);
            i += 1;
        }
        proof {
            assert(c@ =~= Seq::new(
                8,
                |i: int|
                    {
                        let x = spec_lane16(a, i);
                        let y = spec_lane16(b, i);
                        spec_clamp_u16(x + y)
                    },
            ));
        }
        self.set_v_u16x8(operands.dst, c);
        ControlFlow::Continue(())
    }

    /// Subtracts signed numbers lane by lane, in 8 lanes of 16 bits: a
    /// difference beyond a bound of the lane gives that bound.
    pub fn vsubi16x8_sat(&mut self, operands: BinaryOperands<VReg>) -> (r: ControlFlow<Done>)
        ensures
            r is Continue,
            ({
                let a = old(self)@.state.v[operands.src1.spec_index()].bits;
                let b = old(self)@.state.v[operands.src2.spec_index()].bits;
                final(self)@ == old(self)@.set_v128(
                    operands.dst.spec_index(),
                    spec_from_lanes16(
                        Seq::new(
                            8,
                            |i: int|
                                {
                                    let x = spec_lane16(a, i);
                                    let y = spec_lane16(b, i);
                                    spec_clamp_i16((x as i16) - (y as i16)) as u16
                                },
                        ),
                        8,
                    ),
                )
            }),
    {
        let ghost a = self@.state.v[operands.src1.spec_index()].bits;
        let ghost b = self@.state.v[operands.src2.spec_index()].bits;
        let al = self.v(operands.src1).get_u16x8();
        let bl = self.v(operands.src2).get_u16x8();
        let mut c = [0u16;8];
        let mut i: usize = 0;
        while i < 8
            invariant
                i <= 8,
                forall|j: int| 0 <= j < 8 ==> #[trigger] al@[j] == spec_lane16(a, j),
                forall|j: int| 0 <= j < 8 ==> #[trigger] bl@[j] == spec_lane16(b, j),
                forall|j: int|
                    0 <= j < i ==> #[trigger] c@[j] == ({
                        let x = spec_lane16(a, j);
                        let y = spec_lane16(b, j);
                        spec_clamp_i16((x as i16) - (y as i16)) as u16
                    }),
            decreases 8 - i,
        {
            let x = al[i];
            let y = bl[i];
            c[i] = bits16(clamp_i16(signed16(x) as i32 - signed16(y) as i32));
            i += 1;
        }
        proof {
            assert(c@ =~= Seq::new(
                8,
                |i: int|
                    {
                        let x = spec_lane16(a, i);
                        let y = spec_lane16(b, i);
                        spec_clamp_i16((x as i16) - (y as i16)) as u16
                    },
            ));
        }
        self.set_v_u16x8(operands.dst, c);
        ControlFlow::Continue(())
    }

    /// Subtracts unsigned numbers lane by lane, in 8 lanes of 16 bits: a
    /// difference below zero gives zero.
    pub fn vsubu16x8_sat(&mut self, operands: BinaryOperands<VReg>) -> (r: ControlFlow<Done>)
        ensures
            r is Continue,
            ({
                let a = old(self)@.state.v[operands.src1.spec_index()].bits;
                let b = old(self)@.state.v[operands.src2.spec_index()].bits;
                final(self)@ == old(self)@.set_v128(
                    operands.dst.spec_index(),
                    spec_from_lanes16(
                        Seq::new(
                            8,
                            |i: int|
                                {
                                    let x = spec_lane16(a, i);
                                    let y = spec_lane16(b, i);
                                    spec_clamp_u16(x - y)
                                },
                        ),
                        8,
                    ),
                )
            }),
    {
        let ghost a = self@.state.v[operands.src1.spec_index()].bits;
        let ghost b = self@.state.v[operands.src2.spec_index()].bits;
        let al = self.v(operands.src1).get_u16x8();
        let bl = self.v(operands.src2).get_u16x8();
        let mut c = [0u16;8];
        let mut i: usize = 0;
        while i < 8
            invariant
                i <= 8,
                forall|j: int| 0 <= j < 8 ==> #[trigger] al@[j] == spec_lane16(a, j),
                forall|j: int| 0 <= j < 8 ==> #[trigger] bl@[j] == spec_lane16(b, j),
                forall|j: int|
                    0 <= j < i ==> #[trigger] c@[j] == ({
                        let x = spec_lane16(a, j);
                        let y = spec_lane16(b, j);
                        spec_clamp_u16(x - y)
                    }),
            decreases 8 - i,
        {
            let x = al[i];
            let y = bl[i];
            c[i] = clamp_u16(x as i32 - y as i32);
            i += 1;
        }
        proof {
            assert(c@ =~= Seq::new(
                8,
                |i: int|
                    {
                        let x = spec_lane16(a, i);
                        let y = spec_lane16(b, i);
                        spec_clamp_u16(x - y)
                    },
            ));
        }
        self.set_v_u16x8(operands.dst, c);
        ControlFlow::Continue(())
    }

    /// Shifts each of 16 lanes of 8 bits left by the amount in `src2`,
    /// taken modulo 8.
    pub fn vshli8x16(
        &mut self,
        operands: BinaryOperands<VReg, VReg, XReg>,
    ) -> (r: ControlFlow<Done>)
        ensures
            r is Continue,
            ({
                let a = old(self)@.state.v[operands.src1.spec_index()].bits;
                let s = old(self)@.x_u32(operands.src2.spec_index());
                final(self)@ == old(self)@.set_v128(
                    operands.dst.spec_index(),
                    spec_from_lanes8(
                        Seq::new(
                            16,
                            |i: int|
                                {
                                    let x = spec_lane8(a, i);
                                    x.wrapping_shl(s)
                                },
                        ),
                        16,
                    ),
                )
            }),
    {
        let ghost a = self@.state.v[operands.src1.spec_index()].bits;
        let al = self.v(operands.src1).get_u8x16();
        let s = self.x_u32(operands.src2);
        let mut c = [0u8;16];
        let mut i: usize = 0;
        while i < 16
            invariant
                s == old(self)@.x_u32(operands.src2.spec_index()),
                i <= 16,
                forall|j: int| 0 <= j < 16 ==> #[trigger] al@[j] == spec_lane8(a, j),
                forall|j: int|
                    0 <= j < i ==> #[trigger] c@[j] == ({
                        let x = spec_lane8(a, j);
                        x.wrapping_shl(s)
                    }),
            decreases 16 - i,
        {
            let x = al[i];
            c[i] = x.wrapping_shl(s);
            i += 1;
        }
        proof {
            let s = old(self)@.x_u32(operands.src2.spec_index());
            assert(c@ =~= Seq::new(
                16,
                |i: int|
                    {
                        let x = spec_lane8(a, i);
                        x.wrapping_shl(s)
                    },
            ));
        }
        self.set_v_u8x16(operands.dst, c);
        ControlFlow::Continue(())
    }

    /// Shifts each of 16 lanes of 8 bits right by the amount in `src2`,
    /// taken modulo 8; the sign fills in.
    pub fn vshri8x16_s(
        &mut self,
        operands: BinaryOperands<VReg, VReg, XReg>,
    ) -> (r: ControlFlow<Done>)
        ensures
            r is Continue,
            ({
                let a = old(self)@.state.v[operands.src1.spec_index()].bits;
                let s = old(self)@.x_u32(operands.src2.spec_index());
                final(self)@ == old(self)@.set_v128(
                    operands.dst.spec_index(),
                    spec_from_lanes8(
                        Seq::new(
                            16,
                            |i: int|
                                {
                                    let x = spec_lane8(a, i);
                                    (x as i8).wrapping_shr(s) as u8
                                },
                        ),
                        16,
                    ),
                )
            }),
    {
        let ghost a = self@.state.v[operands.src1.spec_index()].bits;
        let al = self.v(operands.src1).get_u8x16();
        let s = self.x_u32(operands.src2);
        let mut c = [0u8;16];
        let mut i: usize = 0;
        while i < 16
            invariant
                s == old(self)@.x_u32(operands.src2.spec_index()),
                i <= 16,
                forall|j: int| 0 <= j < 16 ==> #[trigger] al@[j] == spec_lane8(a, j),
                forall|j: int|
                    0 <= j < i ==> #[trigger] c@[j] == ({
                        let x = spec_lane8(a, j);
                        (x as i8).wrapping_shr(s) as u8
                    }),
            decreases 16 - i,
        {
            let x = al[i];
            c[i] = bits8(signed8(x).wrapping_shr(s));
            i += 1;
        }
        proof {
            let s = old(self)@.x_u32(operands.src2.spec_index());
            assert(c@ =~= Seq::new(
                16,
                |i: int|
                    {
                        let x = spec_lane8(a, i);
                        (x as i8).wrapping_shr(s) as u8
                    },
            ));
        }
        self.set_v_u8x16(operands.dst, c);
        ControlFlow::Continue(())
    }

    /// Shifts each of 16 lanes of 8 bits right by the amount in `src2`,
    /// taken modulo 8; zeros fill in.
    pub fn vshri8x16_u(
        &mut self,
        operands: BinaryOperands<VReg, VReg, XReg>,
    ) -> (r: ControlFlow<Done>)
        ensures
            r is Continue,
            ({
                let a = old(self)@.state.v[operands.src1.spec_index()].bits;
                let s = old(self)@.x_u32(operands.src2.spec_index());
                final(self)@ == old(self)@.set_v128(
                    operands.dst.spec_index(),
                    spec_from_lanes8(
                        Seq::new(
                            16,
                            |i: int|
                                {
                                    let x = spec_lane8(a, i);
                                    x.wrapping_shr(s)
                                },
                        ),
                        16,
                    ),
                )
            }),
    {
        let ghost a = self@.state.v[operands.src1.spec_index()].bits;
        let al = self.v(operands.src1).get_u8x16();
        let s = self.x_u32(operands.src2);
        let mut c = [0u8;16];
        let mut i: usize = 0;
        while i < 16
            invariant
                s == old(self)@.x_u32(operands.src2.spec_index()),
                i <= 16,
                forall|j: int| 0 <= j < 16 ==> #[trigger] al@[j] == spec_lane8(a, j),
                forall|j: int|
                    0 <= j < i ==> #[trigger] c@[j] == ({
                        let x = spec_lane8(a, j);
                        x.wrapping_shr(s)
                    }),
            decreases 16 - i,
        {
            let x = al[i];
            c[i] = x.wrapping_shr(s);
            i += 1;
        }
        proof {
            let s = old(self)@.x_u32(operands.src2.spec_index());
            assert(c@ =~= Seq::new(
                16,
                |i: int|
                    {
                        let x = spec_lane8(a, i);
                        x.wrapping_shr(s)
                    },
            ));
        }
        self.set_v_u8x16(operands.dst, c);
        ControlFlow::Continue(())
    }

    /// Shifts each of 8 lanes of 16 bits left by the amount in `src2`,
    /// taken modulo 16.
    pub fn vshli16x8(
        &mut self,
        operands: BinaryOperands<VReg, VReg, XReg>,
    ) -> (r: ControlFlow<Done>)
        ensures
            r is Continue,
            ({
                let a = old(self)@.state.v[operands.src1.spec_index()].bits;
                let s = old(self)@.x_u32(operands.src2.spec_index());
                final(self)@ == old(self)@.set_v128(
                    operands.dst.spec_index(),
                    spec_from_lanes16(
                        Seq::new(
                            8,
                            |i: int|
                                {
                                    let x = spec_lane16(a, i);
                                    x.wrapping_shl(s)
                                },
                        ),
                        8,
                    ),
                )
            }),
    {
        let ghost a = self@.state.v[operands.src1.spec_index()].bits;
        let al = self.v(operands.src1).get_u16x8();
        let s = self.x_u32(operands.src2);
        let mut c = [0u16;8];
        let mut i: usize = 0;
        while i < 8
            invariant
                s == old(self)@.x_u32(operands.src2.spec_index()),
                i <= 8,
                forall|j: int| 0 <= j < 8 ==> #[trigger] al@[j] == spec_lane16(a, j),
                forall|j: int|
                    0 <= j < i ==> #[trigger] c@[j] == ({
                        let x = spec_lane16(a, j);
                        x.wrapping_shl(s)
                    }),
            decreases 8 - i,
        {
            let x = al[i];
            c[i] = x.wrapping_shl(s);
            i += 1;
        }
        proof {
            let s = old(self)@.x_u32(operands.src2.spec_index());
            assert(c@ =~= Seq::new(
                8,
                |i: int|
                    {
                        let x = spec_lane16(a, i);
                        x.wrapping_shl(s)
                    },
            ));
        }
        self.set_v_u16x8(operands.dst, c);
        ControlFlow::Continue(())
    }

    /// Shifts each of 8 lanes of 16 bits right by the amount in `src2`,
    /// taken modulo 16; the sign fills in.
    pub fn vshri16x8_s(
        &mut self,
        operands: BinaryOperands<VReg, VReg, XReg>,
    ) -> (r: ControlFlow<Done>)
        ensures
            r is Continue,
            ({
                let a = old(self)@.state.v[operands.src1.spec_index()].bits;
                let s = old(self)@.x_u32(operands.src2.spec_index());
                final(self)@ == old(self)@.set_v128(
                    operands.dst.spec_index(),
                    spec_from_lanes16(
                        Seq::new(
                            8,
                            |i: int|
                                {
                                    let x = spec_lane16(a, i);
                                    (x as i16).wrapping_shr(s) as u16
                                },
                        ),
                        8,
                    ),
                )
            }),
    {
        let ghost a = self@.state.v[operands.src1.spec_index()].bits;
        let al = self.v(operands.src1).get_u16x8();
        let s = self.x_u32(operands.src2);
        let mut c = [0u16;8];
        let mut i: usize = 0;
        while i < 8
            invariant
                s == old(self)@.x_u32(operands.src2.spec_index()),
                i <= 8,
                forall|j: int| 0 <= j < 8 ==> #[trigger] al@[j] == spec_lane16(a, j),
                forall|j: int|
                    0 <= j < i ==> #[trigger] c@[j] == ({
                        let x = spec_lane16(a, j);
                        (x as i16).wrapping_shr(s) as u16
                    }),
            decreases 8 - i,
        {
            let x = al[i];
            c[i] = bits16(signed16(x).wrapping_shr(s));
            i += 1;
        }
        proof {
            let s = old(self)@.x_u32(operands.src2.spec_index());
            assert(c@ =~= Seq::new(
                8,
                |i: int|
                    {
                        let x = spec_lane16(a, i);
                        (x as i16).wrapping_shr(s) as u16
                    },
            ));
        }
        self.set_v_u16x8(operands.dst, c);
        ControlFlow::Continue(())
    }

    /// Shifts each of 8 lanes of 16 bits right by the amount in `src2`,
    /// taken modulo 16; zeros fill in.
    pub fn vshri16x8_u(
        &mut self,
        operands: BinaryOperands<VReg, VReg, XReg>,
    ) -> (r: ControlFlow<Done>)
        ensures
            r is Continue,
            ({
                let a = old(self)@.state.v[operands.src1.spec_index()].bits;
                let s = old(self)@.x_u32(operands.src2.spec_index());
                final(self)@ == old(self)@.set_v128(
                    operands.dst.spec_index(),
                    spec_from_lanes16(
                        Seq::new(
                            8,
                            |i: int|
                                {
                                    let x = spec_lane16(a, i);
                                    x.wrapping_shr(s)
                                },
                        ),
                        8,
                    ),
                )
            }),
    {
        let ghost a = self@.state.v[operands.src1.spec_index()].bits;
        let al = self.v(operands.src1).get_u16x8();
        let s = self.x_u32(operands.src2);
        let mut c = [0u16;8];
        let mut i: usize = 0;
        while i < 8
            invariant
                s == old(self)@.x_u32(operands.src2.spec_index()),
                i <= 8,
                forall|j: int| 0 <= j < 8 ==> #[trigger] al@[j] == spec_lane16(a, j),
                forall|j: int|
                    0 <= j < i ==> #[trigger] c@[j] == ({
                        let x = spec_lane16(a, j);
                        x.wrapping_shr(s)
                    }),
            decreases 8 - i,
        {
            let x = al[i];
            c[i] = x.wrapping_shr(s);
            i += 1;
        }
        proof {
            let s = old(self)@.x_u32(operands.src2.spec_index());
            assert(c@ =~= Seq::new(
                8,
                |i: int|
                    {
                        let x = spec_lane16(a, i);
                        x.wrapping_shr(s)
                    },
            ));
        }
        self.set_v_u16x8(operands.dst, c);
        ControlFlow::Continue(())
    }

    /// Shifts each of 4 lanes of 32 bits left by the amount in `src2`,
    /// taken modulo 32.
    pub fn vshli32x4(
        &mut self,
        operands: BinaryOperands<VReg, VReg, XReg>,
    ) -> (r: ControlFlow<Done>)
        ensures
            r is Continue,
            ({
                let a = old(self)@.state.v[operands.src1.spec_index()].bits;
                let s = old(self)@.x_u32(operands.src2.spec_index());
                final(self)@ == old(self)@.set_v128(
                    operands.dst.spec_index(),
                    spec_from_lanes32(
                        Seq::new(
                            4,
                            |i: int|
                                {
                                    let x = spec_lane32(a, i);
                                    x.wrapping_shl(s)
                                },
                        ),
                        4,
                    ),
                )
            }),
    {
        let ghost a = self@.state.v[operands.src1.spec_index()].bits;
        let al = self.v(operands.src1).get_u32x4();
        let s = self.x_u32(operands.src2);
        let mut c = [0u32;4];
        let mut i: usize = 0;
        while i < 4
            invariant
                s == old(self)@.x_u32(operands.src2.spec_index()),
                i <= 4,
                forall|j: int| 0 <= j < 4 ==> #[trigger] al@[j] == spec_lane32(a, j),
                forall|j: int|
                    0 <= j < i ==> #[trigger] c@[j] == ({
                        let x = spec_lane32(a, j);
                        x.wrapping_shl(s)
                    }),
            decreases 4 - i,
        {
            let x = al[i];
            c[i] = x.wrapping_shl(s);
            i += 1;
        }
        proof {
            let s = old(self)@.x_u32(operands.src2.spec_index());
            assert(c@ =~= Seq::new(
                4,
                |i: int|
                    {
                        let x = spec_lane32(a, i);
                        x.wrapping_shl(s)
                    },
            ));
        }
        self.set_v_u32x4(operands.dst, c);
        ControlFlow::Continue(())
    }

    /// Shifts each of 4 lanes of 32 bits right by the amount in `src2`,
    /// taken modulo 32; the sign fills in.
    pub fn vshri32x4_s(
        &mut self,
        operands: BinaryOperands<VReg, VReg, XReg>,
    ) -> (r: ControlFlow<Done>)
        ensures
            r is Continue,
            ({
                let a = old(self)@.state.v[operands.src1.spec_index()].bits;
                let s = old(self)@.x_u32(operands.src2.spec_index());
                final(self)@ == old(self)@.set_v128(
                    operands.dst.spec_index(),
                    spec_from_lanes32(
                        Seq::new(
                            4,
                            |i: int|
                                {
                                    let x = spec_lane32(a, i);
                                    (x as i32).wrapping_shr(s) as u32
                                },
                        ),
                        4,
                    ),
                )
            }),
    {
        let ghost a = self@.state.v[operands.src1.spec_index()].bits;
        let al = self.v(operands.src1).get_u32x4();
        let s = self.x_u32(operands.src2);
        let mut c = [0u32;4];
        let mut i: usize = 0;
        while i < 4
            invariant
                s == old(self)@.x_u32(operands.src2.spec_index()),
                i <= 4,
                forall|j: int| 0 <= j < 4 ==> #[trigger] al@[j] == spec_lane32(a, j),
                forall|j: int|
                    0 <= j < i ==> #[trigger] c@[j] == ({
                        let x = spec_lane32(a, j);
                        (x as i32).wrapping_shr(s) as u32
                    }),
            decreases 4 - i,
        {
            let x = al[i];
            c[i] = bits32(signed32(x).wrapping_shr(s));
            i += 1;
        }
        proof {
            let s = old(self)@.x_u32(operands.src2.spec_index());
            assert(c@ =~= Seq::new(
                4,
                |i: int|
                    {
                        let x = spec_lane32(a, i);
                        (x as i32).wrapping_shr(s) as u32
                    },
            ));
        }
        self.set_v_u32x4(operands.dst, c);
        ControlFlow::Continue(())
    }

    /// Shifts each of 4 lanes of 32 bits right by the amount in `src2`,
    /// taken modulo 32; zeros fill in.
    pub fn vshri32x4_u(
        &mut self,
        operands: BinaryOperands<VReg, VReg, XReg>,
    ) -> (r: ControlFlow<Done>)
        ensures
            r is Continue,
            ({
                let a = old(self)@.state.v[operands.src1.spec_index()].bits;
                let s = old(self)@.x_u32(operands.src2.spec_index());
                final(self)@ == old(self)@.set_v128(
                    operands.dst.spec_index(),
                    spec_from_lanes32(
                        Seq::new(
                            4,
                            |i: int|
                                {
                                    let x = spec_lane32(a, i);
                                    x.wrapping_shr(s)
                                },
                        ),
                        4,
                    ),
                )
            }),
    {
        let ghost a = self@.state.v[operands.src1.spec_index()].bits;
        let al = self.v(operands.src1).get_u32x4();
        let s = self.x_u32(operands.src2);
        let mut c = [0u32;4];
        let mut i: usize = 0;
        while i < 4
            invariant
                s == old(self)@.x_u32(operands.src2.spec_index()),
                i <= 4,
                forall|j: int| 0 <= j < 4 ==> #[trigger] al@[j] == spec_lane32(a, j),
                forall|j: int|
                    0 <= j < i ==> #[trigger] c@[j] == ({
                        let x = spec_lane32(a, j);
                        x.wrapping_shr(s)
                    }),
            decreases 4 - i,
        {
            let x = al[i];
            c[i] = x.wrapping_shr(s);
            i += 1;
        }
        proof {
            let s = old(self)@.x_u32(operands.src2.spec_index());
            assert(c@ =~= Seq::new(
                4,
                |i: int|
                    {
                        let x = spec_lane32(a, i);
                        x.wrapping_shr(s)
                    },
            ));
        }
        self.set_v_u32x4(operands.dst, c);
        ControlFlow::Continue(())
    }

    /// Shifts each of 2 lanes of 64 bits left by the amount in `src2`,
    /// taken modulo 64.
    pub fn vshli64x2(
        &mut self,
        operands: BinaryOperands<VReg, VReg, XReg>,
    ) -> (r: ControlFlow<Done>)
        ensures
            r is Continue,
            ({
                let a = old(self)@.state.v[operands.src1.spec_index()].bits;
                let s = old(self)@.x_u32(operands.src2.spec_index());
                final(self)@ == old(self)@.set_v128(
                    operands.dst.spec_index(),
                    spec_from_lanes64(
                        Seq::new(
                            2,
                            |i: int|
                                {
                                    let x = spec_lane64(a, i);
                                    x.wrapping_shl(s)
                                },
                        ),
                        2,
                    ),
                )
            }),
    {
        let ghost a = self@.state.v[operands.src1.spec_index()].bits;
        let al = self.v(operands.src1).get_u64x2();
        let s = self.x_u32(operands.src2);
        let mut c = [0u64;2];
        let mut i: usize = 0;
        while i < 2
            invariant
                s == old(self)@.x_u32(operands.src2.spec_index()),
                i <= 2,
                forall|j: int| 0 <= j < 2 ==> #[trigger] al@[j] == spec_lane64(a, j),
                forall|j: int|
                    0 <= j < i ==> #[trigger] c@[j] == ({
                        let x = spec_lane64(a, j);
                        x.wrapping_shl(s)
                    }),
            decreases 2 - i,
        {
            let x = al[i];
            c[i] = x.wrapping_shl(s);
            i += 1;
        }
        proof {
            let s = old(self)@.x_u32(operands.src2.spec_index());
            assert(c@ =~= Seq::new(
                2,
                |i: int|
                    {
                        let x = spec_lane64(a, i);
                        x.wrapping_shl(s)
                    },
            ));
        }
        self.set_v_u64x2(operands.dst, c);
        ControlFlow::Continue(())
    }

    /// Shifts each of 2 lanes of 64 bits right by the amount in `src2`,
    /// taken modulo 64; the sign fills in.
    pub fn vshri64x2_s(
        &mut self,
        operands: BinaryOperands<VReg, VReg, XReg>,
    ) -> (r: ControlFlow<Done>)
        ensures
            r is Continue,
            ({
                let a = old(self)@.state.v[operands.src1.spec_index()].bits;
                let s = old(self)@.x_u32(operands.src2.spec_index());
                final(self)@ == old(self)@.set_v128(
                    operands.dst.spec_index(),
                    spec_from_lanes64(
                        Seq::new(
                            2,
                            |i: int|
                                {
                                    let x = spec_lane64(a, i);
                                    (x as i64).wrapping_shr(s) as u64
                                },
                        ),
                        2,
                    ),
                )
            }),
    {
        let ghost a = self@.state.v[operands.src1.spec_index()].bits;
        let al = self.v(operands.src1).get_u64x2();
        let s = self.x_u32(operands.src2);
        let mut c = [0u64;2];
        let mut i: usize = 0;
        while i < 2
            invariant
                s == old(self)@.x_u32(operands.src2.spec_index()),
                i <= 2,
                forall|j: int| 0 <= j < 2 ==> #[trigger] al@[j] == spec_lane64(a, j),
                forall|j: int|
                    0 <= j < i ==> #[trigger] c@[j] == ({
                        let x = spec_lane64(a, j);
                        (x as i64).wrapping_shr(s) as u64
                    }),
            decreases 2 - i,
        {
            let x = al[i];
            c[i] = bits64(signed64(x).wrapping_shr(s));
            i += 1;
        }
        proof {
            let s = old(self)@.x_u32(operands.src2.spec_index());
            assert(c@ =~= Seq::new(
                2,
                |i: int|
                    {
                        let x = spec_lane64(a, i);
                        (x as i64).wrapping_shr(s) as u64
                    },
            ));
        }
        self.set_v_u64x2(operands.dst, c);
        ControlFlow::Continue(())
    }

    /// Shifts each of 2 lanes of 64 bits right by the amount in `src2`,
    /// taken modulo 64; zeros fill in.
    pub fn vshri64x2_u(
        &mut self,
        operands: BinaryOperands<VReg, VReg, XReg>,
    ) -> (r: ControlFlow<Done>)
        ensures
            r is Continue,
            ({
                let a = old(self)@.state.v[operands.src1.spec_index()].bits;
                let s = old(self)@.x_u32(operands.src2.spec_index());
                final(self)@ == old(self)@.set_v128(
                    operands.dst.spec_index(),
                    spec_from_lanes64(
                        Seq::new(
                            2,
                            |i: int|
                                {
                                    let x = spec_lane64(a, i);
                                    x.wrapping_shr(s)
                                },
                        ),
                        2,
                    ),
                )
            }),
    {
        let ghost a = self@.state.v[operands.src1.spec_index()].bits;
        let al = self.v(operands.src1).get_u64x2();
        let s = self.x_u32(operands.src2);
        let mut c = [0u64;2];
        let mut i: usize = 0;
        while i < 2
            invariant
                s == old(self)@.x_u32(operands.src2.spec_index()),
                i <= 2,
                forall|j: int| 0 <= j < 2 ==> #[trigger] al@[j] == spec_lane64(a, j),
                forall|j: int|
                    0 <= j < i ==> #[trigger] c@[j] == ({
                        let x = spec_lane64(a, j);
                        x.wrapping_shr(s)
                    }),
            decreases 2 - i,
        {
            let x = al[i];
            c[i] = x.wrapping_shr(s);
            i += 1;
        }
        proof {
            let s = old(self)@.x_u32(operands.src2.spec_index());
            assert(c@ =~= Seq::new(
                2,
                |i: int|
                    {
                        let x = spec_lane64(a, i);
                        x.wrapping_shr(s)
                    },
            ));
        }
        self.set_v_u64x2(operands.dst, c);
        ControlFlow::Continue(())
    }

    /// Compares lane by lane, in 16 lanes of 8 bits: a lane of the result
    /// is all ones where the lanes are equal, else zero.
    pub fn veq8x16(&mut self, operands: BinaryOperands<VReg>) -> (r: ControlFlow<Done>)
        ensures
            r is Continue,
            ({
                let a = old(self)@.state.v[operands.src1.spec_index()].bits;
                let b = old(self)@.state.v[operands.src2.spec_index()].bits;
                final(self)@ == old(self)@.set_v128(
                    operands.dst.spec_index(),
                    spec_from_lanes8(
                        Seq::new(
                            16,
                            |i: int|
                                {
                                    let x = spec_lane8(a, i);
                                    let y = spec_lane8(b, i);
                                    if x == y { 0xffu8 } else { 0u8 }
                                },
                        ),
                        16,
                    ),
                )
            }),
    {
        let ghost a = self@.state.v[operands.src1.spec_index()].bits;
        let ghost b = self@.state.v[operands.src2.spec_index()].bits;
        let al = self.v(operands.src1).get_u8x16();
        let bl = self.v(operands.src2).get_u8x16();
        let mut c = [0u8;16];
        let mut i: usize = 0;
        while i < 16
            invariant
                i <= 16,
                forall|j: int| 0 <= j < 16 ==> #[trigger] al@[j] == spec_lane8(a, j),
                forall|j: int| 0 <= j < 16 ==> #[trigger] bl@[j] == spec_lane8(b, j),
                forall|j: int|
                    0 <= j < i ==> #[trigger] c@[j] == ({
                        let x = spec_lane8(a, j);
                        let y = spec_lane8(b, j);
                        if x == y { 0xffu8 } else { 0u8 }
                    }),
            decreases 16 - i,
        {
            let x = al[i];
            let y = bl[i];
            c[i] = if x == y { 0xffu8 } else { 0u8 };
            i += 1;
        }
        proof {
            assert(c@ =~= Seq::new(
                16,
                |i: int|
                    {
                        let x = spec_lane8(a, i);
                        let y = spec_lane8(b, i);
                        if x == y { 0xffu8 } else { 0u8 }
                    },
            ));
        }
        self.set_v_u8x16(operands.dst, c);
        ControlFlow::Continue(())
    }

    /// Compares lane by lane, in 16 lanes of 8 bits: a lane of the result
    /// is all ones where the lanes differ, else zero.
    pub fn vneq8x16(&mut self, operands: BinaryOperands<VReg>) -> (r: ControlFlow<Done>)
        ensures
            r is Continue,
            ({
                let a = old(self)@.state.v[operands.src1.spec_index()].bits;
                let b = old(self)@.state.v[operands.src2.spec_index()].bits;
                final(self)@ == old(self)@.set_v128(
                    operands.dst.spec_index(),
                    spec_from_lanes8(
                        Seq::new(
                            16,
                            |i: int|
                                {
                                    let x = spec_lane8(a, i);
                                    let y = spec_lane8(b, i);
                                    if x != y { 0xffu8 } else { 0u8 }
                                },
                        ),
                        16,
                    ),
                )
            }),
    {
        let ghost a = self@.state.v[operands.src1.spec_index()].bits;
        let ghost b = self@.state.v[operands.src2.spec_index()].bits;
        let al = self.v(operands.src1).get_u8x16();
        let bl = self.v(operands.src2).get_u8x16();
        let mut c = [0u8;16];
        let mut i: usize = 0;
        while i < 16
            invariant
                i <= 16,
                forall|j: int| 0 <= j < 16 ==> #[trigger] al@[j] == spec_lane8(a, j),
                forall|j: int| 0 <= j < 16 ==> #[trigger] bl@[j] == spec_lane8(b, j),
                forall|j: int|
                    0 <= j < i ==> #[trigger] c@[j] == ({
                        let x = spec_lane8(a, j);
                        let y = spec_lane8(b, j);
                        if x != y { 0xffu8 } else { 0u8 }
                    }),
            decreases 16 - i,
        {
            let x = al[i];
            let y = bl[i];
            c[i] = if x != y { 0xffu8 } else { 0u8 };
            i += 1;
        }
        proof {
            assert(c@ =~= Seq::new(
                16,
                |i: int|
                    {
                        let x = spec_lane8(a, i);
                        let y = spec_lane8(b, i);
                        if x != y { 0xffu8 } else { 0u8 }
                    },
            ));
        }
        self.set_v_u8x16(operands.dst, c);
        ControlFlow::Continue(())
    }

    /// Compares lane by lane, in 16 lanes of 8 bits: a lane of the result
    /// is all ones where the lanes are in strictly increasing order as
    /// signed numbers, else zero.
    pub fn vslt8x16(&mut self, operands: BinaryOperands<VReg>) -> (r: ControlFlow<Done>)
        ensures
            r is Continue,
            ({
                let a = old(self)@.state.v[operands.src1.spec_index()].bits;
                let b = old(self)@.state.v[operands.src2.spec_index()].bits;
                final(self)@ == old(self)@.set_v128(
                    operands.dst.spec_index(),
                    spec_from_lanes8(
                        Seq::new(
                            16,
                            |i: int|
                                {
                                    let x = spec_lane8(a, i);
                                    let y = spec_lane8(b, i);
                                    if (x as i8) < (y as i8) { 0xffu8 } else { 0u8 }
                                },
                        ),
                        16,
                    ),
                )
            }),
    {
        let ghost a = self@.state.v[operands.src1.spec_index()].bits;
        let ghost b = self@.state.v[operands.src2.spec_index()].bits;
        let al = self.v(operands.src1).get_u8x16();
        let bl = self.v(operands.src2).get_u8x16();
        let mut c = [0u8;16];
        let mut i: usize = 0;
        while i < 16
            invariant
                i <= 16,
                forall|j: int| 0 <= j < 16 ==> #[trigger] al@[j] == spec_lane8(a, j),
                forall|j: int| 0 <= j < 16 ==> #[trigger] bl@[j] == spec_lane8(b, j),
                forall|j: int|
                    0 <= j < i ==> #[trigger] c@[j] == ({
                        let x = spec_lane8(a, j);
                        let y = spec_lane8(b, j);
                        if (x as i8) < (y as i8) { 0xffu8 } else { 0u8 }
                    }),
            decreases 16 - i,
        {
            let x = al[i];
            let y = bl[i];
            c[i] = if signed8(x) < signed8(y) { 0xffu8 } else { 0u8 };
            i += 1;
        }
        proof {
            assert(c@ =~= Seq::new(
                16,
                |i: int|
                    {
                        let x = spec_lane8(a, i);
                        let y = spec_lane8(b, i);
                        if (x as i8) < (y as i8) { 0xffu8 } else { 0u8 }
                    },
            ));
        }
        self.set_v_u8x16(operands.dst, c);
        ControlFlow::Continue(())
    }

    /// Compares lane by lane, in 16 lanes of 8 bits: a lane of the result
    /// is all ones where the lanes are in increasing order as signed
    /// numbers, else zero.
    pub fn vslteq8x16(&mut self, operands: BinaryOperands<VReg>) -> (r: ControlFlow<Done>)
        ensures
            r is Continue,
            ({
                let a = old(self)@.state.v[operands.src1.spec_index()].bits;
                let b = old(self)@.state.v[operands.src2.spec_index()].bits;
                final(self)@ == old(self)@.set_v128(
                    operands.dst.spec_index(),
                    spec_from_lanes8(
                        Seq::new(
                            16,
                            |i: int|
                                {
                                    let x = spec_lane8(a, i);
                                    let y = spec_lane8(b, i);
                                    if (x as i8) <= (y as i8) { 0xffu8 } else { 0u8 }
                                },
                        ),
                        16,
                    ),
                )
            }),
    {
        let ghost a = self@.state.v[operands.src1.spec_index()].bits;
        let ghost b = self@.state.v[operands.src2.spec_index()].bits;
        let al = self.v(operands.src1).get_u8x16();
        let bl = self.v(operands.src2).get_u8x16();
        let mut c = [0u8;16];
        let mut i: usize = 0;
        while i < 16
            invariant
                i <= 16,
                forall|j: int| 0 <= j < 16 ==> #[trigger] al@[j] == spec_lane8(a, j),
                forall|j: int| 0 <= j < 16 ==> #[trigger] bl@[j] == spec_lane8(b, j),
                forall|j: int|
                    0 <= j < i ==> #[trigger] c@[j] == ({
                        let x = spec_lane8(a, j);
                        let y = spec_lane8(b, j);
                        if (x as i8) <= (y as i8) { 0xffu8 } else { 0u8 }
                    }),
            decreases 16 - i,
        {
            let x = al[i];
            let y = bl[i];
            c[i] = if signed8(x) <= signed8(y) { 0xffu8 } else { 0u8 };
            i += 1;
        }
        proof {
            assert(c@ =~= Seq::new(
                16,
                |i: int|
                    {
                        let x = spec_lane8(a, i);
                        let y = spec_lane8(b, i);
                        if (x as i8) <= (y as i8) { 0xffu8 } else { 0u8 }
                    },
            ));
        }
        self.set_v_u8x16(operands.dst, c);
        ControlFlow::Continue(())
    }

    /// Compares lane by lane, in 16 lanes of 8 bits: a lane of the result
    /// is all ones where the lanes are in strictly increasing order as
    /// unsigned numbers, else zero.
    pub fn vult8x16(&mut self, operands: BinaryOperands<VReg>) -> (r: ControlFlow<Done>)
        ensures
            r is Continue,
            ({
                let a = old(self)@.state.v[operands.src1.spec_index()].bits;
                let b = old(self)@.state.v[operands.src2.spec_index()].bits;
                final(self)@ == old(self)@.set_v128(
                    operands.dst.spec_index(),
                    spec_from_lanes8(
                        Seq::new(
                            16,
                            |i: int|
                                {
                                    let x = spec_lane8(a, i);
                                    let y = spec_lane8(b, i);
                                    if x < y { 0xffu8 } else { 0u8 }
                                },
                        ),
                        16,
                    ),
                )
            }),
    {
        let ghost a = self@.state.v[operands.src1.spec_index()].bits;
        let ghost b = self@.state.v[operands.src2.spec_index()].bits;
        let al = self.v(operands.src1).get_u8x16();
        let bl = self.v(operands.src2).get_u8x16();
        let mut c = [0u8;16];
        let mut i: usize = 0;
        while i < 16
            invariant
                i <= 16,
                forall|j: int| 0 <= j < 16 ==> #[trigger] al@[j] == spec_lane8(a, j),
                forall|j: int| 0 <= j < 16 ==> #[trigger] bl@[j] == spec_lane8(b, j),
                forall|j: int|
                    0 <= j < i ==> #[trigger] c@[j] == ({
                        let x = spec_lane8(a, j);
                        let y = spec_lane8(b, j);
                        if x < y { 0xffu8 } else { 0u8 }
                    }),
            decreases 16 - i,
        {
            let x = al[i];
            let y = bl[i];
            c[i] = if x < y { 0xffu8 } else { 0u8 };
            i += 1;
        }
        proof {
            assert(c@ =~= Seq::new(
                16,
                |i: int|
                    {
                        let x = spec_lane8(a, i);
                        let y = spec_lane8(b, i);
                        if x < y { 0xffu8 } else { 0u8 }
                    },
            ));
        }
        self.set_v_u8x16(operands.dst, c);
        ControlFlow::Continue(())
    }

    /// Compares lane by lane, in 16 lanes of 8 bits: a lane of the result
    /// is all ones where the lanes are in increasing order as unsigned
    /// numbers, else zero.
    pub fn vulteq8x16(&mut self, operands: BinaryOperands<VReg>) -> (r: ControlFlow<Done>)
        ensures
            r is Continue,
            ({
                let a = old(self)@.state.v[operands.src1.spec_index()].bits;
                let b = old(self)@.state.v[operands.src2.spec_index()].bits;
                final(self)@ == old(self)@.set_v128(
                    operands.dst.spec_index(),
                    spec_from_lanes8(
                        Seq::new(
                            16,
                            |i: int|
                                {
                                    let x = spec_lane8(a, i);
                                    let y = spec_lane8(b, i);
                                    if x <= y { 0xffu8 } else { 0u8 }
                                },
                        ),
                        16,
                    ),
                )
            }),
    {
        let ghost a = self@.state.v[operands.src1.spec_index()].bits;
        let ghost b = self@.state.v[operands.src2.spec_index()].bits;
        let al = self.v(operands.src1).get_u8x16();
        let bl = self.v(operands.src2).get_u8x16();
        let mut c = [0u8;16];
        let mut i: usize = 0;
        while i < 16
            invariant
                i <= 16,
                forall|j: int| 0 <= j < 16 ==> #[trigger] al@[j] == spec_lane8(a, j),
                forall|j: int| 0 <= j < 16 ==> #[trigger] bl@[j] == spec_lane8(b, j),
                forall|j: int|
                    0 <= j < i ==> #[trigger] c@[j] == ({
                        let x = spec_lane8(a, j);
                        let y = spec_lane8(b, j);
                        if x <= y { 0xffu8 } else { 0u8 }
                    }),
            decreases 16 - i,
        {
            let x = al[i];
            let y = bl[i];
            c[i] = if x <= y { 0xffu8 } else { 0u8 };
            i += 1;
        }
        proof {
            assert(c@ =~= Seq::new(
                16,
                |i: int|
                    {
                        let x = spec_lane8(a, i);
                        let y = spec_lane8(b, i);
                        if x <= y { 0xffu8 } else { 0u8 }
                    },
            ));
        }
        self.set_v_u8x16(operands.dst, c);
        ControlFlow::Continue(())
    }

    /// Compares lane by lane, in 8 lanes of 16 bits: a lane of the result
    /// is all ones where the lanes are equal, else zero.
    pub fn veq16x8(&mut self, operands: BinaryOperands<VReg>) -> (r: ControlFlow<Done>)
        ensures
            r is Continue,
            ({
                let a = old(self)@.state.v[operands.src1.spec_index()].bits;
                let b = old(self)@.state.v[operands.src2.spec_index()].bits;
                final(self)@ == old(self)@.set_v128(
                    operands.dst.spec_index(),
                    spec_from_lanes16(
                        Seq::new(
                            8,
                            |i: int|
                                {
                                    let x = spec_lane16(a, i);
                                    let y = spec_lane16(b, i);
                                    if x == y { 0xffffu16 } else { 0u16 }
                                },
                        ),
                        8,
                    ),
                )
            }),
    {
        let ghost a = self@.state.v[operands.src1.spec_index()].bits;
        let ghost b = self@.state.v[operands.src2.spec_index()].bits;
        let al = self.v(operands.src1).get_u16x8();
        let bl = self.v(operands.src2).get_u16x8();
        let mut c = [0u16;8];
        let mut i: usize = 0;
        while i < 8
            invariant
                i <= 8,
                forall|j: int| 0 <= j < 8 ==> #[trigger] al@[j] == spec_lane16(a, j),
                forall|j: int| 0 <= j < 8 ==> #[trigger] bl@[j] == spec_lane16(b, j),
                forall|j: int|
                    0 <= j < i ==> #[trigger] c@[j] == ({
                        let x = spec_lane16(a, j);
                        let y = spec_lane16(b, j);
                        if x == y { 0xffffu16 } else { 0u16 }
                    }),
            decreases 8 - i,
        {
            let x = al[i];
            let y = bl[i];
            c[i] = if x == y { 0xffffu16 } else { 0u16 };
            i += 1;
        }
        proof {
            assert(c@ =~= Seq::new(
                8,
                |i: int|
                    {
                        let x = spec_lane16(a, i);
                        let y = spec_lane16(b, i);
                        if x == y { 0xffffu16 } else { 0u16 }
                    },
            ));
        }
        self.set_v_u16x8(operands.dst, c);
        ControlFlow::Continue(())
    }

    /// Compares lane by lane, in 8 lanes of 16 bits: a lane of the result
    /// is all ones where the lanes differ, else zero.
    pub fn vneq16x8(&mut self, operands: BinaryOperands<VReg>) -> (r: ControlFlow<Done>)
        ensures
            r is Continue,
            ({
                let a = old(self)@.state.v[operands.src1.spec_index()].bits;
                let b = old(self)@.state.v[operands.src2.spec_index()].bits;
                final(self)@ == old(self)@.set_v128(
                    operands.dst.spec_index(),
                    spec_from_lanes16(
                        Seq::new(
                            8,
                            |i: int|
                                {
                                    let x = spec_lane16(a, i);
                                    let y = spec_lane16(b, i);
                                    if x != y { 0xffffu16 } else { 0u16 }
                                },
                        ),
                        8,
                    ),
                )
            }),
    {
        let ghost a = self@.state.v[operands.src1.spec_index()].bits;
        let ghost b = self@.state.v[operands.src2.spec_index()].bits;
        let al = self.v(operands.src1).get_u16x8();
        let bl = self.v(operands.src2).get_u16x8();
        let mut c = [0u16;8];
        let mut i: usize = 0;
        while i < 8
            invariant
                i <= 8,
                forall|j: int| 0 <= j < 8 ==> #[trigger] al@[j] == spec_lane16(a, j),
                forall|j: int| 0 <= j < 8 ==> #[trigger] bl@[j] == spec_lane16(b, j),
                forall|j: int|
                    0 <= j < i ==> #[trigger] c@[j] == ({
                        let x = spec_lane16(a, j);
                        let y = spec_lane16(b, j);
                        if x != y { 0xffffu16 } else { 0u16 }
                    }),
            decreases 8 - i,
        {
            let x = al[i];
            let y = bl[i];
            c[i] = if x != y { 0xffffu16 } else { 0u16 };
            i += 1;
        }
        proof {
            assert(c@ =~= Seq::new(
                8,
                |i: int|
                    {
                        let x = spec_lane16(a, i);
                        let y = spec_lane16(b, i);
                        if x != y { 0xffffu16 } else { 0u16 }
                    },
            ));
        }
        self.set_v_u16x8(operands.dst, c);
        ControlFlow::Continue(())
    }

    /// Compares lane by lane, in 8 lanes of 16 bits: a lane of the result
    /// is all ones where the lanes are in strictly increasing order as
    /// signed numbers, else zero.
    pub fn vslt16x8(&mut self, operands: BinaryOperands<VReg>) -> (r: ControlFlow<Done>)
        ensures
            r is Continue,
            ({
                let a = old(self)@.state.v[operands.src1.spec_index()].bits;
                let b = old(self)@.state.v[operands.src2.spec_index()].bits;
                final(self)@ == old(self)@.set_v128(
                    operands.dst.spec_index(),
                    spec_from_lanes16(
                        Seq::new(
                            8,
                            |i: int|
                                {
                                    let x = spec_lane16(a, i);
                                    let y = spec_lane16(b, i);
                                    if (x as i16) < (y as i16) { 0xffffu16 } else { 0u16 }
                                },
                        ),
                        8,
                    ),
                )
            }),
    {
        let ghost a = self@.state.v[operands.src1.spec_index()].bits;
        let ghost b = self@.state.v[operands.src2.spec_index()].bits;
        let al = self.v(operands.src1).get_u16x8();
        let bl = self.v(operands.src2).get_u16x8();
        let mut c = [0u16;8];
        let mut i: usize = 0;
        while i < 8
            invariant
                i <= 8,
                forall|j: int| 0 <= j < 8 ==> #[trigger] al@[j] == spec_lane16(a, j),
                forall|j: int| 0 <= j < 8 ==> #[trigger] bl@[j] == spec_lane16(b, j),
                forall|j: int|
                    0 <= j < i ==> #[trigger] c@[j] == ({
                        let x = spec_lane16(a, j);
                        let y = spec_lane16(b, j);
                        if (x as i16) < (y as i16) { 0xffffu16 } else { 0u16 }
                    }),
            decreases 8 - i,
        {
            let x = al[i];
            let y = bl[i];
            c[i] = if signed16(x) < signed16(y) { 0xffffu16 } else { 0u16 };
            i += 1;
        }
        proof {
            assert(c@ =~= Seq::new(
                8,
                |i: int|
                    {
                        let x = spec_lane16(a, i);
                        let y = spec_lane16(b, i);
                        if (x as i16) < (y as i16) { 0xffffu16 } else { 0u16 }
                    },
            ));
        }
        self.set_v_u16x8(operands.dst, c);
        ControlFlow::Continue(())
    }

    /// Compares lane by lane, in 8 lanes of 16 bits: a lane of the result
    /// is all ones where the lanes are in increasing order as signed
    /// numbers, else zero.
    pub fn vslteq16x8(&mut self, operands: BinaryOperands<VReg>) -> (r: ControlFlow<Done>)
        ensures
            r is Continue,
            ({
                let a = old(self)@.state.v[operands.src1.spec_index()].bits;
                let b = old(self)@.state.v[operands.src2.spec_index()].bits;
                final(self)@ == old(self)@.set_v128(
                    operands.dst.spec_index(),
                    spec_from_lanes16(
                        Seq::new(
                            8,
                            |i: int|
                                {
                                    let x = spec_lane16(a, i);
                                    let y = spec_lane16(b, i);
                                    if (x as i16) <= (y as i16) { 0xffffu16 } else { 0u16 }
                                },
                        ),
                        8,
                    ),
                )
            }),
    {
        let ghost a = self@.state.v[operands.src1.spec_index()].bits;
        let ghost b = self@.state.v[operands.src2.spec_index()].bits;
        let al = self.v(operands.src1).get_u16x8();
        let bl = self.v(operands.src2).get_u16x8();
        let mut c = [0u16;8];
        let mut i: usize = 0;
        while i < 8
            invariant
                i <= 8,
                forall|j: int| 0 <= j < 8 ==> #[trigger] al@[j] == spec_lane16(a, j),
                forall|j: int| 0 <= j < 8 ==> #[trigger] bl@[j] == spec_lane16(b, j),
                forall|j: int|
                    0 <= j < i ==> #[trigger] c@[j] == ({
                        let x = spec_lane16(a, j);
                        let y = spec_lane16(b, j);
                        if (x as i16) <= (y as i16) { 0xffffu16 } else { 0u16 }
                    }),
            decreases 8 - i,
        {
            let x = al[i];
            let y = bl[i];
            c[i] = if signed16(x) <= signed16(y) { 0xffffu16 } else { 0u16 };
            i += 1;
        }
        proof {
            assert(c@ =~= Seq::new(
                8,
                |i: int|
                    {
                        let x = spec_lane16(a, i);
                        let y = spec_lane16(b, i);
                        if (x as i16) <= (y as i16) { 0xffffu16 } else { 0u16 }
                    },
            ));
        }
        self.set_v_u16x8(operands.dst, c);
        ControlFlow::Continue(())
    }

    /// Compares lane by lane, in 8 lanes of 16 bits: a lane of the result
    /// is all ones where the lanes are in strictly increasing order as
    /// unsigned numbers, else zero.
    pub fn vult16x8(&mut self, operands: BinaryOperands<VReg>) -> (r: ControlFlow<Done>)
        ensures
            r is Continue,
            ({
                let a = old(self)@.state.v[operands.src1.spec_index()].bits;
                let b = old(self)@.state.v[operands.src2.spec_index()].bits;
                final(self)@ == old(self)@.set_v128(
                    operands.dst.spec_index(),
                    spec_from_lanes16(
                        Seq::new(
                            8,
                            |i: int|
                                {
                                    let x = spec_lane16(a, i);
                                    let y = spec_lane16(b, i);
                                    if x < y { 0xffffu16 } else { 0u16 }
                                },
                        ),
                        8,
                    ),
                )
            }),
    {
        let ghost a = self@.state.v[operands.src1.spec_index()].bits;
        let ghost b = self@.state.v[operands.src2.spec_index()].bits;
        let al = self.v(operands.src1).get_u16x8();
        let bl = self.v(operands.src2).get_u16x8();
        let mut c = [0u16;8];
        let mut i: usize = 0;
        while i < 8
            invariant
                i <= 8,
                forall|j: int| 0 <= j < 8 ==> #[trigger] al@[j] == spec_lane16(a, j),
                forall|j: int| 0 <= j < 8 ==> #[trigger] bl@[j] == spec_lane16(b, j),
                forall|j: int|
                    0 <= j < i ==> #[trigger] c@[j] == ({
                        let x = spec_lane16(a, j);
                        let y = spec_lane16(b, j);
                        if x < y { 0xffffu16 } else { 0u16 }
                    }),
            decreases 8 - i,
        {
            let x = al[i];
            let y = bl[i];
            c[i] = if x < y { 0xffffu16 } else { 0u16 };
            i += 1;
        }
        proof {
            assert(c@ =~= Seq::new(
                8,
                |i: int|
                    {
                        let x = spec_lane16(a, i);
                        let y = spec_lane16(b, i);
                        if x < y { 0xffffu16 } else { 0u16 }
                    },
            ));
        }
        self.set_v_u16x8(operands.dst, c);
        ControlFlow::Continue(())
    }

    /// Compares lane by lane, in 8 lanes of 16 bits: a lane of the result
    /// is all ones where the lanes are in increasing order as unsigned
    /// numbers, else zero.
    pub fn vulteq16x8(&mut self, operands: BinaryOperands<VReg>) -> (r: ControlFlow<Done>)
        ensures
            r is Continue,
            ({
                let a = old(self)@.state.v[operands.src1.spec_index()].bits;
                let b = old(self)@.state.v[operands.src2.spec_index()].bits;
                final(self)@ == old(self)@.set_v128(
                    operands.dst.spec_index(),
                    spec_from_lanes16(
                        Seq::new(
                            8,
                            |i: int|
                                {
                                    let x = spec_lane16(a, i);
                                    let y = spec_lane16(b, i);
                                    if x <= y { 0xffffu16 } else { 0u16 }
                                },
                        ),
                        8,
                    ),
                )
            }),
    {
        let ghost a = self@.state.v[operands.src1.spec_index()].bits;
        let ghost b = self@.state.v[operands.src2.spec_index()].bits;
        let al = self.v(operands.src1).get_u16x8();
        let bl = self.v(operands.src2).get_u16x8();
        let mut c = [0u16;8];
        let mut i: usize = 0;
        while i < 8
            invariant
                i <= 8,
                forall|j: int| 0 <= j < 8 ==> #[trigger] al@[j] == spec_lane16(a, j),
                forall|j: int| 0 <= j < 8 ==> #[trigger] bl@[j] == spec_lane16(b, j),
                forall|j: int|
                    0 <= j < i ==> #[trigger] c@[j] == ({
                        let x = spec_lane16(a, j);
                        let y = spec_lane16(b, j);
                        if x <= y { 0xffffu16 } else { 0u16 }
                    }),
            decreases 8 - i,
        {
            let x = al[i];
            let y = bl[i];
            c[i] = if x <= y { 0xffffu16 } else { 0u16 };
            i += 1;
        }
        proof {
            assert(c@ =~= Seq::new(
                8,
                |i: int|
                    {
                        let x = spec_lane16(a, i);
                        let y = spec_lane16(b, i);
                        if x <= y { 0xffffu16 } else { 0u16 }
                    },
            ));
        }
        self.set_v_u16x8(operands.dst, c);
        ControlFlow::Continue(())
    }

    /// Compares lane by lane, in 4 lanes of 32 bits: a lane of the result
    /// is all ones where the lanes are equal, else zero.
    pub fn veq32x4(&mut self, operands: BinaryOperands<VReg>) -> (r: ControlFlow<Done>)
        ensures
            r is Continue,
            ({
                let a = old(self)@.state.v[operands.src1.spec_index()].bits;
                let b = old(self)@.state.v[operands.src2.spec_index()].bits;
                final(self)@ == old(self)@.set_v128(
                    operands.dst.spec_index(),
                    spec_from_lanes32(
                        Seq::new(
                            4,
                            |i: int|
                                {
                                    let x = spec_lane32(a, i);
                                    let y = spec_lane32(b, i);
                                    if x == y { 0xffffffffu32 } else { 0u32 }
                                },
                        ),
                        4,
                    ),
                )
            }),
    {
        let ghost a = self@.state.v[operands.src1.spec_index()].bits;
        let ghost b = self@.state.v[operands.src2.spec_index()].bits;
        let al = self.v(operands.src1).get_u32x4();
        let bl = self.v(operands.src2).get_u32x4();
        let mut c = [0u32;4];
        let mut i: usize = 0;
        while i < 4
            invariant
                i <= 4,
                forall|j: int| 0 <= j < 4 ==> #[trigger] al@[j] == spec_lane32(a, j),
                forall|j: int| 0 <= j < 4 ==> #[trigger] bl@[j] == spec_lane32(b, j),
                forall|j: int|
                    0 <= j < i ==> #[trigger] c@[j] == ({
                        let x = spec_lane32(a, j);
                        let y = spec_lane32(b, j);
                        if x == y { 0xffffffffu32 } else { 0u32 }
                    }),
            decreases 4 - i,
        {
            let x = al[i];
            let y = bl[i];
            c[i] = if x == y { 0xffffffffu32 } else { 0u32 };
            i += 1;
        }
        proof {
            assert(c@ =~= Seq::new(
                4,
                |i: int|
                    {
                        let x = spec_lane32(a, i);
                        let y = spec_lane32(b, i);
                        if x == y { 0xffffffffu32 } else { 0u32 }
                    },
            ));
        }
        self.set_v_u32x4(operands.dst, c);
        ControlFlow::Continue(())
    }

    /// Compares lane by lane, in 4 lanes of 32 bits: a lane of the result
    /// is all ones where the lanes differ, else zero.
    pub fn vneq32x4(&mut self, operands: BinaryOperands<VReg>) -> (r: ControlFlow<Done>)
        ensures
            r is Continue,
            ({
                let a = old(self)@.state.v[operands.src1.spec_index()].bits;
                let b = old(self)@.state.v[operands.src2.spec_index()].bits;
                final(self)@ == old(self)@.set_v128(
                    operands.dst.spec_index(),
                    spec_from_lanes32(
                        Seq::new(
                            4,
                            |i: int|
                                {
                                    let x = spec_lane32(a, i);
                                    let y = spec_lane32(b, i);
                                    if x != y { 0xffffffffu32 } else { 0u32 }
                                },
                        ),
                        4,
                    ),
                )
            }),
    {
        let ghost a = self@.state.v[operands.src1.spec_index()].bits;
        let ghost b = self@.state.v[operands.src2.spec_index()].bits;
        let al = self.v(operands.src1).get_u32x4();
        let bl = self.v(operands.src2).get_u32x4();
        let mut c = [0u32;4];
        let mut i: usize = 0;
        while i < 4
            invariant
                i <= 4,
                forall|j: int| 0 <= j < 4 ==> #[trigger] al@[j] == spec_lane32(a, j),
                forall|j: int| 0 <= j < 4 ==> #[trigger] bl@[j] == spec_lane32(b, j),
                forall|j: int|
                    0 <= j < i ==> #[trigger] c@[j] == ({
                        let x = spec_lane32(a, j);
                        let y = spec_lane32(b, j);
                        if x != y { 0xffffffffu32 } else { 0u32 }
                    }),
            decreases 4 - i,
        {
            let x = al[i];
            let y = bl[i];
            c[i] = if x != y { 0xffffffffu32 } else { 0u32 };
            i += 1;
        }
        proof {
            assert(c@ =~= Seq::new(
                4,
                |i: int|
                    {
                        let x = spec_lane32(a, i);
                        let y = spec_lane32(b, i);
                        if x != y { 0xffffffffu32 } else { 0u32 }
                    },
            ));
        }
        self.set_v_u32x4(operands.dst, c);
        ControlFlow::Continue(())
    }

    /// Compares lane by lane, in 4 lanes of 32 bits: a lane of the result
    /// is all ones where the lanes are in strictly increasing order as
    /// signed numbers, else zero.
    pub fn vslt32x4(&mut self, operands: BinaryOperands<VReg>) -> (r: ControlFlow<Done>)
        ensures
            r is Continue,
            ({
                let a = old(self)@.state.v[operands.src1.spec_index()].bits;
                let b = old(self)@.state.v[operands.src2.spec_index()].bits;
                final(self)@ == old(self)@.set_v128(
                    operands.dst.spec_index(),
                    spec_from_lanes32(
                        Seq::new(
                            4,
                            |i: int|
                                {
                                    let x = spec_lane32(a, i);
                                    let y = spec_lane32(b, i);
                                    if (x as i32) < (y as i32) { 0xffffffffu32 } else { 0u32 }
                                },
                        ),
                        4,
                    ),
                )
            }),
    {
        let ghost a = self@.state.v[operands.src1.spec_index()].bits;
        let ghost b = self@.state.v[operands.src2.spec_index()].bits;
        let al = self.v(operands.src1).get_u32x4();
        let bl = self.v(operands.src2).get_u32x4();
        let mut c = [0u32;4];
        let mut i: usize = 0;
        while i < 4
            invariant
                i <= 4,
                forall|j: int| 0 <= j < 4 ==> #[trigger] al@[j] == spec_lane32(a, j),
                forall|j: int| 0 <= j < 4 ==> #[trigger] bl@[j] == spec_lane32(b, j),
                forall|j: int|
                    0 <= j < i ==> #[trigger] c@[j] == ({
                        let x = spec_lane32(a, j);
                        let y = spec_lane32(b, j);
                        if (x as i32) < (y as i32) { 0xffffffffu32 } else { 0u32 }
                    }),
            decreases 4 - i,
        {
            let x = al[i];
            let y = bl[i];
            c[i] = if signed32(x) < signed32(y) { 0xffffffffu32 } else { 0u32 };
            i += 1;
        }
        proof {
            assert(c@ =~= Seq::new(
                4,
                |i: int|
                    {
                        let x = spec_lane32(a, i);
                        let y = spec_lane32(b, i);
                        if (x as i32) < (y as i32) { 0xffffffffu32 } else { 0u32 }
                    },
            ));
        }
        self.set_v_u32x4(operands.dst, c);
        ControlFlow::Continue(())
    }

    /// Compares lane by lane, in 4 lanes of 32 bits: a lane of the result
    /// is all ones where the lanes are in increasing order as signed
    /// numbers, else zero.
    pub fn vslteq32x4(&mut self, operands: BinaryOperands<VReg>) -> (r: ControlFlow<Done>)
        ensures
            r is Continue,
            ({
                let a = old(self)@.state.v[operands.src1.spec_index()].bits;
                let b = old(self)@.state.v[operands.src2.spec_index()].bits;
                final(self)@ == old(self)@.set_v128(
                    operands.dst.spec_index(),
                    spec_from_lanes32(
                        Seq::new(
                            4,
                            |i: int|
                                {
                                    let x = spec_lane32(a, i);
                                    let y = spec_lane32(b, i);
                                    if (x as i32) <= (y as i32) { 0xffffffffu32 } else { 0u32 }
                                },
                        ),
                        4,
                    ),
                )
            }),
    {
        let ghost a = self@.state.v[operands.src1.spec_index()].bits;
        let ghost b = self@.state.v[operands.src2.spec_index()].bits;
        let al = self.v(operands.src1).get_u32x4();
        let bl = self.v(operands.src2).get_u32x4();
        let mut c = [0u32;4];
        let mut i: usize = 0;
        while i < 4
            invariant
                i <= 4,
                forall|j: int| 0 <= j < 4 ==> #[trigger] al@[j] == spec_lane32(a, j),
                forall|j: int| 0 <= j < 4 ==> #[trigger] bl@[j] == spec_lane32(b, j),
                forall|j: int|
                    0 <= j < i ==> #[trigger] c@[j] == ({
                        let x = spec_lane32(a, j);
                        let y = spec_lane32(b, j);
                        if (x as i32) <= (y as i32) { 0xffffffffu32 } else { 0u32 }
                    }),
            decreases 4 - i,
        {
            let x = al[i];
            let y = bl[i];
            c[i] = if signed32(x) <= signed32(y) { 0xffffffffu32 } else { 0u32 };
            i += 1;
        }
        proof {
            assert(c@ =~= Seq::new(
                4,
                |i: int|
                    {
                        let x = spec_lane32(a, i);
                        let y = spec_lane32(b, i);
                        if (x as i32) <= (y as i32) { 0xffffffffu32 } else { 0u32 }
                    },
            ));
        }
        self.set_v_u32x4(operands.dst, c);
        ControlFlow::Continue(())
    }

    /// Compares lane by lane, in 4 lanes of 32 bits: a lane of the result
    /// is all ones where the lanes are in strictly increasing order as
    /// unsigned numbers, else zero.
    pub fn vult32x4(&mut self, operands: BinaryOperands<VReg>) -> (r: ControlFlow<Done>)
        ensures
            r is Continue,
            ({
                let a = old(self)@.state.v[operands.src1.spec_index()].bits;
                let b = old(self)@.state.v[operands.src2.spec_index()].bits;
                final(self)@ == old(self)@.set_v128(
                    operands.dst.spec_index(),
                    spec_from_lanes32(
                        Seq::new(
                            4,
                            |i: int|
                                {
                                    let x = spec_lane32(a, i);
                                    let y = spec_lane32(b, i);
                                    if x < y { 0xffffffffu32 } else { 0u32 }
                                },
                        ),
                        4,
                    ),
                )
            }),
    {
        let ghost a = self@.state.v[operands.src1.spec_index()].bits;
        let ghost b = self@.state.v[operands.src2.spec_index()].bits;
        let al = self.v(operands.src1).get_u32x4();
        let bl = self.v(operands.src2).get_u32x4();
        let mut c = [0u32;4];
        let mut i: usize = 0;
        while i < 4
            invariant
                i <= 4,
                forall|j: int| 0 <= j < 4 ==> #[trigger] al@[j] == spec_lane32(a, j),
                forall|j: int| 0 <= j < 4 ==> #[trigger] bl@[j] == spec_lane32(b, j),
                forall|j: int|
                    0 <= j < i ==> #[trigger] c@[j] == ({
                        let x = spec_lane32(a, j);
                        let y = spec_lane32(b, j);
                        if x < y { 0xffffffffu32 } else { 0u32 }
                    }),
            decreases 4 - i,
        {
            let x = al[i];
            let y = bl[i];
            c[i] = if x < y { 0xffffffffu32 } else { 0u32 };
            i += 1;
        }
        proof {
            assert(c@ =~= Seq::new(
                4,
                |i: int|
                    {
                        let x = spec_lane32(a, i);
                        let y = spec_lane32(b, i);
                        if x < y { 0xffffffffu32 } else { 0u32 }
                    },
            ));
        }
        self.set_v_u32x4(operands.dst, c);
        ControlFlow::Continue(())
    }

    /// Compares lane by lane, in 4 lanes of 32 bits: a lane of the result
    /// is all ones where the lanes are in increasing order as unsigned
    /// numbers, else zero.
    pub fn vulteq32x4(&mut self, operands: BinaryOperands<VReg>) -> (r: ControlFlow<Done>)
        ensures
            r is Continue,
            ({
                let a = old(self)@.state.v[operands.src1.spec_index()].bits;
                let b = old(self)@.state.v[operands.src2.spec_index()].bits;
                final(self)@ == old(self)@.set_v128(
                    operands.dst.spec_index(),
                    spec_from_lanes32(
                        Seq::new(
                            4,
                            |i: int|
                                {
                                    let x = spec_lane32(a, i);
                                    let y = spec_lane32(b, i);
                                    if x <= y { 0xffffffffu32 } else { 0u32 }
                                },
                        ),
                        4,
                    ),
                )
            }),
    {
        let ghost a = self@.state.v[operands.src1.spec_index()].bits;
        let ghost b = self@.state.v[operands.src2.spec_index()].bits;
        let al = self.v(operands.src1).get_u32x4();
        let bl = self.v(operands.src2).get_u32x4();
        let mut c = [0u32;4];
        let mut i: usize = 0;
        while i < 4
            invariant
                i <= 4,
                forall|j: int| 0 <= j < 4 ==> #[trigger] al@[j] == spec_lane32(a, j),
                forall|j: int| 0 <= j < 4 ==> #[trigger] bl@[j] == spec_lane32(b, j),
                forall|j: int|
                    0 <= j < i ==> #[trigger] c@[j] == ({
                        let x = spec_lane32(a, j);
                        let y = spec_lane32(b, j);
                        if x <= y { 0xffffffffu32 } else { 0u32 }
                    }),
            decreases 4 - i,
        {
            let x = al[i];
            let y = bl[i];
            c[i] = if x <= y { 0xffffffffu32 } else { 0u32 };
            i += 1;
        }
        proof {
            assert(c@ =~= Seq::new(
                4,
                |i: int|
                    {
                        let x = spec_lane32(a, i);
                        let y = spec_lane32(b, i);
                        if x <= y { 0xffffffffu32 } else { 0u32 }
                    },
            ));
        }
        self.set_v_u32x4(operands.dst, c);
        ControlFlow::Continue(())
    }

    /// Compares lane by lane, in 2 lanes of 64 bits: a lane of the result
    /// is all ones where the lanes are equal, else zero.
    pub fn veq64x2(&mut self, operands: BinaryOperands<VReg>) -> (r: ControlFlow<Done>)
        ensures
            r is Continue,
            ({
                let a = old(self)@.state.v[operands.src1.spec_index()].bits;
                let b = old(self)@.state.v[operands.src2.spec_index()].bits;
                final(self)@ == old(self)@.set_v128(
                    operands.dst.spec_index(),
                    spec_from_lanes64(
                        Seq::new(
                            2,
                            |i: int|
                                {
                                    let x = spec_lane64(a, i);
                                    let y = spec_lane64(b, i);
                                    if x == y { 0xffffffffffffffffu64 } else { 0u64 }
                                },
                        ),
                        2,
                    ),
                )
            }),
    {
        let ghost a = self@.state.v[operands.src1.spec_index()].bits;
        let ghost b = self@.state.v[operands.src2.spec_index()].bits;
        let al = self.v(operands.src1).get_u64x2();
        let bl = self.v(operands.src2).get_u64x2();
        let mut c = [0u64;2];
        let mut i: usize = 0;
        while i < 2
            invariant
                i <= 2,
                forall|j: int| 0 <= j < 2 ==> #[trigger] al@[j] == spec_lane64(a, j),
                forall|j: int| 0 <= j < 2 ==> #[trigger] bl@[j] == spec_lane64(b, j),
                forall|j: int|
                    0 <= j < i ==> #[trigger] c@[j] == ({
                        let x = spec_lane64(a, j);
                        let y = spec_lane64(b, j);
                        if x == y { 0xffffffffffffffffu64 } else { 0u64 }
                    }),
            decreases 2 - i,
        {
            let x = al[i];
            let y = bl[i];
            c[i] = if x == y { 0xffffffffffffffffu64 } else { 0u64 };
            i += 1;
        }
        proof {
            assert(c@ =~= Seq::new(
                2,
                |i: int|
                    {
                        let x = spec_lane64(a, i);
                        let y = spec_lane64(b, i);
                        if x == y { 0xffffffffffffffffu64 } else { 0u64 }
                    },
            ));
        }
        self.set_v_u64x2(operands.dst, c);
        ControlFlow::Continue(())
    }

    /// Compares lane by lane, in 2 lanes of 64 bits: a lane of the result
    /// is all ones where the lanes differ, else zero.
    pub fn vneq64x2(&mut self, operands: BinaryOperands<VReg>) -> (r: ControlFlow<Done>)
        ensures
            r is Continue,
            ({
                let a = old(self)@.state.v[operands.src1.spec_index()].bits;
                let b = old(self)@.state.v[operands.src2.spec_index()].bits;
                final(self)@ == old(self)@.set_v128(
                    operands.dst.spec_index(),
                    spec_from_lanes64(
                        Seq::new(
                            2,
                            |i: int|
                                {
                                    let x = spec_lane64(a, i);
                                    let y = spec_lane64(b, i);
                                    if x != y { 0xffffffffffffffffu64 } else { 0u64 }
                                },
                        ),
                        2,
                    ),
                )
            }),
    {
        let ghost a = self@.state.v[operands.src1.spec_index()].bits;
        let ghost b = self@.state.v[operands.src2.spec_index()].bits;
        let al = self.v(operands.src1).get_u64x2();
        let bl = self.v(operands.src2).get_u64x2();
        let mut c = [0u64;2];
        let mut i: usize = 0;
        while i < 2
            invariant
                i <= 2,
                forall|j: int| 0 <= j < 2 ==> #[trigger] al@[j] == spec_lane64(a, j),
                forall|j: int| 0 <= j < 2 ==> #[trigger] bl@[j] == spec_lane64(b, j),
                forall|j: int|
                    0 <= j < i ==> #[trigger] c@[j] == ({
                        let x = spec_lane64(a, j);
                        let y = spec_lane64(b, j);
                        if x != y { 0xffffffffffffffffu64 } else { 0u64 }
                    }),
            decreases 2 - i,
        {
            let x = al[i];
            let y = bl[i];
            c[i] = if x != y { 0xffffffffffffffffu64 } else { 0u64 };
            i += 1;
        }
        proof {
            assert(c@ =~= Seq::new(
                2,
                |i: int|
                    {
                        let x = spec_lane64(a, i);
                        let y = spec_lane64(b, i);
                        if x != y { 0xffffffffffffffffu64 } else { 0u64 }
                    },
            ));
        }
        self.set_v_u64x2(operands.dst, c);
        ControlFlow::Continue(())
    }

    /// Compares lane by lane, in 2 lanes of 64 bits: a lane of the result
    /// is all ones where the lanes are in strictly increasing order as
    /// signed numbers, else zero.
    pub fn vslt64x2(&mut self, operands: BinaryOperands<VReg>) -> (r: ControlFlow<Done>)
        ensures
            r is Continue,
            ({
                let a = old(self)@.state.v[operands.src1.spec_index()].bits;
                let b = old(self)@.state.v[operands.src2.spec_index()].bits;
                final(self)@ == old(self)@.set_v128(
                    operands.dst.spec_index(),
                    spec_from_lanes64(
                        Seq::new(
                            2,
                            |i: int|
                                {
                                    let x = spec_lane64(a, i);
                                    let y = spec_lane64(b, i);
                                    if (x as i64) < (y as i64) {
                                        0xffffffffffffffffu64
                                    } else {
                                        0u64
                                    }
                                },
                        ),
                        2,
                    ),
                )
            }),
    {
        let ghost a = self@.state.v[operands.src1.spec_index()].bits;
        let ghost b = self@.state.v[operands.src2.spec_index()].bits;
        let al = self.v(operands.src1).get_u64x2();
        let bl = self.v(operands.src2).get_u64x2();
        let mut c = [0u64;2];
        let mut i: usize = 0;
        while i < 2
            invariant
                i <= 2,
                forall|j: int| 0 <= j < 2 ==> #[trigger] al@[j] == spec_lane64(a, j),
                forall|j: int| 0 <= j < 2 ==> #[trigger] bl@[j] == spec_lane64(b, j),
                forall|j: int|
                    0 <= j < i ==> #[trigger] c@[j] == ({
                        let x = spec_lane64(a, j);
                        let y = spec_lane64(b, j);
                        if (x as i64) < (y as i64) { 0xffffffffffffffffu64 } else { 0u64 }
                    }),
            decreases 2 - i,
        {
            let x = al[i];
            let y = bl[i];
            c[i] = if signed64(x) < signed64(y) { 0xffffffffffffffffu64 } else { 0u64 };
            i += 1;
        }
        proof {
            assert(c@ =~= Seq::new(
                2,
                |i: int|
                    {
                        let x = spec_lane64(a, i);
                        let y = spec_lane64(b, i);
                        if (x as i64) < (y as i64) { 0xffffffffffffffffu64 } else { 0u64 }
                    },
            ));
        }
        self.set_v_u64x2(operands.dst, c);
        ControlFlow::Continue(())
    }

    /// Compares lane by lane, in 2 lanes of 64 bits: a lane of the result
    /// is all ones where the lanes are in increasing order as signed
    /// numbers, else zero.
    pub fn vslteq64x2(&mut self, operands: BinaryOperands<VReg>) -> (r: ControlFlow<Done>)
        ensures
            r is Continue,
            ({
                let a = old(self)@.state.v[operands.src1.spec_index()].bits;
                let b = old(self)@.state.v[operands.src2.spec_index()].bits;
                final(self)@ == old(self)@.set_v128(
                    operands.dst.spec_index(),
                    spec_from_lanes64(
                        Seq::new(
                            2,
                            |i: int|
                                {
                                    let x = spec_lane64(a, i);
                                    let y = spec_lane64(b, i);
                                    if (x as i64) <= (y as i64) {
                                        0xffffffffffffffffu64
                                    } else {
                                        0u64
                                    }
                                },
                        ),
                        2,
                    ),
                )
            }),
    {
        let ghost a = self@.state.v[operands.src1.spec_index()].bits;
        let ghost b = self@.state.v[operands.src2.spec_index()].bits;
        let al = self.v(operands.src1).get_u64x2();
        let bl = self.v(operands.src2).get_u64x2();
        let mut c = [0u64;2];
        let mut i: usize = 0;
        while i < 2
            invariant
                i <= 2,
                forall|j: int| 0 <= j < 2 ==> #[trigger] al@[j] == spec_lane64(a, j),
                forall|j: int| 0 <= j < 2 ==> #[trigger] bl@[j] == spec_lane64(b, j),
                forall|j: int|
                    0 <= j < i ==> #[trigger] c@[j] == ({
                        let x = spec_lane64(a, j);
                        let y = spec_lane64(b, j);
                        if (x as i64) <= (y as i64) { 0xffffffffffffffffu64 } else { 0u64 }
                    }),
            decreases 2 - i,
        {
            let x = al[i];
            let y = bl[i];
            c[i] = if signed64(x) <= signed64(y) { 0xffffffffffffffffu64 } else { 0u64 };
            i += 1;
        }
        proof {
            assert(c@ =~= Seq::new(
                2,
                |i: int|
                    {
                        let x = spec_lane64(a, i);
                        let y = spec_lane64(b, i);
                        if (x as i64) <= (y as i64) { 0xffffffffffffffffu64 } else { 0u64 }
                    },
            ));
        }
        self.set_v_u64x2(operands.dst, c);
        ControlFlow::Continue(())
    }

    /// Compares lane by lane, in 2 lanes of 64 bits: a lane of the result
    /// is all ones where the lanes are in strictly increasing order as
    /// unsigned numbers, else zero.
    pub fn vult64x2(&mut self, operands: BinaryOperands<VReg>) -> (r: ControlFlow<Done>)
        ensures
            r is Continue,
            ({
                let a = old(self)@.state.v[operands.src1.spec_index()].bits;
                let b = old(self)@.state.v[operands.src2.spec_index()].bits;
                final(self)@ == old(self)@.set_v128(
                    operands.dst.spec_index(),
                    spec_from_lanes64(
                        Seq::new(
                            2,
                            |i: int|
                                {
                                    let x = spec_lane64(a, i);
                                    let y = spec_lane64(b, i);
                                    if x < y { 0xffffffffffffffffu64 } else { 0u64 }
                                },
                        ),
                        2,
                    ),
                )
            }),
    {
        let ghost a = self@.state.v[operands.src1.spec_index()].bits;
        let ghost b = self@.state.v[operands.src2.spec_index()].bits;
        let al = self.v(operands.src1).get_u64x2();
        let bl = self.v(operands.src2).get_u64x2();
        let mut c = [0u64;2];
        let mut i: usize = 0;
        while i < 2
            invariant
                i <= 2,
                forall|j: int| 0 <= j < 2 ==> #[trigger] al@[j] == spec_lane64(a, j),
                forall|j: int| 0 <= j < 2 ==> #[trigger] bl@[j] == spec_lane64(b, j),
                forall|j: int|
                    0 <= j < i ==> #[trigger] c@[j] == ({
                        let x = spec_lane64(a, j);
                        let y = spec_lane64(b, j);
                        if x < y { 0xffffffffffffffffu64 } else { 0u64 }
                    }),
            decreases 2 - i,
        {
            let x = al[i];
            let y = bl[i];
            c[i] = if x < y { 0xffffffffffffffffu64 } else { 0u64 };
            i += 1;
        }
        proof {
            assert(c@ =~= Seq::new(
                2,
                |i: int|
                    {
                        let x = spec_lane64(a, i);
                        let y = spec_lane64(b, i);
                        if x < y { 0xffffffffffffffffu64 } else { 0u64 }
                    },
            ));
        }
        self.set_v_u64x2(operands.dst, c);
        ControlFlow::Continue(())
    }

    /// Compares lane by lane, in 2 lanes of 64 bits: a lane of the result
    /// is all ones where the lanes are in increasing order as unsigned
    /// numbers, else zero.
    pub fn vulteq64x2(&mut self, operands: BinaryOperands<VReg>) -> (r: ControlFlow<Done>)
        ensures
            r is Continue,
            ({
                let a = old(self)@.state.v[operands.src1.spec_index()].bits;
                let b = old(self)@.state.v[operands.src2.spec_index()].bits;
                final(self)@ == old(self)@.set_v128(
                    operands.dst.spec_index(),
                    spec_from_lanes64(
                        Seq::new(
                            2,
                            |i: int|
                                {
                                    let x = spec_lane64(a, i);
                                    let y = spec_lane64(b, i);
                                    if x <= y { 0xffffffffffffffffu64 } else { 0u64 }
                                },
                        ),
                        2,
                    ),
                )
            }),
    {
        let ghost a = self@.state.v[operands.src1.spec_index()].bits;
        let ghost b = self@.state.v[operands.src2.spec_index()].bits;
        let al = self.v(operands.src1).get_u64x2();
        let bl = self.v(operands.src2).get_u64x2();
        let mut c = [0u64;2];
        let mut i: usize = 0;
        while i < 2
            invariant
                i <= 2,
                forall|j: int| 0 <= j < 2 ==> #[trigger] al@[j] == spec_lane64(a, j),
                forall|j: int| 0 <= j < 2 ==> #[trigger] bl@[j] == spec_lane64(b, j),
                forall|j: int|
                    0 <= j < i ==> #[trigger] c@[j] == ({
                        let x = spec_lane64(a, j);
                        let y = spec_lane64(b, j);
                        if x <= y { 0xffffffffffffffffu64 } else { 0u64 }
                    }),
            decreases 2 - i,
        {
            let x = al[i];
            let y = bl[i];
            c[i] = if x <= y { 0xffffffffffffffffu64 } else { 0u64 };
            i += 1;
        }
        proof {
            assert(c@ =~= Seq::new(
                2,
                |i: int|
                    {
                        let x = spec_lane64(a, i);
                        let y = spec_lane64(b, i);
                        if x <= y { 0xffffffffffffffffu64 } else { 0u64 }
                    },
            ));
        }
        self.set_v_u64x2(operands.dst, c);
        ControlFlow::Continue(())
    }

    /// Negates each of 16 lanes of 8 bits, wrapping around.
    pub fn vneg8x16(&mut self, dst: VReg, src: VReg) -> (r: ControlFlow<Done>)
        ensures
            r is Continue,
            ({
                let a = old(self)@.state.v[src.spec_index()].bits;
                final(self)@ == old(self)@.set_v128(
                    dst.spec_index(),
                    spec_from_lanes8(
                        Seq::new(
                            16,
                            |i: int|
                                {
                                    let x = spec_lane8(a, i);
                                    0u8.wrapping_sub(x)
                                },
                        ),
                        16,
                    ),
                )
            }),
    {
        let ghost a = self@.state.v[src.spec_index()].bits;
        let al = self.v(src).get_u8x16();
        let mut c = [0u8;16];
        let mut i: usize = 0;
        while i < 16
            invariant
                i <= 16,
                forall|j: int| 0 <= j < 16 ==> #[trigger] al@[j] == spec_lane8(a, j),
                forall|j: int|
                    0 <= j < i ==> #[trigger] c@[j] == ({
                        let x = spec_lane8(a, j);
                        0u8.wrapping_sub(x)
                    }),
            decreases 16 - i,
        {
            let x = al[i];
            c[i] = 0u8.wrapping_sub(x);
            i += 1;
        }
        proof {
            assert(c@ =~= Seq::new(
                16,
                |i: int|
                    {
                        let x = spec_lane8(a, i);
                        0u8.wrapping_sub(x)
                    },
            ));
        }
        self.set_v_u8x16(dst, c);
        ControlFlow::Continue(())
    }

    /// The absolute value of each of 16 lanes of 8 bits as a signed
    /// number, wrapping around for the least number.
    pub fn vabs8x16(&mut self, dst: VReg, src: VReg) -> (r: ControlFlow<Done>)
        ensures
            r is Continue,
            ({
                let a = old(self)@.state.v[src.spec_index()].bits;
                final(self)@ == old(self)@.set_v128(
                    dst.spec_index(),
                    spec_from_lanes8(
                        Seq::new(
                            16,
                            |i: int|
                                {
                                    let x = spec_lane8(a, i);
                                    if (x as i8) < 0 { 0u8.wrapping_sub(x) } else { x }
                                },
                        ),
                        16,
                    ),
                )
            }),
    {
        let ghost a = self@.state.v[src.spec_index()].bits;
        let al = self.v(src).get_u8x16();
        let mut c = [0u8;16];
        let mut i: usize = 0;
        while i < 16
            invariant
                i <= 16,
                forall|j: int| 0 <= j < 16 ==> #[trigger] al@[j] == spec_lane8(a, j),
                forall|j: int|
                    0 <= j < i ==> #[trigger] c@[j] == ({
                        let x = spec_lane8(a, j);
                        if (x as i8) < 0 { 0u8.wrapping_sub(x) } else { x }
                    }),
            decreases 16 - i,
        {
            let x = al[i];
            c[i] = if signed8(x) < 0 { 0u8.wrapping_sub(x) } else { x };
            i += 1;
        }
        proof {
            assert(c@ =~= Seq::new(
                16,
                |i: int|
                    {
                        let x = spec_lane8(a, i);
                        if (x as i8) < 0 { 0u8.wrapping_sub(x) } else { x }
                    },
            ));
        }
        self.set_v_u8x16(dst, c);
        ControlFlow::Continue(())
    }

    /// Negates each of 8 lanes of 16 bits, wrapping around.
    pub fn vneg16x8(&mut self, dst: VReg, src: VReg) -> (r: ControlFlow<Done>)
        ensures
            r is Continue,
            ({
                let a = old(self)@.state.v[src.spec_index()].bits;
                final(self)@ == old(self)@.set_v128(
                    dst.spec_index(),
                    spec_from_lanes16(
                        Seq::new(
                            8,
                            |i: int|
                                {
                                    let x = spec_lane16(a, i);
                                    0u16.wrapping_sub(x)
                                },
                        ),
                        8,
                    ),
                )
            }),
    {
        let ghost a = self@.state.v[src.spec_index()].bits;
        let al = self.v(src).get_u16x8();
        let mut c = [0u16;8];
        let mut i: usize = 0;
        while i < 8
            invariant
                i <= 8,
                forall|j: int| 0 <= j < 8 ==> #[trigger] al@[j] == spec_lane16(a, j),
                forall|j: int|
                    0 <= j < i ==> #[trigger] c@[j] == ({
                        let x = spec_lane16(a, j);
                        0u16.wrapping_sub(x)
                    }),
            decreases 8 - i,
        {
            let x = al[i];
            c[i] = 0u16.wrapping_sub(x);
            i += 1;
        }
        proof {
            assert(c@ =~= Seq::new(
                8,
                |i: int|
                    {
                        let x = spec_lane16(a, i);
                        0u16.wrapping_sub(x)
                    },
            ));
        }
        self.set_v_u16x8(dst, c);
        ControlFlow::Continue(())
    }

    /// The absolute value of each of 8 lanes of 16 bits as a signed
    /// number, wrapping around for the least number.
    pub fn vabs16x8(&mut self, dst: VReg, src: VReg) -> (r: ControlFlow<Done>)
        ensures
            r is Continue,
            ({
                let a = old(self)@.state.v[src.spec_index()].bits;
                final(self)@ == old(self)@.set_v128(
                    dst.spec_index(),
                    spec_from_lanes16(
                        Seq::new(
                            8,
                            |i: int|
                                {
                                    let x = spec_lane16(a, i);
                                    if (x as i16) < 0 { 0u16.wrapping_sub(x) } else { x }
                                },
                        ),
                        8,
                    ),
                )
            }),
    {
        let ghost a = self@.state.v[src.spec_index()].bits;
        let al = self.v(src).get_u16x8();
        let mut c = [0u16;8];
        let mut i: usize = 0;
        while i < 8
            invariant
                i <= 8,
                forall|j: int| 0 <= j < 8 ==> #[trigger] al@[j] == spec_lane16(a, j),
                forall|j: int|
                    0 <= j < i ==> #[trigger] c@[j] == ({
                        let x = spec_lane16(a, j);
                        if (x as i16) < 0 { 0u16.wrapping_sub(x) } else { x }
                    }),
            decreases 8 - i,
        {
            let x = al[i];
            c[i] = if signed16(x) < 0 { 0u16.wrapping_sub(x) } else { x };
            i += 1;
        }
        proof {
            assert(c@ =~= Seq::new(
                8,
                |i: int|
                    {
                        let x = spec_lane16(a, i);
                        if (x as i16) < 0 { 0u16.wrapping_sub(x) } else { x }
                    },
            ));
        }
        self.set_v_u16x8(dst, c);
        ControlFlow::Continue(())
    }

    /// Negates each of 4 lanes of 32 bits, wrapping around.
    pub fn vneg32x4(&mut self, dst: VReg, src: VReg) -> (r: ControlFlow<Done>)
        ensures
            r is Continue,
            ({
                let a = old(self)@.state.v[src.spec_index()].bits;
                final(self)@ == old(self)@.set_v128(
                    dst.spec_index(),
                    spec_from_lanes32(
                        Seq::new(
                            4,
                            |i: int|
                                {
                                    let x = spec_lane32(a, i);
                                    0u32.wrapping_sub(x)
                                },
                        ),
                        4,
                    ),
                )
            }),
    {
        let ghost a = self@.state.v[src.spec_index()].bits;
        let al = self.v(src).get_u32x4();
        let mut c = [0u32;4];
        let mut i: usize = 0;
        while i < 4
            invariant
                i <= 4,
                forall|j: int| 0 <= j < 4 ==> #[trigger] al@[j] == spec_lane32(a, j),
                forall|j: int|
                    0 <= j < i ==> #[trigger] c@[j] == ({
                        let x = spec_lane32(a, j);
                        0u32.wrapping_sub(x)
                    }),
            decreases 4 - i,
        {
            let x = al[i];
            c[i] = 0u32.wrapping_sub(x);
            i += 1;
        }
        proof {
            assert(c@ =~= Seq::new(
                4,
                |i: int|
                    {
                        let x = spec_lane32(a, i);
                        0u32.wrapping_sub(x)
                    },
            ));
        }
        self.set_v_u32x4(dst, c);
        ControlFlow::Continue(())
    }

    /// The absolute value of each of 4 lanes of 32 bits as a signed
    /// number, wrapping around for the least number.
    pub fn vabs32x4(&mut self, dst: VReg, src: VReg) -> (r: ControlFlow<Done>)
        ensures
            r is Continue,
            ({
                let a = old(self)@.state.v[src.spec_index()].bits;
                final(self)@ == old(self)@.set_v128(
                    dst.spec_index(),
                    spec_from_lanes32(
                        Seq::new(
                            4,
                            |i: int|
                                {
                                    let x = spec_lane32(a, i);
                                    if (x as i32) < 0 { 0u32.wrapping_sub(x) } else { x }
                                },
                        ),
                        4,
                    ),
                )
            }),
    {
        let ghost a = self@.state.v[src.spec_index()].bits;
        let al = self.v(src).get_u32x4();
        let mut c = [0u32;4];
        let mut i: usize = 0;
        while i < 4
            invariant
                i <= 4,
                forall|j: int| 0 <= j < 4 ==> #[trigger] al@[j] == spec_lane32(a, j),
                forall|j: int|
                    0 <= j < i ==> #[trigger] c@[j] == ({
                        let x = spec_lane32(a, j);
                        if (x as i32) < 0 { 0u32.wrapping_sub(x) } else { x }
                    }),
            decreases 4 - i,
        {
            let x = al[i];
            c[i] = if signed32(x) < 0 { 0u32.wrapping_sub(x) } else { x };
            i += 1;
        }
        proof {
            assert(c@ =~= Seq::new(
                4,
                |i: int|
                    {
                        let x = spec_lane32(a, i);
                        if (x as i32) < 0 { 0u32.wrapping_sub(x) } else { x }
                    },
            ));
        }
        self.set_v_u32x4(dst, c);
        ControlFlow::Continue(())
    }

    /// Negates each of 2 lanes of 64 bits, wrapping around.
    pub fn vneg64x2(&mut self, dst: VReg, src: VReg) -> (r: ControlFlow<Done>)
        ensures
            r is Continue,
            ({
                let a = old(self)@.state.v[src.spec_index()].bits;
                final(self)@ == old(self)@.set_v128(
                    dst.spec_index(),
                    spec_from_lanes64(
                        Seq::new(
                            2,
                            |i: int|
                                {
                                    let x = spec_lane64(a, i);
                                    0u64.wrapping_sub(x)
                                },
                        ),
                        2,
                    ),
                )
            }),
    {
        let ghost a = self@.state.v[src.spec_index()].bits;
        let al = self.v(src).get_u64x2();
        let mut c = [0u64;2];
        let mut i: usize = 0;
        while i < 2
            invariant
                i <= 2,
                forall|j: int| 0 <= j < 2 ==> #[trigger] al@[j] == spec_lane64(a, j),
                forall|j: int|
                    0 <= j < i ==> #[trigger] c@[j] == ({
                        let x = spec_lane64(a, j);
                        0u64.wrapping_sub(x)
                    }),
            decreases 2 - i,
        {
            let x = al[i];
            c[i] = 0u64.wrapping_sub(x);
            i += 1;
        }
        proof {
            assert(c@ =~= Seq::new(
                2,
                |i: int|
                    {
                        let x = spec_lane64(a, i);
                        0u64.wrapping_sub(x)
                    },
            ));
        }
        self.set_v_u64x2(dst, c);
        ControlFlow::Continue(())
    }

    /// The absolute value of each of 2 lanes of 64 bits as a signed
    /// number, wrapping around for the least number.
    pub fn vabs64x2(&mut self, dst: VReg, src: VReg) -> (r: ControlFlow<Done>)
        ensures
            r is Continue,
            ({
                let a = old(self)@.state.v[src.spec_index()].bits;
                final(self)@ == old(self)@.set_v128(
                    dst.spec_index(),
                    spec_from_lanes64(
                        Seq::new(
                            2,
                            |i: int|
                                {
                                    let x = spec_lane64(a, i);
                                    if (x as i64) < 0 { 0u64.wrapping_sub(x) } else { x }
                                },
                        ),
                        2,
                    ),
                )
            }),
    {
        let ghost a = self@.state.v[src.spec_index()].bits;
        let al = self.v(src).get_u64x2();
        let mut c = [0u64;2];
        let mut i: usize = 0;
        while i < 2
            invariant
                i <= 2,
                forall|j: int| 0 <= j < 2 ==> #[trigger] al@[j] == spec_lane64(a, j),
                forall|j: int|
                    0 <= j < i ==> #[trigger] c@[j] == ({
                        let x = spec_lane64(a, j);
                        if (x as i64) < 0 { 0u64.wrapping_sub(x) } else { x }
                    }),
            decreases 2 - i,
        {
            let x = al[i];
            c[i] = if signed64(x) < 0 { 0u64.wrapping_sub(x) } else { x };
            i += 1;
        }
        proof {
            assert(c@ =~= Seq::new(
                2,
                |i: int|
                    {
                        let x = spec_lane64(a, i);
                        if (x as i64) < 0 { 0u64.wrapping_sub(x) } else { x }
                    },
            ));
        }
        self.set_v_u64x2(dst, c);
        ControlFlow::Continue(())
    }

    /// The lesser of the signed numbers, lane by lane, in 16 lanes of 8
    /// bits.
    pub fn vmin8x16_s(&mut self, operands: BinaryOperands<VReg>) -> (r: ControlFlow<Done>)
        ensures
            r is Continue,
            ({
                let a = old(self)@.state.v[operands.src1.spec_index()].bits;
                let b = old(self)@.state.v[operands.src2.spec_index()].bits;
                final(self)@ == old(self)@.set_v128(
                    operands.dst.spec_index(),
                    spec_from_lanes8(
                        Seq::new(
                            16,
                            |i: int|
                                {
                                    let x = spec_lane8(a, i);
                                    let y = spec_lane8(b, i);
                                    if (x as i8) < (y as i8) { x } else { y }
                                },
                        ),
                        16,
                    ),
                )
            }),
    {
        let ghost a = self@.state.v[operands.src1.spec_index()].bits;
        let ghost b = self@.state.v[operands.src2.spec_index()].bits;
        let al = self.v(operands.src1).get_u8x16();
        let bl = self.v(operands.src2).get_u8x16();
        let mut c = [0u8;16];
        let mut i: usize = 0;
        while i < 16
            invariant
                i <= 16,
                forall|j: int| 0 <= j < 16 ==> #[trigger] al@[j] == spec_lane8(a, j),
                forall|j: int| 0 <= j < 16 ==> #[trigger] bl@[j] == spec_lane8(b, j),
                forall|j: int|
                    0 <= j < i ==> #[trigger] c@[j] == ({
                        let x = spec_lane8(a, j);
                        let y = spec_lane8(b, j);
                        if (x as i8) < (y as i8) { x } else { y }
                    }),
            decreases 16 - i,
        {
            let x = al[i];
            let y = bl[i];
            c[i] = if signed8(x) < signed8(y) { x } else { y };
            i += 1;
        }
        proof {
            assert(c@ =~= Seq::new(
                16,
                |i: int|
                    {
                        let x = spec_lane8(a, i);
                        let y = spec_lane8(b, i);
                        if (x as i8) < (y as i8) { x } else { y }
                    },
            ));
        }
        self.set_v_u8x16(operands.dst, c);
        ControlFlow::Continue(())
    }

    /// The lesser of the unsigned numbers, lane by lane, in 16 lanes of 8
    /// bits.
    pub fn vmin8x16_u(&mut self, operands: BinaryOperands<VReg>) -> (r: ControlFlow<Done>)
        ensures
            r is Continue,
            ({
                let a = old(self)@.state.v[operands.src1.spec_index()].bits;
                let b = old(self)@.state.v[operands.src2.spec_index()].bits;
                final(self)@ == old(self)@.set_v128(
                    operands.dst.spec_index(),
                    spec_from_lanes8(
                        Seq::new(
                            16,
                            |i: int|
                                {
                                    let x = spec_lane8(a, i);
                                    let y = spec_lane8(b, i);
                                    if x < y { x } else { y }
                                },
                        ),
                        16,
                    ),
                )
            }),
    {
        let ghost a = self@.state.v[operands.src1.spec_index()].bits;
        let ghost b = self@.state.v[operands.src2.spec_index()].bits;
        let al = self.v(operands.src1).get_u8x16();
        let bl = self.v(operands.src2).get_u8x16();
        let mut c = [0u8;16];
        let mut i: usize = 0;
        while i < 16
            invariant
                i <= 16,
                forall|j: int| 0 <= j < 16 ==> #[trigger] al@[j] == spec_lane8(a, j),
                forall|j: int| 0 <= j < 16 ==> #[trigger] bl@[j] == spec_lane8(b, j),
                forall|j: int|
                    0 <= j < i ==> #[trigger] c@[j] == ({
                        let x = spec_lane8(a, j);
                        let y = spec_lane8(b, j);
                        if x < y { x } else { y }
                    }),
            decreases 16 - i,
        {
            let x = al[i];
            let y = bl[i];
            c[i] = if x < y { x } else { y };
            i += 1;
        }
        proof {
            assert(c@ =~= Seq::new(
                16,
                |i: int|
                    {
                        let x = spec_lane8(a, i);
                        let y = spec_lane8(b, i);
                        if x < y { x } else { y }
                    },
            ));
        }
        self.set_v_u8x16(operands.dst, c);
        ControlFlow::Continue(())
    }

    /// The greater of the signed numbers, lane by lane, in 16 lanes of 8
    /// bits.
    pub fn vmax8x16_s(&mut self, operands: BinaryOperands<VReg>) -> (r: ControlFlow<Done>)
        ensures
            r is Continue,
            ({
                let a = old(self)@.state.v[operands.src1.spec_index()].bits;
                let b = old(self)@.state.v[operands.src2.spec_index()].bits;
                final(self)@ == old(self)@.set_v128(
                    operands.dst.spec_index(),
                    spec_from_lanes8(
                        Seq::new(
                            16,
                            |i: int|
                                {
                                    let x = spec_lane8(a, i);
                                    let y = spec_lane8(b, i);
                                    if (x as i8) > (y as i8) { x } else { y }
                                },
                        ),
                        16,
                    ),
                )
            }),
    {
        let ghost a = self@.state.v[operands.src1.spec_index()].bits;
        let ghost b = self@.state.v[operands.src2.spec_index()].bits;
        let al = self.v(operands.src1).get_u8x16();
        let bl = self.v(operands.src2).get_u8x16();
        let mut c = [0u8;16];
        let mut i: usize = 0;
        while i < 16
            invariant
                i <= 16,
                forall|j: int| 0 <= j < 16 ==> #[trigger] al@[j] == spec_lane8(a, j),
                forall|j: int| 0 <= j < 16 ==> #[trigger] bl@[j] == spec_lane8(b, j),
                forall|j: int|
                    0 <= j < i ==> #[trigger] c@[j] == ({
                        let x = spec_lane8(a, j);
                        let y = spec_lane8(b, j);
                        if (x as i8) > (y as i8) { x } else { y }
                    }),
            decreases 16 - i,
        {
            let x = al[i];
            let y = bl[i];
            c[i] = if signed8(x) > signed8(y) { x } else { y };
            i += 1;
        }
        proof {
            assert(c@ =~= Seq::new(
                16,
                |i: int|
                    {
                        let x = spec_lane8(a, i);
                        let y = spec_lane8(b, i);
                        if (x as i8) > (y as i8) { x } else { y }
                    },
            ));
        }
        self.set_v_u8x16(operands.dst, c);
        ControlFlow::Continue(())
    }

    /// The greater of the unsigned numbers, lane by lane, in 16 lanes of
    /// 8 bits.
    pub fn vmax8x16_u(&mut self, operands: BinaryOperands<VReg>) -> (r: ControlFlow<Done>)
        ensures
            r is Continue,
            ({
                let a = old(self)@.state.v[operands.src1.spec_index()].bits;
                let b = old(self)@.state.v[operands.src2.spec_index()].bits;
                final(self)@ == old(self)@.set_v128(
                    operands.dst.spec_index(),
                    spec_from_lanes8(
                        Seq::new(
                            16,
                            |i: int|
                                {
                                    let x = spec_lane8(a, i);
                                    let y = spec_lane8(b, i);
                                    if x > y { x } else { y }
                                },
                        ),
                        16,
                    ),
                )
            }),
    {
        let ghost a = self@.state.v[operands.src1.spec_index()].bits;
        let ghost b = self@.state.v[operands.src2.spec_index()].bits;
        let al = self.v(operands.src1).get_u8x16();
        let bl = self.v(operands.src2).get_u8x16();
        let mut c = [0u8;16];
        let mut i: usize = 0;
        while i < 16
            invariant
                i <= 16,
                forall|j: int| 0 <= j < 16 ==> #[trigger] al@[j] == spec_lane8(a, j),
                forall|j: int| 0 <= j < 16 ==> #[trigger] bl@[j] == spec_lane8(b, j),
                forall|j: int|
                    0 <= j < i ==> #[trigger] c@[j] == ({
                        let x = spec_lane8(a, j);
                        let y = spec_lane8(b, j);
                        if x > y { x } else { y }
                    }),
            decreases 16 - i,
        {
            let x = al[i];
            let y = bl[i];
            c[i] = if x > y { x } else { y };
            i += 1;
        }
        proof {
            assert(c@ =~= Seq::new(
                16,
                |i: int|
                    {
                        let x = spec_lane8(a, i);
                        let y = spec_lane8(b, i);
                        if x > y { x } else { y }
                    },
            ));
        }
        self.set_v_u8x16(operands.dst, c);
        ControlFlow::Continue(())
    }

    /// The lesser of the signed numbers, lane by lane, in 8 lanes of 16
    /// bits.
    pub fn vmin16x8_s(&mut self, operands: BinaryOperands<VReg>) -> (r: ControlFlow<Done>)
        ensures
            r is Continue,
            ({
                let a = old(self)@.state.v[operands.src1.spec_index()].bits;
                let b = old(self)@.state.v[operands.src2.spec_index()].bits;
                final(self)@ == old(self)@.set_v128(
                    operands.dst.spec_index(),
                    spec_from_lanes16(
                        Seq::new(
                            8,
                            |i: int|
                                {
                                    let x = spec_lane16(a, i);
                                    let y = spec_lane16(b, i);
                                    if (x as i16) < (y as i16) { x } else { y }
                                },
                        ),
                        8,
                    ),
                )
            }),
    {
        let ghost a = self@.state.v[operands.src1.spec_index()].bits;
        let ghost b = self@.state.v[operands.src2.spec_index()].bits;
        let al = self.v(operands.src1).get_u16x8();
        let bl = self.v(operands.src2).get_u16x8();
        let mut c = [0u16;8];
        let mut i: usize = 0;
        while i < 8
            invariant
                i <= 8,
                forall|j: int| 0 <= j < 8 ==> #[trigger] al@[j] == spec_lane16(a, j),
                forall|j: int| 0 <= j < 8 ==> #[trigger] bl@[j] == spec_lane16(b, j),
                forall|j: int|
                    0 <= j < i ==> #[trigger] c@[j] == ({
                        let x = spec_lane16(a, j);
                        let y = spec_lane16(b, j);
                        if (x as i16) < (y as i16) { x } else { y }
                    }),
            decreases 8 - i,
        {
            let x = al[i];
            let y = bl[i];
            c[i] = if signed16(x) < signed16(y) { x } else { y };
            i += 1;
        }
        proof {
            assert(c@ =~= Seq::new(
                8,
                |i: int|
                    {
                        let x = spec_lane16(a, i);
                        let y = spec_lane16(b, i);
                        if (x as i16) < (y as i16) { x } else { y }
                    },
            ));
        }
        self.set_v_u16x8(operands.dst, c);
        ControlFlow::Continue(())
    }

    /// The lesser of the unsigned numbers, lane by lane, in 8 lanes of 16
    /// bits.
    pub fn vmin16x8_u(&mut self, operands: BinaryOperands<VReg>) -> (r: ControlFlow<Done>)
        ensures
            r is Continue,
            ({
                let a = old(self)@.state.v[operands.src1.spec_index()].bits;
                let b = old(self)@.state.v[operands.src2.spec_index()].bits;
                final(self)@ == old(self)@.set_v128(
                    operands.dst.spec_index(),
                    spec_from_lanes16(
                        Seq::new(
                            8,
                            |i: int|
                                {
                                    let x = spec_lane16(a, i);
                                    let y = spec_lane16(b, i);
                                    if x < y { x } else { y }
                                },
                        ),
                        8,
                    ),
                )
            }),
    {
        let ghost a = self@.state.v[operands.src1.spec_index()].bits;
        let ghost b = self@.state.v[operands.src2.spec_index()].bits;
        let al = self.v(operands.src1).get_u16x8();
        let bl = self.v(operands.src2).get_u16x8();
        let mut c = [0u16;8];
        let mut i: usize = 0;
        while i < 8
            invariant
                i <= 8,
                forall|j: int| 0 <= j < 8 ==> #[trigger] al@[j] == spec_lane16(a, j),
                forall|j: int| 0 <= j < 8 ==> #[trigger] bl@[j] == spec_lane16(b, j),
                forall|j: int|
                    0 <= j < i ==> #[trigger] c@[j] == ({
                        let x = spec_lane16(a, j);
                        let y = spec_lane16(b, j);
                        if x < y { x } else { y }
                    }),
            decreases 8 - i,
        {
            let x = al[i];
            let y = bl[i];
            c[i] = if x < y { x } else { y };
            i += 1;
        }
        proof {
            assert(c@ =~= Seq::new(
                8,
                |i: int|
                    {
                        let x = spec_lane16(a, i);
                        let y = spec_lane16(b, i);
                        if x < y { x } else { y }
                    },
            ));
        }
        self.set_v_u16x8(operands.dst, c);
        ControlFlow::Continue(())
    }

    /// The greater of the signed numbers, lane by lane, in 8 lanes of 16
    /// bits.
    pub fn vmax16x8_s(&mut self, operands: BinaryOperands<VReg>) -> (r: ControlFlow<Done>)
        ensures
            r is Continue,
            ({
                let a = old(self)@.state.v[operands.src1.spec_index()].bits;
                let b = old(self)@.state.v[operands.src2.spec_index()].bits;
                final(self)@ == old(self)@.set_v128(
                    operands.dst.spec_index(),
                    spec_from_lanes16(
                        Seq::new(
                            8,
                            |i: int|
                                {
                                    let x = spec_lane16(a, i);
                                    let y = spec_lane16(b, i);
                                    if (x as i16) > (y as i16) { x } else { y }
                                },
                        ),
                        8,
                    ),
                )
            }),
    {
        let ghost a = self@.state.v[operands.src1.spec_index()].bits;
        let ghost b = self@.state.v[operands.src2.spec_index()].bits;
        let al = self.v(operands.src1).get_u16x8();
        let bl = self.v(operands.src2).get_u16x8();
        let mut c = [0u16;8];
        let mut i: usize = 0;
        while i < 8
            invariant
                i <= 8,
                forall|j: int| 0 <= j < 8 ==> #[trigger] al@[j] == spec_lane16(a, j),
                forall|j: int| 0 <= j < 8 ==> #[trigger] bl@[j] == spec_lane16(b, j),
                forall|j: int|
                    0 <= j < i ==> #[trigger] c@[j] == ({
                        let x = spec_lane16(a, j);
                        let y = spec_lane16(b, j);
                        if (x as i16) > (y as i16) { x } else { y }
                    }),
            decreases 8 - i,
        {
            let x = al[i];
            let y = bl[i];
            c[i] = if signed16(x) > signed16(y) { x } else { y };
            i += 1;
        }
        proof {
            assert(c@ =~= Seq::new(
                8,
                |i: int|
                    {
                        let x = spec_lane16(a, i);
                        let y = spec_lane16(b, i);
                        if (x as i16) > (y as i16) { x } else { y }
                    },
            ));
        }
        self.set_v_u16x8(operands.dst, c);
        ControlFlow::Continue(())
    }

    /// The greater of the unsigned numbers, lane by lane, in 8 lanes of
    /// 16 bits.
    pub fn vmax16x8_u(&mut self, operands: BinaryOperands<VReg>) -> (r: ControlFlow<Done>)
        ensures
            r is Continue,
            ({
                let a = old(self)@.state.v[operands.src1.spec_index()].bits;
                let b = old(self)@.state.v[operands.src2.spec_index()].bits;
                final(self)@ == old(self)@.set_v128(
                    operands.dst.spec_index(),
                    spec_from_lanes16(
                        Seq::new(
                            8,
                            |i: int|
                                {
                                    let x = spec_lane16(a, i);
                                    let y = spec_lane16(b, i);
                                    if x > y { x } else { y }
                                },
                        ),
                        8,
                    ),
                )
            }),
    {
        let ghost a = self@.state.v[operands.src1.spec_index()].bits;
        let ghost b = self@.state.v[operands.src2.spec_index()].bits;
        let al = self.v(operands.src1).get_u16x8();
        let bl = self.v(operands.src2).get_u16x8();
        let mut c = [0u16;8];
        let mut i: usize = 0;
        while i < 8
            invariant
                i <= 8,
                forall|j: int| 0 <= j < 8 ==> #[trigger] al@[j] == spec_lane16(a, j),
                forall|j: int| 0 <= j < 8 ==> #[trigger] bl@[j] == spec_lane16(b, j),
                forall|j: int|
                    0 <= j < i ==> #[trigger] c@[j] == ({
                        let x = spec_lane16(a, j);
                        let y = spec_lane16(b, j);
                        if x > y { x } else { y }
                    }),
            decreases 8 - i,
        {
            let x = al[i];
            let y = bl[i];
            c[i] = if x > y { x } else { y };
            i += 1;
        }
        proof {
            assert(c@ =~= Seq::new(
                8,
                |i: int|
                    {
                        let x = spec_lane16(a, i);
                        let y = spec_lane16(b, i);
                        if x > y { x } else { y }
                    },
            ));
        }
        self.set_v_u16x8(operands.dst, c);
        ControlFlow::Continue(())
    }

    /// The lesser of the signed numbers, lane by lane, in 4 lanes of 32
    /// bits.
    pub fn vmin32x4_s(&mut self, operands: BinaryOperands<VReg>) -> (r: ControlFlow<Done>)
        ensures
            r is Continue,
            ({
                let a = old(self)@.state.v[operands.src1.spec_index()].bits;
                let b = old(self)@.state.v[operands.src2.spec_index()].bits;
                final(self)@ == old(self)@.set_v128(
                    operands.dst.spec_index(),
                    spec_from_lanes32(
                        Seq::new(
                            4,
                            |i: int|
                                {
                                    let x = spec_lane32(a, i);
                                    let y = spec_lane32(b, i);
                                    if (x as i32) < (y as i32) { x } else { y }
                                },
                        ),
                        4,
                    ),
                )
            }),
    {
        let ghost a = self@.state.v[operands.src1.spec_index()].bits;
        let ghost b = self@.state.v[operands.src2.spec_index()].bits;
        let al = self.v(operands.src1).get_u32x4();
        let bl = self.v(operands.src2).get_u32x4();
        let mut c = [0u32;4];
        let mut i: usize = 0;
        while i < 4
            invariant
                i <= 4,
                forall|j: int| 0 <= j < 4 ==> #[trigger] al@[j] == spec_lane32(a, j),
                forall|j: int| 0 <= j < 4 ==> #[trigger] bl@[j] == spec_lane32(b, j),
                forall|j: int|
                    0 <= j < i ==> #[trigger] c@[j] == ({
                        let x = spec_lane32(a, j);
                        let y = spec_lane32(b, j);
                        if (x as i32) < (y as i32) { x } else { y }
                    }),
            decreases 4 - i,
        {
            let x = al[i];
            let y = bl[i];
            c[i] = if signed32(x) < signed32(y) { x } else { y };
            i += 1;
        }
        proof {
            assert(c@ =~= Seq::new(
                4,
                |i: int|
                    {
                        let x = spec_lane32(a, i);
                        let y = spec_lane32(b, i);
                        if (x as i32) < (y as i32) { x } else { y }
                    },
            ));
        }
        self.set_v_u32x4(operands.dst, c);
        ControlFlow::Continue(())
    }

    /// The lesser of the unsigned numbers, lane by lane, in 4 lanes of 32
    /// bits.
    pub fn vmin32x4_u(&mut self, operands: BinaryOperands<VReg>) -> (r: ControlFlow<Done>)
        ensures
            r is Continue,
            ({
                let a = old(self)@.state.v[operands.src1.spec_index()].bits;
                let b = old(self)@.state.v[operands.src2.spec_index()].bits;
                final(self)@ == old(self)@.set_v128(
                    operands.dst.spec_index(),
                    spec_from_lanes32(
                        Seq::new(
                            4,
                            |i: int|
                                {
                                    let x = spec_lane32(a, i);
                                    let y = spec_lane32(b, i);
                                    if x < y { x } else { y }
                                },
                        ),
                        4,
                    ),
                )
            }),
    {
        let ghost a = self@.state.v[operands.src1.spec_index()].bits;
        let ghost b = self@.state.v[operands.src2.spec_index()].bits;
        let al = self.v(operands.src1).get_u32x4();
        let bl = self.v(operands.src2).get_u32x4();
        let mut c = [0u32;4];
        let mut i: usize = 0;
        while i < 4
            invariant
                i <= 4,
                forall|j: int| 0 <= j < 4 ==> #[trigger] al@[j] == spec_lane32(a, j),
                forall|j: int| 0 <= j < 4 ==> #[trigger] bl@[j] == spec_lane32(b, j),
                forall|j: int|
                    0 <= j < i ==> #[trigger] c@[j] == ({
                        let x = spec_lane32(a, j);
                        let y = spec_lane32(b, j);
                        if x < y { x } else { y }
                    }),
            decreases 4 - i,
        {
            let x = al[i];
            let y = bl[i];
            c[i] = if x < y { x } else { y };
            i += 1;
        }
        proof {
            assert(c@ =~= Seq::new(
                4,
                |i: int|
                    {
                        let x = spec_lane32(a, i);
                        let y = spec_lane32(b, i);
                        if x < y { x } else { y }
                    },
            ));
        }
        self.set_v_u32x4(operands.dst, c);
        ControlFlow::Continue(())
    }

    /// The greater of the signed numbers, lane by lane, in 4 lanes of 32
    /// bits.
    pub fn vmax32x4_s(&mut self, operands: BinaryOperands<VReg>) -> (r: ControlFlow<Done>)
        ensures
            r is Continue,
            ({
                let a = old(self)@.state.v[operands.src1.spec_index()].bits;
                let b = old(self)@.state.v[operands.src2.spec_index()].bits;
                final(self)@ == old(self)@.set_v128(
                    operands.dst.spec_index(),
                    spec_from_lanes32(
                        Seq::new(
                            4,
                            |i: int|
                                {
                                    let x = spec_lane32(a, i);
                                    let y = spec_lane32(b, i);
                                    if (x as i32) > (y as i32) { x } else { y }
                                },
                        ),
                        4,
                    ),
                )
            }),
    {
        let ghost a = self@.state.v[operands.src1.spec_index()].bits;
        let ghost b = self@.state.v[operands.src2.spec_index()].bits;
        let al = self.v(operands.src1).get_u32x4();
        let bl = self.v(operands.src2).get_u32x4();
        let mut c = [0u32;4];
        let mut i: usize = 0;
        while i < 4
            invariant
                i <= 4,
                forall|j: int| 0 <= j < 4 ==> #[trigger] al@[j] == spec_lane32(a, j),
                forall|j: int| 0 <= j < 4 ==> #[trigger] bl@[j] == spec_lane32(b, j),
                forall|j: int|
                    0 <= j < i ==> #[trigger] c@[j] == ({
                        let x = spec_lane32(a, j);
                        let y = spec_lane32(b, j);
                        if (x as i32) > (y as i32) { x } else { y }
                    }),
            decreases 4 - i,
        {
            let x = al[i];
            let y = bl[i];
            c[i] = if signed32(x) > signed32(y) { x } else { y };
            i += 1;
        }
        proof {
            assert(c@ =~= Seq::new(
                4,
                |i: int|
                    {
                        let x = spec_lane32(a, i);
                        let y = spec_lane32(b, i);
                        if (x as i32) > (y as i32) { x } else { y }
                    },
            ));
        }
        self.set_v_u32x4(operands.dst, c);
        ControlFlow::Continue(())
    }

    /// The greater of the unsigned numbers, lane by lane, in 4 lanes of
    /// 32 bits.
    pub fn vmax32x4_u(&mut self, operands: BinaryOperands<VReg>) -> (r: ControlFlow<Done>)
        ensures
            r is Continue,
            ({
                let a = old(self)@.state.v[operands.src1.spec_index()].bits;
                let b = old(self)@.state.v[operands.src2.spec_index()].bits;
                final(self)@ == old(self)@.set_v128(
                    operands.dst.spec_index(),
                    spec_from_lanes32(
                        Seq::new(
                            4,
                            |i: int|
                                {
                                    let x = spec_lane32(a, i);
                                    let y = spec_lane32(b, i);
                                    if x > y { x } else { y }
                                },
                        ),
                        4,
                    ),
                )
            }),
    {
        let ghost a = self@.state.v[operands.src1.spec_index()].bits;
        let ghost b = self@.state.v[operands.src2.spec_index()].bits;
        let al = self.v(operands.src1).get_u32x4();
        let bl = self.v(operands.src2).get_u32x4();
        let mut c = [0u32;4];
        let mut i: usize = 0;
        while i < 4
            invariant
                i <= 4,
                forall|j: int| 0 <= j < 4 ==> #[trigger] al@[j] == spec_lane32(a, j),
                forall|j: int| 0 <= j < 4 ==> #[trigger] bl@[j] == spec_lane32(b, j),
                forall|j: int|
                    0 <= j < i ==> #[trigger] c@[j] == ({
                        let x = spec_lane32(a, j);
                        let y = spec_lane32(b, j);
                        if x > y { x } else { y }
                    }),
            decreases 4 - i,
        {
            let x = al[i];
            let y = bl[i];
            c[i] = if x > y { x } else { y };
            i += 1;
        }
        proof {
            assert(c@ =~= Seq::new(
                4,
                |i: int|
                    {
                        let x = spec_lane32(a, i);
                        let y = spec_lane32(b, i);
                        if x > y { x } else { y }
                    },
            ));
        }
        self.set_v_u32x4(operands.dst, c);
        ControlFlow::Continue(())
    }

    /// The average of the unsigned numbers, lane by lane, in 16 lanes of
    /// 8 bits, rounded up.
    pub fn vavground8x16(&mut self, operands: BinaryOperands<VReg>) -> (r: ControlFlow<Done>)
        ensures
            r is Continue,
            ({
                let a = old(self)@.state.v[operands.src1.spec_index()].bits;
                let b = old(self)@.state.v[operands.src2.spec_index()].bits;
                final(self)@ == old(self)@.set_v128(
                    operands.dst.spec_index(),
                    spec_from_lanes8(
                        Seq::new(
                            16,
                            |i: int|
                                {
                                    let x = spec_lane8(a, i);
                                    let y = spec_lane8(b, i);
                                    ((x + y + 1) / 2) as u8
                                },
                        ),
                        16,
                    ),
                )
            }),
    {
        let ghost a = self@.state.v[operands.src1.spec_index()].bits;
        let ghost b = self@.state.v[operands.src2.spec_index()].bits;
        let al = self.v(operands.src1).get_u8x16();
        let bl = self.v(operands.src2).get_u8x16();
        let mut c = [0u8;16];
        let mut i: usize = 0;
        while i < 16
            invariant
                i <= 16,
                forall|j: int| 0 <= j < 16 ==> #[trigger] al@[j] == spec_lane8(a, j),
                forall|j: int| 0 <= j < 16 ==> #[trigger] bl@[j] == spec_lane8(b, j),
                forall|j: int|
                    0 <= j < i ==> #[trigger] c@[j] == ({
                        let x = spec_lane8(a, j);
                        let y = spec_lane8(b, j);
                        ((x + y + 1) / 2) as u8
                    }),
            decreases 16 - i,
        {
            let x = al[i];
            let y = bl[i];
            c[i] = ((x as u32 + y as u32 + 1) / 2) as u8;
            i += 1;
        }
        proof {
            assert(c@ =~= Seq::new(
                16,
                |i: int|
                    {
                        let x = spec_lane8(a, i);
                        let y = spec_lane8(b, i);
                        ((x + y + 1) / 2) as u8
                    },
            ));
        }
        self.set_v_u8x16(operands.dst, c);
        ControlFlow::Continue(())
    }

    /// The average of the unsigned numbers, lane by lane, in 8 lanes of
    /// 16 bits, rounded up.
    pub fn vavground16x8(&mut self, operands: BinaryOperands<VReg>) -> (r: ControlFlow<Done>)
        ensures
            r is Continue,
            ({
                let a = old(self)@.state.v[operands.src1.spec_index()].bits;
                let b = old(self)@.state.v[operands.src2.spec_index()].bits;
                final(self)@ == old(self)@.set_v128(
                    operands.dst.spec_index(),
                    spec_from_lanes16(
                        Seq::new(
                            8,
                            |i: int|
                                {
                                    let x = spec_lane16(a, i);
                                    let y = spec_lane16(b, i);
                                    ((x + y + 1) / 2) as u16
                                },
                        ),
                        8,
                    ),
                )
            }),
    {
        let ghost a = self@.state.v[operands.src1.spec_index()].bits;
        let ghost b = self@.state.v[operands.src2.spec_index()].bits;
        let al = self.v(operands.src1).get_u16x8();
        let bl = self.v(operands.src2).get_u16x8();
        let mut c = [0u16;8];
        let mut i: usize = 0;
        while i < 8
            invariant
                i <= 8,
                forall|j: int| 0 <= j < 8 ==> #[trigger] al@[j] == spec_lane16(a, j),
                forall|j: int| 0 <= j < 8 ==> #[trigger] bl@[j] == spec_lane16(b, j),
                forall|j: int|
                    0 <= j < i ==> #[trigger] c@[j] == ({
                        let x = spec_lane16(a, j);
                        let y = spec_lane16(b, j);
                        ((x + y + 1) / 2) as u16
                    }),
            decreases 8 - i,
        {
            let x = al[i];
            let y = bl[i];
            c[i] = ((x as u32 + y as u32 + 1) / 2) as u16;
            i += 1;
        }
        proof {
            assert(c@ =~= Seq::new(
                8,
                |i: int|
                    {
                        let x = spec_lane16(a, i);
                        let y = spec_lane16(b, i);
                        ((x + y + 1) / 2) as u16
                    },
            ));
        }
        self.set_v_u16x8(operands.dst, c);
        ControlFlow::Continue(())
    }

    /// Counts the one bits of each of 16 lanes of 8 bits.
    pub fn vpopcnt8x16(&mut self, dst: VReg, src: VReg) -> (r: ControlFlow<Done>)
        ensures
            r is Continue,
            ({
                let a = old(self)@.state.v[src.spec_index()].bits;
                final(self)@ == old(self)@.set_v128(
                    dst.spec_index(),
                    spec_from_lanes8(
                        Seq::new(
                            16,
                            |i: int|
                                {
                                    let x = spec_lane8(a, i);
                                    spec_count_ones(x as u64) as u8
                                },
                        ),
                        16,
                    ),
                )
            }),
    {
        let ghost a = self@.state.v[src.spec_index()].bits;
        let al = self.v(src).get_u8x16();
        let mut c = [0u8;16];
        let mut i: usize = 0;
        while i < 16
            invariant
                i <= 16,
                forall|j: int| 0 <= j < 16 ==> #[trigger] al@[j] == spec_lane8(a, j),
                forall|j: int|
                    0 <= j < i ==> #[trigger] c@[j] == ({
                        let x = spec_lane8(a, j);
                        spec_count_ones(x as u64) as u8
                    }),
            decreases 16 - i,
        {
            let x = al[i];
            c[i] = count_ones32(x as u32) as u8;
            i += 1;
        }
        proof {
            assert(c@ =~= Seq::new(
                16,
                |i: int|
                    {
                        let x = spec_lane8(a, i);
                        spec_count_ones(x as u64) as u8
                    },
            ));
        }
        self.set_v_u8x16(dst, c);
        ControlFlow::Continue(())
    }

    /// Multiplies signed fixed-point numbers with 15 bits of fraction
    /// lane by lane, in 8 lanes of 16 bits, rounding to nearest and
    /// keeping within the bounds of the lane.
    pub fn vqmulrsi16x8(&mut self, operands: BinaryOperands<VReg>) -> (r: ControlFlow<Done>)
        ensures
            r is Continue,
            ({
                let a = old(self)@.state.v[operands.src1.spec_index()].bits;
                let b = old(self)@.state.v[operands.src2.spec_index()].bits;
                final(self)@ == old(self)@.set_v128(
                    operands.dst.spec_index(),
                    spec_from_lanes16(
                        Seq::new(
                            8,
                            |i: int|
                                {
                                    let x = spec_lane16(a, i);
                                    let y = spec_lane16(b, i);
                                    spec_qmulr((x as i16), (y as i16)) as u16
                                },
                        ),
                        8,
                    ),
                )
            }),
    {
        let ghost a = self@.state.v[operands.src1.spec_index()].bits;
        let ghost b = self@.state.v[operands.src2.spec_index()].bits;
        let al = self.v(operands.src1).get_u16x8();
        let bl = self.v(operands.src2).get_u16x8();
        let mut c = [0u16;8];
        let mut i: usize = 0;
        while i < 8
            invariant
                i <= 8,
                forall|j: int| 0 <= j < 8 ==> #[trigger] al@[j] == spec_lane16(a, j),
                forall|j: int| 0 <= j < 8 ==> #[trigger] bl@[j] == spec_lane16(b, j),
                forall|j: int|
                    0 <= j < i ==> #[trigger] c@[j] == ({
                        let x = spec_lane16(a, j);
                        let y = spec_lane16(b, j);
                        spec_qmulr((x as i16), (y as i16)) as u16
                    }),
            decreases 8 - i,
        {
            let x = al[i];
            let y = bl[i];
            c[i] = bits16(qmulr(signed16(x), signed16(y)));
            i += 1;
        }
        proof {
            assert(c@ =~= Seq::new(
                8,
                |i: int|
                    {
                        let x = spec_lane16(a, i);
                        let y = spec_lane16(b, i);
                        spec_qmulr((x as i16), (y as i16)) as u16
                    },
            ));
        }
        self.set_v_u16x8(operands.dst, c);
        ControlFlow::Continue(())
    }

    /// Negates each of 4 single-precision numbers: the sign bit of each
    /// changes, and no other.
    pub fn vnegf32x4(&mut self, dst: VReg, src: VReg) -> (r: ControlFlow<Done>)
        ensures
            r is Continue,
            ({
                let a = old(self)@.state.v[src.spec_index()].bits;
                final(self)@ == old(self)@.set_v128(
                    dst.spec_index(),
                    spec_from_lanes32(
                        Seq::new(
                            4,
                            |i: int|
                                {
                                    let x = spec_lane32(a, i);
                                    x ^ 0x8000_0000u32
                                },
                        ),
                        4,
                    ),
                )
            }),
    {
        let ghost a = self@.state.v[src.spec_index()].bits;
        let al = self.v(src).get_u32x4();
        let mut c = [0u32;4];
        let mut i: usize = 0;
        while i < 4
            invariant
                i <= 4,
                forall|j: int| 0 <= j < 4 ==> #[trigger] al@[j] == spec_lane32(a, j),
                forall|j: int|
                    0 <= j < i ==> #[trigger] c@[j] == ({
                        let x = spec_lane32(a, j);
                        x ^ 0x8000_0000u32
                    }),
            decreases 4 - i,
        {
            let x = al[i];
            c[i] = x ^ 0x8000_0000u32;
            i += 1;
        }
        proof {
            assert(c@ =~= Seq::new(
                4,
                |i: int|
                    {
                        let x = spec_lane32(a, i);
                        x ^ 0x8000_0000u32
                    },
            ));
        }
        self.set_v_u32x4(dst, c);
        ControlFlow::Continue(())
    }

    /// Negates each of 2 double-precision numbers: the sign bit of each
    /// changes, and no other.
    pub fn vnegf64x2(&mut self, dst: VReg, src: VReg) -> (r: ControlFlow<Done>)
        ensures
            r is Continue,
            ({
                let a = old(self)@.state.v[src.spec_index()].bits;
                final(self)@ == old(self)@.set_v128(
                    dst.spec_index(),
                    spec_from_lanes64(
                        Seq::new(
                            2,
                            |i: int|
                                {
                                    let x = spec_lane64(a, i);
                                    x ^ 0x8000_0000_0000_0000u64
                                },
                        ),
                        2,
                    ),
                )
            }),
    {
        let ghost a = self@.state.v[src.spec_index()].bits;
        let al = self.v(src).get_u64x2();
        let mut c = [0u64;2];
        let mut i: usize = 0;
        while i < 2
            invariant
                i <= 2,
                forall|j: int| 0 <= j < 2 ==> #[trigger] al@[j] == spec_lane64(a, j),
                forall|j: int|
                    0 <= j < i ==> #[trigger] c@[j] == ({
                        let x = spec_lane64(a, j);
                        x ^ 0x8000_0000_0000_0000u64
                    }),
            decreases 2 - i,
        {
            let x = al[i];
            c[i] = x ^ 0x8000_0000_0000_0000u64;
            i += 1;
        }
        proof {
            assert(c@ =~= Seq::new(
                2,
                |i: int|
                    {
                        let x = spec_lane64(a, i);
                        x ^ 0x8000_0000_0000_0000u64
                    },
            ));
        }
        self.set_v_u64x2(dst, c);
        ControlFlow::Continue(())
    }

    /// The absolute value of each of 4 single-precision numbers: the sign
    /// bit of each is cleared, and no other bit changes.
    pub fn vabsf32x4(&mut self, dst: VReg, src: VReg) -> (r: ControlFlow<Done>)
        ensures
            r is Continue,
            ({
                let a = old(self)@.state.v[src.spec_index()].bits;
                final(self)@ == old(self)@.set_v128(
                    dst.spec_index(),
                    spec_from_lanes32(
                        Seq::new(
                            4,
                            |i: int|
                                {
                                    let x = spec_lane32(a, i);
                                    x & 0x7fff_ffffu32
                                },
                        ),
                        4,
                    ),
                )
            }),
    {
        let ghost a = self@.state.v[src.spec_index()].bits;
        let al = self.v(src).get_u32x4();
        let mut c = [0u32;4];
        let mut i: usize = 0;
        while i < 4
            invariant
                i <= 4,
                forall|j: int| 0 <= j < 4 ==> #[trigger] al@[j] == spec_lane32(a, j),
                forall|j: int|
                    0 <= j < i ==> #[trigger] c@[j] == ({
                        let x = spec_lane32(a, j);
                        x & 0x7fff_ffffu32
                    }),
            decreases 4 - i,
        {
            let x = al[i];
            c[i] = x & 0x7fff_ffffu32;
            i += 1;
        }
        proof {
            assert(c@ =~= Seq::new(
                4,
                |i: int|
                    {
                        let x = spec_lane32(a, i);
                        x & 0x7fff_ffffu32
                    },
            ));
        }
        self.set_v_u32x4(dst, c);
        ControlFlow::Continue(())
    }

    /// The absolute value of each of 2 double-precision numbers: the sign
    /// bit of each is cleared, and no other bit changes.
    pub fn vabsf64x2(&mut self, dst: VReg, src: VReg) -> (r: ControlFlow<Done>)
        ensures
            r is Continue,
            ({
                let a = old(self)@.state.v[src.spec_index()].bits;
                final(self)@ == old(self)@.set_v128(
                    dst.spec_index(),
                    spec_from_lanes64(
                        Seq::new(
                            2,
                            |i: int|
                                {
                                    let x = spec_lane64(a, i);
                                    x & 0x7fff_ffff_ffff_ffffu64
                                },
                        ),
                        2,
                    ),
                )
            }),
    {
        let ghost a = self@.state.v[src.spec_index()].bits;
        let al = self.v(src).get_u64x2();
        let mut c = [0u64;2];
        let mut i: usize = 0;
        while i < 2
            invariant
                i <= 2,
                forall|j: int| 0 <= j < 2 ==> #[trigger] al@[j] == spec_lane64(a, j),
                forall|j: int|
                    0 <= j < i ==> #[trigger] c@[j] == ({
                        let x = spec_lane64(a, j);
                        x & 0x7fff_ffff_ffff_ffffu64
                    }),
            decreases 2 - i,
        {
            let x = al[i];
            c[i] = x & 0x7fff_ffff_ffff_ffffu64;
            i += 1;
        }
        proof {
            assert(c@ =~= Seq::new(
                2,
                |i: int|
                    {
                        let x = spec_lane64(a, i);
                        x & 0x7fff_ffff_ffff_ffffu64
                    },
            ));
        }
        self.set_v_u64x2(dst, c);
        ControlFlow::Continue(())
    }

    /// Converts each of 4 single-precision numbers to a signed integer of
    /// 32 bits, cutting off towards zero and saturating: what is not a
    /// number gives zero, and a number beyond a bound of the integer type
    /// gives that bound.
    pub fn vi32x4_from_f32x4_s(&mut self, dst: VReg, src: VReg) -> (r: ControlFlow<Done>)
        ensures
            r is Continue,
            ({
                let a = old(self)@.state.v[src.spec_index()].bits;
                final(self)@ == old(self)@.set_v128(
                    dst.spec_index(),
                    spec_from_lanes32(
                        Seq::new(
                            4,
                            |i: int|
                                {
                                    let x = spec_lane32(a, i);
                                    spec_saturated(spec_trunc_f32(x), true, 32) as u32
                                },
                        ),
                        4,
                    ),
                )
            }),
    {
        let ghost a = self@.state.v[src.spec_index()].bits;
        let al = self.v(src).get_u32x4();
        let mut c = [0u32;4];
        let mut i: usize = 0;
        while i < 4
            invariant
                i <= 4,
                forall|j: int| 0 <= j < 4 ==> #[trigger] al@[j] == spec_lane32(a, j),
                forall|j: int|
                    0 <= j < i ==> #[trigger] c@[j] == ({
                        let x = spec_lane32(a, j);
                        spec_saturated(spec_trunc_f32(x), true, 32) as u32
                    }),
            decreases 4 - i,
        {
            let x = al[i];
            c[i] = #[verifier::truncate]
            (saturated(trunc_f32(x), true, false) as u32);
            i += 1;
        }
        proof {
            assert(c@ =~= Seq::new(
                4,
                |i: int|
                    {
                        let x = spec_lane32(a, i);
                        spec_saturated(spec_trunc_f32(x), true, 32) as u32
                    },
            ));
        }
        self.set_v_u32x4(dst, c);
        ControlFlow::Continue(())
    }

    /// Converts each of 4 single-precision numbers to a unsigned integer
    /// of 32 bits, cutting off towards zero and saturating: what is not a
    /// number gives zero, and a number beyond a bound of the integer type
    /// gives that bound.
    pub fn vi32x4_from_f32x4_u(&mut self, dst: VReg, src: VReg) -> (r: ControlFlow<Done>)
        ensures
            r is Continue,
            ({
                let a = old(self)@.state.v[src.spec_index()].bits;
                final(self)@ == old(self)@.set_v128(
                    dst.spec_index(),
                    spec_from_lanes32(
                        Seq::new(
                            4,
                            |i: int|
                                {
                                    let x = spec_lane32(a, i);
                                    spec_saturated(spec_trunc_f32(x), false, 32) as u32
                                },
                        ),
                        4,
                    ),
                )
            }),
    {
        let ghost a = self@.state.v[src.spec_index()].bits;
        let al = self.v(src).get_u32x4();
        let mut c = [0u32;4];
        let mut i: usize = 0;
        while i < 4
            invariant
                i <= 4,
                forall|j: int| 0 <= j < 4 ==> #[trigger] al@[j] == spec_lane32(a, j),
                forall|j: int|
                    0 <= j < i ==> #[trigger] c@[j] == ({
                        let x = spec_lane32(a, j);
                        spec_saturated(spec_trunc_f32(x), false, 32) as u32
                    }),
            decreases 4 - i,
        {
            let x = al[i];
            c[i] = #[verifier::truncate]
            (saturated(trunc_f32(x), false, false) as u32);
            i += 1;
        }
        proof {
            assert(c@ =~= Seq::new(
                4,
                |i: int|
                    {
                        let x = spec_lane32(a, i);
                        spec_saturated(spec_trunc_f32(x), false, 32) as u32
                    },
            ));
        }
        self.set_v_u32x4(dst, c);
        ControlFlow::Continue(())
    }

    /// Converts each of 2 double-precision numbers to a signed integer of
    /// 64 bits, cutting off towards zero and saturating: what is not a
    /// number gives zero, and a number beyond a bound of the integer type
    /// gives that bound.
    pub fn vi64x2_from_f64x2_s(&mut self, dst: VReg, src: VReg) -> (r: ControlFlow<Done>)
        ensures
            r is Continue,
            ({
                let a = old(self)@.state.v[src.spec_index()].bits;
                final(self)@ == old(self)@.set_v128(
                    dst.spec_index(),
                    spec_from_lanes64(
                        Seq::new(
                            2,
                            |i: int|
                                {
                                    let x = spec_lane64(a, i);
                                    spec_saturated(spec_trunc_f64(x), true, 64)
                                },
                        ),
                        2,
                    ),
                )
            }),
    {
        let ghost a = self@.state.v[src.spec_index()].bits;
        let al = self.v(src).get_u64x2();
        let mut c = [0u64;2];
        let mut i: usize = 0;
        while i < 2
            invariant
                i <= 2,
                forall|j: int| 0 <= j < 2 ==> #[trigger] al@[j] == spec_lane64(a, j),
                forall|j: int|
                    0 <= j < i ==> #[trigger] c@[j] == ({
                        let x = spec_lane64(a, j);
                        spec_saturated(spec_trunc_f64(x), true, 64)
                    }),
            decreases 2 - i,
        {
            let x = al[i];
            c[i] = saturated(trunc_f64(x), true, true);
            i += 1;
        }
        proof {
            assert(c@ =~= Seq::new(
                2,
                |i: int|
                    {
                        let x = spec_lane64(a, i);
                        spec_saturated(spec_trunc_f64(x), true, 64)
                    },
            ));
        }
        self.set_v_u64x2(dst, c);
        ControlFlow::Continue(())
    }

    /// Converts each of 2 double-precision numbers to a unsigned integer
    /// of 64 bits, cutting off towards zero and saturating: what is not a
    /// number gives zero, and a number beyond a bound of the integer type
    /// gives that bound.
    pub fn vi64x2_from_f64x2_u(&mut self, dst: VReg, src: VReg) -> (r: ControlFlow<Done>)
        ensures
            r is Continue,
            ({
                let a = old(self)@.state.v[src.spec_index()].bits;
                final(self)@ == old(self)@.set_v128(
                    dst.spec_index(),
                    spec_from_lanes64(
                        Seq::new(
                            2,
                            |i: int|
                                {
                                    let x = spec_lane64(a, i);
                                    spec_saturated(spec_trunc_f64(x), false, 64)
                                },
                        ),
                        2,
                    ),
                )
            }),
    {
        let ghost a = self@.state.v[src.spec_index()].bits;
        let al = self.v(src).get_u64x2();
        let mut c = [0u64;2];
        let mut i: usize = 0;
        while i < 2
            invariant
                i <= 2,
                forall|j: int| 0 <= j < 2 ==> #[trigger] al@[j] == spec_lane64(a, j),
                forall|j: int|
                    0 <= j < i ==> #[trigger] c@[j] == ({
                        let x = spec_lane64(a, j);
                        spec_saturated(spec_trunc_f64(x), false, 64)
                    }),
            decreases 2 - i,
        {
            let x = al[i];
            c[i] = saturated(trunc_f64(x), false, true);
            i += 1;
        }
        proof {
            assert(c@ =~= Seq::new(
                2,
                |i: int|
                    {
                        let x = spec_lane64(a, i);
                        spec_saturated(spec_trunc_f64(x), false, 64)
                    },
            ));
        }
        self.set_v_u64x2(dst, c);
        ControlFlow::Continue(())
    }
}

} // verus!
