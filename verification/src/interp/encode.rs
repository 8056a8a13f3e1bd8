//! The encoded width of each instruction.
//!
//! A handler runs when the decoder has read its instruction, so the
//! program counter stands behind the instruction. The width leads back
//! to its start, from which jumps are measured and at which traps are
//! reported.
//!
//! An instruction is its opcode, one byte, or three for the instructions
//! of the extended set, and then its operands: a register takes one
//! byte, three registers together two, a set of upper registers two, an
//! immediate its size, a jump offset four, an address of a register and
//! an offset five, and a guarded address four.

use vstd::prelude::*;

verus! {

/// An instruction with a fixed encoded width.
pub trait Encode {
    /// The number of bytes of the encoded instruction.
    spec fn spec_width() -> u8;

    fn width() -> (w: u8)
        ensures
            w == Self::spec_width(),
    ;
}

/// An instruction that takes `WIDTH` bytes.
pub struct Op<const WIDTH: u8>;

impl<const WIDTH: u8> Encode for Op<WIDTH> {
    open spec fn spec_width() -> u8 {
        WIDTH
    }

    fn width() -> (w: u8) {
        WIDTH
    }
}

pub type BrIf = Op<6>;

pub type BrIfNot = Op<6>;

pub type BrIfXeq32 = Op<7>;

pub type BrIfXeq32I32 = Op<10>;

pub type BrIfXeq32I8 = Op<7>;

pub type BrIfXeq64 = Op<7>;

pub type BrIfXeq64I32 = Op<10>;

pub type BrIfXeq64I8 = Op<7>;

pub type BrIfXneq32 = Op<7>;

pub type BrIfXneq32I32 = Op<10>;

pub type BrIfXneq32I8 = Op<7>;

pub type BrIfXneq64 = Op<7>;

pub type BrIfXneq64I32 = Op<10>;

pub type BrIfXneq64I8 = Op<7>;

pub type BrIfXsgt32I32 = Op<10>;

pub type BrIfXsgt32I8 = Op<7>;

pub type BrIfXsgt64I32 = Op<10>;

pub type BrIfXsgt64I8 = Op<7>;

pub type BrIfXsgteq32I32 = Op<10>;

pub type BrIfXsgteq32I8 = Op<7>;

pub type BrIfXsgteq64I32 = Op<10>;

pub type BrIfXsgteq64I8 = Op<7>;

pub type BrIfXslt32 = Op<7>;

pub type BrIfXslt32I32 = Op<10>;

pub type BrIfXslt32I8 = Op<7>;

pub type BrIfXslt64 = Op<7>;

pub type BrIfXslt64I32 = Op<10>;

pub type BrIfXslt64I8 = Op<7>;

pub type BrIfXslteq32 = Op<7>;

pub type BrIfXslteq32I32 = Op<10>;

pub type BrIfXslteq32I8 = Op<7>;

pub type BrIfXslteq64 = Op<7>;

pub type BrIfXslteq64I32 = Op<10>;

pub type BrIfXslteq64I8 = Op<7>;

pub type BrIfXugt32U32 = Op<10>;

pub type BrIfXugt32U8 = Op<7>;

pub type BrIfXugt64U32 = Op<10>;

pub type BrIfXugt64U8 = Op<7>;

pub type BrIfXugteq32U32 = Op<10>;

pub type BrIfXugteq32U8 = Op<7>;

pub type BrIfXugteq64U32 = Op<10>;

pub type BrIfXugteq64U8 = Op<7>;

pub type BrIfXult32 = Op<7>;

pub type BrIfXult32U32 = Op<10>;

pub type BrIfXult32U8 = Op<7>;

pub type BrIfXult64 = Op<7>;

pub type BrIfXult64U32 = Op<10>;

pub type BrIfXult64U8 = Op<7>;

pub type BrIfXulteq32 = Op<7>;

pub type BrIfXulteq32U32 = Op<10>;

pub type BrIfXulteq32U8 = Op<7>;

pub type BrIfXulteq64 = Op<7>;

pub type BrIfXulteq64U32 = Op<10>;

pub type BrIfXulteq64U8 = Op<7>;

pub type Call = Op<5>;

pub type Call1 = Op<6>;

pub type Call2 = Op<7>;

pub type Call3 = Op<8>;

pub type Call4 = Op<9>;

pub type CallIndirect = Op<2>;

pub type CallIndirectHost = Op<4>;

pub type Fload32BeO32 = Op<9>;

pub type Fload32LeG32 = Op<8>;

pub type Fload32LeO32 = Op<9>;

pub type Fload32LeZ = Op<9>;

pub type Fload64BeO32 = Op<9>;

pub type Fload64LeG32 = Op<8>;

pub type Fload64LeO32 = Op<9>;

pub type Fload64LeZ = Op<9>;

pub type Fstore32BeO32 = Op<9>;

pub type Fstore32LeG32 = Op<8>;

pub type Fstore32LeO32 = Op<9>;

pub type Fstore32LeZ = Op<9>;

pub type Fstore64BeO32 = Op<9>;

pub type Fstore64LeG32 = Op<8>;

pub type Fstore64LeO32 = Op<9>;

pub type Fstore64LeZ = Op<9>;

pub type Jump = Op<5>;

pub type PopFrame = Op<1>;

pub type PopFrameRestore = Op<5>;

pub type PushFrame = Op<1>;

pub type PushFrameSave = Op<5>;

pub type Ret = Op<1>;

pub type StackAlloc32 = Op<5>;

pub type StackFree32 = Op<5>;

pub type Trap = Op<3>;

pub type VLoad128LeG32 = Op<8>;

pub type VLoad128LeO32 = Op<9>;

pub type VLoad128LeZ = Op<9>;

pub type VLoad16x4LeSZ = Op<9>;

pub type VLoad16x4LeUZ = Op<9>;

pub type VLoad32x2LeSZ = Op<9>;

pub type VLoad32x2LeUZ = Op<9>;

pub type VLoad8x8SZ = Op<9>;

pub type VLoad8x8UZ = Op<9>;

pub type Vstore128LeG32 = Op<8>;

pub type Vstore128LeO32 = Op<9>;

pub type Vstore128LeZ = Op<9>;

pub type X32FromF32S = Op<5>;

pub type X32FromF32SSat = Op<5>;

pub type X32FromF32U = Op<5>;

pub type X32FromF32USat = Op<5>;

pub type X32FromF64S = Op<5>;

pub type X32FromF64SSat = Op<5>;

pub type X32FromF64U = Op<5>;

pub type X32FromF64USat = Op<5>;

pub type X64FromF32S = Op<5>;

pub type X64FromF32SSat = Op<5>;

pub type X64FromF32U = Op<5>;

pub type X64FromF32USat = Op<5>;

pub type X64FromF64S = Op<5>;

pub type X64FromF64SSat = Op<5>;

pub type X64FromF64U = Op<5>;

pub type X64FromF64USat = Op<5>;

pub type XDiv32S = Op<3>;

pub type XDiv32U = Op<3>;

pub type XDiv64S = Op<3>;

pub type XDiv64U = Op<3>;

pub type XJump = Op<2>;

pub type XLoad16BeS32O32 = Op<9>;

pub type XLoad16BeU32O32 = Op<9>;

pub type XLoad16LeS32G32 = Op<6>;

pub type XLoad16LeS32G32Bne = Op<6>;

pub type XLoad16LeS32O32 = Op<7>;

pub type XLoad16LeS32Z = Op<7>;

pub type XLoad16LeU32G32 = Op<6>;

pub type XLoad16LeU32G32Bne = Op<6>;

pub type XLoad16LeU32O32 = Op<7>;

pub type XLoad16LeU32Z = Op<7>;

pub type XLoad32BeO32 = Op<9>;

pub type XLoad32LeG32 = Op<6>;

pub type XLoad32LeG32Bne = Op<6>;

pub type XLoad32LeO32 = Op<7>;

pub type XLoad32LeZ = Op<7>;

pub type XLoad64BeO32 = Op<9>;

pub type XLoad64LeG32 = Op<6>;

pub type XLoad64LeG32Bne = Op<6>;

pub type XLoad64LeO32 = Op<7>;

pub type XLoad64LeZ = Op<7>;

pub type XLoad8S32G32 = Op<6>;

pub type XLoad8S32G32Bne = Op<6>;

pub type XLoad8S32O32 = Op<7>;

pub type XLoad8S32Z = Op<7>;

pub type XLoad8U32G32 = Op<6>;

pub type XLoad8U32G32Bne = Op<6>;

pub type XLoad8U32O32 = Op<7>;

pub type XLoad8U32Z = Op<7>;

pub type XRem32S = Op<3>;

pub type XRem32U = Op<3>;

pub type XRem64S = Op<3>;

pub type XRem64U = Op<3>;

pub type XStore16BeO32 = Op<9>;

pub type XStore16LeG32 = Op<6>;

pub type XStore16LeG32Bne = Op<6>;

pub type XStore16LeO32 = Op<7>;

pub type XStore16LeZ = Op<7>;

pub type XStore32BeO32 = Op<9>;

pub type XStore32LeG32 = Op<6>;

pub type XStore32LeG32Bne = Op<6>;

pub type XStore32LeO32 = Op<7>;

pub type XStore32LeZ = Op<7>;

pub type XStore64BeO32 = Op<9>;

pub type XStore64LeG32 = Op<6>;

pub type XStore64LeG32Bne = Op<6>;

pub type XStore64LeO32 = Op<7>;

pub type XStore64LeZ = Op<7>;

pub type XStore8G32 = Op<6>;

pub type XStore8G32Bne = Op<6>;

pub type XStore8O32 = Op<7>;

pub type XStore8Z = Op<7>;

pub type Xadd32UoverflowTrap = Op<5>;

pub type Xadd64UoverflowTrap = Op<5>;

} // verus!
