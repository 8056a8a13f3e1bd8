//! The instructions as the decoder hands them to the interpreter, and the
//! step that carries one out.
//!
//! The decoder reads an instruction and moves the program counter behind
//! it; the step then runs the handler of the instruction. A handler
//! either lets the interpreter go on or stops it, and a stop is handed
//! to the caller at once.

use crate::interp::fconv::Converted;
use crate::interp::bits::{
    spec_count_ones, spec_div_trunc, spec_mulhi64_s, spec_mulhi64_u, spec_rem_trunc,
    spec_rotl32, spec_rotl64, spec_rotr32, spec_rotr64, spec_swap_bytes16,
    spec_swap_bytes32, spec_swap_bytes64,
};
use crate::interp::fconv::{
    spec_checked, spec_saturated, spec_trunc_f32, spec_trunc_f64,
};
use crate::interp::lanes::{
    shuffle_mask_ok, spec_bitmask16, spec_bitmask32, spec_bitmask64, spec_bitmask8,
    spec_clamp_i16, spec_clamp_i32, spec_clamp_i8, spec_clamp_u16, spec_clamp_u32,
    spec_clamp_u8, spec_from_lanes16, spec_from_lanes32, spec_from_lanes64,
    spec_from_lanes8, spec_lane16, spec_lane32, spec_lane64, spec_lane8, spec_qmulr,
    spec_unarrow,
};
use crate::interp::ops_frame::{
    spec_restorable, spec_restored, spec_saved,
};
use crate::interp::ops_misc::{
    spec_add128, spec_sub128,
};
use crate::interp::encode::{
    Encode, BrIf, BrIfNot, BrIfXeq32, BrIfXeq32I32, BrIfXeq32I8, BrIfXeq64, BrIfXeq64I32,
    BrIfXeq64I8, BrIfXneq32, BrIfXneq32I32, BrIfXneq32I8, BrIfXneq64, BrIfXneq64I32,
    BrIfXneq64I8, BrIfXsgt32I32, BrIfXsgt32I8, BrIfXsgt64I32, BrIfXsgt64I8,
    BrIfXsgteq32I32, BrIfXsgteq32I8, BrIfXsgteq64I32, BrIfXsgteq64I8, BrIfXslt32,
    BrIfXslt32I32, BrIfXslt32I8, BrIfXslt64, BrIfXslt64I32, BrIfXslt64I8, BrIfXslteq32,
    BrIfXslteq32I32, BrIfXslteq32I8, BrIfXslteq64, BrIfXslteq64I32, BrIfXslteq64I8,
    BrIfXugt32U32, BrIfXugt32U8, BrIfXugt64U32, BrIfXugt64U8, BrIfXugteq32U32,
    BrIfXugteq32U8, BrIfXugteq64U32, BrIfXugteq64U8, BrIfXult32, BrIfXult32U32,
    BrIfXult32U8, BrIfXult64, BrIfXult64U32, BrIfXult64U8, BrIfXulteq32, BrIfXulteq32U32,
    BrIfXulteq32U8, BrIfXulteq64, BrIfXulteq64U32, BrIfXulteq64U8, Call, Call1, Call2,
    Call3, Call4, Fload32BeO32, Fload32LeG32, Fload32LeO32, Fload32LeZ, Fload64BeO32,
    Fload64LeG32, Fload64LeO32, Fload64LeZ, Fstore32BeO32, Fstore32LeG32, Fstore32LeO32,
    Fstore32LeZ, Fstore64BeO32, Fstore64LeG32, Fstore64LeO32, Fstore64LeZ, Jump,
    PushFrame, PushFrameSave, StackAlloc32, Trap, VLoad128LeG32, VLoad128LeO32,
    VLoad128LeZ, VLoad16x4LeSZ, VLoad16x4LeUZ, VLoad32x2LeSZ, VLoad32x2LeUZ, VLoad8x8SZ,
    VLoad8x8UZ, Vstore128LeG32, Vstore128LeO32, Vstore128LeZ, X32FromF32S, X32FromF32U,
    X32FromF64S, X32FromF64U, X64FromF32S, X64FromF32U, X64FromF64S, X64FromF64U, XDiv32S,
    XDiv32U, XDiv64S, XDiv64U, XLoad16BeS32O32, XLoad16BeU32O32, XLoad16LeS32G32,
    XLoad16LeS32G32Bne, XLoad16LeS32O32, XLoad16LeS32Z, XLoad16LeU32G32,
    XLoad16LeU32G32Bne, XLoad16LeU32O32, XLoad16LeU32Z, XLoad32BeO32, XLoad32LeG32,
    XLoad32LeG32Bne, XLoad32LeO32, XLoad32LeZ, XLoad64BeO32, XLoad64LeG32,
    XLoad64LeG32Bne, XLoad64LeO32, XLoad64LeZ, XLoad8S32G32, XLoad8S32G32Bne,
    XLoad8S32O32, XLoad8S32Z, XLoad8U32G32, XLoad8U32G32Bne, XLoad8U32O32, XLoad8U32Z,
    XRem32S, XRem32U, XRem64S, XRem64U, XStore16BeO32, XStore16LeG32, XStore16LeG32Bne,
    XStore16LeO32, XStore16LeZ, XStore32BeO32, XStore32LeG32, XStore32LeG32Bne,
    XStore32LeO32, XStore32LeZ, XStore64BeO32, XStore64LeG32, XStore64LeG32Bne,
    XStore64LeO32, XStore64LeZ, XStore8G32, XStore8G32Bne, XStore8O32, XStore8Z,
    Xadd32UoverflowTrap, Xadd64UoverflowTrap,
};
use crate::interp::machine::{AddressingMode, InterpView, Interpreter};
use crate::interp::regs::{
    AddrG32, AddrG32Bne, AddrO32, AddrZ, BinaryOperands, FReg, PcRelOffset, UpperRegSet, VReg,
    XReg, U6,
};
use crate::interp::state::{Done, DoneReason, StateView, TrapKind, HOST_RETURN_ADDR};
use core::ops::ControlFlow;
use vstd::prelude::*;

verus! {

/// A decoded instruction.
#[derive(Clone, Copy, Debug)]
pub enum Op {
    /// Copies all 64 bits of `src` to `dst`.
    Xmov { dst: XReg, src: XReg },
    /// Sets `dst` to the sign-extended constant `imm`.
    Xconst8 { dst: XReg, imm: i8 },
    /// Sets `dst` to the sign-extended constant `imm`.
    Xconst16 { dst: XReg, imm: i16 },
    /// Sets `dst` to the sign-extended constant `imm`.
    Xconst32 { dst: XReg, imm: i32 },
    /// Sets `dst` to the constant `imm`.
    Xconst64 { dst: XReg, imm: i64 },
    /// Sets `dst` to zero.
    Xzero { dst: XReg },
    /// Sets `dst` to one.
    Xone { dst: XReg },
    /// Adds two 32-bit numbers, wrapping around.
    Xadd32 { operands: BinaryOperands<XReg> },
    /// Adds an unsigned 32-bit constant to a 32-bit number, wrapping
    /// around.
    Xadd32U32 { dst: XReg, src1: XReg, src2: u32 },
    /// Adds an unsigned 8-bit constant to a 32-bit number, wrapping
    /// around.
    Xadd32U8 { dst: XReg, src1: XReg, src2: u8 },
    /// Multiplies two 32-bit numbers and adds a third, wrapping around.
    Xmadd32 { dst: XReg, src1: XReg, src2: XReg, src3: XReg },
    /// Subtracts two 32-bit numbers, wrapping around.
    Xsub32 { operands: BinaryOperands<XReg> },
    /// Subtracts an unsigned 32-bit constant from a 32-bit number,
    /// wrapping around.
    Xsub32U32 { dst: XReg, src1: XReg, src2: u32 },
    /// Subtracts an unsigned 8-bit constant from a 32-bit number,
    /// wrapping around.
    Xsub32U8 { dst: XReg, src1: XReg, src2: u8 },
    /// Multiplies two 32-bit numbers, wrapping around.
    Xmul32 { operands: BinaryOperands<XReg> },
    /// Multiplies a 32-bit number by a signed 32-bit constant, wrapping
    /// around.
    Xmul32S32 { dst: XReg, src1: XReg, src2: i32 },
    /// Multiplies a 32-bit number by a signed 8-bit constant, wrapping
    /// around.
    Xmul32S8 { dst: XReg, src1: XReg, src2: i8 },
    /// Adds two 64-bit numbers, wrapping around.
    Xadd64 { operands: BinaryOperands<XReg> },
    /// Adds an unsigned 32-bit constant to a 64-bit number, wrapping
    /// around.
    Xadd64U32 { dst: XReg, src1: XReg, src2: u32 },
    /// Adds an unsigned 8-bit constant to a 64-bit number, wrapping
    /// around.
    Xadd64U8 { dst: XReg, src1: XReg, src2: u8 },
    /// Multiplies two 64-bit numbers and adds a third, wrapping around.
    Xmadd64 { dst: XReg, src1: XReg, src2: XReg, src3: XReg },
    /// Subtracts two 64-bit numbers, wrapping around.
    Xsub64 { operands: BinaryOperands<XReg> },
    /// Subtracts an unsigned 32-bit constant from a 64-bit number,
    /// wrapping around.
    Xsub64U32 { dst: XReg, src1: XReg, src2: u32 },
    /// Subtracts an unsigned 8-bit constant from a 64-bit number,
    /// wrapping around.
    Xsub64U8 { dst: XReg, src1: XReg, src2: u8 },
    /// Multiplies two 64-bit numbers, wrapping around.
    Xmul64 { operands: BinaryOperands<XReg> },
    /// Multiplies a 64-bit number by a signed 32-bit constant, wrapping
    /// around.
    Xmul64S32 { dst: XReg, src1: XReg, src2: i32 },
    /// Multiplies a 64-bit number by a signed 8-bit constant, wrapping
    /// around.
    Xmul64S8 { dst: XReg, src1: XReg, src2: i8 },
    /// Shifts a 32-bit number left by the amount in `src2`, taken modulo
    /// 32.
    Xshl32 { operands: BinaryOperands<XReg> },
    /// Shifts an unsigned 32-bit number right by the amount in `src2`,
    /// taken modulo 32.
    Xshr32U { operands: BinaryOperands<XReg> },
    /// Shifts a signed 32-bit number right by the amount in `src2`, taken
    /// modulo 32; the sign fills in.
    Xshr32S { operands: BinaryOperands<XReg> },
    /// Shifts a 64-bit number left by the amount in `src2`, taken modulo
    /// 64.
    Xshl64 { operands: BinaryOperands<XReg> },
    /// Shifts an unsigned 64-bit number right by the amount in `src2`,
    /// taken modulo 64.
    Xshr64U { operands: BinaryOperands<XReg> },
    /// Shifts a signed 64-bit number right by the amount in `src2`, taken
    /// modulo 64; the sign fills in.
    Xshr64S { operands: BinaryOperands<XReg> },
    /// Shifts a 32-bit number left by a constant, taken modulo 32.
    Xshl32U6 { operands: BinaryOperands<XReg, XReg, U6> },
    /// Shifts an unsigned 32-bit number right by a constant, taken modulo
    /// 32.
    Xshr32UU6 { operands: BinaryOperands<XReg, XReg, U6> },
    /// Shifts a signed 32-bit number right by a constant, taken modulo
    /// 32; the sign fills in.
    Xshr32SU6 { operands: BinaryOperands<XReg, XReg, U6> },
    /// Shifts a 64-bit number left by a constant, taken modulo 64.
    Xshl64U6 { operands: BinaryOperands<XReg, XReg, U6> },
    /// Shifts an unsigned 64-bit number right by a constant, taken modulo
    /// 64.
    Xshr64UU6 { operands: BinaryOperands<XReg, XReg, U6> },
    /// Shifts a signed 64-bit number right by a constant, taken modulo
    /// 64; the sign fills in.
    Xshr64SU6 { operands: BinaryOperands<XReg, XReg, U6> },
    /// Negates a 32-bit number, wrapping around.
    Xneg32 { dst: XReg, src: XReg },
    /// Negates a 64-bit number, wrapping around.
    Xneg64 { dst: XReg, src: XReg },
    /// Sets the lower half of `dst` to 1 if the two 64-bit numbers are
    /// equal, else to 0.
    Xeq64 { operands: BinaryOperands<XReg> },
    /// Sets the lower half of `dst` to 1 if the two 64-bit numbers
    /// differ, else to 0.
    Xneq64 { operands: BinaryOperands<XReg> },
    /// Sets the lower half of `dst` to 1 if the two 64-bit numbers are in
    /// strictly increasing order as signed numbers, else to 0.
    Xslt64 { operands: BinaryOperands<XReg> },
    /// Sets the lower half of `dst` to 1 if the two 64-bit numbers are in
    /// increasing order as signed numbers, else to 0.
    Xslteq64 { operands: BinaryOperands<XReg> },
    /// Sets the lower half of `dst` to 1 if the two 64-bit numbers are in
    /// strictly increasing order as unsigned numbers, else to 0.
    Xult64 { operands: BinaryOperands<XReg> },
    /// Sets the lower half of `dst` to 1 if the two 64-bit numbers are in
    /// increasing order as unsigned numbers, else to 0.
    Xulteq64 { operands: BinaryOperands<XReg> },
    /// Sets the lower half of `dst` to 1 if the two 32-bit numbers are
    /// equal, else to 0.
    Xeq32 { operands: BinaryOperands<XReg> },
    /// Sets the lower half of `dst` to 1 if the two 32-bit numbers
    /// differ, else to 0.
    Xneq32 { operands: BinaryOperands<XReg> },
    /// Sets the lower half of `dst` to 1 if the two 32-bit numbers are in
    /// strictly increasing order as signed numbers, else to 0.
    Xslt32 { operands: BinaryOperands<XReg> },
    /// Sets the lower half of `dst` to 1 if the two 32-bit numbers are in
    /// increasing order as signed numbers, else to 0.
    Xslteq32 { operands: BinaryOperands<XReg> },
    /// Sets the lower half of `dst` to 1 if the two 32-bit numbers are in
    /// strictly increasing order as unsigned numbers, else to 0.
    Xult32 { operands: BinaryOperands<XReg> },
    /// Sets the lower half of `dst` to 1 if the two 32-bit numbers are in
    /// increasing order as unsigned numbers, else to 0.
    Xulteq32 { operands: BinaryOperands<XReg> },
    /// Zero-extends the low 8 bits of `src` to 64 bits.
    Zext8 { dst: XReg, src: XReg },
    /// Zero-extends the low 16 bits of `src` to 64 bits.
    Zext16 { dst: XReg, src: XReg },
    /// Zero-extends the low 32 bits of `src` to 64 bits.
    Zext32 { dst: XReg, src: XReg },
    /// Sign-extends the low 8 bits of `src` to 64 bits.
    Sext8 { dst: XReg, src: XReg },
    /// Sign-extends the low 16 bits of `src` to 64 bits.
    Sext16 { dst: XReg, src: XReg },
    /// Sign-extends the low 32 bits of `src` to 64 bits.
    Sext32 { dst: XReg, src: XReg },
    /// The bitwise and of two 32-bit numbers.
    Xband32 { operands: BinaryOperands<XReg> },
    /// The bitwise and of a 32-bit number and a sign-extended 32-bit
    /// constant.
    Xband32S32 { dst: XReg, src1: XReg, src2: i32 },
    /// The bitwise and of a 32-bit number and a sign-extended 8-bit
    /// constant.
    Xband32S8 { dst: XReg, src1: XReg, src2: i8 },
    /// The bitwise and of two 64-bit numbers.
    Xband64 { operands: BinaryOperands<XReg> },
    /// The bitwise and of a 64-bit number and a sign-extended 32-bit
    /// constant.
    Xband64S32 { dst: XReg, src1: XReg, src2: i32 },
    /// The bitwise and of a 64-bit number and a sign-extended 8-bit
    /// constant.
    Xband64S8 { dst: XReg, src1: XReg, src2: i8 },
    /// The bitwise or of two 32-bit numbers.
    Xbor32 { operands: BinaryOperands<XReg> },
    /// The bitwise or of a 32-bit number and a sign-extended 32-bit
    /// constant.
    Xbor32S32 { dst: XReg, src1: XReg, src2: i32 },
    /// The bitwise or of a 32-bit number and a sign-extended 8-bit
    /// constant.
    Xbor32S8 { dst: XReg, src1: XReg, src2: i8 },
    /// The bitwise or of two 64-bit numbers.
    Xbor64 { operands: BinaryOperands<XReg> },
    /// The bitwise or of a 64-bit number and a sign-extended 32-bit
    /// constant.
    Xbor64S32 { dst: XReg, src1: XReg, src2: i32 },
    /// The bitwise or of a 64-bit number and a sign-extended 8-bit
    /// constant.
    Xbor64S8 { dst: XReg, src1: XReg, src2: i8 },
    /// The bitwise exclusive or of two 32-bit numbers.
    Xbxor32 { operands: BinaryOperands<XReg> },
    /// The bitwise exclusive or of a 32-bit number and a sign-extended
    /// 32-bit constant.
    Xbxor32S32 { dst: XReg, src1: XReg, src2: i32 },
    /// The bitwise exclusive or of a 32-bit number and a sign-extended
    /// 8-bit constant.
    Xbxor32S8 { dst: XReg, src1: XReg, src2: i8 },
    /// The bitwise exclusive or of two 64-bit numbers.
    Xbxor64 { operands: BinaryOperands<XReg> },
    /// The bitwise exclusive or of a 64-bit number and a sign-extended
    /// 32-bit constant.
    Xbxor64S32 { dst: XReg, src1: XReg, src2: i32 },
    /// The bitwise exclusive or of a 64-bit number and a sign-extended
    /// 8-bit constant.
    Xbxor64S8 { dst: XReg, src1: XReg, src2: i8 },
    /// The bitwise complement of a 32-bit number.
    Xbnot32 { dst: XReg, src: XReg },
    /// The bitwise complement of a 64-bit number.
    Xbnot64 { dst: XReg, src: XReg },
    /// The lesser of two unsigned 32-bit numbers.
    Xmin32U { operands: BinaryOperands<XReg> },
    /// The greater of two unsigned 32-bit numbers.
    Xmax32U { operands: BinaryOperands<XReg> },
    /// The lesser of two signed 32-bit numbers.
    Xmin32S { operands: BinaryOperands<XReg> },
    /// The greater of two signed 32-bit numbers.
    Xmax32S { operands: BinaryOperands<XReg> },
    /// The lesser of two unsigned 64-bit numbers.
    Xmin64U { operands: BinaryOperands<XReg> },
    /// The greater of two unsigned 64-bit numbers.
    Xmax64U { operands: BinaryOperands<XReg> },
    /// The lesser of two signed 64-bit numbers.
    Xmin64S { operands: BinaryOperands<XReg> },
    /// The greater of two signed 64-bit numbers.
    Xmax64S { operands: BinaryOperands<XReg> },
    /// Counts the zero bits below the lowest one bit of a 32-bit number;
    /// 32 for zero.
    Xctz32 { dst: XReg, src: XReg },
    /// Counts the zero bits below the lowest one bit of a 64-bit number;
    /// 64 for zero.
    Xctz64 { dst: XReg, src: XReg },
    /// Counts the zero bits above the highest one bit of a 32-bit number;
    /// 32 for zero.
    Xclz32 { dst: XReg, src: XReg },
    /// Counts the zero bits above the highest one bit of a 64-bit number;
    /// 64 for zero.
    Xclz64 { dst: XReg, src: XReg },
    /// Counts the one bits of a 32-bit number.
    Xpopcnt32 { dst: XReg, src: XReg },
    /// Counts the one bits of a 64-bit number.
    Xpopcnt64 { dst: XReg, src: XReg },
    /// Rotates a 32-bit number left by the amount in `src2`.
    Xrotl32 { operands: BinaryOperands<XReg> },
    /// Rotates a 32-bit number right by the amount in `src2`.
    Xrotr32 { operands: BinaryOperands<XReg> },
    /// Rotates a 64-bit number left by the amount in `src2`.
    Xrotl64 { operands: BinaryOperands<XReg> },
    /// Rotates a 64-bit number right by the amount in `src2`.
    Xrotr64 { operands: BinaryOperands<XReg> },
    /// Chooses between two 32-bit numbers: `if_nonzero` unless the lower
    /// half of `cond` is zero.
    Xselect32 { dst: XReg, cond: XReg, if_nonzero: XReg, if_zero: XReg },
    /// Chooses between two 64-bit numbers: `if_nonzero` unless the lower
    /// half of `cond` is zero.
    Xselect64 { dst: XReg, cond: XReg, if_nonzero: XReg, if_zero: XReg },
    /// The absolute value of a signed 32-bit number, wrapping around for
    /// the least number.
    Xabs32 { dst: XReg, src: XReg },
    /// The absolute value of a signed 64-bit number, wrapping around for
    /// the least number.
    Xabs64 { dst: XReg, src: XReg },
    /// Sets the lower half of `dst` to all ones unless the 32-bit number
    /// in `src` is zero: then to zero.
    Xbmask32 { dst: XReg, src: XReg },
    /// Sets `dst` to all ones unless the 64-bit number in `src` is zero:
    /// then to zero.
    Xbmask64 { dst: XReg, src: XReg },
    /// Reverses the order of the four bytes of a 32-bit number.
    Bswap32 { dst: XReg, src: XReg },
    /// Reverses the order of the eight bytes of a 64-bit number.
    Bswap64 { dst: XReg, src: XReg },
    /// The upper 64 bits of the 128-bit product of two signed 64-bit
    /// numbers.
    Xmulhi64S { operands: BinaryOperands<XReg> },
    /// The upper 64 bits of the 128-bit product of two unsigned 64-bit
    /// numbers.
    Xmulhi64U { operands: BinaryOperands<XReg> },
    /// Does nothing.
    Nop,
    /// Copies the frame pointer to `dst`.
    XmovFp { dst: XReg },
    /// Copies the link register to `dst`.
    XmovLr { dst: XReg },
    /// Divides two signed 32-bit numbers, rounding towards zero.
    Xdiv32S { operands: BinaryOperands<XReg> },
    /// Divides two signed 64-bit numbers, rounding towards zero.
    Xdiv64S { operands: BinaryOperands<XReg> },
    /// Divides two unsigned 32-bit numbers, rounding towards zero.
    Xdiv32U { operands: BinaryOperands<XReg> },
    /// Divides two unsigned 64-bit numbers, rounding towards zero.
    Xdiv64U { operands: BinaryOperands<XReg> },
    /// The remainder of the division of two signed 32-bit numbers that
    /// rounds towards zero.
    Xrem32S { operands: BinaryOperands<XReg> },
    /// The remainder of the division of two signed 64-bit numbers that
    /// rounds towards zero.
    Xrem64S { operands: BinaryOperands<XReg> },
    /// The remainder of the division of two unsigned 32-bit numbers that
    /// rounds towards zero.
    Xrem32U { operands: BinaryOperands<XReg> },
    /// The remainder of the division of two unsigned 64-bit numbers that
    /// rounds towards zero.
    Xrem64U { operands: BinaryOperands<XReg> },
    /// Adds two unsigned 32-bit numbers, or traps if the sum does not fit
    /// 32 bits.
    Xadd32UoverflowTrap { operands: BinaryOperands<XReg> },
    /// Adds two unsigned 64-bit numbers, or traps if the sum does not fit
    /// 64 bits.
    Xadd64UoverflowTrap { operands: BinaryOperands<XReg> },
    /// Returns to the address in the link register, or stops with a
    /// return to the host if that address stands for the host.
    Ret,
    /// Calls the function `offset` bytes from this instruction: the
    /// address behind the instruction goes to the link register.
    Call { offset: PcRelOffset },
    /// Calls like `call`, with `arg1` copied to the first argument
    /// register.
    Call1 { arg1: XReg, offset: PcRelOffset },
    /// Calls like `call`, with two registers copied to the first two
    /// argument registers.
    Call2 { arg1: XReg, arg2: XReg, offset: PcRelOffset },
    /// Calls like `call`, with three registers copied to the first three
    /// argument registers.
    Call3 { arg1: XReg, arg2: XReg, arg3: XReg, offset: PcRelOffset },
    /// Calls like `call`, with four registers copied to the four argument
    /// registers.
    Call4 { arg1: XReg, arg2: XReg, arg3: XReg, arg4: XReg, offset: PcRelOffset },
    /// Calls the function whose address is in `dst`.
    CallIndirect { dst: XReg },
    /// Jumps `offset` bytes from this instruction.
    Jump { offset: PcRelOffset },
    /// Jumps to the address in `reg`.
    Xjump { reg: XReg },
    /// Jumps if the lower half of `cond` is not zero.
    BrIf32 { cond: XReg, offset: PcRelOffset },
    /// Jumps if the lower half of `cond` is zero.
    BrIfNot32 { cond: XReg, offset: PcRelOffset },
    /// Jumps if the 32-bit number in `a` equals the one in `b`, both read
    /// as unsigned.
    BrIfXeq32 { a: XReg, b: XReg, offset: PcRelOffset },
    /// Jumps if the 32-bit number in `a` differs from the one in `b`,
    /// both read as unsigned.
    BrIfXneq32 { a: XReg, b: XReg, offset: PcRelOffset },
    /// Jumps if the 32-bit number in `a` is less than the one in `b`,
    /// both read as signed.
    BrIfXslt32 { a: XReg, b: XReg, offset: PcRelOffset },
    /// Jumps if the 32-bit number in `a` is at most the one in `b`, both
    /// read as signed.
    BrIfXslteq32 { a: XReg, b: XReg, offset: PcRelOffset },
    /// Jumps if the 32-bit number in `a` is less than the one in `b`,
    /// both read as unsigned.
    BrIfXult32 { a: XReg, b: XReg, offset: PcRelOffset },
    /// Jumps if the 32-bit number in `a` is at most the one in `b`, both
    /// read as unsigned.
    BrIfXulteq32 { a: XReg, b: XReg, offset: PcRelOffset },
    /// Jumps if the 64-bit number in `a` equals the one in `b`, both read
    /// as unsigned.
    BrIfXeq64 { a: XReg, b: XReg, offset: PcRelOffset },
    /// Jumps if the 64-bit number in `a` differs from the one in `b`,
    /// both read as unsigned.
    BrIfXneq64 { a: XReg, b: XReg, offset: PcRelOffset },
    /// Jumps if the 64-bit number in `a` is less than the one in `b`,
    /// both read as signed.
    BrIfXslt64 { a: XReg, b: XReg, offset: PcRelOffset },
    /// Jumps if the 64-bit number in `a` is at most the one in `b`, both
    /// read as signed.
    BrIfXslteq64 { a: XReg, b: XReg, offset: PcRelOffset },
    /// Jumps if the 64-bit number in `a` is less than the one in `b`,
    /// both read as unsigned.
    BrIfXult64 { a: XReg, b: XReg, offset: PcRelOffset },
    /// Jumps if the 64-bit number in `a` is at most the one in `b`, both
    /// read as unsigned.
    BrIfXulteq64 { a: XReg, b: XReg, offset: PcRelOffset },
    /// Jumps if the signed 32-bit number in `a` equals the constant `b`.
    BrIfXeq32I8 { a: XReg, b: i8, offset: PcRelOffset },
    /// Jumps if the signed 32-bit number in `a` equals the constant `b`.
    BrIfXeq32I32 { a: XReg, b: i32, offset: PcRelOffset },
    /// Jumps if the signed 32-bit number in `a` differs from the constant
    /// `b`.
    BrIfXneq32I8 { a: XReg, b: i8, offset: PcRelOffset },
    /// Jumps if the signed 32-bit number in `a` differs from the constant
    /// `b`.
    BrIfXneq32I32 { a: XReg, b: i32, offset: PcRelOffset },
    /// Jumps if the signed 32-bit number in `a` is less than the constant
    /// `b`.
    BrIfXslt32I8 { a: XReg, b: i8, offset: PcRelOffset },
    /// Jumps if the signed 32-bit number in `a` is less than the constant
    /// `b`.
    BrIfXslt32I32 { a: XReg, b: i32, offset: PcRelOffset },
    /// Jumps if the signed 32-bit number in `a` is greater than the
    /// constant `b`.
    BrIfXsgt32I8 { a: XReg, b: i8, offset: PcRelOffset },
    /// Jumps if the signed 32-bit number in `a` is greater than the
    /// constant `b`.
    BrIfXsgt32I32 { a: XReg, b: i32, offset: PcRelOffset },
    /// Jumps if the signed 32-bit number in `a` is at most the constant
    /// `b`.
    BrIfXslteq32I8 { a: XReg, b: i8, offset: PcRelOffset },
    /// Jumps if the signed 32-bit number in `a` is at most the constant
    /// `b`.
    BrIfXslteq32I32 { a: XReg, b: i32, offset: PcRelOffset },
    /// Jumps if the signed 32-bit number in `a` is at least the constant
    /// `b`.
    BrIfXsgteq32I8 { a: XReg, b: i8, offset: PcRelOffset },
    /// Jumps if the signed 32-bit number in `a` is at least the constant
    /// `b`.
    BrIfXsgteq32I32 { a: XReg, b: i32, offset: PcRelOffset },
    /// Jumps if the unsigned 32-bit number in `a` is less than the
    /// constant `b`.
    BrIfXult32U8 { a: XReg, b: u8, offset: PcRelOffset },
    /// Jumps if the unsigned 32-bit number in `a` is less than the
    /// constant `b`.
    BrIfXult32U32 { a: XReg, b: u32, offset: PcRelOffset },
    /// Jumps if the unsigned 32-bit number in `a` is greater than the
    /// constant `b`.
    BrIfXugt32U8 { a: XReg, b: u8, offset: PcRelOffset },
    /// Jumps if the unsigned 32-bit number in `a` is greater than the
    /// constant `b`.
    BrIfXugt32U32 { a: XReg, b: u32, offset: PcRelOffset },
    /// Jumps if the unsigned 32-bit number in `a` is at most the constant
    /// `b`.
    BrIfXulteq32U8 { a: XReg, b: u8, offset: PcRelOffset },
    /// Jumps if the unsigned 32-bit number in `a` is at most the constant
    /// `b`.
    BrIfXulteq32U32 { a: XReg, b: u32, offset: PcRelOffset },
    /// Jumps if the unsigned 32-bit number in `a` is at least the
    /// constant `b`.
    BrIfXugteq32U8 { a: XReg, b: u8, offset: PcRelOffset },
    /// Jumps if the unsigned 32-bit number in `a` is at least the
    /// constant `b`.
    BrIfXugteq32U32 { a: XReg, b: u32, offset: PcRelOffset },
    /// Jumps if the signed 64-bit number in `a` equals the constant `b`.
    BrIfXeq64I8 { a: XReg, b: i8, offset: PcRelOffset },
    /// Jumps if the signed 64-bit number in `a` equals the constant `b`.
    BrIfXeq64I32 { a: XReg, b: i32, offset: PcRelOffset },
    /// Jumps if the signed 64-bit number in `a` differs from the constant
    /// `b`.
    BrIfXneq64I8 { a: XReg, b: i8, offset: PcRelOffset },
    /// Jumps if the signed 64-bit number in `a` differs from the constant
    /// `b`.
    BrIfXneq64I32 { a: XReg, b: i32, offset: PcRelOffset },
    /// Jumps if the signed 64-bit number in `a` is less than the constant
    /// `b`.
    BrIfXslt64I8 { a: XReg, b: i8, offset: PcRelOffset },
    /// Jumps if the signed 64-bit number in `a` is less than the constant
    /// `b`.
    BrIfXslt64I32 { a: XReg, b: i32, offset: PcRelOffset },
    /// Jumps if the signed 64-bit number in `a` is greater than the
    /// constant `b`.
    BrIfXsgt64I8 { a: XReg, b: i8, offset: PcRelOffset },
    /// Jumps if the signed 64-bit number in `a` is greater than the
    /// constant `b`.
    BrIfXsgt64I32 { a: XReg, b: i32, offset: PcRelOffset },
    /// Jumps if the signed 64-bit number in `a` is at most the constant
    /// `b`.
    BrIfXslteq64I8 { a: XReg, b: i8, offset: PcRelOffset },
    /// Jumps if the signed 64-bit number in `a` is at most the constant
    /// `b`.
    BrIfXslteq64I32 { a: XReg, b: i32, offset: PcRelOffset },
    /// Jumps if the signed 64-bit number in `a` is at least the constant
    /// `b`.
    BrIfXsgteq64I8 { a: XReg, b: i8, offset: PcRelOffset },
    /// Jumps if the signed 64-bit number in `a` is at least the constant
    /// `b`.
    BrIfXsgteq64I32 { a: XReg, b: i32, offset: PcRelOffset },
    /// Jumps if the unsigned 64-bit number in `a` is less than the
    /// constant `b`.
    BrIfXult64U8 { a: XReg, b: u8, offset: PcRelOffset },
    /// Jumps if the unsigned 64-bit number in `a` is less than the
    /// constant `b`.
    BrIfXult64U32 { a: XReg, b: u32, offset: PcRelOffset },
    /// Jumps if the unsigned 64-bit number in `a` is greater than the
    /// constant `b`.
    BrIfXugt64U8 { a: XReg, b: u8, offset: PcRelOffset },
    /// Jumps if the unsigned 64-bit number in `a` is greater than the
    /// constant `b`.
    BrIfXugt64U32 { a: XReg, b: u32, offset: PcRelOffset },
    /// Jumps if the unsigned 64-bit number in `a` is at most the constant
    /// `b`.
    BrIfXulteq64U8 { a: XReg, b: u8, offset: PcRelOffset },
    /// Jumps if the unsigned 64-bit number in `a` is at most the constant
    /// `b`.
    BrIfXulteq64U32 { a: XReg, b: u32, offset: PcRelOffset },
    /// Jumps if the unsigned 64-bit number in `a` is at least the
    /// constant `b`.
    BrIfXugteq64U8 { a: XReg, b: u8, offset: PcRelOffset },
    /// Jumps if the unsigned 64-bit number in `a` is at least the
    /// constant `b`.
    BrIfXugteq64U32 { a: XReg, b: u32, offset: PcRelOffset },
    /// Stops with a trap of unknown kind.
    Trap,
    /// Stops to let the host run its function `id`.
    CallIndirectHost { id: u8 },
    /// Moves the stack pointer down by `amt` bytes, or traps with a stack
    /// overflow if that would leave the stack.
    StackAlloc32 { amt: u32 },
    /// Moves the stack pointer up by `amt` bytes: it frees what an
    /// earlier instruction took, so the stack pointer stays in the stack.
    StackFree32 { amt: u32 },
    /// Pushes the link register and then the frame pointer, and points
    /// the frame pointer at the stack pointer.
    PushFrame,
    /// Moves the stack pointer to the frame pointer, then pops the frame
    /// pointer and the link register of the caller.
    PopFrame,
    /// Makes a frame in one step: moves the stack pointer down by `amt`
    /// bytes and 16 more, stores the link register and the frame pointer
    /// at the top of that room, points the frame pointer at the stored
    /// frame pointer, and saves the registers `regs` below it.
    PushFrameSave { amt: u16, regs: UpperRegSet },
    /// Takes down a frame made by `push_frame_save`: restores the
    /// registers `regs` from below the frame pointer, then pops the frame
    /// as `pop_frame` does.
    PopFrameRestore { amt: u16, regs: UpperRegSet },
    /// Loads a byte at a register plus a constant and zero-extends it to
    /// 32 bits.
    Xload8U32O32 { dst: XReg, addr: AddrO32 },
    /// Loads a byte at a register plus a constant and sign-extends it to
    /// 32 bits.
    Xload8S32O32 { dst: XReg, addr: AddrO32 },
    /// Loads a little-endian 16-bit number at a register plus a constant
    /// and zero-extends it to 32 bits.
    Xload16leU32O32 { dst: XReg, addr: AddrO32 },
    /// Loads a little-endian 16-bit number at a register plus a constant
    /// and sign-extends it to 32 bits.
    Xload16leS32O32 { dst: XReg, addr: AddrO32 },
    /// Loads a little-endian 32-bit number at a register plus a constant.
    Xload32leO32 { dst: XReg, addr: AddrO32 },
    /// Loads a little-endian 64-bit number at a register plus a constant.
    Xload64leO32 { dst: XReg, addr: AddrO32 },
    /// Stores the low byte of a register at a register plus a constant.
    Xstore8O32 { addr: AddrO32, val: XReg },
    /// Stores the low 16 bits of a register, in little-endian order, at a
    /// register plus a constant.
    Xstore16leO32 { addr: AddrO32, val: XReg },
    /// Stores the low 32 bits of a register, in little-endian order, at a
    /// register plus a constant.
    Xstore32leO32 { addr: AddrO32, val: XReg },
    /// Stores a register, in little-endian order, at a register plus a
    /// constant.
    Xstore64leO32 { addr: AddrO32, val: XReg },
    /// Loads a byte at a register plus a constant, trapping if the
    /// register is null and zero-extends it to 32 bits.
    Xload8U32Z { dst: XReg, addr: AddrZ },
    /// Loads a byte at a register plus a constant, trapping if the
    /// register is null and sign-extends it to 32 bits.
    Xload8S32Z { dst: XReg, addr: AddrZ },
    /// Loads a little-endian 16-bit number at a register plus a constant,
    /// trapping if the register is null and zero-extends it to 32 bits.
    Xload16leU32Z { dst: XReg, addr: AddrZ },
    /// Loads a little-endian 16-bit number at a register plus a constant,
    /// trapping if the register is null and sign-extends it to 32 bits.
    Xload16leS32Z { dst: XReg, addr: AddrZ },
    /// Loads a little-endian 32-bit number at a register plus a constant,
    /// trapping if the register is null.
    Xload32leZ { dst: XReg, addr: AddrZ },
    /// Loads a little-endian 64-bit number at a register plus a constant,
    /// trapping if the register is null.
    Xload64leZ { dst: XReg, addr: AddrZ },
    /// Stores the low byte of a register at a register plus a constant,
    /// trapping if the register is null.
    Xstore8Z { addr: AddrZ, val: XReg },
    /// Stores the low 16 bits of a register, in little-endian order, at a
    /// register plus a constant, trapping if the register is null.
    Xstore16leZ { addr: AddrZ, val: XReg },
    /// Stores the low 32 bits of a register, in little-endian order, at a
    /// register plus a constant, trapping if the register is null.
    Xstore32leZ { addr: AddrZ, val: XReg },
    /// Stores a register, in little-endian order, at a register plus a
    /// constant, trapping if the register is null.
    Xstore64leZ { addr: AddrZ, val: XReg },
    /// Loads a byte in a heap, with the offset checked against the bound
    /// in a register and zero-extends it to 32 bits.
    Xload8U32G32 { dst: XReg, addr: AddrG32 },
    /// Loads a byte in a heap, with the offset checked against the bound
    /// in a register and sign-extends it to 32 bits.
    Xload8S32G32 { dst: XReg, addr: AddrG32 },
    /// Loads a little-endian 16-bit number in a heap, with the offset
    /// checked against the bound in a register and zero-extends it to 32
    /// bits.
    Xload16leU32G32 { dst: XReg, addr: AddrG32 },
    /// Loads a little-endian 16-bit number in a heap, with the offset
    /// checked against the bound in a register and sign-extends it to 32
    /// bits.
    Xload16leS32G32 { dst: XReg, addr: AddrG32 },
    /// Loads a little-endian 32-bit number in a heap, with the offset
    /// checked against the bound in a register.
    Xload32leG32 { dst: XReg, addr: AddrG32 },
    /// Loads a little-endian 64-bit number in a heap, with the offset
    /// checked against the bound in a register.
    Xload64leG32 { dst: XReg, addr: AddrG32 },
    /// Stores the low byte of a register in a heap, with the offset
    /// checked against the bound in a register.
    Xstore8G32 { addr: AddrG32, val: XReg },
    /// Stores the low 16 bits of a register, in little-endian order, in a
    /// heap, with the offset checked against the bound in a register.
    Xstore16leG32 { addr: AddrG32, val: XReg },
    /// Stores the low 32 bits of a register, in little-endian order, in a
    /// heap, with the offset checked against the bound in a register.
    Xstore32leG32 { addr: AddrG32, val: XReg },
    /// Stores a register, in little-endian order, in a heap, with the
    /// offset checked against the bound in a register.
    Xstore64leG32 { addr: AddrG32, val: XReg },
    /// Loads a byte in a heap, with the offset checked against the bound
    /// in memory and zero-extends it to 32 bits.
    Xload8U32G32bne { dst: XReg, addr: AddrG32Bne },
    /// Loads a byte in a heap, with the offset checked against the bound
    /// in memory and sign-extends it to 32 bits.
    Xload8S32G32bne { dst: XReg, addr: AddrG32Bne },
    /// Loads a little-endian 16-bit number in a heap, with the offset
    /// checked against the bound in memory and zero-extends it to 32
    /// bits.
    Xload16leU32G32bne { dst: XReg, addr: AddrG32Bne },
    /// Loads a little-endian 16-bit number in a heap, with the offset
    /// checked against the bound in memory and sign-extends it to 32
    /// bits.
    Xload16leS32G32bne { dst: XReg, addr: AddrG32Bne },
    /// Loads a little-endian 32-bit number in a heap, with the offset
    /// checked against the bound in memory.
    Xload32leG32bne { dst: XReg, addr: AddrG32Bne },
    /// Loads a little-endian 64-bit number in a heap, with the offset
    /// checked against the bound in memory.
    Xload64leG32bne { dst: XReg, addr: AddrG32Bne },
    /// Stores the low byte of a register in a heap, with the offset
    /// checked against the bound in memory.
    Xstore8G32bne { addr: AddrG32Bne, val: XReg },
    /// Stores the low 16 bits of a register, in little-endian order, in a
    /// heap, with the offset checked against the bound in memory.
    Xstore16leG32bne { addr: AddrG32Bne, val: XReg },
    /// Stores the low 32 bits of a register, in little-endian order, in a
    /// heap, with the offset checked against the bound in memory.
    Xstore32leG32bne { addr: AddrG32Bne, val: XReg },
    /// Stores a register, in little-endian order, in a heap, with the
    /// offset checked against the bound in memory.
    Xstore64leG32bne { addr: AddrG32Bne, val: XReg },
    /// Loads a big-endian 16-bit number at a register plus a constant and
    /// zero-extends it to 32 bits.
    Xload16beU32O32 { dst: XReg, addr: AddrO32 },
    /// Loads a big-endian 16-bit number at a register plus a constant and
    /// sign-extends it to 32 bits.
    Xload16beS32O32 { dst: XReg, addr: AddrO32 },
    /// Loads a big-endian 32-bit number at a register plus a constant.
    Xload32beO32 { dst: XReg, addr: AddrO32 },
    /// Loads a big-endian 64-bit number at a register plus a constant.
    Xload64beO32 { dst: XReg, addr: AddrO32 },
    /// Stores the low 16 bits of a register, in big-endian order, at a
    /// register plus a constant.
    Xstore16beO32 { addr: AddrO32, val: XReg },
    /// Stores the low 32 bits of a register, in big-endian order, at a
    /// register plus a constant.
    Xstore32beO32 { addr: AddrO32, val: XReg },
    /// Stores a register, in big-endian order, at a register plus a
    /// constant.
    Xstore64beO32 { addr: AddrO32, val: XReg },
    /// Loads the bits of a single-precision number, in little-endian
    /// order, at a register plus a constant.
    Fload32leO32 { dst: FReg, addr: AddrO32 },
    /// Loads the bits of a double-precision number, in little-endian
    /// order, at a register plus a constant.
    Fload64leO32 { dst: FReg, addr: AddrO32 },
    /// Stores the bits of a single-precision number, in little-endian
    /// order, at a register plus a constant.
    Fstore32leO32 { addr: AddrO32, src: FReg },
    /// Stores the bits of a double-precision number, in little-endian
    /// order, at a register plus a constant.
    Fstore64leO32 { addr: AddrO32, src: FReg },
    /// Loads a 128-bit vector, in little-endian order, at a register plus
    /// a constant.
    Vload128leO32 { dst: VReg, addr: AddrO32 },
    /// Stores a 128-bit vector, in little-endian order, at a register
    /// plus a constant.
    Vstore128leO32 { addr: AddrO32, src: VReg },
    /// Loads the bits of a single-precision number, in little-endian
    /// order, at a register plus a constant, trapping if the register is
    /// null.
    Fload32leZ { dst: FReg, addr: AddrZ },
    /// Loads the bits of a double-precision number, in little-endian
    /// order, at a register plus a constant, trapping if the register is
    /// null.
    Fload64leZ { dst: FReg, addr: AddrZ },
    /// Stores the bits of a single-precision number, in little-endian
    /// order, at a register plus a constant, trapping if the register is
    /// null.
    Fstore32leZ { addr: AddrZ, src: FReg },
    /// Stores the bits of a double-precision number, in little-endian
    /// order, at a register plus a constant, trapping if the register is
    /// null.
    Fstore64leZ { addr: AddrZ, src: FReg },
    /// Loads a 128-bit vector, in little-endian order, at a register plus
    /// a constant, trapping if the register is null.
    Vload128leZ { dst: VReg, addr: AddrZ },
    /// Stores a 128-bit vector, in little-endian order, at a register
    /// plus a constant, trapping if the register is null.
    Vstore128leZ { addr: AddrZ, src: VReg },
    /// Loads the bits of a single-precision number, in little-endian
    /// order, in a heap, with the offset checked against the bound in a
    /// register.
    Fload32leG32 { dst: FReg, addr: AddrG32 },
    /// Loads the bits of a double-precision number, in little-endian
    /// order, in a heap, with the offset checked against the bound in a
    /// register.
    Fload64leG32 { dst: FReg, addr: AddrG32 },
    /// Stores the bits of a single-precision number, in little-endian
    /// order, in a heap, with the offset checked against the bound in a
    /// register.
    Fstore32leG32 { addr: AddrG32, src: FReg },
    /// Stores the bits of a double-precision number, in little-endian
    /// order, in a heap, with the offset checked against the bound in a
    /// register.
    Fstore64leG32 { addr: AddrG32, src: FReg },
    /// Loads a 128-bit vector, in little-endian order, in a heap, with
    /// the offset checked against the bound in a register.
    Vload128leG32 { dst: VReg, addr: AddrG32 },
    /// Stores a 128-bit vector, in little-endian order, in a heap, with
    /// the offset checked against the bound in a register.
    Vstore128leG32 { addr: AddrG32, src: VReg },
    /// Loads the bits of a single-precision number, in big-endian order,
    /// at a register plus a constant.
    Fload32beO32 { dst: FReg, addr: AddrO32 },
    /// Loads the bits of a double-precision number, in big-endian order,
    /// at a register plus a constant.
    Fload64beO32 { dst: FReg, addr: AddrO32 },
    /// Stores the bits of a single-precision number, in big-endian order,
    /// at a register plus a constant.
    Fstore32beO32 { addr: AddrO32, src: FReg },
    /// Stores the bits of a double-precision number, in big-endian order,
    /// at a register plus a constant.
    Fstore64beO32 { addr: AddrO32, src: FReg },
    /// Adds two 128-bit numbers, wrapping around.
    Xadd128 { dst_lo: XReg, dst_hi: XReg, lhs_lo: XReg, lhs_hi: XReg, rhs_lo: XReg, rhs_hi: XReg },
    /// Subtracts two 128-bit numbers, wrapping around.
    Xsub128 { dst_lo: XReg, dst_hi: XReg, lhs_lo: XReg, lhs_hi: XReg, rhs_lo: XReg, rhs_hi: XReg },
    /// The 128-bit product of two unsigned 64-bit numbers.
    Xwidemul64U { dst_lo: XReg, dst_hi: XReg, lhs: XReg, rhs: XReg },
    /// The 128-bit product of two signed 64-bit numbers.
    Xwidemul64S { dst_lo: XReg, dst_hi: XReg, lhs: XReg, rhs: XReg },
    /// Copies a float register.
    Fmov { dst: FReg, src: FReg },
    /// Copies a vector register.
    Vmov { dst: VReg, src: VReg },
    /// Sets a float register to the single-precision number with the
    /// given bits.
    Fconst32 { dst: FReg, bits: u32 },
    /// Sets a float register to the double-precision number with the
    /// given bits.
    Fconst64 { dst: FReg, bits: u64 },
    /// Sets a vector register to a constant.
    Vconst128 { dst: VReg, val: u128 },
    /// Copies the bits of a single-precision number to the lower half of
    /// an integer register.
    BitcastIntFromFloat32 { dst: XReg, src: FReg },
    /// Copies the bits of a double-precision number to an integer
    /// register.
    BitcastIntFromFloat64 { dst: XReg, src: FReg },
    /// Copies the lower half of an integer register to a float register,
    /// as the bits of a single-precision number.
    BitcastFloatFromInt32 { dst: FReg, src: XReg },
    /// Copies an integer register to a float register, as the bits of a
    /// double-precision number.
    BitcastFloatFromInt64 { dst: FReg, src: XReg },
    /// Chooses between two single-precision numbers: `if_nonzero` unless
    /// the lower half of `cond` is zero.
    Fselect32 { dst: FReg, cond: XReg, if_nonzero: FReg, if_zero: FReg },
    /// Chooses between two double-precision numbers: `if_nonzero` unless
    /// the lower half of `cond` is zero.
    Fselect64 { dst: FReg, cond: XReg, if_nonzero: FReg, if_zero: FReg },
    /// The bitwise and of two vectors.
    Vband128 { operands: BinaryOperands<VReg> },
    /// The bitwise or of two vectors.
    Vbor128 { operands: BinaryOperands<VReg> },
    /// The bitwise exclusive or of two vectors.
    Vbxor128 { operands: BinaryOperands<VReg> },
    /// The bitwise complement of a vector.
    Vbnot128 { dst: VReg, src: VReg },
    /// Chooses bit by bit between two vectors: the bit of `x` where the
    /// bit of `c` is one, else the bit of `y`.
    Vbitselect128 { dst: VReg, c: VReg, x: VReg, y: VReg },
    /// Converts a single-precision number to a signed 32-bit integer,
    /// cutting off towards zero.
    X32FromF32S { dst: XReg, src: FReg },
    /// Converts a single-precision number to a signed 32-bit integer,
    /// cutting off towards zero and saturating: what is not a number
    /// gives zero, and a number beyond a bound of the integer type gives
    /// that bound.
    X32FromF32SSat { dst: XReg, src: FReg },
    /// Converts a single-precision number to a unsigned 32-bit integer,
    /// cutting off towards zero.
    X32FromF32U { dst: XReg, src: FReg },
    /// Converts a single-precision number to a unsigned 32-bit integer,
    /// cutting off towards zero and saturating: what is not a number
    /// gives zero, and a number beyond a bound of the integer type gives
    /// that bound.
    X32FromF32USat { dst: XReg, src: FReg },
    /// Converts a double-precision number to a signed 32-bit integer,
    /// cutting off towards zero.
    X32FromF64S { dst: XReg, src: FReg },
    /// Converts a double-precision number to a signed 32-bit integer,
    /// cutting off towards zero and saturating: what is not a number
    /// gives zero, and a number beyond a bound of the integer type gives
    /// that bound.
    X32FromF64SSat { dst: XReg, src: FReg },
    /// Converts a double-precision number to a unsigned 32-bit integer,
    /// cutting off towards zero.
    X32FromF64U { dst: XReg, src: FReg },
    /// Converts a double-precision number to a unsigned 32-bit integer,
    /// cutting off towards zero and saturating: what is not a number
    /// gives zero, and a number beyond a bound of the integer type gives
    /// that bound.
    X32FromF64USat { dst: XReg, src: FReg },
    /// Converts a single-precision number to a signed 64-bit integer,
    /// cutting off towards zero.
    X64FromF32S { dst: XReg, src: FReg },
    /// Converts a single-precision number to a signed 64-bit integer,
    /// cutting off towards zero and saturating: what is not a number
    /// gives zero, and a number beyond a bound of the integer type gives
    /// that bound.
    X64FromF32SSat { dst: XReg, src: FReg },
    /// Converts a single-precision number to a unsigned 64-bit integer,
    /// cutting off towards zero.
    X64FromF32U { dst: XReg, src: FReg },
    /// Converts a single-precision number to a unsigned 64-bit integer,
    /// cutting off towards zero and saturating: what is not a number
    /// gives zero, and a number beyond a bound of the integer type gives
    /// that bound.
    X64FromF32USat { dst: XReg, src: FReg },
    /// Converts a double-precision number to a signed 64-bit integer,
    /// cutting off towards zero.
    X64FromF64S { dst: XReg, src: FReg },
    /// Converts a double-precision number to a signed 64-bit integer,
    /// cutting off towards zero and saturating: what is not a number
    /// gives zero, and a number beyond a bound of the integer type gives
    /// that bound.
    X64FromF64SSat { dst: XReg, src: FReg },
    /// Converts a double-precision number to a unsigned 64-bit integer,
    /// cutting off towards zero.
    X64FromF64U { dst: XReg, src: FReg },
    /// Converts a double-precision number to a unsigned 64-bit integer,
    /// cutting off towards zero and saturating: what is not a number
    /// gives zero, and a number beyond a bound of the integer type gives
    /// that bound.
    X64FromF64USat { dst: XReg, src: FReg },
    /// Adds lane by lane, in 16 lanes of 8 bits, wrapping around.
    Vaddi8x16 { operands: BinaryOperands<VReg> },
    /// Subtracts lane by lane, in 16 lanes of 8 bits, wrapping around.
    Vsubi8x16 { operands: BinaryOperands<VReg> },
    /// Multiplies lane by lane, in 16 lanes of 8 bits, wrapping around.
    Vmuli8x16 { operands: BinaryOperands<VReg> },
    /// Adds lane by lane, in 8 lanes of 16 bits, wrapping around.
    Vaddi16x8 { operands: BinaryOperands<VReg> },
    /// Subtracts lane by lane, in 8 lanes of 16 bits, wrapping around.
    Vsubi16x8 { operands: BinaryOperands<VReg> },
    /// Multiplies lane by lane, in 8 lanes of 16 bits, wrapping around.
    Vmuli16x8 { operands: BinaryOperands<VReg> },
    /// Adds lane by lane, in 4 lanes of 32 bits, wrapping around.
    Vaddi32x4 { operands: BinaryOperands<VReg> },
    /// Subtracts lane by lane, in 4 lanes of 32 bits, wrapping around.
    Vsubi32x4 { operands: BinaryOperands<VReg> },
    /// Multiplies lane by lane, in 4 lanes of 32 bits, wrapping around.
    Vmuli32x4 { operands: BinaryOperands<VReg> },
    /// Adds lane by lane, in 2 lanes of 64 bits, wrapping around.
    Vaddi64x2 { operands: BinaryOperands<VReg> },
    /// Subtracts lane by lane, in 2 lanes of 64 bits, wrapping around.
    Vsubi64x2 { operands: BinaryOperands<VReg> },
    /// Multiplies lane by lane, in 2 lanes of 64 bits, wrapping around.
    Vmuli64x2 { operands: BinaryOperands<VReg> },
    /// Adds signed numbers lane by lane, in 16 lanes of 8 bits: a sum
    /// beyond a bound of the lane gives that bound.
    Vaddi8x16Sat { operands: BinaryOperands<VReg> },
    /// Adds unsigned numbers lane by lane, in 16 lanes of 8 bits: a sum
    /// beyond the greatest number of the lane gives that number.
    Vaddu8x16Sat { operands: BinaryOperands<VReg> },
    /// Subtracts signed numbers lane by lane, in 16 lanes of 8 bits: a
    /// difference beyond a bound of the lane gives that bound.
    Vsubi8x16Sat { operands: BinaryOperands<VReg> },
    /// Subtracts unsigned numbers lane by lane, in 16 lanes of 8 bits: a
    /// difference below zero gives zero.
    Vsubu8x16Sat { operands: BinaryOperands<VReg> },
    /// Adds signed numbers lane by lane, in 8 lanes of 16 bits: a sum
    /// beyond a bound of the lane gives that bound.
    Vaddi16x8Sat { operands: BinaryOperands<VReg> },
    /// Adds unsigned numbers lane by lane, in 8 lanes of 16 bits: a sum
    /// beyond the greatest number of the lane gives that number.
    Vaddu16x8Sat { operands: BinaryOperands<VReg> },
    /// Subtracts signed numbers lane by lane, in 8 lanes of 16 bits: a
    /// difference beyond a bound of the lane gives that bound.
    Vsubi16x8Sat { operands: BinaryOperands<VReg> },
    /// Subtracts unsigned numbers lane by lane, in 8 lanes of 16 bits: a
    /// difference below zero gives zero.
    Vsubu16x8Sat { operands: BinaryOperands<VReg> },
    /// Shifts each of 16 lanes of 8 bits left by the amount in `src2`,
    /// taken modulo 8.
    Vshli8x16 { operands: BinaryOperands<VReg, VReg, XReg> },
    /// Shifts each of 16 lanes of 8 bits right by the amount in `src2`,
    /// taken modulo 8; the sign fills in.
    Vshri8x16S { operands: BinaryOperands<VReg, VReg, XReg> },
    /// Shifts each of 16 lanes of 8 bits right by the amount in `src2`,
    /// taken modulo 8; zeros fill in.
    Vshri8x16U { operands: BinaryOperands<VReg, VReg, XReg> },
    /// Shifts each of 8 lanes of 16 bits left by the amount in `src2`,
    /// taken modulo 16.
    Vshli16x8 { operands: BinaryOperands<VReg, VReg, XReg> },
    /// Shifts each of 8 lanes of 16 bits right by the amount in `src2`,
    /// taken modulo 16; the sign fills in.
    Vshri16x8S { operands: BinaryOperands<VReg, VReg, XReg> },
    /// Shifts each of 8 lanes of 16 bits right by the amount in `src2`,
    /// taken modulo 16; zeros fill in.
    Vshri16x8U { operands: BinaryOperands<VReg, VReg, XReg> },
    /// Shifts each of 4 lanes of 32 bits left by the amount in `src2`,
    /// taken modulo 32.
    Vshli32x4 { operands: BinaryOperands<VReg, VReg, XReg> },
    /// Shifts each of 4 lanes of 32 bits right by the amount in `src2`,
    /// taken modulo 32; the sign fills in.
    Vshri32x4S { operands: BinaryOperands<VReg, VReg, XReg> },
    /// Shifts each of 4 lanes of 32 bits right by the amount in `src2`,
    /// taken modulo 32; zeros fill in.
    Vshri32x4U { operands: BinaryOperands<VReg, VReg, XReg> },
    /// Shifts each of 2 lanes of 64 bits left by the amount in `src2`,
    /// taken modulo 64.
    Vshli64x2 { operands: BinaryOperands<VReg, VReg, XReg> },
    /// Shifts each of 2 lanes of 64 bits right by the amount in `src2`,
    /// taken modulo 64; the sign fills in.
    Vshri64x2S { operands: BinaryOperands<VReg, VReg, XReg> },
    /// Shifts each of 2 lanes of 64 bits right by the amount in `src2`,
    /// taken modulo 64; zeros fill in.
    Vshri64x2U { operands: BinaryOperands<VReg, VReg, XReg> },
    /// Compares lane by lane, in 16 lanes of 8 bits: a lane of the result
    /// is all ones where the lanes are equal, else zero.
    Veq8x16 { operands: BinaryOperands<VReg> },
    /// Compares lane by lane, in 16 lanes of 8 bits: a lane of the result
    /// is all ones where the lanes differ, else zero.
    Vneq8x16 { operands: BinaryOperands<VReg> },
    /// Compares lane by lane, in 16 lanes of 8 bits: a lane of the result
    /// is all ones where the lanes are in strictly increasing order as
    /// signed numbers, else zero.
    Vslt8x16 { operands: BinaryOperands<VReg> },
    /// Compares lane by lane, in 16 lanes of 8 bits: a lane of the result
    /// is all ones where the lanes are in increasing order as signed
    /// numbers, else zero.
    Vslteq8x16 { operands: BinaryOperands<VReg> },
    /// Compares lane by lane, in 16 lanes of 8 bits: a lane of the result
    /// is all ones where the lanes are in strictly increasing order as
    /// unsigned numbers, else zero.
    Vult8x16 { operands: BinaryOperands<VReg> },
    /// Compares lane by lane, in 16 lanes of 8 bits: a lane of the result
    /// is all ones where the lanes are in increasing order as unsigned
    /// numbers, else zero.
    Vulteq8x16 { operands: BinaryOperands<VReg> },
    /// Compares lane by lane, in 8 lanes of 16 bits: a lane of the result
    /// is all ones where the lanes are equal, else zero.
    Veq16x8 { operands: BinaryOperands<VReg> },
    /// Compares lane by lane, in 8 lanes of 16 bits: a lane of the result
    /// is all ones where the lanes differ, else zero.
    Vneq16x8 { operands: BinaryOperands<VReg> },
    /// Compares lane by lane, in 8 lanes of 16 bits: a lane of the result
    /// is all ones where the lanes are in strictly increasing order as
    /// signed numbers, else zero.
    Vslt16x8 { operands: BinaryOperands<VReg> },
    /// Compares lane by lane, in 8 lanes of 16 bits: a lane of the result
    /// is all ones where the lanes are in increasing order as signed
    /// numbers, else zero.
    Vslteq16x8 { operands: BinaryOperands<VReg> },
    /// Compares lane by lane, in 8 lanes of 16 bits: a lane of the result
    /// is all ones where the lanes are in strictly increasing order as
    /// unsigned numbers, else zero.
    Vult16x8 { operands: BinaryOperands<VReg> },
    /// Compares lane by lane, in 8 lanes of 16 bits: a lane of the result
    /// is all ones where the lanes are in increasing order as unsigned
    /// numbers, else zero.
    Vulteq16x8 { operands: BinaryOperands<VReg> },
    /// Compares lane by lane, in 4 lanes of 32 bits: a lane of the result
    /// is all ones where the lanes are equal, else zero.
    Veq32x4 { operands: BinaryOperands<VReg> },
    /// Compares lane by lane, in 4 lanes of 32 bits: a lane of the result
    /// is all ones where the lanes differ, else zero.
    Vneq32x4 { operands: BinaryOperands<VReg> },
    /// Compares lane by lane, in 4 lanes of 32 bits: a lane of the result
    /// is all ones where the lanes are in strictly increasing order as
    /// signed numbers, else zero.
    Vslt32x4 { operands: BinaryOperands<VReg> },
    /// Compares lane by lane, in 4 lanes of 32 bits: a lane of the result
    /// is all ones where the lanes are in increasing order as signed
    /// numbers, else zero.
    Vslteq32x4 { operands: BinaryOperands<VReg> },
    /// Compares lane by lane, in 4 lanes of 32 bits: a lane of the result
    /// is all ones where the lanes are in strictly increasing order as
    /// unsigned numbers, else zero.
    Vult32x4 { operands: BinaryOperands<VReg> },
    /// Compares lane by lane, in 4 lanes of 32 bits: a lane of the result
    /// is all ones where the lanes are in increasing order as unsigned
    /// numbers, else zero.
    Vulteq32x4 { operands: BinaryOperands<VReg> },
    /// Compares lane by lane, in 2 lanes of 64 bits: a lane of the result
    /// is all ones where the lanes are equal, else zero.
    Veq64x2 { operands: BinaryOperands<VReg> },
    /// Compares lane by lane, in 2 lanes of 64 bits: a lane of the result
    /// is all ones where the lanes differ, else zero.
    Vneq64x2 { operands: BinaryOperands<VReg> },
    /// Compares lane by lane, in 2 lanes of 64 bits: a lane of the result
    /// is all ones where the lanes are in strictly increasing order as
    /// signed numbers, else zero.
    Vslt64x2 { operands: BinaryOperands<VReg> },
    /// Compares lane by lane, in 2 lanes of 64 bits: a lane of the result
    /// is all ones where the lanes are in increasing order as signed
    /// numbers, else zero.
    Vslteq64x2 { operands: BinaryOperands<VReg> },
    /// Compares lane by lane, in 2 lanes of 64 bits: a lane of the result
    /// is all ones where the lanes are in strictly increasing order as
    /// unsigned numbers, else zero.
    Vult64x2 { operands: BinaryOperands<VReg> },
    /// Compares lane by lane, in 2 lanes of 64 bits: a lane of the result
    /// is all ones where the lanes are in increasing order as unsigned
    /// numbers, else zero.
    Vulteq64x2 { operands: BinaryOperands<VReg> },
    /// Negates each of 16 lanes of 8 bits, wrapping around.
    Vneg8x16 { dst: VReg, src: VReg },
    /// The absolute value of each of 16 lanes of 8 bits as a signed
    /// number, wrapping around for the least number.
    Vabs8x16 { dst: VReg, src: VReg },
    /// Negates each of 8 lanes of 16 bits, wrapping around.
    Vneg16x8 { dst: VReg, src: VReg },
    /// The absolute value of each of 8 lanes of 16 bits as a signed
    /// number, wrapping around for the least number.
    Vabs16x8 { dst: VReg, src: VReg },
    /// Negates each of 4 lanes of 32 bits, wrapping around.
    Vneg32x4 { dst: VReg, src: VReg },
    /// The absolute value of each of 4 lanes of 32 bits as a signed
    /// number, wrapping around for the least number.
    Vabs32x4 { dst: VReg, src: VReg },
    /// Negates each of 2 lanes of 64 bits, wrapping around.
    Vneg64x2 { dst: VReg, src: VReg },
    /// The absolute value of each of 2 lanes of 64 bits as a signed
    /// number, wrapping around for the least number.
    Vabs64x2 { dst: VReg, src: VReg },
    /// The lesser of the signed numbers, lane by lane, in 16 lanes of 8
    /// bits.
    Vmin8x16S { operands: BinaryOperands<VReg> },
    /// The lesser of the unsigned numbers, lane by lane, in 16 lanes of 8
    /// bits.
    Vmin8x16U { operands: BinaryOperands<VReg> },
    /// The greater of the signed numbers, lane by lane, in 16 lanes of 8
    /// bits.
    Vmax8x16S { operands: BinaryOperands<VReg> },
    /// The greater of the unsigned numbers, lane by lane, in 16 lanes of
    /// 8 bits.
    Vmax8x16U { operands: BinaryOperands<VReg> },
    /// The lesser of the signed numbers, lane by lane, in 8 lanes of 16
    /// bits.
    Vmin16x8S { operands: BinaryOperands<VReg> },
    /// The lesser of the unsigned numbers, lane by lane, in 8 lanes of 16
    /// bits.
    Vmin16x8U { operands: BinaryOperands<VReg> },
    /// The greater of the signed numbers, lane by lane, in 8 lanes of 16
    /// bits.
    Vmax16x8S { operands: BinaryOperands<VReg> },
    /// The greater of the unsigned numbers, lane by lane, in 8 lanes of
    /// 16 bits.
    Vmax16x8U { operands: BinaryOperands<VReg> },
    /// The lesser of the signed numbers, lane by lane, in 4 lanes of 32
    /// bits.
    Vmin32x4S { operands: BinaryOperands<VReg> },
    /// The lesser of the unsigned numbers, lane by lane, in 4 lanes of 32
    /// bits.
    Vmin32x4U { operands: BinaryOperands<VReg> },
    /// The greater of the signed numbers, lane by lane, in 4 lanes of 32
    /// bits.
    Vmax32x4S { operands: BinaryOperands<VReg> },
    /// The greater of the unsigned numbers, lane by lane, in 4 lanes of
    /// 32 bits.
    Vmax32x4U { operands: BinaryOperands<VReg> },
    /// The average of the unsigned numbers, lane by lane, in 16 lanes of
    /// 8 bits, rounded up.
    Vavground8x16 { operands: BinaryOperands<VReg> },
    /// The average of the unsigned numbers, lane by lane, in 8 lanes of
    /// 16 bits, rounded up.
    Vavground16x8 { operands: BinaryOperands<VReg> },
    /// Counts the one bits of each of 16 lanes of 8 bits.
    Vpopcnt8x16 { dst: VReg, src: VReg },
    /// Multiplies signed fixed-point numbers with 15 bits of fraction
    /// lane by lane, in 8 lanes of 16 bits, rounding to nearest and
    /// keeping within the bounds of the lane.
    Vqmulrsi16x8 { operands: BinaryOperands<VReg> },
    /// Negates each of 4 single-precision numbers: the sign bit of each
    /// changes, and no other.
    Vnegf32x4 { dst: VReg, src: VReg },
    /// Negates each of 2 double-precision numbers: the sign bit of each
    /// changes, and no other.
    Vnegf64x2 { dst: VReg, src: VReg },
    /// The absolute value of each of 4 single-precision numbers: the sign
    /// bit of each is cleared, and no other bit changes.
    Vabsf32x4 { dst: VReg, src: VReg },
    /// The absolute value of each of 2 double-precision numbers: the sign
    /// bit of each is cleared, and no other bit changes.
    Vabsf64x2 { dst: VReg, src: VReg },
    /// Converts each of 4 single-precision numbers to a signed integer of
    /// 32 bits, cutting off towards zero and saturating: what is not a
    /// number gives zero, and a number beyond a bound of the integer type
    /// gives that bound.
    Vi32x4FromF32x4S { dst: VReg, src: VReg },
    /// Converts each of 4 single-precision numbers to a unsigned integer
    /// of 32 bits, cutting off towards zero and saturating: what is not a
    /// number gives zero, and a number beyond a bound of the integer type
    /// gives that bound.
    Vi32x4FromF32x4U { dst: VReg, src: VReg },
    /// Converts each of 2 double-precision numbers to a signed integer of
    /// 64 bits, cutting off towards zero and saturating: what is not a
    /// number gives zero, and a number beyond a bound of the integer type
    /// gives that bound.
    Vi64x2FromF64x2S { dst: VReg, src: VReg },
    /// Converts each of 2 double-precision numbers to a unsigned integer
    /// of 64 bits, cutting off towards zero and saturating: what is not a
    /// number gives zero, and a number beyond a bound of the integer type
    /// gives that bound.
    Vi64x2FromF64x2U { dst: VReg, src: VReg },
    /// Copies the low 8 bits of an integer register to each of 16 lanes.
    Vsplatx8 { dst: VReg, src: XReg },
    /// Copies the low 16 bits of an integer register to each of 8 lanes.
    Vsplatx16 { dst: VReg, src: XReg },
    /// Copies the low 32 bits of an integer register to each of 4 lanes.
    Vsplatx32 { dst: VReg, src: XReg },
    /// Copies the low 64 bits of an integer register to each of 2 lanes.
    Vsplatx64 { dst: VReg, src: XReg },
    /// Copies the bits of a single-precision number to each of 4 lanes.
    Vsplatf32 { dst: VReg, src: FReg },
    /// Copies the bits of a double-precision number to each of 2 lanes.
    Vsplatf64 { dst: VReg, src: FReg },
    /// Replaces lane `lane` of 16 lanes of 8 bits by the low 8 bits of an
    /// integer register.
    Vinsertx8 { operands: BinaryOperands<VReg, VReg, XReg>, lane: u8 },
    /// Replaces lane `lane` of 8 lanes of 16 bits by the low 16 bits of
    /// an integer register.
    Vinsertx16 { operands: BinaryOperands<VReg, VReg, XReg>, lane: u8 },
    /// Replaces lane `lane` of 4 lanes of 32 bits by the low 32 bits of
    /// an integer register.
    Vinsertx32 { operands: BinaryOperands<VReg, VReg, XReg>, lane: u8 },
    /// Replaces lane `lane` of 2 lanes of 64 bits by the low 64 bits of
    /// an integer register.
    Vinsertx64 { operands: BinaryOperands<VReg, VReg, XReg>, lane: u8 },
    /// Replaces lane `lane` of 4 lanes of 32 bits by the bits of a
    /// floating-point number.
    Vinsertf32 { operands: BinaryOperands<VReg, VReg, FReg>, lane: u8 },
    /// Replaces lane `lane` of 2 lanes of 64 bits by the bits of a
    /// floating-point number.
    Vinsertf64 { operands: BinaryOperands<VReg, VReg, FReg>, lane: u8 },
    /// Widens the first 8 of 16 lanes of 8 bits to lanes of 16 bits, with
    /// sign extension.
    Vwidenlow8x16S { dst: VReg, src: VReg },
    /// Widens the first 8 of 16 lanes of 8 bits to lanes of 16 bits, with
    /// zero extension.
    Vwidenlow8x16U { dst: VReg, src: VReg },
    /// Widens the last 8 of 16 lanes of 8 bits to lanes of 16 bits, with
    /// sign extension.
    Vwidenhigh8x16S { dst: VReg, src: VReg },
    /// Widens the last 8 of 16 lanes of 8 bits to lanes of 16 bits, with
    /// zero extension.
    Vwidenhigh8x16U { dst: VReg, src: VReg },
    /// Widens the first 4 of 8 lanes of 16 bits to lanes of 32 bits, with
    /// sign extension.
    Vwidenlow16x8S { dst: VReg, src: VReg },
    /// Widens the first 4 of 8 lanes of 16 bits to lanes of 32 bits, with
    /// zero extension.
    Vwidenlow16x8U { dst: VReg, src: VReg },
    /// Widens the last 4 of 8 lanes of 16 bits to lanes of 32 bits, with
    /// sign extension.
    Vwidenhigh16x8S { dst: VReg, src: VReg },
    /// Widens the last 4 of 8 lanes of 16 bits to lanes of 32 bits, with
    /// zero extension.
    Vwidenhigh16x8U { dst: VReg, src: VReg },
    /// Widens the first 2 of 4 lanes of 32 bits to lanes of 64 bits, with
    /// sign extension.
    Vwidenlow32x4S { dst: VReg, src: VReg },
    /// Widens the first 2 of 4 lanes of 32 bits to lanes of 64 bits, with
    /// zero extension.
    Vwidenlow32x4U { dst: VReg, src: VReg },
    /// Widens the last 2 of 4 lanes of 32 bits to lanes of 64 bits, with
    /// sign extension.
    Vwidenhigh32x4S { dst: VReg, src: VReg },
    /// Widens the last 2 of 4 lanes of 32 bits to lanes of 64 bits, with
    /// zero extension.
    Vwidenhigh32x4U { dst: VReg, src: VReg },
    /// Narrows the signed numbers in the 8 lanes of 16 bits of `src1` and
    /// then of `src2` to signed numbers of 8 bits; a number beyond a
    /// bound of the narrow lane gives that bound.
    Vnarrow16x8S { operands: BinaryOperands<VReg> },
    /// Narrows the signed numbers in the 8 lanes of 16 bits of `src1` and
    /// then of `src2` to unsigned numbers of 8 bits; a number beyond a
    /// bound of the narrow lane gives that bound.
    Vnarrow16x8U { operands: BinaryOperands<VReg> },
    /// Narrows the signed numbers in the 4 lanes of 32 bits of `src1` and
    /// then of `src2` to signed numbers of 16 bits; a number beyond a
    /// bound of the narrow lane gives that bound.
    Vnarrow32x4S { operands: BinaryOperands<VReg> },
    /// Narrows the signed numbers in the 4 lanes of 32 bits of `src1` and
    /// then of `src2` to unsigned numbers of 16 bits; a number beyond a
    /// bound of the narrow lane gives that bound.
    Vnarrow32x4U { operands: BinaryOperands<VReg> },
    /// Narrows the signed numbers in the 2 lanes of 64 bits of `src1` and
    /// then of `src2` to signed numbers of 32 bits; a number beyond a
    /// bound of the narrow lane gives that bound.
    Vnarrow64x2S { operands: BinaryOperands<VReg> },
    /// Narrows the signed numbers in the 2 lanes of 64 bits of `src1` and
    /// then of `src2` to unsigned numbers of 32 bits; a number beyond a
    /// bound of the narrow lane gives that bound.
    Vnarrow64x2U { operands: BinaryOperands<VReg> },
    /// Narrows the unsigned numbers in the 2 lanes of 64 bits of `src1`
    /// and then of `src2` to 32 bits; a number beyond the greatest number
    /// of 32 bits gives that number.
    Vunarrow64x2U { operands: BinaryOperands<VReg> },
    /// Adds neighbouring lanes of 16 bits, wrapping around: the sums of
    /// `src1` fill the first 4 lanes, those of `src2` the last 4.
    Vaddpairwisei16x8S { operands: BinaryOperands<VReg> },
    /// Adds neighbouring lanes of 32 bits, wrapping around: the sums of
    /// `src1` fill the first 2 lanes, those of `src2` the last 2.
    Vaddpairwisei32x4S { operands: BinaryOperands<VReg> },
    /// Picks lanes of 8 bits: lane `i` of the result is the lane of
    /// `src1` whose number lane `i` of `src2` holds, or zero for a number
    /// of 16 or more.
    Vswizzlei8x16 { operands: BinaryOperands<VReg> },
    /// Picks lanes of 8 bits from two vectors: byte `i` of `mask` is the
    /// number of a lane of `src1`, or 16 more than the number of a lane
    /// of `src2`.
    Vshuffle { dst: VReg, src1: VReg, src2: VReg, mask: u128 },
    /// Loads 8 numbers of 8 bits, in little-endian order, at a register
    /// plus a constant, trapping if the register is null, and widens them
    /// to 8 lanes of 16 bits with sign extension.
    Vload8x8SZ { dst: VReg, addr: AddrZ },
    /// Loads 8 numbers of 8 bits, in little-endian order, at a register
    /// plus a constant, trapping if the register is null, and widens them
    /// to 8 lanes of 16 bits with zero extension.
    Vload8x8UZ { dst: VReg, addr: AddrZ },
    /// Loads 4 numbers of 16 bits, in little-endian order, at a register
    /// plus a constant, trapping if the register is null, and widens them
    /// to 4 lanes of 32 bits with sign extension.
    Vload16x4leSZ { dst: VReg, addr: AddrZ },
    /// Loads 4 numbers of 16 bits, in little-endian order, at a register
    /// plus a constant, trapping if the register is null, and widens them
    /// to 4 lanes of 32 bits with zero extension.
    Vload16x4leUZ { dst: VReg, addr: AddrZ },
    /// Loads 2 numbers of 32 bits, in little-endian order, at a register
    /// plus a constant, trapping if the register is null, and widens them
    /// to 2 lanes of 64 bits with sign extension.
    Vload32x2leSZ { dst: VReg, addr: AddrZ },
    /// Loads 2 numbers of 32 bits, in little-endian order, at a register
    /// plus a constant, trapping if the register is null, and widens them
    /// to 2 lanes of 64 bits with zero extension.
    Vload32x2leUZ { dst: VReg, addr: AddrZ },
    /// Copies lane `lane` of 16 lanes of 8 bits to an integer register,
    /// with zero extension.
    Xextractv8x16 { dst: XReg, src: VReg, lane: u8 },
    /// Copies lane `lane` of 8 lanes of 16 bits to an integer register,
    /// with zero extension.
    Xextractv16x8 { dst: XReg, src: VReg, lane: u8 },
    /// Copies lane `lane` of 4 lanes of 32 bits to an integer register,
    /// with zero extension.
    Xextractv32x4 { dst: XReg, src: VReg, lane: u8 },
    /// Copies lane `lane` of 2 lanes of 64 bits to an integer register,
    /// with zero extension.
    Xextractv64x2 { dst: XReg, src: VReg, lane: u8 },
    /// Copies lane `lane` of 4 lanes of 32 bits to a float register, as
    /// the bits of a floating-point number.
    Fextractv32x4 { dst: FReg, src: VReg, lane: u8 },
    /// Copies lane `lane` of 2 lanes of 64 bits to a float register, as
    /// the bits of a floating-point number.
    Fextractv64x2 { dst: FReg, src: VReg, lane: u8 },
    /// Gathers the highest bit of each of 16 lanes of 8 bits: bit `i` of
    /// the result is the highest bit of lane `i`.
    Vbitmask8x16 { dst: XReg, src: VReg },
    /// Sets the lower half of `dst` to 1 if every one of 16 lanes of 8
    /// bits is other than zero, else to 0.
    Valltrue8x16 { dst: XReg, src: VReg },
    /// Sets the lower half of `dst` to 1 if one of 16 lanes of 8 bits is
    /// other than zero, else to 0.
    Vanytrue8x16 { dst: XReg, src: VReg },
    /// Gathers the highest bit of each of 8 lanes of 16 bits: bit `i` of
    /// the result is the highest bit of lane `i`.
    Vbitmask16x8 { dst: XReg, src: VReg },
    /// Sets the lower half of `dst` to 1 if every one of 8 lanes of 16
    /// bits is other than zero, else to 0.
    Valltrue16x8 { dst: XReg, src: VReg },
    /// Sets the lower half of `dst` to 1 if one of 8 lanes of 16 bits is
    /// other than zero, else to 0.
    Vanytrue16x8 { dst: XReg, src: VReg },
    /// Gathers the highest bit of each of 4 lanes of 32 bits: bit `i` of
    /// the result is the highest bit of lane `i`.
    Vbitmask32x4 { dst: XReg, src: VReg },
    /// Sets the lower half of `dst` to 1 if every one of 4 lanes of 32
    /// bits is other than zero, else to 0.
    Valltrue32x4 { dst: XReg, src: VReg },
    /// Sets the lower half of `dst` to 1 if one of 4 lanes of 32 bits is
    /// other than zero, else to 0.
    Vanytrue32x4 { dst: XReg, src: VReg },
    /// Gathers the highest bit of each of 2 lanes of 64 bits: bit `i` of
    /// the result is the highest bit of lane `i`.
    Vbitmask64x2 { dst: XReg, src: VReg },
    /// Sets the lower half of `dst` to 1 if every one of 2 lanes of 64
    /// bits is other than zero, else to 0.
    Valltrue64x2 { dst: XReg, src: VReg },
    /// Sets the lower half of `dst` to 1 if one of 2 lanes of 64 bits is
    /// other than zero, else to 0.
    Vanytrue64x2 { dst: XReg, src: VReg },
    /// Chooses between two vectors: `if_nonzero` unless the lower half of
    /// `cond` is zero.
    Vselect { dst: VReg, cond: XReg, if_nonzero: VReg, if_zero: VReg },
    /// Negates a single-precision number: the sign bit changes, and no
    /// other.
    Fneg32 { dst: FReg, src: FReg },
    /// The absolute value of a single-precision number: the sign bit is
    /// cleared, and no other bit changes.
    Fabs32 { dst: FReg, src: FReg },
    /// The single-precision number `src1` with the sign of `src2`.
    Fcopysign32 { operands: BinaryOperands<FReg> },
    /// Negates a double-precision number: the sign bit changes, and no
    /// other.
    Fneg64 { dst: FReg, src: FReg },
    /// The absolute value of a double-precision number: the sign bit is
    /// cleared, and no other bit changes.
    Fabs64 { dst: FReg, src: FReg },
    /// The double-precision number `src1` with the sign of `src2`.
    Fcopysign64 { operands: BinaryOperands<FReg> },
}

impl InterpView {
    /// May the instruction be carried out? The bytecode vouches for what
    /// its instructions take for granted: that an access to memory lies
    /// in memory, and that the stack pointer is in the stack where the
    /// stack is used.
    pub open spec fn ready(self, op: Op) -> bool {
        match op {
            Op::StackAlloc32 { amt } => {
                &&& self.state.sp_valid()
            },
            Op::StackFree32 { amt } => {
                &&& self.state.sp_valid()
                &&& self.state.sp() + amt <= self.state.stack_end()
            },
            Op::PushFrame => {
                &&& self.wf()
                &&& self.state.sp_valid()
            },
            Op::PopFrame => {
                &&& self.wf()
                &&& self.state.in_bounds(self.state.fp, 16)
            },
            Op::PushFrameSave { amt, regs } => {
                &&& self.wf()
                &&& self.state.sp_valid()
                &&& 8 * regs.spec_members(16).len() <= amt
            },
            Op::PopFrameRestore { amt, regs } => {
                &&& self.wf()
                &&& spec_restorable(
                    self.state,
                    regs.spec_members(16),
                    amt as int,
                    regs.spec_members(16).len(),
                )
                &&& spec_restored(
                    self.state,
                    regs.spec_members(16),
                    amt as int,
                    regs.spec_members(16).len(),
                ).in_bounds(self.state.fp, 16)
            },
            Op::Xload8U32O32 { dst, addr } => {
                &&& self.can_access(addr, 1)
            },
            Op::Xload8S32O32 { dst, addr } => {
                &&& self.can_access(addr, 1)
            },
            Op::Xload16leU32O32 { dst, addr } => {
                &&& self.can_access(addr, 2)
            },
            Op::Xload16leS32O32 { dst, addr } => {
                &&& self.can_access(addr, 2)
            },
            Op::Xload32leO32 { dst, addr } => {
                &&& self.can_access(addr, 4)
            },
            Op::Xload64leO32 { dst, addr } => {
                &&& self.can_access(addr, 8)
            },
            Op::Xstore8O32 { addr, val } => {
                &&& self.can_access(addr, 1)
            },
            Op::Xstore16leO32 { addr, val } => {
                &&& self.can_access(addr, 2)
            },
            Op::Xstore32leO32 { addr, val } => {
                &&& self.can_access(addr, 4)
            },
            Op::Xstore64leO32 { addr, val } => {
                &&& self.can_access(addr, 8)
            },
            Op::Xload8U32Z { dst, addr } => {
                &&& self.can_access(addr, 1)
            },
            Op::Xload8S32Z { dst, addr } => {
                &&& self.can_access(addr, 1)
            },
            Op::Xload16leU32Z { dst, addr } => {
                &&& self.can_access(addr, 2)
            },
            Op::Xload16leS32Z { dst, addr } => {
                &&& self.can_access(addr, 2)
            },
            Op::Xload32leZ { dst, addr } => {
                &&& self.can_access(addr, 4)
            },
            Op::Xload64leZ { dst, addr } => {
                &&& self.can_access(addr, 8)
            },
            Op::Xstore8Z { addr, val } => {
                &&& self.can_access(addr, 1)
            },
            Op::Xstore16leZ { addr, val } => {
                &&& self.can_access(addr, 2)
            },
            Op::Xstore32leZ { addr, val } => {
                &&& self.can_access(addr, 4)
            },
            Op::Xstore64leZ { addr, val } => {
                &&& self.can_access(addr, 8)
            },
            Op::Xload8U32G32 { dst, addr } => {
                &&& self.can_access(addr, 1)
            },
            Op::Xload8S32G32 { dst, addr } => {
                &&& self.can_access(addr, 1)
            },
            Op::Xload16leU32G32 { dst, addr } => {
                &&& self.can_access(addr, 2)
            },
            Op::Xload16leS32G32 { dst, addr } => {
                &&& self.can_access(addr, 2)
            },
            Op::Xload32leG32 { dst, addr } => {
                &&& self.can_access(addr, 4)
            },
            Op::Xload64leG32 { dst, addr } => {
                &&& self.can_access(addr, 8)
            },
            Op::Xstore8G32 { addr, val } => {
                &&& self.can_access(addr, 1)
            },
            Op::Xstore16leG32 { addr, val } => {
                &&& self.can_access(addr, 2)
            },
            Op::Xstore32leG32 { addr, val } => {
                &&& self.can_access(addr, 4)
            },
            Op::Xstore64leG32 { addr, val } => {
                &&& self.can_access(addr, 8)
            },
            Op::Xload8U32G32bne { dst, addr } => {
                &&& self.can_access(addr, 1)
            },
            Op::Xload8S32G32bne { dst, addr } => {
                &&& self.can_access(addr, 1)
            },
            Op::Xload16leU32G32bne { dst, addr } => {
                &&& self.can_access(addr, 2)
            },
            Op::Xload16leS32G32bne { dst, addr } => {
                &&& self.can_access(addr, 2)
            },
            Op::Xload32leG32bne { dst, addr } => {
                &&& self.can_access(addr, 4)
            },
            Op::Xload64leG32bne { dst, addr } => {
                &&& self.can_access(addr, 8)
            },
            Op::Xstore8G32bne { addr, val } => {
                &&& self.can_access(addr, 1)
            },
            Op::Xstore16leG32bne { addr, val } => {
                &&& self.can_access(addr, 2)
            },
            Op::Xstore32leG32bne { addr, val } => {
                &&& self.can_access(addr, 4)
            },
            Op::Xstore64leG32bne { addr, val } => {
                &&& self.can_access(addr, 8)
            },
            Op::Xload16beU32O32 { dst, addr } => {
                &&& self.can_access(addr, 2)
            },
            Op::Xload16beS32O32 { dst, addr } => {
                &&& self.can_access(addr, 2)
            },
            Op::Xload32beO32 { dst, addr } => {
                &&& self.can_access(addr, 4)
            },
            Op::Xload64beO32 { dst, addr } => {
                &&& self.can_access(addr, 8)
            },
            Op::Xstore16beO32 { addr, val } => {
                &&& self.can_access(addr, 2)
            },
            Op::Xstore32beO32 { addr, val } => {
                &&& self.can_access(addr, 4)
            },
            Op::Xstore64beO32 { addr, val } => {
                &&& self.can_access(addr, 8)
            },
            Op::Fload32leO32 { dst, addr } => {
                &&& self.can_access(addr, 4)
            },
            Op::Fload64leO32 { dst, addr } => {
                &&& self.can_access(addr, 8)
            },
            Op::Fstore32leO32 { addr, src } => {
                &&& self.can_access(addr, 4)
            },
            Op::Fstore64leO32 { addr, src } => {
                &&& self.can_access(addr, 8)
            },
            Op::Vload128leO32 { dst, addr } => {
                &&& self.can_access(addr, 16)
            },
            Op::Vstore128leO32 { addr, src } => {
                &&& self.can_access(addr, 16)
            },
            Op::Fload32leZ { dst, addr } => {
                &&& self.can_access(addr, 4)
            },
            Op::Fload64leZ { dst, addr } => {
                &&& self.can_access(addr, 8)
            },
            Op::Fstore32leZ { addr, src } => {
                &&& self.can_access(addr, 4)
            },
            Op::Fstore64leZ { addr, src } => {
                &&& self.can_access(addr, 8)
            },
            Op::Vload128leZ { dst, addr } => {
                &&& self.can_access(addr, 16)
            },
            Op::Vstore128leZ { addr, src } => {
                &&& self.can_access(addr, 16)
            },
            Op::Fload32leG32 { dst, addr } => {
                &&& self.can_access(addr, 4)
            },
            Op::Fload64leG32 { dst, addr } => {
                &&& self.can_access(addr, 8)
            },
            Op::Fstore32leG32 { addr, src } => {
                &&& self.can_access(addr, 4)
            },
            Op::Fstore64leG32 { addr, src } => {
                &&& self.can_access(addr, 8)
            },
            Op::Vload128leG32 { dst, addr } => {
                &&& self.can_access(addr, 16)
            },
            Op::Vstore128leG32 { addr, src } => {
                &&& self.can_access(addr, 16)
            },
            Op::Fload32beO32 { dst, addr } => {
                &&& self.can_access(addr, 4)
            },
            Op::Fload64beO32 { dst, addr } => {
                &&& self.can_access(addr, 8)
            },
            Op::Fstore32beO32 { addr, src } => {
                &&& self.can_access(addr, 4)
            },
            Op::Fstore64beO32 { addr, src } => {
                &&& self.can_access(addr, 8)
            },
            Op::Vinsertx8 { operands, lane } => {
                &&& lane < 16
            },
            Op::Vinsertx16 { operands, lane } => {
                &&& lane < 8
            },
            Op::Vinsertx32 { operands, lane } => {
                &&& lane < 4
            },
            Op::Vinsertx64 { operands, lane } => {
                &&& lane < 2
            },
            Op::Vinsertf32 { operands, lane } => {
                &&& lane < 4
            },
            Op::Vinsertf64 { operands, lane } => {
                &&& lane < 2
            },
            Op::Vshuffle { dst, src1, src2, mask } => {
                &&& forall|j: int| 0 <= j < 16 ==> spec_lane8(mask, j) < 32
            },
            Op::Vload8x8SZ { dst, addr } => {
                &&& self.can_access(addr, 8)
            },
            Op::Vload8x8UZ { dst, addr } => {
                &&& self.can_access(addr, 8)
            },
            Op::Vload16x4leSZ { dst, addr } => {
                &&& self.can_access(addr, 8)
            },
            Op::Vload16x4leUZ { dst, addr } => {
                &&& self.can_access(addr, 8)
            },
            Op::Vload32x2leSZ { dst, addr } => {
                &&& self.can_access(addr, 8)
            },
            Op::Vload32x2leUZ { dst, addr } => {
                &&& self.can_access(addr, 8)
            },
            Op::Xextractv8x16 { dst, src, lane } => {
                &&& lane < 16
            },
            Op::Xextractv16x8 { dst, src, lane } => {
                &&& lane < 8
            },
            Op::Xextractv32x4 { dst, src, lane } => {
                &&& lane < 4
            },
            Op::Xextractv64x2 { dst, src, lane } => {
                &&& lane < 2
            },
            Op::Fextractv32x4 { dst, src, lane } => {
                &&& lane < 4
            },
            Op::Fextractv64x2 { dst, src, lane } => {
                &&& lane < 2
            },
            _ => true,
        }
    }

    /// Is the instruction an arithmetic instruction that leads from this interpreter to
    /// `after`, with `r` returned?
    pub open spec fn arith_steps_to(self, op: Op, r: ControlFlow<Done>, after: InterpView) -> bool {
        match op {
            Op::Xmov { dst, src } => {
                &&& r is Continue
                &&& after == self.set_x(
                    dst.spec_index(),
                    self.state.x[src.spec_index()],
                )
            },
            Op::Xconst8 { dst, imm } => {
                &&& r is Continue
                &&& after == self.set_x_i64(dst.spec_index(), imm as i64)
            },
            Op::Xconst16 { dst, imm } => {
                &&& r is Continue
                &&& after == self.set_x_i64(dst.spec_index(), imm as i64)
            },
            Op::Xconst32 { dst, imm } => {
                &&& r is Continue
                &&& after == self.set_x_i64(dst.spec_index(), imm as i64)
            },
            Op::Xconst64 { dst, imm } => {
                &&& r is Continue
                &&& after == self.set_x_i64(dst.spec_index(), imm)
            },
            Op::Xzero { dst } => {
                &&& r is Continue
                &&& after == self.set_x_i64(dst.spec_index(), 0)
            },
            Op::Xone { dst } => {
                &&& r is Continue
                &&& after == self.set_x_i64(dst.spec_index(), 1)
            },
            Op::Xadd32 { operands } => {
                &&& r is Continue
                &&& ({
                    let a = self.x_u32(operands.src1.spec_index());
                    let b = self.x_u32(operands.src2.spec_index());
                    after == self.set_x_u32(operands.dst.spec_index(), a.wrapping_add(b))
                })
            },
            Op::Xadd32U32 { dst, src1, src2 } => {
                &&& r is Continue
                &&& ({
                    let a = self.x_u32(src1.spec_index());
                    after == self.set_x_u32(dst.spec_index(), a.wrapping_add(src2))
                })
            },
            Op::Xadd32U8 { dst, src1, src2 } => {
                &&& r is Continue
                &&& ({
                    let a = self.x_u32(src1.spec_index());
                    after == self.set_x_u32(dst.spec_index(), a.wrapping_add(src2 as u32))
                })
            },
            Op::Xmadd32 { dst, src1, src2, src3 } => {
                &&& r is Continue
                &&& ({
                    let a = self.x_u32(src1.spec_index());
                    let b = self.x_u32(src2.spec_index());
                    let c = self.x_u32(src3.spec_index());
                    after == self.set_x_u32(
                        dst.spec_index(),
                        a.wrapping_mul(b).wrapping_add(c),
                    )
                })
            },
            Op::Xsub32 { operands } => {
                &&& r is Continue
                &&& ({
                    let a = self.x_u32(operands.src1.spec_index());
                    let b = self.x_u32(operands.src2.spec_index());
                    after == self.set_x_u32(operands.dst.spec_index(), a.wrapping_sub(b))
                })
            },
            Op::Xsub32U32 { dst, src1, src2 } => {
                &&& r is Continue
                &&& ({
                    let a = self.x_u32(src1.spec_index());
                    after == self.set_x_u32(dst.spec_index(), a.wrapping_sub(src2))
                })
            },
            Op::Xsub32U8 { dst, src1, src2 } => {
                &&& r is Continue
                &&& ({
                    let a = self.x_u32(src1.spec_index());
                    after == self.set_x_u32(dst.spec_index(), a.wrapping_sub(src2 as u32))
                })
            },
            Op::Xmul32 { operands } => {
                &&& r is Continue
                &&& ({
                    let a = self.x_u32(operands.src1.spec_index());
                    let b = self.x_u32(operands.src2.spec_index());
                    after == self.set_x_u32(operands.dst.spec_index(), a.wrapping_mul(b))
                })
            },
            Op::Xmul32S32 { dst, src1, src2 } => {
                &&& r is Continue
                &&& ({
                    let a = self.x_i32(src1.spec_index());
                    after == self.set_x_i32(dst.spec_index(), a.wrapping_mul(src2))
                })
            },
            Op::Xmul32S8 { dst, src1, src2 } => {
                &&& r is Continue
                &&& ({
                    let a = self.x_i32(src1.spec_index());
                    after == self.set_x_i32(dst.spec_index(), a.wrapping_mul(src2 as i32))
                })
            },
            Op::Xadd64 { operands } => {
                &&& r is Continue
                &&& ({
                    let a = self.x_u64(operands.src1.spec_index());
                    let b = self.x_u64(operands.src2.spec_index());
                    after == self.set_x_u64(operands.dst.spec_index(), a.wrapping_add(b))
                })
            },
            Op::Xadd64U32 { dst, src1, src2 } => {
                &&& r is Continue
                &&& ({
                    let a = self.x_u64(src1.spec_index());
                    after == self.set_x_u64(dst.spec_index(), a.wrapping_add(src2 as u64))
                })
            },
            Op::Xadd64U8 { dst, src1, src2 } => {
                &&& r is Continue
                &&& ({
                    let a = self.x_u64(src1.spec_index());
                    after == self.set_x_u64(dst.spec_index(), a.wrapping_add(src2 as u64))
                })
            },
            Op::Xmadd64 { dst, src1, src2, src3 } => {
                &&& r is Continue
                &&& ({
                    let a = self.x_u64(src1.spec_index());
                    let b = self.x_u64(src2.spec_index());
                    let c = self.x_u64(src3.spec_index());
                    after == self.set_x_u64(
                        dst.spec_index(),
                        a.wrapping_mul(b).wrapping_add(c),
                    )
                })
            },
            Op::Xsub64 { operands } => {
                &&& r is Continue
                &&& ({
                    let a = self.x_u64(operands.src1.spec_index());
                    let b = self.x_u64(operands.src2.spec_index());
                    after == self.set_x_u64(operands.dst.spec_index(), a.wrapping_sub(b))
                })
            },
            Op::Xsub64U32 { dst, src1, src2 } => {
                &&& r is Continue
                &&& ({
                    let a = self.x_u64(src1.spec_index());
                    after == self.set_x_u64(dst.spec_index(), a.wrapping_sub(src2 as u64))
                })
            },
            Op::Xsub64U8 { dst, src1, src2 } => {
                &&& r is Continue
                &&& ({
                    let a = self.x_u64(src1.spec_index());
                    after == self.set_x_u64(dst.spec_index(), a.wrapping_sub(src2 as u64))
                })
            },
            Op::Xmul64 { operands } => {
                &&& r is Continue
                &&& ({
                    let a = self.x_u64(operands.src1.spec_index());
                    let b = self.x_u64(operands.src2.spec_index());
                    after == self.set_x_u64(operands.dst.spec_index(), a.wrapping_mul(b))
                })
            },
            Op::Xmul64S32 { dst, src1, src2 } => {
                &&& r is Continue
                &&& ({
                    let a = self.x_i64(src1.spec_index());
                    after == self.set_x_i64(dst.spec_index(), a.wrapping_mul(src2 as i64))
                })
            },
            Op::Xmul64S8 { dst, src1, src2 } => {
                &&& r is Continue
                &&& ({
                    let a = self.x_i64(src1.spec_index());
                    after == self.set_x_i64(dst.spec_index(), a.wrapping_mul(src2 as i64))
                })
            },
            Op::Xshl32 { operands } => {
                &&& r is Continue
                &&& ({
                    let a = self.x_u32(operands.src1.spec_index());
                    let b = self.x_u32(operands.src2.spec_index());
                    after == self.set_x_u32(operands.dst.spec_index(), a.wrapping_shl(b))
                })
            },
            Op::Xshr32U { operands } => {
                &&& r is Continue
                &&& ({
                    let a = self.x_u32(operands.src1.spec_index());
                    let b = self.x_u32(operands.src2.spec_index());
                    after == self.set_x_u32(operands.dst.spec_index(), a.wrapping_shr(b))
                })
            },
            Op::Xshr32S { operands } => {
                &&& r is Continue
                &&& ({
                    let a = self.x_i32(operands.src1.spec_index());
                    let b = self.x_u32(operands.src2.spec_index());
                    after == self.set_x_i32(operands.dst.spec_index(), a.wrapping_shr(b))
                })
            },
            Op::Xshl64 { operands } => {
                &&& r is Continue
                &&& ({
                    let a = self.x_u64(operands.src1.spec_index());
                    let b = self.x_u32(operands.src2.spec_index());
                    after == self.set_x_u64(operands.dst.spec_index(), a.wrapping_shl(b))
                })
            },
            Op::Xshr64U { operands } => {
                &&& r is Continue
                &&& ({
                    let a = self.x_u64(operands.src1.spec_index());
                    let b = self.x_u32(operands.src2.spec_index());
                    after == self.set_x_u64(operands.dst.spec_index(), a.wrapping_shr(b))
                })
            },
            Op::Xshr64S { operands } => {
                &&& r is Continue
                &&& ({
                    let a = self.x_i64(operands.src1.spec_index());
                    let b = self.x_u32(operands.src2.spec_index());
                    after == self.set_x_i64(operands.dst.spec_index(), a.wrapping_shr(b))
                })
            },
            Op::Xshl32U6 { operands } => {
                &&& r is Continue
                &&& ({
                    let a = self.x_u32(operands.src1.spec_index());
                    after == self.set_x_u32(
                        operands.dst.spec_index(),
                        a.wrapping_shl(operands.src2.spec_value() as u32),
                    )
                })
            },
            Op::Xshr32UU6 { operands } => {
                &&& r is Continue
                &&& ({
                    let a = self.x_u32(operands.src1.spec_index());
                    after == self.set_x_u32(
                        operands.dst.spec_index(),
                        a.wrapping_shr(operands.src2.spec_value() as u32),
                    )
                })
            },
            Op::Xshr32SU6 { operands } => {
                &&& r is Continue
                &&& ({
                    let a = self.x_i32(operands.src1.spec_index());
                    after == self.set_x_i32(
                        operands.dst.spec_index(),
                        a.wrapping_shr(operands.src2.spec_value() as u32),
                    )
                })
            },
            Op::Xshl64U6 { operands } => {
                &&& r is Continue
                &&& ({
                    let a = self.x_u64(operands.src1.spec_index());
                    after == self.set_x_u64(
                        operands.dst.spec_index(),
                        a.wrapping_shl(operands.src2.spec_value() as u32),
                    )
                })
            },
            Op::Xshr64UU6 { operands } => {
                &&& r is Continue
                &&& ({
                    let a = self.x_u64(operands.src1.spec_index());
                    after == self.set_x_u64(
                        operands.dst.spec_index(),
                        a.wrapping_shr(operands.src2.spec_value() as u32),
                    )
                })
            },
            Op::Xshr64SU6 { operands } => {
                &&& r is Continue
                &&& ({
                    let a = self.x_i64(operands.src1.spec_index());
                    after == self.set_x_i64(
                        operands.dst.spec_index(),
                        a.wrapping_shr(operands.src2.spec_value() as u32),
                    )
                })
            },
            Op::Xneg32 { dst, src } => {
                &&& r is Continue
                &&& ({
                    let a = self.x_i32(src.spec_index());
                    after == self.set_x_i32(dst.spec_index(), 0i32.wrapping_sub(a))
                })
            },
            Op::Xneg64 { dst, src } => {
                &&& r is Continue
                &&& ({
                    let a = self.x_i64(src.spec_index());
                    after == self.set_x_i64(dst.spec_index(), 0i64.wrapping_sub(a))
                })
            },
            Op::Xeq64 { operands } => {
                &&& r is Continue
                &&& ({
                    let a = self.x_u64(operands.src1.spec_index());
                    let b = self.x_u64(operands.src2.spec_index());
                    after == self.set_x_u32(
                        operands.dst.spec_index(),
                        if a == b { 1u32 } else { 0u32 },
                    )
                })
            },
            Op::Xneq64 { operands } => {
                &&& r is Continue
                &&& ({
                    let a = self.x_u64(operands.src1.spec_index());
                    let b = self.x_u64(operands.src2.spec_index());
                    after == self.set_x_u32(
                        operands.dst.spec_index(),
                        if a != b { 1u32 } else { 0u32 },
                    )
                })
            },
            Op::Xslt64 { operands } => {
                &&& r is Continue
                &&& ({
                    let a = self.x_i64(operands.src1.spec_index());
                    let b = self.x_i64(operands.src2.spec_index());
                    after == self.set_x_u32(
                        operands.dst.spec_index(),
                        if a < b { 1u32 } else { 0u32 },
                    )
                })
            },
            Op::Xslteq64 { operands } => {
                &&& r is Continue
                &&& ({
                    let a = self.x_i64(operands.src1.spec_index());
                    let b = self.x_i64(operands.src2.spec_index());
                    after == self.set_x_u32(
                        operands.dst.spec_index(),
                        if a <= b { 1u32 } else { 0u32 },
                    )
                })
            },
            Op::Xult64 { operands } => {
                &&& r is Continue
                &&& ({
                    let a = self.x_u64(operands.src1.spec_index());
                    let b = self.x_u64(operands.src2.spec_index());
                    after == self.set_x_u32(
                        operands.dst.spec_index(),
                        if a < b { 1u32 } else { 0u32 },
                    )
                })
            },
            Op::Xulteq64 { operands } => {
                &&& r is Continue
                &&& ({
                    let a = self.x_u64(operands.src1.spec_index());
                    let b = self.x_u64(operands.src2.spec_index());
                    after == self.set_x_u32(
                        operands.dst.spec_index(),
                        if a <= b { 1u32 } else { 0u32 },
                    )
                })
            },
            Op::Xeq32 { operands } => {
                &&& r is Continue
                &&& ({
                    let a = self.x_u32(operands.src1.spec_index());
                    let b = self.x_u32(operands.src2.spec_index());
                    after == self.set_x_u32(
                        operands.dst.spec_index(),
                        if a == b { 1u32 } else { 0u32 },
                    )
                })
            },
            Op::Xneq32 { operands } => {
                &&& r is Continue
                &&& ({
                    let a = self.x_u32(operands.src1.spec_index());
                    let b = self.x_u32(operands.src2.spec_index());
                    after == self.set_x_u32(
                        operands.dst.spec_index(),
                        if a != b { 1u32 } else { 0u32 },
                    )
                })
            },
            Op::Xslt32 { operands } => {
                &&& r is Continue
                &&& ({
                    let a = self.x_i32(operands.src1.spec_index());
                    let b = self.x_i32(operands.src2.spec_index());
                    after == self.set_x_u32(
                        operands.dst.spec_index(),
                        if a < b { 1u32 } else { 0u32 },
                    )
                })
            },
            Op::Xslteq32 { operands } => {
                &&& r is Continue
                &&& ({
                    let a = self.x_i32(operands.src1.spec_index());
                    let b = self.x_i32(operands.src2.spec_index());
                    after == self.set_x_u32(
                        operands.dst.spec_index(),
                        if a <= b { 1u32 } else { 0u32 },
                    )
                })
            },
            Op::Xult32 { operands } => {
                &&& r is Continue
                &&& ({
                    let a = self.x_u32(operands.src1.spec_index());
                    let b = self.x_u32(operands.src2.spec_index());
                    after == self.set_x_u32(
                        operands.dst.spec_index(),
                        if a < b { 1u32 } else { 0u32 },
                    )
                })
            },
            Op::Xulteq32 { operands } => {
                &&& r is Continue
                &&& ({
                    let a = self.x_u32(operands.src1.spec_index());
                    let b = self.x_u32(operands.src2.spec_index());
                    after == self.set_x_u32(
                        operands.dst.spec_index(),
                        if a <= b { 1u32 } else { 0u32 },
                    )
                })
            },
            Op::Zext8 { dst, src } => {
                &&& r is Continue
                &&& after == self.set_x_u64(
                    dst.spec_index(),
                    (self.x_u64(src.spec_index()) as u8) as u64,
                )
            },
            Op::Zext16 { dst, src } => {
                &&& r is Continue
                &&& after == self.set_x_u64(
                    dst.spec_index(),
                    (self.x_u64(src.spec_index()) as u16) as u64,
                )
            },
            Op::Zext32 { dst, src } => {
                &&& r is Continue
                &&& after == self.set_x_u64(
                    dst.spec_index(),
                    (self.x_u64(src.spec_index()) as u32) as u64,
                )
            },
            Op::Sext8 { dst, src } => {
                &&& r is Continue
                &&& after == self.set_x_i64(
                    dst.spec_index(),
                    (self.x_i64(src.spec_index()) as i8) as i64,
                )
            },
            Op::Sext16 { dst, src } => {
                &&& r is Continue
                &&& after == self.set_x_i64(
                    dst.spec_index(),
                    (self.x_i64(src.spec_index()) as i16) as i64,
                )
            },
            Op::Sext32 { dst, src } => {
                &&& r is Continue
                &&& after == self.set_x_i64(
                    dst.spec_index(),
                    (self.x_i64(src.spec_index()) as i32) as i64,
                )
            },
            Op::Xband32 { operands } => {
                &&& r is Continue
                &&& ({
                    let a = self.x_u32(operands.src1.spec_index());
                    let b = self.x_u32(operands.src2.spec_index());
                    after == self.set_x_u32(operands.dst.spec_index(), a & b)
                })
            },
            Op::Xband32S32 { dst, src1, src2 } => {
                &&& r is Continue
                &&& ({
                    let a = self.x_i32(src1.spec_index());
                    after == self.set_x_i32(dst.spec_index(), a & src2)
                })
            },
            Op::Xband32S8 { dst, src1, src2 } => {
                &&& r is Continue
                &&& ({
                    let a = self.x_i32(src1.spec_index());
                    after == self.set_x_i32(dst.spec_index(), a & (src2 as i32))
                })
            },
            Op::Xband64 { operands } => {
                &&& r is Continue
                &&& ({
                    let a = self.x_u64(operands.src1.spec_index());
                    let b = self.x_u64(operands.src2.spec_index());
                    after == self.set_x_u64(operands.dst.spec_index(), a & b)
                })
            },
            Op::Xband64S32 { dst, src1, src2 } => {
                &&& r is Continue
                &&& ({
                    let a = self.x_i64(src1.spec_index());
                    after == self.set_x_i64(dst.spec_index(), a & (src2 as i64))
                })
            },
            Op::Xband64S8 { dst, src1, src2 } => {
                &&& r is Continue
                &&& ({
                    let a = self.x_i64(src1.spec_index());
                    after == self.set_x_i64(dst.spec_index(), a & (src2 as i64))
                })
            },
            Op::Xbor32 { operands } => {
                &&& r is Continue
                &&& ({
                    let a = self.x_u32(operands.src1.spec_index());
                    let b = self.x_u32(operands.src2.spec_index());
                    after == self.set_x_u32(operands.dst.spec_index(), a | b)
                })
            },
            Op::Xbor32S32 { dst, src1, src2 } => {
                &&& r is Continue
                &&& ({
                    let a = self.x_i32(src1.spec_index());
                    after == self.set_x_i32(dst.spec_index(), a | src2)
                })
            },
            Op::Xbor32S8 { dst, src1, src2 } => {
                &&& r is Continue
                &&& ({
                    let a = self.x_i32(src1.spec_index());
                    after == self.set_x_i32(dst.spec_index(), a | (src2 as i32))
                })
            },
            Op::Xbor64 { operands } => {
                &&& r is Continue
                &&& ({
                    let a = self.x_u64(operands.src1.spec_index());
                    let b = self.x_u64(operands.src2.spec_index());
                    after == self.set_x_u64(operands.dst.spec_index(), a | b)
                })
            },
            Op::Xbor64S32 { dst, src1, src2 } => {
                &&& r is Continue
                &&& ({
                    let a = self.x_i64(src1.spec_index());
                    after == self.set_x_i64(dst.spec_index(), a | (src2 as i64))
                })
            },
            Op::Xbor64S8 { dst, src1, src2 } => {
                &&& r is Continue
                &&& ({
                    let a = self.x_i64(src1.spec_index());
                    after == self.set_x_i64(dst.spec_index(), a | (src2 as i64))
                })
            },
            Op::Xbxor32 { operands } => {
                &&& r is Continue
                &&& ({
                    let a = self.x_u32(operands.src1.spec_index());
                    let b = self.x_u32(operands.src2.spec_index());
                    after == self.set_x_u32(operands.dst.spec_index(), a ^ b)
                })
            },
            Op::Xbxor32S32 { dst, src1, src2 } => {
                &&& r is Continue
                &&& ({
                    let a = self.x_i32(src1.spec_index());
                    after == self.set_x_i32(dst.spec_index(), a ^ src2)
                })
            },
            Op::Xbxor32S8 { dst, src1, src2 } => {
                &&& r is Continue
                &&& ({
                    let a = self.x_i32(src1.spec_index());
                    after == self.set_x_i32(dst.spec_index(), a ^ (src2 as i32))
                })
            },
            Op::Xbxor64 { operands } => {
                &&& r is Continue
                &&& ({
                    let a = self.x_u64(operands.src1.spec_index());
                    let b = self.x_u64(operands.src2.spec_index());
                    after == self.set_x_u64(operands.dst.spec_index(), a ^ b)
                })
            },
            Op::Xbxor64S32 { dst, src1, src2 } => {
                &&& r is Continue
                &&& ({
                    let a = self.x_i64(src1.spec_index());
                    after == self.set_x_i64(dst.spec_index(), a ^ (src2 as i64))
                })
            },
            Op::Xbxor64S8 { dst, src1, src2 } => {
                &&& r is Continue
                &&& ({
                    let a = self.x_i64(src1.spec_index());
                    after == self.set_x_i64(dst.spec_index(), a ^ (src2 as i64))
                })
            },
            Op::Xbnot32 { dst, src } => {
                &&& r is Continue
                &&& ({
                    let a = self.x_u32(src.spec_index());
                    after == self.set_x_u32(dst.spec_index(), !a)
                })
            },
            Op::Xbnot64 { dst, src } => {
                &&& r is Continue
                &&& ({
                    let a = self.x_u64(src.spec_index());
                    after == self.set_x_u64(dst.spec_index(), !a)
                })
            },
            Op::Xmin32U { operands } => {
                &&& r is Continue
                &&& ({
                    let a = self.x_u32(operands.src1.spec_index());
                    let b = self.x_u32(operands.src2.spec_index());
                    after == self.set_x_u32(
                        operands.dst.spec_index(),
                        if a < b { a } else { b },
                    )
                })
            },
            Op::Xmax32U { operands } => {
                &&& r is Continue
                &&& ({
                    let a = self.x_u32(operands.src1.spec_index());
                    let b = self.x_u32(operands.src2.spec_index());
                    after == self.set_x_u32(
                        operands.dst.spec_index(),
                        if a > b { a } else { b },
                    )
                })
            },
            Op::Xmin32S { operands } => {
                &&& r is Continue
                &&& ({
                    let a = self.x_i32(operands.src1.spec_index());
                    let b = self.x_i32(operands.src2.spec_index());
                    after == self.set_x_i32(
                        operands.dst.spec_index(),
                        if a < b { a } else { b },
                    )
                })
            },
            Op::Xmax32S { operands } => {
                &&& r is Continue
                &&& ({
                    let a = self.x_i32(operands.src1.spec_index());
                    let b = self.x_i32(operands.src2.spec_index());
                    after == self.set_x_i32(
                        operands.dst.spec_index(),
                        if a > b { a } else { b },
                    )
                })
            },
            Op::Xmin64U { operands } => {
                &&& r is Continue
                &&& ({
                    let a = self.x_u64(operands.src1.spec_index());
                    let b = self.x_u64(operands.src2.spec_index());
                    after == self.set_x_u64(
                        operands.dst.spec_index(),
                        if a < b { a } else { b },
                    )
                })
            },
            Op::Xmax64U { operands } => {
                &&& r is Continue
                &&& ({
                    let a = self.x_u64(operands.src1.spec_index());
                    let b = self.x_u64(operands.src2.spec_index());
                    after == self.set_x_u64(
                        operands.dst.spec_index(),
                        if a > b { a } else { b },
                    )
                })
            },
            Op::Xmin64S { operands } => {
                &&& r is Continue
                &&& ({
                    let a = self.x_i64(operands.src1.spec_index());
                    let b = self.x_i64(operands.src2.spec_index());
                    after == self.set_x_i64(
                        operands.dst.spec_index(),
                        if a < b { a } else { b },
                    )
                })
            },
            Op::Xmax64S { operands } => {
                &&& r is Continue
                &&& ({
                    let a = self.x_i64(operands.src1.spec_index());
                    let b = self.x_i64(operands.src2.spec_index());
                    after == self.set_x_i64(
                        operands.dst.spec_index(),
                        if a > b { a } else { b },
                    )
                })
            },
            Op::Xctz32 { dst, src } => {
                &&& r is Continue
                &&& ({
                    let a = self.x_u32(src.spec_index());
                    after == self.set_x_u32(
                        dst.spec_index(),
                        vstd::std_specs::bits::u32_trailing_zeros(a),
                    )
                })
            },
            Op::Xctz64 { dst, src } => {
                &&& r is Continue
                &&& ({
                    let a = self.x_u64(src.spec_index());
                    after == self.set_x_u64(
                        dst.spec_index(),
                        vstd::std_specs::bits::u64_trailing_zeros(a) as u64,
                    )
                })
            },
            Op::Xclz32 { dst, src } => {
                &&& r is Continue
                &&& ({
                    let a = self.x_u32(src.spec_index());
                    after == self.set_x_u32(
                        dst.spec_index(),
                        vstd::std_specs::bits::u32_leading_zeros(a),
                    )
                })
            },
            Op::Xclz64 { dst, src } => {
                &&& r is Continue
                &&& ({
                    let a = self.x_u64(src.spec_index());
                    after == self.set_x_u64(
                        dst.spec_index(),
                        vstd::std_specs::bits::u64_leading_zeros(a) as u64,
                    )
                })
            },
            Op::Xpopcnt32 { dst, src } => {
                &&& r is Continue
                &&& ({
                    let a = self.x_u32(src.spec_index());
                    after == self.set_x_u32(dst.spec_index(), spec_count_ones(a as u64))
                })
            },
            Op::Xpopcnt64 { dst, src } => {
                &&& r is Continue
                &&& ({
                    let a = self.x_u64(src.spec_index());
                    after == self.set_x_u64(dst.spec_index(), spec_count_ones(a) as u64)
                })
            },
            Op::Xrotl32 { operands } => {
                &&& r is Continue
                &&& ({
                    let a = self.x_u32(operands.src1.spec_index());
                    let b = self.x_u32(operands.src2.spec_index());
                    after == self.set_x_u32(operands.dst.spec_index(), spec_rotl32(a, b))
                })
            },
            Op::Xrotr32 { operands } => {
                &&& r is Continue
                &&& ({
                    let a = self.x_u32(operands.src1.spec_index());
                    let b = self.x_u32(operands.src2.spec_index());
                    after == self.set_x_u32(operands.dst.spec_index(), spec_rotr32(a, b))
                })
            },
            Op::Xrotl64 { operands } => {
                &&& r is Continue
                &&& ({
                    let a = self.x_u64(operands.src1.spec_index());
                    let b = self.x_u32(operands.src2.spec_index());
                    after == self.set_x_u64(operands.dst.spec_index(), spec_rotl64(a, b))
                })
            },
            Op::Xrotr64 { operands } => {
                &&& r is Continue
                &&& ({
                    let a = self.x_u64(operands.src1.spec_index());
                    let b = self.x_u32(operands.src2.spec_index());
                    after == self.set_x_u64(operands.dst.spec_index(), spec_rotr64(a, b))
                })
            },
            Op::Xselect32 { dst, cond, if_nonzero, if_zero } => {
                &&& r is Continue
                &&& ({
                    let c = self.x_u32(cond.spec_index());
                    let x = self.x_u32(if_nonzero.spec_index());
                    let y = self.x_u32(if_zero.spec_index());
                    after == self.set_x_u32(dst.spec_index(), if c != 0 { x } else { y })
                })
            },
            Op::Xselect64 { dst, cond, if_nonzero, if_zero } => {
                &&& r is Continue
                &&& ({
                    let c = self.x_u32(cond.spec_index());
                    let x = self.x_u64(if_nonzero.spec_index());
                    let y = self.x_u64(if_zero.spec_index());
                    after == self.set_x_u64(dst.spec_index(), if c != 0 { x } else { y })
                })
            },
            Op::Xabs32 { dst, src } => {
                &&& r is Continue
                &&& ({
                    let a = self.x_i32(src.spec_index());
                    after == self.set_x_i32(
                        dst.spec_index(),
                        if a < 0 { 0i32.wrapping_sub(a) } else { a },
                    )
                })
            },
            Op::Xabs64 { dst, src } => {
                &&& r is Continue
                &&& ({
                    let a = self.x_i64(src.spec_index());
                    after == self.set_x_i64(
                        dst.spec_index(),
                        if a < 0 { 0i64.wrapping_sub(a) } else { a },
                    )
                })
            },
            Op::Xbmask32 { dst, src } => {
                &&& r is Continue
                &&& ({
                    let a = self.x_u32(src.spec_index());
                    after == self.set_x_u32(
                        dst.spec_index(),
                        if a == 0 { 0u32 } else { 0xffff_ffffu32 },
                    )
                })
            },
            Op::Xbmask64 { dst, src } => {
                &&& r is Continue
                &&& ({
                    let a = self.x_u64(src.spec_index());
                    after == self.set_x_u64(
                        dst.spec_index(),
                        if a == 0 { 0u64 } else { 0xffff_ffff_ffff_ffffu64 },
                    )
                })
            },
            Op::Bswap32 { dst, src } => {
                &&& r is Continue
                &&& ({
                    let a = self.x_u32(src.spec_index());
                    after == self.set_x_u32(dst.spec_index(), spec_swap_bytes32(a))
                })
            },
            Op::Bswap64 { dst, src } => {
                &&& r is Continue
                &&& ({
                    let a = self.x_u64(src.spec_index());
                    after == self.set_x_u64(dst.spec_index(), spec_swap_bytes64(a))
                })
            },
            Op::Xmulhi64S { operands } => {
                &&& r is Continue
                &&& ({
                    let a = self.x_i64(operands.src1.spec_index());
                    let b = self.x_i64(operands.src2.spec_index());
                    after == self.set_x_i64(
                        operands.dst.spec_index(),
                        spec_mulhi64_s(a, b),
                    )
                })
            },
            Op::Xmulhi64U { operands } => {
                &&& r is Continue
                &&& ({
                    let a = self.x_u64(operands.src1.spec_index());
                    let b = self.x_u64(operands.src2.spec_index());
                    after == self.set_x_u64(
                        operands.dst.spec_index(),
                        spec_mulhi64_u(a, b),
                    )
                })
            },
            Op::Nop => {
                &&& r is Continue
                &&& after == self
            },
            Op::XmovFp { dst } => {
                &&& r is Continue
                &&& after == self.set_x_u64(dst.spec_index(), self.state.fp)
            },
            Op::XmovLr { dst } => {
                &&& r is Continue
                &&& after == self.set_x_u64(dst.spec_index(), self.state.lr)
            },
            Op::Xdiv32S { operands } => {
                &&& ({
                    let a = self.x_i32(operands.src1.spec_index());
                    let b = self.x_i32(operands.src2.spec_index());
                    if b == 0 {
                        r is Break && after == self.trapped(
                            XDiv32S::spec_width(),
                            Some(TrapKind::DivideByZero),
                        )
                    } else if a == i32::MIN && b == -1 {
                        r is Break && after == self.trapped(
                            XDiv32S::spec_width(),
                            Some(TrapKind::IntegerOverflow),
                        )
                    } else {
                        r is Continue && after == self.set_x_i32(
                            operands.dst.spec_index(),
                            spec_div_trunc(a as int, b as int) as i32,
                        )
                    }
                })
            },
            Op::Xdiv64S { operands } => {
                &&& ({
                    let a = self.x_i64(operands.src1.spec_index());
                    let b = self.x_i64(operands.src2.spec_index());
                    if b == 0 {
                        r is Break && after == self.trapped(
                            XDiv64S::spec_width(),
                            Some(TrapKind::DivideByZero),
                        )
                    } else if a == i64::MIN && b == -1 {
                        r is Break && after == self.trapped(
                            XDiv64S::spec_width(),
                            Some(TrapKind::IntegerOverflow),
                        )
                    } else {
                        r is Continue && after == self.set_x_i64(
                            operands.dst.spec_index(),
                            spec_div_trunc(a as int, b as int) as i64,
                        )
                    }
                })
            },
            Op::Xdiv32U { operands } => {
                &&& ({
                    let a = self.x_u32(operands.src1.spec_index());
                    let b = self.x_u32(operands.src2.spec_index());
                    if b == 0 {
                        r is Break && after == self.trapped(
                            XDiv32U::spec_width(),
                            Some(TrapKind::DivideByZero),
                        )
                    } else {
                        r is Continue && after == self.set_x_u32(
                            operands.dst.spec_index(),
                            (a / b) as u32,
                        )
                    }
                })
            },
            Op::Xdiv64U { operands } => {
                &&& ({
                    let a = self.x_u64(operands.src1.spec_index());
                    let b = self.x_u64(operands.src2.spec_index());
                    if b == 0 {
                        r is Break && after == self.trapped(
                            XDiv64U::spec_width(),
                            Some(TrapKind::DivideByZero),
                        )
                    } else {
                        r is Continue && after == self.set_x_u64(
                            operands.dst.spec_index(),
                            (a / b) as u64,
                        )
                    }
                })
            },
            Op::Xrem32S { operands } => {
                &&& ({
                    let a = self.x_i32(operands.src1.spec_index());
                    let b = self.x_i32(operands.src2.spec_index());
                    if b == 0 {
                        r is Break && after == self.trapped(
                            XRem32S::spec_width(),
                            Some(TrapKind::DivideByZero),
                        )
                    } else {
                        r is Continue && after == self.set_x_i32(
                            operands.dst.spec_index(),
                            spec_rem_trunc(a as int, b as int) as i32,
                        )
                    }
                })
            },
            Op::Xrem64S { operands } => {
                &&& ({
                    let a = self.x_i64(operands.src1.spec_index());
                    let b = self.x_i64(operands.src2.spec_index());
                    if b == 0 {
                        r is Break && after == self.trapped(
                            XRem64S::spec_width(),
                            Some(TrapKind::DivideByZero),
                        )
                    } else {
                        r is Continue && after == self.set_x_i64(
                            operands.dst.spec_index(),
                            spec_rem_trunc(a as int, b as int) as i64,
                        )
                    }
                })
            },
            Op::Xrem32U { operands } => {
                &&& ({
                    let a = self.x_u32(operands.src1.spec_index());
                    let b = self.x_u32(operands.src2.spec_index());
                    if b == 0 {
                        r is Break && after == self.trapped(
                            XRem32U::spec_width(),
                            Some(TrapKind::DivideByZero),
                        )
                    } else {
                        r is Continue && after == self.set_x_u32(
                            operands.dst.spec_index(),
                            (a % b) as u32,
                        )
                    }
                })
            },
            Op::Xrem64U { operands } => {
                &&& ({
                    let a = self.x_u64(operands.src1.spec_index());
                    let b = self.x_u64(operands.src2.spec_index());
                    if b == 0 {
                        r is Break && after == self.trapped(
                            XRem64U::spec_width(),
                            Some(TrapKind::DivideByZero),
                        )
                    } else {
                        r is Continue && after == self.set_x_u64(
                            operands.dst.spec_index(),
                            (a % b) as u64,
                        )
                    }
                })
            },
            Op::Xadd32UoverflowTrap { operands } => {
                &&& ({
                    let a = self.x_u32(operands.src1.spec_index());
                    let b = self.x_u32(operands.src2.spec_index());
                    if a + b > u32::MAX {
                        r is Break && after == self.trapped(
                            Xadd32UoverflowTrap::spec_width(),
                            None,
                        )
                    } else {
                        r is Continue && after == self.set_x_u32(
                            operands.dst.spec_index(),
                            (a + b) as u32,
                        )
                    }
                })
            },
            Op::Xadd64UoverflowTrap { operands } => {
                &&& ({
                    let a = self.x_u64(operands.src1.spec_index());
                    let b = self.x_u64(operands.src2.spec_index());
                    if a + b > u64::MAX {
                        r is Break && after == self.trapped(
                            Xadd64UoverflowTrap::spec_width(),
                            None,
                        )
                    } else {
                        r is Continue && after == self.set_x_u64(
                            operands.dst.spec_index(),
                            (a + b) as u64,
                        )
                    }
                })
            },
            _ => false,
        }
    }

    /// Is the instruction an instruction of control flow that leads from this interpreter to
    /// `after`, with `r` returned?
    pub open spec fn control_steps_to(
        self,
        op: Op,
        r: ControlFlow<Done>,
        after: InterpView,
    ) -> bool {
        match op {
            Op::Ret => {
                &&& self.state.lr == HOST_RETURN_ADDR ==> r is Break && after == self.stopped(
                    DoneReason::ReturnToHost(()),
                )
                &&& self.state.lr != HOST_RETURN_ADDR ==> r is Continue && after == self.set_pc(
                    self.state.lr,
                )
            },
            Op::Call { offset } => {
                &&& r is Continue
                &&& after == self.set_lr(self.pc).jumped(Call::spec_width(), offset.0)
            },
            Op::Call1 { arg1, offset } => {
                &&& r is Continue
                &&& after == self.set_lr(self.pc).set_x(
                    0,
                    self.state.x[arg1.spec_index()],
                ).jumped(Call1::spec_width(), offset.0)
            },
            Op::Call2 { arg1, arg2, offset } => {
                &&& r is Continue
                &&& after == self.set_lr(self.pc).set_x(
                    0,
                    self.state.x[arg1.spec_index()],
                ).set_x(1, self.state.x[arg2.spec_index()]).jumped(
                    Call2::spec_width(),
                    offset.0,
                )
            },
            Op::Call3 { arg1, arg2, arg3, offset } => {
                &&& r is Continue
                &&& after == self.set_lr(self.pc).set_x(
                    0,
                    self.state.x[arg1.spec_index()],
                ).set_x(1, self.state.x[arg2.spec_index()]).set_x(
                    2,
                    self.state.x[arg3.spec_index()],
                ).jumped(Call3::spec_width(), offset.0)
            },
            Op::Call4 { arg1, arg2, arg3, arg4, offset } => {
                &&& r is Continue
                &&& after == self.set_lr(self.pc).set_x(
                    0,
                    self.state.x[arg1.spec_index()],
                ).set_x(1, self.state.x[arg2.spec_index()]).set_x(
                    2,
                    self.state.x[arg3.spec_index()],
                ).set_x(3, self.state.x[arg4.spec_index()]).jumped(
                    Call4::spec_width(),
                    offset.0,
                )
            },
            Op::CallIndirect { dst } => {
                &&& r is Continue
                &&& after == self.set_lr(self.pc).set_pc(
                    self.x_u64(dst.spec_index()),
                )
            },
            Op::Jump { offset } => {
                &&& r is Continue
                &&& after == self.jumped(Jump::spec_width(), offset.0)
            },
            Op::Xjump { reg } => {
                &&& r is Continue
                &&& after == self.set_pc(self.x_u64(reg.spec_index()))
            },
            Op::BrIf32 { cond, offset } => {
                &&& r is Continue
                &&& after == (if self.x_u32(cond.spec_index()) != 0 {
                    self.jumped(BrIf::spec_width(), offset.0)
                } else {
                    self
                })
            },
            Op::BrIfNot32 { cond, offset } => {
                &&& r is Continue
                &&& after == (if self.x_u32(cond.spec_index()) == 0 {
                    self.jumped(BrIfNot::spec_width(), offset.0)
                } else {
                    self
                })
            },
            Op::BrIfXeq32 { a, b, offset } => {
                &&& r is Continue
                &&& after == (if self.x_u32(a.spec_index()) == self.x_u32(b.spec_index()) {
                    self.jumped(BrIfXeq32::spec_width(), offset.0)
                } else {
                    self
                })
            },
            Op::BrIfXneq32 { a, b, offset } => {
                &&& r is Continue
                &&& after == (if self.x_u32(a.spec_index()) != self.x_u32(b.spec_index()) {
                    self.jumped(BrIfXneq32::spec_width(), offset.0)
                } else {
                    self
                })
            },
            Op::BrIfXslt32 { a, b, offset } => {
                &&& r is Continue
                &&& after == (if self.x_i32(a.spec_index()) < self.x_i32(b.spec_index()) {
                    self.jumped(BrIfXslt32::spec_width(), offset.0)
                } else {
                    self
                })
            },
            Op::BrIfXslteq32 { a, b, offset } => {
                &&& r is Continue
                &&& after == (if self.x_i32(a.spec_index()) <= self.x_i32(b.spec_index()) {
                    self.jumped(BrIfXslteq32::spec_width(), offset.0)
                } else {
                    self
                })
            },
            Op::BrIfXult32 { a, b, offset } => {
                &&& r is Continue
                &&& after == (if self.x_u32(a.spec_index()) < self.x_u32(b.spec_index()) {
                    self.jumped(BrIfXult32::spec_width(), offset.0)
                } else {
                    self
                })
            },
            Op::BrIfXulteq32 { a, b, offset } => {
                &&& r is Continue
                &&& after == (if self.x_u32(a.spec_index()) <= self.x_u32(b.spec_index()) {
                    self.jumped(BrIfXulteq32::spec_width(), offset.0)
                } else {
                    self
                })
            },
            Op::BrIfXeq64 { a, b, offset } => {
                &&& r is Continue
                &&& after == (if self.x_u64(a.spec_index()) == self.x_u64(b.spec_index()) {
                    self.jumped(BrIfXeq64::spec_width(), offset.0)
                } else {
                    self
                })
            },
            Op::BrIfXneq64 { a, b, offset } => {
                &&& r is Continue
                &&& after == (if self.x_u64(a.spec_index()) != self.x_u64(b.spec_index()) {
                    self.jumped(BrIfXneq64::spec_width(), offset.0)
                } else {
                    self
                })
            },
            Op::BrIfXslt64 { a, b, offset } => {
                &&& r is Continue
                &&& after == (if self.x_i64(a.spec_index()) < self.x_i64(b.spec_index()) {
                    self.jumped(BrIfXslt64::spec_width(), offset.0)
                } else {
                    self
                })
            },
            Op::BrIfXslteq64 { a, b, offset } => {
                &&& r is Continue
                &&& after == (if self.x_i64(a.spec_index()) <= self.x_i64(b.spec_index()) {
                    self.jumped(BrIfXslteq64::spec_width(), offset.0)
                } else {
                    self
                })
            },
            Op::BrIfXult64 { a, b, offset } => {
                &&& r is Continue
                &&& after == (if self.x_u64(a.spec_index()) < self.x_u64(b.spec_index()) {
                    self.jumped(BrIfXult64::spec_width(), offset.0)
                } else {
                    self
                })
            },
            Op::BrIfXulteq64 { a, b, offset } => {
                &&& r is Continue
                &&& after == (if self.x_u64(a.spec_index()) <= self.x_u64(b.spec_index()) {
                    self.jumped(BrIfXulteq64::spec_width(), offset.0)
                } else {
                    self
                })
            },
            Op::BrIfXeq32I8 { a, b, offset } => {
                &&& r is Continue
                &&& after == (if self.x_i32(a.spec_index()) == (b as i32) {
                    self.jumped(BrIfXeq32I8::spec_width(), offset.0)
                } else {
                    self
                })
            },
            Op::BrIfXeq32I32 { a, b, offset } => {
                &&& r is Continue
                &&& after == (if self.x_i32(a.spec_index()) == b {
                    self.jumped(BrIfXeq32I32::spec_width(), offset.0)
                } else {
                    self
                })
            },
            Op::BrIfXneq32I8 { a, b, offset } => {
                &&& r is Continue
                &&& after == (if self.x_i32(a.spec_index()) != (b as i32) {
                    self.jumped(BrIfXneq32I8::spec_width(), offset.0)
                } else {
                    self
                })
            },
            Op::BrIfXneq32I32 { a, b, offset } => {
                &&& r is Continue
                &&& after == (if self.x_i32(a.spec_index()) != b {
                    self.jumped(BrIfXneq32I32::spec_width(), offset.0)
                } else {
                    self
                })
            },
            Op::BrIfXslt32I8 { a, b, offset } => {
                &&& r is Continue
                &&& after == (if self.x_i32(a.spec_index()) < (b as i32) {
                    self.jumped(BrIfXslt32I8::spec_width(), offset.0)
                } else {
                    self
                })
            },
            Op::BrIfXslt32I32 { a, b, offset } => {
                &&& r is Continue
                &&& after == (if self.x_i32(a.spec_index()) < b {
                    self.jumped(BrIfXslt32I32::spec_width(), offset.0)
                } else {
                    self
                })
            },
            Op::BrIfXsgt32I8 { a, b, offset } => {
                &&& r is Continue
                &&& after == (if self.x_i32(a.spec_index()) > (b as i32) {
                    self.jumped(BrIfXsgt32I8::spec_width(), offset.0)
                } else {
                    self
                })
            },
            Op::BrIfXsgt32I32 { a, b, offset } => {
                &&& r is Continue
                &&& after == (if self.x_i32(a.spec_index()) > b {
                    self.jumped(BrIfXsgt32I32::spec_width(), offset.0)
                } else {
                    self
                })
            },
            Op::BrIfXslteq32I8 { a, b, offset } => {
                &&& r is Continue
                &&& after == (if self.x_i32(a.spec_index()) <= (b as i32) {
                    self.jumped(BrIfXslteq32I8::spec_width(), offset.0)
                } else {
                    self
                })
            },
            Op::BrIfXslteq32I32 { a, b, offset } => {
                &&& r is Continue
                &&& after == (if self.x_i32(a.spec_index()) <= b {
                    self.jumped(BrIfXslteq32I32::spec_width(), offset.0)
                } else {
                    self
                })
            },
            Op::BrIfXsgteq32I8 { a, b, offset } => {
                &&& r is Continue
                &&& after == (if self.x_i32(a.spec_index()) >= (b as i32) {
                    self.jumped(BrIfXsgteq32I8::spec_width(), offset.0)
                } else {
                    self
                })
            },
            Op::BrIfXsgteq32I32 { a, b, offset } => {
                &&& r is Continue
                &&& after == (if self.x_i32(a.spec_index()) >= b {
                    self.jumped(BrIfXsgteq32I32::spec_width(), offset.0)
                } else {
                    self
                })
            },
            Op::BrIfXult32U8 { a, b, offset } => {
                &&& r is Continue
                &&& after == (if self.x_u32(a.spec_index()) < (b as u32) {
                    self.jumped(BrIfXult32U8::spec_width(), offset.0)
                } else {
                    self
                })
            },
            Op::BrIfXult32U32 { a, b, offset } => {
                &&& r is Continue
                &&& after == (if self.x_u32(a.spec_index()) < b {
                    self.jumped(BrIfXult32U32::spec_width(), offset.0)
                } else {
                    self
                })
            },
            Op::BrIfXugt32U8 { a, b, offset } => {
                &&& r is Continue
                &&& after == (if self.x_u32(a.spec_index()) > (b as u32) {
                    self.jumped(BrIfXugt32U8::spec_width(), offset.0)
                } else {
                    self
                })
            },
            Op::BrIfXugt32U32 { a, b, offset } => {
                &&& r is Continue
                &&& after == (if self.x_u32(a.spec_index()) > b {
                    self.jumped(BrIfXugt32U32::spec_width(), offset.0)
                } else {
                    self
                })
            },
            Op::BrIfXulteq32U8 { a, b, offset } => {
                &&& r is Continue
                &&& after == (if self.x_u32(a.spec_index()) <= (b as u32) {
                    self.jumped(BrIfXulteq32U8::spec_width(), offset.0)
                } else {
                    self
                })
            },
            Op::BrIfXulteq32U32 { a, b, offset } => {
                &&& r is Continue
                &&& after == (if self.x_u32(a.spec_index()) <= b {
                    self.jumped(BrIfXulteq32U32::spec_width(), offset.0)
                } else {
                    self
                })
            },
            Op::BrIfXugteq32U8 { a, b, offset } => {
                &&& r is Continue
                &&& after == (if self.x_u32(a.spec_index()) >= (b as u32) {
                    self.jumped(BrIfXugteq32U8::spec_width(), offset.0)
                } else {
                    self
                })
            },
            Op::BrIfXugteq32U32 { a, b, offset } => {
                &&& r is Continue
                &&& after == (if self.x_u32(a.spec_index()) >= b {
                    self.jumped(BrIfXugteq32U32::spec_width(), offset.0)
                } else {
                    self
                })
            },
            Op::BrIfXeq64I8 { a, b, offset } => {
                &&& r is Continue
                &&& after == (if self.x_i64(a.spec_index()) == (b as i64) {
                    self.jumped(BrIfXeq64I8::spec_width(), offset.0)
                } else {
                    self
                })
            },
            Op::BrIfXeq64I32 { a, b, offset } => {
                &&& r is Continue
                &&& after == (if self.x_i64(a.spec_index()) == (b as i64) {
                    self.jumped(BrIfXeq64I32::spec_width(), offset.0)
                } else {
                    self
                })
            },
            Op::BrIfXneq64I8 { a, b, offset } => {
                &&& r is Continue
                &&& after == (if self.x_i64(a.spec_index()) != (b as i64) {
                    self.jumped(BrIfXneq64I8::spec_width(), offset.0)
                } else {
                    self
                })
            },
            Op::BrIfXneq64I32 { a, b, offset } => {
                &&& r is Continue
                &&& after == (if self.x_i64(a.spec_index()) != (b as i64) {
                    self.jumped(BrIfXneq64I32::spec_width(), offset.0)
                } else {
                    self
                })
            },
            Op::BrIfXslt64I8 { a, b, offset } => {
                &&& r is Continue
                &&& after == (if self.x_i64(a.spec_index()) < (b as i64) {
                    self.jumped(BrIfXslt64I8::spec_width(), offset.0)
                } else {
                    self
                })
            },
            Op::BrIfXslt64I32 { a, b, offset } => {
                &&& r is Continue
                &&& after == (if self.x_i64(a.spec_index()) < (b as i64) {
                    self.jumped(BrIfXslt64I32::spec_width(), offset.0)
                } else {
                    self
                })
            },
            Op::BrIfXsgt64I8 { a, b, offset } => {
                &&& r is Continue
                &&& after == (if self.x_i64(a.spec_index()) > (b as i64) {
                    self.jumped(BrIfXsgt64I8::spec_width(), offset.0)
                } else {
                    self
                })
            },
            Op::BrIfXsgt64I32 { a, b, offset } => {
                &&& r is Continue
                &&& after == (if self.x_i64(a.spec_index()) > (b as i64) {
                    self.jumped(BrIfXsgt64I32::spec_width(), offset.0)
                } else {
                    self
                })
            },
            Op::BrIfXslteq64I8 { a, b, offset } => {
                &&& r is Continue
                &&& after == (if self.x_i64(a.spec_index()) <= (b as i64) {
                    self.jumped(BrIfXslteq64I8::spec_width(), offset.0)
                } else {
                    self
                })
            },
            Op::BrIfXslteq64I32 { a, b, offset } => {
                &&& r is Continue
                &&& after == (if self.x_i64(a.spec_index()) <= (b as i64) {
                    self.jumped(BrIfXslteq64I32::spec_width(), offset.0)
                } else {
                    self
                })
            },
            Op::BrIfXsgteq64I8 { a, b, offset } => {
                &&& r is Continue
                &&& after == (if self.x_i64(a.spec_index()) >= (b as i64) {
                    self.jumped(BrIfXsgteq64I8::spec_width(), offset.0)
                } else {
                    self
                })
            },
            Op::BrIfXsgteq64I32 { a, b, offset } => {
                &&& r is Continue
                &&& after == (if self.x_i64(a.spec_index()) >= (b as i64) {
                    self.jumped(BrIfXsgteq64I32::spec_width(), offset.0)
                } else {
                    self
                })
            },
            Op::BrIfXult64U8 { a, b, offset } => {
                &&& r is Continue
                &&& after == (if self.x_u64(a.spec_index()) < (b as u64) {
                    self.jumped(BrIfXult64U8::spec_width(), offset.0)
                } else {
                    self
                })
            },
            Op::BrIfXult64U32 { a, b, offset } => {
                &&& r is Continue
                &&& after == (if self.x_u64(a.spec_index()) < (b as u64) {
                    self.jumped(BrIfXult64U32::spec_width(), offset.0)
                } else {
                    self
                })
            },
            Op::BrIfXugt64U8 { a, b, offset } => {
                &&& r is Continue
                &&& after == (if self.x_u64(a.spec_index()) > (b as u64) {
                    self.jumped(BrIfXugt64U8::spec_width(), offset.0)
                } else {
                    self
                })
            },
            Op::BrIfXugt64U32 { a, b, offset } => {
                &&& r is Continue
                &&& after == (if self.x_u64(a.spec_index()) > (b as u64) {
                    self.jumped(BrIfXugt64U32::spec_width(), offset.0)
                } else {
                    self
                })
            },
            Op::BrIfXulteq64U8 { a, b, offset } => {
                &&& r is Continue
                &&& after == (if self.x_u64(a.spec_index()) <= (b as u64) {
                    self.jumped(BrIfXulteq64U8::spec_width(), offset.0)
                } else {
                    self
                })
            },
            Op::BrIfXulteq64U32 { a, b, offset } => {
                &&& r is Continue
                &&& after == (if self.x_u64(a.spec_index()) <= (b as u64) {
                    self.jumped(BrIfXulteq64U32::spec_width(), offset.0)
                } else {
                    self
                })
            },
            Op::BrIfXugteq64U8 { a, b, offset } => {
                &&& r is Continue
                &&& after == (if self.x_u64(a.spec_index()) >= (b as u64) {
                    self.jumped(BrIfXugteq64U8::spec_width(), offset.0)
                } else {
                    self
                })
            },
            Op::BrIfXugteq64U32 { a, b, offset } => {
                &&& r is Continue
                &&& after == (if self.x_u64(a.spec_index()) >= (b as u64) {
                    self.jumped(BrIfXugteq64U32::spec_width(), offset.0)
                } else {
                    self
                })
            },
            Op::Trap => {
                &&& r is Break
                &&& after == self.trapped(Trap::spec_width(), None)
            },
            Op::CallIndirectHost { id } => {
                &&& r is Break
                &&& after == self.stopped(
                    DoneReason::CallIndirectHost { id, resume: self.pc },
                )
            },
            Op::StackAlloc32 { amt } => {
                &&& self.has_room(amt as nat) ==> r is Continue && after == (InterpView {
                    state: self.state.set_sp((self.state.sp() - amt) as u64),
                    ..self
                })
                &&& !self.has_room(amt as nat) ==> r is Break && after == self.trapped(
                    StackAlloc32::spec_width(),
                    Some(TrapKind::StackOverflow),
                )
            },
            Op::StackFree32 { amt } => {
                &&& r is Continue
                &&& after == self.popped(amt as nat)
            },
            _ => false,
        }
    }

    /// Is the instruction an instruction on frames that leads from this interpreter to
    /// `after`, with `r` returned?
    pub open spec fn frame_steps_to(self, op: Op, r: ControlFlow<Done>, after: InterpView) -> bool {
        match op {
            Op::PushFrame => {
                &&& ({
                    let start = self;
                    let first = start.pushed(start.state.lr);
                    let second = first.pushed(start.state.fp);
                    if !start.has_room(8) {
                        r is Break && after == start.trapped(
                            PushFrame::spec_width(),
                            Some(TrapKind::StackOverflow),
                        )
                    } else if !first.has_room(8) {
                        r is Break && after == first.trapped(
                            PushFrame::spec_width(),
                            Some(TrapKind::StackOverflow),
                        )
                    } else {
                        r is Continue && after == second.set_fp(second.state.sp())
                    }
                })
            },
            Op::PopFrame => {
                &&& r is Continue
                &&& ({
                    let start = self;
                    let frame = start.state.fp;
                    after == (InterpView {
                        state: start.state.set_sp((frame + 16) as u64),
                        ..start
                    }).set_fp(start.state.value_at::<u64>(frame)).set_lr(
                        start.state.value_at::<u64>((frame + 8) as u64),
                    )
                })
            },
            Op::PushFrameSave { amt, regs } => {
                &&& ({
                    let start = self;
                    let new_sp = (start.state.sp() - amt - 16) as u64;
                    if !start.has_room((amt + 16) as nat) {
                        r is Break && after == start.trapped(
                            PushFrameSave::spec_width(),
                            Some(TrapKind::StackOverflow),
                        )
                    } else {
                        let framed = StateView {
                            fp: (new_sp + amt) as u64,
                            ..start.state.set_sp(new_sp).write_value::<u64>(
                                (new_sp + amt + 8) as u64,
                                start.state.lr,
                            ).write_value::<u64>((new_sp + amt) as u64, start.state.fp)
                        };
                        r is Continue && after == (InterpView {
                            state: spec_saved(
                                framed,
                                regs.spec_members(16),
                                amt as int,
                                regs.spec_members(16).len(),
                            ),
                            ..start
                        })
                    }
                })
            },
            Op::PopFrameRestore { amt, regs } => {
                &&& r is Continue
                &&& ({
                    let start = self;
                    let restored = spec_restored(
                        start.state,
                        regs.spec_members(16),
                        amt as int,
                        regs.spec_members(16).len(),
                    );
                    let frame = start.state.fp;
                    after == (InterpView {
                        state: restored.set_sp((frame + 16) as u64),
                        ..start
                    }).set_fp(restored.value_at::<u64>(frame)).set_lr(
                        restored.value_at::<u64>((frame + 8) as u64),
                    )
                })
            },
            _ => false,
        }
    }

    /// Is the instruction a load or store at a register plus a constant that leads from this interpreter to
    /// `after`, with `r` returned?
    pub open spec fn offset_steps_to(
        self,
        op: Op,
        r: ControlFlow<Done>,
        after: InterpView,
    ) -> bool {
        match op {
            Op::Xload8U32O32 { dst, addr } => {
                &&& match addr.spec_addr(self.state, 1) {
                    Some(a) => {
                        let val = self.state.value_at::<u8>(a);
                        r is Continue && after == self.set_x_u32(
                            dst.spec_index(),
                            val as u32,
                        )
                    },
                    None => r is Break && after == self.trapped(
                        XLoad8U32O32::spec_width(),
                        Some(TrapKind::MemoryOutOfBounds),
                    ),
                }
            },
            Op::Xload8S32O32 { dst, addr } => {
                &&& match addr.spec_addr(self.state, 1) {
                    Some(a) => {
                        let val = self.state.value_at::<u8>(a);
                        r is Continue && after == self.set_x_i32(
                            dst.spec_index(),
                            (val as i8) as i32,
                        )
                    },
                    None => r is Break && after == self.trapped(
                        XLoad8S32O32::spec_width(),
                        Some(TrapKind::MemoryOutOfBounds),
                    ),
                }
            },
            Op::Xload16leU32O32 { dst, addr } => {
                &&& match addr.spec_addr(self.state, 2) {
                    Some(a) => {
                        let val = self.state.value_at::<u16>(a);
                        r is Continue && after == self.set_x_u32(
                            dst.spec_index(),
                            val as u32,
                        )
                    },
                    None => r is Break && after == self.trapped(
                        XLoad16LeU32O32::spec_width(),
                        Some(TrapKind::MemoryOutOfBounds),
                    ),
                }
            },
            Op::Xload16leS32O32 { dst, addr } => {
                &&& match addr.spec_addr(self.state, 2) {
                    Some(a) => {
                        let val = self.state.value_at::<u16>(a);
                        r is Continue && after == self.set_x_i32(
                            dst.spec_index(),
                            (val as i16) as i32,
                        )
                    },
                    None => r is Break && after == self.trapped(
                        XLoad16LeS32O32::spec_width(),
                        Some(TrapKind::MemoryOutOfBounds),
                    ),
                }
            },
            Op::Xload32leO32 { dst, addr } => {
                &&& match addr.spec_addr(self.state, 4) {
                    Some(a) => {
                        let val = self.state.value_at::<i32>(a);
                        r is Continue && after == self.set_x_i32(dst.spec_index(), val)
                    },
                    None => r is Break && after == self.trapped(
                        XLoad32LeO32::spec_width(),
                        Some(TrapKind::MemoryOutOfBounds),
                    ),
                }
            },
            Op::Xload64leO32 { dst, addr } => {
                &&& match addr.spec_addr(self.state, 8) {
                    Some(a) => {
                        let val = self.state.value_at::<i64>(a);
                        r is Continue && after == self.set_x_i64(dst.spec_index(), val)
                    },
                    None => r is Break && after == self.trapped(
                        XLoad64LeO32::spec_width(),
                        Some(TrapKind::MemoryOutOfBounds),
                    ),
                }
            },
            Op::Xstore8O32 { addr, val } => {
                &&& match addr.spec_addr(self.state, 1) {
                    Some(a) => r is Continue && after == self.written::<u8>(
                        a,
                        self.x_u32(val.spec_index()) as u8,
                    ),
                    None => r is Break && after == self.trapped(
                        XStore8O32::spec_width(),
                        Some(TrapKind::MemoryOutOfBounds),
                    ),
                }
            },
            Op::Xstore16leO32 { addr, val } => {
                &&& match addr.spec_addr(self.state, 2) {
                    Some(a) => r is Continue && after == self.written::<u16>(
                        a,
                        self.x_u32(val.spec_index()) as u16,
                    ),
                    None => r is Break && after == self.trapped(
                        XStore16LeO32::spec_width(),
                        Some(TrapKind::MemoryOutOfBounds),
                    ),
                }
            },
            Op::Xstore32leO32 { addr, val } => {
                &&& match addr.spec_addr(self.state, 4) {
                    Some(a) => r is Continue && after == self.written::<u32>(
                        a,
                        self.x_u32(val.spec_index()),
                    ),
                    None => r is Break && after == self.trapped(
                        XStore32LeO32::spec_width(),
                        Some(TrapKind::MemoryOutOfBounds),
                    ),
                }
            },
            Op::Xstore64leO32 { addr, val } => {
                &&& match addr.spec_addr(self.state, 8) {
                    Some(a) => r is Continue && after == self.written::<u64>(
                        a,
                        self.x_u64(val.spec_index()),
                    ),
                    None => r is Break && after == self.trapped(
                        XStore64LeO32::spec_width(),
                        Some(TrapKind::MemoryOutOfBounds),
                    ),
                }
            },
            Op::Xload16beU32O32 { dst, addr } => {
                &&& match addr.spec_addr(self.state, 2) {
                    Some(a) => {
                        let val = self.state.value_at::<u16>(a);
                        r is Continue && after == self.set_x_u32(
                            dst.spec_index(),
                            spec_swap_bytes16(val) as u32,
                        )
                    },
                    None => r is Break && after == self.trapped(
                        XLoad16BeU32O32::spec_width(),
                        Some(TrapKind::MemoryOutOfBounds),
                    ),
                }
            },
            Op::Xload16beS32O32 { dst, addr } => {
                &&& match addr.spec_addr(self.state, 2) {
                    Some(a) => {
                        let val = self.state.value_at::<u16>(a);
                        r is Continue && after == self.set_x_i32(
                            dst.spec_index(),
                            (spec_swap_bytes16(val) as i16) as i32,
                        )
                    },
                    None => r is Break && after == self.trapped(
                        XLoad16BeS32O32::spec_width(),
                        Some(TrapKind::MemoryOutOfBounds),
                    ),
                }
            },
            Op::Xload32beO32 { dst, addr } => {
                &&& match addr.spec_addr(self.state, 4) {
                    Some(a) => {
                        let val = self.state.value_at::<u32>(a);
                        r is Continue && after == self.set_x_u32(
                            dst.spec_index(),
                            spec_swap_bytes32(val),
                        )
                    },
                    None => r is Break && after == self.trapped(
                        XLoad32BeO32::spec_width(),
                        Some(TrapKind::MemoryOutOfBounds),
                    ),
                }
            },
            Op::Xload64beO32 { dst, addr } => {
                &&& match addr.spec_addr(self.state, 8) {
                    Some(a) => {
                        let val = self.state.value_at::<u64>(a);
                        r is Continue && after == self.set_x_u64(
                            dst.spec_index(),
                            spec_swap_bytes64(val),
                        )
                    },
                    None => r is Break && after == self.trapped(
                        XLoad64BeO32::spec_width(),
                        Some(TrapKind::MemoryOutOfBounds),
                    ),
                }
            },
            Op::Xstore16beO32 { addr, val } => {
                &&& match addr.spec_addr(self.state, 2) {
                    Some(a) => r is Continue && after == self.written::<u16>(
                        a,
                        spec_swap_bytes16(self.x_u32(val.spec_index()) as u16),
                    ),
                    None => r is Break && after == self.trapped(
                        XStore16BeO32::spec_width(),
                        Some(TrapKind::MemoryOutOfBounds),
                    ),
                }
            },
            Op::Xstore32beO32 { addr, val } => {
                &&& match addr.spec_addr(self.state, 4) {
                    Some(a) => r is Continue && after == self.written::<u32>(
                        a,
                        spec_swap_bytes32(self.x_u32(val.spec_index())),
                    ),
                    None => r is Break && after == self.trapped(
                        XStore32BeO32::spec_width(),
                        Some(TrapKind::MemoryOutOfBounds),
                    ),
                }
            },
            Op::Xstore64beO32 { addr, val } => {
                &&& match addr.spec_addr(self.state, 8) {
                    Some(a) => r is Continue && after == self.written::<u64>(
                        a,
                        spec_swap_bytes64(self.x_u64(val.spec_index())),
                    ),
                    None => r is Break && after == self.trapped(
                        XStore64BeO32::spec_width(),
                        Some(TrapKind::MemoryOutOfBounds),
                    ),
                }
            },
            Op::Fload32leO32 { dst, addr } => {
                &&& match addr.spec_addr(self.state, 4) {
                    Some(a) => {
                        let val = self.state.value_at::<u32>(a);
                        r is Continue && after == self.set_f32_bits(dst.spec_index(), val)
                    },
                    None => r is Break && after == self.trapped(
                        Fload32LeO32::spec_width(),
                        Some(TrapKind::MemoryOutOfBounds),
                    ),
                }
            },
            Op::Fload64leO32 { dst, addr } => {
                &&& match addr.spec_addr(self.state, 8) {
                    Some(a) => {
                        let val = self.state.value_at::<u64>(a);
                        r is Continue && after == self.set_f64_bits(dst.spec_index(), val)
                    },
                    None => r is Break && after == self.trapped(
                        Fload64LeO32::spec_width(),
                        Some(TrapKind::MemoryOutOfBounds),
                    ),
                }
            },
            Op::Fstore32leO32 { addr, src } => {
                &&& match addr.spec_addr(self.state, 4) {
                    Some(a) => r is Continue && after == self.written::<u32>(
                        a,
                        self.state.f[src.spec_index()].bits as u32,
                    ),
                    None => r is Break && after == self.trapped(
                        Fstore32LeO32::spec_width(),
                        Some(TrapKind::MemoryOutOfBounds),
                    ),
                }
            },
            Op::Fstore64leO32 { addr, src } => {
                &&& match addr.spec_addr(self.state, 8) {
                    Some(a) => r is Continue && after == self.written::<u64>(
                        a,
                        self.state.f[src.spec_index()].bits,
                    ),
                    None => r is Break && after == self.trapped(
                        Fstore64LeO32::spec_width(),
                        Some(TrapKind::MemoryOutOfBounds),
                    ),
                }
            },
            Op::Vload128leO32 { dst, addr } => {
                &&& match addr.spec_addr(self.state, 16) {
                    Some(a) => {
                        let val = self.state.value_at::<u128>(a);
                        r is Continue && after == self.set_v128(dst.spec_index(), val)
                    },
                    None => r is Break && after == self.trapped(
                        VLoad128LeO32::spec_width(),
                        Some(TrapKind::MemoryOutOfBounds),
                    ),
                }
            },
            Op::Vstore128leO32 { addr, src } => {
                &&& match addr.spec_addr(self.state, 16) {
                    Some(a) => r is Continue && after == self.written::<u128>(
                        a,
                        self.state.v[src.spec_index()].bits,
                    ),
                    None => r is Break && after == self.trapped(
                        Vstore128LeO32::spec_width(),
                        Some(TrapKind::MemoryOutOfBounds),
                    ),
                }
            },
            Op::Fload32beO32 { dst, addr } => {
                &&& match addr.spec_addr(self.state, 4) {
                    Some(a) => {
                        let val = self.state.value_at::<u32>(a);
                        r is Continue && after == self.set_f32_bits(
                            dst.spec_index(),
                            spec_swap_bytes32(val),
                        )
                    },
                    None => r is Break && after == self.trapped(
                        Fload32BeO32::spec_width(),
                        Some(TrapKind::MemoryOutOfBounds),
                    ),
                }
            },
            Op::Fload64beO32 { dst, addr } => {
                &&& match addr.spec_addr(self.state, 8) {
                    Some(a) => {
                        let val = self.state.value_at::<u64>(a);
                        r is Continue && after == self.set_f64_bits(
                            dst.spec_index(),
                            spec_swap_bytes64(val),
                        )
                    },
                    None => r is Break && after == self.trapped(
                        Fload64BeO32::spec_width(),
                        Some(TrapKind::MemoryOutOfBounds),
                    ),
                }
            },
            Op::Fstore32beO32 { addr, src } => {
                &&& match addr.spec_addr(self.state, 4) {
                    Some(a) => r is Continue && after == self.written::<u32>(
                        a,
                        spec_swap_bytes32(self.state.f[src.spec_index()].bits as u32),
                    ),
                    None => r is Break && after == self.trapped(
                        Fstore32BeO32::spec_width(),
                        Some(TrapKind::MemoryOutOfBounds),
                    ),
                }
            },
            Op::Fstore64beO32 { addr, src } => {
                &&& match addr.spec_addr(self.state, 8) {
                    Some(a) => r is Continue && after == self.written::<u64>(
                        a,
                        spec_swap_bytes64(self.state.f[src.spec_index()].bits),
                    ),
                    None => r is Break && after == self.trapped(
                        Fstore64BeO32::spec_width(),
                        Some(TrapKind::MemoryOutOfBounds),
                    ),
                }
            },
            _ => false,
        }
    }

    /// Is the instruction a load or store at an address that is tested for null that leads from this interpreter to
    /// `after`, with `r` returned?
    pub open spec fn checked_steps_to(
        self,
        op: Op,
        r: ControlFlow<Done>,
        after: InterpView,
    ) -> bool {
        match op {
            Op::Xload8U32Z { dst, addr } => {
                &&& match addr.spec_addr(self.state, 1) {
                    Some(a) => {
                        let val = self.state.value_at::<u8>(a);
                        r is Continue && after == self.set_x_u32(
                            dst.spec_index(),
                            val as u32,
                        )
                    },
                    None => r is Break && after == self.trapped(
                        XLoad8U32Z::spec_width(),
                        Some(TrapKind::MemoryOutOfBounds),
                    ),
                }
            },
            Op::Xload8S32Z { dst, addr } => {
                &&& match addr.spec_addr(self.state, 1) {
                    Some(a) => {
                        let val = self.state.value_at::<u8>(a);
                        r is Continue && after == self.set_x_i32(
                            dst.spec_index(),
                            (val as i8) as i32,
                        )
                    },
                    None => r is Break && after == self.trapped(
                        XLoad8S32Z::spec_width(),
                        Some(TrapKind::MemoryOutOfBounds),
                    ),
                }
            },
            Op::Xload16leU32Z { dst, addr } => {
                &&& match addr.spec_addr(self.state, 2) {
                    Some(a) => {
                        let val = self.state.value_at::<u16>(a);
                        r is Continue && after == self.set_x_u32(
                            dst.spec_index(),
                            val as u32,
                        )
                    },
                    None => r is Break && after == self.trapped(
                        XLoad16LeU32Z::spec_width(),
                        Some(TrapKind::MemoryOutOfBounds),
                    ),
                }
            },
            Op::Xload16leS32Z { dst, addr } => {
                &&& match addr.spec_addr(self.state, 2) {
                    Some(a) => {
                        let val = self.state.value_at::<u16>(a);
                        r is Continue && after == self.set_x_i32(
                            dst.spec_index(),
                            (val as i16) as i32,
                        )
                    },
                    None => r is Break && after == self.trapped(
                        XLoad16LeS32Z::spec_width(),
                        Some(TrapKind::MemoryOutOfBounds),
                    ),
                }
            },
            Op::Xload32leZ { dst, addr } => {
                &&& match addr.spec_addr(self.state, 4) {
                    Some(a) => {
                        let val = self.state.value_at::<i32>(a);
                        r is Continue && after == self.set_x_i32(dst.spec_index(), val)
                    },
                    None => r is Break && after == self.trapped(
                        XLoad32LeZ::spec_width(),
                        Some(TrapKind::MemoryOutOfBounds),
                    ),
                }
            },
            Op::Xload64leZ { dst, addr } => {
                &&& match addr.spec_addr(self.state, 8) {
                    Some(a) => {
                        let val = self.state.value_at::<i64>(a);
                        r is Continue && after == self.set_x_i64(dst.spec_index(), val)
                    },
                    None => r is Break && after == self.trapped(
                        XLoad64LeZ::spec_width(),
                        Some(TrapKind::MemoryOutOfBounds),
                    ),
                }
            },
            Op::Xstore8Z { addr, val } => {
                &&& match addr.spec_addr(self.state, 1) {
                    Some(a) => r is Continue && after == self.written::<u8>(
                        a,
                        self.x_u32(val.spec_index()) as u8,
                    ),
                    None => r is Break && after == self.trapped(
                        XStore8Z::spec_width(),
                        Some(TrapKind::MemoryOutOfBounds),
                    ),
                }
            },
            Op::Xstore16leZ { addr, val } => {
                &&& match addr.spec_addr(self.state, 2) {
                    Some(a) => r is Continue && after == self.written::<u16>(
                        a,
                        self.x_u32(val.spec_index()) as u16,
                    ),
                    None => r is Break && after == self.trapped(
                        XStore16LeZ::spec_width(),
                        Some(TrapKind::MemoryOutOfBounds),
                    ),
                }
            },
            Op::Xstore32leZ { addr, val } => {
                &&& match addr.spec_addr(self.state, 4) {
                    Some(a) => r is Continue && after == self.written::<u32>(
                        a,
                        self.x_u32(val.spec_index()),
                    ),
                    None => r is Break && after == self.trapped(
                        XStore32LeZ::spec_width(),
                        Some(TrapKind::MemoryOutOfBounds),
                    ),
                }
            },
            Op::Xstore64leZ { addr, val } => {
                &&& match addr.spec_addr(self.state, 8) {
                    Some(a) => r is Continue && after == self.written::<u64>(
                        a,
                        self.x_u64(val.spec_index()),
                    ),
                    None => r is Break && after == self.trapped(
                        XStore64LeZ::spec_width(),
                        Some(TrapKind::MemoryOutOfBounds),
                    ),
                }
            },
            Op::Fload32leZ { dst, addr } => {
                &&& match addr.spec_addr(self.state, 4) {
                    Some(a) => {
                        let val = self.state.value_at::<u32>(a);
                        r is Continue && after == self.set_f32_bits(dst.spec_index(), val)
                    },
                    None => r is Break && after == self.trapped(
                        Fload32LeZ::spec_width(),
                        Some(TrapKind::MemoryOutOfBounds),
                    ),
                }
            },
            Op::Fload64leZ { dst, addr } => {
                &&& match addr.spec_addr(self.state, 8) {
                    Some(a) => {
                        let val = self.state.value_at::<u64>(a);
                        r is Continue && after == self.set_f64_bits(dst.spec_index(), val)
                    },
                    None => r is Break && after == self.trapped(
                        Fload64LeZ::spec_width(),
                        Some(TrapKind::MemoryOutOfBounds),
                    ),
                }
            },
            Op::Fstore32leZ { addr, src } => {
                &&& match addr.spec_addr(self.state, 4) {
                    Some(a) => r is Continue && after == self.written::<u32>(
                        a,
                        self.state.f[src.spec_index()].bits as u32,
                    ),
                    None => r is Break && after == self.trapped(
                        Fstore32LeZ::spec_width(),
                        Some(TrapKind::MemoryOutOfBounds),
                    ),
                }
            },
            Op::Fstore64leZ { addr, src } => {
                &&& match addr.spec_addr(self.state, 8) {
                    Some(a) => r is Continue && after == self.written::<u64>(
                        a,
                        self.state.f[src.spec_index()].bits,
                    ),
                    None => r is Break && after == self.trapped(
                        Fstore64LeZ::spec_width(),
                        Some(TrapKind::MemoryOutOfBounds),
                    ),
                }
            },
            Op::Vload128leZ { dst, addr } => {
                &&& match addr.spec_addr(self.state, 16) {
                    Some(a) => {
                        let val = self.state.value_at::<u128>(a);
                        r is Continue && after == self.set_v128(dst.spec_index(), val)
                    },
                    None => r is Break && after == self.trapped(
                        VLoad128LeZ::spec_width(),
                        Some(TrapKind::MemoryOutOfBounds),
                    ),
                }
            },
            Op::Vstore128leZ { addr, src } => {
                &&& match addr.spec_addr(self.state, 16) {
                    Some(a) => r is Continue && after == self.written::<u128>(
                        a,
                        self.state.v[src.spec_index()].bits,
                    ),
                    None => r is Break && after == self.trapped(
                        Vstore128LeZ::spec_width(),
                        Some(TrapKind::MemoryOutOfBounds),
                    ),
                }
            },
            _ => false,
        }
    }

    /// Is the instruction a load or store in a heap with its bound in a register that leads from this interpreter to
    /// `after`, with `r` returned?
    pub open spec fn bounded_steps_to(
        self,
        op: Op,
        r: ControlFlow<Done>,
        after: InterpView,
    ) -> bool {
        match op {
            Op::Xload8U32G32 { dst, addr } => {
                &&& match addr.spec_addr(self.state, 1) {
                    Some(a) => {
                        let val = self.state.value_at::<u8>(a);
                        r is Continue && after == self.set_x_u32(
                            dst.spec_index(),
                            val as u32,
                        )
                    },
                    None => r is Break && after == self.trapped(
                        XLoad8U32G32::spec_width(),
                        Some(TrapKind::MemoryOutOfBounds),
                    ),
                }
            },
            Op::Xload8S32G32 { dst, addr } => {
                &&& match addr.spec_addr(self.state, 1) {
                    Some(a) => {
                        let val = self.state.value_at::<u8>(a);
                        r is Continue && after == self.set_x_i32(
                            dst.spec_index(),
                            (val as i8) as i32,
                        )
                    },
                    None => r is Break && after == self.trapped(
                        XLoad8S32G32::spec_width(),
                        Some(TrapKind::MemoryOutOfBounds),
                    ),
                }
            },
            Op::Xload16leU32G32 { dst, addr } => {
                &&& match addr.spec_addr(self.state, 2) {
                    Some(a) => {
                        let val = self.state.value_at::<u16>(a);
                        r is Continue && after == self.set_x_u32(
                            dst.spec_index(),
                            val as u32,
                        )
                    },
                    None => r is Break && after == self.trapped(
                        XLoad16LeU32G32::spec_width(),
                        Some(TrapKind::MemoryOutOfBounds),
                    ),
                }
            },
            Op::Xload16leS32G32 { dst, addr } => {
                &&& match addr.spec_addr(self.state, 2) {
                    Some(a) => {
                        let val = self.state.value_at::<u16>(a);
                        r is Continue && after == self.set_x_i32(
                            dst.spec_index(),
                            (val as i16) as i32,
                        )
                    },
                    None => r is Break && after == self.trapped(
                        XLoad16LeS32G32::spec_width(),
                        Some(TrapKind::MemoryOutOfBounds),
                    ),
                }
            },
            Op::Xload32leG32 { dst, addr } => {
                &&& match addr.spec_addr(self.state, 4) {
                    Some(a) => {
                        let val = self.state.value_at::<i32>(a);
                        r is Continue && after == self.set_x_i32(dst.spec_index(), val)
                    },
                    None => r is Break && after == self.trapped(
                        XLoad32LeG32::spec_width(),
                        Some(TrapKind::MemoryOutOfBounds),
                    ),
                }
            },
            Op::Xload64leG32 { dst, addr } => {
                &&& match addr.spec_addr(self.state, 8) {
                    Some(a) => {
                        let val = self.state.value_at::<i64>(a);
                        r is Continue && after == self.set_x_i64(dst.spec_index(), val)
                    },
                    None => r is Break && after == self.trapped(
                        XLoad64LeG32::spec_width(),
                        Some(TrapKind::MemoryOutOfBounds),
                    ),
                }
            },
            Op::Xstore8G32 { addr, val } => {
                &&& match addr.spec_addr(self.state, 1) {
                    Some(a) => r is Continue && after == self.written::<u8>(
                        a,
                        self.x_u32(val.spec_index()) as u8,
                    ),
                    None => r is Break && after == self.trapped(
                        XStore8G32::spec_width(),
                        Some(TrapKind::MemoryOutOfBounds),
                    ),
                }
            },
            Op::Xstore16leG32 { addr, val } => {
                &&& match addr.spec_addr(self.state, 2) {
                    Some(a) => r is Continue && after == self.written::<u16>(
                        a,
                        self.x_u32(val.spec_index()) as u16,
                    ),
                    None => r is Break && after == self.trapped(
                        XStore16LeG32::spec_width(),
                        Some(TrapKind::MemoryOutOfBounds),
                    ),
                }
            },
            Op::Xstore32leG32 { addr, val } => {
                &&& match addr.spec_addr(self.state, 4) {
                    Some(a) => r is Continue && after == self.written::<u32>(
                        a,
                        self.x_u32(val.spec_index()),
                    ),
                    None => r is Break && after == self.trapped(
                        XStore32LeG32::spec_width(),
                        Some(TrapKind::MemoryOutOfBounds),
                    ),
                }
            },
            Op::Xstore64leG32 { addr, val } => {
                &&& match addr.spec_addr(self.state, 8) {
                    Some(a) => r is Continue && after == self.written::<u64>(
                        a,
                        self.x_u64(val.spec_index()),
                    ),
                    None => r is Break && after == self.trapped(
                        XStore64LeG32::spec_width(),
                        Some(TrapKind::MemoryOutOfBounds),
                    ),
                }
            },
            Op::Fload32leG32 { dst, addr } => {
                &&& match addr.spec_addr(self.state, 4) {
                    Some(a) => {
                        let val = self.state.value_at::<u32>(a);
                        r is Continue && after == self.set_f32_bits(dst.spec_index(), val)
                    },
                    None => r is Break && after == self.trapped(
                        Fload32LeG32::spec_width(),
                        Some(TrapKind::MemoryOutOfBounds),
                    ),
                }
            },
            Op::Fload64leG32 { dst, addr } => {
                &&& match addr.spec_addr(self.state, 8) {
                    Some(a) => {
                        let val = self.state.value_at::<u64>(a);
                        r is Continue && after == self.set_f64_bits(dst.spec_index(), val)
                    },
                    None => r is Break && after == self.trapped(
                        Fload64LeG32::spec_width(),
                        Some(TrapKind::MemoryOutOfBounds),
                    ),
                }
            },
            Op::Fstore32leG32 { addr, src } => {
                &&& match addr.spec_addr(self.state, 4) {
                    Some(a) => r is Continue && after == self.written::<u32>(
                        a,
                        self.state.f[src.spec_index()].bits as u32,
                    ),
                    None => r is Break && after == self.trapped(
                        Fstore32LeG32::spec_width(),
                        Some(TrapKind::MemoryOutOfBounds),
                    ),
                }
            },
            Op::Fstore64leG32 { addr, src } => {
                &&& match addr.spec_addr(self.state, 8) {
                    Some(a) => r is Continue && after == self.written::<u64>(
                        a,
                        self.state.f[src.spec_index()].bits,
                    ),
                    None => r is Break && after == self.trapped(
                        Fstore64LeG32::spec_width(),
                        Some(TrapKind::MemoryOutOfBounds),
                    ),
                }
            },
            Op::Vload128leG32 { dst, addr } => {
                &&& match addr.spec_addr(self.state, 16) {
                    Some(a) => {
                        let val = self.state.value_at::<u128>(a);
                        r is Continue && after == self.set_v128(dst.spec_index(), val)
                    },
                    None => r is Break && after == self.trapped(
                        VLoad128LeG32::spec_width(),
                        Some(TrapKind::MemoryOutOfBounds),
                    ),
                }
            },
            Op::Vstore128leG32 { addr, src } => {
                &&& match addr.spec_addr(self.state, 16) {
                    Some(a) => r is Continue && after == self.written::<u128>(
                        a,
                        self.state.v[src.spec_index()].bits,
                    ),
                    None => r is Break && after == self.trapped(
                        Vstore128LeG32::spec_width(),
                        Some(TrapKind::MemoryOutOfBounds),
                    ),
                }
            },
            _ => false,
        }
    }

    /// Is the instruction a load or store in a heap with its bound in memory that leads from this interpreter to
    /// `after`, with `r` returned?
    pub open spec fn guarded_steps_to(
        self,
        op: Op,
        r: ControlFlow<Done>,
        after: InterpView,
    ) -> bool {
        match op {
            Op::Xload8U32G32bne { dst, addr } => {
                &&& match addr.spec_addr(self.state, 1) {
                    Some(a) => {
                        let val = self.state.value_at::<u8>(a);
                        r is Continue && after == self.set_x_u32(
                            dst.spec_index(),
                            val as u32,
                        )
                    },
                    None => r is Break && after == self.trapped(
                        XLoad8U32G32Bne::spec_width(),
                        Some(TrapKind::MemoryOutOfBounds),
                    ),
                }
            },
            Op::Xload8S32G32bne { dst, addr } => {
                &&& match addr.spec_addr(self.state, 1) {
                    Some(a) => {
                        let val = self.state.value_at::<u8>(a);
                        r is Continue && after == self.set_x_i32(
                            dst.spec_index(),
                            (val as i8) as i32,
                        )
                    },
                    None => r is Break && after == self.trapped(
                        XLoad8S32G32Bne::spec_width(),
                        Some(TrapKind::MemoryOutOfBounds),
                    ),
                }
            },
            Op::Xload16leU32G32bne { dst, addr } => {
                &&& match addr.spec_addr(self.state, 2) {
                    Some(a) => {
                        let val = self.state.value_at::<u16>(a);
                        r is Continue && after == self.set_x_u32(
                            dst.spec_index(),
                            val as u32,
                        )
                    },
                    None => r is Break && after == self.trapped(
                        XLoad16LeU32G32Bne::spec_width(),
                        Some(TrapKind::MemoryOutOfBounds),
                    ),
                }
            },
            Op::Xload16leS32G32bne { dst, addr } => {
                &&& match addr.spec_addr(self.state, 2) {
                    Some(a) => {
                        let val = self.state.value_at::<u16>(a);
                        r is Continue && after == self.set_x_i32(
                            dst.spec_index(),
                            (val as i16) as i32,
                        )
                    },
                    None => r is Break && after == self.trapped(
                        XLoad16LeS32G32Bne::spec_width(),
                        Some(TrapKind::MemoryOutOfBounds),
                    ),
                }
            },
            Op::Xload32leG32bne { dst, addr } => {
                &&& match addr.spec_addr(self.state, 4) {
                    Some(a) => {
                        let val = self.state.value_at::<i32>(a);
                        r is Continue && after == self.set_x_i32(dst.spec_index(), val)
                    },
                    None => r is Break && after == self.trapped(
                        XLoad32LeG32Bne::spec_width(),
                        Some(TrapKind::MemoryOutOfBounds),
                    ),
                }
            },
            Op::Xload64leG32bne { dst, addr } => {
                &&& match addr.spec_addr(self.state, 8) {
                    Some(a) => {
                        let val = self.state.value_at::<i64>(a);
                        r is Continue && after == self.set_x_i64(dst.spec_index(), val)
                    },
                    None => r is Break && after == self.trapped(
                        XLoad64LeG32Bne::spec_width(),
                        Some(TrapKind::MemoryOutOfBounds),
                    ),
                }
            },
            Op::Xstore8G32bne { addr, val } => {
                &&& match addr.spec_addr(self.state, 1) {
                    Some(a) => r is Continue && after == self.written::<u8>(
                        a,
                        self.x_u32(val.spec_index()) as u8,
                    ),
                    None => r is Break && after == self.trapped(
                        XStore8G32Bne::spec_width(),
                        Some(TrapKind::MemoryOutOfBounds),
                    ),
                }
            },
            Op::Xstore16leG32bne { addr, val } => {
                &&& match addr.spec_addr(self.state, 2) {
                    Some(a) => r is Continue && after == self.written::<u16>(
                        a,
                        self.x_u32(val.spec_index()) as u16,
                    ),
                    None => r is Break && after == self.trapped(
                        XStore16LeG32Bne::spec_width(),
                        Some(TrapKind::MemoryOutOfBounds),
                    ),
                }
            },
            Op::Xstore32leG32bne { addr, val } => {
                &&& match addr.spec_addr(self.state, 4) {
                    Some(a) => r is Continue && after == self.written::<u32>(
                        a,
                        self.x_u32(val.spec_index()),
                    ),
                    None => r is Break && after == self.trapped(
                        XStore32LeG32Bne::spec_width(),
                        Some(TrapKind::MemoryOutOfBounds),
                    ),
                }
            },
            Op::Xstore64leG32bne { addr, val } => {
                &&& match addr.spec_addr(self.state, 8) {
                    Some(a) => r is Continue && after == self.written::<u64>(
                        a,
                        self.x_u64(val.spec_index()),
                    ),
                    None => r is Break && after == self.trapped(
                        XStore64LeG32Bne::spec_width(),
                        Some(TrapKind::MemoryOutOfBounds),
                    ),
                }
            },
            _ => false,
        }
    }

    /// Is the instruction a move between the banks or a 128-bit instruction that leads from this interpreter to
    /// `after`, with `r` returned?
    pub open spec fn moves_steps_to(self, op: Op, r: ControlFlow<Done>, after: InterpView) -> bool {
        match op {
            Op::Xadd128 { dst_lo, dst_hi, lhs_lo, lhs_hi, rhs_lo, rhs_hi } => {
                &&& r is Continue
                &&& after == self.set_x_u128(
                    dst_lo.spec_index(),
                    dst_hi.spec_index(),
                    spec_add128(
                        self.x_u128(lhs_lo.spec_index(), lhs_hi.spec_index()),
                        self.x_u128(rhs_lo.spec_index(), rhs_hi.spec_index()),
                    ),
                )
            },
            Op::Xsub128 { dst_lo, dst_hi, lhs_lo, lhs_hi, rhs_lo, rhs_hi } => {
                &&& r is Continue
                &&& after == self.set_x_u128(
                    dst_lo.spec_index(),
                    dst_hi.spec_index(),
                    spec_sub128(
                        self.x_u128(lhs_lo.spec_index(), lhs_hi.spec_index()),
                        self.x_u128(rhs_lo.spec_index(), rhs_hi.spec_index()),
                    ),
                )
            },
            Op::Xwidemul64U { dst_lo, dst_hi, lhs, rhs } => {
                &&& r is Continue
                &&& after == self.set_x_u128(
                    dst_lo.spec_index(),
                    dst_hi.spec_index(),
                    (self.x_u64(lhs.spec_index()) * self.x_u64(rhs.spec_index())) as u128,
                )
            },
            Op::Xwidemul64S { dst_lo, dst_hi, lhs, rhs } => {
                &&& r is Continue
                &&& after == self.set_x_u128(
                    dst_lo.spec_index(),
                    dst_hi.spec_index(),
                    ((self.x_i64(lhs.spec_index()) * self.x_i64(rhs.spec_index())) as i128)
                        as u128,
                )
            },
            Op::Fmov { dst, src } => {
                &&& r is Continue
                &&& after == self.set_f(
                    dst.spec_index(),
                    self.state.f[src.spec_index()],
                )
            },
            Op::Vmov { dst, src } => {
                &&& r is Continue
                &&& after == self.set_v(
                    dst.spec_index(),
                    self.state.v[src.spec_index()],
                )
            },
            Op::Fconst32 { dst, bits } => {
                &&& r is Continue
                &&& after == self.set_f32_bits(dst.spec_index(), bits)
            },
            Op::Fconst64 { dst, bits } => {
                &&& r is Continue
                &&& after == self.set_f64_bits(dst.spec_index(), bits)
            },
            Op::Vconst128 { dst, val } => {
                &&& r is Continue
                &&& after == self.set_v128(dst.spec_index(), val)
            },
            Op::BitcastIntFromFloat32 { dst, src } => {
                &&& r is Continue
                &&& after == self.set_x_u32(
                    dst.spec_index(),
                    self.state.f[src.spec_index()].bits as u32,
                )
            },
            Op::BitcastIntFromFloat64 { dst, src } => {
                &&& r is Continue
                &&& after == self.set_x_u64(
                    dst.spec_index(),
                    self.state.f[src.spec_index()].bits,
                )
            },
            Op::BitcastFloatFromInt32 { dst, src } => {
                &&& r is Continue
                &&& after == self.set_f32_bits(
                    dst.spec_index(),
                    self.x_u32(src.spec_index()),
                )
            },
            Op::BitcastFloatFromInt64 { dst, src } => {
                &&& r is Continue
                &&& after == self.set_f64_bits(
                    dst.spec_index(),
                    self.x_u64(src.spec_index()),
                )
            },
            Op::Fselect32 { dst, cond, if_nonzero, if_zero } => {
                &&& r is Continue
                &&& after == self.set_f32_bits(
                    dst.spec_index(),
                    if self.x_u32(cond.spec_index()) != 0 {
                        self.state.f[if_nonzero.spec_index()].bits as u32
                    } else {
                        self.state.f[if_zero.spec_index()].bits as u32
                    },
                )
            },
            Op::Fselect64 { dst, cond, if_nonzero, if_zero } => {
                &&& r is Continue
                &&& after == self.set_f64_bits(
                    dst.spec_index(),
                    if self.x_u32(cond.spec_index()) != 0 {
                        self.state.f[if_nonzero.spec_index()].bits
                    } else {
                        self.state.f[if_zero.spec_index()].bits
                    },
                )
            },
            Op::Vband128 { operands } => {
                &&& r is Continue
                &&& after == self.set_v128(
                    operands.dst.spec_index(),
                    self.state.v[operands.src1.spec_index()].bits
                        & self.state.v[operands.src2.spec_index()].bits,
                )
            },
            Op::Vbor128 { operands } => {
                &&& r is Continue
                &&& after == self.set_v128(
                    operands.dst.spec_index(),
                    self.state.v[operands.src1.spec_index()].bits
                        | self.state.v[operands.src2.spec_index()].bits,
                )
            },
            Op::Vbxor128 { operands } => {
                &&& r is Continue
                &&& after == self.set_v128(
                    operands.dst.spec_index(),
                    self.state.v[operands.src1.spec_index()].bits
                        ^ self.state.v[operands.src2.spec_index()].bits,
                )
            },
            Op::Vbnot128 { dst, src } => {
                &&& r is Continue
                &&& after == self.set_v128(
                    dst.spec_index(),
                    !self.state.v[src.spec_index()].bits,
                )
            },
            Op::Vbitselect128 { dst, c, x, y } => {
                &&& r is Continue
                &&& ({
                    let cv = self.state.v[c.spec_index()].bits;
                    let xv = self.state.v[x.spec_index()].bits;
                    let yv = self.state.v[y.spec_index()].bits;
                    after == self.set_v128(dst.spec_index(), (cv & xv) | (!cv & yv))
                })
            },
            _ => false,
        }
    }

    /// Is the instruction a conversion of a floating-point number to an integer that leads from this interpreter to
    /// `after`, with `r` returned?
    pub open spec fn conversion_steps_to(
        self,
        op: Op,
        r: ControlFlow<Done>,
        after: InterpView,
    ) -> bool {
        match op {
            Op::X32FromF32S { dst, src } => {
                &&& match spec_checked(self.f32_truncated(src.spec_index()), true, 32) {
                    Converted::Value(v) => r is Continue && after == self.set_x_u32(
                        dst.spec_index(),
                        v as u32,
                    ),
                    Converted::Trap(kind) => r is Break && after == self.trapped(
                        X32FromF32S::spec_width(),
                        Some(kind),
                    ),
                }
            },
            Op::X32FromF32SSat { dst, src } => {
                &&& r is Continue
                &&& after == self.set_x_u32(
                    dst.spec_index(),
                    spec_saturated(self.f32_truncated(src.spec_index()), true, 32) as u32,
                )
            },
            Op::X32FromF32U { dst, src } => {
                &&& match spec_checked(self.f32_truncated(src.spec_index()), false, 32) {
                    Converted::Value(v) => r is Continue && after == self.set_x_u32(
                        dst.spec_index(),
                        v as u32,
                    ),
                    Converted::Trap(kind) => r is Break && after == self.trapped(
                        X32FromF32U::spec_width(),
                        Some(kind),
                    ),
                }
            },
            Op::X32FromF32USat { dst, src } => {
                &&& r is Continue
                &&& after == self.set_x_u32(
                    dst.spec_index(),
                    spec_saturated(self.f32_truncated(src.spec_index()), false, 32) as u32,
                )
            },
            Op::X32FromF64S { dst, src } => {
                &&& match spec_checked(self.f64_truncated(src.spec_index()), true, 32) {
                    Converted::Value(v) => r is Continue && after == self.set_x_u32(
                        dst.spec_index(),
                        v as u32,
                    ),
                    Converted::Trap(kind) => r is Break && after == self.trapped(
                        X32FromF64S::spec_width(),
                        Some(kind),
                    ),
                }
            },
            Op::X32FromF64SSat { dst, src } => {
                &&& r is Continue
                &&& after == self.set_x_u32(
                    dst.spec_index(),
                    spec_saturated(self.f64_truncated(src.spec_index()), true, 32) as u32,
                )
            },
            Op::X32FromF64U { dst, src } => {
                &&& match spec_checked(self.f64_truncated(src.spec_index()), false, 32) {
                    Converted::Value(v) => r is Continue && after == self.set_x_u32(
                        dst.spec_index(),
                        v as u32,
                    ),
                    Converted::Trap(kind) => r is Break && after == self.trapped(
                        X32FromF64U::spec_width(),
                        Some(kind),
                    ),
                }
            },
            Op::X32FromF64USat { dst, src } => {
                &&& r is Continue
                &&& after == self.set_x_u32(
                    dst.spec_index(),
                    spec_saturated(self.f64_truncated(src.spec_index()), false, 32) as u32,
                )
            },
            Op::X64FromF32S { dst, src } => {
                &&& match spec_checked(self.f32_truncated(src.spec_index()), true, 64) {
                    Converted::Value(v) => r is Continue && after == self.set_x_u64(
                        dst.spec_index(),
                        v,
                    ),
                    Converted::Trap(kind) => r is Break && after == self.trapped(
                        X64FromF32S::spec_width(),
                        Some(kind),
                    ),
                }
            },
            Op::X64FromF32SSat { dst, src } => {
                &&& r is Continue
                &&& after == self.set_x_u64(
                    dst.spec_index(),
                    spec_saturated(self.f32_truncated(src.spec_index()), true, 64),
                )
            },
            Op::X64FromF32U { dst, src } => {
                &&& match spec_checked(self.f32_truncated(src.spec_index()), false, 64) {
                    Converted::Value(v) => r is Continue && after == self.set_x_u64(
                        dst.spec_index(),
                        v,
                    ),
                    Converted::Trap(kind) => r is Break && after == self.trapped(
                        X64FromF32U::spec_width(),
                        Some(kind),
                    ),
                }
            },
            Op::X64FromF32USat { dst, src } => {
                &&& r is Continue
                &&& after == self.set_x_u64(
                    dst.spec_index(),
                    spec_saturated(self.f32_truncated(src.spec_index()), false, 64),
                )
            },
            Op::X64FromF64S { dst, src } => {
                &&& match spec_checked(self.f64_truncated(src.spec_index()), true, 64) {
                    Converted::Value(v) => r is Continue && after == self.set_x_u64(
                        dst.spec_index(),
                        v,
                    ),
                    Converted::Trap(kind) => r is Break && after == self.trapped(
                        X64FromF64S::spec_width(),
                        Some(kind),
                    ),
                }
            },
            Op::X64FromF64SSat { dst, src } => {
                &&& r is Continue
                &&& after == self.set_x_u64(
                    dst.spec_index(),
                    spec_saturated(self.f64_truncated(src.spec_index()), true, 64),
                )
            },
            Op::X64FromF64U { dst, src } => {
                &&& match spec_checked(self.f64_truncated(src.spec_index()), false, 64) {
                    Converted::Value(v) => r is Continue && after == self.set_x_u64(
                        dst.spec_index(),
                        v,
                    ),
                    Converted::Trap(kind) => r is Break && after == self.trapped(
                        X64FromF64U::spec_width(),
                        Some(kind),
                    ),
                }
            },
            Op::X64FromF64USat { dst, src } => {
                &&& r is Continue
                &&& after == self.set_x_u64(
                    dst.spec_index(),
                    spec_saturated(self.f64_truncated(src.spec_index()), false, 64),
                )
            },
            _ => false,
        }
    }

    /// Is the instruction a vector instruction that works lane by lane that leads from this interpreter to
    /// `after`, with `r` returned?
    pub open spec fn lanewise_steps_to(
        self,
        op: Op,
        r: ControlFlow<Done>,
        after: InterpView,
    ) -> bool {
        match op {
            Op::Vaddi8x16 { operands } => {
                &&& r is Continue
                &&& ({
                    let a = self.state.v[operands.src1.spec_index()].bits;
                    let b = self.state.v[operands.src2.spec_index()].bits;
                    after == self.set_v128(
                        operands.dst.spec_index(),
                        spec_from_lanes8(
                            Seq::new(
                                16,
                                |i: int|
                                    {
                                        let x = spec_lane8(a, i);
                                        let y = spec_lane8(b, i);
                                        x.wrapping_add(y)
                                    },
                            ),
                            16,
                        ),
                    )
                })
            },
            Op::Vsubi8x16 { operands } => {
                &&& r is Continue
                &&& ({
                    let a = self.state.v[operands.src1.spec_index()].bits;
                    let b = self.state.v[operands.src2.spec_index()].bits;
                    after == self.set_v128(
                        operands.dst.spec_index(),
                        spec_from_lanes8(
                            Seq::new(
                                16,
                                |i: int|
                                    {
                                        let x = spec_lane8(a, i);
                                        let y = spec_lane8(b, i);
                                        x.wrapping_sub(y)
                                    },
                            ),
                            16,
                        ),
                    )
                })
            },
            Op::Vmuli8x16 { operands } => {
                &&& r is Continue
                &&& ({
                    let a = self.state.v[operands.src1.spec_index()].bits;
                    let b = self.state.v[operands.src2.spec_index()].bits;
                    after == self.set_v128(
                        operands.dst.spec_index(),
                        spec_from_lanes8(
                            Seq::new(
                                16,
                                |i: int|
                                    {
                                        let x = spec_lane8(a, i);
                                        let y = spec_lane8(b, i);
                                        x.wrapping_mul(y)
                                    },
                            ),
                            16,
                        ),
                    )
                })
            },
            Op::Vaddi16x8 { operands } => {
                &&& r is Continue
                &&& ({
                    let a = self.state.v[operands.src1.spec_index()].bits;
                    let b = self.state.v[operands.src2.spec_index()].bits;
                    after == self.set_v128(
                        operands.dst.spec_index(),
                        spec_from_lanes16(
                            Seq::new(
                                8,
                                |i: int|
                                    {
                                        let x = spec_lane16(a, i);
                                        let y = spec_lane16(b, i);
                                        x.wrapping_add(y)
                                    },
                            ),
                            8,
                        ),
                    )
                })
            },
            Op::Vsubi16x8 { operands } => {
                &&& r is Continue
                &&& ({
                    let a = self.state.v[operands.src1.spec_index()].bits;
                    let b = self.state.v[operands.src2.spec_index()].bits;
                    after == self.set_v128(
                        operands.dst.spec_index(),
                        spec_from_lanes16(
                            Seq::new(
                                8,
                                |i: int|
                                    {
                                        let x = spec_lane16(a, i);
                                        let y = spec_lane16(b, i);
                                        x.wrapping_sub(y)
                                    },
                            ),
                            8,
                        ),
                    )
                })
            },
            Op::Vmuli16x8 { operands } => {
                &&& r is Continue
                &&& ({
                    let a = self.state.v[operands.src1.spec_index()].bits;
                    let b = self.state.v[operands.src2.spec_index()].bits;
                    after == self.set_v128(
                        operands.dst.spec_index(),
                        spec_from_lanes16(
                            Seq::new(
                                8,
                                |i: int|
                                    {
                                        let x = spec_lane16(a, i);
                                        let y = spec_lane16(b, i);
                                        x.wrapping_mul(y)
                                    },
                            ),
                            8,
                        ),
                    )
                })
            },
            Op::Vaddi32x4 { operands } => {
                &&& r is Continue
                &&& ({
                    let a = self.state.v[operands.src1.spec_index()].bits;
                    let b = self.state.v[operands.src2.spec_index()].bits;
                    after == self.set_v128(
                        operands.dst.spec_index(),
                        spec_from_lanes32(
                            Seq::new(
                                4,
                                |i: int|
                                    {
                                        let x = spec_lane32(a, i);
                                        let y = spec_lane32(b, i);
                                        x.wrapping_add(y)
                                    },
                            ),
                            4,
                        ),
                    )
                })
            },
            Op::Vsubi32x4 { operands } => {
                &&& r is Continue
                &&& ({
                    let a = self.state.v[operands.src1.spec_index()].bits;
                    let b = self.state.v[operands.src2.spec_index()].bits;
                    after == self.set_v128(
                        operands.dst.spec_index(),
                        spec_from_lanes32(
                            Seq::new(
                                4,
                                |i: int|
                                    {
                                        let x = spec_lane32(a, i);
                                        let y = spec_lane32(b, i);
                                        x.wrapping_sub(y)
                                    },
                            ),
                            4,
                        ),
                    )
                })
            },
            Op::Vmuli32x4 { operands } => {
                &&& r is Continue
                &&& ({
                    let a = self.state.v[operands.src1.spec_index()].bits;
                    let b = self.state.v[operands.src2.spec_index()].bits;
                    after == self.set_v128(
                        operands.dst.spec_index(),
                        spec_from_lanes32(
                            Seq::new(
                                4,
                                |i: int|
                                    {
                                        let x = spec_lane32(a, i);
                                        let y = spec_lane32(b, i);
                                        x.wrapping_mul(y)
                                    },
                            ),
                            4,
                        ),
                    )
                })
            },
            Op::Vaddi64x2 { operands } => {
                &&& r is Continue
                &&& ({
                    let a = self.state.v[operands.src1.spec_index()].bits;
                    let b = self.state.v[operands.src2.spec_index()].bits;
                    after == self.set_v128(
                        operands.dst.spec_index(),
                        spec_from_lanes64(
                            Seq::new(
                                2,
                                |i: int|
                                    {
                                        let x = spec_lane64(a, i);
                                        let y = spec_lane64(b, i);
                                        x.wrapping_add(y)
                                    },
                            ),
                            2,
                        ),
                    )
                })
            },
            Op::Vsubi64x2 { operands } => {
                &&& r is Continue
                &&& ({
                    let a = self.state.v[operands.src1.spec_index()].bits;
                    let b = self.state.v[operands.src2.spec_index()].bits;
                    after == self.set_v128(
                        operands.dst.spec_index(),
                        spec_from_lanes64(
                            Seq::new(
                                2,
                                |i: int|
                                    {
                                        let x = spec_lane64(a, i);
                                        let y = spec_lane64(b, i);
                                        x.wrapping_sub(y)
                                    },
                            ),
                            2,
                        ),
                    )
                })
            },
            Op::Vmuli64x2 { operands } => {
                &&& r is Continue
                &&& ({
                    let a = self.state.v[operands.src1.spec_index()].bits;
                    let b = self.state.v[operands.src2.spec_index()].bits;
                    after == self.set_v128(
                        operands.dst.spec_index(),
                        spec_from_lanes64(
                            Seq::new(
                                2,
                                |i: int|
                                    {
                                        let x = spec_lane64(a, i);
                                        let y = spec_lane64(b, i);
                                        x.wrapping_mul(y)
                                    },
                            ),
                            2,
                        ),
                    )
                })
            },
            Op::Vaddi8x16Sat { operands } => {
                &&& r is Continue
                &&& ({
                    let a = self.state.v[operands.src1.spec_index()].bits;
                    let b = self.state.v[operands.src2.spec_index()].bits;
                    after == self.set_v128(
                        operands.dst.spec_index(),
                        spec_from_lanes8(
                            Seq::new(
                                16,
                                |i: int|
                                    {
                                        let x = spec_lane8(a, i);
                                        let y = spec_lane8(b, i);
                                        spec_clamp_i8((x as i8) + (y as i8)) as u8
                                    },
                            ),
                            16,
                        ),
                    )
                })
            },
            Op::Vaddu8x16Sat { operands } => {
                &&& r is Continue
                &&& ({
                    let a = self.state.v[operands.src1.spec_index()].bits;
                    let b = self.state.v[operands.src2.spec_index()].bits;
                    after == self.set_v128(
                        operands.dst.spec_index(),
                        spec_from_lanes8(
                            Seq::new(
                                16,
                                |i: int|
                                    {
                                        let x = spec_lane8(a, i);
                                        let y = spec_lane8(b, i);
                                        spec_clamp_u8(x + y)
                                    },
                            ),
                            16,
                        ),
                    )
                })
            },
            Op::Vsubi8x16Sat { operands } => {
                &&& r is Continue
                &&& ({
                    let a = self.state.v[operands.src1.spec_index()].bits;
                    let b = self.state.v[operands.src2.spec_index()].bits;
                    after == self.set_v128(
                        operands.dst.spec_index(),
                        spec_from_lanes8(
                            Seq::new(
                                16,
                                |i: int|
                                    {
                                        let x = spec_lane8(a, i);
                                        let y = spec_lane8(b, i);
                                        spec_clamp_i8((x as i8) - (y as i8)) as u8
                                    },
                            ),
                            16,
                        ),
                    )
                })
            },
            Op::Vsubu8x16Sat { operands } => {
                &&& r is Continue
                &&& ({
                    let a = self.state.v[operands.src1.spec_index()].bits;
                    let b = self.state.v[operands.src2.spec_index()].bits;
                    after == self.set_v128(
                        operands.dst.spec_index(),
                        spec_from_lanes8(
                            Seq::new(
                                16,
                                |i: int|
                                    {
                                        let x = spec_lane8(a, i);
                                        let y = spec_lane8(b, i);
                                        spec_clamp_u8(x - y)
                                    },
                            ),
                            16,
                        ),
                    )
                })
            },
            Op::Vaddi16x8Sat { operands } => {
                &&& r is Continue
                &&& ({
                    let a = self.state.v[operands.src1.spec_index()].bits;
                    let b = self.state.v[operands.src2.spec_index()].bits;
                    after == self.set_v128(
                        operands.dst.spec_index(),
                        spec_from_lanes16(
                            Seq::new(
                                8,
                                |i: int|
                                    {
                                        let x = spec_lane16(a, i);
                                        let y = spec_lane16(b, i);
                                        spec_clamp_i16((x as i16) + (y as i16)) as u16
                                    },
                            ),
                            8,
                        ),
                    )
                })
            },
            Op::Vaddu16x8Sat { operands } => {
                &&& r is Continue
                &&& ({
                    let a = self.state.v[operands.src1.spec_index()].bits;
                    let b = self.state.v[operands.src2.spec_index()].bits;
                    after == self.set_v128(
                        operands.dst.spec_index(),
                        spec_from_lanes16(
                            Seq::new(
                                8,
                                |i: int|
                                    {
                                        let x = spec_lane16(a, i);
                                        let y = spec_lane16(b, i);
                                        spec_clamp_u16(x + y)
                                    },
                            ),
                            8,
                        ),
                    )
                })
            },
            Op::Vsubi16x8Sat { operands } => {
                &&& r is Continue
                &&& ({
                    let a = self.state.v[operands.src1.spec_index()].bits;
                    let b = self.state.v[operands.src2.spec_index()].bits;
                    after == self.set_v128(
                        operands.dst.spec_index(),
                        spec_from_lanes16(
                            Seq::new(
                                8,
                                |i: int|
                                    {
                                        let x = spec_lane16(a, i);
                                        let y = spec_lane16(b, i);
                                        spec_clamp_i16((x as i16) - (y as i16)) as u16
                                    },
                            ),
                            8,
                        ),
                    )
                })
            },
            Op::Vsubu16x8Sat { operands } => {
                &&& r is Continue
                &&& ({
                    let a = self.state.v[operands.src1.spec_index()].bits;
                    let b = self.state.v[operands.src2.spec_index()].bits;
                    after == self.set_v128(
                        operands.dst.spec_index(),
                        spec_from_lanes16(
                            Seq::new(
                                8,
                                |i: int|
                                    {
                                        let x = spec_lane16(a, i);
                                        let y = spec_lane16(b, i);
                                        spec_clamp_u16(x - y)
                                    },
                            ),
                            8,
                        ),
                    )
                })
            },
            Op::Vshli8x16 { operands } => {
                &&& r is Continue
                &&& ({
                    let a = self.state.v[operands.src1.spec_index()].bits;
                    let s = self.x_u32(operands.src2.spec_index());
                    after == self.set_v128(
                        operands.dst.spec_index(),
                        spec_from_lanes8(
                            Seq::new(
                                16,
                                |i: int|
                                    {
                                        let x = spec_lane8(a, i);
                                        x.wrapping_shl(s)
                                    },
                            ),
                            16,
                        ),
                    )
                })
            },
            Op::Vshri8x16S { operands } => {
                &&& r is Continue
                &&& ({
                    let a = self.state.v[operands.src1.spec_index()].bits;
                    let s = self.x_u32(operands.src2.spec_index());
                    after == self.set_v128(
                        operands.dst.spec_index(),
                        spec_from_lanes8(
                            Seq::new(
                                16,
                                |i: int|
                                    {
                                        let x = spec_lane8(a, i);
                                        (x as i8).wrapping_shr(s) as u8
                                    },
                            ),
                            16,
                        ),
                    )
                })
            },
            Op::Vshri8x16U { operands } => {
                &&& r is Continue
                &&& ({
                    let a = self.state.v[operands.src1.spec_index()].bits;
                    let s = self.x_u32(operands.src2.spec_index());
                    after == self.set_v128(
                        operands.dst.spec_index(),
                        spec_from_lanes8(
                            Seq::new(
                                16,
                                |i: int|
                                    {
                                        let x = spec_lane8(a, i);
                                        x.wrapping_shr(s)
                                    },
                            ),
                            16,
                        ),
                    )
                })
            },
            Op::Vshli16x8 { operands } => {
                &&& r is Continue
                &&& ({
                    let a = self.state.v[operands.src1.spec_index()].bits;
                    let s = self.x_u32(operands.src2.spec_index());
                    after == self.set_v128(
                        operands.dst.spec_index(),
                        spec_from_lanes16(
                            Seq::new(
                                8,
                                |i: int|
                                    {
                                        let x = spec_lane16(a, i);
                                        x.wrapping_shl(s)
                                    },
                            ),
                            8,
                        ),
                    )
                })
            },
            Op::Vshri16x8S { operands } => {
                &&& r is Continue
                &&& ({
                    let a = self.state.v[operands.src1.spec_index()].bits;
                    let s = self.x_u32(operands.src2.spec_index());
                    after == self.set_v128(
                        operands.dst.spec_index(),
                        spec_from_lanes16(
                            Seq::new(
                                8,
                                |i: int|
                                    {
                                        let x = spec_lane16(a, i);
                                        (x as i16).wrapping_shr(s) as u16
                                    },
                            ),
                            8,
                        ),
                    )
                })
            },
            Op::Vshri16x8U { operands } => {
                &&& r is Continue
                &&& ({
                    let a = self.state.v[operands.src1.spec_index()].bits;
                    let s = self.x_u32(operands.src2.spec_index());
                    after == self.set_v128(
                        operands.dst.spec_index(),
                        spec_from_lanes16(
                            Seq::new(
                                8,
                                |i: int|
                                    {
                                        let x = spec_lane16(a, i);
                                        x.wrapping_shr(s)
                                    },
                            ),
                            8,
                        ),
                    )
                })
            },
            Op::Vshli32x4 { operands } => {
                &&& r is Continue
                &&& ({
                    let a = self.state.v[operands.src1.spec_index()].bits;
                    let s = self.x_u32(operands.src2.spec_index());
                    after == self.set_v128(
                        operands.dst.spec_index(),
                        spec_from_lanes32(
                            Seq::new(
                                4,
                                |i: int|
                                    {
                                        let x = spec_lane32(a, i);
                                        x.wrapping_shl(s)
                                    },
                            ),
                            4,
                        ),
                    )
                })
            },
            Op::Vshri32x4S { operands } => {
                &&& r is Continue
                &&& ({
                    let a = self.state.v[operands.src1.spec_index()].bits;
                    let s = self.x_u32(operands.src2.spec_index());
                    after == self.set_v128(
                        operands.dst.spec_index(),
                        spec_from_lanes32(
                            Seq::new(
                                4,
                                |i: int|
                                    {
                                        let x = spec_lane32(a, i);
                                        (x as i32).wrapping_shr(s) as u32
                                    },
                            ),
                            4,
                        ),
                    )
                })
            },
            Op::Vshri32x4U { operands } => {
                &&& r is Continue
                &&& ({
                    let a = self.state.v[operands.src1.spec_index()].bits;
                    let s = self.x_u32(operands.src2.spec_index());
                    after == self.set_v128(
                        operands.dst.spec_index(),
                        spec_from_lanes32(
                            Seq::new(
                                4,
                                |i: int|
                                    {
                                        let x = spec_lane32(a, i);
                                        x.wrapping_shr(s)
                                    },
                            ),
                            4,
                        ),
                    )
                })
            },
            Op::Vshli64x2 { operands } => {
                &&& r is Continue
                &&& ({
                    let a = self.state.v[operands.src1.spec_index()].bits;
                    let s = self.x_u32(operands.src2.spec_index());
                    after == self.set_v128(
                        operands.dst.spec_index(),
                        spec_from_lanes64(
                            Seq::new(
                                2,
                                |i: int|
                                    {
                                        let x = spec_lane64(a, i);
                                        x.wrapping_shl(s)
                                    },
                            ),
                            2,
                        ),
                    )
                })
            },
            Op::Vshri64x2S { operands } => {
                &&& r is Continue
                &&& ({
                    let a = self.state.v[operands.src1.spec_index()].bits;
                    let s = self.x_u32(operands.src2.spec_index());
                    after == self.set_v128(
                        operands.dst.spec_index(),
                        spec_from_lanes64(
                            Seq::new(
                                2,
                                |i: int|
                                    {
                                        let x = spec_lane64(a, i);
                                        (x as i64).wrapping_shr(s) as u64
                                    },
                            ),
                            2,
                        ),
                    )
                })
            },
            Op::Vshri64x2U { operands } => {
                &&& r is Continue
                &&& ({
                    let a = self.state.v[operands.src1.spec_index()].bits;
                    let s = self.x_u32(operands.src2.spec_index());
                    after == self.set_v128(
                        operands.dst.spec_index(),
                        spec_from_lanes64(
                            Seq::new(
                                2,
                                |i: int|
                                    {
                                        let x = spec_lane64(a, i);
                                        x.wrapping_shr(s)
                                    },
                            ),
                            2,
                        ),
                    )
                })
            },
            Op::Veq8x16 { operands } => {
                &&& r is Continue
                &&& ({
                    let a = self.state.v[operands.src1.spec_index()].bits;
                    let b = self.state.v[operands.src2.spec_index()].bits;
                    after == self.set_v128(
                        operands.dst.spec_index(),
                        spec_from_lanes8(
                            Seq::new(
                                16,
                                |i: int|
                                    {
                                        let x = spec_lane8(a, i);
                                        let y = spec_lane8(b, i);
                                        if x == y { 0xffu8 } else { 0u8 }
                                    },
                            ),
                            16,
                        ),
                    )
                })
            },
            Op::Vneq8x16 { operands } => {
                &&& r is Continue
                &&& ({
                    let a = self.state.v[operands.src1.spec_index()].bits;
                    let b = self.state.v[operands.src2.spec_index()].bits;
                    after == self.set_v128(
                        operands.dst.spec_index(),
                        spec_from_lanes8(
                            Seq::new(
                                16,
                                |i: int|
                                    {
                                        let x = spec_lane8(a, i);
                                        let y = spec_lane8(b, i);
                                        if x != y { 0xffu8 } else { 0u8 }
                                    },
                            ),
                            16,
                        ),
                    )
                })
            },
            Op::Vslt8x16 { operands } => {
                &&& r is Continue
                &&& ({
                    let a = self.state.v[operands.src1.spec_index()].bits;
                    let b = self.state.v[operands.src2.spec_index()].bits;
                    after == self.set_v128(
                        operands.dst.spec_index(),
                        spec_from_lanes8(
                            Seq::new(
                                16,
                                |i: int|
                                    {
                                        let x = spec_lane8(a, i);
                                        let y = spec_lane8(b, i);
                                        if (x as i8) < (y as i8) { 0xffu8 } else { 0u8 }
                                    },
                            ),
                            16,
                        ),
                    )
                })
            },
            Op::Vslteq8x16 { operands } => {
                &&& r is Continue
                &&& ({
                    let a = self.state.v[operands.src1.spec_index()].bits;
                    let b = self.state.v[operands.src2.spec_index()].bits;
                    after == self.set_v128(
                        operands.dst.spec_index(),
                        spec_from_lanes8(
                            Seq::new(
                                16,
                                |i: int|
                                    {
                                        let x = spec_lane8(a, i);
                                        let y = spec_lane8(b, i);
                                        if (x as i8) <= (y as i8) { 0xffu8 } else { 0u8 }
                                    },
                            ),
                            16,
                        ),
                    )
                })
            },
            Op::Vult8x16 { operands } => {
                &&& r is Continue
                &&& ({
                    let a = self.state.v[operands.src1.spec_index()].bits;
                    let b = self.state.v[operands.src2.spec_index()].bits;
                    after == self.set_v128(
                        operands.dst.spec_index(),
                        spec_from_lanes8(
                            Seq::new(
                                16,
                                |i: int|
                                    {
                                        let x = spec_lane8(a, i);
                                        let y = spec_lane8(b, i);
                                        if x < y { 0xffu8 } else { 0u8 }
                                    },
                            ),
                            16,
                        ),
                    )
                })
            },
            Op::Vulteq8x16 { operands } => {
                &&& r is Continue
                &&& ({
                    let a = self.state.v[operands.src1.spec_index()].bits;
                    let b = self.state.v[operands.src2.spec_index()].bits;
                    after == self.set_v128(
                        operands.dst.spec_index(),
                        spec_from_lanes8(
                            Seq::new(
                                16,
                                |i: int|
                                    {
                                        let x = spec_lane8(a, i);
                                        let y = spec_lane8(b, i);
                                        if x <= y { 0xffu8 } else { 0u8 }
                                    },
                            ),
                            16,
                        ),
                    )
                })
            },
            Op::Veq16x8 { operands } => {
                &&& r is Continue
                &&& ({
                    let a = self.state.v[operands.src1.spec_index()].bits;
                    let b = self.state.v[operands.src2.spec_index()].bits;
                    after == self.set_v128(
                        operands.dst.spec_index(),
                        spec_from_lanes16(
                            Seq::new(
                                8,
                                |i: int|
                                    {
                                        let x = spec_lane16(a, i);
                                        let y = spec_lane16(b, i);
                                        if x == y { 0xffffu16 } else { 0u16 }
                                    },
                            ),
                            8,
                        ),
                    )
                })
            },
            Op::Vneq16x8 { operands } => {
                &&& r is Continue
                &&& ({
                    let a = self.state.v[operands.src1.spec_index()].bits;
                    let b = self.state.v[operands.src2.spec_index()].bits;
                    after == self.set_v128(
                        operands.dst.spec_index(),
                        spec_from_lanes16(
                            Seq::new(
                                8,
                                |i: int|
                                    {
                                        let x = spec_lane16(a, i);
                                        let y = spec_lane16(b, i);
                                        if x != y { 0xffffu16 } else { 0u16 }
                                    },
                            ),
                            8,
                        ),
                    )
                })
            },
            Op::Vslt16x8 { operands } => {
                &&& r is Continue
                &&& ({
                    let a = self.state.v[operands.src1.spec_index()].bits;
                    let b = self.state.v[operands.src2.spec_index()].bits;
                    after == self.set_v128(
                        operands.dst.spec_index(),
                        spec_from_lanes16(
                            Seq::new(
                                8,
                                |i: int|
                                    {
                                        let x = spec_lane16(a, i);
                                        let y = spec_lane16(b, i);
                                        if (x as i16) < (y as i16) { 0xffffu16 } else { 0u16 }
                                    },
                            ),
                            8,
                        ),
                    )
                })
            },
            Op::Vslteq16x8 { operands } => {
                &&& r is Continue
                &&& ({
                    let a = self.state.v[operands.src1.spec_index()].bits;
                    let b = self.state.v[operands.src2.spec_index()].bits;
                    after == self.set_v128(
                        operands.dst.spec_index(),
                        spec_from_lanes16(
                            Seq::new(
                                8,
                                |i: int|
                                    {
                                        let x = spec_lane16(a, i);
                                        let y = spec_lane16(b, i);
                                        if (x as i16) <= (y as i16) { 0xffffu16 } else { 0u16 }
                                    },
                            ),
                            8,
                        ),
                    )
                })
            },
            Op::Vult16x8 { operands } => {
                &&& r is Continue
                &&& ({
                    let a = self.state.v[operands.src1.spec_index()].bits;
                    let b = self.state.v[operands.src2.spec_index()].bits;
                    after == self.set_v128(
                        operands.dst.spec_index(),
                        spec_from_lanes16(
                            Seq::new(
                                8,
                                |i: int|
                                    {
                                        let x = spec_lane16(a, i);
                                        let y = spec_lane16(b, i);
                                        if x < y { 0xffffu16 } else { 0u16 }
                                    },
                            ),
                            8,
                        ),
                    )
                })
            },
            Op::Vulteq16x8 { operands } => {
                &&& r is Continue
                &&& ({
                    let a = self.state.v[operands.src1.spec_index()].bits;
                    let b = self.state.v[operands.src2.spec_index()].bits;
                    after == self.set_v128(
                        operands.dst.spec_index(),
                        spec_from_lanes16(
                            Seq::new(
                                8,
                                |i: int|
                                    {
                                        let x = spec_lane16(a, i);
                                        let y = spec_lane16(b, i);
                                        if x <= y { 0xffffu16 } else { 0u16 }
                                    },
                            ),
                            8,
                        ),
                    )
                })
            },
            Op::Veq32x4 { operands } => {
                &&& r is Continue
                &&& ({
                    let a = self.state.v[operands.src1.spec_index()].bits;
                    let b = self.state.v[operands.src2.spec_index()].bits;
                    after == self.set_v128(
                        operands.dst.spec_index(),
                        spec_from_lanes32(
                            Seq::new(
                                4,
                                |i: int|
                                    {
                                        let x = spec_lane32(a, i);
                                        let y = spec_lane32(b, i);
                                        if x == y { 0xffffffffu32 } else { 0u32 }
                                    },
                            ),
                            4,
                        ),
                    )
                })
            },
            Op::Vneq32x4 { operands } => {
                &&& r is Continue
                &&& ({
                    let a = self.state.v[operands.src1.spec_index()].bits;
                    let b = self.state.v[operands.src2.spec_index()].bits;
                    after == self.set_v128(
                        operands.dst.spec_index(),
                        spec_from_lanes32(
                            Seq::new(
                                4,
                                |i: int|
                                    {
                                        let x = spec_lane32(a, i);
                                        let y = spec_lane32(b, i);
                                        if x != y { 0xffffffffu32 } else { 0u32 }
                                    },
                            ),
                            4,
                        ),
                    )
                })
            },
            Op::Vslt32x4 { operands } => {
                &&& r is Continue
                &&& ({
                    let a = self.state.v[operands.src1.spec_index()].bits;
                    let b = self.state.v[operands.src2.spec_index()].bits;
                    after == self.set_v128(
                        operands.dst.spec_index(),
                        spec_from_lanes32(
                            Seq::new(
                                4,
                                |i: int|
                                    {
                                        let x = spec_lane32(a, i);
                                        let y = spec_lane32(b, i);
                                        if (x as i32) < (y as i32) { 0xffffffffu32 } else { 0u32 }
                                    },
                            ),
                            4,
                        ),
                    )
                })
            },
            Op::Vslteq32x4 { operands } => {
                &&& r is Continue
                &&& ({
                    let a = self.state.v[operands.src1.spec_index()].bits;
                    let b = self.state.v[operands.src2.spec_index()].bits;
                    after == self.set_v128(
                        operands.dst.spec_index(),
                        spec_from_lanes32(
                            Seq::new(
                                4,
                                |i: int|
                                    {
                                        let x = spec_lane32(a, i);
                                        let y = spec_lane32(b, i);
                                        if (x as i32) <= (y as i32) { 0xffffffffu32 } else { 0u32 }
                                    },
                            ),
                            4,
                        ),
                    )
                })
            },
            Op::Vult32x4 { operands } => {
                &&& r is Continue
                &&& ({
                    let a = self.state.v[operands.src1.spec_index()].bits;
                    let b = self.state.v[operands.src2.spec_index()].bits;
                    after == self.set_v128(
                        operands.dst.spec_index(),
                        spec_from_lanes32(
                            Seq::new(
                                4,
                                |i: int|
                                    {
                                        let x = spec_lane32(a, i);
                                        let y = spec_lane32(b, i);
                                        if x < y { 0xffffffffu32 } else { 0u32 }
                                    },
                            ),
                            4,
                        ),
                    )
                })
            },
            Op::Vulteq32x4 { operands } => {
                &&& r is Continue
                &&& ({
                    let a = self.state.v[operands.src1.spec_index()].bits;
                    let b = self.state.v[operands.src2.spec_index()].bits;
                    after == self.set_v128(
                        operands.dst.spec_index(),
                        spec_from_lanes32(
                            Seq::new(
                                4,
                                |i: int|
                                    {
                                        let x = spec_lane32(a, i);
                                        let y = spec_lane32(b, i);
                                        if x <= y { 0xffffffffu32 } else { 0u32 }
                                    },
                            ),
                            4,
                        ),
                    )
                })
            },
            Op::Veq64x2 { operands } => {
                &&& r is Continue
                &&& ({
                    let a = self.state.v[operands.src1.spec_index()].bits;
                    let b = self.state.v[operands.src2.spec_index()].bits;
                    after == self.set_v128(
                        operands.dst.spec_index(),
                        spec_from_lanes64(
                            Seq::new(
                                2,
                                |i: int|
                                    {
                                        let x = spec_lane64(a, i);
                                        let y = spec_lane64(b, i);
                                        if x == y { 0xffffffffffffffffu64 } else { 0u64 }
                                    },
                            ),
                            2,
                        ),
                    )
                })
            },
            Op::Vneq64x2 { operands } => {
                &&& r is Continue
                &&& ({
                    let a = self.state.v[operands.src1.spec_index()].bits;
                    let b = self.state.v[operands.src2.spec_index()].bits;
                    after == self.set_v128(
                        operands.dst.spec_index(),
                        spec_from_lanes64(
                            Seq::new(
                                2,
                                |i: int|
                                    {
                                        let x = spec_lane64(a, i);
                                        let y = spec_lane64(b, i);
                                        if x != y { 0xffffffffffffffffu64 } else { 0u64 }
                                    },
                            ),
                            2,
                        ),
                    )
                })
            },
            Op::Vslt64x2 { operands } => {
                &&& r is Continue
                &&& ({
                    let a = self.state.v[operands.src1.spec_index()].bits;
                    let b = self.state.v[operands.src2.spec_index()].bits;
                    after == self.set_v128(
                        operands.dst.spec_index(),
                        spec_from_lanes64(
                            Seq::new(
                                2,
                                |i: int|
                                    {
                                        let x = spec_lane64(a, i);
                                        let y = spec_lane64(b, i);
                                        if (x as i64) < (y as i64) {
                                            0xffffffffffffffffu64
                                        } else {
                                            0u64
                                        }
                                    },
                            ),
                            2,
                        ),
                    )
                })
            },
            Op::Vslteq64x2 { operands } => {
                &&& r is Continue
                &&& ({
                    let a = self.state.v[operands.src1.spec_index()].bits;
                    let b = self.state.v[operands.src2.spec_index()].bits;
                    after == self.set_v128(
                        operands.dst.spec_index(),
                        spec_from_lanes64(
                            Seq::new(
                                2,
                                |i: int|
                                    {
                                        let x = spec_lane64(a, i);
                                        let y = spec_lane64(b, i);
                                        if (x as i64) <= (y as i64) {
                                            0xffffffffffffffffu64
                                        } else {
                                            0u64
                                        }
                                    },
                            ),
                            2,
                        ),
                    )
                })
            },
            Op::Vult64x2 { operands } => {
                &&& r is Continue
                &&& ({
                    let a = self.state.v[operands.src1.spec_index()].bits;
                    let b = self.state.v[operands.src2.spec_index()].bits;
                    after == self.set_v128(
                        operands.dst.spec_index(),
                        spec_from_lanes64(
                            Seq::new(
                                2,
                                |i: int|
                                    {
                                        let x = spec_lane64(a, i);
                                        let y = spec_lane64(b, i);
                                        if x < y { 0xffffffffffffffffu64 } else { 0u64 }
                                    },
                            ),
                            2,
                        ),
                    )
                })
            },
            Op::Vulteq64x2 { operands } => {
                &&& r is Continue
                &&& ({
                    let a = self.state.v[operands.src1.spec_index()].bits;
                    let b = self.state.v[operands.src2.spec_index()].bits;
                    after == self.set_v128(
                        operands.dst.spec_index(),
                        spec_from_lanes64(
                            Seq::new(
                                2,
                                |i: int|
                                    {
                                        let x = spec_lane64(a, i);
                                        let y = spec_lane64(b, i);
                                        if x <= y { 0xffffffffffffffffu64 } else { 0u64 }
                                    },
                            ),
                            2,
                        ),
                    )
                })
            },
            Op::Vneg8x16 { dst, src } => {
                &&& r is Continue
                &&& ({
                    let a = self.state.v[src.spec_index()].bits;
                    after == self.set_v128(
                        dst.spec_index(),
                        spec_from_lanes8(
                            Seq::new(
                                16,
                                |i: int|
                                    {
                                        let x = spec_lane8(a, i);
                                        0u8.wrapping_sub(x)
                                    },
                            ),
                            16,
                        ),
                    )
                })
            },
            Op::Vabs8x16 { dst, src } => {
                &&& r is Continue
                &&& ({
                    let a = self.state.v[src.spec_index()].bits;
                    after == self.set_v128(
                        dst.spec_index(),
                        spec_from_lanes8(
                            Seq::new(
                                16,
                                |i: int|
                                    {
                                        let x = spec_lane8(a, i);
                                        if (x as i8) < 0 { 0u8.wrapping_sub(x) } else { x }
                                    },
                            ),
                            16,
                        ),
                    )
                })
            },
            Op::Vneg16x8 { dst, src } => {
                &&& r is Continue
                &&& ({
                    let a = self.state.v[src.spec_index()].bits;
                    after == self.set_v128(
                        dst.spec_index(),
                        spec_from_lanes16(
                            Seq::new(
                                8,
                                |i: int|
                                    {
                                        let x = spec_lane16(a, i);
                                        0u16.wrapping_sub(x)
                                    },
                            ),
                            8,
                        ),
                    )
                })
            },
            Op::Vabs16x8 { dst, src } => {
                &&& r is Continue
                &&& ({
                    let a = self.state.v[src.spec_index()].bits;
                    after == self.set_v128(
                        dst.spec_index(),
                        spec_from_lanes16(
                            Seq::new(
                                8,
                                |i: int|
                                    {
                                        let x = spec_lane16(a, i);
                                        if (x as i16) < 0 { 0u16.wrapping_sub(x) } else { x }
                                    },
                            ),
                            8,
                        ),
                    )
                })
            },
            Op::Vneg32x4 { dst, src } => {
                &&& r is Continue
                &&& ({
                    let a = self.state.v[src.spec_index()].bits;
                    after == self.set_v128(
                        dst.spec_index(),
                        spec_from_lanes32(
                            Seq::new(
                                4,
                                |i: int|
                                    {
                                        let x = spec_lane32(a, i);
                                        0u32.wrapping_sub(x)
                                    },
                            ),
                            4,
                        ),
                    )
                })
            },
            Op::Vabs32x4 { dst, src } => {
                &&& r is Continue
                &&& ({
                    let a = self.state.v[src.spec_index()].bits;
                    after == self.set_v128(
                        dst.spec_index(),
                        spec_from_lanes32(
                            Seq::new(
                                4,
                                |i: int|
                                    {
                                        let x = spec_lane32(a, i);
                                        if (x as i32) < 0 { 0u32.wrapping_sub(x) } else { x }
                                    },
                            ),
                            4,
                        ),
                    )
                })
            },
            Op::Vneg64x2 { dst, src } => {
                &&& r is Continue
                &&& ({
                    let a = self.state.v[src.spec_index()].bits;
                    after == self.set_v128(
                        dst.spec_index(),
                        spec_from_lanes64(
                            Seq::new(
                                2,
                                |i: int|
                                    {
                                        let x = spec_lane64(a, i);
                                        0u64.wrapping_sub(x)
                                    },
                            ),
                            2,
                        ),
                    )
                })
            },
            Op::Vabs64x2 { dst, src } => {
                &&& r is Continue
                &&& ({
                    let a = self.state.v[src.spec_index()].bits;
                    after == self.set_v128(
                        dst.spec_index(),
                        spec_from_lanes64(
                            Seq::new(
                                2,
                                |i: int|
                                    {
                                        let x = spec_lane64(a, i);
                                        if (x as i64) < 0 { 0u64.wrapping_sub(x) } else { x }
                                    },
                            ),
                            2,
                        ),
                    )
                })
            },
            Op::Vmin8x16S { operands } => {
                &&& r is Continue
                &&& ({
                    let a = self.state.v[operands.src1.spec_index()].bits;
                    let b = self.state.v[operands.src2.spec_index()].bits;
                    after == self.set_v128(
                        operands.dst.spec_index(),
                        spec_from_lanes8(
                            Seq::new(
                                16,
                                |i: int|
                                    {
                                        let x = spec_lane8(a, i);
                                        let y = spec_lane8(b, i);
                                        if (x as i8) < (y as i8) { x } else { y }
                                    },
                            ),
                            16,
                        ),
                    )
                })
            },
            Op::Vmin8x16U { operands } => {
                &&& r is Continue
                &&& ({
                    let a = self.state.v[operands.src1.spec_index()].bits;
                    let b = self.state.v[operands.src2.spec_index()].bits;
                    after == self.set_v128(
                        operands.dst.spec_index(),
                        spec_from_lanes8(
                            Seq::new(
                                16,
                                |i: int|
                                    {
                                        let x = spec_lane8(a, i);
                                        let y = spec_lane8(b, i);
                                        if x < y { x } else { y }
                                    },
                            ),
                            16,
                        ),
                    )
                })
            },
            Op::Vmax8x16S { operands } => {
                &&& r is Continue
                &&& ({
                    let a = self.state.v[operands.src1.spec_index()].bits;
                    let b = self.state.v[operands.src2.spec_index()].bits;
                    after == self.set_v128(
                        operands.dst.spec_index(),
                        spec_from_lanes8(
                            Seq::new(
                                16,
                                |i: int|
                                    {
                                        let x = spec_lane8(a, i);
                                        let y = spec_lane8(b, i);
                                        if (x as i8) > (y as i8) { x } else { y }
                                    },
                            ),
                            16,
                        ),
                    )
                })
            },
            Op::Vmax8x16U { operands } => {
                &&& r is Continue
                &&& ({
                    let a = self.state.v[operands.src1.spec_index()].bits;
                    let b = self.state.v[operands.src2.spec_index()].bits;
                    after == self.set_v128(
                        operands.dst.spec_index(),
                        spec_from_lanes8(
                            Seq::new(
                                16,
                                |i: int|
                                    {
                                        let x = spec_lane8(a, i);
                                        let y = spec_lane8(b, i);
                                        if x > y { x } else { y }
                                    },
                            ),
                            16,
                        ),
                    )
                })
            },
            Op::Vmin16x8S { operands } => {
                &&& r is Continue
                &&& ({
                    let a = self.state.v[operands.src1.spec_index()].bits;
                    let b = self.state.v[operands.src2.spec_index()].bits;
                    after == self.set_v128(
                        operands.dst.spec_index(),
                        spec_from_lanes16(
                            Seq::new(
                                8,
                                |i: int|
                                    {
                                        let x = spec_lane16(a, i);
                                        let y = spec_lane16(b, i);
                                        if (x as i16) < (y as i16) { x } else { y }
                                    },
                            ),
                            8,
                        ),
                    )
                })
            },
            Op::Vmin16x8U { operands } => {
                &&& r is Continue
                &&& ({
                    let a = self.state.v[operands.src1.spec_index()].bits;
                    let b = self.state.v[operands.src2.spec_index()].bits;
                    after == self.set_v128(
                        operands.dst.spec_index(),
                        spec_from_lanes16(
                            Seq::new(
                                8,
                                |i: int|
                                    {
                                        let x = spec_lane16(a, i);
                                        let y = spec_lane16(b, i);
                                        if x < y { x } else { y }
                                    },
                            ),
                            8,
                        ),
                    )
                })
            },
            Op::Vmax16x8S { operands } => {
                &&& r is Continue
                &&& ({
                    let a = self.state.v[operands.src1.spec_index()].bits;
                    let b = self.state.v[operands.src2.spec_index()].bits;
                    after == self.set_v128(
                        operands.dst.spec_index(),
                        spec_from_lanes16(
                            Seq::new(
                                8,
                                |i: int|
                                    {
                                        let x = spec_lane16(a, i);
                                        let y = spec_lane16(b, i);
                                        if (x as i16) > (y as i16) { x } else { y }
                                    },
                            ),
                            8,
                        ),
                    )
                })
            },
            Op::Vmax16x8U { operands } => {
                &&& r is Continue
                &&& ({
                    let a = self.state.v[operands.src1.spec_index()].bits;
                    let b = self.state.v[operands.src2.spec_index()].bits;
                    after == self.set_v128(
                        operands.dst.spec_index(),
                        spec_from_lanes16(
                            Seq::new(
                                8,
                                |i: int|
                                    {
                                        let x = spec_lane16(a, i);
                                        let y = spec_lane16(b, i);
                                        if x > y { x } else { y }
                                    },
                            ),
                            8,
                        ),
                    )
                })
            },
            Op::Vmin32x4S { operands } => {
                &&& r is Continue
                &&& ({
                    let a = self.state.v[operands.src1.spec_index()].bits;
                    let b = self.state.v[operands.src2.spec_index()].bits;
                    after == self.set_v128(
                        operands.dst.spec_index(),
                        spec_from_lanes32(
                            Seq::new(
                                4,
                                |i: int|
                                    {
                                        let x = spec_lane32(a, i);
                                        let y = spec_lane32(b, i);
                                        if (x as i32) < (y as i32) { x } else { y }
                                    },
                            ),
                            4,
                        ),
                    )
                })
            },
            Op::Vmin32x4U { operands } => {
                &&& r is Continue
                &&& ({
                    let a = self.state.v[operands.src1.spec_index()].bits;
                    let b = self.state.v[operands.src2.spec_index()].bits;
                    after == self.set_v128(
                        operands.dst.spec_index(),
                        spec_from_lanes32(
                            Seq::new(
                                4,
                                |i: int|
                                    {
                                        let x = spec_lane32(a, i);
                                        let y = spec_lane32(b, i);
                                        if x < y { x } else { y }
                                    },
                            ),
                            4,
                        ),
                    )
                })
            },
            Op::Vmax32x4S { operands } => {
                &&& r is Continue
                &&& ({
                    let a = self.state.v[operands.src1.spec_index()].bits;
                    let b = self.state.v[operands.src2.spec_index()].bits;
                    after == self.set_v128(
                        operands.dst.spec_index(),
                        spec_from_lanes32(
                            Seq::new(
                                4,
                                |i: int|
                                    {
                                        let x = spec_lane32(a, i);
                                        let y = spec_lane32(b, i);
                                        if (x as i32) > (y as i32) { x } else { y }
                                    },
                            ),
                            4,
                        ),
                    )
                })
            },
            Op::Vmax32x4U { operands } => {
                &&& r is Continue
                &&& ({
                    let a = self.state.v[operands.src1.spec_index()].bits;
                    let b = self.state.v[operands.src2.spec_index()].bits;
                    after == self.set_v128(
                        operands.dst.spec_index(),
                        spec_from_lanes32(
                            Seq::new(
                                4,
                                |i: int|
                                    {
                                        let x = spec_lane32(a, i);
                                        let y = spec_lane32(b, i);
                                        if x > y { x } else { y }
                                    },
                            ),
                            4,
                        ),
                    )
                })
            },
            Op::Vavground8x16 { operands } => {
                &&& r is Continue
                &&& ({
                    let a = self.state.v[operands.src1.spec_index()].bits;
                    let b = self.state.v[operands.src2.spec_index()].bits;
                    after == self.set_v128(
                        operands.dst.spec_index(),
                        spec_from_lanes8(
                            Seq::new(
                                16,
                                |i: int|
                                    {
                                        let x = spec_lane8(a, i);
                                        let y = spec_lane8(b, i);
                                        ((x + y + 1) / 2) as u8
                                    },
                            ),
                            16,
                        ),
                    )
                })
            },
            Op::Vavground16x8 { operands } => {
                &&& r is Continue
                &&& ({
                    let a = self.state.v[operands.src1.spec_index()].bits;
                    let b = self.state.v[operands.src2.spec_index()].bits;
                    after == self.set_v128(
                        operands.dst.spec_index(),
                        spec_from_lanes16(
                            Seq::new(
                                8,
                                |i: int|
                                    {
                                        let x = spec_lane16(a, i);
                                        let y = spec_lane16(b, i);
                                        ((x + y + 1) / 2) as u16
                                    },
                            ),
                            8,
                        ),
                    )
                })
            },
            Op::Vpopcnt8x16 { dst, src } => {
                &&& r is Continue
                &&& ({
                    let a = self.state.v[src.spec_index()].bits;
                    after == self.set_v128(
                        dst.spec_index(),
                        spec_from_lanes8(
                            Seq::new(
                                16,
                                |i: int|
                                    {
                                        let x = spec_lane8(a, i);
                                        spec_count_ones(x as u64) as u8
                                    },
                            ),
                            16,
                        ),
                    )
                })
            },
            Op::Vqmulrsi16x8 { operands } => {
                &&& r is Continue
                &&& ({
                    let a = self.state.v[operands.src1.spec_index()].bits;
                    let b = self.state.v[operands.src2.spec_index()].bits;
                    after == self.set_v128(
                        operands.dst.spec_index(),
                        spec_from_lanes16(
                            Seq::new(
                                8,
                                |i: int|
                                    {
                                        let x = spec_lane16(a, i);
                                        let y = spec_lane16(b, i);
                                        spec_qmulr((x as i16), (y as i16)) as u16
                                    },
                            ),
                            8,
                        ),
                    )
                })
            },
            Op::Vnegf32x4 { dst, src } => {
                &&& r is Continue
                &&& ({
                    let a = self.state.v[src.spec_index()].bits;
                    after == self.set_v128(
                        dst.spec_index(),
                        spec_from_lanes32(
                            Seq::new(
                                4,
                                |i: int|
                                    {
                                        let x = spec_lane32(a, i);
                                        x ^ 0x8000_0000u32
                                    },
                            ),
                            4,
                        ),
                    )
                })
            },
            Op::Vnegf64x2 { dst, src } => {
                &&& r is Continue
                &&& ({
                    let a = self.state.v[src.spec_index()].bits;
                    after == self.set_v128(
                        dst.spec_index(),
                        spec_from_lanes64(
                            Seq::new(
                                2,
                                |i: int|
                                    {
                                        let x = spec_lane64(a, i);
                                        x ^ 0x8000_0000_0000_0000u64
                                    },
                            ),
                            2,
                        ),
                    )
                })
            },
            Op::Vabsf32x4 { dst, src } => {
                &&& r is Continue
                &&& ({
                    let a = self.state.v[src.spec_index()].bits;
                    after == self.set_v128(
                        dst.spec_index(),
                        spec_from_lanes32(
                            Seq::new(
                                4,
                                |i: int|
                                    {
                                        let x = spec_lane32(a, i);
                                        x & 0x7fff_ffffu32
                                    },
                            ),
                            4,
                        ),
                    )
                })
            },
            Op::Vabsf64x2 { dst, src } => {
                &&& r is Continue
                &&& ({
                    let a = self.state.v[src.spec_index()].bits;
                    after == self.set_v128(
                        dst.spec_index(),
                        spec_from_lanes64(
                            Seq::new(
                                2,
                                |i: int|
                                    {
                                        let x = spec_lane64(a, i);
                                        x & 0x7fff_ffff_ffff_ffffu64
                                    },
                            ),
                            2,
                        ),
                    )
                })
            },
            Op::Vi32x4FromF32x4S { dst, src } => {
                &&& r is Continue
                &&& ({
                    let a = self.state.v[src.spec_index()].bits;
                    after == self.set_v128(
                        dst.spec_index(),
                        spec_from_lanes32(
                            Seq::new(
                                4,
                                |i: int|
                                    {
                                        let x = spec_lane32(a, i);
                                        spec_saturated(spec_trunc_f32(x), true, 32) as u32
                                    },
                            ),
                            4,
                        ),
                    )
                })
            },
            Op::Vi32x4FromF32x4U { dst, src } => {
                &&& r is Continue
                &&& ({
                    let a = self.state.v[src.spec_index()].bits;
                    after == self.set_v128(
                        dst.spec_index(),
                        spec_from_lanes32(
                            Seq::new(
                                4,
                                |i: int|
                                    {
                                        let x = spec_lane32(a, i);
                                        spec_saturated(spec_trunc_f32(x), false, 32) as u32
                                    },
                            ),
                            4,
                        ),
                    )
                })
            },
            Op::Vi64x2FromF64x2S { dst, src } => {
                &&& r is Continue
                &&& ({
                    let a = self.state.v[src.spec_index()].bits;
                    after == self.set_v128(
                        dst.spec_index(),
                        spec_from_lanes64(
                            Seq::new(
                                2,
                                |i: int|
                                    {
                                        let x = spec_lane64(a, i);
                                        spec_saturated(spec_trunc_f64(x), true, 64)
                                    },
                            ),
                            2,
                        ),
                    )
                })
            },
            Op::Vi64x2FromF64x2U { dst, src } => {
                &&& r is Continue
                &&& ({
                    let a = self.state.v[src.spec_index()].bits;
                    after == self.set_v128(
                        dst.spec_index(),
                        spec_from_lanes64(
                            Seq::new(
                                2,
                                |i: int|
                                    {
                                        let x = spec_lane64(a, i);
                                        spec_saturated(spec_trunc_f64(x), false, 64)
                                    },
                            ),
                            2,
                        ),
                    )
                })
            },
            _ => false,
        }
    }

    /// Is the instruction a vector instruction that moves lanes that leads from this interpreter to
    /// `after`, with `r` returned?
    pub open spec fn lanes_steps_to(self, op: Op, r: ControlFlow<Done>, after: InterpView) -> bool {
        match op {
            Op::Vsplatx8 { dst, src } => {
                &&& r is Continue
                &&& ({
                    let val = self.x_u32(src.spec_index()) as u8;
                    after == self.set_v128(
                        dst.spec_index(),
                        spec_from_lanes8(Seq::new(16, |i: int| val), 16),
                    )
                })
            },
            Op::Vsplatx16 { dst, src } => {
                &&& r is Continue
                &&& ({
                    let val = self.x_u32(src.spec_index()) as u16;
                    after == self.set_v128(
                        dst.spec_index(),
                        spec_from_lanes16(Seq::new(8, |i: int| val), 8),
                    )
                })
            },
            Op::Vsplatx32 { dst, src } => {
                &&& r is Continue
                &&& ({
                    let val = self.x_u32(src.spec_index());
                    after == self.set_v128(
                        dst.spec_index(),
                        spec_from_lanes32(Seq::new(4, |i: int| val), 4),
                    )
                })
            },
            Op::Vsplatx64 { dst, src } => {
                &&& r is Continue
                &&& ({
                    let val = self.x_u64(src.spec_index());
                    after == self.set_v128(
                        dst.spec_index(),
                        spec_from_lanes64(Seq::new(2, |i: int| val), 2),
                    )
                })
            },
            Op::Vsplatf32 { dst, src } => {
                &&& r is Continue
                &&& ({
                    let val = self.state.f[src.spec_index()].bits as u32;
                    after == self.set_v128(
                        dst.spec_index(),
                        spec_from_lanes32(Seq::new(4, |i: int| val), 4),
                    )
                })
            },
            Op::Vsplatf64 { dst, src } => {
                &&& r is Continue
                &&& ({
                    let val = self.state.f[src.spec_index()].bits;
                    after == self.set_v128(
                        dst.spec_index(),
                        spec_from_lanes64(Seq::new(2, |i: int| val), 2),
                    )
                })
            },
            Op::Vinsertx8 { operands, lane } => {
                &&& r is Continue
                &&& ({
                    let a = self.state.v[operands.src1.spec_index()].bits;
                    let val = self.x_u32(operands.src2.spec_index()) as u8;
                    after == self.set_v128(
                        operands.dst.spec_index(),
                        spec_from_lanes8(
                            Seq::new(16, |i: int| if i == lane { val } else { spec_lane8(a, i) }),
                            16,
                        ),
                    )
                })
            },
            Op::Vinsertx16 { operands, lane } => {
                &&& r is Continue
                &&& ({
                    let a = self.state.v[operands.src1.spec_index()].bits;
                    let val = self.x_u32(operands.src2.spec_index()) as u16;
                    after == self.set_v128(
                        operands.dst.spec_index(),
                        spec_from_lanes16(
                            Seq::new(8, |i: int| if i == lane { val } else { spec_lane16(a, i) }),
                            8,
                        ),
                    )
                })
            },
            Op::Vinsertx32 { operands, lane } => {
                &&& r is Continue
                &&& ({
                    let a = self.state.v[operands.src1.spec_index()].bits;
                    let val = self.x_u32(operands.src2.spec_index());
                    after == self.set_v128(
                        operands.dst.spec_index(),
                        spec_from_lanes32(
                            Seq::new(4, |i: int| if i == lane { val } else { spec_lane32(a, i) }),
                            4,
                        ),
                    )
                })
            },
            Op::Vinsertx64 { operands, lane } => {
                &&& r is Continue
                &&& ({
                    let a = self.state.v[operands.src1.spec_index()].bits;
                    let val = self.x_u64(operands.src2.spec_index());
                    after == self.set_v128(
                        operands.dst.spec_index(),
                        spec_from_lanes64(
                            Seq::new(2, |i: int| if i == lane { val } else { spec_lane64(a, i) }),
                            2,
                        ),
                    )
                })
            },
            Op::Vinsertf32 { operands, lane } => {
                &&& r is Continue
                &&& ({
                    let a = self.state.v[operands.src1.spec_index()].bits;
                    let val = self.state.f[operands.src2.spec_index()].bits as u32;
                    after == self.set_v128(
                        operands.dst.spec_index(),
                        spec_from_lanes32(
                            Seq::new(4, |i: int| if i == lane { val } else { spec_lane32(a, i) }),
                            4,
                        ),
                    )
                })
            },
            Op::Vinsertf64 { operands, lane } => {
                &&& r is Continue
                &&& ({
                    let a = self.state.v[operands.src1.spec_index()].bits;
                    let val = self.state.f[operands.src2.spec_index()].bits;
                    after == self.set_v128(
                        operands.dst.spec_index(),
                        spec_from_lanes64(
                            Seq::new(2, |i: int| if i == lane { val } else { spec_lane64(a, i) }),
                            2,
                        ),
                    )
                })
            },
            Op::Vwidenlow8x16S { dst, src } => {
                &&& r is Continue
                &&& ({
                    let a = self.state.v[src.spec_index()].bits;
                    after == self.set_v128(
                        dst.spec_index(),
                        spec_from_lanes16(
                            Seq::new(8, |i: int| ((spec_lane8(a, i + 0) as i8) as i16) as u16),
                            8,
                        ),
                    )
                })
            },
            Op::Vwidenlow8x16U { dst, src } => {
                &&& r is Continue
                &&& ({
                    let a = self.state.v[src.spec_index()].bits;
                    after == self.set_v128(
                        dst.spec_index(),
                        spec_from_lanes16(Seq::new(8, |i: int| spec_lane8(a, i + 0) as u16), 8),
                    )
                })
            },
            Op::Vwidenhigh8x16S { dst, src } => {
                &&& r is Continue
                &&& ({
                    let a = self.state.v[src.spec_index()].bits;
                    after == self.set_v128(
                        dst.spec_index(),
                        spec_from_lanes16(
                            Seq::new(8, |i: int| ((spec_lane8(a, i + 8) as i8) as i16) as u16),
                            8,
                        ),
                    )
                })
            },
            Op::Vwidenhigh8x16U { dst, src } => {
                &&& r is Continue
                &&& ({
                    let a = self.state.v[src.spec_index()].bits;
                    after == self.set_v128(
                        dst.spec_index(),
                        spec_from_lanes16(Seq::new(8, |i: int| spec_lane8(a, i + 8) as u16), 8),
                    )
                })
            },
            Op::Vwidenlow16x8S { dst, src } => {
                &&& r is Continue
                &&& ({
                    let a = self.state.v[src.spec_index()].bits;
                    after == self.set_v128(
                        dst.spec_index(),
                        spec_from_lanes32(
                            Seq::new(4, |i: int| ((spec_lane16(a, i + 0) as i16) as i32) as u32),
                            4,
                        ),
                    )
                })
            },
            Op::Vwidenlow16x8U { dst, src } => {
                &&& r is Continue
                &&& ({
                    let a = self.state.v[src.spec_index()].bits;
                    after == self.set_v128(
                        dst.spec_index(),
                        spec_from_lanes32(Seq::new(4, |i: int| spec_lane16(a, i + 0) as u32), 4),
                    )
                })
            },
            Op::Vwidenhigh16x8S { dst, src } => {
                &&& r is Continue
                &&& ({
                    let a = self.state.v[src.spec_index()].bits;
                    after == self.set_v128(
                        dst.spec_index(),
                        spec_from_lanes32(
                            Seq::new(4, |i: int| ((spec_lane16(a, i + 4) as i16) as i32) as u32),
                            4,
                        ),
                    )
                })
            },
            Op::Vwidenhigh16x8U { dst, src } => {
                &&& r is Continue
                &&& ({
                    let a = self.state.v[src.spec_index()].bits;
                    after == self.set_v128(
                        dst.spec_index(),
                        spec_from_lanes32(Seq::new(4, |i: int| spec_lane16(a, i + 4) as u32), 4),
                    )
                })
            },
            Op::Vwidenlow32x4S { dst, src } => {
                &&& r is Continue
                &&& ({
                    let a = self.state.v[src.spec_index()].bits;
                    after == self.set_v128(
                        dst.spec_index(),
                        spec_from_lanes64(
                            Seq::new(2, |i: int| ((spec_lane32(a, i + 0) as i32) as i64) as u64),
                            2,
                        ),
                    )
                })
            },
            Op::Vwidenlow32x4U { dst, src } => {
                &&& r is Continue
                &&& ({
                    let a = self.state.v[src.spec_index()].bits;
                    after == self.set_v128(
                        dst.spec_index(),
                        spec_from_lanes64(Seq::new(2, |i: int| spec_lane32(a, i + 0) as u64), 2),
                    )
                })
            },
            Op::Vwidenhigh32x4S { dst, src } => {
                &&& r is Continue
                &&& ({
                    let a = self.state.v[src.spec_index()].bits;
                    after == self.set_v128(
                        dst.spec_index(),
                        spec_from_lanes64(
                            Seq::new(2, |i: int| ((spec_lane32(a, i + 2) as i32) as i64) as u64),
                            2,
                        ),
                    )
                })
            },
            Op::Vwidenhigh32x4U { dst, src } => {
                &&& r is Continue
                &&& ({
                    let a = self.state.v[src.spec_index()].bits;
                    after == self.set_v128(
                        dst.spec_index(),
                        spec_from_lanes64(Seq::new(2, |i: int| spec_lane32(a, i + 2) as u64), 2),
                    )
                })
            },
            Op::Vnarrow16x8S { operands } => {
                &&& r is Continue
                &&& ({
                    let a = self.state.v[operands.src1.spec_index()].bits;
                    let b = self.state.v[operands.src2.spec_index()].bits;
                    after == self.set_v128(
                        operands.dst.spec_index(),
                        spec_from_lanes8(
                            Seq::new(
                                16,
                                |i: int|
                                    if i < 8 {
                                        (spec_clamp_i8(spec_lane16(a, i) as i16 as int)) as u8
                                    } else {
                                        (spec_clamp_i8(spec_lane16(b, i - 8) as i16 as int)) as u8
                                    },
                            ),
                            16,
                        ),
                    )
                })
            },
            Op::Vnarrow16x8U { operands } => {
                &&& r is Continue
                &&& ({
                    let a = self.state.v[operands.src1.spec_index()].bits;
                    let b = self.state.v[operands.src2.spec_index()].bits;
                    after == self.set_v128(
                        operands.dst.spec_index(),
                        spec_from_lanes8(
                            Seq::new(
                                16,
                                |i: int|
                                    if i < 8 {
                                        spec_clamp_u8(spec_lane16(a, i) as i16 as int)
                                    } else {
                                        spec_clamp_u8(spec_lane16(b, i - 8) as i16 as int)
                                    },
                            ),
                            16,
                        ),
                    )
                })
            },
            Op::Vnarrow32x4S { operands } => {
                &&& r is Continue
                &&& ({
                    let a = self.state.v[operands.src1.spec_index()].bits;
                    let b = self.state.v[operands.src2.spec_index()].bits;
                    after == self.set_v128(
                        operands.dst.spec_index(),
                        spec_from_lanes16(
                            Seq::new(
                                8,
                                |i: int|
                                    if i < 4 {
                                        (spec_clamp_i16(spec_lane32(a, i) as i32 as int)) as u16
                                    } else {
                                        (spec_clamp_i16(spec_lane32(b, i - 4) as i32 as int)) as u16
                                    },
                            ),
                            8,
                        ),
                    )
                })
            },
            Op::Vnarrow32x4U { operands } => {
                &&& r is Continue
                &&& ({
                    let a = self.state.v[operands.src1.spec_index()].bits;
                    let b = self.state.v[operands.src2.spec_index()].bits;
                    after == self.set_v128(
                        operands.dst.spec_index(),
                        spec_from_lanes16(
                            Seq::new(
                                8,
                                |i: int|
                                    if i < 4 {
                                        spec_clamp_u16(spec_lane32(a, i) as i32 as int)
                                    } else {
                                        spec_clamp_u16(spec_lane32(b, i - 4) as i32 as int)
                                    },
                            ),
                            8,
                        ),
                    )
                })
            },
            Op::Vnarrow64x2S { operands } => {
                &&& r is Continue
                &&& ({
                    let a = self.state.v[operands.src1.spec_index()].bits;
                    let b = self.state.v[operands.src2.spec_index()].bits;
                    after == self.set_v128(
                        operands.dst.spec_index(),
                        spec_from_lanes32(
                            Seq::new(
                                4,
                                |i: int|
                                    if i < 2 {
                                        (spec_clamp_i32(spec_lane64(a, i) as i64 as int)) as u32
                                    } else {
                                        (spec_clamp_i32(spec_lane64(b, i - 2) as i64 as int)) as u32
                                    },
                            ),
                            4,
                        ),
                    )
                })
            },
            Op::Vnarrow64x2U { operands } => {
                &&& r is Continue
                &&& ({
                    let a = self.state.v[operands.src1.spec_index()].bits;
                    let b = self.state.v[operands.src2.spec_index()].bits;
                    after == self.set_v128(
                        operands.dst.spec_index(),
                        spec_from_lanes32(
                            Seq::new(
                                4,
                                |i: int|
                                    if i < 2 {
                                        spec_clamp_u32(spec_lane64(a, i) as i64 as int)
                                    } else {
                                        spec_clamp_u32(spec_lane64(b, i - 2) as i64 as int)
                                    },
                            ),
                            4,
                        ),
                    )
                })
            },
            Op::Vunarrow64x2U { operands } => {
                &&& r is Continue
                &&& ({
                    let a = self.state.v[operands.src1.spec_index()].bits;
                    let b = self.state.v[operands.src2.spec_index()].bits;
                    after == self.set_v128(
                        operands.dst.spec_index(),
                        spec_from_lanes32(
                            Seq::new(
                                4,
                                |i: int|
                                    if i < 2 {
                                        spec_unarrow(spec_lane64(a, i))
                                    } else {
                                        spec_unarrow(spec_lane64(b, i - 2))
                                    },
                            ),
                            4,
                        ),
                    )
                })
            },
            Op::Vaddpairwisei16x8S { operands } => {
                &&& r is Continue
                &&& ({
                    let a = self.state.v[operands.src1.spec_index()].bits;
                    let b = self.state.v[operands.src2.spec_index()].bits;
                    after == self.set_v128(
                        operands.dst.spec_index(),
                        spec_from_lanes16(
                            Seq::new(
                                8,
                                |i: int|
                                    if i < 4 {
                                        spec_lane16(a, 2 * i).wrapping_add(
                                            spec_lane16(a, 2 * i + 1),
                                        )
                                    } else {
                                        spec_lane16(b, 2 * (i - 4)).wrapping_add(
                                            spec_lane16(b, 2 * (i - 4) + 1),
                                        )
                                    },
                            ),
                            8,
                        ),
                    )
                })
            },
            Op::Vaddpairwisei32x4S { operands } => {
                &&& r is Continue
                &&& ({
                    let a = self.state.v[operands.src1.spec_index()].bits;
                    let b = self.state.v[operands.src2.spec_index()].bits;
                    after == self.set_v128(
                        operands.dst.spec_index(),
                        spec_from_lanes32(
                            Seq::new(
                                4,
                                |i: int|
                                    if i < 2 {
                                        spec_lane32(a, 2 * i).wrapping_add(
                                            spec_lane32(a, 2 * i + 1),
                                        )
                                    } else {
                                        spec_lane32(b, 2 * (i - 2)).wrapping_add(
                                            spec_lane32(b, 2 * (i - 2) + 1),
                                        )
                                    },
                            ),
                            4,
                        ),
                    )
                })
            },
            Op::Vswizzlei8x16 { operands } => {
                &&& r is Continue
                &&& ({
                    let a = self.state.v[operands.src1.spec_index()].bits;
                    let b = self.state.v[operands.src2.spec_index()].bits;
                    after == self.set_v128(
                        operands.dst.spec_index(),
                        spec_from_lanes8(
                            Seq::new(
                                16,
                                |i: int|
                                    if spec_lane8(b, i) < 16 {
                                        spec_lane8(a, spec_lane8(b, i) as int)
                                    } else {
                                        0u8
                                    },
                            ),
                            16,
                        ),
                    )
                })
            },
            Op::Vshuffle { dst, src1, src2, mask } => {
                &&& r is Continue
                &&& ({
                    let a = self.state.v[src1.spec_index()].bits;
                    let b = self.state.v[src2.spec_index()].bits;
                    after == self.set_v128(
                        dst.spec_index(),
                        spec_from_lanes8(
                            Seq::new(
                                16,
                                |i: int|
                                    if spec_lane8(mask, i) < 16 {
                                        spec_lane8(a, spec_lane8(mask, i) as int)
                                    } else {
                                        spec_lane8(b, spec_lane8(mask, i) - 16)
                                    },
                            ),
                            16,
                        ),
                    )
                })
            },
            Op::Vload8x8SZ { dst, addr } => {
                &&& match addr.spec_addr(self.state, 8) {
                    Some(at) => {
                        let val = self.state.value_at::<u64>(at);
                        r is Continue && after == self.set_v128(
                            dst.spec_index(),
                            spec_from_lanes16(
                                Seq::new(
                                    8,
                                    |i: int| ((spec_lane8(val as u128, i) as i8) as i16) as u16,
                                ),
                                8,
                            ),
                        )
                    },
                    None => r is Break && after == self.trapped(
                        VLoad8x8SZ::spec_width(),
                        Some(TrapKind::MemoryOutOfBounds),
                    ),
                }
            },
            Op::Vload8x8UZ { dst, addr } => {
                &&& match addr.spec_addr(self.state, 8) {
                    Some(at) => {
                        let val = self.state.value_at::<u64>(at);
                        r is Continue && after == self.set_v128(
                            dst.spec_index(),
                            spec_from_lanes16(
                                Seq::new(8, |i: int| spec_lane8(val as u128, i) as u16),
                                8,
                            ),
                        )
                    },
                    None => r is Break && after == self.trapped(
                        VLoad8x8UZ::spec_width(),
                        Some(TrapKind::MemoryOutOfBounds),
                    ),
                }
            },
            Op::Vload16x4leSZ { dst, addr } => {
                &&& match addr.spec_addr(self.state, 8) {
                    Some(at) => {
                        let val = self.state.value_at::<u64>(at);
                        r is Continue && after == self.set_v128(
                            dst.spec_index(),
                            spec_from_lanes32(
                                Seq::new(
                                    4,
                                    |i: int| ((spec_lane16(val as u128, i) as i16) as i32) as u32,
                                ),
                                4,
                            ),
                        )
                    },
                    None => r is Break && after == self.trapped(
                        VLoad16x4LeSZ::spec_width(),
                        Some(TrapKind::MemoryOutOfBounds),
                    ),
                }
            },
            Op::Vload16x4leUZ { dst, addr } => {
                &&& match addr.spec_addr(self.state, 8) {
                    Some(at) => {
                        let val = self.state.value_at::<u64>(at);
                        r is Continue && after == self.set_v128(
                            dst.spec_index(),
                            spec_from_lanes32(
                                Seq::new(4, |i: int| spec_lane16(val as u128, i) as u32),
                                4,
                            ),
                        )
                    },
                    None => r is Break && after == self.trapped(
                        VLoad16x4LeUZ::spec_width(),
                        Some(TrapKind::MemoryOutOfBounds),
                    ),
                }
            },
            Op::Vload32x2leSZ { dst, addr } => {
                &&& match addr.spec_addr(self.state, 8) {
                    Some(at) => {
                        let val = self.state.value_at::<u64>(at);
                        r is Continue && after == self.set_v128(
                            dst.spec_index(),
                            spec_from_lanes64(
                                Seq::new(
                                    2,
                                    |i: int| ((spec_lane32(val as u128, i) as i32) as i64) as u64,
                                ),
                                2,
                            ),
                        )
                    },
                    None => r is Break && after == self.trapped(
                        VLoad32x2LeSZ::spec_width(),
                        Some(TrapKind::MemoryOutOfBounds),
                    ),
                }
            },
            Op::Vload32x2leUZ { dst, addr } => {
                &&& match addr.spec_addr(self.state, 8) {
                    Some(at) => {
                        let val = self.state.value_at::<u64>(at);
                        r is Continue && after == self.set_v128(
                            dst.spec_index(),
                            spec_from_lanes64(
                                Seq::new(2, |i: int| spec_lane32(val as u128, i) as u64),
                                2,
                            ),
                        )
                    },
                    None => r is Break && after == self.trapped(
                        VLoad32x2LeUZ::spec_width(),
                        Some(TrapKind::MemoryOutOfBounds),
                    ),
                }
            },
            Op::Xextractv8x16 { dst, src, lane } => {
                &&& r is Continue
                &&& after == self.set_x_u32(
                    dst.spec_index(),
                    spec_lane8(self.state.v[src.spec_index()].bits, lane as int) as u32,
                )
            },
            Op::Xextractv16x8 { dst, src, lane } => {
                &&& r is Continue
                &&& after == self.set_x_u32(
                    dst.spec_index(),
                    spec_lane16(self.state.v[src.spec_index()].bits, lane as int) as u32,
                )
            },
            Op::Xextractv32x4 { dst, src, lane } => {
                &&& r is Continue
                &&& after == self.set_x_u32(
                    dst.spec_index(),
                    spec_lane32(self.state.v[src.spec_index()].bits, lane as int),
                )
            },
            Op::Xextractv64x2 { dst, src, lane } => {
                &&& r is Continue
                &&& after == self.set_x_u64(
                    dst.spec_index(),
                    spec_lane64(self.state.v[src.spec_index()].bits, lane as int),
                )
            },
            Op::Fextractv32x4 { dst, src, lane } => {
                &&& r is Continue
                &&& after == self.set_f32_bits(
                    dst.spec_index(),
                    spec_lane32(self.state.v[src.spec_index()].bits, lane as int),
                )
            },
            Op::Fextractv64x2 { dst, src, lane } => {
                &&& r is Continue
                &&& after == self.set_f64_bits(
                    dst.spec_index(),
                    spec_lane64(self.state.v[src.spec_index()].bits, lane as int),
                )
            },
            Op::Vbitmask8x16 { dst, src } => {
                &&& r is Continue
                &&& after == self.set_x_u32(
                    dst.spec_index(),
                    spec_bitmask8(self.state.v[src.spec_index()].bits, 16),
                )
            },
            Op::Valltrue8x16 { dst, src } => {
                &&& r is Continue
                &&& ({
                    let bits = self.state.v[src.spec_index()].bits;
                    after == self.set_x_u32(
                        dst.spec_index(),
                        if forall|j: int| 0 <= j < 16 ==> spec_lane8(bits, j) != 0 {
                            1u32
                        } else {
                            0u32
                        },
                    )
                })
            },
            Op::Vanytrue8x16 { dst, src } => {
                &&& r is Continue
                &&& ({
                    let bits = self.state.v[src.spec_index()].bits;
                    after == self.set_x_u32(
                        dst.spec_index(),
                        if exists|j: int| 0 <= j < 16 && spec_lane8(bits, j) != 0 {
                            1u32
                        } else {
                            0u32
                        },
                    )
                })
            },
            Op::Vbitmask16x8 { dst, src } => {
                &&& r is Continue
                &&& after == self.set_x_u32(
                    dst.spec_index(),
                    spec_bitmask16(self.state.v[src.spec_index()].bits, 8),
                )
            },
            Op::Valltrue16x8 { dst, src } => {
                &&& r is Continue
                &&& ({
                    let bits = self.state.v[src.spec_index()].bits;
                    after == self.set_x_u32(
                        dst.spec_index(),
                        if forall|j: int| 0 <= j < 8 ==> spec_lane16(bits, j) != 0 {
                            1u32
                        } else {
                            0u32
                        },
                    )
                })
            },
            Op::Vanytrue16x8 { dst, src } => {
                &&& r is Continue
                &&& ({
                    let bits = self.state.v[src.spec_index()].bits;
                    after == self.set_x_u32(
                        dst.spec_index(),
                        if exists|j: int| 0 <= j < 8 && spec_lane16(bits, j) != 0 {
                            1u32
                        } else {
                            0u32
                        },
                    )
                })
            },
            Op::Vbitmask32x4 { dst, src } => {
                &&& r is Continue
                &&& after == self.set_x_u32(
                    dst.spec_index(),
                    spec_bitmask32(self.state.v[src.spec_index()].bits, 4),
                )
            },
            Op::Valltrue32x4 { dst, src } => {
                &&& r is Continue
                &&& ({
                    let bits = self.state.v[src.spec_index()].bits;
                    after == self.set_x_u32(
                        dst.spec_index(),
                        if forall|j: int| 0 <= j < 4 ==> spec_lane32(bits, j) != 0 {
                            1u32
                        } else {
                            0u32
                        },
                    )
                })
            },
            Op::Vanytrue32x4 { dst, src } => {
                &&& r is Continue
                &&& ({
                    let bits = self.state.v[src.spec_index()].bits;
                    after == self.set_x_u32(
                        dst.spec_index(),
                        if exists|j: int| 0 <= j < 4 && spec_lane32(bits, j) != 0 {
                            1u32
                        } else {
                            0u32
                        },
                    )
                })
            },
            Op::Vbitmask64x2 { dst, src } => {
                &&& r is Continue
                &&& after == self.set_x_u32(
                    dst.spec_index(),
                    spec_bitmask64(self.state.v[src.spec_index()].bits, 2),
                )
            },
            Op::Valltrue64x2 { dst, src } => {
                &&& r is Continue
                &&& ({
                    let bits = self.state.v[src.spec_index()].bits;
                    after == self.set_x_u32(
                        dst.spec_index(),
                        if forall|j: int| 0 <= j < 2 ==> spec_lane64(bits, j) != 0 {
                            1u32
                        } else {
                            0u32
                        },
                    )
                })
            },
            Op::Vanytrue64x2 { dst, src } => {
                &&& r is Continue
                &&& ({
                    let bits = self.state.v[src.spec_index()].bits;
                    after == self.set_x_u32(
                        dst.spec_index(),
                        if exists|j: int| 0 <= j < 2 && spec_lane64(bits, j) != 0 {
                            1u32
                        } else {
                            0u32
                        },
                    )
                })
            },
            Op::Vselect { dst, cond, if_nonzero, if_zero } => {
                &&& r is Continue
                &&& after == self.set_v(
                    dst.spec_index(),
                    if self.x_u32(cond.spec_index()) != 0 {
                        self.state.v[if_nonzero.spec_index()]
                    } else {
                        self.state.v[if_zero.spec_index()]
                    },
                )
            },
            _ => false,
        }
    }

    /// Is the instruction an instruction on the sign of a floating-point number that leads from this interpreter to
    /// `after`, with `r` returned?
    pub open spec fn sign_steps_to(self, op: Op, r: ControlFlow<Done>, after: InterpView) -> bool {
        match op {
            Op::Fneg32 { dst, src } => {
                &&& r is Continue
                &&& ({
                    let a = self.state.f[src.spec_index()].bits as u32;
                    after == self.set_f32_bits(dst.spec_index(), a ^ 0x8000_0000u32)
                })
            },
            Op::Fabs32 { dst, src } => {
                &&& r is Continue
                &&& ({
                    let a = self.state.f[src.spec_index()].bits as u32;
                    after == self.set_f32_bits(dst.spec_index(), a & 0x7fff_ffffu32)
                })
            },
            Op::Fcopysign32 { operands } => {
                &&& r is Continue
                &&& ({
                    let a = self.state.f[operands.src1.spec_index()].bits as u32;
                    let b = self.state.f[operands.src2.spec_index()].bits as u32;
                    after == self.set_f32_bits(
                        operands.dst.spec_index(),
                        (a & 0x7fff_ffffu32) | (b & 0x8000_0000u32),
                    )
                })
            },
            Op::Fneg64 { dst, src } => {
                &&& r is Continue
                &&& ({
                    let a = self.state.f[src.spec_index()].bits;
                    after == self.set_f64_bits(
                        dst.spec_index(),
                        a ^ 0x8000_0000_0000_0000u64,
                    )
                })
            },
            Op::Fabs64 { dst, src } => {
                &&& r is Continue
                &&& ({
                    let a = self.state.f[src.spec_index()].bits;
                    after == self.set_f64_bits(
                        dst.spec_index(),
                        a & 0x7fff_ffff_ffff_ffffu64,
                    )
                })
            },
            Op::Fcopysign64 { operands } => {
                &&& r is Continue
                &&& ({
                    let a = self.state.f[operands.src1.spec_index()].bits;
                    let b = self.state.f[operands.src2.spec_index()].bits;
                    after == self.set_f64_bits(
                        operands.dst.spec_index(),
                        (a & 0x7fff_ffff_ffff_ffffu64) | (b & 0x8000_0000_0000_0000u64),
                    )
                })
            },
            _ => false,
        }
    }

    /// Does carrying out the instruction lead from this interpreter to
    /// `after`, with `r` returned? Each instruction does what its handler
    /// does.
    pub open spec fn steps_to(self, op: Op, r: ControlFlow<Done>, after: InterpView) -> bool {
        ||| self.arith_steps_to(op, r, after)
        ||| self.control_steps_to(op, r, after)
        ||| self.frame_steps_to(op, r, after)
        ||| self.offset_steps_to(op, r, after)
        ||| self.checked_steps_to(op, r, after)
        ||| self.bounded_steps_to(op, r, after)
        ||| self.guarded_steps_to(op, r, after)
        ||| self.moves_steps_to(op, r, after)
        ||| self.conversion_steps_to(op, r, after)
        ||| self.lanewise_steps_to(op, r, after)
        ||| self.lanes_steps_to(op, r, after)
        ||| self.sign_steps_to(op, r, after)
    }
}

impl Interpreter {
    /// Tests whether the instruction may be carried out.
    pub fn is_ready(&self, op: Op) -> (ok: bool)
        ensures
            ok == self@.ready(op),
    {
        match op {
            Op::StackAlloc32 { amt } => self.sp_valid(),
            Op::StackFree32 { amt } => self.can_free(amt),
            Op::PushFrame => self.sp_valid(),
            Op::PopFrame => self.frame_in_stack(),
            Op::PushFrameSave { amt, regs } => self.can_save(amt, regs),
            Op::PopFrameRestore { amt, regs } => self.restorable(amt, regs),
            Op::Xload8U32O32 { dst, addr } => addr.check(self, 1),
            Op::Xload8S32O32 { dst, addr } => addr.check(self, 1),
            Op::Xload16leU32O32 { dst, addr } => addr.check(self, 2),
            Op::Xload16leS32O32 { dst, addr } => addr.check(self, 2),
            Op::Xload32leO32 { dst, addr } => addr.check(self, 4),
            Op::Xload64leO32 { dst, addr } => addr.check(self, 8),
            Op::Xstore8O32 { addr, val } => addr.check(self, 1),
            Op::Xstore16leO32 { addr, val } => addr.check(self, 2),
            Op::Xstore32leO32 { addr, val } => addr.check(self, 4),
            Op::Xstore64leO32 { addr, val } => addr.check(self, 8),
            Op::Xload8U32Z { dst, addr } => addr.check(self, 1),
            Op::Xload8S32Z { dst, addr } => addr.check(self, 1),
            Op::Xload16leU32Z { dst, addr } => addr.check(self, 2),
            Op::Xload16leS32Z { dst, addr } => addr.check(self, 2),
            Op::Xload32leZ { dst, addr } => addr.check(self, 4),
            Op::Xload64leZ { dst, addr } => addr.check(self, 8),
            Op::Xstore8Z { addr, val } => addr.check(self, 1),
            Op::Xstore16leZ { addr, val } => addr.check(self, 2),
            Op::Xstore32leZ { addr, val } => addr.check(self, 4),
            Op::Xstore64leZ { addr, val } => addr.check(self, 8),
            Op::Xload8U32G32 { dst, addr } => addr.check(self, 1),
            Op::Xload8S32G32 { dst, addr } => addr.check(self, 1),
            Op::Xload16leU32G32 { dst, addr } => addr.check(self, 2),
            Op::Xload16leS32G32 { dst, addr } => addr.check(self, 2),
            Op::Xload32leG32 { dst, addr } => addr.check(self, 4),
            Op::Xload64leG32 { dst, addr } => addr.check(self, 8),
            Op::Xstore8G32 { addr, val } => addr.check(self, 1),
            Op::Xstore16leG32 { addr, val } => addr.check(self, 2),
            Op::Xstore32leG32 { addr, val } => addr.check(self, 4),
            Op::Xstore64leG32 { addr, val } => addr.check(self, 8),
            Op::Xload8U32G32bne { dst, addr } => addr.check(self, 1),
            Op::Xload8S32G32bne { dst, addr } => addr.check(self, 1),
            Op::Xload16leU32G32bne { dst, addr } => addr.check(self, 2),
            Op::Xload16leS32G32bne { dst, addr } => addr.check(self, 2),
            Op::Xload32leG32bne { dst, addr } => addr.check(self, 4),
            Op::Xload64leG32bne { dst, addr } => addr.check(self, 8),
            Op::Xstore8G32bne { addr, val } => addr.check(self, 1),
            Op::Xstore16leG32bne { addr, val } => addr.check(self, 2),
            Op::Xstore32leG32bne { addr, val } => addr.check(self, 4),
            Op::Xstore64leG32bne { addr, val } => addr.check(self, 8),
            Op::Xload16beU32O32 { dst, addr } => addr.check(self, 2),
            Op::Xload16beS32O32 { dst, addr } => addr.check(self, 2),
            Op::Xload32beO32 { dst, addr } => addr.check(self, 4),
            Op::Xload64beO32 { dst, addr } => addr.check(self, 8),
            Op::Xstore16beO32 { addr, val } => addr.check(self, 2),
            Op::Xstore32beO32 { addr, val } => addr.check(self, 4),
            Op::Xstore64beO32 { addr, val } => addr.check(self, 8),
            Op::Fload32leO32 { dst, addr } => addr.check(self, 4),
            Op::Fload64leO32 { dst, addr } => addr.check(self, 8),
            Op::Fstore32leO32 { addr, src } => addr.check(self, 4),
            Op::Fstore64leO32 { addr, src } => addr.check(self, 8),
            Op::Vload128leO32 { dst, addr } => addr.check(self, 16),
            Op::Vstore128leO32 { addr, src } => addr.check(self, 16),
            Op::Fload32leZ { dst, addr } => addr.check(self, 4),
            Op::Fload64leZ { dst, addr } => addr.check(self, 8),
            Op::Fstore32leZ { addr, src } => addr.check(self, 4),
            Op::Fstore64leZ { addr, src } => addr.check(self, 8),
            Op::Vload128leZ { dst, addr } => addr.check(self, 16),
            Op::Vstore128leZ { addr, src } => addr.check(self, 16),
            Op::Fload32leG32 { dst, addr } => addr.check(self, 4),
            Op::Fload64leG32 { dst, addr } => addr.check(self, 8),
            Op::Fstore32leG32 { addr, src } => addr.check(self, 4),
            Op::Fstore64leG32 { addr, src } => addr.check(self, 8),
            Op::Vload128leG32 { dst, addr } => addr.check(self, 16),
            Op::Vstore128leG32 { addr, src } => addr.check(self, 16),
            Op::Fload32beO32 { dst, addr } => addr.check(self, 4),
            Op::Fload64beO32 { dst, addr } => addr.check(self, 8),
            Op::Fstore32beO32 { addr, src } => addr.check(self, 4),
            Op::Fstore64beO32 { addr, src } => addr.check(self, 8),
            Op::Vinsertx8 { operands, lane } => lane < 16,
            Op::Vinsertx16 { operands, lane } => lane < 8,
            Op::Vinsertx32 { operands, lane } => lane < 4,
            Op::Vinsertx64 { operands, lane } => lane < 2,
            Op::Vinsertf32 { operands, lane } => lane < 4,
            Op::Vinsertf64 { operands, lane } => lane < 2,
            Op::Vshuffle { dst, src1, src2, mask } => shuffle_mask_ok(mask),
            Op::Vload8x8SZ { dst, addr } => addr.check(self, 8),
            Op::Vload8x8UZ { dst, addr } => addr.check(self, 8),
            Op::Vload16x4leSZ { dst, addr } => addr.check(self, 8),
            Op::Vload16x4leUZ { dst, addr } => addr.check(self, 8),
            Op::Vload32x2leSZ { dst, addr } => addr.check(self, 8),
            Op::Vload32x2leUZ { dst, addr } => addr.check(self, 8),
            Op::Xextractv8x16 { dst, src, lane } => lane < 16,
            Op::Xextractv16x8 { dst, src, lane } => lane < 8,
            Op::Xextractv32x4 { dst, src, lane } => lane < 4,
            Op::Xextractv64x2 { dst, src, lane } => lane < 2,
            Op::Fextractv32x4 { dst, src, lane } => lane < 4,
            Op::Fextractv64x2 { dst, src, lane } => lane < 2,
            _ => true,
        }
    }

    /// Carries out one instruction: the handler of the instruction runs,
    /// and what it returns is returned.
    #[verifier::rlimit(100)]
    pub fn step(&mut self, op: Op) -> (r: ControlFlow<Done>)
        requires
            old(self)@.ready(op),
        ensures
            old(self)@.steps_to(op, r, final(self)@),
    {
        match op {
            Op::Xmov { dst, src } => self.xmov(dst, src),
            Op::Xconst8 { dst, imm } => self.xconst8(dst, imm),
            Op::Xconst16 { dst, imm } => self.xconst16(dst, imm),
            Op::Xconst32 { dst, imm } => self.xconst32(dst, imm),
            Op::Xconst64 { dst, imm } => self.xconst64(dst, imm),
            Op::Xzero { dst } => self.xzero(dst),
            Op::Xone { dst } => self.xone(dst),
            Op::Xadd32 { operands } => self.xadd32(operands),
            Op::Xadd32U32 { dst, src1, src2 } => self.xadd32_u32(dst, src1, src2),
            Op::Xadd32U8 { dst, src1, src2 } => self.xadd32_u8(dst, src1, src2),
            Op::Xmadd32 { dst, src1, src2, src3 } => self.xmadd32(dst, src1, src2, src3),
            Op::Xsub32 { operands } => self.xsub32(operands),
            Op::Xsub32U32 { dst, src1, src2 } => self.xsub32_u32(dst, src1, src2),
            Op::Xsub32U8 { dst, src1, src2 } => self.xsub32_u8(dst, src1, src2),
            Op::Xmul32 { operands } => self.xmul32(operands),
            Op::Xmul32S32 { dst, src1, src2 } => self.xmul32_s32(dst, src1, src2),
            Op::Xmul32S8 { dst, src1, src2 } => self.xmul32_s8(dst, src1, src2),
            Op::Xadd64 { operands } => self.xadd64(operands),
            Op::Xadd64U32 { dst, src1, src2 } => self.xadd64_u32(dst, src1, src2),
            Op::Xadd64U8 { dst, src1, src2 } => self.xadd64_u8(dst, src1, src2),
            Op::Xmadd64 { dst, src1, src2, src3 } => self.xmadd64(dst, src1, src2, src3),
            Op::Xsub64 { operands } => self.xsub64(operands),
            Op::Xsub64U32 { dst, src1, src2 } => self.xsub64_u32(dst, src1, src2),
            Op::Xsub64U8 { dst, src1, src2 } => self.xsub64_u8(dst, src1, src2),
            Op::Xmul64 { operands } => self.xmul64(operands),
            Op::Xmul64S32 { dst, src1, src2 } => self.xmul64_s32(dst, src1, src2),
            Op::Xmul64S8 { dst, src1, src2 } => self.xmul64_s8(dst, src1, src2),
            Op::Xshl32 { operands } => self.xshl32(operands),
            Op::Xshr32U { operands } => self.xshr32_u(operands),
            Op::Xshr32S { operands } => self.xshr32_s(operands),
            Op::Xshl64 { operands } => self.xshl64(operands),
            Op::Xshr64U { operands } => self.xshr64_u(operands),
            Op::Xshr64S { operands } => self.xshr64_s(operands),
            Op::Xshl32U6 { operands } => self.xshl32_u6(operands),
            Op::Xshr32UU6 { operands } => self.xshr32_u_u6(operands),
            Op::Xshr32SU6 { operands } => self.xshr32_s_u6(operands),
            Op::Xshl64U6 { operands } => self.xshl64_u6(operands),
            Op::Xshr64UU6 { operands } => self.xshr64_u_u6(operands),
            Op::Xshr64SU6 { operands } => self.xshr64_s_u6(operands),
            Op::Xneg32 { dst, src } => self.xneg32(dst, src),
            Op::Xneg64 { dst, src } => self.xneg64(dst, src),
            Op::Xeq64 { operands } => self.xeq64(operands),
            Op::Xneq64 { operands } => self.xneq64(operands),
            Op::Xslt64 { operands } => self.xslt64(operands),
            Op::Xslteq64 { operands } => self.xslteq64(operands),
            Op::Xult64 { operands } => self.xult64(operands),
            Op::Xulteq64 { operands } => self.xulteq64(operands),
            Op::Xeq32 { operands } => self.xeq32(operands),
            Op::Xneq32 { operands } => self.xneq32(operands),
            Op::Xslt32 { operands } => self.xslt32(operands),
            Op::Xslteq32 { operands } => self.xslteq32(operands),
            Op::Xult32 { operands } => self.xult32(operands),
            Op::Xulteq32 { operands } => self.xulteq32(operands),
            Op::Zext8 { dst, src } => self.zext8(dst, src),
            Op::Zext16 { dst, src } => self.zext16(dst, src),
            Op::Zext32 { dst, src } => self.zext32(dst, src),
            Op::Sext8 { dst, src } => self.sext8(dst, src),
            Op::Sext16 { dst, src } => self.sext16(dst, src),
            Op::Sext32 { dst, src } => self.sext32(dst, src),
            Op::Xband32 { operands } => self.xband32(operands),
            Op::Xband32S32 { dst, src1, src2 } => self.xband32_s32(dst, src1, src2),
            Op::Xband32S8 { dst, src1, src2 } => self.xband32_s8(dst, src1, src2),
            Op::Xband64 { operands } => self.xband64(operands),
            Op::Xband64S32 { dst, src1, src2 } => self.xband64_s32(dst, src1, src2),
            Op::Xband64S8 { dst, src1, src2 } => self.xband64_s8(dst, src1, src2),
            Op::Xbor32 { operands } => self.xbor32(operands),
            Op::Xbor32S32 { dst, src1, src2 } => self.xbor32_s32(dst, src1, src2),
            Op::Xbor32S8 { dst, src1, src2 } => self.xbor32_s8(dst, src1, src2),
            Op::Xbor64 { operands } => self.xbor64(operands),
            Op::Xbor64S32 { dst, src1, src2 } => self.xbor64_s32(dst, src1, src2),
            Op::Xbor64S8 { dst, src1, src2 } => self.xbor64_s8(dst, src1, src2),
            Op::Xbxor32 { operands } => self.xbxor32(operands),
            Op::Xbxor32S32 { dst, src1, src2 } => self.xbxor32_s32(dst, src1, src2),
            Op::Xbxor32S8 { dst, src1, src2 } => self.xbxor32_s8(dst, src1, src2),
            Op::Xbxor64 { operands } => self.xbxor64(operands),
            Op::Xbxor64S32 { dst, src1, src2 } => self.xbxor64_s32(dst, src1, src2),
            Op::Xbxor64S8 { dst, src1, src2 } => self.xbxor64_s8(dst, src1, src2),
            Op::Xbnot32 { dst, src } => self.xbnot32(dst, src),
            Op::Xbnot64 { dst, src } => self.xbnot64(dst, src),
            Op::Xmin32U { operands } => self.xmin32_u(operands),
            Op::Xmax32U { operands } => self.xmax32_u(operands),
            Op::Xmin32S { operands } => self.xmin32_s(operands),
            Op::Xmax32S { operands } => self.xmax32_s(operands),
            Op::Xmin64U { operands } => self.xmin64_u(operands),
            Op::Xmax64U { operands } => self.xmax64_u(operands),
            Op::Xmin64S { operands } => self.xmin64_s(operands),
            Op::Xmax64S { operands } => self.xmax64_s(operands),
            Op::Xctz32 { dst, src } => self.xctz32(dst, src),
            Op::Xctz64 { dst, src } => self.xctz64(dst, src),
            Op::Xclz32 { dst, src } => self.xclz32(dst, src),
            Op::Xclz64 { dst, src } => self.xclz64(dst, src),
            Op::Xpopcnt32 { dst, src } => self.xpopcnt32(dst, src),
            Op::Xpopcnt64 { dst, src } => self.xpopcnt64(dst, src),
            Op::Xrotl32 { operands } => self.xrotl32(operands),
            Op::Xrotr32 { operands } => self.xrotr32(operands),
            Op::Xrotl64 { operands } => self.xrotl64(operands),
            Op::Xrotr64 { operands } => self.xrotr64(operands),
            Op::Xselect32 { dst, cond, if_nonzero, if_zero } => self.xselect32(
                dst,
                cond,
                if_nonzero,
                if_zero,
            ),
            Op::Xselect64 { dst, cond, if_nonzero, if_zero } => self.xselect64(
                dst,
                cond,
                if_nonzero,
                if_zero,
            ),
            Op::Xabs32 { dst, src } => self.xabs32(dst, src),
            Op::Xabs64 { dst, src } => self.xabs64(dst, src),
            Op::Xbmask32 { dst, src } => self.xbmask32(dst, src),
            Op::Xbmask64 { dst, src } => self.xbmask64(dst, src),
            Op::Bswap32 { dst, src } => self.bswap32(dst, src),
            Op::Bswap64 { dst, src } => self.bswap64(dst, src),
            Op::Xmulhi64S { operands } => self.xmulhi64_s(operands),
            Op::Xmulhi64U { operands } => self.xmulhi64_u(operands),
            Op::Nop => self.nop(),
            Op::XmovFp { dst } => self.xmov_fp(dst),
            Op::XmovLr { dst } => self.xmov_lr(dst),
            Op::Xdiv32S { operands } => self.xdiv32_s(operands),
            Op::Xdiv64S { operands } => self.xdiv64_s(operands),
            Op::Xdiv32U { operands } => self.xdiv32_u(operands),
            Op::Xdiv64U { operands } => self.xdiv64_u(operands),
            Op::Xrem32S { operands } => self.xrem32_s(operands),
            Op::Xrem64S { operands } => self.xrem64_s(operands),
            Op::Xrem32U { operands } => self.xrem32_u(operands),
            Op::Xrem64U { operands } => self.xrem64_u(operands),
            Op::Xadd32UoverflowTrap { operands } => self.xadd32_uoverflow_trap(operands),
            Op::Xadd64UoverflowTrap { operands } => self.xadd64_uoverflow_trap(operands),
            Op::Ret => self.ret(),
            Op::Call { offset } => self.call(offset),
            Op::Call1 { arg1, offset } => self.call1(arg1, offset),
            Op::Call2 { arg1, arg2, offset } => self.call2(arg1, arg2, offset),
            Op::Call3 { arg1, arg2, arg3, offset } => self.call3(arg1, arg2, arg3, offset),
            Op::Call4 { arg1, arg2, arg3, arg4, offset } => self.call4(
                arg1,
                arg2,
                arg3,
                arg4,
                offset,
            ),
            Op::CallIndirect { dst } => self.call_indirect(dst),
            Op::Jump { offset } => self.jump(offset),
            Op::Xjump { reg } => self.xjump(reg),
            Op::BrIf32 { cond, offset } => self.br_if32(cond, offset),
            Op::BrIfNot32 { cond, offset } => self.br_if_not32(cond, offset),
            Op::BrIfXeq32 { a, b, offset } => self.br_if_xeq32(a, b, offset),
            Op::BrIfXneq32 { a, b, offset } => self.br_if_xneq32(a, b, offset),
            Op::BrIfXslt32 { a, b, offset } => self.br_if_xslt32(a, b, offset),
            Op::BrIfXslteq32 { a, b, offset } => self.br_if_xslteq32(a, b, offset),
            Op::BrIfXult32 { a, b, offset } => self.br_if_xult32(a, b, offset),
            Op::BrIfXulteq32 { a, b, offset } => self.br_if_xulteq32(a, b, offset),
            Op::BrIfXeq64 { a, b, offset } => self.br_if_xeq64(a, b, offset),
            Op::BrIfXneq64 { a, b, offset } => self.br_if_xneq64(a, b, offset),
            Op::BrIfXslt64 { a, b, offset } => self.br_if_xslt64(a, b, offset),
            Op::BrIfXslteq64 { a, b, offset } => self.br_if_xslteq64(a, b, offset),
            Op::BrIfXult64 { a, b, offset } => self.br_if_xult64(a, b, offset),
            Op::BrIfXulteq64 { a, b, offset } => self.br_if_xulteq64(a, b, offset),
            Op::BrIfXeq32I8 { a, b, offset } => self.br_if_xeq32_i8(a, b, offset),
            Op::BrIfXeq32I32 { a, b, offset } => self.br_if_xeq32_i32(a, b, offset),
            Op::BrIfXneq32I8 { a, b, offset } => self.br_if_xneq32_i8(a, b, offset),
            Op::BrIfXneq32I32 { a, b, offset } => self.br_if_xneq32_i32(a, b, offset),
            Op::BrIfXslt32I8 { a, b, offset } => self.br_if_xslt32_i8(a, b, offset),
            Op::BrIfXslt32I32 { a, b, offset } => self.br_if_xslt32_i32(a, b, offset),
            Op::BrIfXsgt32I8 { a, b, offset } => self.br_if_xsgt32_i8(a, b, offset),
            Op::BrIfXsgt32I32 { a, b, offset } => self.br_if_xsgt32_i32(a, b, offset),
            Op::BrIfXslteq32I8 { a, b, offset } => self.br_if_xslteq32_i8(a, b, offset),
            Op::BrIfXslteq32I32 { a, b, offset } => self.br_if_xslteq32_i32(a, b, offset),
            Op::BrIfXsgteq32I8 { a, b, offset } => self.br_if_xsgteq32_i8(a, b, offset),
            Op::BrIfXsgteq32I32 { a, b, offset } => self.br_if_xsgteq32_i32(a, b, offset),
            Op::BrIfXult32U8 { a, b, offset } => self.br_if_xult32_u8(a, b, offset),
            Op::BrIfXult32U32 { a, b, offset } => self.br_if_xult32_u32(a, b, offset),
            Op::BrIfXugt32U8 { a, b, offset } => self.br_if_xugt32_u8(a, b, offset),
            Op::BrIfXugt32U32 { a, b, offset } => self.br_if_xugt32_u32(a, b, offset),
            Op::BrIfXulteq32U8 { a, b, offset } => self.br_if_xulteq32_u8(a, b, offset),
            Op::BrIfXulteq32U32 { a, b, offset } => self.br_if_xulteq32_u32(a, b, offset),
            Op::BrIfXugteq32U8 { a, b, offset } => self.br_if_xugteq32_u8(a, b, offset),
            Op::BrIfXugteq32U32 { a, b, offset } => self.br_if_xugteq32_u32(a, b, offset),
            Op::BrIfXeq64I8 { a, b, offset } => self.br_if_xeq64_i8(a, b, offset),
            Op::BrIfXeq64I32 { a, b, offset } => self.br_if_xeq64_i32(a, b, offset),
            Op::BrIfXneq64I8 { a, b, offset } => self.br_if_xneq64_i8(a, b, offset),
            Op::BrIfXneq64I32 { a, b, offset } => self.br_if_xneq64_i32(a, b, offset),
            Op::BrIfXslt64I8 { a, b, offset } => self.br_if_xslt64_i8(a, b, offset),
            Op::BrIfXslt64I32 { a, b, offset } => self.br_if_xslt64_i32(a, b, offset),
            Op::BrIfXsgt64I8 { a, b, offset } => self.br_if_xsgt64_i8(a, b, offset),
            Op::BrIfXsgt64I32 { a, b, offset } => self.br_if_xsgt64_i32(a, b, offset),
            Op::BrIfXslteq64I8 { a, b, offset } => self.br_if_xslteq64_i8(a, b, offset),
            Op::BrIfXslteq64I32 { a, b, offset } => self.br_if_xslteq64_i32(a, b, offset),
            Op::BrIfXsgteq64I8 { a, b, offset } => self.br_if_xsgteq64_i8(a, b, offset),
            Op::BrIfXsgteq64I32 { a, b, offset } => self.br_if_xsgteq64_i32(a, b, offset),
            Op::BrIfXult64U8 { a, b, offset } => self.br_if_xult64_u8(a, b, offset),
            Op::BrIfXult64U32 { a, b, offset } => self.br_if_xult64_u32(a, b, offset),
            Op::BrIfXugt64U8 { a, b, offset } => self.br_if_xugt64_u8(a, b, offset),
            Op::BrIfXugt64U32 { a, b, offset } => self.br_if_xugt64_u32(a, b, offset),
            Op::BrIfXulteq64U8 { a, b, offset } => self.br_if_xulteq64_u8(a, b, offset),
            Op::BrIfXulteq64U32 { a, b, offset } => self.br_if_xulteq64_u32(a, b, offset),
            Op::BrIfXugteq64U8 { a, b, offset } => self.br_if_xugteq64_u8(a, b, offset),
            Op::BrIfXugteq64U32 { a, b, offset } => self.br_if_xugteq64_u32(a, b, offset),
            Op::Trap => self.trap(),
            Op::CallIndirectHost { id } => self.call_indirect_host(id),
            Op::StackAlloc32 { amt } => self.stack_alloc32(amt),
            Op::StackFree32 { amt } => self.stack_free32(amt),
            Op::PushFrame => self.push_frame(),
            Op::PopFrame => self.pop_frame(),
            Op::PushFrameSave { amt, regs } => self.push_frame_save(amt, regs),
            Op::PopFrameRestore { amt, regs } => self.pop_frame_restore(amt, regs),
            Op::Xload8U32O32 { dst, addr } => self.xload8_u32_o32(dst, addr),
            Op::Xload8S32O32 { dst, addr } => self.xload8_s32_o32(dst, addr),
            Op::Xload16leU32O32 { dst, addr } => self.xload16le_u32_o32(dst, addr),
            Op::Xload16leS32O32 { dst, addr } => self.xload16le_s32_o32(dst, addr),
            Op::Xload32leO32 { dst, addr } => self.xload32le_o32(dst, addr),
            Op::Xload64leO32 { dst, addr } => self.xload64le_o32(dst, addr),
            Op::Xstore8O32 { addr, val } => self.xstore8_o32(addr, val),
            Op::Xstore16leO32 { addr, val } => self.xstore16le_o32(addr, val),
            Op::Xstore32leO32 { addr, val } => self.xstore32le_o32(addr, val),
            Op::Xstore64leO32 { addr, val } => self.xstore64le_o32(addr, val),
            Op::Xload8U32Z { dst, addr } => self.xload8_u32_z(dst, addr),
            Op::Xload8S32Z { dst, addr } => self.xload8_s32_z(dst, addr),
            Op::Xload16leU32Z { dst, addr } => self.xload16le_u32_z(dst, addr),
            Op::Xload16leS32Z { dst, addr } => self.xload16le_s32_z(dst, addr),
            Op::Xload32leZ { dst, addr } => self.xload32le_z(dst, addr),
            Op::Xload64leZ { dst, addr } => self.xload64le_z(dst, addr),
            Op::Xstore8Z { addr, val } => self.xstore8_z(addr, val),
            Op::Xstore16leZ { addr, val } => self.xstore16le_z(addr, val),
            Op::Xstore32leZ { addr, val } => self.xstore32le_z(addr, val),
            Op::Xstore64leZ { addr, val } => self.xstore64le_z(addr, val),
            Op::Xload8U32G32 { dst, addr } => self.xload8_u32_g32(dst, addr),
            Op::Xload8S32G32 { dst, addr } => self.xload8_s32_g32(dst, addr),
            Op::Xload16leU32G32 { dst, addr } => self.xload16le_u32_g32(dst, addr),
            Op::Xload16leS32G32 { dst, addr } => self.xload16le_s32_g32(dst, addr),
            Op::Xload32leG32 { dst, addr } => self.xload32le_g32(dst, addr),
            Op::Xload64leG32 { dst, addr } => self.xload64le_g32(dst, addr),
            Op::Xstore8G32 { addr, val } => self.xstore8_g32(addr, val),
            Op::Xstore16leG32 { addr, val } => self.xstore16le_g32(addr, val),
            Op::Xstore32leG32 { addr, val } => self.xstore32le_g32(addr, val),
            Op::Xstore64leG32 { addr, val } => self.xstore64le_g32(addr, val),
            Op::Xload8U32G32bne { dst, addr } => self.xload8_u32_g32bne(dst, addr),
            Op::Xload8S32G32bne { dst, addr } => self.xload8_s32_g32bne(dst, addr),
            Op::Xload16leU32G32bne { dst, addr } => self.xload16le_u32_g32bne(dst, addr),
            Op::Xload16leS32G32bne { dst, addr } => self.xload16le_s32_g32bne(dst, addr),
            Op::Xload32leG32bne { dst, addr } => self.xload32le_g32bne(dst, addr),
            Op::Xload64leG32bne { dst, addr } => self.xload64le_g32bne(dst, addr),
            Op::Xstore8G32bne { addr, val } => self.xstore8_g32bne(addr, val),
            Op::Xstore16leG32bne { addr, val } => self.xstore16le_g32bne(addr, val),
            Op::Xstore32leG32bne { addr, val } => self.xstore32le_g32bne(addr, val),
            Op::Xstore64leG32bne { addr, val } => self.xstore64le_g32bne(addr, val),
            Op::Xload16beU32O32 { dst, addr } => self.xload16be_u32_o32(dst, addr),
            Op::Xload16beS32O32 { dst, addr } => self.xload16be_s32_o32(dst, addr),
            Op::Xload32beO32 { dst, addr } => self.xload32be_o32(dst, addr),
            Op::Xload64beO32 { dst, addr } => self.xload64be_o32(dst, addr),
            Op::Xstore16beO32 { addr, val } => self.xstore16be_o32(addr, val),
            Op::Xstore32beO32 { addr, val } => self.xstore32be_o32(addr, val),
            Op::Xstore64beO32 { addr, val } => self.xstore64be_o32(addr, val),
            Op::Fload32leO32 { dst, addr } => self.fload32le_o32(dst, addr),
            Op::Fload64leO32 { dst, addr } => self.fload64le_o32(dst, addr),
            Op::Fstore32leO32 { addr, src } => self.fstore32le_o32(addr, src),
            Op::Fstore64leO32 { addr, src } => self.fstore64le_o32(addr, src),
            Op::Vload128leO32 { dst, addr } => self.vload128le_o32(dst, addr),
            Op::Vstore128leO32 { addr, src } => self.vstore128le_o32(addr, src),
            Op::Fload32leZ { dst, addr } => self.fload32le_z(dst, addr),
            Op::Fload64leZ { dst, addr } => self.fload64le_z(dst, addr),
            Op::Fstore32leZ { addr, src } => self.fstore32le_z(addr, src),
            Op::Fstore64leZ { addr, src } => self.fstore64le_z(addr, src),
            Op::Vload128leZ { dst, addr } => self.vload128le_z(dst, addr),
            Op::Vstore128leZ { addr, src } => self.vstore128le_z(addr, src),
            Op::Fload32leG32 { dst, addr } => self.fload32le_g32(dst, addr),
            Op::Fload64leG32 { dst, addr } => self.fload64le_g32(dst, addr),
            Op::Fstore32leG32 { addr, src } => self.fstore32le_g32(addr, src),
            Op::Fstore64leG32 { addr, src } => self.fstore64le_g32(addr, src),
            Op::Vload128leG32 { dst, addr } => self.vload128le_g32(dst, addr),
            Op::Vstore128leG32 { addr, src } => self.vstore128le_g32(addr, src),
            Op::Fload32beO32 { dst, addr } => self.fload32be_o32(dst, addr),
            Op::Fload64beO32 { dst, addr } => self.fload64be_o32(dst, addr),
            Op::Fstore32beO32 { addr, src } => self.fstore32be_o32(addr, src),
            Op::Fstore64beO32 { addr, src } => self.fstore64be_o32(addr, src),
            Op::Xadd128 { dst_lo, dst_hi, lhs_lo, lhs_hi, rhs_lo, rhs_hi } => self.xadd128(
                dst_lo,
                dst_hi,
                lhs_lo,
                lhs_hi,
                rhs_lo,
                rhs_hi,
            ),
            Op::Xsub128 { dst_lo, dst_hi, lhs_lo, lhs_hi, rhs_lo, rhs_hi } => self.xsub128(
                dst_lo,
                dst_hi,
                lhs_lo,
                lhs_hi,
                rhs_lo,
                rhs_hi,
            ),
            Op::Xwidemul64U { dst_lo, dst_hi, lhs, rhs } => self.xwidemul64_u(
                dst_lo,
                dst_hi,
                lhs,
                rhs,
            ),
            Op::Xwidemul64S { dst_lo, dst_hi, lhs, rhs } => self.xwidemul64_s(
                dst_lo,
                dst_hi,
                lhs,
                rhs,
            ),
            Op::Fmov { dst, src } => self.fmov(dst, src),
            Op::Vmov { dst, src } => self.vmov(dst, src),
            Op::Fconst32 { dst, bits } => self.fconst32(dst, bits),
            Op::Fconst64 { dst, bits } => self.fconst64(dst, bits),
            Op::Vconst128 { dst, val } => self.vconst128(dst, val),
            Op::BitcastIntFromFloat32 { dst, src } => self.bitcast_int_from_float_32(dst, src),
            Op::BitcastIntFromFloat64 { dst, src } => self.bitcast_int_from_float_64(dst, src),
            Op::BitcastFloatFromInt32 { dst, src } => self.bitcast_float_from_int_32(dst, src),
            Op::BitcastFloatFromInt64 { dst, src } => self.bitcast_float_from_int_64(dst, src),
            Op::Fselect32 { dst, cond, if_nonzero, if_zero } => self.fselect32(
                dst,
                cond,
                if_nonzero,
                if_zero,
            ),
            Op::Fselect64 { dst, cond, if_nonzero, if_zero } => self.fselect64(
                dst,
                cond,
                if_nonzero,
                if_zero,
            ),
            Op::Vband128 { operands } => self.vband128(operands),
            Op::Vbor128 { operands } => self.vbor128(operands),
            Op::Vbxor128 { operands } => self.vbxor128(operands),
            Op::Vbnot128 { dst, src } => self.vbnot128(dst, src),
            Op::Vbitselect128 { dst, c, x, y } => self.vbitselect128(dst, c, x, y),
            Op::X32FromF32S { dst, src } => self.x32_from_f32_s(dst, src),
            Op::X32FromF32SSat { dst, src } => self.x32_from_f32_s_sat(dst, src),
            Op::X32FromF32U { dst, src } => self.x32_from_f32_u(dst, src),
            Op::X32FromF32USat { dst, src } => self.x32_from_f32_u_sat(dst, src),
            Op::X32FromF64S { dst, src } => self.x32_from_f64_s(dst, src),
            Op::X32FromF64SSat { dst, src } => self.x32_from_f64_s_sat(dst, src),
            Op::X32FromF64U { dst, src } => self.x32_from_f64_u(dst, src),
            Op::X32FromF64USat { dst, src } => self.x32_from_f64_u_sat(dst, src),
            Op::X64FromF32S { dst, src } => self.x64_from_f32_s(dst, src),
            Op::X64FromF32SSat { dst, src } => self.x64_from_f32_s_sat(dst, src),
            Op::X64FromF32U { dst, src } => self.x64_from_f32_u(dst, src),
            Op::X64FromF32USat { dst, src } => self.x64_from_f32_u_sat(dst, src),
            Op::X64FromF64S { dst, src } => self.x64_from_f64_s(dst, src),
            Op::X64FromF64SSat { dst, src } => self.x64_from_f64_s_sat(dst, src),
            Op::X64FromF64U { dst, src } => self.x64_from_f64_u(dst, src),
            Op::X64FromF64USat { dst, src } => self.x64_from_f64_u_sat(dst, src),
            Op::Vaddi8x16 { operands } => self.vaddi8x16(operands),
            Op::Vsubi8x16 { operands } => self.vsubi8x16(operands),
            Op::Vmuli8x16 { operands } => self.vmuli8x16(operands),
            Op::Vaddi16x8 { operands } => self.vaddi16x8(operands),
            Op::Vsubi16x8 { operands } => self.vsubi16x8(operands),
            Op::Vmuli16x8 { operands } => self.vmuli16x8(operands),
            Op::Vaddi32x4 { operands } => self.vaddi32x4(operands),
            Op::Vsubi32x4 { operands } => self.vsubi32x4(operands),
            Op::Vmuli32x4 { operands } => self.vmuli32x4(operands),
            Op::Vaddi64x2 { operands } => self.vaddi64x2(operands),
            Op::Vsubi64x2 { operands } => self.vsubi64x2(operands),
            Op::Vmuli64x2 { operands } => self.vmuli64x2(operands),
            Op::Vaddi8x16Sat { operands } => self.vaddi8x16_sat(operands),
            Op::Vaddu8x16Sat { operands } => self.vaddu8x16_sat(operands),
            Op::Vsubi8x16Sat { operands } => self.vsubi8x16_sat(operands),
            Op::Vsubu8x16Sat { operands } => self.vsubu8x16_sat(operands),
            Op::Vaddi16x8Sat { operands } => self.vaddi16x8_sat(operands),
            Op::Vaddu16x8Sat { operands } => self.vaddu16x8_sat(operands),
            Op::Vsubi16x8Sat { operands } => self.vsubi16x8_sat(operands),
            Op::Vsubu16x8Sat { operands } => self.vsubu16x8_sat(operands),
            Op::Vshli8x16 { operands } => self.vshli8x16(operands),
            Op::Vshri8x16S { operands } => self.vshri8x16_s(operands),
            Op::Vshri8x16U { operands } => self.vshri8x16_u(operands),
            Op::Vshli16x8 { operands } => self.vshli16x8(operands),
            Op::Vshri16x8S { operands } => self.vshri16x8_s(operands),
            Op::Vshri16x8U { operands } => self.vshri16x8_u(operands),
            Op::Vshli32x4 { operands } => self.vshli32x4(operands),
            Op::Vshri32x4S { operands } => self.vshri32x4_s(operands),
            Op::Vshri32x4U { operands } => self.vshri32x4_u(operands),
            Op::Vshli64x2 { operands } => self.vshli64x2(operands),
            Op::Vshri64x2S { operands } => self.vshri64x2_s(operands),
            Op::Vshri64x2U { operands } => self.vshri64x2_u(operands),
            Op::Veq8x16 { operands } => self.veq8x16(operands),
            Op::Vneq8x16 { operands } => self.vneq8x16(operands),
            Op::Vslt8x16 { operands } => self.vslt8x16(operands),
            Op::Vslteq8x16 { operands } => self.vslteq8x16(operands),
            Op::Vult8x16 { operands } => self.vult8x16(operands),
            Op::Vulteq8x16 { operands } => self.vulteq8x16(operands),
            Op::Veq16x8 { operands } => self.veq16x8(operands),
            Op::Vneq16x8 { operands } => self.vneq16x8(operands),
            Op::Vslt16x8 { operands } => self.vslt16x8(operands),
            Op::Vslteq16x8 { operands } => self.vslteq16x8(operands),
            Op::Vult16x8 { operands } => self.vult16x8(operands),
            Op::Vulteq16x8 { operands } => self.vulteq16x8(operands),
            Op::Veq32x4 { operands } => self.veq32x4(operands),
            Op::Vneq32x4 { operands } => self.vneq32x4(operands),
            Op::Vslt32x4 { operands } => self.vslt32x4(operands),
            Op::Vslteq32x4 { operands } => self.vslteq32x4(operands),
            Op::Vult32x4 { operands } => self.vult32x4(operands),
            Op::Vulteq32x4 { operands } => self.vulteq32x4(operands),
            Op::Veq64x2 { operands } => self.veq64x2(operands),
            Op::Vneq64x2 { operands } => self.vneq64x2(operands),
            Op::Vslt64x2 { operands } => self.vslt64x2(operands),
            Op::Vslteq64x2 { operands } => self.vslteq64x2(operands),
            Op::Vult64x2 { operands } => self.vult64x2(operands),
            Op::Vulteq64x2 { operands } => self.vulteq64x2(operands),
            Op::Vneg8x16 { dst, src } => self.vneg8x16(dst, src),
            Op::Vabs8x16 { dst, src } => self.vabs8x16(dst, src),
            Op::Vneg16x8 { dst, src } => self.vneg16x8(dst, src),
            Op::Vabs16x8 { dst, src } => self.vabs16x8(dst, src),
            Op::Vneg32x4 { dst, src } => self.vneg32x4(dst, src),
            Op::Vabs32x4 { dst, src } => self.vabs32x4(dst, src),
            Op::Vneg64x2 { dst, src } => self.vneg64x2(dst, src),
            Op::Vabs64x2 { dst, src } => self.vabs64x2(dst, src),
            Op::Vmin8x16S { operands } => self.vmin8x16_s(operands),
            Op::Vmin8x16U { operands } => self.vmin8x16_u(operands),
            Op::Vmax8x16S { operands } => self.vmax8x16_s(operands),
            Op::Vmax8x16U { operands } => self.vmax8x16_u(operands),
            Op::Vmin16x8S { operands } => self.vmin16x8_s(operands),
            Op::Vmin16x8U { operands } => self.vmin16x8_u(operands),
            Op::Vmax16x8S { operands } => self.vmax16x8_s(operands),
            Op::Vmax16x8U { operands } => self.vmax16x8_u(operands),
            Op::Vmin32x4S { operands } => self.vmin32x4_s(operands),
            Op::Vmin32x4U { operands } => self.vmin32x4_u(operands),
            Op::Vmax32x4S { operands } => self.vmax32x4_s(operands),
            Op::Vmax32x4U { operands } => self.vmax32x4_u(operands),
            Op::Vavground8x16 { operands } => self.vavground8x16(operands),
            Op::Vavground16x8 { operands } => self.vavground16x8(operands),
            Op::Vpopcnt8x16 { dst, src } => self.vpopcnt8x16(dst, src),
            Op::Vqmulrsi16x8 { operands } => self.vqmulrsi16x8(operands),
            Op::Vnegf32x4 { dst, src } => self.vnegf32x4(dst, src),
            Op::Vnegf64x2 { dst, src } => self.vnegf64x2(dst, src),
            Op::Vabsf32x4 { dst, src } => self.vabsf32x4(dst, src),
            Op::Vabsf64x2 { dst, src } => self.vabsf64x2(dst, src),
            Op::Vi32x4FromF32x4S { dst, src } => self.vi32x4_from_f32x4_s(dst, src),
            Op::Vi32x4FromF32x4U { dst, src } => self.vi32x4_from_f32x4_u(dst, src),
            Op::Vi64x2FromF64x2S { dst, src } => self.vi64x2_from_f64x2_s(dst, src),
            Op::Vi64x2FromF64x2U { dst, src } => self.vi64x2_from_f64x2_u(dst, src),
            Op::Vsplatx8 { dst, src } => self.vsplatx8(dst, src),
            Op::Vsplatx16 { dst, src } => self.vsplatx16(dst, src),
            Op::Vsplatx32 { dst, src } => self.vsplatx32(dst, src),
            Op::Vsplatx64 { dst, src } => self.vsplatx64(dst, src),
            Op::Vsplatf32 { dst, src } => self.vsplatf32(dst, src),
            Op::Vsplatf64 { dst, src } => self.vsplatf64(dst, src),
            Op::Vinsertx8 { operands, lane } => self.vinsertx8(operands, lane),
            Op::Vinsertx16 { operands, lane } => self.vinsertx16(operands, lane),
            Op::Vinsertx32 { operands, lane } => self.vinsertx32(operands, lane),
            Op::Vinsertx64 { operands, lane } => self.vinsertx64(operands, lane),
            Op::Vinsertf32 { operands, lane } => self.vinsertf32(operands, lane),
            Op::Vinsertf64 { operands, lane } => self.vinsertf64(operands, lane),
            Op::Vwidenlow8x16S { dst, src } => self.vwidenlow8x16_s(dst, src),
            Op::Vwidenlow8x16U { dst, src } => self.vwidenlow8x16_u(dst, src),
            Op::Vwidenhigh8x16S { dst, src } => self.vwidenhigh8x16_s(dst, src),
            Op::Vwidenhigh8x16U { dst, src } => self.vwidenhigh8x16_u(dst, src),
            Op::Vwidenlow16x8S { dst, src } => self.vwidenlow16x8_s(dst, src),
            Op::Vwidenlow16x8U { dst, src } => self.vwidenlow16x8_u(dst, src),
            Op::Vwidenhigh16x8S { dst, src } => self.vwidenhigh16x8_s(dst, src),
            Op::Vwidenhigh16x8U { dst, src } => self.vwidenhigh16x8_u(dst, src),
            Op::Vwidenlow32x4S { dst, src } => self.vwidenlow32x4_s(dst, src),
            Op::Vwidenlow32x4U { dst, src } => self.vwidenlow32x4_u(dst, src),
            Op::Vwidenhigh32x4S { dst, src } => self.vwidenhigh32x4_s(dst, src),
            Op::Vwidenhigh32x4U { dst, src } => self.vwidenhigh32x4_u(dst, src),
            Op::Vnarrow16x8S { operands } => self.vnarrow16x8_s(operands),
            Op::Vnarrow16x8U { operands } => self.vnarrow16x8_u(operands),
            Op::Vnarrow32x4S { operands } => self.vnarrow32x4_s(operands),
            Op::Vnarrow32x4U { operands } => self.vnarrow32x4_u(operands),
            Op::Vnarrow64x2S { operands } => self.vnarrow64x2_s(operands),
            Op::Vnarrow64x2U { operands } => self.vnarrow64x2_u(operands),
            Op::Vunarrow64x2U { operands } => self.vunarrow64x2_u(operands),
            Op::Vaddpairwisei16x8S { operands } => self.vaddpairwisei16x8_s(operands),
            Op::Vaddpairwisei32x4S { operands } => self.vaddpairwisei32x4_s(operands),
            Op::Vswizzlei8x16 { operands } => self.vswizzlei8x16(operands),
            Op::Vshuffle { dst, src1, src2, mask } => self.vshuffle(dst, src1, src2, mask),
            Op::Vload8x8SZ { dst, addr } => self.vload8x8_s_z(dst, addr),
            Op::Vload8x8UZ { dst, addr } => self.vload8x8_u_z(dst, addr),
            Op::Vload16x4leSZ { dst, addr } => self.vload16x4le_s_z(dst, addr),
            Op::Vload16x4leUZ { dst, addr } => self.vload16x4le_u_z(dst, addr),
            Op::Vload32x2leSZ { dst, addr } => self.vload32x2le_s_z(dst, addr),
            Op::Vload32x2leUZ { dst, addr } => self.vload32x2le_u_z(dst, addr),
            Op::Xextractv8x16 { dst, src, lane } => self.xextractv8x16(dst, src, lane),
            Op::Xextractv16x8 { dst, src, lane } => self.xextractv16x8(dst, src, lane),
            Op::Xextractv32x4 { dst, src, lane } => self.xextractv32x4(dst, src, lane),
            Op::Xextractv64x2 { dst, src, lane } => self.xextractv64x2(dst, src, lane),
            Op::Fextractv32x4 { dst, src, lane } => self.fextractv32x4(dst, src, lane),
            Op::Fextractv64x2 { dst, src, lane } => self.fextractv64x2(dst, src, lane),
            Op::Vbitmask8x16 { dst, src } => self.vbitmask8x16(dst, src),
            Op::Valltrue8x16 { dst, src } => self.valltrue8x16(dst, src),
            Op::Vanytrue8x16 { dst, src } => self.vanytrue8x16(dst, src),
            Op::Vbitmask16x8 { dst, src } => self.vbitmask16x8(dst, src),
            Op::Valltrue16x8 { dst, src } => self.valltrue16x8(dst, src),
            Op::Vanytrue16x8 { dst, src } => self.vanytrue16x8(dst, src),
            Op::Vbitmask32x4 { dst, src } => self.vbitmask32x4(dst, src),
            Op::Valltrue32x4 { dst, src } => self.valltrue32x4(dst, src),
            Op::Vanytrue32x4 { dst, src } => self.vanytrue32x4(dst, src),
            Op::Vbitmask64x2 { dst, src } => self.vbitmask64x2(dst, src),
            Op::Valltrue64x2 { dst, src } => self.valltrue64x2(dst, src),
            Op::Vanytrue64x2 { dst, src } => self.vanytrue64x2(dst, src),
            Op::Vselect { dst, cond, if_nonzero, if_zero } => self.vselect(
                dst,
                cond,
                if_nonzero,
                if_zero,
            ),
            Op::Fneg32 { dst, src } => self.fneg32(dst, src),
            Op::Fabs32 { dst, src } => self.fabs32(dst, src),
            Op::Fcopysign32 { operands } => self.fcopysign32(operands),
            Op::Fneg64 { dst, src } => self.fneg64(dst, src),
            Op::Fabs64 { dst, src } => self.fabs64(dst, src),
            Op::Fcopysign64 { operands } => self.fcopysign64(operands),
        }
    }
}

} // verus!
