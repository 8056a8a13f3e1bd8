//! The interpreter core: registers, stack, addressing modes and the
//! handlers of the instructions.

pub mod bits;
pub mod dispatch;
pub mod encode;
pub mod fconv;
pub mod lanes;
pub mod machine;
pub mod ops_arith;
pub mod ops_control;
pub mod ops_frame;
pub mod ops_lanes;
pub mod ops_mem;
pub mod ops_misc;
pub mod ops_sign;
pub mod ops_vec;
pub mod protocol;
pub mod regs;
pub mod state;
pub mod value;
pub mod vm;
