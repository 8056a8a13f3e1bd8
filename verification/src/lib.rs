//! Calling-convention engine and bytecode interpreter core.
//!
//! The calling-convention half turns function signatures into register and
//! stack assignments, lays out stack frames and marshals call arguments.
//! The interpreter half holds the register file, the stack and the
//! handlers of a compact virtual instruction set.

pub mod abi;
pub mod callee;
pub mod frame;
pub mod interp;
pub mod ir;
pub mod lists;
pub mod module;
pub mod pregset;
pub mod pulley_abi;
pub mod reg;
pub mod sigset;
pub mod trace;
