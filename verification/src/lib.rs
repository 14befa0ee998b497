//! An instruction-set interpreter for an 8-bit CPU of the SM83 family.

pub mod alu;
pub mod bits;
pub mod bus;
pub mod control;
pub mod cpu;
pub mod decode;
pub mod dispatch;
pub mod execute;
pub mod flags;
pub mod registers;
