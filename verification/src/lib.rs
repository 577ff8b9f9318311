//! A tiny virtual machine for a language whose instructions are encoded by
//! counting whitespace: each instruction is an optional operand line (its
//! count of spaces) followed by an opcode line (its count of tabs). All other
//! characters are filler. The machine owns a sparse integer store, a cursor,
//! and a display mode, and appends everything it prints to an output buffer.

pub mod error;
pub mod interp;
pub mod laws;
pub mod machine;
pub mod parser;
