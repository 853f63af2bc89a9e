//! A tiny register-based virtual machine with its assembler.
//!
//! Assembly text is parsed into an instruction list, encoded into a compact
//! byte stream, and executed by a fetch-decode-execute loop over 32 signed
//! 32-bit registers, a program counter, a remainder register and a
//! conditional flag.

pub mod assembler;
pub mod instruction;
pub mod vm;
