//! Decoding of 32-bit RISC-V base-ISA instruction words into typed instructions.
pub mod bits;
pub mod opcodes;
pub mod types;
