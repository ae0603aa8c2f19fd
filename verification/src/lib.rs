//! A small register machine with a byte-encoded instruction set, and the
//! assembler that produces its byte code from mnemonic text.

pub mod assembler;
pub mod instructions;
pub mod repl;
pub mod round_trip;
pub mod text;
pub mod vm;
