//! A bytecode compiler for a small Go-like language: it walks a validated,
//! already-parsed program tree and emits a flat stack-machine instruction
//! stream together with the symbol tables a virtual machine needs to run it.

pub mod ast;
pub mod codegen;
pub mod opcode;
pub mod table;
pub mod value;
pub mod vm;
