//! The execution-engine side the compiler hands its output to: the engine's
//! instruction set and the foreign-function context built over the compiled
//! object arenas.

pub mod ffi;
pub mod opcode;
