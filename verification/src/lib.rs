//! A virtual machine for Glulx story files: the memory image, the execution
//! stack, the instruction decoder and the opcode semantics.

pub mod bytes;
pub mod memory;
pub mod stack;
pub mod opcodes;
pub mod instructions;
pub mod io;
pub mod interpreter;

pub use interpreter::Glulx;
