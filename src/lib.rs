//! A just-in-time compiler from tape-machine programs to x86-64 machine code.
pub mod encoding;
pub mod ir;
pub mod labels;
pub mod runtime;
pub mod assembler;
pub mod jit;
pub mod laws;

pub use assembler::{Compiler, Error};
pub use ir::{Instruction, Program};
pub use jit::{compile, Arch, Executable, Os, Target};
pub use runtime::{Runtime, TAPE_CHUNK_SIZE};
