//! The compile entry point and the finished machine code.
use vstd::prelude::*;
use crate::assembler::{empty_state, first_pass_state, resolve, Compiler, Error};
use crate::ir::{Instruction, Program};
use crate::runtime::Runtime;

verus! {

/// An instruction-set architecture.
#[derive(Clone, Copy, Debug, PartialEq, Eq, Structural)]
pub enum Arch {
    X86_64,
    Other,
}

/// An operating system.
#[derive(Clone, Copy, Debug, PartialEq, Eq, Structural)]
pub enum Os {
    Linux,
    Other,
}

/// The machine that compiled code is meant to run on.
#[derive(Clone, Copy, Debug, PartialEq, Eq, Structural)]
pub struct Target {
    pub arch: Arch,
    pub os: Os,
}

impl Target {
    /// The one supported combination: x86-64 Linux.
    pub open spec fn spec_supported(self) -> bool {
        self.arch == Arch::X86_64 && self.os == Os::Linux
    }

    pub fn is_supported(&self) -> (r: bool)
        ensures
            r == self.spec_supported(),
    {
        match (self.arch, self.os) {
            (Arch::X86_64, Os::Linux) => true,
            _ => false,
        }
    }
}

/// Finished machine code: one function, entered at offset 0, that takes the
/// I/O context, the tape base and the tape capacity and returns a status
/// byte.
pub struct Executable {
    code: Vec<u8>,
}

impl View for Executable {
    type V = Seq<u8>;

    closed spec fn view(&self) -> Seq<u8> {
        self.code@
    }
}

impl Executable {
    /// The machine code.
    pub fn code(&self) -> (r: &Vec<u8>)
        ensures
            r@ == self@,
    {
        &self.code
    }
}

/// What compiling `code` for `target`, with helpers at `rt`, gives.
pub open spec fn spec_compile(code: Seq<Instruction>, target: Target, rt: Runtime) -> Result<Seq<u8>, Error> {
    if !target.spec_supported() {
        Err(Error::UnsupportedTarget)
    } else {
        resolve(first_pass_state(empty_state(), code, rt))
    }
}

/// Compiles `program` to machine code for `target`, whose calls go to the
/// helpers at `runtime`.
pub fn compile(program: &Program, target: &Target, runtime: Runtime) -> (r: Result<Executable, Error>)
    ensures
        match r {
            Ok(e) => spec_compile(program@, *target, runtime) == Ok::<Seq<u8>, Error>(e@),
            Err(err) => spec_compile(program@, *target, runtime) == Err::<Seq<u8>, Error>(err),
        },
{
    if !target.is_supported() {
        return Err(Error::UnsupportedTarget);
    }
    let mut compiler = Compiler::new(runtime);
    compiler.first_pass(program);
    match compiler.second_pass() {
        Ok(()) => {
            Ok(Executable { code: compiler.into_code() })
        },
        Err(err) => Err(err),
    }
}

} // verus!
