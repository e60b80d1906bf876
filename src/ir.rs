//! The tape-machine program that the compiler consumes.
use vstd::prelude::*;

verus! {

/// One instruction of the tape machine.
///
/// A jump target is a position in the program: an index of an instruction,
/// or the program's length, which names the end of the program.
#[derive(Clone, Copy, Debug, PartialEq, Eq, Structural)]
pub enum Instruction {
    Inc,
    Dec,
    Next,
    Prev,
    Get,
    Put,
    Jz(usize),
    Jnz(usize),
    Halt,
}

/// An ordered sequence of instructions.
pub struct Program {
    pub code: Vec<Instruction>,
}

impl View for Program {
    type V = Seq<Instruction>;

    open spec fn view(&self) -> Seq<Instruction> {
        self.code@
    }
}

impl Instruction {
    /// Whether the instruction jumps to a position given in the program.
    pub open spec fn is_jump(self) -> bool {
        self is Jz || self is Jnz
    }

    /// The position that a `Jz` or `Jnz` jumps to.
    pub open spec fn jump_target(self) -> usize {
        match self {
            Instruction::Jz(t) => t,
            Instruction::Jnz(t) => t,
            _ => 0,
        }
    }

    /// Whether the instruction's code defines a label of its own beside its
    /// entry: the point where its slow path (a growth of the tape) rejoins.
    pub open spec fn has_inner_label(self) -> bool {
        self is Next || self is Prev || self is Get
    }
}

} // verus!
