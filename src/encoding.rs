//! The machine operations that generated code is made of, as x86-64 bytes.
//!
//! Generated code keeps four values in callee-saved registers for its whole
//! run:
//!
//! | role              | register |
//! |-------------------|----------|
//! | I/O context       | `rbx`    |
//! | tape base pointer | `r12`    |
//! | tape capacity     | `r13`    |
//! | cursor            | `r14`    |
//!
//! `rax` is the scratch register that holds a helper's address for a call and
//! the helper's result afterwards; `rdi` and `rsi` carry helper arguments.
//! The names below spell out the registers, so the table is the one place
//! where the roles meet their encodings.
use vstd::prelude::*;

verus! {

pub const PUSH_RBX: [u8; 1] = [0x53];
pub const PUSH_R12: [u8; 2] = [0x41, 0x54];
pub const PUSH_R13: [u8; 2] = [0x41, 0x55];
pub const PUSH_R14: [u8; 2] = [0x41, 0x56];

pub const POP_R14: [u8; 2] = [0x41, 0x5e];
pub const POP_R13: [u8; 2] = [0x41, 0x5d];
pub const POP_R12: [u8; 2] = [0x41, 0x5c];
pub const POP_RBX: [u8; 1] = [0x5b];

/// `sub rsp, 8`: after the return address and four pushes the stack is eight
/// bytes off the sixteen-byte alignment that calls into helpers need.
pub const SUB_8_FROM_RSP: [u8; 4] = [0x48, 0x83, 0xec, 0x08];
/// `add rsp, 8`: undoes `SUB_8_FROM_RSP`.
pub const ADD_8_TO_RSP: [u8; 4] = [0x48, 0x83, 0xc4, 0x08];

pub const MOV_RDI_TO_RBX: [u8; 3] = [0x48, 0x89, 0xfb];
pub const MOV_RSI_TO_R12: [u8; 3] = [0x49, 0x89, 0xf4];
pub const MOV_RDX_TO_R13: [u8; 3] = [0x49, 0x89, 0xd5];
pub const MOV_R12_TO_RDI: [u8; 3] = [0x4c, 0x89, 0xe7];
pub const MOV_R13_TO_RSI: [u8; 3] = [0x4c, 0x89, 0xee];
pub const MOV_RAX_TO_R12: [u8; 3] = [0x49, 0x89, 0xc4];
pub const MOV_RBX_TO_RDI: [u8; 3] = [0x48, 0x89, 0xdf];
/// `mov si, ax`
pub const MOV_AX_TO_SI: [u8; 3] = [0x66, 0x89, 0xc6];
/// `mov [r12 + r14], al`
pub const MOV_AL_TO_MEM_R12_R14: [u8; 4] = [0x43, 0x88, 0x04, 0x34];
/// `mov al, [r12 + r14]`
pub const MOV_MEM_R12_R14_TO_AL: [u8; 4] = [0x43, 0x8a, 0x04, 0x34];
/// `movabs rax, imm64`: the eight-byte operand follows.
pub const MOVABS_TO_RAX: [u8; 2] = [0x48, 0xb8];

pub const CMP_R14_WITH_R13: [u8; 3] = [0x4d, 0x39, 0xee];
/// `cmp byte [r12 + r14], 0`
pub const CMPB_MEM_R12_R14_WITH_ZERO: [u8; 5] = [0x43, 0x80, 0x3c, 0x34, 0x00];
pub const TEST_R14_WITH_R14: [u8; 3] = [0x4d, 0x85, 0xf6];
pub const TEST_AX_WITH_AX: [u8; 3] = [0x66, 0x85, 0xc0];
pub const TEST_AL_WITH_AL: [u8; 2] = [0x84, 0xc0];

/// The jumps below take a four-byte displacement, counted from the end of
/// that operand.
pub const JMP_REL32: [u8; 1] = [0xe9];
pub const JE_JZ_REL32: [u8; 2] = [0x0f, 0x84];
pub const JNE_JNZ_REL32: [u8; 2] = [0x0f, 0x85];
pub const JS_REL32: [u8; 2] = [0x0f, 0x88];
/// `call rax`
pub const CALL_RAX: [u8; 2] = [0xff, 0xd0];

pub const XOR_R14_TO_R14: [u8; 3] = [0x4d, 0x31, 0xf6];
pub const XOR_EAX_TO_EAX: [u8; 2] = [0x31, 0xc0];

/// `add r13, imm32`: the four-byte operand follows.
pub const ADD_IMM32_TO_R13: [u8; 3] = [0x49, 0x81, 0xc5];
/// `add r14, imm32`: the four-byte operand follows.
pub const ADD_IMM32_TO_R14: [u8; 3] = [0x49, 0x81, 0xc6];

/// `ror ax, imm8`: the one-byte operand follows.
pub const ROR_IMM8_TO_AX: [u8; 3] = [0x66, 0xc1, 0xc8];

pub const INC_R14: [u8; 3] = [0x49, 0xff, 0xc6];
pub const DEC_R14: [u8; 3] = [0x49, 0xff, 0xce];

/// `inc byte [r12 + r14]`
pub const INCB_MEM_R12_R14: [u8; 4] = [0x43, 0xfe, 0x04, 0x34];
/// `dec byte [r12 + r14]`
pub const DECB_MEM_R12_R14: [u8; 4] = [0x43, 0xfe, 0x0c, 0x34];

pub const RET: [u8; 1] = [0xc3];

} // verus!
