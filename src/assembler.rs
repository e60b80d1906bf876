//! The two-pass assembler: code templates, labels, fixups and relocation.
use vstd::prelude::*;
use crate::encoding::{PUSH_RBX, PUSH_R12, PUSH_R13, PUSH_R14, POP_R14, POP_R13, POP_R12, POP_RBX, SUB_8_FROM_RSP, ADD_8_TO_RSP, MOV_RDI_TO_RBX, MOV_RSI_TO_R12, MOV_RDX_TO_R13, MOV_R12_TO_RDI, MOV_R13_TO_RSI, MOV_RAX_TO_R12, MOV_RBX_TO_RDI, MOV_AX_TO_SI, MOV_AL_TO_MEM_R12_R14, MOV_MEM_R12_R14_TO_AL, MOVABS_TO_RAX, CMP_R14_WITH_R13, CMPB_MEM_R12_R14_WITH_ZERO, TEST_R14_WITH_R14, TEST_AX_WITH_AX, TEST_AL_WITH_AL, JMP_REL32, JE_JZ_REL32, JNE_JNZ_REL32, JS_REL32, CALL_RAX, XOR_R14_TO_R14, XOR_EAX_TO_EAX, ADD_IMM32_TO_R13, ADD_IMM32_TO_R14, ROR_IMM8_TO_AX, INC_R14, DEC_R14, INCB_MEM_R12_R14, DECB_MEM_R12_R14, RET};
use crate::ir::{Instruction, Program};
use crate::labels::{LabelKey, LabelTable, INNER, MAIN};
use crate::runtime::{Runtime, TAPE_CHUNK_SIZE};

verus! {

/// A four-byte placeholder at `offset` that must come to hold the
/// displacement of label `target`.
#[derive(Clone, Copy, Debug, PartialEq, Eq, Structural)]
pub struct Fixup {
    pub offset: usize,
    pub target: LabelKey,
}

/// The abstract state of an assembly: the bytes emitted, the labels defined
/// and the fixups recorded, in order of their offsets.
pub struct AsmState {
    pub buf: Seq<u8>,
    pub labels: Map<LabelKey, int>,
    pub fixups: Seq<Fixup>,
}

/// An error of compilation.
#[derive(Clone, Copy, Debug, PartialEq, Eq, Structural)]
pub enum Error {
    /// The running target is not x86-64 Linux.
    UnsupportedTarget,
    /// A fixup refers to a label of this position that was never defined.
    BadLabelIndex(usize),
    /// No executable memory could be had for the code.
    AllocError,
}

/// The little-endian bytes of a 32-bit value.
pub open spec fn le32(v: int) -> Seq<u8> {
    seq![
        (v % 0x100) as u8,
        (v / 0x100 % 0x100) as u8,
        (v / 0x1_0000 % 0x100) as u8,
        (v / 0x100_0000 % 0x100) as u8,
    ]
}

/// The little-endian bytes of a 64-bit value.
pub open spec fn le64(v: int) -> Seq<u8> {
    le32(v % 0x1_0000_0000) + le32(v / 0x1_0000_0000)
}

/// The 32-bit displacement of a jump from `next` (the end of its operand) to
/// `target`, taken modulo 2^32 (two's complement).
pub open spec fn rel32(target: int, next: int) -> int {
    (target - next) % 0x1_0000_0000
}

/// Appends bytes.
pub open spec fn put_bytes(s: AsmState, b: Seq<u8>) -> AsmState {
    AsmState { buf: s.buf + b, ..s }
}

/// Appends a zero placeholder and records a fixup of it to label `k`.
pub open spec fn put_placeholder(s: AsmState, k: LabelKey) -> AsmState {
    AsmState {
        buf: s.buf + seq![0u8, 0u8, 0u8, 0u8],
        fixups: s.fixups.push(Fixup { offset: s.buf.len() as usize, target: k }),
        ..s
    }
}

/// Defines label `k` at the current end of the buffer.
pub open spec fn put_label(s: AsmState, k: LabelKey) -> AsmState {
    AsmState { labels: s.labels.insert(k, s.buf.len() as int), ..s }
}

pub open spec fn key(pos: usize, sub: usize) -> LabelKey {
    LabelKey { pos, sub }
}

/// `movabs rax, addr; call rax`
pub open spec fn call_code(s: AsmState, addr: u64) -> AsmState {
    let s = put_bytes(s, MOVABS_TO_RAX@);
    let s = put_bytes(s, le64(addr as int));
    put_bytes(s, CALL_RAX@)
}

/// The prologue: save the four persistent registers, align the stack, take
/// the three arguments and zero the cursor.
pub open spec fn enter_code(s: AsmState) -> AsmState {
    let s = put_bytes(s, PUSH_RBX@);
    let s = put_bytes(s, PUSH_R12@);
    let s = put_bytes(s, PUSH_R13@);
    let s = put_bytes(s, PUSH_R14@);
    let s = put_bytes(s, SUB_8_FROM_RSP@);
    let s = put_bytes(s, MOV_RDI_TO_RBX@);
    let s = put_bytes(s, MOV_RSI_TO_R12@);
    let s = put_bytes(s, MOV_RDX_TO_R13@);
    put_bytes(s, XOR_R14_TO_R14@)
}

/// The epilogue at end position `end`: the success status, then the
/// error-halt label `(end, INNER)`, which restores and returns with `rax`
/// as it stands.
pub open spec fn leave_code(s: AsmState, end: usize) -> AsmState {
    let s = put_bytes(s, XOR_EAX_TO_EAX@);
    let s = put_label(s, key(end, INNER));
    let s = put_bytes(s, ADD_8_TO_RSP@);
    let s = put_bytes(s, POP_R14@);
    let s = put_bytes(s, POP_R13@);
    let s = put_bytes(s, POP_R12@);
    let s = put_bytes(s, POP_RBX@);
    put_bytes(s, RET@)
}

pub open spec fn inc_code(s: AsmState) -> AsmState {
    put_bytes(s, INCB_MEM_R12_R14@)
}

pub open spec fn dec_code(s: AsmState) -> AsmState {
    put_bytes(s, DECB_MEM_R12_R14@)
}

/// The forward growth that `Next` and `Get` share: when the cursor equals
/// the capacity, call `grow_next` and take the new base and capacity; the
/// label `(pos, INNER)` follows.
pub open spec fn grow_next_code(s: AsmState, pos: usize, rt: Runtime) -> AsmState {
    let s = put_bytes(s, CMP_R14_WITH_R13@);
    let s = put_bytes(s, JNE_JNZ_REL32@);
    let s = put_placeholder(s, key(pos, INNER));
    let s = put_bytes(s, MOV_R12_TO_RDI@);
    let s = put_bytes(s, MOV_R13_TO_RSI@);
    let s = call_code(s, rt.grow_next);
    let s = put_bytes(s, MOV_RAX_TO_R12@);
    let s = put_bytes(s, ADD_IMM32_TO_R13@);
    let s = put_bytes(s, le32(TAPE_CHUNK_SIZE as int));
    put_label(s, key(pos, INNER))
}

pub open spec fn next_code(s: AsmState, pos: usize, rt: Runtime) -> AsmState {
    let s = grow_next_code(s, pos, rt);
    put_bytes(s, INC_R14@)
}

pub open spec fn prev_code(s: AsmState, pos: usize, rt: Runtime) -> AsmState {
    let s = put_bytes(s, TEST_R14_WITH_R14@);
    let s = put_bytes(s, JNE_JNZ_REL32@);
    let s = put_placeholder(s, key(pos, INNER));
    let s = put_bytes(s, MOV_R12_TO_RDI@);
    let s = put_bytes(s, MOV_R13_TO_RSI@);
    let s = call_code(s, rt.grow_prev);
    let s = put_bytes(s, ADD_IMM32_TO_R14@);
    let s = put_bytes(s, le32(TAPE_CHUNK_SIZE as int));
    let s = put_bytes(s, MOV_RAX_TO_R12@);
    let s = put_bytes(s, ADD_IMM32_TO_R13@);
    let s = put_bytes(s, le32(TAPE_CHUNK_SIZE as int));
    let s = put_label(s, key(pos, INNER));
    put_bytes(s, DEC_R14@)
}

pub open spec fn put_code(s: AsmState, end: usize, rt: Runtime) -> AsmState {
    let s = put_bytes(s, MOV_RBX_TO_RDI@);
    let s = put_bytes(s, XOR_EAX_TO_EAX@);
    let s = put_bytes(s, MOV_MEM_R12_R14_TO_AL@);
    let s = put_bytes(s, MOV_AX_TO_SI@);
    let s = call_code(s, rt.put);
    let s = put_bytes(s, TEST_AL_WITH_AL@);
    let s = put_bytes(s, JS_REL32@);
    put_placeholder(s, key(end, INNER))
}

pub open spec fn get_code(s: AsmState, pos: usize, end: usize, rt: Runtime) -> AsmState {
    let s = grow_next_code(s, pos, rt);
    let s = put_bytes(s, MOV_RBX_TO_RDI@);
    let s = call_code(s, rt.get);
    let s = put_bytes(s, TEST_AX_WITH_AX@);
    let s = put_bytes(s, JS_REL32@);
    let s = put_placeholder(s, key(end, INNER));
    let s = put_bytes(s, ROR_IMM8_TO_AX@);
    let s = put_bytes(s, seq![8u8]);
    put_bytes(s, MOV_AL_TO_MEM_R12_R14@)
}

pub open spec fn halt_code(s: AsmState, end: usize) -> AsmState {
    let s = put_bytes(s, JMP_REL32@);
    put_placeholder(s, key(end, MAIN))
}

/// `Jz`: test the current cell, then jump to `target` if it is zero.
pub open spec fn jz_code(s: AsmState, target: usize) -> AsmState {
    let s = put_bytes(s, CMPB_MEM_R12_R14_WITH_ZERO@);
    let s = put_bytes(s, JE_JZ_REL32@);
    put_placeholder(s, key(target, MAIN))
}

/// `Jnz`: test the current cell, then jump to `target` if it is not zero.
pub open spec fn jnz_code(s: AsmState, target: usize) -> AsmState {
    let s = put_bytes(s, CMPB_MEM_R12_R14_WITH_ZERO@);
    let s = put_bytes(s, JNE_JNZ_REL32@);
    put_placeholder(s, key(target, MAIN))
}

/// The code of the instruction at position `pos` of a program whose end
/// position is `end`.
pub open spec fn instr_code(s: AsmState, instr: Instruction, pos: usize, end: usize, rt: Runtime) -> AsmState {
    match instr {
        Instruction::Inc => inc_code(s),
        Instruction::Dec => dec_code(s),
        Instruction::Next => next_code(s, pos, rt),
        Instruction::Prev => prev_code(s, pos, rt),
        Instruction::Get => get_code(s, pos, end, rt),
        Instruction::Put => put_code(s, end, rt),
        Instruction::Jz(t) => jz_code(s, t),
        Instruction::Jnz(t) => jnz_code(s, t),
        Instruction::Halt => halt_code(s, end),
    }
}

pub open spec fn empty_state() -> AsmState {
    AsmState { buf: Seq::empty(), labels: Map::empty(), fixups: Seq::empty() }
}

/// The state after the prologue and the first `i` instructions, each
/// preceded by its entry label.
pub open spec fn body_state(s0: AsmState, code: Seq<Instruction>, i: nat, rt: Runtime) -> AsmState
    decreases i,
{
    if i == 0 || i > code.len() {
        enter_code(s0)
    } else {
        let pos = (i - 1) as usize;
        let s = put_label(body_state(s0, code, (i - 1) as nat, rt), key(pos, MAIN));
        instr_code(s, code[pos as int], pos, code.len() as usize, rt)
    }
}

/// The state after the first pass: the body, the end label and the
/// epilogue.
#[verifier::opaque]
pub open spec fn first_pass_state(s0: AsmState, code: Seq<Instruction>, rt: Runtime) -> AsmState {
    let end = code.len() as usize;
    leave_code(put_label(body_state(s0, code, code.len(), rt), key(end, MAIN)), end)
}

/// `buf` with the four bytes at `o` replaced by `le32(v)`.
pub open spec fn patch32(buf: Seq<u8>, o: int, v: int) -> Seq<u8> {
    let b = le32(v);
    buf.update(o, b[0]).update(o + 1, b[1]).update(o + 2, b[2]).update(o + 3, b[3])
}

/// Resolves fixups `i..` in order: the first one whose label is undefined
/// is an error naming its position; otherwise each placeholder gets the
/// displacement of its label.
pub open spec fn patch_from(buf: Seq<u8>, fixups: Seq<Fixup>, labels: Map<LabelKey, int>, i: int) -> Result<Seq<u8>, Error>
    decreases fixups.len() - i,
{
    if i < 0 || i >= fixups.len() {
        Ok(buf)
    } else {
        let f = fixups[i];
        if labels.contains_key(f.target) {
            patch_from(patch32(buf, f.offset as int, rel32(labels[f.target], f.offset + 4)), fixups, labels, i + 1)
        } else {
            Err(Error::BadLabelIndex(f.target.pos))
        }
    }
}

/// The second pass on a state.
pub open spec fn resolve(s: AsmState) -> Result<Seq<u8>, Error> {
    patch_from(s.buf, s.fixups, s.labels, 0)
}

impl AsmState {
    /// Every fixup's placeholder lies inside the buffer, and the fixups are
    /// in increasing order of offset without overlap.
    pub open spec fn wf(self) -> bool {
        &&& forall|j: int| 0 <= j < self.fixups.len() ==> #[trigger] self.fixups[j].offset + 4 <= self.buf.len()
        &&& forall|i: int, j: int| 0 <= i < j < self.fixups.len() ==> #[trigger] self.fixups[i].offset + 4 <= #[trigger] self.fixups[j].offset
    }
}

} // verus!

verus! {

/// Appends `bytes` to `buf`.
fn push_bytes<const N: usize>(buf: &mut Vec<u8>, bytes: &[u8; N])
    ensures
        final(buf)@ == old(buf)@ + bytes@,
{
    let mut i: usize = 0;
    while i < N
        invariant
            i <= N,
            N == bytes@.len(),
            buf@ == old(buf)@ + bytes@.subrange(0, i as int),
        decreases N - i,
    {
        buf.push(bytes[i]);
        i = i + 1;
        assert(bytes@.subrange(0, i as int) == bytes@.subrange(0, i - 1).push(bytes@[i - 1]));
    }
    assert(bytes@.subrange(0, N as int) == bytes@);
}

/// The little-endian bytes of `v`.
fn le32_bytes(v: u32) -> (r: [u8; 4])
    ensures
        r@ == le32(v as int),
{
    let r = [
        (v % 0x100) as u8,
        (v / 0x100 % 0x100) as u8,
        (v / 0x1_0000 % 0x100) as u8,
        (v / 0x100_0000 % 0x100) as u8,
    ];
    assert(r@ =~= le32(v as int));
    r
}

/// Appends the little-endian bytes of `v` to `buf`.
fn push_le32(buf: &mut Vec<u8>, v: u32)
    ensures
        final(buf)@ == old(buf)@ + le32(v as int),
{
    let b = le32_bytes(v);
    push_bytes(buf, &b);
}

/// Appends the little-endian bytes of `v` to `buf`.
fn push_le64(buf: &mut Vec<u8>, v: u64)
    ensures
        final(buf)@ == old(buf)@ + le64(v as int),
{
    let ghost b0 = buf@;
    push_le32(buf, (v % 0x1_0000_0000) as u32);
    push_le32(buf, (v / 0x1_0000_0000) as u32);
    assert(buf@ =~= b0 + le64(v as int));
}

/// The displacement of a jump whose operand ends at `next` to `target`.
fn displacement(target: usize, next: usize) -> (r: u32)
    ensures
        r as int == rel32(target as int, next as int),
{
    let t = target as u64;
    let n = next as u64;
    if t >= n {
        ((t - n) % 0x1_0000_0000) as u32
    } else {
        let back = (n - t) % 0x1_0000_0000;
        proof {
            let q = (n - t) as int / 0x1_0000_0000;
            assert((n - t) as int == q * 0x1_0000_0000 + back);
            if back == 0 {
                assert((t - n) as int == (-q) * 0x1_0000_0000);
                vstd::arithmetic::div_mod::lemma_mod_multiples_basic(-q, 0x1_0000_0000);
            } else {
                assert((t as int - n as int) == (-q - 1) * 0x1_0000_0000 + (0x1_0000_0000 - back));
                vstd::arithmetic::div_mod::lemma_mod_multiples_vanish(-q - 1, 0x1_0000_0000 - back, 0x1_0000_0000);
                vstd::arithmetic::div_mod::lemma_small_mod((0x1_0000_0000 - back) as nat, 0x1_0000_0000);
            }
        }
        if back == 0 {
            0
        } else {
            (0x1_0000_0000 - back) as u32
        }
    }
}

/// Appends `movabs rax, func_ptr; call rax` to `buf`.
pub fn write_absolute_call(buf: &mut Vec<u8>, func_ptr: u64) -> (r: Result<(), Error>)
    ensures
        r is Ok,
        final(buf)@ == old(buf)@ + MOVABS_TO_RAX@ + le64(func_ptr as int) + CALL_RAX@,
{
    push_bytes(buf, &MOVABS_TO_RAX);
    push_le64(buf, func_ptr);
    push_bytes(buf, &CALL_RAX);
    Ok(())
}

/// The assembler: the output buffer, the fixups in order of offset, the
/// label table, and the helper addresses that calls go to.
pub struct Compiler {
    buf: Vec<u8>,
    placeholders: Vec<Fixup>,
    labels: LabelTable,
    runtime: Runtime,
}

impl View for Compiler {
    type V = AsmState;

    closed spec fn view(&self) -> AsmState {
        AsmState { buf: self.buf@, labels: self.labels@, fixups: self.placeholders@ }
    }
}

impl Compiler {
    /// The helper addresses that the compiler's calls go to.
    pub closed spec fn rt(&self) -> Runtime {
        self.runtime
    }

    pub fn new(runtime: Runtime) -> (r: Compiler)
        ensures
            r@ == empty_state(),
            r.rt() == runtime,
    {
        let r = Compiler { buf: Vec::new(), placeholders: Vec::new(), labels: LabelTable::new(), runtime };
        assert(r@.buf =~= empty_state().buf);
        assert(r@.fixups =~= empty_state().fixups);
        r
    }

    /// The machine code as it stands.
    pub fn code(&self) -> (r: &Vec<u8>)
        ensures
            r@ == self@.buf,
    {
        &self.buf
    }

    /// The machine code, taking it out of the compiler.
    pub fn into_code(self) -> (r: Vec<u8>)
        ensures
            r@ == self@.buf,
    {
        self.buf
    }

    /// Pass one: the prologue, each instruction's entry label and code, the
    /// end label and the epilogue.
    pub fn first_pass(&mut self, program: &Program)
        requires
            old(self)@.wf(),
        ensures
            final(self)@ == first_pass_state(old(self)@, program@, old(self).rt()),
            final(self)@.wf(),
            final(self).rt() == old(self).rt(),
    {
        let ghost s0 = self@;
        let last_ir_label = program.code.len();
        self.write_enter();
        let mut ir_label: usize = 0;
        while ir_label < last_ir_label
            invariant
                last_ir_label == program@.len(),
                ir_label <= last_ir_label,
                self@ == body_state(s0, program@, ir_label as nat, self.rt()),
                self@.wf(),
                self.rt() == old(self).rt(),
            decreases last_ir_label - ir_label,
        {
            self.def_main_label(ir_label);
            self.handle_instruction(ir_label, program.code[ir_label], last_ir_label);
            ir_label = ir_label + 1;
        }
        self.def_main_label(last_ir_label);
        self.write_leave(last_ir_label);
        proof {
            reveal(first_pass_state);
        }
    }

    /// Pass two: patch every placeholder with the displacement of its label,
    /// in order of offset; the first fixup whose label is undefined fails
    /// with its position.
    pub fn second_pass(&mut self) -> (r: Result<(), Error>)
        requires
            old(self)@.wf(),
        ensures
            final(self)@.labels == old(self)@.labels,
            final(self)@.fixups == old(self)@.fixups,
            final(self).rt() == old(self).rt(),
            match r {
                Ok(()) => resolve(old(self)@) == Ok::<Seq<u8>, Error>(final(self)@.buf),
                Err(e) => resolve(old(self)@) == Err::<Seq<u8>, Error>(e),
            },
    {
        let ghost s0 = self@;
        let mut i: usize = 0;
        while i < self.placeholders.len()
            invariant
                i <= self.placeholders@.len(),
                self@.labels == s0.labels,
                self@.fixups == s0.fixups,
                self@.buf.len() == s0.buf.len(),
                s0 == old(self)@,
                s0.wf(),
                self.rt() == old(self).rt(),
                patch_from(self@.buf, s0.fixups, s0.labels, i as int) == resolve(s0),
            decreases self.placeholders@.len() - i,
        {
            let f = self.placeholders[i];
            let len = self.buf.len();
            assert(f.offset + 4 <= len);
            match self.labels.get(f.target) {
                None => {
                    return Err(Error::BadLabelIndex(f.target.pos));
                },
                Some(label) => {
                    let b = le32_bytes(displacement(label, f.offset + 4));
                    self.buf.set(f.offset, b[0]);
                    self.buf.set(f.offset + 1, b[1]);
                    self.buf.set(f.offset + 2, b[2]);
                    self.buf.set(f.offset + 3, b[3]);
                },
            }
            i = i + 1;
        }
        Ok(())
    }

    pub fn handle_instruction(&mut self, ir_label: usize, instr: Instruction, last_ir_label: usize)
        requires
            old(self)@.wf(),
        ensures
            final(self)@ == instr_code(old(self)@, instr, ir_label, last_ir_label, old(self).rt()),
            final(self)@.wf(),
            final(self).rt() == old(self).rt(),
    {
        match instr {
            Instruction::Inc => self.write_inc(),
            Instruction::Dec => self.write_dec(),
            Instruction::Next => self.write_next(ir_label),
            Instruction::Prev => self.write_prev(ir_label),
            Instruction::Get => self.write_get(ir_label, last_ir_label),
            Instruction::Put => self.write_put(last_ir_label),
            Instruction::Jz(target_ir_label) => self.write_jz(target_ir_label),
            Instruction::Jnz(target_ir_label) => self.write_jnz(target_ir_label),
            Instruction::Halt => self.write_halt(last_ir_label),
        }
    }

    pub fn def_main_label(&mut self, ir_label: usize)
        requires
            old(self)@.wf(),
        ensures
            final(self)@ == put_label(old(self)@, key(ir_label, MAIN)),
            final(self)@.wf(),
            final(self).rt() == old(self).rt(),
    {
        self.def_label(ir_label, MAIN)
    }

    pub fn def_label(&mut self, ir_label: usize, sub_label: usize)
        requires
            old(self)@.wf(),
        ensures
            final(self)@ == put_label(old(self)@, key(ir_label, sub_label)),
            final(self)@.wf(),
            final(self).rt() == old(self).rt(),
    {
        let offset = self.buf.len();
        self.labels.insert(LabelKey { pos: ir_label, sub: sub_label }, offset);
        assert forall|j: int| 0 <= j < self@.fixups.len() implies #[trigger] self@.fixups[j].offset + 4 <= self@.buf.len() by {
            assert(old(self)@.fixups[j].offset + 4 <= old(self)@.buf.len());
        }
    }

    pub fn make_placeholder(&mut self, ir_label: usize, sub_label: usize)
        requires
            old(self)@.wf(),
        ensures
            final(self)@ == put_placeholder(old(self)@, key(ir_label, sub_label)),
            final(self)@.wf(),
            final(self).rt() == old(self).rt(),
    {
        let offset = self.buf.len();
        self.placeholders.push(Fixup { offset, target: LabelKey { pos: ir_label, sub: sub_label } });
        push_le32(&mut self.buf, 0);
        assert(le32(0) =~= seq![0u8, 0u8, 0u8, 0u8]);
        let ghost s = self@;
        let ghost o = old(self)@;
        assert forall|j: int| 0 <= j < s.fixups.len() implies #[trigger] s.fixups[j].offset + 4 <= s.buf.len() by {
            if j < o.fixups.len() {
                assert(o.fixups[j].offset + 4 <= o.buf.len());
            }
        }
        assert forall|i: int, j: int| 0 <= i < j < s.fixups.len() implies #[trigger] s.fixups[i].offset + 4 <= #[trigger] s.fixups[j].offset by {
            assert(o.fixups[i].offset + 4 <= o.buf.len());
            if j < o.fixups.len() {
                assert(o.fixups[i].offset + 4 <= o.fixups[j].offset);
            }
        }
    }

    /// Appends bytes.
    fn emit<const N: usize>(&mut self, bytes: &[u8; N])
        requires
            old(self)@.wf(),
        ensures
            final(self)@ == put_bytes(old(self)@, bytes@),
            final(self)@.wf(),
            final(self).rt() == old(self).rt(),
    {
        push_bytes(&mut self.buf, bytes);
        assert forall|j: int| 0 <= j < self@.fixups.len() implies #[trigger] self@.fixups[j].offset + 4 <= self@.buf.len() by {
            assert(old(self)@.fixups[j].offset + 4 <= old(self)@.buf.len());
        }
    }

    /// Appends the little-endian bytes of a 32-bit operand.
    fn emit_u32(&mut self, v: u32)
        requires
            old(self)@.wf(),
        ensures
            final(self)@ == put_bytes(old(self)@, le32(v as int)),
            final(self)@.wf(),
            final(self).rt() == old(self).rt(),
    {
        push_le32(&mut self.buf, v);
        assert forall|j: int| 0 <= j < self@.fixups.len() implies #[trigger] self@.fixups[j].offset + 4 <= self@.buf.len() by {
            assert(old(self)@.fixups[j].offset + 4 <= old(self)@.buf.len());
        }
    }

    pub fn call_absolute(&mut self, func_ptr: u64)
        requires
            old(self)@.wf(),
        ensures
            final(self)@ == call_code(old(self)@, func_ptr),
            final(self)@.wf(),
            final(self).rt() == old(self).rt(),
    {
        let _ = write_absolute_call(&mut self.buf, func_ptr);
        assert forall|j: int| 0 <= j < self@.fixups.len() implies #[trigger] self@.fixups[j].offset + 4 <= self@.buf.len() by {
            assert(old(self)@.fixups[j].offset + 4 <= old(self)@.buf.len());
        }
    }

    pub fn write_enter(&mut self)
        requires
            old(self)@.wf(),
        ensures
            final(self)@ == enter_code(old(self)@),
            final(self)@.wf(),
            final(self).rt() == old(self).rt(),
    {
        self.emit(&PUSH_RBX);
        self.emit(&PUSH_R12);
        self.emit(&PUSH_R13);
        self.emit(&PUSH_R14);
        self.emit(&SUB_8_FROM_RSP);
        self.emit(&MOV_RDI_TO_RBX);
        self.emit(&MOV_RSI_TO_R12);
        self.emit(&MOV_RDX_TO_R13);
        self.emit(&XOR_R14_TO_R14);
    }

    pub fn write_leave(&mut self, ir_label: usize)
        requires
            old(self)@.wf(),
        ensures
            final(self)@ == leave_code(old(self)@, ir_label),
            final(self)@.wf(),
            final(self).rt() == old(self).rt(),
    {
        self.emit(&XOR_EAX_TO_EAX);
        self.def_label(ir_label, INNER);
        self.emit(&ADD_8_TO_RSP);
        self.emit(&POP_R14);
        self.emit(&POP_R13);
        self.emit(&POP_R12);
        self.emit(&POP_RBX);
        self.emit(&RET);
    }

    pub fn write_inc(&mut self)
        requires
            old(self)@.wf(),
        ensures
            final(self)@ == inc_code(old(self)@),
            final(self)@.wf(),
            final(self).rt() == old(self).rt(),
    {
        self.emit(&INCB_MEM_R12_R14);
    }

    pub fn write_dec(&mut self)
        requires
            old(self)@.wf(),
        ensures
            final(self)@ == dec_code(old(self)@),
            final(self)@.wf(),
            final(self).rt() == old(self).rt(),
    {
        self.emit(&DECB_MEM_R12_R14);
    }

    /// The forward growth shared by `Next` and `Get`.
    fn write_grow_next(&mut self, ir_label: usize)
        requires
            old(self)@.wf(),
        ensures
            final(self)@ == grow_next_code(old(self)@, ir_label, old(self).rt()),
            final(self)@.wf(),
            final(self).rt() == old(self).rt(),
    {
        self.emit(&CMP_R14_WITH_R13);
        self.emit(&JNE_JNZ_REL32);
        self.make_placeholder(ir_label, INNER);
        self.emit(&MOV_R12_TO_RDI);
        self.emit(&MOV_R13_TO_RSI);
        self.call_absolute(self.runtime.grow_next);
        self.emit(&MOV_RAX_TO_R12);
        self.emit(&ADD_IMM32_TO_R13);
        self.emit_u32(TAPE_CHUNK_SIZE);
        self.def_label(ir_label, INNER);
    }

    pub fn write_next(&mut self, ir_label: usize)
        requires
            old(self)@.wf(),
        ensures
            final(self)@ == next_code(old(self)@, ir_label, old(self).rt()),
            final(self)@.wf(),
            final(self).rt() == old(self).rt(),
    {
        self.write_grow_next(ir_label);
        self.emit(&INC_R14);
    }

    pub fn write_prev(&mut self, ir_label: usize)
        requires
            old(self)@.wf(),
        ensures
            final(self)@ == prev_code(old(self)@, ir_label, old(self).rt()),
            final(self)@.wf(),
            final(self).rt() == old(self).rt(),
    {
        self.emit(&TEST_R14_WITH_R14);
        self.emit(&JNE_JNZ_REL32);
        self.make_placeholder(ir_label, INNER);
        self.emit(&MOV_R12_TO_RDI);
        self.emit(&MOV_R13_TO_RSI);
        self.call_absolute(self.runtime.grow_prev);
        self.emit(&ADD_IMM32_TO_R14);
        self.emit_u32(TAPE_CHUNK_SIZE);
        self.emit(&MOV_RAX_TO_R12);
        self.emit(&ADD_IMM32_TO_R13);
        self.emit_u32(TAPE_CHUNK_SIZE);
        self.def_label(ir_label, INNER);
        self.emit(&DEC_R14);
    }

    pub fn write_put(&mut self, last_ir_label: usize)
        requires
            old(self)@.wf(),
        ensures
            final(self)@ == put_code(old(self)@, last_ir_label, old(self).rt()),
            final(self)@.wf(),
            final(self).rt() == old(self).rt(),
    {
        self.emit(&MOV_RBX_TO_RDI);
        self.emit(&XOR_EAX_TO_EAX);
        self.emit(&MOV_MEM_R12_R14_TO_AL);
        self.emit(&MOV_AX_TO_SI);
        self.call_absolute(self.runtime.put);
        self.emit(&TEST_AL_WITH_AL);
        self.emit(&JS_REL32);
        self.make_placeholder(last_ir_label, INNER);
    }

    pub fn write_get(&mut self, ir_label: usize, last_ir_label: usize)
        requires
            old(self)@.wf(),
        ensures
            final(self)@ == get_code(old(self)@, ir_label, last_ir_label, old(self).rt()),
            final(self)@.wf(),
            final(self).rt() == old(self).rt(),
    {
        self.write_grow_next(ir_label);
        self.emit(&MOV_RBX_TO_RDI);
        self.call_absolute(self.runtime.get);
        self.emit(&TEST_AX_WITH_AX);
        self.emit(&JS_REL32);
        self.make_placeholder(last_ir_label, INNER);
        self.emit(&ROR_IMM8_TO_AX);
        let count: [u8; 1] = [8u8];
        assert(count@ =~= seq![8u8]);
        self.emit(&count);
        self.emit(&MOV_AL_TO_MEM_R12_R14);
    }

    pub fn write_halt(&mut self, last_ir_label: usize)
        requires
            old(self)@.wf(),
        ensures
            final(self)@ == halt_code(old(self)@, last_ir_label),
            final(self)@.wf(),
            final(self).rt() == old(self).rt(),
    {
        self.emit(&JMP_REL32);
        self.make_placeholder(last_ir_label, MAIN);
    }

    pub fn write_jz(&mut self, target_ir_label: usize)
        requires
            old(self)@.wf(),
        ensures
            final(self)@ == jz_code(old(self)@, target_ir_label),
            final(self)@.wf(),
            final(self).rt() == old(self).rt(),
    {
        self.emit(&CMPB_MEM_R12_R14_WITH_ZERO);
        self.emit(&JE_JZ_REL32);
        self.make_placeholder(target_ir_label, MAIN);
    }

    pub fn write_jnz(&mut self, target_ir_label: usize)
        requires
            old(self)@.wf(),
        ensures
            final(self)@ == jnz_code(old(self)@, target_ir_label),
            final(self)@.wf(),
            final(self).rt() == old(self).rt(),
    {
        self.emit(&CMPB_MEM_R12_R14_WITH_ZERO);
        self.emit(&JNE_JNZ_REL32);
        self.make_placeholder(target_ir_label, MAIN);
    }
}

} // verus!
