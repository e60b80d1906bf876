//! Properties of compilation as a whole, proved over the assembler's model.
use vstd::prelude::*;
use crate::assembler::{
    body_state, empty_state, enter_code, first_pass_state, instr_code, key, le32,
    patch32, patch_from, put_label, rel32, resolve, AsmState, Error, Fixup,
};
use crate::ir::Instruction;
use crate::jit::{spec_compile, Target};
use crate::labels::{LabelKey, INNER, MAIN};
use crate::runtime::Runtime;

verus! {

/// The labels that the code of `instr` at `pos` refers to, in the order of
/// its placeholders; `end` is the program's end position.
pub open spec fn instr_targets(instr: Instruction, pos: usize, end: usize) -> Seq<LabelKey> {
    match instr {
        Instruction::Inc => seq![],
        Instruction::Dec => seq![],
        Instruction::Next => seq![key(pos, INNER)],
        Instruction::Prev => seq![key(pos, INNER)],
        Instruction::Get => seq![key(pos, INNER), key(end, INNER)],
        Instruction::Put => seq![key(end, INNER)],
        Instruction::Jz(t) => seq![key(t, MAIN)],
        Instruction::Jnz(t) => seq![key(t, MAIN)],
        Instruction::Halt => seq![key(end, MAIN)],
    }
}

/// The labels that the first `i` instructions refer to, in order.
pub open spec fn targets_upto(code: Seq<Instruction>, i: nat) -> Seq<LabelKey>
    decreases i,
{
    if i == 0 || i > code.len() {
        seq![]
    } else {
        targets_upto(code, (i - 1) as nat) + instr_targets(code[i - 1], (i - 1) as usize, code.len() as usize)
    }
}

/// Whether the first pass over `code` defines label `k`: every position's
/// entry up to the end, the end's error-halt point, and the inner point of
/// each instruction that has one.
pub open spec fn is_defined(code: Seq<Instruction>, k: LabelKey) -> bool {
    ||| k.sub == MAIN && k.pos <= code.len()
    ||| k.sub == INNER && k.pos == code.len()
    ||| k.sub == INNER && k.pos < code.len() && code[k.pos as int].has_inner_label()
}

/// Whether instruction `instr` is a jump past the end position `end`.
pub open spec fn jumps_past(instr: Instruction, end: int) -> bool {
    instr.is_jump() && instr.jump_target() > end
}

proof fn lemma_instr_effect(s: AsmState, instr: Instruction, pos: usize, end: usize, rt: Runtime)
    ensures
        instr_code(s, instr, pos, end, rt).buf.len() >= s.buf.len(),
        instr_code(s, instr, pos, end, rt).fixups.len() == s.fixups.len() + instr_targets(instr, pos, end).len(),
        forall|j: int| 0 <= j < s.fixups.len() ==> instr_code(s, instr, pos, end, rt).fixups[j] == s.fixups[j],
        forall|j: int| 0 <= j < instr_targets(instr, pos, end).len()
            ==> instr_code(s, instr, pos, end, rt).fixups[s.fixups.len() + j].target == instr_targets(instr, pos, end)[j],
        forall|k: LabelKey| instr_code(s, instr, pos, end, rt).labels.contains_key(k)
            <==> (s.labels.contains_key(k) || (instr.has_inner_label() && k == key(pos, INNER))),
        s.wf() && instr_code(s, instr, pos, end, rt).buf.len() <= usize::MAX ==> instr_code(s, instr, pos, end, rt).wf(),
{
}

proof fn lemma_body(code: Seq<Instruction>, i: nat, rt: Runtime)
    requires
        i <= code.len(),
        code.len() <= usize::MAX,
    ensures
        body_state(empty_state(), code, i, rt).fixups.len() == targets_upto(code, i).len(),
        forall|j: int| 0 <= j < targets_upto(code, i).len()
            ==> body_state(empty_state(), code, i, rt).fixups[j].target == targets_upto(code, i)[j],
        forall|k: LabelKey| body_state(empty_state(), code, i, rt).labels.contains_key(k)
            <==> ((k.sub == MAIN && k.pos < i) || (k.sub == INNER && k.pos < i && code[k.pos as int].has_inner_label())),
        body_state(empty_state(), code, i, rt).buf.len() <= usize::MAX ==> body_state(empty_state(), code, i, rt).wf(),
    decreases i,
{
    if i == 0 {
        assert(enter_code(empty_state()).labels =~= Map::<LabelKey, int>::empty());
    } else {
        let pos = (i - 1) as usize;
        let end = code.len() as usize;
        lemma_body(code, (i - 1) as nat, rt);
        let prev = body_state(empty_state(), code, (i - 1) as nat, rt);
        let s = put_label(prev, key(pos, MAIN));
        lemma_instr_effect(s, code[pos as int], pos, end, rt);
        let cur = body_state(empty_state(), code, i, rt);
        assert(cur == instr_code(s, code[pos as int], pos, end, rt));
        let t0 = targets_upto(code, (i - 1) as nat);
        let t = instr_targets(code[pos as int], pos, end);
        assert(targets_upto(code, i) == t0 + t);
        assert forall|j: int| 0 <= j < targets_upto(code, i).len()
            implies cur.fixups[j].target == targets_upto(code, i)[j] by {
            if j < t0.len() {
                assert(cur.fixups[j] == prev.fixups[j]);
            } else {
                assert(cur.fixups[t0.len() + (j - t0.len())].target == t[j - t0.len()]);
            }
        }
        if cur.buf.len() <= usize::MAX {
            assert(prev.wf());
        }
    }
}

proof fn lemma_first_pass(code: Seq<Instruction>, rt: Runtime)
    requires
        code.len() <= usize::MAX,
    ensures
        first_pass_state(empty_state(), code, rt).fixups.len() == targets_upto(code, code.len()).len(),
        forall|j: int| 0 <= j < targets_upto(code, code.len()).len()
            ==> first_pass_state(empty_state(), code, rt).fixups[j].target == targets_upto(code, code.len())[j],
        forall|k: LabelKey| first_pass_state(empty_state(), code, rt).labels.contains_key(k) <==> is_defined(code, k),
        first_pass_state(empty_state(), code, rt).buf.len() <= usize::MAX ==> first_pass_state(empty_state(), code, rt).wf(),
{
    reveal(first_pass_state);
    lemma_body(code, code.len(), rt);
    let b = body_state(empty_state(), code, code.len(), rt);
    let f = first_pass_state(empty_state(), code, rt);
    assert(f.fixups == b.fixups);
    assert(f.buf.len() >= b.buf.len());
}

proof fn lemma_targets_prefix(code: Seq<Instruction>, i: nat, i2: nat)
    requires
        i <= i2 <= code.len(),
    ensures
        targets_upto(code, i).len() <= targets_upto(code, i2).len(),
        forall|j: int| 0 <= j < targets_upto(code, i).len() ==> targets_upto(code, i2)[j] == targets_upto(code, i)[j],
    decreases i2 - i,
{
    if i < i2 {
        lemma_targets_prefix(code, i, (i2 - 1) as nat);
    }
}

proof fn lemma_targets_defined(code: Seq<Instruction>, i: nat)
    requires
        i <= code.len(),
        code.len() <= usize::MAX,
        forall|q: int| 0 <= q < i ==> !jumps_past(#[trigger] code[q], code.len() as int),
    ensures
        forall|j: int| 0 <= j < targets_upto(code, i).len() ==> is_defined(code, #[trigger] targets_upto(code, i)[j]),
    decreases i,
{
    if i > 0 {
        lemma_targets_defined(code, (i - 1) as nat);
        let t0 = targets_upto(code, (i - 1) as nat);
        let t = instr_targets(code[i - 1], (i - 1) as usize, code.len() as usize);
        assert(!jumps_past(code[i - 1], code.len() as int));
        assert forall|j: int| 0 <= j < targets_upto(code, i).len() implies is_defined(code, #[trigger] targets_upto(code, i)[j]) by {
            assert(targets_upto(code, i) == t0 + t);
            if j >= t0.len() {
                assert(targets_upto(code, i)[j] == t[j - t0.len()]);
            }
        }
    }
}

proof fn lemma_patch_first_missing(buf: Seq<u8>, fixups: Seq<Fixup>, labels: Map<LabelKey, int>, i: int, m: int)
    requires
        0 <= i <= m < fixups.len(),
        forall|j: int| i <= j < m ==> labels.contains_key(#[trigger] fixups[j].target),
        !labels.contains_key(fixups[m].target),
    ensures
        patch_from(buf, fixups, labels, i) == Err::<Seq<u8>, Error>(Error::BadLabelIndex(fixups[m].target.pos)),
    decreases m - i,
{
    if i < m {
        let f = fixups[i];
        lemma_patch_first_missing(patch32(buf, f.offset as int, rel32(labels[f.target], f.offset + 4)), fixups, labels, i + 1, m);
    }
}

/// The bytes that fixup `f` must come to hold under `labels`.
pub open spec fn resolved_bytes(f: Fixup, labels: Map<LabelKey, int>) -> Seq<u8> {
    le32(rel32(labels[f.target], f.offset + 4))
}

proof fn lemma_patch_all(buf: Seq<u8>, fixups: Seq<Fixup>, labels: Map<LabelKey, int>, i: int)
    requires
        0 <= i <= fixups.len(),
        forall|j: int| 0 <= j < fixups.len() ==> #[trigger] fixups[j].offset + 4 <= buf.len(),
        forall|a: int, b: int| 0 <= a < b < fixups.len() ==> #[trigger] fixups[a].offset + 4 <= #[trigger] fixups[b].offset,
        forall|j: int| i <= j < fixups.len() ==> labels.contains_key(#[trigger] fixups[j].target),
    ensures
        patch_from(buf, fixups, labels, i) is Ok,
        patch_from(buf, fixups, labels, i)->Ok_0.len() == buf.len(),
        forall|j: int| i <= j < fixups.len() ==>
            patch_from(buf, fixups, labels, i)->Ok_0.subrange(fixups[j].offset as int, fixups[j].offset + 4)
                == resolved_bytes(#[trigger] fixups[j], labels),
        forall|x: int| 0 <= x < buf.len() && (forall|j: int| i <= j < fixups.len() ==>
            !(fixups[j].offset <= x < #[trigger] fixups[j].offset + 4))
            ==> patch_from(buf, fixups, labels, i)->Ok_0[x] == buf[x],
    decreases fixups.len() - i,
{
    if i < fixups.len() {
        let f = fixups[i];
        let o = f.offset as int;
        let b2 = patch32(buf, o, rel32(labels[f.target], f.offset + 4));
        assert(o + 4 <= buf.len());
        assert(b2.len() == buf.len());
        lemma_patch_all(b2, fixups, labels, i + 1);
        let out = patch_from(buf, fixups, labels, i)->Ok_0;
        assert(out == patch_from(b2, fixups, labels, i + 1)->Ok_0);
        assert forall|x: int| o <= x < o + 4 implies out[x] == b2[x] by {
            assert forall|j: int| i + 1 <= j < fixups.len() implies !(fixups[j].offset <= x < #[trigger] fixups[j].offset + 4) by {
                assert(fixups[i].offset + 4 <= fixups[j].offset);
            }
        }
        assert(out.subrange(o, o + 4) =~= resolved_bytes(f, labels));
        assert forall|x: int| 0 <= x < buf.len() && (forall|j: int| i <= j < fixups.len() ==>
            !(fixups[j].offset <= x < #[trigger] fixups[j].offset + 4)) implies out[x] == buf[x] by {
            assert(!(fixups[i].offset <= x < fixups[i].offset + 4));
            assert forall|j: int| i + 1 <= j < fixups.len() implies !(fixups[j].offset <= x < #[trigger] fixups[j].offset + 4) by {
                assert(!(fixups[j].offset <= x < fixups[j].offset + 4));
            }
            assert(b2[x] == buf[x]);
            assert(patch_from(b2, fixups, labels, i + 1)->Ok_0[x] == b2[x]);
        }
    }
}

/// Compilation is deterministic: the same program, target and helper
/// addresses give the same result, byte for byte.
pub proof fn law_compile_deterministic(p1: Seq<Instruction>, p2: Seq<Instruction>, target: Target, rt: Runtime)
    requires
        p1 == p2,
    ensures
        spec_compile(p1, target, rt) == spec_compile(p2, target, rt),
{
}

/// On any target but x86-64 Linux, compilation fails with
/// `UnsupportedTarget` and produces no code.
pub proof fn law_unsupported_target(code: Seq<Instruction>, target: Target, rt: Runtime)
    requires
        !target.spec_supported(),
    ensures
        spec_compile(code, target, rt) == Err::<Seq<u8>, Error>(Error::UnsupportedTarget),
{
}

/// A program with a jump past its end fails to compile with
/// `BadLabelIndex`, naming the target of the first such jump.
pub proof fn law_jump_past_end(code: Seq<Instruction>, target: Target, rt: Runtime, p: int)
    requires
        code.len() <= usize::MAX,
        target.spec_supported(),
        0 <= p < code.len(),
        jumps_past(code[p], code.len() as int),
        forall|q: int| 0 <= q < p ==> !jumps_past(#[trigger] code[q], code.len() as int),
    ensures
        spec_compile(code, target, rt) == Err::<Seq<u8>, Error>(Error::BadLabelIndex(code[p].jump_target())),
{
    let n = code.len();
    let s = first_pass_state(empty_state(), code, rt);
    lemma_first_pass(code, rt);
    lemma_targets_defined(code, p as nat);
    lemma_targets_prefix(code, (p + 1) as nat, n);
    let t0 = targets_upto(code, p as nat);
    let m = t0.len() as int;
    assert(targets_upto(code, (p + 1) as nat) == t0 + instr_targets(code[p], p as usize, n as usize));
    assert(targets_upto(code, (p + 1) as nat)[m] == key(code[p].jump_target(), MAIN));
    lemma_targets_prefix(code, p as nat, n);
    assert forall|j: int| 0 <= j < m implies s.labels.contains_key(#[trigger] s.fixups[j].target) by {
        assert(s.fixups[j].target == t0[j]);
        assert(is_defined(code, t0[j]));
    }
    assert(s.fixups[m].target == key(code[p].jump_target(), MAIN));
    assert(!is_defined(code, key(code[p].jump_target(), MAIN)));
    assert(!s.labels.contains_key(s.fixups[m].target));
    lemma_patch_first_missing(s.buf, s.fixups, s.labels, 0, m);
}

/// In a program whose jumps all stay within it, every label that a jump or
/// a `Halt` refers to is defined by the first pass, the second pass
/// succeeds, and every placeholder ends up holding the displacement of its
/// label.
pub proof fn law_all_labels_resolved(code: Seq<Instruction>, rt: Runtime)
    requires
        code.len() <= usize::MAX,
        first_pass_state(empty_state(), code, rt).buf.len() <= usize::MAX,
        forall|q: int| 0 <= q < code.len() ==> !jumps_past(#[trigger] code[q], code.len() as int),
    ensures
        forall|q: int| 0 <= q < code.len() && (#[trigger] code[q]).is_jump()
            ==> first_pass_state(empty_state(), code, rt).labels.contains_key(key(code[q].jump_target(), MAIN)),
        first_pass_state(empty_state(), code, rt).labels.contains_key(key(code.len() as usize, MAIN)),
        resolve(first_pass_state(empty_state(), code, rt)) is Ok,
        forall|j: int| #![trigger first_pass_state(empty_state(), code, rt).fixups[j]]
            0 <= j < first_pass_state(empty_state(), code, rt).fixups.len() ==> {
                let s = first_pass_state(empty_state(), code, rt);
                let f = s.fixups[j];
                &&& s.labels.contains_key(f.target)
                &&& resolve(s)->Ok_0.subrange(f.offset as int, f.offset + 4) == resolved_bytes(f, s.labels)
            },
{
    let s = first_pass_state(empty_state(), code, rt);
    lemma_first_pass(code, rt);
    lemma_targets_defined(code, code.len());
    assert forall|j: int| 0 <= j < s.fixups.len() implies s.labels.contains_key(#[trigger] s.fixups[j].target) by {
        assert(is_defined(code, targets_upto(code, code.len())[j]));
    }
    assert(s.wf());
    lemma_patch_all(s.buf, s.fixups, s.labels, 0);
    assert forall|q: int| 0 <= q < code.len() && (#[trigger] code[q]).is_jump()
        implies s.labels.contains_key(key(code[q].jump_target(), MAIN)) by {
        assert(!jumps_past(code[q], code.len() as int));
        assert(is_defined(code, key(code[q].jump_target(), MAIN)));
    }
    assert(is_defined(code, key(code.len() as usize, MAIN)));
}

} // verus!
