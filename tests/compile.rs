use tape_jit::assembler::write_absolute_call;
use tape_jit::labels::{LabelKey, LabelTable};
use tape_jit::{compile, Arch, Compiler, Error, Instruction, Os, Program, Runtime, Target};

const LINUX_X86_64: Target = Target { arch: Arch::X86_64, os: Os::Linux };

const RT: Runtime = Runtime {
    grow_next: 0x1122_3344_5566_7788,
    grow_prev: 0x0102_0304_0506_0708,
    get: 0xa1a2_a3a4_a5a6_a7a8,
    put: 0xb1b2_b3b4_b5b6_b7b8,
};

const PROLOGUE: [u8; 23] = [
    0x53, 0x41, 0x54, 0x41, 0x55, 0x41, 0x56, 0x48, 0x83, 0xec, 0x08, 0x48, 0x89, 0xfb, 0x49,
    0x89, 0xf4, 0x49, 0x89, 0xd5, 0x4d, 0x31, 0xf6,
];

const EPILOGUE: [u8; 14] = [
    0x31, 0xc0, 0x48, 0x83, 0xc4, 0x08, 0x41, 0x5e, 0x41, 0x5d, 0x41, 0x5c, 0x5b, 0xc3,
];

fn code_of(instrs: Vec<Instruction>) -> Vec<u8> {
    let program = Program { code: instrs };
    match compile(&program, &LINUX_X86_64, RT) {
        Ok(exe) => exe.code().clone(),
        Err(e) => panic!("compile failed: {:?}", e),
    }
}

fn le32_at(code: &[u8], o: usize) -> u32 {
    u32::from_le_bytes([code[o], code[o + 1], code[o + 2], code[o + 3]])
}

fn le64_at(code: &[u8], o: usize) -> u64 {
    let mut b = [0u8; 8];
    b.copy_from_slice(&code[o..o + 8]);
    u64::from_le_bytes(b)
}

#[test]
fn empty_program_is_prologue_then_epilogue() {
    let code = code_of(vec![]);
    let mut expected = PROLOGUE.to_vec();
    expected.extend(EPILOGUE);
    assert_eq!(code, expected);
}

#[test]
fn inc_then_halt_exact_bytes() {
    let code = code_of(vec![Instruction::Inc, Instruction::Halt]);
    let mut expected = PROLOGUE.to_vec();
    expected.extend([0x43, 0xfe, 0x04, 0x34]);
    // the halt jumps to the end label right after it: displacement zero
    expected.extend([0xe9, 0, 0, 0, 0]);
    expected.extend(EPILOGUE);
    assert_eq!(code, expected);
}

#[test]
fn dec_emits_byte_decrement() {
    let code = code_of(vec![Instruction::Dec]);
    assert_eq!(&code[23..27], &[0x43, 0xfe, 0x0c, 0x34]);
    assert_eq!(&code[27..], &EPILOGUE);
}

#[test]
fn next_grows_forward_when_cursor_reaches_capacity() {
    let code = code_of(vec![Instruction::Next]);
    assert_eq!(&code[23..28], &[0x4d, 0x39, 0xee, 0x0f, 0x85]);
    // the skip lands on the cursor increment after the growth call
    assert_eq!(le32_at(&code, 28), 60 - 32);
    assert_eq!(&code[32..40], &[0x4c, 0x89, 0xe7, 0x4c, 0x89, 0xee, 0x48, 0xb8]);
    assert_eq!(le64_at(&code, 40), RT.grow_next);
    assert_eq!(&code[48..56], &[0xff, 0xd0, 0x49, 0x89, 0xc4, 0x49, 0x81, 0xc5]);
    assert_eq!(le32_at(&code, 56), tape_jit::TAPE_CHUNK_SIZE);
    assert_eq!(&code[60..63], &[0x49, 0xff, 0xc6]);
    assert_eq!(&code[63..], &EPILOGUE);
}

#[test]
fn prev_grows_backward_and_shifts_cursor_and_capacity() {
    let code = code_of(vec![Instruction::Prev]);
    assert_eq!(&code[23..28], &[0x4d, 0x85, 0xf6, 0x0f, 0x85]);
    assert_eq!(le32_at(&code, 28), 67 - 32);
    assert_eq!(le64_at(&code, 40), RT.grow_prev);
    assert_eq!(&code[48..53], &[0xff, 0xd0, 0x49, 0x81, 0xc6]);
    assert_eq!(le32_at(&code, 53), 4096);
    assert_eq!(&code[57..63], &[0x49, 0x89, 0xc4, 0x49, 0x81, 0xc5]);
    assert_eq!(le32_at(&code, 63), 4096);
    assert_eq!(&code[67..70], &[0x49, 0xff, 0xce]);
    assert_eq!(&code[70..], &EPILOGUE);
}

#[test]
fn put_failure_jumps_past_the_success_status() {
    let code = code_of(vec![Instruction::Put]);
    assert_eq!(&code[23..37], &[
        0x48, 0x89, 0xdf, 0x31, 0xc0, 0x43, 0x8a, 0x04, 0x34, 0x66, 0x89, 0xc6, 0x48, 0xb8,
    ]);
    assert_eq!(le64_at(&code, 37), RT.put);
    assert_eq!(&code[45..51], &[0xff, 0xd0, 0x84, 0xc0, 0x0f, 0x88]);
    // the sign-bit branch skips `xor eax, eax` and lands on the restore
    assert_eq!(le32_at(&code, 51), 2);
    assert_eq!(&code[55..57], &[0x31, 0xc0]);
    assert_eq!(&code[57..], &EPILOGUE[2..]);
}

#[test]
fn get_reads_into_the_current_cell() {
    let code = code_of(vec![Instruction::Get]);
    assert_eq!(le32_at(&code, 28), 60 - 32);
    assert_eq!(le64_at(&code, 40), RT.grow_next);
    assert_eq!(&code[60..65], &[0x48, 0x89, 0xdf, 0x48, 0xb8]);
    assert_eq!(le64_at(&code, 65), RT.get);
    assert_eq!(&code[73..80], &[0xff, 0xd0, 0x66, 0x85, 0xc0, 0x0f, 0x88]);
    assert_eq!(le32_at(&code, 80), 94 - 84);
    assert_eq!(&code[84..92], &[0x66, 0xc1, 0xc8, 0x08, 0x43, 0x88, 0x04, 0x34]);
    assert_eq!(&code[92..], &EPILOGUE);
}

#[test]
fn loop_jumps_test_the_cell_and_resolve_both_ways() {
    let code = code_of(vec![Instruction::Jz(3), Instruction::Inc, Instruction::Jnz(1)]);
    assert_eq!(&code[23..30], &[0x43, 0x80, 0x3c, 0x34, 0x00, 0x0f, 0x84]);
    assert_eq!(le32_at(&code, 30), 49 - 34);
    assert_eq!(&code[34..38], &[0x43, 0xfe, 0x04, 0x34]);
    assert_eq!(&code[38..45], &[0x43, 0x80, 0x3c, 0x34, 0x00, 0x0f, 0x85]);
    assert_eq!(le32_at(&code, 45) as i32, 34 - 49);
    assert_eq!(&code[49..], &EPILOGUE);
}

#[test]
fn jump_to_end_position_is_accepted() {
    let code = code_of(vec![Instruction::Jnz(1)]);
    assert_eq!(le32_at(&code, 30), 0);
}

#[test]
fn compiling_twice_gives_identical_code() {
    let instrs = vec![
        Instruction::Get,
        Instruction::Jz(6),
        Instruction::Next,
        Instruction::Inc,
        Instruction::Prev,
        Instruction::Jnz(2),
        Instruction::Put,
        Instruction::Halt,
    ];
    assert_eq!(code_of(instrs.clone()), code_of(instrs));
}

#[test]
fn unsupported_arch_is_refused() {
    let program = Program { code: vec![Instruction::Inc] };
    let target = Target { arch: Arch::Other, os: Os::Linux };
    assert!(matches!(compile(&program, &target, RT), Err(Error::UnsupportedTarget)));
}

#[test]
fn unsupported_os_is_refused() {
    let program = Program { code: vec![Instruction::Jz(99)] };
    let target = Target { arch: Arch::X86_64, os: Os::Other };
    assert!(matches!(compile(&program, &target, RT), Err(Error::UnsupportedTarget)));
}

#[test]
fn target_support_is_x86_64_linux_only() {
    assert!(LINUX_X86_64.is_supported());
    assert!(!Target { arch: Arch::Other, os: Os::Other }.is_supported());
}

#[test]
fn jump_past_end_names_its_target() {
    let program = Program { code: vec![Instruction::Inc, Instruction::Jz(5), Instruction::Halt] };
    assert!(matches!(compile(&program, &LINUX_X86_64, RT), Err(Error::BadLabelIndex(5))));
}

#[test]
fn first_jump_past_end_is_the_one_named() {
    let program = Program {
        code: vec![Instruction::Jz(1), Instruction::Jnz(7), Instruction::Jz(9)],
    };
    assert!(matches!(compile(&program, &LINUX_X86_64, RT), Err(Error::BadLabelIndex(7))));
}

#[test]
fn second_pass_reports_undefined_label() {
    let mut c = Compiler::new(RT);
    c.write_jz(4);
    assert!(matches!(c.second_pass(), Err(Error::BadLabelIndex(4))));
}

#[test]
fn passes_driven_by_hand_match_compile() {
    let program = Program { code: vec![Instruction::Next, Instruction::Jnz(0)] };
    let mut c = Compiler::new(RT);
    c.first_pass(&program);
    assert!(c.second_pass().is_ok());
    let expected = compile(&program, &LINUX_X86_64, RT).map(|e| e.code().clone()).unwrap();
    assert_eq!(c.code(), &expected);
}

#[test]
fn placeholder_is_patched_with_relative_displacement() {
    let mut c = Compiler::new(RT);
    c.def_label(0, 0);
    c.write_inc();
    c.write_halt(0);
    assert_eq!(c.code().len(), 9);
    assert!(c.second_pass().is_ok());
    // from the end of the operand (9) back to offset 0
    assert_eq!(le32_at(c.code(), 5), (-9i32) as u32);
}

#[test]
fn absolute_call_is_movabs_then_call_rax() {
    let mut buf = vec![0x90];
    assert!(write_absolute_call(&mut buf, 0x0807_0605_0403_0201).is_ok());
    assert_eq!(buf, vec![0x90, 0x48, 0xb8, 1, 2, 3, 4, 5, 6, 7, 8, 0xff, 0xd0]);
}

#[test]
fn call_absolute_appends_the_address() {
    let mut c = Compiler::new(RT);
    c.call_absolute(0xdead_beef);
    assert_eq!(c.into_code(), vec![0x48, 0xb8, 0xef, 0xbe, 0xad, 0xde, 0, 0, 0, 0, 0xff, 0xd0]);
}

#[test]
fn label_table_defines_and_redefines() {
    let mut t = LabelTable::new();
    let k = LabelKey { pos: 3, sub: 1 };
    assert_eq!(t.get(k), None);
    t.insert(k, 40);
    assert_eq!(t.get(k), Some(40));
    assert_eq!(t.get(LabelKey { pos: 3, sub: 0 }), None);
    assert_eq!(t.get(LabelKey { pos: 2, sub: 1 }), None);
    t.insert(k, 41);
    assert_eq!(t.get(k), Some(41));
}
