use comet2::machine::ExecError;
use comet2::machine::Machine;
use comet2::machine::MachineInitError;
use comet2::machine::StepError;
use comet2::machine::STACK_SIZE;
use comet2::memory::encode_words;
use comet2::memory::LoadProgramError;
use comet2::operations::ope;
use comet2::operations::Instruction;
use comet2::operations::NewError;
use comet2::operations::Operation1;
use comet2::operations::Operation2;
use comet2::operations::RegisterNumber;
use comet2::operations::RegisterOutOfIndex;

fn reg(n: u16) -> RegisterNumber {
    RegisterNumber::new(n).unwrap()
}

fn gr_value(m: &Machine, n: u16) -> u16 {
    m.gr.get(reg(n), reg(n)).0
}

fn boot(words: &[u16]) -> Machine {
    let bytes = encode_words(&words.to_vec());
    Machine::init(&bytes).unwrap()
}

#[test]
fn initial_state() {
    let m = boot(&[]);
    let (gr, pr, sp) = m.r_info();
    for n in 0..8 {
        assert_eq!(gr.get(reg(n), reg(n)).0, 0);
    }
    assert_eq!(pr, 256);
    assert_eq!(sp, 256);
    assert!(!m.of && !m.sf && !m.zf);
    assert!(m.previous_word.is_none());
}

#[test]
fn nop_advances_pr_only() {
    // Scenario: two NOP words; one step leaves everything but PR alone.
    let m = boot(&[0x0000, 0x0000]);
    let m = m.clock().unwrap();
    assert_eq!(m.pr, 257);
    assert_eq!(m.sp, 256);
    for n in 0..8 {
        assert_eq!(gr_value(&m, n), 0);
    }
    assert!(!m.of && !m.sf && !m.zf);
}

#[test]
fn add_logical_reg_reg_carries() {
    // Scenario: ADDL r1,r2 with 0xFFFF + 0x0002 wraps to 1 and sets OF.
    let mut m = boot(&[0x2612]);
    m.gr = m.gr.set(reg(1), 0xFFFF);
    m.gr = m.gr.set(reg(2), 0x0002);
    let m = m.clock().unwrap();
    assert_eq!(gr_value(&m, 1), 0x0001);
    assert_eq!(m.of, true);
    assert_eq!(m.sf, false);
    assert_eq!(m.zf, false);
}

#[test]
fn add_arithmetic_reg_reg_overflows() {
    // Scenario: ADDA r1,r2 with 0x7FFF + 1 overflows to 0x8000.
    let mut m = boot(&[0x2412]);
    m.gr = m.gr.set(reg(1), 0x7FFF);
    m.gr = m.gr.set(reg(2), 0x0001);
    let m = m.clock().unwrap();
    assert_eq!(gr_value(&m, 1), 0x8000);
    assert_eq!(m.of, true);
    assert_eq!(m.sf, true);
    assert_eq!(m.zf, false);
}

#[test]
fn load_two_word_and_latch() {
    // Scenario: LD r1,0x0105 — the first fetch only latches, the second
    // fetch loads memory[0x0105] and sets the flags.
    let mut m = boot(&[0x1010, 0x0105]);
    m.mem = m.mem.set(0x0105, 0xBEEF).unwrap();
    let after_first = m.clock().unwrap();
    // Only PR and the latch change on the first fetch.
    assert_eq!(after_first.pr, 257);
    assert!(after_first.previous_word.is_some());
    assert_eq!(gr_value(&after_first, 1), 0);
    assert_eq!(after_first.sp, 256);
    assert!(!after_first.of && !after_first.sf && !after_first.zf);
    let m = after_first.clock().unwrap();
    assert_eq!(gr_value(&m, 1), 0xBEEF);
    assert_eq!(m.pr, 258);
    assert_eq!(m.sf, true);
    assert_eq!(m.zf, false);
    assert_eq!(m.of, false);
    assert!(m.previous_word.is_none());
}

#[test]
fn call_then_ret() {
    // Scenario: CALL 0x0200 from the start of the program, RET at 0x0200.
    let mut words = vec![0u16; 257];
    words[0] = 0x8000;
    words[1] = 0x0200;
    words[256] = 0x8100;
    let m = boot(&words);
    let m = m.clock().unwrap();
    let m = m.clock().unwrap();
    assert_eq!(m.pr, 0x0200);
    assert_eq!(m.sp, 255);
    assert_eq!(m.mem.get(255).unwrap(), 258);
    let m = m.clock().unwrap();
    assert_eq!(m.pr, 258);
    assert_eq!(m.sp, 256);
}

#[test]
fn conditional_jump_preserves_flags() {
    // Scenario: JZE with ZF set jumps and leaves the flags alone.
    let mut m = boot(&[0x6300, 0x0200]);
    m.zf = true;
    let m = m.clock().unwrap();
    let m = m.clock().unwrap();
    assert_eq!(m.pr, 0x0200);
    assert_eq!(m.zf, true);
    assert_eq!(m.of, false);
    assert_eq!(m.sf, false);
}

#[test]
fn conditional_jump_not_taken_falls_through() {
    // JMI with SF clear: PR just advances past both words.
    let m = boot(&[0x6100, 0x0200]);
    let m = m.clock().unwrap();
    let m = m.clock().unwrap();
    assert_eq!(m.pr, 258);
    assert_eq!(m.sf, false);
}

#[test]
fn store_writes_memory_and_preserves_flags() {
    // ST r1,0x0300 writes GR1 and leaves the flags bit-identical.
    let mut m = boot(&[0x1110, 0x0300]);
    m.gr = m.gr.set(reg(1), 0xABCD);
    m.of = true;
    m.sf = true;
    let m = m.clock().unwrap();
    let m = m.clock().unwrap();
    assert_eq!(m.mem.get(0x0300).unwrap(), 0xABCD);
    assert_eq!(m.pr, 258);
    assert_eq!((m.of, m.sf, m.zf), (true, true, false));
}

#[test]
fn load_address_uses_index_register() {
    // LAD r1,5,x=2 with GR2 = 10 puts the effective address 15 in GR1.
    let mut m = boot(&[0x1212, 0x0005]);
    m.gr = m.gr.set(reg(2), 10);
    let m = m.clock().unwrap();
    let m = m.clock().unwrap();
    assert_eq!(gr_value(&m, 1), 15);
    assert!(!m.of && !m.sf && !m.zf);
}

#[test]
fn effective_address_wraps() {
    // LAD r1,0xFFFF,x=2 with GR2 = 3 wraps to 2.
    let mut m = boot(&[0x1212, 0xFFFF]);
    m.gr = m.gr.set(reg(2), 3);
    let m = m.clock().unwrap();
    let m = m.clock().unwrap();
    assert_eq!(gr_value(&m, 1), 2);
}

#[test]
fn push_then_pop_keeps_sp_bounded() {
    // PUSH 0x1234 then POP r1: SP dips to 255 and returns to 256.
    let m = boot(&[0x7000, 0x1234, 0x7110]);
    let m = m.clock().unwrap();
    let m = m.clock().unwrap();
    assert_eq!(m.sp, 255);
    assert_eq!(m.mem.get(255).unwrap(), 0x1234);
    let m = m.clock().unwrap();
    assert_eq!(m.sp, 256);
    assert_eq!(gr_value(&m, 1), 0x1234);
    assert!(!m.of && !m.sf && !m.zf);
}

#[test]
fn compare_arithmetic_is_signed() {
    // CPA r1,r2 with GR1 = -1, GR2 = 1: less, so SF set.
    let mut m = boot(&[0x4412]);
    m.gr = m.gr.set(reg(1), 0xFFFF);
    m.gr = m.gr.set(reg(2), 0x0001);
    let m = m.clock().unwrap();
    assert_eq!((m.of, m.sf, m.zf), (false, true, false));
    assert_eq!(gr_value(&m, 1), 0xFFFF);
}

#[test]
fn compare_logical_is_unsigned() {
    // CPL r1,r2 with the same bits: 0xFFFF > 1 unsigned, so SF clear.
    let mut m = boot(&[0x4512]);
    m.gr = m.gr.set(reg(1), 0xFFFF);
    m.gr = m.gr.set(reg(2), 0x0001);
    let m = m.clock().unwrap();
    assert_eq!((m.of, m.sf, m.zf), (false, false, false));
}

#[test]
fn compare_equal_sets_zf() {
    let mut m = boot(&[0x4412]);
    m.gr = m.gr.set(reg(1), 42);
    m.gr = m.gr.set(reg(2), 42);
    let m = m.clock().unwrap();
    assert_eq!((m.of, m.sf, m.zf), (false, false, true));
}

#[test]
fn load_reg_reg_sets_flags() {
    // LD r1,r2 (one-word form) copies and sets SF/ZF, clears OF.
    let mut m = boot(&[0x1412]);
    m.gr = m.gr.set(reg(2), 0x8001);
    m.of = true;
    let m = m.clock().unwrap();
    assert_eq!(gr_value(&m, 1), 0x8001);
    assert_eq!((m.of, m.sf, m.zf), (false, true, false));
}

#[test]
fn subtract_logical_borrows() {
    let mut m = boot(&[0x2712]);
    m.gr = m.gr.set(reg(1), 0x0001);
    m.gr = m.gr.set(reg(2), 0x0002);
    let m = m.clock().unwrap();
    assert_eq!(gr_value(&m, 1), 0xFFFF);
    assert_eq!((m.of, m.sf, m.zf), (true, true, false));
}

#[test]
fn subtract_to_zero_sets_zf() {
    let mut m = boot(&[0x2512]);
    m.gr = m.gr.set(reg(1), 7);
    m.gr = m.gr.set(reg(2), 7);
    let m = m.clock().unwrap();
    assert_eq!(gr_value(&m, 1), 0);
    assert_eq!((m.of, m.sf, m.zf), (false, false, true));
}

#[test]
fn bitwise_ops_set_flags() {
    let mut m = boot(&[0x3412]);
    m.gr = m.gr.set(reg(1), 0xF0F0);
    m.gr = m.gr.set(reg(2), 0x0F0F);
    let m = m.clock().unwrap();
    assert_eq!(gr_value(&m, 1), 0);
    assert_eq!((m.of, m.sf, m.zf), (false, false, true));

    let mut m = boot(&[0x3512]);
    m.gr = m.gr.set(reg(1), 0xF000);
    m.gr = m.gr.set(reg(2), 0x000F);
    let m = m.clock().unwrap();
    assert_eq!(gr_value(&m, 1), 0xF00F);
    assert_eq!((m.of, m.sf, m.zf), (false, true, false));

    let mut m = boot(&[0x3612]);
    m.gr = m.gr.set(reg(1), 0xFFFF);
    m.gr = m.gr.set(reg(2), 0x00FF);
    let m = m.clock().unwrap();
    assert_eq!(gr_value(&m, 1), 0xFF00);
    assert_eq!((m.of, m.sf, m.zf), (false, true, false));
}

#[test]
fn two_word_add_uses_memory_operand() {
    // ADDA r1,0x0105 adds memory[0x0105] into GR1 and sets SF/ZF.
    let mut m = boot(&[0x2010, 0x0105]);
    m.mem = m.mem.set(0x0105, 0x0002).unwrap();
    m.gr = m.gr.set(reg(1), 0xFFFF);
    let m = m.clock().unwrap();
    let m = m.clock().unwrap();
    // -1 + 2 = 1: no signed overflow.
    assert_eq!(gr_value(&m, 1), 1);
    assert_eq!((m.of, m.sf, m.zf), (false, false, false));
}

#[test]
fn unknown_opcode_is_reported() {
    let m = boot(&[0xFF00]);
    assert_eq!(
        m.clock().unwrap_err(),
        StepError::ExecError(ExecError::OperationNotDefined(
            NewError::OperationNotDefined(0xFF00)
        ))
    );
    // The machine itself is untouched and can still be inspected.
    assert_eq!(m.pr, 256);
}

#[test]
fn bad_register_field_is_reported() {
    // High nibble selects NOP, but the second register field is 9.
    let m = boot(&[0x0009]);
    assert_eq!(
        m.clock().unwrap_err(),
        StepError::ExecError(ExecError::OperationNotDefined(
            NewError::RegisterOutOfIndex(RegisterOutOfIndex(0, 9))
        ))
    );
}

#[test]
fn init_rejects_oversized_stream() {
    let max = (65536 - STACK_SIZE) * 2;
    assert!(Machine::init(&vec![0u8; max]).is_ok());
    assert_eq!(
        Machine::init(&vec![0u8; max + 2]).unwrap_err(),
        MachineInitError::MemoryInitFailed(LoadProgramError::TooLarge(max + 2))
    );
}

#[test]
fn decode_classifies_forms() {
    match ope(0x2412).unwrap() {
        Instruction::OneWord(w1) => {
            assert_eq!(w1.operation, Operation1::AddArithmetic1);
            assert_eq!(w1.r1, RegisterNumber(1));
            assert_eq!(w1.r2, RegisterNumber(2));
        }
        _ => panic!("expected a one-word instruction"),
    }
    match ope(0x1010).unwrap() {
        Instruction::TwoWord(w2) => {
            assert_eq!(w2.operation, Operation2::Load);
            assert_eq!(w2.r, RegisterNumber(1));
            assert_eq!(w2.x, RegisterNumber(0));
        }
        _ => panic!("expected a two-word instruction"),
    }
    assert!(RegisterNumber::new(8).is_none());
    assert!(RegisterNumber::new(7).is_some());
}

#[test]
fn inspection_reads_the_machine() {
    let m = boot(&[0x1234]);
    assert_eq!(m.pr_at(), 0x1234);
    let stack = m.mem_info();
    assert_eq!(stack.len(), STACK_SIZE);
    assert!(stack.iter().all(|w| *w == 0));
    let (_, pr, sp) = m.r_info();
    assert_eq!((pr, sp), (256, 256));
}
