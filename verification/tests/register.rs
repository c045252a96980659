use comet2::operations::Operation1;
use comet2::operations::Operation2;
use comet2::operations::RegisterNumber;
use comet2::operations::RegisterOutOfIndex;
use comet2::operations::TwoRegisters;
use comet2::register::GeneralRegister;
use comet2::register::IndexRegister;

#[test]
fn register_file_reads_and_writes() {
    let gr = GeneralRegister::new([10, 11, 12, 13, 14, 15, 16, 17]);
    let r1 = RegisterNumber::new(1).unwrap();
    let r7 = RegisterNumber::new(7).unwrap();
    assert_eq!(gr.get(r1, r7), (11, 17));
    let gr = gr.set(r1, 0xFFFF);
    assert_eq!(gr.get(r1, r7), (0xFFFF, 17));
}

#[test]
fn arithmetic_read_is_signed() {
    let gr = GeneralRegister::new([0xFFFF, 0x7FFF, 0x8000, 0, 0, 0, 0, 0]);
    let r0 = RegisterNumber::new(0).unwrap();
    let r1 = RegisterNumber::new(1).unwrap();
    let r2 = RegisterNumber::new(2).unwrap();
    assert_eq!(gr.get_arithmetic(r0, r1), (-1, 32767));
    assert_eq!(gr.get_arithmetic(r2, r0), (-32768, -1));
}

#[test]
fn index_register_reads_second_number() {
    let gr = GeneralRegister::new([0, 0, 0, 44, 0, 0, 0, 0]);
    let two = TwoRegisters { r1: 1, r2: 3 };
    assert_eq!(two.get_pair(), (&1, &3));
    assert_eq!(gr.index(two).value(), 44);
    assert_eq!(IndexRegister::new(7).value(), 7);
}

#[test]
fn opcode_tables() {
    assert_eq!(Operation1::new(0x2400), Ok(Operation1::AddArithmetic1));
    assert_eq!(Operation1::new(0x8100), Ok(Operation1::Return));
    assert!(Operation1::new(0x1000).is_err());
    assert_eq!(Operation2::new(0x1000), Ok(Operation2::Load));
    assert_eq!(Operation2::new(0x8000), Ok(Operation2::Call));
    assert!(Operation2::new(0x2400).is_err());
}

#[test]
fn register_pair_extraction() {
    let (a, b) = RegisterNumber::new_pair(0x2412).unwrap();
    assert_eq!((a, b), (RegisterNumber(1), RegisterNumber(2)));
    assert_eq!(
        RegisterNumber::new_pair(0x24F2),
        Err(RegisterOutOfIndex(15, 2))
    );
}
