use comet2::machine::STACK_SIZE;
use comet2::memory::encode_words;
use comet2::memory::u8u8_2_u16;
use comet2::memory::LoadProgramError;
use comet2::memory::Memory;

#[test]
fn test_u8u8_2_u16() {
    assert_eq!(u8u8_2_u16((0x7e, 0x80)), 0x7e80);
    assert_eq!(u8u8_2_u16((0xff, 0xff)), 0xffff);
}

#[test]
fn load_places_words_above_stack() {
    let mem = Memory::load_program(&vec![0x12, 0x34, 0xAB, 0xCD]).unwrap();
    assert_eq!(mem.get(255).unwrap(), 0);
    assert_eq!(mem.get(256).unwrap(), 0x1234);
    assert_eq!(mem.get(257).unwrap(), 0xABCD);
    assert_eq!(mem.get(258).unwrap(), 0);
    assert_eq!(mem.get(0xFFFF).unwrap(), 0);
}

#[test]
fn load_drops_trailing_byte() {
    let mem = Memory::load_program(&vec![0x12, 0x34, 0x56]).unwrap();
    assert_eq!(mem.get(256).unwrap(), 0x1234);
    assert_eq!(mem.get(257).unwrap(), 0);
}

#[test]
fn load_rejects_oversized_stream() {
    let max = (65536 - STACK_SIZE) * 2;
    assert!(Memory::load_program(&vec![0u8; max]).is_ok());
    assert_eq!(
        Memory::load_program(&vec![0u8; max + 1]).unwrap_err(),
        LoadProgramError::TooLarge(max + 1)
    );
}

#[test]
fn set_writes_one_cell() {
    let mem = Memory::load_program(&vec![]).unwrap();
    let mem = mem.set(0x0105, 0xBEEF).unwrap();
    assert_eq!(mem.get(0x0105).unwrap(), 0xBEEF);
    assert_eq!(mem.get(0x0104).unwrap(), 0);
}

#[test]
fn encode_is_big_endian() {
    assert_eq!(encode_words(&vec![0x1234, 0x00FF]), vec![0x12, 0x34, 0x00, 0xFF]);
}

#[test]
fn load_encode_round_trip() {
    let words = vec![0x0000, 0xFFFF, 0x8000, 0x1234, 0x00FF];
    let mem = Memory::load_program(&encode_words(&words)).unwrap();
    for (i, w) in words.iter().enumerate() {
        assert_eq!(mem.get((STACK_SIZE + i) as u16).unwrap(), *w);
    }
}

#[test]
fn info_shows_stack_and_program_window() {
    let mem = Memory::load_program(&vec![0x12, 0x34]).unwrap();
    let (stack, program) = mem.info();
    assert_eq!(stack.len(), STACK_SIZE);
    assert_eq!(program.len(), STACK_SIZE);
    assert!(stack.iter().all(|w| *w == 0));
    assert_eq!(program[0], 0x1234);
    assert_eq!(program[1], 0);
}

#[test]
fn get_is_total_over_16_bit_addresses() {
    let mem = Memory::load_program(&vec![]).unwrap();
    assert!(mem.get(0).is_ok());
    assert!(mem.get(0xFFFF).is_ok());
}
