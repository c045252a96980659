use comet2::utils::is_negative;

#[test]
fn test_is_negative() {
    assert_eq!(is_negative(0x8000), true);
    assert_eq!(is_negative(-123i16 as u16), true);
    assert_eq!(is_negative(32768), true);
    assert_eq!(is_negative(32767), false);
}

#[test]
fn zero_and_small_values_are_not_negative() {
    assert_eq!(is_negative(0), false);
    assert_eq!(is_negative(1), false);
    assert_eq!(is_negative(0x7FFF), false);
    assert_eq!(is_negative(0xFFFF), true);
}
