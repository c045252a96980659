use comet2::to_pairs::to_pairs;

#[test]
fn main_t() {
    assert_eq!(-1i8 as u8, 255);
    assert_eq!(255u8 as i8, -1);
}

#[test]
fn to_pairs_t() {
    assert_eq!(to_pairs(&vec![1, 2, 3, 4]), vec![(1, 2), (3, 4)]);
}

#[test]
fn to_pairs_drops_trailing_element() {
    assert_eq!(to_pairs(&vec![1, 2, 3]), vec![(1, 2)]);
    assert_eq!(to_pairs::<i32>(&vec![]), vec![]);
}
