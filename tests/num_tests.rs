use chip8emu::num::{to_4_be_nibles, BitIter};

#[test]
fn test_iter_bit() {
    let mut n = BitIter::new(0b1010_0011);
    assert_eq!(n.next(), Some(true));
    assert_eq!(n.next(), Some(false));
    assert_eq!(n.next(), Some(true));
    assert_eq!(n.next(), Some(false));

    assert_eq!(n.next(), Some(false));
    assert_eq!(n.next(), Some(false));
    assert_eq!(n.next(), Some(true));
    assert_eq!(n.next(), Some(true));

    assert_eq!(n.next(), None);
    assert_eq!(n.next(), None);
}

#[test]
fn test_4_nibbles() {
    let abcd = to_4_be_nibles(0x1234);
    assert_eq!(abcd, [1, 2, 3, 4]);
}

#[test]
fn nibbles_of_extreme_words() {
    assert_eq!(to_4_be_nibles(0x0000), [0, 0, 0, 0]);
    assert_eq!(to_4_be_nibles(0xFFFF), [0xF, 0xF, 0xF, 0xF]);
    assert_eq!(to_4_be_nibles(0xD01F), [0xD, 0x0, 0x1, 0xF]);
}

#[test]
fn bits_of_all_ones_and_zero() {
    let mut ones = BitIter::new(0xFF);
    let mut zero = BitIter::new(0x00);
    for _ in 0..8 {
        assert_eq!(ones.next(), Some(true));
        assert_eq!(zero.next(), Some(false));
    }
    assert_eq!(ones.next(), None);
    assert_eq!(zero.next(), None);
}
