#![allow(non_snake_case)]
use coral::utils::{
    b0, b3, b7, flatten_u8, join_bytes, p0, p4, p7, page_cross_sum, s2, s5, split_bytes, t1, t3,
    t5, t8, B0, B10, B11, B15, P10, P11, S15, S4, T12, T14, T16, T5,
};

#[test]
fn single_bits_of_a_byte_are_read() {
    assert!(b0(0x01));
    assert!(!b0(0xFE));
    assert!(b3(0x08));
    assert!(!b3(0xF7));
    assert!(b7(0x80));
    assert!(!b7(0x7F));
}

#[test]
fn single_bits_of_a_word_are_read() {
    assert!(B0(0x0001));
    assert!(B10(0x0400));
    assert!(!B10(0xFBFF));
    assert!(B11(0x0800));
    assert!(B15(0x8000));
    assert!(!B15(0x7FFF));
}

#[test]
fn setting_a_bit_in_place_leaves_the_others() {
    let mut byte = 0b1010_0000;
    s2(&mut byte, true);
    assert_eq!(byte, 0b1010_0100);
    s5(&mut byte, false);
    assert_eq!(byte, 0b1000_0100);
    s5(&mut byte, false);
    assert_eq!(byte, 0b1000_0100);
    let mut word = 0x0010;
    S15(&mut word, true);
    assert_eq!(word, 0x8010);
    S4(&mut word, false);
    assert_eq!(word, 0x8000);
}

#[test]
fn putting_a_bit_gives_a_new_value() {
    assert_eq!(p0(0xFE, true), 0xFF);
    assert_eq!(p0(0xFF, true), 0xFF);
    assert_eq!(p4(0xFF, false), 0xEF);
    assert_eq!(p7(0x00, true), 0x80);
    assert_eq!(P10(0x0000, true), 0x0400);
    assert_eq!(P11(0xFFFF, false), 0xF7FF);
}

#[test]
fn truncation_keeps_the_low_bits() {
    assert_eq!(t1(0xFF), 0x01);
    assert_eq!(t3(0xFF), 0x07);
    assert_eq!(t5(0xE5), 0x05);
    assert_eq!(t8(0xA7), 0xA7);
    assert_eq!(T5(0xFFFF), 0x001F);
    assert_eq!(T12(0xABCD), 0x0BCD);
    assert_eq!(T14(0xFFFF), 0x3FFF);
    assert_eq!(T16(0xABCD), 0xABCD);
}

#[test]
fn bytes_join_to_a_word_and_split_again() {
    assert_eq!(join_bytes(0x12, 0x34), 0x1234);
    assert_eq!(join_bytes(0x00, 0xFF), 0x00FF);
    assert_eq!(join_bytes(0xFF, 0x00), 0xFF00);
    assert_eq!(split_bytes(0x1234), (0x12, 0x34));
    assert_eq!(split_bytes(0x00FF), (0x00, 0xFF));
    for word in [0x0000u16, 0x0001, 0x00FF, 0x0100, 0x7FFF, 0x8000, 0xFFFF] {
        let (msb, lsb) = split_bytes(word);
        assert_eq!(join_bytes(msb, lsb), word);
    }
}

#[test]
fn a_sum_that_leaves_the_page_is_reported() {
    assert_eq!(page_cross_sum(0x12F0, 0x000F), (0x12FF, false));
    assert_eq!(page_cross_sum(0x12F0, 0x0010), (0x1300, true));
    assert_eq!(page_cross_sum(0x1200, 0x0000), (0x1200, false));
}

#[test]
fn a_sum_past_the_top_of_memory_wraps() {
    assert_eq!(page_cross_sum(0xFFFF, 0x0001), (0x0000, true));
    assert_eq!(page_cross_sum(0x0105, 0xFFFE), (0x0103, false));
    assert_eq!(page_cross_sum(0x0101, 0xFFFE), (0x00FF, true));
}

#[test]
fn flatten_puts_the_first_entry_in_the_top_bit() {
    assert_eq!(flatten_u8([0, 0, 0, 0, 0, 0, 0, 0]), 0x00);
    assert_eq!(flatten_u8([1, 0, 0, 0, 0, 0, 0, 0]), 0x80);
    assert_eq!(flatten_u8([0, 0, 0, 0, 0, 0, 0, 3]), 0x01);
    assert_eq!(flatten_u8([1, 2, 3, 0, 0, 1, 0, 1]), 0b1110_0101);
    assert_eq!(flatten_u8([9, 9, 9, 9, 9, 9, 9, 9]), 0xFF);
}
