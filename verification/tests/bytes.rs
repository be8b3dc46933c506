use lib::bytes::{u16_to_u8, u8_to_u16};
use lib::errors::{Error, ErrorKind};
use lib::hex::{push_bin8, push_hex2, push_hex4};

#[test]
fn bytes_join_high_first() {
    assert_eq!(u8_to_u16(0x12, 0x34), 0x1234);
    assert_eq!(u8_to_u16(0xff, 0x00), 0xff00);
    assert_eq!(u8_to_u16(0x00, 0xff), 0x00ff);
}

#[test]
fn words_split_high_first() {
    assert_eq!(u16_to_u8(0xabcd), (0xab, 0xcd));
    assert_eq!(u16_to_u8(0x0001), (0x00, 0x01));
}

#[test]
fn split_then_join_gives_the_word_back() {
    for n in [0u16, 1, 0x00ff, 0x0100, 0x7fff, 0x8000, 0xbeef, 0xffff] {
        let (hi, lo) = u16_to_u8(n);
        assert_eq!(u8_to_u16(hi, lo), n);
    }
}

#[test]
fn hexadecimal_and_binary_text() {
    let mut s = String::from("x=");
    push_hex2(&mut s, 0x0a);
    push_hex4(&mut s, 0xbeef);
    assert_eq!(s, "x=0abeef");
    let mut s = String::new();
    push_bin8(&mut s, 0xb0);
    assert_eq!(s, "10110000");
    let mut s = String::new();
    push_bin8(&mut s, 0x01);
    assert_eq!(s, "00000001");
}

#[test]
fn errors_keep_kind_and_message() {
    let e = Error::new(ErrorKind::UnknownInstruction, String::from("boom"));
    assert_eq!(e.error_kind(), ErrorKind::UnknownInstruction);
    assert_eq!(e.message(), "boom");
}
