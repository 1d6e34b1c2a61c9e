use fontdue::hash::hash;
use fontdue::parse::{
    flag_i128, flag_i16, flag_i32, flag_i64, flag_i8, flag_u128, flag_u16, flag_u32, flag_u64, flag_u8, Stream,
};

#[test]
fn hash_of_empty_data_is_zero() {
    assert_eq!(hash(b""), 0);
}

#[test]
fn hash_of_one_byte() {
    assert_eq!(hash(b"a") as u64, 0xe0456665d3e60275);
}

#[test]
fn hash_of_one_word() {
    assert_eq!(hash(b"abcd") as u64, 0x178af1ad27920c75);
}

#[test]
fn hash_of_a_block_a_word_and_bytes() {
    assert_eq!(hash(b"hello world") as u64, 0x7fc5fae642467c93);
    assert_eq!(hash(b"0123456789abcdef!") as u64, 0x53edca4fc6858c40);
}

#[test]
fn hash_is_the_same_for_the_same_bytes() {
    let a = vec![1u8, 2, 3, 4, 5, 6, 7, 8, 9];
    let b = a.clone();
    assert_eq!(hash(&a), hash(&b));
    assert_ne!(hash(&a), hash(&a[1..]));
}

#[test]
fn stream_reads_big_endian_values() {
    let data = [0x12u8, 0x34, 0x56, 0x78, 0x9A, 0xBC, 0xDE, 0xF0, 0x11, 0x22, 0x33, 0x44, 0x55, 0x66, 0x77, 0x88];
    let mut s = Stream::new(&data);
    assert_eq!(s.read_u8(), 0x12);
    assert_eq!(s.offset(), 1);
    s.reset();
    assert_eq!(s.read_u16(), 0x1234);
    s.reset();
    assert_eq!(s.read_u32(), 0x12345678);
    s.reset();
    assert_eq!(s.read_u64(), 0x123456789ABCDEF0);
    assert_eq!(s.offset(), 8);
    assert_eq!(s.read_u64(), 0x1122334455667788);
}

#[test]
fn stream_reads_signed_values() {
    let data = [0xFFu8, 0xFE, 0xFF, 0xFF, 0xFF, 0xFD, 0x80, 0, 0, 0, 0, 0, 0, 1];
    let mut s = Stream::new(&data);
    assert_eq!(s.read_i8(), -1);
    s.reset();
    assert_eq!(s.read_i16(), -2);
    s.reset();
    s.skip(2);
    assert_eq!(s.read_i32(), -3);
    assert_eq!(s.read_i64(), -0x7FFF_FFFF_FFFF_FFFF);
}

#[test]
fn stream_seeks_skips_and_reads_tags_and_arrays() {
    let data = *b"headglyf\x00\x01\x00\x02\xFF\xFF";
    let mut s = Stream::new(&data);
    assert_eq!(&s.read_tag(), b"head");
    s.seek(4);
    assert_eq!(&s.read_tag(), b"glyf");
    assert_eq!(s.read_array_u16(3), vec![1u16, 2, 0xFFFF]);
    assert_eq!(s.offset(), 14);
    s.seek(2);
    s.skip(2);
    assert_eq!(s.offset(), 4);
}

#[test]
fn flags_need_every_bit() {
    assert!(flag_u8(0b1011, 0b0011));
    assert!(!flag_u8(0b1001, 0b0011));
    assert!(flag_u16(0xF0F0, 0x8080));
    assert!(!flag_u16(0x0F0F, 0x8080));
    assert!(flag_u32(7, 0));
    assert!(flag_u64(u64::MAX, 1 << 63));
    assert!(!flag_u128(1, 3));
    assert!(flag_i8(-1, 0x55));
    assert!(!flag_i16(0, 1));
    assert!(flag_i32(-4, -4));
    assert!(!flag_i64(4, -4));
    assert!(flag_i128(-1, i128::MIN));
}
