use fontdue::unicode::{
    decode_utf16, read_utf16, read_utf8, utf16_valid, utf8_acc_cont_byte, CharacterData, LinebreakData, Linebreaker,
};

#[test]
fn utf16_decodes_bmp_and_surrogate_pairs() {
    // "Aé" then U+1F600 as a surrogate pair.
    let bytes = [0x00u8, 0x41, 0x00, 0xE9, 0xD8, 0x3D, 0xDE, 0x00];
    assert!(utf16_valid(&bytes));
    assert_eq!(decode_utf16(&bytes), "Aé\u{1F600}");
    let mut offset = 0usize;
    assert_eq!(read_utf16(&bytes, &mut offset), 'A');
    assert_eq!(offset, 2);
    offset = 4;
    assert_eq!(read_utf16(&bytes, &mut offset), '\u{1F600}');
    assert_eq!(offset, 8);
}

#[test]
fn utf16_decodes_empty_data() {
    assert!(utf16_valid(&[]));
    assert_eq!(decode_utf16(&[]), "");
}

#[test]
fn utf16_rejects_broken_data() {
    // An odd length, a high surrogate at the end, and a high surrogate before a plain unit.
    assert!(!utf16_valid(&[0x00, 0x41, 0x00]));
    assert!(!utf16_valid(&[0xD8, 0x3D]));
    assert!(!utf16_valid(&[0xD8, 0x3D, 0x00, 0x41]));
}

#[test]
fn utf8_reads_each_width() {
    let text = "a\u{E9}\u{20AC}\u{1F600}";
    let bytes = text.as_bytes();
    let mut offset = 0usize;
    assert_eq!(read_utf8(bytes, &mut offset), 'a');
    assert_eq!(offset, 1);
    assert_eq!(read_utf8(bytes, &mut offset), '\u{E9}');
    assert_eq!(offset, 3);
    assert_eq!(read_utf8(bytes, &mut offset), '\u{20AC}');
    assert_eq!(offset, 6);
    assert_eq!(read_utf8(bytes, &mut offset), '\u{1F600}');
    assert_eq!(offset, 10);
}

#[test]
fn continuation_bytes_add_six_bits() {
    assert_eq!(utf8_acc_cont_byte(0b11, 0b1010_1010), 0b11_101010);
    assert_eq!(utf8_acc_cont_byte(0, 0xBF), 0x3F);
}

#[test]
fn linebreak_priorities_and_masks() {
    let none = LinebreakData::none();
    let soft = LinebreakData::soft();
    let hard = LinebreakData::hard();
    assert!(hard.is_hard() && !hard.is_soft());
    assert!(soft.is_soft() && !soft.is_hard());
    assert!(!none.is_soft() && !none.is_hard());
    assert!(none < soft && soft < hard);

    let all = LinebreakData::from_mask(true, true, true);
    assert!(hard.mask(all).is_hard());
    assert!(soft.mask(all).is_soft());
    // Soft breaks need a width to wrap at.
    let no_width = LinebreakData::from_mask(true, true, false);
    assert!(hard.mask(no_width).is_hard());
    assert_eq!(soft.mask(no_width), none);
    // Hard breaks can be switched off.
    let no_hard = LinebreakData::from_mask(true, false, true);
    assert_eq!(hard.mask(no_hard), none);
    assert!(soft.mask(no_hard).is_soft());
    assert_eq!(LinebreakData::from_mask(false, false, true), none);
}

#[test]
fn character_classes() {
    let space = CharacterData::classify(' ', 3);
    assert!(space.is_whitespace() && !space.is_control() && !space.is_missing() && !space.rasterize());
    let newline = CharacterData::classify('\n', 3);
    assert!(newline.is_whitespace() && newline.is_control());
    let delete = CharacterData::classify('\x7F', 3);
    assert!(delete.is_control() && !delete.is_whitespace());
    let missing = CharacterData::classify('x', 0);
    assert!(missing.is_missing() && !missing.rasterize());
    let letter = CharacterData::classify('x', 5);
    assert!(letter.rasterize());
    assert_eq!(letter, CharacterData::classify('y', 9));
}

#[test]
fn linebreaker_finds_soft_and_hard_breaks() {
    let mut lb = Linebreaker::new();
    assert_eq!(lb.next('a'), LinebreakData::none());
    assert_eq!(lb.next(' '), LinebreakData::none());
    assert_eq!(lb.next('b'), LinebreakData::soft());
    assert_eq!(lb.next('\n'), LinebreakData::none());
    assert_eq!(lb.next('c'), LinebreakData::hard());
    assert_eq!(lb.next('d'), LinebreakData::none());
}

#[test]
fn linebreaker_reset_starts_a_new_text() {
    let mut lb = Linebreaker::new();
    assert_eq!(lb.next('a'), LinebreakData::none());
    assert_eq!(lb.next('\n'), LinebreakData::none());
    lb.reset();
    // At the start of a text there is never a break.
    assert_eq!(lb.next('b'), LinebreakData::none());
}

#[test]
fn utf16_decoding_undoes_encoding() {
    let text = "Fontdue \u{E9}\u{FFFD} \u{10000}\u{1F600}\u{10FFFF}";
    let bytes: Vec<u8> = text.encode_utf16().flat_map(|u| u.to_be_bytes()).collect();
    assert!(utf16_valid(&bytes));
    assert_eq!(decode_utf16(&bytes), text);
}

#[test]
fn reset_linebreaker_reports_like_a_new_one() {
    let text = "a b\ncd, e-f\u{3000}g";
    let mut used = Linebreaker::new();
    for c in "xyz\n  q".chars() {
        used.next(c);
    }
    used.reset();
    let mut fresh = Linebreaker::new();
    for c in text.chars() {
        assert_eq!(used.next(c), fresh.next(c));
    }
    let mut lb1 = Linebreaker::new();
    lb1.next('a');
    lb1.next('\n');
    assert_eq!(lb1.next('b'), LinebreakData::hard());
    let mut lb2 = Linebreaker::new();
    lb2.next('a');
    lb2.next(' ');
    assert_eq!(lb2.next('b'), LinebreakData::soft());
}
