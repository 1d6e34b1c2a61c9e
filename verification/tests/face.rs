use fontdue::font::{
    convert_error, convert_name, vertical_metrics, FaceData, FaceError, Font, LineMetricsUnits, NameRecord, Platform,
};
use fontdue::hash::hash;
use fontdue::raw::RawFont;
use fontdue::table::gsub::{insert_substitutions, pick_substitution, Substitution};
use std::collections::HashSet;

fn u16s(values: &[u16]) -> Vec<u8> {
    values.iter().flat_map(|v| v.to_be_bytes()).collect()
}

fn utf16(text: &str) -> Vec<u8> {
    text.encode_utf16().flat_map(|u| u.to_be_bytes()).collect()
}

/// Puts tables into a font file, their records sorted by tag.
fn font_file(mut tables: Vec<(&[u8; 4], Vec<u8>)>) -> Vec<u8> {
    tables.sort_by(|a, b| a.0.cmp(b.0));
    let mut header = Vec::new();
    header.extend(0x0001_0000u32.to_be_bytes());
    header.extend(u16s(&[tables.len() as u16, 0, 0, 0]));
    let mut body = Vec::new();
    let mut offset = 12 + 16 * tables.len();
    for (tag, data) in &tables {
        header.extend(*tag);
        header.extend(0u32.to_be_bytes());
        header.extend((offset as u32).to_be_bytes());
        header.extend((data.len() as u32).to_be_bytes());
        let mut padded = data.clone();
        while padded.len() % 4 != 0 {
            padded.push(0);
        }
        offset += padded.len();
        body.extend(padded);
    }
    header.extend(body);
    header
}

fn head() -> Vec<u8> {
    let mut b = u16s(&[1, 0]);
    b.extend(0x0001_0000u32.to_be_bytes());
    b.extend(0u32.to_be_bytes());
    b.extend(0x5F0F_3CF5u32.to_be_bytes());
    b.extend(u16s(&[0, 1000]));
    b.extend([0u8; 16]);
    b.extend(u16s(&[0, 0, 100, 100, 0, 8]));
    b.extend(u16s(&[2, 0, 0]));
    b
}

fn hhea() -> Vec<u8> {
    let mut b = 0x0001_0000u32.to_be_bytes().to_vec();
    for v in [800i16, -200, 90] {
        b.extend(v.to_be_bytes());
    }
    b.extend([0u8; 24]);
    b.extend(u16s(&[1]));
    b
}

fn cmap() -> Vec<u8> {
    let mut b = u16s(&[0, 1, 3, 1]);
    b.extend(12u32.to_be_bytes());
    b.extend(u16s(&[4, 32, 0, 4, 4, 1, 0]));
    b.extend(u16s(&[0x43, 0xFFFF, 0, 0x41, 0xFFFF, 0xFFC0, 1, 0, 0]));
    b
}

fn kern() -> Vec<u8> {
    let mut b = u16s(&[0, 1, 0, 26]);
    b.extend([0u8, 1]);
    b.extend(u16s(&[2, 0, 0, 0, 1, 2]));
    b.extend((-50i16).to_be_bytes());
    b.extend(u16s(&[3, 4]));
    b.extend(20i16.to_be_bytes());
    b
}

fn name() -> Vec<u8> {
    let text = utf16("Tiny");
    let mut b = u16s(&[0, 1, 18, 3, 1, 0x409, 4, text.len() as u16, 0]);
    b.extend(text);
    b
}

/// glyph 0 empty, glyph 1 a triangle, glyph 2 a compound of glyph 1, glyph 3 empty.
fn glyf() -> Vec<u8> {
    let mut b = Vec::new();
    for v in [1i16, 0, 0, 100, 100, 2, 0] {
        b.extend(v.to_be_bytes());
    }
    b.extend([1u8, 1, 1]);
    for v in [0i16, 100, -100, 0, 0, 100] {
        b.extend(v.to_be_bytes());
    }
    b.push(0);
    for v in [-1i16, 0, 0, 50, 50, 0x000B, 1, 10, -10, 0x2000] {
        b.extend(v.to_be_bytes());
    }
    b
}

fn tiny_font() -> Vec<u8> {
    font_file(vec![
        (b"cmap", cmap()),
        (b"glyf", glyf()),
        (b"head", head()),
        (b"hhea", hhea()),
        (b"hmtx", {
            let mut b = u16s(&[500, 0]);
            b.extend(u16s(&[7, 8, 9]));
            b
        }),
        (b"kern", kern()),
        (b"loca", u16s(&[0, 0, 15, 25, 25])),
        (b"maxp", vec![0, 0, 0x50, 0, 0, 4]),
        (b"name", name()),
    ])
}

#[test]
fn font_from_bytes_reads_name_mapping_and_kerning() {
    let data = tiny_font();
    let font = Font::from_bytes(&data, 0, true).unwrap();
    assert_eq!(font.name(), Some("Tiny"));
    assert_eq!(font.glyph_count(), 4);
    assert_eq!(font.units_per_em(), 1000);
    assert_eq!(font.file_hash(), hash(&data));
    assert_eq!(font.lookup_glyph_index('A'), 1);
    assert_eq!(font.lookup_glyph_index('C'), 3);
    assert_eq!(font.lookup_glyph_index('D'), 0);
    assert!(font.has_glyph('B'));
    assert!(!font.has_glyph('Z'));
    assert_eq!(font.chars().len(), 3);
    assert_eq!(font.kern_indexed(1, 2), Some(-50));
    assert_eq!(font.kern('A', 'B'), Some(-50));
    assert_eq!(font.kern('B', 'A'), None);
    let h = font.horizontal_line_metrics();
    assert_eq!((h.ascent, h.descent, h.line_gap), (800, -200, 90));
    assert_eq!(h.new_line_size(), 1090);
    assert_eq!(font.vertical_line_metrics(), None);
    for g in 0..4 {
        assert!(font.glyph_loaded(g));
    }
    assert!(!font.glyph_loaded(4));
}

#[test]
fn font_from_bytes_reports_the_face_error() {
    assert_eq!(
        Font::from_bytes(b"nope", 0, true).err(),
        Some("Face data must start with 0x00010000, 0x74727565, 0x4F54544F or 0x74746366.")
    );
    let data = tiny_font();
    assert_eq!(
        Font::from_bytes(&data, 1, true).err(),
        Some("The face index is larger than the number of faces in the font.")
    );
    let no_hhea = font_file(vec![(b"head", head()), (b"maxp", vec![0, 0, 0x50, 0, 0, 4])]);
    assert_eq!(Font::from_bytes(&no_hhea, 0, false).err(), Some("The hhea table is missing or malformed."));
    let no_head = font_file(vec![(b"hhea", hhea()), (b"maxp", vec![0, 0, 0x50, 0, 0, 4])]);
    assert_eq!(Font::from_bytes(&no_head, 0, false).err(), Some("The head table is missing or malformed."));
    let no_glyphs = font_file(vec![(b"head", head()), (b"hhea", hhea()), (b"maxp", vec![0, 0, 0x50, 0, 0, 0])]);
    assert_eq!(Font::from_bytes(&no_glyphs, 0, false).err(), Some("The maxp table is missing or malformed."));
    // A collection whose face offset lies past the data.
    let mut collection = b"ttcf".to_vec();
    collection.extend(0x0001_0000u32.to_be_bytes());
    collection.extend(1u32.to_be_bytes());
    collection.extend(0xFFFFu32.to_be_bytes());
    assert_eq!(Font::from_bytes(&collection, 0, false).err(), Some("An attempt to read out of bounds detected."));
}

#[test]
fn face_error_messages() {
    assert_eq!(convert_error(FaceError::MalformedFont), "An attempt to read out of bounds detected.");
    assert_eq!(convert_error(FaceError::NoHeadTable), "The head table is missing or malformed.");
    assert_eq!(convert_error(FaceError::NoMaxpTable), "The maxp table is missing or malformed.");
}

fn record(platform: Platform, encoding_id: u16, name_id: u16, name: Vec<u8>) -> NameRecord {
    NameRecord { platform, encoding_id, name_id, name }
}

#[test]
fn name_is_the_first_unicode_full_name() {
    let records = vec![
        record(Platform::Macintosh, 0, 4, b"Mac".to_vec()),
        record(Platform::Windows, 1, 1, utf16("Family")),
        record(Platform::Windows, 1, 4, utf16("Full")),
        record(Platform::Unicode, 3, 4, utf16("Later")),
    ];
    assert_eq!(convert_name(&records), Some("Full".to_string()));
    assert_eq!(convert_name(&records[..2].to_vec()), None);
    assert!(record(Platform::Windows, 0, 4, vec![]).is_unicode());
    assert!(!record(Platform::Windows, 10, 4, vec![]).is_unicode());
    assert!(!record(Platform::Iso, 1, 4, vec![]).is_unicode());
}

#[test]
fn name_with_broken_utf16_is_none() {
    let records = vec![record(Platform::Unicode, 3, 4, vec![0, 0x41, 0])];
    assert_eq!(convert_name(&records), None);
}

#[test]
fn vertical_metrics_need_an_ascender() {
    assert_eq!(vertical_metrics(None, Some(-3), Some(4)), None);
    assert_eq!(
        vertical_metrics(Some(500), None, Some(10)),
        Some(LineMetricsUnits { ascent: 500, descent: 0, line_gap: 10 })
    );
    let m = LineMetricsUnits { ascent: i16::MAX, descent: i16::MIN, line_gap: 5 };
    assert_eq!(m.new_line_size(), 65540);
}

fn face_data(glyph_count: u16, mappings: Vec<(u32, u16)>, substitutions: Vec<Substitution>) -> FaceData {
    FaceData {
        names: vec![record(Platform::Windows, 1, 4, utf16("Face"))],
        kern: Some(kern()),
        mappings,
        substitutions,
        glyph_count,
        units_per_em: 2048,
        horizontal: LineMetricsUnits { ascent: 1900, descent: -500, line_gap: 0 },
        vertical_ascender: Some(1000),
        vertical_descender: None,
        vertical_line_gap: None,
    }
}

#[test]
fn later_mappings_win_and_zero_glyphs_are_left_out() {
    let data = face_data(6, vec![(0x41, 1), (0x42, 2), (0x41, 3), (0x43, 0)], vec![]);
    let font = Font::from_face_data(&data, 77).unwrap();
    assert_eq!(font.name(), Some("Face"));
    assert_eq!(font.file_hash(), 77);
    assert_eq!(font.lookup_glyph_index('A'), 3);
    assert_eq!(font.lookup_glyph_index('B'), 2);
    assert_eq!(font.lookup_glyph_index('C'), 0);
    assert!(!font.has_glyph('C'));
    // Glyph 1 was mapped before it was replaced, so it is loaded too.
    let loaded: Vec<bool> = (0..6).map(|g| font.glyph_loaded(g)).collect();
    assert_eq!(loaded, vec![true, true, true, true, false, false]);
    assert_eq!(
        font.vertical_line_metrics(),
        Some(LineMetricsUnits { ascent: 1000, descent: 0, line_gap: 0 })
    );
}

#[test]
fn substitution_glyphs_are_loaded() {
    let subs = vec![
        Substitution::Delta { glyphs: vec![1], delta: 3 },
        Substitution::Glyphs(vec![vec![5]]),
    ];
    let data = face_data(7, vec![(0x41, 1)], subs);
    let font = Font::from_face_data(&data, 0).unwrap();
    let loaded: Vec<u16> = (0..7).filter(|&g| font.glyph_loaded(g)).collect();
    assert_eq!(loaded, vec![0, 1, 4, 5]);
}

#[test]
fn glyphs_past_the_count_are_an_error() {
    let data = face_data(3, vec![(0x41, 3)], vec![]);
    assert_eq!(Font::from_face_data(&data, 0).err(), Some("Attempted to map a codepoint out of bounds."));
    let subs = vec![Substitution::Glyphs(vec![vec![2, 9]])];
    let data = face_data(3, vec![(0x41, 1)], subs);
    assert_eq!(Font::from_face_data(&data, 0).err(), Some("Attempted to map a codepoint out of bounds."));
}

#[test]
fn substitutions_insert_their_output_glyphs() {
    let subs = vec![
        // A delta wraps around at 65536.
        Substitution::Delta { glyphs: vec![1, 65535], delta: 2 },
        // Ranges leave out their end.
        Substitution::DeltaRanges { ranges: vec![(10, 13), (20, 20)], delta: -5 },
        Substitution::Glyphs(vec![vec![100, 101], vec![], vec![102]]),
    ];
    let mut set: HashSet<u16> = HashSet::new();
    set.insert(7);
    insert_substitutions(&subs, &mut set);
    let mut got: Vec<u16> = set.into_iter().collect();
    got.sort();
    assert_eq!(got, vec![1, 3, 5, 6, 7, 100, 101, 102]);
}

#[test]
fn raw_font_reads_every_table() {
    let data = tiny_font();
    let raw = RawFont::new(&data).unwrap();
    assert_eq!(raw.head.units_per_em, 1000);
    assert_eq!(raw.maxp.num_glyphs, 4);
    assert_eq!(raw.cmap.map.get(0x42), Some(2));
    assert_eq!(raw.loca.locations.len(), 4);
    assert_eq!(raw.glyf.glyphs.len(), 4);
    assert_eq!(raw.glyf.glyphs[2].num_contours, -1);
    let kern = raw.kern.as_ref().unwrap();
    assert_eq!(kern.horizontal_mappings.get(&(3 << 16 | 4)), Some(&20));
    assert_eq!(raw.hhea.as_ref().unwrap().ascent, 800);
    let hmtx = raw.hmtx.as_ref().unwrap();
    assert_eq!((hmtx.hmetrics[0].advance_width, hmtx.hmetrics[0].left_side_bearing), (500, 0));
    assert_eq!((hmtx.hmetrics[3].advance_width, hmtx.hmetrics[3].left_side_bearing), (500, 9));
    assert!(raw.vhea.is_none() && raw.vmtx.is_none() && raw.cpal.is_none() && raw.colr.is_none());
}

#[test]
fn raw_font_errors() {
    assert_eq!(RawFont::new(&[0, 1, 0]).err(), Some("Font: File isn't large enough to be a font."));
    assert_eq!(RawFont::new(b"wOFF\x00\x00").err(), Some("Font: Unsupported font type."));
    let mut bad_head = head();
    bad_head[12] = 0;
    let data = font_file(vec![(b"head", bad_head), (b"maxp", vec![0, 0, 0x50, 0, 0, 4])]);
    assert_eq!(RawFont::new(&data).err(), Some("Font.head: Incorrect magic number, is this a font?"));
}

#[test]
fn a_cloned_font_answers_the_same() {
    let data = face_data(6, vec![(0x41, 1), (0x42, 2)], vec![]);
    let font = Font::from_face_data(&data, 5).unwrap();
    let copy = font.clone();
    drop(font);
    assert_eq!(copy.name(), Some("Face"));
    assert_eq!(copy.lookup_glyph_index('B'), 2);
    assert_eq!(copy.kern_indexed(1, 2), Some(-50));
    assert_eq!(copy.glyph_count(), 6);
    assert!(copy.glyph_loaded(2) && !copy.glyph_loaded(3));
    assert_eq!(copy.file_hash(), 5);
}

/// A GSUB table with one single substitution adding 3 to glyph 1.
fn gsub() -> Vec<u8> {
    let mut b = u16s(&[1, 0, 10, 12, 14]);
    b.extend(u16s(&[0]));
    b.extend(u16s(&[0]));
    b.extend(u16s(&[1, 4]));
    b.extend(u16s(&[1, 0, 1, 8]));
    b.extend(u16s(&[1, 6, 3]));
    b.extend(u16s(&[1, 1, 1]));
    b
}

fn font_with_gsub() -> Vec<u8> {
    font_file(vec![
        (b"GSUB", gsub()),
        (b"cmap", cmap()),
        (b"head", head()),
        (b"hhea", hhea()),
        (b"maxp", vec![0, 0, 0x50, 0, 0, 5]),
    ])
}

#[test]
fn substituted_glyphs_are_loaded_when_asked_for() {
    let data = font_with_gsub();
    let with = Font::from_bytes(&data, 0, true).unwrap();
    assert!(with.glyph_loaded(4));
    let without = Font::from_bytes(&data, 0, false).unwrap();
    assert!(!without.glyph_loaded(4));
    assert!(without.glyph_loaded(1) && without.glyph_loaded(3));
    assert_eq!(without.name(), None);
    assert_eq!(without.kern('A', 'B'), None);
}

#[test]
fn pick_substitution_prefers_listed_deltas() {
    let r = pick_substitution(
        Some((vec![3, 4], 2)),
        Some((vec![(1, 5)], 7)),
        Some(vec![9]),
        vec![vec![10]],
    );
    match r {
        Substitution::Delta { glyphs, delta } => {
            assert_eq!(glyphs, vec![3, 4]);
            assert_eq!(delta, 2);
        }
        _ => panic!("expected a delta substitution"),
    }
}

#[test]
fn pick_substitution_falls_through_in_order() {
    match pick_substitution(None, Some((vec![(1, 5)], -1)), Some(vec![9]), vec![]) {
        Substitution::DeltaRanges { ranges, delta } => {
            assert_eq!(ranges, vec![(1, 5)]);
            assert_eq!(delta, -1);
        }
        _ => panic!("expected a range substitution"),
    }
    match pick_substitution(None, None, Some(vec![9, 8]), vec![vec![10]]) {
        Substitution::Glyphs(groups) => assert_eq!(groups, vec![vec![9, 8]]),
        _ => panic!("expected listed glyphs"),
    }
    match pick_substitution(None, None, None, vec![vec![10], vec![11, 12]]) {
        Substitution::Glyphs(groups) => assert_eq!(groups, vec![vec![10], vec![11, 12]]),
        _ => panic!("expected grouped glyphs"),
    }
}

#[test]
fn surrogate_codepoints_are_not_characters_but_their_glyphs_load() {
    let data = face_data(4, vec![(0x41, 1), (0xD800, 2), (0x11_0000, 3)], vec![]);
    let font = Font::from_face_data(&data, 0).unwrap();
    assert_eq!(font.chars().len(), 1);
    assert_eq!(font.chars().get(&0x41), Some(&1));
    assert!(font.chars().get(&0xD800).is_none());
    let loaded: Vec<bool> = (0..4).map(|g| font.glyph_loaded(g)).collect();
    assert_eq!(loaded, vec![true, true, true, true]);
}
