use fontdue::table::cmap::TableCmap;
use fontdue::table::colr::TableColr;
use fontdue::table::cpal::TableCpal;
use fontdue::table::directory::TableDirectory;
use fontdue::table::glyf::{ComponentScale, GlyphOutline, TableGlyf};
use fontdue::table::head::TableHead;
use fontdue::table::hhea::TableHhea;
use fontdue::table::hmtx::TableHtmx;
use fontdue::table::kern::{Coverage, TableKern};
use fontdue::table::loca::{GlyphLocation, TableLoca};
use fontdue::table::maxp::TableMaxp;
use fontdue::table::parse::Stream as TableStream;
use fontdue::table::vhea::TableVhea;
use fontdue::table::vmtx::TableVmtx;

fn u16s(values: &[u16]) -> Vec<u8> {
    values.iter().flat_map(|v| v.to_be_bytes()).collect()
}

fn head_bytes(magic: u32, units_per_em: u16, index_to_loc_format: i16) -> Vec<u8> {
    let mut b = Vec::new();
    b.extend(u16s(&[1, 0]));
    b.extend(0x0001_8000u32.to_be_bytes());
    b.extend(0xDEAD_BEEFu32.to_be_bytes());
    b.extend(magic.to_be_bytes());
    b.extend(u16s(&[0x000B, units_per_em]));
    b.extend(5i64.to_be_bytes());
    b.extend((-6i64).to_be_bytes());
    b.extend((-10i16).to_be_bytes());
    b.extend((-20i16).to_be_bytes());
    b.extend(300i16.to_be_bytes());
    b.extend(400i16.to_be_bytes());
    b.extend(u16s(&[2, 9]));
    b.extend(2i16.to_be_bytes());
    b.extend(index_to_loc_format.to_be_bytes());
    b.extend(0i16.to_be_bytes());
    b
}

fn metrics_header_bytes(ascent: i16, descent: i16, line_gap: i16, long_metrics: u16) -> Vec<u8> {
    let mut b = Vec::new();
    b.extend(0x0001_0000u32.to_be_bytes());
    for v in [ascent, descent, line_gap] {
        b.extend(v.to_be_bytes());
    }
    b.extend(u16s(&[1200]));
    for v in [-5i16, -6, 900, 1, 0, 0] {
        b.extend(v.to_be_bytes());
    }
    b.extend([0u8; 8]);
    b.extend(0i16.to_be_bytes());
    b.extend(u16s(&[long_metrics]));
    b
}

#[test]
fn head_reads_its_fields() {
    let data = head_bytes(0x5F0F_3CF5, 2048, 1);
    let head = TableHead::new(&data).unwrap();
    assert_eq!((head.version_major, head.version_minor), (1, 0));
    assert_eq!(head.font_revision, 0x0001_8000);
    assert_eq!(head.checksum_adjustment, 0xDEAD_BEEF);
    assert_eq!(head.flags, 0x000B);
    assert_eq!(head.units_per_em, 2048);
    assert_eq!((head.created, head.modified), (5, -6));
    assert_eq!((head.xmin, head.ymin, head.xmax, head.ymax), (-10, -20, 300, 400));
    assert_eq!((head.mac_style, head.lowest_rec_ppem, head.font_direction_hint), (2, 9, 2));
    assert_eq!((head.index_to_loc_format, head.glyph_data_format), (1, 0));
}

#[test]
fn head_rejects_a_wrong_magic_number() {
    let data = head_bytes(0x1234_5678, 2048, 0);
    assert_eq!(TableHead::new(&data).err(), Some("Font.head: Incorrect magic number, is this a font?"));
}

#[test]
fn hhea_and_vhea_read_their_fields() {
    let data = metrics_header_bytes(800, -200, 90, 3);
    let hhea = TableHhea::new(&data).unwrap();
    assert_eq!((hhea.version, hhea.ascent, hhea.descent, hhea.line_gap), (0x0001_0000, 800, -200, 90));
    assert_eq!(hhea.advance_width_max, 1200);
    assert_eq!((hhea.min_left_side_bearing, hhea.min_right_side_bearing, hhea.xmax_extent), (-5, -6, 900));
    assert_eq!((hhea.caret_slope_rise, hhea.caret_slope_run, hhea.caret_offset), (1, 0, 0));
    assert_eq!(hhea.num_long_hmetrics, 3);
    let vhea = TableVhea::new(&data).unwrap();
    assert_eq!((vhea.ascent, vhea.descent, vhea.line_gap, vhea.num_long_vmetrics), (800, -200, 90, 3));
    assert_eq!((vhea.min_top_side_bearing, vhea.min_bottom_side_bearing, vhea.ymax_extent), (-5, -6, 900));
}

#[test]
fn metrics_headers_need_long_metrics() {
    let data = metrics_header_bytes(800, -200, 90, 0);
    assert_eq!(TableHhea::new(&data).err(), Some("Font.hhea: The number of long hmetrics must be geater than 0"));
    assert_eq!(TableVhea::new(&data).err(), Some("Font.vhea: The number of long hmetrics must be geater than 0"));
}

#[test]
fn maxp_reads_the_glyph_count() {
    let data = [0u8, 0, 0x50, 0, 0, 7];
    assert_eq!(TableMaxp::new(&data).unwrap().num_glyphs, 7);
}

#[test]
fn hmtx_and_vmtx_share_the_last_advance() {
    let mut data = Vec::new();
    data.extend(u16s(&[500]));
    data.extend(10i16.to_be_bytes());
    data.extend(u16s(&[600]));
    data.extend((-20i16).to_be_bytes());
    data.extend(30i16.to_be_bytes());
    let hmtx = TableHtmx::new(&data, 3, 2).unwrap();
    let h: Vec<(u16, i16)> = hmtx.hmetrics.iter().map(|m| (m.advance_width, m.left_side_bearing)).collect();
    assert_eq!(h, vec![(500, 10), (600, -20), (600, 30)]);
    let vmtx = TableVmtx::new(&data, 3, 2).unwrap();
    let v: Vec<(u16, i16)> = vmtx.vmetrics.iter().map(|m| (m.advance_height, m.top_side_bearing)).collect();
    assert_eq!(v, vec![(500, 10), (600, -20), (600, 30)]);
}

#[test]
fn loca_reads_short_and_long_offsets() {
    let short = u16s(&[0, 5, 5, 10]);
    let loca = TableLoca::new(&short, 0, 3).unwrap();
    assert_eq!(
        loca.locations,
        vec![
            GlyphLocation { offset: 0, length: 10 },
            GlyphLocation { offset: 10, length: 0 },
            GlyphLocation { offset: 10, length: 10 },
        ]
    );
    let mut long = Vec::new();
    for v in [0u32, 100, 164] {
        long.extend(v.to_be_bytes());
    }
    let loca = TableLoca::new(&long, 1, 2).unwrap();
    assert_eq!(loca.locations, vec![GlyphLocation { offset: 0, length: 100 }, GlyphLocation { offset: 100, length: 64 }]);
}

#[test]
fn loca_rejects_an_unknown_format() {
    assert_eq!(TableLoca::new(&[], 2, 3).err(), Some("Font.loca: Unknown index_to_loc_format"));
}

fn cpal_bytes(version: u16) -> Vec<u8> {
    let mut b = u16s(&[version, 2, 2, 3]);
    b.extend(12u32.to_be_bytes());
    b.extend(u16s(&[0, 1]));
    b.extend([1u8, 2, 3, 4, 5, 6, 7, 8, 9, 10, 11, 12]);
    b
}

#[test]
fn cpal_reads_palettes_and_colors() {
    let cpal = TableCpal::new(&cpal_bytes(0)).unwrap();
    assert_eq!(cpal.header.num_palette_entries, 2);
    assert_eq!(cpal.header.color_record_indicies, vec![0, 1]);
    assert_eq!(cpal.color_records.len(), 3);
    let c = cpal.get_color(1);
    assert_eq!((c.b, c.g, c.r, c.a), (5, 6, 7, 8));
    let c = cpal.get_color_from_palette(1, 1);
    assert_eq!((c.b, c.g, c.r, c.a), (9, 10, 11, 12));
}

#[test]
fn cpal_rejects_an_unknown_version() {
    assert_eq!(TableCpal::new(&cpal_bytes(2)).err(), Some("Font.cpal: Unsupported cpal table version."));
}

#[test]
fn colr_reads_its_records() {
    let mut b = u16s(&[0, 1]);
    b.extend(14u32.to_be_bytes());
    b.extend(20u32.to_be_bytes());
    b.extend(u16s(&[2]));
    b.extend(u16s(&[5, 0, 2]));
    b.extend(u16s(&[6, 0, 7, 1]));
    let colr = TableColr::new(&b).unwrap();
    assert_eq!(colr.header.num_layer_records, 2);
    let base = colr.base_glyph_records[0];
    assert_eq!((base.gid, base.first_layer_index, base.num_layers), (5, 0, 2));
    let layers: Vec<(u16, u16)> = colr.layer_records.iter().map(|l| (l.gid, l.palette_index)).collect();
    assert_eq!(layers, vec![(6, 0), (7, 1)]);
}

/// A kern table of version 0 with one horizontal format 0 subtable.
pub fn kern_format0() -> Vec<u8> {
    let mut b = u16s(&[0, 1, 0, 26]);
    b.extend([0u8, 1]);
    b.extend(u16s(&[2, 0, 0, 0]));
    b.extend(u16s(&[1, 2]));
    b.extend((-50i16).to_be_bytes());
    b.extend(u16s(&[3, 4]));
    b.extend(20i16.to_be_bytes());
    b
}

#[test]
fn kern_format0_reads_pairs() {
    let kern = TableKern::new(&kern_format0()).unwrap();
    assert_eq!(kern.horizontal_mappings.len(), 2);
    assert_eq!(kern.horizontal_mappings.get(&(1 << 16 | 2)), Some(&-50));
    assert_eq!(kern.horizontal_mappings.get(&(3 << 16 | 4)), Some(&20));
}

#[test]
fn kern_format0_later_record_wins() {
    let mut b = u16s(&[0, 1, 0, 26]);
    b.extend([0u8, 1]);
    b.extend(u16s(&[2, 0, 0, 0]));
    b.extend(u16s(&[1, 2]));
    b.extend((-50i16).to_be_bytes());
    b.extend(u16s(&[1, 2]));
    b.extend(7i16.to_be_bytes());
    let kern = TableKern::new(&b).unwrap();
    assert_eq!(kern.horizontal_mappings.len(), 1);
    assert_eq!(kern.horizontal_mappings.get(&(1 << 16 | 2)), Some(&7));
}

#[test]
fn kern_format3_reads_the_class_matrix() {
    let mut b = u16s(&[1, 0]);
    b.extend(1u32.to_be_bytes());
    b.extend(30u32.to_be_bytes());
    b.extend([0u8, 3]);
    b.extend(u16s(&[0]));
    b.extend(u16s(&[2]));
    b.extend([2u8, 2, 2, 0]);
    b.extend(0i16.to_be_bytes());
    b.extend((-30i16).to_be_bytes());
    b.extend([0u8, 1, 0, 1]);
    b.extend([0u8, 0, 0, 1]);
    let kern = TableKern::new(&b).unwrap();
    let m = &kern.horizontal_mappings;
    assert_eq!(m.len(), 4);
    assert_eq!(m.get(&(1 << 16 | 1)), Some(&-30));
    assert_eq!(m.get(&0), Some(&0));
    assert_eq!(m.get(&(1 << 16)), Some(&0));
}

#[test]
fn kern_skips_vertical_subtables_and_unknown_versions() {
    let mut b = u16s(&[0, 1, 0, 26]);
    b.extend([0u8, 0]);
    b.extend(u16s(&[0, 0, 0, 0]));
    assert!(TableKern::new(&b).is_none());
    assert!(TableKern::new(&u16s(&[2, 0])).is_none());
    assert!(TableKern::new(&[]).is_none());
}

#[test]
fn kern_coverage_bits() {
    assert_eq!(format!("{:?}", Coverage::aat(0x00)), "Coverage { is_horizontal: true }");
    assert_eq!(format!("{:?}", Coverage::aat(0x80)), "Coverage { is_horizontal: false }");
    assert_eq!(format!("{:?}", Coverage::ot(0x01)), "Coverage { is_horizontal: true }");
    assert_eq!(format!("{:?}", Coverage::ot(0x00)), "Coverage { is_horizontal: false }");
}

/// A cmap table with one Windows Unicode BMP subtable of format 4 mapping 'A'..='C' to 1..=3.
pub fn cmap_format4() -> Vec<u8> {
    let mut b = u16s(&[0, 1, 3, 1]);
    b.extend(12u32.to_be_bytes());
    b.extend(u16s(&[4, 32, 0, 4, 4, 1, 0]));
    b.extend(u16s(&[0x43, 0xFFFF]));
    b.extend(u16s(&[0]));
    b.extend(u16s(&[0x41, 0xFFFF]));
    b.extend(u16s(&[0xFFC0, 1]));
    b.extend(u16s(&[0, 0]));
    b
}

#[test]
fn cmap_format4_maps_segments() {
    let cmap = TableCmap::new(&cmap_format4()).unwrap();
    assert_eq!(cmap.map.get(0x41), Some(1));
    assert_eq!(cmap.map.get(0x43), Some(3));
    assert_eq!(cmap.map.get(0x44), None);
    // The last segment is not read.
    assert_eq!(cmap.map.get(0xFFFF), None);
}

#[test]
fn cmap_format0_maps_bytes() {
    let mut b = u16s(&[0, 1, 0, 3]);
    b.extend(12u32.to_be_bytes());
    b.extend(u16s(&[0, 262, 0]));
    let mut glyphs = vec![0u8; 256];
    glyphs[0x20] = 9;
    glyphs[0x41] = 4;
    b.extend(glyphs);
    let cmap = TableCmap::new(&b).unwrap();
    assert_eq!(cmap.map.get(0x41), Some(4));
    assert_eq!(cmap.map.get(0x20), Some(9));
    assert_eq!(cmap.map.get(0x42), Some(0));
    assert_eq!(cmap.map.get(0x100), None);
}

#[test]
fn cmap_format12_maps_groups_and_wins_over_earlier_subtables() {
    // A format 0 subtable first, then a format 12 one, which is ideal and is chosen.
    let mut b = u16s(&[0, 2, 0, 3]);
    b.extend(20u32.to_be_bytes());
    b.extend(u16s(&[3, 10]));
    b.extend(282u32.to_be_bytes());
    b.extend(u16s(&[0, 262, 0]));
    b.extend(vec![1u8; 256]);
    b.extend(u16s(&[12, 0]));
    b.extend(40u32.to_be_bytes());
    b.extend(0u32.to_be_bytes());
    b.extend(2u32.to_be_bytes());
    for v in [0x1F600u32, 0x1F602, 10, 0x41, 0x41, 3] {
        b.extend(v.to_be_bytes());
    }
    let cmap = TableCmap::new(&b).unwrap();
    assert_eq!(cmap.map.get(0x1F600), Some(10));
    assert_eq!(cmap.map.get(0x1F602), Some(12));
    assert_eq!(cmap.map.get(0x41), Some(3));
    assert_eq!(cmap.map.get(0x42), None);
}

#[test]
fn cmap_without_a_unicode_subtable_is_an_error() {
    let mut b = u16s(&[0, 1, 1, 0]);
    b.extend(12u32.to_be_bytes());
    b.extend(u16s(&[6, 12, 0, 0x41, 1, 5]));
    assert_eq!(TableCmap::new(&b).err(), Some("Font.cmap: Unable to find usable cmap table"));
}

#[test]
fn directory_lists_tables_by_tag() {
    let mut b = Vec::new();
    b.extend(0x0001_0000u32.to_be_bytes());
    b.extend(u16s(&[2, 0, 0, 0]));
    for (tag, offset, length) in [(b"head", 44u32, 54u32), (b"maxp", 98, 6)] {
        b.extend(tag);
        b.extend(0u32.to_be_bytes());
        b.extend(offset.to_be_bytes());
        b.extend(length.to_be_bytes());
    }
    let dir = TableDirectory::new(&b).unwrap();
    let head = dir.map.get(u32::from_be_bytes(*b"head")).unwrap();
    assert_eq!((head.offset, head.length), (44, 54));
    let maxp = dir.map.get(u32::from_be_bytes(*b"maxp")).unwrap();
    assert_eq!((maxp.offset, maxp.length), (98, 6));
    assert!(dir.map.get(u32::from_be_bytes(*b"cmap")).is_none());
}

#[test]
fn directory_errors() {
    assert_eq!(TableDirectory::new(&[0, 1]).err(), Some("Font: File isn't large enough to be a font."));
    assert_eq!(TableDirectory::new(b"ttcf\x00\x00").err(), Some("Font: Unsupported font type."));
}

/// A glyf table: glyph 0 empty, glyph 1 a triangle, glyph 2 a compound of glyph 1.
pub fn glyf_bytes() -> (Vec<u8>, Vec<GlyphLocation>) {
    let mut b = Vec::new();
    for v in [1i16, 0, 0, 100, 100] {
        b.extend(v.to_be_bytes());
    }
    b.extend(u16s(&[2, 0]));
    b.extend([1u8, 1, 1]);
    for v in [0i16, 100, -100, 0, 0, 100] {
        b.extend(v.to_be_bytes());
    }
    b.push(0);
    let compound_at = b.len();
    for v in [-1i16, 0, 0, 50, 50] {
        b.extend(v.to_be_bytes());
    }
    // ARG_1_AND_2_ARE_WORDS | ARGS_ARE_XY_VALUES | WE_HAVE_A_SCALE
    b.extend(u16s(&[0x0001 | 0x0002 | 0x0008, 1]));
    b.extend(10i16.to_be_bytes());
    b.extend((-10i16).to_be_bytes());
    b.extend(0x2000i16.to_be_bytes());
    let end = b.len();
    let locations = vec![
        GlyphLocation { offset: 0, length: 0 },
        GlyphLocation { offset: 0, length: compound_at },
        GlyphLocation { offset: compound_at, length: end - compound_at },
    ];
    (b, locations)
}

#[test]
fn glyf_reads_simple_and_compound_glyphs() {
    let (b, locations) = glyf_bytes();
    let glyf = TableGlyf::new(&b, &locations).unwrap();
    assert_eq!(glyf.glyphs.len(), 3);
    assert_eq!(glyf.glyphs[0].num_contours, 0);
    assert_eq!(glyf.glyphs[0].outline, GlyphOutline::Simple(vec![]));

    let triangle = &glyf.glyphs[1];
    assert_eq!((triangle.num_contours, triangle.xmax, triangle.ymax), (1, 100, 100));
    match &triangle.outline {
        GlyphOutline::Simple(points) => {
            let xy: Vec<(i16, i16)> = points.iter().map(|p| (p.x, p.y)).collect();
            assert_eq!(xy, vec![(0, 0), (100, 0), (0, 100)]);
            assert!(points[0].start_point && !points[0].end_point);
            assert!(points[2].end_point && !points[2].start_point);
        },
        other => panic!("expected a simple glyph, got {:?}", other),
    }

    let compound = &glyf.glyphs[2];
    assert_eq!(compound.num_contours, -1);
    match &compound.outline {
        GlyphOutline::Compound(components, error) => {
            assert_eq!(*error, None);
            assert_eq!(components.len(), 1);
            assert_eq!(components[0].glyph_index, 1);
            assert_eq!((components[0].cx, components[0].cy), (10, -10));
            assert_eq!(components[0].scale, ComponentScale::Uniform(0x2000));
        },
        other => panic!("expected a compound glyph, got {:?}", other),
    }
}

#[test]
fn table_stream_reads_until_the_end() {
    let data = [0x01u8, 0x02, 0x03, 0xFF, 0xFE, 0x10, 0x20];
    let mut s = TableStream::new(&data);
    assert_eq!(s.read_u16(), Some(0x0102));
    assert_eq!(s.read_u8(), Some(3));
    assert_eq!(s.read_i16(), Some(-2));
    assert_eq!(s.offset(), 5);
    assert_eq!(s.read_u32(), None);
    assert_eq!(s.offset(), 5);
    assert_eq!(s.read_u16(), Some(0x1020));
    assert_eq!(s.read_u8(), None);
    s.reset();
    assert_eq!(s.read_tag(), Some([1, 2, 3, 0xFF]));
    s.seek(3);
    assert_eq!(s.read_i8(), Some(-1));
    s.skip(1);
    assert_eq!(s.offset(), 5);
}

#[test]
fn table_stream_slices() {
    let data = [0x00u8, 0x01, 0x00, 0x02, 0xFF, 0xFF, 0x00, 0x05];
    let mut s = TableStream::new(&data);
    let words = s.read_u16_slice(3).unwrap();
    assert_eq!(words.get(0), Some(1));
    assert_eq!(words.get(2), Some(0xFFFF));
    assert_eq!(words.get(3), None);
    s.reset();
    let signed = s.read_i16_slice(3).unwrap();
    assert_eq!(signed.get(2), Some(-1));
    s.reset();
    let longs = s.read_u32_slice(2).unwrap();
    assert_eq!(longs.get(1), Some(0xFFFF_0005));
    s.reset();
    let signed_longs = s.read_i32_slice(2).unwrap();
    assert_eq!(signed_longs.get(0), Some(0x0001_0002));
    s.reset();
    let bytes = s.read_u8_slice(2).unwrap();
    assert_eq!(bytes.get(1), Some(1));
    let signed_bytes = s.read_i8_slice(3).unwrap();
    assert_eq!(signed_bytes.get(2), Some(-1));
    assert!(s.read_u8_slice(4).is_none());
    assert!(s.read_u32_slice(1).is_none());
}

fn compound_glyph(flags: u16) -> (Vec<u8>, Vec<GlyphLocation>) {
    let mut b = Vec::new();
    for v in [1i16, 0, 0, 100, 100, 0, 0] {
        b.extend(v.to_be_bytes());
    }
    b.extend([1u8]);
    b.extend([0u8, 0, 0, 0, 0]);
    let at = b.len();
    for v in [-1i16, 0, 0, 50, 50] {
        b.extend(v.to_be_bytes());
    }
    b.extend(u16s(&[flags, 0]));
    b.extend(u16s(&[1, 2]));
    let end = b.len();
    (b, vec![GlyphLocation { offset: 0, length: at }, GlyphLocation { offset: at, length: end - at }])
}

#[test]
fn glyf_rejects_a_bad_bounding_box() {
    let mut b = Vec::new();
    for v in [1i16, 10, 0, 5, 100, 0, 0] {
        b.extend(v.to_be_bytes());
    }
    b.extend([1u8, 0, 0, 0, 0]);
    let locations = vec![GlyphLocation { offset: 0, length: b.len() }];
    assert_eq!(
        TableGlyf::new(&b, &locations).err(),
        Some("Font.glyf: Bad glyph bounding box values (xmin > xmax || ymin > ymax)")
    );
}

#[test]
fn glyf_rejects_matched_point_components() {
    // Word arguments that are point numbers, not offsets.
    let (b, locations) = compound_glyph(0x0001);
    assert_eq!(TableGlyf::new(&b, &locations).err(), Some("Font.glyf: Component matched point numbers are unsupported"));
}

#[test]
fn glyf_rejects_scaled_component_offsets() {
    let (b, locations) = compound_glyph(0x0003 | 0x0800);
    assert_eq!(TableGlyf::new(&b, &locations).err(), Some("Font.glyf: Scaled component offset is unsupported"));
    // The same offsets, unscaled, are read.
    let (b, locations) = compound_glyph(0x0003);
    let glyf = TableGlyf::new(&b, &locations).unwrap();
    assert_eq!(glyf.glyphs.len(), 2);
}

#[test]
fn kern_ot_single_pair_from_the_bytes() {
    let kern = [
        0u8, 0, 0, 1, 0, 0, 0, 20, 0x00, 0x01, 0, 1, 0, 0, 0, 0, 0, 0, 0, 1, 0, 2, 0xFF, 0xCE,
    ];
    let t = TableKern::new(&kern).unwrap();
    assert_eq!(t.horizontal_mappings.len(), 1);
    assert_eq!(t.horizontal_mappings.get(&0x0001_0002), Some(&-50));
    assert!(TableKern::new(&[0, 2]).is_none());
}

#[test]
fn kern_aat_skips_other_formats_by_length() {
    let mut b = u16s(&[1, 0]);
    b.extend(2u32.to_be_bytes());
    // A format 2 subtable of 14 bytes, passed over by its length.
    b.extend(14u32.to_be_bytes());
    b.extend([0u8, 2, 0, 0]);
    b.extend([9u8; 6]);
    // A horizontal format 0 subtable with one pair.
    b.extend(22u32.to_be_bytes());
    b.extend([0u8, 0, 0, 0]);
    b.extend(u16s(&[1, 0, 0, 0, 1, 2]));
    b.extend((-50i16).to_be_bytes());
    let t = TableKern::new(&b).unwrap();
    assert_eq!(t.horizontal_mappings.len(), 1);
    assert_eq!(t.horizontal_mappings.get(&(1 << 16 | 2)), Some(&-50));
}

#[test]
fn kern_aat_length_past_the_data_reads_nothing() {
    let mut b = u16s(&[1, 0]);
    b.extend(2u32.to_be_bytes());
    b.extend(0xFFFF_FFF0u32.to_be_bytes());
    b.extend([0u8, 2, 0, 0]);
    assert!(TableKern::new(&b).is_none());
}

#[test]
fn glyf_reports_a_component_glyph_error_before_later_glyphs() {
    let mut b = Vec::new();
    // Glyph 0: a compound glyph placing glyph 2.
    for v in [-1i16, 0, 0, 50, 50] {
        b.extend(v.to_be_bytes());
    }
    b.extend(u16s(&[0x0003, 2, 1, 2]));
    let g1 = b.len();
    // Glyph 1: a compound glyph whose component uses matched point numbers.
    for v in [-1i16, 0, 0, 50, 50] {
        b.extend(v.to_be_bytes());
    }
    b.extend(u16s(&[0x0001, 0, 1, 2]));
    let g2 = b.len();
    // Glyph 2: a simple glyph with a bounding box out of order.
    for v in [1i16, 10, 0, 5, 100, 0, 0] {
        b.extend(v.to_be_bytes());
    }
    b.extend([1u8, 0, 0, 0, 0]);
    let end = b.len();
    let locations = vec![
        GlyphLocation { offset: 0, length: g1 },
        GlyphLocation { offset: g1, length: g2 - g1 },
        GlyphLocation { offset: g2, length: end - g2 },
    ];
    assert_eq!(
        TableGlyf::new(&b, &locations).err(),
        Some("Font.glyf: Bad glyph bounding box values (xmin > xmax || ymin > ymax)")
    );
}
