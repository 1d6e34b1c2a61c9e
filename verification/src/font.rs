//! Loading a font face with ttf-parser: its name, its kerning pairs, the mapping from characters
//! to glyphs and the set of glyphs whose outlines are worth building.
use crate::table::gsub::{gsub_subtable_count_of, lemma_ligature_glyphs_produced, ligature_groups_of, single_delta_glyphs_of, single_delta_ranges_of, substitute_glyphs_of, gsub_glyphs_of, gsub_substitutions, insert_substitutions, lemma_gsub_glyphs, substitutions_glyphs, Substitution};
use crate::table::kern::{kern_fits, kern_pairs, pair_key, TableKern};
use crate::FontResult;
use std::collections::{HashMap, HashSet};
use ttf_parser::{Face, PlatformId, Tag};
use vstd::prelude::*;

verus! {

broadcast use vstd::std_specs::hash::group_hash_axioms;

/// Why ttf-parser refused a face: the variants of its `FaceParsingError`.
#[derive(Copy, Clone, Debug, PartialEq, Eq, Structural)]
pub enum FaceError {
    MalformedFont,
    UnknownMagic,
    FaceIndexOutOfBounds,
    NoHeadTable,
    NoHheaTable,
    NoMaxpTable,
}

/// What `ttf_parser::Face::parse` reports for the given data and face index: `None` when it
/// accepts the face, else the reason it refuses it.
pub uninterp spec fn face_parse_error(data: Seq<u8>, index: u32) -> Option<FaceError>;

/// `ttf_parser::Face::parse`: parses the face at `index` of the font (collection) data. Whether it
/// succeeds, and which error it reports, is a function of the data and the index; what the face
/// holds is read by the other wrappers of this module.
#[verifier::external_body]
fn face_parse(data: &[u8], index: u32) -> (r: Result<(), FaceError>)
    ensures
        match r {
            Ok(_) => face_parse_error(data@, index) is None,
            Err(e) => face_parse_error(data@, index) == Some(e),
        },
{
    match Face::parse(data, index) {
        Ok(_) => Ok(()),
        Err(ttf_parser::FaceParsingError::MalformedFont) => Err(FaceError::MalformedFont),
        Err(ttf_parser::FaceParsingError::UnknownMagic) => Err(FaceError::UnknownMagic),
        Err(ttf_parser::FaceParsingError::FaceIndexOutOfBounds) => Err(FaceError::FaceIndexOutOfBounds),
        Err(ttf_parser::FaceParsingError::NoHeadTable) => Err(FaceError::NoHeadTable),
        Err(ttf_parser::FaceParsingError::NoHheaTable) => Err(FaceError::NoHheaTable),
        Err(ttf_parser::FaceParsingError::NoMaxpTable) => Err(FaceError::NoMaxpTable),
    }
}

/// The message a refused face is reported with.
pub open spec fn error_message(error: FaceError) -> &'static str {
    match error {
        FaceError::MalformedFont => "An attempt to read out of bounds detected.",
        FaceError::UnknownMagic => "Face data must start with 0x00010000, 0x74727565, 0x4F54544F or 0x74746366.",
        FaceError::FaceIndexOutOfBounds => "The face index is larger than the number of faces in the font.",
        FaceError::NoHeadTable => "The head table is missing or malformed.",
        FaceError::NoHheaTable => "The hhea table is missing or malformed.",
        FaceError::NoMaxpTable => "The maxp table is missing or malformed.",
    }
}

/// Converts a face parsing error into the message it is reported with.
pub fn convert_error(error: FaceError) -> (r: &'static str)
    ensures
        r == error_message(error),
{
    match error {
        FaceError::MalformedFont => "An attempt to read out of bounds detected.",
        FaceError::UnknownMagic => "Face data must start with 0x00010000, 0x74727565, 0x4F54544F or 0x74746366.",
        FaceError::FaceIndexOutOfBounds => "The face index is larger than the number of faces in the font.",
        FaceError::NoHeadTable => "The head table is missing or malformed.",
        FaceError::NoHheaTable => "The hhea table is missing or malformed.",
        FaceError::NoMaxpTable => "The maxp table is missing or malformed.",
    }
}

// ---- the name table ----

/// The platform a name record is encoded for.
#[derive(Copy, Clone, Debug, PartialEq, Eq, Structural)]
pub enum Platform {
    Unicode,
    Macintosh,
    Iso,
    Windows,
    Custom,
}

/// A record of the name table, with its string data.
#[derive(Clone, Debug)]
pub struct NameRecord {
    pub platform: Platform,
    pub encoding_id: u16,
    pub name_id: u16,
    pub name: Vec<u8>,
}

/// Unicode names: any of the Unicode platform, and the symbol (0) and Unicode BMP (1) encodings
/// of the Windows platform.
pub open spec fn unicode_encoding(platform: Platform, encoding_id: u16) -> bool {
    match platform {
        Platform::Unicode => true,
        Platform::Windows => encoding_id == 0 || encoding_id == 1,
        _ => false,
    }
}

impl NameRecord {
    /// Whether the record's string is UTF-16 (ttf-parser's `Name::is_unicode`).
    pub fn is_unicode(&self) -> (r: bool)
        ensures
            r == unicode_encoding(self.platform, self.encoding_id),
    {
        match self.platform {
            Platform::Unicode => true,
            Platform::Windows => self.encoding_id == 0 || self.encoding_id == 1,
            _ => false,
        }
    }
}

/// A name record as plain values: its platform, encoding ID, name ID and string data.
pub open spec fn record_view(record: NameRecord) -> (Platform, u16, u16, Seq<u8>) {
    (record.platform, record.encoding_id, record.name_id, record.name@)
}

/// The number of records of the name table of the face at `index` of `data`, as ttf-parser reads
/// it; 0 when the face cannot be parsed.
pub uninterp spec fn name_count_of(data: Seq<u8>, index: u32) -> u16;

/// The record at position `i` of the name table of the face at `index` of `data`, as ttf-parser
/// reads it; `None` when it cannot be read.
pub uninterp spec fn name_record_of(data: Seq<u8>, index: u32, i: u16) -> Option<(Platform, u16, u16, Seq<u8>)>;

/// `ttf_parser::name::Names::len` on the face `ttf_parser::Face::parse` reads from the data: the
/// number of records of its name table, a function of the data and the face index.
#[verifier::external_body]
fn face_name_count(data: &[u8], index: u32) -> (r: u16)
    ensures
        r == name_count_of(data@, index),
{
    match Face::parse(data, index) {
        Ok(face) => face.names().len(),
        Err(_) => 0,
    }
}

/// `ttf_parser::name::Names::get` on the face `ttf_parser::Face::parse` reads from the data: the
/// record at position `i` of its name table, a function of the data, the face index and `i`.
#[verifier::external_body]
fn face_name(data: &[u8], index: u32, i: u16) -> (r: Option<NameRecord>)
    ensures
        match r {
            Some(n) => name_record_of(data@, index, i) == Some(record_view(n)),
            None => name_record_of(data@, index, i) is None,
        },
{
    let n = Face::parse(data, index).ok()?.names().get(i)?;
    let platform = match n.platform_id {
        PlatformId::Unicode => Platform::Unicode,
        PlatformId::Macintosh => Platform::Macintosh,
        PlatformId::Iso => Platform::Iso,
        PlatformId::Windows => Platform::Windows,
        PlatformId::Custom => Platform::Custom,
    };
    Some(NameRecord { platform, encoding_id: n.encoding_id, name_id: n.name_id, name: n.name.to_vec() })
}

/// The name records from position `i` on, up to the first that cannot be read.
pub open spec fn names_from(data: Seq<u8>, index: u32, i: int, count: int) -> Seq<(Platform, u16, u16, Seq<u8>)>
    decreases count - i,
{
    if i < 0 || i >= count {
        Seq::empty()
    } else {
        match name_record_of(data, index, i as u16) {
            None => Seq::empty(),
            Some(record) => seq![record].add(names_from(data, index, i + 1, count)),
        }
    }
}

/// The records of the face's name table in order, up to the first that cannot be read: those
/// that iterating over `Face::names` yields.
pub open spec fn names_of(data: Seq<u8>, index: u32) -> Seq<(Platform, u16, u16, Seq<u8>)> {
    names_from(data, index, 0, name_count_of(data, index) as int)
}

/// Reads the records of the face's name table in order, up to the first that cannot be read.
fn face_names(data: &[u8], index: u32) -> (r: Vec<NameRecord>)
    ensures
        r@.map_values(|n: NameRecord| record_view(n)) == names_of(data@, index),
{
    let count = face_name_count(data, index);
    let mut records: Vec<NameRecord> = Vec::new();
    let mut i: u16 = 0;
    assert(records@.map_values(|n: NameRecord| record_view(n)) =~= Seq::empty());
    while i < count
        invariant
            i <= count,
            count == name_count_of(data@, index),
            records@.map_values(|n: NameRecord| record_view(n)).add(names_from(data@, index, i as int, count as int))
                == names_of(data@, index),
        decreases count - i,
    {
        let ghost before = records@;
        match face_name(data, index, i) {
            Some(record) => {
                records.push(record);
                proof {
                    let rest = names_from(data@, index, i + 1, count as int);
                    assert(records@.map_values(|n: NameRecord| record_view(n))
                        =~= before.map_values(|n: NameRecord| record_view(n)).push(record_view(record)));
                    assert(records@.map_values(|n: NameRecord| record_view(n)).add(rest)
                        =~= before.map_values(|n: NameRecord| record_view(n)).add(seq![record_view(record)].add(rest)));
                }
            },
            None => {
                assert(records@.map_values(|n: NameRecord| record_view(n))
                    =~= records@.map_values(|n: NameRecord| record_view(n)).add(names_from(data@, index, i as int, count as int)));
                return records;
            },
        }
        i = i + 1;
    }
    assert(records@.map_values(|n: NameRecord| record_view(n))
        =~= records@.map_values(|n: NameRecord| record_view(n)).add(names_from(data@, index, i as int, count as int)));
    records
}

/// Whether a record holds the full name (name ID 4) in a Unicode encoding.
pub open spec fn is_full_name(record: (Platform, u16, u16, Seq<u8>)) -> bool {
    record.2 == 4 && unicode_encoding(record.0, record.1)
}

/// The index of the first full-name record from `from` on.
pub open spec fn first_full_name(records: Seq<(Platform, u16, u16, Seq<u8>)>, from: int) -> Option<int>
    decreases records.len() - from,
{
    if from < 0 || from >= records.len() {
        None
    } else if is_full_name(records[from]) {
        Some(from)
    } else {
        first_full_name(records, from + 1)
    }
}

/// The face's name: the string of the first full-name record, `None` when there is no such
/// record or its data is not well-formed UTF-16.
pub open spec fn face_name_of(records: Seq<(Platform, u16, u16, Seq<u8>)>) -> Option<Seq<char>> {
    match first_full_name(records, 0) {
        None => None,
        Some(i) => crate::unicode::utf16_chars(records[i].3, 0),
    }
}

/// Finds the face's name among the records of its name table.
pub fn convert_name(records: &Vec<NameRecord>) -> (r: Option<String>)
    ensures
        match r {
            Some(s) => face_name_of(records@.map_values(|n: NameRecord| record_view(n))) == Some(s@),
            None => face_name_of(records@.map_values(|n: NameRecord| record_view(n))) is None,
        },
{
    let ghost views = records@.map_values(|n: NameRecord| record_view(n));
    let mut i: usize = 0;
    while i < records.len()
        invariant
            i <= records@.len(),
            views == records@.map_values(|n: NameRecord| record_view(n)),
            first_full_name(views, 0) == first_full_name(views, i as int),
        decreases records@.len() - i,
    {
        let record = &records[i];
        assert(views[i as int] == record_view(records@[i as int]));
        if record.name_id == 4 && record.is_unicode() {
            if crate::unicode::utf16_valid(record.name.as_slice()) {
                return Some(crate::unicode::decode_utf16(record.name.as_slice()));
            } else {
                return None;
            }
        }
        i = i + 1;
    }
    None
}

// ---- the cmap table ----

/// The number of encoding records of the cmap table of the face at `index` of `data`, as
/// ttf-parser reads it; `None` when the face cannot be parsed or has no cmap table.
pub uninterp spec fn cmap_subtable_count_of(data: Seq<u8>, index: u32) -> Option<u16>;

/// The codepoints the cmap subtable of encoding record `s` maps, in the order ttf-parser reports
/// them; `None` when the subtable cannot be read.
pub uninterp spec fn cmap_codepoints_of(data: Seq<u8>, index: u32, s: u16) -> Option<Seq<u32>>;

/// The glyph the cmap subtable of encoding record `s` maps `codepoint` to, as ttf-parser reads it;
/// `None` when it maps it to none or the subtable cannot be read.
pub uninterp spec fn cmap_glyph_of(data: Seq<u8>, index: u32, s: u16, codepoint: u32) -> Option<u16>;

/// `ttf_parser::cmap::Subtables::len` on the face `ttf_parser::Face::parse` reads from the data: a
/// function of the data and the face index.
#[verifier::external_body]
fn cmap_subtable_count(data: &[u8], index: u32) -> (r: Option<u16>)
    ensures
        r == cmap_subtable_count_of(data@, index),
{
    Some(Face::parse(data, index).ok()?.tables().cmap?.subtables.len())
}

/// Appends a codepoint to a list.
fn push_codepoint(list: &mut Vec<u32>, codepoint: u32)
    ensures
        final(list)@ == old(list)@.push(codepoint),
{
    list.push(codepoint);
}

/// `ttf_parser::cmap::Subtable::codepoints` on the subtable `ttf_parser::cmap::Subtables::get`
/// gives for encoding record `s` of the parsed face: the codepoints in the order it reports them,
/// a function of the data, the face index and `s`.
#[verifier::external_body]
fn subtable_codepoints(data: &[u8], index: u32, s: u16) -> (r: Option<Vec<u32>>)
    ensures
        match r {
            Some(list) => cmap_codepoints_of(data@, index, s) == Some(list@),
            None => cmap_codepoints_of(data@, index, s) is None,
        },
{
    let subtable = Face::parse(data, index).ok()?.tables().cmap?.subtables.get(s)?;
    let mut list: Vec<u32> = Vec::new();
    subtable.codepoints(|codepoint| push_codepoint(&mut list, codepoint));
    Some(list)
}

/// `ttf_parser::cmap::Subtable::glyph_index` on the subtable of encoding record `s` of the parsed
/// face, for each of the codepoints in turn: a function of the data, the face index, `s` and the
/// codepoint.
#[verifier::external_body]
fn subtable_glyph_indices(data: &[u8], index: u32, s: u16, codepoints: &Vec<u32>) -> (r: Vec<Option<u16>>)
    ensures
        r@.len() == codepoints@.len(),
        forall|j: int| 0 <= j < r@.len() ==> #[trigger] r@[j] == cmap_glyph_of(data@, index, s, codepoints@[j]),
{
    let cmap = Face::parse(data, index).ok().and_then(|face| face.tables().cmap);
    let subtable = cmap.and_then(|table| table.subtables.get(s));
    codepoints.iter().map(|&c| subtable.and_then(|t| t.glyph_index(c)).map(|g| g.0)).collect()
}

/// The (codepoint, glyph) pairs of the first `n` codepoints of subtable `s` that it maps to a
/// glyph, in order.
pub open spec fn subtable_pairs(data: Seq<u8>, index: u32, s: u16, codepoints: Seq<u32>, n: int) -> Seq<(u32, u16)>
    decreases n,
{
    if n <= 0 {
        Seq::empty()
    } else {
        let prev = subtable_pairs(data, index, s, codepoints, n - 1);
        match cmap_glyph_of(data, index, s, codepoints[n - 1]) {
            Some(glyph) => prev.push((codepoints[n - 1], glyph)),
            None => prev,
        }
    }
}

/// The pairs of the subtables from `s` on, up to the first subtable that cannot be read.
pub open spec fn mappings_from(data: Seq<u8>, index: u32, s: int, count: int) -> Seq<(u32, u16)>
    decreases count - s,
{
    if s < 0 || s >= count {
        Seq::empty()
    } else {
        match cmap_codepoints_of(data, index, s as u16) {
            None => Seq::empty(),
            Some(cps) => subtable_pairs(data, index, s as u16, cps, cps.len() as int).add(
                mappings_from(data, index, s + 1, count),
            ),
        }
    }
}

/// The (codepoint, glyph) pairs of the face's cmap subtables, subtable after subtable (up to the
/// first subtable that cannot be read), each in the order the subtable reports its codepoints;
/// codepoints the subtable maps to no glyph are left out.
pub open spec fn mappings_of(data: Seq<u8>, index: u32) -> Seq<(u32, u16)> {
    match cmap_subtable_count_of(data, index) {
        None => Seq::empty(),
        Some(n) => mappings_from(data, index, 0, n as int),
    }
}

/// Reads the (codepoint, glyph) pairs of the face's cmap subtables.
fn face_mappings(data: &[u8], index: u32) -> (r: Vec<(u32, u16)>)
    ensures
        r@ == mappings_of(data@, index),
{
    let mut pairs: Vec<(u32, u16)> = Vec::new();
    let count = match cmap_subtable_count(data, index) {
        Some(n) => n,
        None => return pairs,
    };
    let ghost total = mappings_of(data@, index);
    let mut i: u16 = 0;
    while i < count
        invariant
            i <= count,
            total == mappings_of(data@, index),
            total == mappings_from(data@, index, 0, count as int),
            pairs@.add(mappings_from(data@, index, i as int, count as int)) == total,
        decreases count - i,
    {
        let codepoints = match subtable_codepoints(data, index, i) {
            Some(list) => list,
            None => {
                assert(pairs@ =~= pairs@.add(mappings_from(data@, index, i as int, count as int)));
                return pairs;
            },
        };
        let glyphs = subtable_glyph_indices(data, index, i, &codepoints);
        let ghost base = pairs@;
        let mut j: usize = 0;
        while j < codepoints.len()
            invariant
                j <= codepoints@.len(),
                glyphs@.len() == codepoints@.len(),
                forall|k: int| 0 <= k < glyphs@.len() ==> #[trigger] glyphs@[k] == cmap_glyph_of(data@, index, i, codepoints@[k]),
                pairs@ == base.add(subtable_pairs(data@, index, i, codepoints@, j as int)),
            decreases codepoints@.len() - j,
        {
            if let Some(glyph) = glyphs[j] {
                pairs.push((codepoints[j], glyph));
            }
            proof {
                assert(glyphs@[j as int] == cmap_glyph_of(data@, index, i, codepoints@[j as int]));
                assert(pairs@ =~= base.add(subtable_pairs(data@, index, i, codepoints@, j + 1)));
            }
            j = j + 1;
        }
        proof {
            let sub = subtable_pairs(data@, index, i, codepoints@, codepoints@.len() as int);
            let rest = mappings_from(data@, index, i + 1, count as int);
            assert(mappings_from(data@, index, i as int, count as int) == sub.add(rest));
            assert(base.add(sub.add(rest)) =~= base.add(sub).add(rest));
        }
        i = i + 1;
    }
    assert(pairs@ =~= pairs@.add(mappings_from(data@, index, i as int, count as int)));
    pairs
}

// ---- the face's metrics ----

/// What `ttf_parser::Face::number_of_glyphs` gives for the face at `index` of `data`: the glyph count of the maxp table, never zero.
pub uninterp spec fn glyph_count_of(data: Seq<u8>, index: u32) -> u16;

/// What `ttf_parser::Face::units_per_em` gives for the face at `index` of `data`: the units per em of the head table, from 16 to 16384.
pub uninterp spec fn units_per_em_of(data: Seq<u8>, index: u32) -> u16;

/// What `ttf_parser::Face::ascender` gives for the face at `index` of `data`: the face's horizontal ascender.
pub uninterp spec fn ascender_of(data: Seq<u8>, index: u32) -> i16;

/// What `ttf_parser::Face::descender` gives for the face at `index` of `data`: the face's horizontal descender.
pub uninterp spec fn descender_of(data: Seq<u8>, index: u32) -> i16;

/// What `ttf_parser::Face::line_gap` gives for the face at `index` of `data`: the face's horizontal line gap.
pub uninterp spec fn line_gap_of(data: Seq<u8>, index: u32) -> i16;

/// What `ttf_parser::Face::vertical_ascender` gives for the face at `index` of `data`: the face's vertical ascender, `None` without a vhea table.
pub uninterp spec fn vertical_ascender_of(data: Seq<u8>, index: u32) -> Option<i16>;

/// What `ttf_parser::Face::vertical_descender` gives for the face at `index` of `data`: the face's vertical descender, `None` without a vhea table.
pub uninterp spec fn vertical_descender_of(data: Seq<u8>, index: u32) -> Option<i16>;

/// What `ttf_parser::Face::vertical_line_gap` gives for the face at `index` of `data`: the face's vertical line gap, `None` without a vhea table.
pub uninterp spec fn vertical_line_gap_of(data: Seq<u8>, index: u32) -> Option<i16>;

/// `ttf_parser::Face::number_of_glyphs` on the face `ttf_parser::Face::parse` reads from the data: the glyph count of the maxp table, never zero,
/// a function of the data and the face index.
#[verifier::external_body]
fn face_number_of_glyphs(data: &[u8], index: u32) -> (r: u16)
    requires
        face_parse_error(data@, index) is None,
    ensures
        r == glyph_count_of(data@, index),
        r > 0,
{
    match Face::parse(data, index) {
        Ok(face) => face.number_of_glyphs(),
        Err(_) => 1,
    }
}

/// `ttf_parser::Face::units_per_em` on the face `ttf_parser::Face::parse` reads from the data: the units per em of the head table, from 16 to 16384,
/// a function of the data and the face index.
#[verifier::external_body]
fn face_units_per_em(data: &[u8], index: u32) -> (r: u16)
    requires
        face_parse_error(data@, index) is None,
    ensures
        r == units_per_em_of(data@, index),
        16 <= r <= 16384,
{
    match Face::parse(data, index) {
        Ok(face) => face.units_per_em(),
        Err(_) => 16,
    }
}

/// `ttf_parser::Face::ascender` on the face `ttf_parser::Face::parse` reads from the data: the face's horizontal ascender,
/// a function of the data and the face index.
#[verifier::external_body]
fn face_ascender(data: &[u8], index: u32) -> (r: i16)
    ensures
        r == ascender_of(data@, index),
{
    match Face::parse(data, index) {
        Ok(face) => face.ascender(),
        Err(_) => 0,
    }
}

/// `ttf_parser::Face::descender` on the face `ttf_parser::Face::parse` reads from the data: the face's horizontal descender,
/// a function of the data and the face index.
#[verifier::external_body]
fn face_descender(data: &[u8], index: u32) -> (r: i16)
    ensures
        r == descender_of(data@, index),
{
    match Face::parse(data, index) {
        Ok(face) => face.descender(),
        Err(_) => 0,
    }
}

/// `ttf_parser::Face::line_gap` on the face `ttf_parser::Face::parse` reads from the data: the face's horizontal line gap,
/// a function of the data and the face index.
#[verifier::external_body]
fn face_line_gap(data: &[u8], index: u32) -> (r: i16)
    ensures
        r == line_gap_of(data@, index),
{
    match Face::parse(data, index) {
        Ok(face) => face.line_gap(),
        Err(_) => 0,
    }
}

/// `ttf_parser::Face::vertical_ascender` on the face `ttf_parser::Face::parse` reads from the data: the face's vertical ascender, `None` without a vhea table,
/// a function of the data and the face index.
#[verifier::external_body]
fn face_vertical_ascender(data: &[u8], index: u32) -> (r: Option<i16>)
    ensures
        r == vertical_ascender_of(data@, index),
{
    match Face::parse(data, index) {
        Ok(face) => face.vertical_ascender(),
        Err(_) => None,
    }
}

/// `ttf_parser::Face::vertical_descender` on the face `ttf_parser::Face::parse` reads from the data: the face's vertical descender, `None` without a vhea table,
/// a function of the data and the face index.
#[verifier::external_body]
fn face_vertical_descender(data: &[u8], index: u32) -> (r: Option<i16>)
    ensures
        r == vertical_descender_of(data@, index),
{
    match Face::parse(data, index) {
        Ok(face) => face.vertical_descender(),
        Err(_) => None,
    }
}

/// `ttf_parser::Face::vertical_line_gap` on the face `ttf_parser::Face::parse` reads from the data: the face's vertical line gap, `None` without a vhea table,
/// a function of the data and the face index.
#[verifier::external_body]
fn face_vertical_line_gap(data: &[u8], index: u32) -> (r: Option<i16>)
    ensures
        r == vertical_line_gap_of(data@, index),
{
    match Face::parse(data, index) {
        Ok(face) => face.vertical_line_gap(),
        Err(_) => None,
    }
}

/// The data of the table with the given tag (the tag's four bytes read as a big-endian number)
/// of the face at `index` of `data`, as ttf-parser finds it; `None` when the face has no such
/// table, its record points past the data, or the face cannot be parsed.
pub uninterp spec fn table_of(data: Seq<u8>, index: u32, tag: u32) -> Option<Seq<u8>>;

/// `ttf_parser::RawFace::table` on the face `ttf_parser::Face::parse` reads from the data: a copy
/// of the table's data, a function of the data, the face index and the tag.
#[verifier::external_body]
fn face_table(data: &[u8], index: u32, tag: u32) -> (r: Option<Vec<u8>>)
    ensures
        match r {
            Some(t) => table_of(data@, index, tag) == Some(t@),
            None => table_of(data@, index, tag) is None,
        },
{
    Some(Face::parse(data, index).ok()?.raw_face().table(Tag(tag))?.to_vec())
}

// ---- the font ----

/// Line metrics in font units.
#[derive(Copy, Clone, Debug, PartialEq, Eq, Structural)]
pub struct LineMetricsUnits {
    /// The highest point glyphs reach above the baseline.
    pub ascent: i16,
    /// The lowest point glyphs reach below the baseline, typically negative.
    pub descent: i16,
    /// The gap to leave between the descent of one line and the ascent of the next.
    pub line_gap: i16,
}

impl LineMetricsUnits {
    /// The distance from one baseline to the next: ascent - descent + line gap, which can exceed
    /// the range of `i16`.
    pub fn new_line_size(&self) -> (r: i32)
        ensures
            r == self.ascent - self.descent + self.line_gap,
    {
        self.ascent as i32 - self.descent as i32 + self.line_gap as i32
    }
}

/// The vertical line metrics of a face: present when it has a vertical ascender, a missing
/// descender or line gap counting as zero.
pub open spec fn vertical_metrics_of(ascender: Option<i16>, descender: Option<i16>, line_gap: Option<i16>) -> Option<LineMetricsUnits> {
    match ascender {
        None => None,
        Some(a) => Some(LineMetricsUnits {
            ascent: a,
            descent: match descender { Some(d) => d, None => 0 },
            line_gap: match line_gap { Some(g) => g, None => 0 },
        }),
    }
}

/// Builds the vertical line metrics of a face from its vertical ascender, descender and line gap.
pub fn vertical_metrics(ascender: Option<i16>, descender: Option<i16>, line_gap: Option<i16>) -> (r: Option<LineMetricsUnits>)
    ensures
        r == vertical_metrics_of(ascender, descender, line_gap),
{
    match ascender {
        None => None,
        Some(a) => Some(LineMetricsUnits {
            ascent: a,
            descent: match descender { Some(d) => d, None => 0 },
            line_gap: match line_gap { Some(g) => g, None => 0 },
        }),
    }
}

/// What a font is built from, as read from its face.
#[derive(Clone, Debug)]
pub struct FaceData {
    /// The records of the name table.
    pub names: Vec<NameRecord>,
    /// The data of the kern table, if the face has one.
    pub kern: Option<Vec<u8>>,
    /// The (codepoint, glyph) pairs of the cmap subtables, in order.
    pub mappings: Vec<(u32, u16)>,
    /// The substitutions of the GSUB table whose output glyphs are to be loaded too.
    pub substitutions: Vec<Substitution>,
    /// The number of glyphs of the face.
    pub glyph_count: u16,
    /// The face's units per em.
    pub units_per_em: u16,
    /// The face's horizontal line metrics.
    pub horizontal: LineMetricsUnits,
    /// The face's vertical ascender, descender and line gap, where it has them.
    pub vertical_ascender: Option<i16>,
    pub vertical_descender: Option<i16>,
    pub vertical_line_gap: Option<i16>,
}

/// Whether a codepoint is a Unicode scalar value: not a surrogate, and at most 0x10FFFF.
pub open spec fn is_scalar(codepoint: u32) -> bool {
    codepoint < 0xD800 || (0xE000 <= codepoint && codepoint <= 0x10FFFF)
}

/// The codepoint to glyph map the first `n` pairs give: each pair of a Unicode scalar value with
/// a nonzero glyph is inserted in order, so that a later pair for the same codepoint wins.
pub open spec fn char_map(pairs: Seq<(u32, u16)>, n: int) -> Map<u32, u16>
    decreases n,
{
    if n <= 0 {
        Map::empty()
    } else if pairs[n - 1].1 != 0 && is_scalar(pairs[n - 1].0) {
        char_map(pairs, n - 1).insert(pairs[n - 1].0, pairs[n - 1].1)
    } else {
        char_map(pairs, n - 1)
    }
}

/// The nonzero glyphs of the first `n` pairs.
pub open spec fn mapped_glyphs(pairs: Seq<(u32, u16)>, n: int) -> Set<u16>
    decreases n,
{
    if n <= 0 {
        Set::empty()
    } else if pairs[n - 1].1 != 0 {
        mapped_glyphs(pairs, n - 1).insert(pairs[n - 1].1)
    } else {
        mapped_glyphs(pairs, n - 1)
    }
}

/// The glyphs whose outlines a font built from the data holds: glyph 0 (drawn for missing
/// characters), every glyph a codepoint maps to and every glyph a substitution can produce.
pub open spec fn glyphs_to_load(data: FaceData) -> Set<u16> {
    set![0u16].union(mapped_glyphs(data.mappings@, data.mappings@.len() as int)).union(
        substitutions_glyphs(data.substitutions@, data.substitutions@.len() as int),
    )
}

/// Whether a glyph to load lies past the face's glyphs.
pub open spec fn glyph_out_of_bounds(data: FaceData) -> bool {
    exists|g: u16| glyphs_to_load(data).contains(g) && g >= data.glyph_count
}

/// The kerning pairs of a kern table, if it holds a readable horizontal subtable.
pub open spec fn kern_of(table: Option<Seq<u8>>) -> Option<Map<u32, i16>> {
    match table {
        Some(t) => if kern_fits(t) { kern_pairs(t) } else { None },
        None => None,
    }
}

/// The contents of an optional byte vector.
pub open spec fn bytes_view(table: Option<Vec<u8>>) -> Option<Seq<u8>> {
    match table {
        Some(t) => Some(t@),
        None => None,
    }
}

/// The error of a font whose mappings or substitutions name a glyph the face does not have.
pub open spec fn out_of_bounds_message() -> &'static str {
    "Attempted to map a codepoint out of bounds."
}

/// The integer side of a font: its name, the codepoints it maps to glyphs, its kerning pairs,
/// its line metrics in font units, and which glyphs get outlines.
#[derive(Debug)]
pub struct Font {
    name: Option<String>,
    char_to_glyph: HashMap<u32, u16>,
    horizontal_kern: Option<HashMap<u32, i16>>,
    loaded: Vec<bool>,
    units_per_em: u16,
    horizontal_line_metrics: LineMetricsUnits,
    vertical_line_metrics: Option<LineMetricsUnits>,
    hash: usize,
}

impl Font {
    /// Every codepoint is a Unicode scalar value and maps to a glyph other than 0 that the font
    /// has and loads; glyph 0 is loaded too.
    #[verifier::type_invariant]
    spec fn wf(&self) -> bool {
        &&& 0 < self.loaded@.len() <= u16::MAX
        &&& self.loaded@[0]
        &&& forall|c: u32| #[trigger] self.char_to_glyph@.contains_key(c) ==> {
            &&& is_scalar(c)
            &&& 0 < self.char_to_glyph@[c] < self.loaded@.len()
            &&& self.loaded@[self.char_to_glyph@[c] as int]
        }
    }

    /// The font's name.
    pub closed spec fn name_view(&self) -> Option<Seq<char>> {
        match self.name {
            Some(s) => Some(s@),
            None => None,
        }
    }

    /// The map from codepoints to glyphs.
    pub closed spec fn chars_view(&self) -> Map<u32, u16> {
        self.char_to_glyph@
    }

    /// The horizontal kerning pairs, keyed by `pair_key`.
    pub closed spec fn kern_view(&self) -> Option<Map<u32, i16>> {
        match self.horizontal_kern {
            Some(m) => Some(m@),
            None => None,
        }
    }

    /// Which glyphs have outlines, by glyph index; its length is the glyph count.
    pub closed spec fn loaded_view(&self) -> Seq<bool> {
        self.loaded@
    }

    pub closed spec fn units_per_em_view(&self) -> u16 {
        self.units_per_em
    }

    pub closed spec fn horizontal_view(&self) -> LineMetricsUnits {
        self.horizontal_line_metrics
    }

    pub closed spec fn vertical_view(&self) -> Option<LineMetricsUnits> {
        self.vertical_line_metrics
    }

    pub closed spec fn hash_view(&self) -> usize {
        self.hash
    }

    /// The glyph a character maps to, 0 when it maps to none.
    pub open spec fn glyph_of(&self, c: char) -> u16 {
        if self.chars_view().contains_key(c as u32) { self.chars_view()[c as u32] } else { 0 }
    }

    /// Builds a font from what was read from its face. It fails when a codepoint maps to, or a
    /// substitution produces, a glyph past the face's glyph count.
    pub fn from_face_data(data: &FaceData, hash: usize) -> (r: FontResult<Font>)
        ensures
            r is Err <==> glyph_out_of_bounds(*data),
            r is Err ==> r == Err::<Font, &'static str>(out_of_bounds_message()),
            r matches Ok(f) ==> {
                &&& f.name_view() == face_name_of(data.names@.map_values(|n: NameRecord| record_view(n)))
                &&& f.chars_view() == char_map(data.mappings@, data.mappings@.len() as int)
                &&& f.kern_view() == kern_of(bytes_view(data.kern))
                &&& f.loaded_view().len() == data.glyph_count
                &&& forall|i: int| 0 <= i < data.glyph_count ==>
                    (#[trigger] f.loaded_view()[i] <==> glyphs_to_load(*data).contains(i as u16))
                &&& f.units_per_em_view() == data.units_per_em
                &&& f.horizontal_view() == data.horizontal
                &&& f.vertical_view() == vertical_metrics_of(data.vertical_ascender, data.vertical_descender, data.vertical_line_gap)
                &&& f.hash_view() == hash
            },
    {
        let name = convert_name(&data.names);
        let horizontal_kern = match &data.kern {
            Some(table) => {
                if kern_table_fits(table.len()) {
                    match TableKern::new(table.as_slice()) {
                        Some(t) => Some(t.horizontal_mappings),
                        None => None,
                    }
                } else {
                    None
                }
            },
            None => None,
        };

        let mut indices_to_load: HashSet<u16> = HashSet::new();
        let mut char_to_glyph: HashMap<u32, u16> = HashMap::new();
        indices_to_load.insert(0u16);
        let pairs = &data.mappings;
        let mut i: usize = 0;
        assert(set![0u16].union(mapped_glyphs(pairs@, 0)) =~= set![0u16]);
        while i < pairs.len()
            invariant
                i <= pairs@.len(),
                pairs == &data.mappings,
                indices_to_load@ == set![0u16].union(mapped_glyphs(pairs@, i as int)),
                char_to_glyph@ == char_map(pairs@, i as int),
            decreases pairs@.len() - i,
        {
            let (codepoint, glyph) = pairs[i];
            if glyph != 0 {
                indices_to_load.insert(glyph);
                if codepoint < 0xD800 || (0xE000 <= codepoint && codepoint <= 0x10FFFF) {
                    char_to_glyph.insert(codepoint, glyph);
                }
            }
            proof {
                assert(indices_to_load@ =~= set![0u16].union(mapped_glyphs(pairs@, i + 1)));
            }
            i = i + 1;
        }
        insert_substitutions(&data.substitutions, &mut indices_to_load);
        assert(indices_to_load@ =~= glyphs_to_load(*data));

        let glyph_count = data.glyph_count;
        let mut g: u32 = glyph_count as u32;
        while g < 0x1_0000
            invariant
                glyph_count <= g <= 0x1_0000,
                indices_to_load@ == glyphs_to_load(*data),
                glyph_count == data.glyph_count,
                forall|x: u16| glyph_count <= x < g ==> !(#[trigger] glyphs_to_load(*data).contains(x)),
            decreases 0x1_0000 - g,
        {
            if indices_to_load.contains(&(g as u16)) {
                return Err("Attempted to map a codepoint out of bounds.");
            }
            g = g + 1;
        }
        assert(!glyph_out_of_bounds(*data));

        let mut loaded: Vec<bool> = Vec::new();
        let mut k: u16 = 0;
        while k < glyph_count
            invariant
                k <= glyph_count,
                glyph_count == data.glyph_count,
                indices_to_load@ == glyphs_to_load(*data),
                loaded@.len() == k,
                forall|j: int| 0 <= j < k ==> (#[trigger] loaded@[j] <==> glyphs_to_load(*data).contains(j as u16)),
            decreases glyph_count - k,
        {
            loaded.push(indices_to_load.contains(&k));
            k = k + 1;
        }
        assert(glyphs_to_load(*data).contains(0u16));
        assert forall|c: u32| #[trigger] char_to_glyph@.contains_key(c) implies {
            &&& is_scalar(c)
            &&& 0 < char_to_glyph@[c] < loaded@.len()
            &&& loaded@[char_to_glyph@[c] as int]
        } by {
            lemma_char_map_glyphs(pairs@, pairs@.len() as int, c);
            let x = char_to_glyph@[c];
            assert(glyphs_to_load(*data).contains(x));
            assert(x < glyph_count);
            assert(loaded@[x as int] <==> glyphs_to_load(*data).contains((x as int) as u16));
        }
        Ok(Font {
            name,
            char_to_glyph,
            horizontal_kern,
            loaded,
            units_per_em: data.units_per_em,
            horizontal_line_metrics: data.horizontal,
            vertical_line_metrics: vertical_metrics(data.vertical_ascender, data.vertical_descender, data.vertical_line_gap),
            hash,
        })
    }
}

/// Every glyph of the codepoint map is a nonzero glyph of the pairs.
proof fn lemma_char_map_glyphs(pairs: Seq<(u32, u16)>, n: int, c: u32)
    requires
        char_map(pairs, n).contains_key(c),
    ensures
        is_scalar(c),
        char_map(pairs, n)[c] != 0,
        mapped_glyphs(pairs, n).contains(char_map(pairs, n)[c]),
    decreases n,
{
    if n > 0 {
        if pairs[n - 1].1 != 0 && is_scalar(pairs[n - 1].0) && pairs[n - 1].0 == c {
        } else {
            lemma_char_map_glyphs(pairs, n - 1, c);
        }
    }
}

/// Whether a kern table of this length is one the kern parser takes.
fn kern_table_fits(len: usize) -> (r: bool)
    ensures
        r == (len <= isize::MAX),
{
    len <= isize::MAX as usize
}

impl Clone for Font {
    /// A copy of the font: the same name, mappings, kerning pairs, metrics, loaded glyphs and hash.
    fn clone(&self) -> (r: Font)
        ensures
            r.name_view() == self.name_view(),
            r.chars_view() == self.chars_view(),
            r.kern_view() == self.kern_view(),
            r.loaded_view() == self.loaded_view(),
            r.units_per_em_view() == self.units_per_em_view(),
            r.horizontal_view() == self.horizontal_view(),
            r.vertical_view() == self.vertical_view(),
            r.hash_view() == self.hash_view(),
    {
        proof {
            use_type_invariant(self);
        }
        let name = match &self.name {
            Some(s) => Some(s.clone()),
            None => None,
        };
        let horizontal_kern = match &self.horizontal_kern {
            Some(m) => Some(m.clone()),
            None => None,
        };
        let mut loaded: Vec<bool> = Vec::new();
        let mut i: usize = 0;
        while i < self.loaded.len()
            invariant
                i <= self.loaded@.len(),
                loaded@ == self.loaded@.take(i as int),
            decreases self.loaded@.len() - i,
        {
            loaded.push(self.loaded[i]);
            proof {
                assert(self.loaded@.take(i + 1) =~= self.loaded@.take(i as int).push(self.loaded@[i as int]));
            }
            i = i + 1;
        }
        assert(self.loaded@.take(self.loaded@.len() as int) =~= self.loaded@);
        Font {
            name,
            char_to_glyph: self.char_to_glyph.clone(),
            horizontal_kern,
            loaded,
            units_per_em: self.units_per_em,
            horizontal_line_metrics: self.horizontal_line_metrics,
            vertical_line_metrics: self.vertical_line_metrics,
            hash: self.hash,
        }
    }
}

/// The tag of the kern table.
pub open spec fn kern_tag() -> u32 {
    0x6B65_726E
}

/// The glyphs whose outlines a font built from the face at `index` of `data` holds: glyph 0,
/// every glyph a codepoint maps to and, when substitutions are loaded, every glyph a substitution
/// can produce.
pub open spec fn face_glyphs_to_load(data: Seq<u8>, index: u32, load_substitutions: bool) -> Set<u16> {
    set![0u16].union(mapped_glyphs(mappings_of(data, index), mappings_of(data, index).len() as int)).union(
        if load_substitutions { gsub_glyphs_of(data, index) } else { Set::empty() },
    )
}

/// Whether a glyph to load lies past the face's glyphs.
pub open spec fn face_out_of_bounds(data: Seq<u8>, index: u32, load_substitutions: bool) -> bool {
    exists|g: u16| face_glyphs_to_load(data, index, load_substitutions).contains(g) && g >= glyph_count_of(data, index)
}

/// With substitutions loaded, the glyph of every ligature of every ligature substitution subtable
/// of the face's GSUB table is among the glyphs a font built from the face loads (its outline is
/// built when it lies below the glyph count).
pub proof fn lemma_ligature_glyph_loaded(data: Seq<u8>, index: u32, k: usize, j: int, t: int)
    requires
        k < gsub_subtable_count_of(data, index),
        single_delta_glyphs_of(data, index, k) is None,
        single_delta_ranges_of(data, index, k) is None,
        substitute_glyphs_of(data, index, k) is None,
        ligature_groups_of(data, index, k) is Some,
        0 <= j < ligature_groups_of(data, index, k).unwrap().len(),
        0 <= t < ligature_groups_of(data, index, k).unwrap()[j].len(),
    ensures
        face_glyphs_to_load(data, index, true).contains(ligature_groups_of(data, index, k).unwrap()[j][t]),
{
    lemma_ligature_glyphs_produced(data, index, k, j, t);
}

/// Reads from the face at `index` of `data` what a font is built from; the substitutions only
/// when `load_substitutions` is set.
fn read_face(data: &[u8], index: u32, load_substitutions: bool) -> (r: FaceData)
    requires
        face_parse_error(data@, index) is None,
    ensures
        r.names@.map_values(|n: NameRecord| record_view(n)) == names_of(data@, index),
        bytes_view(r.kern) == table_of(data@, index, kern_tag()),
        r.mappings@ == mappings_of(data@, index),
        substitutions_glyphs(r.substitutions@, r.substitutions@.len() as int)
            == (if load_substitutions { gsub_glyphs_of(data@, index) } else { Set::<u16>::empty() }),
        r.glyph_count == glyph_count_of(data@, index),
        r.glyph_count > 0,
        r.units_per_em == units_per_em_of(data@, index),
        16 <= r.units_per_em <= 16384,
        r.horizontal == (LineMetricsUnits {
            ascent: ascender_of(data@, index),
            descent: descender_of(data@, index),
            line_gap: line_gap_of(data@, index),
        }),
        r.vertical_ascender == vertical_ascender_of(data@, index),
        r.vertical_descender == vertical_descender_of(data@, index),
        r.vertical_line_gap == vertical_line_gap_of(data@, index),
{
    let names = face_names(data, index);
    // The tag `kern`.
    let kern = face_table(data, index, 0x6B65_726E);
    let mappings = face_mappings(data, index);
    let substitutions = if load_substitutions {
        let subs = gsub_substitutions(data, index);
        proof {
            lemma_gsub_glyphs(subs@, data@, index, subs@.len() as int);
        }
        subs
    } else {
        Vec::new()
    };
    FaceData {
        names,
        kern,
        mappings,
        substitutions,
        glyph_count: face_number_of_glyphs(data, index),
        units_per_em: face_units_per_em(data, index),
        horizontal: LineMetricsUnits {
            ascent: face_ascender(data, index),
            descent: face_descender(data, index),
            line_gap: face_line_gap(data, index),
        },
        vertical_ascender: face_vertical_ascender(data, index),
        vertical_descender: face_vertical_descender(data, index),
        vertical_line_gap: face_vertical_line_gap(data, index),
    }
}

impl Font {
    /// Constructs a font from the bytes of a font file, using the face at `collection_index` of a
    /// font collection (0 for a single font), and loading the glyphs of its substitutions when
    /// `load_substitutions` is set. A face that ttf-parser refuses gives its error message; a
    /// face whose mappings or substitutions name a glyph it does not have gives an error too.
    pub fn from_bytes(data: &[u8], collection_index: u32, load_substitutions: bool) -> (r: FontResult<Font>)
        ensures
            face_parse_error(data@, collection_index) matches Some(e)
                ==> r == Err::<Font, &'static str>(error_message(e)),
            face_parse_error(data@, collection_index) is None
                ==> (r is Err <==> face_out_of_bounds(data@, collection_index, load_substitutions)),
            face_parse_error(data@, collection_index) is None && r is Err
                ==> r == Err::<Font, &'static str>(out_of_bounds_message()),
            r matches Ok(f) ==> {
                &&& f.name_view() == face_name_of(names_of(data@, collection_index))
                &&& f.chars_view() == char_map(mappings_of(data@, collection_index), mappings_of(data@, collection_index).len() as int)
                &&& f.kern_view() == kern_of(table_of(data@, collection_index, kern_tag()))
                &&& f.loaded_view().len() == glyph_count_of(data@, collection_index)
                &&& forall|i: int| 0 <= i < glyph_count_of(data@, collection_index) ==>
                    (#[trigger] f.loaded_view()[i] <==> face_glyphs_to_load(data@, collection_index, load_substitutions).contains(i as u16))
                &&& f.units_per_em_view() == units_per_em_of(data@, collection_index)
                &&& f.horizontal_view() == (LineMetricsUnits {
                    ascent: ascender_of(data@, collection_index),
                    descent: descender_of(data@, collection_index),
                    line_gap: line_gap_of(data@, collection_index),
                })
                &&& f.vertical_view() == vertical_metrics_of(
                    vertical_ascender_of(data@, collection_index),
                    vertical_descender_of(data@, collection_index),
                    vertical_line_gap_of(data@, collection_index),
                )
                &&& f.hash_view() == crate::hash::fx_hash_usize(data@)
                &&& f.loaded_view().len() > 0
                &&& 16 <= f.units_per_em_view() <= 16384
            },
    {
        let hash = crate::hash::hash(data);
        match face_parse(data, collection_index) {
            Ok(_) => {},
            Err(e) => return Err(convert_error(e)),
        }
        let face_data = read_face(data, collection_index, load_substitutions);
        assert(glyphs_to_load(face_data) =~= face_glyphs_to_load(data@, collection_index, load_substitutions));
        Font::from_face_data(&face_data, hash)
    }

    /// The font's name: the full name (name ID 4) of its name table, if it has one in a Unicode
    /// encoding.
    pub fn name(&self) -> (r: Option<&str>)
        ensures
            match r {
                Some(s) => self.name_view() == Some(s@),
                None => self.name_view() is None,
            },
    {
        match &self.name {
            Some(s) => Some(s.as_str()),
            None => None,
        }
    }

    /// Every codepoint the font maps to a glyph, with that glyph's index; the codepoints are all
    /// Unicode scalar values.
    pub fn chars(&self) -> (r: &HashMap<u32, u16>)
        ensures
            r@ == self.chars_view(),
            forall|c: u32| #[trigger] r@.contains_key(c) ==> is_scalar(c),
    {
        proof {
            use_type_invariant(self);
        }
        &self.char_to_glyph
    }

    /// A precomputed hash of the font file.
    pub fn file_hash(&self) -> (r: usize)
        ensures
            r == self.hash_view(),
    {
        self.hash
    }

    /// The font's units per em.
    pub fn units_per_em(&self) -> (r: u16)
        ensures
            r == self.units_per_em_view(),
    {
        self.units_per_em
    }

    /// The line metrics of the font laid out horizontally, in font units.
    pub fn horizontal_line_metrics(&self) -> (r: LineMetricsUnits)
        ensures
            r == self.horizontal_view(),
    {
        self.horizontal_line_metrics
    }

    /// The line metrics of the font laid out vertically, in font units, if it has them.
    pub fn vertical_line_metrics(&self) -> (r: Option<LineMetricsUnits>)
        ensures
            r == self.vertical_view(),
    {
        self.vertical_line_metrics
    }

    /// The kerning value, in font units, of two glyphs side by side, if the font has one.
    pub fn kern_indexed(&self, left: u16, right: u16) -> (r: Option<i16>)
        ensures
            r == match self.kern_view() {
                None => None,
                Some(m) => if m.contains_key(pair_key(left as int, right as int)) {
                    Some(m[pair_key(left as int, right as int)])
                } else {
                    None
                },
            },
    {
        let key = (left as u32) << 16u32 | right as u32;
        assert(key == pair_key(left as int, right as int)) by (bit_vector)
            requires key == (left as u32) << 16u32 | right as u32;
        match &self.horizontal_kern {
            None => None,
            Some(map) => match map.get(&key) {
                Some(v) => Some(*v),
                None => None,
            },
        }
    }

    /// The kerning value, in font units, of two characters side by side, if the font has one.
    pub fn kern(&self, left: char, right: char) -> (r: Option<i16>)
        ensures
            r == match self.kern_view() {
                None => None,
                Some(m) => {
                    let k = pair_key(self.glyph_of(left) as int, self.glyph_of(right) as int);
                    if m.contains_key(k) { Some(m[k]) } else { None }
                },
            },
    {
        self.kern_indexed(self.lookup_glyph_index(left), self.lookup_glyph_index(right))
    }

    /// The glyph a character maps to, 0 when the font does not map it. The glyph is always one
    /// the font has and has an outline for.
    pub fn lookup_glyph_index(&self, character: char) -> (r: u16)
        ensures
            r == self.glyph_of(character),
            r < self.loaded_view().len(),
            self.loaded_view()[r as int],
    {
        proof {
            use_type_invariant(self);
        }
        match self.char_to_glyph.get(&(character as u32)) {
            Some(g) => *g,
            None => 0,
        }
    }

    /// Whether the font maps the character to a glyph.
    pub fn has_glyph(&self, character: char) -> (r: bool)
        ensures
            r == self.chars_view().contains_key(character as u32),
            r == (self.glyph_of(character) != 0),
    {
        proof {
            use_type_invariant(self);
        }
        self.lookup_glyph_index(character) != 0
    }

    /// The number of glyphs of the font.
    pub fn glyph_count(&self) -> (r: u16)
        ensures
            r == self.loaded_view().len(),
            r > 0,
    {
        proof {
            use_type_invariant(self);
        }
        self.loaded.len() as u16
    }

    /// Whether the glyph gets an outline: glyph 0, the glyphs characters map to and, when
    /// substitutions are loaded, the glyphs they produce. `false` past the glyph count.
    pub fn glyph_loaded(&self, index: u16) -> (r: bool)
        ensures
            r == (index < self.loaded_view().len() && self.loaded_view()[index as int]),
    {
        if (index as usize) < self.loaded.len() {
            self.loaded[index as usize]
        } else {
            false
        }
    }
}

} // verus!
