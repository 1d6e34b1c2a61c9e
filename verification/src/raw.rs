//! A font file read table by table with the library's own table parsers.
use crate::parse::{be16, be32};
use crate::table::cmap::{cmap_choice, cmap_readable, insert_all, subtable_pairs, TableCmap};
use crate::table::colr::{colr_matches, colr_readable, TableColr};
use crate::table::cpal::{cpal_matches, cpal_readable, TableCpal};
use crate::table::directory::{directory_map, directory_readable, font_version, TableDirectory, TableOffset};
use crate::table::glyf::{glyph_error, glyph_readable, record_of, TableGlyf};
use crate::table::head::{head_fields, TableHead, HEAD_MAGIC};
use crate::table::hhea::{hhea_fields, TableHhea};
use crate::table::hmtx::{advance_of, bearing_of, metrics_len, HMetric, TableHtmx};
use crate::table::kern::{kern_fits, kern_pairs, TableKern};
use crate::table::loca::{loca_len, loca_offset, loca_ordered, GlyphLocation, TableLoca};
use crate::table::maxp::TableMaxp;
use crate::table::vhea::{vhea_fields, TableVhea};
use crate::table::vmtx::{TableVmtx, VMetric};
use crate::FontResult;
use vstd::prelude::*;

verus! {

/// The tags of the tables read, as big-endian numbers.
pub const TAG_HEAD: u32 = 0x6865_6164;
pub const TAG_MAXP: u32 = 0x6D61_7870;
pub const TAG_CMAP: u32 = 0x636D_6170;
pub const TAG_LOCA: u32 = 0x6C6F_6361;
pub const TAG_GLYF: u32 = 0x676C_7966;
pub const TAG_KERN: u32 = 0x6B65_726E;
pub const TAG_HHEA: u32 = 0x6868_6561;
pub const TAG_HMTX: u32 = 0x686D_7478;
pub const TAG_VHEA: u32 = 0x7668_6561;
pub const TAG_VMTX: u32 = 0x766D_7478;
pub const TAG_CPAL: u32 = 0x4350_414C;
pub const TAG_COLR: u32 = 0x434F_4C52;

pub struct RawFont {
    pub head: TableHead,
    pub cmap: TableCmap,
    pub maxp: TableMaxp,
    pub loca: TableLoca,
    pub glyf: TableGlyf,
    pub kern: Option<TableKern>,
    pub hhea: Option<TableHhea>,
    pub hmtx: Option<TableHtmx>,
    pub vhea: Option<TableVhea>,
    pub vmtx: Option<TableVmtx>,
    pub cpal: Option<TableCpal>,
    pub colr: Option<TableColr>,
}

// ---- where the tables lie ----

/// The file is a single font whose table directory can be read.
pub open spec fn directory_ok(b: Seq<u8>) -> bool {
    b.len() >= 4 && font_version(be32(b, 0) as u32)
}

/// The tables the directory lists, by tag.
pub open spec fn tables(b: Seq<u8>) -> Map<u32, TableOffset> {
    directory_map(b, be16(b, 4) as nat)
}

pub open spec fn has_table(b: Seq<u8>, tag: u32) -> bool {
    tables(b).contains_key(tag)
}

/// The directory lists the table, at an offset inside the file.
pub open spec fn table_reachable(b: Seq<u8>, tag: u32) -> bool {
    has_table(b, tag) && tables(b)[tag].offset <= b.len()
}

/// The file from the table's offset on.
pub open spec fn table_data(b: Seq<u8>, tag: u32) -> Seq<u8> {
    b.skip(tables(b)[tag].offset as int)
}

pub open spec fn num_glyphs(b: Seq<u8>) -> u16 {
    be16(table_data(b, TAG_MAXP), 4) as u16
}

pub open spec fn loc_format(b: Seq<u8>) -> i16 {
    head_fields(table_data(b, TAG_HEAD)).index_to_loc_format
}

/// Where glyph `i` lies in the glyf table, as the loca table gives it.
pub open spec fn glyph_location(b: Seq<u8>, i: int) -> GlyphLocation {
    let loca = table_data(b, TAG_LOCA);
    GlyphLocation {
        offset: loca_offset(loca, loc_format(b), i) as usize,
        length: (loca_offset(loca, loc_format(b), i + 1) - loca_offset(loca, loc_format(b), i)) as usize,
    }
}

// ---- the checks each table passes ----

pub open spec fn head_ok(b: Seq<u8>) -> bool {
    be32(table_data(b, TAG_HEAD), 12) == HEAD_MAGIC
}

pub open spec fn cmap_ok(b: Seq<u8>) -> bool {
    cmap_choice(table_data(b, TAG_CMAP)) != 0
}

pub open spec fn loca_ok(b: Seq<u8>) -> bool {
    loc_format(b) <= 1
}

/// The locations of the glyphs, in order.
pub open spec fn glyph_locations(b: Seq<u8>) -> Seq<GlyphLocation> {
    Seq::new(num_glyphs(b) as nat, |i: int| glyph_location(b, i))
}

pub open spec fn glyf_ok(b: Seq<u8>) -> bool {
    forall|i: int| 0 <= i < num_glyphs(b) ==> #[trigger] glyph_error(table_data(b, TAG_GLYF), glyph_locations(b), i) is None
}

pub open spec fn hhea_ok(b: Seq<u8>) -> bool {
    has_table(b, TAG_HHEA) ==> be16(table_data(b, TAG_HHEA), 34) != 0
}

pub open spec fn vhea_ok(b: Seq<u8>) -> bool {
    has_table(b, TAG_VHEA) ==> be16(table_data(b, TAG_VHEA), 34) != 0
}

pub open spec fn cpal_ok(b: Seq<u8>) -> bool {
    has_table(b, TAG_CPAL) ==> (be16(table_data(b, TAG_CPAL), 0) == 0 || be16(table_data(b, TAG_CPAL), 0) == 1)
}

/// Every check passes, so the whole font reads.
pub open spec fn raw_font_ok(b: Seq<u8>) -> bool {
    &&& directory_ok(b)
    &&& head_ok(b)
    &&& cmap_ok(b)
    &&& loca_ok(b)
    &&& glyf_ok(b)
    &&& hhea_ok(b)
    &&& vhea_ok(b)
    &&& cpal_ok(b)
}

// ---- what reading the file needs ----

/// A pair of a metrics header and its metrics table can be read: the metrics table is listed
/// when the header is, and when the header passes its check the metrics table holds the records
/// it counts.
pub open spec fn metrics_readable(b: Seq<u8>, header: u32, metrics: u32) -> bool {
    has_table(b, header) ==> {
        &&& has_table(b, metrics)
        &&& table_reachable(b, header)
        &&& table_data(b, header).len() >= 36
        &&& be16(table_data(b, header), 34) != 0 ==> {
            let long = be16(table_data(b, header), 34);
            &&& table_reachable(b, metrics)
            &&& long <= num_glyphs(b)
            &&& table_data(b, metrics).len() >= metrics_len(num_glyphs(b) as nat, long as nat)
        }
    }
}

/// The optional tables read after the glyphs can be read, each as far as the ones before it
/// pass their checks. A COLR table needs a CPAL table.
pub open spec fn optional_tables_readable(b: Seq<u8>) -> bool {
    &&& has_table(b, TAG_KERN) ==> table_reachable(b, TAG_KERN)
    &&& metrics_readable(b, TAG_HHEA, TAG_HMTX)
    &&& hhea_ok(b) ==> {
        &&& metrics_readable(b, TAG_VHEA, TAG_VMTX)
        &&& vhea_ok(b) ==> {
            &&& has_table(b, TAG_CPAL) ==> table_reachable(b, TAG_CPAL) && cpal_readable(table_data(b, TAG_CPAL))
            &&& cpal_ok(b) ==> (has_table(b, TAG_COLR) ==> {
                &&& has_table(b, TAG_CPAL)
                &&& table_reachable(b, TAG_COLR)
                &&& colr_readable(table_data(b, TAG_COLR))
            })
        }
    }
}

/// The file can be read without reading past its data or its tables: the required tables (head,
/// maxp, cmap, loca and glyf) are listed, and each table is readable as far as the tables read
/// before it pass their checks.
pub open spec fn raw_font_readable(b: Seq<u8>) -> bool {
    &&& directory_readable(b)
    &&& directory_ok(b) ==> {
        &&& table_reachable(b, TAG_HEAD)
        &&& table_reachable(b, TAG_MAXP)
        &&& table_data(b, TAG_HEAD).len() >= 16
        &&& head_ok(b) ==> {
            &&& table_data(b, TAG_HEAD).len() >= 54
            &&& table_data(b, TAG_MAXP).len() >= 6
            &&& table_reachable(b, TAG_CMAP)
            &&& cmap_readable(table_data(b, TAG_CMAP))
            &&& cmap_ok(b) ==> {
                &&& table_reachable(b, TAG_LOCA)
                &&& table_reachable(b, TAG_GLYF)
                &&& loca_ok(b) ==> {
                    &&& table_data(b, TAG_LOCA).len() >= loca_len(loc_format(b), num_glyphs(b) as nat)
                    &&& loca_ordered(table_data(b, TAG_LOCA), loc_format(b), num_glyphs(b) as nat)
                    &&& forall|i: int| 0 <= i < num_glyphs(b)
                        ==> glyph_readable(table_data(b, TAG_GLYF), #[trigger] glyph_location(b, i))
                    &&& glyf_ok(b) ==> optional_tables_readable(b)
                }
            }
        }
    }
}

/// The table with the tag: the file from its offset on.
fn table_slice<'a>(data: &'a [u8], dir: &TableDirectory, tag: u32) -> (r: &'a [u8])
    requires
        dir.map.view() == tables(data@),
        table_reachable(data@, tag),
    ensures
        r@ == table_data(data@, tag),
{
    let offset = dir.map.get(tag).unwrap().offset;
    let r = vstd::slice::slice_subrange(data, offset, data.len());
    assert(r@ =~= table_data(data@, tag));
    r
}

/// Reads the required tables: head, maxp, cmap, loca and glyf.
fn read_required(data: &[u8], dir: &TableDirectory) -> (r: FontResult<(TableHead, TableMaxp, TableCmap, TableLoca, TableGlyf)>)
    requires
        dir.map.view() == tables(data@),
        directory_ok(data@),
        raw_font_readable(data@),
    ensures
        r is Ok <==> head_ok(data@) && cmap_ok(data@) && loca_ok(data@) && glyf_ok(data@),
        !head_ok(data@) ==> r == Err::<(TableHead, TableMaxp, TableCmap, TableLoca, TableGlyf), &'static str>(
            "Font.head: Incorrect magic number, is this a font?",
        ),
        head_ok(data@) && !cmap_ok(data@) ==> r == Err::<(TableHead, TableMaxp, TableCmap, TableLoca, TableGlyf), &'static str>(
            "Font.cmap: Unable to find usable cmap table",
        ),
        head_ok(data@) && cmap_ok(data@) && !loca_ok(data@) ==> r == Err::<(TableHead, TableMaxp, TableCmap, TableLoca, TableGlyf), &'static str>(
            "Font.loca: Unknown index_to_loc_format",
        ),
        head_ok(data@) && cmap_ok(data@) && loca_ok(data@) && !glyf_ok(data@) ==> (r matches Err(e)
            && exists|i: int| 0 <= i < num_glyphs(data@) && Some(e) == #[trigger] glyph_error(table_data(data@, TAG_GLYF), glyph_locations(data@), i)
                && forall|j: int| 0 <= j < i ==> #[trigger] glyph_error(table_data(data@, TAG_GLYF), glyph_locations(data@), j) is None),
        r matches Ok((head, maxp, cmap, loca, glyf)) ==> {
            let b = data@;
            let n = num_glyphs(b);
            &&& head == head_fields(table_data(b, TAG_HEAD))
            &&& maxp.num_glyphs == n
            &&& cmap.map.view() == insert_all(
                Map::empty(),
                subtable_pairs(table_data(b, TAG_CMAP), cmap_choice(table_data(b, TAG_CMAP)),
                    be16(table_data(b, TAG_CMAP), cmap_choice(table_data(b, TAG_CMAP))) as u16),
            )
            &&& loca.locations@.len() == n
            &&& forall|i: int| 0 <= i < n ==> #[trigger] loca.locations@[i] == glyph_location(b, i)
            &&& glyf.glyphs@.len() == n
            &&& forall|i: int| 0 <= i < n ==> record_of(table_data(b, TAG_GLYF), glyph_location(b, i), i, #[trigger] glyf.glyphs@[i])
        },
{
    let ghost b = data@;
    let head = match TableHead::new(table_slice(data, dir, TAG_HEAD)) {
        Ok(t) => t,
        Err(e) => return Err(e),
    };
    let maxp = match TableMaxp::new(table_slice(data, dir, TAG_MAXP)) {
        Ok(t) => t,
        Err(e) => return Err(e),
    };
    let cmap = match TableCmap::new(table_slice(data, dir, TAG_CMAP)) {
        Ok(t) => t,
        Err(e) => return Err(e),
    };
    let loca = match TableLoca::new(table_slice(data, dir, TAG_LOCA), head.index_to_loc_format, maxp.num_glyphs) {
        Ok(t) => t,
        Err(e) => return Err(e),
    };
    assert forall|i: int| 0 <= i < num_glyphs(b) implies #[trigger] loca.locations@[i] == glyph_location(b, i) by {
        assert(loca.locations@[i] == glyph_location(b, i));
    }
    assert forall|i: int| 0 <= i < loca.locations@.len() implies glyph_readable(table_data(b, TAG_GLYF), #[trigger] loca.locations@[i]) by {
        assert(loca.locations@[i] == glyph_location(b, i));
    }
    assert(loca.locations@ =~= glyph_locations(b));
    let glyf = match TableGlyf::new(table_slice(data, dir, TAG_GLYF), loca.locations.as_slice()) {
        Ok(t) => t,
        Err(e) => {
            proof {
                let i = choose|i: int| 0 <= i < loca.locations@.len() && Some(e) == #[trigger] glyph_error(table_data(b, TAG_GLYF), loca.locations@, i)
                    && forall|j: int| 0 <= j < i ==> #[trigger] glyph_error(table_data(b, TAG_GLYF), loca.locations@, j) is None;
                assert(!glyf_ok(b));
            }
            return Err(e);
        },
    };
    assert forall|i: int| 0 <= i < num_glyphs(b) implies record_of(table_data(b, TAG_GLYF), glyph_location(b, i), i, #[trigger] glyf.glyphs@[i]) by {
        assert(loca.locations@[i] == glyph_location(b, i));
    }
    Ok((head, maxp, cmap, loca, glyf))
}

/// Reads the kern table, if the file has one and it can be read.
fn read_kern(data: &[u8], dir: &TableDirectory) -> (r: Option<TableKern>)
    requires
        dir.map.view() == tables(data@),
        has_table(data@, TAG_KERN) ==> table_reachable(data@, TAG_KERN),
    ensures
        match r {
            Some(k) => has_table(data@, TAG_KERN) && kern_fits(table_data(data@, TAG_KERN))
                && kern_pairs(table_data(data@, TAG_KERN)) == Some(k.horizontal_mappings@),
            None => !has_table(data@, TAG_KERN) || !kern_fits(table_data(data@, TAG_KERN))
                || kern_pairs(table_data(data@, TAG_KERN)) is None,
        },
{
    if dir.map.get(TAG_KERN).is_some() {
        let table = table_slice(data, dir, TAG_KERN);
        if kern_table_fits(table.len()) { TableKern::new(table) } else { None }
    } else {
        None
    }
}

/// Reads the hhea and hmtx tables, if the file has an hhea table.
fn read_horizontal(data: &[u8], dir: &TableDirectory, glyph_count: u16) -> (r: FontResult<(Option<TableHhea>, Option<TableHtmx>)>)
    requires
        dir.map.view() == tables(data@),
        glyph_count == num_glyphs(data@),
        metrics_readable(data@, TAG_HHEA, TAG_HMTX),
    ensures
        r is Ok <==> hhea_ok(data@),
        !hhea_ok(data@) ==> r == Err::<(Option<TableHhea>, Option<TableHtmx>), &'static str>(
            "Font.hhea: The number of long hmetrics must be geater than 0",
        ),
        r matches Ok((hhea, hmtx)) ==> {
            let b = data@;
            let n = num_glyphs(b);
            &&& hhea == (if has_table(b, TAG_HHEA) { Some(hhea_fields(table_data(b, TAG_HHEA))) } else { None })
            &&& hmtx is Some == has_table(b, TAG_HHEA)
            &&& hmtx matches Some(t) ==> t.hmetrics@.len() == n && forall|i: int| 0 <= i < n ==> #[trigger] t.hmetrics@[i] == (HMetric {
                advance_width: advance_of(table_data(b, TAG_HMTX), be16(table_data(b, TAG_HHEA), 34) as nat, i),
                left_side_bearing: bearing_of(table_data(b, TAG_HMTX), be16(table_data(b, TAG_HHEA), 34) as nat, i),
            })
        },
{
    if dir.map.get(TAG_HHEA).is_none() {
        return Ok((None, None));
    }
    let hhea = match TableHhea::new(table_slice(data, dir, TAG_HHEA)) {
        Ok(t) => t,
        Err(e) => return Err(e),
    };
    let hmtx = match TableHtmx::new(table_slice(data, dir, TAG_HMTX), glyph_count, hhea.num_long_hmetrics) {
        Ok(t) => t,
        Err(e) => return Err(e),
    };
    Ok((Some(hhea), Some(hmtx)))
}

/// Reads the vhea and vmtx tables, if the file has a vhea table.
fn read_vertical(data: &[u8], dir: &TableDirectory, glyph_count: u16) -> (r: FontResult<(Option<TableVhea>, Option<TableVmtx>)>)
    requires
        dir.map.view() == tables(data@),
        glyph_count == num_glyphs(data@),
        metrics_readable(data@, TAG_VHEA, TAG_VMTX),
    ensures
        r is Ok <==> vhea_ok(data@),
        !vhea_ok(data@) ==> r == Err::<(Option<TableVhea>, Option<TableVmtx>), &'static str>(
            "Font.vhea: The number of long hmetrics must be geater than 0",
        ),
        r matches Ok((vhea, vmtx)) ==> {
            let b = data@;
            let n = num_glyphs(b);
            &&& vhea == (if has_table(b, TAG_VHEA) { Some(vhea_fields(table_data(b, TAG_VHEA))) } else { None })
            &&& vmtx is Some == has_table(b, TAG_VHEA)
            &&& vmtx matches Some(t) ==> t.vmetrics@.len() == n && forall|i: int| 0 <= i < n ==> #[trigger] t.vmetrics@[i] == (VMetric {
                advance_height: advance_of(table_data(b, TAG_VMTX), be16(table_data(b, TAG_VHEA), 34) as nat, i),
                top_side_bearing: bearing_of(table_data(b, TAG_VMTX), be16(table_data(b, TAG_VHEA), 34) as nat, i),
            })
        },
{
    if dir.map.get(TAG_VHEA).is_none() {
        return Ok((None, None));
    }
    let vhea = match TableVhea::new(table_slice(data, dir, TAG_VHEA)) {
        Ok(t) => t,
        Err(e) => return Err(e),
    };
    let vmtx = match TableVmtx::new(table_slice(data, dir, TAG_VMTX), glyph_count, vhea.num_long_vmetrics) {
        Ok(t) => t,
        Err(e) => return Err(e),
    };
    Ok((Some(vhea), Some(vmtx)))
}

/// Reads the CPAL and COLR tables where the file has them.
fn read_color(data: &[u8], dir: &TableDirectory) -> (r: FontResult<(Option<TableCpal>, Option<TableColr>)>)
    requires
        dir.map.view() == tables(data@),
        has_table(data@, TAG_CPAL) ==> table_reachable(data@, TAG_CPAL) && cpal_readable(table_data(data@, TAG_CPAL)),
        cpal_ok(data@) ==> (has_table(data@, TAG_COLR) ==> {
            &&& has_table(data@, TAG_CPAL)
            &&& table_reachable(data@, TAG_COLR)
            &&& colr_readable(table_data(data@, TAG_COLR))
        }),
    ensures
        r is Ok <==> cpal_ok(data@),
        !cpal_ok(data@) ==> r == Err::<(Option<TableCpal>, Option<TableColr>), &'static str>(
            "Font.cpal: Unsupported cpal table version.",
        ),
        r matches Ok((cpal, colr)) ==> {
            let b = data@;
            &&& cpal is Some == has_table(b, TAG_CPAL)
            &&& cpal matches Some(t) ==> cpal_matches(t, table_data(b, TAG_CPAL))
            &&& colr is Some == has_table(b, TAG_COLR)
            &&& colr matches Some(t) ==> colr_matches(t, table_data(b, TAG_COLR))
        },
{
    let cpal = if dir.map.get(TAG_CPAL).is_some() {
        match TableCpal::new(table_slice(data, dir, TAG_CPAL)) {
            Ok(t) => Some(t),
            Err(e) => return Err(e),
        }
    } else {
        None
    };
    let colr = if dir.map.get(TAG_COLR).is_some() {
        match TableColr::new(table_slice(data, dir, TAG_COLR)) {
            Ok(t) => Some(t),
            Err(e) => return Err(e),
        }
    } else {
        None
    };
    Ok((cpal, colr))
}

impl RawFont {
    /// Reads a font file: its table directory, the required head, maxp, cmap, loca and glyf
    /// tables, and the kern, hhea and hmtx, vhea and vmtx, CPAL and COLR tables where the file
    /// has them. The first table that fails its check makes the font an error; an unreadable
    /// kern table is left out.
    pub fn new(data: &[u8]) -> (r: FontResult<RawFont>)
        requires
            raw_font_readable(data@),
        ensures
            data@.len() < 4 ==> r == Err::<RawFont, &'static str>("Font: File isn't large enough to be a font."),
            data@.len() >= 4 && !directory_ok(data@) ==> r == Err::<RawFont, &'static str>("Font: Unsupported font type."),
            r is Ok <==> raw_font_ok(data@),
            directory_ok(data@) && !head_ok(data@) ==> r == Err::<RawFont, &'static str>(
                "Font.head: Incorrect magic number, is this a font?",
            ),
            directory_ok(data@) && head_ok(data@) && !cmap_ok(data@) ==> r == Err::<RawFont, &'static str>(
                "Font.cmap: Unable to find usable cmap table",
            ),
            directory_ok(data@) && head_ok(data@) && cmap_ok(data@) && !loca_ok(data@) ==> r == Err::<RawFont, &'static str>(
                "Font.loca: Unknown index_to_loc_format",
            ),
            directory_ok(data@) && head_ok(data@) && cmap_ok(data@) && loca_ok(data@) && !glyf_ok(data@) ==> (r matches Err(e)
                && exists|i: int| 0 <= i < num_glyphs(data@) && Some(e) == #[trigger] glyph_error(table_data(data@, TAG_GLYF), glyph_locations(data@), i)
                    && forall|j: int| 0 <= j < i ==> #[trigger] glyph_error(table_data(data@, TAG_GLYF), glyph_locations(data@), j) is None),
            directory_ok(data@) && head_ok(data@) && cmap_ok(data@) && loca_ok(data@) && glyf_ok(data@) && !hhea_ok(data@)
                ==> r == Err::<RawFont, &'static str>("Font.hhea: The number of long hmetrics must be geater than 0"),
            directory_ok(data@) && head_ok(data@) && cmap_ok(data@) && loca_ok(data@) && glyf_ok(data@) && hhea_ok(data@) && !vhea_ok(data@)
                ==> r == Err::<RawFont, &'static str>("Font.vhea: The number of long hmetrics must be geater than 0"),
            directory_ok(data@) && head_ok(data@) && cmap_ok(data@) && loca_ok(data@) && glyf_ok(data@) && hhea_ok(data@) && vhea_ok(data@)
                && !cpal_ok(data@) ==> r == Err::<RawFont, &'static str>("Font.cpal: Unsupported cpal table version."),
            r matches Ok(f) ==> {
                let b = data@;
                let n = num_glyphs(b);
                &&& f.head == head_fields(table_data(b, TAG_HEAD))
                &&& f.maxp.num_glyphs == n
                &&& f.cmap.map.view() == insert_all(
                    Map::empty(),
                    subtable_pairs(table_data(b, TAG_CMAP), cmap_choice(table_data(b, TAG_CMAP)),
                        be16(table_data(b, TAG_CMAP), cmap_choice(table_data(b, TAG_CMAP))) as u16),
                )
                &&& f.loca.locations@.len() == n
                &&& forall|i: int| 0 <= i < n ==> #[trigger] f.loca.locations@[i] == glyph_location(b, i)
                &&& f.glyf.glyphs@.len() == n
                &&& forall|i: int| 0 <= i < n ==> record_of(table_data(b, TAG_GLYF), glyph_location(b, i), i, #[trigger] f.glyf.glyphs@[i])
                &&& match f.kern {
                    Some(k) => has_table(b, TAG_KERN) && kern_fits(table_data(b, TAG_KERN))
                        && kern_pairs(table_data(b, TAG_KERN)) == Some(k.horizontal_mappings@),
                    None => !has_table(b, TAG_KERN) || !kern_fits(table_data(b, TAG_KERN))
                        || kern_pairs(table_data(b, TAG_KERN)) is None,
                }
                &&& f.hhea == (if has_table(b, TAG_HHEA) { Some(hhea_fields(table_data(b, TAG_HHEA))) } else { None })
                &&& f.hmtx is Some == has_table(b, TAG_HHEA)
                &&& f.hmtx matches Some(t) ==> t.hmetrics@.len() == n && forall|i: int| 0 <= i < n ==> #[trigger] t.hmetrics@[i] == (HMetric {
                    advance_width: advance_of(table_data(b, TAG_HMTX), be16(table_data(b, TAG_HHEA), 34) as nat, i),
                    left_side_bearing: bearing_of(table_data(b, TAG_HMTX), be16(table_data(b, TAG_HHEA), 34) as nat, i),
                })
                &&& f.vhea == (if has_table(b, TAG_VHEA) { Some(vhea_fields(table_data(b, TAG_VHEA))) } else { None })
                &&& f.vmtx is Some == has_table(b, TAG_VHEA)
                &&& f.vmtx matches Some(t) ==> t.vmetrics@.len() == n && forall|i: int| 0 <= i < n ==> #[trigger] t.vmetrics@[i] == (VMetric {
                    advance_height: advance_of(table_data(b, TAG_VMTX), be16(table_data(b, TAG_VHEA), 34) as nat, i),
                    top_side_bearing: bearing_of(table_data(b, TAG_VMTX), be16(table_data(b, TAG_VHEA), 34) as nat, i),
                })
                &&& f.cpal is Some == has_table(b, TAG_CPAL)
                &&& f.cpal matches Some(t) ==> cpal_matches(t, table_data(b, TAG_CPAL))
                &&& f.colr is Some == has_table(b, TAG_COLR)
                &&& f.colr matches Some(t) ==> colr_matches(t, table_data(b, TAG_COLR))
            },
    {
        let dir = match TableDirectory::new(data) {
            Ok(d) => d,
            Err(e) => return Err(e),
        };
        let (head, maxp, cmap, loca, glyf) = match read_required(data, &dir) {
            Ok(t) => t,
            Err(e) => return Err(e),
        };
        let kern = read_kern(data, &dir);
        let (hhea, hmtx) = match read_horizontal(data, &dir, maxp.num_glyphs) {
            Ok(t) => t,
            Err(e) => return Err(e),
        };
        let (vhea, vmtx) = match read_vertical(data, &dir, maxp.num_glyphs) {
            Ok(t) => t,
            Err(e) => return Err(e),
        };
        let (cpal, colr) = match read_color(data, &dir) {
            Ok(t) => t,
            Err(e) => return Err(e),
        };
        Ok(RawFont { head, cmap, maxp, loca, glyf, kern, hhea, hmtx, vhea, vmtx, cpal, colr })
    }
}

/// Whether a kern table of this length is one the kern parser takes.
fn kern_table_fits(len: usize) -> (r: bool)
    ensures
        r == (len <= isize::MAX),
{
    len <= isize::MAX as usize
}

} // verus!
