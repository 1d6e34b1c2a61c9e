//! The `loca` table: where each glyph's outline lies in the `glyf` table.
use crate::parse::{be16, be32, Stream};
use crate::FontResult;
use vstd::prelude::*;

verus! {

#[derive(Copy, Clone, Debug, PartialEq)]
pub struct GlyphLocation {
    pub offset: usize,
    pub length: usize,
}

#[derive(Debug, PartialEq)]
pub struct TableLoca {
    /// Indexed by glyph id.
    pub locations: Vec<GlyphLocation>,
}

/// Offset number `i` of the table: half offsets of two bytes for format 0, full offsets of four
/// bytes otherwise.
pub open spec fn loca_offset(b: Seq<u8>, format: i16, i: int) -> int {
    if format == 0 { (2 * be16(b, 2 * i)) as int } else { be32(b, 4 * i) as int }
}

/// The bytes the table needs to hold `num_glyphs + 1` offsets.
pub open spec fn loca_len(format: i16, num_glyphs: nat) -> int {
    if format == 0 { 2 * (num_glyphs + 1) as int } else { 4 * (num_glyphs + 1) as int }
}

/// The offsets never decrease, so that every glyph has a length.
pub open spec fn loca_ordered(b: Seq<u8>, format: i16, num_glyphs: nat) -> bool {
    forall|i: int| 0 <= i < num_glyphs ==> #[trigger] loca_offset(b, format, i) <= loca_offset(b, format, i + 1)
}

impl TableLoca {
    /// Reads `num_glyphs + 1` offsets; glyph `i` spans from offset `i` to offset `i + 1`. A format
    /// above 1 is an error.
    pub fn new(loca: &[u8], index_to_loc_format: i16, num_glyphs: u16) -> (r: FontResult<TableLoca>)
        requires
            index_to_loc_format <= 1 ==> loca@.len() >= loca_len(index_to_loc_format, num_glyphs as nat),
            index_to_loc_format <= 1 ==> loca_ordered(loca@, index_to_loc_format, num_glyphs as nat),
        ensures
            index_to_loc_format > 1 ==> r == Err::<TableLoca, &'static str>("Font.loca: Unknown index_to_loc_format"),
            index_to_loc_format <= 1 ==> (r matches Ok(t) && t.locations@.len() == num_glyphs && forall|i: int|
                0 <= i < num_glyphs ==> #[trigger] t.locations@[i] == (GlyphLocation {
                    offset: loca_offset(loca@, index_to_loc_format, i) as usize,
                    length: (loca_offset(loca@, index_to_loc_format, i + 1) - loca_offset(
                        loca@,
                        index_to_loc_format,
                        i,
                    )) as usize,
                })),
    {
        if index_to_loc_format > 1 {
            return Err("Font.loca: Unknown index_to_loc_format");
        }
        let ghost b = loca@;
        let ghost fmt = index_to_loc_format;
        let mut stream = Stream::new(loca);
        let mut locations: Vec<GlyphLocation> = Vec::with_capacity(num_glyphs as usize);
        let mut offset: usize;
        let step: usize = if index_to_loc_format == 0 { 2 } else { 4 };
        if index_to_loc_format == 0 {
            offset = stream.read_u16() as usize * 2;
        } else {
            offset = stream.read_u32() as usize;
        }
        let mut i: u16 = 0;
        while i < num_glyphs
            invariant
                b == loca@,
                fmt == index_to_loc_format,
                fmt <= 1,
                step == (if fmt == 0 { 2usize } else { 4usize }),
                stream.bytes@ == b,
                stream.offset == step * (i + 1),
                b.len() >= loca_len(fmt, num_glyphs as nat),
                loca_ordered(b, fmt, num_glyphs as nat),
                i <= num_glyphs,
                offset == loca_offset(b, fmt, i as int),
                locations@.len() == i,
                forall|j: int| 0 <= j < i ==> #[trigger] locations@[j] == (GlyphLocation {
                    offset: loca_offset(b, fmt, j) as usize,
                    length: (loca_offset(b, fmt, j + 1) - loca_offset(b, fmt, j)) as usize,
                }),
            decreases num_glyphs - i,
        {
            let next_offset: usize;
            if index_to_loc_format == 0 {
                next_offset = stream.read_u16() as usize * 2;
            } else {
                next_offset = stream.read_u32() as usize;
            }
            assert(loca_offset(b, fmt, i as int) <= loca_offset(b, fmt, i + 1));
            locations.push(GlyphLocation { offset, length: next_offset - offset });
            offset = next_offset;
            i += 1;
        }
        Ok(TableLoca { locations })
    }
}

} // verus!
