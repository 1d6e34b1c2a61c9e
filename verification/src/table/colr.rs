//! The `COLR` table: the colored layers of multi-colored glyphs. It requires the `CPAL` table.
use crate::parse::{be16, be32, Stream};
use crate::FontResult;
use vstd::prelude::*;

verus! {

#[derive(Debug)]
pub struct TableColr {
    pub header: Header,
    pub base_glyph_records: Vec<BaseGlyphRecord>,
    pub layer_records: Vec<LayerRecord>,
}

#[derive(Copy, Clone, Debug)]
pub struct Header {
    pub version: u16,
    pub num_base_glyph_records: u16,
    pub base_glyph_records_offset: u32,
    pub layer_records_offset: u32,
    pub num_layer_records: u16,
}

#[derive(Copy, Clone, Debug)]
pub struct BaseGlyphRecord {
    pub gid: u16,
    pub first_layer_index: u16,
    pub num_layers: u16,
}

#[derive(Copy, Clone, Debug)]
pub struct LayerRecord {
    pub gid: u16,
    pub palette_index: u16,
}

/// The header fields laid out at the start of `b`.
pub open spec fn colr_header(b: Seq<u8>) -> Header {
    Header {
        version: be16(b, 0) as u16,
        num_base_glyph_records: be16(b, 2) as u16,
        base_glyph_records_offset: be32(b, 4) as u32,
        layer_records_offset: be32(b, 8) as u32,
        num_layer_records: be16(b, 12) as u16,
    }
}

/// The base glyph record number `i` of a run starting at `at`.
pub open spec fn base_glyph_record(b: Seq<u8>, at: int, i: int) -> BaseGlyphRecord {
    BaseGlyphRecord {
        gid: be16(b, at + 6 * i) as u16,
        first_layer_index: be16(b, at + 6 * i + 2) as u16,
        num_layers: be16(b, at + 6 * i + 4) as u16,
    }
}

/// The layer record number `i` of a run starting at `at`.
pub open spec fn layer_record(b: Seq<u8>, at: int, i: int) -> LayerRecord {
    LayerRecord { gid: be16(b, at + 4 * i) as u16, palette_index: be16(b, at + 4 * i + 2) as u16 }
}

/// The table holds its header and both runs of records it points to.
pub open spec fn colr_readable(b: Seq<u8>) -> bool {
    let h = colr_header(b);
    &&& b.len() >= 14
    &&& h.base_glyph_records_offset + 6 * h.num_base_glyph_records <= b.len()
    &&& h.layer_records_offset + 4 * h.num_layer_records <= b.len()
}

/// The table holds what the data lays out: its header and both runs of records.
pub open spec fn colr_matches(t: TableColr, b: Seq<u8>) -> bool {
    let h = colr_header(b);
    &&& t.header == h
    &&& t.base_glyph_records@.len() == h.num_base_glyph_records
    &&& forall|i: int| 0 <= i < h.num_base_glyph_records ==> #[trigger] t.base_glyph_records@[i]
        == base_glyph_record(b, h.base_glyph_records_offset as int, i)
    &&& t.layer_records@.len() == h.num_layer_records
    &&& forall|i: int| 0 <= i < h.num_layer_records ==> #[trigger] t.layer_records@[i]
        == layer_record(b, h.layer_records_offset as int, i)
}

impl TableColr {
    /// Reads the header and the two runs of records.
    pub fn new(colr: &[u8]) -> (r: FontResult<TableColr>)
        requires
            colr_readable(colr@),
        ensures
            r matches Ok(t) && colr_matches(t, colr@),
    {
        let mut stream = Stream::new(colr);
        let header = Self::read_header(&mut stream);
        let base_glyph_records = Self::read_base_glyph_records(
            &mut stream,
            header.base_glyph_records_offset,
            header.num_base_glyph_records,
        );
        let layer_records = Self::read_layer_records(&mut stream, header.layer_records_offset, header.num_layer_records);
        Ok(TableColr { header, base_glyph_records, layer_records })
    }

    fn read_header(stream: &mut Stream) -> (h: Header)
        requires
            old(stream).offset == 0,
            old(stream).bytes@.len() >= 14,
        ensures
            h == colr_header(old(stream).bytes@),
            final(stream).bytes@ == old(stream).bytes@,
    {
        let version = stream.read_u16();
        let num_base_glyph_records = stream.read_u16();
        let base_glyph_records_offset = stream.read_u32();
        let layer_records_offset = stream.read_u32();
        let num_layer_records = stream.read_u16();
        Header {
            version,
            num_base_glyph_records,
            base_glyph_records_offset,
            layer_records_offset,
            num_layer_records,
        }
    }

    fn read_base_glyph_records(stream: &mut Stream, base_glyph_records_offset: u32, num_base_glyph_records: u16) -> (r: Vec<BaseGlyphRecord>)
        requires
            base_glyph_records_offset + 6 * num_base_glyph_records <= old(stream).bytes@.len(),
        ensures
            final(stream).bytes@ == old(stream).bytes@,
            r@.len() == num_base_glyph_records,
            forall|i: int| 0 <= i < num_base_glyph_records ==> #[trigger] r@[i] == base_glyph_record(
                old(stream).bytes@,
                base_glyph_records_offset as int,
                i,
            ),
    {
        stream.seek(base_glyph_records_offset as usize);
        let ghost b = stream.bytes@;
        let mut result: Vec<BaseGlyphRecord> = Vec::with_capacity(num_base_glyph_records as usize);
        let mut k: u16 = 0;
        while k < num_base_glyph_records
            invariant
                stream.bytes@ == b,
                b == old(stream).bytes@,
                k <= num_base_glyph_records,
                base_glyph_records_offset + 6 * num_base_glyph_records <= b.len(),
                stream.offset == base_glyph_records_offset + 6 * k,
                result@.len() == k,
                forall|i: int| 0 <= i < k ==> #[trigger] result@[i] == base_glyph_record(
                    b,
                    base_glyph_records_offset as int,
                    i,
                ),
            decreases num_base_glyph_records - k,
        {
            let gid = stream.read_u16();
            let first_layer_index = stream.read_u16();
            let num_layers = stream.read_u16();
            result.push(BaseGlyphRecord { gid, first_layer_index, num_layers });
            k += 1;
        }
        result
    }

    fn read_layer_records(stream: &mut Stream, layer_records_offset: u32, num_layer_records: u16) -> (r: Vec<LayerRecord>)
        requires
            layer_records_offset + 4 * num_layer_records <= old(stream).bytes@.len(),
        ensures
            final(stream).bytes@ == old(stream).bytes@,
            r@.len() == num_layer_records,
            forall|i: int| 0 <= i < num_layer_records ==> #[trigger] r@[i] == layer_record(
                old(stream).bytes@,
                layer_records_offset as int,
                i,
            ),
    {
        stream.seek(layer_records_offset as usize);
        let ghost b = stream.bytes@;
        let mut result: Vec<LayerRecord> = Vec::with_capacity(num_layer_records as usize);
        let mut k: u16 = 0;
        while k < num_layer_records
            invariant
                stream.bytes@ == b,
                b == old(stream).bytes@,
                k <= num_layer_records,
                layer_records_offset + 4 * num_layer_records <= b.len(),
                stream.offset == layer_records_offset + 4 * k,
                result@.len() == k,
                forall|i: int| 0 <= i < k ==> #[trigger] result@[i] == layer_record(b, layer_records_offset as int, i),
            decreases num_layer_records - k,
        {
            let gid = stream.read_u16();
            let palette_index = stream.read_u16();
            result.push(LayerRecord { gid, palette_index });
            k += 1;
        }
        result
    }
}

} // verus!
