//! The `CPAL` table: the color palettes used by the `COLR` table.
use crate::parse::{be16, be32, Stream};
use crate::FontResult;
use vstd::prelude::*;

verus! {

#[derive(Debug)]
pub struct TableCpal {
    pub header: Header,
    pub color_records: Vec<BGRA8Color>,
}

#[derive(Copy, Clone, Debug)]
pub struct BGRA8Color {
    pub b: u8,
    pub g: u8,
    pub r: u8,
    pub a: u8,
}

#[derive(Clone, Debug)]
pub struct Header {
    pub version: u16,
    pub num_palette_entries: u16,
    pub num_palettes: u16,
    pub num_color_records: u16,
    pub offset_first_color_record: u32,
    pub color_record_indicies: Vec<u16>,
}

/// The offset of the first color record, read at byte 8.
pub open spec fn first_record_offset(b: Seq<u8>) -> int {
    be32(b, 8) as int
}

/// The palette start index number `i`, read from the run of `num_palettes` values at the first
/// color record offset.
pub open spec fn palette_index(b: Seq<u8>, i: int) -> u16 {
    be16(b, first_record_offset(b) + 2 * i) as u16
}

/// Color record number `i`; the records follow the palette start indices.
pub open spec fn color_record(b: Seq<u8>, i: int) -> BGRA8Color {
    let at = first_record_offset(b) + 2 * be16(b, 4) + 4 * i;
    BGRA8Color { b: b[at], g: b[at + 1], r: b[at + 2], a: b[at + 3] }
}

/// The table holds its header, the palette start indices and the color records.
pub open spec fn cpal_readable(b: Seq<u8>) -> bool {
    &&& b.len() >= 2
    &&& (be16(b, 0) == 0 || be16(b, 0) == 1) ==> {
        &&& b.len() >= 12
        &&& first_record_offset(b) + 2 * be16(b, 4) + 4 * be16(b, 6) <= b.len()
    }
}

/// The table holds what the data lays out: its header, the palette start indices and the color
/// records.
pub open spec fn cpal_matches(t: TableCpal, b: Seq<u8>) -> bool {
    &&& t.header.version == be16(b, 0)
    &&& t.header.num_palette_entries == be16(b, 2)
    &&& t.header.num_palettes == be16(b, 4)
    &&& t.header.num_color_records == be16(b, 6)
    &&& t.header.offset_first_color_record == first_record_offset(b)
    &&& t.header.color_record_indicies@.len() == be16(b, 4)
    &&& forall|i: int| 0 <= i < be16(b, 4) ==> #[trigger] t.header.color_record_indicies@[i] == palette_index(b, i)
    &&& t.color_records@.len() == be16(b, 6)
    &&& forall|i: int| 0 <= i < be16(b, 6) ==> #[trigger] t.color_records@[i] == color_record(b, i)
}

impl TableCpal {
    /// Reads a version 0 or 1 table; other versions are an error.
    pub fn new(cpal: &[u8]) -> (r: FontResult<TableCpal>)
        requires
            cpal_readable(cpal@),
        ensures
            !(be16(cpal@, 0) == 0 || be16(cpal@, 0) == 1) ==> r == Err::<TableCpal, &'static str>(
                "Font.cpal: Unsupported cpal table version.",
            ),
            (be16(cpal@, 0) == 0 || be16(cpal@, 0) == 1) ==> (r matches Ok(t) && cpal_matches(t, cpal@)),
    {
        let mut stream = Stream::new(cpal);
        let version = stream.read_u16();
        if !(version == 0 || version == 1) {
            return Err("Font.cpal: Unsupported cpal table version.");
        }
        let header = Self::read_header(&mut stream, version);
        let color_records = Self::read_color_records(&mut stream, header.num_color_records);
        Ok(TableCpal { header, color_records })
    }

    fn read_header(stream: &mut Stream, version: u16) -> (h: Header)
        requires
            old(stream).offset == 2,
            old(stream).bytes@.len() >= 12,
            first_record_offset(old(stream).bytes@) + 2 * be16(old(stream).bytes@, 4) + 4 * be16(
                old(stream).bytes@,
                6,
            ) <= old(stream).bytes@.len(),
        ensures
            final(stream).bytes@ == old(stream).bytes@,
            final(stream).offset == first_record_offset(old(stream).bytes@) + 2 * be16(old(stream).bytes@, 4),
            h.version == version,
            h.num_palette_entries == be16(old(stream).bytes@, 2),
            h.num_palettes == be16(old(stream).bytes@, 4),
            h.num_color_records == be16(old(stream).bytes@, 6),
            h.offset_first_color_record == first_record_offset(old(stream).bytes@),
            h.color_record_indicies@.len() == h.num_palettes,
            forall|i: int| 0 <= i < h.num_palettes ==> #[trigger] h.color_record_indicies@[i] == palette_index(
                old(stream).bytes@,
                i,
            ),
    {
        let ghost b = stream.bytes@;
        let num_palette_entries = stream.read_u16();
        let num_palettes = stream.read_u16();
        let num_color_records = stream.read_u16();
        let offset_first_color_record = stream.read_u32();
        stream.seek(offset_first_color_record as usize);
        let mut color_record_indicies: Vec<u16> = Vec::with_capacity(num_palettes as usize);
        let mut k: u16 = 0;
        while k < num_palettes
            invariant
                stream.bytes@ == b,
                k <= num_palettes,
                num_palettes == be16(b, 4),
                offset_first_color_record == first_record_offset(b),
                first_record_offset(b) + 2 * be16(b, 4) + 4 * be16(b, 6) <= b.len(),
                stream.offset == offset_first_color_record + 2 * k,
                color_record_indicies@.len() == k,
                forall|i: int| 0 <= i < k ==> #[trigger] color_record_indicies@[i] == palette_index(b, i),
            decreases num_palettes - k,
        {
            color_record_indicies.push(stream.read_u16());
            k += 1;
        }
        Header {
            version,
            num_palette_entries,
            num_palettes,
            num_color_records,
            offset_first_color_record,
            color_record_indicies,
        }
    }

    fn read_color_records(stream: &mut Stream, num_color_records: u16) -> (r: Vec<BGRA8Color>)
        requires
            old(stream).offset + 4 * num_color_records <= old(stream).bytes@.len(),
        ensures
            final(stream).bytes@ == old(stream).bytes@,
            r@.len() == num_color_records,
            forall|i: int| 0 <= i < num_color_records ==> {
                let at = old(stream).offset + 4 * i;
                let b = old(stream).bytes@;
                #[trigger] r@[i] == BGRA8Color { b: b[at], g: b[at + 1], r: b[at + 2], a: b[at + 3] }
            },
    {
        let ghost b = stream.bytes@;
        let ghost start = stream.offset as int;
        let mut color_records: Vec<BGRA8Color> = Vec::with_capacity(num_color_records as usize);
        let mut k: u16 = 0;
        while k < num_color_records
            invariant
                stream.bytes@ == b,
                b == old(stream).bytes@,
                start == old(stream).offset,
                k <= num_color_records,
                start + 4 * num_color_records <= b.len(),
                stream.offset == start + 4 * k,
                color_records@.len() == k,
                forall|i: int| 0 <= i < k ==> {
                    let at = start + 4 * i;
                    #[trigger] color_records@[i] == BGRA8Color { b: b[at], g: b[at + 1], r: b[at + 2], a: b[at + 3] }
                },
            decreases num_color_records - k,
        {
            let cb = stream.read_u8();
            let cg = stream.read_u8();
            let cr = stream.read_u8();
            let ca = stream.read_u8();
            color_records.push(BGRA8Color { b: cb, g: cg, r: cr, a: ca });
            k += 1;
        }
        color_records
    }

    /// The color number `color_index` of the record run that palette `palette` starts at.
    pub open spec fn color_in(&self, palette: int, color_index: int) -> BGRA8Color {
        self.color_records@[self.header.color_record_indicies@[palette] + color_index]
    }

    /// True when palette `palette` and color `color_index` name a stored color.
    pub open spec fn has_color(&self, palette: int, color_index: int) -> bool {
        &&& 0 <= palette < self.header.color_record_indicies@.len()
        &&& self.header.color_record_indicies@[palette] + color_index <= u16::MAX
        &&& self.header.color_record_indicies@[palette] + color_index < self.color_records@.len()
    }

    /// Gets the color at the given index from palette zero (which can be useful if you dont want
    /// to intelligently choose a palette).
    pub fn get_color(&self, color_index: u16) -> (c: BGRA8Color)
        requires
            self.has_color(0, color_index as int),
        ensures
            c == self.color_in(0, color_index as int),
    {
        self.get_color_from_palette(0, color_index)
    }

    /// Gets the color at a given index from a specific palette.
    pub fn get_color_from_palette(&self, palette: u16, color_index: u16) -> (c: BGRA8Color)
        requires
            self.has_color(palette as int, color_index as int),
        ensures
            c == self.color_in(palette as int, color_index as int),
    {
        self.color_records[(self.header.color_record_indicies[palette as usize] + color_index) as usize]
    }
}

} // verus!
