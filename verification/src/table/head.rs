//! The `head` table: global information about the font.
use crate::parse::{be16, be32, sbe16, sbe64, Stream};
use crate::FontResult;
use vstd::prelude::*;

verus! {

/// The magic number every `head` table carries at byte 12.
pub const HEAD_MAGIC: u32 = 0x5F0F3CF5;

#[derive(Debug, PartialEq)]
pub struct TableHead {
    pub version_major: u16,
    pub version_minor: u16,
    pub font_revision: u32,
    pub checksum_adjustment: u32,
    pub magic_number: u32,
    pub flags: u16,
    pub units_per_em: u16,
    pub created: i64,
    pub modified: i64,
    pub xmin: i16,
    pub ymin: i16,
    pub xmax: i16,
    pub ymax: i16,
    pub mac_style: u16,
    pub lowest_rec_ppem: u16,
    pub font_direction_hint: i16,
    pub index_to_loc_format: i16,
    pub glyph_data_format: i16,
}

/// The fields of a `head` table laid out in `b`.
pub open spec fn head_fields(b: Seq<u8>) -> TableHead {
    TableHead {
        version_major: be16(b, 0) as u16,
        version_minor: be16(b, 2) as u16,
        font_revision: be32(b, 4) as u32,
        checksum_adjustment: be32(b, 8) as u32,
        magic_number: be32(b, 12) as u32,
        flags: be16(b, 16) as u16,
        units_per_em: be16(b, 18) as u16,
        created: sbe64(b, 20) as i64,
        modified: sbe64(b, 28) as i64,
        xmin: sbe16(b, 36) as i16,
        ymin: sbe16(b, 38) as i16,
        xmax: sbe16(b, 40) as i16,
        ymax: sbe16(b, 42) as i16,
        mac_style: be16(b, 44) as u16,
        lowest_rec_ppem: be16(b, 46) as u16,
        font_direction_hint: sbe16(b, 48) as i16,
        index_to_loc_format: sbe16(b, 50) as i16,
        glyph_data_format: sbe16(b, 52) as i16,
    }
}

impl TableHead {
    /// Parses the 54 byte `head` table. A wrong magic number is an error; the fields after it
    /// are only read when the magic number is right.
    pub fn new(head: &[u8]) -> (r: FontResult<TableHead>)
        requires
            head@.len() >= 16,
            be32(head@, 12) == HEAD_MAGIC ==> head@.len() >= 54,
        ensures
            be32(head@, 12) != HEAD_MAGIC ==> r == Err::<TableHead, &'static str>(
                "Font.head: Incorrect magic number, is this a font?",
            ),
            be32(head@, 12) == HEAD_MAGIC ==> r == Ok::<TableHead, &'static str>(head_fields(head@)),
    {
        let mut stream = Stream::new(head);
        let version_major = stream.read_u16();
        let version_minor = stream.read_u16();
        let font_revision = stream.read_u32();
        let checksum_adjustment = stream.read_u32();
        let magic_number = stream.read_u32();
        if magic_number != HEAD_MAGIC {
            return Err("Font.head: Incorrect magic number, is this a font?");
        }
        let flags = stream.read_u16();
        let units_per_em = stream.read_u16();
        let created = stream.read_i64();
        let modified = stream.read_i64();
        let xmin = stream.read_i16();
        let ymin = stream.read_i16();
        let xmax = stream.read_i16();
        let ymax = stream.read_i16();
        let mac_style = stream.read_u16();
        let lowest_rec_ppem = stream.read_u16();
        let font_direction_hint = stream.read_i16();
        let index_to_loc_format = stream.read_i16();
        let glyph_data_format = stream.read_i16();
        Ok(TableHead {
            version_major,
            version_minor,
            font_revision,
            checksum_adjustment,
            magic_number,
            flags,
            units_per_em,
            created,
            modified,
            xmin,
            ymin,
            xmax,
            ymax,
            mac_style,
            lowest_rec_ppem,
            font_direction_hint,
            index_to_loc_format,
            glyph_data_format,
        })
    }
}

} // verus!
