//! The `maxp` table: the number of glyphs in the font.
use crate::parse::{be16, Stream};
use crate::FontResult;
use vstd::prelude::*;

verus! {

#[derive(Debug, PartialEq)]
pub struct TableMaxp {
    pub num_glyphs: u16,
}

impl TableMaxp {
    /// Reads the glyph count, which follows the 4 byte version.
    pub fn new(maxp: &[u8]) -> (r: FontResult<TableMaxp>)
        requires
            maxp@.len() >= 6,
        ensures
            r matches Ok(t) && t.num_glyphs == be16(maxp@, 4),
    {
        let mut stream = Stream::new(maxp);
        stream.skip(4);
        let num_glyphs = stream.read_u16();
        Ok(TableMaxp { num_glyphs })
    }
}

} // verus!
