//! The `vmtx` table: per glyph advance heights and top side bearings.
use crate::parse::Stream;
use crate::table::hmtx::{advance_of, bearing_of, last_advance, metrics_len};
use crate::FontResult;
use vstd::prelude::*;

verus! {

#[derive(Copy, Clone, Debug, PartialEq)]
pub struct VMetric {
    pub advance_height: u16,
    pub top_side_bearing: i16,
}

#[derive(Debug, PartialEq)]
pub struct TableVmtx {
    /// Indexed by glyph id.
    pub vmetrics: Vec<VMetric>,
}

impl TableVmtx {
    /// Reads the full records and then the side bearings of the glyphs that share the last
    /// full record's advance.
    pub fn new(vmtx: &[u8], num_glyphs: u16, num_long_vmetrics: u16) -> (r: FontResult<TableVmtx>)
        requires
            num_long_vmetrics <= num_glyphs,
            vmtx@.len() >= metrics_len(num_glyphs as nat, num_long_vmetrics as nat),
        ensures
            r matches Ok(t) && t.vmetrics@.len() == num_glyphs && forall|i: int|
                0 <= i < num_glyphs ==> #[trigger] t.vmetrics@[i] == (VMetric {
                    advance_height: advance_of(vmtx@, num_long_vmetrics as nat, i),
                    top_side_bearing: bearing_of(vmtx@, num_long_vmetrics as nat, i),
                }),
    {
        let ghost b = vmtx@;
        let ghost long = num_long_vmetrics as nat;
        let mut stream = Stream::new(vmtx);
        let mut vmetrics: Vec<VMetric> = Vec::with_capacity(num_glyphs as usize);
        let mut advance_height: u16 = 0;
        let mut i: u16 = 0;
        while i < num_long_vmetrics
            invariant
                b == vmtx@,
                stream.bytes@ == b,
                long == num_long_vmetrics,
                i <= long,
                stream.offset == 4 * i,
                b.len() >= metrics_len(num_glyphs as nat, long),
                long <= num_glyphs,
                vmetrics@.len() == i,
                advance_height == last_advance(b, i as nat),
                forall|j: int| 0 <= j < i ==> #[trigger] vmetrics@[j] == (VMetric {
                    advance_height: advance_of(b, long, j),
                    top_side_bearing: bearing_of(b, long, j),
                }),
            decreases long - i,
        {
            advance_height = stream.read_u16();
            let top_side_bearing = stream.read_i16();
            vmetrics.push(VMetric { advance_height, top_side_bearing });
            i += 1;
        }
        let rest = num_glyphs - num_long_vmetrics;
        let mut k: u16 = 0;
        while k < rest
            invariant
                b == vmtx@,
                stream.bytes@ == b,
                long == num_long_vmetrics,
                rest == num_glyphs - long,
                k <= rest,
                stream.offset == 4 * long + 2 * k,
                b.len() >= metrics_len(num_glyphs as nat, long),
                long <= num_glyphs,
                vmetrics@.len() == long + k,
                advance_height == last_advance(b, long),
                forall|j: int| 0 <= j < long + k ==> #[trigger] vmetrics@[j] == (VMetric {
                    advance_height: advance_of(b, long, j),
                    top_side_bearing: bearing_of(b, long, j),
                }),
            decreases rest - k,
        {
            let top_side_bearing = stream.read_i16();
            vmetrics.push(VMetric { advance_height, top_side_bearing });
            k += 1;
        }
        Ok(TableVmtx { vmetrics })
    }
}

} // verus!
