//! The `hmtx` table: per glyph advance widths and left side bearings.
use crate::parse::{be16, sbe16, u16_from_be, i16_from_u16};
use crate::FontResult;
use vstd::prelude::*;

verus! {

#[derive(Copy, Clone, Debug, PartialEq, Eq, Hash)]
pub struct HMetric {
    pub advance_width: u16,
    pub left_side_bearing: i16,
}

pub struct TableHtmx {
    /// Indexed by glyph id.
    pub hmetrics: Vec<HMetric>,
}

/// The bytes a metrics table with `long` full records and `num` glyphs occupies: four bytes per
/// full record, then two bytes of side bearing per remaining glyph.
pub open spec fn metrics_len(num: nat, long: nat) -> int {
    4 * long + 2 * (num - long)
}

/// The advance of the last full record, which the glyphs after the full records share.
pub open spec fn last_advance(b: Seq<u8>, long: nat) -> u16 {
    if long == 0 { 0 } else { be16(b, 4 * (long - 1)) as u16 }
}

/// The advance of glyph `i`.
pub open spec fn advance_of(b: Seq<u8>, long: nat, i: int) -> u16 {
    if i < long { be16(b, 4 * i) as u16 } else { last_advance(b, long) }
}

/// The side bearing of glyph `i`.
pub open spec fn bearing_of(b: Seq<u8>, long: nat, i: int) -> i16 {
    if i < long { sbe16(b, 4 * i + 2) as i16 } else { sbe16(b, 4 * long + 2 * (i - long)) as i16 }
}

impl TableHtmx {
    /// Reads the full records and then the side bearings of the glyphs that share the last
    /// full record's advance.
    pub fn new(htmx: &[u8], num_glyphs: u16, num_long_hmetrics: u16) -> (r: FontResult<TableHtmx>)
        requires
            num_long_hmetrics <= num_glyphs,
            htmx@.len() >= metrics_len(num_glyphs as nat, num_long_hmetrics as nat),
        ensures
            r matches Ok(t) && t.hmetrics@.len() == num_glyphs && forall|i: int|
                0 <= i < num_glyphs ==> #[trigger] t.hmetrics@[i] == (HMetric {
                    advance_width: advance_of(htmx@, num_long_hmetrics as nat, i),
                    left_side_bearing: bearing_of(htmx@, num_long_hmetrics as nat, i),
                }),
    {
        let ghost b = htmx@;
        let ghost long = num_long_hmetrics as nat;
        let mut hmetrics: Vec<HMetric> = Vec::with_capacity(num_glyphs as usize);
        let mut advance_width: u16 = 0;
        let mut i: usize = 0;
        while i < num_long_hmetrics as usize
            invariant
                b == htmx@,
                long == num_long_hmetrics,
                i <= long,
                b.len() >= metrics_len(num_glyphs as nat, long),
                long <= num_glyphs,
                hmetrics@.len() == i,
                advance_width == last_advance(b, i as nat),
                forall|j: int| 0 <= j < i ==> #[trigger] hmetrics@[j] == (HMetric {
                    advance_width: advance_of(b, long, j),
                    left_side_bearing: bearing_of(b, long, j),
                }),
            decreases long - i,
        {
            advance_width = u16_from_be(htmx[i * 4], htmx[i * 4 + 1]);
            let left_side_bearing = i16_from_u16(u16_from_be(htmx[2 + i * 4], htmx[3 + i * 4]));
            hmetrics.push(HMetric { advance_width, left_side_bearing });
            i += 1;
        }
        let left_side_bearing_offset = num_long_hmetrics as usize * 4;
        let rest = (num_glyphs - num_long_hmetrics) as usize;
        let mut k: usize = 0;
        while k < rest
            invariant
                b == htmx@,
                long == num_long_hmetrics,
                rest == num_glyphs - long,
                left_side_bearing_offset == 4 * long,
                k <= rest,
                b.len() >= metrics_len(num_glyphs as nat, long),
                long <= num_glyphs,
                hmetrics@.len() == long + k,
                advance_width == last_advance(b, long),
                forall|j: int| 0 <= j < long + k ==> #[trigger] hmetrics@[j] == (HMetric {
                    advance_width: advance_of(b, long, j),
                    left_side_bearing: bearing_of(b, long, j),
                }),
            decreases rest - k,
        {
            let at = k * 2 + left_side_bearing_offset;
            let left_side_bearing = i16_from_u16(u16_from_be(htmx[at], htmx[at + 1]));
            hmetrics.push(HMetric { advance_width, left_side_bearing });
            k += 1;
        }
        Ok(TableHtmx { hmetrics })
    }
}

} // verus!
