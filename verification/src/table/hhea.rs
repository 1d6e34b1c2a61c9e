//! The `hhea` table: horizontal line metrics and the count of long horizontal metrics.
use crate::parse::{be16, be32, sbe16, Stream};
use crate::FontResult;
use vstd::prelude::*;

verus! {

#[derive(Debug, PartialEq)]
pub struct TableHhea {
    pub version: u32,
    pub ascent: i16,
    pub descent: i16,
    pub line_gap: i16,
    pub advance_width_max: u16,
    pub min_left_side_bearing: i16,
    pub min_right_side_bearing: i16,
    pub xmax_extent: i16,
    pub caret_slope_rise: i16,
    pub caret_slope_run: i16,
    pub caret_offset: i16,
    pub metric_data_format: i16,
    pub num_long_hmetrics: u16,
}

/// The fields of a `hhea` table laid out in `b`; 8 reserved bytes precede the metric data
/// format.
pub open spec fn hhea_fields(b: Seq<u8>) -> TableHhea {
    TableHhea {
        version: be32(b, 0) as u32,
        ascent: sbe16(b, 4) as i16,
        descent: sbe16(b, 6) as i16,
        line_gap: sbe16(b, 8) as i16,
        advance_width_max: be16(b, 10) as u16,
        min_left_side_bearing: sbe16(b, 12) as i16,
        min_right_side_bearing: sbe16(b, 14) as i16,
        xmax_extent: sbe16(b, 16) as i16,
        caret_slope_rise: sbe16(b, 18) as i16,
        caret_slope_run: sbe16(b, 20) as i16,
        caret_offset: sbe16(b, 22) as i16,
        metric_data_format: sbe16(b, 32) as i16,
        num_long_hmetrics: be16(b, 34) as u16,
    }
}

impl TableHhea {
    /// Parses the 36 byte `hhea` table; a count of zero long metrics is an error.
    pub fn new(hhea: &[u8]) -> (r: FontResult<TableHhea>)
        requires
            hhea@.len() >= 36,
        ensures
            be16(hhea@, 34) == 0 ==> r == Err::<TableHhea, &'static str>(
                "Font.hhea: The number of long hmetrics must be geater than 0",
            ),
            be16(hhea@, 34) != 0 ==> r == Ok::<TableHhea, &'static str>(hhea_fields(hhea@)),
    {
        let mut stream = Stream::new(hhea);
        let version = stream.read_u32();
        let ascent = stream.read_i16();
        let descent = stream.read_i16();
        let line_gap = stream.read_i16();
        let advance_width_max = stream.read_u16();
        let min_left_side_bearing = stream.read_i16();
        let min_right_side_bearing = stream.read_i16();
        let xmax_extent = stream.read_i16();
        let caret_slope_rise = stream.read_i16();
        let caret_slope_run = stream.read_i16();
        let caret_offset = stream.read_i16();
        stream.skip(8);
        let metric_data_format = stream.read_i16();
        let num_long_hmetrics = stream.read_u16();
        if num_long_hmetrics == 0 {
            return Err("Font.hhea: The number of long hmetrics must be geater than 0");
        }
        Ok(TableHhea {
            version,
            ascent,
            descent,
            line_gap,
            advance_width_max,
            min_left_side_bearing,
            min_right_side_bearing,
            xmax_extent,
            caret_slope_rise,
            caret_slope_run,
            caret_offset,
            metric_data_format,
            num_long_hmetrics,
        })
    }
}

} // verus!
