//! The `vhea` table: vertical line metrics and the count of long vertical metrics.
use crate::parse::{be16, be32, sbe16, Stream};
use crate::FontResult;
use vstd::prelude::*;

verus! {

#[derive(Debug, PartialEq)]
pub struct TableVhea {
    pub version: u32,
    pub ascent: i16,
    pub descent: i16,
    pub line_gap: i16,
    pub advance_height_max: u16,
    pub min_top_side_bearing: i16,
    pub min_bottom_side_bearing: i16,
    pub ymax_extent: i16,
    pub caret_slope_rise: i16,
    pub caret_slope_run: i16,
    pub caret_offset: i16,
    pub metric_data_format: i16,
    pub num_long_vmetrics: u16,
}

/// The fields of a `vhea` table laid out in `b`; 8 reserved bytes precede the metric data
/// format.
pub open spec fn vhea_fields(b: Seq<u8>) -> TableVhea {
    TableVhea {
        version: be32(b, 0) as u32,
        ascent: sbe16(b, 4) as i16,
        descent: sbe16(b, 6) as i16,
        line_gap: sbe16(b, 8) as i16,
        advance_height_max: be16(b, 10) as u16,
        min_top_side_bearing: sbe16(b, 12) as i16,
        min_bottom_side_bearing: sbe16(b, 14) as i16,
        ymax_extent: sbe16(b, 16) as i16,
        caret_slope_rise: sbe16(b, 18) as i16,
        caret_slope_run: sbe16(b, 20) as i16,
        caret_offset: sbe16(b, 22) as i16,
        metric_data_format: sbe16(b, 32) as i16,
        num_long_vmetrics: be16(b, 34) as u16,
    }
}

impl TableVhea {
    /// Parses the 36 byte `vhea` table; a count of zero long metrics is an error.
    pub fn new(vhea: &[u8]) -> (r: FontResult<TableVhea>)
        requires
            vhea@.len() >= 36,
        ensures
            be16(vhea@, 34) == 0 ==> r == Err::<TableVhea, &'static str>(
                "Font.vhea: The number of long hmetrics must be geater than 0",
            ),
            be16(vhea@, 34) != 0 ==> r == Ok::<TableVhea, &'static str>(vhea_fields(vhea@)),
    {
        let mut stream = Stream::new(vhea);
        let version = stream.read_u32();
        let ascent = stream.read_i16();
        let descent = stream.read_i16();
        let line_gap = stream.read_i16();
        let advance_height_max = stream.read_u16();
        let min_top_side_bearing = stream.read_i16();
        let min_bottom_side_bearing = stream.read_i16();
        let ymax_extent = stream.read_i16();
        let caret_slope_rise = stream.read_i16();
        let caret_slope_run = stream.read_i16();
        let caret_offset = stream.read_i16();
        stream.skip(8);
        let metric_data_format = stream.read_i16();
        let num_long_vmetrics = stream.read_u16();
        if num_long_vmetrics == 0 {
            return Err("Font.vhea: The number of long hmetrics must be geater than 0");
        }
        Ok(TableVhea {
            version,
            ascent,
            descent,
            line_gap,
            advance_height_max,
            min_top_side_bearing,
            min_bottom_side_bearing,
            ymax_extent,
            caret_slope_rise,
            caret_slope_run,
            caret_offset,
            metric_data_format,
            num_long_vmetrics,
        })
    }
}

} // verus!
