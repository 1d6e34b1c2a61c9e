//! Flags of the points of a simple glyph.
use vstd::prelude::*;

verus! {

pub const NONE: u8 = 0x00;
pub const ON_CURVE: u8 = 0x01;
pub const X_SHORT: u8 = 0x02;
pub const Y_SHORT: u8 = 0x04;
pub const REPEAT: u8 = 0x08;
pub const X_DUAL: u8 = 0x10;
pub const Y_DUAL: u8 = 0x20;
pub const OVERLAP_SIMPLE: u8 = 0x40;
pub const X_SHORT_AND_DUAL: u8 = 0x12;
pub const Y_SHORT_AND_DUAL: u8 = 0x24;

} // verus!
