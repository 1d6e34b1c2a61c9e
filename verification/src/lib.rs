//! Fontdue is a font parser, rasterizer, and layout tool. This crate holds the parts of it that
//! work on integers and bytes: the file hash, the byte streams, the font table parsers, the
//! loading of a font face (its name, character map, kerning pairs and the glyphs to build), the
//! unicode helpers used by layout and the bookkeeping of which glyphs fall on which line.
use vstd::prelude::*;

pub mod font;
pub mod hash;
pub mod layout;
pub mod parse;
pub mod raw;
pub mod table;
pub mod unicode;

verus! {

/// Alias for Result<T, &'static str>.
pub type FontResult<T> = Result<T, &'static str>;

} // verus!
