//! Parsers for the tables of a TrueType / OpenType font file.
pub mod parse;
pub mod head;
pub mod hhea;
pub mod maxp;
pub mod vhea;
pub mod hmtx;
pub mod vmtx;
pub mod colr;
pub mod loca;
pub mod cpal;
pub mod kern;
pub mod cmap;
pub mod directory;
pub mod glyf;
pub mod gsub;
