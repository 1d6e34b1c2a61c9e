# fontdue

A font parser for TrueType and OpenType fonts, written in Verus with its behaviour stated in
contracts and proved.

- `src/` is the verified library: the FxHash file fingerprint, the byte streams, the parsers of
  the font tables (`head`, `hhea`, `maxp`, `vhea`, `hmtx`, `vmtx`, `loca`, `glyf`, `cmap`, `kern`,
  `CPAL`, `COLR`, the table directory), the reading of a whole font file (`raw`), the loading of
  a font face through ttf-parser (`font`, `table::gsub`), and the Unicode helpers used by text
  layout (UTF-8 and UTF-16 decoding, linebreak priorities, character classes, the line breaker).
- `app/` is ordinary Rust on top of it: glyph outlines, the rasterizer, metrics in pixels and
  the layout engine, all of which work in floating point.
- `tests/` exercises the library on hand-built font data.
