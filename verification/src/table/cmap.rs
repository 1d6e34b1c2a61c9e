//! The `cmap` table: the mapping from unicode codepoints to glyph indices. The first usable
//! unicode subtable is read, preferring formats 4 and 12.
use crate::parse::{be16, be32, Stream};
use crate::FontResult;
use vstd::prelude::*;

verus! {

// ---- the map, kept in a hashbrown table ----

/// A hashbrown map from codepoints to glyph indices. A glyph index of zero, which some subtables
/// hold, is kept as it is.
#[verifier::external_body]
#[derive(Debug)]
pub struct GlyphIdMap {
    map: hashbrown::HashMap<u32, u32>,
}

/// The pairs a `GlyphIdMap` holds.
pub uninterp spec fn glyph_id_map_contents(m: GlyphIdMap) -> Map<u32, u32>;

/// The map without any pair.
pub open spec fn no_glyph_ids() -> Map<u32, u32> {
    Map::empty()
}

/// `hashbrown::HashMap::new`: the map holds no pair.
#[verifier::external_body]
fn glyph_id_map_new() -> (map: GlyphIdMap)
    ensures
        glyph_id_map_contents(map) == no_glyph_ids(),
{
    GlyphIdMap { map: hashbrown::HashMap::new() }
}

/// `hashbrown::HashMap::insert`: the key now maps to the value, replacing any earlier value; the
/// other pairs stay.
#[verifier::external_body]
fn glyph_id_map_insert(m: &mut GlyphIdMap, k: u32, v: u32)
    ensures
        glyph_id_map_contents(*final(m)) == glyph_id_map_contents(*old(m)).insert(k, v),
{
    m.map.insert(k, v);
}

/// `hashbrown::HashMap::get`: the value of the key, if the map holds it.
#[verifier::external_body]
fn glyph_id_map_get(m: &GlyphIdMap, k: u32) -> (r: Option<u32>)
    ensures
        r == (if glyph_id_map_contents(*m).contains_key(k) {
            Some(glyph_id_map_contents(*m)[k])
        } else {
            None::<u32>
        }),
{
    m.map.get(&k).copied()
}

impl GlyphIdMap {
    pub open spec fn view(&self) -> Map<u32, u32> {
        glyph_id_map_contents(*self)
    }

    /// The glyph index the codepoint maps to, if any.
    pub fn get(&self, codepoint: u32) -> (r: Option<u32>)
        ensures
            r == (if self.view().contains_key(codepoint) { Some(self.view()[codepoint]) } else { None::<u32> }),
    {
        glyph_id_map_get(self, codepoint)
    }
}

#[derive(Debug)]
pub struct TableCmap {
    pub map: GlyphIdMap,
}

/// Formats 4 and 12 are the most popular. Some fonts can include others for compatibility.
pub open spec fn ideal_format(f: u16) -> bool {
    f == 4 || f == 12
}

/// The formats this parser reads.
pub open spec fn supported_format(f: u16) -> bool {
    f == 0 || f == 4 || f == 6 || f == 10 || f == 12 || f == 13
}

fn is_ideal_format(f: u16) -> (r: bool)
    ensures
        r == ideal_format(f),
{
    f == 4 || f == 12
}

fn is_supported_format(f: u16) -> (r: bool)
    ensures
        r == supported_format(f),
{
    f == 0 || f == 4 || f == 6 || f == 10 || f == 12 || f == 13
}

// ---- choosing the subtable ----

/// Whether an encoding record is unicode: platform 0, or platform 3 with encoding 1 (BMP) or
/// 10 (full repertoire).
pub open spec fn unicode_encoding(platform: nat, specific: nat) -> bool {
    platform == 0 || (platform == 3 && (specific == 1 || specific == 10))
}

/// Walks the encoding records from number `i` on, carrying the offset chosen so far; a supported
/// unicode subtable replaces the choice, and an ideal one ends the walk. `None` when a record or
/// the format it points to lies past the data.
pub open spec fn cmap_select(b: Seq<u8>, i: nat, n: nat, chosen: int) -> Option<int>
    decreases n - i,
{
    if i >= n {
        Some(chosen)
    } else if 8 * i + 12 > b.len() {
        None
    } else {
        let rec = (8 * i + 4) as int;
        let at = be32(b, rec + 4) as int;
        if at + 2 > b.len() {
            None
        } else {
            let format = be16(b, at) as u16;
            if supported_format(format) && unicode_encoding(be16(b, rec), be16(b, rec + 2)) {
                if ideal_format(format) { Some(at) } else { cmap_select(b, i + 1, n, at) }
            } else {
                cmap_select(b, i + 1, n, chosen)
            }
        }
    }
}

/// The offset of the subtable the parser reads, or 0 when there is none.
pub open spec fn cmap_choice(b: Seq<u8>) -> int {
    cmap_select(b, 0, be16(b, 2) as nat, 0).unwrap()
}

// ---- the pairs each format yields, in the order they are inserted ----

/// Inserts the pairs in order, so that a later pair for the same codepoint wins.
pub open spec fn insert_all(m: Map<u32, u32>, pairs: Seq<(u32, u32)>) -> Map<u32, u32>
    decreases pairs.len(),
{
    if pairs.len() == 0 {
        m
    } else {
        insert_all(m, pairs.drop_last()).insert(pairs.last().0, pairs.last().1)
    }
}

/// Format 0: one glyph byte for each of the codepoints `0 .. length - 6`.
pub open spec fn format0_pairs(b: Seq<u8>, mo: int) -> Seq<(u32, u32)> {
    Seq::new((be16(b, mo + 2) - 6) as nat, |k: int| (k as u32, b[mo + 6 + k] as u32))
}

/// Format 6: a run of `count` glyph indices from codepoint `first`.
pub open spec fn format6_pairs(b: Seq<u8>, mo: int) -> Seq<(u32, u32)> {
    Seq::new(be16(b, mo + 8), |k: int| ((be16(b, mo + 6) + k) as u32, be16(b, mo + 10 + 2 * k) as u32))
}

/// Format 10: a run of `count` glyph indices from a 32 bit codepoint.
pub open spec fn format10_pairs(b: Seq<u8>, mo: int) -> Seq<(u32, u32)> {
    Seq::new(be32(b, mo + 16), |k: int| ((be32(b, mo + 12) + k) as u32, be16(b, mo + 20 + 2 * k) as u32))
}

/// The number of codepoints in the inclusive range `start ..= end`.
pub open spec fn range_len(start: int, end: int) -> nat {
    if end >= start { (end - start + 1) as nat } else { 0 }
}

/// Group number `g` of a format 12 or 13 subtable at `mo`: its codepoints map to consecutive
/// glyphs (format 12) or all to one glyph (format 13).
pub open spec fn group_pairs(b: Seq<u8>, mo: int, g: int, consecutive: bool) -> Seq<(u32, u32)> {
    let at = mo + 16 + 12 * g;
    let start = be32(b, at) as int;
    let end = be32(b, at + 4) as int;
    let glyph = be32(b, at + 8) as int;
    Seq::new(range_len(start, end), |k: int| ((start + k) as u32, (if consecutive { glyph + k } else { glyph }) as u32))
}

/// The pairs of the first `n` groups.
pub open spec fn groups_pairs(b: Seq<u8>, mo: int, n: nat, consecutive: bool) -> Seq<(u32, u32)>
    decreases n,
{
    if n == 0 {
        Seq::empty()
    } else {
        groups_pairs(b, mo, (n - 1) as nat, consecutive) + group_pairs(b, mo, n - 1, consecutive)
    }
}

/// The segment count of a format 4 subtable.
pub open spec fn segment_count(b: Seq<u8>, mo: int) -> int {
    be16(b, mo + 6) as int / 2
}

/// The end code of segment `i`.
pub open spec fn seg_end(b: Seq<u8>, mo: int, i: int) -> int {
    be16(b, mo + 14 + 2 * i) as int
}

/// The start code of segment `i`.
pub open spec fn seg_start(b: Seq<u8>, mo: int, i: int) -> int {
    be16(b, mo + 16 + 2 * segment_count(b, mo) + 2 * i) as int
}

/// The delta of segment `i`.
pub open spec fn seg_delta(b: Seq<u8>, mo: int, i: int) -> u16 {
    be16(b, mo + 16 + 4 * segment_count(b, mo) + 2 * i) as u16
}

/// The range offset of segment `i`.
pub open spec fn seg_range_offset(b: Seq<u8>, mo: int, i: int) -> int {
    be16(b, mo + 16 + 6 * segment_count(b, mo) + 2 * i) as int
}

/// Where the glyph index of codepoint `c` of segment `i` lies when the segment has a range
/// offset: the offset counts from the range offset's own position.
pub open spec fn seg_glyph_at(b: Seq<u8>, mo: int, i: int, c: int) -> int {
    mo + 16 + 6 * segment_count(b, mo) + 2 * i + seg_range_offset(b, mo, i) + 2 * (c - seg_start(b, mo, i))
}

/// The glyph of codepoint `c` in segment `i`: the codepoint plus the delta, or the glyph read
/// through the range offset plus the delta, where a read glyph of 0 stays 0.
pub open spec fn seg_glyph(b: Seq<u8>, mo: int, i: int, c: int) -> u16 {
    if seg_range_offset(b, mo, i) != 0 {
        let g = be16(b, seg_glyph_at(b, mo, i, c)) as u16;
        if g != 0 { vstd::wrapping::u16_specs::wrapping_add(g, seg_delta(b, mo, i)) } else { 0 }
    } else {
        vstd::wrapping::u16_specs::wrapping_add(c as u16, seg_delta(b, mo, i))
    }
}

/// The pairs of segment `i`.
pub open spec fn segment_pairs(b: Seq<u8>, mo: int, i: int) -> Seq<(u32, u32)> {
    let start = seg_start(b, mo, i);
    Seq::new(range_len(start, seg_end(b, mo, i)), |k: int| ((start + k) as u32, seg_glyph(b, mo, i, start + k) as u32))
}

/// The pairs of the first `n` segments.
pub open spec fn segments_pairs(b: Seq<u8>, mo: int, n: nat) -> Seq<(u32, u32)>
    decreases n,
{
    if n == 0 { Seq::empty() } else { segments_pairs(b, mo, (n - 1) as nat) + segment_pairs(b, mo, n - 1) }
}

/// The pairs of the subtable at `mo`, whose format is `format`; the last segment of format 4,
/// the 0xFFFF terminator, is not read.
pub open spec fn subtable_pairs(b: Seq<u8>, mo: int, format: u16) -> Seq<(u32, u32)> {
    if format == 0 {
        format0_pairs(b, mo)
    } else if format == 4 {
        segments_pairs(b, mo, (segment_count(b, mo) - 1) as nat)
    } else if format == 6 {
        format6_pairs(b, mo)
    } else if format == 10 {
        format10_pairs(b, mo)
    } else if format == 12 {
        groups_pairs(b, mo, be32(b, mo + 12) as nat, true)
    } else {
        groups_pairs(b, mo, be32(b, mo + 12) as nat, false)
    }
}

// ---- what the parser needs of the data ----

/// A table as long as a Rust slice can be: at most `isize::MAX` bytes, so that offsets inside the
/// data plus a subtable's own offsets fit in a `usize`.
pub open spec fn cmap_fits(b: Seq<u8>) -> bool {
    b.len() <= isize::MAX
}

/// Every read of the subtable at `mo` lies in the data, and no count overflows.
pub open spec fn subtable_readable(b: Seq<u8>, mo: int, format: u16) -> bool {
    if format == 0 {
        mo + 6 <= b.len() && be16(b, mo + 2) >= 6 && mo + be16(b, mo + 2) <= b.len()
    } else if format == 4 {
        &&& mo + 8 <= b.len()
        &&& segment_count(b, mo) >= 1
        &&& mo + 16 + 8 * segment_count(b, mo) <= b.len()
        &&& forall|i: int, c: int|
            0 <= i < segment_count(b, mo) - 1 && seg_start(b, mo, i) <= c <= seg_end(b, mo, i) && seg_range_offset(b, mo, i)
                != 0 ==> #[trigger] seg_glyph_at(b, mo, i, c) + 2 <= b.len()
    } else if format == 6 {
        mo + 10 <= b.len() && mo + 10 + 2 * be16(b, mo + 8) <= b.len()
    } else if format == 10 {
        &&& mo + 20 <= b.len()
        &&& mo + 20 + 2 * be32(b, mo + 16) <= b.len()
        &&& be32(b, mo + 12) + be32(b, mo + 16) <= u32::MAX
    } else if format == 12 || format == 13 {
        &&& mo + 16 <= b.len()
        &&& mo + 16 + 12 * be32(b, mo + 12) <= b.len()
        &&& format == 12 ==> forall|g: int| 0 <= g < be32(b, mo + 12) ==> {
            let at = #[trigger] (mo + 16 + 12 * g);
            be32(b, at + 8) + range_len(be32(b, at) as int, be32(b, at + 4) as int) <= u32::MAX
        }
    } else {
        true
    }
}

/// The whole table can be parsed without reading past its data.
pub open spec fn cmap_readable(b: Seq<u8>) -> bool {
    &&& b.len() >= 4
    &&& cmap_fits(b)
    &&& cmap_select(b, 0, be16(b, 2) as nat, 0) is Some
    &&& cmap_choice(b) != 0 ==> subtable_readable(b, cmap_choice(b), be16(b, cmap_choice(b)) as u16)
}

// ---- lemmas ----

proof fn lemma_insert_all_concat(m: Map<u32, u32>, p: Seq<(u32, u32)>, q: Seq<(u32, u32)>)
    ensures
        insert_all(m, p + q) == insert_all(insert_all(m, p), q),
    decreases q.len(),
{
    if q.len() == 0 {
        assert(p + q =~= p);
    } else {
        assert((p + q).drop_last() =~= p + q.drop_last());
        lemma_insert_all_concat(m, p, q.drop_last());
    }
}

proof fn lemma_insert_all_absent(m: Map<u32, u32>, q: Seq<(u32, u32)>, c: u32)
    requires
        forall|t: int| 0 <= t < q.len() ==> (#[trigger] q[t]).0 != c,
    ensures
        insert_all(m, q).contains_key(c) == m.contains_key(c),
        m.contains_key(c) ==> insert_all(m, q)[c] == m[c],
    decreases q.len(),
{
    if q.len() > 0 {
        assert(q.last() == q[q.len() - 1]);
        lemma_insert_all_absent(m, q.drop_last(), c);
    }
}

proof fn lemma_insert_all_last(m: Map<u32, u32>, q: Seq<(u32, u32)>, t: int, c: u32)
    requires
        0 <= t < q.len(),
        q[t].0 == c,
        forall|u: int| t < u < q.len() ==> (#[trigger] q[u]).0 != c,
    ensures
        insert_all(m, q).contains_key(c),
        insert_all(m, q)[c] == q[t].1,
    decreases q.len(),
{
    if t < q.len() - 1 {
        assert(q.last() == q[q.len() - 1]);
        assert forall|u: int| t < u < q.drop_last().len() implies (#[trigger] q.drop_last()[u]).0 != c by {
            assert(q.drop_last()[u] == q[u]);
        }
        lemma_insert_all_last(m, q.drop_last(), t, c);
    }
}

/// The map read from the first `n` segments of a format 4 subtable at `mo` gives codepoint `c` of
/// segment `i` the glyph of that segment, when no later segment holds `c`.
proof fn lemma_segments_glyph(b: Seq<u8>, mo: int, n: nat, i: int, c: int)
    requires
        0 <= i < n,
        seg_start(b, mo, i) <= c <= seg_end(b, mo, i),
        forall|j: int| i < j < n ==> !(#[trigger] seg_start(b, mo, j) <= c <= seg_end(b, mo, j)),
    ensures
        insert_all(Map::empty(), segments_pairs(b, mo, n)).contains_key(c as u32),
        insert_all(Map::empty(), segments_pairs(b, mo, n))[c as u32] == seg_glyph(b, mo, i, c) as u32,
    decreases n,
{
    let last = (n - 1) as int;
    let seg = segment_pairs(b, mo, last);
    lemma_insert_all_concat(Map::empty(), segments_pairs(b, mo, (n - 1) as nat), seg);
    let start = seg_start(b, mo, last);
    let end = seg_end(b, mo, last);
    assert(seg_end(b, mo, last) < 65536);
    if last == i {
        let t = c - start;
        assert(seg[t].0 == c as u32);
        assert forall|u: int| t < u < seg.len() implies (#[trigger] seg[u]).0 != c as u32 by {
            assert(seg[u].0 == (start + u) as u32);
        }
        lemma_insert_all_last(insert_all(Map::empty(), segments_pairs(b, mo, (n - 1) as nat)), seg, t, c as u32);
    } else {
        assert forall|u: int| 0 <= u < seg.len() implies (#[trigger] seg[u]).0 != c as u32 by {
            assert(seg[u].0 == (start + u) as u32);
        }
        lemma_segments_glyph(b, mo, (n - 1) as nat, i, c);
        lemma_insert_all_absent(insert_all(Map::empty(), segments_pairs(b, mo, (n - 1) as nat)), seg, c as u32);
    }
}

/// A format 4 subtable at `mo` maps codepoint `c` of segment `i` (the last of its first `n`
/// segments to hold `c`) as the table lays it out: when the segment's range offset, at
/// `mo + 16 + 6 * segCount + 2 * i`, is not 0, `c` maps to the glyph index read at that position
/// plus the range offset plus `2 * (c - startCode)`, plus the segment's delta modulo 65536, or to
/// 0 when the read glyph index is 0; when the range offset is 0, `c` maps to `c` plus the delta
/// modulo 65536.
pub proof fn lemma_format4_glyph(b: Seq<u8>, mo: int, n: nat, i: int, c: int)
    requires
        0 <= i < n,
        be16(b, mo + 16 + 2 * (be16(b, mo + 6) as int / 2) + 2 * i) <= c <= be16(b, mo + 14 + 2 * i),
        forall|j: int| i < j < n ==> !(#[trigger] be16(b, mo + 16 + 2 * (be16(b, mo + 6) as int / 2) + 2 * j) <= c
            <= be16(b, mo + 14 + 2 * j)),
    ensures
        ({
            let seg_count = be16(b, mo + 6) as int / 2;
            let start = be16(b, mo + 16 + 2 * seg_count + 2 * i) as int;
            let delta = be16(b, mo + 16 + 4 * seg_count + 2 * i) as int;
            let range_at = mo + 16 + 6 * seg_count + 2 * i;
            let range_offset = be16(b, range_at) as int;
            let read = be16(b, range_at + range_offset + 2 * (c - start)) as int;
            let glyph = if range_offset != 0 {
                if read != 0 { (read + delta) % 65536 } else { 0 }
            } else {
                (c + delta) % 65536
            };
            let m = insert_all(Map::empty(), segments_pairs(b, mo, n));
            &&& m.contains_key(c as u32)
            &&& m[c as u32] as int == glyph
        }),
{
    assert forall|j: int| i < j < n implies !(#[trigger] seg_start(b, mo, j) <= c <= seg_end(b, mo, j)) by {
        assert(seg_start(b, mo, j) == be16(b, mo + 16 + 2 * (be16(b, mo + 6) as int / 2) + 2 * j));
    }
    lemma_segments_glyph(b, mo, n, i, c);
}

/// The map of a cmap table whose chosen subtable has format 4 is read from all its segments but
/// the last (the 0xFFFF terminator), in order, as `lemma_format4_glyph` describes.
pub proof fn lemma_cmap_format4_segments(b: Seq<u8>)
    requires
        be16(b, cmap_choice(b)) == 4,
    ensures
        subtable_pairs(b, cmap_choice(b), be16(b, cmap_choice(b)) as u16)
            == segments_pairs(b, cmap_choice(b), (be16(b, cmap_choice(b) + 6) as int / 2 - 1) as nat),
{
}

/// Whether encoding record `k` names a subtable this parser can use: a Unicode encoding whose
/// subtable has a supported format.
pub open spec fn record_usable(b: Seq<u8>, k: int) -> bool {
    let rec = 8 * k + 4;
    let at = be32(b, rec + 4) as int;
    supported_format(be16(b, at) as u16) && unicode_encoding(be16(b, rec), be16(b, rec + 2))
}

/// A table none of whose encoding records names a usable subtable has no usable subtable: reading
/// it gives the "Unable to find usable cmap table" error.
pub proof fn lemma_no_usable_record(b: Seq<u8>)
    requires
        cmap_readable(b),
        forall|k: int| 0 <= k < be16(b, 2) ==> !#[trigger] record_usable(b, k),
    ensures
        cmap_choice(b) == 0,
{
    lemma_select_unusable(b, 0, be16(b, 2) as nat);
}

proof fn lemma_select_unusable(b: Seq<u8>, i: nat, n: nat)
    requires
        cmap_select(b, i, n, 0) is Some,
        forall|k: int| i <= k < n ==> !#[trigger] record_usable(b, k),
    ensures
        cmap_select(b, i, n, 0) == Some(0int),
    decreases n - i,
{
    if i < n {
        assert(!record_usable(b, i as int));
        lemma_select_unusable(b, i + 1, n);
    }
}


proof fn lemma_insert_push(m: Map<u32, u32>, s: Seq<(u32, u32)>, x: (u32, u32))
    ensures
        insert_all(m, s.push(x)) == insert_all(m, s).insert(x.0, x.1),
{
    assert(s.push(x).drop_last() =~= s);
}

proof fn lemma_take_push<A>(s: Seq<A>, k: int)
    requires
        0 <= k < s.len(),
    ensures
        s.take(k + 1) == s.take(k).push(s[k]),
{
    assert(s.take(k + 1) =~= s.take(k).push(s[k]));
}

proof fn lemma_select_supported(b: Seq<u8>, i: nat, n: nat, chosen: int)
    requires
        chosen == 0 || (0 <= chosen && chosen + 2 <= b.len() && supported_format(be16(b, chosen) as u16)),
        cmap_select(b, i, n, chosen) is Some,
    ensures
        cmap_select(b, i, n, chosen).unwrap() == 0 || (0 <= cmap_select(b, i, n, chosen).unwrap()
            && cmap_select(b, i, n, chosen).unwrap() + 2 <= b.len() && supported_format(
            be16(b, cmap_select(b, i, n, chosen).unwrap()) as u16,
        )),
    decreases n - i,
{
    if i < n && 8 * i + 12 <= b.len() {
        let rec = (8 * i + 4) as int;
        let at = be32(b, rec + 4) as int;
        if at + 2 <= b.len() {
            let format = be16(b, at) as u16;
            if supported_format(format) && unicode_encoding(be16(b, rec), be16(b, rec + 2)) {
                if !ideal_format(format) {
                    lemma_select_supported(b, i + 1, n, at);
                }
            } else {
                lemma_select_supported(b, i + 1, n, chosen);
            }
        }
    }
}

impl TableCmap {
    /// Reads the first unicode subtable of a supported format, or the first one of an ideal
    /// format if there is one, and maps its codepoints to glyph indices.
    pub fn new(cmap: &[u8]) -> (r: FontResult<TableCmap>)
        requires
            cmap_readable(cmap@),
        ensures
            cmap_choice(cmap@) == 0 ==> r == Err::<TableCmap, &'static str>("Font.cmap: Unable to find usable cmap table"),
            cmap_choice(cmap@) != 0 ==> (r matches Ok(t) && t.map.view() == insert_all(
                Map::empty(),
                subtable_pairs(cmap@, cmap_choice(cmap@), be16(cmap@, cmap_choice(cmap@)) as u16),
            )),
    {
        let ghost b = cmap@;
        let mut stream = Stream::new(cmap);
        stream.skip(2);
        let number_sub_tables = stream.read_u16() as usize;
        let ghost n = number_sub_tables as nat;
        let ghost choice = cmap_choice(b);
        let mut mapping_offset: usize = 0;
        let mut i: usize = 0;
        let mut done = false;
        while i < number_sub_tables && !done
            invariant
                stream.bytes@ == b,
                b == cmap@,
                cmap_readable(b),
                n == number_sub_tables,
                n == be16(b, 2),
                choice == cmap_choice(b),
                i <= n,
                !done ==> cmap_select(b, i as nat, n, mapping_offset as int) == Some(choice),
                done ==> mapping_offset == choice,
            decreases n - i,
        {
            stream.seek(i * 8 + 4);
            let platform_id = stream.read_u16();
            let specific_id = stream.read_u16();
            let mapping_offset_temp = stream.read_u32() as usize;
            stream.seek(mapping_offset_temp);
            let format = stream.read_u16();
            if is_supported_format(format) {
                if platform_id == 0 || (platform_id == 3 && (specific_id == 1 || specific_id == 10)) {
                    mapping_offset = mapping_offset_temp;
                    if is_ideal_format(format) {
                        done = true;
                    }
                }
            }
            i += 1;
        }
        if mapping_offset == 0 {
            return Err("Font.cmap: Unable to find usable cmap table");
        }
        proof {
            lemma_select_supported(b, 0, n, 0);
        }
        stream.seek(mapping_offset);
        let format = stream.read_u16();
        let map = if format == 0 {
            Self::read_format0(&mut stream)
        } else if format == 4 {
            Self::read_format4(&mut stream)
        } else if format == 6 {
            Self::read_format6(&mut stream)
        } else if format == 10 {
            Self::read_format10(&mut stream)
        } else if format == 12 {
            Self::read_groups(&mut stream, true)
        } else if format == 13 {
            Self::read_groups(&mut stream, false)
        } else {
            return Err("Font.cmap: Index map format unsupported");
        };
        Ok(TableCmap { map })
    }

    /// Format 0: byte encoding table.
    fn read_format0(stream: &mut Stream) -> (m: GlyphIdMap)
        requires
            old(stream).offset >= 2,
            subtable_readable(old(stream).bytes@, old(stream).offset - 2, 0),
            cmap_fits(old(stream).bytes@),
        ensures
            m.view() == insert_all(Map::empty(), format0_pairs(old(stream).bytes@, old(stream).offset - 2)),
    {
        let ghost b = stream.bytes@;
        let ghost mo = stream.offset - 2;
        let length = stream.read_u16() as u32;
        stream.skip(2);
        let mut mappings = glyph_id_map_new();
        let mut unicode_codepoint: u32 = 0;
        assert(format0_pairs(b, mo).take(0) =~= Seq::<(u32, u32)>::empty());
        while unicode_codepoint < length - 6
            invariant
                stream.bytes@ == b,
                b == old(stream).bytes@,
                mo == old(stream).offset - 2,
                0 <= mo,
                subtable_readable(b, mo, 0),
                length == be16(b, mo + 2),
                unicode_codepoint <= length - 6,
                stream.offset == mo + 6 + unicode_codepoint,
                mappings.view() == insert_all(Map::empty(), format0_pairs(b, mo).take(unicode_codepoint as int)),
            decreases length - 6 - unicode_codepoint,
        {
            let pair = stream.read_u8() as u32;
            proof {
                lemma_take_push(format0_pairs(b, mo), unicode_codepoint as int);
                lemma_insert_push(Map::empty(), format0_pairs(b, mo).take(unicode_codepoint as int), (unicode_codepoint, pair));
            }
            glyph_id_map_insert(&mut mappings, unicode_codepoint, pair);
            unicode_codepoint += 1;
        }
        assert(format0_pairs(b, mo).take((length - 6) as int) =~= format0_pairs(b, mo));
        mappings
    }

    /// Format 6: trimmed table mapping.
    fn read_format6(stream: &mut Stream) -> (m: GlyphIdMap)
        requires
            old(stream).offset >= 2,
            subtable_readable(old(stream).bytes@, old(stream).offset - 2, 6),
            cmap_fits(old(stream).bytes@),
        ensures
            m.view() == insert_all(Map::empty(), format6_pairs(old(stream).bytes@, old(stream).offset - 2)),
    {
        let ghost b = stream.bytes@;
        let ghost mo = stream.offset - 2;
        stream.skip(4);
        let first = stream.read_u16() as u32;
        let count = stream.read_u16() as u32;
        let mut mappings = glyph_id_map_new();
        let mut k: u32 = 0;
        assert(format6_pairs(b, mo).take(0) =~= Seq::<(u32, u32)>::empty());
        while k < count
            invariant
                stream.bytes@ == b,
                b == old(stream).bytes@,
                mo == old(stream).offset - 2,
                0 <= mo,
                subtable_readable(b, mo, 6),
                first == be16(b, mo + 6),
                count == be16(b, mo + 8),
                k <= count,
                stream.offset == mo + 10 + 2 * k,
                mappings.view() == insert_all(Map::empty(), format6_pairs(b, mo).take(k as int)),
            decreases count - k,
        {
            let pair = stream.read_u16() as u32;
            proof {
                lemma_take_push(format6_pairs(b, mo), k as int);
                lemma_insert_push(Map::empty(), format6_pairs(b, mo).take(k as int), ((first + k) as u32, pair));
            }
            glyph_id_map_insert(&mut mappings, first + k, pair);
            k += 1;
        }
        assert(format6_pairs(b, mo).take(count as int) =~= format6_pairs(b, mo));
        mappings
    }

    /// Format 10: trimmed array.
    fn read_format10(stream: &mut Stream) -> (m: GlyphIdMap)
        requires
            old(stream).offset >= 2,
            subtable_readable(old(stream).bytes@, old(stream).offset - 2, 10),
            cmap_fits(old(stream).bytes@),
        ensures
            m.view() == insert_all(Map::empty(), format10_pairs(old(stream).bytes@, old(stream).offset - 2)),
    {
        let ghost b = stream.bytes@;
        let ghost mo = stream.offset - 2;
        stream.skip(10);
        let start_char_code = stream.read_u32();
        let num_chars = stream.read_u32();
        let mut mappings = glyph_id_map_new();
        let mut k: u32 = 0;
        assert(format10_pairs(b, mo).take(0) =~= Seq::<(u32, u32)>::empty());
        while k < num_chars
            invariant
                stream.bytes@ == b,
                b == old(stream).bytes@,
                mo == old(stream).offset - 2,
                0 <= mo,
                subtable_readable(b, mo, 10),
                start_char_code == be32(b, mo + 12),
                num_chars == be32(b, mo + 16),
                k <= num_chars,
                stream.offset == mo + 20 + 2 * k,
                mappings.view() == insert_all(Map::empty(), format10_pairs(b, mo).take(k as int)),
            decreases num_chars - k,
        {
            let pair = stream.read_u16() as u32;
            proof {
                lemma_take_push(format10_pairs(b, mo), k as int);
                lemma_insert_push(Map::empty(), format10_pairs(b, mo).take(k as int), ((start_char_code + k) as u32, pair));
            }
            glyph_id_map_insert(&mut mappings, start_char_code + k, pair);
            k += 1;
        }
        assert(format10_pairs(b, mo).take(num_chars as int) =~= format10_pairs(b, mo));
        mappings
    }

    /// Formats 12 (segmented coverage) and 13 (many-to-one range mappings).
    fn read_groups(stream: &mut Stream, consecutive: bool) -> (m: GlyphIdMap)
        requires
            old(stream).offset >= 2,
            subtable_readable(old(stream).bytes@, old(stream).offset - 2, if consecutive { 12 } else { 13 }),
            cmap_fits(old(stream).bytes@),
        ensures
            m.view() == insert_all(
                Map::empty(),
                groups_pairs(old(stream).bytes@, old(stream).offset - 2, be32(old(stream).bytes@, old(stream).offset + 10) as nat, consecutive),
            ),
    {
        let ghost b = stream.bytes@;
        let ghost mo = stream.offset - 2;
        let ghost fmt: u16 = if consecutive { 12 } else { 13 };
        stream.skip(10);
        let num_groups = stream.read_u32() as usize;
        let mut mappings = glyph_id_map_new();
        let mut g: usize = 0;
        while g < num_groups
            invariant
                stream.bytes@ == b,
                b == old(stream).bytes@,
                mo == old(stream).offset - 2,
                0 <= mo,
                fmt == (if consecutive { 12u16 } else { 13u16 }),
                subtable_readable(b, mo, fmt),
                num_groups == be32(b, mo + 12),
                g <= num_groups,
                stream.offset == mo + 16 + 12 * g,
                mappings.view() == insert_all(Map::empty(), groups_pairs(b, mo, g as nat, consecutive)),
            decreases num_groups - g,
        {
            let ghost at = mo + 16 + 12 * g;
            let start_char_code = stream.read_u32();
            let end_char_code = stream.read_u32();
            let mut glyph_id = stream.read_u32();
            let ghost before = groups_pairs(b, mo, g as nat, consecutive);
            let ghost group = group_pairs(b, mo, g as int, consecutive);
            let count: u64 = if end_char_code >= start_char_code { end_char_code as u64 - start_char_code as u64 + 1 } else { 0 };
            proof {
                assert(count == range_len(start_char_code as int, end_char_code as int));
                assert(before + group.take(0) =~= before);
                if consecutive {
                    assert(at == mo + 16 + 12 * g);
                    assert(glyph_id + count <= u32::MAX);
                }
            }
            let mut k: u64 = 0;
            while k < count
                invariant
                    b == old(stream).bytes@,
                    count == range_len(start_char_code as int, end_char_code as int),
                    group == group_pairs(b, mo, g as int, consecutive),
                    at == mo + 16 + 12 * g,
                    start_char_code == be32(b, at),
                    end_char_code == be32(b, at + 4),
                    consecutive ==> be32(b, at + 8) + count <= u32::MAX,
                    glyph_id == (if consecutive { be32(b, at + 8) + k } else { be32(b, at + 8) as int }),
                    k <= count,
                    mappings.view() == insert_all(Map::empty(), before + group.take(k as int)),
                decreases count - k,
            {
                let char_code = (start_char_code as u64 + k) as u32;
                proof {
                    lemma_take_push(group, k as int);
                    assert((before + group.take(k as int)).push(group[k as int]) =~= before + group.take(k + 1));
                    lemma_insert_push(Map::empty(), before + group.take(k as int), (char_code, glyph_id));
                }
                glyph_id_map_insert(&mut mappings, char_code, glyph_id);
                if consecutive {
                    glyph_id += 1;
                }
                k += 1;
            }
            proof {
                assert(group.take(count as int) =~= group);
            }
            g += 1;
        }
        mappings
    }

    /// Format 4: segment mapping to delta values. The last segment is not read.
    fn read_format4(stream: &mut Stream) -> (m: GlyphIdMap)
        requires
            old(stream).offset >= 2,
            subtable_readable(old(stream).bytes@, old(stream).offset - 2, 4),
            cmap_fits(old(stream).bytes@),
        ensures
            m.view() == insert_all(
                Map::empty(),
                segments_pairs(old(stream).bytes@, old(stream).offset - 2, (segment_count(old(stream).bytes@, old(stream).offset - 2) - 1) as nat),
            ),
    {
        let ghost b = stream.bytes@;
        let mapping_offset = stream.offset - 2;
        let ghost mo = mapping_offset as int;
        stream.skip(4);
        let seg_count = (stream.read_u16() >> 1u16) as usize;
        assert(seg_count == segment_count(b, mo)) by {
            let x = be16(b, mo + 6) as u16;
            assert(x >> 1u16 == x / 2) by (bit_vector);
        }
        stream.skip(6);
        let end_code_array = stream.read_array_u16(seg_count);
        stream.skip(2);
        let start_code_array = stream.read_array_u16(seg_count);
        let id_delta_array = stream.read_array_u16(seg_count);
        let id_range_offset_array = stream.read_array_u16(seg_count);
        let mut mappings = glyph_id_map_new();
        let mut i: usize = 0;
        while i < seg_count - 1
            invariant
                stream.bytes@ == b,
                b == old(stream).bytes@,
                mo == mapping_offset,
                0 <= mo,
                cmap_fits(b),
                subtable_readable(b, mo, 4),
                seg_count == segment_count(b, mo),
                end_code_array@.len() == seg_count,
                start_code_array@.len() == seg_count,
                id_delta_array@.len() == seg_count,
                id_range_offset_array@.len() == seg_count,
                forall|j: int| 0 <= j < seg_count ==> #[trigger] end_code_array@[j] == seg_end(b, mo, j),
                forall|j: int| 0 <= j < seg_count ==> #[trigger] start_code_array@[j] == seg_start(b, mo, j),
                forall|j: int| 0 <= j < seg_count ==> #[trigger] id_delta_array@[j] == seg_delta(b, mo, j),
                forall|j: int| 0 <= j < seg_count ==> #[trigger] id_range_offset_array@[j] == seg_range_offset(b, mo, j),
                i <= seg_count - 1,
                mappings.view() == insert_all(Map::empty(), segments_pairs(b, mo, i as nat)),
            decreases seg_count - 1 - i,
        {
            let end_code = end_code_array[i];
            let start_code = start_code_array[i];
            let id_delta = id_delta_array[i];
            let id_range_offset = id_range_offset_array[i];
            let ghost before = segments_pairs(b, mo, i as nat);
            let ghost seg = segment_pairs(b, mo, i as int);
            let mut c: u32 = start_code as u32;
            proof {
                assert(before + seg.take(0) =~= before);
            }
            while c <= end_code as u32
                invariant
                    stream.bytes@ == b,
                    b == old(stream).bytes@,
                    mo == mapping_offset,
                    0 <= mo,
                    cmap_fits(b),
                    subtable_readable(b, mo, 4),
                    seg_count == segment_count(b, mo),
                    0 <= i < seg_count - 1,
                    end_code == seg_end(b, mo, i as int),
                    start_code == seg_start(b, mo, i as int),
                    id_delta == seg_delta(b, mo, i as int),
                    id_range_offset == seg_range_offset(b, mo, i as int),
                    seg == segment_pairs(b, mo, i as int),
                    start_code <= c,
                    c - start_code <= range_len(start_code as int, end_code as int),
                    mappings.view() == insert_all(Map::empty(), before + seg.take(c - start_code)),
                decreases end_code as u32 + 1 - c,
            {
                let glyph_index: u16 = if id_range_offset != 0 {
                    let glyph_index_offset = 16 + seg_count * 6 + i * 2 + id_range_offset as usize + (c as usize - start_code as usize) * 2;
                    proof {
                        assert(seg_glyph_at(b, mo, i as int, c as int) == mo + glyph_index_offset);
                        assert(seg_glyph_at(b, mo, i as int, c as int) + 2 <= b.len());
                    }
                    stream.seek(mapping_offset + glyph_index_offset);
                    let glyph_index = stream.read_u16();
                    if glyph_index != 0 {
                        glyph_index.wrapping_add(id_delta)
                    } else {
                        glyph_index
                    }
                } else {
                    (c as u16).wrapping_add(id_delta)
                };
                proof {
                    let k = c - start_code;
                    assert(seg[k as int] == (c, glyph_index as u32));
                    lemma_take_push(seg, k as int);
                    assert((before + seg.take(k as int)).push(seg[k as int]) =~= before + seg.take(k + 1));
                    lemma_insert_push(Map::empty(), before + seg.take(k as int), (c, glyph_index as u32));
                }
                glyph_id_map_insert(&mut mappings, c, glyph_index as u32);
                c += 1;
            }
            proof {
                assert(seg.take(c - start_code) =~= seg);
            }
            i += 1;
        }
        mappings
    }
}

} // verus!
