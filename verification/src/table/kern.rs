//! The `kern` table: kerning values for pairs of glyphs. Only the first horizontal subtable of
//! format 0 (a list of pairs) or format 3 (a class matrix) is read.
use crate::table::parse::{Stream, StreamSliceI16, StreamSliceU8};
use crate::parse::{be16, be32, sbe16};
use std::collections::HashMap;
use vstd::prelude::*;

verus! {

broadcast use vstd::std_specs::hash::group_hash_axioms;

#[derive(Debug)]
pub struct TableKern {
    pub horizontal_mappings: HashMap<u32, i16>,
}

#[derive(Copy, Clone, Debug)]
struct Header {
    pub version_major: u16,
    pub version_minor: u16,
    pub number_sub_tables: u32,
}

#[derive(Copy, Clone, Debug)]
struct SubTableHeader {
    pub version: u16,
    pub length: usize,
    pub coverage: Coverage,
    pub format: u8,
    pub tuple_index: u16,
}

#[derive(Copy, Clone, Debug)]
pub struct Coverage {
    is_horizontal: bool,
}

/// The key of a glyph pair: the left glyph in the high half, the right glyph in the low half.
pub open spec fn pair_key(left: int, right: int) -> u32 {
    (left * 65536 + right) as u32
}

/// The left glyph of a pair key.
pub open spec fn key_left(k: u32) -> int {
    k as int / 65536
}

/// The right glyph of a pair key.
pub open spec fn key_right(k: u32) -> int {
    k as int % 65536
}

// ---- format 0: a list of (left, right, value) records after an 8 byte header ----

/// The pairs of a format 0 subtable whose records start at `q`, inserted in order, so that a
/// later record for the same pair wins.
pub open spec fn format0_map(b: Seq<u8>, q: int, n: nat) -> Map<u32, i16>
    decreases n,
{
    if n == 0 {
        Map::empty()
    } else {
        let at = q + 6 * (n - 1);
        format0_map(b, q, (n - 1) as nat).insert(pair_key(be16(b, at) as int, be16(b, at + 2) as int), sbe16(b, at + 4) as i16)
    }
}

/// A format 0 subtable whose data starts at `p`: `None` when its count, or one of the records
/// it counts, runs past the data.
pub open spec fn format0(b: Seq<u8>, p: int) -> Option<Map<u32, i16>> {
    if p + 2 > b.len() {
        None
    } else if be16(b, p) > 0 && p + 8 + 6 * be16(b, p) > b.len() {
        None
    } else {
        Some(format0_map(b, p + 8, be16(b, p) as nat))
    }
}

// ---- format 3: glyph classes and a matrix of indices into a run of values ----

pub open spec fn f3_glyphs(b: Seq<u8>, p: int) -> int { be16(b, p) as int }
pub open spec fn f3_values(b: Seq<u8>, p: int) -> int { b[p + 2] as int }
pub open spec fn f3_left_classes(b: Seq<u8>, p: int) -> int { b[p + 3] as int }
pub open spec fn f3_right_classes(b: Seq<u8>, p: int) -> int { b[p + 4] as int }
pub open spec fn f3_values_at(b: Seq<u8>, p: int) -> int { p + 6 }
pub open spec fn f3_left_at(b: Seq<u8>, p: int) -> int { p + 6 + 2 * f3_values(b, p) }
pub open spec fn f3_right_at(b: Seq<u8>, p: int) -> int { f3_left_at(b, p) + f3_glyphs(b, p) }
pub open spec fn f3_index_at(b: Seq<u8>, p: int) -> int { f3_right_at(b, p) + f3_glyphs(b, p) }
pub open spec fn f3_indices(b: Seq<u8>, p: int) -> int { f3_left_classes(b, p) * f3_right_classes(b, p) }

/// The class of left glyph `l`.
pub open spec fn f3_lclass(b: Seq<u8>, p: int, l: int) -> int { b[f3_left_at(b, p) + l] as int }

/// The class of right glyph `r`.
pub open spec fn f3_rclass(b: Seq<u8>, p: int, r: int) -> int { b[f3_right_at(b, p) + r] as int }

/// A pair whose classes exceed the class counts has no kerning value.
pub open spec fn f3_skipped(b: Seq<u8>, p: int, l: int, r: int) -> bool {
    f3_lclass(b, p, l) > f3_left_classes(b, p) || f3_rclass(b, p, r) > f3_right_classes(b, p)
}

/// The position in the index matrix of a pair.
pub open spec fn f3_cell(b: Seq<u8>, p: int, l: int, r: int) -> int {
    f3_lclass(b, p, l) * f3_right_classes(b, p) + f3_rclass(b, p, r)
}

/// The pair is skipped, or its matrix cell and the value that cell names both exist.
pub open spec fn f3_pair_ok(b: Seq<u8>, p: int, l: int, r: int) -> bool {
    f3_skipped(b, p, l, r) || (f3_cell(b, p, l, r) < f3_indices(b, p) && b[f3_index_at(b, p) + f3_cell(b, p, l, r)]
        < f3_values(b, p))
}

/// The kerning value of a pair.
pub open spec fn f3_value(b: Seq<u8>, p: int, l: int, r: int) -> i16 {
    sbe16(b, f3_values_at(b, p) + 2 * b[f3_index_at(b, p) + f3_cell(b, p, l, r)]) as i16
}

/// The pair `k` has a kerning value and comes before pair (`l`, `r`) in row order.
pub open spec fn f3_before(b: Seq<u8>, p: int, l: int, r: int, k: u32) -> bool {
    &&& key_left(k) < f3_glyphs(b, p)
    &&& key_right(k) < f3_glyphs(b, p)
    &&& !f3_skipped(b, p, key_left(k), key_right(k))
    &&& (key_left(k) < l || (key_left(k) == l && key_right(k) < r))
}

/// The kerning values of the pairs before (`l`, `r`).
pub open spec fn f3_map_before(b: Seq<u8>, p: int, l: int, r: int) -> Map<u32, i16> {
    Map::new(|k: u32| f3_before(b, p, l, r, k), |k: u32| f3_value(b, p, key_left(k), key_right(k)))
}

/// A format 3 subtable whose data starts at `p`: `None` when its arrays run past the data or a
/// pair names a missing cell or value.
pub open spec fn format3(b: Seq<u8>, p: int) -> Option<Map<u32, i16>> {
    if p + 5 > b.len() {
        None
    } else if f3_index_at(b, p) + f3_indices(b, p) > b.len() {
        None
    } else if exists|l: int, r: int| 0 <= l < f3_glyphs(b, p) && 0 <= r < f3_glyphs(b, p) && !f3_pair_ok(b, p, l, r) {
        None
    } else {
        Some(f3_map_before(b, p, f3_glyphs(b, p), 0))
    }
}

/// In a format 3 subtable at `p` that reads without error, a pair of glyphs whose classes are
/// within the class counts has the kerning value that the index matrix names at the pair's cell,
/// the matrix being read row by row with one entry per right class:
/// `kernValue[kernIndex[leftClass[l] * rightClassCount + rightClass[r]]]`.
pub proof fn lemma_format3_value(b: Seq<u8>, p: int, l: int, r: int)
    requires
        0 <= p,
        format3(b, p) is Some,
        0 <= l < b[p] as int * 256 + b[p + 1] as int,
        0 <= r < b[p] as int * 256 + b[p + 1] as int,
        b[p + 6 + 2 * b[p + 2] + l] < b[p + 3],
        b[p + 6 + 2 * b[p + 2] + (b[p] as int * 256 + b[p + 1] as int) + r] < b[p + 4],
    ensures
        ({
            let glyphs = b[p] as int * 256 + b[p + 1] as int;
            let left_class = b[p + 6 + 2 * b[p + 2] + l] as int;
            let right_class = b[p + 6 + 2 * b[p + 2] + glyphs + r] as int;
            let index = b[p + 6 + 2 * b[p + 2] + 2 * glyphs + left_class * b[p + 4] + right_class] as int;
            let at = p + 6 + 2 * index;
            let raw = b[at] as int * 256 + b[at + 1] as int;
            let m = format3(b, p).unwrap();
            &&& m.contains_key((l * 65536 + r) as u32)
            &&& m[(l * 65536 + r) as u32] as int == (if raw >= 32768 { raw - 65536 } else { raw })
        }),
{
    lemma_key(l, r);
    let k = pair_key(l, r);
    assert(f3_before(b, p, f3_glyphs(b, p), 0, k));
    assert(!f3_skipped(b, p, l, r));
    assert(f3_pair_ok(b, p, l, r));
}

// ---- the subtable scan ----

/// The size of a subtable header: 6 bytes in the OpenType layout, 8 in the Apple layout.
pub open spec fn sub_header_len(major: u16) -> int {
    if major == 0 { 6 } else { 8 }
}

/// The length a subtable header at `pos` declares.
pub open spec fn sub_length(b: Seq<u8>, major: u16, pos: int) -> int {
    if major == 0 { be16(b, pos + 2) as int } else { be32(b, pos) as int }
}

/// The format a subtable header at `pos` declares.
pub open spec fn sub_format(b: Seq<u8>, major: u16, pos: int) -> u8 {
    if major == 0 { b[pos + 4] } else { b[pos + 5] }
}

/// Whether a subtable header at `pos` declares horizontal kerning.
pub open spec fn sub_horizontal(b: Seq<u8>, major: u16, pos: int) -> bool {
    if major == 0 { b[pos + 5] & 1 == 1 } else { b[pos + 4] & 0x80 != 0x80 }
}

/// Scans up to `remaining` subtables from `pos`: the first horizontal subtable of format 0 or 3
/// gives the result. A non-horizontal subtable of format 0 or 3 is passed over by its header
/// only, any other subtable by its declared length.
pub open spec fn kern_scan(b: Seq<u8>, major: u16, pos: int, remaining: nat) -> Option<Map<u32, i16>>
    decreases remaining,
{
    if remaining == 0 {
        None
    } else if pos + sub_header_len(major) > b.len() {
        None
    } else {
        let next = pos + sub_header_len(major);
        let format = sub_format(b, major, pos);
        if format == 0 {
            if sub_horizontal(b, major, pos) { format0(b, next) } else { kern_scan(b, major, next, (remaining - 1) as nat) }
        } else if format == 3 {
            if sub_horizontal(b, major, pos) { format3(b, next) } else { kern_scan(b, major, next, (remaining - 1) as nat) }
        } else {
            kern_scan(b, major, pos + sub_length(b, major, pos), (remaining - 1) as nat)
        }
    }
}

/// The horizontal kerning pairs of a `kern` table, if it has a supported horizontal subtable.
pub open spec fn kern_pairs(b: Seq<u8>) -> Option<Map<u32, i16>> {
    if b.len() < 2 {
        None
    } else if be16(b, 0) == 0 {
        if b.len() < 4 { None } else { kern_scan(b, 0, 4, be16(b, 2) as nat) }
    } else if be16(b, 0) == 1 {
        if b.len() < 8 { None } else { kern_scan(b, 1, 8, be32(b, 4) as nat) }
    } else {
        None
    }
}

/// A table as long as a Rust slice can be: at most `isize::MAX` bytes, so that a position a few
/// bytes past its end still fits in a `usize`.
pub open spec fn kern_fits(b: Seq<u8>) -> bool {
    b.len() <= isize::MAX
}

impl Coverage {
    pub closed spec fn horizontal(&self) -> bool {
        self.is_horizontal
    }

    /// Apple layout: the high bit marks vertical kerning.
    pub fn aat(cov: u8) -> (c: Coverage)
        ensures
            c.horizontal() == (cov & 0x80 != 0x80),
    {
        Coverage { is_horizontal: cov & 0x80 != 0x80 }
    }

    /// OpenType layout: the low bit marks horizontal kerning.
    pub fn ot(cov: u8) -> (c: Coverage)
        ensures
            c.horizontal() == (cov & 0x01 == 0x01),
    {
        Coverage { is_horizontal: cov & 0x01 == 0x01 }
    }
}

/// A pair key gives back the two glyphs it was made of: the left glyph is its high half, the
/// right glyph its low half.
pub proof fn lemma_key(l: int, r: int)
    requires
        0 <= l < 65536,
        0 <= r < 65536,
    ensures
        key_left(pair_key(l, r)) == l,
        key_right(pair_key(l, r)) == r,
        pair_key(l, r) as int == l * 65536 + r,
{
    assert(0 <= l * 65536 + r < 0x1_0000_0000) by (nonlinear_arith)
        requires 0 <= l < 65536, 0 <= r < 65536;
    assert((l * 65536 + r) / 65536 == l && (l * 65536 + r) % 65536 == r) by (nonlinear_arith)
        requires 0 <= l < 65536, 0 <= r < 65536;
}

/// Two pairs of glyphs have the same key only when they are the same pair, so that the kerning
/// values of different pairs never mix.
pub proof fn lemma_key_injective(l1: int, r1: int, l2: int, r2: int)
    requires
        0 <= l1 < 65536,
        0 <= r1 < 65536,
        0 <= l2 < 65536,
        0 <= r2 < 65536,
        pair_key(l1, r1) == pair_key(l2, r2),
    ensures
        l1 == l2,
        r1 == r2,
{
    lemma_key(l1, r1);
    lemma_key(l2, r2);
}

fn make_key(left: u16, right: u16) -> (k: u32)
    ensures
        k == pair_key(left as int, right as int),
        key_left(k) == left,
        key_right(k) == right,
{
    proof {
        lemma_key(left as int, right as int);
    }
    assert((left as u32) << 16u32 | right as u32 == left as u32 * 65536 + right as u32) by (bit_vector);
    (left as u32) << 16u32 | right as u32
}

impl TableKern {
    /// Finds the first horizontal subtable of format 0 or 3 and reads its pairs.
    pub fn new(kern: &[u8]) -> (r: Option<TableKern>)
        requires
            kern_fits(kern@),
        ensures
            r is Some <==> kern_pairs(kern@) is Some,
            r matches Some(t) ==> t.horizontal_mappings@ == kern_pairs(kern@).unwrap(),
    {
        let ghost b = kern@;
        let mut stream = Stream::new(kern);
        proof {
            stream.lemma_pos();
        }
        let version_major = match stream.read_u16() {
            Some(v) => v,
            None => return None,
        };
        let header;
        if version_major == 0 {
            header = match Self::read_ot_header(&mut stream) {
                Some(h) => h,
                None => return None,
            };
        } else if version_major == 1 {
            header = match Self::read_aat_header(&mut stream) {
                Some(h) => h,
                None => return None,
            };
        } else {
            return None;
        }
        let nsub = header.number_sub_tables;
        let mut k: u32 = 0;
        while k < nsub
            invariant
                stream.data() == b,
                b == kern@,
                kern_fits(b),
                version_major == 0 || version_major == 1,
                0 <= stream.pos(),
                k <= nsub,
                kern_scan(b, version_major, stream.pos(), (nsub - k) as nat) == kern_pairs(b),
            decreases nsub - k,
        {
            let ghost pos = stream.pos();
            proof {
                stream.lemma_pos();
            }
            let sub_table_start = stream.offset();
            if sub_table_start > kern.len() {
                // Past the end of the table: no subtable header can be read here.
                return None;
            }
            let sub_header = if version_major == 0 {
                match Self::read_ot_subtable(&mut stream) {
                    Some(h) => h,
                    None => return None,
                }
            } else {
                match Self::read_aat_subtable(&mut stream) {
                    Some(h) => h,
                    None => return None,
                }
            };
            if sub_header.format == 0 {
                if sub_header.coverage.is_horizontal {
                    let mappings = match Self::read_format0(&mut stream) {
                        Some(m) => m,
                        None => return None,
                    };
                    return Some(TableKern { horizontal_mappings: mappings });
                }
            } else if sub_header.format == 3 {
                if sub_header.coverage.is_horizontal {
                    let mappings = match Self::read_format3(&mut stream) {
                        Some(m) => m,
                        None => return None,
                    };
                    return Some(TableKern { horizontal_mappings: mappings });
                }
            } else {
                match sub_table_start.checked_add(sub_header.length) {
                    Some(next) => stream.seek(next),
                    // A position beyond any slice: no further subtable can be read.
                    None => {
                        proof {
                            let next = sub_table_start + sub_header.length;
                            assert(b.len() <= usize::MAX);
                            assert(kern_scan(b, version_major, next, (nsub - k - 1) as nat) is None);
                        }
                        return None;
                    },
                }
            }
            k += 1;
        }
        None
    }

    fn read_format0(stream: &mut Stream) -> (r: Option<HashMap<u32, i16>>)
        requires
            old(stream).pos() <= old(stream).data().len(),
            kern_fits(old(stream).data()),
        ensures
            r is Some <==> format0(old(stream).data(), old(stream).pos()) is Some,
            r matches Some(m) ==> m@ == format0(old(stream).data(), old(stream).pos()).unwrap(),
    {
        let ghost b = stream.data();
        let ghost p = stream.pos();
        proof {
            stream.lemma_pos();
        }
        let pairs = match stream.read_u16() {
            Some(v) => v,
            None => return None,
        };
        stream.skip(6);
        let mut mappings: HashMap<u32, i16> = HashMap::new();
        let mut i: u16 = 0;
        while i < pairs
            invariant
                stream.data() == b,
                b == old(stream).data(),
                p == old(stream).pos(),
                kern_fits(b),
                p + 2 <= b.len(),
                pairs == be16(b, p),
                i <= pairs,
                stream.pos() == p + 8 + 6 * i,
                0 <= p,
                i > 0 ==> p + 8 + 6 * i <= b.len(),
                mappings@ == format0_map(b, p + 8, i as nat),
            decreases pairs - i,
        {
            let left = match stream.read_u16() {
                Some(v) => v,
                None => return None,
            };
            let right = match stream.read_u16() {
                Some(v) => v,
                None => return None,
            };
            let value = match stream.read_i16() {
                Some(v) => v,
                None => return None,
            };
            let id = make_key(left, right);
            mappings.insert(id, value);
            i += 1;
        }
        Some(mappings)
    }

    fn read_format3(stream: &mut Stream) -> (r: Option<HashMap<u32, i16>>)
        requires
            old(stream).pos() <= old(stream).data().len(),
            kern_fits(old(stream).data()),
        ensures
            r is Some <==> format3(old(stream).data(), old(stream).pos()) is Some,
            r matches Some(m) ==> m@ == format3(old(stream).data(), old(stream).pos()).unwrap(),
    {
        let ghost b = stream.data();
        let ghost p = stream.pos();
        proof {
            stream.lemma_pos();
        }
        let glyph_count = match stream.read_u16() {
            Some(v) => v,
            None => return None,
        };
        let kerning_values_count = match stream.read_u8() {
            Some(v) => v,
            None => return None,
        };
        let left_hand_classes_count = match stream.read_u8() {
            Some(v) => v,
            None => return None,
        };
        let right_hand_classes_count = match stream.read_u8() {
            Some(v) => v,
            None => return None,
        };
        stream.skip(1);
        assert(left_hand_classes_count as u16 * right_hand_classes_count as u16 <= 65025) by (nonlinear_arith)
            requires left_hand_classes_count <= 255, right_hand_classes_count <= 255;
        let indices_count = left_hand_classes_count as u16 * right_hand_classes_count as u16;
        let kerning_values = match stream.read_i16_slice(kerning_values_count as usize) {
            Some(s) => s,
            None => return None,
        };
        let left_hand_classes = match stream.read_u8_slice(glyph_count as usize) {
            Some(s) => s,
            None => return None,
        };
        let right_hand_classes = match stream.read_u8_slice(glyph_count as usize) {
            Some(s) => s,
            None => return None,
        };
        let indices = match stream.read_u8_slice(indices_count as usize) {
            Some(s) => s,
            None => return None,
        };
        let mut mappings: HashMap<u32, i16> = HashMap::new();
        let mut left: u16 = 0;
        while left < glyph_count
            invariant
                b.len() >= f3_index_at(b, p) + f3_indices(b, p),
                b == old(stream).data(),
                p == old(stream).pos(),
                0 <= p,
                p + 5 <= b.len(),
                glyph_count == f3_glyphs(b, p),
                kerning_values_count == f3_values(b, p),
                left_hand_classes_count == f3_left_classes(b, p),
                right_hand_classes_count == f3_right_classes(b, p),
                indices_count == f3_indices(b, p),
                kerning_values.data() == b.subrange(f3_values_at(b, p), f3_left_at(b, p)),
                left_hand_classes.data() == b.subrange(f3_left_at(b, p), f3_right_at(b, p)),
                right_hand_classes.data() == b.subrange(f3_right_at(b, p), f3_index_at(b, p)),
                indices.data() == b.subrange(f3_index_at(b, p), f3_index_at(b, p) + f3_indices(b, p)),
                left <= glyph_count,
                mappings@ == f3_map_before(b, p, left as int, 0),
                forall|l: int, r: int| 0 <= l < left && 0 <= r < glyph_count ==> #[trigger] f3_pair_ok(b, p, l, r),
            decreases glyph_count - left,
        {
            let mut right: u16 = 0;
            while right < glyph_count
                invariant
                    b.len() >= f3_index_at(b, p) + f3_indices(b, p),
                    b == old(stream).data(),
                    p == old(stream).pos(),
                    0 <= p,
                    p + 5 <= b.len(),
                    glyph_count == f3_glyphs(b, p),
                    kerning_values_count == f3_values(b, p),
                    left_hand_classes_count == f3_left_classes(b, p),
                    right_hand_classes_count == f3_right_classes(b, p),
                    indices_count == f3_indices(b, p),
                    kerning_values.data() == b.subrange(f3_values_at(b, p), f3_left_at(b, p)),
                    left_hand_classes.data() == b.subrange(f3_left_at(b, p), f3_right_at(b, p)),
                    right_hand_classes.data() == b.subrange(f3_right_at(b, p), f3_index_at(b, p)),
                    indices.data() == b.subrange(f3_index_at(b, p), f3_index_at(b, p) + f3_indices(b, p)),
                    left < glyph_count,
                    right <= glyph_count,
                    mappings@ == f3_map_before(b, p, left as int, right as int),
                    forall|l: int, r: int| 0 <= l < left && 0 <= r < glyph_count ==> #[trigger] f3_pair_ok(b, p, l, r),
                    forall|r: int| 0 <= r < right ==> #[trigger] f3_pair_ok(b, p, left as int, r),
                decreases glyph_count - right,
            {
                let left_class = match left_hand_classes.get(left as usize) {
                    Some(v) => v,
                    None => return None,
                };
                let right_class = match right_hand_classes.get(right as usize) {
                    Some(v) => v,
                    None => return None,
                };
                proof {
                    lemma_key(left as int, right as int);
                }
                if left_class > left_hand_classes_count || right_class > right_hand_classes_count {
                    proof {
                        assert(f3_skipped(b, p, left as int, right as int));
                        assert(f3_map_before(b, p, left as int, right + 1) =~= f3_map_before(b, p, left as int, right as int));
                    }
                    right += 1;
                    continue;
                }
                assert(left_class as u16 * right_hand_classes_count as u16 + right_class as u16 <= 65280) by (nonlinear_arith)
                    requires left_class <= 255, right_hand_classes_count <= 255, right_class <= 255;
                let index = left_class as u16 * right_hand_classes_count as u16 + right_class as u16;
                let index = match indices.get(index as usize) {
                    Some(v) => v,
                    None => {
                        proof {
                            assert(!f3_pair_ok(b, p, left as int, right as int));
                        }
                        return None;
                    },
                };
                let value = match kerning_values.get(index as usize) {
                    Some(v) => v,
                    None => {
                        proof {
                            assert(!f3_pair_ok(b, p, left as int, right as int));
                        }
                        return None;
                    },
                };
                let id = make_key(left, right);
                mappings.insert(id, value);
                proof {
                    assert(f3_pair_ok(b, p, left as int, right as int));
                    assert forall|k: u32| #[trigger] f3_before(b, p, left as int, right + 1, k) == (f3_before(b, p, left as int, right as int, k) || k == id) by {
                        if k == id {
                        }
                    }
                    assert(mappings@ =~= f3_map_before(b, p, left as int, right + 1));
                }
                right += 1;
            }
            proof {
                assert(f3_map_before(b, p, left as int, glyph_count as int) =~= f3_map_before(b, p, left + 1, 0));
            }
            left += 1;
        }
        Some(mappings)
    }

    fn read_ot_header(stream: &mut Stream) -> (r: Option<Header>)
        requires
            old(stream).pos() + 2 <= usize::MAX,
        ensures
            r is Some <==> old(stream).has(2),
            r matches Some(h) ==> h.number_sub_tables == be16(old(stream).data(), old(stream).pos())
                && final(stream).advanced(*old(stream), 2),
    {
        let version_major = 0x0000;
        let version_minor = 0x0000;
        let number_sub_tables = match stream.read_u16() {
            Some(v) => v as u32,
            None => return None,
        };
        Some(Header { version_major, version_minor, number_sub_tables })
    }

    fn read_aat_header(stream: &mut Stream) -> (r: Option<Header>)
        requires
            old(stream).pos() + 6 <= usize::MAX,
        ensures
            r is Some <==> old(stream).has(6),
            r matches Some(h) ==> h.number_sub_tables == be32(old(stream).data(), old(stream).pos() + 2)
                && final(stream).advanced(*old(stream), 6),
    {
        let version_major = 0x0001;
        let version_minor = match stream.read_u16() {
            Some(v) => v,
            None => return None,
        };
        let number_sub_tables = match stream.read_u32() {
            Some(v) => v,
            None => return None,
        };
        Some(Header { version_major, version_minor, number_sub_tables })
    }

    fn read_ot_subtable(stream: &mut Stream) -> (r: Option<SubTableHeader>)
        requires
            old(stream).pos() + 6 <= usize::MAX,
        ensures
            r is Some <==> old(stream).has(6),
            r matches Some(h) ==> {
                &&& h.length == sub_length(old(stream).data(), 0, old(stream).pos())
                &&& h.format == sub_format(old(stream).data(), 0, old(stream).pos())
                &&& h.coverage.horizontal() == sub_horizontal(old(stream).data(), 0, old(stream).pos())
                &&& final(stream).advanced(*old(stream), 6)
            },
    {
        let version = match stream.read_u16() {
            Some(v) => v,
            None => return None,
        };
        let length = match stream.read_u16() {
            Some(v) => v as usize,
            None => return None,
        };
        let format = match stream.read_u8() {
            Some(v) => v,
            None => return None,
        };
        let coverage = match stream.read_u8() {
            Some(v) => Coverage::ot(v),
            None => return None,
        };
        Some(SubTableHeader { version, length, coverage, format, tuple_index: 0 })
    }

    fn read_aat_subtable(stream: &mut Stream) -> (r: Option<SubTableHeader>)
        requires
            old(stream).pos() + 8 <= usize::MAX,
        ensures
            r is Some <==> old(stream).has(8),
            r matches Some(h) ==> {
                &&& h.length == sub_length(old(stream).data(), 1, old(stream).pos())
                &&& h.format == sub_format(old(stream).data(), 1, old(stream).pos())
                &&& h.coverage.horizontal() == sub_horizontal(old(stream).data(), 1, old(stream).pos())
                &&& final(stream).advanced(*old(stream), 8)
            },
    {
        let length = match stream.read_u32() {
            Some(v) => v as usize,
            None => return None,
        };
        let coverage = match stream.read_u8() {
            Some(v) => Coverage::aat(v),
            None => return None,
        };
        let format = match stream.read_u8() {
            Some(v) => v,
            None => return None,
        };
        let tuple_index = match stream.read_u16() {
            Some(v) => v,
            None => return None,
        };
        Some(SubTableHeader { version: 0x0001, length, coverage, format, tuple_index })
    }
}

} // verus!
