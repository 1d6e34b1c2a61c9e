//! The `glyf` table: glyph outlines. This module reads one glyph record: its bounding box and
//! either its points (a simple glyph) or its components (a compound glyph), with coordinates
//! kept as the integers the file holds.
use crate::parse::{be16, sbe16, sbe8, flag_u8, flag_u16, Stream};
use crate::table::loca::GlyphLocation;
use crate::FontResult;
use vstd::prelude::*;

#[allow(non_snake_case)]
pub mod SimpleFlags;
#[allow(non_snake_case)]
pub mod CompoundFlags;

verus! {

/// A point of a simple glyph, in font units.
#[derive(Copy, Clone, Debug, PartialEq, Eq)]
pub struct GlyphPoint {
    /// Absolute X coordinate.
    pub x: i16,
    /// Absolute Y coordinate.
    pub y: i16,
    /// Flags associated with the point.
    pub flags: u8,
    /// Marks if this is the last point in the contour.
    pub end_point: bool,
    /// Marks if this is the first point in the contour.
    pub start_point: bool,
}

/// The transform of a component, as raw F2Dot14 values (16384 is 1.0).
#[derive(Copy, Clone, Debug, PartialEq, Eq)]
pub enum ComponentScale {
    /// No scale: the identity.
    Identity,
    /// One scale for both axes.
    Uniform(i16),
    /// A scale for x and one for y.
    XY(i16, i16),
    /// A 2 by 2 matrix, in the order a, b, c, d.
    TwoByTwo(i16, i16, i16, i16),
}

/// A component of a compound glyph.
#[derive(Copy, Clone, Debug, PartialEq, Eq)]
pub struct Component {
    pub flags: u16,
    /// The glyph whose points the component places.
    pub glyph_index: u16,
    /// The x offset of the component.
    pub cx: i32,
    /// The y offset of the component.
    pub cy: i32,
    pub scale: ComponentScale,
}

/// The outline data of a glyph record.
#[derive(Clone, Debug, PartialEq, Eq)]
pub enum GlyphOutline {
    /// The points of a simple glyph; an empty glyph has none.
    Simple(Vec<GlyphPoint>),
    /// The components of a compound glyph, in order, up to the first component that cannot be
    /// read, whose error follows them.
    Compound(Vec<Component>, Option<&'static str>),
}

/// One glyph record of the `glyf` table.
#[derive(Clone, Debug, PartialEq, Eq)]
pub struct GlyphRecord {
    /// The number of contours in the glyph; negative for a compound glyph.
    pub num_contours: i16,
    /// The bounding box. For a simple glyph it is widened to hold every point.
    pub xmin: i16,
    pub ymin: i16,
    pub xmax: i16,
    pub ymax: i16,
    /// The index of the glyph whose metrics this glyph uses.
    pub metrics: usize,
    pub outline: GlyphOutline,
}

// ---- simple glyphs ----

/// The flags of `need` points from `pos`: a flag with the repeat bit is followed by a count of
/// copies. A repeat may run past `need`. `None` when a flag or count lies past the data.
pub open spec fn flags_run(b: Seq<u8>, pos: int, need: nat) -> Option<(Seq<u8>, int)>
    decreases need,
{
    if need == 0 {
        Some((Seq::empty(), pos))
    } else if pos < 0 || pos >= b.len() {
        None
    } else {
        let f = b[pos];
        let repeat = f & SimpleFlags::REPEAT == SimpleFlags::REPEAT;
        if repeat && pos + 1 >= b.len() {
            None
        } else {
            let copies: nat = if repeat { b[pos + 1] as nat } else { 0 };
            let next = if repeat { pos + 2 } else { pos + 1 };
            let here = Seq::new(copies + 1, |i: int| f);
            if copies + 1 >= need {
                Some((here, next))
            } else {
                match flags_run(b, next, (need - copies - 1) as nat) {
                    Some((rest, end)) => Some((here + rest, end)),
                    None => None,
                }
            }
        }
    }
}

/// The coordinates of the points with the given flags, read as deltas from `pos` and summed from
/// `last`: short and dual set add an unsigned byte, short alone subtracts one, dual alone
/// repeats the coordinate, neither adds a signed 16 bit value. `None` when a delta lies past the
/// data or a coordinate leaves the 16 bit range.
pub open spec fn coord_run(b: Seq<u8>, flags: Seq<u8>, pos: int, last: int, short: u8, dual: u8) -> Option<(Seq<int>, int)>
    decreases flags.len(),
{
    if flags.len() == 0 {
        Some((Seq::empty(), pos))
    } else {
        let m = flags[0] & (short | dual);
        let width: int = if m == short | dual || m == short { 1 } else if m == dual { 0 } else { 2 };
        if pos < 0 || pos + width > b.len() {
            None
        } else {
            let v = if m == short | dual {
                last + b[pos]
            } else if m == short {
                last - b[pos]
            } else if m == dual {
                last
            } else {
                last + sbe16(b, pos)
            };
            if v < i16::MIN || v > i16::MAX {
                None
            } else {
                match coord_run(b, flags.skip(1), pos + width, v, short, dual) {
                    Some((rest, end)) => Some((seq![v] + rest, end)),
                    None => None,
                }
            }
        }
    }
}

/// The end point index of contour `k` of the simple glyph at `o`.
pub open spec fn contour_end(b: Seq<u8>, o: int, k: int) -> int {
    be16(b, o + 10 + 2 * k) as int
}

/// Where the flags of the simple glyph at `o` with `nc` contours start: after the contour ends
/// and the instructions.
pub open spec fn flags_start(b: Seq<u8>, o: int, nc: int) -> int {
    o + 12 + 2 * nc + be16(b, o + 10 + 2 * nc)
}

/// The point count of the simple glyph at `o`: one more than the last contour's end.
pub open spec fn point_count(b: Seq<u8>, o: int, nc: int) -> int {
    contour_end(b, o, nc - 1) + 1
}

/// The flags of the simple glyph at `o`.
pub open spec fn glyph_flags(b: Seq<u8>, o: int, nc: int) -> Seq<u8> {
    flags_run(b, flags_start(b, o, nc), point_count(b, o, nc) as nat).unwrap().0
}

/// The x coordinates of the simple glyph at `o`, which follow its flags.
pub open spec fn glyph_xs(b: Seq<u8>, o: int, nc: int) -> Seq<int> {
    coord_run(b, glyph_flags(b, o, nc), flags_run(b, flags_start(b, o, nc), point_count(b, o, nc) as nat).unwrap().1, 0, 2, 16).unwrap().0
}

/// Where the y coordinates of the simple glyph at `o` start, after the x coordinates.
pub open spec fn ys_start(b: Seq<u8>, o: int, nc: int) -> int {
    coord_run(b, glyph_flags(b, o, nc), flags_run(b, flags_start(b, o, nc), point_count(b, o, nc) as nat).unwrap().1, 0, 2, 16).unwrap().1
}

/// The y coordinates of the simple glyph at `o`, which follow its x coordinates.
pub open spec fn glyph_ys(b: Seq<u8>, o: int, nc: int) -> Seq<int> {
    coord_run(b, glyph_flags(b, o, nc), ys_start(b, o, nc), 0, 4, 32).unwrap().0
}

/// Point `j` of the simple glyph at `o`: it ends a contour when a contour end names it, and
/// starts one when it follows a contour end, the first point following the last.
pub open spec fn glyph_point(b: Seq<u8>, o: int, nc: int, j: int) -> GlyphPoint {
    GlyphPoint {
        x: glyph_xs(b, o, nc)[j] as i16,
        y: glyph_ys(b, o, nc)[j] as i16,
        flags: glyph_flags(b, o, nc)[j],
        end_point: exists|k: int| 0 <= k < nc && #[trigger] contour_end(b, o, k) == j,
        start_point: exists|k: int| 0 <= k < nc && (#[trigger] contour_end(b, o, k) + 1) % point_count(b, o, nc) == j,
    }
}

/// Every read of the simple glyph at `o` with `nc > 0` contours lies in the data, its
/// coordinates stay in 16 bits and its contour ends name points.
pub open spec fn simple_readable(b: Seq<u8>, o: int, nc: int) -> bool {
    &&& o + 12 + 2 * nc <= b.len()
    &&& flags_run(b, flags_start(b, o, nc), point_count(b, o, nc) as nat) is Some
    &&& coord_run(b, glyph_flags(b, o, nc), flags_run(b, flags_start(b, o, nc), point_count(b, o, nc) as nat).unwrap().1, 0, 2, 16) is Some
    &&& coord_run(b, glyph_flags(b, o, nc), ys_start(b, o, nc), 0, 4, 32) is Some
    &&& forall|k: int| 0 <= k < nc ==> #[trigger] contour_end(b, o, k) < glyph_flags(b, o, nc).len()
}

/// The smallest of `lo` and the values.
pub open spec fn min_of(lo: int, vals: Seq<int>) -> int
    decreases vals.len(),
{
    if vals.len() == 0 { lo } else { min_of(if vals[0] < lo { vals[0] } else { lo }, vals.skip(1)) }
}

/// The largest of `hi` and the values.
pub open spec fn max_of(hi: int, vals: Seq<int>) -> int
    decreases vals.len(),
{
    if vals.len() == 0 { hi } else { max_of(if vals[0] > hi { vals[0] } else { hi }, vals.skip(1)) }
}


// ---- reading a simple glyph ----

/// How many points still need a flag.
pub open spec fn need_left(n: int, have: int) -> nat {
    if have >= n { 0 } else { (n - have) as nat }
}

proof fn lemma_flags_run_len(b: Seq<u8>, pos: int, need: nat)
    requires
        flags_run(b, pos, need) is Some,
    ensures
        flags_run(b, pos, need).unwrap().0.len() >= need,
    decreases need,
{
    if need > 0 {
        let f = b[pos];
        let repeat = f & SimpleFlags::REPEAT == SimpleFlags::REPEAT;
        let copies: nat = if repeat { b[pos + 1] as nat } else { 0 };
        let next = if repeat { pos + 2 } else { pos + 1 };
        if copies + 1 < need {
            lemma_flags_run_len(b, next, (need - copies - 1) as nat);
        }
    }
}

proof fn lemma_flags_run_step(b: Seq<u8>, pos: int, need: nat)
    requires
        need > 0,
        flags_run(b, pos, need) is Some,
    ensures
        0 <= pos < b.len(),
        ({
            let f = b[pos];
            let repeat = f & SimpleFlags::REPEAT == SimpleFlags::REPEAT;
            let copies: nat = if repeat { b[pos + 1] as nat } else { 0 };
            let next = if repeat { pos + 2 } else { pos + 1 };
            let here = Seq::new(copies + 1, |i: int| f);
            let rest_need: nat = if copies + 1 >= need { 0 } else { (need - copies - 1) as nat };
            &&& (repeat ==> pos + 1 < b.len())
            &&& flags_run(b, next, rest_need) is Some
            &&& flags_run(b, pos, need).unwrap().0 == here + flags_run(b, next, rest_need).unwrap().0
            &&& flags_run(b, pos, need).unwrap().1 == flags_run(b, next, rest_need).unwrap().1
        }),
{
    let f = b[pos];
    let repeat = f & SimpleFlags::REPEAT == SimpleFlags::REPEAT;
    let copies: nat = if repeat { b[pos + 1] as nat } else { 0 };
    let here = Seq::new(copies + 1, |i: int| f);
    if copies + 1 >= need {
        assert(here + Seq::<u8>::empty() =~= here);
    }
}

/// Reads flags until `num_points` points have one; a repeated flag may give more.
fn read_flags(stream: &mut Stream, num_points: usize) -> (points: Vec<GlyphPoint>)
    requires
        flags_run(old(stream).bytes@, old(stream).offset as int, num_points as nat) is Some,
    ensures
        final(stream).bytes@ == old(stream).bytes@,
        final(stream).offset == flags_run(old(stream).bytes@, old(stream).offset as int, num_points as nat).unwrap().1,
        points@.len() == flags_run(old(stream).bytes@, old(stream).offset as int, num_points as nat).unwrap().0.len(),
        forall|j: int| 0 <= j < points@.len() ==> #[trigger] points@[j] == (GlyphPoint {
            x: 0,
            y: 0,
            flags: flags_run(old(stream).bytes@, old(stream).offset as int, num_points as nat).unwrap().0[j],
            end_point: false,
            start_point: false,
        }),
{
    let ghost b = stream.bytes@;
    let ghost total = flags_run(b, stream.offset as int, num_points as nat).unwrap();
    let mut points: Vec<GlyphPoint> = Vec::with_capacity(num_points);
    assert(Seq::<u8>::empty() + total.0 =~= total.0);
    while points.len() < num_points
        invariant
            stream.bytes@ == b,
            b == old(stream).bytes@,
            total == flags_run(b, old(stream).offset as int, num_points as nat).unwrap(),
            flags_run(b, stream.offset as int, need_left(num_points as int, points@.len() as int)) is Some,
            points@.len() <= total.0.len(),
            total.0 == points@.map_values(|p: GlyphPoint| p.flags) + flags_run(b, stream.offset as int, need_left(num_points as int, points@.len() as int)).unwrap().0,
            total.1 == flags_run(b, stream.offset as int, need_left(num_points as int, points@.len() as int)).unwrap().1,
            forall|j: int| 0 <= j < points@.len() ==> #[trigger] points@[j] == (GlyphPoint {
                x: 0,
                y: 0,
                flags: total.0[j],
                end_point: false,
                start_point: false,
            }),
        decreases need_left(num_points as int, points@.len() as int),
    {
        let ghost need = need_left(num_points as int, points@.len() as int);
        let ghost pos = stream.offset as int;
        proof {
            lemma_flags_run_step(b, pos, need);
        }
        let ghost old_points = points@;
        let flags = stream.read_u8();
        let point = GlyphPoint { x: 0, y: 0, flags, start_point: false, end_point: false };
        points.push(point);
        let mut copies: u8 = 0;
        if flag_u8(flags, SimpleFlags::REPEAT) {
            let count = stream.read_u8();
            while copies < count
                invariant
                    points@.len() == old_points.len() + 1 + copies,
                    copies <= count,
                    forall|j: int| 0 <= j < old_points.len() ==> #[trigger] points@[j] == old_points[j],
                    forall|j: int| old_points.len() <= j < points@.len() ==> #[trigger] points@[j] == point,
                decreases count - copies,
            {
                points.push(point);
                copies += 1;
            }
        }
        proof {
            let f = b[pos];
            let repeat = f & SimpleFlags::REPEAT == SimpleFlags::REPEAT;
            let c: nat = if repeat { b[pos + 1] as nat } else { 0 };
            let here = Seq::new(c + 1, |i: int| f);
            let rest_need: nat = if c + 1 >= need { 0 } else { (need - c - 1) as nat };
            assert(copies == c);
            let next = if repeat { pos + 2 } else { pos + 1 };
            assert(stream.offset == next);
            assert(points@.map_values(|p: GlyphPoint| p.flags) =~= old_points.map_values(|p: GlyphPoint| p.flags) + here);
            assert(need_left(num_points as int, points@.len() as int) == rest_need);
            let rest = flags_run(b, next, rest_need).unwrap().0;
            assert(total.0 =~= points@.map_values(|p: GlyphPoint| p.flags) + rest);
            assert forall|j: int| 0 <= j < points@.len() implies #[trigger] points@[j] == (GlyphPoint {
                x: 0,
                y: 0,
                flags: total.0[j],
                end_point: false,
                start_point: false,
            }) by {
                assert(total.0[j] == points@.map_values(|p: GlyphPoint| p.flags)[j]);
            }
        }
    }
    proof {
        let rest = flags_run(b, stream.offset as int, 0).unwrap().0;
        assert(rest =~= Seq::<u8>::empty());
        assert(total.0 =~= points@.map_values(|p: GlyphPoint| p.flags));
    }
    points
}

/// The flags of the points.
pub open spec fn point_flags(points: Seq<GlyphPoint>) -> Seq<u8> {
    points.map_values(|p: GlyphPoint| p.flags)
}

proof fn lemma_coord_run_len(b: Seq<u8>, flags: Seq<u8>, pos: int, last: int, short: u8, dual: u8)
    requires
        coord_run(b, flags, pos, last, short, dual) is Some,
    ensures
        coord_run(b, flags, pos, last, short, dual).unwrap().0.len() == flags.len(),
    decreases flags.len(),
{
    if flags.len() > 0 {
        let m = flags[0] & (short | dual);
        let width: int = if m == short | dual || m == short { 1 } else if m == dual { 0 } else { 2 };
        let v = if m == short | dual {
            last + b[pos]
        } else if m == short {
            last - b[pos]
        } else if m == dual {
            last
        } else {
            last + sbe16(b, pos)
        };
        lemma_coord_run_len(b, flags.skip(1), pos + width, v, short, dual);
    }
}

proof fn lemma_coord_run_range(b: Seq<u8>, flags: Seq<u8>, pos: int, last: int, short: u8, dual: u8)
    requires
        coord_run(b, flags, pos, last, short, dual) is Some,
    ensures
        forall|j: int| 0 <= j < coord_run(b, flags, pos, last, short, dual).unwrap().0.len() ==> i16::MIN
            <= #[trigger] coord_run(b, flags, pos, last, short, dual).unwrap().0[j] <= i16::MAX,
    decreases flags.len(),
{
    if flags.len() > 0 {
        let m = flags[0] & (short | dual);
        let width: int = if m == short | dual || m == short { 1 } else if m == dual { 0 } else { 2 };
        let v = if m == short | dual {
            last + b[pos]
        } else if m == short {
            last - b[pos]
        } else if m == dual {
            last
        } else {
            last + sbe16(b, pos)
        };
        lemma_coord_run_range(b, flags.skip(1), pos + width, v, short, dual);
        let r = coord_run(b, flags, pos, last, short, dual).unwrap().0;
        let rest = coord_run(b, flags.skip(1), pos + width, v, short, dual).unwrap().0;
        assert forall|j: int| 0 <= j < r.len() implies i16::MIN <= #[trigger] r[j] <= i16::MAX by {
            if j > 0 {
                assert(r[j] == rest[j - 1]);
            }
        }
    }
}

proof fn lemma_coord_run_step(b: Seq<u8>, flags: Seq<u8>, i: int, pos: int, last: int, short: u8, dual: u8)
    requires
        0 <= i < flags.len(),
        coord_run(b, flags.skip(i), pos, last, short, dual) is Some,
    ensures
        ({
            let m = flags[i] & (short | dual);
            let width: int = if m == short | dual || m == short { 1 } else if m == dual { 0 } else { 2 };
            let v = if m == short | dual {
                last + b[pos]
            } else if m == short {
                last - b[pos]
            } else if m == dual {
                last
            } else {
                last + sbe16(b, pos)
            };
            let r = coord_run(b, flags.skip(i), pos, last, short, dual).unwrap();
            &&& 0 <= pos && pos + width <= b.len()
            &&& i16::MIN <= v <= i16::MAX
            &&& coord_run(b, flags.skip(i + 1), pos + width, v, short, dual) is Some
            &&& r.0 == seq![v] + coord_run(b, flags.skip(i + 1), pos + width, v, short, dual).unwrap().0
            &&& r.1 == coord_run(b, flags.skip(i + 1), pos + width, v, short, dual).unwrap().1
        }),
{
    assert(flags.skip(i).skip(1) =~= flags.skip(i + 1));
    assert(flags.skip(i)[0] == flags[i]);
}

/// Reads the x (or y) deltas of the points and stores the summed coordinates.
fn read_coords(stream: &mut Stream, points: &mut Vec<GlyphPoint>, short: u8, dual: u8, is_x: bool)
    requires
        coord_run(old(stream).bytes@, point_flags(old(points)@), old(stream).offset as int, 0, short, dual) is Some,
    ensures
        final(stream).bytes@ == old(stream).bytes@,
        final(stream).offset == coord_run(old(stream).bytes@, point_flags(old(points)@), old(stream).offset as int, 0, short, dual).unwrap().1,
        final(points)@.len() == old(points)@.len(),
        forall|j: int| 0 <= j < old(points)@.len() ==> {
            let c = coord_run(old(stream).bytes@, point_flags(old(points)@), old(stream).offset as int, 0, short, dual).unwrap().0[j];
            let p = old(points)@[j];
            #[trigger] final(points)@[j] == (if is_x { GlyphPoint { x: c as i16, ..p } } else { GlyphPoint { y: c as i16, ..p } })
        },
{
    let ghost b = stream.bytes@;
    let ghost fl = point_flags(points@);
    let ghost total = coord_run(b, fl, stream.offset as int, 0, short, dual).unwrap();
    let ghost start = points@;
    let mut last: i16 = 0;
    let mut i: usize = 0;
    assert(fl.skip(0) =~= fl);
    assert(total.0.skip(0) =~= total.0);
    proof {
        lemma_coord_run_len(b, fl, stream.offset as int, 0, short, dual);
    }
    while i < points.len()
        invariant
            stream.bytes@ == b,
            b == old(stream).bytes@,
            start == old(points)@,
            fl == point_flags(start),
            fl.len() == start.len(),
            total == coord_run(b, fl, old(stream).offset as int, 0, short, dual).unwrap(),
            points@.len() == start.len(),
            i <= points@.len(),
            coord_run(b, fl.skip(i as int), stream.offset as int, last as int, short, dual) is Some,
            coord_run(b, fl.skip(i as int), stream.offset as int, last as int, short, dual).unwrap().0 == total.0.skip(i as int),
            coord_run(b, fl.skip(i as int), stream.offset as int, last as int, short, dual).unwrap().1 == total.1,
            total.0.len() == fl.len(),
            forall|j: int| 0 <= j < i ==> {
                let c = total.0[j];
                let p = start[j];
                #[trigger] points@[j] == (if is_x { GlyphPoint { x: c as i16, ..p } } else { GlyphPoint { y: c as i16, ..p } })
            },
            forall|j: int| i <= j < start.len() ==> #[trigger] points@[j] == start[j],
        decreases start.len() - i,
    {
        proof {
            lemma_coord_run_step(b, fl, i as int, stream.offset as int, last as int, short, dual);
            assert(fl[i as int] == points@[i as int].flags);
        }
        let ghost t = total.0.skip(i as int);
        let f = points[i].flags;
        let m = f & (short | dual);
        if m == short | dual {
            let d = stream.read_u8();
            last = last + d as i16;
        } else if m == short {
            let d = stream.read_u8();
            last = last - d as i16;
        } else if m == dual {
        } else {
            let d = stream.read_i16();
            last = last + d;
        }
        proof {
            assert(total.0[i as int] == t[0]);
            assert(t.skip(1) =~= total.0.skip(i + 1));
        }
        let mut p = points[i];
        if is_x {
            p.x = last;
        } else {
            p.y = last;
        }
        points.set(i, p);
        i += 1;
    }
    proof {
        if total.0.len() > 0 {
            assert(total.0.len() == fl.len());
        }
    }
}

// ---- compound glyphs ----

/// The component's offsets are two signed 16 bit values.
pub open spec fn args_are_words(flags: u16) -> bool {
    flags & CompoundFlags::ARGS_ARE_WORDS_AND_XY_VALUES == CompoundFlags::ARGS_ARE_WORDS_AND_XY_VALUES
}

/// The component's offsets are two signed bytes.
pub open spec fn args_are_bytes(flags: u16) -> bool {
    flags & CompoundFlags::ARGS_ARE_WORDS_AND_XY_VALUES == CompoundFlags::ARGS_ARE_XY_VALUES
}

/// The bytes of the component's transform.
pub open spec fn scale_len(flags: u16) -> int {
    if flags & CompoundFlags::WE_HAVE_A_SCALE == CompoundFlags::WE_HAVE_A_SCALE {
        2
    } else if flags & CompoundFlags::WE_HAVE_AN_X_AND_Y_SCALE == CompoundFlags::WE_HAVE_AN_X_AND_Y_SCALE {
        4
    } else if flags & CompoundFlags::WE_HAVE_A_TWO_BY_TWO == CompoundFlags::WE_HAVE_A_TWO_BY_TWO {
        8
    } else {
        0
    }
}

/// The bytes of a component record with offsets of a supported kind.
pub open spec fn component_len(flags: u16) -> int {
    4 + (if args_are_words(flags) { 4int } else { 2int }) + scale_len(flags)
}

/// The flags of the component at `pos`.
pub open spec fn component_flags(b: Seq<u8>, pos: int) -> u16 {
    be16(b, pos) as u16
}

/// The component at `pos` can be read.
pub open spec fn component_readable(b: Seq<u8>, pos: int) -> bool {
    &&& 0 <= pos
    &&& pos + 4 <= b.len()
    &&& (args_are_words(component_flags(b, pos)) || args_are_bytes(component_flags(b, pos))) ==> pos + component_len(
        component_flags(b, pos),
    ) <= b.len()
}

/// The error a component at `pos` gives, if any: offsets that are matched point numbers, or a
/// scaled component offset.
pub open spec fn component_error(b: Seq<u8>, pos: int) -> Option<&'static str> {
    let flags = component_flags(b, pos);
    if !(args_are_words(flags) || args_are_bytes(flags)) {
        Some("Font.glyf: Component matched point numbers are unsupported")
    } else if flags & CompoundFlags::SCALED_COMPONENT_OFFSET == CompoundFlags::SCALED_COMPONENT_OFFSET && !(flags
        & CompoundFlags::UNSCALED_COMPONENT_OFFSET == CompoundFlags::UNSCALED_COMPONENT_OFFSET) {
        Some("Font.glyf: Scaled component offset is unsupported")
    } else {
        None
    }
}

/// The component at `pos`.
pub open spec fn component_at(b: Seq<u8>, pos: int) -> Component {
    let flags = component_flags(b, pos);
    let words = args_are_words(flags);
    let q = pos + 4 + (if words { 4int } else { 2int });
    Component {
        flags,
        glyph_index: be16(b, pos + 2) as u16,
        cx: (if words { sbe16(b, pos + 4) } else { sbe8(b, pos + 4) }) as i32,
        cy: (if words { sbe16(b, pos + 6) } else { sbe8(b, pos + 5) }) as i32,
        scale: if flags & CompoundFlags::WE_HAVE_A_SCALE == CompoundFlags::WE_HAVE_A_SCALE {
            ComponentScale::Uniform(sbe16(b, q) as i16)
        } else if flags & CompoundFlags::WE_HAVE_AN_X_AND_Y_SCALE == CompoundFlags::WE_HAVE_AN_X_AND_Y_SCALE {
            ComponentScale::XY(sbe16(b, q) as i16, sbe16(b, q + 2) as i16)
        } else if flags & CompoundFlags::WE_HAVE_A_TWO_BY_TWO == CompoundFlags::WE_HAVE_A_TWO_BY_TWO {
            ComponentScale::TwoByTwo(sbe16(b, q) as i16, sbe16(b, q + 2) as i16, sbe16(b, q + 4) as i16, sbe16(b, q + 6) as i16)
        } else {
            ComponentScale::Identity
        },
    }
}

/// A component whose offsets are given as bytes (the xy-values flag without the words flag) is
/// moved by the two argument bytes read as two's complement signed 8 bit values: each offset lies
/// in -128 ..= 127, and a byte of 0xF6 moves the component by -10.
pub proof fn lemma_component_byte_offsets(b: Seq<u8>, pos: int)
    requires
        0 <= pos,
        pos + 6 <= b.len(),
        (b[pos] as int * 256 + b[pos + 1] as int) as u16 & 0x0003 == 0x0002,
    ensures
        component_at(b, pos).cx == (if b[pos + 4] < 128 { b[pos + 4] as int } else { b[pos + 4] as int - 256 }),
        component_at(b, pos).cy == (if b[pos + 5] < 128 { b[pos + 5] as int } else { b[pos + 5] as int - 256 }),
        -128 <= component_at(b, pos).cx <= 127,
        -128 <= component_at(b, pos).cy <= 127,
{
}

/// The component ends the list unless it has the more-components flag.
pub open spec fn component_more(b: Seq<u8>, pos: int) -> bool {
    component_flags(b, pos) & CompoundFlags::MORE_COMPONENTS == CompoundFlags::MORE_COMPONENTS
}

/// The components from `pos` on, up to the last one or to the first one with an error, which
/// follows them.
pub open spec fn components_from(b: Seq<u8>, pos: int) -> (Seq<Component>, Option<&'static str>)
    decreases b.len() - pos,
{
    if !component_readable(b, pos) {
        (Seq::empty(), None)
    } else if component_error(b, pos) is Some {
        (Seq::empty(), component_error(b, pos))
    } else if component_more(b, pos) {
        let rest = components_from(b, pos + component_len(component_flags(b, pos)));
        (seq![component_at(b, pos)] + rest.0, rest.1)
    } else {
        (seq![component_at(b, pos)], None)
    }
}

/// Every component the reader reaches from `pos` can be read.
pub open spec fn components_readable(b: Seq<u8>, pos: int) -> bool
    decreases b.len() - pos,
{
    &&& component_readable(b, pos)
    &&& (component_error(b, pos) is None && component_more(b, pos)) ==> components_readable(
        b,
        pos + component_len(component_flags(b, pos)),
    )
}

/// The metrics glyph after the components from `pos`: the last component read with the
/// use-my-metrics flag names it.
pub open spec fn components_metrics(b: Seq<u8>, pos: int, m: int) -> int
    decreases b.len() - pos,
{
    if !component_readable(b, pos) {
        m
    } else {
        let flags = component_flags(b, pos);
        let m2 = if flags & CompoundFlags::USE_MY_METRICS == CompoundFlags::USE_MY_METRICS { be16(b, pos + 2) as int } else { m };
        if component_error(b, pos) is None && component_more(b, pos) {
            components_metrics(b, pos + component_len(flags), m2)
        } else {
            m2
        }
    }
}

// ---- the record ----

/// The bounding box a glyph record at `o` declares, where the all-extreme box some fonts use
/// stands for an empty box.
pub open spec fn declared_box(b: Seq<u8>, o: int) -> (int, int, int, int) {
    let xmin = sbe16(b, o + 2);
    let ymin = sbe16(b, o + 4);
    let xmax = sbe16(b, o + 6);
    let ymax = sbe16(b, o + 8);
    if xmin == 32767 && xmax == -32767 && ymin == 32767 && ymax == -32767 {
        (0, 0, 0, 0)
    } else {
        (xmin, ymin, xmax, ymax)
    }
}

/// The record at `loc` can be read without reading past the data.
pub open spec fn glyph_readable(b: Seq<u8>, loc: GlyphLocation) -> bool {
    let o = loc.offset as int;
    let nc = sbe16(b, o);
    let bx = declared_box(b, o);
    loc.length != 0 ==> {
        &&& o + 10 <= b.len()
        &&& (bx.0 <= bx.2 && bx.1 <= bx.3) ==> {
            &&& nc > 0 ==> simple_readable(b, o, nc)
            &&& nc < 0 ==> components_readable(b, o + 10)
        }
    }
}

proof fn lemma_components_step(b: Seq<u8>, pos: int, m: int)
    requires
        components_readable(b, pos),
    ensures
        component_readable(b, pos),
        pos + component_len(component_flags(b, pos)) <= b.len() || component_error(b, pos) is Some,
        component_error(b, pos) is None && component_more(b, pos) ==> {
            let next = pos + component_len(component_flags(b, pos));
            &&& components_readable(b, next)
            &&& components_from(b, pos).0 == seq![component_at(b, pos)] + components_from(b, next).0
            &&& components_from(b, pos).1 == components_from(b, next).1
            &&& components_metrics(b, pos, m) == components_metrics(
                b,
                next,
                if component_flags(b, pos) & CompoundFlags::USE_MY_METRICS == CompoundFlags::USE_MY_METRICS {
                    be16(b, pos + 2) as int
                } else {
                    m
                },
            )
        },
{
}

/// Reads the components of a compound glyph whose first component is at the cursor.
fn read_components(stream: &mut Stream, index: usize) -> (r: (Vec<Component>, Option<&'static str>, usize))
    requires
        components_readable(old(stream).bytes@, old(stream).offset as int),
    ensures
        r.0@ == components_from(old(stream).bytes@, old(stream).offset as int).0,
        r.1 == components_from(old(stream).bytes@, old(stream).offset as int).1,
        r.2 == components_metrics(old(stream).bytes@, old(stream).offset as int, index as int),
{
    let ghost b = stream.bytes@;
    let ghost total = components_from(b, stream.offset as int);
    let ghost total_metrics = components_metrics(b, stream.offset as int, index as int);
    let mut components: Vec<Component> = Vec::new();
    let mut error: Option<&'static str> = None;
    let mut metrics: usize = index;
    let mut more = true;
    assert(components@ + total.0 =~= total.0);
    while more
        invariant
            stream.bytes@ == b,
            b == old(stream).bytes@,
            total == components_from(b, old(stream).offset as int),
            total_metrics == components_metrics(b, old(stream).offset as int, index as int),
            more ==> components_readable(b, stream.offset as int),
            more ==> error is None,
            more ==> components@ + components_from(b, stream.offset as int).0 == total.0,
            more ==> components_from(b, stream.offset as int).1 == total.1,
            more ==> components_metrics(b, stream.offset as int, metrics as int) == total_metrics,
            !more ==> components@ == total.0 && error == total.1 && metrics == total_metrics,
        decreases b.len() - stream.offset,
    {
        let ghost pos = stream.offset as int;
        proof {
            lemma_components_step(b, pos, metrics as int);
        }
        let flags = stream.read_u16();
        let compound_glyph_index = stream.read_u16();
        if flag_u16(flags, CompoundFlags::USE_MY_METRICS) {
            metrics = compound_glyph_index as usize;
        }
        let cx: i32;
        let cy: i32;
        let a = flags & CompoundFlags::ARGS_ARE_WORDS_AND_XY_VALUES;
        if a == CompoundFlags::ARGS_ARE_WORDS_AND_XY_VALUES {
            cx = stream.read_i16() as i32;
            cy = stream.read_i16() as i32;
        } else if a == CompoundFlags::ARGS_ARE_XY_VALUES {
            cx = stream.read_i8() as i32;
            cy = stream.read_i8() as i32;
        } else {
            error = Some("Font.glyf: Component matched point numbers are unsupported");
            more = false;
            proof {
                assert(components@ =~= total.0) by {
                    assert(components_from(b, pos).0 =~= Seq::<Component>::empty());
                }
            }
            continue;
        }
        let scale = if flag_u16(flags, CompoundFlags::WE_HAVE_A_SCALE) {
            ComponentScale::Uniform(stream.read_i16())
        } else if flag_u16(flags, CompoundFlags::WE_HAVE_AN_X_AND_Y_SCALE) {
            let x = stream.read_i16();
            let y = stream.read_i16();
            ComponentScale::XY(x, y)
        } else if flag_u16(flags, CompoundFlags::WE_HAVE_A_TWO_BY_TWO) {
            let sa = stream.read_i16();
            let sb = stream.read_i16();
            let sc = stream.read_i16();
            let sd = stream.read_i16();
            ComponentScale::TwoByTwo(sa, sb, sc, sd)
        } else {
            ComponentScale::Identity
        };
        if flag_u16(flags, CompoundFlags::SCALED_COMPONENT_OFFSET) && !flag_u16(flags, CompoundFlags::UNSCALED_COMPONENT_OFFSET) {
            error = Some("Font.glyf: Scaled component offset is unsupported");
            more = false;
            proof {
                assert(components@ =~= total.0) by {
                    assert(components_from(b, pos).0 =~= Seq::<Component>::empty());
                }
            }
            continue;
        }
        let c = Component { flags, glyph_index: compound_glyph_index, cx, cy, scale };
        proof {
            assert(c == component_at(b, pos));
        }
        let ghost before = components@;
        components.push(c);
        more = flag_u16(flags, CompoundFlags::MORE_COMPONENTS);
        proof {
            if more {
                assert(stream.offset == pos + component_len(flags));
                assert(components@ + components_from(b, stream.offset as int).0 =~= before + components_from(b, pos).0);
            } else {
                assert(components_from(b, pos).0 =~= seq![c]);
                assert(components@ =~= before + components_from(b, pos).0);
            }
        }
    }
    (components, error, metrics)
}

/// Marks the contour ends and starts among the points.
fn mark_contours(points: &mut Vec<GlyphPoint>, end_points_of_contours: &Vec<u16>, num_points: usize)
    requires
        num_points > 0,
        num_points <= old(points)@.len(),
        forall|k: int| 0 <= k < end_points_of_contours@.len() ==> #[trigger] end_points_of_contours@[k] < old(points)@.len(),
        forall|j: int| 0 <= j < old(points)@.len() ==> !(#[trigger] old(points)@[j]).end_point && !old(points)@[j].start_point,
    ensures
        final(points)@.len() == old(points)@.len(),
        forall|j: int| 0 <= j < old(points)@.len() ==> {
            let p = old(points)@[j];
            let q = #[trigger] final(points)@[j];
            &&& q.x == p.x && q.y == p.y && q.flags == p.flags
            &&& q.end_point == exists|k: int| 0 <= k < end_points_of_contours@.len() && end_points_of_contours@[k] == j
            &&& q.start_point == exists|k: int| 0 <= k < end_points_of_contours@.len() && (end_points_of_contours@[k] + 1)
                % (num_points as int) == j
        },
{
    let ghost start = points@;
    let ghost ep = end_points_of_contours@;
    let mut k: usize = 0;
    while k < end_points_of_contours.len()
        invariant
            start == old(points)@,
            ep == end_points_of_contours@,
            num_points > 0,
            num_points <= start.len(),
            forall|k: int| 0 <= k < ep.len() ==> #[trigger] ep[k] < start.len(),
            points@.len() == start.len(),
            k <= ep.len(),
            forall|j: int| 0 <= j < start.len() ==> {
                let p = start[j];
                let q = #[trigger] points@[j];
                &&& q.x == p.x && q.y == p.y && q.flags == p.flags
                &&& q.end_point == exists|m: int| 0 <= m < k && ep[m] == j
                &&& q.start_point == exists|m: int| 0 <= m < k && (ep[m] + 1) % (num_points as int) == j
            },
        decreases ep.len() - k,
    {
        let end_point = end_points_of_contours[k] as usize;
        let ghost before = points@;
        let mut p = points[end_point];
        p.end_point = true;
        points.set(end_point, p);
        let s = (end_point + 1) % num_points;
        let mut q = points[s];
        q.start_point = true;
        points.set(s, q);
        proof {
            assert forall|j: int| 0 <= j < start.len() implies {
                let p = start[j];
                let q = #[trigger] points@[j];
                &&& q.x == p.x && q.y == p.y && q.flags == p.flags
                &&& q.end_point == exists|m: int| 0 <= m < k + 1 && ep[m] == j
                &&& q.start_point == exists|m: int| 0 <= m < k + 1 && (ep[m] + 1) % (num_points as int) == j
            } by {
                if j == end_point as int {
                    assert(ep[k as int] == j);
                }
                if j == s as int {
                    assert((ep[k as int] + 1) % (num_points as int) == j);
                }
                if exists|m: int| 0 <= m < k + 1 && ep[m] == j {
                    let m = choose|m: int| 0 <= m < k + 1 && ep[m] == j;
                    if m < k {
                        assert(before[j].end_point);
                    }
                }
                if exists|m: int| 0 <= m < k + 1 && (ep[m] + 1) % (num_points as int) == j {
                    let m = choose|m: int| 0 <= m < k + 1 && (ep[m] + 1) % (num_points as int) == j;
                    if m < k {
                        assert(before[j].start_point);
                    }
                }
            }
        }
        k += 1;
    }
}

proof fn lemma_min_max_step(lo: int, hi: int, vals: Seq<int>, i: int)
    requires
        0 <= i < vals.len(),
    ensures
        min_of(lo, vals.skip(i)) == min_of(if vals[i] < lo { vals[i] } else { lo }, vals.skip(i + 1)),
        max_of(hi, vals.skip(i)) == max_of(if vals[i] > hi { vals[i] } else { hi }, vals.skip(i + 1)),
{
    assert(vals.skip(i).skip(1) =~= vals.skip(i + 1));
}

/// Widens the box to hold every point.
fn widen_box(points: &Vec<GlyphPoint>, xmin: i16, ymin: i16, xmax: i16, ymax: i16) -> (r: (i16, i16, i16, i16))
    requires
        xmin <= xmax,
        ymin <= ymax,
    ensures
        r.0 == min_of(xmin as int, points@.map_values(|p: GlyphPoint| p.x as int)),
        r.1 == min_of(ymin as int, points@.map_values(|p: GlyphPoint| p.y as int)),
        r.2 == max_of(xmax as int, points@.map_values(|p: GlyphPoint| p.x as int)),
        r.3 == max_of(ymax as int, points@.map_values(|p: GlyphPoint| p.y as int)),
{
    let ghost xs = points@.map_values(|p: GlyphPoint| p.x as int);
    let ghost ys = points@.map_values(|p: GlyphPoint| p.y as int);
    let mut x0 = xmin;
    let mut y0 = ymin;
    let mut x1 = xmax;
    let mut y1 = ymax;
    let mut i: usize = 0;
    assert(xs.skip(0) =~= xs);
    assert(ys.skip(0) =~= ys);
    while i < points.len()
        invariant
            xs == points@.map_values(|p: GlyphPoint| p.x as int),
            ys == points@.map_values(|p: GlyphPoint| p.y as int),
            i <= points@.len(),
            x0 <= x1,
            y0 <= y1,
            min_of(xmin as int, xs) == min_of(x0 as int, xs.skip(i as int)),
            max_of(xmax as int, xs) == max_of(x1 as int, xs.skip(i as int)),
            min_of(ymin as int, ys) == min_of(y0 as int, ys.skip(i as int)),
            max_of(ymax as int, ys) == max_of(y1 as int, ys.skip(i as int)),
        decreases points@.len() - i,
    {
        proof {
            lemma_min_max_step(x0 as int, x1 as int, xs, i as int);
            lemma_min_max_step(y0 as int, y1 as int, ys, i as int);
        }
        let x = points[i].x;
        if x < x0 {
            x0 = x;
        } else if x > x1 {
            x1 = x;
        }
        let y = points[i].y;
        if y < y0 {
            y0 = y;
        } else if y > y1 {
            y1 = y;
        }
        i += 1;
    }
    assert(xs.skip(i as int) =~= Seq::<int>::empty());
    assert(ys.skip(i as int) =~= Seq::<int>::empty());
    (x0, y0, x1, y1)
}

/// The record of an empty glyph.
pub open spec fn record_empty(g: GlyphRecord, index: int) -> bool {
    &&& g.num_contours == 0
    &&& g.xmin == 0 && g.ymin == 0 && g.xmax == 0 && g.ymax == 0
    &&& g.metrics == index
    &&& g.outline matches GlyphOutline::Simple(ps) && ps@.len() == 0
}

/// The points of a simple glyph record: those of the glyph at `o`.
pub open spec fn simple_outline(b: Seq<u8>, o: int, nc: int, outline: GlyphOutline) -> bool {
    outline matches GlyphOutline::Simple(ps) && ps@.len() == glyph_flags(b, o, nc).len() && forall|j: int|
        0 <= j < ps@.len() ==> #[trigger] ps@[j] == glyph_point(b, o, nc, j)
}

/// The components of a compound glyph record: those from `pos`.
pub open spec fn compound_outline(b: Seq<u8>, pos: int, outline: GlyphOutline) -> bool {
    outline matches GlyphOutline::Compound(cs, e) && cs@ == components_from(b, pos).0 && e == components_from(b, pos).1
}

/// The record of the glyph at `o`, whose declared box is in order: a glyph without contours
/// keeps its box and has no points; a simple glyph has its points and a box widened to hold
/// them; a compound glyph keeps its box and has its components.
pub open spec fn record_at(b: Seq<u8>, o: int, index: int, g: GlyphRecord) -> bool {
    let nc = sbe16(b, o);
    let bx = declared_box(b, o);
    &&& g.num_contours == nc
    &&& g.metrics == (if nc < 0 { components_metrics(b, o + 10, index) } else { index })
    &&& nc <= 0 ==> (g.xmin == bx.0 && g.ymin == bx.1 && g.xmax == bx.2 && g.ymax == bx.3)
    &&& nc == 0 ==> (g.outline matches GlyphOutline::Simple(ps) && ps@.len() == 0)
    &&& nc > 0 ==> simple_outline(b, o, nc, g.outline)
    &&& nc > 0 ==> g.xmin == min_of(bx.0, glyph_xs(b, o, nc)) && g.ymin == min_of(bx.1, glyph_ys(b, o, nc))
        && g.xmax == max_of(bx.2, glyph_xs(b, o, nc)) && g.ymax == max_of(bx.3, glyph_ys(b, o, nc))
    &&& nc < 0 ==> compound_outline(b, o + 10, g.outline)
}

/// Reads the glyph record of glyph `index`. An empty location gives an empty glyph; a box whose
/// minimum exceeds its maximum is an error.
pub fn parse_glyph_record(glyf: &[u8], locations: &[GlyphLocation], index: usize) -> (r: FontResult<GlyphRecord>)
    requires
        index < locations@.len(),
        glyph_readable(glyf@, locations@[index as int]),
    ensures
        ({
            let b = glyf@;
            let loc = locations@[index as int];
            let o = loc.offset as int;
            let nc = sbe16(b, o);
            let bx = declared_box(b, o);
            &&& loc.length == 0 ==> (r matches Ok(g) && record_empty(g, index as int))
            &&& loc.length != 0 && !(bx.0 <= bx.2 && bx.1 <= bx.3) ==> r == Err::<GlyphRecord, &'static str>(
                "Font.glyf: Bad glyph bounding box values (xmin > xmax || ymin > ymax)",
            )
            &&& loc.length != 0 && bx.0 <= bx.2 && bx.1 <= bx.3 ==> (r matches Ok(g) && record_at(b, o, index as int, g))
        }),
{
    let loc = locations[index];
    if loc.length == 0 {
        return Ok(GlyphRecord {
            num_contours: 0,
            xmin: 0,
            ymin: 0,
            xmax: 0,
            ymax: 0,
            metrics: index,
            outline: GlyphOutline::Simple(Vec::new()),
        });
    }
    let ghost b = glyf@;
    let ghost o = loc.offset as int;
    let mut stream = Stream::new(glyf);
    stream.seek(loc.offset);
    let num_contours = stream.read_i16();
    let mut xmin = stream.read_i16();
    let mut ymin = stream.read_i16();
    let mut xmax = stream.read_i16();
    let mut ymax = stream.read_i16();
    if xmin == 32767 && xmax == -32767 && ymin == 32767 && ymax == -32767 {
        xmin = 0;
        ymin = 0;
        xmax = 0;
        ymax = 0;
    }
    if xmin > xmax || ymin > ymax {
        return Err("Font.glyf: Bad glyph bounding box values (xmin > xmax || ymin > ymax)");
    }
    if num_contours == 0 {
        Ok(GlyphRecord { num_contours, xmin, ymin, xmax, ymax, metrics: index, outline: GlyphOutline::Simple(Vec::new()) })
    } else if num_contours > 0 {
        let ghost nc = num_contours as int;
        let count = num_contours as usize;
        let mut end_points_of_contours: Vec<u16> = Vec::with_capacity(count);
        let mut k: usize = 0;
        while k < count
            invariant
                stream.bytes@ == b,
                count == nc,
                0 < nc,
                0 <= o,
                simple_readable(b, o, nc),
                k <= count,
                stream.offset == o + 10 + 2 * k,
                end_points_of_contours@.len() == k,
                forall|m: int| 0 <= m < k ==> #[trigger] end_points_of_contours@[m] == contour_end(b, o, m),
            decreases count - k,
        {
            end_points_of_contours.push(stream.read_u16());
            k += 1;
        }
        let num_points = end_points_of_contours[count - 1] as usize + 1;
        proof {
            assert(b.len() == glyf.len());
            lemma_flags_run_step(b, flags_start(b, o, nc), point_count(b, o, nc) as nat);
        }
        let instruction_length = stream.read_u16();
        stream.skip(instruction_length as usize);
        let mut points = read_flags(&mut stream, num_points);
        proof {
            assert(point_flags(points@) =~= glyph_flags(b, o, nc));
        }
        read_coords(&mut stream, &mut points, SimpleFlags::X_SHORT, SimpleFlags::X_DUAL, true);
        proof {
            assert(point_flags(points@) =~= glyph_flags(b, o, nc));
            assert(stream.offset == ys_start(b, o, nc));
        }
        read_coords(&mut stream, &mut points, SimpleFlags::Y_SHORT, SimpleFlags::Y_DUAL, false);
        proof {
            lemma_flags_run_len(b, flags_start(b, o, nc), num_points as nat);
        }
        mark_contours(&mut points, &end_points_of_contours, num_points);
        let bx = widen_box(&points, xmin, ymin, xmax, ymax);
        proof {
            assert forall|j: int| 0 <= j < points@.len() implies #[trigger] points@[j] == glyph_point(b, o, nc, j) by {
                let g = glyph_point(b, o, nc, j);
                if g.end_point {
                    let m = choose|m: int| 0 <= m < nc && #[trigger] contour_end(b, o, m) == j;
                    assert(end_points_of_contours@[m] == j);
                }
                if points@[j].end_point {
                    let m = choose|m: int| 0 <= m < end_points_of_contours@.len() && end_points_of_contours@[m] == j;
                    assert(contour_end(b, o, m) == j);
                }
                if g.start_point {
                    let m = choose|m: int| 0 <= m < nc && (#[trigger] contour_end(b, o, m) + 1) % point_count(b, o, nc) == j;
                    assert(end_points_of_contours@[m] == contour_end(b, o, m));
                }
                if points@[j].start_point {
                    let m = choose|m: int| 0 <= m < end_points_of_contours@.len() && (end_points_of_contours@[m] + 1) % (num_points as int) == j;
                    assert(contour_end(b, o, m) == end_points_of_contours@[m]);
                }
            }
            let xrun = flags_run(b, flags_start(b, o, nc), point_count(b, o, nc) as nat).unwrap().1;
            lemma_coord_run_range(b, glyph_flags(b, o, nc), xrun, 0, 2, 16);
            lemma_coord_run_range(b, glyph_flags(b, o, nc), ys_start(b, o, nc), 0, 4, 32);
            lemma_coord_run_len(b, glyph_flags(b, o, nc), xrun, 0, 2, 16);
            lemma_coord_run_len(b, glyph_flags(b, o, nc), ys_start(b, o, nc), 0, 4, 32);
            assert(points@.map_values(|p: GlyphPoint| p.x as int) =~= glyph_xs(b, o, nc));
            assert(points@.map_values(|p: GlyphPoint| p.y as int) =~= glyph_ys(b, o, nc));
        }
        Ok(GlyphRecord {
            num_contours,
            xmin: bx.0,
            ymin: bx.1,
            xmax: bx.2,
            ymax: bx.3,
            metrics: index,
            outline: GlyphOutline::Simple(points),
        })
    } else {
        let (components, error, metrics) = read_components(&mut stream, index);
        Ok(GlyphRecord { num_contours, xmin, ymin, xmax, ymax, metrics, outline: GlyphOutline::Compound(components, error) })
    }
}

/// The glyph records of the `glyf` table, one per location.
pub struct TableGlyf {
    /// Indexed by glyph id.
    pub glyphs: Vec<GlyphRecord>,
}

/// The error reading glyph record `index` gives, if any: a box out of order, or a component that
/// cannot be read.
pub open spec fn record_error(b: Seq<u8>, loc: GlyphLocation) -> Option<&'static str> {
    let o = loc.offset as int;
    let bx = declared_box(b, o);
    if loc.length == 0 {
        None
    } else if !(bx.0 <= bx.2 && bx.1 <= bx.3) {
        Some("Font.glyf: Bad glyph bounding box values (xmin > xmax || ymin > ymax)")
    } else if sbe16(b, o) < 0 {
        components_from(b, o + 10).1
    } else {
        None
    }
}

/// Record `g` is the record of glyph `index` at `loc`.
pub open spec fn record_of(b: Seq<u8>, loc: GlyphLocation, index: int, g: GlyphRecord) -> bool {
    if loc.length == 0 { record_empty(g, index) } else { record_at(b, loc.offset as int, index, g) }
}

/// The smallest of `lo` and the values is at most `lo` and each value; the largest of `hi` and
/// the values is at least `hi` and each value.
pub proof fn lemma_min_max_bounds(lo: int, hi: int, vals: Seq<int>)
    ensures
        min_of(lo, vals) <= lo,
        max_of(hi, vals) >= hi,
        forall|j: int| 0 <= j < vals.len() ==> min_of(lo, vals) <= #[trigger] vals[j] <= max_of(hi, vals),
    decreases vals.len(),
{
    if vals.len() > 0 {
        let lo2 = if vals[0] < lo { vals[0] } else { lo };
        let hi2 = if vals[0] > hi { vals[0] } else { hi };
        lemma_min_max_bounds(lo2, hi2, vals.skip(1));
        assert forall|j: int| 0 <= j < vals.len() implies min_of(lo, vals) <= #[trigger] vals[j] <= max_of(hi, vals) by {
            if j > 0 {
                assert(vals[j] == vals.skip(1)[j - 1]);
            }
        }
    }
}

/// The box of a glyph record that reads without error holds every point of its outline: a simple
/// glyph's box is widened to each of its points.
pub proof fn lemma_box_holds_points(b: Seq<u8>, loc: GlyphLocation, index: int, g: GlyphRecord)
    requires
        glyph_readable(b, loc),
        record_error(b, loc) is None,
        record_of(b, loc, index, g),
    ensures
        g.outline matches GlyphOutline::Simple(ps) ==> forall|j: int| 0 <= j < ps@.len() ==> {
            &&& g.xmin <= (#[trigger] ps@[j]).x <= g.xmax
            &&& g.ymin <= ps@[j].y <= g.ymax
        },
{
    let o = loc.offset as int;
    let nc = sbe16(b, o);
    if loc.length != 0 && nc > 0 {
        let bx = declared_box(b, o);
        let flags = glyph_flags(b, o, nc);
        let xs_pos = flags_run(b, flags_start(b, o, nc), point_count(b, o, nc) as nat).unwrap().1;
        lemma_coord_run_len(b, flags, xs_pos, 0, 2, 16);
        lemma_coord_run_range(b, flags, xs_pos, 0, 2, 16);
        lemma_coord_run_len(b, flags, ys_start(b, o, nc), 0, 4, 32);
        lemma_coord_run_range(b, flags, ys_start(b, o, nc), 0, 4, 32);
        let xs = glyph_xs(b, o, nc);
        let ys = glyph_ys(b, o, nc);
        lemma_min_max_bounds(bx.0, bx.2, xs);
        lemma_min_max_bounds(bx.1, bx.3, ys);
        if let GlyphOutline::Simple(ps) = g.outline {
            assert forall|j: int| 0 <= j < ps@.len() implies {
                &&& g.xmin <= (#[trigger] ps@[j]).x <= g.xmax
                &&& g.ymin <= ps@[j].y <= g.ymax
            } by {
                assert(ps@[j] == glyph_point(b, o, nc, j));
                assert(xs[j] == xs[j] as i16);
                assert(ys[j] == ys[j] as i16);
            }
        }
    }
}

/// The first error reading glyph `i` gives, as reading it with its components does: a box out of
/// order, then for each component in turn the errors of the glyph it places and then, after the
/// components that can be read, the error of the first one that cannot. Component glyphs are
/// followed `fuel` levels deep; a component naming no glyph places nothing.
pub open spec fn glyph_deep_error(b: Seq<u8>, locs: Seq<GlyphLocation>, i: int, fuel: nat) -> Option<&'static str>
    decreases fuel, 0int,
{
    if fuel == 0 || i < 0 || i >= locs.len() {
        None
    } else {
        let loc = locs[i];
        let o = loc.offset as int;
        let bx = declared_box(b, o);
        if loc.length == 0 {
            None
        } else if !(bx.0 <= bx.2 && bx.1 <= bx.3) {
            Some("Font.glyf: Bad glyph bounding box values (xmin > xmax || ymin > ymax)")
        } else if sbe16(b, o) < 0 {
            let cs = components_from(b, o + 10);
            components_deep_error(b, locs, cs.0, cs.1, 0, (fuel - 1) as nat)
        } else {
            None
        }
    }
}

/// The first error of the components from the `k`-th on: the errors of each one's glyph in turn,
/// then `last`, the error of the first component that cannot be read.
pub open spec fn components_deep_error(
    b: Seq<u8>,
    locs: Seq<GlyphLocation>,
    comps: Seq<Component>,
    last: Option<&'static str>,
    k: int,
    fuel: nat,
) -> Option<&'static str>
    decreases fuel, comps.len() - k,
{
    if k < 0 || k >= comps.len() {
        last
    } else {
        match glyph_deep_error(b, locs, comps[k].glyph_index as int, fuel) {
            Some(e) => Some(e),
            None => components_deep_error(b, locs, comps, last, k + 1, fuel),
        }
    }
}

/// The error reading glyph `i` of the table gives, following component glyphs as deep as there
/// are glyphs (a deeper chain of components repeats a glyph).
pub open spec fn glyph_error(b: Seq<u8>, locs: Seq<GlyphLocation>, i: int) -> Option<&'static str> {
    glyph_deep_error(b, locs, i, locs.len())
}

/// Without an error from the components' glyphs, the components' own error is the one left.
proof fn lemma_components_last(
    b: Seq<u8>,
    locs: Seq<GlyphLocation>,
    comps: Seq<Component>,
    last: Option<&'static str>,
    k: int,
    fuel: nat,
)
    requires
        0 <= k,
        components_deep_error(b, locs, comps, last, k, fuel) is None,
    ensures
        last is None,
    decreases comps.len() - k,
{
    if k < comps.len() {
        lemma_components_last(b, locs, comps, last, k + 1, fuel);
    }
}

/// Finds the first error reading glyph `i` with its components gives, `fuel` levels deep.
fn deep_error(glyf: &[u8], locations: &[GlyphLocation], i: usize, fuel: usize) -> (r: Option<&'static str>)
    requires
        forall|k: int| 0 <= k < locations@.len() ==> glyph_readable(glyf@, #[trigger] locations@[k]),
    ensures
        r == glyph_deep_error(glyf@, locations@, i as int, fuel as nat),
    decreases fuel,
{
    if fuel == 0 || i >= locations.len() {
        return None;
    }
    let glyph = match parse_glyph_record(glyf, locations, i) {
        Ok(g) => g,
        Err(e) => return Some(e),
    };
    match glyph.outline {
        GlyphOutline::Compound(components, last) => {
            let ghost comps = components@;
            let mut k: usize = 0;
            while k < components.len()
                invariant
                    forall|j: int| 0 <= j < locations@.len() ==> glyph_readable(glyf@, #[trigger] locations@[j]),
                    0 < fuel,
                    comps == components@,
                    k <= comps.len(),
                    glyph_deep_error(glyf@, locations@, i as int, fuel as nat)
                        == components_deep_error(glyf@, locations@, comps, last, k as int, (fuel - 1) as nat),
                decreases comps.len() - k,
            {
                let index = components[k].glyph_index as usize;
                if let Some(e) = deep_error(glyf, locations, index, fuel - 1) {
                    return Some(e);
                }
                k = k + 1;
            }
            last
        },
        GlyphOutline::Simple(_) => None,
    }
}

impl TableGlyf {
    /// Reads the record of every glyph; the first glyph whose reading gives an error makes the
    /// table an error, with the first error reading it with its components gives.
    pub fn new(glyf: &[u8], locations: &[GlyphLocation]) -> (r: FontResult<TableGlyf>)
        requires
            forall|i: int| 0 <= i < locations@.len() ==> glyph_readable(glyf@, #[trigger] locations@[i]),
        ensures
            r is Ok <==> forall|i: int| 0 <= i < locations@.len() ==> #[trigger] glyph_error(glyf@, locations@, i) is None,
            r matches Err(e) ==> exists|i: int| 0 <= i < locations@.len() && Some(e) == #[trigger] glyph_error(glyf@, locations@, i)
                && forall|j: int| 0 <= j < i ==> #[trigger] glyph_error(glyf@, locations@, j) is None,
            r matches Ok(t) ==> t.glyphs@.len() == locations@.len() && forall|i: int| 0 <= i < locations@.len() ==> record_of(
                glyf@,
                locations@[i],
                i,
                #[trigger] t.glyphs@[i],
            ),
    {
        let mut glyphs: Vec<GlyphRecord> = Vec::with_capacity(locations.len());
        let n = locations.len();
        let mut i: usize = 0;
        while i < n
            invariant
                n == locations@.len(),
                forall|k: int| 0 <= k < locations@.len() ==> glyph_readable(glyf@, #[trigger] locations@[k]),
                i <= n,
                glyphs@.len() == i,
                forall|k: int| 0 <= k < i ==> #[trigger] glyph_error(glyf@, locations@, k) is None,
                forall|k: int| 0 <= k < i ==> record_of(glyf@, locations@[k], k, #[trigger] glyphs@[k]),
            decreases n - i,
        {
            if let Some(e) = deep_error(glyf, locations, i, n) {
                assert(Some(e) == glyph_error(glyf@, locations@, i as int));
                return Err(e);
            }
            assert(glyph_error(glyf@, locations@, i as int) is None);
            let glyph = match parse_glyph_record(glyf, locations, i) {
                Ok(g) => g,
                Err(e) => {
                    return Err(e);
                },
            };
            proof {
                let loc = locations@[i as int];
                let o = loc.offset as int;
                if loc.length != 0 && sbe16(glyf@, o) < 0 {
                    let cs = components_from(glyf@, o + 10);
                    lemma_components_last(glyf@, locations@, cs.0, cs.1, 0, (n - 1) as nat);
                }
            }
            glyphs.push(glyph);
            i += 1;
        }
        Ok(TableGlyf { glyphs })
    }
}

} // verus!
