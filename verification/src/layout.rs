//! Options for laying out strings of text, and the bookkeeping of which glyphs fall on which
//! line. Positions and sizes, which are floating point pixels, are not part of this crate.
use crate::unicode::LinebreakData;
use vstd::prelude::*;

verus! {

/// Horizontal alignment options for text when a max_width is provided.
#[derive(Copy, Clone, PartialEq)]
pub enum HorizontalAlign {
    /// Aligns text to the left of the region defined by the max_width.
    Left,
    /// Aligns text to the center of the region defined by the max_width.
    Center,
    /// Aligns text to the right of the region defined by the max_width.
    Right,
}

/// Vertical alignment options for text when a max_height is provided.
#[derive(Copy, Clone, PartialEq)]
pub enum VerticalAlign {
    /// Aligns text to the top of the region defined by the max_height.
    Top,
    /// Aligns text to the middle of the region defined by the max_height.
    Middle,
    /// Aligns text to the bottom of the region defined by the max_height.
    Bottom,
}

/// Wrap style is a hint for how strings of text should be wrapped to the next line. Line wrapping
/// can happen when the max width/height is reached.
#[derive(Copy, Clone, PartialEq)]
pub enum WrapStyle {
    /// Word will break lines by the Unicode line breaking algorithm (Standard Annex #14) This will
    /// generally break lines where you expect them to be broken at and will preserve words.
    Word,
    /// Letter will not preserve words, breaking into a new line after the nearest letter.
    Letter,
}

/// The direction that the Y coordinate increases in. Layout needs to be aware of your coordinate
/// system to place the glyphs correctly.
#[derive(Copy, Clone, PartialEq)]
pub enum CoordinateSystem {
    /// The Y coordinate increases up relative to the window or image. The higher up on the window,
    /// the more positive Y becomes.
    PositiveYUp,
    /// The Y coordinate increases down relative to the window or image. The lower down on the
    /// window, the more positive Y becomes.
    PositiveYDown,
}

/// The glyphs of a line: from `glyph_start` to `glyph_end`, both included, in the list of laid
/// out glyphs.
#[derive(Copy, Clone, Debug, PartialEq, Eq, Structural)]
pub struct LineRange {
    pub glyph_start: usize,
    pub glyph_end: usize,
}

/// What laying out one character did to the lines.
#[derive(Copy, Clone, Debug, PartialEq, Eq, Structural)]
pub struct LineStep {
    /// The character's linebreak became the best one of the line so far: the line would now end
    /// at the glyph before it.
    pub candidate_moved: bool,
    /// The line ended before the character; the new line starts at glyph `line_end + 1`.
    pub broke: bool,
    /// The last glyph of the line that ended, when one did.
    pub line_end: usize,
}

/// The lines are a partition of the first `n` glyphs, in order: the first line starts at glyph 0,
/// no line ends before the glyph before its start (a line may be empty), each further line
/// starts right after the line before, and the last line ends at glyph `n - 1`.
pub open spec fn lines_partition(lines: Seq<LineRange>, n: int) -> bool {
    &&& lines.len() >= 1
    &&& lines[0].glyph_start == 0
    &&& forall|k: int| 0 <= k < lines.len() ==> #[trigger] lines[k].glyph_start <= lines[k].glyph_end + 1
    &&& forall|k: int| 0 <= k < lines.len() - 1 ==> #[trigger] lines[k + 1].glyph_start == lines[k].glyph_end + 1
    &&& lines[lines.len() - 1].glyph_end == n - 1
}

/// The glyphs, in order, that walking the lines from line `k` on visits when it is at glyph
/// `idx`: every glyph up to the line's end, then on to the next line.
pub open spec fn glyph_walk(lines: Seq<LineRange>, k: int, idx: int) -> Seq<int>
    decreases lines.len() - k,
{
    if k < 0 || k >= lines.len() {
        Seq::empty()
    } else {
        let end = lines[k].glyph_end as int;
        let next = if idx <= end { end + 1 } else { idx };
        Seq::new((next - idx) as nat, |i: int| idx + i) + glyph_walk(lines, k + 1, next)
    }
}

/// The glyph indices from `from` up to, not including, `to`.
pub open spec fn glyph_range(from: int, to: int) -> Seq<int> {
    Seq::new((to - from) as nat, |i: int| from + i)
}

proof fn lemma_walk(lines: Seq<LineRange>, n: int, k: int)
    requires
        lines_partition(lines, n),
        0 <= k < lines.len(),
    ensures
        glyph_walk(lines, k, lines[k].glyph_start as int) == glyph_range(lines[k].glyph_start as int, n),
    decreases lines.len() - k,
{
    let start = lines[k].glyph_start as int;
    let end = lines[k].glyph_end as int;
    assert(start <= end + 1);
    if k + 1 < lines.len() {
        lemma_walk(lines, n, k + 1);
        assert(lines[k + 1].glyph_start == end + 1);
        lemma_starts_below(lines, n, k + 1);
        assert(glyph_range(start, end + 1) + glyph_range(end + 1, n) =~= glyph_range(start, n));
        assert(glyph_walk(lines, k, start) == glyph_range(start, end + 1) + glyph_walk(lines, k + 1, end + 1));
    } else {
        assert(glyph_walk(lines, k + 1, end + 1) =~= Seq::<int>::empty());
        assert(glyph_walk(lines, k, start) =~= glyph_range(start, n));
    }
}

proof fn lemma_starts_below(lines: Seq<LineRange>, n: int, k: int)
    requires
        lines_partition(lines, n),
        0 <= k < lines.len(),
    ensures
        lines[k].glyph_start <= n,
    decreases lines.len() - k,
{
    assert(lines[k].glyph_start <= lines[k].glyph_end + 1);
    if k + 1 < lines.len() {
        lemma_starts_below(lines, n, k + 1);
        assert(lines[k + 1].glyph_start == lines[k].glyph_end + 1);
    }
}

/// Laying out never reorders nor drops glyphs: when the lines partition the glyphs, walking the
/// lines in order visits every glyph exactly once, in the order it was laid out.
pub proof fn lemma_lines_keep_order(lines: Seq<LineRange>, n: int)
    requires
        lines_partition(lines, n),
    ensures
        glyph_walk(lines, 0, 0) == glyph_range(0, n),
{
    lemma_walk(lines, n, 0);
}

/// The line bookkeeping of text layout: how many glyphs were laid out, the lines they fall on,
/// and the best linebreak seen on the current line, at which it would end (hard breaks beat soft
/// ones, which beat none; of equal ones the latest wins).
pub struct LineBreaks {
    glyph_count: usize,
    lines: Vec<LineRange>,
    linebreak_prev: LinebreakData,
    linebreak_idx: usize,
}

impl LineBreaks {
    /// No ended line ends before the glyph before its start and the lines follow each other; the
    /// current line starts at most one past the last glyph, and its best linebreak, at which it
    /// would end, is at most one glyph before its start.
    pub closed spec fn wf(&self) -> bool {
        &&& self.lines@.len() >= 1
        &&& self.lines@[0].glyph_start == 0
        &&& forall|k: int| 0 <= k < self.lines@.len() - 1 ==> #[trigger] self.lines@[k].glyph_start <= self.lines@[k].glyph_end + 1
        &&& forall|k: int| 0 <= k < self.lines@.len() - 1 ==> #[trigger] self.lines@[k + 1].glyph_start == self.lines@[k].glyph_end + 1
        &&& self.lines@.last().glyph_start <= self.glyph_count
        &&& self.lines@.last().glyph_start <= self.linebreak_idx + 1
        &&& self.linebreak_idx <= self.glyph_count
        &&& self.linebreak_prev.bits() <= 2
    }

    /// The number of glyphs laid out.
    pub closed spec fn count(&self) -> nat {
        self.glyph_count as nat
    }

    /// The lines, in order.
    pub closed spec fn lines_view(&self) -> Seq<LineRange> {
        self.lines@
    }

    /// The best linebreak seen on the current line.
    pub closed spec fn best_linebreak(&self) -> LinebreakData {
        self.linebreak_prev
    }

    /// The glyph the current line would end at, at its best linebreak.
    pub closed spec fn best_end(&self) -> usize {
        self.linebreak_idx
    }

    /// No glyph, one line starting at glyph 0.
    pub fn new() -> (r: LineBreaks)
        ensures
            r.wf(),
            r.count() == 0,
            r.lines_view() == seq![LineRange { glyph_start: 0, glyph_end: 0 }],
            r.best_linebreak().bits() == 0,
            r.best_end() == 0,
    {
        LineBreaks {
            glyph_count: 0,
            lines: vec![LineRange { glyph_start: 0, glyph_end: 0 }],
            linebreak_prev: LinebreakData::none(),
            linebreak_idx: 0,
        }
    }

    /// Forgets every glyph and line.
    pub fn clear(&mut self)
        ensures
            final(self).wf(),
            final(self).count() == 0,
            final(self).lines_view() == seq![LineRange { glyph_start: 0, glyph_end: 0 }],
            final(self).best_linebreak().bits() == 0,
            final(self).best_end() == 0,
    {
        *self = LineBreaks::new();
    }

    /// The number of glyphs laid out.
    pub fn glyph_count(&self) -> (r: usize)
        ensures
            r == self.count(),
    {
        self.glyph_count
    }

    /// Lays out one more character, whose linebreak (already masked by the wrap settings) is
    /// `linebreak`, and whose glyph would not fit on the line (`overflow`). The character's
    /// linebreak becomes the line's best one when it is at least as good; the line then ends when
    /// the linebreak is hard or the glyph overflows, at the best linebreak: after the glyph
    /// before it. The character's glyph is then added.
    pub fn step(&mut self, linebreak: LinebreakData, overflow: bool) -> (r: LineStep)
        requires
            old(self).wf(),
            old(self).count() < usize::MAX,
            linebreak.bits() <= 2,
        ensures
            final(self).wf(),
            final(self).count() == old(self).count() + 1,
            r.candidate_moved == (linebreak.bits() >= old(self).best_linebreak().bits()),
            r.broke == (linebreak.bits() == 2 || overflow),
            final(self).best_linebreak().bits() == (if r.broke {
                0u8
            } else if r.candidate_moved {
                linebreak.bits()
            } else {
                old(self).best_linebreak().bits()
            }),
            final(self).best_end() == (if r.candidate_moved {
                if old(self).count() == 0 { 0 } else { old(self).count() - 1 }
            } else {
                old(self).best_end() as int
            }),
            !r.broke ==> final(self).lines_view() == old(self).lines_view(),
            r.broke ==> {
                &&& final(self).lines_view() == old(self).lines_view().update(
                    old(self).lines_view().len() - 1,
                    LineRange { glyph_start: old(self).lines_view().last().glyph_start, glyph_end: r.line_end },
                ).push(LineRange { glyph_start: (r.line_end + 1) as usize, glyph_end: 0 })
                &&& r.line_end == (if r.candidate_moved {
                    if old(self).count() == 0 { 0 } else { old(self).count() - 1 }
                } else {
                    old(self).best_end() as int
                })
            },
    {
        let moved = linebreak.priority() >= self.linebreak_prev.priority();
        if moved {
            self.linebreak_prev = linebreak;
            self.linebreak_idx = if self.glyph_count == 0 { 0 } else { self.glyph_count - 1 };
        }
        let broke = linebreak.is_hard() || overflow;
        let mut line_end: usize = 0;
        if broke {
            self.linebreak_prev = LinebreakData::none();
            let end = self.linebreak_idx;
            let last = self.lines.len() - 1;
            let start_of_last = self.lines[last].glyph_start;
            self.lines.set(last, LineRange { glyph_start: start_of_last, glyph_end: end });
            self.lines.push(LineRange { glyph_start: end + 1, glyph_end: 0 });
            line_end = end;
        }
        self.glyph_count = self.glyph_count + 1;
        LineStep { candidate_moved: moved, broke, line_end }
    }

    /// Ends a run of text: the last line ends at the last glyph. With at least one glyph laid
    /// out, the lines then partition the glyphs.
    pub fn end_text(&mut self) -> (r: usize)
        requires
            old(self).wf(),
        ensures
            final(self).wf(),
            final(self).count() == old(self).count(),
            final(self).best_linebreak() == old(self).best_linebreak(),
            final(self).best_end() == old(self).best_end(),
            r == (if old(self).count() == 0 { 0 } else { old(self).count() - 1 }),
            final(self).lines_view() == old(self).lines_view().update(
                old(self).lines_view().len() - 1,
                LineRange { glyph_start: old(self).lines_view().last().glyph_start, glyph_end: r },
            ),
            old(self).count() > 0 ==> lines_partition(final(self).lines_view(), final(self).count() as int),
    {
        let end = if self.glyph_count == 0 { 0 } else { self.glyph_count - 1 };
        let last = self.lines.len() - 1;
        let start_of_last = self.lines[last].glyph_start;
        self.lines.set(last, LineRange { glyph_start: start_of_last, glyph_end: end });
        end
    }

    /// The lines, in order.
    pub fn lines(&self) -> (r: &Vec<LineRange>)
        ensures
            r@ == self.lines_view(),
    {
        &self.lines
    }
}

} // verus!
