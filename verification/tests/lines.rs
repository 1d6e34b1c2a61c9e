use fontdue::layout::{LineBreaks, LineRange};
use fontdue::unicode::LinebreakData;

/// The glyphs in the order walking the lines visits them.
fn walk(lines: &[LineRange]) -> Vec<usize> {
    let mut out = Vec::new();
    let mut idx = 0usize;
    for line in lines {
        while idx <= line.glyph_end {
            out.push(idx);
            idx += 1;
        }
    }
    out
}

#[test]
fn a_line_without_breaks_holds_every_glyph() {
    let mut lb = LineBreaks::new();
    for _ in 0..3 {
        let step = lb.step(LinebreakData::none(), false);
        assert!(step.candidate_moved && !step.broke);
    }
    assert_eq!(lb.end_text(), 2);
    assert_eq!(lb.lines(), &vec![LineRange { glyph_start: 0, glyph_end: 2 }]);
    assert_eq!(walk(lb.lines()), vec![0, 1, 2]);
}

#[test]
fn a_hard_break_ends_the_line_before_its_character() {
    let mut lb = LineBreaks::new();
    lb.step(LinebreakData::none(), false);
    lb.step(LinebreakData::none(), false);
    let step = lb.step(LinebreakData::hard(), false);
    assert!(step.candidate_moved && step.broke);
    assert_eq!(step.line_end, 1);
    lb.step(LinebreakData::none(), false);
    assert_eq!(lb.glyph_count(), 4);
    lb.end_text();
    assert_eq!(
        lb.lines(),
        &vec![LineRange { glyph_start: 0, glyph_end: 1 }, LineRange { glyph_start: 2, glyph_end: 3 }]
    );
    assert_eq!(walk(lb.lines()), vec![0, 1, 2, 3]);
}

#[test]
fn an_overflow_breaks_at_the_best_earlier_break() {
    let mut lb = LineBreaks::new();
    // "ab cd": the soft break before 'c' is the best one when 'd' overflows.
    lb.step(LinebreakData::none(), false);
    lb.step(LinebreakData::none(), false);
    lb.step(LinebreakData::none(), false);
    let soft = lb.step(LinebreakData::soft(), false);
    assert!(soft.candidate_moved);
    let over = lb.step(LinebreakData::none(), true);
    assert!(!over.candidate_moved && over.broke);
    assert_eq!(over.line_end, 2);
    lb.end_text();
    assert_eq!(
        lb.lines(),
        &vec![LineRange { glyph_start: 0, glyph_end: 2 }, LineRange { glyph_start: 3, glyph_end: 4 }]
    );
    assert_eq!(walk(lb.lines()), vec![0, 1, 2, 3, 4]);
}

#[test]
fn an_overflowing_first_glyph_keeps_the_order() {
    let mut lb = LineBreaks::new();
    let first = lb.step(LinebreakData::none(), true);
    assert!(first.broke);
    assert_eq!(first.line_end, 0);
    lb.step(LinebreakData::soft(), true);
    lb.end_text();
    let lines = lb.lines().clone();
    assert_eq!(lines.len(), 3);
    assert_eq!(walk(&lines), vec![0, 1]);
}

#[test]
fn clearing_forgets_every_line() {
    let mut lb = LineBreaks::new();
    lb.step(LinebreakData::hard(), false);
    lb.step(LinebreakData::none(), false);
    lb.clear();
    assert_eq!(lb.glyph_count(), 0);
    assert_eq!(lb.lines(), &vec![LineRange { glyph_start: 0, glyph_end: 0 }]);
}

#[test]
fn a_break_forgets_the_best_linebreak_of_the_ended_line() {
    let mut lb = LineBreaks::new();
    lb.step(LinebreakData::none(), false);
    lb.step(LinebreakData::soft(), false);
    let hard = lb.step(LinebreakData::hard(), false);
    assert!(hard.broke);
    assert_eq!(hard.line_end, 1);
    // The new line starts with no best linebreak, so plain characters become its candidates.
    assert!(lb.step(LinebreakData::none(), false).candidate_moved);
    assert!(lb.step(LinebreakData::none(), false).candidate_moved);
    let overflow = lb.step(LinebreakData::none(), true);
    assert!(overflow.broke);
    assert_eq!(overflow.line_end, 4);
    assert_eq!(lb.end_text(), 5);
    assert_eq!(
        lb.lines(),
        &vec![
            LineRange { glyph_start: 0, glyph_end: 1 },
            LineRange { glyph_start: 2, glyph_end: 4 },
            LineRange { glyph_start: 5, glyph_end: 5 },
        ]
    );
}
