//! The `GSUB` table, read through ttf-parser: the glyphs that glyph substitutions (ligatures,
//! alternates and the like) can produce, so that their outlines get built too.
use std::collections::HashSet;
use ttf_parser::gsub::{SingleSubstitution, SubstitutionSubtable};
use ttf_parser::opentype_layout::Coverage;
use ttf_parser::Face;
use vstd::prelude::*;

verus! {

broadcast use vstd::std_specs::hash::group_hash_axioms;

/// What a substitution subtable can produce, as plain values.
#[derive(Clone, Debug)]
pub enum Substitution {
    /// A single substitution that adds `delta` to each listed glyph of its coverage.
    Delta { glyphs: Vec<u16>, delta: i16 },
    /// A single substitution that adds `delta` to the glyphs of each range of its coverage; a
    /// range `(start, end)` is read as the glyphs from `start` up to, not including, `end`.
    DeltaRanges { ranges: Vec<(u16, u16)>, delta: i16 },
    /// Substitutions that list their output glyphs, in groups.
    Glyphs(Vec<Vec<u16>>),
}

/// The number of substitution subtables of the face's GSUB table: those that iterating over its
/// lookups, and over each lookup's subtables, yields (each lookup's iteration stops at the first
/// subtable that cannot be read); 0 when the face cannot be parsed or has no GSUB table.
pub uninterp spec fn gsub_subtable_count_of(data: Seq<u8>, index: u32) -> usize;

/// What the `k`-th of those subtables holds when it is a single substitution of format 1 whose
/// coverage lists its glyphs: those glyphs and the delta; `None` otherwise.
pub uninterp spec fn single_delta_glyphs_of(data: Seq<u8>, index: u32, k: usize) -> Option<(Seq<u16>, i16)>;

/// What the `k`-th subtable holds when it is a single substitution of format 1 whose coverage is
/// given as ranges: each range's first and last glyph, and the delta; `None` otherwise.
pub uninterp spec fn single_delta_ranges_of(data: Seq<u8>, index: u32, k: usize) -> Option<(Seq<(u16, u16)>, i16)>;

/// The substitutes the `k`-th subtable lists when it is a single substitution of format 2 or a
/// reverse chaining single substitution; `None` otherwise.
pub uninterp spec fn substitute_glyphs_of(data: Seq<u8>, index: u32, k: usize) -> Option<Seq<u16>>;

/// The groups of output glyphs of the `k`-th subtable when it is a multiple (one group per
/// sequence) or alternate substitution (one per alternate set); no group otherwise.
pub uninterp spec fn substitute_groups_of(data: Seq<u8>, index: u32, k: usize) -> Seq<Seq<u16>>;

/// The groups of output glyphs of the `k`-th subtable when it is a ligature substitution (one
/// group per ligature set, holding each ligature's glyph); `None` otherwise.
pub uninterp spec fn ligature_groups_of(data: Seq<u8>, index: u32, k: usize) -> Option<Seq<Seq<u16>>>;

/// Counts, with ttf-parser, the substitution subtables of the face's GSUB table: the face is
/// parsed with `ttf_parser::Face::parse` and the lookups' subtables iterated as
/// `ttf_parser::opentype_layout::LookupSubtables::into_iter` yields them. The count is a function
/// of the data and the face index.
#[verifier::external_body]
fn gsub_subtable_count(data: &[u8], index: u32) -> (r: usize)
    ensures
        r == gsub_subtable_count_of(data@, index),
{
    match Face::parse(data, index).ok().and_then(|face| face.tables().gsub) {
        Some(gsub) => gsub.lookups.into_iter()
            .flat_map(|lookup| lookup.subtables.into_iter::<SubstitutionSubtable>()).count(),
        None => 0,
    }
}

/// Reads the `k`-th substitution subtable (as `gsub_subtable_count` iterates them) as a
/// `ttf_parser::gsub::SingleSubstitution::Format1` whose coverage is a
/// `ttf_parser::opentype_layout::Coverage::Format1`: its glyphs and delta.
#[verifier::external_body]
fn single_delta_glyphs(data: &[u8], index: u32, k: usize) -> (r: Option<(Vec<u16>, i16)>)
    ensures
        match r {
            Some((g, d)) => single_delta_glyphs_of(data@, index, k) == Some((g@, d)),
            None => single_delta_glyphs_of(data@, index, k) is None,
        },
{
    let gsub = Face::parse(data, index).ok()?.tables().gsub?;
    match gsub.lookups.into_iter().flat_map(|l| l.subtables.into_iter::<SubstitutionSubtable>()).nth(k)? {
        SubstitutionSubtable::Single(SingleSubstitution::Format1 {
            coverage: Coverage::Format1 { glyphs }, delta,
        }) => Some((glyphs.into_iter().map(|g| g.0).collect(), delta)),
        _ => None,
    }
}

/// Reads the `k`-th substitution subtable as a `ttf_parser::gsub::SingleSubstitution::Format1`
/// whose coverage is a `ttf_parser::opentype_layout::Coverage::Format2`: each range's first and
/// last glyph, and the delta.
#[verifier::external_body]
fn single_delta_ranges(data: &[u8], index: u32, k: usize) -> (r: Option<(Vec<(u16, u16)>, i16)>)
    ensures
        match r {
            Some((rs, d)) => single_delta_ranges_of(data@, index, k) == Some((rs@, d)),
            None => single_delta_ranges_of(data@, index, k) is None,
        },
{
    let gsub = Face::parse(data, index).ok()?.tables().gsub?;
    match gsub.lookups.into_iter().flat_map(|l| l.subtables.into_iter::<SubstitutionSubtable>()).nth(k)? {
        SubstitutionSubtable::Single(SingleSubstitution::Format1 {
            coverage: Coverage::Format2 { records }, delta,
        }) => Some((records.into_iter().map(|r| (r.start.0, r.end.0)).collect(), delta)),
        _ => None,
    }
}

/// Reads the substitutes of the `k`-th substitution subtable when it is a
/// `ttf_parser::gsub::SingleSubstitution::Format2` or a `ReverseChainSingleSubstitution`.
#[verifier::external_body]
fn substitute_glyphs(data: &[u8], index: u32, k: usize) -> (r: Option<Vec<u16>>)
    ensures
        match r {
            Some(g) => substitute_glyphs_of(data@, index, k) == Some(g@),
            None => substitute_glyphs_of(data@, index, k) is None,
        },
{
    let gsub = Face::parse(data, index).ok()?.tables().gsub?;
    match gsub.lookups.into_iter().flat_map(|l| l.subtables.into_iter::<SubstitutionSubtable>()).nth(k)? {
        SubstitutionSubtable::Single(SingleSubstitution::Format2 { substitutes, .. }) =>
            Some(substitutes.into_iter().map(|g| g.0).collect()),
        SubstitutionSubtable::ReverseChainSingle(rcs) => Some(rcs.substitutes.into_iter().map(|g| g.0).collect()),
        _ => None,
    }
}

/// Reads the output glyphs of the `k`-th substitution subtable when it is a
/// `ttf_parser::gsub::MultipleSubstitution` (one group per sequence) or an
/// `AlternateSubstitution` (one group per alternate set).
#[verifier::external_body]
fn substitute_groups(data: &[u8], index: u32, k: usize) -> (r: Vec<Vec<u16>>)
    ensures
        r@.map_values(|g: Vec<u16>| g@) == substitute_groups_of(data@, index, k),
{
    let gsub = Face::parse(data, index).ok().and_then(|face| face.tables().gsub);
    match gsub.and_then(|t| t.lookups.into_iter().flat_map(|l| l.subtables.into_iter()).nth(k)) {
        Some(SubstitutionSubtable::Multiple(m)) =>
            m.sequences.into_iter().map(|s| s.substitutes.into_iter().map(|g| g.0).collect()).collect(),
        Some(SubstitutionSubtable::Alternate(a)) =>
            a.alternate_sets.into_iter().map(|s| s.alternates.into_iter().map(|g| g.0).collect()).collect(),
        _ => Vec::new(),
    }
}

/// Reads the output glyphs of the `k`-th substitution subtable when it is a
/// `ttf_parser::gsub::LigatureSubstitution`: one group per ligature set, holding each ligature's
/// glyph.
#[verifier::external_body]
fn ligature_groups(data: &[u8], index: u32, k: usize) -> (r: Option<Vec<Vec<u16>>>)
    ensures
        match r {
            Some(groups) => ligature_groups_of(data@, index, k) == Some(groups@.map_values(|g: Vec<u16>| g@)),
            None => ligature_groups_of(data@, index, k) is None,
        },
{
    let gsub = Face::parse(data, index).ok()?.tables().gsub?;
    match gsub.lookups.into_iter().flat_map(|l| l.subtables.into_iter::<SubstitutionSubtable>()).nth(k)? {
        SubstitutionSubtable::Ligature(l) =>
            Some(l.ligature_sets.into_iter().map(|s| s.into_iter().map(|g| g.glyph.0).collect()).collect()),
        _ => None,
    }
}

/// Which substitution a subtable is, from what the readers of its kinds found in it: a single
/// substitution by delta over listed glyphs first, then one over glyph ranges, then a single
/// substitution that lists its substitutes (as one group), and otherwise the groups of output
/// glyphs.
pub fn pick_substitution(
    delta: Option<(Vec<u16>, i16)>,
    ranges: Option<(Vec<(u16, u16)>, i16)>,
    glyphs: Option<Vec<u16>>,
    groups: Vec<Vec<u16>>,
) -> (r: Substitution)
    ensures
        match delta {
            Some((g, d)) => r == Substitution::Delta { glyphs: g, delta: d },
            None => match ranges {
                Some((rs, d)) => r == Substitution::DeltaRanges { ranges: rs, delta: d },
                None => match glyphs {
                    Some(g) => (r matches Substitution::Glyphs(out) && out@.len() == 1 && out@[0]
                        == g),
                    None => r == Substitution::Glyphs(groups),
                },
            },
        },
{
    if let Some((glyphs, delta)) = delta {
        Substitution::Delta { glyphs, delta }
    } else if let Some((ranges, delta)) = ranges {
        Substitution::DeltaRanges { ranges, delta }
    } else if let Some(glyphs) = glyphs {
        Substitution::Glyphs(vec![glyphs])
    } else {
        Substitution::Glyphs(groups)
    }
}

/// The substitution the `k`-th subtable of the face's GSUB table is, as plain values.
fn convert_substitution(data: &[u8], index: u32, k: usize) -> (r: Substitution)
    ensures
        substitution_glyphs(r) == subtable_glyphs(data@, index, k),
{
    let delta = single_delta_glyphs(data, index, k);
    let ranges = if delta.is_none() { single_delta_ranges(data, index, k) } else { None };
    let glyphs = if delta.is_none() && ranges.is_none() { substitute_glyphs(data, index, k) } else { None };
    let groups = if delta.is_none() && ranges.is_none() && glyphs.is_none() {
        match ligature_groups(data, index, k) {
            Some(groups) => groups,
            None => substitute_groups(data, index, k),
        }
    } else {
        Vec::new()
    };
    let r = pick_substitution(delta, ranges, glyphs, groups);
    proof {
        if r is Glyphs {
            let out = r->Glyphs_0;
            if glyphs is Some {
                assert(grouped_glyphs(out@, 0) =~= Set::<u16>::empty());
            } else {
                lemma_grouped_views(out@, out@.len() as int);
            }
        }
    }
    r
}

/// The substitutions of the face's GSUB table, in order.
pub fn gsub_substitutions(data: &[u8], index: u32) -> (r: Vec<Substitution>)
    ensures
        r@.len() == gsub_subtable_count_of(data@, index),
        forall|k: int| 0 <= k < r@.len() ==> #[trigger] substitution_glyphs(r@[k]) == subtable_glyphs(data@, index, k as usize),
{
    let count = gsub_subtable_count(data, index);
    let mut out: Vec<Substitution> = Vec::new();
    let mut k: usize = 0;
    while k < count
        invariant
            k <= count,
            count == gsub_subtable_count_of(data@, index),
            out@.len() == k,
            forall|j: int| 0 <= j < k ==> #[trigger] substitution_glyphs(out@[j]) == subtable_glyphs(data@, index, j as usize),
        decreases count - k,
    {
        out.push(convert_substitution(data, index, k));
        k = k + 1;
    }
    out
}

// ---- the glyphs substitutions produce ----

/// A glyph moved by a delta, wrapping around at 65536.
pub open spec fn delta_glyph(glyph: int, delta: i16) -> u16 {
    (glyph + delta as int) as u16
}

/// The first `n` listed glyphs, each moved by `delta`.
pub open spec fn moved_glyphs(glyphs: Seq<u16>, delta: i16, n: int) -> Set<u16>
    decreases n,
{
    if n <= 0 {
        Set::empty()
    } else {
        moved_glyphs(glyphs, delta, n - 1).insert(delta_glyph(glyphs[n - 1] as int, delta))
    }
}

/// The glyphs from `start` up to, not including, `end`, each moved by `delta`.
pub open spec fn moved_range(start: int, end: int, delta: i16) -> Set<u16>
    decreases end - start,
{
    if end <= start {
        Set::empty()
    } else {
        moved_range(start, end - 1, delta).insert(delta_glyph(end - 1, delta))
    }
}

/// The glyphs of the first `n` ranges, each moved by `delta`.
pub open spec fn moved_ranges(ranges: Seq<(u16, u16)>, delta: i16, n: int) -> Set<u16>
    decreases n,
{
    if n <= 0 {
        Set::empty()
    } else {
        moved_ranges(ranges, delta, n - 1).union(
            moved_range(ranges[n - 1].0 as int, ranges[n - 1].1 as int, delta),
        )
    }
}

/// The first `n` glyphs of a list.
pub open spec fn listed_glyphs(list: Seq<u16>, n: int) -> Set<u16>
    decreases n,
{
    if n <= 0 {
        Set::empty()
    } else {
        listed_glyphs(list, n - 1).insert(list[n - 1])
    }
}

/// The glyphs of the first `n` groups.
pub open spec fn grouped_glyphs(groups: Seq<Vec<u16>>, n: int) -> Set<u16>
    decreases n,
{
    if n <= 0 {
        Set::empty()
    } else {
        grouped_glyphs(groups, n - 1).union(listed_glyphs(groups[n - 1]@, groups[n - 1]@.len() as int))
    }
}

/// The glyphs a substitution can produce.
pub open spec fn substitution_glyphs(s: Substitution) -> Set<u16> {
    match s {
        Substitution::Delta { glyphs, delta } => moved_glyphs(glyphs@, delta, glyphs@.len() as int),
        Substitution::DeltaRanges { ranges, delta } => moved_ranges(ranges@, delta, ranges@.len() as int),
        Substitution::Glyphs(groups) => grouped_glyphs(groups@, groups@.len() as int),
    }
}

/// The glyphs of the first `n` groups, each group given by its glyphs.
pub open spec fn grouped_seqs(groups: Seq<Seq<u16>>, n: int) -> Set<u16>
    decreases n,
{
    if n <= 0 {
        Set::empty()
    } else {
        grouped_seqs(groups, n - 1).union(listed_glyphs(groups[n - 1], groups[n - 1].len() as int))
    }
}

/// The glyphs of groups held in vectors are those of the groups' contents.
proof fn lemma_grouped_views(groups: Seq<Vec<u16>>, n: int)
    requires
        0 <= n <= groups.len(),
    ensures
        grouped_glyphs(groups, n) == grouped_seqs(groups.map_values(|g: Vec<u16>| g@), n),
    decreases n,
{
    if n > 0 {
        lemma_grouped_views(groups, n - 1);
        assert(groups.map_values(|g: Vec<u16>| g@)[n - 1] == groups[n - 1]@);
    }
}

/// The glyphs the `k`-th substitution subtable of the face's GSUB table can produce, read as
/// `convert_substitution` reads it: a single substitution by delta over listed glyphs, else one
/// over glyph ranges, else listed substitutes, else the groups of a ligature substitution, else
/// those of a multiple or alternate one.
pub open spec fn subtable_glyphs(data: Seq<u8>, index: u32, k: usize) -> Set<u16> {
    match single_delta_glyphs_of(data, index, k) {
        Some((glyphs, delta)) => moved_glyphs(glyphs, delta, glyphs.len() as int),
        None => match single_delta_ranges_of(data, index, k) {
            Some((ranges, delta)) => moved_ranges(ranges, delta, ranges.len() as int),
            None => match substitute_glyphs_of(data, index, k) {
                Some(glyphs) => listed_glyphs(glyphs, glyphs.len() as int),
                None => {
                    let groups = match ligature_groups_of(data, index, k) {
                        Some(groups) => groups,
                        None => substitute_groups_of(data, index, k),
                    };
                    grouped_seqs(groups, groups.len() as int)
                },
            },
        },
    }
}

/// The glyphs the first `n` substitution subtables of the face's GSUB table can produce.
pub open spec fn gsub_glyphs_upto(data: Seq<u8>, index: u32, n: int) -> Set<u16>
    decreases n,
{
    if n <= 0 {
        Set::empty()
    } else {
        gsub_glyphs_upto(data, index, n - 1).union(subtable_glyphs(data, index, (n - 1) as usize))
    }
}

/// The glyphs the substitutions of the face's GSUB table can produce.
pub open spec fn gsub_glyphs_of(data: Seq<u8>, index: u32) -> Set<u16> {
    gsub_glyphs_upto(data, index, gsub_subtable_count_of(data, index) as int)
}

/// The glyphs the first `n` substitutions can produce.
pub open spec fn substitutions_glyphs(subs: Seq<Substitution>, n: int) -> Set<u16>
    decreases n,
{
    if n <= 0 {
        Set::empty()
    } else {
        substitutions_glyphs(subs, n - 1).union(substitution_glyphs(subs[n - 1]))
    }
}

/// Adds the glyphs from `start` up to, not including, `end`, moved by `delta`.
fn insert_moved_range(start: u16, end: u16, delta: i16, set: &mut HashSet<u16>)
    ensures
        final(set)@ == old(set)@.union(moved_range(start as int, end as int, delta)),
{
    let mut id: u16 = start;
    if end <= start {
        assert(old(set)@.union(moved_range(start as int, end as int, delta)) =~= old(set)@);
        return;
    }
    assert(old(set)@.union(moved_range(start as int, start as int, delta)) =~= old(set)@);
    while id < end
        invariant
            start <= id <= end,
            set@ == old(set)@.union(moved_range(start as int, id as int, delta)),
        decreases end - id,
    {
        let moved = (id as i32 + delta as i32) as u16;
        set.insert(moved);
        proof {
            assert(moved == delta_glyph(id as int, delta));
            assert(set@ =~= old(set)@.union(moved_range(start as int, id + 1, delta)));
        }
        id = id + 1;
    }
}

/// Adds the glyphs a substitution can produce.
fn insert_substitution(s: &Substitution, set: &mut HashSet<u16>)
    ensures
        final(set)@ == old(set)@.union(substitution_glyphs(*s)),
{
    match s {
        Substitution::Delta { glyphs, delta } => {
            let mut i: usize = 0;
            assert(old(set)@.union(moved_glyphs(glyphs@, *delta, 0)) =~= old(set)@);
            while i < glyphs.len()
                invariant
                    i <= glyphs@.len(),
                    set@ == old(set)@.union(moved_glyphs(glyphs@, *delta, i as int)),
                decreases glyphs@.len() - i,
            {
                let moved = (glyphs[i] as i32 + *delta as i32) as u16;
                set.insert(moved);
                proof {
                    assert(set@ =~= old(set)@.union(moved_glyphs(glyphs@, *delta, i + 1)));
                }
                i = i + 1;
            }
        },
        Substitution::DeltaRanges { ranges, delta } => {
            let mut i: usize = 0;
            assert(old(set)@.union(moved_ranges(ranges@, *delta, 0)) =~= old(set)@);
            while i < ranges.len()
                invariant
                    i <= ranges@.len(),
                    set@ == old(set)@.union(moved_ranges(ranges@, *delta, i as int)),
                decreases ranges@.len() - i,
            {
                let (start, end) = ranges[i];
                insert_moved_range(start, end, *delta, set);
                proof {
                    assert(set@ =~= old(set)@.union(moved_ranges(ranges@, *delta, i + 1)));
                }
                i = i + 1;
            }
        },
        Substitution::Glyphs(groups) => {
            let mut i: usize = 0;
            assert(old(set)@.union(grouped_glyphs(groups@, 0)) =~= old(set)@);
            while i < groups.len()
                invariant
                    i <= groups@.len(),
                    set@ == old(set)@.union(grouped_glyphs(groups@, i as int)),
                decreases groups@.len() - i,
            {
                let group = &groups[i];
                let ghost before = set@;
                let mut j: usize = 0;
                assert(before.union(listed_glyphs(group@, 0)) =~= before);
                while j < group.len()
                    invariant
                        j <= group@.len(),
                        set@ == before.union(listed_glyphs(group@, j as int)),
                    decreases group@.len() - j,
                {
                    set.insert(group[j]);
                    proof {
                        assert(set@ =~= before.union(listed_glyphs(group@, j + 1)));
                    }
                    j = j + 1;
                }
                proof {
                    assert(set@ =~= old(set)@.union(grouped_glyphs(groups@, i + 1)));
                }
                i = i + 1;
            }
        },
    }
}

/// Adds the glyphs every substitution of the list can produce.
pub fn insert_substitutions(subs: &Vec<Substitution>, set: &mut HashSet<u16>)
    ensures
        final(set)@ == old(set)@.union(substitutions_glyphs(subs@, subs@.len() as int)),
{
    let mut i: usize = 0;
    assert(old(set)@.union(substitutions_glyphs(subs@, 0)) =~= old(set)@);
    while i < subs.len()
        invariant
            i <= subs@.len(),
            set@ == old(set)@.union(substitutions_glyphs(subs@, i as int)),
        decreases subs@.len() - i,
    {
        insert_substitution(&subs[i], set);
        proof {
            assert(set@ =~= old(set)@.union(substitutions_glyphs(subs@, i + 1)));
        }
        i = i + 1;
    }
}

proof fn lemma_listed_contains(list: Seq<u16>, n: int, t: int)
    requires
        0 <= t < n <= list.len(),
    ensures
        listed_glyphs(list, n).contains(list[t]),
    decreases n,
{
    if t < n - 1 {
        lemma_listed_contains(list, n - 1, t);
    }
}

proof fn lemma_grouped_contains(groups: Seq<Seq<u16>>, n: int, j: int, t: int)
    requires
        0 <= j < n <= groups.len(),
        0 <= t < groups[j].len(),
    ensures
        grouped_seqs(groups, n).contains(groups[j][t]),
    decreases n,
{
    if j < n - 1 {
        lemma_grouped_contains(groups, n - 1, j, t);
    } else {
        lemma_listed_contains(groups[j], groups[j].len() as int, t);
    }
}

proof fn lemma_upto_contains(data: Seq<u8>, index: u32, n: int, k: int, g: u16)
    requires
        0 <= k < n,
        subtable_glyphs(data, index, k as usize).contains(g),
    ensures
        gsub_glyphs_upto(data, index, n).contains(g),
    decreases n,
{
    if k < n - 1 {
        lemma_upto_contains(data, index, n - 1, k, g);
    }
}

/// Every glyph of every ligature set of a ligature substitution subtable of the face's GSUB table
/// (one that none of the single substitution readers takes) is among the glyphs the GSUB table
/// produces: the ligature's glyph gets loaded.
pub proof fn lemma_ligature_glyphs_produced(data: Seq<u8>, index: u32, k: usize, j: int, t: int)
    requires
        k < gsub_subtable_count_of(data, index),
        single_delta_glyphs_of(data, index, k) is None,
        single_delta_ranges_of(data, index, k) is None,
        substitute_glyphs_of(data, index, k) is None,
        ligature_groups_of(data, index, k) is Some,
        0 <= j < ligature_groups_of(data, index, k).unwrap().len(),
        0 <= t < ligature_groups_of(data, index, k).unwrap()[j].len(),
    ensures
        gsub_glyphs_of(data, index).contains(ligature_groups_of(data, index, k).unwrap()[j][t]),
{
    let groups = ligature_groups_of(data, index, k).unwrap();
    lemma_grouped_contains(groups, groups.len() as int, j, t);
    lemma_upto_contains(data, index, gsub_subtable_count_of(data, index) as int, k as int, groups[j][t]);
}

/// Every glyph of every group of a multiple or alternate substitution subtable (one that none of
/// the other readers takes) is among the glyphs the GSUB table produces.
pub proof fn lemma_group_glyphs_produced(data: Seq<u8>, index: u32, k: usize, j: int, t: int)
    requires
        k < gsub_subtable_count_of(data, index),
        single_delta_glyphs_of(data, index, k) is None,
        single_delta_ranges_of(data, index, k) is None,
        substitute_glyphs_of(data, index, k) is None,
        ligature_groups_of(data, index, k) is None,
        0 <= j < substitute_groups_of(data, index, k).len(),
        0 <= t < substitute_groups_of(data, index, k)[j].len(),
    ensures
        gsub_glyphs_of(data, index).contains(substitute_groups_of(data, index, k)[j][t]),
{
    let groups = substitute_groups_of(data, index, k);
    lemma_grouped_contains(groups, groups.len() as int, j, t);
    lemma_upto_contains(data, index, gsub_subtable_count_of(data, index) as int, k as int, groups[j][t]);
}

/// Substitutions read one by one from the face's GSUB table produce the glyphs of its subtables.
pub proof fn lemma_gsub_glyphs(subs: Seq<Substitution>, data: Seq<u8>, index: u32, n: int)
    requires
        0 <= n <= subs.len(),
        forall|k: int| 0 <= k < subs.len() ==> #[trigger] substitution_glyphs(subs[k]) == subtable_glyphs(data, index, k as usize),
    ensures
        substitutions_glyphs(subs, n) == gsub_glyphs_upto(data, index, n),
    decreases n,
{
    if n > 0 {
        lemma_gsub_glyphs(subs, data, index, n - 1);
        assert(substitution_glyphs(subs[n - 1]) == subtable_glyphs(data, index, (n - 1) as usize));
    }
}

/// Adds to `indices_to_load` every glyph that a substitution of the GSUB table of the face at
/// `index` of `data` can produce; nothing when the face has no such table.
pub fn load_gsub(data: &[u8], index: u32, indices_to_load: &mut HashSet<u16>)
    ensures
        final(indices_to_load)@ == old(indices_to_load)@.union(gsub_glyphs_of(data@, index)),
{
    let subs = gsub_substitutions(data, index);
    insert_substitutions(&subs, indices_to_load);
    proof {
        lemma_gsub_glyphs(subs@, data@, index, subs@.len() as int);
    }
}

} // verus!
