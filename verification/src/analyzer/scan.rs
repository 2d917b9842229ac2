//! Matching every line of a text against a list of patterns.

use crate::pattern::captures_in_each;
use crate::pattern::first_match;
use crate::pattern::Groups;
use crate::seqs::lemma_views_push;
use crate::seqs::option_view;
use crate::seqs::views;
use vstd::prelude::*;

verus! {

/// One match: the line and the pattern that met, and the groups captured.
pub struct LineMatch {
    pub line: usize,
    pub pattern: usize,
    pub groups: Groups,
}

/// The view of a `LineMatch`.
pub struct LineMatchView {
    pub line: int,
    pub pattern: int,
    pub groups: Seq<Option<Seq<char>>>,
}

impl View for LineMatch {
    type V = LineMatchView;

    open spec fn view(&self) -> LineMatchView {
        LineMatchView { line: self.line as int, pattern: self.pattern as int, groups: self.groups@ }
    }
}

/// The matches of the line `line` with the first `upto` patterns, in the
/// order of the patterns.
pub open spec fn line_matches(
    lines: Seq<Seq<char>>,
    patterns: Seq<Seq<char>>,
    line: int,
    upto: int,
) -> Seq<LineMatchView>
    decreases upto,
{
    if upto <= 0 {
        Seq::empty()
    } else {
        let before = line_matches(lines, patterns, line, upto - 1);
        match first_match(patterns[upto - 1], lines[line]) {
            Some(groups) => before.push(LineMatchView { line, pattern: upto - 1, groups }),
            None => before,
        }
    }
}

/// The matches of the first `upto` lines with all patterns: line by line,
/// and for each line pattern by pattern.
pub open spec fn all_line_matches(lines: Seq<Seq<char>>, patterns: Seq<Seq<char>>, upto: int) -> Seq<
    LineMatchView,
>
    decreases upto,
{
    if upto <= 0 {
        Seq::empty()
    } else {
        all_line_matches(lines, patterns, upto - 1) + line_matches(
            lines,
            patterns,
            upto - 1,
            patterns.len() as int,
        )
    }
}

/// What each pattern finds in each line: for the pattern `j` and the line
/// `i`, the groups of the leftmost match.
fn match_table(lines: &Vec<String>, patterns: &Vec<&'static str>) -> (r: Vec<Vec<Option<Groups>>>)
    ensures
        r@.len() == patterns@.len(),
        forall|j: int| 0 <= j < r@.len() ==> (#[trigger] r@[j])@.len() == lines@.len(),
        forall|j: int, i: int|
            0 <= j < r@.len() && 0 <= i < lines@.len() ==> option_view(#[trigger] r@[j]@[i])
                == first_match(patterns@[j]@, lines@[i]@),
{
    let mut table: Vec<Vec<Option<Groups>>> = Vec::new();
    let mut j: usize = 0;
    while j < patterns.len()
        invariant
            j <= patterns.len(),
            table@.len() == j,
            forall|k: int| 0 <= k < j ==> (#[trigger] table@[k])@.len() == lines@.len(),
            forall|k: int, i: int|
                0 <= k < j && 0 <= i < lines@.len() ==> option_view(#[trigger] table@[k]@[i])
                    == first_match(patterns@[k]@, lines@[i]@),
        decreases patterns.len() - j,
    {
        table.push(captures_in_each(patterns[j], lines));
        j += 1;
    }
    table
}

/// Matches every line against every pattern, line by line and pattern by
/// pattern. Each pattern is compiled once.
pub fn match_lines(lines: &Vec<String>, patterns: &Vec<&'static str>) -> (r: Vec<LineMatch>)
    ensures
        views(r@) == all_line_matches(views(lines@), views(patterns@), lines@.len() as int),
        forall|k: int|
            0 <= k < r@.len() ==> (#[trigger] r@[k]).line < lines@.len() && r@[k].pattern
                < patterns@.len(),
{
    let ghost ls = views(lines@);
    let ghost ps = views(patterns@);
    let table = match_table(lines, patterns);
    let mut out: Vec<LineMatch> = Vec::new();
    let mut i: usize = 0;
    assert(views(out@) =~= Seq::<LineMatchView>::empty());
    while i < lines.len()
        invariant
            i <= lines.len(),
            ls == views(lines@),
            ps == views(patterns@),
            table@.len() == patterns@.len(),
            forall|j: int| 0 <= j < table@.len() ==> (#[trigger] table@[j])@.len() == lines@.len(),
            forall|j: int, k: int|
                0 <= j < table@.len() && 0 <= k < lines@.len() ==> option_view(
                    #[trigger] table@[j]@[k],
                ) == first_match(patterns@[j]@, lines@[k]@),
            views(out@) == all_line_matches(ls, ps, i as int),
            forall|k: int|
                0 <= k < out@.len() ==> (#[trigger] out@[k]).line < lines@.len() && out@[k].pattern
                    < patterns@.len(),
        decreases lines.len() - i,
    {
        let ghost before = views(out@);
        let mut j: usize = 0;
        assert(before + line_matches(ls, ps, i as int, 0) =~= before);
        while j < patterns.len()
            invariant
                i < lines.len(),
                j <= patterns.len(),
                ls == views(lines@),
                ps == views(patterns@),
                table@.len() == patterns@.len(),
                forall|j: int|
                    0 <= j < table@.len() ==> (#[trigger] table@[j])@.len() == lines@.len(),
                forall|j: int, k: int|
                    0 <= j < table@.len() && 0 <= k < lines@.len() ==> option_view(
                        #[trigger] table@[j]@[k],
                    ) == first_match(patterns@[j]@, lines@[k]@),
                views(out@) == before + line_matches(ls, ps, i as int, j as int),
                forall|k: int|
                    0 <= k < out@.len() ==> (#[trigger] out@[k]).line < lines@.len()
                        && out@[k].pattern < patterns@.len(),
            decreases patterns.len() - j,
        {
            assert(ps[j as int] == patterns@[j as int]@);
            assert(ls[i as int] == lines@[i as int]@);
            assert(option_view(table@[j as int]@[i as int]) == first_match(
                patterns@[j as int]@,
                lines@[i as int]@,
            ));
            match &table[j][i] {
                Some(found) => {
                    let m = LineMatch { line: i, pattern: j, groups: found.clone() };
                    proof {
                        lemma_views_push(out@, m);
                        assert(before + line_matches(ls, ps, i as int, j as int).push(m@) =~= (
                        before + line_matches(ls, ps, i as int, j as int)).push(m@));
                    }
                    out.push(m);
                },
                None => {},
            }
            j += 1;
        }
        i += 1;
    }
    out
}

} // verus!
