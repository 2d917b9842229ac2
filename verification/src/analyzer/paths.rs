//! Paths in the output of a directory scan, and the sensitive ones among them.

use crate::analyzer::draft::Analysis;
use crate::analyzer::draft::AnalysisView;
use crate::analyzer::draft::DraftView;
use crate::analyzer::draft::FindingDraft;
use crate::analyzer::scan::all_line_matches;
use crate::analyzer::scan::match_lines;
use crate::analyzer::scan::LineMatch;
use crate::analyzer::scan::LineMatchView;
use crate::monitor::model::FindingSeverity;
use crate::seqs::lemma_views_push;
use crate::seqs::views;
use crate::text::and_more;
use crate::text::chars_of;
use crate::text::contains_any;
use crate::text::decimal;
use crate::text::decimal_string;
use crate::text::find_contained;
use crate::text::join;
use crate::text::lines;
use crate::text::show_some;
use crate::text::shown;
use crate::text::str_join;
use crate::text::str_lines;
use vstd::prelude::*;

verus! {

/// A line that reports a path answered with status 200, with its size.
pub const FOUND_PATH: &'static str = r"(?i)Status: 200\s+Size:\s+\d+\s+Path:\s+(\S+)";

/// A line that reports status 200 and a size in brackets.
pub const FOUND_STATUS: &'static str = r"(?i)\(Status: 200\)\s+\[Size: \d+\]";

/// A path of administration, configuration, set-up or backup.
pub const SENSITIVE_PATH: &'static str =
    r"(?i)/(?:admin|config|setup|install|backup|wp-admin|phpMyAdmin)(?:/|\s|$)";

/// The patterns that the output of a directory scan is read with.
pub open spec fn path_patterns() -> Seq<Seq<char>> {
    seq![FOUND_PATH@, FOUND_STATUS@, SENSITIVE_PATH@]
}

/// The pieces of a path that mark it as sensitive.
pub open spec fn sensitive_marks() -> Seq<Seq<char>> {
    seq![
        "/admin"@,
        "/config"@,
        "/setup"@,
        "/install"@,
        "/backup"@,
        "/wp-admin"@,
        "/phpMyAdmin"@,
    ]
}

/// How many paths the description of a finding lists.
pub const PATHS_SHOWN: usize = 10;

/// How many sensitive paths the description of a finding lists.
pub const SENSITIVE_PATHS_SHOWN: usize = 5;

/// Whether the line of a match holds a sensitive path.
pub open spec fn is_sensitive(line: Seq<char>) -> bool {
    contains_any(line, sensitive_marks())
}

/// The lines with a sensitive path among those of the first `upto` matches,
/// once for each match. A match that names no line of `lines` gives none.
pub open spec fn sensitive_lines(lines: Seq<Seq<char>>, ms: Seq<LineMatchView>, upto: int) -> Seq<
    Seq<char>,
>
    decreases upto,
{
    if upto <= 0 {
        Seq::empty()
    } else {
        let m = ms[upto - 1];
        if 0 <= m.line < lines.len() && is_sensitive(lines[m.line]) {
            sensitive_lines(lines, ms, upto - 1).push(lines[m.line])
        } else {
            sensitive_lines(lines, ms, upto - 1)
        }
    }
}

/// The paths that the first `upto` matches show in group 1, where the line
/// holds no sensitive path.
pub open spec fn plain_paths(lines: Seq<Seq<char>>, ms: Seq<LineMatchView>, upto: int) -> Seq<
    Seq<char>,
>
    decreases upto,
{
    if upto <= 0 {
        Seq::empty()
    } else {
        let m = ms[upto - 1];
        if 0 <= m.line < lines.len() && !is_sensitive(lines[m.line]) && m.groups.len() > 1
            && m.groups[1] is Some {
            plain_paths(lines, ms, upto - 1).push(m.groups[1].unwrap())
        } else {
            plain_paths(lines, ms, upto - 1)
        }
    }
}

/// The finding for a list of paths that is not empty.
pub open spec fn paths_draft(paths: Seq<Seq<char>>) -> DraftView {
    DraftView {
        title: "Interesting Paths Discovered"@,
        description: "Discovered "@ + decimal(paths.len()) + " interesting paths: "@ + (shown(
            paths,
            PATHS_SHOWN as nat,
        ) + and_more(paths.len(), PATHS_SHOWN as nat)),
        severity: FindingSeverity::Info,
        raw_output: join(paths, "\n"@),
    }
}

/// The finding for a list of sensitive paths that is not empty.
pub open spec fn sensitive_draft(sensitive: Seq<Seq<char>>) -> DraftView {
    DraftView {
        title: "Potentially Sensitive Paths Discovered"@,
        description: "Discovered "@ + decimal(sensitive.len()) + " potentially sensitive paths: "@
            + (shown(sensitive, SENSITIVE_PATHS_SHOWN as nat) + and_more(
            sensitive.len(),
            SENSITIVE_PATHS_SHOWN as nat,
        )),
        severity: FindingSeverity::Medium,
        raw_output: join(sensitive, "\n"@),
    }
}

/// What the paths and the sensitive paths amount to: a finding for each
/// list that is not empty, the plain paths first, and a summary where
/// either has an item.
pub open spec fn paths_analysis(paths: Seq<Seq<char>>, sensitive: Seq<Seq<char>>) -> AnalysisView {
    AnalysisView {
        drafts: (if paths.len() > 0 {
            seq![paths_draft(paths)]
        } else {
            Seq::empty()
        }) + (if sensitive.len() > 0 {
            seq![sensitive_draft(sensitive)]
        } else {
            Seq::empty()
        }),
        summary: if paths.len() > 0 || sensitive.len() > 0 {
            Some(
                "Discovered "@ + decimal(paths.len() + sensitive.len()) + " paths ("@ + decimal(
                    sensitive.len(),
                ) + " potentially sensitive)"@,
            )
        } else {
            None
        },
    }
}

/// What the output `context` of a directory scan amounts to.
pub open spec fn path_analysis(context: Seq<char>) -> AnalysisView {
    let ms = all_line_matches(lines(context), path_patterns(), lines(context).len() as int);
    paths_analysis(
        plain_paths(lines(context), ms, ms.len() as int),
        sensitive_lines(lines(context), ms, ms.len() as int),
    )
}

fn sensitive_mark_list() -> (v: Vec<&'static str>)
    ensures
        views(v@) == sensitive_marks(),
{
    let v = vec![
        "/admin",
        "/config",
        "/setup",
        "/install",
        "/backup",
        "/wp-admin",
        "/phpMyAdmin",
    ];
    assert(views(v@) =~= sensitive_marks());
    v
}

fn path_pattern_list() -> (v: Vec<&'static str>)
    ensures
        views(v@) == path_patterns(),
{
    let v = vec![FOUND_PATH, FOUND_STATUS, SENSITIVE_PATH];
    assert(views(v@) =~= path_patterns());
    v
}

/// The paths and the sensitive lines that a list of matches of the lines
/// `lines` shows.
pub fn paths_found(lines: &Vec<String>, matches: &Vec<LineMatch>) -> (r: (Vec<String>, Vec<String>))
    ensures
        views(r.0@) == plain_paths(views(lines@), views(matches@), matches@.len() as int),
        views(r.1@) == sensitive_lines(views(lines@), views(matches@), matches@.len() as int),
{
    let marks = sensitive_mark_list();
    let mut paths: Vec<String> = Vec::new();
    let mut sensitive: Vec<String> = Vec::new();
    let mut i: usize = 0;
    assert(views(paths@) =~= Seq::<Seq<char>>::empty());
    assert(views(sensitive@) =~= Seq::<Seq<char>>::empty());
    while i < matches.len()
        invariant
            i <= matches.len(),
            views(marks@) == sensitive_marks(),
            views(paths@) == plain_paths(views(lines@), views(matches@), i as int),
            views(sensitive@) == sensitive_lines(views(lines@), views(matches@), i as int),
        decreases matches.len() - i,
    {
        assert(views(matches@)[i as int] == matches@[i as int]@);
        if matches[i].line < lines.len() {
            let line = &lines[matches[i].line];
            assert(views(lines@)[matches@[i as int].line as int] == line@);
            let lv = chars_of(line.as_str());
            if find_contained(&lv, &marks).is_some() {
                let kept = line.clone();
                proof {
                    lemma_views_push(sensitive@, kept);
                }
                sensitive.push(kept);
            } else if matches[i].groups.len() > 1 {
                match matches[i].groups.get(1) {
                    Some(path) => {
                        let kept = path.clone();
                        proof {
                            lemma_views_push(paths@, kept);
                        }
                        paths.push(kept);
                    },
                    None => {},
                }
            }
        }
        i += 1;
    }
    (paths, sensitive)
}

/// What the paths and the sensitive paths amount to.
pub fn describe_paths(paths: &Vec<String>, sensitive: &Vec<String>) -> (r: Analysis)
    ensures
        r@ == paths_analysis(views(paths@), views(sensitive@)),
{
    let mut drafts: Vec<FindingDraft> = Vec::new();
    if paths.len() > 0 {
        let mut description = String::from_str("Discovered ");
        description.append(decimal_string(paths.len() as u128).as_str());
        description.append(" interesting paths: ");
        description.append(show_some(paths, PATHS_SHOWN).as_str());
        drafts.push(
            FindingDraft {
                title: String::from_str("Interesting Paths Discovered"),
                description,
                severity: FindingSeverity::Info,
                raw_output: str_join(paths, "\n"),
            },
        );
    }
    if sensitive.len() > 0 {
        let mut description = String::from_str("Discovered ");
        description.append(decimal_string(sensitive.len() as u128).as_str());
        description.append(" potentially sensitive paths: ");
        description.append(show_some(sensitive, SENSITIVE_PATHS_SHOWN).as_str());
        drafts.push(
            FindingDraft {
                title: String::from_str("Potentially Sensitive Paths Discovered"),
                description,
                severity: FindingSeverity::Medium,
                raw_output: str_join(sensitive, "\n"),
            },
        );
    }
    let summary = if paths.len() > 0 || sensitive.len() > 0 {
        let mut summary = String::from_str("Discovered ");
        summary.append(
            decimal_string(paths.len() as u128 + sensitive.len() as u128).as_str(),
        );
        summary.append(" paths (");
        summary.append(decimal_string(sensitive.len() as u128).as_str());
        summary.append(" potentially sensitive)");
        Some(summary)
    } else {
        None
    };
    let r = Analysis { drafts, summary };
    assert(r@.drafts =~= paths_analysis(views(paths@), views(sensitive@)).drafts);
    r
}

/// Reads the output `context` of a directory scan: the paths that its lines
/// show and the lines with a sensitive path become a finding each, and a
/// summary.
pub fn analyze_paths(context: &str) -> (r: Analysis)
    ensures
        r@ == path_analysis(context@),
{
    let lines = str_lines(context);
    let patterns = path_pattern_list();
    let matches = match_lines(&lines, &patterns);
    let (paths, sensitive) = paths_found(&lines, &matches);
    describe_paths(&paths, &sensitive)
}

} // verus!
