//! Signs of vulnerabilities in the output of a scanner: disclosed software
//! versions, CVE identifiers and telling words.

use crate::analyzer::draft::Analysis;
use crate::analyzer::draft::AnalysisView;
use crate::analyzer::draft::DraftView;
use crate::analyzer::draft::FindingDraft;
use crate::analyzer::scan::all_line_matches;
use crate::analyzer::scan::match_lines;
use crate::analyzer::scan::LineMatch;
use crate::analyzer::scan::LineMatchView;
use crate::monitor::model::FindingSeverity;
use crate::pattern::captures;
use crate::pattern::first_match;
use crate::pattern::Groups;
use crate::seqs::lemma_views_push;
use crate::seqs::option_view;
use crate::seqs::views;
use crate::text::chars_of;
use crate::text::contains;
use crate::text::contains_any;
use crate::text::contains_chars;
use crate::text::find_contained;
use crate::text::lines;
use crate::text::lowercase;
use crate::text::str_contains;
use crate::text::str_lines;
use crate::text::to_lowercase;
use vstd::prelude::*;

verus! {

/// Words that speak of a weakness.
pub const WEAKNESS_WORDS: &'static str = r"(?i)vulnerable|vulnerability|exploit|deprecated";

/// The name of a well-known server product followed by its version.
pub const PRODUCT_VERSION: &'static str =
    r"(?i)(apache|nginx|iis|tomcat|php|mysql|postgresql|mssql)(?:/| |-)(\d+\.\d+\.?\d*)";

/// A CVE identifier, in any case.
pub const CVE_MENTION: &'static str = r"(?i)CVE-\d{4}-\d{4,7}";

/// Words that speak of cross-site scripting.
pub const XSS_WORDS: &'static str = r"(?i)xss|cross-site";

/// Words that speak of SQL injection.
pub const SQL_INJECTION_WORDS: &'static str = r"(?i)sql(?:\s+)?injection";

/// A CVE identifier, in upper case.
pub const CVE_IDENTIFIER: &'static str = r"CVE-\d{4}-\d{4,7}";

/// The patterns that the output of a vulnerability scan is read with.
pub open spec fn vulnerability_patterns() -> Seq<Seq<char>> {
    seq![WEAKNESS_WORDS@, PRODUCT_VERSION@, CVE_MENTION@, XSS_WORDS@, SQL_INJECTION_WORDS@]
}

/// The words that mark a line as speaking of a vulnerability.
pub open spec fn weakness_markers() -> Seq<Seq<char>> {
    seq!["vulnerable"@, "vulnerability"@, "exploit"@]
}

/// The words that mark a line as speaking of cross-site scripting.
pub open spec fn xss_markers() -> Seq<Seq<char>> {
    seq!["xss"@, "cross-site scripting"@]
}

/// The text of group `i`, empty where the group is absent.
pub open spec fn group_or_empty(groups: Seq<Option<Seq<char>>>, i: int) -> Seq<char> {
    if 0 <= i < groups.len() && groups[i] is Some {
        groups[i].unwrap()
    } else {
        Seq::empty()
    }
}

/// The finding for a product `software` in version `version`.
pub open spec fn version_disclosure(software: Seq<char>, version: Seq<char>, line: Seq<char>) -> DraftView {
    DraftView {
        title: software + " Version Disclosure"@,
        description: "Detected "@ + software + " version "@ + version,
        severity: FindingSeverity::Low,
        raw_output: line,
    }
}

/// The finding for a line that names the CVE `cve`.
pub open spec fn cve_reference(cve: Seq<char>, line: Seq<char>) -> DraftView {
    DraftView {
        title: "Potential CVE Detected"@,
        description: "Found reference to "@ + cve + " in output"@,
        severity: FindingSeverity::High,
        raw_output: line,
    }
}

/// The finding for a line that speaks of a vulnerability.
pub open spec fn weakness_mention(line: Seq<char>) -> DraftView {
    DraftView {
        title: "Potential Vulnerability Detected"@,
        description: "Detected potential vulnerability indicator in output"@,
        severity: FindingSeverity::Medium,
        raw_output: line,
    }
}

/// The finding for a line that speaks of cross-site scripting.
pub open spec fn xss_mention(line: Seq<char>) -> DraftView {
    DraftView {
        title: "Potential XSS Vulnerability"@,
        description: "Detected potential XSS vulnerability indicator"@,
        severity: FindingSeverity::High,
        raw_output: line,
    }
}

/// The finding for a line that speaks of SQL injection.
pub open spec fn sql_injection_mention(line: Seq<char>) -> DraftView {
    DraftView {
        title: "Potential SQL Injection Vulnerability"@,
        description: "Detected potential SQL injection vulnerability indicator"@,
        severity: FindingSeverity::High,
        raw_output: line,
    }
}

/// The finding, if any, for one match of `line` with the groups `groups`,
/// where `cve` is what a search for a CVE identifier in the line gave.
///
/// A match with two groups is a product and its version, and a finding
/// where both are present. Otherwise the line decides: a CVE identifier
/// goes before words of vulnerability, those before words of cross-site
/// scripting, and those before words of SQL injection.
pub open spec fn vulnerability_in(
    line: Seq<char>,
    groups: Seq<Option<Seq<char>>>,
    cve: Option<Seq<Option<Seq<char>>>>,
) -> Option<DraftView> {
    let software = group_or_empty(groups, 1);
    let version = group_or_empty(groups, 2);
    let lowered = lowercase(line);
    if groups.len() > 2 {
        if software.len() > 0 && version.len() > 0 {
            Some(version_disclosure(software, version, line))
        } else {
            None
        }
    } else if contains(line, "CVE-"@) {
        match cve {
            Some(found) => if found.len() > 0 && found[0] is Some {
                Some(cve_reference(found[0].unwrap(), line))
            } else {
                None
            },
            None => None,
        }
    } else if contains_any(lowered, weakness_markers()) {
        Some(weakness_mention(line))
    } else if contains_any(lowered, xss_markers()) {
        Some(xss_mention(line))
    } else if contains(lowered, "sql injection"@) {
        Some(sql_injection_mention(line))
    } else {
        None
    }
}

/// The findings for the first `upto` matches, in order. A match that names
/// no line of `lines` gives none.
pub open spec fn vulnerability_drafts(lines: Seq<Seq<char>>, ms: Seq<LineMatchView>, upto: int) -> Seq<
    DraftView,
>
    decreases upto,
{
    if upto <= 0 {
        Seq::empty()
    } else {
        let m = ms[upto - 1];
        let line = lines[m.line];
        let found = if 0 <= m.line < lines.len() {
            vulnerability_in(line, m.groups, first_match(CVE_IDENTIFIER@, line))
        } else {
            None
        };
        match found {
            Some(d) => vulnerability_drafts(lines, ms, upto - 1).push(d),
            None => vulnerability_drafts(lines, ms, upto - 1),
        }
    }
}

/// What the output `context` of a vulnerability scan amounts to: one
/// finding for each match that shows something, and no summary.
pub open spec fn vulnerability_analysis(context: Seq<char>) -> AnalysisView {
    let ms = all_line_matches(
        lines(context),
        vulnerability_patterns(),
        lines(context).len() as int,
    );
    AnalysisView {
        drafts: vulnerability_drafts(lines(context), ms, ms.len() as int),
        summary: None,
    }
}

fn weakness_marker_list() -> (v: Vec<&'static str>)
    ensures
        views(v@) == weakness_markers(),
{
    let v = vec!["vulnerable", "vulnerability", "exploit"];
    assert(views(v@) =~= weakness_markers());
    v
}

fn xss_marker_list() -> (v: Vec<&'static str>)
    ensures
        views(v@) == xss_markers(),
{
    let v = vec!["xss", "cross-site scripting"];
    assert(views(v@) =~= xss_markers());
    v
}

fn vulnerability_pattern_list() -> (v: Vec<&'static str>)
    ensures
        views(v@) == vulnerability_patterns(),
{
    let v = vec![WEAKNESS_WORDS, PRODUCT_VERSION, CVE_MENTION, XSS_WORDS, SQL_INJECTION_WORDS];
    assert(views(v@) =~= vulnerability_patterns());
    v
}

/// The text of group `i`, empty where the group is absent.
pub fn group_text(groups: &Groups, i: usize) -> (r: String)
    ensures
        r@ == group_or_empty(groups@, i as int),
{
    match groups.get(i) {
        Some(s) => s.clone(),
        None => String::new(),
    }
}

/// The finding, if any, for one match of `line` with the groups `groups`,
/// where `cve` is what a search for a CVE identifier in the line gave.
pub fn vulnerability_found(line: &str, groups: &Groups, cve: &Option<Groups>) -> (r: Option<
    FindingDraft,
>)
    ensures
        option_view(r) == vulnerability_in(line@, groups@, option_view(*cve)),
{
    if groups.len() > 2 {
        let software = group_text(groups, 1);
        let version = group_text(groups, 2);
        if software.as_str().unicode_len() > 0 && version.as_str().unicode_len() > 0 {
            let mut title = software.clone();
            title.append(" Version Disclosure");
            let mut description = String::from_str("Detected ");
            description.append(software.as_str());
            description.append(" version ");
            description.append(version.as_str());
            return Some(
                FindingDraft {
                    title,
                    description,
                    severity: FindingSeverity::Low,
                    raw_output: String::from_str(line),
                },
            );
        }
        return None;
    }
    if str_contains(line, "CVE-") {
        return match cve {
            Some(found) => match found.get(0) {
                Some(id) => {
                    let mut description = String::from_str("Found reference to ");
                    description.append(id.as_str());
                    description.append(" in output");
                    Some(
                        FindingDraft {
                            title: String::from_str("Potential CVE Detected"),
                            description,
                            severity: FindingSeverity::High,
                            raw_output: String::from_str(line),
                        },
                    )
                },
                None => None,
            },
            None => None,
        };
    }
    let lowered = to_lowercase(line);
    let lv = chars_of(lowered.as_str());
    if find_contained(&lv, &weakness_marker_list()).is_some() {
        return Some(
            FindingDraft {
                title: String::from_str("Potential Vulnerability Detected"),
                description: String::from_str(
                    "Detected potential vulnerability indicator in output",
                ),
                severity: FindingSeverity::Medium,
                raw_output: String::from_str(line),
            },
        );
    }
    if find_contained(&lv, &xss_marker_list()).is_some() {
        return Some(
            FindingDraft {
                title: String::from_str("Potential XSS Vulnerability"),
                description: String::from_str("Detected potential XSS vulnerability indicator"),
                severity: FindingSeverity::High,
                raw_output: String::from_str(line),
            },
        );
    }
    if contains_chars(&lv, &chars_of("sql injection")) {
        return Some(
            FindingDraft {
                title: String::from_str("Potential SQL Injection Vulnerability"),
                description: String::from_str(
                    "Detected potential SQL injection vulnerability indicator",
                ),
                severity: FindingSeverity::High,
                raw_output: String::from_str(line),
            },
        );
    }
    None
}

/// The findings for a list of matches of the lines `lines`, in order.
pub fn vulnerabilities_found(lines: &Vec<String>, matches: &Vec<LineMatch>) -> (r: Vec<
    FindingDraft,
>)
    ensures
        views(r@) == vulnerability_drafts(views(lines@), views(matches@), matches@.len() as int),
{
    let mut out: Vec<FindingDraft> = Vec::new();
    let mut i: usize = 0;
    assert(views(out@) =~= Seq::<DraftView>::empty());
    while i < matches.len()
        invariant
            i <= matches.len(),
            views(out@) == vulnerability_drafts(views(lines@), views(matches@), i as int),
        decreases matches.len() - i,
    {
        assert(views(matches@)[i as int] == matches@[i as int]@);
        if matches[i].line < lines.len() {
            let line = lines[matches[i].line].as_str();
            assert(views(lines@)[matches@[i as int].line as int] == line@);
            // The line is searched for a CVE identifier only where the
            // finding depends on it.
            let cve = if matches[i].groups.len() <= 2 && str_contains(line, "CVE-") {
                captures(CVE_IDENTIFIER, line)
            } else {
                None
            };
            match vulnerability_found(line, &matches[i].groups, &cve) {
                Some(d) => {
                    proof {
                        lemma_views_push(out@, d);
                    }
                    out.push(d);
                },
                None => {},
            }
        }
        i += 1;
    }
    out
}

/// Reads the output `context` of a vulnerability scan: each match of a line
/// with a pattern that shows something becomes a finding.
pub fn analyze_vulnerabilities(context: &str) -> (r: Analysis)
    ensures
        r@ == vulnerability_analysis(context@),
{
    let lines = str_lines(context);
    let patterns = vulnerability_pattern_list();
    let matches = match_lines(&lines, &patterns);
    let drafts = vulnerabilities_found(&lines, &matches);
    Analysis { drafts, summary: None }
}

} // verus!
