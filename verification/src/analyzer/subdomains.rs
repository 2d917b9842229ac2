//! Subdomains in the output of an enumeration tool.

use crate::analyzer::draft::Analysis;
use crate::analyzer::draft::AnalysisView;
use crate::analyzer::draft::DraftView;
use crate::analyzer::draft::FindingDraft;
use crate::analyzer::scan::all_line_matches;
use crate::analyzer::scan::match_lines;
use crate::analyzer::scan::LineMatch;
use crate::analyzer::scan::LineMatchView;
use crate::monitor::model::FindingSeverity;
use crate::pattern::Groups;
use crate::seqs::lemma_views_push;
use crate::seqs::option_view;
use crate::seqs::views;
use crate::text::and_more;
use crate::text::chars_of;
use crate::text::contains;
use crate::text::contains_chars;
use crate::text::decimal;
use crate::text::decimal_string;
use crate::text::join;
use crate::text::lines;
use crate::text::matches_at;
use crate::text::show_some;
use crate::text::shown;
use crate::text::sort_unique;
use crate::text::sorted_unique;
use crate::text::starts_with;
use crate::text::str_join;
use crate::text::str_lines;
use vstd::prelude::*;

verus! {

/// A line that tells how many subdomains were found.
pub const SUBDOMAIN_COUNT: &'static str = r"(?i)found\s+(\d+)\s+subdomains";

/// A host name of at least three labels.
pub const HOST_NAME: &'static str = r"(?i)(\S+\.[\w-]+\.\w+)";

/// The patterns that the output of a subdomain enumeration is read with.
pub open spec fn subdomain_patterns() -> Seq<Seq<char>> {
    seq![SUBDOMAIN_COUNT@, HOST_NAME@]
}

/// How many subdomains the description of a finding lists.
pub const SUBDOMAINS_SHOWN: usize = 10;

/// Whether `name` counts as a subdomain: it holds a dot, does not start
/// with `www.` and holds no URL scheme.
pub open spec fn is_subdomain(name: Seq<char>) -> bool {
    contains(name, "."@) && !starts_with(name, "www."@) && !contains(name, "://"@)
}

/// The subdomain that the groups of a match show: group 1, where it counts
/// as a subdomain.
pub open spec fn subdomain_in(groups: Seq<Option<Seq<char>>>) -> Option<Seq<char>> {
    if groups.len() > 1 && groups[1] is Some && is_subdomain(groups[1].unwrap()) {
        groups[1]
    } else {
        None
    }
}

/// The subdomains that the first `upto` matches show, in order.
pub open spec fn subdomains_seen(ms: Seq<LineMatchView>, upto: int) -> Seq<Seq<char>>
    decreases upto,
{
    if upto <= 0 {
        Seq::empty()
    } else {
        match subdomain_in(ms[upto - 1].groups) {
            Some(name) => subdomains_seen(ms, upto - 1).push(name),
            None => subdomains_seen(ms, upto - 1),
        }
    }
}

/// What a sorted list of subdomains amounts to: nothing where it is empty,
/// else one finding that counts them and lists the first ten, with all of
/// them as evidence, one per line, and a summary.
pub open spec fn subdomains_analysis(names: Seq<Seq<char>>) -> AnalysisView {
    if names.len() == 0 {
        AnalysisView::nothing()
    } else {
        AnalysisView {
            drafts: seq![
                DraftView {
                    title: "Subdomains Discovered"@,
                    description: "Discovered "@ + decimal(names.len()) + " subdomains: "@ + (shown(
                        names,
                        SUBDOMAINS_SHOWN as nat,
                    ) + and_more(names.len(), SUBDOMAINS_SHOWN as nat)),
                    severity: FindingSeverity::Info,
                    raw_output: join(names, "\n"@),
                },
            ],
            summary: Some("Discovered "@ + decimal(names.len()) + " subdomains"@),
        }
    }
}

/// What the output `context` of a subdomain enumeration amounts to: the
/// subdomains that its lines show, sorted and each once.
pub open spec fn subdomain_analysis(context: Seq<char>) -> AnalysisView {
    let ms = all_line_matches(lines(context), subdomain_patterns(), lines(context).len() as int);
    let seen = subdomains_seen(ms, ms.len() as int);
    subdomains_analysis(sorted_unique(seen, seen.len() as int))
}

/// The subdomain that the groups of a match show.
pub fn subdomain_of(groups: &Groups) -> (r: Option<String>)
    ensures
        option_view(r) == subdomain_in(groups@),
{
    if groups.len() > 1 {
        match groups.get(1) {
            Some(name) => {
                let nv = chars_of(name.as_str());
                if contains_chars(&nv, &chars_of(".")) && !matches_at(&nv, &chars_of("www."), 0)
                    && !contains_chars(&nv, &chars_of("://")) {
                    Some(name.clone())
                } else {
                    None
                }
            },
            None => None,
        }
    } else {
        None
    }
}

/// The subdomains that a list of matches shows, in order.
pub fn subdomains_found(matches: &Vec<LineMatch>) -> (r: Vec<String>)
    ensures
        views(r@) == subdomains_seen(views(matches@), matches@.len() as int),
{
    let mut out: Vec<String> = Vec::new();
    let mut i: usize = 0;
    assert(views(out@) =~= Seq::<Seq<char>>::empty());
    while i < matches.len()
        invariant
            i <= matches.len(),
            views(out@) == subdomains_seen(views(matches@), i as int),
        decreases matches.len() - i,
    {
        assert(views(matches@)[i as int] == matches@[i as int]@);
        match subdomain_of(&matches[i].groups) {
            Some(name) => {
                proof {
                    lemma_views_push(out@, name);
                }
                out.push(name);
            },
            None => {},
        }
        i += 1;
    }
    out
}

/// What a sorted list of subdomains amounts to.
pub fn describe_subdomains(names: &Vec<String>) -> (r: Analysis)
    ensures
        r@ == subdomains_analysis(views(names@)),
{
    if names.len() == 0 {
        let r = Analysis { drafts: Vec::new(), summary: None };
        assert(r@.drafts =~= Seq::<DraftView>::empty());
        return r;
    }
    let count = decimal_string(names.len() as u128);
    let mut description = String::from_str("Discovered ");
    description.append(count.as_str());
    description.append(" subdomains: ");
    description.append(show_some(names, SUBDOMAINS_SHOWN).as_str());
    let mut summary = String::from_str("Discovered ");
    summary.append(count.as_str());
    summary.append(" subdomains");
    let draft = FindingDraft {
        title: String::from_str("Subdomains Discovered"),
        description,
        severity: FindingSeverity::Info,
        raw_output: str_join(names, "\n"),
    };
    let mut drafts: Vec<FindingDraft> = Vec::new();
    drafts.push(draft);
    let r = Analysis { drafts, summary: Some(summary) };
    assert(r@.drafts =~= seq![draft@]);
    r
}

fn subdomain_pattern_list() -> (v: Vec<&'static str>)
    ensures
        views(v@) == subdomain_patterns(),
{
    let v = vec![SUBDOMAIN_COUNT, HOST_NAME];
    assert(views(v@) =~= subdomain_patterns());
    v
}

/// Reads the output `context` of a subdomain enumeration: the subdomains
/// that its lines show, sorted and each once, become one finding, and a
/// summary.
pub fn analyze_subdomains(context: &str) -> (r: Analysis)
    ensures
        r@ == subdomain_analysis(context@),
{
    let lines = str_lines(context);
    let patterns = subdomain_pattern_list();
    let matches = match_lines(&lines, &patterns);
    let seen = subdomains_found(&matches);
    let names = sort_unique(&seen);
    describe_subdomains(&names)
}

} // verus!
