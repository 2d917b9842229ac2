//! The documents written for findings: one per finding, and the summary of all.

use crate::clock::format_utc;
use crate::clock::utc_format;
use crate::clock::Timestamp;
use crate::documentation::model::ActionView;
use crate::documentation::model::DocumentView;
use crate::documentation::model::DocumentedFinding;
use crate::documentation::model::FollowUpAction;
use crate::monitor::model::FindingSeverity;
use crate::monitor::report::report_order;
use crate::monitor::report::REPORT_DATE;
use crate::seqs::option_view;
use crate::seqs::views;
use crate::text::decimal;
use crate::text::decimal_string;
use vstd::prelude::*;

verus! {

/// What the document says of one follow-up action, the `number`-th of its finding.
pub open spec fn action_text(a: ActionView, number: nat) -> Seq<char> {
    "### Action "@ + decimal(number) + ": "@ + a.description + "\n**Status:** "@ + a.status.name()
        + "\n"@ + (match a.command {
        Some(c) => "**Command:**\n```\n"@ + c + "\n```\n"@,
        None => Seq::empty(),
    }) + (match a.result {
        Some(r) => "**Result:**\n```\n"@ + r + "\n```\n"@,
        None => Seq::empty(),
    }) + "\n"@
}

/// What the document says of the first `upto` follow-up actions, numbered from one.
pub open spec fn actions_text(actions: Seq<ActionView>, upto: int) -> Seq<char>
    decreases upto,
{
    if upto <= 0 {
        Seq::empty()
    } else {
        actions_text(actions, upto - 1) + action_text(actions[upto - 1], upto as nat)
    }
}

/// The part of the document on follow-up actions: nothing where there are none.
pub open spec fn actions_section(actions: Seq<ActionView>) -> Seq<char> {
    if actions.len() == 0 {
        Seq::empty()
    } else {
        "## Follow-up Actions\n\n"@ + actions_text(actions, actions.len() as int)
    }
}

/// The document of a finding: title, description, severity, discovery date,
/// status, discovery command, evidence, the follow-up actions where there
/// are any, and a place for notes. `None` where the discovery date cannot
/// be written.
pub open spec fn document_text(f: DocumentView) -> Option<Seq<char>> {
    match utc_format(f.discovery_date.secs, f.discovery_date.nanos, REPORT_DATE@) {
        Some(date) => Some(
            "# "@ + f.title + " ("@ + f.id + ")\n\n## Description\n"@ + f.description
                + "\n\n**Severity:** "@ + f.severity.name() + "\n**Discovery Date:** "@ + date
                + "\n**Status:** "@ + f.status.name() + "\n\n## Discovery Method\n```\n"@
                + f.discovery_command + "\n```\n\n## Evidence\n```\n"@ + f.raw_evidence
                + "\n```\n\n"@ + actions_section(f.follow_up_actions)
                + "## Notes\n_Add your notes here_\n"@,
        ),
        None => None,
    }
}

/// What the document says of one follow-up action.
fn render_action(a: &FollowUpAction, number: usize) -> (r: String)
    ensures
        r@ == action_text(a@, number as nat),
{
    let mut out = String::from_str("### Action ");
    out.append(decimal_string(number as u128).as_str());
    out.append(": ");
    out.append(a.description.as_str());
    out.append("\n**Status:** ");
    out.append(a.status.label());
    out.append("\n");
    let command = match &a.command {
        Some(c) => {
            let mut part = String::from_str("**Command:**\n```\n");
            part.append(c.as_str());
            part.append("\n```\n");
            part
        },
        None => String::new(),
    };
    out.append(command.as_str());
    let result = match &a.result {
        Some(r) => {
            let mut part = String::from_str("**Result:**\n```\n");
            part.append(r.as_str());
            part.append("\n```\n");
            part
        },
        None => String::new(),
    };
    out.append(result.as_str());
    out.append("\n");
    out
}

/// The part of the document on follow-up actions.
fn render_actions(actions: &Vec<FollowUpAction>) -> (r: String)
    ensures
        r@ == actions_section(views(actions@)),
{
    if actions.len() == 0 {
        return String::new();
    }
    let mut body = String::new();
    let mut i: usize = 0;
    while i < actions.len()
        invariant
            i <= actions.len(),
            body@ == actions_text(views(actions@), i as int),
        decreases actions.len() - i,
    {
        assert(views(actions@)[i as int] == actions@[i as int]@);
        body.append(render_action(&actions[i], i + 1).as_str());
        i += 1;
    }
    let mut out = String::from_str("## Follow-up Actions\n\n");
    out.append(body.as_str());
    out
}

/// Renders the document of a finding.
pub fn render_finding(finding: &DocumentedFinding) -> (r: Option<String>)
    ensures
        option_view(r) == document_text(finding@),
{
    let date = match format_utc(finding.discovery_date, REPORT_DATE) {
        Some(date) => date,
        None => {
            return None;
        },
    };
    let mut out = String::from_str("# ");
    out.append(finding.title.as_str());
    out.append(" (");
    out.append(finding.id.as_str());
    out.append(")\n\n## Description\n");
    out.append(finding.description.as_str());
    out.append("\n\n**Severity:** ");
    out.append(finding.severity.label());
    out.append("\n**Discovery Date:** ");
    out.append(date.as_str());
    out.append("\n**Status:** ");
    out.append(finding.status.label());
    out.append("\n\n## Discovery Method\n```\n");
    out.append(finding.discovery_command.as_str());
    out.append("\n```\n\n## Evidence\n```\n");
    out.append(finding.raw_evidence.as_str());
    out.append("\n```\n\n");
    out.append(render_actions(&finding.follow_up_actions).as_str());
    out.append("## Notes\n_Add your notes here_\n");
    Some(out)
}

/// The number of findings with the severity `severity` among the first `upto`.
pub open spec fn count_with(ds: Seq<DocumentView>, severity: FindingSeverity, upto: int) -> nat
    decreases upto,
{
    if upto <= 0 {
        0
    } else if ds[upto - 1].severity == severity {
        count_with(ds, severity, upto - 1) + 1
    } else {
        count_with(ds, severity, upto - 1)
    }
}

/// What the summary says of the findings with the severity `severity` among
/// the first `upto`: for each its title, identifier and description.
pub open spec fn digests_with(ds: Seq<DocumentView>, severity: FindingSeverity, upto: int) -> Seq<
    char,
>
    decreases upto,
{
    if upto <= 0 {
        Seq::empty()
    } else if ds[upto - 1].severity == severity {
        digests_with(ds, severity, upto - 1) + ("### "@ + ds[upto - 1].title + " ("@ + ds[upto
            - 1].id + ")\n"@ + ds[upto - 1].description + "\n\n"@)
    } else {
        digests_with(ds, severity, upto - 1)
    }
}

/// The name of a severity, filled with blanks to the width of the overview.
pub open spec fn padded_name(severity: FindingSeverity) -> Seq<char> {
    match severity {
        FindingSeverity::Critical => "Critical"@,
        FindingSeverity::High => "High    "@,
        FindingSeverity::Medium => "Medium  "@,
        FindingSeverity::Low => "Low     "@,
        FindingSeverity::Info => "Info    "@,
    }
}

/// The rows of the overview for the first `upto` severities of the report order.
pub open spec fn overview_rows(ds: Seq<DocumentView>, upto: int) -> Seq<char>
    decreases upto,
{
    if upto <= 0 {
        Seq::empty()
    } else {
        let severity = report_order()[upto - 1];
        overview_rows(ds, upto - 1) + ("| "@ + padded_name(severity) + " | "@ + decimal(
            count_with(ds, severity, ds.len() as int),
        ) + " |\n"@)
    }
}

/// The section of the summary for one severity: nothing where no finding has it.
pub open spec fn digest_section(ds: Seq<DocumentView>, severity: FindingSeverity) -> Seq<char> {
    if count_with(ds, severity, ds.len() as int) == 0 {
        Seq::empty()
    } else {
        "## "@ + severity.name() + " Findings\n\n"@ + digests_with(ds, severity, ds.len() as int)
    }
}

/// The sections of the summary for the first `upto` severities of the report order.
pub open spec fn digest_sections(ds: Seq<DocumentView>, upto: int) -> Seq<char>
    decreases upto,
{
    if upto <= 0 {
        Seq::empty()
    } else {
        digest_sections(ds, upto - 1) + digest_section(ds, report_order()[upto - 1])
    }
}

/// The summary of all documented findings, written at `generated`: the
/// number of findings of each severity and in total, then the findings
/// themselves, the gravest first. `None` where the time cannot be written.
pub open spec fn summary_text(ds: Seq<DocumentView>, generated: Timestamp) -> Option<Seq<char>> {
    match utc_format(generated.secs, generated.nanos, REPORT_DATE@) {
        Some(date) => Some(
            "# Security Assessment Summary Report\nGenerated: "@ + date
                + "\n\n## Findings Overview\n| Severity | Count |\n|----------|-------|\n"@
                + overview_rows(ds, report_order().len() as int) + "| **Total**    | **"@
                + decimal(ds.len()) + "** |\n\n"@ + digest_sections(
                ds,
                report_order().len() as int,
            ),
        ),
        None => None,
    }
}

/// A count of findings is at most the number of findings read.
pub proof fn lemma_count_with_bound(ds: Seq<DocumentView>, severity: FindingSeverity, n: int)
    requires
        0 <= n,
    ensures
        count_with(ds, severity, n) <= n,
    decreases n,
{
    if n > 0 {
        lemma_count_with_bound(ds, severity, n - 1);
    }
}

/// The number of findings with the severity `severity`, and what the summary says of them.
fn digest_of(findings: &Vec<DocumentedFinding>, severity: FindingSeverity) -> (r: (usize, String))
    ensures
        r.0 == count_with(views(findings@), severity, findings@.len() as int),
        r.1@ == digests_with(views(findings@), severity, findings@.len() as int),
{
    let mut count: usize = 0;
    let mut text = String::new();
    let mut i: usize = 0;
    while i < findings.len()
        invariant
            i <= findings.len(),
            count <= i,
            count == count_with(views(findings@), severity, i as int),
            text@ == digests_with(views(findings@), severity, i as int),
        decreases findings.len() - i,
    {
        assert(views(findings@)[i as int] == findings@[i as int]@);
        if findings[i].severity == severity {
            let mut entry = String::from_str("### ");
            entry.append(findings[i].title.as_str());
            entry.append(" (");
            entry.append(findings[i].id.as_str());
            entry.append(")\n");
            entry.append(findings[i].description.as_str());
            entry.append("\n\n");
            text.append(entry.as_str());
            count += 1;
        }
        i += 1;
    }
    (count, text)
}

fn padded_label(severity: FindingSeverity) -> (r: &'static str)
    ensures
        r@ == padded_name(severity),
{
    match severity {
        FindingSeverity::Critical => "Critical",
        FindingSeverity::High => "High    ",
        FindingSeverity::Medium => "Medium  ",
        FindingSeverity::Low => "Low     ",
        FindingSeverity::Info => "Info    ",
    }
}

fn report_order_list() -> (v: Vec<FindingSeverity>)
    ensures
        v@ == report_order(),
{
    let v = vec![
        FindingSeverity::Critical,
        FindingSeverity::High,
        FindingSeverity::Medium,
        FindingSeverity::Low,
        FindingSeverity::Info,
    ];
    assert(v@ =~= report_order());
    v
}

/// Renders the summary of the documented findings `findings`, written at `generated`.
pub fn render_summary(findings: &Vec<DocumentedFinding>, generated: Timestamp) -> (r: Option<String>)
    ensures
        option_view(r) == summary_text(views(findings@), generated),
{
    let ghost ds = views(findings@);
    let date = match format_utc(generated, REPORT_DATE) {
        Some(date) => date,
        None => {
            return None;
        },
    };
    let order = report_order_list();
    let mut rows = String::new();
    let mut sections = String::new();
    let mut i: usize = 0;
    while i < order.len()
        invariant
            i <= order.len(),
            order@ == report_order(),
            ds == views(findings@),
            rows@ == overview_rows(ds, i as int),
            sections@ == digest_sections(ds, i as int),
        decreases order.len() - i,
    {
        let severity = order[i];
        let (count, text) = digest_of(findings, severity);
        let mut row = String::from_str("| ");
        row.append(padded_label(severity));
        row.append(" | ");
        row.append(decimal_string(count as u128).as_str());
        row.append(" |\n");
        rows.append(row.as_str());
        if count > 0 {
            let mut section = String::from_str("## ");
            section.append(severity.label());
            section.append(" Findings\n\n");
            section.append(text.as_str());
            sections.append(section.as_str());
        } else {
            assert(sections@ + Seq::<char>::empty() =~= sections@);
        }
        i += 1;
    }
    let mut out = String::from_str("# Security Assessment Summary Report\nGenerated: ");
    out.append(date.as_str());
    out.append("\n\n## Findings Overview\n| Severity | Count |\n|----------|-------|\n");
    out.append(rows.as_str());
    out.append("| **Total**    | **");
    out.append(decimal_string(findings.len() as u128).as_str());
    out.append("** |\n\n");
    out.append(sections.as_str());
    Some(out)
}

} // verus!
