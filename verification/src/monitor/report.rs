//! The order of severities and the report of all findings of the registry.

use crate::clock::format_utc;
use crate::clock::utc_format;
use crate::clock::Timestamp;
use crate::monitor::model::CommandView;
use crate::monitor::model::FindingSeverity;
use crate::monitor::model::FindingView;
use crate::monitor::model::MonitoredCommand;
use crate::monitor::model::SecurityFinding;
use crate::monitor::registry::CommandMonitor;
use crate::seqs::option_view;
use crate::seqs::views;
use crate::text::decimal;
use crate::text::decimal_string;
use vstd::prelude::*;

verus! {

impl FindingSeverity {
    /// The place of the severity in a report: the gravest comes first.
    pub open spec fn rank(self) -> nat {
        match self {
            FindingSeverity::Critical => 0,
            FindingSeverity::High => 1,
            FindingSeverity::Medium => 2,
            FindingSeverity::Low => 3,
            FindingSeverity::Info => 4,
        }
    }

    /// Whether `self` comes before `other` in a report.
    pub open spec fn spec_precedes(self, other: FindingSeverity) -> bool {
        self.rank() < other.rank()
    }

    /// The name of the severity, as a report writes it.
    pub open spec fn name(self) -> Seq<char> {
        match self {
            FindingSeverity::Critical => "Critical"@,
            FindingSeverity::High => "High"@,
            FindingSeverity::Medium => "Medium"@,
            FindingSeverity::Low => "Low"@,
            FindingSeverity::Info => "Info"@,
        }
    }

    /// The place of the severity in a report: the gravest comes first.
    pub fn report_rank(&self) -> (r: u8)
        ensures
            r == self.rank(),
    {
        match self {
            FindingSeverity::Critical => 0,
            FindingSeverity::High => 1,
            FindingSeverity::Medium => 2,
            FindingSeverity::Low => 3,
            FindingSeverity::Info => 4,
        }
    }

    /// Whether `self` comes before `other` in a report.
    #[verifier::when_used_as_spec(spec_precedes)]
    pub fn precedes(self, other: FindingSeverity) -> (r: bool)
        ensures
            r == self.spec_precedes(other),
    {
        self.report_rank() < other.report_rank()
    }

    /// The name of the severity, as a report writes it.
    pub fn label(&self) -> (r: &'static str)
        ensures
            r@ == self.name(),
    {
        match self {
            FindingSeverity::Critical => "Critical",
            FindingSeverity::High => "High",
            FindingSeverity::Medium => "Medium",
            FindingSeverity::Low => "Low",
            FindingSeverity::Info => "Info",
        }
    }
}

/// The severities in the order of a report.
pub open spec fn report_order() -> Seq<FindingSeverity> {
    seq![
        FindingSeverity::Critical,
        FindingSeverity::High,
        FindingSeverity::Medium,
        FindingSeverity::Low,
        FindingSeverity::Info,
    ]
}

/// Of two severities exactly one holds: the first comes before the second,
/// they are the same, or the second comes before the first.
pub proof fn law_severity_order_is_total(a: FindingSeverity, b: FindingSeverity)
    ensures
        a.spec_precedes(b) || a == b || b.spec_precedes(a),
        !(a.spec_precedes(b) && a == b),
        !(a.spec_precedes(b) && b.spec_precedes(a)),
        !(a == b && b.spec_precedes(a)),
{
}

/// The order of severities is transitive.
pub proof fn law_severity_order_is_transitive(
    a: FindingSeverity,
    b: FindingSeverity,
    c: FindingSeverity,
)
    requires
        a.spec_precedes(b),
        b.spec_precedes(c),
    ensures
        a.spec_precedes(c),
{
}

/// In a report, Critical comes before High, High before Medium, Medium
/// before Low and Low before Info; the report order lists every severity
/// once, each before the ones it precedes.
pub proof fn law_report_order()
    ensures
        FindingSeverity::Critical.spec_precedes(FindingSeverity::High),
        FindingSeverity::High.spec_precedes(FindingSeverity::Medium),
        FindingSeverity::Medium.spec_precedes(FindingSeverity::Low),
        FindingSeverity::Low.spec_precedes(FindingSeverity::Info),
        forall|s: FindingSeverity| report_order()[s.rank() as int] == s,
        forall|i: int, j: int|
            0 <= i < j < report_order().len() ==> report_order()[i].spec_precedes(
                report_order()[j],
            ),
{
}

/// The pattern of the dates in a report.
pub const REPORT_DATE: &'static str = "%Y-%m-%d %H:%M:%S UTC";

/// What the report says of one finding of the command line `command`;
/// `None` where the time of the finding cannot be written.
pub open spec fn finding_entry(f: FindingView, command: Seq<char>) -> Option<Seq<char>> {
    match utc_format(f.timestamp.secs, f.timestamp.nanos, REPORT_DATE@) {
        Some(date) => Some(
            "### "@ + f.title + "\n**ID:** "@ + f.id + "\n**Description:** "@ + f.description
                + "\n**Command:** "@ + command + "\n**Discovered:** "@ + date
                + "\n**Raw Output:**\n```\n"@ + f.raw_output + "\n```\n\n"@,
        ),
        None => None,
    }
}

/// The entries of the first `upto` findings of `fs` that have the severity
/// `severity`, one after the other, and their number.
pub open spec fn finding_entries(
    fs: Seq<FindingView>,
    command: Seq<char>,
    severity: FindingSeverity,
    upto: int,
) -> Option<(Seq<char>, nat)>
    decreases upto,
{
    if upto <= 0 {
        Some((Seq::empty(), 0))
    } else {
        match finding_entries(fs, command, severity, upto - 1) {
            Some((text, count)) => if fs[upto - 1].severity == severity {
                match finding_entry(fs[upto - 1], command) {
                    Some(entry) => Some((text + entry, count + 1)),
                    None => None,
                }
            } else {
                Some((text, count))
            },
            None => None,
        }
    }
}

/// The entries of the findings with the severity `severity` of the first
/// `upto` commands of `cs`, one after the other, and their number.
pub open spec fn section_entries(cs: Seq<CommandView>, severity: FindingSeverity, upto: int) -> Option<
    (Seq<char>, nat),
>
    decreases upto,
{
    if upto <= 0 {
        Some((Seq::empty(), 0))
    } else {
        match section_entries(cs, severity, upto - 1) {
            Some((text, count)) => {
                let c = cs[upto - 1];
                match finding_entries(c.findings, c.command, severity, c.findings.len() as int) {
                    Some((more, n)) => Some((text + more, count + n)),
                    None => None,
                }
            },
            None => None,
        }
    }
}

/// The section of the report for one severity: nothing where no finding has
/// it, else a heading with the number of findings and their entries.
pub open spec fn section(cs: Seq<CommandView>, severity: FindingSeverity) -> Option<Seq<char>> {
    match section_entries(cs, severity, cs.len() as int) {
        Some((text, count)) => if count == 0 {
            Some(Seq::empty())
        } else {
            Some("## "@ + severity.name() + " Findings ("@ + decimal(count) + ")\n"@ + text + "\n"@)
        },
        None => None,
    }
}

/// The sections of the first `upto` severities of the report order.
pub open spec fn sections(cs: Seq<CommandView>, upto: int) -> Option<Seq<char>>
    decreases upto,
{
    if upto <= 0 {
        Some(Seq::empty())
    } else {
        match (sections(cs, upto - 1), section(cs, report_order()[upto - 1])) {
            (Some(before), Some(this)) => Some(before + this),
            _ => None,
        }
    }
}

/// The report of all findings of the registry `cs`, written at `generated`:
/// a heading, then one section for each severity that has findings, the
/// gravest first. `None` where a time cannot be written.
pub open spec fn findings_report(cs: Seq<CommandView>, generated: Timestamp) -> Option<Seq<char>> {
    match (
        utc_format(generated.secs, generated.nanos, REPORT_DATE@),
        sections(cs, report_order().len() as int),
    ) {
        (Some(date), Some(body)) => Some(
            "# Security Findings Report\nGenerated: "@ + date + "\n\n"@ + body,
        ),
        _ => None,
    }
}

/// What the report says of one finding.
fn entry_of(f: &SecurityFinding, command: &str) -> (r: Option<String>)
    ensures
        option_view(r) == finding_entry(f@, command@),
{
    let date = match format_utc(f.timestamp, REPORT_DATE) {
        Some(date) => date,
        None => {
            return None;
        },
    };
    let mut out = String::from_str("### ");
    out.append(f.title.as_str());
    out.append("\n**ID:** ");
    out.append(f.id.as_str());
    out.append("\n**Description:** ");
    out.append(f.description.as_str());
    out.append("\n**Command:** ");
    out.append(command);
    out.append("\n**Discovered:** ");
    out.append(date.as_str());
    out.append("\n**Raw Output:**\n```\n");
    out.append(f.raw_output.as_str());
    out.append("\n```\n\n");
    Some(out)
}

/// The entries of the findings of one command that have the severity `severity`.
fn entries_of_command(c: &MonitoredCommand, severity: FindingSeverity) -> (r: Option<
    (String, usize),
>)
    ensures
        match r {
            Some((text, count)) => finding_entries(
                c@.findings,
                c@.command,
                severity,
                c@.findings.len() as int,
            ) == Some((text@, count as nat)),
            None => finding_entries(c@.findings, c@.command, severity, c@.findings.len() as int)
                is None,
        },
{
    let mut text = String::new();
    let mut count: usize = 0;
    let mut i: usize = 0;
    while i < c.findings.len()
        invariant
            i <= c.findings.len(),
            count <= i,
            finding_entries(c@.findings, c@.command, severity, i as int) == Some(
                (text@, count as nat),
            ),
        decreases c.findings.len() - i,
    {
        assert(c@.findings[i as int] == c.findings@[i as int]@);
        if c.findings[i].severity == severity {
            match entry_of(&c.findings[i], c.command.as_str()) {
                Some(entry) => {
                    text.append(entry.as_str());
                    count += 1;
                },
                None => {
                    proof {
                        lemma_finding_entries_stay_none(
                            c@.findings,
                            c@.command,
                            severity,
                            i + 1,
                            c@.findings.len() as int,
                        );
                    }
                    return None;
                },
            }
        }
        i += 1;
    }
    Some((text, count))
}

/// Once the entries of a prefix cannot be written, those of a longer prefix cannot either.
pub proof fn lemma_finding_entries_stay_none(
    fs: Seq<FindingView>,
    command: Seq<char>,
    severity: FindingSeverity,
    k: int,
    n: int,
)
    requires
        0 <= k <= n,
        finding_entries(fs, command, severity, k) is None,
    ensures
        finding_entries(fs, command, severity, n) is None,
    decreases n - k,
{
    if k < n {
        lemma_finding_entries_stay_none(fs, command, severity, k, n - 1);
    }
}

/// Once the entries of a prefix cannot be written, those of a longer prefix cannot either.
pub proof fn lemma_section_entries_stay_none(
    cs: Seq<CommandView>,
    severity: FindingSeverity,
    k: int,
    n: int,
)
    requires
        0 <= k <= n,
        section_entries(cs, severity, k) is None,
    ensures
        section_entries(cs, severity, n) is None,
    decreases n - k,
{
    if k < n {
        lemma_section_entries_stay_none(cs, severity, k, n - 1);
    }
}

/// The number of entries of a section is at most the number of findings
/// read, so it fits where every list of findings fits.
pub proof fn lemma_finding_entries_count(
    fs: Seq<FindingView>,
    command: Seq<char>,
    severity: FindingSeverity,
    n: int,
)
    requires
        0 <= n,
    ensures
        finding_entries(fs, command, severity, n) matches Some((_, count)) ==> count <= n,
    decreases n,
{
    if n > 0 {
        lemma_finding_entries_count(fs, command, severity, n - 1);
    }
}

/// The section of the report for one severity.
fn section_of(commands: &Vec<MonitoredCommand>, severity: FindingSeverity) -> (r: Option<String>)
    ensures
        option_view(r) == section(views(commands@), severity),
{
    let ghost cs = views(commands@);
    let mut text = String::new();
    let mut count: u128 = 0;
    let mut i: usize = 0;
    while i < commands.len()
        invariant
            i <= commands.len(),
            cs == views(commands@),
            count <= i * 0xFFFF_FFFF_FFFF_FFFF,
            section_entries(cs, severity, i as int) == Some((text@, count as nat)),
        decreases commands.len() - i,
    {
        assert(cs[i as int] == commands@[i as int]@);
        match entries_of_command(&commands[i], severity) {
            Some((more, n)) => {
                proof {
                    lemma_finding_entries_count(
                        cs[i as int].findings,
                        cs[i as int].command,
                        severity,
                        cs[i as int].findings.len() as int,
                    );
                    assert((i + 1) * 0xFFFF_FFFF_FFFF_FFFF == i * 0xFFFF_FFFF_FFFF_FFFF
                        + 0xFFFF_FFFF_FFFF_FFFF) by (nonlinear_arith);
                    assert((i + 1) * 0xFFFF_FFFF_FFFF_FFFF <= 0xFFFF_FFFF_FFFF_FFFF
                        * 0xFFFF_FFFF_FFFF_FFFF) by (nonlinear_arith)
                        requires
                            i + 1 <= 0xFFFF_FFFF_FFFF_FFFF,
                    ;
                }
                text.append(more.as_str());
                count += n as u128;
            },
            None => {
                proof {
                    lemma_section_entries_stay_none(cs, severity, i + 1, commands@.len() as int);
                }
                return None;
            },
        }
        i += 1;
    }
    if count == 0 {
        return Some(String::new());
    }
    let mut out = String::from_str("## ");
    out.append(severity.label());
    out.append(" Findings (");
    out.append(decimal_string(count).as_str());
    out.append(")\n");
    out.append(text.as_str());
    out.append("\n");
    Some(out)
}

fn report_order_list() -> (v: Vec<FindingSeverity>)
    ensures
        v@ == report_order(),
{
    let v = vec![
        FindingSeverity::Critical,
        FindingSeverity::High,
        FindingSeverity::Medium,
        FindingSeverity::Low,
        FindingSeverity::Info,
    ];
    assert(v@ =~= report_order());
    v
}

/// The report of all findings in `commands`, written at `generated`.
pub fn render_findings_report(commands: &Vec<MonitoredCommand>, generated: Timestamp) -> (r: Option<
    String,
>)
    ensures
        option_view(r) == findings_report(views(commands@), generated),
{
    let ghost cs = views(commands@);
    let date = match format_utc(generated, REPORT_DATE) {
        Some(date) => date,
        None => {
            return None;
        },
    };
    let order = report_order_list();
    let mut body = String::new();
    let mut i: usize = 0;
    while i < order.len()
        invariant
            i <= order.len(),
            order@ == report_order(),
            cs == views(commands@),
            sections(cs, i as int) == Some(body@),
        decreases order.len() - i,
    {
        match section_of(commands, order[i]) {
            Some(text) => {
                body.append(text.as_str());
            },
            None => {
                proof {
                    lemma_sections_stay_none(cs, i + 1, order@.len() as int);
                }
                return None;
            },
        }
        i += 1;
    }
    let mut out = String::from_str("# Security Findings Report\nGenerated: ");
    out.append(date.as_str());
    out.append("\n\n");
    out.append(body.as_str());
    Some(out)
}

/// Once the sections of a prefix cannot be written, those of a longer prefix cannot either.
pub proof fn lemma_sections_stay_none(cs: Seq<CommandView>, k: int, n: int)
    requires
        0 <= k <= n,
        sections(cs, k) is None,
    ensures
        sections(cs, n) is None,
    decreases n - k,
{
    if k < n {
        lemma_sections_stay_none(cs, k, n - 1);
    }
}

impl CommandMonitor {
    /// The report of all findings of the registry, written at `generated`:
    /// one section for each severity that has findings, the gravest first.
    /// `None` where a time cannot be written.
    pub fn generate_findings_report(&self, generated: Timestamp) -> (r: Option<String>)
        ensures
            option_view(r) == findings_report(self@, generated),
    {
        let commands = self.get_all_commands();
        render_findings_report(&commands, generated)
    }
}

} // verus!
