//! Open ports in the output of a port scan.

use crate::analyzer::draft::Analysis;
use crate::analyzer::draft::AnalysisView;
use crate::analyzer::draft::DraftView;
use crate::analyzer::draft::FindingDraft;
use crate::analyzer::scan::all_line_matches;
use crate::analyzer::scan::match_lines;
use crate::analyzer::scan::LineMatch;
use crate::analyzer::scan::LineMatchView;
use crate::monitor::model::FindingSeverity;
use crate::pattern::Groups;
use crate::seqs::lemma_views_push;
use crate::seqs::views;
use crate::text::decimal;
use crate::text::decimal_string;
use crate::text::join;
use crate::text::lines;
use crate::text::str_join;
use crate::text::str_lines;
use vstd::prelude::*;

verus! {

/// A line of a port table that reports an open port: the port number, the
/// protocol, the word `open` and the service.
pub const OPEN_PORT_LINE: &'static str = r"(\d+)/(?:tcp|udp)\s+open\s+(\S+)";

/// The heading of a port table.
pub const PORT_TABLE_HEADING: &'static str = r"PORT\s+STATE\s+SERVICE(?:\s+VERSION)?";

/// The patterns that the output of a port scan is read with.
pub open spec fn port_patterns() -> Seq<Seq<char>> {
    seq![OPEN_PORT_LINE@, PORT_TABLE_HEADING@]
}

/// An open port and the service behind it, empty where none was named.
#[derive(Debug)]
pub struct OpenPort {
    pub port: String,
    pub service: String,
}

/// The view of an `OpenPort`.
pub struct OpenPortView {
    pub port: Seq<char>,
    pub service: Seq<char>,
}

impl View for OpenPort {
    type V = OpenPortView;

    open spec fn view(&self) -> OpenPortView {
        OpenPortView { port: self.port@, service: self.service@ }
    }
}

/// The open port that the groups of a match show: group 1 is the port, and
/// group 2, where there is one, the service.
pub open spec fn port_entry(groups: Seq<Option<Seq<char>>>) -> Option<OpenPortView> {
    if groups.len() > 1 && groups[1] is Some {
        Some(
            OpenPortView {
                port: groups[1].unwrap(),
                service: if groups.len() > 2 && groups[2] is Some {
                    groups[2].unwrap()
                } else {
                    Seq::empty()
                },
            },
        )
    } else {
        None
    }
}

/// The open ports that the first `upto` matches show, in order.
pub open spec fn open_ports(ms: Seq<LineMatchView>, upto: int) -> Seq<OpenPortView>
    decreases upto,
{
    if upto <= 0 {
        Seq::empty()
    } else {
        match port_entry(ms[upto - 1].groups) {
            Some(p) => open_ports(ms, upto - 1).push(p),
            None => open_ports(ms, upto - 1),
        }
    }
}

/// How a report names an open port.
pub open spec fn port_label(p: OpenPortView) -> Seq<char> {
    if p.service.len() == 0 {
        "Port "@ + p.port
    } else {
        "Port "@ + p.port + " ("@ + p.service + ")"@
    }
}

/// The names of the open ports, separated by commas.
pub open spec fn port_list(ports: Seq<OpenPortView>) -> Seq<char> {
    join(Seq::new(ports.len(), |i: int| port_label(ports[i])), ", "@)
}

/// What a list of open ports amounts to: nothing where it is empty, else
/// one finding that lists them, with the output as evidence, and a summary.
pub open spec fn ports_analysis(ports: Seq<OpenPortView>, context: Seq<char>) -> AnalysisView {
    if ports.len() == 0 {
        AnalysisView::nothing()
    } else {
        AnalysisView {
            drafts: seq![
                DraftView {
                    title: "Open Ports Detected"@,
                    description: "The following ports were found open: "@ + port_list(ports),
                    severity: FindingSeverity::Info,
                    raw_output: context,
                },
            ],
            summary: Some(
                "Detected "@ + decimal(ports.len()) + " open ports: "@ + port_list(ports),
            ),
        }
    }
}

/// What the output `context` of a port scan amounts to.
pub open spec fn port_scan_analysis(context: Seq<char>) -> AnalysisView {
    let ms = all_line_matches(lines(context), port_patterns(), lines(context).len() as int);
    ports_analysis(open_ports(ms, ms.len() as int), context)
}

/// The open port that the groups of a match show.
pub fn port_entry_of(groups: &Groups) -> (r: Option<OpenPort>)
    ensures
        crate::seqs::option_view(r) == port_entry(groups@),
{
    if groups.len() > 1 {
        match groups.get(1) {
            Some(port) => {
                let service = match groups.get(2) {
                    Some(service) => service.clone(),
                    None => String::new(),
                };
                Some(OpenPort { port: port.clone(), service })
            },
            None => None,
        }
    } else {
        None
    }
}

/// The open ports that a list of matches shows, in order.
pub fn ports_found(matches: &Vec<LineMatch>) -> (r: Vec<OpenPort>)
    ensures
        views(r@) == open_ports(views(matches@), matches@.len() as int),
{
    let mut out: Vec<OpenPort> = Vec::new();
    let mut i: usize = 0;
    assert(views(out@) =~= Seq::<OpenPortView>::empty());
    while i < matches.len()
        invariant
            i <= matches.len(),
            views(out@) == open_ports(views(matches@), i as int),
        decreases matches.len() - i,
    {
        assert(views(matches@)[i as int] == matches@[i as int]@);
        match port_entry_of(&matches[i].groups) {
            Some(p) => {
                proof {
                    lemma_views_push(out@, p);
                }
                out.push(p);
            },
            None => {},
        }
        i += 1;
    }
    out
}

/// The names of the open ports, separated by commas.
pub fn list_ports(ports: &Vec<OpenPort>) -> (r: String)
    ensures
        r@ == port_list(views(ports@)),
{
    let mut labels: Vec<String> = Vec::new();
    let mut i: usize = 0;
    while i < ports.len()
        invariant
            i <= ports.len(),
            labels@.len() == i,
            forall|k: int| 0 <= k < i ==> (#[trigger] labels@[k])@ == port_label(ports@[k]@),
        decreases ports.len() - i,
    {
        let mut label = String::from_str("Port ");
        label.append(ports[i].port.as_str());
        if ports[i].service.as_str().unicode_len() > 0 {
            label.append(" (");
            label.append(ports[i].service.as_str());
            label.append(")");
        }
        labels.push(label);
        i += 1;
    }
    assert(views(labels@) =~= Seq::new(
        views(ports@).len(),
        |i: int| port_label(views(ports@)[i]),
    ));
    str_join(&labels, ", ")
}

/// What a list of open ports amounts to, with `context` as evidence.
pub fn describe_ports(ports: &Vec<OpenPort>, context: &str) -> (r: Analysis)
    ensures
        r@ == ports_analysis(views(ports@), context@),
{
    if ports.len() == 0 {
        let r = Analysis { drafts: Vec::new(), summary: None };
        assert(r@.drafts =~= Seq::<DraftView>::empty());
        return r;
    }
    let list = list_ports(ports);
    let mut description = String::from_str("The following ports were found open: ");
    description.append(list.as_str());
    let mut summary = String::from_str("Detected ");
    summary.append(decimal_string(ports.len() as u128).as_str());
    summary.append(" open ports: ");
    summary.append(list.as_str());
    let draft = FindingDraft {
        title: String::from_str("Open Ports Detected"),
        description,
        severity: FindingSeverity::Info,
        raw_output: String::from_str(context),
    };
    let mut drafts: Vec<FindingDraft> = Vec::new();
    drafts.push(draft);
    let r = Analysis { drafts, summary: Some(summary) };
    assert(r@.drafts =~= seq![draft@]);
    r
}

fn port_pattern_list() -> (v: Vec<&'static str>)
    ensures
        views(v@) == port_patterns(),
{
    let v = vec![OPEN_PORT_LINE, PORT_TABLE_HEADING];
    assert(views(v@) =~= port_patterns());
    v
}

/// Reads the output `context` of a port scan: the open ports that its lines
/// report become one finding, and a summary.
pub fn analyze_port_scan(context: &str) -> (r: Analysis)
    ensures
        r@ == port_scan_analysis(context@),
{
    let lines = str_lines(context);
    let patterns = port_pattern_list();
    let matches = match_lines(&lines, &patterns);
    let ports = ports_found(&matches);
    describe_ports(&ports, context)
}

} // verus!
