//! The analyzer proper: it keeps the output of each command, decides when a
//! command is due for analysis, and attaches what the analysis finds.

use crate::analyzer::draft::Analysis;
use crate::analyzer::draft::AnalysisView;
use crate::analyzer::draft::DraftView;
use crate::analyzer::paths::analyze_paths;
use crate::analyzer::paths::path_analysis;
use crate::analyzer::ports::analyze_port_scan;
use crate::analyzer::ports::port_scan_analysis;
use crate::analyzer::subdomains::analyze_subdomains;
use crate::analyzer::subdomains::subdomain_analysis;
use crate::analyzer::vulnerabilities::analyze_vulnerabilities;
use crate::analyzer::vulnerabilities::vulnerability_analysis;
use crate::ident::is_uuid_text;
use crate::monitor::model::CommandOutput;
use crate::monitor::model::CommandType;
use crate::monitor::model::CommandView;
use crate::monitor::model::FindingView;
use crate::monitor::model::SecurityFinding;
use crate::monitor::registry::after_finding;
use crate::monitor::registry::after_summary;
use crate::monitor::registry::create_finding;
use crate::monitor::registry::lookup;
use crate::monitor::registry::CommandMonitor;
use crate::seqs::lemma_views_push;
use crate::seqs::option_view;
use crate::seqs::views;
use crate::text::join;
use crate::text::str_eq;
use crate::text::str_join;
use vstd::prelude::*;

verus! {

/// The time that passes between two analyses of the output of one command,
/// in nanoseconds.
pub const ANALYSIS_INTERVAL_NANOS: u128 = 5_000_000_000;

/// What the analyzer keeps of one command: the lines that it wrote, and the
/// tick of the monotonic clock at which its output was last analyzed.
#[derive(Debug)]
pub struct OutputTrack {
    pub command_id: String,
    pub lines: Vec<String>,
    pub last_analyzed: Option<u128>,
}

/// The view of an `OutputTrack`.
pub struct TrackView {
    pub command_id: Seq<char>,
    pub lines: Seq<Seq<char>>,
    pub last_analyzed: Option<u128>,
}

impl View for OutputTrack {
    type V = TrackView;

    open spec fn view(&self) -> TrackView {
        TrackView {
            command_id: self.command_id@,
            lines: views(self.lines@),
            last_analyzed: self.last_analyzed,
        }
    }
}

/// The least index at or after `from` of the track of the command `id`.
pub open spec fn track_from(ts: Seq<TrackView>, id: Seq<char>, from: int) -> Option<int>
    decreases ts.len() - from,
{
    if from < 0 || from >= ts.len() {
        None
    } else if ts[from].command_id == id {
        Some(from)
    } else {
        track_from(ts, id, from + 1)
    }
}

/// The track of the command `id`.
pub open spec fn track_of(ts: Seq<TrackView>, id: Seq<char>) -> Option<TrackView> {
    match track_from(ts, id, 0) {
        Some(i) => Some(ts[i]),
        None => None,
    }
}

/// No command has two tracks.
pub open spec fn tracks_wf(ts: Seq<TrackView>) -> bool {
    forall|i: int, j: int|
        0 <= i < j < ts.len() ==> (#[trigger] ts[i]).command_id != (#[trigger] ts[j]).command_id
}

/// The tracks after the command `id` has written `line`: the line is added
/// to the track of the command, which is begun where there was none.
pub open spec fn with_line(ts: Seq<TrackView>, id: Seq<char>, line: Seq<char>) -> Seq<TrackView> {
    match track_from(ts, id, 0) {
        Some(i) => ts.update(i, TrackView { lines: ts[i].lines.push(line), ..ts[i] }),
        None => ts.push(TrackView { command_id: id, lines: seq![line], last_analyzed: None }),
    }
}

/// The tracks after the output of the command `id` has been analyzed at `now`.
pub open spec fn marked(ts: Seq<TrackView>, id: Seq<char>, now: u128) -> Seq<TrackView> {
    match track_from(ts, id, 0) {
        Some(i) => ts.update(i, TrackView { last_analyzed: Some(now), ..ts[i] }),
        None => ts,
    }
}

/// Whether the output of a command is due for analysis at the tick `now`:
/// it is where it was never analyzed, or more than five seconds ago.
pub open spec fn analysis_due(last: Option<u128>, now: u128) -> bool {
    match last {
        Some(at) => now > at && now - at > ANALYSIS_INTERVAL_NANOS,
        None => true,
    }
}

/// What the output `context` of a command of type `command_type` amounts to.
///
/// Reconnaissance is read for open ports and for subdomains, scanning and
/// vulnerability assessment for vulnerabilities, and every other type for
/// all of these and for paths.
pub open spec fn output_analysis(command_type: CommandType, context: Seq<char>) -> AnalysisView {
    match command_type {
        CommandType::Reconnaissance => port_scan_analysis(context).followed_by(
            subdomain_analysis(context),
        ),
        CommandType::Scanning => vulnerability_analysis(context),
        CommandType::Vulnerability => vulnerability_analysis(context),
        _ => port_scan_analysis(context).followed_by(vulnerability_analysis(context)).followed_by(
            subdomain_analysis(context),
        ).followed_by(path_analysis(context)),
    }
}

/// What the analysis of the command `id` amounts to, given the registry and
/// the tracks: nothing for a command that the registry does not hold or
/// that wrote nothing, else what its lines, joined, amount to.
pub open spec fn command_analysis(cs: Seq<CommandView>, ts: Seq<TrackView>, id: Seq<char>) -> AnalysisView {
    match (lookup(cs, id), track_of(ts, id)) {
        (Some(c), Some(t)) => if t.lines.len() == 0 {
            AnalysisView::nothing()
        } else {
            output_analysis(c.command_type, join(t.lines, "\n"@))
        },
        _ => AnalysisView::nothing(),
    }
}

/// The finding `f` is the draft `d` attached to the command `command_id`
/// under a fresh identifier.
pub open spec fn realizes(f: FindingView, d: DraftView, command_id: Seq<char>) -> bool {
    &&& is_uuid_text(f.id)
    &&& f.title == d.title
    &&& f.description == d.description
    &&& f.severity == d.severity
    &&& f.raw_output == d.raw_output
    &&& f.command_id == command_id
}

/// Each finding is the draft at its place, attached to `command_id`.
pub open spec fn realize_all(fs: Seq<FindingView>, ds: Seq<DraftView>, command_id: Seq<char>) -> bool {
    &&& fs.len() == ds.len()
    &&& forall|i: int| 0 <= i < fs.len() ==> realizes(#[trigger] fs[i], ds[i], command_id)
}

/// The registry after the first `upto` findings of `fs` have been attached, in order.
pub open spec fn with_findings(cs: Seq<CommandView>, fs: Seq<FindingView>, upto: int) -> Seq<
    CommandView,
>
    decreases upto,
{
    if upto <= 0 {
        cs
    } else {
        after_finding(with_findings(cs, fs, upto - 1), fs[upto - 1])
    }
}

/// The registry after the findings `fs` have been attached and the summary
/// of the command `id` has been set, where there is one.
pub open spec fn attached(
    cs: Seq<CommandView>,
    id: Seq<char>,
    fs: Seq<FindingView>,
    summary: Option<Seq<char>>,
) -> Seq<CommandView> {
    let with = with_findings(cs, fs, fs.len() as int);
    match summary {
        Some(s) => after_summary(with, id, s),
        None => with,
    }
}

impl Analysis {
    /// The analysis that found nothing.
    pub fn nothing() -> (r: Analysis)
        ensures
            r@ == AnalysisView::nothing(),
    {
        let r = Analysis { drafts: Vec::new(), summary: None };
        assert(r@.drafts =~= Seq::<DraftView>::empty());
        r
    }

    /// This analysis followed by `next`.
    pub fn followed_by(self, next: Analysis) -> (r: Analysis)
        ensures
            r@ == self@.followed_by(next@),
    {
        let Analysis { drafts: mut drafts, summary: first } = self;
        let Analysis { drafts: mut more, summary: second } = next;
        let ghost a = drafts@;
        let ghost b = more@;
        drafts.append(&mut more);
        assert(views(a + b) =~= views(a) + views(b));
        let summary = match second {
            Some(s) => Some(s),
            None => first,
        };
        Analysis { drafts, summary }
    }
}

/// Reads the output `context` of a command of type `command_type`.
pub fn analyze_output(command_type: CommandType, context: &str) -> (r: Analysis)
    ensures
        r@ == output_analysis(command_type, context@),
{
    match command_type {
        CommandType::Reconnaissance => analyze_port_scan(context).followed_by(analyze_subdomains(context)),
        CommandType::Scanning => analyze_vulnerabilities(context),
        CommandType::Vulnerability => analyze_vulnerabilities(context),
        _ => analyze_port_scan(context).followed_by(analyze_vulnerabilities(context)).followed_by(
            analyze_subdomains(context),
        ).followed_by(analyze_paths(context)),
    }
}

/// Attaches what an analysis found to the command `command_id`: each draft
/// becomes a finding of the command with a fresh identifier and the time
/// that the clock shows, and the summary, where there is one, is set.
/// Returns the findings, in order, for whoever documents them.
pub fn attach(monitor: &mut CommandMonitor, command_id: &str, analysis: Analysis) -> (r: Vec<
    SecurityFinding,
>)
    ensures
        realize_all(views(r@), analysis@.drafts, command_id@),
        final(monitor)@ == attached(old(monitor)@, command_id@, views(r@), analysis@.summary),
{
    let Analysis { drafts, summary } = analysis;
    let mut out: Vec<SecurityFinding> = Vec::new();
    let mut i: usize = 0;
    while i < drafts.len()
        invariant
            i <= drafts.len(),
            out@.len() == i,
            forall|k: int|
                0 <= k < i ==> realizes(#[trigger] views(out@)[k], views(drafts@)[k], command_id@),
            monitor@ == with_findings(old(monitor)@, views(out@), i as int),
        decreases drafts.len() - i,
    {
        let d = &drafts[i];
        let finding = create_finding(
            d.title.as_str(),
            d.description.as_str(),
            d.severity,
            command_id,
            d.raw_output.as_str(),
        );
        let kept = finding.clone();
        proof {
            lemma_views_push(out@, kept);
            lemma_with_findings_prefix(old(monitor)@, views(out@), views(out@.push(kept)), i as int);
        }
        monitor.add_finding(finding);
        out.push(kept);
        i += 1;
    }
    match summary {
        Some(s) => {
            let _ = monitor.update_command_summary(command_id, s.as_str());
        },
        None => {},
    }
    out
}

/// Attaching findings reads only the findings attached.
pub proof fn lemma_with_findings_prefix(
    cs: Seq<CommandView>,
    a: Seq<FindingView>,
    b: Seq<FindingView>,
    n: int,
)
    requires
        0 <= n <= a.len(),
        n <= b.len(),
        forall|k: int| 0 <= k < n ==> a[k] == b[k],
    ensures
        with_findings(cs, a, n) == with_findings(cs, b, n),
    decreases n,
{
    if n > 0 {
        lemma_with_findings_prefix(cs, a, b, n - 1);
    }
}

/// The index of the track of the command `id`.
fn track_position(tracks: &Vec<OutputTrack>, id: &str) -> (r: Option<usize>)
    ensures
        match r {
            Some(i) => i < tracks@.len() && track_from(views(tracks@), id@, 0) == Some(i as int)
                && tracks@[i as int].command_id@ == id@,
            None => track_from(views(tracks@), id@, 0) is None,
        },
{
    let mut i: usize = 0;
    while i < tracks.len()
        invariant
            i <= tracks.len(),
            track_from(views(tracks@), id@, 0) == track_from(views(tracks@), id@, i as int),
        decreases tracks.len() - i,
    {
        if str_eq(tracks[i].command_id.as_str(), id) {
            return Some(i);
        }
        i += 1;
    }
    None
}

/// A track that `track_from` finds not is the track of no index at or after `from`.
pub proof fn lemma_track_from_none(ts: Seq<TrackView>, id: Seq<char>, from: int)
    requires
        0 <= from,
        track_from(ts, id, from) is None,
    ensures
        forall|j: int| from <= j < ts.len() ==> (#[trigger] ts[j]).command_id != id,
    decreases ts.len() - from,
{
    if from < ts.len() {
        lemma_track_from_none(ts, id, from + 1);
    }
}

/// Whether the output of a command is due for analysis at the tick `now`.
pub fn should_analyze(last: Option<u128>, now: u128) -> (r: bool)
    ensures
        r == analysis_due(last, now),
{
    match last {
        Some(at) => now > at && now - at > ANALYSIS_INTERVAL_NANOS,
        None => true,
    }
}

/// The analyzer of command output.
pub struct OutputAnalyzer {
    tracks: Vec<OutputTrack>,
    running: bool,
}

impl View for OutputAnalyzer {
    type V = Seq<TrackView>;

    closed spec fn view(&self) -> Seq<TrackView> {
        views(self.tracks@)
    }
}

impl OutputAnalyzer {
    #[verifier::type_invariant]
    spec fn well_formed(self) -> bool {
        tracks_wf(views(self.tracks@))
    }

    /// Whether the analyzer is at work.
    pub closed spec fn is_running(&self) -> bool {
        self.running
    }

    /// An analyzer that has seen no output and is not at work.
    pub fn new() -> (r: Self)
        ensures
            r@ == Seq::<TrackView>::empty(),
            !r.is_running(),
    {
        let r = OutputAnalyzer { tracks: Vec::new(), running: false };
        assert(r@ =~= Seq::<TrackView>::empty());
        r
    }

    /// Puts the analyzer to work. Returns whether it was idle: an analyzer
    /// that is at work already is not started twice.
    pub fn start(&mut self) -> (r: bool)
        ensures
            r == !old(self).is_running(),
            final(self).is_running(),
            final(self)@ == old(self)@,
    {
        proof {
            use_type_invariant(&*self);
        }
        let was_idle = !self.running;
        self.running = true;
        was_idle
    }

    /// Marks the analyzer as idle, once its source of output has run dry.
    pub fn stop(&mut self)
        ensures
            !final(self).is_running(),
            final(self)@ == old(self)@,
    {
        proof {
            use_type_invariant(&*self);
        }
        self.running = false;
    }

    /// The lines kept of the command `command_id`, joined by line feeds;
    /// `None` where none were kept.
    pub fn context_of(&self, command_id: &str) -> (r: Option<String>)
        ensures
            option_view(r) == match track_of(self@, command_id@) {
                Some(t) => if t.lines.len() == 0 {
                    None
                } else {
                    Some(join(t.lines, "\n"@))
                },
                None => None,
            },
    {
        match track_position(&self.tracks, command_id) {
            Some(i) => {
                if self.tracks[i].lines.len() == 0 {
                    None
                } else {
                    Some(str_join(&self.tracks[i].lines, "\n"))
                }
            },
            None => None,
        }
    }

    /// Analyzes what is kept of the output of the command `command_id` and
    /// attaches what it finds to the command. Returns the findings, in
    /// order, for whoever documents them; each of them names a command of
    /// the registry.
    pub fn analyze_command_output(&self, monitor: &mut CommandMonitor, command_id: &str) -> (r: Vec<
        SecurityFinding,
    >)
        ensures
            realize_all(
                views(r@),
                command_analysis(old(monitor)@, self@, command_id@).drafts,
                command_id@,
            ),
            final(monitor)@ == attached(
                old(monitor)@,
                command_id@,
                views(r@),
                command_analysis(old(monitor)@, self@, command_id@).summary,
            ),
            forall|i: int|
                0 <= i < r@.len() ==> lookup(old(monitor)@, (#[trigger] views(r@)[i]).command_id)
                    is Some,
    {
        let command = monitor.get_command(command_id);
        let context = self.context_of(command_id);
        let analysis = match (command, context) {
            (Some(c), Some(text)) => analyze_output(c.command_type, text.as_str()),
            _ => Analysis::nothing(),
        };
        attach(monitor, command_id, analysis)
    }

    /// Takes in one line of output at the tick `now` of a monotonic clock
    /// that counts nanoseconds.
    ///
    /// The line is kept with the lines of its command. Where the output of
    /// the command is due for analysis, all that is kept of it is analyzed,
    /// what is found is attached to the command, and the tick is noted.
    /// Returns the findings, in order, for whoever documents them; each of
    /// them names a command of the registry.
    pub fn handle_output_at(&mut self, monitor: &mut CommandMonitor, output: CommandOutput, now: u128) -> (r:
        Vec<SecurityFinding>)
        ensures
            ({
                let kept = with_line(old(self)@, output.command_id@, output.line@);
                let due = analysis_due(track_of(kept, output.command_id@).unwrap().last_analyzed, now);
                let analysis = if due {
                    command_analysis(old(monitor)@, kept, output.command_id@)
                } else {
                    AnalysisView::nothing()
                };
                &&& track_of(kept, output.command_id@) is Some
                &&& final(self)@ == if due {
                    marked(kept, output.command_id@, now)
                } else {
                    kept
                }
                &&& realize_all(views(r@), analysis.drafts, output.command_id@)
                &&& final(monitor)@ == attached(
                    old(monitor)@,
                    output.command_id@,
                    views(r@),
                    analysis.summary,
                )
                &&& final(self).is_running() == old(self).is_running()
            }),
            forall|i: int|
                0 <= i < r@.len() ==> lookup(old(monitor)@, (#[trigger] views(r@)[i]).command_id)
                    is Some,
    {
        let CommandOutput { command_id, line, is_error: _ } = output;
        let last = self.keep_line(command_id.as_str(), line);
        if should_analyze(last, now) {
            let found = self.analyze_command_output(monitor, command_id.as_str());
            self.mark_analyzed(command_id.as_str(), now);
            found
        } else {
            let r: Vec<SecurityFinding> = Vec::new();
            assert(views(r@) =~= Seq::<FindingView>::empty());
            r
        }
    }

    /// Keeps `line` with the lines of the command `id`. Returns the tick at
    /// which the output of the command was last analyzed.
    fn keep_line(&mut self, id: &str, line: String) -> (r: Option<u128>)
        ensures
            final(self)@ == with_line(old(self)@, id@, line@),
            track_of(final(self)@, id@) is Some,
            r == track_of(final(self)@, id@).unwrap().last_analyzed,
            final(self).is_running() == old(self).is_running(),
    {
        proof {
            use_type_invariant(&*self);
        }
        let mut tracks: Vec<OutputTrack> = Vec::new();
        core::mem::swap(&mut tracks, &mut self.tracks);
        let ghost before = views(tracks@);
        let last = match track_position(&tracks, id) {
            Some(i) => {
                proof {
                    lemma_views_push(tracks@[i as int].lines@, line);
                }
                tracks[i].lines.push(line);
                proof {
                    let after = views(tracks@);
                    assert(after =~= with_line(before, id@, line@));
                    assert forall|a: int, b: int| 0 <= a < b < after.len() implies (
                    #[trigger] after[a]).command_id != (#[trigger] after[b]).command_id by {
                        assert(before[a].command_id != before[b].command_id);
                    }
                    lemma_track_from_update(before, i as int, after[i as int], id@, 0);
                }
                tracks[i].last_analyzed
            },
            None => {
                let mut lines: Vec<String> = Vec::new();
                lines.push(line);
                let track = OutputTrack {
                    command_id: String::from_str(id),
                    lines,
                    last_analyzed: None,
                };
                proof {
                    assert(track@.lines =~= seq![line@]);
                    lemma_views_push(tracks@, track);
                    lemma_track_from_none(before, id@, 0);
                    let after = before.push(track@);
                    assert forall|a: int, b: int| 0 <= a < b < after.len() implies (
                    #[trigger] after[a]).command_id != (#[trigger] after[b]).command_id by {
                        if b < after.len() - 1 {
                            assert(before[a].command_id != before[b].command_id);
                        } else {
                            assert(before[a].command_id != id@);
                        }
                    }
                    lemma_track_from_push(before, track@, id@, 0);
                }
                tracks.push(track);
                None
            },
        };
        self.tracks = tracks;
        last
    }

    /// Notes that the output of the command `id` was analyzed at the tick `now`.
    fn mark_analyzed(&mut self, id: &str, now: u128)
        ensures
            final(self)@ == marked(old(self)@, id@, now),
            final(self).is_running() == old(self).is_running(),
    {
        proof {
            use_type_invariant(&*self);
        }
        let mut tracks: Vec<OutputTrack> = Vec::new();
        core::mem::swap(&mut tracks, &mut self.tracks);
        let ghost before = views(tracks@);
        match track_position(&tracks, id) {
            Some(i) => {
                tracks[i].last_analyzed = Some(now);
                proof {
                    let after = views(tracks@);
                    assert(after =~= marked(before, id@, now));
                    assert forall|a: int, b: int| 0 <= a < b < after.len() implies (
                    #[trigger] after[a]).command_id != (#[trigger] after[b]).command_id by {
                        assert(before[a].command_id != before[b].command_id);
                    }
                }
            },
            None => {},
        }
        self.tracks = tracks;
    }
}

/// Replacing a track by one of the same command moves no index.
pub proof fn lemma_track_from_update(ts: Seq<TrackView>, i: int, t: TrackView, id: Seq<char>, from: int)
    requires
        0 <= i < ts.len(),
        t.command_id == ts[i].command_id,
        0 <= from,
    ensures
        track_from(ts.update(i, t), id, from) == track_from(ts, id, from),
    decreases ts.len() - from,
{
    if from < ts.len() {
        lemma_track_from_update(ts, i, t, id, from + 1);
    }
}

/// A track pushed for a command that had none is found at the end.
pub proof fn lemma_track_from_push(ts: Seq<TrackView>, t: TrackView, id: Seq<char>, from: int)
    requires
        0 <= from <= ts.len(),
        t.command_id == id,
        track_from(ts, id, from) is None,
    ensures
        track_from(ts.push(t), id, from) == Some(ts.len() as int),
    decreases ts.len() - from,
{
    if from < ts.len() {
        lemma_track_from_push(ts, t, id, from + 1);
    }
}

} // verus!
