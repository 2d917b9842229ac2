//! The records that the command registry keeps, and their mathematical views.

use crate::clock::Timestamp;
use crate::seqs::option_view;
use crate::seqs::views;
use vstd::prelude::*;

verus! {

/// Where a monitored command stands.
#[derive(Debug, PartialEq)]
pub enum CommandStatus {
    Running,
    Completed,
    Failed(String),
}

/// The view of a `CommandStatus`.
pub enum StatusView {
    Running,
    Completed,
    Failed(Seq<char>),
}

impl View for CommandStatus {
    type V = StatusView;

    open spec fn view(&self) -> StatusView {
        match self {
            CommandStatus::Running => StatusView::Running,
            CommandStatus::Completed => StatusView::Completed,
            CommandStatus::Failed(reason) => StatusView::Failed(reason@),
        }
    }
}

impl Clone for CommandStatus {
    fn clone(&self) -> (r: Self)
        ensures
            r@ == self@,
    {
        match self {
            CommandStatus::Running => CommandStatus::Running,
            CommandStatus::Completed => CommandStatus::Completed,
            CommandStatus::Failed(reason) => CommandStatus::Failed(reason.clone()),
        }
    }
}

impl CommandStatus {
    /// Whether the command has ended, one way or the other.
    pub open spec fn spec_is_terminal(&self) -> bool {
        !(self@ is Running)
    }

    /// Whether the command has ended, one way or the other.
    #[verifier::when_used_as_spec(spec_is_terminal)]
    pub fn is_terminal(&self) -> (r: bool)
        ensures
            r == self.spec_is_terminal(),
    {
        match self {
            CommandStatus::Running => false,
            _ => true,
        }
    }
}

/// The coarse category of a command, which decides the analyzers that read
/// its output.
#[derive(Clone, Copy, Debug, PartialEq, Eq, Structural)]
pub enum CommandType {
    Reconnaissance,
    Scanning,
    Exploitation,
    Documentation,
    Generic,
    Vulnerability,
}

/// The risk rank of a finding.
#[derive(Clone, Copy, Debug, PartialEq, Eq, Structural)]
pub enum FindingSeverity {
    Critical,
    High,
    Medium,
    Low,
    Info,
}

/// One security-relevant observation drawn from the output of a command.
#[derive(Debug)]
pub struct SecurityFinding {
    pub id: String,
    pub title: String,
    pub description: String,
    pub severity: FindingSeverity,
    pub command_id: String,
    pub raw_output: String,
    pub timestamp: Timestamp,
}

/// The view of a `SecurityFinding`.
pub struct FindingView {
    pub id: Seq<char>,
    pub title: Seq<char>,
    pub description: Seq<char>,
    pub severity: FindingSeverity,
    pub command_id: Seq<char>,
    pub raw_output: Seq<char>,
    pub timestamp: Timestamp,
}

impl View for SecurityFinding {
    type V = FindingView;

    open spec fn view(&self) -> FindingView {
        FindingView {
            id: self.id@,
            title: self.title@,
            description: self.description@,
            severity: self.severity,
            command_id: self.command_id@,
            raw_output: self.raw_output@,
            timestamp: self.timestamp,
        }
    }
}

impl Clone for SecurityFinding {
    fn clone(&self) -> (r: Self)
        ensures
            r@ == self@,
    {
        SecurityFinding {
            id: self.id.clone(),
            title: self.title.clone(),
            description: self.description.clone(),
            severity: self.severity,
            command_id: self.command_id.clone(),
            raw_output: self.raw_output.clone(),
            timestamp: self.timestamp,
        }
    }
}

/// Copies a list of findings.
pub fn clone_findings(fs: &Vec<SecurityFinding>) -> (r: Vec<SecurityFinding>)
    ensures
        views(r@) == views(fs@),
{
    let mut r: Vec<SecurityFinding> = Vec::new();
    let mut i: usize = 0;
    while i < fs.len()
        invariant
            i <= fs.len(),
            r@.len() == i,
            views(r@) == views(fs@).take(i as int),
        decreases fs.len() - i,
    {
        let f = fs[i].clone();
        assert forall|j: int| 0 <= j < i + 1 implies views(r@.push(f))[j]
            == views(fs@).take(i + 1)[j] by {
            if j < i {
                assert(views(r@)[j] == views(fs@).take(i as int)[j]);
            }
        }
        assert(views(r@.push(f)) =~= views(fs@).take(i + 1));
        r.push(f);
        i += 1;
    }
    assert(views(fs@).take(fs@.len() as int) =~= views(fs@));
    r
}

/// One invocation of an outside tool, from its start to its end.
#[derive(Debug)]
pub struct MonitoredCommand {
    pub id: String,
    pub command: String,
    pub start_time: Timestamp,
    pub end_time: Option<Timestamp>,
    pub status: CommandStatus,
    pub output_file: String,
    pub results_summary: Option<String>,
    pub findings: Vec<SecurityFinding>,
    pub command_type: CommandType,
}

/// The view of a `MonitoredCommand`.
pub struct CommandView {
    pub id: Seq<char>,
    pub command: Seq<char>,
    pub start_time: Timestamp,
    pub end_time: Option<Timestamp>,
    pub status: StatusView,
    pub output_file: Seq<char>,
    pub results_summary: Option<Seq<char>>,
    pub findings: Seq<FindingView>,
    pub command_type: CommandType,
}

impl View for MonitoredCommand {
    type V = CommandView;

    open spec fn view(&self) -> CommandView {
        CommandView {
            id: self.id@,
            command: self.command@,
            start_time: self.start_time,
            end_time: self.end_time,
            status: self.status@,
            output_file: self.output_file@,
            results_summary: option_view(self.results_summary),
            findings: views(self.findings@),
            command_type: self.command_type,
        }
    }
}

impl Clone for MonitoredCommand {
    fn clone(&self) -> (r: Self)
        ensures
            r@ == self@,
    {
        MonitoredCommand {
            id: self.id.clone(),
            command: self.command.clone(),
            start_time: self.start_time,
            end_time: self.end_time,
            status: self.status.clone(),
            output_file: self.output_file.clone(),
            results_summary: match &self.results_summary {
                Some(s) => Some(s.clone()),
                None => None,
            },
            findings: clone_findings(&self.findings),
            command_type: self.command_type,
        }
    }
}

/// One line that a running command wrote, on its standard output or on its
/// standard error.
#[derive(Debug)]
pub struct CommandOutput {
    pub command_id: String,
    pub line: String,
    pub is_error: bool,
}

impl Clone for CommandOutput {
    fn clone(&self) -> (r: Self)
        ensures
            r.command_id@ == self.command_id@,
            r.line@ == self.line@,
            r.is_error == self.is_error,
    {
        CommandOutput {
            command_id: self.command_id.clone(),
            line: self.line.clone(),
            is_error: self.is_error,
        }
    }
}

impl CommandView {
    /// A command's end time is set exactly when its status is terminal, and
    /// each of its findings names it.
    pub open spec fn wf(self) -> bool {
        &&& (self.end_time is Some <==> !(self.status is Running))
        &&& forall|i: int|
            0 <= i < self.findings.len() ==> (#[trigger] self.findings[i]).command_id == self.id
    }
}

} // verus!
