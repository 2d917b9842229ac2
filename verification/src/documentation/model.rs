//! The records that documentation keeps, and their mathematical views.

use crate::clock::Timestamp;
use crate::monitor::model::FindingSeverity;
use crate::seqs::option_view;
use crate::seqs::views;
use vstd::prelude::*;

verus! {

/// How far the handling of a documented finding has come.
#[derive(Clone, Copy, Debug, PartialEq, Eq, Structural)]
pub enum FindingStatus {
    New,
    InProgress,
    Verified,
    Documented,
    Closed,
}

/// Where a follow-up action stands.
#[derive(Clone, Copy, Debug, PartialEq, Eq, Structural)]
pub enum ActionStatus {
    Pending,
    InProgress,
    Completed,
    Failed,
}

impl FindingStatus {
    /// The name of the status, as a document writes it.
    pub open spec fn name(self) -> Seq<char> {
        match self {
            FindingStatus::New => "New"@,
            FindingStatus::InProgress => "InProgress"@,
            FindingStatus::Verified => "Verified"@,
            FindingStatus::Documented => "Documented"@,
            FindingStatus::Closed => "Closed"@,
        }
    }

    /// The name of the status, as a document writes it.
    pub fn label(&self) -> (r: &'static str)
        ensures
            r@ == self.name(),
    {
        match self {
            FindingStatus::New => "New",
            FindingStatus::InProgress => "InProgress",
            FindingStatus::Verified => "Verified",
            FindingStatus::Documented => "Documented",
            FindingStatus::Closed => "Closed",
        }
    }
}

impl ActionStatus {
    /// The name of the status, as a document writes it.
    pub open spec fn name(self) -> Seq<char> {
        match self {
            ActionStatus::Pending => "Pending"@,
            ActionStatus::InProgress => "InProgress"@,
            ActionStatus::Completed => "Completed"@,
            ActionStatus::Failed => "Failed"@,
        }
    }

    /// Whether the action has ended, one way or the other.
    pub open spec fn spec_is_terminal(self) -> bool {
        self == ActionStatus::Completed || self == ActionStatus::Failed
    }

    /// The name of the status, as a document writes it.
    pub fn label(&self) -> (r: &'static str)
        ensures
            r@ == self.name(),
    {
        match self {
            ActionStatus::Pending => "Pending",
            ActionStatus::InProgress => "InProgress",
            ActionStatus::Completed => "Completed",
            ActionStatus::Failed => "Failed",
        }
    }

    /// Whether the action has ended, one way or the other.
    #[verifier::when_used_as_spec(spec_is_terminal)]
    pub fn is_terminal(self) -> (r: bool)
        ensures
            r == self.spec_is_terminal(),
    {
        match self {
            ActionStatus::Completed => true,
            ActionStatus::Failed => true,
            _ => false,
        }
    }
}

/// A unit of work that a finding calls for: a command to run, or, where it
/// has none, a task for a person.
#[derive(Debug)]
pub struct FollowUpAction {
    pub id: String,
    pub description: String,
    pub command: Option<String>,
    pub status: ActionStatus,
    pub result: Option<String>,
}

/// The view of a `FollowUpAction`.
pub struct ActionView {
    pub id: Seq<char>,
    pub description: Seq<char>,
    pub command: Option<Seq<char>>,
    pub status: ActionStatus,
    pub result: Option<Seq<char>>,
}

impl View for FollowUpAction {
    type V = ActionView;

    open spec fn view(&self) -> ActionView {
        ActionView {
            id: self.id@,
            description: self.description@,
            command: option_view(self.command),
            status: self.status,
            result: option_view(self.result),
        }
    }
}

/// Copies an optional string.
pub fn clone_text(s: &Option<String>) -> (r: Option<String>)
    ensures
        option_view(r) == option_view(*s),
{
    match s {
        Some(s) => Some(s.clone()),
        None => None,
    }
}

impl Clone for FollowUpAction {
    fn clone(&self) -> (r: Self)
        ensures
            r@ == self@,
    {
        FollowUpAction {
            id: self.id.clone(),
            description: self.description.clone(),
            command: clone_text(&self.command),
            status: self.status,
            result: clone_text(&self.result),
        }
    }
}

/// Copies a list of actions.
pub fn clone_actions(actions: &Vec<FollowUpAction>) -> (r: Vec<FollowUpAction>)
    ensures
        views(r@) == views(actions@),
{
    let mut r: Vec<FollowUpAction> = Vec::new();
    let mut i: usize = 0;
    while i < actions.len()
        invariant
            i <= actions.len(),
            r@.len() == i,
            views(r@) == views(actions@).take(i as int),
        decreases actions.len() - i,
    {
        let a = actions[i].clone();
        proof {
            crate::seqs::lemma_views_push(r@, a);
            assert(views(actions@).take(i as int).push(a@) =~= views(actions@).take(i + 1));
        }
        r.push(a);
        i += 1;
    }
    assert(views(actions@).take(actions@.len() as int) =~= views(actions@));
    r
}

/// The durable record of one finding.
#[derive(Debug)]
pub struct DocumentedFinding {
    pub id: String,
    pub title: String,
    pub description: String,
    pub severity: FindingSeverity,
    pub discovery_date: Timestamp,
    pub discovery_command: String,
    pub raw_evidence: String,
    pub follow_up_actions: Vec<FollowUpAction>,
    pub status: FindingStatus,
    pub file_path: String,
}

/// The view of a `DocumentedFinding`.
pub struct DocumentView {
    pub id: Seq<char>,
    pub title: Seq<char>,
    pub description: Seq<char>,
    pub severity: FindingSeverity,
    pub discovery_date: Timestamp,
    pub discovery_command: Seq<char>,
    pub raw_evidence: Seq<char>,
    pub follow_up_actions: Seq<ActionView>,
    pub status: FindingStatus,
    pub file_path: Seq<char>,
}

impl View for DocumentedFinding {
    type V = DocumentView;

    open spec fn view(&self) -> DocumentView {
        DocumentView {
            id: self.id@,
            title: self.title@,
            description: self.description@,
            severity: self.severity,
            discovery_date: self.discovery_date,
            discovery_command: self.discovery_command@,
            raw_evidence: self.raw_evidence@,
            follow_up_actions: views(self.follow_up_actions@),
            status: self.status,
            file_path: self.file_path@,
        }
    }
}

impl Clone for DocumentedFinding {
    fn clone(&self) -> (r: Self)
        ensures
            r@ == self@,
    {
        DocumentedFinding {
            id: self.id.clone(),
            title: self.title.clone(),
            description: self.description.clone(),
            severity: self.severity,
            discovery_date: self.discovery_date,
            discovery_command: self.discovery_command.clone(),
            raw_evidence: self.raw_evidence.clone(),
            follow_up_actions: clone_actions(&self.follow_up_actions),
            status: self.status,
            file_path: self.file_path.clone(),
        }
    }
}

} // verus!
