//! What an analyzer has to say before it is attached to a command.

use crate::monitor::model::FindingSeverity;
use vstd::prelude::*;

verus! {

/// A finding that an analyzer has drawn from output, not yet attached to a
/// command: it has neither identifier nor time.
#[derive(Debug)]
pub struct FindingDraft {
    pub title: String,
    pub description: String,
    pub severity: FindingSeverity,
    pub raw_output: String,
}

/// The view of a `FindingDraft`.
pub struct DraftView {
    pub title: Seq<char>,
    pub description: Seq<char>,
    pub severity: FindingSeverity,
    pub raw_output: Seq<char>,
}

impl View for FindingDraft {
    type V = DraftView;

    open spec fn view(&self) -> DraftView {
        DraftView {
            title: self.title@,
            description: self.description@,
            severity: self.severity,
            raw_output: self.raw_output@,
        }
    }
}

/// What the analysis of the output of one command yields: the findings to
/// attach, in order, and the summary to set, if any.
#[derive(Debug)]
pub struct Analysis {
    pub drafts: Vec<FindingDraft>,
    pub summary: Option<String>,
}

/// The view of an `Analysis`.
pub struct AnalysisView {
    pub drafts: Seq<DraftView>,
    pub summary: Option<Seq<char>>,
}

impl View for Analysis {
    type V = AnalysisView;

    open spec fn view(&self) -> AnalysisView {
        AnalysisView {
            drafts: crate::seqs::views(self.drafts@),
            summary: crate::seqs::option_view(self.summary),
        }
    }
}

impl AnalysisView {
    /// The analysis that found nothing.
    pub open spec fn nothing() -> AnalysisView {
        AnalysisView { drafts: Seq::empty(), summary: None }
    }

    /// This analysis followed by `next`: the findings of both, and the
    /// summary of `next` where it has one.
    pub open spec fn followed_by(self, next: AnalysisView) -> AnalysisView {
        AnalysisView {
            drafts: self.drafts + next.drafts,
            summary: if next.summary is Some {
                next.summary
            } else {
                self.summary
            },
        }
    }
}

} // verus!
