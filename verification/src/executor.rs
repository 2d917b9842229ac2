//! The admission of follow-up actions: which action may run now, and what
//! becomes of an action once its command has ended.
//!
//! The executor counts the actions in flight and never lets them exceed its
//! cap. Running the command of an action is left to the caller, who reports
//! how it ended.

use crate::documentation::model::ActionStatus;
use crate::documentation::model::ActionView;
use crate::documentation::model::FollowUpAction;
use crate::text::cat;
use crate::text::lossy_text;
use crate::text::utf8_lossy;
use vstd::prelude::*;

verus! {

/// What the executor makes of an action that is handed to it.
#[derive(Debug)]
pub enum Admission {
    /// The action had ended already and is dropped.
    Skip,
    /// As many actions are in flight as may be: ask again in half a second.
    Wait(FollowUpAction),
    /// The action has no command and is completed as it stands.
    Done(FollowUpAction),
    /// The action is in progress: run its command and report how it ended.
    Run(FollowUpAction),
}

/// The view of an `Admission`.
pub enum AdmissionView {
    Skip,
    Wait(ActionView),
    Done(ActionView),
    Run(ActionView),
}

impl View for Admission {
    type V = AdmissionView;

    open spec fn view(&self) -> AdmissionView {
        match self {
            Admission::Skip => AdmissionView::Skip,
            Admission::Wait(a) => AdmissionView::Wait(a@),
            Admission::Done(a) => AdmissionView::Done(a@),
            Admission::Run(a) => AdmissionView::Run(a@),
        }
    }
}

/// How the command of an action ended.
#[derive(Debug)]
pub enum RunOutcome {
    /// The command ran; the text is what it wrote.
    Finished(String),
    /// The command could not be run; the text says why.
    Broken(String),
}

/// What the executor makes of the action `a` while `in_flight` of at most
/// `cap` actions are in flight.
pub open spec fn admission(a: ActionView, in_flight: nat, cap: nat) -> AdmissionView {
    if a.status.spec_is_terminal() {
        AdmissionView::Skip
    } else if in_flight >= cap {
        AdmissionView::Wait(a)
    } else if a.command is None {
        AdmissionView::Done(ActionView { status: ActionStatus::Completed, ..a })
    } else {
        AdmissionView::Run(ActionView { status: ActionStatus::InProgress, ..a })
    }
}

/// An action goes in progress only while fewer actions are in flight than
/// may be, so that the actions in flight never exceed the cap; and only an
/// action that has a command and has not ended goes in progress.
pub proof fn law_admission_respects_the_cap(a: ActionView, in_flight: nat, cap: nat)
    ensures
        admission(a, in_flight, cap) is Run ==> in_flight + 1 <= cap && a.command is Some
            && !a.status.spec_is_terminal(),
        in_flight >= cap ==> !(admission(a, in_flight, cap) is Run) && !(admission(
            a,
            in_flight,
            cap,
        ) is Done),
{
}

/// The action `a` once its command has ended as `outcome` tells.
pub open spec fn concluded(a: ActionView, outcome: RunOutcome) -> ActionView {
    match outcome {
        RunOutcome::Finished(output) => ActionView {
            status: ActionStatus::Completed,
            result: Some(output@),
            ..a
        },
        RunOutcome::Broken(error) => ActionView {
            status: ActionStatus::Failed,
            result: Some("ERROR: "@ + error@),
            ..a
        },
    }
}

/// What a command wrote, as the result of an action records it: its
/// standard output and its standard error, each under a heading, and
/// neither where it is empty.
pub open spec fn combined_output(stdout: Seq<char>, stderr: Seq<char>) -> Seq<char> {
    (if stdout.len() > 0 {
        "=== STDOUT ===\n"@ + stdout + "\n"@
    } else {
        Seq::empty()
    }) + (if stderr.len() > 0 {
        "=== STDERR ===\n"@ + stderr
    } else {
        Seq::empty()
    })
}

/// What a command wrote, as the result of an action records it.
pub fn combine_output(stdout: &str, stderr: &str) -> (r: String)
    ensures
        r@ == combined_output(stdout@, stderr@),
{
    let first = if stdout.unicode_len() > 0 {
        let mut part = String::from_str("=== STDOUT ===\n");
        part.append(stdout);
        part.append("\n");
        part
    } else {
        String::new()
    };
    let second = if stderr.unicode_len() > 0 {
        cat("=== STDERR ===\n", stderr)
    } else {
        String::new()
    };
    cat(first.as_str(), second.as_str())
}

/// What a command wrote, read as text, as the result of an action records it.
pub fn combine_output_bytes(stdout: &[u8], stderr: &[u8]) -> (r: String)
    ensures
        r@ == combined_output(utf8_lossy(stdout@), utf8_lossy(stderr@)),
{
    combine_output(lossy_text(stdout).as_str(), lossy_text(stderr).as_str())
}

/// The executor of follow-up actions.
pub struct ActionExecutor {
    max_concurrent: usize,
    current_executing: usize,
    running: bool,
}

impl ActionExecutor {
    #[verifier::type_invariant]
    spec fn well_formed(self) -> bool {
        self.current_executing <= self.max_concurrent
    }

    /// The number of actions that may be in flight at once.
    pub closed spec fn cap(&self) -> nat {
        self.max_concurrent as nat
    }

    /// The number of actions in flight.
    pub closed spec fn in_flight(&self) -> nat {
        self.current_executing as nat
    }

    /// Whether the executor is at work.
    pub closed spec fn is_running(&self) -> bool {
        self.running
    }

    /// An idle executor that lets at most `max_concurrent` actions be in flight.
    pub fn new(max_concurrent: usize) -> (r: Self)
        ensures
            r.cap() == max_concurrent,
            r.in_flight() == 0,
            !r.is_running(),
    {
        ActionExecutor { max_concurrent, current_executing: 0, running: false }
    }

    /// Puts the executor to work. Returns whether it was idle.
    pub fn start(&mut self) -> (r: bool)
        ensures
            r == !old(self).is_running(),
            final(self).is_running(),
            final(self).cap() == old(self).cap(),
            final(self).in_flight() == old(self).in_flight(),
    {
        proof {
            use_type_invariant(&*self);
        }
        let was_idle = !self.running;
        self.running = true;
        was_idle
    }

    /// Marks the executor as idle, once its source of actions has run dry.
    pub fn stop(&mut self)
        ensures
            !final(self).is_running(),
            final(self).cap() == old(self).cap(),
            final(self).in_flight() == old(self).in_flight(),
    {
        proof {
            use_type_invariant(&*self);
        }
        self.running = false;
    }

    /// The number of actions in flight. It never exceeds the cap.
    pub fn current_executing(&self) -> (r: usize)
        ensures
            r == self.in_flight(),
            self.in_flight() <= self.cap(),
    {
        proof {
            use_type_invariant(self);
        }
        self.current_executing
    }

    /// The number of actions that may be in flight at once.
    pub fn max_concurrent(&self) -> (r: usize)
        ensures
            r == self.cap(),
    {
        self.max_concurrent
    }

    /// Decides what becomes of `action` now.
    ///
    /// An action that has ended is skipped. While as many actions are in
    /// flight as may be, the action waits. An action without a command is
    /// completed on the spot. Any other action goes in progress and counts
    /// as in flight until `conclude` is told how its command ended.
    pub fn offer(&mut self, action: FollowUpAction) -> (r: Admission)
        ensures
            r@ == admission(action@, old(self).in_flight(), old(self).cap()),
            final(self).in_flight() == if r is Run {
                old(self).in_flight() + 1
            } else {
                old(self).in_flight()
            },
            final(self).in_flight() <= final(self).cap(),
            final(self).cap() == old(self).cap(),
            final(self).is_running() == old(self).is_running(),
    {
        proof {
            use_type_invariant(&*self);
        }
        if action.status.is_terminal() {
            return Admission::Skip;
        }
        if self.current_executing >= self.max_concurrent {
            return Admission::Wait(action);
        }
        let mut action = action;
        if action.command.is_none() {
            action.status = ActionStatus::Completed;
            return Admission::Done(action);
        }
        action.status = ActionStatus::InProgress;
        self.current_executing = self.current_executing + 1;
        Admission::Run(action)
    }

    /// Takes note that the command of `action` has ended as `outcome`
    /// tells: the action leaves flight, and is returned completed with what
    /// the command wrote, or failed with the error.
    pub fn conclude(&mut self, action: FollowUpAction, outcome: RunOutcome) -> (r: FollowUpAction)
        ensures
            r@ == concluded(action@, outcome),
            final(self).in_flight() == if old(self).in_flight() > 0 {
                old(self).in_flight() - 1
            } else {
                0
            },
            final(self).in_flight() <= final(self).cap(),
            final(self).cap() == old(self).cap(),
            final(self).is_running() == old(self).is_running(),
    {
        proof {
            use_type_invariant(&*self);
        }
        if self.current_executing > 0 {
            self.current_executing = self.current_executing - 1;
        }
        let mut action = action;
        match outcome {
            RunOutcome::Finished(output) => {
                action.result = Some(output);
                action.status = ActionStatus::Completed;
            },
            RunOutcome::Broken(error) => {
                action.result = Some(cat("ERROR: ", error.as_str()));
                action.status = ActionStatus::Failed;
            },
        }
        action
    }
}

} // verus!
