//! The registry of monitored commands and its transitions.
//!
//! A command enters the registry as `Running`, ends once as `Completed` or
//! `Failed`, and is never removed. Findings, summaries and the end time are
//! attached to the command they belong to.

use crate::clock::format_utc;
use crate::clock::now;
use crate::clock::utc_format;
use crate::clock::Timestamp;
use crate::ident::fresh_uuid;
use crate::ident::is_uuid_text;
use crate::monitor::model::CommandStatus;
use crate::monitor::model::CommandType;
use crate::monitor::model::CommandView;
use crate::monitor::model::FindingSeverity;
use crate::monitor::model::FindingView;
use crate::monitor::model::MonitoredCommand;
use crate::monitor::model::SecurityFinding;
use crate::monitor::model::StatusView;
use crate::monitor::validation::validate_and_fix_command;
use crate::monitor::validation::validated;
use crate::monitor::validation::ValidationError;
use crate::monitor::validation::ValidationErrorView;
use crate::seqs::lemma_views_push;
use crate::seqs::views;
use crate::text::cat;
use crate::text::contains;
use crate::text::lines;
use crate::text::parse_u32;
use crate::text::parsed_u32;
use crate::text::str_contains;
use crate::text::str_eq;
use crate::text::str_lines;
use crate::text::str_words;
use crate::text::words;
use vstd::prelude::*;

verus! {

/// Why a command could not be started.
#[derive(Debug)]
pub enum ExecuteError {
    /// The command line was refused.
    Invalid(ValidationError),
    /// The registry already holds a command with the identifier drawn for this one.
    DuplicateId,
    /// The start time cannot be written as a date.
    UnrepresentableTime,
}

/// The view of an `ExecuteError`.
pub enum ExecuteErrorView {
    Invalid(ValidationErrorView),
    DuplicateId,
    UnrepresentableTime,
}

impl View for ExecuteError {
    type V = ExecuteErrorView;

    open spec fn view(&self) -> ExecuteErrorView {
        match self {
            ExecuteError::Invalid(e) => ExecuteErrorView::Invalid(e@),
            ExecuteError::DuplicateId => ExecuteErrorView::DuplicateId,
            ExecuteError::UnrepresentableTime => ExecuteErrorView::UnrepresentableTime,
        }
    }
}

/// The registry holds no running command with the identifier asked for.
#[derive(Clone, Copy, Debug, PartialEq, Eq, Structural)]
pub enum LookupError {
    NotFound,
}

/// How the process of a command ended.
#[derive(Debug)]
pub enum ExitOutcome {
    /// The process exited with success.
    Success,
    /// The process exited without success; the text describes its exit status.
    Failure(String),
    /// Waiting for the process failed; the text describes the error.
    WaitFailed(String),
}

/// What a caller that waits for a command does next.
#[derive(Clone, Copy, Debug, PartialEq, Eq, Structural)]
pub enum WaitStep {
    /// The wait is over; the flag tells whether the command has ended.
    Done(bool),
    /// The command still runs: sleep one second and ask again.
    Retry,
}

/// The status that a process leaves its command in.
pub open spec fn exit_status(outcome: ExitOutcome) -> StatusView {
    match outcome {
        ExitOutcome::Success => StatusView::Completed,
        ExitOutcome::Failure(status) => StatusView::Failed("Command exited with code: "@ + status@),
        ExitOutcome::WaitFailed(error) => StatusView::Failed(
            "Error waiting for command: "@ + error@,
        ),
    }
}

/// The pattern of the date in the name of an output file.
pub const OUTPUT_FILE_DATE: &'static str = "%Y%m%d_%H%M%S";

/// The place, below the working directory, of the output file of the command
/// `id` started at `started`; `None` where the start time cannot be written.
pub open spec fn output_file_of(id: Seq<char>, started: Timestamp) -> Option<Seq<char>> {
    match utc_format(started.secs, started.nanos, OUTPUT_FILE_DATE@) {
        Some(date) => Some("command_output/"@ + date + "_"@ + id + ".log"@),
        None => None,
    }
}

/// The least index at or after `from` of the command with identifier `id`.
pub open spec fn index_from(cs: Seq<CommandView>, id: Seq<char>, from: int) -> Option<int>
    decreases cs.len() - from,
{
    if from < 0 || from >= cs.len() {
        None
    } else if cs[from].id == id {
        Some(from)
    } else {
        index_from(cs, id, from + 1)
    }
}

/// The index of the command with identifier `id`.
pub open spec fn index_of(cs: Seq<CommandView>, id: Seq<char>) -> Option<int> {
    index_from(cs, id, 0)
}

/// The command with identifier `id`.
pub open spec fn lookup(cs: Seq<CommandView>, id: Seq<char>) -> Option<CommandView> {
    match index_of(cs, id) {
        Some(i) => Some(cs[i]),
        None => None,
    }
}

/// The commands of `cs` that still run, in order.
pub open spec fn running_commands(cs: Seq<CommandView>) -> Seq<CommandView>
    decreases cs.len(),
{
    if cs.len() == 0 {
        Seq::empty()
    } else if cs.last().status is Running {
        running_commands(cs.drop_last()).push(cs.last())
    } else {
        running_commands(cs.drop_last())
    }
}

/// Every command of the registry is well formed, and no identifier occurs twice.
pub open spec fn registry_wf(cs: Seq<CommandView>) -> bool {
    &&& forall|i: int| 0 <= i < cs.len() ==> (#[trigger] cs[i]).wf()
    &&& forall|i: int, j: int| 0 <= i < j < cs.len() ==> (#[trigger] cs[i]).id != (#[trigger] cs[j]).id
}

/// The record of a command that has just started.
pub open spec fn started_command(
    id: Seq<char>,
    command: Seq<char>,
    command_type: CommandType,
    started: Timestamp,
    output_file: Seq<char>,
) -> CommandView {
    CommandView {
        id,
        command,
        start_time: started,
        end_time: None,
        status: StatusView::Running,
        output_file,
        results_summary: None,
        findings: Seq::empty(),
        command_type,
    }
}

/// The registry `after` is `before` with one more command, started at
/// `started` under the identifier `id`.
pub open spec fn started_at(
    before: Seq<CommandView>,
    after: Seq<CommandView>,
    id: Seq<char>,
    command: Seq<char>,
    command_type: CommandType,
    started: Timestamp,
) -> bool {
    &&& output_file_of(id, started) is Some
    &&& after == before.push(
        started_command(id, command, command_type, started, output_file_of(id, started).unwrap()),
    )
}

/// The record `c` once it has ended in `status` at `at`.
pub open spec fn ended(c: CommandView, status: StatusView, at: Timestamp) -> CommandView {
    CommandView { status, end_time: Some(at), ..c }
}

/// The registry after the command `id` has ended in `status` at `at`: only a
/// running command changes.
pub open spec fn after_end(cs: Seq<CommandView>, id: Seq<char>, status: StatusView, at: Timestamp) -> Seq<
    CommandView,
> {
    match index_of(cs, id) {
        Some(i) => if cs[i].status is Running {
            cs.update(i, ended(cs[i], status, at))
        } else {
            cs
        },
        None => cs,
    }
}

/// The registry after `finding` has been attached to the command it names.
pub open spec fn after_finding(cs: Seq<CommandView>, finding: FindingView) -> Seq<CommandView> {
    match index_of(cs, finding.command_id) {
        Some(i) => cs.update(i, CommandView { findings: cs[i].findings.push(finding), ..cs[i] }),
        None => cs,
    }
}

/// The registry after the summary of the command `id` has been set.
pub open spec fn after_summary(cs: Seq<CommandView>, id: Seq<char>, summary: Seq<char>) -> Seq<
    CommandView,
> {
    match index_of(cs, id) {
        Some(i) => cs.update(i, CommandView { results_summary: Some(summary), ..cs[i] }),
        None => cs,
    }
}

/// The process identifier in a line of a process listing: its second word,
/// read as a number, where the line holds `command`.
pub open spec fn pid_in_line(line: Seq<char>, command: Seq<char>) -> Option<u32> {
    if contains(line, command) && words(line).len() >= 2 {
        parsed_u32(words(line)[1])
    } else {
        None
    }
}

/// The process identifier in the first line at or after `from` that gives one.
pub open spec fn pid_from(listing: Seq<Seq<char>>, command: Seq<char>, from: int) -> Option<u32>
    decreases listing.len() - from,
{
    if from < 0 || from >= listing.len() {
        None
    } else if pid_in_line(listing[from], command) is Some {
        pid_in_line(listing[from], command)
    } else {
        pid_from(listing, command, from + 1)
    }
}

/// The process to signal in order to stop the command `id`: the one of the
/// first line of the process listing that holds the command line of a running
/// command and a process identifier.
pub open spec fn process_to_stop(cs: Seq<CommandView>, id: Seq<char>, listing: Seq<char>) -> Option<
    u32,
> {
    match index_of(cs, id) {
        Some(i) => if cs[i].status is Running {
            pid_from(lines(listing), cs[i].command, 0)
        } else {
            None
        },
        None => None,
    }
}

/// The reason recorded for a command that its user stopped.
pub open spec fn terminated_by_user() -> StatusView {
    StatusView::Failed("terminated by user"@)
}

/// What a caller that has polled `attempts` times before, and is willing to
/// poll `timeout_seconds` times, does after one more look at the command.
pub open spec fn wait_step(cs: Seq<CommandView>, id: Seq<char>, attempts: u64, timeout_seconds: u64) -> WaitStep {
    match lookup(cs, id) {
        None => WaitStep::Done(false),
        Some(c) => if !(c.status is Running) {
            WaitStep::Done(true)
        } else if attempts + 1 >= timeout_seconds {
            WaitStep::Done(false)
        } else {
            WaitStep::Retry
        },
    }
}

/// A registry stays well formed when a command starts under an identifier
/// that is not in use: the new command runs and has no end time.
pub proof fn law_start_keeps_registry_well_formed(
    cs: Seq<CommandView>,
    id: Seq<char>,
    command: Seq<char>,
    command_type: CommandType,
    started: Timestamp,
    output_file: Seq<char>,
)
    requires
        registry_wf(cs),
        index_of(cs, id) is None,
    ensures
        registry_wf(cs.push(started_command(id, command, command_type, started, output_file))),
{
    lemma_index_from(cs, id, 0);
    let next = cs.push(started_command(id, command, command_type, started, output_file));
    assert forall|i: int, j: int| 0 <= i < j < next.len() implies (#[trigger] next[i]).id != (
    #[trigger] next[j]).id by {
        if j < cs.len() {
            assert(cs[i].id != cs[j].id);
        }
    }
    assert forall|i: int| 0 <= i < next.len() implies (#[trigger] next[i]).wf() by {
        if i < cs.len() {
            assert(cs[i].wf());
        }
    }
}

/// A registry stays well formed when a command ends: the end time is set
/// together with the terminal status, on a command that ran.
pub proof fn law_end_keeps_registry_well_formed(
    cs: Seq<CommandView>,
    id: Seq<char>,
    status: StatusView,
    at: Timestamp,
)
    requires
        registry_wf(cs),
        !(status is Running),
    ensures
        registry_wf(after_end(cs, id, status, at)),
{
    lemma_index_from(cs, id, 0);
    let next = after_end(cs, id, status, at);
    assert forall|i: int, j: int| 0 <= i < j < next.len() implies (#[trigger] next[i]).id != (
    #[trigger] next[j]).id by {
        assert(cs[i].id != cs[j].id);
    }
    assert forall|i: int| 0 <= i < next.len() implies (#[trigger] next[i]).wf() by {
        assert(cs[i].wf());
    }
}

/// A command ends once: the end of a command that has ended changes
/// nothing, and so does the end of a command that the registry does not hold.
pub proof fn law_terminal_status_is_final(
    cs: Seq<CommandView>,
    id: Seq<char>,
    first: StatusView,
    first_at: Timestamp,
    second: StatusView,
    second_at: Timestamp,
)
    requires
        !(first is Running),
    ensures
        after_end(after_end(cs, id, first, first_at), id, second, second_at) == after_end(
            cs,
            id,
            first,
            first_at,
        ),
        lookup(cs, id) is None ==> after_end(cs, id, first, first_at) == cs,
{
    lemma_index_from(cs, id, 0);
    match index_of(cs, id) {
        Some(i) => {
            if cs[i].status is Running {
                lemma_index_from_update(cs, i, ended(cs[i], first, first_at), id, 0);
            }
        },
        None => {},
    }
}

/// No process is stopped for a command that the registry does not hold,
/// nor for one that has ended.
pub proof fn law_only_running_commands_are_stopped(
    cs: Seq<CommandView>,
    id: Seq<char>,
    listing: Seq<char>,
)
    ensures
        process_to_stop(cs, id, listing) is Some ==> (lookup(cs, id) matches Some(c)
            && c.status is Running),
{
}

/// A registry stays well formed when a finding is attached: the finding
/// goes to the command that it names, and to no other.
pub proof fn law_finding_keeps_registry_well_formed(cs: Seq<CommandView>, finding: FindingView)
    requires
        registry_wf(cs),
    ensures
        registry_wf(after_finding(cs, finding)),
        index_of(cs, finding.command_id) is None ==> after_finding(cs, finding) == cs,
{
    lemma_index_from(cs, finding.command_id, 0);
    let next = after_finding(cs, finding);
    assert forall|i: int, j: int| 0 <= i < j < next.len() implies (#[trigger] next[i]).id != (
    #[trigger] next[j]).id by {
        assert(cs[i].id != cs[j].id);
    }
    assert forall|i: int| 0 <= i < next.len() implies (#[trigger] next[i]).wf() by {
        assert(cs[i].wf());
    }
}

/// A registry stays well formed when a summary is set.
pub proof fn law_summary_keeps_registry_well_formed(
    cs: Seq<CommandView>,
    id: Seq<char>,
    summary: Seq<char>,
)
    requires
        registry_wf(cs),
    ensures
        registry_wf(after_summary(cs, id, summary)),
{
    lemma_index_from(cs, id, 0);
    let next = after_summary(cs, id, summary);
    assert forall|i: int, j: int| 0 <= i < j < next.len() implies (#[trigger] next[i]).id != (
    #[trigger] next[j]).id by {
        assert(cs[i].id != cs[j].id);
    }
    assert forall|i: int| 0 <= i < next.len() implies (#[trigger] next[i]).wf() by {
        assert(cs[i].wf());
    }
}

/// The index of the command with identifier `id`.
fn position(commands: &Vec<MonitoredCommand>, id: &str) -> (r: Option<usize>)
    ensures
        match r {
            Some(i) => i < commands@.len() && index_of(views(commands@), id@) == Some(i as int),
            None => index_of(views(commands@), id@) is None,
        },
{
    let mut i: usize = 0;
    while i < commands.len()
        invariant
            i <= commands.len(),
            index_of(views(commands@), id@) == index_from(views(commands@), id@, i as int),
        decreases commands.len() - i,
    {
        if str_eq(commands[i].id.as_str(), id) {
            return Some(i);
        }
        i += 1;
    }
    None
}

/// An index found by `index_from` is in range and holds the identifier.
pub proof fn lemma_index_from(cs: Seq<CommandView>, id: Seq<char>, from: int)
    requires
        0 <= from,
    ensures
        match index_from(cs, id, from) {
            Some(i) => from <= i < cs.len() && cs[i].id == id,
            None => forall|j: int| from <= j < cs.len() ==> cs[j].id != id,
        },
    decreases cs.len() - from,
{
    if from < cs.len() && cs[from].id != id {
        lemma_index_from(cs, id, from + 1);
    }
}

/// Replacing a record by one with the same identifier moves no index.
pub proof fn lemma_index_from_update(
    cs: Seq<CommandView>,
    i: int,
    c: CommandView,
    id: Seq<char>,
    from: int,
)
    requires
        0 <= i < cs.len(),
        c.id == cs[i].id,
        0 <= from,
    ensures
        index_from(cs.update(i, c), id, from) == index_from(cs, id, from),
    decreases cs.len() - from,
{
    if from < cs.len() {
        lemma_index_from_update(cs, i, c, id, from + 1);
    }
}

/// The first line of `listing` that holds `command` and a process identifier.
fn find_pid(listing: &Vec<String>, command: &str) -> (r: Option<u32>)
    ensures
        r == pid_from(views(listing@), command@, 0),
{
    let mut i: usize = 0;
    while i < listing.len()
        invariant
            i <= listing.len(),
            pid_from(views(listing@), command@, 0) == pid_from(
                views(listing@),
                command@,
                i as int,
            ),
        decreases listing.len() - i,
    {
        let line = listing[i].as_str();
        if str_contains(line, command) {
            let parts = str_words(line);
            if parts.len() >= 2 {
                match parse_u32(parts[1].as_str()) {
                    Some(pid) => {
                        return Some(pid);
                    },
                    None => {},
                }
            }
        }
        i += 1;
    }
    None
}

/// The registry of monitored commands.
pub struct CommandMonitor {
    commands: Vec<MonitoredCommand>,
}

impl View for CommandMonitor {
    type V = Seq<CommandView>;

    closed spec fn view(&self) -> Seq<CommandView> {
        views(self.commands@)
    }
}

impl CommandMonitor {
    #[verifier::type_invariant]
    spec fn well_formed(self) -> bool {
        registry_wf(views(self.commands@))
    }

    /// An empty registry.
    pub fn new() -> (r: Self)
        ensures
            r@ == Seq::<CommandView>::empty(),
    {
        let r = CommandMonitor { commands: Vec::new() };
        assert(r@ =~= Seq::<CommandView>::empty());
        r
    }

    /// The command with identifier `id`. Every command of the registry has
    /// its end time exactly when it has ended, and findings that name it.
    pub fn get_command(&self, id: &str) -> (r: Option<MonitoredCommand>)
        ensures
            crate::seqs::option_view(r) == lookup(self@, id@),
            r matches Some(c) ==> c@.wf() && c@.id == id@,
    {
        proof {
            use_type_invariant(self);
            lemma_index_from(self@, id@, 0);
        }
        match position(&self.commands, id) {
            Some(i) => Some(self.commands[i].clone()),
            None => None,
        }
    }

    /// The commands that still run, in the order in which they were started.
    pub fn get_active_commands(&self) -> (r: Vec<MonitoredCommand>)
        ensures
            views(r@) == running_commands(self@),
    {
        let mut r: Vec<MonitoredCommand> = Vec::new();
        let mut i: usize = 0;
        assert(self@.take(0) =~= Seq::<CommandView>::empty());
        assert(views(r@) =~= Seq::<CommandView>::empty());
        while i < self.commands.len()
            invariant
                i <= self.commands.len(),
                views(r@) == running_commands(self@.take(i as int)),
            decreases self.commands.len() - i,
        {
            assert(self@.take(i + 1).drop_last() =~= self@.take(i as int));
            assert(self@.take(i + 1).last() == self.commands@[i as int]@);
            if !self.commands[i].status.is_terminal() {
                let c = self.commands[i].clone();
                proof {
                    lemma_views_push(r@, c);
                }
                r.push(c);
            }
            i += 1;
        }
        assert(self@.take(self@.len() as int) =~= self@);
        r
    }

    /// All commands, in the order in which they were started. Every one has
    /// its end time exactly when it has ended, each of its findings names
    /// it, and no identifier occurs twice.
    pub fn get_all_commands(&self) -> (r: Vec<MonitoredCommand>)
        ensures
            views(r@) == self@,
            registry_wf(self@),
    {
        proof {
            use_type_invariant(self);
        }
        let mut r: Vec<MonitoredCommand> = Vec::new();
        let mut i: usize = 0;
        assert(views(r@) =~= self@.take(0));
        while i < self.commands.len()
            invariant
                i <= self.commands.len(),
                views(r@) == self@.take(i as int),
            decreases self.commands.len() - i,
        {
            let c = self.commands[i].clone();
            proof {
                lemma_views_push(r@, c);
                assert(self@.take(i as int).push(c@) =~= self@.take(i + 1));
            }
            r.push(c);
            i += 1;
        }
        assert(self@.take(self@.len() as int) =~= self@);
        r
    }

    /// Enters a validated command line into the registry as running, under
    /// the identifier `id` and with the start time `started`.
    ///
    /// Fails, and leaves the registry as it is, where the identifier is in
    /// use or the start time cannot be written into the name of the output
    /// file.
    pub fn register_command(
        &mut self,
        id: &str,
        command: &str,
        command_type: CommandType,
        started: Timestamp,
    ) -> (r: Result<(), ExecuteError>)
        ensures
            match r {
                Ok(()) => index_of(old(self)@, id@) is None && output_file_of(id@, started) is Some
                    && final(self)@ == old(self)@.push(
                    started_command(
                        id@,
                        command@,
                        command_type,
                        started,
                        output_file_of(id@, started).unwrap(),
                    ),
                ),
                Err(e) => final(self)@ == old(self)@ && if index_of(old(self)@, id@) is Some {
                    e@ == ExecuteErrorView::DuplicateId
                } else {
                    e@ == ExecuteErrorView::UnrepresentableTime && output_file_of(id@, started)
                        is None
                },
            },
    {
        proof {
            use_type_invariant(&*self);
            lemma_index_from(self@, id@, 0);
        }
        if position(&self.commands, id).is_some() {
            return Err(ExecuteError::DuplicateId);
        }
        let date = match format_utc(started, OUTPUT_FILE_DATE) {
            Some(date) => date,
            None => {
                return Err(ExecuteError::UnrepresentableTime);
            },
        };
        let mut output_file = String::from_str("command_output/");
        output_file.append(date.as_str());
        output_file.append("_");
        output_file.append(id);
        output_file.append(".log");
        let record = MonitoredCommand {
            id: String::from_str(id),
            command: String::from_str(command),
            start_time: started,
            end_time: None,
            status: CommandStatus::Running,
            output_file,
            results_summary: None,
            findings: Vec::new(),
            command_type,
        };
        proof {
            lemma_views_push(self.commands@, record);
            assert(record@.findings =~= Seq::<FindingView>::empty());
            let next = views(self.commands@).push(record@);
            assert forall|i: int, j: int| 0 <= i < j < next.len() implies (#[trigger] next[i]).id
                != (#[trigger] next[j]).id by {
                if j < next.len() - 1 {
                    assert(views(self.commands@)[i].id != views(self.commands@)[j].id);
                }
            }
            assert forall|i: int| 0 <= i < next.len() implies (#[trigger] next[i]).wf() by {
                if i < next.len() - 1 {
                    assert(views(self.commands@)[i].wf());
                }
            }
        }
        let mut commands: Vec<MonitoredCommand> = Vec::new();
        core::mem::swap(&mut commands, &mut self.commands);
        commands.push(record);
        self.commands = commands;
        Ok(())
    }

    /// Validates a command line and enters it into the registry as running.
    ///
    /// `missing_tools` lists the tools that were looked for on the execution
    /// path and not found. The identifier is drawn at random and the start
    /// time is read from the clock, so the contract states what holds
    /// whichever came back; `register_command` states the rest exactly.
    pub fn execute_command(
        &mut self,
        command: &str,
        command_type: CommandType,
        missing_tools: &Vec<String>,
    ) -> (r: Result<String, ExecuteError>)
        ensures
            match r {
                Ok(id) => validated(command@, views(missing_tools@)) is Ok && is_uuid_text(id@)
                    && index_of(old(self)@, id@) is None && exists|started: Timestamp|
                    #[trigger] started_at(
                        old(self)@,
                        final(self)@,
                        id@,
                        validated(command@, views(missing_tools@))->Ok_0,
                        command_type,
                        started,
                    ),
                Err(e) => final(self)@ == old(self)@ && match validated(
                    command@,
                    views(missing_tools@),
                ) {
                    Err(reason) => e@ == ExecuteErrorView::Invalid(reason),
                    Ok(_) => e@ == ExecuteErrorView::DuplicateId || e@
                        == ExecuteErrorView::UnrepresentableTime,
                },
            },
    {
        let fixed = match validate_and_fix_command(command, missing_tools) {
            Ok(fixed) => fixed,
            Err(e) => {
                return Err(ExecuteError::Invalid(e));
            },
        };
        let id = fresh_uuid();
        let started = now();
        match self.register_command(id.as_str(), fixed.as_str(), command_type, started) {
            Ok(()) => {
                // The witness of the start time that the contract speaks of.
                assert(started_at(
                    old(self)@,
                    self@,
                    id@,
                    validated(command@, views(missing_tools@))->Ok_0,
                    command_type,
                    started,
                ));
                Ok(id)
            },
            Err(e) => Err(e),
        }
    }

    /// Records at `at` how the process of the command `id` ended. Only a
    /// running command changes: a command ends once. Returns whether the
    /// registry changed.
    pub fn record_exit_at(&mut self, id: &str, outcome: &ExitOutcome, at: Timestamp) -> (r: bool)
        ensures
            final(self)@ == after_end(old(self)@, id@, exit_status(*outcome), at),
            r == (lookup(old(self)@, id@) matches Some(c) && c.status is Running),
    {
        let status = match outcome {
            ExitOutcome::Success => CommandStatus::Completed,
            ExitOutcome::Failure(status) => CommandStatus::Failed(
                cat("Command exited with code: ", status.as_str()),
            ),
            ExitOutcome::WaitFailed(error) => CommandStatus::Failed(
                cat("Error waiting for command: ", error.as_str()),
            ),
        };
        self.end_command(id, status, at)
    }

    /// Records how the process of the command `id` ended, at the time that
    /// the clock shows. Only a running command changes. Returns whether the
    /// registry changed.
    pub fn record_exit(&mut self, id: &str, outcome: &ExitOutcome) -> (r: bool)
        ensures
            exists|at: Timestamp|
                final(self)@ == #[trigger] after_end(old(self)@, id@, exit_status(*outcome), at),
            r == (lookup(old(self)@, id@) matches Some(c) && c.status is Running),
    {
        let at = now();
        self.record_exit_at(id, outcome, at)
    }

    /// Ends the running command `id` in `status` at `at`.
    fn end_command(&mut self, id: &str, status: CommandStatus, at: Timestamp) -> (r: bool)
        requires
            !(status@ is Running),
        ensures
            final(self)@ == after_end(old(self)@, id@, status@, at),
            r == (lookup(old(self)@, id@) matches Some(c) && c.status is Running),
    {
        proof {
            use_type_invariant(&*self);
            lemma_index_from(self@, id@, 0);
        }
        let mut commands: Vec<MonitoredCommand> = Vec::new();
        core::mem::swap(&mut commands, &mut self.commands);
        let ghost before = views(commands@);
        let mut changed = false;
        match position(&commands, id) {
            Some(i) => {
                if !commands[i].status.is_terminal() {
                    commands[i].status = status;
                    commands[i].end_time = Some(at);
                    changed = true;
                    proof {
                        let after = views(commands@);
                        assert(after =~= before.update(i as int, ended(before[i as int], status@, at)));
                        assert forall|k: int| 0 <= k < after.len() implies (#[trigger] after[k]).wf() by {
                            assert(before[k].wf());
                        }
                        assert forall|a: int, b: int| 0 <= a < b < after.len() implies (
                        #[trigger] after[a]).id != (#[trigger] after[b]).id by {
                            assert(before[a].id != before[b].id);
                        }
                    }
                }
            },
            None => {},
        }
        self.commands = commands;
        changed
    }

    /// Attaches `finding` to the command that it names. Returns whether the
    /// registry holds that command; a finding of an unknown command is
    /// attached nowhere.
    pub fn add_finding(&mut self, finding: SecurityFinding) -> (r: bool)
        ensures
            final(self)@ == after_finding(old(self)@, finding@),
            r == index_of(old(self)@, finding@.command_id) is Some,
    {
        proof {
            use_type_invariant(&*self);
            lemma_index_from(self@, finding@.command_id, 0);
        }
        let mut commands: Vec<MonitoredCommand> = Vec::new();
        core::mem::swap(&mut commands, &mut self.commands);
        let ghost before = views(commands@);
        let found = position(&commands, finding.command_id.as_str());
        match found {
            Some(i) => {
                proof {
                    lemma_views_push(commands@[i as int].findings@, finding);
                }
                commands[i].findings.push(finding);
                proof {
                    let after = views(commands@);
                    assert(after =~= after_finding(before, finding@));
                    assert forall|k: int| 0 <= k < after.len() implies (#[trigger] after[k]).wf() by {
                        assert(before[k].wf());
                    }
                    assert forall|a: int, b: int| 0 <= a < b < after.len() implies (
                    #[trigger] after[a]).id != (#[trigger] after[b]).id by {
                        assert(before[a].id != before[b].id);
                    }
                }
            },
            None => {},
        }
        self.commands = commands;
        found.is_some()
    }

    /// Sets the summary of the command `id`, over an earlier one if there is one.
    pub fn update_command_summary(&mut self, id: &str, summary: &str) -> (r: Result<
        (),
        LookupError,
    >)
        ensures
            final(self)@ == after_summary(old(self)@, id@, summary@),
            r is Ok <==> index_of(old(self)@, id@) is Some,
    {
        proof {
            use_type_invariant(&*self);
            lemma_index_from(self@, id@, 0);
        }
        let mut commands: Vec<MonitoredCommand> = Vec::new();
        core::mem::swap(&mut commands, &mut self.commands);
        let ghost before = views(commands@);
        let found = position(&commands, id);
        match found {
            Some(i) => {
                commands[i].results_summary = Some(String::from_str(summary));
                proof {
                    let after = views(commands@);
                    assert(after =~= after_summary(before, id@, summary@));
                    assert forall|k: int| 0 <= k < after.len() implies (#[trigger] after[k]).wf() by {
                        assert(before[k].wf());
                    }
                    assert forall|a: int, b: int| 0 <= a < b < after.len() implies (
                    #[trigger] after[a]).id != (#[trigger] after[b]).id by {
                        assert(before[a].id != before[b].id);
                    }
                }
            },
            None => {},
        }
        self.commands = commands;
        match found {
            Some(_) => Ok(()),
            None => Err(LookupError::NotFound),
        }
    }

    /// Whether stopping the command `id` calls for a look at the processes
    /// that run: it does for a running command only.
    pub fn needs_process_listing(&self, id: &str) -> (r: bool)
        ensures
            r == (lookup(self@, id@) matches Some(c) && c.status is Running),
    {
        proof {
            lemma_index_from(self@, id@, 0);
        }
        match position(&self.commands, id) {
            Some(i) => !self.commands[i].status.is_terminal(),
            None => false,
        }
    }

    /// Stops the command `id` at `at`, given the listing of the processes
    /// that run, one per line with the process identifier as second word.
    ///
    /// Where the command runs and a line of the listing holds its command
    /// line and a process identifier, the command ends as failed with the
    /// reason "terminated by user", and the process to signal is returned.
    /// Otherwise nothing changes and the command counts as not found.
    pub fn terminate_command_at(&mut self, cmd_id: &str, process_listing: &str, at: Timestamp) -> (r:
        Result<u32, LookupError>)
        ensures
            match process_to_stop(old(self)@, cmd_id@, process_listing@) {
                Some(pid) => r == Ok::<u32, LookupError>(pid) && final(self)@ == after_end(
                    old(self)@,
                    cmd_id@,
                    terminated_by_user(),
                    at,
                ),
                None => r is Err && final(self)@ == old(self)@,
            },
    {
        proof {
            lemma_index_from(self@, cmd_id@, 0);
        }
        let pid = match position(&self.commands, cmd_id) {
            Some(i) => {
                if self.commands[i].status.is_terminal() {
                    None
                } else {
                    let listing = str_lines(process_listing);
                    find_pid(&listing, self.commands[i].command.as_str())
                }
            },
            None => None,
        };
        match pid {
            Some(pid) => {
                self.end_command(
                    cmd_id,
                    CommandStatus::Failed(String::from_str("terminated by user")),
                    at,
                );
                Ok(pid)
            },
            None => Err(LookupError::NotFound),
        }
    }

    /// Stops the command `id` at the time that the clock shows, given the
    /// listing of the processes that run.
    pub fn terminate_command(&mut self, cmd_id: &str, process_listing: &str) -> (r: Result<
        u32,
        LookupError,
    >)
        ensures
            match process_to_stop(old(self)@, cmd_id@, process_listing@) {
                Some(pid) => r == Ok::<u32, LookupError>(pid) && exists|at: Timestamp|
                    final(self)@ == #[trigger] after_end(
                        old(self)@,
                        cmd_id@,
                        terminated_by_user(),
                        at,
                    ),
                None => r is Err && final(self)@ == old(self)@,
            },
    {
        let at = now();
        self.terminate_command_at(cmd_id, process_listing, at)
    }

    /// One look at the command `cmd_id` by a caller that waits for its end,
    /// has polled `attempts` times before and gives up after
    /// `timeout_seconds` polls, one second apart.
    pub fn wait_for_command_completion(&self, cmd_id: &str, attempts: u64, timeout_seconds: u64) -> (r:
        WaitStep)
        ensures
            r == wait_step(self@, cmd_id@, attempts, timeout_seconds),
    {
        proof {
            lemma_index_from(self@, cmd_id@, 0);
        }
        match position(&self.commands, cmd_id) {
            None => WaitStep::Done(false),
            Some(i) => {
                if self.commands[i].status.is_terminal() {
                    WaitStep::Done(true)
                } else if timeout_seconds == 0 || attempts >= timeout_seconds - 1 {
                    WaitStep::Done(false)
                } else {
                    WaitStep::Retry
                }
            },
        }
    }
}

/// Makes a finding of the command `command_id`, with a fresh identifier and
/// the time that the clock shows.
pub fn create_finding(
    title: &str,
    description: &str,
    severity: FindingSeverity,
    command_id: &str,
    raw_output: &str,
) -> (r: SecurityFinding)
    ensures
        is_uuid_text(r@.id),
        r@.title == title@,
        r@.description == description@,
        r@.severity == severity,
        r@.command_id == command_id@,
        r@.raw_output == raw_output@,
{
    SecurityFinding {
        id: fresh_uuid(),
        title: String::from_str(title),
        description: String::from_str(description),
        severity,
        command_id: String::from_str(command_id),
        raw_output: String::from_str(raw_output),
        timestamp: now(),
    }
}

} // verus!
