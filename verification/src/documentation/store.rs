//! The store of documented findings.
//!
//! A finding that arrives becomes a durable record with an identifier and a
//! file of its own. The record is kept, its follow-up actions are derived,
//! and the results of those actions are merged back into it.

use crate::clock::format_utc;
use crate::clock::now;
use crate::clock::utc_format;
use crate::clock::Timestamp;
use crate::documentation::follow_up::enact;
use crate::documentation::follow_up::enact_all;
use crate::documentation::follow_up::follow_up_plan;
use crate::documentation::follow_up::plan_follow_ups;
use crate::documentation::follow_up::FollowUpPlan;
use crate::documentation::follow_up::ProbeFiles;
use crate::documentation::model::clone_text;
use crate::documentation::model::ActionView;
use crate::documentation::model::DocumentView;
use crate::documentation::model::DocumentedFinding;
use crate::documentation::model::FindingStatus;
use crate::documentation::model::FollowUpAction;
use crate::documentation::render::render_summary;
use crate::documentation::render::summary_text;
use crate::ident::fresh_uuid;
use crate::ident::is_uuid_text;
use crate::monitor::model::FindingView;
use crate::monitor::model::SecurityFinding;
use crate::monitor::registry::lookup;
use crate::monitor::registry::CommandMonitor;
use crate::seqs::lemma_views_push;
use crate::seqs::option_view;
use crate::seqs::views;
use crate::text::alphanumeric;
use crate::text::char_is_alphanumeric;
use crate::text::chars_of;
use crate::text::lowercase;
use crate::text::prefix_before;
use crate::text::str_eq;
use crate::text::str_prefix_before;
use crate::text::to_lowercase;
use vstd::prelude::*;

verus! {

/// Why documentation could not do what it was asked.
#[derive(Clone, Copy, Debug, PartialEq, Eq, Structural)]
pub enum DocumentationError {
    /// The finding names a command that the registry does not hold.
    UnknownCommand,
    /// The date cannot be written into the name of the file.
    UnrepresentableTime,
    /// No documented finding holds an action with that identifier.
    ActionNotFound,
    /// No documented finding has that identifier.
    FindingNotFound,
}

/// The pattern of the date in the name of the file of a finding.
pub const FILE_NAME_DATE: &'static str = "%Y%m%d";

/// The part of a file name made of the first `upto` characters of a title
/// in lower case: a blank becomes an underscore, and of the rest only
/// letters, digits and underscores stay.
pub open spec fn slug_of(lowered: Seq<char>, upto: int) -> Seq<char>
    decreases upto,
{
    if upto <= 0 {
        Seq::empty()
    } else {
        let c = lowered[upto - 1];
        if c == ' ' {
            slug_of(lowered, upto - 1).push('_')
        } else if alphanumeric(c) || c == '_' {
            slug_of(lowered, upto - 1).push(c)
        } else {
            slug_of(lowered, upto - 1)
        }
    }
}

/// The part of a file name made of a title.
pub open spec fn slug(title: Seq<char>) -> Seq<char> {
    slug_of(lowercase(title), lowercase(title).len() as int)
}

/// The identifier of a documented finding, made of a fresh UUID: the word
/// `FINDING`, a hyphen, and the part of the UUID before its first hyphen.
pub open spec fn document_id(uuid: Seq<char>) -> Seq<char> {
    "FINDING-"@ + prefix_before(uuid, '-')
}

/// The place, below the working directory, of the document of the finding
/// `id` titled `title` and documented at `today`; `None` where the date
/// cannot be written.
pub open spec fn document_file(id: Seq<char>, title: Seq<char>, today: Timestamp) -> Option<
    Seq<char>,
> {
    match utc_format(today.secs, today.nanos, FILE_NAME_DATE@) {
        Some(date) => Some("findings/"@ + date + "_"@ + id + "_"@ + slug(title) + ".md"@),
        None => None,
    }
}

/// The record of the finding `f`, discovered by the command line `command`,
/// under the identifier `id` and with its document at `file`.
pub open spec fn new_document(f: FindingView, command: Seq<char>, id: Seq<char>, file: Seq<char>) -> DocumentView {
    DocumentView {
        id,
        title: f.title,
        description: f.description,
        severity: f.severity,
        discovery_date: f.timestamp,
        discovery_command: command,
        raw_evidence: f.raw_output,
        follow_up_actions: Seq::empty(),
        status: FindingStatus::New,
        file_path: file,
    }
}

/// What documenting the finding `f` gives, with `uuid` as the fresh UUID
/// and `today` as the date: the record, or the reason why there is none.
pub open spec fn documented(cs: Seq<crate::monitor::model::CommandView>, f: FindingView, uuid: Seq<char>, today: Timestamp) -> Result<
    DocumentView,
    DocumentationError,
> {
    match lookup(cs, f.command_id) {
        None => Err(DocumentationError::UnknownCommand),
        Some(c) => match document_file(document_id(uuid), f.title, today) {
            None => Err(DocumentationError::UnrepresentableTime),
            Some(file) => Ok(new_document(f, c.command, document_id(uuid), file)),
        },
    }
}

/// The least index at or after `from` of the record with identifier `id`.
pub open spec fn record_from(ds: Seq<DocumentView>, id: Seq<char>, from: int) -> Option<int>
    decreases ds.len() - from,
{
    if from < 0 || from >= ds.len() {
        None
    } else if ds[from].id == id {
        Some(from)
    } else {
        record_from(ds, id, from + 1)
    }
}

/// The least index at or after `from` of the action with identifier `id`.
pub open spec fn action_from(actions: Seq<ActionView>, id: Seq<char>, from: int) -> Option<int>
    decreases actions.len() - from,
{
    if from < 0 || from >= actions.len() {
        None
    } else if actions[from].id == id {
        Some(from)
    } else {
        action_from(actions, id, from + 1)
    }
}

/// The least index at or after `from` of a record that holds an action with identifier `id`.
pub open spec fn holder_from(ds: Seq<DocumentView>, id: Seq<char>, from: int) -> Option<int>
    decreases ds.len() - from,
{
    if from < 0 || from >= ds.len() {
        None
    } else if action_from(ds[from].follow_up_actions, id, 0) is Some {
        Some(from)
    } else {
        holder_from(ds, id, from + 1)
    }
}

/// No identifier occurs twice among the records.
pub open spec fn records_wf(ds: Seq<DocumentView>) -> bool {
    forall|i: int, j: int| 0 <= i < j < ds.len() ==> (#[trigger] ds[i]).id != (#[trigger] ds[j]).id
}

/// The records after `d` has been kept: in the place of the record with
/// its identifier, or at the end where there is none.
pub open spec fn kept(ds: Seq<DocumentView>, d: DocumentView) -> Seq<DocumentView> {
    match record_from(ds, d.id, 0) {
        Some(i) => ds.update(i, d),
        None => ds.push(d),
    }
}

/// The action `a` with the status and the result of `outcome`.
pub open spec fn merged_action(a: ActionView, outcome: ActionView) -> ActionView {
    ActionView { status: outcome.status, result: outcome.result, ..a }
}

/// The record `d` with the outcome of its `k`-th action merged in.
pub open spec fn merged(d: DocumentView, k: int, outcome: ActionView) -> DocumentView {
    DocumentView {
        follow_up_actions: d.follow_up_actions.update(
            k,
            merged_action(d.follow_up_actions[k], outcome),
        ),
        ..d
    }
}

/// The records after the outcome of an action has been merged into the
/// first record that holds the action.
pub open spec fn after_merge(ds: Seq<DocumentView>, outcome: ActionView) -> Seq<DocumentView> {
    match holder_from(ds, outcome.id, 0) {
        Some(i) => ds.update(
            i,
            merged(ds[i], action_from(ds[i].follow_up_actions, outcome.id, 0).unwrap(), outcome),
        ),
        None => ds,
    }
}

/// The records after `action` has been added to the record `id`.
pub open spec fn after_follow_up(ds: Seq<DocumentView>, id: Seq<char>, action: ActionView) -> Seq<
    DocumentView,
> {
    match record_from(ds, id, 0) {
        Some(i) => ds.update(
            i,
            DocumentView { follow_up_actions: ds[i].follow_up_actions.push(action), ..ds[i] },
        ),
        None => ds,
    }
}

/// An index found by `action_from` is in range and holds the identifier.
pub proof fn lemma_action_from(actions: Seq<ActionView>, id: Seq<char>, from: int)
    requires
        0 <= from,
    ensures
        action_from(actions, id, from) matches Some(k) ==> from <= k < actions.len()
            && actions[k].id == id,
    decreases actions.len() - from,
{
    if from < actions.len() && actions[from].id != id {
        lemma_action_from(actions, id, from + 1);
    }
}

/// An index found by `holder_from` is in range.
pub proof fn lemma_holder_from(ds: Seq<DocumentView>, id: Seq<char>, from: int)
    requires
        0 <= from,
    ensures
        holder_from(ds, id, from) matches Some(i) ==> from <= i < ds.len() && action_from(
            ds[i].follow_up_actions,
            id,
            0,
        ) is Some,
    decreases ds.len() - from,
{
    if from < ds.len() && action_from(ds[from].follow_up_actions, id, 0) is None {
        lemma_holder_from(ds, id, from + 1);
    }
}

/// An index found by `record_from` is in range and holds the identifier;
/// where none is found, no record at or after `from` has it.
pub proof fn lemma_record_from(ds: Seq<DocumentView>, id: Seq<char>, from: int)
    requires
        0 <= from,
    ensures
        match record_from(ds, id, from) {
            Some(i) => from <= i < ds.len() && ds[i].id == id,
            None => forall|j: int| from <= j < ds.len() ==> (#[trigger] ds[j]).id != id,
        },
    decreases ds.len() - from,
{
    if from < ds.len() && ds[from].id != id {
        lemma_record_from(ds, id, from + 1);
    }
}

/// Replacing actions by actions with the same identifiers moves no index.
pub proof fn lemma_action_from_same_ids(a: Seq<ActionView>, b: Seq<ActionView>, id: Seq<char>, from: int)
    requires
        a.len() == b.len(),
        forall|k: int| 0 <= k < a.len() ==> a[k].id == b[k].id,
        0 <= from,
    ensures
        action_from(a, id, from) == action_from(b, id, from),
    decreases a.len() - from,
{
    if from < a.len() {
        lemma_action_from_same_ids(a, b, id, from + 1);
    }
}

/// Replacing a record by one whose actions have the same identifiers moves no holder.
pub proof fn lemma_holder_from_update(
    ds: Seq<DocumentView>,
    i: int,
    d: DocumentView,
    id: Seq<char>,
    from: int,
)
    requires
        0 <= i < ds.len(),
        d.follow_up_actions.len() == ds[i].follow_up_actions.len(),
        forall|k: int|
            0 <= k < d.follow_up_actions.len() ==> d.follow_up_actions[k].id
                == ds[i].follow_up_actions[k].id,
        0 <= from,
    ensures
        holder_from(ds.update(i, d), id, from) == holder_from(ds, id, from),
    decreases ds.len() - from,
{
    if from < ds.len() {
        lemma_action_from_same_ids(d.follow_up_actions, ds[i].follow_up_actions, id, 0);
        lemma_holder_from_update(ds, i, d, id, from + 1);
    }
}

/// Merging the outcome of an action keeps every field of the record but the
/// status and the result of that one action, which become those of the outcome.
pub proof fn law_merge_keeps_the_rest(d: DocumentView, k: int, outcome: ActionView)
    requires
        0 <= k < d.follow_up_actions.len(),
    ensures
        ({
            let m = merged(d, k, outcome);
            &&& m.id == d.id
            &&& m.title == d.title
            &&& m.description == d.description
            &&& m.severity == d.severity
            &&& m.discovery_date == d.discovery_date
            &&& m.discovery_command == d.discovery_command
            &&& m.raw_evidence == d.raw_evidence
            &&& m.status == d.status
            &&& m.file_path == d.file_path
            &&& m.follow_up_actions.len() == d.follow_up_actions.len()
            &&& forall|j: int|
                0 <= j < d.follow_up_actions.len() && j != k ==> m.follow_up_actions[j]
                    == d.follow_up_actions[j]
            &&& m.follow_up_actions[k].id == d.follow_up_actions[k].id
            &&& m.follow_up_actions[k].description == d.follow_up_actions[k].description
            &&& m.follow_up_actions[k].command == d.follow_up_actions[k].command
            &&& m.follow_up_actions[k].status == outcome.status
            &&& m.follow_up_actions[k].result == outcome.result
        }),
{
}

/// Merging the same outcome a second time changes nothing: the records,
/// and the documents rendered from them, stay as the first merge left them.
pub proof fn law_merge_is_idempotent(ds: Seq<DocumentView>, outcome: ActionView)
    ensures
        after_merge(after_merge(ds, outcome), outcome) == after_merge(ds, outcome),
{
    lemma_holder_from(ds, outcome.id, 0);
    match holder_from(ds, outcome.id, 0) {
        Some(i) => {
            let actions = ds[i].follow_up_actions;
            lemma_action_from(actions, outcome.id, 0);
            let k = action_from(actions, outcome.id, 0).unwrap();
            let m = merged(ds[i], k, outcome);
            let once = ds.update(i, m);
            lemma_holder_from_update(ds, i, m, outcome.id, 0);
            lemma_action_from_same_ids(m.follow_up_actions, actions, outcome.id, 0);
            assert(merged(m, k, outcome).follow_up_actions =~= m.follow_up_actions);
            assert(once.update(i, merged(once[i], k, outcome)) =~= once);
        },
        None => {},
    }
}

/// The part of a file name made of a title.
pub fn slugify(title: &str) -> (r: String)
    ensures
        r@ == slug(title@),
{
    let lowered = to_lowercase(title);
    let lv = chars_of(lowered.as_str());
    let mut out = String::new();
    let mut i: usize = 0;
    while i < lv.len()
        invariant
            i <= lv.len(),
            out@ == slug_of(lv@, i as int),
        decreases lv.len() - i,
    {
        let c = lv[i];
        if c == ' ' {
            out.push('_');
        } else if char_is_alphanumeric(c) || c == '_' {
            out.push(c);
        }
        i += 1;
    }
    out
}

/// Makes the durable record of `finding`, with `uuid` as the fresh UUID and
/// `today` as the date in the name of its file.
///
/// Fails where the registry does not hold the command that the finding
/// names, and where the date cannot be written.
pub fn document_finding_as(monitor: &CommandMonitor, finding: SecurityFinding, uuid: &str, today: Timestamp) -> (r:
    Result<DocumentedFinding, DocumentationError>)
    ensures
        match r {
            Ok(d) => documented(monitor@, finding@, uuid@, today) == Ok::<
                DocumentView,
                DocumentationError,
            >(d@),
            Err(e) => documented(monitor@, finding@, uuid@, today) == Err::<
                DocumentView,
                DocumentationError,
            >(e),
        },
{
    let command = match monitor.get_command(finding.command_id.as_str()) {
        Some(c) => c,
        None => {
            return Err(DocumentationError::UnknownCommand);
        },
    };
    let mut id = String::from_str("FINDING-");
    id.append(str_prefix_before(uuid, '-').as_str());
    let date = match format_utc(today, FILE_NAME_DATE) {
        Some(date) => date,
        None => {
            return Err(DocumentationError::UnrepresentableTime);
        },
    };
    let mut file_path = String::from_str("findings/");
    file_path.append(date.as_str());
    file_path.append("_");
    file_path.append(id.as_str());
    file_path.append("_");
    file_path.append(slugify(finding.title.as_str()).as_str());
    file_path.append(".md");
    let d = DocumentedFinding {
        id,
        title: finding.title,
        description: finding.description,
        severity: finding.severity,
        discovery_date: finding.timestamp,
        discovery_command: command.command,
        raw_evidence: finding.raw_output,
        follow_up_actions: Vec::new(),
        status: FindingStatus::New,
        file_path,
    };
    assert(d@.follow_up_actions =~= Seq::<ActionView>::empty());
    Ok(d)
}

/// Makes the durable record of `finding`, under a fresh identifier and with
/// the date that the clock shows in the name of its file. The contract
/// states what holds whichever identifier and date came back;
/// `document_finding_as` states the rest exactly.
pub fn document_finding(monitor: &CommandMonitor, finding: SecurityFinding) -> (r: Result<
    DocumentedFinding,
    DocumentationError,
>)
    ensures
        lookup(monitor@, finding@.command_id) is None ==> r == Err::<
            DocumentedFinding,
            DocumentationError,
        >(DocumentationError::UnknownCommand),
        exists|uuid: Seq<char>, today: Timestamp|
            is_uuid_text(uuid) && match r {
                Ok(d) => #[trigger] documented(monitor@, finding@, uuid, today) == Ok::<
                    DocumentView,
                    DocumentationError,
                >(d@),
                Err(e) => documented(monitor@, finding@, uuid, today) == Err::<
                    DocumentView,
                    DocumentationError,
                >(e),
            },
{
    let uuid = fresh_uuid();
    let today = now();
    let r = document_finding_as(monitor, finding, uuid.as_str(), today);
    assert(is_uuid_text(uuid@) && match r {
        Ok(d) => documented(monitor@, finding@, uuid@, today) == Ok::<
            DocumentView,
            DocumentationError,
        >(d@),
        Err(e) => documented(monitor@, finding@, uuid@, today) == Err::<
            DocumentView,
            DocumentationError,
        >(e),
    });
    r
}

/// What a finding calls for: the actions to queue, in order, and the text
/// of the list of subdomains to write for the probe, where one is planned.
#[derive(Debug)]
pub struct FollowUps {
    pub actions: Vec<FollowUpAction>,
    pub subdomain_list: Option<String>,
}

/// The index of the record with identifier `id`.
fn record_position(records: &Vec<DocumentedFinding>, id: &str) -> (r: Option<usize>)
    ensures
        match r {
            Some(i) => i < records@.len() && record_from(views(records@), id@, 0) == Some(
                i as int,
            ),
            None => record_from(views(records@), id@, 0) is None,
        },
{
    let mut i: usize = 0;
    while i < records.len()
        invariant
            i <= records.len(),
            record_from(views(records@), id@, 0) == record_from(views(records@), id@, i as int),
        decreases records.len() - i,
    {
        if str_eq(records[i].id.as_str(), id) {
            return Some(i);
        }
        i += 1;
    }
    None
}

/// The index of the action with identifier `id`.
fn action_position(actions: &Vec<FollowUpAction>, id: &str) -> (r: Option<usize>)
    ensures
        match r {
            Some(k) => k < actions@.len() && action_from(views(actions@), id@, 0) == Some(
                k as int,
            ),
            None => action_from(views(actions@), id@, 0) is None,
        },
{
    let mut i: usize = 0;
    while i < actions.len()
        invariant
            i <= actions.len(),
            action_from(views(actions@), id@, 0) == action_from(views(actions@), id@, i as int),
        decreases actions.len() - i,
    {
        if str_eq(actions[i].id.as_str(), id) {
            return Some(i);
        }
        i += 1;
    }
    None
}

/// The first record that holds an action with identifier `id`, and the
/// place of the action in it.
fn holder_position(records: &Vec<DocumentedFinding>, id: &str) -> (r: Option<(usize, usize)>)
    ensures
        match r {
            Some((i, k)) => i < records@.len() && holder_from(views(records@), id@, 0) == Some(
                i as int,
            ) && k < records@[i as int].follow_up_actions@.len() && action_from(
                views(records@)[i as int].follow_up_actions,
                id@,
                0,
            ) == Some(k as int),
            None => holder_from(views(records@), id@, 0) is None,
        },
{
    let mut i: usize = 0;
    while i < records.len()
        invariant
            i <= records.len(),
            holder_from(views(records@), id@, 0) == holder_from(views(records@), id@, i as int),
        decreases records.len() - i,
    {
        assert(views(records@)[i as int] == records@[i as int]@);
        match action_position(&records[i].follow_up_actions, id) {
            Some(k) => {
                return Some((i, k));
            },
            None => {},
        }
        i += 1;
    }
    None
}

/// The store of documented findings.
pub struct AutoDocumentation {
    records: Vec<DocumentedFinding>,
    files: ProbeFiles,
    running: bool,
}

impl View for AutoDocumentation {
    type V = Seq<DocumentView>;

    closed spec fn view(&self) -> Seq<DocumentView> {
        views(self.records@)
    }
}

impl AutoDocumentation {
    #[verifier::type_invariant]
    spec fn well_formed(self) -> bool {
        records_wf(views(self.records@))
    }

    /// Whether documentation is at work.
    pub closed spec fn is_running(&self) -> bool {
        self.running
    }

    /// The quoted file that lists the subdomains to probe.
    pub closed spec fn subdomains_file(&self) -> Seq<char> {
        self.files.subdomains@
    }

    /// The quoted file that a probe writes the live subdomains to.
    pub closed spec fn alive_file(&self) -> Seq<char> {
        self.files.alive@
    }

    /// A store without records, not at work, that plans liveness probes
    /// over `files`.
    pub fn new(files: ProbeFiles) -> (r: Self)
        ensures
            r@ == Seq::<DocumentView>::empty(),
            !r.is_running(),
            r.subdomains_file() == files.subdomains@,
            r.alive_file() == files.alive@,
    {
        let r = AutoDocumentation { records: Vec::new(), files, running: false };
        assert(r@ =~= Seq::<DocumentView>::empty());
        r
    }

    /// Puts documentation to work. Returns whether it was idle.
    pub fn start(&mut self) -> (r: bool)
        ensures
            r == !old(self).is_running(),
            final(self).is_running(),
            final(self)@ == old(self)@,
            final(self).subdomains_file() == old(self).subdomains_file(),
            final(self).alive_file() == old(self).alive_file(),
    {
        proof {
            use_type_invariant(&*self);
        }
        let was_idle = !self.running;
        self.running = true;
        was_idle
    }

    /// Marks documentation as idle, once its source of findings has run dry.
    pub fn stop(&mut self)
        ensures
            !final(self).is_running(),
            final(self)@ == old(self)@,
            final(self).subdomains_file() == old(self).subdomains_file(),
            final(self).alive_file() == old(self).alive_file(),
    {
        proof {
            use_type_invariant(&*self);
        }
        self.running = false;
    }

    /// All records, in the order in which they were first kept. No
    /// identifier occurs twice.
    pub fn findings(&self) -> (r: Vec<DocumentedFinding>)
        ensures
            views(r@) == self@,
            records_wf(self@),
    {
        proof {
            use_type_invariant(self);
        }
        let mut r: Vec<DocumentedFinding> = Vec::new();
        let mut i: usize = 0;
        assert(views(r@) =~= self@.take(0));
        while i < self.records.len()
            invariant
                i <= self.records.len(),
                views(r@) == self@.take(i as int),
            decreases self.records.len() - i,
        {
            let d = self.records[i].clone();
            proof {
                lemma_views_push(r@, d);
                assert(self@.take(i as int).push(d@) =~= self@.take(i + 1));
            }
            r.push(d);
            i += 1;
        }
        assert(self@.take(self@.len() as int) =~= self@);
        r
    }

    /// Keeps the record `finding`, in the place of an earlier record with
    /// its identifier where there is one.
    pub fn remember(&mut self, finding: DocumentedFinding)
        ensures
            final(self)@ == kept(old(self)@, finding@),
            final(self).is_running() == old(self).is_running(),
            final(self).subdomains_file() == old(self).subdomains_file(),
            final(self).alive_file() == old(self).alive_file(),
    {
        proof {
            use_type_invariant(&*self);
            lemma_record_from(self@, finding@.id, 0);
        }
        let mut records: Vec<DocumentedFinding> = Vec::new();
        core::mem::swap(&mut records, &mut self.records);
        let ghost before = views(records@);
        match record_position(&records, finding.id.as_str()) {
            Some(i) => {
                records[i] = finding;
                proof {
                    let after = views(records@);
                    assert(after =~= before.update(i as int, finding@));
                    assert forall|a: int, b: int| 0 <= a < b < after.len() implies (
                    #[trigger] after[a]).id != (#[trigger] after[b]).id by {
                        assert(before[a].id != before[b].id);
                    }
                }
            },
            None => {
                proof {
                    lemma_views_push(records@, finding);
                    let after = before.push(finding@);
                    assert forall|a: int, b: int| 0 <= a < b < after.len() implies (
                    #[trigger] after[a]).id != (#[trigger] after[b]).id by {
                        if b < after.len() - 1 {
                            assert(before[a].id != before[b].id);
                        } else {
                            assert(before[a].id != finding@.id);
                        }
                    }
                }
                records.push(finding);
            },
        }
        self.records = records;
    }

    /// Derives the follow-up actions of `finding`: each planned action
    /// becomes a pending action under a fresh identifier.
    pub fn generate_follow_up_actions(&self, finding: &DocumentedFinding) -> (r: FollowUps)
        ensures
            enact_all(
                views(r.actions@),
                follow_up_plan(finding@, self.subdomains_file(), self.alive_file()).drafts,
            ),
            option_view(r.subdomain_list) == follow_up_plan(
                finding@,
                self.subdomains_file(),
                self.alive_file(),
            ).subdomain_list,
    {
        let FollowUpPlan { drafts, subdomain_list } = plan_follow_ups(finding, &self.files);
        FollowUps { actions: enact(drafts), subdomain_list }
    }

    /// Merges the status and the result of `action` into the first record
    /// that holds an action with its identifier. Returns the record as it
    /// then stands, to be rendered anew; fails, and changes nothing, where
    /// no record holds such an action.
    pub fn update_finding_with_action_result(&mut self, action: &FollowUpAction) -> (r: Result<
        DocumentedFinding,
        DocumentationError,
    >)
        ensures
            final(self)@ == after_merge(old(self)@, action@),
            match r {
                Ok(d) => holder_from(old(self)@, action@.id, 0) matches Some(i) && d@ == final(self)@[i],
                Err(e) => holder_from(old(self)@, action@.id, 0) is None && e
                    == DocumentationError::ActionNotFound,
            },
            final(self).is_running() == old(self).is_running(),
            final(self).subdomains_file() == old(self).subdomains_file(),
            final(self).alive_file() == old(self).alive_file(),
    {
        proof {
            use_type_invariant(&*self);
        }
        let mut records: Vec<DocumentedFinding> = Vec::new();
        core::mem::swap(&mut records, &mut self.records);
        let ghost before = views(records@);
        let r = match holder_position(&records, action.id.as_str()) {
            Some((i, k)) => {
                records[i].follow_up_actions[k].status = action.status;
                records[i].follow_up_actions[k].result = clone_text(&action.result);
                proof {
                    let after = views(records@);
                    assert(after[i as int].follow_up_actions =~= before[i as int].follow_up_actions.update(
                        k as int,
                        merged_action(before[i as int].follow_up_actions[k as int], action@),
                    ));
                    assert(after =~= after_merge(before, action@));
                    assert forall|a: int, b: int| 0 <= a < b < after.len() implies (
                    #[trigger] after[a]).id != (#[trigger] after[b]).id by {
                        assert(before[a].id != before[b].id);
                    }
                }
                Ok(records[i].clone())
            },
            None => Err(DocumentationError::ActionNotFound),
        };
        self.records = records;
        r
    }

    /// Adds `action` to the follow-up actions of the record `finding_id`.
    /// Returns the record as it then stands, to be rendered anew; fails, and
    /// changes nothing, where there is no such record.
    pub fn add_follow_up_to_finding(&mut self, finding_id: &str, action: FollowUpAction) -> (r:
        Result<DocumentedFinding, DocumentationError>)
        ensures
            final(self)@ == after_follow_up(old(self)@, finding_id@, action@),
            match r {
                Ok(d) => record_from(old(self)@, finding_id@, 0) matches Some(i) && d@ == final(self)@[i],
                Err(e) => record_from(old(self)@, finding_id@, 0) is None && e
                    == DocumentationError::FindingNotFound,
            },
            final(self).is_running() == old(self).is_running(),
            final(self).subdomains_file() == old(self).subdomains_file(),
            final(self).alive_file() == old(self).alive_file(),
    {
        proof {
            use_type_invariant(&*self);
        }
        let mut records: Vec<DocumentedFinding> = Vec::new();
        core::mem::swap(&mut records, &mut self.records);
        let ghost before = views(records@);
        let r = match record_position(&records, finding_id) {
            Some(i) => {
                proof {
                    lemma_views_push(records@[i as int].follow_up_actions@, action);
                }
                records[i].follow_up_actions.push(action);
                proof {
                    let after = views(records@);
                    assert(after =~= after_follow_up(before, finding_id@, action@));
                    assert forall|a: int, b: int| 0 <= a < b < after.len() implies (
                    #[trigger] after[a]).id != (#[trigger] after[b]).id by {
                        assert(before[a].id != before[b].id);
                    }
                }
                Ok(records[i].clone())
            },
            None => Err(DocumentationError::FindingNotFound),
        };
        self.records = records;
        r
    }

    /// The summary of all records, written at `generated`: the number of
    /// findings of each severity and in total, then the findings, the
    /// gravest first. `None` where the time cannot be written.
    pub fn generate_summary_report(&self, generated: Timestamp) -> (r: Option<String>)
        ensures
            option_view(r) == summary_text(self@, generated),
    {
        render_summary(&self.records, generated)
    }
}

} // verus!
