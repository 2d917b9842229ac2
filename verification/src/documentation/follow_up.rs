//! The follow-up actions that a finding calls for, by what it is about.

use crate::documentation::model::ActionStatus;
use crate::documentation::model::ActionView;
use crate::documentation::model::DocumentView;
use crate::documentation::model::DocumentedFinding;
use crate::documentation::model::FollowUpAction;
use crate::ident::fresh_uuid;
use crate::ident::is_uuid_text;
use crate::pattern::all_matches;
use crate::pattern::captures;
use crate::pattern::captures_all;
use crate::pattern::first_match;
use crate::pattern::Groups;
use crate::seqs::lemma_views_push;
use crate::seqs::option_view;
use crate::seqs::views;
use crate::text::chars_of;
use crate::text::contains;
use crate::text::contains_chars;
use crate::text::feed_lines;
use crate::text::join;
use crate::text::line_fed;
use crate::text::lines;
use crate::text::str_join;
use crate::text::str_lines;
use crate::text::str_words;
use crate::text::words;
use vstd::prelude::*;

verus! {

/// The mention of a port in the description of a finding.
pub const PORT_MENTION: &'static str = r"Port (\d+)";

/// A domain name, alone in a word.
pub const DOMAIN_NAME: &'static str =
    r"^[a-zA-Z0-9][-a-zA-Z0-9]*\.[a-zA-Z0-9]+(?:\.[a-zA-Z0-9]+)*$";

/// An IPv4 address, alone in a word.
pub const IP_ADDRESS: &'static str = r"^\d{1,3}\.\d{1,3}\.\d{1,3}\.\d{1,3}$";

/// A product and its version in the description of a finding.
pub const VERSION_MENTION: &'static str = r"(\w+) version ([\d\.]+)";

/// A CVE identifier in the description of a finding.
pub const CVE_ID: &'static str = r"(CVE-\d{4}-\d{4,7})";

/// The name, in the working directory, of the file that lists the subdomains to probe.
pub const SUBDOMAINS_FILE: &'static str = "subdomains.txt";

/// The name, in the working directory, of the file that the probe writes the live subdomains to.
pub const ALIVE_SUBDOMAINS_FILE: &'static str = "alive_subdomains.txt";

/// The two files of a liveness probe, each as the quoted text that the
/// command line of the probe holds.
#[derive(Debug)]
pub struct ProbeFiles {
    pub subdomains: String,
    pub alive: String,
}

impl Clone for ProbeFiles {
    fn clone(&self) -> (r: Self)
        ensures
            r.subdomains@ == self.subdomains@,
            r.alive@ == self.alive@,
    {
        ProbeFiles { subdomains: self.subdomains.clone(), alive: self.alive.clone() }
    }
}

/// What a finding is about, as far as follow-up actions go.
#[derive(Clone, Copy, Debug, PartialEq, Eq, Structural)]
pub enum FindingTopic {
    OpenPort,
    Subdomain,
    Path,
    Version,
    Cve,
    Injection,
    Other,
}

/// What the title of a finding says it is about. Where a title speaks of
/// more than one topic, the first in this order counts: open ports,
/// subdomains, paths and directories, versions, CVE identifiers, cross-site
/// scripting and injection.
pub open spec fn topic_of(title: Seq<char>) -> FindingTopic {
    if contains(title, "Open Port"@) {
        FindingTopic::OpenPort
    } else if contains(title, "Subdomain"@) {
        FindingTopic::Subdomain
    } else if contains(title, "Path"@) || contains(title, "Directory"@) {
        FindingTopic::Path
    } else if contains(title, "Version"@) {
        FindingTopic::Version
    } else if contains(title, "CVE"@) {
        FindingTopic::Cve
    } else if contains(title, "XSS"@) || contains(title, "Injection"@) {
        FindingTopic::Injection
    } else {
        FindingTopic::Other
    }
}

/// What the title of a finding says it is about.
pub fn classify(title: &str) -> (r: FindingTopic)
    ensures
        r == topic_of(title@),
{
    let tv = chars_of(title);
    if contains_chars(&tv, &chars_of("Open Port")) {
        FindingTopic::OpenPort
    } else if contains_chars(&tv, &chars_of("Subdomain")) {
        FindingTopic::Subdomain
    } else if contains_chars(&tv, &chars_of("Path")) || contains_chars(&tv, &chars_of("Directory")) {
        FindingTopic::Path
    } else if contains_chars(&tv, &chars_of("Version")) {
        FindingTopic::Version
    } else if contains_chars(&tv, &chars_of("CVE")) {
        FindingTopic::Cve
    } else if contains_chars(&tv, &chars_of("XSS")) || contains_chars(&tv, &chars_of("Injection")) {
        FindingTopic::Injection
    } else {
        FindingTopic::Other
    }
}

/// A follow-up action as planned: what is to be done, and the command that
/// does it, where a command can.
#[derive(Debug)]
pub struct ActionDraft {
    pub description: String,
    pub command: Option<String>,
}

/// The view of an `ActionDraft`.
pub struct ActionDraftView {
    pub description: Seq<char>,
    pub command: Option<Seq<char>>,
}

impl View for ActionDraft {
    type V = ActionDraftView;

    open spec fn view(&self) -> ActionDraftView {
        ActionDraftView { description: self.description@, command: option_view(self.command) }
    }
}

/// What a finding calls for: the actions, in order, and the text of the
/// list of subdomains to write for the probe, where one is planned.
#[derive(Debug)]
pub struct FollowUpPlan {
    pub drafts: Vec<ActionDraft>,
    pub subdomain_list: Option<String>,
}

/// The view of a `FollowUpPlan`.
pub struct PlanView {
    pub drafts: Seq<ActionDraftView>,
    pub subdomain_list: Option<Seq<char>>,
}

impl View for FollowUpPlan {
    type V = PlanView;

    open spec fn view(&self) -> PlanView {
        PlanView { drafts: views(self.drafts@), subdomain_list: option_view(self.subdomain_list) }
    }
}

/// Whether a word of a command line looks like a target: a domain name or an IPv4 address.
pub open spec fn is_target(term: Seq<char>) -> bool {
    first_match(DOMAIN_NAME@, term) is Some || first_match(IP_ADDRESS@, term) is Some
}

/// The last of the first `upto` words that looks like a target.
pub open spec fn last_target(terms: Seq<Seq<char>>, upto: int) -> Option<Seq<char>>
    decreases upto,
{
    if upto <= 0 {
        None
    } else if is_target(terms[upto - 1]) {
        Some(terms[upto - 1])
    } else {
        last_target(terms, upto - 1)
    }
}

/// The target of a command line: its last word that looks like one.
pub open spec fn target_of(command: Seq<char>) -> Option<Seq<char>> {
    last_target(words(command), words(command).len() as int)
}

/// The target of a command line: its last word that is a domain name or an
/// IPv4 address.
pub fn extract_target_from_command(command: &str) -> (r: Option<String>)
    ensures
        option_view(r) == target_of(command@),
{
    let terms = str_words(command);
    let mut i: usize = terms.len();
    while i > 0
        invariant
            i <= terms.len(),
            views(terms@) == words(command@),
            target_of(command@) == last_target(views(terms@), i as int),
        decreases i,
    {
        let term = terms[i - 1].as_str();
        assert(views(terms@)[i - 1] == term@);
        if captures(DOMAIN_NAME, term).is_some() || captures(IP_ADDRESS, term).is_some() {
            return Some(terms[i - 1].clone());
        }
        i -= 1;
    }
    None
}

/// Group 1 of each of the first `upto` matches, where it is present.
pub open spec fn first_groups(ms: Seq<Seq<Option<Seq<char>>>>, upto: int) -> Seq<Seq<char>>
    decreases upto,
{
    if upto <= 0 {
        Seq::empty()
    } else if ms[upto - 1].len() > 1 && ms[upto - 1][1] is Some {
        first_groups(ms, upto - 1).push(ms[upto - 1][1].unwrap())
    } else {
        first_groups(ms, upto - 1)
    }
}

/// Group 1 of each match, where it is present.
pub fn first_groups_of(matches: &Vec<Groups>) -> (r: Vec<String>)
    ensures
        views(r@) == first_groups(views(matches@), matches@.len() as int),
{
    let mut out: Vec<String> = Vec::new();
    let mut i: usize = 0;
    assert(views(out@) =~= Seq::<Seq<char>>::empty());
    while i < matches.len()
        invariant
            i <= matches.len(),
            views(out@) == first_groups(views(matches@), i as int),
        decreases matches.len() - i,
    {
        assert(views(matches@)[i as int] == matches@[i as int]@);
        match matches[i].get(1) {
            Some(text) => {
                let kept = text.clone();
                proof {
                    lemma_views_push(out@, kept);
                }
                out.push(kept);
            },
            None => {},
        }
        i += 1;
    }
    out
}

/// The action that every finding calls for: to complete its documentation.
pub open spec fn documentation_action(finding_id: Seq<char>) -> ActionDraftView {
    ActionDraftView {
        description: "Update documentation for finding "@ + finding_id,
        command: None,
    }
}

/// The action for open ports `ports` on the target `target`: a scan of
/// those ports for services and versions.
pub open spec fn version_scan(ports: Seq<Seq<char>>, target: Seq<char>) -> ActionDraftView {
    ActionDraftView {
        description: "Perform service version detection on ports: "@ + join(ports, ","@),
        command: Some("nmap -sV -p"@ + join(ports, ","@) + " "@ + target),
    }
}

/// The actions for a finding of open ports: a version scan, where the
/// description names ports and the discovery command a target.
pub open spec fn port_actions(ports: Seq<Seq<char>>, target: Option<Seq<char>>) -> Seq<
    ActionDraftView,
> {
    if ports.len() > 0 && target is Some {
        seq![version_scan(ports, target.unwrap())]
    } else {
        Seq::empty()
    }
}

/// The action for a finding of subdomains: a liveness probe over the list.
pub open spec fn liveness_probe(subdomains: Seq<char>, alive: Seq<char>) -> ActionDraftView {
    ActionDraftView {
        description: "Check which subdomains are active and resolve"@,
        command: Some("cat "@ + subdomains + " | httpx -silent -o "@ + alive),
    }
}

/// The action for a finding of paths: a review by a person.
pub open spec fn path_review() -> ActionDraftView {
    ActionDraftView {
        description: "Manually analyze discovered paths for security vulnerabilities"@,
        command: None,
    }
}

/// The actions for a finding of a disclosed version: a search for known
/// vulnerabilities, where the description names product and version.
pub open spec fn version_actions(found: Option<Seq<Option<Seq<char>>>>) -> Seq<ActionDraftView> {
    match found {
        Some(groups) => if groups.len() > 2 && groups[1] is Some && groups[2] is Some
            && groups[1].unwrap().len() > 0 && groups[2].unwrap().len() > 0 {
            seq![
                ActionDraftView {
                    description: "Search for known vulnerabilities in "@ + groups[1].unwrap()
                        + " "@ + groups[2].unwrap(),
                    command: Some(
                        "searchsploit "@ + groups[1].unwrap() + " "@ + groups[2].unwrap(),
                    ),
                },
            ]
        } else {
            Seq::empty()
        },
        None => Seq::empty(),
    }
}

/// The actions for a finding of a CVE: a look-up of its details, where the
/// description names the identifier.
pub open spec fn cve_actions(found: Option<Seq<Option<Seq<char>>>>) -> Seq<ActionDraftView> {
    match found {
        Some(groups) => if groups.len() > 1 && groups[1] is Some {
            seq![
                ActionDraftView {
                    description: "Gather detailed information about "@ + groups[1].unwrap(),
                    command: Some("curl -s https://cve.circl.lu/api/cve/"@ + groups[1].unwrap()),
                },
            ]
        } else {
            Seq::empty()
        },
        None => Seq::empty(),
    }
}

/// The action for a finding of cross-site scripting or injection: a
/// verification by a person.
pub open spec fn manual_verification(title: Seq<char>) -> ActionDraftView {
    ActionDraftView {
        description: "Manually verify the "@ + (if contains(title, "XSS"@) {
            "XSS"@
        } else {
            "SQL Injection"@
        }) + " finding"@,
        command: None,
    }
}

/// What the finding `f` calls for, where `subdomains` and `alive` are the
/// quoted files of a liveness probe: the completion of its documentation,
/// and then what its topic asks for.
pub open spec fn follow_up_plan(f: DocumentView, subdomains: Seq<char>, alive: Seq<char>) -> PlanView {
    let first = seq![documentation_action(f.id)];
    match topic_of(f.title) {
        FindingTopic::OpenPort => PlanView {
            drafts: first + port_actions(
                first_groups(
                    all_matches(PORT_MENTION@, f.description),
                    all_matches(PORT_MENTION@, f.description).len() as int,
                ),
                target_of(f.discovery_command),
            ),
            subdomain_list: None,
        },
        FindingTopic::Subdomain => if lines(f.raw_evidence).len() > 0 {
            PlanView {
                drafts: first.push(liveness_probe(subdomains, alive)),
                subdomain_list: Some(
                    line_fed(lines(f.raw_evidence), lines(f.raw_evidence).len() as int),
                ),
            }
        } else {
            PlanView { drafts: first, subdomain_list: None }
        },
        FindingTopic::Path => PlanView { drafts: first.push(path_review()), subdomain_list: None },
        FindingTopic::Version => PlanView {
            drafts: first + version_actions(first_match(VERSION_MENTION@, f.description)),
            subdomain_list: None,
        },
        FindingTopic::Cve => PlanView {
            drafts: first + cve_actions(first_match(CVE_ID@, f.description)),
            subdomain_list: None,
        },
        FindingTopic::Injection => PlanView {
            drafts: first.push(manual_verification(f.title)),
            subdomain_list: None,
        },
        FindingTopic::Other => PlanView { drafts: first, subdomain_list: None },
    }
}

/// The actions for a finding of open ports.
pub fn plan_port_actions(ports: &Vec<String>, target: &Option<String>) -> (r: Vec<ActionDraft>)
    ensures
        views(r@) == port_actions(views(ports@), option_view(*target)),
{
    let mut out: Vec<ActionDraft> = Vec::new();
    if ports.len() > 0 {
        match target {
            Some(t) => {
                let list = str_join(ports, ",");
                let mut description = String::from_str(
                    "Perform service version detection on ports: ",
                );
                description.append(list.as_str());
                let mut command = String::from_str("nmap -sV -p");
                command.append(list.as_str());
                command.append(" ");
                command.append(t.as_str());
                let draft = ActionDraft { description, command: Some(command) };
                out.push(draft);
                assert(views(out@) =~= seq![draft@]);
                return out;
            },
            None => {},
        }
    }
    assert(views(out@) =~= Seq::<ActionDraftView>::empty());
    out
}

/// The actions for a finding of a disclosed version.
pub fn plan_version_actions(found: &Option<Groups>) -> (r: Vec<ActionDraft>)
    ensures
        views(r@) == version_actions(option_view(*found)),
{
    let mut out: Vec<ActionDraft> = Vec::new();
    match found {
        Some(groups) => {
            if groups.len() > 2 {
                match (groups.get(1), groups.get(2)) {
                    (Some(software), Some(version)) => {
                        if software.as_str().unicode_len() > 0 && version.as_str().unicode_len()
                            > 0 {
                            let mut description = String::from_str(
                                "Search for known vulnerabilities in ",
                            );
                            description.append(software.as_str());
                            description.append(" ");
                            description.append(version.as_str());
                            let mut command = String::from_str("searchsploit ");
                            command.append(software.as_str());
                            command.append(" ");
                            command.append(version.as_str());
                            let draft = ActionDraft { description, command: Some(command) };
                            out.push(draft);
                            assert(views(out@) =~= seq![draft@]);
                            return out;
                        }
                    },
                    _ => {},
                }
            }
        },
        None => {},
    }
    assert(views(out@) =~= Seq::<ActionDraftView>::empty());
    out
}

/// The actions for a finding of a CVE.
pub fn plan_cve_actions(found: &Option<Groups>) -> (r: Vec<ActionDraft>)
    ensures
        views(r@) == cve_actions(option_view(*found)),
{
    let mut out: Vec<ActionDraft> = Vec::new();
    match found {
        Some(groups) => {
            if groups.len() > 1 {
                match groups.get(1) {
                    Some(cve) => {
                        let mut description = String::from_str(
                            "Gather detailed information about ",
                        );
                        description.append(cve.as_str());
                        let mut command = String::from_str(
                            "curl -s https://cve.circl.lu/api/cve/",
                        );
                        command.append(cve.as_str());
                        let draft = ActionDraft { description, command: Some(command) };
                        out.push(draft);
                        assert(views(out@) =~= seq![draft@]);
                        return out;
                    },
                    None => {},
                }
            }
        },
        None => {},
    }
    assert(views(out@) =~= Seq::<ActionDraftView>::empty());
    out
}

/// Plans the follow-up actions of `finding`, where `files` are the files of
/// a liveness probe.
pub fn plan_follow_ups(finding: &DocumentedFinding, files: &ProbeFiles) -> (r: FollowUpPlan)
    ensures
        r@ == follow_up_plan(finding@, files.subdomains@, files.alive@),
{
    let mut description = String::from_str("Update documentation for finding ");
    description.append(finding.id.as_str());
    let first = ActionDraft { description, command: None };
    let mut drafts: Vec<ActionDraft> = Vec::new();
    drafts.push(first);
    assert(views(drafts@) =~= seq![documentation_action(finding@.id)]);
    let ghost head = views(drafts@);
    let mut subdomain_list: Option<String> = None;
    match classify(finding.title.as_str()) {
        FindingTopic::OpenPort => {
            let mentions = captures_all(PORT_MENTION, finding.description.as_str());
            let ports = first_groups_of(&mentions);
            let target = extract_target_from_command(finding.discovery_command.as_str());
            let mut more = plan_port_actions(&ports, &target);
            let ghost tail = more@;
            drafts.append(&mut more);
            assert(views(drafts@) =~= head + views(tail));
        },
        FindingTopic::Subdomain => {
            let evidence = str_lines(finding.raw_evidence.as_str());
            if evidence.len() > 0 {
                let mut command = String::from_str("cat ");
                command.append(files.subdomains.as_str());
                command.append(" | httpx -silent -o ");
                command.append(files.alive.as_str());
                let draft = ActionDraft {
                    description: String::from_str("Check which subdomains are active and resolve"),
                    command: Some(command),
                };
                proof {
                    lemma_views_push(drafts@, draft);
                }
                drafts.push(draft);
                subdomain_list = Some(feed_lines(&evidence));
            }
        },
        FindingTopic::Path => {
            let draft = ActionDraft {
                description: String::from_str(
                    "Manually analyze discovered paths for security vulnerabilities",
                ),
                command: None,
            };
            proof {
                lemma_views_push(drafts@, draft);
            }
            drafts.push(draft);
        },
        FindingTopic::Version => {
            let found = captures(VERSION_MENTION, finding.description.as_str());
            let mut more = plan_version_actions(&found);
            let ghost tail = more@;
            drafts.append(&mut more);
            assert(views(drafts@) =~= head + views(tail));
        },
        FindingTopic::Cve => {
            let found = captures(CVE_ID, finding.description.as_str());
            let mut more = plan_cve_actions(&found);
            let ghost tail = more@;
            drafts.append(&mut more);
            assert(views(drafts@) =~= head + views(tail));
        },
        FindingTopic::Injection => {
            let kind = if contains_chars(&chars_of(finding.title.as_str()), &chars_of("XSS")) {
                "XSS"
            } else {
                "SQL Injection"
            };
            let mut description = String::from_str("Manually verify the ");
            description.append(kind);
            description.append(" finding");
            let draft = ActionDraft { description, command: None };
            proof {
                lemma_views_push(drafts@, draft);
            }
            drafts.push(draft);
        },
        FindingTopic::Other => {},
    }
    FollowUpPlan { drafts, subdomain_list }
}

/// The action `a` is the draft `d`, pending, under a fresh identifier.
pub open spec fn enacts(a: ActionView, d: ActionDraftView) -> bool {
    &&& is_uuid_text(a.id)
    &&& a.description == d.description
    &&& a.command == d.command
    &&& a.status == ActionStatus::Pending
    &&& a.result is None
}

/// Each action is the draft at its place, pending, under a fresh identifier.
pub open spec fn enact_all(actions: Seq<ActionView>, drafts: Seq<ActionDraftView>) -> bool {
    &&& actions.len() == drafts.len()
    &&& forall|i: int| 0 <= i < actions.len() ==> enacts(#[trigger] actions[i], drafts[i])
}

/// Makes pending actions of the drafts, each under a fresh identifier.
pub fn enact(drafts: Vec<ActionDraft>) -> (r: Vec<FollowUpAction>)
    ensures
        enact_all(views(r@), views(drafts@)),
{
    let mut out: Vec<FollowUpAction> = Vec::new();
    let mut i: usize = 0;
    while i < drafts.len()
        invariant
            i <= drafts.len(),
            out@.len() == i,
            forall|k: int| 0 <= k < i ==> enacts(#[trigger] views(out@)[k], views(drafts@)[k]),
        decreases drafts.len() - i,
    {
        let action = FollowUpAction {
            id: fresh_uuid(),
            description: drafts[i].description.clone(),
            command: crate::documentation::model::clone_text(&drafts[i].command),
            status: ActionStatus::Pending,
            result: None,
        };
        proof {
            lemma_views_push(out@, action);
        }
        out.push(action);
        i += 1;
    }
    out
}

} // verus!
