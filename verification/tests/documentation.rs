use hacksor::clock::Timestamp;
use hacksor::documentation::follow_up::{
    classify, extract_target_from_command, plan_follow_ups, FindingTopic, ProbeFiles,
};
use hacksor::documentation::model::{ActionStatus, DocumentedFinding, FindingStatus, FollowUpAction};
use hacksor::documentation::render::render_finding;
use hacksor::documentation::store::{
    document_finding, document_finding_as, slugify, AutoDocumentation, DocumentationError,
};
use hacksor::monitor::model::{CommandType, FindingSeverity, SecurityFinding};
use hacksor::monitor::registry::CommandMonitor;

const T0: Timestamp = Timestamp { secs: 1_700_000_000, nanos: 0 };

fn files() -> ProbeFiles {
    ProbeFiles {
        subdomains: String::from("\"/work/subdomains.txt\""),
        alive: String::from("\"/work/alive_subdomains.txt\""),
    }
}

fn record(title: &str, description: &str, command: &str, evidence: &str) -> DocumentedFinding {
    DocumentedFinding {
        id: String::from("FINDING-1234abcd"),
        title: String::from(title),
        description: String::from(description),
        severity: FindingSeverity::Info,
        discovery_date: T0,
        discovery_command: String::from(command),
        raw_evidence: String::from(evidence),
        follow_up_actions: Vec::new(),
        status: FindingStatus::New,
        file_path: String::from("findings/x.md"),
    }
}

fn action(id: &str, command: Option<&str>) -> FollowUpAction {
    FollowUpAction {
        id: String::from(id),
        description: String::from("do it"),
        command: command.map(String::from),
        status: ActionStatus::Pending,
        result: None,
    }
}

fn finding(command_id: &str) -> SecurityFinding {
    SecurityFinding {
        id: String::from("f-1"),
        title: String::from("Open Ports Detected!"),
        description: String::from("Port 80"),
        severity: FindingSeverity::Info,
        command_id: String::from(command_id),
        raw_output: String::from("80/tcp open http"),
        timestamp: T0,
    }
}

#[test]
fn open_port_finding_yields_version_scan() {
    let plan = plan_follow_ups(
        &record("Open Port", "Port 80, Port 443", "nmap example.com", ""),
        &files(),
    );
    assert_eq!(plan.drafts.len(), 2);
    assert_eq!(plan.drafts[0].description, "Update documentation for finding FINDING-1234abcd");
    assert_eq!(plan.drafts[0].command, None);
    assert_eq!(plan.drafts[1].command, Some(String::from("nmap -sV -p80,443 example.com")));
    assert_eq!(plan.drafts[1].description, "Perform service version detection on ports: 80,443");
    assert_eq!(plan.subdomain_list, None);
}

#[test]
fn open_port_finding_without_target_yields_documentation_only() {
    let plan = plan_follow_ups(&record("Open Ports Detected", "Port 80", "nmap -p80", ""), &files());
    assert_eq!(plan.drafts.len(), 1);
    let plan = plan_follow_ups(&record("Open Ports Detected", "none", "nmap example.com", ""), &files());
    assert_eq!(plan.drafts.len(), 1);
}

#[test]
fn target_is_the_last_domain_or_address() {
    assert_eq!(extract_target_from_command("nmap example.com"), Some(String::from("example.com")));
    assert_eq!(
        extract_target_from_command("nmap -sV a.example.org 10.0.0.7 -oN out"),
        Some(String::from("10.0.0.7"))
    );
    assert_eq!(extract_target_from_command("nmap -sV localhost"), None);
    assert_eq!(extract_target_from_command(""), None);
}

#[test]
fn subdomain_finding_yields_probe_and_list() {
    let plan = plan_follow_ups(
        &record("Subdomains Discovered", "d", "subfinder", "a.example.com\nb.example.com"),
        &files(),
    );
    assert_eq!(plan.drafts.len(), 2);
    assert_eq!(plan.drafts[1].description, "Check which subdomains are active and resolve");
    assert_eq!(
        plan.drafts[1].command,
        Some(String::from("cat \"/work/subdomains.txt\" | httpx -silent -o \"/work/alive_subdomains.txt\""))
    );
    assert_eq!(plan.subdomain_list, Some(String::from("a.example.com\nb.example.com\n")));
    let empty = plan_follow_ups(&record("Subdomains Discovered", "d", "subfinder", ""), &files());
    assert_eq!(empty.drafts.len(), 1);
    assert_eq!(empty.subdomain_list, None);
}

#[test]
fn other_topics_yield_their_actions() {
    let path = plan_follow_ups(&record("Interesting Paths Discovered", "d", "c", "e"), &files());
    assert_eq!(path.drafts[1].description, "Manually analyze discovered paths for security vulnerabilities");
    assert_eq!(path.drafts[1].command, None);
    let version = plan_follow_ups(
        &record("Apache Version Disclosure", "Detected Apache version 2.4.41", "c", "e"),
        &files(),
    );
    assert_eq!(version.drafts[1].description, "Search for known vulnerabilities in Apache 2.4.41");
    assert_eq!(version.drafts[1].command, Some(String::from("searchsploit Apache 2.4.41")));
    let cve = plan_follow_ups(
        &record("Potential CVE Detected", "Found reference to CVE-2021-44228 in output", "c", "e"),
        &files(),
    );
    assert_eq!(cve.drafts[1].description, "Gather detailed information about CVE-2021-44228");
    assert_eq!(
        cve.drafts[1].command,
        Some(String::from("curl -s https://cve.circl.lu/api/cve/CVE-2021-44228"))
    );
    let xss = plan_follow_ups(&record("Potential XSS Vulnerability", "d", "c", "e"), &files());
    assert_eq!(xss.drafts[1].description, "Manually verify the XSS finding");
    let sql = plan_follow_ups(&record("Potential SQL Injection Vulnerability", "d", "c", "e"), &files());
    assert_eq!(sql.drafts[1].description, "Manually verify the SQL Injection finding");
    let other = plan_follow_ups(&record("Something else", "d", "c", "e"), &files());
    assert_eq!(other.drafts.len(), 1);
}

#[test]
fn first_topic_in_a_title_decides() {
    assert_eq!(classify("Version of CVE"), FindingTopic::Version);
    assert_eq!(classify("Open Port on Subdomain"), FindingTopic::OpenPort);
    assert_eq!(classify("Directory listing"), FindingTopic::Path);
    assert_eq!(classify("nothing"), FindingTopic::Other);
}

#[test]
fn generated_actions_are_pending_with_fresh_identifiers() {
    let store = AutoDocumentation::new(files());
    let follow_ups = store.generate_follow_up_actions(&record("Open Port", "Port 22", "nmap 10.1.2.3", ""));
    assert_eq!(follow_ups.actions.len(), 2);
    for a in &follow_ups.actions {
        assert_eq!(a.status, ActionStatus::Pending);
        assert_eq!(a.result, None);
        assert_eq!(a.id.len(), 36);
    }
    assert_ne!(follow_ups.actions[0].id, follow_ups.actions[1].id);
    assert_eq!(follow_ups.actions[1].command, Some(String::from("nmap -sV -p22 10.1.2.3")));
}

#[test]
fn documenting_needs_the_owning_command() {
    let monitor = CommandMonitor::new();
    assert_eq!(
        document_finding_as(&monitor, finding("abc"), "1234abcd-0000-4000-8000-000000000000", T0).err(),
        Some(DocumentationError::UnknownCommand)
    );
    assert_eq!(document_finding(&monitor, finding("abc")).err(), Some(DocumentationError::UnknownCommand));
}

#[test]
fn documented_finding_copies_the_finding() {
    let mut monitor = CommandMonitor::new();
    monitor.register_command("abc", "nmap example.com", CommandType::Reconnaissance, T0).unwrap();
    let d = document_finding_as(&monitor, finding("abc"), "1234abcd-0000-4000-8000-000000000000", T0).unwrap();
    assert_eq!(d.id, "FINDING-1234abcd");
    assert_eq!(d.title, "Open Ports Detected!");
    assert_eq!(d.description, "Port 80");
    assert_eq!(d.discovery_command, "nmap example.com");
    assert_eq!(d.raw_evidence, "80/tcp open http");
    assert_eq!(d.discovery_date, T0);
    assert_eq!(d.status, FindingStatus::New);
    assert!(d.follow_up_actions.is_empty());
    assert_eq!(d.file_path, "findings/20231114_FINDING-1234abcd_open_ports_detected.md");
    let fresh = document_finding(&monitor, finding("abc")).unwrap();
    assert!(fresh.id.starts_with("FINDING-"));
    assert_eq!(fresh.id.len(), 16);
}

#[test]
fn unrepresentable_date_is_refused() {
    let mut monitor = CommandMonitor::new();
    monitor.register_command("abc", "nmap example.com", CommandType::Reconnaissance, T0).unwrap();
    let far = Timestamp { secs: i64::MIN, nanos: 0 };
    assert_eq!(
        document_finding_as(&monitor, finding("abc"), "u", far).err(),
        Some(DocumentationError::UnrepresentableTime)
    );
}

#[test]
fn slug_keeps_letters_digits_and_underscores() {
    assert_eq!(slugify("Open Ports Detected"), "open_ports_detected");
    assert_eq!(slugify("XSS: <b>/path?x=1 _ok_"), "xss_bpathx1__ok_");
    assert_eq!(slugify("Größe 2"), "größe_2");
    assert_eq!(slugify(""), "");
}

#[test]
fn document_renders_every_part() {
    let mut d = record("Open Ports Detected", "Port 80", "nmap example.com", "80/tcp open http");
    let plain = render_finding(&d).unwrap();
    assert_eq!(
        plain,
        "# Open Ports Detected (FINDING-1234abcd)\n\n## Description\nPort 80\n\n**Severity:** Info\n\
**Discovery Date:** 2023-11-14 22:13:20 UTC\n**Status:** New\n\n## Discovery Method\n```\nnmap example.com\n```\n\n\
## Evidence\n```\n80/tcp open http\n```\n\n## Notes\n_Add your notes here_\n"
    );
    let mut done = action("a-1", Some("nmap -sV -p80 example.com"));
    done.status = ActionStatus::Completed;
    done.result = Some(String::from("ok"));
    d.follow_up_actions.push(action("a-0", None));
    d.follow_up_actions.push(done);
    let full = render_finding(&d).unwrap();
    assert!(full.contains(
        "```\n\n## Follow-up Actions\n\n### Action 1: do it\n**Status:** Pending\n\n\
### Action 2: do it\n**Status:** Completed\n**Command:**\n```\nnmap -sV -p80 example.com\n```\n\
**Result:**\n```\nok\n```\n\n## Notes\n"
    ));
    d.discovery_date = Timestamp { secs: i64::MAX, nanos: 0 };
    assert_eq!(render_finding(&d), None);
}

#[test]
fn merge_updates_exactly_the_matching_action() {
    let mut store = AutoDocumentation::new(files());
    let mut first = record("A", "d", "c", "e");
    first.id = String::from("FINDING-1");
    let mut second = record("B", "d", "c", "e");
    second.id = String::from("FINDING-2");
    store.remember(first);
    store.remember(second);
    store.add_follow_up_to_finding("FINDING-2", action("a-1", Some("ls"))).unwrap();
    store.add_follow_up_to_finding("FINDING-2", action("a-2", Some("pwd"))).unwrap();
    let before = store.findings();
    let mut outcome = action("a-2", None);
    outcome.description = String::from("ignored");
    outcome.status = ActionStatus::Completed;
    outcome.result = Some(String::from("/root"));
    let updated = store.update_finding_with_action_result(&outcome).unwrap();
    assert_eq!(updated.id, "FINDING-2");
    let after = store.findings();
    assert_eq!(format!("{:?}", after[0]), format!("{:?}", before[0]));
    assert_eq!(format!("{:?}", after[1].follow_up_actions[0]), format!("{:?}", before[1].follow_up_actions[0]));
    let merged = &after[1].follow_up_actions[1];
    assert_eq!(merged.id, "a-2");
    assert_eq!(merged.description, "do it");
    assert_eq!(merged.command, Some(String::from("pwd")));
    assert_eq!(merged.status, ActionStatus::Completed);
    assert_eq!(merged.result, Some(String::from("/root")));
    assert_eq!(after[1].title, before[1].title);
    assert_eq!(after[1].file_path, before[1].file_path);
    // Merging the same outcome again changes nothing, and neither does rendering again.
    let document = render_finding(&updated).unwrap();
    let again = store.update_finding_with_action_result(&outcome).unwrap();
    assert_eq!(format!("{:?}", store.findings()), format!("{:?}", after));
    assert_eq!(render_finding(&again).unwrap(), document);
    assert!(document.contains("**Result:**\n```\n/root\n```\n"));
}

#[test]
fn merge_of_unknown_action_fails_and_changes_nothing() {
    let mut store = AutoDocumentation::new(files());
    store.remember(record("A", "d", "c", "e"));
    let before = format!("{:?}", store.findings());
    assert_eq!(
        store.update_finding_with_action_result(&action("nope", None)).err(),
        Some(DocumentationError::ActionNotFound)
    );
    assert_eq!(
        store.add_follow_up_to_finding("FINDING-nope", action("a", None)).err(),
        Some(DocumentationError::FindingNotFound)
    );
    assert_eq!(format!("{:?}", store.findings()), before);
}

#[test]
fn remembering_the_same_identifier_replaces_the_record() {
    let mut store = AutoDocumentation::new(files());
    store.remember(record("A", "d", "c", "e"));
    store.remember(record("B", "d", "c", "e"));
    let all = store.findings();
    assert_eq!(all.len(), 1);
    assert_eq!(all[0].title, "B");
}

#[test]
fn summary_counts_by_severity() {
    let mut store = AutoDocumentation::new(files());
    let mut a = record("Ports", "Port 80", "c", "e");
    a.id = String::from("FINDING-a");
    let mut b = record("CVE", "bad", "c", "e");
    b.id = String::from("FINDING-b");
    b.severity = FindingSeverity::High;
    let mut c = record("More ports", "Port 22", "c", "e");
    c.id = String::from("FINDING-c");
    store.remember(a);
    store.remember(b);
    store.remember(c);
    let report = store.generate_summary_report(T0).unwrap();
    assert_eq!(
        report,
        "# Security Assessment Summary Report\nGenerated: 2023-11-14 22:13:20 UTC\n\n\
## Findings Overview\n| Severity | Count |\n|----------|-------|\n\
| Critical | 0 |\n| High     | 1 |\n| Medium   | 0 |\n| Low      | 0 |\n| Info     | 2 |\n\
| **Total**    | **3** |\n\n\
## High Findings\n\n### CVE (FINDING-b)\nbad\n\n\
## Info Findings\n\n### Ports (FINDING-a)\nPort 80\n\n### More ports (FINDING-c)\nPort 22\n\n"
    );
}

#[test]
fn documentation_starts_once() {
    let mut store = AutoDocumentation::new(files());
    assert!(store.start());
    assert!(!store.start());
    store.stop();
    assert!(store.start());
}
