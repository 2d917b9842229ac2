use hacksor::analyzer::engine::{analyze_output, should_analyze, OutputAnalyzer, ANALYSIS_INTERVAL_NANOS};
use hacksor::analyzer::paths::analyze_paths;
use hacksor::analyzer::ports::{analyze_port_scan, describe_ports, OpenPort};
use hacksor::analyzer::subdomains::{analyze_subdomains, describe_subdomains};
use hacksor::analyzer::vulnerabilities::analyze_vulnerabilities;
use hacksor::clock::Timestamp;
use hacksor::monitor::model::{CommandOutput, CommandType, FindingSeverity};
use hacksor::monitor::registry::CommandMonitor;

const T0: Timestamp = Timestamp { secs: 1_700_000_000, nanos: 0 };

fn line(command_id: &str, text: &str) -> CommandOutput {
    CommandOutput { command_id: String::from(command_id), line: String::from(text), is_error: false }
}

#[test]
fn open_ports_become_one_finding() {
    let analysis = analyze_port_scan("80/tcp open http\n443/tcp open https");
    assert_eq!(analysis.drafts.len(), 1);
    let draft = &analysis.drafts[0];
    assert_eq!(draft.title, "Open Ports Detected");
    assert_eq!(draft.description, "The following ports were found open: Port 80 (http), Port 443 (https)");
    assert_eq!(draft.severity, FindingSeverity::Info);
    assert_eq!(draft.raw_output, "80/tcp open http\n443/tcp open https");
    assert_eq!(analysis.summary, Some(String::from("Detected 2 open ports: Port 80 (http), Port 443 (https)")));
}

#[test]
fn port_table_heading_alone_finds_nothing() {
    let analysis = analyze_port_scan("PORT   STATE SERVICE VERSION\n22/tcp closed ssh");
    assert!(analysis.drafts.is_empty());
    assert_eq!(analysis.summary, None);
}

#[test]
fn port_without_service_has_a_short_label() {
    let ports = vec![
        OpenPort { port: String::from("22"), service: String::new() },
        OpenPort { port: String::from("53"), service: String::from("domain") },
    ];
    let analysis = describe_ports(&ports, "ctx");
    assert_eq!(analysis.drafts[0].description, "The following ports were found open: Port 22, Port 53 (domain)");
    assert!(describe_ports(&Vec::new(), "ctx").drafts.is_empty());
}

#[test]
fn reconnaissance_output_gives_exactly_one_port_finding() {
    let mut monitor = CommandMonitor::new();
    monitor.register_command("abc", "nmap example.com", CommandType::Reconnaissance, T0).unwrap();
    let mut analyzer = OutputAnalyzer::new();
    let first = analyzer.handle_output_at(&mut monitor, line("abc", "80/tcp open http"), 0);
    assert_eq!(first.len(), 1);
    assert_eq!(first[0].description, "The following ports were found open: Port 80 (http)");
    // Within five seconds the output is kept and not analyzed again.
    let second = analyzer.handle_output_at(&mut monitor, line("abc", "443/tcp open https"), 1_000_000_000);
    assert!(second.is_empty());
    let found = analyzer.analyze_command_output(&mut monitor, "abc");
    assert_eq!(found.len(), 1);
    assert_eq!(found[0].title, "Open Ports Detected");
    assert_eq!(
        found[0].description,
        "The following ports were found open: Port 80 (http), Port 443 (https)"
    );
    assert_eq!(found[0].command_id, "abc");
    assert_eq!(found[0].id.len(), 36);
    let command = monitor.get_command("abc").unwrap();
    assert_eq!(command.findings.len(), 2);
    assert_eq!(
        command.results_summary,
        Some(String::from("Detected 2 open ports: Port 80 (http), Port 443 (https)"))
    );
}

#[test]
fn analysis_is_throttled_to_five_seconds() {
    assert!(should_analyze(None, 0));
    assert!(!should_analyze(Some(10), 10));
    assert!(!should_analyze(Some(10), 5));
    assert!(!should_analyze(Some(0), ANALYSIS_INTERVAL_NANOS));
    assert!(should_analyze(Some(0), ANALYSIS_INTERVAL_NANOS + 1));
    let mut monitor = CommandMonitor::new();
    monitor.register_command("abc", "nmap example.com", CommandType::Reconnaissance, T0).unwrap();
    let mut analyzer = OutputAnalyzer::new();
    assert_eq!(analyzer.handle_output_at(&mut monitor, line("abc", "80/tcp open http"), 100).len(), 1);
    assert_eq!(analyzer.handle_output_at(&mut monitor, line("abc", "81/tcp open x"), 100 + ANALYSIS_INTERVAL_NANOS).len(), 0);
    let later = analyzer.handle_output_at(&mut monitor, line("abc", "82/tcp open y"), 101 + ANALYSIS_INTERVAL_NANOS);
    assert_eq!(later.len(), 1);
    assert_eq!(
        later[0].description,
        "The following ports were found open: Port 80 (http), Port 81 (x), Port 82 (y)"
    );
    assert_eq!(analyzer.context_of("abc"), Some(String::from("80/tcp open http\n81/tcp open x\n82/tcp open y")));
    assert_eq!(analyzer.context_of("other"), None);
}

#[test]
fn output_of_unknown_command_is_kept_but_finds_nothing() {
    let mut monitor = CommandMonitor::new();
    let mut analyzer = OutputAnalyzer::new();
    assert!(analyzer.handle_output_at(&mut monitor, line("ghost", "80/tcp open http"), 0).is_empty());
    assert_eq!(analyzer.context_of("ghost"), Some(String::from("80/tcp open http")));
    assert!(monitor.get_all_commands().is_empty());
}

#[test]
fn analyzer_starts_once() {
    let mut analyzer = OutputAnalyzer::new();
    assert!(analyzer.start());
    assert!(!analyzer.start());
    analyzer.stop();
    assert!(analyzer.start());
}

#[test]
fn vulnerability_lines_give_findings_by_kind() {
    let analysis = analyze_vulnerabilities(
        "Server: Apache/2.4.41 detected\nSee CVE-2021-44228 for details\nhost is VULNERABLE\nreflected XSS found\nsql injection possible\nnothing here",
    );
    let titles: Vec<&str> = analysis.drafts.iter().map(|d| d.title.as_str()).collect();
    assert_eq!(
        titles,
        vec![
            "Apache Version Disclosure",
            "Potential CVE Detected",
            "Potential Vulnerability Detected",
            "Potential XSS Vulnerability",
            "Potential SQL Injection Vulnerability",
        ]
    );
    assert_eq!(analysis.drafts[0].description, "Detected Apache version 2.4.41");
    assert_eq!(analysis.drafts[0].severity, FindingSeverity::Low);
    assert_eq!(analysis.drafts[0].raw_output, "Server: Apache/2.4.41 detected");
    assert_eq!(analysis.drafts[1].description, "Found reference to CVE-2021-44228 in output");
    assert_eq!(analysis.drafts[1].severity, FindingSeverity::High);
    assert_eq!(analysis.drafts[2].severity, FindingSeverity::Medium);
    assert_eq!(analysis.drafts[3].severity, FindingSeverity::High);
    assert_eq!(analysis.drafts[4].severity, FindingSeverity::High);
    assert_eq!(analysis.summary, None);
}

#[test]
fn a_line_that_meets_two_patterns_gives_two_findings() {
    let analysis = analyze_vulnerabilities("exploit for xss");
    // The words of weakness and the words of cross-site scripting both match the line;
    // each match reads the line anew, and words of vulnerability go first.
    assert_eq!(analysis.drafts.len(), 2);
    assert_eq!(analysis.drafts[0].title, "Potential Vulnerability Detected");
    assert_eq!(analysis.drafts[1].title, "Potential Vulnerability Detected");
}

#[test]
fn lower_case_cve_is_matched_but_not_reported() {
    assert!(analyze_vulnerabilities("see cve-2020-1234").drafts.is_empty());
}

#[test]
fn subdomains_are_sorted_and_deduplicated() {
    let analysis = analyze_subdomains(
        "mail.example.com\napi.example.com\nmail.example.com\nwww.example.com\nhttps://cdn.example.com\nplain",
    );
    assert_eq!(analysis.drafts.len(), 1);
    let draft = &analysis.drafts[0];
    assert_eq!(draft.title, "Subdomains Discovered");
    assert_eq!(draft.description, "Discovered 2 subdomains: api.example.com, mail.example.com");
    assert_eq!(draft.raw_output, "api.example.com\nmail.example.com");
    assert_eq!(draft.severity, FindingSeverity::Info);
    assert_eq!(analysis.summary, Some(String::from("Discovered 2 subdomains")));
}

#[test]
fn long_subdomain_lists_are_cut_in_the_description() {
    let names: Vec<String> = (0..12).map(|i| format!("h{:02}.example.com", i)).collect();
    let analysis = describe_subdomains(&names);
    assert_eq!(
        analysis.drafts[0].description,
        "Discovered 12 subdomains: h00.example.com, h01.example.com, h02.example.com, h03.example.com, h04.example.com, h05.example.com, h06.example.com, h07.example.com, h08.example.com, h09.example.com and 2 more"
    );
    assert_eq!(analysis.drafts[0].raw_output.lines().count(), 12);
    assert!(describe_subdomains(&Vec::new()).drafts.is_empty());
}

#[test]
fn paths_are_split_into_plain_and_sensitive() {
    let analysis = analyze_paths(
        "Status: 200 Size: 120 Path: /index.html\nStatus: 200 Size: 10 Path: /admin/login\n/backup \nnothing",
    );
    assert_eq!(analysis.drafts.len(), 2);
    assert_eq!(analysis.drafts[0].title, "Interesting Paths Discovered");
    assert_eq!(analysis.drafts[0].description, "Discovered 1 interesting paths: /index.html");
    assert_eq!(analysis.drafts[0].raw_output, "/index.html");
    assert_eq!(analysis.drafts[0].severity, FindingSeverity::Info);
    assert_eq!(analysis.drafts[1].title, "Potentially Sensitive Paths Discovered");
    assert_eq!(analysis.drafts[1].severity, FindingSeverity::Medium);
    // The line with /admin meets two patterns and is counted for each.
    assert_eq!(
        analysis.drafts[1].description,
        "Discovered 3 potentially sensitive paths: Status: 200 Size: 10 Path: /admin/login, Status: 200 Size: 10 Path: /admin/login, /backup "
    );
    assert_eq!(analysis.summary, Some(String::from("Discovered 4 paths (3 potentially sensitive)")));
}

#[test]
fn no_paths_no_summary() {
    let analysis = analyze_paths("nothing of note");
    assert!(analysis.drafts.is_empty());
    assert_eq!(analysis.summary, None);
}

#[test]
fn dispatch_follows_the_command_type() {
    let context = "80/tcp open http\nApache/2.4.41\nmail.example.com";
    let recon = analyze_output(CommandType::Reconnaissance, context);
    let titles: Vec<&str> = recon.drafts.iter().map(|d| d.title.as_str()).collect();
    assert_eq!(titles, vec!["Open Ports Detected", "Subdomains Discovered"]);
    // The version string has two dots and so counts as a host name as well.
    assert_eq!(recon.summary, Some(String::from("Discovered 2 subdomains")));
    assert_eq!(recon.drafts[1].raw_output, "Apache/2.4.41\nmail.example.com");
    let scan = analyze_output(CommandType::Scanning, context);
    assert_eq!(scan.drafts.len(), 1);
    assert_eq!(scan.drafts[0].title, "Apache Version Disclosure");
    assert_eq!(scan.summary, None);
    let vulnerability = analyze_output(CommandType::Vulnerability, context);
    assert_eq!(vulnerability.drafts.len(), 1);
    let generic = analyze_output(CommandType::Generic, context);
    let titles: Vec<&str> = generic.drafts.iter().map(|d| d.title.as_str()).collect();
    assert_eq!(titles, vec!["Open Ports Detected", "Apache Version Disclosure", "Subdomains Discovered"]);
    for other in [CommandType::Exploitation, CommandType::Documentation] {
        assert_eq!(analyze_output(other, context).drafts.len(), 3);
    }
}

#[test]
fn error_lines_are_analyzed_like_any_other() {
    let mut monitor = CommandMonitor::new();
    monitor.register_command("abc", "nikto -h example.com", CommandType::Scanning, T0).unwrap();
    let mut analyzer = OutputAnalyzer::new();
    let found = analyzer.handle_output_at(
        &mut monitor,
        CommandOutput { command_id: String::from("abc"), line: String::from("nginx/1.18.0 found"), is_error: true },
        7,
    );
    assert_eq!(found.len(), 1);
    assert_eq!(found[0].title, "nginx Version Disclosure");
    assert_eq!(found[0].severity, FindingSeverity::Low);
    assert_eq!(monitor.get_command("abc").unwrap().results_summary, None);
}

#[test]
fn repeated_analysis_repeats_findings() {
    let mut monitor = CommandMonitor::new();
    monitor.register_command("abc", "nmap example.com", CommandType::Reconnaissance, T0).unwrap();
    let mut analyzer = OutputAnalyzer::new();
    analyzer.handle_output_at(&mut monitor, line("abc", "80/tcp open http"), 0);
    analyzer.analyze_command_output(&mut monitor, "abc");
    analyzer.analyze_command_output(&mut monitor, "abc");
    let findings = monitor.get_command("abc").unwrap().findings;
    assert_eq!(findings.len(), 3);
    assert!(findings.iter().all(|f| f.title == "Open Ports Detected"));
    assert_ne!(findings[0].id, findings[1].id);
}
