use hacksor::conversation::{GeminiAI, ParsedReply, Role, MODEL, SYSTEM_PROMPT};
use hacksor::config::{Config, RateLimitConfig};
use hacksor::intent::{
    DirectoryTarget, IntentDetector, PortScanTarget, ReconTarget, ScanTarget, SubdomainTarget, UserIntent,
    XssTarget,
};
use hacksor::monitor::model::CommandType;
use hacksor::results::{describe_results, important_lines, latest_command, recent_ended, truncate_result, ResultEntry};
use hacksor::clock::Timestamp;
use hacksor::monitor::registry::{CommandMonitor, ExitOutcome};
use hacksor::util::parse_scope;
use hacksor::response::{
    analyze_command_output, apply_target_based_safety, determine_command_type, extract_commands,
    process_response,
};
use hacksor::text::{
    count_char, parse_i32, parse_u32, sort_unique, str_less, str_prefix_before, str_second_part, strip_chars,
    strip_prefixes,
};

fn strings(items: &[&str]) -> Vec<String> {
    items.iter().map(|s| String::from(*s)).collect()
}

#[test]
fn command_type_follows_the_tool() {
    assert_eq!(determine_command_type("NMAP -sV example.com"), CommandType::Reconnaissance);
    assert_eq!(determine_command_type("gobuster dir -u http://x"), CommandType::Scanning);
    assert_eq!(determine_command_type("sqlmap -u http://x"), CommandType::Exploitation);
    assert_eq!(determine_command_type("nuclei -u http://x"), CommandType::Vulnerability);
    assert_eq!(determine_command_type("grep root /etc/passwd"), CommandType::Documentation);
    assert_eq!(determine_command_type("ls -la"), CommandType::Generic);
    // A word of an earlier group wins: "ghost" holds "host".
    assert_eq!(determine_command_type("echo ghost"), CommandType::Reconnaissance);
}

#[test]
fn output_is_read_by_the_kind_of_tool() {
    assert_eq!(
        analyze_command_output("wafw00f example.com", ""),
        "No WAF (Web Application Firewall) was detected. This suggests the site may not have this layer of protection."
    );
    assert_eq!(
        analyze_command_output("wafw00f example.com", "checking\nThe site is behind X (identified)\nbye"),
        "A WAF was detected! The site is behind X (identified)"
    );
    assert_eq!(analyze_command_output("wafw00f x", "hmm"), "Ran WAF detection. Raw output:\nhmm");
    assert_eq!(
        analyze_command_output("nmap example.com", "PORT STATE\n80/tcp open http\n22/tcp closed ssh\n443/tcp open https"),
        "Found open ports:\n80/tcp open http\n443/tcp open https"
    );
    assert_eq!(
        analyze_command_output("nmap example.com", "22/tcp closed ssh"),
        "No open ports were detected in the specified range."
    );
    assert_eq!(analyze_command_output("nmap x", "done"), "Scan completed. Raw output:\ndone");
    assert_eq!(
        analyze_command_output("dig example.com", ";; ANSWER SECTION:\nexample.com. 300 IN A 1.2.3.4\n;; done"),
        "DNS information retrieved:\nexample.com. 300 IN A 1.2.3.4"
    );
    assert_eq!(analyze_command_output("nslookup x", "nothing"), "DNS lookup completed. Raw output:\nnothing");
    assert_eq!(
        analyze_command_output("gobuster dir", "/a (Status: 200)\n/b (Status: 404)\n/c (Status: 301)"),
        "Found directories/files:\n/a (Status: 200)\n/c (Status: 301)"
    );
    assert_eq!(
        analyze_command_output("dirb http://x", "Status: 404"),
        "Directory scan completed but no significant findings were detected."
    );
    assert_eq!(
        analyze_command_output("dirb http://x", "nothing"),
        "Directory scan completed but no accessible resources were found."
    );
    assert_eq!(
        analyze_command_output("curl -I http://x | grep Server", "HTTP/1.1 200\nServer: nginx\n"),
        "Server information: Server: nginx"
    );
    assert_eq!(analyze_command_output("curl -I server", "x"), "Server information: No Server header found.");
    assert_eq!(analyze_command_output("curl http://x", "<html>"), "Retrieved HTML content from the target site.");
    assert_eq!(analyze_command_output("curl http://x", "{\"a\":1}"), "Retrieved JSON data from the target site.");
    assert_eq!(analyze_command_output("curl http://x", "plain"), "CURL command completed. Output:\nplain");
    assert_eq!(analyze_command_output("ls", "a\nb"), "Command completed. Output:\na\nb");
}

#[test]
fn commands_come_from_shell_blocks_only() {
    let text = "Here we go:\n```bash\n# a comment\nnmap -sV example.com.\n\nyou can try this one\nnmap -sV\n  whois example.org  \n```\n```python\nprint('x')\n```\n```sh\nls -la\n```\n```shell\ndig example.com\n";
    assert_eq!(extract_commands(text), strings(&["nmap -sV example.com", "whois example.org", "ls -la"]));
    assert!(extract_commands("no code here").is_empty());
    assert!(extract_commands("```\nls\n```").is_empty());
}

#[test]
fn reply_is_split_into_text_and_commands() {
    let reply = "Let me look.\n[ACTION] hidden\n[Hacksor] Taking action: `nmap -sV example.com`.\n```bash\nnmap -sV example.com\nwhois example.com\n```\n  [Hacksor] Taking action: dig example.com.\n[Hacksor] Taking action: we can scan";
    let (display, commands) = process_response(reply);
    assert_eq!(
        display,
        "Let me look.\n[Hacksor] Taking action: `nmap -sV example.com`.\n```bash\nnmap -sV example.com\nwhois example.com\n```\n  [Hacksor] Taking action: dig example.com.\n[Hacksor] Taking action: we can scan"
    );
    assert_eq!(commands, strings(&["nmap -sV example.com", "whois example.com", "dig example.com"]));
}

#[test]
fn prestigious_targets_are_handled_gently() {
    let commands = strings(&[
        "nmap -A -T4 harvard.edu",
        "nmap example.com",
        "nmap -sV nasa.gov",
        "gobuster dir -u http://mit.example -t 50",
        "gobuster dir -u http://stanford.example",
        "ffuf -u http://x.gov/FUZZ -t 5",
        "ffuf -u http://x.com/FUZZ -t 500",
    ]);
    assert_eq!(
        apply_target_based_safety(&commands),
        strings(&[
            "nmap -sV -T2 harvard.edu",
            "nmap example.com",
            "nmap -sV nasa.gov -T2",
            "gobuster dir -u http://mit.example -t 10",
            "gobuster dir -u http://stanford.example -t 10",
            "ffuf -u http://x.gov/FUZZ -t 5",
            "ffuf -u http://x.com/FUZZ -t 500",
        ])
    );
}

#[test]
fn intents_are_detected_in_order() {
    let detector = IntentDetector::new();
    assert_eq!(
        detector.detect_intent("Test example.com for XSS with Dalfox"),
        UserIntent::XssTesting(XssTarget {
            domain: String::from("example.com"),
            preferred_tool: Some(String::from("dalfox")),
        })
    );
    assert_eq!(
        detector.detect_intent("port scan example.com, full please"),
        UserIntent::PortScan(PortScanTarget { domain: String::from("example.com"), scan_type: String::from("full") })
    );
    assert_eq!(
        detector.detect_intent("directory scan on example.com"),
        UserIntent::DirectoryEnum(DirectoryTarget { domain: String::from("example.com") })
    );
    assert_eq!(
        detector.detect_intent("find subdomains of example.com"),
        UserIntent::SubdomainEnum(SubdomainTarget { domain: String::from("example.com") })
    );
    assert_eq!(
        detector.detect_intent("security scan of the web app example.com"),
        UserIntent::VulnerabilityScan(ScanTarget {
            domain: String::from("example.com"),
            scan_type: String::from("web"),
        })
    );
    assert_eq!(
        detector.detect_intent("do recon on example.com: subdomain and path"),
        UserIntent::Reconnaissance(ReconTarget {
            domain: String::from("example.com"),
            techniques: strings(&["subdomain_enum", "directory_enum"]),
        })
    );
    assert_eq!(
        detector.detect_intent("reconnaissance of example.com"),
        UserIntent::Reconnaissance(ReconTarget {
            domain: String::from("example.com"),
            techniques: strings(&["basic"]),
        })
    );
    assert_eq!(detector.detect_intent("port scan please"), UserIntent::Unknown);
    assert_eq!(detector.detect_intent("hello example.com"), UserIntent::Unknown);
}

#[test]
fn intents_map_to_templates() {
    let detector = IntentDetector::new();
    let target = |name: &str| Some((String::from(name), vec![(String::from("target"), String::from("example.com"))]));
    let xss = |tool: Option<&str>| {
        UserIntent::XssTesting(XssTarget { domain: String::from("example.com"), preferred_tool: tool.map(String::from) })
    };
    assert_eq!(detector.map_intent_to_command(&xss(Some("dalfox"))), target("dalfox"));
    assert_eq!(detector.map_intent_to_command(&xss(Some("xsser"))), target("xsser"));
    assert_eq!(detector.map_intent_to_command(&xss(Some("other"))), target("xsser"));
    assert_eq!(detector.map_intent_to_command(&xss(None)), target("xsser"));
    let port = |kind: &str| {
        UserIntent::PortScan(PortScanTarget { domain: String::from("example.com"), scan_type: String::from(kind) })
    };
    assert_eq!(detector.map_intent_to_command(&port("full")), target("nmap_all_ports"));
    assert_eq!(detector.map_intent_to_command(&port("service")), target("nmap_service"));
    assert_eq!(detector.map_intent_to_command(&port("basic")), target("nmap_basic"));
    assert_eq!(detector.map_intent_to_command(&UserIntent::Help), None);
    assert_eq!(detector.map_intent_to_command(&UserIntent::Information), None);
    assert_eq!(detector.map_intent_to_command(&UserIntent::Unknown), None);
}

#[test]
fn conversation_keeps_its_history() {
    let mut ai = GeminiAI::new(String::from("key"));
    assert_eq!(ai.model, MODEL);
    assert_eq!(ai.messages.len(), 1);
    assert_eq!(ai.messages[0].role, Role::System);
    let first = ai.request_parts();
    assert_eq!(first.len(), 1);
    assert_eq!(first[0].role, "user");
    assert_eq!(first[0].text, SYSTEM_PROMPT);
    ai.add_assistant_message("Hello, I am Hacksor.");
    ai.add_user_message("scan example.com");
    ai.add_user_message("and then?");
    ai.add_command_result("nmap example.com", "80 open");
    let parts = ai.request_parts();
    let roles: Vec<&str> = parts.iter().map(|p| p.role.as_str()).collect();
    assert_eq!(roles, vec!["model", "user", "user", "model"]);
    assert_eq!(parts[1].text, format!("{}\n\nscan example.com", SYSTEM_PROMPT));
    assert_eq!(parts[2].text, "and then?");
    assert_eq!(parts[3].text, "Command executed: nmap example.com\nResult: 80 open");
    ai.clear_conversation();
    assert_eq!(ai.messages.len(), 1);
    assert_eq!(ai.messages[0].role, Role::System);
}

#[test]
fn replies_are_accepted_or_refused() {
    let mut ai = GeminiAI::new(String::from("key"));
    let ok = ai.accept_reply(ParsedReply::Structured { error: None, text: Some(String::from("hi")) }, "{}");
    assert_eq!(ok, Ok(String::from("hi")));
    assert_eq!(ai.messages.len(), 2);
    assert_eq!(ai.messages[1].role, Role::Assistant);
    assert_eq!(ai.messages[1].content, "hi");
    let cases = vec![
        (
            ParsedReply::Structured { error: Some(Some(String::from("quota"))), text: Some(String::from("x")) },
            "Gemini API error: quota",
        ),
        (ParsedReply::Structured { error: Some(None), text: None }, "Gemini API error: Unknown API error"),
        (ParsedReply::Structured { error: None, text: None }, "Could not extract text from API response: RAW"),
        (ParsedReply::Loose { error_message: Some(String::from("bad")) }, "Gemini API error: bad"),
        (ParsedReply::Loose { error_message: None }, "Unexpected API response format: RAW"),
        (ParsedReply::Unreadable, "Failed to parse API response: RAW"),
    ];
    for (reply, words) in cases {
        assert_eq!(ai.accept_reply(reply, "RAW"), Err(String::from(words)));
        assert_eq!(ai.messages.len(), 2);
    }
}

#[test]
fn questions_about_results_are_recognized() {
    let ai = GeminiAI::new(String::new());
    assert!(ai.is_asking_about_results("So, WHAT DID YOU FIND?"));
    assert!(ai.is_asking_about_results("any output?"));
    assert!(!ai.is_asking_about_results("scan example.com"));
    assert_eq!(
        ai.analyze_user_intent("port scan example.com"),
        Some((String::from("nmap_basic"), vec![(String::from("target"), String::from("example.com"))]))
    );
    assert_eq!(ai.analyze_user_intent("hello"), None);
}

#[test]
fn default_config_is_as_documented() {
    let config = Config::default();
    assert_eq!(config.api_key, "");
    assert_eq!(config.working_dir, "sessions");
    assert!(config.tools.is_empty());
    assert_eq!(config.rate_limit, RateLimitConfig { requests_per_minute: 60, concurrent_connections: 10 });
}

#[test]
fn numbers_parse_as_std_does() {
    for s in ["0", "7", "+12", "4294967295", "4294967296", "", "+", "-1", "12a", " 1", "00012", "٣"] {
        assert_eq!(parse_u32(s), s.parse::<u32>().ok(), "{:?}", s);
    }
    for s in ["0", "-0", "+5", "-5", "2147483647", "2147483648", "-2147483648", "-2147483649", "", "-", "+", "1-", "--1"] {
        assert_eq!(parse_i32(s), s.parse::<i32>().ok(), "{:?}", s);
    }
}

#[test]
fn strings_sort_as_std_does() {
    let items = strings(&["b", "a", "", "ab", "a", "B", "é", "z", "ab", "aa", "\u{10000}", "\u{ffff}"]);
    let mut expected = items.clone();
    expected.sort();
    expected.dedup();
    assert_eq!(sort_unique(&items), expected);
    for a in &items {
        for b in &items {
            assert_eq!(str_less(a, b), a < b);
        }
    }
}

#[test]
fn text_helpers_agree_with_std() {
    assert_eq!(str_prefix_before("1234abcd-0000", '-'), "1234abcd");
    assert_eq!(str_prefix_before("none", '-'), "none");
    assert_eq!(str_prefix_before("-x", '-'), "");
    assert_eq!(strip_chars("`.,ls -la).,", &vec!['`', '.', ',', ')']), "ls -la");
    assert_eq!(strip_chars("...", &vec!['.']), "");
    assert_eq!(strip_prefixes("``````bash", "```"), "bash");
    assert_eq!(strip_prefixes("bash", "```"), "bash");
    assert_eq!(str_second_part("a::b::c", "::"), Some(String::from("b")));
    assert_eq!(str_second_part("a::b", "::"), Some(String::from("b")));
    assert_eq!(str_second_part("ab", "::"), None);
    assert_eq!(count_char("a`b`c`", '`'), 3);
}

#[test]
fn recent_results_are_ranked_latest_first() {
    let at = |secs: i64| Timestamp { secs, nanos: 0 };
    let mut monitor = CommandMonitor::new();
    for (id, start) in [("a", 10), ("b", 20), ("c", 30), ("d", 40), ("e", 50)] {
        monitor.register_command(id, id, CommandType::Generic, at(start)).unwrap();
    }
    monitor.record_exit_at("a", &ExitOutcome::Success, at(100));
    monitor.record_exit_at("b", &ExitOutcome::Success, at(300));
    monitor.record_exit_at("c", &ExitOutcome::Success, at(100));
    monitor.record_exit_at("e", &ExitOutcome::Success, at(200));
    let commands = monitor.get_all_commands();
    let ids = |limit: usize| -> Vec<String> {
        recent_ended(&commands, limit).into_iter().map(|c| c.id).collect()
    };
    assert_eq!(ids(3), strings(&["b", "e", "a"]));
    assert_eq!(ids(10), strings(&["b", "e", "a", "c"]));
    assert!(ids(0).is_empty());
    assert_eq!(latest_command(&commands), Some(4));
    assert_eq!(latest_command(&Vec::new()), None);
}

#[test]
fn logs_are_read_for_what_they_say() {
    let log = "[STDOUT] 80/tcp open http\n\n   \n=== rule ===\nfound it\nPress Enter to continue\nlast\nextra";
    assert_eq!(important_lines(log, 10, false), strings(&["=== rule ===", "found it", "last", "extra"]));
    assert_eq!(important_lines(log, 2, true), strings(&["found it", "last"]));
    assert!(important_lines(log, 0, true).is_empty());
}

#[test]
fn results_are_described() {
    assert_eq!(
        describe_results(&Vec::new()),
        "Based on the previous commands, I haven't completed any commands yet. Would you like me to run a specific scan or test?"
    );
    let entries = vec![
        ResultEntry { command: String::from("nmap x"), lines: Some(strings(&["a", "b"])) },
        ResultEntry { command: String::from("dig x"), lines: Some(Vec::new()) },
        ResultEntry { command: String::from("ls"), lines: None },
    ];
    assert_eq!(
        describe_results(&entries),
        "Based on the previous commands, I executed `nmap x` and found: \na\nb\n\nAdditionally, I executed `dig x` but no significant output was captured.\nAdditionally, I executed `ls` but couldn't retrieve the results.\n"
    );
}

#[test]
fn long_results_are_cut() {
    let long = "x".repeat(201);
    assert_eq!(truncate_result(&long), format!("{}... (truncated)", "x".repeat(200)));
    let exact = "é".repeat(200);
    assert_eq!(truncate_result(&exact), exact);
    assert_eq!(truncate_result(""), "");
}

#[test]
fn scope_files_are_read_without_comments() {
    assert_eq!(parse_scope("# scope\nexample.com\n\n  \n *.example.org\n#x\n"), strings(&["example.com", " *.example.org"]));
}
