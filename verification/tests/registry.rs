use hacksor::clock::Timestamp;
use hacksor::monitor::model::{CommandStatus, CommandType, FindingSeverity, SecurityFinding};
use hacksor::monitor::registry::{
    create_finding, CommandMonitor, ExecuteError, ExitOutcome, LookupError, WaitStep,
};
use hacksor::monitor::validation::ValidationError;

const T0: Timestamp = Timestamp { secs: 1_700_000_000, nanos: 0 };
const T1: Timestamp = Timestamp { secs: 1_700_000_060, nanos: 5 };

fn monitor_with(id: &str, command: &str) -> CommandMonitor {
    let mut monitor = CommandMonitor::new();
    monitor.register_command(id, command, CommandType::Reconnaissance, T0).unwrap();
    monitor
}

fn finding_for(command_id: &str, severity: FindingSeverity) -> SecurityFinding {
    SecurityFinding {
        id: String::from("f-1"),
        title: String::from("Title"),
        description: String::from("Description"),
        severity,
        command_id: String::from(command_id),
        raw_output: String::from("raw"),
        timestamp: T0,
    }
}

#[test]
fn registered_command_starts_running() {
    let monitor = monitor_with("abc", "nmap example.com");
    let command = monitor.get_command("abc").unwrap();
    assert_eq!(command.id, "abc");
    assert_eq!(command.command, "nmap example.com");
    assert_eq!(command.status, CommandStatus::Running);
    assert_eq!(command.start_time, T0);
    assert_eq!(command.end_time, None);
    assert_eq!(command.results_summary, None);
    assert!(command.findings.is_empty());
    assert_eq!(command.output_file, "command_output/20231114_221320_abc.log");
    assert_eq!(command.command_type, CommandType::Reconnaissance);
}

#[test]
fn duplicate_identifier_is_refused() {
    let mut monitor = monitor_with("abc", "nmap example.com");
    assert!(matches!(
        monitor.register_command("abc", "whois example.com", CommandType::Generic, T1),
        Err(ExecuteError::DuplicateId)
    ));
    assert_eq!(monitor.get_all_commands().len(), 1);
    assert_eq!(monitor.get_command("abc").unwrap().command, "nmap example.com");
}

#[test]
fn unrepresentable_start_time_is_refused() {
    let mut monitor = CommandMonitor::new();
    let far = Timestamp { secs: i64::MAX, nanos: 0 };
    assert!(matches!(
        monitor.register_command("abc", "ls", CommandType::Generic, far),
        Err(ExecuteError::UnrepresentableTime)
    ));
    assert!(monitor.get_all_commands().is_empty());
}

#[test]
fn execute_command_validates_and_registers() {
    let mut monitor = CommandMonitor::new();
    let id = monitor.execute_command("nmap -sS example.com", CommandType::Reconnaissance, &Vec::new()).unwrap();
    assert_eq!(id.len(), 36);
    let command = monitor.get_command(&id).unwrap();
    assert_eq!(command.command, "nmap -sT example.com");
    assert_eq!(command.status, CommandStatus::Running);
    assert!(command.output_file.starts_with("command_output/"));
    assert!(command.output_file.ends_with(&format!("_{}.log", id)));
}

#[test]
fn execute_command_refuses_invalid_commands() {
    let mut monitor = CommandMonitor::new();
    assert!(matches!(
        monitor.execute_command("", CommandType::Generic, &Vec::new()),
        Err(ExecuteError::Invalid(ValidationError::Empty))
    ));
    assert!(matches!(
        monitor.execute_command("nmap -sV", CommandType::Generic, &Vec::new()),
        Err(ExecuteError::Invalid(ValidationError::MissingTarget))
    ));
    assert!(monitor.get_all_commands().is_empty());
}

#[test]
fn fresh_identifiers_differ() {
    let mut monitor = CommandMonitor::new();
    let a = monitor.execute_command("ls", CommandType::Generic, &Vec::new()).unwrap();
    let b = monitor.execute_command("ls", CommandType::Generic, &Vec::new()).unwrap();
    assert_ne!(a, b);
    assert_eq!(monitor.get_all_commands().len(), 2);
}

#[test]
fn exit_is_recorded_once() {
    let mut monitor = monitor_with("abc", "ls");
    assert!(monitor.record_exit_at("abc", &ExitOutcome::Success, T1));
    let command = monitor.get_command("abc").unwrap();
    assert_eq!(command.status, CommandStatus::Completed);
    assert_eq!(command.end_time, Some(T0_PLUS));
    assert!(!monitor.record_exit_at("abc", &ExitOutcome::Failure(String::from("exit status: 1")), T0));
    let command = monitor.get_command("abc").unwrap();
    assert_eq!(command.status, CommandStatus::Completed);
    assert_eq!(command.end_time, Some(T0_PLUS));
}

const T0_PLUS: Timestamp = T1;

#[test]
fn failed_exit_carries_the_reason() {
    let mut monitor = monitor_with("abc", "ls");
    monitor.register_command("def", "ls", CommandType::Generic, T0).unwrap();
    monitor.record_exit_at("abc", &ExitOutcome::Failure(String::from("exit status: 2")), T1);
    monitor.record_exit_at("def", &ExitOutcome::WaitFailed(String::from("gone")), T1);
    assert_eq!(
        monitor.get_command("abc").unwrap().status,
        CommandStatus::Failed(String::from("Command exited with code: exit status: 2"))
    );
    assert_eq!(
        monitor.get_command("def").unwrap().status,
        CommandStatus::Failed(String::from("Error waiting for command: gone"))
    );
}

#[test]
fn exit_of_unknown_command_changes_nothing() {
    let mut monitor = monitor_with("abc", "ls");
    assert!(!monitor.record_exit_at("nope", &ExitOutcome::Success, T1));
    assert_eq!(monitor.get_command("abc").unwrap().status, CommandStatus::Running);
}

#[test]
fn end_time_is_set_exactly_when_terminal() {
    let mut monitor = CommandMonitor::new();
    for id in ["a", "b", "c"] {
        monitor.register_command(id, "ls", CommandType::Generic, T0).unwrap();
    }
    monitor.record_exit_at("a", &ExitOutcome::Success, T1);
    monitor.record_exit_at("c", &ExitOutcome::Failure(String::from("1")), T1);
    for command in monitor.get_all_commands() {
        assert_eq!(command.end_time.is_some(), command.status != CommandStatus::Running);
    }
    let active = monitor.get_active_commands();
    assert_eq!(active.len(), 1);
    assert_eq!(active[0].id, "b");
}

#[test]
fn terminating_unknown_command_is_not_found() {
    let mut monitor = monitor_with("abc", "sleep 100");
    let before = format!("{:?}", monitor.get_all_commands());
    assert_eq!(
        monitor.terminate_command_at("unknown", "root 42 1 0 sleep 100", T1),
        Err(LookupError::NotFound)
    );
    assert_eq!(monitor.terminate_command("unknown", "root 42 1 0 sleep 100"), Err(LookupError::NotFound));
    assert_eq!(format!("{:?}", monitor.get_all_commands()), before);
    assert!(!monitor.needs_process_listing("unknown"));
}

#[test]
fn terminating_running_command_gives_its_process() {
    let mut monitor = monitor_with("abc", "sleep 100");
    assert!(monitor.needs_process_listing("abc"));
    let listing = "UID PID PPID C STIME TTY TIME CMD\nroot 1 0 0 10:00 ? 00:00:01 init\nme  4242  1  0 10:01 pts/0 00:00:00 bash -c sleep 100\n";
    assert_eq!(monitor.terminate_command_at("abc", listing, T1), Ok(4242));
    let command = monitor.get_command("abc").unwrap();
    assert_eq!(command.status, CommandStatus::Failed(String::from("terminated by user")));
    assert_eq!(command.end_time, Some(T1));
    assert_eq!(monitor.terminate_command_at("abc", listing, T1), Err(LookupError::NotFound));
}

#[test]
fn terminating_without_matching_process_changes_nothing() {
    let mut monitor = monitor_with("abc", "sleep 100");
    assert_eq!(
        monitor.terminate_command_at("abc", "root 1 0 0 init\nme x 1 0 sleep 100", T1),
        Err(LookupError::NotFound)
    );
    assert_eq!(monitor.get_command("abc").unwrap().status, CommandStatus::Running);
}

#[test]
fn waiting_polls_until_timeout() {
    let mut monitor = monitor_with("abc", "ls");
    assert_eq!(monitor.wait_for_command_completion("nope", 0, 10), WaitStep::Done(false));
    assert_eq!(monitor.wait_for_command_completion("abc", 0, 10), WaitStep::Retry);
    assert_eq!(monitor.wait_for_command_completion("abc", 8, 10), WaitStep::Retry);
    assert_eq!(monitor.wait_for_command_completion("abc", 9, 10), WaitStep::Done(false));
    assert_eq!(monitor.wait_for_command_completion("abc", 0, 0), WaitStep::Done(false));
    assert_eq!(monitor.wait_for_command_completion("abc", u64::MAX, u64::MAX), WaitStep::Done(false));
    monitor.record_exit_at("abc", &ExitOutcome::Success, T1);
    assert_eq!(monitor.wait_for_command_completion("abc", 0, 10), WaitStep::Done(true));
}

#[test]
fn findings_attach_to_their_command() {
    let mut monitor = monitor_with("abc", "ls");
    assert!(monitor.add_finding(finding_for("abc", FindingSeverity::High)));
    assert!(!monitor.add_finding(finding_for("nope", FindingSeverity::High)));
    let commands = monitor.get_all_commands();
    assert_eq!(commands[0].findings.len(), 1);
    for command in &commands {
        for finding in &command.findings {
            assert_eq!(finding.command_id, command.id);
        }
    }
}

#[test]
fn findings_attach_after_completion() {
    let mut monitor = monitor_with("abc", "ls");
    monitor.record_exit_at("abc", &ExitOutcome::Success, T1);
    assert!(monitor.add_finding(finding_for("abc", FindingSeverity::Low)));
    assert_eq!(monitor.get_command("abc").unwrap().findings.len(), 1);
}

#[test]
fn summary_is_set_and_overwritten() {
    let mut monitor = monitor_with("abc", "ls");
    assert_eq!(monitor.update_command_summary("abc", "first"), Ok(()));
    assert_eq!(monitor.update_command_summary("abc", "second"), Ok(()));
    assert_eq!(monitor.get_command("abc").unwrap().results_summary, Some(String::from("second")));
    assert_eq!(monitor.update_command_summary("nope", "x"), Err(LookupError::NotFound));
}

#[test]
fn created_finding_carries_its_fields() {
    let finding = create_finding("T", "D", FindingSeverity::Medium, "abc", "raw");
    assert_eq!(finding.title, "T");
    assert_eq!(finding.description, "D");
    assert_eq!(finding.severity, FindingSeverity::Medium);
    assert_eq!(finding.command_id, "abc");
    assert_eq!(finding.raw_output, "raw");
    assert_eq!(finding.id.len(), 36);
    let bytes = finding.id.as_bytes();
    for (i, b) in bytes.iter().enumerate() {
        if i == 8 || i == 13 || i == 18 || i == 23 {
            assert_eq!(*b, b'-');
        } else {
            assert!(b.is_ascii_digit() || (b'a'..=b'f').contains(b));
        }
    }
}

#[test]
fn findings_report_groups_by_severity() {
    let mut monitor = monitor_with("abc", "nmap example.com");
    monitor.add_finding(finding_for("abc", FindingSeverity::Info));
    let mut high = finding_for("abc", FindingSeverity::High);
    high.id = String::from("f-2");
    high.title = String::from("Bad");
    monitor.add_finding(high);
    let report = monitor.generate_findings_report(T1).unwrap();
    let expected = "# Security Findings Report\nGenerated: 2023-11-14 22:14:20 UTC\n\n\
## High Findings (1)\n### Bad\n**ID:** f-2\n**Description:** Description\n**Command:** nmap example.com\n\
**Discovered:** 2023-11-14 22:13:20 UTC\n**Raw Output:**\n```\nraw\n```\n\n\n\
## Info Findings (1)\n### Title\n**ID:** f-1\n**Description:** Description\n**Command:** nmap example.com\n\
**Discovered:** 2023-11-14 22:13:20 UTC\n**Raw Output:**\n```\nraw\n```\n\n\n";
    assert_eq!(report, expected);
}

#[test]
fn findings_report_of_empty_registry_is_the_heading() {
    let monitor = CommandMonitor::new();
    assert_eq!(
        monitor.generate_findings_report(T0).unwrap(),
        "# Security Findings Report\nGenerated: 2023-11-14 22:13:20 UTC\n\n"
    );
}

#[test]
fn severity_order_is_critical_first() {
    let order = [
        FindingSeverity::Critical,
        FindingSeverity::High,
        FindingSeverity::Medium,
        FindingSeverity::Low,
        FindingSeverity::Info,
    ];
    for (i, a) in order.iter().enumerate() {
        assert_eq!(a.report_rank() as usize, i);
        for (j, b) in order.iter().enumerate() {
            assert_eq!(a.precedes(*b), i < j);
        }
    }
    assert_eq!(FindingSeverity::Critical.label(), "Critical");
    assert_eq!(FindingSeverity::Info.label(), "Info");
}

#[test]
fn terminating_one_of_two_identical_commands_ends_only_that_one() {
    let mut monitor = monitor_with("first", "sleep 100");
    monitor.register_command("second", "sleep 100", CommandType::Generic, T0).unwrap();
    let listing = "me 100 1 0 sleep 100\nme 200 1 0 sleep 100";
    // The process is found by its command line, so the first line that holds it is taken.
    assert_eq!(monitor.terminate_command_at("second", listing, T1), Ok(100));
    assert_eq!(monitor.get_command("first").unwrap().status, CommandStatus::Running);
    assert_eq!(
        monitor.get_command("second").unwrap().status,
        CommandStatus::Failed(String::from("terminated by user"))
    );
}

#[test]
fn command_without_exit_keeps_running() {
    let monitor = monitor_with("abc", "sleep 100");
    let command = monitor.get_command("abc").unwrap();
    assert_eq!(command.status, CommandStatus::Running);
    assert_eq!(command.end_time, None);
    assert_eq!(monitor.get_active_commands().len(), 1);
}
