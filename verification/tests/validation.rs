use hacksor::monitor::validation::{required_tools, validate_and_fix_command, ValidationError};

fn none_missing() -> Vec<String> {
    Vec::new()
}

#[test]
fn empty_command_is_rejected() {
    assert!(matches!(validate_and_fix_command("", &none_missing()), Err(ValidationError::Empty)));
    assert!(matches!(validate_and_fix_command("   \t\n", &none_missing()), Err(ValidationError::Empty)));
}

#[test]
fn explanatory_text_is_rejected() {
    match validate_and_fix_command("You could try this: nmap example.com", &none_missing()) {
        Err(ValidationError::ExplanatoryText(marker)) => assert_eq!(marker, "try this"),
        other => panic!("unexpected {:?}", other),
    }
    match validate_and_fix_command("We Can scan the host", &none_missing()) {
        Err(ValidationError::ExplanatoryText(marker)) => assert_eq!(marker, "we can"),
        other => panic!("unexpected {:?}", other),
    }
}

#[test]
fn first_marker_in_list_order_is_reported() {
    match validate_and_fix_command("run this and you can try this", &none_missing()) {
        Err(ValidationError::ExplanatoryText(marker)) => assert_eq!(marker, "try this"),
        other => panic!("unexpected {:?}", other),
    }
}

#[test]
fn nmap_without_target_is_rejected() {
    assert!(matches!(
        validate_and_fix_command("nmap -sV -p80", &none_missing()),
        Err(ValidationError::MissingTarget)
    ));
    assert!(matches!(
        validate_and_fix_command("sudo nmap -A host", &none_missing()),
        Err(ValidationError::MissingTarget)
    ));
}

#[test]
fn nmap_with_target_passes() {
    for command in ["nmap example.com", "nmap -p- 192.168.1.1", "nmap localhost", "sudo nmap -sU 10.0.0.1"] {
        assert_eq!(validate_and_fix_command(command, &none_missing()).unwrap(), command);
    }
}

#[test]
fn syn_scan_is_rewritten_to_connect_scan() {
    assert_eq!(
        validate_and_fix_command("nmap -sS example.com", &none_missing()).unwrap(),
        "nmap -sT example.com"
    );
    assert_eq!(
        validate_and_fix_command("  nmap -sS -p1-100 -sS example.com \n", &none_missing()).unwrap(),
        "nmap -sT -p1-100 -sT example.com"
    );
}

#[test]
fn syn_scan_under_sudo_is_kept() {
    assert_eq!(
        validate_and_fix_command("sudo nmap -sS example.com", &none_missing()).unwrap(),
        "sudo nmap -sS example.com"
    );
}

#[test]
fn privileged_scans_are_rejected() {
    for flag in ["-sU", "-sN", "-sF", "-sX"] {
        let command = format!("nmap {} example.com", flag);
        assert!(matches!(
            validate_and_fix_command(&command, &none_missing()),
            Err(ValidationError::PrivilegedScan)
        ));
    }
}

#[test]
fn missing_tool_is_rejected() {
    let missing = vec![String::from("dig")];
    match validate_and_fix_command("dig example.com", &missing) {
        Err(ValidationError::ToolMissing(tool)) => assert_eq!(tool, "dig"),
        other => panic!("unexpected {:?}", other),
    }
    match validate_and_fix_command("sudo dig example.com", &missing) {
        Err(ValidationError::ToolMissing(tool)) => assert_eq!(tool, "dig"),
        other => panic!("unexpected {:?}", other),
    }
    assert_eq!(validate_and_fix_command("whois example.com", &missing).unwrap(), "whois example.com");
    assert_eq!(validate_and_fix_command("echo dig", &missing).unwrap(), "echo dig");
}

#[test]
fn required_tools_follow_the_command() {
    assert_eq!(required_tools("  nmap -sS example.com"), vec![String::from("nmap")]);
    assert_eq!(required_tools("sudo gobuster dir -u x"), vec![String::from("gobuster")]);
    assert!(required_tools("ls -la").is_empty());
}

#[test]
fn error_messages_read_as_expected() {
    assert_eq!(ValidationError::Empty.message(), "Empty command");
    assert_eq!(
        ValidationError::ExplanatoryText(String::from("try this")).message(),
        "This appears to be explanatory text, not a command: 'try this'"
    );
    assert_eq!(
        ValidationError::PrivilegedScan.message(),
        "This scan type requires root privileges. Try using 'sudo' or switch to '-sT' for unprivileged scanning."
    );
    assert_eq!(ValidationError::MissingTarget.message(), "Nmap command appears to be missing a valid target");
    assert_eq!(
        ValidationError::ToolMissing(String::from("ffuf")).message(),
        "Tool 'ffuf' is not installed or not in PATH"
    );
}
