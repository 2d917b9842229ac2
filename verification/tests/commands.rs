use hacksor::commands::{
    extract_command, extract_domain, fill_template, terminal_command, CommandType, SecurityCommand,
    SecurityCommandExecutor,
};
use hacksor::engine::{
    after_module, after_step, first_module, ModuleError, ModuleStep, PentestEngine, PentestModule, RunProgress,
    StepProgress, Target,
};
use hacksor::util::{format_command_output, format_output_text, sanitize_filename, CommandResult};

fn target(name: &str, domain: &str) -> Option<(String, Vec<(String, String)>)> {
    Some((String::from(name), vec![(String::from("target"), String::from(domain))]))
}

#[test]
fn default_catalogue_holds_nine_templates() {
    let executor = SecurityCommandExecutor::new();
    let expected = [
        ("nmap_basic", "nmap {target}"),
        ("nmap_service", "nmap -sV {target}"),
        ("nmap_all_ports", "nmap -p- {target}"),
        ("sublist3r", "sublist3r -d {target}"),
        ("nikto", "nikto -h {target}"),
        ("xsser", "xsser --url {target}"),
        ("dalfox", "dalfox url {target}"),
        ("dirsearch", "dirsearch -u {target}"),
        ("generic", "{command}"),
    ];
    for (name, template) in expected {
        let command = executor.get_command(name).unwrap();
        assert_eq!(command.name, name);
        assert_eq!(command.template, template);
        assert!(!command.requires_sudo);
        assert!(command.default_args.is_empty());
    }
    assert_eq!(executor.get_command("nikto").unwrap().command_type, CommandType::Vulnerability);
    assert_eq!(executor.get_command("generic").unwrap().command_type, CommandType::Generic);
    assert!(executor.get_command("nope").is_none());
    assert!(executor.get_last_output().is_none());
}

#[test]
fn registering_replaces_by_name() {
    let mut executor = SecurityCommandExecutor::new();
    executor.register_command(SecurityCommand {
        name: String::from("nikto"),
        description: String::from("mine"),
        command_type: CommandType::Scanning,
        template: String::from("nikto -Tuning x -h {target}"),
        default_args: vec![String::from("-ssl")],
        requires_sudo: true,
    });
    let command = executor.get_command("nikto").unwrap();
    assert_eq!(command.description, "mine");
    assert!(command.requires_sudo);
    assert_eq!(executor.get_command("xsser").unwrap().template, "xsser --url {target}");
}

#[test]
fn intent_picks_the_template() {
    let executor = SecurityCommandExecutor::new();
    assert_eq!(executor.suggest_command_from_intent("Scan example.com for XSS"), target("xsser", "example.com"));
    assert_eq!(
        executor.suggest_command_from_intent("test https://www.Example.com for xss with dalfox"),
        target("dalfox", "example.com")
    );
    assert_eq!(executor.suggest_command_from_intent("port scan example.com"), target("nmap_basic", "example.com"));
    assert_eq!(
        executor.suggest_command_from_intent("scan all ports on example.com"),
        target("nmap_all_ports", "example.com")
    );
    assert_eq!(
        executor.suggest_command_from_intent("check ports and service version of example.com"),
        target("nmap_service", "example.com")
    );
    assert_eq!(
        executor.suggest_command_from_intent("find subdomains of example.com"),
        target("sublist3r", "example.com")
    );
    assert_eq!(
        executor.suggest_command_from_intent("discover endpoint names on example.com"),
        target("dirsearch", "example.com")
    );
    assert_eq!(
        executor.suggest_command_from_intent("website security of example.com"),
        target("nikto", "example.com")
    );
    assert_eq!(executor.suggest_command_from_intent("port scan please"), None);
    assert_eq!(executor.suggest_command_from_intent("hello there"), None);
    assert_eq!(
        executor.suggest_command_from_intent("please run 'whoami' now"),
        Some((String::from("generic"), vec![(String::from("command"), String::from("whoami"))]))
    );
    assert_eq!(
        executor.suggest_command_from_intent("execute uname -a on the box"),
        Some((String::from("generic"), vec![(String::from("command"), String::from("uname -a"))]))
    );
}

#[test]
fn domain_and_command_are_extracted() {
    assert_eq!(extract_domain("see http://www.example.co.uk/path"), Some(String::from("example.co.uk")));
    assert_eq!(extract_domain("no domain"), None);
    assert_eq!(extract_command("run \"ls -la\" please"), Some(String::from("ls -la")));
    assert_eq!(extract_command("nothing to do"), None);
}

#[test]
fn template_is_filled_and_launched() {
    let executor = SecurityCommandExecutor::new();
    let params = vec![(String::from("target"), String::from("example.com"))];
    assert_eq!(executor.command_line("nmap_service", &params), Some(String::from("nmap -sV example.com")));
    assert_eq!(executor.command_line("nope", &params), None);
    assert_eq!(fill_template("{a} {b} {a}", &vec![
        (String::from("a"), String::from("{b}")),
        (String::from("b"), String::from("x")),
    ]), "x x x");
    assert_eq!(
        terminal_command("ls"),
        "x-terminal-emulator -e 'bash -c \"echo [Hacksor] Executing: ls && ls || echo [ERROR] Command failed with error code $?; echo Press Enter to close...; read\"'"
    );
}

#[test]
fn executed_command_is_noted() {
    let mut executor = SecurityCommandExecutor::new();
    assert_eq!(executor.note_executed("nmap example.com"), "Executed: nmap example.com");
    assert_eq!(executor.get_last_output(), Some(&String::from("Executed: nmap example.com")));
}

struct Recorder {
    name: String,
    fail_at: Option<&'static str>,
    log: std::rc::Rc<std::cell::RefCell<Vec<String>>>,
}

impl Recorder {
    fn step(&mut self, step: &'static str) -> Result<(), ModuleError> {
        self.log.borrow_mut().push(format!("{}:{}", self.name, step));
        if self.fail_at == Some(step) {
            Err(ModuleError { message: format!("{} failed", step) })
        } else {
            Ok(())
        }
    }
}

impl PentestModule for Recorder {
    fn initialize(&mut self, target: &Target) -> Result<(), ModuleError> {
        assert_eq!(target.domain, "example.com");
        self.step("initialize")
    }

    fn execute(&mut self) -> Result<(), ModuleError> {
        self.step("execute")
    }

    fn finalize(&mut self) -> Result<(), ModuleError> {
        self.step("finalize")
    }

    fn get_name(&self) -> &str {
        &self.name
    }
}

fn example_target() -> Target {
    Target { domain: String::from("example.com"), scope: Vec::new(), excluded: Vec::new() }
}

#[test]
fn modules_run_in_order_until_the_first_error() {
    let log = std::rc::Rc::new(std::cell::RefCell::new(Vec::new()));
    let mut engine = PentestEngine::new();
    engine.add_module(Box::new(Recorder { name: String::from("a"), fail_at: None, log: log.clone() }));
    engine.add_module(Box::new(Recorder { name: String::from("b"), fail_at: Some("execute"), log: log.clone() }));
    engine.add_module(Box::new(Recorder { name: String::from("c"), fail_at: None, log: log.clone() }));
    assert!(engine.run_modules().is_ok());
    assert!(log.borrow().is_empty());
    engine.start_session(example_target());
    let outcome = engine.run_modules();
    assert_eq!(outcome.err().map(|e| e.message), Some(String::from("execute failed")));
    assert_eq!(
        *log.borrow(),
        vec!["a:initialize", "a:execute", "a:finalize", "b:initialize", "b:execute"]
    );
}

#[test]
fn engine_plans_the_launch_of_a_command() {
    let mut engine = PentestEngine::new();
    assert!(engine.execute_security_command_from_intent("good morning").unwrap().is_none());
    let launch = engine.execute_security_command_from_intent("port scan example.com").unwrap().unwrap();
    assert_eq!(launch.command, "nmap example.com");
    assert!(launch.terminal.contains("Executing: nmap example.com && nmap example.com ||"));
    engine.get_command_executor().register_command(SecurityCommand {
        name: String::from("nmap_basic"),
        description: String::from("quiet"),
        command_type: CommandType::Reconnaissance,
        template: String::from("nmap -T2 {target}"),
        default_args: Vec::new(),
        requires_sudo: false,
    });
    let launch = engine.execute_security_command_from_intent("port scan example.com").unwrap().unwrap();
    assert_eq!(launch.command, "nmap -T2 example.com");
}

#[test]
fn file_names_are_sanitized() {
    assert_eq!(sanitize_filename("report 2024/01.md"), "report_2024_01.md");
    assert_eq!(sanitize_filename("a-b_c.d"), "a-b_c.d");
    assert_eq!(sanitize_filename("é:?"), "é__");
    assert_eq!(sanitize_filename(""), "");
}

#[test]
fn output_lines_are_quoted() {
    assert_eq!(format_command_output(b"one\ntwo\r\n"), "> one\n> two");
    assert_eq!(format_command_output(b""), "");
    assert_eq!(format_command_output(b"bad \xff byte"), "> bad \u{fffd} byte");
    assert_eq!(format_output_text("x"), "> x");
}

#[test]
fn command_result_reads_bytes_as_text() {
    let result = CommandResult::from_output(true, b"out", b"e\xffrr");
    assert!(result.success);
    assert_eq!(result.output, "out");
    assert_eq!(result.error, "e\u{fffd}rr");
}

fn failure(words: &str) -> Result<(), ModuleError> {
    Err(ModuleError { message: String::from(words) })
}

#[test]
fn steps_follow_one_another_until_an_error() {
    assert!(matches!(after_step(ModuleStep::Initialize, Ok(())), StepProgress::Next(ModuleStep::Execute)));
    assert!(matches!(after_step(ModuleStep::Execute, Ok(())), StepProgress::Next(ModuleStep::Finalize)));
    assert!(matches!(after_step(ModuleStep::Finalize, Ok(())), StepProgress::Done(Ok(()))));
    for step in [ModuleStep::Initialize, ModuleStep::Execute, ModuleStep::Finalize] {
        match after_step(step, failure("broken")) {
            StepProgress::Done(Err(error)) => assert_eq!(error.message, "broken"),
            other => panic!("unexpected {:?}", other),
        }
    }
}

#[test]
fn modules_follow_one_another_until_an_error() {
    assert_eq!(first_module(true, 3), Some(0));
    assert_eq!(first_module(true, 0), None);
    assert_eq!(first_module(false, 3), None);
    assert!(matches!(after_module(0, 3, Ok(())), RunProgress::Next(1)));
    assert!(matches!(after_module(1, 3, Ok(())), RunProgress::Next(2)));
    assert!(matches!(after_module(2, 3, Ok(())), RunProgress::Done(Ok(()))));
    assert!(matches!(after_module(usize::MAX, usize::MAX, Ok(())), RunProgress::Done(Ok(()))));
    assert!(matches!(after_module(0, 0, Ok(())), RunProgress::Done(Ok(()))));
    match after_module(0, 3, failure("gone")) {
        RunProgress::Done(Err(error)) => assert_eq!(error.message, "gone"),
        other => panic!("unexpected {:?}", other),
    }
}

#[test]
fn all_modules_run_where_none_fails() {
    let log = std::rc::Rc::new(std::cell::RefCell::new(Vec::new()));
    let mut engine = PentestEngine::new();
    engine.add_module(Box::new(Recorder { name: String::from("a"), fail_at: None, log: log.clone() }));
    engine.add_module(Box::new(Recorder { name: String::from("b"), fail_at: None, log: log.clone() }));
    engine.start_session(example_target());
    assert!(engine.run_modules().is_ok());
    assert_eq!(
        *log.borrow(),
        vec!["a:initialize", "a:execute", "a:finalize", "b:initialize", "b:execute", "b:finalize"]
    );
    assert!(engine.get_command_executor().get_last_output().is_none());
}
