use hacksor::documentation::model::{ActionStatus, FollowUpAction};
use hacksor::executor::{combine_output, combine_output_bytes, ActionExecutor, Admission, RunOutcome};

fn action(id: usize, command: Option<&str>, status: ActionStatus) -> FollowUpAction {
    FollowUpAction {
        id: format!("a-{}", id),
        description: String::from("work"),
        command: command.map(String::from),
        status,
        result: None,
    }
}

#[test]
fn cap_of_two_never_lets_more_than_two_run() {
    let mut executor = ActionExecutor::new(2);
    let mut queue: Vec<FollowUpAction> =
        (0..5).map(|i| action(i, Some("sleep 1"), ActionStatus::Pending)).collect();
    queue.reverse();
    let mut in_progress: Vec<FollowUpAction> = Vec::new();
    let mut finished: Vec<FollowUpAction> = Vec::new();
    let mut most = 0;
    while let Some(next) = queue.pop() {
        match executor.offer(next) {
            Admission::Run(a) => {
                assert_eq!(a.status, ActionStatus::InProgress);
                in_progress.push(a);
            }
            Admission::Wait(a) => {
                assert_eq!(in_progress.len(), 2);
                assert_eq!(a.status, ActionStatus::Pending);
                let done = in_progress.remove(0);
                finished.push(executor.conclude(done, RunOutcome::Finished(String::from("out"))));
                queue.push(a);
            }
            other => panic!("unexpected {:?}", other),
        }
        assert_eq!(executor.current_executing(), in_progress.len());
        assert!(executor.current_executing() <= 2);
        most = most.max(in_progress.len());
    }
    while let Some(a) = in_progress.pop() {
        finished.push(executor.conclude(a, RunOutcome::Finished(String::from("out"))));
    }
    assert_eq!(most, 2);
    assert_eq!(finished.len(), 5);
    assert_eq!(executor.current_executing(), 0);
    assert!(finished.iter().all(|a| a.status == ActionStatus::Completed));
}

#[test]
fn ended_actions_are_skipped() {
    let mut executor = ActionExecutor::new(1);
    assert!(matches!(executor.offer(action(0, Some("ls"), ActionStatus::Completed)), Admission::Skip));
    assert!(matches!(executor.offer(action(1, None, ActionStatus::Failed)), Admission::Skip));
    assert_eq!(executor.current_executing(), 0);
}

#[test]
fn action_without_command_completes_on_the_spot() {
    let mut executor = ActionExecutor::new(1);
    match executor.offer(action(0, None, ActionStatus::Pending)) {
        Admission::Done(a) => {
            assert_eq!(a.status, ActionStatus::Completed);
            assert_eq!(a.result, None);
        }
        other => panic!("unexpected {:?}", other),
    }
    assert_eq!(executor.current_executing(), 0);
}

#[test]
fn zero_cap_lets_nothing_run() {
    let mut executor = ActionExecutor::new(0);
    assert!(matches!(executor.offer(action(0, Some("ls"), ActionStatus::Pending)), Admission::Wait(_)));
    assert!(matches!(executor.offer(action(1, None, ActionStatus::Pending)), Admission::Wait(_)));
    assert_eq!(executor.max_concurrent(), 0);
}

#[test]
fn broken_command_fails_the_action() {
    let mut executor = ActionExecutor::new(1);
    let running = match executor.offer(action(0, Some("ls"), ActionStatus::Pending)) {
        Admission::Run(a) => a,
        other => panic!("unexpected {:?}", other),
    };
    let failed = executor.conclude(running, RunOutcome::Broken(String::from("Failed to execute command")));
    assert_eq!(failed.status, ActionStatus::Failed);
    assert_eq!(failed.result, Some(String::from("ERROR: Failed to execute command")));
    assert_eq!(failed.command, Some(String::from("ls")));
    assert_eq!(executor.current_executing(), 0);
}

#[test]
fn output_is_combined_under_headings() {
    assert_eq!(combine_output("out", "err"), "=== STDOUT ===\nout\n=== STDERR ===\nerr");
    assert_eq!(combine_output("out", ""), "=== STDOUT ===\nout\n");
    assert_eq!(combine_output("", "err"), "=== STDERR ===\nerr");
    assert_eq!(combine_output("", ""), "");
    assert_eq!(combine_output_bytes(b"a\xffb", b""), "=== STDOUT ===\na\u{fffd}b\n");
}

#[test]
fn executor_starts_once() {
    let mut executor = ActionExecutor::new(2);
    assert!(executor.start());
    assert!(!executor.start());
    executor.stop();
    assert!(executor.start());
}
