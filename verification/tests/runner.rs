use shipnext::log::Level;
use shipnext::runner::{
    announce_launch, join, render_command_line, report_spawn_failure, RunOutcome,
};

fn words(list: &[&str]) -> Vec<String> {
    list.iter().map(|word| word.to_string()).collect()
}

#[test]
fn exit_code_zero_alone_is_success() {
    assert!(RunOutcome::classify(Some(0), Vec::new(), Vec::new()).exit_success);
    assert!(!RunOutcome::classify(Some(1), Vec::new(), Vec::new()).exit_success);
    assert!(!RunOutcome::classify(Some(-1), Vec::new(), Vec::new()).exit_success);
    assert!(!RunOutcome::classify(Some(i32::MIN), Vec::new(), Vec::new()).exit_success);
    assert!(!RunOutcome::classify(None, Vec::new(), Vec::new()).exit_success);
}

#[test]
fn classification_keeps_the_captured_streams() {
    let outcome = RunOutcome::classify(Some(3), b"out".to_vec(), b"err".to_vec());
    assert_eq!(outcome.stdout, b"out");
    assert_eq!(outcome.stderr, b"err");
}

#[test]
fn words_are_joined_with_the_separator_between_them() {
    assert_eq!(join(&words(&[]), " "), "");
    assert_eq!(join(&words(&["status"]), " "), "status");
    assert_eq!(join(&words(&["tauri", "ios", "init"]), " "), "tauri ios init");
    assert_eq!(join(&words(&["a", "", "b"]), ", "), "a, , b");
}

#[test]
fn command_line_is_the_command_then_its_arguments() {
    assert_eq!(render_command_line("git", &words(&["status"])), "git status");
    assert_eq!(render_command_line("npm", &words(&[])), "npm ");
    assert_eq!(
        render_command_line("cargo", &words(&["tauri", "ios", "dev", "iPhone 15 Pro"])),
        "cargo tauri ios dev iPhone 15 Pro"
    );
}

#[test]
fn launch_is_announced_on_the_informational_channel() {
    let record = announce_launch("git", &words(&["status"]));
    assert_eq!(record.level, Level::Info);
    assert_eq!(record.text, "Debug: Running command: git status");
}

#[test]
fn success_shows_standard_output() {
    let lines = RunOutcome::classify(Some(0), b"On branch main\n".to_vec(), b"noise".to_vec())
        .report();
    assert_eq!(lines.len(), 2);
    assert_eq!(lines[0].level, Level::Info);
    assert_eq!(lines[0].text, "Debug: Command succeeded");
    assert_eq!(lines[1].level, Level::Info);
    assert_eq!(lines[1].text, "Output: On branch main\n");
}

#[test]
fn failure_shows_standard_error_on_the_error_channel() {
    let lines = RunOutcome::classify(Some(128), b"ignored".to_vec(), b"fatal: not a repo".to_vec())
        .report();
    assert_eq!(lines.len(), 2);
    assert_eq!(lines[0].level, Level::Error);
    assert_eq!(lines[0].text, "Debug: Command failed");
    assert_eq!(lines[1].level, Level::Error);
    assert_eq!(lines[1].text, "Error: fatal: not a repo");
}

#[test]
fn captured_bytes_that_are_no_text_are_replaced() {
    let lines = RunOutcome::classify(Some(0), vec![b'o', b'k', 0xff, b'!'], Vec::new()).report();
    assert_eq!(lines[1].text, "Output: ok\u{fffd}!");

    let lines = RunOutcome::classify(Some(1), Vec::new(), vec![0xe2, 0x82]).report();
    assert_eq!(lines[1].text, "Error: \u{fffd}");

    let lines = RunOutcome::classify(Some(0), "gr\u{fc}n \u{2713}".as_bytes().to_vec(), Vec::new())
        .report();
    assert_eq!(lines[1].text, "Output: gr\u{fc}n \u{2713}");
}

#[test]
fn spawn_failure_names_the_program_and_the_reason() {
    let record = report_spawn_failure("cargo", "No such file or directory (os error 2)");
    assert_eq!(record.level, Level::Error);
    assert_eq!(
        record.text,
        "Failed to execute 'cargo': No such file or directory (os error 2)"
    );
}
