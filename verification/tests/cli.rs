use shipnext::cli::{dispatch, parse, Invocation};
use shipnext::context::ProjectContext;
use shipnext::log::Level;
use shipnext::orchestrator::{Request, Status};

fn args(words: &[&str]) -> Vec<String> {
    words.iter().map(|word| word.to_string()).collect()
}

#[test]
fn no_subcommand_prints_usage_and_exits_zero() {
    let (run, lines) = dispatch(&args(&["shipnext"]), ProjectContext::shipnext());
    let texts: Vec<&str> = lines.iter().map(|line| line.text.as_str()).collect();
    assert_eq!(
        texts,
        vec![
            "Usage: ./shipnext <command>",
            "Commands:",
            "  status   - Check git status",
            "  bootstrap - Bootstrap Tauri v2 with iOS for an existing Next.js app",
        ]
    );
    assert!(lines.iter().all(|line| line.level == Level::Info));
    assert_eq!(run.status(), Status::Completed);
    assert!(matches!(run.request(), Request::Finish { exit_code: 0 }));
}

#[test]
fn unknown_subcommand_exits_zero_without_any_action() {
    let (run, lines) = dispatch(&args(&["shipnext", "frobnicate"]), ProjectContext::shipnext());
    assert_eq!(lines.len(), 1);
    assert_eq!(lines[0].level, Level::Warn);
    assert_eq!(lines[0].text, "Unknown command: frobnicate");
    assert_eq!(run.status(), Status::Completed);
    assert!(matches!(run.request(), Request::Finish { exit_code: 0 }));
}

#[test]
fn subcommands_are_told_apart() {
    assert!(matches!(parse(&args(&[])), Invocation::Usage));
    assert!(matches!(parse(&args(&["shipnext"])), Invocation::Usage));
    assert!(matches!(parse(&args(&["shipnext", "status"])), Invocation::Status));
    assert!(matches!(parse(&args(&["shipnext", "bootstrap"])), Invocation::Bootstrap));
    assert!(matches!(parse(&args(&["shipnext", "simulator"])), Invocation::Simulator));
    assert!(matches!(parse(&args(&["shipnext", "status", "extra"])), Invocation::Status));
    match parse(&args(&["shipnext", "Status"])) {
        Invocation::Unknown(word) => assert_eq!(word, "Status"),
        other => panic!("expected an unknown subcommand, got {:?}", other),
    }
}
