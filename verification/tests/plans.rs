use shipnext::artifact::ArtifactId;
use shipnext::context::ProjectContext;
use shipnext::log::{info_records, Level, LogRecord};
use shipnext::plan::{
    owned, Action, Guard, Plan, Step, NATIVE_CONFIG_PATH, PLATFORM_ROOT, PROJECT_MARKER,
    SCAFFOLD_ROOT, SIMULATOR_DEVICE,
};

fn names(plan: &Plan) -> Vec<&str> {
    plan.steps.iter().map(|step| step.name.as_str()).collect()
}

#[test]
fn bootstrap_plan_holds_its_steps_in_order() {
    let plan = Plan::bootstrap(&ProjectContext::shipnext());
    assert_eq!(plan.marker.as_deref(), Some("package.json"));
    assert_eq!(
        names(&plan),
        vec![
            "static-export",
            "toolchain",
            "client-api",
            "client-cli",
            "scaffold",
            "platform",
            "native-config",
            "dependencies",
            "release-build",
        ]
    );
    assert_eq!(plan.banner, vec!["Bootstrapping Tauri v2 with iOS support..."]);
    assert_eq!(plan.summary.len(), 4);
    assert_eq!(
        plan.summary[3],
        "  Check src-tauri/gen/apple/build/arm64/[your-app-name].ipa for the .ipa"
    );
}

#[test]
fn only_the_scaffold_and_the_platform_are_guarded() {
    let plan = Plan::bootstrap(&ProjectContext::shipnext());
    let guards: Vec<Option<&str>> = plan
        .steps
        .iter()
        .map(|step| match &step.guard {
            Guard::Always => None,
            Guard::UnlessExists(path) => Some(path.as_str()),
        })
        .collect();
    assert_eq!(
        guards,
        vec![
            None,
            None,
            None,
            None,
            Some("src-tauri"),
            Some("src-tauri/gen/apple"),
            None,
            None,
            None,
        ]
    );
    assert_eq!(
        plan.steps[4].skip_message,
        "Debug: src-tauri already exists, skipping initialization"
    );
    assert_eq!(
        plan.steps[5].skip_message,
        "Debug: iOS support already initialized, skipping ios init"
    );
}

#[test]
fn artifacts_of_the_bootstrap_plan_have_their_destinations() {
    let plan = Plan::bootstrap(&ProjectContext::shipnext());
    match &plan.steps[0].action {
        Action::Write { artifact, destination, alternates } => {
            assert_eq!(*artifact, ArtifactId::StaticExport);
            assert_eq!(destination, "next.config.ts");
            assert_eq!(alternates, &vec!["next.config.js".to_string()]);
        }
        other => panic!("expected a write, got {:?}", other),
    }
    match &plan.steps[6].action {
        Action::Write { artifact, destination, alternates } => {
            assert_eq!(*artifact, ArtifactId::NativeConfig);
            assert_eq!(destination, "src-tauri/tauri.conf.json");
            assert!(alternates.is_empty());
        }
        other => panic!("expected a write, got {:?}", other),
    }
}

#[test]
fn fixed_paths_of_the_project() {
    assert_eq!(PROJECT_MARKER, "package.json");
    assert_eq!(SCAFFOLD_ROOT, "src-tauri");
    assert_eq!(PLATFORM_ROOT, "src-tauri/gen/apple");
    assert_eq!(NATIVE_CONFIG_PATH, "src-tauri/tauri.conf.json");
    assert_eq!(SIMULATOR_DEVICE, "iPhone 15 Pro");
}

#[test]
fn status_and_simulator_plans_ask_for_no_marker() {
    for plan in [Plan::status(), Plan::simulator(), Plan::idle()] {
        assert!(plan.marker.is_none());
    }
    assert_eq!(names(&Plan::status()), vec!["status"]);
    assert_eq!(names(&Plan::simulator()), vec!["simulator"]);
    assert!(Plan::idle().steps.is_empty());
    assert!(Plan::idle().banner.is_empty());
    assert!(Plan::idle().summary.is_empty());
}

#[test]
fn steps_are_built_with_their_guard_and_action() {
    let step = Step::run_unless_exists("made", "out", "make", owned(&["all", "-j"]), "out is there");
    assert_eq!(step.name, "made");
    assert!(matches!(&step.guard, Guard::UnlessExists(path) if path == "out"));
    assert_eq!(step.skip_message, "out is there");
    match &step.action {
        Action::Run { command, args } => {
            assert_eq!(command, "make");
            assert_eq!(args, &vec!["all".to_string(), "-j".to_string()]);
        }
        other => panic!("expected a program, got {:?}", other),
    }

    let step = Step::run_always("list", "ls", owned(&[]));
    assert!(matches!(step.guard, Guard::Always));
    assert_eq!(step.skip_message, "");

    let step = Step::write_always("config", ArtifactId::NativeConfig, "a.json", owned(&["b.json"]));
    assert!(matches!(step.guard, Guard::Always));
    assert!(matches!(step.action, Action::Write { .. }));
}

#[test]
fn owned_words_keep_their_order() {
    assert_eq!(owned(&[]), Vec::<String>::new());
    assert_eq!(owned(&["b", "a", "b"]), vec!["b", "a", "b"]);
}

#[test]
fn records_carry_their_level() {
    let record: LogRecord = LogRecord::info("fine".to_string());
    assert_eq!((record.level, record.text.as_str()), (Level::Info, "fine"));
    let record = LogRecord::warn("mind".to_string());
    assert_eq!((record.level, record.text.as_str()), (Level::Warn, "mind"));
    let record = LogRecord::error("bad".to_string());
    assert_eq!((record.level, record.text.as_str()), (Level::Error, "bad"));
}

#[test]
fn informational_records_keep_the_order_of_their_texts() {
    assert!(info_records(&owned(&[])).is_empty());
    let records = info_records(&owned(&["one", "", "three"]));
    let shown: Vec<(Level, &str)> =
        records.iter().map(|record| (record.level, record.text.as_str())).collect();
    assert_eq!(shown, vec![(Level::Info, "one"), (Level::Info, ""), (Level::Info, "three")]);
}
