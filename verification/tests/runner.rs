use scie_pikesquares::failure::{ErrorKind, Stage};
use scie_pikesquares::machine::{Event, Progress, Step};
use scie_pikesquares::process::ProcessExit;
use scie_pikesquares::testing::{
    copy_texts, run_integration_tests, same_bytes, Phase, Scenario, TestRun,
};

const SCIE: &str = "/ws/dist/scie-pikesquares-linux-x86_64";
const TOOLS: &str = "/ws/dist/tools.pex";
const DRIFT: &str = "does not match the dependency bundle that the installed application builds";

fn scenarios() -> Vec<Scenario> {
    vec![
        Scenario::version_query("1.2.3"),
        Scenario {
            name: "install".to_string(),
            args: vec!["install".to_string(), "--smoke".to_string()],
            marker: "installed".to_string(),
        },
    ]
}

fn step(check: bool, warn: bool, state: TestRun, event: Event) -> (TestRun, Progress<()>) {
    run_integration_tests("/ws", TOOLS, SCIE, check, warn, &scenarios(), state, event)
}

fn ok() -> Event {
    Event::Exited(ProcessExit::new(0, "", ""))
}

fn says(stdout: &str) -> Event {
    Event::Exited(ProcessExit::new(0, stdout, ""))
}

fn comparing(check: bool, warn: bool) -> TestRun {
    let (state, progress) = step(check, warn, TestRun::Start, Event::Begin);
    match progress {
        Progress::Next(Step::Style { workspace_root, fix }) => {
            assert_eq!(workspace_root, "/ws");
            assert_eq!(fix, !check);
        }
        other => panic!("{other:?}"),
    }
    let (state, progress) = step(check, warn, state, ok());
    match progress {
        Progress::Next(Step::BuildReferenceBundle { scie_pikesquares }) => {
            assert_eq!(scie_pikesquares, SCIE)
        }
        other => panic!("{other:?}"),
    }
    let built = Event::Built { exit: ProcessExit::new(0, "", ""), path: "/tmp/ref.pex".to_string() };
    let (state, progress) = step(check, warn, state, built);
    match progress {
        Progress::Next(Step::ReadBundles { ours, reference }) => {
            assert_eq!(ours, TOOLS);
            assert_eq!(reference, "/tmp/ref.pex");
        }
        other => panic!("{other:?}"),
    }
    assert!(matches!(state, TestRun::Comparing));
    state
}

fn bundles(ours: &[u8], reference: &[u8]) -> Event {
    Event::Bundles { ours: ours.to_vec(), reference: reference.to_vec() }
}

fn expect_run(progress: Progress<()>, args: &[&str]) {
    match progress {
        Progress::Next(Step::Run(invocation)) => {
            assert_eq!(invocation.program, SCIE);
            assert_eq!(invocation.current_dir, "/ws");
            assert_eq!(invocation.args, args);
        }
        other => panic!("{other:?}"),
    }
}

#[test]
fn all_phases_pass_in_order() {
    let state = comparing(false, false);
    let (state, progress) = step(false, false, state, bundles(b"same", b"same"));
    expect_run(progress, &["--version"]);
    assert!(matches!(state, TestRun::Scenario(0)));
    let (state, progress) = step(false, false, state, says("scie-pikesquares 1.2.3\n"));
    expect_run(progress, &["install", "--smoke"]);
    assert!(matches!(state, TestRun::Scenario(1)));
    let (state, progress) = step(false, false, state, says("... installed ok"));
    assert!(matches!(progress, Progress::Done(())));
    assert!(matches!(state, TestRun::Success));
    let (state, progress) = step(false, false, state, Event::Begin);
    assert!(matches!(progress, Progress::Done(())));
    assert!(matches!(state, TestRun::Success));
}

#[test]
fn version_query_exits_zero_and_prints_the_configured_version() {
    let scenario = Scenario::version_query("1.2.3");
    assert_eq!(scenario.name, "version");
    assert_eq!(scenario.args, vec!["--version"]);
    assert_eq!(scenario.marker, "1.2.3");
    assert!(scenario.judge(&ProcessExit::new(0, "scie-pikesquares 1.2.3\n", "")).is_ok());
    assert!(scenario.judge(&ProcessExit::new(0, "1.2.3", "warning: x")).is_ok());
}

#[test]
fn version_query_fails_on_another_version() {
    let scenario = Scenario::version_query("1.2.3");
    let failure = scenario.judge(&ProcessExit::new(0, "scie-pikesquares 1.2.4\n", "")).unwrap_err();
    assert_eq!(failure.kind, ErrorKind::Consistency);
    assert_eq!(failure.stage, Stage::Scenario);
    assert_eq!(failure.subject, "version");
    assert_eq!(failure.detail, "the output does not hold 1.2.3");
}

#[test]
fn version_query_fails_on_a_non_zero_exit() {
    let scenario = Scenario::version_query("1.2.3");
    let failure = scenario.judge(&ProcessExit::new(3, "1.2.3", "crashed")).unwrap_err();
    assert_eq!(failure.kind, ErrorKind::Build);
    assert_eq!(failure.stage, Stage::Scenario);
    assert_eq!(failure.subject, "version");
    assert_eq!(failure.detail, "crashed");
}

#[test]
fn check_only_asks_for_no_correction() {
    let (_, progress) = step(true, false, TestRun::Start, Event::Begin);
    assert!(matches!(progress, Progress::Next(Step::Style { fix: false, .. })));
    let (_, progress) = step(false, false, TestRun::Start, Event::Begin);
    assert!(matches!(progress, Progress::Next(Step::Style { fix: true, .. })));
}

#[test]
fn a_style_violation_is_fatal() {
    let (state, _) = step(true, false, TestRun::Start, Event::Begin);
    let exit = ProcessExit::new(1, "", "Diff in src/main.rs at line 3");
    let (state, progress) = step(true, false, state, Event::Exited(exit));
    match progress {
        Progress::Failed(failure) => {
            assert_eq!(failure.kind, ErrorKind::Build);
            assert_eq!(failure.stage, Stage::Style);
            assert_eq!(failure.stage.phase(), Some(Phase::Style));
            assert_eq!(failure.detail, "Diff in src/main.rs at line 3");
        }
        other => panic!("{other:?}"),
    }
    assert!(matches!(state, TestRun::Failed(_)));
}

#[test]
fn drift_is_fatal_under_the_strict_policy() {
    let state = comparing(false, false);
    let (state, progress) = step(false, false, state, bundles(b"ours", b"theirs"));
    match progress {
        Progress::Failed(failure) => {
            assert_eq!(failure.kind, ErrorKind::Consistency);
            assert_eq!(failure.stage, Stage::Drift);
            assert_eq!(failure.stage.phase(), Some(Phase::Drift));
            assert_eq!(failure.subject, TOOLS);
            assert_eq!(failure.detail, DRIFT);
        }
        other => panic!("{other:?}"),
    }
    let (state, progress) = step(false, false, state, says("1.2.3"));
    assert!(matches!(progress, Progress::Failed(_)));
    assert!(matches!(state, TestRun::Failed(_)));
}

#[test]
fn drift_is_a_warning_under_the_warning_policy() {
    let state = comparing(false, true);
    let (state, progress) = step(false, true, state, bundles(b"ours", b"theirs"));
    match progress {
        Progress::Next(Step::Warn { message }) => assert_eq!(message, format!("{TOOLS} {DRIFT}")),
        other => panic!("{other:?}"),
    }
    assert!(matches!(state, TestRun::Warning));
    let (state, progress) = step(false, true, state, Event::Completed);
    expect_run(progress, &["--version"]);
    let (state, _) = step(false, true, state, says("1.2.3"));
    let (state, progress) = step(false, true, state, says("installed"));
    assert!(matches!(progress, Progress::Done(())));
    assert!(matches!(state, TestRun::Success));
}

#[test]
fn equal_bundles_raise_no_warning() {
    let state = comparing(false, true);
    let (_, progress) = step(false, true, state, bundles(b"", b""));
    expect_run(progress, &["--version"]);
}

#[test]
fn bundles_that_differ_in_length_only_are_a_drift() {
    let state = comparing(false, false);
    let (_, progress) = step(false, false, state, bundles(b"abc", b"abcd"));
    assert!(matches!(progress, Progress::Failed(_)));
}

#[test]
fn the_first_failing_scenario_ends_the_run() {
    let state = comparing(false, false);
    let (state, _) = step(false, false, state, bundles(b"same", b"same"));
    let (state, progress) = step(false, false, state, says("scie-pikesquares 9.9.9"));
    match progress {
        Progress::Failed(failure) => {
            assert_eq!(failure.kind, ErrorKind::Consistency);
            assert_eq!(failure.stage.phase(), Some(Phase::Scenario));
            assert_eq!(failure.subject, "version");
        }
        other => panic!("{other:?}"),
    }
    let (_, progress) = step(false, false, state, says("installed"));
    assert!(matches!(progress, Progress::Failed(_)));
}

#[test]
fn a_reference_build_that_fails_is_fatal_in_the_drift_phase() {
    let (state, _) = step(false, true, TestRun::Start, Event::Begin);
    let (state, _) = step(false, true, state, ok());
    let built = Event::Built { exit: ProcessExit::new(1, "", "no pex"), path: String::new() };
    let (_, progress) = step(false, true, state, built);
    match progress {
        Progress::Failed(failure) => {
            assert_eq!(failure.kind, ErrorKind::Build);
            assert_eq!(failure.stage, Stage::Drift);
            assert_eq!(failure.subject, SCIE);
            assert_eq!(failure.detail, "no pex");
        }
        other => panic!("{other:?}"),
    }
}

#[test]
fn a_run_without_scenarios_succeeds_after_the_drift_phase() {
    let state = comparing(false, false);
    let (state, progress) = run_integration_tests(
        "/ws",
        TOOLS,
        SCIE,
        false,
        false,
        &Vec::new(),
        state,
        bundles(b"same", b"same"),
    );
    assert!(matches!(progress, Progress::Done(())));
    assert!(matches!(state, TestRun::Success));
}

#[test]
fn stages_belong_to_phases() {
    for stage in [Stage::Fetch, Stage::Binary, Stage::Bundle, Stage::Assemble] {
        assert_eq!(stage.phase(), Some(Phase::Build));
    }
    assert_eq!(Stage::Style.phase(), Some(Phase::Style));
    assert_eq!(Stage::Drift.phase(), Some(Phase::Drift));
    assert_eq!(Stage::Scenario.phase(), Some(Phase::Scenario));
    for stage in [Stage::Resolve, Stage::Publish, Stage::Verify] {
        assert_eq!(stage.phase(), None);
    }
}

#[test]
fn same_bytes_compares_byte_for_byte() {
    assert!(same_bytes(b"", b""));
    assert!(same_bytes(b"abc", b"abc"));
    assert!(!same_bytes(b"abc", b"abd"));
    assert!(!same_bytes(b"abc", b"ab"));
    assert!(!same_bytes(b"", b"a"));
}

#[test]
fn copy_texts_copies_each_string() {
    let args = vec!["a".to_string(), String::new(), "c d".to_string()];
    assert_eq!(copy_texts(&args), args);
    assert_eq!(copy_texts(&Vec::new()), Vec::<String>::new());
}
