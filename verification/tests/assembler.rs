use scie_pikesquares::context::{BuildContext, Host};
use scie_pikesquares::failure::{ErrorKind, Stage};
use scie_pikesquares::machine::{Event, Progress, Step};
use scie_pikesquares::process::ProcessExit;
use scie_pikesquares::scie::{
    build_scie_pikesquares_scie, lift_command, Assembly, SciePikeSquaresBuild,
};
use scie_pikesquares::science::{Origin, Science};

fn context() -> BuildContext {
    let host = Host {
        target: "x86_64-unknown-linux-gnu".to_string(),
        os: "linux".to_string(),
        arch: "x86_64".to_string(),
        exe_suffix: String::new(),
    };
    BuildContext::new(None, None, false, "/ws", &host).unwrap()
}

fn science() -> Science {
    Science {
        tag: Some("v0.3.1".to_string()),
        exe: "/cache/science".to_string(),
        origin: Origin::Cached,
    }
}

fn step(
    context: &BuildContext,
    state: Assembly,
    event: Event,
) -> (Assembly, Progress<SciePikeSquaresBuild>) {
    build_scie_pikesquares_scie(
        context,
        &science(),
        "/out/scie-pikesquares",
        "/out/tools.pex",
        state,
        event,
    )
}

fn lifting(context: &BuildContext) -> Assembly {
    let (state, progress) = step(context, Assembly::Start, Event::Begin);
    match progress {
        Progress::Next(Step::RecreateDirectory { path }) => {
            assert_eq!(path, "/ws/target/scie-pikesquares")
        }
        other => panic!("{other:?}"),
    }
    assert!(matches!(state, Assembly::Clearing));
    let (state, progress) = step(context, state, Event::Completed);
    match progress {
        Progress::Next(Step::Run(invocation)) => {
            assert_eq!(invocation.program, "/cache/science");
            assert_eq!(invocation.current_dir, "/ws");
            assert_eq!(
                invocation.args,
                vec![
                    "lift",
                    "--include-provenance",
                    "--file",
                    "scie-pikesquares.bin=/out/scie-pikesquares",
                    "--file",
                    "tools.pex=/out/tools.pex",
                    "build",
                    "--dest-dir",
                    "/ws/target/scie-pikesquares",
                    "--use-platform-suffix",
                    "--hash",
                    "sha256",
                    "package/scie-pikesquares.toml",
                ]
            );
        }
        other => panic!("{other:?}"),
    }
    assert!(matches!(state, Assembly::Lifting));
    state
}

#[test]
fn lift_command_follows_the_argument_grammar() {
    let invocation = lift_command(&context(), &science(), "a b/bin", "c/tools.pex", "m.toml");
    assert_eq!(invocation.program, "/cache/science");
    assert_eq!(invocation.current_dir, "/ws");
    assert_eq!(invocation.args.len(), 13);
    assert_eq!(invocation.args[0], "lift");
    assert_eq!(invocation.args[3], "scie-pikesquares.bin=a b/bin");
    assert_eq!(invocation.args[5], "tools.pex=c/tools.pex");
    assert_eq!(invocation.args[8], "/ws/target/scie-pikesquares");
    assert_eq!(invocation.args[12], "m.toml");
}

#[test]
fn context_knows_where_the_scie_is_assembled() {
    let context = context();
    assert_eq!(context.package_dir(), "/ws/target/scie-pikesquares");
    assert_eq!(context.manifest_path().unwrap(), "package/scie-pikesquares.toml");
    let build = context.lifted();
    assert_eq!(build.exe, "/ws/target/scie-pikesquares/scie-pikesquares-linux-x86_64");
    assert_eq!(build.sha256, "/ws/target/scie-pikesquares/scie-pikesquares-linux-x86_64.sha256");
}

#[test]
fn assembly_clears_the_directory_then_lifts() {
    let context = context();
    let state = lifting(&context);
    let (state, progress) = step(&context, state, Event::Exited(ProcessExit::new(0, "", "")));
    match progress {
        Progress::Done(build) => {
            assert_eq!(build.exe, "/ws/target/scie-pikesquares/scie-pikesquares-linux-x86_64");
            assert_eq!(
                build.sha256,
                "/ws/target/scie-pikesquares/scie-pikesquares-linux-x86_64.sha256"
            );
        }
        other => panic!("{other:?}"),
    }
    let (_, again) = step(&context, state, Event::Begin);
    assert!(matches!(again, Progress::Done(_)));
}

#[test]
fn output_names_differ_by_platform() {
    let mut context = context();
    context.os = "macos".to_string();
    context.arch = "aarch64".to_string();
    let build = context.lifted();
    assert_eq!(build.exe, "/ws/target/scie-pikesquares/scie-pikesquares-macos-aarch64");
    assert_eq!(build.sha256, "/ws/target/scie-pikesquares/scie-pikesquares-macos-aarch64.sha256");
}

#[test]
fn a_lift_that_fails_is_a_build_error_with_stderr() {
    let context = context();
    let state = lifting(&context);
    let exit = ProcessExit::new(1, "partial", "lift: manifest is invalid\n");
    let (state, progress) = step(&context, state, Event::Exited(exit));
    match progress {
        Progress::Failed(failure) => {
            assert_eq!(failure.kind, ErrorKind::Build);
            assert_eq!(failure.stage, Stage::Assemble);
            assert_eq!(failure.subject, "/cache/science");
            assert_eq!(failure.detail, "lift: manifest is invalid\n");
        }
        other => panic!("{other:?}"),
    }
    assert!(matches!(state, Assembly::Failed(_)));
    let (_, again) = step(&context, state, Event::Exited(ProcessExit::new(0, "", "")));
    assert!(matches!(again, Progress::Failed(_)));
}

#[test]
fn package_sources_outside_the_workspace_are_refused() {
    let mut context = context();
    context.package_crate_root = "/elsewhere/package".to_string();
    let failure = context.manifest_path().unwrap_err();
    assert_eq!(failure.kind, ErrorKind::Configuration);
    assert_eq!(failure.subject, "/elsewhere/package/scie-pikesquares.toml");
    let (state, _) = step(&context, Assembly::Start, Event::Begin);
    let (state, progress) = step(&context, state, Event::Completed);
    match progress {
        Progress::Failed(failure) => {
            assert_eq!(failure.kind, ErrorKind::Configuration);
            assert_eq!(failure.stage, Stage::Assemble);
            assert_eq!(failure.detail, "is not under the workspace root");
        }
        other => panic!("{other:?}"),
    }
    assert!(matches!(state, Assembly::Failed(_)));
}

#[test]
fn a_directory_that_cannot_be_cleared_ends_the_assembly() {
    let context = context();
    let (state, _) = step(&context, Assembly::Start, Event::Begin);
    let broken = Event::Broken {
        subject: "/ws/target/scie-pikesquares".to_string(),
        detail: "permission denied".to_string(),
    };
    let (_, progress) = step(&context, state, broken);
    match progress {
        Progress::Failed(failure) => {
            assert_eq!(failure.kind, ErrorKind::Configuration);
            assert_eq!(failure.stage, Stage::Assemble);
            assert_eq!(failure.subject, "/ws/target/scie-pikesquares");
            assert_eq!(failure.detail, "permission denied");
        }
        other => panic!("{other:?}"),
    }
}
