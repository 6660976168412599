use scie_pikesquares::checksum::fingerprint;
use scie_pikesquares::context::{BuildContext, Host};
use scie_pikesquares::failure::{ErrorKind, Stage};
use scie_pikesquares::machine::{Event, Progress, Step};
use scie_pikesquares::process::ProcessExit;
use scie_pikesquares::science::{fetch_science, Fetch, Origin, Science};

fn host() -> Host {
    Host {
        target: "x86_64-unknown-linux-gnu".to_string(),
        os: "linux".to_string(),
        arch: "x86_64".to_string(),
        exe_suffix: String::new(),
    }
}

fn context(science_repo: Option<&str>) -> BuildContext {
    BuildContext::new(None, science_repo, true, "/ws", &host()).unwrap()
}

const CACHED: &str = "/ws/target/science/v0.3.1/x86_64-unknown-linux-gnu/science-linux-x86_64";
const URL: &str = "https://github.com/a-scie/lift/releases/download/v0.3.1/science-linux-x86_64";

fn found(bytes: &[u8], checksum: &str) -> Event {
    Event::Found { bytes: bytes.to_vec(), checksum: checksum.to_string() }
}

fn probing(context: &BuildContext) -> Fetch {
    let (state, progress) = fetch_science(context, Fetch::Start, Event::Begin);
    match progress {
        Progress::Next(Step::Probe { file, checksum_file }) => {
            assert_eq!(file, CACHED);
            assert_eq!(checksum_file, format!("{CACHED}.sha256"));
        }
        other => panic!("{other:?}"),
    }
    assert!(matches!(state, Fetch::Probing));
    state
}

fn downloading(context: &BuildContext) -> Fetch {
    let (state, progress) = fetch_science(context, probing(context), Event::Missing);
    match progress {
        Progress::Next(Step::Download { url, checksum_url, timeout_secs }) => {
            assert_eq!(url, URL);
            assert_eq!(checksum_url, format!("{URL}.sha256"));
            assert_eq!(timeout_secs, 300);
        }
        other => panic!("{other:?}"),
    }
    assert!(matches!(state, Fetch::Downloading));
    state
}

fn expect_science(progress: Progress<Science>) -> Science {
    match progress {
        Progress::Done(science) => science,
        other => panic!("{other:?}"),
    }
}

#[test]
fn resolver_takes_the_host_target_by_default() {
    let context = BuildContext::new(None, None, false, "/ws", &host()).unwrap();
    assert_eq!(context.target, "x86_64-unknown-linux-gnu");
    assert_eq!(context.workspace_root, "/ws");
    assert_eq!(context.package_crate_root, "/ws/package");
    assert_eq!(context.cargo_output_root, "/ws/target");
    assert_eq!(context.os, "linux");
    assert_eq!(context.arch, "x86_64");
    assert_eq!(context.exe_suffix, "");
    assert_eq!(context.science_repo, None);
    assert_eq!(context.binary, "scie-pikesquares");
    assert_eq!(context.science_tag, "v0.3.1");
}

#[test]
fn resolver_takes_the_target_that_was_named() {
    let context =
        BuildContext::new(Some("aarch64-apple-darwin"), None, false, "/ws", &host()).unwrap();
    assert_eq!(context.target, "aarch64-apple-darwin");
}

#[test]
fn resolver_keeps_a_science_repo_that_is_there() {
    let context = BuildContext::new(None, Some("/src/lift"), true, "/ws", &host()).unwrap();
    assert_eq!(context.science_repo, Some("/src/lift".to_string()));
}

#[test]
fn resolver_refuses_a_science_repo_that_is_missing() {
    let failure = BuildContext::new(None, Some("/src/lift"), false, "/ws", &host()).unwrap_err();
    assert_eq!(failure.kind, ErrorKind::Configuration);
    assert_eq!(failure.stage, Stage::Resolve);
    assert_eq!(failure.subject, "/src/lift");
    assert_eq!(failure.detail, "no such directory");
}

#[test]
fn the_host_is_inferred_from_its_system_and_architecture() {
    let linux = Host::infer("linux", "x86_64", "");
    assert_eq!(linux.target, "x86_64-unknown-linux-gnu");
    assert_eq!(linux.os, "linux");
    assert_eq!(linux.arch, "x86_64");
    assert_eq!(linux.exe_suffix, "");
    assert_eq!(Host::infer("macos", "aarch64", "").target, "aarch64-apple-darwin");
    let windows = Host::infer("windows", "x86_64", ".exe");
    assert_eq!(windows.target, "x86_64-pc-windows-msvc");
    assert_eq!(windows.exe_suffix, ".exe");
    assert_eq!(Host::infer("freebsd", "x86_64", "").target, "x86_64-unknown-freebsd");
}

#[test]
fn binary_names_carry_the_platform() {
    assert_eq!(context(None).binary_full_name("scie-pikesquares"), "scie-pikesquares-linux-x86_64");
    let windows = Host {
        target: "x86_64-pc-windows-msvc".to_string(),
        os: "windows".to_string(),
        arch: "x86_64".to_string(),
        exe_suffix: ".exe".to_string(),
    };
    let context = BuildContext::new(None, None, false, "C:/ws", &windows).unwrap();
    assert_eq!(context.binary_full_name("science"), "science-windows-x86_64.exe");
    assert_eq!(context.science_name(), "science-windows-x86_64.exe");
}

#[test]
fn cache_and_release_are_keyed_by_version_and_platform() {
    let mut context = context(None);
    assert_eq!(context.cached_science(), CACHED);
    assert_eq!(context.science_url(), URL);
    context.science_tag = "v0.4.0".to_string();
    context.arch = "aarch64".to_string();
    context.target = "aarch64-unknown-linux-gnu".to_string();
    assert_eq!(
        context.cached_science(),
        "/ws/target/science/v0.4.0/aarch64-unknown-linux-gnu/science-linux-aarch64"
    );
    assert_eq!(
        context.science_url(),
        "https://github.com/a-scie/lift/releases/download/v0.4.0/science-linux-aarch64"
    );
}

#[test]
fn a_source_directory_takes_precedence() {
    let context = context(Some("/src/lift"));
    let (state, progress) = fetch_science(&context, Fetch::Start, Event::Begin);
    match progress {
        Progress::Next(Step::BuildScience { source_dir }) => assert_eq!(source_dir, "/src/lift"),
        other => panic!("{other:?}"),
    }
    let built = Event::Built {
        exit: ProcessExit::new(0, "", ""),
        path: "/src/lift/dist/science".to_string(),
    };
    let (state, progress) = fetch_science(&context, state, built);
    let science = expect_science(progress);
    assert_eq!(science.exe, "/src/lift/dist/science");
    assert_eq!(science.origin, Origin::LocallyBuilt);
    assert_eq!(science.tag, None);
    assert!(matches!(state, Fetch::Done(_)));
}

#[test]
fn a_source_build_that_fails_is_a_build_error() {
    let context = context(Some("/src/lift"));
    let (state, _) = fetch_science(&context, Fetch::Start, Event::Begin);
    let built = Event::Built { exit: ProcessExit::new(2, "", "no compiler"), path: String::new() };
    let (_, progress) = fetch_science(&context, state, built);
    match progress {
        Progress::Failed(failure) => {
            assert_eq!(failure.kind, ErrorKind::Build);
            assert_eq!(failure.stage, Stage::Fetch);
            assert_eq!(failure.detail, "no compiler");
        }
        other => panic!("{other:?}"),
    }
}

#[test]
fn a_good_cached_copy_is_reused() {
    let context = context(None);
    let tool = b"science binary";
    let checksum = format!("{} *science-linux-x86_64\n", fingerprint(tool));
    let (state, progress) = fetch_science(&context, probing(&context), found(tool, &checksum));
    let science = expect_science(progress);
    assert_eq!(science.exe, CACHED);
    assert_eq!(science.origin, Origin::Cached);
    assert_eq!(science.tag, Some("v0.3.1".to_string()));
    assert!(matches!(state, Fetch::Done(_)));
}

#[test]
fn a_corrupted_cached_copy_is_an_integrity_error() {
    let context = context(None);
    let checksum = format!("{} *science-linux-x86_64\n", fingerprint(b"science binary"));
    let (state, progress) =
        fetch_science(&context, probing(&context), found(b"science binarx", &checksum));
    match progress {
        Progress::Failed(failure) => {
            assert_eq!(failure.kind, ErrorKind::Integrity);
            assert_eq!(failure.stage, Stage::Fetch);
            assert_eq!(failure.subject, CACHED);
        }
        other => panic!("{other:?}"),
    }
    assert!(matches!(state, Fetch::Failed(_)));
    for event in [Event::Missing, Event::Completed, found(b"science binary", &checksum)] {
        let (next, progress) = fetch_science(&context, probing_failed(&context, &checksum), event);
        assert!(matches!(next, Fetch::Failed(_)));
        match progress {
            Progress::Failed(failure) => assert_eq!(failure.kind, ErrorKind::Integrity),
            other => panic!("{other:?}"),
        }
    }
}

fn probing_failed(context: &BuildContext, checksum: &str) -> Fetch {
    fetch_science(context, probing(context), found(b"science binarx", checksum)).0
}

#[test]
fn an_empty_cache_leads_to_a_download_that_is_stored() {
    let context = context(None);
    let tool = b"science release";
    let checksum = format!("{}  science-linux-x86_64\n", fingerprint(tool));
    let (state, progress) = fetch_science(&context, downloading(&context), found(tool, &checksum));
    match progress {
        Progress::Next(Step::Store { file, checksum_file, bytes, checksum: stored }) => {
            assert_eq!(file, CACHED);
            assert_eq!(checksum_file, format!("{CACHED}.sha256"));
            assert_eq!(bytes, tool.to_vec());
            assert_eq!(stored, checksum);
        }
        other => panic!("{other:?}"),
    }
    assert!(matches!(state, Fetch::Storing));
    let (state, progress) = fetch_science(&context, state, Event::Completed);
    let science = expect_science(progress);
    assert_eq!(science.exe, CACHED);
    assert_eq!(science.origin, Origin::Downloaded);
    assert_eq!(science.tag, Some("v0.3.1".to_string()));
    let (_, again) = fetch_science(&context, state, Event::Begin);
    assert_eq!(expect_science(again).exe, CACHED);
}

#[test]
fn a_download_that_does_not_match_is_an_integrity_error() {
    let context = context(None);
    let checksum = format!("{}  science-linux-x86_64\n", fingerprint(b"science release"));
    let (state, progress) =
        fetch_science(&context, downloading(&context), found(b"tampered", &checksum));
    match progress {
        Progress::Failed(failure) => {
            assert_eq!(failure.kind, ErrorKind::Integrity);
            assert_eq!(failure.stage, Stage::Fetch);
            assert_eq!(failure.subject, URL);
        }
        other => panic!("{other:?}"),
    }
    assert!(matches!(state, Fetch::Failed(_)));
}

#[test]
fn a_download_that_cannot_be_had_is_a_fetch_error() {
    let context = context(None);
    let broken =
        Event::Broken { subject: URL.to_string(), detail: "timed out after 300 s".to_string() };
    let (_, progress) = fetch_science(&context, downloading(&context), broken);
    match progress {
        Progress::Failed(failure) => {
            assert_eq!(failure.kind, ErrorKind::Fetch);
            assert_eq!(failure.stage, Stage::Fetch);
            assert_eq!(failure.subject, URL);
            assert_eq!(failure.detail, "timed out after 300 s");
        }
        other => panic!("{other:?}"),
    }
}

#[test]
fn a_report_of_another_step_ends_the_fetch() {
    let context = context(None);
    let (state, progress) = fetch_science(&context, probing(&context), Event::Completed);
    match progress {
        Progress::Failed(failure) => {
            assert_eq!(failure.kind, ErrorKind::Configuration);
            assert_eq!(failure.subject, "report");
            assert_eq!(failure.detail, "does not answer the step that was asked for");
        }
        other => panic!("{other:?}"),
    }
    assert!(matches!(state, Fetch::Failed(_)));
}

#[test]
fn a_store_that_fails_ends_the_fetch() {
    let context = context(None);
    let tool = b"science release";
    let checksum = fingerprint(tool);
    let (state, _) = fetch_science(&context, downloading(&context), found(tool, &checksum));
    let broken = Event::Broken { subject: CACHED.to_string(), detail: "disk full".to_string() };
    let (_, progress) = fetch_science(&context, state, broken);
    match progress {
        Progress::Failed(failure) => {
            assert_eq!(failure.kind, ErrorKind::Configuration);
            assert_eq!(failure.subject, CACHED);
            assert_eq!(failure.detail, "disk full");
        }
        other => panic!("{other:?}"),
    }
}

#[test]
fn science_clone_keeps_every_field() {
    let science = Science {
        tag: Some("v0.3.1".to_string()),
        exe: CACHED.to_string(),
        origin: Origin::Cached,
    };
    let copy = science.clone();
    assert_eq!(copy.tag, science.tag);
    assert_eq!(copy.exe, science.exe);
    assert_eq!(copy.origin, science.origin);
}
