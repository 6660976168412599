use scie_pikesquares::config::{
    Config, ConfigFile, DebugPy, Defaults, Global, Loaded, PikeSquaresConfig,
};
use scie_pikesquares::failure::{ErrorKind, Stage};
use scie_pikesquares::machine::{interrupted, Event};

fn config(version: Option<&str>, debugpy: Option<&str>, delegate: Option<bool>) -> Config {
    Config {
        global: Global { pikesquares_version: version.map(str::to_string) },
        debugpy: DebugPy { version: debugpy.map(str::to_string) },
        default: Defaults { delegate_bootstrap: delegate },
    }
}

fn parsed(config: Config) -> PikeSquaresConfig {
    PikeSquaresConfig::parse("/repo".to_string(), &None, Loaded::Parsed(config)).unwrap()
}

#[test]
fn settings_are_read_back() {
    let settings = parsed(config(Some("1.2.3"), Some("1.8.0"), Some(true)));
    assert_eq!(settings.package_version(), Some("1.2.3".to_string()));
    assert_eq!(settings.debugpy_version(), Some("1.8.0".to_string()));
    assert!(settings.delegate_bootstrap());
    assert_eq!(settings.build_root(), "/repo");
    assert_eq!(settings.config.global.pikesquares_version, Some("1.2.3".to_string()));
}

#[test]
fn settings_that_are_left_out_are_absent() {
    let settings = parsed(config(None, None, None));
    assert_eq!(settings.package_version(), None);
    assert_eq!(settings.debugpy_version(), None);
    assert!(!settings.delegate_bootstrap());
}

#[test]
fn bootstrap_is_delegated_only_on_request() {
    assert!(!parsed(config(None, None, Some(false))).delegate_bootstrap());
    assert!(parsed(config(None, None, Some(true))).delegate_bootstrap());
}

#[test]
fn the_settings_file_lies_in_the_build_root() {
    let file = ConfigFile::locate("/repo", &None);
    assert_eq!(file.path, "/repo/pikesquares.toml");
    assert_eq!(file.provenance, "");
}

#[test]
fn the_environment_redirects_the_settings_file() {
    let file = ConfigFile::locate("/repo", &Some("/etc/ps.toml".to_string()));
    assert_eq!(file.path, "/etc/ps.toml");
    assert_eq!(file.provenance, " (via PIKESQUARES_TOML env var)");
}

#[test]
fn a_file_that_cannot_be_read_is_a_configuration_error() {
    let loaded = Loaded::Unreadable { detail: "No such file or directory".to_string() };
    let failure = PikeSquaresConfig::parse("/repo".to_string(), &None, loaded).unwrap_err();
    assert_eq!(failure.kind, ErrorKind::Configuration);
    assert_eq!(failure.stage, Stage::Resolve);
    assert_eq!(failure.subject, "/repo/pikesquares.toml");
    assert_eq!(
        failure.detail,
        "Failed to read PikeSquares config from /repo/pikesquares.toml: No such file or directory"
    );
}

#[test]
fn a_file_that_cannot_be_parsed_is_a_configuration_error() {
    let loaded = Loaded::Malformed { detail: "expected `=`".to_string() };
    let redirect = Some("/etc/ps.toml".to_string());
    let failure = PikeSquaresConfig::parse("/repo".to_string(), &redirect, loaded).unwrap_err();
    assert_eq!(failure.kind, ErrorKind::Configuration);
    assert_eq!(failure.subject, "/etc/ps.toml");
    assert_eq!(
        failure.detail,
        "Failed to parse PikeSquares config from /etc/ps.toml (via PIKESQUARES_TOML env var): expected `=`"
    );
}

#[test]
fn a_broken_step_fails_with_what_is_reported() {
    let event = Event::Broken { subject: "dist".to_string(), detail: "read-only".to_string() };
    let failure = interrupted(ErrorKind::Configuration, Stage::Publish, event);
    assert_eq!(failure.kind, ErrorKind::Configuration);
    assert_eq!(failure.stage, Stage::Publish);
    assert_eq!(failure.subject, "dist");
    assert_eq!(failure.detail, "read-only");
}

#[test]
fn a_stray_report_fails_on_its_own_account() {
    let failure = interrupted(ErrorKind::Fetch, Stage::Fetch, Event::Completed);
    assert_eq!(failure.kind, ErrorKind::Fetch);
    assert_eq!(failure.subject, "report");
    assert_eq!(failure.detail, "does not answer the step that was asked for");
}
