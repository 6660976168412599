use scie_pikesquares::failure::{ErrorKind, Failure, Stage};
use scie_pikesquares::paths::{base_name, join, strip_prefix, SpecifiedPath};
use scie_pikesquares::process::ProcessExit;
use scie_pikesquares::text::{blank, chars_of, contains, leading_token, to_hex};

#[test]
fn hex_is_lower_case_and_two_digits_per_byte() {
    assert_eq!(to_hex(&[]), "");
    assert_eq!(to_hex(&[0]), "00");
    assert_eq!(to_hex(&[0x0f, 0xf0, 0xab, 0x09, 0xff]), "0ff0ab09ff");
    assert_eq!(to_hex(&[1, 35, 69, 103, 137, 171, 205, 239]), "0123456789abcdef");
}

#[test]
fn chars_of_keeps_every_character() {
    assert_eq!(chars_of(""), Vec::<char>::new());
    assert_eq!(chars_of("a/é"), vec!['a', '/', 'é']);
}

#[test]
fn contains_finds_a_needle_anywhere() {
    assert!(contains("scie-pikesquares 1.2.3\n", "1.2.3"));
    assert!(contains("1.2.3", "1.2.3"));
    assert!(contains("abc", ""));
    assert!(contains("", ""));
    assert!(contains("aab", "ab"));
}

#[test]
fn contains_rejects_what_is_not_there() {
    assert!(!contains("scie-pikesquares 1.2.3\n", "1.2.4"));
    assert!(!contains("", "a"));
    assert!(!contains("ab", "abc"));
    assert!(!contains("abab", "bb"));
}

#[test]
fn leading_token_stops_at_the_first_blank() {
    assert_eq!(leading_token("abc123 *scie-pikesquares\n"), "abc123");
    assert_eq!(leading_token("abc123  scie-pikesquares"), "abc123");
    assert_eq!(leading_token("abc123\n"), "abc123");
    assert_eq!(leading_token("abc123\tname"), "abc123");
    assert_eq!(leading_token("abc123"), "abc123");
    assert_eq!(leading_token(" abc123"), "");
    assert_eq!(leading_token(""), "");
}

#[test]
fn blank_knows_the_four_separators() {
    assert!(blank(' ') && blank('\t') && blank('\r') && blank('\n'));
    assert!(!blank('a') && !blank('/') && !blank('0'));
}

#[test]
fn join_puts_one_separator_between() {
    assert_eq!(join("/ws", "target"), "/ws/target");
    assert_eq!(join("dist", "scie-pikesquares"), "dist/scie-pikesquares");
}

#[test]
fn join_keeps_a_trailing_separator_single() {
    assert_eq!(join("/ws/", "target"), "/ws/target");
    assert_eq!(join("/", "target"), "/target");
}

#[test]
fn join_to_the_empty_path_is_the_name() {
    assert_eq!(join("", "target"), "target");
}

#[test]
fn strip_prefix_gives_the_path_under_the_base() {
    assert_eq!(
        strip_prefix("/ws/package/scie-pikesquares.toml", "/ws"),
        Some("package/scie-pikesquares.toml".to_string())
    );
    assert_eq!(strip_prefix("/ws/package", "/ws/"), Some("package".to_string()));
    assert_eq!(strip_prefix("/ws", "/ws"), Some(String::new()));
    assert_eq!(strip_prefix("a/b", ""), Some("a/b".to_string()));
}

#[test]
fn strip_prefix_refuses_a_path_elsewhere() {
    assert_eq!(strip_prefix("/other/package", "/ws"), None);
    assert_eq!(strip_prefix("/wsx/package", "/ws"), None);
    assert_eq!(strip_prefix("/w", "/ws"), None);
}

#[test]
fn strip_prefix_undoes_join() {
    for base in ["", "/", "/ws", "/ws/", "rel/dir"] {
        let path = join(base, "package/scie-pikesquares.toml");
        assert_eq!(
            strip_prefix(&path, base),
            Some("package/scie-pikesquares.toml".to_string())
        );
    }
}

#[test]
fn base_name_is_the_last_component() {
    assert_eq!(base_name("/ws/target/scie-pikesquares"), Some("scie-pikesquares".to_string()));
    assert_eq!(base_name("scie-pikesquares"), Some("scie-pikesquares".to_string()));
    assert_eq!(base_name("a/b.sha256"), Some("b.sha256".to_string()));
}

#[test]
fn base_name_of_a_directory_like_path_is_missing() {
    assert_eq!(base_name(""), None);
    assert_eq!(base_name("/"), None);
    assert_eq!(base_name("/ws/target/"), None);
}

#[test]
fn base_name_of_a_joined_name_is_that_name() {
    for base in ["", "/", "/ws", "/ws/", "rel/dir"] {
        assert_eq!(base_name(&join(base, "tools.pex")), Some("tools.pex".to_string()));
    }
}

#[test]
fn specified_path_holds_what_was_written() {
    let dist = SpecifiedPath::new("dist");
    assert_eq!(dist.as_str(), "dist");
    assert_eq!(dist.display(), "dist");
    assert_eq!(dist.join("scie-pikesquares"), "dist/scie-pikesquares");
    assert_eq!(dist.clone().as_str(), "dist");
    let from = SpecifiedPath::from("/tmp/out".to_string());
    assert_eq!(from.as_str(), "/tmp/out");
}

#[test]
fn failure_message_names_stage_kind_subject_and_detail() {
    let failure = Failure::new(ErrorKind::Build, Stage::Assemble, "science", "boom");
    assert_eq!(failure.message(), "assemble: build error: science: boom");
    let failure = Failure::new(ErrorKind::Integrity, Stage::Verify, "dist/x", "bad");
    assert_eq!(failure.message(), "verify: integrity error: dist/x: bad");
    let copy = failure.clone();
    assert_eq!(copy.message(), failure.message());
}

#[test]
fn every_kind_and_stage_has_its_name() {
    assert_eq!(ErrorKind::Configuration.name(), "configuration error");
    assert_eq!(ErrorKind::Fetch.name(), "fetch error");
    assert_eq!(ErrorKind::Integrity.name(), "integrity error");
    assert_eq!(ErrorKind::Build.name(), "build error");
    assert_eq!(ErrorKind::Consistency.name(), "consistency error");
    let stages = [
        (Stage::Resolve, "resolve"),
        (Stage::Fetch, "fetch"),
        (Stage::Binary, "binary"),
        (Stage::Bundle, "bundle"),
        (Stage::Assemble, "assemble"),
        (Stage::Publish, "publish"),
        (Stage::Verify, "verify"),
        (Stage::Style, "style"),
        (Stage::Drift, "drift"),
        (Stage::Scenario, "scenario"),
    ];
    for (stage, name) in stages {
        assert_eq!(stage.name(), name);
    }
}

#[test]
fn exit_with_zero_is_no_failure() {
    let exit = ProcessExit::new(0, "out", "noise on stderr");
    assert!(exit.check(Stage::Binary, "cargo").is_ok());
}

#[test]
fn any_other_exit_is_a_build_error_with_stderr_verbatim() {
    for code in [1, 2, -1, 101, i32::MAX, i32::MIN] {
        let exit = ProcessExit::new(code, "out", "error: linking failed\n  at line 3\n");
        let failure = exit.check(Stage::Binary, "cargo").unwrap_err();
        assert_eq!(failure.kind, ErrorKind::Build);
        assert_eq!(failure.stage, Stage::Binary);
        assert_eq!(failure.subject, "cargo");
        assert_eq!(failure.detail, "error: linking failed\n  at line 3\n");
    }
}
