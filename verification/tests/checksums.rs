use scie_pikesquares::checksum::{check_sha256, checksum_file, fingerprint, verify_digest};
use scie_pikesquares::failure::{ErrorKind, Stage};

const ABC: &str = "ba7816bf8f01cfea414140de5dae2223b00361a396177a9cb410ff61f20015ad";
const EMPTY: &str = "e3b0c44298fc1c149afbf4c8996fb92427ae41e4649b934ca495991b7852b855";

#[test]
fn fingerprint_is_the_sha256_in_hex() {
    assert_eq!(fingerprint(b"abc"), ABC);
    assert_eq!(fingerprint(b""), EMPTY);
    assert_eq!(
        fingerprint(b"abcdbcdecdefdefgefghfghighijhijkijkljklmklmnlmnomnopnopq"),
        "248d6a61d20638b8e5c026930c3e6039a33ce45964ff2167f6ecedd419db06c1"
    );
}

#[test]
fn fingerprint_is_not_the_input() {
    let bytes = b"0123456789abcdef0123456789abcdef";
    assert_ne!(fingerprint(bytes).as_bytes(), bytes);
    assert_eq!(fingerprint(bytes).len(), 64);
}

#[test]
fn checksum_file_lies_beside_the_artifact() {
    assert_eq!(checksum_file("dist/scie-pikesquares"), "dist/scie-pikesquares.sha256");
    assert_eq!(checksum_file(""), ".sha256");
}

#[test]
fn check_sha256_accepts_the_recorded_digest() {
    let line = format!("{ABC} *scie-pikesquares-linux-x86_64\n");
    assert!(check_sha256("dist/scie-pikesquares-linux-x86_64", b"abc", &line).is_ok());
    let line = format!("{ABC}  scie-pikesquares-linux-x86_64");
    assert!(check_sha256("dist/scie-pikesquares-linux-x86_64", b"abc", &line).is_ok());
    assert!(check_sha256("x", b"abc", ABC).is_ok());
    assert!(check_sha256("x", b"", &format!("{EMPTY}\n")).is_ok());
}

#[test]
fn check_sha256_rejects_another_digest() {
    let line = format!("{EMPTY} *scie-pikesquares\n");
    let failure = check_sha256("dist/scie-pikesquares", b"abc", &line).unwrap_err();
    assert_eq!(failure.kind, ErrorKind::Integrity);
    assert_eq!(failure.stage, Stage::Verify);
    assert_eq!(failure.subject, "dist/scie-pikesquares");
    assert_eq!(failure.detail, format!("expected sha256 {EMPTY} but found {ABC}"));
}

#[test]
fn check_sha256_rejects_a_digest_in_upper_case() {
    let line = ABC.to_uppercase();
    assert!(check_sha256("x", b"abc", &line).is_err());
}

#[test]
fn check_sha256_rejects_an_empty_checksum_file() {
    let failure = check_sha256("x", b"abc", "").unwrap_err();
    assert_eq!(failure.kind, ErrorKind::Integrity);
    assert_eq!(failure.detail, format!("expected sha256  but found {ABC}"));
}

#[test]
fn check_sha256_reads_the_digest_and_not_the_file_name() {
    let line = format!("scie-pikesquares {ABC}\n");
    assert!(check_sha256("x", b"abc", &line).is_err());
    let line = format!("{ABC} some-other-name\n");
    assert!(check_sha256("x", b"abc", &line).is_ok());
}

#[test]
fn one_changed_byte_is_found() {
    let good = b"the packaged executable".to_vec();
    let line = format!("{} *scie\n", fingerprint(&good));
    assert!(check_sha256("scie", &good, &line).is_ok());
    let mut bad = good.clone();
    bad[3] ^= 1;
    assert!(check_sha256("scie", &bad, &line).is_err());
}

#[test]
fn verify_digest_reports_on_behalf_of_its_stage() {
    let failure = verify_digest(Stage::Fetch, "science", b"abc", EMPTY).unwrap_err();
    assert_eq!(failure.kind, ErrorKind::Integrity);
    assert_eq!(failure.stage, Stage::Fetch);
    assert_eq!(failure.subject, "science");
    assert!(verify_digest(Stage::Fetch, "science", b"abc", ABC).is_ok());
}
