//! SHA-256 checksums: computing them and holding artifacts to them.
use crate::failure::{ErrorKind, Failure, FailureView, Stage};
use crate::text::{first_token, hex, leading_token, to_hex};
use sha2::Digest;
use vstd::prelude::*;

verus! {

/// The SHA-256 digest of a byte string.
pub uninterp spec fn sha256(bytes: Seq<u8>) -> Seq<u8>;

/// Calls `sha2::Sha256::digest`, which hashes the whole input in one go.
/// The digest depends on the input bytes alone and is given here as the
/// bytes of the returned array, in order.
#[verifier::external_body]
fn sha256_digest(bytes: &[u8]) -> (digest: Vec<u8>)
    ensures
        digest@ == sha256(bytes@),
{
    sha2::Sha256::digest(bytes).to_vec()
}

/// The checksum of an artifact as it is written down: its SHA-256 digest
/// in lower-case hexadecimal.
pub open spec fn fingerprint_of(bytes: Seq<u8>) -> Seq<char> {
    hex(sha256(bytes))
}

/// The digest that a checksum file records: the first token of its text,
/// in front of the file name.
pub open spec fn recorded_digest(checksum: Seq<char>) -> Seq<char> {
    first_token(checksum)
}

/// Whether the bytes of an artifact have the digest that its checksum
/// file records.
pub open spec fn matches_checksum(bytes: Seq<u8>, checksum: Seq<char>) -> bool {
    fingerprint_of(bytes) == recorded_digest(checksum)
}

/// The path of the checksum file that belongs to an artifact.
pub open spec fn checksum_path(artifact: Seq<char>) -> Seq<char> {
    artifact + ".sha256"@
}

/// What a mismatch is reported with: the digest that was recorded and
/// the one that was found.
pub open spec fn mismatch_detail(bytes: Seq<u8>, checksum: Seq<char>) -> Seq<char> {
    "expected sha256 "@ + recorded_digest(checksum) + " but found "@ + fingerprint_of(bytes)
}

/// The integrity error for an artifact whose bytes do not match its
/// checksum file.
pub open spec fn mismatch(
    stage: Stage,
    artifact: Seq<char>,
    bytes: Seq<u8>,
    checksum: Seq<char>,
) -> FailureView {
    FailureView {
        kind: ErrorKind::Integrity,
        stage,
        subject: artifact,
        detail: mismatch_detail(bytes, checksum),
    }
}

/// Computes the checksum of an artifact from its bytes.
pub fn fingerprint(bytes: &[u8]) -> (text: String)
    ensures
        text@ == fingerprint_of(bytes@),
{
    let digest: Vec<u8> = sha256_digest(bytes);
    to_hex(digest.as_slice())
}

/// Gives the path of the checksum file that belongs to `artifact`.
pub fn checksum_file(artifact: &str) -> (path: String)
    ensures
        path@ == checksum_path(artifact@),
{
    String::from_str(artifact).concat(".sha256")
}

/// Holds the bytes of `artifact` to the text of its checksum file, on
/// behalf of `stage`. Succeeds exactly when the recomputed digest is the
/// recorded one; a mismatch is an integrity error.
pub fn verify_digest(stage: Stage, artifact: &str, bytes: &[u8], checksum: &str) -> (outcome:
    Result<(), Failure>)
    ensures
        outcome.is_ok() == matches_checksum(bytes@, checksum@),
        outcome.is_err() ==> outcome.unwrap_err()@ == mismatch(
            stage,
            artifact@,
            bytes@,
            checksum@,
        ),
{
    let actual: String = fingerprint(bytes);
    let expected: String = leading_token(checksum);
    if actual == expected {
        Ok(())
    } else {
        let detail: String = String::from_str("expected sha256 ").concat(
            expected.as_str(),
        ).concat(" but found ").concat(actual.as_str());
        Err(Failure::new(ErrorKind::Integrity, stage, artifact, detail.as_str()))
    }
}

/// Holds the final artifact at `artifact` to its checksum file.
pub fn check_sha256(artifact: &str, bytes: &[u8], checksum: &str) -> (outcome: Result<
    (),
    Failure,
>)
    ensures
        outcome.is_ok() == matches_checksum(bytes@, checksum@),
        outcome.is_err() ==> outcome.unwrap_err()@ == mismatch(
            Stage::Verify,
            artifact@,
            bytes@,
            checksum@,
        ),
{
    verify_digest(Stage::Verify, artifact, bytes, checksum)
}

} // verus!
