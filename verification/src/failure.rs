//! What can go wrong in the pipeline, and where.
use vstd::prelude::*;

verus! {

/// The kinds of fatal error.
#[derive(Clone, Copy, Debug, PartialEq, Eq, Structural)]
pub enum ErrorKind {
    /// A supplied path or setting is missing or malformed.
    Configuration,
    /// The packaging tool could not be downloaded.
    Fetch,
    /// Bytes do not have the digest recorded for them.
    Integrity,
    /// A tool was run and did not exit with zero.
    Build,
    /// Two things that have to agree do not.
    Consistency,
}

/// The stages of the pipeline, by which a failure is located.
#[derive(Clone, Copy, Debug, PartialEq, Eq, Structural)]
pub enum Stage {
    Resolve,
    Fetch,
    Binary,
    Bundle,
    Assemble,
    Publish,
    Verify,
    Style,
    Drift,
    Scenario,
}

/// A fatal error: its kind, the stage that met it, the path or tool it
/// is about, and what is known of the cause.
#[derive(Debug)]
pub struct Failure {
    pub kind: ErrorKind,
    pub stage: Stage,
    pub subject: String,
    pub detail: String,
}

/// What a [`Failure`] holds, as a mathematical value.
pub struct FailureView {
    pub kind: ErrorKind,
    pub stage: Stage,
    pub subject: Seq<char>,
    pub detail: Seq<char>,
}

impl View for Failure {
    type V = FailureView;

    open spec fn view(&self) -> FailureView {
        FailureView {
            kind: self.kind,
            stage: self.stage,
            subject: self.subject@,
            detail: self.detail@,
        }
    }
}

/// The name of a kind of error, as it stands in messages.
pub open spec fn kind_name(kind: ErrorKind) -> Seq<char> {
    match kind {
        ErrorKind::Configuration => "configuration error"@,
        ErrorKind::Fetch => "fetch error"@,
        ErrorKind::Integrity => "integrity error"@,
        ErrorKind::Build => "build error"@,
        ErrorKind::Consistency => "consistency error"@,
    }
}

/// The name of a stage, as it stands in messages.
pub open spec fn stage_name(stage: Stage) -> Seq<char> {
    match stage {
        Stage::Resolve => "resolve"@,
        Stage::Fetch => "fetch"@,
        Stage::Binary => "binary"@,
        Stage::Bundle => "bundle"@,
        Stage::Assemble => "assemble"@,
        Stage::Publish => "publish"@,
        Stage::Verify => "verify"@,
        Stage::Style => "style"@,
        Stage::Drift => "drift"@,
        Stage::Scenario => "scenario"@,
    }
}

/// The one line by which a failure is reported: stage, kind, subject and
/// detail, each set off by a colon and a space.
pub open spec fn message_of(failure: FailureView) -> Seq<char> {
    stage_name(failure.stage) + ": "@ + kind_name(failure.kind) + ": "@ + failure.subject + ": "@
        + failure.detail
}

impl ErrorKind {
    pub fn name(self) -> (name: &'static str)
        ensures
            name@ == kind_name(self),
    {
        match self {
            ErrorKind::Configuration => "configuration error",
            ErrorKind::Fetch => "fetch error",
            ErrorKind::Integrity => "integrity error",
            ErrorKind::Build => "build error",
            ErrorKind::Consistency => "consistency error",
        }
    }
}

impl Stage {
    pub fn name(self) -> (name: &'static str)
        ensures
            name@ == stage_name(self),
    {
        match self {
            Stage::Resolve => "resolve",
            Stage::Fetch => "fetch",
            Stage::Binary => "binary",
            Stage::Bundle => "bundle",
            Stage::Assemble => "assemble",
            Stage::Publish => "publish",
            Stage::Verify => "verify",
            Stage::Style => "style",
            Stage::Drift => "drift",
            Stage::Scenario => "scenario",
        }
    }
}

impl Failure {
    /// A failure of the given kind at the given stage.
    pub fn new(kind: ErrorKind, stage: Stage, subject: &str, detail: &str) -> (failure: Self)
        ensures
            failure@ == (FailureView { kind, stage, subject: subject@, detail: detail@ }),
    {
        Failure {
            kind,
            stage,
            subject: String::from_str(subject),
            detail: String::from_str(detail),
        }
    }

    /// The line by which this failure is reported.
    pub fn message(&self) -> (line: String)
        ensures
            line@ == message_of(self@),
    {
        String::from_str(self.stage.name()).concat(": ").concat(self.kind.name()).concat(
            ": ",
        ).concat(self.subject.as_str()).concat(": ").concat(self.detail.as_str())
    }
}

impl Clone for Failure {
    fn clone(&self) -> (copy: Self)
        ensures
            copy@ == self@,
    {
        Failure {
            kind: self.kind,
            stage: self.stage,
            subject: self.subject.clone(),
            detail: self.detail.clone(),
        }
    }
}

} // verus!
