//! Running a tool: what is asked of the caller, and what it reports.
use crate::failure::{ErrorKind, Failure, FailureView, Stage};
use vstd::prelude::*;

verus! {

/// The texts of a list of strings.
pub open spec fn texts(strings: Seq<String>) -> Seq<Seq<char>> {
    strings.map_values(|s: String| s@)
}

/// A tool to run: the program, its arguments and the directory to run
/// it in.
#[derive(Debug)]
pub struct Invocation {
    pub program: String,
    pub args: Vec<String>,
    pub current_dir: String,
}

/// What a [`Invocation`] holds, as a mathematical value.
pub struct InvocationView {
    pub program: Seq<char>,
    pub args: Seq<Seq<char>>,
    pub current_dir: Seq<char>,
}

impl View for Invocation {
    type V = InvocationView;

    open spec fn view(&self) -> InvocationView {
        InvocationView {
            program: self.program@,
            args: texts(self.args@),
            current_dir: self.current_dir@,
        }
    }
}

/// How a tool ended: its exit code and what it wrote.
#[derive(Debug)]
pub struct ProcessExit {
    pub code: i32,
    pub stdout: String,
    pub stderr: String,
}

/// What a [`ProcessExit`] holds, as a mathematical value.
pub struct ProcessExitView {
    pub code: i32,
    pub stdout: Seq<char>,
    pub stderr: Seq<char>,
}

impl View for ProcessExit {
    type V = ProcessExitView;

    open spec fn view(&self) -> ProcessExitView {
        ProcessExitView { code: self.code, stdout: self.stdout@, stderr: self.stderr@ }
    }
}

/// The failure that a tool's exit stands for: none where it exited with
/// zero, else a build error that names the tool and carries what it wrote
/// to its error stream, unchanged.
pub open spec fn exit_failure(
    stage: Stage,
    tool: Seq<char>,
    exit: ProcessExitView,
) -> Option<FailureView> {
    if exit.code == 0 {
        None
    } else {
        Some(FailureView { kind: ErrorKind::Build, stage, subject: tool, detail: exit.stderr })
    }
}

impl ProcessExit {
    /// An exit with the given code and outputs.
    pub fn new(code: i32, stdout: &str, stderr: &str) -> (exit: Self)
        ensures
            exit@ == (ProcessExitView { code, stdout: stdout@, stderr: stderr@ }),
    {
        ProcessExit { code, stdout: String::from_str(stdout), stderr: String::from_str(stderr) }
    }

    /// Judges the exit of `tool`, run at `stage`.
    pub fn check(&self, stage: Stage, tool: &str) -> (outcome: Result<(), Failure>)
        ensures
            outcome.is_ok() == exit_failure(stage, tool@, self@).is_none(),
            outcome.is_err() ==> Some(outcome.unwrap_err()@) == exit_failure(stage, tool@, self@),
    {
        if self.code == 0 {
            Ok(())
        } else {
            Err(Failure::new(ErrorKind::Build, stage, tool, self.stderr.as_str()))
        }
    }
}

} // verus!
