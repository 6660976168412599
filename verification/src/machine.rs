//! The exchange between the pipeline and whoever carries out its steps.
//!
//! The pipeline decides; it runs no tool and touches no file. Each call
//! takes the state so far and a report of what the last step came to,
//! and gives the next state together with the step to carry out next,
//! the result, or the failure that ended the run.
use crate::failure::{ErrorKind, Failure, FailureView, Stage};
use crate::process::{Invocation, InvocationView, ProcessExit, ProcessExitView};
use crate::science::{Science, ScienceView};
use vstd::prelude::*;

verus! {

/// One thing to be done outside the pipeline.
#[derive(Debug)]
pub enum Step {
    /// Compile the native binary for `target`. Answered by `Built`.
    BuildBinary { target: String },
    /// Build the packaging tool from the sources in `source_dir`.
    /// Answered by `Built`.
    BuildScience { source_dir: String },
    /// Build the dependency bundle with the packaging tool, refreshing
    /// the lock first where `update_lock` is set. Answered by `Built`.
    BuildToolsPex { science: Science, update_lock: bool, dest_dir: String },
    /// Have the installed application build its own dependency bundle.
    /// Answered by `Built`.
    BuildReferenceBundle { scie_pikesquares: String },
    /// Read a file and the checksum file that belongs to it. Answered by
    /// `Found`, or by `Missing` where the file is not there.
    Probe { file: String, checksum_file: String },
    /// Download a release asset and its checksum file, giving up after
    /// `timeout_secs`. Answered by `Found`.
    Download { url: String, checksum_url: String, timeout_secs: u64 },
    /// Write a file and its checksum file. Answered by `Completed`.
    Store { file: String, checksum_file: String, bytes: Vec<u8>, checksum: String },
    /// Remove the directory with all it holds and create it anew.
    /// Answered by `Completed`.
    RecreateDirectory { path: String },
    /// Create the directory unless it is there. Answered by `Completed`.
    EnsureDirectory { path: String },
    /// Run a tool and wait for it. Answered by `Exited`.
    Run(Invocation),
    /// Run the formatter and the linter over the sources, correcting
    /// them in place where `fix` is set. Answered by `Exited`.
    Style { workspace_root: String, fix: bool },
    /// Read two dependency bundles. Answered by `Bundles`.
    ReadBundles { ours: String, reference: String },
    /// Log a warning. Answered by `Completed`.
    Warn { message: String },
    /// Copy a file. Answered by `Completed`.
    Copy { from: String, to: String },
}

/// What a [`Step`] holds, as a mathematical value.
pub enum StepView {
    BuildBinary { target: Seq<char> },
    BuildScience { source_dir: Seq<char> },
    BuildToolsPex { science: ScienceView, update_lock: bool, dest_dir: Seq<char> },
    BuildReferenceBundle { scie_pikesquares: Seq<char> },
    Probe { file: Seq<char>, checksum_file: Seq<char> },
    Download { url: Seq<char>, checksum_url: Seq<char>, timeout_secs: u64 },
    Store { file: Seq<char>, checksum_file: Seq<char>, bytes: Seq<u8>, checksum: Seq<char> },
    RecreateDirectory { path: Seq<char> },
    EnsureDirectory { path: Seq<char> },
    Run(InvocationView),
    Style { workspace_root: Seq<char>, fix: bool },
    ReadBundles { ours: Seq<char>, reference: Seq<char> },
    Warn { message: Seq<char> },
    Copy { from: Seq<char>, to: Seq<char> },
}

impl View for Step {
    type V = StepView;

    open spec fn view(&self) -> StepView {
        match *self {
            Step::BuildBinary { target } => StepView::BuildBinary { target: target@ },
            Step::BuildScience { source_dir } => StepView::BuildScience {
                source_dir: source_dir@,
            },
            Step::BuildToolsPex { science, update_lock, dest_dir } => StepView::BuildToolsPex {
                science: science@,
                update_lock,
                dest_dir: dest_dir@,
            },
            Step::BuildReferenceBundle { scie_pikesquares } => StepView::BuildReferenceBundle {
                scie_pikesquares: scie_pikesquares@,
            },
            Step::Probe { file, checksum_file } => StepView::Probe {
                file: file@,
                checksum_file: checksum_file@,
            },
            Step::Download { url, checksum_url, timeout_secs } => StepView::Download {
                url: url@,
                checksum_url: checksum_url@,
                timeout_secs,
            },
            Step::Store { file, checksum_file, bytes, checksum } => StepView::Store {
                file: file@,
                checksum_file: checksum_file@,
                bytes: bytes@,
                checksum: checksum@,
            },
            Step::RecreateDirectory { path } => StepView::RecreateDirectory { path: path@ },
            Step::EnsureDirectory { path } => StepView::EnsureDirectory { path: path@ },
            Step::Run(invocation) => StepView::Run(invocation@),
            Step::Style { workspace_root, fix } => StepView::Style {
                workspace_root: workspace_root@,
                fix,
            },
            Step::ReadBundles { ours, reference } => StepView::ReadBundles {
                ours: ours@,
                reference: reference@,
            },
            Step::Warn { message } => StepView::Warn { message: message@ },
            Step::Copy { from, to } => StepView::Copy { from: from@, to: to@ },
        }
    }
}

/// What came of the step that was asked for last.
#[derive(Debug)]
pub enum Event {
    /// Nothing was asked for yet. A part of the pipeline that has not
    /// begun takes any report as its cue, and this one is there to give.
    Begin,
    /// A builder ended; where it exited with zero its product is at
    /// `path`.
    Built { exit: ProcessExit, path: String },
    /// A tool ended.
    Exited(ProcessExit),
    /// A file and its checksum file were read.
    Found { bytes: Vec<u8>, checksum: String },
    /// The file that was looked for is not there.
    Missing,
    /// Two bundles were read.
    Bundles { ours: Vec<u8>, reference: Vec<u8> },
    /// The step was carried out and has nothing to report.
    Completed,
    /// The step could not be carried out.
    Broken { subject: String, detail: String },
}

/// What a [`Event`] holds, as a mathematical value.
pub enum EventView {
    Begin,
    Built { exit: ProcessExitView, path: Seq<char> },
    Exited(ProcessExitView),
    Found { bytes: Seq<u8>, checksum: Seq<char> },
    Missing,
    Bundles { ours: Seq<u8>, reference: Seq<u8> },
    Completed,
    Broken { subject: Seq<char>, detail: Seq<char> },
}

impl View for Event {
    type V = EventView;

    open spec fn view(&self) -> EventView {
        match *self {
            Event::Begin => EventView::Begin,
            Event::Built { exit, path } => EventView::Built { exit: exit@, path: path@ },
            Event::Exited(exit) => EventView::Exited(exit@),
            Event::Found { bytes, checksum } => EventView::Found {
                bytes: bytes@,
                checksum: checksum@,
            },
            Event::Missing => EventView::Missing,
            Event::Bundles { ours, reference } => EventView::Bundles {
                ours: ours@,
                reference: reference@,
            },
            Event::Completed => EventView::Completed,
            Event::Broken { subject, detail } => EventView::Broken {
                subject: subject@,
                detail: detail@,
            },
        }
    }
}

/// How far a part of the pipeline has come: it asks for a step, it has
/// its result, or it has failed.
#[derive(Debug)]
pub enum Progress<T> {
    Next(Step),
    Done(T),
    Failed(Failure),
}

/// What a [`Progress`] holds, as a mathematical value.
pub enum ProgressView<V> {
    Next(StepView),
    Done(V),
    Failed(FailureView),
}

impl<T: DeepView> View for Progress<T> {
    type V = ProgressView<T::V>;

    open spec fn view(&self) -> ProgressView<T::V> {
        match *self {
            Progress::Next(step) => ProgressView::Next(step@),
            Progress::Done(value) => ProgressView::Done(value.deep_view()),
            Progress::Failed(failure) => ProgressView::Failed(failure@),
        }
    }
}

/// Whether a part of the pipeline asks for the native binary to be
/// built.
pub open spec fn asks_for_binary<V>(said: ProgressView<V>) -> bool {
    said matches ProgressView::Next(step) && step is BuildBinary
}

/// Whether a part of the pipeline asks for the dependency bundle to be
/// built.
pub open spec fn asks_for_bundle<V>(said: ProgressView<V>) -> bool {
    said matches ProgressView::Next(step) && step is BuildToolsPex
}

/// The failure that a report stands for where it does not bring what the
/// pending step was to bring: a step that could not be carried out fails
/// with what is reported of it, and a report of another step is a
/// failure of its own.
pub open spec fn interruption(kind: ErrorKind, stage: Stage, event: EventView) -> FailureView {
    match event {
        EventView::Broken { subject, detail } => FailureView { kind, stage, subject, detail },
        _ => FailureView {
            kind,
            stage,
            subject: "report"@,
            detail: "does not answer the step that was asked for"@,
        },
    }
}

/// Turns a report that does not answer the pending step into the failure
/// that ends the run.
pub fn interrupted(kind: ErrorKind, stage: Stage, event: Event) -> (failure: Failure)
    ensures
        failure@ == interruption(kind, stage, event@),
{
    match event {
        Event::Broken { subject, detail } => Failure { kind, stage, subject, detail },
        _ => Failure::new(kind, stage, "report", "does not answer the step that was asked for"),
    }
}

} // verus!
