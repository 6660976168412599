//! The whole run: the command is carried out, and where it gives a scie,
//! the scie and its checksum file are published to the destination and
//! held against each other there.
use crate::checksum::{checksum_file, checksum_path, matches_checksum, mismatch, verify_digest};
use crate::commands::{
    build_plan, build_step, builds_scie, lemma_supplied_binary_step, lemma_supplied_bundle_step,
    maybe_build, nameless, supplied_binary, supplied_bundle, Args, Build, BuildPlan, BuildView,
};
use crate::context::{BuildContext, BuildContextView};
use crate::failure::{ErrorKind, Failure, FailureView, Stage};
use crate::machine::{
    asks_for_binary, asks_for_bundle, interrupted, interruption, Event, EventView, Progress,
    ProgressView, Step, StepView,
};
use crate::paths::{base_name, file_name, is_component, joined};
use crate::scie::{
    lifted, lifted_names, scie_name, SciePikeSquaresBuild, SciePikeSquaresBuildView,
};
use crate::testing::Scenario;
use vstd::prelude::*;

verus! {

/// How far the run has come.
#[derive(Debug)]
pub enum Packaging {
    /// Nothing was asked for yet.
    Start,
    /// The command is being carried out.
    Building(Build),
    /// The destination directory is being made ready for the scie.
    Preparing { scie: SciePikeSquaresBuild },
    /// The scie is being copied to `dest_file`.
    CopyingExe { scie: SciePikeSquaresBuild, dest_file: String },
    /// The checksum file is being copied beside `dest_file`.
    CopyingChecksum { dest_file: String },
    /// The copy at `dest_file` is being read back with its checksum
    /// file.
    Verifying { dest_file: String },
    /// The run is done; where the command gave a scie, this is where it
    /// was published.
    Done(Option<String>),
    /// The run has failed.
    Failed(Failure),
}

/// What a [`Packaging`] holds, as a mathematical value.
pub enum PackagingView {
    Start,
    Building(BuildView),
    Preparing { scie: SciePikeSquaresBuildView },
    CopyingExe { scie: SciePikeSquaresBuildView, dest_file: Seq<char> },
    CopyingChecksum { dest_file: Seq<char> },
    Verifying { dest_file: Seq<char> },
    Done(Option<Seq<char>>),
    Failed(FailureView),
}

impl View for Packaging {
    type V = PackagingView;

    open spec fn view(&self) -> PackagingView {
        match *self {
            Packaging::Start => PackagingView::Start,
            Packaging::Building(build) => PackagingView::Building(build@),
            Packaging::Preparing { scie } => PackagingView::Preparing { scie: scie@ },
            Packaging::CopyingExe { scie, dest_file } => PackagingView::CopyingExe {
                scie: scie@,
                dest_file: dest_file@,
            },
            Packaging::CopyingChecksum { dest_file } => PackagingView::CopyingChecksum {
                dest_file: dest_file@,
            },
            Packaging::Verifying { dest_file } => PackagingView::Verifying {
                dest_file: dest_file@,
            },
            Packaging::Done(published) => PackagingView::Done(published.deep_view()),
            Packaging::Failed(failure) => PackagingView::Failed(failure@),
        }
    }
}

/// What does not change during a run.
pub struct PackagePlan {
    pub build: BuildPlan,
    /// Whether the destination directory that was named is a file.
    pub dest_is_file: bool,
}

/// A move: the state that follows, and what is said with it.
pub type PackageMove = (PackagingView, ProgressView<Option<Seq<char>>>);

/// The run has failed: it holds the failure and says so.
pub open spec fn package_failed(failure: FailureView) -> PackageMove {
    (PackagingView::Failed(failure), ProgressView::Failed(failure))
}

/// The run is done: it holds its result and says so.
pub open spec fn package_done(published: Option<Seq<char>>) -> PackageMove {
    (PackagingView::Done(published), ProgressView::Done(published))
}

/// The error for a destination directory that is a file.
pub open spec fn occupied(dest_dir: Seq<char>) -> FailureView {
    FailureView {
        kind: ErrorKind::Configuration,
        stage: Stage::Resolve,
        subject: dest_dir,
        detail: "is a file. Not overwriting"@,
    }
}

/// The command has moved: its step is passed on and its failure ends
/// the run. A command that is done without a scie ends the run; with a
/// scie, the destination directory is made ready for it.
pub open spec fn after_build(
    plan: PackagePlan,
    moved: (BuildView, ProgressView<Option<SciePikeSquaresBuildView>>),
) -> PackageMove {
    match moved.1 {
        ProgressView::Next(step) => (PackagingView::Building(moved.0), ProgressView::Next(step)),
        ProgressView::Failed(failure) => package_failed(failure),
        ProgressView::Done(None) => package_done(None),
        ProgressView::Done(Some(scie)) => (
            PackagingView::Preparing { scie },
            ProgressView::Next(StepView::EnsureDirectory { path: plan.build.args.dest_dir }),
        ),
    }
}

/// One move of the run.
///
/// A destination that is a file is refused before anything is built.
/// Then the command is carried out. Its scie and the checksum file of
/// the scie are copied into the destination directory under their own
/// file names, and the copy of the scie is read back and held to the
/// copy of the checksum file. The run is done with the published scie
/// only where the digest that is recomputed from the copy is the one
/// that the checksum file records; any other outcome of that comparison
/// is an integrity error. Once the run is done or has failed, it stays
/// so.
pub open spec fn package_step(plan: PackagePlan, state: PackagingView, event: EventView)
    -> PackageMove {
    let dest_dir = plan.build.args.dest_dir;
    match state {
        PackagingView::Done(published) => package_done(published),
        PackagingView::Failed(failure) => package_failed(failure),
        PackagingView::Start => if plan.dest_is_file {
            package_failed(occupied(dest_dir))
        } else {
            after_build(plan, build_step(plan.build, BuildView::Start, EventView::Begin))
        },
        PackagingView::Building(build) => after_build(
            plan,
            build_step(plan.build, build, event),
        ),
        PackagingView::Preparing { scie } => match event {
            EventView::Completed => if file_name(scie.exe).len() > 0 {
                (
                    PackagingView::CopyingExe {
                        scie,
                        dest_file: joined(dest_dir, file_name(scie.exe)),
                    },
                    ProgressView::Next(
                        StepView::Copy {
                            from: scie.exe,
                            to: joined(dest_dir, file_name(scie.exe)),
                        },
                    ),
                )
            } else {
                package_failed(nameless(scie.exe))
            },
            _ => package_failed(interruption(ErrorKind::Configuration, Stage::Publish, event)),
        },
        PackagingView::CopyingExe { scie, dest_file } => match event {
            EventView::Completed => if file_name(scie.sha256).len() > 0 {
                (
                    PackagingView::CopyingChecksum { dest_file },
                    ProgressView::Next(
                        StepView::Copy {
                            from: scie.sha256,
                            to: joined(dest_dir, file_name(scie.sha256)),
                        },
                    ),
                )
            } else {
                package_failed(nameless(scie.sha256))
            },
            _ => package_failed(interruption(ErrorKind::Configuration, Stage::Publish, event)),
        },
        PackagingView::CopyingChecksum { dest_file } => match event {
            EventView::Completed => (
                PackagingView::Verifying { dest_file },
                ProgressView::Next(
                    StepView::Probe { file: dest_file, checksum_file: checksum_path(dest_file) },
                ),
            ),
            _ => package_failed(interruption(ErrorKind::Configuration, Stage::Publish, event)),
        },
        PackagingView::Verifying { dest_file } => match event {
            EventView::Found { bytes, checksum } => if matches_checksum(bytes, checksum) {
                package_done(Some(dest_file))
            } else {
                package_failed(mismatch(Stage::Verify, dest_file, bytes, checksum))
            },
            _ => package_failed(interruption(ErrorKind::Integrity, Stage::Verify, event)),
        },
    }
}

/// The state of the run after a series of reports.
pub open spec fn package_run(plan: PackagePlan, state: PackagingView, events: Seq<EventView>)
    -> PackagingView
    decreases events.len(),
{
    if events.len() == 0 {
        state
    } else {
        package_run(plan, package_step(plan, state, events[0]).0, events.skip(1))
    }
}

/// Whether a report brings the bytes of an artifact together with a
/// checksum file that records their digest.
pub open spec fn brings_match(event: EventView) -> bool {
    event matches EventView::Found { bytes, checksum } && matches_checksum(bytes, checksum)
}

/// A run that is over stays as it is.
pub proof fn lemma_done_run_stays(
    plan: PackagePlan,
    published: Option<Seq<char>>,
    events: Seq<EventView>,
)
    ensures
        package_run(plan, PackagingView::Done(published), events) == PackagingView::Done(
            published,
        ),
    decreases events.len(),
{
    if events.len() > 0 {
        lemma_done_run_stays(plan, published, events.skip(1));
    }
}

/// A run that has failed stays failed.
pub proof fn lemma_failed_package_stays(
    plan: PackagePlan,
    failure: FailureView,
    events: Seq<EventView>,
)
    ensures
        package_run(plan, PackagingView::Failed(failure), events) == PackagingView::Failed(
            failure,
        ),
    decreases events.len(),
{
    if events.len() > 0 {
        lemma_failed_package_stays(plan, failure, events.skip(1));
    }
}

/// The one move that ends a run with a published scie is the one that
/// reads the copy back and finds the recorded digest.
pub proof fn lemma_published_step(plan: PackagePlan, state: PackagingView, event: EventView)
    requires
        !(state is Done),
        package_step(plan, state, event).0 is Done,
    ensures
        package_step(plan, state, event).0 matches PackagingView::Done(Some(dest_file))
            ==> state == (PackagingView::Verifying { dest_file }) && brings_match(event),
{
}

/// Every run that publishes a scie has verified it: under any series
/// of reports, for any platform and any command, a run that ends with a
/// scie at `dest_file` has read that file back with its checksum file
/// and found that the recomputed digest is the recorded one.
pub proof fn published_scie_matches_checksum(
    plan: PackagePlan,
    state: PackagingView,
    events: Seq<EventView>,
    dest_file: Seq<char>,
)
    requires
        !(state is Done),
        package_run(plan, state, events) == PackagingView::Done(Some(dest_file)),
    ensures
        exists|i: int|
            0 <= i < events.len() && #[trigger] package_run(plan, state, events.take(i)) == (
                PackagingView::Verifying { dest_file }
            ) && brings_match(events[i]),
    decreases events.len(),
{
    assert(events.len() > 0);
    let next = package_step(plan, state, events[0]).0;
    let rest = events.skip(1);
    match next {
        PackagingView::Done(published) => {
            lemma_done_run_stays(plan, published, rest);
            lemma_published_step(plan, state, events[0]);
            assert(events.take(0) =~= Seq::<EventView>::empty());
            assert(package_run(plan, state, events.take(0)) == state);
        },
        _ => {
            published_scie_matches_checksum(plan, next, rest, dest_file);
            let i = choose|i: int|
                0 <= i < rest.len() && #[trigger] package_run(plan, next, rest.take(i)) == (
                    PackagingView::Verifying { dest_file }
                ) && brings_match(rest[i]);
            let upto = events.take(i + 1);
            assert(upto[0] == events[0]);
            assert(upto.skip(1) =~= rest.take(i));
            assert(package_run(plan, state, upto) == package_run(plan, next, rest.take(i)));
            assert(events[i + 1] == rest[i]);
        },
    }
}

/// The checksum file that is read back is the one that was copied:
/// where the platform-specific name of the scie is a single path
/// component, the copy of the lifted checksum file lies where the
/// checksum file of the copied scie is looked for, and both carry the
/// name of the scie.
pub proof fn published_checksum_is_the_copy(context: BuildContextView, dest_dir: Seq<char>)
    requires
        is_component(scie_name(context)),
    ensures
        joined(dest_dir, file_name(lifted(context).exe)) == joined(dest_dir, scie_name(context)),
        joined(dest_dir, file_name(lifted(context).sha256)) == checksum_path(
            joined(dest_dir, file_name(lifted(context).exe)),
        ),
{
    lifted_names(context);
    let name = scie_name(context);
    if dest_dir.len() == 0 {
    } else if dest_dir.last() == '/' {
        assert(dest_dir + (name + ".sha256"@) == (dest_dir + name) + ".sha256"@);
    } else {
        assert(dest_dir + seq!['/'] + (name + ".sha256"@) == (dest_dir + seq!['/'] + name)
            + ".sha256"@);
    }
}

/// What the run says, report by report, from `state` on.
pub open spec fn package_trace(plan: PackagePlan, state: PackagingView, events: Seq<EventView>)
    -> Seq<ProgressView<Option<Seq<char>>>>
    decreases events.len(),
{
    if events.len() == 0 {
        Seq::empty()
    } else {
        let moved = package_step(plan, state, events[0]);
        seq![moved.1] + package_trace(plan, moved.0, events.skip(1))
    }
}

/// Whether the command that a run carries out, where it is carrying one
/// out, is a build for a scie.
pub open spec fn packages_scie(state: PackagingView) -> bool {
    state matches PackagingView::Building(build) ==> builds_scie(build)
}

/// A run for a scie stays one, and with a binary supplied it does not
/// ask for the binary to be built.
pub proof fn lemma_packaged_binary_step(plan: PackagePlan, state: PackagingView, event: EventView)
    requires
        supplied_binary(plan.build.args.command) is Some,
        packages_scie(state),
    ensures
        packages_scie(package_step(plan, state, event).0),
        !asks_for_binary(package_step(plan, state, event).1),
{
    match state {
        PackagingView::Start => {
            lemma_supplied_binary_step(plan.build, BuildView::Start, EventView::Begin);
        },
        PackagingView::Building(build) => {
            lemma_supplied_binary_step(plan.build, build, event);
        },
        _ => {},
    }
}

/// A run for a scie stays one, and with a bundle supplied it does not
/// ask for the bundle to be built.
pub proof fn lemma_packaged_bundle_step(plan: PackagePlan, state: PackagingView, event: EventView)
    requires
        supplied_bundle(plan.build.args.command) is Some,
        packages_scie(state),
    ensures
        packages_scie(package_step(plan, state, event).0),
        !asks_for_bundle(package_step(plan, state, event).1),
{
    match state {
        PackagingView::Start => {
            lemma_supplied_bundle_step(plan.build, BuildView::Start, EventView::Begin);
        },
        PackagingView::Building(build) => {
            lemma_supplied_bundle_step(plan.build, build, event);
        },
        _ => {},
    }
}

/// Over a whole run, a supplied native binary means that its builder is
/// not asked for once, whatever is reported.
pub proof fn run_never_builds_supplied_binary(
    plan: PackagePlan,
    state: PackagingView,
    events: Seq<EventView>,
)
    requires
        supplied_binary(plan.build.args.command) is Some,
        packages_scie(state),
    ensures
        forall|i: int|
            0 <= i < package_trace(plan, state, events).len() ==> !asks_for_binary(
                #[trigger] package_trace(plan, state, events)[i],
            ),
    decreases events.len(),
{
    if events.len() > 0 {
        let moved = package_step(plan, state, events[0]);
        let later = package_trace(plan, moved.0, events.skip(1));
        lemma_packaged_binary_step(plan, state, events[0]);
        run_never_builds_supplied_binary(plan, moved.0, events.skip(1));
        assert forall|i: int|
            0 <= i < package_trace(plan, state, events).len() implies !asks_for_binary(
            #[trigger] package_trace(plan, state, events)[i],
        ) by {
            if i > 0 {
                assert(package_trace(plan, state, events)[i] == later[i - 1]);
            }
        }
    }
}

/// Over a whole run, a supplied dependency bundle means that its builder
/// is not asked for once, whatever is reported.
pub proof fn run_never_builds_supplied_bundle(
    plan: PackagePlan,
    state: PackagingView,
    events: Seq<EventView>,
)
    requires
        supplied_bundle(plan.build.args.command) is Some,
        packages_scie(state),
    ensures
        forall|i: int|
            0 <= i < package_trace(plan, state, events).len() ==> !asks_for_bundle(
                #[trigger] package_trace(plan, state, events)[i],
            ),
    decreases events.len(),
{
    if events.len() > 0 {
        let moved = package_step(plan, state, events[0]);
        let later = package_trace(plan, moved.0, events.skip(1));
        lemma_packaged_bundle_step(plan, state, events[0]);
        run_never_builds_supplied_bundle(plan, moved.0, events.skip(1));
        assert forall|i: int|
            0 <= i < package_trace(plan, state, events).len() implies !asks_for_bundle(
            #[trigger] package_trace(plan, state, events)[i],
        ) by {
            if i > 0 {
                assert(package_trace(plan, state, events)[i] == later[i - 1]);
            }
        }
    }
}

/// The plan of a run.
pub open spec fn package_plan(
    args: &Args,
    build_context: &BuildContext,
    scenarios: &Vec<Scenario>,
    dest_is_file: bool,
) -> PackagePlan {
    PackagePlan { build: build_plan(args, build_context, scenarios), dest_is_file }
}

fn fail(failure: Failure) -> (moved: (Packaging, Progress<Option<String>>))
    ensures
        (moved.0@, moved.1@) == package_failed(failure@),
{
    let copy: Failure = failure.clone();
    (Packaging::Failed(failure), Progress::Failed(copy))
}

fn done(published: Option<String>) -> (moved: (Packaging, Progress<Option<String>>))
    ensures
        (moved.0@, moved.1@) == package_done(published.deep_view()),
{
    let copy: Option<String> = match &published {
        Some(path) => Some(path.clone()),
        None => None,
    };
    (Packaging::Done(published), Progress::Done(copy))
}

fn build_moved(
    args: &Args,
    moved: (Build, Progress<Option<SciePikeSquaresBuild>>),
    Ghost(plan): Ghost<PackagePlan>,
) -> (next: (Packaging, Progress<Option<String>>))
    requires
        plan.build.args == args@,
    ensures
        (next.0@, next.1@) == after_build(plan, (moved.0@, moved.1@)),
{
    let (build, progress) = moved;
    match progress {
        Progress::Next(step) => (Packaging::Building(build), Progress::Next(step)),
        Progress::Failed(failure) => fail(failure),
        Progress::Done(None) => done(None),
        Progress::Done(Some(scie)) => (
            Packaging::Preparing { scie },
            Progress::Next(Step::EnsureDirectory { path: args.dest_dir.display() }),
        ),
    }
}

/// Moves the run on by one report. `dest_is_file` says whether the
/// destination directory that was named is a file.
pub fn package(
    args: &Args,
    build_context: &BuildContext,
    scenarios: &Vec<Scenario>,
    dest_is_file: bool,
    state: Packaging,
    event: Event,
) -> (moved: (Packaging, Progress<Option<String>>))
    ensures
        (moved.0@, moved.1@) == package_step(
            package_plan(args, build_context, scenarios, dest_is_file),
            state@,
            event@,
        ),
{
    let ghost plan = package_plan(args, build_context, scenarios, dest_is_file);
    match state {
        Packaging::Done(published) => done(published),
        Packaging::Failed(failure) => fail(failure),
        Packaging::Start => {
            if dest_is_file {
                fail(
                    Failure::new(
                        ErrorKind::Configuration,
                        Stage::Resolve,
                        args.dest_dir.as_str(),
                        "is a file. Not overwriting",
                    ),
                )
            } else {
                let moved = maybe_build(args, build_context, scenarios, Build::Start, Event::Begin);
                build_moved(args, moved, Ghost(plan))
            }
        },
        Packaging::Building(build) => {
            let moved = maybe_build(args, build_context, scenarios, build, event);
            build_moved(args, moved, Ghost(plan))
        },
        Packaging::Preparing { scie } => match event {
            Event::Completed => match base_name(scie.exe.as_str()) {
                Some(name) => {
                    let dest_file: String = args.dest_dir.join(name.as_str());
                    let step = Step::Copy { from: scie.exe.clone(), to: dest_file.clone() };
                    (Packaging::CopyingExe { scie, dest_file }, Progress::Next(step))
                },
                None => fail(
                    Failure::new(
                        ErrorKind::Configuration,
                        Stage::Publish,
                        scie.exe.as_str(),
                        "has no file name",
                    ),
                ),
            },
            other => fail(interrupted(ErrorKind::Configuration, Stage::Publish, other)),
        },
        Packaging::CopyingExe { scie, dest_file } => match event {
            Event::Completed => match base_name(scie.sha256.as_str()) {
                Some(name) => {
                    let to: String = args.dest_dir.join(name.as_str());
                    (
                        Packaging::CopyingChecksum { dest_file },
                        Progress::Next(Step::Copy { from: scie.sha256, to }),
                    )
                },
                None => fail(
                    Failure::new(
                        ErrorKind::Configuration,
                        Stage::Publish,
                        scie.sha256.as_str(),
                        "has no file name",
                    ),
                ),
            },
            other => fail(interrupted(ErrorKind::Configuration, Stage::Publish, other)),
        },
        Packaging::CopyingChecksum { dest_file } => match event {
            Event::Completed => {
                let step = Step::Probe {
                    file: dest_file.clone(),
                    checksum_file: checksum_file(dest_file.as_str()),
                };
                (Packaging::Verifying { dest_file }, Progress::Next(step))
            },
            other => fail(interrupted(ErrorKind::Configuration, Stage::Publish, other)),
        },
        Packaging::Verifying { dest_file } => match event {
            Event::Found { bytes, checksum } => match verify_digest(
                Stage::Verify,
                dest_file.as_str(),
                bytes.as_slice(),
                checksum.as_str(),
            ) {
                Ok(()) => done(Some(dest_file)),
                Err(failure) => fail(failure),
            },
            other => fail(interrupted(ErrorKind::Integrity, Stage::Verify, other)),
        },
    }
}

} // verus!
