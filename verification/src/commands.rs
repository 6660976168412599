//! The commands of the packaging program and what each of them builds.
use crate::components::{
    components_step, maybe_build_components, BuiltComponents, BuiltComponentsView, Components,
    ComponentsPlan, ComponentsView, lemma_binary_override_step, lemma_bundle_override_step,
};
use crate::context::{BuildContext, BuildContextView};
use crate::failure::{ErrorKind, Failure, FailureView, Stage};
use crate::machine::{
    asks_for_binary, asks_for_bundle, interrupted, interruption, Event, EventView, Progress,
    ProgressView, Step, StepView,
};
use crate::paths::{base_name, file_name, joined, SpecifiedPath};
use crate::process::exit_failure;
use crate::scie::{SciePikeSquaresBuild, SciePikeSquaresBuildView};
use crate::science::{fetch_science, fetch_step, Fetch, FetchView, Science, ScienceView};
use crate::testing::{
    run_integration_tests, scenario_views, test_step, Scenario, ScenarioView, TestPlan, TestPolicy,
    TestRun, TestRunView,
};
use vstd::prelude::*;

verus! {

/// What to build.
#[derive(Debug)]
pub enum Command {
    /// Builds the `tools.pex` that the scie uses to perform installs.
    Tools,
    /// Builds the `scie-pikesquares` native binary.
    SciePikeSquares,
    /// Builds the `scie-pikesquares` scie.
    Scie {
        /// A pre-built native binary to use in place of a fresh build.
        scie_pikesquares: Option<String>,
        /// A pre-built `tools.pex` to use in place of a fresh build.
        tools_pex: Option<String>,
    },
    /// Builds the `scie-pikesquares` scie and runs it through the
    /// integration tests.
    Test {
        /// A pre-built `tools.pex` to use in place of a fresh build.
        tools_pex: Option<String>,
        /// A pre-built native binary to use in place of a fresh build.
        scie_pikesquares: Option<String>,
        /// Only check formatting and lints.
        check: bool,
        /// Only warn where the `tools.pex` differs from the reference.
        tools_pex_mismatch_warn: bool,
    },
}

/// What a [`Command`] holds, as a mathematical value.
pub enum CommandView {
    Tools,
    SciePikeSquares,
    Scie { scie_pikesquares: Option<Seq<char>>, tools_pex: Option<Seq<char>> },
    Test {
        tools_pex: Option<Seq<char>>,
        scie_pikesquares: Option<Seq<char>>,
        check: bool,
        tools_pex_mismatch_warn: bool,
    },
}

impl View for Command {
    type V = CommandView;

    open spec fn view(&self) -> CommandView {
        match *self {
            Command::Tools => CommandView::Tools,
            Command::SciePikeSquares => CommandView::SciePikeSquares,
            Command::Scie { scie_pikesquares, tools_pex } => CommandView::Scie {
                scie_pikesquares: scie_pikesquares.deep_view(),
                tools_pex: tools_pex.deep_view(),
            },
            Command::Test {
                tools_pex,
                scie_pikesquares,
                check,
                tools_pex_mismatch_warn,
            } => CommandView::Test {
                tools_pex: tools_pex.deep_view(),
                scie_pikesquares: scie_pikesquares.deep_view(),
                check,
                tools_pex_mismatch_warn,
            },
        }
    }
}

/// The arguments of the packaging program.
#[derive(Debug)]
pub struct Args {
    /// Overrides the target of this platform.
    pub target: Option<String>,
    /// A source directory of the packaging tool, to build the tool from
    /// in place of using the pinned release.
    pub science: Option<String>,
    /// Refresh the tools lock before building the `tools.pex`.
    pub update_lock: bool,
    /// The destination directory for the chosen binary and its checksum
    /// file.
    pub dest_dir: SpecifiedPath,
    pub command: Command,
}

/// What a [`Args`] holds, as a mathematical value.
pub struct ArgsView {
    pub target: Option<Seq<char>>,
    pub science: Option<Seq<char>>,
    pub update_lock: bool,
    pub dest_dir: Seq<char>,
    pub command: CommandView,
}

impl View for Args {
    type V = ArgsView;

    open spec fn view(&self) -> ArgsView {
        ArgsView {
            target: self.target.deep_view(),
            science: self.science.deep_view(),
            update_lock: self.update_lock,
            dest_dir: self.dest_dir@,
            command: self.command@,
        }
    }
}

/// The native binary that a command supplies.
pub open spec fn supplied_binary(command: CommandView) -> Option<Seq<char>> {
    match command {
        CommandView::Scie { scie_pikesquares, .. } => scie_pikesquares,
        CommandView::Test { scie_pikesquares, .. } => scie_pikesquares,
        _ => None,
    }
}

/// The dependency bundle that a command supplies.
pub open spec fn supplied_bundle(command: CommandView) -> Option<Seq<char>> {
    match command {
        CommandView::Scie { tools_pex, .. } => tools_pex,
        CommandView::Test { tools_pex, .. } => tools_pex,
        _ => None,
    }
}

/// The policy under which a command runs the integration tests, where
/// it runs them.
pub open spec fn test_policy(command: CommandView) -> Option<TestPolicy> {
    match command {
        CommandView::Test { check, tools_pex_mismatch_warn, .. } => Some(
            TestPolicy { check, tools_pex_mismatch_warn },
        ),
        _ => None,
    }
}

/// What does not change during a build.
pub struct BuildPlan {
    pub args: ArgsView,
    pub context: BuildContextView,
    pub scenarios: Seq<ScenarioView>,
}

/// The plan by which a build resolves the components of the scie.
pub open spec fn components_plan(plan: BuildPlan) -> ComponentsPlan {
    ComponentsPlan {
        context: plan.context,
        scie_pikesquares_exe: supplied_binary(plan.args.command),
        tools_pex_file: supplied_bundle(plan.args.command),
        update_lock: plan.args.update_lock,
        dest_dir: plan.args.dest_dir,
    }
}

/// The plan by which a build tests what it has built.
pub open spec fn tests_plan(plan: BuildPlan, policy: TestPolicy, built: BuiltComponentsView)
    -> TestPlan {
    TestPlan {
        workspace_root: plan.context.workspace_root,
        tools_pex: built.tools_pex_file,
        scie_pikesquares: built.scie.exe,
        policy,
        scenarios: plan.scenarios,
    }
}

/// How far a build has come.
#[derive(Debug)]
pub enum Build {
    /// Nothing was asked for yet.
    Start,
    /// The components of the scie are being resolved.
    Components(Components),
    /// The scie is built and is being tested.
    Testing { built: BuiltComponents, policy: TestPolicy, run: TestRun },
    /// The native binary is being built for its own sake.
    Binary,
    /// The native binary is being copied to the destination.
    Copying,
    /// The packaging tool is being fetched for the dependency bundle.
    Science(Fetch),
    /// The dependency bundle is being built for its own sake.
    Tools,
    /// The build is done; there is a scie where the command asked for
    /// one.
    Done(Option<SciePikeSquaresBuild>),
    /// The build has failed.
    Failed(Failure),
}

/// What a [`Build`] holds, as a mathematical value.
pub enum BuildView {
    Start,
    Components(ComponentsView),
    Testing { built: BuiltComponentsView, policy: TestPolicy, run: TestRunView },
    Binary,
    Copying,
    Science(FetchView),
    Tools,
    Done(Option<SciePikeSquaresBuildView>),
    Failed(FailureView),
}

impl View for Build {
    type V = BuildView;

    open spec fn view(&self) -> BuildView {
        match *self {
            Build::Start => BuildView::Start,
            Build::Components(components) => BuildView::Components(components@),
            Build::Testing { built, policy, run } => BuildView::Testing {
                built: built@,
                policy,
                run: run@,
            },
            Build::Binary => BuildView::Binary,
            Build::Copying => BuildView::Copying,
            Build::Science(fetch) => BuildView::Science(fetch@),
            Build::Tools => BuildView::Tools,
            Build::Done(scie) => BuildView::Done(scie.deep_view()),
            Build::Failed(failure) => BuildView::Failed(failure@),
        }
    }
}

/// A move: the state that follows, and what is said with it.
pub type BuildMove = (BuildView, ProgressView<Option<SciePikeSquaresBuildView>>);

/// The build has failed: it holds the failure and says so.
pub open spec fn build_failed(failure: FailureView) -> BuildMove {
    (BuildView::Failed(failure), ProgressView::Failed(failure))
}

/// The build is done: it holds its result and says so.
pub open spec fn build_done(scie: Option<SciePikeSquaresBuildView>) -> BuildMove {
    (BuildView::Done(scie), ProgressView::Done(scie))
}

/// The error for a product whose path names no file.
pub open spec fn nameless(path: Seq<char>) -> FailureView {
    FailureView {
        kind: ErrorKind::Configuration,
        stage: Stage::Publish,
        subject: path,
        detail: "has no file name"@,
    }
}

/// The integration run has moved: its step is passed on, its failure
/// ends the build, and its success ends it with the scie.
pub open spec fn after_tests(
    built: BuiltComponentsView,
    policy: TestPolicy,
    moved: (TestRunView, ProgressView<()>),
) -> BuildMove {
    match moved.1 {
        ProgressView::Next(step) => (
            BuildView::Testing { built, policy, run: moved.0 },
            ProgressView::Next(step),
        ),
        ProgressView::Failed(failure) => build_failed(failure),
        ProgressView::Done(_) => build_done(Some(built.scie)),
    }
}

/// The components have moved: their step is passed on and their failure
/// ends the build. Once the scie is there, the command that tests it
/// begins the integration run, and any other is done.
pub open spec fn after_components(
    plan: BuildPlan,
    moved: (ComponentsView, ProgressView<BuiltComponentsView>),
) -> BuildMove {
    match moved.1 {
        ProgressView::Next(step) => (BuildView::Components(moved.0), ProgressView::Next(step)),
        ProgressView::Failed(failure) => build_failed(failure),
        ProgressView::Done(built) => match test_policy(plan.args.command) {
            Some(policy) => after_tests(
                built,
                policy,
                test_step(tests_plan(plan, policy, built), TestRunView::Start, EventView::Begin),
            ),
            None => build_done(Some(built.scie)),
        },
    }
}

/// The fetcher has moved on behalf of the dependency bundle: its step is
/// passed on, its failure ends the build, and with the tool in hand the
/// bundle is built.
pub open spec fn after_tool(plan: BuildPlan, moved: (FetchView, ProgressView<ScienceView>))
    -> BuildMove {
    match moved.1 {
        ProgressView::Next(step) => (BuildView::Science(moved.0), ProgressView::Next(step)),
        ProgressView::Failed(failure) => build_failed(failure),
        ProgressView::Done(science) => (
            BuildView::Tools,
            ProgressView::Next(
                StepView::BuildToolsPex {
                    science,
                    update_lock: plan.args.update_lock,
                    dest_dir: plan.args.dest_dir,
                },
            ),
        ),
    }
}

/// One move of a build.
///
/// The command for the scie resolves its components and is done with
/// the scie. The command for the tests does the same and then puts the
/// scie through the integration run. The command for the native binary
/// builds it and copies it to the destination under its own file name.
/// The command for the dependency bundle fetches the packaging tool and
/// builds the bundle. The last two are done without a scie. Whatever
/// fails ends the build, and once a build is done or has failed, it
/// stays so.
pub open spec fn build_step(plan: BuildPlan, state: BuildView, event: EventView) -> BuildMove {
    match state {
        BuildView::Done(scie) => build_done(scie),
        BuildView::Failed(failure) => build_failed(failure),
        BuildView::Start => match plan.args.command {
            CommandView::Tools => after_tool(
                plan,
                fetch_step(plan.context, FetchView::Start, EventView::Begin),
            ),
            CommandView::SciePikeSquares => (
                BuildView::Binary,
                ProgressView::Next(StepView::BuildBinary { target: plan.context.target }),
            ),
            _ => after_components(
                plan,
                components_step(components_plan(plan), ComponentsView::Start, EventView::Begin),
            ),
        },
        BuildView::Components(components) => after_components(
            plan,
            components_step(components_plan(plan), components, event),
        ),
        BuildView::Testing { built, policy, run } => after_tests(
            built,
            policy,
            test_step(tests_plan(plan, policy, built), run, event),
        ),
        BuildView::Binary => match event {
            EventView::Built { exit, path } => match exit_failure(
                Stage::Binary,
                plan.context.binary,
                exit,
            ) {
                None => if file_name(path).len() > 0 {
                    (
                        BuildView::Copying,
                        ProgressView::Next(
                            StepView::Copy {
                                from: path,
                                to: joined(plan.args.dest_dir, file_name(path)),
                            },
                        ),
                    )
                } else {
                    build_failed(nameless(path))
                },
                Some(failure) => build_failed(failure),
            },
            _ => build_failed(interruption(ErrorKind::Build, Stage::Binary, event)),
        },
        BuildView::Copying => match event {
            EventView::Completed => build_done(None),
            _ => build_failed(interruption(ErrorKind::Configuration, Stage::Publish, event)),
        },
        BuildView::Science(fetch) => after_tool(plan, fetch_step(plan.context, fetch, event)),
        BuildView::Tools => match event {
            EventView::Built { exit, path } => match exit_failure(
                Stage::Bundle,
                "tools.pex"@,
                exit,
            ) {
                None => build_done(None),
                Some(failure) => build_failed(failure),
            },
            _ => build_failed(interruption(ErrorKind::Build, Stage::Bundle, event)),
        },
    }
}

/// What a build says, report by report, from `state` on.
pub open spec fn build_trace(plan: BuildPlan, state: BuildView, events: Seq<EventView>) -> Seq<
    ProgressView<Option<SciePikeSquaresBuildView>>,
>
    decreases events.len(),
{
    if events.len() == 0 {
        Seq::empty()
    } else {
        let moved = build_step(plan, state, events[0]);
        seq![moved.1] + build_trace(plan, moved.0, events.skip(1))
    }
}

/// Whether a build is for a scie: it has not begun, or it is resolving
/// or testing the components, or it has ended.
pub open spec fn builds_scie(state: BuildView) -> bool {
    state is Start || state is Components || state is Testing || state is Done || state is Failed
}

/// A build for a scie stays one, and with a binary supplied it does not
/// ask for the binary to be built.
pub proof fn lemma_supplied_binary_step(plan: BuildPlan, state: BuildView, event: EventView)
    requires
        supplied_binary(plan.args.command) is Some,
        builds_scie(state),
    ensures
        builds_scie(build_step(plan, state, event).0),
        !asks_for_binary(build_step(plan, state, event).1),
{
    match state {
        BuildView::Start => {
            lemma_binary_override_step(
                components_plan(plan),
                ComponentsView::Start,
                EventView::Begin,
            );
        },
        BuildView::Components(components) => {
            lemma_binary_override_step(components_plan(plan), components, event);
        },
        _ => {},
    }
}

/// A build for a scie stays one, and with a bundle supplied it does not
/// ask for the bundle to be built.
pub proof fn lemma_supplied_bundle_step(plan: BuildPlan, state: BuildView, event: EventView)
    requires
        supplied_bundle(plan.args.command) is Some,
        builds_scie(state),
    ensures
        builds_scie(build_step(plan, state, event).0),
        !asks_for_bundle(build_step(plan, state, event).1),
{
    match state {
        BuildView::Start => {
            lemma_bundle_override_step(
                components_plan(plan),
                ComponentsView::Start,
                EventView::Begin,
            );
        },
        BuildView::Components(components) => {
            lemma_bundle_override_step(components_plan(plan), components, event);
        },
        _ => {},
    }
}

/// A command that supplies the native binary never has it built: under
/// any series of reports, a build for a scie does not ask for the
/// builder of the binary.
pub proof fn supplied_binary_is_never_built(
    plan: BuildPlan,
    state: BuildView,
    events: Seq<EventView>,
)
    requires
        supplied_binary(plan.args.command) is Some,
        builds_scie(state),
    ensures
        forall|i: int|
            0 <= i < build_trace(plan, state, events).len() ==> !asks_for_binary(
                #[trigger] build_trace(plan, state, events)[i],
            ),
    decreases events.len(),
{
    if events.len() > 0 {
        let moved = build_step(plan, state, events[0]);
        let later = build_trace(plan, moved.0, events.skip(1));
        lemma_supplied_binary_step(plan, state, events[0]);
        supplied_binary_is_never_built(plan, moved.0, events.skip(1));
        let said = build_trace(plan, state, events);
        assert forall|i: int| 0 <= i < said.len() implies !asks_for_binary(#[trigger] said[i]) by {
            if i > 0 {
                assert(said[i] == later[i - 1]);
            }
        }
    }
}

/// A command that supplies the dependency bundle never has it built:
/// under any series of reports, a build for a scie does not ask for the
/// bundle builder.
pub proof fn supplied_bundle_is_never_built(
    plan: BuildPlan,
    state: BuildView,
    events: Seq<EventView>,
)
    requires
        supplied_bundle(plan.args.command) is Some,
        builds_scie(state),
    ensures
        forall|i: int|
            0 <= i < build_trace(plan, state, events).len() ==> !asks_for_bundle(
                #[trigger] build_trace(plan, state, events)[i],
            ),
    decreases events.len(),
{
    if events.len() > 0 {
        let moved = build_step(plan, state, events[0]);
        let later = build_trace(plan, moved.0, events.skip(1));
        lemma_supplied_bundle_step(plan, state, events[0]);
        supplied_bundle_is_never_built(plan, moved.0, events.skip(1));
        let said = build_trace(plan, state, events);
        assert forall|i: int| 0 <= i < said.len() implies !asks_for_bundle(#[trigger] said[i]) by {
            if i > 0 {
                assert(said[i] == later[i - 1]);
            }
        }
    }
}

/// The plan of a build.
pub open spec fn build_plan(
    args: &Args,
    build_context: &BuildContext,
    scenarios: &Vec<Scenario>,
) -> BuildPlan {
    BuildPlan { args: args@, context: build_context@, scenarios: scenario_views(scenarios@) }
}

fn copy_path(path: &Option<String>) -> (copy: Option<String>)
    ensures
        copy.deep_view() == path.deep_view(),
{
    match path {
        Some(path) => Some(path.clone()),
        None => None,
    }
}

impl Command {
    /// The native binary that this command supplies.
    pub fn supplied_binary(&self) -> (path: Option<String>)
        ensures
            path.deep_view() == supplied_binary(self@),
    {
        match self {
            Command::Scie { scie_pikesquares, .. } => copy_path(scie_pikesquares),
            Command::Test { scie_pikesquares, .. } => copy_path(scie_pikesquares),
            _ => None,
        }
    }

    /// The dependency bundle that this command supplies.
    pub fn supplied_bundle(&self) -> (path: Option<String>)
        ensures
            path.deep_view() == supplied_bundle(self@),
    {
        match self {
            Command::Scie { tools_pex, .. } => copy_path(tools_pex),
            Command::Test { tools_pex, .. } => copy_path(tools_pex),
            _ => None,
        }
    }

    /// The policy under which this command runs the integration tests.
    pub fn test_policy(&self) -> (policy: Option<TestPolicy>)
        ensures
            policy == test_policy(self@),
    {
        match self {
            Command::Test { check, tools_pex_mismatch_warn, .. } => Some(
                TestPolicy { check: *check, tools_pex_mismatch_warn: *tools_pex_mismatch_warn },
            ),
            _ => None,
        }
    }
}

fn fail(failure: Failure) -> (moved: (Build, Progress<Option<SciePikeSquaresBuild>>))
    ensures
        (moved.0@, moved.1@) == build_failed(failure@),
{
    let copy: Failure = failure.clone();
    (Build::Failed(failure), Progress::Failed(copy))
}

fn done(scie: Option<SciePikeSquaresBuild>) -> (moved: (
    Build,
    Progress<Option<SciePikeSquaresBuild>>,
))
    ensures
        (moved.0@, moved.1@) == build_done(scie.deep_view()),
{
    let copy: Option<SciePikeSquaresBuild> = match &scie {
        Some(scie) => Some(scie.clone()),
        None => None,
    };
    (Build::Done(scie), Progress::Done(copy))
}

fn tests_moved(built: BuiltComponents, policy: TestPolicy, moved: (TestRun, Progress<()>)) -> (next:
    (Build, Progress<Option<SciePikeSquaresBuild>>))
    ensures
        (next.0@, next.1@) == after_tests(built@, policy, (moved.0@, moved.1@)),
{
    let (run, progress) = moved;
    match progress {
        Progress::Next(step) => (Build::Testing { built, policy, run }, Progress::Next(step)),
        Progress::Failed(failure) => fail(failure),
        Progress::Done(_) => done(Some(built.scie)),
    }
}

fn test(
    build_context: &BuildContext,
    scenarios: &Vec<Scenario>,
    built: BuiltComponents,
    policy: TestPolicy,
    run: TestRun,
    event: Event,
    Ghost(plan): Ghost<BuildPlan>,
) -> (next: (Build, Progress<Option<SciePikeSquaresBuild>>))
    requires
        plan.context == build_context@,
        plan.scenarios == scenario_views(scenarios@),
    ensures
        (next.0@, next.1@) == after_tests(
            built@,
            policy,
            test_step(tests_plan(plan, policy, built@), run@, event@),
        ),
{
    let moved = run_integration_tests(
        build_context.workspace_root.as_str(),
        built.tools_pex_file.as_str(),
        built.scie.exe.as_str(),
        policy.check,
        policy.tools_pex_mismatch_warn,
        scenarios,
        run,
        event,
    );
    tests_moved(built, policy, moved)
}

fn components_moved(
    args: &Args,
    build_context: &BuildContext,
    scenarios: &Vec<Scenario>,
    moved: (Components, Progress<BuiltComponents>),
) -> (next: (Build, Progress<Option<SciePikeSquaresBuild>>))
    ensures
        (next.0@, next.1@) == after_components(
            build_plan(args, build_context, scenarios),
            (moved.0@, moved.1@),
        ),
{
    let (components, progress) = moved;
    match progress {
        Progress::Next(step) => (Build::Components(components), Progress::Next(step)),
        Progress::Failed(failure) => fail(failure),
        Progress::Done(built) => match args.command.test_policy() {
            Some(policy) => test(
                build_context,
                scenarios,
                built,
                policy,
                TestRun::Start,
                Event::Begin,
                Ghost(build_plan(args, build_context, scenarios)),
            ),
            None => done(Some(built.scie)),
        },
    }
}

fn resolve(
    args: &Args,
    build_context: &BuildContext,
    scenarios: &Vec<Scenario>,
    components: Components,
    event: Event,
) -> (next: (Build, Progress<Option<SciePikeSquaresBuild>>))
    ensures
        (next.0@, next.1@) == after_components(
            build_plan(args, build_context, scenarios),
            components_step(
                components_plan(build_plan(args, build_context, scenarios)),
                components@,
                event@,
            ),
        ),
{
    let scie_pikesquares: Option<String> = args.command.supplied_binary();
    let tools_pex: Option<String> = args.command.supplied_bundle();
    let moved = maybe_build_components(
        build_context,
        &scie_pikesquares,
        &tools_pex,
        args.update_lock,
        args.dest_dir.as_str(),
        components,
        event,
    );
    components_moved(args, build_context, scenarios, moved)
}

fn tool_moved(
    args: &Args,
    moved: (Fetch, Progress<Science>),
    Ghost(plan): Ghost<BuildPlan>,
) -> (next: (Build, Progress<Option<SciePikeSquaresBuild>>))
    requires
        plan.args == args@,
    ensures
        (next.0@, next.1@) == after_tool(plan, (moved.0@, moved.1@)),
{
    let (fetch, progress) = moved;
    match progress {
        Progress::Next(step) => (Build::Science(fetch), Progress::Next(step)),
        Progress::Failed(failure) => fail(failure),
        Progress::Done(science) => (
            Build::Tools,
            Progress::Next(
                Step::BuildToolsPex {
                    science,
                    update_lock: args.update_lock,
                    dest_dir: args.dest_dir.display(),
                },
            ),
        ),
    }
}

/// Moves a build on by one report.
pub fn maybe_build(
    args: &Args,
    build_context: &BuildContext,
    scenarios: &Vec<Scenario>,
    state: Build,
    event: Event,
) -> (moved: (Build, Progress<Option<SciePikeSquaresBuild>>))
    ensures
        (moved.0@, moved.1@) == build_step(
            build_plan(args, build_context, scenarios),
            state@,
            event@,
        ),
{
    let ghost plan = build_plan(args, build_context, scenarios);
    match state {
        Build::Done(scie) => done(scie),
        Build::Failed(failure) => fail(failure),
        Build::Start => match &args.command {
            Command::Tools => {
                let moved = fetch_science(build_context, Fetch::Start, Event::Begin);
                tool_moved(args, moved, Ghost(plan))
            },
            Command::SciePikeSquares => (
                Build::Binary,
                Progress::Next(Step::BuildBinary { target: build_context.target.clone() }),
            ),
            _ => resolve(args, build_context, scenarios, Components::Start, Event::Begin),
        },
        Build::Components(components) => resolve(
            args,
            build_context,
            scenarios,
            components,
            event,
        ),
        Build::Testing { built, policy, run } => test(
            build_context,
            scenarios,
            built,
            policy,
            run,
            event,
            Ghost(plan),
        ),
        Build::Binary => match event {
            Event::Built { exit, path } => match exit.check(
                Stage::Binary,
                build_context.binary.as_str(),
            ) {
                Ok(()) => match base_name(path.as_str()) {
                    Some(name) => {
                        let to: String = args.dest_dir.join(name.as_str());
                        (Build::Copying, Progress::Next(Step::Copy { from: path, to }))
                    },
                    None => fail(
                        Failure::new(
                            ErrorKind::Configuration,
                            Stage::Publish,
                            path.as_str(),
                            "has no file name",
                        ),
                    ),
                },
                Err(failure) => fail(failure),
            },
            other => fail(interrupted(ErrorKind::Build, Stage::Binary, other)),
        },
        Build::Copying => match event {
            Event::Completed => done(None),
            other => fail(interrupted(ErrorKind::Configuration, Stage::Publish, other)),
        },
        Build::Science(fetch) => {
            let moved = fetch_science(build_context, fetch, event);
            tool_moved(args, moved, Ghost(plan))
        },
        Build::Tools => match event {
            Event::Built { exit, path } => match exit.check(Stage::Bundle, "tools.pex") {
                Ok(()) => done(None),
                Err(failure) => fail(failure),
            },
            other => fail(interrupted(ErrorKind::Build, Stage::Bundle, other)),
        },
    }
}

} // verus!
