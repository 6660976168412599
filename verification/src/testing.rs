//! The integration run: the sources are held to the style, the
//! dependency bundle is held against the one that the installed
//! application builds, and the scie is put through its scenarios.
use crate::failure::{ErrorKind, Failure, FailureView, Stage};
use crate::machine::{
    interrupted, interruption, Event, EventView, Progress, ProgressView, Step, StepView,
};
use crate::process::{exit_failure, texts, Invocation, InvocationView, ProcessExit, ProcessExitView};
use crate::text::{contains, occurs_in};
use vstd::prelude::*;

verus! {

/// The two switches of an integration run.
#[derive(Clone, Copy, Debug, PartialEq, Eq, Structural)]
pub struct TestPolicy {
    /// Only check formatting and lints, and fail where they are
    /// violated, in place of correcting the sources.
    pub check: bool,
    /// Only warn where the dependency bundle differs from the one that
    /// the installed application builds, in place of failing.
    pub tools_pex_mismatch_warn: bool,
}

/// The phases of an integration run.
#[derive(Clone, Copy, Debug, PartialEq, Eq, Structural)]
pub enum Phase {
    Build,
    Style,
    Drift,
    Scenario,
}

/// The phase of an integration run that a stage belongs to, where it
/// belongs to one.
pub open spec fn phase_of(stage: Stage) -> Option<Phase> {
    match stage {
        Stage::Fetch | Stage::Binary | Stage::Bundle | Stage::Assemble => Some(Phase::Build),
        Stage::Style => Some(Phase::Style),
        Stage::Drift => Some(Phase::Drift),
        Stage::Scenario => Some(Phase::Scenario),
        Stage::Resolve | Stage::Publish | Stage::Verify => None,
    }
}

impl Stage {
    /// The phase of an integration run that this stage belongs to.
    pub fn phase(self) -> (phase: Option<Phase>)
        ensures
            phase == phase_of(self),
    {
        match self {
            Stage::Fetch | Stage::Binary | Stage::Bundle | Stage::Assemble => Some(Phase::Build),
            Stage::Style => Some(Phase::Style),
            Stage::Drift => Some(Phase::Drift),
            Stage::Scenario => Some(Phase::Scenario),
            Stage::Resolve | Stage::Publish | Stage::Verify => None,
        }
    }
}

/// One invocation of the scie: the arguments it is called with and the
/// text that its output has to hold.
#[derive(Debug)]
pub struct Scenario {
    pub name: String,
    pub args: Vec<String>,
    pub marker: String,
}

/// What a [`Scenario`] holds, as a mathematical value.
pub struct ScenarioView {
    pub name: Seq<char>,
    pub args: Seq<Seq<char>>,
    pub marker: Seq<char>,
}

impl View for Scenario {
    type V = ScenarioView;

    open spec fn view(&self) -> ScenarioView {
        ScenarioView { name: self.name@, args: texts(self.args@), marker: self.marker@ }
    }
}

/// The scenarios of a list.
pub open spec fn scenario_views(scenarios: Seq<Scenario>) -> Seq<ScenarioView> {
    scenarios.map_values(|s: Scenario| s@)
}

/// The scenario that asks the scie for its version and expects the
/// given one.
pub open spec fn version_query(version: Seq<char>) -> ScenarioView {
    ScenarioView { name: "version"@, args: seq!["--version"@], marker: version }
}

/// Whether a scenario went well: the scie exited with zero and its
/// output holds the marker.
pub open spec fn passes(scenario: ScenarioView, exit: ProcessExitView) -> bool {
    exit.code == 0 && occurs_in(exit.stdout, scenario.marker)
}

/// The failure of a scenario that did not go well: a build error with
/// the error stream where the scie did not exit with zero, else a
/// consistency error that names the marker.
pub open spec fn scenario_failure(scenario: ScenarioView, exit: ProcessExitView) -> FailureView {
    if exit.code != 0 {
        FailureView {
            kind: ErrorKind::Build,
            stage: Stage::Scenario,
            subject: scenario.name,
            detail: exit.stderr,
        }
    } else {
        FailureView {
            kind: ErrorKind::Consistency,
            stage: Stage::Scenario,
            subject: scenario.name,
            detail: "the output does not hold "@ + scenario.marker,
        }
    }
}

/// What is said of a dependency bundle that differs from the reference.
pub open spec fn drift_detail() -> Seq<char> {
    "does not match the dependency bundle that the installed application builds"@
}

/// The consistency error for a dependency bundle that differs from the
/// reference.
pub open spec fn drift(tools_pex: Seq<char>) -> FailureView {
    FailureView {
        kind: ErrorKind::Consistency,
        stage: Stage::Drift,
        subject: tools_pex,
        detail: drift_detail(),
    }
}

/// The warning for a dependency bundle that differs from the reference.
pub open spec fn drift_warning(tools_pex: Seq<char>) -> Seq<char> {
    tools_pex + " "@ + drift_detail()
}

/// How far the integration run has come.
#[derive(Debug)]
pub enum TestRun {
    /// Nothing was asked for yet.
    Start,
    /// The style is being checked.
    Style,
    /// The reference bundle is being built.
    Reference,
    /// The two bundles are being read.
    Comparing,
    /// The warning of a drift is being logged.
    Warning,
    /// The scenario at this position is running.
    Scenario(usize),
    /// All phases have passed.
    Success,
    /// A phase has failed.
    Failed(Failure),
}

/// What a [`TestRun`] holds, as a mathematical value.
pub enum TestRunView {
    Start,
    Style,
    Reference,
    Comparing,
    Warning,
    Scenario(usize),
    Success,
    Failed(FailureView),
}

impl View for TestRun {
    type V = TestRunView;

    open spec fn view(&self) -> TestRunView {
        match *self {
            TestRun::Start => TestRunView::Start,
            TestRun::Style => TestRunView::Style,
            TestRun::Reference => TestRunView::Reference,
            TestRun::Comparing => TestRunView::Comparing,
            TestRun::Warning => TestRunView::Warning,
            TestRun::Scenario(at) => TestRunView::Scenario(at),
            TestRun::Success => TestRunView::Success,
            TestRun::Failed(failure) => TestRunView::Failed(failure@),
        }
    }
}

/// What does not change during an integration run.
pub struct TestPlan {
    pub workspace_root: Seq<char>,
    pub tools_pex: Seq<char>,
    pub scie_pikesquares: Seq<char>,
    pub policy: TestPolicy,
    pub scenarios: Seq<ScenarioView>,
}

/// A move: the state that follows, and what is said with it.
pub type TestMove = (TestRunView, ProgressView<()>);

/// The integration run has failed: it holds the failure and says so.
pub open spec fn test_failed(failure: FailureView) -> TestMove {
    (TestRunView::Failed(failure), ProgressView::Failed(failure))
}

/// The scenario at `at` is run next; behind the last one the run has
/// succeeded.
pub open spec fn enter_scenario(plan: TestPlan, at: usize) -> TestMove {
    if at < plan.scenarios.len() {
        (
            TestRunView::Scenario(at),
            ProgressView::Next(
                StepView::Run(
                    InvocationView {
                        program: plan.scie_pikesquares,
                        args: plan.scenarios[at as int].args,
                        current_dir: plan.workspace_root,
                    },
                ),
            ),
        )
    } else {
        (TestRunView::Success, ProgressView::Done(()))
    }
}

/// One move of the integration run.
///
/// The style comes first: the sources are only checked where the
/// policy says so, and corrected in place otherwise; a tool that does
/// not exit with zero ends the run. Then the installed application
/// builds a reference bundle, and the two bundles are compared byte by
/// byte. A difference ends the run with a consistency error, unless the
/// policy asks for a warning only: then the warning is logged and the
/// run goes on. Last the scenarios run in their order, and the first
/// that fails ends the run, so that none after it is started. Once the
/// run has succeeded or failed, it stays so.
pub open spec fn test_step(plan: TestPlan, state: TestRunView, event: EventView) -> TestMove {
    match state {
        TestRunView::Success => (TestRunView::Success, ProgressView::Done(())),
        TestRunView::Failed(failure) => test_failed(failure),
        TestRunView::Start => (
            TestRunView::Style,
            ProgressView::Next(
                StepView::Style { workspace_root: plan.workspace_root, fix: !plan.policy.check },
            ),
        ),
        TestRunView::Style => match event {
            EventView::Exited(exit) => match exit_failure(Stage::Style, "style"@, exit) {
                None => (
                    TestRunView::Reference,
                    ProgressView::Next(
                        StepView::BuildReferenceBundle { scie_pikesquares: plan.scie_pikesquares },
                    ),
                ),
                Some(failure) => test_failed(failure),
            },
            _ => test_failed(interruption(ErrorKind::Build, Stage::Style, event)),
        },
        TestRunView::Reference => match event {
            EventView::Built { exit, path } => match exit_failure(
                Stage::Drift,
                plan.scie_pikesquares,
                exit,
            ) {
                None => (
                    TestRunView::Comparing,
                    ProgressView::Next(
                        StepView::ReadBundles { ours: plan.tools_pex, reference: path },
                    ),
                ),
                Some(failure) => test_failed(failure),
            },
            _ => test_failed(interruption(ErrorKind::Build, Stage::Drift, event)),
        },
        TestRunView::Comparing => match event {
            EventView::Bundles { ours, reference } => if ours == reference {
                enter_scenario(plan, 0)
            } else if plan.policy.tools_pex_mismatch_warn {
                (
                    TestRunView::Warning,
                    ProgressView::Next(StepView::Warn { message: drift_warning(plan.tools_pex) }),
                )
            } else {
                test_failed(drift(plan.tools_pex))
            },
            _ => test_failed(interruption(ErrorKind::Configuration, Stage::Drift, event)),
        },
        TestRunView::Warning => match event {
            EventView::Completed => enter_scenario(plan, 0),
            _ => test_failed(interruption(ErrorKind::Configuration, Stage::Drift, event)),
        },
        TestRunView::Scenario(at) => match event {
            EventView::Exited(exit) => if at < plan.scenarios.len() {
                if passes(plan.scenarios[at as int], exit) {
                    enter_scenario(plan, (at + 1) as usize)
                } else {
                    test_failed(scenario_failure(plan.scenarios[at as int], exit))
                }
            } else {
                test_failed(interruption(ErrorKind::Configuration, Stage::Scenario, event))
            },
            _ => test_failed(interruption(ErrorKind::Build, Stage::Scenario, event)),
        },
    }
}

/// The state of the integration run after a series of reports.
pub open spec fn test_run(plan: TestPlan, state: TestRunView, events: Seq<EventView>)
    -> TestRunView
    decreases events.len(),
{
    if events.len() == 0 {
        state
    } else {
        test_run(plan, test_step(plan, state, events[0]).0, events.skip(1))
    }
}

/// The reports of a series of scenarios.
pub open spec fn exits(exits: Seq<ProcessExitView>) -> Seq<EventView> {
    exits.map_values(|exit: ProcessExitView| EventView::Exited(exit))
}

/// An integration run that has failed stays failed.
pub proof fn lemma_failed_run_stays(plan: TestPlan, failure: FailureView, events: Seq<EventView>)
    ensures
        test_run(plan, TestRunView::Failed(failure), events) == TestRunView::Failed(failure),
    decreases events.len(),
{
    if events.len() > 0 {
        lemma_failed_run_stays(plan, failure, events.skip(1));
    }
}

/// Where every scenario from `at` on goes well, the run succeeds.
pub proof fn lemma_scenarios_pass(plan: TestPlan, at: usize, outcomes: Seq<ProcessExitView>)
    requires
        at <= plan.scenarios.len() <= usize::MAX,
        outcomes.len() == plan.scenarios.len() - at,
        forall|i: int|
            0 <= i < outcomes.len() ==> passes(plan.scenarios[at + i], #[trigger] outcomes[i]),
    ensures
        test_run(plan, enter_scenario(plan, at).0, exits(outcomes)) == TestRunView::Success,
    decreases outcomes.len(),
{
    if outcomes.len() > 0 {
        let next: usize = (at + 1) as usize;
        assert(exits(outcomes)[0] == EventView::Exited(outcomes[0]));
        assert(passes(plan.scenarios[at + 0], outcomes[0]));
        assert(exits(outcomes).skip(1) == exits(outcomes.skip(1)));
        assert forall|i: int| 0 <= i < outcomes.skip(1).len() implies passes(
            plan.scenarios[next + i],
            #[trigger] outcomes.skip(1)[i],
        ) by {
            assert(outcomes.skip(1)[i] == outcomes[i + 1]);
        }
        lemma_scenarios_pass(plan, next, outcomes.skip(1));
    }
}

/// The first scenario that does not go well ends the run: it fails in
/// the scenario phase, and whatever is reported afterwards, no further
/// scenario is started.
pub proof fn failing_scenario_ends_the_run(
    plan: TestPlan,
    at: usize,
    exit: ProcessExitView,
    later: Seq<EventView>,
)
    requires
        at < plan.scenarios.len(),
        !passes(plan.scenarios[at as int], exit),
    ensures
        ({
            let failure = scenario_failure(plan.scenarios[at as int], exit);
            let events = seq![EventView::Exited(exit)] + later;
            &&& phase_of(failure.stage) == Some(Phase::Scenario)
            &&& test_step(plan, TestRunView::Scenario(at), events[0]) == test_failed(failure)
            &&& test_run(plan, TestRunView::Scenario(at), events) == TestRunView::Failed(failure)
        }),
{
    let failure = scenario_failure(plan.scenarios[at as int], exit);
    assert((seq![EventView::Exited(exit)] + later).skip(1) == later);
    lemma_failed_run_stays(plan, failure, later);
}

/// A drift under the strict policy: the bundles differ, and the run
/// fails in the drift phase with a consistency error, whatever is
/// reported afterwards.
pub proof fn drift_fails_when_strict(
    plan: TestPlan,
    ours: Seq<u8>,
    reference: Seq<u8>,
    later: Seq<EventView>,
)
    requires
        ours != reference,
        !plan.policy.tools_pex_mismatch_warn,
    ensures
        ({
            let compared = EventView::Bundles { ours, reference };
            let failure = drift(plan.tools_pex);
            &&& failure.kind == ErrorKind::Consistency
            &&& phase_of(failure.stage) == Some(Phase::Drift)
            &&& test_step(plan, TestRunView::Comparing, compared) == test_failed(failure)
            &&& test_run(plan, TestRunView::Comparing, seq![compared] + later)
                == TestRunView::Failed(failure)
        }),
{
    let compared = EventView::Bundles { ours, reference };
    assert((seq![compared] + later).skip(1) == later);
    lemma_failed_run_stays(plan, drift(plan.tools_pex), later);
}

/// A drift under the warning policy: the bundles differ, a warning is
/// logged, and where every scenario goes well the run succeeds.
pub proof fn drift_warns_when_lenient(
    plan: TestPlan,
    ours: Seq<u8>,
    reference: Seq<u8>,
    outcomes: Seq<ProcessExitView>,
)
    requires
        ours != reference,
        plan.policy.tools_pex_mismatch_warn,
        plan.scenarios.len() <= usize::MAX,
        outcomes.len() == plan.scenarios.len(),
        forall|i: int|
            0 <= i < outcomes.len() ==> passes(plan.scenarios[i], #[trigger] outcomes[i]),
    ensures
        ({
            let compared = EventView::Bundles { ours, reference };
            &&& test_step(plan, TestRunView::Comparing, compared).1 == ProgressView::<()>::Next(
                StepView::Warn { message: drift_warning(plan.tools_pex) },
            )
            &&& test_run(
                plan,
                TestRunView::Comparing,
                seq![compared, EventView::Completed] + exits(outcomes),
            ) == TestRunView::Success
        }),
{
    let compared = EventView::Bundles { ours, reference };
    let events = seq![compared, EventView::Completed] + exits(outcomes);
    assert(events.skip(1) == seq![EventView::Completed] + exits(outcomes));
    assert(events.skip(1).skip(1) == exits(outcomes));
    assert(events.skip(1)[0] == EventView::Completed);
    assert(test_step(plan, TestRunView::Comparing, events[0]).0 == TestRunView::Warning);
    assert(test_step(plan, TestRunView::Warning, events.skip(1)[0]) == enter_scenario(plan, 0));
    assert(test_run(plan, TestRunView::Comparing, events) == test_run(
        plan,
        TestRunView::Warning,
        events.skip(1),
    ));
    assert(test_run(plan, TestRunView::Warning, events.skip(1)) == test_run(
        plan,
        enter_scenario(plan, 0).0,
        exits(outcomes),
    ));
    lemma_scenarios_pass(plan, 0, outcomes);
}

/// Whether two byte strings are the same.
pub fn same_bytes(a: &[u8], b: &[u8]) -> (same: bool)
    ensures
        same == (a@ == b@),
{
    if a.len() != b.len() {
        return false;
    }
    let mut i: usize = 0;
    while i < a.len()
        invariant
            a@.len() == b@.len(),
            i <= a@.len(),
            forall|k: int| 0 <= k < i ==> a@[k] == b@[k],
        decreases a@.len() - i,
    {
        if a[i] != b[i] {
            return false;
        }
        i += 1;
    }
    assert(a@ =~= b@);
    true
}

/// Copies a list of strings.
pub fn copy_texts(strings: &Vec<String>) -> (copy: Vec<String>)
    ensures
        texts(copy@) == texts(strings@),
{
    let mut copy: Vec<String> = Vec::new();
    let mut i: usize = 0;
    while i < strings.len()
        invariant
            i <= strings@.len(),
            copy@.len() == i,
            forall|k: int| 0 <= k < i ==> copy@[k]@ == strings@[k]@,
        decreases strings@.len() - i,
    {
        copy.push(strings[i].clone());
        i += 1;
    }
    assert(texts(copy@) =~= texts(strings@));
    copy
}

impl Scenario {
    /// The scenario that asks the scie for its version and expects
    /// `version`.
    pub fn version_query(version: &str) -> (scenario: Self)
        ensures
            scenario@ == version_query(version@),
    {
        let mut args: Vec<String> = Vec::new();
        args.push(String::from_str("--version"));
        assert(texts(args@) =~= seq!["--version"@]);
        Scenario { name: String::from_str("version"), args, marker: String::from_str(version) }
    }

    /// Judges how this scenario ended.
    pub fn judge(&self, exit: &ProcessExit) -> (outcome: Result<(), Failure>)
        ensures
            outcome.is_ok() == passes(self@, exit@),
            outcome.is_err() ==> outcome.unwrap_err()@ == scenario_failure(self@, exit@),
    {
        if exit.code != 0 {
            Err(
                Failure::new(
                    ErrorKind::Build,
                    Stage::Scenario,
                    self.name.as_str(),
                    exit.stderr.as_str(),
                ),
            )
        } else if contains(exit.stdout.as_str(), self.marker.as_str()) {
            Ok(())
        } else {
            let detail: String = String::from_str("the output does not hold ").concat(
                self.marker.as_str(),
            );
            Err(
                Failure::new(
                    ErrorKind::Consistency,
                    Stage::Scenario,
                    self.name.as_str(),
                    detail.as_str(),
                ),
            )
        }
    }
}

/// The plan of an integration run.
pub open spec fn test_plan(
    workspace_root: &str,
    tools_pex: &str,
    scie_pikesquares: &str,
    check: bool,
    tools_pex_mismatch_warn: bool,
    scenarios: &Vec<Scenario>,
) -> TestPlan {
    TestPlan {
        workspace_root: workspace_root@,
        tools_pex: tools_pex@,
        scie_pikesquares: scie_pikesquares@,
        policy: TestPolicy { check, tools_pex_mismatch_warn },
        scenarios: scenario_views(scenarios@),
    }
}

fn drift_text() -> (text: &'static str)
    ensures
        text@ == drift_detail(),
{
    "does not match the dependency bundle that the installed application builds"
}

fn fail(failure: Failure) -> (moved: (TestRun, Progress<()>))
    ensures
        (moved.0@, moved.1@) == test_failed(failure@),
{
    let copy: Failure = failure.clone();
    (TestRun::Failed(failure), Progress::Failed(copy))
}

fn start_scenario(
    workspace_root: &str,
    scie_pikesquares: &str,
    scenarios: &Vec<Scenario>,
    at: usize,
    Ghost(plan): Ghost<TestPlan>,
) -> (moved: (TestRun, Progress<()>))
    requires
        plan.workspace_root == workspace_root@,
        plan.scie_pikesquares == scie_pikesquares@,
        plan.scenarios == scenario_views(scenarios@),
    ensures
        (moved.0@, moved.1@) == enter_scenario(plan, at),
{
    if at < scenarios.len() {
        let invocation = Invocation {
            program: String::from_str(scie_pikesquares),
            args: copy_texts(&scenarios[at].args),
            current_dir: String::from_str(workspace_root),
        };
        (TestRun::Scenario(at), Progress::Next(Step::Run(invocation)))
    } else {
        (TestRun::Success, Progress::Done(()))
    }
}

/// Moves the integration run on by one report.
pub fn run_integration_tests(
    workspace_root: &str,
    tools_pex: &str,
    scie_pikesquares: &str,
    check: bool,
    tools_pex_mismatch_warn: bool,
    scenarios: &Vec<Scenario>,
    state: TestRun,
    event: Event,
) -> (moved: (TestRun, Progress<()>))
    ensures
        (moved.0@, moved.1@) == test_step(
            test_plan(
                workspace_root,
                tools_pex,
                scie_pikesquares,
                check,
                tools_pex_mismatch_warn,
                scenarios,
            ),
            state@,
            event@,
        ),
{
    let ghost plan = test_plan(
        workspace_root,
        tools_pex,
        scie_pikesquares,
        check,
        tools_pex_mismatch_warn,
        scenarios,
    );
    match state {
        TestRun::Success => (TestRun::Success, Progress::Done(())),
        TestRun::Failed(failure) => fail(failure),
        TestRun::Start => (
            TestRun::Style,
            Progress::Next(
                Step::Style { workspace_root: String::from_str(workspace_root), fix: !check },
            ),
        ),
        TestRun::Style => match event {
            Event::Exited(exit) => match exit.check(Stage::Style, "style") {
                Ok(()) => (
                    TestRun::Reference,
                    Progress::Next(
                        Step::BuildReferenceBundle {
                            scie_pikesquares: String::from_str(scie_pikesquares),
                        },
                    ),
                ),
                Err(failure) => fail(failure),
            },
            other => fail(interrupted(ErrorKind::Build, Stage::Style, other)),
        },
        TestRun::Reference => match event {
            Event::Built { exit, path } => match exit.check(Stage::Drift, scie_pikesquares) {
                Ok(()) => (
                    TestRun::Comparing,
                    Progress::Next(
                        Step::ReadBundles { ours: String::from_str(tools_pex), reference: path },
                    ),
                ),
                Err(failure) => fail(failure),
            },
            other => fail(interrupted(ErrorKind::Build, Stage::Drift, other)),
        },
        TestRun::Comparing => match event {
            Event::Bundles { ours, reference } => {
                if same_bytes(ours.as_slice(), reference.as_slice()) {
                    start_scenario(workspace_root, scie_pikesquares, scenarios, 0, Ghost(plan))
                } else if tools_pex_mismatch_warn {
                    let message: String = String::from_str(tools_pex).concat(" ").concat(
                        drift_text(),
                    );
                    (TestRun::Warning, Progress::Next(Step::Warn { message }))
                } else {
                    fail(
                        Failure::new(ErrorKind::Consistency, Stage::Drift, tools_pex, drift_text()),
                    )
                }
            },
            other => fail(interrupted(ErrorKind::Configuration, Stage::Drift, other)),
        },
        TestRun::Warning => match event {
            Event::Completed => start_scenario(
                workspace_root,
                scie_pikesquares,
                scenarios,
                0,
                Ghost(plan),
            ),
            other => fail(interrupted(ErrorKind::Configuration, Stage::Drift, other)),
        },
        TestRun::Scenario(at) => match event {
            Event::Exited(exit) => {
                if at < scenarios.len() {
                    match scenarios[at].judge(&exit) {
                        Ok(()) => start_scenario(
                            workspace_root,
                            scie_pikesquares,
                            scenarios,
                            at + 1,
                            Ghost(plan),
                        ),
                        Err(failure) => fail(failure),
                    }
                } else {
                    fail(
                        interrupted(ErrorKind::Configuration, Stage::Scenario, Event::Exited(exit)),
                    )
                }
            },
            other => fail(interrupted(ErrorKind::Build, Stage::Scenario, other)),
        },
    }
}

} // verus!
