//! The parts of the scie, resolved in order: the native binary, the
//! packaging tool, the dependency bundle, and from them the scie.
use crate::context::{BuildContext, BuildContextView};
use crate::failure::{ErrorKind, Failure, FailureView, Stage};
use crate::machine::{
    asks_for_binary, asks_for_bundle, interrupted, interruption, Event, EventView, Progress,
    ProgressView, Step, StepView,
};
use crate::process::exit_failure;
use crate::scie::{
    assembly_step, build_scie_pikesquares_scie, Assembly, AssemblyView, SciePikeSquaresBuild,
    SciePikeSquaresBuildView,
};
use crate::science::{fetch_science, fetch_step, Fetch, FetchView, Science, ScienceView};
use vstd::prelude::*;

verus! {

/// The scie together with the dependency bundle that went into it.
#[derive(Debug)]
pub struct BuiltComponents {
    pub scie: SciePikeSquaresBuild,
    pub tools_pex_file: String,
}

/// What a [`BuiltComponents`] holds, as a mathematical value.
pub struct BuiltComponentsView {
    pub scie: SciePikeSquaresBuildView,
    pub tools_pex_file: Seq<char>,
}

impl View for BuiltComponents {
    type V = BuiltComponentsView;

    open spec fn view(&self) -> BuiltComponentsView {
        BuiltComponentsView { scie: self.scie@, tools_pex_file: self.tools_pex_file@ }
    }
}

impl DeepView for BuiltComponents {
    type V = BuiltComponentsView;

    open spec fn deep_view(&self) -> BuiltComponentsView {
        self@
    }
}

impl Clone for BuiltComponents {
    fn clone(&self) -> (copy: Self)
        ensures
            copy@ == self@,
    {
        BuiltComponents { scie: self.scie.clone(), tools_pex_file: self.tools_pex_file.clone() }
    }
}

/// How far the components have come.
#[derive(Debug)]
pub enum Components {
    /// Nothing was asked for yet.
    Start,
    /// The native binary is being built.
    Binary,
    /// The binary is at `exe`; the packaging tool is being fetched.
    Science { exe: String, fetch: Fetch },
    /// The dependency bundle is being built.
    Tools { exe: String, science: Science },
    /// The bundle is at `tools`; the scie is being assembled.
    Assembly { exe: String, science: Science, tools: String, assembly: Assembly },
    /// The scie is there.
    Done(BuiltComponents),
    /// A stage has failed.
    Failed(Failure),
}

/// What a [`Components`] holds, as a mathematical value.
pub enum ComponentsView {
    Start,
    Binary,
    Science { exe: Seq<char>, fetch: FetchView },
    Tools { exe: Seq<char>, science: ScienceView },
    Assembly { exe: Seq<char>, science: ScienceView, tools: Seq<char>, assembly: AssemblyView },
    Done(BuiltComponentsView),
    Failed(FailureView),
}

impl View for Components {
    type V = ComponentsView;

    open spec fn view(&self) -> ComponentsView {
        match *self {
            Components::Start => ComponentsView::Start,
            Components::Binary => ComponentsView::Binary,
            Components::Science { exe, fetch } => ComponentsView::Science {
                exe: exe@,
                fetch: fetch@,
            },
            Components::Tools { exe, science } => ComponentsView::Tools {
                exe: exe@,
                science: science@,
            },
            Components::Assembly { exe, science, tools, assembly } => ComponentsView::Assembly {
                exe: exe@,
                science: science@,
                tools: tools@,
                assembly: assembly@,
            },
            Components::Done(built) => ComponentsView::Done(built@),
            Components::Failed(failure) => ComponentsView::Failed(failure@),
        }
    }
}

/// What does not change while the components are resolved.
pub struct ComponentsPlan {
    pub context: BuildContextView,
    pub scie_pikesquares_exe: Option<Seq<char>>,
    pub tools_pex_file: Option<Seq<char>>,
    pub update_lock: bool,
    pub dest_dir: Seq<char>,
}

/// A move: the state that follows, and what is said with it.
pub type ComponentsMove = (ComponentsView, ProgressView<BuiltComponentsView>);

/// The components have failed: they hold the failure and say so.
pub open spec fn components_failed(failure: FailureView) -> ComponentsMove {
    (ComponentsView::Failed(failure), ProgressView::Failed(failure))
}

/// The components are done: they hold the scie and say so.
pub open spec fn components_done(built: BuiltComponentsView) -> ComponentsMove {
    (ComponentsView::Done(built), ProgressView::Done(built))
}

/// The assembly has moved: its step is passed on, its failure ends the
/// run, and its result ends it well.
pub open spec fn after_assembly(
    exe: Seq<char>,
    science: ScienceView,
    tools: Seq<char>,
    moved: (AssemblyView, ProgressView<SciePikeSquaresBuildView>),
) -> ComponentsMove {
    match moved.1 {
        ProgressView::Next(step) => (
            ComponentsView::Assembly { exe, science, tools, assembly: moved.0 },
            ProgressView::Next(step),
        ),
        ProgressView::Failed(failure) => components_failed(failure),
        ProgressView::Done(scie) => components_done(
            BuiltComponentsView { scie, tools_pex_file: tools },
        ),
    }
}

/// With the binary, the tool and the bundle in hand, the assembly
/// begins.
pub open spec fn begin_assembly(
    plan: ComponentsPlan,
    exe: Seq<char>,
    science: ScienceView,
    tools: Seq<char>,
) -> ComponentsMove {
    after_assembly(
        exe,
        science,
        tools,
        assembly_step(plan.context, science, exe, tools, AssemblyView::Start, EventView::Begin),
    )
}

/// The fetcher has moved: its step is passed on and its failure ends the
/// run. Once the tool is there, a bundle that was supplied is used as it
/// is, and only where none was supplied is one built.
pub open spec fn after_fetch(
    plan: ComponentsPlan,
    exe: Seq<char>,
    moved: (FetchView, ProgressView<ScienceView>),
) -> ComponentsMove {
    match moved.1 {
        ProgressView::Next(step) => (
            ComponentsView::Science { exe, fetch: moved.0 },
            ProgressView::Next(step),
        ),
        ProgressView::Failed(failure) => components_failed(failure),
        ProgressView::Done(science) => match plan.tools_pex_file {
            Some(tools) => begin_assembly(plan, exe, science, tools),
            None => (
                ComponentsView::Tools { exe, science },
                ProgressView::Next(
                    StepView::BuildToolsPex {
                        science,
                        update_lock: plan.update_lock,
                        dest_dir: plan.dest_dir,
                    },
                ),
            ),
        },
    }
}

/// With the binary in hand, the fetch of the tool begins.
pub open spec fn begin_fetch(plan: ComponentsPlan, exe: Seq<char>) -> ComponentsMove {
    after_fetch(plan, exe, fetch_step(plan.context, FetchView::Start, EventView::Begin))
}

/// One move of the components.
///
/// The stages follow each other in a fixed order and each waits for the
/// one before it: the native binary, the packaging tool, the dependency
/// bundle, the scie. A binary or a bundle that was supplied is used as it
/// is and its builder is not asked for. A builder that does not exit
/// with zero ends the run with a build error that carries what it wrote
/// to its error stream. Once the components are done or have failed,
/// they stay so.
pub open spec fn components_step(plan: ComponentsPlan, state: ComponentsView, event: EventView)
    -> ComponentsMove {
    match state {
        ComponentsView::Done(built) => components_done(built),
        ComponentsView::Failed(failure) => components_failed(failure),
        ComponentsView::Start => match plan.scie_pikesquares_exe {
            Some(exe) => begin_fetch(plan, exe),
            None => (
                ComponentsView::Binary,
                ProgressView::Next(StepView::BuildBinary { target: plan.context.target }),
            ),
        },
        ComponentsView::Binary => match event {
            EventView::Built { exit, path } => match exit_failure(
                Stage::Binary,
                plan.context.binary,
                exit,
            ) {
                None => begin_fetch(plan, path),
                Some(failure) => components_failed(failure),
            },
            _ => components_failed(interruption(ErrorKind::Build, Stage::Binary, event)),
        },
        ComponentsView::Science { exe, fetch } => after_fetch(
            plan,
            exe,
            fetch_step(plan.context, fetch, event),
        ),
        ComponentsView::Tools { exe, science } => match event {
            EventView::Built { exit, path } => match exit_failure(
                Stage::Bundle,
                "tools.pex"@,
                exit,
            ) {
                None => begin_assembly(plan, exe, science, path),
                Some(failure) => components_failed(failure),
            },
            _ => components_failed(interruption(ErrorKind::Build, Stage::Bundle, event)),
        },
        ComponentsView::Assembly { exe, science, tools, assembly } => after_assembly(
            exe,
            science,
            tools,
            assembly_step(plan.context, science, exe, tools, assembly, event),
        ),
    }
}

/// What the components say, report by report, from `state` on.
pub open spec fn components_trace(
    plan: ComponentsPlan,
    state: ComponentsView,
    events: Seq<EventView>,
) -> Seq<ProgressView<BuiltComponentsView>>
    decreases events.len(),
{
    if events.len() == 0 {
        Seq::empty()
    } else {
        let moved = components_step(plan, state, events[0]);
        seq![moved.1] + components_trace(plan, moved.0, events.skip(1))
    }
}

/// With a binary supplied, no move asks for the binary to be built.
pub proof fn lemma_binary_override_step(
    plan: ComponentsPlan,
    state: ComponentsView,
    event: EventView,
)
    requires
        plan.scie_pikesquares_exe is Some,
    ensures
        !asks_for_binary(components_step(plan, state, event).1),
{
}

/// With a bundle supplied, no move asks for the bundle to be built.
pub proof fn lemma_bundle_override_step(
    plan: ComponentsPlan,
    state: ComponentsView,
    event: EventView,
)
    requires
        plan.tools_pex_file is Some,
    ensures
        !asks_for_bundle(components_step(plan, state, event).1),
{
}

/// A supplied binary takes precedence whatever happens: from any state
/// and under any series of reports, the builder of the native binary is
/// never asked for.
pub proof fn binary_override_is_absolute(
    plan: ComponentsPlan,
    state: ComponentsView,
    events: Seq<EventView>,
)
    requires
        plan.scie_pikesquares_exe is Some,
    ensures
        forall|i: int|
            0 <= i < components_trace(plan, state, events).len() ==> !asks_for_binary(
                #[trigger] components_trace(plan, state, events)[i],
            ),
    decreases events.len(),
{
    if events.len() > 0 {
        let moved = components_step(plan, state, events[0]);
        let later = components_trace(plan, moved.0, events.skip(1));
        lemma_binary_override_step(plan, state, events[0]);
        binary_override_is_absolute(plan, moved.0, events.skip(1));
        let said = components_trace(plan, state, events);
        assert forall|i: int| 0 <= i < said.len() implies !asks_for_binary(#[trigger] said[i]) by {
            if i > 0 {
                assert(said[i] == later[i - 1]);
            }
        }
    }
}

/// A supplied bundle takes precedence whatever happens: from any state
/// and under any series of reports, the bundle builder is never asked
/// for.
pub proof fn bundle_override_is_absolute(
    plan: ComponentsPlan,
    state: ComponentsView,
    events: Seq<EventView>,
)
    requires
        plan.tools_pex_file is Some,
    ensures
        forall|i: int|
            0 <= i < components_trace(plan, state, events).len() ==> !asks_for_bundle(
                #[trigger] components_trace(plan, state, events)[i],
            ),
    decreases events.len(),
{
    if events.len() > 0 {
        let moved = components_step(plan, state, events[0]);
        let later = components_trace(plan, moved.0, events.skip(1));
        lemma_bundle_override_step(plan, state, events[0]);
        bundle_override_is_absolute(plan, moved.0, events.skip(1));
        let said = components_trace(plan, state, events);
        assert forall|i: int| 0 <= i < said.len() implies !asks_for_bundle(#[trigger] said[i]) by {
            if i > 0 {
                assert(said[i] == later[i - 1]);
            }
        }
    }
}

/// Whether the components are on their way with the binary at `exe` and
/// without having its builder at work.
pub open spec fn keeps_binary(state: ComponentsView, exe: Seq<char>) -> bool {
    match state {
        ComponentsView::Binary => false,
        ComponentsView::Science { exe: held, .. } => held == exe,
        ComponentsView::Tools { exe: held, .. } => held == exe,
        ComponentsView::Assembly { exe: held, .. } => held == exe,
        _ => true,
    }
}

/// Whether the components are on their way with the bundle at `tools`
/// and without having its builder at work.
pub open spec fn keeps_bundle(state: ComponentsView, tools: Seq<char>) -> bool {
    match state {
        ComponentsView::Tools { .. } => false,
        ComponentsView::Assembly { tools: held, .. } => held == tools,
        _ => true,
    }
}

/// Whether a tool that is asked for, where one is, is the lift of the
/// binary at `exe`.
pub open spec fn lifts_binary(said: ProgressView<BuiltComponentsView>, exe: Seq<char>) -> bool {
    said matches ProgressView::Next(StepView::Run(invocation)) ==> invocation.args.len() == 13
        && invocation.args[3] == "scie-pikesquares.bin="@ + exe
}

/// Whether a tool that is asked for, where one is, is the lift of the
/// bundle at `tools`.
pub open spec fn lifts_bundle(said: ProgressView<BuiltComponentsView>, tools: Seq<char>) -> bool {
    said matches ProgressView::Next(StepView::Run(invocation)) ==> invocation.args.len() == 13
        && invocation.args[5] == "tools.pex="@ + tools
}

/// With a binary supplied, components that are on their way with it stay
/// so, and what they lift is that binary.
pub proof fn lemma_keeps_binary_step(
    plan: ComponentsPlan,
    exe: Seq<char>,
    state: ComponentsView,
    event: EventView,
)
    requires
        plan.scie_pikesquares_exe == Some(exe),
        keeps_binary(state, exe),
    ensures
        keeps_binary(components_step(plan, state, event).0, exe),
        lifts_binary(components_step(plan, state, event).1, exe),
{
}

/// With a bundle supplied, components that are on their way with it stay
/// so, and what they lift is that bundle.
pub proof fn lemma_keeps_bundle_step(
    plan: ComponentsPlan,
    tools: Seq<char>,
    state: ComponentsView,
    event: EventView,
)
    requires
        plan.tools_pex_file == Some(tools),
        keeps_bundle(state, tools),
    ensures
        keeps_bundle(components_step(plan, state, event).0, tools),
        lifts_bundle(components_step(plan, state, event).1, tools),
{
}

/// A supplied binary is used as it is: from the start and under any
/// series of reports, whenever the components ask for a tool to be run,
/// it is the lift, and the binary it is given is the supplied one.
pub proof fn supplied_binary_is_lifted(
    plan: ComponentsPlan,
    exe: Seq<char>,
    state: ComponentsView,
    events: Seq<EventView>,
)
    requires
        plan.scie_pikesquares_exe == Some(exe),
        keeps_binary(state, exe),
    ensures
        forall|i: int|
            0 <= i < components_trace(plan, state, events).len() ==> lifts_binary(
                #[trigger] components_trace(plan, state, events)[i],
                exe,
            ),
    decreases events.len(),
{
    if events.len() > 0 {
        let moved = components_step(plan, state, events[0]);
        let later = components_trace(plan, moved.0, events.skip(1));
        lemma_keeps_binary_step(plan, exe, state, events[0]);
        supplied_binary_is_lifted(plan, exe, moved.0, events.skip(1));
        let said = components_trace(plan, state, events);
        assert forall|i: int| 0 <= i < said.len() implies lifts_binary(#[trigger] said[i], exe) by {
            if i > 0 {
                assert(said[i] == later[i - 1]);
            }
        }
    }
}

/// A supplied bundle is used as it is: from the start and under any
/// series of reports, whenever the components ask for a tool to be run,
/// it is the lift, and the bundle it is given is the supplied one.
pub proof fn supplied_bundle_is_lifted(
    plan: ComponentsPlan,
    tools: Seq<char>,
    state: ComponentsView,
    events: Seq<EventView>,
)
    requires
        plan.tools_pex_file == Some(tools),
        keeps_bundle(state, tools),
    ensures
        forall|i: int|
            0 <= i < components_trace(plan, state, events).len() ==> lifts_bundle(
                #[trigger] components_trace(plan, state, events)[i],
                tools,
            ),
    decreases events.len(),
{
    if events.len() > 0 {
        let moved = components_step(plan, state, events[0]);
        let later = components_trace(plan, moved.0, events.skip(1));
        lemma_keeps_bundle_step(plan, tools, state, events[0]);
        supplied_bundle_is_lifted(plan, tools, moved.0, events.skip(1));
        let said = components_trace(plan, state, events);
        assert forall|i: int| 0 <= i < said.len() implies lifts_bundle(
            #[trigger] said[i],
            tools,
        ) by {
            if i > 0 {
                assert(said[i] == later[i - 1]);
            }
        }
    }
}

/// What is asked of the bundle builder is fixed by the tool, the lock
/// flag and the destination: two runs that agree on these ask for the
/// same build, whatever else differs between them, and the lock is
/// refreshed exactly where the flag is set.
pub proof fn bundle_request_is_fixed_by_its_inputs(
    first: ComponentsPlan,
    second: ComponentsPlan,
    first_exe: Seq<char>,
    second_exe: Seq<char>,
    fetch: FetchView,
    science: ScienceView,
)
    requires
        first.tools_pex_file is None,
        second.tools_pex_file is None,
        first.update_lock == second.update_lock,
        first.dest_dir == second.dest_dir,
    ensures
        after_fetch(first, first_exe, (fetch, ProgressView::Done(science))).1 == after_fetch(
            second,
            second_exe,
            (fetch, ProgressView::Done(science)),
        ).1,
        after_fetch(first, first_exe, (fetch, ProgressView::Done(science))).1
            == ProgressView::<BuiltComponentsView>::Next(
            StepView::BuildToolsPex {
                science,
                update_lock: first.update_lock,
                dest_dir: first.dest_dir,
            },
        ),
{
}

/// The plan of a run of the components.
pub open spec fn plan_of(
    build_context: &BuildContext,
    scie_pikesquares_exe: &Option<String>,
    tools_pex_file: &Option<String>,
    update_lock: bool,
    dest_dir: &str,
) -> ComponentsPlan {
    ComponentsPlan {
        context: build_context@,
        scie_pikesquares_exe: scie_pikesquares_exe.deep_view(),
        tools_pex_file: tools_pex_file.deep_view(),
        update_lock,
        dest_dir: dest_dir@,
    }
}

fn fail(failure: Failure) -> (moved: (Components, Progress<BuiltComponents>))
    ensures
        (moved.0@, moved.1@) == components_failed(failure@),
{
    let copy: Failure = failure.clone();
    (Components::Failed(failure), Progress::Failed(copy))
}

fn done(built: BuiltComponents) -> (moved: (Components, Progress<BuiltComponents>))
    ensures
        (moved.0@, moved.1@) == components_done(built@),
{
    let copy: BuiltComponents = built.clone();
    (Components::Done(built), Progress::Done(copy))
}

fn assembly_moved(
    exe: String,
    science: Science,
    tools: String,
    moved: (Assembly, Progress<SciePikeSquaresBuild>),
) -> (next: (Components, Progress<BuiltComponents>))
    ensures
        (next.0@, next.1@) == after_assembly(exe@, science@, tools@, (moved.0@, moved.1@)),
{
    let (assembly, progress) = moved;
    match progress {
        Progress::Next(step) => (
            Components::Assembly { exe, science, tools, assembly },
            Progress::Next(step),
        ),
        Progress::Failed(failure) => fail(failure),
        Progress::Done(scie) => done(BuiltComponents { scie, tools_pex_file: tools }),
    }
}

fn start_assembly(
    build_context: &BuildContext,
    exe: String,
    science: Science,
    tools: String,
    Ghost(plan): Ghost<ComponentsPlan>,
) -> (next: (Components, Progress<BuiltComponents>))
    requires
        plan.context == build_context@,
    ensures
        (next.0@, next.1@) == begin_assembly(plan, exe@, science@, tools@),
{
    let moved = build_scie_pikesquares_scie(
        build_context,
        &science,
        exe.as_str(),
        tools.as_str(),
        Assembly::Start,
        Event::Begin,
    );
    assembly_moved(exe, science, tools, moved)
}

fn fetch_moved(
    build_context: &BuildContext,
    tools_pex_file: &Option<String>,
    update_lock: bool,
    dest_dir: &str,
    exe: String,
    moved: (Fetch, Progress<Science>),
    Ghost(plan): Ghost<ComponentsPlan>,
) -> (next: (Components, Progress<BuiltComponents>))
    requires
        plan.context == build_context@,
        plan.tools_pex_file == tools_pex_file.deep_view(),
        plan.update_lock == update_lock,
        plan.dest_dir == dest_dir@,
    ensures
        (next.0@, next.1@) == after_fetch(plan, exe@, (moved.0@, moved.1@)),
{
    let (fetch, progress) = moved;
    match progress {
        Progress::Next(step) => (Components::Science { exe, fetch }, Progress::Next(step)),
        Progress::Failed(failure) => fail(failure),
        Progress::Done(science) => match tools_pex_file {
            Some(tools) => start_assembly(
                build_context,
                exe,
                science,
                tools.clone(),
                Ghost(plan),
            ),
            None => {
                let step = Step::BuildToolsPex {
                    science: science.clone(),
                    update_lock,
                    dest_dir: String::from_str(dest_dir),
                };
                (Components::Tools { exe, science }, Progress::Next(step))
            },
        },
    }
}

/// Moves the components on by one report.
pub fn maybe_build_components(
    build_context: &BuildContext,
    scie_pikesquares_exe: &Option<String>,
    tools_pex_file: &Option<String>,
    update_lock: bool,
    dest_dir: &str,
    state: Components,
    event: Event,
) -> (moved: (Components, Progress<BuiltComponents>))
    ensures
        (moved.0@, moved.1@) == components_step(
            plan_of(build_context, scie_pikesquares_exe, tools_pex_file, update_lock, dest_dir),
            state@,
            event@,
        ),
{
    let ghost plan = plan_of(
        build_context,
        scie_pikesquares_exe,
        tools_pex_file,
        update_lock,
        dest_dir,
    );
    match state {
        Components::Done(built) => done(built),
        Components::Failed(failure) => fail(failure),
        Components::Start => match scie_pikesquares_exe {
            Some(exe) => {
                let moved = fetch_science(build_context, Fetch::Start, Event::Begin);
                fetch_moved(
                    build_context,
                    tools_pex_file,
                    update_lock,
                    dest_dir,
                    exe.clone(),
                    moved,
                    Ghost(plan),
                )
            },
            None => (
                Components::Binary,
                Progress::Next(Step::BuildBinary { target: build_context.target.clone() }),
            ),
        },
        Components::Binary => match event {
            Event::Built { exit, path } => match exit.check(
                Stage::Binary,
                build_context.binary.as_str(),
            ) {
                Ok(()) => {
                    let moved = fetch_science(build_context, Fetch::Start, Event::Begin);
                    fetch_moved(
                        build_context,
                        tools_pex_file,
                        update_lock,
                        dest_dir,
                        path,
                        moved,
                        Ghost(plan),
                    )
                },
                Err(failure) => fail(failure),
            },
            other => fail(interrupted(ErrorKind::Build, Stage::Binary, other)),
        },
        Components::Science { exe, fetch } => {
            let moved = fetch_science(build_context, fetch, event);
            fetch_moved(
                build_context,
                tools_pex_file,
                update_lock,
                dest_dir,
                exe,
                moved,
                Ghost(plan),
            )
        },
        Components::Tools { exe, science } => match event {
            Event::Built { exit, path } => match exit.check(Stage::Bundle, "tools.pex") {
                Ok(()) => start_assembly(build_context, exe, science, path, Ghost(plan)),
                Err(failure) => fail(failure),
            },
            other => fail(interrupted(ErrorKind::Build, Stage::Bundle, other)),
        },
        Components::Assembly { exe, science, tools, assembly } => {
            let moved = build_scie_pikesquares_scie(
                build_context,
                &science,
                exe.as_str(),
                tools.as_str(),
                assembly,
                event,
            );
            assembly_moved(exe, science, tools, moved)
        },
    }
}

} // verus!
