//! Assembling the scie: the native binary and the dependency bundle are
//! handed to the packaging tool, which lifts them into one executable.
use crate::checksum::checksum_path;
use crate::context::{full_name, resolved, BuildContext, BuildContextView, HostView};
use crate::failure::{ErrorKind, Failure, FailureView, Stage};
use crate::machine::{
    interrupted, interruption, Event, EventView, Progress, ProgressView, Step, StepView,
};
use crate::paths::{
    file_name, is_component, join, joined, lemma_file_name_joined, lemma_relative_to_joined,
    relative_to, strip_prefix,
};
use crate::process::{exit_failure, texts, Invocation, InvocationView};
use crate::science::{Science, ScienceView};
use vstd::prelude::*;

verus! {

/// The assembled scie and its checksum file.
#[derive(Debug)]
pub struct SciePikeSquaresBuild {
    pub exe: String,
    pub sha256: String,
}

/// What a [`SciePikeSquaresBuild`] holds, as a mathematical value.
pub struct SciePikeSquaresBuildView {
    pub exe: Seq<char>,
    pub sha256: Seq<char>,
}

impl View for SciePikeSquaresBuild {
    type V = SciePikeSquaresBuildView;

    open spec fn view(&self) -> SciePikeSquaresBuildView {
        SciePikeSquaresBuildView { exe: self.exe@, sha256: self.sha256@ }
    }
}

impl DeepView for SciePikeSquaresBuild {
    type V = SciePikeSquaresBuildView;

    open spec fn deep_view(&self) -> SciePikeSquaresBuildView {
        self@
    }
}

impl Clone for SciePikeSquaresBuild {
    fn clone(&self) -> (copy: Self)
        ensures
            copy@ == self@,
    {
        SciePikeSquaresBuild { exe: self.exe.clone(), sha256: self.sha256.clone() }
    }
}

/// The directory that the scie is assembled in.
pub open spec fn package_dir(context: BuildContextView) -> Seq<char> {
    joined(context.cargo_output_root, "scie-pikesquares"@)
}

/// The lift manifest, which lies with the package sources.
pub open spec fn manifest_file(context: BuildContextView) -> Seq<char> {
    joined(context.package_crate_root, "scie-pikesquares.toml"@)
}

/// The lift manifest as seen from the workspace root, which is where the
/// tool runs.
pub open spec fn manifest_path(context: BuildContextView) -> Option<Seq<char>> {
    relative_to(manifest_file(context), context.workspace_root)
}

/// The error for package sources that do not lie under the workspace
/// root.
pub open spec fn stray_manifest(context: BuildContextView) -> FailureView {
    FailureView {
        kind: ErrorKind::Configuration,
        stage: Stage::Assemble,
        subject: manifest_file(context),
        detail: "is not under the workspace root"@,
    }
}

/// The arguments of the lift. The two inputs go in under fixed names,
/// the binary as `scie-pikesquares.bin` so that it cannot collide with
/// the scie itself. The tool is asked to build into the package
/// directory, to put the platform into the file name and to write a
/// SHA-256 checksum file beside the scie.
pub open spec fn lift_args(
    context: BuildContextView,
    scie_pikesquares_exe: Seq<char>,
    tools_pex_file: Seq<char>,
    manifest: Seq<char>,
) -> Seq<Seq<char>> {
    seq![
        "lift"@,
        "--include-provenance"@,
        "--file"@,
        "scie-pikesquares.bin="@ + scie_pikesquares_exe,
        "--file"@,
        "tools.pex="@ + tools_pex_file,
        "build"@,
        "--dest-dir"@,
        package_dir(context),
        "--use-platform-suffix"@,
        "--hash"@,
        "sha256"@,
        manifest,
    ]
}

/// The lift as a tool to run: the packaging tool itself, with the
/// arguments of the lift, in the workspace root.
pub open spec fn lift(
    context: BuildContextView,
    science: ScienceView,
    scie_pikesquares_exe: Seq<char>,
    tools_pex_file: Seq<char>,
    manifest: Seq<char>,
) -> InvocationView {
    InvocationView {
        program: science.exe,
        args: lift_args(context, scie_pikesquares_exe, tools_pex_file, manifest),
        current_dir: context.workspace_root,
    }
}

/// The platform-specific name of the scie.
pub open spec fn scie_name(context: BuildContextView) -> Seq<char> {
    full_name(context, context.binary)
}

/// What the lift leaves behind: the scie under its platform-specific
/// name in the package directory, and beside it the checksum file.
pub open spec fn lifted(context: BuildContextView) -> SciePikeSquaresBuildView {
    SciePikeSquaresBuildView {
        exe: joined(package_dir(context), scie_name(context)),
        sha256: joined(package_dir(context), scie_name(context) + ".sha256"@),
    }
}

/// How far the assembly has come.
#[derive(Debug)]
pub enum Assembly {
    /// Nothing was asked for yet.
    Start,
    /// The package directory is being cleared.
    Clearing,
    /// The tool is lifting.
    Lifting,
    /// The scie is there.
    Done(SciePikeSquaresBuild),
    /// The assembly has failed.
    Failed(Failure),
}

/// What a [`Assembly`] holds, as a mathematical value.
pub enum AssemblyView {
    Start,
    Clearing,
    Lifting,
    Done(SciePikeSquaresBuildView),
    Failed(FailureView),
}

impl View for Assembly {
    type V = AssemblyView;

    open spec fn view(&self) -> AssemblyView {
        match *self {
            Assembly::Start => AssemblyView::Start,
            Assembly::Clearing => AssemblyView::Clearing,
            Assembly::Lifting => AssemblyView::Lifting,
            Assembly::Done(build) => AssemblyView::Done(build@),
            Assembly::Failed(failure) => AssemblyView::Failed(failure@),
        }
    }
}

/// The assembly is done: it holds the scie and says so.
pub open spec fn assembled(build: SciePikeSquaresBuildView) -> (
    AssemblyView,
    ProgressView<SciePikeSquaresBuildView>,
) {
    (AssemblyView::Done(build), ProgressView::Done(build))
}

/// The assembly has failed: it holds the failure and says so.
pub open spec fn assembly_failed(failure: FailureView) -> (
    AssemblyView,
    ProgressView<SciePikeSquaresBuildView>,
) {
    (AssemblyView::Failed(failure), ProgressView::Failed(failure))
}

/// One move of the assembly.
///
/// The package directory is cleared first, so that nothing of an earlier
/// run is left in it. Then the tool lifts. An exit with zero means that
/// the scie and its checksum file are where the tool puts them; any
/// other exit is a build error that carries what the tool wrote to its
/// error stream. Once the assembly is done or has failed, it stays so.
pub open spec fn assembly_step(
    context: BuildContextView,
    science: ScienceView,
    scie_pikesquares_exe: Seq<char>,
    tools_pex_file: Seq<char>,
    state: AssemblyView,
    event: EventView,
) -> (AssemblyView, ProgressView<SciePikeSquaresBuildView>) {
    match state {
        AssemblyView::Done(build) => assembled(build),
        AssemblyView::Failed(failure) => assembly_failed(failure),
        AssemblyView::Start => (
            AssemblyView::Clearing,
            ProgressView::Next(StepView::RecreateDirectory { path: package_dir(context) }),
        ),
        AssemblyView::Clearing => match event {
            EventView::Completed => match manifest_path(context) {
                Some(manifest) => (
                    AssemblyView::Lifting,
                    ProgressView::Next(
                        StepView::Run(
                            lift(context, science, scie_pikesquares_exe, tools_pex_file, manifest),
                        ),
                    ),
                ),
                None => assembly_failed(stray_manifest(context)),
            },
            _ => assembly_failed(interruption(ErrorKind::Configuration, Stage::Assemble, event)),
        },
        AssemblyView::Lifting => match event {
            EventView::Exited(exit) => match exit_failure(Stage::Assemble, science.exe, exit) {
                None => assembled(lifted(context)),
                Some(failure) => assembly_failed(failure),
            },
            _ => assembly_failed(interruption(ErrorKind::Build, Stage::Assemble, event)),
        },
    }
}

/// The checksum file of the scie is the one that belongs to it by name.
pub proof fn lifted_checksum_belongs_to_scie(context: BuildContextView)
    ensures
        lifted(context).sha256 == checksum_path(lifted(context).exe),
{
    let dir = package_dir(context);
    let name = scie_name(context);
    if dir.len() == 0 {
    } else if dir.last() == '/' {
        assert(dir + (name + ".sha256"@) == (dir + name) + ".sha256"@);
    } else {
        assert(dir + seq!['/'] + (name + ".sha256"@) == (dir + seq!['/'] + name) + ".sha256"@);
    }
}

/// In a context whose package sources lie in a directory of the
/// workspace root, the lift manifest is found under that directory's
/// name.
pub proof fn lemma_manifest_under_root(context: BuildContextView, package: Seq<char>)
    requires
        context.package_crate_root == joined(context.workspace_root, package),
        package.len() > 0,
    ensures
        manifest_path(context) == Some(joined(package, "scie-pikesquares.toml"@)),
{
    let root = context.workspace_root;
    let name = "scie-pikesquares.toml"@;
    let under = joined(package, name);
    if root.len() > 0 {
        assert(joined(root, package).last() == package.last());
        assert(manifest_file(context) == joined(root, under)) by {
            if root.last() == '/' {
                if package.last() == '/' {
                    assert((root + package) + name == root + (package + name));
                } else {
                    assert((root + package) + seq!['/'] + name == root + (package + seq!['/']
                        + name));
                }
            } else {
                if package.last() == '/' {
                    assert((root + seq!['/'] + package) + name == root + seq!['/'] + (package
                        + name));
                } else {
                    assert((root + seq!['/'] + package) + seq!['/'] + name == root + seq!['/'] + (
                        package + seq!['/'] + name));
                }
            }
        }
    }
    lemma_relative_to_joined(root, under);
}

/// Whatever the workspace, the target and the host: in a resolved
/// context the lift manifest is found, so that the assembly does not
/// fail for want of it.
pub proof fn resolved_manifest_is_found(
    target: Option<Seq<char>>,
    science_repo: Option<Seq<char>>,
    workspace_root: Seq<char>,
    host: HostView,
)
    ensures
        manifest_path(resolved(target, science_repo, workspace_root, host)) == Some(
            joined("package"@, "scie-pikesquares.toml"@),
        ),
{
    reveal_strlit("package");
    lemma_manifest_under_root(
        resolved(target, science_repo, workspace_root, host),
        "package"@,
    );
}

/// Where the platform-specific name of the scie is a single path
/// component, the scie and its checksum file carry that name: the file
/// names are fixed by the binary's name and the platform.
pub proof fn lifted_names(context: BuildContextView)
    requires
        is_component(scie_name(context)),
    ensures
        file_name(lifted(context).exe) == scie_name(context),
        file_name(lifted(context).sha256) == scie_name(context) + ".sha256"@,
{
    reveal_strlit(".sha256");
    let checksum_name = scie_name(context) + ".sha256"@;
    assert(is_component(checksum_name)) by {
        assert forall|i: int| 0 <= i < checksum_name.len() implies checksum_name[i] != '/' by {
            if i >= scie_name(context).len() {
                assert(checksum_name[i] == ".sha256"@[i - scie_name(context).len()]);
            }
        }
    }
    lemma_file_name_joined(package_dir(context), scie_name(context));
    lemma_file_name_joined(package_dir(context), checksum_name);
}

impl BuildContext {
    /// The directory that the scie is assembled in.
    pub fn package_dir(&self) -> (path: String)
        ensures
            path@ == package_dir(self@),
    {
        join(self.cargo_output_root.as_str(), "scie-pikesquares")
    }

    /// The lift manifest as seen from the workspace root, or the error
    /// for package sources that lie elsewhere.
    pub fn manifest_path(&self) -> (path: Result<String, Failure>)
        ensures
            path.is_ok() == manifest_path(self@).is_some(),
            path.is_ok() ==> Some(path.unwrap()@) == manifest_path(self@),
            path.is_err() ==> path.unwrap_err()@ == stray_manifest(self@),
    {
        let file: String = join(self.package_crate_root.as_str(), "scie-pikesquares.toml");
        match strip_prefix(file.as_str(), self.workspace_root.as_str()) {
            Some(path) => Ok(path),
            None => Err(
                Failure::new(
                    ErrorKind::Configuration,
                    Stage::Assemble,
                    file.as_str(),
                    "is not under the workspace root",
                ),
            ),
        }
    }

    /// The scie and its checksum file as the lift leaves them.
    pub fn lifted(&self) -> (build: SciePikeSquaresBuild)
        ensures
            build@ == lifted(self@),
    {
        let dir: String = self.package_dir();
        let name: String = self.binary_full_name(self.binary.as_str());
        let checksum_name: String = name.clone().concat(".sha256");
        SciePikeSquaresBuild {
            exe: join(dir.as_str(), name.as_str()),
            sha256: join(dir.as_str(), checksum_name.as_str()),
        }
    }
}

/// Gives the lift as a tool to run, for a manifest that lies at
/// `manifest` as seen from the workspace root.
pub fn lift_command(
    context: &BuildContext,
    science: &Science,
    scie_pikesquares_exe: &str,
    tools_pex_file: &str,
    manifest: &str,
) -> (invocation: Invocation)
    ensures
        invocation@ == lift(
            context@,
            science@,
            scie_pikesquares_exe@,
            tools_pex_file@,
            manifest@,
        ),
{
    let mut args: Vec<String> = Vec::new();
    args.push(String::from_str("lift"));
    args.push(String::from_str("--include-provenance"));
    args.push(String::from_str("--file"));
    args.push(String::from_str("scie-pikesquares.bin=").concat(scie_pikesquares_exe));
    args.push(String::from_str("--file"));
    args.push(String::from_str("tools.pex=").concat(tools_pex_file));
    args.push(String::from_str("build"));
    args.push(String::from_str("--dest-dir"));
    args.push(context.package_dir());
    args.push(String::from_str("--use-platform-suffix"));
    args.push(String::from_str("--hash"));
    args.push(String::from_str("sha256"));
    args.push(String::from_str(manifest));
    assert(texts(args@) =~= lift_args(
        context@,
        scie_pikesquares_exe@,
        tools_pex_file@,
        manifest@,
    ));
    Invocation {
        program: science.exe.clone(),
        args,
        current_dir: context.workspace_root.clone(),
    }
}

fn assembly_done(build: SciePikeSquaresBuild) -> (moved: (Assembly, Progress<SciePikeSquaresBuild>))
    ensures
        (moved.0@, moved.1@) == assembled(build@),
{
    let copy: SciePikeSquaresBuild = build.clone();
    (Assembly::Done(build), Progress::Done(copy))
}

fn assembly_fail(failure: Failure) -> (moved: (Assembly, Progress<SciePikeSquaresBuild>))
    ensures
        (moved.0@, moved.1@) == assembly_failed(failure@),
{
    let copy: Failure = failure.clone();
    (Assembly::Failed(failure), Progress::Failed(copy))
}

/// Moves the assembly of the scie on by one report.
pub fn build_scie_pikesquares_scie(
    build_context: &BuildContext,
    science: &Science,
    scie_pikesquares_exe: &str,
    tools_pex_file: &str,
    state: Assembly,
    event: Event,
) -> (moved: (Assembly, Progress<SciePikeSquaresBuild>))
    ensures
        (moved.0@, moved.1@) == assembly_step(
            build_context@,
            science@,
            scie_pikesquares_exe@,
            tools_pex_file@,
            state@,
            event@,
        ),
{
    match state {
        Assembly::Done(build) => assembly_done(build),
        Assembly::Failed(failure) => assembly_fail(failure),
        Assembly::Start => (
            Assembly::Clearing,
            Progress::Next(Step::RecreateDirectory { path: build_context.package_dir() }),
        ),
        Assembly::Clearing => match event {
            Event::Completed => match build_context.manifest_path() {
                Ok(manifest) => (
                    Assembly::Lifting,
                    Progress::Next(
                        Step::Run(
                            lift_command(
                                build_context,
                                science,
                                scie_pikesquares_exe,
                                tools_pex_file,
                                manifest.as_str(),
                            ),
                        ),
                    ),
                ),
                Err(failure) => assembly_fail(failure),
            },
            other => assembly_fail(interrupted(ErrorKind::Configuration, Stage::Assemble, other)),
        },
        Assembly::Lifting => match event {
            Event::Exited(exit) => match exit.check(Stage::Assemble, science.exe.as_str()) {
                Ok(()) => assembly_done(build_context.lifted()),
                Err(failure) => assembly_fail(failure),
            },
            other => assembly_fail(interrupted(ErrorKind::Build, Stage::Assemble, other)),
        },
    }
}

} // verus!
