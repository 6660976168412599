//! The platform and the workspace locations that one run works with.
use crate::failure::{ErrorKind, Failure, FailureView, Stage};
use crate::paths::{join, joined};
use vstd::prelude::*;

verus! {

/// What the machine that runs the pipeline says of itself: its native
/// target triple and the parts from which platform-specific file names
/// are made.
#[derive(Debug)]
pub struct Host {
    pub target: String,
    pub os: String,
    pub arch: String,
    pub exe_suffix: String,
}

/// What a [`Host`] holds, as a mathematical value.
pub struct HostView {
    pub target: Seq<char>,
    pub os: Seq<char>,
    pub arch: Seq<char>,
    pub exe_suffix: Seq<char>,
}

impl View for Host {
    type V = HostView;

    open spec fn view(&self) -> HostView {
        HostView {
            target: self.target@,
            os: self.os@,
            arch: self.arch@,
            exe_suffix: self.exe_suffix@,
        }
    }
}

/// The vendor and system part of the native target triple of an
/// operating system.
pub open spec fn system_of(os: Seq<char>) -> Seq<char> {
    if os == "linux"@ {
        "unknown-linux-gnu"@
    } else if os == "macos"@ {
        "apple-darwin"@
    } else if os == "windows"@ {
        "pc-windows-msvc"@
    } else {
        "unknown-"@ + os
    }
}

/// The host as inferred from the names of its operating system and its
/// architecture: its native target triple begins with the architecture
/// and goes on with the vendor and system of the operating system.
pub open spec fn inferred(os: Seq<char>, arch: Seq<char>, exe_suffix: Seq<char>) -> HostView {
    HostView { target: arch + "-"@ + system_of(os), os, arch, exe_suffix }
}

fn same_text(a: &str, b: &str) -> (same: bool)
    ensures
        same == (a@ == b@),
{
    String::from_str(a) == String::from_str(b)
}

impl Host {
    /// Infers the host from the names of its operating system and its
    /// architecture, and the suffix that its executables carry.
    pub fn infer(os: &str, arch: &str, exe_suffix: &str) -> (host: Host)
        ensures
            host@ == inferred(os@, arch@, exe_suffix@),
    {
        let system: String = if same_text(os, "linux") {
            String::from_str("unknown-linux-gnu")
        } else if same_text(os, "macos") {
            String::from_str("apple-darwin")
        } else if same_text(os, "windows") {
            String::from_str("pc-windows-msvc")
        } else {
            String::from_str("unknown-").concat(os)
        };
        Host {
            target: String::from_str(arch).concat("-").concat(system.as_str()),
            os: String::from_str(os),
            arch: String::from_str(arch),
            exe_suffix: String::from_str(exe_suffix),
        }
    }
}

/// Everything that stays fixed during one run: the target platform, the
/// locations in the workspace, and the pinned names and versions.
#[derive(Debug)]
pub struct BuildContext {
    pub workspace_root: String,
    pub package_crate_root: String,
    pub cargo_output_root: String,
    pub target: String,
    pub os: String,
    pub arch: String,
    pub exe_suffix: String,
    pub science_repo: Option<String>,
    pub binary: String,
    pub science_tag: String,
    pub science_releases: String,
}

/// What a [`BuildContext`] holds, as a mathematical value.
pub struct BuildContextView {
    pub workspace_root: Seq<char>,
    pub package_crate_root: Seq<char>,
    pub cargo_output_root: Seq<char>,
    pub target: Seq<char>,
    pub os: Seq<char>,
    pub arch: Seq<char>,
    pub exe_suffix: Seq<char>,
    pub science_repo: Option<Seq<char>>,
    pub binary: Seq<char>,
    pub science_tag: Seq<char>,
    pub science_releases: Seq<char>,
}

impl View for BuildContext {
    type V = BuildContextView;

    open spec fn view(&self) -> BuildContextView {
        BuildContextView {
            workspace_root: self.workspace_root@,
            package_crate_root: self.package_crate_root@,
            cargo_output_root: self.cargo_output_root@,
            target: self.target@,
            os: self.os@,
            arch: self.arch@,
            exe_suffix: self.exe_suffix@,
            science_repo: self.science_repo.deep_view(),
            binary: self.binary@,
            science_tag: self.science_tag@,
            science_releases: self.science_releases@,
        }
    }
}

/// The text of an optional string.
pub open spec fn text_of(s: Option<&str>) -> Option<Seq<char>> {
    match s {
        Some(s) => Some(s@),
        None => None,
    }
}

/// The context for a workspace on a host: the target is the override
/// where one is given and the host's own otherwise, the package sources
/// and the build output lie in fixed directories under the workspace
/// root, and names and versions are the pinned ones.
pub open spec fn resolved(
    target: Option<Seq<char>>,
    science_repo: Option<Seq<char>>,
    workspace_root: Seq<char>,
    host: HostView,
) -> BuildContextView {
    BuildContextView {
        workspace_root,
        package_crate_root: joined(workspace_root, "package"@),
        cargo_output_root: joined(workspace_root, "target"@),
        target: match target {
            Some(target) => target,
            None => host.target,
        },
        os: host.os,
        arch: host.arch,
        exe_suffix: host.exe_suffix,
        science_repo,
        binary: "scie-pikesquares"@,
        science_tag: "v0.3.1"@,
        science_releases: "https://github.com/a-scie/lift/releases/download"@,
    }
}

/// The error for a tool source directory that was named and is not
/// there.
pub open spec fn missing_science_repo(science_repo: Seq<char>) -> FailureView {
    FailureView {
        kind: ErrorKind::Configuration,
        stage: Stage::Resolve,
        subject: science_repo,
        detail: "no such directory"@,
    }
}

/// The platform-specific name of a binary: the plain name, the operating
/// system and the architecture set off by hyphens, and the suffix that
/// executables carry on the platform.
pub open spec fn full_name(context: BuildContextView, name: Seq<char>) -> Seq<char> {
    name + "-"@ + context.os + "-"@ + context.arch + context.exe_suffix
}

fn copy_text(s: &Option<&str>) -> (copy: Option<String>)
    ensures
        copy.deep_view() == text_of(*s),
{
    match s {
        Some(s) => Some(String::from_str(s)),
        None => None,
    }
}

impl BuildContext {
    /// Resolves the context of a run. `science_repo_exists` says whether
    /// the tool source directory, where one is named, is there; a named
    /// directory that is missing is the one way to fail.
    pub fn new(
        target: Option<&str>,
        science_repo: Option<&str>,
        science_repo_exists: bool,
        workspace_root: &str,
        host: &Host,
    ) -> (context: Result<BuildContext, Failure>)
        ensures
            context.is_err() == (science_repo.is_some() && !science_repo_exists),
            context.is_err() ==> context.unwrap_err()@ == missing_science_repo(
                science_repo.unwrap()@,
            ),
            context.is_ok() ==> context.unwrap()@ == resolved(
                text_of(target),
                text_of(science_repo),
                workspace_root@,
                host@,
            ),
    {
        if let Some(repo) = science_repo {
            if !science_repo_exists {
                return Err(
                    Failure::new(
                        ErrorKind::Configuration,
                        Stage::Resolve,
                        repo,
                        "no such directory",
                    ),
                );
            }
        }
        Ok(
            BuildContext {
                workspace_root: String::from_str(workspace_root),
                package_crate_root: join(workspace_root, "package"),
                cargo_output_root: join(workspace_root, "target"),
                target: match target {
                    Some(target) => String::from_str(target),
                    None => host.target.clone(),
                },
                os: host.os.clone(),
                arch: host.arch.clone(),
                exe_suffix: host.exe_suffix.clone(),
                science_repo: copy_text(&science_repo),
                binary: String::from_str("scie-pikesquares"),
                science_tag: String::from_str("v0.3.1"),
                science_releases: String::from_str(
                    "https://github.com/a-scie/lift/releases/download",
                ),
            },
        )
    }

    /// The platform-specific name of the binary called `name`.
    pub fn binary_full_name(&self, name: &str) -> (full: String)
        ensures
            full@ == full_name(self@, name@),
    {
        String::from_str(name).concat("-").concat(self.os.as_str()).concat("-").concat(
            self.arch.as_str(),
        ).concat(self.exe_suffix.as_str())
    }
}

} // verus!
