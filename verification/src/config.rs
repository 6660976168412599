//! The settings that the scie reads from `pikesquares.toml`.
use crate::failure::{ErrorKind, Failure, FailureView, Stage};
use crate::paths::{join, joined};
use vstd::prelude::*;

verus! {

/// The `GLOBAL` table.
#[derive(Debug)]
pub struct Global {
    pub pikesquares_version: Option<String>,
}

/// The `debugpy` table.
#[derive(Debug)]
pub struct DebugPy {
    pub version: Option<String>,
}

/// The `DEFAULT` table.
#[derive(Debug)]
pub struct Defaults {
    pub delegate_bootstrap: Option<bool>,
}

/// The recognised settings; a table that is left out is empty.
#[derive(Debug)]
pub struct Config {
    pub global: Global,
    pub debugpy: DebugPy,
    pub default: Defaults,
}

/// What a [`Config`] holds, as a mathematical value.
pub struct ConfigView {
    pub pikesquares_version: Option<Seq<char>>,
    pub debugpy_version: Option<Seq<char>>,
    pub delegate_bootstrap: Option<bool>,
}

impl View for Config {
    type V = ConfigView;

    open spec fn view(&self) -> ConfigView {
        ConfigView {
            pikesquares_version: self.global.pikesquares_version.deep_view(),
            debugpy_version: self.debugpy.version.deep_view(),
            delegate_bootstrap: self.default.delegate_bootstrap,
        }
    }
}

/// The settings of a build root.
#[derive(Debug)]
pub struct PikeSquaresConfig {
    build_root: String,
    pub config: Config,
}

/// What a [`PikeSquaresConfig`] holds, as a mathematical value.
pub struct PikeSquaresConfigView {
    pub build_root: Seq<char>,
    pub config: ConfigView,
}

impl View for PikeSquaresConfig {
    type V = PikeSquaresConfigView;

    closed spec fn view(&self) -> PikeSquaresConfigView {
        PikeSquaresConfigView { build_root: self.build_root@, config: self.config@ }
    }
}

/// Where the settings are read from, and a note for messages on how
/// that place was chosen.
#[derive(Debug)]
pub struct ConfigFile {
    pub path: String,
    pub provenance: String,
}

/// What a [`ConfigFile`] holds, as a mathematical value.
pub struct ConfigFileView {
    pub path: Seq<char>,
    pub provenance: Seq<char>,
}

impl View for ConfigFile {
    type V = ConfigFileView;

    open spec fn view(&self) -> ConfigFileView {
        ConfigFileView { path: self.path@, provenance: self.provenance@ }
    }
}

/// The settings file of a build root: the file that the environment
/// names through `PIKESQUARES_TOML`, where it names one, and else
/// `pikesquares.toml` in the build root.
pub open spec fn config_file(build_root: Seq<char>, pikesquares_toml: Option<Seq<char>>)
    -> ConfigFileView {
    match pikesquares_toml {
        Some(path) => ConfigFileView { path, provenance: " (via PIKESQUARES_TOML env var)"@ },
        None => ConfigFileView {
            path: joined(build_root, "pikesquares.toml"@),
            provenance: Seq::empty(),
        },
    }
}

/// What came of loading the settings file.
#[derive(Debug)]
pub enum Loaded {
    /// The file could not be read.
    Unreadable { detail: String },
    /// The file is not TOML, or a setting in it has the wrong type.
    Malformed { detail: String },
    /// The file holds these settings.
    Parsed(Config),
}

/// What a [`Loaded`] holds, as a mathematical value.
pub enum LoadedView {
    Unreadable { detail: Seq<char> },
    Malformed { detail: Seq<char> },
    Parsed(ConfigView),
}

impl View for Loaded {
    type V = LoadedView;

    open spec fn view(&self) -> LoadedView {
        match *self {
            Loaded::Unreadable { detail } => LoadedView::Unreadable { detail: detail@ },
            Loaded::Malformed { detail } => LoadedView::Malformed { detail: detail@ },
            Loaded::Parsed(config) => LoadedView::Parsed(config@),
        }
    }
}

/// The error for a settings file that could not be loaded: it names
/// what was tried, the file, and how the file was chosen.
pub open spec fn load_failure(
    attempt: Seq<char>,
    file: ConfigFileView,
    detail: Seq<char>,
) -> FailureView {
    FailureView {
        kind: ErrorKind::Configuration,
        stage: Stage::Resolve,
        subject: file.path,
        detail: "Failed to "@ + attempt + " PikeSquares config from "@ + file.path
            + file.provenance + ": "@ + detail,
    }
}

/// The settings of a build root, from what came of loading its settings
/// file.
pub open spec fn parsed(
    build_root: Seq<char>,
    pikesquares_toml: Option<Seq<char>>,
    loaded: LoadedView,
) -> Result<PikeSquaresConfigView, FailureView> {
    let file = config_file(build_root, pikesquares_toml);
    match loaded {
        LoadedView::Unreadable { detail } => Err(load_failure("read"@, file, detail)),
        LoadedView::Malformed { detail } => Err(load_failure("parse"@, file, detail)),
        LoadedView::Parsed(config) => Ok(PikeSquaresConfigView { build_root, config }),
    }
}

fn load_failed(attempt: &str, file: &ConfigFile, detail: &str) -> (failure: Failure)
    ensures
        failure@ == load_failure(attempt@, file@, detail@),
{
    let text: String = String::from_str("Failed to ").concat(attempt).concat(
        " PikeSquares config from ",
    ).concat(file.path.as_str()).concat(file.provenance.as_str()).concat(": ").concat(detail);
    Failure::new(ErrorKind::Configuration, Stage::Resolve, file.path.as_str(), text.as_str())
}

impl ConfigFile {
    /// Finds the settings file of a build root. `pikesquares_toml` is
    /// the value of the environment variable `PIKESQUARES_TOML`, where
    /// it is set.
    pub fn locate(build_root: &str, pikesquares_toml: &Option<String>) -> (file: Self)
        ensures
            file@ == config_file(build_root@, pikesquares_toml.deep_view()),
    {
        match pikesquares_toml {
            Some(path) => ConfigFile {
                path: path.clone(),
                provenance: String::from_str(" (via PIKESQUARES_TOML env var)"),
            },
            None => ConfigFile {
                path: join(build_root, "pikesquares.toml"),
                provenance: String::new(),
            },
        }
    }
}

impl PikeSquaresConfig {
    /// The configured version of the package.
    pub fn package_version(&self) -> (version: Option<String>)
        ensures
            version.deep_view() == self@.config.pikesquares_version,
    {
        match &self.config.global.pikesquares_version {
            Some(version) => Some(version.clone()),
            None => None,
        }
    }

    /// The build root that the settings belong to.
    pub fn build_root(&self) -> (root: &str)
        ensures
            root@ == self@.build_root,
    {
        self.build_root.as_str()
    }

    /// The configured version of the bundled debugger.
    pub fn debugpy_version(&self) -> (version: Option<String>)
        ensures
            version.deep_view() == self@.config.debugpy_version,
    {
        match &self.config.debugpy.version {
            Some(version) => Some(version.clone()),
            None => None,
        }
    }

    /// Whether the bootstrap is left to the packaged runtime; it is not
    /// unless the settings say so.
    pub fn delegate_bootstrap(&self) -> (delegate: bool)
        ensures
            delegate == (self@.config.delegate_bootstrap == Some(true)),
    {
        match self.config.default.delegate_bootstrap {
            Some(delegate) => delegate,
            None => false,
        }
    }

    /// Gives the settings of a build root from what came of loading its
    /// settings file, or the error that names the file.
    pub fn parse(build_root: String, pikesquares_toml: &Option<String>, loaded: Loaded) -> (config:
        Result<PikeSquaresConfig, Failure>)
        ensures
            match parsed(build_root@, pikesquares_toml.deep_view(), loaded@) {
                Ok(expected) => config.is_ok() && config.unwrap()@ == expected,
                Err(failure) => config.is_err() && config.unwrap_err()@ == failure,
            },
    {
        match loaded {
            Loaded::Unreadable { detail } => {
                let file = ConfigFile::locate(build_root.as_str(), pikesquares_toml);
                Err(load_failed("read", &file, detail.as_str()))
            },
            Loaded::Malformed { detail } => {
                let file = ConfigFile::locate(build_root.as_str(), pikesquares_toml);
                Err(load_failed("parse", &file, detail.as_str()))
            },
            Loaded::Parsed(config) => Ok(PikeSquaresConfig { build_root, config }),
        }
    }
}

} // verus!
