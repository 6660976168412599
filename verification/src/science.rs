//! Obtaining the packaging tool: built from local sources, taken from
//! the cache, or downloaded and checked.
use crate::checksum::{checksum_file, checksum_path, matches_checksum, mismatch, verify_digest};
use crate::context::{full_name, BuildContext, BuildContextView};
use crate::failure::{ErrorKind, Failure, FailureView, Stage};
use crate::machine::{
    interrupted, interruption, Event, EventView, Progress, ProgressView, Step, StepView,
};
use crate::paths::{join, joined};
use crate::process::exit_failure;
use vstd::prelude::*;

verus! {

/// How a copy of the packaging tool was obtained.
#[derive(Clone, Copy, Debug, PartialEq, Eq, Structural)]
pub enum Origin {
    /// A download of an earlier run, found in the cache.
    Cached,
    /// Downloaded in this run, and now in the cache.
    Downloaded,
    /// Built from a local source directory.
    LocallyBuilt,
}

/// A working copy of the packaging tool: its released version, where it
/// is one, the path of its executable, and how it was obtained.
#[derive(Debug)]
pub struct Science {
    pub tag: Option<String>,
    pub exe: String,
    pub origin: Origin,
}

/// What a [`Science`] holds, as a mathematical value.
pub struct ScienceView {
    pub tag: Option<Seq<char>>,
    pub exe: Seq<char>,
    pub origin: Origin,
}

impl View for Science {
    type V = ScienceView;

    open spec fn view(&self) -> ScienceView {
        ScienceView { tag: self.tag.deep_view(), exe: self.exe@, origin: self.origin }
    }
}

impl DeepView for Science {
    type V = ScienceView;

    open spec fn deep_view(&self) -> ScienceView {
        self@
    }
}

impl Clone for Science {
    fn clone(&self) -> (copy: Self)
        ensures
            copy@ == self@,
    {
        Science {
            tag: match &self.tag {
                Some(tag) => Some(tag.clone()),
                None => None,
            },
            exe: self.exe.clone(),
            origin: self.origin,
        }
    }
}

/// The seconds after which a download is given up.
pub open spec fn fetch_timeout() -> u64 {
    300
}

/// The name under which the tool is released for the platform.
pub open spec fn science_name(context: BuildContextView) -> Seq<char> {
    full_name(context, "science"@)
}

/// The directory in which the cache keeps the tool: under the build
/// output, one per version and target.
pub open spec fn science_cache(context: BuildContextView) -> Seq<char> {
    joined(
        joined(joined(context.cargo_output_root, "science"@), context.science_tag),
        context.target,
    )
}

/// Where the cache keeps the tool: in the directory of its version and
/// target, under its platform-specific name.
pub open spec fn cached_science(context: BuildContextView) -> Seq<char> {
    joined(science_cache(context), science_name(context))
}

/// Where the pinned release of the tool is downloaded from.
pub open spec fn science_url(context: BuildContextView) -> Seq<char> {
    context.science_releases + "/"@ + context.science_tag + "/"@ + science_name(context)
}

/// How far the fetcher has come.
#[derive(Debug)]
pub enum Fetch {
    /// Nothing was asked for yet.
    Start,
    /// The tool is being built from local sources.
    Building,
    /// The cache is being looked into.
    Probing,
    /// The release is being downloaded.
    Downloading,
    /// The download is being written to the cache.
    Storing,
    /// The tool is there.
    Done(Science),
    /// The tool could not be obtained.
    Failed(Failure),
}

/// What a [`Fetch`] holds, as a mathematical value.
pub enum FetchView {
    Start,
    Building,
    Probing,
    Downloading,
    Storing,
    Done(ScienceView),
    Failed(FailureView),
}

impl View for Fetch {
    type V = FetchView;

    open spec fn view(&self) -> FetchView {
        match *self {
            Fetch::Start => FetchView::Start,
            Fetch::Building => FetchView::Building,
            Fetch::Probing => FetchView::Probing,
            Fetch::Downloading => FetchView::Downloading,
            Fetch::Storing => FetchView::Storing,
            Fetch::Done(science) => FetchView::Done(science@),
            Fetch::Failed(failure) => FetchView::Failed(failure@),
        }
    }
}

/// The fetcher is done: it holds the tool and says so.
pub open spec fn fetched(science: ScienceView) -> (FetchView, ProgressView<ScienceView>) {
    (FetchView::Done(science), ProgressView::Done(science))
}

/// The fetcher has failed: it holds the failure and says so.
pub open spec fn fetch_failed(failure: FailureView) -> (FetchView, ProgressView<ScienceView>) {
    (FetchView::Failed(failure), ProgressView::Failed(failure))
}

/// One move of the fetcher.
///
/// A local source directory takes precedence: the tool is built from it
/// and nothing is looked up or downloaded. Otherwise the cache is asked
/// for the pinned version. A cached copy that matches its checksum is
/// used; one that does not is an integrity error, and is never used nor
/// replaced. Where the cache holds nothing the release is downloaded, held
/// to its checksum, and stored in the cache. Once the fetcher is done or
/// has failed, it stays so.
pub open spec fn fetch_step(context: BuildContextView, state: FetchView, event: EventView) -> (
    FetchView,
    ProgressView<ScienceView>,
) {
    match state {
        FetchView::Done(science) => fetched(science),
        FetchView::Failed(failure) => fetch_failed(failure),
        FetchView::Start => match context.science_repo {
            Some(source_dir) => (
                FetchView::Building,
                ProgressView::Next(StepView::BuildScience { source_dir }),
            ),
            None => (
                FetchView::Probing,
                ProgressView::Next(
                    StepView::Probe {
                        file: cached_science(context),
                        checksum_file: checksum_path(cached_science(context)),
                    },
                ),
            ),
        },
        FetchView::Building => match event {
            EventView::Built { exit, path } => match exit_failure(
                Stage::Fetch,
                "science"@,
                exit,
            ) {
                None => fetched(
                    ScienceView { tag: None, exe: path, origin: Origin::LocallyBuilt },
                ),
                Some(failure) => fetch_failed(failure),
            },
            _ => fetch_failed(interruption(ErrorKind::Configuration, Stage::Fetch, event)),
        },
        FetchView::Probing => match event {
            EventView::Missing => (
                FetchView::Downloading,
                ProgressView::Next(
                    StepView::Download {
                        url: science_url(context),
                        checksum_url: checksum_path(science_url(context)),
                        timeout_secs: fetch_timeout(),
                    },
                ),
            ),
            EventView::Found { bytes, checksum } => if matches_checksum(bytes, checksum) {
                fetched(
                    ScienceView {
                        tag: Some(context.science_tag),
                        exe: cached_science(context),
                        origin: Origin::Cached,
                    },
                )
            } else {
                fetch_failed(mismatch(Stage::Fetch, cached_science(context), bytes, checksum))
            },
            _ => fetch_failed(interruption(ErrorKind::Configuration, Stage::Fetch, event)),
        },
        FetchView::Downloading => match event {
            EventView::Found { bytes, checksum } => if matches_checksum(bytes, checksum) {
                (
                    FetchView::Storing,
                    ProgressView::Next(
                        StepView::Store {
                            file: cached_science(context),
                            checksum_file: checksum_path(cached_science(context)),
                            bytes,
                            checksum,
                        },
                    ),
                )
            } else {
                fetch_failed(mismatch(Stage::Fetch, science_url(context), bytes, checksum))
            },
            _ => fetch_failed(interruption(ErrorKind::Fetch, Stage::Fetch, event)),
        },
        FetchView::Storing => match event {
            EventView::Completed => fetched(
                ScienceView {
                    tag: Some(context.science_tag),
                    exe: cached_science(context),
                    origin: Origin::Downloaded,
                },
            ),
            _ => fetch_failed(interruption(ErrorKind::Configuration, Stage::Fetch, event)),
        },
    }
}

/// The state of the fetcher after a series of reports.
pub open spec fn fetch_run(context: BuildContextView, state: FetchView, events: Seq<EventView>)
    -> FetchView
    decreases events.len(),
{
    if events.len() == 0 {
        state
    } else {
        fetch_run(context, fetch_step(context, state, events[0]).0, events.skip(1))
    }
}

/// A fetch that has failed stays failed.
pub proof fn lemma_failed_fetch_stays(
    context: BuildContextView,
    failure: FailureView,
    events: Seq<EventView>,
)
    ensures
        fetch_run(context, FetchView::Failed(failure), events) == FetchView::Failed(failure),
    decreases events.len(),
{
    if events.len() > 0 {
        lemma_failed_fetch_stays(context, failure, events.skip(1));
    }
}

/// A cached copy of the tool that does not match its checksum ends the
/// fetch with an integrity error, whatever is reported afterwards: the
/// copy is never handed out.
pub proof fn corrupt_cache_is_fatal(
    context: BuildContextView,
    bytes: Seq<u8>,
    checksum: Seq<char>,
    later: Seq<EventView>,
)
    requires
        !matches_checksum(bytes, checksum),
    ensures
        ({
            let found = EventView::Found { bytes, checksum };
            let failure = mismatch(Stage::Fetch, cached_science(context), bytes, checksum);
            &&& failure.kind == ErrorKind::Integrity
            &&& fetch_step(context, FetchView::Probing, found) == fetch_failed(failure)
            &&& fetch_run(context, FetchView::Probing, seq![found] + later) == FetchView::Failed(
                failure,
            )
        }),
{
    let found = EventView::Found { bytes, checksum };
    let failure = mismatch(Stage::Fetch, cached_science(context), bytes, checksum);
    assert((seq![found] + later).skip(1) == later);
    lemma_failed_fetch_stays(context, failure, later);
}

impl BuildContext {
    /// The name under which the packaging tool is released for the
    /// platform.
    pub fn science_name(&self) -> (name: String)
        ensures
            name@ == science_name(self@),
    {
        self.binary_full_name("science")
    }

    /// Where the cache keeps the packaging tool.
    pub fn cached_science(&self) -> (path: String)
        ensures
            path@ == cached_science(self@),
    {
        let versions: String = join(self.cargo_output_root.as_str(), "science");
        let version: String = join(versions.as_str(), self.science_tag.as_str());
        let cache: String = join(version.as_str(), self.target.as_str());
        let name: String = self.science_name();
        join(cache.as_str(), name.as_str())
    }

    /// Where the pinned release of the packaging tool is downloaded
    /// from.
    pub fn science_url(&self) -> (url: String)
        ensures
            url@ == science_url(self@),
    {
        let name: String = self.science_name();
        self.science_releases.clone().concat("/").concat(self.science_tag.as_str()).concat(
            "/",
        ).concat(name.as_str())
    }
}

fn fetch_done(science: Science) -> (moved: (Fetch, Progress<Science>))
    ensures
        (moved.0@, moved.1@) == fetched(science@),
{
    let copy: Science = science.clone();
    (Fetch::Done(science), Progress::Done(copy))
}

fn fetch_fail(failure: Failure) -> (moved: (Fetch, Progress<Science>))
    ensures
        (moved.0@, moved.1@) == fetch_failed(failure@),
{
    let copy: Failure = failure.clone();
    (Fetch::Failed(failure), Progress::Failed(copy))
}

/// Moves the fetcher on by one report.
pub fn fetch_science(context: &BuildContext, state: Fetch, event: Event) -> (moved: (
    Fetch,
    Progress<Science>,
))
    ensures
        (moved.0@, moved.1@) == fetch_step(context@, state@, event@),
{
    match state {
        Fetch::Done(science) => fetch_done(science),
        Fetch::Failed(failure) => fetch_fail(failure),
        Fetch::Start => match &context.science_repo {
            Some(source_dir) => (
                Fetch::Building,
                Progress::Next(Step::BuildScience { source_dir: source_dir.clone() }),
            ),
            None => {
                let file: String = context.cached_science();
                let checksum_file: String = checksum_file(file.as_str());
                (Fetch::Probing, Progress::Next(Step::Probe { file, checksum_file }))
            },
        },
        Fetch::Building => match event {
            Event::Built { exit, path } => match exit.check(Stage::Fetch, "science") {
                Ok(()) => fetch_done(
                    Science { tag: None, exe: path, origin: Origin::LocallyBuilt },
                ),
                Err(failure) => fetch_fail(failure),
            },
            other => fetch_fail(interrupted(ErrorKind::Configuration, Stage::Fetch, other)),
        },
        Fetch::Probing => match event {
            Event::Missing => {
                let url: String = context.science_url();
                let checksum_url: String = checksum_file(url.as_str());
                (
                    Fetch::Downloading,
                    Progress::Next(Step::Download { url, checksum_url, timeout_secs: 300 }),
                )
            },
            Event::Found { bytes, checksum } => {
                let file: String = context.cached_science();
                match verify_digest(
                    Stage::Fetch,
                    file.as_str(),
                    bytes.as_slice(),
                    checksum.as_str(),
                ) {
                    Ok(()) => fetch_done(
                        Science {
                            tag: Some(context.science_tag.clone()),
                            exe: file,
                            origin: Origin::Cached,
                        },
                    ),
                    Err(failure) => fetch_fail(failure),
                }
            },
            other => fetch_fail(interrupted(ErrorKind::Configuration, Stage::Fetch, other)),
        },
        Fetch::Downloading => match event {
            Event::Found { bytes, checksum } => {
                let url: String = context.science_url();
                match verify_digest(
                    Stage::Fetch,
                    url.as_str(),
                    bytes.as_slice(),
                    checksum.as_str(),
                ) {
                    Ok(()) => {
                        let file: String = context.cached_science();
                        let checksum_file: String = checksum_file(file.as_str());
                        (
                            Fetch::Storing,
                            Progress::Next(Step::Store { file, checksum_file, bytes, checksum }),
                        )
                    },
                    Err(failure) => fetch_fail(failure),
                }
            },
            other => fetch_fail(interrupted(ErrorKind::Fetch, Stage::Fetch, other)),
        },
        Fetch::Storing => match event {
            Event::Completed => fetch_done(
                Science {
                    tag: Some(context.science_tag.clone()),
                    exe: context.cached_science(),
                    origin: Origin::Downloaded,
                },
            ),
            other => fetch_fail(interrupted(ErrorKind::Configuration, Stage::Fetch, other)),
        },
    }
}

} // verus!
