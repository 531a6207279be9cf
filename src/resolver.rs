use vstd::prelude::*;
use crate::error::{spec_message, ErrorModel, ResolveError};
use crate::platform::{
    archive_format, asset_file_name, binary_path, spec_archive_format, spec_asset_file_name,
    spec_binary_path, spec_version_dir, version_dir, Architecture, ArchiveFormat, Os,
};
use crate::release::{find_asset, spec_find_asset, Release, ReleaseModel};

verus! {

/// The executable name tried first on the search path.
pub const PRIMARY_EXECUTABLE: &'static str = "emmylua_ls";

/// The executable name tried when the primary one is absent.
pub const ALIAS_EXECUTABLE: &'static str = "emmylua";

/// The repository whose releases carry the server builds.
pub const RELEASE_REPOSITORY: &'static str = "EmmyLuaLs/emmylua-analyzer-rust";

/// Progress reported to the host; it never changes what happens next.
#[derive(Clone, Copy, Debug, PartialEq, Eq, Structural)]
pub enum InstallStatus {
    CheckingForUpdate,
    Downloading,
}

/// The cached location of a previously resolved server binary.
///
/// A cached path was valid when it was stored but may have gone stale since;
/// the resolver checks it again before use.
pub struct ServerHandle {
    cached_binary_path: Option<String>,
}

pub open spec fn opt_view(o: Option<String>) -> Option<Seq<char>> {
    match o {
        Some(s) => Some(s@),
        None => None,
    }
}

impl View for ServerHandle {
    type V = Option<Seq<char>>;

    closed spec fn view(&self) -> Option<Seq<char>> {
        opt_view(self.cached_binary_path)
    }
}

impl ServerHandle {
    /// A handle with nothing cached.
    pub fn new() -> (r: ServerHandle)
        ensures
            r@ == None::<Seq<char>>,
    {
        ServerHandle { cached_binary_path: None }
    }

    /// A handle that already remembers `path`.
    pub fn with_cached_path(path: String) -> (r: ServerHandle)
        ensures
            r@ == Some(path@),
    {
        ServerHandle { cached_binary_path: Some(path) }
    }

    /// The remembered path, if any.
    pub fn cached_path(&self) -> (r: Option<String>)
        ensures
            opt_view(r) == self@,
    {
        match &self.cached_binary_path {
            Some(p) => Some(p.clone()),
            None => None,
        }
    }
}

/// What the host reports back after carrying out an `Action`.
pub enum Event {
    /// Starts a resolution, with the binary path from the user's settings, if any.
    Begin { configured_path: Option<String> },
    /// The search-path lookup of the requested executable name.
    Probed { path: Option<String> },
    /// Whether the requested path names a regular file.
    FileChecked { is_file: bool },
    /// The status report was delivered.
    Reported,
    /// The latest qualifying release, or why it could not be had.
    ReleaseFetched { release: Result<Release, String> },
    /// The outcome of downloading and unpacking the asset.
    Downloaded { result: Result<(), String> },
    /// The names of the working directory's entries, or why they could not be listed.
    Listed { entries: Result<Vec<String>, String> },
    /// The requested removals were attempted; their failures do not matter.
    Removed,
}

/// What the host must do next.
pub enum Action {
    /// Look up an executable of this name on the search path.
    Probe { name: String },
    /// Check whether this path names a regular file.
    CheckFile { path: String },
    /// Report this status to the host.
    Report { status: InstallStatus },
    /// Fetch the latest release of the repository that has assets and is no pre-release.
    FetchLatestRelease { repository: String },
    /// Download the archive at `url` and unpack it into `directory`.
    Download { url: String, directory: String, format: ArchiveFormat },
    /// List the names of the working directory's entries.
    ListWorkingDirectory,
    /// Remove each of these entries recursively, ignoring failures.
    RemoveEntries { names: Vec<String> },
    /// Resolution succeeded with this path.
    Done { path: String },
    /// Resolution failed.
    Fail { error: ResolveError },
}

/// Where a resolution stands.
pub enum Phase {
    Start,
    ProbingPrimary,
    ProbingAlias,
    CheckingCache { cached: String },
    AnnouncingCheck { asset_name: String },
    Fetching { asset_name: String },
    CheckingBinary { url: String, dir: String, binary: String },
    AnnouncingDownload { url: String, dir: String, binary: String },
    Downloading { dir: String, binary: String },
    Listing { dir: String, binary: String },
    Cleaning { binary: String },
    Finished,
}

pub enum EventModel {
    Begin(Option<Seq<char>>),
    Probed(Option<Seq<char>>),
    FileChecked(bool),
    Reported,
    ReleaseFetched(Result<ReleaseModel, Seq<char>>),
    Downloaded(Result<(), Seq<char>>),
    Listed(Result<Seq<Seq<char>>, Seq<char>>),
    Removed,
}

pub enum ActionModel {
    Probe(Seq<char>),
    CheckFile(Seq<char>),
    Report(InstallStatus),
    FetchLatestRelease(Seq<char>),
    Download(Seq<char>, Seq<char>, ArchiveFormat),
    ListWorkingDirectory,
    RemoveEntries(Seq<Seq<char>>),
    Done(Seq<char>),
    Fail(ErrorModel),
}

pub enum PhaseModel {
    Start,
    ProbingPrimary,
    ProbingAlias,
    CheckingCache(Seq<char>),
    AnnouncingCheck(Seq<char>),
    Fetching(Seq<char>),
    CheckingBinary(Seq<char>, Seq<char>, Seq<char>),
    AnnouncingDownload(Seq<char>, Seq<char>, Seq<char>),
    Downloading(Seq<char>, Seq<char>),
    Listing(Seq<char>, Seq<char>),
    Cleaning(Seq<char>),
    Finished,
}

pub open spec fn names_view(names: Seq<String>) -> Seq<Seq<char>> {
    names.map_values(|s: String| s@)
}

impl View for Event {
    type V = EventModel;

    open spec fn view(&self) -> EventModel {
        match self {
            Event::Begin { configured_path } => EventModel::Begin(opt_view(*configured_path)),
            Event::Probed { path } => EventModel::Probed(opt_view(*path)),
            Event::FileChecked { is_file } => EventModel::FileChecked(*is_file),
            Event::Reported => EventModel::Reported,
            Event::ReleaseFetched { release } => EventModel::ReleaseFetched(
                match release {
                    Ok(r) => Ok(r@),
                    Err(m) => Err(m@),
                },
            ),
            Event::Downloaded { result } => EventModel::Downloaded(
                match result {
                    Ok(u) => Ok(()),
                    Err(m) => Err(m@),
                },
            ),
            Event::Listed { entries } => EventModel::Listed(
                match entries {
                    Ok(names) => Ok(names_view(names@)),
                    Err(m) => Err(m@),
                },
            ),
            Event::Removed => EventModel::Removed,
        }
    }
}

impl View for Action {
    type V = ActionModel;

    open spec fn view(&self) -> ActionModel {
        match self {
            Action::Probe { name } => ActionModel::Probe(name@),
            Action::CheckFile { path } => ActionModel::CheckFile(path@),
            Action::Report { status } => ActionModel::Report(*status),
            Action::FetchLatestRelease { repository } => ActionModel::FetchLatestRelease(
                repository@,
            ),
            Action::Download { url, directory, format } => ActionModel::Download(
                url@,
                directory@,
                *format,
            ),
            Action::ListWorkingDirectory => ActionModel::ListWorkingDirectory,
            Action::RemoveEntries { names } => ActionModel::RemoveEntries(names_view(names@)),
            Action::Done { path } => ActionModel::Done(path@),
            Action::Fail { error } => ActionModel::Fail(error@),
        }
    }
}

impl View for Phase {
    type V = PhaseModel;

    open spec fn view(&self) -> PhaseModel {
        match self {
            Phase::Start => PhaseModel::Start,
            Phase::ProbingPrimary => PhaseModel::ProbingPrimary,
            Phase::ProbingAlias => PhaseModel::ProbingAlias,
            Phase::CheckingCache { cached } => PhaseModel::CheckingCache(cached@),
            Phase::AnnouncingCheck { asset_name } => PhaseModel::AnnouncingCheck(asset_name@),
            Phase::Fetching { asset_name } => PhaseModel::Fetching(asset_name@),
            Phase::CheckingBinary { url, dir, binary } => PhaseModel::CheckingBinary(
                url@,
                dir@,
                binary@,
            ),
            Phase::AnnouncingDownload { url, dir, binary } => PhaseModel::AnnouncingDownload(
                url@,
                dir@,
                binary@,
            ),
            Phase::Downloading { dir, binary } => PhaseModel::Downloading(dir@, binary@),
            Phase::Listing { dir, binary } => PhaseModel::Listing(dir@, binary@),
            Phase::Cleaning { binary } => PhaseModel::Cleaning(binary@),
            Phase::Finished => PhaseModel::Finished,
        }
    }
}

/// Whether `phase` waits for an event of the kind of `ev`.
pub open spec fn accepts(phase: PhaseModel, ev: EventModel) -> bool {
    match (phase, ev) {
        (PhaseModel::Start, EventModel::Begin(_)) => true,
        (PhaseModel::ProbingPrimary, EventModel::Probed(_)) => true,
        (PhaseModel::ProbingAlias, EventModel::Probed(_)) => true,
        (PhaseModel::CheckingCache(_), EventModel::FileChecked(_)) => true,
        (PhaseModel::AnnouncingCheck(_), EventModel::Reported) => true,
        (PhaseModel::Fetching(_), EventModel::ReleaseFetched(_)) => true,
        (PhaseModel::CheckingBinary(_, _, _), EventModel::FileChecked(_)) => true,
        (PhaseModel::AnnouncingDownload(_, _, _), EventModel::Reported) => true,
        (PhaseModel::Downloading(_, _), EventModel::Downloaded(_)) => true,
        (PhaseModel::Listing(_, _), EventModel::Listed(_)) => true,
        (PhaseModel::Cleaning(_), EventModel::Removed) => true,
        _ => false,
    }
}

/// The entries of the working directory that cleanup removes: all but `keep`.
pub open spec fn stale_entries(entries: Seq<Seq<char>>, keep: Seq<char>) -> Seq<Seq<char>> {
    entries.filter(other_than(keep))
}

pub open spec fn other_than(keep: Seq<char>) -> spec_fn(Seq<char>) -> bool {
    |e: Seq<char>| e != keep
}

/// Local lookups found nothing: fetch a release, unless the platform has no build.
pub open spec fn begin_fetch(os: Os, arch: Architecture) -> (PhaseModel, ActionModel) {
    match spec_asset_file_name(os, arch) {
        Some(name) => (
            PhaseModel::AnnouncingCheck(name),
            ActionModel::Report(InstallStatus::CheckingForUpdate),
        ),
        None => (PhaseModel::Finished, ActionModel::Fail(ErrorModel::UnsupportedPlatform)),
    }
}

/// One step of resolution: the next phase, the next cache, and the action to perform.
pub open spec fn next(
    os: Os,
    arch: Architecture,
    phase: PhaseModel,
    cache: Option<Seq<char>>,
    ev: EventModel,
) -> (PhaseModel, Option<Seq<char>>, ActionModel) {
    match (phase, ev) {
        (PhaseModel::Start, EventModel::Begin(Some(p))) => (
            PhaseModel::Finished,
            cache,
            ActionModel::Done(p),
        ),
        (PhaseModel::Start, EventModel::Begin(None)) => (
            PhaseModel::ProbingPrimary,
            cache,
            ActionModel::Probe(PRIMARY_EXECUTABLE@),
        ),
        (PhaseModel::ProbingPrimary, EventModel::Probed(Some(p))) => (
            PhaseModel::Finished,
            cache,
            ActionModel::Done(p),
        ),
        (PhaseModel::ProbingPrimary, EventModel::Probed(None)) => (
            PhaseModel::ProbingAlias,
            cache,
            ActionModel::Probe(ALIAS_EXECUTABLE@),
        ),
        (PhaseModel::ProbingAlias, EventModel::Probed(Some(p))) => (
            PhaseModel::Finished,
            cache,
            ActionModel::Done(p),
        ),
        (PhaseModel::ProbingAlias, EventModel::Probed(None)) => match cache {
            Some(c) => (PhaseModel::CheckingCache(c), cache, ActionModel::CheckFile(c)),
            None => (begin_fetch(os, arch).0, cache, begin_fetch(os, arch).1),
        },
        (PhaseModel::CheckingCache(c), EventModel::FileChecked(true)) => (
            PhaseModel::Finished,
            cache,
            ActionModel::Done(c),
        ),
        (PhaseModel::CheckingCache(c), EventModel::FileChecked(false)) => (
            begin_fetch(os, arch).0,
            cache,
            begin_fetch(os, arch).1,
        ),
        (PhaseModel::AnnouncingCheck(name), EventModel::Reported) => (
            PhaseModel::Fetching(name),
            cache,
            ActionModel::FetchLatestRelease(RELEASE_REPOSITORY@),
        ),
        (PhaseModel::Fetching(name), EventModel::ReleaseFetched(Err(m))) => (
            PhaseModel::Finished,
            cache,
            ActionModel::Fail(ErrorModel::ReleaseNotFound(m)),
        ),
        (PhaseModel::Fetching(name), EventModel::ReleaseFetched(Ok(rel))) => match spec_find_asset(
            rel.assets,
            name,
        ) {
            None => (
                PhaseModel::Finished,
                cache,
                ActionModel::Fail(ErrorModel::AssetNotFound(name)),
            ),
            Some(asset) => (
                PhaseModel::CheckingBinary(
                    asset.url,
                    spec_version_dir(rel.version),
                    spec_binary_path(os, rel.version),
                ),
                cache,
                ActionModel::CheckFile(spec_binary_path(os, rel.version)),
            ),
        },
        (PhaseModel::CheckingBinary(url, dir, bin), EventModel::FileChecked(true)) => (
            PhaseModel::Finished,
            Some(bin),
            ActionModel::Done(bin),
        ),
        (PhaseModel::CheckingBinary(url, dir, bin), EventModel::FileChecked(false)) => (
            PhaseModel::AnnouncingDownload(url, dir, bin),
            cache,
            ActionModel::Report(InstallStatus::Downloading),
        ),
        (PhaseModel::AnnouncingDownload(url, dir, bin), EventModel::Reported) => (
            PhaseModel::Downloading(dir, bin),
            cache,
            ActionModel::Download(url, dir, spec_archive_format(os)),
        ),
        (PhaseModel::Downloading(dir, bin), EventModel::Downloaded(Err(m))) => (
            PhaseModel::Finished,
            cache,
            ActionModel::Fail(ErrorModel::DownloadFailed(m)),
        ),
        (PhaseModel::Downloading(dir, bin), EventModel::Downloaded(Ok(_))) => (
            PhaseModel::Listing(dir, bin),
            cache,
            ActionModel::ListWorkingDirectory,
        ),
        (PhaseModel::Listing(dir, bin), EventModel::Listed(Err(m))) => (
            PhaseModel::Finished,
            cache,
            ActionModel::Fail(ErrorModel::DirectoryListFailed(m)),
        ),
        (PhaseModel::Listing(dir, bin), EventModel::Listed(Ok(entries))) => (
            PhaseModel::Cleaning(bin),
            cache,
            ActionModel::RemoveEntries(stale_entries(entries, dir)),
        ),
        (PhaseModel::Cleaning(bin), EventModel::Removed) => (
            PhaseModel::Finished,
            Some(bin),
            ActionModel::Done(bin),
        ),
        // An event that the phase does not wait for: `step` never takes one.
        _ => (phase, cache, ActionModel::ListWorkingDirectory),
    }
}

/// The entries to remove after unpacking into `keep`: every name but `keep`, in listed order.
pub fn stale_entry_names(entries: &Vec<String>, keep: &String) -> (r: Vec<String>)
    ensures
        names_view(r@) == stale_entries(names_view(entries@), keep@),
{
    let ghost all = names_view(entries@);
    let mut out: Vec<String> = Vec::new();
    let mut i: usize = 0;
    while i < entries.len()
        invariant
            0 <= i <= entries@.len(),
            all == names_view(entries@),
            names_view(out@) == stale_entries(all.subrange(0, i as int), keep@),
        decreases entries.len() - i,
    {
        let entry = &entries[i];
        proof {
            assert(all.subrange(0, i + 1).drop_last() =~= all.subrange(0, i as int));
            assert(all.subrange(0, i + 1).last() == entry@);
            reveal(Seq::filter);
        }
        if !(*entry == *keep) {
            out.push(entry.clone());
            assert(names_view(out@) =~= stale_entries(all.subrange(0, i as int), keep@).push(
                entry@,
            ));
        }
        i = i + 1;
    }
    assert(all.subrange(0, entries@.len() as int) =~= all);
    out
}

pub struct ResolverModel {
    pub os: Os,
    pub arch: Architecture,
    pub phase: PhaseModel,
}

/// One resolution of the server binary for a platform, driven event by event.
///
/// The host performs each returned `Action` and hands its outcome back to
/// `step` as an `Event`, until the action is `Done` or `Fail`.
pub struct Resolver {
    os: Os,
    arch: Architecture,
    phase: Phase,
}

impl View for Resolver {
    type V = ResolverModel;

    closed spec fn view(&self) -> ResolverModel {
        ResolverModel { os: self.os, arch: self.arch, phase: self.phase@ }
    }
}

impl Resolver {
    /// A resolution that has not begun, for the host's platform.
    pub fn new(os: Os, arch: Architecture) -> (r: Resolver)
        ensures
            r@ == (ResolverModel { os, arch, phase: PhaseModel::Start }),
    {
        Resolver { os, arch, phase: Phase::Start }
    }

    /// Whether the resolution has ended, with `Done` or `Fail`.
    pub fn is_finished(&self) -> (r: bool)
        ensures
            r == (self@.phase is Finished),
    {
        match self.phase {
            Phase::Finished => true,
            _ => false,
        }
    }

    /// Whether `event` is of the kind that the resolution waits for.
    pub fn accepts_event(&self, event: &Event) -> (r: bool)
        ensures
            r == accepts(self@.phase, event@),
    {
        match (&self.phase, event) {
            (Phase::Start, Event::Begin { .. }) => true,
            (Phase::ProbingPrimary, Event::Probed { .. }) => true,
            (Phase::ProbingAlias, Event::Probed { .. }) => true,
            (Phase::CheckingCache { .. }, Event::FileChecked { .. }) => true,
            (Phase::AnnouncingCheck { .. }, Event::Reported) => true,
            (Phase::Fetching { .. }, Event::ReleaseFetched { .. }) => true,
            (Phase::CheckingBinary { .. }, Event::FileChecked { .. }) => true,
            (Phase::AnnouncingDownload { .. }, Event::Reported) => true,
            (Phase::Downloading { .. }, Event::Downloaded { .. }) => true,
            (Phase::Listing { .. }, Event::Listed { .. }) => true,
            (Phase::Cleaning { .. }, Event::Removed) => true,
            _ => false,
        }
    }

    /// Nothing usable was found locally: name the asset to fetch, or fail on a
    /// platform without builds before any network use.
    fn begin_fetch(&mut self) -> (r: Action)
        ensures
            final(self)@.os == old(self)@.os,
            final(self)@.arch == old(self)@.arch,
            (final(self)@.phase, r@) == begin_fetch(old(self)@.os, old(self)@.arch),
    {
        match asset_file_name(self.os, self.arch) {
            Some(name) => {
                self.phase = Phase::AnnouncingCheck { asset_name: name };
                Action::Report { status: InstallStatus::CheckingForUpdate }
            },
            None => {
                self.phase = Phase::Finished;
                Action::Fail { error: ResolveError::UnsupportedPlatform }
            },
        }
    }

    /// Advances the resolution by the outcome of the last action.
    ///
    /// The cache is read before the network is used and written when a
    /// fetched binary is ready.
    pub fn step(&mut self, handle: &mut ServerHandle, event: Event) -> (r: Action)
        requires
            accepts(old(self)@.phase, event@),
        ensures
            final(self)@.os == old(self)@.os,
            final(self)@.arch == old(self)@.arch,
            (final(self)@.phase, final(handle)@, r@) == next(
                old(self)@.os,
                old(self)@.arch,
                old(self)@.phase,
                old(handle)@,
                event@,
            ),
    {
        let mut phase = Phase::Finished;
        core::mem::swap(&mut self.phase, &mut phase);
        match phase {
            Phase::Start => match event {
                Event::Begin { configured_path: Some(path) } => Action::Done { path },
                _ => {
                    self.phase = Phase::ProbingPrimary;
                    Action::Probe { name: String::from_str(PRIMARY_EXECUTABLE) }
                },
            },
            Phase::ProbingPrimary => match event {
                Event::Probed { path: Some(path) } => Action::Done { path },
                _ => {
                    self.phase = Phase::ProbingAlias;
                    Action::Probe { name: String::from_str(ALIAS_EXECUTABLE) }
                },
            },
            Phase::ProbingAlias => match event {
                Event::Probed { path: Some(path) } => Action::Done { path },
                _ => match handle.cached_path() {
                    Some(cached) => {
                        let path = cached.clone();
                        self.phase = Phase::CheckingCache { cached };
                        Action::CheckFile { path }
                    },
                    None => self.begin_fetch(),
                },
            },
            Phase::CheckingCache { cached } => match event {
                Event::FileChecked { is_file: true } => Action::Done { path: cached },
                _ => self.begin_fetch(),
            },
            Phase::AnnouncingCheck { asset_name } => {
                self.phase = Phase::Fetching { asset_name };
                Action::FetchLatestRelease { repository: String::from_str(RELEASE_REPOSITORY) }
            },
            Phase::Fetching { asset_name } => match event {
                Event::ReleaseFetched { release: Ok(release) } => match find_asset(
                    &release,
                    &asset_name,
                ) {
                    Some(asset) => {
                        let url = asset.download_url.clone();
                        let dir = version_dir(release.version.as_str());
                        let binary = binary_path(self.os, release.version.as_str());
                        let path = binary.clone();
                        self.phase = Phase::CheckingBinary { url, dir, binary };
                        Action::CheckFile { path }
                    },
                    None => Action::Fail { error: ResolveError::AssetNotFound { asset_name } },
                },
                Event::ReleaseFetched { release: Err(reason) } => Action::Fail {
                    error: ResolveError::ReleaseNotFound { reason },
                },
                _ => Action::ListWorkingDirectory,
            },
            Phase::CheckingBinary { url, dir, binary } => match event {
                Event::FileChecked { is_file: true } => {
                    handle.cached_binary_path = Some(binary.clone());
                    Action::Done { path: binary }
                },
                _ => {
                    self.phase = Phase::AnnouncingDownload { url, dir, binary };
                    Action::Report { status: InstallStatus::Downloading }
                },
            },
            Phase::AnnouncingDownload { url, dir, binary } => {
                let directory = dir.clone();
                self.phase = Phase::Downloading { dir, binary };
                Action::Download { url, directory, format: archive_format(self.os) }
            },
            Phase::Downloading { dir, binary } => match event {
                Event::Downloaded { result: Err(reason) } => Action::Fail {
                    error: ResolveError::DownloadFailed { reason },
                },
                _ => {
                    self.phase = Phase::Listing { dir, binary };
                    Action::ListWorkingDirectory
                },
            },
            Phase::Listing { dir, binary } => match event {
                Event::Listed { entries: Ok(entries) } => {
                    let names = stale_entry_names(&entries, &dir);
                    self.phase = Phase::Cleaning { binary };
                    Action::RemoveEntries { names }
                },
                Event::Listed { entries: Err(reason) } => Action::Fail {
                    error: ResolveError::DirectoryListFailed { reason },
                },
                _ => Action::ListWorkingDirectory,
            },
            Phase::Cleaning { binary } => {
                handle.cached_binary_path = Some(binary.clone());
                Action::Done { path: binary }
            },
            Phase::Finished => Action::ListWorkingDirectory,
        }
    }
}

/// The phase, cache and actions after feeding `events` one by one, starting from `phase`.
pub open spec fn run(
    os: Os,
    arch: Architecture,
    phase: PhaseModel,
    cache: Option<Seq<char>>,
    events: Seq<EventModel>,
) -> (PhaseModel, Option<Seq<char>>, Seq<ActionModel>)
    decreases events.len(),
{
    if events.len() == 0 {
        (phase, cache, Seq::empty())
    } else {
        let (p, c, a) = next(os, arch, phase, cache, events[0]);
        let (p2, c2, rest) = run(os, arch, p, c, events.drop_first());
        (p2, c2, seq![a] + rest)
    }
}

proof fn lemma_run_one(
    os: Os,
    arch: Architecture,
    phase: PhaseModel,
    cache: Option<Seq<char>>,
    events: Seq<EventModel>,
)
    requires
        events.len() > 0,
    ensures
        run(os, arch, phase, cache, events) == ({
            let (p, c, a) = next(os, arch, phase, cache, events[0]);
            let (p2, c2, rest) = run(os, arch, p, c, events.drop_first());
            (p2, c2, seq![a] + rest)
        }),
{
}

/// A binary path from the user's settings is returned at once: nothing is
/// probed, checked or fetched, and the resolution is over.
pub proof fn lemma_configured_path_wins(
    os: Os,
    arch: Architecture,
    cache: Option<Seq<char>>,
    path: Seq<char>,
)
    ensures
        next(os, arch, PhaseModel::Start, cache, EventModel::Begin(Some(path))) == (
        PhaseModel::Finished,
        cache,
        ActionModel::Done(path),
        ),
        forall|ev: EventModel| !accepts(PhaseModel::Finished, ev),
{
}

/// With nothing on the search path and a cached path that still names a
/// file, resolution returns that path and never reaches the network.
pub proof fn lemma_cached_file_reused(os: Os, arch: Architecture, cached: Seq<char>)
    ensures
        run(
            os,
            arch,
            PhaseModel::Start,
            Some(cached),
            seq![
                EventModel::Begin(None),
                EventModel::Probed(None),
                EventModel::Probed(None),
                EventModel::FileChecked(true),
            ],
        ) == (
        PhaseModel::Finished,
        Some(cached),
        seq![
            ActionModel::Probe(PRIMARY_EXECUTABLE@),
            ActionModel::Probe(ALIAS_EXECUTABLE@),
            ActionModel::CheckFile(cached),
            ActionModel::Done(cached),
        ],
        ),
{
    let evs = seq![
        EventModel::Begin(None),
        EventModel::Probed(None),
        EventModel::Probed(None),
        EventModel::FileChecked(true),
    ];
    lemma_run_one(os, arch, PhaseModel::Start, Some(cached), evs);
    lemma_run_one(os, arch, PhaseModel::ProbingPrimary, Some(cached), evs.drop_first());
    lemma_run_one(os, arch, PhaseModel::ProbingAlias, Some(cached), evs.drop_first().drop_first());
    lemma_run_one(
        os,
        arch,
        PhaseModel::CheckingCache(cached),
        Some(cached),
        evs.drop_first().drop_first().drop_first(),
    );
    assert(evs.drop_first().drop_first().drop_first().drop_first().len() == 0);
    assert(seq![ActionModel::Probe(PRIMARY_EXECUTABLE@)] + (seq![
        ActionModel::Probe(ALIAS_EXECUTABLE@),
    ] + (seq![ActionModel::CheckFile(cached)] + (seq![ActionModel::Done(cached)]
        + Seq::empty()))) =~= seq![
        ActionModel::Probe(PRIMARY_EXECUTABLE@),
        ActionModel::Probe(ALIAS_EXECUTABLE@),
        ActionModel::CheckFile(cached),
        ActionModel::Done(cached),
    ]);
}

/// A cached path whose file has gone is not returned: resolution moves on to
/// fetching a release (or fails at once on a platform without builds).
pub proof fn lemma_stale_cache_refetched(os: Os, arch: Architecture, cached: Seq<char>)
    ensures
        run(
            os,
            arch,
            PhaseModel::Start,
            Some(cached),
            seq![
                EventModel::Begin(None),
                EventModel::Probed(None),
                EventModel::Probed(None),
                EventModel::FileChecked(false),
            ],
        ) == (
        begin_fetch(os, arch).0,
        Some(cached),
        seq![
            ActionModel::Probe(PRIMARY_EXECUTABLE@),
            ActionModel::Probe(ALIAS_EXECUTABLE@),
            ActionModel::CheckFile(cached),
            begin_fetch(os, arch).1,
        ],
        ),
        begin_fetch(os, arch).1 != ActionModel::Done(cached),
        arch != Architecture::X86 ==> begin_fetch(os, arch).1 == ActionModel::Report(
            InstallStatus::CheckingForUpdate,
        ) && begin_fetch(os, arch).0 == PhaseModel::AnnouncingCheck(
            spec_asset_file_name(os, arch)->0,
        ),
{
    let evs = seq![
        EventModel::Begin(None),
        EventModel::Probed(None),
        EventModel::Probed(None),
        EventModel::FileChecked(false),
    ];
    lemma_run_one(os, arch, PhaseModel::Start, Some(cached), evs);
    lemma_run_one(os, arch, PhaseModel::ProbingPrimary, Some(cached), evs.drop_first());
    lemma_run_one(os, arch, PhaseModel::ProbingAlias, Some(cached), evs.drop_first().drop_first());
    lemma_run_one(
        os,
        arch,
        PhaseModel::CheckingCache(cached),
        Some(cached),
        evs.drop_first().drop_first().drop_first(),
    );
    assert(evs.drop_first().drop_first().drop_first().drop_first().len() == 0);
    assert(seq![ActionModel::Probe(PRIMARY_EXECUTABLE@)] + (seq![
        ActionModel::Probe(ALIAS_EXECUTABLE@),
    ] + (seq![ActionModel::CheckFile(cached)] + (seq![begin_fetch(os, arch).1]
        + Seq::empty()))) =~= seq![
        ActionModel::Probe(PRIMARY_EXECUTABLE@),
        ActionModel::Probe(ALIAS_EXECUTABLE@),
        ActionModel::CheckFile(cached),
        begin_fetch(os, arch).1,
    ]);
}

/// On 32-bit x86 the resolution fails with `UnsupportedPlatform` as soon as
/// the local lookups are exhausted, before any status report or network use.
pub proof fn lemma_x86_fails_before_network(os: Os)
    ensures
        run(
            os,
            Architecture::X86,
            PhaseModel::Start,
            None,
            seq![EventModel::Begin(None), EventModel::Probed(None), EventModel::Probed(None)],
        ) == (
        PhaseModel::Finished,
        None::<Seq<char>>,
        seq![
            ActionModel::Probe(PRIMARY_EXECUTABLE@),
            ActionModel::Probe(ALIAS_EXECUTABLE@),
            ActionModel::Fail(ErrorModel::UnsupportedPlatform),
        ],
        ),
        begin_fetch(os, Architecture::X86) == (
        PhaseModel::Finished,
        ActionModel::Fail(ErrorModel::UnsupportedPlatform),
        ),
{
    let arch = Architecture::X86;
    let evs = seq![EventModel::Begin(None), EventModel::Probed(None), EventModel::Probed(None)];
    lemma_run_one(os, arch, PhaseModel::Start, None, evs);
    lemma_run_one(os, arch, PhaseModel::ProbingPrimary, None, evs.drop_first());
    lemma_run_one(os, arch, PhaseModel::ProbingAlias, None, evs.drop_first().drop_first());
    assert(evs.drop_first().drop_first().drop_first().len() == 0);
    assert(seq![ActionModel::Probe(PRIMARY_EXECUTABLE@)] + (seq![
        ActionModel::Probe(ALIAS_EXECUTABLE@),
    ] + (seq![ActionModel::Fail(ErrorModel::UnsupportedPlatform)] + Seq::empty()))
        =~= seq![
        ActionModel::Probe(PRIMARY_EXECUTABLE@),
        ActionModel::Probe(ALIAS_EXECUTABLE@),
        ActionModel::Fail(ErrorModel::UnsupportedPlatform),
    ]);
}

/// A release without an asset of the expected name ends in `AssetNotFound`
/// for that name, and the error's message quotes it.
pub proof fn lemma_missing_asset_reported(
    os: Os,
    arch: Architecture,
    cache: Option<Seq<char>>,
    name: Seq<char>,
    release: ReleaseModel,
)
    requires
        spec_find_asset(release.assets, name) is None,
    ensures
        next(os, arch, PhaseModel::Fetching(name), cache, EventModel::ReleaseFetched(Ok(release)))
            == (PhaseModel::Finished, cache, ActionModel::Fail(ErrorModel::AssetNotFound(name))),
        exists|k: int|
            0 <= k && k + name.len() <= spec_message(ErrorModel::AssetNotFound(name)).len()
                && #[trigger] spec_message(ErrorModel::AssetNotFound(name)).subrange(
                k,
                k + name.len(),
            ) == name,
{
    let prefix = "no asset found matching \""@;
    let m = spec_message(ErrorModel::AssetNotFound(name));
    assert(m.subrange(prefix.len() as int, (prefix.len() + name.len()) as int) =~= name);
}

/// Cleanup removes exactly the entries whose name differs from the kept one.
pub proof fn lemma_stale_entries_exact(entries: Seq<Seq<char>>, keep: Seq<char>)
    ensures
        forall|e: Seq<char>|
            #[trigger] stale_entries(entries, keep).contains(e) <==> (entries.contains(e) && e
                != keep),
{
    let pred = other_than(keep);
    assert forall|e: Seq<char>|
        #[trigger] stale_entries(entries, keep).contains(e) <==> (entries.contains(e) && e
            != keep) by {
        if stale_entries(entries, keep).contains(e) {
            entries.lemma_filter_contains_rev(pred, e);
            let i = choose|i: int|
                0 <= i < entries.filter(pred).len() && entries.filter(pred)[i] == e;
            entries.lemma_filter_pred(pred, i);
        }
        if entries.contains(e) && e != keep {
            let i = choose|i: int| 0 <= i < entries.len() && entries[i] == e;
            entries.lemma_filter_contains(pred, i);
        }
    }
}

/// When the release's binary is already unpacked, provisioning hands it back
/// and caches it with no download and no cleanup.
pub proof fn lemma_present_binary_not_downloaded(
    os: Os,
    arch: Architecture,
    cache: Option<Seq<char>>,
    name: Seq<char>,
    release: ReleaseModel,
)
    requires
        spec_find_asset(release.assets, name) is Some,
    ensures
        run(
            os,
            arch,
            PhaseModel::Fetching(name),
            cache,
            seq![EventModel::ReleaseFetched(Ok(release)), EventModel::FileChecked(true)],
        ) == (
        PhaseModel::Finished,
        Some(spec_binary_path(os, release.version)),
        seq![
            ActionModel::CheckFile(spec_binary_path(os, release.version)),
            ActionModel::Done(spec_binary_path(os, release.version)),
        ],
        ),
{
    let bin = spec_binary_path(os, release.version);
    let asset = spec_find_asset(release.assets, name)->0;
    let evs = seq![EventModel::ReleaseFetched(Ok(release)), EventModel::FileChecked(true)];
    lemma_run_one(os, arch, PhaseModel::Fetching(name), cache, evs);
    lemma_run_one(
        os,
        arch,
        PhaseModel::CheckingBinary(asset.url, spec_version_dir(release.version), bin),
        cache,
        evs.drop_first(),
    );
    assert(evs.drop_first().drop_first().len() == 0);
    assert(seq![ActionModel::CheckFile(bin)] + (seq![ActionModel::Done(bin)] + Seq::empty())
        =~= seq![ActionModel::CheckFile(bin), ActionModel::Done(bin)]);
}

/// A provisioning that downloads the release ends with the binary cached, and
/// its cleanup removes every entry of the working directory but the new
/// version directory.
pub proof fn lemma_provisioning_cleans_up(
    os: Os,
    arch: Architecture,
    cache: Option<Seq<char>>,
    name: Seq<char>,
    release: ReleaseModel,
    entries: Seq<Seq<char>>,
)
    requires
        spec_find_asset(release.assets, name) is Some,
    ensures
        ({
            let dir = spec_version_dir(release.version);
            let bin = spec_binary_path(os, release.version);
            let url = spec_find_asset(release.assets, name)->0.url;
            run(
                os,
                arch,
                PhaseModel::Fetching(name),
                cache,
                seq![
                    EventModel::ReleaseFetched(Ok(release)),
                    EventModel::FileChecked(false),
                    EventModel::Reported,
                    EventModel::Downloaded(Ok(())),
                    EventModel::Listed(Ok(entries)),
                    EventModel::Removed,
                ],
            ) == (
            PhaseModel::Finished,
            Some(bin),
            seq![
                ActionModel::CheckFile(bin),
                ActionModel::Report(InstallStatus::Downloading),
                ActionModel::Download(url, dir, spec_archive_format(os)),
                ActionModel::ListWorkingDirectory,
                ActionModel::RemoveEntries(stale_entries(entries, dir)),
                ActionModel::Done(bin),
            ],
            )
        }),
        forall|e: Seq<char>|
            #[trigger] stale_entries(entries, spec_version_dir(release.version)).contains(e) <==> (
            entries.contains(e) && e != spec_version_dir(release.version)),
{
    let dir = spec_version_dir(release.version);
    let bin = spec_binary_path(os, release.version);
    let url = spec_find_asset(release.assets, name)->0.url;
    let e0 = seq![
        EventModel::ReleaseFetched(Ok(release)),
        EventModel::FileChecked(false),
        EventModel::Reported,
        EventModel::Downloaded(Ok(())),
        EventModel::Listed(Ok(entries)),
        EventModel::Removed,
    ];
    let e1 = e0.drop_first();
    let e2 = e1.drop_first();
    let e3 = e2.drop_first();
    let e4 = e3.drop_first();
    let e5 = e4.drop_first();
    lemma_run_one(os, arch, PhaseModel::Fetching(name), cache, e0);
    lemma_run_one(os, arch, PhaseModel::CheckingBinary(url, dir, bin), cache, e1);
    lemma_run_one(os, arch, PhaseModel::AnnouncingDownload(url, dir, bin), cache, e2);
    lemma_run_one(os, arch, PhaseModel::Downloading(dir, bin), cache, e3);
    lemma_run_one(os, arch, PhaseModel::Listing(dir, bin), cache, e4);
    lemma_run_one(os, arch, PhaseModel::Cleaning(bin), cache, e5);
    assert(e5.drop_first().len() == 0);
    assert(seq![ActionModel::CheckFile(bin)] + (seq![
        ActionModel::Report(InstallStatus::Downloading),
    ] + (seq![ActionModel::Download(url, dir, spec_archive_format(os))] + (seq![
        ActionModel::ListWorkingDirectory,
    ] + (seq![ActionModel::RemoveEntries(stale_entries(entries, dir))] + (seq![
        ActionModel::Done(bin),
    ] + Seq::empty()))))) =~= seq![
        ActionModel::CheckFile(bin),
        ActionModel::Report(InstallStatus::Downloading),
        ActionModel::Download(url, dir, spec_archive_format(os)),
        ActionModel::ListWorkingDirectory,
        ActionModel::RemoveEntries(stale_entries(entries, dir)),
        ActionModel::Done(bin),
    ]);
    lemma_stale_entries_exact(entries, dir);
}

} // verus!
