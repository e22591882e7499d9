//! The resolve session, modelled as a state machine.
//!
//! The host owns every side effect. A resolve session therefore advances
//! in steps: the [`Resolver`] hands the host an [`Action`] (stat a file,
//! report a status, query the release index, download, chmod, list or
//! delete directory entries), the host performs it and answers with the
//! matching [`Event`], and [`Resolver::step`] decides what comes next
//! until it returns a terminal result.
//!
//! Every transition is specified by the pure function [`step_t`] over the
//! mathematical model [`ResolverV`], and the executable code is proved to
//! follow it exactly.

use vstd::prelude::*;

use crate::paths::{binary_path, download_url, spec_binary_path, spec_download_url,
    spec_version_dir, version_dir};
use crate::platform::{spec_asset_filename, asset_filename, Arch, Os};

verus! {

/// Installation status reported to the host.
#[derive(Clone, Debug, PartialEq, Eq)]
pub enum Status {
    CheckingForUpdate,
    Downloading,
    Failed(String),
}

/// Terminal failure of one resolve session.
#[derive(Clone, Debug, PartialEq, Eq)]
pub enum InstallError {
    /// The release-index query failed or found no release.
    ReleaseLookup(String),
    /// The platform/architecture pair has no published asset.
    UnsupportedPlatform,
    /// Fetching the asset failed in transport or storage.
    Download(String),
    /// Marking the binary executable failed.
    Permission(String),
}

/// A side effect the resolver asks the host to perform.
#[derive(Clone, Debug, PartialEq, Eq)]
pub enum Action {
    /// Report whether this path exists as a regular file.
    StatFile(String),
    /// Report an installation status; answer with [`Event::Notified`].
    Notify(Status),
    /// Query the release index for the latest non-prerelease release of
    /// the repository, whether or not it carries assets.
    FetchLatestRelease,
    /// Report the current operating system and architecture.
    ProbePlatform,
    /// Download the asset at `url` into `dest_dir` as a plain file.
    DownloadAsset { url: String, dest_dir: String },
    /// Mark this path executable.
    MakeExecutable(String),
    /// List the entry names of the working directory.
    ListWorkDir,
    /// Delete this working-directory entry, best effort.
    RemoveEntry(String),
}

/// The host's answer to the action it was handed last.
#[derive(Debug, PartialEq, Eq)]
pub enum Event {
    /// Answer to [`Action::StatFile`]: the path is a regular file.
    Stat(bool),
    /// Answer to [`Action::Notify`]: the status was delivered.
    Notified,
    /// Answer to [`Action::FetchLatestRelease`]: the release version, or
    /// the failure message of the lookup.
    Release(Result<String, String>),
    /// Answer to [`Action::ProbePlatform`].
    Platform(Os, Arch),
    /// Answer to [`Action::DownloadAsset`].
    Downloaded(Result<(), String>),
    /// Answer to [`Action::MakeExecutable`].
    MadeExecutable(Result<(), String>),
    /// Answer to [`Action::ListWorkDir`]: the entry names, or the failure
    /// message of the listing.
    WorkDir(Result<Vec<String>, String>),
    /// Answer to [`Action::RemoveEntry`]: whether the deletion succeeded.
    /// The resolver ignores the flag by design.
    Removed(bool),
}

/// What a step decided: hand the host the next action, or end the
/// session with the resolved binary path or a terminal error.
#[derive(Debug, PartialEq, Eq)]
pub enum Step {
    Next(Action),
    Done(Result<String, InstallError>),
}

/// Where a resolve session stands, between one host answer and the next.
#[derive(Clone, Debug, PartialEq, Eq)]
pub enum Phase {
    /// No session in progress.
    Idle,
    /// Awaiting the stat of the in-memory cached path.
    CachedStat(String),
    /// Awaiting delivery of the `CheckingForUpdate` status.
    Announce,
    /// Awaiting the release-index answer.
    Lookup,
    /// Awaiting the platform probe; holds the release version.
    Probe(String),
    /// Awaiting delivery of the `Failed` status for an unsupported
    /// platform.
    FailNotice,
    /// Awaiting the stat of the expected binary path; holds version and
    /// asset filename.
    DiskStat(String, String),
    /// Awaiting delivery of the `Downloading` status.
    DownloadNotice(String, String),
    /// Awaiting the download result.
    Fetch(String, String),
    /// Awaiting the chmod result.
    Chmod(String, String),
    /// Awaiting the working-directory listing.
    Scan(String, String),
    /// Awaiting one deletion result; holds the stale entries still to be
    /// deleted.
    Sweep(String, String, Vec<String>),
}

/// Resolves the language-server binary for the host.
///
/// Holds the one piece of session state the design allows: the in-memory
/// cached binary path, plus the phase of the resolve session in progress.
pub struct Resolver {
    cached_binary_path: Option<String>,
    phase: Phase,
}

// ---------------------------------------------------------------------
// The mathematical model.
// ---------------------------------------------------------------------

/// Model of [`Status`].
pub enum StatusV {
    CheckingForUpdate,
    Downloading,
    Failed(Seq<char>),
}

/// Model of [`InstallError`].
pub enum ErrorV {
    ReleaseLookup(Seq<char>),
    UnsupportedPlatform,
    Download(Seq<char>),
    Permission(Seq<char>),
}

/// Model of [`Action`].
pub enum ActionV {
    StatFile(Seq<char>),
    Notify(StatusV),
    FetchLatestRelease,
    ProbePlatform,
    DownloadAsset(Seq<char>, Seq<char>),
    MakeExecutable(Seq<char>),
    ListWorkDir,
    RemoveEntry(Seq<char>),
}

/// Model of [`Event`].
pub enum EventV {
    Stat(bool),
    Notified,
    Release(Result<Seq<char>, Seq<char>>),
    Platform(Os, Arch),
    Downloaded(Result<(), Seq<char>>),
    MadeExecutable(Result<(), Seq<char>>),
    WorkDir(Result<Seq<Seq<char>>, Seq<char>>),
    Removed(bool),
}

/// Model of [`Step`].
pub enum StepV {
    Next(ActionV),
    Done(Result<Seq<char>, ErrorV>),
}

/// Model of [`Phase`].
pub enum PhaseV {
    Idle,
    CachedStat(Seq<char>),
    Announce,
    Lookup,
    Probe(Seq<char>),
    FailNotice,
    DiskStat(Seq<char>, Seq<char>),
    DownloadNotice(Seq<char>, Seq<char>),
    Fetch(Seq<char>, Seq<char>),
    Chmod(Seq<char>, Seq<char>),
    Scan(Seq<char>, Seq<char>),
    Sweep(Seq<char>, Seq<char>, Seq<Seq<char>>),
}

/// Model of [`Resolver`].
pub struct ResolverV {
    pub cached: Option<Seq<char>>,
    pub phase: PhaseV,
}

impl View for Status {
    type V = StatusV;

    open spec fn view(&self) -> StatusV {
        match self {
            Status::CheckingForUpdate => StatusV::CheckingForUpdate,
            Status::Downloading => StatusV::Downloading,
            Status::Failed(m) => StatusV::Failed(m@),
        }
    }
}

impl View for InstallError {
    type V = ErrorV;

    open spec fn view(&self) -> ErrorV {
        match self {
            InstallError::ReleaseLookup(m) => ErrorV::ReleaseLookup(m@),
            InstallError::UnsupportedPlatform => ErrorV::UnsupportedPlatform,
            InstallError::Download(m) => ErrorV::Download(m@),
            InstallError::Permission(m) => ErrorV::Permission(m@),
        }
    }
}

impl View for Action {
    type V = ActionV;

    open spec fn view(&self) -> ActionV {
        match self {
            Action::StatFile(p) => ActionV::StatFile(p@),
            Action::Notify(s) => ActionV::Notify(s@),
            Action::FetchLatestRelease => ActionV::FetchLatestRelease,
            Action::ProbePlatform => ActionV::ProbePlatform,
            Action::DownloadAsset { url, dest_dir } => ActionV::DownloadAsset(url@, dest_dir@),
            Action::MakeExecutable(p) => ActionV::MakeExecutable(p@),
            Action::ListWorkDir => ActionV::ListWorkDir,
            Action::RemoveEntry(e) => ActionV::RemoveEntry(e@),
        }
    }
}

impl View for Event {
    type V = EventV;

    open spec fn view(&self) -> EventV {
        match self {
            Event::Stat(b) => EventV::Stat(*b),
            Event::Notified => EventV::Notified,
            Event::Release(r) => EventV::Release(
                match r {
                    Ok(v) => Ok(v@),
                    Err(m) => Err(m@),
                },
            ),
            Event::Platform(os, arch) => EventV::Platform(*os, *arch),
            Event::Downloaded(r) => EventV::Downloaded(
                match r {
                    Ok(u) => Ok(*u),
                    Err(m) => Err(m@),
                },
            ),
            Event::MadeExecutable(r) => EventV::MadeExecutable(
                match r {
                    Ok(u) => Ok(*u),
                    Err(m) => Err(m@),
                },
            ),
            Event::WorkDir(r) => EventV::WorkDir(
                match r {
                    Ok(es) => Ok(es.deep_view()),
                    Err(m) => Err(m@),
                },
            ),
            Event::Removed(b) => EventV::Removed(*b),
        }
    }
}

impl View for Step {
    type V = StepV;

    open spec fn view(&self) -> StepV {
        match self {
            Step::Next(a) => StepV::Next(a@),
            Step::Done(r) => StepV::Done(
                match r {
                    Ok(p) => Ok(p@),
                    Err(e) => Err(e@),
                },
            ),
        }
    }
}

impl View for Phase {
    type V = PhaseV;

    open spec fn view(&self) -> PhaseV {
        match self {
            Phase::Idle => PhaseV::Idle,
            Phase::CachedStat(p) => PhaseV::CachedStat(p@),
            Phase::Announce => PhaseV::Announce,
            Phase::Lookup => PhaseV::Lookup,
            Phase::Probe(v) => PhaseV::Probe(v@),
            Phase::FailNotice => PhaseV::FailNotice,
            Phase::DiskStat(v, f) => PhaseV::DiskStat(v@, f@),
            Phase::DownloadNotice(v, f) => PhaseV::DownloadNotice(v@, f@),
            Phase::Fetch(v, f) => PhaseV::Fetch(v@, f@),
            Phase::Chmod(v, f) => PhaseV::Chmod(v@, f@),
            Phase::Scan(v, f) => PhaseV::Scan(v@, f@),
            Phase::Sweep(v, f, q) => PhaseV::Sweep(v@, f@, q.deep_view()),
        }
    }
}

impl View for Resolver {
    type V = ResolverV;

    closed spec fn view(&self) -> ResolverV {
        ResolverV { cached: self.cached_binary_path.deep_view(), phase: self.phase@ }
    }
}

// ---------------------------------------------------------------------
// The transition relation.
// ---------------------------------------------------------------------

/// The status message shown for an unsupported platform.
pub open spec fn spec_unsupported_message() -> Seq<char> {
    "Varnishls not supported on this device"@
}

/// The working-directory entries a sweep must delete: every entry whose
/// name is not the current version directory, in listing order.
pub open spec fn spec_stale(dir: Seq<char>, entries: Seq<Seq<char>>) -> Seq<Seq<char>> {
    entries.filter(|e: Seq<char>| e != dir)
}

/// The entries deleted after installing `version`.
pub open spec fn spec_removals(version: Seq<char>, entries: Seq<Seq<char>>) -> Seq<Seq<char>> {
    spec_stale(spec_version_dir(version), entries)
}

/// A session ends successfully: the binary path is cached and returned.
pub open spec fn finish_t(version: Seq<char>, filename: Seq<char>) -> (ResolverV, StepV) {
    let p = spec_binary_path(version, filename);
    (ResolverV { cached: Some(p), phase: PhaseV::Idle }, StepV::Done(Ok(p)))
}

/// Advance the sweep: request the next stale deletion, or finish when
/// none are left.
pub open spec fn pop_removal_t(
    cached: Option<Seq<char>>,
    version: Seq<char>,
    filename: Seq<char>,
    queue: Seq<Seq<char>>,
) -> (ResolverV, StepV) {
    if queue.len() == 0 {
        finish_t(version, filename)
    } else {
        (
            ResolverV { cached, phase: PhaseV::Sweep(version, filename, queue.drop_first()) },
            StepV::Next(ActionV::RemoveEntry(queue.first())),
        )
    }
}

/// Begin a resolve session: stat the cached path when one is recorded,
/// otherwise announce the update check.
pub open spec fn begin_t(r: ResolverV) -> (ResolverV, ActionV) {
    match r.cached {
        Some(p) => (
            ResolverV { cached: r.cached, phase: PhaseV::CachedStat(p) },
            ActionV::StatFile(p),
        ),
        None => (
            ResolverV { cached: r.cached, phase: PhaseV::Announce },
            ActionV::Notify(StatusV::CheckingForUpdate),
        ),
    }
}

/// Whether an event answers the action requested in this phase.
pub open spec fn accepts(phase: PhaseV, ev: EventV) -> bool {
    match (phase, ev) {
        (PhaseV::CachedStat(_), EventV::Stat(_)) => true,
        (PhaseV::Announce, EventV::Notified) => true,
        (PhaseV::Lookup, EventV::Release(_)) => true,
        (PhaseV::Probe(_), EventV::Platform(_, _)) => true,
        (PhaseV::FailNotice, EventV::Notified) => true,
        (PhaseV::DiskStat(_, _), EventV::Stat(_)) => true,
        (PhaseV::DownloadNotice(_, _), EventV::Notified) => true,
        (PhaseV::Fetch(_, _), EventV::Downloaded(_)) => true,
        (PhaseV::Chmod(_, _), EventV::MadeExecutable(_)) => true,
        (PhaseV::Scan(_, _), EventV::WorkDir(_)) => true,
        (PhaseV::Sweep(_, _, _), EventV::Removed(_)) => true,
        _ => false,
    }
}

/// The transition relation of a resolve session: from the state before
/// the event to the state after it and the step handed to the host.
pub open spec fn step_t(r: ResolverV, ev: EventV) -> (ResolverV, StepV)
    recommends
        accepts(r.phase, ev),
{
    match (r.phase, ev) {
        (PhaseV::CachedStat(p), EventV::Stat(exists)) => if exists {
            (ResolverV { cached: Some(p), phase: PhaseV::Idle }, StepV::Done(Ok(p)))
        } else {
            (
                ResolverV { cached: r.cached, phase: PhaseV::Announce },
                StepV::Next(ActionV::Notify(StatusV::CheckingForUpdate)),
            )
        },
        (PhaseV::Announce, EventV::Notified) => (
            ResolverV { cached: r.cached, phase: PhaseV::Lookup },
            StepV::Next(ActionV::FetchLatestRelease),
        ),
        (PhaseV::Lookup, EventV::Release(res)) => match res {
            Ok(version) => (
                ResolverV { cached: r.cached, phase: PhaseV::Probe(version) },
                StepV::Next(ActionV::ProbePlatform),
            ),
            Err(m) => (
                ResolverV { cached: r.cached, phase: PhaseV::Idle },
                StepV::Done(Err(ErrorV::ReleaseLookup(m))),
            ),
        },
        (PhaseV::Probe(version), EventV::Platform(os, arch)) => match spec_asset_filename(
            os,
            arch,
        ) {
            Some(f) => (
                ResolverV { cached: r.cached, phase: PhaseV::DiskStat(version, f) },
                StepV::Next(ActionV::StatFile(spec_binary_path(version, f))),
            ),
            None => (
                ResolverV { cached: r.cached, phase: PhaseV::FailNotice },
                StepV::Next(ActionV::Notify(StatusV::Failed(spec_unsupported_message()))),
            ),
        },
        (PhaseV::FailNotice, EventV::Notified) => (
            ResolverV { cached: r.cached, phase: PhaseV::Idle },
            StepV::Done(Err(ErrorV::UnsupportedPlatform)),
        ),
        (PhaseV::DiskStat(v, f), EventV::Stat(exists)) => if exists {
            (
                ResolverV { cached: r.cached, phase: PhaseV::Scan(v, f) },
                StepV::Next(ActionV::ListWorkDir),
            )
        } else {
            (
                ResolverV { cached: r.cached, phase: PhaseV::DownloadNotice(v, f) },
                StepV::Next(ActionV::Notify(StatusV::Downloading)),
            )
        },
        (PhaseV::DownloadNotice(v, f), EventV::Notified) => (
            ResolverV { cached: r.cached, phase: PhaseV::Fetch(v, f) },
            StepV::Next(ActionV::DownloadAsset(spec_download_url(v, f), spec_version_dir(v))),
        ),
        (PhaseV::Fetch(v, f), EventV::Downloaded(res)) => match res {
            Ok(_) => (
                ResolverV { cached: r.cached, phase: PhaseV::Chmod(v, f) },
                StepV::Next(ActionV::MakeExecutable(spec_binary_path(v, f))),
            ),
            Err(m) => (
                ResolverV { cached: r.cached, phase: PhaseV::Idle },
                StepV::Done(Err(ErrorV::Download(m))),
            ),
        },
        (PhaseV::Chmod(v, f), EventV::MadeExecutable(res)) => match res {
            Ok(_) => (
                ResolverV { cached: r.cached, phase: PhaseV::Scan(v, f) },
                StepV::Next(ActionV::ListWorkDir),
            ),
            Err(m) => (
                ResolverV { cached: r.cached, phase: PhaseV::Idle },
                StepV::Done(Err(ErrorV::Permission(m))),
            ),
        },
        (PhaseV::Scan(v, f), EventV::WorkDir(res)) => match res {
            Ok(entries) => pop_removal_t(r.cached, v, f, spec_removals(v, entries)),
            Err(_) => finish_t(v, f),
        },
        (PhaseV::Sweep(v, f, queue), EventV::Removed(_)) => pop_removal_t(
            r.cached,
            v,
            f,
            queue,
        ),
        _ => arbitrary(),
    }
}

// ---------------------------------------------------------------------
// The executable resolver.
// ---------------------------------------------------------------------

/// Build the status message shown for an unsupported platform.
pub fn unsupported_message() -> (r: String)
    ensures
        r@ == spec_unsupported_message(),
{
    String::from_str("Varnishls not supported on this device")
}

impl InstallError {
    /// The human-readable message of this error, as the host displays it.
    pub open spec fn spec_message(self) -> Seq<char> {
        match self@ {
            ErrorV::ReleaseLookup(m) => m,
            ErrorV::UnsupportedPlatform => "Unsupported platform or architecture"@,
            ErrorV::Download(m) => "failed to download file: "@ + m,
            ErrorV::Permission(m) => m,
        }
    }

    /// Render the human-readable message of this error.
    pub fn message(&self) -> (r: String)
        ensures
            r@ == self.spec_message(),
    {
        match self {
            InstallError::ReleaseLookup(m) => m.clone(),
            InstallError::UnsupportedPlatform => String::from_str(
                "Unsupported platform or architecture",
            ),
            InstallError::Download(m) => String::from_str("failed to download file: ").concat(
                m.as_str(),
            ),
            InstallError::Permission(m) => m.clone(),
        }
    }
}

/// Keep the entries whose name differs from the version directory: the
/// stale entries the sweep must delete, in listing order.
fn stale_entries(dir: &String, entries: &Vec<String>) -> (r: Vec<String>)
    ensures
        r.deep_view() == spec_stale(dir@, entries.deep_view()),
{
    let mut r: Vec<String> = Vec::new();
    let mut i: usize = 0;
    while i < entries.len()
        invariant
            i <= entries.len(),
            r.deep_view() == spec_stale(dir@, entries.deep_view().take(i as int)),
        decreases entries.len() - i,
    {
        let ghost taken = entries.deep_view().take(i as int);
        let e = &entries[i];
        proof {
            assert(entries.deep_view().take(i as int + 1) =~= taken.push(e@));
            lemma_stale_push(dir@, taken, e@);
        }
        if !e.eq(dir) {
            let ghost r0 = r.deep_view();
            r.push(e.clone());
            proof {
                assert(r.deep_view() =~= r0.push(e@));
            }
        }
        i = i + 1;
    }
    proof {
        assert(entries.deep_view().take(entries.len() as int) =~= entries.deep_view());
    }
    r
}

/// One more listed entry is kept for deletion exactly when its name
/// differs from the version directory.
proof fn lemma_stale_push(dir: Seq<char>, s: Seq<Seq<char>>, x: Seq<char>)
    ensures
        spec_stale(dir, s.push(x)) == if x != dir {
            spec_stale(dir, s).push(x)
        } else {
            spec_stale(dir, s)
        },
{
    reveal(Seq::filter);
    assert(s.push(x).drop_last() =~= s);
    assert(s.push(x).last() == x);
}

impl Resolver {
    /// A fresh resolver with an empty in-memory cache.
    pub fn new() -> (r: Resolver)
        ensures
            r@ == (ResolverV { cached: None, phase: PhaseV::Idle }),
    {
        Resolver { cached_binary_path: None, phase: Phase::Idle }
    }

    /// Begin a resolve session and hand the host its first action.
    pub fn begin(&mut self) -> (a: Action)
        ensures
            final(self)@ == begin_t(old(self)@).0,
            a@ == begin_t(old(self)@).1,
    {
        match &self.cached_binary_path {
            Some(p) => {
                let path = p.clone();
                self.phase = Phase::CachedStat(path.clone());
                Action::StatFile(path)
            },
            None => {
                self.phase = Phase::Announce;
                Action::Notify(Status::CheckingForUpdate)
            },
        }
    }

    /// Cache the resolved path and end the session with it.
    fn finish(&mut self, version: String, filename: String) -> (s: Step)
        ensures
            final(self)@ == finish_t(version@, filename@).0,
            s@ == finish_t(version@, filename@).1,
    {
        let p = binary_path(version.as_str(), filename.as_str());
        self.cached_binary_path = Some(p.clone());
        self.phase = Phase::Idle;
        Step::Done(Ok(p))
    }

    /// Request the next stale deletion, or finish when none are left.
    fn pop_removal(&mut self, version: String, filename: String, queue: Vec<String>) -> (s: Step)
        ensures
            final(self)@ == pop_removal_t(
                old(self)@.cached,
                version@,
                filename@,
                queue.deep_view(),
            ).0,
            s@ == pop_removal_t(old(self)@.cached, version@, filename@, queue.deep_view()).1,
    {
        let mut queue = queue;
        if queue.len() == 0 {
            self.finish(version, filename)
        } else {
            let ghost q0 = queue.deep_view();
            let e = queue.remove(0);
            proof {
                assert(queue.deep_view() =~= q0.drop_first());
            }
            self.phase = Phase::Sweep(version, filename, queue);
            Step::Next(Action::RemoveEntry(e))
        }
    }

    /// Whether this event answers the action requested last, that is,
    /// whether [`Resolver::step`] may consume it.
    pub fn answers(&self, ev: &Event) -> (r: bool)
        ensures
            r == accepts(self@.phase, ev@),
    {
        match (&self.phase, ev) {
            (Phase::CachedStat(_), Event::Stat(_)) => true,
            (Phase::Announce, Event::Notified) => true,
            (Phase::Lookup, Event::Release(_)) => true,
            (Phase::Probe(_), Event::Platform(_, _)) => true,
            (Phase::FailNotice, Event::Notified) => true,
            (Phase::DiskStat(_, _), Event::Stat(_)) => true,
            (Phase::DownloadNotice(_, _), Event::Notified) => true,
            (Phase::Fetch(_, _), Event::Downloaded(_)) => true,
            (Phase::Chmod(_, _), Event::MadeExecutable(_)) => true,
            (Phase::Scan(_, _), Event::WorkDir(_)) => true,
            (Phase::Sweep(_, _, _), Event::Removed(_)) => true,
            _ => false,
        }
    }

    /// Consume the host's answer to the last action and decide the next
    /// step of the session.
    pub fn step(&mut self, ev: Event) -> (s: Step)
        requires
            accepts(old(self)@.phase, ev@),
        ensures
            final(self)@ == step_t(old(self)@, ev@).0,
            s@ == step_t(old(self)@, ev@).1,
    {
        let mut ph = Phase::Idle;
        core::mem::swap(&mut ph, &mut self.phase);
        match (ph, ev) {
            (Phase::CachedStat(path), Event::Stat(exists)) => {
                if exists {
                    self.cached_binary_path = Some(path.clone());
                    Step::Done(Ok(path))
                } else {
                    self.phase = Phase::Announce;
                    Step::Next(Action::Notify(Status::CheckingForUpdate))
                }
            },
            (Phase::Announce, Event::Notified) => {
                self.phase = Phase::Lookup;
                Step::Next(Action::FetchLatestRelease)
            },
            (Phase::Lookup, Event::Release(res)) => match res {
                Ok(version) => {
                    self.phase = Phase::Probe(version);
                    Step::Next(Action::ProbePlatform)
                },
                Err(m) => Step::Done(Err(InstallError::ReleaseLookup(m))),
            },
            (Phase::Probe(version), Event::Platform(os, arch)) => match asset_filename(
                os,
                arch,
            ) {
                Some(f) => {
                    let p = binary_path(version.as_str(), f);
                    self.phase = Phase::DiskStat(version, String::from_str(f));
                    Step::Next(Action::StatFile(p))
                },
                None => {
                    self.phase = Phase::FailNotice;
                    Step::Next(Action::Notify(Status::Failed(unsupported_message())))
                },
            },
            (Phase::FailNotice, Event::Notified) => Step::Done(
                Err(InstallError::UnsupportedPlatform),
            ),
            (Phase::DiskStat(v, f), Event::Stat(exists)) => {
                if exists {
                    self.phase = Phase::Scan(v, f);
                    Step::Next(Action::ListWorkDir)
                } else {
                    self.phase = Phase::DownloadNotice(v, f);
                    Step::Next(Action::Notify(Status::Downloading))
                }
            },
            (Phase::DownloadNotice(v, f), Event::Notified) => {
                let url = download_url(v.as_str(), f.as_str());
                let dir = version_dir(v.as_str());
                self.phase = Phase::Fetch(v, f);
                Step::Next(Action::DownloadAsset { url, dest_dir: dir })
            },
            (Phase::Fetch(v, f), Event::Downloaded(res)) => match res {
                Ok(_) => {
                    let p = binary_path(v.as_str(), f.as_str());
                    self.phase = Phase::Chmod(v, f);
                    Step::Next(Action::MakeExecutable(p))
                },
                Err(m) => Step::Done(Err(InstallError::Download(m))),
            },
            (Phase::Chmod(v, f), Event::MadeExecutable(res)) => match res {
                Ok(_) => {
                    self.phase = Phase::Scan(v, f);
                    Step::Next(Action::ListWorkDir)
                },
                Err(m) => Step::Done(Err(InstallError::Permission(m))),
            },
            (Phase::Scan(v, f), Event::WorkDir(res)) => match res {
                Ok(entries) => {
                    let dir = version_dir(v.as_str());
                    let queue = stale_entries(&dir, &entries);
                    self.pop_removal(v, f, queue)
                },
                Err(_) => self.finish(v, f),
            },
            (Phase::Sweep(v, f, queue), Event::Removed(_)) => self.pop_removal(v, f, queue),
            _ => vstd::pervasive::unreached(),
        }
    }

    /// The in-memory cached binary path, if one is recorded.
    pub fn cached_path(&self) -> (r: &Option<String>)
        ensures
            r.deep_view() == self@.cached,
    {
        &self.cached_binary_path
    }
}

} // verus!
