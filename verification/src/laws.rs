//! The guarantees of the resolver, stated and proved over its model.
//!
//! Each law is a public proof function about the transition relation
//! [`step_t`] (and [`begin_t`]), so it holds of every session the
//! executable [`crate::resolver::Resolver`] can run.

use vstd::prelude::*;

use crate::paths::{spec_binary_path, spec_version_dir};
use crate::platform::{spec_asset_filename, supported, Arch, Os};
use crate::resolver::{accepts, begin_t, spec_removals, spec_stale, spec_unsupported_message,
    step_t, ActionV, ErrorV, EventV, PhaseV, ResolverV, StatusV, StepV};

verus! {

/// Law: each supported platform/architecture pair selects exactly one
/// deterministic asset filename, and exactly the four listed pairs are
/// supported.
pub proof fn law_supported_filenames()
    ensures
        spec_asset_filename(Os::Linux, Arch::X8664) == Some(
            "varnishls-x86_64-unknown-linux-gnu"@,
        ),
        spec_asset_filename(Os::Mac, Arch::Aarch64) == Some("varnishls-aarch64-apple-darwin"@),
        spec_asset_filename(Os::Mac, Arch::X8664) == Some("varnishls-x86_64-apple-darwin"@),
        spec_asset_filename(Os::Windows, Arch::X8664) == Some(
            "varnishls-x86_64-pc-windows-msvc.exe"@,
        ),
        forall|os: Os, arch: Arch|
            supported(os, arch) <==> {
                ||| os == Os::Linux && arch == Arch::X8664
                ||| os == Os::Mac && arch == Arch::Aarch64
                ||| os == Os::Mac && arch == Arch::X8664
                ||| os == Os::Windows && arch == Arch::X8664
            },
{
}

/// Law: on an unsupported platform/architecture pair the session
/// reports a `Failed` status with the fixed message and ends with
/// `UnsupportedPlatform`; no download is requested on that path.
pub proof fn law_unsupported_platform_fails(
    r: ResolverV,
    version: Seq<char>,
    os: Os,
    arch: Arch,
)
    requires
        r.phase == PhaseV::Probe(version),
        !supported(os, arch),
    ensures
        ({
            let (r1, s1) = step_t(r, EventV::Platform(os, arch));
            &&& s1 == StepV::Next(ActionV::Notify(StatusV::Failed(spec_unsupported_message())))
            &&& r1.phase is FailNotice
            &&& step_t(r1, EventV::Notified).1 == StepV::Done(
                Err::<Seq<char>, ErrorV>(ErrorV::UnsupportedPlatform),
            )
            &&& step_t(r1, EventV::Notified).0.cached == r.cached
        }),
{
}

/// Law: a download is requested only in answer to the delivery of the
/// `Downloading` status, which follows a disk-cache miss; no other phase
/// can start one.
pub proof fn law_download_only_after_miss(r: ResolverV, ev: EventV)
    requires
        accepts(r.phase, ev),
    ensures
        (step_t(r, ev).1 matches StepV::Next(a) && a is DownloadAsset) ==> r.phase
            is DownloadNotice,
{
}

/// Law: the release index is queried only in answer to the delivery of
/// the `CheckingForUpdate` status, so one full resolution performs one
/// lookup.
pub proof fn law_lookup_only_after_announce(r: ResolverV, ev: EventV)
    requires
        accepts(r.phase, ev),
    ensures
        (step_t(r, ev).1 matches StepV::Next(a) && a is FetchLatestRelease) ==> r.phase
            is Announce,
{
}

/// Position of a phase along a session. The session only ever moves
/// forward through these positions (see [`law_session_moves_forward`]).
pub open spec fn phase_rank(p: PhaseV) -> nat {
    match p {
        PhaseV::Idle => 0,
        PhaseV::CachedStat(_) => 1,
        PhaseV::Announce => 2,
        PhaseV::Lookup => 3,
        PhaseV::Probe(_) => 4,
        PhaseV::FailNotice => 5,
        PhaseV::DiskStat(_, _) => 5,
        PhaseV::DownloadNotice(_, _) => 6,
        PhaseV::Fetch(_, _) => 7,
        PhaseV::Chmod(_, _) => 8,
        PhaseV::Scan(_, _) => 9,
        PhaseV::Sweep(_, _, _) => 10,
    }
}

/// Law: while a session continues it only moves forward — strictly,
/// except from one sweep deletion to the next — and a terminal step
/// returns the resolver to rest. The announcement can only be entered
/// from the cached-path stat at the very start, so one session reports
/// `CheckingForUpdate` at most once and, with
/// [`law_lookup_only_after_announce`], performs at most one release
/// lookup.
pub proof fn law_session_moves_forward(r: ResolverV, ev: EventV)
    requires
        accepts(r.phase, ev),
    ensures
        ({
            let (r1, s1) = step_t(r, ev);
            &&& s1 is Next ==> phase_rank(r1.phase) >= phase_rank(r.phase)
            &&& (s1 is Next && !(r.phase is Sweep)) ==> phase_rank(r1.phase) > phase_rank(
                r.phase,
            )
            &&& s1 is Done ==> r1.phase is Idle
            &&& r1.phase is Announce ==> r.phase is CachedStat
        }),
{
}

/// Law: a session that ends successfully records the path it returns in
/// the in-memory cache and returns to rest.
pub proof fn law_success_caches(r: ResolverV, ev: EventV)
    requires
        accepts(r.phase, ev),
    ensures
        ({
            let (r1, s1) = step_t(r, ev);
            s1 matches StepV::Done(Ok(p)) ==> r1.cached == Some(p) && r1.phase is Idle
        }),
{
}

/// Law (idempotence): with a path recorded in the in-memory cache, a
/// repeated resolve asks for a single stat and, when the file is still
/// there, returns the cached path at once — no status is reported and no
/// lookup, download or deletion is requested.
pub proof fn law_cached_fast_path(r: ResolverV, p: Seq<char>)
    requires
        r.cached == Some(p),
    ensures
        begin_t(r).1 == ActionV::StatFile(p),
        step_t(begin_t(r).0, EventV::Stat(true)) == (
            ResolverV { cached: Some(p), phase: PhaseV::Idle },
            StepV::Done(Ok::<Seq<char>, ErrorV>(p)),
        ),
{
}

/// Law (cache recovery): when the cached path no longer exists on disk,
/// the session does not return the stale path: it announces the update
/// check and proceeds exactly as a session that began with an empty
/// cache.
pub proof fn law_cache_recovery(r: ResolverV, p: Seq<char>)
    requires
        r.cached == Some(p),
    ensures
        ({
            let (r1, s1) = step_t(begin_t(r).0, EventV::Stat(false));
            let (q1, a1) = begin_t(ResolverV { cached: None, phase: r.phase });
            &&& s1 == StepV::Next(a1)
            &&& r1.phase == q1.phase
            &&& r1.phase is Announce
        }),
{
}

/// Law (disk-cache hit): when the expected binary already exists on
/// disk, the session skips the download entirely and goes straight to
/// the garbage-collection pass.
pub proof fn law_disk_hit_skips_download(r: ResolverV, version: Seq<char>, filename: Seq<char>)
    requires
        r.phase == PhaseV::DiskStat(version, filename),
    ensures
        step_t(r, EventV::Stat(true)).1 == StepV::Next(ActionV::ListWorkDir),
        step_t(r, EventV::Stat(true)).0.phase == PhaseV::Scan(version, filename),
        step_t(r, EventV::Stat(true)).0.cached == r.cached,
{
}

/// The actions one run of a session requests: feed the events in order
/// until the machine answers with a terminal step, an event does not
/// answer the pending action, or the events run out.
pub open spec fn session_actions(r: ResolverV, evs: Seq<EventV>) -> Seq<ActionV>
    decreases evs.len(),
{
    if evs.len() == 0 || !accepts(r.phase, evs.first()) {
        Seq::empty()
    } else {
        let (r1, s1) = step_t(r, evs.first());
        match s1 {
            StepV::Next(a) => seq![a] + session_actions(r1, evs.drop_first()),
            StepV::Done(_) => Seq::empty(),
        }
    }
}

/// How many release lookups a run requests.
pub open spec fn count_lookups(actions: Seq<ActionV>) -> nat
    decreases actions.len(),
{
    if actions.len() == 0 {
        0
    } else {
        (if actions.first() is FetchLatestRelease {
            1nat
        } else {
            0nat
        }) + count_lookups(actions.drop_first())
    }
}

/// How many downloads a run requests.
pub open spec fn count_downloads(actions: Seq<ActionV>) -> nat
    decreases actions.len(),
{
    if actions.len() == 0 {
        0
    } else {
        (if actions.first() is DownloadAsset {
            1nat
        } else {
            0nat
        }) + count_downloads(actions.drop_first())
    }
}

/// Once the session has moved past the announcement, no run of it
/// requests a release lookup.
proof fn lemma_no_lookup_past_announce(r: ResolverV, evs: Seq<EventV>)
    requires
        phase_rank(r.phase) >= 3,
    ensures
        count_lookups(session_actions(r, evs)) == 0,
    decreases evs.len(),
{
    if evs.len() == 0 || !accepts(r.phase, evs.first()) {
    } else {
        let ev = evs.first();
        let (r1, s1) = step_t(r, ev);
        law_session_moves_forward(r, ev);
        law_lookup_only_after_announce(r, ev);
        match s1 {
            StepV::Next(a) => {
                lemma_no_lookup_past_announce(r1, evs.drop_first());
                let rest = session_actions(r1, evs.drop_first());
                assert((seq![a] + rest).drop_first() =~= rest);
            },
            StepV::Done(_) => {},
        }
    }
}

/// Any run of a session requests at most one release lookup.
proof fn lemma_lookup_bound(r: ResolverV, evs: Seq<EventV>)
    ensures
        count_lookups(session_actions(r, evs)) <= 1,
    decreases evs.len(),
{
    if evs.len() == 0 || !accepts(r.phase, evs.first()) {
    } else {
        let ev = evs.first();
        let (r1, s1) = step_t(r, ev);
        match s1 {
            StepV::Next(a) => {
                let rest = session_actions(r1, evs.drop_first());
                assert((seq![a] + rest).drop_first() =~= rest);
                if a is FetchLatestRelease {
                    law_lookup_only_after_announce(r, ev);
                    assert(r1.phase is Lookup);
                    lemma_no_lookup_past_announce(r1, evs.drop_first());
                } else {
                    lemma_lookup_bound(r1, evs.drop_first());
                }
            },
            StepV::Done(_) => {},
        }
    }
}

/// Law (idempotence, trace form): however a session is driven, it queries
/// the release index at most once, and never as its very first request.
pub proof fn law_one_lookup_per_session(r: ResolverV, evs: Seq<EventV>)
    ensures
        !(begin_t(r).1 is FetchLatestRelease),
        count_lookups(session_actions(begin_t(r).0, evs)) <= 1,
{
    lemma_lookup_bound(begin_t(r).0, evs);
}

/// Once a download has been requested, no run of the session requests
/// another.
proof fn lemma_no_download_past_fetch(r: ResolverV, evs: Seq<EventV>)
    requires
        phase_rank(r.phase) >= 7,
    ensures
        count_downloads(session_actions(r, evs)) == 0,
    decreases evs.len(),
{
    if evs.len() == 0 || !accepts(r.phase, evs.first()) {
    } else {
        let ev = evs.first();
        let (r1, s1) = step_t(r, ev);
        law_session_moves_forward(r, ev);
        law_download_only_after_miss(r, ev);
        match s1 {
            StepV::Next(a) => {
                lemma_no_download_past_fetch(r1, evs.drop_first());
                let rest = session_actions(r1, evs.drop_first());
                assert((seq![a] + rest).drop_first() =~= rest);
            },
            StepV::Done(_) => {},
        }
    }
}

/// Any run of a session requests at most one download.
proof fn lemma_download_bound(r: ResolverV, evs: Seq<EventV>)
    ensures
        count_downloads(session_actions(r, evs)) <= 1,
    decreases evs.len(),
{
    if evs.len() == 0 || !accepts(r.phase, evs.first()) {
    } else {
        let ev = evs.first();
        let (r1, s1) = step_t(r, ev);
        match s1 {
            StepV::Next(a) => {
                let rest = session_actions(r1, evs.drop_first());
                assert((seq![a] + rest).drop_first() =~= rest);
                if a is DownloadAsset {
                    law_download_only_after_miss(r, ev);
                    assert(r1.phase is Fetch);
                    lemma_no_download_past_fetch(r1, evs.drop_first());
                } else {
                    lemma_download_bound(r1, evs.drop_first());
                }
            },
            StepV::Done(_) => {},
        }
    }
}

/// Law (idempotence, trace form): however a session is driven, it
/// downloads at most once, and never as its very first request.
pub proof fn law_one_download_per_session(r: ResolverV, evs: Seq<EventV>)
    ensures
        !(begin_t(r).1 is DownloadAsset),
        count_downloads(session_actions(begin_t(r).0, evs)) <= 1,
{
    lemma_download_bound(begin_t(r).0, evs);
}

/// How many `CheckingForUpdate` notifications a run requests.
pub open spec fn count_update_notices(actions: Seq<ActionV>) -> nat
    decreases actions.len(),
{
    if actions.len() == 0 {
        0
    } else {
        (if actions.first() == ActionV::Notify(StatusV::CheckingForUpdate) {
            1nat
        } else {
            0nat
        }) + count_update_notices(actions.drop_first())
    }
}

/// Law: within a session, the update check is announced only when the
/// cached path turned out to be gone from disk.
pub proof fn law_update_notice_only_at_start(r: ResolverV, ev: EventV)
    requires
        accepts(r.phase, ev),
    ensures
        (step_t(r, ev).1 matches StepV::Next(a) && a == ActionV::Notify(
            StatusV::CheckingForUpdate,
        )) ==> r.phase is CachedStat,
{
}

/// Once the update check has been announced, no run of the session
/// announces it again.
proof fn lemma_no_notice_past_announce(r: ResolverV, evs: Seq<EventV>)
    requires
        phase_rank(r.phase) >= 2,
    ensures
        count_update_notices(session_actions(r, evs)) == 0,
    decreases evs.len(),
{
    if evs.len() == 0 || !accepts(r.phase, evs.first()) {
    } else {
        let ev = evs.first();
        let (r1, s1) = step_t(r, ev);
        law_session_moves_forward(r, ev);
        law_update_notice_only_at_start(r, ev);
        match s1 {
            StepV::Next(a) => {
                lemma_no_notice_past_announce(r1, evs.drop_first());
                let rest = session_actions(r1, evs.drop_first());
                assert((seq![a] + rest).drop_first() =~= rest);
            },
            StepV::Done(_) => {},
        }
    }
}

/// Any run of a session announces the update check at most once.
proof fn lemma_notice_bound(r: ResolverV, evs: Seq<EventV>)
    ensures
        count_update_notices(session_actions(r, evs)) <= 1,
    decreases evs.len(),
{
    if evs.len() == 0 || !accepts(r.phase, evs.first()) {
    } else {
        let ev = evs.first();
        let (r1, s1) = step_t(r, ev);
        match s1 {
            StepV::Next(a) => {
                let rest = session_actions(r1, evs.drop_first());
                assert((seq![a] + rest).drop_first() =~= rest);
                if a == ActionV::Notify(StatusV::CheckingForUpdate) {
                    law_update_notice_only_at_start(r, ev);
                    assert(r1.phase is Announce);
                    lemma_no_notice_past_announce(r1, evs.drop_first());
                } else {
                    lemma_notice_bound(r1, evs.drop_first());
                }
            },
            StepV::Done(_) => {},
        }
    }
}

/// Law (idempotence, trace form): one session announces the update check
/// at most once, counting the announcement that may begin it.
pub proof fn law_one_update_notice_per_session(r: ResolverV, evs: Seq<EventV>)
    ensures
        count_update_notices(
            seq![begin_t(r).1] + session_actions(begin_t(r).0, evs),
        ) <= 1,
{
    let a0 = begin_t(r).1;
    let rest = session_actions(begin_t(r).0, evs);
    assert((seq![a0] + rest).drop_first() =~= rest);
    match r.cached {
        Some(_) => {
            lemma_notice_bound(begin_t(r).0, evs);
        },
        None => {
            lemma_no_notice_past_announce(begin_t(r).0, evs);
        },
    }
}

/// Law (idempotence, trace form): with a cached path whose file is still
/// on disk, the repeated call's whole interaction with the host is the
/// one stat — after the file is confirmed, nothing further is requested,
/// whatever events follow.
pub proof fn law_cached_fast_path_trace(r: ResolverV, p: Seq<char>, evs: Seq<EventV>)
    requires
        r.cached == Some(p),
        evs.len() > 0,
        evs.first() == EventV::Stat(true),
    ensures
        begin_t(r).1 == ActionV::StatFile(p),
        session_actions(begin_t(r).0, evs) == Seq::<ActionV>::empty(),
{
}

/// Every entry the sweep queues was listed and differs from the version
/// directory.
proof fn lemma_stale_entries_are_listed(dir: Seq<char>, s: Seq<Seq<char>>, e: Seq<char>)
    requires
        spec_stale(dir, s).contains(e),
    ensures
        s.contains(e),
        e != dir,
    decreases s.len(),
{
    reveal(Seq::filter);
    if s.len() == 0 {
    } else {
        let rest = spec_stale(dir, s.drop_last());
        if s.last() != dir {
            assert(spec_stale(dir, s) == rest.push(s.last()));
            if e == s.last() {
                assert(s[s.len() - 1] == e);
            } else {
                let i = choose|i: int|
                    0 <= i < rest.push(s.last()).len() && rest.push(s.last())[i] == e;
                assert(rest[i] == e);
                lemma_stale_entries_are_listed(dir, s.drop_last(), e);
                let j = choose|j: int| 0 <= j < s.drop_last().len() && s.drop_last()[j] == e;
                assert(s[j] == e);
            }
        } else {
            assert(spec_stale(dir, s) == rest);
            lemma_stale_entries_are_listed(dir, s.drop_last(), e);
            let j = choose|j: int| 0 <= j < s.drop_last().len() && s.drop_last()[j] == e;
            assert(s[j] == e);
        }
    }
}

/// Every listed entry that differs from the version directory is queued
/// by the sweep.
proof fn lemma_listed_stale_is_removed(dir: Seq<char>, s: Seq<Seq<char>>, e: Seq<char>)
    requires
        s.contains(e),
        e != dir,
    ensures
        spec_stale(dir, s).contains(e),
    decreases s.len(),
{
    reveal(Seq::filter);
    if s.len() == 0 {
    } else {
        let rest = spec_stale(dir, s.drop_last());
        let i = choose|i: int| 0 <= i < s.len() && s[i] == e;
        if i == s.len() - 1 {
            assert(s.last() == e);
            assert(spec_stale(dir, s) == rest.push(e));
            assert(rest.push(e)[rest.len() as int] == e);
        } else {
            assert(s.drop_last()[i] == e);
            lemma_listed_stale_is_removed(dir, s.drop_last(), e);
            let j = choose|j: int| 0 <= j < rest.len() && rest[j] == e;
            if s.last() != dir {
                assert(spec_stale(dir, s) == rest.push(s.last()));
                assert(rest.push(s.last())[j] == e);
            } else {
                assert(spec_stale(dir, s) == rest);
            }
        }
    }
}

/// Law (garbage collection): after an install of one version, the
/// entries queued for deletion are exactly the listed working-directory
/// entries other than that version's directory.
pub proof fn law_removals_exactly_stale(version: Seq<char>, entries: Seq<Seq<char>>, e: Seq<char>)
    ensures
        spec_removals(version, entries).contains(e) <==> (entries.contains(e) && e
            != spec_version_dir(version)),
{
    if spec_removals(version, entries).contains(e) {
        lemma_stale_entries_are_listed(spec_version_dir(version), entries, e);
    }
    if entries.contains(e) && e != spec_version_dir(version) {
        lemma_listed_stale_is_removed(spec_version_dir(version), entries, e);
    }
}

/// Law (garbage collection): the outcome of a deletion is ignored by
/// design; a failed deletion advances the sweep exactly as a successful
/// one.
pub proof fn law_removal_failure_ignored(r: ResolverV)
    requires
        r.phase is Sweep,
    ensures
        step_t(r, EventV::Removed(false)) == step_t(r, EventV::Removed(true)),
{
}

/// Law (garbage collection): once the listing of the working directory
/// has been requested, the session can only ask for further deletions or
/// end with the resolved path — no listing failure and no deletion
/// outcome can turn the session into an error.
pub proof fn law_sweep_never_fails(
    r: ResolverV,
    ev: EventV,
    version: Seq<char>,
    filename: Seq<char>,
)
    requires
        accepts(r.phase, ev),
        r.phase == PhaseV::Scan(version, filename) || (r.phase matches PhaseV::Sweep(v, f, _)
            && v == version && f == filename),
    ensures
        ({
            let (r1, s1) = step_t(r, ev);
            ||| s1 matches StepV::Next(a) && a is RemoveEntry
            ||| (s1 == StepV::Done(Ok::<Seq<char>, ErrorV>(spec_binary_path(version, filename)))
                && r1.cached == Some(spec_binary_path(version, filename)))
        }),
{
}

} // verus!
