//! Tests that drive whole resolve sessions the way a host would.

use varnishls_adapter::command::launch_command;
use varnishls_adapter::platform::{asset_filename, Arch, Os};
use varnishls_adapter::resolver::{Action, Event, InstallError, Resolver, Status, Step};

const LINUX_BIN: &str = "varnishls-1.4.0/varnishls-x86_64-unknown-linux-gnu";

/// Drive a fresh session up to the platform probe for release `version`.
fn advance_to_probe(r: &mut Resolver, version: &str) {
    assert_eq!(r.begin(), Action::Notify(Status::CheckingForUpdate));
    assert_eq!(r.step(Event::Notified), Step::Next(Action::FetchLatestRelease));
    assert_eq!(
        r.step(Event::Release(Ok(version.to_string()))),
        Step::Next(Action::ProbePlatform)
    );
}

/// Run one full first-time install on Linux/x86-64 of release 1.4.0 and
/// return the resolved path.
fn install_linux(r: &mut Resolver) -> String {
    advance_to_probe(r, "1.4.0");
    assert_eq!(
        r.step(Event::Platform(Os::Linux, Arch::X8664)),
        Step::Next(Action::StatFile(LINUX_BIN.to_string()))
    );
    assert_eq!(
        r.step(Event::Stat(false)),
        Step::Next(Action::Notify(Status::Downloading))
    );
    assert_eq!(
        r.step(Event::Notified),
        Step::Next(Action::DownloadAsset {
            url: "https://github.com/M4R7iNP/varnishls/releases/download/1.4.0/varnishls-x86_64-unknown-linux-gnu".to_string(),
            dest_dir: "varnishls-1.4.0".to_string(),
        })
    );
    assert_eq!(
        r.step(Event::Downloaded(Ok(()))),
        Step::Next(Action::MakeExecutable(LINUX_BIN.to_string()))
    );
    assert_eq!(
        r.step(Event::MadeExecutable(Ok(()))),
        Step::Next(Action::ListWorkDir)
    );
    match r.step(Event::WorkDir(Ok(vec!["varnishls-1.4.0".to_string()]))) {
        Step::Done(Ok(path)) => path,
        other => panic!("install did not finish: {:?}", other),
    }
}

#[test]
fn supported_pairs_map_to_filenames() {
    assert_eq!(
        asset_filename(Os::Linux, Arch::X8664),
        Some("varnishls-x86_64-unknown-linux-gnu")
    );
    assert_eq!(
        asset_filename(Os::Mac, Arch::Aarch64),
        Some("varnishls-aarch64-apple-darwin")
    );
    assert_eq!(
        asset_filename(Os::Mac, Arch::X8664),
        Some("varnishls-x86_64-apple-darwin")
    );
    assert_eq!(
        asset_filename(Os::Windows, Arch::X8664),
        Some("varnishls-x86_64-pc-windows-msvc.exe")
    );
}

#[test]
fn unsupported_pairs_have_no_filename() {
    assert_eq!(asset_filename(Os::Linux, Arch::Aarch64), None);
    assert_eq!(asset_filename(Os::Windows, Arch::Aarch64), None);
    assert_eq!(asset_filename(Os::Linux, Arch::X86), None);
    assert_eq!(asset_filename(Os::Mac, Arch::X86), None);
    assert_eq!(asset_filename(Os::Windows, Arch::X86), None);
}

#[test]
fn end_to_end_first_install_on_linux() {
    let mut r = Resolver::new();
    let path = install_linux(&mut r);
    assert_eq!(path, LINUX_BIN);

    let cmd = launch_command(path);
    assert_eq!(cmd.command, LINUX_BIN);
    assert_eq!(cmd.args, vec!["lsp".to_string(), "--stdio".to_string()]);
    assert!(cmd.env.is_empty());
}

#[test]
fn second_resolve_returns_cached_path_without_status() {
    let mut r = Resolver::new();
    let path = install_linux(&mut r);

    // The repeated call stats the cached path and returns it at once:
    // no status notification, no lookup, no download.
    assert_eq!(r.begin(), Action::StatFile(path.clone()));
    assert_eq!(r.step(Event::Stat(true)), Step::Done(Ok(path)));
}

#[test]
fn deleted_cached_file_forces_full_resolution() {
    let mut r = Resolver::new();
    let path = install_linux(&mut r);

    // The cached file is gone: the session must fall through to a full
    // resolution instead of returning the stale path.
    assert_eq!(r.begin(), Action::StatFile(path));
    assert_eq!(
        r.step(Event::Stat(false)),
        Step::Next(Action::Notify(Status::CheckingForUpdate))
    );
    let again = {
        assert_eq!(r.step(Event::Notified), Step::Next(Action::FetchLatestRelease));
        assert_eq!(
            r.step(Event::Release(Ok("1.4.0".to_string()))),
            Step::Next(Action::ProbePlatform)
        );
        assert_eq!(
            r.step(Event::Platform(Os::Linux, Arch::X8664)),
            Step::Next(Action::StatFile(LINUX_BIN.to_string()))
        );
        assert_eq!(
            r.step(Event::Stat(false)),
            Step::Next(Action::Notify(Status::Downloading))
        );
        r
    };
    drop(again);
}

#[test]
fn disk_cache_hit_skips_download_but_sweeps() {
    let mut r = Resolver::new();
    advance_to_probe(&mut r, "1.4.0");
    assert_eq!(
        r.step(Event::Platform(Os::Mac, Arch::Aarch64)),
        Step::Next(Action::StatFile(
            "varnishls-1.4.0/varnishls-aarch64-apple-darwin".to_string()
        ))
    );
    // The binary is already on disk: no Downloading status, no download,
    // straight to the garbage-collection pass.
    assert_eq!(r.step(Event::Stat(true)), Step::Next(Action::ListWorkDir));
    assert_eq!(
        r.step(Event::WorkDir(Ok(vec![
            "varnishls-1.4.0".to_string(),
            "varnishls-1.3.0".to_string(),
        ]))),
        Step::Next(Action::RemoveEntry("varnishls-1.3.0".to_string()))
    );
    assert_eq!(
        r.step(Event::Removed(true)),
        Step::Done(Ok("varnishls-1.4.0/varnishls-aarch64-apple-darwin".to_string()))
    );
}

#[test]
fn sweep_deletes_every_stale_entry_and_ignores_failures() {
    let mut r = Resolver::new();
    advance_to_probe(&mut r, "2.0.0");
    assert_eq!(
        r.step(Event::Platform(Os::Linux, Arch::X8664)),
        Step::Next(Action::StatFile(
            "varnishls-2.0.0/varnishls-x86_64-unknown-linux-gnu".to_string()
        ))
    );
    assert_eq!(r.step(Event::Stat(true)), Step::Next(Action::ListWorkDir));
    assert_eq!(
        r.step(Event::WorkDir(Ok(vec![
            "varnishls-1.0.0".to_string(),
            "varnishls-2.0.0".to_string(),
            "scratch".to_string(),
        ]))),
        Step::Next(Action::RemoveEntry("varnishls-1.0.0".to_string()))
    );
    // A failed deletion must not stop the sweep or the session.
    assert_eq!(
        r.step(Event::Removed(false)),
        Step::Next(Action::RemoveEntry("scratch".to_string()))
    );
    assert_eq!(
        r.step(Event::Removed(false)),
        Step::Done(Ok("varnishls-2.0.0/varnishls-x86_64-unknown-linux-gnu".to_string()))
    );
}

#[test]
fn listing_failure_still_returns_the_path() {
    let mut r = Resolver::new();
    advance_to_probe(&mut r, "1.4.0");
    assert_eq!(
        r.step(Event::Platform(Os::Linux, Arch::X8664)),
        Step::Next(Action::StatFile(LINUX_BIN.to_string()))
    );
    assert_eq!(r.step(Event::Stat(true)), Step::Next(Action::ListWorkDir));
    // Garbage collection is best effort: a failed listing never blocks
    // the resolved path.
    assert_eq!(
        r.step(Event::WorkDir(Err("permission denied".to_string()))),
        Step::Done(Ok(LINUX_BIN.to_string()))
    );
}

#[test]
fn unsupported_platform_fails_without_download() {
    let mut r = Resolver::new();
    advance_to_probe(&mut r, "1.4.0");
    assert_eq!(
        r.step(Event::Platform(Os::Windows, Arch::Aarch64)),
        Step::Next(Action::Notify(Status::Failed(
            "Varnishls not supported on this device".to_string()
        )))
    );
    assert_eq!(
        r.step(Event::Notified),
        Step::Done(Err(InstallError::UnsupportedPlatform))
    );
}

#[test]
fn release_lookup_failure_is_fatal() {
    let mut r = Resolver::new();
    assert_eq!(r.begin(), Action::Notify(Status::CheckingForUpdate));
    assert_eq!(r.step(Event::Notified), Step::Next(Action::FetchLatestRelease));
    let s = r.step(Event::Release(Err("no release found".to_string())));
    assert_eq!(
        s,
        Step::Done(Err(InstallError::ReleaseLookup("no release found".to_string())))
    );
    match s {
        Step::Done(Err(e)) => assert_eq!(e.message(), "no release found"),
        _ => unreachable!(),
    }
}

#[test]
fn download_failure_is_fatal_and_wrapped() {
    let mut r = Resolver::new();
    advance_to_probe(&mut r, "1.4.0");
    r.step(Event::Platform(Os::Linux, Arch::X8664));
    r.step(Event::Stat(false));
    r.step(Event::Notified);
    let s = r.step(Event::Downloaded(Err("connection reset".to_string())));
    assert_eq!(
        s,
        Step::Done(Err(InstallError::Download("connection reset".to_string())))
    );
    match s {
        Step::Done(Err(e)) => {
            assert_eq!(e.message(), "failed to download file: connection reset")
        }
        _ => unreachable!(),
    }
}

#[test]
fn chmod_failure_is_fatal() {
    let mut r = Resolver::new();
    advance_to_probe(&mut r, "1.4.0");
    r.step(Event::Platform(Os::Linux, Arch::X8664));
    r.step(Event::Stat(false));
    r.step(Event::Notified);
    r.step(Event::Downloaded(Ok(())));
    let s = r.step(Event::MadeExecutable(Err("read-only filesystem".to_string())));
    assert_eq!(
        s,
        Step::Done(Err(InstallError::Permission("read-only filesystem".to_string())))
    );
    match s {
        Step::Done(Err(e)) => assert_eq!(e.message(), "read-only filesystem"),
        _ => unreachable!(),
    }
}

#[test]
fn unsupported_platform_error_message() {
    assert_eq!(
        InstallError::UnsupportedPlatform.message(),
        "Unsupported platform or architecture"
    );
}

#[test]
fn cached_path_tracks_successful_installs() {
    let mut r = Resolver::new();
    assert_eq!(r.cached_path(), &None);
    let path = install_linux(&mut r);
    assert_eq!(r.cached_path(), &Some(path));
}
