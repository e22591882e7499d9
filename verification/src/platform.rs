//! The closed platform/architecture table that picks a release asset.
//!
//! Exactly four pairs are supported; every other pair is rejected before
//! any network work is attempted.

use vstd::prelude::*;

verus! {

/// Operating system reported by the host.
#[derive(Clone, Copy, Debug, PartialEq, Eq, Structural)]
pub enum Os {
    Linux,
    Mac,
    Windows,
}

/// CPU architecture reported by the host.
#[derive(Clone, Copy, Debug, PartialEq, Eq, Structural)]
pub enum Arch {
    X86,
    X8664,
    Aarch64,
}

/// The asset filename published for a platform/architecture pair, or
/// `None` when the pair is unsupported.
pub open spec fn spec_asset_filename(os: Os, arch: Arch) -> Option<Seq<char>> {
    match (os, arch) {
        (Os::Linux, Arch::X8664) => Some("varnishls-x86_64-unknown-linux-gnu"@),
        (Os::Mac, Arch::Aarch64) => Some("varnishls-aarch64-apple-darwin"@),
        (Os::Mac, Arch::X8664) => Some("varnishls-x86_64-apple-darwin"@),
        (Os::Windows, Arch::X8664) => Some("varnishls-x86_64-pc-windows-msvc.exe"@),
        _ => None,
    }
}

/// Whether a platform/architecture pair has a published asset.
pub open spec fn supported(os: Os, arch: Arch) -> bool {
    spec_asset_filename(os, arch) is Some
}

/// Look up the asset filename for a platform/architecture pair.
pub fn asset_filename(os: Os, arch: Arch) -> (r: Option<&'static str>)
    ensures
        r.deep_view() == spec_asset_filename(os, arch),
{
    match (os, arch) {
        (Os::Linux, Arch::X8664) => Some("varnishls-x86_64-unknown-linux-gnu"),
        (Os::Mac, Arch::Aarch64) => Some("varnishls-aarch64-apple-darwin"),
        (Os::Mac, Arch::X8664) => Some("varnishls-x86_64-apple-darwin"),
        (Os::Windows, Arch::X8664) => Some("varnishls-x86_64-pc-windows-msvc.exe"),
        _ => None,
    }
}

} // verus!
