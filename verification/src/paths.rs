//! Derivation of the on-disk layout and the download URL for a release.
//!
//! Every name is a pure function of the release version and the asset
//! filename: the version directory `varnishls-<version>`, the binary path
//! `<version dir>/<filename>`, and the GitHub release-asset URL.

use vstd::prelude::*;

verus! {

/// The GitHub repository the language server is released from.
pub open spec fn spec_repo() -> Seq<char> {
    "M4R7iNP/varnishls"@
}

/// Name of the directory that caches one release version.
pub open spec fn spec_version_dir(version: Seq<char>) -> Seq<char> {
    "varnishls-"@ + version
}

/// Expected path of the binary inside its version directory.
pub open spec fn spec_binary_path(version: Seq<char>, filename: Seq<char>) -> Seq<char> {
    spec_version_dir(version) + "/"@ + filename
}

/// URL the asset is downloaded from.
pub open spec fn spec_download_url(version: Seq<char>, filename: Seq<char>) -> Seq<char> {
    "https://github.com/"@ + spec_repo() + "/releases/download/"@ + version + "/"@ + filename
}

/// Build the version-directory name for a release version.
pub fn version_dir(version: &str) -> (r: String)
    ensures
        r@ == spec_version_dir(version@),
{
    String::from_str("varnishls-").concat(version)
}

/// Build the expected binary path for a release version and asset filename.
pub fn binary_path(version: &str, filename: &str) -> (r: String)
    ensures
        r@ == spec_binary_path(version@, filename@),
{
    let mut r = version_dir(version);
    r.append("/");
    r.append(filename);
    r
}

/// Build the release-asset download URL.
pub fn download_url(version: &str, filename: &str) -> (r: String)
    ensures
        r@ == spec_download_url(version@, filename@),
{
    let mut r = String::from_str("https://github.com/");
    r.append("M4R7iNP/varnishls");
    r.append("/releases/download/");
    r.append(version);
    r.append("/");
    r.append(filename);
    r
}

} // verus!
