//! Tests for the derived on-disk names and the download URL.

use varnishls_adapter::paths::{binary_path, download_url, version_dir};

#[test]
fn version_dir_is_tool_dash_version() {
    assert_eq!(version_dir("1.4.0"), "varnishls-1.4.0");
    assert_eq!(version_dir(""), "varnishls-");
}

#[test]
fn binary_path_joins_dir_and_filename() {
    assert_eq!(
        binary_path("1.4.0", "varnishls-x86_64-unknown-linux-gnu"),
        "varnishls-1.4.0/varnishls-x86_64-unknown-linux-gnu"
    );
}

#[test]
fn download_url_points_at_the_release_asset() {
    assert_eq!(
        download_url("1.4.0", "varnishls-aarch64-apple-darwin"),
        "https://github.com/M4R7iNP/varnishls/releases/download/1.4.0/varnishls-aarch64-apple-darwin"
    );
}
