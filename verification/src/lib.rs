//! Adapter that resolves, caches and launches the `varnishls` language
//! server binary on behalf of an editor host.
//!
//! The host owns every side effect (network lookups, downloads, the
//! filesystem, status reporting). This crate holds the decisions: which
//! asset belongs to a platform, where a version lives on disk, how a
//! resolve session advances from one host reply to the next request, and
//! which cached directories are stale. Each decision is a verified
//! function with a contract.

pub mod command;
pub mod laws;
pub mod paths;
pub mod platform;
pub mod resolver;

pub use platform::{Arch, Os};
