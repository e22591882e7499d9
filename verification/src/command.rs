//! The launch specification handed back to the host.
//!
//! A resolved binary path is turned into a command with two fixed
//! positional arguments — start in language-server mode, speak over
//! standard input/output — and an empty environment overlay.

use vstd::prelude::*;

verus! {

/// What the host spawns: executable path, ordered arguments, and an
/// environment overlay.
#[derive(Debug, PartialEq, Eq)]
pub struct LaunchCommand {
    pub command: String,
    pub args: Vec<String>,
    pub env: Vec<(String, String)>,
}

/// The fixed argument list of the language server.
pub open spec fn spec_launch_args() -> Seq<Seq<char>> {
    seq!["lsp"@, "--stdio"@]
}

/// Build the launch specification for a resolved binary path.
pub fn launch_command(path: String) -> (c: LaunchCommand)
    ensures
        c.command@ == path@,
        c.args.deep_view() == spec_launch_args(),
        c.env@ == Seq::<(String, String)>::empty(),
{
    let mut args: Vec<String> = Vec::new();
    args.push(String::from_str("lsp"));
    args.push(String::from_str("--stdio"));
    proof {
        assert(args.deep_view() =~= spec_launch_args());
    }
    LaunchCommand { command: path, args, env: Vec::new() }
}

} // verus!
