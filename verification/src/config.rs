//! The computable parts of process configuration.
//!
//! Reading a configuration file and parsing command-line arguments happen
//! outside this crate; the functions here fix the values that depend only
//! on the chosen role and the verbosity count.

use vstd::prelude::*;

verus! {

/// The role a process plays: the authority (`Server`) or the follower
/// (`Client`).
#[derive(Clone, Copy, Debug, PartialEq, Eq, Structural)]
pub enum Type {
    Server,
    Client,
}

/// The command name under which each role registers itself.
pub fn app_name(t: &Type) -> (r: &'static str)
    ensures
        t is Client ==> r@ == "clipboard-sync"@,
        t is Server ==> r@ == "clipboard-sync-server"@,
{
    match t {
        Type::Client => "clipboard-sync",
        Type::Server => "clipboard-sync-server",
    }
}

/// The default listen or connect host for each role: the follower connects
/// to the local machine, the authority listens on every interface.
pub fn default_host(t: &Type) -> (r: &'static str)
    ensures
        t is Client ==> r@ == "localhost"@,
        t is Server ==> r@ == "0.0.0.0"@,
{
    match t {
        Type::Client => "localhost",
        Type::Server => "0.0.0.0",
    }
}

/// Maps the number of `-v` occurrences on the command line to a log level.
pub fn log_level_for_verbosity(occurrences: u64) -> (r: &'static str)
    ensures
        occurrences == 0 ==> r@ == "warn"@,
        occurrences == 1 ==> r@ == "info"@,
        occurrences == 2 ==> r@ == "debug"@,
        occurrences >= 3 ==> r@ == "trace"@,
{
    match occurrences {
        0 => "warn",
        1 => "info",
        2 => "debug",
        _ => "trace",
    }
}

} // verus!
