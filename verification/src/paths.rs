//! The files of the configuration directory.

use vstd::prelude::*;

verus! {

/// `std::path::Path`.
#[verifier::external_type_specification]
#[verifier::external_body]
pub struct ExPath(std::path::Path);

/// `std::path::PathBuf`.
#[verifier::external_type_specification]
#[verifier::external_body]
pub struct ExPathBuf(std::path::PathBuf);

/// The path of a name below a directory.
pub uninterp spec fn joined(directory: &std::path::Path, name: Seq<char>) -> std::path::PathBuf;

/// `std::path::Path::join`: the path of a name below a directory.
#[verifier::external_body]
fn join(directory: &std::path::Path, name: &str) -> (r: std::path::PathBuf)
    ensures
        r == joined(directory, name@),
{
    directory.join(name)
}

/// The Signal protocol state: keys and sessions.
pub fn signal_store(config_dir: &std::path::Path) -> (r: std::path::PathBuf)
    ensures
        r == joined(config_dir, "signal.db"@),
{
    join(config_dir, "signal.db")
}

/// The contacts and messages.
pub fn message_store(config_dir: &std::path::Path) -> (r: std::path::PathBuf)
    ensures
        r == joined(config_dir, "signal-mcp.db"@),
{
    join(config_dir, "signal-mcp.db")
}

/// The socket that clients connect to.
pub fn socket(config_dir: &std::path::Path) -> (r: std::path::PathBuf)
    ensures
        r == joined(config_dir, "signal-mcp.sock"@),
{
    join(config_dir, "signal-mcp.sock")
}

/// The process id of the daemon.
pub fn pid_file(config_dir: &std::path::Path) -> (r: std::path::PathBuf)
    ensures
        r == joined(config_dir, "signal-mcp.pid"@),
{
    join(config_dir, "signal-mcp.pid")
}

/// The log of the daemon.
pub fn log_file(config_dir: &std::path::Path) -> (r: std::path::PathBuf)
    ensures
        r == joined(config_dir, "signal-mcp.log"@),
{
    join(config_dir, "signal-mcp.log")
}

} // verus!
