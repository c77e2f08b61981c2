//! What the library asks of the machine it runs on: its processors, its directory for
//! local data and its search path.
use crate::job::{Pipeline, Toolchain};
use crate::paths::{join, joined};
use crate::tool::Tool;
use vstd::prelude::*;
use vstd::string::*;

verus! {

/// Calls `num_cpus::get`, the number of logical processors that this process may use. The
/// number depends on the machine and on the limits set for the process; the crate promises
/// that it is never below one.
#[verifier::external_body]
fn logical_cpus() -> (count: usize)
    ensures
        count >= 1,
{
    num_cpus::get()
}

/// Calls `dirs::data_local_dir`, the directory for data that stays on this machine, and
/// gives it as text: `None` where the platform names no such directory or names one that is
/// not Unicode text. Nothing is claimed of the directory: it depends on the platform, the
/// user and the environment.
#[verifier::external_body]
fn local_data_dir() -> Option<String> {
    dirs::data_local_dir().and_then(|dir| dir.to_str().map(String::from))
}

/// Calls `which::which`, which looks for an executable of the given name in the
/// directories of the system's search path, and gives the path it found as text: `None`
/// where it found none or found one whose path is not Unicode text. Nothing is claimed of
/// the result: it depends on the environment and on what is on the disk.
#[verifier::external_body]
pub(crate) fn executable_on_search_path(name: &str) -> Option<String> {
    which::which(name).ok().and_then(|path| path.to_str().map(String::from))
}

/// The tools directory below the data directory `data_dir`: the directory of this
/// application, `polyfjord3d`.
pub open spec fn tools_root_in(data_dir: Seq<char>) -> Seq<char> {
    joined(data_dir, "polyfjord3d"@)
}

/// The tools directory below the data directory `data_dir`.
pub fn install_dir_in(data_dir: &str) -> (out: String)
    ensures
        out@ == tools_root_in(data_dir@),
{
    join(data_dir, "polyfjord3d")
}

/// The tools directory of this user on this machine, below which each tool is installed
/// in a directory of its own; `None` where the machine names no directory for local data.
/// Whether the directory exists is not looked at.
pub fn get_install_dir() -> (out: Option<String>)
    ensures
        out matches Some(dir) ==> exists|data_dir: Seq<char>| dir@ == tools_root_in(data_dir),
{
    let data_dir = local_data_dir();
    install_dir_from(data_dir)
}

/// The tools directory that follows from the machine's answer `data_dir`: the directory of
/// this application below the data directory where the machine names one, none where it
/// names none.
pub fn install_dir_from(data_dir: Option<String>) -> (out: Option<String>)
    ensures
        out is Some == data_dir is Some,
        out matches Some(dir) ==> dir@ == tools_root_in(data_dir->0@),
{
    match data_dir {
        Some(dir) => Some(install_dir_in(dir.as_str())),
        None => None,
    }
}

/// What the jobs of a run share, with as many mapper threads as this machine has logical
/// processors.
pub fn pipeline_on_this_machine(tool: Tool, force_overwrite: bool, tools: Toolchain) -> (out:
    Pipeline)
    ensures
        out.tool == tool,
        out.force_overwrite == force_overwrite,
        out.tools == tools,
        out.threads >= 1,
{
    Pipeline { tool, force_overwrite, tools, threads: logical_cpus() }
}

} // verus!
