//! Where the executable of a tool lies inside a directory.
//!
//! A tool named `colmap` is looked for at `dir/colmap.exe` and then at `dir/bin/colmap.exe`,
//! and nowhere else. `find_executable` looks at the disk; `choose_executable` decides from
//! what a caller has found there.
use crate::paths::{join, joined};
use vstd::prelude::*;
use vstd::string::*;

verus! {

/// What a look at the two candidate places of one tool found.
#[derive(Clone, Copy, Debug, PartialEq, Eq, Structural)]
pub struct Probe {
    /// A file exists at the first candidate, directly in the directory.
    pub primary_exists: bool,
    /// A file exists at the second candidate, in the `bin` subdirectory.
    pub bin_exists: bool,
}

/// The two places where the executable of one tool may lie.
#[derive(Debug, PartialEq, Eq)]
pub struct Candidates {
    pub primary: String,
    pub bin: String,
}

/// The file name of the executable of the tool `name`.
pub open spec fn executable_name(name: Seq<char>) -> Seq<char> {
    name + ".exe"@
}

/// The first candidate: the executable directly in `dir`.
pub open spec fn primary_candidate(dir: Seq<char>, name: Seq<char>) -> Seq<char> {
    joined(dir, executable_name(name))
}

/// The second candidate: the executable in `dir/bin`.
pub open spec fn bin_candidate(dir: Seq<char>, name: Seq<char>) -> Seq<char> {
    joined(joined(dir, "bin"@), executable_name(name))
}

/// The executable of `name` in `dir`: the first of the two candidates that exists.
pub open spec fn located(dir: Seq<char>, name: Seq<char>, probe: Probe) -> Option<Seq<char>> {
    if probe.primary_exists {
        Some(primary_candidate(dir, name))
    } else if probe.bin_exists {
        Some(bin_candidate(dir, name))
    } else {
        None
    }
}

fn executable_file(name: &str) -> (out: String)
    ensures
        out@ == executable_name(name@),
{
    String::from_str(name).concat(".exe")
}

/// The two places to probe for the tool `name` in `dir`.
pub fn executable_candidates(dir: &str, name: &str) -> (out: Candidates)
    ensures
        out.primary@ == primary_candidate(dir@, name@),
        out.bin@ == bin_candidate(dir@, name@),
{
    let file = executable_file(name);
    let bin_dir = join(dir, "bin");
    Candidates { primary: join(dir, file.as_str()), bin: join(bin_dir.as_str(), file.as_str()) }
}

/// The executable of the tool `name` in `dir`, given what a probe of its two candidates
/// found: the first candidate where it exists, else the second where that exists.
pub fn choose_executable(dir: &str, name: &str, probe: Probe) -> (out: Option<String>)
    ensures
        out is Some == located(dir@, name@, probe) is Some,
        out matches Some(path) ==> path@ == located(dir@, name@, probe)->0,
{
    let candidates = executable_candidates(dir, name);
    if probe.primary_exists {
        Some(candidates.primary)
    } else if probe.bin_exists {
        Some(candidates.bin)
    } else {
        None
    }
}

/// Calls `std::path::Path::exists`: whether `path` names something that exists. Nothing is
/// claimed of the answer: it depends on what is on the disk.
#[verifier::external_body]
fn path_exists(path: &str) -> bool {
    std::path::Path::new(path).exists()
}

/// The executable of the tool `name` in `dir` on this machine: the first candidate where
/// it exists on the disk, else the second where that exists. The second is looked at only
/// where the first is missing. Whatever the disk holds, what is returned is one of the two
/// candidates or nothing, and is what `choose_executable` gives for what the looks found.
pub fn find_executable(dir: &str, name: &str) -> (out: Option<String>)
    ensures
        exists|probe: Probe|
            {
                &&& out is Some == (#[trigger] located(dir@, name@, probe)) is Some
                &&& out matches Some(path) ==> path@ == located(dir@, name@, probe)->0
            },
        out matches Some(path) ==> path@ == primary_candidate(dir@, name@) || path@
            == bin_candidate(dir@, name@),
{
    let candidates = executable_candidates(dir, name);
    let primary_exists = path_exists(candidates.primary.as_str());
    let bin_exists = if primary_exists {
        false
    } else {
        path_exists(candidates.bin.as_str())
    };
    let probe = Probe { primary_exists, bin_exists };
    choose_executable(dir, name, probe)
}

} // verus!
