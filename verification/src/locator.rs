//! Resolution of the reference executable's location.
//!
//! Two ordered strategies: a lookup on the operating system's executable
//! search path, and a sibling-directory heuristic derived from the running
//! binary's own path. Probing the search path and the filesystem is the
//! caller's I/O; this module fixes the candidate that the heuristic probes
//! and the decision among the strategies' results.

use vstd::prelude::*;
use vstd::string::StringExecFns;
use crate::outcome::ProducerError;

verus! {

/// The reference executable's expected file name: platform-appropriate, with
/// an `.exe` suffix on Windows and without one elsewhere.
pub open spec fn spec_tool_name(windows: bool) -> Seq<char> {
    if windows {
        "mcrl2-2024.exe"@
    } else {
        "mcrl2-2024"@
    }
}

/// The file name under which the reference executable is looked for.
pub fn expected_tool_name(windows: bool) -> (r: String)
    ensures
        r@ == spec_tool_name(windows),
{
    if windows {
        String::from_str("mcrl2-2024.exe")
    } else {
        String::from_str("mcrl2-2024")
    }
}

/// The directory the sibling heuristic probes, given the running binary's
/// path components: the binary's own directory, with a trailing
/// build-artifact intermediate directory named "deps" stripped.
pub open spec fn spec_fallback_dir(path: Seq<Seq<char>>) -> Seq<Seq<char>>
    recommends
        path.len() > 0,
{
    let dir = path.drop_last();
    if dir.len() > 0 && dir.last() == "deps"@ {
        dir.drop_last()
    } else {
        dir
    }
}

/// The candidate path the sibling heuristic probes: the stripped directory
/// with the expected file name appended.
pub open spec fn spec_fallback_candidate(path: Seq<Seq<char>>, windows: bool) -> Seq<Seq<char>> {
    spec_fallback_dir(path).push(spec_tool_name(windows))
}

/// Derives the sibling-directory candidate from the running binary's path,
/// given as its components with the binary's file name last.
pub fn fallback_candidate(exe_path: &Vec<String>, windows: bool) -> (r: Vec<String>)
    requires
        exe_path@.len() > 0,
    ensures
        r.deep_view() == spec_fallback_candidate(exe_path.deep_view(), windows),
{
    let mut keep: usize = exe_path.len() - 1;
    if keep > 0 && exe_path[keep - 1] == String::from_str("deps") {
        keep = keep - 1;
    }
    proof {
        assert(exe_path.deep_view().len() == exe_path@.len());
        assert(forall|j: int|
            0 <= j < exe_path@.len() ==> exe_path.deep_view()[j] == exe_path@[j]@);
    }
    let mut candidate: Vec<String> = Vec::new();
    let mut i: usize = 0;
    while i < keep
        invariant
            i <= keep,
            keep < exe_path@.len(),
            candidate@.len() == i,
            forall|j: int| 0 <= j < i ==> candidate@[j] == exe_path@[j],
        decreases keep - i,
    {
        candidate.push(exe_path[i].clone());
        i = i + 1;
    }
    candidate.push(expected_tool_name(windows));
    proof {
        assert(candidate.deep_view() =~= spec_fallback_candidate(exe_path.deep_view(), windows));
    }
    candidate
}

/// Decides among the two strategies' results, first success winning: the
/// search-path hit if there is one, else the sibling candidate if it exists,
/// else a failure naming the binary that was looked for.
pub fn locate_tool(
    search_path_hit: Option<String>,
    sibling_candidate: Option<String>,
    windows: bool,
) -> (r: Result<String, ProducerError>)
    ensures
        match (search_path_hit, sibling_candidate) {
            (Some(hit), _) => r == Ok::<String, ProducerError>(hit),
            (None, Some(sibling)) => r == Ok::<String, ProducerError>(sibling),
            (None, None) => match r {
                Err(e) => e matches ProducerError::ToolNotFound(name) && name@ == spec_tool_name(
                    windows,
                ),
                Ok(_) => false,
            },
        },
{
    match search_path_hit {
        Some(hit) => Ok(hit),
        None => match sibling_candidate {
            Some(sibling) => Ok(sibling),
            None => Err(ProducerError::ToolNotFound(expected_tool_name(windows))),
        },
    }
}

} // verus!
