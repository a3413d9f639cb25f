//! What a change on disk means for a served project.

use vstd::prelude::*;
use crate::text::{ends_with, has_suffix, joined};

verus! {

/// Whether a change of the file at `path` changes the project: it does for
/// a project file and for a script.
pub open spec fn is_source_path(path: Seq<char>) -> bool {
    has_suffix(path, ".yml"@) || has_suffix(path, ".ts"@) || has_suffix(path, ".js"@)
}

/// Whether a change of the file at `path` changes the project.
pub fn is_source(path: &str) -> (source: bool)
    ensures
        source == is_source_path(path@),
{
    ends_with(path, ".yml") || ends_with(path, ".ts") || ends_with(path, ".js")
}

/// Whether the project is to be built and swapped in again after the
/// changes of one round: it is as soon as one changed file is a source.
pub fn need_swap(changed: &Vec<String>) -> (swap: bool)
    ensures
        swap == exists|i: int| 0 <= i < changed.len() && is_source_path(#[trigger] changed[i]@),
{
    let mut i: usize = 0;
    while i < changed.len()
        invariant
            i <= changed.len(),
            forall|k: int| 0 <= k < i ==> !is_source_path(#[trigger] changed[k]@),
        decreases changed.len() - i,
    {
        if is_source(changed[i].as_str()) {
            return true;
        }
        i = i + 1;
    }
    false
}

/// How a reload ended.
#[derive(Debug)]
pub enum Reload {
    /// The new build was swapped in.
    Swapped,
    /// The project could not be built, or its bundle not read.
    BuildFailed(String),
    /// The project file could not be loaded.
    ConfigFailed(String),
    /// The routes of the new build did not compile.
    SwapFailed(String),
}

/// What the watcher does after a round of changes.
#[derive(Debug, Clone, Copy, PartialEq, Eq)]
pub enum WatchStep {
    /// Nothing changed the project: wait for the next round.
    Wait,
    /// Build the project and swap the build in.
    Reload,
}

/// What the watcher does after the changes of one round: it reloads as soon
/// as one changed file is a source, and waits otherwise.
pub fn after_changes(changed: &Vec<String>) -> (step: WatchStep)
    ensures
        step == if exists|i: int| 0 <= i < changed.len() && is_source_path(#[trigger] changed[i]@) {
            WatchStep::Reload
        } else {
            WatchStep::Wait
        },
{
    if need_swap(changed) {
        WatchStep::Reload
    } else {
        WatchStep::Wait
    }
}

/// What the watcher does after a reload, and what it reports of it. The
/// watcher always goes on to the next round: a reload that failed changes
/// nothing, the snapshot in force stays, and a later change is built and
/// swapped in like any other. A failure is reported with its cause.
pub fn after_reload(reload: &Reload) -> (next: (bool, Option<String>))
    ensures
        next.0,
        match *reload {
            Reload::Swapped => next.1 is None,
            Reload::BuildFailed(cause) => next.1 matches Some(text) && text@
                == "build failed: "@ + cause@,
            Reload::ConfigFailed(cause) => next.1 matches Some(text) && text@
                == "project file refused: "@ + cause@,
            Reload::SwapFailed(cause) => next.1 matches Some(text) && text@
                == "routes refused: "@ + cause@,
        },
{
    let report = match reload {
        Reload::Swapped => None,
        Reload::BuildFailed(cause) => Some(joined("build failed: ", cause.as_str())),
        Reload::ConfigFailed(cause) => Some(joined("project file refused: ", cause.as_str())),
        Reload::SwapFailed(cause) => Some(joined("routes refused: ", cause.as_str())),
    };
    (true, report)
}

} // verus!
