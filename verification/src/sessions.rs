//! The session directory: which of the listed audio sessions belongs to a
//! given process.

use vstd::prelude::*;
use crate::error::DirectoryError;

verus! {

/// One audio session as the provider lists it. Its place in the list is the
/// handle by which the controller and its surroundings refer to it.
#[derive(Debug)]
pub struct SessionEntry {
    /// Owning process; zero for the system session.
    pub pid: u32,
    /// Executable path of the owning process, or `None` where the provider
    /// could not give it.
    pub path: Option<String>,
}

/// Whether entry `i` is the first session of process `pid`. The system
/// session, whose process is zero, is never one.
pub open spec fn is_first_with_pid(sessions: Seq<SessionEntry>, pid: u32, i: int) -> bool {
    &&& pid != 0
    &&& 0 <= i < sessions.len()
    &&& sessions[i].pid == pid
    &&& forall|j: int| 0 <= j < i ==> (#[trigger] sessions[j]).pid != pid
}

/// Whether a search by path ends at `entry`: it is not the system session,
/// and its path is the one asked for or could not be read.
pub open spec fn path_search_stops(entry: SessionEntry, path: Seq<char>) -> bool {
    entry.pid != 0 && match entry.path {
        Some(p) => p@ == path,
        None => true,
    }
}

/// Whether entry `i` is the first at which a search by path ends.
pub open spec fn is_first_path_stop(sessions: Seq<SessionEntry>, path: Seq<char>, i: int) -> bool {
    &&& 0 <= i < sessions.len()
    &&& path_search_stops(sessions[i], path)
    &&& forall|j: int| 0 <= j < i ==> !path_search_stops(#[trigger] sessions[j], path)
}

/// Finds the first session owned by process `pid`. The system session is
/// passed over, so a search for process zero finds nothing.
pub fn get_session_by_pid(sessions: &Vec<SessionEntry>, pid: u32) -> (found: Result<
    usize,
    DirectoryError,
>)
    ensures
        match found {
            Ok(i) => is_first_with_pid(sessions@, pid, i as int),
            Err(e) => e == DirectoryError::NotFound && (pid == 0 || forall|j: int|
                0 <= j < sessions@.len() ==> (#[trigger] sessions@[j]).pid != pid),
        },
{
    if pid == 0 {
        return Err(DirectoryError::NotFound);
    }
    let mut i: usize = 0;
    while i < sessions.len()
        invariant
            i <= sessions@.len(),
            pid != 0,
            forall|j: int| 0 <= j < i ==> (#[trigger] sessions@[j]).pid != pid,
        decreases sessions@.len() - i,
    {
        if sessions[i].pid == pid {
            return Ok(i);
        }
        i = i + 1;
    }
    Err(DirectoryError::NotFound)
}

/// Finds the first session whose owning process runs the executable at
/// `process_path`. The system session is passed over. A session whose path
/// could not be read ends the search with a provider error, unless a match
/// came before it.
pub fn get_session_by_process_path(sessions: &Vec<SessionEntry>, process_path: &str) -> (found:
    Result<usize, DirectoryError>)
    ensures
        match found {
            Ok(i) => is_first_path_stop(sessions@, process_path@, i as int)
                && sessions@[i as int].path is Some,
            Err(DirectoryError::ProviderError) => exists|i: int|
                is_first_path_stop(sessions@, process_path@, i) && sessions@[i].path is None,
            Err(DirectoryError::NotFound) => forall|j: int|
                0 <= j < sessions@.len() ==> !path_search_stops(
                    #[trigger] sessions@[j],
                    process_path@,
                ),
        },
{
    let wanted: String = process_path.to_owned();
    let mut i: usize = 0;
    while i < sessions.len()
        invariant
            i <= sessions@.len(),
            wanted@ == process_path@,
            forall|j: int| 0 <= j < i ==> !path_search_stops(#[trigger] sessions@[j], process_path@),
        decreases sessions@.len() - i,
    {
        if sessions[i].pid != 0 {
            match &sessions[i].path {
                Some(p) => {
                    if *p == wanted {
                        return Ok(i);
                    }
                },
                None => {
                    assert(is_first_path_stop(sessions@, process_path@, i as int));
                    return Err(DirectoryError::ProviderError);
                },
            }
        }
        i = i + 1;
    }
    Err(DirectoryError::NotFound)
}

} // verus!
