//! From the focused window to the audio session that a key press targets.

use vstd::prelude::*;
use crate::error::VolumeError;
use crate::sessions::{get_session_by_pid, is_first_with_pid, SessionEntry};

verus! {

/// The process that owns the focused window.
#[derive(Debug)]
pub struct ProcessIdentity {
    pub pid: u32,
    pub executable_path: String,
}

/// What the windowing subsystem said when asked for the focused window.
#[derive(Debug)]
pub enum FocusReport {
    /// A window owns focus; this is its process.
    Focused(ProcessIdentity),
    /// No window owns focus.
    NoFocus,
    /// The subsystem failed.
    Failed,
}

/// The session that presses are applied to while process `pid` owns focus:
/// the first one listed for that process, or the error that no session
/// belongs to it. Sessions are matched by process id, never by path.
pub open spec fn target_of(sessions: Seq<SessionEntry>, pid: u32) -> Result<usize, VolumeError> {
    if exists|i: usize| is_first_with_pid(sessions, pid, i as int) {
        Ok(choose|i: usize| is_first_with_pid(sessions, pid, i as int))
    } else {
        Err(VolumeError::NoAudioSession)
    }
}

/// The outcome of resolving the target session from a focus report and the
/// listed sessions.
pub open spec fn resolution_of(focus: FocusReport, sessions: Seq<SessionEntry>) -> Result<
    usize,
    VolumeError,
> {
    match focus {
        FocusReport::Focused(identity) => target_of(sessions, identity.pid),
        FocusReport::NoFocus => Err(VolumeError::NoFocus),
        FocusReport::Failed => Err(VolumeError::ProviderError),
    }
}

/// At most one entry is the first session of a process.
pub proof fn lemma_first_with_pid_unique(sessions: Seq<SessionEntry>, pid: u32, i: int, k: int)
    requires
        is_first_with_pid(sessions, pid, i),
        is_first_with_pid(sessions, pid, k),
    ensures
        i == k,
{
}

/// The target session is the first one listed for the process, and there is
/// none exactly if the process is zero or owns no listed session.
pub proof fn lemma_target_of(sessions: Seq<SessionEntry>, pid: u32)
    requires
        sessions.len() <= usize::MAX,
    ensures
        match target_of(sessions, pid) {
            Ok(i) => is_first_with_pid(sessions, pid, i as int),
            Err(e) => e == VolumeError::NoAudioSession && (pid == 0 || forall|j: int|
                0 <= j < sessions.len() ==> (#[trigger] sessions[j]).pid != pid),
        },
{
    if !(exists|i: usize| is_first_with_pid(sessions, pid, i as int)) && pid != 0 {
        assert forall|j: int| 0 <= j < sessions.len() implies (#[trigger] sessions[j]).pid
            != pid by {
            if sessions[j].pid == pid {
                lemma_some_entry_is_first(sessions, pid, j);
            }
        }
    }
}

/// Where some entry up to `upto` belongs to process `pid`, one of them is the
/// first that does.
proof fn lemma_some_entry_is_first(sessions: Seq<SessionEntry>, pid: u32, upto: int)
    requires
        pid != 0,
        0 <= upto < sessions.len(),
        sessions[upto].pid == pid,
        sessions.len() <= usize::MAX,
    ensures
        exists|i: usize| is_first_with_pid(sessions, pid, i as int),
    decreases upto,
{
    if forall|j: int| 0 <= j < upto ==> (#[trigger] sessions[j]).pid != pid {
        assert(is_first_with_pid(sessions, pid, (upto as usize) as int));
    } else {
        let j = choose|j: int| 0 <= j < upto && (#[trigger] sessions[j]).pid == pid;
        lemma_some_entry_is_first(sessions, pid, j);
    }
}

/// Finds the session that presses are applied to while process `pid` owns
/// focus, among the sessions that the provider listed.
pub fn target_session(pid: u32, sessions: &Vec<SessionEntry>) -> (target: Result<
    usize,
    VolumeError,
>)
    ensures
        target == target_of(sessions@, pid),
        match target {
            Ok(i) => is_first_with_pid(sessions@, pid, i as int),
            Err(e) => e == VolumeError::NoAudioSession && (pid == 0 || forall|j: int|
                0 <= j < sessions@.len() ==> (#[trigger] sessions@[j]).pid != pid),
        },
{
    match get_session_by_pid(sessions, pid) {
        Ok(i) => {
            proof {
                let c = choose|c: usize| is_first_with_pid(sessions@, pid, c as int);
                lemma_first_with_pid_unique(sessions@, pid, i as int, c as int);
            }
            Ok(i)
        },
        Err(_) => {
            proof {
                if exists|c: usize| is_first_with_pid(sessions@, pid, c as int) {
                    let c = choose|c: usize| is_first_with_pid(sessions@, pid, c as int);
                    assert(sessions@[c as int].pid == pid);
                }
            }
            Err(VolumeError::NoAudioSession)
        },
    }
}

/// Resolves the target session from what the windowing subsystem reported
/// and the sessions that the provider listed. Without a focused window the
/// sessions are not looked at.
pub fn resolve_target_session(focus: &FocusReport, sessions: &Vec<SessionEntry>) -> (target:
    Result<usize, VolumeError>)
    ensures
        target == resolution_of(*focus, sessions@),
{
    match focus {
        FocusReport::Focused(identity) => target_session(identity.pid, sessions),
        FocusReport::NoFocus => Err(VolumeError::NoFocus),
        FocusReport::Failed => Err(VolumeError::ProviderError),
    }
}

} // verus!
