//! Records of tasks that left the active list.
use vstd::prelude::*;

use crate::result::{TaskFinalStage, TaskResult};
use crate::state::{clone_opt_string, TaskState};

verus! {

/// How a task ended, as the finished list shows it.
#[derive(Debug, Clone, Copy, PartialEq, Eq, Structural)]
pub enum FinishState {
    Success,
    Failure,
}

/// The summary kept of a task once it leaves the active list.
#[derive(Debug)]
pub struct FinishedTask {
    pub state: FinishState,
    pub filepath: String,
    pub url: Option<String>,
    pub content_length: Option<u64>,
    pub downloaded: u64,
}

/// Whether `result` is a successful finish.
pub open spec fn is_finished(result: Option<TaskResult>) -> bool {
    result is Some && result->0.final_stage == TaskFinalStage::Finished
}

/// The size a finished record reports: for a success whose length was never
/// announced, the bytes received; otherwise the announced length, if any.
pub open spec fn reported_length(result: Option<TaskResult>, snap: TaskState) -> Option<u64> {
    if is_finished(result) && snap.content_length is None {
        Some(snap.downloaded)
    } else {
        snap.content_length
    }
}

pub open spec fn owned(result: Option<&TaskResult>) -> Option<TaskResult> {
    match result {
        Some(r) => Some(*r),
        None => None,
    }
}

/// `entry` is the record made from `result` and the state snapshot `snap`.
pub open spec fn is_entry_of(entry: FinishedTask, result: Option<TaskResult>, snap: TaskState) -> bool {
    &&& entry.state == (if is_finished(result) {
        FinishState::Success
    } else {
        FinishState::Failure
    })
    &&& entry.filepath@ == snap.filepath@
    &&& entry.url == snap.url
    &&& entry.content_length == reported_length(result, snap)
    &&& entry.downloaded == snap.downloaded
}

impl FinishedTask {
    pub fn new(
        state: FinishState,
        filepath: String,
        url: Option<String>,
        content_length: Option<u64>,
        downloaded: u64,
    ) -> (r: FinishedTask)
        ensures
            r == (FinishedTask { state, filepath, url, content_length, downloaded }),
    {
        FinishedTask { state, filepath, url, content_length, downloaded }
    }

    /// The record of a task that ended with `result` (none when it never
    /// reported), made from a snapshot of its state.
    pub fn from_snapshot(result: Option<&TaskResult>, snap: &TaskState) -> (r: FinishedTask)
        ensures
            is_entry_of(r, owned(result), *snap),
    {
        let finished = match result {
            Some(res) => res.final_stage.is_success(),
            None => false,
        };
        let state = if finished {
            FinishState::Success
        } else {
            FinishState::Failure
        };
        let content_length = if finished {
            match snap.content_length {
                Some(n) => Some(n),
                None => Some(snap.downloaded),
            }
        } else {
            snap.content_length
        };
        FinishedTask::new(
            state,
            snap.filepath.clone(),
            clone_opt_string(&snap.url),
            content_length,
            snap.downloaded,
        )
    }
}

/// A successful task whose length was never announced reports the bytes it
/// received as its size.
pub proof fn lemma_unknown_length_backfilled(
    entry: FinishedTask,
    result: Option<TaskResult>,
    snap: TaskState,
)
    requires
        is_entry_of(entry, result, snap),
        is_finished(result),
        snap.content_length is None,
    ensures
        entry.content_length == Some(entry.downloaded),
{
}

/// A successful task with an announced length keeps that length and the
/// bytes received as recorded, so the two agree when the body had the
/// announced length.
pub proof fn lemma_known_length_kept(entry: FinishedTask, result: Option<TaskResult>, snap: TaskState)
    requires
        is_entry_of(entry, result, snap),
        is_finished(result),
        snap.content_length == Some(snap.downloaded),
    ensures
        entry.content_length == Some(entry.downloaded),
        entry.state == FinishState::Success,
{
}

} // verus!
