//! Submitting download requests to the engine.
use std::sync::{Arc, Mutex};

use vstd::prelude::*;

use crate::channel::blocking_push;
use crate::listener::{ListenerChannel, TaskListener};
use crate::result::TaskResult;
use crate::state::TaskState;
use crate::task::{DownloadRequest, TaskCommand};

verus! {

/// A request on its way to the engine, with the shared state and the
/// engine's ends of the attempt's channels.
pub struct Task {
    pub request: DownloadRequest,
    pub state: Arc<Mutex<TaskState>>,
    pub reporter: tokio::sync::oneshot::Sender<TaskResult>,
    pub command_recv: tokio::sync::oneshot::Receiver<TaskCommand>,
}

impl Task {
    pub fn new(
        state: Arc<Mutex<TaskState>>,
        request: DownloadRequest,
        reporter: tokio::sync::oneshot::Sender<TaskResult>,
        command_recv: tokio::sync::oneshot::Receiver<TaskCommand>,
    ) -> (r: Task)
        ensures
            r == (Task { request, state, reporter, command_recv }),
    {
        Task { request, state, reporter, command_recv }
    }

    pub fn request(&self) -> (r: &DownloadRequest)
        ensures
            *r == self.request,
    {
        &self.request
    }

    /// Gives back the shared state of a task that was not taken.
    pub fn release_state(self) -> (r: Arc<Mutex<TaskState>>)
        ensures
            r == self.state,
    {
        self.state
    }
}

/// The front end's end of the task queue.
pub struct RequestSender {
    sender: tokio::sync::mpsc::Sender<Task>,
}

impl RequestSender {
    pub fn new(sender: tokio::sync::mpsc::Sender<Task>) -> (r: RequestSender) {
        RequestSender { sender }
    }

    /// Submits a fresh download of `url`, with new shared state whose speed
    /// sampling starts at `now_ms`. Waits while the queue is full; gives the
    /// task back when the queue is closed.
    pub fn send_normal_request(&self, url: String, now_ms: u64) -> (r: Result<TaskListener, Task>)
        ensures
            r is Ok ==> r->Ok_0.is_fresh(),
            r is Err ==> r->Err_0.request == (DownloadRequest::Normal { url }),
    {
        let state = Arc::new(Mutex::new(TaskState::new(now_ms)));
        let (res_tx, res_rx) = tokio::sync::oneshot::channel();
        let (cmd_tx, cmd_rx) = tokio::sync::oneshot::channel();
        let task = Task::new(state.clone(), DownloadRequest::new_normal(url), res_tx, cmd_rx);
        match blocking_push(&self.sender, task) {
            Ok(()) => Ok(TaskListener::new(state, res_rx, cmd_tx)),
            Err(t) => Err(t),
        }
    }

    /// Submits another attempt at the task whose shared state is `task_state`,
    /// returning the front end's ends of the new attempt's channels.
    pub fn send_resume_request(
        &self,
        task_state: Arc<Mutex<TaskState>>,
    ) -> (r: Result<ListenerChannel, Task>)
        ensures
            r is Ok ==> r->Ok_0.command_sender is Some,
            r is Err ==> r->Err_0.state == task_state && r->Err_0.request is Resume,
    {
        let (res_tx, res_rx) = tokio::sync::oneshot::channel();
        let (cmd_tx, cmd_rx) = tokio::sync::oneshot::channel();
        let task = Task::new(task_state, DownloadRequest::Resume, res_tx, cmd_rx);
        match blocking_push(&self.sender, task) {
            Ok(()) => Ok(ListenerChannel::new(res_rx, cmd_tx)),
            Err(t) => Err(t),
        }
    }
}

} // verus!
