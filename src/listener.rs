//! The front end's handle on one task: it polls for the result without
//! blocking, sends at most one command per attempt, and starts resumes.
use std::sync::{Arc, Mutex};

use vstd::prelude::*;

use crate::channel::{poll_once, read_shared, Polled};
use crate::finish::{is_entry_of, owned, FinishedTask};
use crate::result::TaskResult;
use crate::sender::RequestSender;
use crate::state::TaskState;
use crate::task::TaskCommand;

verus! {

/// The front end's ends of the channels of one attempt.
pub struct ListenerChannel {
    pub result_recv: tokio::sync::oneshot::Receiver<TaskResult>,
    /// Taken when a command is sent.
    pub command_sender: Option<tokio::sync::oneshot::Sender<TaskCommand>>,
}

impl ListenerChannel {
    pub fn new(
        result_recv: tokio::sync::oneshot::Receiver<TaskResult>,
        command_sender: tokio::sync::oneshot::Sender<TaskCommand>,
    ) -> (r: ListenerChannel)
        ensures
            r.result_recv == result_recv,
            r.command_sender == Some(command_sender),
    {
        ListenerChannel { result_recv, command_sender: Some(command_sender) }
    }
}

/// Observes and controls one task across its attempts.
pub struct TaskListener {
    state: Arc<Mutex<TaskState>>,
    channel: ListenerChannel,
    /// The result of the current attempt, once received.
    task_result: Option<TaskResult>,
    /// Whether the front end has dealt with the result.
    processed: bool,
    /// Whether the task is stopped and may only be resumed.
    stopped: bool,
}

/// The diagnostic of the result made up when the result channel closes
/// without a value.
pub open spec fn closed_channel_message() -> Seq<char> {
    "Task result channel closed unexpectedly"@
}

impl TaskListener {
    pub closed spec fn cached(&self) -> Option<TaskResult> {
        self.task_result
    }

    pub closed spec fn is_processed(&self) -> bool {
        self.processed
    }

    pub closed spec fn spec_stopped(&self) -> bool {
        self.stopped
    }

    pub closed spec fn can_command(&self) -> bool {
        self.channel.command_sender is Some
    }

    pub closed spec fn handle(&self) -> Arc<Mutex<TaskState>> {
        self.state
    }

    pub closed spec fn results(&self) -> tokio::sync::oneshot::Receiver<TaskResult> {
        self.channel.result_recv
    }

    /// A listener that has seen nothing of its attempt yet.
    pub open spec fn is_fresh(&self) -> bool {
        &&& self.cached() is None
        &&& !self.is_processed()
        &&& !self.spec_stopped()
        &&& self.can_command()
    }

    /// `after` is `before` once the poll outcome `p` has been taken in.
    pub open spec fn took_in(before: TaskListener, p: Polled<TaskResult>, after: TaskListener) -> bool {
        &&& after.is_processed() == before.is_processed()
        &&& after.spec_stopped() == before.spec_stopped()
        &&& after.can_command() == before.can_command()
        &&& after.handle() == before.handle()
        &&& after.cached() == match p {
            Polled::Ready(r) => Some(r),
            Polled::Pending => None,
            Polled::Closed => Some(
                TaskResult {
                    final_stage: crate::result::TaskFinalStage::UnknownError,
                    message: after.cached()->0.message,
                },
            ),
        }
        &&& p is Closed ==> after.cached()->0.message is Some
            && after.cached()->0.message->0@ == closed_channel_message()
    }

    pub fn new(
        state: Arc<Mutex<TaskState>>,
        result_recv: tokio::sync::oneshot::Receiver<TaskResult>,
        command_sender: tokio::sync::oneshot::Sender<TaskCommand>,
    ) -> (r: TaskListener)
        ensures
            r.is_fresh(),
            r.handle() == state,
            r.results() == result_recv,
    {
        TaskListener {
            state,
            channel: ListenerChannel::new(result_recv, command_sender),
            task_result: None,
            processed: false,
            stopped: false,
        }
    }

    /// Takes in the outcome of a poll of the result channel: a result is
    /// kept, and a closed channel counts as an `UnknownError` result.
    pub fn accept_poll(&mut self, p: Polled<TaskResult>)
        requires
            old(self).cached() is None,
        ensures
            TaskListener::took_in(*old(self), p, *final(self)),
            final(self).results() == old(self).results(),
    {
        match p {
            Polled::Ready(r) => {
                self.task_result = Some(r);
            },
            Polled::Pending => {},
            Polled::Closed => {
                self.task_result = Some(
                    TaskResult::new_unknown_error(
                        String::from_str("Task result channel closed unexpectedly"),
                    ),
                );
            },
        }
    }

    /// Looks for the result without blocking. A cached result, a processed
    /// or a stopped listener is answered from the cache without touching the
    /// channel.
    pub fn try_receive(&mut self) -> (r: Option<&TaskResult>)
        ensures
            owned(r) == final(self).cached(),
            old(self).cached() is Some || old(self).is_processed() || old(self).spec_stopped()
                ==> *final(self) == *old(self),
            !(old(self).cached() is Some || old(self).is_processed() || old(self).spec_stopped())
                ==> exists|p: Polled<TaskResult>| TaskListener::took_in(*old(self), p, *final(self)),
    {
        if self.task_result.is_some() || self.processed || self.stopped {
            return self.task_result.as_ref();
        }
        let p = poll_once(&mut self.channel.result_recv);
        let ghost gp = p;
        self.accept_poll(p);
        assert(TaskListener::took_in(*old(self), gp, *self));
        self.task_result.as_ref()
    }

    /// Hands `command` to the running attempt. A stopped listener is left
    /// as it is; otherwise the command channel is used up, so at most one
    /// command reaches an attempt. Returns whether the command was handed
    /// over.
    pub fn send_command(&mut self, command: TaskCommand) -> (r: bool)
        ensures
            old(self).spec_stopped() || !old(self).can_command() ==> *final(self) == *old(self)
                && !r,
            !old(self).spec_stopped() ==> {
                &&& r == old(self).can_command()
                &&& !final(self).can_command()
                &&& final(self).cached() == old(self).cached()
                &&& final(self).is_processed() == old(self).is_processed()
                &&& final(self).spec_stopped() == old(self).spec_stopped()
                &&& final(self).handle() == old(self).handle()
                &&& final(self).results() == old(self).results()
            },
    {
        if self.stopped {
            return false;
        }
        match self.channel.command_sender.take() {
            Some(tx) => {
                let _ = tx.send(command);
                true
            },
            None => false,
        }
    }

    /// Starts another attempt when the task is stopped, through `sender`,
    /// with fresh channels and the same shared state. When the queue is
    /// closed the shared state is handed back and the listener is unchanged.
    pub fn resume_task(&mut self, sender: &RequestSender) -> (r: Result<(), Arc<Mutex<TaskState>>>)
        ensures
            !old(self).spec_stopped() ==> r is Ok && *final(self) == *old(self),
            old(self).spec_stopped() && r is Ok ==> final(self).is_fresh() && final(self).handle()
                == old(self).handle(),
            old(self).spec_stopped() && r is Err ==> *final(self) == *old(self) && r->Err_0
                == old(self).handle(),
    {
        if !self.stopped {
            return Ok(());
        }
        match sender.send_resume_request(self.state.clone()) {
            Ok(channel) => {
                self.stopped = false;
                self.channel = channel;
                self.processed = false;
                self.task_result = None;
                Ok(())
            },
            Err(task) => Err(task.release_state()),
        }
    }

    /// Turns the task into its finished record, from a snapshot of its state,
    /// and marks it processed.
    pub fn into_finished_task(&mut self) -> (r: FinishedTask)
        ensures
            exists|snap: TaskState| is_entry_of(r, old(self).cached(), snap),
            final(self).is_processed(),
            final(self).cached() == old(self).cached(),
            final(self).spec_stopped() == old(self).spec_stopped(),
            final(self).handle() == old(self).handle(),
    {
        self.processed = true;
        let snap = read_shared(&self.state);
        FinishedTask::from_snapshot(self.task_result.as_ref(), &snap)
    }

    pub fn get_state_handler(&self) -> (r: Arc<Mutex<TaskState>>)
        ensures
            r == self.handle(),
    {
        self.state.clone()
    }

    pub fn task_result(&self) -> (r: Option<&TaskResult>)
        ensures
            owned(r) == self.cached(),
    {
        self.task_result.as_ref()
    }

    pub fn processed(&self) -> (r: bool)
        ensures
            r == self.is_processed(),
    {
        self.processed
    }

    pub fn is_stopped(&self) -> (r: bool)
        ensures
            r == self.spec_stopped(),
    {
        self.stopped
    }

    pub fn mark_processed(&mut self)
        ensures
            final(self).is_processed(),
            final(self).spec_stopped() == old(self).spec_stopped(),
            final(self).cached() == old(self).cached(),
            final(self).can_command() == old(self).can_command(),
            final(self).handle() == old(self).handle(),
    {
        self.processed = true;
    }

    pub fn mark_stopped(&mut self)
        ensures
            final(self).spec_stopped(),
            final(self).is_processed() == old(self).is_processed(),
            final(self).cached() == old(self).cached(),
            final(self).can_command() == old(self).can_command(),
            final(self).handle() == old(self).handle(),
    {
        self.stopped = true;
    }
}

} // verus!
