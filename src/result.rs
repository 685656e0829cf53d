//! Terminal outcomes of a download attempt.
use vstd::prelude::*;

verus! {

/// The stage at which an attempt ended.
#[derive(Debug, Clone, Copy, PartialEq, Eq, Structural)]
pub enum TaskFinalStage {
    UnknownUrl,
    FailToConnection,
    FailToCreateFile,
    FailToDownload,
    FailToWrite,
    FailToResumeFile,
    FileCorrupted,
    FailToResumeConnection,
    Interrupted,
    Abort,
    Finished,
    UnknownError,
}

/// The outcome of one attempt: its final stage and an optional diagnostic.
#[derive(Debug, Clone)]
pub struct TaskResult {
    pub final_stage: TaskFinalStage,
    pub message: Option<String>,
}

impl TaskFinalStage {
    /// Whether the stage is the one success outcome.
    pub open spec fn spec_is_success(self) -> bool {
        self == TaskFinalStage::Finished
    }

    /// Whether the stage reports an error with a diagnostic message.
    pub open spec fn carries_message(self) -> bool {
        !(self == TaskFinalStage::Interrupted || self == TaskFinalStage::Abort
            || self == TaskFinalStage::Finished)
    }

    /// The label shown for the stage.
    pub open spec fn spec_label(self) -> Seq<char> {
        match self {
            TaskFinalStage::UnknownUrl => "Unknown URL"@,
            TaskFinalStage::FailToConnection => "Connection Failed"@,
            TaskFinalStage::FailToCreateFile => "Failed to create file"@,
            TaskFinalStage::FailToDownload => "Failed to download"@,
            TaskFinalStage::FailToWrite => "Failed to write to file"@,
            TaskFinalStage::FailToResumeFile => "Cannot open file"@,
            TaskFinalStage::FileCorrupted => "File corrupted"@,
            TaskFinalStage::FailToResumeConnection => "Connection failed"@,
            TaskFinalStage::Interrupted => "Stopped"@,
            TaskFinalStage::Abort => "Abort"@,
            TaskFinalStage::Finished => "Finished"@,
            TaskFinalStage::UnknownError => "Unknown error"@,
        }
    }

    /// The label shown for the stage.
    pub fn label(&self) -> (r: String)
        ensures
            r@ == self.spec_label(),
    {
        let s = match self {
            TaskFinalStage::UnknownUrl => "Unknown URL",
            TaskFinalStage::FailToConnection => "Connection Failed",
            TaskFinalStage::FailToCreateFile => "Failed to create file",
            TaskFinalStage::FailToDownload => "Failed to download",
            TaskFinalStage::FailToWrite => "Failed to write to file",
            TaskFinalStage::FailToResumeFile => "Cannot open file",
            TaskFinalStage::FileCorrupted => "File corrupted",
            TaskFinalStage::FailToResumeConnection => "Connection failed",
            TaskFinalStage::Interrupted => "Stopped",
            TaskFinalStage::Abort => "Abort",
            TaskFinalStage::Finished => "Finished",
            TaskFinalStage::UnknownError => "Unknown error",
        };
        String::from_str(s)
    }

    /// Whether the stage is the one success outcome.
    pub fn is_success(&self) -> (r: bool)
        ensures
            r == self.spec_is_success(),
    {
        match self {
            TaskFinalStage::Finished => true,
            _ => false,
        }
    }
}

impl TaskResult {
    pub fn new(final_stage: TaskFinalStage, message: Option<String>) -> (r: TaskResult)
        ensures
            r.final_stage == final_stage,
            r.message == message,
    {
        TaskResult { final_stage, message }
    }

    pub fn new_unknown_url(message: String) -> (r: TaskResult)
        ensures
            r.final_stage == TaskFinalStage::UnknownUrl,
            r.message == Some(message),
    {
        TaskResult::new(TaskFinalStage::UnknownUrl, Some(message))
    }

    pub fn new_failed_to_connection(message: String) -> (r: TaskResult)
        ensures
            r.final_stage == TaskFinalStage::FailToConnection,
            r.message == Some(message),
    {
        TaskResult::new(TaskFinalStage::FailToConnection, Some(message))
    }

    pub fn new_failed_to_create_file(message: String) -> (r: TaskResult)
        ensures
            r.final_stage == TaskFinalStage::FailToCreateFile,
            r.message == Some(message),
    {
        TaskResult::new(TaskFinalStage::FailToCreateFile, Some(message))
    }

    pub fn new_failed_to_download(message: String) -> (r: TaskResult)
        ensures
            r.final_stage == TaskFinalStage::FailToDownload,
            r.message == Some(message),
    {
        TaskResult::new(TaskFinalStage::FailToDownload, Some(message))
    }

    pub fn new_failed_to_write(message: String) -> (r: TaskResult)
        ensures
            r.final_stage == TaskFinalStage::FailToWrite,
            r.message == Some(message),
    {
        TaskResult::new(TaskFinalStage::FailToWrite, Some(message))
    }

    pub fn new_failed_to_resume_file(message: String) -> (r: TaskResult)
        ensures
            r.final_stage == TaskFinalStage::FailToResumeFile,
            r.message == Some(message),
    {
        TaskResult::new(TaskFinalStage::FailToResumeFile, Some(message))
    }

    pub fn new_file_corrupted(message: String) -> (r: TaskResult)
        ensures
            r.final_stage == TaskFinalStage::FileCorrupted,
            r.message == Some(message),
    {
        TaskResult::new(TaskFinalStage::FileCorrupted, Some(message))
    }

    pub fn new_failed_to_resume_connection(message: String) -> (r: TaskResult)
        ensures
            r.final_stage == TaskFinalStage::FailToResumeConnection,
            r.message == Some(message),
    {
        TaskResult::new(TaskFinalStage::FailToResumeConnection, Some(message))
    }

    pub fn new_interrupted() -> (r: TaskResult)
        ensures
            r.final_stage == TaskFinalStage::Interrupted,
            r.message is None,
    {
        TaskResult::new(TaskFinalStage::Interrupted, None)
    }

    pub fn new_abort() -> (r: TaskResult)
        ensures
            r.final_stage == TaskFinalStage::Abort,
            r.message is None,
    {
        TaskResult::new(TaskFinalStage::Abort, None)
    }

    pub fn new_finished() -> (r: TaskResult)
        ensures
            r.final_stage == TaskFinalStage::Finished,
            r.message is None,
    {
        TaskResult::new(TaskFinalStage::Finished, None)
    }

    pub fn new_unknown_error(message: String) -> (r: TaskResult)
        ensures
            r.final_stage == TaskFinalStage::UnknownError,
            r.message == Some(message),
    {
        TaskResult::new(TaskFinalStage::UnknownError, Some(message))
    }

    pub fn stage(&self) -> (r: TaskFinalStage)
        ensures
            r == self.final_stage,
    {
        self.final_stage
    }

    pub fn message(&self) -> (r: Option<&str>)
        ensures
            r is None <==> self.message is None,
            r is Some ==> r->0@ == self.message->0@,
    {
        match &self.message {
            Some(m) => Some(m.as_str()),
            None => None,
        }
    }
}

} // verus!
