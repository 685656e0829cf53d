//! What the front end asks of the download engine.
use vstd::prelude::*;

verus! {

/// A request handed to the engine: a fresh download of a URL, or another
/// attempt at a task whose shared state already holds its URL and file.
#[derive(Debug)]
pub enum DownloadRequest {
    Normal { url: String },
    Resume,
}

impl DownloadRequest {
    pub fn new_normal(url: String) -> (r: DownloadRequest)
        ensures
            r == (DownloadRequest::Normal { url }),
    {
        DownloadRequest::Normal { url }
    }
}

/// A command from the front end to a running attempt.
#[derive(Debug, Clone, Copy, PartialEq, Eq, Structural)]
pub enum TaskCommand {
    /// Stop and keep the file, so that the task can be resumed.
    Stop,
    /// Stop for good.
    Abort,
}

} // verus!
