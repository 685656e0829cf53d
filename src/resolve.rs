//! The decisions of one download attempt, as a state machine.
//!
//! The driver performs each [`ResolverAction`] (an HTTP request, a file
//! operation, a poll of the command channel) and feeds back what happened
//! as a [`ResolverEvent`]. The machine decides the next step, keeps the
//! shared [`TaskState`] up to date, and ends with exactly one
//! [`ResolverAction::Report`].
use vstd::prelude::*;

use crate::address::{
    choose_file_name, download_file_name, get_proper_url, join_path, joined, path_of, proper_url,
    url_path,
};
use crate::header::{accepts_byte_ranges, is_bytes_unit, parse_content_length, parse_u64};
use crate::naming::{get_filename_no_duplicate, is_first_free};
use crate::result::{TaskFinalStage, TaskResult};
use crate::state::TaskState;
use crate::task::{DownloadRequest, TaskCommand};

verus! {

/// The headers of a response that the attempt reads, as text, and the URL
/// that finally answered.
pub struct ResponseHead {
    pub content_length: Option<String>,
    pub accept_ranges: Option<String>,
    pub url: String,
}

/// The outcome of a non-blocking look at the command channel.
#[derive(Debug, Clone, Copy, PartialEq, Eq, Structural)]
pub enum CommandPoll {
    /// No command is waiting.
    Idle,
    Received(TaskCommand),
    /// The front end dropped its end of the channel.
    Closed,
}

/// What the driver reports back after performing an action.
pub enum ResolverEvent {
    /// The attempt starts; `now_ms` is the front end's clock.
    Begin { now_ms: u64 },
    Connected(ResponseHead),
    ConnectFailed(String),
    /// The destination directory and the names of the files in it.
    DirectoryListed { dir: String, existing: Vec<String> },
    /// The destination file is open; `len` is its current length.
    FileOpened { len: u64 },
    FileFailed(String),
    Truncated,
    Polled(CommandPoll),
    /// One chunk of `len` bytes arrived and was written.
    ChunkWritten { len: u64 },
    StreamFailed(String),
    WriteFailed(String),
    StreamEnded,
    Flushed,
    FlushFailed(String),
}

/// What the driver is asked to do next.
pub enum ResolverAction {
    /// GET `url`, with `Range: bytes=<start>-` when `range_start` is given.
    Connect { url: String, range_start: Option<u64> },
    /// Make sure the download directory exists and list the names in it.
    ListDirectory,
    /// Create `path`, truncating what was there, for writing.
    CreateFile { path: String },
    /// Open the existing `path` for appending, without creating it.
    OpenForAppend { path: String },
    /// Cut the open file to `len` bytes.
    TruncateFile { len: u64 },
    /// Look at the command channel without waiting.
    PollCommand,
    /// Read the next chunk of the body and write it to the file.
    WriteNextChunk,
    /// Flush the buffered file.
    Flush,
    /// Send this result to the front end; the attempt is over.
    Report(TaskResult),
}

/// Where an attempt stands.
#[derive(Debug, Clone, Copy, PartialEq, Eq, Structural)]
pub enum Phase {
    Start,
    /// Waiting for the response to a request.
    Connecting,
    /// Waiting for the listing of the download directory.
    Listing,
    /// Waiting for the destination file to be created.
    Creating,
    /// Waiting for the existing file to be opened for appending.
    Opening,
    /// Waiting for the existing file to be cut to the resume offset.
    Truncating,
    /// Waiting for a look at the command channel.
    Polling,
    /// Waiting for the next chunk.
    Streaming,
    /// Waiting for the flush, then reporting the given stage.
    Flushing(TaskFinalStage),
    Done,
}

/// The decision state of one attempt.
pub struct Resolver {
    pub request: DownloadRequest,
    pub phase: Phase,
    /// The URL requested: the normalised request URL, or the recorded one
    /// when resuming.
    pub url: String,
    /// The path of the normalised request URL.
    pub request_path: String,
    /// Where a resumed transfer continues: the byte count kept at its start.
    pub resume_from: u64,
    /// The headers of the response, held until the file name is chosen.
    pub head_length: Option<u64>,
    pub head_ranges: bool,
    pub head_url: String,
}

/// `a` reports a result at `stage` with the diagnostic `m`.
pub open spec fn reports(a: ResolverAction, stage: TaskFinalStage, m: Seq<char>) -> bool {
    a is Report && a->Report_0.final_stage == stage && a->Report_0.message is Some
        && a->Report_0.message->0@ == m
}

/// `a` reports a result at `stage`.
pub open spec fn reports_stage(a: ResolverAction, stage: TaskFinalStage) -> bool {
    a is Report && a->Report_0.final_stage == stage
}

/// The Content-Length a header value announces.
pub open spec fn header_length(h: Option<String>) -> Option<u64> {
    match h {
        Some(v) => parse_u64(v@),
        None => None,
    }
}

/// Whether an Accept-Ranges header value announces byte ranges.
pub open spec fn header_ranges(h: Option<String>) -> bool {
    match h {
        Some(v) => is_bytes_unit(v@),
        None => false,
    }
}

/// The total length of a resumed transfer: the bytes kept plus what the
/// ranged response announces, when that fits.
pub open spec fn resumed_length(kept: u64, announced: Option<u64>) -> Option<u64> {
    match announced {
        Some(n) if kept + n <= u64::MAX => Some((kept + n) as u64),
        _ => None,
    }
}

impl Phase {
    /// Whether the body is being transferred: the headers are recorded and
    /// only the byte count may still change.
    pub open spec fn in_transfer(self) -> bool {
        self is Polling || self is Streaming || self is Flushing || self is Done
    }
}

/// The offset a resumed transfer continues from: the bytes kept when the
/// server honours ranges, otherwise none.
pub open spec fn resume_offset(s0: TaskState) -> u64 {
    if s0.accept_ranges {
        s0.downloaded
    } else {
        0
    }
}

/// Starting a fresh download of the URL typed as `url`.
pub open spec fn starts_normal(url: Seq<char>, r1: Resolver, a: ResolverAction) -> bool {
    match proper_url(url) {
        None => reports_stage(a, TaskFinalStage::UnknownUrl) && a->Report_0.message is Some,
        Some((href, path)) => {
            &&& a is Connect
            &&& a->Connect_url@ == href
            &&& a->Connect_range_start is None
            &&& r1.phase is Connecting
            &&& r1.url@ == href
            &&& r1.request_path@ == path
        },
    }
}

/// Starting another attempt at a task: the byte count is kept only when the
/// server honours ranges, speed sampling restarts, and the file is opened
/// for appending or else recreated empty.
pub open spec fn starts_resume(
    s0: TaskState,
    now_ms: u64,
    r1: Resolver,
    s1: TaskState,
    a: ResolverAction,
) -> bool {
    match s0.url {
        None => reports_stage(a, TaskFinalStage::FailToResumeConnection) && s1 == s0,
        Some(u) => {
            &&& s1 == TaskState {
                downloaded: resume_offset(s0),
                last_updated: now_ms,
                last_downloaded: resume_offset(s0),
                last_speed: None,
                ..s0
            }
            &&& r1.url@ == u@
            &&& r1.resume_from == resume_offset(s0)
            &&& if s0.accept_ranges {
                a is OpenForAppend && a->OpenForAppend_path@ == s0.filepath@ && r1.phase is Opening
            } else {
                a is CreateFile && a->CreateFile_path@ == s0.filepath@ && r1.phase is Creating
            }
        },
    }
}

/// The state after the response to a resumed request: with ranges the total
/// is the kept bytes plus the announced rest; without, the headers are read
/// afresh.
pub open spec fn resumed_state(s0: TaskState, kept: u64, head: ResponseHead) -> TaskState {
    if s0.accept_ranges {
        TaskState { content_length: resumed_length(kept, header_length(head.content_length)), ..s0 }
    } else {
        TaskState {
            content_length: header_length(head.content_length),
            accept_ranges: header_ranges(head.accept_ranges),
            ..s0
        }
    }
}

/// A response arrived.
pub open spec fn connected(
    r0: Resolver,
    s0: TaskState,
    head: ResponseHead,
    r1: Resolver,
    s1: TaskState,
    a: ResolverAction,
) -> bool {
    if r0.request is Resume {
        a is PollCommand && r1.phase is Polling && s1 == resumed_state(s0, r0.resume_from, head)
    } else {
        &&& a is ListDirectory
        &&& r1.phase is Listing
        &&& s1 == s0
        &&& r1.request_path == r0.request_path
        &&& r1.head_length == header_length(head.content_length)
        &&& r1.head_ranges == header_ranges(head.accept_ranges)
        &&& r1.head_url@ == head.url@
    }
}

/// The directory listing arrived: the file is named after the URLs, kept
/// clear of the names present, and the headers are recorded.
pub open spec fn listed(
    r0: Resolver,
    s0: TaskState,
    dir: Seq<char>,
    existing: Seq<String>,
    r1: Resolver,
    s1: TaskState,
    a: ResolverAction,
) -> bool {
    &&& a is CreateFile
    &&& a->CreateFile_path@ == s1.filepath@
    &&& r1.phase is Creating
    &&& exists|name: Seq<char>|
        is_first_free(
            existing,
            download_file_name(r0.request_path@, path_of(r0.head_url@)),
            name,
        ) && s1.filepath@ == joined(dir, name)
    &&& s1 == TaskState {
        filepath: s1.filepath,
        content_length: r0.head_length,
        accept_ranges: r0.head_ranges,
        url: Some(r0.head_url),
        ..s0
    }
}

/// What a command poll leads to.
pub open spec fn polled(p: CommandPoll, r1: Resolver, a: ResolverAction) -> bool {
    match p {
        CommandPoll::Idle => a is WriteNextChunk && r1.phase is Streaming,
        CommandPoll::Received(TaskCommand::Stop) => a is Flush && r1.phase == Phase::Flushing(
            TaskFinalStage::Interrupted,
        ),
        CommandPoll::Received(TaskCommand::Abort) => a is Flush && r1.phase == Phase::Flushing(
            TaskFinalStage::Abort,
        ),
        CommandPoll::Closed => reports_stage(a, TaskFinalStage::UnknownError),
    }
}

/// The fields of the machine that a step leaves as they were: starting sets
/// the URL and either the request path or the resume offset, a response to
/// a fresh request sets the held headers, and every other step changes the
/// phase alone.
pub open spec fn fields_kept(r0: Resolver, event: ResolverEvent, r1: Resolver) -> bool {
    match (r0.phase, event) {
        (Phase::Start, ResolverEvent::Begin { .. }) => if r0.request is Resume {
            r1 == (Resolver { phase: r1.phase, url: r1.url, resume_from: r1.resume_from, ..r0 })
        } else {
            r1 == (Resolver { phase: r1.phase, url: r1.url, request_path: r1.request_path, ..r0 })
        },
        (Phase::Connecting, ResolverEvent::Connected(_)) => if r0.request is Resume {
            r1 == (Resolver { phase: r1.phase, ..r0 })
        } else {
            r1 == (Resolver {
                phase: r1.phase,
                head_length: r1.head_length,
                head_ranges: r1.head_ranges,
                head_url: r1.head_url,
                ..r0
            })
        },
        _ => r1 == (Resolver { phase: r1.phase, ..r0 }),
    }
}

/// One step of the machine: from `r0` with state `s0`, `event` leads to
/// `r1`, state `s1` and action `a`.
pub open spec fn follows(
    r0: Resolver,
    s0: TaskState,
    event: ResolverEvent,
    r1: Resolver,
    s1: TaskState,
    a: ResolverAction,
) -> bool {
    let resume = r0.request is Resume;
    fields_kept(r0, event, r1) && match (r0.phase, event) {
        (Phase::Start, ResolverEvent::Begin { now_ms }) => match r0.request {
            DownloadRequest::Normal { url } => s1 == s0 && starts_normal(url@, r1, a),
            DownloadRequest::Resume => starts_resume(s0, now_ms, r1, s1, a),
        },
        (Phase::Connecting, ResolverEvent::Connected(head)) => connected(r0, s0, head, r1, s1, a),
        (Phase::Connecting, ResolverEvent::ConnectFailed(m)) => s1 == s0 && reports(
            a,
            if resume {
                TaskFinalStage::FailToResumeConnection
            } else {
                TaskFinalStage::FailToConnection
            },
            m@,
        ),
        (Phase::Listing, ResolverEvent::DirectoryListed { dir, existing }) => listed(
            r0,
            s0,
            dir@,
            existing@,
            r1,
            s1,
            a,
        ),
        (Phase::Creating, ResolverEvent::FileOpened { len: _ }) => s1 == s0 && if resume {
            &&& a is Connect
            &&& a->Connect_url@ == r0.url@
            &&& a->Connect_range_start is None
            &&& r1.phase is Connecting
        } else {
            a is PollCommand && r1.phase is Polling
        },
        (Phase::Creating, ResolverEvent::FileFailed(m)) => s1 == s0 && reports(
            a,
            if resume {
                TaskFinalStage::FailToResumeFile
            } else {
                TaskFinalStage::FailToCreateFile
            },
            m@,
        ),
        (Phase::Opening, ResolverEvent::FileOpened { len }) => s1 == s0 && if len
            < r0.resume_from {
            reports_stage(a, TaskFinalStage::FileCorrupted)
        } else {
            a == ResolverAction::TruncateFile { len: r0.resume_from } && r1.phase is Truncating
        },
        (Phase::Opening, ResolverEvent::FileFailed(m)) => s1 == s0 && reports(
            a,
            TaskFinalStage::FailToResumeFile,
            m@,
        ),
        (Phase::Truncating, ResolverEvent::FileFailed(m)) => s1 == s0 && reports(
            a,
            TaskFinalStage::FailToResumeFile,
            m@,
        ),
        (Phase::Truncating, ResolverEvent::Truncated) => {
            &&& s1 == s0
            &&& a is Connect
            &&& a->Connect_url@ == r0.url@
            &&& a->Connect_range_start == Some(r0.resume_from)
            &&& r1.phase is Connecting
        },
        (Phase::Polling, ResolverEvent::Polled(p)) => s1 == s0 && polled(p, r1, a),
        (Phase::Streaming, ResolverEvent::ChunkWritten { len }) => if s0.downloaded + len
            <= u64::MAX {
            &&& s1 == TaskState { downloaded: (s0.downloaded + len) as u64, ..s0 }
            &&& a is PollCommand
            &&& r1.phase is Polling
        } else {
            s1 == s0 && reports_stage(a, TaskFinalStage::UnknownError)
        },
        (Phase::Streaming, ResolverEvent::StreamFailed(m)) => s1 == s0 && reports(
            a,
            TaskFinalStage::FailToDownload,
            m@,
        ),
        (Phase::Streaming, ResolverEvent::WriteFailed(m)) => s1 == s0 && reports(
            a,
            TaskFinalStage::FailToWrite,
            m@,
        ),
        (Phase::Streaming, ResolverEvent::StreamEnded) => {
            &&& s1 == s0
            &&& a is Flush
            &&& r1.phase == Phase::Flushing(TaskFinalStage::Finished)
        },
        (Phase::Flushing(stage), ResolverEvent::Flushed) => s1 == s0 && a == ResolverAction::Report(
            TaskResult { final_stage: stage, message: None },
        ),
        (Phase::Flushing(_), ResolverEvent::FlushFailed(m)) => s1 == s0 && reports(
            a,
            TaskFinalStage::FailToWrite,
            m@,
        ),
        _ => s1 == s0 && reports_stage(a, TaskFinalStage::UnknownError),
    }
}

/// Within an attempt the byte count does not go down, except at the start of
/// a resume whose server does not honour ranges, where it becomes 0.
pub open spec fn progress_kept(r0: Resolver, s0: TaskState, s1: TaskState) -> bool {
    s1.downloaded >= s0.downloaded || (r0.phase is Start && r0.request is Resume
        && !s0.accept_ranges && s1.downloaded == 0)
}

/// While the body is transferred nothing but the byte count changes; in
/// particular a recorded content length stays as it is.
pub open spec fn only_count_moves(r0: Resolver, s0: TaskState, s1: TaskState) -> bool {
    r0.phase.in_transfer() ==> s1 == TaskState { downloaded: s1.downloaded, ..s0 }
}

/// The byte count of a task does not go down within an attempt; it is reset
/// to 0 only when a resume finds that the server does not honour ranges.
pub proof fn lemma_progress_monotone(
    r0: Resolver,
    s0: TaskState,
    event: ResolverEvent,
    r1: Resolver,
    s1: TaskState,
    a: ResolverAction,
)
    requires
        follows(r0, s0, event, r1, s1, a),
    ensures
        progress_kept(r0, s0, s1),
{
}

/// Once the body flows, the content length and every other recorded header
/// stay as they are; only the byte count moves.
pub proof fn lemma_headers_fixed_in_transfer(
    r0: Resolver,
    s0: TaskState,
    event: ResolverEvent,
    r1: Resolver,
    s1: TaskState,
    a: ResolverAction,
)
    requires
        follows(r0, s0, event, r1, s1, a),
    ensures
        only_count_moves(r0, s0, s1),
{
}

/// Resuming a range-capable task whose file turns out shorter than the
/// bytes counted ends in `FileCorrupted`, and neither step opens a stream.
pub proof fn lemma_short_file_is_corrupted(
    r0: Resolver,
    s0: TaskState,
    now_ms: u64,
    r1: Resolver,
    s1: TaskState,
    a1: ResolverAction,
    len: u64,
    r2: Resolver,
    s2: TaskState,
    a2: ResolverAction,
)
    requires
        r0.phase is Start,
        r0.request is Resume,
        s0.url is Some,
        s0.accept_ranges,
        follows(r0, s0, ResolverEvent::Begin { now_ms }, r1, s1, a1),
        r1.request == r0.request,
        len < s0.downloaded,
        follows(r1, s1, ResolverEvent::FileOpened { len }, r2, s2, a2),
    ensures
        reports_stage(a2, TaskFinalStage::FileCorrupted),
        !(a1 is Connect),
        s2.downloaded == s0.downloaded,
{
}

/// Resuming a task whose server does not honour ranges sets the byte count
/// to 0 and recreates the file empty; only once that is done does it
/// reconnect, without a range.
pub proof fn lemma_no_ranges_restart(
    r0: Resolver,
    s0: TaskState,
    now_ms: u64,
    r1: Resolver,
    s1: TaskState,
    a1: ResolverAction,
    len: u64,
    r2: Resolver,
    s2: TaskState,
    a2: ResolverAction,
)
    requires
        r0.phase is Start,
        r0.request is Resume,
        s0.url is Some,
        !s0.accept_ranges,
        follows(r0, s0, ResolverEvent::Begin { now_ms }, r1, s1, a1),
        r1.request == r0.request,
        follows(r1, s1, ResolverEvent::FileOpened { len }, r2, s2, a2),
    ensures
        s1.downloaded == 0,
        a1 is CreateFile && a1->CreateFile_path@ == s0.filepath@,
        a2 is Connect && a2->Connect_range_start is None,
        a2->Connect_url@ == s0.url->0@,
        s2.downloaded == 0,
{
}

/// Resuming a range-capable task whose file holds at least the bytes
/// counted: the file is cut to that count, then the recorded URL is asked
/// for from that offset, and the total becomes the offset plus what the
/// ranged response announces.
pub proof fn lemma_ranged_resume(
    r0: Resolver,
    s0: TaskState,
    now_ms: u64,
    r1: Resolver,
    s1: TaskState,
    a1: ResolverAction,
    len: u64,
    r2: Resolver,
    s2: TaskState,
    a2: ResolverAction,
    r3: Resolver,
    s3: TaskState,
    a3: ResolverAction,
    head: ResponseHead,
    r4: Resolver,
    s4: TaskState,
    a4: ResolverAction,
)
    requires
        r0.phase is Start,
        r0.request is Resume,
        s0.url is Some,
        s0.accept_ranges,
        follows(r0, s0, ResolverEvent::Begin { now_ms }, r1, s1, a1),
        len >= s0.downloaded,
        follows(r1, s1, ResolverEvent::FileOpened { len }, r2, s2, a2),
        follows(r2, s2, ResolverEvent::Truncated, r3, s3, a3),
        follows(r3, s3, ResolverEvent::Connected(head), r4, s4, a4),
    ensures
        a1 is OpenForAppend && a1->OpenForAppend_path@ == s0.filepath@,
        a2 == (ResolverAction::TruncateFile { len: s0.downloaded }),
        a3 is Connect && a3->Connect_url@ == s0.url->0@,
        a3->Connect_range_start == Some(s0.downloaded),
        a4 is PollCommand && r4.phase is Polling,
        s4.downloaded == s0.downloaded,
        s4.content_length == resumed_length(s0.downloaded, header_length(head.content_length)),
{
}

/// A Stop seen between chunks flushes the file and then reports
/// `Interrupted`, with the state, and so the bytes counted, unchanged.
pub proof fn lemma_stop_interrupts(
    r0: Resolver,
    s0: TaskState,
    r1: Resolver,
    s1: TaskState,
    a1: ResolverAction,
    r2: Resolver,
    s2: TaskState,
    a2: ResolverAction,
)
    requires
        r0.phase is Polling,
        follows(r0, s0, ResolverEvent::Polled(CommandPoll::Received(TaskCommand::Stop)), r1, s1, a1),
        follows(r1, s1, ResolverEvent::Flushed, r2, s2, a2),
    ensures
        a1 is Flush,
        a2 == ResolverAction::Report(TaskResult { final_stage: TaskFinalStage::Interrupted, message: None }),
        s2 == s0,
{
}

/// The end of the body flushes the file and then reports `Finished`, with
/// the state, and so the bytes counted and the length, unchanged.
pub proof fn lemma_end_finishes(
    r0: Resolver,
    s0: TaskState,
    r1: Resolver,
    s1: TaskState,
    a1: ResolverAction,
    r2: Resolver,
    s2: TaskState,
    a2: ResolverAction,
)
    requires
        r0.phase is Streaming,
        follows(r0, s0, ResolverEvent::StreamEnded, r1, s1, a1),
        follows(r1, s1, ResolverEvent::Flushed, r2, s2, a2),
    ensures
        a1 is Flush,
        a2 == ResolverAction::Report(TaskResult { final_stage: TaskFinalStage::Finished, message: None }),
        s2 == s0,
{
}

/// The bytes that the `ChunkWritten` events of `es` report.
pub open spec fn chunk_bytes(es: Seq<ResolverEvent>) -> nat
    decreases es.len(),
{
    if es.len() == 0 {
        0
    } else {
        chunk_bytes(es.drop_last()) + match es.last() {
            ResolverEvent::ChunkWritten { len } => len as nat,
            _ => 0,
        }
    }
}

/// `rs`, `ss`, `es` and `acts` are a run of steps: machine states, task
/// states, the events fed in and the actions that came out.
pub open spec fn is_run(
    rs: Seq<Resolver>,
    ss: Seq<TaskState>,
    es: Seq<ResolverEvent>,
    acts: Seq<ResolverAction>,
) -> bool {
    &&& rs.len() == es.len() + 1
    &&& ss.len() == es.len() + 1
    &&& acts.len() == es.len()
    &&& forall|i: int|
        0 <= i < es.len() ==> follows(rs[i], ss[i], #[trigger] es[i], rs[i + 1], ss[i + 1], acts[i])
}

/// Over a run that stays in the transfer phases and reports no
/// `UnknownError`, the state changes only by the bytes of the chunks written.
pub proof fn lemma_transfer_counts_chunks(
    rs: Seq<Resolver>,
    ss: Seq<TaskState>,
    es: Seq<ResolverEvent>,
    acts: Seq<ResolverAction>,
)
    requires
        is_run(rs, ss, es, acts),
        forall|i: int| 0 <= i < es.len() ==> (#[trigger] rs[i]).phase.in_transfer(),
        forall|i: int| 0 <= i < es.len() ==> !reports_stage(#[trigger] acts[i], TaskFinalStage::UnknownError),
    ensures
        ss.last().downloaded == ss[0].downloaded + chunk_bytes(es),
        ss.last() == (TaskState { downloaded: ss.last().downloaded, ..ss[0] }),
    decreases es.len(),
{
    if es.len() > 0 {
        let n = es.len() - 1;
        let rs0 = rs.drop_last();
        let ss0 = ss.drop_last();
        let es0 = es.drop_last();
        let acts0 = acts.drop_last();
        assert forall|i: int| 0 <= i < es0.len() implies follows(
            rs0[i],
            ss0[i],
            #[trigger] es0[i],
            rs0[i + 1],
            ss0[i + 1],
            acts0[i],
        ) by {
            assert(es0[i] == es[i]);
        }
        assert forall|i: int| 0 <= i < es0.len() implies (#[trigger] rs0[i]).phase.in_transfer() by {
            assert(rs0[i] == rs[i]);
        }
        assert forall|i: int| 0 <= i < es0.len() implies !reports_stage(
            #[trigger] acts0[i],
            TaskFinalStage::UnknownError,
        ) by {
            assert(acts0[i] == acts[i]);
        }
        lemma_transfer_counts_chunks(rs0, ss0, es0, acts0);
        assert(follows(rs[n], ss[n], es[n], rs[n + 1], ss[n + 1], acts[n]));
        assert(rs[n].phase.in_transfer());
        assert(!reports_stage(acts[n], TaskFinalStage::UnknownError));
        assert(ss0.last() == ss[n]);
    }
}

/// A fresh download: after the URL resolves, the response arrives, the file
/// is named and created, and the body is transferred, the state holds the
/// announced length and range support, the URL that answered, and exactly
/// the bytes of the chunks written.
pub proof fn lemma_fresh_download(
    url: String,
    s0: TaskState,
    head: ResponseHead,
    dir: String,
    existing: Vec<String>,
    len: u64,
    rs: Seq<Resolver>,
    ss: Seq<TaskState>,
    es: Seq<ResolverEvent>,
    acts: Seq<ResolverAction>,
)
    requires
        s0.downloaded == 0,
        is_run(rs, ss, es, acts),
        es.len() >= 4,
        rs[0].phase is Start,
        rs[0].request == (DownloadRequest::Normal { url }),
        ss[0] == s0,
        es[0] is Begin,
        proper_url(url@) is Some,
        es[1] == ResolverEvent::Connected(head),
        es[2] == (ResolverEvent::DirectoryListed { dir, existing }),
        es[3] == (ResolverEvent::FileOpened { len }),
        forall|i: int| 4 <= i < es.len() ==> (#[trigger] rs[i]).phase.in_transfer(),
        forall|i: int| 4 <= i < es.len() ==> !reports_stage(#[trigger] acts[i], TaskFinalStage::UnknownError),
    ensures
        ss.last().content_length == header_length(head.content_length),
        ss.last().accept_ranges == header_ranges(head.accept_ranges),
        ss.last().url is Some && ss.last().url->0@ == head.url@,
        ss.last().downloaded == chunk_bytes(es.subrange(4, es.len() as int)),
{
    assert(follows(rs[0], ss[0], es[0], rs[1], ss[1], acts[0]));
    assert(follows(rs[1], ss[1], es[1], rs[2], ss[2], acts[1]));
    assert(follows(rs[2], ss[2], es[2], rs[3], ss[3], acts[2]));
    assert(follows(rs[3], ss[3], es[3], rs[4], ss[4], acts[3]));
    let k = es.len() as int;
    let trs = rs.subrange(4, k + 1);
    let tss = ss.subrange(4, k + 1);
    let tes = es.subrange(4, k);
    let tacts = acts.subrange(4, k);
    assert forall|i: int| 0 <= i < tes.len() implies follows(
        trs[i],
        tss[i],
        #[trigger] tes[i],
        trs[i + 1],
        tss[i + 1],
        tacts[i],
    ) by {
        assert(tes[i] == es[i + 4]);
    }
    assert forall|i: int| 0 <= i < tes.len() implies (#[trigger] trs[i]).phase.in_transfer() by {
        assert(trs[i] == rs[i + 4]);
    }
    assert forall|i: int| 0 <= i < tes.len() implies !reports_stage(
        #[trigger] tacts[i],
        TaskFinalStage::UnknownError,
    ) by {
        assert(tacts[i] == acts[i + 4]);
    }
    lemma_transfer_counts_chunks(trs, tss, tes, tacts);
    assert(tss.last() == ss.last());
}

fn report(r: TaskResult) -> (a: ResolverAction)
    ensures
        a == ResolverAction::Report(r),
{
    ResolverAction::Report(r)
}

impl Resolver {
    pub open spec fn is_done(&self) -> bool {
        self.phase is Done
    }

    /// A machine for a new attempt at `request`.
    pub fn new(request: DownloadRequest) -> (r: Resolver)
        ensures
            r.request == request,
            r.phase is Start,
    {
        Resolver {
            request,
            phase: Phase::Start,
            url: String::new(),
            request_path: String::new(),
            resume_from: 0,
            head_length: None,
            head_ranges: false,
            head_url: String::new(),
        }
    }

    /// Whether the attempt has reported its result.
    pub fn finished(&self) -> (r: bool)
        ensures
            r == self.is_done(),
    {
        match self.phase {
            Phase::Done => true,
            _ => false,
        }
    }

    fn fail(&mut self, r: TaskResult) -> (a: ResolverAction)
        ensures
            a == ResolverAction::Report(r),
            *final(self) == (Resolver { phase: Phase::Done, ..*old(self) }),
    {
        self.phase = Phase::Done;
        report(r)
    }

    fn begin_normal(&mut self, url: &String) -> (a: ResolverAction)
        ensures
            *final(self) == (Resolver {
                phase: final(self).phase,
                url: final(self).url,
                request_path: final(self).request_path,
                ..*old(self)
            }),
            starts_normal(url@, *final(self), a),
            a is Report <==> final(self).is_done(),
    {
        match get_proper_url(url.as_str()) {
            Ok(u) => {
                self.url = u.href.clone();
                self.request_path = u.path;
                self.phase = Phase::Connecting;
                ResolverAction::Connect { url: u.href, range_start: None }
            },
            Err(m) => self.fail(TaskResult::new_unknown_url(m)),
        }
    }

    fn begin_resume(&mut self, state: &mut TaskState, now_ms: u64) -> (a: ResolverAction)
        ensures
            *final(self) == (Resolver {
                phase: final(self).phase,
                url: final(self).url,
                resume_from: final(self).resume_from,
                ..*old(self)
            }),
            starts_resume(*old(state), now_ms, *final(self), *final(state), a),
            a is Report <==> final(self).is_done(),
    {
        let url = match &state.url {
            Some(u) => u.clone(),
            None => {
                return self.fail(
                    TaskResult::new_failed_to_resume_connection(
                        String::from_str("the task has no URL to resume from"),
                    ),
                );
            },
        };
        if !state.accept_ranges {
            state.downloaded = 0;
        }
        state.last_updated = now_ms;
        state.last_downloaded = state.downloaded;
        state.last_speed = None;
        self.url = url;
        self.resume_from = state.downloaded;
        let path = state.filepath.clone();
        if state.accept_ranges {
            self.phase = Phase::Opening;
            ResolverAction::OpenForAppend { path }
        } else {
            self.phase = Phase::Creating;
            ResolverAction::CreateFile { path }
        }
    }

    fn on_connected(&mut self, state: &mut TaskState, head: ResponseHead) -> (a: ResolverAction)
        requires
            old(self).phase is Connecting,
        ensures
            fields_kept(*old(self), ResolverEvent::Connected(head), *final(self)),
            connected(*old(self), *old(state), head, *final(self), *final(state), a),
            a is Report <==> final(self).is_done(),
    {
        let length = match &head.content_length {
            Some(v) => parse_content_length(Some(v.as_str())),
            None => None,
        };
        let ranges = match &head.accept_ranges {
            Some(v) => accepts_byte_ranges(Some(v.as_str())),
            None => false,
        };
        match self.request {
            DownloadRequest::Normal { .. } => {
                self.head_length = length;
                self.head_ranges = ranges;
                self.head_url = head.url;
                self.phase = Phase::Listing;
                ResolverAction::ListDirectory
            },
            DownloadRequest::Resume => {
                if state.accept_ranges {
                    state.content_length = match length {
                        Some(n) => self.resume_from.checked_add(n),
                        None => None,
                    };
                } else {
                    state.content_length = length;
                    state.accept_ranges = ranges;
                }
                self.phase = Phase::Polling;
                ResolverAction::PollCommand
            },
        }
    }

    fn on_listed(
        &mut self,
        state: &mut TaskState,
        dir: String,
        existing: Vec<String>,
    ) -> (a: ResolverAction)
        ensures
            *final(self) == (Resolver { phase: final(self).phase, ..*old(self) }),
            listed(*old(self), *old(state), dir@, existing@, *final(self), *final(state), a),
            a is Report <==> final(self).is_done(),
    {
        let response_path = url_path(self.head_url.as_str());
        let wanted = choose_file_name(self.request_path.as_str(), response_path.as_str());
        let name = get_filename_no_duplicate(&existing, wanted.as_str());
        let path = join_path(dir.as_str(), name.as_str());
        state.content_length = self.head_length;
        state.accept_ranges = self.head_ranges;
        state.filepath = path.clone();
        state.url = Some(self.head_url.clone());
        self.phase = Phase::Creating;
        ResolverAction::CreateFile { path }
    }

    /// Decides the next step of the attempt from what the driver reports.
    /// An event that does not fit the current phase ends the attempt with
    /// `UnknownError`.
    pub fn step(&mut self, state: &mut TaskState, event: ResolverEvent) -> (a: ResolverAction)
        requires
            !old(self).is_done(),
        ensures
            final(self).request == old(self).request,
            a is Report <==> final(self).is_done(),
            follows(*old(self), *old(state), event, *final(self), *final(state), a),
            progress_kept(*old(self), *old(state), *final(state)),
            only_count_moves(*old(self), *old(state), *final(state)),
    {
        let ghost r0 = *self;
        let ghost s0 = *state;
        let ghost e = event;
        let unexpected = String::from_str("unexpected event for the attempt's phase");
        let a = match (self.phase, event) {
            (Phase::Start, ResolverEvent::Begin { now_ms }) => {
                match &self.request {
                    DownloadRequest::Normal { url } => {
                        let u = url.clone();
                        self.begin_normal(&u)
                    },
                    DownloadRequest::Resume => self.begin_resume(state, now_ms),
                }
            },
            (Phase::Connecting, ResolverEvent::Connected(head)) => self.on_connected(state, head),
            (Phase::Connecting, ResolverEvent::ConnectFailed(m)) => {
                match self.request {
                    DownloadRequest::Normal { .. } => self.fail(
                        TaskResult::new_failed_to_connection(m),
                    ),
                    DownloadRequest::Resume => self.fail(
                        TaskResult::new_failed_to_resume_connection(m),
                    ),
                }
            },
            (Phase::Listing, ResolverEvent::DirectoryListed { dir, existing }) => self.on_listed(
                state,
                dir,
                existing,
            ),
            (Phase::Creating, ResolverEvent::FileOpened { .. }) => {
                match self.request {
                    DownloadRequest::Normal { .. } => {
                        self.phase = Phase::Polling;
                        ResolverAction::PollCommand
                    },
                    DownloadRequest::Resume => {
                        self.phase = Phase::Connecting;
                        ResolverAction::Connect { url: self.url.clone(), range_start: None }
                    },
                }
            },
            (Phase::Creating, ResolverEvent::FileFailed(m)) => {
                match self.request {
                    DownloadRequest::Normal { .. } => self.fail(
                        TaskResult::new_failed_to_create_file(m),
                    ),
                    DownloadRequest::Resume => self.fail(TaskResult::new_failed_to_resume_file(m)),
                }
            },
            (Phase::Opening, ResolverEvent::FileOpened { len }) => {
                if len < self.resume_from {
                    self.fail(
                        TaskResult::new_file_corrupted(
                            String::from_str("the file is shorter than the bytes recorded"),
                        ),
                    )
                } else {
                    self.phase = Phase::Truncating;
                    ResolverAction::TruncateFile { len: self.resume_from }
                }
            },
            (Phase::Opening, ResolverEvent::FileFailed(m)) => self.fail(
                TaskResult::new_failed_to_resume_file(m),
            ),
            (Phase::Truncating, ResolverEvent::Truncated) => {
                self.phase = Phase::Connecting;
                ResolverAction::Connect { url: self.url.clone(), range_start: Some(self.resume_from) }
            },
            (Phase::Truncating, ResolverEvent::FileFailed(m)) => self.fail(
                TaskResult::new_failed_to_resume_file(m),
            ),
            (Phase::Polling, ResolverEvent::Polled(p)) => {
                match p {
                    CommandPoll::Idle => {
                        self.phase = Phase::Streaming;
                        ResolverAction::WriteNextChunk
                    },
                    CommandPoll::Received(TaskCommand::Stop) => {
                        self.phase = Phase::Flushing(TaskFinalStage::Interrupted);
                        ResolverAction::Flush
                    },
                    CommandPoll::Received(TaskCommand::Abort) => {
                        self.phase = Phase::Flushing(TaskFinalStage::Abort);
                        ResolverAction::Flush
                    },
                    CommandPoll::Closed => self.fail(
                        TaskResult::new_unknown_error(
                            String::from_str("the command channel closed unexpectedly"),
                        ),
                    ),
                }
            },
            (Phase::Streaming, ResolverEvent::ChunkWritten { len }) => {
                match state.downloaded.checked_add(len) {
                    Some(total) => {
                        state.downloaded = total;
                        self.phase = Phase::Polling;
                        ResolverAction::PollCommand
                    },
                    None => self.fail(
                        TaskResult::new_unknown_error(
                            String::from_str("the byte count does not fit in 64 bits"),
                        ),
                    ),
                }
            },
            (Phase::Streaming, ResolverEvent::StreamFailed(m)) => self.fail(
                TaskResult::new_failed_to_download(m),
            ),
            (Phase::Streaming, ResolverEvent::WriteFailed(m)) => self.fail(
                TaskResult::new_failed_to_write(m),
            ),
            (Phase::Streaming, ResolverEvent::StreamEnded) => {
                self.phase = Phase::Flushing(TaskFinalStage::Finished);
                ResolverAction::Flush
            },
            (Phase::Flushing(stage), ResolverEvent::Flushed) => self.fail(
                TaskResult::new(stage, None),
            ),
            (Phase::Flushing(_), ResolverEvent::FlushFailed(m)) => self.fail(
                TaskResult::new_failed_to_write(m),
            ),
            _ => self.fail(TaskResult::new_unknown_error(unexpected)),
        };
        proof {
            lemma_progress_monotone(r0, s0, e, *self, *state, a);
            lemma_headers_fixed_in_transfer(r0, s0, e, *self, *state, a);
        }
        a
    }
}

} // verus!
