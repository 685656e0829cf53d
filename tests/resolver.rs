use request_tui::resolve::{CommandPoll, Phase, Resolver, ResolverAction, ResolverEvent, ResponseHead};
use request_tui::finish::{FinishState, FinishedTask};
use request_tui::result::TaskFinalStage;
use request_tui::state::TaskState;
use request_tui::task::{DownloadRequest, TaskCommand};

fn head(len: Option<&str>, ranges: Option<&str>, url: &str) -> ResponseHead {
    ResponseHead {
        content_length: len.map(|s| s.to_string()),
        accept_ranges: ranges.map(|s| s.to_string()),
        url: url.to_string(),
    }
}

fn stage_of(a: &ResolverAction) -> TaskFinalStage {
    match a {
        ResolverAction::Report(r) => r.stage(),
        _ => panic!("expected a report"),
    }
}

fn connect_of(a: &ResolverAction) -> (String, Option<u64>) {
    match a {
        ResolverAction::Connect { url, range_start } => (url.clone(), *range_start),
        _ => panic!("expected a connect"),
    }
}

/// Runs a fresh download of a 1000-byte resource up to the first poll.
fn start_normal(state: &mut TaskState) -> Resolver {
    let mut r = Resolver::new(DownloadRequest::new_normal("example.com/files/data.bin".to_string()));
    let a = r.step(state, ResolverEvent::Begin { now_ms: 0 });
    assert_eq!(connect_of(&a), ("http://example.com/files/data.bin".to_string(), None));
    let a = r.step(
        state,
        ResolverEvent::Connected(head(Some("1000"), Some("bytes"), "http://example.com/files/data.bin")),
    );
    assert!(matches!(a, ResolverAction::ListDirectory));
    let a = r.step(
        state,
        ResolverEvent::DirectoryListed { dir: "/dl".to_string(), existing: vec!["data.bin".to_string()] },
    );
    match a {
        ResolverAction::CreateFile { path } => assert_eq!(path, "/dl/data(1).bin"),
        _ => panic!("expected a file creation"),
    }
    assert_eq!(state.filepath, "/dl/data(1).bin");
    assert_eq!(state.content_length, Some(1000));
    assert!(state.accept_ranges);
    assert_eq!(state.url.as_deref(), Some("http://example.com/files/data.bin"));
    let a = r.step(state, ResolverEvent::FileOpened { len: 0 });
    assert!(matches!(a, ResolverAction::PollCommand));
    r
}

/// Feeds chunks of 100 bytes until `until` bytes are written.
fn feed(r: &mut Resolver, state: &mut TaskState, until: u64) {
    while state.downloaded < until {
        let a = r.step(state, ResolverEvent::Polled(CommandPoll::Idle));
        assert!(matches!(a, ResolverAction::WriteNextChunk));
        let before = state.downloaded;
        let a = r.step(state, ResolverEvent::ChunkWritten { len: 100 });
        assert!(matches!(a, ResolverAction::PollCommand));
        assert_eq!(state.downloaded, before + 100);
        assert_eq!(state.content_length, Some(1000));
    }
}

#[test]
fn normal_download_finishes() {
    let mut state = TaskState::new(0);
    let mut r = start_normal(&mut state);
    feed(&mut r, &mut state, 1000);
    let a = r.step(&mut state, ResolverEvent::Polled(CommandPoll::Idle));
    assert!(matches!(a, ResolverAction::WriteNextChunk));
    let a = r.step(&mut state, ResolverEvent::StreamEnded);
    assert!(matches!(a, ResolverAction::Flush));
    let a = r.step(&mut state, ResolverEvent::Flushed);
    assert_eq!(stage_of(&a), TaskFinalStage::Finished);
    assert!(r.finished());
    assert_eq!(state.downloaded, 1000);
    assert_eq!(state.content_length, Some(1000));
    let result = match a {
        ResolverAction::Report(res) => res,
        _ => unreachable!(),
    };
    let entry = FinishedTask::from_snapshot(Some(&result), &state);
    assert_eq!(entry.state, FinishState::Success);
    assert_eq!(entry.downloaded, 1000);
    assert_eq!(entry.content_length, Some(1000));
    assert_eq!(entry.filepath, "/dl/data(1).bin");
}

#[test]
fn stop_then_resume_with_range() {
    let mut state = TaskState::new(0);
    let mut r = start_normal(&mut state);
    feed(&mut r, &mut state, 400);
    let a = r.step(&mut state, ResolverEvent::Polled(CommandPoll::Received(TaskCommand::Stop)));
    assert!(matches!(a, ResolverAction::Flush));
    let a = r.step(&mut state, ResolverEvent::Flushed);
    assert_eq!(stage_of(&a), TaskFinalStage::Interrupted);
    assert_eq!(state.downloaded, 400);

    let mut r = Resolver::new(DownloadRequest::Resume);
    let a = r.step(&mut state, ResolverEvent::Begin { now_ms: 9000 });
    match a {
        ResolverAction::OpenForAppend { path } => assert_eq!(path, "/dl/data(1).bin"),
        _ => panic!("expected an append"),
    }
    assert_eq!(state.downloaded, 400);
    assert_eq!(state.last_updated, 9000);
    assert_eq!(state.last_downloaded, 400);
    assert_eq!(state.last_speed, None);
    let a = r.step(&mut state, ResolverEvent::FileOpened { len: 450 });
    assert!(matches!(a, ResolverAction::TruncateFile { len: 400 }));
    let a = r.step(&mut state, ResolverEvent::Truncated);
    assert_eq!(connect_of(&a), ("http://example.com/files/data.bin".to_string(), Some(400)));
    let a = r.step(
        &mut state,
        ResolverEvent::Connected(head(Some("600"), Some("bytes"), "http://example.com/files/data.bin")),
    );
    assert!(matches!(a, ResolverAction::PollCommand));
    assert_eq!(state.content_length, Some(1000));
    feed(&mut r, &mut state, 1000);
    r.step(&mut state, ResolverEvent::Polled(CommandPoll::Idle));
    r.step(&mut state, ResolverEvent::StreamEnded);
    let a = r.step(&mut state, ResolverEvent::Flushed);
    assert_eq!(stage_of(&a), TaskFinalStage::Finished);
    assert_eq!(state.downloaded, 1000);
}

#[test]
fn short_file_is_corrupted() {
    let mut state = TaskState::new(0);
    state.url = Some("http://example.com/a".to_string());
    state.filepath = "/dl/a".to_string();
    state.accept_ranges = true;
    state.downloaded = 500;
    let mut r = Resolver::new(DownloadRequest::Resume);
    let a = r.step(&mut state, ResolverEvent::Begin { now_ms: 1 });
    assert!(matches!(a, ResolverAction::OpenForAppend { .. }));
    let a = r.step(&mut state, ResolverEvent::FileOpened { len: 499 });
    assert_eq!(stage_of(&a), TaskFinalStage::FileCorrupted);
    assert!(r.finished());
    assert_eq!(state.downloaded, 500);
}

#[test]
fn resume_without_ranges_starts_over() {
    let mut state = TaskState::new(0);
    state.url = Some("http://example.com/a".to_string());
    state.filepath = "/dl/a".to_string();
    state.accept_ranges = false;
    state.content_length = Some(1000);
    state.downloaded = 300;
    let mut r = Resolver::new(DownloadRequest::Resume);
    let a = r.step(&mut state, ResolverEvent::Begin { now_ms: 5 });
    match a {
        ResolverAction::CreateFile { path } => assert_eq!(path, "/dl/a"),
        _ => panic!("expected the file to be recreated"),
    }
    assert_eq!(state.downloaded, 0);
    let a = r.step(&mut state, ResolverEvent::FileOpened { len: 0 });
    assert_eq!(connect_of(&a), ("http://example.com/a".to_string(), None));
    let a = r.step(&mut state, ResolverEvent::Connected(head(Some("1200"), Some("bytes"), "http://example.com/a")));
    assert!(matches!(a, ResolverAction::PollCommand));
    assert_eq!(state.content_length, Some(1200));
    assert!(state.accept_ranges);
    assert_eq!(state.filepath, "/dl/a");
}

#[test]
fn bad_url_reports_unknown_url() {
    let mut state = TaskState::new(0);
    let mut r = Resolver::new(DownloadRequest::new_normal("http://[::1".to_string()));
    let a = r.step(&mut state, ResolverEvent::Begin { now_ms: 0 });
    assert_eq!(stage_of(&a), TaskFinalStage::UnknownUrl);
    match &a {
        ResolverAction::Report(res) => assert!(res.message().is_some()),
        _ => unreachable!(),
    }
    assert!(r.finished());
}

#[test]
fn connection_failures() {
    let mut state = TaskState::new(0);
    let mut r = Resolver::new(DownloadRequest::new_normal("http://example.com/x".to_string()));
    r.step(&mut state, ResolverEvent::Begin { now_ms: 0 });
    let a = r.step(&mut state, ResolverEvent::ConnectFailed("refused".to_string()));
    assert_eq!(stage_of(&a), TaskFinalStage::FailToConnection);
    match a {
        ResolverAction::Report(res) => assert_eq!(res.message(), Some("refused")),
        _ => unreachable!(),
    }

    let mut state = TaskState::new(0);
    let mut r = Resolver::new(DownloadRequest::Resume);
    let a = r.step(&mut state, ResolverEvent::Begin { now_ms: 0 });
    assert_eq!(stage_of(&a), TaskFinalStage::FailToResumeConnection);
}

#[test]
fn file_failures() {
    let mut state = TaskState::new(0);
    let mut r = start_normal_until_create(&mut state);
    let a = r.step(&mut state, ResolverEvent::FileFailed("denied".to_string()));
    assert_eq!(stage_of(&a), TaskFinalStage::FailToCreateFile);

    let mut state = TaskState::new(0);
    state.url = Some("http://example.com/a".to_string());
    state.accept_ranges = true;
    let mut r = Resolver::new(DownloadRequest::Resume);
    r.step(&mut state, ResolverEvent::Begin { now_ms: 0 });
    let a = r.step(&mut state, ResolverEvent::FileFailed("gone".to_string()));
    assert_eq!(stage_of(&a), TaskFinalStage::FailToResumeFile);
}

fn start_normal_until_create(state: &mut TaskState) -> Resolver {
    let mut r = Resolver::new(DownloadRequest::new_normal("http://example.com/".to_string()));
    r.step(state, ResolverEvent::Begin { now_ms: 0 });
    r.step(state, ResolverEvent::Connected(head(None, None, "http://example.com/")));
    let a = r.step(state, ResolverEvent::DirectoryListed { dir: "/dl".to_string(), existing: vec![] });
    match a {
        ResolverAction::CreateFile { path } => assert_eq!(path, "/dl/tmp.bin"),
        _ => panic!("expected a file creation"),
    }
    assert_eq!(state.content_length, None);
    assert!(!state.accept_ranges);
    r
}

#[test]
fn transfer_failures_and_commands() {
    let mut state = TaskState::new(0);
    let mut r = start_normal(&mut state);
    r.step(&mut state, ResolverEvent::Polled(CommandPoll::Idle));
    let a = r.step(&mut state, ResolverEvent::StreamFailed("reset".to_string()));
    assert_eq!(stage_of(&a), TaskFinalStage::FailToDownload);

    let mut state = TaskState::new(0);
    let mut r = start_normal(&mut state);
    r.step(&mut state, ResolverEvent::Polled(CommandPoll::Idle));
    let a = r.step(&mut state, ResolverEvent::WriteFailed("disk full".to_string()));
    assert_eq!(stage_of(&a), TaskFinalStage::FailToWrite);

    let mut state = TaskState::new(0);
    let mut r = start_normal(&mut state);
    let a = r.step(&mut state, ResolverEvent::Polled(CommandPoll::Received(TaskCommand::Abort)));
    assert!(matches!(a, ResolverAction::Flush));
    assert_eq!(r.phase, Phase::Flushing(TaskFinalStage::Abort));
    let a = r.step(&mut state, ResolverEvent::Flushed);
    assert_eq!(stage_of(&a), TaskFinalStage::Abort);

    let mut state = TaskState::new(0);
    let mut r = start_normal(&mut state);
    let a = r.step(&mut state, ResolverEvent::Polled(CommandPoll::Closed));
    assert_eq!(stage_of(&a), TaskFinalStage::UnknownError);

    let mut state = TaskState::new(0);
    let mut r = start_normal(&mut state);
    r.step(&mut state, ResolverEvent::Polled(CommandPoll::Idle));
    r.step(&mut state, ResolverEvent::StreamEnded);
    let a = r.step(&mut state, ResolverEvent::FlushFailed("io".to_string()));
    assert_eq!(stage_of(&a), TaskFinalStage::FailToWrite);
}

#[test]
fn unexpected_event_ends_attempt() {
    let mut state = TaskState::new(0);
    let mut r = Resolver::new(DownloadRequest::new_normal("http://example.com/a".to_string()));
    let a = r.step(&mut state, ResolverEvent::Flushed);
    assert_eq!(stage_of(&a), TaskFinalStage::UnknownError);
    assert!(r.finished());
}

#[test]
fn byte_count_overflow_is_reported() {
    let mut state = TaskState::new(0);
    let mut r = start_normal(&mut state);
    state.downloaded = u64::MAX - 10;
    r.step(&mut state, ResolverEvent::Polled(CommandPoll::Idle));
    let a = r.step(&mut state, ResolverEvent::ChunkWritten { len: 11 });
    assert_eq!(stage_of(&a), TaskFinalStage::UnknownError);
    assert_eq!(state.downloaded, u64::MAX - 10);
}
