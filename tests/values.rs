use request_tui::finish::{FinishState, FinishedTask};
use request_tui::header::{accepts_byte_ranges, parse_content_length, parse_decimal_u64};
use request_tui::result::{TaskFinalStage, TaskResult};
use request_tui::state::TaskState;
use request_tui::text::{decimal_string, get_human_readable_size};

#[test]
fn content_length_values() {
    assert_eq!(parse_content_length(Some("1000")), Some(1000));
    assert_eq!(parse_content_length(Some("+5")), Some(5));
    assert_eq!(parse_content_length(Some("0")), Some(0));
    assert_eq!(parse_content_length(Some("18446744073709551615")), Some(u64::MAX));
    assert_eq!(parse_content_length(Some("18446744073709551616")), None);
    assert_eq!(parse_content_length(Some("")), None);
    assert_eq!(parse_content_length(Some("+")), None);
    assert_eq!(parse_content_length(Some("-1")), None);
    assert_eq!(parse_content_length(Some("12a")), None);
    assert_eq!(parse_content_length(None), None);
    assert_eq!(parse_decimal_u64("007"), Some(7));
}

#[test]
fn byte_ranges_values() {
    assert!(accepts_byte_ranges(Some("bytes")));
    assert!(accepts_byte_ranges(Some("BYTES")));
    assert!(accepts_byte_ranges(Some("ByTeS")));
    assert!(!accepts_byte_ranges(Some("none")));
    assert!(!accepts_byte_ranges(Some("bytes ")));
    assert!(!accepts_byte_ranges(None));
}

#[test]
fn decimal_values() {
    assert_eq!(decimal_string(0), "0");
    assert_eq!(decimal_string(42), "42");
    assert_eq!(decimal_string(u64::MAX), "18446744073709551615");
}

#[test]
fn human_sizes() {
    assert_eq!(get_human_readable_size(0), "0 B");
    assert_eq!(get_human_readable_size(1023), "1023 B");
    assert_eq!(get_human_readable_size(1024), "1.00 KB");
    assert_eq!(get_human_readable_size(1536), "1.50 KB");
    assert_eq!(get_human_readable_size(1152), "1.12 KB");
    assert_eq!(get_human_readable_size(1048575), "1024.00 KB");
    assert_eq!(get_human_readable_size(1048576), "1.00 MB");
    assert_eq!(get_human_readable_size(5 * 1048576 + 104858), "5.10 MB");
    assert_eq!(get_human_readable_size(1073741824), "1.00 GB");
    assert_eq!(get_human_readable_size(3 * 1073741824 / 2), "1.50 GB");
}

#[test]
fn speed_sampling() {
    let mut s = TaskState::new(1000);
    assert_eq!(s.get_speed_string(), "-- B/s");
    s.downloaded = 1000;
    s.ui_update(1499);
    assert_eq!(s.last_speed, None);
    assert_eq!(s.last_updated, 1000);
    s.ui_update(1500);
    assert_eq!(s.last_speed, Some(2000));
    assert_eq!(s.last_updated, 1500);
    assert_eq!(s.last_downloaded, 1000);
    assert_eq!(s.get_speed_string(), "1.95 KB/s");
    s.downloaded = 1500;
    s.ui_update(2500);
    assert_eq!(s.last_speed, Some(500));
}

#[test]
fn progress_strings() {
    let mut s = TaskState::new(0);
    s.downloaded = 512;
    assert_eq!(s.get_downloaded_string(), "512 B / --");
    s.content_length = Some(2048);
    assert_eq!(s.get_downloaded_string(), "512 B/2.00 KB");
}

#[test]
fn result_constructors() {
    let r = TaskResult::new_file_corrupted("short".to_string());
    assert_eq!(r.stage(), TaskFinalStage::FileCorrupted);
    assert_eq!(r.message(), Some("short"));
    assert_eq!(TaskResult::new_interrupted().stage(), TaskFinalStage::Interrupted);
    assert_eq!(TaskResult::new_interrupted().message(), None);
    assert_eq!(TaskResult::new_abort().stage(), TaskFinalStage::Abort);
    assert_eq!(TaskResult::new_finished().stage(), TaskFinalStage::Finished);
    assert_eq!(TaskResult::new_unknown_url("u".into()).stage(), TaskFinalStage::UnknownUrl);
    assert_eq!(TaskResult::new_failed_to_connection("c".into()).stage(), TaskFinalStage::FailToConnection);
    assert_eq!(TaskResult::new_failed_to_create_file("f".into()).stage(), TaskFinalStage::FailToCreateFile);
    assert_eq!(TaskResult::new_failed_to_download("d".into()).stage(), TaskFinalStage::FailToDownload);
    assert_eq!(TaskResult::new_failed_to_write("w".into()).stage(), TaskFinalStage::FailToWrite);
    assert_eq!(TaskResult::new_failed_to_resume_file("r".into()).stage(), TaskFinalStage::FailToResumeFile);
    assert_eq!(
        TaskResult::new_failed_to_resume_connection("r".into()).stage(),
        TaskFinalStage::FailToResumeConnection
    );
    assert_eq!(TaskResult::new_unknown_error("e".into()).message(), Some("e"));
}

#[test]
fn stage_labels() {
    assert_eq!(TaskFinalStage::Interrupted.label(), "Stopped");
    assert_eq!(TaskFinalStage::FailToConnection.label(), "Connection Failed");
    assert_eq!(TaskFinalStage::FailToResumeConnection.label(), "Connection failed");
    assert!(TaskFinalStage::Finished.is_success());
    assert!(!TaskFinalStage::Abort.is_success());
}

#[test]
fn finished_entry_backfills_unknown_length() {
    let mut s = TaskState::new(0);
    s.downloaded = 700;
    let r = TaskResult::new_finished();
    let e = FinishedTask::from_snapshot(Some(&r), &s);
    assert_eq!(e.state, FinishState::Success);
    assert_eq!(e.content_length, Some(700));
    assert_eq!(e.downloaded, 700);
}

#[test]
fn finished_entry_keeps_known_length() {
    let mut s = TaskState::new(0);
    s.downloaded = 1000;
    s.content_length = Some(1000);
    let r = TaskResult::new_finished();
    let e = FinishedTask::from_snapshot(Some(&r), &s);
    assert_eq!(e.content_length, Some(1000));
    assert_eq!(e.downloaded, 1000);
}

#[test]
fn failed_entry_is_not_backfilled() {
    let mut s = TaskState::new(0);
    s.downloaded = 300;
    let r = TaskResult::new_abort();
    let e = FinishedTask::from_snapshot(Some(&r), &s);
    assert_eq!(e.state, FinishState::Failure);
    assert_eq!(e.content_length, None);
    let none = FinishedTask::from_snapshot(None, &s);
    assert_eq!(none.state, FinishState::Failure);
}
