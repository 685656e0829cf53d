use request_tui::finish::FinishState;
use request_tui::lists::{next_index, previous_index, DownloadList, FinishList, ListError, SelectedAction};
use request_tui::listener::TaskListener;
use request_tui::result::{TaskFinalStage, TaskResult};
use request_tui::sender::RequestSender;
use request_tui::state::TaskState;
use request_tui::task::{DownloadRequest, TaskCommand};
use std::sync::{Arc, Mutex};

fn listener() -> (TaskListener, tokio::sync::oneshot::Sender<TaskResult>, tokio::sync::oneshot::Receiver<TaskCommand>) {
    let (res_tx, res_rx) = tokio::sync::oneshot::channel();
    let (cmd_tx, cmd_rx) = tokio::sync::oneshot::channel();
    let state = Arc::new(Mutex::new(TaskState::new(0)));
    (TaskListener::new(state, res_rx, cmd_tx), res_tx, cmd_rx)
}

#[test]
fn pending_result_is_none() {
    let (mut l, _tx, _rx) = listener();
    assert!(l.try_receive().is_none());
}

#[test]
fn cached_result_is_returned_again() {
    let (mut l, tx, _rx) = listener();
    tx.send(TaskResult::new_finished()).ok().unwrap();
    assert_eq!(l.try_receive().map(|r| r.stage()), Some(TaskFinalStage::Finished));
    // The channel is now closed; the cache answers without looking at it.
    assert_eq!(l.try_receive().map(|r| r.stage()), Some(TaskFinalStage::Finished));
    assert_eq!(l.task_result().map(|r| r.stage()), Some(TaskFinalStage::Finished));
}

#[test]
fn closed_result_channel_is_unknown_error() {
    let (mut l, tx, _rx) = listener();
    drop(tx);
    let r = l.try_receive().unwrap();
    assert_eq!(r.stage(), TaskFinalStage::UnknownError);
    assert_eq!(r.message(), Some("Task result channel closed unexpectedly"));
}

#[test]
fn stopped_listener_does_not_poll() {
    let (mut l, tx, _rx) = listener();
    l.mark_stopped();
    tx.send(TaskResult::new_finished()).ok().unwrap();
    assert!(l.try_receive().is_none());
    assert!(l.is_stopped());
}

#[test]
fn command_is_sent_once() {
    let (mut l, _tx, mut rx) = listener();
    assert!(l.send_command(TaskCommand::Stop));
    assert!(!l.send_command(TaskCommand::Abort));
    assert_eq!(rx.try_recv().ok(), Some(TaskCommand::Stop));
}

#[test]
fn stopped_listener_sends_nothing() {
    let (mut l, _tx, mut rx) = listener();
    l.mark_stopped();
    assert!(!l.send_command(TaskCommand::Stop));
    // The command channel is left open: nothing sent, nothing dropped.
    assert_eq!(rx.try_recv().err(), Some(tokio::sync::oneshot::error::TryRecvError::Empty));
}

#[test]
fn submit_and_resume() {
    let (qtx, mut qrx) = tokio::sync::mpsc::channel(4);
    let sender = RequestSender::new(qtx);
    let mut l = sender.send_normal_request("http://example.com/a".to_string(), 0).ok().unwrap();
    let task = qrx.try_recv().ok().unwrap();
    match task.request() {
        DownloadRequest::Normal { url } => assert_eq!(url, "http://example.com/a"),
        DownloadRequest::Resume => panic!("expected a fresh request"),
    }
    task.reporter.send(TaskResult::new_interrupted()).ok().unwrap();
    assert_eq!(l.try_receive().map(|r| r.stage()), Some(TaskFinalStage::Interrupted));
    // Not stopped yet: resuming does nothing.
    assert!(l.resume_task(&sender).is_ok());
    assert!(qrx.try_recv().is_err());
    l.mark_processed();
    l.mark_stopped();
    assert!(l.resume_task(&sender).is_ok());
    assert!(!l.is_stopped());
    assert!(!l.processed());
    assert!(l.task_result().is_none());
    let again = qrx.try_recv().ok().unwrap();
    assert!(matches!(again.request(), DownloadRequest::Resume));
    assert!(Arc::ptr_eq(&again.state, &l.get_state_handler()));
}

#[test]
fn closed_queue_gives_task_back() {
    let (qtx, qrx) = tokio::sync::mpsc::channel(4);
    drop(qrx);
    let sender = RequestSender::new(qtx);
    let t = sender.send_normal_request("http://example.com/a".to_string(), 0).err().unwrap();
    assert!(matches!(t.request(), DownloadRequest::Normal { .. }));
    let state = Arc::new(Mutex::new(TaskState::new(0)));
    let t = sender.send_resume_request(state.clone()).err().unwrap();
    assert!(Arc::ptr_eq(&t.release_state(), &state));
}

#[test]
fn finished_task_moves_to_finish_list() {
    let (qtx, mut qrx) = tokio::sync::mpsc::channel(4);
    let mut downloads = DownloadList::new(qtx);
    let mut finished = FinishList::new();
    assert!(downloads.append_normal_task("http://example.com/a".to_string(), 0).is_ok());
    assert!(downloads.append_normal_task("http://example.com/b".to_string(), 0).is_ok());
    let first = qrx.try_recv().ok().unwrap();
    let second = qrx.try_recv().ok().unwrap();
    {
        let mut s = first.state.lock().unwrap();
        s.downloaded = 1000;
    }
    first.reporter.send(TaskResult::new_finished()).ok().unwrap();
    second.reporter.send(TaskResult::new_interrupted()).ok().unwrap();
    downloads.handle_async(&mut finished);
    assert_eq!(downloads.list.len(), 1);
    assert_eq!(finished.list.len(), 1);
    assert_eq!(finished.list[0].state, FinishState::Success);
    assert_eq!(finished.list[0].downloaded, 1000);
    assert_eq!(finished.list[0].content_length, Some(1000));
    assert!(downloads.list[0].is_stopped());
    assert!(downloads.list[0].processed());
    assert_eq!(downloads.selected(), Some(0));
}

#[test]
fn list_index_errors() {
    let (qtx, _qrx) = tokio::sync::mpsc::channel(4);
    let mut downloads = DownloadList::new(qtx);
    let mut finished = FinishList::new();
    assert_eq!(downloads.stop_task(0), Err(ListError::IndexOutOfBounds));
    assert_eq!(downloads.abort_task(3, &mut finished), Err(ListError::IndexOutOfBounds));
    assert_eq!(downloads.resume_task(1, &mut finished), Err(ListError::IndexOutOfBounds));
}

#[test]
fn abort_of_stopped_task_retires_it() {
    let (qtx, _qrx) = tokio::sync::mpsc::channel(4);
    let mut downloads = DownloadList::new(qtx);
    let mut finished = FinishList::new();
    downloads.append_normal_task("http://example.com/a".to_string(), 0).ok().unwrap();
    downloads.list[0].mark_stopped();
    assert_eq!(downloads.abort_task(0, &mut finished), Ok(()));
    assert_eq!(downloads.list.len(), 0);
    assert_eq!(finished.list.len(), 1);
    assert_eq!(finished.list[0].state, FinishState::Failure);
}

#[test]
fn cursor_wraps() {
    let (qtx, _qrx) = tokio::sync::mpsc::channel(8);
    let mut downloads = DownloadList::new(qtx);
    downloads.select_next();
    assert_eq!(downloads.selected(), None);
    for u in ["a", "b", "c"] {
        downloads.append_normal_task(format!("http://example.com/{}", u), 0).ok().unwrap();
    }
    downloads.select_next();
    assert_eq!(downloads.selected(), Some(0));
    downloads.select_previous();
    assert_eq!(downloads.selected(), Some(2));
    downloads.select_next();
    assert_eq!(downloads.selected(), Some(0));
    downloads.set_selected(Some(7));
    downloads.select_previous();
    assert_eq!(downloads.selected(), Some(2));
    let mut f = FinishList::new();
    f.select_previous();
    assert_eq!(f.selected(), None);
}

#[test]
fn selected_task_actions() {
    let (qtx, mut qrx) = tokio::sync::mpsc::channel(4);
    let mut downloads = DownloadList::new(qtx);
    let mut finished = FinishList::new();
    downloads.append_normal_task("http://example.com/a".to_string(), 0).ok().unwrap();
    let mut task = qrx.try_recv().ok().unwrap();
    downloads.act_on_selected(SelectedAction::Stop, &mut finished);
    assert!(task.command_recv.try_recv().is_err());
    downloads.set_selected(Some(0));
    downloads.act_on_selected(SelectedAction::Stop, &mut finished);
    assert_eq!(task.command_recv.try_recv().ok(), Some(TaskCommand::Stop));
    downloads.set_selected(Some(5));
    downloads.act_on_selected(SelectedAction::Cancel, &mut finished);
    assert_eq!(downloads.selected(), None);
    assert_eq!(downloads.list.len(), 1);
    downloads.list[0].mark_stopped();
    downloads.set_selected(Some(0));
    downloads.act_on_selected(SelectedAction::Continue, &mut finished);
    assert!(!downloads.list[0].is_stopped());
    assert!(matches!(qrx.try_recv().ok().unwrap().request(), DownloadRequest::Resume));
}

#[test]
fn cursor_functions() {
    assert_eq!(next_index(None, 2), Some(0));
    assert_eq!(next_index(Some(1), 2), Some(0));
    assert_eq!(next_index(Some(0), 0), None);
    assert_eq!(previous_index(Some(0), 2), Some(1));
    assert_eq!(previous_index(Some(1), 2), Some(0));
    assert_eq!(previous_index(None, 3), Some(0));
}

#[test]
fn failed_task_is_stopped_and_kept() {
    let (qtx, mut qrx) = tokio::sync::mpsc::channel(4);
    let mut downloads = DownloadList::new(qtx);
    let mut finished = FinishList::new();
    downloads.append_normal_task("http://example.com/a".to_string(), 0).ok().unwrap();
    downloads.append_normal_task("http://example.com/b".to_string(), 0).ok().unwrap();
    downloads.append_normal_task("http://example.com/c".to_string(), 0).ok().unwrap();
    let a = qrx.try_recv().ok().unwrap();
    let b = qrx.try_recv().ok().unwrap();
    let _c = qrx.try_recv().ok().unwrap();
    a.reporter.send(TaskResult::new_abort()).ok().unwrap();
    b.reporter.send(TaskResult::new_failed_to_download("reset".to_string())).ok().unwrap();
    downloads.handle_async(&mut finished);
    assert_eq!(finished.list.len(), 1);
    assert_eq!(finished.list[0].state, FinishState::Failure);
    assert_eq!(downloads.list.len(), 2);
    assert!(downloads.list[0].is_stopped());
    assert!(downloads.list[0].processed());
    assert!(!downloads.list[1].is_stopped());
    assert!(!downloads.list[1].processed());
}

#[test]
fn several_leave_in_order() {
    let (qtx, mut qrx) = tokio::sync::mpsc::channel(8);
    let mut downloads = DownloadList::new(qtx);
    let mut finished = FinishList::new();
    for u in ["a", "b", "c", "d"] {
        downloads.append_normal_task(format!("http://example.com/{}", u), 0).ok().unwrap();
    }
    let tasks: Vec<_> = (0..4).map(|_| qrx.try_recv().ok().unwrap()).collect();
    for (i, t) in tasks.iter().enumerate() {
        t.state.lock().unwrap().downloaded = (i as u64 + 1) * 10;
    }
    let mut tasks = tasks.into_iter();
    let a = tasks.next().unwrap();
    let b = tasks.next().unwrap();
    let c = tasks.next().unwrap();
    let _d = tasks.next().unwrap();
    a.reporter.send(TaskResult::new_finished()).ok().unwrap();
    b.reporter.send(TaskResult::new_interrupted()).ok().unwrap();
    c.reporter.send(TaskResult::new_abort()).ok().unwrap();
    downloads.handle_async(&mut finished);
    assert_eq!(finished.list.len(), 2);
    assert_eq!(finished.list[0].downloaded, 10);
    assert_eq!(finished.list[0].state, FinishState::Success);
    assert_eq!(finished.list[1].downloaded, 30);
    assert_eq!(finished.list[1].state, FinishState::Failure);
    assert_eq!(downloads.list.len(), 2);
    assert!(downloads.list[0].is_stopped());
    assert!(!downloads.list[1].processed());
    assert!(Arc::ptr_eq(&downloads.list[0].get_state_handler(), &b.state));
    assert_eq!(downloads.selected(), Some(0));
}
