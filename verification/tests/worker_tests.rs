use sotto::commands::{spawn_model_download, DownloadTicket};
use sotto::downloads::{DownloadManager, DownloadStatus};
use sotto::error::CoreError;
use sotto::events::{EventStatus, Percent};
use sotto::worker::{DownloadTask, FailureKind, Phase, WorkerAction, WorkerEvent};

fn claimed(name: &str, present: bool, overwrite: bool) -> (DownloadManager, DownloadTicket) {
    let mut reg = DownloadManager::new();
    let ticket = spawn_model_download(&mut reg, name, present, overwrite).expect("ticket");
    (reg, ticket)
}

fn ok_response(len: Option<u64>) -> WorkerEvent {
    WorkerEvent::Response { success: true, status: "200 OK".to_string(), content_length: len }
}

fn failed(kind: FailureKind, message: &str) -> WorkerEvent {
    WorkerEvent::Failed { kind, message: message.to_string() }
}

#[test]
fn download_runs_to_completion() {
    let (mut reg, ticket) = claimed("tiny", false, false);
    let mut task = DownloadTask::new(&ticket);
    assert_eq!(task.model_info().name, "tiny");
    assert_eq!(task.phase(), Phase::PreparingDir);
    assert_eq!(task.action(), WorkerAction::PrepareDirectory);
    assert!(task.advance(&mut reg, WorkerEvent::Done).is_none());
    assert_eq!(task.action(), WorkerAction::ClearStaleTemp);
    assert!(task.advance(&mut reg, WorkerEvent::Done).is_none());
    assert_eq!(task.action(), WorkerAction::SendRequest);

    let started = task.advance(&mut reg, ok_response(Some(100))).expect("started event");
    assert_eq!(started.status, EventStatus::Started);
    assert_eq!(started.model_name, "tiny");
    assert_eq!(started.downloaded_bytes, 0);
    assert_eq!(started.total_bytes, Some(100));
    assert_eq!(started.percent, Percent::Ratio { downloaded: 0, total: 100 });
    assert_eq!(reg.get("tiny").unwrap().total_bytes, Some(100));
    assert_eq!(task.action(), WorkerAction::CreateTemp);

    assert!(task.advance(&mut reg, WorkerEvent::Done).is_none());
    assert_eq!(task.action(), WorkerAction::TransferChunk);

    let progress = task.advance(&mut reg, WorkerEvent::Chunk { len: 60 }).expect("progress event");
    assert_eq!(progress.status, EventStatus::Downloading);
    assert_eq!(progress.downloaded_bytes, 60);
    assert_eq!(progress.total_bytes, Some(100));
    assert_eq!(progress.percent, Percent::Ratio { downloaded: 60, total: 100 });
    assert_eq!(reg.get("tiny").unwrap().downloaded_bytes, 60);
    assert_eq!(task.action(), WorkerAction::TransferChunk);

    let progress = task.advance(&mut reg, WorkerEvent::Chunk { len: 40 }).expect("progress event");
    assert_eq!(progress.downloaded_bytes, 100);
    assert_eq!(reg.get("tiny").unwrap().downloaded_bytes, 100);

    assert!(task.advance(&mut reg, WorkerEvent::EndOfBody).is_none());
    assert_eq!(task.action(), WorkerAction::SyncTemp);
    assert!(task.advance(&mut reg, WorkerEvent::Done).is_none());
    assert_eq!(task.action(), WorkerAction::Publish);
    assert!(reg.is_downloading("tiny"));

    let completed = task.advance(&mut reg, WorkerEvent::Done).expect("completed event");
    assert_eq!(completed.status, EventStatus::Completed);
    assert_eq!(completed.status.tag(), "completed");
    assert_eq!(completed.downloaded_bytes, 100);
    assert_eq!(completed.total_bytes, Some(100));
    assert_eq!(completed.percent, Percent::Complete);
    assert_eq!(completed.error, None);
    assert_eq!(task.phase(), Phase::Completed);
    assert_eq!(task.action(), WorkerAction::Stop);
    assert_eq!(task.failure_kind(), None);
    let rec = reg.get("tiny").unwrap();
    assert_eq!(rec.status, DownloadStatus::Completed);
    assert_eq!(rec.error, None);

    assert!(task.advance(&mut reg, WorkerEvent::Done).is_none());
    assert_eq!(task.phase(), Phase::Completed);
}

#[test]
fn refresh_removes_old_artifact_before_publishing() {
    let (mut reg, ticket) = claimed("tiny", true, true);
    let mut task = DownloadTask::new(&ticket);
    task.advance(&mut reg, WorkerEvent::Done);
    task.advance(&mut reg, WorkerEvent::Done);
    task.advance(&mut reg, ok_response(None));
    task.advance(&mut reg, WorkerEvent::Done);
    let progress = task.advance(&mut reg, WorkerEvent::Chunk { len: 5 }).unwrap();
    assert_eq!(progress.total_bytes, None);
    assert_eq!(progress.percent, Percent::Unknown);
    task.advance(&mut reg, WorkerEvent::EndOfBody);
    assert_eq!(task.action(), WorkerAction::SyncTemp);
    task.advance(&mut reg, WorkerEvent::Done);
    assert_eq!(task.action(), WorkerAction::RemoveOldArtifact);
    task.advance(&mut reg, WorkerEvent::Done);
    assert_eq!(task.action(), WorkerAction::Publish);
    let completed = task.advance(&mut reg, WorkerEvent::Done).unwrap();
    assert_eq!(completed.status, EventStatus::Completed);
    assert_eq!(completed.downloaded_bytes, 5);
    assert_eq!(completed.total_bytes, None);
}

#[test]
fn stale_temp_that_cannot_be_cleared_does_not_stop_the_download() {
    let (mut reg, ticket) = claimed("tiny", false, false);
    let mut task = DownloadTask::new(&ticket);
    task.advance(&mut reg, WorkerEvent::Done);
    assert!(task.advance(&mut reg, failed(FailureKind::Io, "busy")).is_none());
    assert_eq!(task.action(), WorkerAction::SendRequest);
    assert!(reg.is_downloading("tiny"));
}

#[test]
fn http_error_fails_the_download() {
    let (mut reg, ticket) = claimed("tiny", false, false);
    let mut task = DownloadTask::new(&ticket);
    task.advance(&mut reg, WorkerEvent::Done);
    task.advance(&mut reg, WorkerEvent::Done);
    let response = WorkerEvent::Response {
        success: false,
        status: "404 Not Found".to_string(),
        content_length: None,
    };
    assert!(task.advance(&mut reg, response).is_none());
    assert_eq!(task.phase(), Phase::CleaningUp);
    assert_eq!(task.action(), WorkerAction::RemoveTemp);
    assert_eq!(task.failure_kind(), Some(CoreError::NetworkFailure));
    let rec = reg.get("tiny").unwrap();
    assert_eq!(rec.status, DownloadStatus::Failed);
    assert_eq!(rec.error, Some("Failed to download model: HTTP 404 Not Found".to_string()));

    let event = task.advance(&mut reg, WorkerEvent::Done).expect("error event");
    assert_eq!(event.status, EventStatus::Error);
    assert_eq!(event.status.tag(), "error");
    assert_eq!(event.error, Some("Failed to download model: HTTP 404 Not Found".to_string()));
    assert_eq!(event.percent, Percent::Unknown);
    assert_eq!(event.downloaded_bytes, 0);
    assert_eq!(task.phase(), Phase::Failed);
    assert_eq!(task.action(), WorkerAction::Stop);
    assert!(task.temp_removed());
}

#[test]
fn failure_in_the_middle_keeps_counters_and_cleans_up() {
    let (mut reg, ticket) = claimed("base", false, false);
    let mut task = DownloadTask::new(&ticket);
    task.advance(&mut reg, WorkerEvent::Done);
    task.advance(&mut reg, WorkerEvent::Done);
    task.advance(&mut reg, ok_response(Some(1000)));
    task.advance(&mut reg, WorkerEvent::Done);
    task.advance(&mut reg, WorkerEvent::Chunk { len: 300 });
    assert!(task.advance(&mut reg, failed(FailureKind::Network, "connection reset")).is_none());
    assert_eq!(task.action(), WorkerAction::RemoveTemp);
    assert_eq!(task.failure_kind(), Some(CoreError::NetworkFailure));
    let rec = reg.get("base").unwrap();
    assert_eq!(rec.status, DownloadStatus::Failed);
    assert_eq!(rec.downloaded_bytes, 300);
    assert_eq!(rec.total_bytes, Some(1000));
    assert_eq!(rec.error, Some("connection reset".to_string()));
    let event = task.advance(&mut reg, failed(FailureKind::Io, "cannot remove")).unwrap();
    assert_eq!(event.status, EventStatus::Error);
    assert_eq!(event.downloaded_bytes, 300);
    assert_eq!(event.total_bytes, Some(1000));
    assert_eq!(event.error, Some("connection reset".to_string()));
    assert_eq!(task.phase(), Phase::Failed);
    assert!(!task.temp_removed());
    assert!(task.advance(&mut reg, WorkerEvent::Done).is_none());
    assert_eq!(task.phase(), Phase::Failed);
}

#[test]
fn every_disk_step_can_fail() {
    for failing_step in 0..7usize {
        let (mut reg, ticket) = claimed("small", true, true);
        let mut task = DownloadTask::new(&ticket);
        let script: Vec<WorkerEvent> = vec![
            WorkerEvent::Done,
            WorkerEvent::Done,
            ok_response(Some(10)),
            WorkerEvent::Done,
            WorkerEvent::EndOfBody,
            WorkerEvent::Done,
            WorkerEvent::Done,
            WorkerEvent::Done,
        ];
        let steps = [0usize, 2, 3, 4, 5, 6, 7];
        let fail_at = steps[failing_step];
        for (i, event) in script.into_iter().enumerate() {
            if i == fail_at {
                task.advance(&mut reg, failed(FailureKind::Io, "disk"));
                break;
            }
            task.advance(&mut reg, event);
        }
        assert_eq!(task.phase(), Phase::CleaningUp);
        assert_eq!(task.failure_kind(), Some(CoreError::IoFailure));
        assert_eq!(reg.get("small").unwrap().status, DownloadStatus::Failed);
        assert_eq!(reg.get("small").unwrap().error, Some("disk".to_string()));
    }
}

#[test]
fn unexpected_outcome_fails_the_download() {
    let (mut reg, ticket) = claimed("tiny", false, false);
    let mut task = DownloadTask::new(&ticket);
    assert!(task.advance(&mut reg, WorkerEvent::Chunk { len: 1 }).is_none());
    assert_eq!(task.phase(), Phase::CleaningUp);
    assert_eq!(task.failure_kind(), Some(CoreError::IoFailure));
    assert_eq!(reg.get("tiny").unwrap().error, Some("Unexpected worker event".to_string()));

    let (mut reg, ticket) = claimed("tiny", false, false);
    let mut task = DownloadTask::new(&ticket);
    task.advance(&mut reg, WorkerEvent::Done);
    task.advance(&mut reg, WorkerEvent::Done);
    assert!(task.advance(&mut reg, WorkerEvent::Done).is_none());
    assert_eq!(task.phase(), Phase::CleaningUp);
    assert_eq!(reg.get("tiny").unwrap().error, Some("Unexpected worker event".to_string()));
}

#[test]
fn byte_count_saturates() {
    let (mut reg, ticket) = claimed("tiny", false, false);
    let mut task = DownloadTask::new(&ticket);
    task.advance(&mut reg, WorkerEvent::Done);
    task.advance(&mut reg, WorkerEvent::Done);
    task.advance(&mut reg, ok_response(None));
    task.advance(&mut reg, WorkerEvent::Done);
    task.advance(&mut reg, WorkerEvent::Chunk { len: u64::MAX - 1 });
    let event = task.advance(&mut reg, WorkerEvent::Chunk { len: 5 }).unwrap();
    assert_eq!(event.downloaded_bytes, u64::MAX);
    assert_eq!(reg.get("tiny").unwrap().downloaded_bytes, u64::MAX);
}

#[test]
fn removed_record_does_not_come_back() {
    let (mut reg, ticket) = claimed("tiny", false, false);
    let mut task = DownloadTask::new(&ticket);
    task.advance(&mut reg, WorkerEvent::Done);
    task.advance(&mut reg, WorkerEvent::Done);
    reg.remove("tiny");
    let started = task.advance(&mut reg, ok_response(Some(9))).unwrap();
    assert_eq!(started.total_bytes, Some(9));
    assert!(reg.get("tiny").is_none());
    task.advance(&mut reg, WorkerEvent::Done);
    task.advance(&mut reg, WorkerEvent::Chunk { len: 9 });
    assert!(reg.get("tiny").is_none());
    task.advance(&mut reg, WorkerEvent::EndOfBody);
    task.advance(&mut reg, WorkerEvent::Done);
    let completed = task.advance(&mut reg, WorkerEvent::Done).unwrap();
    assert_eq!(completed.status, EventStatus::Completed);
    assert_eq!(completed.downloaded_bytes, 0);
    assert_eq!(completed.total_bytes, None);
    assert!(reg.get("tiny").is_none());
}
