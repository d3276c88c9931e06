use sotto::catalog::get_available_models;
use sotto::downloads::{DownloadManager, DownloadRecord, DownloadStatus};
use sotto::error::CoreError;

#[test]
fn new_record_is_zeroed() {
    let rec = DownloadRecord::new(DownloadStatus::Downloading);
    assert_eq!(rec.status, DownloadStatus::Downloading);
    assert_eq!(rec.downloaded_bytes, 0);
    assert_eq!(rec.total_bytes, None);
    assert_eq!(rec.error, None);
    let rec = DownloadRecord::new(DownloadStatus::Completed);
    assert_eq!(rec.status, DownloadStatus::Completed);
}

#[test]
fn record_clone_keeps_fields() {
    let rec = DownloadRecord {
        status: DownloadStatus::Failed,
        downloaded_bytes: 7,
        total_bytes: Some(9),
        error: Some("boom".to_string()),
    };
    let copy = rec.clone();
    assert_eq!(copy.status, DownloadStatus::Failed);
    assert_eq!(copy.downloaded_bytes, 7);
    assert_eq!(copy.total_bytes, Some(9));
    assert_eq!(copy.error, Some("boom".to_string()));
}

#[test]
fn claim_inserts_downloading_record() {
    let mut reg = DownloadManager::new();
    assert!(reg.get("tiny").is_none());
    assert!(!reg.is_downloading("tiny"));
    assert_eq!(reg.claim("tiny", false, false), Ok(()));
    let rec = reg.get("tiny").expect("record");
    assert_eq!(rec.status, DownloadStatus::Downloading);
    assert_eq!(rec.downloaded_bytes, 0);
    assert_eq!(rec.total_bytes, None);
    assert_eq!(rec.error, None);
    assert!(reg.is_downloading("tiny"));
    assert!(!reg.is_downloading("base"));
}

#[test]
fn two_claims_one_winner() {
    let mut reg = DownloadManager::new();
    let first = reg.claim("small", false, false);
    let second = reg.claim("small", false, false);
    assert_eq!(first, Ok(()));
    assert_eq!(second, Err(CoreError::DownloadInProgress));
}

#[test]
fn running_download_blocks_refresh_too() {
    let mut reg = DownloadManager::new();
    assert_eq!(reg.claim("small", true, true), Ok(()));
    assert_eq!(reg.claim("small", true, true), Err(CoreError::DownloadInProgress));
    assert_eq!(reg.claim("small", true, false), Err(CoreError::DownloadInProgress));
    assert_eq!(reg.claim("small", false, true), Err(CoreError::DownloadInProgress));
}

#[test]
fn claim_refuses_present_artifact_without_overwrite() {
    let mut reg = DownloadManager::new();
    assert_eq!(reg.claim("base", true, false), Err(CoreError::AlreadyDownloaded));
    assert!(reg.get("base").is_none());
    assert_eq!(reg.claim("base", true, true), Ok(()));
    assert!(reg.is_downloading("base"));
}

#[test]
fn claim_refuses_unknown_model() {
    let mut reg = DownloadManager::new();
    assert_eq!(reg.claim("nope", false, false), Err(CoreError::UnknownModel));
    assert_eq!(reg.claim("nope", true, true), Err(CoreError::UnknownModel));
    assert!(reg.get("nope").is_none());
}

#[test]
fn claim_after_failure_is_accepted_again() {
    let mut reg = DownloadManager::new();
    assert_eq!(reg.claim("base", false, false), Ok(()));
    reg.update_progress("base", 10, Some(20));
    reg.finish("base", Err("network down".to_string()));
    assert_eq!(reg.claim("base", false, false), Ok(()));
    let rec = reg.get("base").expect("record");
    assert_eq!(rec.status, DownloadStatus::Downloading);
    assert_eq!(rec.downloaded_bytes, 0);
    assert_eq!(rec.total_bytes, None);
    assert_eq!(rec.error, None);
}

#[test]
fn claims_for_different_models_do_not_interfere() {
    let mut reg = DownloadManager::new();
    assert_eq!(reg.claim("tiny", false, false), Ok(()));
    assert_eq!(reg.claim("base", false, false), Ok(()));
    assert!(reg.is_downloading("tiny"));
    assert!(reg.is_downloading("base"));
}

#[test]
fn progress_overwrites_counters() {
    let mut reg = DownloadManager::new();
    reg.claim("tiny", false, false).unwrap();
    reg.update_progress("tiny", 65536, Some(1000000));
    let rec = reg.get("tiny").unwrap();
    assert_eq!(rec.downloaded_bytes, 65536);
    assert_eq!(rec.total_bytes, Some(1000000));
    assert_eq!(rec.status, DownloadStatus::Downloading);
    reg.update_progress("tiny", 131072, None);
    let rec = reg.get("tiny").unwrap();
    assert_eq!(rec.downloaded_bytes, 131072);
    assert_eq!(rec.total_bytes, None);
}

#[test]
fn progress_without_record_is_a_no_op() {
    let mut reg = DownloadManager::new();
    reg.update_progress("tiny", 5, Some(6));
    assert!(reg.get("tiny").is_none());
    reg.begin_transfer("tiny", Some(6));
    assert!(reg.get("tiny").is_none());
    reg.finish("tiny", Ok(()));
    assert!(reg.get("tiny").is_none());
    reg.record_activation("tiny", Some(6));
    assert!(reg.get("tiny").is_none());
}

#[test]
fn begin_transfer_resets_record() {
    let mut reg = DownloadManager::new();
    reg.claim("tiny", false, false).unwrap();
    reg.update_progress("tiny", 5, None);
    reg.finish("tiny", Err("x".to_string()));
    reg.begin_transfer("tiny", Some(77));
    let rec = reg.get("tiny").unwrap();
    assert_eq!(rec.status, DownloadStatus::Downloading);
    assert_eq!(rec.downloaded_bytes, 0);
    assert_eq!(rec.total_bytes, Some(77));
    assert_eq!(rec.error, None);
}

#[test]
fn finish_keeps_counters() {
    let mut reg = DownloadManager::new();
    reg.claim("tiny", false, false).unwrap();
    reg.update_progress("tiny", 40, Some(40));
    reg.finish("tiny", Ok(()));
    let rec = reg.get("tiny").unwrap();
    assert_eq!(rec.status, DownloadStatus::Completed);
    assert_eq!(rec.downloaded_bytes, 40);
    assert_eq!(rec.total_bytes, Some(40));
    assert_eq!(rec.error, None);
    assert!(!reg.is_downloading("tiny"));
}

#[test]
fn finish_with_failure_records_message() {
    let mut reg = DownloadManager::new();
    reg.claim("tiny", false, false).unwrap();
    reg.update_progress("tiny", 3, Some(40));
    reg.finish("tiny", Err("disk full".to_string()));
    let rec = reg.get("tiny").unwrap();
    assert_eq!(rec.status, DownloadStatus::Failed);
    assert_eq!(rec.downloaded_bytes, 3);
    assert_eq!(rec.total_bytes, Some(40));
    assert_eq!(rec.error, Some("disk full".to_string()));
}

#[test]
fn activation_completes_record_and_fills_missing_total() {
    let mut reg = DownloadManager::new();
    reg.claim("tiny", false, false).unwrap();
    reg.finish("tiny", Err("x".to_string()));
    reg.record_activation("tiny", Some(500));
    let rec = reg.get("tiny").unwrap();
    assert_eq!(rec.status, DownloadStatus::Completed);
    assert_eq!(rec.error, None);
    assert_eq!(rec.downloaded_bytes, 500);
    assert_eq!(rec.total_bytes, Some(500));
}

#[test]
fn activation_keeps_known_total() {
    let mut reg = DownloadManager::new();
    reg.claim("tiny", false, false).unwrap();
    reg.update_progress("tiny", 10, Some(20));
    reg.record_activation("tiny", Some(500));
    let rec = reg.get("tiny").unwrap();
    assert_eq!(rec.status, DownloadStatus::Completed);
    assert_eq!(rec.downloaded_bytes, 10);
    assert_eq!(rec.total_bytes, Some(20));
    reg.record_activation("tiny", None);
    let rec = reg.get("tiny").unwrap();
    assert_eq!(rec.downloaded_bytes, 10);
    assert_eq!(rec.total_bytes, Some(20));
}

#[test]
fn startup_load_creates_completed_record() {
    let mut reg = DownloadManager::new();
    reg.record_startup_load("base", Some(1234));
    let rec = reg.get("base").unwrap();
    assert_eq!(rec.status, DownloadStatus::Completed);
    assert_eq!(rec.downloaded_bytes, 1234);
    assert_eq!(rec.total_bytes, Some(1234));
    assert_eq!(rec.error, None);
    reg.record_startup_load("small", None);
    let rec = reg.get("small").unwrap();
    assert_eq!(rec.status, DownloadStatus::Completed);
    assert_eq!(rec.downloaded_bytes, 0);
    assert_eq!(rec.total_bytes, None);
    reg.record_startup_load("unknown-model", Some(1));
    assert!(reg.get("unknown-model").is_none());
}

#[test]
fn startup_load_overrides_existing_counters() {
    let mut reg = DownloadManager::new();
    reg.claim("base", false, false).unwrap();
    reg.update_progress("base", 10, Some(20));
    reg.finish("base", Err("x".to_string()));
    reg.record_startup_load("base", Some(99));
    let rec = reg.get("base").unwrap();
    assert_eq!(rec.status, DownloadStatus::Completed);
    assert_eq!(rec.downloaded_bytes, 99);
    assert_eq!(rec.total_bytes, Some(99));
    assert_eq!(rec.error, None);
    reg.update_progress("base", 10, Some(20));
    reg.record_startup_load("base", None);
    let rec = reg.get("base").unwrap();
    assert_eq!(rec.downloaded_bytes, 10);
    assert_eq!(rec.total_bytes, Some(20));
}

#[test]
fn remove_forgets_record() {
    let mut reg = DownloadManager::new();
    reg.claim("tiny", false, false).unwrap();
    reg.claim("base", false, false).unwrap();
    reg.remove("tiny");
    assert!(reg.get("tiny").is_none());
    assert!(reg.get("base").is_some());
    reg.remove("tiny");
    assert!(reg.get("tiny").is_none());
}

#[test]
fn snapshot_follows_catalog_order() {
    let mut reg = DownloadManager::new();
    reg.claim("tiny.en", false, false).unwrap();
    reg.update_progress("tiny.en", 11, Some(22));
    let snap = reg.snapshot();
    let models = get_available_models();
    assert_eq!(snap.len(), models.len());
    for (i, model) in models.iter().enumerate() {
        if model.name == "tiny.en" {
            let rec = snap[i].as_ref().expect("record");
            assert_eq!(rec.status, DownloadStatus::Downloading);
            assert_eq!(rec.downloaded_bytes, 11);
            assert_eq!(rec.total_bytes, Some(22));
        } else {
            assert!(snap[i].is_none());
        }
    }
}

#[test]
fn default_registry_is_empty() {
    let reg = DownloadManager::default();
    assert!(reg.snapshot().iter().all(|rec| rec.is_none()));
    assert!(reg.get("tiny").is_none());
}
