use sotto::catalog::get_available_models;
use sotto::downloads::{DownloadManager, DownloadRecord, DownloadStatus};
use sotto::runtime::WhisperRuntime;
use sotto::status::{gather_model_statuses, get_downloaded_models, Artifact};

fn absent() -> Artifact {
    Artifact { present: false, len: None }
}

fn index_of(name: &str) -> usize {
    get_available_models().iter().position(|m| m.name == name).expect("catalog model")
}

#[test]
fn statuses_cover_the_catalog() {
    let models = get_available_models();
    let artifacts = vec![absent(); models.len()];
    let records: Vec<Option<DownloadRecord>> = DownloadManager::new().snapshot();
    let statuses = gather_model_statuses(&artifacts, &records, None);
    assert_eq!(statuses.len(), models.len());
    for (status, model) in statuses.iter().zip(models.iter()) {
        assert_eq!(status.name, model.name);
        assert_eq!(status.size_mb, model.size_mb);
        assert!(!status.is_downloaded);
        assert!(!status.is_downloading);
        assert!(!status.is_active);
        assert_eq!(status.downloaded_bytes, 0);
        assert_eq!(status.total_bytes, None);
        assert_eq!(status.error, None);
    }
}

#[test]
fn at_most_one_model_is_active() {
    let models = get_available_models();
    let artifacts = vec![Artifact { present: true, len: Some(1) }; models.len()];
    let records = DownloadManager::new().snapshot();
    for model in models.iter() {
        let mut runtime: WhisperRuntime<u8> = WhisperRuntime::new();
        runtime.activate(model.name.to_string(), 0);
        let active = runtime.current_model();
        let statuses = gather_model_statuses(&artifacts, &records, active.as_deref());
        let actives: Vec<&str> =
            statuses.iter().filter(|s| s.is_active).map(|s| s.name.as_str()).collect();
        assert_eq!(actives, vec![model.name]);
    }
    let statuses = gather_model_statuses(&artifacts, &records, Some("not-in-catalog"));
    assert_eq!(statuses.iter().filter(|s| s.is_active).count(), 0);
    let statuses = gather_model_statuses(&artifacts, &records, None);
    assert_eq!(statuses.iter().filter(|s| s.is_active).count(), 0);
}

#[test]
fn counters_come_from_the_record() {
    let models = get_available_models();
    let mut artifacts = vec![absent(); models.len()];
    let base = index_of("base");
    artifacts[base] = Artifact { present: true, len: Some(999) };
    let mut reg = DownloadManager::new();
    reg.claim("base", true, true).unwrap();
    reg.update_progress("base", 10, Some(50));
    let statuses = gather_model_statuses(&artifacts, &reg.snapshot(), Some("base"));
    let status = &statuses[base];
    assert!(status.is_downloaded);
    assert!(status.is_downloading);
    assert!(status.is_active);
    assert_eq!(status.downloaded_bytes, 10);
    assert_eq!(status.total_bytes, Some(50));
    assert_eq!(status.error, None);
    reg.finish("base", Err("timeout".to_string()));
    let statuses = gather_model_statuses(&artifacts, &reg.snapshot(), None);
    let status = &statuses[base];
    assert!(!status.is_downloading);
    assert!(!status.is_active);
    assert_eq!(status.downloaded_bytes, 10);
    assert_eq!(status.total_bytes, Some(50));
    assert_eq!(status.error, Some("timeout".to_string()));
}

#[test]
fn counters_come_from_the_disk_without_record() {
    let models = get_available_models();
    let mut artifacts = vec![absent(); models.len()];
    artifacts[0] = Artifact { present: true, len: Some(77) };
    artifacts[1] = Artifact { present: true, len: None };
    artifacts[2] = Artifact { present: false, len: Some(5) };
    let records = DownloadManager::new().snapshot();
    let statuses = gather_model_statuses(&artifacts, &records, None);
    assert!(statuses[0].is_downloaded);
    assert_eq!(statuses[0].downloaded_bytes, 77);
    assert_eq!(statuses[0].total_bytes, Some(77));
    assert!(statuses[1].is_downloaded);
    assert_eq!(statuses[1].downloaded_bytes, 0);
    assert_eq!(statuses[1].total_bytes, None);
    assert!(!statuses[2].is_downloaded);
    assert_eq!(statuses[2].downloaded_bytes, 0);
    assert_eq!(statuses[2].total_bytes, None);
}

#[test]
fn short_inputs_count_as_absent() {
    let statuses = gather_model_statuses(&Vec::new(), &Vec::new(), Some("tiny"));
    assert_eq!(statuses.len(), 29);
    assert!(statuses[0].is_active);
    assert!(statuses.iter().all(|s| !s.is_downloaded && !s.is_downloading));
    let records = vec![Some(DownloadRecord {
        status: DownloadStatus::Downloading,
        downloaded_bytes: 1,
        total_bytes: None,
        error: None,
    })];
    let statuses = gather_model_statuses(&vec![Artifact { present: true, len: Some(3) }], &records, None);
    assert!(statuses[0].is_downloading);
    assert!(statuses[0].is_downloaded);
    assert_eq!(statuses[0].downloaded_bytes, 1);
    assert!(!statuses[1].is_downloading);
}

#[test]
fn downloaded_models_in_catalog_order() {
    let models = get_available_models();
    let mut artifacts = vec![absent(); models.len()];
    assert_eq!(get_downloaded_models(&artifacts), Vec::<String>::new());
    artifacts[index_of("small")] = Artifact { present: true, len: None };
    artifacts[index_of("tiny.en")] = Artifact { present: true, len: Some(4) };
    assert_eq!(get_downloaded_models(&artifacts), vec!["tiny.en".to_string(), "small".to_string()]);
    assert_eq!(
        get_downloaded_models(&vec![Artifact { present: true, len: None }]),
        vec!["tiny".to_string()]
    );
}
