use audio_recorder_manager::config::{
    is_workspace_manifest, workspace_storage_dir, RecorderConfig, StoredConfig,
};
use audio_recorder_manager::paths::{file_extension, file_stem};
use audio_recorder_manager::status::JsonFileObserver;

#[test]
fn config_rooted_at_storage() {
    let c = RecorderConfig::from_storage_dir("/data/storage".to_string());
    assert_eq!(c.storage_dir, "/data/storage");
    assert_eq!(c.recordings_dir, "/data/storage/recordings");
    assert_eq!(c.transcriptions_dir, "/data/storage/transcriptions");
    assert_eq!(c.status_dir, "/data/storage/status");
    assert_eq!(c.signals_dir, "/data/storage/signals");
    assert_eq!(c.max_manual_duration_secs, 7200);
    assert_eq!(c.status_update_interval_ms, 1000);
    assert_eq!(c.file_write_delay_ms, 500);
}

#[test]
fn saved_configuration_chooses_storage() {
    let c = RecorderConfig::new(None, "/ws/storage".to_string());
    assert_eq!(c.storage_dir, "/ws/storage");
    let c = RecorderConfig::new(
        Some(StoredConfig { storage_dir: Some("/mine".to_string()), recordings_dir: None }),
        "/ws/storage".to_string(),
    );
    assert_eq!(c.recordings_dir, "/mine/recordings");
    let c = RecorderConfig::new(
        Some(StoredConfig { storage_dir: None, recordings_dir: Some("/old/place/recordings".to_string()) }),
        "/ws/storage".to_string(),
    );
    assert_eq!(c.storage_dir, "/old/place");
    let c = RecorderConfig::new(
        Some(StoredConfig { storage_dir: None, recordings_dir: None }),
        "/ws/storage".to_string(),
    );
    assert_eq!(c.storage_dir, "/ws/storage");
}

#[test]
fn workspace_storage_search() {
    assert!(is_workspace_manifest("[package]\n[workspace]\nmembers = []"));
    assert!(!is_workspace_manifest("[package]\nname = \"x\""));
    let cands = vec![
        ("/ws/crates/cli".to_string(), Some("[package]".to_string())),
        ("/ws/crates".to_string(), None),
        ("/ws".to_string(), Some("[workspace]\n".to_string())),
    ];
    assert_eq!(workspace_storage_dir("/ws/crates/cli", &cands), "/ws/storage");
    assert_eq!(workspace_storage_dir("/tmp/x", &vec![]), "/tmp/x/storage");
}

#[test]
fn status_file_in_configured_dir() {
    let c = RecorderConfig::from_storage_dir("s".to_string());
    let o = JsonFileObserver::new(c.status_dir.clone());
    assert_eq!(o.get_status_file("rec-1"), "s/status/rec-1.json");
}

#[test]
fn file_name_parts() {
    assert_eq!(file_extension("a.wav"), Some("wav".to_string()));
    assert_eq!(file_extension("a.tar.gz"), Some("gz".to_string()));
    assert_eq!(file_extension(".json"), None);
    assert_eq!(file_extension("noext"), None);
    assert_eq!(file_stem("a.tar.gz"), "a.tar");
    assert_eq!(file_stem(".hidden"), ".hidden");
    assert_eq!(file_stem("x."), "x");
}
