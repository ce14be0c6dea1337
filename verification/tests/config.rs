use minerva_worker::worker::config::{token_from_file_text, AppState, Config, SavedSettings, WorkerStats};

#[test]
fn default_config() {
    let c = Config::default();
    assert_eq!(c.server_url, "https://api.minerva-archive.org");
    assert_eq!(c.upload_server_url, "https://gate.minerva-archive.org");
    assert_eq!(c.concurrency, 2);
    assert_eq!(c.batch_size, 10);
    assert!(c.settings_path.ends_with("settings.json"));
    assert!(c.token_path.ends_with("token"));
    assert!(c.temp_dir.ends_with("tmp"));
}

#[test]
fn saved_settings_are_clamped() {
    let mut c = Config::default();
    c.apply_saved(SavedSettings { server_url: "s".into(), upload_server_url: "u".into(), concurrency: 0, batch_size: 100 });
    assert_eq!((c.server_url.as_str(), c.upload_server_url.as_str(), c.concurrency, c.batch_size), ("s", "u", 1, 50));
    c.apply_saved(SavedSettings { server_url: "s".into(), upload_server_url: "u".into(), concurrency: 99, batch_size: 0 });
    assert_eq!((c.concurrency, c.batch_size), (10, 1));
    c.apply_saved(SavedSettings { server_url: "s".into(), upload_server_url: "u".into(), concurrency: 7, batch_size: 20 });
    assert_eq!((c.concurrency, c.batch_size), (7, 20));
}

#[test]
fn state_reads_back_writes() {
    let mut s = AppState::new(Config::default(), None);
    assert!(!s.is_running());
    assert_eq!(s.get_token(), None);
    s.set_token("tok".into());
    assert_eq!(s.get_token(), Some("tok".to_string()));
    s.set_running(true);
    assert!(s.is_running());
    assert_eq!(s.get_token(), Some("tok".to_string()));
    s.set_running(false);
    assert!(!s.is_running());
}

#[test]
fn token_file_text() {
    assert_eq!(token_from_file_text("  tok \n"), Some("tok".to_string()));
    assert_eq!(token_from_file_text(" \n\t"), None);
    assert_eq!(token_from_file_text(""), None);
}

#[test]
fn stats_count() {
    let mut s = WorkerStats::default();
    s.record_completed(10);
    s.record_completed(5);
    s.record_failed();
    assert_eq!((s.jobs_completed, s.jobs_failed, s.bytes_downloaded, s.bytes_uploaded), (2, 1, 15, 0));
}
