//! Tests of the shared-state lifecycle: initialization, the derived
//! on-disk layout, the one-time identity installation, and the
//! listener's configuration snapshot.

use zkbridge::greet;
use zkbridge::state::{
    apply_setup, format_timestamp, initialize, install_server_identity, join_path,
    listener_config, log_file_name, setup_paths, Config, Server,
};

fn defaults() -> Config {
    Config {
        db: "zknotes.db".to_string(),
        file_path: "files".to_string(),
        file_tmp_path: "temp".to_string(),
        createdirs: false,
        tauri_mode: false,
        open_registration: false,
    }
}

#[test]
fn greeting_embeds_the_name() {
    assert_eq!(greet("ada"), "Hello, ada!");
    assert_eq!(greet(""), "Hello, !");
}

#[test]
fn initial_state_has_placeholder_identity() {
    let s = initialize(defaults());
    assert_eq!(s.jobcounter, 0);
    assert_eq!(s.server.id, 0);
    assert_eq!(s.server.uuid, "");
    assert!(!s.config.tauri_mode);
}

#[test]
fn layout_is_rooted_under_the_base_directory() {
    let p = setup_paths("/data/zk");
    assert_eq!(p.db, "/data/zk/zknotes.db");
    assert_eq!(p.files, "/data/zk/files");
    assert_eq!(p.temp, "/data/zk/temp");
    assert_eq!(join_path("/a", "b"), "/a/b");
}

#[test]
fn setup_flags_and_paths_are_applied() {
    let mut s = initialize(defaults());
    let p = setup_paths("/data/zk");
    apply_setup(&mut s, p);
    assert_eq!(s.config.db, "/data/zk/zknotes.db");
    assert_eq!(s.config.file_path, "/data/zk/files");
    assert_eq!(s.config.file_tmp_path, "/data/zk/temp");
    assert!(s.config.createdirs);
    assert!(s.config.tauri_mode);
    assert!(s.config.open_registration);
    assert_eq!(s.jobcounter, 0);
}

#[test]
fn real_identity_replaces_placeholder() {
    let mut s = initialize(defaults());
    install_server_identity(
        &mut s,
        Server { id: 9, uuid: "0a49bca7-8e4b-4f2d-9c3e-1b2a3c4d5e6f".to_string() },
    );
    assert_eq!(s.server.id, 9);
    assert_eq!(s.server.uuid, "0a49bca7-8e4b-4f2d-9c3e-1b2a3c4d5e6f");
}

#[test]
fn listener_snapshot_equals_shared_config() {
    let mut s = initialize(defaults());
    apply_setup(&mut s, setup_paths("/data/zk"));
    let c = listener_config(&s);
    assert_eq!(c.db, s.config.db);
    assert_eq!(c.file_path, s.config.file_path);
    assert_eq!(c.file_tmp_path, s.config.file_tmp_path);
    assert_eq!(c.createdirs, s.config.createdirs);
    assert_eq!(c.tauri_mode, s.config.tauri_mode);
    assert_eq!(c.open_registration, s.config.open_registration);
}

#[test]
fn timestamp_components_are_zero_padded() {
    assert_eq!(format_timestamp(2024, 1, 5, 9, 8, 7), "2024-01-05T09:08:07");
    assert_eq!(format_timestamp(987, 12, 31, 23, 59, 59), "0987-12-31T23:59:59");
    assert_eq!(format_timestamp(0, 1, 1, 0, 0, 0), "0000-01-01T00:00:00");
}

#[test]
fn log_name_carries_the_timestamp_when_present() {
    assert_eq!(
        log_file_name(Some("2024-01-05T09:08:07")),
        "2024-01-05T09:08:07.zknotes.log"
    );
    assert_eq!(log_file_name(None), "zknotes.log");
}
