use flared::lifecycle::{start_app, stop_app, AppDir, LifecycleError, StartPlan};
use flared::protocol::manage_response;
use flared::types::{AppState, AppStatus, RunSection};

fn running_state() -> AppState {
    AppState {
        name: "app".to_string(),
        version: "1.0".to_string(),
        status: AppStatus::Running,
        pid: Some(4242),
        port: Some(8080),
        health_url: None,
        isolation: None,
    }
}

#[test]
fn error_messages_match_the_daemon_wire_text() {
    assert_eq!(LifecycleError::AppNotFound.message(), "App not found");
    assert_eq!(LifecycleError::NoRunSection.message(), "No [run] section");
    assert_eq!(LifecycleError::NoBackups.message(), "No backups found");
    assert_eq!(LifecycleError::UnknownAction.message(), "Unknown action");
}

#[test]
fn stop_clears_pid_and_sets_stopped() {
    let (stopped, signal) = stop_app(&running_state());
    assert_eq!(signal, Some(4242));
    assert_eq!(stopped.status, AppStatus::Stopped);
    assert_eq!(stopped.pid, None);
    assert_eq!(stopped.name, "app");
}

#[test]
fn stop_twice_succeeds_and_leaves_pid_cleared() {
    let (once, _) = stop_app(&running_state());
    let (twice, signal2) = stop_app(&once);
    assert_eq!(signal2, None);
    assert_eq!(twice.status, AppStatus::Stopped);
    assert_eq!(twice.pid, None);
    assert_eq!(twice.version, "1.0");
}

#[test]
fn started_record_carries_the_new_pid() {
    let (stopped, _) = stop_app(&running_state());
    let started = flared::lifecycle::started_state(&stopped, 999);
    assert_eq!(started.status, AppStatus::Running);
    assert_eq!(started.pid, Some(999));
    assert_eq!(started.name, "app");
    assert_eq!(started.port, Some(8080));
}

#[test]
fn start_when_already_running_is_noop_success() {
    let run = Some(RunSection { command: "./app".to_string(), port: None });
    match start_app(&running_state(), &run) {
        Ok(StartPlan::AlreadyRunning) => {},
        other => panic!("expected AlreadyRunning, got {:?}", other),
    }
}

#[test]
fn start_without_run_section_fails() {
    let (stopped, _) = stop_app(&running_state());
    assert_eq!(start_app(&stopped, &None).unwrap_err(), LifecycleError::NoRunSection);
}

#[test]
fn start_spawns_declared_command() {
    let (stopped, _) = stop_app(&running_state());
    let run = Some(RunSection { command: "./serve --port 80".to_string(), port: Some(80) });
    match start_app(&stopped, &run) {
        Ok(StartPlan::Spawn(cmd)) => assert_eq!(cmd, "./serve --port 80"),
        other => panic!("expected Spawn, got {:?}", other),
    }
}

#[test]
fn deploy_rollback_roundtrip_repoints_current() {
    let mut dir = AppDir::new();
    dir.deploy_tree(100, "tree-v1".to_string());
    assert_eq!(dir.current.as_deref(), Some("tree-v1"));
    assert!(dir.versions.is_empty());

    dir.deploy_tree(200, "tree-v2".to_string());
    assert_eq!(dir.current.as_deref(), Some("tree-v2"));
    assert_eq!(dir.versions, vec![(200, "tree-v1".to_string())]);

    let needs_restart = dir.rollback().expect("a backup exists");
    assert_eq!(dir.current.as_deref(), Some("tree-v1"));
    assert!(!needs_restart);
}

#[test]
fn rollback_restart_owed_when_running() {
    let mut dir = AppDir::new();
    dir.state = Some(running_state());
    dir.deploy_tree(100, "tree-v1".to_string());
    dir.deploy_tree(200, "tree-v2".to_string());
    let needs_restart = dir.rollback().expect("a backup exists");
    assert!(needs_restart);
}

#[test]
fn rollback_picks_latest_of_equal_timestamps() {
    let mut dir = AppDir::new();
    dir.deploy_tree(100, "a".to_string());
    dir.deploy_tree(300, "b".to_string());
    dir.deploy_tree(300, "c".to_string());
    // versions hold (300, "a") and (300, "b"): a same-second collision.
    // Of equal timestamps the later slot wins.
    dir.rollback().unwrap();
    assert_eq!(dir.current.as_deref(), Some("b"));
}

#[test]
fn rollback_without_versions_reports_no_backups() {
    let mut dir = AppDir::new();
    dir.deploy_tree(100, "only".to_string());
    let err = dir.rollback().unwrap_err();
    assert_eq!(err, LifecycleError::NoBackups);
    assert_eq!(err.message(), "No backups found");
    // The manage wrapper reports it as the daemon does.
    let resp = manage_response(Err(err));
    assert!(!resp.success);
    assert_eq!(resp.message, "No backups found");
}
