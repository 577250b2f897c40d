//! The process handle state machine and the handle registry.

use minecraft_launcher_lib::auth::{Account, ProfileInfo};
use minecraft_launcher_lib::error::LauncherError;
use minecraft_launcher_lib::process::{
    ExitOutcome, MinecraftProcess, ProcessRegistry, ProcessStatus,
};

fn account() -> Account {
    Account {
        uuid: "abc-123".to_string(),
        name: "Alice".to_string(),
        access_token: "token-1".to_string(),
        refresh_token: "refresh-1".to_string(),
        expires_at: 4102444800,
        account_type: "msa".to_string(),
        profile: ProfileInfo {
            id: "abc-123".to_string(),
            name: "Alice".to_string(),
            skins: Vec::new(),
            capes: Vec::new(),
        },
    }
}

fn handle() -> MinecraftProcess {
    MinecraftProcess::new(
        "/usr/bin/java".to_string(),
        vec!["-Xmx1024m".to_string()],
        "/inst".to_string(),
        account(),
    )
}

#[test]
fn new_handle_is_starting_without_pid() {
    let p = handle();
    assert_eq!(p.get_status(), ProcessStatus::Starting);
    assert!(p.get_pid().is_err());
    assert!(!p.is_running());
}

#[test]
fn spawn_success_yields_running_with_pid() {
    let mut p = handle();
    p.on_spawned(4321);
    assert_eq!(p.get_status(), ProcessStatus::Running);
    assert_eq!(p.get_pid().unwrap(), 4321);
    assert!(p.is_running());
}

#[test]
fn spawn_failure_yields_failed() {
    let mut p = handle();
    p.on_spawn_failed("no such file".to_string());
    assert_eq!(
        p.get_status(),
        ProcessStatus::Failed("no such file".to_string())
    );
    assert!(!p.is_running());
}

#[test]
fn kill_without_process_is_a_no_process_error() {
    let mut p = handle();
    match p.kill_with(ExitOutcome::Exited(0)) {
        Err(LauncherError::Launch(m)) => assert_eq!(m, "No process to kill"),
        other => panic!("expected a no-process error, got {:?}", other),
    }
    assert_eq!(p.get_status(), ProcessStatus::Starting);
}

#[test]
fn kill_after_spawn_records_a_terminal_state() {
    let mut p = handle();
    p.on_spawned(4321);
    p.kill_with(ExitOutcome::Exited(0)).unwrap();
    let status = p.get_status();
    assert_eq!(status, ProcessStatus::Exited(0));
    assert!(status != ProcessStatus::Running);
    assert!(p.get_pid().is_err());
    assert!(p.kill_with(ExitOutcome::Exited(0)).is_err());
}

#[test]
fn kill_records_nonzero_exit_codes() {
    let mut p = handle();
    p.on_spawned(4321);
    p.kill_with(ExitOutcome::Exited(137)).unwrap();
    assert_eq!(p.get_status(), ProcessStatus::Exited(137));
}

#[test]
fn wait_records_exit_and_returns_it() {
    let mut p = handle();
    p.on_spawned(4321);
    let s = p.wait_with(ExitOutcome::Exited(0)).unwrap();
    assert_eq!(s, ProcessStatus::Exited(0));
    assert_eq!(p.get_status(), ProcessStatus::Exited(0));
}

#[test]
fn wait_failure_records_failed_and_surfaces_the_error() {
    let mut p = handle();
    p.on_spawned(4321);
    let r = p.wait_with(ExitOutcome::WaitFailed("interrupted".to_string()));
    assert!(r.is_err());
    assert_eq!(
        p.get_status(),
        ProcessStatus::Failed("interrupted".to_string())
    );
}

#[test]
fn wait_without_process_is_an_error() {
    let mut p = handle();
    assert!(p.wait_with(ExitOutcome::Exited(0)).is_err());
}

#[test]
fn handle_paths_derive_from_the_working_directory() {
    let p = handle();
    assert_eq!(p.get_log_path(), "/inst/logs/latest.log");
    assert_eq!(p.get_crash_reports_dir(), "/inst/crash-reports");
    assert_eq!(p.get_working_dir(), "/inst");
    assert_eq!(p.get_account().name, "Alice");
}

#[test]
fn token_arguments_are_redacted_for_logging() {
    let args = vec![
        "--username".to_string(),
        "Alice".to_string(),
        "--accessToken 0123456789abcdef0123456789abcdef".to_string(),
        "short access_token".to_string(),
    ];
    let redacted = minecraft_launcher_lib::process::redact_sensitive_args(&args);
    assert_eq!(redacted[0], "--username");
    assert_eq!(redacted[1], "Alice");
    assert_eq!(redacted[2], "--accessToken 012345...***REDACTED***");
    assert_eq!(redacted[3], "short access_token...***REDACTED***");
}

#[test]
fn registry_inserts_looks_up_and_removes() {
    let mut reg = ProcessRegistry::new();
    let a = reg.insert(handle());
    let b = reg.insert(handle());
    assert_ne!(a, b);
    assert!(reg.get(a).is_some());
    assert!(reg.get(b).is_some());
    assert_eq!(reg.ids(), vec![a, b]);

    let removed = reg.remove(a);
    assert!(removed.is_some());
    assert!(reg.get(a).is_none());
    assert!(reg.remove(a).is_none());
    assert_eq!(reg.ids(), vec![b]);
    assert!(reg.get(999).is_none());
    assert!(reg.remove(999).is_none());
}
