use node_supervisor::config::LaunchConfig;
use node_supervisor::errors::NodeError;
use node_supervisor::supervisor::{NodeProcess, StartAction, WorkerHandle};

fn config_for(account: &str, daemon: &str, peer: &str) -> LaunchConfig {
    LaunchConfig::new(
        String::from("testnet"),
        String::new(),
        daemon,
        peer,
        String::from(account),
    )
    .unwrap()
}

/// Drives a fresh supervisor into a confirmed running state.
fn start_running(process: &mut NodeProcess, account: &str, pid: u32) {
    let config = config_for(account, "3001", "9735");
    match process.start(&config, true, true) {
        Ok(StartAction::Spawn(args)) => {
            assert_eq!(args.len(), 7);
        }
        other => panic!("expected a spawn directive, got {:?}", other),
    }
    assert!(process.on_spawn_succeeded(WorkerHandle { pid }));
}

#[test]
fn start_spawns_and_runs_for_account() {
    let mut process = NodeProcess::new();
    assert!(!process.is_running());
    start_running(&mut process, "alice", 42);
    assert!(process.is_running());
    assert!(process.is_running_for_account("alice"));
    assert!(!process.is_running_for_account("bob"));
    assert_eq!(process.get_current_account(), Some(String::from("alice")));
}

#[test]
fn start_reports_occupied_daemon_port_first() {
    let mut process = NodeProcess::new();
    let config = config_for("alice", "3001", "9735");
    assert!(matches!(
        process.start(&config, false, true),
        Err(NodeError::PortInUse(3001))
    ));
    assert!(matches!(
        process.start(&config, true, false),
        Err(NodeError::PortInUse(9735))
    ));
    assert!(matches!(
        process.start(&config, false, false),
        Err(NodeError::PortInUse(3001))
    ));
    assert!(!process.is_running());
}

#[test]
fn occupied_ports_leave_running_worker_untouched() {
    let mut process = NodeProcess::new();
    start_running(&mut process, "alice", 42);
    let config = config_for("bob", "3001", "9735");
    assert!(matches!(
        process.start(&config, false, false),
        Err(NodeError::PortInUse(3001))
    ));
    assert!(process.is_running_for_account("alice"));
    assert_eq!(process.get_current_account(), Some(String::from("alice")));
}

#[test]
fn stop_when_not_running_is_a_clean_error() {
    let mut process = NodeProcess::new();
    assert_eq!(process.stop(), Err(NodeError::NotRunning));
    assert!(!process.is_running());
    assert_eq!(process.get_current_account(), None);
    assert!(process.get_logs().is_empty());
}

#[test]
fn stop_clears_account_and_requests_shutdown() {
    let mut process = NodeProcess::new();
    start_running(&mut process, "alice", 42);
    assert_eq!(process.stop(), Ok(()));
    assert!(process.is_running());
    assert_eq!(process.get_current_account(), None);
    assert!(!process.is_running_for_account("alice"));
}

#[test]
fn graceful_shutdown_ends_not_running() {
    let mut process = NodeProcess::new();
    start_running(&mut process, "alice", 42);
    process.shutdown();
    let handle = process.take_handle();
    assert_eq!(handle, Some(WorkerHandle { pid: 42 }));
    assert!(process.finish_stop());
    assert!(!process.is_running());
    assert_eq!(process.get_current_account(), None);
}

#[test]
fn forced_shutdown_ends_not_running() {
    let mut process = NodeProcess::new();
    start_running(&mut process, "alice", 42);
    process.shutdown();
    // The worker refuses to exit within the graceful timeout: the monitor
    // takes the handle, the wait runs out, and the caller's safety net
    // force-kills whatever is left.
    let handle = process.take_handle();
    assert_eq!(handle, Some(WorkerHandle { pid: 42 }));
    assert_eq!(process.force_kill(), None);
    assert!(!process.is_running());
}

#[test]
fn stop_escalates_to_force_kill_when_worker_hangs() {
    let mut process = NodeProcess::new();
    start_running(&mut process, "alice", 42);
    assert_eq!(process.stop(), Ok(()));
    let handle = process.take_handle().expect("the stopping slot hands its handle out");
    assert_eq!(handle.pid, 42);
    // Graceful wait elapsed without an exit; the taken handle is killed and
    // the cleanup finishes the stop.
    assert!(process.finish_stop());
    assert!(!process.is_running());
}

#[test]
fn force_kill_works_from_any_state() {
    let mut process = NodeProcess::new();
    assert_eq!(process.force_kill(), None);
    assert!(!process.is_running());

    start_running(&mut process, "alice", 42);
    assert_eq!(process.force_kill(), Some(WorkerHandle { pid: 42 }));
    assert!(!process.is_running());
    assert_eq!(process.get_current_account(), None);
}

#[test]
fn handle_is_taken_only_once() {
    let mut process = NodeProcess::new();
    start_running(&mut process, "alice", 42);
    assert_eq!(process.stop(), Ok(()));
    assert_eq!(process.take_handle(), Some(WorkerHandle { pid: 42 }));
    assert_eq!(process.take_handle(), None);
    assert_eq!(process.force_kill(), None);
}

#[test]
fn spawn_confirmation_needs_a_launching_slot() {
    let mut process = NodeProcess::new();
    assert!(!process.on_spawn_succeeded(WorkerHandle { pid: 7 }));
    assert!(!process.is_running());

    start_running(&mut process, "alice", 42);
    // A second confirmation cannot overwrite the owned handle.
    assert!(!process.on_spawn_succeeded(WorkerHandle { pid: 43 }));
    assert_eq!(process.force_kill(), Some(WorkerHandle { pid: 42 }));
}

#[test]
fn spawn_failure_returns_to_stopped() {
    let mut process = NodeProcess::new();
    let config = config_for("alice", "3001", "9735");
    assert!(matches!(
        process.start(&config, true, true),
        Ok(StartAction::Spawn(_))
    ));
    process.on_spawn_failed();
    assert!(!process.is_running());
    // The slot is free again for the next attempt.
    assert!(matches!(
        process.start(&config, true, true),
        Ok(StartAction::Spawn(_))
    ));
}

#[test]
fn crash_is_detected_and_cleaned_up() {
    let mut process = NodeProcess::new();
    start_running(&mut process, "alice", 42);
    process.on_worker_exit();
    assert!(process.is_running());
    assert_eq!(process.get_current_account(), None);
    assert_eq!(process.take_handle(), Some(WorkerHandle { pid: 42 }));
    assert!(process.finish_stop());
    assert!(!process.is_running());
}

#[test]
fn start_while_running_switches_accounts() {
    let mut process = NodeProcess::new();
    start_running(&mut process, "alice", 42);
    assert!(process.is_running_for_account("alice"));

    // Same ports, new account: the supervisor asks for the previous worker
    // to be stopped first.
    let config_bob = config_for("bob", "3001", "9735");
    assert!(matches!(
        process.start(&config_bob, true, true),
        Ok(StartAction::StopPrevious)
    ));
    // The stop sequence for the first worker.
    process.shutdown();
    assert_eq!(process.take_handle(), Some(WorkerHandle { pid: 42 }));
    assert!(process.finish_stop());
    assert!(!process.is_running());

    // Now the slot is free and the new worker launches.
    match process.start(&config_bob, true, true) {
        Ok(StartAction::Spawn(args)) => {
            assert_eq!(
                args,
                vec![
                    "",
                    "--daemon-listening-port",
                    "3001",
                    "--ldk-peer-listening-port",
                    "9735",
                    "--network",
                    "testnet",
                ]
            );
        }
        other => panic!("expected a spawn directive, got {:?}", other),
    }
    assert!(process.on_spawn_succeeded(WorkerHandle { pid: 77 }));
    assert!(process.is_running_for_account("bob"));
    assert!(!process.is_running_for_account("alice"));
    assert_eq!(process.get_current_account(), Some(String::from("bob")));
}
