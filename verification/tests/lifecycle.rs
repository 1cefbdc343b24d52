//! Tests of the lifecycle coordinator: strict startup ordering, fail-fast
//! aborts, and the shutdown drain.

use orchestra_core::lifecycle::{Coordinator, LifecycleState, StartupStage};

#[test]
fn startup_runs_the_four_stages_in_order() {
    let mut c = Coordinator::new();
    assert!(matches!(c.pending_stage(), Some(StartupStage::InitLogger)));
    c.complete_stage(true);
    assert!(matches!(c.pending_stage(), Some(StartupStage::ConnectPool)));
    c.complete_stage(true);
    assert!(matches!(c.pending_stage(), Some(StartupStage::StartScheduler)));
    c.complete_stage(true);
    assert!(c.scheduler_started);
    assert!(!c.listener_bound);
    assert!(matches!(c.pending_stage(), Some(StartupStage::BindListener)));
    assert!(matches!(c.state(), LifecycleState::Starting));
    c.complete_stage(true);
    assert!(c.listener_bound);
    assert!(matches!(c.state(), LifecycleState::Serving));
    assert!(c.pending_stage().is_none());
    assert!(c.exit_code().is_none());
}

#[test]
fn pool_failure_prevents_scheduler_and_listener() {
    let mut c = Coordinator::new();
    c.complete_stage(true); // logger initialized
    c.complete_stage(false); // pool establishment fails
    assert!(!c.scheduler_started);
    assert!(!c.listener_bound);
    assert!(c.pending_stage().is_none());
    assert_eq!(c.exit_code(), Some(1));
}

#[test]
fn logger_failure_aborts_immediately() {
    let mut c = Coordinator::new();
    c.complete_stage(false);
    assert_eq!(c.exit_code(), Some(1));
    assert!(!c.scheduler_started);
    assert!(!c.listener_bound);
}

#[test]
fn shutdown_rejects_new_connections_but_drains_in_flight() {
    let mut c = Coordinator::new();
    for _ in 0..4 {
        c.complete_stage(true);
    }
    assert!(c.try_accept()); // a request arrives while serving
    assert_eq!(c.in_flight, 1);
    c.signal_shutdown();
    assert!(matches!(c.state(), LifecycleState::ShuttingDown));
    assert!(!c.try_accept()); // no new connection after the signal
    assert_eq!(c.in_flight, 1);
    assert!(c.finish_request()); // the in-flight response is delivered
    assert_eq!(c.in_flight, 0);
    c.complete_shutdown();
    assert!(matches!(c.state(), LifecycleState::Stopped));
    assert_eq!(c.exit_code(), Some(0));
}

#[test]
fn connections_are_not_accepted_before_serving() {
    let mut c = Coordinator::new();
    assert!(!c.try_accept());
    c.complete_stage(true);
    assert!(!c.try_accept());
    assert_eq!(c.in_flight, 0);
}
