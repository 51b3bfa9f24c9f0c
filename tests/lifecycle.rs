use input_pipeline::event::{InputKind, RawInput, RawInputKind};
use input_pipeline::diagnostics::DiagnosticsState;
use input_pipeline::lifecycle::{
    capture_event, capture_subscription_ended, start_listener, stop_listener, InputListenerState, StartPlan,
};

fn key(name: &str) -> RawInput {
    RawInput { kind: RawInputKind::KeyPress(name.to_string()), timestamp: 42 }
}

#[test]
fn start_without_events_reports_no_events_detected() {
    let mut state = InputListenerState::new();
    let plan = start_listener(&mut state);
    let report = state.health_check(plan.health_token(), "linux".to_string()).unwrap();
    assert!(!report.ok);
    assert_eq!(report.reason.as_deref(), Some("no_events_detected"));
    assert_eq!(report.platform, "linux");
}

#[test]
fn start_with_events_reports_ok() {
    let mut state = InputListenerState::new();
    let plan = start_listener(&mut state);
    assert!(capture_event(&mut state, &key("KeyA")).is_some());
    let report = state.health_check(plan.health_token(), "macos".to_string()).unwrap();
    assert!(report.ok);
    assert_eq!(report.reason, None);
}

#[test]
fn stop_before_check_makes_it_stale() {
    let mut state = InputListenerState::new();
    let plan = start_listener(&mut state);
    let status = stop_listener(&mut state);
    assert_eq!(status, "listener stopped");
    assert!(state.health_check(plan.health_token(), "linux".to_string()).is_none());
    let again = start_listener(&mut state);
    assert!(state.health_check(plan.health_token(), "linux".to_string()).is_none());
    assert!(state.health_check(again.health_token(), "linux".to_string()).is_some());
}

#[test]
fn second_start_only_refreshes_flags() {
    let mut state = InputListenerState::new();
    let first = start_listener(&mut state);
    assert!(matches!(first, StartPlan::SpawnWorkers { .. }));
    let second = start_listener(&mut state);
    assert!(matches!(second, StartPlan::AlreadyRunning { .. }));
    assert_eq!(first.status(), "listener started");
    assert_eq!(second.status(), "listener already running");
    assert_ne!(first.health_token(), second.health_token());
    assert!(state.is_running());
    assert!(state.is_forwarding());
}

#[test]
fn start_after_pause_reenables_forwarding() {
    let mut state = InputListenerState::new();
    start_listener(&mut state);
    stop_listener(&mut state);
    assert!(state.is_running());
    assert!(!state.is_forwarding());
    let plan = start_listener(&mut state);
    assert!(matches!(plan, StartPlan::AlreadyRunning { .. }));
    assert!(state.is_forwarding());
}

#[test]
fn stop_when_idle_reports_not_running_and_bumps_token() {
    let mut state = InputListenerState::default();
    let before = state.health_token();
    assert_eq!(stop_listener(&mut state), "listener not running");
    assert_eq!(state.health_token(), before + 1);
}

#[test]
fn failed_spawn_returns_to_idle() {
    let mut state = InputListenerState::new();
    start_listener(&mut state);
    state.halt();
    assert!(!state.is_running());
    assert!(!state.is_forwarding());
    assert!(matches!(start_listener(&mut state), StartPlan::SpawnWorkers { .. }));
}

#[test]
fn start_resets_event_count() {
    let mut state = InputListenerState::new();
    start_listener(&mut state);
    capture_event(&mut state, &key("KeyA"));
    capture_event(&mut state, &key("KeyB"));
    assert_eq!(state.events_seen_since_start(), 2);
    start_listener(&mut state);
    assert_eq!(state.events_seen_since_start(), 0);
}

#[test]
fn paused_capture_counts_but_does_not_forward() {
    let mut state = InputListenerState::new();
    start_listener(&mut state);
    stop_listener(&mut state);
    assert!(capture_event(&mut state, &key("KeyA")).is_none());
    assert_eq!(state.events_seen_since_start(), 1);
}

#[test]
fn unrecognized_capture_is_ignored() {
    let mut state = InputListenerState::new();
    start_listener(&mut state);
    let raw = RawInput { kind: RawInputKind::Other, timestamp: 1 };
    assert!(capture_event(&mut state, &raw).is_none());
    assert_eq!(state.events_seen_since_start(), 0);
}

#[test]
fn forwarded_capture_is_normalized() {
    let mut state = InputListenerState::new();
    start_listener(&mut state);
    let e = capture_event(&mut state, &key("ShiftLeft")).unwrap();
    assert_eq!(e.kind, InputKind::KeyPress);
    assert_eq!(e.key_code.as_deref(), Some("ShiftLeft"));
    assert_eq!(e.timestamp, 42);
}

#[test]
fn forwarder_loop_conditions() {
    let mut state = InputListenerState::new();
    assert!(!state.keep_forwarding(true));
    assert!(state.keep_forwarding(false));
    assert_eq!(state.poll_interval_ms(), 80);
    start_listener(&mut state);
    assert!(state.keep_forwarding(true));
    assert_eq!(state.poll_interval_ms(), 4);
}

#[test]
fn failed_subscription_records_error_and_goes_idle() {
    let mut state = InputListenerState::new();
    let mut diag = DiagnosticsState::new();
    start_listener(&mut state);
    capture_subscription_ended(&mut state, &mut diag, Some("global input listener exited: denied".to_string()));
    assert!(!state.is_running());
    assert!(!state.is_forwarding());
    let snap = diag.snapshot();
    assert_eq!(snap.recent_errors.len(), 1);
    assert_eq!(snap.recent_errors[0].level, "error");
    assert_eq!(snap.recent_errors[0].message, "global input listener exited: denied");
    assert_eq!(snap.recent_errors[0].context, None);
}

#[test]
fn clean_subscription_end_goes_idle_without_error() {
    let mut state = InputListenerState::new();
    let mut diag = DiagnosticsState::new();
    start_listener(&mut state);
    capture_subscription_ended(&mut state, &mut diag, None);
    assert!(!state.is_running());
    assert!(diag.snapshot().recent_errors.is_empty());
}
