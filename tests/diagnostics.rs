use input_pipeline::diagnostics::{log_frontend_error, normalize_level, DiagnosticsState};
use input_pipeline::event::{GlobalInputEvent, InputKind};
use input_pipeline::metrics::{clamp_metric, is_finite, FPS_MAX_BITS, MODEL_LOAD_MS_MAX_BITS};

fn key_event(code: &str, timestamp: u64) -> GlobalInputEvent {
    GlobalInputEvent {
        kind: InputKind::KeyPress,
        key_code: Some(code.to_string()),
        button: None,
        x: None,
        y: None,
        timestamp,
    }
}

#[test]
fn input_ring_keeps_last_fifty_of_fifty_one() {
    let mut store = DiagnosticsState::new();
    for i in 0..51u64 {
        store.record_input_event(key_event("KeyA", i));
    }
    let snap = store.snapshot();
    assert_eq!(snap.input_events.len(), 50);
    for (i, e) in snap.input_events.iter().enumerate() {
        assert_eq!(e.timestamp, i as u64 + 1);
    }
}

#[test]
fn input_ring_keeps_last_fifty_of_many() {
    let mut store = DiagnosticsState::new();
    for i in 0..200u64 {
        store.record_input_event(key_event("KeyB", i));
    }
    let snap = store.snapshot();
    assert_eq!(snap.input_events.len(), 50);
    assert_eq!(snap.input_events[0].timestamp, 150);
    assert_eq!(snap.input_events[49].timestamp, 199);
}

#[test]
fn input_ring_under_bound_keeps_all() {
    let mut store = DiagnosticsState::new();
    for i in 0..3u64 {
        store.record_input_event(key_event("KeyC", i));
    }
    let snap = store.snapshot();
    assert_eq!(snap.input_events.len(), 3);
    assert_eq!(snap.input_events[2].key_code.as_deref(), Some("KeyC"));
}

#[test]
fn empty_store_snapshot_is_empty() {
    let store = DiagnosticsState::default();
    let snap = store.snapshot();
    assert!(snap.input_events.is_empty());
    assert!(snap.recent_errors.is_empty());
    assert_eq!(snap.fps, None);
    assert_eq!(snap.model_load_ms, None);
}

#[test]
fn error_ring_keeps_last_fifty() {
    let mut store = DiagnosticsState::new();
    for i in 0..60u64 {
        store.record_error_at("warn".to_string(), format!("m{i}"), None, i);
    }
    let snap = store.snapshot();
    assert_eq!(snap.recent_errors.len(), 50);
    assert_eq!(snap.recent_errors[0].message, "m10");
    assert_eq!(snap.recent_errors[49].timestamp, 59);
}

#[test]
fn record_error_stamps_current_time() {
    let mut store = DiagnosticsState::new();
    store.record_error("error".to_string(), "boom".to_string(), Some("ctx".to_string()));
    let snap = store.snapshot();
    assert_eq!(snap.recent_errors.len(), 1);
    let rec = &snap.recent_errors[0];
    assert_eq!(rec.level, "error");
    assert_eq!(rec.message, "boom");
    assert_eq!(rec.context.as_deref(), Some("ctx"));
    assert!(rec.timestamp > 1_600_000_000_000);
}

#[test]
fn snapshot_is_independent_of_store() {
    let mut store = DiagnosticsState::new();
    store.record_input_event(key_event("KeyA", 1));
    let snap = store.snapshot();
    store.record_input_event(key_event("KeyB", 2));
    assert_eq!(snap.input_events.len(), 1);
    assert_eq!(store.snapshot().input_events.len(), 2);
}

#[test]
fn fps_above_bound_clamps_to_thousand() {
    let mut store = DiagnosticsState::new();
    store.set_metrics(Some(5000.0f64.to_bits()), None);
    let fps = store.snapshot().fps.map(f64::from_bits);
    assert_eq!(fps, Some(1000.0));
}

#[test]
fn non_finite_fps_keeps_previous_value() {
    let mut store = DiagnosticsState::new();
    store.set_metrics(Some(60.0f64.to_bits()), None);
    store.set_metrics(Some(f64::NAN.to_bits()), None);
    assert_eq!(store.snapshot().fps.map(f64::from_bits), Some(60.0));
    store.set_metrics(Some(f64::INFINITY.to_bits()), None);
    assert_eq!(store.snapshot().fps.map(f64::from_bits), Some(60.0));
    store.set_metrics(Some(f64::NEG_INFINITY.to_bits()), None);
    assert_eq!(store.snapshot().fps.map(f64::from_bits), Some(60.0));
    store.set_metrics(None, None);
    assert_eq!(store.snapshot().fps.map(f64::from_bits), Some(60.0));
}

#[test]
fn non_finite_fps_on_empty_store_stays_absent() {
    let mut store = DiagnosticsState::new();
    store.set_metrics(Some(f64::NAN.to_bits()), Some(f64::INFINITY.to_bits()));
    let snap = store.snapshot();
    assert_eq!(snap.fps, None);
    assert_eq!(snap.model_load_ms, None);
}

#[test]
fn model_load_clamps_to_bounds() {
    let mut store = DiagnosticsState::new();
    store.set_metrics(None, Some(1_000_000.0f64.to_bits()));
    assert_eq!(store.snapshot().model_load_ms.map(f64::from_bits), Some(600_000.0));
    store.set_metrics(None, Some((-5.0f64).to_bits()));
    assert_eq!(store.snapshot().model_load_ms.map(f64::from_bits), Some(0.0));
    store.set_metrics(None, Some(1234.5f64.to_bits()));
    assert_eq!(store.snapshot().model_load_ms.map(f64::from_bits), Some(1234.5));
}

#[test]
fn clamp_bounds_are_the_stated_doubles() {
    assert_eq!(f64::from_bits(FPS_MAX_BITS), 1000.0);
    assert_eq!(f64::from_bits(MODEL_LOAD_MS_MAX_BITS), 600_000.0);
    assert_eq!(f64::from_bits(clamp_metric(999.5f64.to_bits(), FPS_MAX_BITS)), 999.5);
    assert_eq!(f64::from_bits(clamp_metric(1000.25f64.to_bits(), FPS_MAX_BITS)), 1000.0);
    assert_eq!(f64::from_bits(clamp_metric((-0.0f64).to_bits(), FPS_MAX_BITS)), 0.0);
    assert_eq!(f64::from_bits(clamp_metric(f64::MIN_POSITIVE.to_bits(), FPS_MAX_BITS)), f64::MIN_POSITIVE);
}

#[test]
fn finiteness_of_bit_patterns() {
    assert!(is_finite(1.0f64.to_bits()));
    assert!(is_finite(f64::MAX.to_bits()));
    assert!(is_finite((-3.5f64).to_bits()));
    assert!(!is_finite(f64::NAN.to_bits()));
    assert!(!is_finite(f64::INFINITY.to_bits()));
    assert!(!is_finite(f64::NEG_INFINITY.to_bits()));
}

#[test]
fn frontend_levels_are_lower_cased() {
    assert_eq!(normalize_level(&Some("WARN".to_string())), "warn");
    assert_eq!(normalize_level(&Some("Info".to_string())), "info");
    assert_eq!(normalize_level(&None), "error");
}

#[test]
fn frontend_error_is_recorded_with_normalized_level() {
    let mut store = DiagnosticsState::new();
    let r = log_frontend_error(&mut store, Some("WARNING".to_string()), "slow".to_string(), None);
    assert!(r.is_ok());
    let r = log_frontend_error(&mut store, None, "bad".to_string(), Some("render".to_string()));
    assert!(r.is_ok());
    let snap = store.snapshot();
    assert_eq!(snap.recent_errors.len(), 2);
    assert_eq!(snap.recent_errors[0].level, "warning");
    assert_eq!(snap.recent_errors[0].message, "slow");
    assert_eq!(snap.recent_errors[1].level, "error");
    assert_eq!(snap.recent_errors[1].context.as_deref(), Some("render"));
}
