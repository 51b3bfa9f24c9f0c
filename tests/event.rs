use input_pipeline::clock::{millis_to_timestamp, now_timestamp_ms, timestamp_ms_of};
use input_pipeline::event::{normalize_event, InputKind, RawInput, RawInputKind};
use input_pipeline::model_scan::is_model3_json_name;
use std::time::{Duration, UNIX_EPOCH};

#[test]
fn normalize_fills_only_fields_of_kind() {
    let raw = RawInput { kind: RawInputKind::MouseMove { x: 12.5f64.to_bits(), y: 0.0f64.to_bits() }, timestamp: 77 };
    let e = normalize_event(&raw).unwrap();
    assert_eq!(e.kind, InputKind::MouseMove);
    assert_eq!(e.x.map(f64::from_bits), Some(12.5));
    assert_eq!(e.y.map(f64::from_bits), Some(0.0));
    assert_eq!(e.key_code, None);
    assert_eq!(e.button, None);
    assert_eq!(e.timestamp, 77);
}

#[test]
fn normalize_buttons_and_keys() {
    let b = normalize_event(&RawInput { kind: RawInputKind::ButtonRelease("Left".to_string()), timestamp: 3 }).unwrap();
    assert_eq!(b.kind, InputKind::ButtonRelease);
    assert_eq!(b.button.as_deref(), Some("Left"));
    assert_eq!(b.x, None);
    let k = normalize_event(&RawInput { kind: RawInputKind::KeyRelease("Escape".to_string()), timestamp: 4 }).unwrap();
    assert_eq!(k.kind, InputKind::KeyRelease);
    assert_eq!(k.key_code.as_deref(), Some("Escape"));
    assert_eq!(k.button, None);
    let p = normalize_event(&RawInput { kind: RawInputKind::ButtonPress("Right".to_string()), timestamp: 5 }).unwrap();
    assert_eq!(p.kind.name(), "ButtonPress");
}

#[test]
fn normalize_ignores_other_kinds() {
    assert!(normalize_event(&RawInput { kind: RawInputKind::Other, timestamp: 1 }).is_none());
}

#[test]
fn kind_names() {
    assert_eq!(InputKind::KeyPress.name(), "KeyPress");
    assert_eq!(InputKind::KeyRelease.name(), "KeyRelease");
    assert_eq!(InputKind::MouseMove.name(), "MouseMove");
    assert_eq!(InputKind::ButtonRelease.name(), "ButtonRelease");
}

#[test]
fn timestamps_are_epoch_millis() {
    let t = UNIX_EPOCH + Duration::from_millis(1_234_567);
    assert_eq!(timestamp_ms_of(&t), 1_234_567);
    assert_eq!(timestamp_ms_of(&UNIX_EPOCH), 0);
    let before = UNIX_EPOCH - Duration::from_secs(5);
    assert_eq!(timestamp_ms_of(&before), 0);
    assert!(now_timestamp_ms() > 1_600_000_000_000);
}

#[test]
fn model_file_names() {
    assert!(is_model3_json_name("hiyori.model3.json"));
    assert!(is_model3_json_name(".model3.json"));
    assert!(!is_model3_json_name("hiyori.model3.json.bak"));
    assert!(!is_model3_json_name("model3.json"));
    assert!(!is_model3_json_name(""));
}

#[test]
fn millis_convert_with_truncation() {
    assert_eq!(millis_to_timestamp(None), 0);
    assert_eq!(millis_to_timestamp(Some(1_700_000_000_123)), 1_700_000_000_123);
    assert_eq!(millis_to_timestamp(Some((1u128 << 64) + 5)), 5);
}
