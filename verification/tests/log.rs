//! Tests for the log data structures: names, colors and effective mappings.

use input_log_viewer::log::{ButtonState, InputEvent, InputKind, InputLog, InputMapping, LogMetadata};

fn event(frame: u64, id: u32, kind: InputKind, state: ButtonState, v: f32) -> InputEvent {
    InputEvent { frame, id, kind, state, value: [v.to_bits(), 0.0f32.to_bits()] }
}

#[test]
fn test_input_kind_values() {
    assert_eq!(InputKind::Button as u8, 0);
    assert_eq!(InputKind::Axis1D as u8, 1);
    assert_eq!(InputKind::Axis2D as u8, 2);
}

#[test]
fn test_button_state_values() {
    assert_eq!(ButtonState::Released as u8, 0);
    assert_eq!(ButtonState::Pressed as u8, 1);
    assert_eq!(ButtonState::Held as u8, 2);
}

#[test]
fn test_default_metadata() {
    let metadata = LogMetadata::default();
    assert_eq!(metadata.version, 1);
    assert_eq!(metadata.target_fps, 60);
    assert_eq!(metadata.frame_count, 0);
}

#[test]
fn test_default_input_log() {
    let log = InputLog::default();
    assert!(log.mappings.is_empty());
    assert!(log.events.is_empty());
}

#[test]
fn test_get_input_name_with_mapping() {
    let log = InputLog {
        mappings: vec![
            InputMapping { id: 0, name: "A Button".to_string(), color: Some([255, 0, 0]) },
            InputMapping { id: 1, name: "B Button".to_string(), color: None },
        ],
        ..Default::default()
    };

    assert_eq!(log.get_input_name(0), "A Button");
    assert_eq!(log.get_input_name(1), "B Button");
}

#[test]
fn test_get_input_name_fallback() {
    let log = InputLog {
        mappings: vec![InputMapping { id: 0, name: "A Button".to_string(), color: None }],
        ..Default::default()
    };

    assert_eq!(log.get_input_name(5), "Input #5");
    assert_eq!(log.get_input_name(99), "Input #99");
}

#[test]
fn test_get_input_color_with_mapping() {
    let log = InputLog {
        mappings: vec![
            InputMapping { id: 0, name: "A Button".to_string(), color: Some([255, 0, 0]) },
            InputMapping { id: 1, name: "B Button".to_string(), color: None },
        ],
        ..Default::default()
    };

    assert_eq!(log.get_input_color(0), Some([255, 0, 0]));
    assert_eq!(log.get_input_color(1), None);
    assert_eq!(log.get_input_color(99), None);
}

#[test]
fn test_get_effective_mappings_no_unmapped() {
    let log = InputLog {
        mappings: vec![
            InputMapping { id: 0, name: "A Button".to_string(), color: Some([255, 0, 0]) },
            InputMapping { id: 1, name: "B Button".to_string(), color: None },
        ],
        events: vec![
            event(0, 0, InputKind::Button, ButtonState::Pressed, 1.0),
            event(1, 1, InputKind::Button, ButtonState::Pressed, 1.0),
        ],
        ..Default::default()
    };

    let effective = log.get_effective_mappings();
    assert_eq!(effective.len(), 2);
    assert_eq!(effective[0].id, 0);
    assert_eq!(effective[0].name, "A Button");
    assert_eq!(effective[1].id, 1);
    assert_eq!(effective[1].name, "B Button");
}

#[test]
fn test_get_effective_mappings_with_unmapped() {
    let log = InputLog {
        mappings: vec![InputMapping { id: 0, name: "A Button".to_string(), color: Some([255, 0, 0]) }],
        events: vec![
            event(0, 0, InputKind::Button, ButtonState::Pressed, 1.0),
            event(1, 5, InputKind::Button, ButtonState::Pressed, 1.0),
            event(2, 10, InputKind::Axis1D, ButtonState::Released, 0.5),
        ],
        ..Default::default()
    };

    let effective = log.get_effective_mappings();
    assert_eq!(effective.len(), 3);

    assert_eq!(effective[0].id, 0);
    assert_eq!(effective[0].name, "A Button");
    assert_eq!(effective[0].color, Some([255, 0, 0]));

    assert_eq!(effective[1].id, 5);
    assert_eq!(effective[1].name, "Input #5");
    assert_eq!(effective[1].color, None);

    assert_eq!(effective[2].id, 10);
    assert_eq!(effective[2].name, "Input #10");
    assert_eq!(effective[2].color, None);
}

#[test]
fn test_get_effective_mappings_empty() {
    let log = InputLog::default();
    let effective = log.get_effective_mappings();
    assert!(effective.is_empty());
}
