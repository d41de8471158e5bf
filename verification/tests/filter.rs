//! Tests for the input visibility filter.

use input_log_viewer::filter::FilterState;
use input_log_viewer::log::{ButtonState, InputEvent, InputKind, InputLog, InputMapping, LogMetadata};

fn create_test_log() -> InputLog {
    InputLog {
        metadata: LogMetadata::default(),
        mappings: vec![
            InputMapping { id: 0, name: "A Button".to_string(), color: None },
            InputMapping { id: 1, name: "B Button".to_string(), color: None },
            InputMapping { id: 10, name: "Left Stick X".to_string(), color: None },
        ],
        events: vec![
            InputEvent {
                frame: 0,
                id: 0,
                kind: InputKind::Button,
                state: ButtonState::Pressed,
                value: [1.0f32.to_bits(), 0.0f32.to_bits()],
            },
            InputEvent {
                frame: 0,
                id: 10,
                kind: InputKind::Axis1D,
                state: ButtonState::Released,
                value: [0.5f32.to_bits(), 0.0f32.to_bits()],
            },
        ],
    }
}

#[test]
fn test_default_filter_state() {
    let filter = FilterState::default();
    assert!(filter.show_button);
    assert!(filter.show_axis1d);
    assert!(filter.show_axis2d);
    assert!(filter.visible_ids.is_empty());
    assert!(!filter.is_initialized());
}

#[test]
fn test_initialize_from_log() {
    let log = create_test_log();
    let mut filter = FilterState::new();
    filter.initialize_from_log(&log);

    assert!(filter.is_initialized());
    assert!(filter.visible_ids.contains(&0));
    assert!(filter.visible_ids.contains(&1));
    assert!(filter.visible_ids.contains(&10));
}

#[test]
fn test_toggle_id() {
    let log = create_test_log();
    let mut filter = FilterState::new();
    filter.initialize_from_log(&log);

    assert!(filter.visible_ids.contains(&0));

    filter.toggle_id(0);
    assert!(!filter.visible_ids.contains(&0));

    filter.toggle_id(0);
    assert!(filter.visible_ids.contains(&0));
}

#[test]
fn test_select_deselect_all() {
    let log = create_test_log();
    let mut filter = FilterState::new();
    filter.initialize_from_log(&log);

    filter.deselect_all();
    assert!(filter.none_selected());

    filter.select_all(&log.mappings);
    assert!(filter.all_selected(&log.mappings));
}

#[test]
fn test_is_visible() {
    let log = create_test_log();
    let mut filter = FilterState::new();
    filter.initialize_from_log(&log);

    assert!(filter.is_visible(0, InputKind::Button));
    assert!(filter.is_visible(10, InputKind::Axis1D));

    filter.set_id_visible(0, false);
    assert!(!filter.is_visible(0, InputKind::Button));
    assert!(filter.is_visible(10, InputKind::Axis1D));

    filter.show_axis1d = false;
    assert!(!filter.is_visible(10, InputKind::Axis1D));
}

#[test]
fn test_type_filter() {
    let log = create_test_log();
    let mut filter = FilterState::new();
    filter.initialize_from_log(&log);

    filter.show_button = false;
    assert!(!filter.is_visible(0, InputKind::Button));
    assert!(filter.is_visible(10, InputKind::Axis1D));

    filter.show_button = true;
    filter.show_axis1d = false;
    assert!(filter.is_visible(0, InputKind::Button));
    assert!(!filter.is_visible(10, InputKind::Axis1D));
}

#[test]
fn test_enabled_type_count() {
    let mut filter = FilterState::new();

    assert_eq!(filter.enabled_type_count(), 3);

    filter.show_button = false;
    assert_eq!(filter.enabled_type_count(), 2);

    filter.show_axis1d = false;
    assert_eq!(filter.enabled_type_count(), 1);

    filter.show_axis2d = false;
    assert_eq!(filter.enabled_type_count(), 0);
}

#[test]
fn test_can_disable_type() {
    let mut filter = FilterState::new();

    assert!(filter.can_disable_type(InputKind::Button));
    assert!(filter.can_disable_type(InputKind::Axis1D));
    assert!(filter.can_disable_type(InputKind::Axis2D));

    filter.show_button = false;
    filter.show_axis1d = false;
    assert!(!filter.can_disable_type(InputKind::Axis2D));

    assert!(filter.can_disable_type(InputKind::Button));
    assert!(filter.can_disable_type(InputKind::Axis1D));
}

#[test]
fn test_set_type_visible() {
    let mut filter = FilterState::new();

    assert!(filter.set_type_visible(InputKind::Button, false));
    assert!(!filter.show_button);

    assert!(filter.set_type_visible(InputKind::Axis1D, false));
    assert!(!filter.show_axis1d);

    assert!(!filter.set_type_visible(InputKind::Axis2D, false));
    assert!(filter.show_axis2d);

    assert!(filter.set_type_visible(InputKind::Button, true));
    assert!(filter.show_button);
}
