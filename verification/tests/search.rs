//! Tests for search queries, result navigation and frame matching.

use input_log_viewer::log::{ButtonState, InputEvent, InputKind, InputLog, InputMapping, LogMetadata};
use input_log_viewer::search::{find_matches, SearchQuery, SearchResult};

fn event(frame: u64, id: u32, kind: InputKind, state: ButtonState, v: f32) -> InputEvent {
    InputEvent { frame, id, kind, state, value: [v.to_bits(), 0.0f32.to_bits()] }
}

fn create_search_log() -> InputLog {
    InputLog {
        metadata: LogMetadata {
            version: 1,
            target_fps: 60,
            frame_count: 100,
            created_at: None,
            source: None,
        },
        mappings: vec![
            InputMapping { id: 0, name: "A Button".to_string(), color: None },
            InputMapping { id: 1, name: "B Button".to_string(), color: None },
            InputMapping { id: 10, name: "Left Stick X".to_string(), color: None },
        ],
        events: vec![
            event(0, 0, InputKind::Button, ButtonState::Pressed, 1.0),
            event(1, 0, InputKind::Button, ButtonState::Held, 1.0),
            event(5, 0, InputKind::Button, ButtonState::Released, 0.0),
            event(10, 1, InputKind::Button, ButtonState::Pressed, 1.0),
            event(15, 10, InputKind::Axis1D, ButtonState::Released, 0.75),
            event(20, 0, InputKind::Button, ButtonState::Pressed, 1.0),
        ],
    }
}

#[test]
fn test_empty_query() {
    let log = create_search_log();
    let query = SearchQuery::new();
    assert!(query.is_empty());

    let results = find_matches(&log, &query);
    assert!(results.is_empty());
}

#[test]
fn test_search_by_input_id() {
    let log = create_search_log();
    let query = SearchQuery::with_input_id(0);
    let results = find_matches(&log, &query);

    assert_eq!(results, vec![0, 1, 5, 20]);
}

#[test]
fn test_search_by_button_state() {
    let log = create_search_log();
    let query = SearchQuery::new().input_id(0).button_state(ButtonState::Pressed);
    let results = find_matches(&log, &query);

    assert_eq!(results, vec![0, 20]);
}

#[test]
fn test_search_by_kind() {
    let log = create_search_log();
    let query = SearchQuery::new().kind(InputKind::Axis1D);
    let results = find_matches(&log, &query);

    assert_eq!(results, vec![15]);
}

#[test]
fn test_search_result_navigation() {
    let mut result = SearchResult::from_matches(vec![0, 5, 10, 20]);

    assert_eq!(result.count(), 4);
    assert_eq!(result.current_frame(), Some(0));
    assert_eq!(result.current_position(), Some(1));

    assert_eq!(result.next(), Some(5));
    assert_eq!(result.current_position(), Some(2));
    assert_eq!(result.next(), Some(10));
    assert_eq!(result.next(), Some(20));

    // Wrap around.
    assert_eq!(result.next(), Some(0));
    assert_eq!(result.current_position(), Some(1));

    // Navigate backward.
    assert_eq!(result.prev(), Some(20));
    assert_eq!(result.prev(), Some(10));
}

#[test]
fn test_search_result_closest() {
    let mut result = SearchResult::from_matches(vec![0, 5, 10, 20, 30]);

    result.set_closest_to_frame(7);
    assert_eq!(result.current_frame(), Some(10));

    result.set_closest_to_frame(0);
    assert_eq!(result.current_frame(), Some(0));

    // No match at or after the frame: wrap to the first.
    result.set_closest_to_frame(100);
    assert_eq!(result.current_frame(), Some(0));
}

#[test]
fn test_search_result_contains() {
    let result = SearchResult::from_matches(vec![0, 5, 10, 20]);

    assert!(result.contains_frame(5));
    assert!(result.contains_frame(20));
    assert!(!result.contains_frame(7));
    assert!(!result.contains_frame(100));
}

#[test]
fn test_query_builder() {
    let query = SearchQuery::new()
        .input_id(5)
        .kind(InputKind::Button)
        .button_state(ButtonState::Pressed);

    assert_eq!(query.input_id, Some(5));
    assert_eq!(query.kind, Some(InputKind::Button));
    assert_eq!(query.button_state, Some(ButtonState::Pressed));
}

#[test]
fn test_matches_deduplicates_frames() {
    // Two matching events on the same frame produce one match entry.
    let mut log = create_search_log();
    log.events.push(event(0, 0, InputKind::Button, ButtonState::Pressed, 1.0));
    let results = find_matches(&log, &SearchQuery::with_input_id(0));
    assert_eq!(results, vec![0, 1, 5, 20]);
}

#[test]
fn test_empty_result_navigation() {
    let mut result = SearchResult::new();
    assert!(result.is_empty());
    assert_eq!(result.current_frame(), None);
    assert_eq!(result.current_position(), None);
    assert_eq!(result.next(), None);
    assert_eq!(result.prev(), None);
    result.set_closest_to_frame(5);
    assert_eq!(result.current_frame(), None);
}
