//! Tests for selection state and the application of selection actions.

use input_log_viewer::selection::{apply_view_action, SelectionState};
use input_log_viewer::timeline::{TimelineConfig, ViewAction};

#[test]
fn test_selection_starts_collapsed() {
    let mut s = SelectionState::new();
    assert!(s.range.is_none());
    assert!(!s.dragging);

    s.start_selection(7);
    assert_eq!(s.range, Some((7, 7)));
    assert_eq!(s.anchor, 7);
    assert!(s.dragging);
}

#[test]
fn test_selection_drag_backward_normalizes() {
    // Dragging from frame 5 back to frame 2 yields the range (2, 5).
    let mut s = SelectionState::new();
    s.start_selection(5);
    s.update_selection(2);
    assert_eq!(s.range, Some((2, 5)));
    s.finish_selection();
    assert_eq!(s.range, Some((2, 5)));
    assert!(!s.dragging);
}

#[test]
fn test_selection_drag_forward() {
    let mut s = SelectionState::new();
    s.start_selection(3);
    s.update_selection(9);
    assert_eq!(s.range, Some((3, 9)));
    // Moving back across the anchor re-normalizes around the anchor.
    s.update_selection(1);
    assert_eq!(s.range, Some((1, 3)));
}

#[test]
fn test_selection_clear() {
    let mut s = SelectionState::new();
    s.start_selection(4);
    s.clear();
    assert!(s.range.is_none());
    assert!(!s.dragging);
}

#[test]
fn test_apply_selection_actions() {
    let mut c = TimelineConfig::default();
    let mut s = SelectionState::new();

    apply_view_action(&mut c, &mut s, &ViewAction::StartSelection { frame: 5 });
    assert_eq!(s.range, Some((5, 5)));
    assert!(s.dragging);

    apply_view_action(&mut c, &mut s, &ViewAction::UpdateSelection { frame: 2 });
    assert_eq!(s.range, Some((2, 5)));
    assert!(s.dragging);

    apply_view_action(&mut c, &mut s, &ViewAction::FinishSelection);
    assert_eq!(s.range, Some((2, 5)));
    assert!(!s.dragging);

    // Selection actions leave the viewport untouched.
    assert_eq!(c, TimelineConfig::default());
}
