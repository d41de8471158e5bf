//! Tests for the error dialog state and the clipboard feedback.

use input_log_viewer::dialogs::{ClipboardFeedback, ErrorDialogState};
use input_log_viewer::error::AppError;

#[test]
fn test_error_dialog_state_new() {
    let state = ErrorDialogState::new();
    assert!(!state.is_open);
    assert!(state.error.is_none());
    assert!(!state.details_expanded);
}

#[test]
fn test_error_dialog_state_show() {
    let mut state = ErrorDialogState::new();
    let error = AppError::FileNotFound { path: "/test/file.ilj".to_string() };

    state.show(error.clone());
    assert!(state.is_open);
    assert!(state.error.is_some());
    assert!(!state.details_expanded);
    assert!(state.has_error());
}

#[test]
fn test_error_dialog_state_close() {
    let mut state = ErrorDialogState::new();
    state.show(AppError::FileNotFound { path: "/test/file.ilj".to_string() });
    state.close();

    assert!(!state.is_open);
    assert!(state.error.is_none());
    assert!(!state.has_error());
}

#[test]
fn test_clipboard_feedback_visibility() {
    let feedback = ClipboardFeedback::success(0);
    assert!(feedback.is_visible(0));

    // Two seconds later the feedback expires.
    assert!(feedback.is_visible(1_999_999_999));
    assert!(!feedback.is_visible(2_000_000_000));
}

#[test]
fn test_clipboard_feedback_failure() {
    let feedback = ClipboardFeedback::failure("test error", 0);
    assert!(!feedback.success);
    assert!(feedback.message.contains("test error"));
}
