//! Error dialog state: what the dialog shows and the clipboard feedback.

use crate::error::AppError;
use vstd::prelude::*;
use vstd::string::StringExecFns;

verus! {

/// Actions that can be triggered from the error dialog.
#[derive(Debug, Clone, Copy, PartialEq, Eq, Structural)]
pub enum ErrorDialogAction {
    /// The user wants to retry the failed operation.
    Retry,
    /// The user dismissed the dialog.
    Close,
}

/// How long clipboard feedback stays visible, in nanoseconds (two seconds).
pub const FEEDBACK_DISPLAY_NANOS: u64 = 2_000_000_000;

/// Feedback for a clipboard copy operation.
#[derive(Debug, Clone)]
pub struct ClipboardFeedback {
    /// Message to display.
    pub message: String,
    /// Clock reading (nanoseconds) when the feedback was created.
    pub created_at: u64,
    /// Whether the operation was successful.
    pub success: bool,
}

impl ClipboardFeedback {
    /// Feedback for a successful copy.
    pub fn success(now_nanos: u64) -> (r: Self)
        ensures
            r.message@ == "Copied to clipboard!"@,
            r.created_at == now_nanos,
            r.success,
    {
        ClipboardFeedback {
            message: String::from_str("Copied to clipboard!"),
            created_at: now_nanos,
            success: true,
        }
    }

    /// Feedback for a failed copy.
    pub fn failure(reason: &str, now_nanos: u64) -> (r: Self)
        ensures
            r.message@ == "Copy failed: "@ + reason@,
            r.created_at == now_nanos,
            !r.success,
    {
        let mut message = String::from_str("Copy failed: ");
        message.append(reason);
        ClipboardFeedback { message, created_at: now_nanos, success: false }
    }

    /// Whether the feedback should still be visible at the given instant.
    pub fn is_visible(&self, now_nanos: u64) -> (r: bool)
        ensures
            r == ({
                let elapsed = if now_nanos >= self.created_at {
                    now_nanos - self.created_at
                } else {
                    0int
                };
                elapsed < FEEDBACK_DISPLAY_NANOS
            }),
    {
        let elapsed: u64 = if now_nanos >= self.created_at {
            now_nanos - self.created_at
        } else {
            0
        };
        elapsed < FEEDBACK_DISPLAY_NANOS
    }
}

/// State for the error dialog.
#[derive(Debug, Clone)]
pub struct ErrorDialogState {
    /// Whether the dialog is currently open.
    pub is_open: bool,
    /// The error to display, if any.
    pub error: Option<AppError>,
    /// Whether the error details are expanded.
    pub details_expanded: bool,
    /// Feedback message for clipboard operations.
    pub clipboard_feedback: Option<ClipboardFeedback>,
}

impl ErrorDialogState {
    /// A closed dialog with no error.
    pub fn new() -> (r: Self)
        ensures
            !r.is_open,
            r.error is None,
            !r.details_expanded,
            r.clipboard_feedback is None,
    {
        ErrorDialogState {
            is_open: false,
            error: None,
            details_expanded: false,
            clipboard_feedback: None,
        }
    }

    /// Open the dialog on the given error, with details collapsed.
    pub fn show(&mut self, error: AppError)
        ensures
            final(self).is_open,
            final(self).error == Some(error),
            !final(self).details_expanded,
            final(self).clipboard_feedback is None,
    {
        self.is_open = true;
        self.error = Some(error);
        self.details_expanded = false;
        self.clipboard_feedback = None;
    }

    /// Close the dialog and forget the error.
    pub fn close(&mut self)
        ensures
            !final(self).is_open,
            final(self).error is None,
            !final(self).details_expanded,
            final(self).clipboard_feedback is None,
    {
        self.is_open = false;
        self.error = None;
        self.details_expanded = false;
        self.clipboard_feedback = None;
    }

    /// Whether the dialog is open and showing an error.
    pub fn has_error(&self) -> (r: bool)
        ensures
            r == (self.is_open && self.error is Some),
    {
        self.is_open && self.error.is_some()
    }
}

impl Default for ErrorDialogState {
    /// Defaults match `new`.
    fn default() -> (r: Self)
        ensures
            !r.is_open,
            r.error is None,
            !r.details_expanded,
            r.clipboard_feedback is None,
    {
        ErrorDialogState::new()
    }
}

} // verus!
