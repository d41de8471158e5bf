//! Application state: loading status, status messages and search dialog
//! state.

use crate::search::SearchResult;
use vstd::prelude::*;

verus! {

/// Error information for the error state.
#[derive(Debug, Clone, PartialEq)]
pub struct AppError {
    /// Error message to display.
    pub message: String,
    /// Whether the error is recoverable (can return to the previous state).
    pub recoverable: bool,
}

impl AppError {
    /// Create a new recoverable error.
    pub fn recoverable(message: String) -> (r: Self)
        ensures
            r.message == message,
            r.recoverable,
    {
        AppError { message, recoverable: true }
    }

    /// Create a new non-recoverable error.
    pub fn fatal(message: String) -> (r: Self)
        ensures
            r.message == message,
            !r.recoverable,
    {
        AppError { message, recoverable: false }
    }
}

/// Application state indicating the current loading status.
#[derive(Debug, Clone, PartialEq)]
pub enum AppState {
    /// No file has been loaded yet (the initial state).
    NoFileLoaded,
    /// File loading in progress.
    Loading,
    /// A file has been successfully loaded and is ready for viewing.
    Ready,
    /// Playback is in progress.
    Playing,
    /// An error occurred.
    Error(AppError),
}

impl AppState {
    /// Whether file operations are allowed in this state.
    pub fn can_open_file(&self) -> (r: bool)
        ensures
            r == !(*self is Loading),
    {
        !matches!(self, AppState::Loading)
    }

    /// Whether toolbar controls (filter, search) should be enabled.
    pub fn toolbar_enabled(&self) -> (r: bool)
        ensures
            r == (*self is Ready || *self is Playing),
    {
        matches!(self, AppState::Ready | AppState::Playing)
    }

    /// Whether playback controls should be enabled.
    pub fn controls_enabled(&self) -> (r: bool)
        ensures
            r == (*self is Ready || *self is Playing),
    {
        matches!(self, AppState::Ready | AppState::Playing)
    }

    /// Whether the timeline should be displayed.
    pub fn show_timeline(&self) -> (r: bool)
        ensures
            r == (*self is Ready || *self is Playing),
    {
        matches!(self, AppState::Ready | AppState::Playing)
    }

    /// Whether playback is currently active.
    pub fn is_playing(&self) -> (r: bool)
        ensures
            r == (*self is Playing),
    {
        matches!(self, AppState::Playing)
    }
}

impl Default for AppState {
    /// The initial state: no file loaded.
    fn default() -> (r: Self)
        ensures
            r is NoFileLoaded,
    {
        AppState::NoFileLoaded
    }
}

/// Kind of status message to display.
#[derive(Debug, Clone, Copy, PartialEq, Eq, Structural)]
pub enum StatusKind {
    /// Success message (shown in green).
    Success,
    /// Error message (shown in red).
    Error,
}

/// How long a status message stays visible, in nanoseconds (five seconds).
pub const STATUS_DISPLAY_NANOS: u64 = 5_000_000_000;

/// A status message with its kind and creation time.
#[derive(Debug, Clone, PartialEq)]
pub struct StatusMessage {
    /// The message text.
    pub text: String,
    /// Kind of message (success or error).
    pub kind: StatusKind,
    /// Clock reading (nanoseconds) when the message was created.
    pub created_at: u64,
}

impl StatusMessage {
    /// Create a new status message stamped with the given clock reading.
    pub fn new(text: String, kind: StatusKind, now_nanos: u64) -> (r: Self)
        ensures
            r.text == text,
            r.kind == kind,
            r.created_at == now_nanos,
    {
        StatusMessage { text, kind, created_at: now_nanos }
    }

    /// Whether the message should still be displayed at the given instant:
    /// less than the display duration has elapsed since creation.
    pub fn is_visible(&self, now_nanos: u64) -> (r: bool)
        ensures
            r == ({
                let elapsed = if now_nanos >= self.created_at {
                    now_nanos - self.created_at
                } else {
                    0int
                };
                elapsed < STATUS_DISPLAY_NANOS
            }),
    {
        let elapsed: u64 = if now_nanos >= self.created_at {
            now_nanos - self.created_at
        } else {
            0
        };
        elapsed < STATUS_DISPLAY_NANOS
    }
}

/// State for the search dialog and its results.
#[derive(Debug, Clone, PartialEq)]
pub struct SearchState {
    /// Whether the search dialog is currently open.
    pub dialog_open: bool,
    /// Index of the selected input in the mappings list.
    pub selected_input_index: usize,
    /// Selected button state filter (0 = any, 1 = pressed, 2 = released).
    pub selected_state_index: usize,
    /// Current search results.
    pub results: SearchResult,
    /// Whether a search has been performed.
    pub has_searched: bool,
}

impl SearchState {
    /// Create a new search state.
    pub fn new() -> (r: Self)
        ensures
            !r.dialog_open,
            r.selected_input_index == 0,
            r.selected_state_index == 0,
            r.results.matches@.len() == 0,
            r.results.current_index is None,
            !r.has_searched,
    {
        SearchState {
            dialog_open: false,
            selected_input_index: 0,
            selected_state_index: 0,
            results: SearchResult::new(),
            has_searched: false,
        }
    }

    /// Reset the search state when a new file is loaded.  The dialog's
    /// open flag is kept so the user can continue searching.
    pub fn reset(&mut self)
        ensures
            final(self).dialog_open == old(self).dialog_open,
            final(self).selected_input_index == 0,
            final(self).selected_state_index == 0,
            final(self).results.matches@.len() == 0,
            final(self).results.current_index is None,
            !final(self).has_searched,
    {
        self.selected_input_index = 0;
        self.selected_state_index = 0;
        self.results = SearchResult::new();
        self.has_searched = false;
    }

    /// Clear the search results and mark as not searched.
    pub fn clear_results(&mut self)
        ensures
            final(self).dialog_open == old(self).dialog_open,
            final(self).selected_input_index == old(self).selected_input_index,
            final(self).selected_state_index == old(self).selected_state_index,
            final(self).results.matches@.len() == 0,
            final(self).results.current_index is None,
            !final(self).has_searched,
    {
        self.results = SearchResult::new();
        self.has_searched = false;
    }
}

impl Default for SearchState {
    /// Defaults match `new`.
    fn default() -> (r: Self)
        ensures
            !r.dialog_open,
            r.selected_input_index == 0,
            r.selected_state_index == 0,
            !r.has_searched,
    {
        SearchState::new()
    }
}

} // verus!
