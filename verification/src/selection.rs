//! Selection state and the application of resolved view actions.
//!
//! A selection is an optional normalized frame range plus a dragging flag.
//! It is created and mutated only through view actions: a start gesture
//! anchors it, updates extend it symmetrically around the anchor, and a
//! release freezes it.

use crate::timeline::{TimelineConfig, ViewAction, MAX_VISIBLE_FRAMES, MIN_VISIBLE_FRAMES};
use vstd::prelude::*;

verus! {

/// A user-drawn frame range, kept normalized (start at most end).
#[derive(Debug, Clone, Copy, PartialEq)]
pub struct SelectionState {
    /// The selected range as `(start, end)` with `start <= end`, if any.
    pub range: Option<(u64, u64)>,
    /// The frame where the current (or last) drag started; updates are
    /// normalized around this anchor, not around the stored range.
    pub anchor: u64,
    /// True while the pointer button remains down after a selection start.
    pub dragging: bool,
}

impl SelectionState {
    /// The stored range is normalized.
    pub open spec fn wf(&self) -> bool {
        match self.range {
            Some(r) => r.0 <= r.1,
            None => true,
        }
    }

    /// An empty selection.
    pub fn new() -> (r: Self)
        ensures
            r.range is None,
            r.anchor == 0,
            !r.dragging,
            r.wf(),
    {
        SelectionState { range: None, anchor: 0, dragging: false }
    }

    /// Begin a selection drag: the range collapses to `frame`, which becomes
    /// the anchor for later updates.
    pub fn start_selection(&mut self, frame: u64)
        ensures
            *final(self) == (SelectionState {
                range: Some((frame, frame)),
                anchor: frame,
                dragging: true,
            }),
            final(self).wf(),
    {
        self.range = Some((frame, frame));
        self.anchor = frame;
        self.dragging = true;
    }

    /// Extend the selection drag to `frame`: the new range is the normalized
    /// span between the anchor and `frame`, so dragging backwards yields
    /// `(frame, anchor)`.
    pub fn update_selection(&mut self, frame: u64)
        ensures
            final(self).range == Some(
                (
                    (if frame < old(self).anchor {
                        frame
                    } else {
                        old(self).anchor
                    }),
                    (if frame > old(self).anchor {
                        frame
                    } else {
                        old(self).anchor
                    }),
                ),
            ),
            final(self).anchor == old(self).anchor,
            final(self).dragging,
            final(self).wf(),
    {
        let lo: u64 = if frame < self.anchor {
            frame
        } else {
            self.anchor
        };
        let hi: u64 = if frame > self.anchor {
            frame
        } else {
            self.anchor
        };
        self.range = Some((lo, hi));
        self.dragging = true;
    }

    /// Finish the selection drag: bounds are unchanged, dragging stops.
    pub fn finish_selection(&mut self)
        ensures
            *final(self) == (SelectionState { dragging: false, ..*old(self) }),
            old(self).wf() ==> final(self).wf(),
    {
        self.dragging = false;
    }

    /// Clear the selection entirely.
    pub fn clear(&mut self)
        ensures
            *final(self) == (SelectionState {
                range: None,
                anchor: old(self).anchor,
                dragging: false,
            }),
            final(self).wf(),
    {
        self.range = None;
        self.dragging = false;
    }
}

/// Apply a resolved view action to the viewport and the selection.  Zoom and
/// scroll targets are defensively re-clamped, so a well-formed viewport stays
/// well-formed under every action.
pub fn apply_view_action(
    config: &mut TimelineConfig,
    selection: &mut SelectionState,
    action: &ViewAction,
)
    ensures
        match *action {
            ViewAction::Zoom { visible_frames: v, scroll_offset: s } => {
                let cv = if v < MIN_VISIBLE_FRAMES {
                    MIN_VISIBLE_FRAMES
                } else if v > MAX_VISIBLE_FRAMES {
                    MAX_VISIBLE_FRAMES
                } else {
                    v
                };
                let m = (TimelineConfig { visible_frames: cv, ..*old(config) }).spec_max_scroll();
                &&& *final(config) == (TimelineConfig {
                    visible_frames: cv,
                    scroll_offset: if s < m {
                        s
                    } else {
                        m
                    },
                    ..*old(config)
                })
                &&& *final(selection) == *old(selection)
                &&& final(config).wf()
            },
            ViewAction::Scroll { scroll_offset: s } => {
                let m = old(config).spec_max_scroll();
                &&& *final(config) == (TimelineConfig {
                    scroll_offset: if s < m {
                        s
                    } else {
                        m
                    },
                    ..*old(config)
                })
                &&& *final(selection) == *old(selection)
                &&& (old(config).wf() ==> final(config).wf())
            },
            ViewAction::StartSelection { frame } => {
                &&& *final(config) == *old(config)
                &&& *final(selection) == (SelectionState {
                    range: Some((frame, frame)),
                    anchor: frame,
                    dragging: true,
                })
            },
            ViewAction::UpdateSelection { frame } => {
                &&& *final(config) == *old(config)
                &&& final(selection).range == Some(
                    (
                        (if frame < old(selection).anchor {
                            frame
                        } else {
                            old(selection).anchor
                        }),
                        (if frame > old(selection).anchor {
                            frame
                        } else {
                            old(selection).anchor
                        }),
                    ),
                )
                &&& final(selection).anchor == old(selection).anchor
                &&& final(selection).dragging
            },
            ViewAction::FinishSelection => {
                &&& *final(config) == *old(config)
                &&& *final(selection) == (SelectionState { dragging: false, ..*old(selection) })
            },
        },
        old(config).wf() ==> final(config).wf(),
        old(selection).wf() ==> final(selection).wf(),
{
    match *action {
        ViewAction::Zoom { visible_frames, scroll_offset } => {
            let cv: u64 = if visible_frames < MIN_VISIBLE_FRAMES {
                MIN_VISIBLE_FRAMES
            } else if visible_frames > MAX_VISIBLE_FRAMES {
                MAX_VISIBLE_FRAMES
            } else {
                visible_frames
            };
            config.visible_frames = cv;
            let m: u64 = config.max_scroll();
            config.scroll_offset = if scroll_offset < m {
                scroll_offset
            } else {
                m
            };
        },
        ViewAction::Scroll { scroll_offset } => {
            let m: u64 = config.max_scroll();
            config.scroll_offset = if scroll_offset < m {
                scroll_offset
            } else {
                m
            };
        },
        ViewAction::StartSelection { frame } => {
            selection.start_selection(frame);
        },
        ViewAction::UpdateSelection { frame } => {
            selection.update_selection(frame);
        },
        ViewAction::FinishSelection => {
            selection.finish_selection();
        },
    }
}

} // verus!
