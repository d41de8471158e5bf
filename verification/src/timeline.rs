//! Timeline viewport state and interaction logic.
//!
//! The viewport maps between frame indices and pixel positions inside a
//! rendering area of caller-supplied width, and resolves pointer gestures
//! (scrollbar drag, selection drag, pan drag, zoom wheel, plain wheel) into a
//! closed set of view actions.  All coordinates are integer pixels and all
//! conversions are rational arithmetic with explicit flooring, so every
//! mapping is exactly specified.

use vstd::prelude::*;

verus! {

/// Default number of visible frames in the timeline.
pub const DEFAULT_VISIBLE_FRAMES: u64 = 100;

/// Minimum number of visible frames (maximum zoom in).
pub const MIN_VISIBLE_FRAMES: u64 = 10;

/// Maximum number of visible frames (maximum zoom out).
pub const MAX_VISIBLE_FRAMES: u64 = 10000;

/// Zoom factor per wheel step, as a percentage (115 = multiply or divide the
/// visible frame count by 1.15).
pub const ZOOM_STEP_PERCENT: u64 = 115;

/// Minimum scrollbar thumb width in pixels.
pub const MIN_THUMB_WIDTH: u64 = 20;

/// Height of each input row in pixels.
pub const ROW_HEIGHT: u64 = 32;

/// Height of the frame number header in pixels.
pub const HEADER_HEIGHT: u64 = 20;

/// Height of the legend area at the bottom in pixels.
pub const LEGEND_HEIGHT: u64 = 30;

/// Height of the scrollbar area in pixels.
pub const SCROLLBAR_HEIGHT: u64 = 16;

/// Actions that the timeline interaction layer can request from the host.
#[derive(Debug, Clone, Copy, PartialEq, Eq, Structural)]
pub enum ViewAction {
    /// Zoom the timeline view.
    Zoom { visible_frames: u64, scroll_offset: u64 },
    /// Scroll the timeline view.
    Scroll { scroll_offset: u64 },
    /// Start a range selection drag at the given frame.
    StartSelection { frame: u64 },
    /// Update the range selection during drag.
    UpdateSelection { frame: u64 },
    /// Finish the range selection.
    FinishSelection,
}

/// Viewport state: which frames are visible, and where playback stands.
#[derive(Debug, Clone, Copy, PartialEq, Eq, Structural)]
pub struct TimelineConfig {
    /// First visible frame (for scrolling).
    pub scroll_offset: u64,
    /// Number of frames spanned by the rendering area (zoom level).
    pub visible_frames: u64,
    /// Current frame position (for the playback indicator).
    pub current_frame: u64,
    /// Total number of frames in the log.
    pub total_frames: u64,
}

impl TimelineConfig {
    /// Viewport invariant: the zoom level is in range and the view does not
    /// start past the last scroll position.
    pub open spec fn wf(&self) -> bool {
        &&& MIN_VISIBLE_FRAMES <= self.visible_frames <= MAX_VISIBLE_FRAMES
        &&& self.scroll_offset <= self.spec_max_scroll()
    }

    /// Largest valid scroll offset for the current zoom level.
    pub open spec fn spec_max_scroll(&self) -> u64 {
        if self.total_frames >= self.visible_frames {
            (self.total_frames - self.visible_frames) as u64
        } else {
            0u64
        }
    }

    /// Largest valid scroll offset, executable form.
    pub fn max_scroll(&self) -> (r: u64)
        ensures
            r == self.spec_max_scroll(),
    {
        if self.total_frames >= self.visible_frames {
            self.total_frames - self.visible_frames
        } else {
            0
        }
    }

    /// Zoom expressed as a percentage of the default zoom level, truncated
    /// (100 means `DEFAULT_VISIBLE_FRAMES` frames are visible).
    pub fn zoom_percentage(&self) -> (r: u64)
        requires
            self.visible_frames >= 1,
        ensures
            r == DEFAULT_VISIBLE_FRAMES * 100 / self.visible_frames as int,
    {
        DEFAULT_VISIBLE_FRAMES * 100 / self.visible_frames
    }

    /// The step of the frame-number label ladder for the current zoom level:
    /// the wider the view, the sparser the labels.
    pub open spec fn spec_frame_interval(visible_frames: u64) -> u64 {
        if visible_frames <= 20 {
            1u64
        } else if visible_frames <= 50 {
            5u64
        } else if visible_frames <= 100 {
            10u64
        } else if visible_frames <= 500 {
            50u64
        } else if visible_frames <= 2000 {
            100u64
        } else if visible_frames <= 5000 {
            500u64
        } else {
            1000u64
        }
    }

    /// Interval between frame-number labels for the current zoom level.
    pub fn calculate_frame_interval(&self) -> (r: u64)
        ensures
            r == Self::spec_frame_interval(self.visible_frames),
    {
        if self.visible_frames <= 20 {
            1
        } else if self.visible_frames <= 50 {
            5
        } else if self.visible_frames <= 100 {
            10
        } else if self.visible_frames <= 500 {
            50
        } else if self.visible_frames <= 2000 {
            100
        } else {
            if self.visible_frames <= 5000 {
                500
            } else {
                1000
            }
        }
    }

    /// The frame under pixel column `x`, clamped into the log.
    pub open spec fn spec_x_to_frame(&self, x: int, area_left: int, area_width: int) -> int
        recommends
            area_width >= 1,
    {
        let rel = if x > area_left {
            x - area_left
        } else {
            0int
        };
        let offset = rel * self.visible_frames / area_width;
        let last = if self.total_frames > 0 {
            self.total_frames - 1
        } else {
            0int
        };
        if self.scroll_offset + offset < last {
            self.scroll_offset + offset
        } else {
            last
        }
    }

    /// Convert a pixel column inside the rendering area to a frame index,
    /// clamped into `[0, total_frames - 1]` (0 for an empty log).
    pub fn x_to_frame(&self, x: i64, area_left: i64, area_width: u64) -> (frame: u64)
        requires
            area_width >= 1,
        ensures
            frame == self.spec_x_to_frame(x as int, area_left as int, area_width as int),
    {
        let rel: u128 = if x > area_left {
            (x as i128 - area_left as i128) as u128
        } else {
            0
        };
        proof {
            assert(rel * (self.visible_frames as u128)
                <= 0xFFFF_FFFF_FFFF_FFFFint * 0xFFFF_FFFF_FFFF_FFFF) by (nonlinear_arith)
                requires
                    0 <= rel <= 0xFFFF_FFFF_FFFF_FFFFu128,
                    0 <= self.visible_frames <= 0xFFFF_FFFF_FFFF_FFFFu64,
            ;
        }
        let offset: u128 = rel * (self.visible_frames as u128) / (area_width as u128);
        proof {
            vstd::arithmetic::div_mod::lemma_div_nonincreasing(
                (rel * (self.visible_frames as u128)) as int,
                area_width as int,
            );
        }
        let last: u64 = if self.total_frames > 0 {
            self.total_frames - 1
        } else {
            0
        };
        let unclamped: u128 = (self.scroll_offset as u128) + offset;
        if unclamped < (last as u128) {
            unclamped as u64
        } else {
            last
        }
    }

    /// The pixel column of the left edge of a frame.  Frames left of the view
    /// map symmetrically below `area_left` (rounding away from the view).
    pub open spec fn spec_frame_to_x(&self, frame: u64, area_left: int, area_width: int) -> int
        recommends
            self.visible_frames >= 1,
    {
        if frame >= self.scroll_offset {
            area_left + (frame - self.scroll_offset) * area_width / (self.visible_frames as int)
        } else {
            area_left - ((self.scroll_offset - frame) * area_width + (self.visible_frames - 1))
                / (self.visible_frames as int)
        }
    }

    /// Convert a frame index to the pixel column of its left edge.  The
    /// result may fall outside the rendering area for off-screen frames;
    /// callers must cull.  The bounds keep the result within `i64`.
    pub fn frame_to_x(&self, frame: u64, area_left: i64, area_width: u64) -> (x: i64)
        requires
            1 <= self.visible_frames <= MAX_VISIBLE_FRAMES,
            frame <= self.total_frames,
            self.scroll_offset <= self.total_frames,
            self.total_frames <= 0xFFFF_FFFFu64,
            area_width <= 0x100_0000u64,
            -0x7FFF_FFFF <= area_left <= 0x7FFF_FFFF,
        ensures
            x == self.spec_frame_to_x(frame, area_left as int, area_width as int),
    {
        if frame >= self.scroll_offset {
            let d: u64 = frame - self.scroll_offset;
            proof {
                assert(d * area_width <= 0xFFFF_FFFFint * 0x100_0000) by (nonlinear_arith)
                    requires
                        0 <= d <= 0xFFFF_FFFFu64,
                        0 <= area_width <= 0x100_0000u64,
                ;
            }
            let num: u64 = d * area_width;
            let q: u64 = num / self.visible_frames;
            proof {
                vstd::arithmetic::div_mod::lemma_div_nonincreasing(
                    num as int,
                    self.visible_frames as int,
                );
            }
            area_left + (q as i64)
        } else {
            let d: u64 = self.scroll_offset - frame;
            proof {
                assert(d * area_width <= 0xFFFF_FFFFint * 0x100_0000) by (nonlinear_arith)
                    requires
                        0 <= d <= 0xFFFF_FFFFu64,
                        0 <= area_width <= 0x100_0000u64,
                ;
            }
            let num: u64 = d * area_width + (self.visible_frames - 1);
            let q: u64 = num / self.visible_frames;
            proof {
                vstd::arithmetic::div_mod::lemma_div_nonincreasing(
                    num as int,
                    self.visible_frames as int,
                );
            }
            area_left - (q as i64)
        }
    }

    /// Width of the scrollbar thumb: proportional to the visible share of the
    /// log, at least `MIN_THUMB_WIDTH`, and never wider than the track.
    pub open spec fn spec_thumb_width(&self, track_width: u64) -> u64 {
        if self.total_frames == 0 {
            track_width
        } else {
            let w = track_width * self.visible_frames / (self.total_frames as int);
            let w_min = if w < MIN_THUMB_WIDTH {
                MIN_THUMB_WIDTH as int
            } else {
                w
            };
            if w_min > track_width {
                track_width
            } else {
                w_min as u64
            }
        }
    }

    /// Calculate the scrollbar thumb width for a track of the given width.
    pub fn calculate_scrollbar_thumb_width(&self, track_width: u64) -> (r: u64)
        ensures
            r == self.spec_thumb_width(track_width),
    {
        if self.total_frames == 0 {
            return track_width;
        }
        proof {
            assert((track_width as u128) * (self.visible_frames as u128)
                <= 0xFFFF_FFFF_FFFF_FFFFint * 0xFFFF_FFFF_FFFF_FFFF) by (nonlinear_arith)
                requires
                    track_width <= 0xFFFF_FFFF_FFFF_FFFFu64,
                    self.visible_frames <= 0xFFFF_FFFF_FFFF_FFFFu64,
            ;
        }
        let w: u128 = (track_width as u128) * (self.visible_frames as u128)
            / (self.total_frames as u128);
        let w_min: u128 = if w < (MIN_THUMB_WIDTH as u128) {
            MIN_THUMB_WIDTH as u128
        } else {
            w
        };
        if w_min > (track_width as u128) {
            track_width
        } else {
            w_min as u64
        }
    }

    /// Outcome of a scrollbar drag with the pointer at the given column: the
    /// pointer position inside the usable track maps proportionally onto the
    /// scroll range.  No action when the thumb fills the whole track.
    pub open spec fn spec_scrollbar_action(
        &self,
        pointer_x: int,
        track_left: int,
        track_width: u64,
    ) -> Option<ViewAction> {
        let thumb = self.spec_thumb_width(track_width);
        if thumb >= track_width {
            None
        } else {
            let usable = track_width - thumb;
            let rel0 = pointer_x - track_left - thumb / 2;
            let rel = if rel0 < 0 {
                0int
            } else if rel0 > usable {
                usable as int
            } else {
                rel0
            };
            let maxs = self.spec_max_scroll();
            let target = rel * maxs / (usable as int);
            let clamped = if target < maxs {
                target
            } else {
                maxs as int
            };
            Some(ViewAction::Scroll { scroll_offset: clamped as u64 })
        }
    }

    /// Handle a drag on the scrollbar track.
    pub fn handle_scrollbar_drag(
        &self,
        pointer_x: i64,
        track_left: i64,
        track_width: u64,
    ) -> (r: Option<ViewAction>)
        ensures
            r == self.spec_scrollbar_action(pointer_x as int, track_left as int, track_width),
            match r {
                Some(ViewAction::Scroll { scroll_offset }) => scroll_offset
                    <= self.spec_max_scroll(),
                Some(_) => false,
                None => true,
            },
    {
        let thumb: u64 = self.calculate_scrollbar_thumb_width(track_width);
        if thumb >= track_width {
            return None;
        }
        let usable: u64 = track_width - thumb;
        let rel0: i128 = (pointer_x as i128) - (track_left as i128) - ((thumb / 2) as i128);
        let rel: u64 = if rel0 < 0 {
            0
        } else if rel0 > (usable as i128) {
            usable
        } else {
            rel0 as u64
        };
        let maxs: u64 = self.max_scroll();
        proof {
            assert((rel as u128) * (maxs as u128)
                <= 0xFFFF_FFFF_FFFF_FFFFint * 0xFFFF_FFFF_FFFF_FFFF) by (nonlinear_arith)
                requires
                    rel <= 0xFFFF_FFFF_FFFF_FFFFu64,
                    maxs <= 0xFFFF_FFFF_FFFF_FFFFu64,
            ;
        }
        let target: u128 = (rel as u128) * (maxs as u128) / (usable as u128);
        let clamped: u64 = if target < (maxs as u128) {
            target as u64
        } else {
            maxs
        };
        Some(ViewAction::Scroll { scroll_offset: clamped })
    }

    /// The zoom level one wheel step in or out from `visible_frames`,
    /// clamped into `[MIN_VISIBLE_FRAMES, MAX_VISIBLE_FRAMES]`.
    pub open spec fn spec_zoomed_visible(visible_frames: u64, zoom_in: bool) -> u64 {
        let raw = if zoom_in {
            visible_frames * 100 / (ZOOM_STEP_PERCENT as int)
        } else {
            visible_frames * ZOOM_STEP_PERCENT / 100int
        };
        if raw < MIN_VISIBLE_FRAMES {
            MIN_VISIBLE_FRAMES
        } else if raw > MAX_VISIBLE_FRAMES {
            MAX_VISIBLE_FRAMES
        } else {
            raw as u64
        }
    }

    /// Outcome of a zoom wheel step with the pointer at the given column.
    /// The scroll offset is recomputed so that the frame under the pointer
    /// stays under it (the anchor invariant), then clamped into range.
    pub open spec fn spec_zoom_action(
        &self,
        pointer_x: int,
        zoom_in: bool,
        area_left: int,
        area_width: int,
    ) -> Option<ViewAction>
        recommends
            area_width >= 1,
    {
        let nv = Self::spec_zoomed_visible(self.visible_frames, zoom_in);
        if nv == self.visible_frames {
            None
        } else {
            let rel = if pointer_x > area_left {
                pointer_x - area_left
            } else {
                0int
            };
            let old_off = rel * self.visible_frames / area_width;
            let new_off = rel * nv / area_width;
            let frame_under = self.scroll_offset + old_off;
            let unclamped = if frame_under > new_off {
                frame_under - new_off
            } else {
                0int
            };
            let maxs = if self.total_frames >= nv {
                self.total_frames - nv
            } else {
                0int
            };
            let ns = if unclamped < maxs {
                unclamped
            } else {
                maxs
            };
            Some(ViewAction::Zoom { visible_frames: nv, scroll_offset: ns as u64 })
        }
    }

    /// Handle a zoom wheel step centered on the given pointer column.
    pub fn handle_zoom(
        &self,
        pointer_x: i64,
        zoom_in: bool,
        area_left: i64,
        area_width: u64,
    ) -> (r: Option<ViewAction>)
        requires
            area_width >= 1,
            self.visible_frames <= MAX_VISIBLE_FRAMES,
        ensures
            r == self.spec_zoom_action(pointer_x as int, zoom_in, area_left as int,
                area_width as int),
            match r {
                Some(ViewAction::Zoom { visible_frames: v, scroll_offset: s }) => {
                    &&& MIN_VISIBLE_FRAMES <= v <= MAX_VISIBLE_FRAMES
                    &&& s <= (if self.total_frames >= v {
                        (self.total_frames - v) as u64
                    } else {
                        0u64
                    })
                },
                Some(_) => false,
                None => true,
            },
    {
        let raw: u64 = if zoom_in {
            self.visible_frames * 100 / ZOOM_STEP_PERCENT
        } else {
            self.visible_frames * ZOOM_STEP_PERCENT / 100
        };
        let nv: u64 = if raw < MIN_VISIBLE_FRAMES {
            MIN_VISIBLE_FRAMES
        } else if raw > MAX_VISIBLE_FRAMES {
            MAX_VISIBLE_FRAMES
        } else {
            raw
        };
        if nv == self.visible_frames {
            return None;
        }
        let rel: u128 = if pointer_x > area_left {
            (pointer_x as i128 - area_left as i128) as u128
        } else {
            0
        };
        proof {
            assert(rel * (self.visible_frames as u128) <= 0xFFFF_FFFF_FFFF_FFFFint * 10000
                && rel * (nv as u128) <= 0xFFFF_FFFF_FFFF_FFFFint * 10000) by (nonlinear_arith)
                requires
                    rel <= 0xFFFF_FFFF_FFFF_FFFFu128,
                    self.visible_frames <= 10000u64,
                    nv <= 10000u64,
            ;
        }
        let old_off: u128 = rel * (self.visible_frames as u128) / (area_width as u128);
        let new_off: u128 = rel * (nv as u128) / (area_width as u128);
        proof {
            vstd::arithmetic::div_mod::lemma_div_nonincreasing(
                (rel * (self.visible_frames as u128)) as int,
                area_width as int,
            );
        }
        let frame_under: u128 = (self.scroll_offset as u128) + old_off;
        let unclamped: u128 = if frame_under > new_off {
            frame_under - new_off
        } else {
            0
        };
        let maxs: u64 = if self.total_frames >= nv {
            self.total_frames - nv
        } else {
            0
        };
        let ns: u64 = if unclamped < (maxs as u128) {
            unclamped as u64
        } else {
            maxs
        };
        Some(ViewAction::Zoom { visible_frames: nv, scroll_offset: ns })
    }

    /// Outcome of a plain wheel scroll by the given number of frames: the
    /// offset moves by the delta, clamped into range, with no action when the
    /// clamped result equals the current offset.
    pub open spec fn spec_scroll_action(&self, delta: int) -> Option<ViewAction> {
        let maxs = self.spec_max_scroll();
        let t0 = self.scroll_offset + delta;
        let target = if t0 < 0 {
            0int
        } else if t0 > maxs {
            maxs as int
        } else {
            t0
        };
        if target == self.scroll_offset {
            None
        } else {
            Some(ViewAction::Scroll { scroll_offset: target as u64 })
        }
    }

    /// Handle a plain wheel scroll by a signed number of frames.
    pub fn handle_scroll(&self, delta: i64) -> (r: Option<ViewAction>)
        ensures
            r == self.spec_scroll_action(delta as int),
            match r {
                Some(ViewAction::Scroll { scroll_offset }) => scroll_offset
                    <= self.spec_max_scroll(),
                Some(_) => false,
                None => true,
            },
    {
        let maxs: u64 = self.max_scroll();
        let t0: i128 = (self.scroll_offset as i128) + (delta as i128);
        let target: u64 = if t0 < 0 {
            0
        } else if t0 > (maxs as i128) {
            maxs
        } else {
            t0 as u64
        };
        if target == self.scroll_offset {
            None
        } else {
            Some(ViewAction::Scroll { scroll_offset: target })
        }
    }

    /// Outcome of a pan drag by the given pixel delta: the delta converts to
    /// whole frames at the current zoom level and moves the offset against
    /// the drag direction, clamped into range.
    pub open spec fn spec_pan_action(&self, drag_delta_x: int, area_width: int) -> Option<
        ViewAction,
    >
        recommends
            area_width >= 1,
    {
        if drag_delta_x == 0 {
            None
        } else {
            let mag = if drag_delta_x >= 0 {
                drag_delta_x
            } else {
                -drag_delta_x
            };
            let shift = mag * self.visible_frames / area_width;
            let maxs = self.spec_max_scroll();
            let t0 = if drag_delta_x >= 0 {
                self.scroll_offset - shift
            } else {
                self.scroll_offset + shift
            };
            let target = if t0 < 0 {
                0int
            } else if t0 > maxs {
                maxs as int
            } else {
                t0
            };
            if target == self.scroll_offset {
                None
            } else {
                Some(ViewAction::Scroll { scroll_offset: target as u64 })
            }
        }
    }

    /// Handle a pan drag on the timeline area by a signed pixel delta
    /// (positive deltas drag the content right, so the offset decreases).
    pub fn handle_timeline_pan(&self, drag_delta_x: i64, area_width: u64) -> (r: Option<
        ViewAction,
    >)
        requires
            area_width >= 1,
        ensures
            r == self.spec_pan_action(drag_delta_x as int, area_width as int),
            match r {
                Some(ViewAction::Scroll { scroll_offset }) => scroll_offset
                    <= self.spec_max_scroll(),
                Some(_) => false,
                None => true,
            },
    {
        if drag_delta_x == 0 {
            return None;
        }
        let mag: u128 = if drag_delta_x >= 0 {
            drag_delta_x as u128
        } else {
            (-(drag_delta_x as i128)) as u128
        };
        proof {
            assert(mag * (self.visible_frames as u128)
                <= 0xFFFF_FFFF_FFFF_FFFFint * 0xFFFF_FFFF_FFFF_FFFF) by (nonlinear_arith)
                requires
                    mag <= 0xFFFF_FFFF_FFFF_FFFFu128,
                    self.visible_frames <= 0xFFFF_FFFF_FFFF_FFFFu64,
            ;
        }
        let shift: u128 = mag * (self.visible_frames as u128) / (area_width as u128);
        let maxs: u64 = self.max_scroll();
        // The clamped target only depends on whether `scroll_offset +- shift`
        // leaves `[0, maxs]`, so oversized shifts can be resolved up front.
        let target: u64 = if drag_delta_x >= 0 {
            if shift >= (self.scroll_offset as u128) {
                0
            } else {
                let t0: u64 = self.scroll_offset - (shift as u64);
                if t0 > maxs {
                    maxs
                } else {
                    t0
                }
            }
        } else {
            if shift > (maxs as u128) {
                maxs
            } else {
                let t0: u128 = (self.scroll_offset as u128) + shift;
                if t0 > (maxs as u128) {
                    maxs
                } else {
                    t0 as u64
                }
            }
        };
        if target == self.scroll_offset {
            None
        } else {
            Some(ViewAction::Scroll { scroll_offset: target })
        }
    }
}

/// Phase of a selection drag gesture.
#[derive(Debug, Clone, Copy, PartialEq, Eq, Structural)]
pub enum DragPhase {
    /// The drag began this tick.
    Started,
    /// The pointer moved (or stayed) with the button still down.
    Moved,
    /// The button was released this tick.
    Released,
}

impl TimelineConfig {
    /// Outcome of a selection drag: the frame under the pointer starts or
    /// extends the selection, and a release freezes it.
    pub open spec fn spec_selection_action(
        &self,
        phase: DragPhase,
        pointer_x: int,
        area_left: int,
        area_width: int,
    ) -> Option<ViewAction>
        recommends
            area_width >= 1,
    {
        match phase {
            DragPhase::Started => Some(ViewAction::StartSelection {
                frame: self.spec_x_to_frame(pointer_x, area_left, area_width) as u64,
            }),
            DragPhase::Moved => Some(ViewAction::UpdateSelection {
                frame: self.spec_x_to_frame(pointer_x, area_left, area_width) as u64,
            }),
            DragPhase::Released => Some(ViewAction::FinishSelection),
        }
    }

    /// Handle one tick of a selection drag over the timeline area.
    pub fn handle_selection_drag(
        &self,
        phase: DragPhase,
        pointer_x: i64,
        area_left: i64,
        area_width: u64,
    ) -> (r: Option<ViewAction>)
        requires
            area_width >= 1,
        ensures
            r == self.spec_selection_action(phase, pointer_x as int, area_left as int,
                area_width as int),
    {
        match phase {
            DragPhase::Started => Some(ViewAction::StartSelection {
                frame: self.x_to_frame(pointer_x, area_left, area_width),
            }),
            DragPhase::Moved => Some(ViewAction::UpdateSelection {
                frame: self.x_to_frame(pointer_x, area_left, area_width),
            }),
            DragPhase::Released => Some(ViewAction::FinishSelection),
        }
    }
}

impl Default for TimelineConfig {
    /// Defaults: no scroll, the default zoom level, frame 0 of an empty log.
    fn default() -> (r: Self)
        ensures
            r == (TimelineConfig {
                scroll_offset: 0,
                visible_frames: DEFAULT_VISIBLE_FRAMES,
                current_frame: 0,
                total_frames: 0,
            }),
            r.wf(),
    {
        TimelineConfig {
            scroll_offset: 0,
            visible_frames: DEFAULT_VISIBLE_FRAMES,
            current_frame: 0,
            total_frames: 0,
        }
    }
}

/// A pointer position in pixels.
#[derive(Debug, Clone, Copy, PartialEq, Eq, Structural)]
pub struct Pos {
    pub x: i64,
    pub y: i64,
}

/// An axis-aligned pixel rectangle; all four edges are inclusive.
#[derive(Debug, Clone, Copy, PartialEq, Eq, Structural)]
pub struct Rect {
    pub left: i64,
    pub top: i64,
    pub right: i64,
    pub bottom: i64,
}

impl Rect {
    /// Whether the position lies inside the rectangle (edges included).
    pub open spec fn spec_contains(&self, p: Pos) -> bool {
        self.left <= p.x <= self.right && self.top <= p.y <= self.bottom
    }

    /// Executable containment test.
    pub fn contains(&self, p: Pos) -> (r: bool)
        ensures
            r == self.spec_contains(p),
    {
        self.left <= p.x && p.x <= self.right && self.top <= p.y && p.y <= self.bottom
    }

    /// Width of the rectangle, zero for a degenerate one.
    pub open spec fn spec_width(&self) -> int {
        if self.right >= self.left {
            self.right - self.left
        } else {
            0int
        }
    }

    /// Executable width.
    pub fn width(&self) -> (r: u64)
        ensures
            r == self.spec_width(),
    {
        if self.right >= self.left {
            ((self.right as i128) - (self.left as i128)) as u64
        } else {
            0
        }
    }
}

/// One tick's worth of pointer state, as plain values.
#[derive(Debug, Clone, Copy)]
pub struct PointerInput {
    /// A drag is in progress this tick.
    pub dragging: bool,
    /// The drag began this tick.
    pub drag_started: bool,
    /// The drag ended this tick.
    pub drag_stopped: bool,
    /// Pointer position while interacting (pressing or dragging), if any.
    pub interact_pos: Option<Pos>,
    /// Horizontal pixel movement of the pointer since the last tick.
    pub drag_delta_x: i64,
    /// Current hover position of the pointer, if any.
    pub hover_pos: Option<Pos>,
    /// Raw horizontal wheel delta, in pixels.
    pub wheel_delta_x: i64,
    /// Raw vertical wheel delta, in pixels.
    pub wheel_delta_y: i64,
    /// The zoom modifier key (control) is held.
    pub zoom_modifier: bool,
    /// The selection modifier key (shift) is held.
    pub select_modifier: bool,
}

impl TimelineConfig {
    /// The gesture resolution order, first match wins: scrollbar drag, then
    /// selection drag (selection modifier held), then pan drag, then zoom
    /// wheel (zoom modifier held), then plain wheel scroll.  Degenerate
    /// geometry (zero-width areas) yields no action.
    pub open spec fn spec_resolve(
        &self,
        input: PointerInput,
        timeline_rect: Rect,
        scrollbar_rect: Rect,
    ) -> Option<ViewAction> {
        let scrollbar_drag = match input.interact_pos {
            Some(p) => if input.dragging && scrollbar_rect.spec_contains(p) {
                self.spec_scrollbar_action(p.x as int, scrollbar_rect.left as int,
                    scrollbar_rect.spec_width() as u64)
            } else {
                None
            },
            None => None,
        };
        if scrollbar_drag is Some {
            scrollbar_drag
        } else {
            let timeline_drag = match input.interact_pos {
                Some(p) => if timeline_rect.spec_contains(p) && timeline_rect.spec_width() >= 1 {
                    if input.select_modifier {
                        if input.drag_started {
                            self.spec_selection_action(DragPhase::Started, p.x as int,
                                timeline_rect.left as int, timeline_rect.spec_width())
                        } else if input.dragging {
                            self.spec_selection_action(DragPhase::Moved, p.x as int,
                                timeline_rect.left as int, timeline_rect.spec_width())
                        } else if input.drag_stopped {
                            self.spec_selection_action(DragPhase::Released, p.x as int,
                                timeline_rect.left as int, timeline_rect.spec_width())
                        } else {
                            None
                        }
                    } else if input.dragging {
                        self.spec_pan_action(input.drag_delta_x as int,
                            timeline_rect.spec_width())
                    } else {
                        None
                    }
                } else {
                    None
                },
                None => None,
            };
            if timeline_drag is Some {
                timeline_drag
            } else {
                match input.hover_pos {
                    Some(h) => {
                        let over_timeline = timeline_rect.spec_contains(h);
                        let over_scrollbar = scrollbar_rect.spec_contains(h);
                        if !over_timeline && !over_scrollbar {
                            None
                        } else if input.zoom_modifier && input.wheel_delta_y != 0 {
                            if timeline_rect.spec_width() >= 1 {
                                self.spec_zoom_action(h.x as int, input.wheel_delta_y > 0,
                                    timeline_rect.left as int, timeline_rect.spec_width())
                            } else {
                                None
                            }
                        } else {
                            let delta = if input.select_modifier || input.wheel_delta_x != 0 {
                                -input.wheel_delta_x - input.wheel_delta_y
                            } else {
                                0int - input.wheel_delta_y
                            };
                            if delta != 0 {
                                self.spec_scroll_action(delta)
                            } else {
                                None
                            }
                        }
                    },
                    None => None,
                }
            }
        }
    }

    /// Resolve this tick's pointer input against the viewport geometry into
    /// at most one view action.
    pub fn handle_mouse_interaction(
        &self,
        input: &PointerInput,
        timeline_rect: &Rect,
        scrollbar_rect: &Rect,
    ) -> (r: Option<ViewAction>)
        requires
            self.visible_frames <= MAX_VISIBLE_FRAMES,
            -0x7FFF_FFFF <= input.wheel_delta_x <= 0x7FFF_FFFF,
            -0x7FFF_FFFF <= input.wheel_delta_y <= 0x7FFF_FFFF,
        ensures
            r == self.spec_resolve(*input, *timeline_rect, *scrollbar_rect),
            match r {
                Some(ViewAction::Zoom { visible_frames: v, scroll_offset: s }) => {
                    &&& MIN_VISIBLE_FRAMES <= v <= MAX_VISIBLE_FRAMES
                    &&& s <= (if self.total_frames >= v {
                        (self.total_frames - v) as u64
                    } else {
                        0u64
                    })
                },
                Some(ViewAction::Scroll { scroll_offset }) => scroll_offset
                    <= self.spec_max_scroll(),
                _ => true,
            },
    {
        // Scrollbar drag has the highest priority.
        if input.dragging {
            if let Some(p) = input.interact_pos {
                if scrollbar_rect.contains(p) {
                    let action = self.handle_scrollbar_drag(p.x, scrollbar_rect.left,
                        scrollbar_rect.width());
                    if action.is_some() {
                        return action;
                    }
                }
            }
        }
        // Selection drag or pan drag over the timeline area.
        if let Some(p) = input.interact_pos {
            let tw = timeline_rect.width();
            if timeline_rect.contains(p) && tw >= 1 {
                let action: Option<ViewAction> = if input.select_modifier {
                    if input.drag_started {
                        self.handle_selection_drag(DragPhase::Started, p.x, timeline_rect.left,
                            tw)
                    } else if input.dragging {
                        self.handle_selection_drag(DragPhase::Moved, p.x, timeline_rect.left, tw)
                    } else if input.drag_stopped {
                        self.handle_selection_drag(DragPhase::Released, p.x, timeline_rect.left,
                            tw)
                    } else {
                        None
                    }
                } else if input.dragging {
                    self.handle_timeline_pan(input.drag_delta_x, tw)
                } else {
                    None
                };
                if action.is_some() {
                    return action;
                }
            }
        }
        // Wheel gestures require the pointer over the timeline or scrollbar.
        let h = match input.hover_pos {
            Some(h) => h,
            None => {
                return None;
            },
        };
        let over_timeline = timeline_rect.contains(h);
        let over_scrollbar = scrollbar_rect.contains(h);
        if !over_timeline && !over_scrollbar {
            return None;
        }
        if input.zoom_modifier && input.wheel_delta_y != 0 {
            let tw = timeline_rect.width();
            if tw >= 1 {
                return self.handle_zoom(h.x, input.wheel_delta_y > 0, timeline_rect.left, tw);
            } else {
                return None;
            }
        }
        let delta: i64 = if input.select_modifier || input.wheel_delta_x != 0 {
            -input.wheel_delta_x - input.wheel_delta_y
        } else {
            -input.wheel_delta_y
        };
        if delta != 0 {
            self.handle_scroll(delta)
        } else {
            None
        }
    }
}

/// Total pixel height of the timeline widget for the given number of visible
/// input rows (at least one row of space is always reserved).
pub fn calculate_height(num_rows: usize) -> (r: u64)
    requires
        num_rows <= 0x0100_0000,
    ensures
        r == HEADER_HEIGHT + (if num_rows >= 1 {
            num_rows as int
        } else {
            1int
        }) * ROW_HEIGHT + SCROLLBAR_HEIGHT + LEGEND_HEIGHT,
{
    let rows: u64 = if num_rows >= 1 {
        num_rows as u64
    } else {
        1
    };
    HEADER_HEIGHT + rows * ROW_HEIGHT + SCROLLBAR_HEIGHT + LEGEND_HEIGHT
}

/// Zoom anchor law: when the recomputed scroll offset is clamped at neither
/// end and the pointer maps to a frame inside the log, the frame under the
/// pointer is exactly the same before and after applying the zoom action.
/// (When the new offset has to be clamped at a boundary, the anchor is
/// deliberately given up in favour of keeping the view inside the log.)
pub proof fn lemma_zoom_anchor(
    c: TimelineConfig,
    pointer_x: int,
    zoom_in: bool,
    area_left: int,
    area_width: int,
)
    requires
        area_width >= 1,
        TimelineConfig::spec_zoomed_visible(c.visible_frames, zoom_in) != c.visible_frames,
        ({
            let nv = TimelineConfig::spec_zoomed_visible(c.visible_frames, zoom_in);
            let rel = if pointer_x > area_left {
                pointer_x - area_left
            } else {
                0int
            };
            let old_off = rel * c.visible_frames / area_width;
            let new_off = rel * nv / area_width;
            let frame_under = c.scroll_offset + old_off;
            &&& frame_under >= new_off
            &&& frame_under - new_off <= (if c.total_frames >= nv {
                c.total_frames - nv
            } else {
                0int
            })
            &&& c.total_frames > 0
            &&& frame_under <= c.total_frames - 1
        }),
    ensures
        ({
            let r = c.spec_zoom_action(pointer_x, zoom_in, area_left, area_width);
            match r {
                Some(ViewAction::Zoom { visible_frames: nv, scroll_offset: ns }) => {
                    let after = (TimelineConfig {
                        visible_frames: nv,
                        scroll_offset: ns,
                        ..c
                    });
                    after.spec_x_to_frame(pointer_x, area_left, area_width) == c.spec_x_to_frame(
                        pointer_x,
                        area_left,
                        area_width,
                    )
                },
                _ => false,
            }
        }),
{
    let nv = TimelineConfig::spec_zoomed_visible(c.visible_frames, zoom_in);
    let rel = if pointer_x > area_left {
        pointer_x - area_left
    } else {
        0int
    };
    let old_off = rel * c.visible_frames / area_width;
    let new_off = rel * nv / area_width;
    let frame_under = c.scroll_offset + old_off;
    let ns = frame_under - new_off;
    let r = c.spec_zoom_action(pointer_x, zoom_in, area_left, area_width);
    assert(r == Some(ViewAction::Zoom { visible_frames: nv, scroll_offset: ns as u64 }));
    let after = (TimelineConfig { visible_frames: nv, scroll_offset: ns as u64, ..c });
    assert(after.spec_x_to_frame(pointer_x, area_left, area_width) == frame_under);
    assert(c.spec_x_to_frame(pointer_x, area_left, area_width) == frame_under);
}

/// Pixel round trip law: converting a pixel inside the rendering area to the
/// frame under it and back recovers a pixel at most one frame width (plus one
/// pixel of rounding) to the left of the original, and never to its right.
/// Stated multiplicatively: `(x - y) * visible_frames < area_width +
/// visible_frames`, where `area_width / visible_frames` is the frame width.
pub proof fn lemma_pixel_frame_round_trip(
    c: TimelineConfig,
    x: int,
    area_left: int,
    area_width: int,
)
    requires
        c.visible_frames >= 1,
        area_width >= 1,
        area_left <= x,
        c.total_frames > 0,
        c.scroll_offset + (x - area_left) * c.visible_frames / area_width <= c.total_frames - 1,
    ensures
        ({
            let f = c.spec_x_to_frame(x, area_left, area_width);
            let y = c.spec_frame_to_x(f as u64, area_left, area_width);
            &&& y <= x
            &&& (x - y) * c.visible_frames < area_width + c.visible_frames
        }),
{
    let rel = x - area_left;
    let v = c.visible_frames as int;
    let w = area_width;
    let off = rel * v / w;
    let f = c.spec_x_to_frame(x, area_left, area_width);
    assert(f == c.scroll_offset + off);
    vstd::arithmetic::div_mod::lemma_fundamental_div_mod(rel * v, w);
    vstd::arithmetic::div_mod::lemma_mod_bound(rel * v, w);
    assert(off * w <= rel * v < off * w + w);
    let q = off * w / v;
    vstd::arithmetic::div_mod::lemma_fundamental_div_mod(off * w, v);
    vstd::arithmetic::div_mod::lemma_mod_bound(off * w, v);
    assert(q * v <= off * w < q * v + v);
    let y = c.spec_frame_to_x(f as u64, area_left, area_width);
    assert(f as u64 >= c.scroll_offset);
    assert(y == area_left + q);
    assert(q <= rel) by (nonlinear_arith)
        requires
            q * v <= rel * v,
            v >= 1,
    ;
    assert((rel - q) * v == rel * v - q * v) by (nonlinear_arith);
    assert(rel * v - q * v < w + v);
}

} // verus!
