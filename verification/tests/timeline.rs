//! Tests for the viewport: coordinate mapping, zoom, scroll, pan, scrollbar
//! drag and the gesture resolver.

use input_log_viewer::selection::{apply_view_action, SelectionState};
use input_log_viewer::timeline::{
    calculate_height, DragPhase, PointerInput, Pos, Rect, TimelineConfig, ViewAction,
    DEFAULT_VISIBLE_FRAMES, MAX_VISIBLE_FRAMES, MIN_VISIBLE_FRAMES,
};

fn config(scroll: u64, visible: u64, total: u64) -> TimelineConfig {
    TimelineConfig { scroll_offset: scroll, visible_frames: visible, current_frame: 0, total_frames: total }
}

fn no_pointer() -> PointerInput {
    PointerInput {
        dragging: false,
        drag_started: false,
        drag_stopped: false,
        interact_pos: None,
        drag_delta_x: 0,
        hover_pos: None,
        wheel_delta_x: 0,
        wheel_delta_y: 0,
        zoom_modifier: false,
        select_modifier: false,
    }
}

#[test]
fn test_default_config() {
    let c = TimelineConfig::default();
    assert_eq!(c.scroll_offset, 0);
    assert_eq!(c.visible_frames, DEFAULT_VISIBLE_FRAMES);
    assert_eq!(c.current_frame, 0);
    assert_eq!(c.total_frames, 0);
}

#[test]
fn test_zoom_percentage() {
    assert_eq!(config(0, 100, 100).zoom_percentage(), 100);
    assert_eq!(config(0, 50, 100).zoom_percentage(), 200);
    assert_eq!(config(0, 10000, 100).zoom_percentage(), 1);
}

#[test]
fn test_calculate_frame_interval_ladder() {
    assert_eq!(config(0, 20, 100).calculate_frame_interval(), 1);
    assert_eq!(config(0, 50, 100).calculate_frame_interval(), 5);
    assert_eq!(config(0, 100, 100).calculate_frame_interval(), 10);
    assert_eq!(config(0, 500, 1000).calculate_frame_interval(), 50);
    assert_eq!(config(0, 2000, 10000).calculate_frame_interval(), 100);
    assert_eq!(config(0, 5000, 10000).calculate_frame_interval(), 500);
    assert_eq!(config(0, 10000, 10000).calculate_frame_interval(), 1000);
}

#[test]
fn test_max_scroll() {
    assert_eq!(config(0, 100, 1000).max_scroll(), 900);
    assert_eq!(config(0, 100, 50).max_scroll(), 0);
    assert_eq!(config(0, 100, 100).max_scroll(), 0);
}

#[test]
fn test_x_to_frame_basic() {
    let c = config(0, 100, 1000);
    // 1000 px wide, 100 visible frames: 10 px per frame.
    assert_eq!(c.x_to_frame(0, 0, 1000), 0);
    assert_eq!(c.x_to_frame(10, 0, 1000), 1);
    assert_eq!(c.x_to_frame(505, 0, 1000), 50);
    // Left of the area clamps to the first visible frame.
    assert_eq!(c.x_to_frame(-50, 0, 1000), 0);
}

#[test]
fn test_x_to_frame_clamps_to_log() {
    let c = config(0, 100, 20);
    // Pixels past the end of the log clamp to the last frame.
    assert_eq!(c.x_to_frame(990, 0, 1000), 19);
    // An empty log clamps to frame 0.
    let empty = config(0, 100, 0);
    assert_eq!(empty.x_to_frame(500, 0, 1000), 0);
}

#[test]
fn test_frame_to_x_basic() {
    let c = config(20, 100, 1000);
    assert_eq!(c.frame_to_x(20, 0, 1000), 0);
    assert_eq!(c.frame_to_x(30, 0, 1000), 100);
    // Off-screen frames to the left map below the area's left edge.
    assert!(c.frame_to_x(10, 0, 1000) < 0);
}

#[test]
fn test_pixel_frame_round_trip_within_frame_width() {
    // Lossy round trip: the recovered pixel is never right of the original
    // and lies within one frame width (plus rounding).
    let c = config(0, 100, 1000);
    let width: u64 = 997;
    for x in [0i64, 1, 13, 500, 503, 996] {
        let f = c.x_to_frame(x, 0, width);
        let y = c.frame_to_x(f, 0, width);
        assert!(y <= x);
        assert!((x - y) as u64 * c.visible_frames < width + c.visible_frames);
    }
}

#[test]
fn test_handle_zoom_out_grows_visible() {
    let c = config(0, 100, 10000);
    let action = c.handle_zoom(0, false, 0, 1000);
    assert_eq!(action, Some(ViewAction::Zoom { visible_frames: 115, scroll_offset: 0 }));
}

#[test]
fn test_handle_zoom_in_shrinks_visible() {
    let c = config(0, 100, 10000);
    let action = c.handle_zoom(0, true, 0, 1000);
    assert_eq!(action, Some(ViewAction::Zoom { visible_frames: 86, scroll_offset: 0 }));
}

#[test]
fn test_handle_zoom_clamps_at_bounds() {
    // Already at maximum zoom in: no action.
    let c = config(0, MIN_VISIBLE_FRAMES, 10000);
    assert_eq!(c.handle_zoom(0, true, 0, 1000), None);
    // Already at maximum zoom out: no action.
    let c2 = config(0, MAX_VISIBLE_FRAMES, 100000);
    assert_eq!(c2.handle_zoom(0, false, 0, 1000), None);
}

#[test]
fn test_zoom_anchor_scenario() {
    // A 100-frame log fully visible; zooming in around the pixel over frame
    // 50 keeps frame 50 under that pixel while the zoom roughly halves.
    let mut c = config(0, 100, 100);
    let mut selection = SelectionState::new();
    let area_left = 0i64;
    let width = 1000u64;
    let pointer_x = c.frame_to_x(50, area_left, width);
    assert_eq!(c.x_to_frame(pointer_x, area_left, width), 50);
    while c.visible_frames > 50 {
        let action = c
            .handle_zoom(pointer_x, true, area_left, width)
            .expect("zoom should step while above the minimum");
        apply_view_action(&mut c, &mut selection, &action);
        let under = c.x_to_frame(pointer_x, area_left, width);
        assert!(under >= 49 && under <= 51, "anchor drifted to {}", under);
    }
    assert!(c.visible_frames >= 40 && c.visible_frames <= 60);
    assert_eq!(c.x_to_frame(pointer_x, area_left, width), 50);
}

#[test]
fn test_handle_scroll_clamps() {
    let c = config(0, 100, 1000);
    assert_eq!(c.handle_scroll(10), Some(ViewAction::Scroll { scroll_offset: 10 }));
    assert_eq!(c.handle_scroll(-10), None);
    assert_eq!(c.handle_scroll(0), None);
    assert_eq!(c.handle_scroll(100000), Some(ViewAction::Scroll { scroll_offset: 900 }));
    let c2 = config(900, 100, 1000);
    assert_eq!(c2.handle_scroll(5), None);
    assert_eq!(c2.handle_scroll(-5), Some(ViewAction::Scroll { scroll_offset: 895 }));
}

#[test]
fn test_handle_timeline_pan() {
    let c = config(100, 100, 1000);
    // 1000 px wide, 100 frames visible: 10 px per frame.  Dragging right by
    // 50 px moves the content right, so the offset decreases by 5 frames.
    assert_eq!(c.handle_timeline_pan(50, 1000), Some(ViewAction::Scroll { scroll_offset: 95 }));
    assert_eq!(c.handle_timeline_pan(-50, 1000), Some(ViewAction::Scroll { scroll_offset: 105 }));
    // Less than one frame of movement: no action.
    assert_eq!(c.handle_timeline_pan(5, 1000), None);
    assert_eq!(c.handle_timeline_pan(0, 1000), None);
}

#[test]
fn test_scrollbar_thumb_width() {
    // Proportional share of the track, at least 20 px, at most the track.
    assert_eq!(config(0, 100, 1000).calculate_scrollbar_thumb_width(400), 40);
    assert_eq!(config(0, 10, 10000).calculate_scrollbar_thumb_width(400), 20);
    assert_eq!(config(0, 100, 100).calculate_scrollbar_thumb_width(400), 400);
    // An empty log fills the whole track.
    assert_eq!(config(0, 100, 0).calculate_scrollbar_thumb_width(400), 400);
}

#[test]
fn test_handle_scrollbar_drag_maps_proportionally() {
    let c = config(0, 100, 1000);
    // Track 400 px: thumb 40 px, usable 360 px, max scroll 900.
    // Pointer at 220 px: relative position (220 - 20) / 360 of the range.
    assert_eq!(
        c.handle_scrollbar_drag(220, 0, 400),
        Some(ViewAction::Scroll { scroll_offset: 500 })
    );
    // Far left and far right clamp to the ends.
    assert_eq!(c.handle_scrollbar_drag(-100, 0, 400), Some(ViewAction::Scroll { scroll_offset: 0 }));
    assert_eq!(
        c.handle_scrollbar_drag(1000, 0, 400),
        Some(ViewAction::Scroll { scroll_offset: 900 })
    );
    // When the thumb fills the track there is nothing to drag.
    let full = config(0, 100, 100);
    assert_eq!(full.handle_scrollbar_drag(220, 0, 400), None);
}

#[test]
fn test_handle_selection_drag_phases() {
    let c = config(0, 100, 1000);
    assert_eq!(
        c.handle_selection_drag(DragPhase::Started, 50, 0, 1000),
        Some(ViewAction::StartSelection { frame: 5 })
    );
    assert_eq!(
        c.handle_selection_drag(DragPhase::Moved, 20, 0, 1000),
        Some(ViewAction::UpdateSelection { frame: 2 })
    );
    assert_eq!(
        c.handle_selection_drag(DragPhase::Released, 20, 0, 1000),
        Some(ViewAction::FinishSelection)
    );
}

#[test]
fn test_resolver_priority_scrollbar_first() {
    let c = config(0, 100, 1000);
    let timeline_rect = Rect { left: 0, top: 0, right: 1000, bottom: 300 };
    let scrollbar_rect = Rect { left: 0, top: 300, right: 400, bottom: 316 };
    let mut input = no_pointer();
    input.dragging = true;
    input.interact_pos = Some(Pos { x: 220, y: 308 });
    let action = c.handle_mouse_interaction(&input, &timeline_rect, &scrollbar_rect);
    assert_eq!(action, Some(ViewAction::Scroll { scroll_offset: 500 }));
}

#[test]
fn test_resolver_selection_drag_with_modifier() {
    let c = config(0, 100, 1000);
    let timeline_rect = Rect { left: 0, top: 0, right: 1000, bottom: 300 };
    let scrollbar_rect = Rect { left: 0, top: 300, right: 400, bottom: 316 };
    let mut input = no_pointer();
    input.dragging = true;
    input.drag_started = true;
    input.select_modifier = true;
    input.interact_pos = Some(Pos { x: 55, y: 100 });
    let action = c.handle_mouse_interaction(&input, &timeline_rect, &scrollbar_rect);
    assert_eq!(action, Some(ViewAction::StartSelection { frame: 5 }));
}

#[test]
fn test_resolver_pan_without_modifier() {
    let c = config(100, 100, 1000);
    let timeline_rect = Rect { left: 0, top: 0, right: 1000, bottom: 300 };
    let scrollbar_rect = Rect { left: 0, top: 300, right: 400, bottom: 316 };
    let mut input = no_pointer();
    input.dragging = true;
    input.drag_delta_x = 50;
    input.interact_pos = Some(Pos { x: 500, y: 100 });
    let action = c.handle_mouse_interaction(&input, &timeline_rect, &scrollbar_rect);
    assert_eq!(action, Some(ViewAction::Scroll { scroll_offset: 95 }));
}

#[test]
fn test_resolver_zoom_wheel_with_modifier() {
    let c = config(0, 100, 10000);
    let timeline_rect = Rect { left: 0, top: 0, right: 1000, bottom: 300 };
    let scrollbar_rect = Rect { left: 0, top: 300, right: 400, bottom: 316 };
    let mut input = no_pointer();
    input.zoom_modifier = true;
    input.wheel_delta_y = 5;
    input.hover_pos = Some(Pos { x: 0, y: 100 });
    let action = c.handle_mouse_interaction(&input, &timeline_rect, &scrollbar_rect);
    assert_eq!(action, Some(ViewAction::Zoom { visible_frames: 86, scroll_offset: 0 }));
}

#[test]
fn test_resolver_plain_wheel_scrolls() {
    let c = config(0, 100, 1000);
    let timeline_rect = Rect { left: 0, top: 0, right: 1000, bottom: 300 };
    let scrollbar_rect = Rect { left: 0, top: 300, right: 400, bottom: 316 };
    let mut input = no_pointer();
    input.wheel_delta_y = -30;
    input.hover_pos = Some(Pos { x: 500, y: 100 });
    let action = c.handle_mouse_interaction(&input, &timeline_rect, &scrollbar_rect);
    assert_eq!(action, Some(ViewAction::Scroll { scroll_offset: 30 }));
}

#[test]
fn test_resolver_ignores_pointer_outside() {
    let c = config(0, 100, 1000);
    let timeline_rect = Rect { left: 0, top: 0, right: 1000, bottom: 300 };
    let scrollbar_rect = Rect { left: 0, top: 300, right: 400, bottom: 316 };
    let mut input = no_pointer();
    input.wheel_delta_y = -30;
    input.hover_pos = Some(Pos { x: 500, y: 500 });
    assert_eq!(c.handle_mouse_interaction(&input, &timeline_rect, &scrollbar_rect), None);
    assert_eq!(c.handle_mouse_interaction(&no_pointer(), &timeline_rect, &scrollbar_rect), None);
}

#[test]
fn test_resolver_degenerate_area_yields_no_action() {
    let c = config(0, 100, 1000);
    let timeline_rect = Rect { left: 0, top: 0, right: 0, bottom: 300 };
    let scrollbar_rect = Rect { left: 0, top: 300, right: 0, bottom: 316 };
    let mut input = no_pointer();
    input.zoom_modifier = true;
    input.wheel_delta_y = 5;
    input.hover_pos = Some(Pos { x: 0, y: 100 });
    assert_eq!(c.handle_mouse_interaction(&input, &timeline_rect, &scrollbar_rect), None);
}

#[test]
fn test_apply_view_action_keeps_viewport_well_formed() {
    let mut c = config(0, 100, 1000);
    let mut sel = SelectionState::new();

    // An oversized zoom target is re-clamped defensively.
    apply_view_action(&mut c, &mut sel, &ViewAction::Zoom { visible_frames: 5, scroll_offset: 99999 });
    assert_eq!(c.visible_frames, MIN_VISIBLE_FRAMES);
    assert_eq!(c.scroll_offset, 1000 - MIN_VISIBLE_FRAMES);

    apply_view_action(&mut c, &mut sel, &ViewAction::Zoom { visible_frames: 20000, scroll_offset: 0 });
    assert_eq!(c.visible_frames, MAX_VISIBLE_FRAMES);
    assert_eq!(c.scroll_offset, 0);

    // An oversized scroll target is clamped to the scroll range.
    apply_view_action(&mut c, &mut sel, &ViewAction::Zoom { visible_frames: 100, scroll_offset: 0 });
    apply_view_action(&mut c, &mut sel, &ViewAction::Scroll { scroll_offset: 12345 });
    assert_eq!(c.scroll_offset, 900);
}

#[test]
fn test_calculate_height_reserves_one_row() {
    assert_eq!(calculate_height(3), 20 + 3 * 32 + 16 + 30);
    assert_eq!(calculate_height(0), 20 + 32 + 16 + 30);
}
