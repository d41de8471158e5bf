//! Tests for the playback clock: frame stepping, looping, ranges, speed
//! clamping and advance timing.  Speeds are in hundredths of real time and
//! the clock is supplied in nanoseconds.

use input_log_viewer::playback::{PlaybackState, DEFAULT_SPEED, MAX_SPEED, MIN_SPEED};

#[test]
fn test_new_default_values() {
    let state = PlaybackState::new(0);
    assert_eq!(state.current_frame, 0);
    assert_eq!(state.speed, 100);
    assert!(state.loop_enabled);
    assert!(state.range_start.is_none());
    assert!(state.range_end.is_none());
}

#[test]
fn test_set_frame_clamps_to_valid_range() {
    let mut state = PlaybackState::new(0);

    state.set_frame(50, 100);
    assert_eq!(state.current_frame, 50);

    state.set_frame(150, 100);
    assert_eq!(state.current_frame, 99);

    state.set_frame(0, 0);
    assert_eq!(state.current_frame, 0);
}

#[test]
fn test_advance_increments_frame() {
    let mut state = PlaybackState::new(0);
    state.current_frame = 5;

    let continued = state.advance(100, 1);
    assert!(continued);
    assert_eq!(state.current_frame, 6);
}

#[test]
fn test_advance_loops_when_enabled() {
    let mut state = PlaybackState::new(0);
    state.current_frame = 99;
    state.loop_enabled = true;

    let continued = state.advance(100, 1);
    assert!(continued);
    assert_eq!(state.current_frame, 0);
}

#[test]
fn test_advance_stops_when_loop_disabled() {
    let mut state = PlaybackState::new(0);
    state.current_frame = 99;
    state.loop_enabled = false;

    let continued = state.advance(100, 1);
    assert!(!continued);
    assert_eq!(state.current_frame, 99);
}

#[test]
fn test_previous_decrements_frame() {
    let mut state = PlaybackState::new(0);
    state.current_frame = 10;

    state.previous(100);
    assert_eq!(state.current_frame, 9);
}

#[test]
fn test_previous_loops_when_enabled() {
    let mut state = PlaybackState::new(0);
    state.current_frame = 0;
    state.loop_enabled = true;

    state.previous(100);
    assert_eq!(state.current_frame, 99);
}

#[test]
fn test_previous_stays_at_start_when_loop_disabled() {
    let mut state = PlaybackState::new(0);
    state.current_frame = 0;
    state.loop_enabled = false;

    state.previous(100);
    assert_eq!(state.current_frame, 0);
}

#[test]
fn test_go_to_start_and_end() {
    let mut state = PlaybackState::new(0);
    state.current_frame = 50;

    state.go_to_start();
    assert_eq!(state.current_frame, 0);

    state.go_to_end(100);
    assert_eq!(state.current_frame, 99);
}

#[test]
fn test_range_playback() {
    let mut state = PlaybackState::new(0);
    state.set_range(Some(10), Some(20));

    assert_eq!(state.effective_start(), 10);
    assert_eq!(state.effective_end(100), 20);

    state.go_to_start();
    assert_eq!(state.current_frame, 10);

    state.go_to_end(100);
    assert_eq!(state.current_frame, 20);

    // Loop within the range: from the range end back to the range start.
    state.loop_enabled = true;
    let continued = state.advance(100, 1);
    assert!(continued);
    assert_eq!(state.current_frame, 10);
}

#[test]
fn test_set_speed_clamps_values() {
    let mut state = PlaybackState::new(0);

    state.set_speed(200);
    assert_eq!(state.speed, 200);

    state.set_speed(1);
    assert_eq!(state.speed, MIN_SPEED);

    state.set_speed(10000);
    assert_eq!(state.speed, MAX_SPEED);
}

#[test]
fn test_should_advance_invalid_inputs() {
    let state = PlaybackState::new(0);

    // Zero FPS should not advance.
    assert!(!state.should_advance(0, 1_000_000_000));
}

#[test]
fn test_should_advance_timing() {
    let mut state = PlaybackState::new(0);
    state.mark_advanced(0);

    // Should not advance immediately at 60 FPS.
    assert!(!state.should_advance(60, 0));

    // After approximately one frame at 60 FPS (~17 ms), it should be ready.
    assert!(state.should_advance(60, 20_000_000));
}

#[test]
fn test_should_advance_with_speed_multiplier() {
    let mut state = PlaybackState::new(0);
    state.speed = 200;
    state.mark_advanced(0);

    // At double speed and 60 FPS the frame duration is about 8.3 ms, so
    // 10 ms later an advance is due.
    assert!(state.should_advance(60, 10_000_000));
}

#[test]
fn test_clear_range() {
    let mut state = PlaybackState::new(0);
    state.set_range(Some(10), Some(20));

    state.clear_range();
    assert!(state.range_start.is_none());
    assert!(state.range_end.is_none());
}

#[test]
fn test_is_at_start() {
    let mut state = PlaybackState::new(0);

    state.current_frame = 0;
    assert!(state.is_at_start());

    state.current_frame = 10;
    assert!(!state.is_at_start());

    state.set_range(Some(5), None);
    state.current_frame = 5;
    assert!(state.is_at_start());

    state.current_frame = 4;
    assert!(state.is_at_start());

    state.current_frame = 6;
    assert!(!state.is_at_start());
}

#[test]
fn test_is_at_end() {
    let mut state = PlaybackState::new(0);
    let total_frames = 100;

    state.current_frame = 99;
    assert!(state.is_at_end(total_frames));

    state.current_frame = 50;
    assert!(!state.is_at_end(total_frames));

    state.current_frame = 0;
    assert!(!state.is_at_end(total_frames));

    state.set_range(None, Some(50));
    state.current_frame = 50;
    assert!(state.is_at_end(total_frames));

    state.current_frame = 51;
    assert!(state.is_at_end(total_frames));

    state.current_frame = 49;
    assert!(!state.is_at_end(total_frames));
}

#[test]
fn test_boundary_with_empty_log() {
    let state = PlaybackState::new(0);

    assert!(state.is_at_start());
    assert!(state.is_at_end(0));
}

#[test]
fn test_boundary_with_single_frame() {
    let mut state = PlaybackState::new(0);
    state.current_frame = 0;

    assert!(state.is_at_start());
    assert!(state.is_at_end(1));
}

#[test]
fn test_next_speed_preset() {
    let mut state = PlaybackState::new(0);

    state.speed = 100;
    assert_eq!(state.next_speed_preset(), 200);

    state.speed = 25;
    assert_eq!(state.next_speed_preset(), 50);

    state.speed = 50;
    assert_eq!(state.next_speed_preset(), 100);

    state.speed = 200;
    assert_eq!(state.next_speed_preset(), 400);

    state.speed = 400;
    assert_eq!(state.next_speed_preset(), 400);

    state.speed = 500;
    assert_eq!(state.next_speed_preset(), 400);

    state.speed = 75;
    assert_eq!(state.next_speed_preset(), 100);

    state.speed = 150;
    assert_eq!(state.next_speed_preset(), 200);
}

#[test]
fn test_prev_speed_preset() {
    let mut state = PlaybackState::new(0);

    state.speed = 100;
    assert_eq!(state.prev_speed_preset(), 50);

    state.speed = 400;
    assert_eq!(state.prev_speed_preset(), 200);

    state.speed = 200;
    assert_eq!(state.prev_speed_preset(), 100);

    state.speed = 50;
    assert_eq!(state.prev_speed_preset(), 25);

    state.speed = 25;
    assert_eq!(state.prev_speed_preset(), 25);

    state.speed = 10;
    assert_eq!(state.prev_speed_preset(), 25);

    state.speed = 75;
    assert_eq!(state.prev_speed_preset(), 50);

    state.speed = 150;
    assert_eq!(state.prev_speed_preset(), 100);
}

#[test]
fn test_default_speed_constant() {
    assert_eq!(DEFAULT_SPEED, 100);
    let state = PlaybackState::default();
    assert_eq!(state.speed, DEFAULT_SPEED);
}

#[test]
fn test_advance_keeps_frame_in_bounds() {
    // Whatever sequence of clock operations runs, the current frame stays
    // inside the log.
    let mut state = PlaybackState::new(0);
    let total = 5;
    for step in 0..20u64 {
        state.advance(total, step);
        assert!(state.current_frame < total);
    }
    for _ in 0..20 {
        state.previous(total);
        assert!(state.current_frame < total);
    }
}
