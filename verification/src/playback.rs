//! Playback state management for controlling frame-by-frame playback.
//!
//! The clock owns the current frame position, playback speed, loop settings
//! and the optional play range.  Timing is expressed over a caller-supplied
//! monotonic clock in nanoseconds, so that every decision is a pure function
//! of the state and the supplied instant.  Speeds are stored in hundredths of
//! real time (100 = normal speed).

use vstd::prelude::*;

verus! {

/// Default playback speed in hundredths of real time (100 = 1.0x).
pub const DEFAULT_SPEED: u32 = 100;

/// Minimum allowed playback speed in hundredths (10 = 0.1x).
pub const MIN_SPEED: u32 = 10;

/// Maximum allowed playback speed in hundredths (1000 = 10.0x).
pub const MAX_SPEED: u32 = 1000;

/// Default target FPS when metadata is not available.
pub const DEFAULT_TARGET_FPS: u32 = 60;

/// Manages playback state including frame position, speed, and timing.
#[derive(Debug, Clone, Copy)]
pub struct PlaybackState {
    /// Current frame number (0-indexed).
    pub current_frame: u64,
    /// Playback speed in hundredths of real time; higher is faster.
    pub speed: u32,
    /// Whether to loop back to the start when reaching the end.
    pub loop_enabled: bool,
    /// Optional start frame for range playback; `None` plays from frame 0.
    pub range_start: Option<u64>,
    /// Optional end frame for range playback; `None` plays to the last frame.
    pub range_end: Option<u64>,
    /// Clock reading (nanoseconds) of the last accepted frame advance.
    pub last_update: u64,
}

impl PlaybackState {
    /// The clock reading recorded by the last advance or timing reset.
    pub open spec fn last_advance_nanos(&self) -> u64 {
        self.last_update
    }

    /// First frame of the effective play range.
    pub open spec fn spec_effective_start(&self) -> u64 {
        match self.range_start {
            Some(s) => s,
            None => 0u64,
        }
    }

    /// Last frame of the effective play range, never past the end of the log.
    pub open spec fn spec_effective_end(&self, total_frames: u64) -> u64 {
        let last = if total_frames > 0 {
            (total_frames - 1) as u64
        } else {
            0u64
        };
        match self.range_end {
            Some(e) => if e < last {
                e
            } else {
                last
            },
            None => last,
        }
    }

    /// The current frame lies inside the log: in `[0, total_frames - 1]` when
    /// the log is non-empty, and exactly `0` for an empty log.
    pub open spec fn frame_in_bounds(&self, total_frames: u64) -> bool {
        if total_frames > 0 {
            self.current_frame < total_frames
        } else {
            self.current_frame == 0
        }
    }

    /// The effective play range is non-empty and lies inside the log.
    pub open spec fn range_in_bounds(&self, total_frames: u64) -> bool {
        self.spec_effective_start() <= self.spec_effective_end(total_frames)
    }

    /// Nanoseconds each frame should last at the given FPS and speed.
    pub open spec fn spec_frame_duration_nanos(target_fps: u32, speed: u32) -> int
        recommends
            target_fps > 0,
            speed > 0,
    {
        100_000_000_000int / (target_fps * speed)
    }

    /// Create a new playback state with default values, timed from `now_nanos`.
    pub fn new(now_nanos: u64) -> (r: Self)
        ensures
            r.current_frame == 0,
            r.speed == DEFAULT_SPEED,
            r.loop_enabled,
            r.range_start is None,
            r.range_end is None,
            r.last_advance_nanos() == now_nanos,
            forall|t: u64| r.frame_in_bounds(t),
    {
        Self {
            current_frame: 0,
            speed: DEFAULT_SPEED,
            loop_enabled: true,
            range_start: None,
            range_end: None,
            last_update: now_nanos,
        }
    }

    /// Check if enough time has elapsed since the last advance to step to the
    /// next frame.  Pure predicate; no mutation.
    pub fn should_advance(&self, target_fps: u32, now_nanos: u64) -> (r: bool)
        ensures
            r == (target_fps != 0 && self.speed != 0 && ({
                let elapsed = if now_nanos >= self.last_advance_nanos() {
                    now_nanos - self.last_advance_nanos()
                } else {
                    0int
                };
                elapsed >= Self::spec_frame_duration_nanos(target_fps, self.speed)
            })),
    {
        if target_fps == 0 || self.speed == 0 {
            return false;
        }
        proof {
            assert((target_fps as int) * (self.speed as int) >= 1
                && (target_fps as int) * (self.speed as int) < 0x10000000000000000int)
                by (nonlinear_arith)
                requires
                    1 <= target_fps <= 0xFFFF_FFFFu32,
                    1 <= self.speed <= 0xFFFF_FFFFu32,
            ;
        }
        let denom: u128 = (target_fps as u128) * (self.speed as u128);
        let duration: u128 = 100_000_000_000u128 / denom;
        let elapsed: u64 = if now_nanos >= self.last_update {
            now_nanos - self.last_update
        } else {
            0
        };
        (elapsed as u128) >= duration
    }

    /// Mark that a frame advance has occurred, recording the clock reading.
    pub fn mark_advanced(&mut self, now_nanos: u64)
        ensures
            *final(self) == (PlaybackState { last_update: now_nanos, ..*old(self) }),
    {
        self.last_update = now_nanos;
    }

    /// Get the effective start frame (accounting for `range_start`).
    pub fn effective_start(&self) -> (r: u64)
        ensures
            r == self.spec_effective_start(),
    {
        match self.range_start {
            Some(s) => s,
            None => 0,
        }
    }

    /// Get the effective end frame (accounting for `range_end`).
    pub fn effective_end(&self, total_frames: u64) -> (r: u64)
        ensures
            r == self.spec_effective_end(total_frames),
    {
        let last: u64 = if total_frames > 0 {
            total_frames - 1
        } else {
            0
        };
        match self.range_end {
            Some(e) => if e < last {
                e
            } else {
                last
            },
            None => last,
        }
    }

    /// Set the current frame, clamping into the log.
    pub fn set_frame(&mut self, frame: u64, total_frames: u64)
        ensures
            final(self).current_frame == ({
                let max_frame = if total_frames > 0 {
                    (total_frames - 1) as u64
                } else {
                    0u64
                };
                if frame < max_frame {
                    frame
                } else {
                    max_frame
                }
            }),
            *final(self) == (PlaybackState {
                current_frame: final(self).current_frame,
                ..*old(self)
            }),
            final(self).frame_in_bounds(total_frames),
    {
        let max_frame: u64 = if total_frames > 0 {
            total_frames - 1
        } else {
            0
        };
        self.current_frame = if frame < max_frame {
            frame
        } else {
            max_frame
        };
    }

    /// Advance to the next frame.  Returns `true` if playback should
    /// continue, `false` if the end was reached and looping is disabled.
    pub fn advance(&mut self, total_frames: u64, now_nanos: u64) -> (cont: bool)
        ensures
            ({
                let end = old(self).spec_effective_end(total_frames);
                if old(self).current_frame >= end {
                    if old(self).loop_enabled {
                        cont && final(self).current_frame == old(self).spec_effective_start()
                            && final(self).last_advance_nanos() == now_nanos
                    } else {
                        !cont && *final(self) == *old(self)
                    }
                } else {
                    cont && final(self).current_frame == old(self).current_frame + 1
                        && final(self).last_advance_nanos() == now_nanos
                }
            }),
            final(self).speed == old(self).speed,
            final(self).loop_enabled == old(self).loop_enabled,
            final(self).range_start == old(self).range_start,
            final(self).range_end == old(self).range_end,
            old(self).frame_in_bounds(total_frames) && old(self).range_in_bounds(total_frames)
                ==> final(self).frame_in_bounds(total_frames),
    {
        let end_frame = self.effective_end(total_frames);
        if self.current_frame >= end_frame {
            if self.loop_enabled {
                self.current_frame = self.effective_start();
                self.mark_advanced(now_nanos);
                true
            } else {
                false
            }
        } else {
            self.current_frame = self.current_frame + 1;
            self.mark_advanced(now_nanos);
            true
        }
    }

    /// Go to the previous frame, looping to the effective end when at the
    /// effective start and looping is enabled.
    pub fn previous(&mut self, total_frames: u64)
        ensures
            final(self).current_frame == ({
                let start = old(self).spec_effective_start();
                if old(self).current_frame <= start {
                    if old(self).loop_enabled {
                        old(self).spec_effective_end(total_frames)
                    } else {
                        old(self).current_frame
                    }
                } else {
                    (old(self).current_frame - 1) as u64
                }
            }),
            *final(self) == (PlaybackState {
                current_frame: final(self).current_frame,
                ..*old(self)
            }),
            old(self).frame_in_bounds(total_frames) ==> final(self).frame_in_bounds(total_frames),
    {
        let start_frame = self.effective_start();
        if self.current_frame <= start_frame {
            if self.loop_enabled {
                self.current_frame = self.effective_end(total_frames);
            }
        } else {
            self.current_frame = self.current_frame - 1;
        }
    }

    /// Jump to the effective start frame.
    pub fn go_to_start(&mut self)
        ensures
            final(self).current_frame == old(self).spec_effective_start(),
            *final(self) == (PlaybackState {
                current_frame: final(self).current_frame,
                ..*old(self)
            }),
            old(self).range_in_bounds(0) ==> final(self).frame_in_bounds(0),
            forall|t: u64| old(self).range_in_bounds(t) ==> final(self).frame_in_bounds(t),
    {
        self.current_frame = self.effective_start();
    }

    /// Jump to the effective end frame.
    pub fn go_to_end(&mut self, total_frames: u64)
        ensures
            final(self).current_frame == old(self).spec_effective_end(total_frames),
            *final(self) == (PlaybackState {
                current_frame: final(self).current_frame,
                ..*old(self)
            }),
            final(self).frame_in_bounds(total_frames),
    {
        self.current_frame = self.effective_end(total_frames);
    }

    /// Set playback speed, clamping into `[MIN_SPEED, MAX_SPEED]`.
    pub fn set_speed(&mut self, speed: u32)
        ensures
            final(self).speed == ({
                if speed < MIN_SPEED {
                    MIN_SPEED
                } else if speed > MAX_SPEED {
                    MAX_SPEED
                } else {
                    speed
                }
            }),
            *final(self) == (PlaybackState { speed: final(self).speed, ..*old(self) }),
    {
        self.speed = if speed < MIN_SPEED {
            MIN_SPEED
        } else if speed > MAX_SPEED {
            MAX_SPEED
        } else {
            speed
        };
    }

    /// The smallest speed preset strictly greater than the current speed, or
    /// the largest preset when the current speed is at or past it.  Presets
    /// are 0.25x, 0.5x, 1x, 2x and 4x, in hundredths.
    pub fn next_speed_preset(&self) -> (r: u32)
        ensures
            r == if self.speed < 25 {
                25u32
            } else if self.speed < 50 {
                50u32
            } else if self.speed < 100 {
                100u32
            } else if self.speed < 200 {
                200u32
            } else {
                400u32
            },
    {
        if self.speed < 25 {
            25
        } else if self.speed < 50 {
            50
        } else if self.speed < 100 {
            100
        } else if self.speed < 200 {
            200
        } else {
            400
        }
    }

    /// The largest speed preset strictly less than the current speed, or the
    /// smallest preset when the current speed is at or below it.
    pub fn prev_speed_preset(&self) -> (r: u32)
        ensures
            r == if self.speed > 400 {
                400u32
            } else if self.speed > 200 {
                200u32
            } else if self.speed > 100 {
                100u32
            } else if self.speed > 50 {
                50u32
            } else {
                25u32
            },
    {
        if self.speed > 400 {
            400
        } else if self.speed > 200 {
            200
        } else if self.speed > 100 {
            100
        } else if self.speed > 50 {
            50
        } else {
            25
        }
    }

    /// Replace the optional play range.  The current frame is not clamped;
    /// callers should call `set_frame` afterwards if needed.
    pub fn set_range(&mut self, start: Option<u64>, end: Option<u64>)
        ensures
            *final(self) == (PlaybackState { range_start: start, range_end: end, ..*old(self) }),
    {
        self.range_start = start;
        self.range_end = end;
    }

    /// Clear the play range, returning to the full timeline.
    pub fn clear_range(&mut self)
        ensures
            *final(self) == (PlaybackState { range_start: None, range_end: None, ..*old(self) }),
    {
        self.range_start = None;
        self.range_end = None;
    }

    /// Reset the advance timing; call when playback transitions to playing.
    pub fn reset_timing(&mut self, now_nanos: u64)
        ensures
            *final(self) == (PlaybackState { last_update: now_nanos, ..*old(self) }),
    {
        self.last_update = now_nanos;
    }

    /// Whether the current frame is at (or before) the effective start.
    pub fn is_at_start(&self) -> (r: bool)
        ensures
            r == (self.current_frame <= self.spec_effective_start()),
    {
        self.current_frame <= self.effective_start()
    }

    /// Whether the current frame is at (or past) the effective end.
    pub fn is_at_end(&self, total_frames: u64) -> (r: bool)
        ensures
            r == (self.current_frame >= self.spec_effective_end(total_frames)),
    {
        self.current_frame >= self.effective_end(total_frames)
    }
}

impl Default for PlaybackState {
    /// Defaults match `new` with the clock at zero.
    fn default() -> (r: Self)
        ensures
            r.current_frame == 0,
            r.speed == DEFAULT_SPEED,
            r.loop_enabled,
            r.range_start is None,
            r.range_end is None,
            r.last_advance_nanos() == 0,
    {
        Self::new(0)
    }
}

} // verus!
