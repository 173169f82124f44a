//! Frame pacing: the time since the last frame, and whether to wait.

use std::time::{Duration, Instant};
use vstd::prelude::*;

verus! {

#[verifier::external_type_specification]
#[verifier::external_body]
pub struct ExInstant(Instant);

/// Relies on std's `Instant::now`: the current instant of a monotonic clock.
pub assume_specification[ Instant::now ]() -> Instant;

/// Relies on std's `Instant::elapsed`: the time since that instant.
pub assume_specification[ Instant::elapsed ](self_: &Instant) -> Duration;

/// Relies on std's `Duration::as_micros`: the whole microseconds in a duration.
pub assume_specification[ Duration::as_micros ](self_: &Duration) -> u128;

/// Microseconds in a second.
pub const MICROS_PER_SEC: u64 = 1_000_000;

/// The frame period at `fps` frames per second, in whole microseconds.
pub open spec fn spec_frame_period(fps: u64) -> int {
    MICROS_PER_SEC as int / fps as int
}

/// Whether a frame that took `elapsed` microseconds was no longer than the
/// frame period at `fps` frames per second.
pub open spec fn spec_needs_wait(elapsed: u64, fps: u64) -> bool {
    elapsed * fps <= MICROS_PER_SEC
}

/// Keeps the instant of the last frame.
pub struct Clock {
    last_tick: Instant,
}

impl Clock {
    pub fn new() -> Clock {
        let last_tick = Instant::now();
        Clock { last_tick }
    }

    /// Microseconds since the last frame began, saturating at `u64::MAX`.
    pub fn elapsed_micros(&self) -> (r: u64) {
        let d = self.last_tick.elapsed();
        let us = d.as_micros();
        if us > u64::MAX as u128 {
            u64::MAX
        } else {
            us as u64
        }
    }

    /// Starts a new frame now.
    pub fn restart(&mut self) {
        self.last_tick = Instant::now();
    }
}

/// The frame period at `fps` frames per second, in whole microseconds.
pub fn frame_period_micros(fps: u64) -> (r: u64)
    requires
        fps > 0,
    ensures
        r == spec_frame_period(fps),
{
    MICROS_PER_SEC / fps
}

/// Whether the loop waits one frame period before its next frame: so when the
/// frame took no longer than the period.
pub fn needs_wait(elapsed: u64, fps: u64) -> (r: bool)
    ensures
        r == spec_needs_wait(elapsed, fps),
{
    assert((elapsed as int) * (fps as int) <= u64::MAX as int * u64::MAX as int) by (nonlinear_arith)
        requires
            elapsed <= u64::MAX,
            fps <= u64::MAX,
    ;
    (elapsed as u128) * (fps as u128) <= MICROS_PER_SEC as u128
}

} // verus!
