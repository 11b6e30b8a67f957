//! The clocks of the animations.
//!
//! A moment is a number of nanoseconds on a monotonic clock. The functions
//! here decide which animations still run; the caller turns the elapsed time
//! into an alpha or an offset.
use crate::bits::{Single, ONE32, ZERO32};
use crate::geometry::{Point, Size};
use vstd::prelude::*;

verus! {

/// How long a new window fades in.
pub const ANIMATION_DURATION: u64 = 200_000_000;

/// How long a closed window fades out before it is removed.
pub const FADE_OUT_DURATION: u64 = 200_000_000;

/// The time from `since` to `now`, none if `now` comes first.
pub open spec fn elapsed(now: u64, since: u64) -> int {
    if now >= since {
        now - since
    } else {
        0
    }
}

pub fn elapsed_since(now: u64, since: u64) -> (r: u64)
    ensures
        r == elapsed(now, since),
{
    if now >= since {
        now - since
    } else {
        0
    }
}

/// How far an animation of length `duration` has come, while it runs.
pub open spec fn running(now: u64, since: u64, duration: u64) -> Option<u64> {
    if elapsed(now, since) >= duration {
        None
    } else {
        Some(elapsed(now, since) as u64)
    }
}

/// How far the fade-in of a window has come; `None` once it is over.
pub fn animation_progress(now: u64, spawn_time: u64) -> (r: Option<u64>)
    ensures
        r == running(now, spawn_time, ANIMATION_DURATION),
{
    let passed: u64 = elapsed_since(now, spawn_time);
    if passed >= ANIMATION_DURATION {
        None
    } else {
        Some(passed)
    }
}

/// How much of a new window shows, of a progress between zero and one.
pub fn animation_alpha(progress: Single) -> (r: Single)
    ensures
        r == progress.clamped(Single { bits: ZERO32 }, Single { bits: ONE32 }),
{
    progress.clamp(Single { bits: ZERO32 }, Single { bits: ONE32 })
}

/// A window that has been closed but still fades out, where it last was.
#[derive(Clone, Copy, Debug, PartialEq, Eq, Structural)]
pub struct DyingWindow {
    pub window: u64,
    pub destroy_time: u64,
    pub last_location: Point,
    pub last_size: Size,
}

impl DyingWindow {
    /// Whether the fade-out is still running.
    pub open spec fn fading(self, now: u64) -> bool {
        running(now, self.destroy_time, FADE_OUT_DURATION) is Some
    }

    /// How far the fade-out has come; `None` once it is over and the window
    /// is to be removed.
    pub fn fade_alpha(&self, now: u64) -> (r: Option<u64>)
        ensures
            r == running(now, self.destroy_time, FADE_OUT_DURATION),
    {
        let passed: u64 = elapsed_since(now, self.destroy_time);
        if passed >= FADE_OUT_DURATION {
            None
        } else {
            Some(passed)
        }
    }
}

/// An animation that is over stays over.
pub proof fn animation_ends_for_good(now: u64, later: u64, since: u64, duration: u64)
    requires
        now <= later,
        running(now, since, duration) is None,
    ensures
        running(later, since, duration) is None,
{
}

} // verus!
