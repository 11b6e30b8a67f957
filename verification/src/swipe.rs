//! The touchpad swipe that drags workspaces along.
use crate::animation::elapsed_since;
use crate::bits::{Double, ZERO64};
use vstd::prelude::*;

verus! {

/// A swipe, or the animation after it. Offsets are in pixels, positive where
/// the screen is dragged to the right, towards the previous workspace.
#[derive(Clone, Copy, Debug, PartialEq, Eq, Structural)]
pub struct GestureSwipeState {
    pub tracking: bool,
    pub fingers: u32,
    pub cumulative_dx: Double,
    pub origin_workspace: usize,
    pub screen_width: Double,
    pub animating: bool,
    pub anim_start_offset: Double,
    pub anim_target_offset: Double,
    pub anim_start_time: u64,
    pub anim_duration: u64,
}

#[derive(Clone, Copy, Debug, PartialEq, Eq, Structural)]
pub enum GestureOutcome {
    SwitchTo(usize),
    SnapBack,
}

/// Where the screen stands during a swipe.
#[derive(Clone, Copy, Debug, PartialEq, Eq, Structural)]
pub enum SwipeOffset {
    /// At the offset that the fingers hold it at.
    Live(Double),
    /// Nowhere but at rest.
    Rest,
    /// Between two offsets, `elapsed` of `duration` on the way.
    Moving { start: Double, target: Double, elapsed: u64, duration: u64 },
}

/// The pattern of 1920.0, the screen width where none is known.
pub const DEFAULT_SCREEN_WIDTH: u64 = 0x409E_0000_0000_0000;

/// The pattern of 0.30, the fraction of the screen width that commits a switch.
pub const GESTURE_COMMIT_THRESHOLD: u64 = 0x3FD3_3333_3333_3333;

/// The pattern of 0.8, the speed in pixels per millisecond that commits a
/// switch at any distance.
pub const GESTURE_VELOCITY_THRESHOLD: u64 = 0x3FE9_9999_9999_999A;

/// How long the slide to another workspace takes after a swipe.
pub const SWITCH_DURATION: u64 = 250_000_000;

/// How long the way back takes.
pub const SNAP_DURATION: u64 = 200_000_000;

/// The duration that stands in a swipe before its animation starts.
pub const INITIAL_DURATION: u64 = 300_000_000;

/// Whether a swipe is far or fast enough to change the workspace.
pub open spec fn commits(fraction: Double, velocity: Double) -> bool {
    ||| (Double { bits: GESTURE_COMMIT_THRESHOLD }).at_most(fraction)
    ||| (Double { bits: GESTURE_VELOCITY_THRESHOLD }).at_most(velocity)
}

/// The IEEE comparison `0.0 < offset`.
pub open spec fn rightwards(offset: Double) -> bool {
    (Double { bits: ZERO64 }).below(offset)
}

/// The IEEE comparison `offset < 0.0`.
pub open spec fn leftwards(offset: Double) -> bool {
    offset.below(Double { bits: ZERO64 })
}

impl GestureSwipeState {
    /// No swipe.
    pub open spec fn resting(now: u64) -> GestureSwipeState {
        GestureSwipeState {
            tracking: false,
            fingers: 0,
            cumulative_dx: Double { bits: ZERO64 },
            origin_workspace: 0,
            screen_width: Double { bits: DEFAULT_SCREEN_WIDTH },
            animating: false,
            anim_start_offset: Double { bits: ZERO64 },
            anim_target_offset: Double { bits: ZERO64 },
            anim_start_time: now,
            anim_duration: INITIAL_DURATION,
        }
    }

    pub fn at_rest(now: u64) -> (r: Self)
        ensures
            r == GestureSwipeState::resting(now),
    {
        GestureSwipeState {
            tracking: false,
            fingers: 0,
            cumulative_dx: Double { bits: ZERO64 },
            origin_workspace: 0,
            screen_width: Double { bits: DEFAULT_SCREEN_WIDTH },
            animating: false,
            anim_start_offset: Double { bits: ZERO64 },
            anim_target_offset: Double { bits: ZERO64 },
            anim_start_time: now,
            anim_duration: INITIAL_DURATION,
        }
    }

    /// A swipe of so many fingers that has just begun.
    pub open spec fn begun(
        fingers: u32,
        origin: usize,
        screen_width: Double,
        now: u64,
    ) -> GestureSwipeState {
        GestureSwipeState {
            tracking: true,
            fingers,
            cumulative_dx: Double { bits: ZERO64 },
            origin_workspace: origin,
            screen_width,
            animating: false,
            anim_start_offset: Double { bits: ZERO64 },
            anim_target_offset: Double { bits: ZERO64 },
            anim_start_time: now,
            anim_duration: INITIAL_DURATION,
        }
    }

    pub fn begin(fingers: u32, origin: usize, screen_width: Double, now: u64) -> (r: Self)
        ensures
            r == GestureSwipeState::begun(fingers, origin, screen_width, now),
    {
        GestureSwipeState {
            tracking: true,
            fingers,
            cumulative_dx: Double { bits: ZERO64 },
            origin_workspace: origin,
            screen_width,
            animating: false,
            anim_start_offset: Double { bits: ZERO64 },
            anim_target_offset: Double { bits: ZERO64 },
            anim_start_time: now,
            anim_duration: INITIAL_DURATION,
        }
    }

    pub open spec fn offset(self, now: u64) -> SwipeOffset {
        if self.tracking {
            SwipeOffset::Live(self.cumulative_dx)
        } else if !self.animating {
            SwipeOffset::Rest
        } else {
            SwipeOffset::Moving {
                start: self.anim_start_offset,
                target: self.anim_target_offset,
                elapsed: crate::animation::elapsed(now, self.anim_start_time) as u64,
                duration: self.anim_duration,
            }
        }
    }

    /// Where the screen stands now.
    pub fn current_offset(&self, now: u64) -> (r: SwipeOffset)
        ensures
            r == self.offset(now),
    {
        if self.tracking {
            return SwipeOffset::Live(self.cumulative_dx);
        }
        if !self.animating {
            return SwipeOffset::Rest;
        }
        SwipeOffset::Moving {
            start: self.anim_start_offset,
            target: self.anim_target_offset,
            elapsed: elapsed_since(now, self.anim_start_time),
            duration: self.anim_duration,
        }
    }

    /// The swipe after the animation was looked at: at its end the screen
    /// stands at the target.
    pub open spec fn ticked(self, now: u64) -> GestureSwipeState {
        if self.animating && crate::animation::elapsed(now, self.anim_start_time)
            >= self.anim_duration {
            GestureSwipeState {
                animating: false,
                cumulative_dx: self.anim_target_offset,
                ..self
            }
        } else {
            self
        }
    }

    /// Ends the animation when its time is over. Returns `true` while it
    /// still runs.
    pub fn tick(&mut self, now: u64) -> (r: bool)
        ensures
            *final(self) == old(self).ticked(now),
            r == final(self).animating,
    {
        if !self.animating {
            return false;
        }
        let passed: u64 = elapsed_since(now, self.anim_start_time);
        if passed >= self.anim_duration {
            self.animating = false;
            self.cumulative_dx = self.anim_target_offset;
            return false;
        }
        true
    }

    /// Where a swipe leads that went over `fraction` of the screen at the
    /// speed `velocity`. Whether there is a next workspace is not asked.
    pub open spec fn outcome(self, fraction: Double, velocity: Double) -> GestureOutcome {
        if commits(fraction, velocity) && rightwards(self.cumulative_dx)
            && self.origin_workspace > 0 {
            GestureOutcome::SwitchTo((self.origin_workspace - 1) as usize)
        } else if commits(fraction, velocity) && leftwards(self.cumulative_dx) {
            GestureOutcome::SwitchTo((self.origin_workspace + 1) as usize)
        } else {
            GestureOutcome::SnapBack
        }
    }

    /// The swipe once the fingers are lifted: the screen moves on by its whole
    /// width, or back.
    pub open spec fn finished(self, outcome: GestureOutcome, now: u64) -> GestureSwipeState {
        GestureSwipeState {
            tracking: false,
            animating: true,
            anim_start_offset: self.cumulative_dx,
            anim_start_time: now,
            anim_target_offset: match outcome {
                GestureOutcome::SwitchTo(_) => if rightwards(self.cumulative_dx) {
                    self.screen_width
                } else {
                    self.screen_width.negated()
                },
                GestureOutcome::SnapBack => Double { bits: ZERO64 },
            },
            anim_duration: match outcome {
                GestureOutcome::SwitchTo(_) => SWITCH_DURATION,
                GestureOutcome::SnapBack => SNAP_DURATION,
            },
            ..self
        }
    }

    /// Decides where the swipe leads and starts the animation. `fraction` is
    /// the distance in screen widths, `velocity` in pixels per millisecond.
    pub fn finish(&mut self, fraction: Double, velocity: Double, now: u64) -> (r: GestureOutcome)
        requires
            commits(fraction, velocity) && leftwards(old(self).cumulative_dx) ==> old(
                self,
            ).origin_workspace < usize::MAX,
        ensures
            r == old(self).outcome(fraction, velocity),
            *final(self) == old(self).finished(r, now),
    {
        self.tracking = false;
        let commit = (Double { bits: GESTURE_COMMIT_THRESHOLD }).le(fraction) || (Double {
            bits: GESTURE_VELOCITY_THRESHOLD,
        }).le(velocity);
        let zero = Double { bits: ZERO64 };

        let outcome = if commit && zero.lt(self.cumulative_dx) && self.origin_workspace > 0 {
            GestureOutcome::SwitchTo(self.origin_workspace - 1)
        } else if commit && self.cumulative_dx.lt(zero) {
            GestureOutcome::SwitchTo(self.origin_workspace + 1)
        } else {
            GestureOutcome::SnapBack
        };

        self.animating = true;
        self.anim_start_offset = self.cumulative_dx;
        self.anim_start_time = now;

        match outcome {
            GestureOutcome::SwitchTo(_) => {
                self.anim_target_offset = if zero.lt(self.cumulative_dx) {
                    self.screen_width
                } else {
                    self.screen_width.neg()
                };
                self.anim_duration = SWITCH_DURATION;
            },
            GestureOutcome::SnapBack => {
                self.anim_target_offset = zero;
                self.anim_duration = SNAP_DURATION;
            },
        }
        outcome
    }

    /// Lets the screen move back after a swipe that was cancelled.
    pub fn cancel(&mut self, now: u64)
        ensures
            *final(self) == old(self).finished(GestureOutcome::SnapBack, now),
    {
        self.tracking = false;
        self.animating = true;
        self.anim_start_offset = self.cumulative_dx;
        self.anim_target_offset = Double { bits: ZERO64 };
        self.anim_start_time = now;
        self.anim_duration = SNAP_DURATION;
    }

    /// Whether the fingers pull the screen past the first or the last
    /// workspace.
    pub open spec fn overscrolled(self, new_offset: Double, max_ws: usize) -> bool {
        ||| self.origin_workspace == 0 && rightwards(new_offset)
        ||| self.origin_workspace >= max_ws && leftwards(new_offset)
    }

    /// The offset after the fingers moved to `new_offset`: within a screen
    /// width of the origin, on the sides where there is a workspace, and at
    /// `damped` where they pull past the end.
    pub open spec fn dragged(self, new_offset: Double, damped: Double, max_ws: usize) -> Double {
        let zero = Double { bits: ZERO64 };
        if self.overscrolled(new_offset, max_ws) {
            damped
        } else if self.origin_workspace == 0 {
            new_offset.lesser(zero).greater(self.screen_width.negated())
        } else if self.origin_workspace >= max_ws {
            new_offset.greater(zero).lesser(self.screen_width)
        } else {
            new_offset.clamped(self.screen_width.negated(), self.screen_width)
        }
    }

    /// Follows the fingers. `new_offset` is the offset with the whole of
    /// their movement added, `damped` the one with a fifth of it.
    pub fn drag(&mut self, new_offset: Double, damped: Double, max_ws: usize)
        requires
            0 < old(self).origin_workspace < max_ws ==> old(self).screen_width.negated().at_most(
                old(self).screen_width,
            ),
        ensures
            *final(self) == (GestureSwipeState {
                cumulative_dx: old(self).dragged(new_offset, damped, max_ws),
                ..*old(self)
            }),
    {
        let zero = Double { bits: ZERO64 };
        let width = self.screen_width;
        let origin: usize = self.origin_workspace;
        let clamped = if origin == 0 {
            new_offset.min(zero).max(width.neg())
        } else if origin >= max_ws {
            new_offset.max(zero).min(width)
        } else {
            new_offset.clamp(width.neg(), width)
        };
        self.cumulative_dx = if (origin == 0 && zero.lt(new_offset)) || (origin >= max_ws
            && new_offset.lt(zero)) {
            damped
        } else {
            clamped
        };
    }

    /// Forgets the swipe.
    pub fn reset(&mut self)
        ensures
            *final(self) == (GestureSwipeState {
                tracking: false,
                animating: false,
                cumulative_dx: Double { bits: ZERO64 },
                ..*old(self)
            }),
    {
        self.tracking = false;
        self.animating = false;
        self.cumulative_dx = Double { bits: ZERO64 };
    }

    pub fn needs_render(&self) -> (r: bool)
        ensures
            r == (self.tracking || self.animating),
    {
        self.tracking || self.animating
    }

    pub open spec fn adjacent(self, offset: Double, max_ws: usize) -> Option<usize> {
        if rightwards(offset) && self.origin_workspace > 0 {
            Some((self.origin_workspace - 1) as usize)
        } else if leftwards(offset) && self.origin_workspace < max_ws {
            Some((self.origin_workspace + 1) as usize)
        } else {
            None
        }
    }

    /// Which other workspace shows when the screen stands at `offset`;
    /// `max_ws` is the last workspace.
    pub fn adjacent_workspace(&self, offset: Double, max_ws: usize) -> (r: Option<usize>)
        ensures
            r == self.adjacent(offset, max_ws),
    {
        let zero = Double { bits: ZERO64 };
        if zero.lt(offset) && self.origin_workspace > 0 {
            Some(self.origin_workspace - 1)
        } else if offset.lt(zero) && self.origin_workspace < max_ws {
            Some(self.origin_workspace + 1)
        } else {
            None
        }
    }
}

/// A swipe that leads to another workspace leads to a neighbour of the one it
/// started on, the one whose side of the screen shows.
pub proof fn outcome_is_neighbour(s: GestureSwipeState, fraction: Double, velocity: Double)
    requires
        s.origin_workspace < usize::MAX,
        s.outcome(fraction, velocity) is SwitchTo,
    ensures
        s.adjacent(s.cumulative_dx, usize::MAX) == Some(s.outcome(fraction, velocity)->0),
{
}

/// A lifted swipe is shown until its animation ends, and then stands at its
/// target.
pub proof fn finished_swipe_comes_to_rest(
    s: GestureSwipeState,
    outcome: GestureOutcome,
    now: u64,
    later: u64,
)
    ensures
        s.finished(outcome, now).animating,
        crate::animation::elapsed(later, now) >= SWITCH_DURATION ==> {
            let end = s.finished(outcome, now).ticked(later);
            &&& !end.animating && !end.tracking
            &&& end.cumulative_dx == s.finished(outcome, now).anim_target_offset
        },
{
}

/// Within the workspaces, a drag keeps the screen within its own width of the
/// origin.
pub proof fn drag_stays_within_width(
    s: GestureSwipeState,
    new_offset: Double,
    damped: Double,
    max_ws: usize,
)
    requires
        !new_offset.nan(),
        (Double { bits: ZERO64 }).at_most(s.screen_width),
        !s.overscrolled(new_offset, max_ws),
    ensures
        s.screen_width.negated().at_most(s.dragged(new_offset, damped, max_ws)),
        s.dragged(new_offset, damped, max_ws).at_most(s.screen_width),
{
}

} // verus!
