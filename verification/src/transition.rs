//! The slide from one workspace to another.
use crate::bits::{Double, ONE64, ZERO64};
use vstd::prelude::*;

verus! {

#[derive(Clone, Copy, Debug, PartialEq, Eq, Structural)]
pub enum TransitionDirection {
    Left,
    Right,
}

/// A slide between two workspaces. `progress` runs from 0.0 to 1.0.
#[derive(Clone, Copy, Debug, PartialEq, Eq, Structural)]
pub struct WorkspaceTransition {
    pub active: bool,
    pub from_workspace: usize,
    pub to_workspace: usize,
    pub direction: TransitionDirection,
    pub start_time: u64,
    pub duration: u64,
    pub progress: Double,
}

/// How long a slide takes.
pub const TRANSITION_DURATION: u64 = 250_000_000;

/// The direction of the slide between two workspaces: to a later one the
/// screen moves left.
pub open spec fn direction_of(from: usize, to: usize) -> TransitionDirection {
    if to > from {
        TransitionDirection::Left
    } else {
        TransitionDirection::Right
    }
}

impl WorkspaceTransition {
    /// No slide.
    pub open spec fn resting(now: u64) -> WorkspaceTransition {
        WorkspaceTransition {
            active: false,
            from_workspace: 0,
            to_workspace: 0,
            direction: TransitionDirection::Left,
            start_time: now,
            duration: TRANSITION_DURATION,
            progress: Double { bits: ZERO64 },
        }
    }

    pub fn at_rest(now: u64) -> (r: Self)
        ensures
            r == WorkspaceTransition::resting(now),
    {
        WorkspaceTransition {
            active: false,
            from_workspace: 0,
            to_workspace: 0,
            direction: TransitionDirection::Left,
            start_time: now,
            duration: TRANSITION_DURATION,
            progress: Double { bits: ZERO64 },
        }
    }

    /// A slide that has just begun, with the duration that was set.
    pub open spec fn begun(self, from: usize, to: usize, now: u64) -> WorkspaceTransition {
        WorkspaceTransition {
            active: true,
            from_workspace: from,
            to_workspace: to,
            direction: direction_of(from, to),
            start_time: now,
            duration: self.duration,
            progress: Double { bits: ZERO64 },
        }
    }

    pub fn begin(&mut self, from: usize, to: usize, now: u64)
        ensures
            *final(self) == old(self).begun(from, to, now),
    {
        self.active = true;
        self.from_workspace = from;
        self.to_workspace = to;
        self.direction = if to > from {
            TransitionDirection::Left
        } else {
            TransitionDirection::Right
        };
        self.start_time = now;
        self.progress = Double { bits: ZERO64 };
    }

    /// A slide that has come to `eased`, and is over from 1.0 on.
    pub open spec fn advanced(self, eased: Double) -> WorkspaceTransition {
        if !self.active {
            self
        } else if (Double { bits: ONE64 }).at_most(eased) {
            WorkspaceTransition { active: false, progress: Double { bits: ONE64 }, ..self }
        } else {
            WorkspaceTransition { progress: eased, ..self }
        }
    }

    /// Brings the slide to `eased`, the eased fraction of its duration that
    /// has passed. Returns `true` while it still runs.
    pub fn tick(&mut self, eased: Double) -> (r: bool)
        ensures
            *final(self) == old(self).advanced(eased),
            r == final(self).active,
    {
        if !self.active {
            return false;
        }
        self.progress = eased;
        if (Double { bits: ONE64 }).le(self.progress) {
            self.progress = Double { bits: ONE64 };
            self.active = false;
            return false;
        }
        true
    }

    /// Where the workspace that is left stands.
    pub open spec fn left_at(self, travelled: int) -> int {
        match self.direction {
            TransitionDirection::Left => -travelled,
            TransitionDirection::Right => travelled,
        }
    }

    /// Where the workspace that is entered stands.
    pub open spec fn entered_at(self, remaining: int) -> int {
        match self.direction {
            TransitionDirection::Left => remaining,
            TransitionDirection::Right => -remaining,
        }
    }

    /// Where the workspace that is left stands, when the screen has moved by
    /// `travelled` pixels.
    pub fn from_offset(&self, travelled: i32) -> (r: i32)
        requires
            travelled > i32::MIN,
        ensures
            r == self.left_at(travelled as int),
    {
        match self.direction {
            TransitionDirection::Left => -travelled,
            TransitionDirection::Right => travelled,
        }
    }

    /// Where the workspace that is entered stands, when the screen has still
    /// `remaining` pixels to move.
    pub fn to_offset(&self, remaining: i32) -> (r: i32)
        requires
            remaining > i32::MIN,
        ensures
            r == self.entered_at(remaining as int),
    {
        match self.direction {
            TransitionDirection::Left => remaining,
            TransitionDirection::Right => -remaining,
        }
    }
}

/// A slide from one workspace to another and the slide back go in opposite
/// directions.
pub proof fn slide_back_reverses(from: usize, to: usize)
    requires
        from != to,
    ensures
        direction_of(from, to) != direction_of(to, from),
{
}

/// During a slide the two workspaces stand on either side of the edge of the
/// screen, as far apart as the pixels that are travelled and those that remain
/// make together: a screen width, or a pixel less where both were cut off to
/// whole pixels. The one that is entered comes from the right where it is the
/// later one. At the start the one that is left fills the screen, at the end the
/// one that is entered.
pub proof fn slide_shows_both_sides(
    slide: WorkspaceTransition,
    from: usize,
    to: usize,
    now: u64,
    progress: Double,
    travelled: int,
    remaining: int,
    width: int,
)
    requires
        0 <= travelled,
        0 <= remaining,
        travelled + remaining == width || travelled + remaining == width - 1,
    ensures
        ({
            let s = WorkspaceTransition { progress, ..slide.begun(from, to, now) };
            let apart = s.entered_at(remaining) - s.left_at(travelled);
            &&& (s.direction == TransitionDirection::Left) == (to > from)
            &&& to > from ==> s.left_at(travelled) <= 0 <= s.entered_at(remaining) && (apart
                == width || apart == width - 1)
            &&& to <= from ==> s.entered_at(remaining) <= 0 <= s.left_at(travelled) && (-apart
                == width || -apart == width - 1)
            &&& s.left_at(0) == 0 && (s.entered_at(width) == width || s.entered_at(width) == -width)
            &&& s.entered_at(0) == 0 && (s.left_at(width) == width || s.left_at(width) == -width)
        }),
{
}

} // verus!
