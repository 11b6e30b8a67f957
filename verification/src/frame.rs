//! When a frame is drawn, and what it is made of.
use crate::bits::Double;
use crate::geometry::Point;
use crate::state::{Effect, State};
use vstd::prelude::*;

verus! {

/// The output that frames go to. A frame is pending from when it is queued
/// until the screen shows it.
#[derive(Clone, Copy, Debug, PartialEq, Eq, Structural)]
pub struct DrmBackend {
    pub crtc: u32,
    pub pending_frame: bool,
}

/// An event of the graphics device.
#[derive(Clone, Copy, Debug, PartialEq, Eq, Structural)]
pub enum DrmEvent {
    /// The screen of a CRTC shows its next frame.
    VBlank(u32),
    /// The device failed.
    Error,
}

/// A workspace that is drawn, so many pixels to the right. A workspace that
/// slides is drawn beside another one.
#[derive(Clone, Copy, Debug, PartialEq, Eq, Structural)]
pub struct Pass {
    pub workspace: usize,
    pub x_offset: i32,
    pub sliding: bool,
}

/// A part of a workspace that is drawn.
#[derive(Clone, Copy, Debug, PartialEq, Eq, Structural)]
pub enum Layer {
    /// The windows, with what they show.
    Windows,
    /// Their borders, with a glow around the focused one.
    Borders,
    /// What covers the windows that fade in.
    Overlays,
    /// The windows that fade out.
    Dying,
}

impl Pass {
    /// What is drawn for a workspace, the foremost first; `None` if the frame
    /// is given up. `rendered` says whether the windows can be drawn.
    pub open spec fn layers(self, rendered: bool) -> Option<Seq<Layer>> {
        if self.sliding {
            if rendered {
                Some(seq![Layer::Windows, Layer::Borders, Layer::Dying])
            } else {
                Some(seq![Layer::Dying])
            }
        } else if rendered {
            Some(seq![Layer::Borders, Layer::Overlays, Layer::Windows, Layer::Dying])
        } else {
            None
        }
    }

    pub fn plan(&self, rendered: bool) -> (r: Option<Vec<Layer>>)
        ensures
            match r {
                Some(list) => self.layers(rendered) == Some(list@),
                None => self.layers(rendered) is None,
            },
    {
        if self.sliding {
            if rendered {
                let list = vec![Layer::Windows, Layer::Borders, Layer::Dying];
                assert(list@ == seq![Layer::Windows, Layer::Borders, Layer::Dying]);
                Some(list)
            } else {
                let list = vec![Layer::Dying];
                assert(list@ == seq![Layer::Dying]);
                Some(list)
            }
        } else if rendered {
            let list = vec![Layer::Borders, Layer::Overlays, Layer::Windows, Layer::Dying];
            assert(list@ == seq![
                Layer::Borders,
                Layer::Overlays,
                Layer::Windows,
                Layer::Dying,
            ]);
            Some(list)
        } else {
            None
        }
    }
}

/// How far the windows of a workspace are moved; `None` if they are drawn where
/// they are.
pub fn relocation(x_offset: i32) -> (r: Option<Point>)
    ensures
        r == (if x_offset == 0 {
            None
        } else {
            Some(Point { x: x_offset, y: 0 })
        }),
{
    if x_offset == 0 {
        None
    } else {
        Some(Point { x: x_offset, y: 0 })
    }
}

impl crate::workspace::WorkspaceView {
    /// The windows whose fade-out is over are gone.
    pub open spec fn reaped(self, now: u64) -> crate::workspace::WorkspaceView {
        crate::workspace::WorkspaceView {
            dying_windows: self.dying_windows.filter(
                |d: crate::animation::DyingWindow| d.fading(now),
            ),
            ..self
        }
    }
}

impl crate::state::StateView {
    pub open spec fn reaped(self, now: u64) -> crate::state::StateView {
        crate::state::StateView {
            workspaces: self.workspaces.map_values(
                |w: crate::workspace::WorkspaceView| w.reaped(now),
            ),
            ..self
        }
    }

    /// The slide between two workspaces has come to `eased`.
    pub open spec fn transition_ticked(self, eased: Double) -> crate::state::StateView {
        if self.workspace_transition.active {
            crate::state::StateView {
                workspace_transition: self.workspace_transition.advanced(eased),
                ..self
            }.redrawn()
        } else {
            self
        }
    }

    /// The state and the effects after each turn of the event loop: the slides
    /// move on, what has faded out is dropped, and while anything fades, the
    /// active workspace is arranged anew.
    pub open spec fn idled(self, eased: Double, now: u64) -> (
        crate::state::StateView,
        Seq<Effect>,
    ) {
        let (settled, effects) = self.transition_ticked(eased).swipe_settled(now);
        let s = settled.reaped(now);
        if s.animating(now) {
            (s.redrawn(), effects + seq![Effect::Retile(s.active_workspace as usize)])
        } else {
            (s, effects)
        }
    }

    /// The workspaces that are drawn: the active one, or the two that a slide
    /// goes between. `travelled` is how far the slide has come, in pixels,
    /// `remaining` how far it has to go.
    pub open spec fn passes(self, travelled: i32, remaining: i32) -> Seq<Pass> {
        let slide = self.workspace_transition;
        if slide.active {
            let left = slide.direction == crate::transition::TransitionDirection::Left;
            seq![
                Pass {
                    workspace: slide.from_workspace,
                    x_offset: if left {
                        -travelled
                    } else {
                        travelled as int
                    } as i32,
                    sliding: true,
                },
                Pass {
                    workspace: slide.to_workspace,
                    x_offset: if left {
                        remaining as int
                    } else {
                        -remaining
                    } as i32,
                    sliding: true,
                },
            ]
        } else {
            seq![
                Pass {
                    workspace: self.active_workspace as usize,
                    x_offset: 0,
                    sliding: false,
                },
            ]
        }
    }

    /// Whether a frame need not be shown: nothing in it is new, and nothing is
    /// about to move.
    pub open spec fn at_rest(self, empty: bool, now: u64) -> bool {
        empty && !self.workspace_transition.active && !self.animating(now)
    }

    /// The workspaces whose windows are told that a frame was drawn.
    pub open spec fn told_of_frame(self) -> Seq<usize> {
        let here = self.active_workspace as usize;
        let slide = self.workspace_transition;
        if slide.active && slide.from_workspace != here {
            seq![here, slide.from_workspace]
        } else {
            seq![here]
        }
    }
}

impl State {
    /// Drops the windows of all workspaces whose fade-out is over.
    pub fn reap(&mut self, now: u64)
        ensures
            final(self)@ == old(self)@.reaped(now),
    {
        let n: usize = self.workspaces.len();
        let mut i: usize = 0;
        while i < n
            invariant
                i <= n,
                n == self.workspaces.len(),
                n == old(self)@.workspaces.len(),
                self@ == (crate::state::StateView { workspaces: self@.workspaces, ..old(self)@ }),
                forall|k: int|
                    0 <= k < i ==> #[trigger] self@.workspaces[k]
                        == old(self)@.workspaces[k].reaped(now),
                forall|k: int|
                    i <= k < n ==> #[trigger] self@.workspaces[k] == old(self)@.workspaces[k],
            decreases n - i,
        {
            let ghost before = self@;
            self.workspaces[i].reap_dying_windows(now);
            assert(self@.workspaces == before.workspaces.update(
                i as int,
                before.workspaces[i as int].reaped(now),
            ));
            i = i + 1;
        }
        assert(self@.workspaces == old(self)@.reaped(now).workspaces);
    }

    /// What is done after each turn of the event loop. `eased` is the eased
    /// fraction of the slide between two workspaces that has passed.
    pub fn idle(&mut self, eased: Double, now: u64) -> (r: Vec<Effect>)
        requires
            old(self)@.wf(),
        ensures
            final(self)@ == old(self)@.idled(eased, now).0,
            r@ == old(self)@.idled(eased, now).1,
    {
        if self.workspace_transition.active {
            self.workspace_transition.tick(eased);
            self.needs_redraw = true;
        }
        assert(self@ == old(self)@.transition_ticked(eased));
        let mut effects = self.swipe_tick(now);
        self.reap(now);
        if self.any_animating(now) {
            effects.push(Effect::Retile(self.active_workspace));
            self.needs_redraw = true;
        }
        effects
    }

    /// Whether a frame is to be drawn.
    pub fn wants_frame(&self, backend: &DrmBackend) -> (r: bool)
        ensures
            r == (self@.needs_redraw && !backend.pending_frame),
    {
        self.needs_redraw && !backend.pending_frame
    }

    /// The workspaces that are drawn.
    pub fn render_passes(&self, travelled: i32, remaining: i32) -> (r: Vec<Pass>)
        requires
            travelled > i32::MIN,
            remaining > i32::MIN,
        ensures
            r@ == self@.passes(travelled, remaining),
    {
        let slide = &self.workspace_transition;
        if slide.active {
            vec![
                Pass {
                    workspace: slide.from_workspace,
                    x_offset: slide.from_offset(travelled),
                    sliding: true,
                },
                Pass {
                    workspace: slide.to_workspace,
                    x_offset: slide.to_offset(remaining),
                    sliding: true,
                },
            ]
        } else {
            vec![Pass { workspace: self.active_workspace, x_offset: 0, sliding: false }]
        }
    }

    /// A frame was drawn; `empty` says that nothing in it is new. Returns
    /// whether it is to be queued.
    pub fn frame_rendered(&mut self, empty: bool, now: u64) -> (r: bool)
        ensures
            r == !old(self)@.at_rest(empty, now),
            final(self)@ == (if r {
                old(self)@
            } else {
                crate::state::StateView { needs_redraw: false, ..old(self)@ }
            }),
    {
        if empty && !self.workspace_transition.active && !self.any_animating(now) {
            self.needs_redraw = false;
            false
        } else {
            true
        }
    }

    /// A frame was queued, or could not be.
    pub fn frame_queued(&mut self, backend: &mut DrmBackend, queued: bool)
        ensures
            final(self)@ == (if queued {
                crate::state::StateView { needs_redraw: false, ..old(self)@ }
            } else {
                old(self)@
            }),
            *final(backend) == (if queued {
                DrmBackend { pending_frame: true, ..*old(backend) }
            } else {
                *old(backend)
            }),
    {
        if queued {
            backend.pending_frame = true;
            self.needs_redraw = false;
        }
    }

    /// The workspaces whose windows are told that a frame was drawn.
    pub fn frame_callbacks(&self) -> (r: Vec<usize>)
        ensures
            r@ == self@.told_of_frame(),
    {
        let mut out: Vec<usize> = vec![self.active_workspace];
        let slide = &self.workspace_transition;
        if slide.active && slide.from_workspace != self.active_workspace {
            out.push(slide.from_workspace);
        }
        out
    }

    /// The session has come back to the front: whatever frame was pending is
    /// lost, and a new one is drawn.
    pub fn session_activated(&mut self, backend: &mut DrmBackend)
        ensures
            final(self)@ == old(self)@.redrawn(),
            *final(backend) == (DrmBackend { pending_frame: false, ..*old(backend) }),
    {
        backend.pending_frame = false;
        self.needs_redraw = true;
    }
}

impl DrmBackend {
    /// Handles an event of the graphics device. Returns whether a frame of this
    /// output is shown now, so that the next one can be drawn.
    pub fn handle_drm_event(&mut self, event: DrmEvent) -> (r: bool)
        ensures
            r == (event == DrmEvent::VBlank(old(self).crtc)),
            *final(self) == (if r {
                DrmBackend { pending_frame: false, ..*old(self) }
            } else {
                *old(self)
            }),
    {
        match event {
            DrmEvent::VBlank(crtc) => {
                if crtc != self.crtc {
                    return false;
                }
                self.pending_frame = false;
                true
            },
            DrmEvent::Error => false,
        }
    }
}

} // verus!
