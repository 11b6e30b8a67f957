//! Pointer motion, buttons and interactive grabs.
use crate::bits::{Double, Single, ZERO64};
use crate::geometry::{is_i32, max_i32, min_i32, Point, Position, Rect, Size};
use crate::grab::{GrabMode, GrabState};
use crate::state::{window_current_size, Effect, State, WindowGeometry};
use crate::workspace::{position, HALF32, MIN_RATIO};
use vstd::prelude::*;

verus! {

broadcast use vstd::std_specs::hash::group_hash_axioms;

/// The code of the left pointer button.
pub const BTN_LEFT: u32 = 0x110;

/// The code of the right pointer button.
pub const BTN_RIGHT: u32 = 0x111;

/// The pattern of 0.95, the greatest share of a window in the stack.
pub const MAX_RATIO: u32 = 0x3F73_3333;

/// The pattern of 0.1, the least share of the master.
pub const MIN_SPLIT: u32 = 0x3DCC_CCCD;

/// The pattern of 0.9, the greatest share of the master.
pub const MAX_SPLIT: u32 = 0x3F66_6666;

/// The least width and height that a floating window is resized to.
pub const MIN_FLOATING_SIZE: i32 = 64;

/// What is to be done once an event has been handled: the clients hear of it
/// or do not.
#[derive(Clone, Copy, Debug, PartialEq, Eq, Structural)]
pub enum PressOutcome {
    /// A grab has started; no client hears of the press.
    Grabbed,
    /// A grab of a tiled window is to be started, once the shares of the
    /// stack have been brought in line; no client hears of the press.
    TiledGrab(GrabMode),
    /// The surface under the pointer hears of the press.
    Clicked,
}

/// The surface under the pointer when a button was pressed: the root of its
/// tree, and whether that may get the keyboard as a layer surface.
#[derive(Clone, Copy, Debug, PartialEq, Eq, Structural)]
pub struct ClickedSurface {
    pub root: u64,
    pub interactive: bool,
}

/// A press of a button. `hit` is the window at the pointer, of which
/// `geometry` speaks; `focused_popup` says of a focused layer surface whether
/// it is a popup, which is closed by a press elsewhere.
#[derive(Clone, Copy, Debug, PartialEq, Eq, Structural)]
pub struct Press {
    pub button: u32,
    pub super_held: bool,
    pub at: Position,
    pub hit: Option<u64>,
    pub geometry: WindowGeometry,
    pub under: Option<ClickedSurface>,
    pub focused_popup: bool,
}

/// What a press of a button with the logo key held starts.
pub open spec fn grab_mode(button: u32, floating: bool) -> Option<GrabMode> {
    if button == BTN_LEFT {
        Some(if floating { GrabMode::FloatingMove } else { GrabMode::TiledMove })
    } else if button == BTN_RIGHT {
        Some(if floating { GrabMode::FloatingResize } else { GrabMode::TiledResize })
    } else {
        None
    }
}

fn mode_of(button: u32, floating: bool) -> (r: Option<GrabMode>)
    ensures
        r == grab_mode(button, floating),
{
    if button == BTN_LEFT {
        if floating {
            Some(GrabMode::FloatingMove)
        } else {
            Some(GrabMode::TiledMove)
        }
    } else if button == BTN_RIGHT {
        if floating {
            Some(GrabMode::FloatingResize)
        } else {
            Some(GrabMode::TiledResize)
        }
    } else {
        None
    }
}

/// The border width that counts.
pub open spec fn border(s: crate::state::StateView) -> int {
    crate::geometry::larger(s.config.border_width, 0)
}

impl crate::grab::GrabView {
    /// Whether the pointer moves the line between master and stack.
    pub open spec fn moves_split(self) -> bool {
        self.screen_width > 0 && self.tiled_count > 1
    }

    /// The window of the stack whose share grows as the pointer goes down, and
    /// the neighbour whose share shrinks: the one below, or above for the
    /// last.
    pub open spec fn stack_pair(self) -> Option<(int, int)> {
        let stack_idx = self.tiled_index - 1;
        let stack_count = self.tiled_count - 1;
        if self.tiled_count > 2 && self.tiled_index > 0 && stack_idx < stack_count
            && self.screen_height > 0 {
            if stack_idx + 1 < stack_count {
                Some((stack_idx, stack_idx + 1))
            } else {
                Some((stack_idx, stack_idx - 1))
            }
        } else {
            None
        }
    }

    /// The shares that the grab started from.
    pub open spec fn base_ratios(self, equal: Single) -> Seq<Single> {
        if self.start_stack_ratios.len() == self.tiled_count - 1 {
            self.start_stack_ratios
        } else {
            Seq::new((self.tiled_count - 1) as nat, |i: int| equal)
        }
    }
}

/// A share of the stack within its bounds.
pub open spec fn bounded_ratio(r: Single) -> Single {
    r.clamped(Single { bits: MIN_RATIO }, Single { bits: MAX_RATIO })
}

/// A share of the master within its bounds.
pub open spec fn bounded_split(r: Single) -> Single {
    r.clamped(Single { bits: MIN_SPLIT }, Single { bits: MAX_SPLIT })
}

impl GrabState {
    pub fn resizes_split(&self) -> (r: bool)
        ensures
            r == self@.moves_split(),
    {
        self.screen_width > 0 && self.tiled_count > 1
    }

    pub fn resizes_stack(&self) -> (r: Option<(usize, usize)>)
        ensures
            match r {
                Some(p) => self@.stack_pair() == Some((p.0 as int, p.1 as int)),
                None => self@.stack_pair() is None,
            },
    {
        if self.tiled_count > 2 && self.tiled_index > 0 {
            let stack_idx: usize = self.tiled_index - 1;
            let stack_count: usize = self.tiled_count - 1;
            if stack_idx < stack_count && self.screen_height > 0 {
                if stack_idx + 1 < stack_count {
                    return Some((stack_idx, stack_idx + 1));
                }
                return Some((stack_idx, stack_idx - 1));
            }
        }
        None
    }

    /// The shares of the stack with the two of `pair` set to `raised` and
    /// `lowered`, within bounds, before they are normalised. `equal` is one
    /// divided by the number of windows in the stack.
    pub fn resized_ratios(
        &self,
        pair: (usize, usize),
        equal: Single,
        raised: Single,
        lowered: Single,
    ) -> (r: Vec<Single>)
        requires
            self@.stack_pair() == Some((pair.0 as int, pair.1 as int)),
        ensures
            r@ == self@.base_ratios(equal).update(pair.0 as int, bounded_ratio(raised)).update(
                pair.1 as int,
                bounded_ratio(lowered),
            ),
    {
        let stack_count: usize = self.tiled_count - 1;
        let keep = self.start_stack_ratios.len() == stack_count;
        let mut ratios: Vec<Single> = Vec::new();
        let mut i: usize = 0;
        while i < stack_count
            invariant
                i <= stack_count,
                stack_count == self.tiled_count - 1,
                keep == (self.start_stack_ratios.len() == stack_count),
                ratios@ == self@.base_ratios(equal).take(i as int),
            decreases stack_count - i,
        {
            if keep {
                ratios.push(self.start_stack_ratios[i]);
            } else {
                ratios.push(equal);
            }
            assert(ratios@ == self@.base_ratios(equal).take(i + 1));
            i = i + 1;
        }
        assert(ratios@ == self@.base_ratios(equal));
        let lo = Single { bits: MIN_RATIO };
        let hi = Single { bits: MAX_RATIO };
        ratios.set(pair.0, raised.clamp(lo, hi));
        ratios.set(pair.1, lowered.clamp(lo, hi));
        ratios
    }
}

impl crate::state::StateView {
    /// Where a window that is dragged along has come to.
    pub open spec fn dragged_to(g: crate::grab::GrabView, dx: int, dy: int) -> (int, int) {
        (g.start_geo.loc.x + dx, g.start_geo.loc.y + dy)
    }

    /// The size that a window is dragged to.
    pub open spec fn resized_to(g: crate::grab::GrabView, dx: int, dy: int) -> (int, int) {
        (
            crate::geometry::larger(g.start_geo.size.w + dx, MIN_FLOATING_SIZE as int),
            crate::geometry::larger(g.start_geo.size.h + dy, MIN_FLOATING_SIZE as int),
        )
    }

    /// The size that is left of a floating window inside its border.
    pub open spec fn inner_size(self, g: crate::grab::GrabView, dx: int, dy: int) -> Size {
        let (w, h) = Self::resized_to(g, dx, dy);
        Size {
            w: crate::geometry::larger(w - 2 * border(self), 1) as i32,
            h: crate::geometry::larger(h - 2 * border(self), 1) as i32,
        }
    }

    /// Whether the coordinates that a motion by `dx`, `dy` leads to can be
    /// represented.
    pub open spec fn motion_fits(self, dx: int, dy: int) -> bool {
        match self.pointer_grab {
            Some(g) => match g.mode {
                GrabMode::FloatingMove => {
                    let (x, y) = Self::dragged_to(g, dx, dy);
                    &&& crate::geometry::fits(x)
                    &&& crate::geometry::fits(y)
                    &&& crate::geometry::fits(x + border(self))
                    &&& crate::geometry::fits(y + border(self))
                },
                GrabMode::FloatingResize => {
                    &&& crate::geometry::fits(g.start_geo.size.w + dx)
                    &&& crate::geometry::fits(g.start_geo.size.h + dy)
                    &&& crate::geometry::fits(2 * border(self))
                },
                _ => true,
            },
            None => true,
        }
    }

    /// The state and the effects once the pointer has moved by `dx`, `dy` from
    /// where the grab started. For the resizing of a tiled window, `split` is
    /// the share that the master would have, `ratios` are the shares of the
    /// stack.
    pub open spec fn pointer_moved(
        self,
        dx: int,
        dy: int,
        split: Single,
        ratios: Seq<Single>,
    ) -> (crate::state::StateView, Seq<Effect>) {
        let here = self.active_workspace as usize;
        let ws = self.active();
        match self.pointer_grab {
            None => (self.redrawn(), seq![]),
            Some(g) => match g.mode {
                GrabMode::FloatingMove => {
                    let (x, y) = Self::dragged_to(g, dx, dy);
                    let moved = if ws.floating_geo.dom().contains(g.window) {
                        crate::workspace::WorkspaceView {
                            floating_geo: ws.floating_geo.insert(
                                g.window,
                                Rect {
                                    loc: Point { x: x as i32, y: y as i32 },
                                    size: ws.floating_geo[g.window].size,
                                },
                            ),
                            ..ws
                        }
                    } else {
                        ws
                    };
                    (
                        self.with_active(moved).redrawn(),
                        seq![
                            Effect::Place {
                                workspace: here,
                                window: g.window,
                                location: Point {
                                    x: (x + border(self)) as i32,
                                    y: (y + border(self)) as i32,
                                },
                            },
                            Effect::Raise { workspace: here, window: g.window, activate: false },
                        ],
                    )
                },
                GrabMode::FloatingResize => {
                    let (w, h) = Self::resized_to(g, dx, dy);
                    let inner = self.inner_size(g, dx, dy);
                    let resized = if ws.floating_geo.dom().contains(g.window) {
                        ws.floating_geo.insert(
                            g.window,
                            Rect {
                                loc: ws.floating_geo[g.window].loc,
                                size: Size { w: w as i32, h: h as i32 },
                            },
                        )
                    } else {
                        ws.floating_geo
                    };
                    let known = ws.configured_sizes.dom().contains(g.window)
                        && ws.configured_sizes[g.window] == inner;
                    let raise = Effect::Raise {
                        workspace: here,
                        window: g.window,
                        activate: false,
                    };
                    let set = Effect::SetSize { window: g.window, size: inner };
                    (
                        self.with_active(
                            crate::workspace::WorkspaceView {
                                floating_geo: resized,
                                configured_sizes: if known {
                                    ws.configured_sizes
                                } else {
                                    ws.configured_sizes.insert(g.window, inner)
                                },
                                ..ws
                            },
                        ).redrawn(),
                        if known {
                            seq![set, raise]
                        } else {
                            seq![set, Effect::Configure(g.window), raise]
                        },
                    )
                },
                GrabMode::TiledMove => (self.redrawn(), seq![]),
                GrabMode::TiledResize => (
                    self.with_active(
                        crate::workspace::WorkspaceView {
                            split_ratio: if g.moves_split() {
                                bounded_split(split)
                            } else {
                                ws.split_ratio
                            },
                            stack_ratios: if g.stack_pair() is Some {
                                ratios
                            } else {
                                ws.stack_ratios
                            },
                            ..ws
                        },
                    ).redrawn(),
                    seq![Effect::Retile(here)],
                ),
            },
        }
    }

    /// The state and the effects once a held window was let go over
    /// `drop_target`: a tiled window changes places with a tiled one.
    pub open spec fn grab_released(self, drop_target: Option<u64>) -> (
        crate::state::StateView,
        Seq<Effect>,
    ) {
        let free = crate::state::StateView { pointer_grab: None, ..self };
        let ws = self.active();
        match self.pointer_grab {
            None => (self, seq![]),
            Some(g) => match g.mode {
                GrabMode::TiledMove => match drop_target {
                    None => (free.redrawn(), seq![]),
                    Some(target) => {
                        let a = crate::workspace::place_of(ws.windows, g.window);
                        let b = crate::workspace::place_of(ws.windows, target);
                        if target != g.window && !ws.floating.contains(target)
                            && !ws.floating.contains(g.window) && a is Some && b is Some {
                            let (s, effects) = free.windows_swapped(a->0, b->0);
                            (s.redrawn(), effects)
                        } else {
                            (free.redrawn(), seq![])
                        }
                    },
                },
                GrabMode::TiledResize | GrabMode::FloatingResize => (
                    free.redrawn(),
                    seq![Effect::Retile(self.active_workspace as usize)],
                ),
                GrabMode::FloatingMove => (free.redrawn(), seq![]),
            },
        }
    }

    /// What a grab of a floating window starts from.
    pub open spec fn floating_grab(self, mode: GrabMode, window: u64, p: Press) -> crate::grab::GrabView {
        let ws = self.active();
        crate::grab::GrabView {
            mode,
            window,
            start_pointer: p.at,
            start_geo: if ws.floating_geo.dom().contains(window) {
                ws.floating_geo[window]
            } else {
                WindowGeometry { pending: None, ..p.geometry }.rect_or(
                    Point { x: 100, y: 100 },
                    Size { w: 640, h: 480 },
                )
            },
            start_split_ratio: Single { bits: crate::workspace::HALF32 },
            start_stack_ratios: Seq::empty(),
            screen_width: 0,
            screen_height: 0,
            tiled_index: 0,
            tiled_count: 0,
        }
    }

    /// What a grab of a tiled window starts from.
    pub open spec fn tiled_grab(
        self,
        mode: GrabMode,
        window: u64,
        at: Position,
        geometry: WindowGeometry,
        screen: Size,
    ) -> crate::grab::GrabView {
        let ws = self.active();
        crate::grab::GrabView {
            mode,
            window,
            start_pointer: at,
            start_geo: geometry.rect_or(Point { x: 0, y: 0 }, Size { w: 640, h: 480 }),
            start_split_ratio: ws.split_ratio,
            start_stack_ratios: ws.stack_ratios,
            screen_width: screen.w,
            screen_height: screen.h,
            tiled_index: match crate::workspace::place_of(ws.tiled(), window) {
                Some(i) => i,
                None => 0,
            },
            tiled_count: ws.tiled().len() as int,
        }
    }

    /// The state and the effects once a button was clicked, which may change
    /// the focus. While a layer surface has it, only a click outside all layer
    /// surfaces does; a popup is closed by it.
    pub open spec fn clicked(self, p: Press) -> (crate::state::StateView, Seq<Effect>) {
        if self.layer_focused() {
            match p.under {
                None => (self, seq![]),
                Some(c) => if self.layers.contains(c.root) {
                    (self, seq![])
                } else {
                    let close = if p.focused_popup {
                        seq![Effect::CloseLayer(self.focus->0)]
                    } else {
                        seq![]
                    };
                    let dropped = self.focus_dropped();
                    match p.hit {
                        Some(window) => {
                            let (s, effects) = dropped.focused(window);
                            (s, close + seq![self.focus_dropped_effect()] + effects)
                        },
                        None => (dropped, close + seq![self.focus_dropped_effect()]),
                    }
                },
            }
        } else {
            match p.hit {
                Some(window) => self.focused(window),
                None => match p.under {
                    Some(c) => if c.interactive && self.focus != Some(c.root) {
                        (
                            crate::state::StateView { focus: Some(c.root), ..self },
                            seq![Effect::SetFocus(Some(c.root))],
                        )
                    } else {
                        (self, seq![])
                    },
                    None => (self, seq![]),
                },
            }
        }
    }

    /// Which grab a press starts.
    pub open spec fn press_mode(self, p: Press) -> Option<GrabMode> {
        if p.super_held && p.hit is Some {
            grab_mode(p.button, self.active().floating.contains(p.hit->0))
        } else {
            None
        }
    }

    /// The state, the effects and the outcome of a press.
    pub open spec fn pressed(self, p: Press) -> (crate::state::StateView, Seq<Effect>, PressOutcome) {
        match self.press_mode(p) {
            Some(mode) => {
                let (s, effects) = self.focused(p.hit->0);
                if self.active().floating.contains(p.hit->0) {
                    (
                        crate::state::StateView {
                            pointer_grab: Some(self.floating_grab(mode, p.hit->0, p)),
                            ..s
                        },
                        effects,
                        PressOutcome::Grabbed,
                    )
                } else {
                    (s, effects, PressOutcome::TiledGrab(mode))
                }
            },
            None => {
                let (s, effects) = self.clicked(p);
                (s, effects, PressOutcome::Clicked)
            },
        }
    }
}

/// The pointer within the screen, whose far corner `limit` is, where it is
/// known.
pub fn clamp_pointer(at: Position, limit: Option<Position>) -> (r: Position)
    requires
        limit is Some ==> (Double { bits: ZERO64 }).at_most(limit->0.x) && (Double {
            bits: ZERO64,
        }).at_most(limit->0.y),
    ensures
        match limit {
            Some(far) => r.x == at.x.clamped(Double { bits: ZERO64 }, far.x) && r.y
                == at.y.clamped(Double { bits: ZERO64 }, far.y),
            None => r == at,
        },
{
    let zero = Double { bits: ZERO64 };
    match limit {
        Some(far) => Position { x: at.x.clamp(zero, far.x), y: at.y.clamp(zero, far.y) },
        None => at,
    }
}

impl State {
    /// Whether the coordinates that a motion leads to can be represented.
    pub fn motion_in_range(&self, dx: i32, dy: i32) -> (r: bool)
        ensures
            r == self@.motion_fits(dx as int, dy as int),
    {
        let bw: i128 = max_i32(self.config.border_width, 0) as i128;
        match &self.pointer_grab {
            Some(g) => match g.mode {
                GrabMode::FloatingMove => {
                    let x: i128 = g.start_geo.loc.x as i128 + dx as i128;
                    let y: i128 = g.start_geo.loc.y as i128 + dy as i128;
                    is_i32(x) && is_i32(y) && is_i32(x + bw) && is_i32(y + bw)
                },
                GrabMode::FloatingResize => is_i32(g.start_geo.size.w as i128 + dx as i128)
                    && is_i32(g.start_geo.size.h as i128 + dy as i128) && is_i32(2 * bw),
                _ => true,
            },
            None => true,
        }
    }

    /// The pointer has moved. See `StateView::pointer_moved`.
    pub fn pointer_motion(&mut self, dx: i32, dy: i32, split: Single, ratios: Vec<Single>) -> (r: Vec<
        Effect,
    >)
        requires
            old(self)@.wf(),
            old(self)@.motion_fits(dx as int, dy as int),
        ensures
            final(self)@ == old(self)@.pointer_moved(dx as int, dy as int, split, ratios@).0,
            r@ == old(self)@.pointer_moved(dx as int, dy as int, split, ratios@).1,
    {
        let here: usize = self.active_workspace;
        let bw: i32 = max_i32(self.config.border_width, 0);
        let (mode, window, start, moves_split, moves_stack) = match &self.pointer_grab {
            None => {
                self.needs_redraw = true;
                return Vec::new();
            },
            Some(g) => (
                g.mode,
                g.window,
                g.start_geo,
                g.resizes_split(),
                g.resizes_stack().is_some(),
            ),
        };
        let mut effects: Vec<Effect> = Vec::new();
        match mode {
            GrabMode::FloatingMove => {
                let x: i32 = start.loc.x + dx;
                let y: i32 = start.loc.y + dy;
                let ws = &mut self.workspaces[here];
                let known = match ws.floating_geo.get(&window) {
                    Some(geo) => Some(*geo),
                    None => None,
                };
                if let Some(geo) = known {
                    ws.floating_geo.insert(window, Rect { loc: Point { x, y }, size: geo.size });
                }
                effects.push(
                    Effect::Place {
                        workspace: here,
                        window,
                        location: Point { x: x + bw, y: y + bw },
                    },
                );
                effects.push(Effect::Raise { workspace: here, window, activate: false });
            },
            GrabMode::FloatingResize => {
                let w: i32 = max_i32(start.size.w + dx, MIN_FLOATING_SIZE);
                let h: i32 = max_i32(start.size.h + dy, MIN_FLOATING_SIZE);
                let ws = &mut self.workspaces[here];
                let known = match ws.floating_geo.get(&window) {
                    Some(geo) => Some(*geo),
                    None => None,
                };
                if let Some(geo) = known {
                    ws.floating_geo.insert(window, Rect { loc: geo.loc, size: Size { w, h } });
                }
                let inner = Size { w: max_i32(w - 2 * bw, 1), h: max_i32(h - 2 * bw, 1) };
                effects.push(Effect::SetSize { window, size: inner });
                let same = match ws.configured_sizes.get(&window) {
                    Some(size) => *size == inner,
                    None => false,
                };
                if !same {
                    effects.push(Effect::Configure(window));
                    ws.configured_sizes.insert(window, inner);
                }
                effects.push(Effect::Raise { workspace: here, window, activate: false });
            },
            GrabMode::TiledMove => {},
            GrabMode::TiledResize => {
                let ws = &mut self.workspaces[here];
                if moves_split {
                    ws.split_ratio = split.clamp(
                        Single { bits: MIN_SPLIT },
                        Single { bits: MAX_SPLIT },
                    );
                }
                if moves_stack {
                    ws.stack_ratios = ratios;
                }
                effects.push(Effect::Retile(here));
            },
        }
        self.needs_redraw = true;
        assert(self@.workspaces == old(self)@.pointer_moved(
            dx as int,
            dy as int,
            split,
            ratios@,
        ).0.workspaces);
        effects
    }

    /// A button has been let go; `drop_target` is the window at the pointer.
    pub fn release_grab(&mut self, drop_target: Option<u64>) -> (r: Vec<Effect>)
        requires
            old(self)@.wf(),
        ensures
            final(self)@ == old(self)@.grab_released(drop_target).0,
            r@ == old(self)@.grab_released(drop_target).1,
    {
        let grab = match self.pointer_grab.take() {
            Some(g) => g,
            None => {
                return Vec::new();
            },
        };
        let here: usize = self.active_workspace;
        let mut effects: Vec<Effect> = Vec::new();
        match grab.mode {
            GrabMode::TiledMove => {
                if let Some(target) = drop_target {
                    let ws = &self.workspaces[here];
                    if target != grab.window && !ws.floating.contains(&target)
                        && !ws.floating.contains(&grab.window) {
                        let a = position(&ws.windows, grab.window);
                        let b = position(&ws.windows, target);
                        if let Some(i) = a {
                            if let Some(j) = b {
                                effects = self.swap_windows(i, j);
                            }
                        }
                    }
                }
            },
            GrabMode::TiledResize | GrabMode::FloatingResize => {
                effects.push(Effect::Retile(here));
            },
            GrabMode::FloatingMove => {},
        }
        self.needs_redraw = true;
        effects
    }

    /// Changes the focus as a click asks for it.
    pub fn click(&mut self, p: Press) -> (r: Vec<Effect>)
        requires
            old(self)@.wf(),
        ensures
            final(self)@ == old(self)@.clicked(p).0,
            r@ == old(self)@.clicked(p).1,
    {
        let mut effects: Vec<Effect> = Vec::new();
        if self.layer_has_keyboard_focus() {
            if let Some(c) = p.under {
                if !self.layer_surface_of(c.root) {
                    if p.focused_popup {
                        if let Some(focused) = self.focus {
                            effects.push(Effect::CloseLayer(focused));
                        }
                    }
                    effects.push(self.drop_focus_to_active_window());
                    if let Some(window) = p.hit {
                        let mut more = self.focus_window(window);
                        effects.append(&mut more);
                    }
                }
            }
        } else if let Some(window) = p.hit {
            effects = self.focus_window(window);
        } else if let Some(c) = p.under {
            if c.interactive {
                let has_it = match self.focus {
                    Some(f) => f == c.root,
                    None => false,
                };
                if !has_it {
                    self.focus = Some(c.root);
                    effects.push(Effect::SetFocus(Some(c.root)));
                }
            }
        }
        effects
    }

    /// A button has been pressed.
    pub fn press(&mut self, p: Press) -> (r: (Vec<Effect>, PressOutcome))
        requires
            old(self)@.wf(),
        ensures
            final(self)@ == old(self)@.pressed(p).0,
            r.0@ == old(self)@.pressed(p).1,
            r.1 == old(self)@.pressed(p).2,
    {
        let here: usize = self.active_workspace;
        if p.super_held {
            if let Some(window) = p.hit {
                let is_floating = self.workspaces[here].floating.contains(&window);
                if let Some(mode) = mode_of(p.button, is_floating) {
                    let effects = self.focus_window(window);
                    if !is_floating {
                        return (effects, PressOutcome::TiledGrab(mode));
                    }
                    let shown = WindowGeometry {
                        location: p.geometry.location,
                        size: p.geometry.size,
                        pending: None,
                    };
                    let geo = match self.workspaces[here].floating_geo.get(&window) {
                        Some(geo) => *geo,
                        None => shown.rect(Point { x: 100, y: 100 }, Size { w: 640, h: 480 }),
                    };
                    self.pointer_grab = Some(
                        GrabState {
                            mode,
                            window,
                            start_pointer: p.at,
                            start_geo: geo,
                            start_split_ratio: Single { bits: HALF32 },
                            start_stack_ratios: Vec::new(),
                            screen_width: 0,
                            screen_height: 0,
                            tiled_index: 0,
                            tiled_count: 0,
                        },
                    );
                    assert(self@.pointer_grab->0 == old(self)@.floating_grab(mode, window, p));
                    return (effects, PressOutcome::Grabbed);
                }
            }
        }
        (self.click(p), PressOutcome::Clicked)
    }

    /// Takes hold of a tiled window. The shares of the stack have been brought
    /// in line and normalised before.
    pub fn start_tiled_grab(
        &mut self,
        mode: GrabMode,
        window: u64,
        at: Position,
        geometry: WindowGeometry,
        screen: Size,
    )
        requires
            old(self)@.wf(),
        ensures
            final(self)@ == (crate::state::StateView {
                pointer_grab: Some(
                    old(self)@.tiled_grab(mode, window, at, geometry, screen),
                ),
                ..old(self)@
            }),
    {
        let here: usize = self.active_workspace;
        let tiled = self.workspaces[here].tiled_windows();
        let tiled_index: usize = match position(&tiled, window) {
            Some(i) => i,
            None => 0,
        };
        let start_stack_ratios = copy_ratios(&self.workspaces[here].stack_ratios);
        self.pointer_grab = Some(
            GrabState {
                mode,
                window,
                start_pointer: at,
                start_geo: geometry.rect(Point { x: 0, y: 0 }, Size { w: 640, h: 480 }),
                start_split_ratio: self.workspaces[here].split_ratio,
                start_stack_ratios,
                screen_width: screen.w,
                screen_height: screen.h,
                tiled_index,
                tiled_count: tiled.len(),
            },
        );
        assert(self@.pointer_grab->0 == old(self)@.tiled_grab(mode, window, at, geometry, screen));
    }

    /// The window at the pointer: the one that the display finds there, or the
    /// first whose frame with its border lies there.
    ///
    /// `frames` tells of each window of the active workspace where it is shown
    /// and how large it is.
    pub fn hit_test_window(
        &self,
        under: Option<u64>,
        frames: &Vec<Option<WindowGeometry>>,
        cell: Cell,
    ) -> (r: Option<u64>)
        requires
            self@.wf(),
            frames@.len() == self@.active().windows.len(),
        ensures
            match under {
                Some(w) => r == Some(w),
                None => match first_frame(frames@, cell, border(self@)) {
                    Some(i) => r == Some(self@.active().windows[i]),
                    None => r is None,
                },
            },
    {
        if let Some(w) = under {
            return Some(w);
        }
        let bw: i32 = max_i32(self.config.border_width, 0);
        proof {
            first_frame_is_first(frames@, cell, bw as int);
        }
        let mut i: usize = 0;
        while i < frames.len()
            invariant
                i <= frames.len(),
                under is None,
                self@.wf(),
                frames@.len() == self@.active().windows.len(),
                bw == border(self@),
                forall|j: int| 0 <= j < i ==> !#[trigger] framed(frames@[j], cell, bw as int),
                match first_frame(frames@, cell, bw as int) {
                    Some(k) => 0 <= k < frames@.len() && framed(frames@[k], cell, bw as int)
                        && forall|j: int|
                        0 <= j < k ==> !#[trigger] framed(frames@[j], cell, bw as int),
                    None => forall|j: int|
                        0 <= j < frames@.len() ==> !#[trigger] framed(frames@[j], cell, bw as int),
                },
            decreases frames.len() - i,
        {
            if in_frame(frames[i], cell, bw) {
                return Some(self.workspaces[self.active_workspace].windows[i]);
            }
            i = i + 1;
        }
        None
    }
}

/// A copy of a list of shares.
pub fn copy_ratios(list: &Vec<Single>) -> (r: Vec<Single>)
    ensures
        r@ == list@,
{
    let mut out: Vec<Single> = Vec::new();
    let mut i: usize = 0;
    while i < list.len()
        invariant
            i <= list.len(),
            out@ == list@.take(i as int),
        decreases list.len() - i,
    {
        out.push(list[i]);
        assert(list@.take(i + 1) == list@.take(i as int).push(list@[i as int]));
        i = i + 1;
    }
    assert(list@.take(list@.len() as int) == list@);
    out
}

/// The whole pixels around a place on the screen. The place is at or right of
/// a pixel column if the floor of its coordinate is, and at or left of one if
/// the ceiling is.
#[derive(Clone, Copy, Debug, PartialEq, Eq, Structural)]
pub struct Cell {
    pub floor_x: i64,
    pub ceil_x: i64,
    pub floor_y: i64,
    pub ceil_y: i64,
}

/// Whether a place lies in the frame of a window, border and edges included.
pub open spec fn framed(frame: Option<WindowGeometry>, cell: Cell, bw: int) -> bool {
    match frame {
        Some(g) => match g.location {
            Some(loc) => {
                let size = match crate::state::current_size(g.size, g.pending) {
                    Some(s) => s,
                    None => Size { w: 0, h: 0 },
                };
                &&& loc.x - bw <= cell.floor_x
                &&& cell.ceil_x <= loc.x + size.w + bw
                &&& loc.y - bw <= cell.floor_y
                &&& cell.ceil_y <= loc.y + size.h + bw
            },
            None => false,
        },
        None => false,
    }
}

fn in_frame(frame: Option<WindowGeometry>, cell: Cell, bw: i32) -> (r: bool)
    requires
        bw >= 0,
    ensures
        r == framed(frame, cell, bw as int),
{
    match frame {
        Some(g) => match g.location {
            Some(loc) => {
                let size = match window_current_size(g.size, g.pending) {
                    Some(s) => s,
                    None => Size { w: 0, h: 0 },
                };
                let b: i64 = bw as i64;
                let rx: i64 = loc.x as i64 - b;
                let ry: i64 = loc.y as i64 - b;
                let rw: i64 = size.w as i64 + 2 * b;
                let rh: i64 = size.h as i64 + 2 * b;
                rx <= cell.floor_x && cell.ceil_x <= rx + rw && ry <= cell.floor_y && cell.ceil_y
                    <= ry + rh
            },
            None => false,
        },
        None => false,
    }
}

/// The first frame that a place lies in.
pub open spec fn first_frame(frames: Seq<Option<WindowGeometry>>, cell: Cell, bw: int) -> Option<
    int,
>
    decreases frames.len(),
{
    if frames.len() == 0 {
        None
    } else if framed(frames[0], cell, bw) {
        Some(0)
    } else {
        match first_frame(frames.drop_first(), cell, bw) {
            Some(i) => Some(i + 1),
            None => None,
        }
    }
}

/// A frame that was found holds the place, and no earlier one does; where none
/// was found, none does.
pub proof fn first_frame_is_first(frames: Seq<Option<WindowGeometry>>, cell: Cell, bw: int)
    ensures
        match first_frame(frames, cell, bw) {
            Some(i) => 0 <= i < frames.len() && framed(frames[i], cell, bw) && forall|j: int|
                0 <= j < i ==> !#[trigger] framed(frames[j], cell, bw),
            None => forall|j: int|
                0 <= j < frames.len() ==> !#[trigger] framed(frames[j], cell, bw),
        },
    decreases frames.len(),
{
    if frames.len() > 0 && !framed(frames[0], cell, bw) {
        let rest = frames.drop_first();
        first_frame_is_first(rest, cell, bw);
        let end = match first_frame(rest, cell, bw) {
            Some(i) => i + 1,
            None => frames.len() as int,
        };
        assert forall|j: int| 0 <= j < end implies !#[trigger] framed(frames[j], cell, bw) by {
            if j > 0 {
                assert(!framed(rest[j - 1], cell, bw));
            }
        }
    }
}

/// Whether the size that is left to windows can be computed.
pub open spec fn dimensions_fit(output: Size, zone: Size, outer: int) -> bool {
    &&& crate::geometry::fits(2 * outer)
    &&& crate::geometry::fits(crate::geometry::smaller(zone.w as int, output.w as int) - 2 * outer)
    &&& crate::geometry::fits(crate::geometry::smaller(zone.h as int, output.h as int) - 2 * outer)
}

/// The size that is left to windows on an output, inside the outer gaps; one
/// pixel at least.
pub fn usable_screen_dimensions(output: Size, zone: Size, outer: i32) -> (r: Size)
    requires
        dimensions_fit(output, zone, outer as int),
    ensures
        r.w == crate::geometry::larger(
            crate::geometry::smaller(zone.w as int, output.w as int) - 2 * outer,
            1,
        ),
        r.h == crate::geometry::larger(
            crate::geometry::smaller(zone.h as int, output.h as int) - 2 * outer,
            1,
        ),
{
    Size {
        w: max_i32(min_i32(zone.w, output.w) - 2 * outer, 1),
        h: max_i32(min_i32(zone.h, output.h) - 2 * outer, 1),
    }
}

/// A surface at the pointer, at `offset` within something at `base`.
#[derive(Clone, Copy, Debug, PartialEq, Eq, Structural)]
pub struct Candidate {
    pub surface: u64,
    pub offset: Point,
    pub base: Point,
}

impl Candidate {
    pub open spec fn representable(self) -> bool {
        &&& crate::geometry::fits(self.offset.x + self.base.x)
        &&& crate::geometry::fits(self.offset.y + self.base.y)
    }
}

/// The surface at the pointer and where it is: one on the layers above the
/// windows, or else one of a window, or else one on the layers below.
pub fn surface_under_pointer(
    above: Option<Candidate>,
    window: Option<Candidate>,
    below: Option<Candidate>,
) -> (r: Option<(u64, Point)>)
    requires
        above is Some ==> above->0.representable(),
        window is Some ==> window->0.representable(),
        below is Some ==> below->0.representable(),
    ensures
        ({
            let found = if above is Some {
                above
            } else if window is Some {
                window
            } else {
                below
            };
            match found {
                Some(c) => match r {
                    Some((surface, origin)) => surface == c.surface && origin.x == c.offset.x
                        + c.base.x && origin.y == c.offset.y + c.base.y,
                    None => false,
                },
                None => r is None,
            }
        }),
{
    let found = if above.is_some() {
        above
    } else if window.is_some() {
        window
    } else {
        below
    };
    match found {
        Some(c) => Some(
            (c.surface, Point { x: c.offset.x + c.base.x, y: c.offset.y + c.base.y }),
        ),
        None => None,
    }
}

} // verus!
