//! The state of the compositor and the operations on it.
//!
//! Each operation changes the state and returns the effects that are to be
//! carried out on the display, in order.
use crate::animation::DyingWindow;
use crate::bits::{Single, ONE32};
use crate::config::Config;
use crate::geometry::{Point, Rect, Size};
use crate::grab::{self, GrabState};
use crate::swipe::GestureSwipeState;
use crate::transition::WorkspaceTransition;
use crate::workspace::{position, LayoutType, Workspace};
use vstd::prelude::*;

verus! {

/// Something to be done on the display. A window and a layer surface go by
/// the number of their surface, a workspace by its place.
#[derive(Clone, Copy, Debug, PartialEq, Eq, Structural)]
pub enum Effect {
    /// Give the keyboard to a surface, or to none.
    SetFocus(Option<u64>),
    /// Bring a window to the top of its workspace.
    Raise { workspace: usize, window: u64, activate: bool },
    /// Show a window of a workspace at a location.
    Place { workspace: usize, window: u64, location: Point },
    /// Show a window no longer.
    Unmap { workspace: usize, window: u64 },
    /// Note the size that a window is to take.
    SetSize { window: u64, size: Size },
    /// Send a window what has been noted for it.
    Configure(u64),
    /// Tell a window that the compositor draws its frame.
    DecorateOnServer(u64),
    /// Let a window take note of its new content.
    CommitWindow(u64),
    /// Ask a window to close.
    CloseWindow(u64),
    /// Ask a layer surface to close.
    CloseLayer(u64),
    /// Arrange the windows of a workspace anew.
    Retile(usize),
    /// Send out what waits to be sent to the clients.
    FlushClients,
    /// Tell the status bar about the workspaces.
    BroadcastWorkspaces,
    /// Tell the status bar about the opacity.
    BroadcastOpacity,
}

/// What the display knows of the place and size of a window.
#[derive(Clone, Copy, Debug, PartialEq, Eq, Structural)]
pub struct WindowGeometry {
    pub location: Option<Point>,
    pub size: Size,
    pub pending: Option<Size>,
}

/// The size of a window: what it shows, or else what it was last asked for.
pub open spec fn current_size(size: Size, pending: Option<Size>) -> Option<Size> {
    if size.w > 0 && size.h > 0 {
        Some(size)
    } else {
        pending
    }
}

pub fn window_current_size(size: Size, pending: Option<Size>) -> (r: Option<Size>)
    ensures
        r == current_size(size, pending),
{
    if size.w > 0 && size.h > 0 {
        return Some(size);
    }
    pending
}

impl WindowGeometry {
    /// The rectangle of the window, with defaults for what is not known.
    pub open spec fn rect_or(self, loc: Point, size: Size) -> Rect {
        Rect {
            loc: match self.location {
                Some(l) => l,
                None => loc,
            },
            size: match current_size(self.size, self.pending) {
                Some(s) => s,
                None => size,
            },
        }
    }

    pub fn rect(&self, loc: Point, size: Size) -> (r: Rect)
        ensures
            r == self.rect_or(loc, size),
    {
        Rect {
            loc: match self.location {
                Some(l) => l,
                None => loc,
            },
            size: match window_current_size(self.size, self.pending) {
                Some(s) => s,
                None => size,
            },
        }
    }
}

/// What the on-screen display tells of.
#[derive(Clone, Copy, Debug, PartialEq, Eq, Structural)]
pub enum OsdKind {
    Volume,
    Brightness,
}

/// What the on-screen display shows: a level between zero and one.
#[derive(Clone, Copy, Debug, PartialEq, Eq, Structural)]
pub struct Osd {
    pub kind: OsdKind,
    pub level: Single,
    pub muted: bool,
}

/// The compositor. `focus` is the surface that has the keyboard, `layers` are
/// the layer surfaces on the output.
#[derive(Debug)]
pub struct State {
    pub workspaces: Vec<Workspace>,
    pub active_workspace: usize,
    pub config: Config,
    pub focus: Option<u64>,
    pub layers: Vec<u64>,
    pub needs_redraw: bool,
    pub pointer_grab: Option<GrabState>,
    pub gesture_swipe: GestureSwipeState,
    pub gesture_start_time: u64,
    pub gesture_pending_switch: Option<usize>,
    pub workspace_transition: WorkspaceTransition,
    pub window_opacity: Single,
    pub osd: Option<Osd>,
}

#[verifier::ext_equal]
pub ghost struct StateView {
    pub workspaces: Seq<crate::workspace::WorkspaceView>,
    pub active_workspace: int,
    pub config: crate::config::ConfigView,
    pub focus: Option<u64>,
    pub layers: Seq<u64>,
    pub needs_redraw: bool,
    pub pointer_grab: Option<crate::grab::GrabView>,
    pub gesture_swipe: GestureSwipeState,
    pub gesture_start_time: u64,
    pub gesture_pending_switch: Option<usize>,
    pub workspace_transition: WorkspaceTransition,
    pub window_opacity: Single,
    pub osd: Option<Osd>,
}

/// What the workspaces of a list hold.
pub open spec fn workspace_views(list: Seq<Workspace>) -> Seq<crate::workspace::WorkspaceView> {
    list.map_values(|w: Workspace| w@)
}

impl View for State {
    type V = StateView;

    open spec fn view(&self) -> StateView {
        StateView {
            workspaces: workspace_views(self.workspaces@),
            active_workspace: self.active_workspace as int,
            config: self.config@,
            focus: self.focus,
            layers: self.layers@,
            needs_redraw: self.needs_redraw,
            pointer_grab: grab::grab_view(self.pointer_grab),
            gesture_swipe: self.gesture_swipe,
            gesture_start_time: self.gesture_start_time,
            gesture_pending_switch: self.gesture_pending_switch,
            workspace_transition: self.workspace_transition,
            window_opacity: self.window_opacity,
            osd: self.osd,
        }
    }
}

/// One rearrangement for each of the first `n` workspaces.
pub open spec fn retile_all(n: nat) -> Seq<Effect> {
    Seq::new(n, |i: int| Effect::Retile(i as usize))
}

/// One rearrangement for each of the first `n` workspaces, added to a list.
pub fn push_retile_all(effects: &mut Vec<Effect>, n: usize)
    ensures
        final(effects)@ == old(effects)@ + retile_all(n as nat),
{
    let mut i: usize = 0;
    while i < n
        invariant
            i <= n,
            effects@ == old(effects)@ + retile_all(i as nat),
        decreases n - i,
    {
        effects.push(Effect::Retile(i));
        assert(retile_all((i + 1) as nat) == retile_all(i as nat).push(Effect::Retile(i)));
        i = i + 1;
    }
}

impl StateView {
    /// There is an active workspace, a swipe starts from a workspace and leads
    /// to one, a transition goes from one to another, and the screen that a
    /// swipe drags along has a width.
    pub open spec fn wf(self) -> bool {
        &&& 0 <= self.active_workspace < self.workspaces.len()
        &&& self.gesture_swipe.origin_workspace < self.workspaces.len()
        &&& self.gesture_pending_switch is Some ==> self.gesture_pending_switch->0
            < self.workspaces.len()
        &&& self.workspace_transition.from_workspace < self.workspaces.len()
        &&& self.workspace_transition.to_workspace < self.workspaces.len()
        &&& (crate::bits::Double { bits: crate::bits::ZERO64 }).at_most(
            self.gesture_swipe.screen_width,
        )
        &&& self.workspaces.len() <= usize::MAX
    }

    pub open spec fn active(self) -> crate::workspace::WorkspaceView {
        self.workspaces[self.active_workspace]
    }

    pub open spec fn with_active(self, ws: crate::workspace::WorkspaceView) -> StateView {
        StateView { workspaces: self.workspaces.update(self.active_workspace, ws), ..self }
    }

    pub open spec fn redrawn(self) -> StateView {
        StateView { needs_redraw: true, ..self }
    }

    /// Whether a layer surface has the keyboard.
    pub open spec fn layer_focused(self) -> bool {
        self.focus is Some && self.layers.contains(self.focus->0)
    }

    /// The place of the focused window on the active workspace.
    pub open spec fn focused_place(self) -> Option<int> {
        match self.focus {
            Some(f) => crate::workspace::place_of(self.active().windows, f),
            None => None,
        }
    }

    /// The state and the effects once a window was asked to be focused.
    pub open spec fn focused(self, window: u64) -> (StateView, Seq<Effect>) {
        if self.layer_focused() {
            (self, seq![])
        } else {
            let raise = Effect::Raise {
                workspace: self.active_workspace as usize,
                window,
                activate: true,
            };
            let s = StateView { focus: Some(window), ..self };
            if self.active().layout == LayoutType::Monocle {
                (
                    s.redrawn(),
                    seq![
                        raise,
                        Effect::SetFocus(Some(window)),
                        Effect::Retile(self.active_workspace as usize),
                    ],
                )
            } else {
                (s, seq![raise, Effect::SetFocus(Some(window))])
            }
        }
    }

    /// The state once the focus has gone to the last window of the active
    /// workspace.
    pub open spec fn focus_dropped(self) -> StateView {
        StateView { focus: self.active().last_window(), ..self }
    }

    pub open spec fn focus_dropped_effect(self) -> Effect {
        Effect::SetFocus(self.active().last_window())
    }

    /// The state and the effects once the focused surface was closed.
    pub open spec fn focus_closed(
        self,
        geometry: WindowGeometry,
        now: u64,
    ) -> (StateView, Seq<Effect>) {
        if self.focus is None {
            (self, seq![])
        } else if self.layer_focused() {
            (
                self.focus_dropped().redrawn(),
                seq![Effect::CloseLayer(self.focus->0), self.focus_dropped_effect()],
            )
        } else {
            match self.focused_place() {
                None => (self, seq![]),
                Some(place) => {
                    let window = self.focus->0;
                    let rect = geometry.rect_or(Point { x: 0, y: 0 }, Size { w: 100, h: 100 });
                    let dying = DyingWindow {
                        window,
                        destroy_time: now,
                        last_location: rect.loc,
                        last_size: rect.size,
                    };
                    let ws = crate::workspace::WorkspaceView {
                        dying_windows: self.active().dying_windows.push(dying),
                        ..self.active().removed(place)
                    };
                    let s = self.with_active(ws);
                    let here = self.active_workspace as usize;
                    (
                        s.focus_dropped().redrawn(),
                        seq![
                            Effect::CloseWindow(window),
                            Effect::Unmap { workspace: here, window },
                            s.focus_dropped_effect(),
                            Effect::Retile(here),
                        ],
                    )
                },
            }
        }
    }

    /// The place of the window that is `delta` windows further, around the
    /// end; the first where the focus is on none of them.
    pub open spec fn relative_place(self, delta: int) -> int {
        match self.focused_place() {
            Some(i) => (i + delta) % (self.active().windows.len() as int),
            None => 0,
        }
    }

    /// The state and the effects once the focus has moved on by `delta`.
    pub open spec fn focus_moved(self, delta: int) -> (StateView, Seq<Effect>) {
        if self.layer_focused() || self.active().windows.len() == 0 {
            (self, seq![])
        } else {
            let (s, effects) = self.focused(self.active().windows[self.relative_place(delta)]);
            (s.redrawn(), effects)
        }
    }

    /// Whether a window is fading in or out on any workspace.
    pub open spec fn animating(self, now: u64) -> bool {
        exists|k: int| 0 <= k < self.workspaces.len() && #[trigger] self.workspaces[k].animating(now)
    }

    /// The state and the effects once the focused window has changed between
    /// tiled and floating.
    pub open spec fn floating_toggled(self, geometry: WindowGeometry) -> (
        StateView,
        Seq<Effect>,
    ) {
        if self.layer_focused() || self.focused_place() is None {
            (self, seq![])
        } else {
            let window = self.focus->0;
            let here = self.active_workspace as usize;
            let ws = if self.active().floating.contains(window) {
                self.active().sunk(window)
            } else {
                self.active().floated(
                    window,
                    geometry.rect_or(Point { x: 100, y: 100 }, Size { w: 640, h: 480 }),
                )
            };
            (
                self.with_active(ws).redrawn(),
                seq![
                    Effect::Raise { workspace: here, window, activate: true },
                    Effect::Retile(here),
                ],
            )
        }
    }

    /// The state and the effects once a window was made sure to float.
    pub open spec fn floating_ensured(self, window: u64, geometry: WindowGeometry) -> (
        StateView,
        Seq<Effect>,
    ) {
        if self.active().floating.contains(window) {
            (self, seq![])
        } else {
            let rect = geometry.rect_or(Point { x: 100, y: 100 }, Size { w: 640, h: 480 });
            (
                self.with_active(self.active().floated(window, rect)),
                seq![Effect::Retile(self.active_workspace as usize)],
            )
        }
    }

    /// The state and the effects once two windows were asked to change places.
    pub open spec fn windows_swapped(self, a: int, b: int) -> (StateView, Seq<Effect>) {
        if a == b || a >= self.active().windows.len() || b >= self.active().windows.len() {
            (self, seq![])
        } else {
            (
                self.with_active(self.active().swapped(a, b)).redrawn(),
                seq![Effect::Retile(self.active_workspace as usize)],
            )
        }
    }

    /// The state and the effects once a workspace was asked for.
    pub open spec fn workspace_switched(self, idx: usize, now: u64) -> (StateView, Seq<Effect>) {
        if idx >= self.workspaces.len() || idx == self.active_workspace {
            (self, seq![])
        } else {
            let s = StateView {
                workspace_transition: self.workspace_transition.begun(
                    self.active_workspace as usize,
                    idx,
                    now,
                ),
                active_workspace: idx as int,
                ..self
            };
            (
                s.focus_dropped().redrawn(),
                seq![s.focus_dropped_effect(), Effect::Retile(idx), Effect::BroadcastWorkspaces],
            )
        }
    }

    /// The state and the effects once the focused window was sent to another
    /// workspace.
    pub open spec fn window_moved(self, target: usize) -> (StateView, Seq<Effect>) {
        if target >= self.workspaces.len() || target == self.active_workspace
            || self.layer_focused() || self.focused_place() is None {
            (self, seq![])
        } else {
            let place = self.focused_place()->0;
            let window = self.focus->0;
            let here = self.active_workspace as usize;
            let s = StateView {
                workspaces: self.workspaces.update(
                    self.active_workspace,
                    self.active().removed(place),
                ).update(
                    target as int,
                    self.workspaces[target as int].received(self.active().departure(window)),
                ),
                ..self
            };
            (
                s.focus_dropped().redrawn(),
                seq![
                    Effect::Unmap { workspace: here, window },
                    s.focus_dropped_effect(),
                    Effect::Retile(here),
                    Effect::Retile(target),
                    Effect::BroadcastWorkspaces,
                ],
            )
        }
    }
}

/// The place `delta` after `i` on a ring of `len` places.
fn wrapped(i: usize, delta: isize, len: usize) -> (r: usize)
    requires
        i < len,
    ensures
        r == (i + delta) % (len as int),
{
    let step: usize = if delta >= 0 {
        (delta as usize) % len
    } else {
        let back: usize = ((-(delta + 1)) as usize) % len;
        len - 1 - back
    };
    let ghost n = len as int;
    proof {
        if delta >= 0 {
            vstd::arithmetic::div_mod::lemma_fundamental_div_mod(delta as int, n);
            vstd::arithmetic::div_mod::lemma_mod_multiples_vanish(
                delta as int / n,
                i + step,
                n,
            );
            assert(i + delta == n * (delta as int / n) + (i + step));
        } else {
            let m = -(delta + 1);
            vstd::arithmetic::div_mod::lemma_fundamental_div_mod(m, n);
            let q = m / n;
            assert(i + delta == n * (-q - 1) + (i + step)) by (nonlinear_arith)
                requires
                    m == n * q + m % n,
                    delta == -m - 1,
                    step == n - 1 - m % n,
            ;
            vstd::arithmetic::div_mod::lemma_mod_multiples_vanish(-q - 1, i + step, n);
        }
        assert((i + delta) % n == (i + step) % n);
    }
    if step < len - i {
        proof {
            vstd::arithmetic::div_mod::lemma_small_mod((i + step) as nat, n as nat);
        }
        i + step
    } else {
        proof {
            vstd::arithmetic::div_mod::lemma_mod_multiples_vanish(1, i + step - n, n);
            assert(n * 1 + (i + step - n) == i + step);
            vstd::arithmetic::div_mod::lemma_small_mod((i + step - n) as nat, n as nat);
        }
        step - (len - i)
    }
}

impl State {
    /// A compositor without windows, with as many workspaces as the
    /// configuration names, and one at least.
    pub fn new(config: Config, now: u64) -> (r: Self)
        ensures
            r@.wf(),
            crate::laws::sound(r@),
            r@.workspaces == Seq::new(
                if config@.workspace_names.len() > 1 {
                    config@.workspace_names.len()
                } else {
                    1
                },
                |i: int| crate::workspace::WorkspaceView::fresh(),
            ),
            r@.active_workspace == 0,
            r@.config == config@,
            r@.focus is None,
            r@.layers == Seq::<u64>::empty(),
            r@.needs_redraw,
            r@.pointer_grab is None,
            r@.gesture_swipe == GestureSwipeState::resting(now),
            r@.gesture_start_time == now,
            r@.gesture_pending_switch is None,
            r@.workspace_transition == WorkspaceTransition::resting(now),
            r@.window_opacity == (Single { bits: ONE32 }),
            r@.osd is None,
    {
        let named: usize = config.workspace_count();
        let count: usize = if named > 1 {
            named
        } else {
            1
        };
        let mut workspaces: Vec<Workspace> = Vec::new();
        let mut i: usize = 0;
        while i < count
            invariant
                i <= count,
                workspace_views(workspaces@) == Seq::new(
                    i as nat,
                    |k: int| crate::workspace::WorkspaceView::fresh(),
                ),
            decreases count - i,
        {
            let ghost before = workspaces@;
            workspaces.push(Workspace::new());
            assert(workspace_views(workspaces@) == workspace_views(before).push(
                crate::workspace::WorkspaceView::fresh(),
            ));
            i = i + 1;
        }
        State {
            workspaces,
            active_workspace: 0,
            config,
            focus: None,
            layers: Vec::new(),
            needs_redraw: true,
            pointer_grab: None,
            gesture_swipe: GestureSwipeState::at_rest(now),
            gesture_start_time: now,
            gesture_pending_switch: None,
            workspace_transition: WorkspaceTransition::at_rest(now),
            window_opacity: Single { bits: ONE32 },
            osd: None,
        }
    }

    pub fn layer_has_keyboard_focus(&self) -> (r: bool)
        ensures
            r == self@.layer_focused(),
    {
        match self.focus {
            Some(focused) => self.layer_surface_of(focused),
            None => false,
        }
    }

    /// Whether a surface is a layer surface on the output.
    pub fn layer_surface_of(&self, surface: u64) -> (r: bool)
        ensures
            r == self@.layers.contains(surface),
    {
        proof {
            crate::workspace::place_of_is_first(self.layers@, surface);
        }
        position(&self.layers, surface).is_some()
    }

    /// The place of the focused window on the active workspace.
    pub fn focused_index(&self) -> (r: Option<usize>)
        requires
            self@.wf(),
        ensures
            match r {
                Some(i) => self@.focused_place() == Some(i as int),
                None => self@.focused_place() is None,
            },
    {
        match self.focus {
            Some(focused) => position(&self.workspaces[self.active_workspace].windows, focused),
            None => None,
        }
    }

    pub fn focus_window(&mut self, window: u64) -> (r: Vec<Effect>)
        requires
            old(self)@.wf(),
        ensures
            final(self)@ == old(self)@.focused(window).0,
            r@ == old(self)@.focused(window).1,
    {
        if self.layer_has_keyboard_focus() {
            return Vec::new();
        }
        let here: usize = self.active_workspace;
        let mut effects = vec![
            Effect::Raise { workspace: here, window, activate: true },
            Effect::SetFocus(Some(window)),
        ];
        self.focus = Some(window);
        if self.workspaces[here].layout == LayoutType::Monocle {
            effects.push(Effect::Retile(here));
            self.needs_redraw = true;
        }
        effects
    }

    pub fn drop_focus_to_active_window(&mut self) -> (r: Effect)
        requires
            old(self)@.wf(),
        ensures
            final(self)@ == old(self)@.focus_dropped(),
            r == old(self)@.focus_dropped_effect(),
    {
        self.focus = self.workspaces[self.active_workspace].last();
        Effect::SetFocus(self.focus)
    }

    /// Closes the focused surface: a layer surface at once, a window with a
    /// fade-out at the place that `geometry` tells of it.
    pub fn close_focused(&mut self, geometry: WindowGeometry, now: u64) -> (r: Vec<Effect>)
        requires
            old(self)@.wf(),
        ensures
            final(self)@ == old(self)@.focus_closed(geometry, now).0,
            r@ == old(self)@.focus_closed(geometry, now).1,
    {
        let focused: u64 = match self.focus {
            Some(f) => f,
            None => {
                return Vec::new();
            },
        };
        if self.layer_surface_of(focused) {
            let refocus = self.drop_focus_to_active_window();
            self.needs_redraw = true;
            return vec![Effect::CloseLayer(focused), refocus];
        }
        let place: usize = match self.focused_index() {
            Some(i) => i,
            None => {
                return Vec::new();
            },
        };
        let here: usize = self.active_workspace;
        proof {
            crate::workspace::place_of_is_first(self@.active().windows, focused);
        }
        let rect = geometry.rect(Point { x: 0, y: 0 }, Size { w: 100, h: 100 });
        let dying = DyingWindow {
            window: focused,
            destroy_time: now,
            last_location: rect.loc,
            last_size: rect.size,
        };
        let ws = &mut self.workspaces[here];
        ws.remove_at(place);
        ws.dying_windows.push(dying);
        assert(self@.workspaces == old(self)@.with_active(
            crate::workspace::WorkspaceView {
                dying_windows: old(self)@.active().dying_windows.push(dying),
                ..old(self)@.active().removed(place as int)
            },
        ).workspaces);
        let refocus = self.drop_focus_to_active_window();
        self.needs_redraw = true;
        vec![
            Effect::CloseWindow(focused),
            Effect::Unmap { workspace: here, window: focused },
            refocus,
            Effect::Retile(here),
        ]
    }

    pub fn focus_relative(&mut self, delta: isize) -> (r: Vec<Effect>)
        requires
            old(self)@.wf(),
        ensures
            final(self)@ == old(self)@.focus_moved(delta as int).0,
            r@ == old(self)@.focus_moved(delta as int).1,
    {
        if self.layer_has_keyboard_focus() {
            return Vec::new();
        }
        let here: usize = self.active_workspace;
        let len: usize = self.workspaces[here].windows.len();
        if len == 0 {
            return Vec::new();
        }
        let next_idx: usize = match self.focused_index() {
            Some(i) => {
                proof {
                    crate::workspace::place_of_is_first(self@.active().windows, self.focus->0);
                }
                wrapped(i, delta, len)
            },
            None => 0,
        };
        let next: u64 = self.workspaces[here].windows[next_idx];
        let effects = self.focus_window(next);
        self.needs_redraw = true;
        effects
    }

    pub fn any_animating(&self, now: u64) -> (r: bool)
        ensures
            r == self@.animating(now),
    {
        let mut i: usize = 0;
        while i < self.workspaces.len()
            invariant
                i <= self.workspaces.len(),
                forall|k: int| 0 <= k < i ==> !#[trigger] self@.workspaces[k].animating(now),
            decreases self.workspaces.len() - i,
        {
            if self.workspaces[i].is_animating(now) {
                assert(self@.workspaces[i as int].animating(now));
                return true;
            }
            i = i + 1;
        }
        false
    }

    /// Changes the focused window between tiled and floating; a window that
    /// begins to float keeps the place that `geometry` tells of it.
    pub fn toggle_floating(&mut self, geometry: WindowGeometry) -> (r: Vec<Effect>)
        requires
            old(self)@.wf(),
        ensures
            final(self)@ == old(self)@.floating_toggled(geometry).0,
            r@ == old(self)@.floating_toggled(geometry).1,
    {
        if self.layer_has_keyboard_focus() {
            return Vec::new();
        }
        let here: usize = self.active_workspace;
        let place: usize = match self.focused_index() {
            Some(i) => i,
            None => {
                return Vec::new();
            },
        };
        proof {
            crate::workspace::place_of_is_first(self@.active().windows, self.focus->0);
        }
        let window: u64 = self.workspaces[here].windows[place];
        let rect = geometry.rect(Point { x: 100, y: 100 }, Size { w: 640, h: 480 });
        let ws = &mut self.workspaces[here];
        if ws.floating.contains(&window) {
            ws.sink(window);
        } else {
            ws.pop_out(window, rect);
        }
        self.needs_redraw = true;
        assert(self@.workspaces == old(self)@.floating_toggled(geometry).0.workspaces);
        vec![
            Effect::Raise { workspace: here, window, activate: true },
            Effect::Retile(here),
        ]
    }

    /// Lets a window float, if it does not already.
    pub fn ensure_floating(&mut self, window: u64, geometry: WindowGeometry) -> (r: Vec<Effect>)
        requires
            old(self)@.wf(),
        ensures
            final(self)@ == old(self)@.floating_ensured(window, geometry).0,
            r@ == old(self)@.floating_ensured(window, geometry).1,
    {
        let here: usize = self.active_workspace;
        if self.workspaces[here].floating.contains(&window) {
            return Vec::new();
        }
        let rect = geometry.rect(Point { x: 100, y: 100 }, Size { w: 640, h: 480 });
        self.workspaces[here].pop_out(window, rect);
        assert(self@.workspaces == old(self)@.floating_ensured(window, geometry).0.workspaces);
        vec![Effect::Retile(here)]
    }

    pub fn swap_windows(&mut self, idx_a: usize, idx_b: usize) -> (r: Vec<Effect>)
        requires
            old(self)@.wf(),
        ensures
            final(self)@ == old(self)@.windows_swapped(idx_a as int, idx_b as int).0,
            r@ == old(self)@.windows_swapped(idx_a as int, idx_b as int).1,
    {
        let here: usize = self.active_workspace;
        let len: usize = self.workspaces[here].windows.len();
        if idx_a == idx_b || idx_a >= len || idx_b >= len {
            return Vec::new();
        }
        self.workspaces[here].swap(idx_a, idx_b);
        self.needs_redraw = true;
        assert(self@.workspaces == old(self)@.windows_swapped(
            idx_a as int,
            idx_b as int,
        ).0.workspaces);
        vec![Effect::Retile(here)]
    }

    pub fn switch_workspace(&mut self, idx: usize, now: u64) -> (r: Vec<Effect>)
        requires
            old(self)@.wf(),
        ensures
            final(self)@ == old(self)@.workspace_switched(idx, now).0,
            r@ == old(self)@.workspace_switched(idx, now).1,
    {
        if idx >= self.workspaces.len() {
            return Vec::new();
        }
        if idx == self.active_workspace {
            return Vec::new();
        }
        self.workspace_transition.begin(self.active_workspace, idx, now);
        self.active_workspace = idx;
        let refocus = self.drop_focus_to_active_window();
        self.needs_redraw = true;
        vec![refocus, Effect::Retile(idx), Effect::BroadcastWorkspaces]
    }

    pub fn move_to_workspace(&mut self, target_idx: usize) -> (r: Vec<Effect>)
        requires
            old(self)@.wf(),
        ensures
            final(self)@ == old(self)@.window_moved(target_idx).0,
            r@ == old(self)@.window_moved(target_idx).1,
    {
        if target_idx >= self.workspaces.len() {
            return Vec::new();
        }
        if target_idx == self.active_workspace {
            return Vec::new();
        }
        if self.layer_has_keyboard_focus() {
            return Vec::new();
        }
        let here: usize = self.active_workspace;
        let place: usize = match self.focused_index() {
            Some(i) => i,
            None => {
                return Vec::new();
            },
        };
        proof {
            crate::workspace::place_of_is_first(self@.active().windows, self.focus->0);
        }
        let departure = self.workspaces[here].remove_at(place);
        self.workspaces[target_idx].receive(departure);
        assert(self@.workspaces == old(self)@.window_moved(target_idx).0.workspaces);
        let refocus = self.drop_focus_to_active_window();
        self.needs_redraw = true;
        vec![
            Effect::Unmap { workspace: here, window: departure.window },
            refocus,
            Effect::Retile(here),
            Effect::Retile(target_idx),
            Effect::BroadcastWorkspaces,
        ]
    }
}

} // verus!
