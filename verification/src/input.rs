//! Events of the input devices.
use crate::actions::Task;
use crate::bits::{Double, Single, ZERO64};
use crate::config::Modifiers;
use crate::grab::GrabMode;
use crate::keybinds::KeybindMap;
use crate::keys::{
    action_string_to_key_action, keysym_to_key_name, KeyAction, ESCAPE, F1, SWITCH_VT_1,
};
use crate::pointer::{Press, PressOutcome};
use crate::state::{Effect, State, WindowGeometry};
use crate::swipe::{GestureOutcome, GestureSwipeState, DEFAULT_SCREEN_WIDTH};
use vstd::prelude::*;

verus! {

/// A key that went down or up: the symbol with the modifiers applied, and the
/// first one without. `focused_popup` says of a focused layer surface whether
/// it is a popup.
#[derive(Clone, Copy, Debug, PartialEq, Eq, Structural)]
pub struct KeyEvent {
    pub pressed: bool,
    pub modifiers: Modifiers,
    pub sym: u32,
    pub raw_sym: Option<u32>,
    pub focused_popup: bool,
}

impl KeyEvent {
    /// Whether the key is Escape alone.
    pub open spec fn escape(self) -> bool {
        self.sym == ESCAPE && self.modifiers == (Modifiers {
            logo: false,
            shift: false,
            ctrl: false,
            alt: false,
        })
    }

    /// The virtual terminal that the key asks for.
    pub open spec fn terminal(self) -> Option<i32> {
        if !(self.modifiers.ctrl && self.modifiers.alt && !self.modifiers.logo) {
            None
        } else if F1 <= self.sym < F1 + 12 {
            Some((self.sym - F1 + 1) as i32)
        } else if SWITCH_VT_1 <= self.sym < SWITCH_VT_1 + 12 {
            Some((self.sym - SWITCH_VT_1 + 1) as i32)
        } else {
            None
        }
    }

    /// What the key is bound to: by the name of the symbol with the modifiers
    /// applied, or else of the one without.
    pub open spec fn binding(
        self,
        map: Map<crate::keybinds::KeyView, Seq<char>>,
    ) -> Option<Seq<char>> {
        let applied = bound_name(map, self.modifiers, crate::keys::key_name(self.sym));
        if applied is Some {
            applied
        } else {
            match self.raw_sym {
                Some(raw) => bound_name(map, self.modifiers, crate::keys::key_name(raw)),
                None => None,
            }
        }
    }

    fn switched_terminal(&self) -> (r: Option<i32>)
        ensures
            r == self.terminal(),
    {
        if !(self.modifiers.ctrl && self.modifiers.alt && !self.modifiers.logo) {
            None
        } else if F1 <= self.sym && self.sym < F1 + 12 {
            Some((self.sym - F1 + 1) as i32)
        } else if SWITCH_VT_1 <= self.sym && self.sym < SWITCH_VT_1 + 12 {
            Some((self.sym - SWITCH_VT_1 + 1) as i32)
        } else {
            None
        }
    }
}

/// What a key with a name is bound to.
pub open spec fn bound_name(
    map: Map<crate::keybinds::KeyView, Seq<char>>,
    modifiers: Modifiers,
    name: Option<Seq<char>>,
) -> Option<Seq<char>> {
    match name {
        Some(n) => if map.dom().contains((modifiers, n)) {
            Some(map[(modifiers, n)])
        } else {
            None
        },
        None => None,
    }
}

fn look_up(map: &KeybindMap, modifiers: Modifiers, sym: u32) -> (r: Option<String>)
    requires
        map.wf(),
    ensures
        crate::keys::text_view(r) == bound_name(
            map@,
            modifiers,
            crate::keys::key_name(sym),
        ),
{
    match keysym_to_key_name(sym) {
        Some(name) => match map.get(modifiers, name.as_str()) {
            Some(action) => Some(action.clone()),
            None => None,
        },
        None => None,
    }
}

impl crate::state::StateView {
    /// The state and the effects once a key went down or up, and the action
    /// that it stands for; with none, the key goes to the focused surface.
    pub open spec fn key_handled(self, key: KeyEvent) -> (
        crate::state::StateView,
        Seq<Effect>,
        Option<crate::keys::ActionView>,
    ) {
        if !key.pressed {
            (self, seq![], None)
        } else if key.escape() {
            if self.layer_focused() {
                let close = if key.focused_popup {
                    seq![Effect::CloseLayer(self.focus->0)]
                } else {
                    seq![]
                };
                (
                    self.focus_dropped().redrawn(),
                    close + seq![self.focus_dropped_effect()],
                    Some(crate::keys::ActionView::Other(KeyAction::NoOp)),
                )
            } else {
                (self, seq![], None)
            }
        } else if key.terminal() is Some {
            (
                self,
                seq![],
                Some(crate::keys::ActionView::Other(KeyAction::SwitchVt(key.terminal()->0))),
            )
        } else {
            match key.binding(crate::keybinds::bindings(self.config.keybinds)) {
                Some(name) => (self, seq![], crate::keys::action_named(name)),
                None => (self, seq![], None),
            }
        }
    }

    /// The last workspace.
    pub open spec fn last_workspace(self) -> usize {
        (self.workspaces.len() - 1) as usize
    }

    /// The state once fingers have come down for a swipe: three or four of
    /// them drag the workspaces along.
    pub open spec fn swipe_begun(
        self,
        fingers: u32,
        screen_width: Option<Double>,
        now: u64,
    ) -> crate::state::StateView {
        if fingers == 3 || fingers == 4 {
            crate::state::StateView {
                gesture_swipe: GestureSwipeState::begun(
                    fingers,
                    self.active_workspace as usize,
                    match screen_width {
                        Some(w) => w,
                        None => Double { bits: DEFAULT_SCREEN_WIDTH },
                    },
                    now,
                ),
                gesture_start_time: now,
                ..self
            }
        } else {
            self
        }
    }

    /// The state once the fingers have moved.
    pub open spec fn swipe_moved(
        self,
        new_offset: Double,
        damped: Double,
    ) -> crate::state::StateView {
        if self.gesture_swipe.tracking {
            crate::state::StateView {
                gesture_swipe: GestureSwipeState {
                    cumulative_dx: self.gesture_swipe.dragged(
                        new_offset,
                        damped,
                        self.last_workspace(),
                    ),
                    ..self.gesture_swipe
                },
                ..self
            }.redrawn()
        } else {
            self
        }
    }

    /// The state once the fingers were lifted: a swipe that leads past the last
    /// workspace goes back.
    pub open spec fn swipe_ended(
        self,
        cancelled: bool,
        fraction: Double,
        velocity: Double,
        now: u64,
    ) -> crate::state::StateView {
        let swipe = self.gesture_swipe;
        if !swipe.tracking {
            self
        } else {
            let outcome = if cancelled {
                GestureOutcome::SnapBack
            } else {
                swipe.outcome(fraction, velocity)
            };
            let ended = swipe.finished(outcome, now);
            match outcome {
                GestureOutcome::SwitchTo(target) => if target <= self.last_workspace() {
                    crate::state::StateView {
                        gesture_swipe: ended,
                        gesture_pending_switch: Some(target),
                        ..self
                    }.redrawn()
                } else {
                    crate::state::StateView {
                        gesture_swipe: GestureSwipeState {
                            anim_target_offset: Double { bits: ZERO64 },
                            ..ended
                        },
                        gesture_pending_switch: None,
                        ..self
                    }.redrawn()
                },
                GestureOutcome::SnapBack => crate::state::StateView {
                    gesture_swipe: ended,
                    gesture_pending_switch: None,
                    ..self
                }.redrawn(),
            }
        }
    }

    /// The state and the effects once the animation after a swipe was looked
    /// at: at its end the workspace that the swipe led to is switched to.
    pub open spec fn swipe_settled(self, now: u64) -> (crate::state::StateView, Seq<Effect>) {
        if !self.gesture_swipe.animating {
            (self, seq![])
        } else if self.gesture_swipe.ticked(now).animating {
            (self.redrawn(), seq![])
        } else {
            let s = crate::state::StateView {
                gesture_swipe: GestureSwipeState {
                    tracking: false,
                    animating: false,
                    cumulative_dx: Double { bits: ZERO64 },
                    ..self.gesture_swipe
                },
                gesture_pending_switch: None,
                ..self
            }.redrawn();
            match self.gesture_pending_switch {
                Some(target) => s.workspace_switched(target, now),
                None => (s, seq![]),
            }
        }
    }
}

impl State {
    /// A key has gone down or up. Returns the effects, and the action that the
    /// key stands for; with none, the key goes to the focused surface.
    pub fn handle_keybinding(&mut self, key: KeyEvent) -> (r: (Vec<Effect>, Option<KeyAction>))
        requires
            old(self)@.wf(),
        ensures
            final(self)@ == old(self)@.key_handled(key).0,
            r.0@ == old(self)@.key_handled(key).1,
            crate::keys::action_view(r.1) == old(self)@.key_handled(key).2,
    {
        if !key.pressed {
            return (Vec::new(), None);
        }
        let mods = key.modifiers;
        if key.sym == ESCAPE && !mods.logo && !mods.ctrl && !mods.alt && !mods.shift {
            if self.layer_has_keyboard_focus() {
                let mut effects: Vec<Effect> = Vec::new();
                if key.focused_popup {
                    if let Some(focused) = self.focus {
                        effects.push(Effect::CloseLayer(focused));
                    }
                }
                effects.push(self.drop_focus_to_active_window());
                self.needs_redraw = true;
                return (effects, Some(KeyAction::NoOp));
            }
            return (Vec::new(), None);
        }
        if let Some(vt) = key.switched_terminal() {
            return (Vec::new(), Some(KeyAction::SwitchVt(vt)));
        }
        let map = self.config.keybind_map();
        let name = match look_up(&map, mods, key.sym) {
            Some(name) => Some(name),
            None => match key.raw_sym {
                Some(raw) => look_up(&map, mods, raw),
                None => None,
            },
        };
        match name {
            Some(name) => (Vec::new(), action_string_to_key_action(name.as_str())),
            None => (Vec::new(), None),
        }
    }

    /// Fingers have come down on the touchpad. `screen_width` is the width of
    /// the output, where it is known.
    pub fn swipe_begin(&mut self, fingers: u32, screen_width: Option<Double>, now: u64)
        requires
            old(self)@.wf(),
        ensures
            final(self)@ == old(self)@.swipe_begun(fingers, screen_width, now),
    {
        if fingers == 3 || fingers == 4 {
            let width = match screen_width {
                Some(w) => w,
                None => Double { bits: DEFAULT_SCREEN_WIDTH },
            };
            self.gesture_swipe = GestureSwipeState::begin(
                fingers,
                self.active_workspace,
                width,
                now,
            );
            self.gesture_start_time = now;
        }
    }

    /// The fingers have moved. `new_offset` is the offset of the screen with
    /// the whole of their movement added, `damped` the one with a fifth of it.
    pub fn swipe_update(&mut self, new_offset: Double, damped: Double)
        requires
            old(self)@.wf(),
        ensures
            final(self)@ == old(self)@.swipe_moved(new_offset, damped),
    {
        if self.gesture_swipe.tracking {
            let max_ws: usize = self.workspaces.len() - 1;
            self.gesture_swipe.drag(new_offset, damped, max_ws);
            self.needs_redraw = true;
        }
    }

    /// The fingers were lifted. `fraction` is the distance in screen widths,
    /// `velocity` in pixels per millisecond.
    pub fn swipe_end(&mut self, cancelled: bool, fraction: Double, velocity: Double, now: u64)
        requires
            old(self)@.wf(),
        ensures
            final(self)@ == old(self)@.swipe_ended(cancelled, fraction, velocity, now),
    {
        if !self.gesture_swipe.tracking {
            return;
        }
        if cancelled {
            self.gesture_swipe.cancel(now);
            self.gesture_pending_switch = None;
        } else {
            let max_ws: usize = self.workspaces.len() - 1;
            match self.gesture_swipe.finish(fraction, velocity, now) {
                GestureOutcome::SwitchTo(target) => {
                    if target <= max_ws {
                        self.gesture_pending_switch = Some(target);
                    } else {
                        self.gesture_swipe.anim_target_offset = Double { bits: ZERO64 };
                        self.gesture_pending_switch = None;
                    }
                },
                GestureOutcome::SnapBack => {
                    self.gesture_pending_switch = None;
                },
            }
        }
        self.needs_redraw = true;
    }

    /// Looks at the animation after a swipe.
    pub fn swipe_tick(&mut self, now: u64) -> (r: Vec<Effect>)
        requires
            old(self)@.wf(),
        ensures
            final(self)@ == old(self)@.swipe_settled(now).0,
            r@ == old(self)@.swipe_settled(now).1,
    {
        if !self.gesture_swipe.animating {
            return Vec::new();
        }
        self.needs_redraw = true;
        if self.gesture_swipe.tick(now) {
            return Vec::new();
        }
        self.gesture_swipe.reset();
        match self.gesture_pending_switch.take() {
            Some(target) => self.switch_workspace(target, now),
            None => Vec::new(),
        }
    }
}

/// An event of an input device, with what the display has to say about it.
#[derive(Debug)]
pub enum InputEvent {
    /// A key went down or up; `geometry` tells of the focused window.
    Keyboard { key: KeyEvent, geometry: WindowGeometry },
    /// The pointer moved by so much since a grab started. For the resizing of
    /// a tiled window, `split` is the share that the master would have, and
    /// `ratios` are the shares of the stack.
    PointerMotion { dx: i32, dy: i32, split: Single, ratios: Vec<Single> },
    /// A button went up over a window, or over none.
    ButtonReleased { drop_target: Option<u64> },
    /// A button went down.
    ButtonPressed { press: Press },
    /// A device came, whose taps are told apart up to so many fingers.
    DeviceAdded { tap_fingers: u32 },
    /// A device went.
    DeviceRemoved,
    /// Fingers came down for a swipe on a screen of some width.
    SwipeBegin { fingers: u32, screen_width: Option<Double> },
    /// The fingers moved.
    SwipeUpdate { new_offset: Double, damped: Double },
    /// The fingers were lifted.
    SwipeEnd { cancelled: bool, fraction: Double, velocity: Double },
    /// Anything else.
    Other,
}

/// What the clients hear of an event.
#[derive(Clone, Copy, Debug, PartialEq, Eq, Structural)]
pub enum Forward {
    Nothing,
    /// The key.
    Key,
    /// The motion of the pointer.
    Motion,
    /// The button.
    Button,
    /// Only the end of a group of pointer events.
    Frame,
}

/// What is to be done about an event. A grab of a tiled window is to be
/// started where `tiled_grab` tells of one.
#[derive(Debug)]
pub struct InputReply {
    pub effects: Vec<Effect>,
    pub task: Task,
    pub forward: Forward,
    pub tiled_grab: Option<(GrabMode, u64)>,
    pub enable_tap: bool,
}

#[verifier::ext_equal]
pub ghost struct ReplyView {
    pub effects: Seq<Effect>,
    pub task: crate::actions::TaskView,
    pub forward: Forward,
    pub tiled_grab: Option<(GrabMode, u64)>,
    pub enable_tap: bool,
}

impl View for InputReply {
    type V = ReplyView;

    open spec fn view(&self) -> ReplyView {
        ReplyView {
            effects: self.effects@,
            task: self.task@,
            forward: self.forward,
            tiled_grab: self.tiled_grab,
            enable_tap: self.enable_tap,
        }
    }
}

/// A reply of effects and of what the clients hear.
pub open spec fn reply_of(effects: Seq<Effect>, forward: Forward) -> ReplyView {
    ReplyView {
        effects,
        task: crate::actions::TaskView::Other(Task::Nothing),
        forward,
        tiled_grab: None,
        enable_tap: false,
    }
}

fn reply(effects: Vec<Effect>, forward: Forward) -> (r: InputReply)
    ensures
        r@ == reply_of(effects@, forward),
{
    InputReply { effects, task: Task::Nothing, forward, tiled_grab: None, enable_tap: false }
}

impl crate::state::StateView {
    /// Whether an event leads to coordinates that can be represented, on a
    /// screen that has a width.
    pub open spec fn admits(self, event: InputEvent) -> bool {
        match event {
            InputEvent::PointerMotion { dx, dy, .. } => self.motion_fits(dx as int, dy as int),
            InputEvent::SwipeBegin { screen_width, .. } => screen_width is Some ==> (Double {
                bits: ZERO64,
            }).at_most(screen_width->0),
            _ => true,
        }
    }

    /// The state and the reply once an event was handled.
    pub open spec fn input_handled(self, event: InputEvent, now: u64) -> (
        crate::state::StateView,
        ReplyView,
    ) {
        match event {
            InputEvent::Keyboard { key, geometry } => {
                let (s, effects, action) = self.key_handled(key);
                match action {
                    Some(a) => {
                        let (t, more, task) = s.acted(a, geometry, now);
                        (
                            t,
                            ReplyView { task, ..reply_of(effects + more, Forward::Nothing) },
                        )
                    },
                    None => (s, reply_of(effects, Forward::Key)),
                }
            },
            InputEvent::PointerMotion { dx, dy, split, ratios } => {
                let (s, effects) = self.pointer_moved(dx as int, dy as int, split, ratios@);
                (s, reply_of(effects, Forward::Motion))
            },
            InputEvent::ButtonReleased { drop_target } => {
                let (s, effects) = self.grab_released(drop_target);
                (s, reply_of(effects, Forward::Button))
            },
            InputEvent::ButtonPressed { press } => {
                let (s, effects, outcome) = self.pressed(press);
                match outcome {
                    PressOutcome::Grabbed => (s, reply_of(effects, Forward::Frame)),
                    PressOutcome::TiledGrab(mode) => (
                        s,
                        ReplyView {
                            tiled_grab: Some((mode, press.hit->0)),
                            ..reply_of(effects, Forward::Frame)
                        },
                    ),
                    PressOutcome::Clicked => (s, reply_of(effects, Forward::Button)),
                }
            },
            InputEvent::DeviceAdded { tap_fingers } => (
                self,
                ReplyView { enable_tap: tap_fingers > 0, ..reply_of(seq![], Forward::Nothing) },
            ),
            InputEvent::SwipeBegin { fingers, screen_width } => (
                self.swipe_begun(fingers, screen_width, now),
                reply_of(seq![], Forward::Nothing),
            ),
            InputEvent::SwipeUpdate { new_offset, damped } => (
                self.swipe_moved(new_offset, damped),
                reply_of(seq![], Forward::Nothing),
            ),
            InputEvent::SwipeEnd { cancelled, fraction, velocity } => (
                self.swipe_ended(cancelled, fraction, velocity, now),
                reply_of(seq![], Forward::Nothing),
            ),
            InputEvent::DeviceRemoved | InputEvent::Other => (
                self,
                reply_of(seq![], Forward::Nothing),
            ),
        }
    }
}

impl State {
    /// Handles an event of an input device.
    pub fn handle_libinput_event(&mut self, event: InputEvent, now: u64) -> (r: InputReply)
        requires
            old(self)@.wf(),
            old(self)@.admits(event),
        ensures
            final(self)@ == old(self)@.input_handled(event, now).0,
            r@ == old(self)@.input_handled(event, now).1,
    {
        match event {
            InputEvent::Keyboard { key, geometry } => {
                let (mut effects, action) = self.handle_keybinding(key);
                match action {
                    Some(a) => {
                        let (mut more, task) = self.dispatch_action(a, geometry, now);
                        effects.append(&mut more);
                        InputReply {
                            effects,
                            task,
                            forward: Forward::Nothing,
                            tiled_grab: None,
                            enable_tap: false,
                        }
                    },
                    None => reply(effects, Forward::Key),
                }
            },
            InputEvent::PointerMotion { dx, dy, split, ratios } => {
                let effects = self.pointer_motion(dx, dy, split, ratios);
                reply(effects, Forward::Motion)
            },
            InputEvent::ButtonReleased { drop_target } => {
                let effects = self.release_grab(drop_target);
                reply(effects, Forward::Button)
            },
            InputEvent::ButtonPressed { press } => {
                let (effects, outcome) = self.press(press);
                match outcome {
                    PressOutcome::Grabbed => reply(effects, Forward::Frame),
                    PressOutcome::TiledGrab(mode) => {
                        let mut r = reply(effects, Forward::Frame);
                        if let Some(window) = press.hit {
                            r.tiled_grab = Some((mode, window));
                        }
                        r
                    },
                    PressOutcome::Clicked => reply(effects, Forward::Button),
                }
            },
            InputEvent::DeviceAdded { tap_fingers } => {
                let mut r = reply(Vec::new(), Forward::Nothing);
                r.enable_tap = tap_fingers > 0;
                r
            },
            InputEvent::SwipeBegin { fingers, screen_width } => {
                self.swipe_begin(fingers, screen_width, now);
                reply(Vec::new(), Forward::Nothing)
            },
            InputEvent::SwipeUpdate { new_offset, damped } => {
                self.swipe_update(new_offset, damped);
                reply(Vec::new(), Forward::Nothing)
            },
            InputEvent::SwipeEnd { cancelled, fraction, velocity } => {
                self.swipe_end(cancelled, fraction, velocity, now);
                reply(Vec::new(), Forward::Nothing)
            },
            InputEvent::DeviceRemoved | InputEvent::Other => reply(Vec::new(), Forward::Nothing),
        }
    }
}

} // verus!
