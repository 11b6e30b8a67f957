//! What happens when clients create, change and destroy surfaces.
use crate::geometry::Rect;
use crate::state::{push_retile_all, Effect, State};
use crate::workspace::position;
use vstd::prelude::*;

verus! {

/// How a layer surface takes part in keyboard input.
#[derive(Clone, Copy, Debug, PartialEq, Eq, Structural)]
pub enum KeyboardInteractivity {
    Never,
    Exclusive,
    OnDemand,
}

/// The layer that a layer surface is on, from the bottom up.
#[derive(Clone, Copy, Debug, PartialEq, Eq, Structural)]
pub enum LayerKind {
    Background,
    Bottom,
    Top,
    Overlay,
}

/// Whether a layer surface is a popup, which a press or a key elsewhere closes:
/// bars, which stay, are neither on the uppermost layer nor ask for the keyboard
/// alone.
pub fn is_popup(layer: LayerKind, keyboard: KeyboardInteractivity) -> (r: bool)
    ensures
        r == (layer == LayerKind::Overlay || keyboard == KeyboardInteractivity::Exclusive),
{
    layer == LayerKind::Overlay || keyboard == KeyboardInteractivity::Exclusive
}

/// The first workspace that holds a window.
pub open spec fn holder(
    workspaces: Seq<crate::workspace::WorkspaceView>,
    window: u64,
) -> Option<int>
    decreases workspaces.len(),
{
    if workspaces.len() == 0 {
        None
    } else if workspaces[0].windows.contains(window) {
        Some(0)
    } else {
        match holder(workspaces.drop_first(), window) {
            Some(i) => Some(i + 1),
            None => None,
        }
    }
}

/// A holder that was found holds the window, and no earlier workspace does;
/// where none was found, no workspace does.
pub proof fn holder_is_first(workspaces: Seq<crate::workspace::WorkspaceView>, window: u64)
    ensures
        match holder(workspaces, window) {
            Some(i) => 0 <= i < workspaces.len() && workspaces[i].windows.contains(window)
                && forall|j: int| 0 <= j < i ==> !#[trigger] workspaces[j].windows.contains(window),
            None => forall|j: int|
                0 <= j < workspaces.len() ==> !#[trigger] workspaces[j].windows.contains(window),
        },
    decreases workspaces.len(),
{
    if workspaces.len() > 0 && !workspaces[0].windows.contains(window) {
        let rest = workspaces.drop_first();
        holder_is_first(rest, window);
        match holder(rest, window) {
            Some(i) => {
                assert forall|j: int| 0 <= j < i + 1 implies !#[trigger] workspaces[j].windows.contains(
                    window,
                ) by {
                    if j > 0 {
                        assert(!rest[j - 1].windows.contains(window));
                    }
                }
            },
            None => {
                assert forall|j: int| 0 <= j < workspaces.len() implies !#[trigger] workspaces[j].windows.contains(
                window) by {
                    if j > 0 {
                        assert(!rest[j - 1].windows.contains(window));
                    }
                }
            },
        }
    }
}

/// The workspaces once a window was dropped: the search ends where it is
/// found, and what comes later is not looked at.
pub open spec fn window_dropped(
    workspaces: Seq<crate::workspace::WorkspaceView>,
    window: u64,
) -> Seq<crate::workspace::WorkspaceView> {
    Seq::new(
        workspaces.len(),
        |i: int|
            match holder(workspaces, window) {
                Some(k) => if i <= k {
                    workspaces[i].forgotten(window)
                } else {
                    workspaces[i]
                },
                None => workspaces[i].forgotten(window),
            },
    )
}

impl crate::state::StateView {
    /// The state and the effects once a window has appeared.
    pub open spec fn toplevel_created(self, window: u64, now: u64) -> (
        crate::state::StateView,
        Seq<Effect>,
    ) {
        let s = self.with_active(self.active().spawned(window, now)).redrawn();
        let here = self.active_workspace as usize;
        if self.layer_focused() {
            (
                s,
                seq![
                    Effect::Retile(here),
                    Effect::Configure(window),
                    Effect::FlushClients,
                    Effect::BroadcastWorkspaces,
                ],
            )
        } else {
            (
                crate::state::StateView { focus: Some(window), ..s },
                seq![
                    Effect::Retile(here),
                    Effect::Configure(window),
                    Effect::SetFocus(Some(window)),
                    Effect::FlushClients,
                    Effect::BroadcastWorkspaces,
                ],
            )
        }
    }

    /// The state once a window was dropped, before the focus is looked at.
    pub open spec fn without_window(self, window: u64) -> crate::state::StateView {
        crate::state::StateView {
            workspaces: window_dropped(self.workspaces, window),
            pointer_grab: if self.pointer_grab is Some && self.pointer_grab->0.window == window {
                None
            } else {
                self.pointer_grab
            },
            ..self
        }
    }

    /// The state once a window has gone.
    pub open spec fn toplevel_gone(self, window: u64) -> crate::state::StateView {
        let s = self.without_window(window).redrawn();
        if self.layer_focused() {
            s
        } else {
            s.focus_dropped()
        }
    }

    /// The effects once a window has gone.
    pub open spec fn toplevel_gone_effects(self, window: u64) -> Seq<Effect> {
        let unmap = match holder(self.workspaces, window) {
            Some(k) => seq![Effect::Unmap { workspace: k as usize, window }],
            None => seq![],
        };
        let refocus = if self.layer_focused() {
            seq![]
        } else {
            seq![self.without_window(window).focus_dropped_effect()]
        };
        unmap + refocus + crate::state::retile_all(self.workspaces.len()) + seq![
            Effect::FlushClients,
            Effect::BroadcastWorkspaces,
        ]
    }

    /// The state once a layer surface has gone.
    pub open spec fn layer_gone(self, surface: u64) -> crate::state::StateView {
        let s = crate::state::StateView {
            layers: match crate::workspace::place_of(self.layers, surface) {
                Some(i) => self.layers.remove(i),
                None => self.layers,
            },
            ..self
        }.redrawn();
        if self.focus == Some(surface) {
            s.focus_dropped()
        } else {
            s
        }
    }

    /// The effects once a layer surface has gone.
    pub open spec fn layer_gone_effects(self, surface: u64) -> Seq<Effect> {
        let refocus = if self.focus == Some(surface) {
            seq![self.focus_dropped_effect()]
        } else {
            seq![]
        };
        refocus + crate::state::retile_all(self.workspaces.len())
    }

    /// The effects once a layer surface has changed.
    pub open spec fn layer_commit_effects(
        self,
        layer_commit: bool,
        old_zone: Rect,
        new_zone: Rect,
        target: Option<u64>,
    ) -> Seq<Effect> {
        let retile = if layer_commit && old_zone != new_zone {
            crate::state::retile_all(self.workspaces.len())
        } else {
            seq![]
        };
        let refocus = if target is Some && self.focus != target {
            seq![Effect::SetFocus(target)]
        } else {
            seq![]
        };
        retile + refocus + seq![Effect::FlushClients]
    }
}

impl State {
    /// A client has created a window.
    pub fn new_toplevel(&mut self, window: u64, now: u64) -> (r: Vec<Effect>)
        requires
            old(self)@.wf(),
        ensures
            final(self)@ == old(self)@.toplevel_created(window, now).0,
            r@ == old(self)@.toplevel_created(window, now).1,
    {
        let here: usize = self.active_workspace;
        let layer_has_focus = self.layer_has_keyboard_focus();
        self.workspaces[here].spawn(window, now);
        assert(self@.workspaces == old(self)@.toplevel_created(window, now).0.workspaces);
        let mut effects = vec![Effect::Retile(here), Effect::Configure(window)];
        if !layer_has_focus {
            self.focus = Some(window);
            effects.push(Effect::SetFocus(Some(window)));
        }
        self.needs_redraw = true;
        effects.push(Effect::FlushClients);
        effects.push(Effect::BroadcastWorkspaces);
        effects
    }

    /// Drops a window from the workspaces. Returns the one that held it.
    fn drop_window(&mut self, window: u64) -> (r: Option<usize>)
        ensures
            final(self)@ == (crate::state::StateView {
                workspaces: window_dropped(old(self)@.workspaces, window),
                ..old(self)@
            }),
            match r {
                Some(k) => holder(old(self)@.workspaces, window) == Some(k as int),
                None => holder(old(self)@.workspaces, window) is None,
            },
    {
        proof {
            holder_is_first(self@.workspaces, window);
        }
        let ghost before = self@;
        let n: usize = self.workspaces.len();
        let mut i: usize = 0;
        while i < n
            invariant
                i <= n,
                n == self.workspaces.len(),
                before.workspaces.len() == n,
                before == old(self)@,
                self@ == (crate::state::StateView { workspaces: self@.workspaces, ..before }),
                forall|k: int|
                    0 <= k < i ==> self@.workspaces[k] == before.workspaces[k].forgotten(window),
                forall|k: int| i <= k < n ==> self@.workspaces[k] == before.workspaces[k],
                forall|k: int|
                    0 <= k < i ==> !#[trigger] before.workspaces[k].windows.contains(window),
                match holder(before.workspaces, window) {
                    Some(h) => 0 <= h < n && before.workspaces[h].windows.contains(window)
                        && forall|j: int|
                        0 <= j < h ==> !#[trigger] before.workspaces[j].windows.contains(window),
                    None => forall|j: int|
                        0 <= j < n ==> !#[trigger] before.workspaces[j].windows.contains(window),
                },
            decreases n - i,
        {
            let ghost mid = self@;
            assert(mid.workspaces[i as int] == self.workspaces@[i as int]@);
            let found = self.workspaces[i].forget(window);
            assert(self@.workspaces == mid.workspaces.update(
                i as int,
                mid.workspaces[i as int].forgotten(window),
            ));
            if found {
                assert(holder(before.workspaces, window) == Some(i as int));
                assert(self@.workspaces == window_dropped(before.workspaces, window));
                return Some(i);
            }
            i = i + 1;
        }
        assert(self@.workspaces == window_dropped(before.workspaces, window));
        None
    }

    /// A window has been destroyed.
    pub fn toplevel_destroyed(&mut self, window: u64) -> (r: Vec<Effect>)
        requires
            old(self)@.wf(),
        ensures
            final(self)@ == old(self)@.toplevel_gone(window),
            r@ == old(self)@.toplevel_gone_effects(window),
    {
        let held = match &self.pointer_grab {
            Some(g) => g.window == window,
            None => false,
        };
        if held {
            self.pointer_grab = None;
        }
        let mut effects: Vec<Effect> = Vec::new();
        if let Some(workspace) = self.drop_window(window) {
            effects.push(Effect::Unmap { workspace, window });
        }
        assert(self@ == old(self)@.without_window(window));
        assert(self@.workspaces.len() == old(self)@.workspaces.len());
        assert(self@.layer_focused() == old(self)@.layer_focused());
        if !self.layer_has_keyboard_focus() {
            effects.push(self.drop_focus_to_active_window());
        }
        push_retile_all(&mut effects, self.workspaces.len());
        self.needs_redraw = true;
        effects.push(Effect::FlushClients);
        effects.push(Effect::BroadcastWorkspaces);
        assert(effects@ == old(self)@.toplevel_gone_effects(window));
        effects
    }

    /// A client has created a layer surface. `mapped` says whether it could be
    /// put on its output, `here` whether that is the compositor's own.
    pub fn new_layer_surface(&mut self, surface: u64, mapped: bool, here: bool) -> (r: Vec<Effect>)
        ensures
            !mapped ==> final(self)@ == old(self)@ && r@ == Seq::<Effect>::empty(),
            mapped ==> final(self)@ == (crate::state::StateView {
                layers: if here {
                    old(self)@.layers.push(surface)
                } else {
                    old(self)@.layers
                },
                ..old(self)@.redrawn()
            }) && r@ == crate::state::retile_all(old(self)@.workspaces.len()),
    {
        let mut effects: Vec<Effect> = Vec::new();
        if !mapped {
            return effects;
        }
        if here {
            self.layers.push(surface);
        }
        push_retile_all(&mut effects, self.workspaces.len());
        self.needs_redraw = true;
        effects
    }

    /// A layer surface has been destroyed.
    pub fn layer_destroyed(&mut self, surface: u64) -> (r: Vec<Effect>)
        requires
            old(self)@.wf(),
        ensures
            final(self)@ == old(self)@.layer_gone(surface),
            r@ == old(self)@.layer_gone_effects(surface),
    {
        proof {
            crate::workspace::place_of_is_first(self.layers@, surface);
        }
        if let Some(i) = position(&self.layers, surface) {
            self.layers.remove(i);
        }
        let mut effects: Vec<Effect> = Vec::new();
        let focus_on_dying = match self.focus {
            Some(f) => f == surface,
            None => false,
        };
        if focus_on_dying {
            effects.push(self.drop_focus_to_active_window());
        }
        push_retile_all(&mut effects, self.workspaces.len());
        self.needs_redraw = true;
        effects
    }

    /// What a commit of a surface asks for besides its buffer: its window
    /// takes note, and a window that was never configured is.
    ///
    /// `root` is the window on the active workspace that the surface belongs
    /// to, `shown` says of each workspace whether it shows the surface itself
    /// as a window.
    pub fn commit(
        &self,
        surface: u64,
        sync_subsurface: bool,
        root: Option<u64>,
        shown: &Vec<bool>,
        initial_configure_sent: bool,
    ) -> (r: Vec<Effect>)
        ensures
            r@ == (if !sync_subsurface && root is Some {
                seq![Effect::CommitWindow(root->0)]
            } else {
                seq![]
            }) + (if shown@.contains(true) && !initial_configure_sent {
                seq![Effect::Configure(surface)]
            } else {
                seq![]
            }),
    {
        let mut effects: Vec<Effect> = Vec::new();
        if !sync_subsurface {
            if let Some(window) = root {
                effects.push(Effect::CommitWindow(window));
            }
        }
        if let Some(e) = handle_initial_configure_all(surface, shown, initial_configure_sent) {
            effects.push(e);
        }
        effects
    }

    /// What follows from the commit of a layer surface, which may have changed
    /// the zone that is left to windows, and may ask for the keyboard.
    pub fn layer_committed(
        &mut self,
        layer_commit: bool,
        old_zone: Rect,
        new_zone: Rect,
        focus_target: Option<u64>,
    ) -> (r: Vec<Effect>)
        ensures
            final(self)@ == (crate::state::StateView {
                focus: if focus_target is Some {
                    focus_target
                } else {
                    old(self)@.focus
                },
                ..old(self)@.redrawn()
            }),
            r@ == old(self)@.layer_commit_effects(layer_commit, old_zone, new_zone, focus_target),
    {
        let mut effects: Vec<Effect> = Vec::new();
        if layer_commit && old_zone != new_zone {
            push_retile_all(&mut effects, self.workspaces.len());
        }
        if let Some(target) = focus_target {
            let has_it = match self.focus {
                Some(f) => f == target,
                None => false,
            };
            if !has_it {
                self.focus = Some(target);
                effects.push(Effect::SetFocus(Some(target)));
            }
        }
        self.needs_redraw = true;
        effects.push(Effect::FlushClients);
        assert(effects@ == old(self)@.layer_commit_effects(
            layer_commit,
            old_zone,
            new_zone,
            focus_target,
        ));
        effects
    }
}

/// Configures a surface that some workspace shows as a window, unless that was
/// done before.
pub fn handle_initial_configure_all(
    surface: u64,
    shown: &Vec<bool>,
    initial_configure_sent: bool,
) -> (r: Option<Effect>)
    ensures
        r == (if shown@.contains(true) && !initial_configure_sent {
            Some(Effect::Configure(surface))
        } else {
            None
        }),
{
    let mut i: usize = 0;
    while i < shown.len()
        invariant
            i <= shown.len(),
            forall|k: int| 0 <= k < i ==> !shown@[k],
        decreases shown.len() - i,
    {
        if shown[i] {
            assert(shown@.contains(true));
            if !initial_configure_sent {
                return Some(Effect::Configure(surface));
            }
            return None;
        }
        i = i + 1;
    }
    None
}

/// What the commit of a surface means if it is a layer surface: whether it is
/// one, and whether it asks for the keyboard. It cannot before it has content.
pub fn handle_layer_commit(
    surface: u64,
    is_layer: bool,
    has_buffer: bool,
    interactivity: KeyboardInteractivity,
    can_receive_keyboard_focus: bool,
) -> (r: (bool, Option<u64>))
    ensures
        r.0 == is_layer,
        r.1 == (if is_layer && has_buffer && (interactivity != KeyboardInteractivity::Never
            || can_receive_keyboard_focus) {
            Some(surface)
        } else {
            None
        }),
{
    if !is_layer {
        return (false, None);
    }
    if !has_buffer {
        return (true, None);
    }
    let focus_target = match interactivity {
        KeyboardInteractivity::Exclusive | KeyboardInteractivity::OnDemand => Some(surface),
        KeyboardInteractivity::Never => {
            if can_receive_keyboard_focus {
                Some(surface)
            } else {
                None
            }
        },
    };
    (true, focus_target)
}

/// The answer to a client that asks about the frame of a window, whatever it
/// asks for: the compositor draws it. Before the window was first configured
/// there is nothing to send.
pub fn decoration_reply(window: u64, initial_configure_sent: bool) -> (r: Vec<Effect>)
    ensures
        r@ == (if initial_configure_sent {
            seq![Effect::DecorateOnServer(window), Effect::Configure(window)]
        } else {
            seq![Effect::DecorateOnServer(window)]
        }),
{
    let mut effects = vec![Effect::DecorateOnServer(window)];
    if initial_configure_sent {
        effects.push(Effect::Configure(window));
    }
    effects
}

} // verus!
