//! What becomes of the windows, their focus and their workspaces.
use crate::state::{Effect, WindowGeometry};
use crate::transition::TransitionDirection;
use crate::workspace::LayoutType;
use vstd::prelude::*;

verus! {

/// The window that has the keyboard is found at the first place that holds it.
pub proof fn focus_is_found(s: crate::state::StateView, place: int)
    requires
        0 <= s.active_workspace < s.workspaces.len(),
        s.focus is Some,
        0 <= place < s.workspaces[s.active_workspace].windows.len(),
        s.workspaces[s.active_workspace].windows[place] == s.focus->0,
        forall|j: int|
            0 <= j < place ==> s.workspaces[s.active_workspace].windows[j] != s.focus->0,
    ensures
        s.focused_place() == Some(place),
{
    crate::workspace::place_of_is_first(s.workspaces[s.active_workspace].windows, s.focus->0);
}

/// A surface that is not on the active workspace is found nowhere on it.
pub proof fn focus_is_not_found(s: crate::state::StateView)
    requires
        0 <= s.active_workspace < s.workspaces.len(),
        s.focus is Some ==> !s.workspaces[s.active_workspace].windows.contains(s.focus->0),
    ensures
        s.focused_place() is None,
{
    if s.focus is Some {
        let windows = s.workspaces[s.active_workspace].windows;
        crate::workspace::place_of_is_first(windows, s.focus->0);
        if s.focused_place() is Some {
            assert(windows[s.focused_place()->0] == s.focus->0);
        }
    }
}

/// A window that was closed leaves the others in their order, and the keyboard goes
/// to the last of those that are left on the workspace, or to none where none is
/// left. Nothing is known of the window any more, but where it fades out.
pub proof fn closing_hands_the_keyboard_on(
    s: crate::state::StateView,
    geometry: WindowGeometry,
    now: u64,
    place: int,
)
    requires
        0 <= s.active_workspace < s.workspaces.len() <= usize::MAX,
        s.focus is Some,
        !s.layers.contains(s.focus->0),
        0 <= place < s.workspaces[s.active_workspace].windows.len(),
        s.workspaces[s.active_workspace].windows[place] == s.focus->0,
        forall|j: int|
            0 <= j < place ==> s.workspaces[s.active_workspace].windows[j] != s.focus->0,
    ensures
        ({
            let (t, effects) = s.focus_closed(geometry, now);
            let here = s.active_workspace;
            let window = s.focus->0;
            let before = s.workspaces[here].windows;
            let after = t.workspaces[here].windows;
            &&& after.len() == before.len() - 1
            &&& forall|i: int| 0 <= i < place ==> #[trigger] after[i] == before[i]
            &&& forall|i: int| place <= i < after.len() ==> #[trigger] after[i] == before[i + 1]
            &&& after.len() == 0 ==> t.focus is None
            &&& after.len() > 0 ==> t.focus == Some(after[after.len() - 1])
            &&& effects.len() == 4
            &&& effects[0] == Effect::CloseWindow(window)
            &&& effects[1] == (Effect::Unmap { workspace: here as usize, window })
            &&& effects[2] == Effect::SetFocus(t.focus)
            &&& effects[3] == Effect::Retile(here as usize)
            &&& t == (crate::state::StateView {
                workspaces: t.workspaces,
                focus: t.focus,
                needs_redraw: true,
                ..s
            })
        }),
        ({
            let t = s.focus_closed(geometry, now).0;
            let here = s.active_workspace;
            let window = s.focus->0;
            let old = s.workspaces[here];
            let new = t.workspaces[here];
            let n = old.dying_windows.len() as int;
            let dying = new.dying_windows[n];
            &&& t.workspaces.len() == s.workspaces.len()
            &&& forall|k: int|
                0 <= k < s.workspaces.len() && k != here ==> #[trigger] t.workspaces[k]
                    == s.workspaces[k]
            &&& new.spawn_times == old.spawn_times.remove(window)
            &&& new.configured_sizes == old.configured_sizes.remove(window)
            &&& new.floating == old.floating.remove(window)
            &&& new.floating_geo == old.floating_geo.remove(window)
            &&& new.stack_ratios.len() == 0
            &&& new.layout == old.layout && new.split_ratio == old.split_ratio
            &&& new.dying_windows.len() == n + 1
            &&& forall|i: int| 0 <= i < n ==> #[trigger] new.dying_windows[i] == old.dying_windows[i]
            &&& dying.window == window
            &&& dying.destroy_time == now
            &&& geometry.location is Some ==> dying.last_location == geometry.location->0
            &&& geometry.location is None ==> dying.last_location.x == 0 && dying.last_location.y
                == 0
            &&& geometry.size.w > 0 && geometry.size.h > 0 ==> dying.last_size == geometry.size
            &&& !(geometry.size.w > 0 && geometry.size.h > 0) && geometry.pending is Some
                ==> dying.last_size == geometry.pending->0
            &&& !(geometry.size.w > 0 && geometry.size.h > 0) && geometry.pending is None
                ==> dying.last_size.w == 100 && dying.last_size.h == 100
        }),
{
    focus_is_found(s, place);
}

/// A layer surface that was closed hands the keyboard to the last window of the
/// active workspace, and no window goes.
pub proof fn closing_a_layer_surface(s: crate::state::StateView, geometry: WindowGeometry, now: u64)
    requires
        0 <= s.active_workspace < s.workspaces.len(),
        s.focus is Some,
        s.layers.contains(s.focus->0),
    ensures
        ({
            let (t, effects) = s.focus_closed(geometry, now);
            let windows = s.workspaces[s.active_workspace].windows;
            &&& windows.len() == 0 ==> t.focus is None
            &&& windows.len() > 0 ==> t.focus == Some(windows[windows.len() - 1])
            &&& effects.len() == 2
            &&& effects[0] == Effect::CloseLayer(s.focus->0)
            &&& effects[1] == Effect::SetFocus(t.focus)
            &&& t == (crate::state::StateView { focus: t.focus, needs_redraw: true, ..s })
        }),
{
}

/// Where no surface has the keyboard, or one that is neither a layer surface nor a
/// window of the active workspace, nothing is closed, moved or made to float.
pub proof fn nothing_focused_nothing_done(
    s: crate::state::StateView,
    geometry: WindowGeometry,
    target: usize,
    now: u64,
)
    requires
        0 <= s.active_workspace < s.workspaces.len(),
        s.focus is Some ==> !s.layers.contains(s.focus->0)
            && !s.workspaces[s.active_workspace].windows.contains(s.focus->0),
    ensures
        s.focus_closed(geometry, now) == (s, Seq::<Effect>::empty()),
        s.floating_toggled(geometry) == (s, Seq::<Effect>::empty()),
        s.window_moved(target) == (s, Seq::<Effect>::empty()),
{
    focus_is_not_found(s);
}

/// A window that is asked to be focused gets the keyboard and comes to the top of the
/// active workspace, unless a layer surface has the keyboard; where the workspace
/// shows one window at a time, it is arranged anew.
pub proof fn focusing_gives_the_keyboard(s: crate::state::StateView, window: u64)
    requires
        0 <= s.active_workspace < s.workspaces.len() <= usize::MAX,
    ensures
        ({
            let (t, effects) = s.focused(window);
            let here = s.active_workspace as usize;
            let alone = s.workspaces[s.active_workspace].layout == LayoutType::Monocle;
            let kept = s.focus is Some && s.layers.contains(s.focus->0);
            &&& kept ==> t == s && effects.len() == 0
            &&& !kept ==> {
                &&& t.focus == Some(window)
                &&& t == (crate::state::StateView {
                    focus: t.focus,
                    needs_redraw: s.needs_redraw || alone,
                    ..s
                })
                &&& effects.len() == (if alone {
                    3int
                } else {
                    2int
                })
                &&& effects[0] == (Effect::Raise { workspace: here, window, activate: true })
                &&& effects[1] == Effect::SetFocus(Some(window))
                &&& alone ==> effects[2] == Effect::Retile(here)
            }
        }),
{
}

/// Moving the focus by `delta` leads from the window at a place to the one so many
/// places further, around the end, and gives it the keyboard.
pub proof fn focus_moves_by_places(s: crate::state::StateView, delta: int, place: int, next: int)
    requires
        0 <= s.active_workspace < s.workspaces.len() <= usize::MAX,
        s.focus is Some,
        !s.layers.contains(s.focus->0),
        0 <= place < s.workspaces[s.active_workspace].windows.len(),
        s.workspaces[s.active_workspace].windows[place] == s.focus->0,
        forall|j: int|
            0 <= j < place ==> s.workspaces[s.active_workspace].windows[j] != s.focus->0,
        0 <= next < s.workspaces[s.active_workspace].windows.len(),
        (next - place - delta) % (s.workspaces[s.active_workspace].windows.len() as int) == 0,
    ensures
        ({
            let (t, effects) = s.focus_moved(delta);
            let window = s.workspaces[s.active_workspace].windows[next];
            &&& t.focus == Some(window)
            &&& t == (crate::state::StateView { focus: t.focus, needs_redraw: true, ..s })
            &&& effects[0] == (Effect::Raise {
                workspace: s.active_workspace as usize,
                window,
                activate: true,
            })
            &&& effects[1] == Effect::SetFocus(Some(window))
            &&& s.workspaces[s.active_workspace].layout == LayoutType::Monocle ==> effects.len()
                == 3 && effects[2] == Effect::Retile(s.active_workspace as usize)
            &&& s.workspaces[s.active_workspace].layout != LayoutType::Monocle ==> effects.len()
                == 2
        }),
{
    focus_is_found(s, place);
    let n = s.workspaces[s.active_workspace].windows.len() as int;
    let m = place + delta;
    vstd::arithmetic::div_mod::lemma_fundamental_div_mod(next - m, n);
    let q = (next - m) / n;
    assert(m == n * (-q) + next) by (nonlinear_arith)
        requires
            next - m == n * q,
    ;
    vstd::arithmetic::div_mod::lemma_mod_multiples_vanish(-q, next, n);
    vstd::arithmetic::div_mod::lemma_small_mod(next as nat, n as nat);
}

/// Moving the focus where no window of the active workspace has it leads to the first
/// window; where there is no window, or a layer surface has the keyboard, nothing
/// happens.
pub proof fn focus_moves_in(s: crate::state::StateView, delta: int)
    requires
        0 <= s.active_workspace < s.workspaces.len(),
        s.focus is Some ==> s.layers.contains(s.focus->0)
            || !s.workspaces[s.active_workspace].windows.contains(s.focus->0),
    ensures
        ({
            let (t, effects) = s.focus_moved(delta);
            let windows = s.workspaces[s.active_workspace].windows;
            let kept = s.focus is Some && s.layers.contains(s.focus->0);
            &&& kept || windows.len() == 0 ==> t == s && effects.len() == 0
            &&& !kept && windows.len() > 0 ==> {
                &&& t == (crate::state::StateView {
                    focus: Some(windows[0]),
                    needs_redraw: true,
                    ..s
                })
                &&& effects == s.focused(windows[0]).1
            }
        }),
{
    if !(s.focus is Some && s.layers.contains(s.focus->0)) {
        focus_is_not_found(s);
    }
}

/// A window that begins to float keeps the place and the size that the display tells
/// of; one that floats goes back into the tiling. Either way the focus and every
/// other window stay as they are, and the stack is shared equally.
pub proof fn floating_is_toggled(s: crate::state::StateView, geometry: WindowGeometry)
    requires
        0 <= s.active_workspace < s.workspaces.len() <= usize::MAX,
        s.focus is Some,
        !s.layers.contains(s.focus->0),
        s.workspaces[s.active_workspace].windows.contains(s.focus->0),
    ensures
        ({
            let (t, effects) = s.floating_toggled(geometry);
            let here = s.active_workspace;
            let window = s.focus->0;
            let old = s.workspaces[here];
            let new = t.workspaces[here];
            let geo = new.floating_geo[window];
            &&& new.floating.contains(window) == !old.floating.contains(window)
            &&& forall|w: u64|
                w != window ==> #[trigger] new.floating.contains(w) == old.floating.contains(w)
            &&& new.floating_geo.dom().contains(window) == !old.floating.contains(window)
            &&& new.floating_geo.remove(window) == old.floating_geo.remove(window)
            &&& !old.floating.contains(window) ==> {
                &&& geometry.location is Some ==> geo.loc == geometry.location->0
                &&& geometry.location is None ==> geo.loc.x == 100 && geo.loc.y == 100
                &&& geometry.size.w > 0 && geometry.size.h > 0 ==> geo.size == geometry.size
                &&& !(geometry.size.w > 0 && geometry.size.h > 0) && geometry.pending is Some
                    ==> geo.size == geometry.pending->0
                &&& !(geometry.size.w > 0 && geometry.size.h > 0) && geometry.pending is None
                    ==> geo.size.w == 640 && geo.size.h == 480
            }
            &&& new.stack_ratios.len() == 0
            &&& new == (crate::workspace::WorkspaceView {
                floating: new.floating,
                floating_geo: new.floating_geo,
                stack_ratios: new.stack_ratios,
                ..old
            })
            &&& forall|k: int|
                0 <= k < s.workspaces.len() && k != here ==> #[trigger] t.workspaces[k]
                    == s.workspaces[k]
            &&& t.workspaces.len() == s.workspaces.len()
            &&& t == (crate::state::StateView {
                workspaces: t.workspaces,
                needs_redraw: true,
                ..s
            })
            &&& effects.len() == 2
            &&& effects[0] == (Effect::Raise { workspace: here as usize, window, activate: true })
            &&& effects[1] == Effect::Retile(here as usize)
        }),
{
    let windows = s.workspaces[s.active_workspace].windows;
    let i = choose|i: int| 0 <= i < windows.len() && windows[i] == s.focus->0;
    crate::workspace::place_of_is_first(windows, s.focus->0);
    let t = s.floating_toggled(geometry).0;
    let here = s.active_workspace;
    assert(t.workspaces[here].floating_geo.remove(s.focus->0)
        =~= s.workspaces[here].floating_geo.remove(s.focus->0));
}

/// A window that was made sure to float floats afterwards; one that floated before
/// stays where it is.
pub proof fn floating_is_ensured(
    s: crate::state::StateView,
    window: u64,
    geometry: WindowGeometry,
)
    requires
        0 <= s.active_workspace < s.workspaces.len() <= usize::MAX,
    ensures
        ({
            let (t, effects) = s.floating_ensured(window, geometry);
            let here = s.active_workspace;
            let old = s.workspaces[here];
            let new = t.workspaces[here];
            let geo = new.floating_geo[window];
            &&& old.floating.contains(window) ==> t == s && effects.len() == 0
            &&& !old.floating.contains(window) ==> {
                &&& new.floating == old.floating.insert(window)
                &&& new.floating_geo.dom().contains(window)
                &&& new.floating_geo.remove(window) == old.floating_geo.remove(window)
                &&& geometry.location is Some ==> geo.loc == geometry.location->0
                &&& geometry.location is None ==> geo.loc.x == 100 && geo.loc.y == 100
                &&& geometry.size.w > 0 && geometry.size.h > 0 ==> geo.size == geometry.size
                &&& !(geometry.size.w > 0 && geometry.size.h > 0) && geometry.pending is Some
                    ==> geo.size == geometry.pending->0
                &&& !(geometry.size.w > 0 && geometry.size.h > 0) && geometry.pending is None
                    ==> geo.size.w == 640 && geo.size.h == 480
                &&& new.stack_ratios.len() == 0
                &&& new == (crate::workspace::WorkspaceView {
                    floating: new.floating,
                    floating_geo: new.floating_geo,
                    stack_ratios: new.stack_ratios,
                    ..old
                })
                &&& t == (crate::state::StateView {
                    workspaces: s.workspaces.update(here, new),
                    ..s
                })
                &&& effects.len() == 1 && effects[0] == Effect::Retile(here as usize)
            }
        }),
{
    let t = s.floating_ensured(window, geometry).0;
    let here = s.active_workspace;
    assert(t.workspaces[here].floating_geo.remove(window) =~= s.workspaces[here].floating_geo.remove(
        window,
    ));
}

/// Of two windows that change places, each stands where the other stood, and every
/// other window stands where it stood before.
pub proof fn swapping_moves_two_windows(s: crate::state::StateView, a: int, b: int)
    requires
        0 <= s.active_workspace < s.workspaces.len() <= usize::MAX,
        0 <= a < s.workspaces[s.active_workspace].windows.len(),
        0 <= b < s.workspaces[s.active_workspace].windows.len(),
    ensures
        ({
            let (t, effects) = s.windows_swapped(a, b);
            let here = s.active_workspace;
            let before = s.workspaces[here].windows;
            let after = t.workspaces[here].windows;
            &&& after.len() == before.len()
            &&& after[a] == before[b]
            &&& after[b] == before[a]
            &&& forall|i: int|
                0 <= i < before.len() && i != a && i != b ==> #[trigger] after[i] == before[i]
            &&& a == b ==> t == s && effects.len() == 0
            &&& a != b ==> {
                &&& t.workspaces[here] == (crate::workspace::WorkspaceView {
                    windows: after,
                    stack_ratios: Seq::empty(),
                    ..s.workspaces[here]
                })
                &&& t == (crate::state::StateView {
                    workspaces: s.workspaces.update(here, t.workspaces[here]),
                    needs_redraw: true,
                    ..s
                })
                &&& effects.len() == 1 && effects[0] == Effect::Retile(here as usize)
            }
        }),
{
}

/// Windows at places that are not on the workspace do not change places.
pub proof fn swapping_past_the_end_does_nothing(s: crate::state::StateView, a: int, b: int)
    requires
        0 <= s.active_workspace < s.workspaces.len(),
        a >= s.workspaces[s.active_workspace].windows.len() || b
            >= s.workspaces[s.active_workspace].windows.len(),
    ensures
        s.windows_swapped(a, b) == (s, Seq::<Effect>::empty()),
{
}

/// Switching leads to the workspace that was asked for, and gives the keyboard to its
/// last window, or to none where it has none. No window moves; a slide begins, to the
/// left where the workspace is a later one.
pub proof fn switching_leads_to_the_workspace(s: crate::state::StateView, idx: usize, now: u64)
    requires
        0 <= s.active_workspace < s.workspaces.len() <= usize::MAX,
    ensures
        ({
            let (t, effects) = s.workspace_switched(idx, now);
            let windows = s.workspaces[idx as int].windows;
            let slide = t.workspace_transition;
            let stays = idx >= s.workspaces.len() || idx == s.active_workspace;
            &&& stays ==> t == s && effects.len() == 0
            &&& !stays ==> {
                &&& t.active_workspace == idx
                &&& windows.len() == 0 ==> t.focus is None
                &&& windows.len() > 0 ==> t.focus == Some(windows[windows.len() - 1])
                &&& slide.active
                &&& slide.from_workspace == s.active_workspace
                &&& slide.to_workspace == idx
                &&& (slide.direction == TransitionDirection::Left) == (idx > s.active_workspace)
                &&& slide.start_time == now
                &&& slide.duration == s.workspace_transition.duration
                &&& slide.progress.bits == 0
                &&& t == (crate::state::StateView {
                    active_workspace: t.active_workspace,
                    focus: t.focus,
                    workspace_transition: slide,
                    needs_redraw: true,
                    ..s
                })
                &&& effects.len() == 3
                &&& effects[0] == Effect::SetFocus(t.focus)
                &&& effects[1] == Effect::Retile(idx)
                &&& effects[2] == Effect::BroadcastWorkspaces
            }
        }),
{
}

/// The focused window that is sent to another workspace comes last there, with all
/// that was known of it, and leaves the others in their order; the keyboard goes to
/// the last window that stays behind. Nothing else is touched.
pub proof fn sending_moves_one_window(s: crate::state::StateView, target: usize, place: int)
    requires
        0 <= s.active_workspace < s.workspaces.len() <= usize::MAX,
        target < s.workspaces.len(),
        target != s.active_workspace,
        s.focus is Some,
        !s.layers.contains(s.focus->0),
        0 <= place < s.workspaces[s.active_workspace].windows.len(),
        s.workspaces[s.active_workspace].windows[place] == s.focus->0,
        forall|j: int|
            0 <= j < place ==> s.workspaces[s.active_workspace].windows[j] != s.focus->0,
    ensures
        ({
            let (t, effects) = s.window_moved(target);
            let here = s.active_workspace;
            let there = target as int;
            let window = s.focus->0;
            let before = s.workspaces[here].windows;
            let after = t.workspaces[here].windows;
            let came = t.workspaces[there].windows;
            let n = s.workspaces[there].windows.len() as int;
            &&& after.len() == before.len() - 1
            &&& forall|i: int| 0 <= i < place ==> #[trigger] after[i] == before[i]
            &&& forall|i: int| place <= i < after.len() ==> #[trigger] after[i] == before[i + 1]
            &&& came.len() == n + 1
            &&& came[n] == window
            &&& forall|i: int|
                0 <= i < n ==> #[trigger] came[i] == s.workspaces[there].windows[i]
            &&& after.len() == 0 ==> t.focus is None
            &&& after.len() > 0 ==> t.focus == Some(after[after.len() - 1])
            &&& forall|k: int|
                0 <= k < s.workspaces.len() && k != here && k != there
                    ==> #[trigger] t.workspaces[k] == s.workspaces[k]
            &&& t.workspaces.len() == s.workspaces.len()
            &&& t == (crate::state::StateView {
                workspaces: t.workspaces,
                focus: t.focus,
                needs_redraw: true,
                ..s
            })
            &&& effects.len() == 5
            &&& effects[0] == (Effect::Unmap { workspace: here as usize, window })
            &&& effects[1] == Effect::SetFocus(t.focus)
            &&& effects[2] == Effect::Retile(here as usize)
            &&& effects[3] == Effect::Retile(target)
            &&& effects[4] == Effect::BroadcastWorkspaces
        }),
        ({
            let t = s.window_moved(target).0;
            let window = s.focus->0;
            let old = s.workspaces[s.active_workspace];
            let left = t.workspaces[s.active_workspace];
            let was = s.workspaces[target as int];
            let new = t.workspaces[target as int];
            &&& left == (crate::workspace::WorkspaceView {
                windows: left.windows,
                spawn_times: old.spawn_times.remove(window),
                configured_sizes: old.configured_sizes.remove(window),
                floating: old.floating.remove(window),
                floating_geo: old.floating_geo.remove(window),
                stack_ratios: Seq::empty(),
                ..old
            })
            &&& new == (crate::workspace::WorkspaceView {
                windows: new.windows,
                spawn_times: new.spawn_times,
                configured_sizes: new.configured_sizes,
                floating: new.floating,
                floating_geo: new.floating_geo,
                stack_ratios: Seq::empty(),
                ..was
            })
            &&& new.spawn_times.remove(window) == was.spawn_times.remove(window)
            &&& new.configured_sizes.remove(window) == was.configured_sizes.remove(window)
            &&& new.floating.remove(window) == was.floating.remove(window)
            &&& new.floating_geo.remove(window) == was.floating_geo.remove(window)
            &&& old.spawn_times.dom().contains(window) ==> new.spawn_times.dom().contains(window)
                && new.spawn_times[window] == old.spawn_times[window]
            &&& old.configured_sizes.dom().contains(window)
                ==> new.configured_sizes.dom().contains(window) && new.configured_sizes[window]
                == old.configured_sizes[window]
            &&& old.floating.contains(window) ==> new.floating.contains(window)
            &&& old.floating_geo.dom().contains(window) ==> new.floating_geo.dom().contains(window)
                && new.floating_geo[window] == old.floating_geo[window]
            &&& !old.spawn_times.dom().contains(window) ==> new.spawn_times == was.spawn_times
            &&& !old.configured_sizes.dom().contains(window) ==> new.configured_sizes
                == was.configured_sizes
            &&& !old.floating.contains(window) ==> new.floating == was.floating
            &&& !old.floating_geo.dom().contains(window) ==> new.floating_geo == was.floating_geo
        }),
{
    focus_is_found(s, place);
    let t = s.window_moved(target).0;
    let window = s.focus->0;
    let was = s.workspaces[target as int];
    let new = t.workspaces[target as int];
    assert(new.spawn_times.remove(window) =~= was.spawn_times.remove(window));
    assert(new.configured_sizes.remove(window) =~= was.configured_sizes.remove(window));
    assert(new.floating.remove(window) =~= was.floating.remove(window));
    assert(new.floating_geo.remove(window) =~= was.floating_geo.remove(window));
}

/// No window is sent to the workspace that it is on, or to one that is not there, nor
/// while a layer surface has the keyboard.
pub proof fn sending_nowhere_does_nothing(s: crate::state::StateView, target: usize)
    requires
        0 <= s.active_workspace < s.workspaces.len(),
        target >= s.workspaces.len() || target == s.active_workspace || (s.focus is Some
            && s.layers.contains(s.focus->0)),
    ensures
        s.window_moved(target) == (s, Seq::<Effect>::empty()),
{
}

/// A new window comes last on the active workspace and starts to fade in; it gets the
/// keyboard, unless a layer surface has it.
pub proof fn creation_adds_one_window(s: crate::state::StateView, window: u64, now: u64)
    requires
        0 <= s.active_workspace < s.workspaces.len() <= usize::MAX,
    ensures
        ({
            let (t, effects) = s.toplevel_created(window, now);
            let here = s.active_workspace;
            let old = s.workspaces[here];
            let new = t.workspaces[here];
            let kept = s.focus is Some && s.layers.contains(s.focus->0);
            &&& new.windows == old.windows.push(window)
            &&& new.spawn_times.dom().contains(window) && new.spawn_times[window] == now
            &&& new.spawn_times.remove(window) == old.spawn_times.remove(window)
            &&& new == (crate::workspace::WorkspaceView {
                windows: new.windows,
                spawn_times: new.spawn_times,
                ..old
            })
            &&& kept ==> t.focus == s.focus
            &&& !kept ==> t.focus == Some(window)
            &&& t == (crate::state::StateView {
                workspaces: s.workspaces.update(here, new),
                focus: t.focus,
                needs_redraw: true,
                ..s
            })
            &&& kept ==> effects == seq![
                Effect::Retile(here as usize),
                Effect::Configure(window),
                Effect::FlushClients,
                Effect::BroadcastWorkspaces,
            ]
            &&& !kept ==> effects == seq![
                Effect::Retile(here as usize),
                Effect::Configure(window),
                Effect::SetFocus(Some(window)),
                Effect::FlushClients,
                Effect::BroadcastWorkspaces,
            ]
        }),
{
    let t = s.toplevel_created(window, now).0;
    let here = s.active_workspace;
    assert(t.workspaces[here].spawn_times.remove(window)
        =~= s.workspaces[here].spawn_times.remove(window));
}

/// One rearrangement is asked for each workspace, from the first to the last.
pub proof fn every_workspace_is_arranged(n: nat, i: int)
    requires
        0 <= i < n <= usize::MAX,
    ensures
        crate::state::retile_all(n).len() == n,
        crate::state::retile_all(n)[i] == Effect::Retile(i as usize),
{
}

/// A window that was destroyed goes from the workspace that held it, and the others
/// stay in their order. The keyboard goes to the last window of the active workspace,
/// unless a layer surface has it; a grab of the window ends.
pub proof fn destruction_takes_one_window(
    s: crate::state::StateView,
    window: u64,
    k: int,
    place: int,
)
    requires
        0 <= s.active_workspace < s.workspaces.len() <= usize::MAX,
        0 <= k < s.workspaces.len(),
        0 <= place < s.workspaces[k].windows.len(),
        s.workspaces[k].windows[place] == window,
        forall|i: int|
            0 <= i < s.workspaces[k].windows.len() && i != place ==> s.workspaces[k].windows[i]
                != window,
        forall|j: int| 0 <= j < k ==> !#[trigger] s.workspaces[j].windows.contains(window),
    ensures
        ({
            let t = s.toplevel_gone(window);
            let effects = s.toplevel_gone_effects(window);
            let old = s.workspaces[k];
            let new = t.workspaces[k];
            let kept = s.focus is Some && s.layers.contains(s.focus->0);
            let left = t.workspaces[s.active_workspace].windows;
            let n = s.workspaces.len() as int;
            &&& new.windows.len() == old.windows.len() - 1
            &&& forall|i: int| 0 <= i < place ==> #[trigger] new.windows[i] == old.windows[i]
            &&& forall|i: int|
                place <= i < new.windows.len() ==> #[trigger] new.windows[i] == old.windows[i + 1]
            &&& new == (crate::workspace::WorkspaceView {
                windows: new.windows,
                spawn_times: old.spawn_times.remove(window),
                configured_sizes: old.configured_sizes.remove(window),
                floating: old.floating.remove(window),
                floating_geo: old.floating_geo.remove(window),
                ..old
            })
            &&& forall|j: int|
                0 <= j < k ==> #[trigger] t.workspaces[j] == (crate::workspace::WorkspaceView {
                    spawn_times: s.workspaces[j].spawn_times.remove(window),
                    configured_sizes: s.workspaces[j].configured_sizes.remove(window),
                    floating: s.workspaces[j].floating.remove(window),
                    floating_geo: s.workspaces[j].floating_geo.remove(window),
                    ..s.workspaces[j]
                })
            &&& forall|j: int| k < j < n ==> #[trigger] t.workspaces[j] == s.workspaces[j]
            &&& t.workspaces.len() == n
            &&& kept ==> t.focus == s.focus
            &&& !kept && left.len() == 0 ==> t.focus is None
            &&& !kept && left.len() > 0 ==> t.focus == Some(left[left.len() - 1])
            &&& s.pointer_grab is Some && s.pointer_grab->0.window == window
                ==> t.pointer_grab is None
            &&& !(s.pointer_grab is Some && s.pointer_grab->0.window == window)
                ==> t.pointer_grab == s.pointer_grab
            &&& t == (crate::state::StateView {
                workspaces: t.workspaces,
                focus: t.focus,
                pointer_grab: t.pointer_grab,
                needs_redraw: true,
                ..s
            })
            &&& effects == seq![Effect::Unmap { workspace: k as usize, window }] + (if kept {
                Seq::<Effect>::empty()
            } else {
                seq![Effect::SetFocus(t.focus)]
            }) + Seq::new(n as nat, |i: int| Effect::Retile(i as usize)) + seq![
                Effect::FlushClients,
                Effect::BroadcastWorkspaces,
            ]
        }),
{
    crate::shell::holder_is_first(s.workspaces, window);
    one_is_dropped(s.workspaces[k].windows, place);
    assert(s.workspaces[k].windows.contains(window));
    assert(crate::shell::holder(s.workspaces, window) == Some(k));
    let t = s.toplevel_gone(window);
    assert forall|j: int| 0 <= j < k implies #[trigger] t.workspaces[j] == (
    crate::workspace::WorkspaceView {
        spawn_times: s.workspaces[j].spawn_times.remove(window),
        configured_sizes: s.workspaces[j].configured_sizes.remove(window),
        floating: s.workspaces[j].floating.remove(window),
        floating_geo: s.workspaces[j].floating_geo.remove(window),
        ..s.workspaces[j]
    }) by {
        nothing_is_dropped(s.workspaces[j].windows, window);
    }
    assert(s.toplevel_gone_effects(window) =~= seq![
        Effect::Unmap { workspace: k as usize, window },
    ] + (if s.focus is Some && s.layers.contains(s.focus->0) {
        Seq::<Effect>::empty()
    } else {
        seq![Effect::SetFocus(t.focus)]
    }) + Seq::new(s.workspaces.len(), |i: int| Effect::Retile(i as usize)) + seq![
        Effect::FlushClients,
        Effect::BroadcastWorkspaces,
    ]);
}

proof fn nothing_is_dropped(list: Seq<u64>, value: u64)
    requires
        !list.contains(value),
    ensures
        crate::workspace::dropping(list, value) == list,
    decreases list.len(),
{
    reveal(Seq::filter);
    if list.len() > 0 {
        let rest = list.drop_last();
        assert forall|i: int| 0 <= i < rest.len() implies rest[i] != value by {
            assert(list[i] == rest[i]);
        }
        nothing_is_dropped(rest, value);
        assert(list[list.len() - 1] == list.last());
        assert(rest.push(list.last()) =~= list);
    }
}

proof fn one_is_dropped(list: Seq<u64>, place: int)
    requires
        0 <= place < list.len(),
        forall|i: int| 0 <= i < list.len() && i != place ==> list[i] != list[place],
    ensures
        crate::workspace::dropping(list, list[place]) == list.remove(place),
    decreases list.len(),
{
    reveal(Seq::filter);
    let rest = list.drop_last();
    if place == list.len() - 1 {
        assert forall|i: int| 0 <= i < rest.len() implies rest[i] != list[place] by {
            assert(list[i] == rest[i]);
        }
        nothing_is_dropped(rest, list[place]);
        assert(list.remove(place) =~= rest);
    } else {
        one_is_dropped(rest, place);
        assert(list.remove(place) =~= rest.remove(place).push(list.last()));
    }
}

/// A window that no workspace holds leaves every list of windows as it is, and nothing
/// is known of it any more; the keyboard goes where it goes when a window was held.
pub proof fn destruction_of_a_stranger(s: crate::state::StateView, window: u64, j: int)
    requires
        0 <= s.active_workspace < s.workspaces.len() <= usize::MAX,
        forall|i: int|
            0 <= i < s.workspaces.len() ==> !#[trigger] s.workspaces[i].windows.contains(window),
        0 <= j < s.workspaces.len(),
    ensures
        ({
            let t = s.toplevel_gone(window);
            let old = s.workspaces[j];
            let kept = s.focus is Some && s.layers.contains(s.focus->0);
            let left = s.workspaces[s.active_workspace].windows;
            let n = s.workspaces.len();
            &&& t.workspaces.len() == n
            &&& t.workspaces[j] == (crate::workspace::WorkspaceView {
                spawn_times: old.spawn_times.remove(window),
                configured_sizes: old.configured_sizes.remove(window),
                floating: old.floating.remove(window),
                floating_geo: old.floating_geo.remove(window),
                ..old
            })
            &&& kept ==> t.focus == s.focus
            &&& !kept && left.len() == 0 ==> t.focus is None
            &&& !kept && left.len() > 0 ==> t.focus == Some(left[left.len() - 1])
            &&& s.pointer_grab is Some && s.pointer_grab->0.window == window
                ==> t.pointer_grab is None
            &&& !(s.pointer_grab is Some && s.pointer_grab->0.window == window)
                ==> t.pointer_grab == s.pointer_grab
            &&& t == (crate::state::StateView {
                workspaces: t.workspaces,
                focus: t.focus,
                pointer_grab: t.pointer_grab,
                needs_redraw: true,
                ..s
            })
            &&& s.toplevel_gone_effects(window) == (if kept {
                Seq::<Effect>::empty()
            } else {
                seq![Effect::SetFocus(t.focus)]
            }) + Seq::new(n, |i: int| Effect::Retile(i as usize)) + seq![
                Effect::FlushClients,
                Effect::BroadcastWorkspaces,
            ]
        }),
{
    nothing_is_dropped(s.workspaces[s.active_workspace].windows, window);
    let t = s.toplevel_gone(window);
    crate::shell::holder_is_first(s.workspaces, window);
    assert(s.toplevel_gone_effects(window) =~= (if s.focus is Some && s.layers.contains(
        s.focus->0,
    ) {
        Seq::<Effect>::empty()
    } else {
        seq![Effect::SetFocus(t.focus)]
    }) + Seq::new(s.workspaces.len(), |i: int| Effect::Retile(i as usize)) + seq![
        Effect::FlushClients,
        Effect::BroadcastWorkspaces,
    ]);
    crate::shell::holder_is_first(s.workspaces, window);
    nothing_is_dropped(s.workspaces[j].windows, window);
}

/// A layer surface that was destroyed goes from the list, and the others stay in
/// their order. If it had the keyboard, that goes to the last window of the active
/// workspace.
pub proof fn destruction_of_a_layer_surface(s: crate::state::StateView, surface: u64, place: int)
    requires
        0 <= s.active_workspace < s.workspaces.len() <= usize::MAX,
        0 <= place < s.layers.len(),
        s.layers[place] == surface,
        forall|j: int| 0 <= j < place ==> s.layers[j] != surface,
    ensures
        ({
            let t = s.layer_gone(surface);
            let effects = s.layer_gone_effects(surface);
            let windows = s.workspaces[s.active_workspace].windows;
            let retile = Seq::new(s.workspaces.len(), |i: int| Effect::Retile(i as usize));
            &&& t.layers.len() == s.layers.len() - 1
            &&& forall|i: int| 0 <= i < place ==> #[trigger] t.layers[i] == s.layers[i]
            &&& forall|i: int|
                place <= i < t.layers.len() ==> #[trigger] t.layers[i] == s.layers[i + 1]
            &&& s.focus != Some(surface) ==> t.focus == s.focus && effects == retile
            &&& s.focus == Some(surface) ==> {
                &&& windows.len() == 0 ==> t.focus is None
                &&& windows.len() > 0 ==> t.focus == Some(windows[windows.len() - 1])
                &&& effects == seq![Effect::SetFocus(t.focus)] + retile
            }
            &&& t == (crate::state::StateView {
                layers: t.layers,
                focus: t.focus,
                needs_redraw: true,
                ..s
            })
        }),
{
    crate::workspace::place_of_is_first(s.layers, surface);
    assert(s.layer_gone_effects(surface) =~= (if s.focus == Some(surface) {
        seq![Effect::SetFocus(s.layer_gone(surface).focus)]
    } else {
        Seq::<Effect>::empty()
    }) + Seq::new(s.workspaces.len(), |i: int| Effect::Retile(i as usize)));
}

/// A surface that is not in the list of layer surfaces leaves the list as it is when it
/// is destroyed.
pub proof fn destruction_of_an_unknown_layer_surface(s: crate::state::StateView, surface: u64)
    requires
        0 <= s.active_workspace < s.workspaces.len() <= usize::MAX,
        !s.layers.contains(surface),
    ensures
        ({
            let t = s.layer_gone(surface);
            let windows = s.workspaces[s.active_workspace].windows;
            let retile = Seq::new(s.workspaces.len(), |i: int| Effect::Retile(i as usize));
            &&& s.focus != Some(surface) ==> t.focus == s.focus && s.layer_gone_effects(surface)
                == retile
            &&& s.focus == Some(surface) ==> {
                &&& windows.len() == 0 ==> t.focus is None
                &&& windows.len() > 0 ==> t.focus == Some(windows[windows.len() - 1])
                &&& s.layer_gone_effects(surface) == seq![Effect::SetFocus(t.focus)] + retile
            }
            &&& t == (crate::state::StateView { focus: t.focus, needs_redraw: true, ..s })
        }),
{
    crate::workspace::place_of_is_first(s.layers, surface);
    if crate::workspace::place_of(s.layers, surface) is Some {
        assert(s.layers[crate::workspace::place_of(s.layers, surface)->0] == surface);
    }
    assert(s.layer_gone_effects(surface) =~= (if s.focus == Some(surface) {
        seq![Effect::SetFocus(s.layer_gone(surface).focus)]
    } else {
        Seq::<Effect>::empty()
    }) + Seq::new(s.workspaces.len(), |i: int| Effect::Retile(i as usize)));
}

/// After the commit of a layer surface the workspaces are arranged anew just where the
/// zone that is left to windows has changed, and the keyboard is given to the surface
/// that asks for it just where it does not have it yet.
pub proof fn layer_commits_are_followed(
    s: crate::state::StateView,
    layer_commit: bool,
    old_zone: crate::geometry::Rect,
    new_zone: crate::geometry::Rect,
    target: Option<u64>,
)
    requires
        s.workspaces.len() <= usize::MAX,
    ensures
        ({
            let effects = s.layer_commit_effects(layer_commit, old_zone, new_zone, target);
            let n = s.workspaces.len() as int;
            let changed = layer_commit && old_zone != new_zone;
            let asks = target is Some && s.focus != target;
            &&& effects.len() == (if changed {
                n
            } else {
                0
            }) + (if asks {
                2int
            } else {
                1int
            })
            &&& effects[effects.len() - 1] == Effect::FlushClients
            &&& changed ==> forall|i: int|
                0 <= i < n ==> #[trigger] effects[i] == Effect::Retile(i as usize)
            &&& asks ==> effects[effects.len() - 2] == Effect::SetFocus(target)
        }),
{
}

/// The windows that are tiled are those that do not float, in their order; all but
/// the first of them are in the stack.
pub proof fn tiling_leaves_out_what_floats(ws: crate::workspace::WorkspaceView)
    ensures
        ws.tiled() == ws.windows.filter(|w: u64| !ws.floating.contains(w)),
        ws.tiled().len() <= 1 ==> ws.stack_count() == 0,
        ws.tiled().len() >= 1 ==> ws.stack_count() == ws.tiled().len() - 1,
{
    assert((|w: u64| !ws.floating.contains(w)) =~= (|w: u64| !ws.floating.contains(w)));
}

/// A workspace changes between its two layouts, and changing twice leads back;
/// nothing else changes.
pub proof fn layouts_take_turns(s: crate::state::StateView)
    requires
        0 <= s.active_workspace < s.workspaces.len(),
    ensures
        ({
            let t = s.layout_cycled();
            let here = s.active_workspace;
            let old = s.workspaces[here];
            let new = t.workspaces[here];
            &&& new.layout != old.layout
            &&& t.layout_cycled().workspaces[here].layout == old.layout
            &&& new == (crate::workspace::WorkspaceView { layout: new.layout, ..old })
            &&& t == (crate::state::StateView {
                workspaces: s.workspaces.update(here, new),
                needs_redraw: true,
                ..s
            })
        }),
{
}

/// A workspace without windows has nothing in it, and lets master and stack share the
/// screen equally.
pub proof fn fresh_workspaces_are_empty()
    ensures
        ({
            let ws = crate::workspace::WorkspaceView::fresh();
            &&& ws.windows.len() == 0
            &&& ws.spawn_times.dom().is_empty()
            &&& ws.configured_sizes.dom().is_empty()
            &&& ws.floating.is_empty()
            &&& ws.floating_geo.dom().is_empty()
            &&& ws.stack_ratios.len() == 0
            &&& ws.dying_windows.len() == 0
            &&& ws.layout == LayoutType::MasterStack
            &&& ws.split_ratio.bits == 0x3F00_0000
        }),
{
}

/// The layer surface that has the keyboard is one of the list, and no window.
pub proof fn layer_focus_is_in_the_list(s: crate::state::StateView)
    ensures
        s.layer_focused() == (exists|i: int|
            0 <= i < s.layers.len() && s.focus == Some(#[trigger] s.layers[i])),
{
    if s.layer_focused() {
        let i = choose|i: int| 0 <= i < s.layers.len() && s.layers[i] == s.focus->0;
        assert(s.focus == Some(s.layers[i]));
    }
}

/// The keyboard falls to the last window of the active workspace, or to none where it
/// has none, and the display is told the same.
pub proof fn keyboard_falls_to_the_last_window(s: crate::state::StateView)
    requires
        0 <= s.active_workspace < s.workspaces.len(),
    ensures
        ({
            let t = s.focus_dropped();
            let windows = s.workspaces[s.active_workspace].windows;
            &&& windows.len() == 0 ==> t.focus is None
            &&& windows.len() > 0 ==> t.focus == Some(windows[windows.len() - 1])
            &&& t == (crate::state::StateView { focus: t.focus, ..s })
            &&& s.focus_dropped_effect() == Effect::SetFocus(t.focus)
            &&& s.workspaces[s.active_workspace].last_window() == t.focus
        }),
{
}

/// The window at a place leaves a workspace alone, with all that is known of it; what is
/// known of it goes along.
pub proof fn leaving_takes_one_window(ws: crate::workspace::WorkspaceView, place: int)
    requires
        0 <= place < ws.windows.len(),
    ensures
        ({
            let t = ws.removed(place);
            let window = ws.windows[place];
            let d = ws.departure(window);
            &&& t.windows.len() == ws.windows.len() - 1
            &&& forall|i: int| 0 <= i < place ==> #[trigger] t.windows[i] == ws.windows[i]
            &&& forall|i: int|
                place <= i < t.windows.len() ==> #[trigger] t.windows[i] == ws.windows[i + 1]
            &&& t == (crate::workspace::WorkspaceView {
                windows: t.windows,
                spawn_times: ws.spawn_times.remove(window),
                configured_sizes: ws.configured_sizes.remove(window),
                floating: ws.floating.remove(window),
                floating_geo: ws.floating_geo.remove(window),
                stack_ratios: Seq::empty(),
                ..ws
            })
            &&& d.window == window
            &&& d.spawn_time is Some <==> ws.spawn_times.dom().contains(window)
            &&& d.spawn_time is Some ==> d.spawn_time->0 == ws.spawn_times[window]
            &&& d.configured_size is Some <==> ws.configured_sizes.dom().contains(window)
            &&& d.configured_size is Some ==> d.configured_size->0 == ws.configured_sizes[window]
            &&& d.was_floating <==> ws.floating.contains(window)
            &&& d.float_geo is Some <==> ws.floating_geo.dom().contains(window)
            &&& d.float_geo is Some ==> d.float_geo->0 == ws.floating_geo[window]
        }),
{
}

/// A window that comes from another workspace is the last one, and what was known of it
/// there is known here; nothing else changes but the shares of the stack.
pub proof fn coming_adds_one_window(
    ws: crate::workspace::WorkspaceView,
    d: crate::workspace::Departure,
)
    ensures
        ({
            let t = ws.received(d);
            &&& t.windows == ws.windows.push(d.window)
            &&& d.spawn_time is None ==> t.spawn_times == ws.spawn_times
            &&& d.spawn_time is Some ==> t.spawn_times == ws.spawn_times.insert(
                d.window,
                d.spawn_time->0,
            )
            &&& d.configured_size is None ==> t.configured_sizes == ws.configured_sizes
            &&& d.configured_size is Some ==> t.configured_sizes == ws.configured_sizes.insert(
                d.window,
                d.configured_size->0,
            )
            &&& !d.was_floating ==> t.floating == ws.floating
            &&& d.was_floating ==> t.floating == ws.floating.insert(d.window)
            &&& d.float_geo is None ==> t.floating_geo == ws.floating_geo
            &&& d.float_geo is Some ==> t.floating_geo == ws.floating_geo.insert(
                d.window,
                d.float_geo->0,
            )
            &&& t.stack_ratios.len() == 0
            &&& t.layout == ws.layout && t.split_ratio == ws.split_ratio && t.dying_windows
                == ws.dying_windows
        }),
{
}

/// A window that leaves a workspace and comes back is the last one, with all that was
/// known of it; the others keep their order.
pub proof fn leaving_and_coming_back(ws: crate::workspace::WorkspaceView, place: int)
    requires
        0 <= place < ws.windows.len(),
    ensures
        ({
            let window = ws.windows[place];
            let t = ws.removed(place).received(ws.departure(window));
            &&& t.windows == ws.windows.remove(place).push(window)
            &&& t.spawn_times == ws.spawn_times
            &&& t.configured_sizes == ws.configured_sizes
            &&& t.floating == ws.floating
            &&& t.floating_geo == ws.floating_geo
        }),
{
    let window = ws.windows[place];
    let t = ws.removed(place).received(ws.departure(window));
    assert(t.spawn_times =~= ws.spawn_times);
    assert(t.configured_sizes =~= ws.configured_sizes);
    assert(t.floating =~= ws.floating);
    assert(t.floating_geo =~= ws.floating_geo);
}

/// A window that is forgotten is nowhere in the list any more, the others keep their
/// order, and nothing is known of it.
pub proof fn forgetting_takes_one_window(
    ws: crate::workspace::WorkspaceView,
    window: u64,
    place: int,
)
    requires
        0 <= place < ws.windows.len(),
        ws.windows[place] == window,
        forall|i: int| 0 <= i < ws.windows.len() && i != place ==> ws.windows[i] != window,
    ensures
        ({
            let t = ws.forgotten(window);
            &&& t.windows.len() == ws.windows.len() - 1
            &&& forall|i: int| 0 <= i < place ==> #[trigger] t.windows[i] == ws.windows[i]
            &&& forall|i: int|
                place <= i < t.windows.len() ==> #[trigger] t.windows[i] == ws.windows[i + 1]
            &&& t == (crate::workspace::WorkspaceView {
                windows: t.windows,
                spawn_times: ws.spawn_times.remove(window),
                configured_sizes: ws.configured_sizes.remove(window),
                floating: ws.floating.remove(window),
                floating_geo: ws.floating_geo.remove(window),
                ..ws
            })
        }),
{
    one_is_dropped(ws.windows, place);
}

/// A workspace forgets a window that it does not hold without a change of its list, and
/// a window that it holds several times it holds no more.
pub proof fn forgetting_all_of_a_window(ws: crate::workspace::WorkspaceView, window: u64)
    ensures
        !ws.forgotten(window).windows.contains(window),
        !ws.windows.contains(window) ==> ws.forgotten(window).windows == ws.windows,
        forall|w: u64|
            w != window ==> (#[trigger] ws.forgotten(window).windows.contains(w)
                <==> ws.windows.contains(w)),
{
    if !ws.windows.contains(window) {
        nothing_is_dropped(ws.windows, window);
    }
    others_stay(ws.windows, window);
}

proof fn others_stay(list: Seq<u64>, value: u64)
    ensures
        !crate::workspace::dropping(list, value).contains(value),
        forall|w: u64|
            w != value ==> (#[trigger] crate::workspace::dropping(list, value).contains(w)
                <==> list.contains(w)),
    decreases list.len(),
{
    reveal(Seq::filter);
    if list.len() > 0 {
        let rest = list.drop_last();
        let last = list.last();
        others_stay(rest, value);
        let a = crate::workspace::dropping(rest, value);
        let b = crate::workspace::dropping(list, value);
        assert(b == (if last != value {
            a.push(last)
        } else {
            a
        }));
        assert forall|w: u64| w != value implies (#[trigger] b.contains(w) <==> list.contains(w)) by {
            assert(a.contains(w) <==> rest.contains(w));
            if list.contains(w) {
                let i = choose|i: int| 0 <= i < list.len() && list[i] == w;
                if i < rest.len() {
                    assert(rest[i] == w);
                    let j = choose|j: int| 0 <= j < a.len() && a[j] == w;
                    assert(b[j] == w);
                } else {
                    assert(b[a.len() as int] == w);
                }
            }
            if b.contains(w) {
                let j = choose|j: int| 0 <= j < b.len() && b[j] == w;
                if j < a.len() {
                    assert(a[j] == w);
                    let i = choose|i: int| 0 <= i < rest.len() && rest[i] == w;
                    assert(list[i] == w);
                } else {
                    assert(list[list.len() - 1] == w);
                }
            }
        }
        if b.contains(value) {
            let j = choose|j: int| 0 <= j < b.len() && b[j] == value;
            assert(j < a.len());
            assert(a[j] == value);
        }
    }
}

/// A window comes into a workspace, floats and sinks without touching any other.
pub proof fn workspaces_change_one_window(
    ws: crate::workspace::WorkspaceView,
    window: u64,
    geo: crate::geometry::Rect,
    now: u64,
)
    ensures
        ws.spawned(window, now) == (crate::workspace::WorkspaceView {
            windows: ws.windows.push(window),
            spawn_times: ws.spawn_times.insert(window, now),
            ..ws
        }),
        ws.floated(window, geo) == (crate::workspace::WorkspaceView {
            floating: ws.floating.insert(window),
            floating_geo: ws.floating_geo.insert(window, geo),
            stack_ratios: Seq::empty(),
            ..ws
        }),
        ws.sunk(window) == (crate::workspace::WorkspaceView {
            floating: ws.floating.remove(window),
            floating_geo: ws.floating_geo.remove(window),
            stack_ratios: Seq::empty(),
            ..ws
        }),
        !ws.floating.contains(window) && !ws.floating_geo.dom().contains(window) ==> ws.floated(
            window,
            geo,
        ).sunk(window) == (crate::workspace::WorkspaceView { stack_ratios: Seq::empty(), ..ws }),
{
    if !ws.floating.contains(window) && !ws.floating_geo.dom().contains(window) {
        let t = ws.floated(window, geo).sunk(window);
        assert(t.floating =~= ws.floating);
        assert(t.floating_geo =~= ws.floating_geo);
    }
}

/// Two places of a workspace are swapped, and no other changes, whichever comes first.
pub proof fn workspaces_swap_two_places(ws: crate::workspace::WorkspaceView, a: int, b: int)
    requires
        0 <= a < ws.windows.len(),
        0 <= b < ws.windows.len(),
    ensures
        ({
            let t = ws.swapped(a, b);
            &&& t.windows.len() == ws.windows.len()
            &&& t.windows[a] == ws.windows[b]
            &&& t.windows[b] == ws.windows[a]
            &&& forall|i: int|
                0 <= i < ws.windows.len() && i != a && i != b ==> #[trigger] t.windows[i]
                    == ws.windows[i]
            &&& t == (crate::workspace::WorkspaceView {
                windows: t.windows,
                stack_ratios: Seq::empty(),
                ..ws
            })
            &&& t.windows == ws.swapped(b, a).windows
        }),
{
    assert(ws.swapped(a, b).windows =~= ws.swapped(b, a).windows);
}

/// A workspace is drawn anew while one of its windows fades in or out.
pub proof fn workspaces_fade(ws: crate::workspace::WorkspaceView, now: u64)
    ensures
        ws.dying(now) <==> exists|i: int|
            0 <= i < ws.dying_windows.len() && now - (
            #[trigger] ws.dying_windows[i]).destroy_time < 200_000_000,
        ws.animating(now) <==> ws.dying(now) || exists|w: u64|
            ws.spawn_times.dom().contains(w) && now - #[trigger] ws.spawn_times[w] < 200_000_000,
{
    if ws.dying(now) {
        let i = choose|i: int|
            0 <= i < ws.dying_windows.len() && #[trigger] ws.dying_windows[i].fading(now);
        assert(now - ws.dying_windows[i].destroy_time < 200_000_000);
    }
    assert forall|i: int|
        0 <= i < ws.dying_windows.len() && now - (
        #[trigger] ws.dying_windows[i]).destroy_time < 200_000_000 implies ws.dying(now) by {
        assert(ws.dying_windows[i].fading(now));
    }
    if ws.animating(now) && !ws.dying(now) {
        let w = choose|w: u64|
            #![trigger ws.spawn_times.dom().contains(w)]
            ws.spawn_times.dom().contains(w) && crate::animation::running(
                now,
                ws.spawn_times[w],
                200_000_000,
            ) is Some;
        assert(now - ws.spawn_times[w] < 200_000_000);
    }
    assert forall|w: u64|
        ws.spawn_times.dom().contains(w) && now - #[trigger] ws.spawn_times[w]
            < 200_000_000 implies ws.animating(now) by {
        assert(ws.spawn_times.dom().contains(w));
    }
}

} // verus!
