//! What holds of the compositor as a whole.
use crate::actions::IpcCommand;
use crate::bits::{Double, Single};
use crate::input::{InputEvent, KeyEvent};
use crate::keys;
use crate::pointer::Press;
use crate::state::{Effect, WindowGeometry};
use crate::text;
use vstd::prelude::*;

verus! {

/// Whether every window is held at one place only.
pub open spec fn held_once(s: crate::state::StateView) -> bool {
    forall|a: int, i: int, b: int, j: int|
        0 <= a < s.workspaces.len() && 0 <= i < s.workspaces[a].windows.len() && 0 <= b
            < s.workspaces.len() && 0 <= j < s.workspaces[b].windows.len()
            && #[trigger] s.workspaces[a].windows[i] == #[trigger] s.workspaces[b].windows[j] ==> a
            == b && i == j
}

/// Whether some workspace holds a window.
pub open spec fn held(s: crate::state::StateView, window: u64) -> bool {
    exists|a: int| 0 <= a < s.workspaces.len() && #[trigger] s.workspaces[a].windows.contains(window)
}

/// Whether no window is a layer surface.
pub open spec fn layers_apart(s: crate::state::StateView) -> bool {
    forall|a: int, i: int|
        0 <= a < s.workspaces.len() && 0 <= i < s.workspaces[a].windows.len()
            ==> !s.layers.contains(#[trigger] s.workspaces[a].windows[i])
}

/// The compositor is well-formed, holds every window once, and takes none for a
/// layer surface.
pub open spec fn sound(s: crate::state::StateView) -> bool {
    s.wf() && held_once(s) && layers_apart(s)
}

/// Whether two states have the same windows at the same places, and the same
/// layer surfaces.
spec fn same_windows(s: crate::state::StateView, t: crate::state::StateView) -> bool {
    &&& s.layers == t.layers
    &&& s.workspaces.len() == t.workspaces.len()
    &&& forall|a: int|
        0 <= a < s.workspaces.len() ==> #[trigger] s.workspaces[a].windows
            == t.workspaces[a].windows
}

proof fn same_windows_once(s: crate::state::StateView, t: crate::state::StateView)
    requires
        held_once(s),
        layers_apart(s),
        same_windows(s, t),
    ensures
        held_once(t),
        layers_apart(t),
{
    assert forall|a: int, i: int|
        0 <= a < t.workspaces.len() && 0 <= i < t.workspaces[a].windows.len()
            implies !t.layers.contains(#[trigger] t.workspaces[a].windows[i]) by {
        assert(s.workspaces[a].windows == t.workspaces[a].windows);
        assert(!s.layers.contains(s.workspaces[a].windows[i]));
    }
    assert forall|a: int, i: int, b: int, j: int|
        0 <= a < t.workspaces.len() && 0 <= i < t.workspaces[a].windows.len() && 0 <= b
            < t.workspaces.len() && 0 <= j < t.workspaces[b].windows.len()
            && #[trigger] t.workspaces[a].windows[i]
            == #[trigger] t.workspaces[b].windows[j] implies a == b && i == j by {
        assert(s.workspaces[a].windows == t.workspaces[a].windows);
        assert(s.workspaces[b].windows == t.workspaces[b].windows);
        assert(s.workspaces[a].windows[i] == s.workspaces[b].windows[j]);
    }
}

/// Focusing, arranging and switching leave every window where it is.
proof fn focus_keeps_sound(
    s: crate::state::StateView,
    window: u64,
    geometry: WindowGeometry,
    delta: int,
    idx: usize,
    now: u64,
)
    requires
        sound(s),
    ensures
        sound(s.focused(window).0),
        sound(s.focus_dropped()),
        sound(s.focus_moved(delta).0),
        sound(s.floating_toggled(geometry).0),
        sound(s.floating_ensured(window, geometry).0),
        sound(s.workspace_switched(idx, now).0),
        sound(s.layout_cycled()),
{
    same_windows_once(s, s.focused(window).0);
    same_windows_once(s, s.focus_dropped());
    same_windows_once(s, s.focus_moved(delta).0);
    same_windows_once(s, s.floating_toggled(geometry).0);
    same_windows_once(s, s.floating_ensured(window, geometry).0);
    same_windows_once(s, s.workspace_switched(idx, now).0);
    same_windows_once(s, s.layout_cycled());
}

proof fn close_keeps_sound(s: crate::state::StateView, geometry: WindowGeometry, now: u64)
    requires
        sound(s),
    ensures
        sound(s.focus_closed(geometry, now).0),
{
    let t = s.focus_closed(geometry, now).0;
    if s.focus is None || s.layer_focused() || s.focused_place() is None {
        same_windows_once(s, t);
    } else {
        let here = s.active_workspace;
        let place = s.focused_place()->0;
        crate::workspace::place_of_is_first(s.active().windows, s.focus->0);
        assert(t.workspaces[here].windows == s.workspaces[here].windows.remove(place));
        assert forall|a: int, i: int|
            0 <= a < t.workspaces.len() && 0 <= i < t.workspaces[a].windows.len()
                implies !t.layers.contains(#[trigger] t.workspaces[a].windows[i]) by {
            let k = if a == here && i >= place {
                i + 1
            } else {
                i
            };
            assert(t.workspaces[a].windows[i] == s.workspaces[a].windows[k]);
        }
        assert forall|a: int, i: int, b: int, j: int|
            0 <= a < t.workspaces.len() && 0 <= i < t.workspaces[a].windows.len() && 0 <= b
                < t.workspaces.len() && 0 <= j < t.workspaces[b].windows.len()
                && #[trigger] t.workspaces[a].windows[i]
                == #[trigger] t.workspaces[b].windows[j] implies a == b && i == j by {
            let k = if a == here && i >= place {
                i + 1
            } else {
                i
            };
            let l = if b == here && j >= place {
                j + 1
            } else {
                j
            };
            assert(t.workspaces[a].windows[i] == s.workspaces[a].windows[k]);
            assert(t.workspaces[b].windows[j] == s.workspaces[b].windows[l]);
        }
    }
}

proof fn move_keeps_sound(s: crate::state::StateView, target: usize)
    requires
        sound(s),
    ensures
        sound(s.window_moved(target).0),
{
    let t = s.window_moved(target).0;
    if target >= s.workspaces.len() || target == s.active_workspace || s.layer_focused()
        || s.focused_place() is None {
        same_windows_once(s, t);
    } else {
        let here = s.active_workspace;
        let there = target as int;
        let place = s.focused_place()->0;
        crate::workspace::place_of_is_first(s.active().windows, s.focus->0);
        let n = s.workspaces[there].windows.len() as int;
        assert(t.workspaces[here].windows == s.workspaces[here].windows.remove(place));
        assert(t.workspaces[there].windows == s.workspaces[there].windows.push(s.focus->0));
        assert forall|a: int, i: int|
            0 <= a < t.workspaces.len() && 0 <= i < t.workspaces[a].windows.len()
                implies !t.layers.contains(#[trigger] t.workspaces[a].windows[i]) by {
            let (c, k) = if a == there && i == n {
                (here, place)
            } else if a == here && i >= place {
                (a, i + 1)
            } else {
                (a, i)
            };
            assert(t.workspaces[a].windows[i] == s.workspaces[c].windows[k]);
        }
        assert forall|a: int, i: int, b: int, j: int|
            0 <= a < t.workspaces.len() && 0 <= i < t.workspaces[a].windows.len() && 0 <= b
                < t.workspaces.len() && 0 <= j < t.workspaces[b].windows.len()
                && #[trigger] t.workspaces[a].windows[i]
                == #[trigger] t.workspaces[b].windows[j] implies a == b && i == j by {
            let (c, k) = if a == there && i == n {
                (here, place)
            } else if a == here && i >= place {
                (a, i + 1)
            } else {
                (a, i)
            };
            let (d, l) = if b == there && j == n {
                (here, place)
            } else if b == here && j >= place {
                (b, j + 1)
            } else {
                (b, j)
            };
            assert(t.workspaces[a].windows[i] == s.workspaces[c].windows[k]);
            assert(t.workspaces[b].windows[j] == s.workspaces[d].windows[l]);
        }
    }
}

proof fn swap_keeps_sound(s: crate::state::StateView, p: int, q: int)
    requires
        sound(s),
        0 <= p,
        0 <= q,
    ensures
        sound(s.windows_swapped(p, q).0),
{
    let t = s.windows_swapped(p, q).0;
    let here = s.active_workspace;
    if p == q || p >= s.active().windows.len() || q >= s.active().windows.len() {
        same_windows_once(s, t);
    } else {
        assert forall|a: int, i: int|
            0 <= a < t.workspaces.len() && 0 <= i < t.workspaces[a].windows.len()
                implies !t.layers.contains(#[trigger] t.workspaces[a].windows[i]) by {
            let k = if a == here && i == p {
                q
            } else if a == here && i == q {
                p
            } else {
                i
            };
            assert(t.workspaces[a].windows[i] == s.workspaces[a].windows[k]);
        }
        assert forall|a: int, i: int, b: int, j: int|
            0 <= a < t.workspaces.len() && 0 <= i < t.workspaces[a].windows.len() && 0 <= b
                < t.workspaces.len() && 0 <= j < t.workspaces[b].windows.len()
                && #[trigger] t.workspaces[a].windows[i]
                == #[trigger] t.workspaces[b].windows[j] implies a == b && i == j by {
            let k = if a == here && i == p {
                q
            } else if a == here && i == q {
                p
            } else {
                i
            };
            let l = if b == here && j == p {
                q
            } else if b == here && j == q {
                p
            } else {
                j
            };
            assert(t.workspaces[a].windows[i] == s.workspaces[a].windows[k]);
            assert(t.workspaces[b].windows[j] == s.workspaces[b].windows[l]);
        }
    }
}

/// Whatever an action asks for, every window stays held once.
pub proof fn actions_keep_sound(
    s: crate::state::StateView,
    action: keys::ActionView,
    geometry: WindowGeometry,
    now: u64,
)
    requires
        sound(s),
    ensures
        sound(s.acted(action, geometry, now).0),
{
    match action {
        keys::ActionView::Exec(_) => {},
        keys::ActionView::Other(a) => {
            close_keeps_sound(s, geometry, now);
            focus_keeps_sound(s, 0, geometry, 1, 0, now);
            focus_keeps_sound(s, 0, geometry, -1, 0, now);
            match a {
                keys::KeyAction::SwitchWorkspace(idx) => {
                    focus_keeps_sound(s, 0, geometry, 1, idx, now);
                },
                keys::KeyAction::MoveToWorkspace(idx) => {
                    move_keeps_sound(s, idx);
                },
                _ => {},
            }
        },
    }
}

proof fn keys_keep_sound(s: crate::state::StateView, key: KeyEvent)
    requires
        sound(s),
    ensures
        sound(s.key_handled(key).0),
{
    same_windows_once(s, s.key_handled(key).0);
}

proof fn motion_keeps_sound(
    s: crate::state::StateView,
    dx: int,
    dy: int,
    split: Single,
    ratios: Seq<Single>,
)
    requires
        sound(s),
    ensures
        sound(s.pointer_moved(dx, dy, split, ratios).0),
{
    same_windows_once(s, s.pointer_moved(dx, dy, split, ratios).0);
}

proof fn release_keeps_sound(s: crate::state::StateView, drop_target: Option<u64>)
    requires
        sound(s),
    ensures
        sound(s.grab_released(drop_target).0),
{
    let free = crate::state::StateView { pointer_grab: None, ..s };
    same_windows_once(s, free);
    same_windows_once(s, free.redrawn());
    if s.pointer_grab is Some && drop_target is Some {
        let a = crate::workspace::place_of(s.active().windows, s.pointer_grab->0.window);
        let b = crate::workspace::place_of(s.active().windows, drop_target->0);
        crate::workspace::place_of_is_first(s.active().windows, s.pointer_grab->0.window);
        crate::workspace::place_of_is_first(s.active().windows, drop_target->0);
        if a is Some && b is Some {
            swap_keeps_sound(free, a->0, b->0);
            let t = free.windows_swapped(a->0, b->0).0;
            same_windows_once(t, t.redrawn());
        }
    }
}

proof fn press_keeps_sound(s: crate::state::StateView, p: Press)
    requires
        sound(s),
    ensures
        sound(s.pressed(p).0),
{
    same_windows_once(s, s.pressed(p).0);
}

proof fn swipes_keep_sound(
    s: crate::state::StateView,
    fingers: u32,
    screen_width: Option<Double>,
    new_offset: Double,
    damped: Double,
    cancelled: bool,
    fraction: Double,
    velocity: Double,
    now: u64,
)
    requires
        sound(s),
    ensures
        (screen_width is Some ==> (Double { bits: crate::bits::ZERO64 }).at_most(screen_width->0))
            ==> sound(s.swipe_begun(fingers, screen_width, now)),
        sound(s.swipe_moved(new_offset, damped)),
        sound(s.swipe_ended(cancelled, fraction, velocity, now)),
        sound(s.swipe_settled(now).0),
{
    same_windows_once(s, s.swipe_begun(fingers, screen_width, now));
    same_windows_once(s, s.swipe_moved(new_offset, damped));
    same_windows_once(s, s.swipe_ended(cancelled, fraction, velocity, now));
    same_windows_once(s, s.swipe_settled(now).0);
}

/// Whatever the input devices do, the compositor stays well-formed, and every
/// window stays held once.
pub proof fn input_keeps_sound(s: crate::state::StateView, event: InputEvent, now: u64)
    requires
        sound(s),
        s.admits(event),
    ensures
        sound(s.input_handled(event, now).0),
{
    let zero = Double { bits: crate::bits::ZERO64 };
    match event {
        InputEvent::Keyboard { key, geometry } => {
            keys_keep_sound(s, key);
            let (t, effects, action) = s.key_handled(key);
            if action is Some {
                actions_keep_sound(t, action->0, geometry, now);
            }
        },
        InputEvent::PointerMotion { dx, dy, split, ratios } => {
            motion_keeps_sound(s, dx as int, dy as int, split, ratios@);
        },
        InputEvent::ButtonReleased { drop_target } => {
            release_keeps_sound(s, drop_target);
        },
        InputEvent::ButtonPressed { press } => {
            press_keeps_sound(s, press);
        },
        InputEvent::SwipeBegin { fingers, screen_width } => {
            swipes_keep_sound(s, fingers, screen_width, zero, zero, false, zero, zero, now);
        },
        InputEvent::SwipeUpdate { new_offset, damped } => {
            swipes_keep_sound(s, 0, None, new_offset, damped, false, zero, zero, now);
        },
        InputEvent::SwipeEnd { cancelled, fraction, velocity } => {
            swipes_keep_sound(s, 0, None, zero, zero, cancelled, fraction, velocity, now);
        },
        _ => {},
    }
}

/// Whatever comes from outside, the compositor stays well-formed, and every
/// window stays held once.
pub proof fn commands_keep_sound(
    s: crate::state::StateView,
    cmd: IpcCommand,
    geometry: WindowGeometry,
    sum: Single,
    now: u64,
)
    requires
        sound(s),
    ensures
        sound(s.commanded(cmd, geometry, sum, now).0),
{
    close_keeps_sound(s, geometry, now);
    match cmd {
        IpcCommand::CloseFocused => {},
        _ => {
            same_windows_once(s, s.commanded(cmd, geometry, sum, now).0);
        },
    }
}

/// A turn of the event loop keeps the compositor well-formed, and every window
/// held once.
pub proof fn idling_keeps_sound(s: crate::state::StateView, eased: Double, now: u64)
    requires
        sound(s),
    ensures
        sound(s.idled(eased, now).0),
{
    let zero = Double { bits: crate::bits::ZERO64 };
    let a = s.transition_ticked(eased);
    same_windows_once(s, a);
    swipes_keep_sound(a, 0, None, zero, zero, false, zero, zero, now);
    let b = a.swipe_settled(now).0;
    let c = b.reaped(now);
    assert forall|k: int| 0 <= k < b.workspaces.len() implies #[trigger] b.workspaces[k].windows
        == c.workspaces[k].windows by {}
    same_windows_once(b, c);
    same_windows_once(c, c.redrawn());
}

/// A window that is not held yet, and is no layer surface, is held once after it
/// was created.
pub proof fn creation_keeps_sound(s: crate::state::StateView, window: u64, now: u64)
    requires
        sound(s),
        !held(s, window),
        !s.layers.contains(window),
    ensures
        sound(s.toplevel_created(window, now).0),
        held(s.toplevel_created(window, now).0, window),
{
    let t = s.toplevel_created(window, now).0;
    let here = s.active_workspace;
    let n = s.active().windows.len() as int;
    assert(t.workspaces[here].windows == s.workspaces[here].windows.push(window));
    assert forall|a: int, i: int|
        0 <= a < t.workspaces.len() && 0 <= i < t.workspaces[a].windows.len()
            implies !t.layers.contains(#[trigger] t.workspaces[a].windows[i]) by {
        if !(a == here && i == n) {
            assert(t.workspaces[a].windows[i] == s.workspaces[a].windows[i]);
        }
    }
    assert forall|a: int, i: int, b: int, j: int|
        0 <= a < t.workspaces.len() && 0 <= i < t.workspaces[a].windows.len() && 0 <= b
            < t.workspaces.len() && 0 <= j < t.workspaces[b].windows.len()
            && #[trigger] t.workspaces[a].windows[i]
            == #[trigger] t.workspaces[b].windows[j] implies a == b && i == j by {
        if a == here && i == n {
            if !(b == here && j == n) {
                assert(s.workspaces[b].windows[j] == window);
                assert(s.workspaces[b].windows.contains(window));
            }
        } else if b == here && j == n {
            assert(s.workspaces[a].windows[i] == window);
            assert(s.workspaces[a].windows.contains(window));
        } else {
            assert(s.workspaces[a].windows[i] == s.workspaces[b].windows[j]);
        }
    }
    assert(t.workspaces[here].windows[n] == window);
    assert(t.workspaces[here].windows.contains(window));
}

/// What is left of a list that holds nothing twice, without one value: every
/// element stands at one place of the list.
proof fn dropping_places(list: Seq<u64>, value: u64) -> (f: spec_fn(int) -> int)
    ensures
        forall|i: int|
            0 <= i < crate::workspace::dropping(list, value).len() ==> 0 <= #[trigger] f(i)
                < list.len() && list[f(i)] == crate::workspace::dropping(list, value)[i],
        forall|i: int, j: int|
            0 <= i < j < crate::workspace::dropping(list, value).len() ==> #[trigger] f(i)
                < #[trigger] f(j),
    decreases list.len(),
{
    reveal(Seq::filter);
    if list.len() == 0 {
        |i: int| i
    } else {
        let rest = list.drop_last();
        let g = dropping_places(rest, value);
        let n = crate::workspace::dropping(rest, value).len() as int;
        |i: int|
            if i < n {
                g(i)
            } else {
                list.len() - 1
            }
    }
}

proof fn dropped_is_gone(list: Seq<u64>, value: u64)
    ensures
        !crate::workspace::dropping(list, value).contains(value),
    decreases list.len(),
{
    reveal(Seq::filter);
    if list.len() > 0 {
        dropped_is_gone(list.drop_last(), value);
    }
}

/// A window that was destroyed is held no more, and every other one stays held
/// once.
pub proof fn destruction_keeps_sound(s: crate::state::StateView, window: u64)
    requires
        sound(s),
    ensures
        sound(s.toplevel_gone(window)),
        !held(s.toplevel_gone(window), window),
{
    let t = s.toplevel_gone(window);
    crate::shell::holder_is_first(s.workspaces, window);
    let h = crate::shell::holder(s.workspaces, window);
    assert(t.workspaces == crate::shell::window_dropped(s.workspaces, window));
    assert forall|a: int, i: int|
        0 <= a < t.workspaces.len() && 0 <= i < t.workspaces[a].windows.len()
            implies !t.layers.contains(#[trigger] t.workspaces[a].windows[i]) by {
        let f = dropping_places(s.workspaces[a].windows, window);
        let k = if h is None || a <= h->0 {
            f(i)
        } else {
            i
        };
        assert(t.workspaces[a].windows[i] == s.workspaces[a].windows[k]);
    }
    assert forall|a: int, i: int, b: int, j: int|
        0 <= a < t.workspaces.len() && 0 <= i < t.workspaces[a].windows.len() && 0 <= b
            < t.workspaces.len() && 0 <= j < t.workspaces[b].windows.len()
            && #[trigger] t.workspaces[a].windows[i]
            == #[trigger] t.workspaces[b].windows[j] implies a == b && i == j by {
        let f = dropping_places(s.workspaces[a].windows, window);
        let g = dropping_places(s.workspaces[b].windows, window);
        let fa = h is None || a <= h->0;
        let fb = h is None || b <= h->0;
        let k = if fa {
            f(i)
        } else {
            i
        };
        let l = if fb && a == b {
            f(j)
        } else if fb {
            g(j)
        } else {
            j
        };
        assert(t.workspaces[a].windows[i] == s.workspaces[a].windows[k]);
        assert(t.workspaces[b].windows[j] == s.workspaces[b].windows[l]);
    }
    assert forall|a: int| 0 <= a < t.workspaces.len() implies !#[trigger] t.workspaces[a].windows.contains(
    window) by {
        if h is None || a <= h->0 {
            dropped_is_gone(s.workspaces[a].windows, window);
        } else {
            if s.workspaces[a].windows.contains(window) {
                let i = choose|i: int|
                    0 <= i < s.workspaces[a].windows.len() && s.workspaces[a].windows[i] == window;
                let k = h->0;
                let j = choose|j: int|
                    0 <= j < s.workspaces[k].windows.len() && s.workspaces[k].windows[j] == window;
                assert(s.workspaces[a].windows[i] == s.workspaces[k].windows[j]);
            }
        }
    }
}

/// A layer surface that was destroyed leaves every window where it is.
pub proof fn layers_keep_sound(s: crate::state::StateView, surface: u64)
    requires
        sound(s),
    ensures
        sound(s.layer_gone(surface)),
{
    let t = s.layer_gone(surface);
    same_windows_once(s, crate::state::StateView { layers: s.layers, ..t });
    crate::workspace::place_of_is_first(s.layers, surface);
    assert forall|x: u64| #[trigger] t.layers.contains(x) implies s.layers.contains(x) by {
        let k = choose|k: int| 0 <= k < t.layers.len() && t.layers[k] == x;
        let place = crate::workspace::place_of(s.layers, surface);
        assert(s.layers[if place is Some && k >= place->0 {
            k + 1
        } else {
            k
        }] == x);
    }
}

/// Sending the focused window to another workspace neither loses nor adds a
/// window, and what is known of it goes with it.
pub proof fn move_carries_the_window(s: crate::state::StateView, target: usize, w: u64)
    requires
        s.wf(),
        held_once(s),
        target < s.workspaces.len(),
        target != s.active_workspace,
        !s.layer_focused(),
        s.focused_place() is Some,
    ensures
        ({
            let t = s.window_moved(target).0;
            let moved = s.focus->0;
            let there = t.workspaces[target as int];
            &&& held(s, w) == held(t, w)
            &&& there.windows.last() == moved
            &&& !t.active().windows.contains(moved)
            &&& s.active().spawn_times.dom().contains(moved) ==> there.spawn_times.dom().contains(
                moved,
            ) && there.spawn_times[moved] == s.active().spawn_times[moved]
            &&& s.active().floating.contains(moved) ==> there.floating.contains(moved)
            &&& s.active().floating_geo.dom().contains(moved)
                ==> there.floating_geo.dom().contains(moved) && there.floating_geo[moved]
                == s.active().floating_geo[moved]
            &&& s.active().configured_sizes.dom().contains(moved)
                ==> there.configured_sizes.dom().contains(moved)
                && there.configured_sizes[moved] == s.active().configured_sizes[moved]
            &&& !t.active().spawn_times.dom().contains(moved)
            &&& !t.active().floating.contains(moved)
        }),
{
    let t = s.window_moved(target).0;
    let here = s.active_workspace;
    let there = target as int;
    let place = s.focused_place()->0;
    let moved = s.focus->0;
    crate::workspace::place_of_is_first(s.active().windows, moved);
    let before = s.workspaces[here].windows;
    let after = t.workspaces[here].windows;
    assert(after == before.remove(place));
    assert(t.workspaces[there].windows == s.workspaces[there].windows.push(moved));
    assert(t.workspaces[there].windows[s.workspaces[there].windows.len() as int] == moved);
    assert(t.workspaces[there].windows.contains(moved));
    if after.contains(moved) {
        let i = choose|i: int| 0 <= i < after.len() && after[i] == moved;
        let k = if i >= place {
            i + 1
        } else {
            i
        };
        assert(s.workspaces[here].windows[k] == s.workspaces[here].windows[place]);
    }
    if held(s, w) {
        let a = choose|a: int|
            0 <= a < s.workspaces.len() && #[trigger] s.workspaces[a].windows.contains(w);
        let i = choose|i: int|
            0 <= i < s.workspaces[a].windows.len() && s.workspaces[a].windows[i] == w;
        if a == here {
            if i == place {
                assert(t.workspaces[there].windows.contains(w));
            } else {
                let k = if i > place {
                    i - 1
                } else {
                    i
                };
                assert(after[k] == w);
                assert(t.workspaces[here].windows.contains(w));
            }
        } else {
            assert(t.workspaces[a].windows[i] == w);
            assert(t.workspaces[a].windows.contains(w));
        }
    }
    if held(t, w) {
        let a = choose|a: int|
            0 <= a < t.workspaces.len() && #[trigger] t.workspaces[a].windows.contains(w);
        let i = choose|i: int|
            0 <= i < t.workspaces[a].windows.len() && t.workspaces[a].windows[i] == w;
        if a == here {
            let k = if i >= place {
                i + 1
            } else {
                i
            };
            assert(before[k] == w);
            assert(s.workspaces[here].windows.contains(w));
        } else if a == there && i == s.workspaces[there].windows.len() {
            assert(before[place] == w);
            assert(s.workspaces[here].windows.contains(w));
        } else {
            assert(s.workspaces[a].windows[i] == w);
            assert(s.workspaces[a].windows.contains(w));
        }
    }
}

/// A window that begins to float and is put back leaves its workspace as it
/// was, but for the shares of the stack, which become equal.
pub proof fn floating_twice_restores(
    s: crate::state::StateView,
    first: WindowGeometry,
    second: WindowGeometry,
)
    requires
        s.wf(),
        !s.layer_focused(),
        s.focused_place() is Some,
        !s.active().floating.contains(s.focus->0),
        !s.active().floating_geo.dom().contains(s.focus->0),
    ensures
        ({
            let t = s.floating_toggled(first).0.floating_toggled(second).0;
            &&& t.active().floating == s.active().floating
            &&& t.active().floating_geo == s.active().floating_geo
            &&& t.active().windows == s.active().windows
            &&& t.active().stack_ratios == Seq::<Single>::empty()
            &&& t.focus == s.focus
        }),
{
    let t = s.floating_toggled(first).0.floating_toggled(second).0;
    assert(t.active().floating =~= s.active().floating);
    assert(t.active().floating_geo =~= s.active().floating_geo);
}

/// Moving the focus by any number of windows takes it to the window that is so
/// many places further around the end, or to the first where none had it, and
/// leaves the windows where they are.
pub proof fn focus_goes_around(s: crate::state::StateView, delta: int)
    requires
        s.wf(),
        !s.layer_focused(),
        s.active().windows.len() > 0,
    ensures
        ({
            let t = s.focus_moved(delta).0;
            let ws = s.active().windows;
            &&& t.workspaces == s.workspaces && t.active_workspace == s.active_workspace
            &&& t.focus == Some(
                match s.focused_place() {
                    Some(i) => ws[(i + delta) % (ws.len() as int)],
                    None => ws[0],
                },
            )
        }),
{
}

/// Moving the focus by any number of windows and then back by as many comes back
/// to where the focus was.
pub proof fn focus_there_and_back_returns(s: crate::state::StateView, delta: int)
    requires
        sound(s),
        !s.layer_focused(),
        s.focused_place() is Some,
    ensures
        s.focus_moved(delta).0.focus_moved(-delta).0.focus == s.focus,
{
    let ws = s.active().windows;
    let n = ws.len() as int;
    crate::workspace::place_of_is_first(ws, s.focus->0);
    let i = s.focused_place()->0;
    let j = (i + delta) % n;
    vstd::arithmetic::div_mod::lemma_mod_bound(i + delta, n);
    let t = s.focus_moved(delta).0;
    assert(t.active().windows == ws);
    assert(t.focus == Some(ws[j]));
    assert(!s.layers.contains(s.workspaces[s.active_workspace].windows[j]));
    crate::workspace::place_of_is_first(ws, ws[j]);
    let k = t.focused_place()->0;
    assert(s.workspaces[s.active_workspace].windows[k] == s.workspaces[s.active_workspace].windows[j]);
    assert(k == j);
    assert((j - delta) % n == i) by {
        vstd::arithmetic::div_mod::lemma_sub_mod_noop(i + delta, delta, n);
        vstd::arithmetic::div_mod::lemma_sub_mod_noop(j, delta, n);
        vstd::arithmetic::div_mod::lemma_mod_twice(i + delta, n);
        vstd::arithmetic::div_mod::lemma_small_mod(i as nat, n as nat);
    }
}

/// Switching to another workspace and back comes back to the workspace, with
/// every window where it was.
pub proof fn switch_there_and_back(
    s: crate::state::StateView,
    idx: usize,
    now: u64,
    later: u64,
)
    requires
        s.wf(),
        idx < s.workspaces.len(),
        idx != s.active_workspace,
    ensures
        ({
            let there = s.workspace_switched(idx, now).0;
            let back = there.workspace_switched(s.active_workspace as usize, later).0;
            &&& there.active_workspace == idx
            &&& back.active_workspace == s.active_workspace
            &&& back.workspaces == s.workspaces
            &&& back.focus == s.active().last_window()
        }),
{
}

/// While a layer surface has the keyboard, no window is focused, moved or made
/// to float.
pub proof fn layer_keeps_the_keyboard(
    s: crate::state::StateView,
    window: u64,
    geometry: WindowGeometry,
    delta: int,
    target: usize,
)
    requires
        s.layer_focused(),
    ensures
        s.focused(window) == (s, Seq::<Effect>::empty()),
        s.focus_moved(delta) == (s, Seq::<Effect>::empty()),
        s.floating_toggled(geometry) == (s, Seq::<Effect>::empty()),
        s.window_moved(target) == (s, Seq::<Effect>::empty()),
{
}

/// A key that goes to the focused surface changes nothing.
pub proof fn forwarded_keys_change_nothing(s: crate::state::StateView, key: KeyEvent)
    requires
        s.key_handled(key).2 is None,
    ensures
        s.key_handled(key).0 == s,
        s.key_handled(key).1 == Seq::<Effect>::empty(),
{
}

/// A window that was closed fades out where it was, and is dropped when its
/// time is over.
pub proof fn closed_window_fades_out(
    s: crate::state::StateView,
    geometry: WindowGeometry,
    now: u64,
    later: u64,
)
    requires
        s.wf(),
        s.focus is Some,
        !s.layer_focused(),
        s.focused_place() is Some,
    ensures
        ({
            let t = s.focus_closed(geometry, now).0;
            let dying = t.active().dying_windows.last();
            &&& dying.window == s.focus->0
            &&& t.animating(now)
            &&& dying.fading(later) == (crate::animation::elapsed(later, now)
                < crate::animation::FADE_OUT_DURATION)
            &&& !dying.fading(later) ==> !t.reaped(later).active().dying_windows.contains(dying)
        }),
{
    let t = s.focus_closed(geometry, now).0;
    let dying = t.active().dying_windows.last();
    assert(t.active().dying_windows[t.active().dying_windows.len() - 1].fading(now));
    assert(t.workspaces[s.active_workspace].animating(now));
    if !dying.fading(later) {
        faded_is_dropped(t.active().dying_windows, dying, later);
    }
}

proof fn faded_is_dropped(
    list: Seq<crate::animation::DyingWindow>,
    d: crate::animation::DyingWindow,
    now: u64,
)
    requires
        !d.fading(now),
    ensures
        !list.filter(|x: crate::animation::DyingWindow| x.fading(now)).contains(d),
    decreases list.len(),
{
    reveal(Seq::filter);
    if list.len() > 0 {
        faded_is_dropped(list.drop_last(), d, now);
    }
}

/// The workspace that a swipe leads to is a neighbour of the one that it
/// started on.
pub proof fn swipe_leads_to_a_neighbour(
    s: crate::state::StateView,
    cancelled: bool,
    fraction: Double,
    velocity: Double,
    now: u64,
)
    requires
        s.wf(),
        s.gesture_swipe.tracking,
    ensures
        ({
            let t = s.swipe_ended(cancelled, fraction, velocity, now);
            let origin = s.gesture_swipe.origin_workspace;
            &&& t.gesture_pending_switch is Some ==> {
                let target = t.gesture_pending_switch->0;
                &&& target < s.workspaces.len()
                &&& target == origin + 1 || target == origin - 1
            }
            &&& cancelled ==> t.gesture_pending_switch is None
            &&& !t.gesture_swipe.tracking && t.gesture_swipe.animating
        }),
{
}

/// Once the animation after a swipe has run, the workspace that the swipe led
/// to is the active one, and the swipe is over.
pub proof fn settled_swipe_switches(
    s: crate::state::StateView,
    fraction: Double,
    velocity: Double,
    now: u64,
    later: u64,
)
    requires
        s.wf(),
        s.gesture_swipe.tracking,
        crate::animation::elapsed(later, now) >= crate::swipe::SWITCH_DURATION,
    ensures
        ({
            let ended = s.swipe_ended(false, fraction, velocity, now);
            let t = ended.swipe_settled(later).0;
            &&& t.active_workspace == (match ended.gesture_pending_switch {
                Some(target) => target as int,
                None => s.active_workspace,
            })
            &&& !t.gesture_swipe.tracking && !t.gesture_swipe.animating
            &&& t.gesture_pending_switch is None
        }),
{
}

/// Moving the pointer changes neither the focus nor the workspace, whatever it
/// drags along: only a press of a button focuses.
pub proof fn motion_keeps_the_focus(
    s: crate::state::StateView,
    dx: int,
    dy: int,
    split: Single,
    ratios: Seq<Single>,
)
    requires
        s.wf(),
    ensures
        ({
            let (t, effects) = s.pointer_moved(dx, dy, split, ratios);
            &&& t.focus == s.focus
            &&& t.active_workspace == s.active_workspace
            &&& t.active().windows == s.active().windows
            &&& forall|i: int| 0 <= i < effects.len() ==> !(#[trigger] effects[i] is SetFocus)
        }),
{
}

/// A released button ends the grab, and leaves the focus where it is.
pub proof fn release_ends_the_grab(s: crate::state::StateView, drop_target: Option<u64>)
    ensures
        s.grab_released(drop_target).0.pointer_grab is None,
        s.grab_released(drop_target).0.focus == s.focus,
{
}

/// However far a tiled window is dragged larger, master and stack both keep a
/// share of the screen.
pub proof fn master_and_stack_keep_a_share(
    s: crate::state::StateView,
    dx: int,
    dy: int,
    split: Single,
    ratios: Seq<Single>,
)
    requires
        s.wf(),
        s.pointer_grab is Some,
        s.pointer_grab->0.mode == crate::grab::GrabMode::TiledResize,
        s.pointer_grab->0.moves_split(),
        !split.nan(),
    ensures
        ({
            let t = s.pointer_moved(dx, dy, split, ratios).0;
            &&& (Single { bits: crate::pointer::MIN_SPLIT }).at_most(t.active().split_ratio)
            &&& t.active().split_ratio.at_most(Single { bits: crate::pointer::MAX_SPLIT })
        }),
{
}

/// Two windows that change places twice stand where they stood.
pub proof fn swapping_twice_restores(s: crate::state::StateView, a: int, b: int)
    requires
        s.wf(),
        0 <= a,
        0 <= b,
    ensures
        s.windows_swapped(a, b).0.windows_swapped(a, b).0.active().windows == s.active().windows,
{
    assert(s.windows_swapped(a, b).0.windows_swapped(a, b).0.active().windows
        =~= s.active().windows);
}

/// Layer surfaces that come or ask for the keyboard, and are no windows, leave
/// every window where it is.
pub proof fn layer_requests_keep_sound(
    s: crate::state::StateView,
    layers: Seq<u64>,
    focus: Option<u64>,
)
    requires
        sound(s),
        forall|surface: u64| #[trigger] layers.contains(surface) ==> !held(s, surface),
    ensures
        sound(crate::state::StateView { layers, focus, ..s.redrawn() }),
{
    let t = crate::state::StateView { layers, focus, ..s.redrawn() };
    same_windows_once(s, crate::state::StateView { layers: s.layers, ..t });
    assert forall|a: int, i: int|
        0 <= a < t.workspaces.len() && 0 <= i < t.workspaces[a].windows.len()
            implies !t.layers.contains(#[trigger] t.workspaces[a].windows[i]) by {
        assert(s.workspaces[a].windows.contains(t.workspaces[a].windows[i]));
    }
}

/// However the opacity is set, the windows stay visible.
pub proof fn windows_stay_visible(s: crate::state::StateView, value: Single)
    requires
        !value.nan(),
    ensures
        (Single { bits: crate::actions::MIN_OPACITY }).at_most(
            s.with_opacity(value).window_opacity,
        ),
        s.with_opacity(value).window_opacity.at_most(Single { bits: crate::bits::ONE32 }),
{
}

/// Whether a name stands for an action.
#[verifier::opaque]
spec fn acts(name: Seq<char>) -> bool {
    keys::action_named(name) is Some
}

proof fn numbered_acts(name: Seq<char>, n: nat)
    requires
        1 <= n < 10,
        name =~= "workspace_"@ + seq![text::figure(n as int)] || name =~= "move_to_workspace_"@
            + seq![text::figure(n as int)],
    ensures
        acts(name),
{
    reveal(acts);
    keys::numbered_names(n);
}

proof fn fixed_acts(name: Seq<char>)
    requires
        keys::fixed_action(name) is Some,
    ensures
        acts(name),
{
    reveal(acts);
}

proof fn switching_names_act()
    ensures
        acts("workspace_1"@),
        acts("workspace_2"@),
        acts("workspace_3"@),
        acts("workspace_4"@),
        acts("workspace_5"@),
        acts("workspace_6"@),
        acts("workspace_7"@),
        acts("workspace_8"@),
        acts("workspace_9"@),
{
    reveal_strlit("workspace_");
    reveal_strlit("workspace_1");
    reveal_strlit("workspace_2");
    reveal_strlit("workspace_3");
    reveal_strlit("workspace_4");
    reveal_strlit("workspace_5");
    reveal_strlit("workspace_6");
    reveal_strlit("workspace_7");
    reveal_strlit("workspace_8");
    reveal_strlit("workspace_9");
    numbered_acts("workspace_1"@, 1);
    numbered_acts("workspace_2"@, 2);
    numbered_acts("workspace_3"@, 3);
    numbered_acts("workspace_4"@, 4);
    numbered_acts("workspace_5"@, 5);
    numbered_acts("workspace_6"@, 6);
    numbered_acts("workspace_7"@, 7);
    numbered_acts("workspace_8"@, 8);
    numbered_acts("workspace_9"@, 9);
}

proof fn sending_names_act()
    ensures
        acts("move_to_workspace_1"@),
        acts("move_to_workspace_2"@),
        acts("move_to_workspace_3"@),
        acts("move_to_workspace_4"@),
        acts("move_to_workspace_5"@),
        acts("move_to_workspace_6"@),
        acts("move_to_workspace_7"@),
        acts("move_to_workspace_8"@),
        acts("move_to_workspace_9"@),
{
    reveal_strlit("move_to_workspace_");
    reveal_strlit("move_to_workspace_1");
    reveal_strlit("move_to_workspace_2");
    reveal_strlit("move_to_workspace_3");
    reveal_strlit("move_to_workspace_4");
    reveal_strlit("move_to_workspace_5");
    reveal_strlit("move_to_workspace_6");
    reveal_strlit("move_to_workspace_7");
    reveal_strlit("move_to_workspace_8");
    reveal_strlit("move_to_workspace_9");
    numbered_acts("move_to_workspace_1"@, 1);
    numbered_acts("move_to_workspace_2"@, 2);
    numbered_acts("move_to_workspace_3"@, 3);
    numbered_acts("move_to_workspace_4"@, 4);
    numbered_acts("move_to_workspace_5"@, 5);
    numbered_acts("move_to_workspace_6"@, 6);
    numbered_acts("move_to_workspace_7"@, 7);
    numbered_acts("move_to_workspace_8"@, 8);
    numbered_acts("move_to_workspace_9"@, 9);
}

proof fn fixed_names_act()
    ensures
        acts("quit"@),
        acts("reload_config"@),
        acts("spawn_terminal"@),
        acts("spawn_launcher"@),
        acts("close_focused"@),
        acts("toggle_fullscreen"@),
        acts("cycle_layout"@),
        acts("toggle_floating"@),
        acts("cycle_theme"@),
        acts("toggle_navbar"@),
        acts("toggle_wallpaper_menu"@),
        acts("focus_left"@),
        acts("focus_right"@),
        acts("move_window_left"@),
        acts("move_window_right"@),
{
    fixed_acts("quit"@);
    fixed_acts("reload_config"@);
    fixed_acts("spawn_terminal"@);
    fixed_acts("spawn_launcher"@);
    fixed_acts("close_focused"@);
    fixed_acts("toggle_fullscreen"@);
    fixed_acts("cycle_layout"@);
    fixed_acts("toggle_floating"@);
    fixed_acts("cycle_theme"@);
    fixed_acts("toggle_navbar"@);
    fixed_acts("toggle_wallpaper_menu"@);
    fixed_acts("focus_left"@);
    fixed_acts("focus_right"@);
    fixed_acts("move_window_left"@);
    fixed_acts("move_window_right"@);
}

/// Every default binding stands for an action.
pub proof fn default_bindings_act(i: int)
    requires
        0 <= i < crate::config::default_bindings().len(),
    ensures
        keys::action_named(crate::config::default_bindings()[i].action) is Some,
{
    assert(acts(crate::config::default_bindings()[i].action)) by {
        switching_names_act();
        sending_names_act();
        fixed_names_act();
    }
    reveal(acts);
}

} // verus!
