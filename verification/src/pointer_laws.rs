//! What the pointer does to the windows.
use crate::bits::Single;
use crate::geometry::{Position, Rect, Size};
use crate::grab::GrabMode;
use crate::pointer::{Cell, Press, PressOutcome};
use crate::state::{Effect, WindowGeometry};
use vstd::prelude::*;

verus! {

/// A floating window that is dragged stands as far from where it stood as the pointer
/// is from where it took hold, in each direction, and keeps its size; it is shown
/// inside its border. Nothing else moves.
pub proof fn dragging_moves_with_the_pointer(
    s: crate::state::StateView,
    dx: int,
    dy: int,
    split: Single,
    ratios: Seq<Single>,
)
    requires
        0 <= s.active_workspace < s.workspaces.len() <= usize::MAX,
        s.pointer_grab is Some,
        s.pointer_grab->0.mode == GrabMode::FloatingMove,
        s.motion_fits(dx, dy),
    ensures
        ({
            let (t, effects) = s.pointer_moved(dx, dy, split, ratios);
            let here = s.active_workspace;
            let window = s.pointer_grab->0.window;
            let start = s.pointer_grab->0.start_geo.loc;
            let old = s.workspaces[here];
            let new = t.workspaces[here];
            let geo = new.floating_geo[window];
            let bw = if s.config.border_width > 0 {
                s.config.border_width
            } else {
                0
            };
            &&& old.floating_geo.dom().contains(window) ==> {
                &&& new.floating_geo.dom().contains(window)
                &&& geo.loc.x - start.x == dx
                &&& geo.loc.y - start.y == dy
                &&& geo.size == old.floating_geo[window].size
            }
            &&& !old.floating_geo.dom().contains(window) ==> new.floating_geo == old.floating_geo
            &&& new.floating_geo.remove(window) == old.floating_geo.remove(window)
            &&& new == (crate::workspace::WorkspaceView { floating_geo: new.floating_geo, ..old })
            &&& t == (crate::state::StateView {
                workspaces: s.workspaces.update(here, new),
                needs_redraw: true,
                ..s
            })
            &&& effects.len() == 2
            &&& effects[0] is Place
            &&& effects[0]->Place_workspace == here
            &&& effects[0]->Place_window == window
            &&& effects[0]->Place_location.x - bw - start.x == dx
            &&& effects[0]->Place_location.y - bw - start.y == dy
            &&& effects[1] == (Effect::Raise { workspace: here as usize, window, activate: false })
        }),
{
    let t = s.pointer_moved(dx, dy, split, ratios).0;
    let here = s.active_workspace;
    let window = s.pointer_grab->0.window;
    assert(t.workspaces[here].floating_geo.remove(window) =~= s.workspaces[here].floating_geo.remove(
        window,
    ));
}

/// A floating window that was not dragged away stands where it stood.
pub proof fn dragging_nowhere_moves_nothing(
    s: crate::state::StateView,
    split: Single,
    ratios: Seq<Single>,
)
    requires
        0 <= s.active_workspace < s.workspaces.len() <= usize::MAX,
        s.pointer_grab is Some,
        s.pointer_grab->0.mode == GrabMode::FloatingMove,
        s.workspaces[s.active_workspace].floating_geo.dom().contains(s.pointer_grab->0.window),
        s.workspaces[s.active_workspace].floating_geo[s.pointer_grab->0.window]
            == s.pointer_grab->0.start_geo,
    ensures
        s.pointer_moved(0, 0, split, ratios).0.workspaces == s.workspaces,
{
    let t = s.pointer_moved(0, 0, split, ratios).0;
    let here = s.active_workspace;
    assert(t.workspaces[here].floating_geo =~= s.workspaces[here].floating_geo);
    assert(t.workspaces =~= s.workspaces);
}

/// A floating window that is resized grows as far as the pointer has gone, and stays 64
/// pixels wide and high at least; it stays where it is. Its client is told the size
/// that is left inside the border, one pixel at least, and only once.
pub proof fn resizing_grows_with_the_pointer(
    s: crate::state::StateView,
    dx: int,
    dy: int,
    split: Single,
    ratios: Seq<Single>,
)
    requires
        0 <= s.active_workspace < s.workspaces.len() <= usize::MAX,
        s.pointer_grab is Some,
        s.pointer_grab->0.mode == GrabMode::FloatingResize,
        s.motion_fits(dx, dy),
    ensures
        ({
            let (t, effects) = s.pointer_moved(dx, dy, split, ratios);
            let here = s.active_workspace;
            let window = s.pointer_grab->0.window;
            let start = s.pointer_grab->0.start_geo.size;
            let old = s.workspaces[here];
            let new = t.workspaces[here];
            let geo = new.floating_geo[window];
            let w = if start.w + dx > 64 {
                start.w + dx
            } else {
                64
            };
            let h = if start.h + dy > 64 {
                start.h + dy
            } else {
                64
            };
            let bw = if s.config.border_width > 0 {
                s.config.border_width
            } else {
                0
            };
            let inner = effects[0]->SetSize_size;
            let known = old.configured_sizes.dom().contains(window)
                && old.configured_sizes[window] == inner;
            &&& old.floating_geo.dom().contains(window) ==> {
                &&& new.floating_geo.dom().contains(window)
                &&& geo.loc == old.floating_geo[window].loc
                &&& geo.size.w == w
                &&& geo.size.h == h
            }
            &&& !old.floating_geo.dom().contains(window) ==> new.floating_geo == old.floating_geo
            &&& new.floating_geo.remove(window) == old.floating_geo.remove(window)
            &&& effects[0] is SetSize
            &&& effects[0]->SetSize_window == window
            &&& inner.w >= 1 && inner.h >= 1
            &&& w - 2 * bw >= 1 ==> inner.w + 2 * bw == w
            &&& w - 2 * bw < 1 ==> inner.w == 1
            &&& h - 2 * bw >= 1 ==> inner.h + 2 * bw == h
            &&& h - 2 * bw < 1 ==> inner.h == 1
            &&& new.configured_sizes.dom().contains(window) && new.configured_sizes[window]
                == inner
            &&& new.configured_sizes.remove(window) == old.configured_sizes.remove(window)
            &&& known ==> effects.len() == 2
            &&& !known ==> effects.len() == 3 && effects[1] == Effect::Configure(window)
            &&& effects[effects.len() - 1] == (Effect::Raise {
                workspace: here as usize,
                window,
                activate: false,
            })
            &&& new == (crate::workspace::WorkspaceView {
                floating_geo: new.floating_geo,
                configured_sizes: new.configured_sizes,
                ..old
            })
            &&& t == (crate::state::StateView {
                workspaces: s.workspaces.update(here, new),
                needs_redraw: true,
                ..s
            })
        }),
{
    let t = s.pointer_moved(dx, dy, split, ratios).0;
    let here = s.active_workspace;
    let window = s.pointer_grab->0.window;
    assert(t.workspaces[here].floating_geo.remove(window) =~= s.workspaces[here].floating_geo.remove(
        window,
    ));
    assert(t.workspaces[here].configured_sizes.remove(window)
        =~= s.workspaces[here].configured_sizes.remove(window));
}

/// A motion can be followed just where every coordinate that it leads to is an `i32`.
pub proof fn motions_that_can_be_followed(s: crate::state::StateView, dx: int, dy: int)
    ensures
        ({
            let bw = if s.config.border_width > 0 {
                s.config.border_width
            } else {
                0
            };
            let g = s.pointer_grab->0;
            let x = g.start_geo.loc.x + dx;
            let y = g.start_geo.loc.y + dy;
            let w = g.start_geo.size.w + dx;
            let h = g.start_geo.size.h + dy;
            &&& s.pointer_grab is None ==> s.motion_fits(dx, dy)
            &&& s.pointer_grab is Some && g.mode == GrabMode::FloatingMove ==> (s.motion_fits(
                dx,
                dy,
            ) <==> {
                &&& -0x8000_0000 <= x && x + bw < 0x8000_0000
                &&& -0x8000_0000 <= y && y + bw < 0x8000_0000
            })
            &&& s.pointer_grab is Some && g.mode == GrabMode::FloatingResize ==> (s.motion_fits(
                dx,
                dy,
            ) <==> {
                &&& -0x8000_0000 <= w < 0x8000_0000
                &&& -0x8000_0000 <= h < 0x8000_0000
                &&& 2 * bw < 0x8000_0000
            })
            &&& s.pointer_grab is Some && (g.mode == GrabMode::TiledMove || g.mode
                == GrabMode::TiledResize) ==> s.motion_fits(dx, dy)
        }),
{
}

/// A motion without a grab, or with a grab of a tiled window that is moved, changes
/// nothing on the workspaces.
pub proof fn motion_without_a_floating_grab(
    s: crate::state::StateView,
    dx: int,
    dy: int,
    split: Single,
    ratios: Seq<Single>,
)
    requires
        s.pointer_grab is Some ==> s.pointer_grab->0.mode == GrabMode::TiledMove,
    ensures
        s.pointer_moved(dx, dy, split, ratios) == (
            crate::state::StateView { needs_redraw: true, ..s },
            Seq::<Effect>::empty(),
        ),
{
}

/// Resizing a tiled window moves the line between master and stack to where the pointer
/// is, between a tenth and nine tenths of the screen, where there is a stack; and it
/// sets the shares of the stack where the window is one of at least two in it.
pub proof fn resizing_moves_the_lines(
    s: crate::state::StateView,
    dx: int,
    dy: int,
    split: Single,
    ratios: Seq<Single>,
)
    requires
        0 <= s.active_workspace < s.workspaces.len() <= usize::MAX,
        s.pointer_grab is Some,
        s.pointer_grab->0.mode == GrabMode::TiledResize,
    ensures
        ({
            let (t, effects) = s.pointer_moved(dx, dy, split, ratios);
            let here = s.active_workspace;
            let g = s.pointer_grab->0;
            let old = s.workspaces[here];
            let new = t.workspaces[here];
            let least = Single { bits: 0x3DCC_CCCD };
            let most = Single { bits: 0x3F66_6666 };
            let beside = g.screen_width > 0 && g.tiled_count > 1;
            let stacked = g.screen_height > 0 && g.tiled_count > 2 && 0 < g.tiled_index
                < g.tiled_count;
            &&& !beside ==> new.split_ratio == old.split_ratio
            &&& beside && split.below(least) ==> new.split_ratio == least
            &&& beside && most.below(split) ==> new.split_ratio == most
            &&& beside && !split.below(least) && !most.below(split) ==> new.split_ratio == split
            &&& stacked ==> new.stack_ratios == ratios
            &&& !stacked ==> new.stack_ratios == old.stack_ratios
            &&& new == (crate::workspace::WorkspaceView {
                split_ratio: new.split_ratio,
                stack_ratios: new.stack_ratios,
                ..old
            })
            &&& t == (crate::state::StateView {
                workspaces: s.workspaces.update(here, new),
                needs_redraw: true,
                ..s
            })
            &&& effects.len() == 1 && effects[0] == Effect::Retile(here as usize)
        }),
{
}

/// Of the windows in the stack, the one that is held and its neighbour below share anew
/// what they had; for the last one it is the neighbour above.
pub proof fn neighbours_share_anew(g: crate::grab::GrabView)
    requires
        0 <= g.tiled_index,
    ensures
        ({
            let pair = g.stack_pair();
            let (held, neighbour) = pair->0;
            &&& pair is Some <==> g.screen_height > 0 && g.tiled_count > 2 && 0 < g.tiled_index
                < g.tiled_count
            &&& pair is Some ==> held == g.tiled_index - 1
            &&& pair is Some && g.tiled_index < g.tiled_count - 1 ==> neighbour == held + 1
            &&& pair is Some && g.tiled_index == g.tiled_count - 1 ==> neighbour == held - 1
            &&& g.moves_split() == (g.screen_width > 0 && g.tiled_count > 1)
        }),
{
}

/// The shares that a grab starts from are those that it found, where there was one for
/// each window of the stack, and equal ones otherwise.
pub proof fn shares_to_start_from(g: crate::grab::GrabView, equal: Single, i: int)
    requires
        0 <= i < g.tiled_count - 1,
    ensures
        g.base_ratios(equal).len() == g.tiled_count - 1,
        g.start_stack_ratios.len() == g.tiled_count - 1 ==> g.base_ratios(equal)[i]
            == g.start_stack_ratios[i],
        g.start_stack_ratios.len() != g.tiled_count - 1 ==> g.base_ratios(equal)[i] == equal,
{
}

/// A share of the stack lies between 0.05 and 0.95, and one of the master between 0.1
/// and 0.9; one that does is kept, and any other becomes the nearest that does.
pub proof fn shares_have_bounds(r: Single)
    requires
        !r.nan(),
    ensures
        ({
            let a = crate::pointer::bounded_ratio(r);
            let b = crate::pointer::bounded_split(r);
            let lo = Single { bits: 0x3D4C_CCCD };
            let hi = Single { bits: 0x3F73_3333 };
            let least = Single { bits: 0x3DCC_CCCD };
            let most = Single { bits: 0x3F66_6666 };
            &&& lo.at_most(a) && a.at_most(hi)
            &&& lo.at_most(r) && r.at_most(hi) ==> a == r
            &&& r.below(lo) ==> a == lo
            &&& hi.below(r) ==> a == hi
            &&& least.at_most(b) && b.at_most(most)
            &&& least.at_most(r) && r.at_most(most) ==> b == r
            &&& r.below(least) ==> b == least
            &&& most.below(r) ==> b == most
        }),
{
}

/// A tiled window that is let go over another tiled one changes places with it, and
/// every other window stays where it is.
pub proof fn dropping_swaps_two_windows(
    s: crate::state::StateView,
    target: u64,
    a: int,
    b: int,
)
    requires
        0 <= s.active_workspace < s.workspaces.len() <= usize::MAX,
        s.pointer_grab is Some,
        s.pointer_grab->0.mode == GrabMode::TiledMove,
        target != s.pointer_grab->0.window,
        !s.workspaces[s.active_workspace].floating.contains(target),
        !s.workspaces[s.active_workspace].floating.contains(s.pointer_grab->0.window),
        0 <= a < s.workspaces[s.active_workspace].windows.len(),
        0 <= b < s.workspaces[s.active_workspace].windows.len(),
        s.workspaces[s.active_workspace].windows[a] == s.pointer_grab->0.window,
        s.workspaces[s.active_workspace].windows[b] == target,
        forall|j: int|
            0 <= j < a ==> s.workspaces[s.active_workspace].windows[j]
                != s.pointer_grab->0.window,
        forall|j: int| 0 <= j < b ==> s.workspaces[s.active_workspace].windows[j] != target,
    ensures
        ({
            let (t, effects) = s.grab_released(Some(target));
            let here = s.active_workspace;
            let before = s.workspaces[here].windows;
            let after = t.workspaces[here].windows;
            &&& after.len() == before.len()
            &&& after[a] == target
            &&& after[b] == s.pointer_grab->0.window
            &&& forall|i: int|
                0 <= i < before.len() && i != a && i != b ==> #[trigger] after[i] == before[i]
            &&& t.workspaces[here] == (crate::workspace::WorkspaceView {
                windows: after,
                stack_ratios: Seq::empty(),
                ..s.workspaces[here]
            })
            &&& t == (crate::state::StateView {
                workspaces: s.workspaces.update(here, t.workspaces[here]),
                pointer_grab: None,
                needs_redraw: true,
                ..s
            })
            &&& effects.len() == 1 && effects[0] == Effect::Retile(here as usize)
        }),
{
    let windows = s.workspaces[s.active_workspace].windows;
    crate::workspace::place_of_is_first(windows, s.pointer_grab->0.window);
    crate::workspace::place_of_is_first(windows, target);
}

/// A window that is let go over none, over itself, over a floating window, or over one
/// that is not on the workspace leaves the windows where they are, and so does any
/// other grab that ends; after a resizing the workspace is arranged anew.
pub proof fn dropping_elsewhere_swaps_nothing(s: crate::state::StateView, drop_target: Option<u64>)
    requires
        0 <= s.active_workspace < s.workspaces.len() <= usize::MAX,
        s.pointer_grab is Some,
        s.pointer_grab->0.mode != GrabMode::TiledMove || drop_target is None || drop_target
            == Some(s.pointer_grab->0.window)
            || s.workspaces[s.active_workspace].floating.contains(drop_target->0)
            || s.workspaces[s.active_workspace].floating.contains(s.pointer_grab->0.window)
            || !s.workspaces[s.active_workspace].windows.contains(drop_target->0)
            || !s.workspaces[s.active_workspace].windows.contains(s.pointer_grab->0.window),
    ensures
        ({
            let (t, effects) = s.grab_released(drop_target);
            let mode = s.pointer_grab->0.mode;
            &&& t == (crate::state::StateView { pointer_grab: None, needs_redraw: true, ..s })
            &&& mode == GrabMode::TiledResize || mode == GrabMode::FloatingResize
                ==> effects.len() == 1 && effects[0] == Effect::Retile(s.active_workspace as usize)
            &&& mode == GrabMode::TiledMove || mode == GrabMode::FloatingMove ==> effects.len()
                == 0
        }),
{
    let windows = s.workspaces[s.active_workspace].windows;
    let a = s.pointer_grab->0.window;
    crate::workspace::place_of_is_first(windows, a);
    if crate::workspace::place_of(windows, a) is Some {
        assert(windows[crate::workspace::place_of(windows, a)->0] == a);
    }
    if drop_target is Some {
        let b = drop_target->0;
        crate::workspace::place_of_is_first(windows, b);
        if crate::workspace::place_of(windows, b) is Some {
            assert(windows[crate::workspace::place_of(windows, b)->0] == b);
        }
    }
}

/// Without a grab nothing is let go.
pub proof fn nothing_held_nothing_dropped(s: crate::state::StateView, drop_target: Option<u64>)
    requires
        s.pointer_grab is None,
    ensures
        s.grab_released(drop_target) == (s, Seq::<Effect>::empty()),
{
}

/// With the logo key held, the left button takes hold of the window at the pointer to
/// move it, the right button to resize it; any other press is a click.
pub proof fn presses_take_hold(s: crate::state::StateView, p: Press)
    requires
        0 <= s.active_workspace < s.workspaces.len() <= usize::MAX,
    ensures
        ({
            let (t, effects, outcome) = s.pressed(p);
            let floats = s.workspaces[s.active_workspace].floating.contains(p.hit->0);
            let held = p.super_held && p.hit is Some && (p.button == 0x110 || p.button == 0x111);
            let mode = if p.button == 0x110 {
                if floats {
                    GrabMode::FloatingMove
                } else {
                    GrabMode::TiledMove
                }
            } else {
                if floats {
                    GrabMode::FloatingResize
                } else {
                    GrabMode::TiledResize
                }
            };
            &&& !held ==> outcome == PressOutcome::Clicked && t == s.clicked(p).0 && effects
                == s.clicked(p).1
            &&& held ==> effects == s.focused(p.hit->0).1
            &&& held && !floats ==> outcome == PressOutcome::TiledGrab(mode) && t == s.focused(
                p.hit->0,
            ).0
            &&& held && floats ==> {
                &&& outcome == PressOutcome::Grabbed
                &&& t.pointer_grab is Some
                &&& t.pointer_grab->0.mode == mode
                &&& t == (crate::state::StateView {
                    pointer_grab: t.pointer_grab,
                    ..s.focused(p.hit->0).0
                })
            }
        }),
{
}

/// A floating window is held from where it is: at the rectangle that it has of its own,
/// or else at the one that the display shows.
pub proof fn floating_windows_are_held_where_they_are(s: crate::state::StateView, p: Press)
    requires
        0 <= s.active_workspace < s.workspaces.len() <= usize::MAX,
        p.super_held,
        p.hit is Some,
        p.button == 0x110 || p.button == 0x111,
        s.workspaces[s.active_workspace].floating.contains(p.hit->0),
    ensures
        ({
            let g = s.pressed(p).0.pointer_grab->0;
            let geo = s.workspaces[s.active_workspace].floating_geo;
            let known = geo.dom().contains(p.hit->0);
            &&& g.window == p.hit->0
            &&& g.start_pointer == p.at
            &&& known ==> g.start_geo == geo[p.hit->0]
            &&& !known && p.geometry.location is Some ==> g.start_geo.loc == p.geometry.location->0
            &&& !known && p.geometry.location is None ==> g.start_geo.loc.x == 100
                && g.start_geo.loc.y == 100
            &&& !known && p.geometry.size.w > 0 && p.geometry.size.h > 0 ==> g.start_geo.size
                == p.geometry.size
            &&& !known && !(p.geometry.size.w > 0 && p.geometry.size.h > 0) ==> g.start_geo.size.w
                == 640 && g.start_geo.size.h == 480
            &&& g.start_split_ratio.bits == 0x3F00_0000
            &&& g.start_stack_ratios.len() == 0
            &&& g.screen_width == 0 && g.screen_height == 0
            &&& g.tiled_index == 0 && g.tiled_count == 0
        }),
{
}

/// A floating window that is pressed and then dragged moves by as much as the pointer,
/// whatever the window is and wherever it stands.
pub proof fn press_and_drag_moves_the_window(
    s: crate::state::StateView,
    p: Press,
    dx: int,
    dy: int,
    split: Single,
    ratios: Seq<Single>,
)
    requires
        0 <= s.active_workspace < s.workspaces.len() <= usize::MAX,
        p.super_held,
        p.hit is Some,
        p.button == 0x110,
        s.workspaces[s.active_workspace].floating.contains(p.hit->0),
        s.workspaces[s.active_workspace].floating_geo.dom().contains(p.hit->0),
        s.pressed(p).0.motion_fits(dx, dy),
    ensures
        ({
            let t = s.pressed(p).0.pointer_moved(dx, dy, split, ratios).0;
            let before = s.workspaces[s.active_workspace].floating_geo[p.hit->0];
            let after = t.workspaces[s.active_workspace].floating_geo[p.hit->0];
            &&& after.loc.x == before.loc.x + dx
            &&& after.loc.y == before.loc.y + dy
            &&& after.size == before.size
        }),
{
}

/// A tiled window is held from where the display shows it, with the shares of the
/// workspace and its place among the tiled windows.
pub proof fn tiled_windows_are_held_where_they_are(
    s: crate::state::StateView,
    mode: GrabMode,
    window: u64,
    at: Position,
    geometry: WindowGeometry,
    screen: Size,
)
    requires
        0 <= s.active_workspace < s.workspaces.len() <= usize::MAX,
    ensures
        ({
            let g = s.tiled_grab(mode, window, at, geometry, screen);
            let ws = s.workspaces[s.active_workspace];
            let tiled = ws.tiled();
            &&& g.mode == mode && g.window == window && g.start_pointer == at
            &&& geometry.location is Some ==> g.start_geo.loc == geometry.location->0
            &&& geometry.location is None ==> g.start_geo.loc.x == 0 && g.start_geo.loc.y == 0
            &&& geometry.size.w > 0 && geometry.size.h > 0 ==> g.start_geo.size == geometry.size
            &&& !(geometry.size.w > 0 && geometry.size.h > 0) && geometry.pending is Some
                ==> g.start_geo.size == geometry.pending->0
            &&& !(geometry.size.w > 0 && geometry.size.h > 0) && geometry.pending is None
                ==> g.start_geo.size.w == 640 && g.start_geo.size.h == 480
            &&& g.start_split_ratio == ws.split_ratio
            &&& g.start_stack_ratios == ws.stack_ratios
            &&& g.screen_width == screen.w && g.screen_height == screen.h
            &&& g.tiled_count == tiled.len()
            &&& !tiled.contains(window) ==> g.tiled_index == 0
            &&& tiled.contains(window) ==> 0 <= g.tiled_index < tiled.len()
                && tiled[g.tiled_index] == window && forall|j: int|
                0 <= j < g.tiled_index ==> tiled[j] != window
        }),
{
    let tiled = s.workspaces[s.active_workspace].tiled();
    crate::workspace::place_of_is_first(tiled, window);
    if tiled.contains(window) {
        let i = choose|i: int| 0 <= i < tiled.len() && tiled[i] == window;
        assert(tiled[i] == window);
    }
}

/// A click gives the keyboard to the window at the pointer, or to a layer surface that
/// may have it. While a layer surface has it, only a click outside all of them does,
/// and closes a popup; the keyboard goes to the last window first.
pub proof fn clicks_focus(s: crate::state::StateView, p: Press)
    requires
        0 <= s.active_workspace < s.workspaces.len() <= usize::MAX,
    ensures
        ({
            let (t, effects) = s.clicked(p);
            let kept = s.focus is Some && s.layers.contains(s.focus->0);
            let outside = p.under is Some && !s.layers.contains(p.under->0.root);
            let windows = s.workspaces[s.active_workspace].windows;
            let last = if windows.len() > 0 {
                Some(windows[windows.len() - 1])
            } else {
                None
            };
            let asks = p.under is Some && p.under->0.interactive && s.focus != Some(
                p.under->0.root,
            );
            &&& kept && !outside ==> t == s && effects.len() == 0
            &&& !kept && p.hit is Some ==> t == s.focused(p.hit->0).0 && effects == s.focused(
                p.hit->0,
            ).1
            &&& !kept && p.hit is None && !asks ==> t == s && effects.len() == 0
            &&& !kept && p.hit is None && asks ==> {
                &&& t == (crate::state::StateView { focus: Some(p.under->0.root), ..s })
                &&& effects.len() == 1 && effects[0] == Effect::SetFocus(Some(p.under->0.root))
            }
            &&& kept && outside ==> {
                let closed = if p.focused_popup {
                    1int
                } else {
                    0int
                };
                let dropped = crate::state::StateView { focus: last, ..s };
                &&& p.focused_popup ==> effects[0] == Effect::CloseLayer(s.focus->0)
                &&& effects[closed] == Effect::SetFocus(last)
                &&& p.hit is None ==> t == dropped && effects.len() == closed + 1
                &&& p.hit is Some ==> t == dropped.focused(p.hit->0).0 && effects.skip(closed + 1)
                    == dropped.focused(p.hit->0).1
            }
        }),
{
    if s.focus is Some && s.layers.contains(s.focus->0) && p.under is Some && !s.layers.contains(
        p.under->0.root,
    ) && p.hit is Some {
        let closed = if p.focused_popup {
            1int
        } else {
            0int
        };
        let dropped = s.focus_dropped();
        assert(s.clicked(p).1.skip(closed + 1) =~= dropped.focused(p.hit->0).1);
    }
}

/// A place lies in the frame of a window just where it is no further from the window
/// than the border is wide.
pub proof fn frames_have_a_border(g: WindowGeometry, cell: Cell, bw: int)
    ensures
        crate::pointer::framed(None, cell, bw) == false,
        g.location is None ==> !crate::pointer::framed(Some(g), cell, bw),
        g.location is Some ==> {
            let loc = g.location->0;
            let shown = g.size.w > 0 && g.size.h > 0;
            let w = if shown {
                g.size.w as int
            } else if g.pending is Some {
                g.pending->0.w as int
            } else {
                0
            };
            let h = if shown {
                g.size.h as int
            } else if g.pending is Some {
                g.pending->0.h as int
            } else {
                0
            };
            crate::pointer::framed(Some(g), cell, bw) <==> {
                &&& bw >= loc.x - cell.floor_x
                &&& bw >= cell.ceil_x - loc.x - w
                &&& bw >= loc.y - cell.floor_y
                &&& bw >= cell.ceil_y - loc.y - h
            }
        },
{
}

/// The greater and the smaller of two numbers, and the border that counts.
pub proof fn greater_and_smaller(a: int, b: int, s: crate::state::StateView)
    ensures
        ({
            let larger = crate::geometry::larger(a, b);
            let smaller = crate::geometry::smaller(a, b);
            &&& larger >= a && larger >= b && (larger == a || larger == b)
            &&& smaller <= a && smaller <= b && (smaller == a || smaller == b)
            &&& crate::geometry::fits(a) == (-0x8000_0000 <= a < 0x8000_0000)
            &&& s.config.border_width >= 0 ==> crate::pointer::border(s) == s.config.border_width
            &&& s.config.border_width < 0 ==> crate::pointer::border(s) == 0
        }),
{
}

/// The size that is left to windows can be computed just where it is an `i32`.
pub proof fn dimensions_that_can_be_computed(output: Size, zone: Size, outer: int)
    ensures
        ({
            let w = if zone.w < output.w {
                zone.w as int
            } else {
                output.w as int
            };
            let h = if zone.h < output.h {
                zone.h as int
            } else {
                output.h as int
            };
            crate::pointer::dimensions_fit(output, zone, outer) <==> {
                &&& -0x8000_0000 <= 2 * outer < 0x8000_0000
                &&& -0x8000_0000 <= w - 2 * outer < 0x8000_0000
                &&& -0x8000_0000 <= h - 2 * outer < 0x8000_0000
            }
        }),
{
}

/// The rectangle of a window is the one that the display tells of: the place where it
/// shows the window, and the size that the window has, or else the one that it was last
/// asked for.
pub proof fn rectangles_are_as_shown(
    g: WindowGeometry,
    loc: crate::geometry::Point,
    size: Size,
)
    ensures
        ({
            let r = g.rect_or(loc, size);
            let shown = g.size.w > 0 && g.size.h > 0;
            &&& g.location is Some ==> r.loc == g.location->0
            &&& g.location is None ==> r.loc == loc
            &&& shown ==> r.size == g.size
            &&& !shown && g.pending is Some ==> r.size == g.pending->0
            &&& !shown && g.pending is None ==> r.size == size
            &&& shown ==> crate::state::current_size(g.size, g.pending) == Some(g.size)
            &&& !shown ==> crate::state::current_size(g.size, g.pending) == g.pending
        }),
{
}

/// A surface is at a place that can be represented just where both coordinates are.
pub proof fn surfaces_that_can_be_placed(c: crate::pointer::Candidate)
    ensures
        c.representable() <==> {
            &&& -0x8000_0000 <= c.offset.x + c.base.x < 0x8000_0000
            &&& -0x8000_0000 <= c.offset.y + c.base.y < 0x8000_0000
        },
{
}

/// A rectangle and its coordinates are one and the same.
pub proof fn rectangles_keep_their_coordinates(r: Rect)
    ensures
        crate::geometry::rect_of(r.slot()) == r,
        r.slot().x == r.loc.x && r.slot().y == r.loc.y,
        r.slot().w == r.size.w && r.slot().h == r.size.h,
{
}

} // verus!
