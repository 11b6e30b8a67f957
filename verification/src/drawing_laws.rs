//! Where windows are put, and what is drawn around them.
use crate::animation::DyingWindow;
use crate::bits::Single;
use crate::geometry::Rect;
use crate::layout::Gaps;
use crate::render::{DyingAlpha, Paint, Quad, ShownWindow};
use vstd::prelude::*;

verus! {

/// Windows are arranged in what is left of the zone inside the outer gap, on every side.
pub proof fn area_lies_inside_the_gap(output: Rect, zone: Rect, outer: int)
    ensures
        ({
            let a = crate::layout::area_of(output, zone, outer);
            let x = output.loc.x + zone.loc.x;
            let y = output.loc.y + zone.loc.y;
            &&& a.x - x == outer
            &&& a.y - y == outer
            &&& zone.size.w > 2 * outer ==> x + zone.size.w - (a.x + a.w) == outer
            &&& zone.size.h > 2 * outer ==> y + zone.size.h - (a.y + a.h) == outer
            &&& zone.size.w <= 2 * outer ==> a.w == 0
            &&& zone.size.h <= 2 * outer ==> a.h == 0
        }),
{
}

/// Every window of the list gets a tile, in its order, and the tile is the rectangle of
/// its place; without an output, or without room inside the gap, there are no tiles.
pub proof fn tiles_follow_the_list(
    windows: Seq<u64>,
    output: Option<Rect>,
    zone: Rect,
    gaps: Gaps,
    i: int,
)
    requires
        0 <= i < windows.len(),
        crate::layout::tiles_fit(windows.len() as int, output, zone, gaps),
    ensures
        ({
            let tiles = crate::layout::tiles(windows, output, zone, gaps);
            let room = output is Some && zone.size.w > 2 * gaps.outer && zone.size.h > 2
                * gaps.outer;
            let a = crate::layout::area_of(output->0, zone, gaps.outer as int);
            let s = crate::layout::slot(a, gaps.inner as int, windows.len() as int, i);
            &&& crate::layout::has_area(output, zone, gaps) == room
            &&& !room ==> tiles.len() == 0
            &&& room ==> {
                &&& tiles.len() == windows.len()
                &&& tiles[i].window == windows[i]
                &&& tiles[i].location.x == s.x
                &&& tiles[i].location.y == s.y
                &&& tiles[i].size.w == s.w
                &&& tiles[i].size.h == s.h
            }
        }),
{
    let a = crate::layout::area_of(output->0, zone, gaps.outer as int);
    let s = crate::layout::slot(a, gaps.inner as int, windows.len() as int, i);
    if crate::layout::has_area(output, zone, gaps) {
        assert(crate::geometry::slot_fits(s));
    }
}

/// The tiles can be put in place just where every coordinate of them is an `i32`.
pub proof fn tiles_that_can_be_placed(n: int, output: Option<Rect>, zone: Rect, gaps: Gaps)
    ensures
        ({
            let room = output is Some && zone.size.w > 2 * gaps.outer && zone.size.h > 2
                * gaps.outer;
            let a = crate::layout::area_of(output->0, zone, gaps.outer as int);
            crate::layout::tiles_fit(n, output, zone, gaps) <==> (room ==> forall|i: int|
                0 <= i < n ==> {
                    let s = #[trigger] crate::layout::slot(a, gaps.inner as int, n, i);
                    &&& -0x8000_0000 <= s.x < 0x8000_0000
                    &&& -0x8000_0000 <= s.y < 0x8000_0000
                    &&& -0x8000_0000 <= s.w < 0x8000_0000
                    &&& -0x8000_0000 <= s.h < 0x8000_0000
                })
        }),
{
    let a = crate::layout::area_of(output->0, zone, gaps.outer as int);
    let room = output is Some && zone.size.w > 2 * gaps.outer && zone.size.h > 2 * gaps.outer;
    assert(room == crate::layout::has_area(output, zone, gaps));
    assert forall|i: int| crate::geometry::slot_fits(
        #[trigger] crate::layout::slot(a, gaps.inner as int, n, i),
    ) == ({
        let s = crate::layout::slot(a, gaps.inner as int, n, i);
        &&& -0x8000_0000 <= s.x < 0x8000_0000
        &&& -0x8000_0000 <= s.y < 0x8000_0000
        &&& -0x8000_0000 <= s.w < 0x8000_0000
        &&& -0x8000_0000 <= s.h < 0x8000_0000
    }) by {}
}

/// Beside a stack the master takes half of the width, but for half of the gap, and the
/// stack what is left behind the gap; each is one pixel wide at least. All windows of
/// the stack are equally wide, and stand below one another with the gap between them;
/// all but the last are equally high, and share the height that the gaps leave.
pub proof fn master_and_stack_share_the_area(
    a: crate::layout::Area,
    inner: int,
    n: int,
    i: int,
)
    requires
        a.w >= 0,
        a.h >= 0,
        n > 1,
        1 <= i < n,
    ensures
        ({
            let master = crate::layout::slot(a, inner, n, 0);
            let s = crate::layout::slot(a, inner, n, i);
            let half = if inner >= 0 {
                inner / 2
            } else {
                -((-inner) / 2)
            };
            let left = if a.h > inner * (n - 2) {
                a.h - inner * (n - 2)
            } else {
                0
            };
            let share = left / (n - 1);
            &&& master.x == a.x && master.y == a.y && master.h == a.h
            &&& master.w >= 1 && s.w >= 1 && s.h >= 1
            &&& a.w / 2 - half >= 1 ==> master.w + half == a.w / 2
            &&& a.w / 2 - half < 1 ==> master.w == 1
            &&& s.x - inner == master.x + master.w
            &&& a.w - master.w - inner >= 1 ==> s.x + s.w == a.x + a.w
            &&& a.w - master.w - inner < 1 ==> s.w == 1
            &&& s.y - a.y == (i - 1) * (share + inner)
            &&& i < n - 1 && share >= 1 ==> s.h == share
            &&& i < n - 1 && share < 1 ==> s.h == 1
            &&& i == n - 1 && a.y + a.h - s.y >= 1 ==> s.y + s.h == a.y + a.h
            &&& i == n - 1 && a.y + a.h - s.y < 1 ==> s.h == 1
        }),
{
    assert(inner * ((n - 1) - 1) == inner * (n - 2));
    let h = a.h - inner * (n - 2);
    if h <= 0 {
        assert(crate::geometry::larger(h, 0) == 0);
    }
}

/// A rectangle with a margin reaches as far beyond the rectangle on every side.
pub proof fn margins_on_all_sides(s: crate::geometry::Slot, by: int)
    ensures
        ({
            let t = crate::render::grown(s, by);
            &&& s.x - t.x == by
            &&& s.y - t.y == by
            &&& (t.x + t.w) - (s.x + s.w) == by
            &&& (t.y + t.h) - (s.y + s.h) == by
        }),
{
}

/// Around a window lie four bars of one paint, so many pixels thick: above and below it
/// as wide as the window and both margins, and on its left and on its right as high as
/// the window.
pub open spec fn ring(
    quads: Seq<Quad>,
    from: int,
    w: ShownWindow,
    x: int,
    m: int,
    paint: Paint,
) -> bool {
    let y = w.location->0.y;
    let above = quads[from].rect;
    let below = quads[from + 1].rect;
    let left = quads[from + 2].rect;
    let right = quads[from + 3].rect;
    &&& forall|k: int|
        from <= k < from + 4 ==> (#[trigger] quads[k]).window == w.window && quads[k].paint == paint
    &&& above.loc.x == x - m && above.loc.y == y - m
    &&& above.size.w == w.size.w + 2 * m && above.size.h == m
    &&& below.loc.x == x - m && below.loc.y == y + w.size.h
    &&& below.size.w == w.size.w + 2 * m && below.size.h == m
    &&& left.loc.x == x - m && left.loc.y == y
    &&& left.size.w == m && left.size.h == w.size.h
    &&& right.loc.x == x + w.size.w && right.loc.y == y
    &&& right.size.w == m && right.size.h == w.size.h
}

/// The border of a window lies around it, so many pixels to the right as the workspace
/// is drawn: that of the focused window in the colour of the active one, behind three
/// glows that reach six, four and two pixels further; that of any other window in the
/// other colour. A window that does not show has none.
pub proof fn borders_lie_around_windows(
    w: ShownWindow,
    bw: int,
    focus: Option<u64>,
    x_offset: int,
)
    requires
        bw > 0,
        w.border_fits(bw, focus, x_offset),
    ensures
        ({
            let quads = w.border_quads(bw, focus, x_offset);
            let shows = w.location is Some && w.size.w > 0 && w.size.h > 0;
            let x = w.location->0.x + x_offset;
            &&& !shows ==> quads.len() == 0
            &&& shows && focus != Some(w.window) ==> quads.len() == 4 && ring(
                quads,
                0,
                w,
                x,
                bw,
                Paint::InactiveBorder,
            )
            &&& shows && focus == Some(w.window) ==> {
                &&& quads.len() == 16
                &&& ring(quads, 0, w, x, bw + 6, Paint::Glow(6))
                &&& ring(quads, 4, w, x, bw + 4, Paint::Glow(4))
                &&& ring(quads, 8, w, x, bw + 2, Paint::Glow(2))
                &&& ring(quads, 12, w, x, bw, Paint::ActiveBorder)
            }
        }),
{
}

/// The borders of a list of windows are drawn one after the other; borders without a
/// width are not drawn.
pub proof fn borders_are_drawn_in_order(
    list: Seq<ShownWindow>,
    w: ShownWindow,
    bw: int,
    focus: Option<u64>,
    x_offset: int,
)
    ensures
        ({
            let all = crate::render::all_border_quads(list, bw, focus, x_offset);
            let more = crate::render::all_border_quads(list.push(w), bw, focus, x_offset);
            &&& list.len() == 0 || bw <= 0 ==> all.len() == 0
            &&& bw > 0 ==> more == all + w.border_quads(bw, focus, x_offset)
        }),
{
    assert(list.push(w).drop_last() =~= list);
}

/// What is drawn around a window can be represented just where the outermost of its
/// frames can.
pub proof fn borders_that_can_be_drawn(
    w: ShownWindow,
    bw: int,
    focus: Option<u64>,
    x_offset: int,
)
    requires
        bw >= 0,
    ensures
        ({
            let shows = w.location is Some && w.size.w > 0 && w.size.h > 0;
            let m = if focus == Some(w.window) {
                bw + 6
            } else {
                bw
            };
            let x = w.location->0.x + x_offset;
            let y = w.location->0.y;
            &&& !shows ==> w.border_fits(bw, focus, x_offset)
            &&& shows ==> (w.border_fits(bw, focus, x_offset) <==> {
                &&& -0x8000_0000 <= x - m && x - m < 0x8000_0000
                &&& -0x8000_0000 <= y - m
                &&& w.size.w + 2 * m < 0x8000_0000
                &&& w.size.h + 2 * m < 0x8000_0000
                &&& -0x8000_0000 <= x + w.size.w + m < 0x8000_0000
                &&& y + w.size.h + m < 0x8000_0000
            })
        }),
{
}

/// A window that came less than two tenths of a second ago is covered where it shows,
/// as long as the cover is not too faint to be seen.
pub proof fn new_windows_are_covered(
    ws: crate::workspace::WorkspaceView,
    w: ShownWindow,
    alpha: Single,
    now: u64,
)
    ensures
        ({
            let quads = crate::render::overlay_quads(ws, w, alpha, now);
            let fades = ws.spawn_times.dom().contains(w.window) && now
                - ws.spawn_times[w.window] < 200_000_000;
            let covered = fades && !alpha.below(Single { bits: 0x3C23_D70A }) && w.location is Some
                && w.size.w > 0 && w.size.h > 0;
            &&& !covered ==> quads.len() == 0
            &&& covered ==> {
                &&& quads.len() == 1
                &&& quads[0].window == w.window
                &&& quads[0].rect.loc == w.location->0
                &&& quads[0].rect.size == w.size
                &&& quads[0].paint == Paint::Overlay
            }
        }),
{
}

/// The covers of a list of windows are drawn one after the other.
pub proof fn covers_are_drawn_in_order(
    ws: crate::workspace::WorkspaceView,
    list: Seq<ShownWindow>,
    w: ShownWindow,
    alphas: Seq<Single>,
    now: u64,
)
    ensures
        ({
            let all = crate::render::all_overlay_quads(ws, list, alphas, now);
            let more = crate::render::all_overlay_quads(ws, list.push(w), alphas, now);
            &&& list.len() == 0 ==> all.len() == 0
            &&& more == all + crate::render::overlay_quads(ws, w, alphas[list.len() as int], now)
        }),
{
    assert(list.push(w).drop_last() =~= list);
}

/// A closed window is drawn where it last was, one pixel wide and high at least, for two
/// tenths of a second, and as long as it is not too faint; with a border of two pixels
/// around it, as long as that is not too faint.
pub proof fn closed_windows_are_drawn(
    d: DyingWindow,
    alpha: DyingAlpha,
    now: u64,
    x_offset: int,
)
    requires
        crate::render::dying_fits(d, alpha, now, x_offset),
    ensures
        ({
            let quads = crate::render::dying_quads(d, alpha, now, x_offset);
            let faint = Single { bits: 0x3C23_D70A };
            let drawn = now - d.destroy_time < 200_000_000 && !alpha.fill.below(faint);
            let edged = drawn && faint.below(alpha.border);
            let shown = ShownWindow {
                window: d.window,
                location: Some(d.last_location),
                size: quads[0].rect.size,
            };
            &&& !drawn ==> quads.len() == 0
            &&& drawn ==> {
                &&& quads[0].window == d.window
                &&& quads[0].paint == Paint::Dying
                &&& quads[0].rect.loc.x == d.last_location.x + x_offset
                &&& quads[0].rect.loc.y == d.last_location.y
                &&& d.last_size.w >= 1 ==> quads[0].rect.size.w == d.last_size.w
                &&& d.last_size.w < 1 ==> quads[0].rect.size.w == 1
                &&& d.last_size.h >= 1 ==> quads[0].rect.size.h == d.last_size.h
                &&& d.last_size.h < 1 ==> quads[0].rect.size.h == 1
            }
            &&& drawn && !edged ==> quads.len() == 1
            &&& edged ==> quads.len() == 5 && ring(
                quads,
                1,
                shown,
                d.last_location.x + x_offset,
                2,
                Paint::DyingBorder,
            )
        }),
{
}

/// The closed windows of a list are drawn one after the other.
pub proof fn closed_windows_are_drawn_in_order(
    list: Seq<DyingWindow>,
    d: DyingWindow,
    alphas: Seq<DyingAlpha>,
    now: u64,
    x_offset: int,
)
    ensures
        ({
            let all = crate::render::all_dying_quads(list, alphas, now, x_offset);
            let more = crate::render::all_dying_quads(list.push(d), alphas, now, x_offset);
            &&& list.len() == 0 ==> all.len() == 0
            &&& more == all + crate::render::dying_quads(
                d,
                alphas[list.len() as int],
                now,
                x_offset,
            )
        }),
{
    assert(list.push(d).drop_last() =~= list);
}

/// What is drawn for a closed window can be represented just where it is not drawn, or
/// every edge of it, and of its border, is an `i32`.
pub proof fn closed_windows_that_can_be_drawn(
    d: DyingWindow,
    alpha: DyingAlpha,
    now: u64,
    x_offset: int,
)
    ensures
        ({
            let faint = Single { bits: 0x3C23_D70A };
            let drawn = now - d.destroy_time < 200_000_000 && !alpha.fill.below(faint);
            let edged = drawn && faint.below(alpha.border);
            let x = d.last_location.x + x_offset;
            let y = d.last_location.y;
            let w = if d.last_size.w >= 1 {
                d.last_size.w as int
            } else {
                1
            };
            let h = if d.last_size.h >= 1 {
                d.last_size.h as int
            } else {
                1
            };
            crate::render::dying_fits(d, alpha, now, x_offset) <==> {
                &&& drawn ==> -0x8000_0000 <= x < 0x8000_0000
                &&& edged ==> {
                    &&& -0x8000_0000 <= x - 2 && x + w + 2 < 0x8000_0000
                    &&& -0x8000_0000 <= y - 2 && y + h + 2 < 0x8000_0000
                    &&& w + 4 < 0x8000_0000 && h + 4 < 0x8000_0000
                }
            }
        }),
{
}

} // verus!
