//! Master/stack tiling with outer and inner gaps.
use crate::geometry::{is_i32, Point, Rect, Size};
use crate::state::{Effect, State};
use crate::workspace::Workspace;
use vstd::prelude::*;

verus! {

/// Where a window of a workspace goes.
#[derive(Clone, Copy, Debug, PartialEq, Eq, Structural)]
pub struct Tile {
    pub window: u64,
    pub location: Point,
    pub size: Size,
}

/// The gaps around the windows and between them.
#[derive(Clone, Copy, Debug, PartialEq, Eq, Structural)]
pub struct Gaps {
    pub outer: i32,
    pub inner: i32,
}

/// The rectangle that windows are arranged in.
pub ghost struct Area {
    pub x: int,
    pub y: int,
    pub w: int,
    pub h: int,
}

/// Half of a number, rounded towards zero.
pub open spec fn half(n: int) -> int {
    if n >= 0 {
        n / 2
    } else {
        -((-n) / 2)
    }
}

/// What is left of an output to its windows: the part that no bar reserves,
/// inside the outer gap.
pub open spec fn area_of(output: Rect, zone: Rect, outer: int) -> Area {
    Area {
        x: output.loc.x + zone.loc.x + outer,
        y: output.loc.y + zone.loc.y + outer,
        w: crate::geometry::larger(zone.size.w - 2 * outer, 0),
        h: crate::geometry::larger(zone.size.h - 2 * outer, 0),
    }
}

/// The width of the master beside a stack.
pub open spec fn master_width(a: Area, inner: int) -> int {
    crate::geometry::larger(a.w / 2 - half(inner), 1)
}

/// The height of each but the last of `count` windows in the stack, before it
/// is made one pixel at least.
pub open spec fn slice_height(a: Area, inner: int, count: int) -> int {
    crate::geometry::larger(a.h - inner * (count - 1), 0) / count
}

/// The rectangle of window `i` of `n`: one alone fills the area; of more, the
/// first is the master on the left, and the others share the height of the
/// stack on the right, where the last takes what the division leaves over.
pub open spec fn slot(a: Area, inner: int, n: int, i: int) -> crate::geometry::Slot {
    if n == 1 {
        crate::geometry::Slot { x: a.x, y: a.y, w: a.w, h: a.h }
    } else if i == 0 {
        crate::geometry::Slot { x: a.x, y: a.y, w: master_width(a, inner), h: a.h }
    } else {
        let master = master_width(a, inner);
        let slice = slice_height(a, inner, n - 1);
        let y = a.y + (i - 1) * (slice + inner);
        crate::geometry::Slot {
            x: a.x + master + inner,
            y,
            w: crate::geometry::larger(a.w - master - inner, 1),
            h: if i == n - 1 {
                crate::geometry::larger(a.y + a.h - y, 1)
            } else {
                crate::geometry::larger(slice, 1)
            },
        }
    }
}

/// A window in a rectangle.
pub open spec fn tile_of(window: u64, s: crate::geometry::Slot) -> Tile {
    Tile {
        window,
        location: Point { x: s.x as i32, y: s.y as i32 },
        size: Size { w: s.w as i32, h: s.h as i32 },
    }
}

/// Whether there is an area to arrange windows in.
pub open spec fn has_area(output: Option<Rect>, zone: Rect, gaps: Gaps) -> bool {
    &&& output is Some
    &&& area_of(output->0, zone, gaps.outer as int).w > 0
    &&& area_of(output->0, zone, gaps.outer as int).h > 0
}

/// The tiles of a list of windows; none where there is no area.
pub open spec fn tiles(windows: Seq<u64>, output: Option<Rect>, zone: Rect, gaps: Gaps) -> Seq<
    Tile,
> {
    if has_area(output, zone, gaps) {
        Seq::new(
            windows.len(),
            |i: int|
                tile_of(
                    windows[i],
                    slot(
                        area_of(output->0, zone, gaps.outer as int),
                        gaps.inner as int,
                        windows.len() as int,
                        i,
                    ),
                ),
        )
    } else {
        seq![]
    }
}

/// Whether the coordinates of all tiles can be represented.
pub open spec fn tiles_fit(n: int, output: Option<Rect>, zone: Rect, gaps: Gaps) -> bool {
    has_area(output, zone, gaps) ==> forall|i: int|
        0 <= i < n ==> crate::geometry::slot_fits(
            #[trigger] slot(
                area_of(output->0, zone, gaps.outer as int),
                gaps.inner as int,
                n,
                i,
            ),
        )
}

fn larger_of(a: i128, b: i128) -> (r: i128)
    ensures
        r == crate::geometry::larger(a as int, b as int),
{
    if a < b {
        b
    } else {
        a
    }
}

/// A rectangle in wide coordinates.
struct WideRect {
    x: i128,
    y: i128,
    w: i128,
    h: i128,
}

impl WideRect {
    spec fn is(self, s: crate::geometry::Slot) -> bool {
        self.x == s.x && self.y == s.y && self.w == s.w && self.h == s.h
    }

    fn fits(&self) -> (r: bool)
        ensures
            forall|s: crate::geometry::Slot| self.is(s) ==> r == #[trigger] crate::geometry::slot_fits(s),
    {
        is_i32(self.x) && is_i32(self.y) && is_i32(self.w) && is_i32(self.h)
    }
}

/// The area of an output, where there is one.
fn wide_area(output: Option<Rect>, zone: Rect, outer: i32) -> (r: Option<WideRect>)
    ensures
        match r {
            Some(a) => {
                let gaps = Gaps { outer, inner: 0 };
                let area = area_of(output->0, zone, outer as int);
                &&& has_area(output, zone, gaps)
                &&& a.x == area.x && a.y == area.y && a.w == area.w && a.h == area.h
                &&& -0x2_0000_0000 <= a.x <= 0x2_0000_0000
                &&& -0x2_0000_0000 <= a.y <= 0x2_0000_0000
                &&& 0 < a.w <= 0x2_0000_0000
                &&& 0 < a.h <= 0x2_0000_0000
            },
            None => !has_area(output, zone, Gaps { outer, inner: 0 }),
        },
{
    let geo = match output {
        Some(geo) => geo,
        None => {
            return None;
        },
    };
    let gap: i128 = outer as i128;
    let w: i128 = larger_of(zone.size.w as i128 - 2 * gap, 0);
    let h: i128 = larger_of(zone.size.h as i128 - 2 * gap, 0);
    if w <= 0 || h <= 0 {
        return None;
    }
    Some(
        WideRect {
            x: geo.loc.x as i128 + zone.loc.x as i128 + gap,
            y: geo.loc.y as i128 + zone.loc.y as i128 + gap,
            w,
            h,
        },
    )
}

/// The rectangle of window `i` of `n` in an area.
fn wide_slot(a: &WideRect, inner: i32, n: usize, i: usize) -> (r: WideRect)
    requires
        i < n,
        -0x2_0000_0000 <= a.x <= 0x2_0000_0000,
        -0x2_0000_0000 <= a.y <= 0x2_0000_0000,
        0 < a.w <= 0x2_0000_0000,
        0 < a.h <= 0x2_0000_0000,
    ensures
        r.is(
            slot(
                Area { x: a.x as int, y: a.y as int, w: a.w as int, h: a.h as int },
                inner as int,
                n as int,
                i as int,
            ),
        ),
{
    if n == 1 {
        return WideRect { x: a.x, y: a.y, w: a.w, h: a.h };
    }
    let ghost area = Area { x: a.x as int, y: a.y as int, w: a.w as int, h: a.h as int };
    let gap: i128 = inner as i128;
    let half_gap: i128 = if gap >= 0 {
        gap / 2
    } else {
        -((-gap) / 2)
    };
    let master: i128 = larger_of(a.w / 2 - half_gap, 1);
    if i == 0 {
        return WideRect { x: a.x, y: a.y, w: master, h: a.h };
    }
    let count: i128 = (n - 1) as i128;
    let between: i128 = count - 1;
    assert(-0x8000_0000 * 0x1_0000_0000_0000_0000 <= gap * between <= 0x8000_0000
        * 0x1_0000_0000_0000_0000) by (nonlinear_arith)
        requires
            -0x8000_0000 <= gap <= 0x8000_0000,
            0 <= between <= 0x1_0000_0000_0000_0000,
    ;
    let usable: i128 = larger_of(a.h - gap * between, 0);
    let slice: i128 = usable / count;
    assert(slice <= usable) by (nonlinear_arith)
        requires
            slice == usable / count,
            count >= 1,
            usable >= 0,
    ;
    assert(slice >= 0) by (nonlinear_arith)
        requires
            slice == usable / count,
            count >= 1,
            usable >= 0,
    ;
    let step: i128 = slice + gap;
    let place: i128 = (i - 1) as i128;
    assert(-0x8000_0000 * 0x1_0000_0000_0000_0000 <= place * step <= 0x4_0000_0000
        * 0x1_0000_0000_0000_0000) by {
        place_bound(a.h as int, gap as int, count as int, place as int);
    }
    let y: i128 = a.y + place * step;
    let h: i128 = if i == n - 1 {
        larger_of(a.y + a.h - y, 1)
    } else {
        larger_of(slice, 1)
    };
    WideRect { x: a.x + master + gap, y, w: larger_of(a.w - master - gap, 1), h }
}

/// A window of the stack begins within the area, but for the gaps.
proof fn place_bound(h: int, gap: int, count: int, place: int)
    requires
        0 < h <= 0x2_0000_0000,
        -0x8000_0000 <= gap <= 0x8000_0000,
        1 <= count <= 0x1_0000_0000_0000_0000,
        0 <= place < count,
    ensures
        ({
            let usable = crate::geometry::larger(h - gap * (count - 1), 0);
            let step = usable / count + gap;
            -0x8000_0000 * 0x1_0000_0000_0000_0000 <= place * step <= 0x4_0000_0000
                * 0x1_0000_0000_0000_0000
        }),
{
    let usable = crate::geometry::larger(h - gap * (count - 1), 0);
    let slice = usable / count;
    assert(0 <= slice && slice * count <= usable) by (nonlinear_arith)
        requires
            slice == usable / count,
            count >= 1,
            usable >= 0,
    ;
    assert(place * slice <= usable) by (nonlinear_arith)
        requires
            slice * count <= usable,
            0 <= place < count,
            slice >= 0,
    ;
    assert(0 <= place * slice) by (nonlinear_arith)
        requires
            0 <= place,
            slice >= 0,
    ;
    assert(-0x8000_0000 * 0x1_0000_0000_0000_0000 <= gap * (count - 1) <= 0x8000_0000
        * 0x1_0000_0000_0000_0000) by (nonlinear_arith)
        requires
            -0x8000_0000 <= gap <= 0x8000_0000,
            1 <= count <= 0x1_0000_0000_0000_0000,
    ;
    assert(-0x8000_0000 * 0x1_0000_0000_0000_0000 <= place * gap <= 0x8000_0000
        * 0x1_0000_0000_0000_0000) by (nonlinear_arith)
        requires
            -0x8000_0000 <= gap <= 0x8000_0000,
            0 <= place <= 0x1_0000_0000_0000_0000,
    ;
    assert(place * (slice + gap) == place * slice + place * gap) by (nonlinear_arith);
}

impl State {
    /// Arranges the windows of a workspace. `output` is the rectangle of the
    /// output, where it is known, and `zone` the part of it that no bar
    /// reserves.
    pub fn recalculate_layout_for(
        ws: &Workspace,
        output: Option<Rect>,
        zone: Rect,
        gaps: Gaps,
    ) -> (r: Vec<Tile>)
        requires
            tiles_fit(ws@.windows.len() as int, output, zone, gaps),
        ensures
            r@ == tiles(ws@.windows, output, zone, gaps),
    {
        let mut out: Vec<Tile> = Vec::new();
        let area = match wide_area(output, zone, gaps.outer) {
            Some(a) => a,
            None => {
                return out;
            },
        };
        let n: usize = ws.windows.len();
        let mut i: usize = 0;
        while i < n
            invariant
                i <= n,
                n == ws@.windows.len(),
                tiles_fit(n as int, output, zone, gaps),
                has_area(output, zone, gaps),
                area_of(output->0, zone, gaps.outer as int) == (Area {
                    x: area.x as int,
                    y: area.y as int,
                    w: area.w as int,
                    h: area.h as int,
                }),
                -0x2_0000_0000 <= area.x <= 0x2_0000_0000,
                -0x2_0000_0000 <= area.y <= 0x2_0000_0000,
                0 < area.w <= 0x2_0000_0000,
                0 < area.h <= 0x2_0000_0000,
                out@ == tiles(ws@.windows, output, zone, gaps).take(i as int),
            decreases n - i,
        {
            let s = wide_slot(&area, gaps.inner, n, i);
            assert(crate::geometry::slot_fits(
                slot(
                    area_of(output->0, zone, gaps.outer as int),
                    gaps.inner as int,
                    n as int,
                    i as int,
                ),
            ));
            out.push(
                Tile {
                    window: ws.windows[i],
                    location: Point { x: s.x as i32, y: s.y as i32 },
                    size: Size { w: s.w as i32, h: s.h as i32 },
                },
            );
            assert(out@ == tiles(ws@.windows, output, zone, gaps).take(i + 1));
            i = i + 1;
        }
        out
    }

    /// Whether the coordinates of all tiles of a workspace can be represented.
    pub fn layout_fits(ws: &Workspace, output: Option<Rect>, zone: Rect, gaps: Gaps) -> (r: bool)
        ensures
            r == tiles_fit(ws@.windows.len() as int, output, zone, gaps),
    {
        let area = match wide_area(output, zone, gaps.outer) {
            Some(a) => a,
            None => {
                return true;
            },
        };
        let n: usize = ws.windows.len();
        let mut i: usize = 0;
        let ghost a = area_of(output->0, zone, gaps.outer as int);
        while i < n
            invariant
                i <= n,
                n == ws@.windows.len(),
                has_area(output, zone, gaps),
                a == area_of(output->0, zone, gaps.outer as int),
                a == (Area {
                    x: area.x as int,
                    y: area.y as int,
                    w: area.w as int,
                    h: area.h as int,
                }),
                -0x2_0000_0000 <= area.x <= 0x2_0000_0000,
                -0x2_0000_0000 <= area.y <= 0x2_0000_0000,
                0 < area.w <= 0x2_0000_0000,
                0 < area.h <= 0x2_0000_0000,
                forall|k: int|
                    0 <= k < i ==> crate::geometry::slot_fits(#[trigger] slot(a, gaps.inner as int, n as int, k)),
            decreases n - i,
        {
            let s = wide_slot(&area, gaps.inner, n, i);
            if !s.fits() {
                assert(!crate::geometry::slot_fits(slot(a, gaps.inner as int, n as int, i as int)));
                return false;
            }
            assert(crate::geometry::slot_fits(slot(a, gaps.inner as int, n as int, i as int)));
            i = i + 1;
        }
        true
    }

    /// Arranges the windows of the active workspace.
    pub fn recalculate_layout(&self, output: Option<Rect>, zone: Rect, gaps: Gaps) -> (r: Vec<Tile>)
        requires
            self@.wf(),
            tiles_fit(self@.active().windows.len() as int, output, zone, gaps),
        ensures
            r@ == tiles(self@.active().windows, output, zone, gaps),
    {
        State::recalculate_layout_for(&self.workspaces[self.active_workspace], output, zone, gaps)
    }

    /// The gaps of the configuration.
    pub fn gaps(&self) -> (r: Gaps)
        ensures
            r.outer == self@.config.outer_gaps,
            r.inner == self@.config.inner_gaps,
    {
        Gaps { outer: self.config.outer_gaps, inner: self.config.inner_gaps }
    }
}

/// What is done on the display for a tile: the window is told its size, and
/// shown at its place.
pub fn place_tile(workspace: usize, tile: Tile) -> (r: Vec<Effect>)
    ensures
        r@ == seq![
            Effect::SetSize { window: tile.window, size: tile.size },
            Effect::Configure(tile.window),
            Effect::Place { workspace, window: tile.window, location: tile.location },
        ],
{
    vec![
        Effect::SetSize { window: tile.window, size: tile.size },
        Effect::Configure(tile.window),
        Effect::Place { workspace, window: tile.window, location: tile.location },
    ]
}

/// Whether an area has room for `n` windows of one pixel and for the gaps
/// between them.
pub open spec fn roomy(a: Area, inner: int, n: int) -> bool {
    &&& 0 <= inner
    &&& 0 < a.w
    &&& 0 < a.h
    &&& 1 <= n
    &&& n > 1 ==> a.w >= inner + 2 && a.h >= inner * (n - 2) + (n - 1)
}

/// What the heights of the stack come to where there is room.
proof fn stack_heights(a: Area, inner: int, n: int)
    requires
        roomy(a, inner, n),
        n > 1,
    ensures
        slice_height(a, inner, n - 1) >= 1,
        slice_height(a, inner, n - 1) * (n - 1) + inner * (n - 2) <= a.h,
{
    let count = n - 1;
    let usable = a.h - inner * (count - 1);
    assert(inner * (count - 1) == inner * (n - 2));
    let slice = usable / count;
    assert(slice >= 1 && slice * count <= usable) by (nonlinear_arith)
        requires
            slice == usable / count,
            usable >= count,
            count >= 1,
    ;
}

/// Where there is room, every tile lies within the area and has a size.
pub proof fn tiles_stay_inside(a: Area, inner: int, n: int, i: int)
    requires
        roomy(a, inner, n),
        0 <= i < n,
    ensures
        ({
            let s = slot(a, inner, n, i);
            &&& a.x <= s.x && s.x + s.w <= a.x + a.w
            &&& a.y <= s.y && s.y + s.h <= a.y + a.h
            &&& s.w > 0 && s.h > 0
        }),
{
    if n > 1 && i > 0 {
        stack_heights(a, inner, n);
        let slice = slice_height(a, inner, n - 1);
        let k = i - 1;
        assert(0 <= k * (slice + inner)) by (nonlinear_arith)
            requires
                0 <= k,
                0 <= slice,
                0 <= inner,
        ;
        assert(k * (slice + inner) + slice <= slice * (n - 1) + inner * (n - 2)) by (nonlinear_arith)
            requires
                0 <= k <= n - 2,
                0 <= slice,
                0 <= inner,
        ;
    }
}

/// Where there is room, no two tiles overlap.
pub proof fn tiles_do_not_overlap(a: Area, inner: int, n: int, i: int, j: int)
    requires
        roomy(a, inner, n),
        0 <= i < j < n,
    ensures
        crate::geometry::apart(slot(a, inner, n, i), slot(a, inner, n, j)),
{
    if i > 0 {
        stack_heights(a, inner, n);
        let slice = slice_height(a, inner, n - 1);
        assert((i - 1) * (slice + inner) + slice <= (j - 1) * (slice + inner)) by (nonlinear_arith)
            requires
                1 <= i < j,
                0 <= slice,
                0 <= inner,
        ;
    }
}

/// Where there is room, the tiles reach the edges of the area: the master the
/// left, top and bottom, the stack the right and the top, and its last window
/// the bottom; the gap lies between the columns, and between two windows of
/// the stack.
pub proof fn tiles_reach_the_edges(a: Area, inner: int, n: int, i: int)
    requires
        roomy(a, inner, n),
        n > 1,
        1 <= i < n,
    ensures
        ({
            let master = slot(a, inner, n, 0);
            let s = slot(a, inner, n, i);
            &&& master.x == a.x && master.y == a.y && master.h == a.h
            &&& s.x == master.x + master.w + inner
            &&& s.x + s.w == a.x + a.w
            &&& i == 1 ==> s.y == a.y
            &&& i < n - 1 ==> slot(a, inner, n, i + 1).y == s.y + s.h + inner
            &&& i == n - 1 ==> s.y + s.h == a.y + a.h
        }),
{
    stack_heights(a, inner, n);
    tiles_stay_inside(a, inner, n, i);
    let slice = slice_height(a, inner, n - 1);
    assert(i * (slice + inner) == (i - 1) * (slice + inner) + slice + inner) by (nonlinear_arith);
    if i == 1 {
        assert((i - 1) * (slice + inner) == 0);
    }
    assert((i - 1) * (slice + inner) + slice <= slice * (n - 1) + inner * (n - 2)) by (nonlinear_arith)
        requires
            1 <= i <= n - 1,
            0 <= slice,
            0 <= inner,
    ;
}

/// One window alone fills the area.
pub proof fn lone_tile_fills_the_area(a: Area, inner: int)
    ensures
        slot(a, inner, 1, 0) == (crate::geometry::Slot { x: a.x, y: a.y, w: a.w, h: a.h }),
{
}

} // verus!
