//! The coloured rectangles that are drawn around and over windows.
use crate::animation::{animation_progress, DyingWindow};
use crate::bits::Single;
use crate::geometry::{is_i32, max_i32, Point, Rect, Size};
use crate::workspace::Workspace;
use vstd::prelude::*;

verus! {

broadcast use vstd::std_specs::hash::group_hash_axioms;

/// What a rectangle is filled with.
#[derive(Clone, Copy, Debug, PartialEq, Eq, Structural)]
pub enum Paint {
    /// The glow that reaches so many pixels beyond the border.
    Glow(i32),
    /// The border of the focused window.
    ActiveBorder,
    /// The border of any other window.
    InactiveBorder,
    /// The background, over a window that fades in.
    Overlay,
    /// A window that fades out.
    Dying,
    /// The border of a window that fades out.
    DyingBorder,
}

/// A rectangle that is drawn for a window.
#[derive(Clone, Copy, Debug, PartialEq, Eq, Structural)]
pub struct Quad {
    pub window: u64,
    pub rect: Rect,
    pub paint: Paint,
}

/// A window as the display shows it.
#[derive(Clone, Copy, Debug, PartialEq, Eq, Structural)]
pub struct ShownWindow {
    pub window: u64,
    pub location: Option<Point>,
    pub size: Size,
}

/// How far the three glows reach beyond the border.
pub const GLOW_NEAR: i32 = 2;

pub const GLOW_MIDDLE: i32 = 4;

pub const GLOW_FAR: i32 = 6;

/// The width of the border of a window that fades out.
pub const DYING_BORDER: i32 = 2;

/// The pattern of 0.01, below which nothing is drawn.
pub const FAINT: u32 = 0x3C23_D70A;

/// A rectangle with a margin added on all sides.
pub open spec fn grown(s: crate::geometry::Slot, by: int) -> crate::geometry::Slot {
    crate::geometry::Slot { x: s.x - by, y: s.y - by, w: s.w + 2 * by, h: s.h + 2 * by }
}

/// The four bars of a frame of some thickness: above, below, left and right.
pub open spec fn bars(s: crate::geometry::Slot, thick: int) -> Seq<crate::geometry::Slot> {
    seq![
        crate::geometry::Slot { x: s.x, y: s.y, w: s.w, h: thick },
        crate::geometry::Slot { x: s.x, y: s.y + s.h - thick, w: s.w, h: thick },
        crate::geometry::Slot { x: s.x, y: s.y + thick, w: thick, h: s.h - 2 * thick },
        crate::geometry::Slot {
            x: s.x + s.w - thick,
            y: s.y + thick,
            w: thick,
            h: s.h - 2 * thick,
        },
    ]
}

/// The bars of a frame, painted.
pub open spec fn bar_quads(
    window: u64,
    s: crate::geometry::Slot,
    thick: int,
    paint: Paint,
) -> Seq<Quad> {
    bars(s, thick).map_values(
        |b: crate::geometry::Slot|
            Quad { window, rect: crate::geometry::rect_of(b), paint },
    )
}

/// Whether a frame can be drawn: all its edges can be represented, and the
/// bars are not thicker than the frame is wide and high.
pub open spec fn frame_fits(s: crate::geometry::Slot, thick: int) -> bool {
    &&& crate::geometry::slot_fits(s)
    &&& crate::geometry::fits(s.x + s.w)
    &&& crate::geometry::fits(s.y + s.h)
    &&& 0 <= thick
    &&& 2 * thick <= s.w
    &&& 2 * thick <= s.h
}

impl ShownWindow {
    /// Whether the window shows anything.
    pub open spec fn shows(self) -> bool {
        self.location is Some && self.size.w > 0 && self.size.h > 0
    }

    /// The rectangle of the window, so many pixels to the right.
    pub open spec fn place(self, x_offset: int) -> crate::geometry::Slot {
        crate::geometry::Slot {
            x: self.location->0.x + x_offset,
            y: self.location->0.y as int,
            w: self.size.w as int,
            h: self.size.h as int,
        }
    }

    /// What is drawn around the window: a flat border, and around the focused
    /// one three glows behind it, the farthest first.
    pub open spec fn border_quads(self, bw: int, focus: Option<u64>, x_offset: int) -> Seq<Quad> {
        let s = self.place(x_offset);
        let flat = grown(s, bw);
        if !self.shows() {
            seq![]
        } else if focus == Some(self.window) {
            bar_quads(self.window, grown(s, bw + GLOW_FAR), bw + GLOW_FAR, Paint::Glow(GLOW_FAR))
                + bar_quads(
                self.window,
                grown(s, bw + GLOW_MIDDLE),
                bw + GLOW_MIDDLE,
                Paint::Glow(GLOW_MIDDLE),
            ) + bar_quads(
                self.window,
                grown(s, bw + GLOW_NEAR),
                bw + GLOW_NEAR,
                Paint::Glow(GLOW_NEAR),
            ) + bar_quads(self.window, flat, bw, Paint::ActiveBorder)
        } else {
            bar_quads(self.window, flat, bw, Paint::InactiveBorder)
        }
    }

    /// Whether what is drawn around the window can be represented.
    pub open spec fn border_fits(self, bw: int, focus: Option<u64>, x_offset: int) -> bool {
        let margin = if focus == Some(self.window) {
            bw + GLOW_FAR
        } else {
            bw
        };
        self.shows() ==> frame_fits(grown(self.place(x_offset), margin), margin)
    }
}

/// What is drawn around the windows of a list, one after the other.
pub open spec fn all_border_quads(
    list: Seq<ShownWindow>,
    bw: int,
    focus: Option<u64>,
    x_offset: int,
) -> Seq<Quad>
    decreases list.len(),
{
    if list.len() == 0 || bw <= 0 {
        seq![]
    } else {
        all_border_quads(list.drop_last(), bw, focus, x_offset) + list.last().border_quads(
            bw,
            focus,
            x_offset,
        )
    }
}

/// Adds the bars of a frame to a list.
fn push_bars(out: &mut Vec<Quad>, window: u64, rect: Rect, thick: i32, paint: Paint)
    requires
        frame_fits(rect.slot(), thick as int),
    ensures
        final(out)@ == old(out)@ + bar_quads(window, rect.slot(), thick as int, paint),
{
    let x: i32 = rect.loc.x;
    let y: i32 = rect.loc.y;
    let w: i32 = rect.size.w;
    let h: i32 = rect.size.h;
    let above = Rect { loc: Point { x, y }, size: Size { w, h: thick } };
    let below = Rect { loc: Point { x, y: y + h - thick }, size: Size { w, h: thick } };
    let left = Rect {
        loc: Point { x, y: y + thick },
        size: Size { w: thick, h: h - 2 * thick },
    };
    let right = Rect {
        loc: Point { x: x + w - thick, y: y + thick },
        size: Size { w: thick, h: h - 2 * thick },
    };
    out.push(Quad { window, rect: above, paint });
    out.push(Quad { window, rect: below, paint });
    out.push(Quad { window, rect: left, paint });
    out.push(Quad { window, rect: right, paint });
    assert(out@ == old(out)@ + bar_quads(window, rect.slot(), thick as int, paint));
}

/// A window with a margin added on all sides.
fn grown_rect(w: &ShownWindow, loc: Point, by: i32, x_offset: i32) -> (r: Rect)
    requires
        w.location == Some(loc),
        0 <= by,
        frame_fits(grown(w.place(x_offset as int), by as int), by as int),
    ensures
        r.slot() == grown(w.place(x_offset as int), by as int),
{
    let x: i64 = loc.x as i64 + x_offset as i64 - by as i64;
    let y: i64 = loc.y as i64 - by as i64;
    let width: i64 = w.size.w as i64 + 2 * by as i64;
    let height: i64 = w.size.h as i64 + 2 * by as i64;
    Rect {
        loc: Point { x: x as i32, y: y as i32 },
        size: Size { w: width as i32, h: height as i32 },
    }
}

/// Adds the flat border of a window to a list.
fn render_flat_border(
    out: &mut Vec<Quad>,
    w: &ShownWindow,
    loc: Point,
    bw: i32,
    x_offset: i32,
    paint: Paint,
)
    requires
        w.location == Some(loc),
        0 <= bw,
        frame_fits(grown(w.place(x_offset as int), bw as int), bw as int),
    ensures
        final(out)@ == old(out)@ + bar_quads(
            w.window,
            grown(w.place(x_offset as int), bw as int),
            bw as int,
            paint,
        ),
{
    let rect = grown_rect(w, loc, bw, x_offset);
    push_bars(out, w.window, rect, bw, paint);
}

fn push_border(
    out: &mut Vec<Quad>,
    w: &ShownWindow,
    bw: i32,
    focus: Option<u64>,
    x_offset: i32,
)
    requires
        0 < bw,
        w.border_fits(bw as int, focus, x_offset as int),
    ensures
        final(out)@ == old(out)@ + w.border_quads(bw as int, focus, x_offset as int),
{
    let loc = match w.location {
        Some(loc) => loc,
        None => {
            return;
        },
    };
    if w.size.w <= 0 || w.size.h <= 0 {
        return;
    }
    let focused = match focus {
        Some(f) => f == w.window,
        None => false,
    };
    if focused {
        render_flat_border(out, w, loc, bw + GLOW_FAR, x_offset, Paint::Glow(GLOW_FAR));
        render_flat_border(out, w, loc, bw + GLOW_MIDDLE, x_offset, Paint::Glow(GLOW_MIDDLE));
        render_flat_border(out, w, loc, bw + GLOW_NEAR, x_offset, Paint::Glow(GLOW_NEAR));
        render_flat_border(out, w, loc, bw, x_offset, Paint::ActiveBorder);
    } else {
        render_flat_border(out, w, loc, bw, x_offset, Paint::InactiveBorder);
    }
    assert(out@ == old(out)@ + w.border_quads(bw as int, focus, x_offset as int));
}

/// What is drawn around the windows of a workspace that is drawn `x_offset`
/// pixels to the right; nothing where borders have no width.
pub fn build_border_and_glow_elements(
    windows: &Vec<ShownWindow>,
    border_width: i32,
    focus: Option<u64>,
    x_offset: i32,
) -> (r: Vec<Quad>)
    requires
        border_width > 0 ==> forall|i: int|
            0 <= i < windows@.len() ==> (#[trigger] windows@[i]).border_fits(
                border_width as int,
                focus,
                x_offset as int,
            ),
    ensures
        r@ == all_border_quads(windows@, border_width as int, focus, x_offset as int),
{
    let mut out: Vec<Quad> = Vec::new();
    if border_width <= 0 {
        return out;
    }
    let mut i: usize = 0;
    while i < windows.len()
        invariant
            i <= windows.len(),
            0 < border_width,
            forall|k: int|
                0 <= k < windows@.len() ==> (#[trigger] windows@[k]).border_fits(
                    border_width as int,
                    focus,
                    x_offset as int,
                ),
            out@ == all_border_quads(
                windows@.take(i as int),
                border_width as int,
                focus,
                x_offset as int,
            ),
        decreases windows.len() - i,
    {
        assert(windows@[i as int].border_fits(border_width as int, focus, x_offset as int));
        push_border(&mut out, &windows[i], border_width, focus, x_offset);
        assert(windows@.take(i + 1).drop_last() == windows@.take(i as int));
        i = i + 1;
    }
    assert(windows@.take(windows@.len() as int) == windows@);
    out
}

/// What covers a window that fades in, where it can be seen: `alpha` is how
/// much of it shows.
pub open spec fn overlay_quads(
    ws: crate::workspace::WorkspaceView,
    w: ShownWindow,
    alpha: Single,
    now: u64,
) -> Seq<Quad> {
    let fades = ws.spawn_times.dom().contains(w.window) && crate::animation::running(
        now,
        ws.spawn_times[w.window],
        crate::animation::ANIMATION_DURATION,
    ) is Some;
    if fades && !alpha.below(Single { bits: FAINT }) && w.shows() {
        seq![
            Quad {
                window: w.window,
                rect: Rect { loc: w.location->0, size: w.size },
                paint: Paint::Overlay,
            },
        ]
    } else {
        seq![]
    }
}

/// What covers the windows of a list that fade in.
pub open spec fn all_overlay_quads(
    ws: crate::workspace::WorkspaceView,
    list: Seq<ShownWindow>,
    alphas: Seq<Single>,
    now: u64,
) -> Seq<Quad>
    decreases list.len(),
{
    if list.len() == 0 {
        seq![]
    } else {
        all_overlay_quads(ws, list.drop_last(), alphas, now) + overlay_quads(
            ws,
            list.last(),
            alphas[list.len() - 1],
            now,
        )
    }
}

/// What covers the windows that fade in. `alphas` tells how much each cover
/// shows.
pub fn build_fade_in_overlays(
    ws: &Workspace,
    windows: &Vec<ShownWindow>,
    alphas: &Vec<Single>,
    now: u64,
) -> (r: Vec<Quad>)
    requires
        alphas@.len() == windows@.len(),
    ensures
        r@ == all_overlay_quads(ws@, windows@, alphas@, now),
{
    let mut out: Vec<Quad> = Vec::new();
    let mut i: usize = 0;
    while i < windows.len()
        invariant
            i <= windows.len(),
            alphas@.len() == windows@.len(),
            out@ == all_overlay_quads(ws@, windows@.take(i as int), alphas@, now),
        decreases windows.len() - i,
    {
        let ghost before = out@;
        let w = windows[i];
        let fades = match ws.spawn_times.get(&w.window) {
            Some(t) => animation_progress(now, *t).is_some(),
            None => false,
        };
        if fades && !alphas[i].lt(Single { bits: FAINT }) {
            if let Some(loc) = w.location {
                if w.size.w > 0 && w.size.h > 0 {
                    out.push(
                        Quad {
                            window: w.window,
                            rect: Rect { loc, size: w.size },
                            paint: Paint::Overlay,
                        },
                    );
                }
            }
        }
        assert(out@ == before + overlay_quads(ws@, w, alphas@[i as int], now));
        assert(windows@.take(i + 1).drop_last() == windows@.take(i as int));
        i = i + 1;
    }
    assert(windows@.take(windows@.len() as int) == windows@);
    out
}

/// The rectangle of a window that fades out, so many pixels to the right; one
/// pixel at least.
pub open spec fn dying_slot(
    d: crate::animation::DyingWindow,
    x_offset: int,
) -> crate::geometry::Slot {
    crate::geometry::Slot {
        x: d.last_location.x + x_offset,
        y: d.last_location.y as int,
        w: crate::geometry::larger(d.last_size.w as int, 1),
        h: crate::geometry::larger(d.last_size.h as int, 1),
    }
}

/// How much shows of a window that fades out, and of its border.
#[derive(Clone, Copy, Debug, PartialEq, Eq, Structural)]
pub struct DyingAlpha {
    pub fill: Single,
    pub border: Single,
}

/// What is drawn for a window that fades out: nothing where it is too faint,
/// and a border where that is not too faint.
pub open spec fn dying_quads(
    d: crate::animation::DyingWindow,
    alpha: DyingAlpha,
    now: u64,
    x_offset: int,
) -> Seq<Quad> {
    let s = dying_slot(d, x_offset);
    let fill = seq![
        Quad { window: d.window, rect: crate::geometry::rect_of(s), paint: Paint::Dying },
    ];
    if !d.fading(now) || alpha.fill.below(Single { bits: FAINT }) {
        seq![]
    } else if (Single { bits: FAINT }).below(alpha.border) {
        fill + bar_quads(
            d.window,
            grown(s, DYING_BORDER as int),
            DYING_BORDER as int,
            Paint::DyingBorder,
        )
    } else {
        fill
    }
}

/// What is drawn for the windows of a list that fade out.
pub open spec fn all_dying_quads(
    list: Seq<crate::animation::DyingWindow>,
    alphas: Seq<DyingAlpha>,
    now: u64,
    x_offset: int,
) -> Seq<Quad>
    decreases list.len(),
{
    if list.len() == 0 {
        seq![]
    } else {
        all_dying_quads(list.drop_last(), alphas, now, x_offset) + dying_quads(
            list.last(),
            alphas[list.len() - 1],
            now,
            x_offset,
        )
    }
}

/// Whether what is drawn for a window that fades out can be represented.
pub open spec fn dying_fits(
    d: crate::animation::DyingWindow,
    alpha: DyingAlpha,
    now: u64,
    x_offset: int,
) -> bool {
    let s = dying_slot(d, x_offset);
    d.fading(now) && !alpha.fill.below(Single { bits: FAINT }) ==> {
        &&& crate::geometry::slot_fits(s)
        &&& (Single { bits: FAINT }).below(alpha.border) ==> frame_fits(
            grown(s, DYING_BORDER as int),
            DYING_BORDER as int,
        )
    }
}

fn frame_in_range(rect: Rect, x_offset: i32, by: i32) -> (r: bool)
    requires
        0 <= by,
    ensures
        r == ({
            let s = crate::geometry::Slot { x: rect.loc.x + x_offset, ..rect.slot() };
            frame_fits(grown(s, by as int), by as int)
        }),
{
    let b: i128 = by as i128;
    let x: i128 = rect.loc.x as i128 + x_offset as i128 - b;
    let y: i128 = rect.loc.y as i128 - b;
    let w: i128 = rect.size.w as i128 + 2 * b;
    let h: i128 = rect.size.h as i128 + 2 * b;
    is_i32(x) && is_i32(y) && is_i32(w) && is_i32(h) && is_i32(x + w) && is_i32(y + h) && 2 * b <= w
        && 2 * b <= h
}

/// Whether what is drawn around a window can be represented.
pub fn border_in_range(w: &ShownWindow, bw: i32, focus: Option<u64>, x_offset: i32) -> (r: bool)
    requires
        0 <= bw < i32::MAX - GLOW_FAR,
    ensures
        r == w.border_fits(bw as int, focus, x_offset as int),
{
    let focused = match focus {
        Some(f) => f == w.window,
        None => false,
    };
    let margin: i32 = if focused {
        bw + GLOW_FAR
    } else {
        bw
    };
    match w.location {
        Some(loc) => w.size.w <= 0 || w.size.h <= 0 || frame_in_range(
            Rect { loc, size: w.size },
            x_offset,
            margin,
        ),
        None => true,
    }
}

/// Whether what is drawn for a window that fades out can be represented.
pub fn dying_in_range(
    d: &DyingWindow,
    alpha: DyingAlpha,
    now: u64,
    x_offset: i32,
) -> (r: bool)
    ensures
        r == dying_fits(*d, alpha, now, x_offset as int),
{
    if d.fade_alpha(now).is_none() || alpha.fill.lt(Single { bits: FAINT }) {
        return true;
    }
    let rect = Rect {
        loc: d.last_location,
        size: Size { w: max_i32(d.last_size.w, 1), h: max_i32(d.last_size.h, 1) },
    };
    is_i32(d.last_location.x as i128 + x_offset as i128) && (!(Single { bits: FAINT }).lt(
        alpha.border,
    ) || frame_in_range(rect, x_offset, DYING_BORDER))
}

/// What is drawn for the windows of a workspace that fade out. `alphas` tells
/// how much of each shows.
pub fn build_dying_window_elements(
    ws: &Workspace,
    alphas: &Vec<DyingAlpha>,
    now: u64,
    x_offset: i32,
) -> (r: Vec<Quad>)
    requires
        alphas@.len() == ws@.dying_windows.len(),
        forall|i: int|
            0 <= i < ws@.dying_windows.len() ==> dying_fits(
                #[trigger] ws@.dying_windows[i],
                alphas@[i],
                now,
                x_offset as int,
            ),
    ensures
        r@ == all_dying_quads(ws@.dying_windows, alphas@, now, x_offset as int),
{
    let mut out: Vec<Quad> = Vec::new();
    let mut i: usize = 0;
    while i < ws.dying_windows.len()
        invariant
            i <= ws.dying_windows.len(),
            alphas@.len() == ws@.dying_windows.len(),
            forall|k: int|
                0 <= k < ws@.dying_windows.len() ==> dying_fits(
                    #[trigger] ws@.dying_windows[k],
                    alphas@[k],
                    now,
                    x_offset as int,
                ),
            out@ == all_dying_quads(
                ws@.dying_windows.take(i as int),
                alphas@,
                now,
                x_offset as int,
            ),
        decreases ws.dying_windows.len() - i,
    {
        let ghost before = out@;
        let d = ws.dying_windows[i];
        let alpha = alphas[i];
        assert(dying_fits(ws@.dying_windows[i as int], alpha, now, x_offset as int));
        if d.fade_alpha(now).is_some() && !alpha.fill.lt(Single { bits: FAINT }) {
            let x: i64 = d.last_location.x as i64 + x_offset as i64;
            let rect = Rect {
                loc: Point { x: x as i32, y: d.last_location.y },
                size: Size { w: max_i32(d.last_size.w, 1), h: max_i32(d.last_size.h, 1) },
            };
            out.push(Quad { window: d.window, rect, paint: Paint::Dying });
            if (Single { bits: FAINT }).lt(alpha.border) {
                let around = Rect {
                    loc: Point {
                        x: rect.loc.x - DYING_BORDER,
                        y: rect.loc.y - DYING_BORDER,
                    },
                    size: Size {
                        w: rect.size.w + 2 * DYING_BORDER,
                        h: rect.size.h + 2 * DYING_BORDER,
                    },
                };
                push_bars(&mut out, d.window, around, DYING_BORDER, Paint::DyingBorder);
            }
        }
        assert(out@ == before + dying_quads(d, alpha, now, x_offset as int));
        assert(ws@.dying_windows.take(i + 1).drop_last() == ws@.dying_windows.take(i as int));
        i = i + 1;
    }
    assert(ws@.dying_windows.take(ws@.dying_windows.len() as int) == ws@.dying_windows);
    out
}

/// The bars of a frame cover the rectangle but for what lies inside the frame,
/// and each pixel only once.
pub proof fn bars_make_a_frame(
    s: crate::geometry::Slot,
    thick: int,
    x: int,
    y: int,
    i: int,
    j: int,
)
    requires
        0 <= thick,
        2 * thick <= s.w,
        2 * thick <= s.h,
        0 <= i < j < 4,
    ensures
        (exists|k: int| 0 <= k < 4 && #[trigger] crate::geometry::covers(bars(s, thick)[k], x, y))
            <==> crate::geometry::covers(s, x, y) && !crate::geometry::covers(
            grown(s, -thick),
            x,
            y,
        ),
        !(crate::geometry::covers(bars(s, thick)[i], x, y) && crate::geometry::covers(
            bars(s, thick)[j],
            x,
            y,
        )),
{
    let b = bars(s, thick);
    if crate::geometry::covers(s, x, y) && !crate::geometry::covers(grown(s, -thick), x, y) {
        if y < s.y + thick {
            assert(crate::geometry::covers(b[0], x, y));
        } else if y >= s.y + s.h - thick {
            assert(crate::geometry::covers(b[1], x, y));
        } else if x < s.x + thick {
            assert(crate::geometry::covers(b[2], x, y));
        } else {
            assert(crate::geometry::covers(b[3], x, y));
        }
    }
}

/// The border of a window leaves free what the window shows.
pub proof fn border_leaves_the_window_free(
    s: crate::geometry::Slot,
    bw: int,
)
    requires
        0 <= bw,
    ensures
        grown(grown(s, bw), -bw) == s,
{
}

} // verus!
