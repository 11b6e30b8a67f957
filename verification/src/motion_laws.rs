//! What becomes of swipes, slides and fades, and of the frames that show them.
use crate::animation::DyingWindow;
use crate::bits::Double;
use crate::frame::{Layer, Pass};
use crate::state::Effect;
use crate::swipe::{GestureOutcome, GestureSwipeState, SwipeOffset};
use crate::transition::{TransitionDirection, WorkspaceTransition};
use vstd::prelude::*;

verus! {

/// A swipe that was lifted switches just where it was not cancelled and went over three
/// tenths of the screen at least, or at 0.8 pixels per millisecond at least, and where
/// there is a workspace on the side that it shows: dragged to the right it leads to
/// the previous workspace, to the left to the next. The screen moves on by its whole
/// width then, and back to where it rests otherwise.
pub proof fn swipe_switches_where_it_commits(
    s: crate::state::StateView,
    cancelled: bool,
    fraction: Double,
    velocity: Double,
    now: u64,
)
    requires
        s.gesture_swipe.tracking,
        s.gesture_swipe.origin_workspace < s.workspaces.len() <= usize::MAX,
    ensures
        ({
            let t = s.swipe_ended(cancelled, fraction, velocity, now);
            let swipe = t.gesture_swipe;
            let dx = s.gesture_swipe.cumulative_dx;
            let width = s.gesture_swipe.screen_width;
            let origin = s.gesture_swipe.origin_workspace as int;
            let last = s.workspaces.len() - 1;
            let far = (Double { bits: 0x3FD3_3333_3333_3333 }).at_most(fraction);
            let fast = (Double { bits: 0x3FE9_9999_9999_999A }).at_most(velocity);
            let back = !cancelled && (far || fast) && (Double { bits: 0 }).below(dx) && origin > 0;
            let on = !cancelled && (far || fast) && dx.below(Double { bits: 0 }) && origin < last;
            &&& t.gesture_pending_switch is Some <==> back || on
            &&& back ==> t.gesture_pending_switch->0 == origin - 1
            &&& on ==> t.gesture_pending_switch->0 == origin + 1
            &&& back ==> swipe.anim_target_offset == width
            &&& on && width.bits < 0x8000_0000_0000_0000 ==> swipe.anim_target_offset.bits
                == width.bits + 0x8000_0000_0000_0000
            &&& on && width.bits >= 0x8000_0000_0000_0000 ==> swipe.anim_target_offset.bits
                == width.bits - 0x8000_0000_0000_0000
            &&& !back && !on ==> swipe.anim_target_offset.bits == 0
            &&& swipe.anim_duration == (if back || !cancelled && (far || fast) && dx.below(
                Double { bits: 0 },
            ) {
                250_000_000u64
            } else {
                200_000_000u64
            })
            &&& swipe == (GestureSwipeState {
                tracking: false,
                animating: true,
                anim_start_offset: dx,
                anim_start_time: now,
                anim_target_offset: swipe.anim_target_offset,
                anim_duration: swipe.anim_duration,
                ..s.gesture_swipe
            })
            &&& t == (crate::state::StateView {
                gesture_swipe: swipe,
                gesture_pending_switch: t.gesture_pending_switch,
                needs_redraw: true,
                ..s
            })
        }),
{
}

/// A swipe that goes as far or as fast in one direction as another does in the other
/// leads as many workspaces on as that one leads back.
pub proof fn swipes_lead_both_ways(
    s: crate::state::StateView,
    fraction: Double,
    velocity: Double,
    now: u64,
)
    requires
        s.gesture_swipe.tracking,
        0 < s.gesture_swipe.origin_workspace,
        s.gesture_swipe.origin_workspace + 1 < s.workspaces.len() <= usize::MAX,
    ensures
        ({
            let turned = crate::state::StateView {
                gesture_swipe: GestureSwipeState {
                    cumulative_dx: s.gesture_swipe.cumulative_dx.negated(),
                    ..s.gesture_swipe
                },
                ..s
            };
            let a = s.swipe_ended(false, fraction, velocity, now).gesture_pending_switch;
            let b = turned.swipe_ended(false, fraction, velocity, now).gesture_pending_switch;
            &&& a is Some <==> b is Some
            &&& a is Some ==> a->0 + b->0 == 2 * s.gesture_swipe.origin_workspace
        }),
{
}

/// The fingers that are lifted without a swipe change nothing, nor do those that move.
pub proof fn no_swipe_nothing_done(
    s: crate::state::StateView,
    cancelled: bool,
    fraction: Double,
    velocity: Double,
    now: u64,
)
    requires
        !s.gesture_swipe.tracking,
    ensures
        s.swipe_ended(cancelled, fraction, velocity, now) == s,
        s.swipe_moved(fraction, velocity) == s,
{
}

/// Where a swipe leads by itself: back, on, or nowhere, and how it moves from then on.
pub proof fn finished_swipe_moves_on_or_back(
    swipe: GestureSwipeState,
    fraction: Double,
    velocity: Double,
    now: u64,
)
    requires
        swipe.origin_workspace < usize::MAX,
    ensures
        ({
            let outcome = swipe.outcome(fraction, velocity);
            let t = swipe.finished(outcome, now);
            let dx = swipe.cumulative_dx;
            let width = swipe.screen_width;
            let commit = (Double { bits: 0x3FD3_3333_3333_3333 }).at_most(fraction) || (Double {
                bits: 0x3FE9_9999_9999_999A,
            }).at_most(velocity);
            let back = commit && (Double { bits: 0 }).below(dx) && swipe.origin_workspace > 0;
            let on = commit && dx.below(Double { bits: 0 });
            &&& outcome is SwitchTo <==> back || on
            &&& back ==> outcome->SwitchTo_0 == swipe.origin_workspace - 1
            &&& on ==> outcome->SwitchTo_0 == swipe.origin_workspace + 1
            &&& back ==> t.anim_target_offset == width
            &&& on ==> t.anim_target_offset.negated() == width && t.anim_target_offset != width
            &&& !back && !on ==> t.anim_target_offset.bits == 0
            &&& t.anim_duration == (if back || on {
                250_000_000u64
            } else {
                200_000_000u64
            })
            &&& t == (GestureSwipeState {
                tracking: false,
                animating: true,
                anim_start_offset: dx,
                anim_start_time: now,
                anim_target_offset: t.anim_target_offset,
                anim_duration: t.anim_duration,
                ..swipe
            })
        }),
{
}

/// A swipe that was cancelled moves back to where the screen rests.
pub proof fn cancelled_swipe_moves_back(swipe: GestureSwipeState, now: u64)
    ensures
        swipe.finished(GestureOutcome::SnapBack, now) == (GestureSwipeState {
            tracking: false,
            animating: true,
            anim_start_offset: swipe.cumulative_dx,
            anim_target_offset: Double { bits: 0 },
            anim_start_time: now,
            anim_duration: 200_000_000,
            ..swipe
        }),
{
}

/// Three or four fingers begin a swipe on the active workspace, with the screen where
/// it rests; any other number of fingers does not.
pub proof fn three_or_four_fingers_swipe(
    s: crate::state::StateView,
    fingers: u32,
    screen_width: Option<Double>,
    now: u64,
)
    requires
        0 <= s.active_workspace < s.workspaces.len() <= usize::MAX,
    ensures
        ({
            let t = s.swipe_begun(fingers, screen_width, now);
            let swipe = t.gesture_swipe;
            &&& fingers < 3 || fingers > 4 ==> t == s
            &&& 3 <= fingers <= 4 ==> {
                &&& swipe.tracking && !swipe.animating
                &&& swipe.fingers == fingers
                &&& swipe.cumulative_dx.bits == 0
                &&& swipe.origin_workspace == s.active_workspace
                &&& screen_width is Some ==> swipe.screen_width == screen_width->0
                &&& screen_width is None ==> swipe.screen_width.bits == 0x409E_0000_0000_0000
                &&& swipe.anim_start_offset.bits == 0 && swipe.anim_target_offset.bits == 0
                &&& swipe.anim_start_time == now
                &&& swipe.anim_duration == 300_000_000
                &&& t == (crate::state::StateView {
                    gesture_swipe: swipe,
                    gesture_start_time: now,
                    ..s
                })
            }
        }),
{
}

/// The screen follows the fingers as far as its own width, where there is a workspace
/// on the side that they drag it to; past the first and the last workspace it lags
/// behind them.
pub proof fn drag_follows_the_fingers(
    s: crate::state::StateView,
    new_offset: Double,
    damped: Double,
)
    requires
        s.gesture_swipe.tracking,
        s.gesture_swipe.origin_workspace < s.workspaces.len() <= usize::MAX,
        !new_offset.nan(),
        (Double { bits: 0 }).at_most(s.gesture_swipe.screen_width),
    ensures
        ({
            let t = s.swipe_moved(new_offset, damped);
            let dx = t.gesture_swipe.cumulative_dx;
            let width = s.gesture_swipe.screen_width;
            let origin = s.gesture_swipe.origin_workspace;
            let right = (Double { bits: 0 }).below(new_offset);
            let left = new_offset.below(Double { bits: 0 });
            let past = right && origin == 0 || left && origin == s.workspaces.len() - 1;
            &&& past ==> dx == damped
            &&& !past && width.below(new_offset) ==> dx == width
            &&& !past && new_offset.below(width.negated()) ==> dx == width.negated()
            &&& !past && !width.below(new_offset) && !new_offset.below(width.negated())
                ==> dx == new_offset
            &&& t == (crate::state::StateView {
                gesture_swipe: GestureSwipeState { cumulative_dx: dx, ..s.gesture_swipe },
                needs_redraw: true,
                ..s
            })
        }),
{
}

/// When the animation after a swipe is over, the workspace that the swipe leads to
/// becomes the active one, its last window gets the keyboard, and the screen rests.
/// Before that the screen is only drawn.
pub proof fn settled_swipe_lands(s: crate::state::StateView, now: u64)
    requires
        0 <= s.active_workspace < s.workspaces.len() <= usize::MAX,
        s.gesture_swipe.animating,
        s.gesture_swipe.anim_start_time <= now,
    ensures
        ({
            let (t, effects) = s.swipe_settled(now);
            let over = now - s.gesture_swipe.anim_start_time >= s.gesture_swipe.anim_duration;
            let target = s.gesture_pending_switch;
            let moves = over && target is Some && target->0 < s.workspaces.len() && target->0
                != s.active_workspace;
            let windows = s.workspaces[target->0 as int].windows;
            let slide = t.workspace_transition;
            &&& !over ==> t == (crate::state::StateView { needs_redraw: true, ..s })
            &&& !moves ==> effects.len() == 0
            &&& over ==> t == (crate::state::StateView {
                gesture_swipe: GestureSwipeState {
                    tracking: false,
                    animating: false,
                    cumulative_dx: Double { bits: 0 },
                    ..s.gesture_swipe
                },
                gesture_pending_switch: None,
                active_workspace: t.active_workspace,
                focus: t.focus,
                workspace_transition: slide,
                needs_redraw: true,
                ..s
            })
            &&& !moves ==> t.active_workspace == s.active_workspace && t.focus == s.focus && slide
                == s.workspace_transition
            &&& moves ==> {
                let rested = crate::state::StateView {
                    gesture_swipe: t.gesture_swipe,
                    gesture_pending_switch: None,
                    needs_redraw: true,
                    ..s
                };
                &&& (t, effects) == rested.workspace_switched(target->0, now)
                &&& t.active_workspace == target->0
                &&& windows.len() == 0 ==> t.focus is None
                &&& windows.len() > 0 ==> t.focus == Some(windows[windows.len() - 1])
                &&& slide.active
                &&& slide.from_workspace == s.active_workspace
                &&& slide.to_workspace == target->0
                &&& effects == seq![
                    Effect::SetFocus(t.focus),
                    Effect::Retile(target->0),
                    Effect::BroadcastWorkspaces,
                ]
            }
        }),
{
}

/// Without an animation after a swipe there is nothing to settle, and before its start
/// it does not end.
pub proof fn swipe_settles_in_time(s: crate::state::StateView, now: u64)
    ensures
        !s.gesture_swipe.animating ==> s.swipe_settled(now) == (s, Seq::<Effect>::empty()),
        s.gesture_swipe.animating && now < s.gesture_swipe.anim_start_time
            && s.gesture_swipe.anim_duration > 0 ==> s.swipe_settled(now) == (
            crate::state::StateView { needs_redraw: true, ..s },
            Seq::<Effect>::empty(),
        ),
{
}

/// The animation after a swipe ends when its time is over, with the screen at the
/// target, and changes nothing before.
pub proof fn swipe_animation_ends_at_its_target(swipe: GestureSwipeState, now: u64)
    requires
        swipe.anim_start_time <= now,
    ensures
        ({
            let t = swipe.ticked(now);
            let over = swipe.animating && now - swipe.anim_start_time >= swipe.anim_duration;
            &&& !over ==> t == swipe
            &&& over ==> t == (GestureSwipeState {
                animating: false,
                cumulative_dx: swipe.anim_target_offset,
                ..swipe
            })
        }),
{
}

/// Where the screen stands: where the fingers hold it, on its way from where it was
/// lifted to its target, or at rest.
pub proof fn offset_tells_where_the_screen_stands(swipe: GestureSwipeState, now: u64)
    requires
        swipe.anim_start_time <= now,
    ensures
        swipe.tracking ==> swipe.offset(now) == SwipeOffset::Live(swipe.cumulative_dx),
        !swipe.tracking && !swipe.animating ==> swipe.offset(now) == SwipeOffset::Rest,
        !swipe.tracking && swipe.animating ==> swipe.offset(now) == (SwipeOffset::Moving {
            start: swipe.anim_start_offset,
            target: swipe.anim_target_offset,
            elapsed: (now - swipe.anim_start_time) as u64,
            duration: swipe.anim_duration,
        }),
{
}

/// Beside the workspace that is dragged shows the previous one where the screen stands
/// to the right, and the next one where it stands to the left, if there is one.
pub proof fn neighbours_show_beside(swipe: GestureSwipeState, offset: Double, max_ws: usize)
    ensures
        ({
            let origin = swipe.origin_workspace;
            let r = swipe.adjacent(offset, max_ws);
            let back = (Double { bits: 0 }).below(offset) && origin > 0;
            let on = offset.below(Double { bits: 0 }) && origin < max_ws;
            &&& r is Some <==> back || on
            &&& back ==> r->0 == origin - 1
            &&& on ==> r->0 == origin + 1
        }),
{
}

/// A compositor starts without a swipe and without a slide.
pub proof fn nothing_moves_at_the_start(now: u64)
    ensures
        ({
            let swipe = GestureSwipeState::resting(now);
            let slide = WorkspaceTransition::resting(now);
            &&& !swipe.tracking && !swipe.animating
            &&& swipe.fingers == 0 && swipe.origin_workspace == 0
            &&& swipe.cumulative_dx.bits == 0
            &&& swipe.screen_width.bits == 0x409E_0000_0000_0000
            &&& swipe.anim_start_offset.bits == 0 && swipe.anim_target_offset.bits == 0
            &&& swipe.anim_start_time == now && swipe.anim_duration == 300_000_000
            &&& !slide.active
            &&& slide.from_workspace == 0 && slide.to_workspace == 0
            &&& slide.direction == TransitionDirection::Left
            &&& slide.start_time == now && slide.duration == 250_000_000
            &&& slide.progress.bits == 0
        }),
{
}

/// A slide goes from one workspace to the other, to the left where that is a later one,
/// and takes as long as it did before.
pub proof fn slide_begins(slide: WorkspaceTransition, from: usize, to: usize, now: u64)
    ensures
        ({
            let t = slide.begun(from, to, now);
            &&& t.active
            &&& t.from_workspace == from && t.to_workspace == to
            &&& to > from ==> t.direction == TransitionDirection::Left
            &&& to <= from ==> t.direction == TransitionDirection::Right
            &&& t.start_time == now
            &&& t.duration == slide.duration
            &&& t.progress.bits == 0
        }),
{
}

/// A slide moves on to where it is brought, ends when it has come to 1.0, and stays
/// ended.
pub proof fn slide_moves_on(slide: WorkspaceTransition, eased: Double)
    ensures
        ({
            let t = slide.advanced(eased);
            let over = (Double { bits: 0x3FF0_0000_0000_0000 }).at_most(eased);
            &&& !slide.active ==> t == slide
            &&& slide.active ==> {
                &&& t.active == !over
                &&& over ==> t.progress.bits == 0x3FF0_0000_0000_0000
                &&& !over ==> t.progress == eased
                &&& t == (WorkspaceTransition { active: t.active, progress: t.progress, ..slide })
            }
        }),
{
}

/// Where the two workspaces of a slide stand: to the left the one that is left goes out
/// on the left, and the one that is entered comes in on the right; to the right the
/// other way round.
pub proof fn slide_sides(slide: WorkspaceTransition, travelled: int, remaining: int)
    ensures
        slide.direction == TransitionDirection::Left ==> slide.left_at(travelled) == -travelled
            && slide.entered_at(remaining) == remaining,
        slide.direction == TransitionDirection::Right ==> slide.left_at(travelled) == travelled
            && slide.entered_at(remaining) == -remaining,
{
}

/// A fade runs from its start for as long as it takes, and tells how much of that has
/// passed.
pub proof fn fades_take_their_time(now: u64, since: u64, duration: u64)
    ensures
        ({
            let r = crate::animation::running(now, since, duration);
            &&& since <= now ==> (r is Some <==> now - since < duration)
            &&& since <= now && r is Some ==> r->0 == now - since
            &&& now < since ==> (r is Some <==> duration > 0)
            &&& now < since && r is Some ==> r->0 == 0
        }),
{
}

/// A closed window fades out for two tenths of a second.
pub proof fn closed_windows_fade(d: DyingWindow, now: u64)
    ensures
        d.destroy_time <= now ==> d.fading(now) == (now - d.destroy_time < 200_000_000),
        now < d.destroy_time ==> d.fading(now),
{
}

/// Something fades just where some workspace has a window that came less than two
/// tenths of a second ago, or a closed one that still fades out.
pub proof fn something_fades(s: crate::state::StateView, now: u64)
    ensures
        s.animating(now) <==> exists|k: int|
            #![trigger s.workspaces[k]]
            0 <= k < s.workspaces.len() && (exists|w: u64|
                #![trigger s.workspaces[k].spawn_times[w]]
                s.workspaces[k].spawn_times.dom().contains(w) && now
                    - s.workspaces[k].spawn_times[w] < 200_000_000) || 0 <= k < s.workspaces.len()
                && (exists|i: int|
                0 <= i < s.workspaces[k].dying_windows.len() && now
                    - (#[trigger] s.workspaces[k].dying_windows[i]).destroy_time < 200_000_000),
{
    if s.animating(now) {
        let k = choose|k: int|
            0 <= k < s.workspaces.len() && #[trigger] s.workspaces[k].animating(now);
        let ws = s.workspaces[k];
        if ws.dying(now) {
            let i = choose|i: int|
                0 <= i < ws.dying_windows.len() && #[trigger] ws.dying_windows[i].fading(now);
            assert(now - s.workspaces[k].dying_windows[i].destroy_time < 200_000_000);
        } else {
            let w = choose|w: u64|
                #![trigger ws.spawn_times.dom().contains(w)]
                ws.spawn_times.dom().contains(w) && crate::animation::running(
                    now,
                    ws.spawn_times[w],
                    200_000_000,
                ) is Some;
            assert(now - s.workspaces[k].spawn_times[w] < 200_000_000);
        }
    }
    assert forall|k: int, w: u64|
        0 <= k < s.workspaces.len() && s.workspaces[k].spawn_times.dom().contains(w) && now
            - #[trigger] s.workspaces[k].spawn_times[w] < 200_000_000 implies s.animating(now) by {
        assert(s.workspaces[k].spawn_times.dom().contains(w));
        assert(s.workspaces[k].animating(now));
    }
    assert forall|k: int, i: int|
        0 <= k < s.workspaces.len() && 0 <= i < s.workspaces[k].dying_windows.len() && now
            - (#[trigger] s.workspaces[k].dying_windows[i]).destroy_time
            < 200_000_000 implies s.animating(now) by {
        assert(s.workspaces[k].dying_windows[i].fading(now));
        assert(s.workspaces[k].animating(now));
    }
}

/// Of the closed windows those stay, in their order, that still fade out, and nothing
/// else changes.
pub proof fn faded_windows_go(s: crate::state::StateView, now: u64, k: int)
    requires
        0 <= k < s.workspaces.len(),
    ensures
        ({
            let t = s.reaped(now);
            let old = s.workspaces[k].dying_windows;
            let new = t.workspaces[k].dying_windows;
            &&& t == (crate::state::StateView { workspaces: t.workspaces, ..s })
            &&& t.workspaces.len() == s.workspaces.len()
            &&& t.workspaces[k] == (crate::workspace::WorkspaceView {
                dying_windows: new,
                ..s.workspaces[k]
            })
            &&& exists|f: spec_fn(int) -> int| #[trigger]
                picks(f, old, new) && forall|i: int|
                    0 <= i < old.len() && #[trigger] old[i].fading(now) ==> hits(f, new.len() as int, i)
            &&& forall|i: int| 0 <= i < new.len() ==> (#[trigger] new[i]).fading(now)
        }),
{
    let old = s.workspaces[k].dying_windows;
    let keep = |d: DyingWindow| d.fading(now);
    assert(s.reaped(now).workspaces[k].dying_windows == old.filter(keep));
    let f = kept_places(old, keep);
    assert(picks(f, old, old.filter(keep)));
}

/// Whether a place of the other list is taken.
pub open spec fn hits(f: spec_fn(int) -> int, n: int, i: int) -> bool {
    exists|j: int| 0 <= j < n && #[trigger] f(j) == i
}

/// Whether the elements of one list stand at rising places of another.
pub open spec fn picks(
    f: spec_fn(int) -> int,
    old: Seq<DyingWindow>,
    new: Seq<DyingWindow>,
) -> bool {
    &&& forall|i: int| 0 <= i < new.len() ==> 0 <= #[trigger] f(i) < old.len() && new[i] == old[f(i)]
    &&& forall|i: int, j: int| 0 <= i < j < new.len() ==> #[trigger] f(i) < #[trigger] f(j)
}

proof fn kept_places(list: Seq<DyingWindow>, keep: spec_fn(DyingWindow) -> bool) -> (f: spec_fn(
    int,
) -> int)
    ensures
        picks(f, list, list.filter(keep)),
        forall|i: int| 0 <= i < list.filter(keep).len() ==> keep(#[trigger] list.filter(keep)[i]),
        forall|i: int|
            0 <= i < list.len() && keep(#[trigger] list[i]) ==> hits(
                f,
                list.filter(keep).len() as int,
                i,
            ),
    decreases list.len(),
{
    reveal(Seq::filter);
    if list.len() == 0 {
        |i: int| i
    } else {
        let rest = list.drop_last();
        let g = kept_places(rest, keep);
        let n = rest.filter(keep).len() as int;
        let f = |i: int|
            if i < n {
                g(i)
            } else {
                list.len() - 1
            };
        let all = list.filter(keep);
        assert forall|i: int| 0 <= i < list.len() && keep(#[trigger] list[i]) implies hits(
            f,
            all.len() as int,
            i,
        ) by {
            if i < rest.len() {
                assert(rest[i] == list[i]);
                assert(hits(g, n, i));
                let j = choose|j: int| 0 <= j < n && #[trigger] g(j) == i;
                assert(f(j) == i);
            } else {
                assert(f(n) == i);
            }
        }
        f
    }
}

/// After each turn of the event loop the slide and the swipe have moved on, what has
/// faded out is gone, and while anything fades the active workspace is arranged anew.
pub proof fn turns_of_the_loop(s: crate::state::StateView, eased: Double, now: u64)
    requires
        0 <= s.active_workspace < s.workspaces.len() <= usize::MAX,
    ensures
        ({
            let (t, effects) = s.idled(eased, now);
            let slid = crate::state::StateView {
                workspace_transition: s.workspace_transition.advanced(eased),
                needs_redraw: s.needs_redraw || s.workspace_transition.active,
                ..s
            };
            let (settled, before) = slid.swipe_settled(now);
            let fades = t.animating(now);
            &&& t == (crate::state::StateView {
                workspaces: settled.reaped(now).workspaces,
                needs_redraw: settled.needs_redraw || fades,
                ..settled
            })
            &&& fades ==> effects == before.push(Effect::Retile(t.active_workspace as usize))
            &&& !fades ==> effects == before
        }),
{
    let slid = crate::state::StateView {
        workspace_transition: s.workspace_transition.advanced(eased),
        needs_redraw: s.needs_redraw || s.workspace_transition.active,
        ..s
    };
    assert(s.transition_ticked(eased) == slid);
    let a = slid.swipe_settled(now).0.reaped(now);
    let b = a.redrawn();
    assert(a.workspaces == b.workspaces);
    assert(a.animating(now) == b.animating(now));
}

/// A compositor where nothing moves and nothing fades stays as it is.
pub proof fn idle_loop_changes_nothing(s: crate::state::StateView, eased: Double, now: u64)
    requires
        !s.workspace_transition.active,
        !s.gesture_swipe.animating,
        forall|k: int|
            0 <= k < s.workspaces.len() ==> (#[trigger] s.workspaces[k]).dying_windows.len() == 0
                && s.workspaces[k].spawn_times.dom().is_empty(),
    ensures
        s.idled(eased, now) == (s, Seq::<Effect>::empty()),
{
    reveal(Seq::filter);
    let t = s.reaped(now);
    assert forall|k: int| 0 <= k < s.workspaces.len() implies #[trigger] t.workspaces[k]
        == s.workspaces[k] by {
        assert(t.workspaces[k].dying_windows =~= s.workspaces[k].dying_windows);
    }
    assert(t.workspaces =~= s.workspaces);
    assert forall|k: int| 0 <= k < s.workspaces.len() implies !#[trigger] s.workspaces[k].animating(
        now,
    ) by {
        let ws = s.workspaces[k];
        assert(forall|w: u64| !ws.spawn_times.dom().contains(w));
    }
}

/// The active workspace is drawn where it is, or during a slide the two workspaces that
/// it goes between, each beside the other.
pub proof fn slides_show_two_workspaces(s: crate::state::StateView, travelled: i32, remaining: i32)
    requires
        0 <= s.active_workspace < s.workspaces.len() <= usize::MAX,
        travelled > i32::MIN,
        remaining > i32::MIN,
    ensures
        ({
            let passes = s.passes(travelled, remaining);
            let slide = s.workspace_transition;
            let left = slide.direction == TransitionDirection::Left;
            &&& !slide.active ==> passes.len() == 1 && passes[0] == (Pass {
                workspace: s.active_workspace as usize,
                x_offset: 0,
                sliding: false,
            })
            &&& slide.active ==> {
                &&& passes.len() == 2
                &&& passes[0].workspace == slide.from_workspace
                &&& passes[1].workspace == slide.to_workspace
                &&& passes[0].sliding && passes[1].sliding
                &&& left ==> passes[0].x_offset == -travelled && passes[1].x_offset == remaining
                &&& !left ==> passes[0].x_offset == travelled && passes[1].x_offset == -remaining
            }
        }),
{
}

/// What is drawn of a workspace, the foremost first: at rest the borders, what covers
/// the windows that fade in, the windows and those that fade out; during a slide the
/// windows, the borders and those that fade out. Where the windows cannot be drawn, a
/// slide goes on without them, and any other frame is given up.
pub proof fn layers_of_a_pass(pass: Pass, rendered: bool)
    ensures
        pass.sliding && rendered ==> pass.layers(rendered) == Some(
            seq![Layer::Windows, Layer::Borders, Layer::Dying],
        ),
        pass.sliding && !rendered ==> pass.layers(rendered) == Some(seq![Layer::Dying]),
        !pass.sliding && rendered ==> pass.layers(rendered) == Some(
            seq![Layer::Borders, Layer::Overlays, Layer::Windows, Layer::Dying],
        ),
        !pass.sliding && !rendered ==> pass.layers(rendered) is None,
{
}

/// A frame without anything new is shown while a slide goes on or anything fades, and
/// the windows of both workspaces of a slide are told of a frame.
pub proof fn moving_screens_are_shown(s: crate::state::StateView, empty: bool, now: u64)
    requires
        0 <= s.active_workspace < s.workspaces.len() <= usize::MAX,
    ensures
        !empty ==> !s.at_rest(empty, now),
        s.workspace_transition.active ==> !s.at_rest(empty, now),
        s.animating(now) ==> !s.at_rest(empty, now),
        empty && !s.workspace_transition.active && !s.animating(now) ==> s.at_rest(empty, now),
        s.told_of_frame()[0] == s.active_workspace,
        s.told_of_frame().len() == (if s.workspace_transition.active
            && s.workspace_transition.from_workspace != s.active_workspace {
            2int
        } else {
            1int
        }),
        s.told_of_frame().len() == 2 ==> s.told_of_frame()[1]
            == s.workspace_transition.from_workspace,
{
}

/// Where a drag leaves the screen, whatever the numbers are: past the ends where it lags
/// behind, and else between the screen widths on the sides where there is a workspace.
pub proof fn drag_keeps_to_its_side(
    swipe: GestureSwipeState,
    new_offset: Double,
    damped: Double,
    max_ws: usize,
)
    ensures
        ({
            let dx = swipe.dragged(new_offset, damped, max_ws);
            let zero = Double { bits: 0 };
            let width = swipe.screen_width;
            let first = swipe.origin_workspace == 0;
            let last = swipe.origin_workspace >= max_ws;
            let past = first && zero.below(new_offset) || last && new_offset.below(zero);
            &&& past ==> dx == damped
            &&& !past && first ==> dx == new_offset.lesser(zero).greater(width.negated())
            &&& !past && !first && last ==> dx == new_offset.greater(zero).lesser(width)
            &&& !first && !last ==> dx == new_offset.clamped(width.negated(), width)
        }),
{
}

/// A swipe of three or four fingers that goes far or fast enough to the left ends on the
/// next workspace, and one to the right on the previous one, with the keyboard at the last
/// window there; one that does neither, or is cancelled, ends where it began.
pub proof fn swipe_from_start_to_end(
    s: crate::state::StateView,
    fingers: u32,
    width: Double,
    offset: Double,
    damped: Double,
    cancelled: bool,
    fraction: Double,
    velocity: Double,
    start: u64,
    end: u64,
    later: u64,
)
    requires
        0 <= s.active_workspace < s.workspaces.len() <= usize::MAX,
        3 <= fingers <= 4,
        (Double { bits: 0 }).below(width),
        !offset.nan(),
        end <= later,
        later - end >= 250_000_000,
    ensures
        ({
            let lifted = s.swipe_begun(fingers, Some(width), start).swipe_moved(
                offset,
                damped,
            ).swipe_ended(cancelled, fraction, velocity, end);
            let t = lifted.swipe_settled(later).0;
            let commits = !cancelled && ((Double { bits: 0x3FD3_3333_3333_3333 }).at_most(fraction)
                || (Double { bits: 0x3FE9_9999_9999_999A }).at_most(velocity));
            let last = s.workspaces.len() - 1;
            let on = commits && offset.below(Double { bits: 0 }) && s.active_workspace < last;
            let back = commits && (Double { bits: 0 }).below(offset) && s.active_workspace > 0;
            let windows = t.workspaces[t.active_workspace].windows;
            &&& on ==> t.active_workspace == s.active_workspace + 1
            &&& back ==> t.active_workspace == s.active_workspace - 1
            &&& !commits || offset.bits == 0 ==> t.active_workspace == s.active_workspace
            &&& (on || back) && windows.len() > 0 ==> t.focus == Some(windows[windows.len() - 1])
            &&& (on || back) && windows.len() == 0 ==> t.focus is None
            &&& t.workspaces == s.workspaces
            &&& !t.gesture_swipe.tracking && !t.gesture_swipe.animating
            &&& t.gesture_pending_switch is None
        }),
{
}

} // verus!
