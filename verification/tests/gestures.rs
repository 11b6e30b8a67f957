use mywm::bits::Double;
use mywm::config::Config;
use mywm::input::InputEvent;
use mywm::state::{Effect, State};
use mywm::swipe::{
    GestureOutcome, GestureSwipeState, SwipeOffset, SNAP_DURATION, SWITCH_DURATION,
};

fn d(v: f64) -> Double {
    Double { bits: v.to_bits() }
}

fn on_workspace(idx: usize) -> State {
    let mut s = State::new(Config::default(), 0);
    s.active_workspace = idx;
    s
}

fn swiping(idx: usize, offset: f64) -> State {
    let mut s = on_workspace(idx);
    s.swipe_begin(3, Some(d(1000.0)), 0);
    s.swipe_update(d(offset), d(offset / 5.0));
    s
}

#[test]
fn three_or_four_fingers_swipe() {
    for (fingers, tracks) in [(2, false), (3, true), (4, true), (5, false)] {
        let mut s = on_workspace(2);
        s.swipe_begin(fingers, None, 7);
        assert_eq!(s.gesture_swipe.tracking, tracks);
        if tracks {
            assert_eq!(s.gesture_swipe.origin_workspace, 2);
            assert_eq!(s.gesture_swipe.screen_width, d(1920.0));
            assert_eq!(s.gesture_start_time, 7);
        }
    }
}

#[test]
fn screen_follows_the_fingers_within_its_width() {
    assert_eq!(swiping(4, 300.0).gesture_swipe.cumulative_dx, d(300.0));
    assert_eq!(swiping(4, 3000.0).gesture_swipe.cumulative_dx, d(1000.0));
    assert_eq!(swiping(4, -3000.0).gesture_swipe.cumulative_dx, d(-1000.0));
    assert_eq!(swiping(0, -3000.0).gesture_swipe.cumulative_dx, d(-1000.0));
    assert_eq!(swiping(8, 3000.0).gesture_swipe.cumulative_dx, d(1000.0));
}

#[test]
fn screen_resists_past_the_ends() {
    assert_eq!(swiping(0, 100.0).gesture_swipe.cumulative_dx, d(20.0));
    assert_eq!(swiping(8, -100.0).gesture_swipe.cumulative_dx, d(-20.0));
}

#[test]
fn far_swipe_switches_to_the_neighbour() {
    let mut s = swiping(4, 400.0);
    s.swipe_end(false, d(0.4), d(0.1), 100);
    assert_eq!(s.gesture_pending_switch, Some(3));
    assert_eq!(s.gesture_swipe.anim_target_offset, d(1000.0));
    assert_eq!(s.gesture_swipe.anim_duration, SWITCH_DURATION);
    assert!(s.swipe_tick(100 + SWITCH_DURATION - 1).is_empty());
    assert_eq!(s.active_workspace, 4);
    let effects = s.swipe_tick(100 + SWITCH_DURATION);
    assert_eq!(effects[1], Effect::Retile(3));
    assert_eq!(s.active_workspace, 3);
    assert_eq!(s.gesture_pending_switch, None);
    assert!(!s.gesture_swipe.needs_render());

    let mut s = swiping(4, -400.0);
    s.swipe_end(false, d(0.4), d(0.1), 100);
    assert_eq!(s.gesture_pending_switch, Some(5));
    assert_eq!(s.gesture_swipe.anim_target_offset, d(-1000.0));
}

#[test]
fn fast_swipe_switches_at_any_distance() {
    let mut s = swiping(4, 50.0);
    s.swipe_end(false, d(0.05), d(0.8), 0);
    assert_eq!(s.gesture_pending_switch, Some(3));
}

#[test]
fn short_swipe_snaps_back() {
    let mut s = swiping(4, 200.0);
    s.swipe_end(false, d(0.2), d(0.79), 50);
    assert_eq!(s.gesture_pending_switch, None);
    assert_eq!(s.gesture_swipe.anim_target_offset, d(0.0));
    assert_eq!(s.gesture_swipe.anim_duration, SNAP_DURATION);
    assert!(s.swipe_tick(50 + SNAP_DURATION).is_empty());
    assert_eq!(s.active_workspace, 4);
}

#[test]
fn cancelled_swipe_snaps_back() {
    let mut s = swiping(4, 900.0);
    s.swipe_end(true, d(0.9), d(9.0), 50);
    assert_eq!(s.gesture_pending_switch, None);
    assert!(s.gesture_swipe.animating);
    assert_eq!(s.gesture_swipe.anim_start_offset, d(900.0));
}

#[test]
fn swipe_past_the_last_workspace_goes_back() {
    let mut s = swiping(8, -500.0);
    s.swipe_end(false, d(0.5), d(1.0), 0);
    assert_eq!(s.gesture_pending_switch, None);
    assert_eq!(s.gesture_swipe.anim_target_offset, d(0.0));
    let mut s = swiping(0, 500.0);
    s.swipe_end(false, d(0.5), d(1.0), 0);
    assert_eq!(s.gesture_pending_switch, None);
}

#[test]
fn swipe_that_has_not_begun_does_nothing() {
    let mut s = on_workspace(1);
    s.needs_redraw = false;
    s.swipe_update(d(5.0), d(1.0));
    s.swipe_end(false, d(1.0), d(1.0), 0);
    assert!(!s.needs_redraw);
    assert!(s.swipe_tick(0).is_empty());
}

#[test]
fn offset_is_live_then_moving_then_at_rest() {
    let mut g = GestureSwipeState::begin(3, 2, d(500.0), 0);
    g.drag(d(100.0), d(20.0), 8);
    assert_eq!(g.current_offset(9), SwipeOffset::Live(d(100.0)));
    assert_eq!(g.finish(d(0.9), d(0.0), 10), GestureOutcome::SwitchTo(1));
    assert_eq!(
        g.current_offset(40),
        SwipeOffset::Moving {
            start: d(100.0),
            target: d(500.0),
            elapsed: 30,
            duration: SWITCH_DURATION,
        }
    );
    assert!(g.tick(10));
    assert!(!g.tick(10 + SWITCH_DURATION));
    assert_eq!(g.cumulative_dx, d(500.0));
    assert_eq!(g.current_offset(0), SwipeOffset::Rest);
    g.reset();
    assert_eq!(g.cumulative_dx, d(0.0));
}

#[test]
fn neighbour_shows_beside_the_origin() {
    let g = GestureSwipeState::begin(3, 2, d(500.0), 0);
    assert_eq!(g.adjacent_workspace(d(1.0), 8), Some(1));
    assert_eq!(g.adjacent_workspace(d(-1.0), 8), Some(3));
    assert_eq!(g.adjacent_workspace(d(-1.0), 2), None);
    assert_eq!(g.adjacent_workspace(d(0.0), 8), None);
    let g = GestureSwipeState::begin(3, 0, d(500.0), 0);
    assert_eq!(g.adjacent_workspace(d(1.0), 8), None);
}

#[test]
fn swipe_events_go_through_the_dispatcher() {
    let mut s = on_workspace(4);
    s.handle_libinput_event(InputEvent::SwipeBegin { fingers: 4, screen_width: Some(d(800.0)) }, 5);
    s.handle_libinput_event(InputEvent::SwipeUpdate { new_offset: d(-700.0), damped: d(-140.0) }, 6);
    s.handle_libinput_event(
        InputEvent::SwipeEnd { cancelled: false, fraction: d(0.875), velocity: d(1.0) },
        7,
    );
    assert_eq!(s.gesture_pending_switch, Some(5));
}
