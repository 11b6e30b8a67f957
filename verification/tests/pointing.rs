use mywm::bits::{Double, Single};
use mywm::config::Config;
use mywm::geometry::{Point, Position, Rect, Size};
use mywm::grab::GrabMode;
use mywm::input::{Forward, InputEvent};
use mywm::pointer::{
    clamp_pointer, surface_under_pointer, usable_screen_dimensions, Candidate, Cell,
    ClickedSurface, Press, PressOutcome, BTN_LEFT, BTN_RIGHT,
};
use mywm::state::{Effect, State, WindowGeometry};

fn d(v: f64) -> Double {
    Double { bits: v.to_bits() }
}

fn s(v: f32) -> Single {
    Single { bits: v.to_bits() }
}

fn here(x: f64, y: f64) -> Position {
    Position { x: d(x), y: d(y) }
}

fn geometry(x: i32, y: i32, w: i32, h: i32) -> WindowGeometry {
    WindowGeometry { location: Some(Point { x, y }), size: Size { w, h }, pending: None }
}

fn press(button: u32, super_held: bool, hit: Option<u64>) -> Press {
    Press {
        button,
        super_held,
        at: here(50.0, 60.0),
        hit,
        geometry: geometry(10, 20, 300, 200),
        under: None,
        focused_popup: false,
    }
}

fn with_windows(list: &[u64]) -> State {
    let mut state = State::new(Config::default(), 0);
    for w in list {
        state.new_toplevel(*w, 0);
    }
    state
}

fn size() -> Size {
    Size { w: 640, h: 480 }
}

#[test]
fn pointer_stays_on_the_screen() {
    assert_eq!(clamp_pointer(here(-3.0, 900.5), Some(here(800.0, 600.0))), here(0.0, 600.0));
    assert_eq!(clamp_pointer(here(5.5, 6.5), Some(here(800.0, 600.0))), here(5.5, 6.5));
    assert_eq!(clamp_pointer(here(-3.0, 9.0), None), here(-3.0, 9.0));
}

#[test]
fn floating_window_is_dragged() {
    let mut state = with_windows(&[1, 2]);
    state.ensure_floating(2, geometry(100, 100, 200, 150));
    let (effects, outcome) = state.press(press(BTN_LEFT, true, Some(2)));
    assert_eq!(outcome, PressOutcome::Grabbed);
    assert_eq!(
        effects,
        vec![
            Effect::Raise { workspace: 0, window: 2, activate: true },
            Effect::SetFocus(Some(2)),
        ]
    );
    assert!(state.motion_in_range(15, -5));
    let effects = state.pointer_motion(15, -5, s(0.0), vec![]);
    assert_eq!(
        effects,
        vec![
            Effect::Place { workspace: 0, window: 2, location: Point { x: 117, y: 97 } },
            Effect::Raise { workspace: 0, window: 2, activate: false },
        ]
    );
    let rect = Rect { loc: Point { x: 115, y: 95 }, size: Size { w: 200, h: 150 } };
    assert_eq!(state.workspaces[0].floating_geo.get(&2), Some(&rect));
    assert!(state.release_grab(None).is_empty());
    assert!(state.pointer_grab.is_none());
}

#[test]
fn floating_window_is_resized() {
    let mut state = with_windows(&[1, 2]);
    state.ensure_floating(2, geometry(100, 100, 200, 150));
    state.press(press(BTN_RIGHT, true, Some(2)));
    let effects = state.pointer_motion(20, -200, s(0.0), vec![]);
    let inner = Size { w: 216, h: 60 };
    assert_eq!(
        effects,
        vec![
            Effect::SetSize { window: 2, size: inner },
            Effect::Configure(2),
            Effect::Raise { workspace: 0, window: 2, activate: false },
        ]
    );
    assert_eq!(state.workspaces[0].floating_geo[&2].size, Size { w: 220, h: 64 });
    let effects = state.pointer_motion(20, -300, s(0.0), vec![]);
    assert_eq!(effects.len(), 2);
    assert_eq!(state.release_grab(None), vec![Effect::Retile(0)]);
}

#[test]
fn unknown_floating_window_starts_from_defaults() {
    let mut state = with_windows(&[1]);
    state.workspaces[0].floating.insert(1);
    let mut p = press(BTN_LEFT, true, Some(1));
    p.geometry = WindowGeometry {
        location: None,
        size: Size { w: 0, h: 0 },
        pending: Some(Size { w: 5, h: 5 }),
    };
    state.press(p);
    let grab = state.pointer_grab.unwrap();
    assert_eq!(grab.mode, GrabMode::FloatingMove);
    assert_eq!(grab.start_geo, Rect { loc: Point { x: 100, y: 100 }, size: size() });
    assert_eq!(grab.start_split_ratio, s(0.5));
}

#[test]
fn far_motion_is_out_of_range() {
    let mut state = with_windows(&[1]);
    state.ensure_floating(1, geometry(i32::MAX - 10, 0, 200, 150));
    state.press(press(BTN_LEFT, true, Some(1)));
    assert!(!state.motion_in_range(9, 0));
    assert!(!state.motion_in_range(11, 0));
    assert!(state.motion_in_range(8, 0));
}

#[test]
fn tiled_window_is_swapped_where_it_is_dropped() {
    let mut state = with_windows(&[1, 2, 3]);
    let (_, outcome) = state.press(press(BTN_LEFT, true, Some(1)));
    assert_eq!(outcome, PressOutcome::TiledGrab(GrabMode::TiledMove));
    assert!(state.pointer_grab.is_none());
    state.start_tiled_grab(
        GrabMode::TiledMove,
        1,
        here(0.0, 0.0),
        geometry(0, 0, 10, 10),
        size(),
    );
    assert!(state.pointer_motion(5, 5, s(0.0), vec![]).is_empty());
    assert_eq!(state.release_grab(Some(3)), vec![Effect::Retile(0)]);
    assert_eq!(state.workspaces[0].windows, vec![3, 2, 1]);
}

#[test]
fn tiled_window_is_not_swapped_with_itself_or_a_floating_one() {
    for target in [Some(1), Some(2), Some(9), None] {
        let mut state = with_windows(&[1, 2]);
        state.workspaces[0].floating.insert(2);
        state.start_tiled_grab(
            GrabMode::TiledMove,
            1,
            here(0.0, 0.0),
            geometry(0, 0, 10, 10),
            size(),
        );
        assert!(state.release_grab(target).is_empty());
        assert_eq!(state.workspaces[0].windows, vec![1, 2]);
        assert!(state.pointer_grab.is_none());
    }
}

#[test]
fn tiled_window_is_resized() {
    let mut state = with_windows(&[1, 2, 3]);
    state.workspaces[0].stack_ratios = vec![s(0.5), s(0.5)];
    state.start_tiled_grab(
        GrabMode::TiledResize,
        2,
        here(0.0, 0.0),
        geometry(0, 0, 10, 10),
        Size { w: 1000, h: 500 },
    );
    let grab = state.pointer_grab.clone().unwrap();
    assert_eq!((grab.tiled_index, grab.tiled_count), (1, 3));
    assert!(grab.resizes_split());
    assert_eq!(grab.resizes_stack(), Some((0, 1)));
    let ratios = grab.resized_ratios((0, 1), s(0.5), s(0.99), s(0.01));
    assert_eq!(ratios, vec![s(0.95), s(0.05)]);
    let effects = state.pointer_motion(100, 0, s(0.95), ratios.clone());
    assert_eq!(effects, vec![Effect::Retile(0)]);
    assert_eq!(state.workspaces[0].split_ratio, s(0.9));
    assert_eq!(state.workspaces[0].stack_ratios, ratios);
    assert_eq!(state.release_grab(None), vec![Effect::Retile(0)]);
}

#[test]
fn last_window_of_the_stack_trades_with_the_one_above() {
    let mut state = with_windows(&[1, 2, 3]);
    state.start_tiled_grab(
        GrabMode::TiledResize,
        3,
        here(0.0, 0.0),
        geometry(0, 0, 10, 10),
        size(),
    );
    let grab = state.pointer_grab.clone().unwrap();
    assert_eq!(grab.resizes_stack(), Some((1, 0)));
    assert_eq!(grab.resized_ratios((1, 0), s(0.5), s(0.6), s(0.4)), vec![s(0.4), s(0.6)]);
    state.start_tiled_grab(
        GrabMode::TiledResize,
        1,
        here(0.0, 0.0),
        geometry(0, 0, 10, 10),
        size(),
    );
    assert_eq!(state.pointer_grab.clone().unwrap().resizes_stack(), None);
}

#[test]
fn click_focuses_the_window() {
    let mut state = with_windows(&[1, 2]);
    let (effects, outcome) = state.press(press(BTN_LEFT, false, Some(1)));
    assert_eq!(outcome, PressOutcome::Clicked);
    assert_eq!(effects[1], Effect::SetFocus(Some(1)));
    let (_, outcome) = state.press(press(0x112, true, Some(2)));
    assert_eq!(outcome, PressOutcome::Clicked);
    assert_eq!(state.focus, Some(2));
}

#[test]
fn click_outside_a_popup_closes_it() {
    let mut state = with_windows(&[1, 2]);
    state.layers.push(90);
    state.focus = Some(90);
    let mut p = press(BTN_LEFT, false, Some(1));
    p.focused_popup = true;
    p.under = Some(ClickedSurface { root: 1, interactive: false });
    let (effects, _) = state.press(p);
    assert_eq!(
        effects,
        vec![
            Effect::CloseLayer(90),
            Effect::SetFocus(Some(2)),
            Effect::Raise { workspace: 0, window: 1, activate: true },
            Effect::SetFocus(Some(1)),
        ]
    );
    assert_eq!(state.focus, Some(1));
}

#[test]
fn click_on_a_layer_surface_keeps_its_focus() {
    let mut state = with_windows(&[1]);
    state.layers.push(90);
    state.focus = Some(90);
    let mut p = press(BTN_LEFT, false, Some(1));
    p.under = Some(ClickedSurface { root: 90, interactive: true });
    assert!(state.press(p).0.is_empty());
    p.under = None;
    assert!(state.press(p).0.is_empty());
    assert_eq!(state.focus, Some(90));
}

#[test]
fn click_gives_the_keyboard_to_an_interactive_layer_surface() {
    let mut state = with_windows(&[1]);
    state.layers.push(90);
    let mut p = press(BTN_LEFT, false, None);
    p.under = Some(ClickedSurface { root: 90, interactive: true });
    assert_eq!(state.press(p).0, vec![Effect::SetFocus(Some(90))]);
    state.focus = Some(1);
    p.under = Some(ClickedSurface { root: 90, interactive: false });
    assert!(state.press(p).0.is_empty());
    p.under = None;
    assert!(state.press(p).0.is_empty());
}

#[test]
fn border_belongs_to_the_window() {
    let state = with_windows(&[1, 2]);
    let frames = vec![None, Some(geometry(100, 100, 50, 40))];
    let cell = |x: i64, y: i64| Cell { floor_x: x, ceil_x: x, floor_y: y, ceil_y: y };
    assert_eq!(state.hit_test_window(Some(1), &frames, cell(98, 98)), Some(1));
    assert_eq!(state.hit_test_window(None, &frames, cell(98, 98)), Some(2));
    assert_eq!(state.hit_test_window(None, &frames, cell(152, 142)), Some(2));
    assert_eq!(state.hit_test_window(None, &frames, cell(97, 120)), None);
    assert_eq!(state.hit_test_window(None, &frames, cell(153, 120)), None);
}

#[test]
fn windows_get_what_bars_and_gaps_leave() {
    let output = Size { w: 1920, h: 1080 };
    let zone = Size { w: 1920, h: 1050 };
    assert_eq!(usable_screen_dimensions(output, zone, 15), Size { w: 1890, h: 1020 });
    assert_eq!(usable_screen_dimensions(output, zone, 2000), Size { w: 1, h: 1 });
}

#[test]
fn upper_layers_come_before_windows() {
    let c = |surface: u64| {
        Some(Candidate { surface, offset: Point { x: 1, y: 2 }, base: Point { x: 10, y: 20 } })
    };
    let origin = Point { x: 11, y: 22 };
    assert_eq!(surface_under_pointer(c(1), c(2), c(3)), Some((1, origin)));
    assert_eq!(surface_under_pointer(None, c(2), c(3)), Some((2, origin)));
    assert_eq!(surface_under_pointer(None, None, c(3)), Some((3, origin)));
    assert_eq!(surface_under_pointer(None, None, None), None);
}

#[test]
fn events_reach_the_clients() {
    let mut state = with_windows(&[1, 2]);
    let reply = state.handle_libinput_event(
        InputEvent::PointerMotion { dx: 1, dy: 1, split: s(0.0), ratios: vec![] },
        0,
    );
    assert_eq!(reply.forward, Forward::Motion);
    let reply = state.handle_libinput_event(InputEvent::ButtonReleased { drop_target: None }, 0);
    assert_eq!(reply.forward, Forward::Button);
    let reply = state.handle_libinput_event(
        InputEvent::ButtonPressed { press: press(BTN_RIGHT, true, Some(1)) },
        0,
    );
    assert_eq!(reply.forward, Forward::Frame);
    assert_eq!(reply.tiled_grab, Some((GrabMode::TiledResize, 1)));
    let reply = state.handle_libinput_event(
        InputEvent::ButtonPressed { press: press(BTN_LEFT, false, Some(1)) },
        0,
    );
    assert_eq!(reply.forward, Forward::Button);
    let reply = state.handle_libinput_event(InputEvent::DeviceAdded { tap_fingers: 3 }, 0);
    assert!(reply.enable_tap);
    let reply = state.handle_libinput_event(InputEvent::DeviceAdded { tap_fingers: 0 }, 0);
    assert!(!reply.enable_tap);
    let reply = state.handle_libinput_event(InputEvent::Other, 0);
    assert_eq!(reply.forward, Forward::Nothing);
    assert!(reply.effects.is_empty());
}

#[test]
fn motion_does_not_focus() {
    let mut state = with_windows(&[1, 2]);
    assert_eq!(state.focus, Some(2));
    assert!(state.pointer_motion(40, 40, s(0.5), vec![]).is_empty());
    assert_eq!(state.focus, Some(2));
    state.start_tiled_grab(
        GrabMode::TiledResize,
        1,
        here(0.0, 0.0),
        geometry(0, 0, 10, 10),
        size(),
    );
    assert_eq!(state.pointer_motion(-9000, 0, s(-8.5), vec![]), vec![Effect::Retile(0)]);
    assert_eq!(state.focus, Some(2));
    assert_eq!(state.workspaces[0].split_ratio, s(0.1));
    state.release_grab(None);
    assert!(state.pointer_grab.is_none());
    assert_eq!(state.focus, Some(2));
}

#[test]
fn windows_that_are_swapped_twice_stand_where_they_stood() {
    let mut state = with_windows(&[1, 2, 3]);
    state.swap_windows(0, 2);
    assert_eq!(state.workspaces[0].windows, vec![3, 2, 1]);
    state.swap_windows(0, 2);
    assert_eq!(state.workspaces[0].windows, vec![1, 2, 3]);
}
