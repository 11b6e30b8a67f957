use mywm::animation::{ANIMATION_DURATION, FADE_OUT_DURATION};
use mywm::bits::Single;
use mywm::config::Config;
use mywm::geometry::{Point, Rect, Size};
use mywm::shell::{
    decoration_reply, handle_layer_commit, is_popup, KeyboardInteractivity, LayerKind,
};
use mywm::state::{window_current_size, Effect, State, WindowGeometry};
use mywm::transition::{TransitionDirection, WorkspaceTransition};
use mywm::workspace::{position, LayoutType, Workspace};

fn at(x: i32, y: i32, w: i32, h: i32) -> WindowGeometry {
    WindowGeometry { location: Some(Point { x, y }), size: Size { w, h }, pending: None }
}

fn unknown() -> WindowGeometry {
    WindowGeometry { location: None, size: Size { w: 0, h: 0 }, pending: None }
}

fn with_windows(list: &[u64]) -> State {
    let mut s = State::new(Config::default(), 0);
    for w in list {
        s.new_toplevel(*w, 0);
    }
    s
}

#[test]
fn new_compositor_has_the_named_workspaces() {
    let s = State::new(Config::default(), 5);
    assert_eq!(s.workspaces.len(), 9);
    assert_eq!(s.active_workspace, 0);
    assert_eq!(s.focus, None);
    assert!(s.needs_redraw);
    assert_eq!(s.window_opacity, Single { bits: 1.0f32.to_bits() });
    let mut config = Config::default();
    config.workspace_names.clear();
    assert_eq!(State::new(config, 0).workspaces.len(), 1);
}

#[test]
fn new_window_is_focused_and_last() {
    let mut s = State::new(Config::default(), 0);
    let effects = s.new_toplevel(10, 77);
    assert_eq!(
        effects,
        vec![
            Effect::Retile(0),
            Effect::Configure(10),
            Effect::SetFocus(Some(10)),
            Effect::FlushClients,
            Effect::BroadcastWorkspaces,
        ]
    );
    assert_eq!(s.workspaces[0].windows, vec![10]);
    assert_eq!(s.workspaces[0].spawn_times.get(&10), Some(&77));
    assert_eq!(s.focus, Some(10));
}

#[test]
fn new_window_does_not_take_the_keyboard_from_a_layer_surface() {
    let mut s = State::new(Config::default(), 0);
    s.layers.push(90);
    s.focus = Some(90);
    let effects = s.new_toplevel(10, 0);
    assert!(!effects.contains(&Effect::SetFocus(Some(10))));
    assert_eq!(s.focus, Some(90));
    assert_eq!(s.workspaces[0].windows, vec![10]);
}

#[test]
fn size_of_a_window_is_what_it_shows_or_was_asked_for() {
    let shown = Size { w: 3, h: 4 };
    let asked = Size { w: 5, h: 6 };
    assert_eq!(window_current_size(shown, Some(asked)), Some(shown));
    assert_eq!(window_current_size(Size { w: 0, h: 4 }, Some(asked)), Some(asked));
    assert_eq!(window_current_size(Size { w: 0, h: 4 }, None), None);
}

#[test]
fn focus_goes_round_and_returns() {
    let mut s = with_windows(&[1, 2, 3]);
    assert_eq!(s.focus, Some(3));
    let effects = s.focus_relative(1);
    assert_eq!(
        effects,
        vec![
            Effect::Raise { workspace: 0, window: 1, activate: true },
            Effect::SetFocus(Some(1)),
        ]
    );
    s.focus_relative(-1);
    assert_eq!(s.focus, Some(3));
    s.focus_relative(-1);
    assert_eq!(s.focus, Some(2));
    s.focus_relative(-7);
    assert_eq!(s.focus, Some(1));
    s.focus = Some(99);
    s.focus_relative(1);
    assert_eq!(s.focus, Some(1));
    assert!(State::new(Config::default(), 0).focus_relative(1).is_empty());
}

#[test]
fn focus_in_monocle_arranges_anew() {
    let mut s = with_windows(&[1, 2]);
    s.workspaces[0].layout = LayoutType::Monocle;
    s.needs_redraw = false;
    let effects = s.focus_window(1);
    assert_eq!(effects.last(), Some(&Effect::Retile(0)));
    assert!(s.needs_redraw);
}

#[test]
fn layer_surface_keeps_the_keyboard() {
    let mut s = with_windows(&[1, 2]);
    s.layers.push(90);
    s.focus = Some(90);
    assert!(s.layer_has_keyboard_focus());
    assert!(s.focus_window(1).is_empty());
    assert!(s.focus_relative(1).is_empty());
    assert!(s.toggle_floating(unknown()).is_empty());
    assert!(s.move_to_workspace(1).is_empty());
    assert_eq!(s.focus, Some(90));
}

#[test]
fn closed_window_fades_out() {
    let mut s = with_windows(&[1, 2]);
    s.workspaces[0].stack_ratios = vec![Single { bits: 0 }];
    let effects = s.close_focused(at(10, 20, 300, 200), 1_000);
    assert_eq!(
        effects,
        vec![
            Effect::CloseWindow(2),
            Effect::Unmap { workspace: 0, window: 2 },
            Effect::SetFocus(Some(1)),
            Effect::Retile(0),
        ]
    );
    let ws = &s.workspaces[0];
    assert_eq!(ws.windows, vec![1]);
    assert!(ws.spawn_times.get(&2).is_none());
    assert!(ws.stack_ratios.is_empty());
    assert_eq!(ws.dying_windows[0].last_location, Point { x: 10, y: 20 });
    assert_eq!(ws.dying_windows[0].last_size, Size { w: 300, h: 200 });
    assert!(s.any_animating(1_000 + FADE_OUT_DURATION - 1));
    assert!(s.workspaces[0].has_dying_windows(1_000 + FADE_OUT_DURATION - 1));
    assert!(!s.workspaces[0].has_dying_windows(1_000 + FADE_OUT_DURATION));
    assert!(!s.any_animating(1_000 + FADE_OUT_DURATION));
    s.reap(1_000 + FADE_OUT_DURATION - 1);
    assert_eq!(s.workspaces[0].dying_windows.len(), 1);
    s.reap(1_000 + FADE_OUT_DURATION);
    assert_eq!(s.workspaces[0].dying_windows.len(), 0);
}

#[test]
fn closing_has_defaults_for_what_is_unknown() {
    let mut s = with_windows(&[1]);
    s.close_focused(unknown(), 0);
    let dying = s.workspaces[0].dying_windows[0];
    assert_eq!(dying.last_location, Point { x: 0, y: 0 });
    assert_eq!(dying.last_size, Size { w: 100, h: 100 });
    assert_eq!(s.focus, None);
    assert!(s.close_focused(unknown(), 0).is_empty());
    s.focus = Some(1234);
    assert!(s.close_focused(unknown(), 0).is_empty());
}

#[test]
fn closing_a_layer_surface_gives_the_keyboard_back() {
    let mut s = with_windows(&[1]);
    s.layers.push(90);
    s.focus = Some(90);
    assert_eq!(
        s.close_focused(unknown(), 0),
        vec![Effect::CloseLayer(90), Effect::SetFocus(Some(1))]
    );
    assert_eq!(s.workspaces[0].windows, vec![1]);
}

#[test]
fn animation_runs_for_its_duration() {
    let s = with_windows(&[1]);
    assert!(s.any_animating(ANIMATION_DURATION - 1));
    assert!(!s.any_animating(ANIMATION_DURATION));
    assert_eq!(mywm::animation::animation_progress(50, 20), Some(30));
    assert_eq!(mywm::animation::animation_progress(10, 20), Some(0));
    assert_eq!(mywm::animation::animation_progress(20 + ANIMATION_DURATION, 20), None);
}

#[test]
fn floating_twice_restores_the_workspace() {
    let mut s = with_windows(&[1, 2]);
    let effects = s.toggle_floating(at(7, 8, 90, 60));
    assert_eq!(
        effects,
        vec![
            Effect::Raise { workspace: 0, window: 2, activate: true },
            Effect::Retile(0),
        ]
    );
    assert!(s.workspaces[0].floating.contains(&2));
    let rect = Rect { loc: Point { x: 7, y: 8 }, size: Size { w: 90, h: 60 } };
    assert_eq!(s.workspaces[0].floating_geo.get(&2), Some(&rect));
    assert_eq!(s.workspaces[0].tiled_windows(), vec![1]);
    s.toggle_floating(at(0, 0, 1, 1));
    assert!(s.workspaces[0].floating.is_empty());
    assert!(s.workspaces[0].floating_geo.is_empty());
    assert_eq!(s.workspaces[0].windows, vec![1, 2]);
}

#[test]
fn floating_is_ensured_once() {
    let mut s = with_windows(&[1, 2]);
    assert_eq!(s.ensure_floating(1, unknown()), vec![Effect::Retile(0)]);
    let rect = Rect { loc: Point { x: 100, y: 100 }, size: Size { w: 640, h: 480 } };
    assert_eq!(s.workspaces[0].floating_geo.get(&1), Some(&rect));
    assert!(s.ensure_floating(1, at(0, 0, 5, 5)).is_empty());
    assert_eq!(s.workspaces[0].floating_geo.get(&1), Some(&rect));
}

#[test]
fn windows_change_places() {
    let mut s = with_windows(&[1, 2, 3]);
    assert_eq!(s.swap_windows(0, 2), vec![Effect::Retile(0)]);
    assert_eq!(s.workspaces[0].windows, vec![3, 2, 1]);
    assert!(s.swap_windows(1, 1).is_empty());
    assert!(s.swap_windows(0, 3).is_empty());
    assert_eq!(s.workspaces[0].windows, vec![3, 2, 1]);
}

#[test]
fn switching_there_and_back() {
    let mut s = with_windows(&[1, 2]);
    let effects = s.switch_workspace(4, 900);
    assert_eq!(
        effects,
        vec![Effect::SetFocus(None), Effect::Retile(4), Effect::BroadcastWorkspaces]
    );
    assert_eq!(s.active_workspace, 4);
    assert!(s.workspace_transition.active);
    assert_eq!(s.workspace_transition.direction, TransitionDirection::Left);
    assert_eq!(s.workspace_transition.start_time, 900);
    s.switch_workspace(0, 950);
    assert_eq!(s.workspace_transition.direction, TransitionDirection::Right);
    assert_eq!(s.active_workspace, 0);
    assert_eq!(s.focus, Some(2));
    assert_eq!(s.workspaces[0].windows, vec![1, 2]);
    assert!(s.switch_workspace(0, 0).is_empty());
    assert!(s.switch_workspace(9, 0).is_empty());
}

#[test]
fn moved_window_takes_along_what_is_known_of_it() {
    let mut s = with_windows(&[1, 2]);
    s.toggle_floating(at(1, 2, 3, 4));
    s.workspaces[0].configured_sizes.insert(2, Size { w: 9, h: 9 });
    let effects = s.move_to_workspace(3);
    assert_eq!(
        effects,
        vec![
            Effect::Unmap { workspace: 0, window: 2 },
            Effect::SetFocus(Some(1)),
            Effect::Retile(0),
            Effect::Retile(3),
            Effect::BroadcastWorkspaces,
        ]
    );
    assert_eq!(s.workspaces[0].windows, vec![1]);
    assert!(!s.workspaces[0].floating.contains(&2));
    let there = &s.workspaces[3];
    assert_eq!(there.windows, vec![2]);
    assert!(there.floating.contains(&2));
    assert_eq!(there.spawn_times.get(&2), Some(&0));
    assert_eq!(there.configured_sizes.get(&2), Some(&Size { w: 9, h: 9 }));
    let rect = Rect { loc: Point { x: 1, y: 2 }, size: Size { w: 3, h: 4 } };
    assert_eq!(there.floating_geo.get(&2), Some(&rect));
    assert!(s.move_to_workspace(0).is_empty());
    assert!(s.move_to_workspace(99).is_empty());
    s.focus = None;
    assert!(s.move_to_workspace(3).is_empty());
}

#[test]
fn shares_of_the_stack_follow_the_windows() {
    let mut ws = Workspace::new();
    for w in 1..=4 {
        ws.spawn(w, 0);
    }
    let third = Single { bits: (1.0f32 / 3.0).to_bits() };
    ws.ensure_stack_ratios(third);
    assert_eq!(ws.stack_ratios, vec![third; 3]);
    ws.stack_ratios[1] = Single { bits: 0.01f32.to_bits() };
    ws.ensure_stack_ratios(third);
    assert_eq!(ws.stack_ratios[1], Single { bits: 0.01f32.to_bits() });
    ws.raise_stack_ratios();
    assert_eq!(ws.stack_ratios, vec![third, Single { bits: 0.05f32.to_bits() }, third]);
    ws.forget(2);
    ws.forget(3);
    ws.forget(4);
    ws.ensure_stack_ratios(third);
    assert!(ws.stack_ratios.is_empty());
}

#[test]
fn forgotten_window_leaves_nothing_behind() {
    let mut ws = Workspace::new();
    ws.spawn(5, 0);
    ws.spawn(6, 0);
    assert!(ws.forget(5));
    assert!(!ws.forget(5));
    assert_eq!(ws.windows, vec![6]);
    assert_eq!(position(&ws.windows, 6), Some(0));
    assert_eq!(position(&ws.windows, 5), None);
    assert_eq!(ws.last(), Some(6));
}

#[test]
fn destroyed_window_is_held_no_more() {
    let mut s = with_windows(&[1, 2]);
    s.switch_workspace(1, 0);
    s.new_toplevel(3, 0);
    let effects = s.toplevel_destroyed(1);
    assert_eq!(effects[0], Effect::Unmap { workspace: 0, window: 1 });
    assert_eq!(effects[1], Effect::SetFocus(Some(3)));
    assert_eq!(effects.len(), 2 + 9 + 2);
    assert_eq!(effects[2], Effect::Retile(0));
    assert_eq!(effects[10], Effect::Retile(8));
    assert_eq!(s.workspaces[0].windows, vec![2]);
    assert_eq!(s.workspaces[1].windows, vec![3]);
    assert_eq!(s.toplevel_destroyed(77)[0], Effect::SetFocus(Some(3)));
}

#[test]
fn layer_surfaces_come_and_go() {
    let mut s = with_windows(&[1]);
    assert!(s.new_layer_surface(60, false, true).is_empty());
    assert_eq!(s.new_layer_surface(60, true, true).len(), 9);
    assert_eq!(s.layers, vec![60]);
    s.new_layer_surface(61, true, false);
    assert_eq!(s.layers, vec![60]);
    s.focus = Some(60);
    let effects = s.layer_destroyed(60);
    assert_eq!(effects[0], Effect::SetFocus(Some(1)));
    assert_eq!(effects.len(), 10);
    assert!(s.layers.is_empty());
    assert_eq!(s.layer_destroyed(61).len(), 9);
}

#[test]
fn commits_configure_and_retile() {
    let mut s = with_windows(&[1]);
    assert_eq!(
        s.commit(1, false, Some(1), &vec![true], false),
        vec![Effect::CommitWindow(1), Effect::Configure(1)]
    );
    assert!(s.commit(1, true, Some(1), &vec![true], true).is_empty());
    assert!(s.commit(5, false, None, &vec![false, false], false).is_empty());
    let zone = |h: i32| Rect { loc: Point { x: 0, y: 0 }, size: Size { w: 100, h } };
    assert_eq!(s.layer_committed(true, zone(100), zone(100), None), vec![Effect::FlushClients]);
    assert_eq!(s.layer_committed(true, zone(100), zone(70), None).len(), 10);
    assert_eq!(
        s.layer_committed(true, zone(70), zone(70), Some(60)),
        vec![Effect::SetFocus(Some(60)), Effect::FlushClients]
    );
    assert_eq!(s.focus, Some(60));
}

#[test]
fn layer_surface_asks_for_the_keyboard_once_it_has_content() {
    let never = KeyboardInteractivity::Never;
    let demand = KeyboardInteractivity::OnDemand;
    let exclusive = KeyboardInteractivity::Exclusive;
    assert_eq!(handle_layer_commit(5, false, true, exclusive, true), (false, None));
    assert_eq!(handle_layer_commit(5, true, false, exclusive, true), (true, None));
    assert_eq!(handle_layer_commit(5, true, true, exclusive, false), (true, Some(5)));
    assert_eq!(handle_layer_commit(5, true, true, demand, false), (true, Some(5)));
    assert_eq!(handle_layer_commit(5, true, true, never, false), (true, None));
    assert_eq!(handle_layer_commit(5, true, true, never, true), (true, Some(5)));
}

#[test]
fn decorations_are_drawn_by_the_compositor() {
    assert_eq!(decoration_reply(4, false), vec![Effect::DecorateOnServer(4)]);
    assert_eq!(
        decoration_reply(4, true),
        vec![Effect::DecorateOnServer(4), Effect::Configure(4)]
    );
}

#[test]
fn focus_moves_there_and_back() {
    for delta in [-7isize, -1, 0, 2, 4] {
        let mut s = State::new(Config::default(), 0);
        for w in [10, 20, 30] {
            s.new_toplevel(w, 0);
        }
        s.focus_window(20);
        s.focus_relative(delta);
        let there = [10, 20, 30][(1 + delta).rem_euclid(3) as usize];
        assert_eq!(s.focus, Some(there));
        s.focus_relative(-delta);
        assert_eq!(s.focus, Some(20));
    }
}

#[test]
fn slide_offsets_lie_a_screen_apart() {
    let mut t = WorkspaceTransition::at_rest(0);
    t.begin(0, 1, 5);
    assert_eq!((t.from_offset(480), t.to_offset(1440)), (-480, 1440));
    t.begin(1, 0, 9);
    assert_eq!((t.from_offset(480), t.to_offset(1439)), (480, -1439));
    assert_eq!((t.from_offset(0), t.to_offset(1920)), (0, -1920));
    assert_eq!((t.from_offset(1920), t.to_offset(0)), (1920, 0));
}

#[test]
fn popups_are_told_from_bars() {
    assert!(is_popup(LayerKind::Overlay, KeyboardInteractivity::Never));
    assert!(is_popup(LayerKind::Top, KeyboardInteractivity::Exclusive));
    assert!(!is_popup(LayerKind::Top, KeyboardInteractivity::OnDemand));
    assert!(!is_popup(LayerKind::Bottom, KeyboardInteractivity::Never));
    assert!(!is_popup(LayerKind::Background, KeyboardInteractivity::Never));
}
