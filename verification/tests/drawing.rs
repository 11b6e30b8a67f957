use mywm::animation::{DyingWindow, ANIMATION_DURATION, FADE_OUT_DURATION};
use mywm::bits::{Double, Single};
use mywm::config::Config;
use mywm::drm::{cursor_size, pick_crtc, pick_mode, refresh_rate};
use mywm::frame::{relocation, DrmBackend, DrmEvent, Layer, Pass};
use mywm::geometry::{Point, Rect, Size};
use mywm::render::{
    border_in_range, build_border_and_glow_elements, build_dying_window_elements,
    build_fade_in_overlays, dying_in_range, DyingAlpha, Paint, ShownWindow,
};
use mywm::state::{Effect, State};
use mywm::workspace::Workspace;

fn s(v: f32) -> Single {
    Single { bits: v.to_bits() }
}

fn d(v: f64) -> Double {
    Double { bits: v.to_bits() }
}

fn rect(x: i32, y: i32, w: i32, h: i32) -> Rect {
    Rect { loc: Point { x, y }, size: Size { w, h } }
}

fn shown(window: u64) -> ShownWindow {
    ShownWindow { window, location: Some(Point { x: 100, y: 50 }), size: Size { w: 200, h: 80 } }
}

#[test]
fn flat_border_surrounds_the_window() {
    let quads = build_border_and_glow_elements(&vec![shown(1)], 2, Some(9), 10);
    let rects: Vec<Rect> = quads.iter().map(|q| q.rect).collect();
    assert_eq!(
        rects,
        vec![
            rect(108, 48, 204, 2),
            rect(108, 130, 204, 2),
            rect(108, 50, 2, 80),
            rect(310, 50, 2, 80),
        ]
    );
    assert!(quads.iter().all(|q| q.paint == Paint::InactiveBorder && q.window == 1));
}

#[test]
fn focused_window_glows() {
    let quads = build_border_and_glow_elements(&vec![shown(1)], 2, Some(1), 0);
    assert_eq!(quads.len(), 16);
    assert_eq!(quads[0].paint, Paint::Glow(6));
    assert_eq!(quads[0].rect, rect(92, 42, 216, 8));
    assert_eq!(quads[1].rect, rect(92, 130, 216, 8));
    assert_eq!(quads[2].rect, rect(92, 50, 8, 80));
    assert_eq!(quads[3].rect, rect(300, 50, 8, 80));
    assert_eq!(quads[4].paint, Paint::Glow(4));
    assert_eq!(quads[8].paint, Paint::Glow(2));
    assert_eq!(quads[12].paint, Paint::ActiveBorder);
    assert_eq!(quads[12].rect, rect(98, 48, 204, 2));
}

#[test]
fn bars_cover_the_frame_once() {
    let quads = build_border_and_glow_elements(&vec![shown(1)], 3, None, 0);
    for x in 90..310 {
        for y in 40..140 {
            let count = quads
                .iter()
                .filter(|q| {
                    let r = q.rect;
                    r.loc.x <= x
                        && x < r.loc.x + r.size.w
                        && r.loc.y <= y
                        && y < r.loc.y + r.size.h
                })
                .count();
            let outer = (97..303).contains(&x) && (47..133).contains(&y);
            let inner = (100..300).contains(&x) && (50..130).contains(&y);
            assert_eq!(count, (outer && !inner) as usize);
        }
    }
}

#[test]
fn windows_that_show_nothing_have_no_border() {
    let mut unplaced = shown(1);
    unplaced.location = None;
    let mut empty = shown(2);
    empty.size.h = 0;
    assert!(build_border_and_glow_elements(&vec![unplaced, empty], 2, Some(2), 0).is_empty());
    assert!(build_border_and_glow_elements(&vec![shown(1)], 0, Some(1), 0).is_empty());
    assert!(build_border_and_glow_elements(&vec![shown(1)], -4, Some(1), 0).is_empty());
}

#[test]
fn borders_out_of_range_are_noticed() {
    let mut far = shown(1);
    far.location = Some(Point { x: i32::MAX - 205, y: 0 });
    assert!(border_in_range(&far, 2, None, 0));
    assert!(!border_in_range(&far, 2, Some(1), 0));
    assert!(!border_in_range(&far, 2, None, 10));
}

#[test]
fn windows_that_fade_in_are_covered() {
    let mut ws = Workspace::new();
    ws.spawn(1, 0);
    ws.spawn(2, 0);
    let list = vec![shown(1), shown(2), shown(3)];
    let alphas = vec![s(0.5), s(0.009), s(0.5)];
    let quads = build_fade_in_overlays(&ws, &list, &alphas, 10);
    assert_eq!(quads.len(), 1);
    assert_eq!(quads[0].window, 1);
    assert_eq!(quads[0].paint, Paint::Overlay);
    assert_eq!(quads[0].rect, rect(100, 50, 200, 80));
    assert!(build_fade_in_overlays(&ws, &list, &alphas, ANIMATION_DURATION).is_empty());
}

#[test]
fn windows_that_fade_out_are_drawn_with_a_border() {
    let mut ws = Workspace::new();
    let dying = DyingWindow {
        window: 4,
        destroy_time: 0,
        last_location: Point { x: 10, y: 20 },
        last_size: Size { w: 30, h: 0 },
    };
    ws.dying_windows.push(dying);
    let bright = DyingAlpha { fill: s(0.8), border: s(0.24) };
    let quads = build_dying_window_elements(&ws, &vec![bright], 5, 100);
    let rects: Vec<Rect> = quads.iter().map(|q| q.rect).collect();
    assert_eq!(
        rects,
        vec![
            rect(110, 20, 30, 1),
            rect(108, 18, 34, 2),
            rect(108, 21, 34, 2),
            rect(108, 20, 2, 1),
            rect(140, 20, 2, 1),
        ]
    );
    assert_eq!(quads[0].paint, Paint::Dying);
    assert_eq!(quads[4].paint, Paint::DyingBorder);
    let dim = DyingAlpha { fill: s(0.02), border: s(0.006) };
    assert_eq!(build_dying_window_elements(&ws, &vec![dim], 5, 100).len(), 1);
    let faint = DyingAlpha { fill: s(0.009), border: s(0.1) };
    assert!(build_dying_window_elements(&ws, &vec![faint], 5, 100).is_empty());
    assert!(build_dying_window_elements(&ws, &vec![bright], FADE_OUT_DURATION, 100).is_empty());
    assert!(!dying_in_range(&dying, bright, 5, i32::MAX));
    assert!(dying_in_range(&dying, faint, 5, i32::MAX));
}

#[test]
fn active_workspace_is_drawn_in_place() {
    let state = State::new(Config::default(), 0);
    let passes = state.render_passes(5, 6);
    assert_eq!(passes, vec![Pass { workspace: 0, x_offset: 0, sliding: false }]);
    assert_eq!(
        passes[0].plan(true),
        Some(vec![Layer::Borders, Layer::Overlays, Layer::Windows, Layer::Dying])
    );
    assert_eq!(passes[0].plan(false), None);
    assert_eq!(state.frame_callbacks(), vec![0]);
}

#[test]
fn sliding_workspaces_are_drawn_side_by_side() {
    let mut state = State::new(Config::default(), 0);
    state.switch_workspace(3, 0);
    let passes = state.render_passes(400, 1520);
    assert_eq!(
        passes,
        vec![
            Pass { workspace: 0, x_offset: -400, sliding: true },
            Pass { workspace: 3, x_offset: 1520, sliding: true },
        ]
    );
    assert_eq!(
        passes[0].plan(true),
        Some(vec![Layer::Windows, Layer::Borders, Layer::Dying])
    );
    assert_eq!(passes[0].plan(false), Some(vec![Layer::Dying]));
    assert_eq!(state.frame_callbacks(), vec![3, 0]);
    state.switch_workspace(1, 0);
    let passes = state.render_passes(400, 1520);
    assert_eq!(passes[0].x_offset, 400);
    assert_eq!(passes[1].x_offset, -1520);
    assert_eq!(relocation(0), None);
    assert_eq!(relocation(-4), Some(Point { x: -4, y: 0 }));
}

#[test]
fn transition_ends_when_it_has_come_to_one() {
    let mut state = State::new(Config::default(), 0);
    state.switch_workspace(3, 0);
    state.needs_redraw = false;
    assert!(state.idle(d(0.5), 0).is_empty());
    assert!(state.workspace_transition.active && state.needs_redraw);
    assert_eq!(state.workspace_transition.progress, d(0.5));
    state.idle(d(1.0), 0);
    assert!(!state.workspace_transition.active);
    assert_eq!(state.workspace_transition.progress, d(1.0));
}

#[test]
fn fading_windows_keep_the_workspace_arranged() {
    let mut state = State::new(Config::default(), 0);
    state.new_toplevel(1, 0);
    assert_eq!(state.idle(d(0.0), 10), vec![Effect::Retile(0)]);
    state.needs_redraw = false;
    assert!(state.idle(d(0.0), ANIMATION_DURATION).is_empty());
    assert!(!state.needs_redraw);
}

#[test]
fn pending_frame_waits_for_its_vblank() {
    let mut state = State::new(Config::default(), 0);
    let mut backend = DrmBackend { crtc: 5, pending_frame: false };
    assert!(state.wants_frame(&backend));
    assert!(state.frame_rendered(false, 0));
    state.frame_queued(&mut backend, true);
    assert!(backend.pending_frame && !state.needs_redraw);
    state.needs_redraw = true;
    assert!(!state.wants_frame(&backend));
    assert!(!backend.handle_drm_event(DrmEvent::VBlank(4)));
    assert!(!backend.handle_drm_event(DrmEvent::Error));
    assert!(backend.pending_frame);
    assert!(backend.handle_drm_event(DrmEvent::VBlank(5)));
    assert!(state.wants_frame(&backend));
}

#[test]
fn empty_frame_is_not_queued_at_rest() {
    let mut state = State::new(Config::default(), 0);
    assert!(!state.frame_rendered(true, 0));
    assert!(!state.needs_redraw);
    state.switch_workspace(1, 0);
    assert!(state.frame_rendered(true, 0));
    let mut backend = DrmBackend { crtc: 5, pending_frame: false };
    state.frame_queued(&mut backend, false);
    assert!(state.needs_redraw && !backend.pending_frame);
    backend.pending_frame = true;
    state.session_activated(&mut backend);
    assert!(state.wants_frame(&backend));
}

#[test]
fn preferred_mode_is_picked() {
    assert_eq!(pick_mode(true, &vec![false, true, true]), Some(1));
    assert_eq!(pick_mode(true, &vec![false, false]), Some(0));
    assert_eq!(pick_mode(true, &vec![]), None);
    assert_eq!(pick_mode(false, &vec![true]), None);
}

#[test]
fn first_crtc_is_picked() {
    assert_eq!(pick_crtc(&vec![None, Some(vec![]), Some(vec![8, 9]), Some(vec![3])]), Some(8));
    assert_eq!(pick_crtc(&vec![None, Some(vec![])]), None);
}

#[test]
fn cursor_and_refresh_rate_have_their_units() {
    assert_eq!(cursor_size(256, 128), (256, 128));
    assert_eq!(cursor_size(0, 128), (64, 64));
    assert_eq!(cursor_size(256, 0), (64, 64));
    assert_eq!(refresh_rate(144), 144_000);
}
