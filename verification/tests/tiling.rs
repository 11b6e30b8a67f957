use mywm::config::Config;
use mywm::geometry::{Point, Rect, Size};
use mywm::layout::{place_tile, Gaps, Tile};
use mywm::state::{Effect, State};
use mywm::workspace::Workspace;

const GAPS: Gaps = Gaps { outer: 15, inner: 10 };

fn rect(x: i32, y: i32, w: i32, h: i32) -> Rect {
    Rect { loc: Point { x, y }, size: Size { w, h } }
}

fn workspace(n: u64) -> Workspace {
    let mut ws = Workspace::new();
    for w in 1..=n {
        ws.spawn(w, 0);
    }
    ws
}

fn tile(window: u64, x: i32, y: i32, w: i32, h: i32) -> Tile {
    Tile { window, location: Point { x, y }, size: Size { w, h } }
}

#[test]
fn lone_window_fills_the_area() {
    let output = Some(rect(0, 0, 1920, 1080));
    let zone = rect(0, 30, 1920, 1050);
    let ws = workspace(1);
    assert_eq!(
        State::recalculate_layout_for(&ws, output, zone, GAPS),
        vec![tile(1, 15, 45, 1890, 1020)]
    );
}

#[test]
fn master_and_stack_share_the_screen() {
    let output = Some(rect(0, 0, 1920, 1080));
    let zone = rect(0, 0, 1920, 1080);
    let ws = workspace(2);
    assert_eq!(
        State::recalculate_layout_for(&ws, output, zone, GAPS),
        vec![tile(1, 15, 15, 940, 1050), tile(2, 965, 15, 940, 1050)]
    );
}

#[test]
fn last_window_takes_what_is_left_over() {
    let output = Some(rect(0, 0, 1921, 1080));
    let zone = rect(0, 0, 1921, 1080);
    let ws = workspace(5);
    let tiles = State::recalculate_layout_for(&ws, output, zone, GAPS);
    assert_eq!(tiles[0], tile(1, 15, 15, 940, 1050));
    assert_eq!(tiles[1], tile(2, 965, 15, 941, 255));
    assert_eq!(tiles[2], tile(3, 965, 280, 941, 255));
    assert_eq!(tiles[3], tile(4, 965, 545, 941, 255));
    assert_eq!(tiles[4], tile(5, 965, 810, 941, 255));
    let tiles = State::recalculate_layout_for(&workspace(4), output, zone, GAPS);
    assert_eq!(tiles[1].size.h, 343);
    assert_eq!(tiles[3].size.h, 344);
    assert_eq!(tiles[3].location.y + tiles[3].size.h, 15 + 1050);
}

#[test]
fn nothing_is_arranged_without_an_area() {
    let ws = workspace(3);
    let zone = rect(0, 0, 30, 1080);
    assert!(State::recalculate_layout_for(&ws, None, rect(0, 0, 100, 100), GAPS).is_empty());
    assert!(
        State::recalculate_layout_for(&ws, Some(rect(0, 0, 30, 1080)), zone, GAPS).is_empty()
    );
    let output = Some(rect(0, 0, 100, 100));
    assert!(
        State::recalculate_layout_for(&workspace(0), output, rect(0, 0, 100, 100), GAPS)
            .is_empty()
    );
}

#[test]
fn tiles_do_not_overlap_and_stay_inside() {
    for n in 1..8u64 {
        for inner in [0, 1, 7, 10] {
            let output = Some(rect(5, 7, 640, 480));
            let zone = rect(0, 0, 640, 480);
            let gaps = Gaps { outer: 3, inner };
            let tiles = State::recalculate_layout_for(&workspace(n), output, zone, gaps);
            assert_eq!(tiles.len(), n as usize);
            for (i, a) in tiles.iter().enumerate() {
                assert!(a.location.x >= 8 && a.location.x + a.size.w <= 8 + 634);
                assert!(a.location.y >= 10 && a.location.y + a.size.h <= 10 + 474);
                for b in &tiles[i + 1..] {
                    assert!(
                        a.location.x + a.size.w <= b.location.x
                            || a.location.y + a.size.h <= b.location.y
                    );
                }
            }
        }
    }
}

#[test]
fn crowded_tiles_have_one_pixel_at_least() {
    let output = Some(rect(0, 0, 20, 20));
    let zone = rect(0, 0, 20, 20);
    let gaps = Gaps { outer: 0, inner: 30 };
    let tiles = State::recalculate_layout_for(&workspace(4), output, zone, gaps);
    assert_eq!(tiles[0], tile(1, 0, 0, 1, 20));
    assert_eq!(tiles[1], tile(2, 31, 0, 1, 1));
    assert_eq!(tiles[2], tile(3, 31, 30, 1, 1));
    assert_eq!(tiles[3], tile(4, 31, 60, 1, 1));
}

#[test]
fn negative_gaps_are_halved_towards_zero() {
    let output = Some(rect(0, 0, 100, 100));
    let zone = rect(0, 0, 100, 100);
    let gaps = Gaps { outer: 0, inner: -5 };
    let tiles = State::recalculate_layout_for(&workspace(2), output, zone, gaps);
    assert_eq!(tiles[0], tile(1, 0, 0, 52, 100));
    assert_eq!(tiles[1], tile(2, 47, 0, 53, 100));
}

#[test]
fn too_large_coordinates_are_noticed() {
    let output = Some(rect(i32::MAX, 0, 100, 100));
    let zone = rect(0, 0, 100, 100);
    assert!(!State::layout_fits(&workspace(1), output, zone, GAPS));
    assert!(State::layout_fits(&workspace(1), Some(rect(0, 0, 9, 9)), zone, GAPS));
    assert!(State::layout_fits(&workspace(9), None, zone, GAPS));
}

#[test]
fn active_workspace_is_arranged_with_the_configured_gaps() {
    let mut state = State::new(Config::default(), 0);
    state.new_toplevel(1, 0);
    let output = Some(rect(0, 0, 100, 100));
    let tiles = state.recalculate_layout(output, rect(0, 0, 100, 100), state.gaps());
    assert_eq!(tiles, vec![tile(1, 15, 15, 70, 70)]);
    assert_eq!(
        place_tile(2, tiles[0]),
        vec![
            Effect::SetSize { window: 1, size: Size { w: 70, h: 70 } },
            Effect::Configure(1),
            Effect::Place { workspace: 2, window: 1, location: Point { x: 15, y: 15 } },
        ]
    );
}
