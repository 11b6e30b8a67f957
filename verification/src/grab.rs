//! A window held by the pointer.
use crate::bits::Single;
use crate::geometry::{Position, Rect};
use vstd::prelude::*;

verus! {

#[derive(Clone, Copy, Debug, PartialEq, Eq, Structural)]
pub enum GrabMode {
    FloatingMove,
    FloatingResize,
    TiledMove,
    TiledResize,
}

/// A window that the pointer moves or resizes, and how things stood when it
/// was taken hold of.
#[derive(Clone, Debug)]
pub struct GrabState {
    pub mode: GrabMode,
    pub window: u64,
    pub start_pointer: Position,
    pub start_geo: Rect,
    pub start_split_ratio: Single,
    pub start_stack_ratios: Vec<Single>,
    pub screen_width: i32,
    pub screen_height: i32,
    pub tiled_index: usize,
    pub tiled_count: usize,
}

#[verifier::ext_equal]
pub ghost struct GrabView {
    pub mode: GrabMode,
    pub window: u64,
    pub start_pointer: Position,
    pub start_geo: Rect,
    pub start_split_ratio: Single,
    pub start_stack_ratios: Seq<Single>,
    pub screen_width: i32,
    pub screen_height: i32,
    pub tiled_index: int,
    pub tiled_count: int,
}

impl View for GrabState {
    type V = GrabView;

    open spec fn view(&self) -> GrabView {
        GrabView {
            mode: self.mode,
            window: self.window,
            start_pointer: self.start_pointer,
            start_geo: self.start_geo,
            start_split_ratio: self.start_split_ratio,
            start_stack_ratios: self.start_stack_ratios@,
            screen_width: self.screen_width,
            screen_height: self.screen_height,
            tiled_index: self.tiled_index as int,
            tiled_count: self.tiled_count as int,
        }
    }
}

/// What a grab holds, if there is one.
pub open spec fn grab_view(grab: Option<GrabState>) -> Option<GrabView> {
    match grab {
        Some(g) => Some(g@),
        None => None,
    }
}

} // verus!
