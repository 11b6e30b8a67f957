//! A workspace: its windows and what is known of each.
use crate::animation::{animation_progress, DyingWindow};
use crate::bits::Single;
use crate::geometry::{Rect, Size};
use std::collections::HashMap;
use std::collections::HashSet;
use vstd::prelude::*;

verus! {

broadcast use vstd::std_specs::hash::group_hash_axioms;

/// How the windows of a workspace are arranged.
#[derive(Clone, Copy, Debug, PartialEq, Eq, Structural)]
pub enum LayoutType {
    MasterStack,
    Monocle,
}

/// A workspace. A window goes by the number of its toplevel surface.
///
/// `windows` is in tiling order: the first is the master. `stack_ratios` holds
/// the share of the stack's height of each window but the master; it is empty
/// where the shares are to be equal.
#[derive(Debug)]
pub struct Workspace {
    pub windows: Vec<u64>,
    pub spawn_times: HashMap<u64, u64>,
    pub configured_sizes: HashMap<u64, Size>,
    pub layout: LayoutType,
    pub floating: HashSet<u64>,
    pub floating_geo: HashMap<u64, Rect>,
    pub split_ratio: Single,
    pub stack_ratios: Vec<Single>,
    pub dying_windows: Vec<DyingWindow>,
}

#[verifier::ext_equal]
pub ghost struct WorkspaceView {
    pub windows: Seq<u64>,
    pub spawn_times: Map<u64, u64>,
    pub configured_sizes: Map<u64, Size>,
    pub layout: LayoutType,
    pub floating: Set<u64>,
    pub floating_geo: Map<u64, Rect>,
    pub split_ratio: Single,
    pub stack_ratios: Seq<Single>,
    pub dying_windows: Seq<DyingWindow>,
}

impl View for Workspace {
    type V = WorkspaceView;

    open spec fn view(&self) -> WorkspaceView {
        WorkspaceView {
            windows: self.windows@,
            spawn_times: self.spawn_times@,
            configured_sizes: self.configured_sizes@,
            layout: self.layout,
            floating: self.floating@,
            floating_geo: self.floating_geo@,
            split_ratio: self.split_ratio,
            stack_ratios: self.stack_ratios@,
            dying_windows: self.dying_windows@,
        }
    }
}

/// The pattern of 0.5, the initial split ratio.
pub const HALF32: u32 = 0x3F00_0000;

/// The pattern of 0.05, the least share of a window in the stack.
pub const MIN_RATIO: u32 = 0x3D4C_CCCD;

/// The first place of a value in a list.
pub open spec fn place_of(list: Seq<u64>, value: u64) -> Option<int>
    decreases list.len(),
{
    if list.len() == 0 {
        None
    } else if list[0] == value {
        Some(0)
    } else {
        match place_of(list.drop_first(), value) {
            Some(i) => Some(i + 1),
            None => None,
        }
    }
}

/// A list without one value.
pub open spec fn dropping(list: Seq<u64>, value: u64) -> Seq<u64> {
    list.filter(|w: u64| w != value)
}

impl WorkspaceView {
    /// A workspace without windows.
    pub open spec fn fresh() -> WorkspaceView {
        WorkspaceView {
            windows: Seq::empty(),
            spawn_times: Map::empty(),
            configured_sizes: Map::empty(),
            layout: LayoutType::MasterStack,
            floating: Set::empty(),
            floating_geo: Map::empty(),
            split_ratio: Single { bits: HALF32 },
            stack_ratios: Seq::empty(),
            dying_windows: Seq::empty(),
        }
    }

    /// Nothing is known any more of a window, but for its place in the list.
    pub open spec fn without_tables(self, window: u64) -> WorkspaceView {
        WorkspaceView {
            spawn_times: self.spawn_times.remove(window),
            configured_sizes: self.configured_sizes.remove(window),
            floating: self.floating.remove(window),
            floating_geo: self.floating_geo.remove(window),
            ..self
        }
    }

    /// The window at a place leaves the workspace, and with it all that is
    /// known of it; the shares of the stack become equal.
    pub open spec fn removed(self, place: int) -> WorkspaceView {
        let gone = self.without_tables(self.windows[place]);
        WorkspaceView { windows: self.windows.remove(place), stack_ratios: Seq::empty(), ..gone }
    }

    /// A window and all that is known of it are dropped, wherever it stands.
    pub open spec fn forgotten(self, window: u64) -> WorkspaceView {
        WorkspaceView {
            windows: dropping(self.windows, window),
            ..self.without_tables(window)
        }
    }

    /// What is known of a window.
    pub open spec fn departure(self, window: u64) -> Departure {
        Departure {
            window,
            spawn_time: if self.spawn_times.dom().contains(window) {
                Some(self.spawn_times[window])
            } else {
                None
            },
            configured_size: if self.configured_sizes.dom().contains(window) {
                Some(self.configured_sizes[window])
            } else {
                None
            },
            was_floating: self.floating.contains(window),
            float_geo: if self.floating_geo.dom().contains(window) {
                Some(self.floating_geo[window])
            } else {
                None
            },
        }
    }

    /// A window comes in, last in the list, with what was known of it.
    pub open spec fn received(self, d: Departure) -> WorkspaceView {
        WorkspaceView {
            windows: self.windows.push(d.window),
            spawn_times: match d.spawn_time {
                Some(t) => self.spawn_times.insert(d.window, t),
                None => self.spawn_times,
            },
            configured_sizes: match d.configured_size {
                Some(size) => self.configured_sizes.insert(d.window, size),
                None => self.configured_sizes,
            },
            floating: if d.was_floating {
                self.floating.insert(d.window)
            } else {
                self.floating
            },
            floating_geo: match d.float_geo {
                Some(geo) => self.floating_geo.insert(d.window, geo),
                None => self.floating_geo,
            },
            stack_ratios: Seq::empty(),
            ..self
        }
    }

    /// A window leaves the tiling for a rectangle of its own.
    pub open spec fn floated(self, window: u64, geo: Rect) -> WorkspaceView {
        WorkspaceView {
            floating: self.floating.insert(window),
            floating_geo: self.floating_geo.insert(window, geo),
            stack_ratios: Seq::empty(),
            ..self
        }
    }

    /// A window goes back into the tiling.
    pub open spec fn sunk(self, window: u64) -> WorkspaceView {
        WorkspaceView {
            floating: self.floating.remove(window),
            floating_geo: self.floating_geo.remove(window),
            stack_ratios: Seq::empty(),
            ..self
        }
    }

    /// Two windows change places.
    pub open spec fn swapped(self, a: int, b: int) -> WorkspaceView {
        WorkspaceView {
            windows: self.windows.update(a, self.windows[b]).update(b, self.windows[a]),
            stack_ratios: Seq::empty(),
            ..self
        }
    }

    /// The window that gets the focus where nothing else asks for it.
    pub open spec fn last_window(self) -> Option<u64> {
        if self.windows.len() > 0 {
            Some(self.windows.last())
        } else {
            None
        }
    }

    /// A new window, which starts to fade in.
    pub open spec fn spawned(self, window: u64, now: u64) -> WorkspaceView {
        WorkspaceView {
            windows: self.windows.push(window),
            spawn_times: self.spawn_times.insert(window, now),
            ..self
        }
    }

    /// The windows that are not floating.
    pub open spec fn tiled(self) -> Seq<u64> {
        self.windows.filter(|w: u64| !self.floating.contains(w))
    }

    /// The number of windows in the stack.
    pub open spec fn stack_count(self) -> int {
        if self.tiled().len() > 1 {
            self.tiled().len() - 1
        } else {
            0
        }
    }

    /// Whether any window is fading in or out.
    pub open spec fn animating(self, now: u64) -> bool {
        ||| exists|w: u64|
            #![trigger self.spawn_times.dom().contains(w)]
            self.spawn_times.dom().contains(w) && crate::animation::running(
                now,
                self.spawn_times[w],
                crate::animation::ANIMATION_DURATION,
            ) is Some
        ||| self.dying(now)
    }

    /// Whether any closed window is still fading out.
    pub open spec fn dying(self, now: u64) -> bool {
        exists|i: int|
            0 <= i < self.dying_windows.len() && #[trigger] self.dying_windows[i].fading(now)
    }
}

/// A place that was found holds the value, and no earlier one does; where none
/// was found, the value is not in the list.
pub proof fn place_of_is_first(list: Seq<u64>, value: u64)
    ensures
        match place_of(list, value) {
            Some(i) => 0 <= i < list.len() && list[i] == value && forall|j: int|
                0 <= j < i ==> list[j] != value,
            None => forall|j: int| 0 <= j < list.len() ==> list[j] != value,
        },
    decreases list.len(),
{
    if list.len() > 0 && list[0] != value {
        let rest = list.drop_first();
        place_of_is_first(rest, value);
        match place_of(rest, value) {
            Some(i) => {
                assert forall|j: int| 0 <= j < i + 1 implies list[j] != value by {
                    if j > 0 {
                        assert(rest[j - 1] != value);
                    }
                }
            },
            None => {
                assert forall|j: int| 0 <= j < list.len() implies list[j] != value by {
                    if j > 0 {
                        assert(rest[j - 1] != value);
                    }
                }
            },
        }
    }
}

/// The first place of a value in a list.
pub fn position(list: &Vec<u64>, value: u64) -> (r: Option<usize>)
    ensures
        match r {
            Some(i) => place_of(list@, value) == Some(i as int),
            None => place_of(list@, value) is None,
        },
{
    proof {
        place_of_is_first(list@, value);
    }
    let mut i: usize = 0;
    while i < list.len()
        invariant
            i <= list.len(),
            forall|j: int| 0 <= j < i ==> list@[j] != value,
            match place_of(list@, value) {
                Some(k) => 0 <= k < list@.len() && list@[k] == value && forall|j: int|
                    0 <= j < k ==> list@[j] != value,
                None => forall|j: int| 0 <= j < list@.len() ==> list@[j] != value,
            },
        decreases list.len() - i,
    {
        if list[i] == value {
            return Some(i);
        }
        i = i + 1;
    }
    None
}

/// A window that has left a workspace, and what was known of it there.
#[derive(Clone, Copy, Debug, PartialEq, Eq, Structural)]
pub struct Departure {
    pub window: u64,
    pub spawn_time: Option<u64>,
    pub configured_size: Option<Size>,
    pub was_floating: bool,
    pub float_geo: Option<Rect>,
}

impl Workspace {
    pub fn new() -> (r: Self)
        ensures
            r@ == WorkspaceView::fresh(),
    {
        Workspace {
            windows: Vec::new(),
            spawn_times: HashMap::new(),
            configured_sizes: HashMap::new(),
            layout: LayoutType::MasterStack,
            floating: HashSet::new(),
            floating_geo: HashMap::new(),
            split_ratio: Single { bits: HALF32 },
            stack_ratios: Vec::new(),
            dying_windows: Vec::new(),
        }
    }

    /// Takes the window at a place out. Returns it, and all that was known of
    /// it.
    pub fn remove_at(&mut self, place: usize) -> (r: Departure)
        requires
            place < old(self)@.windows.len(),
        ensures
            final(self)@ == old(self)@.removed(place as int),
            r == old(self)@.departure(old(self)@.windows[place as int]),
    {
        let window: u64 = self.windows.remove(place);
        let spawn_time = self.spawn_times.remove(&window);
        let configured_size = self.configured_sizes.remove(&window);
        let was_floating = self.floating.remove(&window);
        let float_geo = self.floating_geo.remove(&window);
        self.stack_ratios.clear();
        Departure { window, spawn_time, configured_size, was_floating, float_geo }
    }

    /// Takes in a window that left another workspace.
    pub fn receive(&mut self, d: Departure)
        ensures
            final(self)@ == old(self)@.received(d),
    {
        if let Some(t) = d.spawn_time {
            self.spawn_times.insert(d.window, t);
        }
        if let Some(size) = d.configured_size {
            self.configured_sizes.insert(d.window, size);
        }
        if d.was_floating {
            self.floating.insert(d.window);
        }
        if let Some(geo) = d.float_geo {
            self.floating_geo.insert(d.window, geo);
        }
        self.windows.push(d.window);
        self.stack_ratios.clear();
    }

    /// Drops a window wherever it stands. Returns whether it was in the list.
    pub fn forget(&mut self, window: u64) -> (r: bool)
        ensures
            final(self)@ == old(self)@.forgotten(window),
            r == old(self)@.windows.contains(window),
    {
        let mut out: Vec<u64> = Vec::new();
        let mut found = false;
        let mut i: usize = 0;
        while i < self.windows.len()
            invariant
                i <= self.windows.len(),
                self@ == old(self)@,
                out@ == dropping(self.windows@.take(i as int), window),
                found == exists|k: int| 0 <= k < i && self.windows@[k] == window,
            decreases self.windows.len() - i,
        {
            reveal(Seq::filter);
            assert(self.windows@.take(i + 1).drop_last() == self.windows@.take(i as int));
            if self.windows[i] != window {
                out.push(self.windows[i]);
            } else {
                found = true;
            }
            i = i + 1;
        }
        assert(self.windows@.take(self.windows@.len() as int) == self.windows@);
        self.windows = out;
        self.spawn_times.remove(&window);
        self.configured_sizes.remove(&window);
        self.floating.remove(&window);
        self.floating_geo.remove(&window);
        found
    }

    /// Takes in a new window.
    pub fn spawn(&mut self, window: u64, now: u64)
        ensures
            final(self)@ == old(self)@.spawned(window, now),
    {
        self.spawn_times.insert(window, now);
        self.windows.push(window);
    }

    /// Takes a window out of the tiling.
    pub fn pop_out(&mut self, window: u64, geo: Rect)
        ensures
            final(self)@ == old(self)@.floated(window, geo),
    {
        self.floating.insert(window);
        self.floating_geo.insert(window, geo);
        self.stack_ratios.clear();
    }

    /// Puts a window back into the tiling.
    pub fn sink(&mut self, window: u64)
        ensures
            final(self)@ == old(self)@.sunk(window),
    {
        self.floating.remove(&window);
        self.floating_geo.remove(&window);
        self.stack_ratios.clear();
    }

    /// Lets two windows change places.
    pub fn swap(&mut self, a: usize, b: usize)
        requires
            a < old(self)@.windows.len(),
            b < old(self)@.windows.len(),
        ensures
            final(self)@ == old(self)@.swapped(a as int, b as int),
    {
        let wa: u64 = self.windows[a];
        let wb: u64 = self.windows[b];
        self.windows.set(a, wb);
        self.windows.set(b, wa);
        self.stack_ratios.clear();
    }

    pub fn last(&self) -> (r: Option<u64>)
        ensures
            r == self@.last_window(),
    {
        if self.windows.len() > 0 {
            Some(self.windows[self.windows.len() - 1])
        } else {
            None
        }
    }

    pub fn tiled_windows(&self) -> (r: Vec<u64>)
        ensures
            r@ == self@.tiled(),
    {
        let mut out: Vec<u64> = Vec::new();
        let mut i: usize = 0;
        let ghost keep = |w: u64| !self@.floating.contains(w);
        while i < self.windows.len()
            invariant
                i <= self.windows.len(),
                keep == (|w: u64| !self@.floating.contains(w)),
                out@ == self.windows@.take(i as int).filter(keep),
            decreases self.windows.len() - i,
        {
            reveal(Seq::filter);
            assert(self.windows@.take(i + 1).drop_last() == self.windows@.take(i as int));
            if !self.floating.contains(&self.windows[i]) {
                out.push(self.windows[i]);
            }
            i = i + 1;
        }
        assert(self.windows@.take(self.windows@.len() as int) == self.windows@);
        out
    }

    /// Brings the shares of the stack in line with the number of windows in
    /// it; `equal` is one divided by that number.
    pub fn ensure_stack_ratios(&mut self, equal: Single)
        ensures
            final(self)@ == (WorkspaceView {
                stack_ratios: if old(self)@.stack_count() == old(self)@.stack_ratios.len() {
                    old(self)@.stack_ratios
                } else {
                    Seq::new(old(self)@.stack_count() as nat, |i: int| equal)
                },
                ..old(self)@
            }),
    {
        let tiled = self.tiled_windows();
        let stack_count: usize = if tiled.len() > 1 {
            tiled.len() - 1
        } else {
            0
        };
        if stack_count == 0 {
            self.stack_ratios.clear();
            return;
        }
        if self.stack_ratios.len() != stack_count {
            let mut ratios: Vec<Single> = Vec::new();
            let mut i: usize = 0;
            while i < stack_count
                invariant
                    i <= stack_count,
                    ratios@ == Seq::new(i as nat, |k: int| equal),
                decreases stack_count - i,
            {
                ratios.push(equal);
                i = i + 1;
            }
            self.stack_ratios = ratios;
        }
    }

    /// Raises every share below the least one to it.
    pub fn raise_stack_ratios(&mut self)
        ensures
            final(self)@ == (WorkspaceView {
                stack_ratios: old(self)@.stack_ratios.map_values(
                    |r: Single|
                        if r.below(Single { bits: MIN_RATIO }) {
                            Single { bits: MIN_RATIO }
                        } else {
                            r
                        },
                ),
                ..old(self)@
            }),
    {
        let least = Single { bits: MIN_RATIO };
        let mut ratios: Vec<Single> = Vec::new();
        let mut i: usize = 0;
        while i < self.stack_ratios.len()
            invariant
                i <= self.stack_ratios.len(),
                ratios.len() == i,
                least == (Single { bits: MIN_RATIO }),
                forall|k: int|
                    0 <= k < i ==> ratios@[k] == (if self.stack_ratios@[k].below(least) {
                        least
                    } else {
                        self.stack_ratios@[k]
                    }),
            decreases self.stack_ratios.len() - i,
        {
            if self.stack_ratios[i].lt(least) {
                ratios.push(least);
            } else {
                ratios.push(self.stack_ratios[i]);
            }
            i = i + 1;
        }
        self.stack_ratios = ratios;
    }

    /// Drops the closed windows whose fade-out is over.
    pub fn reap_dying_windows(&mut self, now: u64)
        ensures
            final(self)@ == (WorkspaceView {
                dying_windows: old(self)@.dying_windows.filter(|d: DyingWindow| d.fading(now)),
                ..old(self)@
            }),
    {
        let mut out: Vec<DyingWindow> = Vec::new();
        let mut i: usize = 0;
        let ghost keep = |d: DyingWindow| d.fading(now);
        while i < self.dying_windows.len()
            invariant
                i <= self.dying_windows.len(),
                keep == (|d: DyingWindow| d.fading(now)),
                out@ == self.dying_windows@.take(i as int).filter(keep),
            decreases self.dying_windows.len() - i,
        {
            reveal(Seq::filter);
            assert(self.dying_windows@.take(i + 1).drop_last() == self.dying_windows@.take(
                i as int,
            ));
            if self.dying_windows[i].fade_alpha(now).is_some() {
                out.push(self.dying_windows[i]);
            }
            i = i + 1;
        }
        assert(self.dying_windows@.take(self.dying_windows@.len() as int) == self.dying_windows@);
        self.dying_windows = out;
    }

    /// Whether any closed window is still fading out.
    pub fn has_dying_windows(&self, now: u64) -> (r: bool)
        ensures
            r == self@.dying(now),
    {
        let mut i: usize = 0;
        while i < self.dying_windows.len()
            invariant
                i <= self.dying_windows.len(),
                forall|k: int| 0 <= k < i ==> !#[trigger] self.dying_windows@[k].fading(now),
            decreases self.dying_windows.len() - i,
        {
            if self.dying_windows[i].fade_alpha(now).is_some() {
                assert(self@.dying_windows[i as int].fading(now));
                return true;
            }
            i = i + 1;
        }
        false
    }

    /// Whether any window is fading in or out.
    pub fn is_animating(&self, now: u64) -> (r: bool)
        ensures
            r == self@.animating(now),
    {
        if self.has_dying_windows(now) {
            return true;
        }
        let ghost times = vstd::std_specs::iter::IteratorSpec::remaining(
            &vstd::std_specs::hash::spec_values_iter(&self.spawn_times),
        );
        for t in it: self.spawn_times.values()
            invariant
                it.seq() == times,
                times.unref().to_set() == self.spawn_times@.values(),
                forall|k: int|
                    0 <= k < it.index() ==> crate::animation::running(
                        now,
                        *#[trigger] it.seq()[k],
                        crate::animation::ANIMATION_DURATION,
                    ) is None,
        {
            if animation_progress(now, *t).is_some() {
                assert(times.unref()[it.index()] == *t);
                assert(times.unref().to_set().contains(*t));
                return true;
            }
        }
        assert forall|w: u64| self@.spawn_times.dom().contains(w) implies crate::animation::running(
            now,
            #[trigger] self@.spawn_times[w],
            crate::animation::ANIMATION_DURATION,
        ) is None by {
            assert(self.spawn_times@.values().contains(self@.spawn_times[w]));
            assert(times.unref().to_set().contains(self@.spawn_times[w]));
            let k = choose|k: int|
                0 <= k < times.unref().len() && times.unref()[k] == self@.spawn_times[w];
            assert(*times[k] == self@.spawn_times[w]);
        }
        false
    }
}

} // verus!
