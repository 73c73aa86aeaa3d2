use vstd::prelude::*;

use crate::grid::{Grid, ticked};
use crate::walker::Rgba;

verus! {

/// How much accumulated time one simulation tick consumes, in
/// milliseconds.
pub const TICK_INTERVAL_MS: u64 = 100;

/// Default grid dimensions.
pub const DEFAULT_WIDTH: u32 = 40;

pub const DEFAULT_HEIGHT: u32 = 40;

/// How many walkers a freshly started simulation holds.
pub const DEFAULT_WALKER_COUNT: usize = 5;

/// The top-level state machine: one grid, the desired walker population,
/// a pause flag, and the fixed-timestep accumulator.
pub struct Simulation {
    pub grid: Grid,
    pub target_walker_count: usize,
    pub paused: bool,
    pub accumulated_time: u64,
}

/// `s1` is `s0` with one walker grown: the population target is one
/// higher, one freshly created walker stands appended, and nothing else
/// moved.
pub open spec fn grown(s0: Simulation, s1: Simulation) -> bool {
    &&& s1.target_walker_count == s0.target_walker_count + 1
    &&& s1.grid.walkers@.len() == s0.grid.walkers@.len() + 1
    &&& s1.grid.walkers@.drop_last() == s0.grid.walkers@
    &&& s1.grid.walkers@.last().is_fresh()
    &&& s1.grid.walkers@.last().in_bounds(s0.grid.width, s0.grid.height)
    &&& s1.grid.width == s0.grid.width
    &&& s1.grid.height == s0.grid.height
    &&& s1.grid.trail@ == s0.grid.trail@
    &&& s1.paused == s0.paused
    &&& s1.accumulated_time == s0.accumulated_time
}

/// `s1` is `s0` with one walker shrunk: if any walker was wanted, the
/// target dropped by one and the most recent walker left; otherwise
/// nothing happened at all.
pub open spec fn shrunk(s0: Simulation, s1: Simulation) -> bool {
    &&& if s0.target_walker_count > 0 {
        s1.target_walker_count == s0.target_walker_count - 1 && s1.grid.walkers@
            == s0.grid.walkers@.drop_last()
    } else {
        s1.target_walker_count == 0 && s1.grid.walkers@ == s0.grid.walkers@
    }
    &&& s1.grid.width == s0.grid.width
    &&& s1.grid.height == s0.grid.height
    &&& s1.grid.trail@ == s0.grid.trail@
    &&& s1.paused == s0.paused
    &&& s1.accumulated_time == s0.accumulated_time
}

/// Growing and then shrinking is a no-op: the population target and the
/// sequence of original walkers are exactly as before, and the trail was
/// never touched by either command.
pub proof fn lemma_grow_then_shrink(s0: Simulation, s1: Simulation, s2: Simulation)
    requires
        grown(s0, s1),
        shrunk(s1, s2),
    ensures
        s2.target_walker_count == s0.target_walker_count,
        s2.grid.walkers@ == s0.grid.walkers@,
        s2.grid.trail@ == s0.grid.trail@,
        s2.grid.width == s0.grid.width,
        s2.grid.height == s0.grid.height,
        s2.paused == s0.paused,
        s2.accumulated_time == s0.accumulated_time,
{
    assert(s1.target_walker_count > 0);
    assert(s2.grid.walkers@ == s1.grid.walkers@.drop_last());
}

impl Simulation {
    /// The grid is well formed, the population target matches the live
    /// walkers, and the accumulator never holds a full tick interval.
    pub open spec fn wf(self) -> bool {
        &&& self.grid.wf()
        &&& self.target_walker_count == self.grid.walkers@.len()
        &&& self.accumulated_time < TICK_INTERVAL_MS
    }

    /// A running simulation on a `width` by `height` grid with `count`
    /// randomly placed walkers, an empty trail, and a zero accumulator.
    /// Grids narrower or shorter than two cells are rejected up front:
    /// on them a cornered walker could have no legal move.
    pub fn new_with(width: u32, height: u32, count: usize) -> (s: Simulation)
        requires
            width >= 2,
            height >= 2,
        ensures
            s.wf(),
            s.grid.width == width,
            s.grid.height == height,
            s.target_walker_count == count,
            s.grid.walkers@.len() == count,
            forall|i: int| 0 <= i < count ==> (#[trigger] s.grid.walkers@[i]).is_fresh(),
            s.grid.trail@ == Map::<u64, Rgba>::empty(),
            !s.paused,
            s.accumulated_time == 0,
    {
        let mut grid = Grid::new(width, height);
        grid.reset(count);
        Simulation { grid, target_walker_count: count, paused: false, accumulated_time: 0 }
    }

    /// A running simulation with the default 40 by 40 grid and five
    /// walkers.
    pub fn new() -> (s: Simulation)
        ensures
            s.wf(),
            s.grid.width == DEFAULT_WIDTH,
            s.grid.height == DEFAULT_HEIGHT,
            s.target_walker_count == DEFAULT_WALKER_COUNT,
            s.grid.walkers@.len() == DEFAULT_WALKER_COUNT,
            forall|i: int|
                0 <= i < DEFAULT_WALKER_COUNT ==> (#[trigger] s.grid.walkers@[i]).is_fresh(),
            s.grid.trail@ == Map::<u64, Rgba>::empty(),
            !s.paused,
            s.accumulated_time == 0,
    {
        Self::new_with(DEFAULT_WIDTH, DEFAULT_HEIGHT, DEFAULT_WALKER_COUNT)
    }

    /// Flips between `Running` and `Paused`; nothing else changes.
    pub fn toggle_pause(&mut self)
        requires
            old(self).wf(),
        ensures
            final(self).wf(),
            final(self).paused == !old(self).paused,
            final(self).grid == old(self).grid,
            final(self).target_walker_count == old(self).target_walker_count,
            final(self).accumulated_time == old(self).accumulated_time,
    {
        self.paused = !self.paused;
    }

    /// Starts the grid over with the currently wanted number of walkers:
    /// a fresh population, an empty trail, and a zero accumulator. The
    /// pause state is kept.
    pub fn reset(&mut self)
        requires
            old(self).wf(),
        ensures
            final(self).wf(),
            final(self).grid.width == old(self).grid.width,
            final(self).grid.height == old(self).grid.height,
            final(self).target_walker_count == old(self).target_walker_count,
            final(self).grid.walkers@.len() == old(self).target_walker_count,
            forall|i: int|
                0 <= i < final(self).grid.walkers@.len() ==> (#[trigger] final(
                    self
                ).grid.walkers@[i]).is_fresh(),
            final(self).grid.trail@ == Map::<u64, Rgba>::empty(),
            final(self).paused == old(self).paused,
            final(self).accumulated_time == 0,
    {
        let count: usize = self.target_walker_count;
        self.grid.reset(count);
        self.accumulated_time = 0;
    }

    /// Raises the wanted population by one and appends a fresh walker.
    pub fn grow(&mut self)
        requires
            old(self).wf(),
            old(self).target_walker_count < usize::MAX,
        ensures
            final(self).wf(),
            grown(*old(self), *final(self)),
    {
        self.target_walker_count = self.target_walker_count + 1;
        self.grid.add_walker();
    }

    /// Lowers the wanted population by one and removes the most recently
    /// created walker; on an empty population this does nothing and is no
    /// error.
    pub fn shrink(&mut self)
        requires
            old(self).wf(),
        ensures
            final(self).wf(),
            shrunk(*old(self), *final(self)),
    {
        if self.target_walker_count > 0 {
            self.target_walker_count = self.target_walker_count - 1;
            self.grid.remove_walker();
        }
    }

    /// Feeds `elapsed_ms` of wall-clock time into the fixed-timestep
    /// accumulator. While paused this changes nothing at all. While
    /// running, once a full tick interval has built up, the grid advances
    /// exactly one tick and the accumulator restarts at zero: surplus time
    /// beyond the one interval is discarded, not carried forward.
    pub fn advance_time(&mut self, elapsed_ms: u64)
        requires
            old(self).wf(),
        ensures
            final(self).wf(),
            final(self).paused == old(self).paused,
            final(self).target_walker_count == old(self).target_walker_count,
            old(self).paused ==> *final(self) == *old(self),
            !old(self).paused && old(self).accumulated_time + elapsed_ms < TICK_INTERVAL_MS ==> {
                &&& final(self).grid == old(self).grid
                &&& final(self).accumulated_time == old(self).accumulated_time + elapsed_ms
            },
            !old(self).paused && old(self).accumulated_time + elapsed_ms >= TICK_INTERVAL_MS ==> {
                &&& ticked(old(self).grid, final(self).grid)
                &&& final(self).accumulated_time == 0
            },
    {
        if self.paused {
            return ;
        }
        if elapsed_ms >= TICK_INTERVAL_MS - self.accumulated_time {
            self.grid.advance_tick();
            self.accumulated_time = 0;
        } else {
            self.accumulated_time = self.accumulated_time + elapsed_ms;
        }
    }
}

} // verus!
