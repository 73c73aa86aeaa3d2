use vstd::prelude::*;

use std::collections::HashMap;

use crate::walker::{Rgba, Walker, stepped};

verus! {

/// The trail key of cell `(x, y)` on a grid `width` cells wide: cells are
/// numbered row by row, so distinct in-range cells get distinct keys.
pub open spec fn spec_cell_key(x: u32, y: u32, width: u32) -> u64 {
    ((y as int) * (width as int) + (x as int)) as u64
}

pub fn cell_key(x: u32, y: u32, width: u32) -> (k: u64)
    ensures
        k == spec_cell_key(x, y, width),
{
    proof {
        assert((y as int) * (width as int) <= 0xffff_ffff * 0xffff_ffff) by (nonlinear_arith)
            requires
                y <= 0xffff_ffffu32,
                width <= 0xffff_ffffu32,
        ;
    }
    (y as u64) * (width as u64) + (x as u64)
}

/// Distinct in-range cells never share a trail key.
pub proof fn lemma_cell_key_injective(x1: u32, y1: u32, x2: u32, y2: u32, width: u32)
    requires
        x1 < width,
        x2 < width,
        spec_cell_key(x1, y1, width) == spec_cell_key(x2, y2, width),
    ensures
        x1 == x2,
        y1 == y2,
{
    assert((y1 as int) * (width as int) + (x1 as int) == (y2 as int) * (width as int) + (
    x2 as int)) by (nonlinear_arith)
        requires
            x1 < width,
            x2 < width,
            spec_cell_key(x1, y1, width) == spec_cell_key(x2, y2, width),
    ;
    assert(y1 == y2 && x1 == x2) by (nonlinear_arith)
        requires
            x1 < width,
            x2 < width,
            (y1 as int) * (width as int) + (x1 as int) == (y2 as int) * (width as int) + (
            x2 as int),
    ;
}

/// The trail as it stands after recording, in order, the position and
/// color of every walker of `ws` on top of `t0`; a later walker's color
/// wins when two walkers share a cell.
pub open spec fn trail_after(t0: Map<u64, Rgba>, ws: Seq<Walker>, width: u32) -> Map<u64, Rgba>
    decreases ws.len(),
{
    if ws.len() == 0 {
        t0
    } else {
        trail_after(t0, ws.drop_last(), width).insert(
            spec_cell_key(ws.last().x, ws.last().y, width),
            ws.last().color,
        )
    }
}

/// The trail keys of every walker position in `ws`.
pub open spec fn walker_keys(ws: Seq<Walker>, width: u32) -> Set<u64>
    decreases ws.len(),
{
    if ws.len() == 0 {
        Set::empty()
    } else {
        walker_keys(ws.drop_last(), width).insert(
            spec_cell_key(ws.last().x, ws.last().y, width),
        )
    }
}

/// Recording a sequence of walkers writes one entry per walker, no more:
/// the keys afterwards are exactly the old keys joined with the walkers'
/// cells, so at most `ws.len()` distinct keys can have appeared, and none
/// can have vanished.
pub proof fn lemma_trail_after_keys(t0: Map<u64, Rgba>, ws: Seq<Walker>, width: u32)
    requires
        t0.dom().finite(),
    ensures
        trail_after(t0, ws, width).dom() == t0.dom() + walker_keys(ws, width),
        trail_after(t0, ws, width).dom().finite(),
        trail_after(t0, ws, width).dom().len() <= t0.dom().len() + ws.len(),
        t0.dom().len() <= trail_after(t0, ws, width).dom().len(),
        ws.len() > 0 ==> trail_after(t0, ws, width).dom().len() >= 1,
    decreases ws.len(),
{
    if ws.len() == 0 {
        assert(trail_after(t0, ws, width).dom() =~= t0.dom() + walker_keys(ws, width));
    } else {
        lemma_trail_after_keys(t0, ws.drop_last(), width);
        let prev = trail_after(t0, ws.drop_last(), width);
        let k = spec_cell_key(ws.last().x, ws.last().y, width);
        assert(trail_after(t0, ws, width).dom() =~= prev.dom().insert(k));
        assert(trail_after(t0, ws, width).dom() =~= t0.dom() + walker_keys(ws, width));
        vstd::set_lib::lemma_len_union(prev.dom(), Set::empty().insert(k));
        assert(prev.dom() + Set::empty().insert(k) =~= prev.dom().insert(k));
        assert(trail_after(t0, ws, width).dom().contains(k));
        if trail_after(t0, ws, width).dom().len() == 0 {
            trail_after(t0, ws, width).dom().lemma_len0_is_empty();
            assert(false);
        }
    }
}

/// One tick writes exactly one trail entry per walker: afterwards the
/// trail's keys are the old keys joined with every walker's new cell, so
/// the number of distinct trailed cells grows by at most the number of
/// walkers and never falls.
pub proof fn lemma_tick_trail_keys(g0: Grid, g1: Grid)
    requires
        ticked(g0, g1),
        g0.trail@.dom().finite(),
    ensures
        g1.trail@.dom() == g0.trail@.dom() + walker_keys(g1.walkers@, g0.width),
        g1.trail@.dom().finite(),
        g1.trail@.dom().len() <= g0.trail@.dom().len() + g1.walkers@.len(),
        g0.trail@.dom().len() <= g1.trail@.dom().len(),
        g1.walkers@.len() > 0 ==> g1.trail@.dom().len() >= 1,
{
    lemma_trail_after_keys(g0.trail@, g1.walkers@, g0.width);
}

/// A fixed-size grid that owns the live walkers, in creation order, and
/// the trail: the color of the last walker recorded at each visited cell.
pub struct Grid {
    pub width: u32,
    pub height: u32,
    pub walkers: Vec<Walker>,
    pub trail: HashMap<u64, Rgba>,
}

/// `g1` is a state that one tick can carry `g0` into: the dimensions are
/// kept, every walker has taken exactly one valid step, and the trail has
/// recorded every walker's new position in sequence order.
pub open spec fn ticked(g0: Grid, g1: Grid) -> bool {
    &&& g1.width == g0.width
    &&& g1.height == g0.height
    &&& g1.walkers@.len() == g0.walkers@.len()
    &&& forall|i: int|
        0 <= i < g0.walkers@.len() ==> stepped(
            g0.walkers@[i],
            #[trigger] g1.walkers@[i],
            g0.width,
            g0.height,
        )
    &&& g1.trail@ == trail_after(g0.trail@, g1.walkers@, g0.width)
}

impl Grid {
    /// The grid is large enough for stepping to be total and every live
    /// walker stands on it.
    pub open spec fn wf(self) -> bool {
        &&& self.width >= 2
        &&& self.height >= 2
        &&& forall|i: int|
            0 <= i < self.walkers@.len() ==> (#[trigger] self.walkers@[i]).in_bounds(
                self.width,
                self.height,
            )
    }

    /// An empty grid of the given dimensions: no walkers, no trail.
    pub fn new(width: u32, height: u32) -> (g: Grid)
        requires
            width >= 2,
            height >= 2,
        ensures
            g.wf(),
            g.width == width,
            g.height == height,
            g.walkers@.len() == 0,
            g.trail@ == Map::<u64, Rgba>::empty(),
    {
        Grid { width, height, walkers: Vec::new(), trail: HashMap::new() }
    }

    /// Appends one freshly created walker; everything else is untouched.
    pub fn add_walker(&mut self)
        requires
            old(self).wf(),
        ensures
            final(self).wf(),
            final(self).width == old(self).width,
            final(self).height == old(self).height,
            final(self).trail@ == old(self).trail@,
            final(self).walkers@.len() == old(self).walkers@.len() + 1,
            final(self).walkers@.drop_last() == old(self).walkers@,
            final(self).walkers@.last().in_bounds(old(self).width, old(self).height),
            final(self).walkers@.last().is_fresh(),
    {
        let w = Walker::new(self.width, self.height);
        self.walkers.push(w);
        assert(self.walkers@.drop_last() == old(self).walkers@);
    }

    /// Removes the most recently created walker; does nothing on an empty
    /// grid.
    pub fn remove_walker(&mut self)
        requires
            old(self).wf(),
        ensures
            final(self).wf(),
            final(self).width == old(self).width,
            final(self).height == old(self).height,
            final(self).trail@ == old(self).trail@,
            old(self).walkers@.len() == 0 ==> final(self).walkers@ == old(self).walkers@,
            old(self).walkers@.len() > 0 ==> final(self).walkers@ == old(self).walkers@.drop_last(),
    {
        if self.walkers.len() > 0 {
            self.walkers.pop();
        }
    }

    /// Replaces the population with `count` freshly created walkers and
    /// clears the trail completely.
    pub fn reset(&mut self, count: usize)
        requires
            old(self).wf(),
        ensures
            final(self).wf(),
            final(self).width == old(self).width,
            final(self).height == old(self).height,
            final(self).walkers@.len() == count,
            forall|i: int| 0 <= i < count ==> (#[trigger] final(self).walkers@[i]).is_fresh(),
            final(self).trail@ == Map::<u64, Rgba>::empty(),
    {
        self.walkers = Vec::new();
        self.trail = HashMap::new();
        let mut i: usize = 0;
        while i < count
            invariant
                self.wf(),
                self.width == old(self).width,
                self.height == old(self).height,
                self.walkers@.len() == i,
                i <= count,
                forall|j: int| 0 <= j < i ==> (#[trigger] self.walkers@[j]).is_fresh(),
                self.trail@ == Map::<u64, Rgba>::empty(),
            decreases count - i,
        {
            let w = Walker::new(self.width, self.height);
            self.walkers.push(w);
            i = i + 1;
        }
    }

    /// Advances the whole grid by one tick: every walker, in sequence
    /// order, takes one step and then has its new position recorded in the
    /// trail with its color.
    pub fn advance_tick(&mut self)
        requires
            old(self).wf(),
        ensures
            final(self).wf(),
            ticked(*old(self), *final(self)),
    {
        let n: usize = self.walkers.len();
        let ghost g0 = *self;
        let mut i: usize = 0;
        while i < n
            invariant
                self.wf(),
                self.width == g0.width,
                self.height == g0.height,
                n == g0.walkers@.len(),
                self.walkers@.len() == n,
                i <= n,
                forall|j: int| i <= j < n ==> self.walkers@[j] == g0.walkers@[j],
                forall|j: int|
                    0 <= j < i ==> stepped(
                        g0.walkers@[j],
                        #[trigger] self.walkers@[j],
                        g0.width,
                        g0.height,
                    ),
                self.trail@ == trail_after(g0.trail@, self.walkers@.take(i as int), g0.width),
            decreases n - i,
        {
            let ghost s_pre = self.walkers@;
            let mut w: Walker = self.walkers[i];
            w.step(self.width, self.height);
            self.walkers[i] = w;
            let k: u64 = cell_key(w.x, w.y, self.width);
            self.trail.insert(k, w.color);
            proof {
                let s = self.walkers@;
                assert(s.take(i as int) =~= s_pre.take(i as int));
                assert(s.take(i + 1).drop_last() =~= s.take(i as int));
                assert(s.take(i + 1).last() == w);
                assert(self.trail@ == trail_after(g0.trail@, s.take(i as int), g0.width).insert(
                    spec_cell_key(w.x, w.y, g0.width),
                    w.color,
                ));
            }
            i = i + 1;
        }
        proof {
            assert(self.walkers@.take(n as int) =~= self.walkers@);
        }
    }

    /// The color the trail holds for cell `(x, y)`, if any walker was ever
    /// recorded there since the last reset.
    pub fn trail_color_at(&self, x: u32, y: u32) -> (c: Option<Rgba>)
        ensures
            c == if self.trail@.contains_key(spec_cell_key(x, y, self.width)) {
                Some(self.trail@[spec_cell_key(x, y, self.width)])
            } else {
                None::<Rgba>
            },
    {
        let k: u64 = cell_key(x, y, self.width);
        match self.trail.get(&k) {
            Some(c) => Some(*c),
            None => None,
        }
    }
}

} // verus!
