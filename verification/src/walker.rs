use vstd::prelude::*;

verus! {

/// One of the four unit moves a walker can make on the grid.
#[derive(Clone, Copy, PartialEq, Eq, Structural, Debug)]
pub enum Direction {
    PosX,
    NegX,
    PosY,
    NegY,
}

/// A color with full 8-bit channels; walkers keep the color they were
/// created with for their whole lifetime.
#[derive(Clone, Copy, PartialEq, Eq, Structural, Debug)]
pub struct Rgba {
    pub r: u8,
    pub g: u8,
    pub b: u8,
    pub a: u8,
}

/// The direction opposite to `d`.
pub open spec fn spec_opposite(d: Direction) -> Direction {
    match d {
        Direction::PosX => Direction::NegX,
        Direction::NegX => Direction::PosX,
        Direction::PosY => Direction::NegY,
        Direction::NegY => Direction::PosY,
    }
}

pub fn opposite(d: Direction) -> (r: Direction)
    ensures
        r == spec_opposite(d),
{
    match d {
        Direction::PosX => Direction::NegX,
        Direction::NegX => Direction::PosX,
        Direction::PosY => Direction::NegY,
        Direction::NegY => Direction::PosY,
    }
}

/// A single random-walking entity: a grid position, an immutable color,
/// and the one direction it may not take on its next move.
#[derive(Clone, Copy, PartialEq, Eq, Structural, Debug)]
pub struct Walker {
    pub x: u32,
    pub y: u32,
    pub color: Rgba,
    pub forbidden: Option<Direction>,
}

impl Walker {
    /// The walker's position lies inside a `width` by `height` grid.
    pub open spec fn in_bounds(self, width: u32, height: u32) -> bool {
        self.x < width && self.y < height
    }

    /// The walker is as creation leaves it: free to move in any direction
    /// on its first step, with a fully opaque color.
    pub open spec fn is_fresh(self) -> bool {
        self.forbidden is None && self.color.a == 255
    }
}

/// Direction `d` may be taken from `w`'s position: the move stays on the
/// grid and `d` is not the direction the walker is barred from retaking.
pub open spec fn dir_allowed(w: Walker, d: Direction, width: u32, height: u32) -> bool {
    &&& match d {
        Direction::PosX => w.x + 1 < width,
        Direction::NegX => w.x > 0,
        Direction::PosY => w.y + 1 < height,
        Direction::NegY => w.y > 0,
    }
    &&& w.forbidden != Some(d)
}

/// The walker that results from taking direction `d` out of `w`: moved by
/// one cell, same color, and barred from immediately undoing the move.
pub open spec fn apply_move(w: Walker, d: Direction) -> Walker {
    Walker {
        x: match d {
            Direction::PosX => (w.x + 1) as u32,
            Direction::NegX => (w.x - 1) as u32,
            _ => w.x,
        },
        y: match d {
            Direction::PosY => (w.y + 1) as u32,
            Direction::NegY => (w.y - 1) as u32,
            _ => w.y,
        },
        color: w.color,
        forbidden: Some(spec_opposite(d)),
    }
}

/// `w1` is a state that one valid step can carry `w0` into.
pub open spec fn stepped(w0: Walker, w1: Walker, width: u32, height: u32) -> bool {
    exists|d: Direction| #[trigger] dir_allowed(w0, d, width, height) && w1 == apply_move(w0, d)
}

/// One step changes the position by exactly one cell along exactly one
/// axis: the other coordinate is untouched, and the color is kept.
pub proof fn lemma_stepped_moves_one_cell(w0: Walker, w1: Walker, width: u32, height: u32)
    requires
        w0.in_bounds(width, height),
        stepped(w0, w1, width, height),
    ensures
        w1.in_bounds(width, height),
        (w1.x == w0.x && (w1.y == w0.y + 1 || w1.y + 1 == w0.y)) || (w1.y == w0.y && (w1.x == w0.x
            + 1 || w1.x + 1 == w0.x)),
        w1.color == w0.color,
{
    let d = choose|d: Direction| dir_allowed(w0, d, width, height) && w1 == apply_move(w0, d);
    assert(dir_allowed(w0, d, width, height) && w1 == apply_move(w0, d));
}

/// No two-step back-and-forth: a walker that has just stepped cannot
/// return to where it stood before that step on its very next one.
pub proof fn lemma_no_immediate_backtrack(w0: Walker, w1: Walker, w2: Walker, width: u32, height: u32)
    requires
        stepped(w0, w1, width, height),
        stepped(w1, w2, width, height),
    ensures
        w2.x != w0.x || w2.y != w0.y,
{
    let d1 = choose|d: Direction| dir_allowed(w0, d, width, height) && w1 == apply_move(w0, d);
    assert(dir_allowed(w0, d1, width, height) && w1 == apply_move(w0, d1));
    let d2 = choose|d: Direction| dir_allowed(w1, d, width, height) && w2 == apply_move(w1, d);
    assert(dir_allowed(w1, d2, width, height) && w2 == apply_move(w1, d2));
    assert(w1.forbidden == Some(spec_opposite(d1)));
    assert(d2 != spec_opposite(d1));
}

/// Whether `d` may be taken from `w`'s current position.
pub fn allowed(w: &Walker, d: Direction, width: u32, height: u32) -> (r: bool)
    requires
        w.in_bounds(width, height),
    ensures
        r == dir_allowed(*w, d, width, height),
{
    let geometric: bool = match d {
        Direction::PosX => w.x + 1 < width,
        Direction::NegX => w.x > 0,
        Direction::PosY => w.y + 1 < height,
        Direction::NegY => w.y > 0,
    };
    let barred: bool = match w.forbidden {
        Some(f) => f == d,
        None => false,
    };
    geometric && !barred
}

impl Walker {
    /// A walker placed at the given cell with the given color, free to move
    /// in any direction on its first step.
    pub fn at(x: u32, y: u32, color: Rgba) -> (w: Walker)
        ensures
            w == (Walker { x, y, color, forbidden: None }),
    {
        Walker { x, y, color, forbidden: None }
    }

    /// A walker at a uniformly random cell of a `width` by `height` grid,
    /// with a random fully opaque color and no barred direction.
    pub fn new(width: u32, height: u32) -> (w: Walker)
        requires
            width >= 1,
            height >= 1,
        ensures
            w.in_bounds(width, height),
            w.forbidden is None,
            w.color.a == 255,
    {
        let rx: u32 = rand::random::<u32>();
        let ry: u32 = rand::random::<u32>();
        let color = Rgba {
            r: rand::random::<u8>(),
            g: rand::random::<u8>(),
            b: rand::random::<u8>(),
            a: 255,
        };
        Walker { x: rx % width, y: ry % height, color, forbidden: None }
    }

    /// Moves the walker as `step_with` does, drawing the randomness from
    /// the process-wide generator.
    pub fn step(&mut self, width: u32, height: u32)
        requires
            old(self).in_bounds(width, height),
            width >= 2,
            height >= 2,
        ensures
            stepped(*old(self), *final(self), width, height),
            final(self).in_bounds(width, height),
            final(self).color == old(self).color,
    {
        let raw: u32 = rand::random::<u32>();
        self.step_with(raw, width, height);
    }

    /// Moves the walker by exactly one cell in a direction drawn uniformly
    /// from the set of moves that stay on the grid and do not undo the
    /// previous move; `raw` supplies the randomness, so equal inputs give
    /// equal outcomes. On a grid at least 2 cells wide and tall that set is
    /// never empty, so the step always goes through.
    pub fn step_with(&mut self, raw: u32, width: u32, height: u32)
        requires
            old(self).in_bounds(width, height),
            width >= 2,
            height >= 2,
        ensures
            stepped(*old(self), *final(self), width, height),
            final(self).in_bounds(width, height),
            final(self).color == old(self).color,
    {
        let mut dirs: Vec<Direction> = Vec::new();
        if allowed(self, Direction::PosX, width, height) {
            dirs.push(Direction::PosX);
        }
        if allowed(self, Direction::NegX, width, height) {
            dirs.push(Direction::NegX);
        }
        if allowed(self, Direction::PosY, width, height) {
            dirs.push(Direction::PosY);
        }
        if allowed(self, Direction::NegY, width, height) {
            dirs.push(Direction::NegY);
        }
        assert(dirs.len() >= 1) by {
            assert(self.x + 1 < width || self.x > 0);
            assert(self.y + 1 < height || self.y > 0);
        }
        let idx: usize = (raw as usize) % dirs.len();
        let d: Direction = dirs[idx];
        assert(dir_allowed(*self, d, width, height));
        match d {
            Direction::PosX => {
                self.x = self.x + 1;
            },
            Direction::NegX => {
                self.x = self.x - 1;
            },
            Direction::PosY => {
                self.y = self.y + 1;
            },
            Direction::NegY => {
                self.y = self.y - 1;
            },
        }
        self.forbidden = Some(opposite(d));
        assert(*self == apply_move(*old(self), d));
    }
}

} // verus!
