use gridwalker::grid::{cell_key, Grid};
use gridwalker::walker::{Direction, Rgba, Walker};

fn rgba(r: u8, g: u8, b: u8) -> Rgba {
    Rgba { r, g, b, a: 255 }
}

#[test]
fn cell_key_is_row_major() {
    assert_eq!(cell_key(0, 0, 40), 0);
    assert_eq!(cell_key(3, 2, 40), 83);
    assert_eq!(cell_key(39, 39, 40), 1599);
}

#[test]
fn new_grid_is_empty() {
    let g = Grid::new(40, 40);
    assert_eq!(g.width, 40);
    assert_eq!(g.height, 40);
    assert_eq!(g.walkers.len(), 0);
    assert_eq!(g.trail.len(), 0);
}

#[test]
fn add_and_remove_walkers_follow_stack_discipline() {
    let mut g = Grid::new(40, 40);
    g.add_walker();
    g.add_walker();
    g.add_walker();
    assert_eq!(g.walkers.len(), 3);
    let kept: Vec<Walker> = g.walkers[..2].to_vec();
    g.remove_walker();
    assert_eq!(g.walkers.len(), 2);
    assert_eq!(g.walkers, kept);
    g.remove_walker();
    g.remove_walker();
    assert_eq!(g.walkers.len(), 0);
    g.remove_walker();
    assert_eq!(g.walkers.len(), 0);
}

#[test]
fn reset_replaces_walkers_and_clears_trail() {
    let mut g = Grid::new(40, 40);
    g.walkers.push(Walker::at(1, 1, rgba(1, 0, 0)));
    g.walkers.push(Walker::at(2, 2, rgba(0, 1, 0)));
    g.advance_tick();
    assert!(g.trail.len() > 0);
    g.reset(4);
    assert_eq!(g.walkers.len(), 4);
    assert_eq!(g.trail.len(), 0);
    for w in g.walkers.iter() {
        assert!(w.x < 40 && w.y < 40);
        assert_eq!(w.forbidden, None);
        assert_eq!(w.color.a, 255);
    }
}

#[test]
fn advance_tick_moves_every_walker_and_records_each() {
    let mut g = Grid::new(40, 40);
    let starts = [(1u32, 1u32), (10, 10), (20, 20)];
    let colors = [rgba(9, 0, 0), rgba(0, 9, 0), rgba(0, 0, 9)];
    for i in 0..3 {
        g.walkers.push(Walker::at(starts[i].0, starts[i].1, colors[i]));
    }
    g.advance_tick();
    assert_eq!(g.walkers.len(), 3);
    for i in 0..3 {
        let w = g.walkers[i];
        let dx = (w.x as i64 - starts[i].0 as i64).abs();
        let dy = (w.y as i64 - starts[i].1 as i64).abs();
        assert_eq!(dx + dy, 1, "walker {} did not move exactly one cell", i);
        assert_eq!(g.trail_color_at(w.x, w.y), Some(colors[i]));
    }
    // The walkers started far apart, so one tick cannot make them collide.
    assert_eq!(g.trail.len(), 3);
}

#[test]
fn trail_keeps_the_later_walker_on_collision() {
    // On a 2x2 grid both walkers are cornered into the same cell (1, 1):
    // the first may only move +x, the second only +y. The second walker is
    // recorded later, so its color must win.
    let mut g = Grid::new(2, 2);
    let mut a = Walker::at(0, 1, rgba(100, 0, 0));
    a.forbidden = Some(Direction::NegY);
    let mut b = Walker::at(1, 0, rgba(0, 100, 0));
    b.forbidden = Some(Direction::NegX);
    g.walkers.push(a);
    g.walkers.push(b);
    g.advance_tick();
    assert_eq!((g.walkers[0].x, g.walkers[0].y), (1, 1));
    assert_eq!((g.walkers[1].x, g.walkers[1].y), (1, 1));
    assert_eq!(g.trail.len(), 1);
    assert_eq!(g.trail_color_at(1, 1), Some(rgba(0, 100, 0)));
    assert_eq!(g.trail_color_at(0, 0), None);
}

#[test]
fn trail_entries_are_never_dropped_by_ticking() {
    let mut g = Grid::new(40, 40);
    g.reset(3);
    g.advance_tick();
    let after_one = g.trail.len();
    g.advance_tick();
    let after_two = g.trail.len();
    assert!(after_one >= 1);
    assert!(after_two >= after_one);
    assert!(after_two <= 6);
}
