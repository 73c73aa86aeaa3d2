use gridwalker::sim::Simulation;
use gridwalker::walker::Walker;

#[test]
fn new_simulation_uses_the_defaults() {
    let s = Simulation::new();
    assert_eq!(s.grid.width, 40);
    assert_eq!(s.grid.height, 40);
    assert_eq!(s.target_walker_count, 5);
    assert_eq!(s.grid.walkers.len(), 5);
    assert_eq!(s.grid.trail.len(), 0);
    assert!(!s.paused);
    assert_eq!(s.accumulated_time, 0);
    for w in s.grid.walkers.iter() {
        assert_eq!(w.forbidden, None);
        assert_eq!(w.color.a, 255);
    }
}

#[test]
fn toggle_pause_flips_the_state() {
    let mut s = Simulation::new();
    s.toggle_pause();
    assert!(s.paused);
    s.toggle_pause();
    assert!(!s.paused);
}

#[test]
fn reset_restores_population_and_clears_trail() {
    let mut s = Simulation::new();
    s.grow();
    s.grow();
    for _ in 0..10 {
        s.advance_time(100);
    }
    assert!(s.grid.trail.len() > 0);
    s.reset();
    assert_eq!(s.target_walker_count, 7);
    assert_eq!(s.grid.walkers.len(), 7);
    assert_eq!(s.grid.trail.len(), 0);
    assert_eq!(s.accumulated_time, 0);
    assert!(!s.paused);
    for w in s.grid.walkers.iter() {
        assert_eq!(w.forbidden, None, "reset must hand out fresh walkers");
        assert_eq!(w.color.a, 255);
    }
}

#[test]
fn grow_then_shrink_is_a_no_op_on_the_original_walkers() {
    let mut s = Simulation::new();
    let before: Vec<Walker> = s.grid.walkers.clone();
    let target = s.target_walker_count;
    s.grow();
    assert_eq!(s.target_walker_count, target + 1);
    assert_eq!(s.grid.walkers.len(), target + 1);
    let appended = s.grid.walkers[target];
    assert_eq!(appended.forbidden, None);
    assert_eq!(appended.color.a, 255);
    s.shrink();
    assert_eq!(s.target_walker_count, target);
    assert_eq!(s.grid.walkers, before);
    assert_eq!(s.grid.trail.len(), 0);
}

#[test]
fn shrink_on_an_empty_grid_stays_at_zero() {
    let mut s = Simulation::new_with(40, 40, 0);
    assert_eq!(s.target_walker_count, 0);
    s.shrink();
    assert_eq!(s.target_walker_count, 0);
    assert_eq!(s.grid.walkers.len(), 0);
}

#[test]
fn shrink_below_zero_is_a_no_op() {
    let mut s = Simulation::new();
    for _ in 0..5 {
        s.shrink();
    }
    assert_eq!(s.target_walker_count, 0);
    s.shrink();
    assert_eq!(s.target_walker_count, 0);
    assert_eq!(s.grid.walkers.len(), 0);
}

#[test]
fn paused_time_changes_nothing() {
    let mut s = Simulation::new();
    s.toggle_pause();
    let walkers: Vec<Walker> = s.grid.walkers.clone();
    s.advance_time(10_000);
    assert_eq!(s.grid.walkers, walkers);
    assert_eq!(s.grid.trail.len(), 0);
    assert_eq!(s.accumulated_time, 0);
}

#[test]
fn time_below_one_interval_accumulates_without_ticking() {
    let mut s = Simulation::new();
    let walkers: Vec<Walker> = s.grid.walkers.clone();
    s.advance_time(30);
    s.advance_time(30);
    s.advance_time(39);
    assert_eq!(s.accumulated_time, 99);
    assert_eq!(s.grid.walkers, walkers);
    assert_eq!(s.grid.trail.len(), 0);
    s.advance_time(1);
    assert_eq!(s.accumulated_time, 0);
    for (w, old) in s.grid.walkers.iter().zip(walkers.iter()) {
        assert!(w.x != old.x || w.y != old.y, "a tick must move every walker");
    }
    assert!(s.grid.trail.len() >= 1);
}

#[test]
fn surplus_time_beyond_one_interval_is_discarded() {
    let mut s = Simulation::new();
    s.advance_time(1_000);
    assert_eq!(s.accumulated_time, 0);
    let walkers: Vec<Walker> = s.grid.walkers.clone();
    s.advance_time(99);
    assert_eq!(s.grid.walkers, walkers, "only one tick may fire per call");
}

#[test]
fn hundred_ticks_trace_valid_non_reversing_unit_moves() {
    let mut s = Simulation::new();
    let mut prev: Vec<(u32, u32)> = s.grid.walkers.iter().map(|w| (w.x, w.y)).collect();
    let mut prev_move: Vec<Option<(i64, i64)>> = prev.iter().map(|_| None).collect();
    for tick in 0..100 {
        s.advance_time(100);
        for i in 0..5 {
            let w = s.grid.walkers[i];
            assert!(w.x < 40 && w.y < 40);
            let dx = w.x as i64 - prev[i].0 as i64;
            let dy = w.y as i64 - prev[i].1 as i64;
            assert_eq!(dx.abs() + dy.abs(), 1, "tick {} walker {}", tick, i);
            if let Some((px, py)) = prev_move[i] {
                assert!(
                    (dx, dy) != (-px, -py),
                    "tick {} walker {} reversed its previous move",
                    tick,
                    i
                );
            }
            prev_move[i] = Some((dx, dy));
            prev[i] = (w.x, w.y);
        }
    }
    let entries = s.grid.trail.len();
    assert!(entries >= 1);
    assert!(entries <= 500);
}
