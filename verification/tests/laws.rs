// The general properties of the loop, each on concrete values.

use helloecs::{player_input, Key, Position, Renderable, State};
use legion::prelude::Universe;

fn player_cell(gs: &State) -> (i32, i32) {
    let found: Vec<(i32, i32)> =
        gs.render().iter().filter(|(_, r)| r.glyph == 64).map(|(p, _)| (p.x, p.y)).collect();
    assert_eq!(found.len(), 1);
    found[0]
}

fn mover_cells(gs: &State) -> Vec<(i32, i32)> {
    gs.render().iter().filter(|(_, r)| r.glyph == 1).map(|(p, _)| (p.x, p.y)).collect()
}

fn snapshot(gs: &State) -> Vec<(Position, Renderable)> {
    gs.render()
}

#[test]
fn player_stays_on_grid_after_each_event() {
    let mut gs = State::new();
    let pattern = [Key::Left, Key::Up, Key::Left, Key::Left, Key::Down, Key::Right, Key::Up];
    let mut keys: Vec<Key> = Vec::new();
    for _ in 0..60 {
        keys.push(Key::Left);
    }
    for _ in 0..60 {
        keys.push(Key::Up);
    }
    for _ in 0..100 {
        keys.push(Key::Right);
    }
    for _ in 0..100 {
        keys.push(Key::Down);
    }
    for round in 0..50 {
        keys.push(pattern[round % pattern.len()]);
    }
    for key in keys {
        player_input(&mut gs, Some(key));
        let (x, y) = player_cell(&gs);
        assert!(0 <= x && x <= 79);
        assert!(0 <= y && y <= 49);
    }
}

#[test]
fn every_position_stays_on_grid_over_frames() {
    let mut gs = State::new();
    let keys = [Some(Key::Left), None, Some(Key::Down), Some(Key::Other), Some(Key::Down)];
    for frame in 0..200 {
        let draws = gs.tick(keys[frame % keys.len()]);
        assert_eq!(draws.len(), 11);
        for (p, _) in draws {
            assert!(p.is_in_bounds());
        }
    }
}

#[test]
fn left_then_right_returns() {
    let mut gs = State::new();
    player_input(&mut gs, Some(Key::Left));
    player_input(&mut gs, Some(Key::Right));
    assert_eq!(player_cell(&gs), (40, 25));
}

#[test]
fn up_then_down_returns() {
    let mut gs = State::new();
    player_input(&mut gs, Some(Key::Up));
    player_input(&mut gs, Some(Key::Down));
    assert_eq!(player_cell(&gs), (40, 25));
}

#[test]
fn left_then_right_does_not_return_from_the_first_column() {
    let mut gs = State::new();
    for _ in 0..40 {
        player_input(&mut gs, Some(Key::Left));
    }
    assert_eq!(player_cell(&gs), (0, 25));
    player_input(&mut gs, Some(Key::Left));
    player_input(&mut gs, Some(Key::Right));
    assert_eq!(player_cell(&gs), (1, 25));
}

#[test]
fn up_then_down_does_not_return_from_the_first_row() {
    let mut gs = State::new();
    for _ in 0..25 {
        player_input(&mut gs, Some(Key::Up));
    }
    assert_eq!(player_cell(&gs), (40, 0));
    player_input(&mut gs, Some(Key::Up));
    player_input(&mut gs, Some(Key::Down));
    assert_eq!(player_cell(&gs), (40, 1));
}

#[test]
fn walker_steps_left_or_wraps() {
    let mut gs = State::new();
    for _ in 0..200 {
        let before = mover_cells(&gs);
        gs.run_systems();
        let after = mover_cells(&gs);
        assert_eq!(before.len(), after.len());
        for ((old_x, old_y), (new_x, new_y)) in before.into_iter().zip(after) {
            assert_eq!(new_x, if old_x > 0 { old_x - 1 } else { 79 });
            assert_eq!(new_y, old_y);
        }
    }
}

#[test]
fn eighty_ticks_bring_every_mover_back() {
    let mut gs = State::new();
    let start = mover_cells(&gs);
    for _ in 0..80 {
        gs.run_systems();
    }
    assert_eq!(mover_cells(&gs), start);
}

#[test]
fn no_key_changes_nothing() {
    let mut gs = State::new();
    let before = snapshot(&gs);
    player_input(&mut gs, None);
    assert_eq!(snapshot(&gs), before);
    player_input(&mut gs, Some(Key::Other));
    assert_eq!(snapshot(&gs), before);
}

#[test]
fn empty_schedule_changes_nothing() {
    let mut gs = State::new();
    gs.walker_schedule.clear();
    let before = snapshot(&gs);
    gs.run_systems();
    assert_eq!(snapshot(&gs), before);
    let drawn = gs.tick(None);
    assert_eq!(drawn, before);
    assert_eq!(snapshot(&gs), before);
}

#[test]
fn rendering_changes_nothing() {
    let gs = State::new();
    let first = gs.render();
    let second = gs.render();
    assert_eq!(first, second);
}

#[test]
fn idle_frame_on_an_empty_world() {
    let mut gs = State { ecs: Universe::new().create_world(), walker_schedule: Vec::new() };
    assert_eq!(gs.tick(None), Vec::new());
    assert_eq!(gs.render(), Vec::new());
}
