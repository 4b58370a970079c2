// The four worked examples of the frame loop, run against a real world.

use helloecs::{player_input, Key, Position, Renderable, State};

const PLAYER_GLYPH: u16 = 64;
const MOVER_GLYPH: u16 = 1;

fn positions_with_glyph(draws: &[(Position, Renderable)], glyph: u16) -> Vec<Position> {
    draws.iter().filter(|(_, r)| r.glyph == glyph).map(|(p, _)| *p).collect()
}

fn the_player(gs: &State) -> Position {
    let players = positions_with_glyph(&gs.render(), PLAYER_GLYPH);
    assert_eq!(players.len(), 1);
    players[0]
}

fn sorted_cells(draws: &[(Position, Renderable)]) -> Vec<(i32, i32, u16)> {
    let mut cells: Vec<(i32, i32, u16)> =
        draws.iter().map(|(p, r)| (p.x, p.y, r.glyph)).collect();
    cells.sort();
    cells
}

#[test]
fn left_moves_the_player_one_column() {
    let mut gs = State::new();
    assert_eq!(the_player(&gs), Position { x: 40, y: 25 });
    player_input(&mut gs, Some(Key::Left));
    assert_eq!(the_player(&gs), Position { x: 39, y: 25 });
}

#[test]
fn mover_in_first_column_wraps_to_last() {
    let mut gs = State::new();
    let before = positions_with_glyph(&gs.render(), MOVER_GLYPH);
    assert!(before.contains(&Position { x: 0, y: 20 }));
    assert!(!before.contains(&Position { x: 79, y: 20 }));
    gs.run_systems();
    let after = positions_with_glyph(&gs.render(), MOVER_GLYPH);
    assert!(after.contains(&Position { x: 79, y: 20 }));
    assert!(!after.contains(&Position { x: 0, y: 20 }));
    assert_eq!(after.len(), 10);
}

#[test]
fn left_in_first_column_is_clamped() {
    let mut gs = State::new();
    for _ in 0..40 {
        player_input(&mut gs, Some(Key::Left));
    }
    assert_eq!(the_player(&gs), Position { x: 0, y: 25 });
    player_input(&mut gs, Some(Key::Left));
    assert_eq!(the_player(&gs), Position { x: 0, y: 25 });
}

#[test]
fn initial_world_draws_eleven_entities() {
    let gs = State::new();
    let draws = gs.render();
    assert_eq!(draws.len(), 11);

    let mut expected: Vec<(i32, i32, u16)> = vec![(40, 25, PLAYER_GLYPH)];
    for i in 0..10 {
        expected.push((7 * i, 20, MOVER_GLYPH));
    }
    expected.sort();
    assert_eq!(sorted_cells(&draws), expected);
}

#[test]
fn initial_world_in_storage_order() {
    let gs = State::new();
    let cells: Vec<(i32, i32, u16)> =
        gs.render().iter().map(|(p, r)| (p.x, p.y, r.glyph)).collect();
    assert_eq!(
        cells,
        vec![
            (40, 25, 64),
            (0, 20, 1),
            (7, 20, 1),
            (14, 20, 1),
            (21, 20, 1),
            (28, 20, 1),
            (35, 20, 1),
            (42, 20, 1),
            (49, 20, 1),
            (56, 20, 1),
            (63, 20, 1),
        ]
    );
}

#[test]
fn initial_colours_and_glyphs() {
    let gs = State::new();
    for (_, look) in gs.render() {
        assert_eq!(look.bg, helloecs::Color { r: 0, g: 0, b: 0 });
        if look.glyph == PLAYER_GLYPH {
            assert_eq!(look.fg, helloecs::Color { r: 255, g: 255, b: 0 });
        } else {
            assert_eq!(look.glyph, MOVER_GLYPH);
            assert_eq!(look.fg, helloecs::Color { r: 255, g: 0, b: 0 });
        }
    }
}

#[test]
fn given_glyphs_are_used() {
    let gs = State::with_glyphs(7, 9);
    let draws = gs.render();
    assert_eq!(positions_with_glyph(&draws, 7), vec![Position { x: 40, y: 25 }]);
    assert_eq!(positions_with_glyph(&draws, 9).len(), 10);
    assert_eq!(draws.len(), 11);
}
