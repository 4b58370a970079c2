//! The input handler: one key event moves the player by one cell, clamped
//! to the grid.

use vstd::prelude::*;
use legion::prelude::World;
use crate::state::State;
use crate::store::{
    entities, move_players, players_in_bounds, players_moved, positions_in_bounds, Components,
};

verus! {

/// A key event: one of the four arrow keys, or any other key.
#[derive(Clone, Copy, Debug, PartialEq, Eq)]
pub enum Key {
    Left,
    Right,
    Up,
    Down,
    Other,
}

impl Key {
    /// The unit step of an arrow key; no step for another key.
    pub open spec fn delta(self) -> Option<(int, int)> {
        match self {
            Key::Left => Some((-1, 0)),
            Key::Right => Some((1, 0)),
            Key::Up => Some((0, -1)),
            Key::Down => Some((0, 1)),
            Key::Other => None,
        }
    }

    /// Whether the key is one of the four arrow keys.
    pub open spec fn is_direction(self) -> bool {
        self.delta() is Some
    }
}

/// The entities after the input of one frame: an arrow key moves the
/// players by its unit step, no key and any other key change nothing.
pub open spec fn after_input(es: Seq<Components>, key: Option<Key>) -> Seq<Components> {
    match key {
        Some(k) => match k.delta() {
            Some((dx, dy)) => players_moved(es, dx, dy),
            None => es,
        },
        None => es,
    }
}

/// Moves every player-tagged entity that has a position by
/// `(delta_x, delta_y)`, clamped to the grid. Nothing else changes.
pub fn try_move_player(delta_x: i32, delta_y: i32, ecs: &mut World)
    ensures
        entities(*final(ecs)) == players_moved(entities(*old(ecs)), delta_x as int, delta_y as int),
        players_in_bounds(entities(*final(ecs))),
        positions_in_bounds(entities(*old(ecs))) ==> positions_in_bounds(entities(*final(ecs))),
{
    move_players(ecs, delta_x, delta_y);
}

/// Applies the key event of one frame, if there is one, to the world.
pub fn player_input(gs: &mut State, key: Option<Key>)
    ensures
        entities(final(gs).ecs) == after_input(entities(old(gs).ecs), key),
        final(gs).walker_schedule == old(gs).walker_schedule,
        key is Some && key->0.is_direction() ==> players_in_bounds(entities(final(gs).ecs)),
        positions_in_bounds(entities(old(gs).ecs)) ==> positions_in_bounds(
            entities(final(gs).ecs),
        ),
{
    match key {
        None => {},
        Some(key) => match key {
            Key::Left => try_move_player(-1, 0, &mut gs.ecs),
            Key::Right => try_move_player(1, 0, &mut gs.ecs),
            Key::Up => try_move_player(0, -1, &mut gs.ecs),
            Key::Down => try_move_player(0, 1, &mut gs.ecs),
            Key::Other => {},
        },
    }
}

} // verus!
