//! A player glyph that the arrow keys move over an 80x50 grid, and ten
//! entities that drift to the left and wrap around, kept in an
//! entity-component store.

pub mod components;
pub mod glyph;
pub mod input;
pub mod laws;
pub mod state;
pub mod store;
pub mod systems;

pub use components::{Color, LeftMover, Player, Position, Renderable};
pub use input::{player_input, try_move_player, Key};
pub use state::State;
pub use systems::{create_walker_system, System};
