//! Core simulation of a tile-grid overworld: a player and enemies on a grid,
//! enemies moving in lock-step with the player's moves, encounters detected by
//! position, and a game-mode machine that switches into battle.
pub mod grid;
pub mod keys;
pub mod entities;
pub mod random;
pub mod collision;
pub mod state;
pub mod world;

pub use crate::collision::{battle_check, CollisionPolicy};
pub use crate::entities::{
    apply_enemy_moves, move_enemy, move_player, Enemy, EnemyBundle, GameTickEvent, Player, PlayerBundle,
};
pub use crate::grid::{Direction, Position};
pub use crate::keys::{Directions, KeyTracker};
pub use crate::random::draw_directions;
pub use crate::state::{AppState, ModeStack};
pub use crate::world::{setup_world, World};
