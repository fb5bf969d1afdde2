//! Per-frame movement, confinement and bounce rules of a small arcade game:
//! a player sprite steered by the keyboard and a fixed number of enemy sprites
//! that travel in straight lines and bounce off the window's edges.
//!
//! All lengths are integers in micro-pixels and all headings are integers in
//! thousandths, so every rule below is exact arithmetic.
pub mod config;
pub mod entities;
pub mod movement;
pub mod confinement;
pub mod bounce;
pub mod spawn;

pub use config::{
    Config, Window, DIAGONAL, DIRECTION_SCALE, ENEMY_SIZE, ENEMY_SPEED, HALF_PIXEL_UNITS,
    NUMBER_OF_ENEMIES, PLAYER_SIZE, PLAYER_SPEED, UNITS_PER_PIXEL,
};
pub use entities::{Direction, Enemy, Keys, Player, Position, World};
pub use movement::{enemy_movement, player_movement};
pub use confinement::{confine_enemy_movement, confine_player_movement};
pub use bounce::update_enemy_direction;
pub use spawn::{enemy_from_draws, spawn_camera, spawn_enemies, spawn_player, HEADING_DRAWS};
