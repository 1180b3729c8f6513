//! Core rules of a turn-based tower-defense game: the grid, the turn cycle,
//! enemy waves and enemy movement, stated and proved independently of any
//! game engine.

pub mod enemies;
pub mod game;
pub mod grid_position;
pub mod ldtk_loader;
pub mod level;
pub mod progress;
pub mod state;
pub mod turns;
pub mod ui;
