//! Enemies: what kinds there are, what each one carries, and what happens
//! to them when the enemy parts of a turn are entered.

pub mod enemy_boat;
pub mod enemy_components;
pub mod enemy_systems;
pub mod enemy_types;
