//! Put boats on enemies that are on water.

use crate::grid_position::GridPosition;
use crate::ldtk_loader::{get_tile_type_at, IntGridLayer, IntGridView, TileType};
use vstd::prelude::*;

verus! {

/// What is to be done about the boat of one enemy.
#[derive(Debug, Clone, Copy, PartialEq, Eq, Structural, Hash)]
pub enum BoatAction {
    /// The enemy has entered water without a boat: it shrinks to half its
    /// size and gets a boat.
    Spawn,
    /// The enemy has left the water with a boat: the boat goes and the
    /// enemy doubles in size again.
    Despawn,
    /// Nothing changes.
    Keep,
}

/// An enemy as the boats see it.
#[derive(Debug, Clone, Copy, PartialEq, Eq, Structural, Hash)]
pub struct BoatPassenger {
    /// The grid cell that the enemy has just moved to.
    pub position: GridPosition,
    /// Does the enemy have a boat at the moment?
    pub has_boat: bool,
}

/// What is to be done about the boat of an enemy that stands on a tile of
/// type `tile_type`.
pub open spec fn spec_boat_action(tile_type: TileType, has_boat: bool) -> BoatAction {
    if tile_type == TileType::Water && !has_boat {
        BoatAction::Spawn
    } else if tile_type != TileType::Water && has_boat {
        BoatAction::Despawn
    } else {
        BoatAction::Keep
    }
}

/// What is to be done about the boat of `passenger` on the level `tilemap`.
pub open spec fn spec_passenger_action(tilemap: IntGridView, passenger: BoatPassenger) -> BoatAction {
    spec_boat_action(tilemap.tile_type_at(passenger.position), passenger.has_boat)
}

/// Decides about the boat of one enemy: spawn one if the enemy is on water
/// and does not have a boat, despawn it if the enemy is not on water and
/// has one, and leave things as they are otherwise.
pub fn boat_action(tile_type: TileType, has_boat: bool) -> (action: BoatAction)
    ensures
        action == spec_boat_action(tile_type, has_boat),
{
    if tile_type == TileType::Water && !has_boat {
        BoatAction::Spawn
    } else if tile_type != TileType::Water && has_boat {
        BoatAction::Despawn
    } else {
        BoatAction::Keep
    }
}

/// Spawn boat under enemies on water. `passengers` are the enemies whose
/// grid position has changed; the result says for each of them, in the
/// same order, what is to be done about its boat, going by the tile of
/// `tilemap` that it now stands on.
pub fn spawn_despawn_boats(tilemap: &IntGridLayer, passengers: &Vec<BoatPassenger>) -> (actions: Vec<
    BoatAction,
>)
    ensures
        actions.len() == passengers.len(),
        forall|i: int|
            0 <= i < passengers.len() ==> #[trigger] actions[i] == spec_passenger_action(
                tilemap@,
                passengers[i],
            ),
{
    let mut actions: Vec<BoatAction> = Vec::new();
    let mut i: usize = 0;
    while i < passengers.len()
        invariant
            i <= passengers.len(),
            actions.len() == i,
            forall|j: int|
                0 <= j < i ==> #[trigger] actions[j] == spec_passenger_action(
                    tilemap@,
                    passengers[j],
                ),
        decreases passengers.len() - i,
    {
        let passenger = passengers[i];
        let tile_type = get_tile_type_at(tilemap, passenger.position);
        actions.push(boat_action(tile_type, passenger.has_boat));
        i += 1;
    }
    actions
}

} // verus!
