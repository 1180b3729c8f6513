//! The state of the program as a whole, and what its changes mean for the
//! turn cycle: a gameplay session lasts exactly as long as the program is
//! in the playing state.

use crate::turns::{TurnPart, TurnState};
use vstd::prelude::*;

verus! {

/// Main game state.
#[derive(Hash, Debug, Clone, Copy, PartialEq, Eq, Structural)]
pub enum Main {
    /// Loading game assets!
    LoadingAssets,
    /// A game is running.
    Playing,
    /// We are on the main menu.
    MainMenu,
}

/// Health the player got left.
#[derive(Debug, Clone, Copy, PartialEq, Eq, Structural, Hash)]
pub struct PlayerHealth(pub u8);

/// The health that the player starts a gameplay session with.
pub const PLAYER_START_HEALTH: u8 = 10;

/// Reset health back to default when we enter gameplay.
pub fn reset_health() -> (health: PlayerHealth)
    ensures
        health.0 == PLAYER_START_HEALTH,
{
    PlayerHealth(PLAYER_START_HEALTH)
}

/// The turn state after the program has entered the main state `entered`.
pub open spec fn spec_after_entering(turn: TurnState, entered: Main) -> TurnState {
    if entered == Main::Playing {
        TurnState::InTurn(TurnPart::EnemyTurnStart)
    } else {
        turn
    }
}

/// The turn state after the program has left the main state `left`.
pub open spec fn spec_after_leaving(turn: TurnState, left: Main) -> TurnState {
    if left == Main::Playing {
        TurnState::NoTurn
    } else {
        turn
    }
}

/// Follows the program into the main state `entered`: entering the playing
/// state begins a gameplay session, entering any other state leaves the
/// turn state alone.
pub fn enter_main_state(entered: Main, turn: &mut TurnState)
    ensures
        *final(turn) == spec_after_entering(*old(turn), entered),
{
    if entered == Main::Playing {
        turn.begin_session();
    }
}

/// Follows the program out of the main state `left`: leaving the playing
/// state ends the gameplay session, leaving any other state leaves the turn
/// state alone.
pub fn leave_main_state(left: Main, turn: &mut TurnState)
    ensures
        *final(turn) == spec_after_leaving(*old(turn), left),
{
    if left == Main::Playing {
        turn.end_session();
    }
}

} // verus!
