//! What the user interface shows of the rules' state: the icon of the
//! current part of the turn, and the filling of health bars.

use crate::enemies::enemy_components::EnemyHealth;
use crate::enemies::enemy_types::{spec_enemy_health, EnemyType};
use crate::turns::{TurnPart, TurnState};
use vstd::prelude::*;

verus! {

/// Number of icons on the sheet of turn icons: two rows of four.
pub const TURN_ICONS: usize = 8;

/// Current progress of a track bar: how many of its units are filled.
#[derive(Debug, Clone, Copy, PartialEq, Eq, Structural, Hash)]
pub struct TrackbarProgess(pub usize);

/// What a track bar measures against.
#[derive(Debug, Clone, Copy, PartialEq, Eq, Structural, Hash)]
pub struct TrackbarSettings {
    /// Total amount: the number of units of a bar that is full.
    pub total: usize,
}

/// The place on the sheet of turn icons of the icon for `state`.
pub open spec fn spec_turn_icon(state: TurnState) -> usize {
    match state {
        TurnState::NoTurn => 0,
        TurnState::InTurn(part) => match part {
            TurnPart::EnemyTurnStart => 4,
            TurnPart::EnemySpawn => 0,
            TurnPart::EnemyMove => 1,
            TurnPart::EnemyTurnEnd => 5,
            TurnPart::PlayerTurnStart => 6,
            TurnPart::PlayerAction => 2,
            TurnPart::PlayerAttack => 3,
            TurnPart::PlayerTurnEnd => 7,
        },
    }
}

/// Set turn icon: the place on the sheet of turn icons of the icon to show
/// while the turn state is `state`. The four parts in which something is
/// seen to happen have the icons of the first row, the four others those of
/// the second; outside a session the first icon is shown.
pub fn turn_icon(state: TurnState) -> (index: usize)
    ensures
        index == spec_turn_icon(state),
        index < TURN_ICONS,
{
    match state {
        TurnState::NoTurn => 0,
        TurnState::InTurn(part) => match part {
            TurnPart::EnemyTurnStart => 4,
            TurnPart::EnemySpawn => 0,
            TurnPart::EnemyMove => 1,
            TurnPart::EnemyTurnEnd => 5,
            TurnPart::PlayerTurnStart => 6,
            TurnPart::PlayerAction => 2,
            TurnPart::PlayerAttack => 3,
            TurnPart::PlayerTurnEnd => 7,
        },
    }
}

/// No two parts of the turn share an icon.
pub proof fn lemma_turn_icons_differ(first: TurnPart, second: TurnPart)
    requires
        first != second,
    ensures
        spec_turn_icon(TurnState::InTurn(first)) != spec_turn_icon(TurnState::InTurn(second)),
{
}

/// The health bar of a fresh enemy of `enemy_type`: full at the health
/// that the type starts with.
pub fn health_bar_settings(enemy_type: EnemyType) -> (settings: TrackbarSettings)
    ensures
        settings.total == spec_enemy_health(enemy_type),
{
    TrackbarSettings { total: enemy_type.enemy_health() as usize }
}

/// Set healthbar progress to the current health.
pub fn update_healthbar(health: EnemyHealth, progress: &mut TrackbarProgess)
    ensures
        final(progress).0 == health.0,
{
    progress.0 = health.0 as usize;
}

} // verus!
