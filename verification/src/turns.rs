//! The turn cycle: which part of a turn the game is in, and how it moves on.
//!
//! A gameplay session walks through eight parts in a fixed, closed order.
//! Exactly one part is current at any time while a session runs; outside a
//! session there is none. The state only ever moves to the part that follows
//! the current one, and only when the current part is reported complete.

use vstd::prelude::*;

verus! {

/// What part of the turn are we on?
#[derive(Hash, Debug, Clone, Copy, PartialEq, Eq, Structural)]
pub enum TurnPart {
    /// Turn start events are handled.
    EnemyTurnStart,
    /// Potential new enemies are spawned.
    EnemySpawn,
    /// Enemies are moved.
    EnemyMove,
    /// Enemies' end of turn effects activate.
    EnemyTurnEnd,
    /// Start of player turn effects activate.
    PlayerTurnStart,
    /// The player can take an action, like buying a tower.
    PlayerAction,
    /// The player can order towers to attack.
    PlayerAttack,
    /// End of turn effects activate.
    PlayerTurnEnd,
}

/// Are we in a turn, and in which part of it?
#[derive(Hash, Debug, Clone, Copy, PartialEq, Eq, Structural)]
pub enum TurnState {
    /// We are not in gameplay.
    NoTurn,
    /// We are in the middle of a turn part.
    InTurn(TurnPart),
}

/// Number of parts in one full turn.
pub const TURN_LENGTH: usize = 8;

/// The parts of a turn in the order in which they follow each other. The
/// last entry repeats the first: that is what closes the cycle.
pub fn turn_order() -> (order: [TurnPart; 9])
    ensures
        forall|i: int| 0 <= i < 9 ==> order[i] == TurnPart::at(i as nat),
{
    let order = [
        TurnPart::EnemyTurnStart,
        TurnPart::EnemySpawn,
        TurnPart::EnemyMove,
        TurnPart::EnemyTurnEnd,
        TurnPart::PlayerTurnStart,
        TurnPart::PlayerAction,
        TurnPart::PlayerAttack,
        TurnPart::PlayerTurnEnd,
        TurnPart::EnemyTurnStart,
    ];
    assert forall|i: int| 0 <= i < 9 implies order[i] == TurnPart::at(i as nat) by {
        if i == 0 {
        } else if i == 1 {
        } else if i == 2 {
        } else if i == 3 {
        } else if i == 4 {
        } else if i == 5 {
        } else if i == 6 {
        } else if i == 7 {
        } else {
        }
    }
    order
}

impl TurnPart {
    /// Position of this part in the cycle, counted from `EnemyTurnStart`.
    pub open spec fn index(self) -> nat {
        match self {
            TurnPart::EnemyTurnStart => 0,
            TurnPart::EnemySpawn => 1,
            TurnPart::EnemyMove => 2,
            TurnPart::EnemyTurnEnd => 3,
            TurnPart::PlayerTurnStart => 4,
            TurnPart::PlayerAction => 5,
            TurnPart::PlayerAttack => 6,
            TurnPart::PlayerTurnEnd => 7,
        }
    }

    /// The part reached after `steps` transitions from `EnemyTurnStart`.
    pub open spec fn at(steps: nat) -> TurnPart {
        let position = steps % 8;
        if position == 0 {
            TurnPart::EnemyTurnStart
        } else if position == 1 {
            TurnPart::EnemySpawn
        } else if position == 2 {
            TurnPart::EnemyMove
        } else if position == 3 {
            TurnPart::EnemyTurnEnd
        } else if position == 4 {
            TurnPart::PlayerTurnStart
        } else if position == 5 {
            TurnPart::PlayerAction
        } else if position == 6 {
            TurnPart::PlayerAttack
        } else {
            TurnPart::PlayerTurnEnd
        }
    }

    /// The part that follows this one. After `PlayerTurnEnd` the cycle starts
    /// over with `EnemyTurnStart`.
    pub open spec fn spec_next(self) -> TurnPart {
        TurnPart::at(self.index() + 1)
    }

    /// Position of this part in the cycle, counted from `EnemyTurnStart`.
    pub fn cycle_index(self) -> (index: usize)
        ensures
            index == self.index(),
            index < TURN_LENGTH,
    {
        match self {
            TurnPart::EnemyTurnStart => 0,
            TurnPart::EnemySpawn => 1,
            TurnPart::EnemyMove => 2,
            TurnPart::EnemyTurnEnd => 3,
            TurnPart::PlayerTurnStart => 4,
            TurnPart::PlayerAction => 5,
            TurnPart::PlayerAttack => 6,
            TurnPart::PlayerTurnEnd => 7,
        }
    }

    /// The part that follows this one, read from [`turn_order`].
    pub fn next(self) -> (following: TurnPart)
        ensures
            following == self.spec_next(),
    {
        let order = turn_order();
        order[self.cycle_index() + 1]
    }
}

impl TurnState {
    /// The part that is current, if a session is running.
    pub open spec fn spec_current_phase(self) -> Option<TurnPart> {
        match self {
            TurnState::NoTurn => None,
            TurnState::InTurn(part) => Some(part),
        }
    }

    /// The state after one tick: the following part if a session is running
    /// and the current part is complete, the same state otherwise.
    pub open spec fn spec_tick(self, phase_complete: bool) -> TurnState {
        match self {
            TurnState::InTurn(part) if phase_complete => TurnState::InTurn(part.spec_next()),
            _ => self,
        }
    }

    /// The part that a tick enters, if it moves the state at all.
    pub open spec fn spec_entered(self, phase_complete: bool) -> Option<TurnPart> {
        match self {
            TurnState::InTurn(part) if phase_complete => Some(part.spec_next()),
            _ => None,
        }
    }

    /// The state after `count` ticks that each report the current part
    /// complete.
    pub open spec fn tick_times(self, count: nat) -> TurnState
        decreases count,
    {
        if count == 0 {
            self
        } else {
            self.spec_tick(true).tick_times((count - 1) as nat)
        }
    }

    /// The state outside a gameplay session.
    pub fn new() -> (state: TurnState)
        ensures
            state == TurnState::NoTurn,
    {
        TurnState::NoTurn
    }

    /// The part that is current, or `None` when no gameplay session is
    /// active.
    pub fn current_phase(&self) -> (phase: Option<TurnPart>)
        ensures
            phase == self.spec_current_phase(),
    {
        match self {
            TurnState::NoTurn => None,
            TurnState::InTurn(part) => Some(*part),
        }
    }

    /// Starts a gameplay session: whatever the state was, the current part
    /// is now `EnemyTurnStart`, which is also the part returned for the
    /// caller to run its entry effects.
    pub fn begin_session(&mut self) -> (entered: TurnPart)
        ensures
            *final(self) == TurnState::InTurn(TurnPart::EnemyTurnStart),
            final(self).spec_current_phase() == Some(TurnPart::EnemyTurnStart),
            entered == TurnPart::EnemyTurnStart,
    {
        *self = TurnState::InTurn(TurnPart::EnemyTurnStart);
        TurnPart::EnemyTurnStart
    }

    /// Ends the gameplay session: no part is current any more, and ticks
    /// have no effect until a new session begins.
    pub fn end_session(&mut self)
        ensures
            *final(self) == TurnState::NoTurn,
            final(self).spec_current_phase() == None::<TurnPart>,
    {
        *self = TurnState::NoTurn;
    }

    /// Moves on to the following part if a session is running and
    /// `phase_complete` holds; does nothing otherwise. Returns the part that
    /// was entered, exactly when one was: the caller runs that part's entry
    /// effects once for each `Some` it receives.
    pub fn tick(&mut self, phase_complete: bool) -> (entered: Option<TurnPart>)
        ensures
            *final(self) == old(self).spec_tick(phase_complete),
            entered == old(self).spec_entered(phase_complete),
            !phase_complete ==> *final(self) == *old(self),
            entered is Some ==> *final(self) == TurnState::InTurn(entered->0),
            entered is None ==> *final(self) == *old(self),
    {
        match *self {
            TurnState::InTurn(part) => {
                if phase_complete {
                    let following = part.next();
                    *self = TurnState::InTurn(following);
                    Some(following)
                } else {
                    None
                }
            },
            TurnState::NoTurn => None,
        }
    }
}

/// A tick that does not report the current part complete never changes the
/// state, and neither does any tick outside a session.
pub proof fn lemma_tick_without_completion(state: TurnState, phase_complete: bool)
    ensures
        state.spec_tick(false) == state,
        TurnState::NoTurn.spec_tick(phase_complete) == TurnState::NoTurn,
{
}

/// Every part is followed by the one that stands after it in the cycle, and
/// the part after the last one is the first.
pub proof fn lemma_next_follows_cycle(part: TurnPart)
    ensures
        part.spec_next().index() == (part.index() + 1) % 8,
        TurnPart::at(part.index()) == part,
        TurnPart::PlayerTurnEnd.spec_next() == TurnPart::EnemyTurnStart,
{
}

/// Completing `count` parts in a row, starting in `part`, ends in the part
/// that stands `count` places further along the cycle.
pub proof fn lemma_tick_times_from(part: TurnPart, count: nat)
    ensures
        TurnState::InTurn(part).tick_times(count) == TurnState::InTurn(
            TurnPart::at(part.index() + count),
        ),
    decreases count,
{
    if count > 0 {
        let following = part.spec_next();
        lemma_tick_times_from(following, (count - 1) as nat);
        assert(TurnPart::at(following.index() + (count - 1) as nat) == TurnPart::at(
            part.index() + count,
        ));
    }
}

/// Completing `count` parts in a row from `EnemyTurnStart` lands on the part
/// at position `count mod 8` of the cycle.
pub proof fn lemma_tick_times_from_start(count: nat)
    ensures
        TurnState::InTurn(TurnPart::EnemyTurnStart).tick_times(count) == TurnState::InTurn(
            TurnPart::at(count),
        ),
        TurnPart::at(count).index() == count % 8,
{
    lemma_tick_times_from(TurnPart::EnemyTurnStart, count);
}

/// Outside a session no number of ticks starts one.
pub proof fn lemma_tick_times_idle(count: nat)
    ensures
        TurnState::NoTurn.tick_times(count) == TurnState::NoTurn,
    decreases count,
{
    if count > 0 {
        lemma_tick_times_idle((count - 1) as nat);
    }
}

} // verus!
