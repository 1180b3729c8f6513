//! One gameplay session as a whole: the turn cycle together with the
//! spawners and enemies that it drives.
//!
//! The turn state decides when a part of the turn is entered; entering a
//! part is the only moment at which spawners and enemies change. The spawn
//! part lets every spawner consume one wave, the move part lets every enemy
//! take one step, and the other parts leave both alone. Each entry has its
//! effect exactly once.

use crate::enemies::enemy_components::{
    EnemyBundle, EnemySpawnerBundle, EnemyView, SpawnerView,
};
use crate::enemies::enemy_systems::{move_enemies, spawn_enemies, view_of, Movement};
use crate::progress::{
    all_finished, is_phase_complete, make_sure_turn_is_long_enough, TurnTimer, MAX_ANIMATIONS,
};
use crate::turns::{TurnPart, TurnState};
use vstd::prelude::*;

verus! {

/// A gameplay session: the turn state, the timer that measures the current
/// part, and the spawners and enemies on the field.
#[derive(Debug)]
pub struct Game {
    /// Which part of the turn is current.
    pub turn: TurnState,
    /// How long the current part has lasted.
    pub timer: TurnTimer,
    /// The enemy spawners of the level.
    pub spawners: Vec<EnemySpawnerBundle>,
    /// The enemies on the field, in the order in which they appeared.
    pub enemies: Vec<EnemyBundle>,
}

/// What entering a part of the turn did, for the presentation to show.
#[derive(Debug)]
pub enum PhaseEffects {
    /// No part was entered, or one that leaves spawners and enemies alone.
    Nothing,
    /// The spawn part was entered. One entry for each spawner: the enemy
    /// that it brought forth, if any. Each of them is owed its entry
    /// animation.
    Spawned(Vec<Option<EnemyBundle>>),
    /// The move part was entered. One entry for each enemy: the step that
    /// it took, if any. Each of them is owed its move animation.
    Moved(Vec<Option<Movement>>),
}

/// A gameplay session as a mathematical value.
pub struct GameView {
    /// See [`Game::turn`].
    pub turn: TurnState,
    /// See [`Game::timer`].
    pub timer: TurnTimer,
    /// See [`Game::spawners`].
    pub spawners: Seq<SpawnerView>,
    /// See [`Game::enemies`].
    pub enemies: Seq<EnemyView>,
}

/// The effects of entering a part as a mathematical value.
pub enum PhaseEffectsView {
    /// See [`PhaseEffects::Nothing`].
    Nothing,
    /// See [`PhaseEffects::Spawned`].
    Spawned(Seq<Option<EnemyView>>),
    /// See [`PhaseEffects::Moved`].
    Moved(Seq<Option<Movement>>),
}

/// The spawners of `spawners` as mathematical values.
pub open spec fn spawner_views(spawners: Seq<EnemySpawnerBundle>) -> Seq<SpawnerView> {
    spawners.map_values(|spawner: EnemySpawnerBundle| spawner@)
}

/// The enemies of `enemies` as mathematical values.
pub open spec fn enemy_views(enemies: Seq<EnemyBundle>) -> Seq<EnemyView> {
    enemies.map_values(|enemy: EnemyBundle| enemy@)
}

/// The enemies that are there among `spawned`, in their order.
pub open spec fn present(spawned: Seq<Option<EnemyView>>) -> Seq<EnemyView>
    decreases spawned.len(),
{
    if spawned.len() == 0 {
        Seq::empty()
    } else {
        match spawned.last() {
            Some(enemy) => present(spawned.drop_last()).push(enemy),
            None => present(spawned.drop_last()),
        }
    }
}

impl View for Game {
    type V = GameView;

    open spec fn view(&self) -> GameView {
        GameView {
            turn: self.turn,
            timer: self.timer,
            spawners: spawner_views(self.spawners@),
            enemies: enemy_views(self.enemies@),
        }
    }
}

impl View for PhaseEffects {
    type V = PhaseEffectsView;

    open spec fn view(&self) -> PhaseEffectsView {
        match self {
            PhaseEffects::Nothing => PhaseEffectsView::Nothing,
            PhaseEffects::Spawned(spawned) => PhaseEffectsView::Spawned(
                spawned@.map_values(|enemy: Option<EnemyBundle>| view_of(enemy)),
            ),
            PhaseEffects::Moved(movements) => PhaseEffectsView::Moved(movements@),
        }
    }
}

impl GameView {
    /// What every spawner brings forth when the spawn part is entered.
    pub open spec fn spawned(self) -> Seq<Option<EnemyView>> {
        self.spawners.map_values(|spawner: SpawnerView| spawner.spawned())
    }

    /// The step that every enemy takes when the move part is entered.
    pub open spec fn movements(self) -> Seq<Option<Movement>> {
        self.enemies.map_values(|enemy: EnemyView| enemy.movement())
    }

    /// The session after `part` was entered, the turn state apart: the spawn
    /// part makes every spawner consume one wave and adds the enemies that
    /// they bring forth behind the ones already there; the move part makes
    /// every enemy take its step; any other part changes nothing.
    pub open spec fn after_entering(self, part: TurnPart) -> GameView {
        match part {
            TurnPart::EnemySpawn => GameView {
                turn: self.turn,
                timer: self.timer,
                spawners: self.spawners.map_values(|spawner: SpawnerView| spawner.after_spawn()),
                enemies: self.enemies + present(self.spawned()),
            },
            TurnPart::EnemyMove => GameView {
                turn: self.turn,
                timer: self.timer,
                spawners: self.spawners,
                enemies: self.enemies.map_values(|enemy: EnemyView| enemy.after_move()),
            },
            _ => self,
        }
    }

    /// What entering `part` has to show.
    pub open spec fn effects_of_entering(self, part: TurnPart) -> PhaseEffectsView {
        match part {
            TurnPart::EnemySpawn => PhaseEffectsView::Spawned(self.spawned()),
            TurnPart::EnemyMove => PhaseEffectsView::Moved(self.movements()),
            _ => PhaseEffectsView::Nothing,
        }
    }

    /// The session after one tick: if a session is running and the current
    /// part is complete, the following part is current and has been entered;
    /// otherwise nothing has changed.
    pub open spec fn spec_tick(self, phase_complete: bool) -> GameView {
        match self.turn.spec_entered(phase_complete) {
            Some(part) => GameView {
                turn: TurnState::InTurn(part),
                timer: self.timer,
                spawners: self.after_entering(part).spawners,
                enemies: self.after_entering(part).enemies,
            },
            None => self,
        }
    }

    /// What one tick has to show.
    pub open spec fn spec_tick_effects(self, phase_complete: bool) -> PhaseEffectsView {
        match self.turn.spec_entered(phase_complete) {
            Some(part) => self.effects_of_entering(part),
            None => PhaseEffectsView::Nothing,
        }
    }

    /// The session with the time of one frame counted.
    pub open spec fn with_frame_time(self, delta_nanos: u64) -> GameView {
        GameView {
            turn: self.turn,
            timer: self.timer.spec_tick(self.turn, delta_nanos),
            spawners: self.spawners,
            enemies: self.enemies,
        }
    }

    /// Is the current part complete after a frame of `delta_nanos` in which
    /// the animations have run as far as `percents` say?
    pub open spec fn spec_is_phase_complete(self, delta_nanos: u64, percents: Seq<u32>) -> bool {
        self.with_frame_time(delta_nanos).timer.spec_finished() && all_finished(percents)
    }

    /// The session after one frame: the frame's time is counted, and the
    /// session ticks according to whether the current part is complete.
    pub open spec fn spec_frame(self, delta_nanos: u64, percents: Seq<u32>) -> GameView {
        self.with_frame_time(delta_nanos).spec_tick(
            self.spec_is_phase_complete(delta_nanos, percents),
        )
    }

    /// What one frame has to show.
    pub open spec fn spec_frame_effects(self, delta_nanos: u64, percents: Seq<u32>) -> PhaseEffectsView {
        self.with_frame_time(delta_nanos).spec_tick_effects(
            self.spec_is_phase_complete(delta_nanos, percents),
        )
    }

    /// The session after `count` ticks that each report the current part
    /// complete.
    pub open spec fn tick_times(self, count: nat) -> GameView
        decreases count,
    {
        if count == 0 {
            self
        } else {
            self.spec_tick(true).tick_times((count - 1) as nat)
        }
    }
}

impl Game {
    /// A game that is not in a session yet, with the given spawners and no
    /// enemies.
    pub fn new(spawners: Vec<EnemySpawnerBundle>) -> (game: Game)
        ensures
            game@ == (GameView {
                turn: TurnState::NoTurn,
                timer: TurnTimer { state: TurnState::NoTurn, elapsed_nanos: 0 },
                spawners: spawner_views(spawners@),
                enemies: Seq::empty(),
            }),
    {
        let game = Game {
            turn: TurnState::new(),
            timer: TurnTimer::new(),
            spawners,
            enemies: Vec::new(),
        };
        assert(enemy_views(game.enemies@) =~= Seq::empty());
        game
    }

    /// The part that is current, or `None` when no gameplay session is
    /// active.
    pub fn current_phase(&self) -> (phase: Option<TurnPart>)
        ensures
            phase == self@.turn.spec_current_phase(),
    {
        self.turn.current_phase()
    }

    /// Starts a gameplay session: `EnemyTurnStart` is now current. Entering
    /// it changes neither spawners nor enemies.
    pub fn begin_session(&mut self)
        ensures
            final(self)@.turn == TurnState::InTurn(TurnPart::EnemyTurnStart),
            final(self)@.turn.spec_current_phase() == Some(TurnPart::EnemyTurnStart),
            final(self)@.timer == old(self)@.timer,
            final(self)@.spawners == old(self)@.spawners,
            final(self)@.enemies == old(self)@.enemies,
    {
        self.turn.begin_session();
    }

    /// Ends the gameplay session: no part is current any more. Spawners and
    /// enemies are left for their owner to remove.
    pub fn end_session(&mut self)
        ensures
            final(self)@.turn == TurnState::NoTurn,
            final(self)@.turn.spec_current_phase() == None::<TurnPart>,
            final(self)@.timer == old(self)@.timer,
            final(self)@.spawners == old(self)@.spawners,
            final(self)@.enemies == old(self)@.enemies,
    {
        self.turn.end_session();
    }

    /// Runs the entry effects of `part` on spawners and enemies.
    fn enter(&mut self, part: TurnPart) -> (effects: PhaseEffects)
        ensures
            final(self)@.turn == old(self)@.turn,
            final(self)@.timer == old(self)@.timer,
            final(self)@.spawners == old(self)@.after_entering(part).spawners,
            final(self)@.enemies == old(self)@.after_entering(part).enemies,
            effects@ == old(self)@.effects_of_entering(part),
    {
        match part {
            TurnPart::EnemySpawn => {
                let ghost before = self@;
                let spawned = spawn_enemies(&mut self.spawners);
                let ghost spawned_views = spawned@.map_values(
                    |enemy: Option<EnemyBundle>| view_of(enemy),
                );
                assert(spawned_views =~= before.spawned());
                assert(spawner_views(self.spawners@) =~= before.spawners.map_values(
                    |spawner: SpawnerView| spawner.after_spawn(),
                ));
                let mut i: usize = 0;
                while i < spawned.len()
                    invariant
                        i <= spawned.len(),
                        spawned_views == spawned@.map_values(
                            |enemy: Option<EnemyBundle>| view_of(enemy),
                        ),
                        self.turn == before.turn,
                        self.timer == before.timer,
                        spawner_views(self.spawners@) == before.spawners.map_values(
                            |spawner: SpawnerView| spawner.after_spawn(),
                        ),
                        enemy_views(self.enemies@) == before.enemies + present(
                            spawned_views.take(i as int),
                        ),
                    decreases spawned.len() - i,
                {
                    proof {
                        let seen = spawned_views.take(i as int + 1);
                        assert(seen.drop_last() =~= spawned_views.take(i as int));
                        assert(seen.last() == view_of(spawned[i as int]));
                    }
                    let ghost enemies_before = enemy_views(self.enemies@);
                    match &spawned[i] {
                        Some(enemy) => {
                            self.enemies.push(enemy.clone());
                            assert(enemy_views(self.enemies@) =~= enemies_before.push(enemy@));
                        },
                        None => {},
                    }
                    i += 1;
                }
                assert(spawned_views.take(i as int) =~= spawned_views);
                PhaseEffects::Spawned(spawned)
            },
            TurnPart::EnemyMove => {
                let ghost before = self@;
                let movements = move_enemies(&mut self.enemies);
                assert(enemy_views(self.enemies@) =~= before.enemies.map_values(
                    |enemy: EnemyView| enemy.after_move(),
                ));
                assert(movements@ =~= before.movements());
                PhaseEffects::Moved(movements)
            },
            _ => PhaseEffects::Nothing,
        }
    }

    /// Moves on to the following part of the turn if a session is running
    /// and `phase_complete` holds, and runs the entry effects of that part,
    /// once; does nothing otherwise. Returns what the entry has to show.
    pub fn tick(&mut self, phase_complete: bool) -> (effects: PhaseEffects)
        ensures
            final(self)@ == old(self)@.spec_tick(phase_complete),
            effects@ == old(self)@.spec_tick_effects(phase_complete),
            !phase_complete ==> final(self)@ == old(self)@,
            old(self)@.turn == TurnState::NoTurn ==> final(self)@ == old(self)@,
    {
        match self.turn.tick(phase_complete) {
            Some(part) => self.enter(part),
            None => PhaseEffects::Nothing,
        }
    }

    /// One frame of the session. Counts the frame's time `delta_nanos`
    /// towards the minimum duration of the current part, decides
    /// whether the part is complete, given how far the animations have run
    /// (`percents`, one entry for each animation that is under way), and
    /// ticks accordingly. Returns what the frame has to show.
    pub fn frame(&mut self, delta_nanos: u64, percents: &Vec<u32>) -> (effects: PhaseEffects)
        requires
            percents.len() <= MAX_ANIMATIONS,
        ensures
            final(self)@ == old(self)@.spec_frame(delta_nanos, percents@),
            effects@ == old(self)@.spec_frame_effects(delta_nanos, percents@),
    {
        make_sure_turn_is_long_enough(&mut self.timer, self.turn, delta_nanos);
        let complete = is_phase_complete(&self.timer, percents);
        self.tick(complete)
    }
}

/// A frame moves the turn on only when the part is complete: while an
/// animation is unfinished, or the minimum time has not passed, the frame
/// counts its time and changes nothing else, and has nothing to show. That
/// holds with animations and without.
pub proof fn lemma_frame_waits(game: GameView, delta_nanos: u64, percents: Seq<u32>)
    requires
        !all_finished(percents) || !game.with_frame_time(delta_nanos).timer.spec_finished(),
    ensures
        game.spec_frame(delta_nanos, percents) == game.with_frame_time(delta_nanos),
        game.spec_frame(delta_nanos, percents).turn == game.turn,
        game.spec_frame(delta_nanos, percents).spawners == game.spawners,
        game.spec_frame(delta_nanos, percents).enemies == game.enemies,
        game.spec_frame_effects(delta_nanos, percents) == PhaseEffectsView::Nothing,
{
}

/// Outside a session no number of ticks changes anything.
pub proof fn lemma_idle_game_stays(game: GameView, count: nat)
    requires
        game.turn == TurnState::NoTurn,
    ensures
        game.tick_times(count) == game,
    decreases count,
{
    if count > 0 {
        lemma_idle_game_stays(game, (count - 1) as nat);
    }
}

/// One full turn, from `EnemyTurnStart` back to `EnemyTurnStart`, enters
/// the spawn part once and then the move part once, and nothing else
/// touches spawners or enemies: every spawner has consumed exactly one
/// wave, and every enemy, the ones just spawned included, has taken exactly
/// one step.
pub proof fn lemma_full_turn(game: GameView)
    requires
        game.turn == TurnState::InTurn(TurnPart::EnemyTurnStart),
    ensures
        game.tick_times(8).turn == TurnState::InTurn(TurnPart::EnemyTurnStart),
        game.tick_times(8).timer == game.timer,
        game.tick_times(8).spawners == game.spawners.map_values(
            |spawner: SpawnerView| spawner.after_spawn(),
        ),
        game.tick_times(8).enemies == (game.enemies + present(game.spawned())).map_values(
            |enemy: EnemyView| enemy.after_move(),
        ),
{
    let spawn = game.spec_tick(true);
    assert(spawn.turn == TurnState::InTurn(TurnPart::EnemySpawn));
    let moved = spawn.spec_tick(true);
    assert(moved.turn == TurnState::InTurn(TurnPart::EnemyMove));
    let g3 = moved.spec_tick(true);
    assert(g3.turn == TurnState::InTurn(TurnPart::EnemyTurnEnd));
    let g4 = g3.spec_tick(true);
    assert(g4.turn == TurnState::InTurn(TurnPart::PlayerTurnStart));
    let g5 = g4.spec_tick(true);
    assert(g5.turn == TurnState::InTurn(TurnPart::PlayerAction));
    let g6 = g5.spec_tick(true);
    assert(g6.turn == TurnState::InTurn(TurnPart::PlayerAttack));
    let g7 = g6.spec_tick(true);
    assert(g7.turn == TurnState::InTurn(TurnPart::PlayerTurnEnd));
    let g8 = g7.spec_tick(true);
    assert(g8.turn == TurnState::InTurn(TurnPart::EnemyTurnStart));
    assert(g8.spawners == moved.spawners && g8.enemies == moved.enemies);
    assert(g8.tick_times(0) == g8);
    assert(g7.tick_times(1) == g8);
    assert(g6.tick_times(2) == g8);
    assert(g5.tick_times(3) == g8);
    assert(g4.tick_times(4) == g8);
    assert(g3.tick_times(5) == g8);
    assert(moved.tick_times(6) == g8);
    assert(spawn.tick_times(7) == g8);
    assert(game.tick_times(8) == g8);
}

} // verus!
