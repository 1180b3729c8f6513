use ttd_core::enemies::enemy_components::{EnemyPath, EnemySpawnerBundle, EnemyWaves};
use ttd_core::enemies::enemy_systems::Movement;
use ttd_core::enemies::enemy_types::EnemyType;
use ttd_core::game::{Game, PhaseEffects};
use ttd_core::grid_position::GridPosition;
use ttd_core::turns::{TurnPart, TurnState};

const MS: u64 = 1_000_000;

fn p(x: i32, y: i32) -> GridPosition {
    GridPosition::new(x, y)
}

fn game() -> Game {
    Game::new(vec![EnemySpawnerBundle {
        wave: EnemyWaves::new(vec![Some(EnemyType::Slime), None, Some(EnemyType::Orc)]),
        path: EnemyPath::new(vec![p(2, 0), p(2, 2)]),
        location: p(0, 0),
    }])
}

fn is_nothing(effects: &PhaseEffects) -> bool {
    matches!(effects, PhaseEffects::Nothing)
}

#[test]
fn a_new_game_is_idle() {
    let mut g = game();
    assert_eq!(g.current_phase(), None);
    assert_eq!(g.turn, TurnState::NoTurn);
    assert!(g.enemies.is_empty());
    assert!(is_nothing(&g.tick(true)));
    assert!(is_nothing(&g.frame(1000 * MS, &vec![])));
    assert_eq!(g.current_phase(), None);
    assert_eq!(g.spawners[0].wave.0, 0);
    assert!(g.enemies.is_empty());
}

#[test]
fn sessions_begin_at_enemy_turn_start_and_end_idle() {
    let mut g = game();
    g.begin_session();
    assert_eq!(g.current_phase(), Some(TurnPart::EnemyTurnStart));
    g.tick(true);
    g.tick(true);
    g.end_session();
    assert_eq!(g.current_phase(), None);
    assert_eq!(g.enemies.len(), 1);
    assert_eq!(g.spawners[0].wave.0, 1);
    assert!(is_nothing(&g.tick(true)));
    assert_eq!(g.enemies.len(), 1);
    g.begin_session();
    assert_eq!(g.current_phase(), Some(TurnPart::EnemyTurnStart));
}

#[test]
fn an_incomplete_part_changes_nothing() {
    let mut g = game();
    g.begin_session();
    for _ in 0..5 {
        assert!(is_nothing(&g.tick(false)));
    }
    assert_eq!(g.current_phase(), Some(TurnPart::EnemyTurnStart));
    assert_eq!(g.spawners[0].wave.0, 0);
    assert!(g.enemies.is_empty());
}

#[test]
fn entering_the_spawn_part_spawns_once() {
    let mut g = game();
    g.begin_session();
    match g.tick(true) {
        PhaseEffects::Spawned(spawned) => {
            assert_eq!(spawned.len(), 1);
            let enemy = spawned[0].as_ref().unwrap();
            assert_eq!(enemy.enemy_type, EnemyType::Slime);
            assert_eq!(enemy.grid_location, p(0, 0));
        }
        _ => panic!("the spawn part spawns"),
    }
    assert_eq!(g.current_phase(), Some(TurnPart::EnemySpawn));
    assert_eq!(g.enemies.len(), 1);
    assert_eq!(g.enemies[0].enemy_type, EnemyType::Slime);
    assert_eq!(g.enemies[0].path.1, vec![p(2, 0), p(2, 2)]);
    assert_eq!(g.spawners[0].wave.0, 1);
    assert!(is_nothing(&g.tick(false)));
    assert_eq!(g.enemies.len(), 1);
    assert_eq!(g.spawners[0].wave.0, 1);
}

#[test]
fn entering_the_move_part_moves_once() {
    let mut g = game();
    g.begin_session();
    g.tick(true);
    match g.tick(true) {
        PhaseEffects::Moved(movements) => {
            assert_eq!(movements, vec![Some(Movement { from: p(0, 0), to: p(1, 0) })]);
        }
        _ => panic!("the move part moves"),
    }
    assert_eq!(g.current_phase(), Some(TurnPart::EnemyMove));
    assert_eq!(g.enemies[0].grid_location, p(1, 0));
    assert_eq!(g.spawners[0].wave.0, 1);
    assert_eq!(g.spawners[0].path.0, 0);
    for part in [
        TurnPart::EnemyTurnEnd,
        TurnPart::PlayerTurnStart,
        TurnPart::PlayerAction,
        TurnPart::PlayerAttack,
        TurnPart::PlayerTurnEnd,
        TurnPart::EnemyTurnStart,
    ] {
        assert!(is_nothing(&g.tick(true)));
        assert_eq!(g.current_phase(), Some(part));
        assert_eq!(g.enemies[0].grid_location, p(1, 0));
        assert_eq!(g.enemies.len(), 1);
    }
}

#[test]
fn three_turns_of_a_game() {
    let mut g = game();
    g.begin_session();
    for _ in 0..24 {
        g.tick(true);
    }
    assert_eq!(g.current_phase(), Some(TurnPart::EnemyTurnStart));
    assert_eq!(g.spawners[0].wave.0, 3);
    assert_eq!(g.enemies.len(), 2);
    assert_eq!(g.enemies[0].enemy_type, EnemyType::Slime);
    assert_eq!(g.enemies[0].grid_location, p(2, 1));
    assert_eq!(g.enemies[0].path.0, 1);
    assert_eq!(g.enemies[1].enemy_type, EnemyType::Orc);
    assert_eq!(g.enemies[1].grid_location, p(1, 0));
    assert_eq!(g.enemies[1].path.0, 0);
    for _ in 0..8 {
        g.tick(true);
    }
    assert_eq!(g.spawners[0].wave.0, 3);
    assert_eq!(g.enemies.len(), 2);
    assert_eq!(g.enemies[0].grid_location, p(2, 2));
    assert!(g.enemies[0].path.arrived());
    assert_eq!(g.enemies[1].grid_location, p(2, 0));
}

#[test]
fn a_frame_waits_for_the_minimum_time() {
    let mut g = game();
    g.begin_session();
    assert!(is_nothing(&g.frame(20 * MS, &vec![])));
    assert!(is_nothing(&g.frame(20 * MS, &vec![])));
    assert_eq!(g.current_phase(), Some(TurnPart::EnemyTurnStart));
    assert_eq!(g.timer.elapsed_nanos, 40 * MS);
    assert!(matches!(g.frame(10 * MS, &vec![]), PhaseEffects::Spawned(_)));
    assert_eq!(g.current_phase(), Some(TurnPart::EnemySpawn));
    assert_eq!(g.enemies.len(), 1);
}

#[test]
fn a_frame_waits_for_the_animations() {
    let mut g = game();
    g.begin_session();
    g.frame(60 * MS, &vec![]);
    assert_eq!(g.current_phase(), Some(TurnPart::EnemySpawn));
    assert!(is_nothing(&g.frame(60 * MS, &vec![10])));
    assert!(is_nothing(&g.frame(60 * MS, &vec![99])));
    assert_eq!(g.current_phase(), Some(TurnPart::EnemySpawn));
    assert_eq!(g.timer.elapsed_nanos, 120 * MS);
    assert!(matches!(g.frame(1, &vec![100]), PhaseEffects::Moved(_)));
    assert_eq!(g.current_phase(), Some(TurnPart::EnemyMove));
    assert_eq!(g.enemies[0].grid_location, p(1, 0));
}

#[test]
fn every_part_gets_its_own_minimum_time() {
    let mut g = game();
    g.begin_session();
    g.frame(500 * MS, &vec![]);
    assert_eq!(g.current_phase(), Some(TurnPart::EnemySpawn));
    assert!(is_nothing(&g.frame(49 * MS, &vec![])));
    assert_eq!(g.timer.elapsed_nanos, 49 * MS);
    assert_eq!(g.timer.state, TurnState::InTurn(TurnPart::EnemySpawn));
    g.frame(MS, &vec![]);
    assert_eq!(g.current_phase(), Some(TurnPart::EnemyMove));
}
