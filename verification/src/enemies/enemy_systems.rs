//! What happens to spawners and enemies when the spawn part and the move
//! part of a turn are entered.
//!
//! Both run once for each visit of their part, for all spawners or all
//! enemies in one go. What one spawner or enemy does never depends on
//! another, so the order among them carries no meaning. Every enemy that
//! appears and every enemy that moves asks for one animation; the part of
//! the turn is not complete before those animations are (see
//! [`crate::progress`]).

use crate::enemies::enemy_components::{
    EnemyBundle, EnemyPath, EnemySpawnerBundle, EnemyView, EnemyWaves, PathView, SpawnerView,
    WavesView,
};
use crate::grid_position::{step_distance, walk, GridPosition, TILE_SIZE};
use vstd::prelude::*;

verus! {

/// How long the animation lasts in which a new enemy grows from nothing to
/// its full size, in milliseconds.
pub const SPAWN_ANIMATION_MS: u64 = 1000;

/// How long the animation lasts in which an enemy slides from one cell to
/// the next, in milliseconds.
pub const MOVE_ANIMATION_MS: u64 = 300;

/// One step of one enemy: the cell it left and the cell it entered. The
/// enemy's drawing is to slide from the one to the other.
#[derive(Debug, Clone, Copy, PartialEq, Eq, Structural, Hash)]
pub struct Movement {
    /// The cell that the enemy occupied before the step.
    pub from: GridPosition,
    /// The cell that the enemy occupies after the step.
    pub to: GridPosition,
}

impl Movement {
    /// The step as a displacement: -1, 0 or 1 along each axis.
    pub fn direction(self) -> (step: GridPosition)
        ensures
            step == self.from.spec_direction_to(self.to),
    {
        self.from.direction_to(self.to)
    }

    /// How far the enemy's drawing has to slide for this step, in world
    /// units along each axis: from where it stands to where it stands
    /// displaced by one cell's size for each cell of the step.
    pub fn world_offset(self) -> (offset: (i64, i64))
        ensures
            offset.0 == (self.to.x - self.from.x) * TILE_SIZE,
            offset.1 == (self.to.y - self.from.y) * TILE_SIZE,
    {
        (
            (self.to.x as i64 - self.from.x as i64) * TILE_SIZE,
            (self.to.y as i64 - self.from.y as i64) * TILE_SIZE,
        )
    }
}

/// The enemy that a spawner with these waves, this path and this location
/// brings forth when the spawn part is entered, if it brings one.
pub open spec fn spec_spawned(waves: WavesView, path: PathView, location: GridPosition) -> Option<
    EnemyView,
> {
    match waves.due() {
        Some(enemy_type) => Some(EnemyView::fresh(enemy_type, path, location)),
        None => None,
    }
}

/// The waypoint that a follower of `path` is heading for.
pub open spec fn spec_target(path: PathView) -> GridPosition
    recommends
        !path.arrived(),
{
    path.waypoints[path.cursor as int]
}

/// Path and location of an enemy after the move part was entered once: one
/// step closer to the next waypoint, and past that waypoint if the step
/// reached it. An enemy that has arrived stays as it is.
pub open spec fn spec_after_move(path: PathView, location: GridPosition) -> (PathView, GridPosition) {
    if path.arrived() {
        (path, location)
    } else {
        let next = location.spec_step_toward(spec_target(path));
        if next == spec_target(path) {
            (PathView { cursor: path.cursor + 1, waypoints: path.waypoints }, next)
        } else {
            (path, next)
        }
    }
}

/// The step that an enemy takes when the move part is entered, if it takes
/// one.
pub open spec fn spec_movement(path: PathView, location: GridPosition) -> Option<Movement> {
    if path.arrived() {
        None
    } else {
        Some(Movement { from: location, to: location.spec_step_toward(spec_target(path)) })
    }
}

impl SpawnerView {
    /// The spawner after the spawn part was entered once.
    pub open spec fn after_spawn(self) -> SpawnerView {
        SpawnerView { wave: self.wave.after_spawn(), path: self.path, location: self.location }
    }

    /// The enemy that entering the spawn part brings forth, if any.
    pub open spec fn spawned(self) -> Option<EnemyView> {
        spec_spawned(self.wave, self.path, self.location)
    }
}

impl EnemyView {
    /// The enemy after the move part was entered once.
    pub open spec fn after_move(self) -> EnemyView {
        let (path, grid_location) = spec_after_move(self.path, self.grid_location);
        EnemyView { path, grid_location, health: self.health, enemy_type: self.enemy_type }
    }

    /// The step that entering the move part makes this enemy take, if any.
    pub open spec fn movement(self) -> Option<Movement> {
        spec_movement(self.path, self.grid_location)
    }
}

/// The enemy behind an optional bundle, as a mathematical value.
pub open spec fn view_of(enemy: Option<EnemyBundle>) -> Option<EnemyView> {
    match enemy {
        Some(enemy) => Some(enemy@),
        None => None,
    }
}

/// One spawner's share of the spawn part. If the waves are exhausted,
/// nothing happens. Otherwise the wave at the cursor is consumed: if it
/// names an enemy type, an enemy of that type is returned, placed at
/// `grid_pos` with the health of its type and a copy of `path` to walk from
/// its first waypoint; if it names none, nothing is returned. Either way
/// the cursor moves on by one.
///
/// The caller owes each returned enemy its entry animation of
/// [`SPAWN_ANIMATION_MS`].
pub fn spawn_enemy(waves: &mut EnemyWaves, path: &EnemyPath, grid_pos: GridPosition) -> (spawned:
    Option<EnemyBundle>)
    ensures
        final(waves)@ == old(waves)@.after_spawn(),
        view_of(spawned) == spec_spawned(old(waves)@, path@, grid_pos),
{
    if waves.0 >= waves.1.len() {
        return None;
    }
    let current_wave = waves.1[waves.0];
    waves.0 += 1;
    match current_wave {
        Some(enemy_type) => Some(EnemyBundle::new(enemy_type, path.clone(), grid_pos)),
        None => None,
    }
}

/// Spawn enemies when it is time: every spawner's share of the spawn part,
/// see [`spawn_enemy`]. The result has one entry for each spawner, in the
/// order of `spawners`: the enemy that it brought forth, if any.
pub fn spawn_enemies(spawners: &mut Vec<EnemySpawnerBundle>) -> (spawned: Vec<Option<EnemyBundle>>)
    ensures
        final(spawners).len() == old(spawners).len(),
        spawned.len() == old(spawners).len(),
        forall|i: int|
            0 <= i < old(spawners).len() ==> (#[trigger] final(spawners)[i])@ == old(
                spawners,
            )[i]@.after_spawn(),
        forall|i: int|
            0 <= i < old(spawners).len() ==> view_of(#[trigger] spawned[i]) == old(
                spawners,
            )[i]@.spawned(),
{
    let mut spawned: Vec<Option<EnemyBundle>> = Vec::new();
    let mut i: usize = 0;
    while i < spawners.len()
        invariant
            i <= spawners.len(),
            spawners.len() == old(spawners).len(),
            spawned.len() == i,
            forall|j: int|
                0 <= j < i ==> (#[trigger] spawners[j])@ == old(spawners)[j]@.after_spawn(),
            forall|j: int|
                0 <= j < i ==> view_of(#[trigger] spawned[j]) == old(spawners)[j]@.spawned(),
            forall|j: int| i <= j < spawners.len() ==> spawners[j] == old(spawners)[j],
        decreases spawners.len() - i,
    {
        let spawner = &mut spawners[i];
        let enemy = spawn_enemy(&mut spawner.wave, &spawner.path, spawner.location);
        spawned.push(enemy);
        i += 1;
    }
    spawned
}

/// One enemy's share of the move part. An enemy that has arrived stays
/// where it is and nothing is returned. Any other enemy takes one step
/// towards its next waypoint, at most one cell along each axis, and if the
/// step reaches the waypoint the path's cursor moves on to the following
/// one. The step is returned.
///
/// The caller owes each returned step its animation of
/// [`MOVE_ANIMATION_MS`].
pub fn move_enemy(path: &mut EnemyPath, grid_loc: &mut GridPosition) -> (movement: Option<Movement>)
    ensures
        (final(path)@, *final(grid_loc)) == spec_after_move(old(path)@, *old(grid_loc)),
        movement == spec_movement(old(path)@, *old(grid_loc)),
{
    if path.0 >= path.1.len() {
        return None;
    }
    let next_target_point = path.1[path.0];
    let from = *grid_loc;
    let next_point = from.step_toward(next_target_point);
    *grid_loc = next_point;
    if next_point == next_target_point {
        path.0 += 1;
    }
    Some(Movement { from, to: next_point })
}

/// Move enemies to next location: every enemy's share of the move part, see
/// [`move_enemy`]. The result has one entry for each enemy, in the order of
/// `enemies`: the step that it took, if any.
pub fn move_enemies(enemies: &mut Vec<EnemyBundle>) -> (movements: Vec<Option<Movement>>)
    ensures
        final(enemies).len() == old(enemies).len(),
        movements.len() == old(enemies).len(),
        forall|i: int|
            0 <= i < old(enemies).len() ==> (#[trigger] final(enemies)[i])@ == old(
                enemies,
            )[i]@.after_move(),
        forall|i: int|
            0 <= i < old(enemies).len() ==> #[trigger] movements[i] == old(
                enemies,
            )[i]@.movement(),
{
    let mut movements: Vec<Option<Movement>> = Vec::new();
    let mut i: usize = 0;
    while i < enemies.len()
        invariant
            i <= enemies.len(),
            enemies.len() == old(enemies).len(),
            movements.len() == i,
            forall|j: int|
                0 <= j < i ==> (#[trigger] enemies[j])@ == old(enemies)[j]@.after_move(),
            forall|j: int| 0 <= j < i ==> #[trigger] movements[j] == old(enemies)[j]@.movement(),
            forall|j: int| i <= j < enemies.len() ==> enemies[j] == old(enemies)[j],
        decreases enemies.len() - i,
    {
        let enemy = &mut enemies[i];
        let movement = move_enemy(&mut enemy.path, &mut enemy.grid_location);
        movements.push(movement);
        i += 1;
    }
    movements
}

impl WavesView {
    /// The wave list after the spawn part was entered `count` times.
    pub open spec fn after_spawns(self, count: nat) -> WavesView
        decreases count,
    {
        if count == 0 {
            self
        } else {
            self.after_spawn().after_spawns((count - 1) as nat)
        }
    }
}

impl EnemyView {
    /// The enemy after the move part was entered `count` times.
    pub open spec fn after_moves(self, count: nat) -> EnemyView
        decreases count,
    {
        if count == 0 {
            self
        } else {
            self.after_move().after_moves((count - 1) as nat)
        }
    }
}

/// Entering the spawn part consumes exactly one wave, whether or not it
/// holds an enemy, and never touches the waves themselves. Once the waves
/// are exhausted nothing changes and nothing is spawned any more.
pub proof fn lemma_spawn_consumes_one_wave(waves: WavesView)
    requires
        waves.wf(),
    ensures
        waves.after_spawn().wf(),
        waves.after_spawn().waves == waves.waves,
        !waves.exhausted() ==> waves.after_spawn().cursor == waves.cursor + 1,
        waves.exhausted() ==> waves.after_spawn() == waves && waves.due() is None,
{
}

/// After the spawn part was entered `count` times the cursor stands
/// `count` waves further, or at the end of the waves if that comes first.
pub proof fn lemma_after_spawns(waves: WavesView, count: nat)
    requires
        waves.wf(),
    ensures
        waves.after_spawns(count).waves == waves.waves,
        waves.after_spawns(count).cursor == if waves.cursor + count <= waves.waves.len() {
            waves.cursor + count
        } else {
            waves.waves.len()
        },
    decreases count,
{
    if count > 0 {
        lemma_after_spawns(waves.after_spawn(), (count - 1) as nat);
    }
}

/// Entering the move part never changes the waypoints, never moves the
/// cursor back or past the end, and moves the enemy by at most one cell
/// along each axis. An enemy that has arrived is left as it is.
pub proof fn lemma_move_is_one_step(path: PathView, location: GridPosition)
    requires
        path.wf(),
    ensures
        spec_after_move(path, location).0.wf(),
        spec_after_move(path, location).0.waypoints == path.waypoints,
        path.cursor <= spec_after_move(path, location).0.cursor <= path.cursor + 1,
        -1 <= spec_after_move(path, location).1.x - location.x <= 1,
        -1 <= spec_after_move(path, location).1.y - location.y <= 1,
        path.arrived() ==> spec_after_move(path, location) == (path, location) && spec_movement(
            path,
            location,
        ) is None,
        !path.arrived() ==> spec_movement(path, location) == Some(
            Movement { from: location, to: spec_after_move(path, location).1 },
        ),
{
}

/// The number of times that the move part has to be entered for an enemy
/// to get from `location` past the waypoint `target`: one for each cell of
/// distance, and one even if it stands on the waypoint already.
pub open spec fn moves_to_reach(location: GridPosition, target: GridPosition) -> nat {
    if location == target {
        1
    } else {
        step_distance(location, target)
    }
}

/// An enemy on its way reaches its next waypoint after exactly
/// `moves_to_reach` entries of the move part: up to then the cursor stays,
/// and with the last of them the enemy stands on the waypoint and the
/// cursor moves on by one.
pub proof fn lemma_reaches_waypoint(enemy: EnemyView, count: nat)
    requires
        !enemy.path.arrived(),
        count <= moves_to_reach(enemy.grid_location, spec_target(enemy.path)),
    ensures
        enemy.after_moves(count).path.waypoints == enemy.path.waypoints,
        enemy.after_moves(count).health == enemy.health,
        enemy.after_moves(count).enemy_type == enemy.enemy_type,
        count < moves_to_reach(enemy.grid_location, spec_target(enemy.path)) ==> {
            &&& enemy.after_moves(count).path.cursor == enemy.path.cursor
            &&& enemy.after_moves(count).grid_location == walk(
                enemy.grid_location,
                spec_target(enemy.path),
                count,
            )
        },
        count == moves_to_reach(enemy.grid_location, spec_target(enemy.path)) ==> {
            &&& enemy.after_moves(count).path.cursor == enemy.path.cursor + 1
            &&& enemy.after_moves(count).grid_location == spec_target(enemy.path)
        },
    decreases count,
{
    let target = spec_target(enemy.path);
    if count > 0 {
        let next = enemy.after_move();
        let rest = (count - 1) as nat;
        if next.grid_location == target {
            assert(count == 1) by {
                if enemy.grid_location != target {
                    assert(step_distance(enemy.grid_location, target) == 1);
                }
            }
            assert(next.after_moves(0) == next);
        } else {
            assert(next.path == enemy.path);
            assert(step_distance(next.grid_location, target)
                == step_distance(enemy.grid_location, target) - 1);
            lemma_reaches_waypoint(next, rest);
        }
    }
}

/// Enemies of one spawner share nothing with each other or with the
/// spawner. Each gets a path of its own that starts at the first waypoint,
/// whatever happened to the path of an enemy spawned before it, and the
/// spawner's own path is never changed: not by spawning, and not by any
/// number of moves of the enemies it spawned.
pub proof fn lemma_spawned_paths_are_independent(spawner: SpawnerView, moves: nat)
    requires
        spawner.spawned() is Some,
        spawner.after_spawn().spawned() is Some,
    ensures
        ({
            let first = spawner.spawned()->0;
            let second = spawner.after_spawn().spawned()->0;
            &&& first.path == spawner.path.from_start()
            &&& second.path == spawner.path.from_start()
            &&& first.after_moves(moves).path.waypoints == spawner.path.waypoints
            &&& spawner.after_spawn().path == spawner.path
            &&& spawner.after_spawn().after_spawn().path == spawner.path
        }),
{
    lemma_moves_keep_waypoints(spawner.spawned()->0, moves);
}

/// No number of moves changes an enemy's waypoints, health or type.
pub proof fn lemma_moves_keep_waypoints(enemy: EnemyView, moves: nat)
    ensures
        enemy.after_moves(moves).path.waypoints == enemy.path.waypoints,
        enemy.after_moves(moves).path.cursor >= enemy.path.cursor,
        enemy.after_moves(moves).health == enemy.health,
        enemy.after_moves(moves).enemy_type == enemy.enemy_type,
    decreases moves,
{
    if moves > 0 {
        lemma_moves_keep_waypoints(enemy.after_move(), (moves - 1) as nat);
    }
}

} // verus!
