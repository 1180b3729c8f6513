//! What an enemy and an enemy spawner carry.

use crate::enemies::enemy_types::{spec_enemy_health, EnemyType};
use crate::grid_position::GridPosition;
use vstd::prelude::*;

verus! {

/// The path for enemies to follow: the index of the next waypoint that has
/// not been reached yet, and the waypoints in the order in which they are
/// visited.
#[derive(Debug)]
pub struct EnemyPath(pub usize, pub Vec<GridPosition>);

/// Spawner order of enemies: the index of the next wave, and for each wave
/// the enemy type to spawn, or `None` for a wave without an enemy.
#[derive(Debug)]
pub struct EnemyWaves(pub usize, pub Vec<Option<EnemyType>>);

/// Health that an enemy has left.
#[derive(Debug, Clone, Copy, PartialEq, Eq, Structural, Hash)]
pub struct EnemyHealth(pub u8);

/// Everything the rules need to know of an enemy.
#[derive(Debug)]
pub struct EnemyBundle {
    /// Path enemy needs to take.
    pub path: EnemyPath,
    /// Location of enemy in grid, updated by the move system.
    pub grid_location: GridPosition,
    /// Health left.
    pub health: EnemyHealth,
    /// What kind of enemy this is.
    pub enemy_type: EnemyType,
}

/// Everything the rules need to know of an enemy spawner.
#[derive(Debug)]
pub struct EnemySpawnerBundle {
    /// Waves to spawn.
    pub wave: EnemyWaves,
    /// What path should enemies take. A template: every spawned enemy gets
    /// a copy of its own.
    pub path: EnemyPath,
    /// Location of enemy spawner.
    pub location: GridPosition,
}

/// A path as a mathematical value.
pub struct PathView {
    /// Index of the next waypoint that has not been reached yet.
    pub cursor: nat,
    /// The waypoints in visiting order.
    pub waypoints: Seq<GridPosition>,
}

/// A wave list as a mathematical value.
pub struct WavesView {
    /// Index of the next wave.
    pub cursor: nat,
    /// The waves in spawning order.
    pub waves: Seq<Option<EnemyType>>,
}

/// An enemy as a mathematical value.
pub struct EnemyView {
    /// See [`EnemyBundle::path`].
    pub path: PathView,
    /// See [`EnemyBundle::grid_location`].
    pub grid_location: GridPosition,
    /// See [`EnemyBundle::health`].
    pub health: u8,
    /// See [`EnemyBundle::enemy_type`].
    pub enemy_type: EnemyType,
}

/// A spawner as a mathematical value.
pub struct SpawnerView {
    /// See [`EnemySpawnerBundle::wave`].
    pub wave: WavesView,
    /// See [`EnemySpawnerBundle::path`].
    pub path: PathView,
    /// See [`EnemySpawnerBundle::location`].
    pub location: GridPosition,
}

impl View for EnemyPath {
    type V = PathView;

    open spec fn view(&self) -> PathView {
        PathView { cursor: self.0 as nat, waypoints: self.1@ }
    }
}

impl View for EnemyWaves {
    type V = WavesView;

    open spec fn view(&self) -> WavesView {
        WavesView { cursor: self.0 as nat, waves: self.1@ }
    }
}

impl View for EnemyBundle {
    type V = EnemyView;

    open spec fn view(&self) -> EnemyView {
        EnemyView {
            path: self.path@,
            grid_location: self.grid_location,
            health: self.health.0,
            enemy_type: self.enemy_type,
        }
    }
}

impl View for EnemySpawnerBundle {
    type V = SpawnerView;

    open spec fn view(&self) -> SpawnerView {
        SpawnerView { wave: self.wave@, path: self.path@, location: self.location }
    }
}

impl PathView {
    /// The cursor does not point past the end of the path.
    pub open spec fn wf(self) -> bool {
        self.cursor <= self.waypoints.len()
    }

    /// Every waypoint has been reached: the one who follows this path has
    /// arrived and moves no more.
    pub open spec fn arrived(self) -> bool {
        self.cursor >= self.waypoints.len()
    }

    /// The same waypoints, with none of them reached yet.
    pub open spec fn from_start(self) -> PathView {
        PathView { cursor: 0, waypoints: self.waypoints }
    }
}

impl WavesView {
    /// The cursor does not point past the end of the wave list.
    pub open spec fn wf(self) -> bool {
        self.cursor <= self.waves.len()
    }

    /// Every wave has been processed: nothing is spawned any more.
    pub open spec fn exhausted(self) -> bool {
        self.cursor >= self.waves.len()
    }

    /// The enemy type that the next spawn phase brings, if it brings one.
    pub open spec fn due(self) -> Option<EnemyType> {
        if self.exhausted() {
            None
        } else {
            self.waves[self.cursor as int]
        }
    }

    /// The wave list after one spawn phase: one wave further, whether or not
    /// that wave held an enemy, unless the list was exhausted already.
    pub open spec fn after_spawn(self) -> WavesView {
        if self.exhausted() {
            self
        } else {
            WavesView { cursor: self.cursor + 1, waves: self.waves }
        }
    }
}

impl EnemyView {
    /// A fresh enemy of `enemy_type` at `location`, with the health of its
    /// type and the whole of `path` before it.
    pub open spec fn fresh(
        enemy_type: EnemyType,
        path: PathView,
        location: GridPosition,
    ) -> EnemyView {
        EnemyView {
            path: path.from_start(),
            grid_location: location,
            health: spec_enemy_health(enemy_type),
            enemy_type,
        }
    }
}

impl Clone for EnemyPath {
    /// An independent copy: same cursor, same waypoints.
    fn clone(&self) -> (copy: EnemyPath)
        ensures
            copy@ == self@,
    {
        EnemyPath(self.0, self.1.clone())
    }
}

impl Clone for EnemyWaves {
    /// An independent copy: same cursor, same waves.
    fn clone(&self) -> (copy: EnemyWaves)
        ensures
            copy@ == self@,
    {
        EnemyWaves(self.0, self.1.clone())
    }
}

impl Clone for EnemyBundle {
    /// An independent copy of the enemy.
    fn clone(&self) -> (copy: EnemyBundle)
        ensures
            copy@ == self@,
    {
        EnemyBundle {
            path: self.path.clone(),
            grid_location: self.grid_location,
            health: self.health,
            enemy_type: self.enemy_type,
        }
    }
}

impl Clone for EnemySpawnerBundle {
    /// An independent copy of the spawner.
    fn clone(&self) -> (copy: EnemySpawnerBundle)
        ensures
            copy@ == self@,
    {
        EnemySpawnerBundle {
            wave: self.wave.clone(),
            path: self.path.clone(),
            location: self.location,
        }
    }
}

impl EnemyPath {
    /// A path over `waypoints`, none of them reached yet.
    pub fn new(waypoints: Vec<GridPosition>) -> (path: EnemyPath)
        ensures
            path@ == (PathView { cursor: 0, waypoints: waypoints@ }),
            path@.wf(),
    {
        EnemyPath(0, waypoints)
    }

    /// Has the last waypoint been reached?
    pub fn arrived(&self) -> (arrived: bool)
        ensures
            arrived == self@.arrived(),
    {
        self.0 >= self.1.len()
    }
}

impl EnemyWaves {
    /// A wave list over `waves`, none of them processed yet.
    pub fn new(waves: Vec<Option<EnemyType>>) -> (list: EnemyWaves)
        ensures
            list@ == (WavesView { cursor: 0, waves: waves@ }),
            list@.wf(),
    {
        EnemyWaves(0, waves)
    }

    /// Has the last wave been processed?
    pub fn exhausted(&self) -> (exhausted: bool)
        ensures
            exhausted == self@.exhausted(),
    {
        self.0 >= self.1.len()
    }
}

impl EnemyBundle {
    /// A fresh enemy of `enemy_type` at `grid_location`: its health is that
    /// of its type, and it has the whole of `path` before it, whatever the
    /// cursor of `path` was.
    pub fn new(enemy_type: EnemyType, path: EnemyPath, grid_location: GridPosition) -> (enemy:
        EnemyBundle)
        ensures
            enemy@ == EnemyView::fresh(enemy_type, path@, grid_location),
    {
        EnemyBundle {
            path: EnemyPath(0, path.1),
            grid_location,
            health: EnemyHealth(enemy_type.enemy_health()),
            enemy_type,
        }
    }
}

} // verus!
