//! What a level file says about the entities placed in it, and how the
//! game reads enemy spawners from that.
//!
//! A level that lacks a field the game needs, or that names an enemy type
//! the game does not know, is invalid. Reading it fails with a
//! [`LevelError`]; nothing is skipped silently.

use crate::enemies::enemy_components::{
    EnemyPath, EnemySpawnerBundle, EnemyWaves, PathView, SpawnerView, WavesView,
};
use crate::enemies::enemy_types::{spec_from_name, EnemyType};
use crate::grid_position::{spec_flip_row, GridPosition};
use vstd::prelude::*;

verus! {

/// The value of one field of a level entity.
#[derive(Debug)]
pub enum FieldValue {
    /// A list of cells, in the level file's coordinates; an entry may be
    /// left empty.
    Points(Vec<Option<GridPosition>>),
    /// A list of enumeration values, each by its name; an entry may be left
    /// empty.
    Enums(Vec<Option<String>>),
    /// A value of any other kind. The game reads none of those.
    Other,
}

/// One field of a level entity: its name and its value.
#[derive(Debug)]
pub struct FieldInstance {
    /// The name of the field.
    pub identifier: String,
    /// The value of the field.
    pub value: FieldValue,
}

/// An entity as placed in a level.
#[derive(Debug)]
pub struct EntityInstance {
    /// The cell that the entity was placed on, in the level file's
    /// coordinates.
    pub grid: GridPosition,
    /// The fields of the entity.
    pub field_instances: Vec<FieldInstance>,
}

/// Why a level entity could not be read.
#[derive(Debug, Clone, Copy, PartialEq, Eq, Structural, Hash)]
pub enum LevelError {
    /// The entity has no field of the name that was asked for.
    MissingField,
    /// The field exists but holds a value of another kind.
    WrongFieldType,
    /// A wave names an enemy type that the game does not know.
    UnknownEnemyType,
    /// A cell lies so far off the level that its row cannot be expressed in
    /// the game's coordinates.
    CoordinateOutOfRange,
}

/// The index of the first of `fields`, from index `from` on, that is named
/// `name`.
pub open spec fn first_field(fields: Seq<FieldInstance>, name: Seq<char>, from: int) -> Option<int>
    decreases fields.len() - from,
{
    if from < 0 || from >= fields.len() {
        None
    } else if fields[from].identifier@ == name {
        Some(from)
    } else {
        first_field(fields, name, from + 1)
    }
}

/// The value of the first of `fields` that is named `name`.
pub open spec fn spec_get_field(fields: Seq<FieldInstance>, name: Seq<char>) -> Option<FieldValue> {
    match first_field(fields, name, 0) {
        Some(index) => Some(fields[index].value),
        None => None,
    }
}

/// Every wave that names an enemy type names one that the game knows.
pub open spec fn names_known(values: Seq<Option<String>>) -> bool {
    forall|i: int|
        0 <= i < values.len() && (#[trigger] values[i]) is Some ==> spec_from_name(
            values[i]->0@,
        ) is Some
}

/// The waves that the names `values` stand for.
pub open spec fn spec_waves(values: Seq<Option<String>>) -> Seq<Option<EnemyType>> {
    Seq::new(
        values.len(),
        |i: int|
            match values[i] {
                Some(name) => spec_from_name(name@),
                None => None,
            },
    )
}

/// The waves of the spawner that `fields` describe: the enumeration values
/// of the field `EnemyType`, read as enemy types.
pub open spec fn spec_waves_from_entity(fields: Seq<FieldInstance>) -> Result<
    WavesView,
    LevelError,
> {
    match spec_get_field(fields, "EnemyType"@) {
        None => Err(LevelError::MissingField),
        Some(FieldValue::Enums(values)) => if names_known(values@) {
            Ok(WavesView { cursor: 0, waves: spec_waves(values@) })
        } else {
            Err(LevelError::UnknownEnemyType)
        },
        Some(_) => Err(LevelError::WrongFieldType),
    }
}

/// The waypoints that `points` stand for on a level of `level_height` rows:
/// the entries that are not empty, in their order, each with its row
/// counted upwards. `None` if one of those rows cannot be expressed.
pub open spec fn spec_waypoints(points: Seq<Option<GridPosition>>, level_height: i32) -> Option<
    Seq<GridPosition>,
>
    decreases points.len(),
{
    if points.len() == 0 {
        Some(Seq::empty())
    } else {
        match spec_waypoints(points.drop_last(), level_height) {
            None => None,
            Some(front) => match points.last() {
                None => Some(front),
                Some(point) => match spec_flip_row(point, level_height) {
                    Some(waypoint) => Some(front.push(waypoint)),
                    None => None,
                },
            },
        }
    }
}

/// The path of the spawner that `fields` describe: the points of the field
/// `Path`, read as waypoints.
pub open spec fn spec_path_from_entity(fields: Seq<FieldInstance>, level_height: i32) -> Result<
    PathView,
    LevelError,
> {
    match spec_get_field(fields, "Path"@) {
        None => Err(LevelError::MissingField),
        Some(FieldValue::Points(points)) => match spec_waypoints(points@, level_height) {
            Some(waypoints) => Ok(PathView { cursor: 0, waypoints }),
            None => Err(LevelError::CoordinateOutOfRange),
        },
        Some(_) => Err(LevelError::WrongFieldType),
    }
}

/// The spawner that the level entity with the fields `fields`, placed on
/// the cell `grid` of a level of `level_height` rows, describes. The path is
/// read first, then the waves, then the location; the first that fails
/// decides the error.
pub open spec fn spec_bundle_entity(
    grid: GridPosition,
    fields: Seq<FieldInstance>,
    level_height: i32,
) -> Result<SpawnerView, LevelError> {
    match spec_path_from_entity(fields, level_height) {
        Err(error) => Err(error),
        Ok(path) => match spec_waves_from_entity(fields) {
            Err(error) => Err(error),
            Ok(wave) => match spec_flip_row(grid, level_height) {
                None => Err(LevelError::CoordinateOutOfRange),
                Some(location) => Ok(SpawnerView { wave, path, location }),
            },
        },
    }
}

/// Get a field from an entity: the value of the first field named
/// `field_name`, or `None` if the entity has no field of that name.
pub fn get_field<'a>(entity: &'a EntityInstance, field_name: &str) -> (value: Option<
    &'a FieldValue,
>)
    ensures
        match value {
            Some(value) => spec_get_field(entity.field_instances@, field_name@) == Some(*value),
            None => spec_get_field(entity.field_instances@, field_name@) is None,
        },
{
    let wanted: String = field_name.to_owned();
    let mut i: usize = 0;
    while i < entity.field_instances.len()
        invariant
            i <= entity.field_instances.len(),
            wanted@ == field_name@,
            first_field(entity.field_instances@, field_name@, 0) == first_field(
                entity.field_instances@,
                field_name@,
                i as int,
            ),
        decreases entity.field_instances.len() - i,
    {
        let field = &entity.field_instances[i];
        if field.identifier == wanted {
            return Some(&field.value);
        }
        i += 1;
    }
    None
}

impl EnemyWaves {
    /// Reads waves from the names that a level file gives them: for each
    /// wave the name of the enemy type to spawn, or nothing for a wave
    /// without an enemy. No wave has been processed yet.
    ///
    /// Fails with `UnknownEnemyType` if a wave names a type that the game
    /// does not know.
    pub fn from_names(values: &Vec<Option<String>>) -> (waves: Result<EnemyWaves, LevelError>)
        ensures
            match waves {
                Ok(waves) => names_known(values@) && waves@ == (WavesView {
                    cursor: 0,
                    waves: spec_waves(values@),
                }),
                Err(error) => !names_known(values@) && error == LevelError::UnknownEnemyType,
            },
    {
        let mut waves: Vec<Option<EnemyType>> = Vec::new();
        let mut i: usize = 0;
        while i < values.len()
            invariant
                i <= values.len(),
                waves.len() == i,
                forall|j: int|
                    0 <= j < i && (#[trigger] values[j]) is Some ==> spec_from_name(
                        values[j]->0@,
                    ) is Some,
                forall|j: int| 0 <= j < i ==> #[trigger] waves[j] == spec_waves(values@)[j],
            decreases values.len() - i,
        {
            let wave = match &values[i] {
                None => None,
                Some(name) => {
                    let enemy_type = EnemyType::from_name(name.as_str());
                    if enemy_type.is_none() {
                        assert(values[i as int] is Some);
                        return Err(LevelError::UnknownEnemyType);
                    }
                    enemy_type
                },
            };
            waves.push(wave);
            i += 1;
        }
        assert(waves@ =~= spec_waves(values@));
        Ok(EnemyWaves(0, waves))
    }

    /// Reads the waves of a spawner from the level entity that describes
    /// it: the field `EnemyType` holds the names of the waves, see
    /// [`EnemyWaves::from_names`].
    ///
    /// Fails with `MissingField` if the entity has no such field, with
    /// `WrongFieldType` if the field is not a list of enumeration values,
    /// and with `UnknownEnemyType` if a wave names a type that the game
    /// does not know.
    pub fn from_entity(instance: &EntityInstance) -> (waves: Result<EnemyWaves, LevelError>)
        ensures
            match waves {
                Ok(waves) => spec_waves_from_entity(instance.field_instances@) == Ok::<
                    WavesView,
                    LevelError,
                >(waves@),
                Err(error) => spec_waves_from_entity(instance.field_instances@) == Err::<
                    WavesView,
                    LevelError,
                >(error),
            },
    {
        match get_field(instance, "EnemyType") {
            None => Err(LevelError::MissingField),
            Some(FieldValue::Enums(values)) => EnemyWaves::from_names(values),
            Some(_) => Err(LevelError::WrongFieldType),
        }
    }
}

impl EnemyPath {
    /// Reads a path from the points that a level file gives for it, in the
    /// level file's coordinates and in the order in which they are visited.
    /// Entries left empty are passed over; the rows of the others are
    /// counted upwards on a level of `level_height` rows. No waypoint has
    /// been reached yet.
    ///
    /// Fails with `CoordinateOutOfRange` if a row cannot be expressed.
    pub fn from_points(points: &Vec<Option<GridPosition>>, level_height: i32) -> (path: Result<
        EnemyPath,
        LevelError,
    >)
        ensures
            match path {
                Ok(path) => spec_waypoints(points@, level_height) == Some(path@.waypoints)
                    && path@.cursor == 0,
                Err(error) => spec_waypoints(points@, level_height) is None && error
                    == LevelError::CoordinateOutOfRange,
            },
    {
        let mut waypoints: Vec<GridPosition> = Vec::new();
        let mut i: usize = 0;
        while i < points.len()
            invariant
                i <= points.len(),
                spec_waypoints(points@.take(i as int), level_height) == Some(waypoints@),
            decreases points.len() - i,
        {
            proof {
                let seen = points@.take(i as int + 1);
                assert(seen.drop_last() =~= points@.take(i as int));
                assert(seen.last() == points[i as int]);
            }
            match points[i] {
                None => {},
                Some(point) => match point.flip_row(level_height) {
                    Some(waypoint) => {
                        waypoints.push(waypoint);
                    },
                    None => {
                        proof {
                            lemma_waypoints_fail_for_good(points@, i as int + 1, level_height);
                        }
                        return Err(LevelError::CoordinateOutOfRange);
                    },
                },
            }
            i += 1;
        }
        assert(points@.take(i as int) =~= points@);
        Ok(EnemyPath(0, waypoints))
    }

    /// Reads the path of a spawner from the level entity that describes it:
    /// the field `Path` holds the waypoints, see [`EnemyPath::from_points`].
    ///
    /// Fails with `MissingField` if the entity has no such field, with
    /// `WrongFieldType` if the field is not a list of points, and with
    /// `CoordinateOutOfRange` if a row cannot be expressed.
    pub fn from_entity(instance: &EntityInstance, level_height: i32) -> (path: Result<
        EnemyPath,
        LevelError,
    >)
        ensures
            match path {
                Ok(path) => spec_path_from_entity(instance.field_instances@, level_height) == Ok::<
                    PathView,
                    LevelError,
                >(path@),
                Err(error) => spec_path_from_entity(instance.field_instances@, level_height)
                    == Err::<PathView, LevelError>(error),
            },
    {
        match get_field(instance, "Path") {
            None => Err(LevelError::MissingField),
            Some(FieldValue::Points(points)) => EnemyPath::from_points(points, level_height),
            Some(_) => Err(LevelError::WrongFieldType),
        }
    }
}

/// Once a row among the first `seen` points cannot be expressed, reading
/// all the points fails too.
pub proof fn lemma_waypoints_fail_for_good(
    points: Seq<Option<GridPosition>>,
    seen: int,
    level_height: i32,
)
    requires
        0 <= seen <= points.len(),
        spec_waypoints(points.take(seen), level_height) is None,
    ensures
        spec_waypoints(points, level_height) is None,
    decreases points.len() - seen,
{
    if seen < points.len() {
        let more = points.take(seen + 1);
        assert(more.drop_last() =~= points.take(seen));
        lemma_waypoints_fail_for_good(points, seen + 1, level_height);
    } else {
        assert(points.take(seen) =~= points);
    }
}

impl EnemySpawnerBundle {
    /// Reads an enemy spawner from the level entity that describes it, on a
    /// level of `level_height` rows: its path from the field `Path` (see
    /// [`EnemyPath::from_entity`]), its waves from the field `EnemyType`
    /// (see [`EnemyWaves::from_entity`]) and its location from the cell
    /// that the entity was placed on, with the row counted upwards.
    ///
    /// The path is read first, then the waves, then the location; the
    /// first that fails decides the error.
    pub fn bundle_entity(entity_instance: &EntityInstance, level_height: i32) -> (spawner: Result<
        EnemySpawnerBundle,
        LevelError,
    >)
        ensures
            match spawner {
                Ok(spawner) => spec_bundle_entity(
                    entity_instance.grid,
                    entity_instance.field_instances@,
                    level_height,
                ) == Ok::<SpawnerView, LevelError>(spawner@),
                Err(error) => spec_bundle_entity(
                    entity_instance.grid,
                    entity_instance.field_instances@,
                    level_height,
                ) == Err::<SpawnerView, LevelError>(error),
            },
    {
        let path = match EnemyPath::from_entity(entity_instance, level_height) {
            Ok(path) => path,
            Err(error) => {
                return Err(error);
            },
        };
        let wave = match EnemyWaves::from_entity(entity_instance) {
            Ok(wave) => wave,
            Err(error) => {
                return Err(error);
            },
        };
        match entity_instance.grid.flip_row(level_height) {
            Some(location) => Ok(EnemySpawnerBundle { wave, path, location }),
            None => Err(LevelError::CoordinateOutOfRange),
        }
    }
}

} // verus!
