use ttd_core::enemies::enemy_components::{EnemyPath, EnemySpawnerBundle, EnemyWaves};
use ttd_core::enemies::enemy_types::EnemyType;
use ttd_core::grid_position::GridPosition;
use ttd_core::level::{get_field, EntityInstance, FieldInstance, FieldValue, LevelError};

fn p(x: i32, y: i32) -> GridPosition {
    GridPosition::new(x, y)
}

fn field(name: &str, value: FieldValue) -> FieldInstance {
    FieldInstance { identifier: name.to_string(), value }
}

fn names(values: &[Option<&str>]) -> Vec<Option<String>> {
    values.iter().map(|v| v.map(|s| s.to_string())).collect()
}

fn spawner_entity() -> EntityInstance {
    EntityInstance {
        grid: p(1, 2),
        field_instances: vec![
            field("Speed", FieldValue::Other),
            field("Path", FieldValue::Points(vec![Some(p(3, 0)), None, Some(p(3, 15))])),
            field("EnemyType", FieldValue::Enums(names(&[None, Some("Slime"), Some("Orc")]))),
        ],
    }
}

#[test]
fn get_field_finds_a_field_by_its_name() {
    let entity = spawner_entity();
    assert!(matches!(get_field(&entity, "Speed"), Some(FieldValue::Other)));
    match get_field(&entity, "Path") {
        Some(FieldValue::Points(points)) => assert_eq!(points.len(), 3),
        _ => panic!("the path is a list of points"),
    }
    assert!(matches!(get_field(&entity, "EnemyType"), Some(FieldValue::Enums(_))));
}

#[test]
fn get_field_gives_none_for_an_unknown_name() {
    let entity = spawner_entity();
    assert!(get_field(&entity, "path").is_none());
    assert!(get_field(&entity, "").is_none());
    assert!(get_field(&entity, "Paths").is_none());
    let empty = EntityInstance { grid: p(0, 0), field_instances: vec![] };
    assert!(get_field(&empty, "Path").is_none());
}

#[test]
fn get_field_takes_the_first_of_two_fields_with_one_name() {
    let entity = EntityInstance {
        grid: p(0, 0),
        field_instances: vec![
            field("Path", FieldValue::Points(vec![Some(p(1, 1))])),
            field("Path", FieldValue::Other),
        ],
    };
    assert!(matches!(get_field(&entity, "Path"), Some(FieldValue::Points(_))));
}

#[test]
fn waves_are_read_from_names() {
    let waves = EnemyWaves::from_names(&names(&[None, Some("Slime"), None, Some("Orc")])).unwrap();
    assert_eq!(waves.0, 0);
    assert_eq!(waves.1, vec![None, Some(EnemyType::Slime), None, Some(EnemyType::Orc)]);
    let none = EnemyWaves::from_names(&Vec::new()).unwrap();
    assert_eq!(none.1, Vec::new());
}

#[test]
fn an_unknown_enemy_name_is_refused() {
    assert_eq!(
        EnemyWaves::from_names(&names(&[Some("Slime"), Some("Dragon")])).unwrap_err(),
        LevelError::UnknownEnemyType
    );
    assert_eq!(
        EnemyWaves::from_names(&names(&[Some("")])).unwrap_err(),
        LevelError::UnknownEnemyType
    );
}

#[test]
fn waves_are_read_from_the_entity() {
    let waves = EnemyWaves::from_entity(&spawner_entity()).unwrap();
    assert_eq!(waves.0, 0);
    assert_eq!(waves.1, vec![None, Some(EnemyType::Slime), Some(EnemyType::Orc)]);
}

#[test]
fn waves_fail_without_the_field_or_with_another_kind_of_value() {
    let none = EntityInstance { grid: p(0, 0), field_instances: vec![] };
    assert_eq!(EnemyWaves::from_entity(&none).unwrap_err(), LevelError::MissingField);
    let wrong = EntityInstance {
        grid: p(0, 0),
        field_instances: vec![field("EnemyType", FieldValue::Points(vec![]))],
    };
    assert_eq!(EnemyWaves::from_entity(&wrong).unwrap_err(), LevelError::WrongFieldType);
    let other = EntityInstance {
        grid: p(0, 0),
        field_instances: vec![field("EnemyType", FieldValue::Other)],
    };
    assert_eq!(EnemyWaves::from_entity(&other).unwrap_err(), LevelError::WrongFieldType);
    let unknown = EntityInstance {
        grid: p(0, 0),
        field_instances: vec![field("EnemyType", FieldValue::Enums(names(&[Some("Bat")])))],
    };
    assert_eq!(EnemyWaves::from_entity(&unknown).unwrap_err(), LevelError::UnknownEnemyType);
}

#[test]
fn a_path_skips_empty_points_and_counts_rows_upwards() {
    let path =
        EnemyPath::from_points(&vec![Some(p(3, 0)), None, Some(p(3, 15)), Some(p(0, 7))], 16)
            .unwrap();
    assert_eq!(path.0, 0);
    assert_eq!(path.1, vec![p(3, 15), p(3, 0), p(0, 8)]);
    let empty = EnemyPath::from_points(&vec![None, None], 16).unwrap();
    assert_eq!(empty.1, Vec::new());
}

#[test]
fn a_path_with_a_row_out_of_range_is_refused() {
    assert_eq!(
        EnemyPath::from_points(&vec![Some(p(0, 0)), Some(p(0, i32::MIN))], 16).unwrap_err(),
        LevelError::CoordinateOutOfRange
    );
    assert_eq!(
        EnemyPath::from_points(&vec![Some(p(0, 0))], i32::MIN).unwrap_err(),
        LevelError::CoordinateOutOfRange
    );
    assert!(EnemyPath::from_points(&vec![None], i32::MIN).is_ok());
}

#[test]
fn a_path_is_read_from_the_entity() {
    let path = EnemyPath::from_entity(&spawner_entity(), 16).unwrap();
    assert_eq!(path.0, 0);
    assert_eq!(path.1, vec![p(3, 15), p(3, 0)]);
    let none = EntityInstance { grid: p(0, 0), field_instances: vec![] };
    assert_eq!(EnemyPath::from_entity(&none, 16).unwrap_err(), LevelError::MissingField);
    let wrong = EntityInstance {
        grid: p(0, 0),
        field_instances: vec![field("Path", FieldValue::Enums(vec![]))],
    };
    assert_eq!(EnemyPath::from_entity(&wrong, 16).unwrap_err(), LevelError::WrongFieldType);
}

#[test]
fn a_spawner_is_read_from_its_entity() {
    let spawner = EnemySpawnerBundle::bundle_entity(&spawner_entity(), 16).unwrap();
    assert_eq!(spawner.location, p(1, 13));
    assert_eq!(spawner.path.0, 0);
    assert_eq!(spawner.path.1, vec![p(3, 15), p(3, 0)]);
    assert_eq!(spawner.wave.0, 0);
    assert_eq!(spawner.wave.1, vec![None, Some(EnemyType::Slime), Some(EnemyType::Orc)]);
}

#[test]
fn the_path_is_read_before_the_waves_and_the_waves_before_the_location() {
    let both_missing = EntityInstance { grid: p(0, i32::MIN), field_instances: vec![] };
    assert_eq!(
        EnemySpawnerBundle::bundle_entity(&both_missing, 16).unwrap_err(),
        LevelError::MissingField
    );
    let wrong_path_unknown_wave = EntityInstance {
        grid: p(0, 0),
        field_instances: vec![
            field("EnemyType", FieldValue::Enums(names(&[Some("Bat")]))),
            field("Path", FieldValue::Other),
        ],
    };
    assert_eq!(
        EnemySpawnerBundle::bundle_entity(&wrong_path_unknown_wave, 16).unwrap_err(),
        LevelError::WrongFieldType
    );
    let unknown_wave_far_location = EntityInstance {
        grid: p(0, i32::MIN),
        field_instances: vec![
            field("EnemyType", FieldValue::Enums(names(&[Some("Bat")]))),
            field("Path", FieldValue::Points(vec![])),
        ],
    };
    assert_eq!(
        EnemySpawnerBundle::bundle_entity(&unknown_wave_far_location, 16).unwrap_err(),
        LevelError::UnknownEnemyType
    );
    let far_location = EntityInstance {
        grid: p(0, i32::MIN),
        field_instances: vec![
            field("EnemyType", FieldValue::Enums(names(&[Some("Orc")]))),
            field("Path", FieldValue::Points(vec![])),
        ],
    };
    assert_eq!(
        EnemySpawnerBundle::bundle_entity(&far_location, 16).unwrap_err(),
        LevelError::CoordinateOutOfRange
    );
    let far_point = EntityInstance {
        grid: p(0, 0),
        field_instances: vec![field("Path", FieldValue::Points(vec![Some(p(0, i32::MIN))]))],
    };
    assert_eq!(
        EnemySpawnerBundle::bundle_entity(&far_point, 16).unwrap_err(),
        LevelError::CoordinateOutOfRange
    );
}
