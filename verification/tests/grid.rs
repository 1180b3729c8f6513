use ttd_core::grid_position::{GridPosition, TILE_SIZE};
use ttd_core::ldtk_loader::{get_tile_type_at, tile_type, IntGridLayer, TileType};

#[test]
fn new_and_default() {
    let p = GridPosition::new(3, -4);
    assert_eq!(p.x, 3);
    assert_eq!(p.y, -4);
    assert_eq!(GridPosition::default(), GridPosition::new(0, 0));
}

#[test]
fn addition_and_subtraction_are_componentwise() {
    let a = GridPosition::new(1, 2);
    let b = GridPosition::new(3, -3);
    assert_eq!(a + b, GridPosition::new(4, -1));
    assert_eq!(a - b, GridPosition::new(-2, 5));
    assert_eq!((a + b) - b, a);
}

#[test]
fn clamp_to_unit_clamps_each_axis_on_its_own() {
    assert_eq!(GridPosition::new(3, -2).clamp_to_unit(), GridPosition::new(1, -1));
    assert_eq!(GridPosition::new(0, 7).clamp_to_unit(), GridPosition::new(0, 1));
    assert_eq!(GridPosition::new(-9, 0).clamp_to_unit(), GridPosition::new(-1, 0));
    assert_eq!(GridPosition::new(0, 0).clamp_to_unit(), GridPosition::new(0, 0));
    assert_eq!(
        GridPosition::new(i32::MIN, i32::MAX).clamp_to_unit(),
        GridPosition::new(-1, 1)
    );
}

#[test]
fn direction_is_the_clamped_displacement() {
    let from = GridPosition::new(0, 0);
    assert_eq!(from.direction_to(GridPosition::new(3, -3)), GridPosition::new(1, -1));
    assert_eq!(from.direction_to(GridPosition::new(0, 5)), GridPosition::new(0, 1));
    assert_eq!(from.direction_to(from), GridPosition::new(0, 0));
}

#[test]
fn step_toward_moves_one_cell_per_axis() {
    let target = GridPosition::new(3, -3);
    assert_eq!(GridPosition::new(0, 0).step_toward(target), GridPosition::new(1, -1));
    assert_eq!(GridPosition::new(2, -3).step_toward(target), GridPosition::new(3, -3));
    assert_eq!(target.step_toward(target), target);
    assert_eq!(
        GridPosition::new(5, 5).step_toward(GridPosition::new(5, 0)),
        GridPosition::new(5, 4)
    );
}

#[test]
fn step_toward_works_at_the_ends_of_the_range() {
    let low = GridPosition::new(i32::MIN, i32::MAX);
    let high = GridPosition::new(i32::MAX, i32::MIN);
    assert_eq!(low.step_toward(high), GridPosition::new(i32::MIN + 1, i32::MAX - 1));
    assert_eq!(high.step_toward(low), GridPosition::new(i32::MAX - 1, i32::MIN + 1));
    assert_eq!(low.direction_to(high), GridPosition::new(1, -1));
}

#[test]
fn walking_takes_as_many_steps_as_the_larger_axis() {
    let target = GridPosition::new(4, -7);
    let mut at = GridPosition::new(0, 0);
    let mut steps = 0;
    while at != target {
        at = at.step_toward(target);
        steps += 1;
    }
    assert_eq!(steps, 7);
}

#[test]
fn flip_row_counts_rows_from_the_other_end() {
    assert_eq!(GridPosition::new(2, 0).flip_row(16), Some(GridPosition::new(2, 15)));
    assert_eq!(GridPosition::new(2, 15).flip_row(16), Some(GridPosition::new(2, 0)));
    assert_eq!(GridPosition::new(-1, 3).flip_row(10), Some(GridPosition::new(-1, 6)));
    let p = GridPosition::new(7, 4);
    assert_eq!(p.flip_row(9).unwrap().flip_row(9), Some(p));
}

#[test]
fn flip_row_refuses_rows_that_do_not_fit() {
    assert_eq!(GridPosition::new(0, i32::MIN).flip_row(10), None);
    assert_eq!(GridPosition::new(0, 0).flip_row(i32::MIN), None);
    assert_eq!(
        GridPosition::new(0, i32::MAX).flip_row(0),
        Some(GridPosition::new(0, i32::MIN))
    );
}

#[test]
fn to_world_scales_by_the_tile_size() {
    assert_eq!(TILE_SIZE, 16);
    assert_eq!(GridPosition::new(1, -1).to_world(), (16, -16));
    assert_eq!(GridPosition::new(3, 2).to_world(), (48, 32));
    assert_eq!(
        GridPosition::new(i32::MAX, i32::MIN).to_world(),
        (i32::MAX as i64 * 16, i32::MIN as i64 * 16)
    );
}

fn layer() -> IntGridLayer {
    // Three columns, two rows, given from the top row down:
    //   grass water path
    //   none  grass other
    IntGridLayer { c_wid: 3, c_hei: 2, int_grid_csv: vec![1, 2, 3, 0, 1, 9] }
}

#[test]
fn tile_values_map_to_tile_types() {
    assert_eq!(tile_type(1), TileType::Grass);
    assert_eq!(tile_type(2), TileType::Water);
    assert_eq!(tile_type(3), TileType::Path);
    assert_eq!(tile_type(0), TileType::Empty);
    assert_eq!(tile_type(4), TileType::Empty);
    assert_eq!(tile_type(-1), TileType::Empty);
}

#[test]
fn tile_lookup_counts_rows_from_the_bottom() {
    let layer = layer();
    assert_eq!(get_tile_type_at(&layer, GridPosition::new(0, 1)), TileType::Grass);
    assert_eq!(get_tile_type_at(&layer, GridPosition::new(1, 1)), TileType::Water);
    assert_eq!(get_tile_type_at(&layer, GridPosition::new(2, 1)), TileType::Path);
    assert_eq!(get_tile_type_at(&layer, GridPosition::new(0, 0)), TileType::Empty);
    assert_eq!(get_tile_type_at(&layer, GridPosition::new(1, 0)), TileType::Grass);
    assert_eq!(get_tile_type_at(&layer, GridPosition::new(2, 0)), TileType::Empty);
}

#[test]
fn cells_off_the_layer_have_no_tile() {
    let layer = layer();
    assert_eq!(get_tile_type_at(&layer, GridPosition::new(-1, 0)), TileType::Empty);
    assert_eq!(get_tile_type_at(&layer, GridPosition::new(3, 1)), TileType::Empty);
    assert_eq!(get_tile_type_at(&layer, GridPosition::new(0, 2)), TileType::Empty);
    assert_eq!(get_tile_type_at(&layer, GridPosition::new(0, -1)), TileType::Empty);
    assert_eq!(
        get_tile_type_at(&layer, GridPosition::new(i32::MAX, i32::MIN)),
        TileType::Empty
    );
}

#[test]
fn a_layer_that_is_too_short_has_no_tile_where_values_are_missing() {
    let short = IntGridLayer { c_wid: 3, c_hei: 2, int_grid_csv: vec![2, 2, 2, 2] };
    assert_eq!(get_tile_type_at(&short, GridPosition::new(0, 0)), TileType::Water);
    assert_eq!(get_tile_type_at(&short, GridPosition::new(1, 0)), TileType::Empty);
    assert_eq!(get_tile_type_at(&short, GridPosition::new(2, 1)), TileType::Water);
    let negative = IntGridLayer { c_wid: -3, c_hei: 2, int_grid_csv: vec![2, 2] };
    assert_eq!(get_tile_type_at(&negative, GridPosition::new(0, 0)), TileType::Empty);
}
