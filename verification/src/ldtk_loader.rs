//! The level as the rules see it: which kind of tile lies where.
//!
//! Levels are drawn in a level editor whose files count rows downwards from
//! the top, while the game grid counts rows upwards from the bottom.

use crate::grid_position::GridPosition;
use vstd::prelude::*;

verus! {

/// Enums for tile types.
#[derive(Debug, Clone, Copy, PartialEq, Eq, Structural, Hash)]
pub enum TileType {
    /// No tile set.
    Empty,
    /// Grass tile.
    Grass,
    /// Path tile.
    Path,
    /// Water tile.
    Water,
}

/// The layer of a level that records a tile type for every cell: `c_wid`
/// columns by `c_hei` rows of integers, row after row from the top.
#[derive(Debug)]
pub struct IntGridLayer {
    /// Width of the layer in cells.
    pub c_wid: i32,
    /// Height of the layer in cells.
    pub c_hei: i32,
    /// One value for each cell, row after row from the top, each row from
    /// the left.
    pub int_grid_csv: Vec<i32>,
}

/// An integer grid layer as a mathematical value.
pub struct IntGridView {
    /// See [`IntGridLayer::c_wid`].
    pub c_wid: int,
    /// See [`IntGridLayer::c_hei`].
    pub c_hei: int,
    /// See [`IntGridLayer::int_grid_csv`].
    pub int_grid_csv: Seq<i32>,
}

impl View for IntGridLayer {
    type V = IntGridView;

    open spec fn view(&self) -> IntGridView {
        IntGridView {
            c_wid: self.c_wid as int,
            c_hei: self.c_hei as int,
            int_grid_csv: self.int_grid_csv@,
        }
    }
}

/// The tile type that the value `tile` of an integer grid stands for.
pub open spec fn spec_tile_type(tile: i32) -> TileType {
    if tile == 1 {
        TileType::Grass
    } else if tile == 2 {
        TileType::Water
    } else if tile == 3 {
        TileType::Path
    } else {
        TileType::Empty
    }
}

impl IntGridView {
    /// Where the value for the grid cell `position` stands in
    /// `int_grid_csv`, if the cell lies on the layer and the layer holds a
    /// value for it.
    pub open spec fn index_of(self, position: GridPosition) -> Option<int> {
        let column = position.x as int;
        let row = self.c_hei - position.y - 1;
        let index = column + row * self.c_wid;
        if 0 <= column < self.c_wid && 0 <= row < self.c_hei && index < self.int_grid_csv.len() {
            Some(index)
        } else {
            None
        }
    }

    /// The tile type at the grid cell `position`.
    pub open spec fn tile_type_at(self, position: GridPosition) -> TileType {
        match self.index_of(position) {
            Some(index) => spec_tile_type(self.int_grid_csv[index]),
            None => TileType::Empty,
        }
    }
}

/// The tile type that the value `tile` of an integer grid stands for: 1 is
/// grass, 2 is water, 3 is path, and every other value is no tile.
pub fn tile_type(tile: i32) -> (tile_type: TileType)
    ensures
        tile_type == spec_tile_type(tile),
{
    match tile {
        1 => TileType::Grass,
        2 => TileType::Water,
        3 => TileType::Path,
        _ => TileType::Empty,
    }
}

/// Get the int grid tile type from the tileset: the type of the tile at the
/// grid cell `position`. A cell that lies off the layer, or for which the
/// layer holds no value, has no tile.
pub fn get_tile_type_at(tilemap: &IntGridLayer, position: GridPosition) -> (tile: TileType)
    ensures
        tile == tilemap@.tile_type_at(position),
{
    let x: i64 = position.x as i64;
    let y: i64 = tilemap.c_hei as i64 - position.y as i64 - 1;
    let width: i64 = tilemap.c_wid as i64;
    let height: i64 = tilemap.c_hei as i64;
    if x < 0 || x >= width || y < 0 || y >= height {
        return TileType::Empty;
    }
    assert(0 <= y * width <= 0x7fff_ffff * 0x7fff_ffff) by (nonlinear_arith)
        requires
            0 <= y <= 0x7fff_ffff,
            0 <= width <= 0x7fff_ffff,
    ;
    let index: u64 = (x + y * width) as u64;
    if index >= tilemap.int_grid_csv.len() as u64 {
        return TileType::Empty;
    }
    tile_type(tilemap.int_grid_csv[index as usize])
}

} // verus!
