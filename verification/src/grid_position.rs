//! Integer coordinates of a cell on the game grid, and the arithmetic the
//! rest of the game does with them.
//!
//! A grid position is always integral. What is drawn between two cells
//! while an entity moves is derived from it and never stored in it.

use vstd::prelude::*;

verus! {

/// Side of one grid cell in world units (pixels of the level art).
pub const TILE_SIZE: i64 = 16;

/// `value` limited to the range from -1 to 1: its sign.
pub open spec fn clamp_unit(value: int) -> int {
    if value > 0 {
        1
    } else if value < 0 {
        -1
    } else {
        0
    }
}

/// The larger of the two distances along the axes: the number of
/// single-cell steps, diagonal ones included, that separate two cells.
pub open spec fn step_distance(from: GridPosition, to: GridPosition) -> nat {
    let dx = vstd::math::abs(to.x - from.x);
    let dy = vstd::math::abs(to.y - from.y);
    if dx >= dy {
        dx
    } else {
        dy
    }
}

/// The cell of the grid that an entity occupies.
#[derive(Debug, Clone, Copy, PartialEq, Eq, Structural, Hash)]
pub struct GridPosition {
    /// Column, growing to the right.
    pub x: i32,
    /// Row, growing upwards.
    pub y: i32,
}

impl Default for GridPosition {
    /// The origin of the grid.
    fn default() -> (position: GridPosition)
        ensures
            position.x == 0,
            position.y == 0,
    {
        GridPosition { x: 0, y: 0 }
    }
}

impl core::ops::Add for GridPosition {
    type Output = GridPosition;

    /// Adds column to column and row to row.
    fn add(self, rhs: GridPosition) -> (sum: GridPosition) {
        GridPosition { x: self.x + rhs.x, y: self.y + rhs.y }
    }
}

impl vstd::std_specs::ops::AddSpecImpl for GridPosition {
    open spec fn obeys_add_spec() -> bool {
        true
    }

    open spec fn add_req(self, rhs: GridPosition) -> bool {
        &&& i32::MIN <= self.x + rhs.x <= i32::MAX
        &&& i32::MIN <= self.y + rhs.y <= i32::MAX
    }

    open spec fn add_spec(self, rhs: GridPosition) -> GridPosition {
        GridPosition { x: (self.x + rhs.x) as i32, y: (self.y + rhs.y) as i32 }
    }
}

impl core::ops::Sub for GridPosition {
    type Output = GridPosition;

    /// Subtracts column from column and row from row.
    fn sub(self, rhs: GridPosition) -> (difference: GridPosition) {
        GridPosition { x: self.x - rhs.x, y: self.y - rhs.y }
    }
}

impl vstd::std_specs::ops::SubSpecImpl for GridPosition {
    open spec fn obeys_sub_spec() -> bool {
        true
    }

    open spec fn sub_req(self, rhs: GridPosition) -> bool {
        &&& i32::MIN <= self.x - rhs.x <= i32::MAX
        &&& i32::MIN <= self.y - rhs.y <= i32::MAX
    }

    open spec fn sub_spec(self, rhs: GridPosition) -> GridPosition {
        GridPosition { x: (self.x - rhs.x) as i32, y: (self.y - rhs.y) as i32 }
    }
}

/// One axis of [`GridPosition::direction_to`].
fn axis_direction(from: i32, to: i32) -> (step: i32)
    ensures
        step == clamp_unit(to - from),
{
    if to > from {
        1
    } else if to < from {
        -1
    } else {
        0
    }
}

impl GridPosition {
    /// The cell at column `x` and row `y`.
    pub fn new(x: i32, y: i32) -> (position: GridPosition)
        ensures
            position.x == x,
            position.y == y,
    {
        GridPosition { x, y }
    }

    /// The single step that leads from `self` towards `target`.
    pub open spec fn spec_direction_to(self, target: GridPosition) -> GridPosition {
        GridPosition {
            x: clamp_unit(target.x - self.x) as i32,
            y: clamp_unit(target.y - self.y) as i32,
        }
    }

    /// Where `self` ends up after one step towards `target`.
    pub open spec fn spec_step_toward(self, target: GridPosition) -> GridPosition {
        GridPosition {
            x: (self.x + clamp_unit(target.x - self.x)) as i32,
            y: (self.y + clamp_unit(target.y - self.y)) as i32,
        }
    }

    /// Each axis limited to the range from -1 to 1, independently of the
    /// other: a displacement of (3, -2) becomes the single step (1, -1).
    pub fn clamp_to_unit(self) -> (step: GridPosition)
        ensures
            step.x == clamp_unit(self.x as int),
            step.y == clamp_unit(self.y as int),
    {
        GridPosition { x: axis_direction(0, self.x), y: axis_direction(0, self.y) }
    }

    /// The single step that leads from `self` towards `target`: the
    /// displacement `target - self` with each axis limited to the range from
    /// -1 to 1. It is defined for every pair of cells, also where the
    /// displacement itself does not fit the coordinate type.
    pub fn direction_to(self, target: GridPosition) -> (step: GridPosition)
        ensures
            step == self.spec_direction_to(target),
            step.x == clamp_unit(target.x - self.x),
            step.y == clamp_unit(target.y - self.y),
    {
        GridPosition {
            x: axis_direction(self.x, target.x),
            y: axis_direction(self.y, target.y),
        }
    }

    /// The cell one step closer to `target`, or `target` itself once it is
    /// reached. The step may be diagonal and never skips a cell.
    pub fn step_toward(self, target: GridPosition) -> (next: GridPosition)
        ensures
            next == self.spec_step_toward(target),
            next.x == self.x + clamp_unit(target.x - self.x),
            next.y == self.y + clamp_unit(target.y - self.y),
            step_distance(next, target) == if self == target {
                0
            } else {
                step_distance(self, target) - 1
            },
    {
        let step = self.direction_to(target);
        GridPosition { x: self.x + step.x, y: self.y + step.y }
    }

    /// The same cell in the coordinates of a tile map of `level_height` rows,
    /// whose rows are counted downwards from the top, and back: the
    /// conversion is its own inverse. `None` where the converted row does
    /// not fit the coordinate type.
    pub fn flip_row(self, level_height: i32) -> (flipped: Option<GridPosition>)
        ensures
            flipped == spec_flip_row(self, level_height),
    {
        let row: i64 = level_height as i64 - self.y as i64 - 1;
        if row < i32::MIN as i64 || row > i32::MAX as i64 {
            None
        } else {
            Some(GridPosition { x: self.x, y: row as i32 })
        }
    }

    /// The world-space offset of this cell from the cell at the origin, in
    /// world units along each axis: [`TILE_SIZE`] per cell.
    pub fn to_world(self) -> (offset: (i64, i64))
        ensures
            offset.0 == self.x * TILE_SIZE,
            offset.1 == self.y * TILE_SIZE,
    {
        (self.x as i64 * TILE_SIZE, self.y as i64 * TILE_SIZE)
    }
}

/// The row of a cell counted from the other end of a level of
/// `level_height` rows, where that row is a valid coordinate.
pub open spec fn spec_flip_row(position: GridPosition, level_height: i32) -> Option<GridPosition> {
    let row = level_height - position.y - 1;
    if i32::MIN <= row <= i32::MAX {
        Some(GridPosition { x: position.x, y: row as i32 })
    } else {
        None
    }
}

/// Flipping the rows of a level twice gives the cell back.
pub proof fn lemma_flip_row_twice(position: GridPosition, level_height: i32)
    requires
        spec_flip_row(position, level_height) is Some,
    ensures
        spec_flip_row(spec_flip_row(position, level_height)->0, level_height) == Some(position),
{
}

/// The cell reached from `from` by `steps` single steps towards `target`.
pub open spec fn walk(from: GridPosition, target: GridPosition, steps: nat) -> GridPosition
    decreases steps,
{
    if steps == 0 {
        from
    } else {
        walk(from.spec_step_toward(target), target, (steps - 1) as nat)
    }
}

/// Every single step towards `target` shortens the remaining distance by
/// one: the walk arrives after exactly `step_distance(from, target)` steps
/// and stays on `target` from then on.
pub proof fn lemma_walk_distance(from: GridPosition, target: GridPosition, steps: nat)
    ensures
        step_distance(walk(from, target, steps), target) == if steps >= step_distance(
            from,
            target,
        ) {
            0
        } else {
            step_distance(from, target) - steps
        },
        steps >= step_distance(from, target) ==> walk(from, target, steps) == target,
    decreases steps,
{
    if steps > 0 {
        lemma_walk_distance(from.spec_step_toward(target), target, (steps - 1) as nat);
    }
}

} // verus!
