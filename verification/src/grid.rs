use vstd::prelude::*;

verus! {

/// Width of the city grid in tiles.
pub const GRID_W: i32 = 32;

/// Height of the city grid in tiles.
pub const GRID_H: i32 = 20;

/// Number of simulated hours in one in-game day.
pub const HOURS_PER_DAY: u32 = 24;

/// Number of tiles in the grid.
pub const GRID_TILES: usize = 640;

/// A tile coordinate on the city grid (column `x`, row `y`).
#[derive(Clone, Copy, PartialEq, Eq, Debug, Structural)]
pub struct GridPos {
    pub x: i32,
    pub y: i32,
}

/// The coordinate lies on the grid.
pub open spec fn pos_in_bounds(x: int, y: int) -> bool {
    0 <= x < GRID_W && 0 <= y < GRID_H
}

/// Row-major index of an in-bounds coordinate.
pub open spec fn tile_index(x: int, y: int) -> int {
    y * GRID_W + x
}

/// Column of a row-major index.
pub open spec fn index_x(i: int) -> int {
    i % (GRID_W as int)
}

/// Row of a row-major index.
pub open spec fn index_y(i: int) -> int {
    i / (GRID_W as int)
}

impl GridPos {
    pub fn new(x: i32, y: i32) -> (p: GridPos)
        ensures
            p.x == x,
            p.y == y,
    {
        GridPos { x, y }
    }

    pub open spec fn in_bounds_spec(self) -> bool {
        pos_in_bounds(self.x as int, self.y as int)
    }

    /// Whether the coordinate lies on the grid.
    pub fn in_bounds(&self) -> (b: bool)
        ensures
            b == self.in_bounds_spec(),
    {
        self.x >= 0 && self.y >= 0 && self.x < GRID_W && self.y < GRID_H
    }

    /// Row-major index of an in-bounds coordinate.
    pub fn index(&self) -> (i: usize)
        requires
            self.in_bounds_spec(),
        ensures
            i as int == tile_index(self.x as int, self.y as int),
            i < GRID_TILES,
    {
        assert(self.y * GRID_W + self.x < 640) by (nonlinear_arith)
            requires
                0 <= self.x < 32,
                0 <= self.y < 20,
        ;
        (self.y * GRID_W + self.x) as usize
    }
}

/// Index and coordinates agree for every in-bounds coordinate.
pub proof fn lemma_index_coords(x: int, y: int)
    requires
        pos_in_bounds(x, y),
    ensures
        0 <= tile_index(x, y) < GRID_TILES,
        index_x(tile_index(x, y)) == x,
        index_y(tile_index(x, y)) == y,
{
    assert(0 <= y * 32 + x < 640) by (nonlinear_arith)
        requires
            0 <= x < 32,
            0 <= y < 20,
    ;
    assert((y * 32 + x) % 32 == x && (y * 32 + x) / 32 == y) by (nonlinear_arith)
        requires
            0 <= x < 32,
            0 <= y < 20,
    ;
}

/// Coordinates of every index of the grid are in bounds and map back to it.
pub proof fn lemma_coords_index(i: int)
    requires
        0 <= i < GRID_TILES,
    ensures
        pos_in_bounds(index_x(i), index_y(i)),
        tile_index(index_x(i), index_y(i)) == i,
{
    assert(0 <= i % 32 < 32 && 0 <= i / 32 < 20 && (i / 32) * 32 + i % 32 == i) by (nonlinear_arith)
        requires
            0 <= i < 640,
    ;
}

} // verus!
