use vstd::prelude::*;

use crate::game::GameState;
use crate::grid::{pos_in_bounds, tile_index, GridPos};
use crate::model::TileKind;
use crate::settings::{ActiveRenderTier, PropDensity};

verus! {

/// Bit of the neighbour above (smaller `y`).
pub const NORTH: u8 = 1;

/// Bit of the neighbour to the right (larger `x`).
pub const EAST: u8 = 2;

/// Bit of the neighbour below (larger `y`).
pub const SOUTH: u8 = 4;

/// Bit of the neighbour to the left (smaller `x`).
pub const WEST: u8 = 8;

/// The kind of tile `(x, y)`, or `None` off the grid.
pub open spec fn kind_at(game: GameState, x: int, y: int) -> Option<TileKind> {
    if pos_in_bounds(x, y) {
        Some(game.grid@[tile_index(x, y)].kind)
    } else {
        None
    }
}

/// Coordinates whose four neighbours can be computed without overflow.
pub open spec fn has_neighbours(pos: GridPos) -> bool {
    i32::MIN < pos.x < i32::MAX && i32::MIN < pos.y < i32::MAX
}

pub open spec fn bit_if(cond: bool, bit: int) -> int {
    if cond {
        bit
    } else {
        0
    }
}

/// Bit flags of the orthogonal neighbours of `(x, y)` that are roads.
pub open spec fn road_mask_spec(game: GameState, x: int, y: int) -> int {
    bit_if(kind_at(game, x, y - 1) == Some(TileKind::Road), 1) + bit_if(
        kind_at(game, x + 1, y) == Some(TileKind::Road),
        2,
    ) + bit_if(kind_at(game, x, y + 1) == Some(TileKind::Road), 4) + bit_if(
        kind_at(game, x - 1, y) == Some(TileKind::Road),
        8,
    )
}

/// A lot of kind `kind` has a boundary towards a neighbour that is off the
/// grid, a road, a river or of another kind.
pub open spec fn boundary_towards(game: GameState, kind: TileKind, x: int, y: int) -> bool {
    match kind_at(game, x, y) {
        None => true,
        Some(k) => k == TileKind::Road || k == TileKind::River || k != kind,
    }
}

/// Bit flags of the sides of the lot at `(x, y)` that need a boundary; roads
/// have none.
pub open spec fn lot_boundary_mask_spec(game: GameState, x: int, y: int) -> int {
    let kind = game.grid@[tile_index(x, y)].kind;
    if kind == TileKind::Road {
        0
    } else {
        bit_if(boundary_towards(game, kind, x, y - 1), 1) + bit_if(
            boundary_towards(game, kind, x + 1, y),
            2,
        ) + bit_if(boundary_towards(game, kind, x, y + 1), 4) + bit_if(
            boundary_towards(game, kind, x - 1, y),
            8,
        )
    }
}

/// Number of orthogonal neighbours of `(x, y)` of `kind`.
pub open spec fn neighbour_count_spec(game: GameState, x: int, y: int, kind: TileKind) -> int {
    bit_if(kind_at(game, x, y - 1) == Some(kind), 1) + bit_if(kind_at(game, x + 1, y) == Some(kind), 1)
        + bit_if(kind_at(game, x, y + 1) == Some(kind), 1) + bit_if(
        kind_at(game, x - 1, y) == Some(kind),
        1,
    )
}

/// Some orthogonal neighbour of `(x, y)` is of `kind`.
pub open spec fn has_adjacent_spec(game: GameState, x: int, y: int, kind: TileKind) -> bool {
    kind_at(game, x, y - 1) == Some(kind) || kind_at(game, x + 1, y) == Some(kind) || kind_at(
        game,
        x,
        y + 1,
    ) == Some(kind) || kind_at(game, x - 1, y) == Some(kind)
}

/// The kind of the tile at `pos`, or `None` off the grid.
pub fn tile_kind_at(game: &GameState, pos: GridPos) -> (k: Option<TileKind>)
    requires
        game.shape_ok(),
    ensures
        k == kind_at(*game, pos.x as int, pos.y as int),
{
    if pos.in_bounds() {
        Some(game.tile(pos).kind)
    } else {
        None
    }
}

fn neighbour_is(game: &GameState, x: i32, y: i32, kind: TileKind) -> (b: bool)
    requires
        game.shape_ok(),
    ensures
        b == (kind_at(*game, x as int, y as int) == Some(kind)),
{
    match tile_kind_at(game, GridPos { x, y }) {
        Some(k) => k == kind,
        None => false,
    }
}

/// Bit flags (`NORTH`, `EAST`, `SOUTH`, `WEST`) of the neighbours of `pos`
/// that are roads.
pub fn road_mask(game: &GameState, pos: GridPos) -> (m: u8)
    requires
        game.shape_ok(),
        has_neighbours(pos),
    ensures
        m == road_mask_spec(*game, pos.x as int, pos.y as int),
{
    let mut mask: u8 = 0;
    if neighbour_is(game, pos.x, pos.y - 1, TileKind::Road) {
        mask = mask + NORTH;
    }
    if neighbour_is(game, pos.x + 1, pos.y, TileKind::Road) {
        mask = mask + EAST;
    }
    if neighbour_is(game, pos.x, pos.y + 1, TileKind::Road) {
        mask = mask + SOUTH;
    }
    if neighbour_is(game, pos.x - 1, pos.y, TileKind::Road) {
        mask = mask + WEST;
    }
    mask
}

fn boundary_is(game: &GameState, kind: TileKind, x: i32, y: i32) -> (b: bool)
    requires
        game.shape_ok(),
    ensures
        b == boundary_towards(*game, kind, x as int, y as int),
{
    match tile_kind_at(game, GridPos { x, y }) {
        None => true,
        Some(k) => k == TileKind::Road || k == TileKind::River || k != kind,
    }
}

/// Bit flags of the sides of the lot at `pos` that border the map edge, a
/// road, the river or ground of another kind; road tiles get no boundary.
pub fn lot_boundary_mask(game: &GameState, pos: GridPos) -> (m: u8)
    requires
        game.shape_ok(),
        pos.in_bounds_spec(),
    ensures
        m == lot_boundary_mask_spec(*game, pos.x as int, pos.y as int),
{
    let kind = game.tile(pos).kind;
    if kind == TileKind::Road {
        return 0;
    }
    let mut mask: u8 = 0;
    if boundary_is(game, kind, pos.x, pos.y - 1) {
        mask = mask + NORTH;
    }
    if boundary_is(game, kind, pos.x + 1, pos.y) {
        mask = mask + EAST;
    }
    if boundary_is(game, kind, pos.x, pos.y + 1) {
        mask = mask + SOUTH;
    }
    if boundary_is(game, kind, pos.x - 1, pos.y) {
        mask = mask + WEST;
    }
    mask
}

/// Number of orthogonal neighbours of `pos` of `kind`.
pub fn orthogonal_neighbor_count(game: &GameState, pos: GridPos, kind: TileKind) -> (c: u8)
    requires
        game.shape_ok(),
        has_neighbours(pos),
    ensures
        c == neighbour_count_spec(*game, pos.x as int, pos.y as int, kind),
        c <= 4,
{
    let mut count: u8 = 0;
    if neighbour_is(game, pos.x, pos.y - 1, kind) {
        count = count + 1;
    }
    if neighbour_is(game, pos.x + 1, pos.y, kind) {
        count = count + 1;
    }
    if neighbour_is(game, pos.x, pos.y + 1, kind) {
        count = count + 1;
    }
    if neighbour_is(game, pos.x - 1, pos.y, kind) {
        count = count + 1;
    }
    count
}

/// Number of orthogonal neighbours of `pos` that are roads.
pub fn road_adjacency_count(game: &GameState, pos: GridPos) -> (c: i32)
    requires
        game.shape_ok(),
        has_neighbours(pos),
    ensures
        c == neighbour_count_spec(*game, pos.x as int, pos.y as int, TileKind::Road),
{
    orthogonal_neighbor_count(game, pos, TileKind::Road) as i32
}

/// Lot span from the number of same-kind neighbours: none 1, one or two 2,
/// more 3.
pub open spec fn lot_span_of(same_neighbours: int) -> int {
    if same_neighbours == 0 {
        1
    } else if same_neighbours <= 2 {
        2
    } else {
        3
    }
}

/// How many tiles the lot at `pos` spans, judged by its neighbours of `kind`.
pub fn lot_span(game: &GameState, pos: GridPos, kind: TileKind) -> (s: u8)
    requires
        game.shape_ok(),
        has_neighbours(pos),
    ensures
        s == lot_span_of(neighbour_count_spec(*game, pos.x as int, pos.y as int, kind)),
{
    let same_neighbors = orthogonal_neighbor_count(game, pos, kind);
    if same_neighbors == 0 {
        1
    } else if same_neighbors <= 2 {
        2
    } else {
        3
    }
}

/// Whether an orthogonal neighbour of `pos` is of `kind`.
pub fn has_adjacent_kind(game: &GameState, pos: GridPos, kind: TileKind) -> (b: bool)
    requires
        game.shape_ok(),
        has_neighbours(pos),
    ensures
        b == has_adjacent_spec(*game, pos.x as int, pos.y as int, kind),
{
    neighbour_is(game, pos.x, pos.y - 1, kind) || neighbour_is(game, pos.x + 1, pos.y, kind)
        || neighbour_is(game, pos.x, pos.y + 1, kind) || neighbour_is(game, pos.x - 1, pos.y, kind)
}

/// Whether a building, industrial site, control center or utility site
/// borders `pos`.
pub fn adjacent_building_demand(game: &GameState, pos: GridPos) -> (b: bool)
    requires
        game.shape_ok(),
        has_neighbours(pos),
    ensures
        b == (has_adjacent_spec(*game, pos.x as int, pos.y as int, TileKind::Building)
            || has_adjacent_spec(*game, pos.x as int, pos.y as int, TileKind::Industrial)
            || has_adjacent_spec(*game, pos.x as int, pos.y as int, TileKind::ControlCenter)
            || has_adjacent_spec(*game, pos.x as int, pos.y as int, TileKind::Utility)),
{
    has_adjacent_kind(game, pos, TileKind::Building) || has_adjacent_kind(
        game,
        pos,
        TileKind::Industrial,
    ) || has_adjacent_kind(game, pos, TileKind::ControlCenter) || has_adjacent_kind(
        game,
        pos,
        TileKind::Utility,
    )
}

/// A small per-tile variation seed in `0..11`.
pub fn tile_seed(pos: GridPos) -> (s: i32)
    requires
        i32::MIN <= pos.x * 37 <= i32::MAX,
        i32::MIN <= pos.y * 19 <= i32::MAX,
        i32::MIN <= pos.x * 37 + pos.y * 19 <= i32::MAX,
    ensures
        s == (pos.x * 37 + pos.y * 19) % 11,
        0 <= s < 11,
{
    let v = pos.x * 37 + pos.y * 19;
    if v >= 0 {
        v % 11
    } else {
        let m = (-(v + 1)) % 11;
        proof {
            assert(((-(v + 1)) as int) % 11 == 10 - (v as int) % 11) by (nonlinear_arith)
                requires v < 0;
        }
        10 - m
    }
}

/// Rank of a prop density: Off 0, Low 1, Medium 2, High 3.
pub fn density_rank(prop_density: PropDensity) -> (r: u8)
    ensures
        r == prop_density.rank(),
{
    match prop_density {
        PropDensity::Off => 0,
        PropDensity::Low => 1,
        PropDensity::Medium => 2,
        PropDensity::High => 3,
    }
}

/// Whether `current` is at least as dense as `threshold`.
pub fn density_at_least(current: PropDensity, threshold: PropDensity) -> (b: bool)
    ensures
        b == (current.rank() >= threshold.rank()),
{
    density_rank(current) >= density_rank(threshold)
}

/// Cache bucket of a render tier: fallback 0, shipping-low 1, full 3D 2.
pub fn render_tier_bucket(render_tier: ActiveRenderTier) -> (b: u8)
    ensures
        b == match render_tier {
            ActiveRenderTier::FallbackDebug => 0u8,
            ActiveRenderTier::ShippingLow => 1u8,
            ActiveRenderTier::Full3d => 2u8,
        },
{
    match render_tier {
        ActiveRenderTier::FallbackDebug => 0,
        ActiveRenderTier::ShippingLow => 1,
        ActiveRenderTier::Full3d => 2,
    }
}

/// The deterministic per-tile hash that varies building styles; it mixes
/// the coordinates, the salt and the river's column.
pub open spec fn noise_spec(x: i32, y: i32, river_x: i32, salt: u32) -> u32 {
    let v0 = ((x as u32) ^ salt).wrapping_mul(0x9e37_79b1u32);
    let v1 = v0 ^ (y as u32).wrapping_mul(0x85eb_ca6bu32);
    let v2 = v1.wrapping_add((river_x as u32).wrapping_mul(0xc2b2_ae35u32));
    let v3 = v2 ^ (v2 >> 16u32);
    let v4 = v3.wrapping_mul(0x7feb_352du32);
    v4 ^ (v4 >> 15u32)
}

/// Per-tile hash used for style variation.
pub fn noise_u32(game: &GameState, pos: GridPos, salt: u32) -> (v: u32)
    ensures
        v == noise_spec(pos.x, pos.y, game.river_x, salt),
{
    let mut value = pos.x as u32 ^ salt;
    value = value.wrapping_mul(0x9e37_79b1);
    value = value ^ (pos.y as u32).wrapping_mul(0x85eb_ca6b);
    value = value.wrapping_add((game.river_x as u32).wrapping_mul(0xc2b2_ae35));
    value = value ^ (value >> 16);
    value = value.wrapping_mul(0x7feb_352d);
    value = value ^ (value >> 15);
    value
}

/// How densely a building lot is built up.
#[derive(Clone, Copy, PartialEq, Eq, Debug, Structural, PartialOrd, Ord)]
pub enum BuildingDensity {
    Low,
    Mid,
    High,
    Tower,
}

impl BuildingDensity {
    /// Position in the order `Low < Mid < High < Tower`.
    pub open spec fn rank(self) -> int {
        match self {
            BuildingDensity::Low => 0,
            BuildingDensity::Mid => 1,
            BuildingDensity::High => 2,
            BuildingDensity::Tower => 3,
        }
    }

    /// Anything above low density.
    pub fn is_dense(self) -> (b: bool)
        ensures
            b == (self != BuildingDensity::Low),
    {
        !matches!(self, BuildingDensity::Low)
    }

    pub open spec fn downgrade_spec(self) -> BuildingDensity {
        match self {
            BuildingDensity::Low => BuildingDensity::Low,
            BuildingDensity::Mid => BuildingDensity::Low,
            BuildingDensity::High => BuildingDensity::Mid,
            BuildingDensity::Tower => BuildingDensity::High,
        }
    }

    /// One density lower, staying at low.
    pub fn downgrade(self) -> (d: BuildingDensity)
        ensures
            d == self.downgrade_spec(),
            d.rank() == if self.rank() > 0 {
                self.rank() - 1
            } else {
                0
            },
    {
        match self {
            BuildingDensity::Low => BuildingDensity::Low,
            BuildingDensity::Mid => BuildingDensity::Low,
            BuildingDensity::High => BuildingDensity::Mid,
            BuildingDensity::Tower => BuildingDensity::High,
        }
    }
}

} // verus!
