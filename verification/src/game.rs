use vstd::prelude::*;

use crate::grid::{
    index_x, index_y, lemma_coords_index, lemma_index_coords, pos_in_bounds, tile_index, GridPos,
    GRID_H, GRID_TILES, GRID_W, HOURS_PER_DAY,
};
use crate::model::{
    Asset, AssetKind, BridgeProfile, CityScore, Coverage, Incident, IncidentKind, LogicProfile,
    Tile, TileKind, Tool, ZoneKind,
};
use crate::random::{gen_range, thread_rng};
use crate::text::{concat_str, decimal, decimal_two, push_decimal, push_decimal_two};
use vstd::relations::injective_on;
use vstd::set_lib::{lemma_int_range, lemma_len_subset, lemma_map_size, set_int_range};

verus! {

/// Number of log lines the game keeps.
pub const LOG_CAPACITY: usize = 12;

/// The whole simulation state of one city.
#[derive(Clone, Debug)]
pub struct GameState {
    pub grid: Vec<Tile>,
    pub assets: Vec<Asset>,
    pub powered_tiles: Vec<bool>,
    pub watered_tiles: Vec<bool>,
    pub selected_tool: Tool,
    pub bridge_profile: BridgeProfile,
    pub logic_profile: LogicProfile,
    pub budget: i32,
    pub ops_budget: i32,
    pub selected_tile: Option<GridPos>,
    pub log: Vec<String>,
    pub score: CityScore,
    pub coverage: Coverage,
    pub incidents: Vec<Incident>,
    pub river_x: i32,
    pub research_points: i32,
    pub advanced_unlocked: bool,
    pub elapsed_hours: u32,
    pub visual_revision: u64,
}

// ---------------------------------------------------------------------------
// Counting tiles of a kind in a rectangle.

/// Number of in-bounds tiles of `kind` in row `y`, columns `x0 .. x1`.
pub open spec fn count_row(grid: Seq<Tile>, kind: TileKind, y: int, x0: int, x1: int) -> int
    decreases x1 - x0,
{
    if x1 <= x0 {
        0
    } else {
        count_row(grid, kind, y, x0, x1 - 1) + if pos_in_bounds(x1 - 1, y) && grid[tile_index(
            x1 - 1,
            y,
        )].kind == kind {
            1int
        } else {
            0int
        }
    }
}

/// Number of in-bounds tiles of `kind` in rows `y0 .. y1`, columns `x0 .. x1`.
pub open spec fn count_rect(
    grid: Seq<Tile>,
    kind: TileKind,
    y0: int,
    y1: int,
    x0: int,
    x1: int,
) -> int
    decreases y1 - y0,
{
    if y1 <= y0 {
        0
    } else {
        count_rect(grid, kind, y0, y1 - 1, x0, x1) + count_row(grid, kind, y1 - 1, x0, x1)
    }
}

/// Number of in-bounds tiles of `kind` within Chebyshev distance `radius` of `(cx, cy)`.
pub open spec fn count_nearby(grid: Seq<Tile>, cx: int, cy: int, kind: TileKind, radius: int) -> int {
    count_rect(grid, kind, cy - radius, cy + radius + 1, cx - radius, cx + radius + 1)
}

/// How many of the integers in `a .. b` lie in `lo .. hi`.
pub open spec fn overlap(a: int, b: int, lo: int, hi: int) -> int {
    let s = if a > lo {
        a
    } else {
        lo
    };
    let e = if b < hi {
        b
    } else {
        hi
    };
    if e > s {
        e - s
    } else {
        0
    }
}

/// A row count is at most the number of its columns on the grid, and zero
/// off the grid.
proof fn lemma_count_row_on_grid(grid: Seq<Tile>, kind: TileKind, y: int, x0: int, x1: int)
    requires
        x0 <= x1,
    ensures
        0 <= count_row(grid, kind, y, x0, x1) <= if 0 <= y < GRID_H {
            overlap(x0, x1, 0, GRID_W as int)
        } else {
            0
        },
    decreases x1 - x0,
{
    if x1 > x0 {
        lemma_count_row_on_grid(grid, kind, y, x0, x1 - 1);
    }
}

/// A rectangle count is at most the number of its tiles on the grid.
proof fn lemma_count_rect_on_grid(
    grid: Seq<Tile>,
    kind: TileKind,
    y0: int,
    y1: int,
    x0: int,
    x1: int,
)
    requires
        y0 <= y1,
        x0 <= x1,
    ensures
        0 <= count_rect(grid, kind, y0, y1, x0, x1) <= (GRID_W as int) * overlap(
            y0,
            y1,
            0,
            GRID_H as int,
        ),
        count_rect(grid, kind, y0, y1, x0, x1) <= GRID_TILES,
    decreases y1 - y0,
{
    if y1 > y0 {
        lemma_count_rect_on_grid(grid, kind, y0, y1 - 1, x0, x1);
        lemma_count_row_on_grid(grid, kind, y1 - 1, x0, x1);
    }
}

// ---------------------------------------------------------------------------
// Asset proximity.

pub open spec fn abs_int(v: int) -> int {
    if v < 0 {
        -v
    } else {
        v
    }
}

/// `(ax, ay)` lies within Chebyshev distance `radius` of `(cx, cy)`.
pub open spec fn within(ax: int, ay: int, cx: int, cy: int, radius: int) -> bool {
    abs_int(ax - cx) <= radius && abs_int(ay - cy) <= radius
}

/// Some asset of `kind` lies within Chebyshev distance `radius` of `(cx, cy)`.
pub open spec fn asset_nearby(assets: Seq<Asset>, cx: int, cy: int, kind: AssetKind, radius: int) -> bool {
    exists|i: int|
        0 <= i < assets.len() && #[trigger] assets[i].kind == kind && within(
            assets[i].pos.x as int,
            assets[i].pos.y as int,
            cx,
            cy,
            radius,
        )
}

// ---------------------------------------------------------------------------
// Placement rules.

/// Price of building with `tool` under the current bridge profile.
pub open spec fn cost_spec(tool: Tool, bridge_profile: BridgeProfile) -> int {
    match tool {
        Tool::Inspect => 0,
        Tool::Bridge => match bridge_profile {
            BridgeProfile::Standard => 120,
            BridgeProfile::Heavy => 170,
            BridgeProfile::Cheap => 80,
        },
        Tool::Sensor => 24,
        Tool::Plc => 70,
        Tool::Gateway => 48,
        Tool::Substation => 110,
        Tool::PumpStation => 95,
    }
}

/// Outcome of checking a placement: (allowed, compliant, note, zone).
#[verifier::opaque]
pub open spec fn placement_spec(
    grid: Seq<Tile>,
    assets: Seq<Asset>,
    bridge_profile: BridgeProfile,
    logic_profile: LogicProfile,
    advanced_unlocked: bool,
    tool: Tool,
    x: int,
    y: int,
) -> (bool, bool, Seq<char>, ZoneKind) {
    let tile_kind = grid[tile_index(x, y)].kind;
    match tool {
        Tool::Bridge => {
            if tile_kind != TileKind::River {
                (false, false, "Bridge must be placed on a river tile."@, ZoneKind::Municipal)
            } else if !(pos_in_bounds(x - 1, y) && pos_in_bounds(x + 1, y)) {
                (false, false, "Bridge alignment invalid at map edge."@, ZoneKind::Municipal)
            } else if !(grid[tile_index(x - 1, y)].kind == TileKind::Road && grid[tile_index(
                x + 1,
                y,
            )].kind == TileKind::Road) {
                (
                    false,
                    false,
                    "Bridge requires road approaches on both banks."@,
                    ZoneKind::Municipal,
                )
            } else {
                let nearby_industry = count_nearby(grid, x, y, TileKind::Industrial, 3);
                let compliant = match bridge_profile {
                    BridgeProfile::Standard => true,
                    BridgeProfile::Heavy => nearby_industry > 0,
                    BridgeProfile::Cheap => nearby_industry == 0,
                };
                let note = match bridge_profile {
                    BridgeProfile::Standard => "Standard bridge approved. Boring, serviceable, and therefore respectable."@,
                    BridgeProfile::Heavy => if compliant {
                        "Heavy bridge approved. High load margin, high cost, lower embarrassment risk."@
                    } else {
                        "Heavy bridge is overkill here. Expensive, maintenance-heavy, and politically annoying."@
                    },
                    BridgeProfile::Cheap => if compliant {
                        "Cheap bridge approved for low-demand crossing. Pray traffic growth stays polite."@
                    } else {
                        "Cheap bridge undersized for expected demand. Future headlines look grim."@
                    },
                };
                (true, compliant, note, ZoneKind::Municipal)
            }
        },
        Tool::Sensor => {
            if tile_kind != TileKind::Building && tile_kind != TileKind::Industrial && tile_kind
                != TileKind::Utility {
                (
                    false,
                    false,
                    "Sensor nodes belong on buildings, industry, or utility sites."@,
                    ZoneKind::Municipal,
                )
            } else {
                let note = if asset_nearby(assets, x, y, AssetKind::Gateway, 4) {
                    "Telemetry node deployed with plausible network path."@
                } else {
                    "Telemetry node deployed, but upstream segmentation is weak. Naturally."@
                };
                (true, true, note, ZoneKind::Municipal)
            }
        },
        Tool::Plc => {
            if tile_kind != TileKind::Industrial && tile_kind != TileKind::Utility {
                (
                    false,
                    false,
                    "PLC cabinets can only be deployed at industrial or utility sites."@,
                    ZoneKind::OT,
                )
            } else {
                let has_gateway = asset_nearby(assets, x, y, AssetKind::Gateway, 4);
                let has_sensor = asset_nearby(assets, x, y, AssetKind::Sensor, 2);
                let compliant = match logic_profile {
                    LogicProfile::Manual => has_gateway,
                    LogicProfile::Timed => has_gateway && has_sensor,
                    LogicProfile::Responsive => has_gateway && has_sensor && advanced_unlocked,
                };
                let note = match logic_profile {
                    LogicProfile::Manual => if compliant {
                        "Manual PLC mode deployed behind a gateway. Limited, but unlikely to invent chaos on its own."@
                    } else {
                        "Manual PLC lacks segmented access. Someone will eventually regret that."@
                    },
                    LogicProfile::Timed => if compliant {
                        "Timed PLC deployed with telemetry and segmentation. A decent compromise between control and hubris."@
                    } else {
                        "Timed PLC needs both telemetry and segmentation or it becomes a scheduled mistake."@
                    },
                    LogicProfile::Responsive => if compliant {
                        "Responsive PLC deployed. Better process behavior, but only because advanced controls were actually unlocked."@
                    } else if !advanced_unlocked {
                        "Responsive PLC requires advanced controls research."@
                    } else {
                        "Responsive PLC missing telemetry or segmentation. Smart failure is still failure."@
                    },
                };
                (true, compliant, note, ZoneKind::OT)
            }
        },
        Tool::Gateway => {
            if tile_kind != TileKind::Road && tile_kind != TileKind::ControlCenter {
                (
                    false,
                    false,
                    "Gateway should be placed on road-accessible or control-center tiles."@,
                    ZoneKind::Corporate,
                )
            } else {
                let compliant = count_nearby(grid, x, y, TileKind::Industrial, 5) > 0
                    || count_nearby(grid, x, y, TileKind::Utility, 5) > 0 || count_nearby(
                    grid,
                    x,
                    y,
                    TileKind::ControlCenter,
                    5,
                ) > 0;
                let note = if compliant {
                    "Gateway installed. Segmentation boundary improved."@
                } else {
                    "Gateway installed, but coverage is strategically mediocre."@
                };
                (true, compliant, note, ZoneKind::Corporate)
            }
        },
        Tool::Substation => {
            if tile_kind != TileKind::Road && tile_kind != TileKind::Utility {
                (
                    false,
                    false,
                    "Substation needs utility or road-adjacent serviceable ground."@,
                    ZoneKind::Municipal,
                )
            } else {
                let near_demand = count_nearby(grid, x, y, TileKind::Building, 4) + count_nearby(
                    grid,
                    x,
                    y,
                    TileKind::Industrial,
                    4,
                );
                let compliant = near_demand >= 3;
                let note = if compliant {
                    "Substation installed. Local feeder coverage improves."@
                } else {
                    "Substation installed in a low-demand area. Excellent way to waste capital."@
                };
                (true, compliant, note, ZoneKind::Municipal)
            }
        },
        Tool::PumpStation => {
            let near_river = count_nearby(grid, x, y, TileKind::River, 1) > 0;
            if tile_kind != TileKind::Road && tile_kind != TileKind::Utility && !near_river {
                (
                    false,
                    false,
                    "Pump station needs utility ground, road access, or river adjacency."@,
                    ZoneKind::OT,
                )
            } else {
                let has_plc = asset_nearby(assets, x, y, AssetKind::Plc, 2);
                let compliant = near_river || has_plc;
                let note = if compliant {
                    "Pump station installed with viable hydraulic context."@
                } else {
                    "Pump station lacks river proximity or nearby control integration. Water, apparently, dislikes fantasy."@
                };
                (true, compliant, note, ZoneKind::OT)
            }
        },
        Tool::Inspect => (false, false, Seq::<char>::empty(), ZoneKind::Municipal),
    }
}


// ---------------------------------------------------------------------------
// Service coverage.

/// Manhattan distance between two coordinates.
pub open spec fn manhattan_spec(ax: int, ay: int, bx: int, by: int) -> int {
    abs_int(ax - bx) + abs_int(ay - by)
}

/// Service radius (in Manhattan distance) of substations and pump stations.
pub const SERVICE_RADIUS: i32 = 5;

/// Tile `t` is within service radius of one of the first `n` assets of `kind`.
pub open spec fn served_by_first(assets: Seq<Asset>, kind: AssetKind, n: int, t: int) -> bool {
    exists|j: int|
        0 <= j < n && #[trigger] assets[j].kind == kind && manhattan_spec(
            assets[j].pos.x as int,
            assets[j].pos.y as int,
            index_x(t),
            index_y(t),
        ) <= SERVICE_RADIUS
}

/// Tile `t` is within service radius of some asset of `kind`.
pub open spec fn served_by(assets: Seq<Asset>, kind: AssetKind, t: int) -> bool {
    served_by_first(assets, kind, assets.len() as int, t)
}

/// Tiles that consume power and water.
pub open spec fn is_demand(kind: TileKind) -> bool {
    kind == TileKind::Building || kind == TileKind::Industrial || kind == TileKind::ControlCenter
}

/// Demand tiles among the first `n` tiles.
pub open spec fn count_demand(grid: Seq<Tile>, n: int) -> int
    decreases n,
{
    if n <= 0 {
        0
    } else {
        count_demand(grid, n - 1) + if is_demand(grid[n - 1].kind) {
            1int
        } else {
            0int
        }
    }
}

/// Powered demand tiles among the first `n` tiles.
pub open spec fn count_powered(grid: Seq<Tile>, powered: Seq<bool>, n: int) -> int
    decreases n,
{
    if n <= 0 {
        0
    } else {
        count_powered(grid, powered, n - 1) + if is_demand(grid[n - 1].kind) && powered[n - 1] {
            1int
        } else {
            0int
        }
    }
}

/// Watered demand tiles among the first `n` tiles; the control center
/// always counts as watered.
pub open spec fn count_watered(grid: Seq<Tile>, watered: Seq<bool>, n: int) -> int
    decreases n,
{
    if n <= 0 {
        0
    } else {
        count_watered(grid, watered, n - 1) + if is_demand(grid[n - 1].kind) && (watered[n - 1]
            || grid[n - 1].kind == TileKind::ControlCenter) {
            1int
        } else {
            0int
        }
    }
}

proof fn lemma_counts_bounded(grid: Seq<Tile>, powered: Seq<bool>, watered: Seq<bool>, n: int)
    requires
        0 <= n,
    ensures
        0 <= count_powered(grid, powered, n) <= count_demand(grid, n) <= n,
        0 <= count_watered(grid, watered, n) <= count_demand(grid, n),
    decreases n,
{
    if n > 0 {
        lemma_counts_bounded(grid, powered, watered, n - 1);
    }
}


/// The power/water flags mark exactly the tiles within service radius of a
/// substation/pump station, and the totals count the demand tiles, the
/// powered ones and the watered ones.
#[verifier::opaque]
pub open spec fn coverage_matches(
    grid: Seq<Tile>,
    assets: Seq<Asset>,
    powered: Seq<bool>,
    watered: Seq<bool>,
    coverage: Coverage,
) -> bool {
    &&& forall|t: int|
        0 <= t < GRID_TILES ==> #[trigger] powered[t] == served_by(assets, AssetKind::Substation, t)
    &&& forall|t: int|
        0 <= t < GRID_TILES ==> #[trigger] watered[t] == served_by(assets, AssetKind::PumpStation, t)
    &&& coverage.powered == count_powered(grid, powered, GRID_TILES as int)
    &&& coverage.watered == count_watered(grid, watered, GRID_TILES as int)
    &&& coverage.total_demand == count_demand(grid, GRID_TILES as int)
}

/// Every asset stands on its own in-bounds tile, and every tile's asset
/// index names an asset standing on that tile.
#[verifier::opaque]
pub open spec fn occupancy_ok(grid: Seq<Tile>, assets: Seq<Asset>) -> bool {
    &&& forall|i: int|
        0 <= i < assets.len() ==> (#[trigger] assets[i]).pos.in_bounds_spec()
            && grid[tile_index(assets[i].pos.x as int, assets[i].pos.y as int)].asset == Some(i as usize)
    &&& forall|t: int|
        0 <= t < GRID_TILES ==> match (#[trigger] grid[t]).asset {
            Some(a) => a < assets.len() && tile_index(
                assets[a as int].pos.x as int,
                assets[a as int].pos.y as int,
            ) == t,
            None => true,
        }
}


/// Every asset stands on the grid.
pub open spec fn assets_in_bounds(assets: Seq<Asset>) -> bool {
    forall|i: int| 0 <= i < assets.len() ==> (#[trigger] assets[i]).pos.in_bounds_spec()
}

proof fn lemma_occupancy_assets(grid: Seq<Tile>, assets: Seq<Asset>)
    requires
        occupancy_ok(grid, assets),
    ensures
        forall|i: int|
            0 <= i < assets.len() ==> (#[trigger] assets[i]).pos.in_bounds_spec()
                && grid[tile_index(assets[i].pos.x as int, assets[i].pos.y as int)].asset == Some(i as usize),
{
    reveal(occupancy_ok);
}

proof fn lemma_occupancy_in_bounds(grid: Seq<Tile>, assets: Seq<Asset>)
    requires
        occupancy_ok(grid, assets),
    ensures
        assets_in_bounds(assets),
{
    reveal(occupancy_ok);
}

// ---------------------------------------------------------------------------
// Log, scores and the outcome of a click.

/// The text of each log line.
pub open spec fn log_text(log: Seq<String>) -> Seq<Seq<char>> {
    log.map_values(|s: String| s@)
}

/// The log after appending `msg`: the oldest line is dropped once more than
/// `LOG_CAPACITY` lines are held.
pub open spec fn log_after(log: Seq<Seq<char>>, msg: Seq<char>) -> Seq<Seq<char>> {
    let l = log.push(msg);
    if l.len() > LOG_CAPACITY {
        l.drop_first()
    } else {
        l
    }
}

/// Adds the rating deltas of building `kind` and clamps the ratings.
pub fn apply_build_score(score: &mut CityScore, kind: AssetKind, compliant: bool, gateway_near: bool)
    ensures
        ({
            let d = build_deltas(kind, compliant, gateway_near);
            *final(score) == settled(*old(score), d.0, d.1, d.2, d.3)
        }),
{
    match kind {
        AssetKind::Bridge => settle_score(
            score,
            5,
            if compliant { 5 } else { -14 },
            0,
            if compliant { 4 } else { -18 },
        ),
        AssetKind::Sensor => settle_score(score, 4, 0, if gateway_near { 1 } else { -1 }, 0),
        AssetKind::Plc => settle_score(score, 6, 0, if compliant { 5 } else { -9 }, 0),
        AssetKind::Gateway => settle_score(score, 2, 0, 8, 0),
        AssetKind::Substation => settle_score(score, 3, 4, 0, 0),
        AssetKind::PumpStation => settle_score(score, 3, if compliant { 4 } else { -8 }, 0, 0),
    }
}

/// Operations budget consumed by building `kind`.
pub fn ops_cost_of(kind: AssetKind) -> (c: i32)
    ensures
        c == ops_cost(kind),
{
    match kind {
        AssetKind::Plc => 4,
        AssetKind::Gateway => 1,
        AssetKind::Substation => 2,
        AssetKind::PumpStation => 2,
        _ => 0,
    }
}

/// Research points earned by building `kind`.
pub fn research_gain_of(kind: AssetKind) -> (g: i32)
    ensures
        g == research_gain(kind),
{
    match kind {
        AssetKind::Sensor | AssetKind::Plc | AssetKind::Substation | AssetKind::PumpStation => 1,
        _ => 0,
    }
}

/// After an asset is appended and recorded on its free tile, every asset
/// still stands on its own tile and every tile names an asset on it.
proof fn lemma_placed_occupancy(pre: GameState, post: GameState, p: GridPos)
    requires
        pre.wf(),
        p.in_bounds_spec(),
        pre.grid@[tile_index(p.x as int, p.y as int)].asset is None,
        post.grid@ == pre.grid@.update(
            tile_index(p.x as int, p.y as int),
            (Tile {
                kind: pre.grid@[tile_index(p.x as int, p.y as int)].kind,
                asset: Some(pre.assets@.len() as usize),
            }),
        ),
        post.assets@.len() == pre.assets@.len() + 1,
        post.assets@.len() <= GRID_TILES,
        forall|i: int| 0 <= i < pre.assets@.len() ==> post.assets@[i] == pre.assets@[i],
        post.assets@[pre.assets@.len() as int].pos == p,
    ensures
        occupancy_ok(post.grid@, post.assets@),
{
    reveal(occupancy_ok);
    let n = pre.assets@.len();
    let t = tile_index(p.x as int, p.y as int);
    lemma_index_coords(p.x as int, p.y as int);
    assert forall|i: int| 0 <= i < post.assets@.len() implies (#[trigger] post.assets@[i]).pos.in_bounds_spec()
        && post.grid@[tile_index(post.assets@[i].pos.x as int, post.assets@[i].pos.y as int)].asset
        == Some(i as usize) by {
        if i < n {
            assert(post.assets@[i] == pre.assets@[i]);
            assert(pre.assets@[i].pos.in_bounds_spec());
            assert(pre.grid@[tile_index(pre.assets@[i].pos.x as int, pre.assets@[i].pos.y as int)].asset == Some(i as usize));
        }
    }
    assert forall|u: int| 0 <= u < GRID_TILES implies match (#[trigger] post.grid@[u]).asset {
        Some(a) => a < post.assets@.len() && tile_index(
            post.assets@[a as int].pos.x as int,
            post.assets@[a as int].pos.y as int,
        ) == u,
        None => true,
    } by {
        if u != t {
            assert(post.grid@[u] == pre.grid@[u]);
            match pre.grid@[u].asset {
                Some(a) => {
                    assert(pre.grid@[u].asset == Some(a));
                    assert(post.assets@[a as int] == pre.assets@[a as int]);
                },
                None => {},
            }
        }
    }
}

/// A rating clamped into `0..=100`.
pub open spec fn clamp_score(v: int) -> int {
    if v < 0 {
        0
    } else if v > 100 {
        100
    } else {
        v
    }
}

/// All four ratings clamped into `0..=100`.
pub open spec fn clamped(s: CityScore) -> CityScore {
    CityScore {
        smartness: clamp_score(s.smartness as int) as i32,
        engineering: clamp_score(s.engineering as int) as i32,
        ot_security: clamp_score(s.ot_security as int) as i32,
        citizen_trust: clamp_score(s.citizen_trust as int) as i32,
    }
}

/// All four ratings lie within `0..=100`.
pub open spec fn ratings_in_range(s: CityScore) -> bool {
    &&& 0 <= s.smartness <= 100
    &&& 0 <= s.engineering <= 100
    &&& 0 <= s.ot_security <= 100
    &&& 0 <= s.citizen_trust <= 100
}

/// Ratings with the given deltas added and each result clamped into
/// `0..=100`.
pub open spec fn settled(s: CityScore, ds: int, de: int, dot: int, dt: int) -> CityScore {
    CityScore {
        smartness: clamp_score(s.smartness + ds) as i32,
        engineering: clamp_score(s.engineering + de) as i32,
        ot_security: clamp_score(s.ot_security + dot) as i32,
        citizen_trust: clamp_score(s.citizen_trust + dt) as i32,
    }
}

/// A rating computed with room to spare, clamped into `0..=100`.
fn clamp_wide(v: i64) -> (r: i32)
    ensures
        r == clamp_score(v as int),
{
    if v < 0 {
        0
    } else if v > 100 {
        100
    } else {
        v as i32
    }
}

/// Adds deltas to the ratings and clamps each into `0..=100`; the sums are
/// taken with room to spare, so no rating value is too large for them.
fn settle_score(score: &mut CityScore, ds: i32, de: i32, dot: i32, dt: i32)
    ensures
        *final(score) == settled(*old(score), ds as int, de as int, dot as int, dt as int),
{
    score.smartness = clamp_wide(score.smartness as i64 + ds as i64);
    score.engineering = clamp_wide(score.engineering as i64 + de as i64);
    score.ot_security = clamp_wide(score.ot_security as i64 + dot as i64);
    score.citizen_trust = clamp_wide(score.citizen_trust as i64 + dt as i64);
}

/// Rating deltas (smartness, engineering, OT security, trust) for building
/// `kind`; `gateway_near` tells whether a gateway is within 4 tiles.
pub open spec fn build_deltas(kind: AssetKind, compliant: bool, gateway_near: bool) -> (int, int, int, int) {
    match kind {
        AssetKind::Bridge => (
            5,
            if compliant {
                5
            } else {
                -14
            },
            0,
            if compliant {
                4
            } else {
                -18
            },
        ),
        AssetKind::Sensor => (
            4,
            0,
            if gateway_near {
                1
            } else {
                -1
            },
            0,
        ),
        AssetKind::Plc => (
            6,
            0,
            if compliant {
                5
            } else {
                -9
            },
            0,
        ),
        AssetKind::Gateway => (2, 0, 8, 0),
        AssetKind::Substation => (3, 4, 0, 0),
        AssetKind::PumpStation => (
            3,
            if compliant {
                4
            } else {
                -8
            },
            0,
            0,
        ),
    }
}

/// Operations budget consumed by building `kind`.
pub open spec fn ops_cost(kind: AssetKind) -> int {
    match kind {
        AssetKind::Plc => 4,
        AssetKind::Gateway => 1,
        AssetKind::Substation => 2,
        AssetKind::PumpStation => 2,
        _ => 0,
    }
}

/// Research points earned by building `kind`.
pub open spec fn research_gain(kind: AssetKind) -> int {
    match kind {
        AssetKind::Sensor | AssetKind::Plc | AssetKind::Substation | AssetKind::PumpStation => 1,
        _ => 0,
    }
}

/// The counter after `wrapping_add(1)`.
pub open spec fn wrapping_inc(v: u64) -> u64 {
    if v == u64::MAX {
        0
    } else {
        (v + 1) as u64
    }
}

pub open spec fn denied_message(cost: int, budget: int) -> Seq<char> {
    "Budget denied. Need "@ + decimal(cost as nat) + ", have "@ + decimal(budget as nat) + "."@
}

pub open spec fn built_message(kind: AssetKind, p: GridPos, note: Seq<char>) -> Seq<char> {
    "Built "@ + kind.debug_name_spec() + " at ("@ + decimal(p.x as nat) + ", "@ + decimal(
        p.y as nat,
    ) + "). "@ + note
}

/// What a click on the map leads to.
#[derive(Clone, Copy, PartialEq, Eq, Debug, Structural)]
pub enum ClickOutcome {
    /// The position is off the grid; nothing changes.
    Ignored,
    /// The inspect tool only selects the tile.
    Inspected,
    /// The budget does not cover the tool's price.
    BudgetDenied,
    /// An asset already stands on the tile.
    Occupied,
    /// The placement rules refuse the tile.
    Rejected,
    /// The asset is built.
    Built,
}

// ---------------------------------------------------------------------------
// The hourly clock and the daily review.

/// An incident as (kind, hours left, note).
pub type IncidentView = (IncidentKind, u32, Seq<char>);

pub open spec fn incident_views(s: Seq<Incident>) -> Seq<IncidentView> {
    s.map_values(|i: Incident| (i.kind, i.ttl, i.note@))
}

/// Incidents one hour later: each loses an hour and those that run out are
/// dropped, the others keeping their order.
pub open spec fn aged(s: Seq<IncidentView>) -> Seq<IncidentView>
    decreases s.len(),
{
    if s.len() == 0 {
        s
    } else {
        let rest = aged(s.drop_last());
        let last = s.last();
        if last.1 > 1 {
            rest.push((last.0, (last.1 - 1) as u32, last.2))
        } else {
            rest
        }
    }
}

/// Some incident of `kind` is active.
pub open spec fn incident_active(s: Seq<IncidentView>, kind: IncidentKind) -> bool {
    exists|i: int| 0 <= i < s.len() && (#[trigger] s[i]).0 == kind
}

/// Every active incident has between one hour and one day left, and no two
/// active incidents are of the same kind.
pub open spec fn incidents_ok(v: Seq<IncidentView>) -> bool {
    &&& forall|i: int| 0 <= i < v.len() ==> 1 <= (#[trigger] v[i]).1 <= HOURS_PER_DAY
    &&& forall|i: int, j: int| 0 <= i < j < v.len() ==> (#[trigger] v[i]).0 != (#[trigger] v[j]).0
}

/// Raising an incident keeps the active incidents well formed.
pub proof fn lemma_raised_ok(state: (Seq<IncidentView>, Seq<Seq<char>>), kind: IncidentKind, note: Seq<char>)
    requires
        incidents_ok(state.0),
    ensures
        incidents_ok(raised(state, kind, note).0),
{
    if !incident_active(state.0, kind) {
        let n = state.0.push((kind, HOURS_PER_DAY, note));
        assert forall|i: int, j: int| 0 <= i < j < n.len() implies (#[trigger] n[i]).0 != (#[trigger] n[j]).0 by {
            if j == n.len() - 1 {
                assert(n[i] == state.0[i]);
                if n[i].0 == kind {
                    assert(incident_active(state.0, kind));
                }
            } else {
                assert(n[i] == state.0[i]);
                assert(n[j] == state.0[j]);
            }
        }
    }
}

/// Every incident left after an hour comes from an incident of the same kind.
proof fn lemma_aged_kinds(s: Seq<IncidentView>)
    ensures
        aged(s).len() <= s.len(),
        forall|i: int| 0 <= i < aged(s).len() ==> exists|j: int| 0 <= j < s.len() && (#[trigger] aged(s)[i]).0 == s[j].0 && aged(s)[i].1 == s[j].1 - 1,
    decreases s.len(),
{
    if s.len() > 0 {
        lemma_aged_kinds(s.drop_last());
        let rest = aged(s.drop_last());
        assert forall|i: int| 0 <= i < aged(s).len() implies exists|j: int| 0 <= j < s.len() && (#[trigger] aged(s)[i]).0 == s[j].0 && aged(s)[i].1 == s[j].1 - 1 by {
            if i < rest.len() {
                assert(aged(s)[i] == rest[i]);
                let j = choose|j: int| 0 <= j < s.drop_last().len() && rest[i].0 == s.drop_last()[j].0 && rest[i].1 == s.drop_last()[j].1 - 1;
                assert(s.drop_last()[j] == s[j]);
            } else {
                assert(aged(s)[i].0 == s[s.len() - 1].0);
            }
        }
    }
}

/// Ageing keeps the active incidents well formed.
pub proof fn lemma_aged_ok(s: Seq<IncidentView>)
    requires
        incidents_ok(s),
    ensures
        incidents_ok(aged(s)),
    decreases s.len(),
{
    if s.len() > 0 {
        let init = s.drop_last();
        assert(incidents_ok(init)) by {
            assert forall|i: int, j: int| 0 <= i < j < init.len() implies (#[trigger] init[i]).0 != (#[trigger] init[j]).0 by {
                assert(init[i] == s[i]);
                assert(init[j] == s[j]);
            }
            assert forall|i: int| 0 <= i < init.len() implies 1 <= (#[trigger] init[i]).1 <= HOURS_PER_DAY by {
                assert(init[i] == s[i]);
            }
        }
        lemma_aged_ok(init);
        lemma_aged_kinds(init);
        let rest = aged(init);
        let last = s.last();
        if last.1 > 1 {
            let n = rest.push((last.0, (last.1 - 1) as u32, last.2));
            assert(aged(s) == n);
            assert forall|i: int, j: int| 0 <= i < j < n.len() implies (#[trigger] n[i]).0 != (#[trigger] n[j]).0 by {
                if j == n.len() - 1 {
                    assert(n[i] == rest[i]);
                    let k = choose|k: int| 0 <= k < init.len() && (#[trigger] rest[i]).0 == init[k].0 && rest[i].1 == init[k].1 - 1;
                    assert(init[k] == s[k]);
                    assert(s[k].0 != s[s.len() - 1].0);
                } else {
                    assert(n[i] == rest[i]);
                    assert(n[j] == rest[j]);
                }
            }
            assert forall|i: int| 0 <= i < n.len() implies 1 <= (#[trigger] n[i]).1 <= HOURS_PER_DAY by {
                if i < rest.len() {
                    assert(n[i] == rest[i]);
                }
            }
        }
    }
}

/// Incidents and log after raising an incident of `kind`: nothing changes
/// while one of that kind is active; otherwise it is added for a day and
/// logged.
pub open spec fn raised(
    state: (Seq<IncidentView>, Seq<Seq<char>>),
    kind: IncidentKind,
    note: Seq<char>,
) -> (Seq<IncidentView>, Seq<Seq<char>>) {
    if incident_active(state.0, kind) {
        state
    } else {
        (state.0.push((kind, HOURS_PER_DAY, note)), log_after(state.1, "Incident: "@ + note))
    }
}

/// Incidents and log after raising `kind` when `cond` holds.
pub open spec fn raised_if(
    cond: bool,
    state: (Seq<IncidentView>, Seq<Seq<char>>),
    kind: IncidentKind,
    note: Seq<char>,
) -> (Seq<IncidentView>, Seq<Seq<char>>) {
    if cond {
        raised(state, kind, note)
    } else {
        state
    }
}

/// Assets of `kind` among the first `n`.
pub open spec fn count_assets(assets: Seq<Asset>, kind: AssetKind, n: int) -> int
    decreases n,
{
    if n <= 0 {
        0
    } else {
        count_assets(assets, kind, n - 1) + if assets[n - 1].kind == kind {
            1int
        } else {
            0int
        }
    }
}

/// Non-compliant assets of `kind` among the first `n`.
pub open spec fn count_noncompliant_assets(assets: Seq<Asset>, kind: AssetKind, n: int) -> int
    decreases n,
{
    if n <= 0 {
        0
    } else {
        count_noncompliant_assets(assets, kind, n - 1) + if assets[n - 1].kind == kind
            && !assets[n - 1].compliant {
            1int
        } else {
            0int
        }
    }
}

/// For the bridges among the first `n` assets: industry within 3 tiles plus
/// buildings within 2 tiles, summed.
pub open spec fn bridge_bonus(grid: Seq<Tile>, assets: Seq<Asset>, n: int) -> int
    decreases n,
{
    if n <= 0 {
        0
    } else {
        bridge_bonus(grid, assets, n - 1) + if assets[n - 1].kind == AssetKind::Bridge {
            count_nearby(
                grid,
                assets[n - 1].pos.x as int,
                assets[n - 1].pos.y as int,
                TileKind::Industrial,
                3,
            ) + count_nearby(
                grid,
                assets[n - 1].pos.x as int,
                assets[n - 1].pos.y as int,
                TileKind::Building,
                2,
            )
        } else {
            0int
        }
    }
}

proof fn lemma_asset_counts_bounded(assets: Seq<Asset>, kind: AssetKind, n: int)
    requires
        0 <= n,
    ensures
        0 <= count_noncompliant_assets(assets, kind, n) <= count_assets(assets, kind, n) <= n,
    decreases n,
{
    if n > 0 {
        lemma_asset_counts_bounded(assets, kind, n - 1);
    }
}

pub open spec fn brownout_note() -> Seq<char> {
    "Brownout risk rising. Too much demand, not enough feeder coverage."@
}

pub open spec fn low_pressure_note() -> Seq<char> {
    "Water pressure complaints increasing. The city remains unconvinced by dry taps."@
}

pub open spec fn bridge_stress_note() -> Seq<char> {
    "Bridge stress alert. Someone saved money in a way gravity intends to discuss."@
}

pub open spec fn ot_pathway_note() -> Seq<char> {
    "OT intrusion pathway detected. Flat trust model, shocking outcome."@
}

pub open spec fn plc_logic_note() -> Seq<char> {
    "Poorly integrated PLC logic increases process and cyber risk."@
}

/// `lo..=hi` clamp of an integer.
pub open spec fn clamp_int(v: int, lo: int, hi: int) -> int {
    if v < lo {
        lo
    } else if v > hi {
        hi
    } else {
        v
    }
}


// ---------------------------------------------------------------------------
// City generation.

/// Ground kind picked by a roll in `0..100`.
pub open spec fn roll_kind(roll: int) -> TileKind {
    if 0 <= roll <= 38 {
        TileKind::Building
    } else if 39 <= roll <= 56 {
        TileKind::Industrial
    } else if 57 <= roll <= 64 {
        TileKind::Park
    } else if 65 <= roll <= 69 {
        TileKind::Utility
    } else {
        TileKind::Empty
    }
}

/// The three road rows and the two road columns.
pub open spec fn on_road_line(x: int, y: int) -> bool {
    y == GRID_H / 2 || y == 4 || y == GRID_H - 5 || x == 4 || x == GRID_W - 5
}

/// The river crosses `(x, y)`: on every fourth row its column is shifted by
/// the tile's shift.
pub open spec fn river_at(band_center: int, shifts: Seq<i32>, x: int, y: int) -> bool {
    x == band_center + if y % 4 == 0 {
        shifts[tile_index(x, y)] as int
    } else {
        0int
    }
}

/// Tile kind of a generated city at `(x, y)`, given the river's column, the
/// per-tile shifts and the per-tile rolls.
pub open spec fn generated_kind(band_center: int, shifts: Seq<i32>, rolls: Seq<i32>, x: int, y: int) -> TileKind {
    if x == 2 && y == 2 {
        TileKind::ControlCenter
    } else if river_at(band_center, shifts, x, y) {
        TileKind::River
    } else if on_road_line(x, y) {
        TileKind::Road
    } else {
        roll_kind(rolls[tile_index(x, y)] as int)
    }
}

/// What holds of tile `(x, y)` in every generated city whose river runs in
/// column `river_x`.
pub open spec fn layout_possible(river_x: int, x: int, y: int, kind: TileKind) -> bool {
    if x == 2 && y == 2 {
        kind == TileKind::ControlCenter
    } else {
        &&& (y % 4 != 0 ==> (kind == TileKind::River <==> x == river_x))
        &&& (kind == TileKind::River ==> abs_int(x - river_x) <= 1)
        &&& (kind != TileKind::River && on_road_line(x, y) ==> kind == TileKind::Road)
        &&& (kind != TileKind::River && !on_road_line(x, y) ==> (kind == TileKind::Building || kind
            == TileKind::Industrial || kind == TileKind::Park || kind == TileKind::Utility || kind
            == TileKind::Empty))
    }
}

pub open spec fn generated_note() -> Seq<char> {
    "Legacy city generated. Utilities are inconsistent, OT is sloppy, and optimism is irrational."@
}

/// Logged when the advanced controls are bought a second time.
pub open spec fn already_unlocked_note() -> Seq<char> {
    "Advanced controls already unlocked. Humans do enjoy buying the same thing twice."@
}

/// Logged when fewer than three research points are held.
pub open spec fn need_research_note(points: nat) -> Seq<char> {
    "Need 3 research points to unlock advanced controls. Have "@ + decimal(points) + "."@
}

/// Logged when the advanced controls are unlocked.
pub open spec fn unlocked_note() -> Seq<char> {
    "Advanced controls unlocked. Responsive PLC mode is now permitted to cause sophisticated trouble."@
}

pub open spec fn objective_note() -> Seq<char> {
    "Phase 2 objective: raise smartness to 70+ while keeping engineering, OT security, and trust above 45."@
}

impl GameState {
    /// The grid-shaped vectors have one entry per tile.
    pub open spec fn shape_ok(self) -> bool {
        &&& self.grid@.len() == GRID_TILES
        &&& self.powered_tiles@.len() == GRID_TILES
        &&& self.watered_tiles@.len() == GRID_TILES
    }

    pub open spec fn placement_of(self, tool: Tool, p: GridPos) -> (bool, bool, Seq<char>, ZoneKind) {
        placement_spec(
            self.grid@,
            self.assets@,
            self.bridge_profile,
            self.logic_profile,
            self.advanced_unlocked,
            tool,
            p.x as int,
            p.y as int,
        )
    }

    /// The tile at an in-bounds coordinate.
    pub fn tile(&self, p: GridPos) -> (t: &Tile)
        requires
            self.shape_ok(),
            p.in_bounds_spec(),
        ensures
            *t == self.grid@[tile_index(p.x as int, p.y as int)],
    {
        &self.grid[p.index()]
    }

    /// Price of building with `tool` under the current bridge profile.
    pub fn cost_for(&self, tool: Tool) -> (c: i32)
        ensures
            c == cost_spec(tool, self.bridge_profile),
    {
        match tool {
            Tool::Inspect => 0,
            Tool::Bridge => match self.bridge_profile {
                BridgeProfile::Standard => 120,
                BridgeProfile::Heavy => 170,
                BridgeProfile::Cheap => 80,
            },
            Tool::Sensor => 24,
            Tool::Plc => 70,
            Tool::Gateway => 48,
            Tool::Substation => 110,
            Tool::PumpStation => 95,
        }
    }

    /// Number of in-bounds tiles of `kind` within Chebyshev distance
    /// `radius` of `center`.
    pub fn count_nearby_kind(&self, center: GridPos, kind: TileKind, radius: i32) -> (c: i32)
        requires
            self.shape_ok(),
            center.in_bounds_spec(),
            radius <= i32::MAX - GRID_W,
        ensures
            c == count_nearby(self.grid@, center.x as int, center.y as int, kind, radius as int),
            0 <= c <= GRID_TILES,
    {
        if radius < 0 {
            return 0;
        }
        let ghost g = self.grid@;
        let ghost x0 = center.x - radius;
        let ghost x1 = center.x + radius + 1;
        let ghost y0 = center.y - radius;
        let mut count: i32 = 0;
        let mut y = center.y - radius;
        while y <= center.y + radius
            invariant
                self.shape_ok(),
                g == self.grid@,
                center.in_bounds_spec(),
                0 <= radius <= i32::MAX - GRID_W,
                x0 == center.x - radius,
                x1 == center.x + radius + 1,
                y0 == center.y - radius,
                y0 <= y <= center.y + radius + 1,
                count == count_rect(g, kind, y0, y as int, x0, x1),
                0 <= count <= GRID_TILES,
            decreases center.y + radius + 1 - y,
        {
            let mut row: i32 = 0;
            let mut x = center.x - radius;
            while x <= center.x + radius
                invariant
                    self.shape_ok(),
                    g == self.grid@,
                    center.in_bounds_spec(),
                    0 <= radius <= i32::MAX - GRID_W,
                    x0 == center.x - radius,
                    x1 == center.x + radius + 1,
                    x0 <= x <= x1,
                    row == count_row(g, kind, y as int, x0, x as int),
                    0 <= row <= GRID_W,
                decreases center.x + radius + 1 - x,
            {
                let p = GridPos { x, y };
                if p.in_bounds() && self.grid[p.index()].kind == kind {
                    row = row + 1;
                }
                x = x + 1;
                proof {
                    lemma_count_row_on_grid(g, kind, y as int, x0, x as int);
                }
            }
            proof {
                lemma_count_rect_on_grid(g, kind, y0, y + 1, x0, x1);
            }
            count = count + row;
            y = y + 1;
        }
        count
    }

    /// Whether some asset of `kind` lies within Chebyshev distance `radius`
    /// of `center`.
    pub fn nearby_asset_kind(&self, center: GridPos, kind: AssetKind, radius: i32) -> (b: bool)
        requires
            center.in_bounds_spec(),
            forall|i: int| 0 <= i < self.assets@.len() ==> (#[trigger] self.assets@[i]).pos.in_bounds_spec(),
        ensures
            b == asset_nearby(self.assets@, center.x as int, center.y as int, kind, radius as int),
    {
        let mut i: usize = 0;
        while i < self.assets.len()
            invariant
                center.in_bounds_spec(),
                forall|j: int| 0 <= j < self.assets@.len() ==> (#[trigger] self.assets@[j]).pos.in_bounds_spec(),
                i <= self.assets@.len(),
                forall|j: int|
                    0 <= j < i ==> !(#[trigger] self.assets@[j].kind == kind && within(
                        self.assets@[j].pos.x as int,
                        self.assets@[j].pos.y as int,
                        center.x as int,
                        center.y as int,
                        radius as int,
                    )),
            decreases self.assets@.len() - i,
        {
            let asset = &self.assets[i];
            let dx = asset.pos.x - center.x;
            let dy = asset.pos.y - center.y;
            let adx = if dx < 0 { -dx } else { dx };
            let ady = if dy < 0 { -dy } else { dy };
            if asset.kind == kind && adx <= radius && ady <= radius {
                return true;
            }
            i = i + 1;
        }
        false
    }

    /// Checks whether `tool` may build at `p` and how the result is judged:
    /// (allowed, compliant, note, zone).
    pub fn validate_placement(&self, tool: Tool, p: GridPos) -> (r: (bool, bool, String, ZoneKind))
        requires
            self.shape_ok(),
            p.in_bounds_spec(),
            forall|i: int| 0 <= i < self.assets@.len() ==> (#[trigger] self.assets@[i]).pos.in_bounds_spec(),
        ensures
            r.0 == self.placement_of(tool, p).0,
            r.1 == self.placement_of(tool, p).1,
            r.2@ == self.placement_of(tool, p).2,
            r.3 == self.placement_of(tool, p).3,
    {
        reveal(placement_spec);
        let tile_kind = self.tile(p).kind;
        match tool {
            Tool::Bridge => {
                if tile_kind != TileKind::River {
                    return (
                        false,
                        false,
                        String::from_str("Bridge must be placed on a river tile."),
                        ZoneKind::Municipal,
                    );
                }
                let left = GridPos { x: p.x - 1, y: p.y };
                let right = GridPos { x: p.x + 1, y: p.y };
                if !(left.in_bounds() && right.in_bounds()) {
                    return (
                        false,
                        false,
                        String::from_str("Bridge alignment invalid at map edge."),
                        ZoneKind::Municipal,
                    );
                }
                let left_ok = self.tile(left).kind == TileKind::Road;
                let right_ok = self.tile(right).kind == TileKind::Road;
                if !(left_ok && right_ok) {
                    return (
                        false,
                        false,
                        String::from_str("Bridge requires road approaches on both banks."),
                        ZoneKind::Municipal,
                    );
                }
                let nearby_industry = self.count_nearby_kind(p, TileKind::Industrial, 3);
                let compliant = match self.bridge_profile {
                    BridgeProfile::Standard => true,
                    BridgeProfile::Heavy => nearby_industry > 0,
                    BridgeProfile::Cheap => nearby_industry == 0,
                };
                let note = match self.bridge_profile {
                    BridgeProfile::Standard => String::from_str(
                        "Standard bridge approved. Boring, serviceable, and therefore respectable.",
                    ),
                    BridgeProfile::Heavy => {
                        if compliant {
                            String::from_str(
                                "Heavy bridge approved. High load margin, high cost, lower embarrassment risk.",
                            )
                        } else {
                            String::from_str(
                                "Heavy bridge is overkill here. Expensive, maintenance-heavy, and politically annoying.",
                            )
                        }
                    },
                    BridgeProfile::Cheap => {
                        if compliant {
                            String::from_str(
                                "Cheap bridge approved for low-demand crossing. Pray traffic growth stays polite.",
                            )
                        } else {
                            String::from_str(
                                "Cheap bridge undersized for expected demand. Future headlines look grim.",
                            )
                        }
                    },
                };
                (true, compliant, note, ZoneKind::Municipal)
            },
            Tool::Sensor => {
                if tile_kind != TileKind::Building && tile_kind != TileKind::Industrial
                    && tile_kind != TileKind::Utility {
                    return (
                        false,
                        false,
                        String::from_str(
                            "Sensor nodes belong on buildings, industry, or utility sites.",
                        ),
                        ZoneKind::Municipal,
                    );
                }
                let gateway = self.nearby_asset_kind(p, AssetKind::Gateway, 4);
                let note = if gateway {
                    String::from_str("Telemetry node deployed with plausible network path.")
                } else {
                    String::from_str(
                        "Telemetry node deployed, but upstream segmentation is weak. Naturally.",
                    )
                };
                (true, true, note, ZoneKind::Municipal)
            },
            Tool::Plc => {
                if tile_kind != TileKind::Industrial && tile_kind != TileKind::Utility {
                    return (
                        false,
                        false,
                        String::from_str(
                            "PLC cabinets can only be deployed at industrial or utility sites.",
                        ),
                        ZoneKind::OT,
                    );
                }
                let has_gateway = self.nearby_asset_kind(p, AssetKind::Gateway, 4);
                let has_sensor = self.nearby_asset_kind(p, AssetKind::Sensor, 2);
                let compliant = match self.logic_profile {
                    LogicProfile::Manual => has_gateway,
                    LogicProfile::Timed => has_gateway && has_sensor,
                    LogicProfile::Responsive => has_gateway && has_sensor
                        && self.advanced_unlocked,
                };
                let note = match self.logic_profile {
                    LogicProfile::Manual => {
                        if compliant {
                            String::from_str(
                                "Manual PLC mode deployed behind a gateway. Limited, but unlikely to invent chaos on its own.",
                            )
                        } else {
                            String::from_str(
                                "Manual PLC lacks segmented access. Someone will eventually regret that.",
                            )
                        }
                    },
                    LogicProfile::Timed => {
                        if compliant {
                            String::from_str(
                                "Timed PLC deployed with telemetry and segmentation. A decent compromise between control and hubris.",
                            )
                        } else {
                            String::from_str(
                                "Timed PLC needs both telemetry and segmentation or it becomes a scheduled mistake.",
                            )
                        }
                    },
                    LogicProfile::Responsive => {
                        if compliant {
                            String::from_str(
                                "Responsive PLC deployed. Better process behavior, but only because advanced controls were actually unlocked.",
                            )
                        } else if !self.advanced_unlocked {
                            String::from_str("Responsive PLC requires advanced controls research.")
                        } else {
                            String::from_str(
                                "Responsive PLC missing telemetry or segmentation. Smart failure is still failure.",
                            )
                        }
                    },
                };
                (true, compliant, note, ZoneKind::OT)
            },
            Tool::Gateway => {
                if tile_kind != TileKind::Road && tile_kind != TileKind::ControlCenter {
                    return (
                        false,
                        false,
                        String::from_str(
                            "Gateway should be placed on road-accessible or control-center tiles.",
                        ),
                        ZoneKind::Corporate,
                    );
                }
                let compliant = self.count_nearby_kind(p, TileKind::Industrial, 5) > 0
                    || self.count_nearby_kind(p, TileKind::Utility, 5) > 0
                    || self.count_nearby_kind(p, TileKind::ControlCenter, 5) > 0;
                let note = if compliant {
                    String::from_str("Gateway installed. Segmentation boundary improved.")
                } else {
                    String::from_str("Gateway installed, but coverage is strategically mediocre.")
                };
                (true, compliant, note, ZoneKind::Corporate)
            },
            Tool::Substation => {
                if tile_kind != TileKind::Road && tile_kind != TileKind::Utility {
                    return (
                        false,
                        false,
                        String::from_str(
                            "Substation needs utility or road-adjacent serviceable ground.",
                        ),
                        ZoneKind::Municipal,
                    );
                }
                let near_demand = self.count_nearby_kind(p, TileKind::Building, 4)
                    + self.count_nearby_kind(p, TileKind::Industrial, 4);
                let compliant = near_demand >= 3;
                let note = if compliant {
                    String::from_str("Substation installed. Local feeder coverage improves.")
                } else {
                    String::from_str(
                        "Substation installed in a low-demand area. Excellent way to waste capital.",
                    )
                };
                (true, compliant, note, ZoneKind::Municipal)
            },
            Tool::PumpStation => {
                let near_river = self.count_nearby_kind(p, TileKind::River, 1) > 0;
                if tile_kind != TileKind::Road && tile_kind != TileKind::Utility && !near_river {
                    return (
                        false,
                        false,
                        String::from_str(
                            "Pump station needs utility ground, road access, or river adjacency.",
                        ),
                        ZoneKind::OT,
                    );
                }
                let has_plc = self.nearby_asset_kind(p, AssetKind::Plc, 2);
                let compliant = near_river || has_plc;
                let note = if compliant {
                    String::from_str("Pump station installed with viable hydraulic context.")
                } else {
                    String::from_str(
                        "Pump station lacks river proximity or nearby control integration. Water, apparently, dislikes fantasy.",
                    )
                };
                (true, compliant, note, ZoneKind::OT)
            },
            Tool::Inspect => (false, false, String::new(), ZoneKind::Municipal),
        }
    }

    /// The map, the assets, the money, research, coverage and the visual
    /// revision agree with `other`.
    pub open spec fn keeps_world(self, other: GameState) -> bool {
        &&& self.grid == other.grid
        &&& self.assets == other.assets
        &&& self.powered_tiles == other.powered_tiles
        &&& self.watered_tiles == other.watered_tiles
        &&& self.budget == other.budget
        &&& self.ops_budget == other.ops_budget
        &&& self.coverage == other.coverage
        &&& self.research_points == other.research_points
        &&& self.visual_revision == other.visual_revision
    }

    /// The tool and profile choices, incidents, river, research unlock and
    /// clock agree with `other`.
    pub open spec fn keeps_settings(self, other: GameState) -> bool {
        &&& self.selected_tool == other.selected_tool
        &&& self.bridge_profile == other.bridge_profile
        &&& self.logic_profile == other.logic_profile
        &&& self.incidents == other.incidents
        &&& self.river_x == other.river_x
        &&& self.advanced_unlocked == other.advanced_unlocked
        &&& self.elapsed_hours == other.elapsed_hours
    }

    /// Every field but the service flags and the coverage totals agrees with `other`.
    pub open spec fn same_except_coverage(self, other: GameState) -> bool {
        &&& self.grid == other.grid
        &&& self.assets == other.assets
        &&& self.selected_tool == other.selected_tool
        &&& self.bridge_profile == other.bridge_profile
        &&& self.logic_profile == other.logic_profile
        &&& self.budget == other.budget
        &&& self.ops_budget == other.ops_budget
        &&& self.selected_tile == other.selected_tile
        &&& self.log == other.log
        &&& self.score == other.score
        &&& self.incidents == other.incidents
        &&& self.river_x == other.river_x
        &&& self.research_points == other.research_points
        &&& self.advanced_unlocked == other.advanced_unlocked
        &&& self.elapsed_hours == other.elapsed_hours
        &&& self.visual_revision == other.visual_revision
    }

    /// The flags and totals of service coverage agree with the placed assets.
    pub open spec fn coverage_consistent(self) -> bool {
        coverage_matches(self.grid@, self.assets@, self.powered_tiles@, self.watered_tiles@, self.coverage)
    }

    /// Whether the tile at `p` is within reach of a substation.
    pub fn powered_at(&self, p: GridPos) -> (b: bool)
        requires
            self.shape_ok(),
            p.in_bounds_spec(),
        ensures
            b == self.powered_tiles@[tile_index(p.x as int, p.y as int)],
    {
        self.powered_tiles[p.index()]
    }

    /// Whether the tile at `p` is within reach of a pump station.
    pub fn watered_at(&self, p: GridPos) -> (b: bool)
        requires
            self.shape_ok(),
            p.in_bounds_spec(),
        ensures
            b == self.watered_tiles@[tile_index(p.x as int, p.y as int)],
    {
        self.watered_tiles[p.index()]
    }

    /// Recomputes the power and water flags from the placed substations and
    /// pump stations, and the coverage totals from the flags.
    pub fn recompute_coverage(&mut self)
        requires
            old(self).shape_ok(),
            forall|i: int|
                0 <= i < old(self).assets@.len() ==> (#[trigger] old(self).assets@[i]).pos.in_bounds_spec(),
        ensures
            final(self).shape_ok(),
            final(self).coverage_consistent(),
            final(self).same_except_coverage(*old(self)),
    {
        self.powered_tiles = blank_service_grid();
        self.watered_tiles = blank_service_grid();
        let mut k: usize = 0;
        while k < self.assets.len()
            invariant
                self.shape_ok(),
                self.same_except_coverage(*old(self)),
                forall|i: int|
                    0 <= i < self.assets@.len() ==> (#[trigger] self.assets@[i]).pos.in_bounds_spec(),
                k <= self.assets@.len(),
                forall|t: int|
                    0 <= t < GRID_TILES ==> #[trigger] self.powered_tiles@[t] == served_by_first(
                        self.assets@,
                        AssetKind::Substation,
                        k as int,
                        t,
                    ),
                forall|t: int|
                    0 <= t < GRID_TILES ==> #[trigger] self.watered_tiles@[t] == served_by_first(
                        self.assets@,
                        AssetKind::PumpStation,
                        k as int,
                        t,
                    ),
            decreases self.assets@.len() - k,
        {
            let kind = self.assets[k].kind;
            let pos = self.assets[k].pos;
            let ghost prev_p = self.powered_tiles@;
            let ghost prev_w = self.watered_tiles@;
            match kind {
                AssetKind::Substation => mark_service_area(&mut self.powered_tiles, pos, SERVICE_RADIUS),
                AssetKind::PumpStation => mark_service_area(&mut self.watered_tiles, pos, SERVICE_RADIUS),
                _ => {},
            }
            proof {
                assert forall|t: int| 0 <= t < GRID_TILES implies #[trigger] self.powered_tiles@[t]
                    == served_by_first(self.assets@, AssetKind::Substation, k + 1, t) by {
                    if self.powered_tiles@[t] && !prev_p[t] {
                        assert(self.assets@[k as int].kind == AssetKind::Substation);
                    }
                    if served_by_first(self.assets@, AssetKind::Substation, k + 1, t) {
                        let j = choose|j: int|
                            0 <= j < k + 1 && #[trigger] self.assets@[j].kind == AssetKind::Substation
                                && manhattan_spec(
                                self.assets@[j].pos.x as int,
                                self.assets@[j].pos.y as int,
                                index_x(t),
                                index_y(t),
                            ) <= SERVICE_RADIUS;
                        if j < k {
                            assert(served_by_first(self.assets@, AssetKind::Substation, k as int, t));
                        }
                    }
                }
                assert forall|t: int| 0 <= t < GRID_TILES implies #[trigger] self.watered_tiles@[t]
                    == served_by_first(self.assets@, AssetKind::PumpStation, k + 1, t) by {
                    if self.watered_tiles@[t] && !prev_w[t] {
                        assert(self.assets@[k as int].kind == AssetKind::PumpStation);
                    }
                    if served_by_first(self.assets@, AssetKind::PumpStation, k + 1, t) {
                        let j = choose|j: int|
                            0 <= j < k + 1 && #[trigger] self.assets@[j].kind == AssetKind::PumpStation
                                && manhattan_spec(
                                self.assets@[j].pos.x as int,
                                self.assets@[j].pos.y as int,
                                index_x(t),
                                index_y(t),
                            ) <= SERVICE_RADIUS;
                        if j < k {
                            assert(served_by_first(self.assets@, AssetKind::PumpStation, k as int, t));
                        }
                    }
                }
            }
            k = k + 1;
        }

        let mut powered: i32 = 0;
        let mut watered: i32 = 0;
        let mut total: i32 = 0;
        let mut y: i32 = 0;
        while y < GRID_H
            invariant
                self.shape_ok(),
                self.same_except_coverage(*old(self)),
                0 <= y <= GRID_H,
                powered == count_powered(self.grid@, self.powered_tiles@, (y * GRID_W) as int),
                watered == count_watered(self.grid@, self.watered_tiles@, (y * GRID_W) as int),
                total == count_demand(self.grid@, (y * GRID_W) as int),
                0 <= y * GRID_W <= GRID_TILES,
            decreases GRID_H - y,
        {
            let mut x: i32 = 0;
            while x < GRID_W
                invariant
                    self.shape_ok(),
                    0 <= y < GRID_H,
                    0 <= x <= GRID_W,
                    0 <= y * GRID_W + x <= GRID_TILES,
                    powered == count_powered(self.grid@, self.powered_tiles@, (y * GRID_W + x) as int),
                    watered == count_watered(self.grid@, self.watered_tiles@, (y * GRID_W + x) as int),
                    total == count_demand(self.grid@, (y * GRID_W + x) as int),
                decreases GRID_W - x,
            {
                let p = GridPos { x, y };
                proof {
                    lemma_counts_bounded(self.grid@, self.powered_tiles@, self.watered_tiles@, (y * GRID_W + x) as int);
                    assert(y * GRID_W + x < GRID_TILES) by (nonlinear_arith)
                        requires 0 <= y < 20, 0 <= x < 32;
                }
                let i = p.index();
                let kind = self.grid[i].kind;
                if kind == TileKind::Building || kind == TileKind::Industrial || kind == TileKind::ControlCenter {
                    total = total + 1;
                    if self.powered_tiles[i] {
                        powered = powered + 1;
                    }
                    if self.watered_tiles[i] || kind == TileKind::ControlCenter {
                        watered = watered + 1;
                    }
                }
                x = x + 1;
            }
            proof {
                assert((y + 1) * GRID_W == y * GRID_W + GRID_W) by (nonlinear_arith);
            }
            y = y + 1;
        }
        self.coverage.powered = powered;
        self.coverage.watered = watered;
        self.coverage.total_demand = total;
        proof {
            reveal(coverage_matches);
        }
    }

    /// Invariant of a game state: grid-shaped vectors, non-negative budget
    /// and research points, every asset standing on its own in-bounds tile,
    /// every tile's asset index naming an asset on that tile, live incidents,
    /// service coverage that agrees with the placed assets and a selected
    /// tile, if any, on the map.
    pub open spec fn wf(self) -> bool {
        &&& self.shape_ok()
        &&& self.budget >= 0
        &&& self.research_points >= 0
        &&& self.assets@.len() <= GRID_TILES
        &&& occupancy_ok(self.grid@, self.assets@)
        &&& incidents_ok(incident_views(self.incidents@))
        &&& self.coverage_consistent()
        &&& (self.selected_tile matches Some(p) ==> p.in_bounds_spec())
    }

    /// A freshly generated city: no assets, incidents or selection, the two
    /// opening log lines, default profiles, the starting budgets and ratings,
    /// no research and a clock at zero.
    pub open spec fn is_fresh_city(self) -> bool {
        &&& self.wf()
        &&& self.assets@.len() == 0
        &&& self.incidents@.len() == 0
        &&& log_text(self.log@) == seq![generated_note(), objective_note()]
        &&& self.selected_tile is None
        &&& self.bridge_profile == BridgeProfile::Standard
        &&& self.logic_profile == LogicProfile::Manual
        &&& self.budget == 760
        &&& self.ops_budget == 160
        &&& self.research_points == 0
        &&& !self.advanced_unlocked
        &&& self.elapsed_hours == 0
        &&& self.score.smartness == 18
        &&& self.score.engineering == 58
        &&& self.score.ot_security == 42
        &&& self.score.citizen_trust == 56
        &&& forall|t: int| 0 <= t < GRID_TILES ==> (#[trigger] self.grid@[t]).asset is None
        &&& forall|t: int| 0 <= t < GRID_TILES ==> !(#[trigger] self.powered_tiles@[t])
        &&& forall|t: int| 0 <= t < GRID_TILES ==> !(#[trigger] self.watered_tiles@[t])
    }

    /// A click on `p` keeps within `i32` every value that it moves without
    /// clamping: a purchase refused for want of budget takes a point of
    /// trust, and a build charges operations budget and adds research points.
    pub open spec fn click_fits(self, p: GridPos) -> bool {
        match self.click_outcome(p) {
            ClickOutcome::BudgetDenied => self.score.citizen_trust > i32::MIN,
            ClickOutcome::Built => {
                let kind = self.selected_tool.asset_kind_spec().unwrap();
                &&& self.ops_budget - ops_cost(kind) >= i32::MIN
                &&& self.research_points + research_gain(kind) <= i32::MAX
            },
            _ => true,
        }
    }

    /// The daily review keeps the operations budget and the research points
    /// within `i32`.
    pub open spec fn review_fits(self) -> bool {
        &&& self.review_ops_budget() >= i32::MIN
        &&& self.review_research() <= i32::MAX
    }

    /// The clock can move on one hour: the hour count stays within `u32`,
    /// and at the end of a day the daily review fits.
    pub open spec fn hour_fits(self) -> bool {
        &&& self.elapsed_hours < u32::MAX
        &&& (self.elapsed_hours + 1) % (HOURS_PER_DAY as int) == 0 ==> self.review_fits()
    }

    /// Whether a click on `p` keeps its values within `i32` (`click_fits`).
    pub fn fits_click(&self, p: GridPos) -> (b: bool)
        requires
            self.wf(),
        ensures
            b == self.click_fits(p),
    {
        if !p.in_bounds() || self.selected_tool == Tool::Inspect {
            return true;
        }
        let cost = self.cost_for(self.selected_tool);
        if self.budget < cost {
            return self.score.citizen_trust > i32::MIN;
        }
        if self.tile(p).asset.is_some() {
            return true;
        }
        proof {
            lemma_occupancy_in_bounds(self.grid@, self.assets@);
        }
        let (allowed, _compliant, _note, _zone) = self.validate_placement(self.selected_tool, p);
        if !allowed {
            return true;
        }
        let kind = self.selected_tool.asset_kind().unwrap();
        self.ops_budget >= i32::MIN + ops_cost_of(kind) && self.research_points <= i32::MAX
            - research_gain_of(kind)
    }

    /// Whether the daily review keeps its values within `i32` (`review_fits`).
    pub fn fits_review(&self) -> (b: bool)
        requires
            self.wf(),
        ensures
            b == self.review_fits(),
    {
        proof {
            lemma_coverage_bounds(*self);
        }
        let upkeep = self.plc_count() + self.pump_count() + self.substation_count();
        let total = if self.coverage.total_demand < 1 {
            1
        } else {
            self.coverage.total_demand
        };
        let gain: i32 = if self.coverage.powered + self.coverage.watered > total {
            1
        } else {
            0
        };
        self.ops_budget >= i32::MIN + upkeep && self.research_points <= i32::MAX - gain
    }

    /// Whether the clock can move on one hour (`hour_fits`).
    pub fn fits_hour(&self) -> (b: bool)
        requires
            self.wf(),
        ensures
            b == self.hour_fits(),
    {
        if self.elapsed_hours == u32::MAX {
            return false;
        }
        if (self.elapsed_hours + 1) % HOURS_PER_DAY != 0 {
            return true;
        }
        self.fits_review()
    }

    pub open spec fn click_outcome(self, p: GridPos) -> ClickOutcome {
        if !p.in_bounds_spec() {
            ClickOutcome::Ignored
        } else if self.selected_tool == Tool::Inspect {
            ClickOutcome::Inspected
        } else if self.budget < cost_spec(self.selected_tool, self.bridge_profile) {
            ClickOutcome::BudgetDenied
        } else if self.grid@[tile_index(p.x as int, p.y as int)].asset is Some {
            ClickOutcome::Occupied
        } else if !self.placement_of(self.selected_tool, p).0 {
            ClickOutcome::Rejected
        } else {
            ClickOutcome::Built
        }
    }

    /// Ratings after building with the selected tool at `p`.
    pub open spec fn built_score(self, p: GridPos) -> CityScore {
        let kind = self.selected_tool.asset_kind_spec().unwrap();
        let d = build_deltas(
            kind,
            self.placement_of(self.selected_tool, p).1,
            asset_nearby(self.assets@, p.x as int, p.y as int, AssetKind::Gateway, 4),
        );
        settled(self.score, d.0, d.1, d.2, d.3)
    }

    /// The log line a click writes, if any.
    pub open spec fn click_message(self, p: GridPos) -> Seq<char> {
        match self.click_outcome(p) {
            ClickOutcome::BudgetDenied => denied_message(
                cost_spec(self.selected_tool, self.bridge_profile),
                self.budget as int,
            ),
            ClickOutcome::Occupied => "Tile already occupied by an asset."@,
            ClickOutcome::Rejected => "Placement rejected: "@ + self.placement_of(
                self.selected_tool,
                p,
            ).2,
            _ => built_message(
                self.selected_tool.asset_kind_spec().unwrap(),
                p,
                self.placement_of(self.selected_tool, p).2,
            ),
        }
    }

    /// Only the log changed from `before`: `msg` was appended to it.
    pub open spec fn logged(self, before: GameState, msg: Seq<char>) -> bool {
        &&& log_text(self.log@) == log_after(log_text(before.log@), msg)
        &&& self.keeps_world(before)
        &&& self.keeps_settings(before)
        &&& self.selected_tile == before.selected_tile
        &&& self.score == before.score
    }

    /// `before` with the next bridge profile selected and the change logged.
    pub open spec fn bridge_cycled(self, before: GameState) -> bool {
        let next = before.bridge_profile.next_spec();
        self.logged(
            GameState { bridge_profile: next, ..before },
            "Bridge profile set to "@ + next.label_spec() + "."@,
        )
    }

    /// `before` with the next PLC logic profile selected and the change logged.
    pub open spec fn logic_cycled(self, before: GameState) -> bool {
        let next = before.logic_profile.next_spec();
        self.logged(
            GameState { logic_profile: next, ..before },
            "PLC logic profile set to "@ + next.label_spec() + "."@,
        )
    }

    /// `before` after an attempt to buy the advanced controls: refused with a
    /// log line when they are already unlocked or fewer than three research
    /// points are held, else three points are spent, smartness rises by four
    /// (clamped) and the unlock is logged.
    pub open spec fn research_spent(self, before: GameState) -> bool {
        if before.advanced_unlocked {
            self.logged(before, already_unlocked_note())
        } else if before.research_points < 3 {
            self.logged(before, need_research_note(before.research_points as nat))
        } else {
            self.logged(
                GameState {
                    research_points: (before.research_points - 3) as i32,
                    advanced_unlocked: true,
                    score: settled(before.score, 4, 0, 0, 0),
                    ..before
                },
                unlocked_note(),
            )
        }
    }

    /// A freshly generated city around a river column in `8..GRID_W - 8`,
    /// keeping the tool of `before` and bumping its visual revision.
    pub open spec fn regenerated(self, before: GameState) -> bool {
        &&& self.is_fresh_city()
        &&& 8 <= self.river_x < GRID_W - 8
        &&& forall|t: int|
            0 <= t < GRID_TILES ==> layout_possible(
                self.river_x as int,
                index_x(t),
                index_y(t),
                (#[trigger] self.grid@[t]).kind,
            )
        &&& self.selected_tool == before.selected_tool
        &&& self.visual_revision == wrapping_inc(before.visual_revision)
    }

    /// Appends a line to the game log, dropping the oldest line once more
    /// than `LOG_CAPACITY` lines are held.
    pub fn push_log(&mut self, msg: String)
        ensures
            final(self).logged(*old(self), msg@),
    {
        let ghost before = log_text(self.log@);
        self.log.push(msg);
        assert(log_text(self.log@) =~= before.push(msg@));
        if self.log.len() > LOG_CAPACITY {
            self.log.remove(0);
            assert(log_text(self.log@) =~= before.push(msg@).drop_first());
        }
    }

    /// Clamps all four ratings into `0..=100`.
    pub fn clamp_scores(&mut self)
        ensures
            final(self).score == clamped(old(self).score),
            final(self).keeps_world(*old(self)),
            final(self).keeps_settings(*old(self)),
            final(self).selected_tile == old(self).selected_tile,
            final(self).log == old(self).log,
    {
        self.score.smartness = clamp_0_100(self.score.smartness);
        self.score.engineering = clamp_0_100(self.score.engineering);
        self.score.ot_security = clamp_0_100(self.score.ot_security);
        self.score.citizen_trust = clamp_0_100(self.score.citizen_trust);
    }

    /// What a click on `p` makes of `before`: nothing off the map; the
    /// inspect tool only selects the tile; otherwise the purchase is refused
    /// for want of budget (costing a point of trust), refused on an occupied
    /// tile, rejected by the placement rules (costing a point of
    /// engineering), or the asset is built, paid for and logged.
    pub open spec fn clicked(self, before: GameState, p: GridPos) -> bool {
        &&& before.click_outcome(p) == ClickOutcome::Ignored ==> self == before
        &&& self.selected_tile == if before.click_outcome(p) == ClickOutcome::Ignored {
            before.selected_tile
        } else {
            Some(p)
        }
        &&& log_text(self.log@) == match before.click_outcome(p) {
            ClickOutcome::Ignored | ClickOutcome::Inspected => log_text(before.log@),
            _ => log_after(log_text(before.log@), before.click_message(p)),
        }
        &&& self.score == match before.click_outcome(p) {
            ClickOutcome::BudgetDenied => CityScore {
                citizen_trust: (before.score.citizen_trust - 1) as i32,
                ..before.score
            },
            ClickOutcome::Rejected => settled(before.score, 0, -1, 0, 0),
            ClickOutcome::Built => before.built_score(p),
            _ => before.score,
        }
        &&& before.click_outcome(p) != ClickOutcome::Built ==> self.keeps_world(before)
        &&& before.click_outcome(p) == ClickOutcome::Built ==> ({
            let tool = before.selected_tool;
            let kind = tool.asset_kind_spec().unwrap();
            let check = before.placement_of(tool, p);
            let n = before.assets@.len();
            let t = tile_index(p.x as int, p.y as int);
            &&& self.assets@.len() == n + 1
            &&& self.assets@.subrange(0, n as int) == before.assets@
            &&& self.assets@[n as int].kind == kind
            &&& self.assets@[n as int].pos == p
            &&& self.assets@[n as int].compliant == check.1
            &&& self.assets@[n as int].note@ == check.2
            &&& self.assets@[n as int].bridge_profile == if kind == AssetKind::Bridge {
                Some(before.bridge_profile)
            } else {
                None
            }
            &&& self.assets@[n as int].logic_profile == if kind == AssetKind::Plc {
                Some(before.logic_profile)
            } else {
                None
            }
            &&& self.assets@[n as int].zone == check.3
            &&& self.grid@ == before.grid@.update(
                t,
                (Tile { kind: before.grid@[t].kind, asset: Some(n as usize) }),
            )
            &&& self.budget == before.budget - cost_spec(tool, before.bridge_profile)
            &&& self.ops_budget == before.ops_budget - ops_cost(kind)
            &&& self.research_points == before.research_points + research_gain(kind)
            &&& self.visual_revision == wrapping_inc(before.visual_revision)
        })
        &&& self.keeps_settings(before)
    }

    /// Handles a click on tile `p`: selects it and, with a build tool, tries
    /// to build there, charging the budget, adjusting the ratings, recomputing
    /// coverage and logging the result.
    pub fn handle_click(&mut self, p: GridPos)
        requires
            old(self).wf(),
            old(self).click_fits(p),
        ensures
            final(self).wf(),
            final(self).clicked(*old(self), p),
            ratings_in_range(old(self).score) && old(self).click_outcome(p) != ClickOutcome::BudgetDenied
                ==> ratings_in_range(final(self).score),
    {
        if !p.in_bounds() {
            return;
        }
        self.selected_tile = Some(p);

        if self.selected_tool == Tool::Inspect {
            return;
        }

        let cost = self.cost_for(self.selected_tool);
        if self.budget < cost {
            self.deny_for_budget(cost);
            return;
        }
        if self.tile(p).asset.is_some() {
            self.push_log(String::from_str("Tile already occupied by an asset."));
            return;
        }

        proof {
            lemma_occupancy_in_bounds(self.grid@, self.assets@);
        }
        let (allowed, compliant, note, zone) = self.validate_placement(self.selected_tool, p);
        if !allowed {
            self.reject_placement(&note);
            return;
        }

        self.place_asset(p, cost, compliant, note, zone);
    }


    /// Logs a refused purchase and costs one point of citizen trust.
    fn deny_for_budget(&mut self, cost: i32)
        requires
            old(self).budget >= 0,
            cost >= 0,
            old(self).score.citizen_trust > i32::MIN,
        ensures
            log_text(final(self).log@) == log_after(
                log_text(old(self).log@),
                denied_message(cost as int, old(self).budget as int),
            ),
            final(self).score == (CityScore {
                citizen_trust: (old(self).score.citizen_trust - 1) as i32,
                ..old(self).score
            }),
            final(self).keeps_world(*old(self)),
            final(self).keeps_settings(*old(self)),
            final(self).selected_tile == old(self).selected_tile,
    {
        let mut msg = String::from_str("Budget denied. Need ");
        push_decimal(&mut msg, cost as u64);
        msg.append(", have ");
        push_decimal(&mut msg, self.budget as u64);
        msg.append(".");
        self.push_log(msg);
        self.score.citizen_trust = self.score.citizen_trust - 1;
    }

    /// Logs a refused placement and costs one point of engineering.
    fn reject_placement(&mut self, note: &String)
        ensures
            log_text(final(self).log@) == log_after(
                log_text(old(self).log@),
                "Placement rejected: "@ + note@,
            ),
            final(self).score == settled(old(self).score, 0, -1, 0, 0),
            final(self).keeps_world(*old(self)),
            final(self).keeps_settings(*old(self)),
            final(self).selected_tile == old(self).selected_tile,
    {
        let msg = concat_str("Placement rejected: ", note.as_str());
        self.push_log(msg);
        settle_score(&mut self.score, 0, -1, 0, 0);
    }

    /// Builds the selected tool's asset at `p` once the click has passed all
    /// checks.
    fn place_asset(&mut self, p: GridPos, cost: i32, compliant: bool, note: String, zone: ZoneKind)
        requires
            old(self).wf(),
            old(self).click_fits(p),
            old(self).click_outcome(p) == ClickOutcome::Built,
            cost == cost_spec(old(self).selected_tool, old(self).bridge_profile),
            compliant == old(self).placement_of(old(self).selected_tool, p).1,
            note@ == old(self).placement_of(old(self).selected_tool, p).2,
            zone == old(self).placement_of(old(self).selected_tool, p).3,
        ensures
            final(self).wf(),
            final(self).selected_tile == old(self).selected_tile,
            log_text(final(self).log@) == log_after(log_text(old(self).log@), old(self).click_message(p)),
            final(self).score == old(self).built_score(p),
            ({
                let tool = old(self).selected_tool;
                let kind = tool.asset_kind_spec().unwrap();
                let check = old(self).placement_of(tool, p);
                let n = old(self).assets@.len();
                let t = tile_index(p.x as int, p.y as int);
                &&& final(self).assets@.len() == n + 1
                &&& final(self).assets@.subrange(0, n as int) == old(self).assets@
                &&& final(self).assets@[n as int].kind == kind
                &&& final(self).assets@[n as int].pos == p
                &&& final(self).assets@[n as int].compliant == check.1
                &&& final(self).assets@[n as int].note@ == check.2
                &&& final(self).assets@[n as int].bridge_profile == if kind == AssetKind::Bridge {
                    Some(old(self).bridge_profile)
                } else {
                    None
                }
                &&& final(self).assets@[n as int].logic_profile == if kind == AssetKind::Plc {
                    Some(old(self).logic_profile)
                } else {
                    None
                }
                &&& final(self).assets@[n as int].zone == check.3
                &&& final(self).grid@ == old(self).grid@.update(
                    t,
                    (Tile { kind: old(self).grid@[t].kind, asset: Some(n as usize) }),
                )
                &&& final(self).budget == old(self).budget - cost_spec(tool, old(self).bridge_profile)
                &&& final(self).ops_budget == old(self).ops_budget - ops_cost(kind)
                &&& final(self).research_points == old(self).research_points + research_gain(kind)
                &&& final(self).visual_revision == wrapping_inc(old(self).visual_revision)
            }),
            final(self).keeps_settings(*old(self)),
    {
        let ghost pre = *self;
        let kind = self.selected_tool.asset_kind().unwrap();
        let asset_index = self.assets.len();
        proof {
            lemma_assets_fit(self.grid@, self.assets@, tile_index(p.x as int, p.y as int));
        }
        let bridge_profile = if kind == AssetKind::Bridge {
            Some(self.bridge_profile)
        } else {
            None
        };
        let logic_profile = if kind == AssetKind::Plc {
            Some(self.logic_profile)
        } else {
            None
        };
        proof {
            lemma_occupancy_in_bounds(self.grid@, self.assets@);
        }
        let gateway_near = self.nearby_asset_kind(p, AssetKind::Gateway, 4);

        self.assets.push(
            Asset {
                kind,
                pos: p,
                compliant,
                note: note.clone(),
                bridge_profile,
                logic_profile,
                zone,
            },
        );
        let idx = p.index();
        let mut tile = self.grid[idx];
        tile.asset = Some(asset_index);
        self.grid.set(idx, tile);
        self.budget = self.budget - cost;
        apply_build_score(&mut self.score, kind, compliant, gateway_near);
        self.ops_budget = self.ops_budget - ops_cost_of(kind);
        self.research_points = self.research_points + research_gain_of(kind);
        proof {
            lemma_placed_occupancy(pre, *self, p);
            lemma_occupancy_in_bounds(self.grid@, self.assets@);
        }
        self.recompute_coverage();
        self.visual_revision = self.visual_revision.wrapping_add(1);

        let mut msg = String::from_str("Built ");
        msg.append(kind.debug_name());
        msg.append(" at (");
        push_decimal(&mut msg, p.x as u64);
        msg.append(", ");
        push_decimal(&mut msg, p.y as u64);
        msg.append("). ");
        msg.append(note.as_str());
        self.push_log(msg);
        proof {
            assert(self.assets@.subrange(0, pre.assets@.len() as int) =~= pre.assets@);
        }
    }

    /// Demand counted in the daily ratios: the demand total, at least one.
    pub open spec fn review_total(self) -> int {
        if self.coverage.total_demand < 1 {
            1
        } else {
            self.coverage.total_demand as int
        }
    }

    /// Less than 65% of the demand is powered.
    pub open spec fn power_short(self) -> bool {
        self.coverage.powered * 100 < 65 * self.review_total()
    }

    /// Less than 60% of the demand is watered.
    pub open spec fn water_short(self) -> bool {
        self.coverage.watered * 100 < 60 * self.review_total()
    }

    pub open spec fn n_of(self, kind: AssetKind) -> int {
        count_assets(self.assets@, kind, self.assets@.len() as int)
    }

    pub open spec fn n_noncompliant(self, kind: AssetKind) -> int {
        count_noncompliant_assets(self.assets@, kind, self.assets@.len() as int)
    }

    /// The PLCs lack any gateway.
    pub open spec fn ot_flat(self) -> bool {
        self.n_of(AssetKind::Plc) > 0 && self.n_of(AssetKind::Gateway) == 0
    }

    /// Operations budget after the daily upkeep of PLCs, pumps and substations.
    pub open spec fn review_ops_budget(self) -> int {
        self.ops_budget - (self.n_of(AssetKind::Plc) + self.n_of(AssetKind::PumpStation) + self.n_of(
            AssetKind::Substation,
        ))
    }

    /// Incidents and log after the daily review, starting from incidents `inc`.
    pub open spec fn review_events(self, inc: Seq<IncidentView>) -> (Seq<IncidentView>, Seq<Seq<char>>) {
        review_events_from(
            (inc, log_text(self.log@)),
            self.power_short(),
            self.water_short(),
            self.n_noncompliant(AssetKind::Bridge) > 0,
            self.ot_flat(),
            self.n_noncompliant(AssetKind::Plc) > 0,
        )
    }

    /// Ratings after the daily review.
    pub open spec fn review_score(self) -> CityScore {
        let d = review_deltas(
            self.power_short(),
            self.water_short(),
            self.n_of(AssetKind::Bridge),
            bridge_bonus(self.grid@, self.assets@, self.assets@.len() as int),
            self.n_noncompliant(AssetKind::Bridge),
            self.n_of(AssetKind::Plc),
            self.n_of(AssetKind::Gateway),
            self.n_noncompliant(AssetKind::Plc),
            self.advanced_unlocked,
            self.review_ops_budget() < 0,
            self.coverage.powered + self.coverage.watered,
            self.review_total(),
        );
        settled(self.score, d.0, d.1, d.2, d.3)
    }

    /// Research points after the daily review: one more when power and water
    /// coverage together exceed the demand.
    pub open spec fn review_research(self) -> int {
        self.research_points + if self.coverage.powered + self.coverage.watered
            > self.review_total() {
            1int
        } else {
            0int
        }
    }

    /// Number of assets of `kind`.
    pub fn count_kind(&self, kind: AssetKind) -> (c: i32)
        requires
            self.assets@.len() <= GRID_TILES,
        ensures
            c == self.n_of(kind),
            0 <= c <= GRID_TILES,
    {
        let mut c: i32 = 0;
        let mut i: usize = 0;
        while i < self.assets.len()
            invariant
                self.assets@.len() <= GRID_TILES,
                i <= self.assets@.len(),
                c == count_assets(self.assets@, kind, i as int),
            decreases self.assets@.len() - i,
        {
            proof {
                lemma_asset_counts_bounded(self.assets@, kind, i as int);
            }
            if self.assets[i].kind == kind {
                c = c + 1;
            }
            i = i + 1;
        }
        proof {
            lemma_asset_counts_bounded(self.assets@, kind, i as int);
        }
        c
    }

    pub fn bridge_count(&self) -> (c: i32)
        requires
            self.assets@.len() <= GRID_TILES,
        ensures
            c == self.n_of(AssetKind::Bridge),
            0 <= c <= GRID_TILES,
    {
        self.count_kind(AssetKind::Bridge)
    }

    pub fn gateway_count(&self) -> (c: i32)
        requires
            self.assets@.len() <= GRID_TILES,
        ensures
            c == self.n_of(AssetKind::Gateway),
            0 <= c <= GRID_TILES,
    {
        self.count_kind(AssetKind::Gateway)
    }

    pub fn plc_count(&self) -> (c: i32)
        requires
            self.assets@.len() <= GRID_TILES,
        ensures
            c == self.n_of(AssetKind::Plc),
            0 <= c <= GRID_TILES,
    {
        self.count_kind(AssetKind::Plc)
    }

    pub fn substation_count(&self) -> (c: i32)
        requires
            self.assets@.len() <= GRID_TILES,
        ensures
            c == self.n_of(AssetKind::Substation),
            0 <= c <= GRID_TILES,
    {
        self.count_kind(AssetKind::Substation)
    }

    pub fn pump_count(&self) -> (c: i32)
        requires
            self.assets@.len() <= GRID_TILES,
        ensures
            c == self.n_of(AssetKind::PumpStation),
            0 <= c <= GRID_TILES,
    {
        self.count_kind(AssetKind::PumpStation)
    }

    /// Number of non-compliant assets of `kind`.
    pub fn count_noncompliant(&self, kind: AssetKind) -> (c: i32)
        requires
            self.assets@.len() <= GRID_TILES,
        ensures
            c == self.n_noncompliant(kind),
            0 <= c <= self.n_of(kind),
    {
        let mut c: i32 = 0;
        let mut i: usize = 0;
        while i < self.assets.len()
            invariant
                self.assets@.len() <= GRID_TILES,
                i <= self.assets@.len(),
                c == count_noncompliant_assets(self.assets@, kind, i as int),
            decreases self.assets@.len() - i,
        {
            proof {
                lemma_asset_counts_bounded(self.assets@, kind, i as int);
            }
            if self.assets[i].kind == kind && !self.assets[i].compliant {
                c = c + 1;
            }
            i = i + 1;
        }
        proof {
            lemma_asset_counts_bounded(self.assets@, kind, i as int);
        }
        c
    }

    /// For every bridge: industry within 3 tiles plus buildings within 2
    /// tiles, summed over the bridges.
    pub fn bridge_connectivity_bonus(&self) -> (b: i32)
        requires
            self.wf(),
        ensures
            b == bridge_bonus(self.grid@, self.assets@, self.assets@.len() as int),
            b >= 0,
    {
        proof {
            lemma_occupancy_in_bounds(self.grid@, self.assets@);
        }
        let mut b: i32 = 0;
        let mut i: usize = 0;
        while i < self.assets.len()
            invariant
                self.wf(),
                assets_in_bounds(self.assets@),
                i <= self.assets@.len(),
                b == bridge_bonus(self.grid@, self.assets@, i as int),
                0 <= b <= 1280 * i,
            decreases self.assets@.len() - i,
        {
            if self.assets[i].kind == AssetKind::Bridge {
                let pos = self.assets[i].pos;
                let add = self.count_nearby_kind(pos, TileKind::Industrial, 3)
                    + self.count_nearby_kind(pos, TileKind::Building, 2);
                b = b + add;
            }
            i = i + 1;
        }
        b
    }

    /// Raises an incident of `kind` for one day unless one is already active.
    pub fn trigger_incident(&mut self, kind: IncidentKind, note: &str)
        ensures
            (incident_views(final(self).incidents@), log_text(final(self).log@)) == raised(
                (incident_views(old(self).incidents@), log_text(old(self).log@)),
                kind,
                note@,
            ),
            final(self).keeps_world(*old(self)),
            final(self).selected_tool == old(self).selected_tool,
            final(self).bridge_profile == old(self).bridge_profile,
            final(self).logic_profile == old(self).logic_profile,
            final(self).river_x == old(self).river_x,
            final(self).advanced_unlocked == old(self).advanced_unlocked,
            final(self).elapsed_hours == old(self).elapsed_hours,
            final(self).selected_tile == old(self).selected_tile,
            final(self).score == old(self).score,
            incidents_ok(incident_views(old(self).incidents@)) ==> incidents_ok(incident_views(final(self).incidents@)),
    {
        let ghost before = incident_views(self.incidents@);
        let mut active = false;
        let mut i: usize = 0;
        while i < self.incidents.len()
            invariant
                before == incident_views(self.incidents@),
                i <= self.incidents@.len(),
                active == exists|j: int| 0 <= j < i && (#[trigger] before[j]).0 == kind,
            decreases self.incidents@.len() - i,
        {
            if self.incidents[i].kind == kind {
                active = true;
                assert(before[i as int].0 == kind);
            }
            i = i + 1;
        }
        proof {
            if incidents_ok(before) {
                lemma_raised_ok((before, log_text(self.log@)), kind, note@);
            }
        }
        if !active {
            self.incidents.push(Incident { kind, ttl: HOURS_PER_DAY, note: String::from_str(note) });
            assert(incident_views(self.incidents@) =~= before.push((kind, HOURS_PER_DAY, note@)));
            self.push_log(concat_str("Incident: ", note));
        }
    }


    /// Raises the incidents of the daily review in order.
    fn raise_review_incidents(
        &mut self,
        power_short: bool,
        water_short: bool,
        stressed_bridges: bool,
        ot_flat: bool,
        bad_plcs: bool,
    )
        ensures
            (incident_views(final(self).incidents@), log_text(final(self).log@)) == review_events_from(
                (incident_views(old(self).incidents@), log_text(old(self).log@)),
                power_short,
                water_short,
                stressed_bridges,
                ot_flat,
                bad_plcs,
            ),
            final(self).keeps_world(*old(self)),
            final(self).selected_tool == old(self).selected_tool,
            final(self).bridge_profile == old(self).bridge_profile,
            final(self).logic_profile == old(self).logic_profile,
            final(self).river_x == old(self).river_x,
            final(self).advanced_unlocked == old(self).advanced_unlocked,
            final(self).elapsed_hours == old(self).elapsed_hours,
            final(self).selected_tile == old(self).selected_tile,
            final(self).score == old(self).score,
            incidents_ok(incident_views(old(self).incidents@)) ==> incidents_ok(incident_views(final(self).incidents@)),
    {
        if power_short {
            self.trigger_incident(
                IncidentKind::Brownout,
                "Brownout risk rising. Too much demand, not enough feeder coverage.",
            );
        }
        if water_short {
            self.trigger_incident(
                IncidentKind::LowPressure,
                "Water pressure complaints increasing. The city remains unconvinced by dry taps.",
            );
        }
        if stressed_bridges {
            self.trigger_incident(
                IncidentKind::BridgeStress,
                "Bridge stress alert. Someone saved money in a way gravity intends to discuss.",
            );
        }
        if ot_flat {
            self.trigger_incident(
                IncidentKind::OtIntrusion,
                "OT intrusion pathway detected. Flat trust model, shocking outcome.",
            );
        } else if bad_plcs {
            self.trigger_incident(
                IncidentKind::OtIntrusion,
                "Poorly integrated PLC logic increases process and cyber risk.",
            );
        }
    }

    /// The daily review: charges upkeep, raises incidents for weak power or
    /// water coverage, stressed bridges and exposed PLCs, and adjusts the
    /// ratings and research.
    pub fn run_daily_review(&mut self)
        requires
            old(self).wf(),
            old(self).review_fits(),
        ensures
            final(self).wf(),
            (incident_views(final(self).incidents@), log_text(final(self).log@)) == old(self).review_events(
                incident_views(old(self).incidents@),
            ),
            final(self).score == old(self).review_score(),
            final(self).ops_budget == old(self).review_ops_budget(),
            final(self).research_points == old(self).review_research(),
            final(self).grid == old(self).grid,
            final(self).assets == old(self).assets,
            final(self).powered_tiles == old(self).powered_tiles,
            final(self).watered_tiles == old(self).watered_tiles,
            final(self).budget == old(self).budget,
            final(self).coverage == old(self).coverage,
            final(self).visual_revision == old(self).visual_revision,
            final(self).selected_tool == old(self).selected_tool,
            final(self).bridge_profile == old(self).bridge_profile,
            final(self).logic_profile == old(self).logic_profile,
            final(self).river_x == old(self).river_x,
            final(self).advanced_unlocked == old(self).advanced_unlocked,
            final(self).elapsed_hours == old(self).elapsed_hours,
            final(self).selected_tile == old(self).selected_tile,
    {
        proof {
            lemma_coverage_bounds(*self);
        }
        let total = if self.coverage.total_demand < 1 {
            1
        } else {
            self.coverage.total_demand
        };
        let powered = self.coverage.powered;
        let watered = self.coverage.watered;
        let power_short = powered * 100 < 65 * total;
        let water_short = watered * 100 < 60 * total;
        let bridge_count = self.bridge_count();
        let connectivity_bonus = self.bridge_connectivity_bonus();
        let noncompliant_bridges = self.count_noncompliant(AssetKind::Bridge);
        let plc_count = self.plc_count();
        let gateway_count = self.gateway_count();
        let noncompliant_plcs = self.count_noncompliant(AssetKind::Plc);
        let pumps = self.pump_count();
        let substations = self.substation_count();

        self.ops_budget = self.ops_budget - (plc_count + pumps + substations);

        let ops_short = self.ops_budget < 0;
        let d = daily_deltas(
            power_short,
            water_short,
            bridge_count,
            connectivity_bonus,
            noncompliant_bridges,
            plc_count,
            gateway_count,
            noncompliant_plcs,
            self.advanced_unlocked,
            ops_short,
            powered + watered,
            total,
        );
        self.raise_review_incidents(
            power_short,
            water_short,
            noncompliant_bridges > 0,
            plc_count > 0 && gateway_count == 0,
            noncompliant_plcs > 0,
        );
        if powered + watered > total {
            self.research_points = self.research_points + 1;
        }
        settle_score(&mut self.score, d.0, d.1, d.2, d.3);
    }

    /// `before` one hour later: the clock moves on, the active incidents age
    /// and, when a day ends, the daily review runs; the map, the assets, the
    /// coverage, the budget and the player's choices stay.
    pub open spec fn hour_advanced(self, before: GameState) -> bool {
        let aged_incidents = aged(incident_views(before.incidents@));
        let day_end = (before.elapsed_hours + 1) % (HOURS_PER_DAY as int) == 0;
        &&& self.elapsed_hours == before.elapsed_hours + 1
        &&& (incident_views(self.incidents@), log_text(self.log@)) == if day_end {
            before.review_events(aged_incidents)
        } else {
            (aged_incidents, log_text(before.log@))
        }
        &&& self.score == if day_end {
            before.review_score()
        } else {
            before.score
        }
        &&& self.ops_budget == if day_end {
            before.review_ops_budget()
        } else {
            before.ops_budget as int
        }
        &&& self.research_points == if day_end {
            before.review_research()
        } else {
            before.research_points as int
        }
        &&& self.grid == before.grid
        &&& self.assets == before.assets
        &&& self.powered_tiles@ == before.powered_tiles@
        &&& self.watered_tiles@ == before.watered_tiles@
        &&& self.budget == before.budget
        &&& self.coverage == before.coverage
        &&& self.visual_revision == before.visual_revision
        &&& self.selected_tool == before.selected_tool
        &&& self.bridge_profile == before.bridge_profile
        &&& self.logic_profile == before.logic_profile
        &&& self.river_x == before.river_x
        &&& self.advanced_unlocked == before.advanced_unlocked
        &&& self.selected_tile == before.selected_tile
    }

    /// Advances the clock by one hour: refreshes coverage, ages the active
    /// incidents and runs the daily review at the end of each day.
    pub fn advance_hour(&mut self)
        requires
            old(self).wf(),
            old(self).hour_fits(),
        ensures
            final(self).wf(),
            final(self).hour_advanced(*old(self)),
            ratings_in_range(old(self).score) ==> ratings_in_range(final(self).score),
    {
        let ghost pre = *self;
        self.elapsed_hours = self.elapsed_hours + 1;
        proof {
            lemma_occupancy_in_bounds(self.grid@, self.assets@);
        }
        self.recompute_coverage();
        proof {
            lemma_coverage_unique(
                pre.grid@,
                pre.assets@,
                pre.powered_tiles@,
                pre.watered_tiles@,
                pre.coverage,
                self.powered_tiles@,
                self.watered_tiles@,
                self.coverage,
            );
        }
        let ghost before = incident_views(self.incidents@);
        let mut kept: Vec<Incident> = Vec::new();
        let mut i: usize = 0;
        while i < self.incidents.len()
            invariant
                before == incident_views(self.incidents@),
                incidents_ok(before),
                i <= self.incidents@.len(),
                incident_views(kept@) == aged(before.take(i as int)),
            decreases self.incidents@.len() - i,
        {
            let ttl = self.incidents[i].ttl;
            proof {
                assert(before.take(i + 1).drop_last() =~= before.take(i as int));
                assert(before[i as int] == (self.incidents@[i as int].kind, ttl, self.incidents@[i as int].note@));
            }
            if ttl > 1 {
                let inc = &self.incidents[i];
                let note = inc.note.clone();
                let ghost prev = incident_views(kept@);
                kept.push(Incident { kind: inc.kind, ttl: ttl - 1, note });
                assert(incident_views(kept@) =~= prev.push((inc.kind, (ttl - 1) as u32, inc.note@)));
            }
            i = i + 1;
        }
        proof {
            assert(before.take(i as int) =~= before);
            lemma_aged_ok(before);
        }
        self.incidents = kept;
        if self.elapsed_hours % HOURS_PER_DAY == 0 {
            self.run_daily_review();
        }
    }
    /// Spends three research points to unlock the advanced controls.
    pub fn spend_research(&mut self)
        requires
            old(self).wf(),
        ensures
            final(self).wf(),
            final(self).research_spent(*old(self)),
            ratings_in_range(old(self).score) ==> ratings_in_range(final(self).score),
    {
        if self.advanced_unlocked {
            self.push_log(
                String::from_str(
                    "Advanced controls already unlocked. Humans do enjoy buying the same thing twice.",
                ),
            );
            return;
        }
        if self.research_points < 3 {
            let mut msg = String::from_str("Need 3 research points to unlock advanced controls. Have ");
            push_decimal(&mut msg, self.research_points as u64);
            msg.append(".");
            self.push_log(msg);
            return;
        }
        self.research_points = self.research_points - 3;
        self.advanced_unlocked = true;
        settle_score(&mut self.score, 4, 0, 0, 0);
        self.push_log(
            String::from_str(
                "Advanced controls unlocked. Responsive PLC mode is now permitted to cause sophisticated trouble.",
            ),
        );
    }

    /// Switches to the next bridge profile and logs it.
    pub fn cycle_bridge_profile(&mut self)
        ensures
            final(self).bridge_cycled(*old(self)),
    {
        self.bridge_profile = self.bridge_profile.next();
        let mut msg = String::from_str("Bridge profile set to ");
        msg.append(self.bridge_profile.label());
        msg.append(".");
        self.push_log(msg);
    }

    /// Switches to the next PLC logic profile and logs it.
    pub fn cycle_logic_profile(&mut self)
        ensures
            final(self).logic_cycled(*old(self)),
    {
        self.logic_profile = self.logic_profile.next();
        let mut msg = String::from_str("PLC logic profile set to ");
        msg.append(self.logic_profile.label());
        msg.append(".");
        self.push_log(msg);
    }

    /// Counter that changes whenever the map or its assets change.
    pub fn visual_revision(&self) -> (r: u64)
        ensures
            r == self.visual_revision,
    {
        self.visual_revision
    }

    /// The current day, counting from 1.
    pub fn current_day(&self) -> (d: u32)
        ensures
            d == self.elapsed_hours / HOURS_PER_DAY + 1,
    {
        self.elapsed_hours / HOURS_PER_DAY + 1
    }

    /// The hour within the current day, `0..24`.
    pub fn hour_of_day(&self) -> (h: u32)
        ensures
            h == self.elapsed_hours % HOURS_PER_DAY,
    {
        self.elapsed_hours % HOURS_PER_DAY
    }

    pub open spec fn clock_label_spec(self) -> Seq<char> {
        "Day "@ + decimal_two((self.elapsed_hours / HOURS_PER_DAY + 1) as nat) + " "@ + decimal_two(
            (self.elapsed_hours % HOURS_PER_DAY) as nat,
        ) + ":00"@
    }

    /// The clock as shown in the top bar, e.g. `Day 01 07:00`.
    pub fn clock_label(&self) -> (s: String)
        ensures
            s@ == self.clock_label_spec(),
    {
        let mut s = String::from_str("Day ");
        push_decimal_two(&mut s, self.current_day() as u64);
        s.append(" ");
        push_decimal_two(&mut s, self.hour_of_day() as u64);
        s.append(":00");
        s
    }
    /// Rebuilds the city from the given river column, per-tile river shifts
    /// (used on every fourth row) and per-tile rolls, and resets the rest of
    /// the game apart from the selected tool.
    pub fn regenerate_with(&mut self, band_center: i32, shifts: &Vec<i32>, rolls: &Vec<i32>)
        requires
            shifts@.len() == GRID_TILES,
            rolls@.len() == GRID_TILES,
            forall|t: int|
                0 <= t < GRID_TILES ==> i32::MIN <= band_center + #[trigger] shifts@[t] <= i32::MAX,
        ensures
            final(self).is_fresh_city(),
            forall|t: int|
                0 <= t < GRID_TILES ==> (#[trigger] final(self).grid@[t]).kind == generated_kind(
                    band_center as int,
                    shifts@,
                    rolls@,
                    index_x(t),
                    index_y(t),
                ),
            final(self).river_x == band_center,
            final(self).selected_tool == old(self).selected_tool,
            final(self).visual_revision == wrapping_inc(old(self).visual_revision),
    {
        self.grid = blank_grid();
        self.assets = Vec::new();
        self.log = Vec::new();
        self.incidents = Vec::new();
        self.powered_tiles = blank_service_grid();
        self.watered_tiles = blank_service_grid();
        self.selected_tile = None;
        self.bridge_profile = BridgeProfile::Standard;
        self.logic_profile = LogicProfile::Manual;
        self.budget = 760;
        self.ops_budget = 160;
        self.research_points = 0;
        self.advanced_unlocked = false;
        self.elapsed_hours = 0;
        self.score = CityScore::baseline();
        self.coverage = Coverage::empty();
        self.river_x = band_center;

        lay_out_tiles(&mut self.grid, band_center, shifts, rolls);

        let cc = GridPos { x: 2, y: 2 };
        let cc_idx = cc.index();
        self.grid.set(cc_idx, Tile { kind: TileKind::ControlCenter, asset: None });

        pave_row(&mut self.grid, 4);
        pave_row(&mut self.grid, GRID_H / 2);
        pave_row(&mut self.grid, GRID_H - 5);

        proof {
            assert forall|t: int| 0 <= t < GRID_TILES implies (#[trigger] self.grid@[t]).kind
                == generated_kind(band_center as int, shifts@, rolls@, index_x(t), index_y(t))
                && self.grid@[t].asset is None by {
                lemma_coords_index(t);
                lemma_index_coords(2, 2);
            }
        }

        self.push_log(
            String::from_str(
                "Legacy city generated. Utilities are inconsistent, OT is sloppy, and optimism is irrational.",
            ),
        );
        self.push_log(
            String::from_str(
                "Phase 2 objective: raise smartness to 70+ while keeping engineering, OT security, and trust above 45.",
            ),
        );
        self.recompute_coverage();
        self.visual_revision = self.visual_revision.wrapping_add(1);
        proof {
            lemma_empty_occupancy(self.grid@, self.assets@);
            assert(log_text(self.log@) =~= seq![generated_note(), objective_note()]);
            assert forall|t: int| 0 <= t < GRID_TILES implies !(#[trigger] self.powered_tiles@[t]) by {
                reveal(coverage_matches);
            }
            assert forall|t: int| 0 <= t < GRID_TILES implies !(#[trigger] self.watered_tiles@[t]) by {
                reveal(coverage_matches);
            }
        }
    }

    /// Generates a new city: the river's column is drawn from `8..GRID_W - 8`,
    /// every tile of every fourth row shifts it by a draw from `-1..=1`, and
    /// every tile gets a roll from `0..100` for its ground kind.
    pub fn regenerate(&mut self)
        ensures
            final(self).regenerated(*old(self)),
    {
        let mut rng = thread_rng();
        let band_center = gen_range(&mut rng, 8, GRID_W - 8);
        let mut shifts: Vec<i32> = Vec::new();
        let mut rolls: Vec<i32> = Vec::new();
        let mut i: usize = 0;
        while i < GRID_TILES
            invariant
                i <= GRID_TILES,
                shifts@.len() == i,
                rolls@.len() == i,
                forall|t: int| 0 <= t < i ==> -1 <= #[trigger] shifts@[t] <= 1,
            decreases GRID_TILES - i,
        {
            let y = i / 32;
            let shift = if y % 4 == 0 {
                gen_range(&mut rng, -1, 2)
            } else {
                0
            };
            shifts.push(shift);
            rolls.push(gen_range(&mut rng, 0, 100));
            i = i + 1;
        }
        self.regenerate_with(band_center, &shifts, &rolls);
        proof {
            assert forall|t: int| 0 <= t < GRID_TILES implies layout_possible(
                self.river_x as int,
                index_x(t),
                index_y(t),
                (#[trigger] self.grid@[t]).kind,
            ) by {
                lemma_coords_index(t);
                assert(-1 <= shifts@[t] <= 1);
            }
        }
    }

    /// A new game on a freshly generated city, with the inspect tool selected.
    pub fn new() -> (g: GameState)
        ensures
            g.is_fresh_city(),
            8 <= g.river_x < GRID_W - 8,
            forall|t: int|
                0 <= t < GRID_TILES ==> layout_possible(
                    g.river_x as int,
                    index_x(t),
                    index_y(t),
                    (#[trigger] g.grid@[t]).kind,
                ),
            g.selected_tool == Tool::Inspect,
            g.visual_revision == 1,
    {
        let mut state = GameState {
            grid: blank_grid(),
            assets: Vec::new(),
            powered_tiles: blank_service_grid(),
            watered_tiles: blank_service_grid(),
            selected_tool: Tool::Inspect,
            bridge_profile: BridgeProfile::Standard,
            logic_profile: LogicProfile::Manual,
            budget: 760,
            ops_budget: 160,
            selected_tile: None,
            log: Vec::new(),
            score: CityScore::baseline(),
            coverage: Coverage::empty(),
            incidents: Vec::new(),
            river_x: 0,
            research_points: 0,
            advanced_unlocked: false,
            elapsed_hours: 0,
            visual_revision: 0,
        };
        state.regenerate();
        state
    }
}

/// The asset on an in-bounds tile of a valid game is one of its assets.
pub(crate) proof fn lemma_tile_asset_index(g: GameState, p: GridPos)
    requires
        g.wf(),
        p.in_bounds_spec(),
    ensures
        0 <= tile_index(p.x as int, p.y as int) < GRID_TILES,
        g.grid@[tile_index(p.x as int, p.y as int)].asset matches Some(a) ==> a < g.assets@.len(),
{
    reveal(occupancy_ok);
    lemma_index_coords(p.x as int, p.y as int);
    let t = tile_index(p.x as int, p.y as int);
    assert(match g.grid@[t].asset {
        Some(a) => a < g.assets@.len() && tile_index(
            g.assets@[a as int].pos.x as int,
            g.assets@[a as int].pos.y as int,
        ) == t,
        None => true,
    });
}

pub(crate) proof fn lemma_coverage_bounds(g: GameState)
    requires
        g.wf(),
    ensures
        0 <= g.coverage.powered <= g.coverage.total_demand <= GRID_TILES,
        0 <= g.coverage.watered <= g.coverage.total_demand,
{
    reveal(coverage_matches);
    lemma_counts_bounded(g.grid@, g.powered_tiles@, g.watered_tiles@, GRID_TILES as int);
}

/// Service flags and totals are determined by the grid and the assets.
proof fn lemma_coverage_unique(
    grid: Seq<Tile>,
    assets: Seq<Asset>,
    p1: Seq<bool>,
    w1: Seq<bool>,
    c1: Coverage,
    p2: Seq<bool>,
    w2: Seq<bool>,
    c2: Coverage,
)
    requires
        p1.len() == GRID_TILES,
        w1.len() == GRID_TILES,
        p2.len() == GRID_TILES,
        w2.len() == GRID_TILES,
        coverage_matches(grid, assets, p1, w1, c1),
        coverage_matches(grid, assets, p2, w2, c2),
    ensures
        p1 == p2,
        w1 == w2,
        c1 == c2,
{
    reveal(coverage_matches);
    assert(p1 =~= p2);
    assert(w1 =~= w2);
}

/// Incidents and log after the review's four checks, in order: brownout,
/// low pressure, bridge stress, then OT exposure (a flat network first,
/// otherwise badly integrated PLC logic).
pub open spec fn review_events_from(
    s0: (Seq<IncidentView>, Seq<Seq<char>>),
    power_short: bool,
    water_short: bool,
    stressed_bridges: bool,
    ot_flat: bool,
    bad_plcs: bool,
) -> (Seq<IncidentView>, Seq<Seq<char>>) {
    let s1 = raised_if(power_short, s0, IncidentKind::Brownout, brownout_note());
    let s2 = raised_if(water_short, s1, IncidentKind::LowPressure, low_pressure_note());
    let s3 = raised_if(stressed_bridges, s2, IncidentKind::BridgeStress, bridge_stress_note());
    if ot_flat {
        raised(s3, IncidentKind::OtIntrusion, ot_pathway_note())
    } else {
        raised_if(bad_plcs, s3, IncidentKind::OtIntrusion, plc_logic_note())
    }
}

/// Rating deltas (smartness, engineering, OT security, trust) of the daily
/// review, before clamping.
pub open spec fn review_deltas(
    power_short: bool,
    water_short: bool,
    bridges: int,
    bonus: int,
    noncompliant_bridges: int,
    plcs: int,
    gateways: int,
    noncompliant_plcs: int,
    advanced: bool,
    ops_short: bool,
    served: int,
    total: int,
) -> (int, int, int, int) {
    let ds = (if power_short {
        0int
    } else {
        1int
    }) + (if bridges == 0 {
        0int
    } else {
        clamp_int(bonus / 8, 0, 2)
    }) + (if advanced && plcs > 0 {
        1int
    } else {
        0int
    }) + (2 * served) / total - 1;
    let de = (if power_short {
        -1int
    } else {
        0int
    }) + (if water_short {
        -1int
    } else {
        0int
    }) - 2 * noncompliant_bridges + (if ops_short {
        -1int
    } else {
        0int
    });
    let dot = if plcs > 0 && gateways == 0 {
        -3int
    } else if noncompliant_plcs > 0 {
        -2int
    } else if plcs > 0 && gateways > 0 {
        1int
    } else {
        0int
    };
    let dt = (if power_short {
        -2int
    } else {
        0int
    }) + (if water_short {
        -2int
    } else {
        0int
    }) + (if bridges == 0 {
        -1int
    } else {
        0int
    }) - noncompliant_bridges + (if ops_short {
        -1int
    } else {
        0int
    });
    (ds, de, dot, dt)
}

/// Computes the rating deltas of the daily review.
pub fn daily_deltas(
    power_short: bool,
    water_short: bool,
    bridges: i32,
    bonus: i32,
    noncompliant_bridges: i32,
    plcs: i32,
    gateways: i32,
    noncompliant_plcs: i32,
    advanced: bool,
    ops_short: bool,
    served: i32,
    total: i32,
) -> (d: (i32, i32, i32, i32))
    requires
        0 <= bridges <= GRID_TILES,
        0 <= bonus,
        0 <= noncompliant_bridges <= GRID_TILES,
        0 <= plcs <= GRID_TILES,
        0 <= gateways,
        0 <= noncompliant_plcs,
        0 <= served <= 2 * GRID_TILES,
        1 <= total,
    ensures
        d.0 == review_deltas(power_short, water_short, bridges as int, bonus as int, noncompliant_bridges as int, plcs as int, gateways as int, noncompliant_plcs as int, advanced, ops_short, served as int, total as int).0,
        d.1 == review_deltas(power_short, water_short, bridges as int, bonus as int, noncompliant_bridges as int, plcs as int, gateways as int, noncompliant_plcs as int, advanced, ops_short, served as int, total as int).1,
        d.2 == review_deltas(power_short, water_short, bridges as int, bonus as int, noncompliant_bridges as int, plcs as int, gateways as int, noncompliant_plcs as int, advanced, ops_short, served as int, total as int).2,
        d.3 == review_deltas(power_short, water_short, bridges as int, bonus as int, noncompliant_bridges as int, plcs as int, gateways as int, noncompliant_plcs as int, advanced, ops_short, served as int, total as int).3,
        -5000 <= d.0 <= 5000,
        -5000 <= d.1 <= 5000,
        -5000 <= d.2 <= 5000,
        -5000 <= d.3 <= 5000,
{
    let mut ds: i32 = 0;
    let mut de: i32 = 0;
    let mut dot: i32 = 0;
    let mut dt: i32 = 0;
    if power_short {
        dt = dt - 2;
        de = de - 1;
    } else {
        ds = ds + 1;
    }
    if water_short {
        dt = dt - 2;
        de = de - 1;
    }
    if bridges == 0 {
        dt = dt - 1;
    } else {
        let step = bonus / 8;
        ds = ds + if step > 2 {
            2
        } else {
            step
        };
    }
    if noncompliant_bridges > 0 {
        de = de - noncompliant_bridges * 2;
        dt = dt - noncompliant_bridges;
    }
    if plcs > 0 && gateways == 0 {
        dot = dot - 3;
    } else if noncompliant_plcs > 0 {
        dot = dot - 2;
    } else if plcs > 0 && gateways > 0 {
        dot = dot + 1;
    }
    if advanced && plcs > 0 {
        ds = ds + 1;
    }
    if ops_short {
        de = de - 1;
        dt = dt - 1;
    }
    assert(0 <= (2 * served) / (total as int) <= 2 * served) by (nonlinear_arith)
        requires
            0 <= served <= 1280,
            1 <= total,
    ;
    ds = ds + (2 * served) / total - 1;
    (ds, de, dot, dt)
}

/// Fills the grid with river, road and rolled ground, row by row.
fn lay_out_tiles(grid: &mut Vec<Tile>, band_center: i32, shifts: &Vec<i32>, rolls: &Vec<i32>)
    requires
        old(grid)@.len() == GRID_TILES,
        shifts@.len() == GRID_TILES,
        rolls@.len() == GRID_TILES,
        forall|t: int|
            0 <= t < GRID_TILES ==> i32::MIN <= band_center + #[trigger] shifts@[t] <= i32::MAX,
    ensures
        final(grid)@.len() == GRID_TILES,
        forall|t: int|
            0 <= t < GRID_TILES ==> (#[trigger] final(grid)@[t]).asset is None && final(grid)@[t].kind == (
            if river_at(band_center as int, shifts@, index_x(t), index_y(t)) {
                TileKind::River
            } else if on_road_line(index_x(t), index_y(t)) {
                TileKind::Road
            } else {
                roll_kind(rolls@[t] as int)
            }),
{
    let mut y: i32 = 0;
    while y < GRID_H
        invariant
            grid@.len() == GRID_TILES,
            shifts@.len() == GRID_TILES,
            rolls@.len() == GRID_TILES,
            forall|t: int|
                0 <= t < GRID_TILES ==> i32::MIN <= band_center + #[trigger] shifts@[t] <= i32::MAX,
            0 <= y <= GRID_H,
            forall|t: int|
                0 <= t < y * GRID_W ==> (#[trigger] grid@[t]).asset is None && grid@[t].kind == (
                if river_at(band_center as int, shifts@, index_x(t), index_y(t)) {
                    TileKind::River
                } else if on_road_line(index_x(t), index_y(t)) {
                    TileKind::Road
                } else {
                    roll_kind(rolls@[t] as int)
                }),
        decreases GRID_H - y,
    {
        let mut x: i32 = 0;
        while x < GRID_W
            invariant
                grid@.len() == GRID_TILES,
                shifts@.len() == GRID_TILES,
                rolls@.len() == GRID_TILES,
                forall|t: int|
                    0 <= t < GRID_TILES ==> i32::MIN <= band_center + #[trigger] shifts@[t] <= i32::MAX,
                0 <= y < GRID_H,
                0 <= x <= GRID_W,
                forall|t: int|
                    0 <= t < y * GRID_W + x ==> (#[trigger] grid@[t]).asset is None && grid@[t].kind == (
                    if river_at(band_center as int, shifts@, index_x(t), index_y(t)) {
                        TileKind::River
                    } else if on_road_line(index_x(t), index_y(t)) {
                        TileKind::Road
                    } else {
                        roll_kind(rolls@[t] as int)
                    }),
            decreases GRID_W - x,
        {
            let p = GridPos { x, y };
            proof {
                lemma_index_coords(x as int, y as int);
            }
            let idx = p.index();
            let band_shift = if y % 4 == 0 {
                shifts[idx]
            } else {
                0
            };
            let river_here = x == band_center + band_shift;
            let kind = if river_here {
                TileKind::River
            } else if y == GRID_H / 2 || y == 4 || y == GRID_H - 5 || x == 4 || x == GRID_W - 5 {
                TileKind::Road
            } else {
                let roll = rolls[idx];
                if 0 <= roll && roll <= 38 {
                    TileKind::Building
                } else if 39 <= roll && roll <= 56 {
                    TileKind::Industrial
                } else if 57 <= roll && roll <= 64 {
                    TileKind::Park
                } else if 65 <= roll && roll <= 69 {
                    TileKind::Utility
                } else {
                    TileKind::Empty
                }
            };
            grid.set(idx, Tile { kind, asset: None });
            x = x + 1;
        }
        proof {
            assert((y + 1) * GRID_W == y * GRID_W + GRID_W) by (nonlinear_arith);
        }
        y = y + 1;
    }
}

/// Turns every non-river tile of row `y` into road.
fn pave_row(grid: &mut Vec<Tile>, y: i32)
    requires
        old(grid)@.len() == GRID_TILES,
        0 <= y < GRID_H,
    ensures
        final(grid)@.len() == GRID_TILES,
        forall|t: int|
            0 <= t < GRID_TILES ==> #[trigger] final(grid)@[t] == if index_y(t) == y && old(grid)@[t].kind
                != TileKind::River {
                Tile { kind: TileKind::Road, asset: old(grid)@[t].asset }
            } else {
                old(grid)@[t]
            },
{
    let mut x: i32 = 0;
    while x < GRID_W
        invariant
            grid@.len() == GRID_TILES,
            0 <= y < GRID_H,
            0 <= x <= GRID_W,
            forall|t: int|
                0 <= t < GRID_TILES ==> #[trigger] grid@[t] == if index_y(t) == y && index_x(t) < x
                    && old(grid)@[t].kind != TileKind::River {
                    Tile { kind: TileKind::Road, asset: old(grid)@[t].asset }
                } else {
                    old(grid)@[t]
                },
        decreases GRID_W - x,
    {
        let p = GridPos { x, y };
        proof {
            lemma_index_coords(x as int, y as int);
        }
        let idx = p.index();
        let tile = grid[idx];
        if tile.kind != TileKind::River {
            grid.set(idx, Tile { kind: TileKind::Road, asset: tile.asset });
        }
        proof {
            assert forall|t: int| 0 <= t < GRID_TILES implies #[trigger] grid@[t] == if index_y(t) == y
                && index_x(t) < x + 1 && old(grid)@[t].kind != TileKind::River {
                Tile { kind: TileKind::Road, asset: old(grid)@[t].asset }
            } else {
                old(grid)@[t]
            } by {
                lemma_coords_index(t);
            }
        }
        x = x + 1;
    }
    proof {
        assert forall|t: int| 0 <= t < GRID_TILES implies #[trigger] grid@[t] == if index_y(t) == y
            && old(grid)@[t].kind != TileKind::River {
            Tile { kind: TileKind::Road, asset: old(grid)@[t].asset }
        } else {
            old(grid)@[t]
        } by {
            lemma_coords_index(t);
        }
    }
}

/// With no assets and no tile naming one, occupancy holds.
proof fn lemma_empty_occupancy(grid: Seq<Tile>, assets: Seq<Asset>)
    requires
        assets.len() == 0,
        grid.len() == GRID_TILES,
        forall|t: int| 0 <= t < GRID_TILES ==> (#[trigger] grid[t]).asset is None,
    ensures
        occupancy_ok(grid, assets),
{
    reveal(occupancy_ok);
}

/// A rating clamped into `0..=100`.
pub fn clamp_0_100(v: i32) -> (r: i32)
    ensures
        r == clamp_score(v as int),
{
    if v < 0 {
        0
    } else if v > 100 {
        100
    } else {
        v
    }
}

/// Assets standing on distinct tiles while tile `free` holds none number
/// fewer than the tiles of the grid.
proof fn lemma_assets_fit(grid: Seq<Tile>, assets: Seq<Asset>, free: int)
    requires
        grid.len() == GRID_TILES,
        assets.len() <= usize::MAX,
        0 <= free < GRID_TILES,
        grid[free].asset is None,
        occupancy_ok(grid, assets),
    ensures
        assets.len() < GRID_TILES,
{
    lemma_occupancy_assets(grid, assets);
    let f = |i: int| tile_index(assets[i].pos.x as int, assets[i].pos.y as int);
    let dom = set_int_range(0, assets.len() as int);
    lemma_int_range(0, assets.len() as int);
    let img = dom.map(f);
    assert(injective_on(f, dom)) by {
        assert forall|i: int, j: int| dom.contains(i) && dom.contains(j) && #[trigger] f(i) == #[trigger] f(j) implies i == j by {
            assert(0 <= i < assets.len());
            assert(0 <= j < assets.len());
            assert(f(i) == tile_index(assets[i].pos.x as int, assets[i].pos.y as int));
            assert(f(j) == tile_index(assets[j].pos.x as int, assets[j].pos.y as int));
            assert(grid[tile_index(assets[i].pos.x as int, assets[i].pos.y as int)].asset == Some(i as usize));
            assert(grid[tile_index(assets[j].pos.x as int, assets[j].pos.y as int)].asset == Some(j as usize));
        }
    }
    lemma_map_size(dom, img, f);
    let tiles = set_int_range(0, GRID_TILES as int).remove(free);
    lemma_int_range(0, GRID_TILES as int);
    assert(img.subset_of(tiles)) by {
        assert forall|u: int| img.contains(u) implies tiles.contains(u) by {
            let i = choose|i: int| dom.contains(i) && f(i) == u;
            assert(assets[i].pos.in_bounds_spec());
            lemma_index_coords(assets[i].pos.x as int, assets[i].pos.y as int);
        }
    }
    lemma_len_subset(img, tiles);
}

/// A fresh grid of empty tiles.
pub fn blank_grid() -> (g: Vec<Tile>)
    ensures
        g@.len() == GRID_TILES,
        forall|i: int| 0 <= i < GRID_TILES ==> (#[trigger] g@[i]).kind == TileKind::Empty && g@[i].asset is None,
{
    let mut g: Vec<Tile> = Vec::new();
    let mut i: usize = 0;
    while i < GRID_TILES
        invariant
            i <= GRID_TILES,
            g@.len() == i,
            forall|j: int| 0 <= j < i ==> (#[trigger] g@[j]).kind == TileKind::Empty && g@[j].asset is None,
        decreases GRID_TILES - i,
    {
        g.push(Tile::empty());
        i = i + 1;
    }
    g
}

/// A fresh per-tile service map with no tile served.
pub fn blank_service_grid() -> (g: Vec<bool>)
    ensures
        g@.len() == GRID_TILES,
        forall|i: int| 0 <= i < GRID_TILES ==> !(#[trigger] g@[i]),
{
    let mut g: Vec<bool> = Vec::new();
    let mut i: usize = 0;
    while i < GRID_TILES
        invariant
            i <= GRID_TILES,
            g@.len() == i,
            forall|j: int| 0 <= j < i ==> !(#[trigger] g@[j]),
        decreases GRID_TILES - i,
    {
        g.push(false);
        i = i + 1;
    }
    g
}

/// Manhattan distance between two grid coordinates.
pub fn manhattan(a: GridPos, b: GridPos) -> (d: i32)
    requires
        abs_int(a.x - b.x) + abs_int(a.y - b.y) <= i32::MAX,
    ensures
        d == manhattan_spec(a.x as int, a.y as int, b.x as int, b.y as int),
{
    let dx = a.x - b.x;
    let dy = a.y - b.y;
    let adx = if dx < 0 { -dx } else { dx };
    let ady = if dy < 0 { -dy } else { dy };
    adx + ady
}

/// Marks every tile within Manhattan distance `radius` of `center` as served.
pub fn mark_service_area(service_map: &mut Vec<bool>, center: GridPos, radius: i32)
    requires
        old(service_map)@.len() == GRID_TILES,
        center.in_bounds_spec(),
        -(i32::MAX - GRID_W) <= radius <= i32::MAX - GRID_W,
    ensures
        final(service_map)@.len() == GRID_TILES,
        forall|t: int|
            0 <= t < GRID_TILES ==> #[trigger] final(service_map)@[t] == (old(service_map)@[t]
                || manhattan_spec(center.x as int, center.y as int, index_x(t), index_y(t))
                <= radius),
{
    if radius < 0 {
        return;
    }
    let min_y = if center.y - radius > 0 { center.y - radius } else { 0 };
    let max_y = if center.y + radius < GRID_H - 1 { center.y + radius } else { GRID_H - 1 };
    let min_x = if center.x - radius > 0 { center.x - radius } else { 0 };
    let max_x = if center.x + radius < GRID_W - 1 { center.x + radius } else { GRID_W - 1 };

    let mut y = min_y;
    while y <= max_y
        invariant
            service_map@.len() == GRID_TILES,
            center.in_bounds_spec(),
            0 <= radius <= i32::MAX - GRID_W,
            min_y == (if center.y - radius > 0 { center.y - radius } else { 0 }),
            max_y == (if center.y + radius < GRID_H - 1 { center.y + radius } else { GRID_H - 1 }),
            min_x == (if center.x - radius > 0 { center.x - radius } else { 0 }),
            max_x == (if center.x + radius < GRID_W - 1 { center.x + radius } else { GRID_W - 1 }),
            min_y <= y <= max_y + 1,
            forall|t: int|
                0 <= t < GRID_TILES ==> #[trigger] service_map@[t] == (old(service_map)@[t] || (
                manhattan_spec(center.x as int, center.y as int, index_x(t), index_y(t)) <= radius
                    && index_y(t) < y)),
        decreases max_y + 1 - y,
    {
        let mut x = min_x;
        while x <= max_x
            invariant
                service_map@.len() == GRID_TILES,
                center.in_bounds_spec(),
                0 <= radius <= i32::MAX - GRID_W,
                min_y == (if center.y - radius > 0 { center.y - radius } else { 0 }),
                max_y == (if center.y + radius < GRID_H - 1 { center.y + radius } else { GRID_H - 1 }),
                min_x == (if center.x - radius > 0 { center.x - radius } else { 0 }),
                max_x == (if center.x + radius < GRID_W - 1 { center.x + radius } else { GRID_W - 1 }),
                min_y <= y <= max_y,
                min_x <= x <= max_x + 1,
                forall|t: int|
                    0 <= t < GRID_TILES ==> #[trigger] service_map@[t] == (old(service_map)@[t] || (
                    manhattan_spec(center.x as int, center.y as int, index_x(t), index_y(t)) <= radius
                        && (index_y(t) < y || (index_y(t) == y && index_x(t) < x)))),
            decreases max_x + 1 - x,
        {
            let pos = GridPos { x, y };
            proof { lemma_index_coords(x as int, y as int); }
            if manhattan(center, pos) <= radius {
                let idx = pos.index();
                service_map.set(idx, true);
            }
            proof {
                assert forall|t: int| 0 <= t < GRID_TILES implies #[trigger] service_map@[t] == (old(service_map)@[t] || (
                    manhattan_spec(center.x as int, center.y as int, index_x(t), index_y(t)) <= radius
                        && (index_y(t) < y || (index_y(t) == y && index_x(t) < x + 1)))) by {
                    lemma_coords_index(t);
                    if index_y(t) == y && index_x(t) == x {
                        assert(t == tile_index(x as int, y as int));
                    }
                }
            }
            x = x + 1;
        }
        proof {
            assert forall|t: int| 0 <= t < GRID_TILES implies #[trigger] service_map@[t] == (old(service_map)@[t] || (
                manhattan_spec(center.x as int, center.y as int, index_x(t), index_y(t)) <= radius
                    && index_y(t) < y + 1)) by {
                lemma_coords_index(t);
            }
        }
        y = y + 1;
    }
    proof {
        assert forall|t: int| 0 <= t < GRID_TILES implies #[trigger] service_map@[t] == (old(service_map)@[t]
                || manhattan_spec(center.x as int, center.y as int, index_x(t), index_y(t))
                <= radius) by {
            lemma_coords_index(t);
        }
    }
}

} // verus!
