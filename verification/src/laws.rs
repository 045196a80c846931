use vstd::prelude::*;

use crate::game::{
    asset_nearby, bridge_bonus, clamp_int, clamp_score, clamped, cost_spec, count_demand, count_nearby, count_powered, count_watered,
    coverage_matches, incident_views, log_after, occupancy_ok, ops_cost, placement_spec,
    research_gain, served_by,
    ClickOutcome, GameState, LOG_CAPACITY,
};
use crate::grid::{pos_in_bounds, tile_index, GridPos, GRID_TILES, HOURS_PER_DAY};
use crate::input::{
    command_step, commands_run, game_key, game_key_commands, hours_run, keyboard_commands_spec,
    KeyPresses, UiCommand, UiState, GAME_KEY_COUNT,
};
use crate::model::{
    AssetKind, BridgeProfile, CityScore, LogicProfile, Tile, TileKind, Tool, ZoneKind,
};
use crate::settings::{
    active_tier_spec, effective_mesh_spec, effective_props_spec, with_adjustment, GraphicsPreset,
    GraphicsSettings, MeshDetail, PropDensity, RenderCapability, RenderTierChoice,
    SettingsMenuRow, UiScalePreset,
};
use crate::ui::SPEED_COUNT;

verus! {

// ---------------------------------------------------------------------------
// The city.

/// No two assets of a valid game stand on the same tile.
pub proof fn law_one_asset_per_tile(g: GameState, i: int, j: int)
    requires
        g.wf(),
        0 <= i < j < g.assets@.len(),
    ensures
        g.assets@[i].pos != g.assets@[j].pos,
{
    reveal(occupancy_ok);
    let a = g.assets@[i];
    let b = g.assets@[j];
    assert(g.grid@[tile_index(a.pos.x as int, a.pos.y as int)].asset == Some(i as usize));
    assert(g.grid@[tile_index(b.pos.x as int, b.pos.y as int)].asset == Some(j as usize));
}

/// A click on a tile that already holds an asset never builds there.
pub proof fn law_occupied_tile_never_built(g: GameState, p: GridPos)
    requires
        g.wf(),
        p.in_bounds_spec(),
        g.grid@[tile_index(p.x as int, p.y as int)].asset is Some,
    ensures
        g.click_outcome(p) != ClickOutcome::Built,
{
}

/// A click changes the visual revision exactly when it changes the map or
/// the assets, so a scene drawn for one revision shows that map.
pub proof fn law_revision_marks_map_changes(before: GameState, after: GameState, p: GridPos)
    requires
        before.wf(),
        after.clicked(before, p),
    ensures
        (after.visual_revision != before.visual_revision) <==> (after.grid != before.grid
            || after.assets != before.assets),
{
    if before.click_outcome(p) == ClickOutcome::Built {
        let t = tile_index(p.x as int, p.y as int);
        assert(before.grid@[t].asset is None);
        assert(after.grid@[t].asset is Some);
        assert(after.grid@ != before.grid@);
    }
}

/// A purchase costs exactly the tool's price and never overdraws the budget.
pub proof fn law_purchase_within_budget(before: GameState, after: GameState, p: GridPos)
    requires
        before.wf(),
        after.clicked(before, p),
        before.click_outcome(p) == ClickOutcome::Built,
    ensures
        after.budget == before.budget - cost_spec(before.selected_tool, before.bridge_profile),
        after.budget >= 0,
{
}

/// A valid game has at most one active incident of each kind.
pub proof fn law_one_incident_per_kind(g: GameState, i: int, j: int)
    requires
        g.wf(),
        0 <= i < j < g.incidents@.len(),
    ensures
        g.incidents@[i].kind != g.incidents@[j].kind,
{
    let v = incident_views(g.incidents@);
    assert(v[i].0 != v[j].0);
}

/// The log keeps the newest `LOG_CAPACITY` lines: a new line goes last and
/// the oldest is dropped once the log is full.
pub proof fn law_log_keeps_newest(log: Seq<Seq<char>>, msg: Seq<char>)
    requires
        log.len() <= LOG_CAPACITY,
    ensures
        log_after(log, msg).len() == if log.len() < LOG_CAPACITY {
            (log.len() + 1) as int
        } else {
            LOG_CAPACITY as int
        },
        log_after(log, msg).last() == msg,
        log_after(log, msg).drop_last() == log.skip(log.len() + 1 - log_after(log, msg).len()),
{
    let l = log_after(log, msg);
    assert(l.drop_last() =~= log.skip(log.len() + 1 - l.len()));
}

/// Clamped ratings lie within `0..=100`.
pub proof fn law_clamped_in_range(s: CityScore)
    ensures
        0 <= clamped(s).smartness <= 100,
        0 <= clamped(s).engineering <= 100,
        0 <= clamped(s).ot_security <= 100,
        0 <= clamped(s).citizen_trust <= 100,
        0 <= s.smartness <= 100 && 0 <= s.engineering <= 100 && 0 <= s.ot_security <= 100 && 0
            <= s.citizen_trust <= 100 ==> clamped(s) == s,
{
}

/// Three steps through the bridge profiles or the PLC logic profiles come
/// back to the start, and every step changes the profile.
pub proof fn law_profiles_cycle(b: BridgeProfile, l: LogicProfile)
    ensures
        b.next_spec().next_spec().next_spec() == b,
        b.next_spec() != b,
        l.next_spec().next_spec().next_spec() == l,
        l.next_spec() != l,
{
}

/// The clock: hour `e + 1` is the next hour of the day, and the day
/// advances exactly when the hour wraps past 23.
pub proof fn law_clock_advances(e: int)
    requires
        e >= 0,
    ensures
        (e + 1) % (HOURS_PER_DAY as int) == ((e % (HOURS_PER_DAY as int)) + 1) % (
        HOURS_PER_DAY as int),
        (e + 1) / (HOURS_PER_DAY as int) == if e % (HOURS_PER_DAY as int) == 23 {
            e / (HOURS_PER_DAY as int) + 1
        } else {
            e / (HOURS_PER_DAY as int)
        },
        0 <= e % (HOURS_PER_DAY as int) < 24,
        e == (e / (HOURS_PER_DAY as int)) * 24 + e % (HOURS_PER_DAY as int),
{
}

// ---------------------------------------------------------------------------
// Graphics settings.

/// Stepping a setting forward then back, or back then forward, returns to
/// where it was; so does a selectable preset.
pub proof fn law_settings_steps_invert(
    t: RenderTierChoice,
    m: MeshDetail,
    d: PropDensity,
    u: UiScalePreset,
    p: GraphicsPreset,
)
    ensures
        t.next_spec().prev_spec() == t && t.prev_spec().next_spec() == t,
        m.next_spec().prev_spec() == m && m.prev_spec().next_spec() == m,
        d.next_spec().prev_spec() == d && d.prev_spec().next_spec() == d,
        u.next_spec().prev_spec() == u && u.prev_spec().next_spec() == u,
        p != GraphicsPreset::Custom ==> p.next_selectable_spec().prev_selectable_spec() == p
            && p.prev_selectable_spec().next_selectable_spec() == p,
{
}

/// Adjusting a row other than the preset forward and then back restores
/// every setting but marks the settings as custom.
pub proof fn law_adjust_round_trip(s: GraphicsSettings, row: SettingsMenuRow, forward: bool)
    requires
        row != SettingsMenuRow::Preset,
    ensures
        with_adjustment(with_adjustment(s, row, forward), row, !forward) == (GraphicsSettings {
            preset: GraphicsPreset::Custom,
            ..s
        }),
{
}

/// A software-only machine always renders with the fallback tier.
pub proof fn law_software_machines_use_fallback(choice: RenderTierChoice, capability: RenderCapability)
    requires
        capability.software_fallback,
    ensures
        active_tier_spec(choice, capability) == crate::settings::ActiveRenderTier::FallbackDebug,
{
}

/// The render tier never raises the chosen mesh detail or prop density.
pub proof fn law_tier_caps_never_raise(
    choice: RenderTierChoice,
    capability: RenderCapability,
    m: MeshDetail,
    d: PropDensity,
)
    ensures
        effective_mesh_spec(active_tier_spec(choice, capability), m).rank() <= m.rank(),
        effective_props_spec(active_tier_spec(choice, capability), d).rank() <= d.rank(),
{
}

// ---------------------------------------------------------------------------
// Input.

/// With an incident panel open, Escape only closes the panel.
pub proof fn law_escape_closes_incident_panel(keys: KeyPresses, settings_open: bool)
    requires
        keys.escape,
    ensures
        keyboard_commands_spec(keys, true, settings_open) == seq![UiCommand::CloseEventModal],
{
}

/// While the settings panel is open, the keys only drive the panel (F1 and
/// Tab aside): at most one command, and never one that touches the city.
pub proof fn law_settings_panel_captures_keys(keys: KeyPresses, modal_open: bool)
    requires
        !(modal_open && keys.escape),
        !keys.f1,
        !keys.tab,
    ensures
        keyboard_commands_spec(keys, modal_open, true).len() <= 1,
        forall|k: int|
            0 <= k < keyboard_commands_spec(keys, modal_open, true).len() ==> {
                let cmd = #[trigger] keyboard_commands_spec(keys, modal_open, true)[k];
                cmd == UiCommand::CloseSettingsMenu || cmd is MoveSettingsSelection
                    || cmd is AdjustSetting
            },
{
}

/// Pausing twice restores the pause flag and the speed.
pub proof fn law_pause_twice(s: UiState, m: UiState, t: UiState, capability: RenderCapability)
    requires
        command_step(s, UiCommand::TogglePause, capability, m),
        command_step(m, UiCommand::TogglePause, capability, t),
    ensures
        t.time_control.is_paused() == s.time_control.is_paused(),
        t.time_control.speed_step() == s.time_control.speed_step(),
{
}

/// One speed faster and one slower comes back to the speed it started from,
/// unless it started at the fastest.
pub proof fn law_faster_then_slower(s: UiState, m: UiState, t: UiState, capability: RenderCapability)
    requires
        command_step(s, UiCommand::Faster, capability, m),
        command_step(m, UiCommand::Slower, capability, t),
        0 <= s.time_control.speed_step() < SPEED_COUNT - 1,
    ensures
        t.time_control.speed_step() == s.time_control.speed_step(),
        t.time_control.is_paused() == s.time_control.is_paused(),
{
}

/// Collapsing the sidebar twice leaves everything as it was.
pub proof fn law_sidebar_toggle_twice(s: UiState, m: UiState, t: UiState, capability: RenderCapability)
    requires
        command_step(s, UiCommand::ToggleSidebar, capability, m),
        command_step(m, UiCommand::ToggleSidebar, capability, t),
    ensures
        t == s,
{
}

/// Moving the settings selection down and then up leaves everything as it was.
pub proof fn law_selection_round_trip(s: UiState, m: UiState, t: UiState, capability: RenderCapability)
    requires
        s.settings_menu.selected_row < 8,
        command_step(s, UiCommand::MoveSettingsSelection(1i32), capability, m),
        command_step(m, UiCommand::MoveSettingsSelection(-1i32), capability, t),
    ensures
        t == s,
{
}

/// While the settings panel is open, a frame's keys never change the city:
/// its map, assets, money, research and incidents stay.
pub proof fn law_settings_panel_keeps_the_city(
    keys: KeyPresses,
    modal_open: bool,
    s: UiState,
    t: UiState,
    capability: RenderCapability,
)
    requires
        commands_run(s, keyboard_commands_spec(keys, modal_open, true), capability, t),
    ensures
        t.game.keeps_world(s.game),
        t.game.keeps_settings(s.game),
        t.game.score == s.game.score,
{
    let cmds = keyboard_commands_spec(keys, modal_open, true);
    assert(cmds.len() <= 1);
    if cmds.len() == 1 {
        let m = choose|m: UiState|
            commands_run(s, cmds.drop_last(), capability, m) && #[trigger] command_step(
                m,
                cmds.last(),
                capability,
                t,
            );
        assert(cmds.drop_last().len() == 0);
        assert(m == s);
        assert(cmds[0] == cmds.last());
    }
}

// ---------------------------------------------------------------------------
// Time.

/// Running `n` hours moves the clock by `n` hours and never touches the map,
/// the assets, the coverage, the budget or the player's choices.
pub proof fn law_time_keeps_the_map(s: GameState, n: nat, t: GameState)
    requires
        hours_run(s, n, t),
    ensures
        t.elapsed_hours == s.elapsed_hours + n,
        t.grid == s.grid,
        t.assets == s.assets,
        t.coverage == s.coverage,
        t.budget == s.budget,
        t.selected_tool == s.selected_tool,
        t.bridge_profile == s.bridge_profile,
        t.logic_profile == s.logic_profile,
        t.selected_tile == s.selected_tile,
    decreases n,
{
    if n > 0 {
        let m = choose|m: GameState| hours_run(s, (n - 1) as nat, m) && #[trigger] t.hour_advanced(m);
        law_time_keeps_the_map(s, (n - 1) as nat, m);
    }
}

// ---------------------------------------------------------------------------
// Placement of PLCs.

/// A PLC may be placed on an industrial or utility lot and nowhere else, in
/// the OT zone. There it is judged compliant under the manual profile when a
/// gateway lies within 4 tiles, under the timed profile when a gateway lies
/// within 4 tiles and a sensor within 2, and under the responsive profile
/// when, besides both, the advanced controls are unlocked. A timed PLC's
/// note says which of the two it is.
pub proof fn law_plc_placement(g: GameState, p: GridPos)
    ensures
        ({
            let r = g.placement_of(Tool::Plc, p);
            let kind = g.grid@[tile_index(p.x as int, p.y as int)].kind;
            let gateway = asset_nearby(g.assets@, p.x as int, p.y as int, AssetKind::Gateway, 4);
            let sensor = asset_nearby(g.assets@, p.x as int, p.y as int, AssetKind::Sensor, 2);
            &&& r.0 <==> (kind == TileKind::Industrial || kind == TileKind::Utility)
            &&& r.3 == ZoneKind::OT
            &&& !r.0 ==> !r.1
            &&& r.0 && g.logic_profile == LogicProfile::Manual ==> (r.1 <==> gateway)
            &&& r.0 && g.logic_profile == LogicProfile::Timed ==> (r.1 <==> gateway && sensor)
            &&& r.0 && g.logic_profile == LogicProfile::Responsive ==> (r.1 <==> gateway && sensor
                && g.advanced_unlocked)
            &&& r.0 && g.logic_profile == LogicProfile::Timed && !(gateway && sensor) ==> r.2
                == "Timed PLC needs both telemetry and segmentation or it becomes a scheduled mistake."@
        }),
{
    reveal(placement_spec);
}

// ---------------------------------------------------------------------------
// The daily review of OT security.

/// The daily review moves OT security by the state of the PLC network: down
/// 3 when PLCs run without any gateway, otherwise down 2 when some PLC is
/// non-compliant, otherwise up 1 when PLCs run behind a gateway, and not at
/// all without PLCs; the result is clamped into `0..=100`.
pub proof fn law_review_ot_security(g: GameState)
    ensures
        ({
            let plcs = g.n_of(AssetKind::Plc);
            let gateways = g.n_of(AssetKind::Gateway);
            let bad = g.n_noncompliant(AssetKind::Plc);
            let ot = g.score.ot_security as int;
            g.review_score().ot_security == if plcs > 0 && gateways == 0 {
                clamp_score(ot - 3)
            } else if bad > 0 {
                clamp_score(ot - 2)
            } else if plcs > 0 && gateways > 0 {
                clamp_score(ot + 1)
            } else {
                clamp_score(ot)
            }
        }),
{
}

// ---------------------------------------------------------------------------
// Service coverage.

/// The number of tiles `t < n` for which `pred` holds.
pub open spec fn tiles_where(n: int, pred: spec_fn(int) -> bool) -> int {
    Seq::new(n as nat, |t: int| t).filter(pred).len() as int
}

/// Tile `t` of `grid` is of `kind`.
pub open spec fn kind_at(grid: Seq<Tile>, kind: TileKind) -> spec_fn(int) -> bool {
    |t: int| grid[t].kind == kind
}

/// Tile `t` of `grid` is of `kind` and marked in `served`.
pub open spec fn served_kind_at(grid: Seq<Tile>, served: Seq<bool>, kind: TileKind) -> spec_fn(
    int,
) -> bool {
    |t: int| grid[t].kind == kind && served[t]
}

proof fn lemma_tiles_where_step(n: int, pred: spec_fn(int) -> bool)
    requires
        0 <= n,
    ensures
        tiles_where(n + 1, pred) == tiles_where(n, pred) + if pred(n) {
            1int
        } else {
            0int
        },
{
    let s = Seq::new(n as nat, |t: int| t);
    assert(Seq::new((n + 1) as nat, |t: int| t) =~= s.push(n));
    s.lemma_filter_len_push(pred, n);
}

proof fn lemma_counts_by_kind(grid: Seq<Tile>, powered: Seq<bool>, watered: Seq<bool>, n: int)
    requires
        0 <= n,
    ensures
        count_demand(grid, n) == tiles_where(n, kind_at(grid, TileKind::Building)) + tiles_where(
            n,
            kind_at(grid, TileKind::Industrial),
        ) + tiles_where(n, kind_at(grid, TileKind::ControlCenter)),
        count_powered(grid, powered, n) == tiles_where(
            n,
            served_kind_at(grid, powered, TileKind::Building),
        ) + tiles_where(n, served_kind_at(grid, powered, TileKind::Industrial)) + tiles_where(
            n,
            served_kind_at(grid, powered, TileKind::ControlCenter),
        ),
        count_watered(grid, watered, n) == tiles_where(
            n,
            served_kind_at(grid, watered, TileKind::Building),
        ) + tiles_where(n, served_kind_at(grid, watered, TileKind::Industrial)) + tiles_where(
            n,
            kind_at(grid, TileKind::ControlCenter),
        ),
    decreases n,
{
    if n == 0 {
        assert(Seq::new(0nat, |t: int| t).filter(kind_at(grid, TileKind::Building)).len() == 0) by {
            Seq::new(0nat, |t: int| t).lemma_filter_len(kind_at(grid, TileKind::Building));
        }
        reveal(Seq::filter);
    } else {
        let m = n - 1;
        lemma_counts_by_kind(grid, powered, watered, m);
        lemma_tiles_where_step(m, kind_at(grid, TileKind::Building));
        lemma_tiles_where_step(m, kind_at(grid, TileKind::Industrial));
        lemma_tiles_where_step(m, kind_at(grid, TileKind::ControlCenter));
        lemma_tiles_where_step(m, served_kind_at(grid, powered, TileKind::Building));
        lemma_tiles_where_step(m, served_kind_at(grid, powered, TileKind::Industrial));
        lemma_tiles_where_step(m, served_kind_at(grid, powered, TileKind::ControlCenter));
        lemma_tiles_where_step(m, served_kind_at(grid, watered, TileKind::Building));
        lemma_tiles_where_step(m, served_kind_at(grid, watered, TileKind::Industrial));
    }
}

/// In a valid game the demand is every building, industrial and
/// control-center tile, one each; a tile is powered exactly when a
/// substation is within service radius, and watered when a pump station is;
/// the powered count is the powered tiles among the buildings, industry and
/// control center, and the watered count the watered buildings and industry
/// plus the control center, which always counts as watered.
pub proof fn law_coverage_by_kind(g: GameState)
    requires
        g.wf(),
    ensures
        g.coverage.total_demand == tiles_where(GRID_TILES as int, kind_at(g.grid@, TileKind::Building))
            + tiles_where(GRID_TILES as int, kind_at(g.grid@, TileKind::Industrial)) + tiles_where(
            GRID_TILES as int,
            kind_at(g.grid@, TileKind::ControlCenter),
        ),
        g.coverage.powered == tiles_where(
            GRID_TILES as int,
            served_kind_at(g.grid@, g.powered_tiles@, TileKind::Building),
        ) + tiles_where(
            GRID_TILES as int,
            served_kind_at(g.grid@, g.powered_tiles@, TileKind::Industrial),
        ) + tiles_where(
            GRID_TILES as int,
            served_kind_at(g.grid@, g.powered_tiles@, TileKind::ControlCenter),
        ),
        g.coverage.watered == tiles_where(
            GRID_TILES as int,
            served_kind_at(g.grid@, g.watered_tiles@, TileKind::Building),
        ) + tiles_where(
            GRID_TILES as int,
            served_kind_at(g.grid@, g.watered_tiles@, TileKind::Industrial),
        ) + tiles_where(GRID_TILES as int, kind_at(g.grid@, TileKind::ControlCenter)),
        forall|t: int|
            0 <= t < GRID_TILES ==> (#[trigger] g.powered_tiles@[t] <==> served_by(
                g.assets@,
                AssetKind::Substation,
                t,
            )) && (g.watered_tiles@[t] <==> served_by(g.assets@, AssetKind::PumpStation, t)),
{
    reveal(coverage_matches);
    lemma_counts_by_kind(g.grid@, g.powered_tiles@, g.watered_tiles@, GRID_TILES as int);
}

// ---------------------------------------------------------------------------
// Tool keys.

proof fn lemma_game_key_commands_contains(keys: KeyPresses, n: int, c: UiCommand)
    requires
        0 <= n,
    ensures
        game_key_commands(keys, n).contains(c) <==> exists|i: int|
            0 <= i < n && #[trigger] game_key(keys, i) == (true, c),
    decreases n,
{
    if n > 0 {
        lemma_game_key_commands_contains(keys, n - 1, c);
        let prev = game_key_commands(keys, n - 1);
        let k = game_key(keys, n - 1);
        let cur = game_key_commands(keys, n);
        if k.0 {
            assert(cur =~= prev.push(k.1));
        } else {
            assert(cur =~= prev);
        }
        if cur.contains(c) {
            let j = choose|j: int| 0 <= j < cur.len() && cur[j] == c;
            if j < prev.len() {
                assert(prev[j] == c);
                assert(prev.contains(c));
            } else {
                assert(game_key(keys, n - 1) == (true, c));
            }
        }
        if exists|i: int| 0 <= i < n && #[trigger] game_key(keys, i) == (true, c) {
            let i = choose|i: int| 0 <= i < n && #[trigger] game_key(keys, i) == (true, c);
            if i < n - 1 {
                assert(prev.contains(c));
                let j = choose|j: int| 0 <= j < prev.len() && prev[j] == c;
                assert(cur[j] == c);
            } else {
                assert(cur[prev.len() as int] == c);
            }
        }
    }
}

/// With no panel taking the keys (no F1 or Tab, the settings panel closed,
/// and no Escape meant for an open incident panel), the keys 1 to 6 pick the
/// bridge, sensor, PLC, gateway, substation and pump-station tools and Escape
/// picks the inspect tool: each tool is picked exactly when its key is
/// pressed.
pub proof fn law_tool_keys(keys: KeyPresses, modal_open: bool)
    requires
        !keys.f1,
        !keys.tab,
        !(modal_open && keys.escape),
    ensures
        ({
            let cmds = keyboard_commands_spec(keys, modal_open, false);
            &&& cmds.contains(UiCommand::SelectTool(Tool::Bridge)) <==> keys.digit1
            &&& cmds.contains(UiCommand::SelectTool(Tool::Sensor)) <==> keys.digit2
            &&& cmds.contains(UiCommand::SelectTool(Tool::Plc)) <==> keys.digit3
            &&& cmds.contains(UiCommand::SelectTool(Tool::Gateway)) <==> keys.digit4
            &&& cmds.contains(UiCommand::SelectTool(Tool::Substation)) <==> keys.digit5
            &&& cmds.contains(UiCommand::SelectTool(Tool::PumpStation)) <==> keys.digit6
            &&& cmds.contains(UiCommand::SelectTool(Tool::Inspect)) <==> keys.escape
        }),
{
    let n = GAME_KEY_COUNT as int;
    let tools = seq![
        Tool::Bridge,
        Tool::Sensor,
        Tool::Plc,
        Tool::Gateway,
        Tool::Substation,
        Tool::PumpStation,
        Tool::Inspect,
    ];
    assert forall|k: int| 0 <= k < 7 implies {
        let c = UiCommand::SelectTool(#[trigger] tools[k]);
        game_key_commands(keys, n).contains(c) <==> game_key(keys, k + 1).0
    } by {
        let c = UiCommand::SelectTool(tools[k]);
        lemma_game_key_commands_contains(keys, n, c);
        assert(game_key(keys, k + 1).1 == c);
        if game_key_commands(keys, n).contains(c) {
            let i = choose|i: int| 0 <= i < n && #[trigger] game_key(keys, i) == (true, c);
            assert(i == k + 1);
        }
    }
    assert(tools[0] == Tool::Bridge);
    assert(tools[1] == Tool::Sensor);
    assert(tools[2] == Tool::Plc);
    assert(tools[3] == Tool::Gateway);
    assert(tools[4] == Tool::Substation);
    assert(tools[5] == Tool::PumpStation);
    assert(tools[6] == Tool::Inspect);
}

// ---------------------------------------------------------------------------
// Placement of the other assets.

/// Where each asset may stand, whether it is judged compliant there, and
/// its zone. A bridge goes on a river tile whose left and right neighbours
/// are roads; a standard bridge is always compliant, a heavy one only with
/// industry within 3 tiles, a cheap one only without. A sensor goes on a
/// building, industrial or utility lot and is always compliant. A gateway
/// goes on a road or the control center and is compliant with industry, a
/// utility lot or the control center within 5 tiles. A substation goes on a
/// road or utility lot and is compliant with at least three buildings or
/// industrial lots within 4 tiles. A pump station goes on a road or utility
/// lot or next to the river, and is compliant next to the river or with a
/// PLC within 2 tiles. The inspect tool places nothing.
pub proof fn law_placement_rules(g: GameState, p: GridPos)
    ensures
        ({
            let x = p.x as int;
            let y = p.y as int;
            let kind = g.grid@[tile_index(x, y)].kind;
            let bridge = g.placement_of(Tool::Bridge, p);
            let sensor = g.placement_of(Tool::Sensor, p);
            let gateway = g.placement_of(Tool::Gateway, p);
            let substation = g.placement_of(Tool::Substation, p);
            let pump = g.placement_of(Tool::PumpStation, p);
            let near_river = count_nearby(g.grid@, x, y, TileKind::River, 1) > 0;
            let industry3 = count_nearby(g.grid@, x, y, TileKind::Industrial, 3);
            &&& bridge.0 <==> kind == TileKind::River && pos_in_bounds(x - 1, y) && pos_in_bounds(
                x + 1,
                y,
            ) && g.grid@[tile_index(x - 1, y)].kind == TileKind::Road && g.grid@[tile_index(
                x + 1,
                y,
            )].kind == TileKind::Road
            &&& bridge.0 ==> (bridge.1 <==> match g.bridge_profile {
                BridgeProfile::Standard => true,
                BridgeProfile::Heavy => industry3 > 0,
                BridgeProfile::Cheap => industry3 == 0,
            })
            &&& bridge.3 == ZoneKind::Municipal
            &&& sensor.0 <==> (kind == TileKind::Building || kind == TileKind::Industrial || kind
                == TileKind::Utility)
            &&& sensor.1 == sensor.0
            &&& sensor.3 == ZoneKind::Municipal
            &&& gateway.0 <==> (kind == TileKind::Road || kind == TileKind::ControlCenter)
            &&& gateway.0 ==> (gateway.1 <==> count_nearby(g.grid@, x, y, TileKind::Industrial, 5) > 0
                || count_nearby(g.grid@, x, y, TileKind::Utility, 5) > 0 || count_nearby(
                g.grid@,
                x,
                y,
                TileKind::ControlCenter,
                5,
            ) > 0)
            &&& gateway.3 == ZoneKind::Corporate
            &&& substation.0 <==> (kind == TileKind::Road || kind == TileKind::Utility)
            &&& substation.0 ==> (substation.1 <==> count_nearby(
                g.grid@,
                x,
                y,
                TileKind::Building,
                4,
            ) + count_nearby(g.grid@, x, y, TileKind::Industrial, 4) >= 3)
            &&& substation.3 == ZoneKind::Municipal
            &&& pump.0 <==> (kind == TileKind::Road || kind == TileKind::Utility || near_river)
            &&& pump.0 ==> (pump.1 <==> near_river || asset_nearby(
                g.assets@,
                x,
                y,
                AssetKind::Plc,
                2,
            ))
            &&& pump.3 == ZoneKind::OT
            &&& !bridge.0 ==> !bridge.1
            &&& !gateway.0 ==> !gateway.1
            &&& !substation.0 ==> !substation.1
            &&& !pump.0 ==> !pump.1
            &&& !g.placement_of(Tool::Inspect, p).0
        }),
{
    reveal(placement_spec);
}

// ---------------------------------------------------------------------------
// The rest of the daily review.

/// The daily review charges one unit of operations budget for every PLC,
/// pump station and substation, earns one research point when powered and
/// watered demand together exceed the demand (counted as at least one), and
/// moves the ratings: engineering down 1 for short power (under 65% of the
/// demand powered), 1 for short water (under 60% watered), 2 for every
/// non-compliant bridge and 1 for an overdrawn operations budget; trust
/// down 2 for short power, 2 for short water, 1 when no bridge stands, 1 for
/// every non-compliant bridge and 1 for an overdrawn budget; smartness up 1
/// when power is not short, by the eighth of the bridges' connectivity
/// bonus (at most 2) when bridges stand, 1 with PLCs and the advanced
/// controls, and by twice the served share of the demand, rounded down,
/// less 1. Each rating is clamped into `0..=100`.
pub proof fn law_review_budget_and_ratings(g: GameState)
    ensures
        ({
            let total = if g.coverage.total_demand < 1 {
                1int
            } else {
                g.coverage.total_demand as int
            };
            let served = g.coverage.powered + g.coverage.watered;
            let power_short = g.coverage.powered * 100 < 65 * total;
            let water_short = g.coverage.watered * 100 < 60 * total;
            let ops = g.ops_budget - (g.n_of(AssetKind::Plc) + g.n_of(AssetKind::PumpStation)
                + g.n_of(AssetKind::Substation));
            let bridges = g.n_of(AssetKind::Bridge);
            let bad_bridges = g.n_noncompliant(AssetKind::Bridge);
            let s = g.review_score();
            &&& g.review_ops_budget() == ops
            &&& g.review_research() == g.research_points + if served > total {
                1int
            } else {
                0int
            }
            &&& s.engineering == clamp_score(
                g.score.engineering - (if power_short {
                    1int
                } else {
                    0int
                }) - (if water_short {
                    1int
                } else {
                    0int
                }) - 2 * bad_bridges - (if ops < 0 {
                    1int
                } else {
                    0int
                }),
            )
            &&& s.citizen_trust == clamp_score(
                g.score.citizen_trust - (if power_short {
                    2int
                } else {
                    0int
                }) - (if water_short {
                    2int
                } else {
                    0int
                }) - (if bridges == 0 {
                    1int
                } else {
                    0int
                }) - bad_bridges - (if ops < 0 {
                    1int
                } else {
                    0int
                }),
            )
            &&& s.smartness == clamp_score(
                g.score.smartness + (if power_short {
                    0int
                } else {
                    1int
                }) + (if bridges == 0 {
                    0int
                } else {
                    clamp_int(bridge_bonus(g.grid@, g.assets@, g.assets@.len() as int) / 8, 0, 2)
                }) + (if g.advanced_unlocked && g.n_of(AssetKind::Plc) > 0 {
                    1int
                } else {
                    0int
                }) + (2 * served) / total - 1,
            )
        }),
{
}

/// Apart from the tool keys, with no panel taking the keys: R regenerates,
/// B and L cycle the bridge and PLC profiles, U spends research, Space
/// pauses, minus (either row) slows and plus (either row) speeds the clock;
/// each command comes exactly when its key is pressed.
pub proof fn law_game_keys(keys: KeyPresses, modal_open: bool)
    requires
        !keys.f1,
        !keys.tab,
        !(modal_open && keys.escape),
    ensures
        ({
            let cmds = keyboard_commands_spec(keys, modal_open, false);
            &&& cmds.contains(UiCommand::Regenerate) <==> keys.key_r
            &&& cmds.contains(UiCommand::CycleBridgeProfile) <==> keys.key_b
            &&& cmds.contains(UiCommand::CycleLogicProfile) <==> keys.key_l
            &&& cmds.contains(UiCommand::SpendResearch) <==> keys.key_u
            &&& cmds.contains(UiCommand::TogglePause) <==> keys.space
            &&& cmds.contains(UiCommand::Slower) <==> keys.minus || keys.numpad_subtract
            &&& cmds.contains(UiCommand::Faster) <==> keys.equal || keys.numpad_add
        }),
{
    let n = GAME_KEY_COUNT as int;
    let cmds = seq![
        UiCommand::Regenerate,
        UiCommand::CycleBridgeProfile,
        UiCommand::CycleLogicProfile,
        UiCommand::SpendResearch,
        UiCommand::TogglePause,
        UiCommand::Slower,
        UiCommand::Faster,
    ];
    let slots = seq![0int, 8, 9, 10, 11, 12, 13];
    assert forall|k: int| 0 <= k < 7 implies (game_key_commands(keys, n).contains(
        #[trigger] cmds[k],
    ) <==> game_key(keys, slots[k]).0) by {
        let c = cmds[k];
        lemma_game_key_commands_contains(keys, n, c);
        assert(game_key(keys, slots[k]).1 == c);
        if game_key_commands(keys, n).contains(c) {
            let i = choose|i: int| 0 <= i < n && #[trigger] game_key(keys, i) == (true, c);
            assert(i == slots[k]);
        }
    }
    assert(cmds[0] == UiCommand::Regenerate);
    assert(cmds[1] == UiCommand::CycleBridgeProfile);
    assert(cmds[2] == UiCommand::CycleLogicProfile);
    assert(cmds[3] == UiCommand::SpendResearch);
    assert(cmds[4] == UiCommand::TogglePause);
    assert(cmds[5] == UiCommand::Slower);
    assert(cmds[6] == UiCommand::Faster);
}

// ---------------------------------------------------------------------------
// What a build does to the ratings, the upkeep and research.

/// Building with the selected tool at `p` moves the ratings, each clamped
/// into `0..=100`: a bridge adds 5 smartness and, when compliant, 5
/// engineering and 4 trust, else takes 14 engineering and 18 trust; a
/// sensor adds 4 smartness and 1 OT security with a gateway within 4 tiles,
/// else takes 1; a PLC adds 6 smartness and 5 OT security when compliant,
/// else takes 9; a gateway adds 2 smartness and 8 OT security; a substation
/// adds 3 smartness and 4 engineering; a pump station adds 3 smartness and 4
/// engineering when compliant, else takes 8. PLCs draw 4 units of the
/// operations budget, gateways 1, substations and pump stations 2; sensors,
/// PLCs, substations and pump stations each earn a research point.
pub proof fn law_build_effects(g: GameState, p: GridPos)
    requires
        g.selected_tool != Tool::Inspect,
    ensures
        ({
            let tool = g.selected_tool;
            let c = g.placement_of(tool, p).1;
            let near_gateway = asset_nearby(g.assets@, p.x as int, p.y as int, AssetKind::Gateway, 4);
            let s = g.score;
            let b = g.built_score(p);
            let kind = tool.asset_kind_spec().unwrap();
            &&& tool == Tool::Bridge ==> b == CityScore {
                smartness: clamp_score(s.smartness + 5) as i32,
                engineering: clamp_score(s.engineering + if c { 5int } else { -14int }) as i32,
                ot_security: clamp_score(s.ot_security as int) as i32,
                citizen_trust: clamp_score(s.citizen_trust + if c { 4int } else { -18int }) as i32,
            }
            &&& tool == Tool::Sensor ==> b == CityScore {
                smartness: clamp_score(s.smartness + 4) as i32,
                engineering: clamp_score(s.engineering as int) as i32,
                ot_security: clamp_score(s.ot_security + if near_gateway { 1int } else { -1int }) as i32,
                citizen_trust: clamp_score(s.citizen_trust as int) as i32,
            }
            &&& tool == Tool::Plc ==> b == CityScore {
                smartness: clamp_score(s.smartness + 6) as i32,
                engineering: clamp_score(s.engineering as int) as i32,
                ot_security: clamp_score(s.ot_security + if c { 5int } else { -9int }) as i32,
                citizen_trust: clamp_score(s.citizen_trust as int) as i32,
            }
            &&& tool == Tool::Gateway ==> b == CityScore {
                smartness: clamp_score(s.smartness + 2) as i32,
                engineering: clamp_score(s.engineering as int) as i32,
                ot_security: clamp_score(s.ot_security + 8) as i32,
                citizen_trust: clamp_score(s.citizen_trust as int) as i32,
            }
            &&& tool == Tool::Substation ==> b == CityScore {
                smartness: clamp_score(s.smartness + 3) as i32,
                engineering: clamp_score(s.engineering + 4) as i32,
                ot_security: clamp_score(s.ot_security as int) as i32,
                citizen_trust: clamp_score(s.citizen_trust as int) as i32,
            }
            &&& tool == Tool::PumpStation ==> b == CityScore {
                smartness: clamp_score(s.smartness + 3) as i32,
                engineering: clamp_score(s.engineering + if c { 4int } else { -8int }) as i32,
                ot_security: clamp_score(s.ot_security as int) as i32,
                citizen_trust: clamp_score(s.citizen_trust as int) as i32,
            }
            &&& ops_cost(kind) == if tool == Tool::Plc {
                4int
            } else if tool == Tool::Gateway {
                1int
            } else if tool == Tool::Substation || tool == Tool::PumpStation {
                2int
            } else {
                0int
            }
            &&& research_gain(kind) == if tool == Tool::Bridge || tool == Tool::Gateway {
                0int
            } else {
                1int
            }
        }),
{
}

} // verus!
