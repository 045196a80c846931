use smartcity_forge::game::{clamp_0_100, manhattan, GameState, LOG_CAPACITY};
use smartcity_forge::grid::{GridPos, GRID_H, GRID_TILES, GRID_W};
use smartcity_forge::model::{AssetKind, BridgeProfile, IncidentKind, LogicProfile, TileKind, Tool, ZoneKind};

/// A city with the river in column `band`, no river shifts and every lot
/// rolled as a building.
fn city(band: i32) -> GameState {
    let mut g = GameState::new();
    g.regenerate_with(band, &vec![0; GRID_TILES], &vec![0; GRID_TILES]);
    g
}

fn last_log(g: &GameState) -> String {
    g.log[g.log.len() - 1].clone()
}

#[test]
fn new_game_is_a_fresh_city() {
    let g = GameState::new();
    assert_eq!(g.selected_tool, Tool::Inspect);
    assert!(g.river_x >= 8 && g.river_x < GRID_W - 8);
    assert_eq!(g.budget, 760);
    assert_eq!(g.ops_budget, 160);
    assert_eq!(g.visual_revision(), 1);
    assert_eq!(g.log.len(), 2);
    assert!(g.assets.is_empty());
    assert!(g.incidents.is_empty());
    assert_eq!(g.clock_label(), "Day 01 00:00");
    assert!(g.fits_hour());
    // The control center, the road grid and the river column.
    assert_eq!(g.tile(GridPos::new(2, 2)).kind, TileKind::ControlCenter);
    for x in 0..GRID_W {
        let k = g.tile(GridPos::new(x, 10)).kind;
        assert!(k == TileKind::Road || k == TileKind::River);
    }
    for y in 0..GRID_H {
        if y % 4 != 0 {
            assert_eq!(g.tile(GridPos::new(g.river_x, y)).kind, TileKind::River);
        }
    }
}

#[test]
fn regenerate_keeps_tool_and_bumps_revision() {
    let mut g = GameState::new();
    g.selected_tool = Tool::Gateway;
    g.budget = 3;
    g.regenerate();
    assert_eq!(g.selected_tool, Tool::Gateway);
    assert_eq!(g.budget, 760);
    assert_eq!(g.visual_revision(), 2);
    assert!(g.river_x >= 8 && g.river_x < 24);
}

#[test]
fn generated_layout_is_deterministic_given_the_draws() {
    let g = city(16);
    assert_eq!(g.river_x, 16);
    assert_eq!(g.tile(GridPos::new(16, 4)).kind, TileKind::River);
    assert_eq!(g.tile(GridPos::new(15, 4)).kind, TileKind::Road);
    assert_eq!(g.tile(GridPos::new(4, 7)).kind, TileKind::Road);
    assert_eq!(g.tile(GridPos::new(5, 5)).kind, TileKind::Building);
    assert_eq!(g.coverage.total_demand, 493);
    assert_eq!(g.coverage.powered, 0);
    assert_eq!(g.coverage.watered, 1);
    let mut rolls = vec![0; GRID_TILES];
    rolls[5 * 32 + 5] = 50;
    rolls[5 * 32 + 6] = 60;
    rolls[5 * 32 + 7] = 67;
    rolls[5 * 32 + 8] = 99;
    let mut h = GameState::new();
    h.regenerate_with(12, &vec![1; GRID_TILES], &rolls);
    assert_eq!(h.tile(GridPos::new(5, 5)).kind, TileKind::Industrial);
    assert_eq!(h.tile(GridPos::new(6, 5)).kind, TileKind::Park);
    assert_eq!(h.tile(GridPos::new(7, 5)).kind, TileKind::Utility);
    assert_eq!(h.tile(GridPos::new(8, 5)).kind, TileKind::Empty);
    // Every fourth row the river is shifted by that row's draw.
    assert_eq!(h.tile(GridPos::new(13, 8)).kind, TileKind::River);
    assert_eq!(h.tile(GridPos::new(12, 9)).kind, TileKind::River);
}

#[test]
fn inspect_click_only_selects() {
    let mut g = city(16);
    let log_len = g.log.len();
    g.handle_click(GridPos::new(5, 5));
    assert_eq!(g.selected_tile, Some(GridPos::new(5, 5)));
    assert_eq!(g.log.len(), log_len);
    assert!(g.assets.is_empty());
    assert_eq!(g.budget, 760);
    assert_eq!(g.visual_revision(), 2);
}

#[test]
fn click_off_the_map_is_ignored() {
    let mut g = city(16);
    g.selected_tool = Tool::Substation;
    g.handle_click(GridPos::new(-1, 3));
    g.handle_click(GridPos::new(GRID_W, 3));
    assert_eq!(g.selected_tile, None);
    assert_eq!(g.budget, 760);
    assert_eq!(g.log.len(), 2);
}

#[test]
fn building_a_substation() {
    let mut g = city(16);
    g.selected_tool = Tool::Substation;
    g.handle_click(GridPos::new(4, 5));
    assert_eq!(g.assets.len(), 1);
    let a = &g.assets[0];
    assert_eq!(a.kind, AssetKind::Substation);
    assert!(a.compliant);
    assert_eq!(a.zone, ZoneKind::Municipal);
    assert_eq!(a.note, "Substation installed. Local feeder coverage improves.");
    assert_eq!(g.tile(GridPos::new(4, 5)).asset, Some(0));
    assert_eq!(g.budget, 650);
    assert_eq!(g.ops_budget, 158);
    assert_eq!(g.research_points, 1);
    assert_eq!(g.score.engineering, 62);
    assert_eq!(g.score.smartness, 21);
    assert_eq!(g.coverage.powered, 41);
    assert_eq!(g.coverage.total_demand, 493);
    assert!(g.powered_at(GridPos::new(4, 10)));
    assert!(!g.powered_at(GridPos::new(4, 11)));
    assert_eq!(g.visual_revision(), 3);
    assert_eq!(
        last_log(&g),
        "Built Substation at (4, 5). Substation installed. Local feeder coverage improves."
    );
}

#[test]
fn second_click_on_an_occupied_tile_never_builds() {
    let mut g = city(16);
    g.selected_tool = Tool::Substation;
    g.handle_click(GridPos::new(4, 5));
    g.selected_tool = Tool::Gateway;
    g.handle_click(GridPos::new(4, 5));
    assert_eq!(g.assets.len(), 1);
    assert_eq!(g.budget, 650);
    assert_eq!(last_log(&g), "Tile already occupied by an asset.");
}

#[test]
fn refused_purchase_costs_trust() {
    let mut g = city(16);
    g.selected_tool = Tool::Substation;
    g.budget = 50;
    g.handle_click(GridPos::new(4, 5));
    assert!(g.assets.is_empty());
    assert_eq!(g.score.citizen_trust, 55);
    assert_eq!(last_log(&g), "Budget denied. Need 110, have 50.");
    // The refusal is not clamped: trust can fall below zero.
    g.score.citizen_trust = 0;
    g.handle_click(GridPos::new(4, 5));
    assert_eq!(g.score.citizen_trust, -1);
}

#[test]
fn rejected_placement_costs_engineering() {
    let mut g = city(16);
    g.selected_tool = Tool::Substation;
    g.handle_click(GridPos::new(5, 5));
    assert!(g.assets.is_empty());
    assert_eq!(g.score.engineering, 57);
    assert_eq!(
        last_log(&g),
        "Placement rejected: Substation needs utility or road-adjacent serviceable ground."
    );
    g.selected_tool = Tool::Bridge;
    g.handle_click(GridPos::new(5, 5));
    assert_eq!(last_log(&g), "Placement rejected: Bridge must be placed on a river tile.");
    g.handle_click(GridPos::new(16, 5));
    assert_eq!(
        last_log(&g),
        "Placement rejected: Bridge requires road approaches on both banks."
    );
}

#[test]
fn building_a_bridge_across_the_river() {
    let mut g = city(16);
    g.selected_tool = Tool::Bridge;
    assert_eq!(g.cost_for(Tool::Bridge), 120);
    let (allowed, compliant, note, zone) = g.validate_placement(Tool::Bridge, GridPos::new(16, 4));
    assert!(allowed && compliant);
    assert_eq!(zone, ZoneKind::Municipal);
    assert_eq!(note, "Standard bridge approved. Boring, serviceable, and therefore respectable.");
    g.handle_click(GridPos::new(16, 4));
    assert_eq!(g.budget, 640);
    assert_eq!(g.score.smartness, 23);
    assert_eq!(g.score.engineering, 63);
    assert_eq!(g.score.citizen_trust, 60);
    assert_eq!(g.assets[0].bridge_profile, Some(BridgeProfile::Standard));
    assert_eq!(g.assets[0].logic_profile, None);
    assert_eq!(g.bridge_count(), 1);
    g.cycle_bridge_profile();
    assert_eq!(g.cost_for(Tool::Bridge), 170);
    assert_eq!(last_log(&g), "Bridge profile set to Heavy.");
}

#[test]
fn plc_without_gateway_is_noncompliant() {
    let mut g = GameState::new();
    let mut rolls = vec![0; GRID_TILES];
    rolls[6 * 32 + 6] = 50;
    g.regenerate_with(16, &vec![0; GRID_TILES], &rolls);
    g.selected_tool = Tool::Plc;
    g.handle_click(GridPos::new(6, 6));
    assert_eq!(g.assets.len(), 1);
    assert!(!g.assets[0].compliant);
    assert_eq!(g.assets[0].logic_profile, Some(LogicProfile::Manual));
    assert_eq!(g.assets[0].zone, ZoneKind::OT);
    assert_eq!(g.score.ot_security, 33);
    assert_eq!(g.ops_budget, 156);
    assert_eq!(g.count_noncompliant(AssetKind::Plc), 1);
    assert_eq!(g.plc_count(), 1);
}

#[test]
fn research_unlocks_after_three_points() {
    let mut g = city(16);
    g.spend_research();
    assert_eq!(last_log(&g), "Need 3 research points to unlock advanced controls. Have 0.");
    g.selected_tool = Tool::Substation;
    for y in 5..8 {
        g.handle_click(GridPos::new(4, y));
    }
    assert_eq!(g.research_points, 3);
    assert_eq!(g.score.smartness, 27);
    g.spend_research();
    assert!(g.advanced_unlocked);
    assert_eq!(g.research_points, 0);
    assert_eq!(g.score.smartness, 31);
    assert_eq!(
        last_log(&g),
        "Advanced controls unlocked. Responsive PLC mode is now permitted to cause sophisticated trouble."
    );
    g.spend_research();
    assert_eq!(
        last_log(&g),
        "Advanced controls already unlocked. Humans do enjoy buying the same thing twice."
    );
    assert_eq!(g.score.smartness, 31);
}

#[test]
fn logic_profile_cycles() {
    let mut g = city(16);
    g.cycle_logic_profile();
    assert_eq!(g.logic_profile, LogicProfile::Timed);
    assert_eq!(last_log(&g), "PLC logic profile set to Timed.");
    g.cycle_logic_profile();
    g.cycle_logic_profile();
    assert_eq!(g.logic_profile, LogicProfile::Manual);
}

#[test]
fn daily_review_of_an_unserved_city() {
    let mut g = city(16);
    for _ in 0..23 {
        g.advance_hour();
    }
    assert_eq!(g.clock_label(), "Day 01 23:00");
    assert!(g.incidents.is_empty());
    g.advance_hour();
    assert_eq!(g.current_day(), 2);
    assert_eq!(g.hour_of_day(), 0);
    assert_eq!(g.clock_label(), "Day 02 00:00");
    assert_eq!(g.incidents.len(), 2);
    assert_eq!(g.incidents[0].kind, IncidentKind::Brownout);
    assert_eq!(g.incidents[1].kind, IncidentKind::LowPressure);
    assert_eq!(g.incidents[0].ttl, 24);
    assert_eq!(g.score.smartness, 17);
    assert_eq!(g.score.engineering, 56);
    assert_eq!(g.score.ot_security, 42);
    assert_eq!(g.score.citizen_trust, 51);
    assert_eq!(g.ops_budget, 160);
    assert_eq!(
        g.log[2],
        "Incident: Brownout risk rising. Too much demand, not enough feeder coverage."
    );
    assert_eq!(
        g.log[3],
        "Incident: Water pressure complaints increasing. The city remains unconvinced by dry taps."
    );
    g.advance_hour();
    assert_eq!(g.incidents[0].ttl, 23);
    for _ in 0..23 {
        g.advance_hour();
    }
    // The incidents ran out at the end of the day and the review raised them anew.
    assert_eq!(g.clock_label(), "Day 03 00:00");
    assert_eq!(g.incidents.len(), 2);
    assert_eq!(g.incidents[0].ttl, 24);
}

#[test]
fn incidents_expire_after_a_day() {
    let mut g = city(16);
    g.trigger_incident(IncidentKind::OtIntrusion, "Test intrusion.");
    for _ in 0..23 {
        g.advance_hour();
    }
    assert_eq!(g.incidents.len(), 1);
    assert_eq!(g.incidents[0].ttl, 1);
    g.advance_hour();
    assert!(g.incidents.iter().all(|i| i.kind != IncidentKind::OtIntrusion));
}

#[test]
fn incidents_are_raised_once_per_kind() {
    let mut g = city(16);
    g.trigger_incident(IncidentKind::OtIntrusion, "Test intrusion.");
    g.trigger_incident(IncidentKind::OtIntrusion, "Another intrusion.");
    assert_eq!(g.incidents.len(), 1);
    assert_eq!(g.incidents[0].note, "Test intrusion.");
    assert_eq!(last_log(&g), "Incident: Test intrusion.");
}

#[test]
fn log_keeps_the_newest_lines() {
    let mut g = city(16);
    for i in 0..20 {
        g.push_log(format!("line {}", i));
    }
    assert_eq!(g.log.len(), LOG_CAPACITY);
    assert_eq!(g.log[0], "line 8");
    assert_eq!(last_log(&g), "line 19");
}

#[test]
fn ratings_are_clamped() {
    assert_eq!(clamp_0_100(-5), 0);
    assert_eq!(clamp_0_100(140), 100);
    assert_eq!(clamp_0_100(55), 55);
    let mut g = city(16);
    g.score.smartness = 250;
    g.clamp_scores();
    assert_eq!(g.score.smartness, 100);
}

#[test]
fn distances_and_counts() {
    assert_eq!(manhattan(GridPos::new(1, 2), GridPos::new(4, -2)), 7);
    let g = city(16);
    // Column 16 is river on all twenty rows; at most 2*3+1 rows fall within radius 3.
    assert_eq!(g.count_nearby_kind(GridPos::new(16, 10), TileKind::River, 3), 7);
    assert_eq!(g.count_nearby_kind(GridPos::new(0, 0), TileKind::ControlCenter, 2), 1);
    assert!(!g.nearby_asset_kind(GridPos::new(4, 5), AssetKind::Gateway, 4));
}

#[test]
fn random_cities_vary() {
    // The draws come from the thread's generator: over twenty cities the
    // river column moves, and every city has lots of several kinds.
    let mut columns = std::collections::BTreeSet::new();
    for _ in 0..20 {
        let g = GameState::new();
        columns.insert(g.river_x);
        let mut kinds = std::collections::BTreeSet::new();
        for t in g.grid.iter() {
            kinds.insert(format!("{:?}", t.kind));
        }
        assert!(kinds.contains("Building"));
        assert!(kinds.len() >= 5);
    }
    assert!(columns.len() > 1);
    assert!(columns.iter().all(|&x| (8..24).contains(&x)));
}

#[test]
fn each_placement_refusal() {
    let mut g = city(16);
    let cases = [
        (Tool::Sensor, GridPos::new(4, 5), "Sensor nodes belong on buildings, industry, or utility sites."),
        (Tool::Plc, GridPos::new(5, 5), "PLC cabinets can only be deployed at industrial or utility sites."),
        (Tool::Gateway, GridPos::new(5, 5), "Gateway should be placed on road-accessible or control-center tiles."),
        (Tool::PumpStation, GridPos::new(5, 5), "Pump station needs utility ground, road access, or river adjacency."),
    ];
    for (tool, p, note) in cases {
        let (allowed, compliant, text, _) = g.validate_placement(tool, p);
        assert!(!allowed && !compliant);
        assert_eq!(text, note);
    }
    g.selected_tool = Tool::Gateway;
    g.handle_click(GridPos::new(5, 5));
    assert_eq!(g.score.engineering, 57);
    let mut edge = GameState::new();
    edge.regenerate_with(0, &vec![0; GRID_TILES], &vec![0; GRID_TILES]);
    let (allowed, _, text, _) = edge.validate_placement(Tool::Bridge, GridPos::new(0, 4));
    assert!(!allowed);
    assert_eq!(text, "Bridge alignment invalid at map edge.");
}

#[test]
fn placements_that_succeed() {
    let g = city(16);
    let (allowed, compliant, text, zone) = g.validate_placement(Tool::Gateway, GridPos::new(4, 5));
    assert!(allowed && compliant);
    assert_eq!(zone, ZoneKind::Corporate);
    assert_eq!(text, "Gateway installed. Segmentation boundary improved.");
    let (allowed, compliant, text, zone) = g.validate_placement(Tool::PumpStation, GridPos::new(15, 5));
    assert!(allowed && compliant);
    assert_eq!(zone, ZoneKind::OT);
    assert_eq!(text, "Pump station installed with viable hydraulic context.");
    let (allowed, compliant, text, _) = g.validate_placement(Tool::Sensor, GridPos::new(5, 5));
    assert!(allowed && compliant);
    assert_eq!(text, "Telemetry node deployed, but upstream segmentation is weak. Naturally.");
}

#[test]
fn clicks_work_whatever_the_clock_says() {
    let mut g = city(16);
    g.elapsed_hours = u32::MAX;
    g.research_points = 1_500_000_000;
    g.ops_budget = -1_500_000_000;
    assert!(!g.fits_hour());
    g.selected_tool = Tool::Substation;
    assert!(g.fits_click(GridPos::new(4, 5)));
    g.handle_click(GridPos::new(4, 5));
    assert_eq!(g.assets.len(), 1);
    assert_eq!(g.research_points, 1_500_000_001);
    assert_eq!(g.ops_budget, -1_500_000_002);
    assert_eq!(g.elapsed_hours, u32::MAX);
}

#[test]
fn click_limits_name_only_the_values_the_click_moves() {
    let mut g = city(16);
    g.selected_tool = Tool::Substation;
    // Off the map, inspecting, occupied or rejected: nothing unclamped moves.
    g.score.citizen_trust = i32::MIN;
    g.ops_budget = i32::MIN;
    g.research_points = i32::MAX;
    assert!(g.fits_click(GridPos::new(-1, 0)));
    assert!(g.fits_click(GridPos::new(5, 5)));
    // A build here would charge upkeep below the `i32` floor.
    assert!(!g.fits_click(GridPos::new(4, 5)));
    g.ops_budget = 0;
    assert!(!g.fits_click(GridPos::new(4, 5)));
    g.research_points = 0;
    assert!(g.fits_click(GridPos::new(4, 5)));
    // A refusal for want of budget takes a point of trust.
    g.budget = 10;
    assert!(!g.fits_click(GridPos::new(4, 5)));
    g.score.citizen_trust = 0;
    assert!(g.fits_click(GridPos::new(4, 5)));
    g.handle_click(GridPos::new(4, 5));
    assert_eq!(g.score.citizen_trust, -1);
}

#[test]
fn hour_limits_apply_at_the_end_of_a_day() {
    let mut g = city(16);
    g.selected_tool = Tool::Substation;
    g.handle_click(GridPos::new(4, 5));
    g.ops_budget = i32::MIN;
    // Mid-day hours charge no upkeep.
    assert!(g.fits_hour());
    g.elapsed_hours = 23;
    assert!(!g.fits_hour());
    g.ops_budget = i32::MIN + 1;
    assert!(g.fits_hour());
    g.advance_hour();
    assert_eq!(g.ops_budget, i32::MIN);
}

#[test]
fn ratings_far_out_of_range_settle_into_range() {
    let mut g = city(16);
    g.score.smartness = i32::MAX;
    g.score.engineering = i32::MIN;
    g.selected_tool = Tool::Substation;
    g.handle_click(GridPos::new(5, 5));
    // The refusal clamps every rating, not just the one it lowers.
    assert_eq!(g.score.engineering, 0);
    assert_eq!(g.score.smartness, 100);
    g.score.smartness = i32::MAX - 1;
    g.handle_click(GridPos::new(4, 5));
    assert_eq!(g.score.smartness, 100);
    assert_eq!(g.score.engineering, 4);
}
