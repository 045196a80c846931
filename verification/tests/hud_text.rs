use smartcity_forge::catalog::{
    log_catalog_load, scene_counts, scene_source_path, AssetCatalog, AssetCatalogEntry,
    AssetCatalogStats, CatalogFamily, CatalogLoad, FallbackRule, HeightClass, PropAnchor,
};
use smartcity_forge::game::GameState;
use smartcity_forge::grid::{GridPos, GRID_TILES};
use smartcity_forge::hud::{
    action_button_border, action_button_fill, action_button_label, event_badge_label,
    event_modal_panel, event_modal_text, event_strip_status_text, hud_panel_text,
    incident_action_copy, incident_badge_label, incident_title, markers_shown,
    minimap_legend_text, minimap_tile_shade, settings_panel_text, sidebar_help_text,
    speed_chip_text, top_bar_metrics_text, yes_no, ActionTone, MinimapShade,
};
use smartcity_forge::model::{IncidentKind, TileKind, Tool};
use smartcity_forge::settings::{GraphicsSettings, RenderCapability, SettingsMenuState};
use smartcity_forge::text::{concat_str, decimal_string, push_decimal_two, push_int, str_equal};
use smartcity_forge::ui::{ActionRailAction, EventModalState, MinimapMode, SceneSyncState, TimeControl};
use smartcity_forge::wrap::{char_is_space, join_lines, wrap_text};

fn gpu() -> RenderCapability {
    RenderCapability { software_fallback: false }
}

fn software() -> RenderCapability {
    RenderCapability { software_fallback: true }
}

fn city(band: i32) -> GameState {
    let mut g = GameState::new();
    g.regenerate_with(band, &vec![0; GRID_TILES], &vec![0; GRID_TILES]);
    g
}

fn entry(id: &str, family: CatalogFamily, anchors: usize, scene: Option<&str>) -> AssetCatalogEntry {
    AssetCatalogEntry {
        id: id.to_string(),
        family,
        zone_class: None,
        tags: vec![],
        height_class: HeightClass::LowRise,
        low_quality_fallback: FallbackRule { mesh: "box_lq".to_string(), material: "flat".to_string() },
        prop_anchors: (0..anchors).map(|i| PropAnchor { name: format!("a{}", i) }).collect(),
        material_variants: vec![],
        scene: scene.map(|s| s.to_string()),
    }
}

#[test]
fn wrap_text_examples() {
    assert_eq!(
        wrap_text(
            "Phase 2 objective: raise smartness to 70+ while keeping engineering, OT security, and trust above 45.",
            26
        ),
        vec![
            "Phase 2 objective: raise",
            "smartness to 70+ while",
            "keeping engineering, OT",
            "security, and trust above",
            "45."
        ]
    );
    assert_eq!(
        wrap_text("SMARTCITY_FORCE_SOFTWARE_RENDERER=1 cargo run", 26),
        vec!["SMARTCITY_FORCE_SOFTWARE_R", "ENDERER=1", "cargo run"]
    );
    assert_eq!(
        wrap_text("  a  bb\tccc\n dddddddd e", 3),
        vec!["a", "bb", "ccc", "ddd", "ddd", "dd", "e"]
    );
    assert!(wrap_text("", 10).is_empty());
    assert!(wrap_text(" \u{3000}\u{2028} ", 10).is_empty());
    assert_eq!(wrap_text("abc de", 0), vec!["", "a", "b", "c", "", "d", "e"]);
    assert_eq!(wrap_text("héllo wörld", 5), vec!["héllo", "wörld"]);
    for line in wrap_text("a bb ccc dddd eeeee ffffff g", 4) {
        assert!(!line.is_empty() && line.chars().count() <= 4);
    }
}

#[test]
fn whitespace_classes() {
    for c in [' ', '\t', '\n', '\r', '\u{b}', '\u{c}', '\u{85}', '\u{a0}', '\u{2003}', '\u{3000}'] {
        assert!(char_is_space(c));
        assert!(c.is_whitespace());
    }
    for c in ['a', '_', '\u{200b}', '\u{0}'] {
        assert!(!char_is_space(c));
        assert!(!c.is_whitespace());
    }
}

#[test]
fn text_helpers() {
    assert_eq!(decimal_string(0), "0");
    assert_eq!(decimal_string(4096), "4096");
    let mut s = String::new();
    push_int(&mut s, -42);
    push_decimal_two(&mut s, 7);
    assert_eq!(s, "-4207");
    assert_eq!(concat_str("ab", "cd"), "abcd");
    assert!(str_equal("yes", "yes"));
    assert!(!str_equal("yes", "Yes"));
    assert_eq!(join_lines(&vec!["a".to_string(), String::new(), "b".to_string()]), "a\n\nb");
}

#[test]
fn incident_copy() {
    assert_eq!(incident_badge_label(IncidentKind::LowPressure), "H2O");
    assert_eq!(incident_title(IncidentKind::OtIntrusion), "OT Intrusion Risk");
    assert_eq!(
        incident_action_copy(IncidentKind::Brownout),
        "Expand substation coverage and reduce unsupported electrical demand."
    );
    assert_eq!(yes_no(true), "yes");
}

#[test]
fn action_buttons() {
    let mut g = city(16);
    assert_eq!(action_button_label(ActionRailAction::Tool(Tool::PumpStation), &g, false), "Pump [6]");
    assert_eq!(action_button_label(ActionRailAction::Tool(Tool::PumpStation), &g, true), "PU");
    assert_eq!(
        action_button_label(ActionRailAction::CycleBridgeProfile, &g, false),
        "Bridge mode: Standard [B]"
    );
    assert_eq!(
        action_button_label(ActionRailAction::SpendResearch, &g, false),
        "Unlock advanced (0/3)"
    );
    assert_eq!(action_button_fill(ActionRailAction::Tool(Tool::Inspect), &g), ActionTone::Selected);
    assert_eq!(action_button_fill(ActionRailAction::Regenerate, &g), ActionTone::Reset);
    assert_eq!(action_button_border(ActionRailAction::Regenerate, &g), ActionTone::Neutral);
    assert_eq!(action_button_fill(ActionRailAction::SpendResearch, &g), ActionTone::Neutral);
    g.research_points = 3;
    assert_eq!(action_button_fill(ActionRailAction::SpendResearch, &g), ActionTone::ResearchReady);
    g.advanced_unlocked = true;
    assert_eq!(action_button_border(ActionRailAction::SpendResearch, &g), ActionTone::Unlocked);
    assert_eq!(
        action_button_label(ActionRailAction::SpendResearch, &g, false),
        "Advanced controls ready"
    );
}

#[test]
fn top_bar_and_event_strip() {
    let mut g = city(16);
    let settings = GraphicsSettings::default_for(gpu());
    assert_eq!(
        top_bar_metrics_text(&g, &settings, gpu(), "60"),
        "Budget $760 | Ops $160 | Power 0% | Water 0%\nScore S 18 E 58 OT 42 T 56 | Full 3D | FPS 60"
    );
    let mut quiet = settings;
    quiet.show_telemetry = false;
    g.selected_tool = Tool::Substation;
    g.handle_click(GridPos::new(4, 5));
    g.ops_budget = -3;
    assert_eq!(
        top_bar_metrics_text(&g, &quiet, software(), "60"),
        "Budget $650 | Ops $-3 | Power 8% | Water 0%\nScore S 21 E 62 OT 42 T 56 | Fallback Debug"
    );
    assert_eq!(event_strip_status_text(&g), "Events stable");
    assert_eq!(event_badge_label(&g, 0), "");
    g.trigger_incident(IncidentKind::BridgeStress, "Creaks.");
    assert_eq!(event_strip_status_text(&g), "1 active alert(s)");
    assert_eq!(event_badge_label(&g, 0), "BRG");
    assert_eq!(minimap_legend_text(MinimapMode::Risk), "MINIMAP // Risk");
    let mut t = TimeControl::default();
    t.faster();
    t.toggle_pause();
    assert_eq!(speed_chip_text(&t), "2x");
}

#[test]
fn incident_details_panel() {
    let mut g = city(16);
    g.trigger_incident(IncidentKind::Brownout, "Dim lights.");
    assert_eq!(
        event_modal_text(&g.incidents[0]),
        "Brownout Risk\nRemaining: 24h\nRecommended response: Expand substation coverage and reduce unsupported electrical demand.\n\nDim lights."
    );
    let mut modal = EventModalState { selected_incident: Some(0) };
    assert!(event_modal_panel(&g, &mut modal).is_some());
    assert_eq!(modal.selected_incident, Some(0));
    let mut stale = EventModalState { selected_incident: Some(3) };
    assert!(event_modal_panel(&g, &mut stale).is_none());
    assert!(stale.selected_incident.is_none());
    let mut closed = EventModalState::default();
    assert!(event_modal_panel(&g, &mut closed).is_none());
}

#[test]
fn hud_panel_for_a_selected_building() {
    let mut g = city(16);
    g.handle_click(GridPos::new(5, 5));
    let settings = GraphicsSettings::default_for(gpu());
    let text = hud_panel_text(&g, None, &settings, gpu(), false, "60", "16.7");
    let expected = [
        "Active tool: Inspect",
        "Bridge Standard • PLC Manual • R&D 0/3 points",
        "Services 0% power / 0% water • 0 alerts",
        "Selected (5, 5) Building",
        "Powered no • Watered no",
        "Perf 60 FPS • 16.7 ms • 0 assets",
        "Full 3D • GPU Native • Medium",
        "",
        "Latest log",
        "Phase 2 objective: raise",
        "smartness to 70+ while",
        "keeping engineering, OT",
    ]
    .join("\n");
    assert_eq!(text, expected);
}

#[test]
fn hud_panel_for_a_selected_asset_and_hover() {
    let mut g = city(16);
    g.selected_tool = Tool::Substation;
    g.handle_click(GridPos::new(4, 5));
    let settings = GraphicsSettings::default_for(gpu());
    let text = hud_panel_text(&g, Some(GridPos::new(9, 9)), &settings, gpu(), true, "60", "16.7");
    let expected = [
        "Active tool: Substation",
        "Bridge Standard • PLC Manual • R&D 1/3 points",
        "Services 8% power / 0% water • 0 alerts",
        "Selected (4, 5) Road",
        "Powered yes • Watered no",
        "Substation • compliant yes • zone Municipal",
        "Substation installed.",
        "Local feeder coverage",
        "",
        "Latest log",
        "Built Substation at (4,",
        "5). Substation installed.",
        "Local feeder coverage",
    ]
    .join("\n");
    assert_eq!(text, expected);
    let fresh = city(16);
    let hover = hud_panel_text(&fresh, Some(GridPos::new(16, 3)), &settings, gpu(), true, "", "");
    assert!(hover.contains("\nHover (16, 3) River\n"));
}

#[test]
fn settings_panel() {
    let settings = GraphicsSettings::default_for(gpu());
    let mut menu = SettingsMenuState::default();
    menu.move_selection(1);
    let expected = [
        "CONFIG // F1 OR ESC CLOSE",
        "Hardware Capability: GPU Native",
        "Active Render Tier: Full 3D",
        "",
        "  Preset     Balanced",
        "> Renderer   Auto -> Full 3D",
        "  Geometry   Medium",
        "  Props      Medium",
        "  Ground     On",
        "  Markers    On",
        "  Telemetry  On",
        "  UI Scale   Normal",
        "",
        "Up/Down select | Left/Right adjust",
        "Auto and high tiers clamp to fallback on",
        "software-only machines.",
        "Use Shipping Low to target weaker real GPUs",
        "with the mesh renderer.",
    ]
    .join("\n");
    assert_eq!(settings_panel_text(&settings, gpu(), &menu), expected);
}

#[test]
fn sidebar_help() {
    let catalog = AssetCatalog::default();
    let settings = GraphicsSettings::default_for(software());
    let text = sidebar_help_text(&catalog, &settings, software());
    let lines: Vec<&str> = text.split('\n').collect();
    assert_eq!(lines[0], "Mode: Fallback Debug");
    assert_eq!(lines[2], "Mouse");
    assert_eq!(lines[16], "1-6 tools | Esc inspect");
    assert_eq!(
        lines[18],
        "Catalog 0 defs | roads 0 | buildings 0 | props 0 | anchors 0 | 0 scene-ready | 0 fallback-only | 0 missing files"
    );
    assert_eq!(
        &lines[20..],
        &["Launch this laptop:", "SMARTCITY_FORCE_SOFTWARE_R", "ENDERER=1", "cargo run", "", "GPU desktop: cargo run"]
    );
    let gpu_text = sidebar_help_text(&catalog, &GraphicsSettings::default_for(gpu()), gpu());
    assert!(gpu_text.ends_with(
        "Launch: cargo run\n\nOld laptop fallback:\nSMARTCITY_FORCE_SOFTWARE_R\nENDERER=1\ncargo run"
    ));
}

#[test]
fn minimap_shades() {
    let mut g = city(16);
    let p = GridPos::new(5, 5);
    assert_eq!(minimap_tile_shade(MinimapMode::Real, &g, p, None), MinimapShade::Ground(TileKind::Building));
    assert_eq!(minimap_tile_shade(MinimapMode::Real, &g, p, Some(p)), MinimapShade::Hovered);
    assert_eq!(minimap_tile_shade(MinimapMode::Services, &g, p, None), MinimapShade::Unserved);
    assert_eq!(
        minimap_tile_shade(MinimapMode::Services, &g, GridPos::new(16, 5), None),
        MinimapShade::ServiceRiver
    );
    assert_eq!(
        minimap_tile_shade(MinimapMode::Water, &g, GridPos::new(2, 2), None),
        MinimapShade::Unsupplied
    );
    assert_eq!(
        minimap_tile_shade(MinimapMode::Risk, &g, GridPos::new(2, 2), None),
        MinimapShade::ControlRisk
    );
    g.selected_tool = Tool::Substation;
    g.handle_click(GridPos::new(4, 5));
    assert_eq!(minimap_tile_shade(MinimapMode::Electrical, &g, p, None), MinimapShade::Energized);
    assert_eq!(minimap_tile_shade(MinimapMode::Services, &g, p, None), MinimapShade::PowerOnly);
    assert_eq!(
        minimap_tile_shade(MinimapMode::Risk, &g, GridPos::new(4, 5), Some(GridPos::new(4, 5))),
        MinimapShade::Selected
    );
    g.selected_tile = None;
    assert_eq!(minimap_tile_shade(MinimapMode::Risk, &g, GridPos::new(4, 5), None), MinimapShade::Compliant);
    assert_eq!(minimap_tile_shade(MinimapMode::Risk, &g, p, None), MinimapShade::LowRisk);
}

#[test]
fn scene_sync_and_markers() {
    let g = city(16);
    let mut sync = SceneSyncState::default();
    assert!(sync.needs_rebuild(&g, false));
    sync.mark_rendered(&g);
    assert!(!sync.needs_rebuild(&g, false));
    assert!(sync.needs_rebuild(&g, true));
    let mut settings = GraphicsSettings::default_for(gpu());
    assert!(markers_shown(&settings, gpu()));
    assert!(!markers_shown(&settings, software()));
    settings.show_markers = false;
    assert!(!markers_shown(&settings, gpu()));
}

#[test]
fn catalog_counts_and_summary() {
    let entries = vec![
        entry("road_straight", CatalogFamily::RoadPiece, 2, Some("models/roads/road_straight.glb#Scene0")),
        entry("road_cross", CatalogFamily::RoadPiece, 0, None),
        entry("tower_glass", CatalogFamily::BuildingFamily, 3, Some("models/buildings/tower.glb")),
        entry("bench", CatalogFamily::PropFamily, 1, None),
        entry("asphalt", CatalogFamily::TerrainMaterial, 0, None),
    ];
    let stats = AssetCatalogStats::from_entries(&entries);
    assert_eq!(
        (stats.road_count, stats.building_count, stats.prop_count, stats.anchor_count),
        (2, 1, 1, 6)
    );
    assert_eq!(scene_source_path("models/roads/road_straight.glb#Scene0"), "models/roads/road_straight.glb");
    assert_eq!(scene_source_path("a#b#c"), "a");
    assert_eq!(scene_source_path("plain.glb"), "plain.glb");
    assert_eq!(scene_source_path("#x"), "");
    let found = vec![true, false, false, false, true];
    assert_eq!(scene_counts(&entries, &found), (1, 1, 3));
    let mut catalog = AssetCatalog::default();
    catalog.replace_from_manifest(1, entries, 1, 1, 3);
    assert_eq!(
        catalog.summary_line(),
        "Catalog 5 defs | roads 2 | buildings 1 | props 1 | anchors 6 | 1 scene-ready | 3 fallback-only | 1 missing files"
    );
    let mut g = city(16);
    log_catalog_load(&mut g, CatalogLoad::Loaded, &catalog);
    assert_eq!(
        g.log[g.log.len() - 1],
        "Asset pipeline ready. Catalog 5 defs | roads 2 | buildings 1 | props 1 | anchors 6 | 1 scene-ready | 3 fallback-only | 1 missing files"
    );
    log_catalog_load(&mut g, CatalogLoad::Missing, &catalog);
    assert_eq!(g.log[g.log.len() - 1], "Asset catalog missing; using hardcoded blockout visuals.");
    log_catalog_load(&mut g, CatalogLoad::ParseFailed, &catalog);
    assert_eq!(
        g.log[g.log.len() - 1],
        "Asset catalog parse failed; using hardcoded blockout visuals."
    );
}
