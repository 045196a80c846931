use smartcity_forge::model::{
    AssetKind, BridgeProfile, CityScore, Coverage, LogicProfile, Tile, TileKind, Tool, ZoneKind,
};
use smartcity_forge::settings::{
    flag_enabled, on_off, ActiveRenderTier, GraphicsPreset, GraphicsSettings, MeshDetail,
    PropDensity, RenderCapability, RenderTierChoice, SettingsMenuRow, SettingsMenuState,
    UiScalePreset,
};

fn gpu() -> RenderCapability {
    RenderCapability { software_fallback: false }
}

fn software() -> RenderCapability {
    RenderCapability { software_fallback: true }
}

#[test]
fn tool_labels_and_kinds() {
    assert_eq!(Tool::Inspect.label(), "Inspect");
    assert_eq!(Tool::PumpStation.label(), "Pump");
    assert_eq!(Tool::Plc.label(), "PLC");
    assert_eq!(Tool::Inspect.asset_kind(), None);
    assert_eq!(Tool::Bridge.asset_kind(), Some(AssetKind::Bridge));
    assert_eq!(Tool::PumpStation.asset_kind(), Some(AssetKind::PumpStation));
}

#[test]
fn debug_names_match_variants() {
    assert_eq!(AssetKind::PumpStation.debug_name(), "PumpStation");
    assert_eq!(TileKind::ControlCenter.debug_name(), "ControlCenter");
    assert_eq!(ZoneKind::OT.debug_name(), "OT");
    assert_eq!(format!("{:?}", TileKind::River), TileKind::River.debug_name());
}

#[test]
fn profiles_cycle_in_three_steps() {
    assert_eq!(BridgeProfile::Standard.next(), BridgeProfile::Heavy);
    assert_eq!(BridgeProfile::Heavy.next(), BridgeProfile::Cheap);
    assert_eq!(BridgeProfile::Cheap.next(), BridgeProfile::Standard);
    assert_eq!(LogicProfile::Manual.next().next().next(), LogicProfile::Manual);
    assert_eq!(BridgeProfile::Heavy.label(), "Heavy");
    assert_eq!(LogicProfile::Responsive.label(), "Responsive");
}

#[test]
fn constructors_of_plain_values() {
    let t = Tile::empty();
    assert_eq!(t.kind, TileKind::Empty);
    assert!(t.asset.is_none());
    let s = CityScore::baseline();
    assert_eq!((s.smartness, s.engineering, s.ot_security, s.citizen_trust), (18, 58, 42, 56));
    let c = Coverage::empty();
    assert_eq!((c.powered, c.watered, c.total_demand), (0, 0, 0));
}

#[test]
fn env_flags() {
    for v in ["1", "true", "TRUE", "yes", "YES"] {
        assert!(flag_enabled(Some(v)));
    }
    for v in ["0", "True", "on", "", " 1"] {
        assert!(!flag_enabled(Some(v)));
    }
    assert!(!flag_enabled(None));
    assert!(RenderCapability::from_env_values(None, Some("yes")).software_fallback);
    assert!(RenderCapability::from_env_values(Some("1"), None).software_fallback);
    assert!(!RenderCapability::from_env_values(Some("no"), None).software_fallback);
    assert_eq!(software().label(), "Software Fallback");
    assert_eq!(gpu().label(), "GPU Native");
}

#[test]
fn default_settings_per_machine() {
    let g = GraphicsSettings::default_for(gpu());
    assert_eq!(g.preset, GraphicsPreset::Balanced);
    assert_eq!(g.render_tier, RenderTierChoice::Auto);
    assert_eq!(g.mesh_detail, MeshDetail::Medium);
    assert!(g.show_telemetry);
    let s = GraphicsSettings::default_for(software());
    assert_eq!(s.preset, GraphicsPreset::Low);
    assert_eq!(s.render_tier, RenderTierChoice::ShippingLow);
    assert_eq!(s.prop_density, PropDensity::Low);
    assert!(s.show_telemetry);
    assert_eq!(s.ui_scale, UiScalePreset::Normal);
}

#[test]
fn render_tier_on_each_machine() {
    let mut g = GraphicsSettings::default_for(gpu());
    assert_eq!(g.active_render_tier(gpu()), ActiveRenderTier::Full3d);
    assert_eq!(g.active_render_tier(software()), ActiveRenderTier::FallbackDebug);
    g.apply_preset(GraphicsPreset::High);
    assert_eq!(g.effective_mesh_detail(gpu()), MeshDetail::High);
    assert_eq!(g.effective_mesh_detail(software()), MeshDetail::Low);
    assert_eq!(g.effective_prop_density(software()), PropDensity::Low);
    g.render_tier = RenderTierChoice::ShippingLow;
    assert_eq!(g.effective_mesh_detail(gpu()), MeshDetail::Medium);
    assert_eq!(g.effective_prop_density(gpu()), PropDensity::Medium);
    assert!(ActiveRenderTier::Full3d.uses_mesh_renderer());
    assert!(!ActiveRenderTier::FallbackDebug.uses_mesh_renderer());
}

#[test]
fn presets_set_every_field() {
    let mut g = GraphicsSettings::default_for(gpu());
    g.apply_preset(GraphicsPreset::High);
    assert_eq!(g.render_tier, RenderTierChoice::Full3d);
    assert_eq!(g.prop_density, PropDensity::High);
    assert_eq!(g.ui_scale, UiScalePreset::Large);
    let before = g;
    g.apply_preset(GraphicsPreset::Custom);
    assert_eq!(g, before);
    g.mark_custom();
    assert_eq!(g.preset, GraphicsPreset::Custom);
}

#[test]
fn steps_of_each_setting() {
    assert_eq!(RenderTierChoice::Full3d.next(), RenderTierChoice::Auto);
    assert_eq!(RenderTierChoice::Auto.prev(), RenderTierChoice::Full3d);
    assert_eq!(MeshDetail::High.next(), MeshDetail::Low);
    assert_eq!(PropDensity::Off.prev(), PropDensity::High);
    assert_eq!(UiScalePreset::Large.next(), UiScalePreset::Compact);
    assert_eq!(GraphicsPreset::Custom.next_selectable(), GraphicsPreset::Low);
    assert_eq!(GraphicsPreset::Low.prev_selectable(), GraphicsPreset::High);
    for t in [
        RenderTierChoice::Auto,
        RenderTierChoice::FallbackDebug,
        RenderTierChoice::ShippingLow,
        RenderTierChoice::Full3d,
    ] {
        assert_eq!(t.next().prev(), t);
    }
}

#[test]
fn adjust_forward_then_back_marks_custom() {
    let start = GraphicsSettings::default_for(gpu());
    for row in SettingsMenuRow::ALL {
        if row == SettingsMenuRow::Preset {
            continue;
        }
        let mut g = start;
        g.adjust(row, 1);
        assert_eq!(g.preset, GraphicsPreset::Custom);
        g.adjust(row, -1);
        let mut expected = start;
        expected.preset = GraphicsPreset::Custom;
        assert_eq!(g, expected);
    }
}

#[test]
fn adjust_preset_row_walks_the_presets() {
    let mut g = GraphicsSettings::default_for(gpu());
    g.adjust(SettingsMenuRow::Preset, 1);
    assert_eq!(g.preset, GraphicsPreset::High);
    g.adjust(SettingsMenuRow::Preset, 0);
    assert_eq!(g.preset, GraphicsPreset::Low);
    g.adjust(SettingsMenuRow::Preset, -5);
    assert_eq!(g.preset, GraphicsPreset::High);
    assert_eq!(g.ui_scale, UiScalePreset::Large);
}

#[test]
fn row_values() {
    let g = GraphicsSettings::default_for(gpu());
    assert_eq!(g.row_value_label(SettingsMenuRow::Renderer, gpu()), "Auto -> Full 3D");
    assert_eq!(
        g.row_value_label(SettingsMenuRow::Renderer, software()),
        "Auto -> Fallback Debug"
    );
    assert_eq!(g.row_value_label(SettingsMenuRow::Ground, gpu()), "On");
    assert_eq!(g.row_value_label(SettingsMenuRow::MeshDetail, software()), "Low");
    assert_eq!(g.row_value_label(SettingsMenuRow::UiScale, gpu()), "Normal");
    assert_eq!(on_off(false), "Off");
    assert_eq!(SettingsMenuRow::MeshDetail.label(), "Geometry");
}

#[test]
fn settings_selection_wraps() {
    let mut m = SettingsMenuState::default();
    assert!(!m.open);
    assert_eq!(m.selected_row(), SettingsMenuRow::Preset);
    m.move_selection(-1);
    assert_eq!(m.selected_row, 7);
    assert_eq!(m.selected_row(), SettingsMenuRow::UiScale);
    m.move_selection(1);
    assert_eq!(m.selected_row, 0);
    m.move_selection(19);
    assert_eq!(m.selected_row, 3);
    m.move_selection(-20);
    assert_eq!(m.selected_row, 7);
}
