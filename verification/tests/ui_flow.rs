use smartcity_forge::game::GameState;
use smartcity_forge::grid::{GridPos, GRID_TILES};
use smartcity_forge::input::{
    advance_simulation, apply_ui_command, button_command, handle_keyboard_input,
    handle_mouse_clicks, handle_ui_buttons, keyboard_commands, log_camera_preset,
    update_hover_tile, KeyPresses, UiButton, UiCommand, UiState,
};
use smartcity_forge::model::{BridgeProfile, IncidentKind, Tool};
use smartcity_forge::settings::{
    GraphicsPreset, GraphicsSettings, RenderCapability, SettingsMenuRow, SettingsMenuState,
};
use smartcity_forge::ui::{
    ActionRailAction, ActionSidebarState, CameraPreset, EventModalState, HoverState, MinimapMode,
    SceneSyncState, TimeControl,
};

fn gpu() -> RenderCapability {
    RenderCapability { software_fallback: false }
}

fn city(band: i32) -> GameState {
    let mut g = GameState::new();
    g.regenerate_with(band, &vec![0; GRID_TILES], &vec![0; GRID_TILES]);
    g
}

fn session() -> UiState {
    UiState {
        game: city(16),
        time_control: TimeControl::default(),
        graphics_settings: GraphicsSettings::default_for(gpu()),
        settings_menu: SettingsMenuState::default(),
        event_modal: EventModalState::default(),
        action_sidebar: ActionSidebarState::default(),
        minimap_mode: MinimapMode::default(),
    }
}

fn last_log(ui: &UiState) -> String {
    ui.game.log[ui.game.log.len() - 1].clone()
}

#[test]
fn time_control_speeds() {
    let mut t = TimeControl::default();
    assert!(!t.paused());
    assert_eq!(t.speed_multiplier(), 1);
    assert_eq!(t.speed_label(), "1x");
    t.slower();
    assert_eq!(t.speed_multiplier(), 1);
    t.faster();
    t.faster();
    t.faster();
    assert_eq!(t.speed_multiplier(), 8);
    t.faster();
    assert_eq!(t.speed_multiplier(), 8);
    t.slower();
    assert_eq!(t.speed_multiplier(), 4);
    t.cycle_speed();
    assert_eq!(t.speed_multiplier(), 8);
    t.cycle_speed();
    assert_eq!(t.speed_multiplier(), 1);
    t.cycle_speed();
    t.toggle_pause();
    assert!(t.paused());
    assert_eq!(t.speed_label(), "Paused @ 2x");
    t.toggle_pause();
    assert_eq!(t.speed_label(), "2x");
}

#[test]
fn interface_labels() {
    assert_eq!(MinimapMode::default(), MinimapMode::Real);
    assert_eq!(MinimapMode::Services.label(), "Services Coverage");
    assert_eq!(MinimapMode::Water.short_label(), "H2O");
    assert_eq!(MinimapMode::ALL.len(), 5);
    assert_eq!(MinimapMode::ALL[4], MinimapMode::Risk);
    assert_eq!(CameraPreset::CityView.label(), "City View");
    assert_eq!(CameraPreset::default(), CameraPreset::Strategic);
    assert_eq!(ActionRailAction::tools()[0], ActionRailAction::Tool(Tool::Inspect));
    assert_eq!(ActionRailAction::SYSTEMS[3], ActionRailAction::SpendResearch);
    assert!(HoverState::default().hovered_tile.is_none());
    assert!(!ActionSidebarState::default().collapsed);
    assert!(EventModalState::default().selected_incident.is_none());
    assert_eq!(SceneSyncState::default().rendered_visual_revision, 0);
}

#[test]
fn game_keys_act_in_a_fixed_order() {
    let mut keys = KeyPresses::default();
    assert!(keyboard_commands(&keys, false, false).is_empty());
    keys.space = true;
    keys.digit3 = true;
    keys.key_r = true;
    keys.numpad_add = true;
    assert_eq!(
        keyboard_commands(&keys, false, false),
        vec![
            UiCommand::Regenerate,
            UiCommand::SelectTool(Tool::Plc),
            UiCommand::TogglePause,
            UiCommand::Faster,
        ]
    );
}

#[test]
fn panels_capture_the_keys() {
    let mut keys = KeyPresses::default();
    keys.escape = true;
    keys.digit1 = true;
    assert_eq!(keyboard_commands(&keys, true, false), vec![UiCommand::CloseEventModal]);
    assert_eq!(keyboard_commands(&keys, false, true), vec![UiCommand::CloseSettingsMenu]);
    assert_eq!(
        keyboard_commands(&keys, false, false),
        vec![UiCommand::SelectTool(Tool::Bridge), UiCommand::SelectTool(Tool::Inspect)]
    );
    let mut keys = KeyPresses::default();
    keys.key_a = true;
    keys.key_s = true;
    keys.key_b = true;
    assert_eq!(keyboard_commands(&keys, false, true), vec![UiCommand::MoveSettingsSelection(1)]);
    keys.key_s = false;
    assert_eq!(keyboard_commands(&keys, false, true), vec![UiCommand::AdjustSetting(-1)]);
    keys.f1 = true;
    assert_eq!(keyboard_commands(&keys, false, true), vec![UiCommand::ToggleSettingsMenu]);
    let mut keys = KeyPresses::default();
    keys.tab = true;
    keys.key_r = true;
    assert_eq!(keyboard_commands(&keys, false, false), vec![UiCommand::ToggleSidebar]);
}

#[test]
fn settings_panel_by_keyboard() {
    let mut ui = session();
    let mut keys = KeyPresses::default();
    keys.f1 = true;
    handle_keyboard_input(&mut ui, &keys, gpu());
    assert!(ui.settings_menu.open);
    assert_eq!(last_log(&ui), "Configuration opened. Use arrows to change graphics settings.");
    let mut keys = KeyPresses::default();
    keys.arrow_right = true;
    keys.key_r = true;
    let revision = ui.game.visual_revision();
    handle_keyboard_input(&mut ui, &keys, gpu());
    assert_eq!(ui.graphics_settings.preset, GraphicsPreset::High);
    assert_eq!(last_log(&ui), "Config Preset -> High.");
    assert_eq!(ui.game.visual_revision(), revision);
    let mut keys = KeyPresses::default();
    keys.arrow_down = true;
    handle_keyboard_input(&mut ui, &keys, gpu());
    assert_eq!(ui.settings_menu.selected_row(), SettingsMenuRow::Renderer);
    let mut keys = KeyPresses::default();
    keys.key_a = true;
    handle_keyboard_input(&mut ui, &keys, gpu());
    assert_eq!(last_log(&ui), "Config Renderer -> Shipping Low -> Shipping Low.");
    assert_eq!(ui.graphics_settings.preset, GraphicsPreset::Custom);
    let mut keys = KeyPresses::default();
    keys.escape = true;
    handle_keyboard_input(&mut ui, &keys, gpu());
    assert!(!ui.settings_menu.open);
    assert_eq!(last_log(&ui), "Configuration closed.");
    assert_eq!(ui.game.selected_tool, Tool::Inspect);
}

#[test]
fn game_keys_by_keyboard() {
    let mut ui = session();
    let mut keys = KeyPresses::default();
    keys.digit5 = true;
    keys.key_b = true;
    keys.space = true;
    keys.minus = true;
    handle_keyboard_input(&mut ui, &keys, gpu());
    assert_eq!(ui.game.selected_tool, Tool::Substation);
    assert_eq!(ui.game.bridge_profile, BridgeProfile::Heavy);
    assert!(ui.time_control.paused());
    let n = ui.game.log.len();
    assert_eq!(ui.game.log[n - 3], "Bridge profile set to Heavy.");
    assert_eq!(ui.game.log[n - 2], "Simulation paused.");
    assert_eq!(ui.game.log[n - 1], "Simulation speed set to Paused @ 1x.");
    let mut keys = KeyPresses::default();
    keys.equal = true;
    keys.space = true;
    handle_keyboard_input(&mut ui, &keys, gpu());
    assert_eq!(last_log(&ui), "Simulation speed set to 2x.");
    let mut keys = KeyPresses::default();
    keys.key_u = true;
    handle_keyboard_input(&mut ui, &keys, gpu());
    assert_eq!(last_log(&ui), "Need 3 research points to unlock advanced controls. Have 0.");
    let mut keys = KeyPresses::default();
    keys.tab = true;
    handle_keyboard_input(&mut ui, &keys, gpu());
    assert!(ui.action_sidebar.collapsed);
}

#[test]
fn escape_closes_the_incident_panel_first() {
    let mut ui = session();
    ui.game.selected_tool = Tool::Gateway;
    ui.event_modal.selected_incident = Some(0);
    let mut keys = KeyPresses::default();
    keys.escape = true;
    handle_keyboard_input(&mut ui, &keys, gpu());
    assert!(ui.event_modal.selected_incident.is_none());
    assert_eq!(ui.game.selected_tool, Tool::Gateway);
    handle_keyboard_input(&mut ui, &keys, gpu());
    assert_eq!(ui.game.selected_tool, Tool::Inspect);
}

#[test]
fn hud_buttons() {
    let mut ui = session();
    assert_eq!(button_command(UiButton::Clock), UiCommand::TogglePause);
    handle_ui_buttons(
        &mut ui,
        &vec![
            UiButton::Speed,
            UiButton::Minimap(MinimapMode::Water),
            UiButton::EventIcon(0),
            UiButton::Action(ActionRailAction::Tool(Tool::Sensor)),
            UiButton::SidebarToggle,
        ],
        gpu(),
    );
    assert_eq!(ui.time_control.speed_multiplier(), 2);
    assert_eq!(last_log(&ui), "Simulation speed set to 2x.");
    assert_eq!(ui.minimap_mode, MinimapMode::Water);
    assert!(ui.event_modal.selected_incident.is_none());
    assert_eq!(ui.game.selected_tool, Tool::Sensor);
    assert!(ui.action_sidebar.collapsed);
    ui.game.trigger_incident(IncidentKind::Brownout, "Dim lights.");
    handle_ui_buttons(&mut ui, &vec![UiButton::EventIcon(0), UiButton::Clock], gpu());
    assert_eq!(ui.event_modal.selected_incident, Some(0));
    assert!(ui.time_control.paused());
    assert_eq!(last_log(&ui), "Simulation paused.");
    handle_ui_buttons(
        &mut ui,
        &vec![
            UiButton::CloseEventModal,
            UiButton::Action(ActionRailAction::CycleLogicProfile),
        ],
        gpu(),
    );
    assert!(ui.event_modal.selected_incident.is_none());
    assert_eq!(last_log(&ui), "PLC logic profile set to Timed.");
}

#[test]
fn regenerate_command_resets_the_city() {
    let mut ui = session();
    ui.game.budget = 10;
    apply_ui_command(&mut ui, UiCommand::Regenerate, gpu());
    assert_eq!(ui.game.budget, 760);
    assert_eq!(ui.game.log.len(), 2);
    assert!(ui.game.river_x >= 8 && ui.game.river_x < 24);
}

#[test]
fn selection_moves_wrap_and_invert() {
    let mut ui = session();
    apply_ui_command(&mut ui, UiCommand::MoveSettingsSelection(-1), gpu());
    assert_eq!(ui.settings_menu.selected_row, 7);
    apply_ui_command(&mut ui, UiCommand::MoveSettingsSelection(1), gpu());
    assert_eq!(ui.settings_menu.selected_row, 0);
    apply_ui_command(&mut ui, UiCommand::MoveSettingsSelection(i32::MIN), gpu());
    assert_eq!(ui.settings_menu.selected_row, 0);
    apply_ui_command(&mut ui, UiCommand::MoveSettingsSelection(i32::MAX), gpu());
    assert_eq!(ui.settings_menu.selected_row, 7);
}

#[test]
fn camera_preset_is_logged() {
    let mut g = city(16);
    log_camera_preset(&mut g, CameraPreset::Cinematic);
    assert_eq!(g.log[g.log.len() - 1], "Camera preset set to Cinematic.");
}

#[test]
fn hover_follows_the_cursor_unless_a_panel_is_open() {
    let mut ui = session();
    let mut hover = HoverState::default();
    let tile = Some(GridPos::new(3, 3));
    update_hover_tile(&mut hover, &ui, false, tile);
    assert_eq!(hover.hovered_tile, tile);
    update_hover_tile(&mut hover, &ui, true, tile);
    assert_eq!(hover.hovered_tile, None);
    ui.settings_menu.open = true;
    update_hover_tile(&mut hover, &ui, false, tile);
    assert_eq!(hover.hovered_tile, None);
}

#[test]
fn mouse_clicks_reach_the_map_only_when_free() {
    let mut ui = session();
    ui.game.selected_tool = Tool::Substation;
    let tile = Some(GridPos::new(4, 5));
    handle_mouse_clicks(&mut ui, false, false, tile);
    assert!(ui.game.assets.is_empty());
    handle_mouse_clicks(&mut ui, true, true, tile);
    assert!(ui.game.assets.is_empty());
    ui.event_modal.selected_incident = Some(0);
    handle_mouse_clicks(&mut ui, true, false, tile);
    assert!(ui.game.assets.is_empty());
    ui.event_modal.selected_incident = None;
    handle_mouse_clicks(&mut ui, true, false, None);
    assert!(ui.game.assets.is_empty());
    handle_mouse_clicks(&mut ui, true, false, tile);
    assert_eq!(ui.game.assets.len(), 1);
    assert_eq!(ui.game.selected_tile, tile);
}

#[test]
fn simulation_runs_only_while_the_clock_runs() {
    let mut ui = session();
    assert_eq!(advance_simulation(&mut ui, 5), 5);
    assert_eq!(ui.game.clock_label(), "Day 01 05:00");
    ui.time_control.toggle_pause();
    assert_eq!(advance_simulation(&mut ui, 5), 0);
    assert_eq!(ui.game.clock_label(), "Day 01 05:00");
    ui.time_control.toggle_pause();
    assert_eq!(advance_simulation(&mut ui, 19), 19);
    assert_eq!(ui.game.current_day(), 2);
    assert_eq!(ui.game.incidents.len(), 2);
}

#[test]
fn toggles_undo_themselves() {
    let mut ui = session();
    apply_ui_command(&mut ui, UiCommand::ToggleSidebar, gpu());
    assert!(ui.action_sidebar.collapsed);
    apply_ui_command(&mut ui, UiCommand::ToggleSidebar, gpu());
    assert!(!ui.action_sidebar.collapsed);
    apply_ui_command(&mut ui, UiCommand::Faster, gpu());
    apply_ui_command(&mut ui, UiCommand::Slower, gpu());
    assert_eq!(ui.time_control.speed_multiplier(), 1);
    apply_ui_command(&mut ui, UiCommand::TogglePause, gpu());
    apply_ui_command(&mut ui, UiCommand::TogglePause, gpu());
    assert!(!ui.time_control.paused());
    assert_eq!(last_log(&ui), "Simulation resumed.");
}

#[test]
fn time_never_touches_the_map() {
    let mut ui = session();
    ui.game.selected_tool = Tool::Substation;
    ui.game.handle_click(GridPos::new(4, 5));
    let grid: Vec<_> = ui.game.grid.iter().map(|t| (t.kind, t.asset)).collect();
    let budget = ui.game.budget;
    assert_eq!(advance_simulation(&mut ui, 50), 50);
    let after: Vec<_> = ui.game.grid.iter().map(|t| (t.kind, t.asset)).collect();
    assert_eq!(grid, after);
    assert_eq!(ui.game.budget, budget);
    assert_eq!(ui.game.assets.len(), 1);
    assert_eq!(ui.game.clock_label(), "Day 03 02:00");
}
