use vstd::prelude::*;

use crate::game::GameState;
use crate::grid::GridPos;
use crate::model::Tool;
use crate::settings::{
    settings_row_at, with_adjustment, GraphicsSettings, RenderCapability, SettingsMenuRow,
    SettingsMenuState,
};
use crate::text::concat_str;
use crate::ui::{
    speed_label_spec, ActionRailAction, ActionSidebarState, CameraPreset, EventModalState,
    HoverState, MinimapMode, TimeControl, SPEED_COUNT,
};

verus! {

/// The keys pressed this frame that the game listens to.
#[derive(Clone, Copy, Debug)]
pub struct KeyPresses {
    pub escape: bool,
    pub f1: bool,
    pub tab: bool,
    pub arrow_up: bool,
    pub arrow_down: bool,
    pub arrow_left: bool,
    pub arrow_right: bool,
    pub key_w: bool,
    pub key_a: bool,
    pub key_s: bool,
    pub key_d: bool,
    pub key_r: bool,
    pub key_b: bool,
    pub key_l: bool,
    pub key_u: bool,
    pub digit1: bool,
    pub digit2: bool,
    pub digit3: bool,
    pub digit4: bool,
    pub digit5: bool,
    pub digit6: bool,
    pub space: bool,
    pub minus: bool,
    pub numpad_subtract: bool,
    pub equal: bool,
    pub numpad_add: bool,
}

impl Default for KeyPresses {
    /// No key pressed.
    fn default() -> (k: KeyPresses)
        ensures
            k == no_keys(),
    {
        KeyPresses {
            escape: false,
            f1: false,
            tab: false,
            arrow_up: false,
            arrow_down: false,
            arrow_left: false,
            arrow_right: false,
            key_w: false,
            key_a: false,
            key_s: false,
            key_d: false,
            key_r: false,
            key_b: false,
            key_l: false,
            key_u: false,
            digit1: false,
            digit2: false,
            digit3: false,
            digit4: false,
            digit5: false,
            digit6: false,
            space: false,
            minus: false,
            numpad_subtract: false,
            equal: false,
            numpad_add: false,
        }
    }
}

/// The frame in which no key was pressed.
pub open spec fn no_keys() -> KeyPresses {
    KeyPresses {
        escape: false,
        f1: false,
        tab: false,
        arrow_up: false,
        arrow_down: false,
        arrow_left: false,
        arrow_right: false,
        key_w: false,
        key_a: false,
        key_s: false,
        key_d: false,
        key_r: false,
        key_b: false,
        key_l: false,
        key_u: false,
        digit1: false,
        digit2: false,
        digit3: false,
        digit4: false,
        digit5: false,
        digit6: false,
        space: false,
        minus: false,
        numpad_subtract: false,
        equal: false,
        numpad_add: false,
    }
}

/// A button of the HUD that was pressed this frame.
#[derive(Clone, Copy, PartialEq, Eq, Debug, Structural)]
pub enum UiButton {
    Clock,
    Speed,
    Minimap(MinimapMode),
    EventIcon(usize),
    CloseEventModal,
    SidebarToggle,
    Action(ActionRailAction),
}

/// One change of the game or of the interface asked for by the player.
#[derive(Clone, Copy, PartialEq, Eq, Debug, Structural)]
pub enum UiCommand {
    CloseEventModal,
    ToggleSettingsMenu,
    CloseSettingsMenu,
    ToggleSidebar,
    MoveSettingsSelection(i32),
    AdjustSetting(i32),
    Regenerate,
    SelectTool(Tool),
    CycleBridgeProfile,
    CycleLogicProfile,
    SpendResearch,
    TogglePause,
    Slower,
    Faster,
    CycleSpeed,
    ShowMinimap(MinimapMode),
    OpenIncident(usize),
}

/// Everything the player's input can change: the game and the interface state.
pub struct UiState {
    pub game: GameState,
    pub time_control: TimeControl,
    pub graphics_settings: GraphicsSettings,
    pub settings_menu: SettingsMenuState,
    pub event_modal: EventModalState,
    pub action_sidebar: ActionSidebarState,
    pub minimap_mode: MinimapMode,
}

impl UiState {
    /// A valid game and a settings selection on one of the eight rows.
    pub open spec fn wf(self) -> bool {
        &&& self.game.wf()
        &&& self.settings_menu.selected_row < 8
    }
}

// ---------------------------------------------------------------------------
// From input to commands.

/// `cmd` when `pressed`, nothing otherwise.
pub open spec fn if_pressed(pressed: bool, cmd: UiCommand) -> Seq<UiCommand> {
    if pressed {
        seq![cmd]
    } else {
        Seq::empty()
    }
}

/// The commands a frame's key presses ask for. An open incident panel
/// swallows Escape; F1 and Tab act alone; with the settings panel open the
/// keys drive the panel, one action per frame; otherwise every pressed game
/// key acts, in a fixed order.
pub open spec fn keyboard_commands_spec(
    keys: KeyPresses,
    modal_open: bool,
    settings_open: bool,
) -> Seq<UiCommand> {
    if modal_open && keys.escape {
        seq![UiCommand::CloseEventModal]
    } else if keys.f1 {
        seq![UiCommand::ToggleSettingsMenu]
    } else if keys.tab {
        seq![UiCommand::ToggleSidebar]
    } else if settings_open {
        if keys.escape {
            seq![UiCommand::CloseSettingsMenu]
        } else if keys.arrow_up || keys.key_w {
            seq![UiCommand::MoveSettingsSelection(-1i32)]
        } else if keys.arrow_down || keys.key_s {
            seq![UiCommand::MoveSettingsSelection(1i32)]
        } else if keys.arrow_left || keys.key_a {
            seq![UiCommand::AdjustSetting(-1i32)]
        } else if keys.arrow_right || keys.key_d {
            seq![UiCommand::AdjustSetting(1i32)]
        } else {
            Seq::empty()
        }
    } else {
        game_key_commands(keys, GAME_KEY_COUNT as int)
    }
}

/// Number of game keys.
pub const GAME_KEY_COUNT: usize = 14;

/// The `i`-th game key, in the order the keys are handled, and whether it
/// was pressed: R regenerates, 1-6 pick the build tools, Escape the inspect
/// tool, B and L cycle the profiles, U spends research, Space pauses, and
/// minus and plus (either row) change the speed.
pub open spec fn game_key(keys: KeyPresses, i: int) -> (bool, UiCommand) {
    if i == 0 {
        (keys.key_r, UiCommand::Regenerate)
    } else if i == 1 {
        (keys.digit1, UiCommand::SelectTool(Tool::Bridge))
    } else if i == 2 {
        (keys.digit2, UiCommand::SelectTool(Tool::Sensor))
    } else if i == 3 {
        (keys.digit3, UiCommand::SelectTool(Tool::Plc))
    } else if i == 4 {
        (keys.digit4, UiCommand::SelectTool(Tool::Gateway))
    } else if i == 5 {
        (keys.digit5, UiCommand::SelectTool(Tool::Substation))
    } else if i == 6 {
        (keys.digit6, UiCommand::SelectTool(Tool::PumpStation))
    } else if i == 7 {
        (keys.escape, UiCommand::SelectTool(Tool::Inspect))
    } else if i == 8 {
        (keys.key_b, UiCommand::CycleBridgeProfile)
    } else if i == 9 {
        (keys.key_l, UiCommand::CycleLogicProfile)
    } else if i == 10 {
        (keys.key_u, UiCommand::SpendResearch)
    } else if i == 11 {
        (keys.space, UiCommand::TogglePause)
    } else if i == 12 {
        (keys.minus || keys.numpad_subtract, UiCommand::Slower)
    } else {
        (keys.equal || keys.numpad_add, UiCommand::Faster)
    }
}

/// The commands of the first `n` game keys that were pressed, in order.
pub open spec fn game_key_commands(keys: KeyPresses, n: int) -> Seq<UiCommand>
    decreases n,
{
    if n <= 0 {
        Seq::empty()
    } else {
        game_key_commands(keys, n - 1) + if_pressed(game_key(keys, n - 1).0, game_key(keys, n - 1).1)
    }
}

/// The `i`-th game key and whether it was pressed.
fn game_key_at(keys: &KeyPresses, i: usize) -> (r: (bool, UiCommand))
    requires
        i < GAME_KEY_COUNT,
    ensures
        r == game_key(*keys, i as int),
{
    if i == 0 {
        (keys.key_r, UiCommand::Regenerate)
    } else if i == 1 {
        (keys.digit1, UiCommand::SelectTool(Tool::Bridge))
    } else if i == 2 {
        (keys.digit2, UiCommand::SelectTool(Tool::Sensor))
    } else if i == 3 {
        (keys.digit3, UiCommand::SelectTool(Tool::Plc))
    } else if i == 4 {
        (keys.digit4, UiCommand::SelectTool(Tool::Gateway))
    } else if i == 5 {
        (keys.digit5, UiCommand::SelectTool(Tool::Substation))
    } else if i == 6 {
        (keys.digit6, UiCommand::SelectTool(Tool::PumpStation))
    } else if i == 7 {
        (keys.escape, UiCommand::SelectTool(Tool::Inspect))
    } else if i == 8 {
        (keys.key_b, UiCommand::CycleBridgeProfile)
    } else if i == 9 {
        (keys.key_l, UiCommand::CycleLogicProfile)
    } else if i == 10 {
        (keys.key_u, UiCommand::SpendResearch)
    } else if i == 11 {
        (keys.space, UiCommand::TogglePause)
    } else if i == 12 {
        (keys.minus || keys.numpad_subtract, UiCommand::Slower)
    } else {
        (keys.equal || keys.numpad_add, UiCommand::Faster)
    }
}

/// Appends `cmd` to `out` when `pressed`.
fn push_if(out: &mut Vec<UiCommand>, pressed: bool, cmd: UiCommand)
    ensures
        final(out)@ == old(out)@ + if_pressed(pressed, cmd),
{
    if pressed {
        out.push(cmd);
    }
    proof {
        if !pressed {
            assert(old(out)@ + if_pressed(pressed, cmd) =~= old(out)@);
        }
    }
}

/// The commands a frame's key presses ask for, given whether an incident
/// panel and the settings panel are open.
pub fn keyboard_commands(keys: &KeyPresses, modal_open: bool, settings_open: bool) -> (cmds: Vec<
    UiCommand,
>)
    ensures
        cmds@ == keyboard_commands_spec(*keys, modal_open, settings_open),
{
    let mut out: Vec<UiCommand> = Vec::new();
    if modal_open && keys.escape {
        out.push(UiCommand::CloseEventModal);
        return out;
    }
    if keys.f1 {
        out.push(UiCommand::ToggleSettingsMenu);
        return out;
    }
    if keys.tab {
        out.push(UiCommand::ToggleSidebar);
        return out;
    }
    if settings_open {
        if keys.escape {
            out.push(UiCommand::CloseSettingsMenu);
        } else if keys.arrow_up || keys.key_w {
            out.push(UiCommand::MoveSettingsSelection(-1));
        } else if keys.arrow_down || keys.key_s {
            out.push(UiCommand::MoveSettingsSelection(1));
        } else if keys.arrow_left || keys.key_a {
            out.push(UiCommand::AdjustSetting(-1));
        } else if keys.arrow_right || keys.key_d {
            out.push(UiCommand::AdjustSetting(1));
        }
        assert(out@ =~= keyboard_commands_spec(*keys, modal_open, settings_open));
        return out;
    }
    let mut i: usize = 0;
    while i < GAME_KEY_COUNT
        invariant
            i <= GAME_KEY_COUNT,
            !(modal_open && keys.escape),
            !keys.f1,
            !keys.tab,
            !settings_open,
            out@ == game_key_commands(*keys, i as int),
        decreases GAME_KEY_COUNT - i,
    {
        let (pressed, cmd) = game_key_at(keys, i);
        push_if(&mut out, pressed, cmd);
        i = i + 1;
    }
    out
}

/// The command a pressed HUD button asks for.
pub open spec fn button_command_spec(button: UiButton) -> UiCommand {
    match button {
        UiButton::Clock => UiCommand::TogglePause,
        UiButton::Speed => UiCommand::CycleSpeed,
        UiButton::Minimap(mode) => UiCommand::ShowMinimap(mode),
        UiButton::EventIcon(slot) => UiCommand::OpenIncident(slot),
        UiButton::CloseEventModal => UiCommand::CloseEventModal,
        UiButton::SidebarToggle => UiCommand::ToggleSidebar,
        UiButton::Action(action) => match action {
            ActionRailAction::Tool(tool) => UiCommand::SelectTool(tool),
            ActionRailAction::Regenerate => UiCommand::Regenerate,
            ActionRailAction::CycleBridgeProfile => UiCommand::CycleBridgeProfile,
            ActionRailAction::CycleLogicProfile => UiCommand::CycleLogicProfile,
            ActionRailAction::SpendResearch => UiCommand::SpendResearch,
        },
    }
}

/// The command a pressed HUD button asks for.
pub fn button_command(button: UiButton) -> (cmd: UiCommand)
    ensures
        cmd == button_command_spec(button),
{
    match button {
        UiButton::Clock => UiCommand::TogglePause,
        UiButton::Speed => UiCommand::CycleSpeed,
        UiButton::Minimap(mode) => UiCommand::ShowMinimap(mode),
        UiButton::EventIcon(slot) => UiCommand::OpenIncident(slot),
        UiButton::CloseEventModal => UiCommand::CloseEventModal,
        UiButton::SidebarToggle => UiCommand::ToggleSidebar,
        UiButton::Action(action) => match action {
            ActionRailAction::Tool(tool) => UiCommand::SelectTool(tool),
            ActionRailAction::Regenerate => UiCommand::Regenerate,
            ActionRailAction::CycleBridgeProfile => UiCommand::CycleBridgeProfile,
            ActionRailAction::CycleLogicProfile => UiCommand::CycleLogicProfile,
            ActionRailAction::SpendResearch => UiCommand::SpendResearch,
        },
    }
}

// ---------------------------------------------------------------------------
// What a command does.

/// Logged when the settings panel opens (`open`) or closes.
pub open spec fn settings_toggle_note(open: bool) -> Seq<char> {
    if open {
        "Configuration opened. Use arrows to change graphics settings."@
    } else {
        "Configuration closed."@
    }
}

/// Logged when the clock is paused (`paused`) or resumed.
pub open spec fn pause_note(paused: bool) -> Seq<char> {
    if paused {
        "Simulation paused."@
    } else {
        "Simulation resumed."@
    }
}

/// Logged when the simulation speed changes.
pub open spec fn speed_note(time: TimeControl) -> Seq<char> {
    "Simulation speed set to "@ + speed_label_spec(time.is_paused(), time.speed_step()) + "."@
}

/// Logged when a setting is changed.
pub open spec fn setting_note(
    row: SettingsMenuRow,
    settings: GraphicsSettings,
    capability: RenderCapability,
) -> Seq<char> {
    "Config "@ + row.label_spec() + " -> "@ + settings.row_value_spec(row, capability) + "."@
}

/// `t` is `s` with only the game changed.
pub open spec fn only_game_changed(s: UiState, t: UiState) -> bool {
    t == UiState { game: t.game, ..s }
}

/// `t` is `s` with only the game and the clock changed, the clock keeping
/// its pause flag and moving to speed step `step`, and the new speed logged.
pub open spec fn speed_changed(s: UiState, t: UiState, step: int) -> bool {
    &&& t.time_control.is_paused() == s.time_control.is_paused()
    &&& t.time_control.speed_step() == step
    &&& t.game.logged(s.game, speed_note(t.time_control))
    &&& t == UiState { game: t.game, time_control: t.time_control, ..s }
}

/// `t` is what command `cmd` makes of `s` on a machine with `capability`.
pub open spec fn command_step(
    s: UiState,
    cmd: UiCommand,
    capability: RenderCapability,
    t: UiState,
) -> bool {
    match cmd {
        UiCommand::CloseEventModal => t == UiState {
            event_modal: EventModalState { selected_incident: None },
            ..s
        },
        UiCommand::ToggleSettingsMenu => {
            let open = !s.settings_menu.open;
            &&& t.game.logged(s.game, settings_toggle_note(open))
            &&& t == UiState {
                game: t.game,
                settings_menu: SettingsMenuState { open, ..s.settings_menu },
                ..s
            }
        },
        UiCommand::CloseSettingsMenu => {
            &&& t.game.logged(s.game, settings_toggle_note(false))
            &&& t == UiState {
                game: t.game,
                settings_menu: SettingsMenuState { open: false, ..s.settings_menu },
                ..s
            }
        },
        UiCommand::ToggleSidebar => t == UiState {
            action_sidebar: ActionSidebarState { collapsed: !s.action_sidebar.collapsed },
            ..s
        },
        UiCommand::MoveSettingsSelection(delta) => t == UiState {
            settings_menu: SettingsMenuState {
                selected_row: ((s.settings_menu.selected_row + delta) % 8) as usize,
                ..s.settings_menu
            },
            ..s
        },
        UiCommand::AdjustSetting(delta) => {
            let row = settings_row_at(s.settings_menu.selected_row as int);
            let adjusted = with_adjustment(s.graphics_settings, row, delta >= 0);
            &&& t.game.logged(s.game, setting_note(row, adjusted, capability))
            &&& t == UiState { game: t.game, graphics_settings: adjusted, ..s }
        },
        UiCommand::Regenerate => t.game.regenerated(s.game) && only_game_changed(s, t),
        UiCommand::SelectTool(tool) => t == UiState {
            game: GameState { selected_tool: tool, ..s.game },
            ..s
        },
        UiCommand::CycleBridgeProfile => t.game.bridge_cycled(s.game) && only_game_changed(s, t),
        UiCommand::CycleLogicProfile => t.game.logic_cycled(s.game) && only_game_changed(s, t),
        UiCommand::SpendResearch => t.game.research_spent(s.game) && only_game_changed(s, t),
        UiCommand::TogglePause => {
            &&& t.time_control.is_paused() == !s.time_control.is_paused()
            &&& t.time_control.speed_step() == s.time_control.speed_step()
            &&& t.game.logged(s.game, pause_note(t.time_control.is_paused()))
            &&& t == UiState { game: t.game, time_control: t.time_control, ..s }
        },
        UiCommand::Slower => speed_changed(
            s,
            t,
            if s.time_control.speed_step() > 0 {
                s.time_control.speed_step() - 1
            } else {
                s.time_control.speed_step()
            },
        ),
        UiCommand::Faster => speed_changed(
            s,
            t,
            if s.time_control.speed_step() + 1 < SPEED_COUNT {
                s.time_control.speed_step() + 1
            } else {
                s.time_control.speed_step()
            },
        ),
        UiCommand::CycleSpeed => speed_changed(
            s,
            t,
            (s.time_control.speed_step() + 1) % (SPEED_COUNT as int),
        ),
        UiCommand::ShowMinimap(mode) => t == UiState { minimap_mode: mode, ..s },
        UiCommand::OpenIncident(slot) => t == if slot < s.game.incidents@.len() {
            UiState { event_modal: EventModalState { selected_incident: Some(slot) }, ..s }
        } else {
            s
        },
    }
}

/// `t` is what the commands `cmds`, applied in order, make of `s`.
pub open spec fn commands_run(
    s: UiState,
    cmds: Seq<UiCommand>,
    capability: RenderCapability,
    t: UiState,
) -> bool
    decreases cmds.len(),
{
    if cmds.len() == 0 {
        t == s
    } else {
        exists|m: UiState|
            commands_run(s, cmds.drop_last(), capability, m) && #[trigger] command_step(
                m,
                cmds.last(),
                capability,
                t,
            )
    }
}

/// Logs `msg` in the game.
fn log_message(ui: &mut UiState, msg: String)
    ensures
        final(ui).game.logged(old(ui).game, msg@),
        *final(ui) == (UiState { game: final(ui).game, ..*old(ui) }),
{
    ui.game.push_log(msg);
}

/// Logs the current simulation speed.
fn log_speed(ui: &mut UiState)
    ensures
        final(ui).game.logged(old(ui).game, speed_note(old(ui).time_control)),
        *final(ui) == (UiState { game: final(ui).game, ..*old(ui) }),
{
    let label = ui.time_control.speed_label();
    let mut msg = concat_str("Simulation speed set to ", label.as_str());
    msg.append(".");
    log_message(ui, msg);
}

/// Carries out one command.
pub fn apply_ui_command(ui: &mut UiState, cmd: UiCommand, capability: RenderCapability)
    requires
        old(ui).wf(),
    ensures
        final(ui).wf(),
        command_step(*old(ui), cmd, capability, *final(ui)),
{
    match cmd {
        UiCommand::CloseEventModal => {
            ui.event_modal.selected_incident = None;
        },
        UiCommand::ToggleSettingsMenu => {
            ui.settings_menu.open = !ui.settings_menu.open;
            let msg = if ui.settings_menu.open {
                String::from_str("Configuration opened. Use arrows to change graphics settings.")
            } else {
                String::from_str("Configuration closed.")
            };
            log_message(ui, msg);
        },
        UiCommand::CloseSettingsMenu => {
            ui.settings_menu.open = false;
            log_message(ui, String::from_str("Configuration closed."));
        },
        UiCommand::ToggleSidebar => {
            ui.action_sidebar.collapsed = !ui.action_sidebar.collapsed;
        },
        UiCommand::MoveSettingsSelection(delta) => {
            // A step of `delta % 8` lands on the same row and cannot overflow.
            let step = delta % 8;
            let ghost row = ui.settings_menu.selected_row as int;
            assert((row + delta) % 8 == (row + step) % 8) by (nonlinear_arith)
                requires
                    step == delta % 8 || step == delta % 8 - 8,
            ;
            ui.settings_menu.move_selection(step);
        },
        UiCommand::AdjustSetting(delta) => {
            let row = ui.settings_menu.selected_row();
            ui.graphics_settings.adjust(row, delta);
            let mut msg = concat_str("Config ", row.label());
            msg.append(" -> ");
            let value = ui.graphics_settings.row_value_label(row, capability);
            msg.append(value.as_str());
            msg.append(".");
            log_message(ui, msg);
        },
        UiCommand::Regenerate => {
            ui.game.regenerate();
        },
        UiCommand::SelectTool(tool) => {
            ui.game.selected_tool = tool;
        },
        UiCommand::CycleBridgeProfile => {
            ui.game.cycle_bridge_profile();
        },
        UiCommand::CycleLogicProfile => {
            ui.game.cycle_logic_profile();
        },
        UiCommand::SpendResearch => {
            ui.game.spend_research();
        },
        UiCommand::TogglePause => {
            ui.time_control.toggle_pause();
            let msg = if ui.time_control.paused() {
                String::from_str("Simulation paused.")
            } else {
                String::from_str("Simulation resumed.")
            };
            log_message(ui, msg);
        },
        UiCommand::Slower => {
            ui.time_control.slower();
            log_speed(ui);
        },
        UiCommand::Faster => {
            ui.time_control.faster();
            log_speed(ui);
        },
        UiCommand::CycleSpeed => {
            ui.time_control.cycle_speed();
            log_speed(ui);
        },
        UiCommand::ShowMinimap(mode) => {
            ui.minimap_mode = mode;
        },
        UiCommand::OpenIncident(slot) => {
            if slot < ui.game.incidents.len() {
                ui.event_modal.selected_incident = Some(slot);
            }
        },
    }
}

/// Carries out the commands `cmds` in order.
pub fn apply_ui_commands(ui: &mut UiState, cmds: &Vec<UiCommand>, capability: RenderCapability)
    requires
        old(ui).wf(),
    ensures
        final(ui).wf(),
        commands_run(*old(ui), cmds@, capability, *final(ui)),
{
    let ghost start = *ui;
    let mut i: usize = 0;
    proof {
        assert(cmds@.take(0).len() == 0);
    }
    while i < cmds.len()
        invariant
            i <= cmds@.len(),
            ui.wf(),
            commands_run(start, cmds@.take(i as int), capability, *ui),
        decreases cmds@.len() - i,
    {
        let ghost before = *ui;
        apply_ui_command(ui, cmds[i], capability);
        proof {
            let done = cmds@.take(i + 1);
            assert(done.drop_last() =~= cmds@.take(i as int));
            assert(done.last() == cmds@[i as int]);
            assert(command_step(before, done.last(), capability, *ui));
        }
        i = i + 1;
    }
    proof {
        assert(cmds@.take(i as int) =~= cmds@);
    }
}

/// Reacts to the keys pressed this frame.
pub fn handle_keyboard_input(ui: &mut UiState, keys: &KeyPresses, capability: RenderCapability)
    requires
        old(ui).wf(),
    ensures
        final(ui).wf(),
        commands_run(
            *old(ui),
            keyboard_commands_spec(
                *keys,
                old(ui).event_modal.selected_incident is Some,
                old(ui).settings_menu.open,
            ),
            capability,
            *final(ui),
        ),
{
    let cmds = keyboard_commands(keys, ui.event_modal.selected_incident.is_some(), ui.settings_menu.open);
    apply_ui_commands(ui, &cmds, capability);
}

/// The commands the HUD buttons pressed this frame ask for, in order.
pub open spec fn button_commands_spec(pressed: Seq<UiButton>) -> Seq<UiCommand> {
    pressed.map_values(|b: UiButton| button_command_spec(b))
}

/// Reacts to the HUD buttons pressed this frame, in order.
pub fn handle_ui_buttons(ui: &mut UiState, pressed: &Vec<UiButton>, capability: RenderCapability)
    requires
        old(ui).wf(),
    ensures
        final(ui).wf(),
        commands_run(*old(ui), button_commands_spec(pressed@), capability, *final(ui)),
{
    let mut cmds: Vec<UiCommand> = Vec::new();
    let mut i: usize = 0;
    while i < pressed.len()
        invariant
            i <= pressed@.len(),
            cmds@ == button_commands_spec(pressed@.take(i as int)),
        decreases pressed@.len() - i,
    {
        cmds.push(button_command(pressed[i]));
        i = i + 1;
        assert(cmds@ =~= button_commands_spec(pressed@.take(i as int)));
    }
    assert(pressed@.take(i as int) =~= pressed@);
    apply_ui_commands(ui, &cmds, capability);
}

/// Logs a change of camera framing.
pub fn log_camera_preset(game: &mut GameState, preset: CameraPreset)
    ensures
        final(game).logged(*old(game), "Camera preset set to "@ + preset.label_spec() + "."@),
{
    let mut msg = String::from_str("Camera preset set to ");
    msg.append(preset.label());
    msg.append(".");
    game.push_log(msg);
}

// ---------------------------------------------------------------------------
// The map under the mouse, and the passing of time.

/// Whether the map takes mouse input: no settings or incident panel is open.
pub open spec fn map_input_open(ui: UiState) -> bool {
    !ui.settings_menu.open && ui.event_modal.selected_incident is None
}

/// Tracks the tile under the cursor: none while a panel is open or the
/// cursor is over the HUD, else `tile_under_cursor`, the map tile the cursor
/// points at, if any.
pub fn update_hover_tile(
    hover: &mut HoverState,
    ui: &UiState,
    cursor_over_ui: bool,
    tile_under_cursor: Option<GridPos>,
)
    ensures
        final(hover).hovered_tile == if map_input_open(*ui) && !cursor_over_ui {
            tile_under_cursor
        } else {
            None
        },
{
    if ui.settings_menu.open || ui.event_modal.selected_incident.is_some() || cursor_over_ui {
        hover.hovered_tile = None;
    } else {
        hover.hovered_tile = tile_under_cursor;
    }
}

/// Reacts to the left mouse button: with no panel open and the cursor off
/// the HUD, a press clicks the hovered tile.
pub fn handle_mouse_clicks(
    ui: &mut UiState,
    left_pressed: bool,
    cursor_over_ui: bool,
    hovered: Option<GridPos>,
)
    requires
        old(ui).game.wf(),
        map_input_open(*old(ui)) && left_pressed && !cursor_over_ui && hovered is Some
            ==> old(ui).game.click_fits(hovered->0),
    ensures
        final(ui).game.wf(),
        *final(ui) == (UiState { game: final(ui).game, ..*old(ui) }),
        if map_input_open(*old(ui)) && left_pressed && !cursor_over_ui && hovered is Some {
            final(ui).game.clicked(old(ui).game, hovered->0)
        } else {
            final(ui).game == old(ui).game
        },
{
    if ui.settings_menu.open || ui.event_modal.selected_incident.is_some() {
        return;
    }
    if !left_pressed || cursor_over_ui {
        return;
    }
    match hovered {
        Some(p) => ui.game.handle_click(p),
        None => {},
    }
}

/// `t` is what `n` hours make of `s`.
pub open spec fn hours_run(s: GameState, n: nat, t: GameState) -> bool
    decreases n,
{
    if n == 0 {
        t == s
    } else {
        exists|m: GameState| hours_run(s, (n - 1) as nat, m) && #[trigger] t.hour_advanced(m)
    }
}

/// Runs the hours that came due this frame on a running clock, one by one;
/// a paused clock runs none. It stops early only where the next hour would
/// take the game's values past their integer types (`hour_fits`). Returns
/// how many hours ran.
pub fn advance_simulation(ui: &mut UiState, due_hours: u32) -> (advanced: u32)
    requires
        old(ui).game.wf(),
    ensures
        final(ui).game.wf(),
        *final(ui) == (UiState { game: final(ui).game, ..*old(ui) }),
        old(ui).time_control.is_paused() ==> advanced == 0 && final(ui).game == old(ui).game,
        !old(ui).time_control.is_paused() ==> {
            &&& hours_run(old(ui).game, advanced as nat, final(ui).game)
            &&& advanced == due_hours || !final(ui).game.hour_fits()
        },
{
    if ui.time_control.paused() {
        return 0;
    }
    let ghost start = ui.game;
    let mut advanced: u32 = 0;
    while advanced < due_hours && ui.game.fits_hour()
        invariant
            ui.game.wf(),
            *ui == (UiState { game: ui.game, ..*old(ui) }),
            start == old(ui).game,
            advanced <= due_hours,
            hours_run(start, advanced as nat, ui.game),
        decreases due_hours - advanced,
    {
        let ghost before = ui.game;
        ui.game.advance_hour();
        proof {
            assert(hours_run(start, advanced as nat, before) && ui.game.hour_advanced(before));
        }
        advanced = advanced + 1;
    }
    advanced
}

} // verus!
