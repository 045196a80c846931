use vstd::prelude::*;

use crate::catalog::AssetCatalog;
use crate::game::{clamp_int, lemma_coverage_bounds, lemma_tile_asset_index, GameState};
use crate::grid::{tile_index, GridPos};
use crate::model::{Asset, Incident, IncidentKind, TileKind, Tool};
use crate::settings::{
    ActiveRenderTier, active_tier_spec, effective_mesh_spec, settings_row_at, GraphicsSettings, RenderCapability,
    SettingsMenuRow, SettingsMenuState,
};
use crate::text::{decimal, int_text, push_decimal, push_int};
use crate::wrap::{first_lines, join_lines, joined, push_first_lines, texts, wrap_text, wrapped};
use crate::ui::{
    speed_at, ActionRailAction, EventModalState, MinimapMode, SceneSyncState, TimeControl,
};

verus! {

pub open spec fn yes_no_spec(value: bool) -> Seq<char> {
    if value {
        "yes"@
    } else {
        "no"@
    }
}

/// `yes` or `no`.
pub fn yes_no(value: bool) -> (s: &'static str)
    ensures
        s@ == yes_no_spec(value),
{
    if value {
        "yes"
    } else {
        "no"
    }
}

pub open spec fn incident_badge_label_spec(kind: IncidentKind) -> Seq<char> {
    match kind {
        IncidentKind::Brownout => "PWR"@,
        IncidentKind::LowPressure => "H2O"@,
        IncidentKind::BridgeStress => "BRG"@,
        IncidentKind::OtIntrusion => "OT"@,
    }
}

/// The short label on an incident's alert badge.
pub fn incident_badge_label(kind: IncidentKind) -> (s: &'static str)
    ensures
        s@ == incident_badge_label_spec(kind),
{
    match kind {
        IncidentKind::Brownout => "PWR",
        IncidentKind::LowPressure => "H2O",
        IncidentKind::BridgeStress => "BRG",
        IncidentKind::OtIntrusion => "OT",
    }
}

pub open spec fn incident_title_spec(kind: IncidentKind) -> Seq<char> {
    match kind {
        IncidentKind::Brownout => "Brownout Risk"@,
        IncidentKind::LowPressure => "Low Water Pressure"@,
        IncidentKind::BridgeStress => "Bridge Stress Alert"@,
        IncidentKind::OtIntrusion => "OT Intrusion Risk"@,
    }
}

/// The title of an incident's details panel.
pub fn incident_title(kind: IncidentKind) -> (s: &'static str)
    ensures
        s@ == incident_title_spec(kind),
{
    match kind {
        IncidentKind::Brownout => "Brownout Risk",
        IncidentKind::LowPressure => "Low Water Pressure",
        IncidentKind::BridgeStress => "Bridge Stress Alert",
        IncidentKind::OtIntrusion => "OT Intrusion Risk",
    }
}

pub open spec fn incident_action_copy_spec(kind: IncidentKind) -> Seq<char> {
    match kind {
        IncidentKind::Brownout => "Expand substation coverage and reduce unsupported electrical demand."@,
        IncidentKind::LowPressure => "Improve pump-station placement near water access and restore distribution."@,
        IncidentKind::BridgeStress => "Replace weak bridge builds with compliant profiles before trust collapses."@,
        IncidentKind::OtIntrusion => "Add compliant gateways and harden PLC logic before the city notices."@,
    }
}

/// The recommended response to an incident.
pub fn incident_action_copy(kind: IncidentKind) -> (s: &'static str)
    ensures
        s@ == incident_action_copy_spec(kind),
{
    match kind {
        IncidentKind::Brownout => "Expand substation coverage and reduce unsupported electrical demand.",
        IncidentKind::LowPressure => "Improve pump-station placement near water access and restore distribution.",
        IncidentKind::BridgeStress => "Replace weak bridge builds with compliant profiles before trust collapses.",
        IncidentKind::OtIntrusion => "Add compliant gateways and harden PLC logic before the city notices.",
    }
}

// ---------------------------------------------------------------------------
// The action sidebar.

/// The label of an action button, short on the collapsed rail.
pub open spec fn action_button_label_spec(
    action: ActionRailAction,
    game: GameState,
    collapsed: bool,
) -> Seq<char> {
    if collapsed {
        match action {
            ActionRailAction::Tool(Tool::Inspect) => "IN"@,
            ActionRailAction::Tool(Tool::Bridge) => "BR"@,
            ActionRailAction::Tool(Tool::Sensor) => "SN"@,
            ActionRailAction::Tool(Tool::Plc) => "PL"@,
            ActionRailAction::Tool(Tool::Gateway) => "GW"@,
            ActionRailAction::Tool(Tool::Substation) => "SS"@,
            ActionRailAction::Tool(Tool::PumpStation) => "PU"@,
            ActionRailAction::Regenerate => "RS"@,
            ActionRailAction::CycleBridgeProfile => "BM"@,
            ActionRailAction::CycleLogicProfile => "LM"@,
            ActionRailAction::SpendResearch => "RD"@,
        }
    } else {
        match action {
            ActionRailAction::Tool(Tool::Inspect) => "Inspect [Esc]"@,
            ActionRailAction::Tool(Tool::Bridge) => "Bridge [1]"@,
            ActionRailAction::Tool(Tool::Sensor) => "Sensor [2]"@,
            ActionRailAction::Tool(Tool::Plc) => "PLC [3]"@,
            ActionRailAction::Tool(Tool::Gateway) => "Gateway [4]"@,
            ActionRailAction::Tool(Tool::Substation) => "Substation [5]"@,
            ActionRailAction::Tool(Tool::PumpStation) => "Pump [6]"@,
            ActionRailAction::Regenerate => "Reset city [R]"@,
            ActionRailAction::CycleBridgeProfile => "Bridge mode: "@
                + game.bridge_profile.label_spec() + " [B]"@,
            ActionRailAction::CycleLogicProfile => "PLC mode: "@ + game.logic_profile.label_spec()
                + " [L]"@,
            ActionRailAction::SpendResearch => if game.advanced_unlocked {
                "Advanced controls ready"@
            } else {
                "Unlock advanced ("@ + int_text(game.research_points as int) + "/3)"@
            },
        }
    }
}

/// The label of an action button, short on the collapsed rail.
pub fn action_button_label(action: ActionRailAction, game: &GameState, collapsed: bool) -> (s:
    String)
    ensures
        s@ == action_button_label_spec(action, *game, collapsed),
{
    if collapsed {
        let short = match action {
            ActionRailAction::Tool(Tool::Inspect) => "IN",
            ActionRailAction::Tool(Tool::Bridge) => "BR",
            ActionRailAction::Tool(Tool::Sensor) => "SN",
            ActionRailAction::Tool(Tool::Plc) => "PL",
            ActionRailAction::Tool(Tool::Gateway) => "GW",
            ActionRailAction::Tool(Tool::Substation) => "SS",
            ActionRailAction::Tool(Tool::PumpStation) => "PU",
            ActionRailAction::Regenerate => "RS",
            ActionRailAction::CycleBridgeProfile => "BM",
            ActionRailAction::CycleLogicProfile => "LM",
            ActionRailAction::SpendResearch => "RD",
        };
        return String::from_str(short);
    }
    match action {
        ActionRailAction::Tool(tool) => {
            let text = match tool {
                Tool::Inspect => "Inspect [Esc]",
                Tool::Bridge => "Bridge [1]",
                Tool::Sensor => "Sensor [2]",
                Tool::Plc => "PLC [3]",
                Tool::Gateway => "Gateway [4]",
                Tool::Substation => "Substation [5]",
                Tool::PumpStation => "Pump [6]",
            };
            String::from_str(text)
        },
        ActionRailAction::Regenerate => String::from_str("Reset city [R]"),
        ActionRailAction::CycleBridgeProfile => {
            let mut s = String::from_str("Bridge mode: ");
            s.append(game.bridge_profile.label());
            s.append(" [B]");
            s
        },
        ActionRailAction::CycleLogicProfile => {
            let mut s = String::from_str("PLC mode: ");
            s.append(game.logic_profile.label());
            s.append(" [L]");
            s
        },
        ActionRailAction::SpendResearch => {
            if game.advanced_unlocked {
                String::from_str("Advanced controls ready")
            } else {
                let mut s = String::from_str("Unlock advanced (");
                push_int(&mut s, game.research_points as i64);
                s.append("/3)");
                s
            }
        },
    }
}

/// How an action button is tinted.
#[derive(Clone, Copy, PartialEq, Eq, Debug, Structural)]
pub enum ActionTone {
    /// The tool in hand.
    Selected,
    /// The research purchase, already made.
    Unlocked,
    /// The research purchase, affordable now.
    ResearchReady,
    /// The city reset.
    Reset,
    /// Any other button.
    Neutral,
}

/// Whether `action` picks the tool in hand.
pub open spec fn is_selected_tool(action: ActionRailAction, game: GameState) -> bool {
    action matches ActionRailAction::Tool(tool) && tool == game.selected_tool
}

/// The fill tone of an action button.
pub open spec fn action_fill_spec(action: ActionRailAction, game: GameState) -> ActionTone {
    if is_selected_tool(action, game) {
        ActionTone::Selected
    } else if action == ActionRailAction::SpendResearch && game.advanced_unlocked {
        ActionTone::Unlocked
    } else if action == ActionRailAction::SpendResearch && game.research_points >= 3 {
        ActionTone::ResearchReady
    } else if action == ActionRailAction::Regenerate {
        ActionTone::Reset
    } else {
        ActionTone::Neutral
    }
}

/// The fill tone of an action button.
pub fn action_button_fill(action: ActionRailAction, game: &GameState) -> (t: ActionTone)
    ensures
        t == action_fill_spec(action, *game),
{
    let selected = match action {
        ActionRailAction::Tool(tool) => tool == game.selected_tool,
        _ => false,
    };
    let research = action == ActionRailAction::SpendResearch;
    if selected {
        ActionTone::Selected
    } else if research && game.advanced_unlocked {
        ActionTone::Unlocked
    } else if research && game.research_points >= 3 {
        ActionTone::ResearchReady
    } else if action == ActionRailAction::Regenerate {
        ActionTone::Reset
    } else {
        ActionTone::Neutral
    }
}

/// The border tone of an action button; the reset button has no border of
/// its own.
pub open spec fn action_border_spec(action: ActionRailAction, game: GameState) -> ActionTone {
    if is_selected_tool(action, game) {
        ActionTone::Selected
    } else if action == ActionRailAction::SpendResearch && game.advanced_unlocked {
        ActionTone::Unlocked
    } else if action == ActionRailAction::SpendResearch && game.research_points >= 3 {
        ActionTone::ResearchReady
    } else {
        ActionTone::Neutral
    }
}

/// The border tone of an action button.
pub fn action_button_border(action: ActionRailAction, game: &GameState) -> (t: ActionTone)
    ensures
        t == action_border_spec(action, *game),
{
    let fill = action_button_fill(action, game);
    if fill == ActionTone::Reset {
        ActionTone::Neutral
    } else {
        fill
    }
}

// ---------------------------------------------------------------------------
// The top bar and the event strip.

/// `part` as a whole percentage of `total` (at least one), within `0..=100`.
pub open spec fn percent_of(part: int, total: int) -> int {
    clamp_int(
        100 * part / if total > 1 {
            total
        } else {
            1
        },
        0,
        100,
    )
}

/// `part` as a whole percentage of `total` (at least one), within `0..=100`.
fn coverage_percent(part: i32, total: i32) -> (p: i32)
    requires
        0 <= part <= 640,
        total <= 640,
    ensures
        p == percent_of(part as int, total as int),
        0 <= p <= 100,
{
    let t = if total > 1 {
        total
    } else {
        1
    };
    let v = 100 * part / t;
    if v < 0 {
        0
    } else if v > 100 {
        100
    } else {
        v
    }
}

/// The speed chip of the top bar, e.g. `4x`.
pub open spec fn speed_chip_spec(time: TimeControl) -> Seq<char> {
    decimal(speed_at(time.speed_step())) + "x"@
}

/// The speed chip of the top bar, e.g. `4x`.
pub fn speed_chip_text(time: &TimeControl) -> (s: String)
    ensures
        s@ == speed_chip_spec(*time),
{
    let mut s = String::new();
    push_decimal(&mut s, time.speed_multiplier() as u64);
    s.append("x");
    s
}

/// The tail of the metrics line: the render tier, and the frame rate when
/// telemetry is shown.
pub open spec fn telemetry_suffix(
    settings: GraphicsSettings,
    capability: RenderCapability,
    fps: Seq<char>,
) -> Seq<char> {
    let tier = active_tier_spec(settings.render_tier, capability).label_spec();
    if settings.show_telemetry {
        tier + " | FPS "@ + fps
    } else {
        tier
    }
}

/// The two metrics lines of the top bar; `fps` is the frame rate as shown.
pub open spec fn top_bar_metrics_spec(
    game: GameState,
    settings: GraphicsSettings,
    capability: RenderCapability,
    fps: Seq<char>,
) -> Seq<char> {
    let total = game.coverage.total_demand as int;
    "Budget $"@ + int_text(game.budget as int) + " | Ops $"@ + int_text(game.ops_budget as int)
        + " | Power "@ + decimal(percent_of(game.coverage.powered as int, total) as nat)
        + "% | Water "@ + decimal(percent_of(game.coverage.watered as int, total) as nat)
        + "%\nScore S "@ + int_text(game.score.smartness as int) + " E "@ + int_text(
        game.score.engineering as int,
    ) + " OT "@ + int_text(game.score.ot_security as int) + " T "@ + int_text(
        game.score.citizen_trust as int,
    ) + " | "@ + telemetry_suffix(settings, capability, fps)
}

/// The two metrics lines of the top bar; `fps` is the frame rate as shown.
pub fn top_bar_metrics_text(
    game: &GameState,
    settings: &GraphicsSettings,
    capability: RenderCapability,
    fps: &str,
) -> (s: String)
    requires
        game.wf(),
    ensures
        s@ == top_bar_metrics_spec(*game, *settings, capability, fps@),
{
    proof {
        lemma_coverage_bounds(*game);
    }
    let total = game.coverage.total_demand;
    let power = coverage_percent(game.coverage.powered, total);
    let water = coverage_percent(game.coverage.watered, total);
    let mut s = String::from_str("Budget $");
    push_int(&mut s, game.budget as i64);
    s.append(" | Ops $");
    push_int(&mut s, game.ops_budget as i64);
    s.append(" | Power ");
    push_decimal(&mut s, power as u64);
    s.append("% | Water ");
    push_decimal(&mut s, water as u64);
    s.append("%\nScore S ");
    push_int(&mut s, game.score.smartness as i64);
    s.append(" E ");
    push_int(&mut s, game.score.engineering as i64);
    s.append(" OT ");
    push_int(&mut s, game.score.ot_security as i64);
    s.append(" T ");
    push_int(&mut s, game.score.citizen_trust as i64);
    s.append(" | ");
    s.append(settings.active_render_tier(capability).label());
    if settings.show_telemetry {
        s.append(" | FPS ");
        s.append(fps);
    }
    s
}

/// The status of the event strip.
pub open spec fn event_strip_status_spec(game: GameState) -> Seq<char> {
    if game.incidents@.len() == 0 {
        "Events stable"@
    } else {
        decimal(game.incidents@.len()) + " active alert(s)"@
    }
}

/// The status of the event strip.
pub fn event_strip_status_text(game: &GameState) -> (s: String)
    ensures
        s@ == event_strip_status_spec(*game),
{
    if game.incidents.len() == 0 {
        String::from_str("Events stable")
    } else {
        let mut s = String::new();
        push_decimal(&mut s, game.incidents.len() as u64);
        s.append(" active alert(s)");
        s
    }
}

/// The caption of the minimap.
pub open spec fn minimap_legend_spec(mode: MinimapMode) -> Seq<char> {
    "MINIMAP // "@ + mode.label_spec()
}

/// The caption of the minimap.
pub fn minimap_legend_text(mode: MinimapMode) -> (s: String)
    ensures
        s@ == minimap_legend_spec(mode),
{
    let mut s = String::from_str("MINIMAP // ");
    s.append(mode.label());
    s
}

/// The label on the badge in `slot` of the event strip: the incident's
/// short label, or nothing for an empty slot.
pub open spec fn event_badge_label_spec(game: GameState, slot: int) -> Seq<char> {
    if 0 <= slot < game.incidents@.len() {
        incident_badge_label_spec(game.incidents@[slot].kind)
    } else {
        Seq::empty()
    }
}

/// The label on the badge in `slot` of the event strip.
pub fn event_badge_label(game: &GameState, slot: usize) -> (s: String)
    ensures
        s@ == event_badge_label_spec(*game, slot as int),
{
    if slot < game.incidents.len() {
        String::from_str(incident_badge_label(game.incidents[slot].kind))
    } else {
        String::new()
    }
}

// ---------------------------------------------------------------------------
// The incident details panel.

/// The details of an incident.
pub open spec fn event_modal_spec(incident: Incident) -> Seq<char> {
    incident_title_spec(incident.kind) + "\nRemaining: "@ + decimal(incident.ttl as nat)
        + "h\nRecommended response: "@ + incident_action_copy_spec(incident.kind) + "\n\n"@
        + incident.note@
}

/// The details of an incident.
pub fn event_modal_text(incident: &Incident) -> (s: String)
    ensures
        s@ == event_modal_spec(*incident),
{
    let mut s = String::from_str(incident_title(incident.kind));
    s.append("\nRemaining: ");
    push_decimal(&mut s, incident.ttl as u64);
    s.append("h\nRecommended response: ");
    s.append(incident_action_copy(incident.kind));
    s.append("\n\n");
    s.append(incident.note.as_str());
    s
}

/// The text of the incident details panel, if it is open on an active
/// incident; a panel left open on an incident that has ended is closed.
pub fn event_modal_panel(game: &GameState, modal: &mut EventModalState) -> (text: Option<String>)
    ensures
        match old(modal).selected_incident {
            Some(i) => if i < game.incidents@.len() {
                &&& text matches Some(t) && t@ == event_modal_spec(game.incidents@[i as int])
                &&& *final(modal) == *old(modal)
            } else {
                &&& text is None
                &&& final(modal).selected_incident is None
            },
            None => text is None && *final(modal) == *old(modal),
        },
{
    match modal.selected_incident {
        Some(i) => {
            if i < game.incidents.len() {
                Some(event_modal_text(&game.incidents[i]))
            } else {
                modal.selected_incident = None;
                None
            }
        },
        None => None,
    }
}

// ---------------------------------------------------------------------------
// The HUD panel.

/// Width, in characters, the HUD panel wraps notes and log lines to.
pub const HUD_WRAP_WIDTH: usize = 26;

pub open spec fn hud_tool_line(game: GameState) -> Seq<char> {
    "Active tool: "@ + game.selected_tool.label_spec()
}

pub open spec fn hud_profile_line(game: GameState) -> Seq<char> {
    "Bridge "@ + game.bridge_profile.label_spec() + " • PLC "@ + game.logic_profile.label_spec()
        + " • R&D "@ + if game.advanced_unlocked {
        "unlocked"@
    } else {
        int_text(game.research_points as int) + "/3 points"@
    }
}

pub open spec fn hud_services_line(game: GameState) -> Seq<char> {
    let total = game.coverage.total_demand as int;
    "Services "@ + decimal(percent_of(game.coverage.powered as int, total) as nat) + "% power / "@
        + decimal(percent_of(game.coverage.watered as int, total) as nat) + "% water • "@ + decimal(
        game.incidents@.len(),
    ) + " alerts"@
}

/// `prefix`, the tile's coordinates and its kind.
pub open spec fn hud_tile_line(prefix: Seq<char>, game: GameState, p: GridPos) -> Seq<char> {
    prefix + " ("@ + int_text(p.x as int) + ", "@ + int_text(p.y as int) + ") "@ + game.grid@[tile_index(
        p.x as int,
        p.y as int,
    )].kind.debug_name_spec()
}

/// The lines describing a selected asset: kind, compliance and zone, its
/// profiles, and the first two lines of its note.
pub open spec fn hud_asset_lines(asset: Asset) -> Seq<Seq<char>> {
    seq![
        asset.kind.debug_name_spec() + " • compliant "@ + yes_no_spec(asset.compliant) + " • zone "@
            + asset.zone.debug_name_spec(),
    ] + match asset.bridge_profile {
        Some(profile) => seq!["Bridge profile "@ + profile.label_spec()],
        None => Seq::empty(),
    } + match asset.logic_profile {
        Some(profile) => seq!["PLC profile "@ + profile.label_spec()],
        None => Seq::empty(),
    } + first_lines(wrapped(asset.note@, HUD_WRAP_WIDTH as int), 2)
}

/// The lines about the selected tile or, without a selection, the hovered one.
pub open spec fn hud_selection_lines(game: GameState, hovered: Option<GridPos>) -> Seq<Seq<char>> {
    match game.selected_tile {
        Some(p) => {
            let t = tile_index(p.x as int, p.y as int);
            seq![
                hud_tile_line("Selected"@, game, p),
                "Powered "@ + yes_no_spec(game.powered_tiles@[t]) + " • Watered "@ + yes_no_spec(
                    game.watered_tiles@[t],
                ),
            ] + match game.grid@[t].asset {
                Some(a) => hud_asset_lines(game.assets@[a as int]),
                None => Seq::empty(),
            }
        },
        None => match hovered {
            Some(p) => seq![hud_tile_line("Hover"@, game, p)],
            None => Seq::empty(),
        },
    }
}

/// The performance lines, shown with telemetry on an expanded sidebar.
pub open spec fn hud_perf_lines(
    game: GameState,
    settings: GraphicsSettings,
    capability: RenderCapability,
    sidebar_collapsed: bool,
    fps: Seq<char>,
    frame_ms: Seq<char>,
) -> Seq<Seq<char>> {
    let tier = active_tier_spec(settings.render_tier, capability);
    if settings.show_telemetry && !sidebar_collapsed {
        seq![
            "Perf "@ + fps + " FPS • "@ + frame_ms + " ms • "@ + decimal(game.assets@.len())
                + " assets"@,
            tier.label_spec() + " • "@ + capability.label_spec() + " • "@ + effective_mesh_spec(
                tier,
                settings.mesh_detail,
            ).label_spec(),
        ]
    } else {
        Seq::empty()
    }
}

/// A blank line, a heading and the first three lines of the newest log entry.
pub open spec fn hud_log_lines(game: GameState) -> Seq<Seq<char>> {
    if game.log@.len() > 0 {
        seq![Seq::empty(), "Latest log"@] + first_lines(
            wrapped(game.log@.last()@, HUD_WRAP_WIDTH as int),
            3,
        )
    } else {
        Seq::empty()
    }
}

/// The lines of the HUD panel.
pub open spec fn hud_lines(
    game: GameState,
    hovered: Option<GridPos>,
    settings: GraphicsSettings,
    capability: RenderCapability,
    sidebar_collapsed: bool,
    fps: Seq<char>,
    frame_ms: Seq<char>,
) -> Seq<Seq<char>> {
    seq![hud_tool_line(game), hud_profile_line(game), hud_services_line(game)]
        + hud_selection_lines(game, hovered) + hud_perf_lines(
        game,
        settings,
        capability,
        sidebar_collapsed,
        fps,
        frame_ms,
    ) + hud_log_lines(game)
}

fn push_line(lines: &mut Vec<String>, line: String)
    ensures
        texts(final(lines)@) == texts(old(lines)@).push(line@),
{
    lines.push(line);
    assert(texts(lines@) =~= texts(old(lines)@).push(line@));
}

fn tile_line(prefix: &str, game: &GameState, p: GridPos) -> (s: String)
    requires
        game.shape_ok(),
        p.in_bounds_spec(),
    ensures
        s@ == hud_tile_line(prefix@, *game, p),
{
    let mut s = String::from_str(prefix);
    s.append(" (");
    push_int(&mut s, p.x as i64);
    s.append(", ");
    push_int(&mut s, p.y as i64);
    s.append(") ");
    s.append(game.tile(p).kind.debug_name());
    s
}

fn push_asset_lines(lines: &mut Vec<String>, asset: &Asset)
    ensures
        texts(final(lines)@) == texts(old(lines)@) + hud_asset_lines(*asset),
{
    let mut first = String::from_str(asset.kind.debug_name());
    first.append(" • compliant ");
    first.append(yes_no(asset.compliant));
    first.append(" • zone ");
    first.append(asset.zone.debug_name());
    push_line(lines, first);
    let ghost after_first = texts(lines@);
    match asset.bridge_profile {
        Some(profile) => {
            let mut line = String::from_str("Bridge profile ");
            line.append(profile.label());
            push_line(lines, line);
        },
        None => {},
    }
    let ghost after_bridge = texts(lines@);
    match asset.logic_profile {
        Some(profile) => {
            let mut line = String::from_str("PLC profile ");
            line.append(profile.label());
            push_line(lines, line);
        },
        None => {},
    }
    let ghost after_logic = texts(lines@);
    push_first_lines(lines, wrap_text(asset.note.as_str(), HUD_WRAP_WIDTH), 2);
    proof {
        let a = *asset;
        let bridge: Seq<Seq<char>> = match a.bridge_profile {
            Some(profile) => seq!["Bridge profile "@ + profile.label_spec()],
            None => Seq::empty(),
        };
        let logic: Seq<Seq<char>> = match a.logic_profile {
            Some(profile) => seq!["PLC profile "@ + profile.label_spec()],
            None => Seq::empty(),
        };
        assert(after_bridge =~= after_first + bridge);
        assert(after_logic =~= after_bridge + logic);
        assert(texts(lines@) =~= texts(old(lines)@) + hud_asset_lines(a));
    }
}

fn hud_head_lines(game: &GameState) -> (lines: Vec<String>)
    requires
        game.wf(),
    ensures
        texts(lines@) == seq![hud_tool_line(*game), hud_profile_line(*game), hud_services_line(*game)],
{
    proof {
        lemma_coverage_bounds(*game);
    }
    let mut tool = String::from_str("Active tool: ");
    tool.append(game.selected_tool.label());

    let mut profile = String::from_str("Bridge ");
    profile.append(game.bridge_profile.label());
    profile.append(" • PLC ");
    profile.append(game.logic_profile.label());
    profile.append(" • R&D ");
    if game.advanced_unlocked {
        profile.append("unlocked");
    } else {
        push_int(&mut profile, game.research_points as i64);
        profile.append("/3 points");
    }

    let total = game.coverage.total_demand;
    let mut services = String::from_str("Services ");
    push_decimal(&mut services, coverage_percent(game.coverage.powered, total) as u64);
    services.append("% power / ");
    push_decimal(&mut services, coverage_percent(game.coverage.watered, total) as u64);
    services.append("% water • ");
    push_decimal(&mut services, game.incidents.len() as u64);
    services.append(" alerts");
    assert(tool@ == hud_tool_line(*game));
    assert(profile@ == hud_profile_line(*game));
    assert(services@ == hud_services_line(*game));
    let mut lines: Vec<String> = Vec::new();
    push_line(&mut lines, tool);
    push_line(&mut lines, profile);
    push_line(&mut lines, services);
    assert(texts(lines@) =~= seq![hud_tool_line(*game), hud_profile_line(*game), hud_services_line(*game)]);
    lines
}

fn push_selection_lines(lines: &mut Vec<String>, game: &GameState, hovered: Option<GridPos>)
    requires
        game.wf(),
        hovered matches Some(p) ==> p.in_bounds_spec(),
    ensures
        texts(final(lines)@) == texts(old(lines)@) + hud_selection_lines(*game, hovered),
{
    match game.selected_tile {
        Some(p) => {
            push_line(lines, tile_line("Selected", game, p));
            let mut service = String::from_str("Powered ");
            service.append(yes_no(game.powered_at(p)));
            service.append(" • Watered ");
            service.append(yes_no(game.watered_at(p)));
            push_line(lines, service);
            let ghost two = texts(lines@);
            proof {
                lemma_tile_asset_index(*game, p);
            }
            match game.tile(p).asset {
                Some(a) => {
                    push_asset_lines(lines, &game.assets[a]);
                },
                None => {},
            }
            assert(texts(lines@) =~= texts(old(lines)@) + hud_selection_lines(*game, hovered));
        },
        None => match hovered {
            Some(p) => {
                push_line(lines, tile_line("Hover", game, p));
                assert(texts(lines@) =~= texts(old(lines)@) + hud_selection_lines(*game, hovered));
            },
            None => {
                assert(texts(lines@) =~= texts(old(lines)@) + hud_selection_lines(*game, hovered));
            },
        },
    }
}

fn push_perf_lines(
    lines: &mut Vec<String>,
    game: &GameState,
    settings: &GraphicsSettings,
    capability: RenderCapability,
    sidebar_collapsed: bool,
    fps: &str,
    frame_ms: &str,
)
    ensures
        texts(final(lines)@) == texts(old(lines)@) + hud_perf_lines(
            *game,
            *settings,
            capability,
            sidebar_collapsed,
            fps@,
            frame_ms@,
        ),
{
    if settings.show_telemetry && !sidebar_collapsed {
        let mut perf = String::from_str("Perf ");
        perf.append(fps);
        perf.append(" FPS • ");
        perf.append(frame_ms);
        perf.append(" ms • ");
        push_decimal(&mut perf, game.assets.len() as u64);
        perf.append(" assets");
        push_line(lines, perf);
        let mut tiers = String::from_str(settings.active_render_tier(capability).label());
        tiers.append(" • ");
        tiers.append(capability.label());
        tiers.append(" • ");
        tiers.append(settings.effective_mesh_detail(capability).label());
        push_line(lines, tiers);
    }
    assert(texts(lines@) =~= texts(old(lines)@) + hud_perf_lines(
        *game,
        *settings,
        capability,
        sidebar_collapsed,
        fps@,
        frame_ms@,
    ));
}

fn push_log_lines(lines: &mut Vec<String>, game: &GameState)
    ensures
        texts(final(lines)@) == texts(old(lines)@) + hud_log_lines(*game),
{
    if game.log.len() > 0 {
        push_line(lines, String::new());
        push_line(lines, String::from_str("Latest log"));
        let last = game.log.len() - 1;
        push_first_lines(lines, wrap_text(game.log[last].as_str(), HUD_WRAP_WIDTH), 3);
    }
    assert(texts(lines@) =~= texts(old(lines)@) + hud_log_lines(*game));
}

/// The text of the HUD panel. `fps` and `frame_ms` are the frame rate and
/// frame time as shown; they appear only with telemetry on an expanded
/// sidebar.
pub fn hud_panel_text(
    game: &GameState,
    hovered: Option<GridPos>,
    settings: &GraphicsSettings,
    capability: RenderCapability,
    sidebar_collapsed: bool,
    fps: &str,
    frame_ms: &str,
) -> (s: String)
    requires
        game.wf(),
        hovered matches Some(p) ==> p.in_bounds_spec(),
    ensures
        s@ == joined(
            hud_lines(*game, hovered, *settings, capability, sidebar_collapsed, fps@, frame_ms@),
        ),
{
    let mut lines = hud_head_lines(game);
    push_selection_lines(&mut lines, game, hovered);
    push_perf_lines(&mut lines, game, settings, capability, sidebar_collapsed, fps, frame_ms);
    push_log_lines(&mut lines, game);
    assert(texts(lines@) =~= hud_lines(
        *game,
        hovered,
        *settings,
        capability,
        sidebar_collapsed,
        fps@,
        frame_ms@,
    ));
    join_lines(&lines)
}

// ---------------------------------------------------------------------------
// The settings panel.

/// `s` padded with spaces on the right to at least `width` characters.
pub open spec fn pad_right(s: Seq<char>, width: int) -> Seq<char> {
    if s.len() >= width {
        s
    } else {
        s + Seq::new((width - s.len()) as nat, |i: int| ' ')
    }
}

/// Width the row names of the settings panel are padded to.
pub const SETTINGS_LABEL_WIDTH: usize = 10;

/// Width, in characters, the settings panel wraps its notes to.
pub const SETTINGS_WRAP_WIDTH: usize = 44;

/// A row of the settings panel: a cursor on the selected row, the padded
/// row name and the row's value.
pub open spec fn settings_row_line(
    row: SettingsMenuRow,
    selected: SettingsMenuRow,
    settings: GraphicsSettings,
    capability: RenderCapability,
) -> Seq<char> {
    (if row == selected {
        ">"@
    } else {
        " "@
    }) + " "@ + pad_right(row.label_spec(), SETTINGS_LABEL_WIDTH as int) + " "@
        + settings.row_value_spec(row, capability)
}

pub open spec fn settings_clamp_note() -> Seq<char> {
    "Auto and high tiers clamp to fallback on software-only machines."@
}

pub open spec fn settings_shipping_note() -> Seq<char> {
    "Use Shipping Low to target weaker real GPUs with the mesh renderer."@
}

/// The lines of the settings panel.
pub open spec fn settings_panel_lines(
    settings: GraphicsSettings,
    capability: RenderCapability,
    menu: SettingsMenuState,
) -> Seq<Seq<char>> {
    let selected = settings_row_at(menu.selected_row as int);
    seq![
        "CONFIG // F1 OR ESC CLOSE"@,
        "Hardware Capability: "@ + capability.label_spec(),
        "Active Render Tier: "@ + active_tier_spec(settings.render_tier, capability).label_spec(),
        Seq::empty(),
    ] + Seq::new(8, |i: int| settings_row_line(settings_row_at(i), selected, settings, capability))
        + seq![Seq::empty(), "Up/Down select | Left/Right adjust"@] + wrapped(
        settings_clamp_note(),
        SETTINGS_WRAP_WIDTH as int,
    ) + wrapped(settings_shipping_note(), SETTINGS_WRAP_WIDTH as int)
}

/// Appends `s` padded with spaces to at least `width` characters.
fn push_padded(out: &mut String, s: &str, width: usize)
    ensures
        final(out)@ == old(out)@ + pad_right(s@, width as int),
{
    out.append(s);
    let mut n = s.unicode_len();
    proof {
        reveal_strlit(" ");
    }
    if n >= width {
        return ;
    }
    let ghost start = n;
    while n < width
        invariant
            start == s@.len(),
            start <= n <= width,
            out@ == old(out)@ + s@ + Seq::new((n - start) as nat, |i: int| ' '),
        decreases width - n,
    {
        out.append(" ");
        proof {
            reveal_strlit(" ");
        }
        n = n + 1;
        assert(out@ =~= old(out)@ + s@ + Seq::new((n - start) as nat, |i: int| ' '));
    }
    assert(out@ =~= old(out)@ + pad_right(s@, width as int));
}

/// The text of the settings panel.
pub fn settings_panel_text(
    settings: &GraphicsSettings,
    capability: RenderCapability,
    menu: &SettingsMenuState,
) -> (s: String)
    requires
        menu.selected_row < 8,
    ensures
        s@ == joined(settings_panel_lines(*settings, capability, *menu)),
{
    let selected = menu.selected_row();
    let mut lines: Vec<String> = Vec::new();
    push_line(&mut lines, String::from_str("CONFIG // F1 OR ESC CLOSE"));
    let mut hardware = String::from_str("Hardware Capability: ");
    hardware.append(capability.label());
    push_line(&mut lines, hardware);
    let mut tier = String::from_str("Active Render Tier: ");
    tier.append(settings.active_render_tier(capability).label());
    push_line(&mut lines, tier);
    push_line(&mut lines, String::new());
    let ghost head = texts(lines@);
    let rows = SettingsMenuRow::ALL;
    let mut i: usize = 0;
    while i < 8
        invariant
            i <= 8,
            rows@ == SettingsMenuRow::ALL@,
            selected == settings_row_at(menu.selected_row as int),
            texts(lines@) == head + Seq::new(
                i as nat,
                |k: int| settings_row_line(settings_row_at(k), selected, *settings, capability),
            ),
        decreases 8 - i,
    {
        let row = rows[i];
        assert(row == settings_row_at(i as int));
        let mut line = String::from_str(if row == selected {
            ">"
        } else {
            " "
        });
        line.append(" ");
        push_padded(&mut line, row.label(), SETTINGS_LABEL_WIDTH);
        line.append(" ");
        let value = settings.row_value_label(row, capability);
        line.append(value.as_str());
        push_line(&mut lines, line);
        i = i + 1;
        assert(texts(lines@) =~= head + Seq::new(
            i as nat,
            |k: int| settings_row_line(settings_row_at(k), selected, *settings, capability),
        ));
    }
    push_line(&mut lines, String::new());
    push_line(&mut lines, String::from_str("Up/Down select | Left/Right adjust"));
    let ghost before_notes = texts(lines@);
    let clamp_note = wrap_text(
        "Auto and high tiers clamp to fallback on software-only machines.",
        SETTINGS_WRAP_WIDTH,
    );
    let shipping_note = wrap_text(
        "Use Shipping Low to target weaker real GPUs with the mesh renderer.",
        SETTINGS_WRAP_WIDTH,
    );
    let ghost clamp_texts = texts(clamp_note@);
    let ghost shipping_texts = texts(shipping_note@);
    let mut clamp_note = clamp_note;
    let mut shipping_note = shipping_note;
    lines.append(&mut clamp_note);
    lines.append(&mut shipping_note);
    assert(texts(lines@) =~= before_notes + clamp_texts + shipping_texts);
    assert(texts(lines@) =~= settings_panel_lines(*settings, capability, *menu));
    join_lines(&lines)
}

// ---------------------------------------------------------------------------
// The minimap.

/// What a minimap cell shows.
#[derive(Clone, Copy, PartialEq, Eq, Debug, Structural)]
pub enum MinimapShade {
    /// The selected tile.
    Selected,
    /// The hovered tile.
    Hovered,
    /// The tile's ground kind, as in the real view.
    Ground(TileKind),
    /// The river in the services view.
    ServiceRiver,
    /// Demand with power and water.
    Served,
    /// Demand with power only.
    PowerOnly,
    /// Demand with water only.
    WaterOnly,
    /// Demand with neither service.
    Unserved,
    /// Demand with power, in the electrical view.
    Energized,
    /// Demand with water, in the water view.
    WaterFed,
    /// Demand without the service of the electrical or water view.
    Unsupplied,
    /// A compliant asset, in the risk view.
    Compliant,
    /// A non-compliant asset, in the risk view.
    NonCompliant,
    /// Industry or a utility without an asset, in the risk view.
    IndustrialRisk,
    /// The control center without an asset, in the risk view.
    ControlRisk,
    /// Anything else in the risk view.
    LowRisk,
}

/// Whether `kind` is served ground (no service demand) for the service views.
pub open spec fn is_open_ground(kind: TileKind) -> bool {
    kind == TileKind::Road || kind == TileKind::River || kind == TileKind::Empty || kind
        == TileKind::Park
}

/// What the minimap cell of `pos` shows in `mode`: the selection and the
/// hovered tile first, then the mode's view of the tile.
pub open spec fn minimap_shade_spec(
    mode: MinimapMode,
    game: GameState,
    pos: GridPos,
    hovered: Option<GridPos>,
) -> MinimapShade {
    let t = tile_index(pos.x as int, pos.y as int);
    let tile = game.grid@[t];
    let powered = game.powered_tiles@[t];
    let watered = game.watered_tiles@[t];
    if game.selected_tile == Some(pos) {
        MinimapShade::Selected
    } else if hovered == Some(pos) {
        MinimapShade::Hovered
    } else {
        match mode {
            MinimapMode::Real => MinimapShade::Ground(tile.kind),
            MinimapMode::Services => if tile.kind == TileKind::River {
                MinimapShade::ServiceRiver
            } else if is_open_ground(tile.kind) {
                MinimapShade::Ground(tile.kind)
            } else if powered && watered {
                MinimapShade::Served
            } else if powered {
                MinimapShade::PowerOnly
            } else if watered {
                MinimapShade::WaterOnly
            } else {
                MinimapShade::Unserved
            },
            MinimapMode::Electrical => if is_open_ground(tile.kind) {
                MinimapShade::Ground(tile.kind)
            } else if powered {
                MinimapShade::Energized
            } else {
                MinimapShade::Unsupplied
            },
            MinimapMode::Water => if is_open_ground(tile.kind) {
                MinimapShade::Ground(tile.kind)
            } else if watered {
                MinimapShade::WaterFed
            } else {
                MinimapShade::Unsupplied
            },
            MinimapMode::Risk => match tile.asset {
                Some(a) => if game.assets@[a as int].compliant {
                    MinimapShade::Compliant
                } else {
                    MinimapShade::NonCompliant
                },
                None => if tile.kind == TileKind::Industrial || tile.kind == TileKind::Utility {
                    MinimapShade::IndustrialRisk
                } else if tile.kind == TileKind::ControlCenter {
                    MinimapShade::ControlRisk
                } else {
                    MinimapShade::LowRisk
                },
            },
        }
    }
}

fn same_pos(a: Option<GridPos>, p: GridPos) -> (b: bool)
    ensures
        b == (a == Some(p)),
{
    match a {
        Some(q) => q.x == p.x && q.y == p.y,
        None => false,
    }
}

/// What the minimap cell of `pos` shows in `mode`.
pub fn minimap_tile_shade(
    mode: MinimapMode,
    game: &GameState,
    pos: GridPos,
    hovered: Option<GridPos>,
) -> (shade: MinimapShade)
    requires
        game.wf(),
        pos.in_bounds_spec(),
    ensures
        shade == minimap_shade_spec(mode, *game, pos, hovered),
{
    if same_pos(game.selected_tile, pos) {
        return MinimapShade::Selected;
    }
    if same_pos(hovered, pos) {
        return MinimapShade::Hovered;
    }
    let tile = *game.tile(pos);
    let kind = tile.kind;
    let open_ground = kind == TileKind::Road || kind == TileKind::River || kind == TileKind::Empty
        || kind == TileKind::Park;
    match mode {
        MinimapMode::Real => MinimapShade::Ground(kind),
        MinimapMode::Services => {
            if kind == TileKind::River {
                MinimapShade::ServiceRiver
            } else if open_ground {
                MinimapShade::Ground(kind)
            } else {
                let powered = game.powered_at(pos);
                let watered = game.watered_at(pos);
                if powered && watered {
                    MinimapShade::Served
                } else if powered {
                    MinimapShade::PowerOnly
                } else if watered {
                    MinimapShade::WaterOnly
                } else {
                    MinimapShade::Unserved
                }
            }
        },
        MinimapMode::Electrical => {
            if open_ground {
                MinimapShade::Ground(kind)
            } else if game.powered_at(pos) {
                MinimapShade::Energized
            } else {
                MinimapShade::Unsupplied
            }
        },
        MinimapMode::Water => {
            if open_ground {
                MinimapShade::Ground(kind)
            } else if game.watered_at(pos) {
                MinimapShade::WaterFed
            } else {
                MinimapShade::Unsupplied
            }
        },
        MinimapMode::Risk => {
            proof {
                lemma_tile_asset_index(*game, pos);
            }
            match tile.asset {
                Some(a) => {
                    if game.assets[a].compliant {
                        MinimapShade::Compliant
                    } else {
                        MinimapShade::NonCompliant
                    }
                },
                None => {
                    if kind == TileKind::Industrial || kind == TileKind::Utility {
                        MinimapShade::IndustrialRisk
                    } else if kind == TileKind::ControlCenter {
                        MinimapShade::ControlRisk
                    } else {
                        MinimapShade::LowRisk
                    }
                },
            }
        },
    }
}

// ---------------------------------------------------------------------------
// The help text of the sidebar.

/// The command that starts the game on the software renderer.
pub open spec fn software_launch_command() -> Seq<char> {
    "SMARTCITY_FORCE_SOFTWARE_RENDERER=1 cargo run"@
}

/// The fixed lines on mouse and keyboard controls.
pub open spec fn help_control_lines() -> Seq<Seq<char>> {
    seq![
        "Mouse"@,
        "Click time to pause."@,
        "Click speed to cycle."@,
        "Wheel zoom | MMB pan"@,
        "RMB orbit + tilt"@,
        "Click alerts for details."@,
        "Scroll this rail."@,
        Seq::empty(),
        "Keys"@,
        "F1 settings | Tab rail"@,
        "F2/F3/F4 camera presets"@,
        "WASD/arrows move"@,
        "Q/E rotate"@,
        "Z/X or PgUp/PgDn zoom"@,
        "1-6 tools | Esc inspect"@,
    ]
}

/// The lines on how to launch the game, the software renderer first on a
/// machine that needs it.
pub open spec fn help_launch_lines(capability: RenderCapability) -> Seq<Seq<char>> {
    let command = wrapped(software_launch_command(), HUD_WRAP_WIDTH as int);
    if capability.software_fallback {
        seq!["Launch this laptop:"@] + command + seq![Seq::empty(), "GPU desktop: cargo run"@]
    } else {
        seq!["Launch: cargo run"@, Seq::empty(), "Old laptop fallback:"@] + command
    }
}

/// The lines of the sidebar help.
pub open spec fn sidebar_help_lines(
    catalog: AssetCatalog,
    settings: GraphicsSettings,
    capability: RenderCapability,
) -> Seq<Seq<char>> {
    seq!["Mode: "@ + active_tier_spec(settings.render_tier, capability).label_spec(), Seq::empty()]
        + help_control_lines() + seq![Seq::empty(), catalog.summary_view(), Seq::empty()]
        + help_launch_lines(capability)
}

fn push_control_lines(lines: &mut Vec<String>)
    ensures
        texts(final(lines)@) == texts(old(lines)@) + help_control_lines(),
{
    push_line(lines, String::from_str("Mouse"));
    push_line(lines, String::from_str("Click time to pause."));
    push_line(lines, String::from_str("Click speed to cycle."));
    push_line(lines, String::from_str("Wheel zoom | MMB pan"));
    push_line(lines, String::from_str("RMB orbit + tilt"));
    push_line(lines, String::from_str("Click alerts for details."));
    push_line(lines, String::from_str("Scroll this rail."));
    push_line(lines, String::new());
    push_line(lines, String::from_str("Keys"));
    push_line(lines, String::from_str("F1 settings | Tab rail"));
    push_line(lines, String::from_str("F2/F3/F4 camera presets"));
    push_line(lines, String::from_str("WASD/arrows move"));
    push_line(lines, String::from_str("Q/E rotate"));
    push_line(lines, String::from_str("Z/X or PgUp/PgDn zoom"));
    push_line(lines, String::from_str("1-6 tools | Esc inspect"));
    assert(texts(lines@) =~= texts(old(lines)@) + help_control_lines());
}

fn push_launch_lines(lines: &mut Vec<String>, capability: RenderCapability)
    ensures
        texts(final(lines)@) == texts(old(lines)@) + help_launch_lines(capability),
{
    let command = wrap_text("SMARTCITY_FORCE_SOFTWARE_RENDERER=1 cargo run", HUD_WRAP_WIDTH);
    let ghost command_texts = texts(command@);
    let mut command = command;
    if capability.software_fallback {
        push_line(lines, String::from_str("Launch this laptop:"));
        let ghost before = texts(lines@);
        lines.append(&mut command);
        assert(texts(lines@) =~= before + command_texts);
        push_line(lines, String::new());
        push_line(lines, String::from_str("GPU desktop: cargo run"));
    } else {
        push_line(lines, String::from_str("Launch: cargo run"));
        push_line(lines, String::new());
        push_line(lines, String::from_str("Old laptop fallback:"));
        let ghost before = texts(lines@);
        lines.append(&mut command);
        assert(texts(lines@) =~= before + command_texts);
    }
    assert(texts(lines@) =~= texts(old(lines)@) + help_launch_lines(capability));
}

/// The help text of the sidebar: the render mode, the controls, the
/// catalog summary and how to launch the game.
pub fn sidebar_help_text(
    catalog: &AssetCatalog,
    settings: &GraphicsSettings,
    capability: RenderCapability,
) -> (s: String)
    ensures
        s@ == joined(sidebar_help_lines(*catalog, *settings, capability)),
{
    let mut lines: Vec<String> = Vec::new();
    let mut mode = String::from_str("Mode: ");
    mode.append(settings.active_render_tier(capability).label());
    push_line(&mut lines, mode);
    push_line(&mut lines, String::new());
    let ghost head = texts(lines@);
    push_control_lines(&mut lines);
    let ghost controls = texts(lines@);
    push_line(&mut lines, String::new());
    push_line(&mut lines, catalog.summary_line());
    push_line(&mut lines, String::new());
    let ghost summary = texts(lines@);
    push_launch_lines(&mut lines, capability);
    assert(summary =~= controls + seq![Seq::empty(), catalog.summary_view(), Seq::empty()]);
    assert(texts(lines@) =~= sidebar_help_lines(*catalog, *settings, capability));
    join_lines(&lines)
}

// ---------------------------------------------------------------------------
// Keeping the 3D scene in step with the game.

/// Whether the hover and selection markers are drawn: they are switched on
/// and the renderer is not the fallback debug view.
pub open spec fn markers_shown_spec(settings: GraphicsSettings, capability: RenderCapability) -> bool {
    settings.show_markers && active_tier_spec(settings.render_tier, capability)
        != ActiveRenderTier::FallbackDebug
}

/// Whether the hover and selection markers are drawn.
pub fn markers_shown(settings: &GraphicsSettings, capability: RenderCapability) -> (b: bool)
    ensures
        b == markers_shown_spec(*settings, capability),
{
    settings.show_markers && settings.active_render_tier(capability) != ActiveRenderTier::FallbackDebug
}

impl SceneSyncState {
    /// Whether the city visuals must be rebuilt: the game changed since the
    /// last rebuild, or the graphics settings did.
    pub fn needs_rebuild(&self, game: &GameState, settings_changed: bool) -> (b: bool)
        ensures
            b == (self.rendered_visual_revision != game.visual_revision || settings_changed),
    {
        self.rendered_visual_revision != game.visual_revision() || settings_changed
    }

    /// Records that the visuals now show the game's current revision.
    pub fn mark_rendered(&mut self, game: &GameState)
        ensures
            final(self).rendered_visual_revision == game.visual_revision,
    {
        self.rendered_visual_revision = game.visual_revision();
    }
}

} // verus!
