use vstd::prelude::*;

use crate::grid::GridPos;
use crate::model::Tool;
use crate::text::{decimal, push_decimal};

verus! {

/// The layer the minimap shows.
#[derive(Clone, Copy, PartialEq, Eq, Debug, Structural)]
pub enum MinimapMode {
    Real,
    Services,
    Electrical,
    Water,
    Risk,
}

impl Default for MinimapMode {
    /// The minimap starts on the real view.
    fn default() -> (m: MinimapMode)
        ensures
            m == MinimapMode::Real,
    {
        MinimapMode::Real
    }
}

impl MinimapMode {
    /// Every mode, in the order of the minimap buttons.
    pub const ALL: [MinimapMode; 5] = [
        MinimapMode::Real,
        MinimapMode::Services,
        MinimapMode::Electrical,
        MinimapMode::Water,
        MinimapMode::Risk,
    ];

    pub open spec fn label_spec(self) -> Seq<char> {
        match self {
            MinimapMode::Real => "Real View"@,
            MinimapMode::Services => "Services Coverage"@,
            MinimapMode::Electrical => "Electrical"@,
            MinimapMode::Water => "Water"@,
            MinimapMode::Risk => "Risk"@,
        }
    }

    /// The mode's name in the minimap legend.
    pub fn label(self) -> (s: &'static str)
        ensures
            s@ == self.label_spec(),
    {
        match self {
            MinimapMode::Real => "Real View",
            MinimapMode::Services => "Services Coverage",
            MinimapMode::Electrical => "Electrical",
            MinimapMode::Water => "Water",
            MinimapMode::Risk => "Risk",
        }
    }

    pub open spec fn short_label_spec(self) -> Seq<char> {
        match self {
            MinimapMode::Real => "REAL"@,
            MinimapMode::Services => "SERV"@,
            MinimapMode::Electrical => "ELEC"@,
            MinimapMode::Water => "H2O"@,
            MinimapMode::Risk => "RISK"@,
        }
    }

    /// The mode's name on its minimap button.
    pub fn short_label(self) -> (s: &'static str)
        ensures
            s@ == self.short_label_spec(),
    {
        match self {
            MinimapMode::Real => "REAL",
            MinimapMode::Services => "SERV",
            MinimapMode::Electrical => "ELEC",
            MinimapMode::Water => "H2O",
            MinimapMode::Risk => "RISK",
        }
    }
}

/// A camera framing chosen with F2, F3 or F4.
#[derive(Clone, Copy, PartialEq, Eq, Debug, Structural)]
pub enum CameraPreset {
    Strategic,
    CityView,
    Cinematic,
}

impl Default for CameraPreset {
    /// The camera starts on the strategic framing.
    fn default() -> (p: CameraPreset)
        ensures
            p == CameraPreset::Strategic,
    {
        CameraPreset::Strategic
    }
}

impl CameraPreset {
    pub open spec fn label_spec(self) -> Seq<char> {
        match self {
            CameraPreset::Strategic => "Strategic"@,
            CameraPreset::CityView => "City View"@,
            CameraPreset::Cinematic => "Cinematic"@,
        }
    }

    /// The preset's name.
    pub fn label(self) -> (s: &'static str)
        ensures
            s@ == self.label_spec(),
    {
        match self {
            CameraPreset::Strategic => "Strategic",
            CameraPreset::CityView => "City View",
            CameraPreset::Cinematic => "Cinematic",
        }
    }
}

/// Number of simulation speeds.
pub const SPEED_COUNT: usize = 4;

/// The simulation speed at step `i`: 1x, 2x, 4x, 8x.
pub open spec fn speed_at(i: int) -> nat {
    if i == 0 {
        1
    } else if i == 1 {
        2
    } else if i == 2 {
        4
    } else {
        8
    }
}

/// The speed as shown to the player, e.g. `4x` or `Paused @ 2x`.
pub open spec fn speed_label_spec(paused: bool, step: int) -> Seq<char> {
    if paused {
        "Paused @ "@ + decimal(speed_at(step)) + "x"@
    } else {
        decimal(speed_at(step)) + "x"@
    }
}

/// Pause flag and simulation speed of the clock.
pub struct TimeControl {
    paused: bool,
    speed_index: usize,
}

impl Default for TimeControl {
    /// A running clock at 1x.
    fn default() -> (t: TimeControl)
        ensures
            !t.is_paused(),
            t.speed_step() == 0,
    {
        TimeControl { paused: false, speed_index: 0 }
    }
}

impl TimeControl {
    /// The speed step always names one of the four speeds.
    #[verifier::type_invariant]
    spec fn speed_in_range(self) -> bool {
        self.speed_index < SPEED_COUNT
    }

    /// Whether the simulation is paused.
    pub closed spec fn is_paused(self) -> bool {
        self.paused
    }

    /// Which of the four speeds is selected, `0..4`.
    pub closed spec fn speed_step(self) -> int {
        self.speed_index as int
    }

    const SPEEDS: [u32; 4] = [1, 2, 4, 8];

    /// Pauses a running clock or resumes a paused one.
    pub fn toggle_pause(&mut self)
        ensures
            final(self).is_paused() == !old(self).is_paused(),
            final(self).speed_step() == old(self).speed_step(),
    {
        proof {
            use_type_invariant(&*self);
        }
        self.paused = !self.paused;
    }

    /// One speed slower, staying at 1x.
    pub fn slower(&mut self)
        ensures
            final(self).is_paused() == old(self).is_paused(),
            final(self).speed_step() == if old(self).speed_step() > 0 {
                old(self).speed_step() - 1
            } else {
                old(self).speed_step()
            },
    {
        proof {
            use_type_invariant(&*self);
        }
        if self.speed_index > 0 {
            self.speed_index = self.speed_index - 1;
        }
    }

    /// One speed faster, staying at 8x.
    pub fn faster(&mut self)
        ensures
            final(self).is_paused() == old(self).is_paused(),
            final(self).speed_step() == if old(self).speed_step() + 1 < SPEED_COUNT {
                old(self).speed_step() + 1
            } else {
                old(self).speed_step()
            },
    {
        proof {
            use_type_invariant(&*self);
        }
        if self.speed_index + 1 < SPEED_COUNT {
            self.speed_index = self.speed_index + 1;
        }
    }

    /// The next speed, wrapping from 8x back to 1x.
    pub fn cycle_speed(&mut self)
        ensures
            final(self).is_paused() == old(self).is_paused(),
            final(self).speed_step() == (old(self).speed_step() + 1) % (SPEED_COUNT as int),
    {
        proof {
            use_type_invariant(&*self);
        }
        self.speed_index = (self.speed_index + 1) % SPEED_COUNT;
    }

    /// Whether the simulation is paused.
    pub fn paused(&self) -> (b: bool)
        ensures
            b == self.is_paused(),
    {
        self.paused
    }

    /// The selected speed as a whole multiple of real time: 1, 2, 4 or 8.
    pub fn speed_multiplier(&self) -> (m: u32)
        ensures
            0 <= self.speed_step() < SPEED_COUNT,
            m == speed_at(self.speed_step()),
    {
        proof {
            use_type_invariant(self);
        }
        Self::SPEEDS[self.speed_index]
    }

    /// The speed as shown to the player, e.g. `4x` or `Paused @ 2x`.
    pub fn speed_label(&self) -> (s: String)
        ensures
            0 <= self.speed_step() < SPEED_COUNT,
            s@ == speed_label_spec(self.is_paused(), self.speed_step()),
    {
        let speed = self.speed_multiplier();
        let mut s = if self.paused {
            String::from_str("Paused @ ")
        } else {
            String::new()
        };
        push_decimal(&mut s, speed as u64);
        s.append("x");
        s
    }
}

/// The tile under the cursor, if any.
#[derive(Clone, Copy, Debug)]
pub struct HoverState {
    pub hovered_tile: Option<GridPos>,
}

impl Default for HoverState {
    /// No tile hovered.
    fn default() -> (h: HoverState)
        ensures
            h.hovered_tile is None,
    {
        HoverState { hovered_tile: None }
    }
}

/// The visual revision the scene was last rebuilt for.
#[derive(Clone, Copy, Debug)]
pub struct SceneSyncState {
    pub rendered_visual_revision: u64,
}

impl Default for SceneSyncState {
    /// Nothing rendered yet.
    fn default() -> (s: SceneSyncState)
        ensures
            s.rendered_visual_revision == 0,
    {
        SceneSyncState { rendered_visual_revision: 0 }
    }
}

/// Whether the action sidebar is collapsed to its icon rail.
#[derive(Clone, Copy, Debug)]
pub struct ActionSidebarState {
    pub collapsed: bool,
}

impl Default for ActionSidebarState {
    /// An expanded sidebar.
    fn default() -> (s: ActionSidebarState)
        ensures
            !s.collapsed,
    {
        ActionSidebarState { collapsed: false }
    }
}

/// The incident whose details panel is open, if any.
#[derive(Clone, Copy, Debug)]
pub struct EventModalState {
    pub selected_incident: Option<usize>,
}

impl Default for EventModalState {
    /// No details panel open.
    fn default() -> (s: EventModalState)
        ensures
            s.selected_incident is None,
    {
        EventModalState { selected_incident: None }
    }
}

/// What a button of the action sidebar does.
#[derive(Clone, Copy, PartialEq, Eq, Debug, Structural)]
pub enum ActionRailAction {
    Tool(Tool),
    Regenerate,
    CycleBridgeProfile,
    CycleLogicProfile,
    SpendResearch,
}

impl ActionRailAction {
    /// The tool buttons, in sidebar order.
    pub fn tools() -> (a: [ActionRailAction; 7])
        ensures
            a@ == seq![
                ActionRailAction::Tool(Tool::Inspect),
                ActionRailAction::Tool(Tool::Bridge),
                ActionRailAction::Tool(Tool::Sensor),
                ActionRailAction::Tool(Tool::Plc),
                ActionRailAction::Tool(Tool::Gateway),
                ActionRailAction::Tool(Tool::Substation),
                ActionRailAction::Tool(Tool::PumpStation),
            ],
    {
        [
            ActionRailAction::Tool(Tool::Inspect),
            ActionRailAction::Tool(Tool::Bridge),
            ActionRailAction::Tool(Tool::Sensor),
            ActionRailAction::Tool(Tool::Plc),
            ActionRailAction::Tool(Tool::Gateway),
            ActionRailAction::Tool(Tool::Substation),
            ActionRailAction::Tool(Tool::PumpStation),
        ]
    }

    /// The system buttons, in sidebar order.
    pub const SYSTEMS: [ActionRailAction; 4] = [
        ActionRailAction::Regenerate,
        ActionRailAction::CycleBridgeProfile,
        ActionRailAction::CycleLogicProfile,
        ActionRailAction::SpendResearch,
    ];
}

} // verus!
