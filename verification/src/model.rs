use vstd::prelude::*;

use crate::grid::GridPos;

verus! {

/// What occupies a tile of the city grid.
#[derive(Clone, Copy, PartialEq, Eq, Debug, Structural)]
pub enum TileKind {
    Empty,
    Road,
    Building,
    Industrial,
    ControlCenter,
    River,
    Park,
    Utility,
}

impl TileKind {
    pub open spec fn debug_name_spec(self) -> Seq<char> {
        match self {
            TileKind::Empty => "Empty"@,
            TileKind::Road => "Road"@,
            TileKind::Building => "Building"@,
            TileKind::Industrial => "Industrial"@,
            TileKind::ControlCenter => "ControlCenter"@,
            TileKind::River => "River"@,
            TileKind::Park => "Park"@,
            TileKind::Utility => "Utility"@,
        }
    }

    /// The variant name, as the HUD prints it.
    pub fn debug_name(self) -> (s: &'static str)
        ensures
            s@ == self.debug_name_spec(),
    {
        match self {
            TileKind::Empty => "Empty",
            TileKind::Road => "Road",
            TileKind::Building => "Building",
            TileKind::Industrial => "Industrial",
            TileKind::ControlCenter => "ControlCenter",
            TileKind::River => "River",
            TileKind::Park => "Park",
            TileKind::Utility => "Utility",
        }
    }
}

/// The kinds of infrastructure a player can build.
#[derive(Clone, Copy, PartialEq, Eq, Debug, Structural)]
pub enum AssetKind {
    Bridge,
    Sensor,
    Plc,
    Gateway,
    Substation,
    PumpStation,
}

impl AssetKind {
    pub open spec fn debug_name_spec(self) -> Seq<char> {
        match self {
            AssetKind::Bridge => "Bridge"@,
            AssetKind::Sensor => "Sensor"@,
            AssetKind::Plc => "Plc"@,
            AssetKind::Gateway => "Gateway"@,
            AssetKind::Substation => "Substation"@,
            AssetKind::PumpStation => "PumpStation"@,
        }
    }

    /// The variant name, as the game log prints it.
    pub fn debug_name(self) -> (s: &'static str)
        ensures
            s@ == self.debug_name_spec(),
    {
        match self {
            AssetKind::Bridge => "Bridge",
            AssetKind::Sensor => "Sensor",
            AssetKind::Plc => "Plc",
            AssetKind::Gateway => "Gateway",
            AssetKind::Substation => "Substation",
            AssetKind::PumpStation => "PumpStation",
        }
    }
}

/// The build tools of the action rail.
#[derive(Clone, Copy, PartialEq, Eq, Debug, Structural)]
pub enum Tool {
    Inspect,
    Bridge,
    Sensor,
    Plc,
    Gateway,
    Substation,
    PumpStation,
}

impl Tool {
    pub open spec fn label_spec(self) -> Seq<char> {
        match self {
            Tool::Inspect => "Inspect"@,
            Tool::Bridge => "Bridge"@,
            Tool::Sensor => "Sensor"@,
            Tool::Plc => "PLC"@,
            Tool::Gateway => "Gateway"@,
            Tool::Substation => "Substation"@,
            Tool::PumpStation => "Pump"@,
        }
    }

    /// Display name of the tool.
    pub fn label(self) -> (s: &'static str)
        ensures
            s@ == self.label_spec(),
    {
        match self {
            Tool::Inspect => "Inspect",
            Tool::Bridge => "Bridge",
            Tool::Sensor => "Sensor",
            Tool::Plc => "PLC",
            Tool::Gateway => "Gateway",
            Tool::Substation => "Substation",
            Tool::PumpStation => "Pump",
        }
    }

    pub open spec fn asset_kind_spec(self) -> Option<AssetKind> {
        match self {
            Tool::Inspect => None,
            Tool::Bridge => Some(AssetKind::Bridge),
            Tool::Sensor => Some(AssetKind::Sensor),
            Tool::Plc => Some(AssetKind::Plc),
            Tool::Gateway => Some(AssetKind::Gateway),
            Tool::Substation => Some(AssetKind::Substation),
            Tool::PumpStation => Some(AssetKind::PumpStation),
        }
    }

    /// The asset a tool builds; the inspect tool builds nothing.
    pub fn asset_kind(self) -> (k: Option<AssetKind>)
        ensures
            k == self.asset_kind_spec(),
    {
        match self {
            Tool::Inspect => None,
            Tool::Bridge => Some(AssetKind::Bridge),
            Tool::Sensor => Some(AssetKind::Sensor),
            Tool::Plc => Some(AssetKind::Plc),
            Tool::Gateway => Some(AssetKind::Gateway),
            Tool::Substation => Some(AssetKind::Substation),
            Tool::PumpStation => Some(AssetKind::PumpStation),
        }
    }
}

/// Build profile used for new bridges.
#[derive(Clone, Copy, PartialEq, Eq, Debug, Structural)]
pub enum BridgeProfile {
    Standard,
    Heavy,
    Cheap,
}

impl BridgeProfile {
    pub open spec fn label_spec(self) -> Seq<char> {
        match self {
            BridgeProfile::Standard => "Standard"@,
            BridgeProfile::Heavy => "Heavy"@,
            BridgeProfile::Cheap => "Cheap"@,
        }
    }

    pub fn label(self) -> (s: &'static str)
        ensures
            s@ == self.label_spec(),
    {
        match self {
            BridgeProfile::Standard => "Standard",
            BridgeProfile::Heavy => "Heavy",
            BridgeProfile::Cheap => "Cheap",
        }
    }

    pub open spec fn next_spec(self) -> BridgeProfile {
        match self {
            BridgeProfile::Standard => BridgeProfile::Heavy,
            BridgeProfile::Heavy => BridgeProfile::Cheap,
            BridgeProfile::Cheap => BridgeProfile::Standard,
        }
    }

    /// The profile that follows in the cycle Standard, Heavy, Cheap.
    pub fn next(self) -> (n: BridgeProfile)
        ensures
            n == self.next_spec(),
    {
        match self {
            BridgeProfile::Standard => BridgeProfile::Heavy,
            BridgeProfile::Heavy => BridgeProfile::Cheap,
            BridgeProfile::Cheap => BridgeProfile::Standard,
        }
    }
}

/// Control logic used for new PLC cabinets.
#[derive(Clone, Copy, PartialEq, Eq, Debug, Structural)]
pub enum LogicProfile {
    Manual,
    Timed,
    Responsive,
}

impl LogicProfile {
    pub open spec fn label_spec(self) -> Seq<char> {
        match self {
            LogicProfile::Manual => "Manual"@,
            LogicProfile::Timed => "Timed"@,
            LogicProfile::Responsive => "Responsive"@,
        }
    }

    pub fn label(self) -> (s: &'static str)
        ensures
            s@ == self.label_spec(),
    {
        match self {
            LogicProfile::Manual => "Manual",
            LogicProfile::Timed => "Timed",
            LogicProfile::Responsive => "Responsive",
        }
    }

    pub open spec fn next_spec(self) -> LogicProfile {
        match self {
            LogicProfile::Manual => LogicProfile::Timed,
            LogicProfile::Timed => LogicProfile::Responsive,
            LogicProfile::Responsive => LogicProfile::Manual,
        }
    }

    /// The profile that follows in the cycle Manual, Timed, Responsive.
    pub fn next(self) -> (n: LogicProfile)
        ensures
            n == self.next_spec(),
    {
        match self {
            LogicProfile::Manual => LogicProfile::Timed,
            LogicProfile::Timed => LogicProfile::Responsive,
            LogicProfile::Responsive => LogicProfile::Manual,
        }
    }
}

/// Network zone an asset is attached to.
#[derive(Clone, Copy, PartialEq, Eq, Debug, Structural)]
pub enum ZoneKind {
    Corporate,
    Municipal,
    OT,
}

impl ZoneKind {
    pub open spec fn debug_name_spec(self) -> Seq<char> {
        match self {
            ZoneKind::Corporate => "Corporate"@,
            ZoneKind::Municipal => "Municipal"@,
            ZoneKind::OT => "OT"@,
        }
    }

    /// The variant name, as the HUD prints it.
    pub fn debug_name(self) -> (s: &'static str)
        ensures
            s@ == self.debug_name_spec(),
    {
        match self {
            ZoneKind::Corporate => "Corporate",
            ZoneKind::Municipal => "Municipal",
            ZoneKind::OT => "OT",
        }
    }
}

/// The kinds of incident the daily review can raise.
#[derive(Clone, Copy, PartialEq, Eq, Debug, Structural)]
pub enum IncidentKind {
    Brownout,
    LowPressure,
    BridgeStress,
    OtIntrusion,
}

/// A built piece of infrastructure.
#[derive(Clone, Debug)]
pub struct Asset {
    pub kind: AssetKind,
    pub pos: GridPos,
    pub compliant: bool,
    pub note: String,
    pub bridge_profile: Option<BridgeProfile>,
    pub logic_profile: Option<LogicProfile>,
    pub zone: ZoneKind,
}

/// One cell of the city grid: its ground kind and the index of the asset
/// built on it, if any.
#[derive(Clone, Copy, Debug)]
pub struct Tile {
    pub kind: TileKind,
    pub asset: Option<usize>,
}

impl Tile {
    /// An empty tile with no asset.
    pub fn empty() -> (t: Tile)
        ensures
            t.kind == TileKind::Empty,
            t.asset is None,
    {
        Tile { kind: TileKind::Empty, asset: None }
    }
}

/// The four city ratings, each kept within 0..=100 by the simulation.
#[derive(Clone, Copy, Debug)]
pub struct CityScore {
    pub smartness: i32,
    pub engineering: i32,
    pub ot_security: i32,
    pub citizen_trust: i32,
}

impl CityScore {
    /// The ratings of a freshly generated city.
    pub fn baseline() -> (s: CityScore)
        ensures
            s.smartness == 18,
            s.engineering == 58,
            s.ot_security == 42,
            s.citizen_trust == 56,
    {
        CityScore { smartness: 18, engineering: 58, ot_security: 42, citizen_trust: 56 }
    }
}

/// Service coverage totals over the demand tiles of the grid.
#[derive(Clone, Copy, Debug)]
pub struct Coverage {
    pub powered: i32,
    pub watered: i32,
    pub total_demand: i32,
}

impl Coverage {
    /// No coverage and no demand.
    pub fn empty() -> (c: Coverage)
        ensures
            c.powered == 0,
            c.watered == 0,
            c.total_demand == 0,
    {
        Coverage { powered: 0, watered: 0, total_demand: 0 }
    }
}

/// An active incident; `ttl` counts the simulated hours it stays active.
#[derive(Clone, Debug)]
pub struct Incident {
    pub kind: IncidentKind,
    pub ttl: u32,
    pub note: String,
}

} // verus!
