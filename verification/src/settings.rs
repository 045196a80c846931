use vstd::prelude::*;

use crate::text::{concat_str, str_equal};

verus! {

/// What the machine can render: a software-only renderer forces the
/// fallback tier.
#[derive(Clone, Copy, Debug)]
pub struct RenderCapability {
    pub software_fallback: bool,
}

/// An environment flag counts as set for `1`, `true`, `TRUE`, `yes` or `YES`.
pub open spec fn flag_enabled_spec(value: Option<Seq<char>>) -> bool {
    match value {
        Some(v) => v == "1"@ || v == "true"@ || v == "TRUE"@ || v == "yes"@ || v == "YES"@,
        None => false,
    }
}

pub open spec fn opt_view(value: Option<&str>) -> Option<Seq<char>> {
    match value {
        Some(v) => Some(v@),
        None => None,
    }
}

/// Whether the value of an environment flag switches it on; `None` stands
/// for an unset (or unreadable) variable.
pub fn flag_enabled(value: Option<&str>) -> (b: bool)
    ensures
        b == flag_enabled_spec(opt_view(value)),
{
    match value {
        Some(v) => str_equal(v, "1") || str_equal(v, "true") || str_equal(v, "TRUE") || str_equal(
            v,
            "yes",
        ) || str_equal(v, "YES"),
        None => false,
    }
}

impl RenderCapability {
    /// The capability implied by the values of `SMARTCITY_FORCE_SOFTWARE_RENDERER`
    /// and `WGPU_FORCE_FALLBACK_ADAPTER`: either flag forces software fallback.
    pub fn from_env_values(force_software: Option<&str>, force_fallback_adapter: Option<&str>) -> (c: RenderCapability)
        ensures
            c.software_fallback == (flag_enabled_spec(opt_view(force_software)) || flag_enabled_spec(
                opt_view(force_fallback_adapter),
            )),
    {
        RenderCapability {
            software_fallback: flag_enabled(force_software) || flag_enabled(force_fallback_adapter),
        }
    }

    pub open spec fn label_spec(self) -> Seq<char> {
        if self.software_fallback {
            "Software Fallback"@
        } else {
            "GPU Native"@
        }
    }

    pub fn label(self) -> (s: &'static str)
        ensures
            s@ == self.label_spec(),
    {
        if self.software_fallback {
            "Software Fallback"
        } else {
            "GPU Native"
        }
    }
}

/// A bundle of graphics settings; `Custom` marks hand-tuned settings.
#[derive(Clone, Copy, PartialEq, Eq, Debug, Structural)]
pub enum GraphicsPreset {
    Low,
    Balanced,
    High,
    Custom,
}

impl GraphicsPreset {
    pub open spec fn label_spec(self) -> Seq<char> {
        match self {
            GraphicsPreset::Low => "Low"@,
            GraphicsPreset::Balanced => "Balanced"@,
            GraphicsPreset::High => "High"@,
            GraphicsPreset::Custom => "Custom"@,
        }
    }

    pub fn label(self) -> (s: &'static str)
        ensures
            s@ == self.label_spec(),
    {
        match self {
            GraphicsPreset::Low => "Low",
            GraphicsPreset::Balanced => "Balanced",
            GraphicsPreset::High => "High",
            GraphicsPreset::Custom => "Custom",
        }
    }

    pub open spec fn next_selectable_spec(self) -> GraphicsPreset {
        match self {
            GraphicsPreset::Low => GraphicsPreset::Balanced,
            GraphicsPreset::Balanced => GraphicsPreset::High,
            GraphicsPreset::High => GraphicsPreset::Low,
            GraphicsPreset::Custom => GraphicsPreset::Low,
        }
    }

    /// The next preset a player can pick (Custom is never picked).
    pub fn next_selectable(self) -> (p: GraphicsPreset)
        ensures
            p == self.next_selectable_spec(),
    {
        match self {
            GraphicsPreset::Low => GraphicsPreset::Balanced,
            GraphicsPreset::Balanced => GraphicsPreset::High,
            GraphicsPreset::High => GraphicsPreset::Low,
            GraphicsPreset::Custom => GraphicsPreset::Low,
        }
    }

    pub open spec fn prev_selectable_spec(self) -> GraphicsPreset {
        match self {
            GraphicsPreset::Low => GraphicsPreset::High,
            GraphicsPreset::Balanced => GraphicsPreset::Low,
            GraphicsPreset::High => GraphicsPreset::Balanced,
            GraphicsPreset::Custom => GraphicsPreset::High,
        }
    }

    /// The previous preset a player can pick (Custom is never picked).
    pub fn prev_selectable(self) -> (p: GraphicsPreset)
        ensures
            p == self.prev_selectable_spec(),
    {
        match self {
            GraphicsPreset::Low => GraphicsPreset::High,
            GraphicsPreset::Balanced => GraphicsPreset::Low,
            GraphicsPreset::High => GraphicsPreset::Balanced,
            GraphicsPreset::Custom => GraphicsPreset::High,
        }
    }
}

/// The renderer the player asks for.
#[derive(Clone, Copy, PartialEq, Eq, Debug, Structural)]
pub enum RenderTierChoice {
    Auto,
    FallbackDebug,
    ShippingLow,
    Full3d,
}

impl RenderTierChoice {
    pub open spec fn label_spec(self) -> Seq<char> {
        match self {
            RenderTierChoice::Auto => "Auto"@,
            RenderTierChoice::FallbackDebug => "Fallback Debug"@,
            RenderTierChoice::ShippingLow => "Shipping Low"@,
            RenderTierChoice::Full3d => "Full 3D"@,
        }
    }

    pub fn label(self) -> (s: &'static str)
        ensures
            s@ == self.label_spec(),
    {
        match self {
            RenderTierChoice::Auto => "Auto",
            RenderTierChoice::FallbackDebug => "Fallback Debug",
            RenderTierChoice::ShippingLow => "Shipping Low",
            RenderTierChoice::Full3d => "Full 3D",
        }
    }

    pub open spec fn next_spec(self) -> RenderTierChoice {
        match self {
            RenderTierChoice::Auto => RenderTierChoice::FallbackDebug,
            RenderTierChoice::FallbackDebug => RenderTierChoice::ShippingLow,
            RenderTierChoice::ShippingLow => RenderTierChoice::Full3d,
            RenderTierChoice::Full3d => RenderTierChoice::Auto,
        }
    }

    pub fn next(self) -> (c: RenderTierChoice)
        ensures
            c == self.next_spec(),
    {
        match self {
            RenderTierChoice::Auto => RenderTierChoice::FallbackDebug,
            RenderTierChoice::FallbackDebug => RenderTierChoice::ShippingLow,
            RenderTierChoice::ShippingLow => RenderTierChoice::Full3d,
            RenderTierChoice::Full3d => RenderTierChoice::Auto,
        }
    }

    pub open spec fn prev_spec(self) -> RenderTierChoice {
        match self {
            RenderTierChoice::Auto => RenderTierChoice::Full3d,
            RenderTierChoice::FallbackDebug => RenderTierChoice::Auto,
            RenderTierChoice::ShippingLow => RenderTierChoice::FallbackDebug,
            RenderTierChoice::Full3d => RenderTierChoice::ShippingLow,
        }
    }

    pub fn prev(self) -> (c: RenderTierChoice)
        ensures
            c == self.prev_spec(),
    {
        match self {
            RenderTierChoice::Auto => RenderTierChoice::Full3d,
            RenderTierChoice::FallbackDebug => RenderTierChoice::Auto,
            RenderTierChoice::ShippingLow => RenderTierChoice::FallbackDebug,
            RenderTierChoice::Full3d => RenderTierChoice::ShippingLow,
        }
    }
}

/// The renderer actually in use.
#[derive(Clone, Copy, PartialEq, Eq, Debug, Structural)]
pub enum ActiveRenderTier {
    FallbackDebug,
    ShippingLow,
    Full3d,
}

impl ActiveRenderTier {
    pub open spec fn label_spec(self) -> Seq<char> {
        match self {
            ActiveRenderTier::FallbackDebug => "Fallback Debug"@,
            ActiveRenderTier::ShippingLow => "Shipping Low"@,
            ActiveRenderTier::Full3d => "Full 3D"@,
        }
    }

    pub fn label(self) -> (s: &'static str)
        ensures
            s@ == self.label_spec(),
    {
        match self {
            ActiveRenderTier::FallbackDebug => "Fallback Debug",
            ActiveRenderTier::ShippingLow => "Shipping Low",
            ActiveRenderTier::Full3d => "Full 3D",
        }
    }

    /// Every tier but the fallback debug view draws meshes.
    pub fn uses_mesh_renderer(self) -> (b: bool)
        ensures
            b == (self != ActiveRenderTier::FallbackDebug),
    {
        match self {
            ActiveRenderTier::FallbackDebug => false,
            _ => true,
        }
    }
}

/// Level of geometric detail.
#[derive(Clone, Copy, PartialEq, Eq, Debug, Structural)]
pub enum MeshDetail {
    Low,
    Medium,
    High,
}

impl MeshDetail {
    pub open spec fn label_spec(self) -> Seq<char> {
        match self {
            MeshDetail::Low => "Low"@,
            MeshDetail::Medium => "Medium"@,
            MeshDetail::High => "High"@,
        }
    }

    pub fn label(self) -> (s: &'static str)
        ensures
            s@ == self.label_spec(),
    {
        match self {
            MeshDetail::Low => "Low",
            MeshDetail::Medium => "Medium",
            MeshDetail::High => "High",
        }
    }

    pub open spec fn next_spec(self) -> MeshDetail {
        match self {
            MeshDetail::Low => MeshDetail::Medium,
            MeshDetail::Medium => MeshDetail::High,
            MeshDetail::High => MeshDetail::Low,
        }
    }

    pub fn next(self) -> (d: MeshDetail)
        ensures
            d == self.next_spec(),
    {
        match self {
            MeshDetail::Low => MeshDetail::Medium,
            MeshDetail::Medium => MeshDetail::High,
            MeshDetail::High => MeshDetail::Low,
        }
    }

    pub open spec fn prev_spec(self) -> MeshDetail {
        match self {
            MeshDetail::Low => MeshDetail::High,
            MeshDetail::Medium => MeshDetail::Low,
            MeshDetail::High => MeshDetail::Medium,
        }
    }

    pub fn prev(self) -> (d: MeshDetail)
        ensures
            d == self.prev_spec(),
    {
        match self {
            MeshDetail::Low => MeshDetail::High,
            MeshDetail::Medium => MeshDetail::Low,
            MeshDetail::High => MeshDetail::Medium,
        }
    }

    /// Rank of the detail level: Low 0, Medium 1, High 2.
    pub open spec fn rank(self) -> int {
        match self {
            MeshDetail::Low => 0,
            MeshDetail::Medium => 1,
            MeshDetail::High => 2,
        }
    }
}

/// How much street clutter is placed.
#[derive(Clone, Copy, PartialEq, Eq, Debug, Structural)]
pub enum PropDensity {
    Off,
    Low,
    Medium,
    High,
}

impl PropDensity {
    pub open spec fn label_spec(self) -> Seq<char> {
        match self {
            PropDensity::Off => "Off"@,
            PropDensity::Low => "Low"@,
            PropDensity::Medium => "Medium"@,
            PropDensity::High => "High"@,
        }
    }

    pub fn label(self) -> (s: &'static str)
        ensures
            s@ == self.label_spec(),
    {
        match self {
            PropDensity::Off => "Off",
            PropDensity::Low => "Low",
            PropDensity::Medium => "Medium",
            PropDensity::High => "High",
        }
    }

    pub open spec fn next_spec(self) -> PropDensity {
        match self {
            PropDensity::Off => PropDensity::Low,
            PropDensity::Low => PropDensity::Medium,
            PropDensity::Medium => PropDensity::High,
            PropDensity::High => PropDensity::Off,
        }
    }

    pub fn next(self) -> (d: PropDensity)
        ensures
            d == self.next_spec(),
    {
        match self {
            PropDensity::Off => PropDensity::Low,
            PropDensity::Low => PropDensity::Medium,
            PropDensity::Medium => PropDensity::High,
            PropDensity::High => PropDensity::Off,
        }
    }

    pub open spec fn prev_spec(self) -> PropDensity {
        match self {
            PropDensity::Off => PropDensity::High,
            PropDensity::Low => PropDensity::Off,
            PropDensity::Medium => PropDensity::Low,
            PropDensity::High => PropDensity::Medium,
        }
    }

    pub fn prev(self) -> (d: PropDensity)
        ensures
            d == self.prev_spec(),
    {
        match self {
            PropDensity::Off => PropDensity::High,
            PropDensity::Low => PropDensity::Off,
            PropDensity::Medium => PropDensity::Low,
            PropDensity::High => PropDensity::Medium,
        }
    }

    /// Rank of the density: Off 0, Low 1, Medium 2, High 3.
    pub open spec fn rank(self) -> int {
        match self {
            PropDensity::Off => 0,
            PropDensity::Low => 1,
            PropDensity::Medium => 2,
            PropDensity::High => 3,
        }
    }
}

/// Size of the HUD.
#[derive(Clone, Copy, PartialEq, Eq, Debug, Structural)]
pub enum UiScalePreset {
    Compact,
    Normal,
    Large,
}

impl UiScalePreset {
    pub open spec fn label_spec(self) -> Seq<char> {
        match self {
            UiScalePreset::Compact => "Compact"@,
            UiScalePreset::Normal => "Normal"@,
            UiScalePreset::Large => "Large"@,
        }
    }

    pub fn label(self) -> (s: &'static str)
        ensures
            s@ == self.label_spec(),
    {
        match self {
            UiScalePreset::Compact => "Compact",
            UiScalePreset::Normal => "Normal",
            UiScalePreset::Large => "Large",
        }
    }

    pub open spec fn next_spec(self) -> UiScalePreset {
        match self {
            UiScalePreset::Compact => UiScalePreset::Normal,
            UiScalePreset::Normal => UiScalePreset::Large,
            UiScalePreset::Large => UiScalePreset::Compact,
        }
    }

    pub fn next(self) -> (u: UiScalePreset)
        ensures
            u == self.next_spec(),
    {
        match self {
            UiScalePreset::Compact => UiScalePreset::Normal,
            UiScalePreset::Normal => UiScalePreset::Large,
            UiScalePreset::Large => UiScalePreset::Compact,
        }
    }

    pub open spec fn prev_spec(self) -> UiScalePreset {
        match self {
            UiScalePreset::Compact => UiScalePreset::Large,
            UiScalePreset::Normal => UiScalePreset::Compact,
            UiScalePreset::Large => UiScalePreset::Normal,
        }
    }

    pub fn prev(self) -> (u: UiScalePreset)
        ensures
            u == self.prev_spec(),
    {
        match self {
            UiScalePreset::Compact => UiScalePreset::Large,
            UiScalePreset::Normal => UiScalePreset::Compact,
            UiScalePreset::Large => UiScalePreset::Normal,
        }
    }
}

/// The graphics configuration edited in the F1 panel.
#[derive(Clone, Copy, PartialEq, Eq, Debug, Structural)]
pub struct GraphicsSettings {
    pub preset: GraphicsPreset,
    pub render_tier: RenderTierChoice,
    pub mesh_detail: MeshDetail,
    pub prop_density: PropDensity,
    pub show_ground: bool,
    pub show_markers: bool,
    pub show_telemetry: bool,
    pub ui_scale: UiScalePreset,
}

/// The settings a preset stands for; `Custom` changes nothing.
pub open spec fn with_preset(s: GraphicsSettings, preset: GraphicsPreset) -> GraphicsSettings {
    match preset {
        GraphicsPreset::Low => GraphicsSettings {
            preset: GraphicsPreset::Low,
            render_tier: RenderTierChoice::ShippingLow,
            mesh_detail: MeshDetail::Low,
            prop_density: PropDensity::Low,
            show_ground: true,
            show_markers: true,
            show_telemetry: false,
            ui_scale: UiScalePreset::Normal,
        },
        GraphicsPreset::Balanced => GraphicsSettings {
            preset: GraphicsPreset::Balanced,
            render_tier: RenderTierChoice::Auto,
            mesh_detail: MeshDetail::Medium,
            prop_density: PropDensity::Medium,
            show_ground: true,
            show_markers: true,
            show_telemetry: true,
            ui_scale: UiScalePreset::Normal,
        },
        GraphicsPreset::High => GraphicsSettings {
            preset: GraphicsPreset::High,
            render_tier: RenderTierChoice::Full3d,
            mesh_detail: MeshDetail::High,
            prop_density: PropDensity::High,
            show_ground: true,
            show_markers: true,
            show_telemetry: true,
            ui_scale: UiScalePreset::Large,
        },
        GraphicsPreset::Custom => s,
    }
}

/// The settings after moving `row` one step forward (`forward`) or back;
/// every row but the preset row marks the settings as custom.
pub open spec fn with_adjustment(s: GraphicsSettings, row: SettingsMenuRow, forward: bool) -> GraphicsSettings {
    match row {
        SettingsMenuRow::Preset => with_preset(
            s,
            if forward {
                s.preset.next_selectable_spec()
            } else {
                s.preset.prev_selectable_spec()
            },
        ),
        SettingsMenuRow::Renderer => GraphicsSettings {
            render_tier: if forward {
                s.render_tier.next_spec()
            } else {
                s.render_tier.prev_spec()
            },
            preset: GraphicsPreset::Custom,
            ..s
        },
        SettingsMenuRow::MeshDetail => GraphicsSettings {
            mesh_detail: if forward {
                s.mesh_detail.next_spec()
            } else {
                s.mesh_detail.prev_spec()
            },
            preset: GraphicsPreset::Custom,
            ..s
        },
        SettingsMenuRow::PropDensity => GraphicsSettings {
            prop_density: if forward {
                s.prop_density.next_spec()
            } else {
                s.prop_density.prev_spec()
            },
            preset: GraphicsPreset::Custom,
            ..s
        },
        SettingsMenuRow::Ground => GraphicsSettings {
            show_ground: !s.show_ground,
            preset: GraphicsPreset::Custom,
            ..s
        },
        SettingsMenuRow::Markers => GraphicsSettings {
            show_markers: !s.show_markers,
            preset: GraphicsPreset::Custom,
            ..s
        },
        SettingsMenuRow::Telemetry => GraphicsSettings {
            show_telemetry: !s.show_telemetry,
            preset: GraphicsPreset::Custom,
            ..s
        },
        SettingsMenuRow::UiScale => GraphicsSettings {
            ui_scale: if forward {
                s.ui_scale.next_spec()
            } else {
                s.ui_scale.prev_spec()
            },
            preset: GraphicsPreset::Custom,
            ..s
        },
    }
}

/// The render tier in use for a requested tier on a machine.
pub open spec fn active_tier_spec(choice: RenderTierChoice, capability: RenderCapability) -> ActiveRenderTier {
    if capability.software_fallback {
        ActiveRenderTier::FallbackDebug
    } else {
        match choice {
            RenderTierChoice::Auto => ActiveRenderTier::Full3d,
            RenderTierChoice::FallbackDebug => ActiveRenderTier::FallbackDebug,
            RenderTierChoice::ShippingLow => ActiveRenderTier::ShippingLow,
            RenderTierChoice::Full3d => ActiveRenderTier::Full3d,
        }
    }
}

/// Mesh detail after the tier's cap: fallback draws low detail, shipping-low
/// at most medium.
pub open spec fn effective_mesh_spec(tier: ActiveRenderTier, detail: MeshDetail) -> MeshDetail {
    match tier {
        ActiveRenderTier::FallbackDebug => MeshDetail::Low,
        ActiveRenderTier::ShippingLow => match detail {
            MeshDetail::High => MeshDetail::Medium,
            other => other,
        },
        ActiveRenderTier::Full3d => detail,
    }
}

/// Prop density after the tier's cap: fallback keeps props off or low,
/// shipping-low at most medium.
pub open spec fn effective_props_spec(tier: ActiveRenderTier, density: PropDensity) -> PropDensity {
    match tier {
        ActiveRenderTier::FallbackDebug => match density {
            PropDensity::Off => PropDensity::Off,
            _ => PropDensity::Low,
        },
        ActiveRenderTier::ShippingLow => match density {
            PropDensity::High => PropDensity::Medium,
            other => other,
        },
        ActiveRenderTier::Full3d => density,
    }
}

pub open spec fn on_off_spec(value: bool) -> Seq<char> {
    if value {
        "On"@
    } else {
        "Off"@
    }
}

/// The settings a machine starts with: the balanced preset, or on a
/// software-only machine the low preset with telemetry shown.
pub open spec fn default_settings(capability: RenderCapability) -> GraphicsSettings {
    if capability.software_fallback {
        GraphicsSettings {
            preset: GraphicsPreset::Low,
            render_tier: RenderTierChoice::ShippingLow,
            mesh_detail: MeshDetail::Low,
            prop_density: PropDensity::Low,
            show_ground: true,
            show_markers: true,
            show_telemetry: true,
            ui_scale: UiScalePreset::Normal,
        }
    } else {
        GraphicsSettings {
            preset: GraphicsPreset::Balanced,
            render_tier: RenderTierChoice::Auto,
            mesh_detail: MeshDetail::Medium,
            prop_density: PropDensity::Medium,
            show_ground: true,
            show_markers: true,
            show_telemetry: true,
            ui_scale: UiScalePreset::Normal,
        }
    }
}

impl GraphicsSettings {
    /// Balanced settings; software-only machines start from the low preset
    /// with telemetry shown.
    pub fn default_for(capability: RenderCapability) -> (s: GraphicsSettings)
        ensures
            s == default_settings(capability),
    {
        let mut settings = GraphicsSettings {
            preset: GraphicsPreset::Balanced,
            render_tier: RenderTierChoice::Auto,
            mesh_detail: MeshDetail::Medium,
            prop_density: PropDensity::Medium,
            show_ground: true,
            show_markers: true,
            show_telemetry: true,
            ui_scale: UiScalePreset::Normal,
        };
        if capability.software_fallback {
            settings.apply_preset(GraphicsPreset::Low);
            settings.show_telemetry = true;
        }
        settings
    }

    /// Replaces the settings with those of `preset`; `Custom` leaves them as
    /// they are.
    pub fn apply_preset(&mut self, preset: GraphicsPreset)
        ensures
            *final(self) == with_preset(*old(self), preset),
    {
        match preset {
            GraphicsPreset::Low => {
                self.preset = GraphicsPreset::Low;
                self.render_tier = RenderTierChoice::ShippingLow;
                self.mesh_detail = MeshDetail::Low;
                self.prop_density = PropDensity::Low;
                self.show_ground = true;
                self.show_markers = true;
                self.show_telemetry = false;
                self.ui_scale = UiScalePreset::Normal;
            },
            GraphicsPreset::Balanced => {
                self.preset = GraphicsPreset::Balanced;
                self.render_tier = RenderTierChoice::Auto;
                self.mesh_detail = MeshDetail::Medium;
                self.prop_density = PropDensity::Medium;
                self.show_ground = true;
                self.show_markers = true;
                self.show_telemetry = true;
                self.ui_scale = UiScalePreset::Normal;
            },
            GraphicsPreset::High => {
                self.preset = GraphicsPreset::High;
                self.render_tier = RenderTierChoice::Full3d;
                self.mesh_detail = MeshDetail::High;
                self.prop_density = PropDensity::High;
                self.show_ground = true;
                self.show_markers = true;
                self.show_telemetry = true;
                self.ui_scale = UiScalePreset::Large;
            },
            GraphicsPreset::Custom => {},
        }
    }

    /// Marks the settings as hand-tuned.
    pub fn mark_custom(&mut self)
        ensures
            *final(self) == (GraphicsSettings { preset: GraphicsPreset::Custom, ..*old(self) }),
    {
        self.preset = GraphicsPreset::Custom;
    }

    /// The render tier in use: software-only machines always get the
    /// fallback tier; `Auto` means full 3D.
    pub fn active_render_tier(&self, capability: RenderCapability) -> (t: ActiveRenderTier)
        ensures
            t == active_tier_spec(self.render_tier, capability),
    {
        if capability.software_fallback {
            return ActiveRenderTier::FallbackDebug;
        }
        match self.render_tier {
            RenderTierChoice::Auto => ActiveRenderTier::Full3d,
            RenderTierChoice::FallbackDebug => ActiveRenderTier::FallbackDebug,
            RenderTierChoice::ShippingLow => ActiveRenderTier::ShippingLow,
            RenderTierChoice::Full3d => ActiveRenderTier::Full3d,
        }
    }

    /// Mesh detail after the active tier's cap.
    pub fn effective_mesh_detail(&self, capability: RenderCapability) -> (d: MeshDetail)
        ensures
            d == effective_mesh_spec(active_tier_spec(self.render_tier, capability), self.mesh_detail),
    {
        match self.active_render_tier(capability) {
            ActiveRenderTier::FallbackDebug => MeshDetail::Low,
            ActiveRenderTier::ShippingLow => match self.mesh_detail {
                MeshDetail::High => MeshDetail::Medium,
                other => other,
            },
            ActiveRenderTier::Full3d => self.mesh_detail,
        }
    }

    /// Prop density after the active tier's cap.
    pub fn effective_prop_density(&self, capability: RenderCapability) -> (d: PropDensity)
        ensures
            d == effective_props_spec(active_tier_spec(self.render_tier, capability), self.prop_density),
    {
        match self.active_render_tier(capability) {
            ActiveRenderTier::FallbackDebug => match self.prop_density {
                PropDensity::Off => PropDensity::Off,
                _ => PropDensity::Low,
            },
            ActiveRenderTier::ShippingLow => match self.prop_density {
                PropDensity::High => PropDensity::Medium,
                other => other,
            },
            ActiveRenderTier::Full3d => self.prop_density,
        }
    }

    pub open spec fn row_value_spec(self, row: SettingsMenuRow, capability: RenderCapability) -> Seq<char> {
        match row {
            SettingsMenuRow::Preset => self.preset.label_spec(),
            SettingsMenuRow::Renderer => self.render_tier.label_spec() + " -> "@ + active_tier_spec(
                self.render_tier,
                capability,
            ).label_spec(),
            SettingsMenuRow::MeshDetail => effective_mesh_spec(
                active_tier_spec(self.render_tier, capability),
                self.mesh_detail,
            ).label_spec(),
            SettingsMenuRow::PropDensity => effective_props_spec(
                active_tier_spec(self.render_tier, capability),
                self.prop_density,
            ).label_spec(),
            SettingsMenuRow::Ground => on_off_spec(self.show_ground),
            SettingsMenuRow::Markers => on_off_spec(self.show_markers),
            SettingsMenuRow::Telemetry => on_off_spec(self.show_telemetry),
            SettingsMenuRow::UiScale => self.ui_scale.label_spec(),
        }
    }

    /// The value shown next to `row` in the settings panel.
    pub fn row_value_label(&self, row: SettingsMenuRow, capability: RenderCapability) -> (s: String)
        ensures
            s@ == self.row_value_spec(row, capability),
    {
        match row {
            SettingsMenuRow::Preset => String::from_str(self.preset.label()),
            SettingsMenuRow::Renderer => {
                let mut s = concat_str(self.render_tier.label(), " -> ");
                s.append(self.active_render_tier(capability).label());
                s
            },
            SettingsMenuRow::MeshDetail => String::from_str(self.effective_mesh_detail(capability).label()),
            SettingsMenuRow::PropDensity => String::from_str(
                self.effective_prop_density(capability).label(),
            ),
            SettingsMenuRow::Ground => String::from_str(on_off(self.show_ground)),
            SettingsMenuRow::Markers => String::from_str(on_off(self.show_markers)),
            SettingsMenuRow::Telemetry => String::from_str(on_off(self.show_telemetry)),
            SettingsMenuRow::UiScale => String::from_str(self.ui_scale.label()),
        }
    }

    /// Moves `row` one step: forward for a non-negative `delta`, back
    /// otherwise; toggles ignore the direction.
    pub fn adjust(&mut self, row: SettingsMenuRow, delta: i32)
        ensures
            *final(self) == with_adjustment(*old(self), row, delta >= 0),
    {
        let forward = delta >= 0;
        match row {
            SettingsMenuRow::Preset => {
                let next = if forward {
                    self.preset.next_selectable()
                } else {
                    self.preset.prev_selectable()
                };
                self.apply_preset(next);
            },
            SettingsMenuRow::Renderer => {
                self.render_tier = if forward {
                    self.render_tier.next()
                } else {
                    self.render_tier.prev()
                };
                self.mark_custom();
            },
            SettingsMenuRow::MeshDetail => {
                self.mesh_detail = if forward {
                    self.mesh_detail.next()
                } else {
                    self.mesh_detail.prev()
                };
                self.mark_custom();
            },
            SettingsMenuRow::PropDensity => {
                self.prop_density = if forward {
                    self.prop_density.next()
                } else {
                    self.prop_density.prev()
                };
                self.mark_custom();
            },
            SettingsMenuRow::Ground => {
                self.show_ground = !self.show_ground;
                self.mark_custom();
            },
            SettingsMenuRow::Markers => {
                self.show_markers = !self.show_markers;
                self.mark_custom();
            },
            SettingsMenuRow::Telemetry => {
                self.show_telemetry = !self.show_telemetry;
                self.mark_custom();
            },
            SettingsMenuRow::UiScale => {
                self.ui_scale = if forward {
                    self.ui_scale.next()
                } else {
                    self.ui_scale.prev()
                };
                self.mark_custom();
            },
        }
    }
}

/// State of the F1 settings panel.
#[derive(Clone, Copy, Debug)]
pub struct SettingsMenuState {
    pub open: bool,
    pub selected_row: usize,
}

impl Default for SettingsMenuState {
    /// A closed panel with the first row selected.
    fn default() -> (s: SettingsMenuState)
        ensures
            !s.open,
            s.selected_row == 0,
    {
        SettingsMenuState { open: false, selected_row: 0 }
    }
}

impl SettingsMenuState {

    /// Moves the selection by `delta` rows, wrapping around the eight rows.
    pub fn move_selection(&mut self, delta: i32)
        requires
            i32::MIN <= (old(self).selected_row as i32) + delta <= i32::MAX,
        ensures
            final(self).selected_row == ((old(self).selected_row as i32) + delta) % 8,
            final(self).open == old(self).open,
    {
        let len: i32 = 8;
        let v = self.selected_row as i32 + delta;
        let r = if v >= 0 {
            v % len
        } else {
            let m = (-(v + 1)) % len;
            len - 1 - m
        };
        proof {
            if v < 0 {
                assert(((-(v + 1)) as int) % 8 == 7 - (v as int) % 8) by (nonlinear_arith)
                    requires v < 0;
            }
        }
        self.selected_row = r as usize;
    }

    /// The selected row.
    pub fn selected_row(&self) -> (r: SettingsMenuRow)
        requires
            self.selected_row < 8,
        ensures
            r == settings_row_at(self.selected_row as int),
    {
        let rows = SettingsMenuRow::ALL;
        rows[self.selected_row]
    }
}

/// A row of the settings panel.
#[derive(Clone, Copy, PartialEq, Eq, Debug, Structural)]
pub enum SettingsMenuRow {
    Preset,
    Renderer,
    MeshDetail,
    PropDensity,
    Ground,
    Markers,
    Telemetry,
    UiScale,
}

/// The row at position `i` of the panel, top to bottom.
pub open spec fn settings_row_at(i: int) -> SettingsMenuRow {
    if i == 0 {
        SettingsMenuRow::Preset
    } else if i == 1 {
        SettingsMenuRow::Renderer
    } else if i == 2 {
        SettingsMenuRow::MeshDetail
    } else if i == 3 {
        SettingsMenuRow::PropDensity
    } else if i == 4 {
        SettingsMenuRow::Ground
    } else if i == 5 {
        SettingsMenuRow::Markers
    } else if i == 6 {
        SettingsMenuRow::Telemetry
    } else {
        SettingsMenuRow::UiScale
    }
}

impl SettingsMenuRow {
    /// The rows of the panel, top to bottom.
    pub const ALL: [SettingsMenuRow; 8] = [
        SettingsMenuRow::Preset,
        SettingsMenuRow::Renderer,
        SettingsMenuRow::MeshDetail,
        SettingsMenuRow::PropDensity,
        SettingsMenuRow::Ground,
        SettingsMenuRow::Markers,
        SettingsMenuRow::Telemetry,
        SettingsMenuRow::UiScale,
    ];

    pub open spec fn label_spec(self) -> Seq<char> {
        match self {
            SettingsMenuRow::Preset => "Preset"@,
            SettingsMenuRow::Renderer => "Renderer"@,
            SettingsMenuRow::MeshDetail => "Geometry"@,
            SettingsMenuRow::PropDensity => "Props"@,
            SettingsMenuRow::Ground => "Ground"@,
            SettingsMenuRow::Markers => "Markers"@,
            SettingsMenuRow::Telemetry => "Telemetry"@,
            SettingsMenuRow::UiScale => "UI Scale"@,
        }
    }

    pub fn label(self) -> (s: &'static str)
        ensures
            s@ == self.label_spec(),
    {
        match self {
            SettingsMenuRow::Preset => "Preset",
            SettingsMenuRow::Renderer => "Renderer",
            SettingsMenuRow::MeshDetail => "Geometry",
            SettingsMenuRow::PropDensity => "Props",
            SettingsMenuRow::Ground => "Ground",
            SettingsMenuRow::Markers => "Markers",
            SettingsMenuRow::Telemetry => "Telemetry",
            SettingsMenuRow::UiScale => "UI Scale",
        }
    }
}

/// `On` or `Off`.
pub fn on_off(value: bool) -> (s: &'static str)
    ensures
        s@ == on_off_spec(value),
{
    if value {
        "On"
    } else {
        "Off"
    }
}

} // verus!
