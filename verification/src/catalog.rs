use vstd::prelude::*;

use crate::game::GameState;
use crate::text::{decimal, push_decimal};

verus! {

/// The broad family of a catalog definition.
#[derive(Clone, Copy, PartialEq, Eq, Debug, Structural)]
pub enum CatalogFamily {
    TerrainMaterial,
    RoadPiece,
    BuildingFamily,
    PropFamily,
}

/// The district class a catalog definition is meant for.
#[derive(Clone, Copy, PartialEq, Eq, Debug, Structural)]
pub enum CatalogZoneClass {
    Residential,
    MixedUse,
    Industrial,
    Utility,
    Civic,
    Streetscape,
    Nature,
}

/// How tall a catalog definition stands.
#[derive(Clone, Copy, PartialEq, Eq, Debug, Structural)]
pub enum HeightClass {
    Surface,
    LowRise,
    MidRise,
    Landmark,
}

/// The mesh and material used on low-quality settings.
#[derive(Clone, Debug)]
pub struct FallbackRule {
    pub mesh: String,
    pub material: String,
}

/// A named point where props attach; its placement stays with the renderer.
#[derive(Clone, Debug)]
pub struct PropAnchor {
    pub name: String,
}

/// One definition of the asset catalog; its footprint and level-of-detail
/// distances stay with the renderer.
#[derive(Clone, Debug)]
pub struct AssetCatalogEntry {
    pub id: String,
    pub family: CatalogFamily,
    pub zone_class: Option<CatalogZoneClass>,
    pub tags: Vec<String>,
    pub height_class: HeightClass,
    pub low_quality_fallback: FallbackRule,
    pub prop_anchors: Vec<PropAnchor>,
    pub material_variants: Vec<String>,
    pub scene: Option<String>,
}

/// Number of definitions of `family`.
pub open spec fn family_count(entries: Seq<AssetCatalogEntry>, family: CatalogFamily) -> nat
    decreases entries.len(),
{
    if entries.len() == 0 {
        0
    } else {
        family_count(entries.drop_last(), family) + if entries.last().family == family {
            1nat
        } else {
            0nat
        }
    }
}

/// Number of prop anchors over all definitions.
pub open spec fn anchor_total(entries: Seq<AssetCatalogEntry>) -> nat
    decreases entries.len(),
{
    if entries.len() == 0 {
        0
    } else {
        anchor_total(entries.drop_last()) + entries.last().prop_anchors@.len()
    }
}

proof fn lemma_family_count_bound(entries: Seq<AssetCatalogEntry>, family: CatalogFamily)
    ensures
        family_count(entries, family) <= entries.len(),
    decreases entries.len(),
{
    if entries.len() > 0 {
        lemma_family_count_bound(entries.drop_last(), family);
    }
}

proof fn lemma_anchor_total_prefix(entries: Seq<AssetCatalogEntry>, i: int)
    requires
        0 <= i <= entries.len(),
    ensures
        anchor_total(entries.take(i)) <= anchor_total(entries),
    decreases entries.len() - i,
{
    if i < entries.len() {
        lemma_anchor_total_prefix(entries, i + 1);
        assert(entries.take(i + 1).drop_last() =~= entries.take(i));
    } else {
        assert(entries.take(i) =~= entries);
    }
}

/// The number of prop anchors over all definitions, or `None` when it does
/// not fit in a `usize`.
pub fn checked_anchor_total(entries: &Vec<AssetCatalogEntry>) -> (total: Option<usize>)
    ensures
        match total {
            Some(n) => n == anchor_total(entries@),
            None => anchor_total(entries@) > usize::MAX,
        },
{
    let mut total: usize = 0;
    let mut i: usize = 0;
    while i < entries.len()
        invariant
            i <= entries@.len(),
            total == anchor_total(entries@.take(i as int)),
        decreases entries@.len() - i,
    {
        proof {
            let t = entries@.take(i + 1);
            assert(t.drop_last() =~= entries@.take(i as int));
        }
        let n = entries[i].prop_anchors.len();
        if total > usize::MAX - n {
            proof {
                lemma_anchor_total_prefix(entries@, i + 1);
            }
            return None;
        }
        total = total + n;
        i = i + 1;
    }
    proof {
        assert(entries@.take(i as int) =~= entries@);
    }
    Some(total)
}

/// Counts of the catalog by family, and of its prop anchors.
#[derive(Clone, Copy, Debug)]
pub struct AssetCatalogStats {
    pub road_count: usize,
    pub building_count: usize,
    pub prop_count: usize,
    pub anchor_count: usize,
}

impl Default for AssetCatalogStats {
    /// All counts zero.
    fn default() -> (s: AssetCatalogStats)
        ensures
            s.road_count == 0,
            s.building_count == 0,
            s.prop_count == 0,
            s.anchor_count == 0,
    {
        AssetCatalogStats { road_count: 0, building_count: 0, prop_count: 0, anchor_count: 0 }
    }
}

impl AssetCatalogStats {
    /// The counts of `entries`.
    pub open spec fn of(entries: Seq<AssetCatalogEntry>) -> AssetCatalogStats {
        AssetCatalogStats {
            road_count: family_count(entries, CatalogFamily::RoadPiece) as usize,
            building_count: family_count(entries, CatalogFamily::BuildingFamily) as usize,
            prop_count: family_count(entries, CatalogFamily::PropFamily) as usize,
            anchor_count: anchor_total(entries) as usize,
        }
    }

    /// Counts the road pieces, building families and prop families of
    /// `entries`, and their prop anchors.
    pub fn from_entries(entries: &Vec<AssetCatalogEntry>) -> (stats: AssetCatalogStats)
        requires
            anchor_total(entries@) <= usize::MAX,
        ensures
            stats == AssetCatalogStats::of(entries@),
    {
        let mut stats = AssetCatalogStats::default();
        let mut i: usize = 0;
        while i < entries.len()
            invariant
                i <= entries@.len(),
                anchor_total(entries@) <= usize::MAX,
                stats.road_count == family_count(entries@.take(i as int), CatalogFamily::RoadPiece),
                stats.building_count == family_count(
                    entries@.take(i as int),
                    CatalogFamily::BuildingFamily,
                ),
                stats.prop_count == family_count(entries@.take(i as int), CatalogFamily::PropFamily),
                stats.anchor_count == anchor_total(entries@.take(i as int)),
            decreases entries@.len() - i,
        {
            let entry = &entries[i];
            proof {
                let t = entries@.take(i + 1);
                assert(t.drop_last() =~= entries@.take(i as int));
                assert(t.last() == entries@[i as int]);
                lemma_family_count_bound(entries@.take(i as int), CatalogFamily::RoadPiece);
                lemma_family_count_bound(entries@.take(i as int), CatalogFamily::BuildingFamily);
                lemma_family_count_bound(entries@.take(i as int), CatalogFamily::PropFamily);
                lemma_anchor_total_prefix(entries@, i + 1);
            }
            match entry.family {
                CatalogFamily::TerrainMaterial => {},
                CatalogFamily::RoadPiece => {
                    stats.road_count = stats.road_count + 1;
                },
                CatalogFamily::BuildingFamily => {
                    stats.building_count = stats.building_count + 1;
                },
                CatalogFamily::PropFamily => {
                    stats.prop_count = stats.prop_count + 1;
                },
            }
            stats.anchor_count = stats.anchor_count + entry.prop_anchors.len();
            i = i + 1;
        }
        proof {
            assert(entries@.take(i as int) =~= entries@);
        }
        stats
    }
}

// ---------------------------------------------------------------------------
// Scenes.

/// The file part of a scene path: what comes before the first `#`.
pub open spec fn scene_source_spec(path: Seq<char>) -> Seq<char> {
    if exists|i: int| 0 <= i < path.len() && path[i] == '#' {
        path.take(choose|i: int| 0 <= i < path.len() && path[i] == '#' && forall|j: int| 0 <= j < i ==> path[j] != '#')
    } else {
        path
    }
}

/// The file part of a scene path: what comes before the first `#`.
pub fn scene_source_path(path: &str) -> (source: &str)
    ensures
        source@ == scene_source_spec(path@),
{
    let n = path.unicode_len();
    let mut i: usize = 0;
    while i < n
        invariant
            n == path@.len(),
            i <= n,
            forall|j: int| 0 <= j < i ==> path@[j] != '#',
        decreases n - i,
    {
        if path.get_char(i) == '#' {
            proof {
                let k = choose|k: int| 0 <= k < path@.len() && path@[k] == '#' && forall|j: int|
                    0 <= j < k ==> path@[j] != '#';
                assert(0 <= i < path@.len() && path@[i as int] == '#' && forall|j: int|
                    0 <= j < i ==> path@[j] != '#');
                if k < i {
                    assert(path@[k] != '#');
                }
                if k > i {
                    assert(path@[i as int] != '#');
                }
            }
            return path.substring_char(0, i);
        }
        i = i + 1;
    }
    assert(path@.take(n as int) =~= path@);
    path.substring_char(0, n)
}

/// How many definitions have a scene whose file was found, have one whose
/// file is missing, and have none; `found[i]` tells whether the scene file
/// of definition `i` exists.
pub open spec fn scene_counts_spec(entries: Seq<AssetCatalogEntry>, found: Seq<bool>) -> (nat, nat, nat)
    decreases entries.len(),
{
    if entries.len() == 0 {
        (0, 0, 0)
    } else {
        let (ready, missing, fallback_only) = scene_counts_spec(entries.drop_last(), found);
        let i = entries.len() - 1;
        if entries.last().scene is None {
            (ready, missing, fallback_only + 1)
        } else if found[i] {
            (ready + 1, missing, fallback_only)
        } else {
            (ready, missing + 1, fallback_only)
        }
    }
}

proof fn lemma_scene_counts_bound(entries: Seq<AssetCatalogEntry>, found: Seq<bool>)
    ensures
        scene_counts_spec(entries, found).0 + scene_counts_spec(entries, found).1
            + scene_counts_spec(entries, found).2 == entries.len(),
    decreases entries.len(),
{
    if entries.len() > 0 {
        lemma_scene_counts_bound(entries.drop_last(), found);
    }
}

proof fn lemma_scene_counts_prefix(entries: Seq<AssetCatalogEntry>, found: Seq<bool>, i: int)
    requires
        0 <= i < entries.len(),
    ensures
        scene_counts_spec(entries.take(i + 1), found) == ({
            let (ready, missing, fallback_only) = scene_counts_spec(entries.take(i), found);
            if entries[i].scene is None {
                (ready, missing, fallback_only + 1)
            } else if found[i] {
                (ready + 1, missing, fallback_only)
            } else {
                (ready, missing + 1, fallback_only)
            }
        }),
{
    assert(entries.take(i + 1).drop_last() =~= entries.take(i));
}

/// Counts the definitions whose scene is ready, whose scene file is
/// missing, and that have no scene.
pub fn scene_counts(entries: &Vec<AssetCatalogEntry>, found: &Vec<bool>) -> (counts: (
    usize,
    usize,
    usize,
))
    requires
        found@.len() == entries@.len(),
    ensures
        counts.0 == scene_counts_spec(entries@, found@).0,
        counts.1 == scene_counts_spec(entries@, found@).1,
        counts.2 == scene_counts_spec(entries@, found@).2,
        counts.0 + counts.1 + counts.2 == entries@.len(),
{
    let mut ready: usize = 0;
    let mut missing: usize = 0;
    let mut fallback_only: usize = 0;
    let mut i: usize = 0;
    while i < entries.len()
        invariant
            i <= entries@.len(),
            found@.len() == entries@.len(),
            (ready as nat, missing as nat, fallback_only as nat) == scene_counts_spec(
                entries@.take(i as int),
                found@,
            ),
        decreases entries@.len() - i,
    {
        proof {
            lemma_scene_counts_prefix(entries@, found@, i as int);
            lemma_scene_counts_bound(entries@.take(i as int), found@);
        }
        if entries[i].scene.is_none() {
            fallback_only = fallback_only + 1;
        } else if found[i] {
            ready = ready + 1;
        } else {
            missing = missing + 1;
        }
        i = i + 1;
    }
    proof {
        assert(entries@.take(i as int) =~= entries@);
        lemma_scene_counts_bound(entries@, found@);
    }
    (ready, missing, fallback_only)
}

// ---------------------------------------------------------------------------
// The catalog.

/// The loaded asset catalog and what is known of its scenes.
pub struct AssetCatalog {
    manifest_version: u32,
    pub entries: Vec<AssetCatalogEntry>,
    ready_scene_count: usize,
    missing_scene_count: usize,
    fallback_only_count: usize,
    stats: AssetCatalogStats,
}

impl Default for AssetCatalog {
    /// An empty catalog.
    fn default() -> (c: AssetCatalog)
        ensures
            c.definitions().len() == 0,
            c.version() == 0,
            c.counts() == (0nat, 0nat, 0nat),
            c.stats_view() == AssetCatalogStats::of(Seq::empty()),
    {
        AssetCatalog {
            manifest_version: 0,
            entries: Vec::new(),
            ready_scene_count: 0,
            missing_scene_count: 0,
            fallback_only_count: 0,
            stats: AssetCatalogStats::default(),
        }
    }
}

/// The catalog summary shown in the sidebar and the log.
pub open spec fn summary_spec(
    defs: nat,
    stats: AssetCatalogStats,
    ready: nat,
    missing: nat,
    fallback_only: nat,
) -> Seq<char> {
    "Catalog "@ + decimal(defs) + " defs | roads "@ + decimal(stats.road_count as nat)
        + " | buildings "@ + decimal(stats.building_count as nat) + " | props "@ + decimal(
        stats.prop_count as nat,
    ) + " | anchors "@ + decimal(stats.anchor_count as nat) + " | "@ + decimal(ready)
        + " scene-ready | "@ + decimal(fallback_only) + " fallback-only | "@ + decimal(missing)
        + " missing files"@
}

impl AssetCatalog {
    /// The catalog's definitions.
    pub closed spec fn definitions(self) -> Seq<AssetCatalogEntry> {
        self.entries@
    }

    /// The version of the manifest the catalog was loaded from.
    pub closed spec fn version(self) -> u32 {
        self.manifest_version
    }

    /// The numbers of ready scenes, missing scene files and definitions
    /// without a scene.
    pub closed spec fn counts(self) -> (nat, nat, nat) {
        (
            self.ready_scene_count as nat,
            self.missing_scene_count as nat,
            self.fallback_only_count as nat,
        )
    }

    /// The catalog's counts by family.
    pub closed spec fn stats_view(self) -> AssetCatalogStats {
        self.stats
    }

    /// The catalog summary shown in the sidebar and the log.
    pub open spec fn summary_view(self) -> Seq<char> {
        summary_spec(
            self.definitions().len(),
            self.stats_view(),
            self.counts().0,
            self.counts().1,
            self.counts().2,
        )
    }

    /// The catalog summary shown in the sidebar and the log.
    pub fn summary_line(&self) -> (s: String)
        ensures
            s@ == self.summary_view(),
    {
        let mut s = String::from_str("Catalog ");
        push_decimal(&mut s, self.entries.len() as u64);
        s.append(" defs | roads ");
        push_decimal(&mut s, self.stats.road_count as u64);
        s.append(" | buildings ");
        push_decimal(&mut s, self.stats.building_count as u64);
        s.append(" | props ");
        push_decimal(&mut s, self.stats.prop_count as u64);
        s.append(" | anchors ");
        push_decimal(&mut s, self.stats.anchor_count as u64);
        s.append(" | ");
        push_decimal(&mut s, self.ready_scene_count as u64);
        s.append(" scene-ready | ");
        push_decimal(&mut s, self.fallback_only_count as u64);
        s.append(" fallback-only | ");
        push_decimal(&mut s, self.missing_scene_count as u64);
        s.append(" missing files");
        s
    }

    /// Replaces the catalog with the definitions of a manifest and the
    /// counts of its scenes.
    pub fn replace_from_manifest(
        &mut self,
        version: u32,
        entries: Vec<AssetCatalogEntry>,
        ready_scene_count: usize,
        missing_scene_count: usize,
        fallback_only_count: usize,
    )
        requires
            anchor_total(entries@) <= usize::MAX,
        ensures
            final(self).definitions() == entries@,
            final(self).version() == version,
            final(self).counts() == (
                ready_scene_count as nat,
                missing_scene_count as nat,
                fallback_only_count as nat,
            ),
            final(self).stats_view() == AssetCatalogStats::of(entries@),
    {
        self.stats = AssetCatalogStats::from_entries(&entries);
        self.manifest_version = version;
        self.entries = entries;
        self.ready_scene_count = ready_scene_count;
        self.missing_scene_count = missing_scene_count;
        self.fallback_only_count = fallback_only_count;
    }
}

/// How loading the catalog file went.
#[derive(Clone, Copy, PartialEq, Eq, Debug, Structural)]
pub enum CatalogLoad {
    /// The file could not be read.
    Missing,
    /// The file could not be parsed.
    ParseFailed,
    /// The catalog was loaded.
    Loaded,
}

/// The log line for a catalog load.
pub open spec fn catalog_load_note(outcome: CatalogLoad, catalog: AssetCatalog) -> Seq<char> {
    match outcome {
        CatalogLoad::Missing => "Asset catalog missing; using hardcoded blockout visuals."@,
        CatalogLoad::ParseFailed => "Asset catalog parse failed; using hardcoded blockout visuals."@,
        CatalogLoad::Loaded => "Asset pipeline ready. "@ + catalog.summary_view(),
    }
}

/// Logs how loading the catalog went.
pub fn log_catalog_load(game: &mut GameState, outcome: CatalogLoad, catalog: &AssetCatalog)
    ensures
        final(game).logged(*old(game), catalog_load_note(outcome, *catalog)),
{
    let msg = match outcome {
        CatalogLoad::Missing => String::from_str(
            "Asset catalog missing; using hardcoded blockout visuals.",
        ),
        CatalogLoad::ParseFailed => String::from_str(
            "Asset catalog parse failed; using hardcoded blockout visuals.",
        ),
        CatalogLoad::Loaded => {
            let mut msg = String::from_str("Asset pipeline ready. ");
            let summary = catalog.summary_line();
            msg.append(summary.as_str());
            msg
        },
    };
    game.push_log(msg);
}

} // verus!
