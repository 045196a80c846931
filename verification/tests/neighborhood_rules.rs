use smartcity_forge::game::GameState;
use smartcity_forge::grid::{GridPos, GRID_TILES};
use smartcity_forge::model::TileKind;
use smartcity_forge::neighborhood::{
    adjacent_building_demand, density_at_least, density_rank, has_adjacent_kind, lot_boundary_mask,
    lot_span, noise_u32, orthogonal_neighbor_count, render_tier_bucket, road_adjacency_count,
    road_mask, tile_kind_at, tile_seed, BuildingDensity, EAST, NORTH, SOUTH, WEST,
};
use smartcity_forge::settings::{ActiveRenderTier, PropDensity};

fn city(band: i32) -> GameState {
    let mut g = GameState::new();
    g.regenerate_with(band, &vec![0; GRID_TILES], &vec![0; GRID_TILES]);
    g
}

#[test]
fn road_and_lot_masks() {
    let g = city(16);
    assert_eq!(road_mask(&g, GridPos::new(5, 5)), NORTH | WEST);
    assert_eq!(road_mask(&g, GridPos::new(4, 4)), NORTH | EAST | SOUTH | WEST);
    assert_eq!(road_mask(&g, GridPos::new(9, 8)), 0);
    assert_eq!(lot_boundary_mask(&g, GridPos::new(5, 5)), NORTH | WEST);
    assert_eq!(lot_boundary_mask(&g, GridPos::new(0, 0)), NORTH | WEST);
    assert_eq!(lot_boundary_mask(&g, GridPos::new(4, 5)), 0);
    assert_eq!(lot_boundary_mask(&g, GridPos::new(2, 2)), NORTH | EAST | SOUTH | WEST);
    assert_eq!(lot_boundary_mask(&g, GridPos::new(15, 6)), EAST);
    assert_eq!(SOUTH, 4);
}

#[test]
fn neighbour_counts() {
    let g = city(16);
    assert_eq!(tile_kind_at(&g, GridPos::new(-1, 0)), None);
    assert_eq!(tile_kind_at(&g, GridPos::new(31, 19)), Some(TileKind::Building));
    assert_eq!(orthogonal_neighbor_count(&g, GridPos::new(5, 5), TileKind::Building), 2);
    assert_eq!(road_adjacency_count(&g, GridPos::new(5, 5)), 2);
    assert_eq!(lot_span(&g, GridPos::new(5, 5), TileKind::Building), 2);
    assert_eq!(lot_span(&g, GridPos::new(6, 6), TileKind::Building), 3);
    assert_eq!(lot_span(&g, GridPos::new(4, 4), TileKind::Building), 1);
    assert!(has_adjacent_kind(&g, GridPos::new(1, 2), TileKind::ControlCenter));
    assert!(!has_adjacent_kind(&g, GridPos::new(9, 8), TileKind::River));
    assert!(adjacent_building_demand(&g, GridPos::new(4, 5)));
    assert!(!adjacent_building_demand(&g, GridPos::new(4, 4)));
}

#[test]
fn seeds_and_noise() {
    assert_eq!(tile_seed(GridPos::new(3, 5)), 8);
    assert_eq!(tile_seed(GridPos::new(-4, 1)), 3);
    let g = city(16);
    assert_eq!(noise_u32(&g, GridPos::new(3, 5), 0x91e1_0da5), 1429449688);
    let h = city(8);
    assert_eq!(noise_u32(&h, GridPos::new(-1, 0), 0), 3374407075);
}

#[test]
fn densities_and_tiers() {
    assert_eq!(density_rank(PropDensity::Medium), 2);
    assert!(density_at_least(PropDensity::High, PropDensity::Low));
    assert!(!density_at_least(PropDensity::Off, PropDensity::Low));
    assert_eq!(render_tier_bucket(ActiveRenderTier::ShippingLow), 1);
    assert!(BuildingDensity::Mid.is_dense());
    assert!(!BuildingDensity::Low.is_dense());
    assert_eq!(BuildingDensity::Tower.downgrade(), BuildingDensity::High);
    assert_eq!(BuildingDensity::Low.downgrade(), BuildingDensity::Low);
    assert!(BuildingDensity::Low < BuildingDensity::Tower);
}
