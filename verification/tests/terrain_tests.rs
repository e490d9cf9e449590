//! Tests of the terrain grid and its torus topology: neighbor wrapping,
//! normalization, shortest distances, and the random samplers.

use plenty_logic::rng::GameRng;
use plenty_logic::terrain::Terrain;
use plenty_logic::terrain::TileCoord;
use plenty_logic::terrain::TileCoordOutOfBoundsError;
use plenty_logic::terrain::TileDirection;
use plenty_logic::terrain::emod_i64;
use plenty_logic::units::Elevation;
use plenty_logic::units::Location;

fn water_map(edge: u16) -> Terrain {
    let mut t = Terrain::new(edge);
    for i in 0..t.playground.len() {
        t.playground[i] = Elevation(-9);
    }
    t
}

#[test]
fn tile_coord_builders() {
    let tc = TileCoord::new(3, 4);
    assert_eq!(tc.with_x(9), TileCoord::new(9, 4));
    assert_eq!(tc.with_y(1), TileCoord::new(3, 1));
}

#[test]
fn flat_map_combines_both_components() {
    let tc = TileCoord::new(3, 4);
    let shifted = tc.flat_map(|x, y| (x.checked_add(1), y.checked_sub(1)));
    assert_eq!(shifted, Some(TileCoord::new(4, 3)));
    let gone = tc.flat_map(|x, y| (x.checked_add(1), y.checked_sub(9)));
    assert_eq!(gone, None);
}

#[test]
fn coords_walk_rows_first() {
    let cs = TileCoord::coords(3);
    assert_eq!(cs.len(), 9);
    assert_eq!(cs[0], TileCoord::new(0, 0));
    assert_eq!(cs[1], TileCoord::new(1, 0));
    assert_eq!(cs[3], TileCoord::new(0, 1));
    assert_eq!(cs[8], TileCoord::new(2, 2));
}

#[test]
fn tile_center_in_millimetres() {
    let loc = TileCoord::new(2, 0).to_location();
    assert_eq!(loc, Location::new(10_000, 2000));
}

#[test]
fn location_to_tile_conversion() {
    assert_eq!(
        TileCoord::try_from_location(Location::new(10_000, 2000)),
        Ok(TileCoord::new(2, 0))
    );
    assert_eq!(
        TileCoord::try_from_location(Location::new(-1, 0)),
        Err(TileCoordOutOfBoundsError::UnderRun)
    );
    assert_eq!(
        TileCoord::try_from_location(Location::new(0, 70_000 * 4000)),
        Err(TileCoordOutOfBoundsError::OverRun)
    );
}

#[test]
fn directions_turn_in_quarters() {
    assert_eq!(TileDirection::East.turn_cw(), TileDirection::South);
    assert_eq!(TileDirection::South.turn_cw(), TileDirection::West);
    assert_eq!(TileDirection::East.turn_ccw(), TileDirection::North);
    assert_eq!(TileDirection::North.turn_ccw(), TileDirection::West);
    assert_eq!(TileDirection::East.tile_offsets(), (1, 0));
    assert_eq!(TileDirection::North.tile_offsets(), (0, -1));
}

#[test]
fn neighbors_wrap_at_the_edges() {
    let t = water_map(4);
    assert_eq!(t.east_of(TileCoord::new(3, 2)), TileCoord::new(0, 2));
    assert_eq!(t.west_of(TileCoord::new(0, 2)), TileCoord::new(3, 2));
    assert_eq!(t.north_of(TileCoord::new(1, 0)), TileCoord::new(1, 3));
    assert_eq!(t.south_of(TileCoord::new(1, 3)), TileCoord::new(1, 0));
}

#[test]
fn neighbor_queries_invert_each_other() {
    let t = water_map(5);
    for x in 0..5u16 {
        for y in 0..5u16 {
            let tc = TileCoord::new(x, y);
            assert_eq!(t.east_of(t.west_of(tc)), tc);
            assert_eq!(t.west_of(t.east_of(tc)), tc);
            assert_eq!(t.north_of(t.south_of(tc)), tc);
            assert_eq!(t.south_of(t.north_of(tc)), tc);
        }
    }
}

#[test]
fn grid_accessors_read_and_write() {
    let mut t = Terrain::new(3);
    assert_eq!(t.get(TileCoord::new(1, 1)), Elevation(0));
    t.set(TileCoord::new(1, 2), Elevation(-7));
    assert_eq!(t.get(TileCoord::new(1, 2)), Elevation(-7));
    assert_eq!(t.try_get(TileCoord::new(1, 2)), Some(Elevation(-7)));
    assert_eq!(t.try_get(TileCoord::new(3, 0)), None);
    assert_eq!(t.try_get(TileCoord::new(0, 3)), None);
}

#[test]
fn from_array_lays_rows_out_in_order() {
    let t = Terrain::from_array([
        [Elevation(-1), Elevation(-2)],
        [Elevation(-3), Elevation(1)],
    ]);
    assert_eq!(t.edge_length, 2);
    // The tile at (x, y) holds array[y][x].
    assert_eq!(t.get(TileCoord::new(0, 0)), Elevation(-1));
    assert_eq!(t.get(TileCoord::new(1, 0)), Elevation(-2));
    assert_eq!(t.get(TileCoord::new(0, 1)), Elevation(-3));
    assert_eq!(t.get(TileCoord::new(1, 1)), Elevation(1));
}

#[test]
fn iter_pairs_coordinates_with_elevations() {
    let t = Terrain::from_array([
        [Elevation(-1), Elevation(-2)],
        [Elevation(-3), Elevation(1)],
    ]);
    let all = t.iter();
    assert_eq!(all.len(), 4);
    assert_eq!(all[0], (TileCoord::new(0, 0), Elevation(-1)));
    assert_eq!(all[3], (TileCoord::new(1, 1), Elevation(1)));
    assert_eq!(t.coords().len(), 4);
}

#[test]
fn contains_and_map_size() {
    let t = water_map(4);
    assert_eq!(t.map_size(), 16_000);
    assert!(t.contains(Location::new(0, 0)));
    assert!(t.contains(Location::new(15_999, 15_999)));
    assert!(!t.contains(Location::new(16_000, 0)));
    assert!(!t.contains(Location::new(-1, 5)));
}

#[test]
fn positive_modulo() {
    assert_eq!(emod_i64(7, 5), 2);
    assert_eq!(emod_i64(-7, 5), 3);
    assert_eq!(emod_i64(-5, 5), 0);
    assert_eq!(emod_i64(0, 5), 0);
}

#[test]
fn torus_normalization_is_idempotent_and_stays_under_the_size() {
    let t = water_map(4);
    let samples = [
        Location::new(-1, -1),
        Location::new(16_000, 16_000),
        Location::new(-16_001, 47_999),
        Location::new(3, 4),
    ];
    for loc in samples {
        let once = t.map_loc_on_torus(loc);
        assert!(0 <= once.x && once.x < 16_000);
        assert!(0 <= once.y && once.y < 16_000);
        assert_eq!(t.map_loc_on_torus(once), once);
    }
    assert_eq!(
        t.map_loc_on_torus(Location::new(-1, 16_001)),
        Location::new(15_999, 1)
    );
}

#[test]
fn torus_distance_takes_the_short_way_round() {
    let t = water_map(4);
    let a = Location::new(1000, 8000);
    let b = Location::new(15_000, 8000);
    // Straight-line difference is 14000; around the seam it is -2000.
    let d = t.torus_distance(a, b);
    assert_eq!(d.x, -2000);
    assert_eq!(d.y, 0);
}

#[test]
fn torus_distance_is_antisymmetric_and_bounded() {
    let t = water_map(4);
    let half = t.map_size() / 2;
    let pts = [
        Location::new(0, 0),
        Location::new(1000, 15_000),
        Location::new(8000, 8000),
        Location::new(-3000, 20_000),
    ];
    for a in pts {
        for b in pts {
            let ab = t.torus_distance(a, b);
            let ba = t.torus_distance(b, a);
            assert_eq!(ab.x, -ba.x);
            assert_eq!(ab.y, -ba.y);
            assert!(ab.x.abs() <= half && ab.y.abs() <= half);
            // The straight-line bound: |d| <= map_size * sqrt(2) / 2,
            // stated over squares.
            let m2 = ab.magnitude_sq() as i128;
            assert!(m2 <= 2 * (half as i128) * (half as i128));
        }
    }
}

#[test]
fn torus_remap_reexpresses_points_near_an_origin() {
    let t = water_map(4);
    let origin = Location::new(14_000, 14_000);
    let x = Location::new(1000, 1000);
    let r = t.torus_remap(origin, x);
    assert_eq!(r, Location::new(17_000, 17_000));
}

#[test]
fn torus_bounds_check_wraps() {
    let t = water_map(4);
    let min = Location::new(14_000, 14_000);
    let max = Location::new(2000, 2000);
    assert!(t.torus_bounds_check(min, max, Location::new(1000, 15_000)));
    assert!(!t.torus_bounds_check(min, max, Location::new(8000, 8000)));
}

#[test]
fn random_sampling_is_deterministic_and_in_bounds() {
    let t = water_map(8);
    let mut r1 = GameRng::seeded(11);
    let mut r2 = GameRng::seeded(11);
    for _ in 0..32 {
        let tc1 = t.random_tile(&mut r1);
        let tc2 = t.random_tile(&mut r2);
        assert_eq!(tc1, tc2);
        assert!(tc1.x < 8 && tc1.y < 8);
        let l1 = t.random_location(&mut r1);
        let l2 = t.random_location(&mut r2);
        assert_eq!(l1, l2);
        assert!(t.contains(l1));
    }
}

#[test]
fn passable_sampling_rejects_land() {
    let mut t = water_map(2);
    // Three land tiles, one water tile.
    t.set(TileCoord::new(0, 0), Elevation(1));
    t.set(TileCoord::new(1, 0), Elevation(1));
    t.set(TileCoord::new(0, 1), Elevation(1));
    let mut rng = GameRng::seeded(5);
    let loc = t.random_passable_location(&mut rng).unwrap();
    assert_eq!(TileCoord::try_from_location(loc), Ok(TileCoord::new(1, 1)));

    let mut all_land = Terrain::new(1);
    all_land.set(TileCoord::new(0, 0), Elevation(2));
    let mut rng = GameRng::seeded(5);
    assert_eq!(all_land.random_passable_location(&mut rng), None);
}
