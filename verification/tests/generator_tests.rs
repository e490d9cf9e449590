//! Tests of the world generator: seed determinism, harbor placement on
//! shallow water, and resources never spawning below the seabed.

use plenty_logic::generator::PerlinNoise;
use plenty_logic::generator::Setting;
use plenty_logic::generator::WhiteNoise;
use plenty_logic::rng::GameRng;
use plenty_logic::terrain::Terrain;
use plenty_logic::terrain::TileCoord;
use plenty_logic::units::Elevation;
use plenty_logic::units::TileType;
use plenty_logic::World;

fn assert_worlds_identical(a: &World, b: &World) {
    assert_eq!(a.init.terrain.edge_length, b.init.terrain.edge_length);
    assert_eq!(a.init.terrain.playground, b.init.terrain.playground);
    assert_eq!(a.init.seed, b.init.seed);
    assert_eq!(a.state.timestamp, b.state.timestamp);
    assert_eq!(a.state.harbors, b.state.harbors);
    assert_eq!(a.state.resources, b.state.resources);
    assert_eq!(a.state.wind, b.state.wind);
    assert_eq!(a.state.player.money, b.state.player.money);
    assert_eq!(a.state.player.vehicle, b.state.player.vehicle);
}

#[test]
fn same_seed_same_world() {
    let setting = Setting { edge_length: 16, resource_density: 100 };
    let w1 = WhiteNoise.generate(&setting, &mut GameRng::seeded(1234)).unwrap();
    let w2 = WhiteNoise.generate(&setting, &mut GameRng::seeded(1234)).unwrap();
    assert_worlds_identical(&w1, &w2);

    // The generators consume the stream identically too.
    let mut r1 = GameRng::seeded(99);
    let mut r2 = GameRng::seeded(99);
    let w3 = WhiteNoise.generate(&setting, &mut r1).unwrap();
    let w4 = WhiteNoise.generate(&setting, &mut r2).unwrap();
    assert_worlds_identical(&w3, &w4);
    assert_eq!(r1.next_u64(), r2.next_u64());
}

#[test]
fn different_seeds_give_different_terrain() {
    let setting = Setting { edge_length: 16, resource_density: 100 };
    let w1 = WhiteNoise.generate(&setting, &mut GameRng::seeded(1)).unwrap();
    let w2 = WhiteNoise.generate(&setting, &mut GameRng::seeded(2)).unwrap();
    assert_ne!(w1.init.terrain.playground, w2.init.terrain.playground);
}

#[test]
fn harbors_sit_on_shallow_water_only() {
    let setting = Setting { edge_length: 16, resource_density: 100 };
    let world = WhiteNoise.generate(&setting, &mut GameRng::seeded(77)).unwrap();
    assert!(!world.state.harbors.is_empty());
    for h in &world.state.harbors {
        let tc = TileCoord::try_from_location(h.loc).unwrap();
        let elev = world.init.terrain.get(tc);
        assert_eq!(elev.classify(), TileType::ShallowWater);
    }
}

#[test]
fn resources_never_spawn_below_the_seabed() {
    let setting = Setting { edge_length: 16, resource_density: 500 };
    let world = WhiteNoise.generate(&setting, &mut GameRng::seeded(4242)).unwrap();
    assert!(!world.state.resources.is_empty());
    for r in &world.state.resources {
        let tc = TileCoord::try_from_location(r.origin).unwrap();
        let seabed = world.init.terrain.get(tc);
        assert!(r.elevation.0 >= seabed.0, "a pack sank below the seabed");
    }
}

#[test]
fn generation_fails_cleanly_without_shallow_water() {
    // A map of pure grass has nowhere to put a harbor.
    let mut t = Terrain::new(4);
    for i in 0..t.playground.len() {
        t.playground[i] = Elevation(2);
    }
    let setting = Setting { edge_length: 4, resource_density: 100 };
    let r = PerlinNoise.generate(&setting, t, &mut GameRng::seeded(5));
    assert!(r.is_none());
}

#[test]
fn smooth_terrain_worlds_are_seed_deterministic_too() {
    // A hand-shaped map standing in for a noise-field sample.
    let mut t = Terrain::new(8);
    for i in 0..t.playground.len() {
        let band = (i % 24) as i16;
        t.playground[i] = Elevation(band - 18);
    }
    let setting = Setting { edge_length: 8, resource_density: 200 };
    let w1 = PerlinNoise.generate(&setting, t.clone(), &mut GameRng::seeded(31)).unwrap();
    let w2 = PerlinNoise.generate(&setting, t, &mut GameRng::seeded(31)).unwrap();
    assert_worlds_identical(&w1, &w2);
    for h in &w1.state.harbors {
        let tc = TileCoord::try_from_location(h.loc).unwrap();
        assert_eq!(w1.init.terrain.get(tc).classify(), TileType::ShallowWater);
    }
}

#[test]
fn schooling_types_spawn_in_groups() {
    let setting = Setting { edge_length: 16, resource_density: 500 };
    let world = WhiteNoise.generate(&setting, &mut GameRng::seeded(8)).unwrap();
    // Fish0 schools by fours at least; if any spawned, several did.
    let fish0 = world
        .state
        .resources
        .iter()
        .filter(|r| r.content == plenty_logic::resource::ResourcePackContent::Fish0)
        .count();
    assert!(fish0 == 0 || fish0 >= 4);
}

#[test]
fn rng_streams_are_reproducible() {
    let mut a = GameRng::seeded(1);
    let mut b = GameRng::seeded(1);
    for _ in 0..100 {
        assert_eq!(a.next_u64(), b.next_u64());
    }
    let mut c = GameRng::seeded(123);
    for _ in 0..100 {
        let v = c.range_u64(17);
        assert!(v < 17);
        let w = c.range_i64(-5, 11);
        assert!(-5 <= w && w < 11);
    }
}
