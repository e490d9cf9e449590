//! Tests of the vehicle, its gear, the physics-step bookkeeping, and
//! the per-tick movement and collection rules.

use plenty_logic::generator::WhiteNoise;
use plenty_logic::rng::GameRng;
use plenty_logic::state::Event;
use plenty_logic::state::Reefing;
use plenty_logic::state::SailKind;
use plenty_logic::state::ShipHull;
use plenty_logic::state::WorldState;
use plenty_logic::state::longitudinal_acceleration;
use plenty_logic::state::wind_interval;
use plenty_logic::state::wind_stream;
use plenty_logic::state::WIND_STREAM_BASE;
use plenty_logic::resource::ResourcePack;
use plenty_logic::resource::ResourcePackContent;
use plenty_logic::terrain::Terrain;
use plenty_logic::terrain::TileCoord;
use plenty_logic::units::Distance;
use plenty_logic::units::Elevation;
use plenty_logic::units::Location;
use plenty_logic::units::Tick;
use plenty_logic::DebuggingConf;
use plenty_logic::Input;
use plenty_logic::WorldInit;

fn water_init(edge: u16) -> WorldInit {
    let mut t = Terrain::new(edge);
    for i in 0..t.playground.len() {
        t.playground[i] = Elevation(-9);
    }
    WorldInit { terrain: t, seed: 1, dbg: DebuggingConf::default() }
}

#[test]
fn hull_chain_small_to_bigger() {
    assert_eq!(ShipHull::default(), ShipHull::Small);
    assert_eq!(ShipHull::Small.upgrade(), Some(ShipHull::Bigger));
    assert_eq!(ShipHull::Bigger.upgrade(), None);
    assert_eq!(ShipHull::Small.value(), 1000);
    assert_eq!(ShipHull::Bigger.value(), 2000);
}

#[test]
fn sail_chain_cog_bermuda_schooner() {
    assert_eq!(SailKind::default(), SailKind::Cog);
    assert_eq!(SailKind::Cog.upgrade(), Some(SailKind::Bermuda));
    assert_eq!(SailKind::Bermuda.upgrade(), Some(SailKind::Schooner));
    assert_eq!(SailKind::Schooner.upgrade(), None);
    assert_eq!(SailKind::Cog.value(), 500);
    assert_eq!(SailKind::Bermuda.value(), 1000);
    assert_eq!(SailKind::Schooner.value(), 2000);
    assert_eq!(SailKind::Cog.max_reefing().value(), 3);
    assert_eq!(SailKind::Bermuda.max_reefing().value(), 4);
    assert_eq!(SailKind::Schooner.max_reefing().value(), 7);
}

#[test]
fn reefing_steps_saturate() {
    let r = Reefing::default();
    assert_eq!(r.value(), 0);
    assert_eq!(r.increase().value(), 1);
    assert_eq!(r.decrease().value(), 0);
    assert_eq!(Reefing(255).increase().value(), 255);
    assert_eq!(Reefing(255).decrease().value(), 254);
}

#[test]
fn sail_area_grows_with_the_square_of_the_reefing_fraction() {
    let mut state = WorldState::default();
    state.player.vehicle.sail.kind = SailKind::Cog;
    state.player.vehicle.sail.reefing = Reefing(0);
    assert_eq!(state.player.vehicle.sail.sail_area(), 0);
    state.player.vehicle.sail.reefing = Reefing(2);
    // 10000 dm^2 * 4 / 9, rounded down.
    assert_eq!(state.player.vehicle.sail.sail_area(), 4444);
    state.player.vehicle.sail.reefing = Reefing(3);
    assert_eq!(state.player.vehicle.sail.sail_area(), 10_000);
    // Over-deployed reefing counts as fully deployed.
    state.player.vehicle.sail.reefing = Reefing(9);
    assert_eq!(state.player.vehicle.sail.sail_area(), 10_000);
    state.player.vehicle.sail.kind = SailKind::Schooner;
    state.player.vehicle.sail.reefing = Reefing(7);
    assert_eq!(state.player.vehicle.sail.sail_area(), 50_000);
}

#[test]
fn inputs_are_applied_with_a_defensive_reefing_clamp() {
    let mut state = WorldState::default();
    state.begin_tick(&Input {
        reefing: Reefing(200),
        rudder: plenty_logic::units::BiPolarFraction(-64),
    });
    assert_eq!(state.timestamp, Tick(1));
    // A Cog supports at most reefing three.
    assert_eq!(state.player.vehicle.sail.reefing.value(), 3);
    assert_eq!(state.player.vehicle.ruder, plenty_logic::units::BiPolarFraction(-64));
    state.begin_tick(&Input {
        reefing: Reefing(2),
        rudder: plenty_logic::units::BiPolarFraction(0),
    });
    assert_eq!(state.timestamp, Tick(2));
    assert_eq!(state.player.vehicle.sail.reefing.value(), 2);
}

#[test]
fn vehicle_speed_and_mass() {
    let mut state = WorldState::default();
    state.player.vehicle.velocity = Distance { x: 3000, y: 4000 };
    assert_eq!(state.player.vehicle.ground_speed(), 5000);
    assert_eq!(state.player.vehicle.speed_sq(), 25_000_000);
    assert_eq!(state.player.vehicle.mass(), 100);
    state.player.vehicle.resource_weight = 250;
    assert_eq!(state.player.vehicle.mass(), 350);
}

#[test]
fn attitude_is_normalized_and_clamped() {
    let mut state = WorldState::default();
    state.player.vehicle.set_attitude(2750, 9000, 500, -500);
    assert_eq!(state.player.vehicle.heading, 750);
    assert_eq!(state.player.vehicle.angle_of_list, 3142);
    assert_eq!(state.player.vehicle.sail.orientation_rectangle, 500);
    assert_eq!(state.player.vehicle.sail.orientation_triangle, -500);
    state.player.vehicle.set_attitude(10, -9000, 0, 0);
    assert_eq!(state.player.vehicle.angle_of_list, -3142);
}

#[test]
fn head_on_tile_collision_reverts_and_reports_the_approach_speed() {
    // A 4x4 water map with one land tile at (2, 1).
    let mut init = water_init(4);
    init.terrain.set(TileCoord::new(2, 1), Elevation(1));

    let mut state = WorldState::default();
    // Stand at the center of tile (1, 1), sailing due east.
    state.player.vehicle.pos = Location::new(6000, 6000);
    state.player.vehicle.velocity = Distance { x: 1000, y: 0 };

    let entry_speed = state.player.vehicle.ground_speed();
    let events = state.move_vehicle(
        &init,
        Distance { x: 4000, y: 0 },
        Distance { x: 1000, y: 0 },
        entry_speed,
    );

    assert_eq!(events, vec![Event::TileCollision(1000)]);
    // Position reverted to the pre-collision tile.
    assert_eq!(state.player.vehicle.pos, Location::new(6000, 6000));
    // Bounce: half speed, the axis that changed tile flipped.
    assert_eq!(state.player.vehicle.velocity, Distance { x: -500, y: 0 });
}

#[test]
fn open_water_movement_wraps_on_the_torus() {
    let init = water_init(4);
    let mut state = WorldState::default();
    state.player.vehicle.pos = Location::new(15_000, 8000);
    state.player.vehicle.velocity = Distance { x: 1000, y: 0 };
    let entry_speed = state.player.vehicle.ground_speed();
    let events = state.move_vehicle(
        &init,
        Distance { x: 2000, y: 0 },
        Distance { x: 1000, y: 0 },
        entry_speed,
    );
    assert!(events.is_empty());
    assert_eq!(state.player.vehicle.pos, Location::new(1000, 8000));
    assert_eq!(state.player.vehicle.velocity, Distance { x: 1000, y: 0 });
}

#[test]
fn a_furled_slow_ship_docks_inside_the_harbor_range() {
    let init = water_init(4);
    let mut state = WorldState::default();
    state.harbors.push(plenty_logic::state::Harbor {
        loc: Location::new(6000, 6000),
        orientation: 0,
    });
    state.player.vehicle.pos = Location::new(8000, 6000);
    state.player.vehicle.velocity = Distance { x: 500, y: 0 };
    state.player.vehicle.sail.reefing = Reefing(0);
    let entry_speed = state.player.vehicle.ground_speed();
    let events = state.move_vehicle(
        &init,
        Distance { x: 0, y: 0 },
        Distance { x: 500, y: 0 },
        entry_speed,
    );
    assert!(events.is_empty());
    assert_eq!(state.player.vehicle.velocity, Distance { x: 0, y: 0 });
}

#[test]
fn crossing_into_a_harbor_bounces_back() {
    let init = water_init(4);
    let mut state = WorldState::default();
    state.harbors.push(plenty_logic::state::Harbor {
        loc: Location::new(6000, 6000),
        orientation: 0,
    });
    // Approaching head-on from the east, from outside the collision
    // distance to inside it; sail set so docking cannot interfere.
    state.player.vehicle.pos = Location::new(8400, 6000);
    state.player.vehicle.velocity = Distance { x: -600, y: 0 };
    state.player.vehicle.sail.reefing = Reefing(2);
    let entry_speed = state.player.vehicle.ground_speed();
    let events = state.move_vehicle(
        &init,
        Distance { x: -600, y: 0 },
        Distance { x: -600, y: 0 },
        entry_speed,
    );
    assert_eq!(events, vec![Event::HarborCollision(600)]);
    // Position reverted; one and a half of the head-on component removed.
    assert_eq!(state.player.vehicle.pos, Location::new(8400, 6000));
    assert_eq!(state.player.vehicle.velocity, Distance { x: 300, y: 0 });
}

#[test]
fn nearby_resources_are_collected_with_category_events() {
    let init = water_init(4);
    let mut state = WorldState::default();
    state.player.vehicle.pos = Location::new(6000, 6000);

    let mut rng = GameRng::seeded(3);
    let mut close = ResourcePack::new(Location::new(6500, 6000), ResourcePackContent::Fish0, &mut rng);
    close.loc = Location::new(6500, 6000);
    let mut far = ResourcePack::new(Location::new(9000, 6000), ResourcePackContent::Starfish0, &mut rng);
    far.loc = Location::new(9000, 6000);
    state.resources.push(close);
    state.resources.push(far);

    let events = state.collect_resources(&init);
    assert_eq!(events, vec![Event::Fishy]);
    assert_eq!(state.resources.len(), 1);
    assert_eq!(state.resources[0].content, ResourcePackContent::Starfish0);
    // Fish0 weighs 10 kg and is worth 12 money.
    assert_eq!(state.player.vehicle.resource_weight, 10);
    assert_eq!(state.player.vehicle.resource_value, 12);
}

#[test]
fn animation_progress_is_a_pure_function_of_the_tick() {
    let mut rng = GameRng::seeded(9);
    let pack = ResourcePack::new(Location::new(0, 0), ResourcePackContent::Fish2, &mut rng);
    let (d1, p1) = pack.animation_progress(Tick(123));
    let (d2, p2) = pack.animation_progress(Tick(123));
    assert_eq!((d1, p1), (d2, p2));
    assert!(d1 >= 1);
    // One full cycle later the progress repeats.
    let (_, p3) = pack.animation_progress(Tick(123 + d1));
    assert_eq!(p1, p3);
}

#[test]
fn acceleration_vanishes_at_rest_under_zero_work() {
    assert_eq!(longitudinal_acceleration(0, 0), 0);
    // From rest, one tick of work accelerating to 3600 mm/s of
    // equivalent energy: a = 3600 * 60.
    assert_eq!(longitudinal_acceleration(0, 3600 * 3600), 3600 * 60);
    // The discriminant is never negative: full headway, zero work.
    assert_eq!(longitudinal_acceleration(5000, 0), 0);
}

#[test]
fn wind_intervals_and_streams_are_reconstructible() {
    assert_eq!(wind_interval(Tick(0)), (0, 0));
    assert_eq!(wind_interval(Tick(599)), (0, 599));
    assert_eq!(wind_interval(Tick(600)), (1, 0));
    assert_eq!(wind_interval(Tick(1337)), (2, 137));
    assert_eq!(wind_stream(0, 0), WIND_STREAM_BASE);
    assert_eq!(wind_stream(7, 3), WIND_STREAM_BASE ^ 7 ^ 3);
    assert_eq!(wind_stream(7, 3), wind_stream(7, 3));
}

#[test]
fn generated_vehicles_start_fresh() {
    let setting = plenty_logic::generator::Setting { edge_length: 12, resource_density: 50 };
    let mut rng = GameRng::seeded(21);
    let world = WhiteNoise.generate(&setting, &mut rng).unwrap();
    assert_eq!(world.state.timestamp, Tick(0));
    assert_eq!(world.state.player.money, 0);
    assert_eq!(world.state.player.vehicle.resource_weight, 0);
    assert_eq!(world.state.player.vehicle.sail.kind, SailKind::Cog);
    assert_eq!(world.state.player.vehicle.hull, ShipHull::Small);
}
