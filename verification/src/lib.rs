//! Core logic of a tick-based sailing and fishing simulation on a toroidal
//! tile map: strongly-typed units, a torus-topology terrain grid, a seeded
//! procedural world generator, the integer part of the per-tick physics
//! step (collisions, docking, resource collection), and a harbor trading
//! state machine with monetary invariants.
//!
//! All spatial quantities are held in fixed-point integers: positions and
//! distances in millimetres, speeds in millimetres per second, angles in
//! thousandths of a turn or milliradians. The floating-point force model
//! (sail aerodynamics, friction, steering trigonometry) is the host's
//! concern; it reads and writes this state through the contracts below.

use vstd::prelude::*;

pub mod generator;
pub mod resource;
pub mod rng;
pub mod state;
pub mod terrain;
pub mod units;

verus! {

/// Represents the input state of a player.
#[derive(Debug, Copy, Clone, PartialEq, Eq, Structural, Default)]
pub struct Input {
    /// The wanted reefing setting; the physics step clamps it to the
    /// current sail kind's maximum.
    pub reefing: crate::state::Reefing,

    /// The current steering as a fraction from -1.0 to +1.0.
    ///
    /// The meaning is as follows:
    /// * `-1.0` means full deflection towards the left
    /// * `0.0` means neutral, straight ahead
    /// * `+1.0` means full deflection towards the right
    pub rudder: crate::units::BiPolarFraction,
}

/// Debugging configuration, the cheats of the simulation.
#[derive(Debug, Copy, Clone, PartialEq, Eq, Structural, Default)]
pub struct DebuggingConf {
    /// Give the ship an engine which will propel it at a constant speed
    /// regardless of the wind.
    pub ship_engine: bool,

    /// Make the wind constantly turn.
    pub wind_turning: bool,

    /// Fix the wind in a specific direction, in thousandths of a turn.
    pub fixed_wind_direction: Option<u32>,
}

/// The entire game world.
#[derive(Debug, Clone)]
pub struct World {
    /// The immutable part: terrain, seed and configuration.
    pub init: WorldInit,
    /// The dynamic part: player, resources, harbors and wind.
    pub state: crate::state::WorldState,
}

/// The static initial part of the world, created once at generation
/// time and never mutated during play.
#[derive(Debug, Clone)]
pub struct WorldInit {
    /// Defines the map tiles.
    pub terrain: crate::terrain::Terrain,
    /// Random seed used for this game.
    pub seed: u64,
    /// Debugging configuration.
    pub dbg: DebuggingConf,
}

/// The size (edge length) of a terrain tile, in meters.
pub const TILE_SIZE: u32 = 4;

/// The size (edge length) of a terrain tile, in millimetres.
pub const TILE_SIZE_MM: i64 = 4000;

/// The bounding-box "diameter" of a harbor, in millimetres.
pub const HARBOR_SIZE_MM: i64 = 3000;

/// The effect "diameter" within which a player can interact with a harbor,
/// in millimetres.
pub const HARBOR_EFFECT_SIZE_MM: i64 = 6000;

/// The maximum speed of the player while trading, in millimetres per second.
pub const HARBOR_MAX_SPEED_MMPS: i64 = 1000;

/// The maximum speed of the player at which a ship is docked, in
/// millimetres per second.
pub const HARBOR_DOCKING_SPEED_MMPS: i64 = 800;

/// The "diameter" of the player's vessel, in millimetres.
pub const VEHICLE_SIZE_MM: i64 = 1300;

/// The mass of an empty vehicle, in kilograms.
pub const VEHICLE_DEADWEIGHT_KG: u64 = 100;

/// The physical size ("diameter") of a water resource pack, in millimetres.
pub const RESOURCE_PACK_FISH_SIZE_MM: i64 = 800;

/// The interval between wind changes, in seconds.
pub const WIND_CHANGE_INTERVAL: u16 = 10;

/// The maximum wind speed, in millimetres per second.
pub const MAX_WIND_SPEED_MMPS: i64 = 15000;

/// Number of fish variants.
pub const FISH_TYPES: u8 = 8;

/// The base duration of the fish animation, in seconds.
pub const FISH_ANIM_BASE_DURATION: u32 = 3;

/// Target logical ticks per second.
pub const TICKS_PER_SECOND: u16 = 60;

} // verus!
