//! The dynamic world state: the player's vehicle and its integer-scale
//! per-tick bookkeeping, harbors, resources, and the trading state
//! machine with its monetary invariants.
//!
//! One simulation tick runs in a fixed order: [`WorldState::begin_tick`]
//! advances time and applies the player's input; the host re-evaluates
//! every resource's animated pose (from
//! [`crate::resource::ResourcePack::animation_progress`]) and the wind
//! (from [`wind_interval`] and [`wind_stream`]); its floating-point
//! force model turns sail and friction forces into a position delta and
//! a new velocity, with the delicate energy balance done here by
//! [`longitudinal_acceleration`]; [`WorldState::move_vehicle`] then
//! integrates, wraps on the torus, and resolves terrain and harbor
//! collisions and docking; and [`WorldState::collect_resources`] takes
//! nearby catch on board. Each of these steps is pinned to a functional
//! model, so the whole tick's bookkeeping is deterministic.

use vstd::prelude::*;

use crate::units::BiPolarFraction;
use crate::units::Distance;
use crate::units::Fraction;
use crate::units::Location;
use crate::units::Tick;
use crate::units::Wind;
use crate::Input;
use crate::TICKS_PER_SECOND;

verus! {

/// The velocity bound, per component in millimetres per second, that
/// every well-formed vehicle respects; generous enough for any force the
/// host can apply, small enough that all collision arithmetic stays in
/// range.
pub const VELOCITY_LIMIT_MMPS: i64 = 100_000_000;

/// Half a turn, in milliradians: the bound of the angle of list.
pub const HALF_TURN_MRAD: i32 = 3142;

/// Events that can happen between ticks. The collision payloads carry
/// the impact speed, in millimetres per second.
#[derive(Debug, Copy, Clone, PartialEq, Eq, Structural)]
pub enum Event {
    Fishy,
    Starfish,
    Shoe,
    Grass,
    TileCollision(u64),
    HarborCollision(u64),
}

/// Represents the reason for the failure of upgrading gear.
#[derive(Debug, Copy, Clone, PartialEq, Eq, Structural)]
pub enum UpgradeError {
    NotDocked,
    InsufficientFunds,
    MaxLevel,
}

/// Represents the type or upgrade level of the ship hull.
#[derive(Debug, Copy, Clone, PartialEq, Eq, Structural, Hash)]
pub enum ShipHull {
    Small,
    Bigger,
}

impl Default for ShipHull {
    /// The starting hull.
    fn default() -> (r: Self)
        ensures
            r == ShipHull::Small,
    {
        ShipHull::Small
    }
}

impl ShipHull {
    /// Gives the next better hull, or `None` at the top of the chain.
    pub fn upgrade(self) -> (r: Option<Self>)
        ensures
            r == match self {
                ShipHull::Small => Some(ShipHull::Bigger),
                ShipHull::Bigger => None::<ShipHull>,
            },
    {
        match self {
            ShipHull::Small => Some(ShipHull::Bigger),
            ShipHull::Bigger => None,
        }
    }

    /// Returns the nominal value of this hull (its purchase cost).
    pub fn value(self) -> (r: u64)
        ensures
            r == match self {
                ShipHull::Small => 1000u64,
                ShipHull::Bigger => 2000u64,
            },
    {
        match self {
            ShipHull::Small => 1_000,
            ShipHull::Bigger => 2_000,
        }
    }
}

/// Represents the type or upgrade level of the sail.
#[derive(Debug, Copy, Clone, PartialEq, Eq, Structural, Hash)]
pub enum SailKind {
    Cog,
    Bermuda,
    Schooner,
}

impl Default for SailKind {
    /// The starting sail kind.
    fn default() -> (r: Self)
        ensures
            r == SailKind::Cog,
    {
        SailKind::Cog
    }
}

impl SailKind {
    /// Gives the next better sail kind, or `None` at the top of the
    /// chain.
    pub fn upgrade(self) -> (r: Option<Self>)
        ensures
            r == match self {
                SailKind::Cog => Some(SailKind::Bermuda),
                SailKind::Bermuda => Some(SailKind::Schooner),
                SailKind::Schooner => None::<SailKind>,
            },
    {
        match self {
            SailKind::Cog => Some(SailKind::Bermuda),
            SailKind::Bermuda => Some(SailKind::Schooner),
            SailKind::Schooner => None,
        }
    }

    /// Returns the nominal value of this sail (its purchase cost).
    pub fn value(self) -> (r: u64)
        ensures
            r == match self {
                SailKind::Cog => 500u64,
                SailKind::Bermuda => 1000u64,
                SailKind::Schooner => 2000u64,
            },
    {
        match self {
            SailKind::Cog => 500,
            SailKind::Bermuda => 1_000,
            SailKind::Schooner => 2_000,
        }
    }

    /// The highest supported reefing level of this sail, as a number.
    pub open spec fn max_reefing_spec(self) -> u8 {
        match self {
            SailKind::Cog => 3u8,
            SailKind::Bermuda => 4u8,
            SailKind::Schooner => 7u8,
        }
    }

    /// Returns the highest supported reefing level of this sail.
    pub fn max_reefing(self) -> (r: Reefing)
        ensures
            r.value_spec() == self.max_reefing_spec(),
    {
        match self {
            SailKind::Cog => Reefing(3),
            SailKind::Bermuda => Reefing(4),
            SailKind::Schooner => Reefing(7),
        }
    }

    /// Returns the sail area at the highest reefing level, in square
    /// decimetres.
    pub fn max_area(self) -> (r: u32)
        ensures
            r == self.max_area_spec(),
    {
        match self {
            SailKind::Cog => 10_000,
            SailKind::Bermuda => 20_000,
            SailKind::Schooner => 50_000,
        }
    }

    /// The sail area at the highest reefing level, in square decimetres.
    pub open spec fn max_area_spec(self) -> u32 {
        match self {
            SailKind::Cog => 10_000u32,
            SailKind::Bermuda => 20_000u32,
            SailKind::Schooner => 50_000u32,
        }
    }
}

/// Represents the currently deployed sail amount.
///
/// It influences the proportion of the wind that can be used to propel
/// the ship. The reefing levels range from zero (no sail) to a sail
/// specific maximum, see [`SailKind`].
#[derive(Debug, Copy, Clone, PartialEq, Eq, Structural, Hash, Default)]
pub struct Reefing(pub u8);

impl Reefing {
    /// The plain reefing value.
    pub open spec fn value_spec(self) -> u8 {
        self.0
    }

    /// Shift up, deploying more sail; saturates at the numeric top.
    pub fn increase(self) -> (r: Self)
        ensures
            r.value_spec() == if self.value_spec() == u8::MAX {
                u8::MAX as int
            } else {
                self.value_spec() + 1
            },
    {
        if self.0 == u8::MAX {
            self
        } else {
            Reefing(self.0 + 1)
        }
    }

    /// Shift down, taking in sail; zero is no sail at all.
    pub fn decrease(self) -> (r: Self)
        ensures
            r.value_spec() == if self.value_spec() == 0 {
                0int
            } else {
                self.value_spec() - 1
            },
    {
        if self.0 == 0 {
            self
        } else {
            Reefing(self.0 - 1)
        }
    }

    /// The plain reefing value. Zero means no sail at all.
    pub fn value(self) -> (r: u8)
        ensures
            r == self.value_spec(),
    {
        self.0
    }
}

/// Law: a reefing level at or below a sail kind's maximum stays there
/// under an increase gated by that kind — the step that raises the
/// level only when it is still below the maximum. Since every step
/// preserves the bound, any sequence of gated increases does; and the
/// physics step clamps even ungated inputs, see
/// [`Vehicle::apply_input`].
pub proof fn lemma_gated_increase_stays_legal(r: Reefing, kind: SailKind)
    requires
        r.value_spec() <= kind.max_reefing_spec(),
    ensures
        ({
            let stepped = if r.value_spec() < kind.max_reefing_spec() {
                r.value_spec() + 1
            } else {
                r.value_spec() as int
            };
            stepped <= kind.max_reefing_spec()
        }),
{
}

/// Represents the sail of the ship.
#[derive(Debug, Copy, Clone, PartialEq, Eq, Structural, Default)]
pub struct Sail {
    /// The sail type.
    pub kind: SailKind,
    /// The wear of the sail.
    pub condition: Fraction,
    /// Current reefing level; never above the kind's maximum.
    pub reefing: Reefing,
    /// Absolute sail orientation for rectangle-rigged sails, in
    /// milliradians, zero is the world x axis.
    pub orientation_rectangle: i32,
    /// Absolute sail orientation for triangle-rigged sails, in
    /// milliradians, zero is the world x axis.
    pub orientation_triangle: i32,
}

impl Sail {
    /// The reefing level is within the sail kind's range.
    pub open spec fn wf(self) -> bool {
        self.reefing.value_spec() <= self.kind.max_reefing_spec()
    }

    /// The currently deployed area of the sail, in square decimetres:
    /// the maximum area scaled by the square of the deployed fraction.
    pub open spec fn sail_area_spec(self) -> int {
        let max = self.kind.max_reefing_spec() as int;
        let rel = if self.reefing.value_spec() > self.kind.max_reefing_spec() {
            max
        } else {
            self.reefing.value_spec() as int
        };
        self.kind.max_area_spec() * (rel * rel) / (max * max)
    }

    /// The currently deployed area of the sail, in square decimetres.
    ///
    /// The area grows with the square of the deployed reefing fraction;
    /// a reefing above the kind's maximum counts as fully deployed.
    pub fn sail_area(self) -> (r: u32)
        ensures
            r == self.sail_area_spec(),
            r <= self.kind.max_area_spec(),
    {
        let max: u32 = self.kind.max_reefing().value() as u32;
        let v: u32 = self.reefing.value() as u32;
        let rel: u32 = if v > max {
            max
        } else {
            v
        };
        proof {
            assert((rel as int) * (rel as int) <= 49 && (max as int) * (max as int) <= 49
                && (self.kind.max_area_spec() as int) * ((rel as int) * (rel as int)) <= 50_000
                * 49) by (nonlinear_arith)
                requires
                    0 <= (rel as int) <= (max as int),
                    1 <= (max as int) <= 7,
                    0 <= (self.kind.max_area_spec() as int) <= 50_000,
            ;
        }
        let area = self.kind.max_area() * (rel * rel) / (max * max);
        proof {
            let m = max as int;
            let a = self.kind.max_area_spec() as int;
            assert(a * ((rel * rel) as int) / (m * m) <= a) by (nonlinear_arith)
                requires
                    1 <= m,
                    0 <= (rel as int) <= m,
                    0 <= a,
            ;
        }
        area
    }
}

/// A harbor on the map. Immutable after generation; trading addresses
/// harbors by their index in the world's list, whose order is stable.
#[derive(Debug, Copy, Clone, PartialEq, Eq, Structural)]
pub struct Harbor {
    /// Absolute position, in millimetres.
    pub loc: Location,
    /// Orientation, in thousandths of a turn, zero is the world x axis.
    pub orientation: u32,
}

/// Represents the player's vessel.
#[derive(Debug, Copy, Clone, PartialEq)]
pub struct Vehicle {
    /// The ship hull type.
    pub hull: ShipHull,
    /// Absolute position, in millimetres; kept on the map by the torus
    /// remap of every move.
    pub pos: Location,
    /// Current movement, in millimetres per second.
    ///
    /// Notice that this direction might differ from the `heading` if
    /// drifting, or it could be anti-parallel if driving in reverse.
    pub velocity: Distance,
    /// Current heading, in thousandths of a turn, zero is the world x
    /// axis.
    pub heading: u32,
    /// Current angle of list, in milliradians, zero is upright.
    ///
    /// A negative value is a tilt to the left, a positive value a tilt
    /// to the right.
    pub angle_of_list: i32,
    /// The current steering, always relative to `heading`.
    pub ruder: BiPolarFraction,
    /// State of the sail.
    pub sail: Sail,
    /// Amount of fish and stuff on board, in kilograms.
    pub resource_weight: u32,
    /// Value of fish and stuff on board, in money.
    pub resource_value: u64,
}

impl Default for Vehicle {
    /// A fresh vehicle at the map origin, at rest, with the starting
    /// gear and nothing on board.
    fn default() -> (r: Self)
        ensures
            r.hull == ShipHull::Small,
            r.pos == (Location { x: 0, y: 0 }),
            r.velocity == (Distance { x: 0, y: 0 }),
            r.heading == 0,
            r.angle_of_list == 0,
            r.ruder == BiPolarFraction(0),
            r.sail == (Sail {
                kind: SailKind::Cog,
                condition: Fraction(0),
                reefing: Reefing(0),
                orientation_rectangle: 0,
                orientation_triangle: 0,
            }),
            r.resource_weight == 0,
            r.resource_value == 0,
    {
        Vehicle {
            hull: ShipHull::Small,
            pos: Location { x: 0, y: 0 },
            velocity: Distance { x: 0, y: 0 },
            heading: 0,
            angle_of_list: 0,
            ruder: BiPolarFraction(0),
            sail: Sail {
                kind: SailKind::Cog,
                condition: Fraction(0),
                reefing: Reefing(0),
                orientation_rectangle: 0,
                orientation_triangle: 0,
            },
            resource_weight: 0,
            resource_value: 0,
        }
    }
}

impl Vehicle {
    /// The vehicle state stays within the fixed-point envelope of a map
    /// of size `size` millimetres: on the map, below the velocity bound,
    /// with a normalized heading, a bounded list angle, and a legal
    /// reefing level.
    pub open spec fn wf(self, size: int) -> bool {
        &&& 0 <= self.pos.x < size
        &&& 0 <= self.pos.y < size
        &&& -VELOCITY_LIMIT_MMPS <= self.velocity.x <= VELOCITY_LIMIT_MMPS
        &&& -VELOCITY_LIMIT_MMPS <= self.velocity.y <= VELOCITY_LIMIT_MMPS
        &&& self.heading < 1000
        &&& -HALF_TURN_MRAD <= self.angle_of_list <= HALF_TURN_MRAD
        &&& self.sail.wf()
    }

    /// The squared ground speed, in squared millimetres per second.
    pub open spec fn speed_sq_spec(self) -> int {
        self.velocity.magnitude_sq_spec()
    }

    /// Ground speed, in millimetres per second, rounded down: the
    /// magnitude of `velocity`.
    pub fn ground_speed(&self) -> (r: u64)
        requires
            self.velocity.in_range(),
        ensures
            (r as int) * (r as int) <= self.speed_sq_spec(),
            self.speed_sq_spec() < ((r as int + 1) * (r as int + 1)),
    {
        self.velocity.magnitude()
    }

    /// The squared ground speed, in squared millimetres per second.
    pub fn speed_sq(&self) -> (r: u128)
        requires
            self.velocity.in_range(),
        ensures
            r as int == self.speed_sq_spec(),
    {
        self.velocity.magnitude_sq()
    }

    /// Applies the given input to this vehicle: the rudder as given, the
    /// reefing clamped to the current sail kind's maximum, so no input
    /// can deploy more sail than the rig supports.
    pub fn apply_input(&mut self, input: Input)
        ensures
            final(self).sail.reefing.value_spec() == if input.reefing.value_spec()
                > old(self).sail.kind.max_reefing_spec() {
                old(self).sail.kind.max_reefing_spec() as int
            } else {
                input.reefing.value_spec() as int
            },
            final(self).sail.kind == old(self).sail.kind,
            final(self).sail.wf(),
            final(self).ruder == input.rudder,
            *final(self) == (Vehicle {
                sail: final(self).sail,
                ruder: input.rudder,
                ..*old(self)
            }),
            final(self).sail == (Sail { reefing: final(self).sail.reefing, ..old(self).sail }),
    {
        let max = self.sail.kind.max_reefing();
        let wanted = input.reefing;
        self.sail.reefing = if wanted.value() > max.value() {
            max
        } else {
            wanted
        };
        self.ruder = input.rudder;
    }

    /// Returns the total mass of the vehicle (inclusive payloads), in
    /// kilograms.
    pub fn mass(&self) -> (r: u64)
        ensures
            r == crate::VEHICLE_DEADWEIGHT_KG + self.resource_weight,
    {
        crate::VEHICLE_DEADWEIGHT_KG + (self.resource_weight as u64)
    }

    /// Stores the attitude the host's force model derived for this tick:
    /// the heading normalized to a turn, the angle of list clamped to
    /// half a turn either way, and the two sail orientations.
    pub fn set_attitude(&mut self, heading: u32, angle_of_list: i64, rect: i32, tri: i32)
        ensures
            final(self).heading == heading % 1000,
            final(self).angle_of_list == if angle_of_list < -HALF_TURN_MRAD {
                -HALF_TURN_MRAD as int
            } else if angle_of_list > HALF_TURN_MRAD {
                HALF_TURN_MRAD as int
            } else {
                angle_of_list as int
            },
            final(self).sail.orientation_rectangle == rect,
            final(self).sail.orientation_triangle == tri,
            final(self).sail.kind == old(self).sail.kind,
            final(self).sail.reefing == old(self).sail.reefing,
            final(self).sail.condition == old(self).sail.condition,
            *final(self) == (Vehicle {
                heading: final(self).heading,
                angle_of_list: final(self).angle_of_list,
                sail: final(self).sail,
                ..*old(self)
            }),
    {
        self.heading = heading % 1000;
        self.angle_of_list = if angle_of_list < -(HALF_TURN_MRAD as i64) {
            -HALF_TURN_MRAD
        } else if angle_of_list > HALF_TURN_MRAD as i64 {
            HALF_TURN_MRAD
        } else {
            angle_of_list as i32
        };
        self.sail.orientation_rectangle = rect;
        self.sail.orientation_triangle = tri;
    }
}

/// Truncating division (rounding towards zero) of `a` by a positive `b`.
pub open spec fn tdiv(a: int, b: int) -> int {
    if a >= 0 {
        a / b
    } else {
        -((-a) / b)
    }
}

/// Truncating halving of a velocity component.
pub open spec fn half_toward_zero(v: int) -> int {
    tdiv(v, 2)
}

/// A value clamped into the velocity envelope.
pub open spec fn clamp_velocity(v: int) -> int {
    if v < -VELOCITY_LIMIT_MMPS {
        -VELOCITY_LIMIT_MMPS as int
    } else if v > VELOCITY_LIMIT_MMPS {
        VELOCITY_LIMIT_MMPS as int
    } else {
        v
    }
}

/// Truncating division of `a` by a positive `b`, on machine integers.
fn tdiv_i128(a: i128, b: i128) -> (r: i128)
    requires
        1 <= b,
        -0x4000_0000_0000_0000_0000_0000_0000_0000 <= a,
    ensures
        r == tdiv(a as int, b as int),
{
    if a >= 0 {
        a / b
    } else {
        -((-a) / b)
    }
}

/// Saturating addition of kilograms on board.
fn sat_add_u32(a: u32, b: u32) -> (r: u32)
    ensures
        r == if a + b > u32::MAX { u32::MAX as int } else { a + b },
{
    if a > u32::MAX - b {
        u32::MAX
    } else {
        a + b
    }
}

/// Saturating addition of money.
fn sat_add_u64(a: u64, b: u64) -> (r: u64)
    ensures
        r == if a + b > u64::MAX { u64::MAX as int } else { a + b },
{
    if a > u64::MAX - b {
        u64::MAX
    } else {
        a + b
    }
}

/// Represents the dynamic state of a player.
#[derive(Debug, Copy, Clone, PartialEq)]
pub struct Player {
    /// The vehicle of the player.
    pub vehicle: Vehicle,
    /// The current money of the player.
    pub money: u64,
}

impl Default for Player {
    /// A fresh player with a fresh vehicle and no money.
    fn default() -> (r: Self)
        ensures
            r.vehicle.resource_weight == 0,
            r.vehicle.resource_value == 0,
            r.money == 0,
            r.vehicle.pos == (Location { x: 0, y: 0 }),
            r.vehicle.velocity == (Distance { x: 0, y: 0 }),
            r.vehicle.heading == 0,
            r.vehicle.sail.reefing == Reefing(0),
            r.vehicle.sail.kind == SailKind::Cog,
            r.vehicle.hull == ShipHull::Small,
            r.vehicle.angle_of_list == 0,
            r.vehicle.ruder == BiPolarFraction(0),
            r.vehicle.sail.condition == Fraction(0),
            r.vehicle.sail.orientation_rectangle == 0,
            r.vehicle.sail.orientation_triangle == 0,
            r.vehicle.sail.wf(),
    {
        Player { vehicle: Default::default(), money: 0 }
    }
}

/// The collision distance of a harbor: half the harbor size plus half
/// the vehicle size, in millimetres.
pub const HARBOR_COLLISION_MM: i64 = 2150;

/// The collection distance of a resource: half the vehicle size plus
/// half the resource size, in millimetres.
pub const COLLECT_DISTANCE_MM: i64 = 1050;

/// The sound-effect category of a collected content type.
pub open spec fn event_for_content(c: crate::resource::ResourcePackContent) -> Event {
    match c {
        crate::resource::ResourcePackContent::Fish0 => Event::Fishy,
        crate::resource::ResourcePackContent::Fish1 => Event::Fishy,
        crate::resource::ResourcePackContent::Fish2 => Event::Fishy,
        crate::resource::ResourcePackContent::Fish3 => Event::Fishy,
        crate::resource::ResourcePackContent::Fish4 => Event::Fishy,
        crate::resource::ResourcePackContent::Fish5 => Event::Fishy,
        crate::resource::ResourcePackContent::Fish6 => Event::Fishy,
        crate::resource::ResourcePackContent::Fish7 => Event::Fishy,
        crate::resource::ResourcePackContent::Shoe0 => Event::Shoe,
        crate::resource::ResourcePackContent::Shoe1 => Event::Shoe,
        crate::resource::ResourcePackContent::Starfish0 => Event::Starfish,
        crate::resource::ResourcePackContent::Starfish1 => Event::Starfish,
        crate::resource::ResourcePackContent::Starfish2 => Event::Starfish,
        crate::resource::ResourcePackContent::Starfish3 => Event::Starfish,
        crate::resource::ResourcePackContent::Starfish4 => Event::Starfish,
        crate::resource::ResourcePackContent::Grass0 => Event::Grass,
        crate::resource::ResourcePackContent::Grass1 => Event::Grass,
    }
}

/// The dynamic part of the world.
#[derive(Debug, Clone)]
pub struct WorldState {
    /// The point in time of this state.
    pub timestamp: Tick,
    /// The active player.
    pub player: Player,
    /// The full list of collectables on the map.
    pub resources: Vec<crate::resource::ResourcePack>,
    /// The full list of harbors.
    pub harbors: Vec<Harbor>,
    /// The currently prevailing wind condition.
    pub wind: Wind,
}

impl Default for WorldState {
    /// An empty world at tick zero with a fresh player.
    fn default() -> (r: Self)
        ensures
            r.timestamp == Tick(0),
            r.player.money == 0,
            r.player.vehicle == (Vehicle {
                hull: ShipHull::Small,
                pos: Location { x: 0, y: 0 },
                velocity: Distance { x: 0, y: 0 },
                heading: 0,
                angle_of_list: 0,
                ruder: BiPolarFraction(0),
                sail: Sail {
                    kind: SailKind::Cog,
                    condition: Fraction(0),
                    reefing: Reefing(0),
                    orientation_rectangle: 0,
                    orientation_triangle: 0,
                },
                resource_weight: 0,
                resource_value: 0,
            }),
            r.resources@ =~= Seq::<crate::resource::ResourcePack>::empty(),
            r.harbors@ =~= Seq::<Harbor>::empty(),
            r.wind == (Wind { x: 0, y: 0 }),
    {
        WorldState {
            timestamp: Tick(0),
            player: Default::default(),
            resources: Vec::new(),
            harbors: Vec::new(),
            wind: Wind { x: 0, y: 0 },
        }
    }
}

impl WorldState {
    /// The whole dynamic state stays within the fixed-point envelope of
    /// a map of `size` millimetres.
    pub open spec fn wf(self, size: int) -> bool {
        &&& self.player.vehicle.wf(size)
        &&& forall|i: int|
            0 <= i < self.harbors.len() ==> (0 <= #[trigger] self.harbors[i].loc.x < size && 0
                <= self.harbors[i].loc.y < size)
        &&& forall|i: int|
            0 <= i < self.resources.len() ==> (#[trigger] self.resources[i].loc.in_range())
    }

    /// Advances the timestamp and applies the player's input: the rudder
    /// as given, the reefing clamped to the sail kind's maximum.
    pub fn begin_tick(&mut self, inputs: &Input)
        requires
            old(self).timestamp.0 < u64::MAX,
        ensures
            final(self).timestamp.0 == old(self).timestamp.0 + 1,
            final(self).player.money == old(self).player.money,
            final(self).player.vehicle.sail.reefing.value_spec() == if inputs.reefing.value_spec()
                > old(self).player.vehicle.sail.kind.max_reefing_spec() {
                old(self).player.vehicle.sail.kind.max_reefing_spec() as int
            } else {
                inputs.reefing.value_spec() as int
            },
            final(self).player.vehicle.ruder == inputs.rudder,
            final(self).player.vehicle.sail.wf(),
            final(self).player.vehicle == (Vehicle {
                sail: final(self).player.vehicle.sail,
                ruder: inputs.rudder,
                ..old(self).player.vehicle
            }),
            final(self).player.vehicle.sail == (Sail {
                reefing: final(self).player.vehicle.sail.reefing,
                ..old(self).player.vehicle.sail
            }),
            final(self).resources == old(self).resources,
            final(self).harbors == old(self).harbors,
            final(self).wind == old(self).wind,
    {
        self.timestamp = self.timestamp.next();
        self.player.vehicle.apply_input(*inputs);
    }

    /// Stores the animated pose the host derived for one resource.
    pub fn set_resource_pose(&mut self, i: usize, loc: Location, ori: i32)
        requires
            i < old(self).resources.len(),
            loc.in_range(),
        ensures
            final(self).resources@ == old(self).resources@.update(
                i as int,
                crate::resource::ResourcePack { loc, ori, ..old(self).resources[i as int] },
            ),
            final(self).timestamp == old(self).timestamp,
            final(self).player == old(self).player,
            final(self).harbors == old(self).harbors,
            final(self).wind == old(self).wind,
    {
        let pack = crate::resource::ResourcePack { loc, ori, ..self.resources[i] };
        self.resources.set(i, pack);
    }
}

/// The vehicle and events after the terrain step of one tick: the
/// velocity becomes `new_vel`, the position advances by `delta` and
/// wraps on the torus; if that move leaves passable water for an
/// impassable tile, the position reverts, the velocity halves and
/// bounces (the axis that changed tile flips sign), and a collision
/// event carries the entry speed.
pub open spec fn terrain_step_model(
    t: crate::terrain::Terrain,
    v0: Vehicle,
    delta: Distance,
    new_vel: Distance,
    entry_speed: u64,
) -> (Vehicle, Seq<Event>) {
    let v1 = Vehicle { velocity: new_vel, ..v0 };
    let new_pos = t.map_loc_spec(
        Location { x: (v0.pos.x + delta.x) as i64, y: (v0.pos.y + delta.y) as i64 },
    );
    let old_tile = t.tile_of(v0.pos);
    let new_tile = t.tile_of(new_pos);
    if t.elev_at(old_tile).is_passable_spec() && !t.elev_at(new_tile).is_passable_spec() {
        let bounced = Distance {
            x: (if old_tile.x == new_tile.x {
                half_toward_zero(new_vel.x as int)
            } else {
                -half_toward_zero(new_vel.x as int)
            }) as i64,
            y: (if old_tile.y == new_tile.y {
                half_toward_zero(new_vel.y as int)
            } else {
                -half_toward_zero(new_vel.y as int)
            }) as i64,
        };
        (
            Vehicle { pos: v0.pos, velocity: bounced, ..v1 },
            seq![Event::TileCollision(entry_speed)],
        )
    } else {
        (Vehicle { pos: new_pos, ..v1 }, Seq::<Event>::empty())
    }
}

/// The velocity after an elastic-ish harbor bounce: one and a half
/// times the head-on component (along `dvec`, the axis from the harbor
/// to the vehicle) is removed, and the components are clamped into the
/// velocity envelope.
pub open spec fn harbor_bounce_model(vel: Distance, dvec: Distance) -> Distance {
    let n2 = dvec.x * dvec.x + dvec.y * dvec.y;
    if n2 > 0 {
        let num = vel.x * dvec.x + vel.y * dvec.y;
        Distance {
            x: clamp_velocity(vel.x - tdiv(3 * num * dvec.x, 2 * n2)) as i64,
            y: clamp_velocity(vel.y - tdiv(3 * num * dvec.y, 2 * n2)) as i64,
        }
    } else {
        vel
    }
}

/// The vehicle and events after the interaction with one harbor: a
/// bounce (with position revert and event) when the vehicle crossed
/// into the collision distance this tick, then docking — the velocity
/// forced to zero — when it sits within the effect distance, fully
/// furled and slow enough.
pub open spec fn harbor_step_model(
    t: crate::terrain::Terrain,
    h: Harbor,
    v: Vehicle,
    old_pos: Location,
    entry_speed: u64,
) -> (Vehicle, Seq<Event>) {
    let dist_sq = t.torus_dist_spec(v.pos, h.loc).magnitude_sq_spec();
    let old_dist_sq = t.torus_dist_spec(old_pos, h.loc).magnitude_sq_spec();
    let coll_sq = (HARBOR_COLLISION_MM * HARBOR_COLLISION_MM) as int;
    let (v1, evs) = if old_dist_sq >= coll_sq && dist_sq < coll_sq {
        let dvec = Distance { x: (old_pos.x - h.loc.x) as i64, y: (old_pos.y - h.loc.y) as i64 };
        (
            Vehicle { pos: old_pos, velocity: harbor_bounce_model(v.velocity, dvec), ..v },
            seq![Event::HarborCollision(entry_speed)],
        )
    } else {
        (v, Seq::<Event>::empty())
    };
    let v2 = if dist_sq < HARBOR_EFFECT_SQ as int && v1.sail.reefing.value_spec() == 0
        && v1.velocity.magnitude_sq_spec() <= DOCKING_SPEED_SQ as int {
        Vehicle { velocity: Distance { x: 0, y: 0 }, ..v1 }
    } else {
        v1
    };
    (v2, evs)
}

/// The squared harbor effect distance, in squared millimetres.
pub const HARBOR_EFFECT_SQ: i64 = 36_000_000;

/// The squared docking speed, in squared millimetres per second.
pub const DOCKING_SPEED_SQ: i64 = 640_000;

/// The vehicle and events after interacting with the harbors from index
/// `i` on, in order.
pub open spec fn harbor_fold_model(
    t: crate::terrain::Terrain,
    harbors: Seq<Harbor>,
    i: int,
    v: Vehicle,
    old_pos: Location,
    entry_speed: u64,
) -> (Vehicle, Seq<Event>)
    decreases harbors.len() - i,
{
    if i < 0 || i >= harbors.len() {
        (v, Seq::<Event>::empty())
    } else {
        let (v1, e1) = harbor_step_model(t, harbors[i], v, old_pos, entry_speed);
        let (v2, e2) = harbor_fold_model(t, harbors, i + 1, v1, old_pos, entry_speed);
        (v2, e1 + e2)
    }
}

/// Saturating addition at the width of kilograms on board.
pub open spec fn sat32(a: int, b: int) -> int {
    if a + b > u32::MAX {
        u32::MAX as int
    } else {
        a + b
    }
}

/// Saturating addition at the width of money.
pub open spec fn sat64(a: int, b: int) -> int {
    if a + b > u64::MAX {
        u64::MAX as int
    } else {
        a + b
    }
}

/// The remaining resources, the vehicle, and the events after checking
/// the resources from index `i` on for collection: each resource within
/// the collection distance is removed, its weight and value move on
/// board (saturating), and a category event is emitted; the others stay
/// in order.
pub open spec fn collect_fold_model(
    t: crate::terrain::Terrain,
    packs: Seq<crate::resource::ResourcePack>,
    i: int,
    v: Vehicle,
) -> (Seq<crate::resource::ResourcePack>, Vehicle, Seq<Event>)
    decreases packs.len() - i,
{
    if i < 0 || i >= packs.len() {
        (Seq::<crate::resource::ResourcePack>::empty(), v, Seq::<Event>::empty())
    } else {
        let p = packs[i];
        let dist_sq = t.torus_dist_spec(p.loc, v.pos).magnitude_sq_spec();
        if dist_sq < (COLLECT_DISTANCE_MM * COLLECT_DISTANCE_MM) as int {
            let st = p.content.stats_spec();
            let v1 = Vehicle {
                resource_weight: sat32(v.resource_weight as int, st.weight as int) as u32,
                resource_value: sat64(v.resource_value as int, st.value as int) as u64,
                ..v
            };
            let r = collect_fold_model(t, packs, i + 1, v1);
            (r.0, r.1, seq![event_for_content(p.content)] + r.2)
        } else {
            let r = collect_fold_model(t, packs, i + 1, v);
            (seq![p] + r.0, r.1, r.2)
        }
    }
}

/// The whole movement step of one tick: the terrain step, then every
/// harbor in order.
pub open spec fn move_model(
    t: crate::terrain::Terrain,
    harbors: Seq<Harbor>,
    v0: Vehicle,
    delta: Distance,
    new_vel: Distance,
    entry_speed: u64,
) -> (Vehicle, Seq<Event>) {
    let (v1, e1) = terrain_step_model(t, v0, delta, new_vel, entry_speed);
    let (v2, e2) = harbor_fold_model(t, harbors, 0, v1, v0.pos, entry_speed);
    (v2, e1 + e2)
}

/// Truncating halving of a velocity component.
fn half_i64(v: i64) -> (r: i64)
    requires
        i64::MIN < v,
    ensures
        r == half_toward_zero(v as int),
{
    if v >= 0 {
        v / 2
    } else {
        -((-v) / 2)
    }
}

/// A velocity component clamped into the envelope.
fn clamp_vel_i128(v: i128) -> (r: i64)
    ensures
        r == clamp_velocity(v as int),
{
    if v < -(VELOCITY_LIMIT_MMPS as i128) {
        -VELOCITY_LIMIT_MMPS
    } else if v > VELOCITY_LIMIT_MMPS as i128 {
        VELOCITY_LIMIT_MMPS
    } else {
        v as i64
    }
}

/// Bounds on the harbor-bounce arithmetic: with the velocity in its
/// envelope and the displacement within a map, every intermediate
/// product fits comfortably in 128 bits.
proof fn lemma_bounce_bounds(vx: int, vy: int, dx: int, dy: int)
    requires
        -100_000_000 <= vx <= 100_000_000,
        -100_000_000 <= vy <= 100_000_000,
        -262_140_000 <= dx <= 262_140_000,
        -262_140_000 <= dy <= 262_140_000,
    ensures
        0 <= dx * dx <= 0x1_0000_0000_0000_0000,
        0 <= dy * dy <= 0x1_0000_0000_0000_0000,
        0 <= dx * dx + dy * dy <= 0x2_0000_0000_0000_0000,
        -0x1_0000_0000_0000_0000 <= vx * dx <= 0x1_0000_0000_0000_0000,
        -0x1_0000_0000_0000_0000 <= vy * dy <= 0x1_0000_0000_0000_0000,
        -0x1_0000_0000_0000_0000 <= vx * dx + vy * dy <= 0x1_0000_0000_0000_0000,
        -0x1_0000_0000_0000_0000_0000_0000 <= 3 * (vx * dx + vy * dy) * dx
            <= 0x1_0000_0000_0000_0000_0000_0000,
        -0x1_0000_0000_0000_0000_0000_0000 <= 3 * (vx * dx + vy * dy) * dy
            <= 0x1_0000_0000_0000_0000_0000_0000,
{
    assert(0 <= dx * dx <= 0x1_0000_0000_0000_0000
        && 0 <= dy * dy <= 0x1_0000_0000_0000_0000
        && 0 <= dx * dx + dy * dy <= 0x2_0000_0000_0000_0000
        && -0x1_0000_0000_0000_0000 <= vx * dx <= 0x1_0000_0000_0000_0000
        && -0x1_0000_0000_0000_0000 <= vy * dy <= 0x1_0000_0000_0000_0000
        && -0x1_0000_0000_0000_0000 <= vx * dx + vy * dy <= 0x1_0000_0000_0000_0000
        && -0x1_0000_0000_0000_0000_0000_0000 <= 3 * (vx * dx + vy * dy) * dx
            <= 0x1_0000_0000_0000_0000_0000_0000
        && -0x1_0000_0000_0000_0000_0000_0000 <= 3 * (vx * dx + vy * dy) * dy
            <= 0x1_0000_0000_0000_0000_0000_0000) by (nonlinear_arith)
        requires
            -100_000_000 <= vx <= 100_000_000,
            -100_000_000 <= vy <= 100_000_000,
            -262_140_000 <= dx <= 262_140_000,
            -262_140_000 <= dy <= 262_140_000,
    ;
}

impl WorldState {
    /// The movement step of one tick. The host hands in the position
    /// delta and the new velocity its force model integrated, and the
    /// vehicle's speed on entry (for the collision event payloads, which
    /// carry the impact speed). The vehicle's velocity becomes
    /// `new_velocity`, its position advances by `delta` and wraps on the
    /// torus; crossing from passable water into impassable terrain
    /// reverts the position and bounces the velocity; each harbor in
    /// order then checks for collision and for docking.
    pub fn move_vehicle(
        &mut self,
        init: &crate::WorldInit,
        delta: Distance,
        new_velocity: Distance,
        entry_speed: u64,
    ) -> (events: Vec<Event>)
        requires
            init.terrain.wf(),
            old(self).wf(init.terrain.size_mm()),
            delta.in_range(),
            -VELOCITY_LIMIT_MMPS <= new_velocity.x <= VELOCITY_LIMIT_MMPS,
            -VELOCITY_LIMIT_MMPS <= new_velocity.y <= VELOCITY_LIMIT_MMPS,
            (entry_speed as int) * (entry_speed as int) <= old(self).player.vehicle.speed_sq_spec(),
            old(self).player.vehicle.speed_sq_spec() < (((entry_speed as int) + 1) * ((
            entry_speed as int) + 1)),
        ensures
            (final(self).player.vehicle, events@) == move_model(
                init.terrain,
                old(self).harbors@,
                old(self).player.vehicle,
                delta,
                new_velocity,
                entry_speed,
            ),
            final(self).wf(init.terrain.size_mm()),
            final(self).timestamp == old(self).timestamp,
            final(self).player.money == old(self).player.money,
            final(self).resources == old(self).resources,
            final(self).harbors == old(self).harbors,
            final(self).wind == old(self).wind,
    {
        let ghost t = init.terrain;
        let ghost v0 = self.player.vehicle;
        let ghost size = init.terrain.size_mm();
        let old_pos = self.player.vehicle.pos;
        self.player.vehicle.velocity = new_velocity;

        // Integrate the position and keep it on the torus.
        let cand = Location { x: old_pos.x + delta.x, y: old_pos.y + delta.y };
        let new_pos = init.terrain.map_loc_on_torus(cand);

        proof {
            t.lemma_tile_of_in_bounds(old_pos);
            t.lemma_tile_of_in_bounds(new_pos);
        }
        let old_tile = crate::terrain::TileCoord {
            x: (old_pos.x / crate::TILE_SIZE_MM) as u16,
            y: (old_pos.y / crate::TILE_SIZE_MM) as u16,
        };
        let new_tile = crate::terrain::TileCoord {
            x: (new_pos.x / crate::TILE_SIZE_MM) as u16,
            y: (new_pos.y / crate::TILE_SIZE_MM) as u16,
        };

        let mut events: Vec<Event> = Vec::new();
        // Only bounce a vehicle that was in passable water; one that
        // glitched into terrain is free to move out of it.
        if init.terrain.get(old_tile).is_passable() && !init.terrain.get(new_tile).is_passable() {
            let bx = if old_tile.x == new_tile.x {
                half_i64(new_velocity.x)
            } else {
                -half_i64(new_velocity.x)
            };
            let by = if old_tile.y == new_tile.y {
                half_i64(new_velocity.y)
            } else {
                -half_i64(new_velocity.y)
            };
            self.player.vehicle.velocity = Distance { x: bx, y: by };
            events.push(Event::TileCollision(entry_speed));
        } else {
            self.player.vehicle.pos = new_pos;
        }

        let ghost step = terrain_step_model(t, v0, delta, new_velocity, entry_speed);
        proof {
            crate::terrain::lemma_size_positive(t);
            assert(events@ =~= step.1);
            assert(self.player.vehicle == step.0);
        }

        // Harbor interactions, in harbor order.
        let mut hevents: Vec<Event> = Vec::new();
        let mut i: usize = 0;
        while i < self.harbors.len()
            invariant
                t.wf(),
                t == init.terrain,
                size == t.size_mm(),
                self.harbors == old(self).harbors,
                self.resources == old(self).resources,
                self.timestamp == old(self).timestamp,
                self.player.money == old(self).player.money,
                self.wind == old(self).wind,
                i <= self.harbors.len(),
                4000 <= size <= 262_140_000,
                v0 == old(self).player.vehicle,
                old_pos == v0.pos,
                0 <= v0.pos.x < size && 0 <= v0.pos.y < size,
                0 <= self.player.vehicle.pos.x < size,
                0 <= self.player.vehicle.pos.y < size,
                -VELOCITY_LIMIT_MMPS <= self.player.vehicle.velocity.x <= VELOCITY_LIMIT_MMPS,
                -VELOCITY_LIMIT_MMPS <= self.player.vehicle.velocity.y <= VELOCITY_LIMIT_MMPS,
                self.player.vehicle == (Vehicle {
                    pos: self.player.vehicle.pos,
                    velocity: self.player.vehicle.velocity,
                    ..v0
                }),
                forall|k: int|
                    0 <= k < self.harbors.len() ==> (0 <= #[trigger] self.harbors[k].loc.x < size
                        && 0 <= self.harbors[k].loc.y < size),
                harbor_fold_model(t, self.harbors@, 0, step.0, v0.pos, entry_speed) == {
                    let r = harbor_fold_model(
                        t,
                        self.harbors@,
                        i as int,
                        self.player.vehicle,
                        v0.pos,
                        entry_speed,
                    );
                    (r.0, hevents@ + r.1)
                },
            decreases self.harbors.len() - i,
        {
            let ghost v_before = self.player.vehicle;
            let h = self.harbors[i];
            let d_cur = init.terrain.torus_distance(self.player.vehicle.pos, h.loc);
            let dist_sq = d_cur.magnitude_sq();
            let d_old = init.terrain.torus_distance(old_pos, h.loc);
            let old_dist_sq = d_old.magnitude_sq();
            let coll_sq: u128 = (HARBOR_COLLISION_MM as u128) * (HARBOR_COLLISION_MM as u128);
            let ghost pushed_before = hevents@;

            if old_dist_sq >= coll_sq && dist_sq < coll_sq {
                self.player.vehicle.pos = old_pos;
                // Bounce off away from the harbor, along the axis from
                // the harbor to the entry position.
                let dvx: i64 = old_pos.x - h.loc.x;
                let dvy: i64 = old_pos.y - h.loc.y;
                proof {
                    lemma_bounce_bounds(
                        self.player.vehicle.velocity.x as int,
                        self.player.vehicle.velocity.y as int,
                        dvx as int,
                        dvy as int,
                    );
                }
                let n2: i128 = (dvx as i128) * (dvx as i128) + (dvy as i128) * (dvy as i128);
                if n2 > 0 {
                    let vx = self.player.vehicle.velocity.x;
                    let vy = self.player.vehicle.velocity.y;
                    let num: i128 = (vx as i128) * (dvx as i128) + (vy as i128) * (dvy as i128);
                    let qx = tdiv_i128(3 * num * (dvx as i128), 2 * n2);
                    let qy = tdiv_i128(3 * num * (dvy as i128), 2 * n2);
                    self.player.vehicle.velocity = Distance {
                        x: clamp_vel_i128((vx as i128) - qx),
                        y: clamp_vel_i128((vy as i128) - qy),
                    };
                }
                hevents.push(Event::HarborCollision(entry_speed));
            }

            // Dock the ship if it is within harbor range, without a
            // sail, and slow enough.
            if dist_sq < (HARBOR_EFFECT_SQ as u128) && self.player.vehicle.sail.reefing.value()
                == 0 && self.player.vehicle.speed_sq() <= (DOCKING_SPEED_SQ as u128) {
                self.player.vehicle.velocity = Distance { x: 0, y: 0 };
            }

            proof {
                let hs = harbor_step_model(t, h, v_before, v0.pos, entry_speed);
                assert(self.player.vehicle == hs.0);
                assert(hevents@ =~= pushed_before + hs.1);
                assert(hevents@ + harbor_fold_model(
                    t,
                    self.harbors@,
                    i + 1,
                    self.player.vehicle,
                    v0.pos,
                    entry_speed,
                ).1 =~= pushed_before + harbor_fold_model(
                    t,
                    self.harbors@,
                    i as int,
                    v_before,
                    v0.pos,
                    entry_speed,
                ).1);
            }
            i = i + 1;
        }

        proof {
            let full = harbor_fold_model(t, self.harbors@, 0, step.0, v0.pos, entry_speed);
            assert(hevents@ + harbor_fold_model(
                t,
                self.harbors@,
                self.harbors@.len() as int,
                self.player.vehicle,
                v0.pos,
                entry_speed,
            ).1 =~= hevents@);
            assert(full.1 == hevents@);
        }
        events.append(&mut hevents);
        proof {
            assert(events@ =~= move_model(
                t,
                old(self).harbors@,
                v0,
                delta,
                new_velocity,
                entry_speed,
            ).1);
        }
        events
    }

    /// The resource collection of one tick: every resource within the
    /// collection distance of the vehicle (on the torus) is taken on
    /// board — its weight and value are added, saturating at the counter
    /// widths — and answered with a category event; the rest stay, in
    /// order.
    pub fn collect_resources(&mut self, init: &crate::WorldInit) -> (events: Vec<Event>)
        requires
            init.terrain.wf(),
            old(self).wf(init.terrain.size_mm()),
        ensures
            (final(self).resources@, final(self).player.vehicle, events@) == collect_fold_model(
                init.terrain,
                old(self).resources@,
                0,
                old(self).player.vehicle,
            ),
            final(self).wf(init.terrain.size_mm()),
            final(self).timestamp == old(self).timestamp,
            final(self).player.money == old(self).player.money,
            final(self).harbors == old(self).harbors,
            final(self).wind == old(self).wind,
    {
        let ghost t = init.terrain;
        let ghost size = init.terrain.size_mm();
        let ghost packs0 = self.resources@;
        let ghost v_start = self.player.vehicle;
        proof {
            crate::terrain::lemma_size_positive(t);
        }

        let mut kept: Vec<crate::resource::ResourcePack> = Vec::new();
        let mut events: Vec<Event> = Vec::new();
        let mut i: usize = 0;
        while i < self.resources.len()
            invariant
                t.wf(),
                t == init.terrain,
                size == t.size_mm(),
                packs0 == self.resources@,
                self.resources == old(self).resources,
                self.harbors == old(self).harbors,
                self.timestamp == old(self).timestamp,
                self.player.money == old(self).player.money,
                self.wind == old(self).wind,
                i <= self.resources.len(),
                4000 <= size <= 262_140_000,
                v_start == old(self).player.vehicle,
                0 <= self.player.vehicle.pos.x < size,
                0 <= self.player.vehicle.pos.y < size,
                self.player.vehicle == (Vehicle {
                    resource_weight: self.player.vehicle.resource_weight,
                    resource_value: self.player.vehicle.resource_value,
                    ..v_start
                }),
                forall|k: int|
                    0 <= k < packs0.len() ==> (#[trigger] packs0[k].loc.in_range()),
                forall|k: int| 0 <= k < kept.len() ==> (#[trigger] kept[k].loc.in_range()),
                collect_fold_model(t, packs0, 0, v_start) == {
                    let r = collect_fold_model(t, packs0, i as int, self.player.vehicle);
                    (kept@ + r.0, r.1, events@ + r.2)
                },
            decreases self.resources.len() - i,
        {
            let ghost v_before = self.player.vehicle;
            let ghost kept_before = kept@;
            let ghost events_before = events@;
            let pack = self.resources[i];
            let d = init.terrain.torus_distance(pack.loc, self.player.vehicle.pos);
            let dist_sq = d.magnitude_sq();
            let coll_sq: u128 = (COLLECT_DISTANCE_MM as u128) * (COLLECT_DISTANCE_MM as u128);
            if dist_sq < coll_sq {
                // Store the catch on board.
                let st = pack.content.stats();
                self.player.vehicle.resource_weight = sat_add_u32(
                    self.player.vehicle.resource_weight,
                    st.weight,
                );
                self.player.vehicle.resource_value = sat_add_u64(
                    self.player.vehicle.resource_value,
                    st.value,
                );
                let ev = match pack.content {
                    crate::resource::ResourcePackContent::Fish0 => Event::Fishy,
                    crate::resource::ResourcePackContent::Fish1 => Event::Fishy,
                    crate::resource::ResourcePackContent::Fish2 => Event::Fishy,
                    crate::resource::ResourcePackContent::Fish3 => Event::Fishy,
                    crate::resource::ResourcePackContent::Fish4 => Event::Fishy,
                    crate::resource::ResourcePackContent::Fish5 => Event::Fishy,
                    crate::resource::ResourcePackContent::Fish6 => Event::Fishy,
                    crate::resource::ResourcePackContent::Fish7 => Event::Fishy,
                    crate::resource::ResourcePackContent::Shoe0 => Event::Shoe,
                    crate::resource::ResourcePackContent::Shoe1 => Event::Shoe,
                    crate::resource::ResourcePackContent::Starfish0 => Event::Starfish,
                    crate::resource::ResourcePackContent::Starfish1 => Event::Starfish,
                    crate::resource::ResourcePackContent::Starfish2 => Event::Starfish,
                    crate::resource::ResourcePackContent::Starfish3 => Event::Starfish,
                    crate::resource::ResourcePackContent::Starfish4 => Event::Starfish,
                    crate::resource::ResourcePackContent::Grass0 => Event::Grass,
                    crate::resource::ResourcePackContent::Grass1 => Event::Grass,
                };
                events.push(ev);
                proof {
                    assert(events@ =~= events_before + seq![event_for_content(pack.content)]);
                    assert(events_before + (seq![event_for_content(pack.content)]
                        + collect_fold_model(t, packs0, i + 1, self.player.vehicle).2) =~= events@
                        + collect_fold_model(t, packs0, i + 1, self.player.vehicle).2);
                }
            } else {
                kept.push(pack);
                proof {
                    assert(kept@ =~= kept_before + seq![pack]);
                    assert(kept_before + (seq![pack] + collect_fold_model(
                        t,
                        packs0,
                        i + 1,
                        self.player.vehicle,
                    ).0) =~= kept@ + collect_fold_model(t, packs0, i + 1, self.player.vehicle).0);
                }
            }
            i = i + 1;
        }
        proof {
            assert(kept@ + collect_fold_model(t, packs0, packs0.len() as int,
                self.player.vehicle).0 =~= kept@);
            assert(events@ + collect_fold_model(t, packs0, packs0.len() as int,
                self.player.vehicle).2 =~= events@);
        }
        self.resources = kept;
        events
    }
}

/// The squared speed ceiling for trading, in squared millimetres per
/// second.
pub const TRADE_SPEED_SQ: i64 = 1_000_000;

/// The value obtained for selling `amount` kilograms out of a hold of
/// `weight` kilograms worth `value` money: everything when the whole
/// hold goes, else the proportional part, rounded down.
pub open spec fn sold_value(amount: int, weight: int, value: int) -> int {
    if amount >= weight {
        value
    } else {
        amount * value / weight
    }
}

/// A trading opportunity at a harbor: a transient handle bound to the
/// harbor's index in the world's stable harbor list.
///
/// Operations are gated by a speed ceiling: only a slow-moving player
/// may trade. The base price for fish is fixed at one.
#[derive(Debug, Copy, Clone, PartialEq)]
pub struct TradeOption {
    /// The harbor in question, as an index into the world's harbors.
    pub harbor_idx: usize,
    /// Base price for fish, in money per unit of value.
    pub base_price: u64,
    /// Amount of fish traded through this handle so far, in kilograms.
    pub traded_fish_amount: u32,
}

impl TradeOption {
    /// The handle carries the fixed base price.
    pub open spec fn wf(self) -> bool {
        self.base_price == 1
    }

    /// The harbor index this handle is bound to.
    pub open spec fn harbor_idx_spec(self) -> int {
        self.harbor_idx as int
    }

    /// The fish traded through this handle so far, in kilograms.
    pub open spec fn traded_spec(self) -> int {
        self.traded_fish_amount as int
    }

    /// The harbor with which trade is possible.
    pub fn get_harbor(&self, state: &WorldState) -> (r: Harbor)
        requires
            self.harbor_idx_spec() < state.harbors.len(),
        ensures
            r == state.harbors[self.harbor_idx_spec()],
    {
        state.harbors[self.harbor_idx]
    }

    /// The currently offered price for fish, in money.
    pub fn get_price_for_fish(&self) -> (r: u64)
        ensures
            r == self.base_price,
    {
        self.base_price
    }

    /// Returns the price for upgrading the sail to the next level, or
    /// `None` at the top of the chain.
    pub fn get_price_for_sail_upgrade(&self, state: &WorldState) -> (r: Option<u64>)
        ensures
            r == match state.player.vehicle.sail.kind {
                SailKind::Cog => Some(1000u64),
                SailKind::Bermuda => Some(2000u64),
                SailKind::Schooner => None::<u64>,
            },
    {
        match state.player.vehicle.sail.kind.upgrade() {
            Some(s) => Some(s.value()),
            None => None,
        }
    }

    /// Returns the price for upgrading the hull to the next level, or
    /// `None` at the top of the chain.
    pub fn get_price_of_hull_upgrade(&self, state: &WorldState) -> (r: Option<u64>)
        ensures
            r == match state.player.vehicle.hull {
                ShipHull::Small => Some(2000u64),
                ShipHull::Bigger => None::<u64>,
            },
    {
        match state.player.vehicle.hull.upgrade() {
            Some(h) => Some(h.value()),
            None => None,
        }
    }

    /// The monetary volume traded through this handle so far.
    pub fn get_traded_volume(&self) -> (r: u64)
        requires
            self.wf(),
        ensures
            r == self.traded_spec() * self.base_price,
    {
        (self.traded_fish_amount as u64) * self.base_price
    }

    /// Checks whether the player is slow enough for trading.
    pub fn has_player_valid_speed(&self, state: &WorldState) -> (r: bool)
        requires
            state.player.vehicle.velocity.in_range(),
        ensures
            r == (state.player.vehicle.speed_sq_spec() <= TRADE_SPEED_SQ),
    {
        state.player.vehicle.speed_sq() <= (TRADE_SPEED_SQ as u128)
    }

    /// Returns the amount of fish the player has on board, in kilograms.
    pub fn players_fish_amount(&self, state: &WorldState) -> (r: u32)
        ensures
            r == state.player.vehicle.resource_weight,
    {
        state.player.vehicle.resource_weight
    }

    /// Sells `amount` kilograms of fish (capped at what is on board) and
    /// returns the amount actually sold, or `None` when the player moves
    /// above the trading speed ceiling, which changes nothing.
    ///
    /// On a sale, the sold weight and its proportional value leave the
    /// hold — neither counter can go below zero — and the proceeds are
    /// credited to the player's money, saturating at the counter width
    /// instead of wrapping or failing. Selling zero changes nothing and
    /// returns `Some(0)`.
    pub fn sell_fish(&mut self, state: &mut WorldState, amount: u32) -> (r: Option<u32>)
        requires
            old(state).player.vehicle.velocity.in_range(),
            old(self).wf(),
        ensures
            final(self).wf(),
            old(state).player.vehicle.speed_sq_spec() > TRADE_SPEED_SQ ==> (r == None::<u32>
                && *final(state) == *old(state) && *final(self) == *old(self)),
            old(state).player.vehicle.speed_sq_spec() <= TRADE_SPEED_SQ ==> {
                let w0 = old(state).player.vehicle.resource_weight as int;
                let v0 = old(state).player.vehicle.resource_value as int;
                let sold_w = if amount >= w0 { w0 } else { amount as int };
                let sold_v = sold_value(amount as int, w0, v0);
                &&& r == Some((sold_w as u32))
                &&& sold_w <= w0
                &&& 0 <= sold_v <= v0
                &&& final(state).player.vehicle.resource_weight == w0 - sold_w
                &&& final(state).player.vehicle.resource_value == v0 - sold_v
                &&& final(state).player.money == sat64(
                    old(state).player.money as int,
                    sold_v * old(self).base_price,
                )
                &&& final(self).traded_spec() == sat32(old(self).traded_spec(), sold_w)
                &&& final(self).harbor_idx_spec() == old(self).harbor_idx_spec()
                &&& final(state).player.vehicle == (Vehicle {
                    resource_weight: final(state).player.vehicle.resource_weight,
                    resource_value: final(state).player.vehicle.resource_value,
                    ..old(state).player.vehicle
                })
                &&& final(state).timestamp == old(state).timestamp
                &&& final(state).resources == old(state).resources
                &&& final(state).harbors == old(state).harbors
                &&& final(state).wind == old(state).wind
            },
    {
        if !self.has_player_valid_speed(state) {
            return None;
        }

        // Find the actual amount sellable and its proportional value.
        let w0 = state.player.vehicle.resource_weight;
        let v0 = state.player.vehicle.resource_value;
        let (weight, value) = if amount >= w0 {
            (w0, v0)
        } else {
            proof {
                assert((amount as int) * (v0 as int) < 0x1_0000_0000_0000_0000_0000_0000_0000_0000)
                    by (nonlinear_arith)
                    requires
                        0 <= (amount as int) < 0x1_0000_0000,
                        0 <= (v0 as int) < 0x1_0000_0000_0000_0000,
                ;
            }
            let wide: u128 = (amount as u128) * (v0 as u128) / (w0 as u128);
            proof {
                assert((amount as int) * (v0 as int) / (w0 as int) <= v0 as int
                    && 0 <= (amount as int) * (v0 as int) / (w0 as int)) by (nonlinear_arith)
                    requires
                        0 <= (amount as int) < (w0 as int),
                        0 <= (v0 as int),
                ;
            }
            (amount, wide as u64)
        };

        // Calculate the generated proceeds.
        let proceeds = value * self.base_price;

        // Remove the fish from the player; the checks above keep both
        // counters non-negative.
        state.player.vehicle.resource_weight = w0 - weight;
        state.player.vehicle.resource_value = v0 - value;

        // Deposit the proceeds; a player at the top of the money range
        // stays there.
        state.player.money = sat_add_u64(state.player.money, proceeds);

        // Remember the session trade volume.
        self.traded_fish_amount = sat_add_u32(self.traded_fish_amount, weight);

        Some(weight)
    }

    /// Tries to upgrade the sail to the next level: it fails for a
    /// player above the trading speed ceiling, at the top of the chain,
    /// or with too little money; otherwise the cost leaves the player's
    /// money and the sail kind advances exactly one step.
    pub fn upgrade_sail(&mut self, state: &mut WorldState) -> (r: Result<(), UpgradeError>)
        requires
            old(state).player.vehicle.velocity.in_range(),
        ensures
            *final(self) == *old(self),
            old(state).player.vehicle.speed_sq_spec() > TRADE_SPEED_SQ <==> r == Err::<(),
            _>(UpgradeError::NotDocked),
            r == Err::<(), _>(UpgradeError::MaxLevel) <==> (old(state).player.vehicle.speed_sq_spec()
                <= TRADE_SPEED_SQ && old(state).player.vehicle.sail.kind == SailKind::Schooner),
            r == Err::<(), _>(UpgradeError::InsufficientFunds) <==> (old(
                state,
            ).player.vehicle.speed_sq_spec() <= TRADE_SPEED_SQ && old(
                state,
            ).player.vehicle.sail.kind != SailKind::Schooner && old(state).player.money < (match old(
                state,
            ).player.vehicle.sail.kind {
                SailKind::Cog => 1000u64,
                SailKind::Bermuda => 2000u64,
                SailKind::Schooner => 0u64,
            })),
            r is Err ==> *final(state) == *old(state),
            r is Ok ==> {
                let cost = match old(state).player.vehicle.sail.kind {
                    SailKind::Cog => 1000u64,
                    SailKind::Bermuda => 2000u64,
                    SailKind::Schooner => 0u64,
                };
                &&& final(state).player.money == old(state).player.money - cost
                &&& final(state).player.vehicle.sail.kind == (match old(
                    state,
                ).player.vehicle.sail.kind {
                    SailKind::Cog => SailKind::Bermuda,
                    SailKind::Bermuda => SailKind::Schooner,
                    SailKind::Schooner => SailKind::Schooner,
                })
                &&& final(state).player.vehicle.sail == (Sail {
                    kind: final(state).player.vehicle.sail.kind,
                    ..old(state).player.vehicle.sail
                })
                &&& final(state).player.vehicle == (Vehicle {
                    sail: final(state).player.vehicle.sail,
                    ..old(state).player.vehicle
                })
                &&& old(state).player.vehicle.sail.wf()
                    ==> final(state).player.vehicle.sail.wf()
                &&& final(state).timestamp == old(state).timestamp
                &&& final(state).resources == old(state).resources
                &&& final(state).harbors == old(state).harbors
                &&& final(state).wind == old(state).wind
            },
    {
        // Do not trade if the player is too fast.
        if !self.has_player_valid_speed(state) {
            return Err(UpgradeError::NotDocked);
        }

        let upgrade_opt = state.player.vehicle.sail.kind.upgrade();
        if let Some(upgrade) = upgrade_opt {
            let upgrade_cost = upgrade.value();
            if state.player.money >= upgrade_cost {
                state.player.money = state.player.money - upgrade_cost;
                state.player.vehicle.sail.kind = upgrade;
                Ok(())
            } else {
                Err(UpgradeError::InsufficientFunds)
            }
        } else {
            // Already at the top of the chain.
            Err(UpgradeError::MaxLevel)
        }
    }

    /// Tries to upgrade the hull to the next level: it fails for a
    /// player above the trading speed ceiling, at the top of the chain
    /// (whatever the player's funds), or with too little money;
    /// otherwise the cost leaves the player's money and the hull
    /// advances exactly one step.
    pub fn upgrade_hull(&mut self, state: &mut WorldState) -> (r: Result<(), UpgradeError>)
        requires
            old(state).player.vehicle.velocity.in_range(),
        ensures
            *final(self) == *old(self),
            old(state).player.vehicle.speed_sq_spec() > TRADE_SPEED_SQ <==> r == Err::<(),
            _>(UpgradeError::NotDocked),
            r == Err::<(), _>(UpgradeError::MaxLevel) <==> (old(state).player.vehicle.speed_sq_spec()
                <= TRADE_SPEED_SQ && old(state).player.vehicle.hull == ShipHull::Bigger),
            r == Err::<(), _>(UpgradeError::InsufficientFunds) <==> (old(
                state,
            ).player.vehicle.speed_sq_spec() <= TRADE_SPEED_SQ && old(state).player.vehicle.hull
                == ShipHull::Small && old(state).player.money < 2000),
            r is Err ==> *final(state) == *old(state),
            r is Ok ==> {
                &&& old(state).player.vehicle.hull == ShipHull::Small
                &&& final(state).player.money == old(state).player.money - 2000
                &&& final(state).player.vehicle.hull == ShipHull::Bigger
                &&& final(state).player.vehicle == (Vehicle {
                    hull: ShipHull::Bigger,
                    ..old(state).player.vehicle
                })
                &&& final(state).timestamp == old(state).timestamp
                &&& final(state).resources == old(state).resources
                &&& final(state).harbors == old(state).harbors
                &&& final(state).wind == old(state).wind
            },
    {
        // Do not trade if the player is too fast.
        if !self.has_player_valid_speed(state) {
            return Err(UpgradeError::NotDocked);
        }

        let upgrade_opt = state.player.vehicle.hull.upgrade();
        if let Some(upgrade) = upgrade_opt {
            let upgrade_cost = upgrade.value();
            if state.player.money >= upgrade_cost {
                state.player.money = state.player.money - upgrade_cost;
                state.player.vehicle.hull = upgrade;
                Ok(())
            } else {
                Err(UpgradeError::InsufficientFunds)
            }
        } else {
            // Already at the top of the chain.
            Err(UpgradeError::MaxLevel)
        }
    }
}

impl WorldState {
    /// The squared torus distance between the vehicle and harbor `i`.
    pub open spec fn harbor_dist_sq(self, t: crate::terrain::Terrain, i: int) -> int {
        t.torus_dist_spec(self.player.vehicle.pos, self.harbors[i].loc).magnitude_sq_spec()
    }

    /// Gets the trading opportunity, if any: the nearest harbor within
    /// the effect distance wins, with ties broken towards the earlier
    /// index by strict comparison.
    pub fn get_trading(&self, init: &crate::WorldInit) -> (r: Option<TradeOption>)
        requires
            init.terrain.wf(),
            self.wf(init.terrain.size_mm()),
        ensures
            r is Some <==> exists|j: int|
                0 <= j < self.harbors.len() && #[trigger] self.harbor_dist_sq(init.terrain, j)
                    < HARBOR_EFFECT_SQ,
            r is Some ==> {
                let idx = r->Some_0.harbor_idx_spec();
                &&& 0 <= idx < self.harbors.len()
                &&& self.harbor_dist_sq(init.terrain, idx) < HARBOR_EFFECT_SQ
                &&& forall|j: int|
                    0 <= j < self.harbors.len() && #[trigger] self.harbor_dist_sq(init.terrain, j)
                        < HARBOR_EFFECT_SQ ==> self.harbor_dist_sq(init.terrain, idx)
                        <= self.harbor_dist_sq(init.terrain, j)
                &&& forall|j: int|
                    0 <= j < idx && #[trigger] self.harbor_dist_sq(init.terrain, j)
                        < HARBOR_EFFECT_SQ ==> self.harbor_dist_sq(init.terrain, idx)
                        < self.harbor_dist_sq(init.terrain, j)
                &&& r->Some_0.wf()
                &&& r->Some_0.traded_spec() == 0
            },
    {
        proof {
            crate::terrain::lemma_size_positive(init.terrain);
        }
        let ghost t = init.terrain;
        let mut best: Option<(u128, usize)> = None;
        let mut idx: usize = 0;
        while idx < self.harbors.len()
            invariant
                t == init.terrain,
                t.wf(),
                self.wf(t.size_mm()),
                4000 <= t.size_mm() <= 262_140_000,
                idx <= self.harbors.len(),
                best is None ==> forall|j: int|
                    0 <= j < idx ==> #[trigger] self.harbor_dist_sq(t, j) >= HARBOR_EFFECT_SQ,
                best is Some ==> {
                    let b = best->Some_0;
                    &&& 0 <= b.1 < idx
                    &&& b.0 == self.harbor_dist_sq(t, b.1 as int)
                    &&& b.0 < HARBOR_EFFECT_SQ
                    &&& forall|j: int|
                        0 <= j < idx && #[trigger] self.harbor_dist_sq(t, j) < HARBOR_EFFECT_SQ
                            ==> b.0 <= self.harbor_dist_sq(t, j)
                    &&& forall|j: int|
                        0 <= j < b.1 && #[trigger] self.harbor_dist_sq(t, j) < HARBOR_EFFECT_SQ
                            ==> b.0 < self.harbor_dist_sq(t, j)
                },
            decreases self.harbors.len() - idx,
        {
            let h = self.harbors[idx];
            proof {
                assert(0 <= self.harbors[idx as int].loc.x < t.size_mm());
                assert(0 <= self.harbors[idx as int].loc.y < t.size_mm());
            }
            let d = init.terrain.torus_distance(self.player.vehicle.pos, h.loc);
            let dist_sq = d.magnitude_sq();
            if dist_sq < (HARBOR_EFFECT_SQ as u128) {
                match best {
                    None => {
                        best = Some((dist_sq, idx));
                    },
                    Some((bd, _)) => {
                        if dist_sq < bd {
                            best = Some((dist_sq, idx));
                        }
                    },
                }
            }
            idx = idx + 1;
        }
        match best {
            None => None,
            Some((_, i)) => Some(
                TradeOption { harbor_idx: i, base_price: 1, traded_fish_amount: 0 },
            ),
        }
    }
}

/// Law: selling zero fish moves zero value, for any hold whose value
/// rests on actual catch (an empty hold is worthless). Together with
/// the contract of [`TradeOption::sell_fish`] this makes a zero sale a
/// no-op that returns `Some(0)`, however often it is repeated.
pub proof fn lemma_sell_zero_is_noop(weight: int, value: int)
    requires
        0 <= weight,
        0 <= value,
        weight == 0 ==> value == 0,
    ensures
        sold_value(0, weight, value) == 0,
        (if 0 >= weight { weight } else { 0int }) == 0,
{
    if weight > 0 {
        assert(0 * value / weight == 0) by (nonlinear_arith)
            requires
                weight > 0,
                0 <= value,
        ;
    }
}

/// The number of ticks between wind anchor points.
pub const WIND_INTERVAL_TICKS: u64 = 600;

/// The wind interval a tick falls into and the tick's offset within it.
///
/// The wind model anchors a deterministic draw at the start and the end
/// of each interval and interpolates linearly by this offset; no wind
/// state is carried from tick to tick, so replays from any tick are
/// exact.
pub fn wind_interval(tick: Tick) -> (r: (u64, u64))
    ensures
        r.0 == tick.0 / WIND_INTERVAL_TICKS,
        r.1 == tick.0 % WIND_INTERVAL_TICKS,
        r.1 < WIND_INTERVAL_TICKS,
{
    (tick.0 / WIND_INTERVAL_TICKS, tick.0 % WIND_INTERVAL_TICKS)
}

/// The base of the per-interval wind stream identifiers.
pub const WIND_STREAM_BASE: u128 = 0xa02bdbf7bb3c0a7ac28fa16a64abf96;

/// The fixed initial state of the wind draw at each anchor.
pub const WIND_STREAM_STATE: u128 = 0xcafef00dd15ea5e5;

/// The stream identifier of the wind draw at interval `index` of the
/// game with the given seed: a pure function of the two, so the wind at
/// any tick can be reconstructed without replaying history.
pub fn wind_stream(seed: u64, index: u64) -> (r: u128)
    ensures
        r == (WIND_STREAM_BASE ^ (seed as u128)) ^ (index as u128),
{
    (WIND_STREAM_BASE ^ (seed as u128)) ^ (index as u128)
}

/// The longitudinal acceleration produced by the energy balance of one
/// tick, in millimetres per second per second:
/// `(-v + sqrt(v^2 + 2*work/mass)) / dt`, with `dt` one tick.
///
/// `accel_energy` is `2*work/mass` expressed in squared millimetres per
/// second. The discriminant `v^2 + accel_energy` can never be negative
/// here — the energy term is unsigned by construction — so no
/// ill-defined value can ever reach the position integration. A vehicle
/// at rest under zero work stays at rest.
pub fn longitudinal_acceleration(speed: u64, accel_energy: u64) -> (r: u64)
    requires
        speed <= 0xffff_ffff,
    ensures
        speed == 0 && accel_energy == 0 ==> r == 0,
        exists|s: int|
            {
                &&& 0 <= s
                &&& #[trigger] (s * s) <= (speed as int) * (speed as int) + accel_energy
                &&& (speed as int) * (speed as int) + accel_energy < (s + 1) * (s + 1)
                &&& r == (s - speed) * (TICKS_PER_SECOND as int)
            },
{
    proof {
        assert((speed as int) * (speed as int) <= 0xffff_ffff * 0xffff_ffff) by (nonlinear_arith)
            requires
                0 <= (speed as int) <= 0xffff_ffff,
        ;
    }
    let disc: u128 = (speed as u128) * (speed as u128) + (accel_energy as u128);
    let root: u64 = crate::units::isqrt(disc);
    proof {
        assert((root as int) >= (speed as int) && (root as int) <= 0x2_0000_0000)
            by (nonlinear_arith)
            requires
                (root as int) * (root as int) <= (disc as int),
                (disc as int) < ((root as int) + 1) * ((root as int) + 1),
                (disc as int) >= (speed as int) * (speed as int),
                (disc as int) <= 0x2_0000_0000_0000_0000,
                0 <= (root as int),
                0 <= (speed as int),
        ;
        assert(((root as int) - (speed as int)) * (TICKS_PER_SECOND as int) <= 0x4b_0000_0000_0)
            by (nonlinear_arith)
            requires
                0 <= (root as int) - (speed as int) <= 0x2_0000_0000,
                TICKS_PER_SECOND == 60,
        ;
    }
    let r = (root - speed) * (crate::TICKS_PER_SECOND as u64);
    proof {
        if speed == 0 && accel_energy == 0 {
            assert((root as int) == 0) by (nonlinear_arith)
                requires
                    0 <= (root as int),
                    (root as int) * (root as int) <= (disc as int),
                    (disc as int) == 0,
            ;
        }
        assert(0 <= (root as int) && (root as int) * (root as int) <= (speed as int) * (
        speed as int) + accel_energy && (speed as int) * (speed as int) + accel_energy < ((
        root as int) + 1) * ((root as int) + 1) && r == ((root as int) - speed) * (
        TICKS_PER_SECOND as int));
    }
    r
}

} // verus!
