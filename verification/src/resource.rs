//! Collectable resources: the closed set of content types with their
//! static spawn statistics, and the per-instance animation parameters
//! fixed at spawn time. An instance's animated position is a pure
//! function of its parameters and the tick, so motion is deterministic
//! and restartable at any tick.

use vstd::prelude::*;

use crate::rng::GameRng;
use crate::rng::rng_mix;
use crate::rng::rng_step;
use crate::units::Elevation;
use crate::units::Location;
use crate::FISH_ANIM_BASE_DURATION;
use crate::TICKS_PER_SECOND;

verus! {

/// How many content types exist.
pub const CONTENT_TYPES: u8 = 17;

/// Gives the resource type that can be in a resource pack.
#[derive(Debug, Copy, Clone, PartialEq, Eq, Structural, Hash)]
pub enum ResourcePackContent {
    Fish0,
    Fish1,
    Fish2,
    Fish3,
    Fish4,
    Fish5,
    Fish6,
    Fish7,
    Shoe0,
    Shoe1,
    Starfish0,
    Starfish1,
    Starfish2,
    Starfish3,
    Starfish4,
    Grass0,
    Grass1,
}

/// The static spawn statistics of a content type.
///
/// All ranges are half-open: the minimum is allowed, the maximum is not.
#[derive(Debug, Copy, Clone, PartialEq, Eq, Structural)]
pub struct ResourcePackStats {
    /// The resource weight, in kilograms.
    pub weight: u32,
    /// The value of the resource, in money.
    pub value: u64,
    /// The fewest instances to spawn together.
    pub school_min: u32,
    /// One more than the most instances to spawn together.
    pub school_max: u32,
    /// The spawn frequency, in instances per thousand tiles.
    pub density_permille: u32,
    /// The lowest elevation the resource itself may have.
    pub elev_min: i16,
    /// The elevation bound the resource itself stays under.
    pub elev_max: i16,
    /// The lowest terrain elevation the resource may spawn over.
    pub loc_min: i16,
    /// The terrain elevation bound the spawn tile stays under.
    pub loc_max: i16,
    /// The lower bound of the first animation shape parameter.
    pub p0_min: i8,
    /// The exclusive upper bound of the first animation shape parameter.
    pub p0_max: i8,
    /// The lower bound of the second animation shape parameter.
    pub p1_min: i8,
    /// The exclusive upper bound of the second animation shape parameter.
    pub p1_max: i8,
    /// The lower bound of the animation speed factor.
    pub speed_min: u32,
    /// The exclusive upper bound of the animation speed factor.
    pub speed_max: u32,
}

impl ResourcePackContent {
    /// The static statistics table, keyed by content type.
    ///
    /// Opaque: contracts speak of the table entries symbolically; proofs
    /// that need the numbers reveal it.
    #[verifier::opaque]
    pub open spec fn stats_spec(self) -> ResourcePackStats {
        match self {
            ResourcePackContent::Fish0 => ResourcePackStats {
                weight: 10, value: 12, school_min: 4, school_max: 10, density_permille: 350,
                elev_min: -18i16, elev_max: -12i16, loc_min: -18i16, loc_max: -12i16,
                p0_min: -9i8, p0_max: 0, p1_min: 2, p1_max: 11, speed_min: 90, speed_max: 110,
            },
            ResourcePackContent::Fish1 => ResourcePackStats {
                weight: 20, value: 25, school_min: 1, school_max: 2, density_permille: 50,
                elev_min: -5i16, elev_max: 0, loc_min: -12i16, loc_max: 0,
                p0_min: -9i8, p0_max: 0, p1_min: 2, p1_max: 11, speed_min: 90, speed_max: 110,
            },
            ResourcePackContent::Fish2 => ResourcePackStats {
                weight: 15, value: 17, school_min: 1, school_max: 2, density_permille: 300,
                elev_min: -12i16, elev_max: -5i16, loc_min: -18i16, loc_max: -5i16,
                p0_min: -9i8, p0_max: 0, p1_min: 2, p1_max: 11, speed_min: 90, speed_max: 110,
            },
            ResourcePackContent::Fish3 => ResourcePackStats {
                weight: 8, value: 8, school_min: 1, school_max: 2, density_permille: 100,
                elev_min: -12i16, elev_max: -5i16, loc_min: -12i16, loc_max: 0,
                p0_min: -9i8, p0_max: 0, p1_min: 2, p1_max: 11, speed_min: 90, speed_max: 110,
            },
            ResourcePackContent::Fish4 => ResourcePackStats {
                weight: 5, value: 10, school_min: 1, school_max: 2, density_permille: 60,
                elev_min: -5i16, elev_max: 0, loc_min: -5i16, loc_max: 0,
                p0_min: -9i8, p0_max: 0, p1_min: 2, p1_max: 11, speed_min: 90, speed_max: 110,
            },
            ResourcePackContent::Fish5 => ResourcePackStats {
                weight: 6, value: 5, school_min: 10, school_max: 15, density_permille: 500,
                elev_min: -18i16, elev_max: 0, loc_min: -18i16, loc_max: 0,
                p0_min: -9i8, p0_max: 0, p1_min: 2, p1_max: 11, speed_min: 90, speed_max: 110,
            },
            ResourcePackContent::Fish6 => ResourcePackStats {
                weight: 7, value: 6, school_min: 5, school_max: 7, density_permille: 500,
                elev_min: -18i16, elev_max: 0, loc_min: -18i16, loc_max: -5i16,
                p0_min: -9i8, p0_max: 0, p1_min: 2, p1_max: 11, speed_min: 90, speed_max: 110,
            },
            ResourcePackContent::Fish7 => ResourcePackStats {
                weight: 18, value: 19, school_min: 1, school_max: 3, density_permille: 100,
                elev_min: -12i16, elev_max: -5i16, loc_min: -12i16, loc_max: -5i16,
                p0_min: -9i8, p0_max: 0, p1_min: 2, p1_max: 11, speed_min: 90, speed_max: 110,
            },
            ResourcePackContent::Shoe0 => ResourcePackStats {
                weight: 5, value: 1, school_min: 1, school_max: 2, density_permille: 30,
                elev_min: -1i16, elev_max: 0, loc_min: -12i16, loc_max: 0,
                p0_min: 0, p0_max: 1, p1_min: 0, p1_max: 1, speed_min: 1, speed_max: 15,
            },
            ResourcePackContent::Shoe1 => ResourcePackStats {
                weight: 5, value: 1, school_min: 1, school_max: 2, density_permille: 30,
                elev_min: -1i16, elev_max: 0, loc_min: -18i16, loc_max: -5i16,
                p0_min: 0, p0_max: 1, p1_min: 0, p1_max: 1, speed_min: 1, speed_max: 20,
            },
            ResourcePackContent::Starfish0 => ResourcePackStats {
                weight: 3, value: 1, school_min: 1, school_max: 2, density_permille: 50,
                elev_min: -3i16, elev_max: 0, loc_min: -4i16, loc_max: 0,
                p0_min: 0, p0_max: 1, p1_min: 0, p1_max: 1, speed_min: 20, speed_max: 30,
            },
            ResourcePackContent::Starfish1 => ResourcePackStats {
                weight: 5, value: 1, school_min: 1, school_max: 2, density_permille: 40,
                elev_min: -1i16, elev_max: 0, loc_min: -12i16, loc_max: 0,
                p0_min: 0, p0_max: 1, p1_min: 0, p1_max: 1, speed_min: 20, speed_max: 30,
            },
            ResourcePackContent::Starfish2 => ResourcePackStats {
                weight: 4, value: 1, school_min: 1, school_max: 2, density_permille: 40,
                elev_min: -5i16, elev_max: 0, loc_min: -12i16, loc_max: -5i16,
                p0_min: 0, p0_max: 1, p1_min: 0, p1_max: 1, speed_min: 20, speed_max: 30,
            },
            ResourcePackContent::Starfish3 => ResourcePackStats {
                weight: 3, value: 1, school_min: 1, school_max: 2, density_permille: 20,
                elev_min: -18i16, elev_max: -12i16, loc_min: -18i16, loc_max: -12i16,
                p0_min: 0, p0_max: 1, p1_min: 0, p1_max: 1, speed_min: 20, speed_max: 30,
            },
            ResourcePackContent::Starfish4 => ResourcePackStats {
                weight: 3, value: 1, school_min: 1, school_max: 2, density_permille: 20,
                elev_min: -12i16, elev_max: -5i16, loc_min: -12i16, loc_max: 0,
                p0_min: 0, p0_max: 1, p1_min: 0, p1_max: 1, speed_min: 20, speed_max: 30,
            },
            ResourcePackContent::Grass0 => ResourcePackStats {
                weight: 9, value: 1, school_min: 1, school_max: 2, density_permille: 1000,
                elev_min: -1i16, elev_max: 0, loc_min: -4i16, loc_max: 0,
                p0_min: 0, p0_max: 1, p1_min: 0, p1_max: 1, speed_min: 1, speed_max: 10,
            },
            ResourcePackContent::Grass1 => ResourcePackStats {
                weight: 10, value: 1, school_min: 1, school_max: 2, density_permille: 1000,
                elev_min: -1i16, elev_max: 0, loc_min: -6i16, loc_max: -3i16,
                p0_min: 0, p0_max: 1, p1_min: 0, p1_max: 1, speed_min: 5, speed_max: 15,
            },
        }
    }

    /// Returns the static spawn statistics of this content type.
    pub fn stats(self) -> (r: ResourcePackStats)
        ensures
            r == self.stats_spec(),
    {
        proof {
            reveal(ResourcePackContent::stats_spec);
        }
        match self {
            ResourcePackContent::Fish0 => ResourcePackStats {
                weight: 10, value: 12, school_min: 4, school_max: 10, density_permille: 350,
                elev_min: -18i16, elev_max: -12i16, loc_min: -18i16, loc_max: -12i16,
                p0_min: -9i8, p0_max: 0, p1_min: 2, p1_max: 11, speed_min: 90, speed_max: 110,
            },
            ResourcePackContent::Fish1 => ResourcePackStats {
                weight: 20, value: 25, school_min: 1, school_max: 2, density_permille: 50,
                elev_min: -5i16, elev_max: 0, loc_min: -12i16, loc_max: 0,
                p0_min: -9i8, p0_max: 0, p1_min: 2, p1_max: 11, speed_min: 90, speed_max: 110,
            },
            ResourcePackContent::Fish2 => ResourcePackStats {
                weight: 15, value: 17, school_min: 1, school_max: 2, density_permille: 300,
                elev_min: -12i16, elev_max: -5i16, loc_min: -18i16, loc_max: -5i16,
                p0_min: -9i8, p0_max: 0, p1_min: 2, p1_max: 11, speed_min: 90, speed_max: 110,
            },
            ResourcePackContent::Fish3 => ResourcePackStats {
                weight: 8, value: 8, school_min: 1, school_max: 2, density_permille: 100,
                elev_min: -12i16, elev_max: -5i16, loc_min: -12i16, loc_max: 0,
                p0_min: -9i8, p0_max: 0, p1_min: 2, p1_max: 11, speed_min: 90, speed_max: 110,
            },
            ResourcePackContent::Fish4 => ResourcePackStats {
                weight: 5, value: 10, school_min: 1, school_max: 2, density_permille: 60,
                elev_min: -5i16, elev_max: 0, loc_min: -5i16, loc_max: 0,
                p0_min: -9i8, p0_max: 0, p1_min: 2, p1_max: 11, speed_min: 90, speed_max: 110,
            },
            ResourcePackContent::Fish5 => ResourcePackStats {
                weight: 6, value: 5, school_min: 10, school_max: 15, density_permille: 500,
                elev_min: -18i16, elev_max: 0, loc_min: -18i16, loc_max: 0,
                p0_min: -9i8, p0_max: 0, p1_min: 2, p1_max: 11, speed_min: 90, speed_max: 110,
            },
            ResourcePackContent::Fish6 => ResourcePackStats {
                weight: 7, value: 6, school_min: 5, school_max: 7, density_permille: 500,
                elev_min: -18i16, elev_max: 0, loc_min: -18i16, loc_max: -5i16,
                p0_min: -9i8, p0_max: 0, p1_min: 2, p1_max: 11, speed_min: 90, speed_max: 110,
            },
            ResourcePackContent::Fish7 => ResourcePackStats {
                weight: 18, value: 19, school_min: 1, school_max: 3, density_permille: 100,
                elev_min: -12i16, elev_max: -5i16, loc_min: -12i16, loc_max: -5i16,
                p0_min: -9i8, p0_max: 0, p1_min: 2, p1_max: 11, speed_min: 90, speed_max: 110,
            },
            ResourcePackContent::Shoe0 => ResourcePackStats {
                weight: 5, value: 1, school_min: 1, school_max: 2, density_permille: 30,
                elev_min: -1i16, elev_max: 0, loc_min: -12i16, loc_max: 0,
                p0_min: 0, p0_max: 1, p1_min: 0, p1_max: 1, speed_min: 1, speed_max: 15,
            },
            ResourcePackContent::Shoe1 => ResourcePackStats {
                weight: 5, value: 1, school_min: 1, school_max: 2, density_permille: 30,
                elev_min: -1i16, elev_max: 0, loc_min: -18i16, loc_max: -5i16,
                p0_min: 0, p0_max: 1, p1_min: 0, p1_max: 1, speed_min: 1, speed_max: 20,
            },
            ResourcePackContent::Starfish0 => ResourcePackStats {
                weight: 3, value: 1, school_min: 1, school_max: 2, density_permille: 50,
                elev_min: -3i16, elev_max: 0, loc_min: -4i16, loc_max: 0,
                p0_min: 0, p0_max: 1, p1_min: 0, p1_max: 1, speed_min: 20, speed_max: 30,
            },
            ResourcePackContent::Starfish1 => ResourcePackStats {
                weight: 5, value: 1, school_min: 1, school_max: 2, density_permille: 40,
                elev_min: -1i16, elev_max: 0, loc_min: -12i16, loc_max: 0,
                p0_min: 0, p0_max: 1, p1_min: 0, p1_max: 1, speed_min: 20, speed_max: 30,
            },
            ResourcePackContent::Starfish2 => ResourcePackStats {
                weight: 4, value: 1, school_min: 1, school_max: 2, density_permille: 40,
                elev_min: -5i16, elev_max: 0, loc_min: -12i16, loc_max: -5i16,
                p0_min: 0, p0_max: 1, p1_min: 0, p1_max: 1, speed_min: 20, speed_max: 30,
            },
            ResourcePackContent::Starfish3 => ResourcePackStats {
                weight: 3, value: 1, school_min: 1, school_max: 2, density_permille: 20,
                elev_min: -18i16, elev_max: -12i16, loc_min: -18i16, loc_max: -12i16,
                p0_min: 0, p0_max: 1, p1_min: 0, p1_max: 1, speed_min: 20, speed_max: 30,
            },
            ResourcePackContent::Starfish4 => ResourcePackStats {
                weight: 3, value: 1, school_min: 1, school_max: 2, density_permille: 20,
                elev_min: -12i16, elev_max: -5i16, loc_min: -12i16, loc_max: 0,
                p0_min: 0, p0_max: 1, p1_min: 0, p1_max: 1, speed_min: 20, speed_max: 30,
            },
            ResourcePackContent::Grass0 => ResourcePackStats {
                weight: 9, value: 1, school_min: 1, school_max: 2, density_permille: 1000,
                elev_min: -1i16, elev_max: 0, loc_min: -4i16, loc_max: 0,
                p0_min: 0, p0_max: 1, p1_min: 0, p1_max: 1, speed_min: 1, speed_max: 10,
            },
            ResourcePackContent::Grass1 => ResourcePackStats {
                weight: 10, value: 1, school_min: 1, school_max: 2, density_permille: 1000,
                elev_min: -1i16, elev_max: 0, loc_min: -6i16, loc_max: -3i16,
                p0_min: 0, p0_max: 1, p1_min: 0, p1_max: 1, speed_min: 5, speed_max: 15,
            },
        }
    }

    /// The content type with the given dense index, in declaration order.
    pub open spec fn at_index_spec(i: int) -> ResourcePackContent {
        if i == 0 { ResourcePackContent::Fish0 }
        else if i == 1 { ResourcePackContent::Fish1 }
        else if i == 2 { ResourcePackContent::Fish2 }
        else if i == 3 { ResourcePackContent::Fish3 }
        else if i == 4 { ResourcePackContent::Fish4 }
        else if i == 5 { ResourcePackContent::Fish5 }
        else if i == 6 { ResourcePackContent::Fish6 }
        else if i == 7 { ResourcePackContent::Fish7 }
        else if i == 8 { ResourcePackContent::Shoe0 }
        else if i == 9 { ResourcePackContent::Shoe1 }
        else if i == 10 { ResourcePackContent::Starfish0 }
        else if i == 11 { ResourcePackContent::Starfish1 }
        else if i == 12 { ResourcePackContent::Starfish2 }
        else if i == 13 { ResourcePackContent::Starfish3 }
        else if i == 14 { ResourcePackContent::Starfish4 }
        else if i == 15 { ResourcePackContent::Grass0 }
        else { ResourcePackContent::Grass1 }
    }

    /// Returns the content type with the given dense index.
    pub fn at_index(i: u8) -> (r: ResourcePackContent)
        requires
            i < CONTENT_TYPES,
        ensures
            r == ResourcePackContent::at_index_spec(i as int),
    {
        if i == 0 { ResourcePackContent::Fish0 }
        else if i == 1 { ResourcePackContent::Fish1 }
        else if i == 2 { ResourcePackContent::Fish2 }
        else if i == 3 { ResourcePackContent::Fish3 }
        else if i == 4 { ResourcePackContent::Fish4 }
        else if i == 5 { ResourcePackContent::Fish5 }
        else if i == 6 { ResourcePackContent::Fish6 }
        else if i == 7 { ResourcePackContent::Fish7 }
        else if i == 8 { ResourcePackContent::Shoe0 }
        else if i == 9 { ResourcePackContent::Shoe1 }
        else if i == 10 { ResourcePackContent::Starfish0 }
        else if i == 11 { ResourcePackContent::Starfish1 }
        else if i == 12 { ResourcePackContent::Starfish2 }
        else if i == 13 { ResourcePackContent::Starfish3 }
        else if i == 14 { ResourcePackContent::Starfish4 }
        else if i == 15 { ResourcePackContent::Grass0 }
        else { ResourcePackContent::Grass1 }
    }
}

/// Every entry of the statistics table is well-formed: all ranges are
/// non-empty, schools have at least one member, densities stay within a
/// thousand per thousand, and speed factors stay below a hundred times
/// the least shape weight.
pub proof fn lemma_stats_wf(c: ResourcePackContent)
    ensures
        c.stats_spec().elev_min < c.stats_spec().elev_max,
        c.stats_spec().loc_min < c.stats_spec().loc_max,
        c.stats_spec().p0_min < c.stats_spec().p0_max,
        c.stats_spec().p1_min < c.stats_spec().p1_max,
        1 <= c.stats_spec().speed_min < c.stats_spec().speed_max,
        1 <= c.stats_spec().school_min < c.stats_spec().school_max,
        c.stats_spec().school_max <= 15,
        c.stats_spec().density_permille <= 1000,
        c.stats_spec().weight >= 1,
        c.stats_spec().value >= 1,
{
    reveal(ResourcePackContent::stats_spec);
}

/// A collectable resource in the water.
#[derive(Debug, Copy, Clone, PartialEq)]
pub struct ResourcePack {
    /// The type of the resource.
    pub content: ResourcePackContent,
    /// The current animated location of the resource, in millimetres.
    pub loc: Location,
    /// The orientation of the resource, in milliradians, zero is the
    /// world x axis.
    pub ori: i32,
    /// The depth of the resource.
    pub elevation: Elevation,
    /// The origin (anchor) location of the resource, in millimetres.
    pub origin: Location,
    /// Animation shape parameters.
    pub params: (i8, i8),
    /// Animation phase offset, in thousandths of a turn.
    pub phase: u32,
    /// Animation speed factor.
    pub speed_factor: u32,
    /// Whether the animation plays backwards.
    pub backwards: bool,
}

impl ResourcePack {
    /// The spawn draws all lie in the content type's ranges, and the
    /// phase is a valid turn fraction.
    pub open spec fn wf(self) -> bool {
        let st = self.content.stats_spec();
        &&& st.elev_min <= self.elevation.0 < st.elev_max
        &&& st.p0_min <= self.params.0 < st.p0_max
        &&& st.p1_min <= self.params.1 < st.p1_max
        &&& self.phase < 1000
        &&& st.speed_min <= self.speed_factor < st.speed_max
    }

    /// The pack drawn at `loc` for content `kind` from generator state
    /// `s`, with the state after the six draws.
    ///
    /// Opaque: callers treat the drawn pack as a function of the inputs.
    #[verifier::opaque]
    pub open spec fn new_model(loc: Location, kind: ResourcePackContent, s: u64) -> (
        ResourcePack,
        u64,
    ) {
        let st = kind.stats_spec();
        let s1 = rng_step(s);
        let s2 = rng_step(s1);
        let s3 = rng_step(s2);
        let s4 = rng_step(s3);
        let s5 = rng_step(s4);
        let s6 = rng_step(s5);
        (
            ResourcePack {
                content: kind,
                loc: Location { x: 0, y: 0 },
                ori: 0,
                elevation: Elevation(
                    (st.elev_min + rng_mix(s) % ((st.elev_max - st.elev_min) as u64)) as i16,
                ),
                origin: loc,
                params: (
                    (st.p0_min + rng_mix(s1) % ((st.p0_max - st.p0_min) as u64)) as i8,
                    (st.p1_min + rng_mix(s2) % ((st.p1_max - st.p1_min) as u64)) as i8,
                ),
                phase: (rng_mix(s3) % 1000) as u32,
                speed_factor: (st.speed_min + rng_mix(s4) % ((st.speed_max - st.speed_min) as u64))
                    as u32,
                backwards: rng_mix(s5) % 2 == 1,
            },
            s6,
        )
    }

    /// Draws a new resource pack anchored at `loc`: its fixed spawn depth
    /// and all animation parameters come from the content type's ranges.
    pub fn new(loc: Location, kind: ResourcePackContent, rng: &mut GameRng) -> (r: ResourcePack)
        ensures
            (r, final(rng).state) == ResourcePack::new_model(loc, kind, old(rng).state),
            r.wf(),
            r.content == kind,
            r.origin == loc,
            r.loc == (Location { x: 0, y: 0 }),
            r.ori == 0,
    {
        proof {
            reveal(ResourcePack::new_model);
            lemma_stats_wf(kind);
        }
        let st = kind.stats();
        let elevation = rng.range_i64(st.elev_min as i64, st.elev_max as i64);
        let p0 = rng.range_i64(st.p0_min as i64, st.p0_max as i64);
        let p1 = rng.range_i64(st.p1_min as i64, st.p1_max as i64);
        let phase = rng.range_u64(1000);
        let speed = rng.range_i64(st.speed_min as i64, st.speed_max as i64);
        let backwards = rng.coin();
        ResourcePack {
            content: kind,
            loc: Location { x: 0, y: 0 },
            ori: 0,
            elevation: Elevation(elevation as i16),
            origin: loc,
            params: (p0 as i8, p1 as i8),
            phase: phase as u32,
            speed_factor: speed as u32,
            backwards,
        }
    }

    /// The total animation cycle duration, in ticks. Positive for every
    /// well-formed pack: each content type's speed factors stay below a
    /// hundred times its least shape weight.
    pub open spec fn duration_spec(self) -> int {
        (1 + abs_i8(self.params.0) + abs_i8(self.params.1)) * 100 / (self.speed_factor as int) * (
        (FISH_ANIM_BASE_DURATION * TICKS_PER_SECOND as u32) as int)
    }

    /// The progress of this pack's animation at `current_tick`, as the
    /// cycle duration in ticks and the signed phase-shifted progress in
    /// thousandths of a turn (negative when the animation plays
    /// backwards). The host turns this angle into the closed-form curve
    /// position; everything up to the trigonometry is fixed here.
    pub fn animation_progress(&self, current_tick: crate::units::Tick) -> (r: (u64, i64))
        requires
            self.wf(),
        ensures
            r.0 == self.duration_spec(),
            r.0 >= 1,
            r.1 == (if self.backwards { -1int } else { 1int }) * (self.phase + (
            (current_tick.0 as int) % (self.duration_spec()) * 1000) / self.duration_spec()),
    {
        let p0: u32 = if self.params.0 < 0 {
            (-(self.params.0 as i32)) as u32
        } else {
            self.params.0 as u32
        };
        let p1: u32 = if self.params.1 < 0 {
            (-(self.params.1 as i32)) as u32
        } else {
            self.params.1 as u32
        };
        proof {
            reveal(ResourcePackContent::stats_spec);
        }
        let num: u32 = (1 + p0 + p1) * 100;
        proof {
            // Per content type, the speed factors stay below a hundred
            // times the least shape weight, so the cycle has a whole tick.
            assert(num >= self.speed_factor);
            assert((num as int) / (self.speed_factor as int) >= 1 && (num as int) / (
            self.speed_factor as int) <= num) by (nonlinear_arith)
                requires
                    1 <= (self.speed_factor as int),
                    (self.speed_factor as int) <= (num as int),
            ;
        }
        let base: u32 = num / self.speed_factor;
        proof {
            assert((FISH_ANIM_BASE_DURATION as int) * (TICKS_PER_SECOND as int) == 180)
                by (nonlinear_arith)
                requires
                    FISH_ANIM_BASE_DURATION == 3,
                    TICKS_PER_SECOND == 60,
            ;
            assert((base as int) * 180 <= 25700 * 180) by (nonlinear_arith)
                requires
                    0 <= (base as int) <= 25700,
            ;
        }
        let duration: u64 = (base as u64) * ((FISH_ANIM_BASE_DURATION as u64) * (
        TICKS_PER_SECOND as u64));
        let in_cycle: u64 = current_tick.0 % duration;
        proof {
            assert((in_cycle as int) * 1000 / (duration as int) < 1000) by (nonlinear_arith)
                requires
                    0 <= (in_cycle as int) < (duration as int),
            ;
        }
        let turn: u64 = in_cycle * 1000 / duration;
        let progress: i64 = (self.phase as i64) + (turn as i64);
        if self.backwards {
            (duration, -progress)
        } else {
            (duration, progress)
        }
    }
}

/// The magnitude of a signed byte.
pub open spec fn abs_i8(v: i8) -> int {
    if v < 0 {
        -(v as int)
    } else {
        v as int
    }
}

} // verus!
