//! Strongly-typed scalar and vector units: elevations and their tile
//! classification, ticks, quantized fractions, and the fixed-point affine
//! pair of map locations and distances (millimetres).

use vstd::prelude::*;

verus! {

/// The deepest representable sea floor, in elevation steps.
pub const ELEVATION_DEEPEST: i16 = -18;
/// The lowest shallow-water elevation.
pub const ELEVATION_SHALLOW_WATER: i16 = -5;
/// The lowest beach elevation.
pub const ELEVATION_BEACH: i16 = 0;
/// The lowest grass elevation.
pub const ELEVATION_GRASS: i16 = 1;
/// The highest representable elevation.
pub const ELEVATION_HIGHEST: i16 = 2;

/// A point in world time.
///
/// A `Tick` has only meaning in the context of a specific game.
#[derive(Debug, Copy, Clone, PartialEq, Eq, Structural, Hash, Default)]
pub struct Tick(pub u64);

impl Tick {
    /// The next point in time. Time only moves forward.
    pub fn next(self) -> (r: Self)
        requires
            self.0 < u64::MAX,
        ensures
            r.0 == self.0 + 1,
    {
        Tick(self.0 + 1)
    }
}

/// Amount of fish, in kilograms.
#[derive(Debug, Copy, Clone, PartialEq, Eq, Structural)]
pub struct Fish(pub u32);

/// A fractional value in `0.0..=1.0`, quantized to 255 steps.
#[derive(Debug, Copy, Clone, PartialEq, Eq, Structural, Hash, Default)]
pub struct Fraction(pub u8);

/// A fractional value in `-1.0..=1.0`, quantized to 127 steps each way.
#[derive(Debug, Copy, Clone, PartialEq, Eq, Structural, Hash, Default)]
pub struct BiPolarFraction(pub i8);

/// The classification of a tile by its elevation band.
#[derive(Debug, Copy, Clone, PartialEq, Eq, Structural, Hash)]
pub enum TileType {
    DeepWater,
    ShallowWater,
    Beach,
    Grass,
}

impl TileType {
    /// The lowest elevation of this band.
    pub open spec fn lowest_spec(self) -> int {
        match self {
            TileType::DeepWater => ELEVATION_DEEPEST as int,
            TileType::ShallowWater => ELEVATION_SHALLOW_WATER as int,
            TileType::Beach => ELEVATION_BEACH as int,
            TileType::Grass => ELEVATION_GRASS as int,
        }
    }

    /// The highest elevation of this band.
    pub open spec fn highest_spec(self) -> int {
        match self {
            TileType::DeepWater => ELEVATION_SHALLOW_WATER - 1,
            TileType::ShallowWater => ELEVATION_BEACH - 1,
            TileType::Beach => ELEVATION_GRASS - 1,
            TileType::Grass => ELEVATION_HIGHEST as int,
        }
    }

    /// Returns the lowest elevation of this tile type.
    pub fn lowest(self) -> (r: Elevation)
        ensures
            r.0 == self.lowest_spec(),
    {
        match self {
            TileType::DeepWater => Elevation(ELEVATION_DEEPEST),
            TileType::ShallowWater => Elevation(ELEVATION_SHALLOW_WATER),
            TileType::Beach => Elevation(ELEVATION_BEACH),
            TileType::Grass => Elevation(ELEVATION_GRASS),
        }
    }

    /// Returns the highest elevation of this tile type.
    pub fn highest(self) -> (r: Elevation)
        ensures
            r.0 == self.highest_spec(),
    {
        match self {
            TileType::DeepWater => Elevation(ELEVATION_SHALLOW_WATER - 1),
            TileType::ShallowWater => Elevation(ELEVATION_BEACH - 1),
            TileType::Beach => Elevation(ELEVATION_GRASS - 1),
            TileType::Grass => Elevation(ELEVATION_HIGHEST),
        }
    }
}

/// A terrain height, in abstract elevation steps. Negative is under water.
#[derive(Debug, Copy, Clone, PartialEq, Eq, Structural, Hash, Default)]
pub struct Elevation(pub i16);

impl Elevation {
    /// True for elevations whose tiles may be traversed by the player.
    pub open spec fn is_passable_spec(self) -> bool {
        self.0 < 0
    }

    /// The band an elevation falls into: the four bands cover the whole
    /// `i16` range contiguously and in order.
    pub open spec fn classify_spec(self) -> TileType {
        if self.0 <= ELEVATION_SHALLOW_WATER - 1 {
            TileType::DeepWater
        } else if self.0 <= ELEVATION_BEACH - 1 {
            TileType::ShallowWater
        } else if self.0 <= ELEVATION_GRASS - 1 {
            TileType::Beach
        } else {
            TileType::Grass
        }
    }

    /// Returns the next lower elevation, saturating at the bottom.
    pub fn lower(self) -> (r: Self)
        ensures
            r.0 == if self.0 == i16::MIN { i16::MIN as int } else { self.0 - 1 },
    {
        if self.0 == i16::MIN {
            self
        } else {
            Elevation(self.0 - 1)
        }
    }

    /// Returns the next higher elevation, saturating at the top.
    pub fn higher(self) -> (r: Self)
        ensures
            r.0 == if self.0 == i16::MAX { i16::MAX as int } else { self.0 + 1 },
    {
        if self.0 == i16::MAX {
            self
        } else {
            Elevation(self.0 + 1)
        }
    }

    /// Returns true for tiles which may be traversed by the player.
    pub fn is_passable(self) -> (r: bool)
        ensures
            r == self.is_passable_spec(),
    {
        self.0 < 0
    }

    /// Classifies the elevation into its tile type.
    pub fn classify(self) -> (r: TileType)
        ensures
            r == self.classify_spec(),
    {
        if self.0 <= ELEVATION_SHALLOW_WATER - 1 {
            TileType::DeepWater
        } else if self.0 <= ELEVATION_BEACH - 1 {
            TileType::ShallowWater
        } else if self.0 <= ELEVATION_GRASS - 1 {
            TileType::Beach
        } else {
            TileType::Grass
        }
    }
}

/// A tile is passable exactly when it classifies below the beach band.
pub proof fn lemma_passable_is_water(e: Elevation)
    ensures
        e.is_passable_spec() <==> (e.classify_spec() == TileType::DeepWater
            || e.classify_spec() == TileType::ShallowWater),
{
}

/// Magnitude limit on a single fixed-point coordinate, in millimetres.
///
/// Every location or distance the library handles stays well inside this
/// bound, which keeps all componentwise sums and squares free of overflow.
pub const COORD_LIMIT: i64 = 0x4000_0000_0000;

/// Whether a fixed-point coordinate is within the representable band.
pub open spec fn coord_in_range(v: i64) -> bool {
    -COORD_LIMIT <= v <= COORD_LIMIT
}

/// A coordinate within the representable band has a small, non-negative
/// square.
pub proof fn lemma_square_bound(v: int)
    requires
        -COORD_LIMIT <= v <= COORD_LIMIT,
    ensures
        0 <= v * v <= (COORD_LIMIT as int) * (COORD_LIMIT as int),
{
    assert(0 <= v * v <= (COORD_LIMIT as int) * (COORD_LIMIT as int)) by (nonlinear_arith)
        requires
            -COORD_LIMIT <= v <= COORD_LIMIT,
    ;
}

/// Floor of the square root of `n`.
pub fn isqrt(n: u128) -> (r: u64)
    ensures
        (r as int) * (r as int) <= n as int,
        (n as int) < ((r as int + 1) * (r as int + 1)),
{
    let mut lo: u128 = 0;
    let mut hi: u128 = 0x1_0000_0000_0000_0000u128;
    while lo + 1 < hi
        invariant
            lo < hi,
            hi <= 0x1_0000_0000_0000_0000u128,
            (lo as int) * (lo as int) <= n as int,
            (n as int) < ((hi as int) * (hi as int)),
        decreases hi - lo,
    {
        let mid: u128 = lo + (hi - lo) / 2;
        proof {
            assert((mid as int) * (mid as int)
                < 0x1_0000_0000_0000_0000_0000_0000_0000_0000) by (nonlinear_arith)
                requires
                    0 <= (mid as int) < 0x1_0000_0000_0000_0000,
            ;
        }
        if mid * mid <= n {
            lo = mid;
        } else {
            hi = mid;
        }
    }
    lo as u64
}

/// An arbitrary distance on the map, in millimetres per axis.
///
/// Also used for velocities, read as millimetres per second.
#[derive(Debug, Copy, Clone, PartialEq, Eq, Structural, Default)]
pub struct Distance {
    pub x: i64,
    pub y: i64,
}

impl Distance {
    /// Whether both components are within the representable band.
    pub open spec fn in_range(self) -> bool {
        coord_in_range(self.x) && coord_in_range(self.y)
    }

    /// The squared Euclidean length, in squared millimetres.
    pub open spec fn magnitude_sq_spec(self) -> int {
        self.x * self.x + self.y * self.y
    }

    /// A new distance from its components in millimetres.
    pub fn new(x: i64, y: i64) -> (r: Self)
        ensures
            r.x == x,
            r.y == y,
    {
        Distance { x, y }
    }

    /// The squared Euclidean length, in squared millimetres.
    pub fn magnitude_sq(self) -> (r: u128)
        requires
            self.in_range(),
        ensures
            r as int == self.magnitude_sq_spec(),
    {
        proof {
            lemma_square_bound(self.x as int);
            lemma_square_bound(self.y as int);
        }
        let xx: i128 = (self.x as i128) * (self.x as i128);
        let yy: i128 = (self.y as i128) * (self.y as i128);
        (xx + yy) as u128
    }

    /// The Euclidean length rounded down to whole millimetres.
    pub fn magnitude(self) -> (r: u64)
        requires
            self.in_range(),
        ensures
            (r as int) * (r as int) <= self.magnitude_sq_spec(),
            self.magnitude_sq_spec() < ((r as int + 1) * (r as int + 1)),
    {
        isqrt(self.magnitude_sq())
    }

    /// The componentwise negation.
    pub fn neg(self) -> (r: Self)
        requires
            self.in_range(),
        ensures
            r.x == -self.x,
            r.y == -self.y,
    {
        Distance { x: -self.x, y: -self.y }
    }

    /// The componentwise sum of two distances.
    pub fn plus(self, rhs: Self) -> (r: Self)
        requires
            self.in_range(),
            rhs.in_range(),
        ensures
            r.x == self.x + rhs.x,
            r.y == self.y + rhs.y,
    {
        Distance { x: self.x + rhs.x, y: self.y + rhs.y }
    }

    /// The componentwise difference of two distances.
    pub fn minus(self, rhs: Self) -> (r: Self)
        requires
            self.in_range(),
            rhs.in_range(),
        ensures
            r.x == self.x - rhs.x,
            r.y == self.y - rhs.y,
    {
        Distance { x: self.x - rhs.x, y: self.y - rhs.y }
    }
}

/// Wind conditions as a velocity vector, in millimetres per second.
#[derive(Debug, Copy, Clone, PartialEq, Eq, Structural, Default)]
pub struct Wind {
    pub x: i64,
    pub y: i64,
}

impl Wind {
    /// Whether both components are within the representable band.
    pub open spec fn in_range(self) -> bool {
        coord_in_range(self.x) && coord_in_range(self.y)
    }

    /// The wind speed rounded down to whole millimetres per second.
    pub fn magnitude(self) -> (r: u64)
        requires
            self.in_range(),
        ensures
            (r as int) * (r as int) <= self.x * self.x + self.y * self.y,
            self.x * self.x + self.y * self.y < ((r as int + 1) * (r as int + 1)),
    {
        Distance { x: self.x, y: self.y }.magnitude()
    }
}

/// An absolute location on the map, in millimetres per axis.
///
/// Locations and distances form an affine pair: subtracting two locations
/// yields a `Distance`, and a `Distance` can be added to a `Location`;
/// no other arithmetic between two locations is offered.
#[derive(Debug, Copy, Clone, PartialEq, Eq, Structural, Default)]
pub struct Location {
    pub x: i64,
    pub y: i64,
}

impl Location {
    /// Whether both components are within the representable band.
    pub open spec fn in_range(self) -> bool {
        coord_in_range(self.x) && coord_in_range(self.y)
    }

    /// A new location from its components in millimetres.
    pub fn new(x: i64, y: i64) -> (r: Self)
        ensures
            r.x == x,
            r.y == y,
    {
        Location { x, y }
    }

    /// The componentwise minimum of two locations.
    pub fn min(self, other: Self) -> (r: Self)
        ensures
            r.x == if self.x <= other.x { self.x } else { other.x },
            r.y == if self.y <= other.y { self.y } else { other.y },
    {
        Location {
            x: if self.x <= other.x { self.x } else { other.x },
            y: if self.y <= other.y { self.y } else { other.y },
        }
    }

    /// The componentwise maximum of two locations.
    pub fn max(self, other: Self) -> (r: Self)
        ensures
            r.x == if self.x >= other.x { self.x } else { other.x },
            r.y == if self.y >= other.y { self.y } else { other.y },
    {
        Location {
            x: if self.x >= other.x { self.x } else { other.x },
            y: if self.y >= other.y { self.y } else { other.y },
        }
    }

    /// The componentwise clamp of this location between `lo` and `hi`.
    pub fn clamp(self, lo: Self, hi: Self) -> (r: Self)
        requires
            lo.x <= hi.x,
            lo.y <= hi.y,
        ensures
            r.x == if self.x < lo.x { lo.x as int } else if self.x > hi.x { hi.x as int } else { self.x as int },
            r.y == if self.y < lo.y { lo.y as int } else if self.y > hi.y { hi.y as int } else { self.y as int },
    {
        self.max(lo).min(hi)
    }

    /// The displacement from `rhs` to `self`.
    pub fn minus(self, rhs: Self) -> (r: Distance)
        requires
            self.in_range(),
            rhs.in_range(),
        ensures
            r.x == self.x - rhs.x,
            r.y == self.y - rhs.y,
    {
        Distance { x: self.x - rhs.x, y: self.y - rhs.y }
    }

    /// The location reached from `self` by the displacement `d`.
    pub fn offset(self, d: Distance) -> (r: Self)
        requires
            self.in_range(),
            d.in_range(),
        ensures
            r.x == self.x + d.x,
            r.y == self.y + d.y,
    {
        Location { x: self.x + d.x, y: self.y + d.y }
    }
}

} // verus!
