//! The terrain of the world: a square grid of elevations with torus
//! semantics. Any location wraps modulo the map size on both axes,
//! neighbor queries wrap at the map edge, and distances are the shortest
//! signed displacement considering wraparound.

use vstd::prelude::*;
use vstd::arithmetic::div_mod::lemma_small_mod;

use crate::rng::GameRng;
use crate::rng::rng_mix;
use crate::rng::rng_step;
use crate::units::Elevation;
use crate::units::Location;
use crate::units::Distance;
use crate::TILE_SIZE_MM;

verus! {

/// How many uniform draws the rejection samplers are willing to spend
/// before giving up on a map (for instance one with no passable tile).
pub const SAMPLE_ATTEMPTS: u64 = 1000;

/// The coordinates of a tile of the map, given by its tile axial indices.
///
/// Tiles are four meters wide, so these differ from locations in
/// millimetres.
#[derive(Debug, Copy, Clone, PartialEq, Eq, Structural, Hash, Default)]
pub struct TileCoord {
    /// The tile index along the x-axis, zero-indexed.
    pub x: u16,
    /// The tile index along the y-axis, zero-indexed.
    pub y: u16,
}

/// The error of converting an out-of-bounds location to a tile coordinate.
#[derive(Debug, Copy, Clone, PartialEq, Eq, Structural, Hash)]
pub enum TileCoordOutOfBoundsError {
    /// A coordinate was negative.
    UnderRun,
    /// A coordinate was beyond the largest representable tile index.
    OverRun,
}

impl TileCoord {
    /// A new coordinate for the given indices.
    pub fn new(x: u16, y: u16) -> (r: TileCoord)
        ensures
            r.x == x,
            r.y == y,
    {
        TileCoord { x, y }
    }

    /// This coordinate with its x index replaced.
    pub fn with_x(self, x: u16) -> (r: Self)
        ensures
            r.x == x,
            r.y == self.y,
    {
        TileCoord { x, y: self.y }
    }

    /// This coordinate with its y index replaced.
    pub fn with_y(self, y: u16) -> (r: Self)
        ensures
            r.x == self.x,
            r.y == y,
    {
        TileCoord { x: self.x, y }
    }

    /// Maps both indices through `convert`; the result is a coordinate
    /// exactly when `convert` yields both components.
    pub fn flat_map<F: Fn(u16, u16) -> (Option<u16>, Option<u16>)>(self, convert: F) -> (r: Option<
        Self,
    >)
        requires
            call_requires(convert, (self.x, self.y)),
        ensures
            exists|p: (Option<u16>, Option<u16>)|
                {
                    &&& #[trigger] call_ensures(convert, (self.x, self.y), p)
                    &&& match (p.0, p.1) {
                        (Some(a), Some(b)) => r == Some(TileCoord { x: a, y: b }),
                        _ => r == None::<TileCoord>,
                    }
                },
    {
        let p = convert(self.x, self.y);
        match (p.0, p.1) {
            (Some(a), Some(b)) => Some(TileCoord { x: a, y: b }),
            _ => None,
        }
    }

    /// The tile coordinate at index `i` of the row-major order of a square
    /// map with the given edge length.
    pub open spec fn at_index(edge_length: u16, i: int) -> TileCoord {
        TileCoord { x: (i % (edge_length as int)) as u16, y: (i / (edge_length as int)) as u16 }
    }

    /// All tiles of a map square of given edge length, in row-major order.
    pub fn coords(edge_length: u16) -> (r: Vec<TileCoord>)
        requires
            edge_length >= 1,
        ensures
            r.len() == edge_length * edge_length,
            forall|i: int|
                0 <= i < r.len() ==> r[i] == TileCoord::at_index(edge_length, i),
    {
        proof {
            assert((edge_length as int) * (edge_length as int) <= 0xffff_ffff) by (nonlinear_arith)
                requires
                    edge_length <= 0xffff,
            ;
        }
        let e: usize = edge_length as usize;
        let mut r: Vec<TileCoord> = Vec::new();
        let mut y: usize = 0;
        while y < e
            invariant
                e == edge_length,
                1 <= e <= 0xffff,
                y <= e,
                r.len() == y * e,
                forall|i: int| 0 <= i < r.len() ==> r[i] == TileCoord::at_index(edge_length, i),
            decreases e - y,
        {
            let mut x: usize = 0;
            while x < e
                invariant
                    e == edge_length,
                    1 <= e <= 0xffff,
                    y < e,
                    x <= e,
                    r.len() == y * e + x,
                    forall|i: int| 0 <= i < r.len() ==> r[i] == TileCoord::at_index(edge_length, i),
                decreases e - x,
            {
                proof {
                    assert((y as int) * (e as int) + (e as int) <= (e as int) * (e as int))
                        by (nonlinear_arith)
                        requires
                            0 <= (y as int) < (e as int),
                    ;
                    let i = (y as int) * (e as int) + (x as int);
                    assert(i % (e as int) == x as int && i / (e as int) == y as int) by {
                        vstd::arithmetic::div_mod::lemma_fundamental_div_mod_converse(
                            i, e as int, y as int, x as int);
                    }
                }
                r.push(TileCoord { x: x as u16, y: y as u16 });
                x = x + 1;
            }
            y = y + 1;
            proof {
                assert((y as int) * (e as int) == (y - 1) * (e as int) + (e as int))
                    by (nonlinear_arith);
            }
        }
        proof {
            assert((e as int) * (e as int) == (edge_length as int) * (edge_length as int));
        }
        r
    }

    /// The center point of this tile, in millimetres.
    pub fn to_location(self) -> (r: Location)
        ensures
            r.x == self.x * TILE_SIZE_MM + TILE_SIZE_MM / 2,
            r.y == self.y * TILE_SIZE_MM + TILE_SIZE_MM / 2,
    {
        Location {
            x: (self.x as i64) * TILE_SIZE_MM + TILE_SIZE_MM / 2,
            y: (self.y as i64) * TILE_SIZE_MM + TILE_SIZE_MM / 2,
        }
    }

    /// The coordinates of the tile below the given location.
    ///
    /// If the location is out of bounds of the map, so will be the tile
    /// coordinate; a negative coordinate has no tile at all.
    pub fn try_from_location(loc: Location) -> (r: Result<TileCoord, TileCoordOutOfBoundsError>)
        ensures
            loc.x < 0 || loc.y < 0 ==> r == Err::<TileCoord, _>(TileCoordOutOfBoundsError::UnderRun),
            loc.x >= 0 && loc.y >= 0 && (loc.x / TILE_SIZE_MM > u16::MAX || loc.y / TILE_SIZE_MM
                > u16::MAX) ==> r == Err::<TileCoord, _>(TileCoordOutOfBoundsError::OverRun),
            loc.x >= 0 && loc.y >= 0 && loc.x / TILE_SIZE_MM <= u16::MAX && loc.y / TILE_SIZE_MM
                <= u16::MAX ==> r == Ok::<_, TileCoordOutOfBoundsError>(
                TileCoord { x: (loc.x / TILE_SIZE_MM) as u16, y: (loc.y / TILE_SIZE_MM) as u16 },
            ),
    {
        if loc.x < 0 || loc.y < 0 {
            Err(TileCoordOutOfBoundsError::UnderRun)
        } else {
            let tx: i64 = loc.x / TILE_SIZE_MM;
            let ty: i64 = loc.y / TILE_SIZE_MM;
            if tx > u16::MAX as i64 || ty > u16::MAX as i64 {
                Err(TileCoordOutOfBoundsError::OverRun)
            } else {
                Ok(TileCoord { x: tx as u16, y: ty as u16 })
            }
        }
    }
}

/// The direction of tile connections.
#[derive(Debug, Copy, Clone, PartialEq, Eq, Structural, Hash)]
pub enum TileDirection {
    East,
    South,
    West,
    North,
}

impl TileDirection {
    /// Gives the tile direction turned clockwise.
    pub fn turn_cw(self) -> (r: Self)
        ensures
            r == match self {
                TileDirection::East => TileDirection::South,
                TileDirection::South => TileDirection::West,
                TileDirection::West => TileDirection::North,
                TileDirection::North => TileDirection::East,
            },
    {
        match self {
            TileDirection::East => TileDirection::South,
            TileDirection::South => TileDirection::West,
            TileDirection::West => TileDirection::North,
            TileDirection::North => TileDirection::East,
        }
    }

    /// Gives the tile direction turned counter clockwise.
    pub fn turn_ccw(self) -> (r: Self)
        ensures
            r == match self {
                TileDirection::East => TileDirection::North,
                TileDirection::South => TileDirection::East,
                TileDirection::West => TileDirection::South,
                TileDirection::North => TileDirection::West,
            },
    {
        match self {
            TileDirection::East => TileDirection::North,
            TileDirection::South => TileDirection::East,
            TileDirection::West => TileDirection::South,
            TileDirection::North => TileDirection::West,
        }
    }

    /// Gives the tile offset for going into this direction as an `(x, y)`
    /// pair.
    pub fn tile_offsets(self) -> (r: (i8, i8))
        ensures
            r == match self {
                TileDirection::East => (1i8, 0i8),
                TileDirection::South => (0i8, 1i8),
                TileDirection::West => (-1i8, 0i8),
                TileDirection::North => (0i8, -1i8),
            },
    {
        match self {
            TileDirection::East => (1, 0),
            TileDirection::South => (0, 1),
            TileDirection::West => (-1, 0),
            TileDirection::North => (0, -1),
        }
    }

    /// The tile index one step east on a torus row of `edge_len` tiles.
    pub open spec fn wrap_inc(a: u16, edge_len: u16) -> int {
        (a + 1) % (edge_len as int)
    }

    /// The tile index one step west on a torus row of `edge_len` tiles.
    pub open spec fn wrap_dec(a: u16, edge_len: u16) -> int {
        (a + edge_len - 1) % (edge_len as int)
    }

    /// The coordinate one step from `tc` in direction `self`, wrapping
    /// around at the map edge like a torus.
    pub open spec fn of_spec(self, tc: TileCoord, edge_len: u16) -> TileCoord {
        match self {
            TileDirection::East => TileCoord {
                x: TileDirection::wrap_inc(tc.x, edge_len) as u16,
                y: tc.y,
            },
            TileDirection::South => TileCoord {
                x: tc.x,
                y: TileDirection::wrap_inc(tc.y, edge_len) as u16,
            },
            TileDirection::West => TileCoord {
                x: TileDirection::wrap_dec(tc.x, edge_len) as u16,
                y: tc.y,
            },
            TileDirection::North => TileCoord {
                x: tc.x,
                y: TileDirection::wrap_dec(tc.y, edge_len) as u16,
            },
        }
    }

    /// Gives the absolute tile coordinate from `tc` in the direction of
    /// `self`, wrapping around at the map edge like a torus.
    pub fn of(self, tc: TileCoord, edge_len: u16) -> (r: TileCoord)
        requires
            edge_len >= 1,
            tc.x < edge_len,
            tc.y < edge_len,
        ensures
            r == self.of_spec(tc, edge_len),
            r.x < edge_len,
            r.y < edge_len,
    {
        proof {
            lemma_wrap_arith(tc.x, edge_len);
            lemma_wrap_arith(tc.y, edge_len);
        }
        match self {
            TileDirection::East => TileCoord { x: exec_wrap_inc(tc.x, edge_len), y: tc.y },
            TileDirection::South => TileCoord { x: tc.x, y: exec_wrap_inc(tc.y, edge_len) },
            TileDirection::West => TileCoord { x: exec_wrap_dec(tc.x, edge_len), y: tc.y },
            TileDirection::North => TileCoord { x: tc.x, y: exec_wrap_dec(tc.y, edge_len) },
        }
    }
}

/// The branching forms of the torus wrap agree with the modular ones.
proof fn lemma_wrap_arith(a: u16, edge_len: u16)
    requires
        1 <= edge_len,
        a < edge_len,
    ensures
        TileDirection::wrap_inc(a, edge_len) == if a + 1 == edge_len { 0int } else { a + 1 },
        TileDirection::wrap_dec(a, edge_len) == if a == 0 { edge_len - 1 } else { a - 1 },
        0 <= TileDirection::wrap_inc(a, edge_len) < edge_len,
        0 <= TileDirection::wrap_dec(a, edge_len) < edge_len,
{
    let e = edge_len as int;
    if a + 1 == edge_len {
        assert((a + 1) % e == 0) by {
            vstd::arithmetic::div_mod::lemma_mod_self_0(e);
        }
    } else {
        lemma_small_mod((a + 1) as nat, e as nat);
    }
    if a == 0 {
        lemma_small_mod((e - 1) as nat, e as nat);
    } else {
        assert((a + edge_len - 1) % e == ((a - 1) + e) % e);
        assert(((a - 1) + e) % e == (a - 1) % e) by {
            vstd::arithmetic::div_mod::lemma_mod_add_multiples_vanish(a - 1, e);
        }
        lemma_small_mod((a - 1) as nat, e as nat);
    }
}

/// One step east on a torus row, as branching code.
fn exec_wrap_inc(a: u16, edge_len: u16) -> (r: u16)
    requires
        1 <= edge_len,
        a < edge_len,
    ensures
        r == if a + 1 == edge_len { 0int } else { a + 1 },
{
    if a >= edge_len - 1 {
        0
    } else {
        a + 1
    }
}

/// One step west on a torus row, as branching code.
fn exec_wrap_dec(a: u16, edge_len: u16) -> (r: u16)
    requires
        1 <= edge_len,
        a < edge_len,
    ensures
        r == if a == 0 { edge_len - 1 } else { a - 1 },
{
    if a == 0 {
        edge_len - 1
    } else {
        a - 1
    }
}

/// The terrain of the world.
///
/// The terrain is a square with `edge_length` tiles along each axis,
/// stored as a row-major elevation grid. It is immutable after
/// generation.
#[derive(Debug, Clone)]
pub struct Terrain {
    /// Amount of tiles along each world axis. Must not be zero.
    ///
    /// Notice that this counts tiles, not meters.
    pub edge_length: u16,

    /// The definition of the terrain, in row-major order.
    ///
    /// This `Vec` has exactly `edge_length * edge_length` elements.
    pub playground: Vec<Elevation>,
}

impl Terrain {
    /// The grid is square and non-empty.
    pub open spec fn wf(self) -> bool {
        &&& 1 <= self.edge_length
        &&& self.playground.len() == self.edge_length * self.edge_length
    }

    /// The edge length of the map, in millimetres.
    pub open spec fn size_mm(self) -> int {
        self.edge_length * TILE_SIZE_MM
    }

    /// Whether a tile coordinate lies on the map.
    pub open spec fn tile_in_bounds(self, tc: TileCoord) -> bool {
        tc.x < self.edge_length && tc.y < self.edge_length
    }

    /// The global grid index of a tile coordinate.
    pub open spec fn index_spec(self, tc: TileCoord) -> int {
        tc.y * self.edge_length + tc.x
    }

    /// The elevation at a tile coordinate.
    pub open spec fn elev_at(self, tc: TileCoord) -> Elevation {
        self.playground[self.index_spec(tc)]
    }

    /// Whether a location (in millimetres) lies on the map proper.
    pub open spec fn loc_in_bounds(self, loc: Location) -> bool {
        0 <= loc.x < self.size_mm() && 0 <= loc.y < self.size_mm()
    }

    /// The tile below an in-bounds location.
    pub open spec fn tile_of(self, loc: Location) -> TileCoord {
        TileCoord { x: (loc.x / TILE_SIZE_MM) as u16, y: (loc.y / TILE_SIZE_MM) as u16 }
    }

    /// Creates a new "flat" terrain with given edge length in tiles.
    pub fn new(edge_length: u16) -> (r: Self)
        requires
            edge_length >= 1,
        ensures
            r.wf(),
            r.edge_length == edge_length,
            forall|i: int| 0 <= i < r.playground.len() ==> r.playground[i] == Elevation(0),
    {
        proof {
            assert((edge_length as int) * (edge_length as int) <= 0xffff_ffff) by (nonlinear_arith)
                requires
                    edge_length <= 0xffff,
            ;
        }
        let size: usize = (edge_length as usize) * (edge_length as usize);
        let mut playground: Vec<Elevation> = Vec::new();
        let mut i: usize = 0;
        while i < size
            invariant
                i <= size,
                playground.len() == i,
                forall|j: int| 0 <= j < i ==> playground[j] == Elevation(0),
            decreases size - i,
        {
            playground.push(Elevation(0));
            i = i + 1;
        }
        Terrain { edge_length, playground }
    }

    /// An in-bounds tile coordinate has an in-bounds grid index.
    pub proof fn lemma_index_in_bounds(self, tc: TileCoord)
        requires
            self.wf(),
            self.tile_in_bounds(tc),
        ensures
            0 <= self.index_spec(tc) < self.playground.len(),
    {
        assert(
            (tc.y as int) * (self.edge_length as int) + (tc.x as int)
            < (self.edge_length as int) * (self.edge_length as int)
        ) by (nonlinear_arith)
            requires
                0 <= (tc.x as int) < (self.edge_length as int),
                0 <= (tc.y as int) < (self.edge_length as int),
        ;
    }

    /// The coordinate one step from `tc` in the given direction, wrapping
    /// at the map edge like a torus.
    pub fn tile_in_direction(&self, dir: TileDirection, tc: TileCoord) -> (r: TileCoord)
        requires
            self.wf(),
            self.tile_in_bounds(tc),
        ensures
            r == dir.of_spec(tc, self.edge_length),
            self.tile_in_bounds(r),
    {
        dir.of(tc, self.edge_length)
    }

    /// Returns the tile coord west of the given one.
    pub fn west_of(&self, tc: TileCoord) -> (r: TileCoord)
        requires
            self.wf(),
            self.tile_in_bounds(tc),
        ensures
            r == TileDirection::West.of_spec(tc, self.edge_length),
            self.tile_in_bounds(r),
    {
        self.tile_in_direction(TileDirection::West, tc)
    }

    /// Returns the tile coord east of the given one.
    pub fn east_of(&self, tc: TileCoord) -> (r: TileCoord)
        requires
            self.wf(),
            self.tile_in_bounds(tc),
        ensures
            r == TileDirection::East.of_spec(tc, self.edge_length),
            self.tile_in_bounds(r),
    {
        self.tile_in_direction(TileDirection::East, tc)
    }

    /// Returns the tile coord north of the given one.
    pub fn north_of(&self, tc: TileCoord) -> (r: TileCoord)
        requires
            self.wf(),
            self.tile_in_bounds(tc),
        ensures
            r == TileDirection::North.of_spec(tc, self.edge_length),
            self.tile_in_bounds(r),
    {
        self.tile_in_direction(TileDirection::North, tc)
    }

    /// Returns the tile coord south of the given one.
    pub fn south_of(&self, tc: TileCoord) -> (r: TileCoord)
        requires
            self.wf(),
            self.tile_in_bounds(tc),
        ensures
            r == TileDirection::South.of_spec(tc, self.edge_length),
            self.tile_in_bounds(r),
    {
        self.tile_in_direction(TileDirection::South, tc)
    }

    /// Checks whether the given location is within the map boundary.
    pub fn contains(&self, loc: Location) -> (r: bool)
        requires
            self.wf(),
        ensures
            r == self.loc_in_bounds(loc),
    {
        let size: i64 = self.map_size();
        0 <= loc.x && loc.x < size && 0 <= loc.y && loc.y < size
    }

    /// Gets the elevation at the given coordinate, or `None` for a
    /// coordinate off the map.
    pub fn try_get(&self, tc: TileCoord) -> (r: Option<Elevation>)
        requires
            self.wf(),
        ensures
            self.tile_in_bounds(tc) ==> r == Some(self.elev_at(tc)),
            !self.tile_in_bounds(tc) ==> r == None::<Elevation>,
    {
        if tc.x < self.edge_length && tc.y < self.edge_length {
            proof {
                self.lemma_index_in_bounds(tc);
            }
            let idx: usize = (tc.y as usize) * (self.edge_length as usize) + (tc.x as usize);
            Some(self.playground[idx])
        } else {
            None
        }
    }

    /// Gets the elevation at the given in-bounds coordinate.
    pub fn get(&self, tc: TileCoord) -> (r: Elevation)
        requires
            self.wf(),
            self.tile_in_bounds(tc),
        ensures
            r == self.elev_at(tc),
    {
        proof {
            self.lemma_index_in_bounds(tc);
        }
        let idx: usize = (tc.y as usize) * (self.edge_length as usize) + (tc.x as usize);
        self.playground[idx]
    }

    /// Replaces the elevation at the given in-bounds coordinate.
    pub fn set(&mut self, tc: TileCoord, e: Elevation)
        requires
            old(self).wf(),
            old(self).tile_in_bounds(tc),
        ensures
            final(self).edge_length == old(self).edge_length,
            final(self).playground@ == old(self).playground@.update(
                old(self).index_spec(tc),
                e,
            ),
            final(self).wf(),
    {
        proof {
            self.lemma_index_in_bounds(tc);
        }
        let idx: usize = (tc.y as usize) * (self.edge_length as usize) + (tc.x as usize);
        self.playground.set(idx, e);
    }

    /// Creates a terrain from a square array of rows: the tile at `(x, y)`
    /// holds `array[y][x]`.
    pub fn from_array<const N: usize>(array: [[Elevation; N]; N]) -> (r: Self)
        requires
            1 <= N <= 0xffff,
        ensures
            r.wf(),
            r.edge_length == N,
            forall|i: int, j: int|
                0 <= i < N && 0 <= j < N ==> r.playground[i * N + j] == array[i][j],
    {
        proof {
            assert((N as int) * (N as int) <= 0xffff_ffff) by (nonlinear_arith)
                requires
                    N <= 0xffff,
            ;
        }
        let mut playground: Vec<Elevation> = Vec::new();
        let mut i: usize = 0;
        while i < N
            invariant
                1 <= N <= 0xffff,
                i <= N,
                playground.len() == i * N,
                forall|a: int, b: int|
                    0 <= a < i && 0 <= b < N ==> playground[a * (N as int) + b] == array[a][b],
            decreases N - i,
        {
            let mut j: usize = 0;
            while j < N
                invariant
                    1 <= N <= 0xffff,
                    i < N,
                    j <= N,
                    playground.len() == i * N + j,
                    forall|a: int, b: int|
                        0 <= a < i && 0 <= b < N ==> playground[a * (N as int) + b] == array[a][b],
                    forall|b: int| 0 <= b < j ==> playground[i * (N as int) + b] == array[i as int][b],
                decreases N - j,
            {
                proof {
                    assert((i as int) * (N as int) + (N as int) <= (N as int) * (N as int))
                        by (nonlinear_arith)
                        requires
                            0 <= (i as int) < (N as int),
                    ;
                    assert(forall|a: int, b: int|
                        0 <= a < i && 0 <= b < N ==> #[trigger] (a * (N as int) + b)
                            < (i as int) * (N as int)) by (nonlinear_arith);
                }
                playground.push(array[i][j]);
                j = j + 1;
            }
            i = i + 1;
            proof {
                assert((i as int) * (N as int) == (i - 1) * (N as int) + (N as int))
                    by (nonlinear_arith);
            }
        }
        Terrain { edge_length: N as u16, playground }
    }

    /// Returns all valid tile coordinates, in row-major order.
    pub fn coords(&self) -> (r: Vec<TileCoord>)
        requires
            self.wf(),
        ensures
            r.len() == self.playground.len(),
            forall|i: int|
                0 <= i < r.len() ==> r[i] == TileCoord::at_index(self.edge_length, i),
    {
        TileCoord::coords(self.edge_length)
    }

    /// Returns all tiles with their coordinates, in row-major order.
    pub fn iter(&self) -> (r: Vec<(TileCoord, Elevation)>)
        requires
            self.wf(),
        ensures
            r.len() == self.playground.len(),
            forall|i: int|
                0 <= i < r.len() ==> r[i] == (
                    TileCoord::at_index(self.edge_length, i),
                    self.playground[i],
                ),
    {
        let cs = self.coords();
        let mut r: Vec<(TileCoord, Elevation)> = Vec::new();
        let mut i: usize = 0;
        while i < cs.len()
            invariant
                self.wf(),
                cs.len() == self.playground.len(),
                forall|k: int|
                    0 <= k < cs.len() ==> cs[k] == TileCoord::at_index(self.edge_length, k),
                i <= cs.len(),
                r.len() == i,
                forall|k: int|
                    0 <= k < i ==> r[k] == (
                        TileCoord::at_index(self.edge_length, k),
                        self.playground[k],
                    ),
            decreases cs.len() - i,
        {
            r.push((cs[i], self.playground[i]));
            i = i + 1;
        }
        r
    }

    /// The edge length of the map, in millimetres.
    pub fn map_size(&self) -> (r: i64)
        ensures
            r == self.size_mm(),
    {
        (self.edge_length as i64) * TILE_SIZE_MM
    }

    /// The given location normalized onto the torus: the positive modulo
    /// of each component by the map size.
    pub open spec fn map_loc_spec(self, loc: Location) -> Location {
        Location {
            x: ((loc.x as int) % self.size_mm()) as i64,
            y: ((loc.y as int) % self.size_mm()) as i64,
        }
    }

    /// The shortest signed displacement from `from` to `to` on the torus,
    /// per axis independently; ties prefer the non-wrapped displacement.
    pub open spec fn torus_dist_spec(self, from: Location, to: Location) -> Distance {
        let f = self.map_loc_spec(from);
        let t = self.map_loc_spec(to);
        Distance {
            x: wrap_axis(self.size_mm(), t.x - f.x) as i64,
            y: wrap_axis(self.size_mm(), t.y - f.y) as i64,
        }
    }

    /// Returns the corresponding normalized location on the terrain of
    /// the given location.
    ///
    /// This calculates the positive modulo of the given location and the
    /// size of the terrain: both components of the result lie in
    /// `0..map_size()`, so a component equal to the map size can never
    /// come back.
    pub fn map_loc_on_torus(&self, loc: Location) -> (r: Location)
        requires
            self.wf(),
        ensures
            r == self.map_loc_spec(loc),
            self.loc_in_bounds(r),
            r.in_range(),
    {
        Location {
            x: emod_i64(loc.x, self.map_size()),
            y: emod_i64(loc.y, self.map_size()),
        }
    }

    /// Returns the shortest distance from one location to another on the
    /// torus.
    pub fn torus_distance(&self, from: Location, to: Location) -> (r: Distance)
        requires
            self.wf(),
            from.in_range(),
            to.in_range(),
        ensures
            r == self.torus_dist_spec(from, to),
            -self.size_mm() / 2 <= r.x <= self.size_mm() / 2,
            -self.size_mm() / 2 <= r.y <= self.size_mm() / 2,
            r.in_range(),
    {
        let f = self.map_loc_on_torus(from);
        let t = self.map_loc_on_torus(to);
        let size: i64 = self.map_size();
        let half: i64 = size / 2;
        let dx: i64 = t.x - f.x;
        let dy: i64 = t.y - f.y;
        Distance {
            x: if dx > half {
                dx - size
            } else if dx < -half {
                dx + size
            } else {
                dx
            },
            y: if dy > half {
                dy - size
            } else if dy < -half {
                dy + size
            } else {
                dy
            },
        }
    }

    /// Returns whether `x` lies between `min` and `max` on the torus.
    ///
    /// This is a conventional box check if `min <= max` (per component);
    /// it becomes a wrapping check if `max < min`, meaning that `x` needs
    /// to be outside the conventional box.
    pub fn torus_bounds_check(&self, min: Location, max: Location, x: Location) -> (r: bool)
        requires
            self.wf(),
            min.in_range(),
            max.in_range(),
            x.in_range(),
        ensures
            r == {
                let mx = self.map_loc_spec(Location { x: (x.x - min.x) as i64, y: (x.y - min.y) as i64 });
                let mm = self.map_loc_spec(
                    Location { x: (max.x - min.x) as i64, y: (max.y - min.y) as i64 },
                );
                mx.x < mm.x && mx.y < mm.y
            },
    {
        let mini_x = x.minus(min);
        let mini_max = max.minus(min);
        let mapped_mini_x = self.map_loc_on_torus(Location { x: mini_x.x, y: mini_x.y });
        let mapped_mini_max = self.map_loc_on_torus(Location { x: mini_max.x, y: mini_max.y });
        mapped_mini_x.x < mapped_mini_max.x && mapped_mini_x.y < mapped_mini_max.y
    }

    /// Remaps `x` into the torus square starting at `min`.
    pub fn torus_remap(&self, min: Location, x: Location) -> (r: Location)
        requires
            self.wf(),
            min.in_range(),
            x.in_range(),
        ensures
            r.x == min.x + (x.x - min.x) % self.size_mm(),
            r.y == min.y + (x.y - min.y) % self.size_mm(),
    {
        let mini_x = x.minus(min);
        let mapped = self.map_loc_on_torus(Location { x: mini_x.x, y: mini_x.y });
        Location { x: min.x + mapped.x, y: min.y + mapped.y }
    }

    /// The tile drawn from a generator state `s` on this terrain.
    pub open spec fn random_tile_model(self, s: u64) -> (TileCoord, u64) {
        (
            TileCoord {
                x: (rng_mix(s) % (self.edge_length as u64)) as u16,
                y: (rng_mix(rng_step(s)) % (self.edge_length as u64)) as u16,
            },
            rng_step(rng_step(s)),
        )
    }

    /// Returns the coordinates of a random tile.
    pub fn random_tile(&self, rng: &mut GameRng) -> (r: TileCoord)
        requires
            self.wf(),
        ensures
            (r, final(rng).state) == self.random_tile_model(old(rng).state),
            self.tile_in_bounds(r),
    {
        let x = rng.range_u64(self.edge_length as u64);
        let y = rng.range_u64(self.edge_length as u64);
        TileCoord { x: x as u16, y: y as u16 }
    }

    /// The location drawn from a generator state `s` on this terrain.
    pub open spec fn random_loc_model(self, s: u64) -> (Location, u64) {
        (
            Location {
                x: (rng_mix(s) % (self.size_mm() as u64)) as i64,
                y: (rng_mix(rng_step(s)) % (self.size_mm() as u64)) as i64,
            },
            rng_step(rng_step(s)),
        )
    }

    /// Returns a random location within the map.
    pub fn random_location(&self, rng: &mut GameRng) -> (r: Location)
        requires
            self.wf(),
        ensures
            (r, final(rng).state) == self.random_loc_model(old(rng).state),
            self.loc_in_bounds(r),
            r.in_range(),
    {
        let size: u64 = self.map_size() as u64;
        let x = rng.range_u64(size);
        let y = rng.range_u64(size);
        Location { x: x as i64, y: y as i64 }
    }

    /// The passable location found by rejection sampling from state `s`
    /// with `fuel` draws left, together with the state after the search.
    pub open spec fn random_passable_model(self, s: u64, fuel: nat) -> (Option<Location>, u64)
        decreases fuel,
    {
        if fuel == 0 {
            (None, s)
        } else {
            let (loc, s1) = self.random_loc_model(s);
            if self.elev_at(self.tile_of(loc)).is_passable_spec() {
                (Some(loc), s1)
            } else {
                self.random_passable_model(s1, (fuel - 1) as nat)
            }
        }
    }

    /// An in-bounds location sits above an in-bounds tile.
    pub proof fn lemma_tile_of_in_bounds(self, loc: Location)
        requires
            self.wf(),
            self.loc_in_bounds(loc),
        ensures
            self.tile_in_bounds(self.tile_of(loc)),
    {
        assert(0 <= loc.x / TILE_SIZE_MM < self.edge_length && 0 <= loc.y / TILE_SIZE_MM
            < self.edge_length) by (nonlinear_arith)
            requires
                0 <= loc.x < self.edge_length * TILE_SIZE_MM,
                0 <= loc.y < self.edge_length * TILE_SIZE_MM,
                TILE_SIZE_MM == 4000,
        ;
    }

    /// Returns a random location within the map that is on a passable
    /// tile, by rejection sampling: uniform draws are discarded until one
    /// falls on a passable tile. A defensive cap bounds the search; on a
    /// map with no reachable water the cap runs out and `None` is
    /// returned.
    pub fn random_passable_location(&self, rng: &mut GameRng) -> (r: Option<Location>)
        requires
            self.wf(),
        ensures
            (r, final(rng).state) == self.random_passable_model(
                old(rng).state,
                SAMPLE_ATTEMPTS as nat,
            ),
            r is Some ==> self.loc_in_bounds(r->Some_0) && r->Some_0.in_range()
                && self.elev_at(self.tile_of(r->Some_0)).is_passable_spec(),
    {
        let ghost s0 = rng.state;
        let mut attempts_left: u64 = SAMPLE_ATTEMPTS;
        while attempts_left > 0
            invariant
                self.wf(),
                s0 == old(rng).state,
                attempts_left <= SAMPLE_ATTEMPTS,
                self.random_passable_model(s0, SAMPLE_ATTEMPTS as nat)
                    == self.random_passable_model(rng.state, attempts_left as nat),
            decreases attempts_left,
        {
            let ghost s_pre = rng.state;
            let candidate = self.random_location(rng);
            proof {
                self.lemma_tile_of_in_bounds(candidate);
            }
            let tc = TileCoord {
                x: (candidate.x / TILE_SIZE_MM) as u16,
                y: (candidate.y / TILE_SIZE_MM) as u16,
            };
            if self.get(tc).is_passable() {
                proof {
                    assert(self.random_passable_model(s_pre, attempts_left as nat) == (
                        Some(candidate),
                        rng.state,
                    ));
                }
                return Some(candidate);
            }
            attempts_left = attempts_left - 1;
        }
        proof {
            assert(self.random_passable_model(rng.state, 0) == (None::<Location>, rng.state));
        }
        None
    }
}

/// The torus wrap of a per-axis displacement `d` between two normalized
/// coordinates: whichever of the direct or wrap-around displacement has
/// the smaller magnitude; on a tie the direct one.
pub open spec fn wrap_axis(size: int, d: int) -> int {
    if d > size / 2 {
        d - size
    } else if d < -(size / 2) {
        d + size
    } else {
        d
    }
}

/// A well-formed terrain has a map size between one tile and the
/// largest representable grid.
pub proof fn lemma_size_positive(t: Terrain)
    requires
        t.wf(),
    ensures
        4000 <= t.size_mm() <= 262_140_000,
{
    assert(4000 <= t.size_mm() <= 262_140_000) by (nonlinear_arith)
        requires
            1 <= t.edge_length <= 0xffff,
            t.size_mm() == (t.edge_length as int) * (TILE_SIZE_MM as int),
            TILE_SIZE_MM == 4000,
    ;
}

/// Law: the torus neighbor queries are inverses of each other, for every
/// tile of the map, including at edge columns and rows: one step east
/// after one step west is the identity, and likewise north and south.
pub proof fn lemma_torus_neighbor_inverses(t: Terrain, tc: TileCoord)
    requires
        t.wf(),
        t.tile_in_bounds(tc),
    ensures
        TileDirection::East.of_spec(TileDirection::West.of_spec(tc, t.edge_length), t.edge_length)
            == tc,
        TileDirection::West.of_spec(TileDirection::East.of_spec(tc, t.edge_length), t.edge_length)
            == tc,
        TileDirection::South.of_spec(
            TileDirection::North.of_spec(tc, t.edge_length),
            t.edge_length,
        ) == tc,
        TileDirection::North.of_spec(
            TileDirection::South.of_spec(tc, t.edge_length),
            t.edge_length,
        ) == tc,
{
    let e = t.edge_length;
    lemma_wrap_arith(tc.x, e);
    lemma_wrap_arith(tc.y, e);
    let w = TileDirection::West.of_spec(tc, e);
    let east = TileDirection::East.of_spec(tc, e);
    let n = TileDirection::North.of_spec(tc, e);
    let s = TileDirection::South.of_spec(tc, e);
    lemma_wrap_arith(w.x, e);
    lemma_wrap_arith(east.x, e);
    lemma_wrap_arith(n.y, e);
    lemma_wrap_arith(s.y, e);
}

/// Law: both components of a normalized location lie in `0..map_size()`
/// (never equal to the map size), and normalizing is idempotent.
pub proof fn lemma_map_loc_on_torus_idempotent(t: Terrain, loc: Location)
    requires
        t.wf(),
    ensures
        0 <= t.map_loc_spec(loc).x < t.size_mm(),
        0 <= t.map_loc_spec(loc).y < t.size_mm(),
        t.map_loc_spec(t.map_loc_spec(loc)) == t.map_loc_spec(loc),
{
    lemma_size_positive(t);
    let m = t.size_mm();
    vstd::arithmetic::div_mod::lemma_mod_bound(loc.x as int, m);
    vstd::arithmetic::div_mod::lemma_mod_bound(loc.y as int, m);
    lemma_small_mod(((loc.x as int) % m) as nat, m as nat);
    lemma_small_mod(((loc.y as int) % m) as nat, m as nat);
}

/// Law: the torus distance is the shortest displacement: each component
/// is at most half the map size in magnitude, so its squared length is at
/// most twice the square of half the map size (the square of
/// `map_size() * sqrt(2) / 2`).
pub proof fn lemma_torus_distance_bound(t: Terrain, a: Location, b: Location)
    requires
        t.wf(),
    ensures
        -(t.size_mm() / 2) <= t.torus_dist_spec(a, b).x <= t.size_mm() / 2,
        -(t.size_mm() / 2) <= t.torus_dist_spec(a, b).y <= t.size_mm() / 2,
        t.torus_dist_spec(a, b).magnitude_sq_spec() <= 2 * (t.size_mm() / 2) * (t.size_mm() / 2),
{
    lemma_size_positive(t);
    let m = t.size_mm();
    let h = m / 2;
    vstd::arithmetic::div_mod::lemma_mod_bound(a.x as int, m);
    vstd::arithmetic::div_mod::lemma_mod_bound(a.y as int, m);
    vstd::arithmetic::div_mod::lemma_mod_bound(b.x as int, m);
    vstd::arithmetic::div_mod::lemma_mod_bound(b.y as int, m);
    let d = t.torus_dist_spec(a, b);
    assert(d.x * d.x + d.y * d.y <= 2 * h * h) by (nonlinear_arith)
        requires
            -h <= d.x <= h,
            -h <= d.y <= h,
    ;
}

/// Law: the torus distance is antisymmetric: swapping the endpoints
/// negates both components.
pub proof fn lemma_torus_distance_antisymmetric(t: Terrain, a: Location, b: Location)
    requires
        t.wf(),
    ensures
        t.torus_dist_spec(a, b).x == -t.torus_dist_spec(b, a).x,
        t.torus_dist_spec(a, b).y == -t.torus_dist_spec(b, a).y,
{
    lemma_size_positive(t);
    let m = t.size_mm();
    vstd::arithmetic::div_mod::lemma_mod_bound(a.x as int, m);
    vstd::arithmetic::div_mod::lemma_mod_bound(a.y as int, m);
    vstd::arithmetic::div_mod::lemma_mod_bound(b.x as int, m);
    vstd::arithmetic::div_mod::lemma_mod_bound(b.y as int, m);
}

/// Positive modulo of `x` by `m`.
pub fn emod_i64(x: i64, m: i64) -> (r: i64)
    requires
        1 <= m,
    ensures
        r == (x as int) % (m as int),
        0 <= r < m,
{
    if x >= 0 {
        x % m
    } else {
        // For negative x, derive the positive modulo from the
        // non-negative value y = -x - 1: x equals (-q - 1)·m + (m - 1 - (y % m)).
        let y: i64 = -(x + 1);
        let t: i64 = y % m;
        proof {
            let yi = y as int;
            let mi = m as int;
            vstd::arithmetic::div_mod::lemma_fundamental_div_mod(yi, mi);
            vstd::arithmetic::div_mod::lemma_mod_division_less_than_divisor(yi, mi);
            let q = yi / mi;
            assert(x as int == (-q - 1) * mi + (mi - 1 - (yi % mi))) by (nonlinear_arith)
                requires
                    x as int == -yi - 1,
                    yi == mi * q + (yi % mi),
            ;
            vstd::arithmetic::div_mod::lemma_fundamental_div_mod_converse_mod(
                x as int,
                mi,
                -q - 1,
                mi - 1 - (yi % mi),
            );
        }
        m - 1 - t
    }
}

} // verus!
