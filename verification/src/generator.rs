//! The world generator: seeded procedural construction of terrain,
//! harbors, and resource packs.
//!
//! Generation is a pure function of the seed: every draw goes through
//! the library's own deterministic generator, and every function here
//! pins its result to a functional model of that stream, so the same
//! seed and setting give bit-identical worlds. Placement uses rejection
//! sampling with a defensive cap on the number of draws: a map without
//! the water a harbor needs is reported as a failure rather than
//! searched forever.

use vstd::prelude::*;

use crate::rng::GameRng;
use crate::rng::rng_mix;
use crate::rng::rng_step;
use crate::state::Harbor;
use crate::terrain::Terrain;
use crate::units::Elevation;
use crate::units::Location;
use crate::units::TileType;
use crate::units::ELEVATION_DEEPEST;
use crate::units::ELEVATION_HIGHEST;

verus! {

/// The basic map output settings.
#[derive(Debug, Clone, PartialEq, Eq, Structural)]
pub struct Setting {
    /// Amount of tiles along each axis.
    pub edge_length: u16,

    /// Resource density, in spawn points per thousand tiles at a
    /// content type density of one.
    pub resource_density: u32,
}

/// The elevation sequence of a white-noise terrain: each tile drawn
/// uniformly over the full elevation range, in row-major order.
pub open spec fn wn_elevations_model(s: u64, n: nat) -> (Seq<Elevation>, u64)
    decreases n,
{
    if n == 0 {
        (Seq::<Elevation>::empty(), s)
    } else {
        let e = ELEVATION_DEEPEST + rng_mix(s) % 20;
        let r = wn_elevations_model(rng_step(s), (n - 1) as nat);
        (seq![Elevation(e as i16)] + r.0, r.1)
    }
}

/// The harbors found by rejection sampling from state `s` with `fuel`
/// draws left and `remaining` harbors still wanted: a drawn location is
/// accepted only if its tile classifies as shallow water; running out
/// of fuel fails the generation.
pub open spec fn harbors_model(t: Terrain, s: u64, fuel: nat, remaining: nat) -> (
    Option<Seq<Harbor>>,
    u64,
)
    decreases fuel,
{
    if remaining == 0 {
        (Some(Seq::<Harbor>::empty()), s)
    } else if fuel == 0 {
        (None, s)
    } else {
        let drawn = t.random_loc_model(s);
        let loc = drawn.0;
        let s1 = drawn.1;
        if t.elev_at(t.tile_of(loc)).classify_spec() == TileType::ShallowWater {
            let ori = rng_mix(s1) % 1000;
            let s2 = rng_step(s1);
            let r = harbors_model(t, s2, (fuel - 1) as nat, (remaining - 1) as nat);
            match r.0 {
                Some(rest) => (
                    Some(seq![Harbor { loc, orientation: ori as u32 }] + rest),
                    r.1,
                ),
                None => (None, r.1),
            }
        } else {
            harbors_model(t, s1, (fuel - 1) as nat, remaining)
        }
    }
}

/// Builds a white-noise terrain: every tile's elevation drawn uniformly
/// over the full range, with no structure at all.
pub fn wn_build_terrain(edge_length: u16, rng: &mut GameRng) -> (r: Terrain)
    requires
        edge_length >= 1,
    ensures
        r.wf(),
        r.edge_length == edge_length,
        (r.playground@, final(rng).state) == wn_elevations_model(
            old(rng).state,
            (edge_length * edge_length) as nat,
        ),
{
    proof {
        assert((edge_length as int) * (edge_length as int) <= 0xffff_ffff) by (nonlinear_arith)
            requires
                edge_length <= 0xffff,
        ;
    }
    let ghost s0 = rng.state;
    let size: usize = (edge_length as usize) * (edge_length as usize);
    let mut playground: Vec<Elevation> = Vec::new();
    let mut i: usize = 0;
    while i < size
        invariant
            i <= size,
            playground.len() == i,
            wn_elevations_model(s0, size as nat) == {
                let r = wn_elevations_model(rng.state, (size - i) as nat);
                (playground@ + r.0, r.1)
            },
        decreases size - i,
    {
        let ghost before = playground@;
        let e = rng.range_i64(ELEVATION_DEEPEST as i64, ELEVATION_HIGHEST as i64);
        playground.push(Elevation(e as i16));
        proof {
            assert(playground@ =~= before + seq![playground@[playground@.len() - 1]]);
            assert(before + (seq![playground@[playground@.len() - 1]] + wn_elevations_model(
                rng.state,
                (size - i - 1) as nat,
            ).0) =~= playground@ + wn_elevations_model(rng.state, (size - i - 1) as nat).0);
        }
        i = i + 1;
    }
    proof {
        assert(playground@ + wn_elevations_model(rng.state, 0).0 =~= playground@);
    }
    Terrain { edge_length, playground }
}

/// Places `count` harbors by rejection sampling: a random location is
/// kept only when its tile classifies as shallow water, so every harbor
/// of a generated world sits on a shallow-water tile. Gives up (and
/// returns `None`) when the sampling cap runs out, as on a map without
/// shallow water.
pub fn spawn_harbors(t: &Terrain, count: u32, rng: &mut GameRng) -> (r: Option<Vec<Harbor>>)
    requires
        t.wf(),
    ensures
        (
            match r {
                Some(v) => Some(v@),
                None => None::<Seq<Harbor>>,
            },
            final(rng).state,
        ) == harbors_model(*t, old(rng).state, (1000 + 4 * (count as nat)) as nat, count as nat),
        r is Some ==> {
            let v = r->Some_0;
            &&& v.len() == count
            &&& forall|i: int|
                0 <= i < v@.len() ==> t.elev_at(t.tile_of(#[trigger] v@[i].loc)).classify_spec()
                    == TileType::ShallowWater
            &&& forall|i: int|
                0 <= i < v@.len() ==> (0 <= #[trigger] v@[i].loc.x < t.size_mm() && 0
                    <= v@[i].loc.y < t.size_mm())
        },
{
    let ghost s0 = rng.state;
    let ghost fuel0: nat = (1000 + 4 * (count as nat)) as nat;
    let mut harbors: Vec<Harbor> = Vec::new();
    let mut remaining: u32 = count;
    let mut fuel: u64 = 1000 + 4 * (count as u64);
    while remaining > 0 && fuel > 0
        invariant
            t.wf(),
            fuel <= 1000 + 4 * (count as u64),
            remaining <= count,
            harbors.len() == count - remaining,
            harbors_model(*t, s0, fuel0, count as nat) == {
                let r = harbors_model(*t, rng.state, fuel as nat, remaining as nat);
                (
                    match r.0 {
                        Some(rest) => Some(harbors@ + rest),
                        None => None::<Seq<Harbor>>,
                    },
                    r.1,
                )
            },
            forall|i: int|
                0 <= i < harbors@.len() ==> t.elev_at(
                    t.tile_of(#[trigger] harbors@[i].loc),
                ).classify_spec() == TileType::ShallowWater,
            forall|i: int|
                0 <= i < harbors@.len() ==> (0 <= #[trigger] harbors@[i].loc.x < t.size_mm() && 0
                    <= harbors@[i].loc.y < t.size_mm()),
        decreases fuel,
    {
        let ghost before = harbors@;
        let loc = t.random_location(rng);
        proof {
            t.lemma_tile_of_in_bounds(loc);
        }
        let tc = crate::terrain::TileCoord {
            x: (loc.x / crate::TILE_SIZE_MM) as u16,
            y: (loc.y / crate::TILE_SIZE_MM) as u16,
        };
        let is_shallow = match t.get(tc).classify() {
            TileType::ShallowWater => true,
            _ => false,
        };
        if is_shallow {
            let ori = rng.range_u64(1000);
            harbors.push(Harbor { loc, orientation: ori as u32 });
            remaining = remaining - 1;
            proof {
                assert(harbors@ =~= before + seq![Harbor { loc, orientation: ori as u32 }]);
                let rest = harbors_model(*t, rng.state, (fuel - 1) as nat, remaining as nat);
                match rest.0 {
                    Some(tail) => {
                        assert(before + (seq![Harbor { loc, orientation: ori as u32 }] + tail)
                            =~= harbors@ + tail);
                    },
                    None => {},
                }
            }
        }
        fuel = fuel - 1;
    }
    if remaining == 0 {
        proof {
            let r = harbors_model(*t, rng.state, fuel as nat, 0);
            assert(harbors@ + Seq::<Harbor>::empty() =~= harbors@);
        }
        Some(harbors)
    } else {
        None
    }
}

/// The extra school members jittered around a base pack: each gets a
/// small positional offset and a fresh phase; an offset that would land
/// the member over higher terrain than its spawn depth falls back to
/// the base anchor.
pub open spec fn members_model(t: Terrain, base: crate::resource::ResourcePack, s: u64, j: nat) -> (
    Seq<crate::resource::ResourcePack>,
    u64,
)
    decreases j,
{
    if j == 0 {
        (Seq::<crate::resource::ResourcePack>::empty(), s)
    } else {
        let dx = -2000 + rng_mix(s) % 4000;
        let s1 = rng_step(s);
        let dy = -2000 + rng_mix(s1) % 4000;
        let s2 = rng_step(s1);
        let ph = rng_mix(s2) % 1000;
        let s3 = rng_step(s2);
        let cand = t.map_loc_spec(
            Location { x: (base.origin.x + dx) as i64, y: (base.origin.y + dy) as i64 },
        );
        let anchor = if t.elev_at(t.tile_of(cand)).0 <= base.elevation.0 {
            cand
        } else {
            base.origin
        };
        let member = crate::resource::ResourcePack { origin: anchor, phase: ph as u32, ..base };
        let r = members_model(t, base, s3, (j - 1) as nat);
        (seq![member] + r.0, r.1)
    }
}

/// The schools of one content type spawned by rejection sampling from
/// state `s`: a drawn location is accepted when its terrain elevation
/// lies in the type's spawn-location band and the pack's drawn depth
/// stays at or above the seabed; each accepted point yields a school of
/// a drawn size sharing one animation curve with jittered phases.
/// Running out of fuel ends the search with the schools found so far.
pub open spec fn schools_model(
    t: Terrain,
    c: crate::resource::ResourcePackContent,
    s: u64,
    fuel: nat,
    remaining: nat,
) -> (Seq<crate::resource::ResourcePack>, u64)
    decreases fuel,
{
    if remaining == 0 || fuel == 0 {
        (Seq::<crate::resource::ResourcePack>::empty(), s)
    } else {
        let st = c.stats_spec();
        let drawn = t.random_loc_model(s);
        let loc = drawn.0;
        let s1 = drawn.1;
        let te = t.elev_at(t.tile_of(loc));
        if st.loc_min <= te.0 < st.loc_max {
            let made = crate::resource::ResourcePack::new_model(loc, c, s1);
            let base = made.0;
            let s2 = made.1;
            if te.0 <= base.elevation.0 {
                let k = st.school_min + rng_mix(s2) % ((st.school_max - st.school_min) as u64);
                let s3 = rng_step(s2);
                let m = members_model(t, base, s3, (k - 1) as nat);
                let r = schools_model(t, c, m.1, (fuel - 1) as nat, (remaining - 1) as nat);
                ((seq![base] + m.0) + r.0, r.1)
            } else {
                schools_model(t, c, s2, (fuel - 1) as nat, remaining)
            }
        } else {
            schools_model(t, c, s1, (fuel - 1) as nat, remaining)
        }
    }
}

/// A spawned pack never sits below the seabed and never leaves the
/// map: its depth is at least the terrain elevation at its anchor, its
/// anchor is on the map, and its animated position starts in range.
pub open spec fn pack_placed(t: Terrain, p: crate::resource::ResourcePack) -> bool {
    &&& t.elev_at(t.tile_of(p.origin)).0 <= p.elevation.0
    &&& 0 <= p.origin.x < t.size_mm()
    &&& 0 <= p.origin.y < t.size_mm()
    &&& p.loc.in_range()
}

/// Spawns the extra members of one school around `base`.
fn spawn_members(t: &Terrain, base: crate::resource::ResourcePack, extra: u64, rng: &mut GameRng)
    -> (r: Vec<crate::resource::ResourcePack>)
    requires
        t.wf(),
        pack_placed(*t, base),
    ensures
        (r@, final(rng).state) == members_model(*t, base, old(rng).state, extra as nat),
        forall|i: int| 0 <= i < r@.len() ==> pack_placed(*t, #[trigger] r@[i]),
        forall|i: int| 0 <= i < r@.len() ==> (#[trigger] r@[i]).content == base.content,
{
    proof {
        crate::terrain::lemma_size_positive(*t);
    }
    let ghost s0 = rng.state;
    let mut members: Vec<crate::resource::ResourcePack> = Vec::new();
    let mut j: u64 = 0;
    while j < extra
        invariant
            t.wf(),
            4000 <= t.size_mm() <= 262_140_000,
            pack_placed(*t, base),
            j <= extra,
            members.len() == j,
            members_model(*t, base, s0, extra as nat) == {
                let r = members_model(*t, base, rng.state, (extra - j) as nat);
                (members@ + r.0, r.1)
            },
            forall|i: int| 0 <= i < members@.len() ==> pack_placed(*t, #[trigger] members@[i]),
            forall|i: int|
                0 <= i < members@.len() ==> (#[trigger] members@[i]).content == base.content,
        decreases extra - j,
    {
        let ghost before = members@;
        let dx = rng.range_i64(-2000, 2000);
        let dy = rng.range_i64(-2000, 2000);
        let ph = rng.range_u64(1000);
        let cand = t.map_loc_on_torus(
            Location { x: base.origin.x + dx, y: base.origin.y + dy },
        );
        proof {
            t.lemma_tile_of_in_bounds(cand);
        }
        let tc = crate::terrain::TileCoord {
            x: (cand.x / crate::TILE_SIZE_MM) as u16,
            y: (cand.y / crate::TILE_SIZE_MM) as u16,
        };
        let anchor = if t.get(tc).0 <= base.elevation.0 {
            cand
        } else {
            base.origin
        };
        let member = crate::resource::ResourcePack { origin: anchor, phase: ph as u32, ..base };
        members.push(member);
        proof {
            assert(members@ =~= before + seq![member]);
            assert(before + (seq![member] + members_model(
                *t,
                base,
                rng.state,
                (extra - j - 1) as nat,
            ).0) =~= members@ + members_model(*t, base, rng.state, (extra - j - 1) as nat).0);
        }
        j = j + 1;
    }
    proof {
        assert(members@ + members_model(*t, base, rng.state, 0).0 =~= members@);
    }
    members
}

/// Spawns up to `target` schools of content type `c` by rejection
/// sampling: the terrain at an accepted spawn point lies in the type's
/// spawn-location band, and no pack of the school sits below the
/// seabed. A sampling cap bounds the search; a map without the band
/// simply yields fewer schools.
#[verifier::rlimit(100)]
pub fn spawn_schools(
    t: &Terrain,
    c: crate::resource::ResourcePackContent,
    target: u64,
    rng: &mut GameRng,
) -> (r: Vec<crate::resource::ResourcePack>)
    requires
        t.wf(),
        target <= 100_000,
    ensures
        (r@, final(rng).state) == schools_model(
            *t,
            c,
            old(rng).state,
            (1000 + 4 * (target as nat)) as nat,
            target as nat,
        ),
        forall|i: int| 0 <= i < r@.len() ==> pack_placed(*t, #[trigger] r@[i]),
        forall|i: int| 0 <= i < r@.len() ==> (#[trigger] r@[i]).content == c,
{
    proof {
        crate::terrain::lemma_size_positive(*t);
    }
    let ghost s0 = rng.state;
    let ghost fuel0: nat = (1000 + 4 * (target as nat)) as nat;
    let mut packs: Vec<crate::resource::ResourcePack> = Vec::new();
    let mut remaining: u64 = target;
    let mut fuel: u64 = 1000 + 4 * target;
    let st = c.stats();
    proof {
        crate::resource::lemma_stats_wf(c);
    }
    while remaining > 0 && fuel > 0
        invariant
            t.wf(),
            4000 <= t.size_mm() <= 262_140_000,
            st == c.stats_spec(),
            fuel <= 1000 + 4 * target,
            remaining <= target,
            schools_model(*t, c, s0, fuel0, target as nat) == {
                let r = schools_model(*t, c, rng.state, fuel as nat, remaining as nat);
                (packs@ + r.0, r.1)
            },
            forall|i: int| 0 <= i < packs@.len() ==> pack_placed(*t, #[trigger] packs@[i]),
            forall|i: int| 0 <= i < packs@.len() ==> (#[trigger] packs@[i]).content == c,
        decreases fuel,
    {
        let ghost before = packs@;
        let ghost s_pre = rng.state;
        let ghost fuel_pre = fuel as nat;
        let ghost remaining_pre = remaining as nat;
        proof {
            crate::resource::lemma_stats_wf(c);
        }
        let loc = t.random_location(rng);
        proof {
            t.lemma_tile_of_in_bounds(loc);
        }
        let tc = crate::terrain::TileCoord {
            x: (loc.x / crate::TILE_SIZE_MM) as u16,
            y: (loc.y / crate::TILE_SIZE_MM) as u16,
        };
        let te = t.get(tc);
        if st.loc_min <= te.0 && te.0 < st.loc_max {
            let base = crate::resource::ResourcePack::new(loc, c, rng);
            if te.0 <= base.elevation.0 {
                let k = rng.range_i64(st.school_min as i64, st.school_max as i64);
                let members = spawn_members(t, base, (k - 1) as u64, rng);
                packs.push(base);
                let ghost with_base = packs@;
                let mut members_vec = members;
                let ghost mseq = members_vec@;
                packs.append(&mut members_vec);
                remaining = remaining - 1;
                proof {
                    let tail = schools_model(
                        *t,
                        c,
                        rng.state,
                        (fuel - 1) as nat,
                        remaining as nat,
                    );
                    assert(with_base =~= before + seq![base]);
                    assert(packs@ =~= before + (seq![base] + mseq));
                    assert(before + ((seq![base] + mseq) + tail.0) =~= packs@ + tail.0);
                    assert(schools_model(*t, c, s_pre, fuel_pre, remaining_pre) == (
                        (seq![base] + mseq) + tail.0,
                        tail.1,
                    ));
                }
            }
        }
        fuel = fuel - 1;
    }
    proof {
        assert(packs@ + schools_model(*t, c, rng.state, fuel as nat, remaining as nat).0
            =~= packs@);
    }
    packs
}

/// How many spawn points a content type gets on this map: the map area
/// in tiles times the setting's density times the type's density, both
/// in parts per thousand, capped defensively.
pub open spec fn resource_target_spec(
    t: Terrain,
    density: u32,
    c: crate::resource::ResourcePackContent,
) -> nat {
    let raw = t.edge_length * t.edge_length * density * c.stats_spec().density_permille
        / 1_000_000;
    if raw > 100_000 {
        100_000 as nat
    } else {
        raw as nat
    }
}

/// The resource packs of all content types from index `ci` on, each
/// type spawned with its own target count from the running stream.
pub open spec fn resources_model(t: Terrain, density: u32, s: u64, ci: nat) -> (
    Seq<crate::resource::ResourcePack>,
    u64,
)
    decreases 17 - ci,
{
    if ci >= 17 {
        (Seq::<crate::resource::ResourcePack>::empty(), s)
    } else {
        let c = crate::resource::ResourcePackContent::at_index_spec(ci as int);
        let target = resource_target_spec(t, density, c);
        let r1 = schools_model(t, c, s, (1000 + 4 * target) as nat, target);
        let r2 = resources_model(t, density, r1.1, (ci + 1) as nat);
        (r1.0 + r2.0, r2.1)
    }
}

/// Computes one content type's spawn-point target.
fn resource_target(t: &Terrain, density: u32, c: crate::resource::ResourcePackContent) -> (r: u64)
    requires
        t.wf(),
        density <= 100_000,
    ensures
        r == resource_target_spec(*t, density, c),
        r <= 100_000,
{
    proof {
        crate::resource::lemma_stats_wf(c);
        assert((t.edge_length as int) * (t.edge_length as int) <= 0xffff_ffff)
            by (nonlinear_arith)
            requires
                t.edge_length <= 0xffff,
        ;
        assert((t.edge_length as int) * (t.edge_length as int) * (density as int) <= 0xffff_ffff
            * 100_000) by (nonlinear_arith)
            requires
                0 <= (t.edge_length as int) * (t.edge_length as int) <= 0xffff_ffff,
                0 <= (density as int) <= 100_000,
        ;
        assert((t.edge_length as int) * (t.edge_length as int) * (density as int) * (
        c.stats_spec().density_permille as int) <= 0xffff_ffff * 100_000 * 1000)
            by (nonlinear_arith)
            requires
                0 <= (t.edge_length as int) * (t.edge_length as int) * (density as int)
                    <= 0xffff_ffff * 100_000,
                0 <= (c.stats_spec().density_permille as int) <= 1000,
        ;
    }
    let st = c.stats();
    let area: u64 = (t.edge_length as u64) * (t.edge_length as u64);
    let raw: u64 = area * (density as u64) * (st.density_permille as u64) / 1_000_000;
    if raw > 100_000 {
        100_000
    } else {
        raw
    }
}

/// Spawns the resource packs of every content type in declaration
/// order.
pub fn spawn_resources(t: &Terrain, density: u32, rng: &mut GameRng) -> (r: Vec<
    crate::resource::ResourcePack,
>)
    requires
        t.wf(),
        density <= 100_000,
    ensures
        (r@, final(rng).state) == resources_model(*t, density, old(rng).state, 0),
        forall|i: int| 0 <= i < r@.len() ==> pack_placed(*t, #[trigger] r@[i]),
{
    let ghost s0 = rng.state;
    let mut out: Vec<crate::resource::ResourcePack> = Vec::new();
    let mut ci: u8 = 0;
    while ci < 17
        invariant
            t.wf(),
            density <= 100_000,
            ci <= 17,
            resources_model(*t, density, s0, 0) == {
                let r = resources_model(*t, density, rng.state, ci as nat);
                (out@ + r.0, r.1)
            },
            forall|i: int| 0 <= i < out@.len() ==> pack_placed(*t, #[trigger] out@[i]),
        decreases 17 - ci,
    {
        let ghost before = out@;
        let c = crate::resource::ResourcePackContent::at_index(ci);
        let target = resource_target(t, density, c);
        let mut packs = spawn_schools(t, c, target, rng);
        let ghost pseq = packs@;
        out.append(&mut packs);
        proof {
            let tail = resources_model(*t, density, rng.state, (ci + 1) as nat);
            assert(out@ =~= before + pseq);
            assert(before + (pseq + tail.0) =~= out@ + tail.0);
        }
        ci = ci + 1;
    }
    proof {
        assert(out@ + resources_model(*t, density, rng.state, 17).0 =~= out@);
    }
    out
}

/// The number of harbors a map gets: one per 256 tiles, at least one.
pub open spec fn harbor_count_spec(t: Terrain) -> nat {
    let raw = t.edge_length * t.edge_length / 256;
    if raw < 1 {
        1 as nat
    } else {
        raw as nat
    }
}

/// The player every generated world starts with: a fresh vehicle at the
/// map origin and no money.
pub open spec fn fresh_player() -> crate::state::Player {
    crate::state::Player {
        money: 0,
        vehicle: crate::state::Vehicle {
            hull: crate::state::ShipHull::Small,
            pos: Location { x: 0, y: 0 },
            velocity: crate::units::Distance { x: 0, y: 0 },
            heading: 0,
            angle_of_list: 0,
            ruder: crate::units::BiPolarFraction(0),
            sail: crate::state::Sail {
                kind: crate::state::SailKind::Cog,
                condition: crate::units::Fraction(0),
                reefing: crate::state::Reefing(0),
                orientation_rectangle: 0,
                orientation_triangle: 0,
            },
            resource_weight: 0,
            resource_value: 0,
        },
    }
}

/// Populates a finished terrain into a world: harbors by rejection
/// sampling onto shallow water, resources per content type, and a wind
/// seed drawn last. Fails (with `None`) only when the harbor sampling
/// cap runs out, as on a map without shallow water.
pub fn populate(terrain: Terrain, density: u32, rng: &mut GameRng) -> (r: Option<crate::World>)
    requires
        terrain.wf(),
        density <= 100_000,
    ensures
        ({
            let hcount = harbor_count_spec(terrain);
            let hm = harbors_model(
                terrain,
                old(rng).state,
                (1000 + 4 * hcount) as nat,
                hcount,
            );
            &&& (r is Some <==> hm.0 is Some)
            &&& (r is None ==> final(rng).state == hm.1)
            &&& (r is Some ==> {
                let rm = resources_model(terrain, density, hm.1, 0);
                let w = r->Some_0;
                &&& w.init.terrain == terrain
                &&& w.init.seed == rng_mix(rm.1)
                &&& w.init.dbg == (crate::DebuggingConf {
                    ship_engine: false,
                    wind_turning: false,
                    fixed_wind_direction: None,
                })
                &&& w.state.timestamp == crate::units::Tick(0)
                &&& w.state.player == fresh_player()
                &&& w.state.harbors@ == hm.0->Some_0
                &&& w.state.resources@ == rm.0
                &&& w.state.wind == (crate::units::Wind { x: 0, y: 0 })
                &&& final(rng).state == rng_step(rm.1)
                &&& w.state.wf(terrain.size_mm())
                &&& forall|i: int|
                    0 <= i < w.state.harbors@.len() ==> terrain.elev_at(
                        terrain.tile_of(#[trigger] w.state.harbors@[i].loc),
                    ).classify_spec() == TileType::ShallowWater
                &&& forall|i: int|
                    0 <= i < w.state.resources@.len() ==> pack_placed(
                        terrain,
                        #[trigger] w.state.resources@[i],
                    )
            })
        }),
{
    proof {
        crate::terrain::lemma_size_positive(terrain);
        assert((terrain.edge_length as int) * (terrain.edge_length as int) <= 0xffff_ffff)
            by (nonlinear_arith)
            requires
                terrain.edge_length <= 0xffff,
        ;
    }
    let area: u32 = (terrain.edge_length as u32) * (terrain.edge_length as u32);
    let raw: u32 = area / 256;
    let hcount: u32 = if raw < 1 {
        1
    } else {
        raw
    };
    let harbors = match spawn_harbors(&terrain, hcount, rng) {
        Some(h) => h,
        None => {
            return None;
        },
    };
    let resources = spawn_resources(&terrain, density, rng);
    let seed = rng.next_u64();
    Some(
        crate::World {
            init: crate::WorldInit {
                terrain,
                seed,
                dbg: crate::DebuggingConf {
                    ship_engine: false,
                    wind_turning: false,
                    fixed_wind_direction: None,
                },
            },
            state: crate::state::WorldState {
                timestamp: crate::units::Tick(0),
                player: Default::default(),
                resources,
                harbors,
                wind: crate::units::Wind { x: 0, y: 0 },
            },
        },
    )
}

/// Fully random terrain, no structure.
#[derive(Debug, Clone, Copy, PartialEq, Eq, Structural)]
pub struct WhiteNoise;

impl WhiteNoise {
    /// Generates a world over white-noise terrain: every elevation
    /// drawn independently, then harbors and resources placed as for
    /// any terrain. A pure function of the setting and the generator's
    /// seed; `None` only when the harbor sampling cap runs out.
    pub fn generate(&self, setting: &Setting, rng: &mut GameRng) -> (r: Option<crate::World>)
        requires
            setting.edge_length >= 1,
            setting.resource_density <= 100_000,
        ensures
            r is None ==> exists|t: Terrain|
                {
                    &&& #[trigger] t.wf()
                    &&& t.edge_length == setting.edge_length
                    &&& {
                        let wm = wn_elevations_model(
                            old(rng).state,
                            (setting.edge_length * setting.edge_length) as nat,
                        );
                        let hcount = harbor_count_spec(t);
                        let hm = harbors_model(t, wm.1, (1000 + 4 * hcount) as nat, hcount);
                        &&& t.playground@ == wm.0
                        &&& hm.0 is None
                        &&& final(rng).state == hm.1
                    }
                },
            r is Some ==> {
                let w = r->Some_0;
                &&& w.init.terrain.wf()
                &&& w.init.terrain.edge_length == setting.edge_length
                &&& w.init.terrain.playground@ == wn_elevations_model(
                    old(rng).state,
                    (setting.edge_length * setting.edge_length) as nat,
                ).0
                &&& {
                    let s1 = wn_elevations_model(
                        old(rng).state,
                        (setting.edge_length * setting.edge_length) as nat,
                    ).1;
                    let t = w.init.terrain;
                    let hcount = harbor_count_spec(t);
                    let hm = harbors_model(t, s1, (1000 + 4 * hcount) as nat, hcount);
                    let rm = resources_model(t, setting.resource_density, hm.1, 0);
                    &&& hm.0 is Some
                    &&& w.state.harbors@ == hm.0->Some_0
                    &&& w.state.resources@ == rm.0
                    &&& w.init.seed == rng_mix(rm.1)
                    &&& final(rng).state == rng_step(rm.1)
                }
                &&& w.state.timestamp == crate::units::Tick(0)
                &&& w.state.player == fresh_player()
                &&& w.state.wind == (crate::units::Wind { x: 0, y: 0 })
                &&& w.state.wf(w.init.terrain.size_mm())
                &&& forall|i: int|
                    0 <= i < w.state.harbors@.len() ==> w.init.terrain.elev_at(
                        w.init.terrain.tile_of(#[trigger] w.state.harbors@[i].loc),
                    ).classify_spec() == TileType::ShallowWater
                &&& forall|i: int|
                    0 <= i < w.state.resources@.len() ==> pack_placed(
                        w.init.terrain,
                        #[trigger] w.state.resources@[i],
                    )
            },
    {
        let terrain = wn_build_terrain(setting.edge_length, rng);
        let ghost t_built = terrain;
        let r = populate(terrain, setting.resource_density, rng);
        proof {
            if r is None {
                assert(t_built.wf() && t_built.edge_length == setting.edge_length);
            }
        }
        r
    }
}

/// Smooth noise-field terrain.
///
/// The elevation grid of this generator is sampled from a smooth noise
/// field by the host (floating-point work) and handed in ready-made;
/// everything after the grid — harbors, resources, the wind seed — is
/// fixed and verified here.
#[derive(Debug, Clone, Copy, PartialEq, Eq, Structural)]
pub struct PerlinNoise;

impl PerlinNoise {
    /// Generates a world over the given smooth terrain. A pure function
    /// of the terrain, the setting and the generator's seed; `None`
    /// only when the harbor sampling cap runs out, as on a map without
    /// shallow water.
    pub fn generate(&self, setting: &Setting, terrain: Terrain, rng: &mut GameRng) -> (r: Option<
        crate::World,
    >)
        requires
            terrain.wf(),
            terrain.edge_length == setting.edge_length,
            setting.resource_density <= 100_000,
        ensures
            ({
                let hcount = harbor_count_spec(terrain);
                let hm = harbors_model(
                    terrain,
                    old(rng).state,
                    (1000 + 4 * hcount) as nat,
                    hcount,
                );
                &&& (r is Some <==> hm.0 is Some)
                &&& (r is None ==> final(rng).state == hm.1)
                &&& (r is Some ==> {
                    let rm = resources_model(terrain, setting.resource_density, hm.1, 0);
                    let w = r->Some_0;
                    &&& w.init.terrain == terrain
                    &&& w.init.seed == rng_mix(rm.1)
                    &&& w.state.timestamp == crate::units::Tick(0)
                    &&& w.state.player == fresh_player()
                    &&& w.state.harbors@ == hm.0->Some_0
                    &&& w.state.resources@ == rm.0
                    &&& w.state.wind == (crate::units::Wind { x: 0, y: 0 })
                    &&& final(rng).state == rng_step(rm.1)
                    &&& w.state.wf(terrain.size_mm())
                    &&& forall|i: int|
                        0 <= i < w.state.harbors@.len() ==> terrain.elev_at(
                            terrain.tile_of(#[trigger] w.state.harbors@[i].loc),
                        ).classify_spec() == TileType::ShallowWater
                    &&& forall|i: int|
                        0 <= i < w.state.resources@.len() ==> pack_placed(
                            terrain,
                            #[trigger] w.state.resources@[i],
                        )
                })
            }),
    {
        populate(terrain, setting.resource_density, rng)
    }
}

} // verus!
