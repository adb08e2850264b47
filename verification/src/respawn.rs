//! Where a player respawns: the places tried around a bed or a respawn
//! anchor, in order, and the checks a place must pass.

use vstd::prelude::*;

use crate::setworldspawn::BlockPos;

verus! {

/// The four horizontal directions.
#[derive(Clone, Copy, Debug, PartialEq, Eq)]
pub enum HorizontalFacing {
    North,
    South,
    West,
    East,
}

/// The unit step of a direction, as (x, z).
pub open spec fn facing_step(f: HorizontalFacing) -> (int, int) {
    match f {
        HorizontalFacing::North => (0, -1),
        HorizontalFacing::South => (0, 1),
        HorizontalFacing::West => (-1, 0),
        HorizontalFacing::East => (1, 0),
    }
}

/// The offsets tried around a bed, for its facing `(fx, fz)` and the
/// direction to its right `(rx, rz) = (-fz, fx)`: right, left, right-back,
/// left-back, behind, two behind, right-front, left-front, in front, and
/// right and two back.
pub open spec fn bed_offsets(f: HorizontalFacing) -> Seq<(int, int)> {
    let (fx, fz) = facing_step(f);
    let (rx, rz) = (-fz, fx);
    seq![
        (rx, rz),
        (-rx, -rz),
        (rx - fx, rz - fz),
        (-rx - fx, -rz - fz),
        (-fx, -fz),
        (-fx * 2, -fz * 2),
        (rx + fx, rz + fz),
        (-rx + fx, -rz + fz),
        (fx, fz),
        (rx - fx * 2, rz - fz * 2),
    ]
}

/// The offsets around a respawn anchor at one height.
pub open spec fn anchor_ring() -> Seq<(int, int)> {
    seq![(0, -1), (-1, 0), (0, 1), (1, 0), (-1, -1), (1, -1), (-1, 1), (1, 1)]
}

/// A position well inside the world, so that the places around it exist.
pub open spec fn pos_in_world(p: BlockPos) -> bool {
    -0x4000_0000 <= p.x <= 0x4000_0000 && -0x4000_0000 <= p.y <= 0x4000_0000 && -0x4000_0000 <= p.z
        <= 0x4000_0000
}

/// The places tried around a bed, in order: each offset at the bed's
/// height and one below, then the bed itself.
pub open spec fn bed_candidates(bed: BlockPos, f: HorizontalFacing) -> Seq<(int, int, int)> {
    Seq::new(
        21,
        |i: int|
            if i == 20 {
                (bed.x as int, bed.y as int, bed.z as int)
            } else {
                (bed.x + bed_offsets(f)[i / 2].0, bed.y - (i % 2), bed.z + bed_offsets(f)[i / 2].1)
            },
    )
}

/// The places tried around an anchor, in order: the ring at its height,
/// one below and one above, then right above it.
pub open spec fn anchor_candidates(anchor: BlockPos) -> Seq<(int, int, int)> {
    Seq::new(
        25,
        |i: int|
            if i == 24 {
                (anchor.x as int, anchor.y + 1, anchor.z as int)
            } else {
                (
                    anchor.x + anchor_ring()[i % 8].0,
                    anchor.y + (if i / 8 == 0 { 0int } else if i / 8 == 1 { -1int } else { 1int }),
                    anchor.z + anchor_ring()[i % 8].1,
                )
            },
    )
}

/// The positions as triples.
pub open spec fn triples(s: Seq<BlockPos>) -> Seq<(int, int, int)> {
    s.map_values(|p: BlockPos| (p.x as int, p.y as int, p.z as int))
}

/// Appending a position appends its triple.
proof fn lemma_triples_push(s: Seq<BlockPos>, p: BlockPos)
    ensures
        triples(s.push(p)) == triples(s).push((p.x as int, p.y as int, p.z as int)),
{
    assert(triples(s.push(p)) =~= triples(s).push((p.x as int, p.y as int, p.z as int)));
}

/// The offsets tried around a bed facing `facing`.
pub fn get_bed_spawn_offsets(facing: HorizontalFacing) -> (r: Vec<(i32, i32)>)
    ensures
        r@.len() == 10,
        r@.map_values(|o: (i32, i32)| (o.0 as int, o.1 as int)) == bed_offsets(facing),
{
    let (fx, fz): (i32, i32) = match facing {
        HorizontalFacing::North => (0, -1),
        HorizontalFacing::South => (0, 1),
        HorizontalFacing::West => (-1, 0),
        HorizontalFacing::East => (1, 0),
    };
    let rx: i32 = 0 - fz;
    let rz: i32 = fx;
    let lx: i32 = 0 - rx;
    let lz: i32 = 0 - rz;
    let bx: i32 = 0 - fx;
    let bz: i32 = 0 - fz;
    let o2 = (rx - fx, rz - fz);
    let o3 = (lx - fx, lz - fz);
    let o5 = (bx * 2, bz * 2);
    let o6 = (rx + fx, rz + fz);
    let o7 = (lx + fx, lz + fz);
    let o9 = (rx - fx * 2, rz - fz * 2);
    let r = vec![(rx, rz), (lx, lz), o2, o3, (bx, bz), o5, o6, o7, (fx, fz), o9];
    assert(r@.map_values(|o: (i32, i32)| (o.0 as int, o.1 as int)) =~= bed_offsets(facing));
    r
}

/// The places tried around a bed, in order.
pub fn bed_spawn_candidates(bed: BlockPos, facing: HorizontalFacing) -> (r: Vec<BlockPos>)
    requires
        pos_in_world(bed),
    ensures
        triples(r@) == bed_candidates(bed, facing),
{
    let offsets = get_bed_spawn_offsets(facing);
    let ghost os = offsets@.map_values(|o: (i32, i32)| (o.0 as int, o.1 as int));
    let ghost want = bed_candidates(bed, facing);
    let mut out: Vec<BlockPos> = Vec::new();
    let mut i: usize = 0;
    while i < 10
        invariant
            i <= 10,
            offsets@.len() == 10,
            pos_in_world(bed),
            os == offsets@.map_values(|o: (i32, i32)| (o.0 as int, o.1 as int)),
            os == bed_offsets(facing),
            want == bed_candidates(bed, facing),
            triples(out@) == want.subrange(0, 2 * i as int),
        decreases 10 - i,
    {
        let (dx, dz) = offsets[i];
        assert(os[i as int] == (dx as int, dz as int));
        assert(-2 <= dx <= 2 && -2 <= dz <= 2) by {
            assert(bed_offsets(facing)[i as int] == os[i as int]);
        }
        let ghost prev = out@;
        let a = BlockPos { x: bed.x + dx, y: bed.y, z: bed.z + dz };
        let b = BlockPos { x: bed.x + dx, y: bed.y - 1, z: bed.z + dz };
        out.push(a);
        out.push(b);
        assert(want[2 * i as int] == (a.x as int, a.y as int, a.z as int)) by {
            assert((2 * i as int) / 2 == i as int);
            assert((2 * i as int) % 2 == 0);
        }
        assert(want[2 * i + 1] == (b.x as int, b.y as int, b.z as int)) by {
            assert((2 * i + 1) / 2 == i as int);
            assert((2 * i + 1) % 2 == 1);
        }
        assert(out@ == prev.push(a).push(b));
        proof {
            lemma_triples_push(prev, a);
            lemma_triples_push(prev.push(a), b);
        }
        assert(want.subrange(0, 2 * i as int).push(want[2 * i as int]).push(want[2 * i + 1]) =~= want.subrange(
            0,
            2 * i + 2,
        ));
        i += 1;
    }
    let ghost prev = out@;
    out.push(bed);
    assert(out@ == prev.push(bed));
    proof {
        lemma_triples_push(prev, bed);
    }
    assert(want.subrange(0, 20).push(want[20]) =~= want);
    out
}

/// The places tried around a respawn anchor, in order.
pub fn anchor_spawn_candidates(anchor: BlockPos) -> (r: Vec<BlockPos>)
    requires
        pos_in_world(anchor),
    ensures
        triples(r@) == anchor_candidates(anchor),
{
    let ring: Vec<(i32, i32)> = vec![(0, -1), (-1, 0), (0, 1), (1, 0), (-1, -1), (1, -1), (-1, 1), (1, 1)];
    assert(ring@.map_values(|o: (i32, i32)| (o.0 as int, o.1 as int)) =~= anchor_ring());
    let heights: Vec<i32> = vec![0, -1, 1];
    let ghost want = anchor_candidates(anchor);
    let mut out: Vec<BlockPos> = Vec::new();
    let mut h: usize = 0;
    while h < 3
        invariant
            h <= 3,
            pos_in_world(anchor),
            ring@.len() == 8,
            heights@ == seq![0i32, -1i32, 1i32],
            ring@.map_values(|o: (i32, i32)| (o.0 as int, o.1 as int)) == anchor_ring(),
            want == anchor_candidates(anchor),
            triples(out@) == want.subrange(0, 8 * h as int),
        decreases 3 - h,
    {
        let dy = heights[h];
        let mut j: usize = 0;
        while j < 8
            invariant
                j <= 8,
                h < 3,
                pos_in_world(anchor),
                ring@.len() == 8,
                heights@ == seq![0i32, -1i32, 1i32],
                dy == heights@[h as int],
                ring@.map_values(|o: (i32, i32)| (o.0 as int, o.1 as int)) == anchor_ring(),
                want == anchor_candidates(anchor),
                triples(out@) == want.subrange(0, 8 * h + j),
            decreases 8 - j,
        {
            let (dx, dz) = ring[j];
            assert(anchor_ring()[j as int] == (dx as int, dz as int));
            let ghost prev = out@;
            let p = BlockPos { x: anchor.x + dx, y: anchor.y + dy, z: anchor.z + dz };
            out.push(p);
            assert(want[8 * h + j] == (p.x as int, p.y as int, p.z as int)) by {
                assert((8 * h + j) / 8 == h as int);
                assert((8 * h + j) % 8 == j as int);
            }
            assert(out@ == prev.push(p));
            proof {
                lemma_triples_push(prev, p);
            }
            assert(want.subrange(0, 8 * h + j).push(want[8 * h + j]) =~= want.subrange(0, 8 * h + j + 1));
            j += 1;
        }
        h += 1;
    }
    let ghost prev = out@;
    let top = BlockPos { x: anchor.x, y: anchor.y + 1, z: anchor.z };
    out.push(top);
    assert(out@ == prev.push(top));
    proof {
        lemma_triples_push(prev, top);
    }
    assert(want.subrange(0, 24).push(want[24]) =~= want);
    out
}

/// What the respawn rules read of a place: whether a player may not
/// spawn inside the block there or the one above, whether the blocks
/// there and below are solid, and whether a player standing there (0.6
/// wide and 1.8 tall, 0.1 above the block) would collide with no block.
#[derive(Clone, Copy, Debug, PartialEq, Eq)]
pub struct SpawnSpot {
    pub invalid_inside: bool,
    pub invalid_inside_above: bool,
    pub solid: bool,
    pub air: bool,
    pub solid_below: bool,
    pub space_empty: bool,
}

/// A place passes the checks: neither it nor the block above is a block
/// to not spawn inside, it or the block below is solid, it is not solid
/// itself (unless it is air), and a player fits there.
pub fn passes_block_checks(spot: SpawnSpot) -> (r: bool)
    ensures
        r == (!spot.invalid_inside && !spot.invalid_inside_above && (spot.solid_below || spot.solid)
            && !(spot.solid && !spot.air) && spot.space_empty),
{
    if spot.invalid_inside || spot.invalid_inside_above {
        return false;
    }
    if !(spot.solid_below || spot.solid) {
        return false;
    }
    if spot.solid && !spot.air {
        return false;
    }
    spot.space_empty
}

/// A forced spawn point (set with `/spawnpoint`) is used when the block
/// there and the one above are each air or not solid.
pub fn forced_spawn_safe(air: bool, solid: bool, above_air: bool, above_solid: bool) -> (r: bool)
    ensures
        r == ((air || !solid) && (above_air || !above_solid)),
{
    (air || !solid) && (above_air || !above_solid)
}

/// A respawn anchor's charges after a respawn: an empty anchor gives no
/// respawn (`None`); else one charge is used.
pub fn use_anchor_charge(charges: u8) -> (r: Option<u8>)
    ensures
        charges == 0 ==> r is None,
        charges > 0 ==> r == Some((charges - 1) as u8),
{
    if charges == 0 { None } else { Some(charges - 1) }
}

/// Whether setting the respawn point changes it: not when the same
/// dimension and position are already set.
pub fn respawn_point_changes(current: Option<(u8, BlockPos)>, dimension: u8, pos: BlockPos) -> (r: bool)
    ensures
        r == !(current == Some((dimension, pos))),
{
    match current {
        Some((d, p)) => !(d == dimension && p.x == pos.x && p.y == pos.y && p.z == pos.z),
        None => true,
    }
}

/// What stands at a stored respawn point.
#[derive(Clone, Copy, Debug, PartialEq, Eq)]
pub enum RespawnBlock {
    /// A bed, facing this way.
    Bed(HorizontalFacing),
    /// A respawn anchor with this many charges.
    Anchor(u8),
    /// Anything else.
    Other,
}

/// The respawn point a player keeps: where it is, and whether it was
/// forced (set with `/spawnpoint`).
#[derive(Clone, Copy, Debug, PartialEq, Eq)]
pub struct StoredRespawn {
    pub position: BlockPos,
    pub force: bool,
}

/// Where a player respawns, as far as the stored point decides it.
#[derive(Clone, Debug, PartialEq, Eq)]
pub enum RespawnPlan {
    /// No usable respawn point: the world spawn is used.
    WorldSpawn,
    /// The forced point itself, centred on its block and 0.1 above it.
    Forced(BlockPos),
    /// The first of these places around the bed that passes the checks;
    /// the world spawn where none does.
    Bed(Vec<BlockPos>),
    /// The first of these places around the anchor that passes the checks,
    /// after which the anchor keeps `charges_left`; the world spawn where
    /// none does.
    Anchor { candidates: Vec<BlockPos>, charges_left: u8 },
}

/// Where a player respawns: nowhere without a stored point; at a forced
/// point where it is safe (`forced_safe`), else nowhere; around a bed at
/// the point; around a charged anchor there, using a charge; else nowhere.
pub fn calculate_respawn_point(point: Option<StoredRespawn>, block: RespawnBlock, forced_safe: bool) -> (r:
    RespawnPlan)
    requires
        point is Some ==> pos_in_world(point->0.position),
    ensures
        point is None ==> r == RespawnPlan::WorldSpawn,
        point is Some && point->0.force ==> (if forced_safe {
            r == RespawnPlan::Forced(point->0.position)
        } else {
            r == RespawnPlan::WorldSpawn
        }),
        point is Some && !point->0.force ==> match block {
            RespawnBlock::Bed(f) => r matches RespawnPlan::Bed(v) && triples(v@) == bed_candidates(
                point->0.position,
                f,
            ),
            RespawnBlock::Anchor(c) => if c == 0 {
                r == RespawnPlan::WorldSpawn
            } else {
                r matches RespawnPlan::Anchor { candidates, charges_left } && triples(candidates@)
                    == anchor_candidates(point->0.position) && charges_left == c - 1
            },
            RespawnBlock::Other => r == RespawnPlan::WorldSpawn,
        },
{
    let p = match point {
        Some(p) => p,
        None => return RespawnPlan::WorldSpawn,
    };
    if p.force {
        if forced_safe {
            return RespawnPlan::Forced(p.position);
        }
        return RespawnPlan::WorldSpawn;
    }
    match block {
        RespawnBlock::Bed(f) => RespawnPlan::Bed(bed_spawn_candidates(p.position, f)),
        RespawnBlock::Anchor(c) => match use_anchor_charge(c) {
            Some(left) => RespawnPlan::Anchor {
                candidates: anchor_spawn_candidates(p.position),
                charges_left: left,
            },
            None => RespawnPlan::WorldSpawn,
        },
        RespawnBlock::Other => RespawnPlan::WorldSpawn,
    }
}

/// The spot passes the checks.
pub open spec fn spot_passes(spot: SpawnSpot) -> bool {
    !spot.invalid_inside && !spot.invalid_inside_above && (spot.solid_below || spot.solid) && !(
    spot.solid && !spot.air) && spot.space_empty
}

/// No spot before `i` passes the checks.
pub open spec fn none_pass_before(spots: Seq<SpawnSpot>, i: int) -> bool {
    forall|j: int| 0 <= j < i ==> !spot_passes(#[trigger] spots[j])
}

/// The first of the spots tried that passes the checks, if any.
pub fn first_passing(spots: &Vec<SpawnSpot>) -> (r: Option<usize>)
    ensures
        match r {
            Some(i) => i < spots@.len() && spot_passes(spots@[i as int]) && none_pass_before(
                spots@,
                i as int,
            ),
            None => none_pass_before(spots@, spots@.len() as int),
        },
{
    let mut i: usize = 0;
    while i < spots.len()
        invariant
            i <= spots@.len(),
            none_pass_before(spots@, i as int),
        decreases spots@.len() - i,
    {
        if passes_block_checks(spots[i]) {
            return Some(i);
        }
        i += 1;
    }
    None
}

/// Where a player respawns once the places of a plan were checked.
#[derive(Clone, Copy, Debug, PartialEq, Eq)]
pub enum RespawnOutcome {
    /// The world spawn is used; no block changes.
    WorldSpawn,
    /// The player respawns at this place; a respawn anchor used for it is
    /// set to `anchor_charges` charges.
    At { pos: BlockPos, anchor_charges: Option<u8> },
}

/// What a plan comes to, where `first_pass` is the first of its places
/// that passed the block checks: a forced point is used as it is; a bed or
/// anchor plan respawns at that place, and an anchor then loses a charge;
/// where no place passed, the world spawn is used and the anchor keeps its
/// charges.
pub fn settle_respawn(plan: &RespawnPlan, first_pass: Option<usize>) -> (r: RespawnOutcome)
    requires
        first_pass matches Some(i) ==> match *plan {
            RespawnPlan::Bed(v) => i < v@.len(),
            RespawnPlan::Anchor { candidates, .. } => i < candidates@.len(),
            _ => true,
        },
    ensures
        match *plan {
            RespawnPlan::WorldSpawn => r == RespawnOutcome::WorldSpawn,
            RespawnPlan::Forced(p) => r == (RespawnOutcome::At { pos: p, anchor_charges: None }),
            RespawnPlan::Bed(v) => match first_pass {
                Some(i) => r == (RespawnOutcome::At { pos: v@[i as int], anchor_charges: None }),
                None => r == RespawnOutcome::WorldSpawn,
            },
            RespawnPlan::Anchor { candidates, charges_left } => match first_pass {
                Some(i) => r == (RespawnOutcome::At {
                    pos: candidates@[i as int],
                    anchor_charges: Some(charges_left),
                }),
                None => r == RespawnOutcome::WorldSpawn,
            },
        },
{
    match plan {
        RespawnPlan::WorldSpawn => RespawnOutcome::WorldSpawn,
        RespawnPlan::Forced(p) => RespawnOutcome::At { pos: *p, anchor_charges: None },
        RespawnPlan::Bed(v) => match first_pass {
            Some(i) => RespawnOutcome::At { pos: v[i], anchor_charges: None },
            None => RespawnOutcome::WorldSpawn,
        },
        RespawnPlan::Anchor { candidates, charges_left } => match first_pass {
            Some(i) => RespawnOutcome::At { pos: candidates[i], anchor_charges: Some(*charges_left) },
            None => RespawnOutcome::WorldSpawn,
        },
    }
}

/// The places tried around a bed are ten different places, none the bed
/// itself: first the side right of the bed (a step across its facing,
/// turned clockwise), then the mirror of it, the side left of the bed;
/// behind the bed is fifth and two behind sixth, in front is ninth; the
/// others are the two sides one behind, the two sides one in front, and
/// the right side two behind.
pub proof fn lemma_bed_offsets_shape(f: HorizontalFacing)
    ensures
        ({
            let o = bed_offsets(f);
            let (fx, fz) = facing_step(f);
            &&& o.len() == 10
            &&& forall|i: int, j: int| 0 <= i < j < 10 ==> #[trigger] o[i] != #[trigger] o[j]
            &&& forall|i: int| 0 <= i < 10 ==> #[trigger] o[i] != (0int, 0int)
            &&& o[0].0 * fx + o[0].1 * fz == 0
            &&& o[0].0 * o[0].0 + o[0].1 * o[0].1 == 1
            &&& fx * o[0].1 - fz * o[0].0 == 1
            &&& o[1] == (-o[0].0, -o[0].1)
            &&& o[4] == (-fx, -fz)
            &&& o[5] == (-2 * fx, -2 * fz)
            &&& o[8] == (fx, fz)
            &&& o[2] == (o[0].0 + o[4].0, o[0].1 + o[4].1)
            &&& o[3] == (o[1].0 + o[4].0, o[1].1 + o[4].1)
            &&& o[6] == (o[0].0 + o[8].0, o[0].1 + o[8].1)
            &&& o[7] == (o[1].0 + o[8].0, o[1].1 + o[8].1)
            &&& o[9] == (o[0].0 + o[5].0, o[0].1 + o[5].1)
        }),
{
    let o = bed_offsets(f);
    match f {
        HorizontalFacing::North => {
            assert(o =~= seq![(1int, 0int), (-1, 0), (1, 1), (-1, 1), (0, 1), (0, 2), (1, -1), (-1, -1), (0, -1), (1, 2)]);
            assert(facing_step(f) == (0int, -1int));
            let (fx, fz) = facing_step(f);
            assert(o[0].0 * fx + o[0].1 * fz == 0 && o[0].0 * o[0].0 + o[0].1 * o[0].1 == 1 && fx * o[0].1 - fz
                * o[0].0 == 1) by (nonlinear_arith)
                requires
                    fx == 0,
                    fz == -1,
                    o[0].0 == 1,
                    o[0].1 == 0,
            ;
        },
        HorizontalFacing::South => {
            assert(o =~= seq![(-1int, 0int), (1, 0), (-1, -1), (1, -1), (0, -1), (0, -2), (-1, 1), (1, 1), (0, 1), (-1, -2)]);
            assert(facing_step(f) == (0int, 1int));
            let (fx, fz) = facing_step(f);
            assert(o[0].0 * fx + o[0].1 * fz == 0 && o[0].0 * o[0].0 + o[0].1 * o[0].1 == 1 && fx * o[0].1 - fz
                * o[0].0 == 1) by (nonlinear_arith)
                requires
                    fx == 0,
                    fz == 1,
                    o[0].0 == -1,
                    o[0].1 == 0,
            ;
        },
        HorizontalFacing::West => {
            assert(o =~= seq![(0int, -1int), (0, 1), (1, -1), (1, 1), (1, 0), (2, 0), (-1, -1), (-1, 1), (-1, 0), (2, -1)]);
            assert(facing_step(f) == (-1int, 0int));
            let (fx, fz) = facing_step(f);
            assert(o[0].0 * fx + o[0].1 * fz == 0 && o[0].0 * o[0].0 + o[0].1 * o[0].1 == 1 && fx * o[0].1 - fz
                * o[0].0 == 1) by (nonlinear_arith)
                requires
                    fx == -1,
                    fz == 0,
                    o[0].0 == 0,
                    o[0].1 == -1,
            ;
        },
        HorizontalFacing::East => {
            assert(o =~= seq![(0int, 1int), (0, -1), (-1, 1), (-1, -1), (-1, 0), (-2, 0), (1, 1), (1, -1), (1, 0), (-2, 1)]);
            assert(facing_step(f) == (1int, 0int));
            let (fx, fz) = facing_step(f);
            assert(o[0].0 * fx + o[0].1 * fz == 0 && o[0].0 * o[0].0 + o[0].1 * o[0].1 == 1 && fx * o[0].1 - fz
                * o[0].0 == 1) by (nonlinear_arith)
                requires
                    fx == 1,
                    fz == 0,
                    o[0].0 == 0,
                    o[0].1 == 1,
            ;
        },
    }
}

/// The ring around a respawn anchor holds the eight places next to it,
/// each once.
pub proof fn lemma_anchor_ring_neighbours()
    ensures
        anchor_ring().len() == 8,
        forall|i: int, j: int| 0 <= i < j < 8 ==> #[trigger] anchor_ring()[i] != #[trigger] anchor_ring()[j],
        forall|i: int|
            0 <= i < 8 ==> -1 <= (#[trigger] anchor_ring()[i]).0 <= 1 && -1 <= anchor_ring()[i].1 <= 1
                && anchor_ring()[i] != (0int, 0int),
{
}

/// The places tried around a bed are 21 different places: two for each
/// offset around it, at the bed's height and then one below, and last the
/// bed itself.
pub proof fn lemma_bed_candidates_distinct(bed: BlockPos, f: HorizontalFacing)
    ensures
        bed_candidates(bed, f).len() == 21,
        forall|i: int, j: int|
            0 <= i < j < 21 ==> #[trigger] bed_candidates(bed, f)[i] != #[trigger] bed_candidates(bed, f)[j],
        bed_candidates(bed, f)[20] == (bed.x as int, bed.y as int, bed.z as int),
{
    let c = bed_candidates(bed, f);
    let (x, y, z) = (bed.x as int, bed.y as int, bed.z as int);
    match f {
        HorizontalFacing::North => {
            assert(bed_offsets(f) =~= seq![(1int, 0int), (-1, 0), (1, 1), (-1, 1), (0, 1), (0, 2), (1, -1), (-1, -1), (0, -1), (1, 2)]);
            assert(c =~= seq![(x + 1, y - 0, z + 0), (x + 1, y - 1, z + 0), (x + -1, y - 0, z + 0), (x + -1, y - 1, z + 0), (x + 1, y - 0, z + 1), (x + 1, y - 1, z + 1), (x + -1, y - 0, z + 1), (x + -1, y - 1, z + 1), (x + 0, y - 0, z + 1), (x + 0, y - 1, z + 1), (x + 0, y - 0, z + 2), (x + 0, y - 1, z + 2), (x + 1, y - 0, z + -1), (x + 1, y - 1, z + -1), (x + -1, y - 0, z + -1), (x + -1, y - 1, z + -1), (x + 0, y - 0, z + -1), (x + 0, y - 1, z + -1), (x + 1, y - 0, z + 2), (x + 1, y - 1, z + 2), (x, y, z)]);
        },
        HorizontalFacing::South => {
            assert(bed_offsets(f) =~= seq![(-1int, 0int), (1, 0), (-1, -1), (1, -1), (0, -1), (0, -2), (-1, 1), (1, 1), (0, 1), (-1, -2)]);
            assert(c =~= seq![(x + -1, y - 0, z + 0), (x + -1, y - 1, z + 0), (x + 1, y - 0, z + 0), (x + 1, y - 1, z + 0), (x + -1, y - 0, z + -1), (x + -1, y - 1, z + -1), (x + 1, y - 0, z + -1), (x + 1, y - 1, z + -1), (x + 0, y - 0, z + -1), (x + 0, y - 1, z + -1), (x + 0, y - 0, z + -2), (x + 0, y - 1, z + -2), (x + -1, y - 0, z + 1), (x + -1, y - 1, z + 1), (x + 1, y - 0, z + 1), (x + 1, y - 1, z + 1), (x + 0, y - 0, z + 1), (x + 0, y - 1, z + 1), (x + -1, y - 0, z + -2), (x + -1, y - 1, z + -2), (x, y, z)]);
        },
        HorizontalFacing::West => {
            assert(bed_offsets(f) =~= seq![(0int, -1int), (0, 1), (1, -1), (1, 1), (1, 0), (2, 0), (-1, -1), (-1, 1), (-1, 0), (2, -1)]);
            assert(c =~= seq![(x + 0, y - 0, z + -1), (x + 0, y - 1, z + -1), (x + 0, y - 0, z + 1), (x + 0, y - 1, z + 1), (x + 1, y - 0, z + -1), (x + 1, y - 1, z + -1), (x + 1, y - 0, z + 1), (x + 1, y - 1, z + 1), (x + 1, y - 0, z + 0), (x + 1, y - 1, z + 0), (x + 2, y - 0, z + 0), (x + 2, y - 1, z + 0), (x + -1, y - 0, z + -1), (x + -1, y - 1, z + -1), (x + -1, y - 0, z + 1), (x + -1, y - 1, z + 1), (x + -1, y - 0, z + 0), (x + -1, y - 1, z + 0), (x + 2, y - 0, z + -1), (x + 2, y - 1, z + -1), (x, y, z)]);
        },
        HorizontalFacing::East => {
            assert(bed_offsets(f) =~= seq![(0int, 1int), (0, -1), (-1, 1), (-1, -1), (-1, 0), (-2, 0), (1, 1), (1, -1), (1, 0), (-2, 1)]);
            assert(c =~= seq![(x + 0, y - 0, z + 1), (x + 0, y - 1, z + 1), (x + 0, y - 0, z + -1), (x + 0, y - 1, z + -1), (x + -1, y - 0, z + 1), (x + -1, y - 1, z + 1), (x + -1, y - 0, z + -1), (x + -1, y - 1, z + -1), (x + -1, y - 0, z + 0), (x + -1, y - 1, z + 0), (x + -2, y - 0, z + 0), (x + -2, y - 1, z + 0), (x + 1, y - 0, z + 1), (x + 1, y - 1, z + 1), (x + 1, y - 0, z + -1), (x + 1, y - 1, z + -1), (x + 1, y - 0, z + 0), (x + 1, y - 1, z + 0), (x + -2, y - 0, z + 1), (x + -2, y - 1, z + 1), (x, y, z)]);
        },
    }
}

/// The places tried around a respawn anchor are 25 different places: the
/// eight around it at its height, then one below, then one above, and last
/// the place right above it.
pub proof fn lemma_anchor_candidates_distinct(anchor: BlockPos)
    ensures
        anchor_candidates(anchor).len() == 25,
        forall|i: int, j: int|
            0 <= i < j < 25 ==> #[trigger] anchor_candidates(anchor)[i] != #[trigger] anchor_candidates(anchor)[j],
        anchor_candidates(anchor)[24] == (anchor.x as int, anchor.y + 1, anchor.z as int),
{
    let (x, y, z) = (anchor.x as int, anchor.y as int, anchor.z as int);
    assert(anchor_ring() =~= seq![(0int, -1int), (-1, 0), (0, 1), (1, 0), (-1, -1), (1, -1), (-1, 1), (1, 1)]);
    assert(anchor_candidates(anchor) =~= seq![(x + 0, y + 0, z + -1), (x + -1, y + 0, z + 0), (x + 0, y + 0, z + 1), (x + 1, y + 0, z + 0), (x + -1, y + 0, z + -1), (x + 1, y + 0, z + -1), (x + -1, y + 0, z + 1), (x + 1, y + 0, z + 1), (x + 0, y + -1, z + -1), (x + -1, y + -1, z + 0), (x + 0, y + -1, z + 1), (x + 1, y + -1, z + 0), (x + -1, y + -1, z + -1), (x + 1, y + -1, z + -1), (x + -1, y + -1, z + 1), (x + 1, y + -1, z + 1), (x + 0, y + 1, z + -1), (x + -1, y + 1, z + 0), (x + 0, y + 1, z + 1), (x + 1, y + 1, z + 0), (x + -1, y + 1, z + -1), (x + 1, y + 1, z + -1), (x + -1, y + 1, z + 1), (x + 1, y + 1, z + 1), (x, y + 1, z)]);
}

} // verus!
