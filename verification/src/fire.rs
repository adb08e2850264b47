//! Fire: how it ages, burns out, spreads to its neighbours and catches in
//! the air around it, played out on a snapshot of the blocks near one fire.
//!
//! The fire stands at (0, 0, 0) of a region that reaches two blocks out on
//! x and z, two blocks down and five up: every block that one tick of the
//! fire reads. East is +x, south is +z, up is +y.

use vstd::prelude::*;

use crate::chance::random_below;

verus! {

/// The shape of a fire block: its age (0 to 15) and the sides it clings to.
#[derive(Clone, Copy, Debug, PartialEq, Eq)]
pub struct FireShape {
    pub age: u8,
    pub north: bool,
    pub south: bool,
    pub east: bool,
    pub west: bool,
    pub up: bool,
}

/// The kinds of block that the fire rules tell apart.
#[derive(Clone, Copy, Debug, PartialEq, Eq)]
pub enum BlockKind {
    Air,
    Fire(FireShape),
    Tnt,
    Other,
}

/// What the fire rules read of one block: its kind, its flammability (0
/// where it has none), whether it is waterlogged, whether it holds a fluid
/// and whether its top face is solid.
#[derive(Clone, Copy, Debug, PartialEq, Eq)]
pub struct BlockInfo {
    pub kind: BlockKind,
    pub burn_chance: u8,
    pub spread_chance: u8,
    pub waterlogged: bool,
    pub has_fluid: bool,
    pub side_solid_up: bool,
}

/// A change that a fire tick makes or asks for.
#[derive(Clone, Copy, Debug, PartialEq, Eq)]
pub enum FireAction {
    /// The block at (x, y, z) becomes `block`.
    SetBlock { x: i32, y: i32, z: i32, block: BlockInfo },
    /// The TNT at (x, y, z) caught fire and is primed.
    PrimeTnt { x: i32, y: i32, z: i32 },
    /// The fire ticks again after `delay` game ticks.
    Schedule { delay: u8 },
}

/// The blocks around one fire, x from -2 to 2, y from -2 to 5, z from -2 to 2.
pub struct FireRegion {
    pub cells: Vec<BlockInfo>,
}

/// The random draws of one fire tick, each below its bound.
pub struct FireRolls {
    /// Below 3: the fire is stored older when it is 2.
    pub age_step: u32,
    /// Below 4: an old fire over a non-flammable block burns out when it is 0.
    pub burn_out: u32,
    /// For each side in the order east, west, north, south, up, down: the
    /// spread draw (below 300 sideways, 250 up and down), the catch draw
    /// (below the age plus 10) and the age draw (below 5).
    pub spread: Vec<(u32, u32, u32)>,
    /// For each of the 54 places of the cube around the fire: the catch draw
    /// (below the place's odds) and the age draw (below 5).
    pub cube: Vec<(u32, u32)>,
    /// Below 10: added to the 30 ticks until the next tick.
    pub delay: u32,
}

/// What the plugins answer for each change a fire tick would make: for
/// each side (east, west, north, south, up, down), whether the spread or
/// burn event there is cancelled; for each of the 54 places of the cube,
/// whether the spread or burn event there is cancelled.
pub struct FireVetoes {
    pub spread: Vec<bool>,
    pub cube: Vec<bool>,
}

/// One answer for each side and for each place of the cube.
pub open spec fn vetoes_valid(v: FireVetoes) -> bool {
    v.spread@.len() == 6 && v.cube@.len() == 54
}

/// The number of blocks in a region.
pub const REGION_LEN: usize = 200;

/// Whether (x, y, z) lies in the region.
pub open spec fn in_region(x: int, y: int, z: int) -> bool {
    -2 <= x <= 2 && -2 <= y <= 5 && -2 <= z <= 2
}

/// Where (x, y, z) is kept in the region's cells.
pub open spec fn region_index(x: int, y: int, z: int) -> int {
    (x + 2) * 40 + (y + 2) * 5 + (z + 2)
}

/// The block at (x, y, z).
pub open spec fn cell(w: Seq<BlockInfo>, x: int, y: int, z: int) -> BlockInfo {
    w[region_index(x, y, z)]
}

/// `w` with the block at (x, y, z) replaced by `b`.
pub open spec fn set_cell(w: Seq<BlockInfo>, x: int, y: int, z: int, b: BlockInfo) -> Seq<BlockInfo> {
    w.update(region_index(x, y, z), b)
}

/// The air block.
pub open spec fn air() -> BlockInfo {
    BlockInfo {
        kind: BlockKind::Air,
        burn_chance: 0,
        spread_chance: 0,
        waterlogged: false,
        has_fluid: false,
        side_solid_up: false,
    }
}

/// A fire block of the given shape.
pub open spec fn fire_block(s: FireShape) -> BlockInfo {
    BlockInfo {
        kind: BlockKind::Fire(s),
        burn_chance: 0,
        spread_chance: 0,
        waterlogged: false,
        has_fluid: false,
        side_solid_up: false,
    }
}

/// A block burns when it is not waterlogged and has a burn chance.
pub open spec fn spec_is_flammable(b: BlockInfo) -> bool {
    !b.waterlogged && b.burn_chance > 0
}

/// Whether the block at (x, y, z) burns.
pub open spec fn flammable_at(w: Seq<BlockInfo>, x: int, y: int, z: int) -> bool {
    spec_is_flammable(cell(w, x, y, z))
}

/// Whether any of the six neighbours of (x, y, z) burns.
pub open spec fn flammable_around(w: Seq<BlockInfo>, x: int, y: int, z: int) -> bool {
    flammable_at(w, x + 1, y, z) || flammable_at(w, x - 1, y, z) || flammable_at(w, x, y + 1, z)
        || flammable_at(w, x, y - 1, z) || flammable_at(w, x, y, z + 1) || flammable_at(w, x, y, z - 1)
}

/// Fire stays at (x, y, z) when the block below has a solid top or a
/// neighbour burns.
pub open spec fn fire_can_stay(w: Seq<BlockInfo>, x: int, y: int, z: int) -> bool {
    cell(w, x, y - 1, z).side_solid_up || flammable_around(w, x, y, z)
}

/// The shape of a new fire at (x, y, z), of age 0: on a burning or solid
/// floor it clings to nothing; else to each burning side and the top.
pub open spec fn fire_shape_for(w: Seq<BlockInfo>, x: int, y: int, z: int) -> FireShape {
    let down = cell(w, x, y - 1, z);
    if spec_is_flammable(down) || down.side_solid_up {
        FireShape { age: 0, north: false, south: false, east: false, west: false, up: false }
    } else {
        FireShape {
            age: 0,
            north: flammable_at(w, x, y, z - 1),
            south: flammable_at(w, x, y, z + 1),
            east: flammable_at(w, x + 1, y, z),
            west: flammable_at(w, x - 1, y, z),
            up: flammable_at(w, x, y + 1, z),
        }
    }
}

/// `s` with the age `age`.
pub open spec fn with_age(s: FireShape, age: int) -> FireShape {
    FireShape { age: age as u8, ..s }
}

/// The smaller of `a` and 15.
pub open spec fn cap15(a: int) -> int {
    if a < 15 { a } else { 15 }
}

/// What a neighbour adds to the chance that air catches fire: its burn
/// chance, unless it holds a fluid.
pub open spec fn fuel(b: BlockInfo) -> int {
    if b.has_fluid { 0 } else { b.burn_chance as int }
}

/// The chance that the block at (x, y, z) catches: 0 unless it is air, else
/// the fuel of its six neighbours together.
pub open spec fn burn_chance_at(w: Seq<BlockInfo>, x: int, y: int, z: int) -> int {
    if cell(w, x, y, z).kind != BlockKind::Air {
        0
    } else {
        fuel(cell(w, x + 1, y, z)) + fuel(cell(w, x - 1, y, z)) + fuel(cell(w, x, y + 1, z))
            + fuel(cell(w, x, y - 1, z)) + fuel(cell(w, x, y, z + 1)) + fuel(cell(w, x, y, z - 1))
    }
}

/// The `i`-th side that fire spreads to: east, west, north, south, up, down.
pub open spec fn spread_target(i: int) -> (int, int, int) {
    if i == 0 {
        (1, 0, 0)
    } else if i == 1 {
        (-1, 0, 0)
    } else if i == 2 {
        (0, 0, -1)
    } else if i == 3 {
        (0, 0, 1)
    } else if i == 4 {
        (0, 1, 0)
    } else {
        (0, -1, 0)
    }
}

/// The odds against spreading to the `i`-th side: 300 sideways, 250 up or down.
pub open spec fn spread_factor(i: int) -> int {
    if i < 4 { 300 } else { 250 }
}

/// The `k`-th place of the cube around the fire: x and z from -1 to 1,
/// y from -1 to 4, x slowest and y fastest.
pub open spec fn cube_offset(k: int) -> (int, int, int) {
    (k / 18 - 1, k % 6 - 1, (k / 6) % 3 - 1)
}

/// The place of the cube that is the fire itself.
pub open spec fn is_cube_center(k: int) -> bool {
    k == 25
}

/// The odds against catching at a place `dy` above the fire: 100, and 100
/// more for each block above the first.
pub open spec fn cube_odds(dy: int) -> int {
    100 + if dy > 1 { (dy - 1) * 100 } else { 0 }
}

/// The chance that a place with burn chance `burn` catches from a fire of
/// age `age`, at the given difficulty.
pub open spec fn catch_chance(burn: int, difficulty: int, age: int) -> int {
    burn + 40 + (difficulty * 7) / (age + 30)
}

/// One try to spread to the `i`-th side: unless the block there holds a
/// fluid and if the spread draw is below its spread chance, it becomes fire
/// (when the catch draw is below 5) or air, and TNT there is primed; where
/// the plugins cancel the change (`cancelled`), nothing changes.
pub open spec fn spread_step(
    w: Seq<BlockInfo>,
    acts: Seq<FireAction>,
    i: int,
    age: int,
    roll: (u32, u32, u32),
    cancelled: bool,
) -> (Seq<BlockInfo>, Seq<FireAction>) {
    let (x, y, z) = spread_target(i);
    let b = cell(w, x, y, z);
    if b.has_fluid || roll.0 >= b.spread_chance || cancelled {
        (w, acts)
    } else {
        let nb = if roll.1 < 5 {
            fire_block(with_age(fire_shape_for(w, x, y, z), cap15(age + roll.2 / 4)))
        } else {
            air()
        };
        let w1 = set_cell(w, x, y, z, nb);
        let a1 = acts.push(FireAction::SetBlock { x: x as i32, y: y as i32, z: z as i32, block: nb });
        if b.kind == BlockKind::Tnt {
            (w1, a1.push(FireAction::PrimeTnt { x: x as i32, y: y as i32, z: z as i32 }))
        } else {
            (w1, a1)
        }
    }
}

/// The first `i` spreading tries.
pub open spec fn spread_steps(
    w: Seq<BlockInfo>,
    acts: Seq<FireAction>,
    age: int,
    rolls: Seq<(u32, u32, u32)>,
    cancels: Seq<bool>,
    i: nat,
) -> (Seq<BlockInfo>, Seq<FireAction>)
    decreases i,
{
    if i == 0 {
        (w, acts)
    } else {
        let (w1, a1) = spread_steps(w, acts, age, rolls, cancels, (i - 1) as nat);
        spread_step(w1, a1, i - 1, age, rolls[i - 1], cancels[i - 1])
    }
}

/// The catch at the `k`-th place of the cube: air there with a positive burn
/// chance becomes fire when the catch draw is at most the catch chance,
/// unless the plugins cancel the change (`cancelled`).
pub open spec fn cube_step(
    w: Seq<BlockInfo>,
    acts: Seq<FireAction>,
    k: int,
    age: int,
    difficulty: int,
    roll: (u32, u32),
    cancelled: bool,
) -> (Seq<BlockInfo>, Seq<FireAction>) {
    let (x, y, z) = cube_offset(k);
    let burn = burn_chance_at(w, x, y, z);
    if is_cube_center(k) || burn <= 0 || roll.0 > catch_chance(burn, difficulty, age) || cancelled {
        (w, acts)
    } else {
        let nb = fire_block(with_age(fire_shape_for(w, x, y, z), cap15(age + roll.1 / 4)));
        (
            set_cell(w, x, y, z, nb),
            acts.push(FireAction::SetBlock { x: x as i32, y: y as i32, z: z as i32, block: nb }),
        )
    }
}

/// The first `k` places of the cube.
pub open spec fn cube_steps(
    w: Seq<BlockInfo>,
    acts: Seq<FireAction>,
    age: int,
    difficulty: int,
    rolls: Seq<(u32, u32)>,
    cancels: Seq<bool>,
    k: nat,
) -> (Seq<BlockInfo>, Seq<FireAction>)
    decreases k,
{
    if k == 0 {
        (w, acts)
    } else {
        let (w1, a1) = cube_steps(w, acts, age, difficulty, rolls, cancels, (k - 1) as nat);
        cube_step(w1, a1, k - 1, age, difficulty, rolls[k - 1], cancels[k - 1])
    }
}

/// The fire's shape in `w`.
pub open spec fn origin_shape(w: Seq<BlockInfo>) -> FireShape {
    match cell(w, 0, 0, 0).kind {
        BlockKind::Fire(s) => s,
        _ => FireShape { age: 0, north: false, south: false, east: false, west: false, up: false },
    }
}

/// The fire put out: air at (0, 0, 0).
pub open spec fn put_out(w: Seq<BlockInfo>, acts: Seq<FireAction>) -> (Seq<BlockInfo>, Seq<FireAction>) {
    (set_cell(w, 0, 0, 0, air()), acts.push(FireAction::SetBlock { x: 0, y: 0, z: 0, block: air() }))
}

/// One scheduled tick of the fire at (0, 0, 0): the blocks after it and the
/// changes it makes, in order.
///
/// A fire that cannot stay goes out. Else the tick works with an age one
/// more than the stored one; when the age draw is 2 the fire is stored at
/// that age plus one (at most 15), else it keeps its stored age. With
/// nothing flammable around, it goes out over a solid floor and stops. A
/// fire whose working age is 15 goes out on a burn-out draw of 0 unless the
/// block below burns. Else it tries to spread to its six sides, then to
/// catch in the air of the cube around it, and ticks again 30 to 39 ticks
/// later. A spread or catch that the plugins cancel (`vetoes`) changes
/// nothing.
pub open spec fn fire_tick(w: Seq<BlockInfo>, difficulty: int, rolls: FireRolls, vetoes: FireVetoes) -> (Seq<BlockInfo>, Seq<FireAction>) {
    if !fire_can_stay(w, 0, 0, 0) {
        put_out(w, Seq::empty())
    } else {
        let age = origin_shape(w).age + 1;
        let (w1, a1) = fire_tick_aged(w, rolls);
        if !flammable_around(w1, 0, 0, 0) {
            if cell(w1, 0, -1, 0).side_solid_up {
                put_out(w1, a1)
            } else {
                (w1, a1)
            }
        } else if age == 15 && rolls.burn_out == 0 && !flammable_at(w1, 0, -1, 0) {
            put_out(w1, a1)
        } else {
            let (w2, a2) = spread_steps(w1, a1, age, rolls.spread@, vetoes.spread@, 6);
            let (w3, a3) = cube_steps(w2, a2, age, difficulty, rolls.cube@, vetoes.cube@, 54);
            if cell(w3, 0, 0, 0).kind is Fire {
                (w3, a3.push(FireAction::Schedule { delay: (30 + rolls.delay) as u8 }))
            } else {
                (w3, a3)
            }
        }
    }
}

/// Every fire in `w` is at most 15 old.
pub open spec fn ages_bounded(w: Seq<BlockInfo>) -> bool {
    forall|i: int| 0 <= i < w.len() ==> match #[trigger] w[i].kind {
        BlockKind::Fire(s) => s.age <= 15,
        _ => true,
    }
}

/// A region is whole, and holds a fire of age at most 15 at its centre.
pub open spec fn tick_ready(w: Seq<BlockInfo>) -> bool {
    &&& w.len() == REGION_LEN
    &&& cell(w, 0, 0, 0).kind is Fire
    &&& origin_shape(w).age <= 15
}

/// Every draw of `rolls` is below its bound for a fire that is `age` old
/// after aging.
pub open spec fn rolls_valid(rolls: FireRolls, age: int) -> bool {
    &&& rolls.age_step < 3
    &&& rolls.burn_out < 4
    &&& rolls.delay < 10
    &&& rolls.spread@.len() == 6
    &&& rolls.cube@.len() == 54
    &&& forall|i: int|
        0 <= i < 6 ==> {
            &&& (#[trigger] rolls.spread@[i]).0 < spread_factor(i)
            &&& rolls.spread@[i].1 < age + 10
            &&& rolls.spread@[i].2 < 5
        }
    &&& forall|k: int|
        0 <= k < 54 ==> {
            &&& (#[trigger] rolls.cube@[k]).0 < cube_odds(cube_offset(k).1)
            &&& rolls.cube@[k].1 < 5
        }
}

/// The fire block type.
pub struct FireBlock;

impl FireRegion {
    /// The region holds all 200 blocks.
    pub open spec fn wf(&self) -> bool {
        self.cells@.len() == REGION_LEN
    }

    /// The block at (x, y, z).
    pub fn at(&self, x: i32, y: i32, z: i32) -> (r: BlockInfo)
        requires
            self.wf(),
            in_region(x as int, y as int, z as int),
        ensures
            r == cell(self.cells@, x as int, y as int, z as int),
    {
        let i = ((x + 2) * 40 + (y + 2) * 5 + (z + 2)) as usize;
        self.cells[i]
    }

    /// Replaces the block at (x, y, z).
    pub fn set(&mut self, x: i32, y: i32, z: i32, b: BlockInfo)
        requires
            old(self).wf(),
            in_region(x as int, y as int, z as int),
        ensures
            final(self).cells@ == set_cell(old(self).cells@, x as int, y as int, z as int, b),
    {
        let i = ((x + 2) * 40 + (y + 2) * 5 + (z + 2)) as usize;
        self.cells.set(i, b);
    }
}

/// The air block.
pub fn air_block() -> (r: BlockInfo)
    ensures
        r == air(),
{
    BlockInfo {
        kind: BlockKind::Air,
        burn_chance: 0,
        spread_chance: 0,
        waterlogged: false,
        has_fluid: false,
        side_solid_up: false,
    }
}

/// A fire block of the given shape.
pub fn fire_block_of(s: FireShape) -> (r: BlockInfo)
    ensures
        r == fire_block(s),
{
    BlockInfo {
        kind: BlockKind::Fire(s),
        burn_chance: 0,
        spread_chance: 0,
        waterlogged: false,
        has_fluid: false,
        side_solid_up: false,
    }
}

/// The fuel a neighbour gives.
fn fuel_of(b: BlockInfo) -> (r: u32)
    ensures
        r == fuel(b),
{
    if b.has_fluid { 0 } else { b.burn_chance as u32 }
}

impl FireBlock {
    /// The ticks until a fire ticks again: 30 and a draw below 10.
    pub fn get_fire_tick_delay() -> (r: i32)
        ensures
            30 <= r < 40,
    {
        30 + random_below(10) as i32
    }

    /// Whether a block burns: it is not waterlogged and has a burn chance.
    pub fn is_flammable(block: &BlockInfo) -> (r: bool)
        ensures
            r == spec_is_flammable(*block),
    {
        !block.waterlogged && block.burn_chance > 0
    }

    /// Whether any of the six neighbours of (x, y, z) burns.
    pub fn are_blocks_around_flammable(&self, region: &FireRegion, x: i32, y: i32, z: i32) -> (r: bool)
        requires
            region.wf(),
            in_region(x + 1, y as int, z as int),
            in_region(x - 1, y as int, z as int),
            in_region(x as int, y + 1, z as int),
            in_region(x as int, y - 1, z as int),
            in_region(x as int, y as int, z + 1),
            in_region(x as int, y as int, z - 1),
        ensures
            r == flammable_around(region.cells@, x as int, y as int, z as int),
    {
        Self::is_flammable(&region.at(x + 1, y, z)) || Self::is_flammable(&region.at(x - 1, y, z))
            || Self::is_flammable(&region.at(x, y + 1, z)) || Self::is_flammable(
            &region.at(x, y - 1, z),
        ) || Self::is_flammable(&region.at(x, y, z + 1)) || Self::is_flammable(
            &region.at(x, y, z - 1),
        )
    }

    /// Whether fire can stay at (x, y, z): the block below has a solid top,
    /// or a neighbour burns.
    pub fn can_place_at(&self, region: &FireRegion, x: i32, y: i32, z: i32) -> (r: bool)
        requires
            region.wf(),
            in_region(x + 1, y as int, z as int),
            in_region(x - 1, y as int, z as int),
            in_region(x as int, y + 1, z as int),
            in_region(x as int, y - 1, z as int),
            in_region(x as int, y as int, z + 1),
            in_region(x as int, y as int, z - 1),
        ensures
            r == fire_can_stay(region.cells@, x as int, y as int, z as int),
    {
        if region.at(x, y - 1, z).side_solid_up {
            return true;
        }
        self.are_blocks_around_flammable(region, x, y, z)
    }

    /// The shape a new fire at (x, y, z) takes, of age 0.
    pub fn get_state_for_position(&self, region: &FireRegion, x: i32, y: i32, z: i32) -> (r: FireShape)
        requires
            region.wf(),
            in_region(x + 1, y as int, z as int),
            in_region(x - 1, y as int, z as int),
            in_region(x as int, y + 1, z as int),
            in_region(x as int, y - 1, z as int),
            in_region(x as int, y as int, z + 1),
            in_region(x as int, y as int, z - 1),
        ensures
            r == fire_shape_for(region.cells@, x as int, y as int, z as int),
    {
        let down = region.at(x, y - 1, z);
        if Self::is_flammable(&down) || down.side_solid_up {
            return FireShape { age: 0, north: false, south: false, east: false, west: false, up: false };
        }
        FireShape {
            age: 0,
            north: Self::is_flammable(&region.at(x, y, z - 1)),
            south: Self::is_flammable(&region.at(x, y, z + 1)),
            east: Self::is_flammable(&region.at(x + 1, y, z)),
            west: Self::is_flammable(&region.at(x - 1, y, z)),
            up: Self::is_flammable(&region.at(x, y + 1, z)),
        }
    }

    /// The chance that the block at (x, y, z) catches: 0 unless it is air,
    /// else the burn chances of its neighbours that hold no fluid, together.
    pub fn get_burn_chance(&self, region: &FireRegion, x: i32, y: i32, z: i32) -> (r: i32)
        requires
            region.wf(),
            in_region(x as int, y as int, z as int),
            in_region(x + 1, y as int, z as int),
            in_region(x - 1, y as int, z as int),
            in_region(x as int, y + 1, z as int),
            in_region(x as int, y - 1, z as int),
            in_region(x as int, y as int, z + 1),
            in_region(x as int, y as int, z - 1),
        ensures
            r == burn_chance_at(region.cells@, x as int, y as int, z as int),
    {
        match region.at(x, y, z).kind {
            BlockKind::Air => {},
            _ => {
                return 0;
            },
        }
        let total = fuel_of(region.at(x + 1, y, z)) + fuel_of(region.at(x - 1, y, z)) + fuel_of(
            region.at(x, y + 1, z),
        ) + fuel_of(region.at(x, y - 1, z)) + fuel_of(region.at(x, y, z + 1)) + fuel_of(
            region.at(x, y, z - 1),
        );
        total as i32
    }

    /// The block a fire becomes when a neighbour changes: while fire can
    /// stay, a fire of the shape for its place that keeps its age; else air.
    pub fn get_state_for_neighbor_update(&self, region: &FireRegion, age: u8) -> (r: BlockInfo)
        requires
            region.wf(),
        ensures
            r == (if fire_can_stay(region.cells@, 0, 0, 0) {
                fire_block(with_age(fire_shape_for(region.cells@, 0, 0, 0), age as int))
            } else {
                air()
            }),
    {
        if self.can_place_at(region, 0, 0, 0) {
            let shape = self.get_state_for_position(region, 0, 0, 0);
            fire_block_of(FireShape { age, ..shape })
        } else {
            air_block()
        }
    }
}

/// The `i`-th side that fire spreads to.
pub fn side_offset(i: usize) -> (r: (i32, i32, i32))
    requires
        i < 6,
    ensures
        r.0 == spread_target(i as int).0,
        r.1 == spread_target(i as int).1,
        r.2 == spread_target(i as int).2,
{
    if i == 0 {
        (1, 0, 0)
    } else if i == 1 {
        (-1, 0, 0)
    } else if i == 2 {
        (0, 0, -1)
    } else if i == 3 {
        (0, 0, 1)
    } else if i == 4 {
        (0, 1, 0)
    } else {
        (0, -1, 0)
    }
}

/// The `k`-th place of the cube around the fire.
pub fn cube_place(k: usize) -> (r: (i32, i32, i32))
    requires
        k < 54,
    ensures
        r.0 == cube_offset(k as int).0,
        r.1 == cube_offset(k as int).1,
        r.2 == cube_offset(k as int).2,
        -1 <= r.0 <= 1,
        -1 <= r.1 <= 4,
        -1 <= r.2 <= 1,
{
    ((k / 18) as i32 - 1, (k % 6) as i32 - 1, ((k / 6) % 3) as i32 - 1)
}

/// The odds against catching at a place `dy` above the fire.
fn cube_odds_of(dy: i32) -> (r: u32)
    requires
        -1 <= dy <= 4,
    ensures
        r == cube_odds(dy as int),
{
    if dy > 1 { 100 + ((dy - 1) as u32) * 100 } else { 100 }
}

/// The smaller of `a` and 15.
fn min15(a: u32) -> (r: u32)
    ensures
        r == cap15(a as int),
{
    if a < 15 { a } else { 15 }
}

impl FireBlock {
    /// One try to spread to the `i`-th side (east, west, north, south, up,
    /// down) of a fire that is `current_age` old, with its three draws;
    /// `cancelled` is whether the plugins cancel the spread or burn there.
    pub fn try_spreading_fire(
        &self,
        region: &mut FireRegion,
        actions: &mut Vec<FireAction>,
        i: usize,
        current_age: u16,
        roll: (u32, u32, u32),
        cancelled: bool,
    )
        requires
            old(region).wf(),
            i < 6,
        ensures
            final(region).wf(),
            (final(region).cells@, final(actions)@) == spread_step(
                old(region).cells@,
                old(actions)@,
                i as int,
                current_age as int,
                roll,
                cancelled,
            ),
            cancelled ==> final(region).cells@ == old(region).cells@ && final(actions)@ == old(
                actions,
            )@,
    {
        let (x, y, z) = side_offset(i);
        let b = region.at(x, y, z);
        if b.has_fluid || roll.0 >= b.spread_chance as u32 || cancelled {
            return;
        }
        let nb = if roll.1 < 5 {
            let shape = self.get_state_for_position(region, x, y, z);
            let age = min15(current_age as u32 + roll.2 / 4);
            fire_block_of(FireShape { age: age as u8, ..shape })
        } else {
            air_block()
        };
        region.set(x, y, z, nb);
        actions.push(FireAction::SetBlock { x, y, z, block: nb });
        if matches!(b.kind, BlockKind::Tnt) {
            actions.push(FireAction::PrimeTnt { x, y, z });
        }
    }

    /// The catch at the `k`-th place of the cube around a fire that is `age`
    /// old, with its two draws; `cancelled` is whether the plugins cancel
    /// the spread or burn there.
    pub fn try_catching_fire(
        &self,
        region: &mut FireRegion,
        actions: &mut Vec<FireAction>,
        k: usize,
        age: u16,
        difficulty: u8,
        roll: (u32, u32),
        cancelled: bool,
    )
        requires
            old(region).wf(),
            k < 54,
            age <= 16,
        ensures
            final(region).wf(),
            (final(region).cells@, final(actions)@) == cube_step(
                old(region).cells@,
                old(actions)@,
                k as int,
                age as int,
                difficulty as int,
                roll,
                cancelled,
            ),
            cancelled ==> final(region).cells@ == old(region).cells@ && final(actions)@ == old(
                actions,
            )@,
    {
        let (x, y, z) = cube_place(k);
        if k == 25 || cancelled {
            return;
        }
        let burn = self.get_burn_chance(region, x, y, z);
        if burn <= 0 {
            return;
        }
        let chance: i32 = burn + 40 + (difficulty as i32 * 7) / (age as i32 + 30);
        if roll.0 as i64 > chance as i64 {
            return;
        }
        let shape = self.get_state_for_position(region, x, y, z);
        let new_age = min15(age as u32 + roll.1 / 4);
        let nb = fire_block_of(FireShape { age: new_age as u8, ..shape });
        region.set(x, y, z, nb);
        actions.push(FireAction::SetBlock { x, y, z, block: nb });
    }

    /// Puts the fire out: air at (0, 0, 0).
    fn put_out_fire(region: &mut FireRegion, actions: &mut Vec<FireAction>)
        requires
            old(region).wf(),
        ensures
            final(region).wf(),
            (final(region).cells@, final(actions)@) == put_out(old(region).cells@, old(actions)@),
    {
        let a = air_block();
        region.set(0, 0, 0, a);
        actions.push(FireAction::SetBlock { x: 0, y: 0, z: 0, block: a });
    }

    /// One scheduled tick of the fire at the centre of `region`, with the
    /// given draws and the plugins' answers: the region is left as the tick
    /// leaves it, and the changes it made are returned in order.
    pub fn tick_with_rolls(
        &self,
        region: &mut FireRegion,
        difficulty: u8,
        rolls: &FireRolls,
        vetoes: &FireVetoes,
    ) -> (actions: Vec<FireAction>)
        requires
            tick_ready(old(region).cells@),
            rolls_valid(*rolls, origin_shape(old(region).cells@).age + 1),
            vetoes_valid(*vetoes),
        ensures
            final(region).wf(),
            (final(region).cells@, actions@) == fire_tick(
                old(region).cells@,
                difficulty as int,
                *rolls,
                *vetoes,
            ),
    {
        let mut actions: Vec<FireAction> = Vec::new();
        let ghost w0 = region.cells@;
        if !self.can_place_at(region, 0, 0, 0) {
            Self::put_out_fire(region, &mut actions);
            return actions;
        }
        let shape = match region.at(0, 0, 0).kind {
            BlockKind::Fire(s) => s,
            _ => FireShape { age: 0, north: false, south: false, east: false, west: false, up: false },
        };
        assert(shape == origin_shape(w0));
        let age: u16 = shape.age as u16 + 1;
        let new_age = min15(age as u32 + rolls.age_step / 2);
        if new_age != age as u32 {
            let nb = fire_block_of(FireShape { age: new_age as u8, ..shape });
            region.set(0, 0, 0, nb);
            actions.push(FireAction::SetBlock { x: 0, y: 0, z: 0, block: nb });
        }
        assert(actions@ =~= fire_tick_aged(w0, *rolls).1);
        assert(region.cells@ =~= fire_tick_aged(w0, *rolls).0);
        if !self.are_blocks_around_flammable(region, 0, 0, 0) {
            if region.at(0, -1, 0).side_solid_up {
                Self::put_out_fire(region, &mut actions);
            }
            return actions;
        }
        if age == 15 && rolls.burn_out == 0 && !Self::is_flammable(&region.at(0, -1, 0)) {
            Self::put_out_fire(region, &mut actions);
            return actions;
        }
        let ghost w1 = region.cells@;
        let ghost a1 = actions@;
        let mut i: usize = 0;
        while i < 6
            invariant
                region.wf(),
                i <= 6,
                rolls.spread@.len() == 6,
                vetoes.spread@.len() == 6,
                (region.cells@, actions@) == spread_steps(
                    w1,
                    a1,
                    age as int,
                    rolls.spread@,
                    vetoes.spread@,
                    i as nat,
                ),
            decreases 6 - i,
        {
            self.try_spreading_fire(region, &mut actions, i, age, rolls.spread[i], vetoes.spread[i]);
            i += 1;
        }
        let ghost w2 = region.cells@;
        let ghost a2 = actions@;
        let mut k: usize = 0;
        while k < 54
            invariant
                region.wf(),
                k <= 54,
                age <= 16,
                rolls.cube@.len() == 54,
                vetoes.cube@.len() == 54,
                (region.cells@, actions@) == cube_steps(
                    w2,
                    a2,
                    age as int,
                    difficulty as int,
                    rolls.cube@,
                    vetoes.cube@,
                    k as nat,
                ),
            decreases 54 - k,
        {
            self.try_catching_fire(
                region,
                &mut actions,
                k,
                age,
                difficulty,
                rolls.cube[k],
                vetoes.cube[k],
            );
            k += 1;
        }
        if matches!(region.at(0, 0, 0).kind, BlockKind::Fire(_)) {
            actions.push(FireAction::Schedule { delay: (30 + rolls.delay) as u8 });
        }
        actions
    }
}

/// Where a tick gets to its spreading tries, the region and the changes
/// then; `None` where the fire goes out or stays without spreading.
pub open spec fn spreading_start(w: Seq<BlockInfo>, rolls: FireRolls) -> Option<(Seq<BlockInfo>, Seq<FireAction>)> {
    if !fire_can_stay(w, 0, 0, 0) {
        None
    } else {
        let age = origin_shape(w).age + 1;
        let (w1, a1) = fire_tick_aged(w, rolls);
        if !flammable_around(w1, 0, 0, 0) {
            None
        } else if age == 15 && rolls.burn_out == 0 && !flammable_at(w1, 0, -1, 0) {
            None
        } else {
            Some((w1, a1))
        }
    }
}

/// The spreading try to the `i`-th side would change the block there, so
/// that the plugins are asked about it.
pub open spec fn spread_asks(w: Seq<BlockInfo>, i: int, roll: (u32, u32, u32)) -> bool {
    let (x, y, z) = spread_target(i);
    let b = cell(w, x, y, z);
    !b.has_fluid && roll.0 < b.spread_chance
}

/// The catch at the `k`-th place of the cube would set fire there, so that
/// the plugins are asked about it.
pub open spec fn cube_asks(w: Seq<BlockInfo>, k: int, age: int, difficulty: int, roll: (u32, u32)) -> bool {
    let (x, y, z) = cube_offset(k);
    let burn = burn_chance_at(w, x, y, z);
    !is_cube_center(k) && burn > 0 && roll.0 <= catch_chance(burn, difficulty, age)
}

/// The tries of a tick, with the answers `v`, that ask the plugins: `asks`
/// holds for each side and each place of the cube whether its try, in
/// the region as the tries before it left it, would change a block.
pub open spec fn questions_of(w: Seq<BlockInfo>, difficulty: int, rolls: FireRolls, v: FireVetoes, asks: FireVetoes) -> bool {
    &&& vetoes_valid(asks)
    &&& match spreading_start(w, rolls) {
        None => (forall|i: int| 0 <= i < 6 ==> !#[trigger] asks.spread@[i]) && (forall|k: int|
            0 <= k < 54 ==> !#[trigger] asks.cube@[k]),
        Some((w1, a1)) => {
            let age = origin_shape(w).age + 1;
            let (w2, a2) = spread_steps(w1, a1, age, rolls.spread@, v.spread@, 6);
            &&& forall|i: int|
                0 <= i < 6 ==> #[trigger] asks.spread@[i] == spread_asks(
                    spread_steps(w1, a1, age, rolls.spread@, v.spread@, i as nat).0,
                    i,
                    rolls.spread@[i],
                )
            &&& forall|k: int|
                0 <= k < 54 ==> #[trigger] asks.cube@[k] == cube_asks(
                    cube_steps(w2, a2, age, difficulty, rolls.cube@, v.cube@, k as nat).0,
                    k,
                    age,
                    difficulty,
                    rolls.cube@[k],
                )
        },
    }
}

/// Two sets of answers agree on every try that asks under the first.
pub open spec fn answers_agree(w: Seq<BlockInfo>, difficulty: int, rolls: FireRolls, v1: FireVetoes, v2: FireVetoes) -> bool {
    match spreading_start(w, rolls) {
        None => true,
        Some((w1, a1)) => {
            let age = origin_shape(w).age + 1;
            let (w2, a2) = spread_steps(w1, a1, age, rolls.spread@, v1.spread@, 6);
            &&& forall|i: int|
                0 <= i < 6 && spread_asks(
                    spread_steps(w1, a1, age, rolls.spread@, v1.spread@, i as nat).0,
                    i,
                    rolls.spread@[i],
                ) ==> #[trigger] v1.spread@[i] == v2.spread@[i]
            &&& forall|k: int|
                0 <= k < 54 && cube_asks(
                    cube_steps(w2, a2, age, difficulty, rolls.cube@, v1.cube@, k as nat).0,
                    k,
                    age,
                    difficulty,
                    rolls.cube@[k],
                ) ==> #[trigger] v1.cube@[k] == v2.cube@[k]
        },
    }
}

proof fn lemma_spread_steps_agree(
    w: Seq<BlockInfo>,
    acts: Seq<FireAction>,
    age: int,
    rolls: Seq<(u32, u32, u32)>,
    c1: Seq<bool>,
    c2: Seq<bool>,
    n: nat,
)
    requires
        n <= 6,
        rolls.len() == 6,
        c1.len() == 6,
        c2.len() == 6,
        forall|i: int|
            0 <= i < n && spread_asks(spread_steps(w, acts, age, rolls, c1, i as nat).0, i, rolls[i])
                ==> #[trigger] c1[i] == c2[i],
    ensures
        spread_steps(w, acts, age, rolls, c1, n) == spread_steps(w, acts, age, rolls, c2, n),
    decreases n,
{
    if n > 0 {
        let m = (n - 1) as nat;
        lemma_spread_steps_agree(w, acts, age, rolls, c1, c2, m);
        assert(c1[m as int] == c1[m as int]);
    }
}

proof fn lemma_cube_steps_agree(
    w: Seq<BlockInfo>,
    acts: Seq<FireAction>,
    age: int,
    difficulty: int,
    rolls: Seq<(u32, u32)>,
    c1: Seq<bool>,
    c2: Seq<bool>,
    n: nat,
)
    requires
        n <= 54,
        rolls.len() == 54,
        c1.len() == 54,
        c2.len() == 54,
        forall|k: int|
            0 <= k < n && cube_asks(cube_steps(w, acts, age, difficulty, rolls, c1, k as nat).0, k, age, difficulty, rolls[k])
                ==> #[trigger] c1[k] == c2[k],
    ensures
        cube_steps(w, acts, age, difficulty, rolls, c1, n) == cube_steps(w, acts, age, difficulty, rolls, c2, n),
    decreases n,
{
    if n > 0 {
        let m = (n - 1) as nat;
        lemma_cube_steps_agree(w, acts, age, difficulty, rolls, c1, c2, m);
        assert(c1[m as int] == c1[m as int]);
    }
}

/// An answer matters only where its try asks: a tick with answers that
/// agree on every try that asks comes out the same.
pub proof fn lemma_unasked_answers_change_nothing(
    w: Seq<BlockInfo>,
    difficulty: int,
    rolls: FireRolls,
    v1: FireVetoes,
    v2: FireVetoes,
)
    requires
        rolls_valid(rolls, origin_shape(w).age + 1),
        vetoes_valid(v1),
        vetoes_valid(v2),
        answers_agree(w, difficulty, rolls, v1, v2),
    ensures
        fire_tick(w, difficulty, rolls, v1) == fire_tick(w, difficulty, rolls, v2),
{
    match spreading_start(w, rolls) {
        None => {},
        Some((w1, a1)) => {
            let age = origin_shape(w).age + 1;
            lemma_spread_steps_agree(w1, a1, age, rolls.spread@, v1.spread@, v2.spread@, 6);
            let (w2, a2) = spread_steps(w1, a1, age, rolls.spread@, v1.spread@, 6);
            lemma_cube_steps_agree(w2, a2, age, difficulty, rolls.cube@, v1.cube@, v2.cube@, 54);
        },
    }
}

/// No try asks.
fn no_questions() -> (r: FireVetoes)
    ensures
        vetoes_valid(r),
        forall|i: int| 0 <= i < 6 ==> !#[trigger] r.spread@[i],
        forall|k: int| 0 <= k < 54 ==> !#[trigger] r.cube@[k],
{
    let mut spread: Vec<bool> = Vec::new();
    while spread.len() < 6
        invariant
            spread@.len() <= 6,
            forall|i: int| 0 <= i < spread@.len() ==> !#[trigger] spread@[i],
        decreases 6 - spread@.len(),
    {
        spread.push(false);
    }
    let mut cube: Vec<bool> = Vec::new();
    while cube.len() < 54
        invariant
            cube@.len() <= 54,
            forall|k: int| 0 <= k < cube@.len() ==> !#[trigger] cube@[k],
        decreases 54 - cube@.len(),
    {
        cube.push(false);
    }
    FireVetoes { spread, cube }
}

impl FireBlock {
    /// Whether the spreading try to the `i`-th side, with its draws, would
    /// change the block there.
    pub fn spread_would_change(&self, region: &FireRegion, i: usize, roll: (u32, u32, u32)) -> (r: bool)
        requires
            region.wf(),
            i < 6,
        ensures
            r == spread_asks(region.cells@, i as int, roll),
    {
        let (x, y, z) = side_offset(i);
        let b = region.at(x, y, z);
        !b.has_fluid && roll.0 < b.spread_chance as u32
    }

    /// Whether the catch at the `k`-th place of the cube around a fire that
    /// is `age` old, with its draws, would set fire there.
    pub fn catch_would_change(&self, region: &FireRegion, k: usize, age: u16, difficulty: u8, roll: (u32, u32)) -> (r: bool)
        requires
            region.wf(),
            k < 54,
            age <= 16,
        ensures
            r == cube_asks(region.cells@, k as int, age as int, difficulty as int, roll),
    {
        let (x, y, z) = cube_place(k);
        if k == 25 {
            return false;
        }
        let burn = self.get_burn_chance(region, x, y, z);
        if burn <= 0 {
            return false;
        }
        let chance: i32 = burn + 40 + (difficulty as i32 * 7) / (age as i32 + 30);
        roll.0 as i64 <= chance as i64
    }

    /// Which tries of the tick of the fire at the centre of `region`, with
    /// the given draws and answers, ask the plugins: the region is worked on
    /// as the tick would, and each try is looked at before it is made.
    pub fn fire_questions(&self, region: FireRegion, difficulty: u8, rolls: &FireRolls, vetoes: &FireVetoes) -> (asks: FireVetoes)
        requires
            tick_ready(region.cells@),
            rolls_valid(*rolls, origin_shape(region.cells@).age + 1),
            vetoes_valid(*vetoes),
        ensures
            questions_of(region.cells@, difficulty as int, *rolls, *vetoes, asks),
    {
        let ghost w0 = region.cells@;
        let mut region = region;
        let mut actions: Vec<FireAction> = Vec::new();
        if !self.can_place_at(&region, 0, 0, 0) {
            return no_questions();
        }
        let shape = match region.at(0, 0, 0).kind {
            BlockKind::Fire(s) => s,
            _ => FireShape { age: 0, north: false, south: false, east: false, west: false, up: false },
        };
        assert(shape == origin_shape(w0));
        let age: u16 = shape.age as u16 + 1;
        let new_age = min15(age as u32 + rolls.age_step / 2);
        if new_age != age as u32 {
            let nb = fire_block_of(FireShape { age: new_age as u8, ..shape });
            region.set(0, 0, 0, nb);
            actions.push(FireAction::SetBlock { x: 0, y: 0, z: 0, block: nb });
        }
        assert(actions@ =~= fire_tick_aged(w0, *rolls).1);
        assert(region.cells@ =~= fire_tick_aged(w0, *rolls).0);
        if !self.are_blocks_around_flammable(&region, 0, 0, 0) {
            return no_questions();
        }
        if age == 15 && rolls.burn_out == 0 && !Self::is_flammable(&region.at(0, -1, 0)) {
            return no_questions();
        }
        let ghost w1 = region.cells@;
        let ghost a1 = actions@;
        let mut spread: Vec<bool> = Vec::new();
        let mut i: usize = 0;
        while i < 6
            invariant
                region.wf(),
                i <= 6,
                spread@.len() == i,
                rolls.spread@.len() == 6,
                vetoes.spread@.len() == 6,
                (region.cells@, actions@) == spread_steps(w1, a1, age as int, rolls.spread@, vetoes.spread@, i as nat),
                forall|j: int|
                    0 <= j < i ==> #[trigger] spread@[j] == spread_asks(
                        spread_steps(w1, a1, age as int, rolls.spread@, vetoes.spread@, j as nat).0,
                        j,
                        rolls.spread@[j],
                    ),
            decreases 6 - i,
        {
            let q = self.spread_would_change(&region, i, rolls.spread[i]);
            spread.push(q);
            self.try_spreading_fire(&mut region, &mut actions, i, age, rolls.spread[i], vetoes.spread[i]);
            i += 1;
        }
        let ghost w2 = region.cells@;
        let ghost a2 = actions@;
        let mut cube: Vec<bool> = Vec::new();
        let mut k: usize = 0;
        while k < 54
            invariant
                region.wf(),
                k <= 54,
                age <= 16,
                cube@.len() == k,
                rolls.cube@.len() == 54,
                vetoes.cube@.len() == 54,
                (region.cells@, actions@) == cube_steps(w2, a2, age as int, difficulty as int, rolls.cube@, vetoes.cube@, k as nat),
                forall|j: int|
                    0 <= j < k ==> #[trigger] cube@[j] == cube_asks(
                        cube_steps(w2, a2, age as int, difficulty as int, rolls.cube@, vetoes.cube@, j as nat).0,
                        j,
                        age as int,
                        difficulty as int,
                        rolls.cube@[j],
                    ),
            decreases 54 - k,
        {
            let q = self.catch_would_change(&region, k, age, difficulty, rolls.cube[k]);
            cube.push(q);
            self.try_catching_fire(&mut region, &mut actions, k, age, difficulty, rolls.cube[k], vetoes.cube[k]);
            k += 1;
        }
        FireVetoes { spread, cube }
    }
}

/// A try the plugins are asked about: spreading to a side, or catching at
/// a place of the cube.
#[derive(Clone, Copy, Debug, PartialEq, Eq)]
pub enum FireQuestion {
    Spread(usize),
    Cube(usize),
}

/// The next try to ask the plugins about: the first, spreading tries
/// before the cube in their order, that asks and is not `answered` yet;
/// `None` once every try that asks is answered.
pub fn next_fire_question(asks: &FireVetoes, answered: &FireVetoes) -> (r: Option<FireQuestion>)
    requires
        vetoes_valid(*asks),
        vetoes_valid(*answered),
    ensures
        match r {
            None => (forall|i: int| 0 <= i < 6 && #[trigger] asks.spread@[i] ==> answered.spread@[i])
                && (forall|k: int| 0 <= k < 54 && #[trigger] asks.cube@[k] ==> answered.cube@[k]),
            Some(FireQuestion::Spread(i)) => i < 6 && asks.spread@[i as int] && !answered.spread@[i as int]
                && forall|j: int| 0 <= j < i && #[trigger] asks.spread@[j] ==> answered.spread@[j],
            Some(FireQuestion::Cube(k)) => k < 54 && asks.cube@[k as int] && !answered.cube@[k as int]
                && (forall|i: int| 0 <= i < 6 && #[trigger] asks.spread@[i] ==> answered.spread@[i])
                && forall|j: int| 0 <= j < k && #[trigger] asks.cube@[j] ==> answered.cube@[j],
        },
{
    let mut i: usize = 0;
    while i < 6
        invariant
            i <= 6,
            asks.spread@.len() == 6,
            answered.spread@.len() == 6,
            forall|j: int| 0 <= j < i && #[trigger] asks.spread@[j] ==> answered.spread@[j],
        decreases 6 - i,
    {
        if asks.spread[i] && !answered.spread[i] {
            return Some(FireQuestion::Spread(i));
        }
        i += 1;
    }
    let mut k: usize = 0;
    while k < 54
        invariant
            k <= 54,
            asks.cube@.len() == 54,
            answered.cube@.len() == 54,
            asks.spread@.len() == 6,
            answered.spread@.len() == 6,
            forall|i: int| 0 <= i < 6 && #[trigger] asks.spread@[i] ==> answered.spread@[i],
            forall|j: int| 0 <= j < k && #[trigger] asks.cube@[j] ==> answered.cube@[j],
        decreases 54 - k,
    {
        if asks.cube[k] && !answered.cube[k] {
            return Some(FireQuestion::Cube(k));
        }
        k += 1;
    }
    None
}

/// The blocks and changes after a placeable fire has aged.
pub open spec fn fire_tick_aged(w: Seq<BlockInfo>, rolls: FireRolls) -> (Seq<BlockInfo>, Seq<FireAction>) {
    let shape = origin_shape(w);
    let age = shape.age + 1;
    let new_age = cap15(age + rolls.age_step / 2);
    if new_age != age {
        let nb = fire_block(with_age(shape, new_age));
        (set_cell(w, 0, 0, 0, nb), seq![FireAction::SetBlock { x: 0, y: 0, z: 0, block: nb }])
    } else {
        (w, Seq::empty())
    }
}

/// Draws the rolls of one tick for a fire that is `age` old after aging.
pub fn draw_fire_rolls(age: u16) -> (r: FireRolls)
    requires
        1 <= age <= 16,
    ensures
        rolls_valid(r, age as int),
{
    let age_step = random_below(3);
    let burn_out = random_below(4);
    let mut spread: Vec<(u32, u32, u32)> = Vec::new();
    let mut i: usize = 0;
    while i < 6
        invariant
            i <= 6,
            spread@.len() == i,
            1 <= age <= 16,
            forall|j: int|
                0 <= j < i ==> {
                    &&& (#[trigger] spread@[j]).0 < spread_factor(j)
                    &&& spread@[j].1 < age + 10
                    &&& spread@[j].2 < 5
                },
        decreases 6 - i,
    {
        let factor: u32 = if i < 4 { 300 } else { 250 };
        let a = random_below(factor);
        let b = random_below(age as u32 + 10);
        let c = random_below(5);
        spread.push((a, b, c));
        i += 1;
    }
    let mut cube: Vec<(u32, u32)> = Vec::new();
    let mut k: usize = 0;
    while k < 54
        invariant
            k <= 54,
            cube@.len() == k,
            forall|j: int|
                0 <= j < k ==> {
                    &&& (#[trigger] cube@[j]).0 < cube_odds(cube_offset(j).1)
                    &&& cube@[j].1 < 5
                },
        decreases 54 - k,
    {
        let (_, dy, _) = cube_place(k);
        let a = random_below(cube_odds_of(dy));
        let b = random_below(5);
        cube.push((a, b));
        k += 1;
    }
    let delay = random_below(10);
    FireRolls { age_step, burn_out, spread, cube, delay }
}

impl FireBlock {
    /// One scheduled tick of the fire at the centre of `region`, with the
    /// plugins' answers `vetoes`: the draws are made, and the region and
    /// the changes are as `fire_tick` gives them for those draws.
    pub fn on_scheduled_tick(&self, region: &mut FireRegion, difficulty: u8, vetoes: &FireVetoes) -> (actions: Vec<FireAction>)
        requires
            tick_ready(old(region).cells@),
            vetoes_valid(*vetoes),
        ensures
            final(region).wf(),
            exists|rolls: FireRolls|
                rolls_valid(rolls, origin_shape(old(region).cells@).age + 1) && (
                final(region).cells@,
                actions@,
            ) == #[trigger] fire_tick(old(region).cells@, difficulty as int, rolls, *vetoes),
    {
        let ghost w0 = region.cells@;
        let shape = match region.at(0, 0, 0).kind {
            BlockKind::Fire(s) => s,
            _ => FireShape { age: 0, north: false, south: false, east: false, west: false, up: false },
        };
        let rolls = draw_fire_rolls(shape.age as u16 + 1);
        let actions = self.tick_with_rolls(region, difficulty, &rolls, vetoes);
        assert(fire_tick(w0, difficulty as int, rolls, *vetoes) == (region.cells@, actions@));
        actions
    }
}

/// A block that a fire tick may write: air, or a fire of age at most 15.
pub open spec fn fresh_block(b: BlockInfo) -> bool {
    match b.kind {
        BlockKind::Air => b == air(),
        BlockKind::Fire(s) => b == fire_block(s) && s.age <= 15,
        _ => false,
    }
}

/// Every block that `acts` sets is air or a fire of age at most 15.
pub open spec fn sets_fresh(acts: Seq<FireAction>) -> bool {
    forall|i: int|
        0 <= i < acts.len() ==> match #[trigger] acts[i] {
            FireAction::SetBlock { block, .. } => fresh_block(block),
            _ => true,
        }
}

proof fn lemma_set_fresh(w: Seq<BlockInfo>, acts: Seq<FireAction>, x: int, y: int, z: int, b: BlockInfo)
    requires
        w.len() == REGION_LEN,
        in_region(x, y, z),
        ages_bounded(w),
        sets_fresh(acts),
        fresh_block(b),
    ensures
        set_cell(w, x, y, z, b).len() == REGION_LEN,
        ages_bounded(set_cell(w, x, y, z, b)),
        sets_fresh(acts.push(FireAction::SetBlock { x: x as i32, y: y as i32, z: z as i32, block: b })),
{
    let w1 = set_cell(w, x, y, z, b);
    assert forall|i: int| 0 <= i < w1.len() implies match #[trigger] w1[i].kind {
        BlockKind::Fire(s) => s.age <= 15,
        _ => true,
    } by {
        if i != region_index(x, y, z) {
            assert(w1[i] == w[i]);
        }
    }
    let a1 = acts.push(FireAction::SetBlock { x: x as i32, y: y as i32, z: z as i32, block: b });
    assert forall|i: int| 0 <= i < a1.len() implies match #[trigger] a1[i] {
        FireAction::SetBlock { block, .. } => fresh_block(block),
        _ => true,
    } by {
        if i < acts.len() {
            assert(a1[i] == acts[i]);
        }
    }
}

proof fn lemma_spread_step_fresh(
    w: Seq<BlockInfo>,
    acts: Seq<FireAction>,
    i: int,
    age: int,
    roll: (u32, u32, u32),
    c: bool,
)
    requires
        w.len() == REGION_LEN,
        0 <= i < 6,
        age >= 0,
        ages_bounded(w),
        sets_fresh(acts),
    ensures
        spread_step(w, acts, i, age, roll, c).0.len() == REGION_LEN,
        ages_bounded(spread_step(w, acts, i, age, roll, c).0),
        sets_fresh(spread_step(w, acts, i, age, roll, c).1),
{
    let (x, y, z) = spread_target(i);
    let b = cell(w, x, y, z);
    if !(b.has_fluid || roll.0 >= b.spread_chance || c) {
        let nb = if roll.1 < 5 {
            fire_block(with_age(fire_shape_for(w, x, y, z), cap15(age + roll.2 / 4)))
        } else {
            air()
        };
        lemma_set_fresh(w, acts, x, y, z, nb);
        let a1 = acts.push(FireAction::SetBlock { x: x as i32, y: y as i32, z: z as i32, block: nb });
        let a2 = a1.push(FireAction::PrimeTnt { x: x as i32, y: y as i32, z: z as i32 });
        assert forall|j: int| 0 <= j < a2.len() implies match #[trigger] a2[j] {
            FireAction::SetBlock { block, .. } => fresh_block(block),
            _ => true,
        } by {
            if j < a1.len() {
                assert(a2[j] == a1[j]);
            }
        }
    }
}

proof fn lemma_spread_steps_fresh(
    w: Seq<BlockInfo>,
    acts: Seq<FireAction>,
    age: int,
    rolls: Seq<(u32, u32, u32)>,
    cancels: Seq<bool>,
    i: nat,
)
    requires
        w.len() == REGION_LEN,
        i <= 6,
        age >= 0,
        ages_bounded(w),
        sets_fresh(acts),
    ensures
        spread_steps(w, acts, age, rolls, cancels, i).0.len() == REGION_LEN,
        ages_bounded(spread_steps(w, acts, age, rolls, cancels, i).0),
        sets_fresh(spread_steps(w, acts, age, rolls, cancels, i).1),
    decreases i,
{
    if i > 0 {
        lemma_spread_steps_fresh(w, acts, age, rolls, cancels, (i - 1) as nat);
        let (w1, a1) = spread_steps(w, acts, age, rolls, cancels, (i - 1) as nat);
        lemma_spread_step_fresh(w1, a1, i - 1, age, rolls[i - 1], cancels[i - 1]);
    }
}

proof fn lemma_cube_step_fresh(
    w: Seq<BlockInfo>,
    acts: Seq<FireAction>,
    k: int,
    age: int,
    difficulty: int,
    roll: (u32, u32),
    c: bool,
)
    requires
        w.len() == REGION_LEN,
        0 <= k < 54,
        age >= 0,
        ages_bounded(w),
        sets_fresh(acts),
    ensures
        cube_step(w, acts, k, age, difficulty, roll, c).0.len() == REGION_LEN,
        ages_bounded(cube_step(w, acts, k, age, difficulty, roll, c).0),
        sets_fresh(cube_step(w, acts, k, age, difficulty, roll, c).1),
{
    let (x, y, z) = cube_offset(k);
    let burn = burn_chance_at(w, x, y, z);
    if !(is_cube_center(k) || burn <= 0 || roll.0 > catch_chance(burn, difficulty, age) || c) {
        let nb = fire_block(with_age(fire_shape_for(w, x, y, z), cap15(age + roll.1 / 4)));
        lemma_set_fresh(w, acts, x, y, z, nb);
    }
}

proof fn lemma_cube_steps_fresh(
    w: Seq<BlockInfo>,
    acts: Seq<FireAction>,
    age: int,
    difficulty: int,
    rolls: Seq<(u32, u32)>,
    cancels: Seq<bool>,
    k: nat,
)
    requires
        w.len() == REGION_LEN,
        k <= 54,
        age >= 0,
        ages_bounded(w),
        sets_fresh(acts),
    ensures
        cube_steps(w, acts, age, difficulty, rolls, cancels, k).0.len() == REGION_LEN,
        ages_bounded(cube_steps(w, acts, age, difficulty, rolls, cancels, k).0),
        sets_fresh(cube_steps(w, acts, age, difficulty, rolls, cancels, k).1),
    decreases k,
{
    if k > 0 {
        lemma_cube_steps_fresh(w, acts, age, difficulty, rolls, cancels, (k - 1) as nat);
        let (w1, a1) = cube_steps(w, acts, age, difficulty, rolls, cancels, (k - 1) as nat);
        lemma_cube_step_fresh(w1, a1, k - 1, age, difficulty, rolls[k - 1], cancels[k - 1]);
    }
}

/// A fire tick keeps every fire in the region at most 15 old, and every
/// block it sets is air or a fire: fire never turns a block into anything
/// else.
pub proof fn lemma_tick_keeps_fire_ages_bounded(
    w: Seq<BlockInfo>,
    difficulty: int,
    rolls: FireRolls,
    vetoes: FireVetoes,
)
    requires
        tick_ready(w),
        ages_bounded(w),
    ensures
        fire_tick(w, difficulty, rolls, vetoes).0.len() == REGION_LEN,
        ages_bounded(fire_tick(w, difficulty, rolls, vetoes).0),
        sets_fresh(fire_tick(w, difficulty, rolls, vetoes).1),
{
    let empty = Seq::<FireAction>::empty();
    if !fire_can_stay(w, 0, 0, 0) {
        lemma_set_fresh(w, empty, 0, 0, 0, air());
    } else {
        let shape = origin_shape(w);
        let age = shape.age + 1;
        let new_age = cap15(age + rolls.age_step / 2);
        let (w1, a1) = fire_tick_aged(w, rolls);
        if new_age != age {
            lemma_set_fresh(w, empty, 0, 0, 0, fire_block(with_age(shape, new_age)));
            assert(a1 =~= empty.push(
                FireAction::SetBlock { x: 0, y: 0, z: 0, block: fire_block(with_age(shape, new_age)) },
            ));
        }
        assert(ages_bounded(w1) && sets_fresh(a1) && w1.len() == REGION_LEN);
        if !flammable_around(w1, 0, 0, 0) {
            if cell(w1, 0, -1, 0).side_solid_up {
                lemma_set_fresh(w1, a1, 0, 0, 0, air());
            }
        } else if age == 15 && rolls.burn_out == 0 && !flammable_at(w1, 0, -1, 0) {
            lemma_set_fresh(w1, a1, 0, 0, 0, air());
        } else {
            lemma_spread_steps_fresh(w1, a1, age, rolls.spread@, vetoes.spread@, 6);
            let (w2, a2) = spread_steps(w1, a1, age, rolls.spread@, vetoes.spread@, 6);
            lemma_cube_steps_fresh(w2, a2, age, difficulty, rolls.cube@, vetoes.cube@, 54);
            let (w3, a3) = cube_steps(w2, a2, age, difficulty, rolls.cube@, vetoes.cube@, 54);
            let a4 = a3.push(FireAction::Schedule { delay: (30 + rolls.delay) as u8 });
            assert forall|j: int| 0 <= j < a4.len() implies match #[trigger] a4[j] {
                FireAction::SetBlock { block, .. } => fresh_block(block),
                _ => true,
            } by {
                if j < a3.len() {
                    assert(a4[j] == a3[j]);
                }
            }
        }
    }
}

/// Where the plugins cancel every spread and catch, the tries around a fire
/// change nothing: neither the blocks nor the changes made so far.
pub proof fn lemma_cancelled_tries_change_nothing(
    w: Seq<BlockInfo>,
    acts: Seq<FireAction>,
    age: int,
    difficulty: int,
    spread_rolls: Seq<(u32, u32, u32)>,
    cube_rolls: Seq<(u32, u32)>,
    spread_cancels: Seq<bool>,
    cube_cancels: Seq<bool>,
    i: nat,
    k: nat,
)
    requires
        i <= spread_cancels.len(),
        k <= cube_cancels.len(),
        forall|j: int| 0 <= j < spread_cancels.len() ==> spread_cancels[j],
        forall|j: int| 0 <= j < cube_cancels.len() ==> cube_cancels[j],
    ensures
        spread_steps(w, acts, age, spread_rolls, spread_cancels, i) == (w, acts),
        cube_steps(w, acts, age, difficulty, cube_rolls, cube_cancels, k) == (w, acts),
    decreases i + k,
{
    if i > 0 {
        lemma_cancelled_tries_change_nothing(
            w,
            acts,
            age,
            difficulty,
            spread_rolls,
            cube_rolls,
            spread_cancels,
            cube_cancels,
            (i - 1) as nat,
            k,
        );
    }
    if k > 0 {
        lemma_cancelled_tries_change_nothing(
            w,
            acts,
            age,
            difficulty,
            spread_rolls,
            cube_rolls,
            spread_cancels,
            cube_cancels,
            i,
            (k - 1) as nat,
        );
    }
}

/// What fire reads and changes of an entity that touches it.
#[derive(Clone, Copy, Debug, PartialEq, Eq)]
pub struct BurningEntity {
    /// The entity's kind never burns.
    pub type_fire_immune: bool,
    /// The entity itself is immune to fire for now.
    pub fire_immune: bool,
    pub is_player: bool,
    /// Ticks the entity burns for; below zero, ticks left before it catches.
    pub fire_ticks: i32,
}

/// The fire ticks of an entity after touching fire, with `extra` the
/// draw (1 or 2) a player's ticks grow by: an entity that was about to
/// catch comes one tick closer, a burning player burns `extra` ticks
/// longer; then one that burns burns at least 160 ticks (8 seconds),
/// unless it is immune for now. An entity whose kind never burns is left
/// as it is.
pub open spec fn fire_contact_ticks(e: BurningEntity, extra: int) -> int {
    if e.type_fire_immune {
        e.fire_ticks as int
    } else {
        let t = if e.fire_ticks < 0 {
            e.fire_ticks + 1
        } else if e.is_player {
            e.fire_ticks + extra
        } else {
            e.fire_ticks as int
        };
        if t >= 0 && !e.fire_immune && t < 160 {
            160
        } else {
            t
        }
    }
}

impl FireBlock {
    /// An entity touches fire, with `extra` (1 or 2) the draw by which a
    /// burning player's ticks grow.
    pub fn entity_touches_fire(&self, entity: &mut BurningEntity, extra: u32)
        requires
            1 <= extra <= 2,
            old(entity).fire_ticks <= i32::MAX - 2,
        ensures
            final(entity).fire_ticks == fire_contact_ticks(*old(entity), extra as int),
            final(entity).type_fire_immune == old(entity).type_fire_immune,
            final(entity).fire_immune == old(entity).fire_immune,
            final(entity).is_player == old(entity).is_player,
    {
        if entity.type_fire_immune {
            return;
        }
        let ticks = entity.fire_ticks;
        if ticks < 0 {
            entity.fire_ticks = ticks + 1;
        } else if entity.is_player {
            entity.fire_ticks = ticks + extra as i32;
        }
        if entity.fire_ticks >= 0 && !entity.fire_immune && entity.fire_ticks < 160 {
            entity.fire_ticks = 160;
        }
    }

    /// An entity touches fire; a burning player's ticks grow by 1 or 2,
    /// drawn at random.
    pub fn on_entity_collision(&self, entity: &mut BurningEntity)
        requires
            old(entity).fire_ticks <= i32::MAX - 2,
        ensures
            final(entity).fire_ticks == fire_contact_ticks(*old(entity), 1)
                || final(entity).fire_ticks == fire_contact_ticks(*old(entity), 2),
            final(entity).type_fire_immune == old(entity).type_fire_immune,
            final(entity).fire_immune == old(entity).fire_immune,
            final(entity).is_player == old(entity).is_player,
    {
        let extra = random_below(2) + 1;
        self.entity_touches_fire(entity, extra);
    }
}

} // verus!
