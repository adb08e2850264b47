//! Bamboo: how a stalk is placed, how it grows a block at a time with its
//! leaves thinning out below, and how bone meal makes it grow, played out
//! on the column of blocks the stalk stands in.
//!
//! A column holds the blocks from 18 below the bamboo in question to 21
//! above it; the bamboo itself is at height 0.

use vstd::prelude::*;

use crate::chance::random_below;

verus! {

/// The leaves on a bamboo block.
#[derive(Clone, Copy, Debug, PartialEq, Eq)]
pub enum BambooLeaves {
    NoLeaves,
    Small,
    Large,
}

/// The state of a bamboo block: its age (0 thin, 1 thick), its leaves, and
/// its stage (1 once it has stopped growing).
#[derive(Clone, Copy, Debug, PartialEq, Eq)]
pub struct BambooProps {
    pub age: u8,
    pub leaves: BambooLeaves,
    pub stage: u8,
}

/// The kinds of block the bamboo rules tell apart.
#[derive(Clone, Copy, Debug, PartialEq, Eq)]
pub enum ColumnKind {
    Bamboo(BambooProps),
    Sapling,
    Air,
    Other,
}

/// A block of the column: its kind, and whether bamboo can be planted on it.
#[derive(Clone, Copy, Debug, PartialEq, Eq)]
pub struct ColumnBlock {
    pub kind: ColumnKind,
    pub plantable_on: bool,
}

/// The blocks of one column.
pub struct BambooColumn {
    pub cells: Vec<ColumnBlock>,
}

/// The number of blocks in a column.
pub const COLUMN_LEN: usize = 40;

/// Where height `y` is kept in a column.
pub open spec fn col_index(y: int) -> int {
    y + 18
}

/// Whether height `y` lies in a column.
pub open spec fn in_column(y: int) -> bool {
    -18 <= y <= 21
}

/// The block at height `y`.
pub open spec fn col_at(c: Seq<ColumnBlock>, y: int) -> ColumnBlock {
    c[col_index(y)]
}

/// Whether the block at height `y` is bamboo.
pub open spec fn is_bamboo_at(c: Seq<ColumnBlock>, y: int) -> bool {
    col_at(c, y).kind is Bamboo
}

/// The bamboo state at height `y`; a block that is not bamboo reads as a
/// young stalk without leaves.
pub open spec fn props_at(c: Seq<ColumnBlock>, y: int) -> BambooProps {
    match col_at(c, y).kind {
        ColumnKind::Bamboo(p) => p,
        _ => BambooProps { age: 0, leaves: BambooLeaves::NoLeaves, stage: 0 },
    }
}

/// A bamboo block of the given state.
pub open spec fn bamboo_block(p: BambooProps) -> ColumnBlock {
    ColumnBlock { kind: ColumnKind::Bamboo(p), plantable_on: true }
}

/// The state of a new bamboo block.
pub open spec fn default_props() -> BambooProps {
    BambooProps { age: 0, leaves: BambooLeaves::NoLeaves, stage: 0 }
}

/// The number of bamboo blocks in a row going from height `y` in steps of
/// `step` (1 up, -1 down), at most `limit`.
pub open spec fn bamboo_run(c: Seq<ColumnBlock>, y: int, step: int, limit: nat) -> nat
    decreases limit,
{
    if limit == 0 || !is_bamboo_at(c, y) {
        0
    } else {
        1 + bamboo_run(c, y + step, step, (limit - 1) as nat)
    }
}

/// The bamboo blocks right below height 0, at most 16.
pub open spec fn count_below(c: Seq<ColumnBlock>) -> nat {
    bamboo_run(c, -1, -1, 16)
}

/// The bamboo blocks right above height 0, at most 16.
pub open spec fn count_above(c: Seq<ColumnBlock>) -> nat {
    bamboo_run(c, 1, 1, 16)
}

/// `c` with the block at height `y` replaced by `b`.
pub open spec fn col_set(c: Seq<ColumnBlock>, y: int, b: ColumnBlock) -> Seq<ColumnBlock> {
    c.update(col_index(y), b)
}

/// The stalk at height 0 grows one block, with `tall` the chance draw that
/// decides whether a stalk of 11 to 14 keeps growing.
///
/// Nothing happens unless the block above is air, the stalk at 0 still
/// grows (stage 0) and fewer than 16 bamboo stand below it. The new block
/// takes the stalk's leaves, or with bamboo below: large leaves where the
/// block below has leaves, else small; with large leaves over two bamboo,
/// the block below gets small leaves and the one below that none. The new
/// block is thick unless the stalk is thin over two bamboo, and it stops
/// growing at 15 below it, or from 11 below on a failed draw.
pub open spec fn grow_step(c: Seq<ColumnBlock>, tall: bool) -> Seq<ColumnBlock> {
    let props = props_at(c, 0);
    let count = count_below(c);
    if col_at(c, 1).kind != ColumnKind::Air || props.stage != 0 || count >= 16 {
        c
    } else {
        let two_below_bamboo = is_bamboo_at(c, -2);
        let leaves = if count >= 1 {
            if !is_bamboo_at(c, -1) || props_at(c, -1).leaves == BambooLeaves::NoLeaves {
                BambooLeaves::Small
            } else {
                BambooLeaves::Large
            }
        } else {
            props.leaves
        };
        let c1 = if count >= 1 && leaves == BambooLeaves::Large && two_below_bamboo {
            let c0 = col_set(
                c,
                -1,
                ColumnBlock {
                    kind: ColumnKind::Bamboo(BambooProps { leaves: BambooLeaves::Small, ..props_at(c, -1) }),
                    ..col_at(c, -1)
                },
            );
            col_set(
                c0,
                -2,
                ColumnBlock {
                    kind: ColumnKind::Bamboo(BambooProps { leaves: BambooLeaves::NoLeaves, ..props_at(c, -2) }),
                    ..col_at(c, -2)
                },
            )
        } else {
            c
        };
        let age: u8 = if props.age != 1 && two_below_bamboo { 0 } else { 1 };
        let stage: u8 = if (count < 11 || tall) && count != 15 { 0 } else { 1 };
        col_set(
            c1,
            1,
            ColumnBlock {
                kind: ColumnKind::Bamboo(BambooProps { age, leaves, stage }),
                ..col_at(c, 0)
            },
        )
    }
}

/// The heights bone meal would grow the stalk to, for `l` tries: from the
/// block as many above as there is bamboo above, while it is air, the
/// stalk stays below 16 and the block there has not stopped growing.
pub open spec fn candidates(c: Seq<ColumnBlock>, l: nat) -> Seq<int>
    decreases l,
{
    candidates_from(c, count_above(c) as int, (count_above(c) + count_below(c) + 1) as int, l)
}

/// The heights from height `y` on, with the stalk `height` tall, for `l`
/// tries.
pub open spec fn candidates_from(c: Seq<ColumnBlock>, y: int, height: int, l: nat) -> Seq<int>
    decreases l,
{
    if l == 0 || col_at(c, y).kind != ColumnKind::Air || height >= 16 || props_at(c, y).stage == 1 {
        Seq::empty()
    } else {
        seq![y] + candidates_from(c, y + 1, height + 1, (l - 1) as nat)
    }
}

/// Bone meal's growth, for `l` tries from height `y` with the stalk
/// `height` tall: each try that finds air at `y` (allowed, where a list of
/// allowed heights is given), the stalk below 16 and that block still
/// growing, grows the stalk at 0 one step.
pub open spec fn meal_steps(
    c: Seq<ColumnBlock>,
    y: int,
    height: int,
    l: nat,
    allowed: Option<Seq<i32>>,
    tall: Seq<bool>,
) -> Seq<ColumnBlock>
    decreases l,
{
    if l == 0 || col_at(c, y).kind != ColumnKind::Air || height >= 16 || props_at(c, y).stage == 1
        || (allowed is Some && !allowed->0.contains(y as i32)) {
        c
    } else {
        meal_steps(grow_step(c, tall[0]), y + 1, height + 1, (l - 1) as nat, allowed, tall.drop_first())
    }
}

/// Bone meal on the stalk at height 0 with `l` tries.
pub open spec fn meal(c: Seq<ColumnBlock>, l: nat, allowed: Option<Seq<i32>>, tall: Seq<bool>) -> Seq<ColumnBlock> {
    meal_steps(c, count_above(c) as int, (count_above(c) + count_below(c) + 1) as int, l, allowed, tall)
}

/// What placing bamboo at height 0 puts there: on a block bamboo cannot
/// grow on, air; on a sapling, new bamboo; on bamboo, new bamboo that is
/// thick when the bamboo below is; else, under bamboo, bamboo of that age,
/// and otherwise a sapling.
pub open spec fn placed_kind(c: Seq<ColumnBlock>) -> ColumnKind {
    let below = col_at(c, -1);
    if !below.plantable_on {
        ColumnKind::Air
    } else if below.kind == ColumnKind::Sapling {
        ColumnKind::Bamboo(default_props())
    } else if below.kind is Bamboo {
        ColumnKind::Bamboo(
            BambooProps { age: if props_at(c, -1).age > 0 { 1 } else { 0 }, ..default_props() },
        )
    } else if is_bamboo_at(c, 1) {
        ColumnKind::Bamboo(BambooProps { age: props_at(c, 1).age, ..default_props() })
    } else {
        ColumnKind::Sapling
    }
}

impl BambooColumn {
    /// The column holds all its blocks.
    pub open spec fn wf(&self) -> bool {
        self.cells@.len() == COLUMN_LEN
    }

    /// The block at height `y`.
    pub fn at(&self, y: i32) -> (r: ColumnBlock)
        requires
            self.wf(),
            in_column(y as int),
        ensures
            r == col_at(self.cells@, y as int),
    {
        self.cells[(y + 18) as usize]
    }

    /// Replaces the block at height `y`.
    pub fn set(&mut self, y: i32, b: ColumnBlock)
        requires
            old(self).wf(),
            in_column(y as int),
        ensures
            final(self).wf(),
            final(self).cells@ == col_set(old(self).cells@, y as int, b),
    {
        self.cells.set((y + 18) as usize, b);
    }

    /// The bamboo state at height `y`.
    pub fn props(&self, y: i32) -> (r: BambooProps)
        requires
            self.wf(),
            in_column(y as int),
        ensures
            r == props_at(self.cells@, y as int),
    {
        match self.at(y).kind {
            ColumnKind::Bamboo(p) => p,
            _ => BambooProps { age: 0, leaves: BambooLeaves::NoLeaves, stage: 0 },
        }
    }

    /// Whether the block at height `y` is bamboo.
    pub fn is_bamboo(&self, y: i32) -> (r: bool)
        requires
            self.wf(),
            in_column(y as int),
        ensures
            r == is_bamboo_at(self.cells@, y as int),
    {
        matches!(self.at(y).kind, ColumnKind::Bamboo(_))
    }
}

proof fn lemma_run_step(c: Seq<ColumnBlock>, y: int, step: int, limit: nat)
    requires
        limit > 0,
        is_bamboo_at(c, y),
    ensures
        bamboo_run(c, y, step, limit) == 1 + bamboo_run(c, y + step, step, (limit - 1) as nat),
{
}

proof fn lemma_run_bound(c: Seq<ColumnBlock>, y: int, step: int, limit: nat)
    ensures
        bamboo_run(c, y, step, limit) <= limit,
    decreases limit,
{
    if limit > 0 && is_bamboo_at(c, y) {
        lemma_run_bound(c, y + step, step, (limit - 1) as nat);
    }
}

/// The bamboo blocks in a row below height 0, at most 16.
pub fn count_bamboo_below(column: &BambooColumn) -> (r: usize)
    requires
        column.wf(),
    ensures
        r == count_below(column.cells@),
        r <= 16,
{
    let ghost c = column.cells@;
    let mut count: usize = 0;
    let mut found = true;
    let mut y: i32 = -1;
    while found && count < 16
        invariant
            column.wf(),
            c == column.cells@,
            count <= 16,
            y == -1 - count,
            found ==> count + bamboo_run(c, y as int, -1, (16 - count) as nat) == count_below(c),
            !found ==> count == count_below(c),
        decreases 16 - count + (if found { 1int } else { 0int }),
    {
        found = false;
        if column.is_bamboo(y) {
            proof {
                lemma_run_step(c, y as int, -1, (16 - count) as nat);
            }
            y = y - 1;
            count += 1;
            found = true;
        }
    }
    proof {
        lemma_run_bound(c, -1, -1, 16);
    }
    count
}

/// The bamboo blocks in a row above height 0, at most 16.
pub fn count_bamboo_above(column: &BambooColumn) -> (r: usize)
    requires
        column.wf(),
    ensures
        r == count_above(column.cells@),
        r <= 16,
{
    let ghost c = column.cells@;
    let mut count: usize = 0;
    let mut found = true;
    let mut y: i32 = 1;
    while found && count < 16
        invariant
            column.wf(),
            c == column.cells@,
            count <= 16,
            y == 1 + count,
            found ==> count + bamboo_run(c, y as int, 1, (16 - count) as nat) == count_above(c),
            !found ==> count == count_above(c),
        decreases 16 - count + (if found { 1int } else { 0int }),
    {
        found = false;
        if column.is_bamboo(y) {
            proof {
                lemma_run_step(c, y as int, 1, (16 - count) as nat);
            }
            y = y + 1;
            count += 1;
            found = true;
        }
    }
    proof {
        lemma_run_bound(c, 1, 1, 16);
    }
    count
}

/// The stalk at height 0 grows one block, with `tall` the draw that lets a
/// stalk of 11 to 14 keep growing.
pub fn update_leaves_and_grow(column: &mut BambooColumn, tall: bool)
    requires
        old(column).wf(),
    ensures
        final(column).wf(),
        final(column).cells@ == grow_step(old(column).cells@, tall),
{
    let ghost c = column.cells@;
    if !matches!(column.at(1).kind, ColumnKind::Air) {
        return;
    }
    let props = column.props(0);
    if props.stage != 0 {
        return;
    }
    let count = count_bamboo_below(column);
    if count >= 16 {
        return;
    }
    let two_below_bamboo = column.is_bamboo(-2);
    let below = column.at(-1);
    let below_props = column.props(-1);
    let leaves = if count >= 1 {
        if !column.is_bamboo(-1) || matches!(below_props.leaves, BambooLeaves::NoLeaves) {
            BambooLeaves::Small
        } else {
            BambooLeaves::Large
        }
    } else {
        props.leaves
    };
    if count >= 1 && matches!(leaves, BambooLeaves::Large) && two_below_bamboo {
        let two_below = column.at(-2);
        let two_below_props = column.props(-2);
        column.set(
            -1,
            ColumnBlock {
                kind: ColumnKind::Bamboo(BambooProps { leaves: BambooLeaves::Small, ..below_props }),
                ..below
            },
        );
        column.set(
            -2,
            ColumnBlock {
                kind: ColumnKind::Bamboo(BambooProps { leaves: BambooLeaves::NoLeaves, ..two_below_props }),
                ..two_below
            },
        );
    }
    let age: u8 = if props.age != 1 && two_below_bamboo { 0 } else { 1 };
    let stage: u8 = if (count < 11 || tall) && count != 15 { 0 } else { 1 };
    let here = column.at(0);
    assert(here == col_at(c, 0));
    column.set(1, ColumnBlock { kind: ColumnKind::Bamboo(BambooProps { age, leaves, stage }), ..here });
}

/// Whether a stalk of 11 to 14 keeps growing on a draw below 4: on every
/// draw but 0.
pub open spec fn tall_for(roll: u32) -> bool {
    roll != 0
}

/// Draws whether a stalk of 11 to 14 keeps growing: three times in four.
fn draw_tall() -> (r: bool)
    ensures
        exists|roll: u32| roll < 4 && r == #[trigger] tall_for(roll),
{
    let roll = random_below(4);
    assert(tall_for(roll) == (roll != 0));
    roll != 0
}

/// The bamboo block type.
pub struct BambooBlock;

impl BambooBlock {
    /// What placing bamboo at height 0 puts there.
    pub fn on_place(&self, column: &BambooColumn) -> (r: ColumnKind)
        requires
            column.wf(),
        ensures
            r == placed_kind(column.cells@),
    {
        let below = column.at(-1);
        if !below.plantable_on {
            return ColumnKind::Air;
        }
        match below.kind {
            ColumnKind::Sapling => ColumnKind::Bamboo(
                BambooProps { age: 0, leaves: BambooLeaves::NoLeaves, stage: 0 },
            ),
            ColumnKind::Bamboo(p) => ColumnKind::Bamboo(
                BambooProps { age: if p.age > 0 { 1 } else { 0 }, leaves: BambooLeaves::NoLeaves, stage: 0 },
            ),
            _ => {
                if column.is_bamboo(1) {
                    let above = column.props(1);
                    ColumnKind::Bamboo(BambooProps { age: above.age, leaves: BambooLeaves::NoLeaves, stage: 0 })
                } else {
                    ColumnKind::Sapling
                }
            },
        }
    }

    /// Bamboo can stand at height 0 when the block below can carry it.
    pub fn can_place_at(&self, column: &BambooColumn) -> (r: bool)
        requires
            column.wf(),
        ensures
            r == col_at(column.cells@, -1).plantable_on,
    {
        column.at(-1).plantable_on
    }

    /// A scheduled tick of the bamboo at height 0: where it cannot stand it
    /// breaks (the result is true); else a sapling below it becomes new
    /// bamboo.
    pub fn on_scheduled_tick(&self, column: &mut BambooColumn) -> (broken: bool)
        requires
            old(column).wf(),
        ensures
            final(column).wf(),
            broken == !col_at(old(column).cells@, -1).plantable_on,
            broken ==> final(column).cells@ == old(column).cells@,
            !broken && col_at(old(column).cells@, -1).kind == ColumnKind::Sapling ==> final(column).cells@
                == col_set(old(column).cells@, -1, bamboo_block(default_props())),
            !broken && col_at(old(column).cells@, -1).kind != ColumnKind::Sapling ==> final(column).cells@
                == old(column).cells@,
    {
        if !self.can_place_at(column) {
            return true;
        }
        if matches!(column.at(-1).kind, ColumnKind::Sapling) {
            column.set(
                -1,
                ColumnBlock {
                    kind: ColumnKind::Bamboo(BambooProps { age: 0, leaves: BambooLeaves::NoLeaves, stage: 0 }),
                    plantable_on: true,
                },
            );
        }
        false
    }

    /// The state of the bamboo at height 0 after a neighbour changed, and
    /// whether it asks for a tick in 1 game tick (when it cannot stand): a
    /// thin stalk under thicker bamboo above becomes thick.
    pub fn get_state_for_neighbor_update(
        &self,
        column: &BambooColumn,
        from_above: bool,
    ) -> (r: (BambooProps, bool))
        requires
            column.wf(),
        ensures
            r.1 == !col_at(column.cells@, -1).plantable_on,
            r.0 == (if from_above && is_bamboo_at(column.cells@, 1) && props_at(column.cells@, 1).age
                > props_at(column.cells@, 0).age {
                BambooProps { age: if props_at(column.cells@, 0).age == 0 { 1 } else { 0 }, ..props_at(column.cells@, 0) }
            } else {
                props_at(column.cells@, 0)
            }),
    {
        let schedule = !self.can_place_at(column);
        let props = column.props(0);
        if from_above && column.is_bamboo(1) {
            let above = column.props(1);
            if above.age > props.age {
                let age: u8 = if props.age == 0 { 1 } else { 0 };
                return (BambooProps { age, ..props }, schedule);
            }
        }
        (props, schedule)
    }

    /// A random tick of the bamboo at height 0 for the growth draw `roll`
    /// and the tall flag `tall`: it grows on a draw of 0, with that flag;
    /// any other draw leaves it as it was.
    pub fn random_tick_with(&self, column: &mut BambooColumn, roll: u32, tall: bool)
        requires
            old(column).wf(),
        ensures
            final(column).wf(),
            roll == 0 ==> final(column).cells@ == grow_step(old(column).cells@, tall),
            roll != 0 ==> final(column).cells@ == old(column).cells@,
    {
        if roll == 0 {
            update_leaves_and_grow(column, tall);
        }
    }

    /// A random tick of the bamboo at height 0: a growth draw below 4 and,
    /// where it is 0, a tall draw, as `random_tick_with` takes them.
    pub fn random_tick(&self, column: &mut BambooColumn)
        requires
            old(column).wf(),
        ensures
            final(column).wf(),
            exists|roll: u32, tall: bool|
                roll < 4 && final(column).cells@ == #[trigger] tick_outcome(old(column).cells@, roll, tall),
    {
        let ghost before = column.cells@;
        let roll = random_below(4);
        let tall = if roll == 0 {
            draw_tall()
        } else {
            false
        };
        self.random_tick_with(column, roll, tall);
        assert(tick_outcome(before, roll, tall) == column.cells@);
    }
}

/// The column after a random tick with the growth draw `roll` and the tall
/// flag `tall`.
pub open spec fn tick_outcome(c: Seq<ColumnBlock>, roll: u32, tall: bool) -> Seq<ColumnBlock> {
    if roll == 0 {
        grow_step(c, tall)
    } else {
        c
    }
}

/// The heights bone meal with `l` tries would grow the stalk at height 0 to.
pub fn bone_meal_candidates(column: &BambooColumn, l: usize) -> (r: Vec<i32>)
    requires
        column.wf(),
        l <= 3,
    ensures
        r@.map_values(|v: i32| v as int) == candidates(column.cells@, l as nat),
{
    let ghost c = column.cells@;
    let above = count_bamboo_above(column);
    let below = count_bamboo_below(column);
    let mut y: i32 = above as i32;
    let mut height: usize = above + below + 1;
    let mut out: Vec<i32> = Vec::new();
    let mut i: usize = 0;
    let mut stopped = false;
    while i < l && !stopped
        invariant
            column.wf(),
            c == column.cells@,
            i <= l <= 3,
            y == above + i,
            height == above + below + 1 + i,
            above <= 16,
            below <= 16,
            above == count_above(c),
            below == count_below(c),
            stopped ==> candidates_from(c, y as int, height as int, (l - i) as nat) == Seq::<int>::empty(),
            candidates(c, l as nat) == out@.map_values(|v: i32| v as int) + candidates_from(
                c,
                y as int,
                height as int,
                (l - i) as nat,
            ),
        decreases l - i + (if stopped { 0int } else { 1int }),
    {
        if !matches!(column.at(y).kind, ColumnKind::Air) || height >= 16 || column.props(y).stage == 1 {
            stopped = true;
        } else {
            let ghost before = out@;
            out.push(y);
            assert(out@.map_values(|v: i32| v as int) =~= before.map_values(|v: i32| v as int).push(y as int));
            y = y + 1;
            height = height + 1;
            i += 1;
        }
    }
    assert(out@.map_values(|v: i32| v as int) =~= candidates(c, l as nat));
    out
}

/// Whether `v` holds `y`.
fn holds(v: &Vec<i32>, y: i32) -> (r: bool)
    ensures
        r == v@.contains(y),
{
    let mut i: usize = 0;
    while i < v.len()
        invariant
            i <= v@.len(),
            forall|j: int| 0 <= j < i ==> v@[j] != y,
        decreases v@.len() - i,
    {
        if v[i] == y {
            return true;
        }
        i += 1;
    }
    false
}

/// The allowed heights as a sequence, where a list is given.
pub open spec fn allowed_view(allowed: Option<&Vec<i32>>) -> Option<Seq<i32>> {
    match allowed {
        Some(v) => Some(v@),
        None => None,
    }
}

/// Bone meal on the stalk at height 0 with `l` tries: where a list of
/// allowed heights is given, only those; `tall` holds the growth draw of
/// each try.
pub fn bone_meal(column: &mut BambooColumn, l: usize, allowed: Option<&Vec<i32>>, tall: &Vec<bool>)
    requires
        old(column).wf(),
        1 <= l <= 3,
        tall@.len() == l,
    ensures
        final(column).wf(),
        final(column).cells@ == meal(old(column).cells@, l as nat, allowed_view(allowed), tall@),
{
    let ghost c0 = column.cells@;
    let above = count_bamboo_above(column);
    let below = count_bamboo_below(column);
    let mut y: i32 = above as i32;
    let mut height: usize = above + below + 1;
    let mut i: usize = 0;
    let mut stopped = false;
    assert(tall@.subrange(0, l as int) =~= tall@);
    while i < l && !stopped
        invariant
            column.wf(),
            i <= l <= 3,
            tall@.len() == l,
            y == above + i,
            height == above + below + 1 + i,
            above <= 16,
            below <= 16,
            stopped ==> column.cells@ == meal_steps(
                column.cells@,
                y as int,
                height as int,
                (l - i) as nat,
                allowed_view(allowed),
                tall@.subrange(i as int, l as int),
            ),
            meal(c0, l as nat, allowed_view(allowed), tall@) == meal_steps(
                column.cells@,
                y as int,
                height as int,
                (l - i) as nat,
                allowed_view(allowed),
                tall@.subrange(i as int, l as int),
            ),
        decreases l - i + (if stopped { 0int } else { 1int }),
    {
        let blocked = match allowed {
            Some(v) => !holds(v, y),
            None => false,
        };
        if !matches!(column.at(y).kind, ColumnKind::Air) || height >= 16 || column.props(y).stage == 1
            || blocked {
            stopped = true;
        } else {
            let ghost rest = tall@.subrange(i as int, l as int);
            assert(rest[0] == tall@[i as int]);
            assert(rest.drop_first() =~= tall@.subrange(i + 1, l as int));
            update_leaves_and_grow(column, tall[i]);
            y = y + 1;
            height = height + 1;
            i += 1;
        }
    }
}

/// Bone meal on the stalk at height 0, with its tries (1 to 3) and growth
/// draws made at random; where a list of allowed heights is given, only
/// those grow.
pub fn apply_bone_meal(column: &mut BambooColumn, allowed: Option<&Vec<i32>>)
    requires
        old(column).wf(),
    ensures
        final(column).wf(),
        exists|l: nat, tall: Seq<bool>|
            1 <= l <= 3 && tall.len() == l && final(column).cells@ == #[trigger] meal(
                old(column).cells@,
                l,
                allowed_view(allowed),
                tall,
            ),
{
    let l = random_below(3) as usize + 1;
    let mut tall: Vec<bool> = Vec::new();
    let mut i: usize = 0;
    while i < l
        invariant
            i <= l,
            tall@.len() == i,
        decreases l - i,
    {
        tall.push(draw_tall());
        i += 1;
    }
    bone_meal(column, l, allowed, &tall);
}

/// What using an item on a block came to.
#[derive(Clone, Copy, Debug, PartialEq, Eq)]
pub enum BlockActionResult {
    /// The item did its work.
    Success,
    /// The block had nothing to do with the item.
    Pass,
}

impl BambooBlock {
    /// Bone meal used on the stalk at height 0 succeeds, and where a player
    /// used it, fertilizes the stalk as `apply_bone_meal` does; any other
    /// item passes.
    pub fn use_with_item(
        &self,
        column: &mut BambooColumn,
        is_bone_meal: bool,
        by_player: bool,
        allowed: Option<&Vec<i32>>,
    ) -> (r: BlockActionResult)
        requires
            old(column).wf(),
        ensures
            final(column).wf(),
            !is_bone_meal ==> r == BlockActionResult::Pass && final(column).cells@ == old(
                column,
            ).cells@,
            is_bone_meal ==> r == BlockActionResult::Success,
            is_bone_meal && !by_player ==> final(column).cells@ == old(column).cells@,
            is_bone_meal && by_player ==> exists|l: nat, tall: Seq<bool>|
                1 <= l <= 3 && tall.len() == l && final(column).cells@ == #[trigger] meal(
                    old(column).cells@,
                    l,
                    allowed_view(allowed),
                    tall,
                ),
    {
        if is_bone_meal {
            if by_player {
                apply_bone_meal(column, allowed);
            }
            return BlockActionResult::Success;
        }
        BlockActionResult::Pass
    }
}

} // verus!
