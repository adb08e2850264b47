//! The dropper: which way it faces, how redstone triggers it, and what one
//! of its ticks does with the item it picked.

use vstd::prelude::*;

use crate::chance::random_u32;

verus! {

/// The six directions a block can face.
#[derive(Clone, Copy, Debug, PartialEq, Eq)]
pub enum Facing {
    North,
    East,
    South,
    West,
    Up,
    Down,
}

/// The direction opposite `f`.
pub open spec fn spec_opposite(f: Facing) -> Facing {
    match f {
        Facing::North => Facing::South,
        Facing::South => Facing::North,
        Facing::East => Facing::West,
        Facing::West => Facing::East,
        Facing::Up => Facing::Down,
        Facing::Down => Facing::Up,
    }
}

/// The number a world event gives for a direction.
pub open spec fn spec_data3d(f: Facing) -> i32 {
    match f {
        Facing::North => 2,
        Facing::East => 5,
        Facing::South => 3,
        Facing::West => 4,
        Facing::Up => 1,
        Facing::Down => 0,
    }
}

/// The direction opposite `f`.
pub fn opposite(f: Facing) -> (r: Facing)
    ensures
        r == spec_opposite(f),
{
    match f {
        Facing::North => Facing::South,
        Facing::South => Facing::North,
        Facing::East => Facing::West,
        Facing::West => Facing::East,
        Facing::Up => Facing::Down,
        Facing::Down => Facing::Up,
    }
}

/// The number a world event gives for a direction: down 0, up 1, north 2,
/// south 3, west 4, east 5.
pub fn to_data3d(facing: Facing) -> (r: i32)
    ensures
        r == spec_data3d(facing),
{
    match facing {
        Facing::North => 2,
        Facing::East => 5,
        Facing::South => 3,
        Facing::West => 4,
        Facing::Up => 1,
        Facing::Down => 0,
    }
}

/// The state of a dropper: where it faces and whether redstone has
/// triggered it.
#[derive(Clone, Copy, Debug, PartialEq, Eq)]
pub struct DispenserProps {
    pub facing: Facing,
    pub triggered: bool,
}

/// What a dropper does when a neighbour changes.
#[derive(Clone, Copy, Debug, PartialEq, Eq)]
pub enum NeighborReaction {
    /// Becomes triggered, and ticks in 4 game ticks.
    Trigger,
    /// Stops being triggered.
    Release,
    /// Nothing changes.
    Stay,
}

/// One stack in a container: how many items it holds and how many it may.
#[derive(Clone, Copy, Debug, PartialEq, Eq)]
pub struct SlotFill {
    pub count: u8,
    pub max: u8,
}

/// What the dispense event answered: cancelled (or emptied), or the stack
/// to throw, by its item count.
#[derive(Clone, Copy, Debug, PartialEq, Eq)]
pub enum DispenseAnswer {
    /// The event was cancelled or left an empty stack: the item goes back.
    Cancelled,
    /// The stack to throw holds this many items (1 where the event kept the
    /// split-off item).
    Proceed { item_count: u8 },
}

/// What one tick of a dropper did.
#[derive(Clone, Copy, Debug, PartialEq, Eq)]
pub enum DropperPlan {
    /// The dropper has no block entity: nothing happens.
    Idle,
    /// It holds no item: the failure event sounds.
    Fail,
    /// The container it faces has no room: nothing happens.
    ContainerFull,
    /// One item of `slot` moved into the container it faces; the slot now
    /// holds `count`.
    Inserted { slot: usize, count: u8 },
    /// The container refused the item: it went back into its slot.
    InsertRefused,
    /// One item of `slot` was split off, which now holds `count`; an item
    /// entity holding `item_count` items with a pickup delay of
    /// `pickup_delay` ticks is thrown, and the dispense event and the
    /// activation event with direction number `data3d` follow.
    Dispensed { slot: usize, count: u8, item_count: u8, pickup_delay: u32, data3d: i32 },
    /// The dispense event was cancelled: the item went back into its slot.
    DispenseCancelled,
}

/// Every stack holds as many items as it may.
pub open spec fn all_full(slots: Seq<SlotFill>) -> bool {
    forall|i: int| 0 <= i < slots.len() ==> (#[trigger] slots[i]).count >= slots[i].max
}

/// The indices below `n` of the slots that hold an item, in order.
pub open spec fn filled_upto(slots: Seq<u8>, n: int) -> Seq<int>
    decreases n,
{
    if n <= 0 {
        Seq::empty()
    } else if slots[n - 1] > 0 {
        filled_upto(slots, n - 1).push(n - 1)
    } else {
        filled_upto(slots, n - 1)
    }
}

/// The indices of the slots that hold an item, in order.
pub open spec fn filled_slots(slots: Seq<u8>) -> Seq<int> {
    filled_upto(slots, slots.len() as int)
}

/// The slot a draw picks: the draw, modulo the number of filled slots,
/// counts off the filled slots in order; none where all are empty.
pub open spec fn slot_for_roll(slots: Seq<u8>, roll: u32) -> Option<int> {
    let f = filled_slots(slots);
    if f.len() == 0 {
        None
    } else {
        Some(f[(roll as int) % (f.len() as int)])
    }
}

/// The slot counts and the plan after one tick that picked slot `picked`:
/// with no block entity nothing; with no item a failure; facing a
/// container, nothing when it is full, else one item moves in, or goes
/// back where the container refuses it (`insert_accepted`); facing no
/// container, one item is thrown unless the event cancels it, and goes back
/// then.
pub open spec fn dropper_step(
    has_block_entity: bool,
    slots: Seq<u8>,
    picked: Option<int>,
    container: Option<Seq<SlotFill>>,
    insert_accepted: bool,
    answer: DispenseAnswer,
    facing: Facing,
) -> (DropperPlan, Seq<u8>) {
    if !has_block_entity {
        (DropperPlan::Idle, slots)
    } else {
        match picked {
            None => (DropperPlan::Fail, slots),
            Some(i) => {
                let less = slots.update(i, (slots[i] - 1) as u8);
                match container {
                    Some(c) => if all_full(c) {
                        (DropperPlan::ContainerFull, slots)
                    } else if insert_accepted {
                        (DropperPlan::Inserted { slot: i as usize, count: (slots[i] - 1) as u8 }, less)
                    } else {
                        (DropperPlan::InsertRefused, slots)
                    },
                    None => match answer {
                        DispenseAnswer::Cancelled => (DropperPlan::DispenseCancelled, slots),
                        DispenseAnswer::Proceed { item_count } => if item_count == 0 {
                            (DropperPlan::DispenseCancelled, slots)
                        } else {
                            (
                                DropperPlan::Dispensed {
                                    slot: i as usize,
                                    count: (slots[i] - 1) as u8,
                                    item_count,
                                    pickup_delay: 40,
                                    data3d: spec_data3d(facing),
                                },
                                less,
                            )
                        },
                    },
                }
            },
        }
    }
}

/// The slot a draw picks among the filled slots.
pub fn slot_for_draw(slots: &Vec<u8>, roll: u32) -> (r: Option<usize>)
    ensures
        match r {
            Some(i) => slot_for_roll(slots@, roll) == Some(i as int),
            None => slot_for_roll(slots@, roll) is None,
        },
{
    let mut filled: Vec<usize> = Vec::new();
    let mut i: usize = 0;
    while i < slots.len()
        invariant
            i <= slots@.len(),
            filled@.len() == filled_upto(slots@, i as int).len(),
            forall|k: int|
                0 <= k < filled@.len() ==> filled@[k] as int == #[trigger] filled_upto(
                    slots@,
                    i as int,
                )[k],
        decreases slots@.len() - i,
    {
        if slots[i] > 0 {
            filled.push(i);
        }
        i += 1;
    }
    if filled.len() == 0 {
        return None;
    }
    let k = (roll as usize) % filled.len();
    Some(filled[k])
}

/// Draws a filled slot at random; none where all are empty.
pub fn get_random_slot(slots: &Vec<u8>) -> (r: Option<usize>)
    ensures
        exists|roll: u32|
            match r {
                Some(i) => #[trigger] slot_for_roll(slots@, roll) == Some(i as int),
                None => slot_for_roll(slots@, roll) is None,
            },
{
    let roll = random_u32();
    slot_for_draw(slots, roll)
}

/// A slot a draw picks is filled.
pub proof fn lemma_drawn_slot_filled(slots: Seq<u8>, roll: u32)
    ensures
        slot_for_roll(slots, roll) matches Some(i) ==> 0 <= i < slots.len() && slots[i] > 0,
{
    lemma_filled_upto(slots, slots.len() as int);
}

proof fn lemma_filled_upto(slots: Seq<u8>, n: int)
    requires
        0 <= n <= slots.len(),
    ensures
        forall|k: int|
            0 <= k < filled_upto(slots, n).len() ==> 0 <= #[trigger] filled_upto(slots, n)[k] < n
                && slots[filled_upto(slots, n)[k]] > 0,
    decreases n,
{
    if n > 0 {
        lemma_filled_upto(slots, n - 1);
        let prev = filled_upto(slots, n - 1);
        let cur = filled_upto(slots, n);
        assert forall|k: int| 0 <= k < cur.len() implies 0 <= #[trigger] cur[k] < n && slots[cur[k]]
            > 0 by {
            if k < prev.len() {
                assert(cur[k] == prev[k]);
            }
        }
    }
}

/// The dropper block type.
pub struct DropperBlock;

/// Whether every stack of a container holds as many items as it may.
pub fn container_is_full(slots: &Vec<SlotFill>) -> (r: bool)
    ensures
        r == all_full(slots@),
{
    let mut i: usize = 0;
    while i < slots.len()
        invariant
            i <= slots@.len(),
            forall|j: int| 0 <= j < i ==> (#[trigger] slots@[j]).count >= slots@[j].max,
        decreases slots@.len() - i,
    {
        if slots[i].count < slots[i].max {
            return false;
        }
        i += 1;
    }
    true
}

impl DropperBlock {
    /// A placed dropper faces away from the player, untriggered.
    pub fn on_place(&self, player_facing: Facing) -> (r: DispenserProps)
        ensures
            r.facing == spec_opposite(player_facing),
            !r.triggered,
    {
        DispenserProps { facing: opposite(player_facing), triggered: false }
    }

    /// A neighbour changed and the dropper is `powered` or not: a powered,
    /// untriggered dropper is triggered and ticks in 4 game ticks; an
    /// unpowered, triggered one is released.
    pub fn on_neighbor_update(&self, props: &mut DispenserProps, powered: bool) -> (r: NeighborReaction)
        ensures
            final(props).facing == old(props).facing,
            powered && !old(props).triggered ==> r == NeighborReaction::Trigger && final(props).triggered,
            !powered && old(props).triggered ==> r == NeighborReaction::Release && !final(props).triggered,
            powered == old(props).triggered ==> r == NeighborReaction::Stay && final(props).triggered
                == old(props).triggered,
    {
        if powered && !props.triggered {
            props.triggered = true;
            NeighborReaction::Trigger
        } else if !powered && props.triggered {
            props.triggered = false;
            NeighborReaction::Release
        } else {
            NeighborReaction::Stay
        }
    }

    /// One tick of a dropper whose slots hold `slots` items and that picked
    /// slot `picked` (none where all are empty): `container` is the stacks
    /// of the container it faces, if any; `insert_accepted` is whether that
    /// container took the item; `answer` is what the dispense event gave.
    pub fn on_scheduled_tick(
        &self,
        has_block_entity: bool,
        slots: &mut Vec<u8>,
        picked: Option<usize>,
        container: Option<&Vec<SlotFill>>,
        insert_accepted: bool,
        answer: DispenseAnswer,
        facing: Facing,
    ) -> (r: DropperPlan)
        requires
            picked matches Some(i) ==> i < old(slots)@.len() && old(slots)@[i as int] > 0,
        ensures
            (r, final(slots)@) == dropper_step(
                has_block_entity,
                old(slots)@,
                match picked {
                    Some(i) => Some(i as int),
                    None => None,
                },
                match container {
                    Some(c) => Some(c@),
                    None => None,
                },
                insert_accepted,
                answer,
                facing,
            ),
    {
        if !has_block_entity {
            return DropperPlan::Idle;
        }
        let i = match picked {
            Some(i) => i,
            None => return DropperPlan::Fail,
        };
        let count = slots[i];
        match container {
            Some(c) => {
                if container_is_full(c) {
                    return DropperPlan::ContainerFull;
                }
                if insert_accepted {
                    slots.set(i, count - 1);
                    DropperPlan::Inserted { slot: i, count: count - 1 }
                } else {
                    DropperPlan::InsertRefused
                }
            },
            None => match answer {
                DispenseAnswer::Cancelled => DropperPlan::DispenseCancelled,
                DispenseAnswer::Proceed { item_count } => {
                    if item_count == 0 {
                        return DropperPlan::DispenseCancelled;
                    }
                    slots.set(i, count - 1);
                    DropperPlan::Dispensed {
                        slot: i,
                        count: count - 1,
                        item_count,
                        pickup_delay: 40,
                        data3d: to_data3d(facing),
                    }
                },
            },
        }
    }
}

} // verus!
