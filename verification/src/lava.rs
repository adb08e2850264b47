//! Flowing lava: how far and how fast it flows in each dimension, and what
//! it turns into where it meets water or blue ice.

use vstd::prelude::*;

verus! {

/// What lava reads of a neighbouring block.
#[derive(Clone, Copy, Debug, PartialEq, Eq)]
pub enum Neighbor {
    Water,
    BlueIce,
    Other,
}

/// The blocks lava can harden into.
#[derive(Clone, Copy, Debug, PartialEq, Eq)]
pub enum Hardened {
    Obsidian,
    Cobblestone,
    Basalt,
}

/// What lava does to the block it flows into.
#[derive(Clone, Copy, Debug, PartialEq, Eq)]
pub enum SpreadOutcome {
    /// Falling full lava meets water: the water becomes stone and the
    /// extinguish event sounds.
    Stone,
    /// The block is waterlogged: lava does not flow into it.
    Blocked,
    /// Lava flows in as usual.
    Flow,
}

/// Flowing lava.
pub struct FlowingLava;

/// The block lava at a place hardens into, from its neighbours in the
/// order given: at the first neighbour that is water, obsidian if the lava
/// is still and cobblestone if not; at the first that is blue ice over
/// soul soil, basalt; else nothing.
pub open spec fn hardening(neighbors: Seq<Neighbor>, below_is_soul_soil: bool, is_still: bool) -> Option<Hardened>
    decreases neighbors.len(),
{
    if neighbors.len() == 0 {
        None
    } else if neighbors[0] == Neighbor::Water {
        Some(if is_still { Hardened::Obsidian } else { Hardened::Cobblestone })
    } else if below_is_soul_soil && neighbors[0] == Neighbor::BlueIce {
        Some(Hardened::Basalt)
    } else {
        hardening(neighbors.drop_first(), below_is_soul_soil, is_still)
    }
}

impl FlowingLava {
    /// How much the level drops per block: 1 in the Nether, 2 elsewhere.
    pub fn get_level_decrease_per_block(&self, in_nether: bool) -> (r: i32)
        ensures
            r == (if in_nether { 1int } else { 2int }),
    {
        if in_nether { 1 } else { 2 }
    }

    /// The ticks between flow steps: 10 in the Nether, 30 elsewhere.
    pub fn get_flow_speed(&self, in_nether: bool) -> (r: u8)
        ensures
            r == (if in_nether { 10int } else { 30int }),
    {
        if in_nether { 10 } else { 30 }
    }

    /// How far lava flows: 5 blocks in the Nether, 3 elsewhere.
    pub fn get_max_flow_distance(&self, in_nether: bool) -> (r: i32)
        ensures
            r == (if in_nether { 5int } else { 3int }),
    {
        if in_nether { 5 } else { 3 }
    }

    /// Lava forms new sources exactly when the game rule allows it.
    pub fn can_convert_to_source(&self, lava_source_conversion: bool) -> (r: bool)
        ensures
            r == lava_source_conversion,
    {
        lava_source_conversion
    }

    /// What lava at a place hardens into, from its six neighbours in order,
    /// whether soul soil lies below and whether the lava is still; nothing
    /// where it stays lava (and then it ticks again).
    pub fn receive_neighbor_fluids(
        &self,
        neighbors: &Vec<Neighbor>,
        below_is_soul_soil: bool,
        is_still: bool,
    ) -> (r: Option<Hardened>)
        ensures
            r == hardening(neighbors@, below_is_soul_soil, is_still),
    {
        let mut i: usize = 0;
        assert(neighbors@.subrange(0, neighbors@.len() as int) =~= neighbors@);
        while i < neighbors.len()
            invariant
                i <= neighbors@.len(),
                hardening(neighbors@, below_is_soul_soil, is_still) == hardening(
                    neighbors@.subrange(i as int, neighbors@.len() as int),
                    below_is_soul_soil,
                    is_still,
                ),
            decreases neighbors@.len() - i,
        {
            let ghost rest = neighbors@.subrange(i as int, neighbors@.len() as int);
            assert(rest[0] == neighbors@[i as int]);
            if matches!(neighbors[i], Neighbor::Water) {
                return Some(if is_still { Hardened::Obsidian } else { Hardened::Cobblestone });
            }
            if below_is_soul_soil && matches!(neighbors[i], Neighbor::BlueIce) {
                return Some(Hardened::Basalt);
            }
            assert(rest.drop_first() =~= neighbors@.subrange(i + 1, neighbors@.len() as int));
            i += 1;
        }
        None
    }

    /// What lava does to the block it flows into: full falling lava turns
    /// water into stone; lava does not enter a waterlogged block; else it
    /// flows.
    pub fn spread_to(
        &self,
        full_and_falling: bool,
        target_is_water: bool,
        target_waterlogged: bool,
    ) -> (r: SpreadOutcome)
        ensures
            r == (if full_and_falling && target_is_water {
                SpreadOutcome::Stone
            } else if target_waterlogged {
                SpreadOutcome::Blocked
            } else {
                SpreadOutcome::Flow
            }),
    {
        if full_and_falling && target_is_water {
            return SpreadOutcome::Stone;
        }
        if target_waterlogged {
            return SpreadOutcome::Blocked;
        }
        SpreadOutcome::Flow
    }

    /// Whether an entity in lava burns (for 15 seconds) and takes lava
    /// damage: unless its kind or the entity itself is immune to fire.
    pub fn on_entity_collision(&self, type_fire_immune: bool, fire_immune: bool) -> (r: bool)
        ensures
            r == (!type_fire_immune && !fire_immune),
    {
        !type_fire_immune && !fire_immune
    }
}

/// A neighbour that hardens lava: water, or blue ice over soul soil.
pub open spec fn hardens(n: Neighbor, below_is_soul_soil: bool) -> bool {
    n == Neighbor::Water || (below_is_soul_soil && n == Neighbor::BlueIce)
}

/// Every neighbour is looked at, in order: at the first that is water the
/// lava becomes obsidian if still and cobblestone if not; at the first
/// that is blue ice over soul soil it becomes basalt.
pub proof fn lemma_first_hardening_neighbor_decides(
    neighbors: Seq<Neighbor>,
    below_is_soul_soil: bool,
    is_still: bool,
    i: int,
)
    requires
        0 <= i < neighbors.len(),
        hardens(neighbors[i], below_is_soul_soil),
        forall|j: int| 0 <= j < i ==> !hardens(#[trigger] neighbors[j], below_is_soul_soil),
    ensures
        hardening(neighbors, below_is_soul_soil, is_still) == if neighbors[i] == Neighbor::Water {
            Some(if is_still { Hardened::Obsidian } else { Hardened::Cobblestone })
        } else {
            Some(Hardened::Basalt)
        },
    decreases i,
{
    if i > 0 {
        assert(!hardens(neighbors[0], below_is_soul_soil));
        let rest = neighbors.drop_first();
        assert forall|j: int| 0 <= j < i - 1 implies !hardens(#[trigger] rest[j], below_is_soul_soil) by {
            assert(rest[j] == neighbors[j + 1]);
        }
        lemma_first_hardening_neighbor_decides(rest, below_is_soul_soil, is_still, i - 1);
    }
}

/// Lava with no neighbour that hardens it stays lava; without soul soil
/// below it never becomes basalt.
pub proof fn lemma_no_hardening_neighbor(neighbors: Seq<Neighbor>, below_is_soul_soil: bool, is_still: bool)
    ensures
        (forall|j: int| 0 <= j < neighbors.len() ==> !hardens(#[trigger] neighbors[j], below_is_soul_soil))
            ==> hardening(neighbors, below_is_soul_soil, is_still) is None,
        !below_is_soul_soil ==> hardening(neighbors, below_is_soul_soil, is_still) != Some(Hardened::Basalt),
    decreases neighbors.len(),
{
    if neighbors.len() > 0 {
        let rest = neighbors.drop_first();
        lemma_no_hardening_neighbor(rest, below_is_soul_soil, is_still);
        if forall|j: int| 0 <= j < neighbors.len() ==> !hardens(#[trigger] neighbors[j], below_is_soul_soil) {
            assert(!hardens(neighbors[0], below_is_soul_soil));
            assert forall|j: int| 0 <= j < rest.len() implies !hardens(#[trigger] rest[j], below_is_soul_soil) by {
                assert(rest[j] == neighbors[j + 1]);
            }
        }
    }
}

} // verus!
