//! Dropped items: how two nearby item entities merge into one stack, how
//! an item ages and despawns, and when a player may pick it up.

use vstd::prelude::*;

verus! {

/// What the merge and age rules read and change of a dropped item.
#[derive(Clone, Copy, Debug, PartialEq, Eq)]
pub struct ItemEntityState {
    /// Stands for the item and its components: stacks merge only when equal.
    pub stack_key: u64,
    pub count: u8,
    pub max_stack: u8,
    pub item_age: u32,
    pub pickup_delay: u32,
    pub never_despawn: bool,
    pub never_pickup: bool,
    /// The item entity has left the world.
    pub removed: bool,
}

/// What a merge leaves of the two items: which one took the items, and
/// whether each is now empty and leaves the world.
#[derive(Clone, Copy, Debug, PartialEq, Eq)]
pub struct MergeResult {
    pub this: ItemEntityState,
    pub other: ItemEntityState,
    /// The items went to this item (else to the other one).
    pub into_this: bool,
    pub this_removed: bool,
    pub other_removed: bool,
}

/// What one tick does to an item's age.
#[derive(Clone, Copy, Debug, PartialEq, Eq)]
pub enum AgeStep {
    /// The item never despawns: its age stays.
    Ageless,
    /// The item is one tick older, `age`, which reached 6000: it despawns.
    Despawn { age: u32 },
    /// The item is one tick older; `try_merge` says whether it looks for
    /// items to merge with this tick.
    Aged { age: u32, try_merge: bool },
}

/// The target takes what fits of the source's items; it takes over the
/// source's despawn and pickup flags, keeps the younger age unless it now
/// never despawns, and the longer pickup delay unless it now can never be
/// picked up.
pub open spec fn merged_pair(target: ItemEntityState, source: ItemEntityState) -> (ItemEntityState, ItemEntityState) {
    let room = target.max_stack - target.count;
    let moved = if source.count < room { source.count as int } else { room };
    let t = ItemEntityState {
        count: (target.count + moved) as u8,
        never_despawn: source.never_despawn,
        item_age: if source.never_despawn {
            target.item_age
        } else if target.item_age < source.item_age {
            target.item_age
        } else {
            source.item_age
        },
        never_pickup: source.never_pickup,
        pickup_delay: if source.never_pickup {
            target.pickup_delay
        } else if target.pickup_delay < source.pickup_delay {
            source.pickup_delay
        } else {
            target.pickup_delay
        },
        ..target
    };
    let s = ItemEntityState { count: (source.count - moved) as u8, ..source };
    (t, s)
}

/// Whether two items merge: equal stacks that fit in one.
pub open spec fn can_merge_pair(a: ItemEntityState, b: ItemEntityState) -> bool {
    a.stack_key == b.stack_key && a.count + b.count <= a.max_stack
}

/// The merge of `this` with `other`: the items go to the fuller one (to
/// `other` on a tie).
pub open spec fn merge_spec(a: ItemEntityState, b: ItemEntityState) -> MergeResult {
    if b.count < a.count {
        let (t, s) = merged_pair(a, b);
        MergeResult { this: t, other: s, into_this: true, this_removed: t.count == 0, other_removed: s.count == 0 }
    } else {
        let (t, s) = merged_pair(b, a);
        MergeResult { this: s, other: t, into_this: false, this_removed: s.count == 0, other_removed: t.count == 0 }
    }
}

/// The item entity type.
pub struct ItemEntity;

/// The smaller of two ages.
fn min_u32(a: u32, b: u32) -> (r: u32)
    ensures
        r == (if a < b { a } else { b }),
{
    if a < b { a } else { b }
}

/// The larger of two delays.
fn max_u32(a: u32, b: u32) -> (r: u32)
    ensures
        r == (if a < b { b } else { a }),
{
    if a < b { b } else { a }
}

/// The target takes what fits of the source's items.
fn merge_into(target: ItemEntityState, source: ItemEntityState) -> (r: (ItemEntityState, ItemEntityState))
    requires
        target.count <= target.max_stack,
    ensures
        r == merged_pair(target, source),
{
    let room = target.max_stack - target.count;
    let moved = if source.count < room { source.count } else { room };
    let t = ItemEntityState {
        count: target.count + moved,
        never_despawn: source.never_despawn,
        item_age: if source.never_despawn { target.item_age } else { min_u32(target.item_age, source.item_age) },
        never_pickup: source.never_pickup,
        pickup_delay: if source.never_pickup {
            target.pickup_delay
        } else {
            max_u32(target.pickup_delay, source.pickup_delay)
        },
        ..target
    };
    let s = ItemEntityState { count: source.count - moved, ..source };
    (t, s)
}

impl ItemEntity {
    /// An item can take more items while it may be picked up, is still in
    /// the world, and its stack is not full.
    pub fn can_merge(&self, item: &ItemEntityState) -> (r: bool)
        ensures
            r == (!item.never_pickup && !item.removed && item.count < item.max_stack),
    {
        if item.never_pickup || item.removed {
            return false;
        }
        item.count < item.max_stack
    }

    /// Merges two nearby items when their stacks are equal and fit in
    /// one: the fuller one takes the other's items; nothing where they do
    /// not merge.
    pub fn try_merge_with(&self, this: &ItemEntityState, other: &ItemEntityState) -> (r: Option<MergeResult>)
        requires
            this.stack_key == other.stack_key ==> this.max_stack == other.max_stack,
            this.count <= this.max_stack,
            other.count <= other.max_stack,
        ensures
            can_merge_pair(*this, *other) ==> r == Some(merge_spec(*this, *other)),
            !can_merge_pair(*this, *other) ==> r is None,
    {
        if this.stack_key != other.stack_key || this.count as u16 + other.count as u16 > this.max_stack as u16 {
            return None;
        }
        if other.count < this.count {
            let (t, s) = merge_into(*this, *other);
            Some(MergeResult { this: t, other: s, into_this: true, this_removed: t.count == 0, other_removed: s.count == 0 })
        } else {
            let (t, s) = merge_into(*other, *this);
            Some(MergeResult { this: s, other: t, into_this: false, this_removed: s.count == 0, other_removed: t.count == 0 })
        }
    }

    /// One tick of an item's age: an item that never despawns keeps its
    /// age; else it is a tick older, and despawns once that is 6000; it looks for
    /// items to merge with every 40 ticks while it rests, every 2 while it
    /// moves, when it can take more items.
    pub fn age_step(&self, item: &ItemEntityState, moved: bool) -> (r: AgeStep)
        requires
            !item.never_despawn ==> item.item_age < u32::MAX,
        ensures
            item.never_despawn ==> r == AgeStep::Ageless,
            !item.never_despawn && item.item_age + 1 >= 6000 ==> r == (AgeStep::Despawn {
                age: (item.item_age + 1) as u32,
            }),
            !item.never_despawn && item.item_age + 1 < 6000 ==> r == (AgeStep::Aged {
                age: (item.item_age + 1) as u32,
                try_merge: (item.item_age + 1) % (if moved { 2int } else { 40int }) == 0
                    && !item.never_pickup && !item.removed && item.count < item.max_stack,
            }),
    {
        if item.never_despawn {
            return AgeStep::Ageless;
        }
        let age = item.item_age + 1;
        if age >= 6000 {
            return AgeStep::Despawn { age };
        }
        let n: u32 = if moved { 2 } else { 40 };
        AgeStep::Aged { age, try_merge: age % n == 0 && self.can_merge(item) }
    }

    /// The pickup delay after a tick: one less, stopping at 0.
    pub fn tick_pickup_delay(&self, delay: u32) -> (r: u32)
        ensures
            r == (if delay > 0 { delay - 1 } else { 0 }),
    {
        if delay > 0 { delay - 1 } else { 0 }
    }

    /// Whether a resting item moves this tick: an item whose age does not
    /// fit in 32 signed bits leaves the world instead (`None`); else it
    /// moves every fourth tick, counted from its age and its entity id.
    pub fn moves_while_resting(&self, item_age: u32, entity_id: i32) -> (r: Option<bool>)
        ensures
            item_age > i32::MAX ==> r is None,
            item_age <= i32::MAX ==> r == Some((item_age + entity_id) % 4 == 0),
    {
        if item_age > 0x7fff_ffffu32 {
            return None;
        }
        let sum: i64 = item_age as i64 + entity_id as i64;
        Some(sum % 4 == 0)
    }

    /// Whether a player touching the item may take it: its pickup delay
    /// is over and the player lives.
    pub fn may_pick_up(&self, pickup_delay: u32, player_alive: bool) -> (r: bool)
        ensures
            r == (pickup_delay == 0 && player_alive),
    {
        pickup_delay == 0 && player_alive
    }
}

/// Merging never makes or loses items: the two counts add up as before,
/// and the item that took them holds all of them.
pub proof fn lemma_merge_keeps_items(a: ItemEntityState, b: ItemEntityState)
    requires
        a.max_stack == b.max_stack,
        a.count <= a.max_stack,
        b.count <= b.max_stack,
        can_merge_pair(a, b),
    ensures
        merge_spec(a, b).this.count + merge_spec(a, b).other.count == a.count + b.count,
        merge_spec(a, b).into_this ==> merge_spec(a, b).other.count == 0 && merge_spec(a, b).other_removed,
        !merge_spec(a, b).into_this ==> merge_spec(a, b).this.count == 0 && merge_spec(a, b).this_removed,
        merge_spec(a, b).this.count <= a.max_stack,
        merge_spec(a, b).other.count <= a.max_stack,
{
}

/// The item that takes the stack: when the source can despawn, it gets the
/// younger of the two ages (no older than either, and one of them), so the
/// merged stack despawns no sooner than its younger half would; when the
/// source never despawns, it keeps its own age and never despawns either.
/// Likewise it waits the longer of the two pickup delays unless the source
/// can never be picked up. The source only gives up items.
pub proof fn lemma_merge_keeps_younger_age(a: ItemEntityState, b: ItemEntityState)
    requires
        a.count <= a.max_stack,
        b.count <= b.max_stack,
    ensures
        ({
            let m = merge_spec(a, b);
            let (t, s) = if m.into_this { (m.this, b) } else { (m.other, a) };
            let (kept, given) = if m.into_this { (a, m.other) } else { (b, m.this) };
            &&& !s.never_despawn ==> t.item_age <= kept.item_age && t.item_age <= s.item_age && (t.item_age
                == kept.item_age || t.item_age == s.item_age)
            &&& s.never_despawn ==> t.item_age == kept.item_age
            &&& t.never_despawn == s.never_despawn && t.never_pickup == s.never_pickup
            &&& !s.never_pickup ==> t.pickup_delay >= kept.pickup_delay && t.pickup_delay >= s.pickup_delay
                && (t.pickup_delay == kept.pickup_delay || t.pickup_delay == s.pickup_delay)
            &&& s.never_pickup ==> t.pickup_delay == kept.pickup_delay
            &&& t.stack_key == kept.stack_key && t.max_stack == kept.max_stack
            &&& given.item_age == s.item_age && given.pickup_delay == s.pickup_delay && given.count <= s.count
        }),
{
}

/// The items go to the fuller of the two, to `other` when they hold as
/// many: merging two stacks of different sizes comes out the same from
/// either side.
pub proof fn lemma_merge_goes_to_fuller(a: ItemEntityState, b: ItemEntityState)
    ensures
        merge_spec(a, b).into_this <==> a.count > b.count,
        a.count != b.count ==> merge_spec(a, b).this == merge_spec(b, a).other && merge_spec(a, b).other
            == merge_spec(b, a).this && merge_spec(a, b).into_this != merge_spec(b, a).into_this,
{
}

} // verus!
