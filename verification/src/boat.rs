//! The boat: who may board it, how it wobbles when hit, and when a hit
//! breaks it. Its wobble strength and time under water are fractional and
//! stay with the caller, which hands over the comparisons made on them.

use vstd::prelude::*;

verus! {

/// Whether a player may board a boat: not while sneaking, not once the
/// boat has been under water for its full 60 ticks (`underwater_full`), not
/// with two riders aboard, and not while the player rides something.
pub fn interact_allowed(
    sneaking: bool,
    underwater_full: bool,
    passengers: usize,
    has_vehicle: bool,
) -> (r: bool)
    ensures
        r == (!sneaking && !underwater_full && passengers < 2 && !has_vehicle),
{
    if sneaking {
        return false;
    }
    if underwater_full {
        return false;
    }
    if passengers >= 2 {
        return false;
    }
    if has_vehicle {
        return false;
    }
    true
}

/// The wobble ticks after a tick: one less, stopping at 0.
pub fn tick_wobble(ticks: i32) -> (r: i32)
    ensures
        r == (if ticks > 0 {
            ticks - 1
        } else {
            ticks as int
        }),
{
    if ticks > 0 {
        ticks - 1
    } else {
        ticks
    }
}

/// What a hit does to a boat.
#[derive(Clone, Copy, Debug, PartialEq, Eq)]
pub enum BoatHit {
    /// The boat is already gone; the hit counts as taken.
    Gone,
    /// The boat wobbles to the other side for 10 ticks.
    Wobbles { side: i32, ticks: i32 },
    /// A creative player's hit removes the boat, after it wobbles.
    Removed { side: i32, ticks: i32 },
    /// The wobble strength passed 40: the boat breaks and drops itself.
    Broken { side: i32, ticks: i32 },
}

/// The outcome of a hit on a boat wobbling to `side`, where `by_creative`
/// says whether a creative player struck and `strength_over_40` whether
/// the wobble strength, raised by ten times the damage, passed 40.
pub fn damage_with_context(alive: bool, side: i32, by_creative: bool, strength_over_40: bool) -> (r:
    BoatHit)
    requires
        side > i32::MIN,
    ensures
        !alive ==> r == BoatHit::Gone,
        alive && by_creative ==> r == (BoatHit::Removed { side: (-side) as i32, ticks: 10 }),
        alive && !by_creative && strength_over_40 ==> r == (BoatHit::Broken { side: (-side) as i32, ticks: 10 }),
        alive && !by_creative && !strength_over_40 ==> r == (BoatHit::Wobbles {
            side: (-side) as i32,
            ticks: 10,
        }),
{
    if !alive {
        return BoatHit::Gone;
    }
    let new_side = -side;
    if by_creative {
        BoatHit::Removed { side: new_side, ticks: 10 }
    } else if strength_over_40 {
        BoatHit::Broken { side: new_side, ticks: 10 }
    } else {
        BoatHit::Wobbles { side: new_side, ticks: 10 }
    }
}

} // verus!
