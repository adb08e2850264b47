//! Rules of entities in the world: riders of a vehicle, where a rider gets
//! off, freezing in powder snow, portal cooldowns, status effects running
//! out, and the key of a death message.

use vstd::prelude::*;

use crate::text::concat_strs;
use crate::varint::VarInt;

verus! {

/// The entities riding a vehicle, by entity id, in the order they got on.
pub struct Passengers {
    pub ids: Vec<i32>,
}

/// The ids as sent in a passengers packet.
pub open spec fn ids_as_varints(ids: Seq<i32>) -> Seq<VarInt> {
    ids.map_values(|i: i32| VarInt(i))
}

/// The ticks a rider waits before it may get on again.
pub const RIDING_COOLDOWN: i32 = 60;

/// The ids as sent in a passengers packet.
fn varints_of(ids: &Vec<i32>) -> (r: Vec<VarInt>)
    ensures
        r@ == ids_as_varints(ids@),
{
    let mut out: Vec<VarInt> = Vec::new();
    let mut i: usize = 0;
    while i < ids.len()
        invariant
            i <= ids@.len(),
            out@ == ids_as_varints(ids@.subrange(0, i as int)),
        decreases ids@.len() - i,
    {
        out.push(VarInt(ids[i]));
        i += 1;
        assert(out@ =~= ids_as_varints(ids@.subrange(0, i as int)));
    }
    assert(ids@.subrange(0, ids@.len() as int) =~= ids@);
    out
}

/// The first place of `id` in `ids`.
fn first_index(ids: &Vec<i32>, id: i32) -> (r: Option<usize>)
    ensures
        match r {
            Some(i) => i < ids@.len() && ids@[i as int] == id && forall|j: int| 0 <= j < i ==> ids@[j] != id,
            None => !ids@.contains(id),
        },
{
    let mut i: usize = 0;
    while i < ids.len()
        invariant
            i <= ids@.len(),
            forall|j: int| 0 <= j < i ==> ids@[j] != id,
        decreases ids@.len() - i,
    {
        if ids[i] == id {
            return Some(i);
        }
        i += 1;
    }
    None
}

/// A rider's link to its vehicle: the vehicle's id, if it rides, and the
/// ticks before it may get on again.
#[derive(Clone, Copy, Debug, PartialEq, Eq)]
pub struct RiderLink {
    pub vehicle: Option<i32>,
    pub riding_cooldown: i32,
}

/// A rider that got off: its place in the list, and its link after it got
/// off.
#[derive(Clone, Copy, Debug, PartialEq, Eq)]
pub struct Dismounted {
    pub index: usize,
    pub rider: RiderLink,
}

impl Passengers {
    /// The rider `id` gets on the vehicle `vehicle`, after the others: the
    /// rider now rides that vehicle; the ids to send are returned.
    pub fn add_passenger(&mut self, vehicle: i32, id: i32, rider: &mut RiderLink) -> (r: Vec<VarInt>)
        ensures
            final(self).ids@ == old(self).ids@.push(id),
            r@ == ids_as_varints(final(self).ids@),
            final(rider).vehicle == Some(vehicle),
            final(rider).riding_cooldown == old(rider).riding_cooldown,
    {
        rider.vehicle = Some(vehicle);
        self.ids.push(id);
        varints_of(&self.ids)
    }

    /// The rider `id` gets off: the first rider with that id leaves the
    /// list; its place is returned with its new link, which rides nothing
    /// and waits `RIDING_COOLDOWN` ticks before it may get on again. The ids
    /// of those left are to be sent. Nothing changes where no rider has
    /// that id.
    pub fn remove_passenger(&mut self, id: i32) -> (r: (Option<Dismounted>, Vec<VarInt>))
        ensures
            match r.0 {
                Some(d) => {
                    &&& d.index < old(self).ids@.len()
                    &&& old(self).ids@[d.index as int] == id
                    &&& forall|j: int| 0 <= j < d.index ==> old(self).ids@[j] != id
                    &&& final(self).ids@ == old(self).ids@.remove(d.index as int)
                    &&& d.rider == (RiderLink { vehicle: None, riding_cooldown: RIDING_COOLDOWN })
                },
                None => !old(self).ids@.contains(id) && final(self).ids@ == old(self).ids@,
            },
            r.1@ == ids_as_varints(final(self).ids@),
    {
        let found = first_index(&self.ids, id);
        let gone = match found {
            Some(k) => {
                self.ids.remove(k);
                Some(
                    Dismounted {
                        index: k,
                        rider: RiderLink { vehicle: None, riding_cooldown: RIDING_COOLDOWN },
                    },
                )
            },
            None => None,
        };
        let ids = varints_of(&self.ids);
        (gone, ids)
    }
}

/// A rider that gets on and then off, where no other rider shares its id,
/// leaves the riders as they were: it is found at the end, where it got on.
pub proof fn lemma_add_then_remove(ids: Seq<i32>, id: i32)
    requires
        !ids.contains(id),
    ensures
        ids.push(id).remove(ids.len() as int) == ids,
        forall|j: int| 0 <= j < ids.len() ==> ids.push(id)[j] != id,
{
    assert(ids.push(id).remove(ids.len() as int) =~= ids);
}

/// The poses a rider tries when it gets off: standing, crouching, swimming.
#[derive(Clone, Copy, Debug, PartialEq, Eq)]
pub enum DismountPose {
    Standing,
    Crouching,
    Swimming,
}

/// The `i`-th pose tried.
pub open spec fn pose_at(i: int) -> DismountPose {
    if i == 0 {
        DismountPose::Standing
    } else if i == 1 {
        DismountPose::Crouching
    } else {
        DismountPose::Swimming
    }
}

/// Where a rider gets off: `space_empty[p][c]` says whether the rider in
/// the `p`-th pose fits at the `c`-th place; the first pose, in order, that
/// fits anywhere, at the first place it fits; nothing where none fits (the
/// rider then gets off on top of the vehicle).
pub fn choose_dismount(space_empty: &Vec<Vec<bool>>) -> (r: Option<(DismountPose, usize)>)
    requires
        space_empty@.len() == 3,
    ensures
        match r {
            Some((pose, c)) => exists|p: int|
                0 <= p < 3 && pose == pose_at(p) && c < space_empty@[p]@.len() && space_empty@[p]@[c as int]
                    && (forall|q: int, d: int|
                    0 <= q < p && 0 <= d < space_empty@[q]@.len() ==> !space_empty@[q]@[d]) && (forall|d: int|
                    0 <= d < c ==> !space_empty@[p]@[d]),
            None => forall|q: int, d: int|
                0 <= q < 3 && 0 <= d < space_empty@[q]@.len() ==> !space_empty@[q]@[d],
        },
{
    let mut p: usize = 0;
    while p < 3
        invariant
            p <= 3,
            space_empty@.len() == 3,
            forall|q: int, d: int| 0 <= q < p && 0 <= d < space_empty@[q]@.len() ==> !space_empty@[q]@[d],
        decreases 3 - p,
    {
        let row = &space_empty[p];
        let mut c: usize = 0;
        while c < row.len()
            invariant
                c <= row@.len(),
                p < 3,
                space_empty@.len() == 3,
                forall|q: int, d: int| 0 <= q < p && 0 <= d < space_empty@[q]@.len() ==> !space_empty@[q]@[d],
                row@ == space_empty@[p as int]@,
                forall|d: int| 0 <= d < c ==> !row@[d],
            decreases row@.len() - c,
        {
            if row[c] {
                let pose = if p == 0 {
                    DismountPose::Standing
                } else if p == 1 {
                    DismountPose::Crouching
                } else {
                    DismountPose::Swimming
                };
                assert(pose == pose_at(p as int));
                assert(0 <= p < 3 && pose == pose_at(p as int) && c < space_empty@[p as int]@.len()
                    && space_empty@[p as int]@[c as int] && (forall|q: int, d: int|
                    0 <= q < p && 0 <= d < space_empty@[q]@.len() ==> !space_empty@[q]@[d]) && (forall|d: int|
                    0 <= d < c ==> !space_empty@[p as int]@[d]));
                return Some((pose, c));
            }
            c += 1;
        }
        p += 1;
    }
    None
}

/// The most frozen ticks (7 seconds).
pub const MAX_FROZEN_TICKS: i32 = 140;

/// How often a fully frozen entity takes freeze damage, in ticks.
pub const FREEZE_DAMAGE_INTERVAL: i32 = 40;

/// What a tick of freezing does.
#[derive(Clone, Copy, Debug, PartialEq, Eq)]
pub struct FreezeStep {
    pub frozen_ticks: i32,
    /// The value changed and is sent to clients.
    pub send: bool,
    /// The entity takes freeze damage.
    pub damage: bool,
}

/// One tick of freezing: in powder snow the frozen ticks grow by one up to
/// 140, out of it they fall by two down to 0; a fully frozen entity takes
/// damage every 40 ticks of its age. Entities immune to freezing are left
/// alone.
pub fn tick_frozen(freeze_immune: bool, in_powder_snow: bool, frozen_ticks: i32, age: i32) -> (r: Option<FreezeStep>)
    requires
        0 <= frozen_ticks <= MAX_FROZEN_TICKS,
    ensures
        freeze_immune ==> r is None,
        !freeze_immune ==> r == Some(
            FreezeStep {
                frozen_ticks: if in_powder_snow {
                    if frozen_ticks + 1 < MAX_FROZEN_TICKS { (frozen_ticks + 1) as i32 } else { MAX_FROZEN_TICKS }
                } else {
                    if frozen_ticks - 2 > 0 { (frozen_ticks - 2) as i32 } else { 0i32 }
                },
                send: (if in_powder_snow {
                    if frozen_ticks + 1 < MAX_FROZEN_TICKS { frozen_ticks + 1 } else { MAX_FROZEN_TICKS as int }
                } else {
                    if frozen_ticks - 2 > 0 { frozen_ticks - 2 } else { 0 }
                }) != frozen_ticks,
                damage: (if in_powder_snow {
                    if frozen_ticks + 1 < MAX_FROZEN_TICKS { frozen_ticks + 1 } else { MAX_FROZEN_TICKS as int }
                } else {
                    if frozen_ticks - 2 > 0 { frozen_ticks - 2 } else { 0 }
                }) >= MAX_FROZEN_TICKS && age % FREEZE_DAMAGE_INTERVAL == 0,
            },
        ),
{
    if freeze_immune {
        return None;
    }
    let new_ticks = if in_powder_snow {
        if frozen_ticks + 1 < MAX_FROZEN_TICKS { frozen_ticks + 1 } else { MAX_FROZEN_TICKS }
    } else {
        if frozen_ticks - 2 > 0 { frozen_ticks - 2 } else { 0 }
    };
    let damage = new_ticks >= MAX_FROZEN_TICKS && age % FREEZE_DAMAGE_INTERVAL == 0;
    Some(FreezeStep { frozen_ticks: new_ticks, send: new_ticks != frozen_ticks, damage })
}

/// The ticks before an entity may use a portal again: 10 for a player,
/// 300 for anything else.
pub fn default_portal_cooldown(is_player: bool) -> (r: u32)
    ensures
        r == (if is_player { 10u32 } else { 300u32 }),
{
    if is_player { 10 } else { 300 }
}

/// What an entity standing in a portal does.
#[derive(Clone, Copy, Debug, PartialEq, Eq)]
pub enum PortalEntry {
    /// A rider waits for its vehicle.
    Riding,
    /// The entity used a portal recently: its cooldown starts over.
    CoolingDown,
    /// The server does not allow travel to that dimension.
    NotAllowed,
    /// The entity starts waiting in the portal.
    Start,
    /// The entity keeps waiting in the portal, now at this place.
    Continue,
}

/// What an entity in a portal does: a rider waits for its vehicle; an
/// entity still cooling down starts its cooldown over; travel the server
/// forbids does not start; else the entity starts, or keeps, waiting in the
/// portal.
pub fn try_use_portal(has_vehicle: bool, cooldown: u32, allowed: bool, waiting: bool) -> (r: PortalEntry)
    ensures
        r == (if has_vehicle {
            PortalEntry::Riding
        } else if cooldown > 0 {
            PortalEntry::CoolingDown
        } else if !allowed {
            PortalEntry::NotAllowed
        } else if !waiting {
            PortalEntry::Start
        } else {
            PortalEntry::Continue
        }),
{
    if has_vehicle {
        PortalEntry::Riding
    } else if cooldown > 0 {
        PortalEntry::CoolingDown
    } else if !allowed {
        PortalEntry::NotAllowed
    } else if !waiting {
        PortalEntry::Start
    } else {
        PortalEntry::Continue
    }
}

/// A portal cooldown after a tick: one less, stopping at 0.
pub fn tick_portal_cooldown(cooldown: u32) -> (r: u32)
    ensures
        r == (if cooldown > 0 { cooldown - 1 } else { 0 }),
{
    if cooldown > 0 { cooldown - 1 } else { 0 }
}

/// One tick of status effects, each an effect id with its remaining
/// duration: every duration falls by one, and the effects that were at 0
/// are to be removed (returned in order).
pub fn tick_effects(effects: &mut Vec<(i32, i32)>) -> (r: Vec<i32>)
    requires
        forall|i: int| 0 <= i < old(effects)@.len() ==> (#[trigger] old(effects)@[i]).1 > i32::MIN,
    ensures
        final(effects)@.len() == old(effects)@.len(),
        forall|i: int|
            0 <= i < final(effects)@.len() ==> (#[trigger] final(effects)@[i]).0 == old(effects)@[i].0
                && final(effects)@[i].1 == old(effects)@[i].1 - 1,
        r@ == old(effects)@.filter(|e: (i32, i32)| e.1 == 0).map_values(|e: (i32, i32)| e.0),
{
    let ghost start = effects@;
    let mut removed: Vec<i32> = Vec::new();
    proof {
        reveal(Seq::filter);
    }
    assert(start.subrange(0, 0).filter(|e: (i32, i32)| e.1 == 0) =~= Seq::<(i32, i32)>::empty());
    let mut i: usize = 0;
    while i < effects.len()
        invariant
            i <= effects@.len(),
            effects@.len() == start.len(),
            forall|k: int| 0 <= k < start.len() ==> (#[trigger] start[k]).1 > i32::MIN,
            forall|k: int| i <= k < start.len() ==> effects@[k] == start[k],
            forall|k: int|
                0 <= k < i ==> (#[trigger] effects@[k]).0 == start[k].0 && effects@[k].1 == start[k].1 - 1,
            removed@ == start.subrange(0, i as int).filter(|e: (i32, i32)| e.1 == 0).map_values(
                |e: (i32, i32)| e.0,
            ),
        decreases start.len() - i,
    {
        let (id, duration) = effects[i];
        assert(start.subrange(0, (i + 1) as int).drop_last() =~= start.subrange(0, i as int));
        proof {
            reveal(Seq::filter);
        }
        assert(start.subrange(0, (i + 1) as int).last() == start[i as int]);
        if duration == 0 {
            let ghost before = removed@;
            removed.push(id);
            assert(removed@ =~= before.push(id));
        }
        effects.set(i, (id, duration - 1));
        i += 1;
        assert(removed@ =~= start.subrange(0, i as int).filter(|e: (i32, i32)| e.1 == 0).map_values(
            |e: (i32, i32)| e.0,
        ));
    }
    assert(start.subrange(0, start.len() as int) =~= start);
    removed
}

/// The kinds of death message.
#[derive(Clone, Copy, Debug, PartialEq, Eq)]
pub enum DeathMessageType {
    Default,
    FallVariants,
    IntentionalGameDesign,
}

/// A death message: a translation key with the dead entity's name (and
/// the killer's name when `with_killer`), shown in square brackets when
/// `bracketed`.
pub struct DeathMessage {
    pub key: String,
    pub with_killer: bool,
    pub bracketed: bool,
}

/// The death message for a damage type of the given kind and message id:
/// by default "death.attack.<id>", with ".player" and the killer's name
/// when there is a killer and a source; for falls the generic fall
/// message; for intentional game design "death.attack.<id>.message" in
/// brackets.
pub fn get_death_message(kind: DeathMessageType, message_id: &str, has_killer: bool) -> (r: DeathMessage)
    ensures
        kind == DeathMessageType::Default && has_killer ==> r.key@ == "death.attack."@ + message_id@
            + ".player"@ && r.with_killer && !r.bracketed,
        kind == DeathMessageType::Default && !has_killer ==> r.key@ == "death.attack."@ + message_id@
            && !r.with_killer && !r.bracketed,
        kind == DeathMessageType::FallVariants ==> r.key@ == "death.fell.accident.generic"@ && !r.with_killer
            && !r.bracketed,
        kind == DeathMessageType::IntentionalGameDesign ==> r.key@ == "death.attack."@ + message_id@
            + ".message"@ && !r.with_killer && r.bracketed,
{
    match kind {
        DeathMessageType::Default => {
            let base = concat_strs("death.attack.", message_id);
            if has_killer {
                let key = concat_strs(base.as_str(), ".player");
                DeathMessage { key, with_killer: true, bracketed: false }
            } else {
                DeathMessage { key: base, with_killer: false, bracketed: false }
            }
        },
        DeathMessageType::FallVariants => DeathMessage {
            key: "death.fell.accident.generic".to_owned(),
            with_killer: false,
            bracketed: false,
        },
        DeathMessageType::IntentionalGameDesign => {
            let base = concat_strs("death.attack.", message_id);
            let key = concat_strs(base.as_str(), ".message");
            DeathMessage { key, with_killer: false, bracketed: true }
        },
    }
}

/// How many chickens hatch from a thrown egg for a byte drawn at random:
/// four on 0 (1 in 256), one below 32 (31 in 256), else none.
pub fn egg_hatch_count(roll: u8) -> (r: usize)
    ensures
        r == (if roll == 0 { 4usize } else if roll < 32 { 1usize } else { 0usize }),
{
    if roll == 0 {
        4
    } else if roll < 32 {
        1
    } else {
        0
    }
}

/// How many chickens hatch from a thrown egg, the byte drawn at random.
pub fn draw_egg_hatch_count() -> (r: usize)
    ensures
        r == 0 || r == 1 || r == 4,
{
    egg_hatch_count(crate::chance::random_below(256) as u8)
}

/// What the damage rules read of a damage type.
#[derive(Clone, Copy, Debug, PartialEq, Eq)]
pub enum DamageKind {
    InFire,
    OnFire,
    Lava,
    HotFloor,
    GenericKill,
    OutOfWorld,
    Other,
}

/// What stands before a living entity takes damage.
#[derive(Clone, Copy, Debug, PartialEq, Eq)]
pub struct DamageGate {
    /// The entity is invulnerable to this damage type.
    pub invulnerable: bool,
    /// The entity's health is down to zero or it is dead.
    pub dying: bool,
    /// The amount is below zero.
    pub negative_amount: bool,
    pub is_player: bool,
    /// The game rule that lets fire hurt players.
    pub fire_damage_rule: bool,
    pub has_fire_resistance: bool,
}

/// Damage from fire, lava or a hot floor.
pub open spec fn is_fire_damage(k: DamageKind) -> bool {
    k == DamageKind::InFire || k == DamageKind::OnFire || k == DamageKind::Lava || k == DamageKind::HotFloor
}

/// Whether damage of kind `kind` gets through to a living entity: not when
/// it is invulnerable to it, dying, or the amount is negative; fire damage
/// not to a player when the game rule is off, nor to an entity resisting
/// fire.
pub fn damage_allowed(kind: DamageKind, gate: DamageGate) -> (r: bool)
    ensures
        r == (!gate.invulnerable && !gate.dying && !gate.negative_amount && !(is_fire_damage(kind) && ((
        gate.is_player && !gate.fire_damage_rule) || gate.has_fire_resistance))),
{
    if gate.invulnerable || gate.dying || gate.negative_amount {
        return false;
    }
    let fire = match kind {
        DamageKind::InFire | DamageKind::OnFire | DamageKind::Lava | DamageKind::HotFloor => true,
        _ => false,
    };
    if fire {
        if gate.is_player && !gate.fire_damage_rule {
            return false;
        }
        if gate.has_fire_resistance {
            return false;
        }
    }
    true
}

/// Whether damage of kind `kind` skips the hurt cooldown: a generic kill or
/// falling out of the world.
pub fn bypasses_cooldown(kind: DamageKind) -> (r: bool)
    ensures
        r == (kind == DamageKind::GenericKill || kind == DamageKind::OutOfWorld),
{
    match kind {
        DamageKind::GenericKill | DamageKind::OutOfWorld => true,
        _ => false,
    }
}

/// What the hurt cooldown makes of a hit.
#[derive(Clone, Copy, Debug, PartialEq, Eq)]
pub enum HurtOutcome {
    /// The hit does nothing: the entity is still recovering and the hit is
    /// no harder than the last one.
    Refused,
    /// Only the part of the hit above the last one counts; no hurt sound.
    Excess,
    /// The whole hit counts; the cooldown starts over at 20 ticks and the
    /// hurt sound plays.
    Full,
}

/// How a hit meets the hurt cooldown: while more than 10 ticks of it are
/// left, a hit that does not bypass it counts only where it is harder than
/// the last (`harder_than_last`), and then only by the excess; otherwise
/// the whole hit counts.
pub fn hurt_outcome(hurt_cooldown: i32, kind: DamageKind, harder_than_last: bool) -> (r: HurtOutcome)
    ensures
        r == (if hurt_cooldown > 10 && !(kind == DamageKind::GenericKill || kind
            == DamageKind::OutOfWorld) {
            if harder_than_last {
                HurtOutcome::Excess
            } else {
                HurtOutcome::Refused
            }
        } else {
            HurtOutcome::Full
        }),
{
    if hurt_cooldown > 10 && !bypasses_cooldown(kind) {
        if harder_than_last {
            HurtOutcome::Excess
        } else {
            HurtOutcome::Refused
        }
    } else {
        HurtOutcome::Full
    }
}

/// Whether a hit kills: the health is gone, and the damage bypasses death
/// protection or no protector saved the entity (`protector_saved`, which is
/// only asked for when the damage does not bypass it).
pub fn dies_from_hit(health_gone: bool, kind: DamageKind, protector_saved: bool) -> (r: bool)
    ensures
        r == (health_gone && ((kind == DamageKind::GenericKill || kind == DamageKind::OutOfWorld)
            || !protector_saved)),
{
    health_gone && (bypasses_cooldown(kind) || !protector_saved)
}

/// The two hands.
#[derive(Clone, Copy, Debug, PartialEq, Eq)]
pub enum Hand {
    MainHand,
    OffHand,
}

/// The hand whose item protects from death: the main hand first, then the
/// off hand, each where it holds a death protector.
pub fn try_use_death_protector(main_protects: bool, off_protects: bool) -> (r: Option<Hand>)
    ensures
        r == (if main_protects {
            Some(Hand::MainHand)
        } else if off_protects {
            Some(Hand::OffHand)
        } else {
            None
        }),
{
    if main_protects {
        Some(Hand::MainHand)
    } else if off_protects {
        Some(Hand::OffHand)
    } else {
        None
    }
}

/// The living flags with `flag` set where `value` holds, cleared otherwise.
pub fn set_living_flag(flags: u8, flag: u8, value: bool) -> (r: u8)
    ensures
        r == (if value {
            flags | flag
        } else {
            flags & !flag
        }),
{
    if value {
        flags | flag
    } else {
        flags & !flag
    }
}

/// The blocks that matter to whether a fall hurts.
#[derive(Clone, Copy, Debug, PartialEq, Eq)]
pub enum FallBlock {
    Scaffolding,
    Water,
    EndGateway,
    EndPortal,
    NetherPortal,
    Other,
}

/// Whether a fall does no damage, where the entity is in `block` and
/// `prevents` says whether that place resets falls: scaffolding does not
/// help a non-sneaking entity; water always helps; for players, end
/// gateways and end portals help, and nether portals help where their
/// default delay for players is 0; else `prevents` decides.
pub fn should_prevent_fall_damage(
    prevents: bool,
    block: FallBlock,
    sneaking: bool,
    is_player: bool,
    portal_delay_zero: bool,
) -> (r: bool)
    ensures
        r == (if block == FallBlock::Scaffolding && !sneaking {
            false
        } else if block == FallBlock::Water {
            true
        } else if is_player && (block == FallBlock::EndGateway || block == FallBlock::EndPortal) {
            true
        } else if is_player && block == FallBlock::NetherPortal {
            portal_delay_zero
        } else {
            prevents
        }),
{
    match block {
        FallBlock::Scaffolding => {
            if !sneaking {
                return false;
            }
        },
        FallBlock::Water => {
            return true;
        },
        _ => {},
    }
    if is_player {
        match block {
            FallBlock::EndGateway | FallBlock::EndPortal => {
                return true;
            },
            FallBlock::NetherPortal => {
                return portal_delay_zero;
            },
            _ => {},
        }
    }
    prevents
}

/// The fire ticks after setting an entity on fire for `ticks`: the longer
/// of the two, `ticks` read as a signed number.
pub fn set_on_fire_for_ticks(fire_ticks: i32, ticks: u32) -> (r: i32)
    ensures
        r == (if fire_ticks < (ticks as i32) {
            ticks as i32
        } else {
            fire_ticks
        }),
{
    let t = ticks as i32;
    if fire_ticks < t {
        t
    } else {
        fire_ticks
    }
}

/// Whether an entity shrugs off damage of a kind: never for the kinds that
/// bypass everything; else where it is invulnerable or immune to the kind.
pub fn is_invulnerable_to(kind: DamageKind, invulnerable: bool, immune_to_kind: bool) -> (r: bool)
    ensures
        r == (!(kind == DamageKind::GenericKill || kind == DamageKind::OutOfWorld) && (invulnerable
            || immune_to_kind)),
{
    !bypasses_cooldown(kind) && (invulnerable || immune_to_kind)
}

/// The sound of a landing.
#[derive(Clone, Copy, Debug, PartialEq, Eq)]
pub enum FallSound {
    SmallFall,
    BigFall,
}

/// The big fall sound for a fall of more than 4 blocks, else the small one.
pub fn get_fall_sound(distance: i32) -> (r: FallSound)
    ensures
        r == (if distance > 4 {
            FallSound::BigFall
        } else {
            FallSound::SmallFall
        }),
{
    if distance > 4 {
        FallSound::BigFall
    } else {
        FallSound::SmallFall
    }
}

} // verus!
