//! Player rules that turn on game modes and held items: the abilities each
//! game mode grants, what changing game mode resets, the pose a player
//! takes, tool wear from breaking blocks, and experience spent on mending.

use vstd::prelude::*;

use crate::chance::random_u32;
use crate::data_component::{slot_data, EquipmentSlot, EquipmentType};

verus! {

/// The game modes.
#[derive(Clone, Copy, Debug, PartialEq, Eq, Structural)]
pub enum GameMode {
    Survival,
    Creative,
    Adventure,
    Spectator,
}

/// What a player may do, apart from its flying and walking speeds.
#[derive(Clone, Copy, Debug, PartialEq, Eq)]
pub struct Abilities {
    pub invulnerable: bool,
    pub flying: bool,
    pub allow_flying: bool,
    pub creative: bool,
    pub allow_modify_world: bool,
}

impl Default for Abilities {
    /// A player that may change the world and nothing more.
    fn default() -> (r: Self)
        ensures
            r == (Abilities {
                invulnerable: false,
                flying: false,
                allow_flying: false,
                creative: false,
                allow_modify_world: true,
            }),
    {
        Abilities {
            invulnerable: false,
            flying: false,
            allow_flying: false,
            creative: false,
            allow_modify_world: true,
        }
    }
}

/// The abilities after switching to `gamemode`: creative may fly (and
/// keeps whether it flies), is creative and invulnerable; spectator flies,
/// may fly and is invulnerable; the others lose flying, creative and
/// invulnerability. Whether the world may be changed stays.
pub open spec fn abilities_for(a: Abilities, gamemode: GameMode) -> Abilities {
    match gamemode {
        GameMode::Creative => Abilities { allow_flying: true, creative: true, invulnerable: true, ..a },
        GameMode::Spectator => Abilities {
            flying: true,
            allow_flying: true,
            creative: false,
            invulnerable: true,
            ..a
        },
        _ => Abilities { flying: false, allow_flying: false, creative: false, invulnerable: false, ..a },
    }
}

impl Abilities {
    /// Sets the abilities of `gamemode`.
    pub fn set_for_gamemode(&mut self, gamemode: GameMode)
        ensures
            *final(self) == abilities_for(*old(self), gamemode),
    {
        match gamemode {
            GameMode::Creative => {
                self.allow_flying = true;
                self.creative = true;
                self.invulnerable = true;
            },
            GameMode::Spectator => {
                self.flying = true;
                self.allow_flying = true;
                self.creative = false;
                self.invulnerable = true;
            },
            _ => {
                self.flying = false;
                self.allow_flying = false;
                self.creative = false;
                self.invulnerable = false;
            },
        }
    }
}

/// Setting a game mode's abilities twice is setting them once, and no game
/// mode changes whether the world may be changed.
pub proof fn lemma_abilities_for_idempotent(a: Abilities, gamemode: GameMode)
    ensures
        abilities_for(abilities_for(a, gamemode), gamemode) == abilities_for(a, gamemode),
        abilities_for(a, gamemode).allow_modify_world == a.allow_modify_world,
{
}

/// The parts of a player a game-mode change touches.
#[derive(Clone, Copy, Debug, PartialEq, Eq)]
pub struct ModeState {
    pub gamemode: GameMode,
    pub abilities: Abilities,
    pub fall_flying: bool,
    pub sneaking: bool,
    pub on_fire: bool,
    pub fire_ticks: i32,
    pub invulnerable: bool,
}

/// The state after the change to `gamemode` goes through: the abilities of
/// the mode; creative puts fire out; spectator stops gliding and sneaking;
/// creative and spectator make the entity invulnerable, the others not.
pub open spec fn mode_changed(s: ModeState, gamemode: GameMode) -> ModeState {
    let creative = gamemode == GameMode::Creative;
    let spectator = gamemode == GameMode::Spectator;
    ModeState {
        gamemode,
        abilities: abilities_for(s.abilities, gamemode),
        fall_flying: if spectator { false } else { s.fall_flying },
        sneaking: if spectator { false } else { s.sneaking },
        on_fire: if creative { false } else { s.on_fire },
        fire_ticks: if creative { 0 } else { s.fire_ticks },
        invulnerable: creative || spectator,
    }
}

impl ModeState {
    /// Changes the game mode to `gamemode`. Nothing happens where the mode
    /// is already that one, or where the change event's answer, `event`,
    /// cancels it (`None`); else the mode the event settled on is applied.
    /// Returns whether the mode changed hands.
    pub fn set_gamemode(&mut self, gamemode: GameMode, event: Option<GameMode>) -> (r: bool)
        ensures
            old(self).gamemode == gamemode ==> !r && *final(self) == *old(self),
            old(self).gamemode != gamemode && event is None ==> !r && *final(self) == *old(self),
            old(self).gamemode != gamemode && event is Some ==> r && *final(self) == mode_changed(
                *old(self),
                event->0,
            ),
    {
        if self.gamemode == gamemode {
            return false;
        }
        let gamemode = match event {
            Some(g) => g,
            None => return false,
        };
        self.gamemode = gamemode;
        self.abilities.set_for_gamemode(gamemode);
        if gamemode == GameMode::Creative {
            self.fire_ticks = 0;
            self.on_fire = false;
        }
        if gamemode == GameMode::Spectator {
            if self.fall_flying {
                self.fall_flying = false;
            }
            if self.sneaking {
                self.sneaking = false;
            }
        }
        self.invulnerable = match gamemode {
            GameMode::Creative | GameMode::Spectator => true,
            _ => false,
        };
        true
    }
}

/// The poses a player takes.
#[derive(Clone, Copy, Debug, PartialEq, Eq, Structural)]
pub enum EntityPose {
    Standing,
    FallFlying,
    Sleeping,
    Swimming,
    SpinAttack,
    Crouching,
}

/// What a player is doing, as far as its pose goes.
#[derive(Clone, Copy, Debug, PartialEq, Eq)]
pub struct PoseState {
    pub sleeping: bool,
    pub touching_water: bool,
    /// The water reaches above the player's swim height.
    pub above_swim_height: bool,
    pub sprinting: bool,
    pub on_ground: bool,
    pub flying: bool,
    pub has_vehicle: bool,
    pub fall_flying: bool,
    pub sneaking: bool,
}

/// A player swims when it sprints in water above its swim height, off the
/// ground, neither flying nor riding.
pub open spec fn swims(s: PoseState) -> bool {
    s.touching_water && s.above_swim_height && s.sprinting && !s.on_ground && !s.flying
        && !s.has_vehicle
}

/// The pose a player wants: sleeping, then swimming, gliding, crouching
/// (sneaking while not flying), else standing. No auto spin attack is
/// tracked, so that pose is never wanted.
pub open spec fn wanted_pose(s: PoseState) -> EntityPose {
    if s.sleeping {
        EntityPose::Sleeping
    } else if swims(s) {
        EntityPose::Swimming
    } else if s.fall_flying {
        EntityPose::FallFlying
    } else if s.sneaking && !s.flying {
        EntityPose::Crouching
    } else {
        EntityPose::Standing
    }
}

/// Whether the player swims.
pub fn is_swimming(s: PoseState) -> (r: bool)
    ensures
        r == swims(s),
{
    s.touching_water && s.above_swim_height && s.sprinting && !s.on_ground && !s.flying
        && !s.has_vehicle
}

/// The pose the player wants.
pub fn desired_pose(s: PoseState) -> (r: EntityPose)
    ensures
        r == wanted_pose(s),
{
    if s.sleeping {
        EntityPose::Sleeping
    } else if is_swimming(s) {
        EntityPose::Swimming
    } else if s.fall_flying {
        EntityPose::FallFlying
    } else if s.sneaking && !s.flying {
        EntityPose::Crouching
    } else {
        EntityPose::Standing
    }
}

/// The pose a player ends up in: the wanted one for a spectator, a rider,
/// or where it fits; else crouching where that fits; else swimming.
pub fn settled_pose(
    desired: EntityPose,
    spectator: bool,
    has_vehicle: bool,
    fits_desired: bool,
    fits_crouching: bool,
) -> (r: EntityPose)
    ensures
        r == (if spectator || has_vehicle || fits_desired {
            desired
        } else if fits_crouching {
            EntityPose::Crouching
        } else {
            EntityPose::Swimming
        }),
{
    if spectator || has_vehicle || fits_desired {
        desired
    } else if fits_crouching {
        EntityPose::Crouching
    } else {
        EntityPose::Swimming
    }
}

/// The pose to set, if it changes: nothing where the player would not fit
/// even swimming; else the settled pose, where it differs from `current`.
pub fn update_player_pose(
    current: EntityPose,
    fits_swimming: bool,
    settled: EntityPose,
) -> (r: Option<EntityPose>)
    ensures
        r == (if !fits_swimming || settled == current {
            None
        } else {
            Some(settled)
        }),
{
    if !fits_swimming {
        return None;
    }
    if current != settled {
        Some(settled)
    } else {
        None
    }
}

/// Items wear in survival and adventure only.
pub open spec fn wears_items(gamemode: GameMode) -> bool {
    gamemode != GameMode::Creative && gamemode != GameMode::Spectator
}

/// Whether the held item takes damage at all in this game mode.
pub fn damage_held_item(gamemode: GameMode) -> (r: bool)
    ensures
        r == wears_items(gamemode),
{
    match gamemode {
        GameMode::Creative | GameMode::Spectator => false,
        _ => true,
    }
}

/// The wear breaking a block puts on the held tool: none in creative or
/// spectator, for a block of no hardness, or without a tool; else the
/// tool's damage per block, read as a signed number, where it is positive.
pub fn apply_tool_damage_for_block_break(
    gamemode: GameMode,
    hardness_positive: bool,
    damage_per_block: Option<u32>,
) -> (r: Option<i32>)
    ensures
        r == (if !wears_items(gamemode) || !hardness_positive {
            None
        } else {
            match damage_per_block {
                Some(d) => if (d as i32) > 0 {
                    Some(d as i32)
                } else {
                    None
                },
                None => None,
            }
        }),
{
    if !damage_held_item(gamemode) {
        return None;
    }
    if !hardness_positive {
        return None;
    }
    let damage: i32 = match damage_per_block {
        Some(d) => d as i32,
        None => 0,
    };
    if damage > 0 {
        Some(damage)
    } else {
        None
    }
}

/// An item a player holds or wears, as mending sees it.
#[derive(Clone, Copy, Debug, PartialEq, Eq)]
pub struct MendingSlot {
    pub slot_index: usize,
    pub slot: EquipmentSlot,
    pub mending_level: i32,
    pub damage: i32,
}

/// An item mending can repair: enchanted with mending and damaged.
pub open spec fn mendable(s: MendingSlot) -> bool {
    s.mending_level > 0 && s.damage > 0
}

/// A slot holds armor.
pub open spec fn is_armor(s: EquipmentSlot) -> bool {
    slot_data(s).slot_type == EquipmentType::HumanoidArmor || slot_data(s).slot_type
        == EquipmentType::AnimalArmor
}

/// The items mending may pick, in order: the main hand, the off hand, then
/// each armor slot, each where it is mendable.
pub open spec fn mending_pool(main: MendingSlot, off: MendingSlot, equipment: Seq<MendingSlot>) -> Seq<
    MendingSlot,
> {
    (if mendable(main) {
        seq![main]
    } else {
        Seq::empty()
    }) + (if mendable(off) {
        seq![off]
    } else {
        Seq::empty()
    }) + equipment.filter(|s: MendingSlot| is_armor(s.slot) && mendable(s))
}

/// The items mending may pick.
pub fn mending_candidates(main: MendingSlot, off: MendingSlot, equipment: &Vec<MendingSlot>) -> (r:
    Vec<MendingSlot>)
    ensures
        r@ == mending_pool(main, off, equipment@),
{
    let mut r: Vec<MendingSlot> = Vec::new();
    if main.mending_level > 0 && main.damage > 0 {
        r.push(main);
    }
    if off.mending_level > 0 && off.damage > 0 {
        r.push(off);
    }
    let ghost head = r@;
    let mut i: usize = 0;
    while i < equipment.len()
        invariant
            i <= equipment@.len(),
            r@ == head + equipment@.take(i as int).filter(
                |s: MendingSlot| is_armor(s.slot) && mendable(s),
            ),
        decreases equipment@.len() - i,
    {
        proof {
            reveal(Seq::filter);
            assert(equipment@.take(i as int + 1).drop_last() =~= equipment@.take(i as int));
        }
        let s = equipment[i];
        if s.slot.is_armor_slot() && s.mending_level > 0 && s.damage > 0 {
            r.push(s);
        }
        i += 1;
    }
    assert(equipment@.take(equipment@.len() as int) =~= equipment@);
    proof {
        assert(head == (if mendable(main) {
            seq![main]
        } else {
            Seq::<MendingSlot>::empty()
        }) + (if mendable(off) {
            seq![off]
        } else {
            Seq::<MendingSlot>::empty()
        }));
    }
    r
}

/// What mending does with experience: keep it, or repair one item.
#[derive(Clone, Copy, Debug, PartialEq, Eq)]
pub enum MendingPlan {
    /// Nothing is repaired; the experience stays.
    Keep,
    /// This item is repaired by up to `amount` (twice the experience,
    /// stopping at the largest value).
    Repair { target: MendingSlot, amount: i32 },
}

/// Twice the experience, stopping at the largest value.
pub open spec fn doubled_xp(xp: i32) -> i32 {
    if xp * 2 > i32::MAX {
        i32::MAX
    } else {
        (xp * 2) as i32
    }
}

/// Where experience goes to mending for a draw `roll`: nowhere for no
/// experience or no candidate; else the candidate the draw, modulo their
/// number, picks is to be repaired by twice the experience.
pub open spec fn mending_plan(xp: i32, candidates: Seq<MendingSlot>, roll: u32) -> MendingPlan {
    if xp <= 0 || candidates.len() == 0 {
        MendingPlan::Keep
    } else {
        MendingPlan::Repair {
            target: candidates[(roll as int) % (candidates.len() as int)],
            amount: doubled_xp(xp),
        }
    }
}

/// Where experience goes to mending for the draw `roll`.
pub fn mending_plan_for_roll(xp: i32, candidates: &Vec<MendingSlot>, roll: u32) -> (r: MendingPlan)
    ensures
        r == mending_plan(xp, candidates@, roll),
{
    if xp <= 0 {
        return MendingPlan::Keep;
    }
    if candidates.len() == 0 {
        return MendingPlan::Keep;
    }
    let idx = (roll as usize) % candidates.len();
    let doubled: i64 = xp as i64 * 2;
    let amount: i32 = if doubled > i32::MAX as i64 {
        i32::MAX
    } else {
        doubled as i32
    };
    MendingPlan::Repair { target: candidates[idx], amount }
}

/// Where experience goes to mending: nowhere for no experience or no
/// candidate; else a candidate picked by a random draw is to be repaired by
/// twice the experience.
pub fn apply_mending_from_xp(xp: i32, candidates: &Vec<MendingSlot>) -> (r: MendingPlan)
    ensures
        exists|roll: u32| r == #[trigger] mending_plan(xp, candidates@, roll),
        xp <= 0 || candidates@.len() == 0 ==> r == MendingPlan::Keep,
{
    let roll = random_u32();
    let r = mending_plan_for_roll(xp, candidates, roll);
    assert(r == mending_plan(xp, candidates@, roll));
    r
}

/// The experience left after mending repaired `repaired` durability: all of
/// it where nothing was repaired; else less the half of the repair, rounded
/// up, stopping at the smallest value.
pub fn xp_after_mending(xp: i32, repaired: i32) -> (r: i32)
    requires
        repaired < i32::MAX,
    ensures
        r == (if repaired <= 0 {
            xp as int
        } else if xp - (repaired + 1) / 2 < i32::MIN {
            i32::MIN as int
        } else {
            xp - (repaired + 1) / 2
        }),
{
    if repaired <= 0 {
        return xp;
    }
    let used: i32 = (repaired + 1) / 2;
    let left: i64 = xp as i64 - used as i64;
    if left < i32::MIN as i64 {
        i32::MIN
    } else {
        left as i32
    }
}

} // verus!
