use pumpkin::player_tick::{KeepAlive, KeepAliveAction};
use pumpkin::block_props::{FireChargeItem, IgniteOutcome};
use pumpkin::boat::{damage_with_context as hit_boat, interact_allowed, tick_wobble, BoatHit};
use pumpkin::data_component::EquipmentSlot;
use pumpkin::entity_rules::{
    dies_from_hit, get_fall_sound, hurt_outcome, is_invulnerable_to, set_living_flag,
    set_on_fire_for_ticks, should_prevent_fall_damage, try_use_death_protector, DamageKind,
    FallBlock, FallSound, Hand, HurtOutcome,
};
use pumpkin::magma::MagmaBlock;
use pumpkin::player_rules::{
    apply_mending_from_xp, apply_tool_damage_for_block_break, mending_plan_for_roll, damage_held_item, desired_pose,
    is_swimming, mending_candidates, settled_pose, update_player_pose, xp_after_mending,
    Abilities, EntityPose, GameMode, MendingPlan, MendingSlot, ModeState, PoseState,
};

fn mode_state(gamemode: GameMode) -> ModeState {
    let mut abilities = Abilities::default();
    abilities.set_for_gamemode(gamemode);
    ModeState {
        gamemode,
        abilities,
        fall_flying: true,
        sneaking: true,
        on_fire: true,
        fire_ticks: 40,
        invulnerable: false,
    }
}

#[test]
fn abilities_follow_gamemode() {
    let mut a = Abilities::default();
    assert!(a.allow_modify_world && !a.flying && !a.invulnerable);
    a.set_for_gamemode(GameMode::Creative);
    assert!(a.allow_flying && a.creative && a.invulnerable && !a.flying);
    a.set_for_gamemode(GameMode::Spectator);
    assert!(a.flying && a.allow_flying && !a.creative && a.invulnerable);
    a.set_for_gamemode(GameMode::Survival);
    assert_eq!(a, Abilities::default());
}

#[test]
fn gamemode_change_resets_state() {
    let mut s = mode_state(GameMode::Survival);
    assert!(!s.set_gamemode(GameMode::Survival, Some(GameMode::Survival)));
    assert!(!s.set_gamemode(GameMode::Creative, None));
    assert_eq!(s.gamemode, GameMode::Survival);

    assert!(s.set_gamemode(GameMode::Creative, Some(GameMode::Creative)));
    assert_eq!(s.gamemode, GameMode::Creative);
    assert!(!s.on_fire && s.fire_ticks == 0 && s.invulnerable);
    assert!(s.fall_flying && s.sneaking);

    assert!(s.set_gamemode(GameMode::Spectator, Some(GameMode::Spectator)));
    assert!(!s.fall_flying && !s.sneaking && s.invulnerable && s.abilities.flying);

    assert!(s.set_gamemode(GameMode::Adventure, Some(GameMode::Survival)));
    assert_eq!(s.gamemode, GameMode::Survival);
    assert!(!s.invulnerable && !s.abilities.flying);
}

fn pose_state() -> PoseState {
    PoseState {
        sleeping: false,
        touching_water: false,
        above_swim_height: false,
        sprinting: false,
        on_ground: true,
        flying: false,
        has_vehicle: false,
        fall_flying: false,
        sneaking: false,
    }
}

#[test]
fn poses() {
    let mut s = pose_state();
    assert_eq!(desired_pose(s), EntityPose::Standing);
    s.sneaking = true;
    assert_eq!(desired_pose(s), EntityPose::Crouching);
    s.flying = true;
    assert_eq!(desired_pose(s), EntityPose::Standing);
    s.flying = false;
    s.fall_flying = true;
    assert_eq!(desired_pose(s), EntityPose::FallFlying);
    s.touching_water = true;
    s.above_swim_height = true;
    s.sprinting = true;
    s.on_ground = false;
    assert!(is_swimming(s));
    assert_eq!(desired_pose(s), EntityPose::Swimming);
    s.sleeping = true;
    assert_eq!(desired_pose(s), EntityPose::Sleeping);

    assert_eq!(settled_pose(EntityPose::Standing, false, false, false, true), EntityPose::Crouching);
    assert_eq!(settled_pose(EntityPose::Standing, false, false, false, false), EntityPose::Swimming);
    assert_eq!(settled_pose(EntityPose::Standing, true, false, false, false), EntityPose::Standing);
    assert_eq!(update_player_pose(EntityPose::Standing, true, EntityPose::Crouching), Some(EntityPose::Crouching));
    assert_eq!(update_player_pose(EntityPose::Standing, true, EntityPose::Standing), None);
    assert_eq!(update_player_pose(EntityPose::Standing, false, EntityPose::Crouching), None);
}

#[test]
fn tool_wear() {
    assert!(!damage_held_item(GameMode::Creative));
    assert!(damage_held_item(GameMode::Adventure));
    assert_eq!(apply_tool_damage_for_block_break(GameMode::Survival, true, Some(1)), Some(1));
    assert_eq!(apply_tool_damage_for_block_break(GameMode::Survival, false, Some(1)), None);
    assert_eq!(apply_tool_damage_for_block_break(GameMode::Survival, true, Some(0)), None);
    assert_eq!(apply_tool_damage_for_block_break(GameMode::Survival, true, None), None);
    assert_eq!(apply_tool_damage_for_block_break(GameMode::Spectator, true, Some(2)), None);
    assert_eq!(apply_tool_damage_for_block_break(GameMode::Survival, true, Some(u32::MAX)), None);
}

fn slot(slot_index: usize, slot: EquipmentSlot, mending_level: i32, damage: i32) -> MendingSlot {
    MendingSlot { slot_index, slot, mending_level, damage }
}

#[test]
fn mending_picks_damaged_mending_items() {
    let main = slot(0, EquipmentSlot::main_hand(), 1, 5);
    let off = slot(40, EquipmentSlot::off_hand(), 0, 5);
    let equipment = vec![
        slot(39, EquipmentSlot::head(), 1, 3),
        slot(38, EquipmentSlot::chest(), 1, 0),
        slot(0, EquipmentSlot::main_hand(), 1, 5),
    ];
    let c = mending_candidates(main, off, &equipment);
    assert_eq!(c, vec![main, equipment[0]]);

    assert_eq!(apply_mending_from_xp(0, &c), MendingPlan::Keep);
    assert_eq!(apply_mending_from_xp(5, &vec![]), MendingPlan::Keep);
    match apply_mending_from_xp(7, &c) {
        MendingPlan::Repair { target, amount } => {
            assert!(c.contains(&target));
            assert_eq!(amount, 14);
        }
        MendingPlan::Keep => panic!("expected a repair"),
    }
    match apply_mending_from_xp(i32::MAX, &c) {
        MendingPlan::Repair { amount, .. } => assert_eq!(amount, i32::MAX),
        MendingPlan::Keep => panic!("expected a repair"),
    }
    assert_eq!(xp_after_mending(7, 0), 7);
    assert_eq!(xp_after_mending(7, 5), 4);
    assert_eq!(xp_after_mending(7, 14), 0);
    assert_eq!(xp_after_mending(i32::MIN, 4), i32::MIN);
}

#[test]
fn hurt_cooldown_and_death() {
    assert_eq!(hurt_outcome(11, DamageKind::Other, false), HurtOutcome::Refused);
    assert_eq!(hurt_outcome(11, DamageKind::Other, true), HurtOutcome::Excess);
    assert_eq!(hurt_outcome(10, DamageKind::Other, false), HurtOutcome::Full);
    assert_eq!(hurt_outcome(20, DamageKind::OutOfWorld, false), HurtOutcome::Full);
    assert!(dies_from_hit(true, DamageKind::Other, false));
    assert!(!dies_from_hit(true, DamageKind::Other, true));
    assert!(dies_from_hit(true, DamageKind::GenericKill, true));
    assert!(!dies_from_hit(false, DamageKind::GenericKill, false));
    assert_eq!(try_use_death_protector(true, true), Some(Hand::MainHand));
    assert_eq!(try_use_death_protector(false, true), Some(Hand::OffHand));
    assert_eq!(try_use_death_protector(false, false), None);
}

#[test]
fn living_flags_and_falls() {
    assert_eq!(set_living_flag(0b100, 0b001, true), 0b101);
    assert_eq!(set_living_flag(0b101, 0b001, false), 0b100);
    assert!(!should_prevent_fall_damage(true, FallBlock::Scaffolding, false, true, true));
    assert!(should_prevent_fall_damage(true, FallBlock::Scaffolding, true, true, false));
    assert!(should_prevent_fall_damage(false, FallBlock::Water, false, false, false));
    assert!(should_prevent_fall_damage(false, FallBlock::EndPortal, false, true, false));
    assert!(!should_prevent_fall_damage(false, FallBlock::EndPortal, false, false, false));
    assert!(!should_prevent_fall_damage(true, FallBlock::NetherPortal, false, true, false));
    assert!(should_prevent_fall_damage(false, FallBlock::NetherPortal, false, true, true));
    assert!(should_prevent_fall_damage(true, FallBlock::Other, false, true, false));
}

#[test]
fn magma_burns_living_walkers() {
    assert!(MagmaBlock.on_entity_step(true, false, false, false));
    assert!(!MagmaBlock.on_entity_step(false, false, false, false));
    assert!(!MagmaBlock.on_entity_step(true, true, false, false));
    assert!(!MagmaBlock.on_entity_step(true, false, true, false));
    assert!(!MagmaBlock.on_entity_step(true, false, false, true));
}

#[test]
fn fire_charge_lights_like_flint() {
    let candle = vec![("lit", "false")];
    assert_eq!(
        FireChargeItem.use_on_block(false, &candle, true),
        IgniteOutcome::Relight(vec![("lit", "true")])
    );
    assert_eq!(FireChargeItem.use_on_block(false, &vec![], true), IgniteOutcome::PlaceFire);
    assert_eq!(FireChargeItem.use_on_block(true, &candle, true), IgniteOutcome::Nothing);
}

#[test]
fn boats() {
    assert!(interact_allowed(false, false, 1, false));
    assert!(!interact_allowed(true, false, 0, false));
    assert!(!interact_allowed(false, true, 0, false));
    assert!(!interact_allowed(false, false, 2, false));
    assert!(!interact_allowed(false, false, 0, true));
    assert_eq!(tick_wobble(3), 2);
    assert_eq!(tick_wobble(0), 0);
    assert_eq!(hit_boat(false, 1, false, false), BoatHit::Gone);
    assert_eq!(hit_boat(true, 1, false, false), BoatHit::Wobbles { side: -1, ticks: 10 });
    assert_eq!(hit_boat(true, -1, true, false), BoatHit::Removed { side: 1, ticks: 10 });
    assert_eq!(hit_boat(true, 1, false, true), BoatHit::Broken { side: -1, ticks: 10 });
}

#[test]
fn fire_ticks_invulnerability_and_fall_sounds() {
    assert_eq!(set_on_fire_for_ticks(10, 100), 100);
    assert_eq!(set_on_fire_for_ticks(200, 100), 200);
    assert_eq!(set_on_fire_for_ticks(-1, 0), 0);
    assert_eq!(set_on_fire_for_ticks(5, u32::MAX), 5);
    assert!(is_invulnerable_to(DamageKind::Lava, true, false));
    assert!(is_invulnerable_to(DamageKind::Other, false, true));
    assert!(!is_invulnerable_to(DamageKind::OutOfWorld, true, true));
    assert!(!is_invulnerable_to(DamageKind::Other, false, false));
    assert_eq!(get_fall_sound(5), FallSound::BigFall);
    assert_eq!(get_fall_sound(4), FallSound::SmallFall);
}

#[test]
fn mending_pick_by_draw() {
    let a = slot(0, EquipmentSlot::main_hand(), 1, 5);
    let b = slot(39, EquipmentSlot::head(), 1, 3);
    let c = vec![a, b];
    assert_eq!(mending_plan_for_roll(3, &c, 0), MendingPlan::Repair { target: a, amount: 6 });
    assert_eq!(mending_plan_for_roll(3, &c, 7), MendingPlan::Repair { target: b, amount: 6 });
    assert_eq!(mending_plan_for_roll(0, &c, 7), MendingPlan::Keep);
    assert_eq!(mending_plan_for_roll(3, &vec![], 7), MendingPlan::Keep);
}

#[test]
fn keep_alive_exchange() {
    let mut k = KeepAlive { waiting: false, last_sent_ms: 1000, id: 0 };
    assert_eq!(k.tick(15999, false, 5), KeepAliveAction::Nothing);
    assert_eq!(k.tick(16000, true, 5), KeepAliveAction::Nothing);
    assert_eq!(k.tick(16000, false, 5), KeepAliveAction::Send { id: 5 });
    assert_eq!(k, KeepAlive { waiting: true, last_sent_ms: 16000, id: 5 });
    assert_eq!(k.tick(20000, false, 6), KeepAliveAction::Nothing);
    assert_eq!(k.tick(31000, false, 6), KeepAliveAction::Kick);
    assert_eq!(k.tick(10, false, 6), KeepAliveAction::Nothing);
}
