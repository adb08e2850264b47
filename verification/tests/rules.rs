use pumpkin::block_props::{EnderEyeItem, IgniteOutcome, Ignition};
use pumpkin::bucket::{BucketBlock, BucketKind, EmptyBucketItem, EmptyBucketPlan, FillPlan, FilledBucketItem, Target};
use pumpkin::entity_rules::{
    bypasses_cooldown, damage_allowed, DamageGate, DamageKind, choose_dismount, default_portal_cooldown, egg_hatch_count, get_death_message, tick_effects,
    tick_frozen, tick_portal_cooldown, try_use_portal, DeathMessageType, DismountPose, FreezeStep,
    Dismounted, Passengers, PortalEntry, RiderLink, RIDING_COOLDOWN,
};
use pumpkin::item_entity::{AgeStep, ItemEntity, ItemEntityState};
use pumpkin::respawn::{
    anchor_spawn_candidates, bed_spawn_candidates, calculate_respawn_point, forced_spawn_safe,
    first_passing, get_bed_spawn_offsets, passes_block_checks, respawn_point_changes, settle_respawn,
    use_anchor_charge, HorizontalFacing, RespawnBlock, RespawnOutcome, RespawnPlan, SpawnSpot,
    StoredRespawn,
};
use pumpkin::setworldspawn::BlockPos;
use pumpkin::varint::VarInt;

fn item(count: u8, age: u32, delay: u32) -> ItemEntityState {
    ItemEntityState {
        stack_key: 7,
        count,
        max_stack: 64,
        item_age: age,
        pickup_delay: delay,
        never_despawn: false,
        never_pickup: false,
        removed: false,
    }
}

#[test]
fn items_merge_into_the_fuller_stack() {
    let r = ItemEntity.try_merge_with(&item(10, 100, 5), &item(3, 50, 20)).unwrap();
    assert!(r.into_this);
    assert_eq!(r.this.count, 13);
    assert_eq!(r.other.count, 0);
    assert!(r.other_removed && !r.this_removed);
    assert_eq!(r.this.item_age, 50);
    assert_eq!(r.this.pickup_delay, 20);
    let tie = ItemEntity.try_merge_with(&item(4, 0, 0), &item(4, 0, 0)).unwrap();
    assert!(!tie.into_this);
    assert_eq!(tie.other.count, 8);
    assert!(tie.this_removed);
}

#[test]
fn items_do_not_merge_past_a_full_stack_or_across_kinds() {
    assert!(ItemEntity.try_merge_with(&item(60, 0, 0), &item(10, 0, 0)).is_none());
    let other = ItemEntityState { stack_key: 8, ..item(1, 0, 0) };
    assert!(ItemEntity.try_merge_with(&item(1, 0, 0), &other).is_none());
}

#[test]
fn item_ages_and_despawns() {
    assert_eq!(ItemEntity.age_step(&item(1, 5998, 0), false), AgeStep::Aged { age: 5999, try_merge: false });
    assert_eq!(ItemEntity.age_step(&item(1, 5999, 0), false), AgeStep::Despawn { age: 6000 });
    assert_eq!(ItemEntity.age_step(&item(1, 39, 0), false), AgeStep::Aged { age: 40, try_merge: true });
    assert_eq!(ItemEntity.age_step(&item(64, 39, 0), false), AgeStep::Aged { age: 40, try_merge: false });
    assert_eq!(ItemEntity.age_step(&item(1, 1, 0), true), AgeStep::Aged { age: 2, try_merge: true });
    let forever = ItemEntityState { never_despawn: true, ..item(1, 9000, 0) };
    assert_eq!(ItemEntity.age_step(&forever, false), AgeStep::Ageless);
    assert_eq!(ItemEntity.tick_pickup_delay(0), 0);
    assert_eq!(ItemEntity.tick_pickup_delay(10), 9);
    assert_eq!(ItemEntity.moves_while_resting(6, 2), Some(true));
    assert_eq!(ItemEntity.moves_while_resting(u32::MAX, 2), None);
    assert!(ItemEntity.may_pick_up(0, true));
    assert!(!ItemEntity.may_pick_up(3, true));
}

#[test]
fn passengers_get_on_and_off() {
    let mut p = Passengers { ids: vec![] };
    let mut rider = RiderLink { vehicle: None, riding_cooldown: 0 };
    assert_eq!(p.add_passenger(1, 5, &mut rider), vec![VarInt(5)]);
    assert_eq!(rider, RiderLink { vehicle: Some(1), riding_cooldown: 0 });
    let mut other = RiderLink { vehicle: None, riding_cooldown: 3 };
    assert_eq!(p.add_passenger(1, 9, &mut other), vec![VarInt(5), VarInt(9)]);
    let (removed, rest) = p.remove_passenger(5);
    assert_eq!(
        removed,
        Some(Dismounted { index: 0, rider: RiderLink { vehicle: None, riding_cooldown: RIDING_COOLDOWN } })
    );
    assert_eq!(RIDING_COOLDOWN, 60);
    assert_eq!(rest, vec![VarInt(9)]);
    let (removed, rest) = p.remove_passenger(42);
    assert_eq!(removed, None);
    assert_eq!(rest, vec![VarInt(9)]);
}

#[test]
fn dismount_tries_poses_in_order() {
    let fits = vec![vec![false, false], vec![false, true], vec![true, true]];
    assert_eq!(choose_dismount(&fits), Some((DismountPose::Crouching, 1)));
    let none = vec![vec![false], vec![false], vec![]];
    assert_eq!(choose_dismount(&none), None);
    let standing = vec![vec![true], vec![true], vec![true]];
    assert_eq!(choose_dismount(&standing), Some((DismountPose::Standing, 0)));
}

#[test]
fn freezing() {
    assert_eq!(tick_frozen(false, true, 139, 40), Some(FreezeStep { frozen_ticks: 140, send: true, damage: true }));
    assert_eq!(tick_frozen(false, true, 140, 41), Some(FreezeStep { frozen_ticks: 140, send: false, damage: false }));
    assert_eq!(tick_frozen(false, false, 1, 0), Some(FreezeStep { frozen_ticks: 0, send: true, damage: false }));
    assert_eq!(tick_frozen(false, false, 0, 0), Some(FreezeStep { frozen_ticks: 0, send: false, damage: false }));
    assert_eq!(tick_frozen(true, true, 0, 0), None);
}

#[test]
fn portals() {
    assert_eq!(default_portal_cooldown(true), 10);
    assert_eq!(default_portal_cooldown(false), 300);
    assert_eq!(tick_portal_cooldown(0), 0);
    assert_eq!(tick_portal_cooldown(3), 2);
    assert_eq!(try_use_portal(true, 0, true, false), PortalEntry::Riding);
    assert_eq!(try_use_portal(false, 5, true, false), PortalEntry::CoolingDown);
    assert_eq!(try_use_portal(false, 0, false, false), PortalEntry::NotAllowed);
    assert_eq!(try_use_portal(false, 0, true, false), PortalEntry::Start);
    assert_eq!(try_use_portal(false, 0, true, true), PortalEntry::Continue);
}

#[test]
fn effects_run_out() {
    let mut effects = vec![(1, 0), (2, 5), (3, 0)];
    let removed = tick_effects(&mut effects);
    assert_eq!(removed, vec![1, 3]);
    assert_eq!(effects, vec![(1, -1), (2, 4), (3, -1)]);
}

#[test]
fn death_messages() {
    let m = get_death_message(DeathMessageType::Default, "arrow", true);
    assert_eq!(m.key, "death.attack.arrow.player");
    assert!(m.with_killer);
    let m = get_death_message(DeathMessageType::Default, "lava", false);
    assert_eq!(m.key, "death.attack.lava");
    let m = get_death_message(DeathMessageType::FallVariants, "fall", true);
    assert_eq!(m.key, "death.fell.accident.generic");
    let m = get_death_message(DeathMessageType::IntentionalGameDesign, "badRespawnPoint", false);
    assert_eq!(m.key, "death.attack.badRespawnPoint.message");
    assert!(m.bracketed);
}

#[test]
fn egg_hatching() {
    assert_eq!(egg_hatch_count(0), 4);
    assert_eq!(egg_hatch_count(1), 1);
    assert_eq!(egg_hatch_count(31), 1);
    assert_eq!(egg_hatch_count(32), 0);
    assert_eq!(egg_hatch_count(255), 0);
}

#[test]
fn empty_bucket() {
    let wet: Vec<(&'static str, &'static str)> = vec![("waterlogged", "true")];
    let dry: Vec<(&'static str, &'static str)> = vec![("waterlogged", "false")];
    let none: Vec<(&'static str, &'static str)> = vec![];
    assert_eq!(
        EmptyBucketItem.normal_use(BucketBlock::Other, &wet, &none),
        EmptyBucketPlan::Unwaterlog { target: Target::Clicked, props: vec![("waterlogged", "false")] }
    );
    assert_eq!(
        EmptyBucketItem.normal_use(BucketBlock::LavaSource, &none, &none),
        EmptyBucketPlan::TakeSource { target: Target::Clicked, filled: BucketKind::Lava }
    );
    assert_eq!(
        EmptyBucketItem.normal_use(BucketBlock::Other, &dry, &wet),
        EmptyBucketPlan::Unwaterlog { target: Target::Adjacent, props: vec![("waterlogged", "false")] }
    );
    assert_eq!(EmptyBucketItem.normal_use(BucketBlock::Other, &dry, &dry), EmptyBucketPlan::Nothing);
}

#[test]
fn filled_bucket() {
    let dry: Vec<(&'static str, &'static str)> = vec![("waterlogged", "false")];
    let none: Vec<(&'static str, &'static str)> = vec![];
    assert_eq!(FilledBucketItem.normal_use(BucketKind::Water, true, &none, BucketBlock::Air, &none), FillPlan::Evaporate);
    assert_eq!(
        FilledBucketItem.normal_use(BucketKind::Lava, true, &none, BucketBlock::Air, &none),
        FillPlan::PlaceSource { kind: BucketKind::Lava }
    );
    assert_eq!(
        FilledBucketItem.normal_use(BucketKind::Water, false, &dry, BucketBlock::Other, &none),
        FillPlan::Waterlog { target: Target::Clicked, props: vec![("waterlogged", "true")] }
    );
    assert_eq!(
        FilledBucketItem.normal_use(BucketKind::Lava, false, &dry, BucketBlock::Other, &dry),
        FillPlan::Nothing
    );
    assert_eq!(
        FilledBucketItem.normal_use(BucketKind::Water, false, &none, BucketBlock::Other, &none),
        FillPlan::Nothing
    );
}

#[test]
fn ender_eye_and_ignition() {
    let frame: Vec<(&'static str, &'static str)> = vec![("eye", "false"), ("facing", "north")];
    assert_eq!(EnderEyeItem.use_on_block(true, &frame), Some(vec![("eye", "true"), ("facing", "north")]));
    assert_eq!(EnderEyeItem.use_on_block(false, &frame), None);
    let candle: Vec<(&'static str, &'static str)> = vec![("lit", "false")];
    assert_eq!(Ignition.ignite_block(false, &candle, true), IgniteOutcome::Relight(vec![("lit", "true")]));
    assert_eq!(Ignition.ignite_block(true, &candle, true), IgniteOutcome::Nothing);
    let stone: Vec<(&'static str, &'static str)> = vec![];
    assert_eq!(Ignition.ignite_block(false, &stone, true), IgniteOutcome::PlaceFire);
    assert_eq!(Ignition.ignite_block(false, &stone, false), IgniteOutcome::Nothing);
}

#[test]
fn respawn_places() {
    let offsets = get_bed_spawn_offsets(HorizontalFacing::North);
    assert_eq!(offsets[0], (1, 0));
    assert_eq!(offsets[4], (0, 1));
    assert_eq!(offsets[9], (1, 2));
    let bed = BlockPos { x: 10, y: 64, z: 10 };
    let places = bed_spawn_candidates(bed, HorizontalFacing::North);
    assert_eq!(places.len(), 21);
    assert_eq!(places[0], BlockPos { x: 11, y: 64, z: 10 });
    assert_eq!(places[1], BlockPos { x: 11, y: 63, z: 10 });
    assert_eq!(places[20], bed);
    let anchor = anchor_spawn_candidates(bed);
    assert_eq!(anchor.len(), 25);
    assert_eq!(anchor[0], BlockPos { x: 10, y: 64, z: 9 });
    assert_eq!(anchor[8], BlockPos { x: 10, y: 63, z: 9 });
    assert_eq!(anchor[24], BlockPos { x: 10, y: 65, z: 10 });
    let spot = SpawnSpot { invalid_inside: false, invalid_inside_above: false, solid: false, air: true, solid_below: true, space_empty: true };
    assert!(passes_block_checks(spot));
    assert!(!passes_block_checks(SpawnSpot { solid_below: false, ..spot }));
    assert!(!passes_block_checks(SpawnSpot { space_empty: false, ..spot }));
    assert!(forced_spawn_safe(true, false, true, false));
    assert!(!forced_spawn_safe(false, true, true, false));
    assert_eq!(use_anchor_charge(0), None);
    assert_eq!(use_anchor_charge(3), Some(2));
    assert!(!respawn_point_changes(Some((0, bed)), 0, bed));
    assert!(respawn_point_changes(Some((1, bed)), 0, bed));
    assert!(respawn_point_changes(None, 0, bed));
}

#[test]
fn damage_gate() {
    let open = DamageGate {
        invulnerable: false,
        dying: false,
        negative_amount: false,
        is_player: true,
        fire_damage_rule: true,
        has_fire_resistance: false,
    };
    assert!(damage_allowed(DamageKind::Lava, open));
    assert!(!damage_allowed(DamageKind::Lava, DamageGate { fire_damage_rule: false, ..open }));
    assert!(damage_allowed(DamageKind::Other, DamageGate { fire_damage_rule: false, ..open }));
    assert!(!damage_allowed(DamageKind::OnFire, DamageGate { has_fire_resistance: true, ..open }));
    assert!(!damage_allowed(DamageKind::Other, DamageGate { dying: true, ..open }));
    assert!(!damage_allowed(DamageKind::Other, DamageGate { negative_amount: true, ..open }));
    assert!(bypasses_cooldown(DamageKind::OutOfWorld));
    assert!(!bypasses_cooldown(DamageKind::HotFloor));
}

#[test]
fn respawn_plans() {
    let pos = BlockPos { x: 10, y: 64, z: -3 };
    let kept = StoredRespawn { position: pos, force: false };
    let forced = StoredRespawn { position: pos, force: true };
    assert_eq!(calculate_respawn_point(None, RespawnBlock::Other, true), RespawnPlan::WorldSpawn);
    assert_eq!(calculate_respawn_point(Some(forced), RespawnBlock::Other, true), RespawnPlan::Forced(pos));
    assert_eq!(calculate_respawn_point(Some(forced), RespawnBlock::Anchor(3), false), RespawnPlan::WorldSpawn);
    assert_eq!(
        calculate_respawn_point(Some(kept), RespawnBlock::Bed(HorizontalFacing::East), false),
        RespawnPlan::Bed(bed_spawn_candidates(pos, HorizontalFacing::East))
    );
    assert_eq!(
        calculate_respawn_point(Some(kept), RespawnBlock::Anchor(2), false),
        RespawnPlan::Anchor { candidates: anchor_spawn_candidates(pos), charges_left: 1 }
    );
    assert_eq!(calculate_respawn_point(Some(kept), RespawnBlock::Anchor(0), true), RespawnPlan::WorldSpawn);
    assert_eq!(calculate_respawn_point(Some(kept), RespawnBlock::Other, true), RespawnPlan::WorldSpawn);
}

#[test]
fn merging_respects_pickup_and_removal_and_stack_sizes() {
    assert!(ItemEntity.can_merge(&item(3, 0, 0)));
    assert!(!ItemEntity.can_merge(&ItemEntityState { never_pickup: true, ..item(3, 0, 0) }));
    assert!(!ItemEntity.can_merge(&ItemEntityState { removed: true, ..item(3, 0, 0) }));
    assert!(!ItemEntity.can_merge(&item(64, 0, 0)));
    // Different items with different stack sizes simply do not merge.
    let pearl = ItemEntityState { stack_key: 9, max_stack: 16, ..item(2, 0, 0) };
    assert!(ItemEntity.try_merge_with(&item(3, 0, 0), &pearl).is_none());
}

#[test]
fn respawn_settles_on_the_first_passing_place() {
    let bad = SpawnSpot { invalid_inside: true, invalid_inside_above: false, solid: false, air: true, solid_below: true, space_empty: true };
    let good = SpawnSpot { invalid_inside: false, invalid_inside_above: false, solid: false, air: true, solid_below: true, space_empty: true };
    assert_eq!(first_passing(&vec![bad, good, good]), Some(1));
    assert_eq!(first_passing(&vec![bad, bad]), None);
    let a = BlockPos { x: 1, y: 64, z: 1 };
    let b = BlockPos { x: 2, y: 64, z: 1 };
    let anchor = RespawnPlan::Anchor { candidates: vec![a, b], charges_left: 2 };
    assert_eq!(settle_respawn(&anchor, Some(1)), RespawnOutcome::At { pos: b, anchor_charges: Some(2) });
    // No place passes: the world spawn, and the anchor keeps its charges.
    assert_eq!(settle_respawn(&anchor, None), RespawnOutcome::WorldSpawn);
    assert_eq!(settle_respawn(&RespawnPlan::Bed(vec![a, b]), Some(0)), RespawnOutcome::At { pos: a, anchor_charges: None });
    assert_eq!(settle_respawn(&RespawnPlan::Forced(b), None), RespawnOutcome::At { pos: b, anchor_charges: None });
    assert_eq!(settle_respawn(&RespawnPlan::WorldSpawn, None), RespawnOutcome::WorldSpawn);
}
