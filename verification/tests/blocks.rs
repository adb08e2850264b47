use pumpkin::bamboo::{
    count_bamboo_above, count_bamboo_below, update_leaves_and_grow, BambooBlock, BambooColumn,
    BambooLeaves, BambooProps, BlockActionResult, ColumnBlock, ColumnKind,
};
use pumpkin::block_props::{block_key, can_be_lit, set_waterlogged, waterlogged_check};
use pumpkin::crop::{crop_growth, crop_random_tick, get_available_moisture, SameCropAround, SoilCell};
use pumpkin::dropper::{
    container_is_full, get_random_slot, slot_for_draw, to_data3d, DispenseAnswer, DispenserProps,
    DropperBlock, DropperPlan, Facing,
    NeighborReaction, SlotFill,
};
use pumpkin::fire::{
    cube_place, next_fire_question, side_offset, BlockInfo, BlockKind, BurningEntity, FireAction,
    FireBlock, FireQuestion, FireRegion, FireRolls, FireShape, FireVetoes,
};
use pumpkin::lava::{FlowingLava, Hardened, Neighbor, SpreadOutcome};

fn air() -> BlockInfo {
    BlockInfo {
        kind: BlockKind::Air,
        burn_chance: 0,
        spread_chance: 0,
        waterlogged: false,
        has_fluid: false,
        side_solid_up: false,
    }
}

fn idx(x: i32, y: i32, z: i32) -> usize {
    ((x + 2) * 40 + (y + 2) * 5 + (z + 2)) as usize
}

fn bare(age: u8) -> FireShape {
    FireShape { age, north: false, south: false, east: false, west: false, up: false }
}

fn fire(age: u8) -> BlockInfo {
    BlockInfo { kind: BlockKind::Fire(bare(age)), ..air() }
}

fn wood() -> BlockInfo {
    BlockInfo { kind: BlockKind::Other, burn_chance: 5, spread_chance: 20, ..air() }
}

fn stone() -> BlockInfo {
    BlockInfo { kind: BlockKind::Other, side_solid_up: true, ..air() }
}

fn region_with(cells: &[((i32, i32, i32), BlockInfo)]) -> FireRegion {
    let mut v = vec![air(); 200];
    for (p, b) in cells {
        v[idx(p.0, p.1, p.2)] = *b;
    }
    FireRegion { cells: v }
}

fn quiet_rolls(age_step: u32, delay: u32) -> FireRolls {
    FireRolls {
        age_step,
        burn_out: 3,
        spread: vec![(299, 0, 0), (299, 0, 0), (299, 0, 0), (299, 0, 0), (249, 0, 0), (249, 0, 0)],
        cube: vec![(99, 0); 54],
        delay,
    }
}

#[test]
fn fire_spreads_into_flammable_neighbour() {
    let mut region = region_with(&[((0, 0, 0), fire(0)), ((0, -1, 0), stone()), ((1, 0, 0), wood())]);
    let mut rolls = quiet_rolls(2, 5);
    rolls.spread[0] = (0, 0, 0);
    let actions = FireBlock.tick_with_rolls(&mut region, 0, &rolls, &allow_all());
    assert_eq!(
        actions,
        vec![
            FireAction::SetBlock { x: 0, y: 0, z: 0, block: fire(2) },
            FireAction::SetBlock { x: 1, y: 0, z: 0, block: fire(1) },
            FireAction::Schedule { delay: 35 },
        ]
    );
    assert_eq!(region.cells[idx(1, 0, 0)], fire(1));
}

#[test]
fn fire_keeps_its_age_on_a_low_age_draw() {
    let mut region = region_with(&[((0, 0, 0), fire(3)), ((0, -1, 0), stone()), ((1, 0, 0), wood())]);
    let actions = FireBlock.tick_with_rolls(&mut region, 0, &quiet_rolls(1, 0), &allow_all());
    assert_eq!(actions, vec![FireAction::Schedule { delay: 30 }]);
    assert_eq!(region.cells[idx(0, 0, 0)], fire(3));
}

#[test]
fn fire_without_support_goes_out() {
    let mut region = region_with(&[((0, 0, 0), fire(0))]);
    let actions = FireBlock.tick_with_rolls(&mut region, 0, &quiet_rolls(0, 0), &allow_all());
    assert_eq!(actions, vec![FireAction::SetBlock { x: 0, y: 0, z: 0, block: air() }]);
}

#[test]
fn fire_on_stone_alone_goes_out() {
    let mut region = region_with(&[((0, 0, 0), fire(0)), ((0, -1, 0), stone())]);
    let actions = FireBlock.tick_with_rolls(&mut region, 0, &quiet_rolls(0, 0), &allow_all());
    assert_eq!(actions, vec![FireAction::SetBlock { x: 0, y: 0, z: 0, block: air() }]);
}

#[test]
fn fire_catches_in_air_near_fuel() {
    // Wood two blocks east: the air between gets a burn chance of 5.
    let mut region = region_with(&[((0, 0, 0), fire(0)), ((0, -1, 0), stone()), ((1, 0, 0), stone()),
        ((-1, 0, 0), wood())]);
    let mut rolls = quiet_rolls(0, 0);
    // Cube place k = (l+1)*18 + (m+1)*6 + (n+1) with l = -1, m = 0, n = 1: x -1, y 1, z 0.
    let k = 0 * 18 + 1 * 6 + 2;
    rolls.cube[k] = (45, 4);
    let actions = FireBlock.tick_with_rolls(&mut region, 1, &rolls, &allow_all());
    // burn 5 + 40 + 7 / 31 = 45: a draw of 45 catches; the new fire is 1 + 4 / 4 = 2 old,
    // and sits over wood, so it clings to nothing.
    assert_eq!(
        actions,
        vec![
            FireAction::SetBlock { x: -1, y: 1, z: 0, block: fire(2) },
            FireAction::Schedule { delay: 30 },
        ]
    );
}

#[test]
fn fire_primes_tnt() {
    let tnt = BlockInfo { kind: BlockKind::Tnt, burn_chance: 15, spread_chance: 100, ..air() };
    let mut region = region_with(&[((0, 0, 0), fire(0)), ((0, -1, 0), stone()), ((0, 0, 1), tnt)]);
    let mut rolls = quiet_rolls(0, 0);
    rolls.spread[3] = (10, 7, 0);
    let actions = FireBlock.tick_with_rolls(&mut region, 0, &rolls, &allow_all());
    assert_eq!(
        actions,
        vec![
            FireAction::SetBlock { x: 0, y: 0, z: 1, block: air() },
            FireAction::PrimeTnt { x: 0, y: 0, z: 1 },
            FireAction::Schedule { delay: 30 },
        ]
    );
}

#[test]
fn fire_shape_and_burn_chance() {
    let region = region_with(&[((0, 0, 0), fire(0)), ((1, 0, 0), wood()), ((0, 1, 0), wood())]);
    let shape = FireBlock.get_state_for_position(&region, 0, 0, 0);
    assert_eq!(shape, FireShape { age: 0, north: false, south: false, east: true, west: false, up: true });
    assert_eq!(FireBlock.get_burn_chance(&region, 1, 1, 0), 10);
    assert_eq!(FireBlock.get_burn_chance(&region, 1, 0, 0), 0);
    assert!(FireBlock.can_place_at(&region, 0, 0, 0));
    let wet = BlockInfo { waterlogged: true, ..wood() };
    assert!(!FireBlock::is_flammable(&wet));
    assert!(FireBlock::is_flammable(&wood()));
}

#[test]
fn fire_neighbor_update_keeps_age() {
    let region = region_with(&[((0, 0, 0), fire(7)), ((0, -1, 0), stone())]);
    assert_eq!(FireBlock.get_state_for_neighbor_update(&region, 7), fire(7));
    let lone = region_with(&[((0, 0, 0), fire(7))]);
    assert_eq!(FireBlock.get_state_for_neighbor_update(&lone, 7), air());
}

#[test]
fn fire_delay_and_random_tick_in_range() {
    for _ in 0..50 {
        let d = FireBlock::get_fire_tick_delay();
        assert!((30..40).contains(&d));
    }
    let mut region = region_with(&[((0, 0, 0), fire(0)), ((0, -1, 0), stone()), ((1, 0, 0), wood())]);
    let actions = FireBlock.on_scheduled_tick(&mut region, 2, &allow_all());
    assert!(!actions.is_empty());
}

#[test]
fn touching_fire() {
    let mut zombie = BurningEntity { type_fire_immune: false, fire_immune: false, is_player: false, fire_ticks: -5 };
    FireBlock.entity_touches_fire(&mut zombie, 1);
    assert_eq!(zombie.fire_ticks, -4);
    let mut player = BurningEntity { type_fire_immune: false, fire_immune: false, is_player: true, fire_ticks: 0 };
    FireBlock.entity_touches_fire(&mut player, 2);
    assert_eq!(player.fire_ticks, 160);
    let mut burning = BurningEntity { fire_ticks: 200, ..player };
    FireBlock.entity_touches_fire(&mut burning, 1);
    assert_eq!(burning.fire_ticks, 201);
    let mut blaze = BurningEntity { type_fire_immune: true, fire_immune: false, is_player: false, fire_ticks: 0 };
    FireBlock.on_entity_collision(&mut blaze);
    assert_eq!(blaze.fire_ticks, 0);
}

#[test]
fn waterlogged_properties() {
    let props: Vec<(&'static str, &'static str)> = vec![("facing", "north"), ("waterlogged", "true")];
    assert_eq!(waterlogged_check(&props), Some(true));
    assert_eq!(waterlogged_check(&vec![("facing", "north")]), None);
    let dry = set_waterlogged(&props, false);
    assert_eq!(dry, vec![("facing", "north"), ("waterlogged", "false")]);
    assert_eq!(waterlogged_check(&dry), Some(false));
}

#[test]
fn relighting() {
    let campfire: Vec<(&'static str, &'static str)> = vec![("lit", "false"), ("signal_fire", "false")];
    assert_eq!(can_be_lit(&campfire), Some(vec![("lit", "true"), ("signal_fire", "false")]));
    let lit: Vec<(&'static str, &'static str)> = vec![("lit", "true")];
    assert_eq!(can_be_lit(&lit), None);
    let candle: Vec<(&'static str, &'static str)> = vec![("extinguished", "true"), ("lit", "false")];
    assert_eq!(can_be_lit(&candle), Some(vec![("extinguished", "false"), ("lit", "false")]));
    assert_eq!(can_be_lit(&vec![("facing", "east")]), None);
}

#[test]
fn block_keys() {
    assert_eq!(block_key("water"), "minecraft:water");
}

#[test]
fn dropper_rules() {
    assert_eq!(to_data3d(Facing::Down), 0);
    assert_eq!(to_data3d(Facing::East), 5);
    let placed = DropperBlock.on_place(Facing::North);
    assert_eq!(placed, DispenserProps { facing: Facing::South, triggered: false });
    let mut props = placed;
    assert_eq!(DropperBlock.on_neighbor_update(&mut props, true), NeighborReaction::Trigger);
    assert!(props.triggered);
    assert_eq!(DropperBlock.on_neighbor_update(&mut props, true), NeighborReaction::Stay);
    assert_eq!(DropperBlock.on_neighbor_update(&mut props, false), NeighborReaction::Release);
    assert!(!props.triggered);
    let full = vec![SlotFill { count: 64, max: 64 }, SlotFill { count: 16, max: 16 }];
    let room = vec![SlotFill { count: 64, max: 64 }, SlotFill { count: 3, max: 16 }];
    assert!(container_is_full(&full));
    assert!(!container_is_full(&room));
    let go = DispenseAnswer::Proceed { item_count: 1 };
    let mut slots = vec![0u8, 5, 0, 1];
    assert_eq!(
        DropperBlock.on_scheduled_tick(true, &mut slots, Some(1), Some(&full), true, go, Facing::Up),
        DropperPlan::ContainerFull
    );
    assert_eq!(
        DropperBlock.on_scheduled_tick(true, &mut slots, Some(1), Some(&room), false, go, Facing::Up),
        DropperPlan::InsertRefused
    );
    assert_eq!(slots, vec![0, 5, 0, 1]);
    assert_eq!(
        DropperBlock.on_scheduled_tick(true, &mut slots, Some(1), Some(&room), true, go, Facing::Up),
        DropperPlan::Inserted { slot: 1, count: 4 }
    );
    assert_eq!(slots, vec![0, 4, 0, 1]);
    assert_eq!(
        DropperBlock.on_scheduled_tick(true, &mut slots, Some(3), None, true, go, Facing::West),
        DropperPlan::Dispensed { slot: 3, count: 0, item_count: 1, pickup_delay: 40, data3d: 4 }
    );
    assert_eq!(slots, vec![0, 4, 0, 0]);
    assert_eq!(
        DropperBlock.on_scheduled_tick(true, &mut slots, Some(1), None, true, DispenseAnswer::Cancelled, Facing::West),
        DropperPlan::DispenseCancelled
    );
    assert_eq!(
        DropperBlock.on_scheduled_tick(true, &mut slots, Some(1), None, true, DispenseAnswer::Proceed { item_count: 0 }, Facing::West),
        DropperPlan::DispenseCancelled
    );
    assert_eq!(slots, vec![0, 4, 0, 0]);
    assert_eq!(DropperBlock.on_scheduled_tick(true, &mut slots, None, None, true, go, Facing::West), DropperPlan::Fail);
    assert_eq!(DropperBlock.on_scheduled_tick(false, &mut slots, Some(1), None, true, go, Facing::West), DropperPlan::Idle);
    let filled = vec![0u8, 2, 0, 7, 1];
    assert_eq!(slot_for_draw(&filled, 0), Some(1));
    assert_eq!(slot_for_draw(&filled, 1), Some(3));
    assert_eq!(slot_for_draw(&filled, 5), Some(4));
    assert_eq!(slot_for_draw(&vec![0u8, 0], 3), None);
    assert_eq!(get_random_slot(&vec![0u8, 0]), None);
    let drawn = get_random_slot(&filled).unwrap();
    assert!(filled[drawn] > 0);
}

#[test]
fn lava_rules() {
    let lava = FlowingLava;
    assert_eq!(lava.get_flow_speed(true), 10);
    assert_eq!(lava.get_flow_speed(false), 30);
    assert_eq!(lava.get_level_decrease_per_block(true), 1);
    assert_eq!(lava.get_level_decrease_per_block(false), 2);
    assert_eq!(lava.get_max_flow_distance(true), 5);
    assert_eq!(lava.get_max_flow_distance(false), 3);
    let water_side = vec![Neighbor::Other, Neighbor::Other, Neighbor::Water, Neighbor::Other, Neighbor::Other, Neighbor::Other];
    assert_eq!(lava.receive_neighbor_fluids(&water_side, false, true), Some(Hardened::Obsidian));
    assert_eq!(lava.receive_neighbor_fluids(&water_side, false, false), Some(Hardened::Cobblestone));
    let ice = vec![Neighbor::BlueIce, Neighbor::Other, Neighbor::Other, Neighbor::Other, Neighbor::Other, Neighbor::Other];
    assert_eq!(lava.receive_neighbor_fluids(&ice, true, false), Some(Hardened::Basalt));
    assert_eq!(lava.receive_neighbor_fluids(&ice, false, false), None);
    assert_eq!(lava.spread_to(true, true, false), SpreadOutcome::Stone);
    assert_eq!(lava.spread_to(false, true, true), SpreadOutcome::Blocked);
    assert_eq!(lava.spread_to(false, false, false), SpreadOutcome::Flow);
    assert!(lava.on_entity_collision(false, false));
    assert!(!lava.on_entity_collision(true, false));
}

#[test]
fn crop_moisture() {
    let moist = SoilCell { is_farmland: true, moist: true };
    let dry = SoilCell { is_farmland: true, moist: false };
    let dirt = SoilCell { is_farmland: false, moist: false };
    let alone = SameCropAround {
        west: false, east: false, north: false, south: false,
        north_west: false, north_east: false, south_east: false, south_west: false,
    };
    // Moist farmland under and around: 1 + 3 + 8 * 3/4 = 10.
    assert_eq!(get_available_moisture(&vec![moist; 9], alone), 80);
    // Dry farmland under only: 1 + 1 = 2.
    let mut soil = vec![dirt; 9];
    soil[4] = dry;
    assert_eq!(get_available_moisture(&soil, alone), 16);
    // Crowded on a diagonal: halved.
    let crowded = SameCropAround { north_west: true, ..alone };
    assert_eq!(get_available_moisture(&soil, crowded), 8);
    assert_eq!(crop_growth(3, 16, 0), Some(4));
    assert_eq!(crop_growth(3, 16, 1), None);
    assert_eq!(crop_growth(7, 16, 0), None);
}

fn column(cells: &[(i32, ColumnKind)]) -> BambooColumn {
    let mut v = vec![ColumnBlock { kind: ColumnKind::Air, plantable_on: false }; 40];
    v[17] = ColumnBlock { kind: ColumnKind::Other, plantable_on: true };
    for (y, k) in cells {
        v[(y + 18) as usize] = ColumnBlock { kind: *k, plantable_on: true };
    }
    BambooColumn { cells: v }
}

fn stalk(age: u8, leaves: BambooLeaves, stage: u8) -> ColumnKind {
    ColumnKind::Bamboo(BambooProps { age, leaves, stage })
}

#[test]
fn bamboo_counts_and_growth() {
    let young = stalk(0, BambooLeaves::NoLeaves, 0);
    let mut c = column(&[(-3, young), (-2, young), (-1, young), (0, young)]);
    c.cells[(-4 + 18) as usize] = ColumnBlock { kind: ColumnKind::Other, plantable_on: true };
    assert_eq!(count_bamboo_below(&c), 3);
    assert_eq!(count_bamboo_above(&c), 0);
    update_leaves_and_grow(&mut c, true);
    assert_eq!(c.cells[(1 + 18) as usize].kind, stalk(0, BambooLeaves::Small, 0));
    // A stalk over leafy bamboo grows large leaves, and the two below thin out.
    let small = stalk(0, BambooLeaves::Small, 0);
    let large = stalk(0, BambooLeaves::Large, 0);
    let mut leafy = column(&[(-3, ColumnKind::Other), (-2, small), (-1, large), (0, small)]);
    update_leaves_and_grow(&mut leafy, true);
    assert_eq!(leafy.cells[(1 + 18) as usize].kind, large);
    assert_eq!(leafy.cells[(-1 + 18) as usize].kind, small);
    assert_eq!(leafy.cells[(-2 + 18) as usize].kind, stalk(0, BambooLeaves::NoLeaves, 0));
}

#[test]
fn bamboo_placement() {
    let c = column(&[(-1, ColumnKind::Sapling)]);
    assert_eq!(BambooBlock.on_place(&c), stalk(0, BambooLeaves::NoLeaves, 0));
    let c = column(&[(-1, stalk(1, BambooLeaves::Small, 0))]);
    assert_eq!(BambooBlock.on_place(&c), stalk(1, BambooLeaves::NoLeaves, 0));
    let c = column(&[]);
    assert_eq!(BambooBlock.on_place(&c), ColumnKind::Sapling);
    let mut c = column(&[]);
    c.cells[17] = ColumnBlock { kind: ColumnKind::Other, plantable_on: false };
    assert_eq!(BambooBlock.on_place(&c), ColumnKind::Air);
}

#[test]
fn bamboo_scheduled_tick_and_neighbors() {
    let mut c = column(&[(-1, ColumnKind::Sapling), (0, stalk(0, BambooLeaves::NoLeaves, 0))]);
    assert!(!BambooBlock.on_scheduled_tick(&mut c));
    assert_eq!(c.cells[17].kind, stalk(0, BambooLeaves::NoLeaves, 0));
    let c = column(&[(0, stalk(0, BambooLeaves::NoLeaves, 0)), (1, stalk(1, BambooLeaves::NoLeaves, 0))]);
    let (props, schedule) = BambooBlock.get_state_for_neighbor_update(&c, true);
    assert_eq!(props.age, 1);
    assert!(!schedule);
}

#[test]
fn bamboo_use_with_item() {
    let young = stalk(0, BambooLeaves::NoLeaves, 0);
    let mut c = column(&[(0, young), (-1, young)]);
    let before: Vec<ColumnKind> = c.cells.iter().map(|b| b.kind).collect();
    assert_eq!(BambooBlock.use_with_item(&mut c, false, true, None), BlockActionResult::Pass);
    assert_eq!(BambooBlock.use_with_item(&mut c, true, false, None), BlockActionResult::Success);
    let after: Vec<ColumnKind> = c.cells.iter().map(|b| b.kind).collect();
    assert_eq!(before, after);
    assert_eq!(BambooBlock.use_with_item(&mut c, true, true, None), BlockActionResult::Success);
}

#[test]
fn crop_random_tick_on_very_moist_soil_always_grows() {
    assert_eq!(crop_random_tick(3, 201), Some(4));
    assert_eq!(crop_random_tick(7, 201), None);
    let r = crop_random_tick(0, 8);
    assert!(r == None || r == Some(1));
}

fn allow_all() -> FireVetoes {
    FireVetoes { spread: vec![false; 6], cube: vec![false; 54] }
}

#[test]
fn cancelled_fire_spread_changes_nothing() {
    let tnt = BlockInfo { kind: BlockKind::Tnt, burn_chance: 15, spread_chance: 100, ..air() };
    let mut region = region_with(&[((0, 0, 0), fire(0)), ((0, -1, 0), stone()), ((0, 0, 1), tnt)]);
    let before = region.cells.clone();
    let mut rolls = quiet_rolls(0, 0);
    rolls.spread[3] = (10, 7, 0);
    let mut vetoes = allow_all();
    vetoes.spread[3] = true;
    let actions = FireBlock.tick_with_rolls(&mut region, 0, &rolls, &vetoes);
    assert_eq!(actions, vec![FireAction::Schedule { delay: 30 }]);
    assert_eq!(region.cells, before);

    let mut region = region_with(&[((0, 0, 0), fire(0)), ((0, -1, 0), stone()), ((1, 0, 0), stone()),
        ((-1, 0, 0), wood())]);
    let mut rolls = quiet_rolls(0, 0);
    rolls.cube[8] = (45, 4);
    let mut vetoes = allow_all();
    vetoes.cube[8] = true;
    let actions = FireBlock.tick_with_rolls(&mut region, 1, &rolls, &vetoes);
    assert_eq!(actions, vec![FireAction::Schedule { delay: 30 }]);
}

#[test]
fn bamboo_random_tick_grows_only_on_a_zero_roll() {
    let young = stalk(0, BambooLeaves::NoLeaves, 0);
    let base = column(&[(-1, ColumnKind::Other), (0, young)]);
    let mut kept = column(&[(-1, ColumnKind::Other), (0, young)]);
    BambooBlock.random_tick_with(&mut kept, 2, true);
    assert_eq!(kept.cells, base.cells);
    let mut grown = column(&[(-1, ColumnKind::Other), (0, young)]);
    BambooBlock.random_tick_with(&mut grown, 0, true);
    let mut expected = column(&[(-1, ColumnKind::Other), (0, young)]);
    update_leaves_and_grow(&mut expected, true);
    assert_eq!(grown.cells, expected.cells);
    assert_ne!(grown.cells, base.cells);
}

#[test]
fn fire_asks_only_about_changes_it_would_make() {
    let region = region_with(&[((0, 0, 0), fire(0)), ((0, -1, 0), stone()), ((1, 0, 0), wood())]);
    let mut rolls = quiet_rolls(0, 0);
    rolls.spread[0] = (0, 0, 0);
    rolls.cube[44] = (0, 0);
    assert_eq!(side_offset(0), (1, 0, 0));
    assert_eq!(cube_place(44), (1, 1, 0));
    let copy = |r: &FireRegion| FireRegion { cells: r.cells.clone() };
    let mut vetoes = allow_all();
    let mut answered = allow_all();
    // Spreading into the wood would burn it: that is asked first. With the
    // wood burnt, the air above it has nothing to catch from.
    let asks = FireBlock.fire_questions(copy(&region), 0, &rolls, &vetoes);
    assert!(asks.spread[0]);
    assert!(!asks.cube[44]);
    assert_eq!(asks.spread.iter().filter(|a| **a).count() + asks.cube.iter().filter(|a| **a).count(), 1);
    assert_eq!(next_fire_question(&asks, &answered), Some(FireQuestion::Spread(0)));
    // The plugins keep the wood: now the air above it may catch, and that
    // is asked next.
    vetoes.spread[0] = true;
    answered.spread[0] = true;
    let asks = FireBlock.fire_questions(copy(&region), 0, &rolls, &vetoes);
    assert!(asks.spread[0]);
    assert!(asks.cube[44]);
    assert_eq!(next_fire_question(&asks, &answered), Some(FireQuestion::Cube(44)));
    answered.cube[44] = true;
    assert_eq!(next_fire_question(&asks, &answered), None);
    // Answers about tries that do not ask change nothing.
    let mut other = allow_all();
    other.spread[0] = true;
    other.spread[2] = true;
    other.cube[3] = true;
    let mut a = copy(&region);
    let mut b = copy(&region);
    assert_eq!(
        FireBlock.tick_with_rolls(&mut a, 0, &rolls, &vetoes),
        FireBlock.tick_with_rolls(&mut b, 0, &rolls, &other)
    );
    assert_eq!(a.cells, b.cells);
    // A fire that goes out asks nothing.
    let lone = region_with(&[((0, 0, 0), fire(0))]);
    let asks = FireBlock.fire_questions(lone, 0, &rolls, &allow_all());
    assert_eq!(next_fire_question(&asks, &allow_all()), None);
}
