use pumpkin::axe::{
    try_use_axe, get_deoxidized_equivalent, get_stripped_equivalent, get_unwaxed_equivalent, AxeBlock,
    AxeItem, CopperShape, Oxidation, StateTransfer, WoodSpecies,
};
use pumpkin::item_components::{_true, return_1u32, return_false, return_true, EquippableComponent};
use pumpkin::setworldspawn::{
    check_spawn_world, init_command_tree, no_args_position, ArgumentKind, BlockPos, Dimension,
    ExecutorKind, SenderKind, SpawnFailure,
};

#[test]
fn axe_strips_logs_and_wood() {
    let log = AxeBlock::Log { species: WoodSpecies::Cherry, stripped: false };
    assert_eq!(get_stripped_equivalent(&log), Some(AxeBlock::Log { species: WoodSpecies::Cherry, stripped: true }));
    let stripped = AxeBlock::Wood { species: WoodSpecies::Oak, stripped: true };
    assert_eq!(try_use_axe(&stripped), None);
    assert_eq!(get_stripped_equivalent(&AxeBlock::Other), None);
}

#[test]
fn axe_scrapes_copper() {
    let oxidized = AxeBlock::Copper { shape: CopperShape::CutStairs, oxidation: Oxidation::Oxidized, waxed: false };
    assert_eq!(
        get_deoxidized_equivalent(&oxidized),
        Some(AxeBlock::Copper { shape: CopperShape::CutStairs, oxidation: Oxidation::Weathered, waxed: false })
    );
    let waxed = AxeBlock::Copper { shape: CopperShape::Bulb, oxidation: Oxidation::Exposed, waxed: true };
    assert_eq!(get_deoxidized_equivalent(&waxed), None);
    assert_eq!(
        get_unwaxed_equivalent(&waxed),
        Some(AxeBlock::Copper { shape: CopperShape::Bulb, oxidation: Oxidation::Exposed, waxed: false })
    );
    assert_eq!(try_use_axe(&waxed), get_unwaxed_equivalent(&waxed));
    let clean = AxeBlock::Copper { shape: CopperShape::Block, oxidation: Oxidation::Unaffected, waxed: false };
    assert_eq!(try_use_axe(&clean), None);
}

#[test]
fn axe_uses_until_rest() {
    let mut b = AxeBlock::Copper { shape: CopperShape::Door, oxidation: Oxidation::Oxidized, waxed: true };
    let mut uses = 0;
    while let Some(next) = try_use_axe(&b) {
        b = next;
        uses += 1;
    }
    assert_eq!(uses, 4);
    assert_eq!(b, AxeBlock::Copper { shape: CopperShape::Door, oxidation: Oxidation::Unaffected, waxed: false });
}

#[test]
fn axe_use_on_block() {
    let log = AxeBlock::Log { species: WoodSpecies::Spruce, stripped: false };
    let used = AxeItem.use_on_block(&log, false).unwrap();
    assert_eq!(used.transfer, StateTransfer::Axis);
    assert!(used.damage_item);
    let door = AxeBlock::Copper { shape: CopperShape::Door, oxidation: Oxidation::Weathered, waxed: false };
    let used = AxeItem.use_on_block(&door, true).unwrap();
    assert_eq!(used.transfer, StateTransfer::Door);
    assert!(!used.damage_item);
    assert!(AxeItem.use_on_block(&AxeBlock::Other, false).is_none());
}

#[test]
fn item_data_defaults() {
    assert_eq!(return_1u32(), 1);
    assert!(return_true());
    assert!(!return_false());
    assert!(_true());
    let e = EquippableComponent::with_defaults("head".to_string());
    assert!(e.dispensable && e.swappable && e.damage_on_hurt);
    assert!(!e.equip_on_interact && !e.can_be_sheared);
}

#[test]
fn setworldspawn_tree() {
    let tree = init_command_tree();
    assert_eq!(tree.names, vec!["setworldspawn"]);
    assert_eq!(tree.description, "Sets the world spawn point.");
    assert_eq!(tree.executor, Some(ExecutorKind::NoArgsWorldSpawn));
    assert_eq!(tree.children.len(), 1);
    let pos = &tree.children[0];
    assert_eq!(pos.name, "position");
    assert_eq!(pos.kind, ArgumentKind::BlockPos);
    assert_eq!(pos.executor, Some(ExecutorKind::DefaultWorldSpawn));
    assert_eq!(pos.children.len(), 1);
    assert_eq!(pos.children[0].name, "angle");
    assert_eq!(pos.children[0].kind, ArgumentKind::Rotation);
    assert_eq!(pos.children[0].executor, Some(ExecutorKind::AngleWorldSpawn));
}

#[test]
fn setworldspawn_checks() {
    let here = BlockPos { x: 1, y: 64, z: -3 };
    assert_eq!(no_args_position(SenderKind::Player, here), Ok(here));
    assert_eq!(no_args_position(SenderKind::Console, here), Err(SpawnFailure::NoPosition));
    assert_eq!(SpawnFailure::NoPosition.message(), "You must specify a Position!");
    assert_eq!(no_args_position(SenderKind::Other, here), Err(SpawnFailure::NotAPlayer));
    assert_eq!(check_spawn_world(Some(Dimension::Overworld)), Ok(()));
    assert_eq!(check_spawn_world(Some(Dimension::TheNether)), Err(SpawnFailure::NotOverworld));
    assert_eq!(check_spawn_world(None), Err(SpawnFailure::NoWorld));
    assert_eq!(SpawnFailure::NoWorld.message(), "Failed to get world.");
}
