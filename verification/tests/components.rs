use pumpkin::component_hash::{get_i32_hash, get_str_hash};
use pumpkin::data_component::{
    DamageImpl, DamageResistantImpl, DamageResistantType, EnchantmentsImpl, EquipmentSlot,
    EquipmentType, FireworkExplosionImpl, FireworkExplosionShape, FireworksImpl,
    MaxStackSizeImpl, PotionContentsImpl, StatusEffectInstance, UnbreakableImpl,
};
use pumpkin::item_hash::DataComponentImpl;

#[test]
fn hash() {
    assert_eq!(get_str_hash("minecraft:sharpness"), 2734053906u32);
    assert_eq!(get_i32_hash(3), 3795317917u32);
    assert_eq!(
        EnchantmentsImpl {
            enchantment: vec![("minecraft:sharpness".to_string(), 2)],
        }
        .get_hash(),
        -1580618251i32
    );
    assert_eq!(MaxStackSizeImpl { size: 99 }.get_hash(), -1632321551i32);
}

#[test]
fn simple_component_hashes() {
    assert_eq!(UnbreakableImpl.get_hash(), 0);
    assert_eq!(DamageImpl { damage: 3 }.get_hash(), 3795317917u32 as i32);
    assert_eq!(MaxStackSizeImpl { size: 3 }.get_hash(), 3795317917u32 as i32);
    let res = DamageResistantImpl { res_type: DamageResistantType::Fire };
    assert_eq!(res.get_hash(), get_str_hash("#minecraft:is_fire") as i32);
}

#[test]
fn string_hash_depends_on_text() {
    assert_ne!(get_str_hash("a"), get_str_hash("b"));
    assert_ne!(get_i32_hash(1), get_i32_hash(2));
}

#[test]
fn potion_and_firework_hashes_differ_by_content() {
    let plain = PotionContentsImpl {
        potion_id: Some(1),
        custom_color: None,
        custom_effects: vec![],
        custom_name: None,
    };
    let effect = StatusEffectInstance {
        effect_id: 1,
        amplifier: 0,
        duration: 20,
        ambient: false,
        show_particles: true,
        show_icon: true,
    };
    let with_effect = PotionContentsImpl { custom_effects: vec![effect], ..plain.clone() };
    assert_ne!(plain.get_hash(), with_effect.get_hash());
    assert_eq!(plain.get_hash(), plain.clone().get_hash());

    let star = FireworkExplosionImpl::new(FireworkExplosionShape::Star, vec![1], vec![], false, true);
    let ball = FireworkExplosionImpl::new(FireworkExplosionShape::SmallBall, vec![1], vec![], false, true);
    assert_ne!(star.get_hash(), ball.get_hash());
    let rocket = FireworksImpl::new(2, vec![star.clone()]);
    let empty = FireworksImpl::new(2, vec![]);
    assert_ne!(rocket.get_hash(), empty.get_hash());
}

#[test]
fn damage_resistant_tags_roundtrip() {
    let t = DamageResistantType::from_tag("#minecraft:is_explosion");
    assert_eq!(t, DamageResistantType::Explosion);
    assert_eq!(t.as_str(), "#minecraft:is_explosion");
    assert_eq!(DamageResistantType::from_tag("nonsense"), DamageResistantType::Generic);
    assert_eq!(DamageResistantType::Generic.as_str(), "minecraft:generic");
}

#[test]
fn equipment_slots() {
    let head = EquipmentSlot::head();
    assert_eq!(head.get_entity_slot_id(), 3);
    assert!(head.is_armor_slot());
    assert_eq!(head.slot_type(), EquipmentType::HumanoidArmor);
    assert_eq!(head.discriminant(), 5);
    assert_eq!(head.get_offset_entity_slot_id(10), 13);
    assert!(EquipmentSlot::get_from_name("head").is_some());
    assert!(EquipmentSlot::get_from_name("hat").is_none());
    assert!(!EquipmentSlot::main_hand().is_armor_slot());
}

#[test]
fn firework_shapes() {
    assert_eq!(FireworkExplosionShape::from_id(3), Some(FireworkExplosionShape::Creeper));
    assert_eq!(FireworkExplosionShape::from_id(5), None);
    assert_eq!(FireworkExplosionShape::Burst.to_id(), 4);
    assert_eq!(FireworkExplosionShape::LargeBall.to_name(), "large_ball");
    assert_eq!(FireworkExplosionShape::from_name("star"), Some(FireworkExplosionShape::Star));
    assert_eq!(FireworkExplosionShape::from_name("square"), None);
}
