use pumpkin::component_nbt::{read_data, ComponentValue, DataComponent};
use pumpkin::data_component::{
    DamageImpl, DamageResistantImpl, DamageResistantType, EnchantmentsImpl, FireworkExplosionImpl,
    FireworkExplosionShape, FireworksImpl, MaxStackSizeImpl, PotionContentsImpl,
    StatusEffectInstance, UnbreakableImpl,
};
use pumpkin::nbt::{NbtCompound, NbtTag};

const POTIONS: [&str; 4] = ["water", "mundane", "thick", "swiftness"];
const ENCHANTMENTS: [&str; 2] = ["minecraft:sharpness", "minecraft:unbreaking"];

fn compound(tag: &NbtTag) -> &NbtCompound {
    match tag {
        NbtTag::Compound(c) => c,
        _ => panic!("not a compound"),
    }
}

fn names(c: &NbtCompound) -> Vec<&str> {
    c.child_tags.iter().map(|(n, _)| n.as_str()).collect()
}

fn explosion(shape: FireworkExplosionShape, colors: Vec<i32>, fade: Vec<i32>) -> FireworkExplosionImpl {
    FireworkExplosionImpl::new(shape, colors, fade, true, false)
}

fn same_explosion(a: &FireworkExplosionImpl, b: &FireworkExplosionImpl) -> bool {
    a.shape == b.shape
        && a.colors == b.colors
        && a.fade_colors == b.fade_colors
        && a.has_trail == b.has_trail
        && a.has_twinkle == b.has_twinkle
}

#[test]
fn max_stack_size_reads_low_byte_of_int() {
    let x = MaxStackSizeImpl::read_data(&NbtTag::Int(99)).unwrap();
    assert_eq!(x.size, 99);
    assert_eq!(MaxStackSizeImpl::read_data(&NbtTag::Int(300)).unwrap().size, 44);
    assert!(MaxStackSizeImpl::read_data(&NbtTag::Byte(3)).is_none());
    assert!(matches!(MaxStackSizeImpl { size: 16 }.write_data(), NbtTag::Int(16)));
}

#[test]
fn damage_roundtrip() {
    let tag = DamageImpl { damage: -7 }.write_data();
    assert!(matches!(tag, NbtTag::Int(-7)));
    assert_eq!(DamageImpl::read_data(&tag).unwrap().damage, -7);
    assert!(DamageImpl::read_data(&NbtTag::String("3".to_string())).is_none());
}

#[test]
fn unbreakable_is_an_empty_compound() {
    let tag = UnbreakableImpl.write_data();
    assert!(compound(&tag).child_tags.is_empty());
    assert!(UnbreakableImpl::read_data(&NbtTag::Int(0)).is_some());
}

#[test]
fn damage_resistant_roundtrip() {
    let tag = DamageResistantImpl { res_type: DamageResistantType::Fire }.write_data();
    let c = compound(&tag);
    assert_eq!(names(c), vec!["types"]);
    assert_eq!(c.get_string("types").unwrap(), "#minecraft:is_fire");
    let back = DamageResistantImpl::read_data(&tag).unwrap();
    assert_eq!(back.res_type, DamageResistantType::Fire);
    assert!(DamageResistantImpl::read_data(&NbtTag::Compound(NbtCompound::new())).is_none());
    assert!(DamageResistantImpl::read_data(&NbtTag::Int(1)).is_none());
}

#[test]
fn explosion_roundtrip() {
    let x = explosion(FireworkExplosionShape::Creeper, vec![1, 2, 3], vec![4]);
    let tag = x.write_data();
    let c = compound(&tag);
    assert_eq!(
        names(c),
        vec!["shape", "colors", "fade_colors", "has_trail", "has_twinkle"]
    );
    assert_eq!(c.get_string("shape").unwrap(), "creeper");
    assert_eq!(c.get_byte("has_trail"), Some(1));
    assert_eq!(c.get_byte("has_twinkle"), Some(0));
    let back = FireworkExplosionImpl::read_data(&tag).unwrap();
    assert!(same_explosion(&back, &x));
}

#[test]
fn explosion_defaults_and_failures() {
    let mut c = NbtCompound::new();
    c.put_string("shape", "burst".to_string());
    let x = FireworkExplosionImpl::read_data(&NbtTag::Compound(c)).unwrap();
    assert_eq!(x.shape, FireworkExplosionShape::Burst);
    assert!(x.colors.is_empty() && x.fade_colors.is_empty());
    assert!(!x.has_trail && !x.has_twinkle);

    let mut unknown = NbtCompound::new();
    unknown.put_string("shape", "square".to_string());
    assert!(FireworkExplosionImpl::read_data(&NbtTag::Compound(unknown)).is_none());
    assert!(FireworkExplosionImpl::read_data(&NbtTag::Compound(NbtCompound::new())).is_none());
}

#[test]
fn fireworks_roundtrip() {
    let x = FireworksImpl::new(
        3,
        vec![
            explosion(FireworkExplosionShape::Star, vec![7], vec![]),
            explosion(FireworkExplosionShape::SmallBall, vec![], vec![9, 10]),
        ],
    );
    let tag = x.write_data();
    assert_eq!(names(compound(&tag)), vec!["flight_duration", "explosions"]);
    let back = FireworksImpl::read_data(&tag).unwrap();
    assert_eq!(back.flight_duration, 3);
    assert_eq!(back.explosions.len(), 2);
    assert!(same_explosion(&back.explosions[0], &x.explosions[0]));
    assert!(same_explosion(&back.explosions[1], &x.explosions[1]));
}

#[test]
fn fireworks_flight_duration_sources() {
    let mut c = NbtCompound::new();
    c.put_byte("flight_duration", 2);
    c.put_list(
        "explosions",
        vec![NbtTag::Int(5), explosion(FireworkExplosionShape::Burst, vec![], vec![]).write_data()],
    );
    let x = FireworksImpl::read_data(&NbtTag::Compound(c)).unwrap();
    assert_eq!(x.flight_duration, 2);
    assert_eq!(x.explosions.len(), 1);
    assert_eq!(x.explosions[0].shape, FireworkExplosionShape::Burst);

    let empty = FireworksImpl::read_data(&NbtTag::Compound(NbtCompound::new())).unwrap();
    assert_eq!(empty.flight_duration, 1);
    assert!(empty.explosions.is_empty());
    assert!(FireworksImpl::read_data(&NbtTag::Int(1)).is_none());
}

fn effect(id: i32) -> StatusEffectInstance {
    StatusEffectInstance {
        effect_id: id,
        amplifier: 2,
        duration: 600,
        ambient: true,
        show_particles: false,
        show_icon: true,
    }
}

#[test]
fn potion_roundtrip() {
    let x = PotionContentsImpl {
        potion_id: Some(3),
        custom_color: None,
        custom_effects: vec![effect(1), effect(5)],
        custom_name: Some("brew".to_string()),
    };
    let tag = x.write_data();
    assert_eq!(names(compound(&tag)), vec!["potion", "custom_effects", "custom_name"]);
    let back = PotionContentsImpl::read_data(&tag, &POTIONS).unwrap();
    assert_eq!(back, x);

    let bare = PotionContentsImpl {
        potion_id: None,
        custom_color: Some(0xff00ff),
        custom_effects: vec![],
        custom_name: None,
    };
    let tag = bare.write_data();
    assert_eq!(names(compound(&tag)), vec!["custom_color"]);
    assert_eq!(PotionContentsImpl::read_data(&tag, &POTIONS).unwrap(), bare);
}

#[test]
fn potion_by_name_and_effect_defaults() {
    let mut c = NbtCompound::new();
    c.put_string("potion", "minecraft:swiftness".to_string());
    let mut e = NbtCompound::new();
    e.put_int("id", 8);
    e.put_byte("amplifier", 1);
    let mut no_id = NbtCompound::new();
    no_id.put_int("amplifier", 4);
    c.put_list(
        "custom_effects",
        vec![NbtTag::Compound(e), NbtTag::Compound(no_id), NbtTag::Int(2)],
    );
    let x = PotionContentsImpl::read_data(&NbtTag::Compound(c), &POTIONS).unwrap();
    assert_eq!(x.potion_id, Some(3));
    assert_eq!(
        x.custom_effects,
        vec![StatusEffectInstance {
            effect_id: 8,
            amplifier: 1,
            duration: 0,
            ambient: false,
            show_particles: true,
            show_icon: true,
        }]
    );

    let mut plain = NbtCompound::new();
    plain.put_string("potion", "thick".to_string());
    let y = PotionContentsImpl::read_data(&NbtTag::Compound(plain), &POTIONS).unwrap();
    assert_eq!(y.potion_id, Some(2));

    let mut unknown = NbtCompound::new();
    unknown.put_string("potion", "minecraft:luck".to_string());
    let z = PotionContentsImpl::read_data(&NbtTag::Compound(unknown), &POTIONS).unwrap();
    assert_eq!(z.potion_id, None);
    assert!(PotionContentsImpl::read_data(&NbtTag::Int(3), &POTIONS).is_none());
}

#[test]
fn enchantments_roundtrip_and_failures() {
    let x = EnchantmentsImpl {
        enchantment: vec![
            ("minecraft:sharpness".to_string(), 5),
            ("minecraft:unbreaking".to_string(), 3),
        ],
    };
    let tag = x.write_data();
    assert_eq!(
        names(compound(&tag)),
        vec!["minecraft:sharpness", "minecraft:unbreaking"]
    );
    let back = EnchantmentsImpl::read_data(&tag, &ENCHANTMENTS).unwrap();
    assert_eq!(back.enchantment, x.enchantment);

    let mut unknown = NbtCompound::new();
    unknown.put_int("minecraft:luck", 1);
    assert!(EnchantmentsImpl::read_data(&NbtTag::Compound(unknown), &ENCHANTMENTS).is_none());
    let mut not_int = NbtCompound::new();
    not_int.put_byte("minecraft:sharpness", 1);
    assert!(EnchantmentsImpl::read_data(&NbtTag::Compound(not_int), &ENCHANTMENTS).is_none());
}

#[test]
fn enchantment_written_twice_keeps_first_place_and_last_level() {
    let x = EnchantmentsImpl {
        enchantment: vec![
            ("minecraft:sharpness".to_string(), 1),
            ("minecraft:unbreaking".to_string(), 2),
            ("minecraft:sharpness".to_string(), 4),
        ],
    };
    let tag = x.write_data();
    let c = compound(&tag);
    assert_eq!(names(c), vec!["minecraft:sharpness", "minecraft:unbreaking"]);
    assert_eq!(c.get_int("minecraft:sharpness"), Some(4));
}

#[test]
fn read_by_component_kind() {
    match read_data(DataComponent::Damage, &NbtTag::Int(4), &ENCHANTMENTS, &POTIONS) {
        Some(ComponentValue::Damage(d)) => assert_eq!(d.damage, 4),
        _ => panic!("expected damage"),
    }
    assert!(matches!(
        read_data(DataComponent::Unbreakable, &NbtTag::Int(0), &ENCHANTMENTS, &POTIONS),
        Some(ComponentValue::Unbreakable(_))
    ));
    assert!(read_data(DataComponent::MaxStackSize, &NbtTag::Byte(1), &ENCHANTMENTS, &POTIONS).is_none());
    assert!(read_data(DataComponent::Other, &NbtTag::Int(1), &ENCHANTMENTS, &POTIONS).is_none());
}

#[test]
fn compound_put_replaces_first_entry() {
    let mut c = NbtCompound::new();
    c.put_int("a", 1);
    c.put_int("b", 2);
    c.put_int("a", 3);
    assert_eq!(names(&c), vec!["a", "b"]);
    assert_eq!(c.get_int("a"), Some(3));
    assert_eq!(c.get_int("b"), Some(2));
    assert_eq!(c.get_byte("a"), None);
    assert_eq!(c.get_int("c"), None);
}

#[test]
fn damage_resistant_type_parses_any_text() {
    assert_eq!("minecraft:is_fire".parse::<DamageResistantType>(), Ok(DamageResistantType::Fire));
    assert_eq!("nonsense".parse::<DamageResistantType>(), Ok(DamageResistantType::Generic));
}

#[test]
fn damage_tags_in_every_spelling() {
    type T = DamageResistantType;
    for t in [T::Fire, T::BypassesShield, T::CanBreakArmorStands, T::WitherImmuneTo, T::Fall] {
        let tag = t.as_str();
        let bare = tag.strip_prefix("#minecraft:").unwrap();
        assert_eq!(T::from_tag(tag), t);
        assert_eq!(T::from_tag(&format!("minecraft:{bare}")), t);
        assert_eq!(T::from_tag(bare), t);
    }
    assert_eq!(T::from_tag(""), T::Generic);
    assert_eq!(T::from_tag("IS_FIRE"), T::Generic);
    assert_eq!(T::from_tag("#minecraft:can_break_armor_stands"), T::Generic);
}
