//! Item data components with contents: stack sizes, damage, resistances,
//! equipment slots, potions and fireworks, with the hashes the client
//! checks them by.

use vstd::prelude::*;
use vstd::utf8::encode_utf8;

use crate::component_hash::{
    checksum_signed, get_i32_hash, get_str_hash, i32_hash, i32_hash_signed, push_u32_le, str_hash,
    u32_le, crc32_iscsi,
};
use crate::text::str_eq;
use crate::varint::from_twos_complement;

verus! {

/// The damage kinds an item can make its holder resistant to, each named by a damage-type tag.
#[derive(Clone, Copy, Debug, Hash, PartialEq, Eq)]
pub enum DamageResistantType {
    /// Damage always dealt to ender dragons
    AlwaysHurtsEnderDragons,
    /// Destroys armor stands in a single hit
    AlwaysKillsArmorStands,
    AlwaysMostSignificantFall,
    /// Damage always notifies nearby hidden silverfish
    AlwaysTriggersSilverfish,
    AvoidsGuardianThorns,
    BurnsArmorStands,
    BurnFromStepping,
    BypassesArmor,
    BypassesCooldown,
    BypassesEffects,
    BypassesEnchantments,
    BypassesInvulnerability,
    BypassesResistance,
    BypassesShield,
    BypassesWolfArmor,
    CanBreakArmorStands,
    DamagesHelmet,
    IgnitesArmorStands,
    Drowning,
    /// Damage is reduced by the blast protection enchantment
    Explosion,
    /// Damage is reduced by the feather falling enchantment and ignored if slow falling
    Fall,
    /// Damage is reduced by the fire protection enchantment or ignored by game rule
    Fire,
    /// Damage is reduced by wearing any piece of leather armor or ignored by game rule
    Freezing,
    /// So turtles drop bowls when killed by lightning
    Lightning,
    PlayerAttack,
    /// Damage is reduced by the projectile protection enchantment
    Projectile,
    MaceSmash,
    /// Prevents entities from becoming angry at the source of the damage
    NoAnger,
    /// Prevents entities from being marked hurt (preventing the server from syncing velocity)
    NoImpact,
    NoKnockback,
    PanicCauses,
    PanicEnvironmentalCauses,
    /// Reduces damage dealt to witches by 85%
    WitchResistantTo,
    WitherImmuneTo,
    /// Generic fallback
    Generic,
}

/// The damage kind a tag names: each kind answers to its tag with and without the
/// `#` and the `minecraft:` namespace, a few to further aliases; every other text
/// names the generic kind.
pub open spec fn damage_type_of_tag(s: Seq<char>) -> DamageResistantType {
    if s == "#minecraft:always_hurts_ender_dragons"@ || s == "minecraft:always_hurts_ender_dragons"@ || s == "always_hurts_ender_dragons"@ {
        DamageResistantType::AlwaysHurtsEnderDragons
    } else if s == "#minecraft:always_kills_armor_stands"@ || s == "minecraft:always_kills_armor_stands"@ || s == "always_kills_armor_stands"@ {
        DamageResistantType::AlwaysKillsArmorStands
    } else if s == "#minecraft:always_most_significant_fall"@ || s == "minecraft:always_most_significant_fall"@ || s == "always_most_significant_fall"@ {
        DamageResistantType::AlwaysMostSignificantFall
    } else if s == "#minecraft:always_triggers_silverfish"@ || s == "minecraft:always_triggers_silverfish"@ || s == "always_triggers_silverfish"@ {
        DamageResistantType::AlwaysTriggersSilverfish
    } else if s == "#minecraft:avoids_guardian_thorns"@ || s == "minecraft:avoids_guardian_thorns"@ || s == "avoids_guardian_thorns"@ {
        DamageResistantType::AvoidsGuardianThorns
    } else if s == "#minecraft:burns_armor_stands"@ || s == "minecraft:burns_armor_stands"@ || s == "burns_armor_stands"@ {
        DamageResistantType::BurnsArmorStands
    } else if s == "#minecraft:burn_from_stepping"@ || s == "minecraft:burn_from_stepping"@ || s == "burn_from_stepping"@ {
        DamageResistantType::BurnFromStepping
    } else if s == "#minecraft:bypasses_armor"@ || s == "minecraft:bypasses_armor"@ || s == "bypasses_armor"@ {
        DamageResistantType::BypassesArmor
    } else if s == "#minecraft:bypasses_cooldown"@ || s == "minecraft:bypasses_cooldown"@ || s == "bypasses_cooldown"@ {
        DamageResistantType::BypassesCooldown
    } else if s == "#minecraft:bypasses_effects"@ || s == "minecraft:bypasses_effects"@ || s == "bypasses_effects"@ {
        DamageResistantType::BypassesEffects
    } else if s == "#minecraft:bypasses_enchantments"@ || s == "minecraft:bypasses_enchantments"@ || s == "bypasses_enchantments"@ {
        DamageResistantType::BypassesEnchantments
    } else if s == "#minecraft:bypasses_invulnerability"@ || s == "minecraft:bypasses_invulnerability"@ || s == "bypasses_invulnerability"@ {
        DamageResistantType::BypassesInvulnerability
    } else if s == "#minecraft:bypasses_resistance"@ || s == "minecraft:bypasses_resistance"@ || s == "bypasses_resistance"@ {
        DamageResistantType::BypassesResistance
    } else if s == "#minecraft:bypasses_shield"@ || s == "minecraft:bypasses_shield"@ || s == "bypasses_shield"@ {
        DamageResistantType::BypassesShield
    } else if s == "#minecraft:bypasses_wolf_armor"@ || s == "minecraft:bypasses_wolf_armor"@ || s == "bypasses_wolf_armor"@ {
        DamageResistantType::BypassesWolfArmor
    } else if s == "#minecraft:can_break_armor_stand"@ || s == "minecraft:can_break_armor_stand"@ || s == "can_break_armor_stand"@ {
        DamageResistantType::CanBreakArmorStands
    } else if s == "#minecraft:damages_helmet"@ || s == "minecraft:damages_helmet"@ || s == "damages_helmet"@ {
        DamageResistantType::DamagesHelmet
    } else if s == "#minecraft:ignites_armor_stands"@ || s == "minecraft:ignites_armor_stands"@ || s == "ignites_armor_stands"@ {
        DamageResistantType::IgnitesArmorStands
    } else if s == "#minecraft:is_drowning"@ || s == "minecraft:is_drowning"@ || s == "is_drowning"@ {
        DamageResistantType::Drowning
    } else if s == "#minecraft:is_explosion"@ || s == "minecraft:is_explosion"@ || s == "is_explosion"@ || s == "explosion"@ {
        DamageResistantType::Explosion
    } else if s == "#minecraft:is_fall"@ || s == "minecraft:is_fall"@ || s == "is_fall"@ || s == "fall"@ {
        DamageResistantType::Fall
    } else if s == "#minecraft:is_fire"@ || s == "minecraft:is_fire"@ || s == "is_fire"@ || s == "fire"@ || s == "in_fire"@ || s == "minecraft:in_fire"@ {
        DamageResistantType::Fire
    } else if s == "#minecraft:is_freezing"@ || s == "minecraft:is_freezing"@ || s == "is_freezing"@ {
        DamageResistantType::Freezing
    } else if s == "#minecraft:is_lightning"@ || s == "minecraft:is_lightning"@ || s == "is_lightning"@ {
        DamageResistantType::Lightning
    } else if s == "#minecraft:is_player_attack"@ || s == "minecraft:is_player_attack"@ || s == "is_player_attack"@ {
        DamageResistantType::PlayerAttack
    } else if s == "#minecraft:is_projectile"@ || s == "minecraft:is_projectile"@ || s == "is_projectile"@ {
        DamageResistantType::Projectile
    } else if s == "#minecraft:mace_smash"@ || s == "minecraft:mace_smash"@ || s == "mace_smash"@ {
        DamageResistantType::MaceSmash
    } else if s == "#minecraft:no_anger"@ || s == "minecraft:no_anger"@ || s == "no_anger"@ {
        DamageResistantType::NoAnger
    } else if s == "#minecraft:no_impact"@ || s == "minecraft:no_impact"@ || s == "no_impact"@ {
        DamageResistantType::NoImpact
    } else if s == "#minecraft:no_knockback"@ || s == "minecraft:no_knockback"@ || s == "no_knockback"@ {
        DamageResistantType::NoKnockback
    } else if s == "#minecraft:panic_causes"@ || s == "minecraft:panic_causes"@ || s == "panic_causes"@ {
        DamageResistantType::PanicCauses
    } else if s == "#minecraft:panic_environmental_causes"@ || s == "minecraft:panic_environmental_causes"@ || s == "panic_environmental_causes"@ {
        DamageResistantType::PanicEnvironmentalCauses
    } else if s == "#minecraft:witch_resistant_to"@ || s == "minecraft:witch_resistant_to"@ || s == "witch_resistant_to"@ {
        DamageResistantType::WitchResistantTo
    } else if s == "#minecraft:wither_immune_to"@ || s == "minecraft:wither_immune_to"@ || s == "wither_immune_to"@ {
        DamageResistantType::WitherImmuneTo
    } else {
        DamageResistantType::Generic
    }
}

/// The tag a damage kind is written as.
pub open spec fn damage_type_tag(t: DamageResistantType) -> Seq<char> {
    match t {
        DamageResistantType::AlwaysHurtsEnderDragons => "#minecraft:always_hurts_ender_dragons"@,
        DamageResistantType::AlwaysKillsArmorStands => "#minecraft:always_kills_armor_stands"@,
        DamageResistantType::AlwaysMostSignificantFall => "#minecraft:always_most_significant_fall"@,
        DamageResistantType::AlwaysTriggersSilverfish => "#minecraft:always_triggers_silverfish"@,
        DamageResistantType::AvoidsGuardianThorns => "#minecraft:avoids_guardian_thorns"@,
        DamageResistantType::BurnsArmorStands => "#minecraft:burns_armor_stands"@,
        DamageResistantType::BurnFromStepping => "#minecraft:burn_from_stepping"@,
        DamageResistantType::BypassesArmor => "#minecraft:bypasses_armor"@,
        DamageResistantType::BypassesCooldown => "#minecraft:bypasses_cooldown"@,
        DamageResistantType::BypassesEffects => "#minecraft:bypasses_effects"@,
        DamageResistantType::BypassesEnchantments => "#minecraft:bypasses_enchantments"@,
        DamageResistantType::BypassesInvulnerability => "#minecraft:bypasses_invulnerability"@,
        DamageResistantType::BypassesResistance => "#minecraft:bypasses_resistance"@,
        DamageResistantType::BypassesShield => "#minecraft:bypasses_shield"@,
        DamageResistantType::BypassesWolfArmor => "#minecraft:bypasses_wolf_armor"@,
        DamageResistantType::CanBreakArmorStands => "#minecraft:can_break_armor_stand"@,
        DamageResistantType::DamagesHelmet => "#minecraft:damages_helmet"@,
        DamageResistantType::IgnitesArmorStands => "#minecraft:ignites_armor_stands"@,
        DamageResistantType::Drowning => "#minecraft:is_drowning"@,
        DamageResistantType::Explosion => "#minecraft:is_explosion"@,
        DamageResistantType::Fall => "#minecraft:is_fall"@,
        DamageResistantType::Fire => "#minecraft:is_fire"@,
        DamageResistantType::Freezing => "#minecraft:is_freezing"@,
        DamageResistantType::Lightning => "#minecraft:is_lightning"@,
        DamageResistantType::PlayerAttack => "#minecraft:is_player_attack"@,
        DamageResistantType::Projectile => "#minecraft:is_projectile"@,
        DamageResistantType::MaceSmash => "#minecraft:mace_smash"@,
        DamageResistantType::NoAnger => "#minecraft:no_anger"@,
        DamageResistantType::NoImpact => "#minecraft:no_impact"@,
        DamageResistantType::NoKnockback => "#minecraft:no_knockback"@,
        DamageResistantType::PanicCauses => "#minecraft:panic_causes"@,
        DamageResistantType::PanicEnvironmentalCauses => "#minecraft:panic_environmental_causes"@,
        DamageResistantType::WitchResistantTo => "#minecraft:witch_resistant_to"@,
        DamageResistantType::WitherImmuneTo => "#minecraft:wither_immune_to"@,
        DamageResistantType::Generic => "minecraft:generic"@,
    }
}

impl std::str::FromStr for DamageResistantType {
    type Err = ();

    /// The damage kind a tag names; any text names one.
    fn from_str(s: &str) -> (r: Result<Self, ()>)
        ensures
            r == Ok::<Self, ()>(damage_type_of_tag(s@)),
    {
        Ok(DamageResistantType::from_tag(s))
    }
}

impl DamageResistantType {
    /// The damage kind a tag names. Each kind is named by its tag with and
    /// without the `#` and without the whole `#minecraft:` prefix
    /// (`damage_tags::lemma_damage_tag_spellings`), and any other text names
    /// the generic kind (`damage_tags::lemma_other_text_is_generic`).
    pub fn from_tag(s: &str) -> (r: Self)
        ensures
            r == damage_type_of_tag(s@),
    {
        if str_eq(s, "#minecraft:always_hurts_ender_dragons") || str_eq(s, "minecraft:always_hurts_ender_dragons") || str_eq(s, "always_hurts_ender_dragons") {
            DamageResistantType::AlwaysHurtsEnderDragons
        } else if str_eq(s, "#minecraft:always_kills_armor_stands") || str_eq(s, "minecraft:always_kills_armor_stands") || str_eq(s, "always_kills_armor_stands") {
            DamageResistantType::AlwaysKillsArmorStands
        } else if str_eq(s, "#minecraft:always_most_significant_fall") || str_eq(s, "minecraft:always_most_significant_fall") || str_eq(s, "always_most_significant_fall") {
            DamageResistantType::AlwaysMostSignificantFall
        } else if str_eq(s, "#minecraft:always_triggers_silverfish") || str_eq(s, "minecraft:always_triggers_silverfish") || str_eq(s, "always_triggers_silverfish") {
            DamageResistantType::AlwaysTriggersSilverfish
        } else if str_eq(s, "#minecraft:avoids_guardian_thorns") || str_eq(s, "minecraft:avoids_guardian_thorns") || str_eq(s, "avoids_guardian_thorns") {
            DamageResistantType::AvoidsGuardianThorns
        } else if str_eq(s, "#minecraft:burns_armor_stands") || str_eq(s, "minecraft:burns_armor_stands") || str_eq(s, "burns_armor_stands") {
            DamageResistantType::BurnsArmorStands
        } else if str_eq(s, "#minecraft:burn_from_stepping") || str_eq(s, "minecraft:burn_from_stepping") || str_eq(s, "burn_from_stepping") {
            DamageResistantType::BurnFromStepping
        } else if str_eq(s, "#minecraft:bypasses_armor") || str_eq(s, "minecraft:bypasses_armor") || str_eq(s, "bypasses_armor") {
            DamageResistantType::BypassesArmor
        } else if str_eq(s, "#minecraft:bypasses_cooldown") || str_eq(s, "minecraft:bypasses_cooldown") || str_eq(s, "bypasses_cooldown") {
            DamageResistantType::BypassesCooldown
        } else if str_eq(s, "#minecraft:bypasses_effects") || str_eq(s, "minecraft:bypasses_effects") || str_eq(s, "bypasses_effects") {
            DamageResistantType::BypassesEffects
        } else if str_eq(s, "#minecraft:bypasses_enchantments") || str_eq(s, "minecraft:bypasses_enchantments") || str_eq(s, "bypasses_enchantments") {
            DamageResistantType::BypassesEnchantments
        } else if str_eq(s, "#minecraft:bypasses_invulnerability") || str_eq(s, "minecraft:bypasses_invulnerability") || str_eq(s, "bypasses_invulnerability") {
            DamageResistantType::BypassesInvulnerability
        } else if str_eq(s, "#minecraft:bypasses_resistance") || str_eq(s, "minecraft:bypasses_resistance") || str_eq(s, "bypasses_resistance") {
            DamageResistantType::BypassesResistance
        } else if str_eq(s, "#minecraft:bypasses_shield") || str_eq(s, "minecraft:bypasses_shield") || str_eq(s, "bypasses_shield") {
            DamageResistantType::BypassesShield
        } else if str_eq(s, "#minecraft:bypasses_wolf_armor") || str_eq(s, "minecraft:bypasses_wolf_armor") || str_eq(s, "bypasses_wolf_armor") {
            DamageResistantType::BypassesWolfArmor
        } else if str_eq(s, "#minecraft:can_break_armor_stand") || str_eq(s, "minecraft:can_break_armor_stand") || str_eq(s, "can_break_armor_stand") {
            DamageResistantType::CanBreakArmorStands
        } else if str_eq(s, "#minecraft:damages_helmet") || str_eq(s, "minecraft:damages_helmet") || str_eq(s, "damages_helmet") {
            DamageResistantType::DamagesHelmet
        } else if str_eq(s, "#minecraft:ignites_armor_stands") || str_eq(s, "minecraft:ignites_armor_stands") || str_eq(s, "ignites_armor_stands") {
            DamageResistantType::IgnitesArmorStands
        } else if str_eq(s, "#minecraft:is_drowning") || str_eq(s, "minecraft:is_drowning") || str_eq(s, "is_drowning") {
            DamageResistantType::Drowning
        } else if str_eq(s, "#minecraft:is_explosion") || str_eq(s, "minecraft:is_explosion") || str_eq(s, "is_explosion") || str_eq(s, "explosion") {
            DamageResistantType::Explosion
        } else if str_eq(s, "#minecraft:is_fall") || str_eq(s, "minecraft:is_fall") || str_eq(s, "is_fall") || str_eq(s, "fall") {
            DamageResistantType::Fall
        } else if str_eq(s, "#minecraft:is_fire") || str_eq(s, "minecraft:is_fire") || str_eq(s, "is_fire") || str_eq(s, "fire") || str_eq(s, "in_fire") || str_eq(s, "minecraft:in_fire") {
            DamageResistantType::Fire
        } else if str_eq(s, "#minecraft:is_freezing") || str_eq(s, "minecraft:is_freezing") || str_eq(s, "is_freezing") {
            DamageResistantType::Freezing
        } else if str_eq(s, "#minecraft:is_lightning") || str_eq(s, "minecraft:is_lightning") || str_eq(s, "is_lightning") {
            DamageResistantType::Lightning
        } else if str_eq(s, "#minecraft:is_player_attack") || str_eq(s, "minecraft:is_player_attack") || str_eq(s, "is_player_attack") {
            DamageResistantType::PlayerAttack
        } else if str_eq(s, "#minecraft:is_projectile") || str_eq(s, "minecraft:is_projectile") || str_eq(s, "is_projectile") {
            DamageResistantType::Projectile
        } else if str_eq(s, "#minecraft:mace_smash") || str_eq(s, "minecraft:mace_smash") || str_eq(s, "mace_smash") {
            DamageResistantType::MaceSmash
        } else if str_eq(s, "#minecraft:no_anger") || str_eq(s, "minecraft:no_anger") || str_eq(s, "no_anger") {
            DamageResistantType::NoAnger
        } else if str_eq(s, "#minecraft:no_impact") || str_eq(s, "minecraft:no_impact") || str_eq(s, "no_impact") {
            DamageResistantType::NoImpact
        } else if str_eq(s, "#minecraft:no_knockback") || str_eq(s, "minecraft:no_knockback") || str_eq(s, "no_knockback") {
            DamageResistantType::NoKnockback
        } else if str_eq(s, "#minecraft:panic_causes") || str_eq(s, "minecraft:panic_causes") || str_eq(s, "panic_causes") {
            DamageResistantType::PanicCauses
        } else if str_eq(s, "#minecraft:panic_environmental_causes") || str_eq(s, "minecraft:panic_environmental_causes") || str_eq(s, "panic_environmental_causes") {
            DamageResistantType::PanicEnvironmentalCauses
        } else if str_eq(s, "#minecraft:witch_resistant_to") || str_eq(s, "minecraft:witch_resistant_to") || str_eq(s, "witch_resistant_to") {
            DamageResistantType::WitchResistantTo
        } else if str_eq(s, "#minecraft:wither_immune_to") || str_eq(s, "minecraft:wither_immune_to") || str_eq(s, "wither_immune_to") {
            DamageResistantType::WitherImmuneTo
        } else {
            DamageResistantType::Generic
        }
    }

    /// The tag this damage kind is written as.
    pub fn as_str(&self) -> (r: &'static str)
        ensures
            r@ == damage_type_tag(*self),
    {
        match self {
            DamageResistantType::AlwaysHurtsEnderDragons => "#minecraft:always_hurts_ender_dragons",
            DamageResistantType::AlwaysKillsArmorStands => "#minecraft:always_kills_armor_stands",
            DamageResistantType::AlwaysMostSignificantFall => "#minecraft:always_most_significant_fall",
            DamageResistantType::AlwaysTriggersSilverfish => "#minecraft:always_triggers_silverfish",
            DamageResistantType::AvoidsGuardianThorns => "#minecraft:avoids_guardian_thorns",
            DamageResistantType::BurnsArmorStands => "#minecraft:burns_armor_stands",
            DamageResistantType::BurnFromStepping => "#minecraft:burn_from_stepping",
            DamageResistantType::BypassesArmor => "#minecraft:bypasses_armor",
            DamageResistantType::BypassesCooldown => "#minecraft:bypasses_cooldown",
            DamageResistantType::BypassesEffects => "#minecraft:bypasses_effects",
            DamageResistantType::BypassesEnchantments => "#minecraft:bypasses_enchantments",
            DamageResistantType::BypassesInvulnerability => "#minecraft:bypasses_invulnerability",
            DamageResistantType::BypassesResistance => "#minecraft:bypasses_resistance",
            DamageResistantType::BypassesShield => "#minecraft:bypasses_shield",
            DamageResistantType::BypassesWolfArmor => "#minecraft:bypasses_wolf_armor",
            DamageResistantType::CanBreakArmorStands => "#minecraft:can_break_armor_stand",
            DamageResistantType::DamagesHelmet => "#minecraft:damages_helmet",
            DamageResistantType::IgnitesArmorStands => "#minecraft:ignites_armor_stands",
            DamageResistantType::Drowning => "#minecraft:is_drowning",
            DamageResistantType::Explosion => "#minecraft:is_explosion",
            DamageResistantType::Fall => "#minecraft:is_fall",
            DamageResistantType::Fire => "#minecraft:is_fire",
            DamageResistantType::Freezing => "#minecraft:is_freezing",
            DamageResistantType::Lightning => "#minecraft:is_lightning",
            DamageResistantType::PlayerAttack => "#minecraft:is_player_attack",
            DamageResistantType::Projectile => "#minecraft:is_projectile",
            DamageResistantType::MaceSmash => "#minecraft:mace_smash",
            DamageResistantType::NoAnger => "#minecraft:no_anger",
            DamageResistantType::NoImpact => "#minecraft:no_impact",
            DamageResistantType::NoKnockback => "#minecraft:no_knockback",
            DamageResistantType::PanicCauses => "#minecraft:panic_causes",
            DamageResistantType::PanicEnvironmentalCauses => "#minecraft:panic_environmental_causes",
            DamageResistantType::WitchResistantTo => "#minecraft:witch_resistant_to",
            DamageResistantType::WitherImmuneTo => "#minecraft:wither_immune_to",
            DamageResistantType::Generic => "minecraft:generic",
        }
    }
}


/// The kind of slot an equipment slot is.
#[derive(Debug, Clone, Copy, Hash, Eq, PartialEq)]
pub enum EquipmentType {
    Hand,
    HumanoidArmor,
    AnimalArmor,
    Saddle,
}

/// What an equipment slot holds: its kind, its id among entity slots, the
/// stack limit, its inventory index and its name.
#[derive(Clone, Copy, Debug, Hash, Eq, PartialEq)]
pub struct EquipmentSlotData {
    pub slot_type: EquipmentType,
    pub entity_id: i32,
    pub max_count: i32,
    pub index: i32,
    pub name: &'static str,
}

/// A slot an entity can hold equipment in.
#[derive(Clone, Copy, Debug, Hash, Eq, PartialEq)]
pub enum EquipmentSlot {
    MainHand(EquipmentSlotData),
    OffHand(EquipmentSlotData),
    Feet(EquipmentSlotData),
    Legs(EquipmentSlotData),
    Chest(EquipmentSlotData),
    Head(EquipmentSlotData),
    Body(EquipmentSlotData),
    Saddle(EquipmentSlotData),
}

/// The data of a slot, whichever slot it is.
pub open spec fn slot_data(s: EquipmentSlot) -> EquipmentSlotData {
    match s {
        EquipmentSlot::MainHand(d) => d,
        EquipmentSlot::OffHand(d) => d,
        EquipmentSlot::Feet(d) => d,
        EquipmentSlot::Legs(d) => d,
        EquipmentSlot::Chest(d) => d,
        EquipmentSlot::Head(d) => d,
        EquipmentSlot::Body(d) => d,
        EquipmentSlot::Saddle(d) => d,
    }
}

/// The position of a slot's variant, in declaration order.
pub open spec fn slot_discriminant(s: EquipmentSlot) -> i8 {
    match s {
        EquipmentSlot::MainHand(_) => 0,
        EquipmentSlot::OffHand(_) => 1,
        EquipmentSlot::Feet(_) => 2,
        EquipmentSlot::Legs(_) => 3,
        EquipmentSlot::Chest(_) => 4,
        EquipmentSlot::Head(_) => 5,
        EquipmentSlot::Body(_) => 6,
        EquipmentSlot::Saddle(_) => 7,
    }
}

/// The standard mainhand slot.
pub open spec fn spec_main_hand() -> EquipmentSlot {
    EquipmentSlot::MainHand(
        EquipmentSlotData {
            slot_type: EquipmentType::Hand,
            entity_id: 0,
            index: 0,
            max_count: 0,
            name: "mainhand",
        },
    )
}

/// The standard offhand slot.
pub open spec fn spec_off_hand() -> EquipmentSlot {
    EquipmentSlot::OffHand(
        EquipmentSlotData {
            slot_type: EquipmentType::Hand,
            entity_id: 1,
            index: 5,
            max_count: 0,
            name: "offhand",
        },
    )
}

/// The standard feet slot.
pub open spec fn spec_feet() -> EquipmentSlot {
    EquipmentSlot::Feet(
        EquipmentSlotData {
            slot_type: EquipmentType::HumanoidArmor,
            entity_id: 0,
            index: 1,
            max_count: 1,
            name: "feet",
        },
    )
}

/// The standard legs slot.
pub open spec fn spec_legs() -> EquipmentSlot {
    EquipmentSlot::Legs(
        EquipmentSlotData {
            slot_type: EquipmentType::HumanoidArmor,
            entity_id: 1,
            index: 2,
            max_count: 1,
            name: "legs",
        },
    )
}

/// The standard chest slot.
pub open spec fn spec_chest() -> EquipmentSlot {
    EquipmentSlot::Chest(
        EquipmentSlotData {
            slot_type: EquipmentType::HumanoidArmor,
            entity_id: 2,
            index: 3,
            max_count: 1,
            name: "chest",
        },
    )
}

/// The standard head slot.
pub open spec fn spec_head() -> EquipmentSlot {
    EquipmentSlot::Head(
        EquipmentSlotData {
            slot_type: EquipmentType::HumanoidArmor,
            entity_id: 3,
            index: 4,
            max_count: 1,
            name: "head",
        },
    )
}

/// The standard body slot.
pub open spec fn spec_body() -> EquipmentSlot {
    EquipmentSlot::Body(
        EquipmentSlotData {
            slot_type: EquipmentType::AnimalArmor,
            entity_id: 0,
            index: 6,
            max_count: 1,
            name: "body",
        },
    )
}

/// The standard saddle slot.
pub open spec fn spec_saddle() -> EquipmentSlot {
    EquipmentSlot::Saddle(
        EquipmentSlotData {
            slot_type: EquipmentType::Saddle,
            entity_id: 0,
            index: 7,
            max_count: 1,
            name: "saddle",
        },
    )
}

/// The standard slot with the given name.
pub open spec fn slot_named(name: Seq<char>) -> Option<EquipmentSlot> {
    if name == "mainhand"@ {
        Some(spec_main_hand())
    } else if name == "offhand"@ {
        Some(spec_off_hand())
    } else if name == "feet"@ {
        Some(spec_feet())
    } else if name == "legs"@ {
        Some(spec_legs())
    } else if name == "chest"@ {
        Some(spec_chest())
    } else if name == "head"@ {
        Some(spec_head())
    } else if name == "body"@ {
        Some(spec_body())
    } else if name == "saddle"@ {
        Some(spec_saddle())
    } else {
        None
    }
}

impl EquipmentSlot {
    /// The standard mainhand slot.
    pub fn main_hand() -> (r: Self)
        ensures
            r == spec_main_hand(),
    {
        EquipmentSlot::MainHand(
            EquipmentSlotData {
                slot_type: EquipmentType::Hand,
                entity_id: 0,
                index: 0,
                max_count: 0,
                name: "mainhand",
            },
        )
    }

    /// The standard offhand slot.
    pub fn off_hand() -> (r: Self)
        ensures
            r == spec_off_hand(),
    {
        EquipmentSlot::OffHand(
            EquipmentSlotData {
                slot_type: EquipmentType::Hand,
                entity_id: 1,
                index: 5,
                max_count: 0,
                name: "offhand",
            },
        )
    }

    /// The standard feet slot.
    pub fn feet() -> (r: Self)
        ensures
            r == spec_feet(),
    {
        EquipmentSlot::Feet(
            EquipmentSlotData {
                slot_type: EquipmentType::HumanoidArmor,
                entity_id: 0,
                index: 1,
                max_count: 1,
                name: "feet",
            },
        )
    }

    /// The standard legs slot.
    pub fn legs() -> (r: Self)
        ensures
            r == spec_legs(),
    {
        EquipmentSlot::Legs(
            EquipmentSlotData {
                slot_type: EquipmentType::HumanoidArmor,
                entity_id: 1,
                index: 2,
                max_count: 1,
                name: "legs",
            },
        )
    }

    /// The standard chest slot.
    pub fn chest() -> (r: Self)
        ensures
            r == spec_chest(),
    {
        EquipmentSlot::Chest(
            EquipmentSlotData {
                slot_type: EquipmentType::HumanoidArmor,
                entity_id: 2,
                index: 3,
                max_count: 1,
                name: "chest",
            },
        )
    }

    /// The standard head slot.
    pub fn head() -> (r: Self)
        ensures
            r == spec_head(),
    {
        EquipmentSlot::Head(
            EquipmentSlotData {
                slot_type: EquipmentType::HumanoidArmor,
                entity_id: 3,
                index: 4,
                max_count: 1,
                name: "head",
            },
        )
    }

    /// The standard body slot.
    pub fn body() -> (r: Self)
        ensures
            r == spec_body(),
    {
        EquipmentSlot::Body(
            EquipmentSlotData {
                slot_type: EquipmentType::AnimalArmor,
                entity_id: 0,
                index: 6,
                max_count: 1,
                name: "body",
            },
        )
    }

    /// The standard saddle slot.
    pub fn saddle() -> (r: Self)
        ensures
            r == spec_saddle(),
    {
        EquipmentSlot::Saddle(
            EquipmentSlotData {
                slot_type: EquipmentType::Saddle,
                entity_id: 0,
                index: 7,
                max_count: 1,
                name: "saddle",
            },
        )
    }

    /// The slot's id among the entity's slots of its kind.
    pub fn get_entity_slot_id(&self) -> (r: i32)
        ensures
            r == slot_data(*self).entity_id,
    {
        match self {
            EquipmentSlot::MainHand(data) => data.entity_id,
            EquipmentSlot::OffHand(data) => data.entity_id,
            EquipmentSlot::Feet(data) => data.entity_id,
            EquipmentSlot::Legs(data) => data.entity_id,
            EquipmentSlot::Chest(data) => data.entity_id,
            EquipmentSlot::Head(data) => data.entity_id,
            EquipmentSlot::Body(data) => data.entity_id,
            EquipmentSlot::Saddle(data) => data.entity_id,
        }
    }

    /// The standard slot with the given name, if there is one.
    pub fn get_from_name(name: &str) -> (r: Option<Self>)
        ensures
            r == slot_named(name@),
    {
        if str_eq(name, "mainhand") {
            Some(Self::main_hand())
        } else if str_eq(name, "offhand") {
            Some(Self::off_hand())
        } else if str_eq(name, "feet") {
            Some(Self::feet())
        } else if str_eq(name, "legs") {
            Some(Self::legs())
        } else if str_eq(name, "chest") {
            Some(Self::chest())
        } else if str_eq(name, "head") {
            Some(Self::head())
        } else if str_eq(name, "body") {
            Some(Self::body())
        } else if str_eq(name, "saddle") {
            Some(Self::saddle())
        } else {
            None
        }
    }

    /// The slot's entity id moved by `offset`.
    pub fn get_offset_entity_slot_id(&self, offset: i32) -> (r: i32)
        requires
            i32::MIN <= slot_data(*self).entity_id + offset <= i32::MAX,
        ensures
            r == slot_data(*self).entity_id + offset,
    {
        self.get_entity_slot_id() + offset
    }

    /// The kind of this slot.
    pub fn slot_type(&self) -> (r: EquipmentType)
        ensures
            r == slot_data(*self).slot_type,
    {
        match self {
            EquipmentSlot::MainHand(data) => data.slot_type,
            EquipmentSlot::OffHand(data) => data.slot_type,
            EquipmentSlot::Feet(data) => data.slot_type,
            EquipmentSlot::Legs(data) => data.slot_type,
            EquipmentSlot::Chest(data) => data.slot_type,
            EquipmentSlot::Head(data) => data.slot_type,
            EquipmentSlot::Body(data) => data.slot_type,
            EquipmentSlot::Saddle(data) => data.slot_type,
        }
    }

    /// Whether the slot holds armor, for humanoids or animals.
    pub fn is_armor_slot(&self) -> (r: bool)
        ensures
            r == (slot_data(*self).slot_type == EquipmentType::HumanoidArmor || slot_data(
                *self,
            ).slot_type == EquipmentType::AnimalArmor),
    {
        match self.slot_type() {
            EquipmentType::HumanoidArmor | EquipmentType::AnimalArmor => true,
            _ => false,
        }
    }

    /// The position of the slot's variant, as sent in equipment packets.
    pub fn discriminant(&self) -> (r: i8)
        ensures
            r == slot_discriminant(*self),
    {
        match self {
            EquipmentSlot::MainHand(_) => 0,
            EquipmentSlot::OffHand(_) => 1,
            EquipmentSlot::Feet(_) => 2,
            EquipmentSlot::Legs(_) => 3,
            EquipmentSlot::Chest(_) => 4,
            EquipmentSlot::Head(_) => 5,
            EquipmentSlot::Body(_) => 6,
            EquipmentSlot::Saddle(_) => 7,
        }
    }
}

/// Each standard slot is found again by its own name.
pub proof fn lemma_slot_named_by_own_name()
    ensures
        slot_named(slot_data(spec_main_hand()).name@) == Some(spec_main_hand()),
        slot_named(slot_data(spec_off_hand()).name@) == Some(spec_off_hand()),
        slot_named(slot_data(spec_feet()).name@) == Some(spec_feet()),
        slot_named(slot_data(spec_legs()).name@) == Some(spec_legs()),
        slot_named(slot_data(spec_chest()).name@) == Some(spec_chest()),
        slot_named(slot_data(spec_head()).name@) == Some(spec_head()),
        slot_named(slot_data(spec_body()).name@) == Some(spec_body()),
        slot_named(slot_data(spec_saddle()).name@) == Some(spec_saddle()),
{
    reveal_strlit("mainhand");
    reveal_strlit("offhand");
    reveal_strlit("feet");
    reveal_strlit("legs");
    reveal_strlit("chest");
    reveal_strlit("head");
    reveal_strlit("body");
    reveal_strlit("saddle");
    assert("offhand"@.len() != "mainhand"@.len());
    assert("feet"@.len() != "mainhand"@.len());
    assert("feet"@.len() != "offhand"@.len());
    assert("legs"@.len() != "mainhand"@.len());
    assert("legs"@.len() != "offhand"@.len());
    assert("legs"@[0] != "feet"@[0]);
    assert("chest"@.len() != "mainhand"@.len());
    assert("chest"@.len() != "offhand"@.len());
    assert("chest"@.len() != "feet"@.len());
    assert("chest"@.len() != "legs"@.len());
    assert("head"@.len() != "mainhand"@.len());
    assert("head"@.len() != "offhand"@.len());
    assert("head"@[0] != "feet"@[0]);
    assert("head"@[0] != "legs"@[0]);
    assert("head"@.len() != "chest"@.len());
    assert("body"@.len() != "mainhand"@.len());
    assert("body"@.len() != "offhand"@.len());
    assert("body"@[0] != "feet"@[0]);
    assert("body"@[0] != "legs"@[0]);
    assert("body"@.len() != "chest"@.len());
    assert("body"@[0] != "head"@[0]);
    assert("saddle"@.len() != "mainhand"@.len());
    assert("saddle"@.len() != "offhand"@.len());
    assert("saddle"@.len() != "feet"@.len());
    assert("saddle"@.len() != "legs"@.len());
    assert("saddle"@.len() != "chest"@.len());
    assert("saddle"@.len() != "head"@.len());
    assert("saddle"@.len() != "body"@.len());
}

/// Reading back the tag a damage kind is written as gives that kind.
pub proof fn lemma_damage_type_tag_roundtrip(t: DamageResistantType)
    ensures
        damage_type_of_tag(damage_type_tag(t)) == t,
{
    match t {
        DamageResistantType::AlwaysHurtsEnderDragons => {
            reveal_strlit("#minecraft:always_hurts_ender_dragons");
        },
        DamageResistantType::AlwaysKillsArmorStands => {
            reveal_strlit("#minecraft:always_kills_armor_stands");
            reveal_strlit("#minecraft:always_hurts_ender_dragons");
            assert("#minecraft:always_kills_armor_stands"@.len() != "#minecraft:always_hurts_ender_dragons"@.len());
            reveal_strlit("minecraft:always_hurts_ender_dragons");
            assert("#minecraft:always_kills_armor_stands"@[0] != "minecraft:always_hurts_ender_dragons"@[0]);
            reveal_strlit("always_hurts_ender_dragons");
            assert("#minecraft:always_kills_armor_stands"@.len() != "always_hurts_ender_dragons"@.len());
        },
        DamageResistantType::AlwaysMostSignificantFall => {
            reveal_strlit("#minecraft:always_most_significant_fall");
            reveal_strlit("#minecraft:always_hurts_ender_dragons");
            assert("#minecraft:always_most_significant_fall"@.len() != "#minecraft:always_hurts_ender_dragons"@.len());
            reveal_strlit("minecraft:always_hurts_ender_dragons");
            assert("#minecraft:always_most_significant_fall"@.len() != "minecraft:always_hurts_ender_dragons"@.len());
            reveal_strlit("always_hurts_ender_dragons");
            assert("#minecraft:always_most_significant_fall"@.len() != "always_hurts_ender_dragons"@.len());
            reveal_strlit("#minecraft:always_kills_armor_stands");
            assert("#minecraft:always_most_significant_fall"@.len() != "#minecraft:always_kills_armor_stands"@.len());
            reveal_strlit("minecraft:always_kills_armor_stands");
            assert("#minecraft:always_most_significant_fall"@.len() != "minecraft:always_kills_armor_stands"@.len());
            reveal_strlit("always_kills_armor_stands");
            assert("#minecraft:always_most_significant_fall"@.len() != "always_kills_armor_stands"@.len());
        },
        DamageResistantType::AlwaysTriggersSilverfish => {
            reveal_strlit("#minecraft:always_triggers_silverfish");
            reveal_strlit("#minecraft:always_hurts_ender_dragons");
            assert("#minecraft:always_triggers_silverfish"@[18] != "#minecraft:always_hurts_ender_dragons"@[18]);
            reveal_strlit("minecraft:always_hurts_ender_dragons");
            assert("#minecraft:always_triggers_silverfish"@.len() != "minecraft:always_hurts_ender_dragons"@.len());
            reveal_strlit("always_hurts_ender_dragons");
            assert("#minecraft:always_triggers_silverfish"@.len() != "always_hurts_ender_dragons"@.len());
            reveal_strlit("#minecraft:always_kills_armor_stands");
            assert("#minecraft:always_triggers_silverfish"@.len() != "#minecraft:always_kills_armor_stands"@.len());
            reveal_strlit("minecraft:always_kills_armor_stands");
            assert("#minecraft:always_triggers_silverfish"@.len() != "minecraft:always_kills_armor_stands"@.len());
            reveal_strlit("always_kills_armor_stands");
            assert("#minecraft:always_triggers_silverfish"@.len() != "always_kills_armor_stands"@.len());
            reveal_strlit("#minecraft:always_most_significant_fall");
            assert("#minecraft:always_triggers_silverfish"@.len() != "#minecraft:always_most_significant_fall"@.len());
            reveal_strlit("minecraft:always_most_significant_fall");
            assert("#minecraft:always_triggers_silverfish"@.len() != "minecraft:always_most_significant_fall"@.len());
            reveal_strlit("always_most_significant_fall");
            assert("#minecraft:always_triggers_silverfish"@.len() != "always_most_significant_fall"@.len());
        },
        DamageResistantType::AvoidsGuardianThorns => {
            reveal_strlit("#minecraft:avoids_guardian_thorns");
            reveal_strlit("#minecraft:always_hurts_ender_dragons");
            assert("#minecraft:avoids_guardian_thorns"@.len() != "#minecraft:always_hurts_ender_dragons"@.len());
            reveal_strlit("minecraft:always_hurts_ender_dragons");
            assert("#minecraft:avoids_guardian_thorns"@.len() != "minecraft:always_hurts_ender_dragons"@.len());
            reveal_strlit("always_hurts_ender_dragons");
            assert("#minecraft:avoids_guardian_thorns"@.len() != "always_hurts_ender_dragons"@.len());
            reveal_strlit("#minecraft:always_kills_armor_stands");
            assert("#minecraft:avoids_guardian_thorns"@.len() != "#minecraft:always_kills_armor_stands"@.len());
            reveal_strlit("minecraft:always_kills_armor_stands");
            assert("#minecraft:avoids_guardian_thorns"@.len() != "minecraft:always_kills_armor_stands"@.len());
            reveal_strlit("always_kills_armor_stands");
            assert("#minecraft:avoids_guardian_thorns"@.len() != "always_kills_armor_stands"@.len());
            reveal_strlit("#minecraft:always_most_significant_fall");
            assert("#minecraft:avoids_guardian_thorns"@.len() != "#minecraft:always_most_significant_fall"@.len());
            reveal_strlit("minecraft:always_most_significant_fall");
            assert("#minecraft:avoids_guardian_thorns"@.len() != "minecraft:always_most_significant_fall"@.len());
            reveal_strlit("always_most_significant_fall");
            assert("#minecraft:avoids_guardian_thorns"@.len() != "always_most_significant_fall"@.len());
            reveal_strlit("#minecraft:always_triggers_silverfish");
            assert("#minecraft:avoids_guardian_thorns"@.len() != "#minecraft:always_triggers_silverfish"@.len());
            reveal_strlit("minecraft:always_triggers_silverfish");
            assert("#minecraft:avoids_guardian_thorns"@.len() != "minecraft:always_triggers_silverfish"@.len());
            reveal_strlit("always_triggers_silverfish");
            assert("#minecraft:avoids_guardian_thorns"@.len() != "always_triggers_silverfish"@.len());
        },
        DamageResistantType::BurnsArmorStands => {
            reveal_strlit("#minecraft:burns_armor_stands");
            reveal_strlit("#minecraft:always_hurts_ender_dragons");
            assert("#minecraft:burns_armor_stands"@.len() != "#minecraft:always_hurts_ender_dragons"@.len());
            reveal_strlit("minecraft:always_hurts_ender_dragons");
            assert("#minecraft:burns_armor_stands"@.len() != "minecraft:always_hurts_ender_dragons"@.len());
            reveal_strlit("always_hurts_ender_dragons");
            assert("#minecraft:burns_armor_stands"@.len() != "always_hurts_ender_dragons"@.len());
            reveal_strlit("#minecraft:always_kills_armor_stands");
            assert("#minecraft:burns_armor_stands"@.len() != "#minecraft:always_kills_armor_stands"@.len());
            reveal_strlit("minecraft:always_kills_armor_stands");
            assert("#minecraft:burns_armor_stands"@.len() != "minecraft:always_kills_armor_stands"@.len());
            reveal_strlit("always_kills_armor_stands");
            assert("#minecraft:burns_armor_stands"@.len() != "always_kills_armor_stands"@.len());
            reveal_strlit("#minecraft:always_most_significant_fall");
            assert("#minecraft:burns_armor_stands"@.len() != "#minecraft:always_most_significant_fall"@.len());
            reveal_strlit("minecraft:always_most_significant_fall");
            assert("#minecraft:burns_armor_stands"@.len() != "minecraft:always_most_significant_fall"@.len());
            reveal_strlit("always_most_significant_fall");
            assert("#minecraft:burns_armor_stands"@.len() != "always_most_significant_fall"@.len());
            reveal_strlit("#minecraft:always_triggers_silverfish");
            assert("#minecraft:burns_armor_stands"@.len() != "#minecraft:always_triggers_silverfish"@.len());
            reveal_strlit("minecraft:always_triggers_silverfish");
            assert("#minecraft:burns_armor_stands"@.len() != "minecraft:always_triggers_silverfish"@.len());
            reveal_strlit("always_triggers_silverfish");
            assert("#minecraft:burns_armor_stands"@.len() != "always_triggers_silverfish"@.len());
            reveal_strlit("#minecraft:avoids_guardian_thorns");
            assert("#minecraft:burns_armor_stands"@.len() != "#minecraft:avoids_guardian_thorns"@.len());
            reveal_strlit("minecraft:avoids_guardian_thorns");
            assert("#minecraft:burns_armor_stands"@.len() != "minecraft:avoids_guardian_thorns"@.len());
            reveal_strlit("avoids_guardian_thorns");
            assert("#minecraft:burns_armor_stands"@.len() != "avoids_guardian_thorns"@.len());
        },
        DamageResistantType::BurnFromStepping => {
            reveal_strlit("#minecraft:burn_from_stepping");
            reveal_strlit("#minecraft:always_hurts_ender_dragons");
            assert("#minecraft:burn_from_stepping"@.len() != "#minecraft:always_hurts_ender_dragons"@.len());
            reveal_strlit("minecraft:always_hurts_ender_dragons");
            assert("#minecraft:burn_from_stepping"@.len() != "minecraft:always_hurts_ender_dragons"@.len());
            reveal_strlit("always_hurts_ender_dragons");
            assert("#minecraft:burn_from_stepping"@.len() != "always_hurts_ender_dragons"@.len());
            reveal_strlit("#minecraft:always_kills_armor_stands");
            assert("#minecraft:burn_from_stepping"@.len() != "#minecraft:always_kills_armor_stands"@.len());
            reveal_strlit("minecraft:always_kills_armor_stands");
            assert("#minecraft:burn_from_stepping"@.len() != "minecraft:always_kills_armor_stands"@.len());
            reveal_strlit("always_kills_armor_stands");
            assert("#minecraft:burn_from_stepping"@.len() != "always_kills_armor_stands"@.len());
            reveal_strlit("#minecraft:always_most_significant_fall");
            assert("#minecraft:burn_from_stepping"@.len() != "#minecraft:always_most_significant_fall"@.len());
            reveal_strlit("minecraft:always_most_significant_fall");
            assert("#minecraft:burn_from_stepping"@.len() != "minecraft:always_most_significant_fall"@.len());
            reveal_strlit("always_most_significant_fall");
            assert("#minecraft:burn_from_stepping"@.len() != "always_most_significant_fall"@.len());
            reveal_strlit("#minecraft:always_triggers_silverfish");
            assert("#minecraft:burn_from_stepping"@.len() != "#minecraft:always_triggers_silverfish"@.len());
            reveal_strlit("minecraft:always_triggers_silverfish");
            assert("#minecraft:burn_from_stepping"@.len() != "minecraft:always_triggers_silverfish"@.len());
            reveal_strlit("always_triggers_silverfish");
            assert("#minecraft:burn_from_stepping"@.len() != "always_triggers_silverfish"@.len());
            reveal_strlit("#minecraft:avoids_guardian_thorns");
            assert("#minecraft:burn_from_stepping"@.len() != "#minecraft:avoids_guardian_thorns"@.len());
            reveal_strlit("minecraft:avoids_guardian_thorns");
            assert("#minecraft:burn_from_stepping"@.len() != "minecraft:avoids_guardian_thorns"@.len());
            reveal_strlit("avoids_guardian_thorns");
            assert("#minecraft:burn_from_stepping"@.len() != "avoids_guardian_thorns"@.len());
            reveal_strlit("#minecraft:burns_armor_stands");
            assert("#minecraft:burn_from_stepping"@[15] != "#minecraft:burns_armor_stands"@[15]);
            reveal_strlit("minecraft:burns_armor_stands");
            assert("#minecraft:burn_from_stepping"@.len() != "minecraft:burns_armor_stands"@.len());
            reveal_strlit("burns_armor_stands");
            assert("#minecraft:burn_from_stepping"@.len() != "burns_armor_stands"@.len());
        },
        DamageResistantType::BypassesArmor => {
            reveal_strlit("#minecraft:bypasses_armor");
            reveal_strlit("#minecraft:always_hurts_ender_dragons");
            assert("#minecraft:bypasses_armor"@.len() != "#minecraft:always_hurts_ender_dragons"@.len());
            reveal_strlit("minecraft:always_hurts_ender_dragons");
            assert("#minecraft:bypasses_armor"@.len() != "minecraft:always_hurts_ender_dragons"@.len());
            reveal_strlit("always_hurts_ender_dragons");
            assert("#minecraft:bypasses_armor"@.len() != "always_hurts_ender_dragons"@.len());
            reveal_strlit("#minecraft:always_kills_armor_stands");
            assert("#minecraft:bypasses_armor"@.len() != "#minecraft:always_kills_armor_stands"@.len());
            reveal_strlit("minecraft:always_kills_armor_stands");
            assert("#minecraft:bypasses_armor"@.len() != "minecraft:always_kills_armor_stands"@.len());
            reveal_strlit("always_kills_armor_stands");
            assert("#minecraft:bypasses_armor"@[0] != "always_kills_armor_stands"@[0]);
            reveal_strlit("#minecraft:always_most_significant_fall");
            assert("#minecraft:bypasses_armor"@.len() != "#minecraft:always_most_significant_fall"@.len());
            reveal_strlit("minecraft:always_most_significant_fall");
            assert("#minecraft:bypasses_armor"@.len() != "minecraft:always_most_significant_fall"@.len());
            reveal_strlit("always_most_significant_fall");
            assert("#minecraft:bypasses_armor"@.len() != "always_most_significant_fall"@.len());
            reveal_strlit("#minecraft:always_triggers_silverfish");
            assert("#minecraft:bypasses_armor"@.len() != "#minecraft:always_triggers_silverfish"@.len());
            reveal_strlit("minecraft:always_triggers_silverfish");
            assert("#minecraft:bypasses_armor"@.len() != "minecraft:always_triggers_silverfish"@.len());
            reveal_strlit("always_triggers_silverfish");
            assert("#minecraft:bypasses_armor"@.len() != "always_triggers_silverfish"@.len());
            reveal_strlit("#minecraft:avoids_guardian_thorns");
            assert("#minecraft:bypasses_armor"@.len() != "#minecraft:avoids_guardian_thorns"@.len());
            reveal_strlit("minecraft:avoids_guardian_thorns");
            assert("#minecraft:bypasses_armor"@.len() != "minecraft:avoids_guardian_thorns"@.len());
            reveal_strlit("avoids_guardian_thorns");
            assert("#minecraft:bypasses_armor"@.len() != "avoids_guardian_thorns"@.len());
            reveal_strlit("#minecraft:burns_armor_stands");
            assert("#minecraft:bypasses_armor"@.len() != "#minecraft:burns_armor_stands"@.len());
            reveal_strlit("minecraft:burns_armor_stands");
            assert("#minecraft:bypasses_armor"@.len() != "minecraft:burns_armor_stands"@.len());
            reveal_strlit("burns_armor_stands");
            assert("#minecraft:bypasses_armor"@.len() != "burns_armor_stands"@.len());
            reveal_strlit("#minecraft:burn_from_stepping");
            assert("#minecraft:bypasses_armor"@.len() != "#minecraft:burn_from_stepping"@.len());
            reveal_strlit("minecraft:burn_from_stepping");
            assert("#minecraft:bypasses_armor"@.len() != "minecraft:burn_from_stepping"@.len());
            reveal_strlit("burn_from_stepping");
            assert("#minecraft:bypasses_armor"@.len() != "burn_from_stepping"@.len());
        },
        DamageResistantType::BypassesCooldown => {
            reveal_strlit("#minecraft:bypasses_cooldown");
            reveal_strlit("#minecraft:always_hurts_ender_dragons");
            assert("#minecraft:bypasses_cooldown"@.len() != "#minecraft:always_hurts_ender_dragons"@.len());
            reveal_strlit("minecraft:always_hurts_ender_dragons");
            assert("#minecraft:bypasses_cooldown"@.len() != "minecraft:always_hurts_ender_dragons"@.len());
            reveal_strlit("always_hurts_ender_dragons");
            assert("#minecraft:bypasses_cooldown"@.len() != "always_hurts_ender_dragons"@.len());
            reveal_strlit("#minecraft:always_kills_armor_stands");
            assert("#minecraft:bypasses_cooldown"@.len() != "#minecraft:always_kills_armor_stands"@.len());
            reveal_strlit("minecraft:always_kills_armor_stands");
            assert("#minecraft:bypasses_cooldown"@.len() != "minecraft:always_kills_armor_stands"@.len());
            reveal_strlit("always_kills_armor_stands");
            assert("#minecraft:bypasses_cooldown"@.len() != "always_kills_armor_stands"@.len());
            reveal_strlit("#minecraft:always_most_significant_fall");
            assert("#minecraft:bypasses_cooldown"@.len() != "#minecraft:always_most_significant_fall"@.len());
            reveal_strlit("minecraft:always_most_significant_fall");
            assert("#minecraft:bypasses_cooldown"@.len() != "minecraft:always_most_significant_fall"@.len());
            reveal_strlit("always_most_significant_fall");
            assert("#minecraft:bypasses_cooldown"@[0] != "always_most_significant_fall"@[0]);
            reveal_strlit("#minecraft:always_triggers_silverfish");
            assert("#minecraft:bypasses_cooldown"@.len() != "#minecraft:always_triggers_silverfish"@.len());
            reveal_strlit("minecraft:always_triggers_silverfish");
            assert("#minecraft:bypasses_cooldown"@.len() != "minecraft:always_triggers_silverfish"@.len());
            reveal_strlit("always_triggers_silverfish");
            assert("#minecraft:bypasses_cooldown"@.len() != "always_triggers_silverfish"@.len());
            reveal_strlit("#minecraft:avoids_guardian_thorns");
            assert("#minecraft:bypasses_cooldown"@.len() != "#minecraft:avoids_guardian_thorns"@.len());
            reveal_strlit("minecraft:avoids_guardian_thorns");
            assert("#minecraft:bypasses_cooldown"@.len() != "minecraft:avoids_guardian_thorns"@.len());
            reveal_strlit("avoids_guardian_thorns");
            assert("#minecraft:bypasses_cooldown"@.len() != "avoids_guardian_thorns"@.len());
            reveal_strlit("#minecraft:burns_armor_stands");
            assert("#minecraft:bypasses_cooldown"@.len() != "#minecraft:burns_armor_stands"@.len());
            reveal_strlit("minecraft:burns_armor_stands");
            assert("#minecraft:bypasses_cooldown"@[0] != "minecraft:burns_armor_stands"@[0]);
            reveal_strlit("burns_armor_stands");
            assert("#minecraft:bypasses_cooldown"@.len() != "burns_armor_stands"@.len());
            reveal_strlit("#minecraft:burn_from_stepping");
            assert("#minecraft:bypasses_cooldown"@.len() != "#minecraft:burn_from_stepping"@.len());
            reveal_strlit("minecraft:burn_from_stepping");
            assert("#minecraft:bypasses_cooldown"@[0] != "minecraft:burn_from_stepping"@[0]);
            reveal_strlit("burn_from_stepping");
            assert("#minecraft:bypasses_cooldown"@.len() != "burn_from_stepping"@.len());
            reveal_strlit("#minecraft:bypasses_armor");
            assert("#minecraft:bypasses_cooldown"@.len() != "#minecraft:bypasses_armor"@.len());
            reveal_strlit("minecraft:bypasses_armor");
            assert("#minecraft:bypasses_cooldown"@.len() != "minecraft:bypasses_armor"@.len());
            reveal_strlit("bypasses_armor");
            assert("#minecraft:bypasses_cooldown"@.len() != "bypasses_armor"@.len());
        },
        DamageResistantType::BypassesEffects => {
            reveal_strlit("#minecraft:bypasses_effects");
            reveal_strlit("#minecraft:always_hurts_ender_dragons");
            assert("#minecraft:bypasses_effects"@.len() != "#minecraft:always_hurts_ender_dragons"@.len());
            reveal_strlit("minecraft:always_hurts_ender_dragons");
            assert("#minecraft:bypasses_effects"@.len() != "minecraft:always_hurts_ender_dragons"@.len());
            reveal_strlit("always_hurts_ender_dragons");
            assert("#minecraft:bypasses_effects"@.len() != "always_hurts_ender_dragons"@.len());
            reveal_strlit("#minecraft:always_kills_armor_stands");
            assert("#minecraft:bypasses_effects"@.len() != "#minecraft:always_kills_armor_stands"@.len());
            reveal_strlit("minecraft:always_kills_armor_stands");
            assert("#minecraft:bypasses_effects"@.len() != "minecraft:always_kills_armor_stands"@.len());
            reveal_strlit("always_kills_armor_stands");
            assert("#minecraft:bypasses_effects"@.len() != "always_kills_armor_stands"@.len());
            reveal_strlit("#minecraft:always_most_significant_fall");
            assert("#minecraft:bypasses_effects"@.len() != "#minecraft:always_most_significant_fall"@.len());
            reveal_strlit("minecraft:always_most_significant_fall");
            assert("#minecraft:bypasses_effects"@.len() != "minecraft:always_most_significant_fall"@.len());
            reveal_strlit("always_most_significant_fall");
            assert("#minecraft:bypasses_effects"@.len() != "always_most_significant_fall"@.len());
            reveal_strlit("#minecraft:always_triggers_silverfish");
            assert("#minecraft:bypasses_effects"@.len() != "#minecraft:always_triggers_silverfish"@.len());
            reveal_strlit("minecraft:always_triggers_silverfish");
            assert("#minecraft:bypasses_effects"@.len() != "minecraft:always_triggers_silverfish"@.len());
            reveal_strlit("always_triggers_silverfish");
            assert("#minecraft:bypasses_effects"@.len() != "always_triggers_silverfish"@.len());
            reveal_strlit("#minecraft:avoids_guardian_thorns");
            assert("#minecraft:bypasses_effects"@.len() != "#minecraft:avoids_guardian_thorns"@.len());
            reveal_strlit("minecraft:avoids_guardian_thorns");
            assert("#minecraft:bypasses_effects"@.len() != "minecraft:avoids_guardian_thorns"@.len());
            reveal_strlit("avoids_guardian_thorns");
            assert("#minecraft:bypasses_effects"@.len() != "avoids_guardian_thorns"@.len());
            reveal_strlit("#minecraft:burns_armor_stands");
            assert("#minecraft:bypasses_effects"@.len() != "#minecraft:burns_armor_stands"@.len());
            reveal_strlit("minecraft:burns_armor_stands");
            assert("#minecraft:bypasses_effects"@.len() != "minecraft:burns_armor_stands"@.len());
            reveal_strlit("burns_armor_stands");
            assert("#minecraft:bypasses_effects"@.len() != "burns_armor_stands"@.len());
            reveal_strlit("#minecraft:burn_from_stepping");
            assert("#minecraft:bypasses_effects"@.len() != "#minecraft:burn_from_stepping"@.len());
            reveal_strlit("minecraft:burn_from_stepping");
            assert("#minecraft:bypasses_effects"@.len() != "minecraft:burn_from_stepping"@.len());
            reveal_strlit("burn_from_stepping");
            assert("#minecraft:bypasses_effects"@.len() != "burn_from_stepping"@.len());
            reveal_strlit("#minecraft:bypasses_armor");
            assert("#minecraft:bypasses_effects"@.len() != "#minecraft:bypasses_armor"@.len());
            reveal_strlit("minecraft:bypasses_armor");
            assert("#minecraft:bypasses_effects"@.len() != "minecraft:bypasses_armor"@.len());
            reveal_strlit("bypasses_armor");
            assert("#minecraft:bypasses_effects"@.len() != "bypasses_armor"@.len());
            reveal_strlit("#minecraft:bypasses_cooldown");
            assert("#minecraft:bypasses_effects"@.len() != "#minecraft:bypasses_cooldown"@.len());
            reveal_strlit("minecraft:bypasses_cooldown");
            assert("#minecraft:bypasses_effects"@[0] != "minecraft:bypasses_cooldown"@[0]);
            reveal_strlit("bypasses_cooldown");
            assert("#minecraft:bypasses_effects"@.len() != "bypasses_cooldown"@.len());
        },
        DamageResistantType::BypassesEnchantments => {
            reveal_strlit("#minecraft:bypasses_enchantments");
            reveal_strlit("#minecraft:always_hurts_ender_dragons");
            assert("#minecraft:bypasses_enchantments"@.len() != "#minecraft:always_hurts_ender_dragons"@.len());
            reveal_strlit("minecraft:always_hurts_ender_dragons");
            assert("#minecraft:bypasses_enchantments"@.len() != "minecraft:always_hurts_ender_dragons"@.len());
            reveal_strlit("always_hurts_ender_dragons");
            assert("#minecraft:bypasses_enchantments"@.len() != "always_hurts_ender_dragons"@.len());
            reveal_strlit("#minecraft:always_kills_armor_stands");
            assert("#minecraft:bypasses_enchantments"@.len() != "#minecraft:always_kills_armor_stands"@.len());
            reveal_strlit("minecraft:always_kills_armor_stands");
            assert("#minecraft:bypasses_enchantments"@.len() != "minecraft:always_kills_armor_stands"@.len());
            reveal_strlit("always_kills_armor_stands");
            assert("#minecraft:bypasses_enchantments"@.len() != "always_kills_armor_stands"@.len());
            reveal_strlit("#minecraft:always_most_significant_fall");
            assert("#minecraft:bypasses_enchantments"@.len() != "#minecraft:always_most_significant_fall"@.len());
            reveal_strlit("minecraft:always_most_significant_fall");
            assert("#minecraft:bypasses_enchantments"@.len() != "minecraft:always_most_significant_fall"@.len());
            reveal_strlit("always_most_significant_fall");
            assert("#minecraft:bypasses_enchantments"@.len() != "always_most_significant_fall"@.len());
            reveal_strlit("#minecraft:always_triggers_silverfish");
            assert("#minecraft:bypasses_enchantments"@.len() != "#minecraft:always_triggers_silverfish"@.len());
            reveal_strlit("minecraft:always_triggers_silverfish");
            assert("#minecraft:bypasses_enchantments"@.len() != "minecraft:always_triggers_silverfish"@.len());
            reveal_strlit("always_triggers_silverfish");
            assert("#minecraft:bypasses_enchantments"@.len() != "always_triggers_silverfish"@.len());
            reveal_strlit("#minecraft:avoids_guardian_thorns");
            assert("#minecraft:bypasses_enchantments"@.len() != "#minecraft:avoids_guardian_thorns"@.len());
            reveal_strlit("minecraft:avoids_guardian_thorns");
            assert("#minecraft:bypasses_enchantments"@[0] != "minecraft:avoids_guardian_thorns"@[0]);
            reveal_strlit("avoids_guardian_thorns");
            assert("#minecraft:bypasses_enchantments"@.len() != "avoids_guardian_thorns"@.len());
            reveal_strlit("#minecraft:burns_armor_stands");
            assert("#minecraft:bypasses_enchantments"@.len() != "#minecraft:burns_armor_stands"@.len());
            reveal_strlit("minecraft:burns_armor_stands");
            assert("#minecraft:bypasses_enchantments"@.len() != "minecraft:burns_armor_stands"@.len());
            reveal_strlit("burns_armor_stands");
            assert("#minecraft:bypasses_enchantments"@.len() != "burns_armor_stands"@.len());
            reveal_strlit("#minecraft:burn_from_stepping");
            assert("#minecraft:bypasses_enchantments"@.len() != "#minecraft:burn_from_stepping"@.len());
            reveal_strlit("minecraft:burn_from_stepping");
            assert("#minecraft:bypasses_enchantments"@.len() != "minecraft:burn_from_stepping"@.len());
            reveal_strlit("burn_from_stepping");
            assert("#minecraft:bypasses_enchantments"@.len() != "burn_from_stepping"@.len());
            reveal_strlit("#minecraft:bypasses_armor");
            assert("#minecraft:bypasses_enchantments"@.len() != "#minecraft:bypasses_armor"@.len());
            reveal_strlit("minecraft:bypasses_armor");
            assert("#minecraft:bypasses_enchantments"@.len() != "minecraft:bypasses_armor"@.len());
            reveal_strlit("bypasses_armor");
            assert("#minecraft:bypasses_enchantments"@.len() != "bypasses_armor"@.len());
            reveal_strlit("#minecraft:bypasses_cooldown");
            assert("#minecraft:bypasses_enchantments"@.len() != "#minecraft:bypasses_cooldown"@.len());
            reveal_strlit("minecraft:bypasses_cooldown");
            assert("#minecraft:bypasses_enchantments"@.len() != "minecraft:bypasses_cooldown"@.len());
            reveal_strlit("bypasses_cooldown");
            assert("#minecraft:bypasses_enchantments"@.len() != "bypasses_cooldown"@.len());
            reveal_strlit("#minecraft:bypasses_effects");
            assert("#minecraft:bypasses_enchantments"@.len() != "#minecraft:bypasses_effects"@.len());
            reveal_strlit("minecraft:bypasses_effects");
            assert("#minecraft:bypasses_enchantments"@.len() != "minecraft:bypasses_effects"@.len());
            reveal_strlit("bypasses_effects");
            assert("#minecraft:bypasses_enchantments"@.len() != "bypasses_effects"@.len());
        },
        DamageResistantType::BypassesInvulnerability => {
            reveal_strlit("#minecraft:bypasses_invulnerability");
            reveal_strlit("#minecraft:always_hurts_ender_dragons");
            assert("#minecraft:bypasses_invulnerability"@.len() != "#minecraft:always_hurts_ender_dragons"@.len());
            reveal_strlit("minecraft:always_hurts_ender_dragons");
            assert("#minecraft:bypasses_invulnerability"@.len() != "minecraft:always_hurts_ender_dragons"@.len());
            reveal_strlit("always_hurts_ender_dragons");
            assert("#minecraft:bypasses_invulnerability"@.len() != "always_hurts_ender_dragons"@.len());
            reveal_strlit("#minecraft:always_kills_armor_stands");
            assert("#minecraft:bypasses_invulnerability"@.len() != "#minecraft:always_kills_armor_stands"@.len());
            reveal_strlit("minecraft:always_kills_armor_stands");
            assert("#minecraft:bypasses_invulnerability"@[0] != "minecraft:always_kills_armor_stands"@[0]);
            reveal_strlit("always_kills_armor_stands");
            assert("#minecraft:bypasses_invulnerability"@.len() != "always_kills_armor_stands"@.len());
            reveal_strlit("#minecraft:always_most_significant_fall");
            assert("#minecraft:bypasses_invulnerability"@.len() != "#minecraft:always_most_significant_fall"@.len());
            reveal_strlit("minecraft:always_most_significant_fall");
            assert("#minecraft:bypasses_invulnerability"@.len() != "minecraft:always_most_significant_fall"@.len());
            reveal_strlit("always_most_significant_fall");
            assert("#minecraft:bypasses_invulnerability"@.len() != "always_most_significant_fall"@.len());
            reveal_strlit("#minecraft:always_triggers_silverfish");
            assert("#minecraft:bypasses_invulnerability"@.len() != "#minecraft:always_triggers_silverfish"@.len());
            reveal_strlit("minecraft:always_triggers_silverfish");
            assert("#minecraft:bypasses_invulnerability"@.len() != "minecraft:always_triggers_silverfish"@.len());
            reveal_strlit("always_triggers_silverfish");
            assert("#minecraft:bypasses_invulnerability"@.len() != "always_triggers_silverfish"@.len());
            reveal_strlit("#minecraft:avoids_guardian_thorns");
            assert("#minecraft:bypasses_invulnerability"@.len() != "#minecraft:avoids_guardian_thorns"@.len());
            reveal_strlit("minecraft:avoids_guardian_thorns");
            assert("#minecraft:bypasses_invulnerability"@.len() != "minecraft:avoids_guardian_thorns"@.len());
            reveal_strlit("avoids_guardian_thorns");
            assert("#minecraft:bypasses_invulnerability"@.len() != "avoids_guardian_thorns"@.len());
            reveal_strlit("#minecraft:burns_armor_stands");
            assert("#minecraft:bypasses_invulnerability"@.len() != "#minecraft:burns_armor_stands"@.len());
            reveal_strlit("minecraft:burns_armor_stands");
            assert("#minecraft:bypasses_invulnerability"@.len() != "minecraft:burns_armor_stands"@.len());
            reveal_strlit("burns_armor_stands");
            assert("#minecraft:bypasses_invulnerability"@.len() != "burns_armor_stands"@.len());
            reveal_strlit("#minecraft:burn_from_stepping");
            assert("#minecraft:bypasses_invulnerability"@.len() != "#minecraft:burn_from_stepping"@.len());
            reveal_strlit("minecraft:burn_from_stepping");
            assert("#minecraft:bypasses_invulnerability"@.len() != "minecraft:burn_from_stepping"@.len());
            reveal_strlit("burn_from_stepping");
            assert("#minecraft:bypasses_invulnerability"@.len() != "burn_from_stepping"@.len());
            reveal_strlit("#minecraft:bypasses_armor");
            assert("#minecraft:bypasses_invulnerability"@.len() != "#minecraft:bypasses_armor"@.len());
            reveal_strlit("minecraft:bypasses_armor");
            assert("#minecraft:bypasses_invulnerability"@.len() != "minecraft:bypasses_armor"@.len());
            reveal_strlit("bypasses_armor");
            assert("#minecraft:bypasses_invulnerability"@.len() != "bypasses_armor"@.len());
            reveal_strlit("#minecraft:bypasses_cooldown");
            assert("#minecraft:bypasses_invulnerability"@.len() != "#minecraft:bypasses_cooldown"@.len());
            reveal_strlit("minecraft:bypasses_cooldown");
            assert("#minecraft:bypasses_invulnerability"@.len() != "minecraft:bypasses_cooldown"@.len());
            reveal_strlit("bypasses_cooldown");
            assert("#minecraft:bypasses_invulnerability"@.len() != "bypasses_cooldown"@.len());
            reveal_strlit("#minecraft:bypasses_effects");
            assert("#minecraft:bypasses_invulnerability"@.len() != "#minecraft:bypasses_effects"@.len());
            reveal_strlit("minecraft:bypasses_effects");
            assert("#minecraft:bypasses_invulnerability"@.len() != "minecraft:bypasses_effects"@.len());
            reveal_strlit("bypasses_effects");
            assert("#minecraft:bypasses_invulnerability"@.len() != "bypasses_effects"@.len());
            reveal_strlit("#minecraft:bypasses_enchantments");
            assert("#minecraft:bypasses_invulnerability"@.len() != "#minecraft:bypasses_enchantments"@.len());
            reveal_strlit("minecraft:bypasses_enchantments");
            assert("#minecraft:bypasses_invulnerability"@.len() != "minecraft:bypasses_enchantments"@.len());
            reveal_strlit("bypasses_enchantments");
            assert("#minecraft:bypasses_invulnerability"@.len() != "bypasses_enchantments"@.len());
        },
        DamageResistantType::BypassesResistance => {
            reveal_strlit("#minecraft:bypasses_resistance");
            reveal_strlit("#minecraft:always_hurts_ender_dragons");
            assert("#minecraft:bypasses_resistance"@.len() != "#minecraft:always_hurts_ender_dragons"@.len());
            reveal_strlit("minecraft:always_hurts_ender_dragons");
            assert("#minecraft:bypasses_resistance"@.len() != "minecraft:always_hurts_ender_dragons"@.len());
            reveal_strlit("always_hurts_ender_dragons");
            assert("#minecraft:bypasses_resistance"@.len() != "always_hurts_ender_dragons"@.len());
            reveal_strlit("#minecraft:always_kills_armor_stands");
            assert("#minecraft:bypasses_resistance"@.len() != "#minecraft:always_kills_armor_stands"@.len());
            reveal_strlit("minecraft:always_kills_armor_stands");
            assert("#minecraft:bypasses_resistance"@.len() != "minecraft:always_kills_armor_stands"@.len());
            reveal_strlit("always_kills_armor_stands");
            assert("#minecraft:bypasses_resistance"@.len() != "always_kills_armor_stands"@.len());
            reveal_strlit("#minecraft:always_most_significant_fall");
            assert("#minecraft:bypasses_resistance"@.len() != "#minecraft:always_most_significant_fall"@.len());
            reveal_strlit("minecraft:always_most_significant_fall");
            assert("#minecraft:bypasses_resistance"@.len() != "minecraft:always_most_significant_fall"@.len());
            reveal_strlit("always_most_significant_fall");
            assert("#minecraft:bypasses_resistance"@.len() != "always_most_significant_fall"@.len());
            reveal_strlit("#minecraft:always_triggers_silverfish");
            assert("#minecraft:bypasses_resistance"@.len() != "#minecraft:always_triggers_silverfish"@.len());
            reveal_strlit("minecraft:always_triggers_silverfish");
            assert("#minecraft:bypasses_resistance"@.len() != "minecraft:always_triggers_silverfish"@.len());
            reveal_strlit("always_triggers_silverfish");
            assert("#minecraft:bypasses_resistance"@.len() != "always_triggers_silverfish"@.len());
            reveal_strlit("#minecraft:avoids_guardian_thorns");
            assert("#minecraft:bypasses_resistance"@.len() != "#minecraft:avoids_guardian_thorns"@.len());
            reveal_strlit("minecraft:avoids_guardian_thorns");
            assert("#minecraft:bypasses_resistance"@.len() != "minecraft:avoids_guardian_thorns"@.len());
            reveal_strlit("avoids_guardian_thorns");
            assert("#minecraft:bypasses_resistance"@.len() != "avoids_guardian_thorns"@.len());
            reveal_strlit("#minecraft:burns_armor_stands");
            assert("#minecraft:bypasses_resistance"@.len() != "#minecraft:burns_armor_stands"@.len());
            reveal_strlit("minecraft:burns_armor_stands");
            assert("#minecraft:bypasses_resistance"@.len() != "minecraft:burns_armor_stands"@.len());
            reveal_strlit("burns_armor_stands");
            assert("#minecraft:bypasses_resistance"@.len() != "burns_armor_stands"@.len());
            reveal_strlit("#minecraft:burn_from_stepping");
            assert("#minecraft:bypasses_resistance"@.len() != "#minecraft:burn_from_stepping"@.len());
            reveal_strlit("minecraft:burn_from_stepping");
            assert("#minecraft:bypasses_resistance"@.len() != "minecraft:burn_from_stepping"@.len());
            reveal_strlit("burn_from_stepping");
            assert("#minecraft:bypasses_resistance"@.len() != "burn_from_stepping"@.len());
            reveal_strlit("#minecraft:bypasses_armor");
            assert("#minecraft:bypasses_resistance"@.len() != "#minecraft:bypasses_armor"@.len());
            reveal_strlit("minecraft:bypasses_armor");
            assert("#minecraft:bypasses_resistance"@.len() != "minecraft:bypasses_armor"@.len());
            reveal_strlit("bypasses_armor");
            assert("#minecraft:bypasses_resistance"@.len() != "bypasses_armor"@.len());
            reveal_strlit("#minecraft:bypasses_cooldown");
            assert("#minecraft:bypasses_resistance"@.len() != "#minecraft:bypasses_cooldown"@.len());
            reveal_strlit("minecraft:bypasses_cooldown");
            assert("#minecraft:bypasses_resistance"@.len() != "minecraft:bypasses_cooldown"@.len());
            reveal_strlit("bypasses_cooldown");
            assert("#minecraft:bypasses_resistance"@.len() != "bypasses_cooldown"@.len());
            reveal_strlit("#minecraft:bypasses_effects");
            assert("#minecraft:bypasses_resistance"@.len() != "#minecraft:bypasses_effects"@.len());
            reveal_strlit("minecraft:bypasses_effects");
            assert("#minecraft:bypasses_resistance"@.len() != "minecraft:bypasses_effects"@.len());
            reveal_strlit("bypasses_effects");
            assert("#minecraft:bypasses_resistance"@.len() != "bypasses_effects"@.len());
            reveal_strlit("#minecraft:bypasses_enchantments");
            assert("#minecraft:bypasses_resistance"@.len() != "#minecraft:bypasses_enchantments"@.len());
            reveal_strlit("minecraft:bypasses_enchantments");
            assert("#minecraft:bypasses_resistance"@.len() != "minecraft:bypasses_enchantments"@.len());
            reveal_strlit("bypasses_enchantments");
            assert("#minecraft:bypasses_resistance"@.len() != "bypasses_enchantments"@.len());
            reveal_strlit("#minecraft:bypasses_invulnerability");
            assert("#minecraft:bypasses_resistance"@.len() != "#minecraft:bypasses_invulnerability"@.len());
            reveal_strlit("minecraft:bypasses_invulnerability");
            assert("#minecraft:bypasses_resistance"@.len() != "minecraft:bypasses_invulnerability"@.len());
            reveal_strlit("bypasses_invulnerability");
            assert("#minecraft:bypasses_resistance"@.len() != "bypasses_invulnerability"@.len());
        },
        DamageResistantType::BypassesShield => {
            reveal_strlit("#minecraft:bypasses_shield");
            reveal_strlit("#minecraft:always_hurts_ender_dragons");
            assert("#minecraft:bypasses_shield"@.len() != "#minecraft:always_hurts_ender_dragons"@.len());
            reveal_strlit("minecraft:always_hurts_ender_dragons");
            assert("#minecraft:bypasses_shield"@.len() != "minecraft:always_hurts_ender_dragons"@.len());
            reveal_strlit("always_hurts_ender_dragons");
            assert("#minecraft:bypasses_shield"@[0] != "always_hurts_ender_dragons"@[0]);
            reveal_strlit("#minecraft:always_kills_armor_stands");
            assert("#minecraft:bypasses_shield"@.len() != "#minecraft:always_kills_armor_stands"@.len());
            reveal_strlit("minecraft:always_kills_armor_stands");
            assert("#minecraft:bypasses_shield"@.len() != "minecraft:always_kills_armor_stands"@.len());
            reveal_strlit("always_kills_armor_stands");
            assert("#minecraft:bypasses_shield"@.len() != "always_kills_armor_stands"@.len());
            reveal_strlit("#minecraft:always_most_significant_fall");
            assert("#minecraft:bypasses_shield"@.len() != "#minecraft:always_most_significant_fall"@.len());
            reveal_strlit("minecraft:always_most_significant_fall");
            assert("#minecraft:bypasses_shield"@.len() != "minecraft:always_most_significant_fall"@.len());
            reveal_strlit("always_most_significant_fall");
            assert("#minecraft:bypasses_shield"@.len() != "always_most_significant_fall"@.len());
            reveal_strlit("#minecraft:always_triggers_silverfish");
            assert("#minecraft:bypasses_shield"@.len() != "#minecraft:always_triggers_silverfish"@.len());
            reveal_strlit("minecraft:always_triggers_silverfish");
            assert("#minecraft:bypasses_shield"@.len() != "minecraft:always_triggers_silverfish"@.len());
            reveal_strlit("always_triggers_silverfish");
            assert("#minecraft:bypasses_shield"@[0] != "always_triggers_silverfish"@[0]);
            reveal_strlit("#minecraft:avoids_guardian_thorns");
            assert("#minecraft:bypasses_shield"@.len() != "#minecraft:avoids_guardian_thorns"@.len());
            reveal_strlit("minecraft:avoids_guardian_thorns");
            assert("#minecraft:bypasses_shield"@.len() != "minecraft:avoids_guardian_thorns"@.len());
            reveal_strlit("avoids_guardian_thorns");
            assert("#minecraft:bypasses_shield"@.len() != "avoids_guardian_thorns"@.len());
            reveal_strlit("#minecraft:burns_armor_stands");
            assert("#minecraft:bypasses_shield"@.len() != "#minecraft:burns_armor_stands"@.len());
            reveal_strlit("minecraft:burns_armor_stands");
            assert("#minecraft:bypasses_shield"@.len() != "minecraft:burns_armor_stands"@.len());
            reveal_strlit("burns_armor_stands");
            assert("#minecraft:bypasses_shield"@.len() != "burns_armor_stands"@.len());
            reveal_strlit("#minecraft:burn_from_stepping");
            assert("#minecraft:bypasses_shield"@.len() != "#minecraft:burn_from_stepping"@.len());
            reveal_strlit("minecraft:burn_from_stepping");
            assert("#minecraft:bypasses_shield"@.len() != "minecraft:burn_from_stepping"@.len());
            reveal_strlit("burn_from_stepping");
            assert("#minecraft:bypasses_shield"@.len() != "burn_from_stepping"@.len());
            reveal_strlit("#minecraft:bypasses_armor");
            assert("#minecraft:bypasses_shield"@.len() != "#minecraft:bypasses_armor"@.len());
            reveal_strlit("minecraft:bypasses_armor");
            assert("#minecraft:bypasses_shield"@.len() != "minecraft:bypasses_armor"@.len());
            reveal_strlit("bypasses_armor");
            assert("#minecraft:bypasses_shield"@.len() != "bypasses_armor"@.len());
            reveal_strlit("#minecraft:bypasses_cooldown");
            assert("#minecraft:bypasses_shield"@.len() != "#minecraft:bypasses_cooldown"@.len());
            reveal_strlit("minecraft:bypasses_cooldown");
            assert("#minecraft:bypasses_shield"@.len() != "minecraft:bypasses_cooldown"@.len());
            reveal_strlit("bypasses_cooldown");
            assert("#minecraft:bypasses_shield"@.len() != "bypasses_cooldown"@.len());
            reveal_strlit("#minecraft:bypasses_effects");
            assert("#minecraft:bypasses_shield"@.len() != "#minecraft:bypasses_effects"@.len());
            reveal_strlit("minecraft:bypasses_effects");
            assert("#minecraft:bypasses_shield"@[0] != "minecraft:bypasses_effects"@[0]);
            reveal_strlit("bypasses_effects");
            assert("#minecraft:bypasses_shield"@.len() != "bypasses_effects"@.len());
            reveal_strlit("#minecraft:bypasses_enchantments");
            assert("#minecraft:bypasses_shield"@.len() != "#minecraft:bypasses_enchantments"@.len());
            reveal_strlit("minecraft:bypasses_enchantments");
            assert("#minecraft:bypasses_shield"@.len() != "minecraft:bypasses_enchantments"@.len());
            reveal_strlit("bypasses_enchantments");
            assert("#minecraft:bypasses_shield"@.len() != "bypasses_enchantments"@.len());
            reveal_strlit("#minecraft:bypasses_invulnerability");
            assert("#minecraft:bypasses_shield"@.len() != "#minecraft:bypasses_invulnerability"@.len());
            reveal_strlit("minecraft:bypasses_invulnerability");
            assert("#minecraft:bypasses_shield"@.len() != "minecraft:bypasses_invulnerability"@.len());
            reveal_strlit("bypasses_invulnerability");
            assert("#minecraft:bypasses_shield"@.len() != "bypasses_invulnerability"@.len());
            reveal_strlit("#minecraft:bypasses_resistance");
            assert("#minecraft:bypasses_shield"@.len() != "#minecraft:bypasses_resistance"@.len());
            reveal_strlit("minecraft:bypasses_resistance");
            assert("#minecraft:bypasses_shield"@.len() != "minecraft:bypasses_resistance"@.len());
            reveal_strlit("bypasses_resistance");
            assert("#minecraft:bypasses_shield"@.len() != "bypasses_resistance"@.len());
        },
        DamageResistantType::BypassesWolfArmor => {
            reveal_strlit("#minecraft:bypasses_wolf_armor");
            reveal_strlit("#minecraft:always_hurts_ender_dragons");
            assert("#minecraft:bypasses_wolf_armor"@.len() != "#minecraft:always_hurts_ender_dragons"@.len());
            reveal_strlit("minecraft:always_hurts_ender_dragons");
            assert("#minecraft:bypasses_wolf_armor"@.len() != "minecraft:always_hurts_ender_dragons"@.len());
            reveal_strlit("always_hurts_ender_dragons");
            assert("#minecraft:bypasses_wolf_armor"@.len() != "always_hurts_ender_dragons"@.len());
            reveal_strlit("#minecraft:always_kills_armor_stands");
            assert("#minecraft:bypasses_wolf_armor"@.len() != "#minecraft:always_kills_armor_stands"@.len());
            reveal_strlit("minecraft:always_kills_armor_stands");
            assert("#minecraft:bypasses_wolf_armor"@.len() != "minecraft:always_kills_armor_stands"@.len());
            reveal_strlit("always_kills_armor_stands");
            assert("#minecraft:bypasses_wolf_armor"@.len() != "always_kills_armor_stands"@.len());
            reveal_strlit("#minecraft:always_most_significant_fall");
            assert("#minecraft:bypasses_wolf_armor"@.len() != "#minecraft:always_most_significant_fall"@.len());
            reveal_strlit("minecraft:always_most_significant_fall");
            assert("#minecraft:bypasses_wolf_armor"@.len() != "minecraft:always_most_significant_fall"@.len());
            reveal_strlit("always_most_significant_fall");
            assert("#minecraft:bypasses_wolf_armor"@.len() != "always_most_significant_fall"@.len());
            reveal_strlit("#minecraft:always_triggers_silverfish");
            assert("#minecraft:bypasses_wolf_armor"@.len() != "#minecraft:always_triggers_silverfish"@.len());
            reveal_strlit("minecraft:always_triggers_silverfish");
            assert("#minecraft:bypasses_wolf_armor"@.len() != "minecraft:always_triggers_silverfish"@.len());
            reveal_strlit("always_triggers_silverfish");
            assert("#minecraft:bypasses_wolf_armor"@.len() != "always_triggers_silverfish"@.len());
            reveal_strlit("#minecraft:avoids_guardian_thorns");
            assert("#minecraft:bypasses_wolf_armor"@.len() != "#minecraft:avoids_guardian_thorns"@.len());
            reveal_strlit("minecraft:avoids_guardian_thorns");
            assert("#minecraft:bypasses_wolf_armor"@.len() != "minecraft:avoids_guardian_thorns"@.len());
            reveal_strlit("avoids_guardian_thorns");
            assert("#minecraft:bypasses_wolf_armor"@.len() != "avoids_guardian_thorns"@.len());
            reveal_strlit("#minecraft:burns_armor_stands");
            assert("#minecraft:bypasses_wolf_armor"@.len() != "#minecraft:burns_armor_stands"@.len());
            reveal_strlit("minecraft:burns_armor_stands");
            assert("#minecraft:bypasses_wolf_armor"@.len() != "minecraft:burns_armor_stands"@.len());
            reveal_strlit("burns_armor_stands");
            assert("#minecraft:bypasses_wolf_armor"@.len() != "burns_armor_stands"@.len());
            reveal_strlit("#minecraft:burn_from_stepping");
            assert("#minecraft:bypasses_wolf_armor"@.len() != "#minecraft:burn_from_stepping"@.len());
            reveal_strlit("minecraft:burn_from_stepping");
            assert("#minecraft:bypasses_wolf_armor"@.len() != "minecraft:burn_from_stepping"@.len());
            reveal_strlit("burn_from_stepping");
            assert("#minecraft:bypasses_wolf_armor"@.len() != "burn_from_stepping"@.len());
            reveal_strlit("#minecraft:bypasses_armor");
            assert("#minecraft:bypasses_wolf_armor"@.len() != "#minecraft:bypasses_armor"@.len());
            reveal_strlit("minecraft:bypasses_armor");
            assert("#minecraft:bypasses_wolf_armor"@.len() != "minecraft:bypasses_armor"@.len());
            reveal_strlit("bypasses_armor");
            assert("#minecraft:bypasses_wolf_armor"@.len() != "bypasses_armor"@.len());
            reveal_strlit("#minecraft:bypasses_cooldown");
            assert("#minecraft:bypasses_wolf_armor"@.len() != "#minecraft:bypasses_cooldown"@.len());
            reveal_strlit("minecraft:bypasses_cooldown");
            assert("#minecraft:bypasses_wolf_armor"@.len() != "minecraft:bypasses_cooldown"@.len());
            reveal_strlit("bypasses_cooldown");
            assert("#minecraft:bypasses_wolf_armor"@.len() != "bypasses_cooldown"@.len());
            reveal_strlit("#minecraft:bypasses_effects");
            assert("#minecraft:bypasses_wolf_armor"@.len() != "#minecraft:bypasses_effects"@.len());
            reveal_strlit("minecraft:bypasses_effects");
            assert("#minecraft:bypasses_wolf_armor"@.len() != "minecraft:bypasses_effects"@.len());
            reveal_strlit("bypasses_effects");
            assert("#minecraft:bypasses_wolf_armor"@.len() != "bypasses_effects"@.len());
            reveal_strlit("#minecraft:bypasses_enchantments");
            assert("#minecraft:bypasses_wolf_armor"@.len() != "#minecraft:bypasses_enchantments"@.len());
            reveal_strlit("minecraft:bypasses_enchantments");
            assert("#minecraft:bypasses_wolf_armor"@.len() != "minecraft:bypasses_enchantments"@.len());
            reveal_strlit("bypasses_enchantments");
            assert("#minecraft:bypasses_wolf_armor"@.len() != "bypasses_enchantments"@.len());
            reveal_strlit("#minecraft:bypasses_invulnerability");
            assert("#minecraft:bypasses_wolf_armor"@.len() != "#minecraft:bypasses_invulnerability"@.len());
            reveal_strlit("minecraft:bypasses_invulnerability");
            assert("#minecraft:bypasses_wolf_armor"@.len() != "minecraft:bypasses_invulnerability"@.len());
            reveal_strlit("bypasses_invulnerability");
            assert("#minecraft:bypasses_wolf_armor"@.len() != "bypasses_invulnerability"@.len());
            reveal_strlit("#minecraft:bypasses_resistance");
            assert("#minecraft:bypasses_wolf_armor"@[20] != "#minecraft:bypasses_resistance"@[20]);
            reveal_strlit("minecraft:bypasses_resistance");
            assert("#minecraft:bypasses_wolf_armor"@.len() != "minecraft:bypasses_resistance"@.len());
            reveal_strlit("bypasses_resistance");
            assert("#minecraft:bypasses_wolf_armor"@.len() != "bypasses_resistance"@.len());
            reveal_strlit("#minecraft:bypasses_shield");
            assert("#minecraft:bypasses_wolf_armor"@.len() != "#minecraft:bypasses_shield"@.len());
            reveal_strlit("minecraft:bypasses_shield");
            assert("#minecraft:bypasses_wolf_armor"@.len() != "minecraft:bypasses_shield"@.len());
            reveal_strlit("bypasses_shield");
            assert("#minecraft:bypasses_wolf_armor"@.len() != "bypasses_shield"@.len());
        },
        DamageResistantType::CanBreakArmorStands => {
            reveal_strlit("#minecraft:can_break_armor_stand");
            reveal_strlit("#minecraft:always_hurts_ender_dragons");
            assert("#minecraft:can_break_armor_stand"@.len() != "#minecraft:always_hurts_ender_dragons"@.len());
            reveal_strlit("minecraft:always_hurts_ender_dragons");
            assert("#minecraft:can_break_armor_stand"@.len() != "minecraft:always_hurts_ender_dragons"@.len());
            reveal_strlit("always_hurts_ender_dragons");
            assert("#minecraft:can_break_armor_stand"@.len() != "always_hurts_ender_dragons"@.len());
            reveal_strlit("#minecraft:always_kills_armor_stands");
            assert("#minecraft:can_break_armor_stand"@.len() != "#minecraft:always_kills_armor_stands"@.len());
            reveal_strlit("minecraft:always_kills_armor_stands");
            assert("#minecraft:can_break_armor_stand"@.len() != "minecraft:always_kills_armor_stands"@.len());
            reveal_strlit("always_kills_armor_stands");
            assert("#minecraft:can_break_armor_stand"@.len() != "always_kills_armor_stands"@.len());
            reveal_strlit("#minecraft:always_most_significant_fall");
            assert("#minecraft:can_break_armor_stand"@.len() != "#minecraft:always_most_significant_fall"@.len());
            reveal_strlit("minecraft:always_most_significant_fall");
            assert("#minecraft:can_break_armor_stand"@.len() != "minecraft:always_most_significant_fall"@.len());
            reveal_strlit("always_most_significant_fall");
            assert("#minecraft:can_break_armor_stand"@.len() != "always_most_significant_fall"@.len());
            reveal_strlit("#minecraft:always_triggers_silverfish");
            assert("#minecraft:can_break_armor_stand"@.len() != "#minecraft:always_triggers_silverfish"@.len());
            reveal_strlit("minecraft:always_triggers_silverfish");
            assert("#minecraft:can_break_armor_stand"@.len() != "minecraft:always_triggers_silverfish"@.len());
            reveal_strlit("always_triggers_silverfish");
            assert("#minecraft:can_break_armor_stand"@.len() != "always_triggers_silverfish"@.len());
            reveal_strlit("#minecraft:avoids_guardian_thorns");
            assert("#minecraft:can_break_armor_stand"@.len() != "#minecraft:avoids_guardian_thorns"@.len());
            reveal_strlit("minecraft:avoids_guardian_thorns");
            assert("#minecraft:can_break_armor_stand"@[0] != "minecraft:avoids_guardian_thorns"@[0]);
            reveal_strlit("avoids_guardian_thorns");
            assert("#minecraft:can_break_armor_stand"@.len() != "avoids_guardian_thorns"@.len());
            reveal_strlit("#minecraft:burns_armor_stands");
            assert("#minecraft:can_break_armor_stand"@.len() != "#minecraft:burns_armor_stands"@.len());
            reveal_strlit("minecraft:burns_armor_stands");
            assert("#minecraft:can_break_armor_stand"@.len() != "minecraft:burns_armor_stands"@.len());
            reveal_strlit("burns_armor_stands");
            assert("#minecraft:can_break_armor_stand"@.len() != "burns_armor_stands"@.len());
            reveal_strlit("#minecraft:burn_from_stepping");
            assert("#minecraft:can_break_armor_stand"@.len() != "#minecraft:burn_from_stepping"@.len());
            reveal_strlit("minecraft:burn_from_stepping");
            assert("#minecraft:can_break_armor_stand"@.len() != "minecraft:burn_from_stepping"@.len());
            reveal_strlit("burn_from_stepping");
            assert("#minecraft:can_break_armor_stand"@.len() != "burn_from_stepping"@.len());
            reveal_strlit("#minecraft:bypasses_armor");
            assert("#minecraft:can_break_armor_stand"@.len() != "#minecraft:bypasses_armor"@.len());
            reveal_strlit("minecraft:bypasses_armor");
            assert("#minecraft:can_break_armor_stand"@.len() != "minecraft:bypasses_armor"@.len());
            reveal_strlit("bypasses_armor");
            assert("#minecraft:can_break_armor_stand"@.len() != "bypasses_armor"@.len());
            reveal_strlit("#minecraft:bypasses_cooldown");
            assert("#minecraft:can_break_armor_stand"@.len() != "#minecraft:bypasses_cooldown"@.len());
            reveal_strlit("minecraft:bypasses_cooldown");
            assert("#minecraft:can_break_armor_stand"@.len() != "minecraft:bypasses_cooldown"@.len());
            reveal_strlit("bypasses_cooldown");
            assert("#minecraft:can_break_armor_stand"@.len() != "bypasses_cooldown"@.len());
            reveal_strlit("#minecraft:bypasses_effects");
            assert("#minecraft:can_break_armor_stand"@.len() != "#minecraft:bypasses_effects"@.len());
            reveal_strlit("minecraft:bypasses_effects");
            assert("#minecraft:can_break_armor_stand"@.len() != "minecraft:bypasses_effects"@.len());
            reveal_strlit("bypasses_effects");
            assert("#minecraft:can_break_armor_stand"@.len() != "bypasses_effects"@.len());
            reveal_strlit("#minecraft:bypasses_enchantments");
            assert("#minecraft:can_break_armor_stand"@[11] != "#minecraft:bypasses_enchantments"@[11]);
            reveal_strlit("minecraft:bypasses_enchantments");
            assert("#minecraft:can_break_armor_stand"@.len() != "minecraft:bypasses_enchantments"@.len());
            reveal_strlit("bypasses_enchantments");
            assert("#minecraft:can_break_armor_stand"@.len() != "bypasses_enchantments"@.len());
            reveal_strlit("#minecraft:bypasses_invulnerability");
            assert("#minecraft:can_break_armor_stand"@.len() != "#minecraft:bypasses_invulnerability"@.len());
            reveal_strlit("minecraft:bypasses_invulnerability");
            assert("#minecraft:can_break_armor_stand"@.len() != "minecraft:bypasses_invulnerability"@.len());
            reveal_strlit("bypasses_invulnerability");
            assert("#minecraft:can_break_armor_stand"@.len() != "bypasses_invulnerability"@.len());
            reveal_strlit("#minecraft:bypasses_resistance");
            assert("#minecraft:can_break_armor_stand"@.len() != "#minecraft:bypasses_resistance"@.len());
            reveal_strlit("minecraft:bypasses_resistance");
            assert("#minecraft:can_break_armor_stand"@.len() != "minecraft:bypasses_resistance"@.len());
            reveal_strlit("bypasses_resistance");
            assert("#minecraft:can_break_armor_stand"@.len() != "bypasses_resistance"@.len());
            reveal_strlit("#minecraft:bypasses_shield");
            assert("#minecraft:can_break_armor_stand"@.len() != "#minecraft:bypasses_shield"@.len());
            reveal_strlit("minecraft:bypasses_shield");
            assert("#minecraft:can_break_armor_stand"@.len() != "minecraft:bypasses_shield"@.len());
            reveal_strlit("bypasses_shield");
            assert("#minecraft:can_break_armor_stand"@.len() != "bypasses_shield"@.len());
            reveal_strlit("#minecraft:bypasses_wolf_armor");
            assert("#minecraft:can_break_armor_stand"@.len() != "#minecraft:bypasses_wolf_armor"@.len());
            reveal_strlit("minecraft:bypasses_wolf_armor");
            assert("#minecraft:can_break_armor_stand"@.len() != "minecraft:bypasses_wolf_armor"@.len());
            reveal_strlit("bypasses_wolf_armor");
            assert("#minecraft:can_break_armor_stand"@.len() != "bypasses_wolf_armor"@.len());
        },
        DamageResistantType::DamagesHelmet => {
            reveal_strlit("#minecraft:damages_helmet");
            reveal_strlit("#minecraft:always_hurts_ender_dragons");
            assert("#minecraft:damages_helmet"@.len() != "#minecraft:always_hurts_ender_dragons"@.len());
            reveal_strlit("minecraft:always_hurts_ender_dragons");
            assert("#minecraft:damages_helmet"@.len() != "minecraft:always_hurts_ender_dragons"@.len());
            reveal_strlit("always_hurts_ender_dragons");
            assert("#minecraft:damages_helmet"@.len() != "always_hurts_ender_dragons"@.len());
            reveal_strlit("#minecraft:always_kills_armor_stands");
            assert("#minecraft:damages_helmet"@.len() != "#minecraft:always_kills_armor_stands"@.len());
            reveal_strlit("minecraft:always_kills_armor_stands");
            assert("#minecraft:damages_helmet"@.len() != "minecraft:always_kills_armor_stands"@.len());
            reveal_strlit("always_kills_armor_stands");
            assert("#minecraft:damages_helmet"@[0] != "always_kills_armor_stands"@[0]);
            reveal_strlit("#minecraft:always_most_significant_fall");
            assert("#minecraft:damages_helmet"@.len() != "#minecraft:always_most_significant_fall"@.len());
            reveal_strlit("minecraft:always_most_significant_fall");
            assert("#minecraft:damages_helmet"@.len() != "minecraft:always_most_significant_fall"@.len());
            reveal_strlit("always_most_significant_fall");
            assert("#minecraft:damages_helmet"@.len() != "always_most_significant_fall"@.len());
            reveal_strlit("#minecraft:always_triggers_silverfish");
            assert("#minecraft:damages_helmet"@.len() != "#minecraft:always_triggers_silverfish"@.len());
            reveal_strlit("minecraft:always_triggers_silverfish");
            assert("#minecraft:damages_helmet"@.len() != "minecraft:always_triggers_silverfish"@.len());
            reveal_strlit("always_triggers_silverfish");
            assert("#minecraft:damages_helmet"@.len() != "always_triggers_silverfish"@.len());
            reveal_strlit("#minecraft:avoids_guardian_thorns");
            assert("#minecraft:damages_helmet"@.len() != "#minecraft:avoids_guardian_thorns"@.len());
            reveal_strlit("minecraft:avoids_guardian_thorns");
            assert("#minecraft:damages_helmet"@.len() != "minecraft:avoids_guardian_thorns"@.len());
            reveal_strlit("avoids_guardian_thorns");
            assert("#minecraft:damages_helmet"@.len() != "avoids_guardian_thorns"@.len());
            reveal_strlit("#minecraft:burns_armor_stands");
            assert("#minecraft:damages_helmet"@.len() != "#minecraft:burns_armor_stands"@.len());
            reveal_strlit("minecraft:burns_armor_stands");
            assert("#minecraft:damages_helmet"@.len() != "minecraft:burns_armor_stands"@.len());
            reveal_strlit("burns_armor_stands");
            assert("#minecraft:damages_helmet"@.len() != "burns_armor_stands"@.len());
            reveal_strlit("#minecraft:burn_from_stepping");
            assert("#minecraft:damages_helmet"@.len() != "#minecraft:burn_from_stepping"@.len());
            reveal_strlit("minecraft:burn_from_stepping");
            assert("#minecraft:damages_helmet"@.len() != "minecraft:burn_from_stepping"@.len());
            reveal_strlit("burn_from_stepping");
            assert("#minecraft:damages_helmet"@.len() != "burn_from_stepping"@.len());
            reveal_strlit("#minecraft:bypasses_armor");
            assert("#minecraft:damages_helmet"@[11] != "#minecraft:bypasses_armor"@[11]);
            reveal_strlit("minecraft:bypasses_armor");
            assert("#minecraft:damages_helmet"@.len() != "minecraft:bypasses_armor"@.len());
            reveal_strlit("bypasses_armor");
            assert("#minecraft:damages_helmet"@.len() != "bypasses_armor"@.len());
            reveal_strlit("#minecraft:bypasses_cooldown");
            assert("#minecraft:damages_helmet"@.len() != "#minecraft:bypasses_cooldown"@.len());
            reveal_strlit("minecraft:bypasses_cooldown");
            assert("#minecraft:damages_helmet"@.len() != "minecraft:bypasses_cooldown"@.len());
            reveal_strlit("bypasses_cooldown");
            assert("#minecraft:damages_helmet"@.len() != "bypasses_cooldown"@.len());
            reveal_strlit("#minecraft:bypasses_effects");
            assert("#minecraft:damages_helmet"@.len() != "#minecraft:bypasses_effects"@.len());
            reveal_strlit("minecraft:bypasses_effects");
            assert("#minecraft:damages_helmet"@.len() != "minecraft:bypasses_effects"@.len());
            reveal_strlit("bypasses_effects");
            assert("#minecraft:damages_helmet"@.len() != "bypasses_effects"@.len());
            reveal_strlit("#minecraft:bypasses_enchantments");
            assert("#minecraft:damages_helmet"@.len() != "#minecraft:bypasses_enchantments"@.len());
            reveal_strlit("minecraft:bypasses_enchantments");
            assert("#minecraft:damages_helmet"@.len() != "minecraft:bypasses_enchantments"@.len());
            reveal_strlit("bypasses_enchantments");
            assert("#minecraft:damages_helmet"@.len() != "bypasses_enchantments"@.len());
            reveal_strlit("#minecraft:bypasses_invulnerability");
            assert("#minecraft:damages_helmet"@.len() != "#minecraft:bypasses_invulnerability"@.len());
            reveal_strlit("minecraft:bypasses_invulnerability");
            assert("#minecraft:damages_helmet"@.len() != "minecraft:bypasses_invulnerability"@.len());
            reveal_strlit("bypasses_invulnerability");
            assert("#minecraft:damages_helmet"@.len() != "bypasses_invulnerability"@.len());
            reveal_strlit("#minecraft:bypasses_resistance");
            assert("#minecraft:damages_helmet"@.len() != "#minecraft:bypasses_resistance"@.len());
            reveal_strlit("minecraft:bypasses_resistance");
            assert("#minecraft:damages_helmet"@.len() != "minecraft:bypasses_resistance"@.len());
            reveal_strlit("bypasses_resistance");
            assert("#minecraft:damages_helmet"@.len() != "bypasses_resistance"@.len());
            reveal_strlit("#minecraft:bypasses_shield");
            assert("#minecraft:damages_helmet"@.len() != "#minecraft:bypasses_shield"@.len());
            reveal_strlit("minecraft:bypasses_shield");
            assert("#minecraft:damages_helmet"@[0] != "minecraft:bypasses_shield"@[0]);
            reveal_strlit("bypasses_shield");
            assert("#minecraft:damages_helmet"@.len() != "bypasses_shield"@.len());
            reveal_strlit("#minecraft:bypasses_wolf_armor");
            assert("#minecraft:damages_helmet"@.len() != "#minecraft:bypasses_wolf_armor"@.len());
            reveal_strlit("minecraft:bypasses_wolf_armor");
            assert("#minecraft:damages_helmet"@.len() != "minecraft:bypasses_wolf_armor"@.len());
            reveal_strlit("bypasses_wolf_armor");
            assert("#minecraft:damages_helmet"@.len() != "bypasses_wolf_armor"@.len());
            reveal_strlit("#minecraft:can_break_armor_stand");
            assert("#minecraft:damages_helmet"@.len() != "#minecraft:can_break_armor_stand"@.len());
            reveal_strlit("minecraft:can_break_armor_stand");
            assert("#minecraft:damages_helmet"@.len() != "minecraft:can_break_armor_stand"@.len());
            reveal_strlit("can_break_armor_stand");
            assert("#minecraft:damages_helmet"@.len() != "can_break_armor_stand"@.len());
        },
        DamageResistantType::IgnitesArmorStands => {
            reveal_strlit("#minecraft:ignites_armor_stands");
            reveal_strlit("#minecraft:always_hurts_ender_dragons");
            assert("#minecraft:ignites_armor_stands"@.len() != "#minecraft:always_hurts_ender_dragons"@.len());
            reveal_strlit("minecraft:always_hurts_ender_dragons");
            assert("#minecraft:ignites_armor_stands"@.len() != "minecraft:always_hurts_ender_dragons"@.len());
            reveal_strlit("always_hurts_ender_dragons");
            assert("#minecraft:ignites_armor_stands"@.len() != "always_hurts_ender_dragons"@.len());
            reveal_strlit("#minecraft:always_kills_armor_stands");
            assert("#minecraft:ignites_armor_stands"@.len() != "#minecraft:always_kills_armor_stands"@.len());
            reveal_strlit("minecraft:always_kills_armor_stands");
            assert("#minecraft:ignites_armor_stands"@.len() != "minecraft:always_kills_armor_stands"@.len());
            reveal_strlit("always_kills_armor_stands");
            assert("#minecraft:ignites_armor_stands"@.len() != "always_kills_armor_stands"@.len());
            reveal_strlit("#minecraft:always_most_significant_fall");
            assert("#minecraft:ignites_armor_stands"@.len() != "#minecraft:always_most_significant_fall"@.len());
            reveal_strlit("minecraft:always_most_significant_fall");
            assert("#minecraft:ignites_armor_stands"@.len() != "minecraft:always_most_significant_fall"@.len());
            reveal_strlit("always_most_significant_fall");
            assert("#minecraft:ignites_armor_stands"@.len() != "always_most_significant_fall"@.len());
            reveal_strlit("#minecraft:always_triggers_silverfish");
            assert("#minecraft:ignites_armor_stands"@.len() != "#minecraft:always_triggers_silverfish"@.len());
            reveal_strlit("minecraft:always_triggers_silverfish");
            assert("#minecraft:ignites_armor_stands"@.len() != "minecraft:always_triggers_silverfish"@.len());
            reveal_strlit("always_triggers_silverfish");
            assert("#minecraft:ignites_armor_stands"@.len() != "always_triggers_silverfish"@.len());
            reveal_strlit("#minecraft:avoids_guardian_thorns");
            assert("#minecraft:ignites_armor_stands"@.len() != "#minecraft:avoids_guardian_thorns"@.len());
            reveal_strlit("minecraft:avoids_guardian_thorns");
            assert("#minecraft:ignites_armor_stands"@.len() != "minecraft:avoids_guardian_thorns"@.len());
            reveal_strlit("avoids_guardian_thorns");
            assert("#minecraft:ignites_armor_stands"@.len() != "avoids_guardian_thorns"@.len());
            reveal_strlit("#minecraft:burns_armor_stands");
            assert("#minecraft:ignites_armor_stands"@.len() != "#minecraft:burns_armor_stands"@.len());
            reveal_strlit("minecraft:burns_armor_stands");
            assert("#minecraft:ignites_armor_stands"@.len() != "minecraft:burns_armor_stands"@.len());
            reveal_strlit("burns_armor_stands");
            assert("#minecraft:ignites_armor_stands"@.len() != "burns_armor_stands"@.len());
            reveal_strlit("#minecraft:burn_from_stepping");
            assert("#minecraft:ignites_armor_stands"@.len() != "#minecraft:burn_from_stepping"@.len());
            reveal_strlit("minecraft:burn_from_stepping");
            assert("#minecraft:ignites_armor_stands"@.len() != "minecraft:burn_from_stepping"@.len());
            reveal_strlit("burn_from_stepping");
            assert("#minecraft:ignites_armor_stands"@.len() != "burn_from_stepping"@.len());
            reveal_strlit("#minecraft:bypasses_armor");
            assert("#minecraft:ignites_armor_stands"@.len() != "#minecraft:bypasses_armor"@.len());
            reveal_strlit("minecraft:bypasses_armor");
            assert("#minecraft:ignites_armor_stands"@.len() != "minecraft:bypasses_armor"@.len());
            reveal_strlit("bypasses_armor");
            assert("#minecraft:ignites_armor_stands"@.len() != "bypasses_armor"@.len());
            reveal_strlit("#minecraft:bypasses_cooldown");
            assert("#minecraft:ignites_armor_stands"@.len() != "#minecraft:bypasses_cooldown"@.len());
            reveal_strlit("minecraft:bypasses_cooldown");
            assert("#minecraft:ignites_armor_stands"@.len() != "minecraft:bypasses_cooldown"@.len());
            reveal_strlit("bypasses_cooldown");
            assert("#minecraft:ignites_armor_stands"@.len() != "bypasses_cooldown"@.len());
            reveal_strlit("#minecraft:bypasses_effects");
            assert("#minecraft:ignites_armor_stands"@.len() != "#minecraft:bypasses_effects"@.len());
            reveal_strlit("minecraft:bypasses_effects");
            assert("#minecraft:ignites_armor_stands"@.len() != "minecraft:bypasses_effects"@.len());
            reveal_strlit("bypasses_effects");
            assert("#minecraft:ignites_armor_stands"@.len() != "bypasses_effects"@.len());
            reveal_strlit("#minecraft:bypasses_enchantments");
            assert("#minecraft:ignites_armor_stands"@.len() != "#minecraft:bypasses_enchantments"@.len());
            reveal_strlit("minecraft:bypasses_enchantments");
            assert("#minecraft:ignites_armor_stands"@[0] != "minecraft:bypasses_enchantments"@[0]);
            reveal_strlit("bypasses_enchantments");
            assert("#minecraft:ignites_armor_stands"@.len() != "bypasses_enchantments"@.len());
            reveal_strlit("#minecraft:bypasses_invulnerability");
            assert("#minecraft:ignites_armor_stands"@.len() != "#minecraft:bypasses_invulnerability"@.len());
            reveal_strlit("minecraft:bypasses_invulnerability");
            assert("#minecraft:ignites_armor_stands"@.len() != "minecraft:bypasses_invulnerability"@.len());
            reveal_strlit("bypasses_invulnerability");
            assert("#minecraft:ignites_armor_stands"@.len() != "bypasses_invulnerability"@.len());
            reveal_strlit("#minecraft:bypasses_resistance");
            assert("#minecraft:ignites_armor_stands"@.len() != "#minecraft:bypasses_resistance"@.len());
            reveal_strlit("minecraft:bypasses_resistance");
            assert("#minecraft:ignites_armor_stands"@.len() != "minecraft:bypasses_resistance"@.len());
            reveal_strlit("bypasses_resistance");
            assert("#minecraft:ignites_armor_stands"@.len() != "bypasses_resistance"@.len());
            reveal_strlit("#minecraft:bypasses_shield");
            assert("#minecraft:ignites_armor_stands"@.len() != "#minecraft:bypasses_shield"@.len());
            reveal_strlit("minecraft:bypasses_shield");
            assert("#minecraft:ignites_armor_stands"@.len() != "minecraft:bypasses_shield"@.len());
            reveal_strlit("bypasses_shield");
            assert("#minecraft:ignites_armor_stands"@.len() != "bypasses_shield"@.len());
            reveal_strlit("#minecraft:bypasses_wolf_armor");
            assert("#minecraft:ignites_armor_stands"@.len() != "#minecraft:bypasses_wolf_armor"@.len());
            reveal_strlit("minecraft:bypasses_wolf_armor");
            assert("#minecraft:ignites_armor_stands"@.len() != "minecraft:bypasses_wolf_armor"@.len());
            reveal_strlit("bypasses_wolf_armor");
            assert("#minecraft:ignites_armor_stands"@.len() != "bypasses_wolf_armor"@.len());
            reveal_strlit("#minecraft:can_break_armor_stand");
            assert("#minecraft:ignites_armor_stands"@.len() != "#minecraft:can_break_armor_stand"@.len());
            reveal_strlit("minecraft:can_break_armor_stand");
            assert("#minecraft:ignites_armor_stands"@[0] != "minecraft:can_break_armor_stand"@[0]);
            reveal_strlit("can_break_armor_stand");
            assert("#minecraft:ignites_armor_stands"@.len() != "can_break_armor_stand"@.len());
            reveal_strlit("#minecraft:damages_helmet");
            assert("#minecraft:ignites_armor_stands"@.len() != "#minecraft:damages_helmet"@.len());
            reveal_strlit("minecraft:damages_helmet");
            assert("#minecraft:ignites_armor_stands"@.len() != "minecraft:damages_helmet"@.len());
            reveal_strlit("damages_helmet");
            assert("#minecraft:ignites_armor_stands"@.len() != "damages_helmet"@.len());
        },
        DamageResistantType::Drowning => {
            reveal_strlit("#minecraft:is_drowning");
            reveal_strlit("#minecraft:always_hurts_ender_dragons");
            assert("#minecraft:is_drowning"@.len() != "#minecraft:always_hurts_ender_dragons"@.len());
            reveal_strlit("minecraft:always_hurts_ender_dragons");
            assert("#minecraft:is_drowning"@.len() != "minecraft:always_hurts_ender_dragons"@.len());
            reveal_strlit("always_hurts_ender_dragons");
            assert("#minecraft:is_drowning"@.len() != "always_hurts_ender_dragons"@.len());
            reveal_strlit("#minecraft:always_kills_armor_stands");
            assert("#minecraft:is_drowning"@.len() != "#minecraft:always_kills_armor_stands"@.len());
            reveal_strlit("minecraft:always_kills_armor_stands");
            assert("#minecraft:is_drowning"@.len() != "minecraft:always_kills_armor_stands"@.len());
            reveal_strlit("always_kills_armor_stands");
            assert("#minecraft:is_drowning"@.len() != "always_kills_armor_stands"@.len());
            reveal_strlit("#minecraft:always_most_significant_fall");
            assert("#minecraft:is_drowning"@.len() != "#minecraft:always_most_significant_fall"@.len());
            reveal_strlit("minecraft:always_most_significant_fall");
            assert("#minecraft:is_drowning"@.len() != "minecraft:always_most_significant_fall"@.len());
            reveal_strlit("always_most_significant_fall");
            assert("#minecraft:is_drowning"@.len() != "always_most_significant_fall"@.len());
            reveal_strlit("#minecraft:always_triggers_silverfish");
            assert("#minecraft:is_drowning"@.len() != "#minecraft:always_triggers_silverfish"@.len());
            reveal_strlit("minecraft:always_triggers_silverfish");
            assert("#minecraft:is_drowning"@.len() != "minecraft:always_triggers_silverfish"@.len());
            reveal_strlit("always_triggers_silverfish");
            assert("#minecraft:is_drowning"@.len() != "always_triggers_silverfish"@.len());
            reveal_strlit("#minecraft:avoids_guardian_thorns");
            assert("#minecraft:is_drowning"@.len() != "#minecraft:avoids_guardian_thorns"@.len());
            reveal_strlit("minecraft:avoids_guardian_thorns");
            assert("#minecraft:is_drowning"@.len() != "minecraft:avoids_guardian_thorns"@.len());
            reveal_strlit("avoids_guardian_thorns");
            assert("#minecraft:is_drowning"@[0] != "avoids_guardian_thorns"@[0]);
            reveal_strlit("#minecraft:burns_armor_stands");
            assert("#minecraft:is_drowning"@.len() != "#minecraft:burns_armor_stands"@.len());
            reveal_strlit("minecraft:burns_armor_stands");
            assert("#minecraft:is_drowning"@.len() != "minecraft:burns_armor_stands"@.len());
            reveal_strlit("burns_armor_stands");
            assert("#minecraft:is_drowning"@.len() != "burns_armor_stands"@.len());
            reveal_strlit("#minecraft:burn_from_stepping");
            assert("#minecraft:is_drowning"@.len() != "#minecraft:burn_from_stepping"@.len());
            reveal_strlit("minecraft:burn_from_stepping");
            assert("#minecraft:is_drowning"@.len() != "minecraft:burn_from_stepping"@.len());
            reveal_strlit("burn_from_stepping");
            assert("#minecraft:is_drowning"@.len() != "burn_from_stepping"@.len());
            reveal_strlit("#minecraft:bypasses_armor");
            assert("#minecraft:is_drowning"@.len() != "#minecraft:bypasses_armor"@.len());
            reveal_strlit("minecraft:bypasses_armor");
            assert("#minecraft:is_drowning"@.len() != "minecraft:bypasses_armor"@.len());
            reveal_strlit("bypasses_armor");
            assert("#minecraft:is_drowning"@.len() != "bypasses_armor"@.len());
            reveal_strlit("#minecraft:bypasses_cooldown");
            assert("#minecraft:is_drowning"@.len() != "#minecraft:bypasses_cooldown"@.len());
            reveal_strlit("minecraft:bypasses_cooldown");
            assert("#minecraft:is_drowning"@.len() != "minecraft:bypasses_cooldown"@.len());
            reveal_strlit("bypasses_cooldown");
            assert("#minecraft:is_drowning"@.len() != "bypasses_cooldown"@.len());
            reveal_strlit("#minecraft:bypasses_effects");
            assert("#minecraft:is_drowning"@.len() != "#minecraft:bypasses_effects"@.len());
            reveal_strlit("minecraft:bypasses_effects");
            assert("#minecraft:is_drowning"@.len() != "minecraft:bypasses_effects"@.len());
            reveal_strlit("bypasses_effects");
            assert("#minecraft:is_drowning"@.len() != "bypasses_effects"@.len());
            reveal_strlit("#minecraft:bypasses_enchantments");
            assert("#minecraft:is_drowning"@.len() != "#minecraft:bypasses_enchantments"@.len());
            reveal_strlit("minecraft:bypasses_enchantments");
            assert("#minecraft:is_drowning"@.len() != "minecraft:bypasses_enchantments"@.len());
            reveal_strlit("bypasses_enchantments");
            assert("#minecraft:is_drowning"@.len() != "bypasses_enchantments"@.len());
            reveal_strlit("#minecraft:bypasses_invulnerability");
            assert("#minecraft:is_drowning"@.len() != "#minecraft:bypasses_invulnerability"@.len());
            reveal_strlit("minecraft:bypasses_invulnerability");
            assert("#minecraft:is_drowning"@.len() != "minecraft:bypasses_invulnerability"@.len());
            reveal_strlit("bypasses_invulnerability");
            assert("#minecraft:is_drowning"@.len() != "bypasses_invulnerability"@.len());
            reveal_strlit("#minecraft:bypasses_resistance");
            assert("#minecraft:is_drowning"@.len() != "#minecraft:bypasses_resistance"@.len());
            reveal_strlit("minecraft:bypasses_resistance");
            assert("#minecraft:is_drowning"@.len() != "minecraft:bypasses_resistance"@.len());
            reveal_strlit("bypasses_resistance");
            assert("#minecraft:is_drowning"@.len() != "bypasses_resistance"@.len());
            reveal_strlit("#minecraft:bypasses_shield");
            assert("#minecraft:is_drowning"@.len() != "#minecraft:bypasses_shield"@.len());
            reveal_strlit("minecraft:bypasses_shield");
            assert("#minecraft:is_drowning"@.len() != "minecraft:bypasses_shield"@.len());
            reveal_strlit("bypasses_shield");
            assert("#minecraft:is_drowning"@.len() != "bypasses_shield"@.len());
            reveal_strlit("#minecraft:bypasses_wolf_armor");
            assert("#minecraft:is_drowning"@.len() != "#minecraft:bypasses_wolf_armor"@.len());
            reveal_strlit("minecraft:bypasses_wolf_armor");
            assert("#minecraft:is_drowning"@.len() != "minecraft:bypasses_wolf_armor"@.len());
            reveal_strlit("bypasses_wolf_armor");
            assert("#minecraft:is_drowning"@.len() != "bypasses_wolf_armor"@.len());
            reveal_strlit("#minecraft:can_break_armor_stand");
            assert("#minecraft:is_drowning"@.len() != "#minecraft:can_break_armor_stand"@.len());
            reveal_strlit("minecraft:can_break_armor_stand");
            assert("#minecraft:is_drowning"@.len() != "minecraft:can_break_armor_stand"@.len());
            reveal_strlit("can_break_armor_stand");
            assert("#minecraft:is_drowning"@.len() != "can_break_armor_stand"@.len());
            reveal_strlit("#minecraft:damages_helmet");
            assert("#minecraft:is_drowning"@.len() != "#minecraft:damages_helmet"@.len());
            reveal_strlit("minecraft:damages_helmet");
            assert("#minecraft:is_drowning"@.len() != "minecraft:damages_helmet"@.len());
            reveal_strlit("damages_helmet");
            assert("#minecraft:is_drowning"@.len() != "damages_helmet"@.len());
            reveal_strlit("#minecraft:ignites_armor_stands");
            assert("#minecraft:is_drowning"@.len() != "#minecraft:ignites_armor_stands"@.len());
            reveal_strlit("minecraft:ignites_armor_stands");
            assert("#minecraft:is_drowning"@.len() != "minecraft:ignites_armor_stands"@.len());
            reveal_strlit("ignites_armor_stands");
            assert("#minecraft:is_drowning"@.len() != "ignites_armor_stands"@.len());
        },
        DamageResistantType::Explosion => {
            reveal_strlit("#minecraft:is_explosion");
            reveal_strlit("#minecraft:always_hurts_ender_dragons");
            assert("#minecraft:is_explosion"@.len() != "#minecraft:always_hurts_ender_dragons"@.len());
            reveal_strlit("minecraft:always_hurts_ender_dragons");
            assert("#minecraft:is_explosion"@.len() != "minecraft:always_hurts_ender_dragons"@.len());
            reveal_strlit("always_hurts_ender_dragons");
            assert("#minecraft:is_explosion"@.len() != "always_hurts_ender_dragons"@.len());
            reveal_strlit("#minecraft:always_kills_armor_stands");
            assert("#minecraft:is_explosion"@.len() != "#minecraft:always_kills_armor_stands"@.len());
            reveal_strlit("minecraft:always_kills_armor_stands");
            assert("#minecraft:is_explosion"@.len() != "minecraft:always_kills_armor_stands"@.len());
            reveal_strlit("always_kills_armor_stands");
            assert("#minecraft:is_explosion"@.len() != "always_kills_armor_stands"@.len());
            reveal_strlit("#minecraft:always_most_significant_fall");
            assert("#minecraft:is_explosion"@.len() != "#minecraft:always_most_significant_fall"@.len());
            reveal_strlit("minecraft:always_most_significant_fall");
            assert("#minecraft:is_explosion"@.len() != "minecraft:always_most_significant_fall"@.len());
            reveal_strlit("always_most_significant_fall");
            assert("#minecraft:is_explosion"@.len() != "always_most_significant_fall"@.len());
            reveal_strlit("#minecraft:always_triggers_silverfish");
            assert("#minecraft:is_explosion"@.len() != "#minecraft:always_triggers_silverfish"@.len());
            reveal_strlit("minecraft:always_triggers_silverfish");
            assert("#minecraft:is_explosion"@.len() != "minecraft:always_triggers_silverfish"@.len());
            reveal_strlit("always_triggers_silverfish");
            assert("#minecraft:is_explosion"@.len() != "always_triggers_silverfish"@.len());
            reveal_strlit("#minecraft:avoids_guardian_thorns");
            assert("#minecraft:is_explosion"@.len() != "#minecraft:avoids_guardian_thorns"@.len());
            reveal_strlit("minecraft:avoids_guardian_thorns");
            assert("#minecraft:is_explosion"@.len() != "minecraft:avoids_guardian_thorns"@.len());
            reveal_strlit("avoids_guardian_thorns");
            assert("#minecraft:is_explosion"@.len() != "avoids_guardian_thorns"@.len());
            reveal_strlit("#minecraft:burns_armor_stands");
            assert("#minecraft:is_explosion"@.len() != "#minecraft:burns_armor_stands"@.len());
            reveal_strlit("minecraft:burns_armor_stands");
            assert("#minecraft:is_explosion"@.len() != "minecraft:burns_armor_stands"@.len());
            reveal_strlit("burns_armor_stands");
            assert("#minecraft:is_explosion"@.len() != "burns_armor_stands"@.len());
            reveal_strlit("#minecraft:burn_from_stepping");
            assert("#minecraft:is_explosion"@.len() != "#minecraft:burn_from_stepping"@.len());
            reveal_strlit("minecraft:burn_from_stepping");
            assert("#minecraft:is_explosion"@.len() != "minecraft:burn_from_stepping"@.len());
            reveal_strlit("burn_from_stepping");
            assert("#minecraft:is_explosion"@.len() != "burn_from_stepping"@.len());
            reveal_strlit("#minecraft:bypasses_armor");
            assert("#minecraft:is_explosion"@.len() != "#minecraft:bypasses_armor"@.len());
            reveal_strlit("minecraft:bypasses_armor");
            assert("#minecraft:is_explosion"@.len() != "minecraft:bypasses_armor"@.len());
            reveal_strlit("bypasses_armor");
            assert("#minecraft:is_explosion"@.len() != "bypasses_armor"@.len());
            reveal_strlit("#minecraft:bypasses_cooldown");
            assert("#minecraft:is_explosion"@.len() != "#minecraft:bypasses_cooldown"@.len());
            reveal_strlit("minecraft:bypasses_cooldown");
            assert("#minecraft:is_explosion"@.len() != "minecraft:bypasses_cooldown"@.len());
            reveal_strlit("bypasses_cooldown");
            assert("#minecraft:is_explosion"@.len() != "bypasses_cooldown"@.len());
            reveal_strlit("#minecraft:bypasses_effects");
            assert("#minecraft:is_explosion"@.len() != "#minecraft:bypasses_effects"@.len());
            reveal_strlit("minecraft:bypasses_effects");
            assert("#minecraft:is_explosion"@.len() != "minecraft:bypasses_effects"@.len());
            reveal_strlit("bypasses_effects");
            assert("#minecraft:is_explosion"@.len() != "bypasses_effects"@.len());
            reveal_strlit("#minecraft:bypasses_enchantments");
            assert("#minecraft:is_explosion"@.len() != "#minecraft:bypasses_enchantments"@.len());
            reveal_strlit("minecraft:bypasses_enchantments");
            assert("#minecraft:is_explosion"@.len() != "minecraft:bypasses_enchantments"@.len());
            reveal_strlit("bypasses_enchantments");
            assert("#minecraft:is_explosion"@.len() != "bypasses_enchantments"@.len());
            reveal_strlit("#minecraft:bypasses_invulnerability");
            assert("#minecraft:is_explosion"@.len() != "#minecraft:bypasses_invulnerability"@.len());
            reveal_strlit("minecraft:bypasses_invulnerability");
            assert("#minecraft:is_explosion"@.len() != "minecraft:bypasses_invulnerability"@.len());
            reveal_strlit("bypasses_invulnerability");
            assert("#minecraft:is_explosion"@.len() != "bypasses_invulnerability"@.len());
            reveal_strlit("#minecraft:bypasses_resistance");
            assert("#minecraft:is_explosion"@.len() != "#minecraft:bypasses_resistance"@.len());
            reveal_strlit("minecraft:bypasses_resistance");
            assert("#minecraft:is_explosion"@.len() != "minecraft:bypasses_resistance"@.len());
            reveal_strlit("bypasses_resistance");
            assert("#minecraft:is_explosion"@.len() != "bypasses_resistance"@.len());
            reveal_strlit("#minecraft:bypasses_shield");
            assert("#minecraft:is_explosion"@.len() != "#minecraft:bypasses_shield"@.len());
            reveal_strlit("minecraft:bypasses_shield");
            assert("#minecraft:is_explosion"@.len() != "minecraft:bypasses_shield"@.len());
            reveal_strlit("bypasses_shield");
            assert("#minecraft:is_explosion"@.len() != "bypasses_shield"@.len());
            reveal_strlit("#minecraft:bypasses_wolf_armor");
            assert("#minecraft:is_explosion"@.len() != "#minecraft:bypasses_wolf_armor"@.len());
            reveal_strlit("minecraft:bypasses_wolf_armor");
            assert("#minecraft:is_explosion"@.len() != "minecraft:bypasses_wolf_armor"@.len());
            reveal_strlit("bypasses_wolf_armor");
            assert("#minecraft:is_explosion"@.len() != "bypasses_wolf_armor"@.len());
            reveal_strlit("#minecraft:can_break_armor_stand");
            assert("#minecraft:is_explosion"@.len() != "#minecraft:can_break_armor_stand"@.len());
            reveal_strlit("minecraft:can_break_armor_stand");
            assert("#minecraft:is_explosion"@.len() != "minecraft:can_break_armor_stand"@.len());
            reveal_strlit("can_break_armor_stand");
            assert("#minecraft:is_explosion"@.len() != "can_break_armor_stand"@.len());
            reveal_strlit("#minecraft:damages_helmet");
            assert("#minecraft:is_explosion"@.len() != "#minecraft:damages_helmet"@.len());
            reveal_strlit("minecraft:damages_helmet");
            assert("#minecraft:is_explosion"@.len() != "minecraft:damages_helmet"@.len());
            reveal_strlit("damages_helmet");
            assert("#minecraft:is_explosion"@.len() != "damages_helmet"@.len());
            reveal_strlit("#minecraft:ignites_armor_stands");
            assert("#minecraft:is_explosion"@.len() != "#minecraft:ignites_armor_stands"@.len());
            reveal_strlit("minecraft:ignites_armor_stands");
            assert("#minecraft:is_explosion"@.len() != "minecraft:ignites_armor_stands"@.len());
            reveal_strlit("ignites_armor_stands");
            assert("#minecraft:is_explosion"@.len() != "ignites_armor_stands"@.len());
            reveal_strlit("#minecraft:is_drowning");
            assert("#minecraft:is_explosion"@.len() != "#minecraft:is_drowning"@.len());
            reveal_strlit("minecraft:is_drowning");
            assert("#minecraft:is_explosion"@.len() != "minecraft:is_drowning"@.len());
            reveal_strlit("is_drowning");
            assert("#minecraft:is_explosion"@.len() != "is_drowning"@.len());
        },
        DamageResistantType::Fall => {
            reveal_strlit("#minecraft:is_fall");
            reveal_strlit("#minecraft:always_hurts_ender_dragons");
            assert("#minecraft:is_fall"@.len() != "#minecraft:always_hurts_ender_dragons"@.len());
            reveal_strlit("minecraft:always_hurts_ender_dragons");
            assert("#minecraft:is_fall"@.len() != "minecraft:always_hurts_ender_dragons"@.len());
            reveal_strlit("always_hurts_ender_dragons");
            assert("#minecraft:is_fall"@.len() != "always_hurts_ender_dragons"@.len());
            reveal_strlit("#minecraft:always_kills_armor_stands");
            assert("#minecraft:is_fall"@.len() != "#minecraft:always_kills_armor_stands"@.len());
            reveal_strlit("minecraft:always_kills_armor_stands");
            assert("#minecraft:is_fall"@.len() != "minecraft:always_kills_armor_stands"@.len());
            reveal_strlit("always_kills_armor_stands");
            assert("#minecraft:is_fall"@.len() != "always_kills_armor_stands"@.len());
            reveal_strlit("#minecraft:always_most_significant_fall");
            assert("#minecraft:is_fall"@.len() != "#minecraft:always_most_significant_fall"@.len());
            reveal_strlit("minecraft:always_most_significant_fall");
            assert("#minecraft:is_fall"@.len() != "minecraft:always_most_significant_fall"@.len());
            reveal_strlit("always_most_significant_fall");
            assert("#minecraft:is_fall"@.len() != "always_most_significant_fall"@.len());
            reveal_strlit("#minecraft:always_triggers_silverfish");
            assert("#minecraft:is_fall"@.len() != "#minecraft:always_triggers_silverfish"@.len());
            reveal_strlit("minecraft:always_triggers_silverfish");
            assert("#minecraft:is_fall"@.len() != "minecraft:always_triggers_silverfish"@.len());
            reveal_strlit("always_triggers_silverfish");
            assert("#minecraft:is_fall"@.len() != "always_triggers_silverfish"@.len());
            reveal_strlit("#minecraft:avoids_guardian_thorns");
            assert("#minecraft:is_fall"@.len() != "#minecraft:avoids_guardian_thorns"@.len());
            reveal_strlit("minecraft:avoids_guardian_thorns");
            assert("#minecraft:is_fall"@.len() != "minecraft:avoids_guardian_thorns"@.len());
            reveal_strlit("avoids_guardian_thorns");
            assert("#minecraft:is_fall"@.len() != "avoids_guardian_thorns"@.len());
            reveal_strlit("#minecraft:burns_armor_stands");
            assert("#minecraft:is_fall"@.len() != "#minecraft:burns_armor_stands"@.len());
            reveal_strlit("minecraft:burns_armor_stands");
            assert("#minecraft:is_fall"@.len() != "minecraft:burns_armor_stands"@.len());
            reveal_strlit("burns_armor_stands");
            assert("#minecraft:is_fall"@[0] != "burns_armor_stands"@[0]);
            reveal_strlit("#minecraft:burn_from_stepping");
            assert("#minecraft:is_fall"@.len() != "#minecraft:burn_from_stepping"@.len());
            reveal_strlit("minecraft:burn_from_stepping");
            assert("#minecraft:is_fall"@.len() != "minecraft:burn_from_stepping"@.len());
            reveal_strlit("burn_from_stepping");
            assert("#minecraft:is_fall"@[0] != "burn_from_stepping"@[0]);
            reveal_strlit("#minecraft:bypasses_armor");
            assert("#minecraft:is_fall"@.len() != "#minecraft:bypasses_armor"@.len());
            reveal_strlit("minecraft:bypasses_armor");
            assert("#minecraft:is_fall"@.len() != "minecraft:bypasses_armor"@.len());
            reveal_strlit("bypasses_armor");
            assert("#minecraft:is_fall"@.len() != "bypasses_armor"@.len());
            reveal_strlit("#minecraft:bypasses_cooldown");
            assert("#minecraft:is_fall"@.len() != "#minecraft:bypasses_cooldown"@.len());
            reveal_strlit("minecraft:bypasses_cooldown");
            assert("#minecraft:is_fall"@.len() != "minecraft:bypasses_cooldown"@.len());
            reveal_strlit("bypasses_cooldown");
            assert("#minecraft:is_fall"@.len() != "bypasses_cooldown"@.len());
            reveal_strlit("#minecraft:bypasses_effects");
            assert("#minecraft:is_fall"@.len() != "#minecraft:bypasses_effects"@.len());
            reveal_strlit("minecraft:bypasses_effects");
            assert("#minecraft:is_fall"@.len() != "minecraft:bypasses_effects"@.len());
            reveal_strlit("bypasses_effects");
            assert("#minecraft:is_fall"@.len() != "bypasses_effects"@.len());
            reveal_strlit("#minecraft:bypasses_enchantments");
            assert("#minecraft:is_fall"@.len() != "#minecraft:bypasses_enchantments"@.len());
            reveal_strlit("minecraft:bypasses_enchantments");
            assert("#minecraft:is_fall"@.len() != "minecraft:bypasses_enchantments"@.len());
            reveal_strlit("bypasses_enchantments");
            assert("#minecraft:is_fall"@.len() != "bypasses_enchantments"@.len());
            reveal_strlit("#minecraft:bypasses_invulnerability");
            assert("#minecraft:is_fall"@.len() != "#minecraft:bypasses_invulnerability"@.len());
            reveal_strlit("minecraft:bypasses_invulnerability");
            assert("#minecraft:is_fall"@.len() != "minecraft:bypasses_invulnerability"@.len());
            reveal_strlit("bypasses_invulnerability");
            assert("#minecraft:is_fall"@.len() != "bypasses_invulnerability"@.len());
            reveal_strlit("#minecraft:bypasses_resistance");
            assert("#minecraft:is_fall"@.len() != "#minecraft:bypasses_resistance"@.len());
            reveal_strlit("minecraft:bypasses_resistance");
            assert("#minecraft:is_fall"@.len() != "minecraft:bypasses_resistance"@.len());
            reveal_strlit("bypasses_resistance");
            assert("#minecraft:is_fall"@.len() != "bypasses_resistance"@.len());
            reveal_strlit("#minecraft:bypasses_shield");
            assert("#minecraft:is_fall"@.len() != "#minecraft:bypasses_shield"@.len());
            reveal_strlit("minecraft:bypasses_shield");
            assert("#minecraft:is_fall"@.len() != "minecraft:bypasses_shield"@.len());
            reveal_strlit("bypasses_shield");
            assert("#minecraft:is_fall"@.len() != "bypasses_shield"@.len());
            reveal_strlit("#minecraft:bypasses_wolf_armor");
            assert("#minecraft:is_fall"@.len() != "#minecraft:bypasses_wolf_armor"@.len());
            reveal_strlit("minecraft:bypasses_wolf_armor");
            assert("#minecraft:is_fall"@.len() != "minecraft:bypasses_wolf_armor"@.len());
            reveal_strlit("bypasses_wolf_armor");
            assert("#minecraft:is_fall"@.len() != "bypasses_wolf_armor"@.len());
            reveal_strlit("#minecraft:can_break_armor_stand");
            assert("#minecraft:is_fall"@.len() != "#minecraft:can_break_armor_stand"@.len());
            reveal_strlit("minecraft:can_break_armor_stand");
            assert("#minecraft:is_fall"@.len() != "minecraft:can_break_armor_stand"@.len());
            reveal_strlit("can_break_armor_stand");
            assert("#minecraft:is_fall"@.len() != "can_break_armor_stand"@.len());
            reveal_strlit("#minecraft:damages_helmet");
            assert("#minecraft:is_fall"@.len() != "#minecraft:damages_helmet"@.len());
            reveal_strlit("minecraft:damages_helmet");
            assert("#minecraft:is_fall"@.len() != "minecraft:damages_helmet"@.len());
            reveal_strlit("damages_helmet");
            assert("#minecraft:is_fall"@.len() != "damages_helmet"@.len());
            reveal_strlit("#minecraft:ignites_armor_stands");
            assert("#minecraft:is_fall"@.len() != "#minecraft:ignites_armor_stands"@.len());
            reveal_strlit("minecraft:ignites_armor_stands");
            assert("#minecraft:is_fall"@.len() != "minecraft:ignites_armor_stands"@.len());
            reveal_strlit("ignites_armor_stands");
            assert("#minecraft:is_fall"@.len() != "ignites_armor_stands"@.len());
            reveal_strlit("#minecraft:is_drowning");
            assert("#minecraft:is_fall"@.len() != "#minecraft:is_drowning"@.len());
            reveal_strlit("minecraft:is_drowning");
            assert("#minecraft:is_fall"@.len() != "minecraft:is_drowning"@.len());
            reveal_strlit("is_drowning");
            assert("#minecraft:is_fall"@.len() != "is_drowning"@.len());
            reveal_strlit("#minecraft:is_explosion");
            assert("#minecraft:is_fall"@.len() != "#minecraft:is_explosion"@.len());
            reveal_strlit("minecraft:is_explosion");
            assert("#minecraft:is_fall"@.len() != "minecraft:is_explosion"@.len());
            reveal_strlit("is_explosion");
            assert("#minecraft:is_fall"@.len() != "is_explosion"@.len());
            reveal_strlit("explosion");
            assert("#minecraft:is_fall"@.len() != "explosion"@.len());
        },
        DamageResistantType::Fire => {
            reveal_strlit("#minecraft:is_fire");
            reveal_strlit("#minecraft:always_hurts_ender_dragons");
            assert("#minecraft:is_fire"@.len() != "#minecraft:always_hurts_ender_dragons"@.len());
            reveal_strlit("minecraft:always_hurts_ender_dragons");
            assert("#minecraft:is_fire"@.len() != "minecraft:always_hurts_ender_dragons"@.len());
            reveal_strlit("always_hurts_ender_dragons");
            assert("#minecraft:is_fire"@.len() != "always_hurts_ender_dragons"@.len());
            reveal_strlit("#minecraft:always_kills_armor_stands");
            assert("#minecraft:is_fire"@.len() != "#minecraft:always_kills_armor_stands"@.len());
            reveal_strlit("minecraft:always_kills_armor_stands");
            assert("#minecraft:is_fire"@.len() != "minecraft:always_kills_armor_stands"@.len());
            reveal_strlit("always_kills_armor_stands");
            assert("#minecraft:is_fire"@.len() != "always_kills_armor_stands"@.len());
            reveal_strlit("#minecraft:always_most_significant_fall");
            assert("#minecraft:is_fire"@.len() != "#minecraft:always_most_significant_fall"@.len());
            reveal_strlit("minecraft:always_most_significant_fall");
            assert("#minecraft:is_fire"@.len() != "minecraft:always_most_significant_fall"@.len());
            reveal_strlit("always_most_significant_fall");
            assert("#minecraft:is_fire"@.len() != "always_most_significant_fall"@.len());
            reveal_strlit("#minecraft:always_triggers_silverfish");
            assert("#minecraft:is_fire"@.len() != "#minecraft:always_triggers_silverfish"@.len());
            reveal_strlit("minecraft:always_triggers_silverfish");
            assert("#minecraft:is_fire"@.len() != "minecraft:always_triggers_silverfish"@.len());
            reveal_strlit("always_triggers_silverfish");
            assert("#minecraft:is_fire"@.len() != "always_triggers_silverfish"@.len());
            reveal_strlit("#minecraft:avoids_guardian_thorns");
            assert("#minecraft:is_fire"@.len() != "#minecraft:avoids_guardian_thorns"@.len());
            reveal_strlit("minecraft:avoids_guardian_thorns");
            assert("#minecraft:is_fire"@.len() != "minecraft:avoids_guardian_thorns"@.len());
            reveal_strlit("avoids_guardian_thorns");
            assert("#minecraft:is_fire"@.len() != "avoids_guardian_thorns"@.len());
            reveal_strlit("#minecraft:burns_armor_stands");
            assert("#minecraft:is_fire"@.len() != "#minecraft:burns_armor_stands"@.len());
            reveal_strlit("minecraft:burns_armor_stands");
            assert("#minecraft:is_fire"@.len() != "minecraft:burns_armor_stands"@.len());
            reveal_strlit("burns_armor_stands");
            assert("#minecraft:is_fire"@[0] != "burns_armor_stands"@[0]);
            reveal_strlit("#minecraft:burn_from_stepping");
            assert("#minecraft:is_fire"@.len() != "#minecraft:burn_from_stepping"@.len());
            reveal_strlit("minecraft:burn_from_stepping");
            assert("#minecraft:is_fire"@.len() != "minecraft:burn_from_stepping"@.len());
            reveal_strlit("burn_from_stepping");
            assert("#minecraft:is_fire"@[0] != "burn_from_stepping"@[0]);
            reveal_strlit("#minecraft:bypasses_armor");
            assert("#minecraft:is_fire"@.len() != "#minecraft:bypasses_armor"@.len());
            reveal_strlit("minecraft:bypasses_armor");
            assert("#minecraft:is_fire"@.len() != "minecraft:bypasses_armor"@.len());
            reveal_strlit("bypasses_armor");
            assert("#minecraft:is_fire"@.len() != "bypasses_armor"@.len());
            reveal_strlit("#minecraft:bypasses_cooldown");
            assert("#minecraft:is_fire"@.len() != "#minecraft:bypasses_cooldown"@.len());
            reveal_strlit("minecraft:bypasses_cooldown");
            assert("#minecraft:is_fire"@.len() != "minecraft:bypasses_cooldown"@.len());
            reveal_strlit("bypasses_cooldown");
            assert("#minecraft:is_fire"@.len() != "bypasses_cooldown"@.len());
            reveal_strlit("#minecraft:bypasses_effects");
            assert("#minecraft:is_fire"@.len() != "#minecraft:bypasses_effects"@.len());
            reveal_strlit("minecraft:bypasses_effects");
            assert("#minecraft:is_fire"@.len() != "minecraft:bypasses_effects"@.len());
            reveal_strlit("bypasses_effects");
            assert("#minecraft:is_fire"@.len() != "bypasses_effects"@.len());
            reveal_strlit("#minecraft:bypasses_enchantments");
            assert("#minecraft:is_fire"@.len() != "#minecraft:bypasses_enchantments"@.len());
            reveal_strlit("minecraft:bypasses_enchantments");
            assert("#minecraft:is_fire"@.len() != "minecraft:bypasses_enchantments"@.len());
            reveal_strlit("bypasses_enchantments");
            assert("#minecraft:is_fire"@.len() != "bypasses_enchantments"@.len());
            reveal_strlit("#minecraft:bypasses_invulnerability");
            assert("#minecraft:is_fire"@.len() != "#minecraft:bypasses_invulnerability"@.len());
            reveal_strlit("minecraft:bypasses_invulnerability");
            assert("#minecraft:is_fire"@.len() != "minecraft:bypasses_invulnerability"@.len());
            reveal_strlit("bypasses_invulnerability");
            assert("#minecraft:is_fire"@.len() != "bypasses_invulnerability"@.len());
            reveal_strlit("#minecraft:bypasses_resistance");
            assert("#minecraft:is_fire"@.len() != "#minecraft:bypasses_resistance"@.len());
            reveal_strlit("minecraft:bypasses_resistance");
            assert("#minecraft:is_fire"@.len() != "minecraft:bypasses_resistance"@.len());
            reveal_strlit("bypasses_resistance");
            assert("#minecraft:is_fire"@.len() != "bypasses_resistance"@.len());
            reveal_strlit("#minecraft:bypasses_shield");
            assert("#minecraft:is_fire"@.len() != "#minecraft:bypasses_shield"@.len());
            reveal_strlit("minecraft:bypasses_shield");
            assert("#minecraft:is_fire"@.len() != "minecraft:bypasses_shield"@.len());
            reveal_strlit("bypasses_shield");
            assert("#minecraft:is_fire"@.len() != "bypasses_shield"@.len());
            reveal_strlit("#minecraft:bypasses_wolf_armor");
            assert("#minecraft:is_fire"@.len() != "#minecraft:bypasses_wolf_armor"@.len());
            reveal_strlit("minecraft:bypasses_wolf_armor");
            assert("#minecraft:is_fire"@.len() != "minecraft:bypasses_wolf_armor"@.len());
            reveal_strlit("bypasses_wolf_armor");
            assert("#minecraft:is_fire"@.len() != "bypasses_wolf_armor"@.len());
            reveal_strlit("#minecraft:can_break_armor_stand");
            assert("#minecraft:is_fire"@.len() != "#minecraft:can_break_armor_stand"@.len());
            reveal_strlit("minecraft:can_break_armor_stand");
            assert("#minecraft:is_fire"@.len() != "minecraft:can_break_armor_stand"@.len());
            reveal_strlit("can_break_armor_stand");
            assert("#minecraft:is_fire"@.len() != "can_break_armor_stand"@.len());
            reveal_strlit("#minecraft:damages_helmet");
            assert("#minecraft:is_fire"@.len() != "#minecraft:damages_helmet"@.len());
            reveal_strlit("minecraft:damages_helmet");
            assert("#minecraft:is_fire"@.len() != "minecraft:damages_helmet"@.len());
            reveal_strlit("damages_helmet");
            assert("#minecraft:is_fire"@.len() != "damages_helmet"@.len());
            reveal_strlit("#minecraft:ignites_armor_stands");
            assert("#minecraft:is_fire"@.len() != "#minecraft:ignites_armor_stands"@.len());
            reveal_strlit("minecraft:ignites_armor_stands");
            assert("#minecraft:is_fire"@.len() != "minecraft:ignites_armor_stands"@.len());
            reveal_strlit("ignites_armor_stands");
            assert("#minecraft:is_fire"@.len() != "ignites_armor_stands"@.len());
            reveal_strlit("#minecraft:is_drowning");
            assert("#minecraft:is_fire"@.len() != "#minecraft:is_drowning"@.len());
            reveal_strlit("minecraft:is_drowning");
            assert("#minecraft:is_fire"@.len() != "minecraft:is_drowning"@.len());
            reveal_strlit("is_drowning");
            assert("#minecraft:is_fire"@.len() != "is_drowning"@.len());
            reveal_strlit("#minecraft:is_explosion");
            assert("#minecraft:is_fire"@.len() != "#minecraft:is_explosion"@.len());
            reveal_strlit("minecraft:is_explosion");
            assert("#minecraft:is_fire"@.len() != "minecraft:is_explosion"@.len());
            reveal_strlit("is_explosion");
            assert("#minecraft:is_fire"@.len() != "is_explosion"@.len());
            reveal_strlit("explosion");
            assert("#minecraft:is_fire"@.len() != "explosion"@.len());
            reveal_strlit("#minecraft:is_fall");
            assert("#minecraft:is_fire"@[15] != "#minecraft:is_fall"@[15]);
            reveal_strlit("minecraft:is_fall");
            assert("#minecraft:is_fire"@.len() != "minecraft:is_fall"@.len());
            reveal_strlit("is_fall");
            assert("#minecraft:is_fire"@.len() != "is_fall"@.len());
            reveal_strlit("fall");
            assert("#minecraft:is_fire"@.len() != "fall"@.len());
        },
        DamageResistantType::Freezing => {
            reveal_strlit("#minecraft:is_freezing");
            reveal_strlit("#minecraft:always_hurts_ender_dragons");
            assert("#minecraft:is_freezing"@.len() != "#minecraft:always_hurts_ender_dragons"@.len());
            reveal_strlit("minecraft:always_hurts_ender_dragons");
            assert("#minecraft:is_freezing"@.len() != "minecraft:always_hurts_ender_dragons"@.len());
            reveal_strlit("always_hurts_ender_dragons");
            assert("#minecraft:is_freezing"@.len() != "always_hurts_ender_dragons"@.len());
            reveal_strlit("#minecraft:always_kills_armor_stands");
            assert("#minecraft:is_freezing"@.len() != "#minecraft:always_kills_armor_stands"@.len());
            reveal_strlit("minecraft:always_kills_armor_stands");
            assert("#minecraft:is_freezing"@.len() != "minecraft:always_kills_armor_stands"@.len());
            reveal_strlit("always_kills_armor_stands");
            assert("#minecraft:is_freezing"@.len() != "always_kills_armor_stands"@.len());
            reveal_strlit("#minecraft:always_most_significant_fall");
            assert("#minecraft:is_freezing"@.len() != "#minecraft:always_most_significant_fall"@.len());
            reveal_strlit("minecraft:always_most_significant_fall");
            assert("#minecraft:is_freezing"@.len() != "minecraft:always_most_significant_fall"@.len());
            reveal_strlit("always_most_significant_fall");
            assert("#minecraft:is_freezing"@.len() != "always_most_significant_fall"@.len());
            reveal_strlit("#minecraft:always_triggers_silverfish");
            assert("#minecraft:is_freezing"@.len() != "#minecraft:always_triggers_silverfish"@.len());
            reveal_strlit("minecraft:always_triggers_silverfish");
            assert("#minecraft:is_freezing"@.len() != "minecraft:always_triggers_silverfish"@.len());
            reveal_strlit("always_triggers_silverfish");
            assert("#minecraft:is_freezing"@.len() != "always_triggers_silverfish"@.len());
            reveal_strlit("#minecraft:avoids_guardian_thorns");
            assert("#minecraft:is_freezing"@.len() != "#minecraft:avoids_guardian_thorns"@.len());
            reveal_strlit("minecraft:avoids_guardian_thorns");
            assert("#minecraft:is_freezing"@.len() != "minecraft:avoids_guardian_thorns"@.len());
            reveal_strlit("avoids_guardian_thorns");
            assert("#minecraft:is_freezing"@[0] != "avoids_guardian_thorns"@[0]);
            reveal_strlit("#minecraft:burns_armor_stands");
            assert("#minecraft:is_freezing"@.len() != "#minecraft:burns_armor_stands"@.len());
            reveal_strlit("minecraft:burns_armor_stands");
            assert("#minecraft:is_freezing"@.len() != "minecraft:burns_armor_stands"@.len());
            reveal_strlit("burns_armor_stands");
            assert("#minecraft:is_freezing"@.len() != "burns_armor_stands"@.len());
            reveal_strlit("#minecraft:burn_from_stepping");
            assert("#minecraft:is_freezing"@.len() != "#minecraft:burn_from_stepping"@.len());
            reveal_strlit("minecraft:burn_from_stepping");
            assert("#minecraft:is_freezing"@.len() != "minecraft:burn_from_stepping"@.len());
            reveal_strlit("burn_from_stepping");
            assert("#minecraft:is_freezing"@.len() != "burn_from_stepping"@.len());
            reveal_strlit("#minecraft:bypasses_armor");
            assert("#minecraft:is_freezing"@.len() != "#minecraft:bypasses_armor"@.len());
            reveal_strlit("minecraft:bypasses_armor");
            assert("#minecraft:is_freezing"@.len() != "minecraft:bypasses_armor"@.len());
            reveal_strlit("bypasses_armor");
            assert("#minecraft:is_freezing"@.len() != "bypasses_armor"@.len());
            reveal_strlit("#minecraft:bypasses_cooldown");
            assert("#minecraft:is_freezing"@.len() != "#minecraft:bypasses_cooldown"@.len());
            reveal_strlit("minecraft:bypasses_cooldown");
            assert("#minecraft:is_freezing"@.len() != "minecraft:bypasses_cooldown"@.len());
            reveal_strlit("bypasses_cooldown");
            assert("#minecraft:is_freezing"@.len() != "bypasses_cooldown"@.len());
            reveal_strlit("#minecraft:bypasses_effects");
            assert("#minecraft:is_freezing"@.len() != "#minecraft:bypasses_effects"@.len());
            reveal_strlit("minecraft:bypasses_effects");
            assert("#minecraft:is_freezing"@.len() != "minecraft:bypasses_effects"@.len());
            reveal_strlit("bypasses_effects");
            assert("#minecraft:is_freezing"@.len() != "bypasses_effects"@.len());
            reveal_strlit("#minecraft:bypasses_enchantments");
            assert("#minecraft:is_freezing"@.len() != "#minecraft:bypasses_enchantments"@.len());
            reveal_strlit("minecraft:bypasses_enchantments");
            assert("#minecraft:is_freezing"@.len() != "minecraft:bypasses_enchantments"@.len());
            reveal_strlit("bypasses_enchantments");
            assert("#minecraft:is_freezing"@.len() != "bypasses_enchantments"@.len());
            reveal_strlit("#minecraft:bypasses_invulnerability");
            assert("#minecraft:is_freezing"@.len() != "#minecraft:bypasses_invulnerability"@.len());
            reveal_strlit("minecraft:bypasses_invulnerability");
            assert("#minecraft:is_freezing"@.len() != "minecraft:bypasses_invulnerability"@.len());
            reveal_strlit("bypasses_invulnerability");
            assert("#minecraft:is_freezing"@.len() != "bypasses_invulnerability"@.len());
            reveal_strlit("#minecraft:bypasses_resistance");
            assert("#minecraft:is_freezing"@.len() != "#minecraft:bypasses_resistance"@.len());
            reveal_strlit("minecraft:bypasses_resistance");
            assert("#minecraft:is_freezing"@.len() != "minecraft:bypasses_resistance"@.len());
            reveal_strlit("bypasses_resistance");
            assert("#minecraft:is_freezing"@.len() != "bypasses_resistance"@.len());
            reveal_strlit("#minecraft:bypasses_shield");
            assert("#minecraft:is_freezing"@.len() != "#minecraft:bypasses_shield"@.len());
            reveal_strlit("minecraft:bypasses_shield");
            assert("#minecraft:is_freezing"@.len() != "minecraft:bypasses_shield"@.len());
            reveal_strlit("bypasses_shield");
            assert("#minecraft:is_freezing"@.len() != "bypasses_shield"@.len());
            reveal_strlit("#minecraft:bypasses_wolf_armor");
            assert("#minecraft:is_freezing"@.len() != "#minecraft:bypasses_wolf_armor"@.len());
            reveal_strlit("minecraft:bypasses_wolf_armor");
            assert("#minecraft:is_freezing"@.len() != "minecraft:bypasses_wolf_armor"@.len());
            reveal_strlit("bypasses_wolf_armor");
            assert("#minecraft:is_freezing"@.len() != "bypasses_wolf_armor"@.len());
            reveal_strlit("#minecraft:can_break_armor_stand");
            assert("#minecraft:is_freezing"@.len() != "#minecraft:can_break_armor_stand"@.len());
            reveal_strlit("minecraft:can_break_armor_stand");
            assert("#minecraft:is_freezing"@.len() != "minecraft:can_break_armor_stand"@.len());
            reveal_strlit("can_break_armor_stand");
            assert("#minecraft:is_freezing"@.len() != "can_break_armor_stand"@.len());
            reveal_strlit("#minecraft:damages_helmet");
            assert("#minecraft:is_freezing"@.len() != "#minecraft:damages_helmet"@.len());
            reveal_strlit("minecraft:damages_helmet");
            assert("#minecraft:is_freezing"@.len() != "minecraft:damages_helmet"@.len());
            reveal_strlit("damages_helmet");
            assert("#minecraft:is_freezing"@.len() != "damages_helmet"@.len());
            reveal_strlit("#minecraft:ignites_armor_stands");
            assert("#minecraft:is_freezing"@.len() != "#minecraft:ignites_armor_stands"@.len());
            reveal_strlit("minecraft:ignites_armor_stands");
            assert("#minecraft:is_freezing"@.len() != "minecraft:ignites_armor_stands"@.len());
            reveal_strlit("ignites_armor_stands");
            assert("#minecraft:is_freezing"@.len() != "ignites_armor_stands"@.len());
            reveal_strlit("#minecraft:is_drowning");
            assert("#minecraft:is_freezing"@[14] != "#minecraft:is_drowning"@[14]);
            reveal_strlit("minecraft:is_drowning");
            assert("#minecraft:is_freezing"@.len() != "minecraft:is_drowning"@.len());
            reveal_strlit("is_drowning");
            assert("#minecraft:is_freezing"@.len() != "is_drowning"@.len());
            reveal_strlit("#minecraft:is_explosion");
            assert("#minecraft:is_freezing"@.len() != "#minecraft:is_explosion"@.len());
            reveal_strlit("minecraft:is_explosion");
            assert("#minecraft:is_freezing"@[0] != "minecraft:is_explosion"@[0]);
            reveal_strlit("is_explosion");
            assert("#minecraft:is_freezing"@.len() != "is_explosion"@.len());
            reveal_strlit("explosion");
            assert("#minecraft:is_freezing"@.len() != "explosion"@.len());
            reveal_strlit("#minecraft:is_fall");
            assert("#minecraft:is_freezing"@.len() != "#minecraft:is_fall"@.len());
            reveal_strlit("minecraft:is_fall");
            assert("#minecraft:is_freezing"@.len() != "minecraft:is_fall"@.len());
            reveal_strlit("is_fall");
            assert("#minecraft:is_freezing"@.len() != "is_fall"@.len());
            reveal_strlit("fall");
            assert("#minecraft:is_freezing"@.len() != "fall"@.len());
            reveal_strlit("#minecraft:is_fire");
            assert("#minecraft:is_freezing"@.len() != "#minecraft:is_fire"@.len());
            reveal_strlit("minecraft:is_fire");
            assert("#minecraft:is_freezing"@.len() != "minecraft:is_fire"@.len());
            reveal_strlit("is_fire");
            assert("#minecraft:is_freezing"@.len() != "is_fire"@.len());
            reveal_strlit("fire");
            assert("#minecraft:is_freezing"@.len() != "fire"@.len());
            reveal_strlit("in_fire");
            assert("#minecraft:is_freezing"@.len() != "in_fire"@.len());
            reveal_strlit("minecraft:in_fire");
            assert("#minecraft:is_freezing"@.len() != "minecraft:in_fire"@.len());
        },
        DamageResistantType::Lightning => {
            reveal_strlit("#minecraft:is_lightning");
            reveal_strlit("#minecraft:always_hurts_ender_dragons");
            assert("#minecraft:is_lightning"@.len() != "#minecraft:always_hurts_ender_dragons"@.len());
            reveal_strlit("minecraft:always_hurts_ender_dragons");
            assert("#minecraft:is_lightning"@.len() != "minecraft:always_hurts_ender_dragons"@.len());
            reveal_strlit("always_hurts_ender_dragons");
            assert("#minecraft:is_lightning"@.len() != "always_hurts_ender_dragons"@.len());
            reveal_strlit("#minecraft:always_kills_armor_stands");
            assert("#minecraft:is_lightning"@.len() != "#minecraft:always_kills_armor_stands"@.len());
            reveal_strlit("minecraft:always_kills_armor_stands");
            assert("#minecraft:is_lightning"@.len() != "minecraft:always_kills_armor_stands"@.len());
            reveal_strlit("always_kills_armor_stands");
            assert("#minecraft:is_lightning"@.len() != "always_kills_armor_stands"@.len());
            reveal_strlit("#minecraft:always_most_significant_fall");
            assert("#minecraft:is_lightning"@.len() != "#minecraft:always_most_significant_fall"@.len());
            reveal_strlit("minecraft:always_most_significant_fall");
            assert("#minecraft:is_lightning"@.len() != "minecraft:always_most_significant_fall"@.len());
            reveal_strlit("always_most_significant_fall");
            assert("#minecraft:is_lightning"@.len() != "always_most_significant_fall"@.len());
            reveal_strlit("#minecraft:always_triggers_silverfish");
            assert("#minecraft:is_lightning"@.len() != "#minecraft:always_triggers_silverfish"@.len());
            reveal_strlit("minecraft:always_triggers_silverfish");
            assert("#minecraft:is_lightning"@.len() != "minecraft:always_triggers_silverfish"@.len());
            reveal_strlit("always_triggers_silverfish");
            assert("#minecraft:is_lightning"@.len() != "always_triggers_silverfish"@.len());
            reveal_strlit("#minecraft:avoids_guardian_thorns");
            assert("#minecraft:is_lightning"@.len() != "#minecraft:avoids_guardian_thorns"@.len());
            reveal_strlit("minecraft:avoids_guardian_thorns");
            assert("#minecraft:is_lightning"@.len() != "minecraft:avoids_guardian_thorns"@.len());
            reveal_strlit("avoids_guardian_thorns");
            assert("#minecraft:is_lightning"@.len() != "avoids_guardian_thorns"@.len());
            reveal_strlit("#minecraft:burns_armor_stands");
            assert("#minecraft:is_lightning"@.len() != "#minecraft:burns_armor_stands"@.len());
            reveal_strlit("minecraft:burns_armor_stands");
            assert("#minecraft:is_lightning"@.len() != "minecraft:burns_armor_stands"@.len());
            reveal_strlit("burns_armor_stands");
            assert("#minecraft:is_lightning"@.len() != "burns_armor_stands"@.len());
            reveal_strlit("#minecraft:burn_from_stepping");
            assert("#minecraft:is_lightning"@.len() != "#minecraft:burn_from_stepping"@.len());
            reveal_strlit("minecraft:burn_from_stepping");
            assert("#minecraft:is_lightning"@.len() != "minecraft:burn_from_stepping"@.len());
            reveal_strlit("burn_from_stepping");
            assert("#minecraft:is_lightning"@.len() != "burn_from_stepping"@.len());
            reveal_strlit("#minecraft:bypasses_armor");
            assert("#minecraft:is_lightning"@.len() != "#minecraft:bypasses_armor"@.len());
            reveal_strlit("minecraft:bypasses_armor");
            assert("#minecraft:is_lightning"@.len() != "minecraft:bypasses_armor"@.len());
            reveal_strlit("bypasses_armor");
            assert("#minecraft:is_lightning"@.len() != "bypasses_armor"@.len());
            reveal_strlit("#minecraft:bypasses_cooldown");
            assert("#minecraft:is_lightning"@.len() != "#minecraft:bypasses_cooldown"@.len());
            reveal_strlit("minecraft:bypasses_cooldown");
            assert("#minecraft:is_lightning"@.len() != "minecraft:bypasses_cooldown"@.len());
            reveal_strlit("bypasses_cooldown");
            assert("#minecraft:is_lightning"@.len() != "bypasses_cooldown"@.len());
            reveal_strlit("#minecraft:bypasses_effects");
            assert("#minecraft:is_lightning"@.len() != "#minecraft:bypasses_effects"@.len());
            reveal_strlit("minecraft:bypasses_effects");
            assert("#minecraft:is_lightning"@.len() != "minecraft:bypasses_effects"@.len());
            reveal_strlit("bypasses_effects");
            assert("#minecraft:is_lightning"@.len() != "bypasses_effects"@.len());
            reveal_strlit("#minecraft:bypasses_enchantments");
            assert("#minecraft:is_lightning"@.len() != "#minecraft:bypasses_enchantments"@.len());
            reveal_strlit("minecraft:bypasses_enchantments");
            assert("#minecraft:is_lightning"@.len() != "minecraft:bypasses_enchantments"@.len());
            reveal_strlit("bypasses_enchantments");
            assert("#minecraft:is_lightning"@.len() != "bypasses_enchantments"@.len());
            reveal_strlit("#minecraft:bypasses_invulnerability");
            assert("#minecraft:is_lightning"@.len() != "#minecraft:bypasses_invulnerability"@.len());
            reveal_strlit("minecraft:bypasses_invulnerability");
            assert("#minecraft:is_lightning"@.len() != "minecraft:bypasses_invulnerability"@.len());
            reveal_strlit("bypasses_invulnerability");
            assert("#minecraft:is_lightning"@.len() != "bypasses_invulnerability"@.len());
            reveal_strlit("#minecraft:bypasses_resistance");
            assert("#minecraft:is_lightning"@.len() != "#minecraft:bypasses_resistance"@.len());
            reveal_strlit("minecraft:bypasses_resistance");
            assert("#minecraft:is_lightning"@.len() != "minecraft:bypasses_resistance"@.len());
            reveal_strlit("bypasses_resistance");
            assert("#minecraft:is_lightning"@.len() != "bypasses_resistance"@.len());
            reveal_strlit("#minecraft:bypasses_shield");
            assert("#minecraft:is_lightning"@.len() != "#minecraft:bypasses_shield"@.len());
            reveal_strlit("minecraft:bypasses_shield");
            assert("#minecraft:is_lightning"@.len() != "minecraft:bypasses_shield"@.len());
            reveal_strlit("bypasses_shield");
            assert("#minecraft:is_lightning"@.len() != "bypasses_shield"@.len());
            reveal_strlit("#minecraft:bypasses_wolf_armor");
            assert("#minecraft:is_lightning"@.len() != "#minecraft:bypasses_wolf_armor"@.len());
            reveal_strlit("minecraft:bypasses_wolf_armor");
            assert("#minecraft:is_lightning"@.len() != "minecraft:bypasses_wolf_armor"@.len());
            reveal_strlit("bypasses_wolf_armor");
            assert("#minecraft:is_lightning"@.len() != "bypasses_wolf_armor"@.len());
            reveal_strlit("#minecraft:can_break_armor_stand");
            assert("#minecraft:is_lightning"@.len() != "#minecraft:can_break_armor_stand"@.len());
            reveal_strlit("minecraft:can_break_armor_stand");
            assert("#minecraft:is_lightning"@.len() != "minecraft:can_break_armor_stand"@.len());
            reveal_strlit("can_break_armor_stand");
            assert("#minecraft:is_lightning"@.len() != "can_break_armor_stand"@.len());
            reveal_strlit("#minecraft:damages_helmet");
            assert("#minecraft:is_lightning"@.len() != "#minecraft:damages_helmet"@.len());
            reveal_strlit("minecraft:damages_helmet");
            assert("#minecraft:is_lightning"@.len() != "minecraft:damages_helmet"@.len());
            reveal_strlit("damages_helmet");
            assert("#minecraft:is_lightning"@.len() != "damages_helmet"@.len());
            reveal_strlit("#minecraft:ignites_armor_stands");
            assert("#minecraft:is_lightning"@.len() != "#minecraft:ignites_armor_stands"@.len());
            reveal_strlit("minecraft:ignites_armor_stands");
            assert("#minecraft:is_lightning"@.len() != "minecraft:ignites_armor_stands"@.len());
            reveal_strlit("ignites_armor_stands");
            assert("#minecraft:is_lightning"@.len() != "ignites_armor_stands"@.len());
            reveal_strlit("#minecraft:is_drowning");
            assert("#minecraft:is_lightning"@.len() != "#minecraft:is_drowning"@.len());
            reveal_strlit("minecraft:is_drowning");
            assert("#minecraft:is_lightning"@.len() != "minecraft:is_drowning"@.len());
            reveal_strlit("is_drowning");
            assert("#minecraft:is_lightning"@.len() != "is_drowning"@.len());
            reveal_strlit("#minecraft:is_explosion");
            assert("#minecraft:is_lightning"@[14] != "#minecraft:is_explosion"@[14]);
            reveal_strlit("minecraft:is_explosion");
            assert("#minecraft:is_lightning"@.len() != "minecraft:is_explosion"@.len());
            reveal_strlit("is_explosion");
            assert("#minecraft:is_lightning"@.len() != "is_explosion"@.len());
            reveal_strlit("explosion");
            assert("#minecraft:is_lightning"@.len() != "explosion"@.len());
            reveal_strlit("#minecraft:is_fall");
            assert("#minecraft:is_lightning"@.len() != "#minecraft:is_fall"@.len());
            reveal_strlit("minecraft:is_fall");
            assert("#minecraft:is_lightning"@.len() != "minecraft:is_fall"@.len());
            reveal_strlit("is_fall");
            assert("#minecraft:is_lightning"@.len() != "is_fall"@.len());
            reveal_strlit("fall");
            assert("#minecraft:is_lightning"@.len() != "fall"@.len());
            reveal_strlit("#minecraft:is_fire");
            assert("#minecraft:is_lightning"@.len() != "#minecraft:is_fire"@.len());
            reveal_strlit("minecraft:is_fire");
            assert("#minecraft:is_lightning"@.len() != "minecraft:is_fire"@.len());
            reveal_strlit("is_fire");
            assert("#minecraft:is_lightning"@.len() != "is_fire"@.len());
            reveal_strlit("fire");
            assert("#minecraft:is_lightning"@.len() != "fire"@.len());
            reveal_strlit("in_fire");
            assert("#minecraft:is_lightning"@.len() != "in_fire"@.len());
            reveal_strlit("minecraft:in_fire");
            assert("#minecraft:is_lightning"@.len() != "minecraft:in_fire"@.len());
            reveal_strlit("#minecraft:is_freezing");
            assert("#minecraft:is_lightning"@.len() != "#minecraft:is_freezing"@.len());
            reveal_strlit("minecraft:is_freezing");
            assert("#minecraft:is_lightning"@.len() != "minecraft:is_freezing"@.len());
            reveal_strlit("is_freezing");
            assert("#minecraft:is_lightning"@.len() != "is_freezing"@.len());
        },
        DamageResistantType::PlayerAttack => {
            reveal_strlit("#minecraft:is_player_attack");
            reveal_strlit("#minecraft:always_hurts_ender_dragons");
            assert("#minecraft:is_player_attack"@.len() != "#minecraft:always_hurts_ender_dragons"@.len());
            reveal_strlit("minecraft:always_hurts_ender_dragons");
            assert("#minecraft:is_player_attack"@.len() != "minecraft:always_hurts_ender_dragons"@.len());
            reveal_strlit("always_hurts_ender_dragons");
            assert("#minecraft:is_player_attack"@.len() != "always_hurts_ender_dragons"@.len());
            reveal_strlit("#minecraft:always_kills_armor_stands");
            assert("#minecraft:is_player_attack"@.len() != "#minecraft:always_kills_armor_stands"@.len());
            reveal_strlit("minecraft:always_kills_armor_stands");
            assert("#minecraft:is_player_attack"@.len() != "minecraft:always_kills_armor_stands"@.len());
            reveal_strlit("always_kills_armor_stands");
            assert("#minecraft:is_player_attack"@.len() != "always_kills_armor_stands"@.len());
            reveal_strlit("#minecraft:always_most_significant_fall");
            assert("#minecraft:is_player_attack"@.len() != "#minecraft:always_most_significant_fall"@.len());
            reveal_strlit("minecraft:always_most_significant_fall");
            assert("#minecraft:is_player_attack"@.len() != "minecraft:always_most_significant_fall"@.len());
            reveal_strlit("always_most_significant_fall");
            assert("#minecraft:is_player_attack"@.len() != "always_most_significant_fall"@.len());
            reveal_strlit("#minecraft:always_triggers_silverfish");
            assert("#minecraft:is_player_attack"@.len() != "#minecraft:always_triggers_silverfish"@.len());
            reveal_strlit("minecraft:always_triggers_silverfish");
            assert("#minecraft:is_player_attack"@.len() != "minecraft:always_triggers_silverfish"@.len());
            reveal_strlit("always_triggers_silverfish");
            assert("#minecraft:is_player_attack"@.len() != "always_triggers_silverfish"@.len());
            reveal_strlit("#minecraft:avoids_guardian_thorns");
            assert("#minecraft:is_player_attack"@.len() != "#minecraft:avoids_guardian_thorns"@.len());
            reveal_strlit("minecraft:avoids_guardian_thorns");
            assert("#minecraft:is_player_attack"@.len() != "minecraft:avoids_guardian_thorns"@.len());
            reveal_strlit("avoids_guardian_thorns");
            assert("#minecraft:is_player_attack"@.len() != "avoids_guardian_thorns"@.len());
            reveal_strlit("#minecraft:burns_armor_stands");
            assert("#minecraft:is_player_attack"@.len() != "#minecraft:burns_armor_stands"@.len());
            reveal_strlit("minecraft:burns_armor_stands");
            assert("#minecraft:is_player_attack"@.len() != "minecraft:burns_armor_stands"@.len());
            reveal_strlit("burns_armor_stands");
            assert("#minecraft:is_player_attack"@.len() != "burns_armor_stands"@.len());
            reveal_strlit("#minecraft:burn_from_stepping");
            assert("#minecraft:is_player_attack"@.len() != "#minecraft:burn_from_stepping"@.len());
            reveal_strlit("minecraft:burn_from_stepping");
            assert("#minecraft:is_player_attack"@.len() != "minecraft:burn_from_stepping"@.len());
            reveal_strlit("burn_from_stepping");
            assert("#minecraft:is_player_attack"@.len() != "burn_from_stepping"@.len());
            reveal_strlit("#minecraft:bypasses_armor");
            assert("#minecraft:is_player_attack"@.len() != "#minecraft:bypasses_armor"@.len());
            reveal_strlit("minecraft:bypasses_armor");
            assert("#minecraft:is_player_attack"@.len() != "minecraft:bypasses_armor"@.len());
            reveal_strlit("bypasses_armor");
            assert("#minecraft:is_player_attack"@.len() != "bypasses_armor"@.len());
            reveal_strlit("#minecraft:bypasses_cooldown");
            assert("#minecraft:is_player_attack"@.len() != "#minecraft:bypasses_cooldown"@.len());
            reveal_strlit("minecraft:bypasses_cooldown");
            assert("#minecraft:is_player_attack"@[0] != "minecraft:bypasses_cooldown"@[0]);
            reveal_strlit("bypasses_cooldown");
            assert("#minecraft:is_player_attack"@.len() != "bypasses_cooldown"@.len());
            reveal_strlit("#minecraft:bypasses_effects");
            assert("#minecraft:is_player_attack"@[11] != "#minecraft:bypasses_effects"@[11]);
            reveal_strlit("minecraft:bypasses_effects");
            assert("#minecraft:is_player_attack"@.len() != "minecraft:bypasses_effects"@.len());
            reveal_strlit("bypasses_effects");
            assert("#minecraft:is_player_attack"@.len() != "bypasses_effects"@.len());
            reveal_strlit("#minecraft:bypasses_enchantments");
            assert("#minecraft:is_player_attack"@.len() != "#minecraft:bypasses_enchantments"@.len());
            reveal_strlit("minecraft:bypasses_enchantments");
            assert("#minecraft:is_player_attack"@.len() != "minecraft:bypasses_enchantments"@.len());
            reveal_strlit("bypasses_enchantments");
            assert("#minecraft:is_player_attack"@.len() != "bypasses_enchantments"@.len());
            reveal_strlit("#minecraft:bypasses_invulnerability");
            assert("#minecraft:is_player_attack"@.len() != "#minecraft:bypasses_invulnerability"@.len());
            reveal_strlit("minecraft:bypasses_invulnerability");
            assert("#minecraft:is_player_attack"@.len() != "minecraft:bypasses_invulnerability"@.len());
            reveal_strlit("bypasses_invulnerability");
            assert("#minecraft:is_player_attack"@.len() != "bypasses_invulnerability"@.len());
            reveal_strlit("#minecraft:bypasses_resistance");
            assert("#minecraft:is_player_attack"@.len() != "#minecraft:bypasses_resistance"@.len());
            reveal_strlit("minecraft:bypasses_resistance");
            assert("#minecraft:is_player_attack"@.len() != "minecraft:bypasses_resistance"@.len());
            reveal_strlit("bypasses_resistance");
            assert("#minecraft:is_player_attack"@.len() != "bypasses_resistance"@.len());
            reveal_strlit("#minecraft:bypasses_shield");
            assert("#minecraft:is_player_attack"@.len() != "#minecraft:bypasses_shield"@.len());
            reveal_strlit("minecraft:bypasses_shield");
            assert("#minecraft:is_player_attack"@.len() != "minecraft:bypasses_shield"@.len());
            reveal_strlit("bypasses_shield");
            assert("#minecraft:is_player_attack"@.len() != "bypasses_shield"@.len());
            reveal_strlit("#minecraft:bypasses_wolf_armor");
            assert("#minecraft:is_player_attack"@.len() != "#minecraft:bypasses_wolf_armor"@.len());
            reveal_strlit("minecraft:bypasses_wolf_armor");
            assert("#minecraft:is_player_attack"@.len() != "minecraft:bypasses_wolf_armor"@.len());
            reveal_strlit("bypasses_wolf_armor");
            assert("#minecraft:is_player_attack"@.len() != "bypasses_wolf_armor"@.len());
            reveal_strlit("#minecraft:can_break_armor_stand");
            assert("#minecraft:is_player_attack"@.len() != "#minecraft:can_break_armor_stand"@.len());
            reveal_strlit("minecraft:can_break_armor_stand");
            assert("#minecraft:is_player_attack"@.len() != "minecraft:can_break_armor_stand"@.len());
            reveal_strlit("can_break_armor_stand");
            assert("#minecraft:is_player_attack"@.len() != "can_break_armor_stand"@.len());
            reveal_strlit("#minecraft:damages_helmet");
            assert("#minecraft:is_player_attack"@.len() != "#minecraft:damages_helmet"@.len());
            reveal_strlit("minecraft:damages_helmet");
            assert("#minecraft:is_player_attack"@.len() != "minecraft:damages_helmet"@.len());
            reveal_strlit("damages_helmet");
            assert("#minecraft:is_player_attack"@.len() != "damages_helmet"@.len());
            reveal_strlit("#minecraft:ignites_armor_stands");
            assert("#minecraft:is_player_attack"@.len() != "#minecraft:ignites_armor_stands"@.len());
            reveal_strlit("minecraft:ignites_armor_stands");
            assert("#minecraft:is_player_attack"@.len() != "minecraft:ignites_armor_stands"@.len());
            reveal_strlit("ignites_armor_stands");
            assert("#minecraft:is_player_attack"@.len() != "ignites_armor_stands"@.len());
            reveal_strlit("#minecraft:is_drowning");
            assert("#minecraft:is_player_attack"@.len() != "#minecraft:is_drowning"@.len());
            reveal_strlit("minecraft:is_drowning");
            assert("#minecraft:is_player_attack"@.len() != "minecraft:is_drowning"@.len());
            reveal_strlit("is_drowning");
            assert("#minecraft:is_player_attack"@.len() != "is_drowning"@.len());
            reveal_strlit("#minecraft:is_explosion");
            assert("#minecraft:is_player_attack"@.len() != "#minecraft:is_explosion"@.len());
            reveal_strlit("minecraft:is_explosion");
            assert("#minecraft:is_player_attack"@.len() != "minecraft:is_explosion"@.len());
            reveal_strlit("is_explosion");
            assert("#minecraft:is_player_attack"@.len() != "is_explosion"@.len());
            reveal_strlit("explosion");
            assert("#minecraft:is_player_attack"@.len() != "explosion"@.len());
            reveal_strlit("#minecraft:is_fall");
            assert("#minecraft:is_player_attack"@.len() != "#minecraft:is_fall"@.len());
            reveal_strlit("minecraft:is_fall");
            assert("#minecraft:is_player_attack"@.len() != "minecraft:is_fall"@.len());
            reveal_strlit("is_fall");
            assert("#minecraft:is_player_attack"@.len() != "is_fall"@.len());
            reveal_strlit("fall");
            assert("#minecraft:is_player_attack"@.len() != "fall"@.len());
            reveal_strlit("#minecraft:is_fire");
            assert("#minecraft:is_player_attack"@.len() != "#minecraft:is_fire"@.len());
            reveal_strlit("minecraft:is_fire");
            assert("#minecraft:is_player_attack"@.len() != "minecraft:is_fire"@.len());
            reveal_strlit("is_fire");
            assert("#minecraft:is_player_attack"@.len() != "is_fire"@.len());
            reveal_strlit("fire");
            assert("#minecraft:is_player_attack"@.len() != "fire"@.len());
            reveal_strlit("in_fire");
            assert("#minecraft:is_player_attack"@.len() != "in_fire"@.len());
            reveal_strlit("minecraft:in_fire");
            assert("#minecraft:is_player_attack"@.len() != "minecraft:in_fire"@.len());
            reveal_strlit("#minecraft:is_freezing");
            assert("#minecraft:is_player_attack"@.len() != "#minecraft:is_freezing"@.len());
            reveal_strlit("minecraft:is_freezing");
            assert("#minecraft:is_player_attack"@.len() != "minecraft:is_freezing"@.len());
            reveal_strlit("is_freezing");
            assert("#minecraft:is_player_attack"@.len() != "is_freezing"@.len());
            reveal_strlit("#minecraft:is_lightning");
            assert("#minecraft:is_player_attack"@.len() != "#minecraft:is_lightning"@.len());
            reveal_strlit("minecraft:is_lightning");
            assert("#minecraft:is_player_attack"@.len() != "minecraft:is_lightning"@.len());
            reveal_strlit("is_lightning");
            assert("#minecraft:is_player_attack"@.len() != "is_lightning"@.len());
        },
        DamageResistantType::Projectile => {
            reveal_strlit("#minecraft:is_projectile");
            reveal_strlit("#minecraft:always_hurts_ender_dragons");
            assert("#minecraft:is_projectile"@.len() != "#minecraft:always_hurts_ender_dragons"@.len());
            reveal_strlit("minecraft:always_hurts_ender_dragons");
            assert("#minecraft:is_projectile"@.len() != "minecraft:always_hurts_ender_dragons"@.len());
            reveal_strlit("always_hurts_ender_dragons");
            assert("#minecraft:is_projectile"@.len() != "always_hurts_ender_dragons"@.len());
            reveal_strlit("#minecraft:always_kills_armor_stands");
            assert("#minecraft:is_projectile"@.len() != "#minecraft:always_kills_armor_stands"@.len());
            reveal_strlit("minecraft:always_kills_armor_stands");
            assert("#minecraft:is_projectile"@.len() != "minecraft:always_kills_armor_stands"@.len());
            reveal_strlit("always_kills_armor_stands");
            assert("#minecraft:is_projectile"@.len() != "always_kills_armor_stands"@.len());
            reveal_strlit("#minecraft:always_most_significant_fall");
            assert("#minecraft:is_projectile"@.len() != "#minecraft:always_most_significant_fall"@.len());
            reveal_strlit("minecraft:always_most_significant_fall");
            assert("#minecraft:is_projectile"@.len() != "minecraft:always_most_significant_fall"@.len());
            reveal_strlit("always_most_significant_fall");
            assert("#minecraft:is_projectile"@.len() != "always_most_significant_fall"@.len());
            reveal_strlit("#minecraft:always_triggers_silverfish");
            assert("#minecraft:is_projectile"@.len() != "#minecraft:always_triggers_silverfish"@.len());
            reveal_strlit("minecraft:always_triggers_silverfish");
            assert("#minecraft:is_projectile"@.len() != "minecraft:always_triggers_silverfish"@.len());
            reveal_strlit("always_triggers_silverfish");
            assert("#minecraft:is_projectile"@.len() != "always_triggers_silverfish"@.len());
            reveal_strlit("#minecraft:avoids_guardian_thorns");
            assert("#minecraft:is_projectile"@.len() != "#minecraft:avoids_guardian_thorns"@.len());
            reveal_strlit("minecraft:avoids_guardian_thorns");
            assert("#minecraft:is_projectile"@.len() != "minecraft:avoids_guardian_thorns"@.len());
            reveal_strlit("avoids_guardian_thorns");
            assert("#minecraft:is_projectile"@.len() != "avoids_guardian_thorns"@.len());
            reveal_strlit("#minecraft:burns_armor_stands");
            assert("#minecraft:is_projectile"@.len() != "#minecraft:burns_armor_stands"@.len());
            reveal_strlit("minecraft:burns_armor_stands");
            assert("#minecraft:is_projectile"@.len() != "minecraft:burns_armor_stands"@.len());
            reveal_strlit("burns_armor_stands");
            assert("#minecraft:is_projectile"@.len() != "burns_armor_stands"@.len());
            reveal_strlit("#minecraft:burn_from_stepping");
            assert("#minecraft:is_projectile"@.len() != "#minecraft:burn_from_stepping"@.len());
            reveal_strlit("minecraft:burn_from_stepping");
            assert("#minecraft:is_projectile"@.len() != "minecraft:burn_from_stepping"@.len());
            reveal_strlit("burn_from_stepping");
            assert("#minecraft:is_projectile"@.len() != "burn_from_stepping"@.len());
            reveal_strlit("#minecraft:bypasses_armor");
            assert("#minecraft:is_projectile"@.len() != "#minecraft:bypasses_armor"@.len());
            reveal_strlit("minecraft:bypasses_armor");
            assert("#minecraft:is_projectile"@[0] != "minecraft:bypasses_armor"@[0]);
            reveal_strlit("bypasses_armor");
            assert("#minecraft:is_projectile"@.len() != "bypasses_armor"@.len());
            reveal_strlit("#minecraft:bypasses_cooldown");
            assert("#minecraft:is_projectile"@.len() != "#minecraft:bypasses_cooldown"@.len());
            reveal_strlit("minecraft:bypasses_cooldown");
            assert("#minecraft:is_projectile"@.len() != "minecraft:bypasses_cooldown"@.len());
            reveal_strlit("bypasses_cooldown");
            assert("#minecraft:is_projectile"@.len() != "bypasses_cooldown"@.len());
            reveal_strlit("#minecraft:bypasses_effects");
            assert("#minecraft:is_projectile"@.len() != "#minecraft:bypasses_effects"@.len());
            reveal_strlit("minecraft:bypasses_effects");
            assert("#minecraft:is_projectile"@.len() != "minecraft:bypasses_effects"@.len());
            reveal_strlit("bypasses_effects");
            assert("#minecraft:is_projectile"@.len() != "bypasses_effects"@.len());
            reveal_strlit("#minecraft:bypasses_enchantments");
            assert("#minecraft:is_projectile"@.len() != "#minecraft:bypasses_enchantments"@.len());
            reveal_strlit("minecraft:bypasses_enchantments");
            assert("#minecraft:is_projectile"@.len() != "minecraft:bypasses_enchantments"@.len());
            reveal_strlit("bypasses_enchantments");
            assert("#minecraft:is_projectile"@.len() != "bypasses_enchantments"@.len());
            reveal_strlit("#minecraft:bypasses_invulnerability");
            assert("#minecraft:is_projectile"@.len() != "#minecraft:bypasses_invulnerability"@.len());
            reveal_strlit("minecraft:bypasses_invulnerability");
            assert("#minecraft:is_projectile"@.len() != "minecraft:bypasses_invulnerability"@.len());
            reveal_strlit("bypasses_invulnerability");
            assert("#minecraft:is_projectile"@[0] != "bypasses_invulnerability"@[0]);
            reveal_strlit("#minecraft:bypasses_resistance");
            assert("#minecraft:is_projectile"@.len() != "#minecraft:bypasses_resistance"@.len());
            reveal_strlit("minecraft:bypasses_resistance");
            assert("#minecraft:is_projectile"@.len() != "minecraft:bypasses_resistance"@.len());
            reveal_strlit("bypasses_resistance");
            assert("#minecraft:is_projectile"@.len() != "bypasses_resistance"@.len());
            reveal_strlit("#minecraft:bypasses_shield");
            assert("#minecraft:is_projectile"@.len() != "#minecraft:bypasses_shield"@.len());
            reveal_strlit("minecraft:bypasses_shield");
            assert("#minecraft:is_projectile"@.len() != "minecraft:bypasses_shield"@.len());
            reveal_strlit("bypasses_shield");
            assert("#minecraft:is_projectile"@.len() != "bypasses_shield"@.len());
            reveal_strlit("#minecraft:bypasses_wolf_armor");
            assert("#minecraft:is_projectile"@.len() != "#minecraft:bypasses_wolf_armor"@.len());
            reveal_strlit("minecraft:bypasses_wolf_armor");
            assert("#minecraft:is_projectile"@.len() != "minecraft:bypasses_wolf_armor"@.len());
            reveal_strlit("bypasses_wolf_armor");
            assert("#minecraft:is_projectile"@.len() != "bypasses_wolf_armor"@.len());
            reveal_strlit("#minecraft:can_break_armor_stand");
            assert("#minecraft:is_projectile"@.len() != "#minecraft:can_break_armor_stand"@.len());
            reveal_strlit("minecraft:can_break_armor_stand");
            assert("#minecraft:is_projectile"@.len() != "minecraft:can_break_armor_stand"@.len());
            reveal_strlit("can_break_armor_stand");
            assert("#minecraft:is_projectile"@.len() != "can_break_armor_stand"@.len());
            reveal_strlit("#minecraft:damages_helmet");
            assert("#minecraft:is_projectile"@.len() != "#minecraft:damages_helmet"@.len());
            reveal_strlit("minecraft:damages_helmet");
            assert("#minecraft:is_projectile"@[0] != "minecraft:damages_helmet"@[0]);
            reveal_strlit("damages_helmet");
            assert("#minecraft:is_projectile"@.len() != "damages_helmet"@.len());
            reveal_strlit("#minecraft:ignites_armor_stands");
            assert("#minecraft:is_projectile"@.len() != "#minecraft:ignites_armor_stands"@.len());
            reveal_strlit("minecraft:ignites_armor_stands");
            assert("#minecraft:is_projectile"@.len() != "minecraft:ignites_armor_stands"@.len());
            reveal_strlit("ignites_armor_stands");
            assert("#minecraft:is_projectile"@.len() != "ignites_armor_stands"@.len());
            reveal_strlit("#minecraft:is_drowning");
            assert("#minecraft:is_projectile"@.len() != "#minecraft:is_drowning"@.len());
            reveal_strlit("minecraft:is_drowning");
            assert("#minecraft:is_projectile"@.len() != "minecraft:is_drowning"@.len());
            reveal_strlit("is_drowning");
            assert("#minecraft:is_projectile"@.len() != "is_drowning"@.len());
            reveal_strlit("#minecraft:is_explosion");
            assert("#minecraft:is_projectile"@.len() != "#minecraft:is_explosion"@.len());
            reveal_strlit("minecraft:is_explosion");
            assert("#minecraft:is_projectile"@.len() != "minecraft:is_explosion"@.len());
            reveal_strlit("is_explosion");
            assert("#minecraft:is_projectile"@.len() != "is_explosion"@.len());
            reveal_strlit("explosion");
            assert("#minecraft:is_projectile"@.len() != "explosion"@.len());
            reveal_strlit("#minecraft:is_fall");
            assert("#minecraft:is_projectile"@.len() != "#minecraft:is_fall"@.len());
            reveal_strlit("minecraft:is_fall");
            assert("#minecraft:is_projectile"@.len() != "minecraft:is_fall"@.len());
            reveal_strlit("is_fall");
            assert("#minecraft:is_projectile"@.len() != "is_fall"@.len());
            reveal_strlit("fall");
            assert("#minecraft:is_projectile"@.len() != "fall"@.len());
            reveal_strlit("#minecraft:is_fire");
            assert("#minecraft:is_projectile"@.len() != "#minecraft:is_fire"@.len());
            reveal_strlit("minecraft:is_fire");
            assert("#minecraft:is_projectile"@.len() != "minecraft:is_fire"@.len());
            reveal_strlit("is_fire");
            assert("#minecraft:is_projectile"@.len() != "is_fire"@.len());
            reveal_strlit("fire");
            assert("#minecraft:is_projectile"@.len() != "fire"@.len());
            reveal_strlit("in_fire");
            assert("#minecraft:is_projectile"@.len() != "in_fire"@.len());
            reveal_strlit("minecraft:in_fire");
            assert("#minecraft:is_projectile"@.len() != "minecraft:in_fire"@.len());
            reveal_strlit("#minecraft:is_freezing");
            assert("#minecraft:is_projectile"@.len() != "#minecraft:is_freezing"@.len());
            reveal_strlit("minecraft:is_freezing");
            assert("#minecraft:is_projectile"@.len() != "minecraft:is_freezing"@.len());
            reveal_strlit("is_freezing");
            assert("#minecraft:is_projectile"@.len() != "is_freezing"@.len());
            reveal_strlit("#minecraft:is_lightning");
            assert("#minecraft:is_projectile"@.len() != "#minecraft:is_lightning"@.len());
            reveal_strlit("minecraft:is_lightning");
            assert("#minecraft:is_projectile"@.len() != "minecraft:is_lightning"@.len());
            reveal_strlit("is_lightning");
            assert("#minecraft:is_projectile"@.len() != "is_lightning"@.len());
            reveal_strlit("#minecraft:is_player_attack");
            assert("#minecraft:is_projectile"@.len() != "#minecraft:is_player_attack"@.len());
            reveal_strlit("minecraft:is_player_attack");
            assert("#minecraft:is_projectile"@.len() != "minecraft:is_player_attack"@.len());
            reveal_strlit("is_player_attack");
            assert("#minecraft:is_projectile"@.len() != "is_player_attack"@.len());
        },
        DamageResistantType::MaceSmash => {
            reveal_strlit("#minecraft:mace_smash");
            reveal_strlit("#minecraft:always_hurts_ender_dragons");
            assert("#minecraft:mace_smash"@.len() != "#minecraft:always_hurts_ender_dragons"@.len());
            reveal_strlit("minecraft:always_hurts_ender_dragons");
            assert("#minecraft:mace_smash"@.len() != "minecraft:always_hurts_ender_dragons"@.len());
            reveal_strlit("always_hurts_ender_dragons");
            assert("#minecraft:mace_smash"@.len() != "always_hurts_ender_dragons"@.len());
            reveal_strlit("#minecraft:always_kills_armor_stands");
            assert("#minecraft:mace_smash"@.len() != "#minecraft:always_kills_armor_stands"@.len());
            reveal_strlit("minecraft:always_kills_armor_stands");
            assert("#minecraft:mace_smash"@.len() != "minecraft:always_kills_armor_stands"@.len());
            reveal_strlit("always_kills_armor_stands");
            assert("#minecraft:mace_smash"@.len() != "always_kills_armor_stands"@.len());
            reveal_strlit("#minecraft:always_most_significant_fall");
            assert("#minecraft:mace_smash"@.len() != "#minecraft:always_most_significant_fall"@.len());
            reveal_strlit("minecraft:always_most_significant_fall");
            assert("#minecraft:mace_smash"@.len() != "minecraft:always_most_significant_fall"@.len());
            reveal_strlit("always_most_significant_fall");
            assert("#minecraft:mace_smash"@.len() != "always_most_significant_fall"@.len());
            reveal_strlit("#minecraft:always_triggers_silverfish");
            assert("#minecraft:mace_smash"@.len() != "#minecraft:always_triggers_silverfish"@.len());
            reveal_strlit("minecraft:always_triggers_silverfish");
            assert("#minecraft:mace_smash"@.len() != "minecraft:always_triggers_silverfish"@.len());
            reveal_strlit("always_triggers_silverfish");
            assert("#minecraft:mace_smash"@.len() != "always_triggers_silverfish"@.len());
            reveal_strlit("#minecraft:avoids_guardian_thorns");
            assert("#minecraft:mace_smash"@.len() != "#minecraft:avoids_guardian_thorns"@.len());
            reveal_strlit("minecraft:avoids_guardian_thorns");
            assert("#minecraft:mace_smash"@.len() != "minecraft:avoids_guardian_thorns"@.len());
            reveal_strlit("avoids_guardian_thorns");
            assert("#minecraft:mace_smash"@.len() != "avoids_guardian_thorns"@.len());
            reveal_strlit("#minecraft:burns_armor_stands");
            assert("#minecraft:mace_smash"@.len() != "#minecraft:burns_armor_stands"@.len());
            reveal_strlit("minecraft:burns_armor_stands");
            assert("#minecraft:mace_smash"@.len() != "minecraft:burns_armor_stands"@.len());
            reveal_strlit("burns_armor_stands");
            assert("#minecraft:mace_smash"@.len() != "burns_armor_stands"@.len());
            reveal_strlit("#minecraft:burn_from_stepping");
            assert("#minecraft:mace_smash"@.len() != "#minecraft:burn_from_stepping"@.len());
            reveal_strlit("minecraft:burn_from_stepping");
            assert("#minecraft:mace_smash"@.len() != "minecraft:burn_from_stepping"@.len());
            reveal_strlit("burn_from_stepping");
            assert("#minecraft:mace_smash"@.len() != "burn_from_stepping"@.len());
            reveal_strlit("#minecraft:bypasses_armor");
            assert("#minecraft:mace_smash"@.len() != "#minecraft:bypasses_armor"@.len());
            reveal_strlit("minecraft:bypasses_armor");
            assert("#minecraft:mace_smash"@.len() != "minecraft:bypasses_armor"@.len());
            reveal_strlit("bypasses_armor");
            assert("#minecraft:mace_smash"@.len() != "bypasses_armor"@.len());
            reveal_strlit("#minecraft:bypasses_cooldown");
            assert("#minecraft:mace_smash"@.len() != "#minecraft:bypasses_cooldown"@.len());
            reveal_strlit("minecraft:bypasses_cooldown");
            assert("#minecraft:mace_smash"@.len() != "minecraft:bypasses_cooldown"@.len());
            reveal_strlit("bypasses_cooldown");
            assert("#minecraft:mace_smash"@.len() != "bypasses_cooldown"@.len());
            reveal_strlit("#minecraft:bypasses_effects");
            assert("#minecraft:mace_smash"@.len() != "#minecraft:bypasses_effects"@.len());
            reveal_strlit("minecraft:bypasses_effects");
            assert("#minecraft:mace_smash"@.len() != "minecraft:bypasses_effects"@.len());
            reveal_strlit("bypasses_effects");
            assert("#minecraft:mace_smash"@.len() != "bypasses_effects"@.len());
            reveal_strlit("#minecraft:bypasses_enchantments");
            assert("#minecraft:mace_smash"@.len() != "#minecraft:bypasses_enchantments"@.len());
            reveal_strlit("minecraft:bypasses_enchantments");
            assert("#minecraft:mace_smash"@.len() != "minecraft:bypasses_enchantments"@.len());
            reveal_strlit("bypasses_enchantments");
            assert("#minecraft:mace_smash"@[0] != "bypasses_enchantments"@[0]);
            reveal_strlit("#minecraft:bypasses_invulnerability");
            assert("#minecraft:mace_smash"@.len() != "#minecraft:bypasses_invulnerability"@.len());
            reveal_strlit("minecraft:bypasses_invulnerability");
            assert("#minecraft:mace_smash"@.len() != "minecraft:bypasses_invulnerability"@.len());
            reveal_strlit("bypasses_invulnerability");
            assert("#minecraft:mace_smash"@.len() != "bypasses_invulnerability"@.len());
            reveal_strlit("#minecraft:bypasses_resistance");
            assert("#minecraft:mace_smash"@.len() != "#minecraft:bypasses_resistance"@.len());
            reveal_strlit("minecraft:bypasses_resistance");
            assert("#minecraft:mace_smash"@.len() != "minecraft:bypasses_resistance"@.len());
            reveal_strlit("bypasses_resistance");
            assert("#minecraft:mace_smash"@.len() != "bypasses_resistance"@.len());
            reveal_strlit("#minecraft:bypasses_shield");
            assert("#minecraft:mace_smash"@.len() != "#minecraft:bypasses_shield"@.len());
            reveal_strlit("minecraft:bypasses_shield");
            assert("#minecraft:mace_smash"@.len() != "minecraft:bypasses_shield"@.len());
            reveal_strlit("bypasses_shield");
            assert("#minecraft:mace_smash"@.len() != "bypasses_shield"@.len());
            reveal_strlit("#minecraft:bypasses_wolf_armor");
            assert("#minecraft:mace_smash"@.len() != "#minecraft:bypasses_wolf_armor"@.len());
            reveal_strlit("minecraft:bypasses_wolf_armor");
            assert("#minecraft:mace_smash"@.len() != "minecraft:bypasses_wolf_armor"@.len());
            reveal_strlit("bypasses_wolf_armor");
            assert("#minecraft:mace_smash"@.len() != "bypasses_wolf_armor"@.len());
            reveal_strlit("#minecraft:can_break_armor_stand");
            assert("#minecraft:mace_smash"@.len() != "#minecraft:can_break_armor_stand"@.len());
            reveal_strlit("minecraft:can_break_armor_stand");
            assert("#minecraft:mace_smash"@.len() != "minecraft:can_break_armor_stand"@.len());
            reveal_strlit("can_break_armor_stand");
            assert("#minecraft:mace_smash"@[0] != "can_break_armor_stand"@[0]);
            reveal_strlit("#minecraft:damages_helmet");
            assert("#minecraft:mace_smash"@.len() != "#minecraft:damages_helmet"@.len());
            reveal_strlit("minecraft:damages_helmet");
            assert("#minecraft:mace_smash"@.len() != "minecraft:damages_helmet"@.len());
            reveal_strlit("damages_helmet");
            assert("#minecraft:mace_smash"@.len() != "damages_helmet"@.len());
            reveal_strlit("#minecraft:ignites_armor_stands");
            assert("#minecraft:mace_smash"@.len() != "#minecraft:ignites_armor_stands"@.len());
            reveal_strlit("minecraft:ignites_armor_stands");
            assert("#minecraft:mace_smash"@.len() != "minecraft:ignites_armor_stands"@.len());
            reveal_strlit("ignites_armor_stands");
            assert("#minecraft:mace_smash"@.len() != "ignites_armor_stands"@.len());
            reveal_strlit("#minecraft:is_drowning");
            assert("#minecraft:mace_smash"@.len() != "#minecraft:is_drowning"@.len());
            reveal_strlit("minecraft:is_drowning");
            assert("#minecraft:mace_smash"@[0] != "minecraft:is_drowning"@[0]);
            reveal_strlit("is_drowning");
            assert("#minecraft:mace_smash"@.len() != "is_drowning"@.len());
            reveal_strlit("#minecraft:is_explosion");
            assert("#minecraft:mace_smash"@.len() != "#minecraft:is_explosion"@.len());
            reveal_strlit("minecraft:is_explosion");
            assert("#minecraft:mace_smash"@.len() != "minecraft:is_explosion"@.len());
            reveal_strlit("is_explosion");
            assert("#minecraft:mace_smash"@.len() != "is_explosion"@.len());
            reveal_strlit("explosion");
            assert("#minecraft:mace_smash"@.len() != "explosion"@.len());
            reveal_strlit("#minecraft:is_fall");
            assert("#minecraft:mace_smash"@.len() != "#minecraft:is_fall"@.len());
            reveal_strlit("minecraft:is_fall");
            assert("#minecraft:mace_smash"@.len() != "minecraft:is_fall"@.len());
            reveal_strlit("is_fall");
            assert("#minecraft:mace_smash"@.len() != "is_fall"@.len());
            reveal_strlit("fall");
            assert("#minecraft:mace_smash"@.len() != "fall"@.len());
            reveal_strlit("#minecraft:is_fire");
            assert("#minecraft:mace_smash"@.len() != "#minecraft:is_fire"@.len());
            reveal_strlit("minecraft:is_fire");
            assert("#minecraft:mace_smash"@.len() != "minecraft:is_fire"@.len());
            reveal_strlit("is_fire");
            assert("#minecraft:mace_smash"@.len() != "is_fire"@.len());
            reveal_strlit("fire");
            assert("#minecraft:mace_smash"@.len() != "fire"@.len());
            reveal_strlit("in_fire");
            assert("#minecraft:mace_smash"@.len() != "in_fire"@.len());
            reveal_strlit("minecraft:in_fire");
            assert("#minecraft:mace_smash"@.len() != "minecraft:in_fire"@.len());
            reveal_strlit("#minecraft:is_freezing");
            assert("#minecraft:mace_smash"@.len() != "#minecraft:is_freezing"@.len());
            reveal_strlit("minecraft:is_freezing");
            assert("#minecraft:mace_smash"@[0] != "minecraft:is_freezing"@[0]);
            reveal_strlit("is_freezing");
            assert("#minecraft:mace_smash"@.len() != "is_freezing"@.len());
            reveal_strlit("#minecraft:is_lightning");
            assert("#minecraft:mace_smash"@.len() != "#minecraft:is_lightning"@.len());
            reveal_strlit("minecraft:is_lightning");
            assert("#minecraft:mace_smash"@.len() != "minecraft:is_lightning"@.len());
            reveal_strlit("is_lightning");
            assert("#minecraft:mace_smash"@.len() != "is_lightning"@.len());
            reveal_strlit("#minecraft:is_player_attack");
            assert("#minecraft:mace_smash"@.len() != "#minecraft:is_player_attack"@.len());
            reveal_strlit("minecraft:is_player_attack");
            assert("#minecraft:mace_smash"@.len() != "minecraft:is_player_attack"@.len());
            reveal_strlit("is_player_attack");
            assert("#minecraft:mace_smash"@.len() != "is_player_attack"@.len());
            reveal_strlit("#minecraft:is_projectile");
            assert("#minecraft:mace_smash"@.len() != "#minecraft:is_projectile"@.len());
            reveal_strlit("minecraft:is_projectile");
            assert("#minecraft:mace_smash"@.len() != "minecraft:is_projectile"@.len());
            reveal_strlit("is_projectile");
            assert("#minecraft:mace_smash"@.len() != "is_projectile"@.len());
        },
        DamageResistantType::NoAnger => {
            reveal_strlit("#minecraft:no_anger");
            reveal_strlit("#minecraft:always_hurts_ender_dragons");
            assert("#minecraft:no_anger"@.len() != "#minecraft:always_hurts_ender_dragons"@.len());
            reveal_strlit("minecraft:always_hurts_ender_dragons");
            assert("#minecraft:no_anger"@.len() != "minecraft:always_hurts_ender_dragons"@.len());
            reveal_strlit("always_hurts_ender_dragons");
            assert("#minecraft:no_anger"@.len() != "always_hurts_ender_dragons"@.len());
            reveal_strlit("#minecraft:always_kills_armor_stands");
            assert("#minecraft:no_anger"@.len() != "#minecraft:always_kills_armor_stands"@.len());
            reveal_strlit("minecraft:always_kills_armor_stands");
            assert("#minecraft:no_anger"@.len() != "minecraft:always_kills_armor_stands"@.len());
            reveal_strlit("always_kills_armor_stands");
            assert("#minecraft:no_anger"@.len() != "always_kills_armor_stands"@.len());
            reveal_strlit("#minecraft:always_most_significant_fall");
            assert("#minecraft:no_anger"@.len() != "#minecraft:always_most_significant_fall"@.len());
            reveal_strlit("minecraft:always_most_significant_fall");
            assert("#minecraft:no_anger"@.len() != "minecraft:always_most_significant_fall"@.len());
            reveal_strlit("always_most_significant_fall");
            assert("#minecraft:no_anger"@.len() != "always_most_significant_fall"@.len());
            reveal_strlit("#minecraft:always_triggers_silverfish");
            assert("#minecraft:no_anger"@.len() != "#minecraft:always_triggers_silverfish"@.len());
            reveal_strlit("minecraft:always_triggers_silverfish");
            assert("#minecraft:no_anger"@.len() != "minecraft:always_triggers_silverfish"@.len());
            reveal_strlit("always_triggers_silverfish");
            assert("#minecraft:no_anger"@.len() != "always_triggers_silverfish"@.len());
            reveal_strlit("#minecraft:avoids_guardian_thorns");
            assert("#minecraft:no_anger"@.len() != "#minecraft:avoids_guardian_thorns"@.len());
            reveal_strlit("minecraft:avoids_guardian_thorns");
            assert("#minecraft:no_anger"@.len() != "minecraft:avoids_guardian_thorns"@.len());
            reveal_strlit("avoids_guardian_thorns");
            assert("#minecraft:no_anger"@.len() != "avoids_guardian_thorns"@.len());
            reveal_strlit("#minecraft:burns_armor_stands");
            assert("#minecraft:no_anger"@.len() != "#minecraft:burns_armor_stands"@.len());
            reveal_strlit("minecraft:burns_armor_stands");
            assert("#minecraft:no_anger"@.len() != "minecraft:burns_armor_stands"@.len());
            reveal_strlit("burns_armor_stands");
            assert("#minecraft:no_anger"@.len() != "burns_armor_stands"@.len());
            reveal_strlit("#minecraft:burn_from_stepping");
            assert("#minecraft:no_anger"@.len() != "#minecraft:burn_from_stepping"@.len());
            reveal_strlit("minecraft:burn_from_stepping");
            assert("#minecraft:no_anger"@.len() != "minecraft:burn_from_stepping"@.len());
            reveal_strlit("burn_from_stepping");
            assert("#minecraft:no_anger"@.len() != "burn_from_stepping"@.len());
            reveal_strlit("#minecraft:bypasses_armor");
            assert("#minecraft:no_anger"@.len() != "#minecraft:bypasses_armor"@.len());
            reveal_strlit("minecraft:bypasses_armor");
            assert("#minecraft:no_anger"@.len() != "minecraft:bypasses_armor"@.len());
            reveal_strlit("bypasses_armor");
            assert("#minecraft:no_anger"@.len() != "bypasses_armor"@.len());
            reveal_strlit("#minecraft:bypasses_cooldown");
            assert("#minecraft:no_anger"@.len() != "#minecraft:bypasses_cooldown"@.len());
            reveal_strlit("minecraft:bypasses_cooldown");
            assert("#minecraft:no_anger"@.len() != "minecraft:bypasses_cooldown"@.len());
            reveal_strlit("bypasses_cooldown");
            assert("#minecraft:no_anger"@.len() != "bypasses_cooldown"@.len());
            reveal_strlit("#minecraft:bypasses_effects");
            assert("#minecraft:no_anger"@.len() != "#minecraft:bypasses_effects"@.len());
            reveal_strlit("minecraft:bypasses_effects");
            assert("#minecraft:no_anger"@.len() != "minecraft:bypasses_effects"@.len());
            reveal_strlit("bypasses_effects");
            assert("#minecraft:no_anger"@.len() != "bypasses_effects"@.len());
            reveal_strlit("#minecraft:bypasses_enchantments");
            assert("#minecraft:no_anger"@.len() != "#minecraft:bypasses_enchantments"@.len());
            reveal_strlit("minecraft:bypasses_enchantments");
            assert("#minecraft:no_anger"@.len() != "minecraft:bypasses_enchantments"@.len());
            reveal_strlit("bypasses_enchantments");
            assert("#minecraft:no_anger"@.len() != "bypasses_enchantments"@.len());
            reveal_strlit("#minecraft:bypasses_invulnerability");
            assert("#minecraft:no_anger"@.len() != "#minecraft:bypasses_invulnerability"@.len());
            reveal_strlit("minecraft:bypasses_invulnerability");
            assert("#minecraft:no_anger"@.len() != "minecraft:bypasses_invulnerability"@.len());
            reveal_strlit("bypasses_invulnerability");
            assert("#minecraft:no_anger"@.len() != "bypasses_invulnerability"@.len());
            reveal_strlit("#minecraft:bypasses_resistance");
            assert("#minecraft:no_anger"@.len() != "#minecraft:bypasses_resistance"@.len());
            reveal_strlit("minecraft:bypasses_resistance");
            assert("#minecraft:no_anger"@.len() != "minecraft:bypasses_resistance"@.len());
            reveal_strlit("bypasses_resistance");
            assert("#minecraft:no_anger"@[0] != "bypasses_resistance"@[0]);
            reveal_strlit("#minecraft:bypasses_shield");
            assert("#minecraft:no_anger"@.len() != "#minecraft:bypasses_shield"@.len());
            reveal_strlit("minecraft:bypasses_shield");
            assert("#minecraft:no_anger"@.len() != "minecraft:bypasses_shield"@.len());
            reveal_strlit("bypasses_shield");
            assert("#minecraft:no_anger"@.len() != "bypasses_shield"@.len());
            reveal_strlit("#minecraft:bypasses_wolf_armor");
            assert("#minecraft:no_anger"@.len() != "#minecraft:bypasses_wolf_armor"@.len());
            reveal_strlit("minecraft:bypasses_wolf_armor");
            assert("#minecraft:no_anger"@.len() != "minecraft:bypasses_wolf_armor"@.len());
            reveal_strlit("bypasses_wolf_armor");
            assert("#minecraft:no_anger"@[0] != "bypasses_wolf_armor"@[0]);
            reveal_strlit("#minecraft:can_break_armor_stand");
            assert("#minecraft:no_anger"@.len() != "#minecraft:can_break_armor_stand"@.len());
            reveal_strlit("minecraft:can_break_armor_stand");
            assert("#minecraft:no_anger"@.len() != "minecraft:can_break_armor_stand"@.len());
            reveal_strlit("can_break_armor_stand");
            assert("#minecraft:no_anger"@.len() != "can_break_armor_stand"@.len());
            reveal_strlit("#minecraft:damages_helmet");
            assert("#minecraft:no_anger"@.len() != "#minecraft:damages_helmet"@.len());
            reveal_strlit("minecraft:damages_helmet");
            assert("#minecraft:no_anger"@.len() != "minecraft:damages_helmet"@.len());
            reveal_strlit("damages_helmet");
            assert("#minecraft:no_anger"@.len() != "damages_helmet"@.len());
            reveal_strlit("#minecraft:ignites_armor_stands");
            assert("#minecraft:no_anger"@.len() != "#minecraft:ignites_armor_stands"@.len());
            reveal_strlit("minecraft:ignites_armor_stands");
            assert("#minecraft:no_anger"@.len() != "minecraft:ignites_armor_stands"@.len());
            reveal_strlit("ignites_armor_stands");
            assert("#minecraft:no_anger"@.len() != "ignites_armor_stands"@.len());
            reveal_strlit("#minecraft:is_drowning");
            assert("#minecraft:no_anger"@.len() != "#minecraft:is_drowning"@.len());
            reveal_strlit("minecraft:is_drowning");
            assert("#minecraft:no_anger"@.len() != "minecraft:is_drowning"@.len());
            reveal_strlit("is_drowning");
            assert("#minecraft:no_anger"@.len() != "is_drowning"@.len());
            reveal_strlit("#minecraft:is_explosion");
            assert("#minecraft:no_anger"@.len() != "#minecraft:is_explosion"@.len());
            reveal_strlit("minecraft:is_explosion");
            assert("#minecraft:no_anger"@.len() != "minecraft:is_explosion"@.len());
            reveal_strlit("is_explosion");
            assert("#minecraft:no_anger"@.len() != "is_explosion"@.len());
            reveal_strlit("explosion");
            assert("#minecraft:no_anger"@.len() != "explosion"@.len());
            reveal_strlit("#minecraft:is_fall");
            assert("#minecraft:no_anger"@.len() != "#minecraft:is_fall"@.len());
            reveal_strlit("minecraft:is_fall");
            assert("#minecraft:no_anger"@.len() != "minecraft:is_fall"@.len());
            reveal_strlit("is_fall");
            assert("#minecraft:no_anger"@.len() != "is_fall"@.len());
            reveal_strlit("fall");
            assert("#minecraft:no_anger"@.len() != "fall"@.len());
            reveal_strlit("#minecraft:is_fire");
            assert("#minecraft:no_anger"@.len() != "#minecraft:is_fire"@.len());
            reveal_strlit("minecraft:is_fire");
            assert("#minecraft:no_anger"@.len() != "minecraft:is_fire"@.len());
            reveal_strlit("is_fire");
            assert("#minecraft:no_anger"@.len() != "is_fire"@.len());
            reveal_strlit("fire");
            assert("#minecraft:no_anger"@.len() != "fire"@.len());
            reveal_strlit("in_fire");
            assert("#minecraft:no_anger"@.len() != "in_fire"@.len());
            reveal_strlit("minecraft:in_fire");
            assert("#minecraft:no_anger"@.len() != "minecraft:in_fire"@.len());
            reveal_strlit("#minecraft:is_freezing");
            assert("#minecraft:no_anger"@.len() != "#minecraft:is_freezing"@.len());
            reveal_strlit("minecraft:is_freezing");
            assert("#minecraft:no_anger"@.len() != "minecraft:is_freezing"@.len());
            reveal_strlit("is_freezing");
            assert("#minecraft:no_anger"@.len() != "is_freezing"@.len());
            reveal_strlit("#minecraft:is_lightning");
            assert("#minecraft:no_anger"@.len() != "#minecraft:is_lightning"@.len());
            reveal_strlit("minecraft:is_lightning");
            assert("#minecraft:no_anger"@.len() != "minecraft:is_lightning"@.len());
            reveal_strlit("is_lightning");
            assert("#minecraft:no_anger"@.len() != "is_lightning"@.len());
            reveal_strlit("#minecraft:is_player_attack");
            assert("#minecraft:no_anger"@.len() != "#minecraft:is_player_attack"@.len());
            reveal_strlit("minecraft:is_player_attack");
            assert("#minecraft:no_anger"@.len() != "minecraft:is_player_attack"@.len());
            reveal_strlit("is_player_attack");
            assert("#minecraft:no_anger"@.len() != "is_player_attack"@.len());
            reveal_strlit("#minecraft:is_projectile");
            assert("#minecraft:no_anger"@.len() != "#minecraft:is_projectile"@.len());
            reveal_strlit("minecraft:is_projectile");
            assert("#minecraft:no_anger"@.len() != "minecraft:is_projectile"@.len());
            reveal_strlit("is_projectile");
            assert("#minecraft:no_anger"@.len() != "is_projectile"@.len());
            reveal_strlit("#minecraft:mace_smash");
            assert("#minecraft:no_anger"@.len() != "#minecraft:mace_smash"@.len());
            reveal_strlit("minecraft:mace_smash");
            assert("#minecraft:no_anger"@.len() != "minecraft:mace_smash"@.len());
            reveal_strlit("mace_smash");
            assert("#minecraft:no_anger"@.len() != "mace_smash"@.len());
        },
        DamageResistantType::NoImpact => {
            reveal_strlit("#minecraft:no_impact");
            reveal_strlit("#minecraft:always_hurts_ender_dragons");
            assert("#minecraft:no_impact"@.len() != "#minecraft:always_hurts_ender_dragons"@.len());
            reveal_strlit("minecraft:always_hurts_ender_dragons");
            assert("#minecraft:no_impact"@.len() != "minecraft:always_hurts_ender_dragons"@.len());
            reveal_strlit("always_hurts_ender_dragons");
            assert("#minecraft:no_impact"@.len() != "always_hurts_ender_dragons"@.len());
            reveal_strlit("#minecraft:always_kills_armor_stands");
            assert("#minecraft:no_impact"@.len() != "#minecraft:always_kills_armor_stands"@.len());
            reveal_strlit("minecraft:always_kills_armor_stands");
            assert("#minecraft:no_impact"@.len() != "minecraft:always_kills_armor_stands"@.len());
            reveal_strlit("always_kills_armor_stands");
            assert("#minecraft:no_impact"@.len() != "always_kills_armor_stands"@.len());
            reveal_strlit("#minecraft:always_most_significant_fall");
            assert("#minecraft:no_impact"@.len() != "#minecraft:always_most_significant_fall"@.len());
            reveal_strlit("minecraft:always_most_significant_fall");
            assert("#minecraft:no_impact"@.len() != "minecraft:always_most_significant_fall"@.len());
            reveal_strlit("always_most_significant_fall");
            assert("#minecraft:no_impact"@.len() != "always_most_significant_fall"@.len());
            reveal_strlit("#minecraft:always_triggers_silverfish");
            assert("#minecraft:no_impact"@.len() != "#minecraft:always_triggers_silverfish"@.len());
            reveal_strlit("minecraft:always_triggers_silverfish");
            assert("#minecraft:no_impact"@.len() != "minecraft:always_triggers_silverfish"@.len());
            reveal_strlit("always_triggers_silverfish");
            assert("#minecraft:no_impact"@.len() != "always_triggers_silverfish"@.len());
            reveal_strlit("#minecraft:avoids_guardian_thorns");
            assert("#minecraft:no_impact"@.len() != "#minecraft:avoids_guardian_thorns"@.len());
            reveal_strlit("minecraft:avoids_guardian_thorns");
            assert("#minecraft:no_impact"@.len() != "minecraft:avoids_guardian_thorns"@.len());
            reveal_strlit("avoids_guardian_thorns");
            assert("#minecraft:no_impact"@.len() != "avoids_guardian_thorns"@.len());
            reveal_strlit("#minecraft:burns_armor_stands");
            assert("#minecraft:no_impact"@.len() != "#minecraft:burns_armor_stands"@.len());
            reveal_strlit("minecraft:burns_armor_stands");
            assert("#minecraft:no_impact"@.len() != "minecraft:burns_armor_stands"@.len());
            reveal_strlit("burns_armor_stands");
            assert("#minecraft:no_impact"@.len() != "burns_armor_stands"@.len());
            reveal_strlit("#minecraft:burn_from_stepping");
            assert("#minecraft:no_impact"@.len() != "#minecraft:burn_from_stepping"@.len());
            reveal_strlit("minecraft:burn_from_stepping");
            assert("#minecraft:no_impact"@.len() != "minecraft:burn_from_stepping"@.len());
            reveal_strlit("burn_from_stepping");
            assert("#minecraft:no_impact"@.len() != "burn_from_stepping"@.len());
            reveal_strlit("#minecraft:bypasses_armor");
            assert("#minecraft:no_impact"@.len() != "#minecraft:bypasses_armor"@.len());
            reveal_strlit("minecraft:bypasses_armor");
            assert("#minecraft:no_impact"@.len() != "minecraft:bypasses_armor"@.len());
            reveal_strlit("bypasses_armor");
            assert("#minecraft:no_impact"@.len() != "bypasses_armor"@.len());
            reveal_strlit("#minecraft:bypasses_cooldown");
            assert("#minecraft:no_impact"@.len() != "#minecraft:bypasses_cooldown"@.len());
            reveal_strlit("minecraft:bypasses_cooldown");
            assert("#minecraft:no_impact"@.len() != "minecraft:bypasses_cooldown"@.len());
            reveal_strlit("bypasses_cooldown");
            assert("#minecraft:no_impact"@.len() != "bypasses_cooldown"@.len());
            reveal_strlit("#minecraft:bypasses_effects");
            assert("#minecraft:no_impact"@.len() != "#minecraft:bypasses_effects"@.len());
            reveal_strlit("minecraft:bypasses_effects");
            assert("#minecraft:no_impact"@.len() != "minecraft:bypasses_effects"@.len());
            reveal_strlit("bypasses_effects");
            assert("#minecraft:no_impact"@.len() != "bypasses_effects"@.len());
            reveal_strlit("#minecraft:bypasses_enchantments");
            assert("#minecraft:no_impact"@.len() != "#minecraft:bypasses_enchantments"@.len());
            reveal_strlit("minecraft:bypasses_enchantments");
            assert("#minecraft:no_impact"@.len() != "minecraft:bypasses_enchantments"@.len());
            reveal_strlit("bypasses_enchantments");
            assert("#minecraft:no_impact"@.len() != "bypasses_enchantments"@.len());
            reveal_strlit("#minecraft:bypasses_invulnerability");
            assert("#minecraft:no_impact"@.len() != "#minecraft:bypasses_invulnerability"@.len());
            reveal_strlit("minecraft:bypasses_invulnerability");
            assert("#minecraft:no_impact"@.len() != "minecraft:bypasses_invulnerability"@.len());
            reveal_strlit("bypasses_invulnerability");
            assert("#minecraft:no_impact"@.len() != "bypasses_invulnerability"@.len());
            reveal_strlit("#minecraft:bypasses_resistance");
            assert("#minecraft:no_impact"@.len() != "#minecraft:bypasses_resistance"@.len());
            reveal_strlit("minecraft:bypasses_resistance");
            assert("#minecraft:no_impact"@.len() != "minecraft:bypasses_resistance"@.len());
            reveal_strlit("bypasses_resistance");
            assert("#minecraft:no_impact"@.len() != "bypasses_resistance"@.len());
            reveal_strlit("#minecraft:bypasses_shield");
            assert("#minecraft:no_impact"@.len() != "#minecraft:bypasses_shield"@.len());
            reveal_strlit("minecraft:bypasses_shield");
            assert("#minecraft:no_impact"@.len() != "minecraft:bypasses_shield"@.len());
            reveal_strlit("bypasses_shield");
            assert("#minecraft:no_impact"@.len() != "bypasses_shield"@.len());
            reveal_strlit("#minecraft:bypasses_wolf_armor");
            assert("#minecraft:no_impact"@.len() != "#minecraft:bypasses_wolf_armor"@.len());
            reveal_strlit("minecraft:bypasses_wolf_armor");
            assert("#minecraft:no_impact"@.len() != "minecraft:bypasses_wolf_armor"@.len());
            reveal_strlit("bypasses_wolf_armor");
            assert("#minecraft:no_impact"@.len() != "bypasses_wolf_armor"@.len());
            reveal_strlit("#minecraft:can_break_armor_stand");
            assert("#minecraft:no_impact"@.len() != "#minecraft:can_break_armor_stand"@.len());
            reveal_strlit("minecraft:can_break_armor_stand");
            assert("#minecraft:no_impact"@.len() != "minecraft:can_break_armor_stand"@.len());
            reveal_strlit("can_break_armor_stand");
            assert("#minecraft:no_impact"@.len() != "can_break_armor_stand"@.len());
            reveal_strlit("#minecraft:damages_helmet");
            assert("#minecraft:no_impact"@.len() != "#minecraft:damages_helmet"@.len());
            reveal_strlit("minecraft:damages_helmet");
            assert("#minecraft:no_impact"@.len() != "minecraft:damages_helmet"@.len());
            reveal_strlit("damages_helmet");
            assert("#minecraft:no_impact"@.len() != "damages_helmet"@.len());
            reveal_strlit("#minecraft:ignites_armor_stands");
            assert("#minecraft:no_impact"@.len() != "#minecraft:ignites_armor_stands"@.len());
            reveal_strlit("minecraft:ignites_armor_stands");
            assert("#minecraft:no_impact"@.len() != "minecraft:ignites_armor_stands"@.len());
            reveal_strlit("ignites_armor_stands");
            assert("#minecraft:no_impact"@[0] != "ignites_armor_stands"@[0]);
            reveal_strlit("#minecraft:is_drowning");
            assert("#minecraft:no_impact"@.len() != "#minecraft:is_drowning"@.len());
            reveal_strlit("minecraft:is_drowning");
            assert("#minecraft:no_impact"@.len() != "minecraft:is_drowning"@.len());
            reveal_strlit("is_drowning");
            assert("#minecraft:no_impact"@.len() != "is_drowning"@.len());
            reveal_strlit("#minecraft:is_explosion");
            assert("#minecraft:no_impact"@.len() != "#minecraft:is_explosion"@.len());
            reveal_strlit("minecraft:is_explosion");
            assert("#minecraft:no_impact"@.len() != "minecraft:is_explosion"@.len());
            reveal_strlit("is_explosion");
            assert("#minecraft:no_impact"@.len() != "is_explosion"@.len());
            reveal_strlit("explosion");
            assert("#minecraft:no_impact"@.len() != "explosion"@.len());
            reveal_strlit("#minecraft:is_fall");
            assert("#minecraft:no_impact"@.len() != "#minecraft:is_fall"@.len());
            reveal_strlit("minecraft:is_fall");
            assert("#minecraft:no_impact"@.len() != "minecraft:is_fall"@.len());
            reveal_strlit("is_fall");
            assert("#minecraft:no_impact"@.len() != "is_fall"@.len());
            reveal_strlit("fall");
            assert("#minecraft:no_impact"@.len() != "fall"@.len());
            reveal_strlit("#minecraft:is_fire");
            assert("#minecraft:no_impact"@.len() != "#minecraft:is_fire"@.len());
            reveal_strlit("minecraft:is_fire");
            assert("#minecraft:no_impact"@.len() != "minecraft:is_fire"@.len());
            reveal_strlit("is_fire");
            assert("#minecraft:no_impact"@.len() != "is_fire"@.len());
            reveal_strlit("fire");
            assert("#minecraft:no_impact"@.len() != "fire"@.len());
            reveal_strlit("in_fire");
            assert("#minecraft:no_impact"@.len() != "in_fire"@.len());
            reveal_strlit("minecraft:in_fire");
            assert("#minecraft:no_impact"@.len() != "minecraft:in_fire"@.len());
            reveal_strlit("#minecraft:is_freezing");
            assert("#minecraft:no_impact"@.len() != "#minecraft:is_freezing"@.len());
            reveal_strlit("minecraft:is_freezing");
            assert("#minecraft:no_impact"@.len() != "minecraft:is_freezing"@.len());
            reveal_strlit("is_freezing");
            assert("#minecraft:no_impact"@.len() != "is_freezing"@.len());
            reveal_strlit("#minecraft:is_lightning");
            assert("#minecraft:no_impact"@.len() != "#minecraft:is_lightning"@.len());
            reveal_strlit("minecraft:is_lightning");
            assert("#minecraft:no_impact"@.len() != "minecraft:is_lightning"@.len());
            reveal_strlit("is_lightning");
            assert("#minecraft:no_impact"@.len() != "is_lightning"@.len());
            reveal_strlit("#minecraft:is_player_attack");
            assert("#minecraft:no_impact"@.len() != "#minecraft:is_player_attack"@.len());
            reveal_strlit("minecraft:is_player_attack");
            assert("#minecraft:no_impact"@.len() != "minecraft:is_player_attack"@.len());
            reveal_strlit("is_player_attack");
            assert("#minecraft:no_impact"@.len() != "is_player_attack"@.len());
            reveal_strlit("#minecraft:is_projectile");
            assert("#minecraft:no_impact"@.len() != "#minecraft:is_projectile"@.len());
            reveal_strlit("minecraft:is_projectile");
            assert("#minecraft:no_impact"@.len() != "minecraft:is_projectile"@.len());
            reveal_strlit("is_projectile");
            assert("#minecraft:no_impact"@.len() != "is_projectile"@.len());
            reveal_strlit("#minecraft:mace_smash");
            assert("#minecraft:no_impact"@.len() != "#minecraft:mace_smash"@.len());
            reveal_strlit("minecraft:mace_smash");
            assert("#minecraft:no_impact"@[0] != "minecraft:mace_smash"@[0]);
            reveal_strlit("mace_smash");
            assert("#minecraft:no_impact"@.len() != "mace_smash"@.len());
            reveal_strlit("#minecraft:no_anger");
            assert("#minecraft:no_impact"@.len() != "#minecraft:no_anger"@.len());
            reveal_strlit("minecraft:no_anger");
            assert("#minecraft:no_impact"@.len() != "minecraft:no_anger"@.len());
            reveal_strlit("no_anger");
            assert("#minecraft:no_impact"@.len() != "no_anger"@.len());
        },
        DamageResistantType::NoKnockback => {
            reveal_strlit("#minecraft:no_knockback");
            reveal_strlit("#minecraft:always_hurts_ender_dragons");
            assert("#minecraft:no_knockback"@.len() != "#minecraft:always_hurts_ender_dragons"@.len());
            reveal_strlit("minecraft:always_hurts_ender_dragons");
            assert("#minecraft:no_knockback"@.len() != "minecraft:always_hurts_ender_dragons"@.len());
            reveal_strlit("always_hurts_ender_dragons");
            assert("#minecraft:no_knockback"@.len() != "always_hurts_ender_dragons"@.len());
            reveal_strlit("#minecraft:always_kills_armor_stands");
            assert("#minecraft:no_knockback"@.len() != "#minecraft:always_kills_armor_stands"@.len());
            reveal_strlit("minecraft:always_kills_armor_stands");
            assert("#minecraft:no_knockback"@.len() != "minecraft:always_kills_armor_stands"@.len());
            reveal_strlit("always_kills_armor_stands");
            assert("#minecraft:no_knockback"@.len() != "always_kills_armor_stands"@.len());
            reveal_strlit("#minecraft:always_most_significant_fall");
            assert("#minecraft:no_knockback"@.len() != "#minecraft:always_most_significant_fall"@.len());
            reveal_strlit("minecraft:always_most_significant_fall");
            assert("#minecraft:no_knockback"@.len() != "minecraft:always_most_significant_fall"@.len());
            reveal_strlit("always_most_significant_fall");
            assert("#minecraft:no_knockback"@.len() != "always_most_significant_fall"@.len());
            reveal_strlit("#minecraft:always_triggers_silverfish");
            assert("#minecraft:no_knockback"@.len() != "#minecraft:always_triggers_silverfish"@.len());
            reveal_strlit("minecraft:always_triggers_silverfish");
            assert("#minecraft:no_knockback"@.len() != "minecraft:always_triggers_silverfish"@.len());
            reveal_strlit("always_triggers_silverfish");
            assert("#minecraft:no_knockback"@.len() != "always_triggers_silverfish"@.len());
            reveal_strlit("#minecraft:avoids_guardian_thorns");
            assert("#minecraft:no_knockback"@.len() != "#minecraft:avoids_guardian_thorns"@.len());
            reveal_strlit("minecraft:avoids_guardian_thorns");
            assert("#minecraft:no_knockback"@.len() != "minecraft:avoids_guardian_thorns"@.len());
            reveal_strlit("avoids_guardian_thorns");
            assert("#minecraft:no_knockback"@.len() != "avoids_guardian_thorns"@.len());
            reveal_strlit("#minecraft:burns_armor_stands");
            assert("#minecraft:no_knockback"@.len() != "#minecraft:burns_armor_stands"@.len());
            reveal_strlit("minecraft:burns_armor_stands");
            assert("#minecraft:no_knockback"@.len() != "minecraft:burns_armor_stands"@.len());
            reveal_strlit("burns_armor_stands");
            assert("#minecraft:no_knockback"@.len() != "burns_armor_stands"@.len());
            reveal_strlit("#minecraft:burn_from_stepping");
            assert("#minecraft:no_knockback"@.len() != "#minecraft:burn_from_stepping"@.len());
            reveal_strlit("minecraft:burn_from_stepping");
            assert("#minecraft:no_knockback"@.len() != "minecraft:burn_from_stepping"@.len());
            reveal_strlit("burn_from_stepping");
            assert("#minecraft:no_knockback"@.len() != "burn_from_stepping"@.len());
            reveal_strlit("#minecraft:bypasses_armor");
            assert("#minecraft:no_knockback"@.len() != "#minecraft:bypasses_armor"@.len());
            reveal_strlit("minecraft:bypasses_armor");
            assert("#minecraft:no_knockback"@.len() != "minecraft:bypasses_armor"@.len());
            reveal_strlit("bypasses_armor");
            assert("#minecraft:no_knockback"@.len() != "bypasses_armor"@.len());
            reveal_strlit("#minecraft:bypasses_cooldown");
            assert("#minecraft:no_knockback"@.len() != "#minecraft:bypasses_cooldown"@.len());
            reveal_strlit("minecraft:bypasses_cooldown");
            assert("#minecraft:no_knockback"@.len() != "minecraft:bypasses_cooldown"@.len());
            reveal_strlit("bypasses_cooldown");
            assert("#minecraft:no_knockback"@.len() != "bypasses_cooldown"@.len());
            reveal_strlit("#minecraft:bypasses_effects");
            assert("#minecraft:no_knockback"@.len() != "#minecraft:bypasses_effects"@.len());
            reveal_strlit("minecraft:bypasses_effects");
            assert("#minecraft:no_knockback"@.len() != "minecraft:bypasses_effects"@.len());
            reveal_strlit("bypasses_effects");
            assert("#minecraft:no_knockback"@.len() != "bypasses_effects"@.len());
            reveal_strlit("#minecraft:bypasses_enchantments");
            assert("#minecraft:no_knockback"@.len() != "#minecraft:bypasses_enchantments"@.len());
            reveal_strlit("minecraft:bypasses_enchantments");
            assert("#minecraft:no_knockback"@.len() != "minecraft:bypasses_enchantments"@.len());
            reveal_strlit("bypasses_enchantments");
            assert("#minecraft:no_knockback"@.len() != "bypasses_enchantments"@.len());
            reveal_strlit("#minecraft:bypasses_invulnerability");
            assert("#minecraft:no_knockback"@.len() != "#minecraft:bypasses_invulnerability"@.len());
            reveal_strlit("minecraft:bypasses_invulnerability");
            assert("#minecraft:no_knockback"@.len() != "minecraft:bypasses_invulnerability"@.len());
            reveal_strlit("bypasses_invulnerability");
            assert("#minecraft:no_knockback"@.len() != "bypasses_invulnerability"@.len());
            reveal_strlit("#minecraft:bypasses_resistance");
            assert("#minecraft:no_knockback"@.len() != "#minecraft:bypasses_resistance"@.len());
            reveal_strlit("minecraft:bypasses_resistance");
            assert("#minecraft:no_knockback"@.len() != "minecraft:bypasses_resistance"@.len());
            reveal_strlit("bypasses_resistance");
            assert("#minecraft:no_knockback"@.len() != "bypasses_resistance"@.len());
            reveal_strlit("#minecraft:bypasses_shield");
            assert("#minecraft:no_knockback"@.len() != "#minecraft:bypasses_shield"@.len());
            reveal_strlit("minecraft:bypasses_shield");
            assert("#minecraft:no_knockback"@.len() != "minecraft:bypasses_shield"@.len());
            reveal_strlit("bypasses_shield");
            assert("#minecraft:no_knockback"@.len() != "bypasses_shield"@.len());
            reveal_strlit("#minecraft:bypasses_wolf_armor");
            assert("#minecraft:no_knockback"@.len() != "#minecraft:bypasses_wolf_armor"@.len());
            reveal_strlit("minecraft:bypasses_wolf_armor");
            assert("#minecraft:no_knockback"@.len() != "minecraft:bypasses_wolf_armor"@.len());
            reveal_strlit("bypasses_wolf_armor");
            assert("#minecraft:no_knockback"@.len() != "bypasses_wolf_armor"@.len());
            reveal_strlit("#minecraft:can_break_armor_stand");
            assert("#minecraft:no_knockback"@.len() != "#minecraft:can_break_armor_stand"@.len());
            reveal_strlit("minecraft:can_break_armor_stand");
            assert("#minecraft:no_knockback"@.len() != "minecraft:can_break_armor_stand"@.len());
            reveal_strlit("can_break_armor_stand");
            assert("#minecraft:no_knockback"@.len() != "can_break_armor_stand"@.len());
            reveal_strlit("#minecraft:damages_helmet");
            assert("#minecraft:no_knockback"@.len() != "#minecraft:damages_helmet"@.len());
            reveal_strlit("minecraft:damages_helmet");
            assert("#minecraft:no_knockback"@.len() != "minecraft:damages_helmet"@.len());
            reveal_strlit("damages_helmet");
            assert("#minecraft:no_knockback"@.len() != "damages_helmet"@.len());
            reveal_strlit("#minecraft:ignites_armor_stands");
            assert("#minecraft:no_knockback"@.len() != "#minecraft:ignites_armor_stands"@.len());
            reveal_strlit("minecraft:ignites_armor_stands");
            assert("#minecraft:no_knockback"@.len() != "minecraft:ignites_armor_stands"@.len());
            reveal_strlit("ignites_armor_stands");
            assert("#minecraft:no_knockback"@.len() != "ignites_armor_stands"@.len());
            reveal_strlit("#minecraft:is_drowning");
            assert("#minecraft:no_knockback"@.len() != "#minecraft:is_drowning"@.len());
            reveal_strlit("minecraft:is_drowning");
            assert("#minecraft:no_knockback"@.len() != "minecraft:is_drowning"@.len());
            reveal_strlit("is_drowning");
            assert("#minecraft:no_knockback"@.len() != "is_drowning"@.len());
            reveal_strlit("#minecraft:is_explosion");
            assert("#minecraft:no_knockback"@[11] != "#minecraft:is_explosion"@[11]);
            reveal_strlit("minecraft:is_explosion");
            assert("#minecraft:no_knockback"@.len() != "minecraft:is_explosion"@.len());
            reveal_strlit("is_explosion");
            assert("#minecraft:no_knockback"@.len() != "is_explosion"@.len());
            reveal_strlit("explosion");
            assert("#minecraft:no_knockback"@.len() != "explosion"@.len());
            reveal_strlit("#minecraft:is_fall");
            assert("#minecraft:no_knockback"@.len() != "#minecraft:is_fall"@.len());
            reveal_strlit("minecraft:is_fall");
            assert("#minecraft:no_knockback"@.len() != "minecraft:is_fall"@.len());
            reveal_strlit("is_fall");
            assert("#minecraft:no_knockback"@.len() != "is_fall"@.len());
            reveal_strlit("fall");
            assert("#minecraft:no_knockback"@.len() != "fall"@.len());
            reveal_strlit("#minecraft:is_fire");
            assert("#minecraft:no_knockback"@.len() != "#minecraft:is_fire"@.len());
            reveal_strlit("minecraft:is_fire");
            assert("#minecraft:no_knockback"@.len() != "minecraft:is_fire"@.len());
            reveal_strlit("is_fire");
            assert("#minecraft:no_knockback"@.len() != "is_fire"@.len());
            reveal_strlit("fire");
            assert("#minecraft:no_knockback"@.len() != "fire"@.len());
            reveal_strlit("in_fire");
            assert("#minecraft:no_knockback"@.len() != "in_fire"@.len());
            reveal_strlit("minecraft:in_fire");
            assert("#minecraft:no_knockback"@.len() != "minecraft:in_fire"@.len());
            reveal_strlit("#minecraft:is_freezing");
            assert("#minecraft:no_knockback"@.len() != "#minecraft:is_freezing"@.len());
            reveal_strlit("minecraft:is_freezing");
            assert("#minecraft:no_knockback"@.len() != "minecraft:is_freezing"@.len());
            reveal_strlit("is_freezing");
            assert("#minecraft:no_knockback"@.len() != "is_freezing"@.len());
            reveal_strlit("#minecraft:is_lightning");
            assert("#minecraft:no_knockback"@[11] != "#minecraft:is_lightning"@[11]);
            reveal_strlit("minecraft:is_lightning");
            assert("#minecraft:no_knockback"@.len() != "minecraft:is_lightning"@.len());
            reveal_strlit("is_lightning");
            assert("#minecraft:no_knockback"@.len() != "is_lightning"@.len());
            reveal_strlit("#minecraft:is_player_attack");
            assert("#minecraft:no_knockback"@.len() != "#minecraft:is_player_attack"@.len());
            reveal_strlit("minecraft:is_player_attack");
            assert("#minecraft:no_knockback"@.len() != "minecraft:is_player_attack"@.len());
            reveal_strlit("is_player_attack");
            assert("#minecraft:no_knockback"@.len() != "is_player_attack"@.len());
            reveal_strlit("#minecraft:is_projectile");
            assert("#minecraft:no_knockback"@.len() != "#minecraft:is_projectile"@.len());
            reveal_strlit("minecraft:is_projectile");
            assert("#minecraft:no_knockback"@[0] != "minecraft:is_projectile"@[0]);
            reveal_strlit("is_projectile");
            assert("#minecraft:no_knockback"@.len() != "is_projectile"@.len());
            reveal_strlit("#minecraft:mace_smash");
            assert("#minecraft:no_knockback"@.len() != "#minecraft:mace_smash"@.len());
            reveal_strlit("minecraft:mace_smash");
            assert("#minecraft:no_knockback"@.len() != "minecraft:mace_smash"@.len());
            reveal_strlit("mace_smash");
            assert("#minecraft:no_knockback"@.len() != "mace_smash"@.len());
            reveal_strlit("#minecraft:no_anger");
            assert("#minecraft:no_knockback"@.len() != "#minecraft:no_anger"@.len());
            reveal_strlit("minecraft:no_anger");
            assert("#minecraft:no_knockback"@.len() != "minecraft:no_anger"@.len());
            reveal_strlit("no_anger");
            assert("#minecraft:no_knockback"@.len() != "no_anger"@.len());
            reveal_strlit("#minecraft:no_impact");
            assert("#minecraft:no_knockback"@.len() != "#minecraft:no_impact"@.len());
            reveal_strlit("minecraft:no_impact");
            assert("#minecraft:no_knockback"@.len() != "minecraft:no_impact"@.len());
            reveal_strlit("no_impact");
            assert("#minecraft:no_knockback"@.len() != "no_impact"@.len());
        },
        DamageResistantType::PanicCauses => {
            reveal_strlit("#minecraft:panic_causes");
            reveal_strlit("#minecraft:always_hurts_ender_dragons");
            assert("#minecraft:panic_causes"@.len() != "#minecraft:always_hurts_ender_dragons"@.len());
            reveal_strlit("minecraft:always_hurts_ender_dragons");
            assert("#minecraft:panic_causes"@.len() != "minecraft:always_hurts_ender_dragons"@.len());
            reveal_strlit("always_hurts_ender_dragons");
            assert("#minecraft:panic_causes"@.len() != "always_hurts_ender_dragons"@.len());
            reveal_strlit("#minecraft:always_kills_armor_stands");
            assert("#minecraft:panic_causes"@.len() != "#minecraft:always_kills_armor_stands"@.len());
            reveal_strlit("minecraft:always_kills_armor_stands");
            assert("#minecraft:panic_causes"@.len() != "minecraft:always_kills_armor_stands"@.len());
            reveal_strlit("always_kills_armor_stands");
            assert("#minecraft:panic_causes"@.len() != "always_kills_armor_stands"@.len());
            reveal_strlit("#minecraft:always_most_significant_fall");
            assert("#minecraft:panic_causes"@.len() != "#minecraft:always_most_significant_fall"@.len());
            reveal_strlit("minecraft:always_most_significant_fall");
            assert("#minecraft:panic_causes"@.len() != "minecraft:always_most_significant_fall"@.len());
            reveal_strlit("always_most_significant_fall");
            assert("#minecraft:panic_causes"@.len() != "always_most_significant_fall"@.len());
            reveal_strlit("#minecraft:always_triggers_silverfish");
            assert("#minecraft:panic_causes"@.len() != "#minecraft:always_triggers_silverfish"@.len());
            reveal_strlit("minecraft:always_triggers_silverfish");
            assert("#minecraft:panic_causes"@.len() != "minecraft:always_triggers_silverfish"@.len());
            reveal_strlit("always_triggers_silverfish");
            assert("#minecraft:panic_causes"@.len() != "always_triggers_silverfish"@.len());
            reveal_strlit("#minecraft:avoids_guardian_thorns");
            assert("#minecraft:panic_causes"@.len() != "#minecraft:avoids_guardian_thorns"@.len());
            reveal_strlit("minecraft:avoids_guardian_thorns");
            assert("#minecraft:panic_causes"@.len() != "minecraft:avoids_guardian_thorns"@.len());
            reveal_strlit("avoids_guardian_thorns");
            assert("#minecraft:panic_causes"@.len() != "avoids_guardian_thorns"@.len());
            reveal_strlit("#minecraft:burns_armor_stands");
            assert("#minecraft:panic_causes"@.len() != "#minecraft:burns_armor_stands"@.len());
            reveal_strlit("minecraft:burns_armor_stands");
            assert("#minecraft:panic_causes"@.len() != "minecraft:burns_armor_stands"@.len());
            reveal_strlit("burns_armor_stands");
            assert("#minecraft:panic_causes"@.len() != "burns_armor_stands"@.len());
            reveal_strlit("#minecraft:burn_from_stepping");
            assert("#minecraft:panic_causes"@.len() != "#minecraft:burn_from_stepping"@.len());
            reveal_strlit("minecraft:burn_from_stepping");
            assert("#minecraft:panic_causes"@.len() != "minecraft:burn_from_stepping"@.len());
            reveal_strlit("burn_from_stepping");
            assert("#minecraft:panic_causes"@.len() != "burn_from_stepping"@.len());
            reveal_strlit("#minecraft:bypasses_armor");
            assert("#minecraft:panic_causes"@.len() != "#minecraft:bypasses_armor"@.len());
            reveal_strlit("minecraft:bypasses_armor");
            assert("#minecraft:panic_causes"@.len() != "minecraft:bypasses_armor"@.len());
            reveal_strlit("bypasses_armor");
            assert("#minecraft:panic_causes"@.len() != "bypasses_armor"@.len());
            reveal_strlit("#minecraft:bypasses_cooldown");
            assert("#minecraft:panic_causes"@.len() != "#minecraft:bypasses_cooldown"@.len());
            reveal_strlit("minecraft:bypasses_cooldown");
            assert("#minecraft:panic_causes"@.len() != "minecraft:bypasses_cooldown"@.len());
            reveal_strlit("bypasses_cooldown");
            assert("#minecraft:panic_causes"@.len() != "bypasses_cooldown"@.len());
            reveal_strlit("#minecraft:bypasses_effects");
            assert("#minecraft:panic_causes"@.len() != "#minecraft:bypasses_effects"@.len());
            reveal_strlit("minecraft:bypasses_effects");
            assert("#minecraft:panic_causes"@.len() != "minecraft:bypasses_effects"@.len());
            reveal_strlit("bypasses_effects");
            assert("#minecraft:panic_causes"@.len() != "bypasses_effects"@.len());
            reveal_strlit("#minecraft:bypasses_enchantments");
            assert("#minecraft:panic_causes"@.len() != "#minecraft:bypasses_enchantments"@.len());
            reveal_strlit("minecraft:bypasses_enchantments");
            assert("#minecraft:panic_causes"@.len() != "minecraft:bypasses_enchantments"@.len());
            reveal_strlit("bypasses_enchantments");
            assert("#minecraft:panic_causes"@.len() != "bypasses_enchantments"@.len());
            reveal_strlit("#minecraft:bypasses_invulnerability");
            assert("#minecraft:panic_causes"@.len() != "#minecraft:bypasses_invulnerability"@.len());
            reveal_strlit("minecraft:bypasses_invulnerability");
            assert("#minecraft:panic_causes"@.len() != "minecraft:bypasses_invulnerability"@.len());
            reveal_strlit("bypasses_invulnerability");
            assert("#minecraft:panic_causes"@.len() != "bypasses_invulnerability"@.len());
            reveal_strlit("#minecraft:bypasses_resistance");
            assert("#minecraft:panic_causes"@.len() != "#minecraft:bypasses_resistance"@.len());
            reveal_strlit("minecraft:bypasses_resistance");
            assert("#minecraft:panic_causes"@.len() != "minecraft:bypasses_resistance"@.len());
            reveal_strlit("bypasses_resistance");
            assert("#minecraft:panic_causes"@.len() != "bypasses_resistance"@.len());
            reveal_strlit("#minecraft:bypasses_shield");
            assert("#minecraft:panic_causes"@.len() != "#minecraft:bypasses_shield"@.len());
            reveal_strlit("minecraft:bypasses_shield");
            assert("#minecraft:panic_causes"@.len() != "minecraft:bypasses_shield"@.len());
            reveal_strlit("bypasses_shield");
            assert("#minecraft:panic_causes"@.len() != "bypasses_shield"@.len());
            reveal_strlit("#minecraft:bypasses_wolf_armor");
            assert("#minecraft:panic_causes"@.len() != "#minecraft:bypasses_wolf_armor"@.len());
            reveal_strlit("minecraft:bypasses_wolf_armor");
            assert("#minecraft:panic_causes"@.len() != "minecraft:bypasses_wolf_armor"@.len());
            reveal_strlit("bypasses_wolf_armor");
            assert("#minecraft:panic_causes"@.len() != "bypasses_wolf_armor"@.len());
            reveal_strlit("#minecraft:can_break_armor_stand");
            assert("#minecraft:panic_causes"@.len() != "#minecraft:can_break_armor_stand"@.len());
            reveal_strlit("minecraft:can_break_armor_stand");
            assert("#minecraft:panic_causes"@.len() != "minecraft:can_break_armor_stand"@.len());
            reveal_strlit("can_break_armor_stand");
            assert("#minecraft:panic_causes"@.len() != "can_break_armor_stand"@.len());
            reveal_strlit("#minecraft:damages_helmet");
            assert("#minecraft:panic_causes"@.len() != "#minecraft:damages_helmet"@.len());
            reveal_strlit("minecraft:damages_helmet");
            assert("#minecraft:panic_causes"@.len() != "minecraft:damages_helmet"@.len());
            reveal_strlit("damages_helmet");
            assert("#minecraft:panic_causes"@.len() != "damages_helmet"@.len());
            reveal_strlit("#minecraft:ignites_armor_stands");
            assert("#minecraft:panic_causes"@.len() != "#minecraft:ignites_armor_stands"@.len());
            reveal_strlit("minecraft:ignites_armor_stands");
            assert("#minecraft:panic_causes"@.len() != "minecraft:ignites_armor_stands"@.len());
            reveal_strlit("ignites_armor_stands");
            assert("#minecraft:panic_causes"@.len() != "ignites_armor_stands"@.len());
            reveal_strlit("#minecraft:is_drowning");
            assert("#minecraft:panic_causes"@.len() != "#minecraft:is_drowning"@.len());
            reveal_strlit("minecraft:is_drowning");
            assert("#minecraft:panic_causes"@.len() != "minecraft:is_drowning"@.len());
            reveal_strlit("is_drowning");
            assert("#minecraft:panic_causes"@.len() != "is_drowning"@.len());
            reveal_strlit("#minecraft:is_explosion");
            assert("#minecraft:panic_causes"@[11] != "#minecraft:is_explosion"@[11]);
            reveal_strlit("minecraft:is_explosion");
            assert("#minecraft:panic_causes"@.len() != "minecraft:is_explosion"@.len());
            reveal_strlit("is_explosion");
            assert("#minecraft:panic_causes"@.len() != "is_explosion"@.len());
            reveal_strlit("explosion");
            assert("#minecraft:panic_causes"@.len() != "explosion"@.len());
            reveal_strlit("#minecraft:is_fall");
            assert("#minecraft:panic_causes"@.len() != "#minecraft:is_fall"@.len());
            reveal_strlit("minecraft:is_fall");
            assert("#minecraft:panic_causes"@.len() != "minecraft:is_fall"@.len());
            reveal_strlit("is_fall");
            assert("#minecraft:panic_causes"@.len() != "is_fall"@.len());
            reveal_strlit("fall");
            assert("#minecraft:panic_causes"@.len() != "fall"@.len());
            reveal_strlit("#minecraft:is_fire");
            assert("#minecraft:panic_causes"@.len() != "#minecraft:is_fire"@.len());
            reveal_strlit("minecraft:is_fire");
            assert("#minecraft:panic_causes"@.len() != "minecraft:is_fire"@.len());
            reveal_strlit("is_fire");
            assert("#minecraft:panic_causes"@.len() != "is_fire"@.len());
            reveal_strlit("fire");
            assert("#minecraft:panic_causes"@.len() != "fire"@.len());
            reveal_strlit("in_fire");
            assert("#minecraft:panic_causes"@.len() != "in_fire"@.len());
            reveal_strlit("minecraft:in_fire");
            assert("#minecraft:panic_causes"@.len() != "minecraft:in_fire"@.len());
            reveal_strlit("#minecraft:is_freezing");
            assert("#minecraft:panic_causes"@.len() != "#minecraft:is_freezing"@.len());
            reveal_strlit("minecraft:is_freezing");
            assert("#minecraft:panic_causes"@.len() != "minecraft:is_freezing"@.len());
            reveal_strlit("is_freezing");
            assert("#minecraft:panic_causes"@.len() != "is_freezing"@.len());
            reveal_strlit("#minecraft:is_lightning");
            assert("#minecraft:panic_causes"@[11] != "#minecraft:is_lightning"@[11]);
            reveal_strlit("minecraft:is_lightning");
            assert("#minecraft:panic_causes"@.len() != "minecraft:is_lightning"@.len());
            reveal_strlit("is_lightning");
            assert("#minecraft:panic_causes"@.len() != "is_lightning"@.len());
            reveal_strlit("#minecraft:is_player_attack");
            assert("#minecraft:panic_causes"@.len() != "#minecraft:is_player_attack"@.len());
            reveal_strlit("minecraft:is_player_attack");
            assert("#minecraft:panic_causes"@.len() != "minecraft:is_player_attack"@.len());
            reveal_strlit("is_player_attack");
            assert("#minecraft:panic_causes"@.len() != "is_player_attack"@.len());
            reveal_strlit("#minecraft:is_projectile");
            assert("#minecraft:panic_causes"@.len() != "#minecraft:is_projectile"@.len());
            reveal_strlit("minecraft:is_projectile");
            assert("#minecraft:panic_causes"@[0] != "minecraft:is_projectile"@[0]);
            reveal_strlit("is_projectile");
            assert("#minecraft:panic_causes"@.len() != "is_projectile"@.len());
            reveal_strlit("#minecraft:mace_smash");
            assert("#minecraft:panic_causes"@.len() != "#minecraft:mace_smash"@.len());
            reveal_strlit("minecraft:mace_smash");
            assert("#minecraft:panic_causes"@.len() != "minecraft:mace_smash"@.len());
            reveal_strlit("mace_smash");
            assert("#minecraft:panic_causes"@.len() != "mace_smash"@.len());
            reveal_strlit("#minecraft:no_anger");
            assert("#minecraft:panic_causes"@.len() != "#minecraft:no_anger"@.len());
            reveal_strlit("minecraft:no_anger");
            assert("#minecraft:panic_causes"@.len() != "minecraft:no_anger"@.len());
            reveal_strlit("no_anger");
            assert("#minecraft:panic_causes"@.len() != "no_anger"@.len());
            reveal_strlit("#minecraft:no_impact");
            assert("#minecraft:panic_causes"@.len() != "#minecraft:no_impact"@.len());
            reveal_strlit("minecraft:no_impact");
            assert("#minecraft:panic_causes"@.len() != "minecraft:no_impact"@.len());
            reveal_strlit("no_impact");
            assert("#minecraft:panic_causes"@.len() != "no_impact"@.len());
            reveal_strlit("#minecraft:no_knockback");
            assert("#minecraft:panic_causes"@[11] != "#minecraft:no_knockback"@[11]);
            reveal_strlit("minecraft:no_knockback");
            assert("#minecraft:panic_causes"@.len() != "minecraft:no_knockback"@.len());
            reveal_strlit("no_knockback");
            assert("#minecraft:panic_causes"@.len() != "no_knockback"@.len());
        },
        DamageResistantType::PanicEnvironmentalCauses => {
            reveal_strlit("#minecraft:panic_environmental_causes");
            reveal_strlit("#minecraft:always_hurts_ender_dragons");
            assert("#minecraft:panic_environmental_causes"@[11] != "#minecraft:always_hurts_ender_dragons"@[11]);
            reveal_strlit("minecraft:always_hurts_ender_dragons");
            assert("#minecraft:panic_environmental_causes"@.len() != "minecraft:always_hurts_ender_dragons"@.len());
            reveal_strlit("always_hurts_ender_dragons");
            assert("#minecraft:panic_environmental_causes"@.len() != "always_hurts_ender_dragons"@.len());
            reveal_strlit("#minecraft:always_kills_armor_stands");
            assert("#minecraft:panic_environmental_causes"@.len() != "#minecraft:always_kills_armor_stands"@.len());
            reveal_strlit("minecraft:always_kills_armor_stands");
            assert("#minecraft:panic_environmental_causes"@.len() != "minecraft:always_kills_armor_stands"@.len());
            reveal_strlit("always_kills_armor_stands");
            assert("#minecraft:panic_environmental_causes"@.len() != "always_kills_armor_stands"@.len());
            reveal_strlit("#minecraft:always_most_significant_fall");
            assert("#minecraft:panic_environmental_causes"@.len() != "#minecraft:always_most_significant_fall"@.len());
            reveal_strlit("minecraft:always_most_significant_fall");
            assert("#minecraft:panic_environmental_causes"@.len() != "minecraft:always_most_significant_fall"@.len());
            reveal_strlit("always_most_significant_fall");
            assert("#minecraft:panic_environmental_causes"@.len() != "always_most_significant_fall"@.len());
            reveal_strlit("#minecraft:always_triggers_silverfish");
            assert("#minecraft:panic_environmental_causes"@[11] != "#minecraft:always_triggers_silverfish"@[11]);
            reveal_strlit("minecraft:always_triggers_silverfish");
            assert("#minecraft:panic_environmental_causes"@.len() != "minecraft:always_triggers_silverfish"@.len());
            reveal_strlit("always_triggers_silverfish");
            assert("#minecraft:panic_environmental_causes"@.len() != "always_triggers_silverfish"@.len());
            reveal_strlit("#minecraft:avoids_guardian_thorns");
            assert("#minecraft:panic_environmental_causes"@.len() != "#minecraft:avoids_guardian_thorns"@.len());
            reveal_strlit("minecraft:avoids_guardian_thorns");
            assert("#minecraft:panic_environmental_causes"@.len() != "minecraft:avoids_guardian_thorns"@.len());
            reveal_strlit("avoids_guardian_thorns");
            assert("#minecraft:panic_environmental_causes"@.len() != "avoids_guardian_thorns"@.len());
            reveal_strlit("#minecraft:burns_armor_stands");
            assert("#minecraft:panic_environmental_causes"@.len() != "#minecraft:burns_armor_stands"@.len());
            reveal_strlit("minecraft:burns_armor_stands");
            assert("#minecraft:panic_environmental_causes"@.len() != "minecraft:burns_armor_stands"@.len());
            reveal_strlit("burns_armor_stands");
            assert("#minecraft:panic_environmental_causes"@.len() != "burns_armor_stands"@.len());
            reveal_strlit("#minecraft:burn_from_stepping");
            assert("#minecraft:panic_environmental_causes"@.len() != "#minecraft:burn_from_stepping"@.len());
            reveal_strlit("minecraft:burn_from_stepping");
            assert("#minecraft:panic_environmental_causes"@.len() != "minecraft:burn_from_stepping"@.len());
            reveal_strlit("burn_from_stepping");
            assert("#minecraft:panic_environmental_causes"@.len() != "burn_from_stepping"@.len());
            reveal_strlit("#minecraft:bypasses_armor");
            assert("#minecraft:panic_environmental_causes"@.len() != "#minecraft:bypasses_armor"@.len());
            reveal_strlit("minecraft:bypasses_armor");
            assert("#minecraft:panic_environmental_causes"@.len() != "minecraft:bypasses_armor"@.len());
            reveal_strlit("bypasses_armor");
            assert("#minecraft:panic_environmental_causes"@.len() != "bypasses_armor"@.len());
            reveal_strlit("#minecraft:bypasses_cooldown");
            assert("#minecraft:panic_environmental_causes"@.len() != "#minecraft:bypasses_cooldown"@.len());
            reveal_strlit("minecraft:bypasses_cooldown");
            assert("#minecraft:panic_environmental_causes"@.len() != "minecraft:bypasses_cooldown"@.len());
            reveal_strlit("bypasses_cooldown");
            assert("#minecraft:panic_environmental_causes"@.len() != "bypasses_cooldown"@.len());
            reveal_strlit("#minecraft:bypasses_effects");
            assert("#minecraft:panic_environmental_causes"@.len() != "#minecraft:bypasses_effects"@.len());
            reveal_strlit("minecraft:bypasses_effects");
            assert("#minecraft:panic_environmental_causes"@.len() != "minecraft:bypasses_effects"@.len());
            reveal_strlit("bypasses_effects");
            assert("#minecraft:panic_environmental_causes"@.len() != "bypasses_effects"@.len());
            reveal_strlit("#minecraft:bypasses_enchantments");
            assert("#minecraft:panic_environmental_causes"@.len() != "#minecraft:bypasses_enchantments"@.len());
            reveal_strlit("minecraft:bypasses_enchantments");
            assert("#minecraft:panic_environmental_causes"@.len() != "minecraft:bypasses_enchantments"@.len());
            reveal_strlit("bypasses_enchantments");
            assert("#minecraft:panic_environmental_causes"@.len() != "bypasses_enchantments"@.len());
            reveal_strlit("#minecraft:bypasses_invulnerability");
            assert("#minecraft:panic_environmental_causes"@.len() != "#minecraft:bypasses_invulnerability"@.len());
            reveal_strlit("minecraft:bypasses_invulnerability");
            assert("#minecraft:panic_environmental_causes"@.len() != "minecraft:bypasses_invulnerability"@.len());
            reveal_strlit("bypasses_invulnerability");
            assert("#minecraft:panic_environmental_causes"@.len() != "bypasses_invulnerability"@.len());
            reveal_strlit("#minecraft:bypasses_resistance");
            assert("#minecraft:panic_environmental_causes"@.len() != "#minecraft:bypasses_resistance"@.len());
            reveal_strlit("minecraft:bypasses_resistance");
            assert("#minecraft:panic_environmental_causes"@.len() != "minecraft:bypasses_resistance"@.len());
            reveal_strlit("bypasses_resistance");
            assert("#minecraft:panic_environmental_causes"@.len() != "bypasses_resistance"@.len());
            reveal_strlit("#minecraft:bypasses_shield");
            assert("#minecraft:panic_environmental_causes"@.len() != "#minecraft:bypasses_shield"@.len());
            reveal_strlit("minecraft:bypasses_shield");
            assert("#minecraft:panic_environmental_causes"@.len() != "minecraft:bypasses_shield"@.len());
            reveal_strlit("bypasses_shield");
            assert("#minecraft:panic_environmental_causes"@.len() != "bypasses_shield"@.len());
            reveal_strlit("#minecraft:bypasses_wolf_armor");
            assert("#minecraft:panic_environmental_causes"@.len() != "#minecraft:bypasses_wolf_armor"@.len());
            reveal_strlit("minecraft:bypasses_wolf_armor");
            assert("#minecraft:panic_environmental_causes"@.len() != "minecraft:bypasses_wolf_armor"@.len());
            reveal_strlit("bypasses_wolf_armor");
            assert("#minecraft:panic_environmental_causes"@.len() != "bypasses_wolf_armor"@.len());
            reveal_strlit("#minecraft:can_break_armor_stand");
            assert("#minecraft:panic_environmental_causes"@.len() != "#minecraft:can_break_armor_stand"@.len());
            reveal_strlit("minecraft:can_break_armor_stand");
            assert("#minecraft:panic_environmental_causes"@.len() != "minecraft:can_break_armor_stand"@.len());
            reveal_strlit("can_break_armor_stand");
            assert("#minecraft:panic_environmental_causes"@.len() != "can_break_armor_stand"@.len());
            reveal_strlit("#minecraft:damages_helmet");
            assert("#minecraft:panic_environmental_causes"@.len() != "#minecraft:damages_helmet"@.len());
            reveal_strlit("minecraft:damages_helmet");
            assert("#minecraft:panic_environmental_causes"@.len() != "minecraft:damages_helmet"@.len());
            reveal_strlit("damages_helmet");
            assert("#minecraft:panic_environmental_causes"@.len() != "damages_helmet"@.len());
            reveal_strlit("#minecraft:ignites_armor_stands");
            assert("#minecraft:panic_environmental_causes"@.len() != "#minecraft:ignites_armor_stands"@.len());
            reveal_strlit("minecraft:ignites_armor_stands");
            assert("#minecraft:panic_environmental_causes"@.len() != "minecraft:ignites_armor_stands"@.len());
            reveal_strlit("ignites_armor_stands");
            assert("#minecraft:panic_environmental_causes"@.len() != "ignites_armor_stands"@.len());
            reveal_strlit("#minecraft:is_drowning");
            assert("#minecraft:panic_environmental_causes"@.len() != "#minecraft:is_drowning"@.len());
            reveal_strlit("minecraft:is_drowning");
            assert("#minecraft:panic_environmental_causes"@.len() != "minecraft:is_drowning"@.len());
            reveal_strlit("is_drowning");
            assert("#minecraft:panic_environmental_causes"@.len() != "is_drowning"@.len());
            reveal_strlit("#minecraft:is_explosion");
            assert("#minecraft:panic_environmental_causes"@.len() != "#minecraft:is_explosion"@.len());
            reveal_strlit("minecraft:is_explosion");
            assert("#minecraft:panic_environmental_causes"@.len() != "minecraft:is_explosion"@.len());
            reveal_strlit("is_explosion");
            assert("#minecraft:panic_environmental_causes"@.len() != "is_explosion"@.len());
            reveal_strlit("explosion");
            assert("#minecraft:panic_environmental_causes"@.len() != "explosion"@.len());
            reveal_strlit("#minecraft:is_fall");
            assert("#minecraft:panic_environmental_causes"@.len() != "#minecraft:is_fall"@.len());
            reveal_strlit("minecraft:is_fall");
            assert("#minecraft:panic_environmental_causes"@.len() != "minecraft:is_fall"@.len());
            reveal_strlit("is_fall");
            assert("#minecraft:panic_environmental_causes"@.len() != "is_fall"@.len());
            reveal_strlit("fall");
            assert("#minecraft:panic_environmental_causes"@.len() != "fall"@.len());
            reveal_strlit("#minecraft:is_fire");
            assert("#minecraft:panic_environmental_causes"@.len() != "#minecraft:is_fire"@.len());
            reveal_strlit("minecraft:is_fire");
            assert("#minecraft:panic_environmental_causes"@.len() != "minecraft:is_fire"@.len());
            reveal_strlit("is_fire");
            assert("#minecraft:panic_environmental_causes"@.len() != "is_fire"@.len());
            reveal_strlit("fire");
            assert("#minecraft:panic_environmental_causes"@.len() != "fire"@.len());
            reveal_strlit("in_fire");
            assert("#minecraft:panic_environmental_causes"@.len() != "in_fire"@.len());
            reveal_strlit("minecraft:in_fire");
            assert("#minecraft:panic_environmental_causes"@.len() != "minecraft:in_fire"@.len());
            reveal_strlit("#minecraft:is_freezing");
            assert("#minecraft:panic_environmental_causes"@.len() != "#minecraft:is_freezing"@.len());
            reveal_strlit("minecraft:is_freezing");
            assert("#minecraft:panic_environmental_causes"@.len() != "minecraft:is_freezing"@.len());
            reveal_strlit("is_freezing");
            assert("#minecraft:panic_environmental_causes"@.len() != "is_freezing"@.len());
            reveal_strlit("#minecraft:is_lightning");
            assert("#minecraft:panic_environmental_causes"@.len() != "#minecraft:is_lightning"@.len());
            reveal_strlit("minecraft:is_lightning");
            assert("#minecraft:panic_environmental_causes"@.len() != "minecraft:is_lightning"@.len());
            reveal_strlit("is_lightning");
            assert("#minecraft:panic_environmental_causes"@.len() != "is_lightning"@.len());
            reveal_strlit("#minecraft:is_player_attack");
            assert("#minecraft:panic_environmental_causes"@.len() != "#minecraft:is_player_attack"@.len());
            reveal_strlit("minecraft:is_player_attack");
            assert("#minecraft:panic_environmental_causes"@.len() != "minecraft:is_player_attack"@.len());
            reveal_strlit("is_player_attack");
            assert("#minecraft:panic_environmental_causes"@.len() != "is_player_attack"@.len());
            reveal_strlit("#minecraft:is_projectile");
            assert("#minecraft:panic_environmental_causes"@.len() != "#minecraft:is_projectile"@.len());
            reveal_strlit("minecraft:is_projectile");
            assert("#minecraft:panic_environmental_causes"@.len() != "minecraft:is_projectile"@.len());
            reveal_strlit("is_projectile");
            assert("#minecraft:panic_environmental_causes"@.len() != "is_projectile"@.len());
            reveal_strlit("#minecraft:mace_smash");
            assert("#minecraft:panic_environmental_causes"@.len() != "#minecraft:mace_smash"@.len());
            reveal_strlit("minecraft:mace_smash");
            assert("#minecraft:panic_environmental_causes"@.len() != "minecraft:mace_smash"@.len());
            reveal_strlit("mace_smash");
            assert("#minecraft:panic_environmental_causes"@.len() != "mace_smash"@.len());
            reveal_strlit("#minecraft:no_anger");
            assert("#minecraft:panic_environmental_causes"@.len() != "#minecraft:no_anger"@.len());
            reveal_strlit("minecraft:no_anger");
            assert("#minecraft:panic_environmental_causes"@.len() != "minecraft:no_anger"@.len());
            reveal_strlit("no_anger");
            assert("#minecraft:panic_environmental_causes"@.len() != "no_anger"@.len());
            reveal_strlit("#minecraft:no_impact");
            assert("#minecraft:panic_environmental_causes"@.len() != "#minecraft:no_impact"@.len());
            reveal_strlit("minecraft:no_impact");
            assert("#minecraft:panic_environmental_causes"@.len() != "minecraft:no_impact"@.len());
            reveal_strlit("no_impact");
            assert("#minecraft:panic_environmental_causes"@.len() != "no_impact"@.len());
            reveal_strlit("#minecraft:no_knockback");
            assert("#minecraft:panic_environmental_causes"@.len() != "#minecraft:no_knockback"@.len());
            reveal_strlit("minecraft:no_knockback");
            assert("#minecraft:panic_environmental_causes"@.len() != "minecraft:no_knockback"@.len());
            reveal_strlit("no_knockback");
            assert("#minecraft:panic_environmental_causes"@.len() != "no_knockback"@.len());
            reveal_strlit("#minecraft:panic_causes");
            assert("#minecraft:panic_environmental_causes"@.len() != "#minecraft:panic_causes"@.len());
            reveal_strlit("minecraft:panic_causes");
            assert("#minecraft:panic_environmental_causes"@.len() != "minecraft:panic_causes"@.len());
            reveal_strlit("panic_causes");
            assert("#minecraft:panic_environmental_causes"@.len() != "panic_causes"@.len());
        },
        DamageResistantType::WitchResistantTo => {
            reveal_strlit("#minecraft:witch_resistant_to");
            reveal_strlit("#minecraft:always_hurts_ender_dragons");
            assert("#minecraft:witch_resistant_to"@.len() != "#minecraft:always_hurts_ender_dragons"@.len());
            reveal_strlit("minecraft:always_hurts_ender_dragons");
            assert("#minecraft:witch_resistant_to"@.len() != "minecraft:always_hurts_ender_dragons"@.len());
            reveal_strlit("always_hurts_ender_dragons");
            assert("#minecraft:witch_resistant_to"@.len() != "always_hurts_ender_dragons"@.len());
            reveal_strlit("#minecraft:always_kills_armor_stands");
            assert("#minecraft:witch_resistant_to"@.len() != "#minecraft:always_kills_armor_stands"@.len());
            reveal_strlit("minecraft:always_kills_armor_stands");
            assert("#minecraft:witch_resistant_to"@.len() != "minecraft:always_kills_armor_stands"@.len());
            reveal_strlit("always_kills_armor_stands");
            assert("#minecraft:witch_resistant_to"@.len() != "always_kills_armor_stands"@.len());
            reveal_strlit("#minecraft:always_most_significant_fall");
            assert("#minecraft:witch_resistant_to"@.len() != "#minecraft:always_most_significant_fall"@.len());
            reveal_strlit("minecraft:always_most_significant_fall");
            assert("#minecraft:witch_resistant_to"@.len() != "minecraft:always_most_significant_fall"@.len());
            reveal_strlit("always_most_significant_fall");
            assert("#minecraft:witch_resistant_to"@.len() != "always_most_significant_fall"@.len());
            reveal_strlit("#minecraft:always_triggers_silverfish");
            assert("#minecraft:witch_resistant_to"@.len() != "#minecraft:always_triggers_silverfish"@.len());
            reveal_strlit("minecraft:always_triggers_silverfish");
            assert("#minecraft:witch_resistant_to"@.len() != "minecraft:always_triggers_silverfish"@.len());
            reveal_strlit("always_triggers_silverfish");
            assert("#minecraft:witch_resistant_to"@.len() != "always_triggers_silverfish"@.len());
            reveal_strlit("#minecraft:avoids_guardian_thorns");
            assert("#minecraft:witch_resistant_to"@.len() != "#minecraft:avoids_guardian_thorns"@.len());
            reveal_strlit("minecraft:avoids_guardian_thorns");
            assert("#minecraft:witch_resistant_to"@.len() != "minecraft:avoids_guardian_thorns"@.len());
            reveal_strlit("avoids_guardian_thorns");
            assert("#minecraft:witch_resistant_to"@.len() != "avoids_guardian_thorns"@.len());
            reveal_strlit("#minecraft:burns_armor_stands");
            assert("#minecraft:witch_resistant_to"@[11] != "#minecraft:burns_armor_stands"@[11]);
            reveal_strlit("minecraft:burns_armor_stands");
            assert("#minecraft:witch_resistant_to"@.len() != "minecraft:burns_armor_stands"@.len());
            reveal_strlit("burns_armor_stands");
            assert("#minecraft:witch_resistant_to"@.len() != "burns_armor_stands"@.len());
            reveal_strlit("#minecraft:burn_from_stepping");
            assert("#minecraft:witch_resistant_to"@[11] != "#minecraft:burn_from_stepping"@[11]);
            reveal_strlit("minecraft:burn_from_stepping");
            assert("#minecraft:witch_resistant_to"@.len() != "minecraft:burn_from_stepping"@.len());
            reveal_strlit("burn_from_stepping");
            assert("#minecraft:witch_resistant_to"@.len() != "burn_from_stepping"@.len());
            reveal_strlit("#minecraft:bypasses_armor");
            assert("#minecraft:witch_resistant_to"@.len() != "#minecraft:bypasses_armor"@.len());
            reveal_strlit("minecraft:bypasses_armor");
            assert("#minecraft:witch_resistant_to"@.len() != "minecraft:bypasses_armor"@.len());
            reveal_strlit("bypasses_armor");
            assert("#minecraft:witch_resistant_to"@.len() != "bypasses_armor"@.len());
            reveal_strlit("#minecraft:bypasses_cooldown");
            assert("#minecraft:witch_resistant_to"@.len() != "#minecraft:bypasses_cooldown"@.len());
            reveal_strlit("minecraft:bypasses_cooldown");
            assert("#minecraft:witch_resistant_to"@.len() != "minecraft:bypasses_cooldown"@.len());
            reveal_strlit("bypasses_cooldown");
            assert("#minecraft:witch_resistant_to"@.len() != "bypasses_cooldown"@.len());
            reveal_strlit("#minecraft:bypasses_effects");
            assert("#minecraft:witch_resistant_to"@.len() != "#minecraft:bypasses_effects"@.len());
            reveal_strlit("minecraft:bypasses_effects");
            assert("#minecraft:witch_resistant_to"@.len() != "minecraft:bypasses_effects"@.len());
            reveal_strlit("bypasses_effects");
            assert("#minecraft:witch_resistant_to"@.len() != "bypasses_effects"@.len());
            reveal_strlit("#minecraft:bypasses_enchantments");
            assert("#minecraft:witch_resistant_to"@.len() != "#minecraft:bypasses_enchantments"@.len());
            reveal_strlit("minecraft:bypasses_enchantments");
            assert("#minecraft:witch_resistant_to"@.len() != "minecraft:bypasses_enchantments"@.len());
            reveal_strlit("bypasses_enchantments");
            assert("#minecraft:witch_resistant_to"@.len() != "bypasses_enchantments"@.len());
            reveal_strlit("#minecraft:bypasses_invulnerability");
            assert("#minecraft:witch_resistant_to"@.len() != "#minecraft:bypasses_invulnerability"@.len());
            reveal_strlit("minecraft:bypasses_invulnerability");
            assert("#minecraft:witch_resistant_to"@.len() != "minecraft:bypasses_invulnerability"@.len());
            reveal_strlit("bypasses_invulnerability");
            assert("#minecraft:witch_resistant_to"@.len() != "bypasses_invulnerability"@.len());
            reveal_strlit("#minecraft:bypasses_resistance");
            assert("#minecraft:witch_resistant_to"@.len() != "#minecraft:bypasses_resistance"@.len());
            reveal_strlit("minecraft:bypasses_resistance");
            assert("#minecraft:witch_resistant_to"@[0] != "minecraft:bypasses_resistance"@[0]);
            reveal_strlit("bypasses_resistance");
            assert("#minecraft:witch_resistant_to"@.len() != "bypasses_resistance"@.len());
            reveal_strlit("#minecraft:bypasses_shield");
            assert("#minecraft:witch_resistant_to"@.len() != "#minecraft:bypasses_shield"@.len());
            reveal_strlit("minecraft:bypasses_shield");
            assert("#minecraft:witch_resistant_to"@.len() != "minecraft:bypasses_shield"@.len());
            reveal_strlit("bypasses_shield");
            assert("#minecraft:witch_resistant_to"@.len() != "bypasses_shield"@.len());
            reveal_strlit("#minecraft:bypasses_wolf_armor");
            assert("#minecraft:witch_resistant_to"@.len() != "#minecraft:bypasses_wolf_armor"@.len());
            reveal_strlit("minecraft:bypasses_wolf_armor");
            assert("#minecraft:witch_resistant_to"@[0] != "minecraft:bypasses_wolf_armor"@[0]);
            reveal_strlit("bypasses_wolf_armor");
            assert("#minecraft:witch_resistant_to"@.len() != "bypasses_wolf_armor"@.len());
            reveal_strlit("#minecraft:can_break_armor_stand");
            assert("#minecraft:witch_resistant_to"@.len() != "#minecraft:can_break_armor_stand"@.len());
            reveal_strlit("minecraft:can_break_armor_stand");
            assert("#minecraft:witch_resistant_to"@.len() != "minecraft:can_break_armor_stand"@.len());
            reveal_strlit("can_break_armor_stand");
            assert("#minecraft:witch_resistant_to"@.len() != "can_break_armor_stand"@.len());
            reveal_strlit("#minecraft:damages_helmet");
            assert("#minecraft:witch_resistant_to"@.len() != "#minecraft:damages_helmet"@.len());
            reveal_strlit("minecraft:damages_helmet");
            assert("#minecraft:witch_resistant_to"@.len() != "minecraft:damages_helmet"@.len());
            reveal_strlit("damages_helmet");
            assert("#minecraft:witch_resistant_to"@.len() != "damages_helmet"@.len());
            reveal_strlit("#minecraft:ignites_armor_stands");
            assert("#minecraft:witch_resistant_to"@.len() != "#minecraft:ignites_armor_stands"@.len());
            reveal_strlit("minecraft:ignites_armor_stands");
            assert("#minecraft:witch_resistant_to"@.len() != "minecraft:ignites_armor_stands"@.len());
            reveal_strlit("ignites_armor_stands");
            assert("#minecraft:witch_resistant_to"@.len() != "ignites_armor_stands"@.len());
            reveal_strlit("#minecraft:is_drowning");
            assert("#minecraft:witch_resistant_to"@.len() != "#minecraft:is_drowning"@.len());
            reveal_strlit("minecraft:is_drowning");
            assert("#minecraft:witch_resistant_to"@.len() != "minecraft:is_drowning"@.len());
            reveal_strlit("is_drowning");
            assert("#minecraft:witch_resistant_to"@.len() != "is_drowning"@.len());
            reveal_strlit("#minecraft:is_explosion");
            assert("#minecraft:witch_resistant_to"@.len() != "#minecraft:is_explosion"@.len());
            reveal_strlit("minecraft:is_explosion");
            assert("#minecraft:witch_resistant_to"@.len() != "minecraft:is_explosion"@.len());
            reveal_strlit("is_explosion");
            assert("#minecraft:witch_resistant_to"@.len() != "is_explosion"@.len());
            reveal_strlit("explosion");
            assert("#minecraft:witch_resistant_to"@.len() != "explosion"@.len());
            reveal_strlit("#minecraft:is_fall");
            assert("#minecraft:witch_resistant_to"@.len() != "#minecraft:is_fall"@.len());
            reveal_strlit("minecraft:is_fall");
            assert("#minecraft:witch_resistant_to"@.len() != "minecraft:is_fall"@.len());
            reveal_strlit("is_fall");
            assert("#minecraft:witch_resistant_to"@.len() != "is_fall"@.len());
            reveal_strlit("fall");
            assert("#minecraft:witch_resistant_to"@.len() != "fall"@.len());
            reveal_strlit("#minecraft:is_fire");
            assert("#minecraft:witch_resistant_to"@.len() != "#minecraft:is_fire"@.len());
            reveal_strlit("minecraft:is_fire");
            assert("#minecraft:witch_resistant_to"@.len() != "minecraft:is_fire"@.len());
            reveal_strlit("is_fire");
            assert("#minecraft:witch_resistant_to"@.len() != "is_fire"@.len());
            reveal_strlit("fire");
            assert("#minecraft:witch_resistant_to"@.len() != "fire"@.len());
            reveal_strlit("in_fire");
            assert("#minecraft:witch_resistant_to"@.len() != "in_fire"@.len());
            reveal_strlit("minecraft:in_fire");
            assert("#minecraft:witch_resistant_to"@.len() != "minecraft:in_fire"@.len());
            reveal_strlit("#minecraft:is_freezing");
            assert("#minecraft:witch_resistant_to"@.len() != "#minecraft:is_freezing"@.len());
            reveal_strlit("minecraft:is_freezing");
            assert("#minecraft:witch_resistant_to"@.len() != "minecraft:is_freezing"@.len());
            reveal_strlit("is_freezing");
            assert("#minecraft:witch_resistant_to"@.len() != "is_freezing"@.len());
            reveal_strlit("#minecraft:is_lightning");
            assert("#minecraft:witch_resistant_to"@.len() != "#minecraft:is_lightning"@.len());
            reveal_strlit("minecraft:is_lightning");
            assert("#minecraft:witch_resistant_to"@.len() != "minecraft:is_lightning"@.len());
            reveal_strlit("is_lightning");
            assert("#minecraft:witch_resistant_to"@.len() != "is_lightning"@.len());
            reveal_strlit("#minecraft:is_player_attack");
            assert("#minecraft:witch_resistant_to"@.len() != "#minecraft:is_player_attack"@.len());
            reveal_strlit("minecraft:is_player_attack");
            assert("#minecraft:witch_resistant_to"@.len() != "minecraft:is_player_attack"@.len());
            reveal_strlit("is_player_attack");
            assert("#minecraft:witch_resistant_to"@.len() != "is_player_attack"@.len());
            reveal_strlit("#minecraft:is_projectile");
            assert("#minecraft:witch_resistant_to"@.len() != "#minecraft:is_projectile"@.len());
            reveal_strlit("minecraft:is_projectile");
            assert("#minecraft:witch_resistant_to"@.len() != "minecraft:is_projectile"@.len());
            reveal_strlit("is_projectile");
            assert("#minecraft:witch_resistant_to"@.len() != "is_projectile"@.len());
            reveal_strlit("#minecraft:mace_smash");
            assert("#minecraft:witch_resistant_to"@.len() != "#minecraft:mace_smash"@.len());
            reveal_strlit("minecraft:mace_smash");
            assert("#minecraft:witch_resistant_to"@.len() != "minecraft:mace_smash"@.len());
            reveal_strlit("mace_smash");
            assert("#minecraft:witch_resistant_to"@.len() != "mace_smash"@.len());
            reveal_strlit("#minecraft:no_anger");
            assert("#minecraft:witch_resistant_to"@.len() != "#minecraft:no_anger"@.len());
            reveal_strlit("minecraft:no_anger");
            assert("#minecraft:witch_resistant_to"@.len() != "minecraft:no_anger"@.len());
            reveal_strlit("no_anger");
            assert("#minecraft:witch_resistant_to"@.len() != "no_anger"@.len());
            reveal_strlit("#minecraft:no_impact");
            assert("#minecraft:witch_resistant_to"@.len() != "#minecraft:no_impact"@.len());
            reveal_strlit("minecraft:no_impact");
            assert("#minecraft:witch_resistant_to"@.len() != "minecraft:no_impact"@.len());
            reveal_strlit("no_impact");
            assert("#minecraft:witch_resistant_to"@.len() != "no_impact"@.len());
            reveal_strlit("#minecraft:no_knockback");
            assert("#minecraft:witch_resistant_to"@.len() != "#minecraft:no_knockback"@.len());
            reveal_strlit("minecraft:no_knockback");
            assert("#minecraft:witch_resistant_to"@.len() != "minecraft:no_knockback"@.len());
            reveal_strlit("no_knockback");
            assert("#minecraft:witch_resistant_to"@.len() != "no_knockback"@.len());
            reveal_strlit("#minecraft:panic_causes");
            assert("#minecraft:witch_resistant_to"@.len() != "#minecraft:panic_causes"@.len());
            reveal_strlit("minecraft:panic_causes");
            assert("#minecraft:witch_resistant_to"@.len() != "minecraft:panic_causes"@.len());
            reveal_strlit("panic_causes");
            assert("#minecraft:witch_resistant_to"@.len() != "panic_causes"@.len());
            reveal_strlit("#minecraft:panic_environmental_causes");
            assert("#minecraft:witch_resistant_to"@.len() != "#minecraft:panic_environmental_causes"@.len());
            reveal_strlit("minecraft:panic_environmental_causes");
            assert("#minecraft:witch_resistant_to"@.len() != "minecraft:panic_environmental_causes"@.len());
            reveal_strlit("panic_environmental_causes");
            assert("#minecraft:witch_resistant_to"@.len() != "panic_environmental_causes"@.len());
        },
        DamageResistantType::WitherImmuneTo => {
            reveal_strlit("#minecraft:wither_immune_to");
            reveal_strlit("#minecraft:always_hurts_ender_dragons");
            assert("#minecraft:wither_immune_to"@.len() != "#minecraft:always_hurts_ender_dragons"@.len());
            reveal_strlit("minecraft:always_hurts_ender_dragons");
            assert("#minecraft:wither_immune_to"@.len() != "minecraft:always_hurts_ender_dragons"@.len());
            reveal_strlit("always_hurts_ender_dragons");
            assert("#minecraft:wither_immune_to"@.len() != "always_hurts_ender_dragons"@.len());
            reveal_strlit("#minecraft:always_kills_armor_stands");
            assert("#minecraft:wither_immune_to"@.len() != "#minecraft:always_kills_armor_stands"@.len());
            reveal_strlit("minecraft:always_kills_armor_stands");
            assert("#minecraft:wither_immune_to"@.len() != "minecraft:always_kills_armor_stands"@.len());
            reveal_strlit("always_kills_armor_stands");
            assert("#minecraft:wither_immune_to"@.len() != "always_kills_armor_stands"@.len());
            reveal_strlit("#minecraft:always_most_significant_fall");
            assert("#minecraft:wither_immune_to"@.len() != "#minecraft:always_most_significant_fall"@.len());
            reveal_strlit("minecraft:always_most_significant_fall");
            assert("#minecraft:wither_immune_to"@.len() != "minecraft:always_most_significant_fall"@.len());
            reveal_strlit("always_most_significant_fall");
            assert("#minecraft:wither_immune_to"@.len() != "always_most_significant_fall"@.len());
            reveal_strlit("#minecraft:always_triggers_silverfish");
            assert("#minecraft:wither_immune_to"@.len() != "#minecraft:always_triggers_silverfish"@.len());
            reveal_strlit("minecraft:always_triggers_silverfish");
            assert("#minecraft:wither_immune_to"@.len() != "minecraft:always_triggers_silverfish"@.len());
            reveal_strlit("always_triggers_silverfish");
            assert("#minecraft:wither_immune_to"@.len() != "always_triggers_silverfish"@.len());
            reveal_strlit("#minecraft:avoids_guardian_thorns");
            assert("#minecraft:wither_immune_to"@.len() != "#minecraft:avoids_guardian_thorns"@.len());
            reveal_strlit("minecraft:avoids_guardian_thorns");
            assert("#minecraft:wither_immune_to"@.len() != "minecraft:avoids_guardian_thorns"@.len());
            reveal_strlit("avoids_guardian_thorns");
            assert("#minecraft:wither_immune_to"@.len() != "avoids_guardian_thorns"@.len());
            reveal_strlit("#minecraft:burns_armor_stands");
            assert("#minecraft:wither_immune_to"@.len() != "#minecraft:burns_armor_stands"@.len());
            reveal_strlit("minecraft:burns_armor_stands");
            assert("#minecraft:wither_immune_to"@.len() != "minecraft:burns_armor_stands"@.len());
            reveal_strlit("burns_armor_stands");
            assert("#minecraft:wither_immune_to"@.len() != "burns_armor_stands"@.len());
            reveal_strlit("#minecraft:burn_from_stepping");
            assert("#minecraft:wither_immune_to"@.len() != "#minecraft:burn_from_stepping"@.len());
            reveal_strlit("minecraft:burn_from_stepping");
            assert("#minecraft:wither_immune_to"@.len() != "minecraft:burn_from_stepping"@.len());
            reveal_strlit("burn_from_stepping");
            assert("#minecraft:wither_immune_to"@.len() != "burn_from_stepping"@.len());
            reveal_strlit("#minecraft:bypasses_armor");
            assert("#minecraft:wither_immune_to"@.len() != "#minecraft:bypasses_armor"@.len());
            reveal_strlit("minecraft:bypasses_armor");
            assert("#minecraft:wither_immune_to"@.len() != "minecraft:bypasses_armor"@.len());
            reveal_strlit("bypasses_armor");
            assert("#minecraft:wither_immune_to"@.len() != "bypasses_armor"@.len());
            reveal_strlit("#minecraft:bypasses_cooldown");
            assert("#minecraft:wither_immune_to"@.len() != "#minecraft:bypasses_cooldown"@.len());
            reveal_strlit("minecraft:bypasses_cooldown");
            assert("#minecraft:wither_immune_to"@[0] != "minecraft:bypasses_cooldown"@[0]);
            reveal_strlit("bypasses_cooldown");
            assert("#minecraft:wither_immune_to"@.len() != "bypasses_cooldown"@.len());
            reveal_strlit("#minecraft:bypasses_effects");
            assert("#minecraft:wither_immune_to"@[11] != "#minecraft:bypasses_effects"@[11]);
            reveal_strlit("minecraft:bypasses_effects");
            assert("#minecraft:wither_immune_to"@.len() != "minecraft:bypasses_effects"@.len());
            reveal_strlit("bypasses_effects");
            assert("#minecraft:wither_immune_to"@.len() != "bypasses_effects"@.len());
            reveal_strlit("#minecraft:bypasses_enchantments");
            assert("#minecraft:wither_immune_to"@.len() != "#minecraft:bypasses_enchantments"@.len());
            reveal_strlit("minecraft:bypasses_enchantments");
            assert("#minecraft:wither_immune_to"@.len() != "minecraft:bypasses_enchantments"@.len());
            reveal_strlit("bypasses_enchantments");
            assert("#minecraft:wither_immune_to"@.len() != "bypasses_enchantments"@.len());
            reveal_strlit("#minecraft:bypasses_invulnerability");
            assert("#minecraft:wither_immune_to"@.len() != "#minecraft:bypasses_invulnerability"@.len());
            reveal_strlit("minecraft:bypasses_invulnerability");
            assert("#minecraft:wither_immune_to"@.len() != "minecraft:bypasses_invulnerability"@.len());
            reveal_strlit("bypasses_invulnerability");
            assert("#minecraft:wither_immune_to"@.len() != "bypasses_invulnerability"@.len());
            reveal_strlit("#minecraft:bypasses_resistance");
            assert("#minecraft:wither_immune_to"@.len() != "#minecraft:bypasses_resistance"@.len());
            reveal_strlit("minecraft:bypasses_resistance");
            assert("#minecraft:wither_immune_to"@.len() != "minecraft:bypasses_resistance"@.len());
            reveal_strlit("bypasses_resistance");
            assert("#minecraft:wither_immune_to"@.len() != "bypasses_resistance"@.len());
            reveal_strlit("#minecraft:bypasses_shield");
            assert("#minecraft:wither_immune_to"@.len() != "#minecraft:bypasses_shield"@.len());
            reveal_strlit("minecraft:bypasses_shield");
            assert("#minecraft:wither_immune_to"@.len() != "minecraft:bypasses_shield"@.len());
            reveal_strlit("bypasses_shield");
            assert("#minecraft:wither_immune_to"@.len() != "bypasses_shield"@.len());
            reveal_strlit("#minecraft:bypasses_wolf_armor");
            assert("#minecraft:wither_immune_to"@.len() != "#minecraft:bypasses_wolf_armor"@.len());
            reveal_strlit("minecraft:bypasses_wolf_armor");
            assert("#minecraft:wither_immune_to"@.len() != "minecraft:bypasses_wolf_armor"@.len());
            reveal_strlit("bypasses_wolf_armor");
            assert("#minecraft:wither_immune_to"@.len() != "bypasses_wolf_armor"@.len());
            reveal_strlit("#minecraft:can_break_armor_stand");
            assert("#minecraft:wither_immune_to"@.len() != "#minecraft:can_break_armor_stand"@.len());
            reveal_strlit("minecraft:can_break_armor_stand");
            assert("#minecraft:wither_immune_to"@.len() != "minecraft:can_break_armor_stand"@.len());
            reveal_strlit("can_break_armor_stand");
            assert("#minecraft:wither_immune_to"@.len() != "can_break_armor_stand"@.len());
            reveal_strlit("#minecraft:damages_helmet");
            assert("#minecraft:wither_immune_to"@.len() != "#minecraft:damages_helmet"@.len());
            reveal_strlit("minecraft:damages_helmet");
            assert("#minecraft:wither_immune_to"@.len() != "minecraft:damages_helmet"@.len());
            reveal_strlit("damages_helmet");
            assert("#minecraft:wither_immune_to"@.len() != "damages_helmet"@.len());
            reveal_strlit("#minecraft:ignites_armor_stands");
            assert("#minecraft:wither_immune_to"@.len() != "#minecraft:ignites_armor_stands"@.len());
            reveal_strlit("minecraft:ignites_armor_stands");
            assert("#minecraft:wither_immune_to"@.len() != "minecraft:ignites_armor_stands"@.len());
            reveal_strlit("ignites_armor_stands");
            assert("#minecraft:wither_immune_to"@.len() != "ignites_armor_stands"@.len());
            reveal_strlit("#minecraft:is_drowning");
            assert("#minecraft:wither_immune_to"@.len() != "#minecraft:is_drowning"@.len());
            reveal_strlit("minecraft:is_drowning");
            assert("#minecraft:wither_immune_to"@.len() != "minecraft:is_drowning"@.len());
            reveal_strlit("is_drowning");
            assert("#minecraft:wither_immune_to"@.len() != "is_drowning"@.len());
            reveal_strlit("#minecraft:is_explosion");
            assert("#minecraft:wither_immune_to"@.len() != "#minecraft:is_explosion"@.len());
            reveal_strlit("minecraft:is_explosion");
            assert("#minecraft:wither_immune_to"@.len() != "minecraft:is_explosion"@.len());
            reveal_strlit("is_explosion");
            assert("#minecraft:wither_immune_to"@.len() != "is_explosion"@.len());
            reveal_strlit("explosion");
            assert("#minecraft:wither_immune_to"@.len() != "explosion"@.len());
            reveal_strlit("#minecraft:is_fall");
            assert("#minecraft:wither_immune_to"@.len() != "#minecraft:is_fall"@.len());
            reveal_strlit("minecraft:is_fall");
            assert("#minecraft:wither_immune_to"@.len() != "minecraft:is_fall"@.len());
            reveal_strlit("is_fall");
            assert("#minecraft:wither_immune_to"@.len() != "is_fall"@.len());
            reveal_strlit("fall");
            assert("#minecraft:wither_immune_to"@.len() != "fall"@.len());
            reveal_strlit("#minecraft:is_fire");
            assert("#minecraft:wither_immune_to"@.len() != "#minecraft:is_fire"@.len());
            reveal_strlit("minecraft:is_fire");
            assert("#minecraft:wither_immune_to"@.len() != "minecraft:is_fire"@.len());
            reveal_strlit("is_fire");
            assert("#minecraft:wither_immune_to"@.len() != "is_fire"@.len());
            reveal_strlit("fire");
            assert("#minecraft:wither_immune_to"@.len() != "fire"@.len());
            reveal_strlit("in_fire");
            assert("#minecraft:wither_immune_to"@.len() != "in_fire"@.len());
            reveal_strlit("minecraft:in_fire");
            assert("#minecraft:wither_immune_to"@.len() != "minecraft:in_fire"@.len());
            reveal_strlit("#minecraft:is_freezing");
            assert("#minecraft:wither_immune_to"@.len() != "#minecraft:is_freezing"@.len());
            reveal_strlit("minecraft:is_freezing");
            assert("#minecraft:wither_immune_to"@.len() != "minecraft:is_freezing"@.len());
            reveal_strlit("is_freezing");
            assert("#minecraft:wither_immune_to"@.len() != "is_freezing"@.len());
            reveal_strlit("#minecraft:is_lightning");
            assert("#minecraft:wither_immune_to"@.len() != "#minecraft:is_lightning"@.len());
            reveal_strlit("minecraft:is_lightning");
            assert("#minecraft:wither_immune_to"@.len() != "minecraft:is_lightning"@.len());
            reveal_strlit("is_lightning");
            assert("#minecraft:wither_immune_to"@.len() != "is_lightning"@.len());
            reveal_strlit("#minecraft:is_player_attack");
            assert("#minecraft:wither_immune_to"@[11] != "#minecraft:is_player_attack"@[11]);
            reveal_strlit("minecraft:is_player_attack");
            assert("#minecraft:wither_immune_to"@.len() != "minecraft:is_player_attack"@.len());
            reveal_strlit("is_player_attack");
            assert("#minecraft:wither_immune_to"@.len() != "is_player_attack"@.len());
            reveal_strlit("#minecraft:is_projectile");
            assert("#minecraft:wither_immune_to"@.len() != "#minecraft:is_projectile"@.len());
            reveal_strlit("minecraft:is_projectile");
            assert("#minecraft:wither_immune_to"@.len() != "minecraft:is_projectile"@.len());
            reveal_strlit("is_projectile");
            assert("#minecraft:wither_immune_to"@.len() != "is_projectile"@.len());
            reveal_strlit("#minecraft:mace_smash");
            assert("#minecraft:wither_immune_to"@.len() != "#minecraft:mace_smash"@.len());
            reveal_strlit("minecraft:mace_smash");
            assert("#minecraft:wither_immune_to"@.len() != "minecraft:mace_smash"@.len());
            reveal_strlit("mace_smash");
            assert("#minecraft:wither_immune_to"@.len() != "mace_smash"@.len());
            reveal_strlit("#minecraft:no_anger");
            assert("#minecraft:wither_immune_to"@.len() != "#minecraft:no_anger"@.len());
            reveal_strlit("minecraft:no_anger");
            assert("#minecraft:wither_immune_to"@.len() != "minecraft:no_anger"@.len());
            reveal_strlit("no_anger");
            assert("#minecraft:wither_immune_to"@.len() != "no_anger"@.len());
            reveal_strlit("#minecraft:no_impact");
            assert("#minecraft:wither_immune_to"@.len() != "#minecraft:no_impact"@.len());
            reveal_strlit("minecraft:no_impact");
            assert("#minecraft:wither_immune_to"@.len() != "minecraft:no_impact"@.len());
            reveal_strlit("no_impact");
            assert("#minecraft:wither_immune_to"@.len() != "no_impact"@.len());
            reveal_strlit("#minecraft:no_knockback");
            assert("#minecraft:wither_immune_to"@.len() != "#minecraft:no_knockback"@.len());
            reveal_strlit("minecraft:no_knockback");
            assert("#minecraft:wither_immune_to"@.len() != "minecraft:no_knockback"@.len());
            reveal_strlit("no_knockback");
            assert("#minecraft:wither_immune_to"@.len() != "no_knockback"@.len());
            reveal_strlit("#minecraft:panic_causes");
            assert("#minecraft:wither_immune_to"@.len() != "#minecraft:panic_causes"@.len());
            reveal_strlit("minecraft:panic_causes");
            assert("#minecraft:wither_immune_to"@.len() != "minecraft:panic_causes"@.len());
            reveal_strlit("panic_causes");
            assert("#minecraft:wither_immune_to"@.len() != "panic_causes"@.len());
            reveal_strlit("#minecraft:panic_environmental_causes");
            assert("#minecraft:wither_immune_to"@.len() != "#minecraft:panic_environmental_causes"@.len());
            reveal_strlit("minecraft:panic_environmental_causes");
            assert("#minecraft:wither_immune_to"@.len() != "minecraft:panic_environmental_causes"@.len());
            reveal_strlit("panic_environmental_causes");
            assert("#minecraft:wither_immune_to"@.len() != "panic_environmental_causes"@.len());
            reveal_strlit("#minecraft:witch_resistant_to");
            assert("#minecraft:wither_immune_to"@.len() != "#minecraft:witch_resistant_to"@.len());
            reveal_strlit("minecraft:witch_resistant_to");
            assert("#minecraft:wither_immune_to"@.len() != "minecraft:witch_resistant_to"@.len());
            reveal_strlit("witch_resistant_to");
            assert("#minecraft:wither_immune_to"@.len() != "witch_resistant_to"@.len());
        },
        DamageResistantType::Generic => {
            reveal_strlit("minecraft:generic");
            reveal_strlit("#minecraft:always_hurts_ender_dragons");
            assert("minecraft:generic"@.len() != "#minecraft:always_hurts_ender_dragons"@.len());
            reveal_strlit("minecraft:always_hurts_ender_dragons");
            assert("minecraft:generic"@.len() != "minecraft:always_hurts_ender_dragons"@.len());
            reveal_strlit("always_hurts_ender_dragons");
            assert("minecraft:generic"@.len() != "always_hurts_ender_dragons"@.len());
            reveal_strlit("#minecraft:always_kills_armor_stands");
            assert("minecraft:generic"@.len() != "#minecraft:always_kills_armor_stands"@.len());
            reveal_strlit("minecraft:always_kills_armor_stands");
            assert("minecraft:generic"@.len() != "minecraft:always_kills_armor_stands"@.len());
            reveal_strlit("always_kills_armor_stands");
            assert("minecraft:generic"@.len() != "always_kills_armor_stands"@.len());
            reveal_strlit("#minecraft:always_most_significant_fall");
            assert("minecraft:generic"@.len() != "#minecraft:always_most_significant_fall"@.len());
            reveal_strlit("minecraft:always_most_significant_fall");
            assert("minecraft:generic"@.len() != "minecraft:always_most_significant_fall"@.len());
            reveal_strlit("always_most_significant_fall");
            assert("minecraft:generic"@.len() != "always_most_significant_fall"@.len());
            reveal_strlit("#minecraft:always_triggers_silverfish");
            assert("minecraft:generic"@.len() != "#minecraft:always_triggers_silverfish"@.len());
            reveal_strlit("minecraft:always_triggers_silverfish");
            assert("minecraft:generic"@.len() != "minecraft:always_triggers_silverfish"@.len());
            reveal_strlit("always_triggers_silverfish");
            assert("minecraft:generic"@.len() != "always_triggers_silverfish"@.len());
            reveal_strlit("#minecraft:avoids_guardian_thorns");
            assert("minecraft:generic"@.len() != "#minecraft:avoids_guardian_thorns"@.len());
            reveal_strlit("minecraft:avoids_guardian_thorns");
            assert("minecraft:generic"@.len() != "minecraft:avoids_guardian_thorns"@.len());
            reveal_strlit("avoids_guardian_thorns");
            assert("minecraft:generic"@.len() != "avoids_guardian_thorns"@.len());
            reveal_strlit("#minecraft:burns_armor_stands");
            assert("minecraft:generic"@.len() != "#minecraft:burns_armor_stands"@.len());
            reveal_strlit("minecraft:burns_armor_stands");
            assert("minecraft:generic"@.len() != "minecraft:burns_armor_stands"@.len());
            reveal_strlit("burns_armor_stands");
            assert("minecraft:generic"@.len() != "burns_armor_stands"@.len());
            reveal_strlit("#minecraft:burn_from_stepping");
            assert("minecraft:generic"@.len() != "#minecraft:burn_from_stepping"@.len());
            reveal_strlit("minecraft:burn_from_stepping");
            assert("minecraft:generic"@.len() != "minecraft:burn_from_stepping"@.len());
            reveal_strlit("burn_from_stepping");
            assert("minecraft:generic"@.len() != "burn_from_stepping"@.len());
            reveal_strlit("#minecraft:bypasses_armor");
            assert("minecraft:generic"@.len() != "#minecraft:bypasses_armor"@.len());
            reveal_strlit("minecraft:bypasses_armor");
            assert("minecraft:generic"@.len() != "minecraft:bypasses_armor"@.len());
            reveal_strlit("bypasses_armor");
            assert("minecraft:generic"@.len() != "bypasses_armor"@.len());
            reveal_strlit("#minecraft:bypasses_cooldown");
            assert("minecraft:generic"@.len() != "#minecraft:bypasses_cooldown"@.len());
            reveal_strlit("minecraft:bypasses_cooldown");
            assert("minecraft:generic"@.len() != "minecraft:bypasses_cooldown"@.len());
            reveal_strlit("bypasses_cooldown");
            assert("minecraft:generic"@[0] != "bypasses_cooldown"@[0]);
            reveal_strlit("#minecraft:bypasses_effects");
            assert("minecraft:generic"@.len() != "#minecraft:bypasses_effects"@.len());
            reveal_strlit("minecraft:bypasses_effects");
            assert("minecraft:generic"@.len() != "minecraft:bypasses_effects"@.len());
            reveal_strlit("bypasses_effects");
            assert("minecraft:generic"@.len() != "bypasses_effects"@.len());
            reveal_strlit("#minecraft:bypasses_enchantments");
            assert("minecraft:generic"@.len() != "#minecraft:bypasses_enchantments"@.len());
            reveal_strlit("minecraft:bypasses_enchantments");
            assert("minecraft:generic"@.len() != "minecraft:bypasses_enchantments"@.len());
            reveal_strlit("bypasses_enchantments");
            assert("minecraft:generic"@.len() != "bypasses_enchantments"@.len());
            reveal_strlit("#minecraft:bypasses_invulnerability");
            assert("minecraft:generic"@.len() != "#minecraft:bypasses_invulnerability"@.len());
            reveal_strlit("minecraft:bypasses_invulnerability");
            assert("minecraft:generic"@.len() != "minecraft:bypasses_invulnerability"@.len());
            reveal_strlit("bypasses_invulnerability");
            assert("minecraft:generic"@.len() != "bypasses_invulnerability"@.len());
            reveal_strlit("#minecraft:bypasses_resistance");
            assert("minecraft:generic"@.len() != "#minecraft:bypasses_resistance"@.len());
            reveal_strlit("minecraft:bypasses_resistance");
            assert("minecraft:generic"@.len() != "minecraft:bypasses_resistance"@.len());
            reveal_strlit("bypasses_resistance");
            assert("minecraft:generic"@.len() != "bypasses_resistance"@.len());
            reveal_strlit("#minecraft:bypasses_shield");
            assert("minecraft:generic"@.len() != "#minecraft:bypasses_shield"@.len());
            reveal_strlit("minecraft:bypasses_shield");
            assert("minecraft:generic"@.len() != "minecraft:bypasses_shield"@.len());
            reveal_strlit("bypasses_shield");
            assert("minecraft:generic"@.len() != "bypasses_shield"@.len());
            reveal_strlit("#minecraft:bypasses_wolf_armor");
            assert("minecraft:generic"@.len() != "#minecraft:bypasses_wolf_armor"@.len());
            reveal_strlit("minecraft:bypasses_wolf_armor");
            assert("minecraft:generic"@.len() != "minecraft:bypasses_wolf_armor"@.len());
            reveal_strlit("bypasses_wolf_armor");
            assert("minecraft:generic"@.len() != "bypasses_wolf_armor"@.len());
            reveal_strlit("#minecraft:can_break_armor_stand");
            assert("minecraft:generic"@.len() != "#minecraft:can_break_armor_stand"@.len());
            reveal_strlit("minecraft:can_break_armor_stand");
            assert("minecraft:generic"@.len() != "minecraft:can_break_armor_stand"@.len());
            reveal_strlit("can_break_armor_stand");
            assert("minecraft:generic"@.len() != "can_break_armor_stand"@.len());
            reveal_strlit("#minecraft:damages_helmet");
            assert("minecraft:generic"@.len() != "#minecraft:damages_helmet"@.len());
            reveal_strlit("minecraft:damages_helmet");
            assert("minecraft:generic"@.len() != "minecraft:damages_helmet"@.len());
            reveal_strlit("damages_helmet");
            assert("minecraft:generic"@.len() != "damages_helmet"@.len());
            reveal_strlit("#minecraft:ignites_armor_stands");
            assert("minecraft:generic"@.len() != "#minecraft:ignites_armor_stands"@.len());
            reveal_strlit("minecraft:ignites_armor_stands");
            assert("minecraft:generic"@.len() != "minecraft:ignites_armor_stands"@.len());
            reveal_strlit("ignites_armor_stands");
            assert("minecraft:generic"@.len() != "ignites_armor_stands"@.len());
            reveal_strlit("#minecraft:is_drowning");
            assert("minecraft:generic"@.len() != "#minecraft:is_drowning"@.len());
            reveal_strlit("minecraft:is_drowning");
            assert("minecraft:generic"@.len() != "minecraft:is_drowning"@.len());
            reveal_strlit("is_drowning");
            assert("minecraft:generic"@.len() != "is_drowning"@.len());
            reveal_strlit("#minecraft:is_explosion");
            assert("minecraft:generic"@.len() != "#minecraft:is_explosion"@.len());
            reveal_strlit("minecraft:is_explosion");
            assert("minecraft:generic"@.len() != "minecraft:is_explosion"@.len());
            reveal_strlit("is_explosion");
            assert("minecraft:generic"@.len() != "is_explosion"@.len());
            reveal_strlit("explosion");
            assert("minecraft:generic"@.len() != "explosion"@.len());
            reveal_strlit("#minecraft:is_fall");
            assert("minecraft:generic"@.len() != "#minecraft:is_fall"@.len());
            reveal_strlit("minecraft:is_fall");
            assert("minecraft:generic"@[10] != "minecraft:is_fall"@[10]);
            reveal_strlit("is_fall");
            assert("minecraft:generic"@.len() != "is_fall"@.len());
            reveal_strlit("fall");
            assert("minecraft:generic"@.len() != "fall"@.len());
            reveal_strlit("#minecraft:is_fire");
            assert("minecraft:generic"@.len() != "#minecraft:is_fire"@.len());
            reveal_strlit("minecraft:is_fire");
            assert("minecraft:generic"@[10] != "minecraft:is_fire"@[10]);
            reveal_strlit("is_fire");
            assert("minecraft:generic"@.len() != "is_fire"@.len());
            reveal_strlit("fire");
            assert("minecraft:generic"@.len() != "fire"@.len());
            reveal_strlit("in_fire");
            assert("minecraft:generic"@.len() != "in_fire"@.len());
            reveal_strlit("minecraft:in_fire");
            assert("minecraft:generic"@[10] != "minecraft:in_fire"@[10]);
            reveal_strlit("#minecraft:is_freezing");
            assert("minecraft:generic"@.len() != "#minecraft:is_freezing"@.len());
            reveal_strlit("minecraft:is_freezing");
            assert("minecraft:generic"@.len() != "minecraft:is_freezing"@.len());
            reveal_strlit("is_freezing");
            assert("minecraft:generic"@.len() != "is_freezing"@.len());
            reveal_strlit("#minecraft:is_lightning");
            assert("minecraft:generic"@.len() != "#minecraft:is_lightning"@.len());
            reveal_strlit("minecraft:is_lightning");
            assert("minecraft:generic"@.len() != "minecraft:is_lightning"@.len());
            reveal_strlit("is_lightning");
            assert("minecraft:generic"@.len() != "is_lightning"@.len());
            reveal_strlit("#minecraft:is_player_attack");
            assert("minecraft:generic"@.len() != "#minecraft:is_player_attack"@.len());
            reveal_strlit("minecraft:is_player_attack");
            assert("minecraft:generic"@.len() != "minecraft:is_player_attack"@.len());
            reveal_strlit("is_player_attack");
            assert("minecraft:generic"@.len() != "is_player_attack"@.len());
            reveal_strlit("#minecraft:is_projectile");
            assert("minecraft:generic"@.len() != "#minecraft:is_projectile"@.len());
            reveal_strlit("minecraft:is_projectile");
            assert("minecraft:generic"@.len() != "minecraft:is_projectile"@.len());
            reveal_strlit("is_projectile");
            assert("minecraft:generic"@.len() != "is_projectile"@.len());
            reveal_strlit("#minecraft:mace_smash");
            assert("minecraft:generic"@.len() != "#minecraft:mace_smash"@.len());
            reveal_strlit("minecraft:mace_smash");
            assert("minecraft:generic"@.len() != "minecraft:mace_smash"@.len());
            reveal_strlit("mace_smash");
            assert("minecraft:generic"@.len() != "mace_smash"@.len());
            reveal_strlit("#minecraft:no_anger");
            assert("minecraft:generic"@.len() != "#minecraft:no_anger"@.len());
            reveal_strlit("minecraft:no_anger");
            assert("minecraft:generic"@.len() != "minecraft:no_anger"@.len());
            reveal_strlit("no_anger");
            assert("minecraft:generic"@.len() != "no_anger"@.len());
            reveal_strlit("#minecraft:no_impact");
            assert("minecraft:generic"@.len() != "#minecraft:no_impact"@.len());
            reveal_strlit("minecraft:no_impact");
            assert("minecraft:generic"@.len() != "minecraft:no_impact"@.len());
            reveal_strlit("no_impact");
            assert("minecraft:generic"@.len() != "no_impact"@.len());
            reveal_strlit("#minecraft:no_knockback");
            assert("minecraft:generic"@.len() != "#minecraft:no_knockback"@.len());
            reveal_strlit("minecraft:no_knockback");
            assert("minecraft:generic"@.len() != "minecraft:no_knockback"@.len());
            reveal_strlit("no_knockback");
            assert("minecraft:generic"@.len() != "no_knockback"@.len());
            reveal_strlit("#minecraft:panic_causes");
            assert("minecraft:generic"@.len() != "#minecraft:panic_causes"@.len());
            reveal_strlit("minecraft:panic_causes");
            assert("minecraft:generic"@.len() != "minecraft:panic_causes"@.len());
            reveal_strlit("panic_causes");
            assert("minecraft:generic"@.len() != "panic_causes"@.len());
            reveal_strlit("#minecraft:panic_environmental_causes");
            assert("minecraft:generic"@.len() != "#minecraft:panic_environmental_causes"@.len());
            reveal_strlit("minecraft:panic_environmental_causes");
            assert("minecraft:generic"@.len() != "minecraft:panic_environmental_causes"@.len());
            reveal_strlit("panic_environmental_causes");
            assert("minecraft:generic"@.len() != "panic_environmental_causes"@.len());
            reveal_strlit("#minecraft:witch_resistant_to");
            assert("minecraft:generic"@.len() != "#minecraft:witch_resistant_to"@.len());
            reveal_strlit("minecraft:witch_resistant_to");
            assert("minecraft:generic"@.len() != "minecraft:witch_resistant_to"@.len());
            reveal_strlit("witch_resistant_to");
            assert("minecraft:generic"@.len() != "witch_resistant_to"@.len());
            reveal_strlit("#minecraft:wither_immune_to");
            assert("minecraft:generic"@.len() != "#minecraft:wither_immune_to"@.len());
            reveal_strlit("minecraft:wither_immune_to");
            assert("minecraft:generic"@.len() != "minecraft:wither_immune_to"@.len());
            reveal_strlit("wither_immune_to");
            assert("minecraft:generic"@.len() != "wither_immune_to"@.len());
        },
    }
}

/// The largest stack an item allows.
#[derive(Clone, Debug, Hash, PartialEq, Eq)]
pub struct MaxStackSizeImpl {
    pub size: u8,
}

/// The durability an item starts with.
#[derive(Clone, Debug, Hash, PartialEq, Eq)]
pub struct MaxDamageImpl {
    pub max_damage: i32,
}

/// The damage an item has taken.
#[derive(Clone, Debug, Hash, PartialEq, Eq)]
pub struct DamageImpl {
    pub damage: i32,
}

/// The item never loses durability.
#[derive(Clone, Hash, PartialEq, Eq)]
pub struct UnbreakableImpl;

/// A name given to the item.
#[derive(Clone, Hash, PartialEq, Eq)]
pub struct CustomNameImpl {
    pub name: &'static str,
}

/// The item's own name.
#[derive(Clone, Hash, PartialEq, Eq)]
pub struct ItemNameImpl {
    pub name: &'static str,
}

/// The enchantments on an item: each enchantment's registry name with its level.
#[derive(Clone, Hash, PartialEq, Eq)]
pub struct EnchantmentsImpl {
    pub enchantment: Vec<(String, i32)>,
}

/// How an attribute modifier combines with the base value.
#[derive(Clone, Copy, Debug, PartialEq, Eq, Hash)]
pub enum Operation {
    AddValue,
    AddMultipliedBase,
    AddMultipliedTotal,
}

/// Resistance to one kind of damage.
#[derive(Clone, Copy, Debug, Hash, PartialEq, Eq)]
pub struct DamageResistantImpl {
    pub res_type: DamageResistantType,
}

/// A set of blocks: a tag, by the ids it holds, or listed block ids.
#[derive(Clone, Hash, PartialEq, Eq)]
pub enum IDSet {
    Tag(Vec<u16>),
    Blocks(Vec<u16>),
}

/// The entities an equippable item fits: a tag, by the entity-type ids it
/// holds, or one entity type by id.
#[derive(Clone, PartialEq, Eq)]
pub enum EntityTypeOrTag {
    Tag(Vec<u16>),
    Single(u16),
}

/// How an item is worn.
#[derive(Clone, PartialEq, Eq)]
pub struct EquippableImpl {
    pub slot: EquipmentSlot,
    pub equip_sound: &'static str,
    pub asset_id: Option<&'static str>,
    pub camera_overlay: Option<&'static str>,
    pub allowed_entities: Option<Vec<EntityTypeOrTag>>,
    pub dispensable: bool,
    pub swappable: bool,
    pub damage_on_hurt: bool,
    pub equip_on_interact: bool,
    pub can_be_sheared: bool,
    pub shearing_sound: Option<&'static str>,
}

/// The disc a jukebox plays from this item.
#[derive(Clone, Debug, Hash, PartialEq, Eq)]
pub struct JukeboxPlayableImpl {
    pub song: &'static str,
}

/// One status effect a potion carries.
#[derive(Clone, Debug, Hash, PartialEq, Eq)]
pub struct StatusEffectInstance {
    pub effect_id: i32,
    pub amplifier: i32,
    pub duration: i32,
    pub ambient: bool,
    pub show_particles: bool,
    pub show_icon: bool,
}

/// A potion: the base potion, a custom colour, custom effects and a custom name.
#[derive(Clone, Debug, Hash, PartialEq, Eq)]
pub struct PotionContentsImpl {
    pub potion_id: Option<i32>,
    pub custom_color: Option<i32>,
    pub custom_effects: Vec<StatusEffectInstance>,
    pub custom_name: Option<String>,
}

/// The shapes a firework explosion takes.
#[derive(Clone, Copy, Debug, PartialEq, Eq, Hash)]
pub enum FireworkExplosionShape {
    SmallBall,
    LargeBall,
    Star,
    Creeper,
    Burst,
}

/// The number of a shape.
pub open spec fn shape_id(s: FireworkExplosionShape) -> i32 {
    match s {
        FireworkExplosionShape::SmallBall => 0,
        FireworkExplosionShape::LargeBall => 1,
        FireworkExplosionShape::Star => 2,
        FireworkExplosionShape::Creeper => 3,
        FireworkExplosionShape::Burst => 4,
    }
}

/// The name of a shape.
pub open spec fn shape_name(s: FireworkExplosionShape) -> Seq<char> {
    match s {
        FireworkExplosionShape::SmallBall => "small_ball"@,
        FireworkExplosionShape::LargeBall => "large_ball"@,
        FireworkExplosionShape::Star => "star"@,
        FireworkExplosionShape::Creeper => "creeper"@,
        FireworkExplosionShape::Burst => "burst"@,
    }
}

/// The shape with a number: 0 to 4 in declaration order.
pub open spec fn shape_of_id(id: i32) -> Option<FireworkExplosionShape> {
    if id == 0 {
        Some(FireworkExplosionShape::SmallBall)
    } else if id == 1 {
        Some(FireworkExplosionShape::LargeBall)
    } else if id == 2 {
        Some(FireworkExplosionShape::Star)
    } else if id == 3 {
        Some(FireworkExplosionShape::Creeper)
    } else if id == 4 {
        Some(FireworkExplosionShape::Burst)
    } else {
        None
    }
}

/// The shape with a name.
pub open spec fn shape_of_name(name: Seq<char>) -> Option<FireworkExplosionShape> {
    if name == "small_ball"@ {
        Some(FireworkExplosionShape::SmallBall)
    } else if name == "large_ball"@ {
        Some(FireworkExplosionShape::LargeBall)
    } else if name == "star"@ {
        Some(FireworkExplosionShape::Star)
    } else if name == "creeper"@ {
        Some(FireworkExplosionShape::Creeper)
    } else if name == "burst"@ {
        Some(FireworkExplosionShape::Burst)
    } else {
        None
    }
}

impl FireworkExplosionShape {
    /// The shape with a number, if any.
    pub fn from_id(id: i32) -> (r: Option<Self>)
        ensures
            r == shape_of_id(id),
    {
        match id {
            0 => Some(FireworkExplosionShape::SmallBall),
            1 => Some(FireworkExplosionShape::LargeBall),
            2 => Some(FireworkExplosionShape::Star),
            3 => Some(FireworkExplosionShape::Creeper),
            4 => Some(FireworkExplosionShape::Burst),
            _ => None,
        }
    }

    /// The number of this shape.
    pub fn to_id(&self) -> (r: i32)
        ensures
            r == shape_id(*self),
    {
        match self {
            FireworkExplosionShape::SmallBall => 0,
            FireworkExplosionShape::LargeBall => 1,
            FireworkExplosionShape::Star => 2,
            FireworkExplosionShape::Creeper => 3,
            FireworkExplosionShape::Burst => 4,
        }
    }

    /// The name of this shape.
    pub fn to_name(&self) -> (r: &'static str)
        ensures
            r@ == shape_name(*self),
    {
        match self {
            FireworkExplosionShape::SmallBall => "small_ball",
            FireworkExplosionShape::LargeBall => "large_ball",
            FireworkExplosionShape::Star => "star",
            FireworkExplosionShape::Creeper => "creeper",
            FireworkExplosionShape::Burst => "burst",
        }
    }

    /// The shape with a name, if any.
    pub fn from_name(name: &str) -> (r: Option<Self>)
        ensures
            r == shape_of_name(name@),
    {
        if str_eq(name, "small_ball") {
            Some(FireworkExplosionShape::SmallBall)
        } else if str_eq(name, "large_ball") {
            Some(FireworkExplosionShape::LargeBall)
        } else if str_eq(name, "star") {
            Some(FireworkExplosionShape::Star)
        } else if str_eq(name, "creeper") {
            Some(FireworkExplosionShape::Creeper)
        } else if str_eq(name, "burst") {
            Some(FireworkExplosionShape::Burst)
        } else {
            None
        }
    }
}

/// A shape's number and name each lead back to the shape, and exactly the
/// numbers 0 to 4 name shapes.
pub proof fn lemma_shape_roundtrips(s: FireworkExplosionShape, id: i32)
    ensures
        shape_of_id(shape_id(s)) == Some(s),
        shape_of_name(shape_name(s)) == Some(s),
        shape_of_id(id) is Some <==> 0 <= id <= 4,
{
    reveal_strlit("small_ball");
    reveal_strlit("large_ball");
    reveal_strlit("star");
    reveal_strlit("creeper");
    reveal_strlit("burst");
    assert("large_ball"@[0] != "small_ball"@[0]);
    assert("star"@.len() != "small_ball"@.len());
    assert("star"@.len() != "large_ball"@.len());
    assert("creeper"@.len() != "small_ball"@.len());
    assert("creeper"@.len() != "large_ball"@.len());
    assert("creeper"@.len() != "star"@.len());
    assert("burst"@.len() != "small_ball"@.len());
    assert("burst"@.len() != "large_ball"@.len());
    assert("burst"@.len() != "star"@.len());
    assert("burst"@.len() != "creeper"@.len());
}

/// One firework explosion: shape, colours, fade colours, trail and twinkle.
#[derive(Clone, Debug, Hash, PartialEq, Eq)]
pub struct FireworkExplosionImpl {
    pub shape: FireworkExplosionShape,
    pub colors: Vec<i32>,
    pub fade_colors: Vec<i32>,
    pub has_trail: bool,
    pub has_twinkle: bool,
}

impl FireworkExplosionImpl {
    /// An explosion with the given parts.
    pub fn new(
        shape: FireworkExplosionShape,
        colors: Vec<i32>,
        fade_colors: Vec<i32>,
        has_trail: bool,
        has_twinkle: bool,
    ) -> (r: Self)
        ensures
            r.shape == shape,
            r.colors@ == colors@,
            r.fade_colors@ == fade_colors@,
            r.has_trail == has_trail,
            r.has_twinkle == has_twinkle,
    {
        FireworkExplosionImpl { shape, colors, fade_colors, has_trail, has_twinkle }
    }
}

/// A firework rocket: its flight duration and its explosions.
#[derive(Clone, Debug, Hash, PartialEq, Eq)]
pub struct FireworksImpl {
    pub flight_duration: i32,
    pub explosions: Vec<FireworkExplosionImpl>,
}

impl FireworksImpl {
    /// A rocket with the given flight duration and explosions.
    pub fn new(flight_duration: i32, explosions: Vec<FireworkExplosionImpl>) -> (r: Self)
        ensures
            r.flight_duration == flight_duration,
            r.explosions@ == explosions@,
    {
        FireworksImpl { flight_duration, explosions }
    }
}

} // verus!
