//! The spellings the damage-kind tags are read in: each kind's tag with
//! and without the `#` and the `minecraft:` namespace names it, and no
//! other text but a few aliases names any kind but the generic one.

use vstd::prelude::*;

use crate::data_component::{damage_type_of_tag, damage_type_tag, DamageResistantType};

verus! {

/// A kind's name without its `#minecraft:` prefix.
pub open spec fn bare_damage_name(t: DamageResistantType) -> Seq<char> {
    damage_type_tag(t).subrange(11, damage_type_tag(t).len() as int)
}

/// Every text that names a damage kind other than the generic one.
pub open spec fn damage_spellings() -> Seq<Seq<char>> {
    seq![
        "#minecraft:always_hurts_ender_dragons"@,
        "minecraft:always_hurts_ender_dragons"@,
        "always_hurts_ender_dragons"@,
        "#minecraft:always_kills_armor_stands"@,
        "minecraft:always_kills_armor_stands"@,
        "always_kills_armor_stands"@,
        "#minecraft:always_most_significant_fall"@,
        "minecraft:always_most_significant_fall"@,
        "always_most_significant_fall"@,
        "#minecraft:always_triggers_silverfish"@,
        "minecraft:always_triggers_silverfish"@,
        "always_triggers_silverfish"@,
        "#minecraft:avoids_guardian_thorns"@,
        "minecraft:avoids_guardian_thorns"@,
        "avoids_guardian_thorns"@,
        "#minecraft:burns_armor_stands"@,
        "minecraft:burns_armor_stands"@,
        "burns_armor_stands"@,
        "#minecraft:burn_from_stepping"@,
        "minecraft:burn_from_stepping"@,
        "burn_from_stepping"@,
        "#minecraft:bypasses_armor"@,
        "minecraft:bypasses_armor"@,
        "bypasses_armor"@,
        "#minecraft:bypasses_cooldown"@,
        "minecraft:bypasses_cooldown"@,
        "bypasses_cooldown"@,
        "#minecraft:bypasses_effects"@,
        "minecraft:bypasses_effects"@,
        "bypasses_effects"@,
        "#minecraft:bypasses_enchantments"@,
        "minecraft:bypasses_enchantments"@,
        "bypasses_enchantments"@,
        "#minecraft:bypasses_invulnerability"@,
        "minecraft:bypasses_invulnerability"@,
        "bypasses_invulnerability"@,
        "#minecraft:bypasses_resistance"@,
        "minecraft:bypasses_resistance"@,
        "bypasses_resistance"@,
        "#minecraft:bypasses_shield"@,
        "minecraft:bypasses_shield"@,
        "bypasses_shield"@,
        "#minecraft:bypasses_wolf_armor"@,
        "minecraft:bypasses_wolf_armor"@,
        "bypasses_wolf_armor"@,
        "#minecraft:can_break_armor_stand"@,
        "minecraft:can_break_armor_stand"@,
        "can_break_armor_stand"@,
        "#minecraft:damages_helmet"@,
        "minecraft:damages_helmet"@,
        "damages_helmet"@,
        "#minecraft:ignites_armor_stands"@,
        "minecraft:ignites_armor_stands"@,
        "ignites_armor_stands"@,
        "#minecraft:is_drowning"@,
        "minecraft:is_drowning"@,
        "is_drowning"@,
        "#minecraft:is_explosion"@,
        "minecraft:is_explosion"@,
        "is_explosion"@,
        "explosion"@,
        "#minecraft:is_fall"@,
        "minecraft:is_fall"@,
        "is_fall"@,
        "fall"@,
        "#minecraft:is_fire"@,
        "minecraft:is_fire"@,
        "is_fire"@,
        "fire"@,
        "in_fire"@,
        "minecraft:in_fire"@,
        "#minecraft:is_freezing"@,
        "minecraft:is_freezing"@,
        "is_freezing"@,
        "#minecraft:is_lightning"@,
        "minecraft:is_lightning"@,
        "is_lightning"@,
        "#minecraft:is_player_attack"@,
        "minecraft:is_player_attack"@,
        "is_player_attack"@,
        "#minecraft:is_projectile"@,
        "minecraft:is_projectile"@,
        "is_projectile"@,
        "#minecraft:mace_smash"@,
        "minecraft:mace_smash"@,
        "mace_smash"@,
        "#minecraft:no_anger"@,
        "minecraft:no_anger"@,
        "no_anger"@,
        "#minecraft:no_impact"@,
        "minecraft:no_impact"@,
        "no_impact"@,
        "#minecraft:no_knockback"@,
        "minecraft:no_knockback"@,
        "no_knockback"@,
        "#minecraft:panic_causes"@,
        "minecraft:panic_causes"@,
        "panic_causes"@,
        "#minecraft:panic_environmental_causes"@,
        "minecraft:panic_environmental_causes"@,
        "panic_environmental_causes"@,
        "#minecraft:witch_resistant_to"@,
        "minecraft:witch_resistant_to"@,
        "witch_resistant_to"@,
        "#minecraft:wither_immune_to"@,
        "minecraft:wither_immune_to"@,
        "wither_immune_to"@,
    ]
}

proof fn lemma_spell_always_hurts_ender_dragons()
    ensures
        damage_type_of_tag("minecraft:always_hurts_ender_dragons"@) == DamageResistantType::AlwaysHurtsEnderDragons,
        damage_type_of_tag("always_hurts_ender_dragons"@) == DamageResistantType::AlwaysHurtsEnderDragons,
{
    let a = "minecraft:always_hurts_ender_dragons"@;
    let b = "always_hurts_ender_dragons"@;
    reveal_strlit("always_hurts_ender_dragons");
    reveal_strlit("minecraft:always_hurts_ender_dragons");
}

proof fn lemma_spell_always_kills_armor_stands()
    ensures
        damage_type_of_tag("minecraft:always_kills_armor_stands"@) == DamageResistantType::AlwaysKillsArmorStands,
        damage_type_of_tag("always_kills_armor_stands"@) == DamageResistantType::AlwaysKillsArmorStands,
{
    let a = "minecraft:always_kills_armor_stands"@;
    let b = "always_kills_armor_stands"@;
    reveal_strlit("#minecraft:always_hurts_ender_dragons");
    reveal_strlit("always_hurts_ender_dragons");
    reveal_strlit("always_kills_armor_stands");
    reveal_strlit("minecraft:always_hurts_ender_dragons");
    reveal_strlit("minecraft:always_kills_armor_stands");
    assert(a.len() != "#minecraft:always_hurts_ender_dragons"@.len());
    assert(b.len() != "#minecraft:always_hurts_ender_dragons"@.len());
    assert(a.len() != "minecraft:always_hurts_ender_dragons"@.len());
    assert(b.len() != "minecraft:always_hurts_ender_dragons"@.len());
    assert(a.len() != "always_hurts_ender_dragons"@.len());
    assert(b.len() != "always_hurts_ender_dragons"@.len());
}

proof fn lemma_spell_always_most_significant_fall()
    ensures
        damage_type_of_tag("minecraft:always_most_significant_fall"@) == DamageResistantType::AlwaysMostSignificantFall,
        damage_type_of_tag("always_most_significant_fall"@) == DamageResistantType::AlwaysMostSignificantFall,
{
    let a = "minecraft:always_most_significant_fall"@;
    let b = "always_most_significant_fall"@;
    reveal_strlit("#minecraft:always_hurts_ender_dragons");
    reveal_strlit("#minecraft:always_kills_armor_stands");
    reveal_strlit("always_hurts_ender_dragons");
    reveal_strlit("always_kills_armor_stands");
    reveal_strlit("always_most_significant_fall");
    reveal_strlit("minecraft:always_hurts_ender_dragons");
    reveal_strlit("minecraft:always_kills_armor_stands");
    reveal_strlit("minecraft:always_most_significant_fall");
    assert(a.len() != "#minecraft:always_hurts_ender_dragons"@.len());
    assert(b.len() != "#minecraft:always_hurts_ender_dragons"@.len());
    assert(a.len() != "minecraft:always_hurts_ender_dragons"@.len());
    assert(b.len() != "minecraft:always_hurts_ender_dragons"@.len());
    assert(a.len() != "always_hurts_ender_dragons"@.len());
    assert(b.len() != "always_hurts_ender_dragons"@.len());
    assert(a.len() != "#minecraft:always_kills_armor_stands"@.len());
    assert(b.len() != "#minecraft:always_kills_armor_stands"@.len());
    assert(a.len() != "minecraft:always_kills_armor_stands"@.len());
    assert(b.len() != "minecraft:always_kills_armor_stands"@.len());
    assert(a.len() != "always_kills_armor_stands"@.len());
    assert(b.len() != "always_kills_armor_stands"@.len());
}

proof fn lemma_spell_always_triggers_silverfish()
    ensures
        damage_type_of_tag("minecraft:always_triggers_silverfish"@) == DamageResistantType::AlwaysTriggersSilverfish,
        damage_type_of_tag("always_triggers_silverfish"@) == DamageResistantType::AlwaysTriggersSilverfish,
{
    let a = "minecraft:always_triggers_silverfish"@;
    let b = "always_triggers_silverfish"@;
    reveal_strlit("#minecraft:always_hurts_ender_dragons");
    reveal_strlit("#minecraft:always_kills_armor_stands");
    reveal_strlit("#minecraft:always_most_significant_fall");
    reveal_strlit("always_hurts_ender_dragons");
    reveal_strlit("always_kills_armor_stands");
    reveal_strlit("always_most_significant_fall");
    reveal_strlit("always_triggers_silverfish");
    reveal_strlit("minecraft:always_hurts_ender_dragons");
    reveal_strlit("minecraft:always_kills_armor_stands");
    reveal_strlit("minecraft:always_most_significant_fall");
    reveal_strlit("minecraft:always_triggers_silverfish");
    assert(a.len() != "#minecraft:always_hurts_ender_dragons"@.len());
    assert(b.len() != "#minecraft:always_hurts_ender_dragons"@.len());
    assert(a[17] != "minecraft:always_hurts_ender_dragons"@[17]);
    assert(b.len() != "minecraft:always_hurts_ender_dragons"@.len());
    assert(a.len() != "always_hurts_ender_dragons"@.len());
    assert(b[7] != "always_hurts_ender_dragons"@[7]);
    assert(a[0] != "#minecraft:always_kills_armor_stands"@[0]);
    assert(b.len() != "#minecraft:always_kills_armor_stands"@.len());
    assert(a.len() != "minecraft:always_kills_armor_stands"@.len());
    assert(b.len() != "minecraft:always_kills_armor_stands"@.len());
    assert(a.len() != "always_kills_armor_stands"@.len());
    assert(b.len() != "always_kills_armor_stands"@.len());
    assert(a.len() != "#minecraft:always_most_significant_fall"@.len());
    assert(b.len() != "#minecraft:always_most_significant_fall"@.len());
    assert(a.len() != "minecraft:always_most_significant_fall"@.len());
    assert(b.len() != "minecraft:always_most_significant_fall"@.len());
    assert(a.len() != "always_most_significant_fall"@.len());
    assert(b.len() != "always_most_significant_fall"@.len());
}

proof fn lemma_spell_avoids_guardian_thorns()
    ensures
        damage_type_of_tag("minecraft:avoids_guardian_thorns"@) == DamageResistantType::AvoidsGuardianThorns,
        damage_type_of_tag("avoids_guardian_thorns"@) == DamageResistantType::AvoidsGuardianThorns,
{
    let a = "minecraft:avoids_guardian_thorns"@;
    let b = "avoids_guardian_thorns"@;
    reveal_strlit("#minecraft:always_hurts_ender_dragons");
    reveal_strlit("#minecraft:always_kills_armor_stands");
    reveal_strlit("#minecraft:always_most_significant_fall");
    reveal_strlit("#minecraft:always_triggers_silverfish");
    reveal_strlit("always_hurts_ender_dragons");
    reveal_strlit("always_kills_armor_stands");
    reveal_strlit("always_most_significant_fall");
    reveal_strlit("always_triggers_silverfish");
    reveal_strlit("avoids_guardian_thorns");
    reveal_strlit("minecraft:always_hurts_ender_dragons");
    reveal_strlit("minecraft:always_kills_armor_stands");
    reveal_strlit("minecraft:always_most_significant_fall");
    reveal_strlit("minecraft:always_triggers_silverfish");
    reveal_strlit("minecraft:avoids_guardian_thorns");
    assert(a.len() != "#minecraft:always_hurts_ender_dragons"@.len());
    assert(b.len() != "#minecraft:always_hurts_ender_dragons"@.len());
    assert(a.len() != "minecraft:always_hurts_ender_dragons"@.len());
    assert(b.len() != "minecraft:always_hurts_ender_dragons"@.len());
    assert(a.len() != "always_hurts_ender_dragons"@.len());
    assert(b.len() != "always_hurts_ender_dragons"@.len());
    assert(a.len() != "#minecraft:always_kills_armor_stands"@.len());
    assert(b.len() != "#minecraft:always_kills_armor_stands"@.len());
    assert(a.len() != "minecraft:always_kills_armor_stands"@.len());
    assert(b.len() != "minecraft:always_kills_armor_stands"@.len());
    assert(a.len() != "always_kills_armor_stands"@.len());
    assert(b.len() != "always_kills_armor_stands"@.len());
    assert(a.len() != "#minecraft:always_most_significant_fall"@.len());
    assert(b.len() != "#minecraft:always_most_significant_fall"@.len());
    assert(a.len() != "minecraft:always_most_significant_fall"@.len());
    assert(b.len() != "minecraft:always_most_significant_fall"@.len());
    assert(a.len() != "always_most_significant_fall"@.len());
    assert(b.len() != "always_most_significant_fall"@.len());
    assert(a.len() != "#minecraft:always_triggers_silverfish"@.len());
    assert(b.len() != "#minecraft:always_triggers_silverfish"@.len());
    assert(a.len() != "minecraft:always_triggers_silverfish"@.len());
    assert(b.len() != "minecraft:always_triggers_silverfish"@.len());
    assert(a.len() != "always_triggers_silverfish"@.len());
    assert(b.len() != "always_triggers_silverfish"@.len());
}

proof fn lemma_spell_burns_armor_stands()
    ensures
        damage_type_of_tag("minecraft:burns_armor_stands"@) == DamageResistantType::BurnsArmorStands,
        damage_type_of_tag("burns_armor_stands"@) == DamageResistantType::BurnsArmorStands,
{
    let a = "minecraft:burns_armor_stands"@;
    let b = "burns_armor_stands"@;
    reveal_strlit("#minecraft:always_hurts_ender_dragons");
    reveal_strlit("#minecraft:always_kills_armor_stands");
    reveal_strlit("#minecraft:always_most_significant_fall");
    reveal_strlit("#minecraft:always_triggers_silverfish");
    reveal_strlit("#minecraft:avoids_guardian_thorns");
    reveal_strlit("always_hurts_ender_dragons");
    reveal_strlit("always_kills_armor_stands");
    reveal_strlit("always_most_significant_fall");
    reveal_strlit("always_triggers_silverfish");
    reveal_strlit("avoids_guardian_thorns");
    reveal_strlit("burns_armor_stands");
    reveal_strlit("minecraft:always_hurts_ender_dragons");
    reveal_strlit("minecraft:always_kills_armor_stands");
    reveal_strlit("minecraft:always_most_significant_fall");
    reveal_strlit("minecraft:always_triggers_silverfish");
    reveal_strlit("minecraft:avoids_guardian_thorns");
    reveal_strlit("minecraft:burns_armor_stands");
    assert(a.len() != "#minecraft:always_hurts_ender_dragons"@.len());
    assert(b.len() != "#minecraft:always_hurts_ender_dragons"@.len());
    assert(a.len() != "minecraft:always_hurts_ender_dragons"@.len());
    assert(b.len() != "minecraft:always_hurts_ender_dragons"@.len());
    assert(a.len() != "always_hurts_ender_dragons"@.len());
    assert(b.len() != "always_hurts_ender_dragons"@.len());
    assert(a.len() != "#minecraft:always_kills_armor_stands"@.len());
    assert(b.len() != "#minecraft:always_kills_armor_stands"@.len());
    assert(a.len() != "minecraft:always_kills_armor_stands"@.len());
    assert(b.len() != "minecraft:always_kills_armor_stands"@.len());
    assert(a.len() != "always_kills_armor_stands"@.len());
    assert(b.len() != "always_kills_armor_stands"@.len());
    assert(a.len() != "#minecraft:always_most_significant_fall"@.len());
    assert(b.len() != "#minecraft:always_most_significant_fall"@.len());
    assert(a.len() != "minecraft:always_most_significant_fall"@.len());
    assert(b.len() != "minecraft:always_most_significant_fall"@.len());
    assert(a[0] != "always_most_significant_fall"@[0]);
    assert(b.len() != "always_most_significant_fall"@.len());
    assert(a.len() != "#minecraft:always_triggers_silverfish"@.len());
    assert(b.len() != "#minecraft:always_triggers_silverfish"@.len());
    assert(a.len() != "minecraft:always_triggers_silverfish"@.len());
    assert(b.len() != "minecraft:always_triggers_silverfish"@.len());
    assert(a.len() != "always_triggers_silverfish"@.len());
    assert(b.len() != "always_triggers_silverfish"@.len());
    assert(a.len() != "#minecraft:avoids_guardian_thorns"@.len());
    assert(b.len() != "#minecraft:avoids_guardian_thorns"@.len());
    assert(a.len() != "minecraft:avoids_guardian_thorns"@.len());
    assert(b.len() != "minecraft:avoids_guardian_thorns"@.len());
    assert(a.len() != "avoids_guardian_thorns"@.len());
    assert(b.len() != "avoids_guardian_thorns"@.len());
}

proof fn lemma_spell_burn_from_stepping()
    ensures
        damage_type_of_tag("minecraft:burn_from_stepping"@) == DamageResistantType::BurnFromStepping,
        damage_type_of_tag("burn_from_stepping"@) == DamageResistantType::BurnFromStepping,
{
    let a = "minecraft:burn_from_stepping"@;
    let b = "burn_from_stepping"@;
    reveal_strlit("#minecraft:always_hurts_ender_dragons");
    reveal_strlit("#minecraft:always_kills_armor_stands");
    reveal_strlit("#minecraft:always_most_significant_fall");
    reveal_strlit("#minecraft:always_triggers_silverfish");
    reveal_strlit("#minecraft:avoids_guardian_thorns");
    reveal_strlit("#minecraft:burns_armor_stands");
    reveal_strlit("always_hurts_ender_dragons");
    reveal_strlit("always_kills_armor_stands");
    reveal_strlit("always_most_significant_fall");
    reveal_strlit("always_triggers_silverfish");
    reveal_strlit("avoids_guardian_thorns");
    reveal_strlit("burn_from_stepping");
    reveal_strlit("burns_armor_stands");
    reveal_strlit("minecraft:always_hurts_ender_dragons");
    reveal_strlit("minecraft:always_kills_armor_stands");
    reveal_strlit("minecraft:always_most_significant_fall");
    reveal_strlit("minecraft:always_triggers_silverfish");
    reveal_strlit("minecraft:avoids_guardian_thorns");
    reveal_strlit("minecraft:burn_from_stepping");
    reveal_strlit("minecraft:burns_armor_stands");
    assert(a.len() != "#minecraft:always_hurts_ender_dragons"@.len());
    assert(b.len() != "#minecraft:always_hurts_ender_dragons"@.len());
    assert(a.len() != "minecraft:always_hurts_ender_dragons"@.len());
    assert(b.len() != "minecraft:always_hurts_ender_dragons"@.len());
    assert(a.len() != "always_hurts_ender_dragons"@.len());
    assert(b.len() != "always_hurts_ender_dragons"@.len());
    assert(a.len() != "#minecraft:always_kills_armor_stands"@.len());
    assert(b.len() != "#minecraft:always_kills_armor_stands"@.len());
    assert(a.len() != "minecraft:always_kills_armor_stands"@.len());
    assert(b.len() != "minecraft:always_kills_armor_stands"@.len());
    assert(a.len() != "always_kills_armor_stands"@.len());
    assert(b.len() != "always_kills_armor_stands"@.len());
    assert(a.len() != "#minecraft:always_most_significant_fall"@.len());
    assert(b.len() != "#minecraft:always_most_significant_fall"@.len());
    assert(a.len() != "minecraft:always_most_significant_fall"@.len());
    assert(b.len() != "minecraft:always_most_significant_fall"@.len());
    assert(a[0] != "always_most_significant_fall"@[0]);
    assert(b.len() != "always_most_significant_fall"@.len());
    assert(a.len() != "#minecraft:always_triggers_silverfish"@.len());
    assert(b.len() != "#minecraft:always_triggers_silverfish"@.len());
    assert(a.len() != "minecraft:always_triggers_silverfish"@.len());
    assert(b.len() != "minecraft:always_triggers_silverfish"@.len());
    assert(a.len() != "always_triggers_silverfish"@.len());
    assert(b.len() != "always_triggers_silverfish"@.len());
    assert(a.len() != "#minecraft:avoids_guardian_thorns"@.len());
    assert(b.len() != "#minecraft:avoids_guardian_thorns"@.len());
    assert(a.len() != "minecraft:avoids_guardian_thorns"@.len());
    assert(b.len() != "minecraft:avoids_guardian_thorns"@.len());
    assert(a.len() != "avoids_guardian_thorns"@.len());
    assert(b.len() != "avoids_guardian_thorns"@.len());
    assert(a.len() != "#minecraft:burns_armor_stands"@.len());
    assert(b.len() != "#minecraft:burns_armor_stands"@.len());
    assert(a[14] != "minecraft:burns_armor_stands"@[14]);
    assert(b.len() != "minecraft:burns_armor_stands"@.len());
    assert(a.len() != "burns_armor_stands"@.len());
    assert(b[4] != "burns_armor_stands"@[4]);
}

proof fn lemma_spell_bypasses_armor()
    ensures
        damage_type_of_tag("minecraft:bypasses_armor"@) == DamageResistantType::BypassesArmor,
        damage_type_of_tag("bypasses_armor"@) == DamageResistantType::BypassesArmor,
{
    let a = "minecraft:bypasses_armor"@;
    let b = "bypasses_armor"@;
    reveal_strlit("#minecraft:always_hurts_ender_dragons");
    reveal_strlit("#minecraft:always_kills_armor_stands");
    reveal_strlit("#minecraft:always_most_significant_fall");
    reveal_strlit("#minecraft:always_triggers_silverfish");
    reveal_strlit("#minecraft:avoids_guardian_thorns");
    reveal_strlit("#minecraft:burn_from_stepping");
    reveal_strlit("#minecraft:burns_armor_stands");
    reveal_strlit("always_hurts_ender_dragons");
    reveal_strlit("always_kills_armor_stands");
    reveal_strlit("always_most_significant_fall");
    reveal_strlit("always_triggers_silverfish");
    reveal_strlit("avoids_guardian_thorns");
    reveal_strlit("burn_from_stepping");
    reveal_strlit("burns_armor_stands");
    reveal_strlit("bypasses_armor");
    reveal_strlit("minecraft:always_hurts_ender_dragons");
    reveal_strlit("minecraft:always_kills_armor_stands");
    reveal_strlit("minecraft:always_most_significant_fall");
    reveal_strlit("minecraft:always_triggers_silverfish");
    reveal_strlit("minecraft:avoids_guardian_thorns");
    reveal_strlit("minecraft:burn_from_stepping");
    reveal_strlit("minecraft:burns_armor_stands");
    reveal_strlit("minecraft:bypasses_armor");
    assert(a.len() != "#minecraft:always_hurts_ender_dragons"@.len());
    assert(b.len() != "#minecraft:always_hurts_ender_dragons"@.len());
    assert(a.len() != "minecraft:always_hurts_ender_dragons"@.len());
    assert(b.len() != "minecraft:always_hurts_ender_dragons"@.len());
    assert(a.len() != "always_hurts_ender_dragons"@.len());
    assert(b.len() != "always_hurts_ender_dragons"@.len());
    assert(a.len() != "#minecraft:always_kills_armor_stands"@.len());
    assert(b.len() != "#minecraft:always_kills_armor_stands"@.len());
    assert(a.len() != "minecraft:always_kills_armor_stands"@.len());
    assert(b.len() != "minecraft:always_kills_armor_stands"@.len());
    assert(a.len() != "always_kills_armor_stands"@.len());
    assert(b.len() != "always_kills_armor_stands"@.len());
    assert(a.len() != "#minecraft:always_most_significant_fall"@.len());
    assert(b.len() != "#minecraft:always_most_significant_fall"@.len());
    assert(a.len() != "minecraft:always_most_significant_fall"@.len());
    assert(b.len() != "minecraft:always_most_significant_fall"@.len());
    assert(a.len() != "always_most_significant_fall"@.len());
    assert(b.len() != "always_most_significant_fall"@.len());
    assert(a.len() != "#minecraft:always_triggers_silverfish"@.len());
    assert(b.len() != "#minecraft:always_triggers_silverfish"@.len());
    assert(a.len() != "minecraft:always_triggers_silverfish"@.len());
    assert(b.len() != "minecraft:always_triggers_silverfish"@.len());
    assert(a.len() != "always_triggers_silverfish"@.len());
    assert(b.len() != "always_triggers_silverfish"@.len());
    assert(a.len() != "#minecraft:avoids_guardian_thorns"@.len());
    assert(b.len() != "#minecraft:avoids_guardian_thorns"@.len());
    assert(a.len() != "minecraft:avoids_guardian_thorns"@.len());
    assert(b.len() != "minecraft:avoids_guardian_thorns"@.len());
    assert(a.len() != "avoids_guardian_thorns"@.len());
    assert(b.len() != "avoids_guardian_thorns"@.len());
    assert(a.len() != "#minecraft:burns_armor_stands"@.len());
    assert(b.len() != "#minecraft:burns_armor_stands"@.len());
    assert(a.len() != "minecraft:burns_armor_stands"@.len());
    assert(b.len() != "minecraft:burns_armor_stands"@.len());
    assert(a.len() != "burns_armor_stands"@.len());
    assert(b.len() != "burns_armor_stands"@.len());
    assert(a.len() != "#minecraft:burn_from_stepping"@.len());
    assert(b.len() != "#minecraft:burn_from_stepping"@.len());
    assert(a.len() != "minecraft:burn_from_stepping"@.len());
    assert(b.len() != "minecraft:burn_from_stepping"@.len());
    assert(a.len() != "burn_from_stepping"@.len());
    assert(b.len() != "burn_from_stepping"@.len());
}

proof fn lemma_spell_bypasses_cooldown()
    ensures
        damage_type_of_tag("minecraft:bypasses_cooldown"@) == DamageResistantType::BypassesCooldown,
        damage_type_of_tag("bypasses_cooldown"@) == DamageResistantType::BypassesCooldown,
{
    let a = "minecraft:bypasses_cooldown"@;
    let b = "bypasses_cooldown"@;
    reveal_strlit("#minecraft:always_hurts_ender_dragons");
    reveal_strlit("#minecraft:always_kills_armor_stands");
    reveal_strlit("#minecraft:always_most_significant_fall");
    reveal_strlit("#minecraft:always_triggers_silverfish");
    reveal_strlit("#minecraft:avoids_guardian_thorns");
    reveal_strlit("#minecraft:burn_from_stepping");
    reveal_strlit("#minecraft:burns_armor_stands");
    reveal_strlit("#minecraft:bypasses_armor");
    reveal_strlit("always_hurts_ender_dragons");
    reveal_strlit("always_kills_armor_stands");
    reveal_strlit("always_most_significant_fall");
    reveal_strlit("always_triggers_silverfish");
    reveal_strlit("avoids_guardian_thorns");
    reveal_strlit("burn_from_stepping");
    reveal_strlit("burns_armor_stands");
    reveal_strlit("bypasses_armor");
    reveal_strlit("bypasses_cooldown");
    reveal_strlit("minecraft:always_hurts_ender_dragons");
    reveal_strlit("minecraft:always_kills_armor_stands");
    reveal_strlit("minecraft:always_most_significant_fall");
    reveal_strlit("minecraft:always_triggers_silverfish");
    reveal_strlit("minecraft:avoids_guardian_thorns");
    reveal_strlit("minecraft:burn_from_stepping");
    reveal_strlit("minecraft:burns_armor_stands");
    reveal_strlit("minecraft:bypasses_armor");
    reveal_strlit("minecraft:bypasses_cooldown");
    assert(a.len() != "#minecraft:always_hurts_ender_dragons"@.len());
    assert(b.len() != "#minecraft:always_hurts_ender_dragons"@.len());
    assert(a.len() != "minecraft:always_hurts_ender_dragons"@.len());
    assert(b.len() != "minecraft:always_hurts_ender_dragons"@.len());
    assert(a.len() != "always_hurts_ender_dragons"@.len());
    assert(b.len() != "always_hurts_ender_dragons"@.len());
    assert(a.len() != "#minecraft:always_kills_armor_stands"@.len());
    assert(b.len() != "#minecraft:always_kills_armor_stands"@.len());
    assert(a.len() != "minecraft:always_kills_armor_stands"@.len());
    assert(b.len() != "minecraft:always_kills_armor_stands"@.len());
    assert(a.len() != "always_kills_armor_stands"@.len());
    assert(b.len() != "always_kills_armor_stands"@.len());
    assert(a.len() != "#minecraft:always_most_significant_fall"@.len());
    assert(b.len() != "#minecraft:always_most_significant_fall"@.len());
    assert(a.len() != "minecraft:always_most_significant_fall"@.len());
    assert(b.len() != "minecraft:always_most_significant_fall"@.len());
    assert(a.len() != "always_most_significant_fall"@.len());
    assert(b.len() != "always_most_significant_fall"@.len());
    assert(a.len() != "#minecraft:always_triggers_silverfish"@.len());
    assert(b.len() != "#minecraft:always_triggers_silverfish"@.len());
    assert(a.len() != "minecraft:always_triggers_silverfish"@.len());
    assert(b.len() != "minecraft:always_triggers_silverfish"@.len());
    assert(a.len() != "always_triggers_silverfish"@.len());
    assert(b.len() != "always_triggers_silverfish"@.len());
    assert(a.len() != "#minecraft:avoids_guardian_thorns"@.len());
    assert(b.len() != "#minecraft:avoids_guardian_thorns"@.len());
    assert(a.len() != "minecraft:avoids_guardian_thorns"@.len());
    assert(b.len() != "minecraft:avoids_guardian_thorns"@.len());
    assert(a.len() != "avoids_guardian_thorns"@.len());
    assert(b.len() != "avoids_guardian_thorns"@.len());
    assert(a.len() != "#minecraft:burns_armor_stands"@.len());
    assert(b.len() != "#minecraft:burns_armor_stands"@.len());
    assert(a.len() != "minecraft:burns_armor_stands"@.len());
    assert(b.len() != "minecraft:burns_armor_stands"@.len());
    assert(a.len() != "burns_armor_stands"@.len());
    assert(b.len() != "burns_armor_stands"@.len());
    assert(a.len() != "#minecraft:burn_from_stepping"@.len());
    assert(b.len() != "#minecraft:burn_from_stepping"@.len());
    assert(a.len() != "minecraft:burn_from_stepping"@.len());
    assert(b.len() != "minecraft:burn_from_stepping"@.len());
    assert(a.len() != "burn_from_stepping"@.len());
    assert(b.len() != "burn_from_stepping"@.len());
    assert(a.len() != "#minecraft:bypasses_armor"@.len());
    assert(b.len() != "#minecraft:bypasses_armor"@.len());
    assert(a.len() != "minecraft:bypasses_armor"@.len());
    assert(b.len() != "minecraft:bypasses_armor"@.len());
    assert(a.len() != "bypasses_armor"@.len());
    assert(b.len() != "bypasses_armor"@.len());
}

proof fn lemma_spell_bypasses_effects()
    ensures
        damage_type_of_tag("minecraft:bypasses_effects"@) == DamageResistantType::BypassesEffects,
        damage_type_of_tag("bypasses_effects"@) == DamageResistantType::BypassesEffects,
{
    let a = "minecraft:bypasses_effects"@;
    let b = "bypasses_effects"@;
    reveal_strlit("#minecraft:always_hurts_ender_dragons");
    reveal_strlit("#minecraft:always_kills_armor_stands");
    reveal_strlit("#minecraft:always_most_significant_fall");
    reveal_strlit("#minecraft:always_triggers_silverfish");
    reveal_strlit("#minecraft:avoids_guardian_thorns");
    reveal_strlit("#minecraft:burn_from_stepping");
    reveal_strlit("#minecraft:burns_armor_stands");
    reveal_strlit("#minecraft:bypasses_armor");
    reveal_strlit("#minecraft:bypasses_cooldown");
    reveal_strlit("always_hurts_ender_dragons");
    reveal_strlit("always_kills_armor_stands");
    reveal_strlit("always_most_significant_fall");
    reveal_strlit("always_triggers_silverfish");
    reveal_strlit("avoids_guardian_thorns");
    reveal_strlit("burn_from_stepping");
    reveal_strlit("burns_armor_stands");
    reveal_strlit("bypasses_armor");
    reveal_strlit("bypasses_cooldown");
    reveal_strlit("bypasses_effects");
    reveal_strlit("minecraft:always_hurts_ender_dragons");
    reveal_strlit("minecraft:always_kills_armor_stands");
    reveal_strlit("minecraft:always_most_significant_fall");
    reveal_strlit("minecraft:always_triggers_silverfish");
    reveal_strlit("minecraft:avoids_guardian_thorns");
    reveal_strlit("minecraft:burn_from_stepping");
    reveal_strlit("minecraft:burns_armor_stands");
    reveal_strlit("minecraft:bypasses_armor");
    reveal_strlit("minecraft:bypasses_cooldown");
    reveal_strlit("minecraft:bypasses_effects");
    assert(a.len() != "#minecraft:always_hurts_ender_dragons"@.len());
    assert(b.len() != "#minecraft:always_hurts_ender_dragons"@.len());
    assert(a.len() != "minecraft:always_hurts_ender_dragons"@.len());
    assert(b.len() != "minecraft:always_hurts_ender_dragons"@.len());
    assert(a[0] != "always_hurts_ender_dragons"@[0]);
    assert(b.len() != "always_hurts_ender_dragons"@.len());
    assert(a.len() != "#minecraft:always_kills_armor_stands"@.len());
    assert(b.len() != "#minecraft:always_kills_armor_stands"@.len());
    assert(a.len() != "minecraft:always_kills_armor_stands"@.len());
    assert(b.len() != "minecraft:always_kills_armor_stands"@.len());
    assert(a.len() != "always_kills_armor_stands"@.len());
    assert(b.len() != "always_kills_armor_stands"@.len());
    assert(a.len() != "#minecraft:always_most_significant_fall"@.len());
    assert(b.len() != "#minecraft:always_most_significant_fall"@.len());
    assert(a.len() != "minecraft:always_most_significant_fall"@.len());
    assert(b.len() != "minecraft:always_most_significant_fall"@.len());
    assert(a.len() != "always_most_significant_fall"@.len());
    assert(b.len() != "always_most_significant_fall"@.len());
    assert(a.len() != "#minecraft:always_triggers_silverfish"@.len());
    assert(b.len() != "#minecraft:always_triggers_silverfish"@.len());
    assert(a.len() != "minecraft:always_triggers_silverfish"@.len());
    assert(b.len() != "minecraft:always_triggers_silverfish"@.len());
    assert(a[0] != "always_triggers_silverfish"@[0]);
    assert(b.len() != "always_triggers_silverfish"@.len());
    assert(a.len() != "#minecraft:avoids_guardian_thorns"@.len());
    assert(b.len() != "#minecraft:avoids_guardian_thorns"@.len());
    assert(a.len() != "minecraft:avoids_guardian_thorns"@.len());
    assert(b.len() != "minecraft:avoids_guardian_thorns"@.len());
    assert(a.len() != "avoids_guardian_thorns"@.len());
    assert(b.len() != "avoids_guardian_thorns"@.len());
    assert(a.len() != "#minecraft:burns_armor_stands"@.len());
    assert(b.len() != "#minecraft:burns_armor_stands"@.len());
    assert(a.len() != "minecraft:burns_armor_stands"@.len());
    assert(b.len() != "minecraft:burns_armor_stands"@.len());
    assert(a.len() != "burns_armor_stands"@.len());
    assert(b.len() != "burns_armor_stands"@.len());
    assert(a.len() != "#minecraft:burn_from_stepping"@.len());
    assert(b.len() != "#minecraft:burn_from_stepping"@.len());
    assert(a.len() != "minecraft:burn_from_stepping"@.len());
    assert(b.len() != "minecraft:burn_from_stepping"@.len());
    assert(a.len() != "burn_from_stepping"@.len());
    assert(b.len() != "burn_from_stepping"@.len());
    assert(a.len() != "#minecraft:bypasses_armor"@.len());
    assert(b.len() != "#minecraft:bypasses_armor"@.len());
    assert(a.len() != "minecraft:bypasses_armor"@.len());
    assert(b.len() != "minecraft:bypasses_armor"@.len());
    assert(a.len() != "bypasses_armor"@.len());
    assert(b.len() != "bypasses_armor"@.len());
    assert(a.len() != "#minecraft:bypasses_cooldown"@.len());
    assert(b.len() != "#minecraft:bypasses_cooldown"@.len());
    assert(a.len() != "minecraft:bypasses_cooldown"@.len());
    assert(b.len() != "minecraft:bypasses_cooldown"@.len());
    assert(a.len() != "bypasses_cooldown"@.len());
    assert(b.len() != "bypasses_cooldown"@.len());
}

proof fn lemma_spell_bypasses_enchantments()
    ensures
        damage_type_of_tag("minecraft:bypasses_enchantments"@) == DamageResistantType::BypassesEnchantments,
        damage_type_of_tag("bypasses_enchantments"@) == DamageResistantType::BypassesEnchantments,
{
    let a = "minecraft:bypasses_enchantments"@;
    let b = "bypasses_enchantments"@;
    reveal_strlit("#minecraft:always_hurts_ender_dragons");
    reveal_strlit("#minecraft:always_kills_armor_stands");
    reveal_strlit("#minecraft:always_most_significant_fall");
    reveal_strlit("#minecraft:always_triggers_silverfish");
    reveal_strlit("#minecraft:avoids_guardian_thorns");
    reveal_strlit("#minecraft:burn_from_stepping");
    reveal_strlit("#minecraft:burns_armor_stands");
    reveal_strlit("#minecraft:bypasses_armor");
    reveal_strlit("#minecraft:bypasses_cooldown");
    reveal_strlit("#minecraft:bypasses_effects");
    reveal_strlit("always_hurts_ender_dragons");
    reveal_strlit("always_kills_armor_stands");
    reveal_strlit("always_most_significant_fall");
    reveal_strlit("always_triggers_silverfish");
    reveal_strlit("avoids_guardian_thorns");
    reveal_strlit("burn_from_stepping");
    reveal_strlit("burns_armor_stands");
    reveal_strlit("bypasses_armor");
    reveal_strlit("bypasses_cooldown");
    reveal_strlit("bypasses_effects");
    reveal_strlit("bypasses_enchantments");
    reveal_strlit("minecraft:always_hurts_ender_dragons");
    reveal_strlit("minecraft:always_kills_armor_stands");
    reveal_strlit("minecraft:always_most_significant_fall");
    reveal_strlit("minecraft:always_triggers_silverfish");
    reveal_strlit("minecraft:avoids_guardian_thorns");
    reveal_strlit("minecraft:burn_from_stepping");
    reveal_strlit("minecraft:burns_armor_stands");
    reveal_strlit("minecraft:bypasses_armor");
    reveal_strlit("minecraft:bypasses_cooldown");
    reveal_strlit("minecraft:bypasses_effects");
    reveal_strlit("minecraft:bypasses_enchantments");
    assert(a.len() != "#minecraft:always_hurts_ender_dragons"@.len());
    assert(b.len() != "#minecraft:always_hurts_ender_dragons"@.len());
    assert(a.len() != "minecraft:always_hurts_ender_dragons"@.len());
    assert(b.len() != "minecraft:always_hurts_ender_dragons"@.len());
    assert(a.len() != "always_hurts_ender_dragons"@.len());
    assert(b.len() != "always_hurts_ender_dragons"@.len());
    assert(a.len() != "#minecraft:always_kills_armor_stands"@.len());
    assert(b.len() != "#minecraft:always_kills_armor_stands"@.len());
    assert(a.len() != "minecraft:always_kills_armor_stands"@.len());
    assert(b.len() != "minecraft:always_kills_armor_stands"@.len());
    assert(a.len() != "always_kills_armor_stands"@.len());
    assert(b.len() != "always_kills_armor_stands"@.len());
    assert(a.len() != "#minecraft:always_most_significant_fall"@.len());
    assert(b.len() != "#minecraft:always_most_significant_fall"@.len());
    assert(a.len() != "minecraft:always_most_significant_fall"@.len());
    assert(b.len() != "minecraft:always_most_significant_fall"@.len());
    assert(a.len() != "always_most_significant_fall"@.len());
    assert(b.len() != "always_most_significant_fall"@.len());
    assert(a.len() != "#minecraft:always_triggers_silverfish"@.len());
    assert(b.len() != "#minecraft:always_triggers_silverfish"@.len());
    assert(a.len() != "minecraft:always_triggers_silverfish"@.len());
    assert(b.len() != "minecraft:always_triggers_silverfish"@.len());
    assert(a.len() != "always_triggers_silverfish"@.len());
    assert(b.len() != "always_triggers_silverfish"@.len());
    assert(a.len() != "#minecraft:avoids_guardian_thorns"@.len());
    assert(b.len() != "#minecraft:avoids_guardian_thorns"@.len());
    assert(a.len() != "minecraft:avoids_guardian_thorns"@.len());
    assert(b.len() != "minecraft:avoids_guardian_thorns"@.len());
    assert(a.len() != "avoids_guardian_thorns"@.len());
    assert(b.len() != "avoids_guardian_thorns"@.len());
    assert(a.len() != "#minecraft:burns_armor_stands"@.len());
    assert(b.len() != "#minecraft:burns_armor_stands"@.len());
    assert(a.len() != "minecraft:burns_armor_stands"@.len());
    assert(b.len() != "minecraft:burns_armor_stands"@.len());
    assert(a.len() != "burns_armor_stands"@.len());
    assert(b.len() != "burns_armor_stands"@.len());
    assert(a.len() != "#minecraft:burn_from_stepping"@.len());
    assert(b.len() != "#minecraft:burn_from_stepping"@.len());
    assert(a.len() != "minecraft:burn_from_stepping"@.len());
    assert(b.len() != "minecraft:burn_from_stepping"@.len());
    assert(a.len() != "burn_from_stepping"@.len());
    assert(b.len() != "burn_from_stepping"@.len());
    assert(a.len() != "#minecraft:bypasses_armor"@.len());
    assert(b.len() != "#minecraft:bypasses_armor"@.len());
    assert(a.len() != "minecraft:bypasses_armor"@.len());
    assert(b.len() != "minecraft:bypasses_armor"@.len());
    assert(a.len() != "bypasses_armor"@.len());
    assert(b.len() != "bypasses_armor"@.len());
    assert(a.len() != "#minecraft:bypasses_cooldown"@.len());
    assert(b.len() != "#minecraft:bypasses_cooldown"@.len());
    assert(a.len() != "minecraft:bypasses_cooldown"@.len());
    assert(b.len() != "minecraft:bypasses_cooldown"@.len());
    assert(a.len() != "bypasses_cooldown"@.len());
    assert(b.len() != "bypasses_cooldown"@.len());
    assert(a.len() != "#minecraft:bypasses_effects"@.len());
    assert(b.len() != "#minecraft:bypasses_effects"@.len());
    assert(a.len() != "minecraft:bypasses_effects"@.len());
    assert(b.len() != "minecraft:bypasses_effects"@.len());
    assert(a.len() != "bypasses_effects"@.len());
    assert(b.len() != "bypasses_effects"@.len());
}

proof fn lemma_spell_bypasses_invulnerability()
    ensures
        damage_type_of_tag("minecraft:bypasses_invulnerability"@) == DamageResistantType::BypassesInvulnerability,
        damage_type_of_tag("bypasses_invulnerability"@) == DamageResistantType::BypassesInvulnerability,
{
    let a = "minecraft:bypasses_invulnerability"@;
    let b = "bypasses_invulnerability"@;
    reveal_strlit("#minecraft:always_hurts_ender_dragons");
    reveal_strlit("#minecraft:always_kills_armor_stands");
    reveal_strlit("#minecraft:always_most_significant_fall");
    reveal_strlit("#minecraft:always_triggers_silverfish");
    reveal_strlit("#minecraft:avoids_guardian_thorns");
    reveal_strlit("#minecraft:burn_from_stepping");
    reveal_strlit("#minecraft:burns_armor_stands");
    reveal_strlit("#minecraft:bypasses_armor");
    reveal_strlit("#minecraft:bypasses_cooldown");
    reveal_strlit("#minecraft:bypasses_effects");
    reveal_strlit("#minecraft:bypasses_enchantments");
    reveal_strlit("always_hurts_ender_dragons");
    reveal_strlit("always_kills_armor_stands");
    reveal_strlit("always_most_significant_fall");
    reveal_strlit("always_triggers_silverfish");
    reveal_strlit("avoids_guardian_thorns");
    reveal_strlit("burn_from_stepping");
    reveal_strlit("burns_armor_stands");
    reveal_strlit("bypasses_armor");
    reveal_strlit("bypasses_cooldown");
    reveal_strlit("bypasses_effects");
    reveal_strlit("bypasses_enchantments");
    reveal_strlit("bypasses_invulnerability");
    reveal_strlit("minecraft:always_hurts_ender_dragons");
    reveal_strlit("minecraft:always_kills_armor_stands");
    reveal_strlit("minecraft:always_most_significant_fall");
    reveal_strlit("minecraft:always_triggers_silverfish");
    reveal_strlit("minecraft:avoids_guardian_thorns");
    reveal_strlit("minecraft:burn_from_stepping");
    reveal_strlit("minecraft:burns_armor_stands");
    reveal_strlit("minecraft:bypasses_armor");
    reveal_strlit("minecraft:bypasses_cooldown");
    reveal_strlit("minecraft:bypasses_effects");
    reveal_strlit("minecraft:bypasses_enchantments");
    reveal_strlit("minecraft:bypasses_invulnerability");
    assert(a.len() != "#minecraft:always_hurts_ender_dragons"@.len());
    assert(b.len() != "#minecraft:always_hurts_ender_dragons"@.len());
    assert(a.len() != "minecraft:always_hurts_ender_dragons"@.len());
    assert(b.len() != "minecraft:always_hurts_ender_dragons"@.len());
    assert(a.len() != "always_hurts_ender_dragons"@.len());
    assert(b.len() != "always_hurts_ender_dragons"@.len());
    assert(a.len() != "#minecraft:always_kills_armor_stands"@.len());
    assert(b.len() != "#minecraft:always_kills_armor_stands"@.len());
    assert(a.len() != "minecraft:always_kills_armor_stands"@.len());
    assert(b.len() != "minecraft:always_kills_armor_stands"@.len());
    assert(a.len() != "always_kills_armor_stands"@.len());
    assert(b.len() != "always_kills_armor_stands"@.len());
    assert(a.len() != "#minecraft:always_most_significant_fall"@.len());
    assert(b.len() != "#minecraft:always_most_significant_fall"@.len());
    assert(a.len() != "minecraft:always_most_significant_fall"@.len());
    assert(b.len() != "minecraft:always_most_significant_fall"@.len());
    assert(a.len() != "always_most_significant_fall"@.len());
    assert(b.len() != "always_most_significant_fall"@.len());
    assert(a.len() != "#minecraft:always_triggers_silverfish"@.len());
    assert(b.len() != "#minecraft:always_triggers_silverfish"@.len());
    assert(a.len() != "minecraft:always_triggers_silverfish"@.len());
    assert(b.len() != "minecraft:always_triggers_silverfish"@.len());
    assert(a.len() != "always_triggers_silverfish"@.len());
    assert(b.len() != "always_triggers_silverfish"@.len());
    assert(a.len() != "#minecraft:avoids_guardian_thorns"@.len());
    assert(b.len() != "#minecraft:avoids_guardian_thorns"@.len());
    assert(a.len() != "minecraft:avoids_guardian_thorns"@.len());
    assert(b.len() != "minecraft:avoids_guardian_thorns"@.len());
    assert(a.len() != "avoids_guardian_thorns"@.len());
    assert(b.len() != "avoids_guardian_thorns"@.len());
    assert(a.len() != "#minecraft:burns_armor_stands"@.len());
    assert(b.len() != "#minecraft:burns_armor_stands"@.len());
    assert(a.len() != "minecraft:burns_armor_stands"@.len());
    assert(b.len() != "minecraft:burns_armor_stands"@.len());
    assert(a.len() != "burns_armor_stands"@.len());
    assert(b.len() != "burns_armor_stands"@.len());
    assert(a.len() != "#minecraft:burn_from_stepping"@.len());
    assert(b.len() != "#minecraft:burn_from_stepping"@.len());
    assert(a.len() != "minecraft:burn_from_stepping"@.len());
    assert(b.len() != "minecraft:burn_from_stepping"@.len());
    assert(a.len() != "burn_from_stepping"@.len());
    assert(b.len() != "burn_from_stepping"@.len());
    assert(a.len() != "#minecraft:bypasses_armor"@.len());
    assert(b.len() != "#minecraft:bypasses_armor"@.len());
    assert(a.len() != "minecraft:bypasses_armor"@.len());
    assert(b[0] != "minecraft:bypasses_armor"@[0]);
    assert(a.len() != "bypasses_armor"@.len());
    assert(b.len() != "bypasses_armor"@.len());
    assert(a.len() != "#minecraft:bypasses_cooldown"@.len());
    assert(b.len() != "#minecraft:bypasses_cooldown"@.len());
    assert(a.len() != "minecraft:bypasses_cooldown"@.len());
    assert(b.len() != "minecraft:bypasses_cooldown"@.len());
    assert(a.len() != "bypasses_cooldown"@.len());
    assert(b.len() != "bypasses_cooldown"@.len());
    assert(a.len() != "#minecraft:bypasses_effects"@.len());
    assert(b.len() != "#minecraft:bypasses_effects"@.len());
    assert(a.len() != "minecraft:bypasses_effects"@.len());
    assert(b.len() != "minecraft:bypasses_effects"@.len());
    assert(a.len() != "bypasses_effects"@.len());
    assert(b.len() != "bypasses_effects"@.len());
    assert(a.len() != "#minecraft:bypasses_enchantments"@.len());
    assert(b.len() != "#minecraft:bypasses_enchantments"@.len());
    assert(a.len() != "minecraft:bypasses_enchantments"@.len());
    assert(b.len() != "minecraft:bypasses_enchantments"@.len());
    assert(a.len() != "bypasses_enchantments"@.len());
    assert(b.len() != "bypasses_enchantments"@.len());
}

proof fn lemma_spell_bypasses_resistance()
    ensures
        damage_type_of_tag("minecraft:bypasses_resistance"@) == DamageResistantType::BypassesResistance,
        damage_type_of_tag("bypasses_resistance"@) == DamageResistantType::BypassesResistance,
{
    let a = "minecraft:bypasses_resistance"@;
    let b = "bypasses_resistance"@;
    reveal_strlit("#minecraft:always_hurts_ender_dragons");
    reveal_strlit("#minecraft:always_kills_armor_stands");
    reveal_strlit("#minecraft:always_most_significant_fall");
    reveal_strlit("#minecraft:always_triggers_silverfish");
    reveal_strlit("#minecraft:avoids_guardian_thorns");
    reveal_strlit("#minecraft:burn_from_stepping");
    reveal_strlit("#minecraft:burns_armor_stands");
    reveal_strlit("#minecraft:bypasses_armor");
    reveal_strlit("#minecraft:bypasses_cooldown");
    reveal_strlit("#minecraft:bypasses_effects");
    reveal_strlit("#minecraft:bypasses_enchantments");
    reveal_strlit("#minecraft:bypasses_invulnerability");
    reveal_strlit("always_hurts_ender_dragons");
    reveal_strlit("always_kills_armor_stands");
    reveal_strlit("always_most_significant_fall");
    reveal_strlit("always_triggers_silverfish");
    reveal_strlit("avoids_guardian_thorns");
    reveal_strlit("burn_from_stepping");
    reveal_strlit("burns_armor_stands");
    reveal_strlit("bypasses_armor");
    reveal_strlit("bypasses_cooldown");
    reveal_strlit("bypasses_effects");
    reveal_strlit("bypasses_enchantments");
    reveal_strlit("bypasses_invulnerability");
    reveal_strlit("bypasses_resistance");
    reveal_strlit("minecraft:always_hurts_ender_dragons");
    reveal_strlit("minecraft:always_kills_armor_stands");
    reveal_strlit("minecraft:always_most_significant_fall");
    reveal_strlit("minecraft:always_triggers_silverfish");
    reveal_strlit("minecraft:avoids_guardian_thorns");
    reveal_strlit("minecraft:burn_from_stepping");
    reveal_strlit("minecraft:burns_armor_stands");
    reveal_strlit("minecraft:bypasses_armor");
    reveal_strlit("minecraft:bypasses_cooldown");
    reveal_strlit("minecraft:bypasses_effects");
    reveal_strlit("minecraft:bypasses_enchantments");
    reveal_strlit("minecraft:bypasses_invulnerability");
    reveal_strlit("minecraft:bypasses_resistance");
    assert(a.len() != "#minecraft:always_hurts_ender_dragons"@.len());
    assert(b.len() != "#minecraft:always_hurts_ender_dragons"@.len());
    assert(a.len() != "minecraft:always_hurts_ender_dragons"@.len());
    assert(b.len() != "minecraft:always_hurts_ender_dragons"@.len());
    assert(a.len() != "always_hurts_ender_dragons"@.len());
    assert(b.len() != "always_hurts_ender_dragons"@.len());
    assert(a.len() != "#minecraft:always_kills_armor_stands"@.len());
    assert(b.len() != "#minecraft:always_kills_armor_stands"@.len());
    assert(a.len() != "minecraft:always_kills_armor_stands"@.len());
    assert(b.len() != "minecraft:always_kills_armor_stands"@.len());
    assert(a.len() != "always_kills_armor_stands"@.len());
    assert(b.len() != "always_kills_armor_stands"@.len());
    assert(a.len() != "#minecraft:always_most_significant_fall"@.len());
    assert(b.len() != "#minecraft:always_most_significant_fall"@.len());
    assert(a.len() != "minecraft:always_most_significant_fall"@.len());
    assert(b.len() != "minecraft:always_most_significant_fall"@.len());
    assert(a.len() != "always_most_significant_fall"@.len());
    assert(b.len() != "always_most_significant_fall"@.len());
    assert(a.len() != "#minecraft:always_triggers_silverfish"@.len());
    assert(b.len() != "#minecraft:always_triggers_silverfish"@.len());
    assert(a.len() != "minecraft:always_triggers_silverfish"@.len());
    assert(b.len() != "minecraft:always_triggers_silverfish"@.len());
    assert(a.len() != "always_triggers_silverfish"@.len());
    assert(b.len() != "always_triggers_silverfish"@.len());
    assert(a.len() != "#minecraft:avoids_guardian_thorns"@.len());
    assert(b.len() != "#minecraft:avoids_guardian_thorns"@.len());
    assert(a.len() != "minecraft:avoids_guardian_thorns"@.len());
    assert(b.len() != "minecraft:avoids_guardian_thorns"@.len());
    assert(a.len() != "avoids_guardian_thorns"@.len());
    assert(b.len() != "avoids_guardian_thorns"@.len());
    assert(a[0] != "#minecraft:burns_armor_stands"@[0]);
    assert(b.len() != "#minecraft:burns_armor_stands"@.len());
    assert(a.len() != "minecraft:burns_armor_stands"@.len());
    assert(b.len() != "minecraft:burns_armor_stands"@.len());
    assert(a.len() != "burns_armor_stands"@.len());
    assert(b.len() != "burns_armor_stands"@.len());
    assert(a[0] != "#minecraft:burn_from_stepping"@[0]);
    assert(b.len() != "#minecraft:burn_from_stepping"@.len());
    assert(a.len() != "minecraft:burn_from_stepping"@.len());
    assert(b.len() != "minecraft:burn_from_stepping"@.len());
    assert(a.len() != "burn_from_stepping"@.len());
    assert(b.len() != "burn_from_stepping"@.len());
    assert(a.len() != "#minecraft:bypasses_armor"@.len());
    assert(b.len() != "#minecraft:bypasses_armor"@.len());
    assert(a.len() != "minecraft:bypasses_armor"@.len());
    assert(b.len() != "minecraft:bypasses_armor"@.len());
    assert(a.len() != "bypasses_armor"@.len());
    assert(b.len() != "bypasses_armor"@.len());
    assert(a.len() != "#minecraft:bypasses_cooldown"@.len());
    assert(b.len() != "#minecraft:bypasses_cooldown"@.len());
    assert(a.len() != "minecraft:bypasses_cooldown"@.len());
    assert(b.len() != "minecraft:bypasses_cooldown"@.len());
    assert(a.len() != "bypasses_cooldown"@.len());
    assert(b.len() != "bypasses_cooldown"@.len());
    assert(a.len() != "#minecraft:bypasses_effects"@.len());
    assert(b.len() != "#minecraft:bypasses_effects"@.len());
    assert(a.len() != "minecraft:bypasses_effects"@.len());
    assert(b.len() != "minecraft:bypasses_effects"@.len());
    assert(a.len() != "bypasses_effects"@.len());
    assert(b.len() != "bypasses_effects"@.len());
    assert(a.len() != "#minecraft:bypasses_enchantments"@.len());
    assert(b.len() != "#minecraft:bypasses_enchantments"@.len());
    assert(a.len() != "minecraft:bypasses_enchantments"@.len());
    assert(b.len() != "minecraft:bypasses_enchantments"@.len());
    assert(a.len() != "bypasses_enchantments"@.len());
    assert(b.len() != "bypasses_enchantments"@.len());
    assert(a.len() != "#minecraft:bypasses_invulnerability"@.len());
    assert(b.len() != "#minecraft:bypasses_invulnerability"@.len());
    assert(a.len() != "minecraft:bypasses_invulnerability"@.len());
    assert(b.len() != "minecraft:bypasses_invulnerability"@.len());
    assert(a.len() != "bypasses_invulnerability"@.len());
    assert(b.len() != "bypasses_invulnerability"@.len());
}

proof fn lemma_spell_bypasses_shield()
    ensures
        damage_type_of_tag("minecraft:bypasses_shield"@) == DamageResistantType::BypassesShield,
        damage_type_of_tag("bypasses_shield"@) == DamageResistantType::BypassesShield,
{
    let a = "minecraft:bypasses_shield"@;
    let b = "bypasses_shield"@;
    reveal_strlit("#minecraft:always_hurts_ender_dragons");
    reveal_strlit("#minecraft:always_kills_armor_stands");
    reveal_strlit("#minecraft:always_most_significant_fall");
    reveal_strlit("#minecraft:always_triggers_silverfish");
    reveal_strlit("#minecraft:avoids_guardian_thorns");
    reveal_strlit("#minecraft:burn_from_stepping");
    reveal_strlit("#minecraft:burns_armor_stands");
    reveal_strlit("#minecraft:bypasses_armor");
    reveal_strlit("#minecraft:bypasses_cooldown");
    reveal_strlit("#minecraft:bypasses_effects");
    reveal_strlit("#minecraft:bypasses_enchantments");
    reveal_strlit("#minecraft:bypasses_invulnerability");
    reveal_strlit("#minecraft:bypasses_resistance");
    reveal_strlit("always_hurts_ender_dragons");
    reveal_strlit("always_kills_armor_stands");
    reveal_strlit("always_most_significant_fall");
    reveal_strlit("always_triggers_silverfish");
    reveal_strlit("avoids_guardian_thorns");
    reveal_strlit("burn_from_stepping");
    reveal_strlit("burns_armor_stands");
    reveal_strlit("bypasses_armor");
    reveal_strlit("bypasses_cooldown");
    reveal_strlit("bypasses_effects");
    reveal_strlit("bypasses_enchantments");
    reveal_strlit("bypasses_invulnerability");
    reveal_strlit("bypasses_resistance");
    reveal_strlit("bypasses_shield");
    reveal_strlit("minecraft:always_hurts_ender_dragons");
    reveal_strlit("minecraft:always_kills_armor_stands");
    reveal_strlit("minecraft:always_most_significant_fall");
    reveal_strlit("minecraft:always_triggers_silverfish");
    reveal_strlit("minecraft:avoids_guardian_thorns");
    reveal_strlit("minecraft:burn_from_stepping");
    reveal_strlit("minecraft:burns_armor_stands");
    reveal_strlit("minecraft:bypasses_armor");
    reveal_strlit("minecraft:bypasses_cooldown");
    reveal_strlit("minecraft:bypasses_effects");
    reveal_strlit("minecraft:bypasses_enchantments");
    reveal_strlit("minecraft:bypasses_invulnerability");
    reveal_strlit("minecraft:bypasses_resistance");
    reveal_strlit("minecraft:bypasses_shield");
    assert(a.len() != "#minecraft:always_hurts_ender_dragons"@.len());
    assert(b.len() != "#minecraft:always_hurts_ender_dragons"@.len());
    assert(a.len() != "minecraft:always_hurts_ender_dragons"@.len());
    assert(b.len() != "minecraft:always_hurts_ender_dragons"@.len());
    assert(a.len() != "always_hurts_ender_dragons"@.len());
    assert(b.len() != "always_hurts_ender_dragons"@.len());
    assert(a.len() != "#minecraft:always_kills_armor_stands"@.len());
    assert(b.len() != "#minecraft:always_kills_armor_stands"@.len());
    assert(a.len() != "minecraft:always_kills_armor_stands"@.len());
    assert(b.len() != "minecraft:always_kills_armor_stands"@.len());
    assert(a[0] != "always_kills_armor_stands"@[0]);
    assert(b.len() != "always_kills_armor_stands"@.len());
    assert(a.len() != "#minecraft:always_most_significant_fall"@.len());
    assert(b.len() != "#minecraft:always_most_significant_fall"@.len());
    assert(a.len() != "minecraft:always_most_significant_fall"@.len());
    assert(b.len() != "minecraft:always_most_significant_fall"@.len());
    assert(a.len() != "always_most_significant_fall"@.len());
    assert(b.len() != "always_most_significant_fall"@.len());
    assert(a.len() != "#minecraft:always_triggers_silverfish"@.len());
    assert(b.len() != "#minecraft:always_triggers_silverfish"@.len());
    assert(a.len() != "minecraft:always_triggers_silverfish"@.len());
    assert(b.len() != "minecraft:always_triggers_silverfish"@.len());
    assert(a.len() != "always_triggers_silverfish"@.len());
    assert(b.len() != "always_triggers_silverfish"@.len());
    assert(a.len() != "#minecraft:avoids_guardian_thorns"@.len());
    assert(b.len() != "#minecraft:avoids_guardian_thorns"@.len());
    assert(a.len() != "minecraft:avoids_guardian_thorns"@.len());
    assert(b.len() != "minecraft:avoids_guardian_thorns"@.len());
    assert(a.len() != "avoids_guardian_thorns"@.len());
    assert(b.len() != "avoids_guardian_thorns"@.len());
    assert(a.len() != "#minecraft:burns_armor_stands"@.len());
    assert(b.len() != "#minecraft:burns_armor_stands"@.len());
    assert(a.len() != "minecraft:burns_armor_stands"@.len());
    assert(b.len() != "minecraft:burns_armor_stands"@.len());
    assert(a.len() != "burns_armor_stands"@.len());
    assert(b.len() != "burns_armor_stands"@.len());
    assert(a.len() != "#minecraft:burn_from_stepping"@.len());
    assert(b.len() != "#minecraft:burn_from_stepping"@.len());
    assert(a.len() != "minecraft:burn_from_stepping"@.len());
    assert(b.len() != "minecraft:burn_from_stepping"@.len());
    assert(a.len() != "burn_from_stepping"@.len());
    assert(b.len() != "burn_from_stepping"@.len());
    assert(a[0] != "#minecraft:bypasses_armor"@[0]);
    assert(b.len() != "#minecraft:bypasses_armor"@.len());
    assert(a.len() != "minecraft:bypasses_armor"@.len());
    assert(b.len() != "minecraft:bypasses_armor"@.len());
    assert(a.len() != "bypasses_armor"@.len());
    assert(b.len() != "bypasses_armor"@.len());
    assert(a.len() != "#minecraft:bypasses_cooldown"@.len());
    assert(b.len() != "#minecraft:bypasses_cooldown"@.len());
    assert(a.len() != "minecraft:bypasses_cooldown"@.len());
    assert(b.len() != "minecraft:bypasses_cooldown"@.len());
    assert(a.len() != "bypasses_cooldown"@.len());
    assert(b.len() != "bypasses_cooldown"@.len());
    assert(a.len() != "#minecraft:bypasses_effects"@.len());
    assert(b.len() != "#minecraft:bypasses_effects"@.len());
    assert(a.len() != "minecraft:bypasses_effects"@.len());
    assert(b.len() != "minecraft:bypasses_effects"@.len());
    assert(a.len() != "bypasses_effects"@.len());
    assert(b.len() != "bypasses_effects"@.len());
    assert(a.len() != "#minecraft:bypasses_enchantments"@.len());
    assert(b.len() != "#minecraft:bypasses_enchantments"@.len());
    assert(a.len() != "minecraft:bypasses_enchantments"@.len());
    assert(b.len() != "minecraft:bypasses_enchantments"@.len());
    assert(a.len() != "bypasses_enchantments"@.len());
    assert(b.len() != "bypasses_enchantments"@.len());
    assert(a.len() != "#minecraft:bypasses_invulnerability"@.len());
    assert(b.len() != "#minecraft:bypasses_invulnerability"@.len());
    assert(a.len() != "minecraft:bypasses_invulnerability"@.len());
    assert(b.len() != "minecraft:bypasses_invulnerability"@.len());
    assert(a.len() != "bypasses_invulnerability"@.len());
    assert(b.len() != "bypasses_invulnerability"@.len());
    assert(a.len() != "#minecraft:bypasses_resistance"@.len());
    assert(b.len() != "#minecraft:bypasses_resistance"@.len());
    assert(a.len() != "minecraft:bypasses_resistance"@.len());
    assert(b.len() != "minecraft:bypasses_resistance"@.len());
    assert(a.len() != "bypasses_resistance"@.len());
    assert(b.len() != "bypasses_resistance"@.len());
}

proof fn lemma_spell_bypasses_wolf_armor()
    ensures
        damage_type_of_tag("minecraft:bypasses_wolf_armor"@) == DamageResistantType::BypassesWolfArmor,
        damage_type_of_tag("bypasses_wolf_armor"@) == DamageResistantType::BypassesWolfArmor,
{
    let a = "minecraft:bypasses_wolf_armor"@;
    let b = "bypasses_wolf_armor"@;
    reveal_strlit("#minecraft:always_hurts_ender_dragons");
    reveal_strlit("#minecraft:always_kills_armor_stands");
    reveal_strlit("#minecraft:always_most_significant_fall");
    reveal_strlit("#minecraft:always_triggers_silverfish");
    reveal_strlit("#minecraft:avoids_guardian_thorns");
    reveal_strlit("#minecraft:burn_from_stepping");
    reveal_strlit("#minecraft:burns_armor_stands");
    reveal_strlit("#minecraft:bypasses_armor");
    reveal_strlit("#minecraft:bypasses_cooldown");
    reveal_strlit("#minecraft:bypasses_effects");
    reveal_strlit("#minecraft:bypasses_enchantments");
    reveal_strlit("#minecraft:bypasses_invulnerability");
    reveal_strlit("#minecraft:bypasses_resistance");
    reveal_strlit("#minecraft:bypasses_shield");
    reveal_strlit("always_hurts_ender_dragons");
    reveal_strlit("always_kills_armor_stands");
    reveal_strlit("always_most_significant_fall");
    reveal_strlit("always_triggers_silverfish");
    reveal_strlit("avoids_guardian_thorns");
    reveal_strlit("burn_from_stepping");
    reveal_strlit("burns_armor_stands");
    reveal_strlit("bypasses_armor");
    reveal_strlit("bypasses_cooldown");
    reveal_strlit("bypasses_effects");
    reveal_strlit("bypasses_enchantments");
    reveal_strlit("bypasses_invulnerability");
    reveal_strlit("bypasses_resistance");
    reveal_strlit("bypasses_shield");
    reveal_strlit("bypasses_wolf_armor");
    reveal_strlit("minecraft:always_hurts_ender_dragons");
    reveal_strlit("minecraft:always_kills_armor_stands");
    reveal_strlit("minecraft:always_most_significant_fall");
    reveal_strlit("minecraft:always_triggers_silverfish");
    reveal_strlit("minecraft:avoids_guardian_thorns");
    reveal_strlit("minecraft:burn_from_stepping");
    reveal_strlit("minecraft:burns_armor_stands");
    reveal_strlit("minecraft:bypasses_armor");
    reveal_strlit("minecraft:bypasses_cooldown");
    reveal_strlit("minecraft:bypasses_effects");
    reveal_strlit("minecraft:bypasses_enchantments");
    reveal_strlit("minecraft:bypasses_invulnerability");
    reveal_strlit("minecraft:bypasses_resistance");
    reveal_strlit("minecraft:bypasses_shield");
    reveal_strlit("minecraft:bypasses_wolf_armor");
    assert(a.len() != "#minecraft:always_hurts_ender_dragons"@.len());
    assert(b.len() != "#minecraft:always_hurts_ender_dragons"@.len());
    assert(a.len() != "minecraft:always_hurts_ender_dragons"@.len());
    assert(b.len() != "minecraft:always_hurts_ender_dragons"@.len());
    assert(a.len() != "always_hurts_ender_dragons"@.len());
    assert(b.len() != "always_hurts_ender_dragons"@.len());
    assert(a.len() != "#minecraft:always_kills_armor_stands"@.len());
    assert(b.len() != "#minecraft:always_kills_armor_stands"@.len());
    assert(a.len() != "minecraft:always_kills_armor_stands"@.len());
    assert(b.len() != "minecraft:always_kills_armor_stands"@.len());
    assert(a.len() != "always_kills_armor_stands"@.len());
    assert(b.len() != "always_kills_armor_stands"@.len());
    assert(a.len() != "#minecraft:always_most_significant_fall"@.len());
    assert(b.len() != "#minecraft:always_most_significant_fall"@.len());
    assert(a.len() != "minecraft:always_most_significant_fall"@.len());
    assert(b.len() != "minecraft:always_most_significant_fall"@.len());
    assert(a.len() != "always_most_significant_fall"@.len());
    assert(b.len() != "always_most_significant_fall"@.len());
    assert(a.len() != "#minecraft:always_triggers_silverfish"@.len());
    assert(b.len() != "#minecraft:always_triggers_silverfish"@.len());
    assert(a.len() != "minecraft:always_triggers_silverfish"@.len());
    assert(b.len() != "minecraft:always_triggers_silverfish"@.len());
    assert(a.len() != "always_triggers_silverfish"@.len());
    assert(b.len() != "always_triggers_silverfish"@.len());
    assert(a.len() != "#minecraft:avoids_guardian_thorns"@.len());
    assert(b.len() != "#minecraft:avoids_guardian_thorns"@.len());
    assert(a.len() != "minecraft:avoids_guardian_thorns"@.len());
    assert(b.len() != "minecraft:avoids_guardian_thorns"@.len());
    assert(a.len() != "avoids_guardian_thorns"@.len());
    assert(b.len() != "avoids_guardian_thorns"@.len());
    assert(a[0] != "#minecraft:burns_armor_stands"@[0]);
    assert(b.len() != "#minecraft:burns_armor_stands"@.len());
    assert(a.len() != "minecraft:burns_armor_stands"@.len());
    assert(b.len() != "minecraft:burns_armor_stands"@.len());
    assert(a.len() != "burns_armor_stands"@.len());
    assert(b.len() != "burns_armor_stands"@.len());
    assert(a[0] != "#minecraft:burn_from_stepping"@[0]);
    assert(b.len() != "#minecraft:burn_from_stepping"@.len());
    assert(a.len() != "minecraft:burn_from_stepping"@.len());
    assert(b.len() != "minecraft:burn_from_stepping"@.len());
    assert(a.len() != "burn_from_stepping"@.len());
    assert(b.len() != "burn_from_stepping"@.len());
    assert(a.len() != "#minecraft:bypasses_armor"@.len());
    assert(b.len() != "#minecraft:bypasses_armor"@.len());
    assert(a.len() != "minecraft:bypasses_armor"@.len());
    assert(b.len() != "minecraft:bypasses_armor"@.len());
    assert(a.len() != "bypasses_armor"@.len());
    assert(b.len() != "bypasses_armor"@.len());
    assert(a.len() != "#minecraft:bypasses_cooldown"@.len());
    assert(b.len() != "#minecraft:bypasses_cooldown"@.len());
    assert(a.len() != "minecraft:bypasses_cooldown"@.len());
    assert(b.len() != "minecraft:bypasses_cooldown"@.len());
    assert(a.len() != "bypasses_cooldown"@.len());
    assert(b.len() != "bypasses_cooldown"@.len());
    assert(a.len() != "#minecraft:bypasses_effects"@.len());
    assert(b.len() != "#minecraft:bypasses_effects"@.len());
    assert(a.len() != "minecraft:bypasses_effects"@.len());
    assert(b.len() != "minecraft:bypasses_effects"@.len());
    assert(a.len() != "bypasses_effects"@.len());
    assert(b.len() != "bypasses_effects"@.len());
    assert(a.len() != "#minecraft:bypasses_enchantments"@.len());
    assert(b.len() != "#minecraft:bypasses_enchantments"@.len());
    assert(a.len() != "minecraft:bypasses_enchantments"@.len());
    assert(b.len() != "minecraft:bypasses_enchantments"@.len());
    assert(a.len() != "bypasses_enchantments"@.len());
    assert(b.len() != "bypasses_enchantments"@.len());
    assert(a.len() != "#minecraft:bypasses_invulnerability"@.len());
    assert(b.len() != "#minecraft:bypasses_invulnerability"@.len());
    assert(a.len() != "minecraft:bypasses_invulnerability"@.len());
    assert(b.len() != "minecraft:bypasses_invulnerability"@.len());
    assert(a.len() != "bypasses_invulnerability"@.len());
    assert(b.len() != "bypasses_invulnerability"@.len());
    assert(a.len() != "#minecraft:bypasses_resistance"@.len());
    assert(b.len() != "#minecraft:bypasses_resistance"@.len());
    assert(a[19] != "minecraft:bypasses_resistance"@[19]);
    assert(b.len() != "minecraft:bypasses_resistance"@.len());
    assert(a.len() != "bypasses_resistance"@.len());
    assert(b[9] != "bypasses_resistance"@[9]);
    assert(a.len() != "#minecraft:bypasses_shield"@.len());
    assert(b.len() != "#minecraft:bypasses_shield"@.len());
    assert(a.len() != "minecraft:bypasses_shield"@.len());
    assert(b.len() != "minecraft:bypasses_shield"@.len());
    assert(a.len() != "bypasses_shield"@.len());
    assert(b.len() != "bypasses_shield"@.len());
}

proof fn lemma_spell_can_break_armor_stands()
    ensures
        damage_type_of_tag("minecraft:can_break_armor_stand"@) == DamageResistantType::CanBreakArmorStands,
        damage_type_of_tag("can_break_armor_stand"@) == DamageResistantType::CanBreakArmorStands,
{
    let a = "minecraft:can_break_armor_stand"@;
    let b = "can_break_armor_stand"@;
    reveal_strlit("#minecraft:always_hurts_ender_dragons");
    reveal_strlit("#minecraft:always_kills_armor_stands");
    reveal_strlit("#minecraft:always_most_significant_fall");
    reveal_strlit("#minecraft:always_triggers_silverfish");
    reveal_strlit("#minecraft:avoids_guardian_thorns");
    reveal_strlit("#minecraft:burn_from_stepping");
    reveal_strlit("#minecraft:burns_armor_stands");
    reveal_strlit("#minecraft:bypasses_armor");
    reveal_strlit("#minecraft:bypasses_cooldown");
    reveal_strlit("#minecraft:bypasses_effects");
    reveal_strlit("#minecraft:bypasses_enchantments");
    reveal_strlit("#minecraft:bypasses_invulnerability");
    reveal_strlit("#minecraft:bypasses_resistance");
    reveal_strlit("#minecraft:bypasses_shield");
    reveal_strlit("#minecraft:bypasses_wolf_armor");
    reveal_strlit("always_hurts_ender_dragons");
    reveal_strlit("always_kills_armor_stands");
    reveal_strlit("always_most_significant_fall");
    reveal_strlit("always_triggers_silverfish");
    reveal_strlit("avoids_guardian_thorns");
    reveal_strlit("burn_from_stepping");
    reveal_strlit("burns_armor_stands");
    reveal_strlit("bypasses_armor");
    reveal_strlit("bypasses_cooldown");
    reveal_strlit("bypasses_effects");
    reveal_strlit("bypasses_enchantments");
    reveal_strlit("bypasses_invulnerability");
    reveal_strlit("bypasses_resistance");
    reveal_strlit("bypasses_shield");
    reveal_strlit("bypasses_wolf_armor");
    reveal_strlit("can_break_armor_stand");
    reveal_strlit("minecraft:always_hurts_ender_dragons");
    reveal_strlit("minecraft:always_kills_armor_stands");
    reveal_strlit("minecraft:always_most_significant_fall");
    reveal_strlit("minecraft:always_triggers_silverfish");
    reveal_strlit("minecraft:avoids_guardian_thorns");
    reveal_strlit("minecraft:burn_from_stepping");
    reveal_strlit("minecraft:burns_armor_stands");
    reveal_strlit("minecraft:bypasses_armor");
    reveal_strlit("minecraft:bypasses_cooldown");
    reveal_strlit("minecraft:bypasses_effects");
    reveal_strlit("minecraft:bypasses_enchantments");
    reveal_strlit("minecraft:bypasses_invulnerability");
    reveal_strlit("minecraft:bypasses_resistance");
    reveal_strlit("minecraft:bypasses_shield");
    reveal_strlit("minecraft:bypasses_wolf_armor");
    reveal_strlit("minecraft:can_break_armor_stand");
    assert(a.len() != "#minecraft:always_hurts_ender_dragons"@.len());
    assert(b.len() != "#minecraft:always_hurts_ender_dragons"@.len());
    assert(a.len() != "minecraft:always_hurts_ender_dragons"@.len());
    assert(b.len() != "minecraft:always_hurts_ender_dragons"@.len());
    assert(a.len() != "always_hurts_ender_dragons"@.len());
    assert(b.len() != "always_hurts_ender_dragons"@.len());
    assert(a.len() != "#minecraft:always_kills_armor_stands"@.len());
    assert(b.len() != "#minecraft:always_kills_armor_stands"@.len());
    assert(a.len() != "minecraft:always_kills_armor_stands"@.len());
    assert(b.len() != "minecraft:always_kills_armor_stands"@.len());
    assert(a.len() != "always_kills_armor_stands"@.len());
    assert(b.len() != "always_kills_armor_stands"@.len());
    assert(a.len() != "#minecraft:always_most_significant_fall"@.len());
    assert(b.len() != "#minecraft:always_most_significant_fall"@.len());
    assert(a.len() != "minecraft:always_most_significant_fall"@.len());
    assert(b.len() != "minecraft:always_most_significant_fall"@.len());
    assert(a.len() != "always_most_significant_fall"@.len());
    assert(b.len() != "always_most_significant_fall"@.len());
    assert(a.len() != "#minecraft:always_triggers_silverfish"@.len());
    assert(b.len() != "#minecraft:always_triggers_silverfish"@.len());
    assert(a.len() != "minecraft:always_triggers_silverfish"@.len());
    assert(b.len() != "minecraft:always_triggers_silverfish"@.len());
    assert(a.len() != "always_triggers_silverfish"@.len());
    assert(b.len() != "always_triggers_silverfish"@.len());
    assert(a.len() != "#minecraft:avoids_guardian_thorns"@.len());
    assert(b.len() != "#minecraft:avoids_guardian_thorns"@.len());
    assert(a.len() != "minecraft:avoids_guardian_thorns"@.len());
    assert(b.len() != "minecraft:avoids_guardian_thorns"@.len());
    assert(a.len() != "avoids_guardian_thorns"@.len());
    assert(b.len() != "avoids_guardian_thorns"@.len());
    assert(a.len() != "#minecraft:burns_armor_stands"@.len());
    assert(b.len() != "#minecraft:burns_armor_stands"@.len());
    assert(a.len() != "minecraft:burns_armor_stands"@.len());
    assert(b.len() != "minecraft:burns_armor_stands"@.len());
    assert(a.len() != "burns_armor_stands"@.len());
    assert(b.len() != "burns_armor_stands"@.len());
    assert(a.len() != "#minecraft:burn_from_stepping"@.len());
    assert(b.len() != "#minecraft:burn_from_stepping"@.len());
    assert(a.len() != "minecraft:burn_from_stepping"@.len());
    assert(b.len() != "minecraft:burn_from_stepping"@.len());
    assert(a.len() != "burn_from_stepping"@.len());
    assert(b.len() != "burn_from_stepping"@.len());
    assert(a.len() != "#minecraft:bypasses_armor"@.len());
    assert(b.len() != "#minecraft:bypasses_armor"@.len());
    assert(a.len() != "minecraft:bypasses_armor"@.len());
    assert(b.len() != "minecraft:bypasses_armor"@.len());
    assert(a.len() != "bypasses_armor"@.len());
    assert(b.len() != "bypasses_armor"@.len());
    assert(a.len() != "#minecraft:bypasses_cooldown"@.len());
    assert(b.len() != "#minecraft:bypasses_cooldown"@.len());
    assert(a.len() != "minecraft:bypasses_cooldown"@.len());
    assert(b.len() != "minecraft:bypasses_cooldown"@.len());
    assert(a.len() != "bypasses_cooldown"@.len());
    assert(b.len() != "bypasses_cooldown"@.len());
    assert(a.len() != "#minecraft:bypasses_effects"@.len());
    assert(b.len() != "#minecraft:bypasses_effects"@.len());
    assert(a.len() != "minecraft:bypasses_effects"@.len());
    assert(b.len() != "minecraft:bypasses_effects"@.len());
    assert(a.len() != "bypasses_effects"@.len());
    assert(b.len() != "bypasses_effects"@.len());
    assert(a.len() != "#minecraft:bypasses_enchantments"@.len());
    assert(b.len() != "#minecraft:bypasses_enchantments"@.len());
    assert(a[10] != "minecraft:bypasses_enchantments"@[10]);
    assert(b.len() != "minecraft:bypasses_enchantments"@.len());
    assert(a.len() != "bypasses_enchantments"@.len());
    assert(b[0] != "bypasses_enchantments"@[0]);
    assert(a.len() != "#minecraft:bypasses_invulnerability"@.len());
    assert(b.len() != "#minecraft:bypasses_invulnerability"@.len());
    assert(a.len() != "minecraft:bypasses_invulnerability"@.len());
    assert(b.len() != "minecraft:bypasses_invulnerability"@.len());
    assert(a.len() != "bypasses_invulnerability"@.len());
    assert(b.len() != "bypasses_invulnerability"@.len());
    assert(a.len() != "#minecraft:bypasses_resistance"@.len());
    assert(b.len() != "#minecraft:bypasses_resistance"@.len());
    assert(a.len() != "minecraft:bypasses_resistance"@.len());
    assert(b.len() != "minecraft:bypasses_resistance"@.len());
    assert(a.len() != "bypasses_resistance"@.len());
    assert(b.len() != "bypasses_resistance"@.len());
    assert(a.len() != "#minecraft:bypasses_shield"@.len());
    assert(b.len() != "#minecraft:bypasses_shield"@.len());
    assert(a.len() != "minecraft:bypasses_shield"@.len());
    assert(b.len() != "minecraft:bypasses_shield"@.len());
    assert(a.len() != "bypasses_shield"@.len());
    assert(b.len() != "bypasses_shield"@.len());
    assert(a.len() != "#minecraft:bypasses_wolf_armor"@.len());
    assert(b.len() != "#minecraft:bypasses_wolf_armor"@.len());
    assert(a.len() != "minecraft:bypasses_wolf_armor"@.len());
    assert(b.len() != "minecraft:bypasses_wolf_armor"@.len());
    assert(a.len() != "bypasses_wolf_armor"@.len());
    assert(b.len() != "bypasses_wolf_armor"@.len());
}

proof fn lemma_spell_damages_helmet()
    ensures
        damage_type_of_tag("minecraft:damages_helmet"@) == DamageResistantType::DamagesHelmet,
        damage_type_of_tag("damages_helmet"@) == DamageResistantType::DamagesHelmet,
{
    let a = "minecraft:damages_helmet"@;
    let b = "damages_helmet"@;
    reveal_strlit("#minecraft:always_hurts_ender_dragons");
    reveal_strlit("#minecraft:always_kills_armor_stands");
    reveal_strlit("#minecraft:always_most_significant_fall");
    reveal_strlit("#minecraft:always_triggers_silverfish");
    reveal_strlit("#minecraft:avoids_guardian_thorns");
    reveal_strlit("#minecraft:burn_from_stepping");
    reveal_strlit("#minecraft:burns_armor_stands");
    reveal_strlit("#minecraft:bypasses_armor");
    reveal_strlit("#minecraft:bypasses_cooldown");
    reveal_strlit("#minecraft:bypasses_effects");
    reveal_strlit("#minecraft:bypasses_enchantments");
    reveal_strlit("#minecraft:bypasses_invulnerability");
    reveal_strlit("#minecraft:bypasses_resistance");
    reveal_strlit("#minecraft:bypasses_shield");
    reveal_strlit("#minecraft:bypasses_wolf_armor");
    reveal_strlit("#minecraft:can_break_armor_stand");
    reveal_strlit("always_hurts_ender_dragons");
    reveal_strlit("always_kills_armor_stands");
    reveal_strlit("always_most_significant_fall");
    reveal_strlit("always_triggers_silverfish");
    reveal_strlit("avoids_guardian_thorns");
    reveal_strlit("burn_from_stepping");
    reveal_strlit("burns_armor_stands");
    reveal_strlit("bypasses_armor");
    reveal_strlit("bypasses_cooldown");
    reveal_strlit("bypasses_effects");
    reveal_strlit("bypasses_enchantments");
    reveal_strlit("bypasses_invulnerability");
    reveal_strlit("bypasses_resistance");
    reveal_strlit("bypasses_shield");
    reveal_strlit("bypasses_wolf_armor");
    reveal_strlit("can_break_armor_stand");
    reveal_strlit("damages_helmet");
    reveal_strlit("minecraft:always_hurts_ender_dragons");
    reveal_strlit("minecraft:always_kills_armor_stands");
    reveal_strlit("minecraft:always_most_significant_fall");
    reveal_strlit("minecraft:always_triggers_silverfish");
    reveal_strlit("minecraft:avoids_guardian_thorns");
    reveal_strlit("minecraft:burn_from_stepping");
    reveal_strlit("minecraft:burns_armor_stands");
    reveal_strlit("minecraft:bypasses_armor");
    reveal_strlit("minecraft:bypasses_cooldown");
    reveal_strlit("minecraft:bypasses_effects");
    reveal_strlit("minecraft:bypasses_enchantments");
    reveal_strlit("minecraft:bypasses_invulnerability");
    reveal_strlit("minecraft:bypasses_resistance");
    reveal_strlit("minecraft:bypasses_shield");
    reveal_strlit("minecraft:bypasses_wolf_armor");
    reveal_strlit("minecraft:can_break_armor_stand");
    reveal_strlit("minecraft:damages_helmet");
    assert(a.len() != "#minecraft:always_hurts_ender_dragons"@.len());
    assert(b.len() != "#minecraft:always_hurts_ender_dragons"@.len());
    assert(a.len() != "minecraft:always_hurts_ender_dragons"@.len());
    assert(b.len() != "minecraft:always_hurts_ender_dragons"@.len());
    assert(a.len() != "always_hurts_ender_dragons"@.len());
    assert(b.len() != "always_hurts_ender_dragons"@.len());
    assert(a.len() != "#minecraft:always_kills_armor_stands"@.len());
    assert(b.len() != "#minecraft:always_kills_armor_stands"@.len());
    assert(a.len() != "minecraft:always_kills_armor_stands"@.len());
    assert(b.len() != "minecraft:always_kills_armor_stands"@.len());
    assert(a.len() != "always_kills_armor_stands"@.len());
    assert(b.len() != "always_kills_armor_stands"@.len());
    assert(a.len() != "#minecraft:always_most_significant_fall"@.len());
    assert(b.len() != "#minecraft:always_most_significant_fall"@.len());
    assert(a.len() != "minecraft:always_most_significant_fall"@.len());
    assert(b.len() != "minecraft:always_most_significant_fall"@.len());
    assert(a.len() != "always_most_significant_fall"@.len());
    assert(b.len() != "always_most_significant_fall"@.len());
    assert(a.len() != "#minecraft:always_triggers_silverfish"@.len());
    assert(b.len() != "#minecraft:always_triggers_silverfish"@.len());
    assert(a.len() != "minecraft:always_triggers_silverfish"@.len());
    assert(b.len() != "minecraft:always_triggers_silverfish"@.len());
    assert(a.len() != "always_triggers_silverfish"@.len());
    assert(b.len() != "always_triggers_silverfish"@.len());
    assert(a.len() != "#minecraft:avoids_guardian_thorns"@.len());
    assert(b.len() != "#minecraft:avoids_guardian_thorns"@.len());
    assert(a.len() != "minecraft:avoids_guardian_thorns"@.len());
    assert(b.len() != "minecraft:avoids_guardian_thorns"@.len());
    assert(a.len() != "avoids_guardian_thorns"@.len());
    assert(b.len() != "avoids_guardian_thorns"@.len());
    assert(a.len() != "#minecraft:burns_armor_stands"@.len());
    assert(b.len() != "#minecraft:burns_armor_stands"@.len());
    assert(a.len() != "minecraft:burns_armor_stands"@.len());
    assert(b.len() != "minecraft:burns_armor_stands"@.len());
    assert(a.len() != "burns_armor_stands"@.len());
    assert(b.len() != "burns_armor_stands"@.len());
    assert(a.len() != "#minecraft:burn_from_stepping"@.len());
    assert(b.len() != "#minecraft:burn_from_stepping"@.len());
    assert(a.len() != "minecraft:burn_from_stepping"@.len());
    assert(b.len() != "minecraft:burn_from_stepping"@.len());
    assert(a.len() != "burn_from_stepping"@.len());
    assert(b.len() != "burn_from_stepping"@.len());
    assert(a.len() != "#minecraft:bypasses_armor"@.len());
    assert(b.len() != "#minecraft:bypasses_armor"@.len());
    assert(a[10] != "minecraft:bypasses_armor"@[10]);
    assert(b.len() != "minecraft:bypasses_armor"@.len());
    assert(a.len() != "bypasses_armor"@.len());
    assert(b[0] != "bypasses_armor"@[0]);
    assert(a.len() != "#minecraft:bypasses_cooldown"@.len());
    assert(b.len() != "#minecraft:bypasses_cooldown"@.len());
    assert(a.len() != "minecraft:bypasses_cooldown"@.len());
    assert(b.len() != "minecraft:bypasses_cooldown"@.len());
    assert(a.len() != "bypasses_cooldown"@.len());
    assert(b.len() != "bypasses_cooldown"@.len());
    assert(a.len() != "#minecraft:bypasses_effects"@.len());
    assert(b.len() != "#minecraft:bypasses_effects"@.len());
    assert(a.len() != "minecraft:bypasses_effects"@.len());
    assert(b.len() != "minecraft:bypasses_effects"@.len());
    assert(a.len() != "bypasses_effects"@.len());
    assert(b.len() != "bypasses_effects"@.len());
    assert(a.len() != "#minecraft:bypasses_enchantments"@.len());
    assert(b.len() != "#minecraft:bypasses_enchantments"@.len());
    assert(a.len() != "minecraft:bypasses_enchantments"@.len());
    assert(b.len() != "minecraft:bypasses_enchantments"@.len());
    assert(a.len() != "bypasses_enchantments"@.len());
    assert(b.len() != "bypasses_enchantments"@.len());
    assert(a.len() != "#minecraft:bypasses_invulnerability"@.len());
    assert(b.len() != "#minecraft:bypasses_invulnerability"@.len());
    assert(a.len() != "minecraft:bypasses_invulnerability"@.len());
    assert(b.len() != "minecraft:bypasses_invulnerability"@.len());
    assert(a[0] != "bypasses_invulnerability"@[0]);
    assert(b.len() != "bypasses_invulnerability"@.len());
    assert(a.len() != "#minecraft:bypasses_resistance"@.len());
    assert(b.len() != "#minecraft:bypasses_resistance"@.len());
    assert(a.len() != "minecraft:bypasses_resistance"@.len());
    assert(b.len() != "minecraft:bypasses_resistance"@.len());
    assert(a.len() != "bypasses_resistance"@.len());
    assert(b.len() != "bypasses_resistance"@.len());
    assert(a.len() != "#minecraft:bypasses_shield"@.len());
    assert(b.len() != "#minecraft:bypasses_shield"@.len());
    assert(a.len() != "minecraft:bypasses_shield"@.len());
    assert(b.len() != "minecraft:bypasses_shield"@.len());
    assert(a.len() != "bypasses_shield"@.len());
    assert(b.len() != "bypasses_shield"@.len());
    assert(a.len() != "#minecraft:bypasses_wolf_armor"@.len());
    assert(b.len() != "#minecraft:bypasses_wolf_armor"@.len());
    assert(a.len() != "minecraft:bypasses_wolf_armor"@.len());
    assert(b.len() != "minecraft:bypasses_wolf_armor"@.len());
    assert(a.len() != "bypasses_wolf_armor"@.len());
    assert(b.len() != "bypasses_wolf_armor"@.len());
    assert(a.len() != "#minecraft:can_break_armor_stand"@.len());
    assert(b.len() != "#minecraft:can_break_armor_stand"@.len());
    assert(a.len() != "minecraft:can_break_armor_stand"@.len());
    assert(b.len() != "minecraft:can_break_armor_stand"@.len());
    assert(a.len() != "can_break_armor_stand"@.len());
    assert(b.len() != "can_break_armor_stand"@.len());
}

proof fn lemma_spell_ignites_armor_stands()
    ensures
        damage_type_of_tag("minecraft:ignites_armor_stands"@) == DamageResistantType::IgnitesArmorStands,
        damage_type_of_tag("ignites_armor_stands"@) == DamageResistantType::IgnitesArmorStands,
{
    let a = "minecraft:ignites_armor_stands"@;
    let b = "ignites_armor_stands"@;
    reveal_strlit("#minecraft:always_hurts_ender_dragons");
    reveal_strlit("#minecraft:always_kills_armor_stands");
    reveal_strlit("#minecraft:always_most_significant_fall");
    reveal_strlit("#minecraft:always_triggers_silverfish");
    reveal_strlit("#minecraft:avoids_guardian_thorns");
    reveal_strlit("#minecraft:burn_from_stepping");
    reveal_strlit("#minecraft:burns_armor_stands");
    reveal_strlit("#minecraft:bypasses_armor");
    reveal_strlit("#minecraft:bypasses_cooldown");
    reveal_strlit("#minecraft:bypasses_effects");
    reveal_strlit("#minecraft:bypasses_enchantments");
    reveal_strlit("#minecraft:bypasses_invulnerability");
    reveal_strlit("#minecraft:bypasses_resistance");
    reveal_strlit("#minecraft:bypasses_shield");
    reveal_strlit("#minecraft:bypasses_wolf_armor");
    reveal_strlit("#minecraft:can_break_armor_stand");
    reveal_strlit("#minecraft:damages_helmet");
    reveal_strlit("always_hurts_ender_dragons");
    reveal_strlit("always_kills_armor_stands");
    reveal_strlit("always_most_significant_fall");
    reveal_strlit("always_triggers_silverfish");
    reveal_strlit("avoids_guardian_thorns");
    reveal_strlit("burn_from_stepping");
    reveal_strlit("burns_armor_stands");
    reveal_strlit("bypasses_armor");
    reveal_strlit("bypasses_cooldown");
    reveal_strlit("bypasses_effects");
    reveal_strlit("bypasses_enchantments");
    reveal_strlit("bypasses_invulnerability");
    reveal_strlit("bypasses_resistance");
    reveal_strlit("bypasses_shield");
    reveal_strlit("bypasses_wolf_armor");
    reveal_strlit("can_break_armor_stand");
    reveal_strlit("damages_helmet");
    reveal_strlit("ignites_armor_stands");
    reveal_strlit("minecraft:always_hurts_ender_dragons");
    reveal_strlit("minecraft:always_kills_armor_stands");
    reveal_strlit("minecraft:always_most_significant_fall");
    reveal_strlit("minecraft:always_triggers_silverfish");
    reveal_strlit("minecraft:avoids_guardian_thorns");
    reveal_strlit("minecraft:burn_from_stepping");
    reveal_strlit("minecraft:burns_armor_stands");
    reveal_strlit("minecraft:bypasses_armor");
    reveal_strlit("minecraft:bypasses_cooldown");
    reveal_strlit("minecraft:bypasses_effects");
    reveal_strlit("minecraft:bypasses_enchantments");
    reveal_strlit("minecraft:bypasses_invulnerability");
    reveal_strlit("minecraft:bypasses_resistance");
    reveal_strlit("minecraft:bypasses_shield");
    reveal_strlit("minecraft:bypasses_wolf_armor");
    reveal_strlit("minecraft:can_break_armor_stand");
    reveal_strlit("minecraft:damages_helmet");
    reveal_strlit("minecraft:ignites_armor_stands");
    assert(a.len() != "#minecraft:always_hurts_ender_dragons"@.len());
    assert(b.len() != "#minecraft:always_hurts_ender_dragons"@.len());
    assert(a.len() != "minecraft:always_hurts_ender_dragons"@.len());
    assert(b.len() != "minecraft:always_hurts_ender_dragons"@.len());
    assert(a.len() != "always_hurts_ender_dragons"@.len());
    assert(b.len() != "always_hurts_ender_dragons"@.len());
    assert(a.len() != "#minecraft:always_kills_armor_stands"@.len());
    assert(b.len() != "#minecraft:always_kills_armor_stands"@.len());
    assert(a.len() != "minecraft:always_kills_armor_stands"@.len());
    assert(b.len() != "minecraft:always_kills_armor_stands"@.len());
    assert(a.len() != "always_kills_armor_stands"@.len());
    assert(b.len() != "always_kills_armor_stands"@.len());
    assert(a.len() != "#minecraft:always_most_significant_fall"@.len());
    assert(b.len() != "#minecraft:always_most_significant_fall"@.len());
    assert(a.len() != "minecraft:always_most_significant_fall"@.len());
    assert(b.len() != "minecraft:always_most_significant_fall"@.len());
    assert(a.len() != "always_most_significant_fall"@.len());
    assert(b.len() != "always_most_significant_fall"@.len());
    assert(a.len() != "#minecraft:always_triggers_silverfish"@.len());
    assert(b.len() != "#minecraft:always_triggers_silverfish"@.len());
    assert(a.len() != "minecraft:always_triggers_silverfish"@.len());
    assert(b.len() != "minecraft:always_triggers_silverfish"@.len());
    assert(a.len() != "always_triggers_silverfish"@.len());
    assert(b.len() != "always_triggers_silverfish"@.len());
    assert(a.len() != "#minecraft:avoids_guardian_thorns"@.len());
    assert(b.len() != "#minecraft:avoids_guardian_thorns"@.len());
    assert(a.len() != "minecraft:avoids_guardian_thorns"@.len());
    assert(b.len() != "minecraft:avoids_guardian_thorns"@.len());
    assert(a.len() != "avoids_guardian_thorns"@.len());
    assert(b.len() != "avoids_guardian_thorns"@.len());
    assert(a.len() != "#minecraft:burns_armor_stands"@.len());
    assert(b.len() != "#minecraft:burns_armor_stands"@.len());
    assert(a.len() != "minecraft:burns_armor_stands"@.len());
    assert(b.len() != "minecraft:burns_armor_stands"@.len());
    assert(a.len() != "burns_armor_stands"@.len());
    assert(b.len() != "burns_armor_stands"@.len());
    assert(a.len() != "#minecraft:burn_from_stepping"@.len());
    assert(b.len() != "#minecraft:burn_from_stepping"@.len());
    assert(a.len() != "minecraft:burn_from_stepping"@.len());
    assert(b.len() != "minecraft:burn_from_stepping"@.len());
    assert(a.len() != "burn_from_stepping"@.len());
    assert(b.len() != "burn_from_stepping"@.len());
    assert(a.len() != "#minecraft:bypasses_armor"@.len());
    assert(b.len() != "#minecraft:bypasses_armor"@.len());
    assert(a.len() != "minecraft:bypasses_armor"@.len());
    assert(b.len() != "minecraft:bypasses_armor"@.len());
    assert(a.len() != "bypasses_armor"@.len());
    assert(b.len() != "bypasses_armor"@.len());
    assert(a.len() != "#minecraft:bypasses_cooldown"@.len());
    assert(b.len() != "#minecraft:bypasses_cooldown"@.len());
    assert(a.len() != "minecraft:bypasses_cooldown"@.len());
    assert(b.len() != "minecraft:bypasses_cooldown"@.len());
    assert(a.len() != "bypasses_cooldown"@.len());
    assert(b.len() != "bypasses_cooldown"@.len());
    assert(a.len() != "#minecraft:bypasses_effects"@.len());
    assert(b.len() != "#minecraft:bypasses_effects"@.len());
    assert(a.len() != "minecraft:bypasses_effects"@.len());
    assert(b.len() != "minecraft:bypasses_effects"@.len());
    assert(a.len() != "bypasses_effects"@.len());
    assert(b.len() != "bypasses_effects"@.len());
    assert(a.len() != "#minecraft:bypasses_enchantments"@.len());
    assert(b.len() != "#minecraft:bypasses_enchantments"@.len());
    assert(a.len() != "minecraft:bypasses_enchantments"@.len());
    assert(b.len() != "minecraft:bypasses_enchantments"@.len());
    assert(a.len() != "bypasses_enchantments"@.len());
    assert(b.len() != "bypasses_enchantments"@.len());
    assert(a.len() != "#minecraft:bypasses_invulnerability"@.len());
    assert(b.len() != "#minecraft:bypasses_invulnerability"@.len());
    assert(a.len() != "minecraft:bypasses_invulnerability"@.len());
    assert(b.len() != "minecraft:bypasses_invulnerability"@.len());
    assert(a.len() != "bypasses_invulnerability"@.len());
    assert(b.len() != "bypasses_invulnerability"@.len());
    assert(a[0] != "#minecraft:bypasses_resistance"@[0]);
    assert(b.len() != "#minecraft:bypasses_resistance"@.len());
    assert(a.len() != "minecraft:bypasses_resistance"@.len());
    assert(b.len() != "minecraft:bypasses_resistance"@.len());
    assert(a.len() != "bypasses_resistance"@.len());
    assert(b.len() != "bypasses_resistance"@.len());
    assert(a.len() != "#minecraft:bypasses_shield"@.len());
    assert(b.len() != "#minecraft:bypasses_shield"@.len());
    assert(a.len() != "minecraft:bypasses_shield"@.len());
    assert(b.len() != "minecraft:bypasses_shield"@.len());
    assert(a.len() != "bypasses_shield"@.len());
    assert(b.len() != "bypasses_shield"@.len());
    assert(a[0] != "#minecraft:bypasses_wolf_armor"@[0]);
    assert(b.len() != "#minecraft:bypasses_wolf_armor"@.len());
    assert(a.len() != "minecraft:bypasses_wolf_armor"@.len());
    assert(b.len() != "minecraft:bypasses_wolf_armor"@.len());
    assert(a.len() != "bypasses_wolf_armor"@.len());
    assert(b.len() != "bypasses_wolf_armor"@.len());
    assert(a.len() != "#minecraft:can_break_armor_stand"@.len());
    assert(b.len() != "#minecraft:can_break_armor_stand"@.len());
    assert(a.len() != "minecraft:can_break_armor_stand"@.len());
    assert(b.len() != "minecraft:can_break_armor_stand"@.len());
    assert(a.len() != "can_break_armor_stand"@.len());
    assert(b.len() != "can_break_armor_stand"@.len());
    assert(a.len() != "#minecraft:damages_helmet"@.len());
    assert(b.len() != "#minecraft:damages_helmet"@.len());
    assert(a.len() != "minecraft:damages_helmet"@.len());
    assert(b.len() != "minecraft:damages_helmet"@.len());
    assert(a.len() != "damages_helmet"@.len());
    assert(b.len() != "damages_helmet"@.len());
}

proof fn lemma_spell_drowning()
    ensures
        damage_type_of_tag("minecraft:is_drowning"@) == DamageResistantType::Drowning,
        damage_type_of_tag("is_drowning"@) == DamageResistantType::Drowning,
{
    let a = "minecraft:is_drowning"@;
    let b = "is_drowning"@;
    reveal_strlit("#minecraft:always_hurts_ender_dragons");
    reveal_strlit("#minecraft:always_kills_armor_stands");
    reveal_strlit("#minecraft:always_most_significant_fall");
    reveal_strlit("#minecraft:always_triggers_silverfish");
    reveal_strlit("#minecraft:avoids_guardian_thorns");
    reveal_strlit("#minecraft:burn_from_stepping");
    reveal_strlit("#minecraft:burns_armor_stands");
    reveal_strlit("#minecraft:bypasses_armor");
    reveal_strlit("#minecraft:bypasses_cooldown");
    reveal_strlit("#minecraft:bypasses_effects");
    reveal_strlit("#minecraft:bypasses_enchantments");
    reveal_strlit("#minecraft:bypasses_invulnerability");
    reveal_strlit("#minecraft:bypasses_resistance");
    reveal_strlit("#minecraft:bypasses_shield");
    reveal_strlit("#minecraft:bypasses_wolf_armor");
    reveal_strlit("#minecraft:can_break_armor_stand");
    reveal_strlit("#minecraft:damages_helmet");
    reveal_strlit("#minecraft:ignites_armor_stands");
    reveal_strlit("always_hurts_ender_dragons");
    reveal_strlit("always_kills_armor_stands");
    reveal_strlit("always_most_significant_fall");
    reveal_strlit("always_triggers_silverfish");
    reveal_strlit("avoids_guardian_thorns");
    reveal_strlit("burn_from_stepping");
    reveal_strlit("burns_armor_stands");
    reveal_strlit("bypasses_armor");
    reveal_strlit("bypasses_cooldown");
    reveal_strlit("bypasses_effects");
    reveal_strlit("bypasses_enchantments");
    reveal_strlit("bypasses_invulnerability");
    reveal_strlit("bypasses_resistance");
    reveal_strlit("bypasses_shield");
    reveal_strlit("bypasses_wolf_armor");
    reveal_strlit("can_break_armor_stand");
    reveal_strlit("damages_helmet");
    reveal_strlit("ignites_armor_stands");
    reveal_strlit("is_drowning");
    reveal_strlit("minecraft:always_hurts_ender_dragons");
    reveal_strlit("minecraft:always_kills_armor_stands");
    reveal_strlit("minecraft:always_most_significant_fall");
    reveal_strlit("minecraft:always_triggers_silverfish");
    reveal_strlit("minecraft:avoids_guardian_thorns");
    reveal_strlit("minecraft:burn_from_stepping");
    reveal_strlit("minecraft:burns_armor_stands");
    reveal_strlit("minecraft:bypasses_armor");
    reveal_strlit("minecraft:bypasses_cooldown");
    reveal_strlit("minecraft:bypasses_effects");
    reveal_strlit("minecraft:bypasses_enchantments");
    reveal_strlit("minecraft:bypasses_invulnerability");
    reveal_strlit("minecraft:bypasses_resistance");
    reveal_strlit("minecraft:bypasses_shield");
    reveal_strlit("minecraft:bypasses_wolf_armor");
    reveal_strlit("minecraft:can_break_armor_stand");
    reveal_strlit("minecraft:damages_helmet");
    reveal_strlit("minecraft:ignites_armor_stands");
    reveal_strlit("minecraft:is_drowning");
    assert(a.len() != "#minecraft:always_hurts_ender_dragons"@.len());
    assert(b.len() != "#minecraft:always_hurts_ender_dragons"@.len());
    assert(a.len() != "minecraft:always_hurts_ender_dragons"@.len());
    assert(b.len() != "minecraft:always_hurts_ender_dragons"@.len());
    assert(a.len() != "always_hurts_ender_dragons"@.len());
    assert(b.len() != "always_hurts_ender_dragons"@.len());
    assert(a.len() != "#minecraft:always_kills_armor_stands"@.len());
    assert(b.len() != "#minecraft:always_kills_armor_stands"@.len());
    assert(a.len() != "minecraft:always_kills_armor_stands"@.len());
    assert(b.len() != "minecraft:always_kills_armor_stands"@.len());
    assert(a.len() != "always_kills_armor_stands"@.len());
    assert(b.len() != "always_kills_armor_stands"@.len());
    assert(a.len() != "#minecraft:always_most_significant_fall"@.len());
    assert(b.len() != "#minecraft:always_most_significant_fall"@.len());
    assert(a.len() != "minecraft:always_most_significant_fall"@.len());
    assert(b.len() != "minecraft:always_most_significant_fall"@.len());
    assert(a.len() != "always_most_significant_fall"@.len());
    assert(b.len() != "always_most_significant_fall"@.len());
    assert(a.len() != "#minecraft:always_triggers_silverfish"@.len());
    assert(b.len() != "#minecraft:always_triggers_silverfish"@.len());
    assert(a.len() != "minecraft:always_triggers_silverfish"@.len());
    assert(b.len() != "minecraft:always_triggers_silverfish"@.len());
    assert(a.len() != "always_triggers_silverfish"@.len());
    assert(b.len() != "always_triggers_silverfish"@.len());
    assert(a.len() != "#minecraft:avoids_guardian_thorns"@.len());
    assert(b.len() != "#minecraft:avoids_guardian_thorns"@.len());
    assert(a.len() != "minecraft:avoids_guardian_thorns"@.len());
    assert(b.len() != "minecraft:avoids_guardian_thorns"@.len());
    assert(a.len() != "avoids_guardian_thorns"@.len());
    assert(b.len() != "avoids_guardian_thorns"@.len());
    assert(a.len() != "#minecraft:burns_armor_stands"@.len());
    assert(b.len() != "#minecraft:burns_armor_stands"@.len());
    assert(a.len() != "minecraft:burns_armor_stands"@.len());
    assert(b.len() != "minecraft:burns_armor_stands"@.len());
    assert(a.len() != "burns_armor_stands"@.len());
    assert(b.len() != "burns_armor_stands"@.len());
    assert(a.len() != "#minecraft:burn_from_stepping"@.len());
    assert(b.len() != "#minecraft:burn_from_stepping"@.len());
    assert(a.len() != "minecraft:burn_from_stepping"@.len());
    assert(b.len() != "minecraft:burn_from_stepping"@.len());
    assert(a.len() != "burn_from_stepping"@.len());
    assert(b.len() != "burn_from_stepping"@.len());
    assert(a.len() != "#minecraft:bypasses_armor"@.len());
    assert(b.len() != "#minecraft:bypasses_armor"@.len());
    assert(a.len() != "minecraft:bypasses_armor"@.len());
    assert(b.len() != "minecraft:bypasses_armor"@.len());
    assert(a.len() != "bypasses_armor"@.len());
    assert(b.len() != "bypasses_armor"@.len());
    assert(a.len() != "#minecraft:bypasses_cooldown"@.len());
    assert(b.len() != "#minecraft:bypasses_cooldown"@.len());
    assert(a.len() != "minecraft:bypasses_cooldown"@.len());
    assert(b.len() != "minecraft:bypasses_cooldown"@.len());
    assert(a.len() != "bypasses_cooldown"@.len());
    assert(b.len() != "bypasses_cooldown"@.len());
    assert(a.len() != "#minecraft:bypasses_effects"@.len());
    assert(b.len() != "#minecraft:bypasses_effects"@.len());
    assert(a.len() != "minecraft:bypasses_effects"@.len());
    assert(b.len() != "minecraft:bypasses_effects"@.len());
    assert(a.len() != "bypasses_effects"@.len());
    assert(b.len() != "bypasses_effects"@.len());
    assert(a.len() != "#minecraft:bypasses_enchantments"@.len());
    assert(b.len() != "#minecraft:bypasses_enchantments"@.len());
    assert(a.len() != "minecraft:bypasses_enchantments"@.len());
    assert(b.len() != "minecraft:bypasses_enchantments"@.len());
    assert(a[0] != "bypasses_enchantments"@[0]);
    assert(b.len() != "bypasses_enchantments"@.len());
    assert(a.len() != "#minecraft:bypasses_invulnerability"@.len());
    assert(b.len() != "#minecraft:bypasses_invulnerability"@.len());
    assert(a.len() != "minecraft:bypasses_invulnerability"@.len());
    assert(b.len() != "minecraft:bypasses_invulnerability"@.len());
    assert(a.len() != "bypasses_invulnerability"@.len());
    assert(b.len() != "bypasses_invulnerability"@.len());
    assert(a.len() != "#minecraft:bypasses_resistance"@.len());
    assert(b.len() != "#minecraft:bypasses_resistance"@.len());
    assert(a.len() != "minecraft:bypasses_resistance"@.len());
    assert(b.len() != "minecraft:bypasses_resistance"@.len());
    assert(a.len() != "bypasses_resistance"@.len());
    assert(b.len() != "bypasses_resistance"@.len());
    assert(a.len() != "#minecraft:bypasses_shield"@.len());
    assert(b.len() != "#minecraft:bypasses_shield"@.len());
    assert(a.len() != "minecraft:bypasses_shield"@.len());
    assert(b.len() != "minecraft:bypasses_shield"@.len());
    assert(a.len() != "bypasses_shield"@.len());
    assert(b.len() != "bypasses_shield"@.len());
    assert(a.len() != "#minecraft:bypasses_wolf_armor"@.len());
    assert(b.len() != "#minecraft:bypasses_wolf_armor"@.len());
    assert(a.len() != "minecraft:bypasses_wolf_armor"@.len());
    assert(b.len() != "minecraft:bypasses_wolf_armor"@.len());
    assert(a.len() != "bypasses_wolf_armor"@.len());
    assert(b.len() != "bypasses_wolf_armor"@.len());
    assert(a.len() != "#minecraft:can_break_armor_stand"@.len());
    assert(b.len() != "#minecraft:can_break_armor_stand"@.len());
    assert(a.len() != "minecraft:can_break_armor_stand"@.len());
    assert(b.len() != "minecraft:can_break_armor_stand"@.len());
    assert(a[0] != "can_break_armor_stand"@[0]);
    assert(b.len() != "can_break_armor_stand"@.len());
    assert(a.len() != "#minecraft:damages_helmet"@.len());
    assert(b.len() != "#minecraft:damages_helmet"@.len());
    assert(a.len() != "minecraft:damages_helmet"@.len());
    assert(b.len() != "minecraft:damages_helmet"@.len());
    assert(a.len() != "damages_helmet"@.len());
    assert(b.len() != "damages_helmet"@.len());
    assert(a.len() != "#minecraft:ignites_armor_stands"@.len());
    assert(b.len() != "#minecraft:ignites_armor_stands"@.len());
    assert(a.len() != "minecraft:ignites_armor_stands"@.len());
    assert(b.len() != "minecraft:ignites_armor_stands"@.len());
    assert(a.len() != "ignites_armor_stands"@.len());
    assert(b.len() != "ignites_armor_stands"@.len());
}

proof fn lemma_spell_explosion()
    ensures
        damage_type_of_tag("minecraft:is_explosion"@) == DamageResistantType::Explosion,
        damage_type_of_tag("is_explosion"@) == DamageResistantType::Explosion,
{
    let a = "minecraft:is_explosion"@;
    let b = "is_explosion"@;
    reveal_strlit("#minecraft:always_hurts_ender_dragons");
    reveal_strlit("#minecraft:always_kills_armor_stands");
    reveal_strlit("#minecraft:always_most_significant_fall");
    reveal_strlit("#minecraft:always_triggers_silverfish");
    reveal_strlit("#minecraft:avoids_guardian_thorns");
    reveal_strlit("#minecraft:burn_from_stepping");
    reveal_strlit("#minecraft:burns_armor_stands");
    reveal_strlit("#minecraft:bypasses_armor");
    reveal_strlit("#minecraft:bypasses_cooldown");
    reveal_strlit("#minecraft:bypasses_effects");
    reveal_strlit("#minecraft:bypasses_enchantments");
    reveal_strlit("#minecraft:bypasses_invulnerability");
    reveal_strlit("#minecraft:bypasses_resistance");
    reveal_strlit("#minecraft:bypasses_shield");
    reveal_strlit("#minecraft:bypasses_wolf_armor");
    reveal_strlit("#minecraft:can_break_armor_stand");
    reveal_strlit("#minecraft:damages_helmet");
    reveal_strlit("#minecraft:ignites_armor_stands");
    reveal_strlit("#minecraft:is_drowning");
    reveal_strlit("always_hurts_ender_dragons");
    reveal_strlit("always_kills_armor_stands");
    reveal_strlit("always_most_significant_fall");
    reveal_strlit("always_triggers_silverfish");
    reveal_strlit("avoids_guardian_thorns");
    reveal_strlit("burn_from_stepping");
    reveal_strlit("burns_armor_stands");
    reveal_strlit("bypasses_armor");
    reveal_strlit("bypasses_cooldown");
    reveal_strlit("bypasses_effects");
    reveal_strlit("bypasses_enchantments");
    reveal_strlit("bypasses_invulnerability");
    reveal_strlit("bypasses_resistance");
    reveal_strlit("bypasses_shield");
    reveal_strlit("bypasses_wolf_armor");
    reveal_strlit("can_break_armor_stand");
    reveal_strlit("damages_helmet");
    reveal_strlit("ignites_armor_stands");
    reveal_strlit("is_drowning");
    reveal_strlit("is_explosion");
    reveal_strlit("minecraft:always_hurts_ender_dragons");
    reveal_strlit("minecraft:always_kills_armor_stands");
    reveal_strlit("minecraft:always_most_significant_fall");
    reveal_strlit("minecraft:always_triggers_silverfish");
    reveal_strlit("minecraft:avoids_guardian_thorns");
    reveal_strlit("minecraft:burn_from_stepping");
    reveal_strlit("minecraft:burns_armor_stands");
    reveal_strlit("minecraft:bypasses_armor");
    reveal_strlit("minecraft:bypasses_cooldown");
    reveal_strlit("minecraft:bypasses_effects");
    reveal_strlit("minecraft:bypasses_enchantments");
    reveal_strlit("minecraft:bypasses_invulnerability");
    reveal_strlit("minecraft:bypasses_resistance");
    reveal_strlit("minecraft:bypasses_shield");
    reveal_strlit("minecraft:bypasses_wolf_armor");
    reveal_strlit("minecraft:can_break_armor_stand");
    reveal_strlit("minecraft:damages_helmet");
    reveal_strlit("minecraft:ignites_armor_stands");
    reveal_strlit("minecraft:is_drowning");
    reveal_strlit("minecraft:is_explosion");
    assert(a.len() != "#minecraft:always_hurts_ender_dragons"@.len());
    assert(b.len() != "#minecraft:always_hurts_ender_dragons"@.len());
    assert(a.len() != "minecraft:always_hurts_ender_dragons"@.len());
    assert(b.len() != "minecraft:always_hurts_ender_dragons"@.len());
    assert(a.len() != "always_hurts_ender_dragons"@.len());
    assert(b.len() != "always_hurts_ender_dragons"@.len());
    assert(a.len() != "#minecraft:always_kills_armor_stands"@.len());
    assert(b.len() != "#minecraft:always_kills_armor_stands"@.len());
    assert(a.len() != "minecraft:always_kills_armor_stands"@.len());
    assert(b.len() != "minecraft:always_kills_armor_stands"@.len());
    assert(a.len() != "always_kills_armor_stands"@.len());
    assert(b.len() != "always_kills_armor_stands"@.len());
    assert(a.len() != "#minecraft:always_most_significant_fall"@.len());
    assert(b.len() != "#minecraft:always_most_significant_fall"@.len());
    assert(a.len() != "minecraft:always_most_significant_fall"@.len());
    assert(b.len() != "minecraft:always_most_significant_fall"@.len());
    assert(a.len() != "always_most_significant_fall"@.len());
    assert(b.len() != "always_most_significant_fall"@.len());
    assert(a.len() != "#minecraft:always_triggers_silverfish"@.len());
    assert(b.len() != "#minecraft:always_triggers_silverfish"@.len());
    assert(a.len() != "minecraft:always_triggers_silverfish"@.len());
    assert(b.len() != "minecraft:always_triggers_silverfish"@.len());
    assert(a.len() != "always_triggers_silverfish"@.len());
    assert(b.len() != "always_triggers_silverfish"@.len());
    assert(a.len() != "#minecraft:avoids_guardian_thorns"@.len());
    assert(b.len() != "#minecraft:avoids_guardian_thorns"@.len());
    assert(a.len() != "minecraft:avoids_guardian_thorns"@.len());
    assert(b.len() != "minecraft:avoids_guardian_thorns"@.len());
    assert(a[0] != "avoids_guardian_thorns"@[0]);
    assert(b.len() != "avoids_guardian_thorns"@.len());
    assert(a.len() != "#minecraft:burns_armor_stands"@.len());
    assert(b.len() != "#minecraft:burns_armor_stands"@.len());
    assert(a.len() != "minecraft:burns_armor_stands"@.len());
    assert(b.len() != "minecraft:burns_armor_stands"@.len());
    assert(a.len() != "burns_armor_stands"@.len());
    assert(b.len() != "burns_armor_stands"@.len());
    assert(a.len() != "#minecraft:burn_from_stepping"@.len());
    assert(b.len() != "#minecraft:burn_from_stepping"@.len());
    assert(a.len() != "minecraft:burn_from_stepping"@.len());
    assert(b.len() != "minecraft:burn_from_stepping"@.len());
    assert(a.len() != "burn_from_stepping"@.len());
    assert(b.len() != "burn_from_stepping"@.len());
    assert(a.len() != "#minecraft:bypasses_armor"@.len());
    assert(b.len() != "#minecraft:bypasses_armor"@.len());
    assert(a.len() != "minecraft:bypasses_armor"@.len());
    assert(b.len() != "minecraft:bypasses_armor"@.len());
    assert(a.len() != "bypasses_armor"@.len());
    assert(b.len() != "bypasses_armor"@.len());
    assert(a.len() != "#minecraft:bypasses_cooldown"@.len());
    assert(b.len() != "#minecraft:bypasses_cooldown"@.len());
    assert(a.len() != "minecraft:bypasses_cooldown"@.len());
    assert(b.len() != "minecraft:bypasses_cooldown"@.len());
    assert(a.len() != "bypasses_cooldown"@.len());
    assert(b.len() != "bypasses_cooldown"@.len());
    assert(a.len() != "#minecraft:bypasses_effects"@.len());
    assert(b.len() != "#minecraft:bypasses_effects"@.len());
    assert(a.len() != "minecraft:bypasses_effects"@.len());
    assert(b.len() != "minecraft:bypasses_effects"@.len());
    assert(a.len() != "bypasses_effects"@.len());
    assert(b.len() != "bypasses_effects"@.len());
    assert(a.len() != "#minecraft:bypasses_enchantments"@.len());
    assert(b.len() != "#minecraft:bypasses_enchantments"@.len());
    assert(a.len() != "minecraft:bypasses_enchantments"@.len());
    assert(b.len() != "minecraft:bypasses_enchantments"@.len());
    assert(a.len() != "bypasses_enchantments"@.len());
    assert(b.len() != "bypasses_enchantments"@.len());
    assert(a.len() != "#minecraft:bypasses_invulnerability"@.len());
    assert(b.len() != "#minecraft:bypasses_invulnerability"@.len());
    assert(a.len() != "minecraft:bypasses_invulnerability"@.len());
    assert(b.len() != "minecraft:bypasses_invulnerability"@.len());
    assert(a.len() != "bypasses_invulnerability"@.len());
    assert(b.len() != "bypasses_invulnerability"@.len());
    assert(a.len() != "#minecraft:bypasses_resistance"@.len());
    assert(b.len() != "#minecraft:bypasses_resistance"@.len());
    assert(a.len() != "minecraft:bypasses_resistance"@.len());
    assert(b.len() != "minecraft:bypasses_resistance"@.len());
    assert(a.len() != "bypasses_resistance"@.len());
    assert(b.len() != "bypasses_resistance"@.len());
    assert(a.len() != "#minecraft:bypasses_shield"@.len());
    assert(b.len() != "#minecraft:bypasses_shield"@.len());
    assert(a.len() != "minecraft:bypasses_shield"@.len());
    assert(b.len() != "minecraft:bypasses_shield"@.len());
    assert(a.len() != "bypasses_shield"@.len());
    assert(b.len() != "bypasses_shield"@.len());
    assert(a.len() != "#minecraft:bypasses_wolf_armor"@.len());
    assert(b.len() != "#minecraft:bypasses_wolf_armor"@.len());
    assert(a.len() != "minecraft:bypasses_wolf_armor"@.len());
    assert(b.len() != "minecraft:bypasses_wolf_armor"@.len());
    assert(a.len() != "bypasses_wolf_armor"@.len());
    assert(b.len() != "bypasses_wolf_armor"@.len());
    assert(a.len() != "#minecraft:can_break_armor_stand"@.len());
    assert(b.len() != "#minecraft:can_break_armor_stand"@.len());
    assert(a.len() != "minecraft:can_break_armor_stand"@.len());
    assert(b.len() != "minecraft:can_break_armor_stand"@.len());
    assert(a.len() != "can_break_armor_stand"@.len());
    assert(b.len() != "can_break_armor_stand"@.len());
    assert(a.len() != "#minecraft:damages_helmet"@.len());
    assert(b.len() != "#minecraft:damages_helmet"@.len());
    assert(a.len() != "minecraft:damages_helmet"@.len());
    assert(b.len() != "minecraft:damages_helmet"@.len());
    assert(a.len() != "damages_helmet"@.len());
    assert(b.len() != "damages_helmet"@.len());
    assert(a.len() != "#minecraft:ignites_armor_stands"@.len());
    assert(b.len() != "#minecraft:ignites_armor_stands"@.len());
    assert(a.len() != "minecraft:ignites_armor_stands"@.len());
    assert(b.len() != "minecraft:ignites_armor_stands"@.len());
    assert(a.len() != "ignites_armor_stands"@.len());
    assert(b.len() != "ignites_armor_stands"@.len());
    assert(a[0] != "#minecraft:is_drowning"@[0]);
    assert(b.len() != "#minecraft:is_drowning"@.len());
    assert(a.len() != "minecraft:is_drowning"@.len());
    assert(b.len() != "minecraft:is_drowning"@.len());
    assert(a.len() != "is_drowning"@.len());
    assert(b.len() != "is_drowning"@.len());
}

proof fn lemma_spell_fall()
    ensures
        damage_type_of_tag("minecraft:is_fall"@) == DamageResistantType::Fall,
        damage_type_of_tag("is_fall"@) == DamageResistantType::Fall,
{
    let a = "minecraft:is_fall"@;
    let b = "is_fall"@;
    reveal_strlit("#minecraft:always_hurts_ender_dragons");
    reveal_strlit("#minecraft:always_kills_armor_stands");
    reveal_strlit("#minecraft:always_most_significant_fall");
    reveal_strlit("#minecraft:always_triggers_silverfish");
    reveal_strlit("#minecraft:avoids_guardian_thorns");
    reveal_strlit("#minecraft:burn_from_stepping");
    reveal_strlit("#minecraft:burns_armor_stands");
    reveal_strlit("#minecraft:bypasses_armor");
    reveal_strlit("#minecraft:bypasses_cooldown");
    reveal_strlit("#minecraft:bypasses_effects");
    reveal_strlit("#minecraft:bypasses_enchantments");
    reveal_strlit("#minecraft:bypasses_invulnerability");
    reveal_strlit("#minecraft:bypasses_resistance");
    reveal_strlit("#minecraft:bypasses_shield");
    reveal_strlit("#minecraft:bypasses_wolf_armor");
    reveal_strlit("#minecraft:can_break_armor_stand");
    reveal_strlit("#minecraft:damages_helmet");
    reveal_strlit("#minecraft:ignites_armor_stands");
    reveal_strlit("#minecraft:is_drowning");
    reveal_strlit("#minecraft:is_explosion");
    reveal_strlit("always_hurts_ender_dragons");
    reveal_strlit("always_kills_armor_stands");
    reveal_strlit("always_most_significant_fall");
    reveal_strlit("always_triggers_silverfish");
    reveal_strlit("avoids_guardian_thorns");
    reveal_strlit("burn_from_stepping");
    reveal_strlit("burns_armor_stands");
    reveal_strlit("bypasses_armor");
    reveal_strlit("bypasses_cooldown");
    reveal_strlit("bypasses_effects");
    reveal_strlit("bypasses_enchantments");
    reveal_strlit("bypasses_invulnerability");
    reveal_strlit("bypasses_resistance");
    reveal_strlit("bypasses_shield");
    reveal_strlit("bypasses_wolf_armor");
    reveal_strlit("can_break_armor_stand");
    reveal_strlit("damages_helmet");
    reveal_strlit("explosion");
    reveal_strlit("ignites_armor_stands");
    reveal_strlit("is_drowning");
    reveal_strlit("is_explosion");
    reveal_strlit("is_fall");
    reveal_strlit("minecraft:always_hurts_ender_dragons");
    reveal_strlit("minecraft:always_kills_armor_stands");
    reveal_strlit("minecraft:always_most_significant_fall");
    reveal_strlit("minecraft:always_triggers_silverfish");
    reveal_strlit("minecraft:avoids_guardian_thorns");
    reveal_strlit("minecraft:burn_from_stepping");
    reveal_strlit("minecraft:burns_armor_stands");
    reveal_strlit("minecraft:bypasses_armor");
    reveal_strlit("minecraft:bypasses_cooldown");
    reveal_strlit("minecraft:bypasses_effects");
    reveal_strlit("minecraft:bypasses_enchantments");
    reveal_strlit("minecraft:bypasses_invulnerability");
    reveal_strlit("minecraft:bypasses_resistance");
    reveal_strlit("minecraft:bypasses_shield");
    reveal_strlit("minecraft:bypasses_wolf_armor");
    reveal_strlit("minecraft:can_break_armor_stand");
    reveal_strlit("minecraft:damages_helmet");
    reveal_strlit("minecraft:ignites_armor_stands");
    reveal_strlit("minecraft:is_drowning");
    reveal_strlit("minecraft:is_explosion");
    reveal_strlit("minecraft:is_fall");
    assert(a.len() != "#minecraft:always_hurts_ender_dragons"@.len());
    assert(b.len() != "#minecraft:always_hurts_ender_dragons"@.len());
    assert(a.len() != "minecraft:always_hurts_ender_dragons"@.len());
    assert(b.len() != "minecraft:always_hurts_ender_dragons"@.len());
    assert(a.len() != "always_hurts_ender_dragons"@.len());
    assert(b.len() != "always_hurts_ender_dragons"@.len());
    assert(a.len() != "#minecraft:always_kills_armor_stands"@.len());
    assert(b.len() != "#minecraft:always_kills_armor_stands"@.len());
    assert(a.len() != "minecraft:always_kills_armor_stands"@.len());
    assert(b.len() != "minecraft:always_kills_armor_stands"@.len());
    assert(a.len() != "always_kills_armor_stands"@.len());
    assert(b.len() != "always_kills_armor_stands"@.len());
    assert(a.len() != "#minecraft:always_most_significant_fall"@.len());
    assert(b.len() != "#minecraft:always_most_significant_fall"@.len());
    assert(a.len() != "minecraft:always_most_significant_fall"@.len());
    assert(b.len() != "minecraft:always_most_significant_fall"@.len());
    assert(a.len() != "always_most_significant_fall"@.len());
    assert(b.len() != "always_most_significant_fall"@.len());
    assert(a.len() != "#minecraft:always_triggers_silverfish"@.len());
    assert(b.len() != "#minecraft:always_triggers_silverfish"@.len());
    assert(a.len() != "minecraft:always_triggers_silverfish"@.len());
    assert(b.len() != "minecraft:always_triggers_silverfish"@.len());
    assert(a.len() != "always_triggers_silverfish"@.len());
    assert(b.len() != "always_triggers_silverfish"@.len());
    assert(a.len() != "#minecraft:avoids_guardian_thorns"@.len());
    assert(b.len() != "#minecraft:avoids_guardian_thorns"@.len());
    assert(a.len() != "minecraft:avoids_guardian_thorns"@.len());
    assert(b.len() != "minecraft:avoids_guardian_thorns"@.len());
    assert(a.len() != "avoids_guardian_thorns"@.len());
    assert(b.len() != "avoids_guardian_thorns"@.len());
    assert(a.len() != "#minecraft:burns_armor_stands"@.len());
    assert(b.len() != "#minecraft:burns_armor_stands"@.len());
    assert(a.len() != "minecraft:burns_armor_stands"@.len());
    assert(b.len() != "minecraft:burns_armor_stands"@.len());
    assert(a.len() != "burns_armor_stands"@.len());
    assert(b.len() != "burns_armor_stands"@.len());
    assert(a.len() != "#minecraft:burn_from_stepping"@.len());
    assert(b.len() != "#minecraft:burn_from_stepping"@.len());
    assert(a.len() != "minecraft:burn_from_stepping"@.len());
    assert(b.len() != "minecraft:burn_from_stepping"@.len());
    assert(a.len() != "burn_from_stepping"@.len());
    assert(b.len() != "burn_from_stepping"@.len());
    assert(a.len() != "#minecraft:bypasses_armor"@.len());
    assert(b.len() != "#minecraft:bypasses_armor"@.len());
    assert(a.len() != "minecraft:bypasses_armor"@.len());
    assert(b.len() != "minecraft:bypasses_armor"@.len());
    assert(a.len() != "bypasses_armor"@.len());
    assert(b.len() != "bypasses_armor"@.len());
    assert(a.len() != "#minecraft:bypasses_cooldown"@.len());
    assert(b.len() != "#minecraft:bypasses_cooldown"@.len());
    assert(a.len() != "minecraft:bypasses_cooldown"@.len());
    assert(b.len() != "minecraft:bypasses_cooldown"@.len());
    assert(a[0] != "bypasses_cooldown"@[0]);
    assert(b.len() != "bypasses_cooldown"@.len());
    assert(a.len() != "#minecraft:bypasses_effects"@.len());
    assert(b.len() != "#minecraft:bypasses_effects"@.len());
    assert(a.len() != "minecraft:bypasses_effects"@.len());
    assert(b.len() != "minecraft:bypasses_effects"@.len());
    assert(a.len() != "bypasses_effects"@.len());
    assert(b.len() != "bypasses_effects"@.len());
    assert(a.len() != "#minecraft:bypasses_enchantments"@.len());
    assert(b.len() != "#minecraft:bypasses_enchantments"@.len());
    assert(a.len() != "minecraft:bypasses_enchantments"@.len());
    assert(b.len() != "minecraft:bypasses_enchantments"@.len());
    assert(a.len() != "bypasses_enchantments"@.len());
    assert(b.len() != "bypasses_enchantments"@.len());
    assert(a.len() != "#minecraft:bypasses_invulnerability"@.len());
    assert(b.len() != "#minecraft:bypasses_invulnerability"@.len());
    assert(a.len() != "minecraft:bypasses_invulnerability"@.len());
    assert(b.len() != "minecraft:bypasses_invulnerability"@.len());
    assert(a.len() != "bypasses_invulnerability"@.len());
    assert(b.len() != "bypasses_invulnerability"@.len());
    assert(a.len() != "#minecraft:bypasses_resistance"@.len());
    assert(b.len() != "#minecraft:bypasses_resistance"@.len());
    assert(a.len() != "minecraft:bypasses_resistance"@.len());
    assert(b.len() != "minecraft:bypasses_resistance"@.len());
    assert(a.len() != "bypasses_resistance"@.len());
    assert(b.len() != "bypasses_resistance"@.len());
    assert(a.len() != "#minecraft:bypasses_shield"@.len());
    assert(b.len() != "#minecraft:bypasses_shield"@.len());
    assert(a.len() != "minecraft:bypasses_shield"@.len());
    assert(b.len() != "minecraft:bypasses_shield"@.len());
    assert(a.len() != "bypasses_shield"@.len());
    assert(b.len() != "bypasses_shield"@.len());
    assert(a.len() != "#minecraft:bypasses_wolf_armor"@.len());
    assert(b.len() != "#minecraft:bypasses_wolf_armor"@.len());
    assert(a.len() != "minecraft:bypasses_wolf_armor"@.len());
    assert(b.len() != "minecraft:bypasses_wolf_armor"@.len());
    assert(a.len() != "bypasses_wolf_armor"@.len());
    assert(b.len() != "bypasses_wolf_armor"@.len());
    assert(a.len() != "#minecraft:can_break_armor_stand"@.len());
    assert(b.len() != "#minecraft:can_break_armor_stand"@.len());
    assert(a.len() != "minecraft:can_break_armor_stand"@.len());
    assert(b.len() != "minecraft:can_break_armor_stand"@.len());
    assert(a.len() != "can_break_armor_stand"@.len());
    assert(b.len() != "can_break_armor_stand"@.len());
    assert(a.len() != "#minecraft:damages_helmet"@.len());
    assert(b.len() != "#minecraft:damages_helmet"@.len());
    assert(a.len() != "minecraft:damages_helmet"@.len());
    assert(b.len() != "minecraft:damages_helmet"@.len());
    assert(a.len() != "damages_helmet"@.len());
    assert(b.len() != "damages_helmet"@.len());
    assert(a.len() != "#minecraft:ignites_armor_stands"@.len());
    assert(b.len() != "#minecraft:ignites_armor_stands"@.len());
    assert(a.len() != "minecraft:ignites_armor_stands"@.len());
    assert(b.len() != "minecraft:ignites_armor_stands"@.len());
    assert(a.len() != "ignites_armor_stands"@.len());
    assert(b.len() != "ignites_armor_stands"@.len());
    assert(a.len() != "#minecraft:is_drowning"@.len());
    assert(b.len() != "#minecraft:is_drowning"@.len());
    assert(a.len() != "minecraft:is_drowning"@.len());
    assert(b.len() != "minecraft:is_drowning"@.len());
    assert(a.len() != "is_drowning"@.len());
    assert(b.len() != "is_drowning"@.len());
    assert(a.len() != "#minecraft:is_explosion"@.len());
    assert(b.len() != "#minecraft:is_explosion"@.len());
    assert(a.len() != "minecraft:is_explosion"@.len());
    assert(b.len() != "minecraft:is_explosion"@.len());
    assert(a.len() != "is_explosion"@.len());
    assert(b.len() != "is_explosion"@.len());
    assert(a.len() != "explosion"@.len());
    assert(b.len() != "explosion"@.len());
}

proof fn lemma_spell_fire()
    ensures
        damage_type_of_tag("minecraft:is_fire"@) == DamageResistantType::Fire,
        damage_type_of_tag("is_fire"@) == DamageResistantType::Fire,
{
    let a = "minecraft:is_fire"@;
    let b = "is_fire"@;
    reveal_strlit("#minecraft:always_hurts_ender_dragons");
    reveal_strlit("#minecraft:always_kills_armor_stands");
    reveal_strlit("#minecraft:always_most_significant_fall");
    reveal_strlit("#minecraft:always_triggers_silverfish");
    reveal_strlit("#minecraft:avoids_guardian_thorns");
    reveal_strlit("#minecraft:burn_from_stepping");
    reveal_strlit("#minecraft:burns_armor_stands");
    reveal_strlit("#minecraft:bypasses_armor");
    reveal_strlit("#minecraft:bypasses_cooldown");
    reveal_strlit("#minecraft:bypasses_effects");
    reveal_strlit("#minecraft:bypasses_enchantments");
    reveal_strlit("#minecraft:bypasses_invulnerability");
    reveal_strlit("#minecraft:bypasses_resistance");
    reveal_strlit("#minecraft:bypasses_shield");
    reveal_strlit("#minecraft:bypasses_wolf_armor");
    reveal_strlit("#minecraft:can_break_armor_stand");
    reveal_strlit("#minecraft:damages_helmet");
    reveal_strlit("#minecraft:ignites_armor_stands");
    reveal_strlit("#minecraft:is_drowning");
    reveal_strlit("#minecraft:is_explosion");
    reveal_strlit("#minecraft:is_fall");
    reveal_strlit("always_hurts_ender_dragons");
    reveal_strlit("always_kills_armor_stands");
    reveal_strlit("always_most_significant_fall");
    reveal_strlit("always_triggers_silverfish");
    reveal_strlit("avoids_guardian_thorns");
    reveal_strlit("burn_from_stepping");
    reveal_strlit("burns_armor_stands");
    reveal_strlit("bypasses_armor");
    reveal_strlit("bypasses_cooldown");
    reveal_strlit("bypasses_effects");
    reveal_strlit("bypasses_enchantments");
    reveal_strlit("bypasses_invulnerability");
    reveal_strlit("bypasses_resistance");
    reveal_strlit("bypasses_shield");
    reveal_strlit("bypasses_wolf_armor");
    reveal_strlit("can_break_armor_stand");
    reveal_strlit("damages_helmet");
    reveal_strlit("explosion");
    reveal_strlit("fall");
    reveal_strlit("ignites_armor_stands");
    reveal_strlit("is_drowning");
    reveal_strlit("is_explosion");
    reveal_strlit("is_fall");
    reveal_strlit("is_fire");
    reveal_strlit("minecraft:always_hurts_ender_dragons");
    reveal_strlit("minecraft:always_kills_armor_stands");
    reveal_strlit("minecraft:always_most_significant_fall");
    reveal_strlit("minecraft:always_triggers_silverfish");
    reveal_strlit("minecraft:avoids_guardian_thorns");
    reveal_strlit("minecraft:burn_from_stepping");
    reveal_strlit("minecraft:burns_armor_stands");
    reveal_strlit("minecraft:bypasses_armor");
    reveal_strlit("minecraft:bypasses_cooldown");
    reveal_strlit("minecraft:bypasses_effects");
    reveal_strlit("minecraft:bypasses_enchantments");
    reveal_strlit("minecraft:bypasses_invulnerability");
    reveal_strlit("minecraft:bypasses_resistance");
    reveal_strlit("minecraft:bypasses_shield");
    reveal_strlit("minecraft:bypasses_wolf_armor");
    reveal_strlit("minecraft:can_break_armor_stand");
    reveal_strlit("minecraft:damages_helmet");
    reveal_strlit("minecraft:ignites_armor_stands");
    reveal_strlit("minecraft:is_drowning");
    reveal_strlit("minecraft:is_explosion");
    reveal_strlit("minecraft:is_fall");
    reveal_strlit("minecraft:is_fire");
    assert(a.len() != "#minecraft:always_hurts_ender_dragons"@.len());
    assert(b.len() != "#minecraft:always_hurts_ender_dragons"@.len());
    assert(a.len() != "minecraft:always_hurts_ender_dragons"@.len());
    assert(b.len() != "minecraft:always_hurts_ender_dragons"@.len());
    assert(a.len() != "always_hurts_ender_dragons"@.len());
    assert(b.len() != "always_hurts_ender_dragons"@.len());
    assert(a.len() != "#minecraft:always_kills_armor_stands"@.len());
    assert(b.len() != "#minecraft:always_kills_armor_stands"@.len());
    assert(a.len() != "minecraft:always_kills_armor_stands"@.len());
    assert(b.len() != "minecraft:always_kills_armor_stands"@.len());
    assert(a.len() != "always_kills_armor_stands"@.len());
    assert(b.len() != "always_kills_armor_stands"@.len());
    assert(a.len() != "#minecraft:always_most_significant_fall"@.len());
    assert(b.len() != "#minecraft:always_most_significant_fall"@.len());
    assert(a.len() != "minecraft:always_most_significant_fall"@.len());
    assert(b.len() != "minecraft:always_most_significant_fall"@.len());
    assert(a.len() != "always_most_significant_fall"@.len());
    assert(b.len() != "always_most_significant_fall"@.len());
    assert(a.len() != "#minecraft:always_triggers_silverfish"@.len());
    assert(b.len() != "#minecraft:always_triggers_silverfish"@.len());
    assert(a.len() != "minecraft:always_triggers_silverfish"@.len());
    assert(b.len() != "minecraft:always_triggers_silverfish"@.len());
    assert(a.len() != "always_triggers_silverfish"@.len());
    assert(b.len() != "always_triggers_silverfish"@.len());
    assert(a.len() != "#minecraft:avoids_guardian_thorns"@.len());
    assert(b.len() != "#minecraft:avoids_guardian_thorns"@.len());
    assert(a.len() != "minecraft:avoids_guardian_thorns"@.len());
    assert(b.len() != "minecraft:avoids_guardian_thorns"@.len());
    assert(a.len() != "avoids_guardian_thorns"@.len());
    assert(b.len() != "avoids_guardian_thorns"@.len());
    assert(a.len() != "#minecraft:burns_armor_stands"@.len());
    assert(b.len() != "#minecraft:burns_armor_stands"@.len());
    assert(a.len() != "minecraft:burns_armor_stands"@.len());
    assert(b.len() != "minecraft:burns_armor_stands"@.len());
    assert(a.len() != "burns_armor_stands"@.len());
    assert(b.len() != "burns_armor_stands"@.len());
    assert(a.len() != "#minecraft:burn_from_stepping"@.len());
    assert(b.len() != "#minecraft:burn_from_stepping"@.len());
    assert(a.len() != "minecraft:burn_from_stepping"@.len());
    assert(b.len() != "minecraft:burn_from_stepping"@.len());
    assert(a.len() != "burn_from_stepping"@.len());
    assert(b.len() != "burn_from_stepping"@.len());
    assert(a.len() != "#minecraft:bypasses_armor"@.len());
    assert(b.len() != "#minecraft:bypasses_armor"@.len());
    assert(a.len() != "minecraft:bypasses_armor"@.len());
    assert(b.len() != "minecraft:bypasses_armor"@.len());
    assert(a.len() != "bypasses_armor"@.len());
    assert(b.len() != "bypasses_armor"@.len());
    assert(a.len() != "#minecraft:bypasses_cooldown"@.len());
    assert(b.len() != "#minecraft:bypasses_cooldown"@.len());
    assert(a.len() != "minecraft:bypasses_cooldown"@.len());
    assert(b.len() != "minecraft:bypasses_cooldown"@.len());
    assert(a[0] != "bypasses_cooldown"@[0]);
    assert(b.len() != "bypasses_cooldown"@.len());
    assert(a.len() != "#minecraft:bypasses_effects"@.len());
    assert(b.len() != "#minecraft:bypasses_effects"@.len());
    assert(a.len() != "minecraft:bypasses_effects"@.len());
    assert(b.len() != "minecraft:bypasses_effects"@.len());
    assert(a.len() != "bypasses_effects"@.len());
    assert(b.len() != "bypasses_effects"@.len());
    assert(a.len() != "#minecraft:bypasses_enchantments"@.len());
    assert(b.len() != "#minecraft:bypasses_enchantments"@.len());
    assert(a.len() != "minecraft:bypasses_enchantments"@.len());
    assert(b.len() != "minecraft:bypasses_enchantments"@.len());
    assert(a.len() != "bypasses_enchantments"@.len());
    assert(b.len() != "bypasses_enchantments"@.len());
    assert(a.len() != "#minecraft:bypasses_invulnerability"@.len());
    assert(b.len() != "#minecraft:bypasses_invulnerability"@.len());
    assert(a.len() != "minecraft:bypasses_invulnerability"@.len());
    assert(b.len() != "minecraft:bypasses_invulnerability"@.len());
    assert(a.len() != "bypasses_invulnerability"@.len());
    assert(b.len() != "bypasses_invulnerability"@.len());
    assert(a.len() != "#minecraft:bypasses_resistance"@.len());
    assert(b.len() != "#minecraft:bypasses_resistance"@.len());
    assert(a.len() != "minecraft:bypasses_resistance"@.len());
    assert(b.len() != "minecraft:bypasses_resistance"@.len());
    assert(a.len() != "bypasses_resistance"@.len());
    assert(b.len() != "bypasses_resistance"@.len());
    assert(a.len() != "#minecraft:bypasses_shield"@.len());
    assert(b.len() != "#minecraft:bypasses_shield"@.len());
    assert(a.len() != "minecraft:bypasses_shield"@.len());
    assert(b.len() != "minecraft:bypasses_shield"@.len());
    assert(a.len() != "bypasses_shield"@.len());
    assert(b.len() != "bypasses_shield"@.len());
    assert(a.len() != "#minecraft:bypasses_wolf_armor"@.len());
    assert(b.len() != "#minecraft:bypasses_wolf_armor"@.len());
    assert(a.len() != "minecraft:bypasses_wolf_armor"@.len());
    assert(b.len() != "minecraft:bypasses_wolf_armor"@.len());
    assert(a.len() != "bypasses_wolf_armor"@.len());
    assert(b.len() != "bypasses_wolf_armor"@.len());
    assert(a.len() != "#minecraft:can_break_armor_stand"@.len());
    assert(b.len() != "#minecraft:can_break_armor_stand"@.len());
    assert(a.len() != "minecraft:can_break_armor_stand"@.len());
    assert(b.len() != "minecraft:can_break_armor_stand"@.len());
    assert(a.len() != "can_break_armor_stand"@.len());
    assert(b.len() != "can_break_armor_stand"@.len());
    assert(a.len() != "#minecraft:damages_helmet"@.len());
    assert(b.len() != "#minecraft:damages_helmet"@.len());
    assert(a.len() != "minecraft:damages_helmet"@.len());
    assert(b.len() != "minecraft:damages_helmet"@.len());
    assert(a.len() != "damages_helmet"@.len());
    assert(b.len() != "damages_helmet"@.len());
    assert(a.len() != "#minecraft:ignites_armor_stands"@.len());
    assert(b.len() != "#minecraft:ignites_armor_stands"@.len());
    assert(a.len() != "minecraft:ignites_armor_stands"@.len());
    assert(b.len() != "minecraft:ignites_armor_stands"@.len());
    assert(a.len() != "ignites_armor_stands"@.len());
    assert(b.len() != "ignites_armor_stands"@.len());
    assert(a.len() != "#minecraft:is_drowning"@.len());
    assert(b.len() != "#minecraft:is_drowning"@.len());
    assert(a.len() != "minecraft:is_drowning"@.len());
    assert(b.len() != "minecraft:is_drowning"@.len());
    assert(a.len() != "is_drowning"@.len());
    assert(b.len() != "is_drowning"@.len());
    assert(a.len() != "#minecraft:is_explosion"@.len());
    assert(b.len() != "#minecraft:is_explosion"@.len());
    assert(a.len() != "minecraft:is_explosion"@.len());
    assert(b.len() != "minecraft:is_explosion"@.len());
    assert(a.len() != "is_explosion"@.len());
    assert(b.len() != "is_explosion"@.len());
    assert(a.len() != "explosion"@.len());
    assert(b.len() != "explosion"@.len());
    assert(a.len() != "#minecraft:is_fall"@.len());
    assert(b.len() != "#minecraft:is_fall"@.len());
    assert(a[14] != "minecraft:is_fall"@[14]);
    assert(b.len() != "minecraft:is_fall"@.len());
    assert(a.len() != "is_fall"@.len());
    assert(b[4] != "is_fall"@[4]);
    assert(a.len() != "fall"@.len());
    assert(b.len() != "fall"@.len());
}

proof fn lemma_spell_freezing()
    ensures
        damage_type_of_tag("minecraft:is_freezing"@) == DamageResistantType::Freezing,
        damage_type_of_tag("is_freezing"@) == DamageResistantType::Freezing,
{
    let a = "minecraft:is_freezing"@;
    let b = "is_freezing"@;
    reveal_strlit("#minecraft:always_hurts_ender_dragons");
    reveal_strlit("#minecraft:always_kills_armor_stands");
    reveal_strlit("#minecraft:always_most_significant_fall");
    reveal_strlit("#minecraft:always_triggers_silverfish");
    reveal_strlit("#minecraft:avoids_guardian_thorns");
    reveal_strlit("#minecraft:burn_from_stepping");
    reveal_strlit("#minecraft:burns_armor_stands");
    reveal_strlit("#minecraft:bypasses_armor");
    reveal_strlit("#minecraft:bypasses_cooldown");
    reveal_strlit("#minecraft:bypasses_effects");
    reveal_strlit("#minecraft:bypasses_enchantments");
    reveal_strlit("#minecraft:bypasses_invulnerability");
    reveal_strlit("#minecraft:bypasses_resistance");
    reveal_strlit("#minecraft:bypasses_shield");
    reveal_strlit("#minecraft:bypasses_wolf_armor");
    reveal_strlit("#minecraft:can_break_armor_stand");
    reveal_strlit("#minecraft:damages_helmet");
    reveal_strlit("#minecraft:ignites_armor_stands");
    reveal_strlit("#minecraft:is_drowning");
    reveal_strlit("#minecraft:is_explosion");
    reveal_strlit("#minecraft:is_fall");
    reveal_strlit("#minecraft:is_fire");
    reveal_strlit("always_hurts_ender_dragons");
    reveal_strlit("always_kills_armor_stands");
    reveal_strlit("always_most_significant_fall");
    reveal_strlit("always_triggers_silverfish");
    reveal_strlit("avoids_guardian_thorns");
    reveal_strlit("burn_from_stepping");
    reveal_strlit("burns_armor_stands");
    reveal_strlit("bypasses_armor");
    reveal_strlit("bypasses_cooldown");
    reveal_strlit("bypasses_effects");
    reveal_strlit("bypasses_enchantments");
    reveal_strlit("bypasses_invulnerability");
    reveal_strlit("bypasses_resistance");
    reveal_strlit("bypasses_shield");
    reveal_strlit("bypasses_wolf_armor");
    reveal_strlit("can_break_armor_stand");
    reveal_strlit("damages_helmet");
    reveal_strlit("explosion");
    reveal_strlit("fall");
    reveal_strlit("fire");
    reveal_strlit("ignites_armor_stands");
    reveal_strlit("in_fire");
    reveal_strlit("is_drowning");
    reveal_strlit("is_explosion");
    reveal_strlit("is_fall");
    reveal_strlit("is_fire");
    reveal_strlit("is_freezing");
    reveal_strlit("minecraft:always_hurts_ender_dragons");
    reveal_strlit("minecraft:always_kills_armor_stands");
    reveal_strlit("minecraft:always_most_significant_fall");
    reveal_strlit("minecraft:always_triggers_silverfish");
    reveal_strlit("minecraft:avoids_guardian_thorns");
    reveal_strlit("minecraft:burn_from_stepping");
    reveal_strlit("minecraft:burns_armor_stands");
    reveal_strlit("minecraft:bypasses_armor");
    reveal_strlit("minecraft:bypasses_cooldown");
    reveal_strlit("minecraft:bypasses_effects");
    reveal_strlit("minecraft:bypasses_enchantments");
    reveal_strlit("minecraft:bypasses_invulnerability");
    reveal_strlit("minecraft:bypasses_resistance");
    reveal_strlit("minecraft:bypasses_shield");
    reveal_strlit("minecraft:bypasses_wolf_armor");
    reveal_strlit("minecraft:can_break_armor_stand");
    reveal_strlit("minecraft:damages_helmet");
    reveal_strlit("minecraft:ignites_armor_stands");
    reveal_strlit("minecraft:in_fire");
    reveal_strlit("minecraft:is_drowning");
    reveal_strlit("minecraft:is_explosion");
    reveal_strlit("minecraft:is_fall");
    reveal_strlit("minecraft:is_fire");
    reveal_strlit("minecraft:is_freezing");
    assert(a.len() != "#minecraft:always_hurts_ender_dragons"@.len());
    assert(b.len() != "#minecraft:always_hurts_ender_dragons"@.len());
    assert(a.len() != "minecraft:always_hurts_ender_dragons"@.len());
    assert(b.len() != "minecraft:always_hurts_ender_dragons"@.len());
    assert(a.len() != "always_hurts_ender_dragons"@.len());
    assert(b.len() != "always_hurts_ender_dragons"@.len());
    assert(a.len() != "#minecraft:always_kills_armor_stands"@.len());
    assert(b.len() != "#minecraft:always_kills_armor_stands"@.len());
    assert(a.len() != "minecraft:always_kills_armor_stands"@.len());
    assert(b.len() != "minecraft:always_kills_armor_stands"@.len());
    assert(a.len() != "always_kills_armor_stands"@.len());
    assert(b.len() != "always_kills_armor_stands"@.len());
    assert(a.len() != "#minecraft:always_most_significant_fall"@.len());
    assert(b.len() != "#minecraft:always_most_significant_fall"@.len());
    assert(a.len() != "minecraft:always_most_significant_fall"@.len());
    assert(b.len() != "minecraft:always_most_significant_fall"@.len());
    assert(a.len() != "always_most_significant_fall"@.len());
    assert(b.len() != "always_most_significant_fall"@.len());
    assert(a.len() != "#minecraft:always_triggers_silverfish"@.len());
    assert(b.len() != "#minecraft:always_triggers_silverfish"@.len());
    assert(a.len() != "minecraft:always_triggers_silverfish"@.len());
    assert(b.len() != "minecraft:always_triggers_silverfish"@.len());
    assert(a.len() != "always_triggers_silverfish"@.len());
    assert(b.len() != "always_triggers_silverfish"@.len());
    assert(a.len() != "#minecraft:avoids_guardian_thorns"@.len());
    assert(b.len() != "#minecraft:avoids_guardian_thorns"@.len());
    assert(a.len() != "minecraft:avoids_guardian_thorns"@.len());
    assert(b.len() != "minecraft:avoids_guardian_thorns"@.len());
    assert(a.len() != "avoids_guardian_thorns"@.len());
    assert(b.len() != "avoids_guardian_thorns"@.len());
    assert(a.len() != "#minecraft:burns_armor_stands"@.len());
    assert(b.len() != "#minecraft:burns_armor_stands"@.len());
    assert(a.len() != "minecraft:burns_armor_stands"@.len());
    assert(b.len() != "minecraft:burns_armor_stands"@.len());
    assert(a.len() != "burns_armor_stands"@.len());
    assert(b.len() != "burns_armor_stands"@.len());
    assert(a.len() != "#minecraft:burn_from_stepping"@.len());
    assert(b.len() != "#minecraft:burn_from_stepping"@.len());
    assert(a.len() != "minecraft:burn_from_stepping"@.len());
    assert(b.len() != "minecraft:burn_from_stepping"@.len());
    assert(a.len() != "burn_from_stepping"@.len());
    assert(b.len() != "burn_from_stepping"@.len());
    assert(a.len() != "#minecraft:bypasses_armor"@.len());
    assert(b.len() != "#minecraft:bypasses_armor"@.len());
    assert(a.len() != "minecraft:bypasses_armor"@.len());
    assert(b.len() != "minecraft:bypasses_armor"@.len());
    assert(a.len() != "bypasses_armor"@.len());
    assert(b.len() != "bypasses_armor"@.len());
    assert(a.len() != "#minecraft:bypasses_cooldown"@.len());
    assert(b.len() != "#minecraft:bypasses_cooldown"@.len());
    assert(a.len() != "minecraft:bypasses_cooldown"@.len());
    assert(b.len() != "minecraft:bypasses_cooldown"@.len());
    assert(a.len() != "bypasses_cooldown"@.len());
    assert(b.len() != "bypasses_cooldown"@.len());
    assert(a.len() != "#minecraft:bypasses_effects"@.len());
    assert(b.len() != "#minecraft:bypasses_effects"@.len());
    assert(a.len() != "minecraft:bypasses_effects"@.len());
    assert(b.len() != "minecraft:bypasses_effects"@.len());
    assert(a.len() != "bypasses_effects"@.len());
    assert(b.len() != "bypasses_effects"@.len());
    assert(a.len() != "#minecraft:bypasses_enchantments"@.len());
    assert(b.len() != "#minecraft:bypasses_enchantments"@.len());
    assert(a.len() != "minecraft:bypasses_enchantments"@.len());
    assert(b.len() != "minecraft:bypasses_enchantments"@.len());
    assert(a[0] != "bypasses_enchantments"@[0]);
    assert(b.len() != "bypasses_enchantments"@.len());
    assert(a.len() != "#minecraft:bypasses_invulnerability"@.len());
    assert(b.len() != "#minecraft:bypasses_invulnerability"@.len());
    assert(a.len() != "minecraft:bypasses_invulnerability"@.len());
    assert(b.len() != "minecraft:bypasses_invulnerability"@.len());
    assert(a.len() != "bypasses_invulnerability"@.len());
    assert(b.len() != "bypasses_invulnerability"@.len());
    assert(a.len() != "#minecraft:bypasses_resistance"@.len());
    assert(b.len() != "#minecraft:bypasses_resistance"@.len());
    assert(a.len() != "minecraft:bypasses_resistance"@.len());
    assert(b.len() != "minecraft:bypasses_resistance"@.len());
    assert(a.len() != "bypasses_resistance"@.len());
    assert(b.len() != "bypasses_resistance"@.len());
    assert(a.len() != "#minecraft:bypasses_shield"@.len());
    assert(b.len() != "#minecraft:bypasses_shield"@.len());
    assert(a.len() != "minecraft:bypasses_shield"@.len());
    assert(b.len() != "minecraft:bypasses_shield"@.len());
    assert(a.len() != "bypasses_shield"@.len());
    assert(b.len() != "bypasses_shield"@.len());
    assert(a.len() != "#minecraft:bypasses_wolf_armor"@.len());
    assert(b.len() != "#minecraft:bypasses_wolf_armor"@.len());
    assert(a.len() != "minecraft:bypasses_wolf_armor"@.len());
    assert(b.len() != "minecraft:bypasses_wolf_armor"@.len());
    assert(a.len() != "bypasses_wolf_armor"@.len());
    assert(b.len() != "bypasses_wolf_armor"@.len());
    assert(a.len() != "#minecraft:can_break_armor_stand"@.len());
    assert(b.len() != "#minecraft:can_break_armor_stand"@.len());
    assert(a.len() != "minecraft:can_break_armor_stand"@.len());
    assert(b.len() != "minecraft:can_break_armor_stand"@.len());
    assert(a[0] != "can_break_armor_stand"@[0]);
    assert(b.len() != "can_break_armor_stand"@.len());
    assert(a.len() != "#minecraft:damages_helmet"@.len());
    assert(b.len() != "#minecraft:damages_helmet"@.len());
    assert(a.len() != "minecraft:damages_helmet"@.len());
    assert(b.len() != "minecraft:damages_helmet"@.len());
    assert(a.len() != "damages_helmet"@.len());
    assert(b.len() != "damages_helmet"@.len());
    assert(a.len() != "#minecraft:ignites_armor_stands"@.len());
    assert(b.len() != "#minecraft:ignites_armor_stands"@.len());
    assert(a.len() != "minecraft:ignites_armor_stands"@.len());
    assert(b.len() != "minecraft:ignites_armor_stands"@.len());
    assert(a.len() != "ignites_armor_stands"@.len());
    assert(b.len() != "ignites_armor_stands"@.len());
    assert(a.len() != "#minecraft:is_drowning"@.len());
    assert(b.len() != "#minecraft:is_drowning"@.len());
    assert(a[13] != "minecraft:is_drowning"@[13]);
    assert(b.len() != "minecraft:is_drowning"@.len());
    assert(a.len() != "is_drowning"@.len());
    assert(b[3] != "is_drowning"@[3]);
    assert(a.len() != "#minecraft:is_explosion"@.len());
    assert(b.len() != "#minecraft:is_explosion"@.len());
    assert(a.len() != "minecraft:is_explosion"@.len());
    assert(b.len() != "minecraft:is_explosion"@.len());
    assert(a.len() != "is_explosion"@.len());
    assert(b.len() != "is_explosion"@.len());
    assert(a.len() != "explosion"@.len());
    assert(b.len() != "explosion"@.len());
    assert(a.len() != "#minecraft:is_fall"@.len());
    assert(b.len() != "#minecraft:is_fall"@.len());
    assert(a.len() != "minecraft:is_fall"@.len());
    assert(b.len() != "minecraft:is_fall"@.len());
    assert(a.len() != "is_fall"@.len());
    assert(b.len() != "is_fall"@.len());
    assert(a.len() != "fall"@.len());
    assert(b.len() != "fall"@.len());
    assert(a.len() != "#minecraft:is_fire"@.len());
    assert(b.len() != "#minecraft:is_fire"@.len());
    assert(a.len() != "minecraft:is_fire"@.len());
    assert(b.len() != "minecraft:is_fire"@.len());
    assert(a.len() != "is_fire"@.len());
    assert(b.len() != "is_fire"@.len());
    assert(a.len() != "fire"@.len());
    assert(b.len() != "fire"@.len());
    assert(a.len() != "in_fire"@.len());
    assert(b.len() != "in_fire"@.len());
    assert(a.len() != "minecraft:in_fire"@.len());
    assert(b.len() != "minecraft:in_fire"@.len());
}

proof fn lemma_spell_lightning()
    ensures
        damage_type_of_tag("minecraft:is_lightning"@) == DamageResistantType::Lightning,
        damage_type_of_tag("is_lightning"@) == DamageResistantType::Lightning,
{
    let a = "minecraft:is_lightning"@;
    let b = "is_lightning"@;
    reveal_strlit("#minecraft:always_hurts_ender_dragons");
    reveal_strlit("#minecraft:always_kills_armor_stands");
    reveal_strlit("#minecraft:always_most_significant_fall");
    reveal_strlit("#minecraft:always_triggers_silverfish");
    reveal_strlit("#minecraft:avoids_guardian_thorns");
    reveal_strlit("#minecraft:burn_from_stepping");
    reveal_strlit("#minecraft:burns_armor_stands");
    reveal_strlit("#minecraft:bypasses_armor");
    reveal_strlit("#minecraft:bypasses_cooldown");
    reveal_strlit("#minecraft:bypasses_effects");
    reveal_strlit("#minecraft:bypasses_enchantments");
    reveal_strlit("#minecraft:bypasses_invulnerability");
    reveal_strlit("#minecraft:bypasses_resistance");
    reveal_strlit("#minecraft:bypasses_shield");
    reveal_strlit("#minecraft:bypasses_wolf_armor");
    reveal_strlit("#minecraft:can_break_armor_stand");
    reveal_strlit("#minecraft:damages_helmet");
    reveal_strlit("#minecraft:ignites_armor_stands");
    reveal_strlit("#minecraft:is_drowning");
    reveal_strlit("#minecraft:is_explosion");
    reveal_strlit("#minecraft:is_fall");
    reveal_strlit("#minecraft:is_fire");
    reveal_strlit("#minecraft:is_freezing");
    reveal_strlit("always_hurts_ender_dragons");
    reveal_strlit("always_kills_armor_stands");
    reveal_strlit("always_most_significant_fall");
    reveal_strlit("always_triggers_silverfish");
    reveal_strlit("avoids_guardian_thorns");
    reveal_strlit("burn_from_stepping");
    reveal_strlit("burns_armor_stands");
    reveal_strlit("bypasses_armor");
    reveal_strlit("bypasses_cooldown");
    reveal_strlit("bypasses_effects");
    reveal_strlit("bypasses_enchantments");
    reveal_strlit("bypasses_invulnerability");
    reveal_strlit("bypasses_resistance");
    reveal_strlit("bypasses_shield");
    reveal_strlit("bypasses_wolf_armor");
    reveal_strlit("can_break_armor_stand");
    reveal_strlit("damages_helmet");
    reveal_strlit("explosion");
    reveal_strlit("fall");
    reveal_strlit("fire");
    reveal_strlit("ignites_armor_stands");
    reveal_strlit("in_fire");
    reveal_strlit("is_drowning");
    reveal_strlit("is_explosion");
    reveal_strlit("is_fall");
    reveal_strlit("is_fire");
    reveal_strlit("is_freezing");
    reveal_strlit("is_lightning");
    reveal_strlit("minecraft:always_hurts_ender_dragons");
    reveal_strlit("minecraft:always_kills_armor_stands");
    reveal_strlit("minecraft:always_most_significant_fall");
    reveal_strlit("minecraft:always_triggers_silverfish");
    reveal_strlit("minecraft:avoids_guardian_thorns");
    reveal_strlit("minecraft:burn_from_stepping");
    reveal_strlit("minecraft:burns_armor_stands");
    reveal_strlit("minecraft:bypasses_armor");
    reveal_strlit("minecraft:bypasses_cooldown");
    reveal_strlit("minecraft:bypasses_effects");
    reveal_strlit("minecraft:bypasses_enchantments");
    reveal_strlit("minecraft:bypasses_invulnerability");
    reveal_strlit("minecraft:bypasses_resistance");
    reveal_strlit("minecraft:bypasses_shield");
    reveal_strlit("minecraft:bypasses_wolf_armor");
    reveal_strlit("minecraft:can_break_armor_stand");
    reveal_strlit("minecraft:damages_helmet");
    reveal_strlit("minecraft:ignites_armor_stands");
    reveal_strlit("minecraft:in_fire");
    reveal_strlit("minecraft:is_drowning");
    reveal_strlit("minecraft:is_explosion");
    reveal_strlit("minecraft:is_fall");
    reveal_strlit("minecraft:is_fire");
    reveal_strlit("minecraft:is_freezing");
    reveal_strlit("minecraft:is_lightning");
    assert(a.len() != "#minecraft:always_hurts_ender_dragons"@.len());
    assert(b.len() != "#minecraft:always_hurts_ender_dragons"@.len());
    assert(a.len() != "minecraft:always_hurts_ender_dragons"@.len());
    assert(b.len() != "minecraft:always_hurts_ender_dragons"@.len());
    assert(a.len() != "always_hurts_ender_dragons"@.len());
    assert(b.len() != "always_hurts_ender_dragons"@.len());
    assert(a.len() != "#minecraft:always_kills_armor_stands"@.len());
    assert(b.len() != "#minecraft:always_kills_armor_stands"@.len());
    assert(a.len() != "minecraft:always_kills_armor_stands"@.len());
    assert(b.len() != "minecraft:always_kills_armor_stands"@.len());
    assert(a.len() != "always_kills_armor_stands"@.len());
    assert(b.len() != "always_kills_armor_stands"@.len());
    assert(a.len() != "#minecraft:always_most_significant_fall"@.len());
    assert(b.len() != "#minecraft:always_most_significant_fall"@.len());
    assert(a.len() != "minecraft:always_most_significant_fall"@.len());
    assert(b.len() != "minecraft:always_most_significant_fall"@.len());
    assert(a.len() != "always_most_significant_fall"@.len());
    assert(b.len() != "always_most_significant_fall"@.len());
    assert(a.len() != "#minecraft:always_triggers_silverfish"@.len());
    assert(b.len() != "#minecraft:always_triggers_silverfish"@.len());
    assert(a.len() != "minecraft:always_triggers_silverfish"@.len());
    assert(b.len() != "minecraft:always_triggers_silverfish"@.len());
    assert(a.len() != "always_triggers_silverfish"@.len());
    assert(b.len() != "always_triggers_silverfish"@.len());
    assert(a.len() != "#minecraft:avoids_guardian_thorns"@.len());
    assert(b.len() != "#minecraft:avoids_guardian_thorns"@.len());
    assert(a.len() != "minecraft:avoids_guardian_thorns"@.len());
    assert(b.len() != "minecraft:avoids_guardian_thorns"@.len());
    assert(a[0] != "avoids_guardian_thorns"@[0]);
    assert(b.len() != "avoids_guardian_thorns"@.len());
    assert(a.len() != "#minecraft:burns_armor_stands"@.len());
    assert(b.len() != "#minecraft:burns_armor_stands"@.len());
    assert(a.len() != "minecraft:burns_armor_stands"@.len());
    assert(b.len() != "minecraft:burns_armor_stands"@.len());
    assert(a.len() != "burns_armor_stands"@.len());
    assert(b.len() != "burns_armor_stands"@.len());
    assert(a.len() != "#minecraft:burn_from_stepping"@.len());
    assert(b.len() != "#minecraft:burn_from_stepping"@.len());
    assert(a.len() != "minecraft:burn_from_stepping"@.len());
    assert(b.len() != "minecraft:burn_from_stepping"@.len());
    assert(a.len() != "burn_from_stepping"@.len());
    assert(b.len() != "burn_from_stepping"@.len());
    assert(a.len() != "#minecraft:bypasses_armor"@.len());
    assert(b.len() != "#minecraft:bypasses_armor"@.len());
    assert(a.len() != "minecraft:bypasses_armor"@.len());
    assert(b.len() != "minecraft:bypasses_armor"@.len());
    assert(a.len() != "bypasses_armor"@.len());
    assert(b.len() != "bypasses_armor"@.len());
    assert(a.len() != "#minecraft:bypasses_cooldown"@.len());
    assert(b.len() != "#minecraft:bypasses_cooldown"@.len());
    assert(a.len() != "minecraft:bypasses_cooldown"@.len());
    assert(b.len() != "minecraft:bypasses_cooldown"@.len());
    assert(a.len() != "bypasses_cooldown"@.len());
    assert(b.len() != "bypasses_cooldown"@.len());
    assert(a.len() != "#minecraft:bypasses_effects"@.len());
    assert(b.len() != "#minecraft:bypasses_effects"@.len());
    assert(a.len() != "minecraft:bypasses_effects"@.len());
    assert(b.len() != "minecraft:bypasses_effects"@.len());
    assert(a.len() != "bypasses_effects"@.len());
    assert(b.len() != "bypasses_effects"@.len());
    assert(a.len() != "#minecraft:bypasses_enchantments"@.len());
    assert(b.len() != "#minecraft:bypasses_enchantments"@.len());
    assert(a.len() != "minecraft:bypasses_enchantments"@.len());
    assert(b.len() != "minecraft:bypasses_enchantments"@.len());
    assert(a.len() != "bypasses_enchantments"@.len());
    assert(b.len() != "bypasses_enchantments"@.len());
    assert(a.len() != "#minecraft:bypasses_invulnerability"@.len());
    assert(b.len() != "#minecraft:bypasses_invulnerability"@.len());
    assert(a.len() != "minecraft:bypasses_invulnerability"@.len());
    assert(b.len() != "minecraft:bypasses_invulnerability"@.len());
    assert(a.len() != "bypasses_invulnerability"@.len());
    assert(b.len() != "bypasses_invulnerability"@.len());
    assert(a.len() != "#minecraft:bypasses_resistance"@.len());
    assert(b.len() != "#minecraft:bypasses_resistance"@.len());
    assert(a.len() != "minecraft:bypasses_resistance"@.len());
    assert(b.len() != "minecraft:bypasses_resistance"@.len());
    assert(a.len() != "bypasses_resistance"@.len());
    assert(b.len() != "bypasses_resistance"@.len());
    assert(a.len() != "#minecraft:bypasses_shield"@.len());
    assert(b.len() != "#minecraft:bypasses_shield"@.len());
    assert(a.len() != "minecraft:bypasses_shield"@.len());
    assert(b.len() != "minecraft:bypasses_shield"@.len());
    assert(a.len() != "bypasses_shield"@.len());
    assert(b.len() != "bypasses_shield"@.len());
    assert(a.len() != "#minecraft:bypasses_wolf_armor"@.len());
    assert(b.len() != "#minecraft:bypasses_wolf_armor"@.len());
    assert(a.len() != "minecraft:bypasses_wolf_armor"@.len());
    assert(b.len() != "minecraft:bypasses_wolf_armor"@.len());
    assert(a.len() != "bypasses_wolf_armor"@.len());
    assert(b.len() != "bypasses_wolf_armor"@.len());
    assert(a.len() != "#minecraft:can_break_armor_stand"@.len());
    assert(b.len() != "#minecraft:can_break_armor_stand"@.len());
    assert(a.len() != "minecraft:can_break_armor_stand"@.len());
    assert(b.len() != "minecraft:can_break_armor_stand"@.len());
    assert(a.len() != "can_break_armor_stand"@.len());
    assert(b.len() != "can_break_armor_stand"@.len());
    assert(a.len() != "#minecraft:damages_helmet"@.len());
    assert(b.len() != "#minecraft:damages_helmet"@.len());
    assert(a.len() != "minecraft:damages_helmet"@.len());
    assert(b.len() != "minecraft:damages_helmet"@.len());
    assert(a.len() != "damages_helmet"@.len());
    assert(b.len() != "damages_helmet"@.len());
    assert(a.len() != "#minecraft:ignites_armor_stands"@.len());
    assert(b.len() != "#minecraft:ignites_armor_stands"@.len());
    assert(a.len() != "minecraft:ignites_armor_stands"@.len());
    assert(b.len() != "minecraft:ignites_armor_stands"@.len());
    assert(a.len() != "ignites_armor_stands"@.len());
    assert(b.len() != "ignites_armor_stands"@.len());
    assert(a[0] != "#minecraft:is_drowning"@[0]);
    assert(b.len() != "#minecraft:is_drowning"@.len());
    assert(a.len() != "minecraft:is_drowning"@.len());
    assert(b.len() != "minecraft:is_drowning"@.len());
    assert(a.len() != "is_drowning"@.len());
    assert(b.len() != "is_drowning"@.len());
    assert(a.len() != "#minecraft:is_explosion"@.len());
    assert(b.len() != "#minecraft:is_explosion"@.len());
    assert(a[13] != "minecraft:is_explosion"@[13]);
    assert(b.len() != "minecraft:is_explosion"@.len());
    assert(a.len() != "is_explosion"@.len());
    assert(b[3] != "is_explosion"@[3]);
    assert(a.len() != "explosion"@.len());
    assert(b.len() != "explosion"@.len());
    assert(a.len() != "#minecraft:is_fall"@.len());
    assert(b.len() != "#minecraft:is_fall"@.len());
    assert(a.len() != "minecraft:is_fall"@.len());
    assert(b.len() != "minecraft:is_fall"@.len());
    assert(a.len() != "is_fall"@.len());
    assert(b.len() != "is_fall"@.len());
    assert(a.len() != "fall"@.len());
    assert(b.len() != "fall"@.len());
    assert(a.len() != "#minecraft:is_fire"@.len());
    assert(b.len() != "#minecraft:is_fire"@.len());
    assert(a.len() != "minecraft:is_fire"@.len());
    assert(b.len() != "minecraft:is_fire"@.len());
    assert(a.len() != "is_fire"@.len());
    assert(b.len() != "is_fire"@.len());
    assert(a.len() != "fire"@.len());
    assert(b.len() != "fire"@.len());
    assert(a.len() != "in_fire"@.len());
    assert(b.len() != "in_fire"@.len());
    assert(a.len() != "minecraft:in_fire"@.len());
    assert(b.len() != "minecraft:in_fire"@.len());
    assert(a[0] != "#minecraft:is_freezing"@[0]);
    assert(b.len() != "#minecraft:is_freezing"@.len());
    assert(a.len() != "minecraft:is_freezing"@.len());
    assert(b.len() != "minecraft:is_freezing"@.len());
    assert(a.len() != "is_freezing"@.len());
    assert(b.len() != "is_freezing"@.len());
}

proof fn lemma_spell_player_attack()
    ensures
        damage_type_of_tag("minecraft:is_player_attack"@) == DamageResistantType::PlayerAttack,
        damage_type_of_tag("is_player_attack"@) == DamageResistantType::PlayerAttack,
{
    let a = "minecraft:is_player_attack"@;
    let b = "is_player_attack"@;
    reveal_strlit("#minecraft:always_hurts_ender_dragons");
    reveal_strlit("#minecraft:always_kills_armor_stands");
    reveal_strlit("#minecraft:always_most_significant_fall");
    reveal_strlit("#minecraft:always_triggers_silverfish");
    reveal_strlit("#minecraft:avoids_guardian_thorns");
    reveal_strlit("#minecraft:burn_from_stepping");
    reveal_strlit("#minecraft:burns_armor_stands");
    reveal_strlit("#minecraft:bypasses_armor");
    reveal_strlit("#minecraft:bypasses_cooldown");
    reveal_strlit("#minecraft:bypasses_effects");
    reveal_strlit("#minecraft:bypasses_enchantments");
    reveal_strlit("#minecraft:bypasses_invulnerability");
    reveal_strlit("#minecraft:bypasses_resistance");
    reveal_strlit("#minecraft:bypasses_shield");
    reveal_strlit("#minecraft:bypasses_wolf_armor");
    reveal_strlit("#minecraft:can_break_armor_stand");
    reveal_strlit("#minecraft:damages_helmet");
    reveal_strlit("#minecraft:ignites_armor_stands");
    reveal_strlit("#minecraft:is_drowning");
    reveal_strlit("#minecraft:is_explosion");
    reveal_strlit("#minecraft:is_fall");
    reveal_strlit("#minecraft:is_fire");
    reveal_strlit("#minecraft:is_freezing");
    reveal_strlit("#minecraft:is_lightning");
    reveal_strlit("always_hurts_ender_dragons");
    reveal_strlit("always_kills_armor_stands");
    reveal_strlit("always_most_significant_fall");
    reveal_strlit("always_triggers_silverfish");
    reveal_strlit("avoids_guardian_thorns");
    reveal_strlit("burn_from_stepping");
    reveal_strlit("burns_armor_stands");
    reveal_strlit("bypasses_armor");
    reveal_strlit("bypasses_cooldown");
    reveal_strlit("bypasses_effects");
    reveal_strlit("bypasses_enchantments");
    reveal_strlit("bypasses_invulnerability");
    reveal_strlit("bypasses_resistance");
    reveal_strlit("bypasses_shield");
    reveal_strlit("bypasses_wolf_armor");
    reveal_strlit("can_break_armor_stand");
    reveal_strlit("damages_helmet");
    reveal_strlit("explosion");
    reveal_strlit("fall");
    reveal_strlit("fire");
    reveal_strlit("ignites_armor_stands");
    reveal_strlit("in_fire");
    reveal_strlit("is_drowning");
    reveal_strlit("is_explosion");
    reveal_strlit("is_fall");
    reveal_strlit("is_fire");
    reveal_strlit("is_freezing");
    reveal_strlit("is_lightning");
    reveal_strlit("is_player_attack");
    reveal_strlit("minecraft:always_hurts_ender_dragons");
    reveal_strlit("minecraft:always_kills_armor_stands");
    reveal_strlit("minecraft:always_most_significant_fall");
    reveal_strlit("minecraft:always_triggers_silverfish");
    reveal_strlit("minecraft:avoids_guardian_thorns");
    reveal_strlit("minecraft:burn_from_stepping");
    reveal_strlit("minecraft:burns_armor_stands");
    reveal_strlit("minecraft:bypasses_armor");
    reveal_strlit("minecraft:bypasses_cooldown");
    reveal_strlit("minecraft:bypasses_effects");
    reveal_strlit("minecraft:bypasses_enchantments");
    reveal_strlit("minecraft:bypasses_invulnerability");
    reveal_strlit("minecraft:bypasses_resistance");
    reveal_strlit("minecraft:bypasses_shield");
    reveal_strlit("minecraft:bypasses_wolf_armor");
    reveal_strlit("minecraft:can_break_armor_stand");
    reveal_strlit("minecraft:damages_helmet");
    reveal_strlit("minecraft:ignites_armor_stands");
    reveal_strlit("minecraft:in_fire");
    reveal_strlit("minecraft:is_drowning");
    reveal_strlit("minecraft:is_explosion");
    reveal_strlit("minecraft:is_fall");
    reveal_strlit("minecraft:is_fire");
    reveal_strlit("minecraft:is_freezing");
    reveal_strlit("minecraft:is_lightning");
    reveal_strlit("minecraft:is_player_attack");
    assert(a.len() != "#minecraft:always_hurts_ender_dragons"@.len());
    assert(b.len() != "#minecraft:always_hurts_ender_dragons"@.len());
    assert(a.len() != "minecraft:always_hurts_ender_dragons"@.len());
    assert(b.len() != "minecraft:always_hurts_ender_dragons"@.len());
    assert(a[0] != "always_hurts_ender_dragons"@[0]);
    assert(b.len() != "always_hurts_ender_dragons"@.len());
    assert(a.len() != "#minecraft:always_kills_armor_stands"@.len());
    assert(b.len() != "#minecraft:always_kills_armor_stands"@.len());
    assert(a.len() != "minecraft:always_kills_armor_stands"@.len());
    assert(b.len() != "minecraft:always_kills_armor_stands"@.len());
    assert(a.len() != "always_kills_armor_stands"@.len());
    assert(b.len() != "always_kills_armor_stands"@.len());
    assert(a.len() != "#minecraft:always_most_significant_fall"@.len());
    assert(b.len() != "#minecraft:always_most_significant_fall"@.len());
    assert(a.len() != "minecraft:always_most_significant_fall"@.len());
    assert(b.len() != "minecraft:always_most_significant_fall"@.len());
    assert(a.len() != "always_most_significant_fall"@.len());
    assert(b.len() != "always_most_significant_fall"@.len());
    assert(a.len() != "#minecraft:always_triggers_silverfish"@.len());
    assert(b.len() != "#minecraft:always_triggers_silverfish"@.len());
    assert(a.len() != "minecraft:always_triggers_silverfish"@.len());
    assert(b.len() != "minecraft:always_triggers_silverfish"@.len());
    assert(a[0] != "always_triggers_silverfish"@[0]);
    assert(b.len() != "always_triggers_silverfish"@.len());
    assert(a.len() != "#minecraft:avoids_guardian_thorns"@.len());
    assert(b.len() != "#minecraft:avoids_guardian_thorns"@.len());
    assert(a.len() != "minecraft:avoids_guardian_thorns"@.len());
    assert(b.len() != "minecraft:avoids_guardian_thorns"@.len());
    assert(a.len() != "avoids_guardian_thorns"@.len());
    assert(b.len() != "avoids_guardian_thorns"@.len());
    assert(a.len() != "#minecraft:burns_armor_stands"@.len());
    assert(b.len() != "#minecraft:burns_armor_stands"@.len());
    assert(a.len() != "minecraft:burns_armor_stands"@.len());
    assert(b.len() != "minecraft:burns_armor_stands"@.len());
    assert(a.len() != "burns_armor_stands"@.len());
    assert(b.len() != "burns_armor_stands"@.len());
    assert(a.len() != "#minecraft:burn_from_stepping"@.len());
    assert(b.len() != "#minecraft:burn_from_stepping"@.len());
    assert(a.len() != "minecraft:burn_from_stepping"@.len());
    assert(b.len() != "minecraft:burn_from_stepping"@.len());
    assert(a.len() != "burn_from_stepping"@.len());
    assert(b.len() != "burn_from_stepping"@.len());
    assert(a.len() != "#minecraft:bypasses_armor"@.len());
    assert(b.len() != "#minecraft:bypasses_armor"@.len());
    assert(a.len() != "minecraft:bypasses_armor"@.len());
    assert(b.len() != "minecraft:bypasses_armor"@.len());
    assert(a.len() != "bypasses_armor"@.len());
    assert(b.len() != "bypasses_armor"@.len());
    assert(a.len() != "#minecraft:bypasses_cooldown"@.len());
    assert(b.len() != "#minecraft:bypasses_cooldown"@.len());
    assert(a.len() != "minecraft:bypasses_cooldown"@.len());
    assert(b.len() != "minecraft:bypasses_cooldown"@.len());
    assert(a.len() != "bypasses_cooldown"@.len());
    assert(b.len() != "bypasses_cooldown"@.len());
    assert(a.len() != "#minecraft:bypasses_effects"@.len());
    assert(b.len() != "#minecraft:bypasses_effects"@.len());
    assert(a[10] != "minecraft:bypasses_effects"@[10]);
    assert(b.len() != "minecraft:bypasses_effects"@.len());
    assert(a.len() != "bypasses_effects"@.len());
    assert(b[0] != "bypasses_effects"@[0]);
    assert(a.len() != "#minecraft:bypasses_enchantments"@.len());
    assert(b.len() != "#minecraft:bypasses_enchantments"@.len());
    assert(a.len() != "minecraft:bypasses_enchantments"@.len());
    assert(b.len() != "minecraft:bypasses_enchantments"@.len());
    assert(a.len() != "bypasses_enchantments"@.len());
    assert(b.len() != "bypasses_enchantments"@.len());
    assert(a.len() != "#minecraft:bypasses_invulnerability"@.len());
    assert(b.len() != "#minecraft:bypasses_invulnerability"@.len());
    assert(a.len() != "minecraft:bypasses_invulnerability"@.len());
    assert(b.len() != "minecraft:bypasses_invulnerability"@.len());
    assert(a.len() != "bypasses_invulnerability"@.len());
    assert(b.len() != "bypasses_invulnerability"@.len());
    assert(a.len() != "#minecraft:bypasses_resistance"@.len());
    assert(b.len() != "#minecraft:bypasses_resistance"@.len());
    assert(a.len() != "minecraft:bypasses_resistance"@.len());
    assert(b.len() != "minecraft:bypasses_resistance"@.len());
    assert(a.len() != "bypasses_resistance"@.len());
    assert(b.len() != "bypasses_resistance"@.len());
    assert(a[0] != "#minecraft:bypasses_shield"@[0]);
    assert(b.len() != "#minecraft:bypasses_shield"@.len());
    assert(a.len() != "minecraft:bypasses_shield"@.len());
    assert(b.len() != "minecraft:bypasses_shield"@.len());
    assert(a.len() != "bypasses_shield"@.len());
    assert(b.len() != "bypasses_shield"@.len());
    assert(a.len() != "#minecraft:bypasses_wolf_armor"@.len());
    assert(b.len() != "#minecraft:bypasses_wolf_armor"@.len());
    assert(a.len() != "minecraft:bypasses_wolf_armor"@.len());
    assert(b.len() != "minecraft:bypasses_wolf_armor"@.len());
    assert(a.len() != "bypasses_wolf_armor"@.len());
    assert(b.len() != "bypasses_wolf_armor"@.len());
    assert(a.len() != "#minecraft:can_break_armor_stand"@.len());
    assert(b.len() != "#minecraft:can_break_armor_stand"@.len());
    assert(a.len() != "minecraft:can_break_armor_stand"@.len());
    assert(b.len() != "minecraft:can_break_armor_stand"@.len());
    assert(a.len() != "can_break_armor_stand"@.len());
    assert(b.len() != "can_break_armor_stand"@.len());
    assert(a.len() != "#minecraft:damages_helmet"@.len());
    assert(b.len() != "#minecraft:damages_helmet"@.len());
    assert(a.len() != "minecraft:damages_helmet"@.len());
    assert(b.len() != "minecraft:damages_helmet"@.len());
    assert(a.len() != "damages_helmet"@.len());
    assert(b.len() != "damages_helmet"@.len());
    assert(a.len() != "#minecraft:ignites_armor_stands"@.len());
    assert(b.len() != "#minecraft:ignites_armor_stands"@.len());
    assert(a.len() != "minecraft:ignites_armor_stands"@.len());
    assert(b.len() != "minecraft:ignites_armor_stands"@.len());
    assert(a.len() != "ignites_armor_stands"@.len());
    assert(b.len() != "ignites_armor_stands"@.len());
    assert(a.len() != "#minecraft:is_drowning"@.len());
    assert(b.len() != "#minecraft:is_drowning"@.len());
    assert(a.len() != "minecraft:is_drowning"@.len());
    assert(b.len() != "minecraft:is_drowning"@.len());
    assert(a.len() != "is_drowning"@.len());
    assert(b.len() != "is_drowning"@.len());
    assert(a.len() != "#minecraft:is_explosion"@.len());
    assert(b.len() != "#minecraft:is_explosion"@.len());
    assert(a.len() != "minecraft:is_explosion"@.len());
    assert(b.len() != "minecraft:is_explosion"@.len());
    assert(a.len() != "is_explosion"@.len());
    assert(b.len() != "is_explosion"@.len());
    assert(a.len() != "explosion"@.len());
    assert(b.len() != "explosion"@.len());
    assert(a.len() != "#minecraft:is_fall"@.len());
    assert(b.len() != "#minecraft:is_fall"@.len());
    assert(a.len() != "minecraft:is_fall"@.len());
    assert(b.len() != "minecraft:is_fall"@.len());
    assert(a.len() != "is_fall"@.len());
    assert(b.len() != "is_fall"@.len());
    assert(a.len() != "fall"@.len());
    assert(b.len() != "fall"@.len());
    assert(a.len() != "#minecraft:is_fire"@.len());
    assert(b.len() != "#minecraft:is_fire"@.len());
    assert(a.len() != "minecraft:is_fire"@.len());
    assert(b.len() != "minecraft:is_fire"@.len());
    assert(a.len() != "is_fire"@.len());
    assert(b.len() != "is_fire"@.len());
    assert(a.len() != "fire"@.len());
    assert(b.len() != "fire"@.len());
    assert(a.len() != "in_fire"@.len());
    assert(b.len() != "in_fire"@.len());
    assert(a.len() != "minecraft:in_fire"@.len());
    assert(b.len() != "minecraft:in_fire"@.len());
    assert(a.len() != "#minecraft:is_freezing"@.len());
    assert(b.len() != "#minecraft:is_freezing"@.len());
    assert(a.len() != "minecraft:is_freezing"@.len());
    assert(b.len() != "minecraft:is_freezing"@.len());
    assert(a.len() != "is_freezing"@.len());
    assert(b.len() != "is_freezing"@.len());
    assert(a.len() != "#minecraft:is_lightning"@.len());
    assert(b.len() != "#minecraft:is_lightning"@.len());
    assert(a.len() != "minecraft:is_lightning"@.len());
    assert(b.len() != "minecraft:is_lightning"@.len());
    assert(a.len() != "is_lightning"@.len());
    assert(b.len() != "is_lightning"@.len());
}

proof fn lemma_spell_projectile()
    ensures
        damage_type_of_tag("minecraft:is_projectile"@) == DamageResistantType::Projectile,
        damage_type_of_tag("is_projectile"@) == DamageResistantType::Projectile,
{
    let a = "minecraft:is_projectile"@;
    let b = "is_projectile"@;
    reveal_strlit("#minecraft:always_hurts_ender_dragons");
    reveal_strlit("#minecraft:always_kills_armor_stands");
    reveal_strlit("#minecraft:always_most_significant_fall");
    reveal_strlit("#minecraft:always_triggers_silverfish");
    reveal_strlit("#minecraft:avoids_guardian_thorns");
    reveal_strlit("#minecraft:burn_from_stepping");
    reveal_strlit("#minecraft:burns_armor_stands");
    reveal_strlit("#minecraft:bypasses_armor");
    reveal_strlit("#minecraft:bypasses_cooldown");
    reveal_strlit("#minecraft:bypasses_effects");
    reveal_strlit("#minecraft:bypasses_enchantments");
    reveal_strlit("#minecraft:bypasses_invulnerability");
    reveal_strlit("#minecraft:bypasses_resistance");
    reveal_strlit("#minecraft:bypasses_shield");
    reveal_strlit("#minecraft:bypasses_wolf_armor");
    reveal_strlit("#minecraft:can_break_armor_stand");
    reveal_strlit("#minecraft:damages_helmet");
    reveal_strlit("#minecraft:ignites_armor_stands");
    reveal_strlit("#minecraft:is_drowning");
    reveal_strlit("#minecraft:is_explosion");
    reveal_strlit("#minecraft:is_fall");
    reveal_strlit("#minecraft:is_fire");
    reveal_strlit("#minecraft:is_freezing");
    reveal_strlit("#minecraft:is_lightning");
    reveal_strlit("#minecraft:is_player_attack");
    reveal_strlit("always_hurts_ender_dragons");
    reveal_strlit("always_kills_armor_stands");
    reveal_strlit("always_most_significant_fall");
    reveal_strlit("always_triggers_silverfish");
    reveal_strlit("avoids_guardian_thorns");
    reveal_strlit("burn_from_stepping");
    reveal_strlit("burns_armor_stands");
    reveal_strlit("bypasses_armor");
    reveal_strlit("bypasses_cooldown");
    reveal_strlit("bypasses_effects");
    reveal_strlit("bypasses_enchantments");
    reveal_strlit("bypasses_invulnerability");
    reveal_strlit("bypasses_resistance");
    reveal_strlit("bypasses_shield");
    reveal_strlit("bypasses_wolf_armor");
    reveal_strlit("can_break_armor_stand");
    reveal_strlit("damages_helmet");
    reveal_strlit("explosion");
    reveal_strlit("fall");
    reveal_strlit("fire");
    reveal_strlit("ignites_armor_stands");
    reveal_strlit("in_fire");
    reveal_strlit("is_drowning");
    reveal_strlit("is_explosion");
    reveal_strlit("is_fall");
    reveal_strlit("is_fire");
    reveal_strlit("is_freezing");
    reveal_strlit("is_lightning");
    reveal_strlit("is_player_attack");
    reveal_strlit("is_projectile");
    reveal_strlit("minecraft:always_hurts_ender_dragons");
    reveal_strlit("minecraft:always_kills_armor_stands");
    reveal_strlit("minecraft:always_most_significant_fall");
    reveal_strlit("minecraft:always_triggers_silverfish");
    reveal_strlit("minecraft:avoids_guardian_thorns");
    reveal_strlit("minecraft:burn_from_stepping");
    reveal_strlit("minecraft:burns_armor_stands");
    reveal_strlit("minecraft:bypasses_armor");
    reveal_strlit("minecraft:bypasses_cooldown");
    reveal_strlit("minecraft:bypasses_effects");
    reveal_strlit("minecraft:bypasses_enchantments");
    reveal_strlit("minecraft:bypasses_invulnerability");
    reveal_strlit("minecraft:bypasses_resistance");
    reveal_strlit("minecraft:bypasses_shield");
    reveal_strlit("minecraft:bypasses_wolf_armor");
    reveal_strlit("minecraft:can_break_armor_stand");
    reveal_strlit("minecraft:damages_helmet");
    reveal_strlit("minecraft:ignites_armor_stands");
    reveal_strlit("minecraft:in_fire");
    reveal_strlit("minecraft:is_drowning");
    reveal_strlit("minecraft:is_explosion");
    reveal_strlit("minecraft:is_fall");
    reveal_strlit("minecraft:is_fire");
    reveal_strlit("minecraft:is_freezing");
    reveal_strlit("minecraft:is_lightning");
    reveal_strlit("minecraft:is_player_attack");
    reveal_strlit("minecraft:is_projectile");
    assert(a.len() != "#minecraft:always_hurts_ender_dragons"@.len());
    assert(b.len() != "#minecraft:always_hurts_ender_dragons"@.len());
    assert(a.len() != "minecraft:always_hurts_ender_dragons"@.len());
    assert(b.len() != "minecraft:always_hurts_ender_dragons"@.len());
    assert(a.len() != "always_hurts_ender_dragons"@.len());
    assert(b.len() != "always_hurts_ender_dragons"@.len());
    assert(a.len() != "#minecraft:always_kills_armor_stands"@.len());
    assert(b.len() != "#minecraft:always_kills_armor_stands"@.len());
    assert(a.len() != "minecraft:always_kills_armor_stands"@.len());
    assert(b.len() != "minecraft:always_kills_armor_stands"@.len());
    assert(a.len() != "always_kills_armor_stands"@.len());
    assert(b.len() != "always_kills_armor_stands"@.len());
    assert(a.len() != "#minecraft:always_most_significant_fall"@.len());
    assert(b.len() != "#minecraft:always_most_significant_fall"@.len());
    assert(a.len() != "minecraft:always_most_significant_fall"@.len());
    assert(b.len() != "minecraft:always_most_significant_fall"@.len());
    assert(a.len() != "always_most_significant_fall"@.len());
    assert(b.len() != "always_most_significant_fall"@.len());
    assert(a.len() != "#minecraft:always_triggers_silverfish"@.len());
    assert(b.len() != "#minecraft:always_triggers_silverfish"@.len());
    assert(a.len() != "minecraft:always_triggers_silverfish"@.len());
    assert(b.len() != "minecraft:always_triggers_silverfish"@.len());
    assert(a.len() != "always_triggers_silverfish"@.len());
    assert(b.len() != "always_triggers_silverfish"@.len());
    assert(a.len() != "#minecraft:avoids_guardian_thorns"@.len());
    assert(b.len() != "#minecraft:avoids_guardian_thorns"@.len());
    assert(a.len() != "minecraft:avoids_guardian_thorns"@.len());
    assert(b.len() != "minecraft:avoids_guardian_thorns"@.len());
    assert(a.len() != "avoids_guardian_thorns"@.len());
    assert(b.len() != "avoids_guardian_thorns"@.len());
    assert(a.len() != "#minecraft:burns_armor_stands"@.len());
    assert(b.len() != "#minecraft:burns_armor_stands"@.len());
    assert(a.len() != "minecraft:burns_armor_stands"@.len());
    assert(b.len() != "minecraft:burns_armor_stands"@.len());
    assert(a.len() != "burns_armor_stands"@.len());
    assert(b.len() != "burns_armor_stands"@.len());
    assert(a.len() != "#minecraft:burn_from_stepping"@.len());
    assert(b.len() != "#minecraft:burn_from_stepping"@.len());
    assert(a.len() != "minecraft:burn_from_stepping"@.len());
    assert(b.len() != "minecraft:burn_from_stepping"@.len());
    assert(a.len() != "burn_from_stepping"@.len());
    assert(b.len() != "burn_from_stepping"@.len());
    assert(a.len() != "#minecraft:bypasses_armor"@.len());
    assert(b.len() != "#minecraft:bypasses_armor"@.len());
    assert(a.len() != "minecraft:bypasses_armor"@.len());
    assert(b.len() != "minecraft:bypasses_armor"@.len());
    assert(a.len() != "bypasses_armor"@.len());
    assert(b.len() != "bypasses_armor"@.len());
    assert(a.len() != "#minecraft:bypasses_cooldown"@.len());
    assert(b.len() != "#minecraft:bypasses_cooldown"@.len());
    assert(a.len() != "minecraft:bypasses_cooldown"@.len());
    assert(b.len() != "minecraft:bypasses_cooldown"@.len());
    assert(a.len() != "bypasses_cooldown"@.len());
    assert(b.len() != "bypasses_cooldown"@.len());
    assert(a.len() != "#minecraft:bypasses_effects"@.len());
    assert(b.len() != "#minecraft:bypasses_effects"@.len());
    assert(a.len() != "minecraft:bypasses_effects"@.len());
    assert(b.len() != "minecraft:bypasses_effects"@.len());
    assert(a.len() != "bypasses_effects"@.len());
    assert(b.len() != "bypasses_effects"@.len());
    assert(a.len() != "#minecraft:bypasses_enchantments"@.len());
    assert(b.len() != "#minecraft:bypasses_enchantments"@.len());
    assert(a.len() != "minecraft:bypasses_enchantments"@.len());
    assert(b.len() != "minecraft:bypasses_enchantments"@.len());
    assert(a.len() != "bypasses_enchantments"@.len());
    assert(b.len() != "bypasses_enchantments"@.len());
    assert(a.len() != "#minecraft:bypasses_invulnerability"@.len());
    assert(b.len() != "#minecraft:bypasses_invulnerability"@.len());
    assert(a.len() != "minecraft:bypasses_invulnerability"@.len());
    assert(b.len() != "minecraft:bypasses_invulnerability"@.len());
    assert(a.len() != "bypasses_invulnerability"@.len());
    assert(b.len() != "bypasses_invulnerability"@.len());
    assert(a.len() != "#minecraft:bypasses_resistance"@.len());
    assert(b.len() != "#minecraft:bypasses_resistance"@.len());
    assert(a.len() != "minecraft:bypasses_resistance"@.len());
    assert(b.len() != "minecraft:bypasses_resistance"@.len());
    assert(a.len() != "bypasses_resistance"@.len());
    assert(b.len() != "bypasses_resistance"@.len());
    assert(a.len() != "#minecraft:bypasses_shield"@.len());
    assert(b.len() != "#minecraft:bypasses_shield"@.len());
    assert(a.len() != "minecraft:bypasses_shield"@.len());
    assert(b.len() != "minecraft:bypasses_shield"@.len());
    assert(a.len() != "bypasses_shield"@.len());
    assert(b.len() != "bypasses_shield"@.len());
    assert(a.len() != "#minecraft:bypasses_wolf_armor"@.len());
    assert(b.len() != "#minecraft:bypasses_wolf_armor"@.len());
    assert(a.len() != "minecraft:bypasses_wolf_armor"@.len());
    assert(b.len() != "minecraft:bypasses_wolf_armor"@.len());
    assert(a.len() != "bypasses_wolf_armor"@.len());
    assert(b.len() != "bypasses_wolf_armor"@.len());
    assert(a.len() != "#minecraft:can_break_armor_stand"@.len());
    assert(b.len() != "#minecraft:can_break_armor_stand"@.len());
    assert(a.len() != "minecraft:can_break_armor_stand"@.len());
    assert(b.len() != "minecraft:can_break_armor_stand"@.len());
    assert(a.len() != "can_break_armor_stand"@.len());
    assert(b.len() != "can_break_armor_stand"@.len());
    assert(a.len() != "#minecraft:damages_helmet"@.len());
    assert(b.len() != "#minecraft:damages_helmet"@.len());
    assert(a.len() != "minecraft:damages_helmet"@.len());
    assert(b.len() != "minecraft:damages_helmet"@.len());
    assert(a.len() != "damages_helmet"@.len());
    assert(b.len() != "damages_helmet"@.len());
    assert(a.len() != "#minecraft:ignites_armor_stands"@.len());
    assert(b.len() != "#minecraft:ignites_armor_stands"@.len());
    assert(a.len() != "minecraft:ignites_armor_stands"@.len());
    assert(b.len() != "minecraft:ignites_armor_stands"@.len());
    assert(a.len() != "ignites_armor_stands"@.len());
    assert(b.len() != "ignites_armor_stands"@.len());
    assert(a.len() != "#minecraft:is_drowning"@.len());
    assert(b.len() != "#minecraft:is_drowning"@.len());
    assert(a.len() != "minecraft:is_drowning"@.len());
    assert(b.len() != "minecraft:is_drowning"@.len());
    assert(a.len() != "is_drowning"@.len());
    assert(b.len() != "is_drowning"@.len());
    assert(a[0] != "#minecraft:is_explosion"@[0]);
    assert(b.len() != "#minecraft:is_explosion"@.len());
    assert(a.len() != "minecraft:is_explosion"@.len());
    assert(b.len() != "minecraft:is_explosion"@.len());
    assert(a.len() != "is_explosion"@.len());
    assert(b.len() != "is_explosion"@.len());
    assert(a.len() != "explosion"@.len());
    assert(b.len() != "explosion"@.len());
    assert(a.len() != "#minecraft:is_fall"@.len());
    assert(b.len() != "#minecraft:is_fall"@.len());
    assert(a.len() != "minecraft:is_fall"@.len());
    assert(b.len() != "minecraft:is_fall"@.len());
    assert(a.len() != "is_fall"@.len());
    assert(b.len() != "is_fall"@.len());
    assert(a.len() != "fall"@.len());
    assert(b.len() != "fall"@.len());
    assert(a.len() != "#minecraft:is_fire"@.len());
    assert(b.len() != "#minecraft:is_fire"@.len());
    assert(a.len() != "minecraft:is_fire"@.len());
    assert(b.len() != "minecraft:is_fire"@.len());
    assert(a.len() != "is_fire"@.len());
    assert(b.len() != "is_fire"@.len());
    assert(a.len() != "fire"@.len());
    assert(b.len() != "fire"@.len());
    assert(a.len() != "in_fire"@.len());
    assert(b.len() != "in_fire"@.len());
    assert(a.len() != "minecraft:in_fire"@.len());
    assert(b.len() != "minecraft:in_fire"@.len());
    assert(a.len() != "#minecraft:is_freezing"@.len());
    assert(b.len() != "#minecraft:is_freezing"@.len());
    assert(a.len() != "minecraft:is_freezing"@.len());
    assert(b.len() != "minecraft:is_freezing"@.len());
    assert(a.len() != "is_freezing"@.len());
    assert(b.len() != "is_freezing"@.len());
    assert(a[0] != "#minecraft:is_lightning"@[0]);
    assert(b.len() != "#minecraft:is_lightning"@.len());
    assert(a.len() != "minecraft:is_lightning"@.len());
    assert(b.len() != "minecraft:is_lightning"@.len());
    assert(a.len() != "is_lightning"@.len());
    assert(b.len() != "is_lightning"@.len());
    assert(a.len() != "#minecraft:is_player_attack"@.len());
    assert(b.len() != "#minecraft:is_player_attack"@.len());
    assert(a.len() != "minecraft:is_player_attack"@.len());
    assert(b.len() != "minecraft:is_player_attack"@.len());
    assert(a.len() != "is_player_attack"@.len());
    assert(b.len() != "is_player_attack"@.len());
}

proof fn lemma_spell_mace_smash()
    ensures
        damage_type_of_tag("minecraft:mace_smash"@) == DamageResistantType::MaceSmash,
        damage_type_of_tag("mace_smash"@) == DamageResistantType::MaceSmash,
{
    let a = "minecraft:mace_smash"@;
    let b = "mace_smash"@;
    reveal_strlit("#minecraft:always_hurts_ender_dragons");
    reveal_strlit("#minecraft:always_kills_armor_stands");
    reveal_strlit("#minecraft:always_most_significant_fall");
    reveal_strlit("#minecraft:always_triggers_silverfish");
    reveal_strlit("#minecraft:avoids_guardian_thorns");
    reveal_strlit("#minecraft:burn_from_stepping");
    reveal_strlit("#minecraft:burns_armor_stands");
    reveal_strlit("#minecraft:bypasses_armor");
    reveal_strlit("#minecraft:bypasses_cooldown");
    reveal_strlit("#minecraft:bypasses_effects");
    reveal_strlit("#minecraft:bypasses_enchantments");
    reveal_strlit("#minecraft:bypasses_invulnerability");
    reveal_strlit("#minecraft:bypasses_resistance");
    reveal_strlit("#minecraft:bypasses_shield");
    reveal_strlit("#minecraft:bypasses_wolf_armor");
    reveal_strlit("#minecraft:can_break_armor_stand");
    reveal_strlit("#minecraft:damages_helmet");
    reveal_strlit("#minecraft:ignites_armor_stands");
    reveal_strlit("#minecraft:is_drowning");
    reveal_strlit("#minecraft:is_explosion");
    reveal_strlit("#minecraft:is_fall");
    reveal_strlit("#minecraft:is_fire");
    reveal_strlit("#minecraft:is_freezing");
    reveal_strlit("#minecraft:is_lightning");
    reveal_strlit("#minecraft:is_player_attack");
    reveal_strlit("#minecraft:is_projectile");
    reveal_strlit("always_hurts_ender_dragons");
    reveal_strlit("always_kills_armor_stands");
    reveal_strlit("always_most_significant_fall");
    reveal_strlit("always_triggers_silverfish");
    reveal_strlit("avoids_guardian_thorns");
    reveal_strlit("burn_from_stepping");
    reveal_strlit("burns_armor_stands");
    reveal_strlit("bypasses_armor");
    reveal_strlit("bypasses_cooldown");
    reveal_strlit("bypasses_effects");
    reveal_strlit("bypasses_enchantments");
    reveal_strlit("bypasses_invulnerability");
    reveal_strlit("bypasses_resistance");
    reveal_strlit("bypasses_shield");
    reveal_strlit("bypasses_wolf_armor");
    reveal_strlit("can_break_armor_stand");
    reveal_strlit("damages_helmet");
    reveal_strlit("explosion");
    reveal_strlit("fall");
    reveal_strlit("fire");
    reveal_strlit("ignites_armor_stands");
    reveal_strlit("in_fire");
    reveal_strlit("is_drowning");
    reveal_strlit("is_explosion");
    reveal_strlit("is_fall");
    reveal_strlit("is_fire");
    reveal_strlit("is_freezing");
    reveal_strlit("is_lightning");
    reveal_strlit("is_player_attack");
    reveal_strlit("is_projectile");
    reveal_strlit("mace_smash");
    reveal_strlit("minecraft:always_hurts_ender_dragons");
    reveal_strlit("minecraft:always_kills_armor_stands");
    reveal_strlit("minecraft:always_most_significant_fall");
    reveal_strlit("minecraft:always_triggers_silverfish");
    reveal_strlit("minecraft:avoids_guardian_thorns");
    reveal_strlit("minecraft:burn_from_stepping");
    reveal_strlit("minecraft:burns_armor_stands");
    reveal_strlit("minecraft:bypasses_armor");
    reveal_strlit("minecraft:bypasses_cooldown");
    reveal_strlit("minecraft:bypasses_effects");
    reveal_strlit("minecraft:bypasses_enchantments");
    reveal_strlit("minecraft:bypasses_invulnerability");
    reveal_strlit("minecraft:bypasses_resistance");
    reveal_strlit("minecraft:bypasses_shield");
    reveal_strlit("minecraft:bypasses_wolf_armor");
    reveal_strlit("minecraft:can_break_armor_stand");
    reveal_strlit("minecraft:damages_helmet");
    reveal_strlit("minecraft:ignites_armor_stands");
    reveal_strlit("minecraft:in_fire");
    reveal_strlit("minecraft:is_drowning");
    reveal_strlit("minecraft:is_explosion");
    reveal_strlit("minecraft:is_fall");
    reveal_strlit("minecraft:is_fire");
    reveal_strlit("minecraft:is_freezing");
    reveal_strlit("minecraft:is_lightning");
    reveal_strlit("minecraft:is_player_attack");
    reveal_strlit("minecraft:is_projectile");
    reveal_strlit("minecraft:mace_smash");
    assert(a.len() != "#minecraft:always_hurts_ender_dragons"@.len());
    assert(b.len() != "#minecraft:always_hurts_ender_dragons"@.len());
    assert(a.len() != "minecraft:always_hurts_ender_dragons"@.len());
    assert(b.len() != "minecraft:always_hurts_ender_dragons"@.len());
    assert(a.len() != "always_hurts_ender_dragons"@.len());
    assert(b.len() != "always_hurts_ender_dragons"@.len());
    assert(a.len() != "#minecraft:always_kills_armor_stands"@.len());
    assert(b.len() != "#minecraft:always_kills_armor_stands"@.len());
    assert(a.len() != "minecraft:always_kills_armor_stands"@.len());
    assert(b.len() != "minecraft:always_kills_armor_stands"@.len());
    assert(a.len() != "always_kills_armor_stands"@.len());
    assert(b.len() != "always_kills_armor_stands"@.len());
    assert(a.len() != "#minecraft:always_most_significant_fall"@.len());
    assert(b.len() != "#minecraft:always_most_significant_fall"@.len());
    assert(a.len() != "minecraft:always_most_significant_fall"@.len());
    assert(b.len() != "minecraft:always_most_significant_fall"@.len());
    assert(a.len() != "always_most_significant_fall"@.len());
    assert(b.len() != "always_most_significant_fall"@.len());
    assert(a.len() != "#minecraft:always_triggers_silverfish"@.len());
    assert(b.len() != "#minecraft:always_triggers_silverfish"@.len());
    assert(a.len() != "minecraft:always_triggers_silverfish"@.len());
    assert(b.len() != "minecraft:always_triggers_silverfish"@.len());
    assert(a.len() != "always_triggers_silverfish"@.len());
    assert(b.len() != "always_triggers_silverfish"@.len());
    assert(a.len() != "#minecraft:avoids_guardian_thorns"@.len());
    assert(b.len() != "#minecraft:avoids_guardian_thorns"@.len());
    assert(a.len() != "minecraft:avoids_guardian_thorns"@.len());
    assert(b.len() != "minecraft:avoids_guardian_thorns"@.len());
    assert(a.len() != "avoids_guardian_thorns"@.len());
    assert(b.len() != "avoids_guardian_thorns"@.len());
    assert(a.len() != "#minecraft:burns_armor_stands"@.len());
    assert(b.len() != "#minecraft:burns_armor_stands"@.len());
    assert(a.len() != "minecraft:burns_armor_stands"@.len());
    assert(b.len() != "minecraft:burns_armor_stands"@.len());
    assert(a.len() != "burns_armor_stands"@.len());
    assert(b.len() != "burns_armor_stands"@.len());
    assert(a.len() != "#minecraft:burn_from_stepping"@.len());
    assert(b.len() != "#minecraft:burn_from_stepping"@.len());
    assert(a.len() != "minecraft:burn_from_stepping"@.len());
    assert(b.len() != "minecraft:burn_from_stepping"@.len());
    assert(a.len() != "burn_from_stepping"@.len());
    assert(b.len() != "burn_from_stepping"@.len());
    assert(a.len() != "#minecraft:bypasses_armor"@.len());
    assert(b.len() != "#minecraft:bypasses_armor"@.len());
    assert(a.len() != "minecraft:bypasses_armor"@.len());
    assert(b.len() != "minecraft:bypasses_armor"@.len());
    assert(a.len() != "bypasses_armor"@.len());
    assert(b.len() != "bypasses_armor"@.len());
    assert(a.len() != "#minecraft:bypasses_cooldown"@.len());
    assert(b.len() != "#minecraft:bypasses_cooldown"@.len());
    assert(a.len() != "minecraft:bypasses_cooldown"@.len());
    assert(b.len() != "minecraft:bypasses_cooldown"@.len());
    assert(a.len() != "bypasses_cooldown"@.len());
    assert(b.len() != "bypasses_cooldown"@.len());
    assert(a.len() != "#minecraft:bypasses_effects"@.len());
    assert(b.len() != "#minecraft:bypasses_effects"@.len());
    assert(a.len() != "minecraft:bypasses_effects"@.len());
    assert(b.len() != "minecraft:bypasses_effects"@.len());
    assert(a.len() != "bypasses_effects"@.len());
    assert(b.len() != "bypasses_effects"@.len());
    assert(a.len() != "#minecraft:bypasses_enchantments"@.len());
    assert(b.len() != "#minecraft:bypasses_enchantments"@.len());
    assert(a.len() != "minecraft:bypasses_enchantments"@.len());
    assert(b.len() != "minecraft:bypasses_enchantments"@.len());
    assert(a.len() != "bypasses_enchantments"@.len());
    assert(b.len() != "bypasses_enchantments"@.len());
    assert(a.len() != "#minecraft:bypasses_invulnerability"@.len());
    assert(b.len() != "#minecraft:bypasses_invulnerability"@.len());
    assert(a.len() != "minecraft:bypasses_invulnerability"@.len());
    assert(b.len() != "minecraft:bypasses_invulnerability"@.len());
    assert(a.len() != "bypasses_invulnerability"@.len());
    assert(b.len() != "bypasses_invulnerability"@.len());
    assert(a.len() != "#minecraft:bypasses_resistance"@.len());
    assert(b.len() != "#minecraft:bypasses_resistance"@.len());
    assert(a.len() != "minecraft:bypasses_resistance"@.len());
    assert(b.len() != "minecraft:bypasses_resistance"@.len());
    assert(a.len() != "bypasses_resistance"@.len());
    assert(b.len() != "bypasses_resistance"@.len());
    assert(a.len() != "#minecraft:bypasses_shield"@.len());
    assert(b.len() != "#minecraft:bypasses_shield"@.len());
    assert(a.len() != "minecraft:bypasses_shield"@.len());
    assert(b.len() != "minecraft:bypasses_shield"@.len());
    assert(a.len() != "bypasses_shield"@.len());
    assert(b.len() != "bypasses_shield"@.len());
    assert(a.len() != "#minecraft:bypasses_wolf_armor"@.len());
    assert(b.len() != "#minecraft:bypasses_wolf_armor"@.len());
    assert(a.len() != "minecraft:bypasses_wolf_armor"@.len());
    assert(b.len() != "minecraft:bypasses_wolf_armor"@.len());
    assert(a.len() != "bypasses_wolf_armor"@.len());
    assert(b.len() != "bypasses_wolf_armor"@.len());
    assert(a.len() != "#minecraft:can_break_armor_stand"@.len());
    assert(b.len() != "#minecraft:can_break_armor_stand"@.len());
    assert(a.len() != "minecraft:can_break_armor_stand"@.len());
    assert(b.len() != "minecraft:can_break_armor_stand"@.len());
    assert(a.len() != "can_break_armor_stand"@.len());
    assert(b.len() != "can_break_armor_stand"@.len());
    assert(a.len() != "#minecraft:damages_helmet"@.len());
    assert(b.len() != "#minecraft:damages_helmet"@.len());
    assert(a.len() != "minecraft:damages_helmet"@.len());
    assert(b.len() != "minecraft:damages_helmet"@.len());
    assert(a.len() != "damages_helmet"@.len());
    assert(b.len() != "damages_helmet"@.len());
    assert(a.len() != "#minecraft:ignites_armor_stands"@.len());
    assert(b.len() != "#minecraft:ignites_armor_stands"@.len());
    assert(a.len() != "minecraft:ignites_armor_stands"@.len());
    assert(b.len() != "minecraft:ignites_armor_stands"@.len());
    assert(a[0] != "ignites_armor_stands"@[0]);
    assert(b.len() != "ignites_armor_stands"@.len());
    assert(a.len() != "#minecraft:is_drowning"@.len());
    assert(b.len() != "#minecraft:is_drowning"@.len());
    assert(a.len() != "minecraft:is_drowning"@.len());
    assert(b.len() != "minecraft:is_drowning"@.len());
    assert(a.len() != "is_drowning"@.len());
    assert(b.len() != "is_drowning"@.len());
    assert(a.len() != "#minecraft:is_explosion"@.len());
    assert(b.len() != "#minecraft:is_explosion"@.len());
    assert(a.len() != "minecraft:is_explosion"@.len());
    assert(b.len() != "minecraft:is_explosion"@.len());
    assert(a.len() != "is_explosion"@.len());
    assert(b.len() != "is_explosion"@.len());
    assert(a.len() != "explosion"@.len());
    assert(b.len() != "explosion"@.len());
    assert(a.len() != "#minecraft:is_fall"@.len());
    assert(b.len() != "#minecraft:is_fall"@.len());
    assert(a.len() != "minecraft:is_fall"@.len());
    assert(b.len() != "minecraft:is_fall"@.len());
    assert(a.len() != "is_fall"@.len());
    assert(b.len() != "is_fall"@.len());
    assert(a.len() != "fall"@.len());
    assert(b.len() != "fall"@.len());
    assert(a.len() != "#minecraft:is_fire"@.len());
    assert(b.len() != "#minecraft:is_fire"@.len());
    assert(a.len() != "minecraft:is_fire"@.len());
    assert(b.len() != "minecraft:is_fire"@.len());
    assert(a.len() != "is_fire"@.len());
    assert(b.len() != "is_fire"@.len());
    assert(a.len() != "fire"@.len());
    assert(b.len() != "fire"@.len());
    assert(a.len() != "in_fire"@.len());
    assert(b.len() != "in_fire"@.len());
    assert(a.len() != "minecraft:in_fire"@.len());
    assert(b.len() != "minecraft:in_fire"@.len());
    assert(a.len() != "#minecraft:is_freezing"@.len());
    assert(b.len() != "#minecraft:is_freezing"@.len());
    assert(a.len() != "minecraft:is_freezing"@.len());
    assert(b.len() != "minecraft:is_freezing"@.len());
    assert(a.len() != "is_freezing"@.len());
    assert(b.len() != "is_freezing"@.len());
    assert(a.len() != "#minecraft:is_lightning"@.len());
    assert(b.len() != "#minecraft:is_lightning"@.len());
    assert(a.len() != "minecraft:is_lightning"@.len());
    assert(b.len() != "minecraft:is_lightning"@.len());
    assert(a.len() != "is_lightning"@.len());
    assert(b.len() != "is_lightning"@.len());
    assert(a.len() != "#minecraft:is_player_attack"@.len());
    assert(b.len() != "#minecraft:is_player_attack"@.len());
    assert(a.len() != "minecraft:is_player_attack"@.len());
    assert(b.len() != "minecraft:is_player_attack"@.len());
    assert(a.len() != "is_player_attack"@.len());
    assert(b.len() != "is_player_attack"@.len());
    assert(a.len() != "#minecraft:is_projectile"@.len());
    assert(b.len() != "#minecraft:is_projectile"@.len());
    assert(a.len() != "minecraft:is_projectile"@.len());
    assert(b.len() != "minecraft:is_projectile"@.len());
    assert(a.len() != "is_projectile"@.len());
    assert(b.len() != "is_projectile"@.len());
}

proof fn lemma_spell_no_anger()
    ensures
        damage_type_of_tag("minecraft:no_anger"@) == DamageResistantType::NoAnger,
        damage_type_of_tag("no_anger"@) == DamageResistantType::NoAnger,
{
    let a = "minecraft:no_anger"@;
    let b = "no_anger"@;
    reveal_strlit("#minecraft:always_hurts_ender_dragons");
    reveal_strlit("#minecraft:always_kills_armor_stands");
    reveal_strlit("#minecraft:always_most_significant_fall");
    reveal_strlit("#minecraft:always_triggers_silverfish");
    reveal_strlit("#minecraft:avoids_guardian_thorns");
    reveal_strlit("#minecraft:burn_from_stepping");
    reveal_strlit("#minecraft:burns_armor_stands");
    reveal_strlit("#minecraft:bypasses_armor");
    reveal_strlit("#minecraft:bypasses_cooldown");
    reveal_strlit("#minecraft:bypasses_effects");
    reveal_strlit("#minecraft:bypasses_enchantments");
    reveal_strlit("#minecraft:bypasses_invulnerability");
    reveal_strlit("#minecraft:bypasses_resistance");
    reveal_strlit("#minecraft:bypasses_shield");
    reveal_strlit("#minecraft:bypasses_wolf_armor");
    reveal_strlit("#minecraft:can_break_armor_stand");
    reveal_strlit("#minecraft:damages_helmet");
    reveal_strlit("#minecraft:ignites_armor_stands");
    reveal_strlit("#minecraft:is_drowning");
    reveal_strlit("#minecraft:is_explosion");
    reveal_strlit("#minecraft:is_fall");
    reveal_strlit("#minecraft:is_fire");
    reveal_strlit("#minecraft:is_freezing");
    reveal_strlit("#minecraft:is_lightning");
    reveal_strlit("#minecraft:is_player_attack");
    reveal_strlit("#minecraft:is_projectile");
    reveal_strlit("#minecraft:mace_smash");
    reveal_strlit("always_hurts_ender_dragons");
    reveal_strlit("always_kills_armor_stands");
    reveal_strlit("always_most_significant_fall");
    reveal_strlit("always_triggers_silverfish");
    reveal_strlit("avoids_guardian_thorns");
    reveal_strlit("burn_from_stepping");
    reveal_strlit("burns_armor_stands");
    reveal_strlit("bypasses_armor");
    reveal_strlit("bypasses_cooldown");
    reveal_strlit("bypasses_effects");
    reveal_strlit("bypasses_enchantments");
    reveal_strlit("bypasses_invulnerability");
    reveal_strlit("bypasses_resistance");
    reveal_strlit("bypasses_shield");
    reveal_strlit("bypasses_wolf_armor");
    reveal_strlit("can_break_armor_stand");
    reveal_strlit("damages_helmet");
    reveal_strlit("explosion");
    reveal_strlit("fall");
    reveal_strlit("fire");
    reveal_strlit("ignites_armor_stands");
    reveal_strlit("in_fire");
    reveal_strlit("is_drowning");
    reveal_strlit("is_explosion");
    reveal_strlit("is_fall");
    reveal_strlit("is_fire");
    reveal_strlit("is_freezing");
    reveal_strlit("is_lightning");
    reveal_strlit("is_player_attack");
    reveal_strlit("is_projectile");
    reveal_strlit("mace_smash");
    reveal_strlit("minecraft:always_hurts_ender_dragons");
    reveal_strlit("minecraft:always_kills_armor_stands");
    reveal_strlit("minecraft:always_most_significant_fall");
    reveal_strlit("minecraft:always_triggers_silverfish");
    reveal_strlit("minecraft:avoids_guardian_thorns");
    reveal_strlit("minecraft:burn_from_stepping");
    reveal_strlit("minecraft:burns_armor_stands");
    reveal_strlit("minecraft:bypasses_armor");
    reveal_strlit("minecraft:bypasses_cooldown");
    reveal_strlit("minecraft:bypasses_effects");
    reveal_strlit("minecraft:bypasses_enchantments");
    reveal_strlit("minecraft:bypasses_invulnerability");
    reveal_strlit("minecraft:bypasses_resistance");
    reveal_strlit("minecraft:bypasses_shield");
    reveal_strlit("minecraft:bypasses_wolf_armor");
    reveal_strlit("minecraft:can_break_armor_stand");
    reveal_strlit("minecraft:damages_helmet");
    reveal_strlit("minecraft:ignites_armor_stands");
    reveal_strlit("minecraft:in_fire");
    reveal_strlit("minecraft:is_drowning");
    reveal_strlit("minecraft:is_explosion");
    reveal_strlit("minecraft:is_fall");
    reveal_strlit("minecraft:is_fire");
    reveal_strlit("minecraft:is_freezing");
    reveal_strlit("minecraft:is_lightning");
    reveal_strlit("minecraft:is_player_attack");
    reveal_strlit("minecraft:is_projectile");
    reveal_strlit("minecraft:mace_smash");
    reveal_strlit("minecraft:no_anger");
    reveal_strlit("no_anger");
    assert(a.len() != "#minecraft:always_hurts_ender_dragons"@.len());
    assert(b.len() != "#minecraft:always_hurts_ender_dragons"@.len());
    assert(a.len() != "minecraft:always_hurts_ender_dragons"@.len());
    assert(b.len() != "minecraft:always_hurts_ender_dragons"@.len());
    assert(a.len() != "always_hurts_ender_dragons"@.len());
    assert(b.len() != "always_hurts_ender_dragons"@.len());
    assert(a.len() != "#minecraft:always_kills_armor_stands"@.len());
    assert(b.len() != "#minecraft:always_kills_armor_stands"@.len());
    assert(a.len() != "minecraft:always_kills_armor_stands"@.len());
    assert(b.len() != "minecraft:always_kills_armor_stands"@.len());
    assert(a.len() != "always_kills_armor_stands"@.len());
    assert(b.len() != "always_kills_armor_stands"@.len());
    assert(a.len() != "#minecraft:always_most_significant_fall"@.len());
    assert(b.len() != "#minecraft:always_most_significant_fall"@.len());
    assert(a.len() != "minecraft:always_most_significant_fall"@.len());
    assert(b.len() != "minecraft:always_most_significant_fall"@.len());
    assert(a.len() != "always_most_significant_fall"@.len());
    assert(b.len() != "always_most_significant_fall"@.len());
    assert(a.len() != "#minecraft:always_triggers_silverfish"@.len());
    assert(b.len() != "#minecraft:always_triggers_silverfish"@.len());
    assert(a.len() != "minecraft:always_triggers_silverfish"@.len());
    assert(b.len() != "minecraft:always_triggers_silverfish"@.len());
    assert(a.len() != "always_triggers_silverfish"@.len());
    assert(b.len() != "always_triggers_silverfish"@.len());
    assert(a.len() != "#minecraft:avoids_guardian_thorns"@.len());
    assert(b.len() != "#minecraft:avoids_guardian_thorns"@.len());
    assert(a.len() != "minecraft:avoids_guardian_thorns"@.len());
    assert(b.len() != "minecraft:avoids_guardian_thorns"@.len());
    assert(a.len() != "avoids_guardian_thorns"@.len());
    assert(b.len() != "avoids_guardian_thorns"@.len());
    assert(a.len() != "#minecraft:burns_armor_stands"@.len());
    assert(b.len() != "#minecraft:burns_armor_stands"@.len());
    assert(a.len() != "minecraft:burns_armor_stands"@.len());
    assert(b.len() != "minecraft:burns_armor_stands"@.len());
    assert(a[0] != "burns_armor_stands"@[0]);
    assert(b.len() != "burns_armor_stands"@.len());
    assert(a.len() != "#minecraft:burn_from_stepping"@.len());
    assert(b.len() != "#minecraft:burn_from_stepping"@.len());
    assert(a.len() != "minecraft:burn_from_stepping"@.len());
    assert(b.len() != "minecraft:burn_from_stepping"@.len());
    assert(a[0] != "burn_from_stepping"@[0]);
    assert(b.len() != "burn_from_stepping"@.len());
    assert(a.len() != "#minecraft:bypasses_armor"@.len());
    assert(b.len() != "#minecraft:bypasses_armor"@.len());
    assert(a.len() != "minecraft:bypasses_armor"@.len());
    assert(b.len() != "minecraft:bypasses_armor"@.len());
    assert(a.len() != "bypasses_armor"@.len());
    assert(b.len() != "bypasses_armor"@.len());
    assert(a.len() != "#minecraft:bypasses_cooldown"@.len());
    assert(b.len() != "#minecraft:bypasses_cooldown"@.len());
    assert(a.len() != "minecraft:bypasses_cooldown"@.len());
    assert(b.len() != "minecraft:bypasses_cooldown"@.len());
    assert(a.len() != "bypasses_cooldown"@.len());
    assert(b.len() != "bypasses_cooldown"@.len());
    assert(a.len() != "#minecraft:bypasses_effects"@.len());
    assert(b.len() != "#minecraft:bypasses_effects"@.len());
    assert(a.len() != "minecraft:bypasses_effects"@.len());
    assert(b.len() != "minecraft:bypasses_effects"@.len());
    assert(a.len() != "bypasses_effects"@.len());
    assert(b.len() != "bypasses_effects"@.len());
    assert(a.len() != "#minecraft:bypasses_enchantments"@.len());
    assert(b.len() != "#minecraft:bypasses_enchantments"@.len());
    assert(a.len() != "minecraft:bypasses_enchantments"@.len());
    assert(b.len() != "minecraft:bypasses_enchantments"@.len());
    assert(a.len() != "bypasses_enchantments"@.len());
    assert(b.len() != "bypasses_enchantments"@.len());
    assert(a.len() != "#minecraft:bypasses_invulnerability"@.len());
    assert(b.len() != "#minecraft:bypasses_invulnerability"@.len());
    assert(a.len() != "minecraft:bypasses_invulnerability"@.len());
    assert(b.len() != "minecraft:bypasses_invulnerability"@.len());
    assert(a.len() != "bypasses_invulnerability"@.len());
    assert(b.len() != "bypasses_invulnerability"@.len());
    assert(a.len() != "#minecraft:bypasses_resistance"@.len());
    assert(b.len() != "#minecraft:bypasses_resistance"@.len());
    assert(a.len() != "minecraft:bypasses_resistance"@.len());
    assert(b.len() != "minecraft:bypasses_resistance"@.len());
    assert(a.len() != "bypasses_resistance"@.len());
    assert(b.len() != "bypasses_resistance"@.len());
    assert(a.len() != "#minecraft:bypasses_shield"@.len());
    assert(b.len() != "#minecraft:bypasses_shield"@.len());
    assert(a.len() != "minecraft:bypasses_shield"@.len());
    assert(b.len() != "minecraft:bypasses_shield"@.len());
    assert(a.len() != "bypasses_shield"@.len());
    assert(b.len() != "bypasses_shield"@.len());
    assert(a.len() != "#minecraft:bypasses_wolf_armor"@.len());
    assert(b.len() != "#minecraft:bypasses_wolf_armor"@.len());
    assert(a.len() != "minecraft:bypasses_wolf_armor"@.len());
    assert(b.len() != "minecraft:bypasses_wolf_armor"@.len());
    assert(a.len() != "bypasses_wolf_armor"@.len());
    assert(b.len() != "bypasses_wolf_armor"@.len());
    assert(a.len() != "#minecraft:can_break_armor_stand"@.len());
    assert(b.len() != "#minecraft:can_break_armor_stand"@.len());
    assert(a.len() != "minecraft:can_break_armor_stand"@.len());
    assert(b.len() != "minecraft:can_break_armor_stand"@.len());
    assert(a.len() != "can_break_armor_stand"@.len());
    assert(b.len() != "can_break_armor_stand"@.len());
    assert(a.len() != "#minecraft:damages_helmet"@.len());
    assert(b.len() != "#minecraft:damages_helmet"@.len());
    assert(a.len() != "minecraft:damages_helmet"@.len());
    assert(b.len() != "minecraft:damages_helmet"@.len());
    assert(a.len() != "damages_helmet"@.len());
    assert(b.len() != "damages_helmet"@.len());
    assert(a.len() != "#minecraft:ignites_armor_stands"@.len());
    assert(b.len() != "#minecraft:ignites_armor_stands"@.len());
    assert(a.len() != "minecraft:ignites_armor_stands"@.len());
    assert(b.len() != "minecraft:ignites_armor_stands"@.len());
    assert(a.len() != "ignites_armor_stands"@.len());
    assert(b.len() != "ignites_armor_stands"@.len());
    assert(a.len() != "#minecraft:is_drowning"@.len());
    assert(b.len() != "#minecraft:is_drowning"@.len());
    assert(a.len() != "minecraft:is_drowning"@.len());
    assert(b.len() != "minecraft:is_drowning"@.len());
    assert(a.len() != "is_drowning"@.len());
    assert(b.len() != "is_drowning"@.len());
    assert(a.len() != "#minecraft:is_explosion"@.len());
    assert(b.len() != "#minecraft:is_explosion"@.len());
    assert(a.len() != "minecraft:is_explosion"@.len());
    assert(b.len() != "minecraft:is_explosion"@.len());
    assert(a.len() != "is_explosion"@.len());
    assert(b.len() != "is_explosion"@.len());
    assert(a.len() != "explosion"@.len());
    assert(b.len() != "explosion"@.len());
    assert(a[0] != "#minecraft:is_fall"@[0]);
    assert(b.len() != "#minecraft:is_fall"@.len());
    assert(a.len() != "minecraft:is_fall"@.len());
    assert(b.len() != "minecraft:is_fall"@.len());
    assert(a.len() != "is_fall"@.len());
    assert(b.len() != "is_fall"@.len());
    assert(a.len() != "fall"@.len());
    assert(b.len() != "fall"@.len());
    assert(a[0] != "#minecraft:is_fire"@[0]);
    assert(b.len() != "#minecraft:is_fire"@.len());
    assert(a.len() != "minecraft:is_fire"@.len());
    assert(b.len() != "minecraft:is_fire"@.len());
    assert(a.len() != "is_fire"@.len());
    assert(b.len() != "is_fire"@.len());
    assert(a.len() != "fire"@.len());
    assert(b.len() != "fire"@.len());
    assert(a.len() != "in_fire"@.len());
    assert(b.len() != "in_fire"@.len());
    assert(a.len() != "minecraft:in_fire"@.len());
    assert(b.len() != "minecraft:in_fire"@.len());
    assert(a.len() != "#minecraft:is_freezing"@.len());
    assert(b.len() != "#minecraft:is_freezing"@.len());
    assert(a.len() != "minecraft:is_freezing"@.len());
    assert(b.len() != "minecraft:is_freezing"@.len());
    assert(a.len() != "is_freezing"@.len());
    assert(b.len() != "is_freezing"@.len());
    assert(a.len() != "#minecraft:is_lightning"@.len());
    assert(b.len() != "#minecraft:is_lightning"@.len());
    assert(a.len() != "minecraft:is_lightning"@.len());
    assert(b.len() != "minecraft:is_lightning"@.len());
    assert(a.len() != "is_lightning"@.len());
    assert(b.len() != "is_lightning"@.len());
    assert(a.len() != "#minecraft:is_player_attack"@.len());
    assert(b.len() != "#minecraft:is_player_attack"@.len());
    assert(a.len() != "minecraft:is_player_attack"@.len());
    assert(b.len() != "minecraft:is_player_attack"@.len());
    assert(a.len() != "is_player_attack"@.len());
    assert(b.len() != "is_player_attack"@.len());
    assert(a.len() != "#minecraft:is_projectile"@.len());
    assert(b.len() != "#minecraft:is_projectile"@.len());
    assert(a.len() != "minecraft:is_projectile"@.len());
    assert(b.len() != "minecraft:is_projectile"@.len());
    assert(a.len() != "is_projectile"@.len());
    assert(b.len() != "is_projectile"@.len());
    assert(a.len() != "#minecraft:mace_smash"@.len());
    assert(b.len() != "#minecraft:mace_smash"@.len());
    assert(a.len() != "minecraft:mace_smash"@.len());
    assert(b.len() != "minecraft:mace_smash"@.len());
    assert(a.len() != "mace_smash"@.len());
    assert(b.len() != "mace_smash"@.len());
}

proof fn lemma_spell_no_impact()
    ensures
        damage_type_of_tag("minecraft:no_impact"@) == DamageResistantType::NoImpact,
        damage_type_of_tag("no_impact"@) == DamageResistantType::NoImpact,
{
    let a = "minecraft:no_impact"@;
    let b = "no_impact"@;
    reveal_strlit("#minecraft:always_hurts_ender_dragons");
    reveal_strlit("#minecraft:always_kills_armor_stands");
    reveal_strlit("#minecraft:always_most_significant_fall");
    reveal_strlit("#minecraft:always_triggers_silverfish");
    reveal_strlit("#minecraft:avoids_guardian_thorns");
    reveal_strlit("#minecraft:burn_from_stepping");
    reveal_strlit("#minecraft:burns_armor_stands");
    reveal_strlit("#minecraft:bypasses_armor");
    reveal_strlit("#minecraft:bypasses_cooldown");
    reveal_strlit("#minecraft:bypasses_effects");
    reveal_strlit("#minecraft:bypasses_enchantments");
    reveal_strlit("#minecraft:bypasses_invulnerability");
    reveal_strlit("#minecraft:bypasses_resistance");
    reveal_strlit("#minecraft:bypasses_shield");
    reveal_strlit("#minecraft:bypasses_wolf_armor");
    reveal_strlit("#minecraft:can_break_armor_stand");
    reveal_strlit("#minecraft:damages_helmet");
    reveal_strlit("#minecraft:ignites_armor_stands");
    reveal_strlit("#minecraft:is_drowning");
    reveal_strlit("#minecraft:is_explosion");
    reveal_strlit("#minecraft:is_fall");
    reveal_strlit("#minecraft:is_fire");
    reveal_strlit("#minecraft:is_freezing");
    reveal_strlit("#minecraft:is_lightning");
    reveal_strlit("#minecraft:is_player_attack");
    reveal_strlit("#minecraft:is_projectile");
    reveal_strlit("#minecraft:mace_smash");
    reveal_strlit("#minecraft:no_anger");
    reveal_strlit("always_hurts_ender_dragons");
    reveal_strlit("always_kills_armor_stands");
    reveal_strlit("always_most_significant_fall");
    reveal_strlit("always_triggers_silverfish");
    reveal_strlit("avoids_guardian_thorns");
    reveal_strlit("burn_from_stepping");
    reveal_strlit("burns_armor_stands");
    reveal_strlit("bypasses_armor");
    reveal_strlit("bypasses_cooldown");
    reveal_strlit("bypasses_effects");
    reveal_strlit("bypasses_enchantments");
    reveal_strlit("bypasses_invulnerability");
    reveal_strlit("bypasses_resistance");
    reveal_strlit("bypasses_shield");
    reveal_strlit("bypasses_wolf_armor");
    reveal_strlit("can_break_armor_stand");
    reveal_strlit("damages_helmet");
    reveal_strlit("explosion");
    reveal_strlit("fall");
    reveal_strlit("fire");
    reveal_strlit("ignites_armor_stands");
    reveal_strlit("in_fire");
    reveal_strlit("is_drowning");
    reveal_strlit("is_explosion");
    reveal_strlit("is_fall");
    reveal_strlit("is_fire");
    reveal_strlit("is_freezing");
    reveal_strlit("is_lightning");
    reveal_strlit("is_player_attack");
    reveal_strlit("is_projectile");
    reveal_strlit("mace_smash");
    reveal_strlit("minecraft:always_hurts_ender_dragons");
    reveal_strlit("minecraft:always_kills_armor_stands");
    reveal_strlit("minecraft:always_most_significant_fall");
    reveal_strlit("minecraft:always_triggers_silverfish");
    reveal_strlit("minecraft:avoids_guardian_thorns");
    reveal_strlit("minecraft:burn_from_stepping");
    reveal_strlit("minecraft:burns_armor_stands");
    reveal_strlit("minecraft:bypasses_armor");
    reveal_strlit("minecraft:bypasses_cooldown");
    reveal_strlit("minecraft:bypasses_effects");
    reveal_strlit("minecraft:bypasses_enchantments");
    reveal_strlit("minecraft:bypasses_invulnerability");
    reveal_strlit("minecraft:bypasses_resistance");
    reveal_strlit("minecraft:bypasses_shield");
    reveal_strlit("minecraft:bypasses_wolf_armor");
    reveal_strlit("minecraft:can_break_armor_stand");
    reveal_strlit("minecraft:damages_helmet");
    reveal_strlit("minecraft:ignites_armor_stands");
    reveal_strlit("minecraft:in_fire");
    reveal_strlit("minecraft:is_drowning");
    reveal_strlit("minecraft:is_explosion");
    reveal_strlit("minecraft:is_fall");
    reveal_strlit("minecraft:is_fire");
    reveal_strlit("minecraft:is_freezing");
    reveal_strlit("minecraft:is_lightning");
    reveal_strlit("minecraft:is_player_attack");
    reveal_strlit("minecraft:is_projectile");
    reveal_strlit("minecraft:mace_smash");
    reveal_strlit("minecraft:no_anger");
    reveal_strlit("minecraft:no_impact");
    reveal_strlit("no_anger");
    reveal_strlit("no_impact");
    assert(a.len() != "#minecraft:always_hurts_ender_dragons"@.len());
    assert(b.len() != "#minecraft:always_hurts_ender_dragons"@.len());
    assert(a.len() != "minecraft:always_hurts_ender_dragons"@.len());
    assert(b.len() != "minecraft:always_hurts_ender_dragons"@.len());
    assert(a.len() != "always_hurts_ender_dragons"@.len());
    assert(b.len() != "always_hurts_ender_dragons"@.len());
    assert(a.len() != "#minecraft:always_kills_armor_stands"@.len());
    assert(b.len() != "#minecraft:always_kills_armor_stands"@.len());
    assert(a.len() != "minecraft:always_kills_armor_stands"@.len());
    assert(b.len() != "minecraft:always_kills_armor_stands"@.len());
    assert(a.len() != "always_kills_armor_stands"@.len());
    assert(b.len() != "always_kills_armor_stands"@.len());
    assert(a.len() != "#minecraft:always_most_significant_fall"@.len());
    assert(b.len() != "#minecraft:always_most_significant_fall"@.len());
    assert(a.len() != "minecraft:always_most_significant_fall"@.len());
    assert(b.len() != "minecraft:always_most_significant_fall"@.len());
    assert(a.len() != "always_most_significant_fall"@.len());
    assert(b.len() != "always_most_significant_fall"@.len());
    assert(a.len() != "#minecraft:always_triggers_silverfish"@.len());
    assert(b.len() != "#minecraft:always_triggers_silverfish"@.len());
    assert(a.len() != "minecraft:always_triggers_silverfish"@.len());
    assert(b.len() != "minecraft:always_triggers_silverfish"@.len());
    assert(a.len() != "always_triggers_silverfish"@.len());
    assert(b.len() != "always_triggers_silverfish"@.len());
    assert(a.len() != "#minecraft:avoids_guardian_thorns"@.len());
    assert(b.len() != "#minecraft:avoids_guardian_thorns"@.len());
    assert(a.len() != "minecraft:avoids_guardian_thorns"@.len());
    assert(b.len() != "minecraft:avoids_guardian_thorns"@.len());
    assert(a.len() != "avoids_guardian_thorns"@.len());
    assert(b.len() != "avoids_guardian_thorns"@.len());
    assert(a.len() != "#minecraft:burns_armor_stands"@.len());
    assert(b.len() != "#minecraft:burns_armor_stands"@.len());
    assert(a.len() != "minecraft:burns_armor_stands"@.len());
    assert(b.len() != "minecraft:burns_armor_stands"@.len());
    assert(a.len() != "burns_armor_stands"@.len());
    assert(b.len() != "burns_armor_stands"@.len());
    assert(a.len() != "#minecraft:burn_from_stepping"@.len());
    assert(b.len() != "#minecraft:burn_from_stepping"@.len());
    assert(a.len() != "minecraft:burn_from_stepping"@.len());
    assert(b.len() != "minecraft:burn_from_stepping"@.len());
    assert(a.len() != "burn_from_stepping"@.len());
    assert(b.len() != "burn_from_stepping"@.len());
    assert(a.len() != "#minecraft:bypasses_armor"@.len());
    assert(b.len() != "#minecraft:bypasses_armor"@.len());
    assert(a.len() != "minecraft:bypasses_armor"@.len());
    assert(b.len() != "minecraft:bypasses_armor"@.len());
    assert(a.len() != "bypasses_armor"@.len());
    assert(b.len() != "bypasses_armor"@.len());
    assert(a.len() != "#minecraft:bypasses_cooldown"@.len());
    assert(b.len() != "#minecraft:bypasses_cooldown"@.len());
    assert(a.len() != "minecraft:bypasses_cooldown"@.len());
    assert(b.len() != "minecraft:bypasses_cooldown"@.len());
    assert(a.len() != "bypasses_cooldown"@.len());
    assert(b.len() != "bypasses_cooldown"@.len());
    assert(a.len() != "#minecraft:bypasses_effects"@.len());
    assert(b.len() != "#minecraft:bypasses_effects"@.len());
    assert(a.len() != "minecraft:bypasses_effects"@.len());
    assert(b.len() != "minecraft:bypasses_effects"@.len());
    assert(a.len() != "bypasses_effects"@.len());
    assert(b.len() != "bypasses_effects"@.len());
    assert(a.len() != "#minecraft:bypasses_enchantments"@.len());
    assert(b.len() != "#minecraft:bypasses_enchantments"@.len());
    assert(a.len() != "minecraft:bypasses_enchantments"@.len());
    assert(b.len() != "minecraft:bypasses_enchantments"@.len());
    assert(a.len() != "bypasses_enchantments"@.len());
    assert(b.len() != "bypasses_enchantments"@.len());
    assert(a.len() != "#minecraft:bypasses_invulnerability"@.len());
    assert(b.len() != "#minecraft:bypasses_invulnerability"@.len());
    assert(a.len() != "minecraft:bypasses_invulnerability"@.len());
    assert(b.len() != "minecraft:bypasses_invulnerability"@.len());
    assert(a.len() != "bypasses_invulnerability"@.len());
    assert(b.len() != "bypasses_invulnerability"@.len());
    assert(a.len() != "#minecraft:bypasses_resistance"@.len());
    assert(b.len() != "#minecraft:bypasses_resistance"@.len());
    assert(a.len() != "minecraft:bypasses_resistance"@.len());
    assert(b.len() != "minecraft:bypasses_resistance"@.len());
    assert(a[0] != "bypasses_resistance"@[0]);
    assert(b.len() != "bypasses_resistance"@.len());
    assert(a.len() != "#minecraft:bypasses_shield"@.len());
    assert(b.len() != "#minecraft:bypasses_shield"@.len());
    assert(a.len() != "minecraft:bypasses_shield"@.len());
    assert(b.len() != "minecraft:bypasses_shield"@.len());
    assert(a.len() != "bypasses_shield"@.len());
    assert(b.len() != "bypasses_shield"@.len());
    assert(a.len() != "#minecraft:bypasses_wolf_armor"@.len());
    assert(b.len() != "#minecraft:bypasses_wolf_armor"@.len());
    assert(a.len() != "minecraft:bypasses_wolf_armor"@.len());
    assert(b.len() != "minecraft:bypasses_wolf_armor"@.len());
    assert(a[0] != "bypasses_wolf_armor"@[0]);
    assert(b.len() != "bypasses_wolf_armor"@.len());
    assert(a.len() != "#minecraft:can_break_armor_stand"@.len());
    assert(b.len() != "#minecraft:can_break_armor_stand"@.len());
    assert(a.len() != "minecraft:can_break_armor_stand"@.len());
    assert(b.len() != "minecraft:can_break_armor_stand"@.len());
    assert(a.len() != "can_break_armor_stand"@.len());
    assert(b.len() != "can_break_armor_stand"@.len());
    assert(a.len() != "#minecraft:damages_helmet"@.len());
    assert(b.len() != "#minecraft:damages_helmet"@.len());
    assert(a.len() != "minecraft:damages_helmet"@.len());
    assert(b.len() != "minecraft:damages_helmet"@.len());
    assert(a.len() != "damages_helmet"@.len());
    assert(b.len() != "damages_helmet"@.len());
    assert(a.len() != "#minecraft:ignites_armor_stands"@.len());
    assert(b.len() != "#minecraft:ignites_armor_stands"@.len());
    assert(a.len() != "minecraft:ignites_armor_stands"@.len());
    assert(b.len() != "minecraft:ignites_armor_stands"@.len());
    assert(a.len() != "ignites_armor_stands"@.len());
    assert(b.len() != "ignites_armor_stands"@.len());
    assert(a.len() != "#minecraft:is_drowning"@.len());
    assert(b.len() != "#minecraft:is_drowning"@.len());
    assert(a.len() != "minecraft:is_drowning"@.len());
    assert(b.len() != "minecraft:is_drowning"@.len());
    assert(a.len() != "is_drowning"@.len());
    assert(b.len() != "is_drowning"@.len());
    assert(a.len() != "#minecraft:is_explosion"@.len());
    assert(b.len() != "#minecraft:is_explosion"@.len());
    assert(a.len() != "minecraft:is_explosion"@.len());
    assert(b.len() != "minecraft:is_explosion"@.len());
    assert(a.len() != "is_explosion"@.len());
    assert(b.len() != "is_explosion"@.len());
    assert(a.len() != "explosion"@.len());
    assert(b[0] != "explosion"@[0]);
    assert(a.len() != "#minecraft:is_fall"@.len());
    assert(b.len() != "#minecraft:is_fall"@.len());
    assert(a.len() != "minecraft:is_fall"@.len());
    assert(b.len() != "minecraft:is_fall"@.len());
    assert(a.len() != "is_fall"@.len());
    assert(b.len() != "is_fall"@.len());
    assert(a.len() != "fall"@.len());
    assert(b.len() != "fall"@.len());
    assert(a.len() != "#minecraft:is_fire"@.len());
    assert(b.len() != "#minecraft:is_fire"@.len());
    assert(a.len() != "minecraft:is_fire"@.len());
    assert(b.len() != "minecraft:is_fire"@.len());
    assert(a.len() != "is_fire"@.len());
    assert(b.len() != "is_fire"@.len());
    assert(a.len() != "fire"@.len());
    assert(b.len() != "fire"@.len());
    assert(a.len() != "in_fire"@.len());
    assert(b.len() != "in_fire"@.len());
    assert(a.len() != "minecraft:in_fire"@.len());
    assert(b.len() != "minecraft:in_fire"@.len());
    assert(a.len() != "#minecraft:is_freezing"@.len());
    assert(b.len() != "#minecraft:is_freezing"@.len());
    assert(a.len() != "minecraft:is_freezing"@.len());
    assert(b.len() != "minecraft:is_freezing"@.len());
    assert(a.len() != "is_freezing"@.len());
    assert(b.len() != "is_freezing"@.len());
    assert(a.len() != "#minecraft:is_lightning"@.len());
    assert(b.len() != "#minecraft:is_lightning"@.len());
    assert(a.len() != "minecraft:is_lightning"@.len());
    assert(b.len() != "minecraft:is_lightning"@.len());
    assert(a.len() != "is_lightning"@.len());
    assert(b.len() != "is_lightning"@.len());
    assert(a.len() != "#minecraft:is_player_attack"@.len());
    assert(b.len() != "#minecraft:is_player_attack"@.len());
    assert(a.len() != "minecraft:is_player_attack"@.len());
    assert(b.len() != "minecraft:is_player_attack"@.len());
    assert(a.len() != "is_player_attack"@.len());
    assert(b.len() != "is_player_attack"@.len());
    assert(a.len() != "#minecraft:is_projectile"@.len());
    assert(b.len() != "#minecraft:is_projectile"@.len());
    assert(a.len() != "minecraft:is_projectile"@.len());
    assert(b.len() != "minecraft:is_projectile"@.len());
    assert(a.len() != "is_projectile"@.len());
    assert(b.len() != "is_projectile"@.len());
    assert(a.len() != "#minecraft:mace_smash"@.len());
    assert(b.len() != "#minecraft:mace_smash"@.len());
    assert(a.len() != "minecraft:mace_smash"@.len());
    assert(b.len() != "minecraft:mace_smash"@.len());
    assert(a.len() != "mace_smash"@.len());
    assert(b.len() != "mace_smash"@.len());
    assert(a[0] != "#minecraft:no_anger"@[0]);
    assert(b.len() != "#minecraft:no_anger"@.len());
    assert(a.len() != "minecraft:no_anger"@.len());
    assert(b.len() != "minecraft:no_anger"@.len());
    assert(a.len() != "no_anger"@.len());
    assert(b.len() != "no_anger"@.len());
}

proof fn lemma_spell_no_knockback()
    ensures
        damage_type_of_tag("minecraft:no_knockback"@) == DamageResistantType::NoKnockback,
        damage_type_of_tag("no_knockback"@) == DamageResistantType::NoKnockback,
{
    let a = "minecraft:no_knockback"@;
    let b = "no_knockback"@;
    reveal_strlit("#minecraft:always_hurts_ender_dragons");
    reveal_strlit("#minecraft:always_kills_armor_stands");
    reveal_strlit("#minecraft:always_most_significant_fall");
    reveal_strlit("#minecraft:always_triggers_silverfish");
    reveal_strlit("#minecraft:avoids_guardian_thorns");
    reveal_strlit("#minecraft:burn_from_stepping");
    reveal_strlit("#minecraft:burns_armor_stands");
    reveal_strlit("#minecraft:bypasses_armor");
    reveal_strlit("#minecraft:bypasses_cooldown");
    reveal_strlit("#minecraft:bypasses_effects");
    reveal_strlit("#minecraft:bypasses_enchantments");
    reveal_strlit("#minecraft:bypasses_invulnerability");
    reveal_strlit("#minecraft:bypasses_resistance");
    reveal_strlit("#minecraft:bypasses_shield");
    reveal_strlit("#minecraft:bypasses_wolf_armor");
    reveal_strlit("#minecraft:can_break_armor_stand");
    reveal_strlit("#minecraft:damages_helmet");
    reveal_strlit("#minecraft:ignites_armor_stands");
    reveal_strlit("#minecraft:is_drowning");
    reveal_strlit("#minecraft:is_explosion");
    reveal_strlit("#minecraft:is_fall");
    reveal_strlit("#minecraft:is_fire");
    reveal_strlit("#minecraft:is_freezing");
    reveal_strlit("#minecraft:is_lightning");
    reveal_strlit("#minecraft:is_player_attack");
    reveal_strlit("#minecraft:is_projectile");
    reveal_strlit("#minecraft:mace_smash");
    reveal_strlit("#minecraft:no_anger");
    reveal_strlit("#minecraft:no_impact");
    reveal_strlit("always_hurts_ender_dragons");
    reveal_strlit("always_kills_armor_stands");
    reveal_strlit("always_most_significant_fall");
    reveal_strlit("always_triggers_silverfish");
    reveal_strlit("avoids_guardian_thorns");
    reveal_strlit("burn_from_stepping");
    reveal_strlit("burns_armor_stands");
    reveal_strlit("bypasses_armor");
    reveal_strlit("bypasses_cooldown");
    reveal_strlit("bypasses_effects");
    reveal_strlit("bypasses_enchantments");
    reveal_strlit("bypasses_invulnerability");
    reveal_strlit("bypasses_resistance");
    reveal_strlit("bypasses_shield");
    reveal_strlit("bypasses_wolf_armor");
    reveal_strlit("can_break_armor_stand");
    reveal_strlit("damages_helmet");
    reveal_strlit("explosion");
    reveal_strlit("fall");
    reveal_strlit("fire");
    reveal_strlit("ignites_armor_stands");
    reveal_strlit("in_fire");
    reveal_strlit("is_drowning");
    reveal_strlit("is_explosion");
    reveal_strlit("is_fall");
    reveal_strlit("is_fire");
    reveal_strlit("is_freezing");
    reveal_strlit("is_lightning");
    reveal_strlit("is_player_attack");
    reveal_strlit("is_projectile");
    reveal_strlit("mace_smash");
    reveal_strlit("minecraft:always_hurts_ender_dragons");
    reveal_strlit("minecraft:always_kills_armor_stands");
    reveal_strlit("minecraft:always_most_significant_fall");
    reveal_strlit("minecraft:always_triggers_silverfish");
    reveal_strlit("minecraft:avoids_guardian_thorns");
    reveal_strlit("minecraft:burn_from_stepping");
    reveal_strlit("minecraft:burns_armor_stands");
    reveal_strlit("minecraft:bypasses_armor");
    reveal_strlit("minecraft:bypasses_cooldown");
    reveal_strlit("minecraft:bypasses_effects");
    reveal_strlit("minecraft:bypasses_enchantments");
    reveal_strlit("minecraft:bypasses_invulnerability");
    reveal_strlit("minecraft:bypasses_resistance");
    reveal_strlit("minecraft:bypasses_shield");
    reveal_strlit("minecraft:bypasses_wolf_armor");
    reveal_strlit("minecraft:can_break_armor_stand");
    reveal_strlit("minecraft:damages_helmet");
    reveal_strlit("minecraft:ignites_armor_stands");
    reveal_strlit("minecraft:in_fire");
    reveal_strlit("minecraft:is_drowning");
    reveal_strlit("minecraft:is_explosion");
    reveal_strlit("minecraft:is_fall");
    reveal_strlit("minecraft:is_fire");
    reveal_strlit("minecraft:is_freezing");
    reveal_strlit("minecraft:is_lightning");
    reveal_strlit("minecraft:is_player_attack");
    reveal_strlit("minecraft:is_projectile");
    reveal_strlit("minecraft:mace_smash");
    reveal_strlit("minecraft:no_anger");
    reveal_strlit("minecraft:no_impact");
    reveal_strlit("minecraft:no_knockback");
    reveal_strlit("no_anger");
    reveal_strlit("no_impact");
    reveal_strlit("no_knockback");
    assert(a.len() != "#minecraft:always_hurts_ender_dragons"@.len());
    assert(b.len() != "#minecraft:always_hurts_ender_dragons"@.len());
    assert(a.len() != "minecraft:always_hurts_ender_dragons"@.len());
    assert(b.len() != "minecraft:always_hurts_ender_dragons"@.len());
    assert(a.len() != "always_hurts_ender_dragons"@.len());
    assert(b.len() != "always_hurts_ender_dragons"@.len());
    assert(a.len() != "#minecraft:always_kills_armor_stands"@.len());
    assert(b.len() != "#minecraft:always_kills_armor_stands"@.len());
    assert(a.len() != "minecraft:always_kills_armor_stands"@.len());
    assert(b.len() != "minecraft:always_kills_armor_stands"@.len());
    assert(a.len() != "always_kills_armor_stands"@.len());
    assert(b.len() != "always_kills_armor_stands"@.len());
    assert(a.len() != "#minecraft:always_most_significant_fall"@.len());
    assert(b.len() != "#minecraft:always_most_significant_fall"@.len());
    assert(a.len() != "minecraft:always_most_significant_fall"@.len());
    assert(b.len() != "minecraft:always_most_significant_fall"@.len());
    assert(a.len() != "always_most_significant_fall"@.len());
    assert(b.len() != "always_most_significant_fall"@.len());
    assert(a.len() != "#minecraft:always_triggers_silverfish"@.len());
    assert(b.len() != "#minecraft:always_triggers_silverfish"@.len());
    assert(a.len() != "minecraft:always_triggers_silverfish"@.len());
    assert(b.len() != "minecraft:always_triggers_silverfish"@.len());
    assert(a.len() != "always_triggers_silverfish"@.len());
    assert(b.len() != "always_triggers_silverfish"@.len());
    assert(a.len() != "#minecraft:avoids_guardian_thorns"@.len());
    assert(b.len() != "#minecraft:avoids_guardian_thorns"@.len());
    assert(a.len() != "minecraft:avoids_guardian_thorns"@.len());
    assert(b.len() != "minecraft:avoids_guardian_thorns"@.len());
    assert(a[0] != "avoids_guardian_thorns"@[0]);
    assert(b.len() != "avoids_guardian_thorns"@.len());
    assert(a.len() != "#minecraft:burns_armor_stands"@.len());
    assert(b.len() != "#minecraft:burns_armor_stands"@.len());
    assert(a.len() != "minecraft:burns_armor_stands"@.len());
    assert(b.len() != "minecraft:burns_armor_stands"@.len());
    assert(a.len() != "burns_armor_stands"@.len());
    assert(b.len() != "burns_armor_stands"@.len());
    assert(a.len() != "#minecraft:burn_from_stepping"@.len());
    assert(b.len() != "#minecraft:burn_from_stepping"@.len());
    assert(a.len() != "minecraft:burn_from_stepping"@.len());
    assert(b.len() != "minecraft:burn_from_stepping"@.len());
    assert(a.len() != "burn_from_stepping"@.len());
    assert(b.len() != "burn_from_stepping"@.len());
    assert(a.len() != "#minecraft:bypasses_armor"@.len());
    assert(b.len() != "#minecraft:bypasses_armor"@.len());
    assert(a.len() != "minecraft:bypasses_armor"@.len());
    assert(b.len() != "minecraft:bypasses_armor"@.len());
    assert(a.len() != "bypasses_armor"@.len());
    assert(b.len() != "bypasses_armor"@.len());
    assert(a.len() != "#minecraft:bypasses_cooldown"@.len());
    assert(b.len() != "#minecraft:bypasses_cooldown"@.len());
    assert(a.len() != "minecraft:bypasses_cooldown"@.len());
    assert(b.len() != "minecraft:bypasses_cooldown"@.len());
    assert(a.len() != "bypasses_cooldown"@.len());
    assert(b.len() != "bypasses_cooldown"@.len());
    assert(a.len() != "#minecraft:bypasses_effects"@.len());
    assert(b.len() != "#minecraft:bypasses_effects"@.len());
    assert(a.len() != "minecraft:bypasses_effects"@.len());
    assert(b.len() != "minecraft:bypasses_effects"@.len());
    assert(a.len() != "bypasses_effects"@.len());
    assert(b.len() != "bypasses_effects"@.len());
    assert(a.len() != "#minecraft:bypasses_enchantments"@.len());
    assert(b.len() != "#minecraft:bypasses_enchantments"@.len());
    assert(a.len() != "minecraft:bypasses_enchantments"@.len());
    assert(b.len() != "minecraft:bypasses_enchantments"@.len());
    assert(a.len() != "bypasses_enchantments"@.len());
    assert(b.len() != "bypasses_enchantments"@.len());
    assert(a.len() != "#minecraft:bypasses_invulnerability"@.len());
    assert(b.len() != "#minecraft:bypasses_invulnerability"@.len());
    assert(a.len() != "minecraft:bypasses_invulnerability"@.len());
    assert(b.len() != "minecraft:bypasses_invulnerability"@.len());
    assert(a.len() != "bypasses_invulnerability"@.len());
    assert(b.len() != "bypasses_invulnerability"@.len());
    assert(a.len() != "#minecraft:bypasses_resistance"@.len());
    assert(b.len() != "#minecraft:bypasses_resistance"@.len());
    assert(a.len() != "minecraft:bypasses_resistance"@.len());
    assert(b.len() != "minecraft:bypasses_resistance"@.len());
    assert(a.len() != "bypasses_resistance"@.len());
    assert(b.len() != "bypasses_resistance"@.len());
    assert(a.len() != "#minecraft:bypasses_shield"@.len());
    assert(b.len() != "#minecraft:bypasses_shield"@.len());
    assert(a.len() != "minecraft:bypasses_shield"@.len());
    assert(b.len() != "minecraft:bypasses_shield"@.len());
    assert(a.len() != "bypasses_shield"@.len());
    assert(b.len() != "bypasses_shield"@.len());
    assert(a.len() != "#minecraft:bypasses_wolf_armor"@.len());
    assert(b.len() != "#minecraft:bypasses_wolf_armor"@.len());
    assert(a.len() != "minecraft:bypasses_wolf_armor"@.len());
    assert(b.len() != "minecraft:bypasses_wolf_armor"@.len());
    assert(a.len() != "bypasses_wolf_armor"@.len());
    assert(b.len() != "bypasses_wolf_armor"@.len());
    assert(a.len() != "#minecraft:can_break_armor_stand"@.len());
    assert(b.len() != "#minecraft:can_break_armor_stand"@.len());
    assert(a.len() != "minecraft:can_break_armor_stand"@.len());
    assert(b.len() != "minecraft:can_break_armor_stand"@.len());
    assert(a.len() != "can_break_armor_stand"@.len());
    assert(b.len() != "can_break_armor_stand"@.len());
    assert(a.len() != "#minecraft:damages_helmet"@.len());
    assert(b.len() != "#minecraft:damages_helmet"@.len());
    assert(a.len() != "minecraft:damages_helmet"@.len());
    assert(b.len() != "minecraft:damages_helmet"@.len());
    assert(a.len() != "damages_helmet"@.len());
    assert(b.len() != "damages_helmet"@.len());
    assert(a.len() != "#minecraft:ignites_armor_stands"@.len());
    assert(b.len() != "#minecraft:ignites_armor_stands"@.len());
    assert(a.len() != "minecraft:ignites_armor_stands"@.len());
    assert(b.len() != "minecraft:ignites_armor_stands"@.len());
    assert(a.len() != "ignites_armor_stands"@.len());
    assert(b.len() != "ignites_armor_stands"@.len());
    assert(a[0] != "#minecraft:is_drowning"@[0]);
    assert(b.len() != "#minecraft:is_drowning"@.len());
    assert(a.len() != "minecraft:is_drowning"@.len());
    assert(b.len() != "minecraft:is_drowning"@.len());
    assert(a.len() != "is_drowning"@.len());
    assert(b.len() != "is_drowning"@.len());
    assert(a.len() != "#minecraft:is_explosion"@.len());
    assert(b.len() != "#minecraft:is_explosion"@.len());
    assert(a[10] != "minecraft:is_explosion"@[10]);
    assert(b.len() != "minecraft:is_explosion"@.len());
    assert(a.len() != "is_explosion"@.len());
    assert(b[0] != "is_explosion"@[0]);
    assert(a.len() != "explosion"@.len());
    assert(b.len() != "explosion"@.len());
    assert(a.len() != "#minecraft:is_fall"@.len());
    assert(b.len() != "#minecraft:is_fall"@.len());
    assert(a.len() != "minecraft:is_fall"@.len());
    assert(b.len() != "minecraft:is_fall"@.len());
    assert(a.len() != "is_fall"@.len());
    assert(b.len() != "is_fall"@.len());
    assert(a.len() != "fall"@.len());
    assert(b.len() != "fall"@.len());
    assert(a.len() != "#minecraft:is_fire"@.len());
    assert(b.len() != "#minecraft:is_fire"@.len());
    assert(a.len() != "minecraft:is_fire"@.len());
    assert(b.len() != "minecraft:is_fire"@.len());
    assert(a.len() != "is_fire"@.len());
    assert(b.len() != "is_fire"@.len());
    assert(a.len() != "fire"@.len());
    assert(b.len() != "fire"@.len());
    assert(a.len() != "in_fire"@.len());
    assert(b.len() != "in_fire"@.len());
    assert(a.len() != "minecraft:in_fire"@.len());
    assert(b.len() != "minecraft:in_fire"@.len());
    assert(a[0] != "#minecraft:is_freezing"@[0]);
    assert(b.len() != "#minecraft:is_freezing"@.len());
    assert(a.len() != "minecraft:is_freezing"@.len());
    assert(b.len() != "minecraft:is_freezing"@.len());
    assert(a.len() != "is_freezing"@.len());
    assert(b.len() != "is_freezing"@.len());
    assert(a.len() != "#minecraft:is_lightning"@.len());
    assert(b.len() != "#minecraft:is_lightning"@.len());
    assert(a[10] != "minecraft:is_lightning"@[10]);
    assert(b.len() != "minecraft:is_lightning"@.len());
    assert(a.len() != "is_lightning"@.len());
    assert(b[0] != "is_lightning"@[0]);
    assert(a.len() != "#minecraft:is_player_attack"@.len());
    assert(b.len() != "#minecraft:is_player_attack"@.len());
    assert(a.len() != "minecraft:is_player_attack"@.len());
    assert(b.len() != "minecraft:is_player_attack"@.len());
    assert(a.len() != "is_player_attack"@.len());
    assert(b.len() != "is_player_attack"@.len());
    assert(a.len() != "#minecraft:is_projectile"@.len());
    assert(b.len() != "#minecraft:is_projectile"@.len());
    assert(a.len() != "minecraft:is_projectile"@.len());
    assert(b.len() != "minecraft:is_projectile"@.len());
    assert(a.len() != "is_projectile"@.len());
    assert(b.len() != "is_projectile"@.len());
    assert(a.len() != "#minecraft:mace_smash"@.len());
    assert(b.len() != "#minecraft:mace_smash"@.len());
    assert(a.len() != "minecraft:mace_smash"@.len());
    assert(b.len() != "minecraft:mace_smash"@.len());
    assert(a.len() != "mace_smash"@.len());
    assert(b.len() != "mace_smash"@.len());
    assert(a.len() != "#minecraft:no_anger"@.len());
    assert(b.len() != "#minecraft:no_anger"@.len());
    assert(a.len() != "minecraft:no_anger"@.len());
    assert(b.len() != "minecraft:no_anger"@.len());
    assert(a.len() != "no_anger"@.len());
    assert(b.len() != "no_anger"@.len());
    assert(a.len() != "#minecraft:no_impact"@.len());
    assert(b.len() != "#minecraft:no_impact"@.len());
    assert(a.len() != "minecraft:no_impact"@.len());
    assert(b.len() != "minecraft:no_impact"@.len());
    assert(a.len() != "no_impact"@.len());
    assert(b.len() != "no_impact"@.len());
}

proof fn lemma_spell_panic_causes()
    ensures
        damage_type_of_tag("minecraft:panic_causes"@) == DamageResistantType::PanicCauses,
        damage_type_of_tag("panic_causes"@) == DamageResistantType::PanicCauses,
{
    let a = "minecraft:panic_causes"@;
    let b = "panic_causes"@;
    reveal_strlit("#minecraft:always_hurts_ender_dragons");
    reveal_strlit("#minecraft:always_kills_armor_stands");
    reveal_strlit("#minecraft:always_most_significant_fall");
    reveal_strlit("#minecraft:always_triggers_silverfish");
    reveal_strlit("#minecraft:avoids_guardian_thorns");
    reveal_strlit("#minecraft:burn_from_stepping");
    reveal_strlit("#minecraft:burns_armor_stands");
    reveal_strlit("#minecraft:bypasses_armor");
    reveal_strlit("#minecraft:bypasses_cooldown");
    reveal_strlit("#minecraft:bypasses_effects");
    reveal_strlit("#minecraft:bypasses_enchantments");
    reveal_strlit("#minecraft:bypasses_invulnerability");
    reveal_strlit("#minecraft:bypasses_resistance");
    reveal_strlit("#minecraft:bypasses_shield");
    reveal_strlit("#minecraft:bypasses_wolf_armor");
    reveal_strlit("#minecraft:can_break_armor_stand");
    reveal_strlit("#minecraft:damages_helmet");
    reveal_strlit("#minecraft:ignites_armor_stands");
    reveal_strlit("#minecraft:is_drowning");
    reveal_strlit("#minecraft:is_explosion");
    reveal_strlit("#minecraft:is_fall");
    reveal_strlit("#minecraft:is_fire");
    reveal_strlit("#minecraft:is_freezing");
    reveal_strlit("#minecraft:is_lightning");
    reveal_strlit("#minecraft:is_player_attack");
    reveal_strlit("#minecraft:is_projectile");
    reveal_strlit("#minecraft:mace_smash");
    reveal_strlit("#minecraft:no_anger");
    reveal_strlit("#minecraft:no_impact");
    reveal_strlit("#minecraft:no_knockback");
    reveal_strlit("always_hurts_ender_dragons");
    reveal_strlit("always_kills_armor_stands");
    reveal_strlit("always_most_significant_fall");
    reveal_strlit("always_triggers_silverfish");
    reveal_strlit("avoids_guardian_thorns");
    reveal_strlit("burn_from_stepping");
    reveal_strlit("burns_armor_stands");
    reveal_strlit("bypasses_armor");
    reveal_strlit("bypasses_cooldown");
    reveal_strlit("bypasses_effects");
    reveal_strlit("bypasses_enchantments");
    reveal_strlit("bypasses_invulnerability");
    reveal_strlit("bypasses_resistance");
    reveal_strlit("bypasses_shield");
    reveal_strlit("bypasses_wolf_armor");
    reveal_strlit("can_break_armor_stand");
    reveal_strlit("damages_helmet");
    reveal_strlit("explosion");
    reveal_strlit("fall");
    reveal_strlit("fire");
    reveal_strlit("ignites_armor_stands");
    reveal_strlit("in_fire");
    reveal_strlit("is_drowning");
    reveal_strlit("is_explosion");
    reveal_strlit("is_fall");
    reveal_strlit("is_fire");
    reveal_strlit("is_freezing");
    reveal_strlit("is_lightning");
    reveal_strlit("is_player_attack");
    reveal_strlit("is_projectile");
    reveal_strlit("mace_smash");
    reveal_strlit("minecraft:always_hurts_ender_dragons");
    reveal_strlit("minecraft:always_kills_armor_stands");
    reveal_strlit("minecraft:always_most_significant_fall");
    reveal_strlit("minecraft:always_triggers_silverfish");
    reveal_strlit("minecraft:avoids_guardian_thorns");
    reveal_strlit("minecraft:burn_from_stepping");
    reveal_strlit("minecraft:burns_armor_stands");
    reveal_strlit("minecraft:bypasses_armor");
    reveal_strlit("minecraft:bypasses_cooldown");
    reveal_strlit("minecraft:bypasses_effects");
    reveal_strlit("minecraft:bypasses_enchantments");
    reveal_strlit("minecraft:bypasses_invulnerability");
    reveal_strlit("minecraft:bypasses_resistance");
    reveal_strlit("minecraft:bypasses_shield");
    reveal_strlit("minecraft:bypasses_wolf_armor");
    reveal_strlit("minecraft:can_break_armor_stand");
    reveal_strlit("minecraft:damages_helmet");
    reveal_strlit("minecraft:ignites_armor_stands");
    reveal_strlit("minecraft:in_fire");
    reveal_strlit("minecraft:is_drowning");
    reveal_strlit("minecraft:is_explosion");
    reveal_strlit("minecraft:is_fall");
    reveal_strlit("minecraft:is_fire");
    reveal_strlit("minecraft:is_freezing");
    reveal_strlit("minecraft:is_lightning");
    reveal_strlit("minecraft:is_player_attack");
    reveal_strlit("minecraft:is_projectile");
    reveal_strlit("minecraft:mace_smash");
    reveal_strlit("minecraft:no_anger");
    reveal_strlit("minecraft:no_impact");
    reveal_strlit("minecraft:no_knockback");
    reveal_strlit("minecraft:panic_causes");
    reveal_strlit("no_anger");
    reveal_strlit("no_impact");
    reveal_strlit("no_knockback");
    reveal_strlit("panic_causes");
    assert(a.len() != "#minecraft:always_hurts_ender_dragons"@.len());
    assert(b.len() != "#minecraft:always_hurts_ender_dragons"@.len());
    assert(a.len() != "minecraft:always_hurts_ender_dragons"@.len());
    assert(b.len() != "minecraft:always_hurts_ender_dragons"@.len());
    assert(a.len() != "always_hurts_ender_dragons"@.len());
    assert(b.len() != "always_hurts_ender_dragons"@.len());
    assert(a.len() != "#minecraft:always_kills_armor_stands"@.len());
    assert(b.len() != "#minecraft:always_kills_armor_stands"@.len());
    assert(a.len() != "minecraft:always_kills_armor_stands"@.len());
    assert(b.len() != "minecraft:always_kills_armor_stands"@.len());
    assert(a.len() != "always_kills_armor_stands"@.len());
    assert(b.len() != "always_kills_armor_stands"@.len());
    assert(a.len() != "#minecraft:always_most_significant_fall"@.len());
    assert(b.len() != "#minecraft:always_most_significant_fall"@.len());
    assert(a.len() != "minecraft:always_most_significant_fall"@.len());
    assert(b.len() != "minecraft:always_most_significant_fall"@.len());
    assert(a.len() != "always_most_significant_fall"@.len());
    assert(b.len() != "always_most_significant_fall"@.len());
    assert(a.len() != "#minecraft:always_triggers_silverfish"@.len());
    assert(b.len() != "#minecraft:always_triggers_silverfish"@.len());
    assert(a.len() != "minecraft:always_triggers_silverfish"@.len());
    assert(b.len() != "minecraft:always_triggers_silverfish"@.len());
    assert(a.len() != "always_triggers_silverfish"@.len());
    assert(b.len() != "always_triggers_silverfish"@.len());
    assert(a.len() != "#minecraft:avoids_guardian_thorns"@.len());
    assert(b.len() != "#minecraft:avoids_guardian_thorns"@.len());
    assert(a.len() != "minecraft:avoids_guardian_thorns"@.len());
    assert(b.len() != "minecraft:avoids_guardian_thorns"@.len());
    assert(a[0] != "avoids_guardian_thorns"@[0]);
    assert(b.len() != "avoids_guardian_thorns"@.len());
    assert(a.len() != "#minecraft:burns_armor_stands"@.len());
    assert(b.len() != "#minecraft:burns_armor_stands"@.len());
    assert(a.len() != "minecraft:burns_armor_stands"@.len());
    assert(b.len() != "minecraft:burns_armor_stands"@.len());
    assert(a.len() != "burns_armor_stands"@.len());
    assert(b.len() != "burns_armor_stands"@.len());
    assert(a.len() != "#minecraft:burn_from_stepping"@.len());
    assert(b.len() != "#minecraft:burn_from_stepping"@.len());
    assert(a.len() != "minecraft:burn_from_stepping"@.len());
    assert(b.len() != "minecraft:burn_from_stepping"@.len());
    assert(a.len() != "burn_from_stepping"@.len());
    assert(b.len() != "burn_from_stepping"@.len());
    assert(a.len() != "#minecraft:bypasses_armor"@.len());
    assert(b.len() != "#minecraft:bypasses_armor"@.len());
    assert(a.len() != "minecraft:bypasses_armor"@.len());
    assert(b.len() != "minecraft:bypasses_armor"@.len());
    assert(a.len() != "bypasses_armor"@.len());
    assert(b.len() != "bypasses_armor"@.len());
    assert(a.len() != "#minecraft:bypasses_cooldown"@.len());
    assert(b.len() != "#minecraft:bypasses_cooldown"@.len());
    assert(a.len() != "minecraft:bypasses_cooldown"@.len());
    assert(b.len() != "minecraft:bypasses_cooldown"@.len());
    assert(a.len() != "bypasses_cooldown"@.len());
    assert(b.len() != "bypasses_cooldown"@.len());
    assert(a.len() != "#minecraft:bypasses_effects"@.len());
    assert(b.len() != "#minecraft:bypasses_effects"@.len());
    assert(a.len() != "minecraft:bypasses_effects"@.len());
    assert(b.len() != "minecraft:bypasses_effects"@.len());
    assert(a.len() != "bypasses_effects"@.len());
    assert(b.len() != "bypasses_effects"@.len());
    assert(a.len() != "#minecraft:bypasses_enchantments"@.len());
    assert(b.len() != "#minecraft:bypasses_enchantments"@.len());
    assert(a.len() != "minecraft:bypasses_enchantments"@.len());
    assert(b.len() != "minecraft:bypasses_enchantments"@.len());
    assert(a.len() != "bypasses_enchantments"@.len());
    assert(b.len() != "bypasses_enchantments"@.len());
    assert(a.len() != "#minecraft:bypasses_invulnerability"@.len());
    assert(b.len() != "#minecraft:bypasses_invulnerability"@.len());
    assert(a.len() != "minecraft:bypasses_invulnerability"@.len());
    assert(b.len() != "minecraft:bypasses_invulnerability"@.len());
    assert(a.len() != "bypasses_invulnerability"@.len());
    assert(b.len() != "bypasses_invulnerability"@.len());
    assert(a.len() != "#minecraft:bypasses_resistance"@.len());
    assert(b.len() != "#minecraft:bypasses_resistance"@.len());
    assert(a.len() != "minecraft:bypasses_resistance"@.len());
    assert(b.len() != "minecraft:bypasses_resistance"@.len());
    assert(a.len() != "bypasses_resistance"@.len());
    assert(b.len() != "bypasses_resistance"@.len());
    assert(a.len() != "#minecraft:bypasses_shield"@.len());
    assert(b.len() != "#minecraft:bypasses_shield"@.len());
    assert(a.len() != "minecraft:bypasses_shield"@.len());
    assert(b.len() != "minecraft:bypasses_shield"@.len());
    assert(a.len() != "bypasses_shield"@.len());
    assert(b.len() != "bypasses_shield"@.len());
    assert(a.len() != "#minecraft:bypasses_wolf_armor"@.len());
    assert(b.len() != "#minecraft:bypasses_wolf_armor"@.len());
    assert(a.len() != "minecraft:bypasses_wolf_armor"@.len());
    assert(b.len() != "minecraft:bypasses_wolf_armor"@.len());
    assert(a.len() != "bypasses_wolf_armor"@.len());
    assert(b.len() != "bypasses_wolf_armor"@.len());
    assert(a.len() != "#minecraft:can_break_armor_stand"@.len());
    assert(b.len() != "#minecraft:can_break_armor_stand"@.len());
    assert(a.len() != "minecraft:can_break_armor_stand"@.len());
    assert(b.len() != "minecraft:can_break_armor_stand"@.len());
    assert(a.len() != "can_break_armor_stand"@.len());
    assert(b.len() != "can_break_armor_stand"@.len());
    assert(a.len() != "#minecraft:damages_helmet"@.len());
    assert(b.len() != "#minecraft:damages_helmet"@.len());
    assert(a.len() != "minecraft:damages_helmet"@.len());
    assert(b.len() != "minecraft:damages_helmet"@.len());
    assert(a.len() != "damages_helmet"@.len());
    assert(b.len() != "damages_helmet"@.len());
    assert(a.len() != "#minecraft:ignites_armor_stands"@.len());
    assert(b.len() != "#minecraft:ignites_armor_stands"@.len());
    assert(a.len() != "minecraft:ignites_armor_stands"@.len());
    assert(b.len() != "minecraft:ignites_armor_stands"@.len());
    assert(a.len() != "ignites_armor_stands"@.len());
    assert(b.len() != "ignites_armor_stands"@.len());
    assert(a[0] != "#minecraft:is_drowning"@[0]);
    assert(b.len() != "#minecraft:is_drowning"@.len());
    assert(a.len() != "minecraft:is_drowning"@.len());
    assert(b.len() != "minecraft:is_drowning"@.len());
    assert(a.len() != "is_drowning"@.len());
    assert(b.len() != "is_drowning"@.len());
    assert(a.len() != "#minecraft:is_explosion"@.len());
    assert(b.len() != "#minecraft:is_explosion"@.len());
    assert(a[10] != "minecraft:is_explosion"@[10]);
    assert(b.len() != "minecraft:is_explosion"@.len());
    assert(a.len() != "is_explosion"@.len());
    assert(b[0] != "is_explosion"@[0]);
    assert(a.len() != "explosion"@.len());
    assert(b.len() != "explosion"@.len());
    assert(a.len() != "#minecraft:is_fall"@.len());
    assert(b.len() != "#minecraft:is_fall"@.len());
    assert(a.len() != "minecraft:is_fall"@.len());
    assert(b.len() != "minecraft:is_fall"@.len());
    assert(a.len() != "is_fall"@.len());
    assert(b.len() != "is_fall"@.len());
    assert(a.len() != "fall"@.len());
    assert(b.len() != "fall"@.len());
    assert(a.len() != "#minecraft:is_fire"@.len());
    assert(b.len() != "#minecraft:is_fire"@.len());
    assert(a.len() != "minecraft:is_fire"@.len());
    assert(b.len() != "minecraft:is_fire"@.len());
    assert(a.len() != "is_fire"@.len());
    assert(b.len() != "is_fire"@.len());
    assert(a.len() != "fire"@.len());
    assert(b.len() != "fire"@.len());
    assert(a.len() != "in_fire"@.len());
    assert(b.len() != "in_fire"@.len());
    assert(a.len() != "minecraft:in_fire"@.len());
    assert(b.len() != "minecraft:in_fire"@.len());
    assert(a[0] != "#minecraft:is_freezing"@[0]);
    assert(b.len() != "#minecraft:is_freezing"@.len());
    assert(a.len() != "minecraft:is_freezing"@.len());
    assert(b.len() != "minecraft:is_freezing"@.len());
    assert(a.len() != "is_freezing"@.len());
    assert(b.len() != "is_freezing"@.len());
    assert(a.len() != "#minecraft:is_lightning"@.len());
    assert(b.len() != "#minecraft:is_lightning"@.len());
    assert(a[10] != "minecraft:is_lightning"@[10]);
    assert(b.len() != "minecraft:is_lightning"@.len());
    assert(a.len() != "is_lightning"@.len());
    assert(b[0] != "is_lightning"@[0]);
    assert(a.len() != "#minecraft:is_player_attack"@.len());
    assert(b.len() != "#minecraft:is_player_attack"@.len());
    assert(a.len() != "minecraft:is_player_attack"@.len());
    assert(b.len() != "minecraft:is_player_attack"@.len());
    assert(a.len() != "is_player_attack"@.len());
    assert(b.len() != "is_player_attack"@.len());
    assert(a.len() != "#minecraft:is_projectile"@.len());
    assert(b.len() != "#minecraft:is_projectile"@.len());
    assert(a.len() != "minecraft:is_projectile"@.len());
    assert(b.len() != "minecraft:is_projectile"@.len());
    assert(a.len() != "is_projectile"@.len());
    assert(b.len() != "is_projectile"@.len());
    assert(a.len() != "#minecraft:mace_smash"@.len());
    assert(b.len() != "#minecraft:mace_smash"@.len());
    assert(a.len() != "minecraft:mace_smash"@.len());
    assert(b.len() != "minecraft:mace_smash"@.len());
    assert(a.len() != "mace_smash"@.len());
    assert(b.len() != "mace_smash"@.len());
    assert(a.len() != "#minecraft:no_anger"@.len());
    assert(b.len() != "#minecraft:no_anger"@.len());
    assert(a.len() != "minecraft:no_anger"@.len());
    assert(b.len() != "minecraft:no_anger"@.len());
    assert(a.len() != "no_anger"@.len());
    assert(b.len() != "no_anger"@.len());
    assert(a.len() != "#minecraft:no_impact"@.len());
    assert(b.len() != "#minecraft:no_impact"@.len());
    assert(a.len() != "minecraft:no_impact"@.len());
    assert(b.len() != "minecraft:no_impact"@.len());
    assert(a.len() != "no_impact"@.len());
    assert(b.len() != "no_impact"@.len());
    assert(a.len() != "#minecraft:no_knockback"@.len());
    assert(b.len() != "#minecraft:no_knockback"@.len());
    assert(a[10] != "minecraft:no_knockback"@[10]);
    assert(b.len() != "minecraft:no_knockback"@.len());
    assert(a.len() != "no_knockback"@.len());
    assert(b[0] != "no_knockback"@[0]);
}

proof fn lemma_spell_panic_environmental_causes()
    ensures
        damage_type_of_tag("minecraft:panic_environmental_causes"@) == DamageResistantType::PanicEnvironmentalCauses,
        damage_type_of_tag("panic_environmental_causes"@) == DamageResistantType::PanicEnvironmentalCauses,
{
    let a = "minecraft:panic_environmental_causes"@;
    let b = "panic_environmental_causes"@;
    reveal_strlit("#minecraft:always_hurts_ender_dragons");
    reveal_strlit("#minecraft:always_kills_armor_stands");
    reveal_strlit("#minecraft:always_most_significant_fall");
    reveal_strlit("#minecraft:always_triggers_silverfish");
    reveal_strlit("#minecraft:avoids_guardian_thorns");
    reveal_strlit("#minecraft:burn_from_stepping");
    reveal_strlit("#minecraft:burns_armor_stands");
    reveal_strlit("#minecraft:bypasses_armor");
    reveal_strlit("#minecraft:bypasses_cooldown");
    reveal_strlit("#minecraft:bypasses_effects");
    reveal_strlit("#minecraft:bypasses_enchantments");
    reveal_strlit("#minecraft:bypasses_invulnerability");
    reveal_strlit("#minecraft:bypasses_resistance");
    reveal_strlit("#minecraft:bypasses_shield");
    reveal_strlit("#minecraft:bypasses_wolf_armor");
    reveal_strlit("#minecraft:can_break_armor_stand");
    reveal_strlit("#minecraft:damages_helmet");
    reveal_strlit("#minecraft:ignites_armor_stands");
    reveal_strlit("#minecraft:is_drowning");
    reveal_strlit("#minecraft:is_explosion");
    reveal_strlit("#minecraft:is_fall");
    reveal_strlit("#minecraft:is_fire");
    reveal_strlit("#minecraft:is_freezing");
    reveal_strlit("#minecraft:is_lightning");
    reveal_strlit("#minecraft:is_player_attack");
    reveal_strlit("#minecraft:is_projectile");
    reveal_strlit("#minecraft:mace_smash");
    reveal_strlit("#minecraft:no_anger");
    reveal_strlit("#minecraft:no_impact");
    reveal_strlit("#minecraft:no_knockback");
    reveal_strlit("#minecraft:panic_causes");
    reveal_strlit("always_hurts_ender_dragons");
    reveal_strlit("always_kills_armor_stands");
    reveal_strlit("always_most_significant_fall");
    reveal_strlit("always_triggers_silverfish");
    reveal_strlit("avoids_guardian_thorns");
    reveal_strlit("burn_from_stepping");
    reveal_strlit("burns_armor_stands");
    reveal_strlit("bypasses_armor");
    reveal_strlit("bypasses_cooldown");
    reveal_strlit("bypasses_effects");
    reveal_strlit("bypasses_enchantments");
    reveal_strlit("bypasses_invulnerability");
    reveal_strlit("bypasses_resistance");
    reveal_strlit("bypasses_shield");
    reveal_strlit("bypasses_wolf_armor");
    reveal_strlit("can_break_armor_stand");
    reveal_strlit("damages_helmet");
    reveal_strlit("explosion");
    reveal_strlit("fall");
    reveal_strlit("fire");
    reveal_strlit("ignites_armor_stands");
    reveal_strlit("in_fire");
    reveal_strlit("is_drowning");
    reveal_strlit("is_explosion");
    reveal_strlit("is_fall");
    reveal_strlit("is_fire");
    reveal_strlit("is_freezing");
    reveal_strlit("is_lightning");
    reveal_strlit("is_player_attack");
    reveal_strlit("is_projectile");
    reveal_strlit("mace_smash");
    reveal_strlit("minecraft:always_hurts_ender_dragons");
    reveal_strlit("minecraft:always_kills_armor_stands");
    reveal_strlit("minecraft:always_most_significant_fall");
    reveal_strlit("minecraft:always_triggers_silverfish");
    reveal_strlit("minecraft:avoids_guardian_thorns");
    reveal_strlit("minecraft:burn_from_stepping");
    reveal_strlit("minecraft:burns_armor_stands");
    reveal_strlit("minecraft:bypasses_armor");
    reveal_strlit("minecraft:bypasses_cooldown");
    reveal_strlit("minecraft:bypasses_effects");
    reveal_strlit("minecraft:bypasses_enchantments");
    reveal_strlit("minecraft:bypasses_invulnerability");
    reveal_strlit("minecraft:bypasses_resistance");
    reveal_strlit("minecraft:bypasses_shield");
    reveal_strlit("minecraft:bypasses_wolf_armor");
    reveal_strlit("minecraft:can_break_armor_stand");
    reveal_strlit("minecraft:damages_helmet");
    reveal_strlit("minecraft:ignites_armor_stands");
    reveal_strlit("minecraft:in_fire");
    reveal_strlit("minecraft:is_drowning");
    reveal_strlit("minecraft:is_explosion");
    reveal_strlit("minecraft:is_fall");
    reveal_strlit("minecraft:is_fire");
    reveal_strlit("minecraft:is_freezing");
    reveal_strlit("minecraft:is_lightning");
    reveal_strlit("minecraft:is_player_attack");
    reveal_strlit("minecraft:is_projectile");
    reveal_strlit("minecraft:mace_smash");
    reveal_strlit("minecraft:no_anger");
    reveal_strlit("minecraft:no_impact");
    reveal_strlit("minecraft:no_knockback");
    reveal_strlit("minecraft:panic_causes");
    reveal_strlit("minecraft:panic_environmental_causes");
    reveal_strlit("no_anger");
    reveal_strlit("no_impact");
    reveal_strlit("no_knockback");
    reveal_strlit("panic_causes");
    reveal_strlit("panic_environmental_causes");
    assert(a.len() != "#minecraft:always_hurts_ender_dragons"@.len());
    assert(b.len() != "#minecraft:always_hurts_ender_dragons"@.len());
    assert(a[10] != "minecraft:always_hurts_ender_dragons"@[10]);
    assert(b.len() != "minecraft:always_hurts_ender_dragons"@.len());
    assert(a.len() != "always_hurts_ender_dragons"@.len());
    assert(b[0] != "always_hurts_ender_dragons"@[0]);
    assert(a[0] != "#minecraft:always_kills_armor_stands"@[0]);
    assert(b.len() != "#minecraft:always_kills_armor_stands"@.len());
    assert(a.len() != "minecraft:always_kills_armor_stands"@.len());
    assert(b.len() != "minecraft:always_kills_armor_stands"@.len());
    assert(a.len() != "always_kills_armor_stands"@.len());
    assert(b.len() != "always_kills_armor_stands"@.len());
    assert(a.len() != "#minecraft:always_most_significant_fall"@.len());
    assert(b.len() != "#minecraft:always_most_significant_fall"@.len());
    assert(a.len() != "minecraft:always_most_significant_fall"@.len());
    assert(b.len() != "minecraft:always_most_significant_fall"@.len());
    assert(a.len() != "always_most_significant_fall"@.len());
    assert(b.len() != "always_most_significant_fall"@.len());
    assert(a.len() != "#minecraft:always_triggers_silverfish"@.len());
    assert(b.len() != "#minecraft:always_triggers_silverfish"@.len());
    assert(a[10] != "minecraft:always_triggers_silverfish"@[10]);
    assert(b.len() != "minecraft:always_triggers_silverfish"@.len());
    assert(a.len() != "always_triggers_silverfish"@.len());
    assert(b[0] != "always_triggers_silverfish"@[0]);
    assert(a.len() != "#minecraft:avoids_guardian_thorns"@.len());
    assert(b.len() != "#minecraft:avoids_guardian_thorns"@.len());
    assert(a.len() != "minecraft:avoids_guardian_thorns"@.len());
    assert(b.len() != "minecraft:avoids_guardian_thorns"@.len());
    assert(a.len() != "avoids_guardian_thorns"@.len());
    assert(b.len() != "avoids_guardian_thorns"@.len());
    assert(a.len() != "#minecraft:burns_armor_stands"@.len());
    assert(b.len() != "#minecraft:burns_armor_stands"@.len());
    assert(a.len() != "minecraft:burns_armor_stands"@.len());
    assert(b.len() != "minecraft:burns_armor_stands"@.len());
    assert(a.len() != "burns_armor_stands"@.len());
    assert(b.len() != "burns_armor_stands"@.len());
    assert(a.len() != "#minecraft:burn_from_stepping"@.len());
    assert(b.len() != "#minecraft:burn_from_stepping"@.len());
    assert(a.len() != "minecraft:burn_from_stepping"@.len());
    assert(b.len() != "minecraft:burn_from_stepping"@.len());
    assert(a.len() != "burn_from_stepping"@.len());
    assert(b.len() != "burn_from_stepping"@.len());
    assert(a.len() != "#minecraft:bypasses_armor"@.len());
    assert(b.len() != "#minecraft:bypasses_armor"@.len());
    assert(a.len() != "minecraft:bypasses_armor"@.len());
    assert(b.len() != "minecraft:bypasses_armor"@.len());
    assert(a.len() != "bypasses_armor"@.len());
    assert(b.len() != "bypasses_armor"@.len());
    assert(a.len() != "#minecraft:bypasses_cooldown"@.len());
    assert(b.len() != "#minecraft:bypasses_cooldown"@.len());
    assert(a.len() != "minecraft:bypasses_cooldown"@.len());
    assert(b.len() != "minecraft:bypasses_cooldown"@.len());
    assert(a.len() != "bypasses_cooldown"@.len());
    assert(b.len() != "bypasses_cooldown"@.len());
    assert(a.len() != "#minecraft:bypasses_effects"@.len());
    assert(b.len() != "#minecraft:bypasses_effects"@.len());
    assert(a.len() != "minecraft:bypasses_effects"@.len());
    assert(b[0] != "minecraft:bypasses_effects"@[0]);
    assert(a.len() != "bypasses_effects"@.len());
    assert(b.len() != "bypasses_effects"@.len());
    assert(a.len() != "#minecraft:bypasses_enchantments"@.len());
    assert(b.len() != "#minecraft:bypasses_enchantments"@.len());
    assert(a.len() != "minecraft:bypasses_enchantments"@.len());
    assert(b.len() != "minecraft:bypasses_enchantments"@.len());
    assert(a.len() != "bypasses_enchantments"@.len());
    assert(b.len() != "bypasses_enchantments"@.len());
    assert(a.len() != "#minecraft:bypasses_invulnerability"@.len());
    assert(b.len() != "#minecraft:bypasses_invulnerability"@.len());
    assert(a.len() != "minecraft:bypasses_invulnerability"@.len());
    assert(b.len() != "minecraft:bypasses_invulnerability"@.len());
    assert(a.len() != "bypasses_invulnerability"@.len());
    assert(b.len() != "bypasses_invulnerability"@.len());
    assert(a.len() != "#minecraft:bypasses_resistance"@.len());
    assert(b.len() != "#minecraft:bypasses_resistance"@.len());
    assert(a.len() != "minecraft:bypasses_resistance"@.len());
    assert(b.len() != "minecraft:bypasses_resistance"@.len());
    assert(a.len() != "bypasses_resistance"@.len());
    assert(b.len() != "bypasses_resistance"@.len());
    assert(a.len() != "#minecraft:bypasses_shield"@.len());
    assert(b[0] != "#minecraft:bypasses_shield"@[0]);
    assert(a.len() != "minecraft:bypasses_shield"@.len());
    assert(b.len() != "minecraft:bypasses_shield"@.len());
    assert(a.len() != "bypasses_shield"@.len());
    assert(b.len() != "bypasses_shield"@.len());
    assert(a.len() != "#minecraft:bypasses_wolf_armor"@.len());
    assert(b.len() != "#minecraft:bypasses_wolf_armor"@.len());
    assert(a.len() != "minecraft:bypasses_wolf_armor"@.len());
    assert(b.len() != "minecraft:bypasses_wolf_armor"@.len());
    assert(a.len() != "bypasses_wolf_armor"@.len());
    assert(b.len() != "bypasses_wolf_armor"@.len());
    assert(a.len() != "#minecraft:can_break_armor_stand"@.len());
    assert(b.len() != "#minecraft:can_break_armor_stand"@.len());
    assert(a.len() != "minecraft:can_break_armor_stand"@.len());
    assert(b.len() != "minecraft:can_break_armor_stand"@.len());
    assert(a.len() != "can_break_armor_stand"@.len());
    assert(b.len() != "can_break_armor_stand"@.len());
    assert(a.len() != "#minecraft:damages_helmet"@.len());
    assert(b.len() != "#minecraft:damages_helmet"@.len());
    assert(a.len() != "minecraft:damages_helmet"@.len());
    assert(b.len() != "minecraft:damages_helmet"@.len());
    assert(a.len() != "damages_helmet"@.len());
    assert(b.len() != "damages_helmet"@.len());
    assert(a.len() != "#minecraft:ignites_armor_stands"@.len());
    assert(b.len() != "#minecraft:ignites_armor_stands"@.len());
    assert(a.len() != "minecraft:ignites_armor_stands"@.len());
    assert(b.len() != "minecraft:ignites_armor_stands"@.len());
    assert(a.len() != "ignites_armor_stands"@.len());
    assert(b.len() != "ignites_armor_stands"@.len());
    assert(a.len() != "#minecraft:is_drowning"@.len());
    assert(b.len() != "#minecraft:is_drowning"@.len());
    assert(a.len() != "minecraft:is_drowning"@.len());
    assert(b.len() != "minecraft:is_drowning"@.len());
    assert(a.len() != "is_drowning"@.len());
    assert(b.len() != "is_drowning"@.len());
    assert(a.len() != "#minecraft:is_explosion"@.len());
    assert(b.len() != "#minecraft:is_explosion"@.len());
    assert(a.len() != "minecraft:is_explosion"@.len());
    assert(b.len() != "minecraft:is_explosion"@.len());
    assert(a.len() != "is_explosion"@.len());
    assert(b.len() != "is_explosion"@.len());
    assert(a.len() != "explosion"@.len());
    assert(b.len() != "explosion"@.len());
    assert(a.len() != "#minecraft:is_fall"@.len());
    assert(b.len() != "#minecraft:is_fall"@.len());
    assert(a.len() != "minecraft:is_fall"@.len());
    assert(b.len() != "minecraft:is_fall"@.len());
    assert(a.len() != "is_fall"@.len());
    assert(b.len() != "is_fall"@.len());
    assert(a.len() != "fall"@.len());
    assert(b.len() != "fall"@.len());
    assert(a.len() != "#minecraft:is_fire"@.len());
    assert(b.len() != "#minecraft:is_fire"@.len());
    assert(a.len() != "minecraft:is_fire"@.len());
    assert(b.len() != "minecraft:is_fire"@.len());
    assert(a.len() != "is_fire"@.len());
    assert(b.len() != "is_fire"@.len());
    assert(a.len() != "fire"@.len());
    assert(b.len() != "fire"@.len());
    assert(a.len() != "in_fire"@.len());
    assert(b.len() != "in_fire"@.len());
    assert(a.len() != "minecraft:in_fire"@.len());
    assert(b.len() != "minecraft:in_fire"@.len());
    assert(a.len() != "#minecraft:is_freezing"@.len());
    assert(b.len() != "#minecraft:is_freezing"@.len());
    assert(a.len() != "minecraft:is_freezing"@.len());
    assert(b.len() != "minecraft:is_freezing"@.len());
    assert(a.len() != "is_freezing"@.len());
    assert(b.len() != "is_freezing"@.len());
    assert(a.len() != "#minecraft:is_lightning"@.len());
    assert(b.len() != "#minecraft:is_lightning"@.len());
    assert(a.len() != "minecraft:is_lightning"@.len());
    assert(b.len() != "minecraft:is_lightning"@.len());
    assert(a.len() != "is_lightning"@.len());
    assert(b.len() != "is_lightning"@.len());
    assert(a.len() != "#minecraft:is_player_attack"@.len());
    assert(b.len() != "#minecraft:is_player_attack"@.len());
    assert(a.len() != "minecraft:is_player_attack"@.len());
    assert(b[0] != "minecraft:is_player_attack"@[0]);
    assert(a.len() != "is_player_attack"@.len());
    assert(b.len() != "is_player_attack"@.len());
    assert(a.len() != "#minecraft:is_projectile"@.len());
    assert(b.len() != "#minecraft:is_projectile"@.len());
    assert(a.len() != "minecraft:is_projectile"@.len());
    assert(b.len() != "minecraft:is_projectile"@.len());
    assert(a.len() != "is_projectile"@.len());
    assert(b.len() != "is_projectile"@.len());
    assert(a.len() != "#minecraft:mace_smash"@.len());
    assert(b.len() != "#minecraft:mace_smash"@.len());
    assert(a.len() != "minecraft:mace_smash"@.len());
    assert(b.len() != "minecraft:mace_smash"@.len());
    assert(a.len() != "mace_smash"@.len());
    assert(b.len() != "mace_smash"@.len());
    assert(a.len() != "#minecraft:no_anger"@.len());
    assert(b.len() != "#minecraft:no_anger"@.len());
    assert(a.len() != "minecraft:no_anger"@.len());
    assert(b.len() != "minecraft:no_anger"@.len());
    assert(a.len() != "no_anger"@.len());
    assert(b.len() != "no_anger"@.len());
    assert(a.len() != "#minecraft:no_impact"@.len());
    assert(b.len() != "#minecraft:no_impact"@.len());
    assert(a.len() != "minecraft:no_impact"@.len());
    assert(b.len() != "minecraft:no_impact"@.len());
    assert(a.len() != "no_impact"@.len());
    assert(b.len() != "no_impact"@.len());
    assert(a.len() != "#minecraft:no_knockback"@.len());
    assert(b.len() != "#minecraft:no_knockback"@.len());
    assert(a.len() != "minecraft:no_knockback"@.len());
    assert(b.len() != "minecraft:no_knockback"@.len());
    assert(a.len() != "no_knockback"@.len());
    assert(b.len() != "no_knockback"@.len());
    assert(a.len() != "#minecraft:panic_causes"@.len());
    assert(b.len() != "#minecraft:panic_causes"@.len());
    assert(a.len() != "minecraft:panic_causes"@.len());
    assert(b.len() != "minecraft:panic_causes"@.len());
    assert(a.len() != "panic_causes"@.len());
    assert(b.len() != "panic_causes"@.len());
}

proof fn lemma_spell_witch_resistant_to()
    ensures
        damage_type_of_tag("minecraft:witch_resistant_to"@) == DamageResistantType::WitchResistantTo,
        damage_type_of_tag("witch_resistant_to"@) == DamageResistantType::WitchResistantTo,
{
    let a = "minecraft:witch_resistant_to"@;
    let b = "witch_resistant_to"@;
    reveal_strlit("#minecraft:always_hurts_ender_dragons");
    reveal_strlit("#minecraft:always_kills_armor_stands");
    reveal_strlit("#minecraft:always_most_significant_fall");
    reveal_strlit("#minecraft:always_triggers_silverfish");
    reveal_strlit("#minecraft:avoids_guardian_thorns");
    reveal_strlit("#minecraft:burn_from_stepping");
    reveal_strlit("#minecraft:burns_armor_stands");
    reveal_strlit("#minecraft:bypasses_armor");
    reveal_strlit("#minecraft:bypasses_cooldown");
    reveal_strlit("#minecraft:bypasses_effects");
    reveal_strlit("#minecraft:bypasses_enchantments");
    reveal_strlit("#minecraft:bypasses_invulnerability");
    reveal_strlit("#minecraft:bypasses_resistance");
    reveal_strlit("#minecraft:bypasses_shield");
    reveal_strlit("#minecraft:bypasses_wolf_armor");
    reveal_strlit("#minecraft:can_break_armor_stand");
    reveal_strlit("#minecraft:damages_helmet");
    reveal_strlit("#minecraft:ignites_armor_stands");
    reveal_strlit("#minecraft:is_drowning");
    reveal_strlit("#minecraft:is_explosion");
    reveal_strlit("#minecraft:is_fall");
    reveal_strlit("#minecraft:is_fire");
    reveal_strlit("#minecraft:is_freezing");
    reveal_strlit("#minecraft:is_lightning");
    reveal_strlit("#minecraft:is_player_attack");
    reveal_strlit("#minecraft:is_projectile");
    reveal_strlit("#minecraft:mace_smash");
    reveal_strlit("#minecraft:no_anger");
    reveal_strlit("#minecraft:no_impact");
    reveal_strlit("#minecraft:no_knockback");
    reveal_strlit("#minecraft:panic_causes");
    reveal_strlit("#minecraft:panic_environmental_causes");
    reveal_strlit("always_hurts_ender_dragons");
    reveal_strlit("always_kills_armor_stands");
    reveal_strlit("always_most_significant_fall");
    reveal_strlit("always_triggers_silverfish");
    reveal_strlit("avoids_guardian_thorns");
    reveal_strlit("burn_from_stepping");
    reveal_strlit("burns_armor_stands");
    reveal_strlit("bypasses_armor");
    reveal_strlit("bypasses_cooldown");
    reveal_strlit("bypasses_effects");
    reveal_strlit("bypasses_enchantments");
    reveal_strlit("bypasses_invulnerability");
    reveal_strlit("bypasses_resistance");
    reveal_strlit("bypasses_shield");
    reveal_strlit("bypasses_wolf_armor");
    reveal_strlit("can_break_armor_stand");
    reveal_strlit("damages_helmet");
    reveal_strlit("explosion");
    reveal_strlit("fall");
    reveal_strlit("fire");
    reveal_strlit("ignites_armor_stands");
    reveal_strlit("in_fire");
    reveal_strlit("is_drowning");
    reveal_strlit("is_explosion");
    reveal_strlit("is_fall");
    reveal_strlit("is_fire");
    reveal_strlit("is_freezing");
    reveal_strlit("is_lightning");
    reveal_strlit("is_player_attack");
    reveal_strlit("is_projectile");
    reveal_strlit("mace_smash");
    reveal_strlit("minecraft:always_hurts_ender_dragons");
    reveal_strlit("minecraft:always_kills_armor_stands");
    reveal_strlit("minecraft:always_most_significant_fall");
    reveal_strlit("minecraft:always_triggers_silverfish");
    reveal_strlit("minecraft:avoids_guardian_thorns");
    reveal_strlit("minecraft:burn_from_stepping");
    reveal_strlit("minecraft:burns_armor_stands");
    reveal_strlit("minecraft:bypasses_armor");
    reveal_strlit("minecraft:bypasses_cooldown");
    reveal_strlit("minecraft:bypasses_effects");
    reveal_strlit("minecraft:bypasses_enchantments");
    reveal_strlit("minecraft:bypasses_invulnerability");
    reveal_strlit("minecraft:bypasses_resistance");
    reveal_strlit("minecraft:bypasses_shield");
    reveal_strlit("minecraft:bypasses_wolf_armor");
    reveal_strlit("minecraft:can_break_armor_stand");
    reveal_strlit("minecraft:damages_helmet");
    reveal_strlit("minecraft:ignites_armor_stands");
    reveal_strlit("minecraft:in_fire");
    reveal_strlit("minecraft:is_drowning");
    reveal_strlit("minecraft:is_explosion");
    reveal_strlit("minecraft:is_fall");
    reveal_strlit("minecraft:is_fire");
    reveal_strlit("minecraft:is_freezing");
    reveal_strlit("minecraft:is_lightning");
    reveal_strlit("minecraft:is_player_attack");
    reveal_strlit("minecraft:is_projectile");
    reveal_strlit("minecraft:mace_smash");
    reveal_strlit("minecraft:no_anger");
    reveal_strlit("minecraft:no_impact");
    reveal_strlit("minecraft:no_knockback");
    reveal_strlit("minecraft:panic_causes");
    reveal_strlit("minecraft:panic_environmental_causes");
    reveal_strlit("minecraft:witch_resistant_to");
    reveal_strlit("no_anger");
    reveal_strlit("no_impact");
    reveal_strlit("no_knockback");
    reveal_strlit("panic_causes");
    reveal_strlit("panic_environmental_causes");
    reveal_strlit("witch_resistant_to");
    assert(a.len() != "#minecraft:always_hurts_ender_dragons"@.len());
    assert(b.len() != "#minecraft:always_hurts_ender_dragons"@.len());
    assert(a.len() != "minecraft:always_hurts_ender_dragons"@.len());
    assert(b.len() != "minecraft:always_hurts_ender_dragons"@.len());
    assert(a.len() != "always_hurts_ender_dragons"@.len());
    assert(b.len() != "always_hurts_ender_dragons"@.len());
    assert(a.len() != "#minecraft:always_kills_armor_stands"@.len());
    assert(b.len() != "#minecraft:always_kills_armor_stands"@.len());
    assert(a.len() != "minecraft:always_kills_armor_stands"@.len());
    assert(b.len() != "minecraft:always_kills_armor_stands"@.len());
    assert(a.len() != "always_kills_armor_stands"@.len());
    assert(b.len() != "always_kills_armor_stands"@.len());
    assert(a.len() != "#minecraft:always_most_significant_fall"@.len());
    assert(b.len() != "#minecraft:always_most_significant_fall"@.len());
    assert(a.len() != "minecraft:always_most_significant_fall"@.len());
    assert(b.len() != "minecraft:always_most_significant_fall"@.len());
    assert(a[0] != "always_most_significant_fall"@[0]);
    assert(b.len() != "always_most_significant_fall"@.len());
    assert(a.len() != "#minecraft:always_triggers_silverfish"@.len());
    assert(b.len() != "#minecraft:always_triggers_silverfish"@.len());
    assert(a.len() != "minecraft:always_triggers_silverfish"@.len());
    assert(b.len() != "minecraft:always_triggers_silverfish"@.len());
    assert(a.len() != "always_triggers_silverfish"@.len());
    assert(b.len() != "always_triggers_silverfish"@.len());
    assert(a.len() != "#minecraft:avoids_guardian_thorns"@.len());
    assert(b.len() != "#minecraft:avoids_guardian_thorns"@.len());
    assert(a.len() != "minecraft:avoids_guardian_thorns"@.len());
    assert(b.len() != "minecraft:avoids_guardian_thorns"@.len());
    assert(a.len() != "avoids_guardian_thorns"@.len());
    assert(b.len() != "avoids_guardian_thorns"@.len());
    assert(a.len() != "#minecraft:burns_armor_stands"@.len());
    assert(b.len() != "#minecraft:burns_armor_stands"@.len());
    assert(a[10] != "minecraft:burns_armor_stands"@[10]);
    assert(b.len() != "minecraft:burns_armor_stands"@.len());
    assert(a.len() != "burns_armor_stands"@.len());
    assert(b[0] != "burns_armor_stands"@[0]);
    assert(a.len() != "#minecraft:burn_from_stepping"@.len());
    assert(b.len() != "#minecraft:burn_from_stepping"@.len());
    assert(a[10] != "minecraft:burn_from_stepping"@[10]);
    assert(b.len() != "minecraft:burn_from_stepping"@.len());
    assert(a.len() != "burn_from_stepping"@.len());
    assert(b[0] != "burn_from_stepping"@[0]);
    assert(a.len() != "#minecraft:bypasses_armor"@.len());
    assert(b.len() != "#minecraft:bypasses_armor"@.len());
    assert(a.len() != "minecraft:bypasses_armor"@.len());
    assert(b.len() != "minecraft:bypasses_armor"@.len());
    assert(a.len() != "bypasses_armor"@.len());
    assert(b.len() != "bypasses_armor"@.len());
    assert(a[0] != "#minecraft:bypasses_cooldown"@[0]);
    assert(b.len() != "#minecraft:bypasses_cooldown"@.len());
    assert(a.len() != "minecraft:bypasses_cooldown"@.len());
    assert(b.len() != "minecraft:bypasses_cooldown"@.len());
    assert(a.len() != "bypasses_cooldown"@.len());
    assert(b.len() != "bypasses_cooldown"@.len());
    assert(a.len() != "#minecraft:bypasses_effects"@.len());
    assert(b.len() != "#minecraft:bypasses_effects"@.len());
    assert(a.len() != "minecraft:bypasses_effects"@.len());
    assert(b.len() != "minecraft:bypasses_effects"@.len());
    assert(a.len() != "bypasses_effects"@.len());
    assert(b.len() != "bypasses_effects"@.len());
    assert(a.len() != "#minecraft:bypasses_enchantments"@.len());
    assert(b.len() != "#minecraft:bypasses_enchantments"@.len());
    assert(a.len() != "minecraft:bypasses_enchantments"@.len());
    assert(b.len() != "minecraft:bypasses_enchantments"@.len());
    assert(a.len() != "bypasses_enchantments"@.len());
    assert(b.len() != "bypasses_enchantments"@.len());
    assert(a.len() != "#minecraft:bypasses_invulnerability"@.len());
    assert(b.len() != "#minecraft:bypasses_invulnerability"@.len());
    assert(a.len() != "minecraft:bypasses_invulnerability"@.len());
    assert(b.len() != "minecraft:bypasses_invulnerability"@.len());
    assert(a.len() != "bypasses_invulnerability"@.len());
    assert(b.len() != "bypasses_invulnerability"@.len());
    assert(a.len() != "#minecraft:bypasses_resistance"@.len());
    assert(b.len() != "#minecraft:bypasses_resistance"@.len());
    assert(a.len() != "minecraft:bypasses_resistance"@.len());
    assert(b.len() != "minecraft:bypasses_resistance"@.len());
    assert(a.len() != "bypasses_resistance"@.len());
    assert(b.len() != "bypasses_resistance"@.len());
    assert(a.len() != "#minecraft:bypasses_shield"@.len());
    assert(b.len() != "#minecraft:bypasses_shield"@.len());
    assert(a.len() != "minecraft:bypasses_shield"@.len());
    assert(b.len() != "minecraft:bypasses_shield"@.len());
    assert(a.len() != "bypasses_shield"@.len());
    assert(b.len() != "bypasses_shield"@.len());
    assert(a.len() != "#minecraft:bypasses_wolf_armor"@.len());
    assert(b.len() != "#minecraft:bypasses_wolf_armor"@.len());
    assert(a.len() != "minecraft:bypasses_wolf_armor"@.len());
    assert(b.len() != "minecraft:bypasses_wolf_armor"@.len());
    assert(a.len() != "bypasses_wolf_armor"@.len());
    assert(b.len() != "bypasses_wolf_armor"@.len());
    assert(a.len() != "#minecraft:can_break_armor_stand"@.len());
    assert(b.len() != "#minecraft:can_break_armor_stand"@.len());
    assert(a.len() != "minecraft:can_break_armor_stand"@.len());
    assert(b.len() != "minecraft:can_break_armor_stand"@.len());
    assert(a.len() != "can_break_armor_stand"@.len());
    assert(b.len() != "can_break_armor_stand"@.len());
    assert(a.len() != "#minecraft:damages_helmet"@.len());
    assert(b.len() != "#minecraft:damages_helmet"@.len());
    assert(a.len() != "minecraft:damages_helmet"@.len());
    assert(b.len() != "minecraft:damages_helmet"@.len());
    assert(a.len() != "damages_helmet"@.len());
    assert(b.len() != "damages_helmet"@.len());
    assert(a.len() != "#minecraft:ignites_armor_stands"@.len());
    assert(b.len() != "#minecraft:ignites_armor_stands"@.len());
    assert(a.len() != "minecraft:ignites_armor_stands"@.len());
    assert(b.len() != "minecraft:ignites_armor_stands"@.len());
    assert(a.len() != "ignites_armor_stands"@.len());
    assert(b.len() != "ignites_armor_stands"@.len());
    assert(a.len() != "#minecraft:is_drowning"@.len());
    assert(b.len() != "#minecraft:is_drowning"@.len());
    assert(a.len() != "minecraft:is_drowning"@.len());
    assert(b.len() != "minecraft:is_drowning"@.len());
    assert(a.len() != "is_drowning"@.len());
    assert(b.len() != "is_drowning"@.len());
    assert(a.len() != "#minecraft:is_explosion"@.len());
    assert(b.len() != "#minecraft:is_explosion"@.len());
    assert(a.len() != "minecraft:is_explosion"@.len());
    assert(b.len() != "minecraft:is_explosion"@.len());
    assert(a.len() != "is_explosion"@.len());
    assert(b.len() != "is_explosion"@.len());
    assert(a.len() != "explosion"@.len());
    assert(b.len() != "explosion"@.len());
    assert(a.len() != "#minecraft:is_fall"@.len());
    assert(b[0] != "#minecraft:is_fall"@[0]);
    assert(a.len() != "minecraft:is_fall"@.len());
    assert(b.len() != "minecraft:is_fall"@.len());
    assert(a.len() != "is_fall"@.len());
    assert(b.len() != "is_fall"@.len());
    assert(a.len() != "fall"@.len());
    assert(b.len() != "fall"@.len());
    assert(a.len() != "#minecraft:is_fire"@.len());
    assert(b[0] != "#minecraft:is_fire"@[0]);
    assert(a.len() != "minecraft:is_fire"@.len());
    assert(b.len() != "minecraft:is_fire"@.len());
    assert(a.len() != "is_fire"@.len());
    assert(b.len() != "is_fire"@.len());
    assert(a.len() != "fire"@.len());
    assert(b.len() != "fire"@.len());
    assert(a.len() != "in_fire"@.len());
    assert(b.len() != "in_fire"@.len());
    assert(a.len() != "minecraft:in_fire"@.len());
    assert(b.len() != "minecraft:in_fire"@.len());
    assert(a.len() != "#minecraft:is_freezing"@.len());
    assert(b.len() != "#minecraft:is_freezing"@.len());
    assert(a.len() != "minecraft:is_freezing"@.len());
    assert(b.len() != "minecraft:is_freezing"@.len());
    assert(a.len() != "is_freezing"@.len());
    assert(b.len() != "is_freezing"@.len());
    assert(a.len() != "#minecraft:is_lightning"@.len());
    assert(b.len() != "#minecraft:is_lightning"@.len());
    assert(a.len() != "minecraft:is_lightning"@.len());
    assert(b.len() != "minecraft:is_lightning"@.len());
    assert(a.len() != "is_lightning"@.len());
    assert(b.len() != "is_lightning"@.len());
    assert(a.len() != "#minecraft:is_player_attack"@.len());
    assert(b.len() != "#minecraft:is_player_attack"@.len());
    assert(a.len() != "minecraft:is_player_attack"@.len());
    assert(b.len() != "minecraft:is_player_attack"@.len());
    assert(a.len() != "is_player_attack"@.len());
    assert(b.len() != "is_player_attack"@.len());
    assert(a.len() != "#minecraft:is_projectile"@.len());
    assert(b.len() != "#minecraft:is_projectile"@.len());
    assert(a.len() != "minecraft:is_projectile"@.len());
    assert(b.len() != "minecraft:is_projectile"@.len());
    assert(a.len() != "is_projectile"@.len());
    assert(b.len() != "is_projectile"@.len());
    assert(a.len() != "#minecraft:mace_smash"@.len());
    assert(b.len() != "#minecraft:mace_smash"@.len());
    assert(a.len() != "minecraft:mace_smash"@.len());
    assert(b.len() != "minecraft:mace_smash"@.len());
    assert(a.len() != "mace_smash"@.len());
    assert(b.len() != "mace_smash"@.len());
    assert(a.len() != "#minecraft:no_anger"@.len());
    assert(b.len() != "#minecraft:no_anger"@.len());
    assert(a.len() != "minecraft:no_anger"@.len());
    assert(b[0] != "minecraft:no_anger"@[0]);
    assert(a.len() != "no_anger"@.len());
    assert(b.len() != "no_anger"@.len());
    assert(a.len() != "#minecraft:no_impact"@.len());
    assert(b.len() != "#minecraft:no_impact"@.len());
    assert(a.len() != "minecraft:no_impact"@.len());
    assert(b.len() != "minecraft:no_impact"@.len());
    assert(a.len() != "no_impact"@.len());
    assert(b.len() != "no_impact"@.len());
    assert(a.len() != "#minecraft:no_knockback"@.len());
    assert(b.len() != "#minecraft:no_knockback"@.len());
    assert(a.len() != "minecraft:no_knockback"@.len());
    assert(b.len() != "minecraft:no_knockback"@.len());
    assert(a.len() != "no_knockback"@.len());
    assert(b.len() != "no_knockback"@.len());
    assert(a.len() != "#minecraft:panic_causes"@.len());
    assert(b.len() != "#minecraft:panic_causes"@.len());
    assert(a.len() != "minecraft:panic_causes"@.len());
    assert(b.len() != "minecraft:panic_causes"@.len());
    assert(a.len() != "panic_causes"@.len());
    assert(b.len() != "panic_causes"@.len());
    assert(a.len() != "#minecraft:panic_environmental_causes"@.len());
    assert(b.len() != "#minecraft:panic_environmental_causes"@.len());
    assert(a.len() != "minecraft:panic_environmental_causes"@.len());
    assert(b.len() != "minecraft:panic_environmental_causes"@.len());
    assert(a.len() != "panic_environmental_causes"@.len());
    assert(b.len() != "panic_environmental_causes"@.len());
}

proof fn lemma_spell_wither_immune_to()
    ensures
        damage_type_of_tag("minecraft:wither_immune_to"@) == DamageResistantType::WitherImmuneTo,
        damage_type_of_tag("wither_immune_to"@) == DamageResistantType::WitherImmuneTo,
{
    let a = "minecraft:wither_immune_to"@;
    let b = "wither_immune_to"@;
    reveal_strlit("#minecraft:always_hurts_ender_dragons");
    reveal_strlit("#minecraft:always_kills_armor_stands");
    reveal_strlit("#minecraft:always_most_significant_fall");
    reveal_strlit("#minecraft:always_triggers_silverfish");
    reveal_strlit("#minecraft:avoids_guardian_thorns");
    reveal_strlit("#minecraft:burn_from_stepping");
    reveal_strlit("#minecraft:burns_armor_stands");
    reveal_strlit("#minecraft:bypasses_armor");
    reveal_strlit("#minecraft:bypasses_cooldown");
    reveal_strlit("#minecraft:bypasses_effects");
    reveal_strlit("#minecraft:bypasses_enchantments");
    reveal_strlit("#minecraft:bypasses_invulnerability");
    reveal_strlit("#minecraft:bypasses_resistance");
    reveal_strlit("#minecraft:bypasses_shield");
    reveal_strlit("#minecraft:bypasses_wolf_armor");
    reveal_strlit("#minecraft:can_break_armor_stand");
    reveal_strlit("#minecraft:damages_helmet");
    reveal_strlit("#minecraft:ignites_armor_stands");
    reveal_strlit("#minecraft:is_drowning");
    reveal_strlit("#minecraft:is_explosion");
    reveal_strlit("#minecraft:is_fall");
    reveal_strlit("#minecraft:is_fire");
    reveal_strlit("#minecraft:is_freezing");
    reveal_strlit("#minecraft:is_lightning");
    reveal_strlit("#minecraft:is_player_attack");
    reveal_strlit("#minecraft:is_projectile");
    reveal_strlit("#minecraft:mace_smash");
    reveal_strlit("#minecraft:no_anger");
    reveal_strlit("#minecraft:no_impact");
    reveal_strlit("#minecraft:no_knockback");
    reveal_strlit("#minecraft:panic_causes");
    reveal_strlit("#minecraft:panic_environmental_causes");
    reveal_strlit("#minecraft:witch_resistant_to");
    reveal_strlit("always_hurts_ender_dragons");
    reveal_strlit("always_kills_armor_stands");
    reveal_strlit("always_most_significant_fall");
    reveal_strlit("always_triggers_silverfish");
    reveal_strlit("avoids_guardian_thorns");
    reveal_strlit("burn_from_stepping");
    reveal_strlit("burns_armor_stands");
    reveal_strlit("bypasses_armor");
    reveal_strlit("bypasses_cooldown");
    reveal_strlit("bypasses_effects");
    reveal_strlit("bypasses_enchantments");
    reveal_strlit("bypasses_invulnerability");
    reveal_strlit("bypasses_resistance");
    reveal_strlit("bypasses_shield");
    reveal_strlit("bypasses_wolf_armor");
    reveal_strlit("can_break_armor_stand");
    reveal_strlit("damages_helmet");
    reveal_strlit("explosion");
    reveal_strlit("fall");
    reveal_strlit("fire");
    reveal_strlit("ignites_armor_stands");
    reveal_strlit("in_fire");
    reveal_strlit("is_drowning");
    reveal_strlit("is_explosion");
    reveal_strlit("is_fall");
    reveal_strlit("is_fire");
    reveal_strlit("is_freezing");
    reveal_strlit("is_lightning");
    reveal_strlit("is_player_attack");
    reveal_strlit("is_projectile");
    reveal_strlit("mace_smash");
    reveal_strlit("minecraft:always_hurts_ender_dragons");
    reveal_strlit("minecraft:always_kills_armor_stands");
    reveal_strlit("minecraft:always_most_significant_fall");
    reveal_strlit("minecraft:always_triggers_silverfish");
    reveal_strlit("minecraft:avoids_guardian_thorns");
    reveal_strlit("minecraft:burn_from_stepping");
    reveal_strlit("minecraft:burns_armor_stands");
    reveal_strlit("minecraft:bypasses_armor");
    reveal_strlit("minecraft:bypasses_cooldown");
    reveal_strlit("minecraft:bypasses_effects");
    reveal_strlit("minecraft:bypasses_enchantments");
    reveal_strlit("minecraft:bypasses_invulnerability");
    reveal_strlit("minecraft:bypasses_resistance");
    reveal_strlit("minecraft:bypasses_shield");
    reveal_strlit("minecraft:bypasses_wolf_armor");
    reveal_strlit("minecraft:can_break_armor_stand");
    reveal_strlit("minecraft:damages_helmet");
    reveal_strlit("minecraft:ignites_armor_stands");
    reveal_strlit("minecraft:in_fire");
    reveal_strlit("minecraft:is_drowning");
    reveal_strlit("minecraft:is_explosion");
    reveal_strlit("minecraft:is_fall");
    reveal_strlit("minecraft:is_fire");
    reveal_strlit("minecraft:is_freezing");
    reveal_strlit("minecraft:is_lightning");
    reveal_strlit("minecraft:is_player_attack");
    reveal_strlit("minecraft:is_projectile");
    reveal_strlit("minecraft:mace_smash");
    reveal_strlit("minecraft:no_anger");
    reveal_strlit("minecraft:no_impact");
    reveal_strlit("minecraft:no_knockback");
    reveal_strlit("minecraft:panic_causes");
    reveal_strlit("minecraft:panic_environmental_causes");
    reveal_strlit("minecraft:witch_resistant_to");
    reveal_strlit("minecraft:wither_immune_to");
    reveal_strlit("no_anger");
    reveal_strlit("no_impact");
    reveal_strlit("no_knockback");
    reveal_strlit("panic_causes");
    reveal_strlit("panic_environmental_causes");
    reveal_strlit("witch_resistant_to");
    reveal_strlit("wither_immune_to");
    assert(a.len() != "#minecraft:always_hurts_ender_dragons"@.len());
    assert(b.len() != "#minecraft:always_hurts_ender_dragons"@.len());
    assert(a.len() != "minecraft:always_hurts_ender_dragons"@.len());
    assert(b.len() != "minecraft:always_hurts_ender_dragons"@.len());
    assert(a[0] != "always_hurts_ender_dragons"@[0]);
    assert(b.len() != "always_hurts_ender_dragons"@.len());
    assert(a.len() != "#minecraft:always_kills_armor_stands"@.len());
    assert(b.len() != "#minecraft:always_kills_armor_stands"@.len());
    assert(a.len() != "minecraft:always_kills_armor_stands"@.len());
    assert(b.len() != "minecraft:always_kills_armor_stands"@.len());
    assert(a.len() != "always_kills_armor_stands"@.len());
    assert(b.len() != "always_kills_armor_stands"@.len());
    assert(a.len() != "#minecraft:always_most_significant_fall"@.len());
    assert(b.len() != "#minecraft:always_most_significant_fall"@.len());
    assert(a.len() != "minecraft:always_most_significant_fall"@.len());
    assert(b.len() != "minecraft:always_most_significant_fall"@.len());
    assert(a.len() != "always_most_significant_fall"@.len());
    assert(b.len() != "always_most_significant_fall"@.len());
    assert(a.len() != "#minecraft:always_triggers_silverfish"@.len());
    assert(b.len() != "#minecraft:always_triggers_silverfish"@.len());
    assert(a.len() != "minecraft:always_triggers_silverfish"@.len());
    assert(b.len() != "minecraft:always_triggers_silverfish"@.len());
    assert(a[0] != "always_triggers_silverfish"@[0]);
    assert(b.len() != "always_triggers_silverfish"@.len());
    assert(a.len() != "#minecraft:avoids_guardian_thorns"@.len());
    assert(b.len() != "#minecraft:avoids_guardian_thorns"@.len());
    assert(a.len() != "minecraft:avoids_guardian_thorns"@.len());
    assert(b.len() != "minecraft:avoids_guardian_thorns"@.len());
    assert(a.len() != "avoids_guardian_thorns"@.len());
    assert(b.len() != "avoids_guardian_thorns"@.len());
    assert(a.len() != "#minecraft:burns_armor_stands"@.len());
    assert(b.len() != "#minecraft:burns_armor_stands"@.len());
    assert(a.len() != "minecraft:burns_armor_stands"@.len());
    assert(b.len() != "minecraft:burns_armor_stands"@.len());
    assert(a.len() != "burns_armor_stands"@.len());
    assert(b.len() != "burns_armor_stands"@.len());
    assert(a.len() != "#minecraft:burn_from_stepping"@.len());
    assert(b.len() != "#minecraft:burn_from_stepping"@.len());
    assert(a.len() != "minecraft:burn_from_stepping"@.len());
    assert(b.len() != "minecraft:burn_from_stepping"@.len());
    assert(a.len() != "burn_from_stepping"@.len());
    assert(b.len() != "burn_from_stepping"@.len());
    assert(a.len() != "#minecraft:bypasses_armor"@.len());
    assert(b.len() != "#minecraft:bypasses_armor"@.len());
    assert(a.len() != "minecraft:bypasses_armor"@.len());
    assert(b.len() != "minecraft:bypasses_armor"@.len());
    assert(a.len() != "bypasses_armor"@.len());
    assert(b.len() != "bypasses_armor"@.len());
    assert(a.len() != "#minecraft:bypasses_cooldown"@.len());
    assert(b.len() != "#minecraft:bypasses_cooldown"@.len());
    assert(a.len() != "minecraft:bypasses_cooldown"@.len());
    assert(b.len() != "minecraft:bypasses_cooldown"@.len());
    assert(a.len() != "bypasses_cooldown"@.len());
    assert(b.len() != "bypasses_cooldown"@.len());
    assert(a.len() != "#minecraft:bypasses_effects"@.len());
    assert(b.len() != "#minecraft:bypasses_effects"@.len());
    assert(a[10] != "minecraft:bypasses_effects"@[10]);
    assert(b.len() != "minecraft:bypasses_effects"@.len());
    assert(a.len() != "bypasses_effects"@.len());
    assert(b[0] != "bypasses_effects"@[0]);
    assert(a.len() != "#minecraft:bypasses_enchantments"@.len());
    assert(b.len() != "#minecraft:bypasses_enchantments"@.len());
    assert(a.len() != "minecraft:bypasses_enchantments"@.len());
    assert(b.len() != "minecraft:bypasses_enchantments"@.len());
    assert(a.len() != "bypasses_enchantments"@.len());
    assert(b.len() != "bypasses_enchantments"@.len());
    assert(a.len() != "#minecraft:bypasses_invulnerability"@.len());
    assert(b.len() != "#minecraft:bypasses_invulnerability"@.len());
    assert(a.len() != "minecraft:bypasses_invulnerability"@.len());
    assert(b.len() != "minecraft:bypasses_invulnerability"@.len());
    assert(a.len() != "bypasses_invulnerability"@.len());
    assert(b.len() != "bypasses_invulnerability"@.len());
    assert(a.len() != "#minecraft:bypasses_resistance"@.len());
    assert(b.len() != "#minecraft:bypasses_resistance"@.len());
    assert(a.len() != "minecraft:bypasses_resistance"@.len());
    assert(b.len() != "minecraft:bypasses_resistance"@.len());
    assert(a.len() != "bypasses_resistance"@.len());
    assert(b.len() != "bypasses_resistance"@.len());
    assert(a[0] != "#minecraft:bypasses_shield"@[0]);
    assert(b.len() != "#minecraft:bypasses_shield"@.len());
    assert(a.len() != "minecraft:bypasses_shield"@.len());
    assert(b.len() != "minecraft:bypasses_shield"@.len());
    assert(a.len() != "bypasses_shield"@.len());
    assert(b.len() != "bypasses_shield"@.len());
    assert(a.len() != "#minecraft:bypasses_wolf_armor"@.len());
    assert(b.len() != "#minecraft:bypasses_wolf_armor"@.len());
    assert(a.len() != "minecraft:bypasses_wolf_armor"@.len());
    assert(b.len() != "minecraft:bypasses_wolf_armor"@.len());
    assert(a.len() != "bypasses_wolf_armor"@.len());
    assert(b.len() != "bypasses_wolf_armor"@.len());
    assert(a.len() != "#minecraft:can_break_armor_stand"@.len());
    assert(b.len() != "#minecraft:can_break_armor_stand"@.len());
    assert(a.len() != "minecraft:can_break_armor_stand"@.len());
    assert(b.len() != "minecraft:can_break_armor_stand"@.len());
    assert(a.len() != "can_break_armor_stand"@.len());
    assert(b.len() != "can_break_armor_stand"@.len());
    assert(a.len() != "#minecraft:damages_helmet"@.len());
    assert(b.len() != "#minecraft:damages_helmet"@.len());
    assert(a.len() != "minecraft:damages_helmet"@.len());
    assert(b.len() != "minecraft:damages_helmet"@.len());
    assert(a.len() != "damages_helmet"@.len());
    assert(b.len() != "damages_helmet"@.len());
    assert(a.len() != "#minecraft:ignites_armor_stands"@.len());
    assert(b.len() != "#minecraft:ignites_armor_stands"@.len());
    assert(a.len() != "minecraft:ignites_armor_stands"@.len());
    assert(b.len() != "minecraft:ignites_armor_stands"@.len());
    assert(a.len() != "ignites_armor_stands"@.len());
    assert(b.len() != "ignites_armor_stands"@.len());
    assert(a.len() != "#minecraft:is_drowning"@.len());
    assert(b.len() != "#minecraft:is_drowning"@.len());
    assert(a.len() != "minecraft:is_drowning"@.len());
    assert(b.len() != "minecraft:is_drowning"@.len());
    assert(a.len() != "is_drowning"@.len());
    assert(b.len() != "is_drowning"@.len());
    assert(a.len() != "#minecraft:is_explosion"@.len());
    assert(b.len() != "#minecraft:is_explosion"@.len());
    assert(a.len() != "minecraft:is_explosion"@.len());
    assert(b.len() != "minecraft:is_explosion"@.len());
    assert(a.len() != "is_explosion"@.len());
    assert(b.len() != "is_explosion"@.len());
    assert(a.len() != "explosion"@.len());
    assert(b.len() != "explosion"@.len());
    assert(a.len() != "#minecraft:is_fall"@.len());
    assert(b.len() != "#minecraft:is_fall"@.len());
    assert(a.len() != "minecraft:is_fall"@.len());
    assert(b.len() != "minecraft:is_fall"@.len());
    assert(a.len() != "is_fall"@.len());
    assert(b.len() != "is_fall"@.len());
    assert(a.len() != "fall"@.len());
    assert(b.len() != "fall"@.len());
    assert(a.len() != "#minecraft:is_fire"@.len());
    assert(b.len() != "#minecraft:is_fire"@.len());
    assert(a.len() != "minecraft:is_fire"@.len());
    assert(b.len() != "minecraft:is_fire"@.len());
    assert(a.len() != "is_fire"@.len());
    assert(b.len() != "is_fire"@.len());
    assert(a.len() != "fire"@.len());
    assert(b.len() != "fire"@.len());
    assert(a.len() != "in_fire"@.len());
    assert(b.len() != "in_fire"@.len());
    assert(a.len() != "minecraft:in_fire"@.len());
    assert(b.len() != "minecraft:in_fire"@.len());
    assert(a.len() != "#minecraft:is_freezing"@.len());
    assert(b.len() != "#minecraft:is_freezing"@.len());
    assert(a.len() != "minecraft:is_freezing"@.len());
    assert(b.len() != "minecraft:is_freezing"@.len());
    assert(a.len() != "is_freezing"@.len());
    assert(b.len() != "is_freezing"@.len());
    assert(a.len() != "#minecraft:is_lightning"@.len());
    assert(b.len() != "#minecraft:is_lightning"@.len());
    assert(a.len() != "minecraft:is_lightning"@.len());
    assert(b.len() != "minecraft:is_lightning"@.len());
    assert(a.len() != "is_lightning"@.len());
    assert(b.len() != "is_lightning"@.len());
    assert(a.len() != "#minecraft:is_player_attack"@.len());
    assert(b.len() != "#minecraft:is_player_attack"@.len());
    assert(a[10] != "minecraft:is_player_attack"@[10]);
    assert(b.len() != "minecraft:is_player_attack"@.len());
    assert(a.len() != "is_player_attack"@.len());
    assert(b[0] != "is_player_attack"@[0]);
    assert(a.len() != "#minecraft:is_projectile"@.len());
    assert(b.len() != "#minecraft:is_projectile"@.len());
    assert(a.len() != "minecraft:is_projectile"@.len());
    assert(b.len() != "minecraft:is_projectile"@.len());
    assert(a.len() != "is_projectile"@.len());
    assert(b.len() != "is_projectile"@.len());
    assert(a.len() != "#minecraft:mace_smash"@.len());
    assert(b.len() != "#minecraft:mace_smash"@.len());
    assert(a.len() != "minecraft:mace_smash"@.len());
    assert(b.len() != "minecraft:mace_smash"@.len());
    assert(a.len() != "mace_smash"@.len());
    assert(b.len() != "mace_smash"@.len());
    assert(a.len() != "#minecraft:no_anger"@.len());
    assert(b.len() != "#minecraft:no_anger"@.len());
    assert(a.len() != "minecraft:no_anger"@.len());
    assert(b.len() != "minecraft:no_anger"@.len());
    assert(a.len() != "no_anger"@.len());
    assert(b.len() != "no_anger"@.len());
    assert(a.len() != "#minecraft:no_impact"@.len());
    assert(b.len() != "#minecraft:no_impact"@.len());
    assert(a.len() != "minecraft:no_impact"@.len());
    assert(b.len() != "minecraft:no_impact"@.len());
    assert(a.len() != "no_impact"@.len());
    assert(b.len() != "no_impact"@.len());
    assert(a.len() != "#minecraft:no_knockback"@.len());
    assert(b.len() != "#minecraft:no_knockback"@.len());
    assert(a.len() != "minecraft:no_knockback"@.len());
    assert(b.len() != "minecraft:no_knockback"@.len());
    assert(a.len() != "no_knockback"@.len());
    assert(b.len() != "no_knockback"@.len());
    assert(a.len() != "#minecraft:panic_causes"@.len());
    assert(b.len() != "#minecraft:panic_causes"@.len());
    assert(a.len() != "minecraft:panic_causes"@.len());
    assert(b.len() != "minecraft:panic_causes"@.len());
    assert(a.len() != "panic_causes"@.len());
    assert(b.len() != "panic_causes"@.len());
    assert(a.len() != "#minecraft:panic_environmental_causes"@.len());
    assert(b.len() != "#minecraft:panic_environmental_causes"@.len());
    assert(a.len() != "minecraft:panic_environmental_causes"@.len());
    assert(b.len() != "minecraft:panic_environmental_causes"@.len());
    assert(a[0] != "panic_environmental_causes"@[0]);
    assert(b.len() != "panic_environmental_causes"@.len());
    assert(a.len() != "#minecraft:witch_resistant_to"@.len());
    assert(b.len() != "#minecraft:witch_resistant_to"@.len());
    assert(a.len() != "minecraft:witch_resistant_to"@.len());
    assert(b.len() != "minecraft:witch_resistant_to"@.len());
    assert(a.len() != "witch_resistant_to"@.len());
    assert(b.len() != "witch_resistant_to"@.len());
}

/// Every kind but the generic one is also named by its tag without the
/// `#` and without the `#minecraft:` prefix.
pub proof fn lemma_damage_tag_spellings(t: DamageResistantType)
    requires
        t != DamageResistantType::Generic,
    ensures
        damage_type_of_tag("minecraft:"@ + bare_damage_name(t)) == t,
        damage_type_of_tag(bare_damage_name(t)) == t,
{
    reveal_strlit("minecraft:");
    match t {
        DamageResistantType::AlwaysHurtsEnderDragons => {
            reveal_strlit("#minecraft:always_hurts_ender_dragons");
            reveal_strlit("minecraft:always_hurts_ender_dragons");
            reveal_strlit("always_hurts_ender_dragons");
            assert(bare_damage_name(t) =~= "always_hurts_ender_dragons"@);
            assert("minecraft:"@ + bare_damage_name(t) =~= "minecraft:always_hurts_ender_dragons"@);
            lemma_spell_always_hurts_ender_dragons();
        },
        DamageResistantType::AlwaysKillsArmorStands => {
            reveal_strlit("#minecraft:always_kills_armor_stands");
            reveal_strlit("minecraft:always_kills_armor_stands");
            reveal_strlit("always_kills_armor_stands");
            assert(bare_damage_name(t) =~= "always_kills_armor_stands"@);
            assert("minecraft:"@ + bare_damage_name(t) =~= "minecraft:always_kills_armor_stands"@);
            lemma_spell_always_kills_armor_stands();
        },
        DamageResistantType::AlwaysMostSignificantFall => {
            reveal_strlit("#minecraft:always_most_significant_fall");
            reveal_strlit("minecraft:always_most_significant_fall");
            reveal_strlit("always_most_significant_fall");
            assert(bare_damage_name(t) =~= "always_most_significant_fall"@);
            assert("minecraft:"@ + bare_damage_name(t) =~= "minecraft:always_most_significant_fall"@);
            lemma_spell_always_most_significant_fall();
        },
        DamageResistantType::AlwaysTriggersSilverfish => {
            reveal_strlit("#minecraft:always_triggers_silverfish");
            reveal_strlit("minecraft:always_triggers_silverfish");
            reveal_strlit("always_triggers_silverfish");
            assert(bare_damage_name(t) =~= "always_triggers_silverfish"@);
            assert("minecraft:"@ + bare_damage_name(t) =~= "minecraft:always_triggers_silverfish"@);
            lemma_spell_always_triggers_silverfish();
        },
        DamageResistantType::AvoidsGuardianThorns => {
            reveal_strlit("#minecraft:avoids_guardian_thorns");
            reveal_strlit("minecraft:avoids_guardian_thorns");
            reveal_strlit("avoids_guardian_thorns");
            assert(bare_damage_name(t) =~= "avoids_guardian_thorns"@);
            assert("minecraft:"@ + bare_damage_name(t) =~= "minecraft:avoids_guardian_thorns"@);
            lemma_spell_avoids_guardian_thorns();
        },
        DamageResistantType::BurnsArmorStands => {
            reveal_strlit("#minecraft:burns_armor_stands");
            reveal_strlit("minecraft:burns_armor_stands");
            reveal_strlit("burns_armor_stands");
            assert(bare_damage_name(t) =~= "burns_armor_stands"@);
            assert("minecraft:"@ + bare_damage_name(t) =~= "minecraft:burns_armor_stands"@);
            lemma_spell_burns_armor_stands();
        },
        DamageResistantType::BurnFromStepping => {
            reveal_strlit("#minecraft:burn_from_stepping");
            reveal_strlit("minecraft:burn_from_stepping");
            reveal_strlit("burn_from_stepping");
            assert(bare_damage_name(t) =~= "burn_from_stepping"@);
            assert("minecraft:"@ + bare_damage_name(t) =~= "minecraft:burn_from_stepping"@);
            lemma_spell_burn_from_stepping();
        },
        DamageResistantType::BypassesArmor => {
            reveal_strlit("#minecraft:bypasses_armor");
            reveal_strlit("minecraft:bypasses_armor");
            reveal_strlit("bypasses_armor");
            assert(bare_damage_name(t) =~= "bypasses_armor"@);
            assert("minecraft:"@ + bare_damage_name(t) =~= "minecraft:bypasses_armor"@);
            lemma_spell_bypasses_armor();
        },
        DamageResistantType::BypassesCooldown => {
            reveal_strlit("#minecraft:bypasses_cooldown");
            reveal_strlit("minecraft:bypasses_cooldown");
            reveal_strlit("bypasses_cooldown");
            assert(bare_damage_name(t) =~= "bypasses_cooldown"@);
            assert("minecraft:"@ + bare_damage_name(t) =~= "minecraft:bypasses_cooldown"@);
            lemma_spell_bypasses_cooldown();
        },
        DamageResistantType::BypassesEffects => {
            reveal_strlit("#minecraft:bypasses_effects");
            reveal_strlit("minecraft:bypasses_effects");
            reveal_strlit("bypasses_effects");
            assert(bare_damage_name(t) =~= "bypasses_effects"@);
            assert("minecraft:"@ + bare_damage_name(t) =~= "minecraft:bypasses_effects"@);
            lemma_spell_bypasses_effects();
        },
        DamageResistantType::BypassesEnchantments => {
            reveal_strlit("#minecraft:bypasses_enchantments");
            reveal_strlit("minecraft:bypasses_enchantments");
            reveal_strlit("bypasses_enchantments");
            assert(bare_damage_name(t) =~= "bypasses_enchantments"@);
            assert("minecraft:"@ + bare_damage_name(t) =~= "minecraft:bypasses_enchantments"@);
            lemma_spell_bypasses_enchantments();
        },
        DamageResistantType::BypassesInvulnerability => {
            reveal_strlit("#minecraft:bypasses_invulnerability");
            reveal_strlit("minecraft:bypasses_invulnerability");
            reveal_strlit("bypasses_invulnerability");
            assert(bare_damage_name(t) =~= "bypasses_invulnerability"@);
            assert("minecraft:"@ + bare_damage_name(t) =~= "minecraft:bypasses_invulnerability"@);
            lemma_spell_bypasses_invulnerability();
        },
        DamageResistantType::BypassesResistance => {
            reveal_strlit("#minecraft:bypasses_resistance");
            reveal_strlit("minecraft:bypasses_resistance");
            reveal_strlit("bypasses_resistance");
            assert(bare_damage_name(t) =~= "bypasses_resistance"@);
            assert("minecraft:"@ + bare_damage_name(t) =~= "minecraft:bypasses_resistance"@);
            lemma_spell_bypasses_resistance();
        },
        DamageResistantType::BypassesShield => {
            reveal_strlit("#minecraft:bypasses_shield");
            reveal_strlit("minecraft:bypasses_shield");
            reveal_strlit("bypasses_shield");
            assert(bare_damage_name(t) =~= "bypasses_shield"@);
            assert("minecraft:"@ + bare_damage_name(t) =~= "minecraft:bypasses_shield"@);
            lemma_spell_bypasses_shield();
        },
        DamageResistantType::BypassesWolfArmor => {
            reveal_strlit("#minecraft:bypasses_wolf_armor");
            reveal_strlit("minecraft:bypasses_wolf_armor");
            reveal_strlit("bypasses_wolf_armor");
            assert(bare_damage_name(t) =~= "bypasses_wolf_armor"@);
            assert("minecraft:"@ + bare_damage_name(t) =~= "minecraft:bypasses_wolf_armor"@);
            lemma_spell_bypasses_wolf_armor();
        },
        DamageResistantType::CanBreakArmorStands => {
            reveal_strlit("#minecraft:can_break_armor_stand");
            reveal_strlit("minecraft:can_break_armor_stand");
            reveal_strlit("can_break_armor_stand");
            assert(bare_damage_name(t) =~= "can_break_armor_stand"@);
            assert("minecraft:"@ + bare_damage_name(t) =~= "minecraft:can_break_armor_stand"@);
            lemma_spell_can_break_armor_stands();
        },
        DamageResistantType::DamagesHelmet => {
            reveal_strlit("#minecraft:damages_helmet");
            reveal_strlit("minecraft:damages_helmet");
            reveal_strlit("damages_helmet");
            assert(bare_damage_name(t) =~= "damages_helmet"@);
            assert("minecraft:"@ + bare_damage_name(t) =~= "minecraft:damages_helmet"@);
            lemma_spell_damages_helmet();
        },
        DamageResistantType::IgnitesArmorStands => {
            reveal_strlit("#minecraft:ignites_armor_stands");
            reveal_strlit("minecraft:ignites_armor_stands");
            reveal_strlit("ignites_armor_stands");
            assert(bare_damage_name(t) =~= "ignites_armor_stands"@);
            assert("minecraft:"@ + bare_damage_name(t) =~= "minecraft:ignites_armor_stands"@);
            lemma_spell_ignites_armor_stands();
        },
        DamageResistantType::Drowning => {
            reveal_strlit("#minecraft:is_drowning");
            reveal_strlit("minecraft:is_drowning");
            reveal_strlit("is_drowning");
            assert(bare_damage_name(t) =~= "is_drowning"@);
            assert("minecraft:"@ + bare_damage_name(t) =~= "minecraft:is_drowning"@);
            lemma_spell_drowning();
        },
        DamageResistantType::Explosion => {
            reveal_strlit("#minecraft:is_explosion");
            reveal_strlit("minecraft:is_explosion");
            reveal_strlit("is_explosion");
            assert(bare_damage_name(t) =~= "is_explosion"@);
            assert("minecraft:"@ + bare_damage_name(t) =~= "minecraft:is_explosion"@);
            lemma_spell_explosion();
        },
        DamageResistantType::Fall => {
            reveal_strlit("#minecraft:is_fall");
            reveal_strlit("minecraft:is_fall");
            reveal_strlit("is_fall");
            assert(bare_damage_name(t) =~= "is_fall"@);
            assert("minecraft:"@ + bare_damage_name(t) =~= "minecraft:is_fall"@);
            lemma_spell_fall();
        },
        DamageResistantType::Fire => {
            reveal_strlit("#minecraft:is_fire");
            reveal_strlit("minecraft:is_fire");
            reveal_strlit("is_fire");
            assert(bare_damage_name(t) =~= "is_fire"@);
            assert("minecraft:"@ + bare_damage_name(t) =~= "minecraft:is_fire"@);
            lemma_spell_fire();
        },
        DamageResistantType::Freezing => {
            reveal_strlit("#minecraft:is_freezing");
            reveal_strlit("minecraft:is_freezing");
            reveal_strlit("is_freezing");
            assert(bare_damage_name(t) =~= "is_freezing"@);
            assert("minecraft:"@ + bare_damage_name(t) =~= "minecraft:is_freezing"@);
            lemma_spell_freezing();
        },
        DamageResistantType::Lightning => {
            reveal_strlit("#minecraft:is_lightning");
            reveal_strlit("minecraft:is_lightning");
            reveal_strlit("is_lightning");
            assert(bare_damage_name(t) =~= "is_lightning"@);
            assert("minecraft:"@ + bare_damage_name(t) =~= "minecraft:is_lightning"@);
            lemma_spell_lightning();
        },
        DamageResistantType::PlayerAttack => {
            reveal_strlit("#minecraft:is_player_attack");
            reveal_strlit("minecraft:is_player_attack");
            reveal_strlit("is_player_attack");
            assert(bare_damage_name(t) =~= "is_player_attack"@);
            assert("minecraft:"@ + bare_damage_name(t) =~= "minecraft:is_player_attack"@);
            lemma_spell_player_attack();
        },
        DamageResistantType::Projectile => {
            reveal_strlit("#minecraft:is_projectile");
            reveal_strlit("minecraft:is_projectile");
            reveal_strlit("is_projectile");
            assert(bare_damage_name(t) =~= "is_projectile"@);
            assert("minecraft:"@ + bare_damage_name(t) =~= "minecraft:is_projectile"@);
            lemma_spell_projectile();
        },
        DamageResistantType::MaceSmash => {
            reveal_strlit("#minecraft:mace_smash");
            reveal_strlit("minecraft:mace_smash");
            reveal_strlit("mace_smash");
            assert(bare_damage_name(t) =~= "mace_smash"@);
            assert("minecraft:"@ + bare_damage_name(t) =~= "minecraft:mace_smash"@);
            lemma_spell_mace_smash();
        },
        DamageResistantType::NoAnger => {
            reveal_strlit("#minecraft:no_anger");
            reveal_strlit("minecraft:no_anger");
            reveal_strlit("no_anger");
            assert(bare_damage_name(t) =~= "no_anger"@);
            assert("minecraft:"@ + bare_damage_name(t) =~= "minecraft:no_anger"@);
            lemma_spell_no_anger();
        },
        DamageResistantType::NoImpact => {
            reveal_strlit("#minecraft:no_impact");
            reveal_strlit("minecraft:no_impact");
            reveal_strlit("no_impact");
            assert(bare_damage_name(t) =~= "no_impact"@);
            assert("minecraft:"@ + bare_damage_name(t) =~= "minecraft:no_impact"@);
            lemma_spell_no_impact();
        },
        DamageResistantType::NoKnockback => {
            reveal_strlit("#minecraft:no_knockback");
            reveal_strlit("minecraft:no_knockback");
            reveal_strlit("no_knockback");
            assert(bare_damage_name(t) =~= "no_knockback"@);
            assert("minecraft:"@ + bare_damage_name(t) =~= "minecraft:no_knockback"@);
            lemma_spell_no_knockback();
        },
        DamageResistantType::PanicCauses => {
            reveal_strlit("#minecraft:panic_causes");
            reveal_strlit("minecraft:panic_causes");
            reveal_strlit("panic_causes");
            assert(bare_damage_name(t) =~= "panic_causes"@);
            assert("minecraft:"@ + bare_damage_name(t) =~= "minecraft:panic_causes"@);
            lemma_spell_panic_causes();
        },
        DamageResistantType::PanicEnvironmentalCauses => {
            reveal_strlit("#minecraft:panic_environmental_causes");
            reveal_strlit("minecraft:panic_environmental_causes");
            reveal_strlit("panic_environmental_causes");
            assert(bare_damage_name(t) =~= "panic_environmental_causes"@);
            assert("minecraft:"@ + bare_damage_name(t) =~= "minecraft:panic_environmental_causes"@);
            lemma_spell_panic_environmental_causes();
        },
        DamageResistantType::WitchResistantTo => {
            reveal_strlit("#minecraft:witch_resistant_to");
            reveal_strlit("minecraft:witch_resistant_to");
            reveal_strlit("witch_resistant_to");
            assert(bare_damage_name(t) =~= "witch_resistant_to"@);
            assert("minecraft:"@ + bare_damage_name(t) =~= "minecraft:witch_resistant_to"@);
            lemma_spell_witch_resistant_to();
        },
        DamageResistantType::WitherImmuneTo => {
            reveal_strlit("#minecraft:wither_immune_to");
            reveal_strlit("minecraft:wither_immune_to");
            reveal_strlit("wither_immune_to");
            assert(bare_damage_name(t) =~= "wither_immune_to"@);
            assert("minecraft:"@ + bare_damage_name(t) =~= "minecraft:wither_immune_to"@);
            lemma_spell_wither_immune_to();
        },
        DamageResistantType::Generic => {},
    }
}

/// Every text that is none of the listed spellings names the generic kind.
pub proof fn lemma_other_text_is_generic(s: Seq<char>)
    requires
        !damage_spellings().contains(s),
    ensures
        damage_type_of_tag(s) == DamageResistantType::Generic,
{
    let sp = damage_spellings();
    assert(sp[0] == "#minecraft:always_hurts_ender_dragons"@);
    assert(sp[1] == "minecraft:always_hurts_ender_dragons"@);
    assert(sp[2] == "always_hurts_ender_dragons"@);
    assert(sp[3] == "#minecraft:always_kills_armor_stands"@);
    assert(sp[4] == "minecraft:always_kills_armor_stands"@);
    assert(sp[5] == "always_kills_armor_stands"@);
    assert(sp[6] == "#minecraft:always_most_significant_fall"@);
    assert(sp[7] == "minecraft:always_most_significant_fall"@);
    assert(sp[8] == "always_most_significant_fall"@);
    assert(sp[9] == "#minecraft:always_triggers_silverfish"@);
    assert(sp[10] == "minecraft:always_triggers_silverfish"@);
    assert(sp[11] == "always_triggers_silverfish"@);
    assert(sp[12] == "#minecraft:avoids_guardian_thorns"@);
    assert(sp[13] == "minecraft:avoids_guardian_thorns"@);
    assert(sp[14] == "avoids_guardian_thorns"@);
    assert(sp[15] == "#minecraft:burns_armor_stands"@);
    assert(sp[16] == "minecraft:burns_armor_stands"@);
    assert(sp[17] == "burns_armor_stands"@);
    assert(sp[18] == "#minecraft:burn_from_stepping"@);
    assert(sp[19] == "minecraft:burn_from_stepping"@);
    assert(sp[20] == "burn_from_stepping"@);
    assert(sp[21] == "#minecraft:bypasses_armor"@);
    assert(sp[22] == "minecraft:bypasses_armor"@);
    assert(sp[23] == "bypasses_armor"@);
    assert(sp[24] == "#minecraft:bypasses_cooldown"@);
    assert(sp[25] == "minecraft:bypasses_cooldown"@);
    assert(sp[26] == "bypasses_cooldown"@);
    assert(sp[27] == "#minecraft:bypasses_effects"@);
    assert(sp[28] == "minecraft:bypasses_effects"@);
    assert(sp[29] == "bypasses_effects"@);
    assert(sp[30] == "#minecraft:bypasses_enchantments"@);
    assert(sp[31] == "minecraft:bypasses_enchantments"@);
    assert(sp[32] == "bypasses_enchantments"@);
    assert(sp[33] == "#minecraft:bypasses_invulnerability"@);
    assert(sp[34] == "minecraft:bypasses_invulnerability"@);
    assert(sp[35] == "bypasses_invulnerability"@);
    assert(sp[36] == "#minecraft:bypasses_resistance"@);
    assert(sp[37] == "minecraft:bypasses_resistance"@);
    assert(sp[38] == "bypasses_resistance"@);
    assert(sp[39] == "#minecraft:bypasses_shield"@);
    assert(sp[40] == "minecraft:bypasses_shield"@);
    assert(sp[41] == "bypasses_shield"@);
    assert(sp[42] == "#minecraft:bypasses_wolf_armor"@);
    assert(sp[43] == "minecraft:bypasses_wolf_armor"@);
    assert(sp[44] == "bypasses_wolf_armor"@);
    assert(sp[45] == "#minecraft:can_break_armor_stand"@);
    assert(sp[46] == "minecraft:can_break_armor_stand"@);
    assert(sp[47] == "can_break_armor_stand"@);
    assert(sp[48] == "#minecraft:damages_helmet"@);
    assert(sp[49] == "minecraft:damages_helmet"@);
    assert(sp[50] == "damages_helmet"@);
    assert(sp[51] == "#minecraft:ignites_armor_stands"@);
    assert(sp[52] == "minecraft:ignites_armor_stands"@);
    assert(sp[53] == "ignites_armor_stands"@);
    assert(sp[54] == "#minecraft:is_drowning"@);
    assert(sp[55] == "minecraft:is_drowning"@);
    assert(sp[56] == "is_drowning"@);
    assert(sp[57] == "#minecraft:is_explosion"@);
    assert(sp[58] == "minecraft:is_explosion"@);
    assert(sp[59] == "is_explosion"@);
    assert(sp[60] == "explosion"@);
    assert(sp[61] == "#minecraft:is_fall"@);
    assert(sp[62] == "minecraft:is_fall"@);
    assert(sp[63] == "is_fall"@);
    assert(sp[64] == "fall"@);
    assert(sp[65] == "#minecraft:is_fire"@);
    assert(sp[66] == "minecraft:is_fire"@);
    assert(sp[67] == "is_fire"@);
    assert(sp[68] == "fire"@);
    assert(sp[69] == "in_fire"@);
    assert(sp[70] == "minecraft:in_fire"@);
    assert(sp[71] == "#minecraft:is_freezing"@);
    assert(sp[72] == "minecraft:is_freezing"@);
    assert(sp[73] == "is_freezing"@);
    assert(sp[74] == "#minecraft:is_lightning"@);
    assert(sp[75] == "minecraft:is_lightning"@);
    assert(sp[76] == "is_lightning"@);
    assert(sp[77] == "#minecraft:is_player_attack"@);
    assert(sp[78] == "minecraft:is_player_attack"@);
    assert(sp[79] == "is_player_attack"@);
    assert(sp[80] == "#minecraft:is_projectile"@);
    assert(sp[81] == "minecraft:is_projectile"@);
    assert(sp[82] == "is_projectile"@);
    assert(sp[83] == "#minecraft:mace_smash"@);
    assert(sp[84] == "minecraft:mace_smash"@);
    assert(sp[85] == "mace_smash"@);
    assert(sp[86] == "#minecraft:no_anger"@);
    assert(sp[87] == "minecraft:no_anger"@);
    assert(sp[88] == "no_anger"@);
    assert(sp[89] == "#minecraft:no_impact"@);
    assert(sp[90] == "minecraft:no_impact"@);
    assert(sp[91] == "no_impact"@);
    assert(sp[92] == "#minecraft:no_knockback"@);
    assert(sp[93] == "minecraft:no_knockback"@);
    assert(sp[94] == "no_knockback"@);
    assert(sp[95] == "#minecraft:panic_causes"@);
    assert(sp[96] == "minecraft:panic_causes"@);
    assert(sp[97] == "panic_causes"@);
    assert(sp[98] == "#minecraft:panic_environmental_causes"@);
    assert(sp[99] == "minecraft:panic_environmental_causes"@);
    assert(sp[100] == "panic_environmental_causes"@);
    assert(sp[101] == "#minecraft:witch_resistant_to"@);
    assert(sp[102] == "minecraft:witch_resistant_to"@);
    assert(sp[103] == "witch_resistant_to"@);
    assert(sp[104] == "#minecraft:wither_immune_to"@);
    assert(sp[105] == "minecraft:wither_immune_to"@);
    assert(sp[106] == "wither_immune_to"@);
}

} // verus!
