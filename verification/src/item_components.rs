//! The item component records read from the game's item data, as far as
//! they hold no floating-point values, with the defaults the reader fills
//! in for fields the data leaves out.

use vstd::prelude::*;

verus! {

/// The default number of durability points a tool loses per block: 1.
pub fn return_1u32() -> (r: u32)
    ensures
        r == 1,
{
    1
}

/// The default for flags that are on unless the data says otherwise.
pub fn return_true() -> (r: bool)
    ensures
        r,
{
    true
}

/// The default for flags that are off unless the data says otherwise.
pub fn return_false() -> (r: bool)
    ensures
        !r,
{
    false
}

/// The default for the equippable flags that are on unless the data says
/// otherwise.
pub fn _true() -> (r: bool)
    ensures
        r,
{
    true
}

/// The item protects its holder from death once.
#[derive(Clone, Debug, PartialEq, Eq)]
pub struct DeathProtection {}

/// The item blocks attacks.
#[derive(Clone, Debug, PartialEq, Eq)]
pub struct BlocksAttacks {}

/// The item resists the damage types of a tag.
#[derive(Clone, Debug, PartialEq, Eq)]
pub struct DamageResistantComponent {
    pub types: String,
}

/// How an item is worn, as the item data gives it; the entities it fits
/// are a list of entity names or a tag name.
#[derive(Clone, Debug, PartialEq, Eq)]
pub struct EquippableComponent {
    pub slot: String,
    pub equip_sound: Option<String>,
    pub asset_id: Option<String>,
    pub camera_overlay: Option<String>,
    pub allowed_entities: Option<Vec<String>>,
    pub dispensable: bool,
    pub swappable: bool,
    pub damage_on_hurt: bool,
    pub equip_on_interact: bool,
    pub can_be_sheared: bool,
    pub shearing_sound: Option<String>,
}

/// How an attribute modifier combines with the base value, as the item
/// data names it.
#[derive(Clone, Copy, Debug, PartialEq, Eq)]
pub enum Operation {
    AddValue,
    AddMultipliedBase,
    AddMultipliedTotal,
}

impl EquippableComponent {
    /// An equippable record for `slot` with every field the data may leave
    /// out at its default: no sounds, asset or overlay, fitting every
    /// entity, dispensable, swappable and damaged when its wearer is hurt,
    /// not equipped on interaction and not shearable.
    pub fn with_defaults(slot: String) -> (r: Self)
        ensures
            r.slot@ == slot@,
            r.equip_sound is None,
            r.asset_id is None,
            r.camera_overlay is None,
            r.allowed_entities is None,
            r.dispensable,
            r.swappable,
            r.damage_on_hurt,
            !r.equip_on_interact,
            !r.can_be_sheared,
            r.shearing_sound is None,
    {
        EquippableComponent {
            slot,
            equip_sound: None,
            asset_id: None,
            camera_overlay: None,
            allowed_entities: None,
            dispensable: _true(),
            swappable: _true(),
            damage_on_hurt: _true(),
            equip_on_interact: false,
            can_be_sheared: false,
            shearing_sound: None,
        }
    }
}

} // verus!
