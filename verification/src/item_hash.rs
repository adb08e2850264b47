//! The hashes of the item data components that carry a value: each is the
//! CRC-32C of a framed encoding of the component, read as a signed integer.

use vstd::prelude::*;
use vstd::utf8::encode_utf8;

use crate::component_hash::{
    checksum_signed, crc32_iscsi, get_i32_hash, get_str_hash, i32_hash, push_u32_le, str_hash,
    u32_le,
};
use crate::data_component::{
    damage_type_tag, shape_id, DamageImpl, DamageResistantImpl, EnchantmentsImpl,
    FireworkExplosionImpl, FireworksImpl, MaxStackSizeImpl, PotionContentsImpl,
    StatusEffectInstance, UnbreakableImpl,
};
use crate::varint::from_twos_complement;

verus! {

/// A component that the client identifies by a hash of its value.
pub trait DataComponentImpl {
    /// The hash of this component's value.
    fn get_hash(&self) -> i32;
}

/// A checksum read as a signed 32-bit value.
pub open spec fn signed_crc(bytes: Seq<u8>) -> i32 {
    from_twos_complement(crc32_iscsi(bytes) as nat)
}

/// The hash of an integer, read as a signed value.
pub open spec fn signed_i32_hash(v: i32) -> i32 {
    from_twos_complement(i32_hash(v) as nat)
}

/// The hash of a string, read as a signed value.
pub open spec fn signed_str_hash(s: Seq<char>) -> i32 {
    from_twos_complement(str_hash(encode_utf8(s)) as nat)
}

/// The four little-endian bytes of the hash of each integer of `s`, in order.
pub open spec fn int_hashes_le(s: Seq<i32>) -> Seq<u8>
    decreases s.len(),
{
    if s.len() == 0 {
        Seq::empty()
    } else {
        int_hashes_le(s.drop_last()) + u32_le(i32_hash(s.last()))
    }
}

/// The bytes hashed for one enchantment: the hash of its name, then the hash of its level.
pub open spec fn enchantment_entry(name: Seq<char>, level: i32) -> Seq<u8> {
    u32_le(str_hash(encode_utf8(name))) + u32_le(i32_hash(level))
}

/// The entries of the enchantments in `s`, in order.
pub open spec fn enchantment_entries(s: Seq<(String, i32)>) -> Seq<u8>
    decreases s.len(),
{
    if s.len() == 0 {
        Seq::empty()
    } else {
        enchantment_entries(s.drop_last()) + enchantment_entry(s.last().0@, s.last().1)
    }
}

/// What is hashed for a set of enchantments: 2, the entries, 3.
pub open spec fn enchantments_input(s: Seq<(String, i32)>) -> Seq<u8> {
    seq![2u8] + enchantment_entries(s) + seq![3u8]
}

/// A flag as the byte 0 or 1.
pub open spec fn flag_byte(b: bool) -> u8 {
    if b { 1u8 } else { 0u8 }
}

/// The bytes hashed for one status effect.
pub open spec fn effect_entry(e: StatusEffectInstance) -> Seq<u8> {
    u32_le(i32_hash(e.effect_id)) + u32_le(i32_hash(e.amplifier)) + u32_le(i32_hash(e.duration))
        + seq![flag_byte(e.ambient), flag_byte(e.show_particles), flag_byte(e.show_icon)]
}

/// The entries of the effects in `s`, in order.
pub open spec fn effect_entries(s: Seq<StatusEffectInstance>) -> Seq<u8>
    decreases s.len(),
{
    if s.len() == 0 {
        Seq::empty()
    } else {
        effect_entries(s.drop_last()) + effect_entry(s.last())
    }
}

/// What is hashed for a potion: each part that is present, behind its own
/// marker byte (1 potion, 2 colour, 3 name, 4 effects).
pub open spec fn potion_input(
    potion_id: Option<i32>,
    custom_color: Option<i32>,
    custom_name: Option<Seq<char>>,
    effects: Seq<StatusEffectInstance>,
) -> Seq<u8> {
    (match potion_id {
        Some(id) => seq![1u8] + u32_le(i32_hash(id)),
        None => Seq::empty(),
    }) + (match custom_color {
        Some(c) => seq![2u8] + u32_le(i32_hash(c)),
        None => Seq::empty(),
    }) + (match custom_name {
        Some(n) => seq![3u8] + u32_le(str_hash(encode_utf8(n))),
        None => Seq::empty(),
    }) + (if effects.len() == 0 {
        Seq::empty()
    } else {
        seq![4u8] + effect_entries(effects)
    })
}

/// The custom name of a potion as characters.
pub open spec fn name_view(n: Option<String>) -> Option<Seq<char>> {
    match n {
        Some(s) => Some(s@),
        None => None,
    }
}

/// What is hashed for a firework explosion: 2 and the shape, the colour
/// hashes, 3, the fade colour hashes, 4, trail and twinkle.
pub open spec fn explosion_input(e: FireworkExplosionImpl) -> Seq<u8> {
    seq![2u8, shape_id(e.shape) as u8] + int_hashes_le(e.colors@) + seq![3u8]
        + int_hashes_le(e.fade_colors@) + seq![4u8, flag_byte(e.has_trail), flag_byte(e.has_twinkle)]
}

/// The hash of a firework explosion.
pub open spec fn explosion_hash(e: FireworkExplosionImpl) -> i32 {
    signed_crc(explosion_input(e))
}

/// The hashes of the explosions in `s`, each hashed again as an integer.
pub open spec fn explosion_entries(s: Seq<FireworkExplosionImpl>) -> Seq<u8>
    decreases s.len(),
{
    if s.len() == 0 {
        Seq::empty()
    } else {
        explosion_entries(s.drop_last()) + u32_le(i32_hash(explosion_hash(s.last())))
    }
}

/// What is hashed for a rocket: 2, its flight duration, its explosions, 3.
pub open spec fn fireworks_input(f: FireworksImpl) -> Seq<u8> {
    seq![2u8] + u32_le(i32_hash(f.flight_duration)) + explosion_entries(f.explosions@) + seq![3u8]
}

/// Appends the hash of each integer of `vals`.
fn push_int_hashes(out: &mut Vec<u8>, vals: &Vec<i32>)
    ensures
        final(out)@ == old(out)@ + int_hashes_le(vals@),
{
    let ghost start = out@;
    let mut i: usize = 0;
    while i < vals.len()
        invariant
            i <= vals@.len(),
            out@ == start + int_hashes_le(vals@.subrange(0, i as int)),
        decreases vals@.len() - i,
    {
        let h = get_i32_hash(vals[i]);
        push_u32_le(out, h);
        i += 1;
        assert(vals@.subrange(0, i as int).drop_last() =~= vals@.subrange(0, (i - 1) as int));
        assert(out@ =~= start + int_hashes_le(vals@.subrange(0, i as int)));
    }
    assert(vals@.subrange(0, vals@.len() as int) =~= vals@);
}

/// A flag as the byte 0 or 1.
fn flag(b: bool) -> (r: u8)
    ensures
        r == flag_byte(b),
{
    if b { 1 } else { 0 }
}

/// Appends the entry of each effect of `effects`.
fn push_effects(out: &mut Vec<u8>, effects: &Vec<StatusEffectInstance>)
    ensures
        final(out)@ == old(out)@ + effect_entries(effects@),
{
    let ghost head = out@;
    let mut i: usize = 0;
    while i < effects.len()
        invariant
            i <= effects@.len(),
            out@ == head + effect_entries(effects@.subrange(0, i as int)),
        decreases effects@.len() - i,
    {
        let e = &effects[i];
        push_u32_le(out, get_i32_hash(e.effect_id));
        push_u32_le(out, get_i32_hash(e.amplifier));
        push_u32_le(out, get_i32_hash(e.duration));
        out.push(flag(e.ambient));
        out.push(flag(e.show_particles));
        out.push(flag(e.show_icon));
        i += 1;
        assert(effects@.subrange(0, i as int).drop_last() =~= effects@.subrange(0, (i - 1) as int));
        assert(out@ =~= head + effect_entries(effects@.subrange(0, i as int)));
    }
    assert(effects@.subrange(0, effects@.len() as int) =~= effects@);
}

impl DataComponentImpl for MaxStackSizeImpl {
    /// The hash of the size as an integer.
    fn get_hash(&self) -> (r: i32)
        ensures
            r == signed_i32_hash(self.size as i32),
    {
        let h = get_i32_hash(self.size as i32);
        crate::component_hash::as_signed(h)
    }
}

impl DataComponentImpl for DamageImpl {
    /// The hash of the damage as an integer.
    fn get_hash(&self) -> (r: i32)
        ensures
            r == signed_i32_hash(self.damage),
    {
        let h = get_i32_hash(self.damage);
        crate::component_hash::as_signed(h)
    }
}

impl DataComponentImpl for UnbreakableImpl {
    /// Always 0.
    fn get_hash(&self) -> (r: i32)
        ensures
            r == 0,
    {
        0
    }
}

impl DataComponentImpl for DamageResistantImpl {
    /// The hash of the resisted tag's name.
    fn get_hash(&self) -> (r: i32)
        ensures
            r == signed_str_hash(damage_type_tag(self.res_type)),
    {
        let h = get_str_hash(self.res_type.as_str());
        crate::component_hash::as_signed(h)
    }
}

impl DataComponentImpl for EnchantmentsImpl {
    /// The checksum of 2, each enchantment's name hash and level hash, and 3.
    fn get_hash(&self) -> (r: i32)
        ensures
            r == signed_crc(enchantments_input(self.enchantment@)),
    {
        let mut input: Vec<u8> = Vec::new();
        input.push(2u8);
        let ghost head = input@;
        let mut i: usize = 0;
        while i < self.enchantment.len()
            invariant
                i <= self.enchantment@.len(),
                input@ == head + enchantment_entries(self.enchantment@.subrange(0, i as int)),
            decreases self.enchantment@.len() - i,
        {
            let name_hash = get_str_hash(self.enchantment[i].0.as_str());
            push_u32_le(&mut input, name_hash);
            let level_hash = get_i32_hash(self.enchantment[i].1);
            push_u32_le(&mut input, level_hash);
            i += 1;
            assert(self.enchantment@.subrange(0, i as int).drop_last()
                =~= self.enchantment@.subrange(0, (i - 1) as int));
            assert(input@ =~= head + enchantment_entries(self.enchantment@.subrange(0, i as int)));
        }
        assert(self.enchantment@.subrange(0, self.enchantment@.len() as int) =~= self.enchantment@);
        input.push(3u8);
        assert(input@ =~= enchantments_input(self.enchantment@));
        checksum_signed(input.as_slice())
    }
}

impl DataComponentImpl for PotionContentsImpl {
    /// The checksum of the potion's present parts, each behind its marker.
    fn get_hash(&self) -> (r: i32)
        ensures
            r == signed_crc(
                potion_input(
                    self.potion_id,
                    self.custom_color,
                    name_view(self.custom_name),
                    self.custom_effects@,
                ),
            ),
    {
        let mut input: Vec<u8> = Vec::new();
        if let Some(id) = self.potion_id {
            input.push(1u8);
            push_u32_le(&mut input, get_i32_hash(id));
        }
        let ghost part1 = input@;
        if let Some(color) = self.custom_color {
            input.push(2u8);
            push_u32_le(&mut input, get_i32_hash(color));
        }
        let ghost part2 = input@;
        match &self.custom_name {
            Some(name) => {
                input.push(3u8);
                push_u32_le(&mut input, get_str_hash(name.as_str()));
            },
            None => {},
        }
        let ghost part3 = input@;
        if self.custom_effects.len() > 0 {
            input.push(4u8);
            push_effects(&mut input, &self.custom_effects);
        }
        assert(input@ =~= potion_input(
            self.potion_id,
            self.custom_color,
            name_view(self.custom_name),
            self.custom_effects@,
        ));
        checksum_signed(input.as_slice())
    }
}

impl DataComponentImpl for FireworkExplosionImpl {
    /// The checksum of 2, the shape, the colours, 3, the fade colours, 4, trail, twinkle.
    fn get_hash(&self) -> (r: i32)
        ensures
            r == explosion_hash(*self),
    {
        let mut input: Vec<u8> = Vec::new();
        input.push(2u8);
        input.push(self.shape.to_id() as u8);
        push_int_hashes(&mut input, &self.colors);
        input.push(3u8);
        push_int_hashes(&mut input, &self.fade_colors);
        input.push(4u8);
        input.push(flag(self.has_trail));
        input.push(flag(self.has_twinkle));
        assert(input@ =~= explosion_input(*self));
        checksum_signed(input.as_slice())
    }
}

impl DataComponentImpl for FireworksImpl {
    /// The checksum of 2, the flight duration, each explosion's hash hashed
    /// again as an integer, and 3.
    fn get_hash(&self) -> (r: i32)
        ensures
            r == signed_crc(fireworks_input(*self)),
    {
        let mut input: Vec<u8> = Vec::new();
        input.push(2u8);
        push_u32_le(&mut input, get_i32_hash(self.flight_duration));
        let ghost head = input@;
        let mut i: usize = 0;
        while i < self.explosions.len()
            invariant
                i <= self.explosions@.len(),
                input@ == head + explosion_entries(self.explosions@.subrange(0, i as int)),
            decreases self.explosions@.len() - i,
        {
            let eh = self.explosions[i].get_hash();
            push_u32_le(&mut input, get_i32_hash(eh));
            i += 1;
            assert(self.explosions@.subrange(0, i as int).drop_last()
                =~= self.explosions@.subrange(0, (i - 1) as int));
            assert(input@ =~= head + explosion_entries(self.explosions@.subrange(0, i as int)));
        }
        assert(self.explosions@.subrange(0, self.explosions@.len() as int) =~= self.explosions@);
        input.push(3u8);
        assert(input@ =~= fireworks_input(*self));
        checksum_signed(input.as_slice())
    }
}

} // verus!
