//! Item data components stored as named binary tags: the tag each
//! component is written as, and what reading a tag gives back.
//!
//! Each reader is stated as a function of the tag it reads; each writer
//! states the names its compound holds, in order, and what each name
//! reads. The laws below show that reading what was written gives back the
//! component.

use vstd::prelude::*;
use vstd::string::StrSliceExecFns;

use crate::text::str_eq;
use crate::data_component::{
    damage_type_of_tag, damage_type_tag, lemma_damage_type_tag_roundtrip, lemma_shape_roundtrips,
    shape_name, shape_of_name, DamageImpl, DamageResistantImpl, EnchantmentsImpl,
    FireworkExplosionImpl,
    FireworkExplosionShape, FireworksImpl, MaxStackSizeImpl, PotionContentsImpl,
    StatusEffectInstance, UnbreakableImpl,
};
use crate::nbt::{
    entries, entry_names, flag_as_byte, lemma_put_fresh_reads, lemma_read_distinct, nbt_get,
    put_entries, tag_bool, tag_byte, tag_int, tag_int_array, tag_list, tag_string, NbtCompound,
    NbtTag,
};

verus! {

/// The numbers of an int-array tag, or none where there is no such tag.
pub open spec fn int_array_or_empty(t: Option<NbtTag>) -> Seq<i32> {
    match tag_int_array(t) {
        Some(v) => v,
        None => Seq::empty(),
    }
}

/// The flag of a byte tag, or `d` where there is no such tag.
pub open spec fn flag_or(t: Option<NbtTag>, d: bool) -> bool {
    match tag_bool(t) {
        Some(b) => b,
        None => d,
    }
}

/// The names of `c` are pairwise different.
pub open spec fn distinct_names(c: NbtCompound) -> bool {
    forall|a: int, b: int|
        0 <= a < b < c.child_tags@.len() ==> c.child_tags@[a].0@ != c.child_tags@[b].0@
}

/// In a compound with pairwise different names, each name reads its own entry.
proof fn lemma_reads_of_distinct(c: NbtCompound)
    requires
        distinct_names(c),
    ensures
        forall|i: int|
            0 <= i < c.child_tags@.len() ==> #[trigger] nbt_get(c, entry_names(c)[i]) == Some(
                c.child_tags@[i].1,
            ),
{
    assert forall|i: int| 0 <= i < c.child_tags@.len() implies #[trigger] nbt_get(
        c,
        entry_names(c)[i],
    ) == Some(c.child_tags@[i].1) by {
        lemma_read_distinct(c, i);
    }
}

/// Putting a name none of the entries has adds it at the end.
proof fn lemma_put_fresh(e: Seq<(Seq<char>, NbtTag)>, key: Seq<char>, tag: NbtTag)
    requires
        forall|i: int| 0 <= i < e.len() ==> e[i].0 != key,
    ensures
        put_entries(e, key, tag) == e.push((key, tag)),
{
}

// ---------------------------------------------------------------- stack size, damage

/// The stack size an int tag holds: its low byte.
pub open spec fn max_stack_size_of_tag(t: NbtTag) -> Option<u8> {
    match t {
        NbtTag::Int(v) => Some(v as u8),
        _ => None,
    }
}

impl MaxStackSizeImpl {
    /// Reads the stack size from an int tag, keeping its low byte.
    pub fn read_data(data: &NbtTag) -> (r: Option<Self>)
        ensures
            match r {
                Some(x) => max_stack_size_of_tag(*data) == Some(x.size),
                None => max_stack_size_of_tag(*data) is None,
            },
    {
        match data.extract_int() {
            Some(size) => Some(MaxStackSizeImpl { size: size as u8 }),
            None => None,
        }
    }

    /// The stack size as an int tag.
    pub fn write_data(&self) -> (r: NbtTag)
        ensures
            r == NbtTag::Int(self.size as i32),
    {
        NbtTag::Int(self.size as i32)
    }
}

impl DamageImpl {
    /// Reads the damage from an int tag.
    pub fn read_data(data: &NbtTag) -> (r: Option<Self>)
        ensures
            match r {
                Some(x) => tag_int(Some(*data)) == Some(x.damage),
                None => tag_int(Some(*data)) is None,
            },
    {
        match data.extract_int() {
            Some(damage) => Some(DamageImpl { damage }),
            None => None,
        }
    }

    /// The damage as an int tag.
    pub fn write_data(&self) -> (r: NbtTag)
        ensures
            r == NbtTag::Int(self.damage),
    {
        NbtTag::Int(self.damage)
    }
}

/// Stack size and damage read back what they wrote.
pub proof fn lemma_int_components_roundtrip(m: MaxStackSizeImpl, d: DamageImpl)
    ensures
        max_stack_size_of_tag(NbtTag::Int(m.size as i32)) == Some(m.size),
        tag_int(Some(NbtTag::Int(d.damage))) == Some(d.damage),
{
}

impl UnbreakableImpl {
    /// Any tag reads as unbreakable.
    pub fn read_data(_data: &NbtTag) -> (r: Option<Self>)
        ensures
            r is Some,
    {
        Some(UnbreakableImpl)
    }

    /// An empty compound.
    pub fn write_data(&self) -> (r: NbtTag)
        ensures
            match r {
                NbtTag::Compound(c) => c.child_tags@.len() == 0,
                _ => false,
            },
    {
        NbtTag::Compound(NbtCompound::new())
    }
}

// ---------------------------------------------------------------- damage resistance

/// The damage kind a compound names under "types", where it holds a string there.
pub open spec fn damage_resistant_of_tag(t: NbtTag) -> Option<crate::data_component::DamageResistantType> {
    match t {
        NbtTag::Compound(c) => match tag_string(nbt_get(c, "types"@)) {
            Some(s) => Some(damage_type_of_tag(s)),
            None => None,
        },
        _ => None,
    }
}

/// `t` is a compound holding only the tag of `kind` under "types".
pub open spec fn written_damage_resistant(t: NbtTag, kind: crate::data_component::DamageResistantType) -> bool {
    match t {
        NbtTag::Compound(c) => {
            &&& entry_names(c) == seq!["types"@]
            &&& tag_string(nbt_get(c, "types"@)) == Some(damage_type_tag(kind))
        },
        _ => false,
    }
}

impl DamageResistantImpl {
    /// Reads the damage kind named under "types".
    pub fn read_data(data: &NbtTag) -> (r: Option<Self>)
        ensures
            match r {
                Some(x) => damage_resistant_of_tag(*data) == Some(x.res_type),
                None => damage_resistant_of_tag(*data) is None,
            },
    {
        let compound = match data.extract_compound() {
            Some(c) => c,
            None => return None,
        };
        match compound.get_string("types") {
            Some(s) => Some(
                DamageResistantImpl {
                    res_type: crate::data_component::DamageResistantType::from_tag(s.as_str()),
                },
            ),
            None => None,
        }
    }

    /// A compound with the damage kind's tag under "types".
    pub fn write_data(&self) -> (r: NbtTag)
        ensures
            written_damage_resistant(r, self.res_type),
    {
        let mut compound = NbtCompound::new();
        let name = self.res_type.as_str().to_owned();
        let ghost t = NbtTag::String(name);
        compound.put_string("types", name);
        proof {
            assert(entries(compound) =~= seq![("types"@, t)]);
            assert(entry_names(compound) =~= seq!["types"@]);
            assert(distinct_names(compound));
            lemma_reads_of_distinct(compound);
            assert(entries(compound)[0] == ("types"@, t));
            assert(nbt_get(compound, entry_names(compound)[0]) == Some(t));
        }
        NbtTag::Compound(compound)
    }
}

/// Reading a written damage resistance gives back its kind.
pub proof fn lemma_damage_resistant_roundtrip(t: NbtTag, kind: crate::data_component::DamageResistantType)
    requires
        written_damage_resistant(t, kind),
    ensures
        damage_resistant_of_tag(t) == Some(kind),
{
    lemma_damage_type_tag_roundtrip(kind);
}

// ---------------------------------------------------------------- firework explosions

/// An explosion as plain values: shape, colours, fade colours, trail, twinkle.
pub open spec fn explosion_view(x: FireworkExplosionImpl) -> (
    FireworkExplosionShape,
    Seq<i32>,
    Seq<i32>,
    bool,
    bool,
) {
    (x.shape, x.colors@, x.fade_colors@, x.has_trail, x.has_twinkle)
}

/// The explosion a compound describes: a known shape name under "shape" is
/// needed; missing colour arrays read as empty and missing flags as false.
pub open spec fn explosion_of_compound(c: NbtCompound) -> Option<
    (FireworkExplosionShape, Seq<i32>, Seq<i32>, bool, bool),
> {
    match tag_string(nbt_get(c, "shape"@)) {
        Some(n) => match shape_of_name(n) {
            Some(shape) => Some(
                (
                    shape,
                    int_array_or_empty(nbt_get(c, "colors"@)),
                    int_array_or_empty(nbt_get(c, "fade_colors"@)),
                    flag_or(nbt_get(c, "has_trail"@), false),
                    flag_or(nbt_get(c, "has_twinkle"@), false),
                ),
            ),
            None => None,
        },
        None => None,
    }
}

/// The explosion a tag describes, where it is a compound.
pub open spec fn explosion_of_tag(t: NbtTag) -> Option<
    (FireworkExplosionShape, Seq<i32>, Seq<i32>, bool, bool),
> {
    match t {
        NbtTag::Compound(c) => explosion_of_compound(c),
        _ => None,
    }
}

/// The names an explosion is written under, in order.
pub open spec fn explosion_keys() -> Seq<Seq<char>> {
    seq!["shape"@, "colors"@, "fade_colors"@, "has_trail"@, "has_twinkle"@]
}

/// `t` is the compound an explosion `v` is written as.
pub open spec fn written_explosion(
    t: NbtTag,
    v: (FireworkExplosionShape, Seq<i32>, Seq<i32>, bool, bool),
) -> bool {
    match t {
        NbtTag::Compound(c) => {
            &&& entry_names(c) == explosion_keys()
            &&& tag_string(nbt_get(c, "shape"@)) == Some(shape_name(v.0))
            &&& tag_int_array(nbt_get(c, "colors"@)) == Some(v.1)
            &&& tag_int_array(nbt_get(c, "fade_colors"@)) == Some(v.2)
            &&& nbt_get(c, "has_trail"@) == Some(NbtTag::Byte(flag_as_byte(v.3)))
            &&& nbt_get(c, "has_twinkle"@) == Some(NbtTag::Byte(flag_as_byte(v.4)))
        },
        _ => false,
    }
}

proof fn lemma_explosion_keys_distinct()
    ensures
        forall|a: int, b: int|
            0 <= a < b < 5 ==> #[trigger] explosion_keys()[a] != #[trigger] explosion_keys()[b],
{
    reveal_strlit("shape");
    reveal_strlit("colors");
    reveal_strlit("fade_colors");
    reveal_strlit("has_trail");
    reveal_strlit("has_twinkle");
    let k = explosion_keys();
    assert(k[0].len() == 5 && k[1].len() == 6 && k[2].len() == 11 && k[3].len() == 9 && k[4].len() == 11);
    assert(k[2][0] != k[4][0]);
}

impl FireworkExplosionImpl {
    /// Reads an explosion from a compound: its shape by name, colours and
    /// fade colours where present, trail and twinkle where present.
    pub fn read_data(tag: &NbtTag) -> (r: Option<Self>)
        ensures
            match r {
                Some(x) => explosion_of_tag(*tag) == Some(explosion_view(x)),
                None => explosion_of_tag(*tag) is None,
            },
    {
        let compound = match tag.extract_compound() {
            Some(c) => c,
            None => return None,
        };
        let name = match compound.get_string("shape") {
            Some(n) => n,
            None => return None,
        };
        let shape = match FireworkExplosionShape::from_name(name.as_str()) {
            Some(s) => s,
            None => return None,
        };
        let colors = match compound.get_int_array("colors") {
            Some(v) => vstd::slice::slice_to_vec(v.as_slice()),
            None => Vec::new(),
        };
        let fade_colors = match compound.get_int_array("fade_colors") {
            Some(v) => vstd::slice::slice_to_vec(v.as_slice()),
            None => Vec::new(),
        };
        let has_trail = match compound.get_bool("has_trail") {
            Some(b) => b,
            None => false,
        };
        let has_twinkle = match compound.get_bool("has_twinkle") {
            Some(b) => b,
            None => false,
        };
        let r = FireworkExplosionImpl { shape, colors, fade_colors, has_trail, has_twinkle };
        assert(explosion_view(r).1 =~= int_array_or_empty(nbt_get(*compound, "colors"@)));
        assert(explosion_view(r).2 =~= int_array_or_empty(nbt_get(*compound, "fade_colors"@)));
        Some(r)
    }

    /// The compound of the shape's name, the colours, the fade colours, and
    /// the trail and twinkle flags as bytes.
    pub fn write_data(&self) -> (r: NbtTag)
        ensures
            written_explosion(r, explosion_view(*self)),
    {
        let mut compound = NbtCompound::new();
        let name = self.shape.to_name().to_owned();
        let colors = vstd::slice::slice_to_vec(self.colors.as_slice());
        let fade_colors = vstd::slice::slice_to_vec(self.fade_colors.as_slice());
        let ghost t0 = NbtTag::String(name);
        let ghost t1 = NbtTag::IntArray(colors);
        let ghost t2 = NbtTag::IntArray(fade_colors);
        proof {
            reveal_strlit("shape");
            reveal_strlit("colors");
            reveal_strlit("fade_colors");
            reveal_strlit("has_trail");
            reveal_strlit("has_twinkle");
        }
        compound.put_string("shape", name);
        let ghost e0 = entries(compound);
        assert(e0 =~= seq![("shape"@, t0)]);
        compound.put("colors", NbtTag::IntArray(colors));
        proof {
            assert("shape"@.len() != "colors"@.len());
            lemma_put_fresh(e0, "colors"@, t1);
        }
        let ghost e1 = entries(compound);
        assert(e1 =~= seq![("shape"@, t0), ("colors"@, t1)]);
        compound.put("fade_colors", NbtTag::IntArray(fade_colors));
        proof {
            assert("shape"@.len() != "fade_colors"@.len());
            assert("colors"@.len() != "fade_colors"@.len());
            lemma_put_fresh(e1, "fade_colors"@, t2);
        }
        let ghost e2 = entries(compound);
        assert(e2 =~= seq![("shape"@, t0), ("colors"@, t1), ("fade_colors"@, t2)]);
        compound.put_bool("has_trail", self.has_trail);
        let ghost t3 = NbtTag::Byte(flag_as_byte(self.has_trail));
        proof {
            lemma_put_fresh(e2, "has_trail"@, t3);
        }
        let ghost e3 = entries(compound);
        assert(e3 =~= seq![
            ("shape"@, t0),
            ("colors"@, t1),
            ("fade_colors"@, t2),
            ("has_trail"@, t3),
        ]);
        compound.put_bool("has_twinkle", self.has_twinkle);
        let ghost t4 = NbtTag::Byte(flag_as_byte(self.has_twinkle));
        proof {
            lemma_explosion_keys_distinct();
            let k = explosion_keys();
            assert(k[0] != k[4] && k[1] != k[4] && k[2] != k[4] && k[3] != k[4]);
            lemma_put_fresh(e3, "has_twinkle"@, t4);
        }
        proof {
            let e = entries(compound);
            assert(e =~= seq![
                ("shape"@, t0),
                ("colors"@, t1),
                ("fade_colors"@, t2),
                ("has_trail"@, t3),
                ("has_twinkle"@, t4),
            ]);
            assert(entry_names(compound) =~= explosion_keys());
            assert(distinct_names(compound)) by {
                assert forall|a: int, b: int|
                    0 <= a < b < compound.child_tags@.len() implies compound.child_tags@[a].0@
                    != compound.child_tags@[b].0@ by {
                    assert(entry_names(compound)[a] == compound.child_tags@[a].0@);
                    assert(entry_names(compound)[b] == compound.child_tags@[b].0@);
                }
            }
            lemma_reads_of_distinct(compound);
            assert(nbt_get(compound, entry_names(compound)[0]) == Some(t0));
            assert(nbt_get(compound, entry_names(compound)[1]) == Some(t1));
            assert(nbt_get(compound, entry_names(compound)[2]) == Some(t2));
            assert(nbt_get(compound, entry_names(compound)[3]) == Some(t3));
            assert(nbt_get(compound, entry_names(compound)[4]) == Some(t4));
        }
        NbtTag::Compound(compound)
    }
}

/// Reading a written explosion gives back the explosion.
pub proof fn lemma_explosion_roundtrip(
    t: NbtTag,
    v: (FireworkExplosionShape, Seq<i32>, Seq<i32>, bool, bool),
)
    requires
        written_explosion(t, v),
    ensures
        explosion_of_tag(t) == Some(v),
{
    lemma_shape_roundtrips(v.0, 0);
}

// ---------------------------------------------------------------- fireworks

/// The explosions a list of tags describes: those that read as explosions,
/// in order; the others are skipped.
pub open spec fn explosions_of_list(l: Seq<NbtTag>) -> Seq<
    (FireworkExplosionShape, Seq<i32>, Seq<i32>, bool, bool),
>
    decreases l.len(),
{
    if l.len() == 0 {
        Seq::empty()
    } else {
        let rest = explosions_of_list(l.drop_last());
        match explosion_of_tag(l.last()) {
            Some(v) => rest.push(v),
            None => rest,
        }
    }
}

/// The flight duration a compound holds: a byte there first, else an int,
/// else 1.
pub open spec fn flight_duration_of(c: NbtCompound) -> i32 {
    match tag_byte(nbt_get(c, "flight_duration"@)) {
        Some(b) => b as i32,
        None => match tag_int(nbt_get(c, "flight_duration"@)) {
            Some(v) => v,
            None => 1,
        },
    }
}

/// A rocket as plain values: flight duration and explosions.
pub open spec fn fireworks_view(x: FireworksImpl) -> (
    i32,
    Seq<(FireworkExplosionShape, Seq<i32>, Seq<i32>, bool, bool)>,
) {
    (x.flight_duration, x.explosions@.map_values(|e: FireworkExplosionImpl| explosion_view(e)))
}

/// The rocket a tag describes: any compound is one; a missing explosion
/// list reads as none.
pub open spec fn fireworks_of_tag(t: NbtTag) -> Option<
    (i32, Seq<(FireworkExplosionShape, Seq<i32>, Seq<i32>, bool, bool)>),
> {
    match t {
        NbtTag::Compound(c) => Some(
            (
                flight_duration_of(c),
                match tag_list(nbt_get(c, "explosions"@)) {
                    Some(l) => explosions_of_list(l),
                    None => Seq::empty(),
                },
            ),
        ),
        _ => None,
    }
}

/// `t` is the compound a rocket `v` is written as.
pub open spec fn written_fireworks(
    t: NbtTag,
    v: (i32, Seq<(FireworkExplosionShape, Seq<i32>, Seq<i32>, bool, bool)>),
) -> bool {
    match t {
        NbtTag::Compound(c) => {
            &&& entry_names(c) == seq!["flight_duration"@, "explosions"@]
            &&& nbt_get(c, "flight_duration"@) == Some(NbtTag::Int(v.0))
            &&& match nbt_get(c, "explosions"@) {
                Some(NbtTag::List(l)) => {
                    &&& l@.len() == v.1.len()
                    &&& forall|i: int| 0 <= i < l@.len() ==> written_explosion(l@[i], v.1[i])
                },
                _ => false,
            }
        },
        _ => false,
    }
}

impl FireworksImpl {
    /// Reads a rocket from a compound: its flight duration, and each entry
    /// of its explosion list that reads as an explosion.
    pub fn read_data(tag: &NbtTag) -> (r: Option<Self>)
        ensures
            match r {
                Some(x) => fireworks_of_tag(*tag) == Some(fireworks_view(x)),
                None => fireworks_of_tag(*tag) is None,
            },
    {
        let compound = match tag.extract_compound() {
            Some(c) => c,
            None => return None,
        };
        let flight_duration = match compound.get_byte("flight_duration") {
            Some(b) => b as i32,
            None => match compound.get_int("flight_duration") {
                Some(v) => v,
                None => 1,
            },
        };
        let mut explosions: Vec<FireworkExplosionImpl> = Vec::new();
        match compound.get_list("explosions") {
            Some(list) => {
                let mut i: usize = 0;
                while i < list.len()
                    invariant
                        i <= list@.len(),
                        explosions@.map_values(|e: FireworkExplosionImpl| explosion_view(e))
                            == explosions_of_list(list@.take(i as int)),
                    decreases list@.len() - i,
                {
                    let ghost before = explosions@;
                    assert(list@.take(i as int + 1).drop_last() =~= list@.take(i as int));
                    match FireworkExplosionImpl::read_data(&list[i]) {
                        Some(e) => {
                            explosions.push(e);
                            assert(explosions@.map_values(
                                |e: FireworkExplosionImpl| explosion_view(e),
                            ) =~= before.map_values(
                                |e: FireworkExplosionImpl| explosion_view(e),
                            ).push(explosion_view(e)));
                        },
                        None => {},
                    }
                    i += 1;
                }
                assert(list@.take(list@.len() as int) =~= list@);
            },
            None => {
                assert(explosions@.map_values(|e: FireworkExplosionImpl| explosion_view(e))
                    =~= Seq::empty());
            },
        }
        Some(FireworksImpl { flight_duration, explosions })
    }

    /// The compound of the flight duration as an int and the list of the
    /// explosions, each written as an explosion compound.
    pub fn write_data(&self) -> (r: NbtTag)
        ensures
            written_fireworks(r, fireworks_view(*self)),
    {
        let mut compound = NbtCompound::new();
        compound.put_int("flight_duration", self.flight_duration);
        let ghost e0 = entries(compound);
        assert(e0 =~= seq![("flight_duration"@, NbtTag::Int(self.flight_duration))]);
        let mut list: Vec<NbtTag> = Vec::new();
        let mut i: usize = 0;
        while i < self.explosions.len()
            invariant
                i <= self.explosions@.len(),
                list@.len() == i,
                forall|j: int|
                    0 <= j < i ==> written_explosion(list@[j], explosion_view(self.explosions@[j])),
            decreases self.explosions@.len() - i,
        {
            let t = self.explosions[i].write_data();
            list.push(t);
            i += 1;
        }
        let ghost l = list;
        proof {
            reveal_strlit("flight_duration");
            reveal_strlit("explosions");
            assert("flight_duration"@.len() != "explosions"@.len());
            lemma_put_fresh(e0, "explosions"@, NbtTag::List(l));
        }
        compound.put_list("explosions", list);
        proof {
            let e = entries(compound);
            assert(e =~= seq![
                ("flight_duration"@, NbtTag::Int(self.flight_duration)),
                ("explosions"@, NbtTag::List(l)),
            ]);
            assert(entry_names(compound) =~= seq!["flight_duration"@, "explosions"@]);
            assert(distinct_names(compound)) by {
                assert forall|a: int, b: int|
                    0 <= a < b < compound.child_tags@.len() implies compound.child_tags@[a].0@
                    != compound.child_tags@[b].0@ by {
                    assert(entry_names(compound)[a] == compound.child_tags@[a].0@);
                    assert(entry_names(compound)[b] == compound.child_tags@[b].0@);
                }
            }
            lemma_reads_of_distinct(compound);
            assert(nbt_get(compound, entry_names(compound)[0]) == Some(
                NbtTag::Int(self.flight_duration),
            ));
            assert(nbt_get(compound, entry_names(compound)[1]) == Some(NbtTag::List(l)));
            let v = fireworks_view(*self);
            assert forall|j: int| 0 <= j < l@.len() implies written_explosion(l@[j], v.1[j]) by {
                assert(v.1[j] == explosion_view(self.explosions@[j]));
            }
        }
        NbtTag::Compound(compound)
    }
}

/// A list of written explosions reads back as those explosions.
proof fn lemma_explosions_of_written_list(
    l: Seq<NbtTag>,
    vs: Seq<(FireworkExplosionShape, Seq<i32>, Seq<i32>, bool, bool)>,
)
    requires
        l.len() == vs.len(),
        forall|i: int| 0 <= i < l.len() ==> written_explosion(l[i], vs[i]),
    ensures
        explosions_of_list(l) == vs,
    decreases l.len(),
{
    if l.len() > 0 {
        let n = l.len() - 1;
        lemma_explosions_of_written_list(l.drop_last(), vs.drop_last());
        lemma_explosion_roundtrip(l[n], vs[n]);
        assert(vs =~= vs.drop_last().push(vs[n]));
    } else {
        assert(vs =~= Seq::empty());
    }
}

/// Reading a written rocket gives back the rocket.
pub proof fn lemma_fireworks_roundtrip(
    t: NbtTag,
    v: (i32, Seq<(FireworkExplosionShape, Seq<i32>, Seq<i32>, bool, bool)>),
)
    requires
        written_fireworks(t, v),
    ensures
        fireworks_of_tag(t) == Some(v),
{
    if let NbtTag::Compound(c) = t {
        if let Some(NbtTag::List(l)) = nbt_get(c, "explosions"@) {
            lemma_explosions_of_written_list(l@, v.1);
        }
    }
}

// ---------------------------------------------------------------- potions

/// A potion name without a leading "minecraft:".
pub open spec fn without_namespace(n: Seq<char>) -> Seq<char> {
    if "minecraft:"@.is_prefix_of(n) {
        n.subrange("minecraft:"@.len() as int, n.len() as int)
    } else {
        n
    }
}

/// The first position of `n` in `names`, if it is there.
pub open spec fn first_position(names: Seq<Seq<char>>, n: Seq<char>) -> Option<int>
    decreases names.len(),
{
    if names.len() == 0 {
        None
    } else {
        match first_position(names.drop_last(), n) {
            Some(i) => Some(i),
            None => if names.last() == n {
                Some(names.len() - 1)
            } else {
                None
            },
        }
    }
}

/// The potion a compound names under "potion": an int is the potion's id;
/// a string is its name, with or without "minecraft:", looked up in
/// `potions`, the potion names in id order.
pub open spec fn potion_of_compound(c: NbtCompound, potions: Seq<Seq<char>>) -> Option<i32> {
    match tag_int(nbt_get(c, "potion"@)) {
        Some(id) => Some(id),
        None => match tag_string(nbt_get(c, "potion"@)) {
            Some(n) => match first_position(potions, without_namespace(n)) {
                Some(i) => Some(i as i32),
                None => None,
            },
            None => None,
        },
    }
}

/// An int tag's number, else a byte tag's, else `d`.
pub open spec fn int_or_byte_or(t: Option<NbtTag>, d: i32) -> i32 {
    match tag_int(t) {
        Some(v) => v,
        None => match tag_byte(t) {
            Some(b) => b as i32,
            None => d,
        },
    }
}

/// The effect a tag describes: a compound with an int "id"; amplifier and
/// duration default to 0, ambient to false, particles and icon to true.
pub open spec fn effect_of_tag(t: NbtTag) -> Option<StatusEffectInstance> {
    match t {
        NbtTag::Compound(c) => match tag_int(nbt_get(c, "id"@)) {
            Some(id) => Some(
                StatusEffectInstance {
                    effect_id: id,
                    amplifier: int_or_byte_or(nbt_get(c, "amplifier"@), 0),
                    duration: int_or_byte_or(nbt_get(c, "duration"@), 0),
                    ambient: flag_or(nbt_get(c, "ambient"@), false),
                    show_particles: flag_or(nbt_get(c, "show_particles"@), true),
                    show_icon: flag_or(nbt_get(c, "show_icon"@), true),
                },
            ),
            None => None,
        },
        _ => None,
    }
}

/// The effects a list of tags describes: those that read as effects, in order.
pub open spec fn effects_of_list(l: Seq<NbtTag>) -> Seq<StatusEffectInstance>
    decreases l.len(),
{
    if l.len() == 0 {
        Seq::empty()
    } else {
        let rest = effects_of_list(l.drop_last());
        match effect_of_tag(l.last()) {
            Some(e) => rest.push(e),
            None => rest,
        }
    }
}

/// The text of an optional string.
pub open spec fn text_of(o: Option<String>) -> Option<Seq<char>> {
    match o {
        Some(s) => Some(s@),
        None => None,
    }
}

/// A potion's contents as plain values: potion id, colour, effects, name.
pub open spec fn potion_view(x: PotionContentsImpl) -> (
    Option<i32>,
    Option<i32>,
    Seq<StatusEffectInstance>,
    Option<Seq<char>>,
) {
    (x.potion_id, x.custom_color, x.custom_effects@, text_of(x.custom_name))
}

/// The contents a tag describes: any compound is one; each part is read
/// where present.
pub open spec fn potion_contents_of_tag(t: NbtTag, potions: Seq<Seq<char>>) -> Option<
    (Option<i32>, Option<i32>, Seq<StatusEffectInstance>, Option<Seq<char>>),
> {
    match t {
        NbtTag::Compound(c) => Some(
            (
                potion_of_compound(c, potions),
                tag_int(nbt_get(c, "custom_color"@)),
                match tag_list(nbt_get(c, "custom_effects"@)) {
                    Some(l) => effects_of_list(l),
                    None => Seq::empty(),
                },
                tag_string(nbt_get(c, "custom_name"@)),
            ),
        ),
        _ => None,
    }
}

/// The names an effect is written under, in order.
pub open spec fn effect_keys() -> Seq<Seq<char>> {
    seq!["id"@, "amplifier"@, "duration"@, "ambient"@, "show_particles"@, "show_icon"@]
}

/// `t` is the compound an effect `e` is written as.
pub open spec fn written_effect(t: NbtTag, e: StatusEffectInstance) -> bool {
    match t {
        NbtTag::Compound(c) => {
            &&& entry_names(c) == effect_keys()
            &&& nbt_get(c, "id"@) == Some(NbtTag::Int(e.effect_id))
            &&& nbt_get(c, "amplifier"@) == Some(NbtTag::Int(e.amplifier))
            &&& nbt_get(c, "duration"@) == Some(NbtTag::Int(e.duration))
            &&& nbt_get(c, "ambient"@) == Some(NbtTag::Byte(flag_as_byte(e.ambient)))
            &&& nbt_get(c, "show_particles"@) == Some(NbtTag::Byte(flag_as_byte(e.show_particles)))
            &&& nbt_get(c, "show_icon"@) == Some(NbtTag::Byte(flag_as_byte(e.show_icon)))
        },
        _ => false,
    }
}

/// The names a potion's contents are written under, in order: each part
/// that is there.
pub open spec fn potion_keys(
    v: (Option<i32>, Option<i32>, Seq<StatusEffectInstance>, Option<Seq<char>>),
) -> Seq<Seq<char>> {
    (if v.0 is Some {
        seq!["potion"@]
    } else {
        Seq::empty()
    }) + (if v.1 is Some {
        seq!["custom_color"@]
    } else {
        Seq::empty()
    }) + (if v.2.len() > 0 {
        seq!["custom_effects"@]
    } else {
        Seq::empty()
    }) + (if v.3 is Some {
        seq!["custom_name"@]
    } else {
        Seq::empty()
    })
}

/// `t` is the compound a potion's contents `v` are written as.
pub open spec fn written_potion(
    t: NbtTag,
    v: (Option<i32>, Option<i32>, Seq<StatusEffectInstance>, Option<Seq<char>>),
) -> bool {
    match t {
        NbtTag::Compound(c) => {
            &&& entry_names(c) == potion_keys(v)
            &&& nbt_get(c, "potion"@) == match v.0 {
                Some(id) => Some(NbtTag::Int(id)),
                None => None,
            }
            &&& nbt_get(c, "custom_color"@) == match v.1 {
                Some(color) => Some(NbtTag::Int(color)),
                None => None,
            }
            &&& if v.2.len() == 0 {
                nbt_get(c, "custom_effects"@) is None
            } else {
                match nbt_get(c, "custom_effects"@) {
                    Some(NbtTag::List(l)) => {
                        &&& l@.len() == v.2.len()
                        &&& forall|i: int| 0 <= i < l@.len() ==> written_effect(l@[i], v.2[i])
                    },
                    _ => false,
                }
            }
            &&& match v.3 {
                Some(n) => tag_string(nbt_get(c, "custom_name"@)) == Some(n),
                None => nbt_get(c, "custom_name"@) is None,
            }
        },
        _ => false,
    }
}

/// `name` without a leading "minecraft:".
fn strip_namespace(name: &str) -> (r: &str)
    ensures
        r@ == without_namespace(name@),
{
    let prefix = "minecraft:";
    proof {
        reveal_strlit("minecraft:");
    }
    let n = name.unicode_len();
    if n >= 10 {
        let head = name.substring_char(0, 10);
        if str_eq(head, prefix) {
            return name.substring_char(10, n);
        }
    }
    name
}

/// The position of `name` in `potions`, as an id.
fn potion_id_named(potions: &[&str], name: &str) -> (r: Option<i32>)
    ensures
        r == (match first_position(potions@.map_values(|p: &str| p@), name@) {
            Some(i) => Some(i as i32),
            None => None,
        }),
{
    let ghost names = potions@.map_values(|p: &str| p@);
    let mut i: usize = 0;
    while i < potions.len()
        invariant
            i <= potions@.len(),
            names == potions@.map_values(|p: &str| p@),
            first_position(names.take(i as int), name@) is None,
        decreases potions@.len() - i,
    {
        assert(names.take(i as int + 1).drop_last() =~= names.take(i as int));
        if str_eq(potions[i], name) {
            proof {
                lemma_first_position_prefix(names, i as int + 1, name@);
            }
            return Some(i as i32);
        }
        i += 1;
    }
    assert(names.take(potions@.len() as int) =~= names);
    None
}

/// The first position within a prefix is the first position in the whole.
proof fn lemma_first_position_prefix(names: Seq<Seq<char>>, k: int, n: Seq<char>)
    requires
        0 <= k <= names.len(),
        first_position(names.take(k), n) is Some,
    ensures
        first_position(names, n) == first_position(names.take(k), n),
    decreases names.len() - k,
{
    if k < names.len() {
        assert(names.take(k + 1).drop_last() =~= names.take(k));
        lemma_first_position_prefix(names, k + 1, n);
    } else {
        assert(names.take(k) =~= names);
    }
}

/// Reads one effect from its compound.
fn read_effect(item: &NbtTag) -> (r: Option<StatusEffectInstance>)
    ensures
        r == effect_of_tag(*item),
{
    let effect_tag = match item.extract_compound() {
        Some(c) => c,
        None => return None,
    };
    let id = match effect_tag.get_int("id") {
        Some(v) => v,
        None => return None,
    };
    let amplifier = match effect_tag.get_int("amplifier") {
        Some(v) => v,
        None => match effect_tag.get_byte("amplifier") {
            Some(b) => b as i32,
            None => 0,
        },
    };
    let duration = match effect_tag.get_int("duration") {
        Some(v) => v,
        None => match effect_tag.get_byte("duration") {
            Some(b) => b as i32,
            None => 0,
        },
    };
    let ambient = match effect_tag.get_bool("ambient") {
        Some(b) => b,
        None => false,
    };
    let show_particles = match effect_tag.get_bool("show_particles") {
        Some(b) => b,
        None => true,
    };
    let show_icon = match effect_tag.get_bool("show_icon") {
        Some(b) => b,
        None => true,
    };
    Some(StatusEffectInstance { effect_id: id, amplifier, duration, ambient, show_particles, show_icon })
}

/// Writes one effect as its compound.
fn write_effect(effect: &StatusEffectInstance) -> (r: NbtTag)
    ensures
        written_effect(r, *effect),
{
    proof {
        reveal_strlit("id");
        reveal_strlit("amplifier");
        reveal_strlit("duration");
        reveal_strlit("ambient");
        reveal_strlit("show_particles");
        reveal_strlit("show_icon");
        assert("amplifier"@[0] != "show_icon"@[0]);
        assert("id"@.len() == 2 && "amplifier"@.len() == 9 && "duration"@.len() == 8);
        assert("ambient"@.len() == 7 && "show_particles"@.len() == 14 && "show_icon"@.len() == 9);
        assert("amplifier"@ != "show_icon"@);
    }
    let mut c = NbtCompound::new();
    let ghost c0 = c;
    assert(entry_names(c0) =~= Seq::empty());
    c.put_int("id", effect.effect_id);
    let ghost c1 = c;
    proof {
        lemma_put_fresh_reads(c0, c1, "id"@, NbtTag::Int(effect.effect_id));
    }
    c.put_int("amplifier", effect.amplifier);
    let ghost c2 = c;
    proof {
        lemma_put_fresh_reads(c1, c2, "amplifier"@, NbtTag::Int(effect.amplifier));
    }
    c.put_int("duration", effect.duration);
    let ghost c3 = c;
    proof {
        lemma_put_fresh_reads(c2, c3, "duration"@, NbtTag::Int(effect.duration));
    }
    c.put_byte("ambient", if effect.ambient { 1 } else { 0 });
    let ghost c4 = c;
    proof {
        lemma_put_fresh_reads(c3, c4, "ambient"@, NbtTag::Byte(flag_as_byte(effect.ambient)));
    }
    c.put_byte("show_particles", if effect.show_particles { 1 } else { 0 });
    let ghost c5 = c;
    proof {
        lemma_put_fresh_reads(
            c4,
            c5,
            "show_particles"@,
            NbtTag::Byte(flag_as_byte(effect.show_particles)),
        );
    }
    c.put_byte("show_icon", if effect.show_icon { 1 } else { 0 });
    proof {
        lemma_put_fresh_reads(c5, c, "show_icon"@, NbtTag::Byte(flag_as_byte(effect.show_icon)));
        assert(entry_names(c) =~= effect_keys());
    }
    NbtTag::Compound(c)
}

impl PotionContentsImpl {
    /// Reads a potion's contents from a compound: the potion by id or by
    /// name, where `potions` holds the potion names in id order; the custom
    /// colour and name where present; each listed effect that reads as one.
    pub fn read_data(tag: &NbtTag, potions: &[&str]) -> (r: Option<Self>)
        ensures
            match r {
                Some(x) => potion_contents_of_tag(*tag, potions@.map_values(|p: &str| p@)) == Some(
                    potion_view(x),
                ),
                None => potion_contents_of_tag(*tag, potions@.map_values(|p: &str| p@)) is None,
            },
    {
        let compound = match tag.extract_compound() {
            Some(c) => c,
            None => return None,
        };
        let potion_id = match compound.get_int("potion") {
            Some(id) => Some(id),
            None => match compound.get_string("potion") {
                Some(name) => potion_id_named(potions, strip_namespace(name.as_str())),
                None => None,
            },
        };
        let custom_color = compound.get_int("custom_color");
        let custom_name = match compound.get_string("custom_name") {
            Some(s) => Some(s.clone()),
            None => None,
        };
        let mut custom_effects: Vec<StatusEffectInstance> = Vec::new();
        match compound.get_list("custom_effects") {
            Some(list) => {
                let mut i: usize = 0;
                while i < list.len()
                    invariant
                        i <= list@.len(),
                        custom_effects@ == effects_of_list(list@.take(i as int)),
                    decreases list@.len() - i,
                {
                    assert(list@.take(i as int + 1).drop_last() =~= list@.take(i as int));
                    match read_effect(&list[i]) {
                        Some(e) => custom_effects.push(e),
                        None => {},
                    }
                    i += 1;
                }
                assert(list@.take(list@.len() as int) =~= list@);
            },
            None => {},
        }
        Some(PotionContentsImpl { potion_id, custom_color, custom_effects, custom_name })
    }

    /// The compound of the parts that are there: the potion id and the
    /// colour as ints, the effects as a list of effect compounds where there
    /// are any, and the name as a string.
    pub fn write_data(&self) -> (r: NbtTag)
        ensures
            written_potion(r, potion_view(*self)),
    {
        proof {
            reveal_strlit("potion");
            reveal_strlit("custom_color");
            reveal_strlit("custom_effects");
            reveal_strlit("custom_name");
        }
        assert("potion"@.len() == 6 && "custom_color"@.len() == 12);
        assert("custom_effects"@.len() == 14 && "custom_name"@.len() == 11);
        let ghost v = potion_view(*self);
        let mut compound = NbtCompound::new();
        let ghost c0 = compound;
        assert(entry_names(c0) =~= Seq::empty());
        if let Some(potion_id) = self.potion_id {
            compound.put_int("potion", potion_id);
            proof {
                lemma_put_fresh_reads(c0, compound, "potion"@, NbtTag::Int(potion_id));
            }
        }
        let ghost c1 = compound;
        assert(entry_names(c1) =~= (if v.0 is Some {
            seq!["potion"@]
        } else {
            Seq::empty()
        }));
        if let Some(color) = self.custom_color {
            compound.put_int("custom_color", color);
            proof {
                lemma_put_fresh_reads(c1, compound, "custom_color"@, NbtTag::Int(color));
            }
        }
        let ghost c2 = compound;
        if self.custom_effects.len() > 0 {
            let mut effects_list: Vec<NbtTag> = Vec::new();
            let mut i: usize = 0;
            while i < self.custom_effects.len()
                invariant
                    i <= self.custom_effects@.len(),
                    effects_list@.len() == i,
                    forall|j: int|
                        0 <= j < i ==> written_effect(effects_list@[j], self.custom_effects@[j]),
                decreases self.custom_effects@.len() - i,
            {
                let t = write_effect(&self.custom_effects[i]);
                effects_list.push(t);
                i += 1;
            }
            let ghost l = effects_list;
            compound.put("custom_effects", NbtTag::List(effects_list));
            proof {
                lemma_put_fresh_reads(c2, compound, "custom_effects"@, NbtTag::List(l));
            }
        }
        let ghost c3 = compound;
        if let Some(name) = &self.custom_name {
            let s = name.clone();
            let ghost t = NbtTag::String(s);
            compound.put_string("custom_name", s);
            proof {
                lemma_put_fresh_reads(c3, compound, "custom_name"@, t);
            }
        }
        assert(entry_names(compound) =~= potion_keys(v));
        NbtTag::Compound(compound)
    }
}

/// A list of written effects reads back as those effects.
proof fn lemma_effects_of_written_list(l: Seq<NbtTag>, es: Seq<StatusEffectInstance>)
    requires
        l.len() == es.len(),
        forall|i: int| 0 <= i < l.len() ==> written_effect(l[i], es[i]),
    ensures
        effects_of_list(l) == es,
    decreases l.len(),
{
    if l.len() > 0 {
        let n = l.len() - 1;
        lemma_effects_of_written_list(l.drop_last(), es.drop_last());
        assert(es =~= es.drop_last().push(es[n]));
    } else {
        assert(es =~= Seq::empty());
    }
}

/// Reading written potion contents gives them back, whatever the potion
/// names.
pub proof fn lemma_potion_roundtrip(
    t: NbtTag,
    v: (Option<i32>, Option<i32>, Seq<StatusEffectInstance>, Option<Seq<char>>),
    potions: Seq<Seq<char>>,
)
    requires
        written_potion(t, v),
    ensures
        potion_contents_of_tag(t, potions) == Some(v),
{
    if let NbtTag::Compound(c) = t {
        if v.2.len() > 0 {
            if let Some(NbtTag::List(l)) = nbt_get(c, "custom_effects"@) {
                lemma_effects_of_written_list(l@, v.2);
            }
        } else {
            assert(v.2 =~= Seq::empty());
        }
    }
}

// ---------------------------------------------------------------- enchantments

/// Enchantments as plain values: each name with its level, in order.
pub open spec fn enchantments_view(x: EnchantmentsImpl) -> Seq<(Seq<char>, i32)> {
    x.enchantment@.map_values(|p: (String, i32)| (p.0@, p.1))
}

/// The enchantments entries describe: every name must be a known
/// enchantment and every tag an int level, else nothing is read.
pub open spec fn enchantments_of_entries(
    e: Seq<(Seq<char>, NbtTag)>,
    known: Seq<Seq<char>>,
) -> Option<Seq<(Seq<char>, i32)>>
    decreases e.len(),
{
    if e.len() == 0 {
        Some(Seq::empty())
    } else {
        match enchantments_of_entries(e.drop_last(), known) {
            Some(s) => if known.contains(e.last().0) {
                match tag_int(Some(e.last().1)) {
                    Some(level) => Some(s.push((e.last().0, level))),
                    None => None,
                }
            } else {
                None
            },
            None => None,
        }
    }
}

/// Entries whose prefix reads as nothing read as nothing.
proof fn lemma_enchantments_none_prefix(e: Seq<(Seq<char>, NbtTag)>, k: int, known: Seq<Seq<char>>)
    requires
        0 <= k <= e.len(),
        enchantments_of_entries(e.take(k), known) is None,
    ensures
        enchantments_of_entries(e, known) is None,
    decreases e.len() - k,
{
    if k < e.len() {
        assert(e.take(k + 1).drop_last() =~= e.take(k));
        lemma_enchantments_none_prefix(e, k + 1, known);
    } else {
        assert(e.take(k) =~= e);
    }
}

/// The enchantments a tag describes, where it is a compound.
pub open spec fn enchantments_of_tag(t: NbtTag, known: Seq<Seq<char>>) -> Option<
    Seq<(Seq<char>, i32)>,
> {
    match t {
        NbtTag::Compound(c) => enchantments_of_entries(entries(c), known),
        _ => None,
    }
}

/// The entries after putting each level under its name, in order: a name
/// put again keeps its place and takes the later level.
pub open spec fn put_levels(s: Seq<(Seq<char>, i32)>) -> Seq<(Seq<char>, NbtTag)>
    decreases s.len(),
{
    if s.len() == 0 {
        Seq::empty()
    } else {
        put_entries(put_levels(s.drop_last()), s.last().0, NbtTag::Int(s.last().1))
    }
}

/// `t` is the compound enchantments `v` are written as.
pub open spec fn written_enchantments(t: NbtTag, v: Seq<(Seq<char>, i32)>) -> bool {
    match t {
        NbtTag::Compound(c) => entries(c) == put_levels(v),
        _ => false,
    }
}

/// Whether `name` is one of `known`.
fn is_known(known: &[&str], name: &str) -> (r: bool)
    ensures
        r == known@.map_values(|p: &str| p@).contains(name@),
{
    let ghost names = known@.map_values(|p: &str| p@);
    let mut i: usize = 0;
    while i < known.len()
        invariant
            i <= known@.len(),
            names == known@.map_values(|p: &str| p@),
            forall|j: int| 0 <= j < i ==> names[j] != name@,
        decreases known@.len() - i,
    {
        if str_eq(known[i], name) {
            assert(names[i as int] == name@);
            return true;
        }
        i += 1;
    }
    false
}

impl EnchantmentsImpl {
    /// Reads enchantments from a compound of levels by name, where `known`
    /// holds the names of the enchantments there are.
    pub fn read_data(data: &NbtTag, known: &[&str]) -> (r: Option<Self>)
        ensures
            match r {
                Some(x) => enchantments_of_tag(*data, known@.map_values(|p: &str| p@)) == Some(
                    enchantments_view(x),
                ),
                None => enchantments_of_tag(*data, known@.map_values(|p: &str| p@)) is None,
            },
    {
        let ghost names = known@.map_values(|p: &str| p@);
        let compound = match data.extract_compound() {
            Some(c) => c,
            None => return None,
        };
        let tags = &compound.child_tags;
        let ghost e = entries(*compound);
        let mut enc: Vec<(String, i32)> = Vec::new();
        let mut i: usize = 0;
        while i < tags.len()
            invariant
                i <= tags@.len(),
                e == entries(*compound),
                *data == NbtTag::Compound(*compound),
                *tags == compound.child_tags,
                names == known@.map_values(|p: &str| p@),
                enchantments_of_entries(e.take(i as int), names) == Some(
                    enc@.map_values(|p: (String, i32)| (p.0@, p.1)),
                ),
            decreases tags@.len() - i,
        {
            assert(e.take(i as int + 1).drop_last() =~= e.take(i as int));
            assert(e[i as int] == (tags@[i as int].0@, tags@[i as int].1));
            assert(e.take(i as int + 1).last() == e[i as int]);
            if !is_known(known, tags[i].0.as_str()) {
                proof {
                    lemma_enchantments_none_prefix(e, i as int + 1, names);
                }
                return None;
            }
            let level = match tags[i].1.extract_int() {
                Some(l) => l,
                None => {
                    proof {
                        lemma_enchantments_none_prefix(e, i as int + 1, names);
                    }
                    return None;
                },
            };
            let ghost before = enc@;
            enc.push((tags[i].0.clone(), level));
            assert(enc@.map_values(|p: (String, i32)| (p.0@, p.1)) =~= before.map_values(
                |p: (String, i32)| (p.0@, p.1),
            ).push((e[i as int].0, level)));
            i += 1;
        }
        assert(e.take(tags@.len() as int) =~= e);
        Some(EnchantmentsImpl { enchantment: enc })
    }

    /// The compound of each level as an int under its enchantment's name,
    /// put in order.
    pub fn write_data(&self) -> (r: NbtTag)
        ensures
            written_enchantments(r, enchantments_view(*self)),
    {
        let ghost v = enchantments_view(*self);
        let mut data = NbtCompound::new();
        assert(entries(data) =~= put_levels(v.take(0)));
        let mut i: usize = 0;
        while i < self.enchantment.len()
            invariant
                i <= self.enchantment@.len(),
                v == enchantments_view(*self),
                entries(data) == put_levels(v.take(i as int)),
            decreases self.enchantment@.len() - i,
        {
            assert(v.take(i as int + 1).drop_last() =~= v.take(i as int));
            data.put_int(self.enchantment[i].0.as_str(), self.enchantment[i].1);
            i += 1;
        }
        assert(v.take(self.enchantment@.len() as int) =~= v);
        NbtTag::Compound(data)
    }
}

/// Levels put under pairwise different names lie in order, one entry each.
proof fn lemma_put_levels_distinct(s: Seq<(Seq<char>, i32)>)
    requires
        forall|a: int, b: int| 0 <= a < b < s.len() ==> s[a].0 != s[b].0,
    ensures
        put_levels(s) == s.map_values(|p: (Seq<char>, i32)| (p.0, NbtTag::Int(p.1))),
    decreases s.len(),
{
    if s.len() > 0 {
        let n = s.len() - 1;
        let rest = s.drop_last();
        lemma_put_levels_distinct(rest);
        let prev = put_levels(rest);
        assert forall|i: int| 0 <= i < prev.len() implies prev[i].0 != s[n].0 by {
            assert(prev[i].0 == rest[i].0);
        }
        lemma_put_fresh(prev, s[n].0, NbtTag::Int(s[n].1));
        assert(put_levels(s) =~= s.map_values(|p: (Seq<char>, i32)| (p.0, NbtTag::Int(p.1))));
    } else {
        assert(put_levels(s) =~= s.map_values(|p: (Seq<char>, i32)| (p.0, NbtTag::Int(p.1))));
    }
}

/// Int levels under known names read back as those names and levels.
proof fn lemma_read_levels(s: Seq<(Seq<char>, i32)>, known: Seq<Seq<char>>)
    requires
        forall|i: int| 0 <= i < s.len() ==> known.contains(#[trigger] s[i].0),
    ensures
        enchantments_of_entries(
            s.map_values(|p: (Seq<char>, i32)| (p.0, NbtTag::Int(p.1))),
            known,
        ) == Some(s),
    decreases s.len(),
{
    let m = s.map_values(|p: (Seq<char>, i32)| (p.0, NbtTag::Int(p.1)));
    if s.len() > 0 {
        let rest = s.drop_last();
        lemma_read_levels(rest, known);
        assert(m.drop_last() =~= rest.map_values(|p: (Seq<char>, i32)| (p.0, NbtTag::Int(p.1))));
        assert(known.contains(s[s.len() - 1].0));
        assert(s =~= rest.push(s[s.len() - 1]));
    } else {
        assert(s =~= Seq::empty());
    }
}

/// Reading written enchantments gives them back, where their names are
/// pairwise different and all known.
pub proof fn lemma_enchantments_roundtrip(
    t: NbtTag,
    v: Seq<(Seq<char>, i32)>,
    known: Seq<Seq<char>>,
)
    requires
        written_enchantments(t, v),
        forall|a: int, b: int| 0 <= a < b < v.len() ==> v[a].0 != v[b].0,
        forall|i: int| 0 <= i < v.len() ==> known.contains(#[trigger] v[i].0),
    ensures
        enchantments_of_tag(t, known) == Some(v),
{
    lemma_put_levels_distinct(v);
    lemma_read_levels(v, known);
}

// ---------------------------------------------------------------- by component

/// The components whose values are stored as tags.
#[derive(Clone, Copy, Debug, PartialEq, Eq)]
pub enum DataComponent {
    MaxStackSize,
    Enchantments,
    Damage,
    Unbreakable,
    DamageResistant,
    PotionContents,
    Fireworks,
    FireworkExplosion,
    /// Any other component: none of its values is read from a tag.
    Other,
}

/// A component value read from a tag.
pub enum ComponentValue {
    MaxStackSize(MaxStackSizeImpl),
    Enchantments(EnchantmentsImpl),
    Damage(DamageImpl),
    Unbreakable(UnbreakableImpl),
    DamageResistant(DamageResistantImpl),
    PotionContents(PotionContentsImpl),
    Fireworks(FireworksImpl),
    FireworkExplosion(FireworkExplosionImpl),
}

/// Reads the value of component `id` from a tag, by that component's own
/// reader; `enchantments` and `potions` hold the enchantment names and the
/// potion names in id order. Other components read as nothing.
pub fn read_data(id: DataComponent, data: &NbtTag, enchantments: &[&str], potions: &[&str]) -> (r:
    Option<ComponentValue>)
    ensures
        match id {
            DataComponent::MaxStackSize => match r {
                Some(ComponentValue::MaxStackSize(x)) => max_stack_size_of_tag(*data) == Some(x.size),
                None => max_stack_size_of_tag(*data) is None,
                _ => false,
            },
            DataComponent::Enchantments => match r {
                Some(ComponentValue::Enchantments(x)) => enchantments_of_tag(
                    *data,
                    enchantments@.map_values(|p: &str| p@),
                ) == Some(enchantments_view(x)),
                None => enchantments_of_tag(*data, enchantments@.map_values(|p: &str| p@)) is None,
                _ => false,
            },
            DataComponent::Damage => match r {
                Some(ComponentValue::Damage(x)) => tag_int(Some(*data)) == Some(x.damage),
                None => tag_int(Some(*data)) is None,
                _ => false,
            },
            DataComponent::Unbreakable => r matches Some(ComponentValue::Unbreakable(_)),
            DataComponent::DamageResistant => match r {
                Some(ComponentValue::DamageResistant(x)) => damage_resistant_of_tag(*data) == Some(
                    x.res_type,
                ),
                None => damage_resistant_of_tag(*data) is None,
                _ => false,
            },
            DataComponent::PotionContents => match r {
                Some(ComponentValue::PotionContents(x)) => potion_contents_of_tag(
                    *data,
                    potions@.map_values(|p: &str| p@),
                ) == Some(potion_view(x)),
                None => potion_contents_of_tag(*data, potions@.map_values(|p: &str| p@)) is None,
                _ => false,
            },
            DataComponent::Fireworks => match r {
                Some(ComponentValue::Fireworks(x)) => fireworks_of_tag(*data) == Some(
                    fireworks_view(x),
                ),
                None => fireworks_of_tag(*data) is None,
                _ => false,
            },
            DataComponent::FireworkExplosion => match r {
                Some(ComponentValue::FireworkExplosion(x)) => explosion_of_tag(*data) == Some(
                    explosion_view(x),
                ),
                None => explosion_of_tag(*data) is None,
                _ => false,
            },
            DataComponent::Other => r is None,
        },
{
    match id {
        DataComponent::MaxStackSize => match MaxStackSizeImpl::read_data(data) {
            Some(x) => Some(ComponentValue::MaxStackSize(x)),
            None => None,
        },
        DataComponent::Enchantments => match EnchantmentsImpl::read_data(data, enchantments) {
            Some(x) => Some(ComponentValue::Enchantments(x)),
            None => None,
        },
        DataComponent::Damage => match DamageImpl::read_data(data) {
            Some(x) => Some(ComponentValue::Damage(x)),
            None => None,
        },
        DataComponent::Unbreakable => match UnbreakableImpl::read_data(data) {
            Some(x) => Some(ComponentValue::Unbreakable(x)),
            None => None,
        },
        DataComponent::DamageResistant => match DamageResistantImpl::read_data(data) {
            Some(x) => Some(ComponentValue::DamageResistant(x)),
            None => None,
        },
        DataComponent::PotionContents => match PotionContentsImpl::read_data(data, potions) {
            Some(x) => Some(ComponentValue::PotionContents(x)),
            None => None,
        },
        DataComponent::Fireworks => match FireworksImpl::read_data(data) {
            Some(x) => Some(ComponentValue::Fireworks(x)),
            None => None,
        },
        DataComponent::FireworkExplosion => match FireworkExplosionImpl::read_data(data) {
            Some(x) => Some(ComponentValue::FireworkExplosion(x)),
            None => None,
        },
        DataComponent::Other => None,
    }
}

} // verus!
