//! Block states as their property lists: reading and setting whether a
//! block is waterlogged, relighting a block, and naming a block.

use vstd::prelude::*;

use crate::text::{concat_strs, str_eq};

verus! {

/// A block state's properties, each a name and a value, in order.
pub type Props = Vec<(&'static str, &'static str)>;

/// The properties as pairs of character sequences.
pub open spec fn props_view(s: Seq<(&'static str, &'static str)>) -> Seq<(Seq<char>, Seq<char>)> {
    s.map_values(|p: (&'static str, &'static str)| (p.0@, p.1@))
}

/// `i` is the first place where the property `key` stands.
pub open spec fn is_first_key(s: Seq<(Seq<char>, Seq<char>)>, key: Seq<char>, i: int) -> bool {
    &&& 0 <= i < s.len()
    &&& s[i].0 == key
    &&& forall|j: int| 0 <= j < i ==> s[j].0 != key
}

/// The property `key` stands somewhere.
pub open spec fn has_key(s: Seq<(Seq<char>, Seq<char>)>, key: Seq<char>) -> bool {
    exists|i: int| 0 <= i < s.len() && s[i].0 == key
}

/// The first place where the property `key` stands, if it does.
pub open spec fn first_key(s: Seq<(Seq<char>, Seq<char>)>, key: Seq<char>) -> int {
    choose|i: int| is_first_key(s, key, i)
}

/// Whether the block is waterlogged, where it has that property.
pub open spec fn spec_waterlogged(s: Seq<(Seq<char>, Seq<char>)>) -> Option<bool> {
    if has_key(s, "waterlogged"@) {
        Some(s[first_key(s, "waterlogged"@)].1 == "true"@)
    } else {
        None
    }
}

/// The word for a flag.
pub open spec fn bool_word(b: bool) -> Seq<char> {
    if b { "true"@ } else { "false"@ }
}

/// The properties with every `waterlogged` set to `w`.
pub open spec fn with_waterlogged(s: Seq<(Seq<char>, Seq<char>)>, w: bool) -> Seq<(Seq<char>, Seq<char>)> {
    s.map_values(|p: (Seq<char>, Seq<char>)| if p.0 == "waterlogged"@ { (p.0, bool_word(w)) } else { p })
}

/// The properties of a block relit: its first `extinguished` set to false,
/// or else its first `lit` set to true; nothing where it has neither or
/// where that changes nothing.
pub open spec fn relit(s: Seq<(Seq<char>, Seq<char>)>) -> Option<Seq<(Seq<char>, Seq<char>)>> {
    if has_key(s, "extinguished"@) {
        let i = first_key(s, "extinguished"@);
        if s[i].1 == "false"@ { None } else { Some(s.update(i, (s[i].0, "false"@))) }
    } else if has_key(s, "lit"@) {
        let i = first_key(s, "lit"@);
        if s[i].1 == "true"@ { None } else { Some(s.update(i, (s[i].0, "true"@))) }
    } else {
        None
    }
}

/// The first place where `key` stands, if it does.
fn find_key(props: &Props, key: &str) -> (r: Option<usize>)
    ensures
        match r {
            Some(i) => is_first_key(props_view(props@), key@, i as int),
            None => !has_key(props_view(props@), key@),
        },
{
    let ghost v = props_view(props@);
    let mut i: usize = 0;
    while i < props.len()
        invariant
            i <= props@.len(),
            v == props_view(props@),
            forall|j: int| 0 <= j < i ==> v[j].0 != key@,
        decreases props@.len() - i,
    {
        if str_eq(props[i].0, key) {
            return Some(i);
        }
        i += 1;
    }
    assert forall|j: int| 0 <= j < v.len() implies v[j].0 != key@ by {}
    None
}

proof fn lemma_first_key(s: Seq<(Seq<char>, Seq<char>)>, key: Seq<char>, i: int)
    requires
        is_first_key(s, key, i),
    ensures
        has_key(s, key),
        first_key(s, key) == i,
{
    let k = first_key(s, key);
    assert(is_first_key(s, key, k));
    if k < i {
        assert(s[k].0 != key);
    } else if k > i {
        assert(s[i].0 != key);
    }
}

/// Whether the block is waterlogged: the value of its first `waterlogged`
/// property is "true"; nothing where it has no such property.
pub fn waterlogged_check(props: &Props) -> (r: Option<bool>)
    ensures
        r == spec_waterlogged(props_view(props@)),
{
    match find_key(props, "waterlogged") {
        Some(i) => {
            proof {
                lemma_first_key(props_view(props@), "waterlogged"@, i as int);
            }
            Some(str_eq(props[i].1, "true"))
        },
        None => None,
    }
}

/// The properties with every `waterlogged` set to the given flag.
pub fn set_waterlogged(props: &Props, waterlogged: bool) -> (r: Props)
    ensures
        props_view(r@) == with_waterlogged(props_view(props@), waterlogged),
{
    let word: &'static str = if waterlogged { "true" } else { "false" };
    let mut out: Props = Vec::new();
    let mut i: usize = 0;
    while i < props.len()
        invariant
            i <= props@.len(),
            out@.len() == i,
            word@ == bool_word(waterlogged),
            forall|j: int|
                0 <= j < i ==> (#[trigger] out@[j]).0@ == props@[j].0@ && out@[j].1@ == (
                if props@[j].0@ == "waterlogged"@ {
                    bool_word(waterlogged)
                } else {
                    props@[j].1@
                }),
        decreases props@.len() - i,
    {
        let (key, value) = props[i];
        if str_eq(key, "waterlogged") {
            out.push((key, word));
        } else {
            out.push((key, value));
        }
        i += 1;
    }
    assert(props_view(out@) =~= with_waterlogged(props_view(props@), waterlogged));
    out
}

/// The properties with the value at `i` replaced by `word`.
fn with_value_at(props: &Props, i: usize, word: &'static str) -> (r: Props)
    requires
        i < props@.len(),
    ensures
        props_view(r@) == props_view(props@).update(i as int, (props@[i as int].0@, word@)),
{
    let mut out: Props = Vec::new();
    let mut j: usize = 0;
    while j < props.len()
        invariant
            j <= props@.len(),
            i < props@.len(),
            out@.len() == j,
            forall|k: int|
                0 <= k < j ==> (#[trigger] out@[k]).0@ == props@[k].0@ && out@[k].1@ == (
                if k == i {
                    word@
                } else {
                    props@[k].1@
                }),
        decreases props@.len() - j,
    {
        let (key, value) = props[j];
        if j == i {
            out.push((key, word));
        } else {
            out.push((key, value));
        }
        j += 1;
    }
    assert(props_view(out@) =~= props_view(props@).update(i as int, (props@[i as int].0@, word@)));
    out
}

/// The properties of the block relit, if relighting changes it: its first
/// `extinguished` set to false, or else its first `lit` set to true.
pub fn can_be_lit(props: &Props) -> (r: Option<Props>)
    ensures
        match r {
            Some(p) => relit(props_view(props@)) == Some(props_view(p@)),
            None => relit(props_view(props@)) is None,
        },
{
    let ghost v = props_view(props@);
    let (i, word): (usize, &'static str) = match find_key(props, "extinguished") {
        Some(i) => {
            proof {
                lemma_first_key(v, "extinguished"@, i as int);
            }
            (i, "false")
        },
        None => match find_key(props, "lit") {
            Some(i) => {
                proof {
                    lemma_first_key(v, "lit"@, i as int);
                }
                (i, "true")
            },
            None => {
                return None;
            },
        },
    };
    if str_eq(props[i].1, word) {
        return None;
    }
    Some(with_value_at(props, i, word))
}

/// The registry key of a block: its name behind "minecraft:".
pub fn block_key(name: &str) -> (r: String)
    ensures
        r@ == "minecraft:"@ + name@,
{
    concat_strs("minecraft:", name)
}

/// The properties with every `key` set to `value`.
pub open spec fn with_value(s: Seq<(Seq<char>, Seq<char>)>, key: Seq<char>, value: Seq<char>) -> Seq<(Seq<char>, Seq<char>)> {
    s.map_values(|p: (Seq<char>, Seq<char>)| if p.0 == key { (p.0, value) } else { p })
}

/// The properties with every `key` set to `value`.
fn set_property(props: &Props, key: &str, value: &'static str) -> (r: Props)
    ensures
        props_view(r@) == with_value(props_view(props@), key@, value@),
{
    let mut out: Props = Vec::new();
    let mut i: usize = 0;
    while i < props.len()
        invariant
            i <= props@.len(),
            out@.len() == i,
            forall|j: int|
                0 <= j < i ==> (#[trigger] out@[j]).0@ == props@[j].0@ && out@[j].1@ == (if props@[j].0@
                    == key@ {
                    value@
                } else {
                    props@[j].1@
                }),
        decreases props@.len() - i,
    {
        let (k, v) = props[i];
        if str_eq(k, key) {
            out.push((k, value));
        } else {
            out.push((k, v));
        }
        i += 1;
    }
    assert(props_view(out@) =~= with_value(props_view(props@), key@, value@));
    out
}

/// The ender eye item.
pub struct EnderEyeItem;

impl EnderEyeItem {
    /// An eye used on an end portal frame: the frame's properties with the
    /// eye in (every `eye` set to true); nothing on any other block.
    pub fn use_on_block(&self, is_end_portal_frame: bool, props: &Props) -> (r: Option<Props>)
        ensures
            !is_end_portal_frame ==> r is None,
            is_end_portal_frame ==> r is Some && props_view(r->0@) == with_value(props_view(props@), "eye"@, "true"@),
    {
        if !is_end_portal_frame {
            return None;
        }
        Some(set_property(props, "eye", "true"))
    }
}

/// What lighting a block with flint or a fire charge does.
#[derive(Clone, Debug, PartialEq, Eq)]
pub enum IgniteOutcome {
    /// Nothing: the clicked block holds a fluid, or fire cannot go there.
    Nothing,
    /// The clicked block is relit with these properties.
    Relight(Props),
    /// Fire is placed on the clicked face.
    PlaceFire,
}

/// Lighting a block.
pub struct Ignition;

impl Ignition {
    /// Lighting a block: nothing in a fluid; a block that can be relit is
    /// relit; else fire goes on the clicked face where it can stay.
    pub fn ignite_block(&self, location_has_fluid: bool, props: &Props, fire_can_stay: bool) -> (r: IgniteOutcome)
        ensures
            location_has_fluid ==> r == IgniteOutcome::Nothing,
            !location_has_fluid && relit(props_view(props@)) is Some ==> (r matches IgniteOutcome::Relight(p)
                && relit(props_view(props@)) == Some(props_view(p@))),
            !location_has_fluid && relit(props_view(props@)) is None ==> r == (if fire_can_stay {
                IgniteOutcome::PlaceFire
            } else {
                IgniteOutcome::Nothing
            }),
    {
        if location_has_fluid {
            return IgniteOutcome::Nothing;
        }
        match can_be_lit(props) {
            Some(p) => IgniteOutcome::Relight(p),
            None => if fire_can_stay {
                IgniteOutcome::PlaceFire
            } else {
                IgniteOutcome::Nothing
            },
        }
    }
}

/// The fire charge item.
pub struct FireChargeItem;

impl FireChargeItem {
    /// A fire charge used on a block lights it as `Ignition` does; where
    /// that relights the block or places fire, the new state is set and the
    /// fire charge sound plays.
    pub fn use_on_block(&self, location_has_fluid: bool, props: &Props, fire_can_stay: bool) -> (r:
        IgniteOutcome)
        ensures
            location_has_fluid ==> r == IgniteOutcome::Nothing,
            !location_has_fluid && relit(props_view(props@)) is Some ==> (r matches IgniteOutcome::Relight(p)
                && relit(props_view(props@)) == Some(props_view(p@))),
            !location_has_fluid && relit(props_view(props@)) is None ==> r == (if fire_can_stay {
                IgniteOutcome::PlaceFire
            } else {
                IgniteOutcome::Nothing
            }),
    {
        Ignition.ignite_block(location_has_fluid, props, fire_can_stay)
    }
}

} // verus!
