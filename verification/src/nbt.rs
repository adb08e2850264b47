//! Named binary tags, as item components are stored: the tag kinds the
//! components use, and compounds of named tags read by name.
//!
//! Reading a name in a compound finds its first entry with that name; a
//! tag of another kind there reads as nothing. Putting a name replaces its
//! first entry, or adds one at the end.

use vstd::prelude::*;

use crate::text::str_eq;

verus! {

/// A tag.
pub enum NbtTag {
    Byte(i8),
    Int(i32),
    String(String),
    List(Vec<NbtTag>),
    Compound(NbtCompound),
    IntArray(Vec<i32>),
}

/// Named tags, in order.
pub struct NbtCompound {
    pub child_tags: Vec<(String, NbtTag)>,
}

/// `i` is the first entry named `key`.
pub open spec fn is_first_named(c: NbtCompound, key: Seq<char>, i: int) -> bool {
    &&& 0 <= i < c.child_tags@.len()
    &&& c.child_tags@[i].0@ == key
    &&& forall|j: int| 0 <= j < i ==> c.child_tags@[j].0@ != key
}

/// Some entry is named `key`.
pub open spec fn has_named(c: NbtCompound, key: Seq<char>) -> bool {
    exists|i: int| 0 <= i < c.child_tags@.len() && c.child_tags@[i].0@ == key
}

/// The tag of the first entry named `key`, if any.
pub open spec fn nbt_get(c: NbtCompound, key: Seq<char>) -> Option<NbtTag> {
    if has_named(c, key) {
        Some(c.child_tags@[choose|i: int| is_first_named(c, key, i)].1)
    } else {
        None
    }
}

/// The number in an int tag.
pub open spec fn tag_int(t: Option<NbtTag>) -> Option<i32> {
    match t {
        Some(NbtTag::Int(v)) => Some(v),
        _ => None,
    }
}

/// The number in a byte tag.
pub open spec fn tag_byte(t: Option<NbtTag>) -> Option<i8> {
    match t {
        Some(NbtTag::Byte(v)) => Some(v),
        _ => None,
    }
}

/// A byte tag read as a flag: any byte but 0 is true.
pub open spec fn tag_bool(t: Option<NbtTag>) -> Option<bool> {
    match t {
        Some(NbtTag::Byte(v)) => Some(v != 0),
        _ => None,
    }
}

/// The text in a string tag.
pub open spec fn tag_string(t: Option<NbtTag>) -> Option<Seq<char>> {
    match t {
        Some(NbtTag::String(s)) => Some(s@),
        _ => None,
    }
}

/// The numbers in an int-array tag.
pub open spec fn tag_int_array(t: Option<NbtTag>) -> Option<Seq<i32>> {
    match t {
        Some(NbtTag::IntArray(v)) => Some(v@),
        _ => None,
    }
}

/// The tags in a list tag.
pub open spec fn tag_list(t: Option<NbtTag>) -> Option<Seq<NbtTag>> {
    match t {
        Some(NbtTag::List(v)) => Some(v@),
        _ => None,
    }
}

/// The byte a flag is stored as.
pub open spec fn flag_as_byte(b: bool) -> i8 {
    if b { 1 } else { 0 }
}

/// The entries as names and tags.
pub open spec fn entries(c: NbtCompound) -> Seq<(Seq<char>, NbtTag)> {
    c.child_tags@.map_values(|e: (String, NbtTag)| (e.0@, e.1))
}

/// The names of the entries, in order.
pub open spec fn entry_names(c: NbtCompound) -> Seq<Seq<char>> {
    entries(c).map_values(|e: (Seq<char>, NbtTag)| e.0)
}

/// `i` is the first of the entries `e` named `key`.
pub open spec fn first_named_in(e: Seq<(Seq<char>, NbtTag)>, key: Seq<char>, i: int) -> bool {
    &&& 0 <= i < e.len()
    &&& e[i].0 == key
    &&& forall|j: int| 0 <= j < i ==> e[j].0 != key
}

/// Some of the entries `e` is named `key`.
pub open spec fn named_in(e: Seq<(Seq<char>, NbtTag)>, key: Seq<char>) -> bool {
    exists|i: int| 0 <= i < e.len() && e[i].0 == key
}

/// The entries `e` after putting `tag` under `key`: it takes the place of
/// the first entry with that name, or comes last.
pub open spec fn put_entries(e: Seq<(Seq<char>, NbtTag)>, key: Seq<char>, tag: NbtTag) -> Seq<
    (Seq<char>, NbtTag),
> {
    if named_in(e, key) {
        e.update(choose|i: int| first_named_in(e, key, i), (key, tag))
    } else {
        e.push((key, tag))
    }
}

/// The entries of `c` after putting `tag` under `key`.
pub open spec fn put_spec(c: NbtCompound, key: Seq<char>, tag: NbtTag) -> Seq<(Seq<char>, NbtTag)> {
    put_entries(entries(c), key, tag)
}

proof fn lemma_first_named(c: NbtCompound, key: Seq<char>, i: int)
    requires
        is_first_named(c, key, i),
    ensures
        has_named(c, key),
        (choose|k: int| is_first_named(c, key, k)) == i,
{
    let k = choose|k: int| is_first_named(c, key, k);
    assert(is_first_named(c, key, k));
    if k < i {
        assert(c.child_tags@[k].0@ != key);
    } else if k > i {
        assert(c.child_tags@[i].0@ != key);
    }
}

proof fn lemma_first_named_in(e: Seq<(Seq<char>, NbtTag)>, key: Seq<char>, i: int)
    requires
        first_named_in(e, key, i),
    ensures
        named_in(e, key),
        (choose|k: int| first_named_in(e, key, k)) == i,
{
    let k = choose|k: int| first_named_in(e, key, k);
    assert(first_named_in(e, key, k));
    if k < i {
        assert(e[k].0 != key);
    } else if k > i {
        assert(e[i].0 != key);
    }
}

/// A name reads the same in a compound as in its entries.
proof fn lemma_first_named_entries(c: NbtCompound, key: Seq<char>, i: int)
    ensures
        is_first_named(c, key, i) <==> first_named_in(entries(c), key, i),
        has_named(c, key) <==> named_in(entries(c), key),
{
    let e = entries(c);
    assert(e.len() == c.child_tags@.len());
    assert forall|j: int| 0 <= j < e.len() implies e[j].0 == c.child_tags@[j].0@ by {}
    if 0 <= i < e.len() {
        if forall|j: int| 0 <= j < i ==> c.child_tags@[j].0@ != key {
            assert forall|j: int| 0 <= j < i implies e[j].0 != key by {
                assert(e[j].0 == c.child_tags@[j].0@);
            }
        }
        if forall|j: int| 0 <= j < i ==> e[j].0 != key {
            assert forall|j: int| 0 <= j < i implies c.child_tags@[j].0@ != key by {
                assert(e[j].0 == c.child_tags@[j].0@);
            }
        }
    }
    if has_named(c, key) {
        let w = choose|w: int| 0 <= w < c.child_tags@.len() && c.child_tags@[w].0@ == key;
        assert(e[w].0 == key);
    }
    if named_in(e, key) {
        let w = choose|w: int| 0 <= w < e.len() && e[w].0 == key;
        assert(c.child_tags@[w].0@ == key);
    }
}

/// What `nbt_get` reads, stated over the entries.
proof fn lemma_get_entries(c: NbtCompound, key: Seq<char>)
    ensures
        nbt_get(c, key) == (if named_in(entries(c), key) {
            Some(entries(c)[choose|i: int| first_named_in(entries(c), key, i)].1)
        } else {
            None
        }),
{
    lemma_first_named_entries(c, key, 0);
    if has_named(c, key) {
        let w = choose|w: int| 0 <= w < c.child_tags@.len() && c.child_tags@[w].0@ == key;
        // the first entry named `key` exists: take the least index holding it
        let f = first_index(c, key, w);
        lemma_first_named(c, key, f);
        lemma_first_named_entries(c, key, f);
        lemma_first_named_in(entries(c), key, f);
    }
}

/// The least index at or below `w` whose entry is named `key`, where `w` is one.
proof fn first_index(c: NbtCompound, key: Seq<char>, w: int) -> (f: int)
    requires
        0 <= w < c.child_tags@.len(),
        c.child_tags@[w].0@ == key,
    ensures
        is_first_named(c, key, f),
    decreases w,
{
    if exists|j: int| 0 <= j < w && c.child_tags@[j].0@ == key {
        let j = choose|j: int| 0 <= j < w && c.child_tags@[j].0@ == key;
        first_index(c, key, j)
    } else {
        w
    }
}

/// After a put, the name put reads back the tag put, and every other name
/// reads as before.
pub proof fn lemma_put_then_get(c: NbtCompound, d: NbtCompound, key: Seq<char>, tag: NbtTag, other: Seq<char>)
    requires
        entries(d) == put_spec(c, key, tag),
        other != key,
    ensures
        nbt_get(d, key) == Some(tag),
        nbt_get(d, other) == nbt_get(c, other),
{
    let e = entries(c);
    let f = entries(d);
    lemma_get_entries(c, key);
    lemma_get_entries(d, key);
    lemma_get_entries(c, other);
    lemma_get_entries(d, other);
    if named_in(e, key) {
        let i = choose|i: int| first_named_in(e, key, i);
        let w = choose|w: int| 0 <= w < e.len() && e[w].0 == key;
        let g = first_index(c, key, w);
        lemma_first_named_entries(c, key, g);
        lemma_first_named_in(e, key, g);
        assert(f == e.update(g, (key, tag)));
        assert(first_named_in(f, key, g));
        lemma_first_named_in(f, key, g);
        assert forall|j: int| 0 <= j < f.len() implies f[j].0 == e[j].0 by {}
        if named_in(e, other) {
            let wo = choose|w: int| 0 <= w < e.len() && e[w].0 == other;
            let go = first_index(c, other, wo);
            lemma_first_named_entries(c, other, go);
            lemma_first_named_in(e, other, go);
            assert(first_named_in(f, other, go));
            lemma_first_named_in(f, other, go);
        } else {
            assert(!named_in(f, other));
        }
    } else {
        assert(f == e.push((key, tag)));
        let n = e.len() as int;
        assert(first_named_in(f, key, n));
        lemma_first_named_in(f, key, n);
        if named_in(e, other) {
            let wo = choose|w: int| 0 <= w < e.len() && e[w].0 == other;
            let go = first_index(c, other, wo);
            lemma_first_named_entries(c, other, go);
            lemma_first_named_in(e, other, go);
            assert(first_named_in(f, other, go));
            lemma_first_named_in(f, other, go);
        } else {
            assert(!named_in(f, other));
        }
    }
}

/// Putting a name that reads as nothing adds it at the end; it then reads
/// back the tag put, and every other name reads as before.
pub proof fn lemma_put_fresh_reads(c: NbtCompound, d: NbtCompound, key: Seq<char>, tag: NbtTag)
    requires
        entries(d) == put_spec(c, key, tag),
        nbt_get(c, key) is None,
    ensures
        entries(d) == entries(c).push((key, tag)),
        entry_names(d) == entry_names(c).push(key),
        nbt_get(d, key) == Some(tag),
        forall|other: Seq<char>| other != key ==> #[trigger] nbt_get(d, other) == nbt_get(c, other),
{
    lemma_get_entries(c, key);
    assert(entry_names(d) =~= entry_names(c).push(key));
    lemma_put_then_get(c, d, key, tag, key + seq!['x']);
    assert forall|other: Seq<char>| other != key implies #[trigger] nbt_get(d, other) == nbt_get(
        c,
        other,
    ) by {
        lemma_put_then_get(c, d, key, tag, other);
    }
}

/// Entries with pairwise different names, each read back by its name.
pub proof fn lemma_read_distinct(c: NbtCompound, i: int)
    requires
        0 <= i < c.child_tags@.len(),
        forall|a: int, b: int|
            0 <= a < b < c.child_tags@.len() ==> c.child_tags@[a].0@ != c.child_tags@[b].0@,
    ensures
        nbt_get(c, c.child_tags@[i].0@) == Some(c.child_tags@[i].1),
{
    lemma_first_named(c, c.child_tags@[i].0@, i);
}

/// A name none of the entries has reads as nothing.
pub proof fn lemma_read_absent(c: NbtCompound, key: Seq<char>)
    requires
        forall|a: int| 0 <= a < c.child_tags@.len() ==> c.child_tags@[a].0@ != key,
    ensures
        nbt_get(c, key) is None,
{
}

impl NbtCompound {
    /// An empty compound.
    pub fn new() -> (r: Self)
        ensures
            r.child_tags@.len() == 0,
    {
        NbtCompound { child_tags: Vec::new() }
    }

    /// The first entry named `key`.
    pub fn find(&self, key: &str) -> (r: Option<usize>)
        ensures
            match r {
                Some(i) => is_first_named(*self, key@, i as int),
                None => !has_named(*self, key@),
            },
    {
        let mut i: usize = 0;
        while i < self.child_tags.len()
            invariant
                i <= self.child_tags@.len(),
                forall|j: int| 0 <= j < i ==> self.child_tags@[j].0@ != key@,
            decreases self.child_tags@.len() - i,
        {
            if str_eq(self.child_tags[i].0.as_str(), key) {
                return Some(i);
            }
            i += 1;
        }
        None
    }

    /// The tag of the first entry named `key`.
    pub fn get(&self, key: &str) -> (r: Option<&NbtTag>)
        ensures
            match r {
                Some(t) => nbt_get(*self, key@) == Some(*t),
                None => nbt_get(*self, key@) is None,
            },
    {
        match self.find(key) {
            Some(i) => {
                proof {
                    lemma_first_named(*self, key@, i as int);
                }
                Some(&self.child_tags[i].1)
            },
            None => None,
        }
    }

    /// The number under `key`, where an int is there.
    pub fn get_int(&self, key: &str) -> (r: Option<i32>)
        ensures
            r == tag_int(nbt_get(*self, key@)),
    {
        match self.get(key) {
            Some(NbtTag::Int(v)) => Some(*v),
            _ => None,
        }
    }

    /// The byte under `key`, where a byte is there.
    pub fn get_byte(&self, key: &str) -> (r: Option<i8>)
        ensures
            r == tag_byte(nbt_get(*self, key@)),
    {
        match self.get(key) {
            Some(NbtTag::Byte(v)) => Some(*v),
            _ => None,
        }
    }

    /// The flag under `key`, where a byte is there: true unless it is 0.
    pub fn get_bool(&self, key: &str) -> (r: Option<bool>)
        ensures
            r == tag_bool(nbt_get(*self, key@)),
    {
        match self.get(key) {
            Some(NbtTag::Byte(v)) => Some(*v != 0),
            _ => None,
        }
    }

    /// The text under `key`, where a string is there.
    pub fn get_string(&self, key: &str) -> (r: Option<&String>)
        ensures
            match r {
                Some(s) => tag_string(nbt_get(*self, key@)) == Some(s@),
                None => tag_string(nbt_get(*self, key@)) is None,
            },
    {
        match self.get(key) {
            Some(NbtTag::String(s)) => Some(s),
            _ => None,
        }
    }

    /// The numbers under `key`, where an int array is there.
    pub fn get_int_array(&self, key: &str) -> (r: Option<&Vec<i32>>)
        ensures
            match r {
                Some(v) => tag_int_array(nbt_get(*self, key@)) == Some(v@),
                None => tag_int_array(nbt_get(*self, key@)) is None,
            },
    {
        match self.get(key) {
            Some(NbtTag::IntArray(v)) => Some(v),
            _ => None,
        }
    }

    /// The tags under `key`, where a list is there.
    pub fn get_list(&self, key: &str) -> (r: Option<&Vec<NbtTag>>)
        ensures
            match r {
                Some(v) => tag_list(nbt_get(*self, key@)) == Some(v@),
                None => tag_list(nbt_get(*self, key@)) is None,
            },
    {
        match self.get(key) {
            Some(NbtTag::List(v)) => Some(v),
            _ => None,
        }
    }

    /// Puts `tag` under `key`: in place of the first entry with that name,
    /// or at the end.
    pub fn put(&mut self, key: &str, tag: NbtTag)
        ensures
            entries(*final(self)) == put_spec(*old(self), key@, tag),
    {
        let ghost s = entries(*self);
        let ghost t = tag;
        match self.find(key) {
            Some(i) => {
                proof {
                    lemma_first_named_entries(*self, key@, i as int);
                    lemma_first_named_in(s, key@, i as int);
                }
                self.child_tags.set(i, (key.to_owned(), tag));
                assert(entries(*self) =~= s.update(i as int, (key@, t)));
            },
            None => {
                proof {
                    lemma_first_named_entries(*self, key@, 0);
                }
                self.child_tags.push((key.to_owned(), tag));
                assert(entries(*self) =~= s.push((key@, t)));
            },
        }
    }

    /// Puts an int.
    pub fn put_int(&mut self, key: &str, v: i32)
        ensures
            entries(*final(self)) == put_spec(*old(self), key@, NbtTag::Int(v)),
    {
        self.put(key, NbtTag::Int(v));
    }

    /// Puts a byte.
    pub fn put_byte(&mut self, key: &str, v: i8)
        ensures
            entries(*final(self)) == put_spec(*old(self), key@, NbtTag::Byte(v)),
    {
        self.put(key, NbtTag::Byte(v));
    }

    /// Puts a flag as the byte 1 or 0.
    pub fn put_bool(&mut self, key: &str, v: bool)
        ensures
            entries(*final(self)) == put_spec(*old(self), key@, NbtTag::Byte(flag_as_byte(v))),
    {
        self.put(key, NbtTag::Byte(if v { 1 } else { 0 }));
    }

    /// Puts a string.
    pub fn put_string(&mut self, key: &str, v: String)
        ensures
            entries(*final(self)) == put_spec(*old(self), key@, NbtTag::String(v)),
    {
        self.put(key, NbtTag::String(v));
    }

    /// Puts a list.
    pub fn put_list(&mut self, key: &str, v: Vec<NbtTag>)
        ensures
            entries(*final(self)) == put_spec(*old(self), key@, NbtTag::List(v)),
    {
        self.put(key, NbtTag::List(v));
    }
}

impl NbtTag {
    /// The number in an int tag.
    pub fn extract_int(&self) -> (r: Option<i32>)
        ensures
            r == tag_int(Some(*self)),
    {
        match self {
            NbtTag::Int(v) => Some(*v),
            _ => None,
        }
    }

    /// The compound in a compound tag.
    pub fn extract_compound(&self) -> (r: Option<&NbtCompound>)
        ensures
            match r {
                Some(c) => *self == NbtTag::Compound(*c),
                None => !(*self is Compound),
            },
    {
        match self {
            NbtTag::Compound(c) => Some(c),
            _ => None,
        }
    }
}

} // verus!
