//! The chat signature cache a player keeps in step with its client: the
//! signatures of recent messages, most recent first, and the last messages
//! the player has seen, so that signed chat can refer to a signature by
//! its place in the cache instead of sending it in full.

use vstd::prelude::*;
use std::collections::VecDeque;

use crate::varint::VarInt;

verus! {

broadcast use vstd::std_specs::vecdeque::group_vec_dequeue_axioms;

/// The most signatures a cache holds.
pub const MAX_CACHED_SIGNATURES: usize = 128;

/// The most messages a player remembers having seen.
pub const MAX_PREVIOUS_MESSAGES: usize = 20;

/// The signatures of the last messages a player has seen, most recent last.
#[derive(Clone)]
pub struct LastSeen {
    signatures: Vec<Vec<u8>>,
}

/// A player's signature cache and the messages it has seen.
pub struct MessageCache {
    full_cache: VecDeque<Vec<u8>>,
    last_seen: LastSeen,
}

/// A signature a message refers to: by its place in the recipient's cache
/// plus one, or in full with the id 0.
#[derive(Clone, Debug, PartialEq, Eq)]
pub struct PreviousMessage {
    pub id: VarInt,
    pub signature: Option<Vec<u8>>,
}

/// The byte strings held by `v`.
pub open spec fn bytes_view(v: Seq<Vec<u8>>) -> Seq<Seq<u8>> {
    v.map_values(|b: Vec<u8>| b@)
}

impl LastSeen {
    /// The signatures, most recent last.
    pub closed spec fn view_sigs(&self) -> Seq<Seq<u8>> {
        bytes_view(self.signatures@)
    }

    /// No signatures.
    pub fn new() -> (r: Self)
        ensures
            r.view_sigs() == Seq::<Seq<u8>>::empty(),
    {
        let r = LastSeen { signatures: Vec::new() };
        assert(r.view_sigs() =~= Seq::<Seq<u8>>::empty());
        r
    }

    /// The number of signatures.
    pub fn len(&self) -> (r: usize)
        ensures
            r == self.view_sigs().len(),
    {
        self.signatures.len()
    }

    /// The `i`-th signature, oldest first.
    pub fn get(&self, i: usize) -> (r: &Vec<u8>)
        requires
            i < self.view_sigs().len(),
        ensures
            r@ == self.view_sigs()[i as int],
    {
        &self.signatures[i]
    }
}

impl MessageCache {
    /// The cached signatures, most recent first.
    pub closed spec fn cached(&self) -> Seq<Seq<u8>> {
        bytes_view(self.full_cache@)
    }

    /// The signatures of the messages the player has seen, most recent last.
    pub closed spec fn seen(&self) -> Seq<Seq<u8>> {
        self.last_seen.view_sigs()
    }

    /// The cache holds at most 128 signatures and at most 20 seen messages.
    pub open spec fn wf(&self) -> bool {
        &&& self.cached().len() <= MAX_CACHED_SIGNATURES
        &&& self.seen().len() <= MAX_PREVIOUS_MESSAGES
    }
}

/// Whether two byte strings are equal.
pub fn bytes_eq(a: &[u8], b: &[u8]) -> (r: bool)
    ensures
        r == (a@ == b@),
{
    if a.len() != b.len() {
        return false;
    }
    let mut i: usize = 0;
    while i < a.len()
        invariant
            i <= a@.len(),
            a@.len() == b@.len(),
            forall|j: int| 0 <= j < i ==> a@[j] == b@[j],
        decreases a@.len() - i,
    {
        if a[i] != b[i] {
            return false;
        }
        i += 1;
    }
    assert(a@ =~= b@);
    true
}

/// The first place of `sig` in `cache`.
pub open spec fn is_first_at(cache: Seq<Seq<u8>>, sig: Seq<u8>, i: int) -> bool {
    &&& 0 <= i < cache.len()
    &&& cache[i] == sig
    &&& forall|j: int| 0 <= j < i ==> cache[j] != sig
}

/// One signature from a sender: kept at the back of the cache unless it
/// is already there or the cache is full.
pub open spec fn cache_one(cache: Seq<Seq<u8>>, sig: Seq<u8>) -> Seq<Seq<u8>> {
    if cache.contains(sig) || cache.len() >= MAX_CACHED_SIGNATURES {
        cache
    } else {
        cache.push(sig)
    }
}

/// The signatures `sigs` from a sender, taken last to first.
pub open spec fn cache_all(cache: Seq<Seq<u8>>, sigs: Seq<Seq<u8>>) -> Seq<Seq<u8>>
    decreases sigs.len(),
{
    if sigs.len() == 0 {
        cache
    } else {
        cache_all(cache_one(cache, sigs.last()), sigs.drop_last())
    }
}

/// The cache after the player sees `sig`: `sig` in front, the oldest
/// signatures dropped to keep at most 128.
pub open spec fn cache_seen(cache: Seq<Seq<u8>>, sig: Seq<u8>) -> Seq<Seq<u8>> {
    seq![sig] + if cache.len() >= MAX_CACHED_SIGNATURES {
        cache.subrange(0, MAX_CACHED_SIGNATURES - 1)
    } else {
        cache
    }
}

/// The seen messages after the player sees `sig`: `sig` at the end, the
/// oldest dropped to keep at most 20.
pub open spec fn seen_after(seen: Seq<Seq<u8>>, sig: Seq<u8>) -> Seq<Seq<u8>> {
    (if seen.len() >= MAX_PREVIOUS_MESSAGES {
        seen.drop_first()
    } else {
        seen
    }).push(sig)
}

/// How a signature is sent to a recipient with cache `cache`: by its first
/// place there plus one, or in full with the id 0.
pub open spec fn reference_for(cache: Seq<Seq<u8>>, sig: Seq<u8>, m: PreviousMessage) -> bool {
    if cache.contains(sig) {
        exists|i: int| is_first_at(cache, sig, i) && m.id == VarInt((i + 1) as i32) && m.signature is None
    } else {
        m.id == VarInt(0) && m.signature is Some && m.signature->0@ == sig
    }
}

impl MessageCache {
    /// An empty cache.
    pub fn new() -> (r: Self)
        ensures
            r.wf(),
            r.cached() == Seq::<Seq<u8>>::empty(),
            r.seen() == Seq::<Seq<u8>>::empty(),
    {
        let r = MessageCache { full_cache: VecDeque::new(), last_seen: LastSeen::new() };
        assert(r.cached() =~= Seq::<Seq<u8>>::empty());
        r
    }

    /// The messages the player has seen.
    pub fn last_seen(&self) -> (r: &LastSeen)
        ensures
            r.view_sigs() == self.seen(),
    {
        &self.last_seen
    }

    /// The number of cached signatures.
    pub fn cached_len(&self) -> (r: usize)
        ensures
            r == self.cached().len(),
    {
        self.full_cache.len()
    }

    /// The first place of `sig` in the cache, if it is there.
    pub fn position(&self, sig: &[u8]) -> (r: Option<usize>)
        ensures
            match r {
                Some(i) => is_first_at(self.cached(), sig@, i as int),
                None => !self.cached().contains(sig@),
            },
    {
        let ghost c = self.cached();
        let mut i: usize = 0;
        while i < self.full_cache.len()
            invariant
                i <= c.len(),
                c == self.cached(),
                c.len() == self.full_cache@.len(),
                forall|j: int| 0 <= j < i ==> c[j] != sig@,
            decreases c.len() - i,
        {
            assert(c[i as int] == self.full_cache@[i as int]@);
            if bytes_eq(self.full_cache[i].as_slice(), sig) {
                return Some(i);
            }
            i += 1;
        }
        assert forall|j: int| 0 <= j < c.len() implies c[j] != sig@ by {}
        None
    }

    /// Takes the signatures a sender referred to in full, last to first,
    /// into the cache: each goes to the back (the recipient never saw it,
    /// so it is older than all there) unless it is already there or the
    /// cache is full. The old cache stays in front
    /// (`lemma_cache_signatures_keeps_prefix`); the cache grows by the
    /// distinct new signatures, up to 128 (`lemma_cache_signatures_length`);
    /// the appended ones are distinct, new, and come last sent first
    /// (`lemma_cache_signatures_appended`).
    pub fn cache_signatures(&mut self, signatures: &Vec<Vec<u8>>)
        requires
            old(self).wf(),
        ensures
            final(self).wf(),
            final(self).cached() == cache_all(old(self).cached(), bytes_view(signatures@)),
            final(self).seen() == old(self).seen(),
    {
        let ghost s = bytes_view(signatures@);
        let mut k: usize = signatures.len();
        assert(s.subrange(0, k as int) =~= s);
        while k > 0
            invariant
                k <= signatures@.len(),
                s == bytes_view(signatures@),
                self.wf(),
                self.seen() == old(self).seen(),
                cache_all(old(self).cached(), s) == cache_all(self.cached(), s.subrange(0, k as int)),
            decreases k,
        {
            let sig = &signatures[k - 1];
            let ghost sub = s.subrange(0, k as int);
            assert(sub.last() == sig@);
            assert(sub.drop_last() =~= s.subrange(0, k - 1));
            let ghost before = self.cached();
            if self.position(sig.as_slice()).is_none() && self.full_cache.len() < MAX_CACHED_SIGNATURES {
                let copy = vstd::slice::slice_to_vec(sig.as_slice());
                self.full_cache.push_back(copy);
                assert(self.cached() =~= before.push(sig@));
            }
            k -= 1;
        }
    }

    /// The player sees a message with signature `sig`: it goes to the end
    /// of the seen messages (the oldest dropped past 20) and to the front of
    /// the cache (the oldest dropped past 128).
    pub fn add_seen_signature(&mut self, signature: &[u8])
        requires
            old(self).wf(),
        ensures
            final(self).wf(),
            final(self).cached() == cache_seen(old(self).cached(), signature@),
            final(self).seen() == seen_after(old(self).seen(), signature@),
    {
        let ghost seen0 = self.seen();
        if self.last_seen.signatures.len() >= MAX_PREVIOUS_MESSAGES {
            self.last_seen.signatures.remove(0);
            assert(bytes_view(self.last_seen.signatures@) =~= seen0.drop_first());
        }
        let ghost seen1 = bytes_view(self.last_seen.signatures@);
        self.last_seen.signatures.push(vstd::slice::slice_to_vec(signature));
        assert(bytes_view(self.last_seen.signatures@) =~= seen1.push(signature@));
        let ghost c0 = self.cached();
        while self.full_cache.len() >= MAX_CACHED_SIGNATURES
            invariant
                self.full_cache@.len() <= MAX_CACHED_SIGNATURES,
                c0.len() <= MAX_CACHED_SIGNATURES,
                c0.len() >= MAX_CACHED_SIGNATURES ==> self.full_cache@.len() >= MAX_CACHED_SIGNATURES - 1,
                self.seen() == seen_after(seen0, signature@),
                seen0.len() <= MAX_PREVIOUS_MESSAGES,
                c0.len() >= MAX_CACHED_SIGNATURES ==> self.cached() == c0.subrange(
                    0,
                    self.full_cache@.len() as int,
                ),
                c0.len() < MAX_CACHED_SIGNATURES ==> self.cached() == c0,
            decreases self.full_cache@.len(),
        {
            let ghost before = self.full_cache@;
            self.full_cache.pop_back();
            assert(self.cached() =~= c0.subrange(0, self.full_cache@.len() as int));
        }
        self.full_cache.push_front(vstd::slice::slice_to_vec(signature));
        assert(self.cached() =~= cache_seen(c0, signature@));
    }

    /// The signatures `last_seen` as a recipient with this cache gets them:
    /// by their first place in the cache plus one where they are there, in
    /// full with the id 0 where not.
    pub fn indexed_for(&self, last_seen: &LastSeen) -> (r: Vec<PreviousMessage>)
        requires
            self.wf(),
        ensures
            r@.len() == last_seen.view_sigs().len(),
            forall|i: int|
                0 <= i < r@.len() ==> reference_for(self.cached(), last_seen.view_sigs()[i], #[trigger] r@[i]),
    {
        let mut out: Vec<PreviousMessage> = Vec::new();
        let mut i: usize = 0;
        while i < last_seen.len()
            invariant
                self.wf(),
                i <= last_seen.view_sigs().len(),
                out@.len() == i,
                forall|j: int|
                    0 <= j < i ==> reference_for(self.cached(), last_seen.view_sigs()[j], #[trigger] out@[j]),
            decreases last_seen.view_sigs().len() - i,
        {
            let sig = last_seen.get(i);
            let m = match self.position(sig.as_slice()) {
                Some(p) => {
                    assert(self.cached().contains(sig@));
                    PreviousMessage { id: VarInt((p + 1) as i32), signature: None }
                },
                None => PreviousMessage { id: VarInt(0), signature: Some(vstd::slice::slice_to_vec(sig.as_slice())) },
            };
            out.push(m);
            i += 1;
        }
        out
    }
}

/// Signatures from senders are only ever added at the back of the cache:
/// what was cached stays, in its order, in front.
pub proof fn lemma_cache_signatures_keeps_prefix(cache: Seq<Seq<u8>>, sigs: Seq<Seq<u8>>)
    ensures
        cache.len() <= cache_all(cache, sigs).len(),
        cache_all(cache, sigs).subrange(0, cache.len() as int) == cache,
    decreases sigs.len(),
{
    if sigs.len() > 0 {
        let c1 = cache_one(cache, sigs.last());
        lemma_cache_signatures_keeps_prefix(c1, sigs.drop_last());
        let r = cache_all(c1, sigs.drop_last());
        assert(r.subrange(0, cache.len() as int) =~= r.subrange(0, c1.len() as int).subrange(0, cache.len() as int));
        assert(c1.subrange(0, cache.len() as int) =~= cache);
    }
}

/// Signatures from senders never make a cache hold one signature twice.
pub proof fn lemma_cache_signatures_no_duplicates(cache: Seq<Seq<u8>>, sigs: Seq<Seq<u8>>)
    requires
        cache.no_duplicates(),
    ensures
        cache_all(cache, sigs).no_duplicates(),
    decreases sigs.len(),
{
    if sigs.len() > 0 {
        let c1 = cache_one(cache, sigs.last());
        assert(c1.no_duplicates()) by {
            if !(cache.contains(sigs.last()) || cache.len() >= MAX_CACHED_SIGNATURES) {
                assert forall|i: int, j: int| 0 <= i < c1.len() && 0 <= j < c1.len() && i != j implies c1[i] != c1[j] by {
                    if i == cache.len() as int {
                        assert(cache[j] == c1[j]);
                    } else if j == cache.len() as int {
                        assert(cache[i] == c1[i]);
                    }
                }
            }
        }
        lemma_cache_signatures_no_duplicates(c1, sigs.drop_last());
    }
}

/// The distinct signatures of `sigs` that `cache` does not hold.
pub open spec fn fresh_signatures(cache: Seq<Seq<u8>>, sigs: Seq<Seq<u8>>) -> Set<Seq<u8>> {
    sigs.to_set().filter(|s: Seq<u8>| !cache.contains(s))
}

/// A full cache takes no more signatures.
proof fn lemma_full_cache_stays(cache: Seq<Seq<u8>>, sigs: Seq<Seq<u8>>)
    requires
        cache.len() >= MAX_CACHED_SIGNATURES,
    ensures
        cache_all(cache, sigs) == cache,
    decreases sigs.len(),
{
    if sigs.len() > 0 {
        lemma_full_cache_stays(cache, sigs.drop_last());
    }
}

/// The distinct fresh signatures are finitely many.
proof fn lemma_fresh_finite(cache: Seq<Seq<u8>>, sigs: Seq<Seq<u8>>)
    ensures
        fresh_signatures(cache, sigs).finite(),
{
    vstd::seq_lib::seq_to_set_is_finite(sigs);
    vstd::set_lib::lemma_set_subset_finite(sigs.to_set(), fresh_signatures(cache, sigs));
}

/// Signatures from senders grow a cache of at most 128 by the number of
/// distinct signatures it did not hold, up to 128 in all.
pub proof fn lemma_cache_signatures_length(cache: Seq<Seq<u8>>, sigs: Seq<Seq<u8>>)
    requires
        cache.len() <= MAX_CACHED_SIGNATURES,
    ensures
        cache_all(cache, sigs).len() == (if cache.len() + fresh_signatures(cache, sigs).len()
            <= MAX_CACHED_SIGNATURES {
            cache.len() + fresh_signatures(cache, sigs).len()
        } else {
            MAX_CACHED_SIGNATURES as nat
        }),
    decreases sigs.len(),
{
    lemma_fresh_finite(cache, sigs);
    if sigs.len() == 0 {
        assert(fresh_signatures(cache, sigs) =~= Set::empty());
    } else {
        let l = sigs.last();
        let rest = sigs.drop_last();
        assert(sigs.to_set() =~= rest.to_set().insert(l)) by {
            assert forall|a: Seq<u8>| sigs.contains(a) <==> rest.contains(a) || a == l by {
                if sigs.contains(a) {
                    let i = choose|i: int| 0 <= i < sigs.len() && sigs[i] == a;
                    if i < rest.len() {
                        assert(rest[i] == a);
                    }
                }
                if rest.contains(a) {
                    let i = choose|i: int| 0 <= i < rest.len() && rest[i] == a;
                    assert(sigs[i] == a);
                }
                if a == l {
                    assert(sigs[sigs.len() - 1] == a);
                }
            }
        }
        if cache.contains(l) {
            assert(fresh_signatures(cache, sigs) =~= fresh_signatures(cache, rest));
            lemma_cache_signatures_length(cache, rest);
        } else if cache.len() >= MAX_CACHED_SIGNATURES {
            lemma_full_cache_stays(cache, sigs);
        } else {
            let c1 = cache.push(l);
            assert forall|a: Seq<u8>| c1.contains(a) <==> cache.contains(a) || a == l by {
                if c1.contains(a) {
                    let i = choose|i: int| 0 <= i < c1.len() && c1[i] == a;
                    if i < cache.len() {
                        assert(cache[i] == a);
                    }
                }
                if cache.contains(a) {
                    let i = choose|i: int| 0 <= i < cache.len() && cache[i] == a;
                    assert(c1[i] == a);
                }
                if a == l {
                    assert(c1[cache.len() as int] == a);
                }
            }
            assert(fresh_signatures(c1, rest) =~= fresh_signatures(cache, sigs).remove(l));
            assert(fresh_signatures(cache, sigs).contains(l));
            lemma_cache_signatures_length(c1, rest);
        }
    }
}

/// The last place of `x` in `s`, or -1 where it is not there.
pub open spec fn last_place(s: Seq<Seq<u8>>, x: Seq<u8>) -> int
    decreases s.len(),
{
    if s.len() == 0 {
        -1
    } else if s.last() == x {
        s.len() - 1
    } else {
        last_place(s.drop_last(), x)
    }
}

proof fn lemma_last_place_bound(s: Seq<Seq<u8>>, x: Seq<u8>)
    ensures
        -1 <= last_place(s, x) < s.len(),
        last_place(s, x) >= 0 <==> s.contains(x),
    decreases s.len(),
{
    if s.len() > 0 {
        lemma_last_place_bound(s.drop_last(), x);
        if s.last() != x {
            if s.contains(x) {
                let i = choose|i: int| 0 <= i < s.len() && s[i] == x;
                assert(s.drop_last()[i] == x);
            }
            if s.drop_last().contains(x) {
                let i = choose|i: int| 0 <= i < s.drop_last().len() && s.drop_last()[i] == x;
                assert(s[i] == x);
            }
        } else {
            assert(s[s.len() - 1] == x);
        }
    }
}

/// What signatures from senders add to a cache of at most 128: entries
/// that are pairwise different, that the cache did not hold, and that come
/// from the signatures, each taken at its last place there, later places
/// first.
pub proof fn lemma_cache_signatures_appended(cache: Seq<Seq<u8>>, sigs: Seq<Seq<u8>>)
    requires
        cache.len() <= MAX_CACHED_SIGNATURES,
    ensures
        cache.len() <= cache_all(cache, sigs).len(),
        forall|i: int|
            cache.len() <= i < cache_all(cache, sigs).len() ==> !cache.contains(
                #[trigger] cache_all(cache, sigs)[i],
            ) && last_place(sigs, cache_all(cache, sigs)[i]) >= 0,
        forall|i: int, j: int|
            cache.len() <= i < j < cache_all(cache, sigs).len() ==> #[trigger] cache_all(
                cache,
                sigs,
            )[i] != #[trigger] cache_all(cache, sigs)[j] && last_place(
                sigs,
                cache_all(cache, sigs)[i],
            ) > last_place(sigs, cache_all(cache, sigs)[j]),
    decreases sigs.len(),
{
    lemma_cache_signatures_keeps_prefix(cache, sigs);
    let r = cache_all(cache, sigs);
    let n = cache.len() as int;
    if sigs.len() == 0 {
        return;
    }
    let l = sigs.last();
    let rest = sigs.drop_last();
    let c1 = cache_one(cache, l);
    if cache.len() >= MAX_CACHED_SIGNATURES && !cache.contains(l) {
        lemma_full_cache_stays(cache, sigs);
        return;
    }
    lemma_cache_signatures_appended(c1, rest);
    lemma_cache_signatures_keeps_prefix(c1, rest);
    assert(r == cache_all(c1, rest));
    assert forall|i: int| n <= i < r.len() implies !cache.contains(#[trigger] r[i]) && last_place(
        sigs,
        r[i],
    ) >= 0 && (i > n || cache.contains(l) ==> r[i] != l && last_place(sigs, r[i]) == last_place(
        rest,
        r[i],
    ) && last_place(rest, r[i]) < rest.len()) by {
        lemma_last_place_bound(rest, r[i]);
        if cache.contains(l) {
            assert(c1 == cache);
        } else {
            assert(c1 == cache.push(l));
            assert(r.subrange(0, c1.len() as int)[n] == r[n]);
            if i == n {
                assert(r[n] == l);
            } else {
                assert(!c1.contains(r[i]));
                if cache.contains(r[i]) {
                    let k = choose|k: int| 0 <= k < cache.len() && cache[k] == r[i];
                    assert(c1[k] == r[i]);
                }
                assert(c1[n] == l);
            }
        }
    }
    assert forall|i: int, j: int| n <= i < j < r.len() implies #[trigger] r[i] != #[trigger] r[j]
        && last_place(sigs, r[i]) > last_place(sigs, r[j]) by {
        lemma_last_place_bound(rest, r[j]);
        if !cache.contains(l) && i == n {
            assert(r[n] == r.subrange(0, c1.len() as int)[n]);
            assert(c1[n] == l);
            assert(last_place(sigs, l) == sigs.len() - 1);
        }
    }
}

} // verus!
