//! String-to-string maps as Kubernetes uses them for labels, annotations and
//! selectors: at most one value per key, kept in dictionary order of the keys.

use crate::text::{
    lemma_lex_lt_irreflexive, lemma_lex_lt_total, lemma_lex_lt_transitive, lex_lt, str_eq, str_lt,
};
use vstd::prelude::*;

verus! {

/// The keys of `pairs` grow strictly from each entry to the next.
pub open spec fn keys_increasing(pairs: Seq<(Seq<char>, Seq<char>)>) -> bool {
    forall|i: int, j: int|
        0 <= i < j < pairs.len() ==> lex_lt((#[trigger] pairs[i]).0, (#[trigger] pairs[j]).0)
}

/// Whether some entry of `pairs` has the key `key`.
pub open spec fn has_key(pairs: Seq<(Seq<char>, Seq<char>)>, key: Seq<char>) -> bool {
    exists|i: int| 0 <= i < pairs.len() && (#[trigger] pairs[i]).0 == key
}

/// The map that a list of entries stands for.
pub open spec fn pairs_to_map(pairs: Seq<(Seq<char>, Seq<char>)>) -> Map<Seq<char>, Seq<char>> {
    Map::new(
        |k: Seq<char>| has_key(pairs, k),
        |k: Seq<char>| pairs[choose|i: int| 0 <= i < pairs.len() && (#[trigger] pairs[i]).0 == k].1,
    )
}

/// With increasing keys, each entry is what the map holds under its key.
pub proof fn lemma_pairs_lookup(pairs: Seq<(Seq<char>, Seq<char>)>, i: int)
    requires
        keys_increasing(pairs),
        0 <= i < pairs.len(),
    ensures
        pairs_to_map(pairs).contains_key(pairs[i].0),
        pairs_to_map(pairs)[pairs[i].0] == pairs[i].1,
{
    let k = pairs[i].0;
    assert(has_key(pairs, k));
    let j = choose|j: int| 0 <= j < pairs.len() && (#[trigger] pairs[j]).0 == k;
    lemma_lex_lt_irreflexive(k);
    if j < i {
        assert(lex_lt(pairs[j].0, pairs[i].0));
    } else if i < j {
        assert(lex_lt(pairs[i].0, pairs[j].0));
    }
}

/// Replacing the value of entry `i` is an insertion under that entry's key.
proof fn lemma_update_map(pairs: Seq<(Seq<char>, Seq<char>)>, i: int, value: Seq<char>)
    requires
        keys_increasing(pairs),
        0 <= i < pairs.len(),
    ensures
        keys_increasing(pairs.update(i, (pairs[i].0, value))),
        pairs_to_map(pairs.update(i, (pairs[i].0, value))) == pairs_to_map(pairs).insert(
            pairs[i].0,
            value,
        ),
{
    let key = pairs[i].0;
    let next = pairs.update(i, (key, value));
    assert(keys_increasing(next)) by {
        assert forall|a: int, b: int| 0 <= a < b < next.len() implies lex_lt(
            (#[trigger] next[a]).0,
            (#[trigger] next[b]).0,
        ) by {
            assert(next[a].0 == pairs[a].0);
            assert(next[b].0 == pairs[b].0);
        }
    }
    let m0 = pairs_to_map(pairs).insert(key, value);
    let m1 = pairs_to_map(next);
    assert forall|k: Seq<char>| m0.contains_key(k) <==> m1.contains_key(k) by {
        if has_key(pairs, k) {
            let j = choose|j: int| 0 <= j < pairs.len() && (#[trigger] pairs[j]).0 == k;
            assert(next[j].0 == k);
        }
        if k == key {
            assert(next[i].0 == k);
        }
        if has_key(next, k) {
            let j = choose|j: int| 0 <= j < next.len() && (#[trigger] next[j]).0 == k;
            assert(pairs[j].0 == k);
        }
    }
    assert forall|k: Seq<char>| m0.contains_key(k) implies m0[k] == m1[k] by {
        let j = choose|j: int| 0 <= j < next.len() && (#[trigger] next[j]).0 == k;
        lemma_pairs_lookup(next, j);
        if j != i {
            assert(pairs[j].0 == k);
            lemma_pairs_lookup(pairs, j);
            lemma_pairs_lookup(pairs, i);
            lemma_lex_lt_irreflexive(k);
            if j < i {
                assert(lex_lt(pairs[j].0, pairs[i].0));
            } else {
                assert(lex_lt(pairs[i].0, pairs[j].0));
            }
        }
    }
    assert(m0 =~= m1);
}

/// Putting a new key at the place that keeps the order is an insertion into the map.
proof fn lemma_insert_map(
    pairs: Seq<(Seq<char>, Seq<char>)>,
    i: int,
    key: Seq<char>,
    value: Seq<char>,
)
    requires
        keys_increasing(pairs),
        0 <= i <= pairs.len(),
        forall|j: int| 0 <= j < i ==> lex_lt((#[trigger] pairs[j]).0, key),
        i < pairs.len() ==> lex_lt(key, pairs[i].0),
    ensures
        keys_increasing(pairs.insert(i, (key, value))),
        pairs_to_map(pairs.insert(i, (key, value))) == pairs_to_map(pairs).insert(key, value),
        !has_key(pairs, key),
{
    let next = pairs.insert(i, (key, value));
    assert forall|j: int| i <= j < pairs.len() implies lex_lt(key, (#[trigger] pairs[j]).0) by {
        if i < j {
            assert(lex_lt(pairs[i].0, pairs[j].0));
            lemma_lex_lt_transitive(key, pairs[i].0, pairs[j].0);
        }
    }
    assert(keys_increasing(next)) by {
        assert forall|a: int, b: int| 0 <= a < b < next.len() implies lex_lt(
            (#[trigger] next[a]).0,
            (#[trigger] next[b]).0,
        ) by {
            if b < i {
                assert(next[a] == pairs[a] && next[b] == pairs[b]);
            } else if b == i {
                assert(next[a] == pairs[a]);
            } else if a < i {
                assert(next[a] == pairs[a] && next[b] == pairs[b - 1]);
                lemma_lex_lt_transitive(pairs[a].0, key, pairs[b - 1].0);
            } else if a == i {
                assert(next[b] == pairs[b - 1]);
            } else {
                assert(next[a] == pairs[a - 1] && next[b] == pairs[b - 1]);
            }
        }
    }
    assert(!has_key(pairs, key)) by {
        if has_key(pairs, key) {
            let j = choose|j: int| 0 <= j < pairs.len() && (#[trigger] pairs[j]).0 == key;
            lemma_lex_lt_irreflexive(key);
        }
    }
    let m0 = pairs_to_map(pairs).insert(key, value);
    let m1 = pairs_to_map(next);
    assert forall|k: Seq<char>| m0.contains_key(k) <==> m1.contains_key(k) by {
        if has_key(pairs, k) {
            let j = choose|j: int| 0 <= j < pairs.len() && (#[trigger] pairs[j]).0 == k;
            if j < i {
                assert(next[j].0 == k);
            } else {
                assert(next[j + 1].0 == k);
            }
        }
        if k == key {
            assert(next[i].0 == k);
        }
        if has_key(next, k) {
            let j = choose|j: int| 0 <= j < next.len() && (#[trigger] next[j]).0 == k;
            if j < i {
                assert(pairs[j].0 == k);
            } else if j > i {
                assert(pairs[j - 1].0 == k);
            }
        }
    }
    assert forall|k: Seq<char>| m0.contains_key(k) implies m0[k] == m1[k] by {
        let j = choose|j: int| 0 <= j < next.len() && (#[trigger] next[j]).0 == k;
        lemma_pairs_lookup(next, j);
        if j < i {
            assert(pairs[j] == next[j]);
            lemma_pairs_lookup(pairs, j);
        } else if j > i {
            assert(pairs[j - 1] == next[j]);
            lemma_pairs_lookup(pairs, j - 1);
        }
    }
    assert(m0 =~= m1);
}

/// A map from strings to strings.
///
/// Its view is the mathematical map; `pairs` gives the entries in the order
/// in which they are kept and written out, which is the dictionary order of
/// the keys.
#[derive(Debug, PartialEq, Eq)]
pub struct Labels {
    entries: Vec<(String, String)>,
}

impl View for Labels {
    type V = Map<Seq<char>, Seq<char>>;

    open spec fn view(&self) -> Map<Seq<char>, Seq<char>> {
        pairs_to_map(self.pairs())
    }
}

impl DeepView for Labels {
    type V = Map<Seq<char>, Seq<char>>;

    open spec fn deep_view(&self) -> Map<Seq<char>, Seq<char>> {
        self.view()
    }
}

impl Labels {
    /// The entries, each as key and value, in the order in which they are kept.
    pub closed spec fn pairs(&self) -> Seq<(Seq<char>, Seq<char>)> {
        Seq::new(self.entries@.len(), |i: int| (self.entries@[i].0@, self.entries@[i].1@))
    }

    #[verifier::type_invariant]
    spec fn ordered(&self) -> bool {
        keys_increasing(self.pairs())
    }

    /// A map without entries.
    pub fn new() -> (r: Labels)
        ensures
            r.pairs() == Seq::<(Seq<char>, Seq<char>)>::empty(),
            r@ == Map::<Seq<char>, Seq<char>>::empty(),
    {
        let r = Labels { entries: Vec::new() };
        proof {
            assert(r.pairs() =~= Seq::<(Seq<char>, Seq<char>)>::empty());
            assert(r@ =~= Map::<Seq<char>, Seq<char>>::empty());
        }
        r
    }

    /// The number of entries.
    pub fn len(&self) -> (n: usize)
        ensures
            n == self.pairs().len(),
            keys_increasing(self.pairs()),
    {
        proof {
            use_type_invariant(self);
        }
        self.entries.len()
    }

    /// Whether the map has no entry.
    pub fn is_empty(&self) -> (r: bool)
        ensures
            r == (self.pairs().len() == 0),
    {
        self.entries.len() == 0
    }

    /// The key of the entry at position `i`.
    pub fn key_at(&self, i: usize) -> (r: &String)
        requires
            i < self.pairs().len(),
        ensures
            r@ == self.pairs()[i as int].0,
    {
        &self.entries[i].0
    }

    /// The value of the entry at position `i`.
    pub fn value_at(&self, i: usize) -> (r: &String)
        requires
            i < self.pairs().len(),
        ensures
            r@ == self.pairs()[i as int].1,
    {
        &self.entries[i].1
    }

    /// The value under `key`, if the map has one.
    pub fn get(&self, key: &str) -> (r: Option<&String>)
        ensures
            r is Some == self@.contains_key(key@),
            r matches Some(v) ==> v@ == self@[key@],
    {
        proof {
            use_type_invariant(self);
        }
        let mut i: usize = 0;
        while i < self.entries.len()
            invariant
                0 <= i <= self.entries@.len(),
                keys_increasing(self.pairs()),
                forall|j: int| 0 <= j < i ==> (#[trigger] self.pairs()[j]).0 != key@,
            decreases self.entries@.len() - i,
        {
            if str_eq(self.entries[i].0.as_str(), key) {
                proof {
                    lemma_pairs_lookup(self.pairs(), i as int);
                }
                return Some(&self.entries[i].1);
            }
            i += 1;
        }
        None
    }

    /// Whether the map has a value under `key`.
    pub fn contains_key(&self, key: &str) -> (r: bool)
        ensures
            r == self@.contains_key(key@),
    {
        self.get(key).is_some()
    }

    /// Sets the value under `key`, replacing the one that was there.
    pub fn insert(&mut self, key: String, value: String)
        ensures
            final(self)@ == old(self)@.insert(key@, value@),
            final(self).pairs().len() == old(self).pairs().len() + (if old(self)@.contains_key(key@) {
                0int
            } else {
                1int
            }),
    {
        proof {
            use_type_invariant(&*self);
        }
        let mut taken = Labels::new();
        core::mem::swap(self, &mut taken);
        let ghost before = taken.pairs();
        let Labels { entries: mut entries } = taken;
        let mut i: usize = 0;
        while i < entries.len() && str_lt(entries[i].0.as_str(), key.as_str())
            invariant
                0 <= i <= entries@.len(),
                before == Seq::new(entries@.len(), |i: int| (entries@[i].0@, entries@[i].1@)),
                forall|j: int| 0 <= j < i ==> lex_lt((#[trigger] before[j]).0, key@),
            decreases entries@.len() - i,
        {
            i += 1;
        }
        if i < entries.len() && str_eq(entries[i].0.as_str(), key.as_str()) {
            proof {
                lemma_update_map(before, i as int, value@);
                assert(has_key(before, before[i as int].0));
            }
            entries.set(i, (key, value));
        } else {
            proof {
                if i < before.len() {
                    lemma_lex_lt_total(key@, before[i as int].0);
                }
                lemma_insert_map(before, i as int, key@, value@);
            }
            entries.insert(i, (key, value));
        }
        proof {
            let after = Seq::new(entries@.len(), |i: int| (entries@[i].0@, entries@[i].1@));
            assert(after =~= before.update(i as int, (key@, value@)) || after =~= before.insert(
                i as int,
                (key@, value@),
            ));
        }
        *self = Labels { entries };
    }

    /// Whether every entry of `self` is an entry of `other` too.
    pub fn is_submap_of(&self, other: &Labels) -> (r: bool)
        ensures
            r == self@.submap_of(other@),
    {
        proof {
            use_type_invariant(self);
        }
        let mut i: usize = 0;
        while i < self.entries.len()
            invariant
                0 <= i <= self.entries@.len(),
                keys_increasing(self.pairs()),
                forall|j: int|
                    0 <= j < i ==> other@.contains_pair(
                        (#[trigger] self.pairs()[j]).0,
                        self.pairs()[j].1,
                    ),
            decreases self.entries@.len() - i,
        {
            proof {
                lemma_pairs_lookup(self.pairs(), i as int);
            }
            match other.get(self.entries[i].0.as_str()) {
                None => {
                    return false;
                },
                Some(v) => {
                    if !str_eq(v.as_str(), self.entries[i].1.as_str()) {
                        return false;
                    }
                },
            }
            i += 1;
        }
        proof {
            assert forall|k: Seq<char>| self@.contains_key(k) implies #[trigger] other@.contains_key(k)
                && self@[k] == other@[k] by {
                let j = choose|j: int|
                    0 <= j < self.pairs().len() && (#[trigger] self.pairs()[j]).0 == k;
                lemma_pairs_lookup(self.pairs(), j);
            }
        }
        true
    }
}

impl Clone for Labels {
    fn clone(&self) -> (r: Labels)
        ensures
            r.pairs() == self.pairs(),
            r@ == self@,
    {
        proof {
            use_type_invariant(self);
        }
        let mut entries: Vec<(String, String)> = Vec::new();
        let mut i: usize = 0;
        while i < self.entries.len()
            invariant
                0 <= i <= self.entries@.len(),
                entries@.len() == i,
                forall|j: int|
                    0 <= j < i ==> (#[trigger] entries@[j]).0@ == self.entries@[j].0@ && entries@[j].1@
                        == self.entries@[j].1@,
            decreases self.entries@.len() - i,
        {
            entries.push((self.entries[i].0.clone(), self.entries[i].1.clone()));
            i += 1;
        }
        proof {
            assert(Seq::new(entries@.len(), |i: int| (entries@[i].0@, entries@[i].1@))
                =~= self.pairs());
        }
        Labels { entries }
    }
}

} // verus!
