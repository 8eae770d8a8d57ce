//! A map from strings to values, held as two parallel vectors.
//!
//! No key occurs twice. Contracts speak of the map as a `Map` from the
//! characters of a key to the view of its value; the order in which the
//! entries are stored is no part of that map.

use vstd::prelude::*;
use vstd::string::StringExecFns;

verus! {

/// The characters of each string of a sequence.
pub open spec fn key_views(keys: Seq<String>) -> Seq<Seq<char>> {
    keys.map_values(|s: String| s@)
}

/// The view of each value of a sequence.
pub open spec fn value_views<V: View>(vals: Seq<V>) -> Seq<V::V> {
    vals.map_values(|v: V| v@)
}

/// The map that sends the key at each index to the value at that index.
pub open spec fn assoc<W>(keys: Seq<Seq<char>>, vals: Seq<W>) -> Map<Seq<char>, W> {
    Map::new(|k: Seq<char>| keys.contains(k), |k: Seq<char>| vals[keys.index_of(k)])
}

/// `keys` and `vals` list the entries of `m`, each once.
pub open spec fn lists<W>(keys: Seq<Seq<char>>, vals: Seq<W>, m: Map<Seq<char>, W>) -> bool {
    &&& keys.len() == vals.len()
    &&& keys.no_duplicates()
    &&& m == assoc(keys, vals)
}

/// Among distinct keys, the key at index `i` is found at `i`.
pub proof fn lemma_index_of_unique(keys: Seq<Seq<char>>, i: int)
    requires
        keys.no_duplicates(),
        0 <= i < keys.len(),
    ensures
        keys.contains(keys[i]),
        keys.index_of(keys[i]) == i,
{
}

/// A listing holds every entry of its map, and nothing else.
pub proof fn lemma_lists_entries<W>(keys: Seq<Seq<char>>, vals: Seq<W>, m: Map<Seq<char>, W>)
    requires
        lists(keys, vals, m),
    ensures
        forall|i: int| 0 <= i < keys.len() ==> m.contains_key(#[trigger] keys[i]) && m[keys[i]] == vals[i],
        forall|k: Seq<char>| #[trigger] m.contains_key(k) ==> keys.contains(k),
        m.dom().finite(),
        m.len() == keys.len(),
{
    assert forall|i: int| 0 <= i < keys.len() implies m.contains_key(#[trigger] keys[i]) && m[keys[i]]
        == vals[i] by {
        lemma_index_of_unique(keys, i);
    }
    keys.unique_seq_to_set();
}

/// Appending a new key adds one entry.
pub proof fn lemma_assoc_push<W>(keys: Seq<Seq<char>>, vals: Seq<W>, k: Seq<char>, v: W)
    requires
        keys.len() == vals.len(),
        keys.no_duplicates(),
        !keys.contains(k),
    ensures
        keys.push(k).no_duplicates(),
        assoc(keys.push(k), vals.push(v)) == assoc(keys, vals).insert(k, v),
{
    let keys2 = keys.push(k);
    let lhs = assoc(keys2, vals.push(v));
    let rhs = assoc(keys, vals).insert(k, v);
    assert forall|x: Seq<char>| lhs.contains_key(x) == rhs.contains_key(x) by {
        if keys.contains(x) {
            assert(keys2[keys.index_of(x)] == x);
        }
        if x == k {
            assert(keys2[keys.len() as int] == x);
        }
    }
    assert forall|x: Seq<char>| lhs.contains_key(x) && x != k implies lhs[x] == rhs[x] by {
        lemma_index_of_unique(keys, keys2.index_of(x));
    }
}

/// Replacing the value at index `i` replaces the entry of the key at `i`.
pub proof fn lemma_assoc_update<W>(keys: Seq<Seq<char>>, vals: Seq<W>, i: int, v: W)
    requires
        keys.len() == vals.len(),
        keys.no_duplicates(),
        0 <= i < keys.len(),
    ensures
        assoc(keys, vals.update(i, v)) == assoc(keys, vals).insert(keys[i], v),
{
    lemma_index_of_unique(keys, i);
}

/// Dropping index `i` from both lists drops the entry of the key at `i`.
pub proof fn lemma_assoc_remove<W>(keys: Seq<Seq<char>>, vals: Seq<W>, i: int)
    requires
        keys.len() == vals.len(),
        keys.no_duplicates(),
        0 <= i < keys.len(),
    ensures
        keys.remove(i).no_duplicates(),
        assoc(keys.remove(i), vals.remove(i)) == assoc(keys, vals).remove(keys[i]),
{
    let keys2 = keys.remove(i);
    let lhs = assoc(keys2, vals.remove(i));
    let rhs = assoc(keys, vals).remove(keys[i]);
    assert forall|x: Seq<char>| lhs.contains_key(x) == rhs.contains_key(x) by {
        if keys.contains(x) && x != keys[i] {
            let j = keys.index_of(x);
            assert(keys2[if j < i { j } else { j - 1 }] == x);
        }
    }
    assert forall|x: Seq<char>| lhs.contains_key(x) implies lhs[x] == rhs[x] by {
        let a = keys2.index_of(x);
        lemma_index_of_unique(keys, if a < i { a } else { a + 1 });
    }
}

/// A map keyed by strings. No key occurs twice.
#[derive(Debug)]
pub struct StringMap<V> {
    keys: Vec<String>,
    vals: Vec<V>,
}

impl<V: View> View for StringMap<V> {
    type V = Map<Seq<char>, V::V>;

    closed spec fn view(&self) -> Map<Seq<char>, V::V> {
        assoc(key_views(self.keys@), value_views(self.vals@))
    }
}

impl<V> StringMap<V> {
    #[verifier::type_invariant]
    spec fn well_formed(self) -> bool {
        &&& self.keys.len() == self.vals.len()
        &&& key_views(self.keys@).no_duplicates()
    }
}

impl<V: View> StringMap<V> {
    /// An empty map.
    pub fn new() -> (m: Self)
        ensures
            m@ == Map::<Seq<char>, V::V>::empty(),
    {
        StringMap { keys: Vec::new(), vals: Vec::new() }
    }

    /// The number of entries.
    pub fn len(&self) -> (n: usize)
        ensures
            self@.dom().finite(),
            n == self@.len(),
    {
        proof {
            use_type_invariant(self);
            lemma_lists_entries(key_views(self.keys@), value_views(self.vals@), self@);
        }
        self.keys.len()
    }

    /// Whether the map has no entry.
    pub fn is_empty(&self) -> (b: bool)
        ensures
            b == (self@ == Map::<Seq<char>, V::V>::empty()),
    {
        proof {
            use_type_invariant(self);
            lemma_lists_entries(key_views(self.keys@), value_views(self.vals@), self@);
            if self.keys.len() == 0 {
                assert(self@ =~= Map::<Seq<char>, V::V>::empty());
            }
        }
        self.keys.len() == 0
    }

    fn position(&self, key: &String) -> (at: Option<usize>)
        ensures
            match at {
                Some(i) => i < self.keys.len() && self.keys[i as int]@ == key@,
                None => !key_views(self.keys@).contains(key@),
            },
    {
        let mut i: usize = 0;
        while i < self.keys.len()
            invariant
                i <= self.keys.len(),
                forall|j: int| 0 <= j < i ==> self.keys[j]@ != key@,
            decreases self.keys.len() - i,
        {
            if self.keys[i] == *key {
                return Some(i);
            }
            i += 1;
        }
        None
    }

    /// Whether `key` has an entry.
    pub fn contains_key(&self, key: &str) -> (b: bool)
        ensures
            b == self@.contains_key(key@),
    {
        let owned = String::from_str(key);
        let at = self.position(&owned);
        proof {
            if let Some(i) = at {
                assert(key_views(self.keys@)[i as int] == key@);
            }
        }
        at.is_some()
    }

    /// The value under `key`, if there is one.
    pub fn get(&self, key: &str) -> (found: Option<&V>)
        ensures
            match found {
                Some(v) => self@.contains_key(key@) && v@ == self@[key@],
                None => !self@.contains_key(key@),
            },
    {
        proof {
            use_type_invariant(self);
        }
        let owned = String::from_str(key);
        match self.position(&owned) {
            Some(i) => {
                proof {
                    lemma_index_of_unique(key_views(self.keys@), i as int);
                }
                Some(&self.vals[i])
            },
            None => None,
        }
    }

    /// Puts `val` under `key`, and hands back what was there before.
    pub fn insert(&mut self, key: String, val: V) -> (previous: Option<V>)
        ensures
            final(self)@ == old(self)@.insert(key@, val@),
            match previous {
                Some(v) => old(self)@.contains_key(key@) && v@ == old(self)@[key@],
                None => !old(self)@.contains_key(key@),
            },
    {
        proof {
            use_type_invariant(&*self);
        }
        let ghost keys0 = key_views(self.keys@);
        let ghost vals0 = value_views(self.vals@);
        match self.position(&key) {
            Some(i) => {
                proof {
                    lemma_index_of_unique(keys0, i as int);
                    lemma_assoc_update(keys0, vals0, i as int, val@);
                }
                let mut taken = StringMap { keys: Vec::new(), vals: Vec::new() };
                std::mem::swap(self, &mut taken);
                let StringMap { keys, mut vals } = taken;
                vals.push(val);
                let before = vals.swap_remove(i);
                *self = StringMap { keys, vals };
                Some(before)
            },
            None => {
                proof {
                    lemma_assoc_push(keys0, vals0, key@, val@);
                    assert(key_views(self.keys@.push(key)) =~= keys0.push(key@));
                }
                let mut taken = StringMap { keys: Vec::new(), vals: Vec::new() };
                std::mem::swap(self, &mut taken);
                let StringMap { mut keys, mut vals } = taken;
                keys.push(key);
                vals.push(val);
                *self = StringMap { keys, vals };
                None
            },
        }
    }

    /// Takes the entry of `key` out, and hands back its value.
    pub fn remove(&mut self, key: &str) -> (removed: Option<V>)
        ensures
            final(self)@ == old(self)@.remove(key@),
            match removed {
                Some(v) => old(self)@.contains_key(key@) && v@ == old(self)@[key@],
                None => !old(self)@.contains_key(key@),
            },
    {
        proof {
            use_type_invariant(&*self);
        }
        let ghost keys0 = key_views(self.keys@);
        let ghost vals0 = value_views(self.vals@);
        let owned = String::from_str(key);
        match self.position(&owned) {
            Some(i) => {
                proof {
                    lemma_index_of_unique(keys0, i as int);
                    lemma_assoc_remove(keys0, vals0, i as int);
                }
                let mut taken = StringMap { keys: Vec::new(), vals: Vec::new() };
                std::mem::swap(self, &mut taken);
                let StringMap { mut keys, mut vals } = taken;
                keys.remove(i);
                let taken = vals.remove(i);
                proof {
                    assert(key_views(keys@) =~= keys0.remove(i as int));
                }
                *self = StringMap { keys, vals };
                Some(taken)
            },
            None => None,
        }
    }

    /// Takes every entry out.
    pub fn clear(&mut self)
        ensures
            final(self)@ == Map::<Seq<char>, V::V>::empty(),
    {
        *self = StringMap { keys: Vec::new(), vals: Vec::new() };
    }

    /// The keys, in the order in which the entries are stored.
    pub fn keys(&self) -> (keys: &Vec<String>)
        ensures
            keys.len() == self.values().len(),
            lists(key_views(keys@), value_views(self.values()@), self@),
    {
        proof {
            use_type_invariant(self);
        }
        &self.keys
    }

    /// The values, each at the index of its key in `keys()`.
    #[verifier::when_used_as_spec(spec_values)]
    pub fn values(&self) -> (vals: &Vec<V>)
        ensures
            vals == self.spec_values(),
    {
        &self.vals
    }

    /// The values as stored.
    pub closed spec fn spec_values(&self) -> &Vec<V> {
        &self.vals
    }
}

/// A bag of named text properties.
pub type Properties = StringMap<String>;

/// The key of each pair of a sequence.
pub open spec fn pair_keys(pairs: Seq<(String, String)>) -> Seq<Seq<char>> {
    pairs.map_values(|p: (String, String)| p.0@)
}

/// The value of each pair of a sequence.
pub open spec fn pair_values(pairs: Seq<(String, String)>) -> Seq<Seq<char>> {
    pairs.map_values(|p: (String, String)| p.1@)
}

impl StringMap<String> {
    /// The entries as pairs of key and value, each once, in the order in
    /// which they are stored.
    pub fn pairs(&self) -> (pairs: Vec<(String, String)>)
        ensures
            lists(pair_keys(pairs@), pair_values(pairs@), self@),
    {
        proof {
            use_type_invariant(self);
        }
        let mut pairs: Vec<(String, String)> = Vec::new();
        let mut i: usize = 0;
        while i < self.keys.len()
            invariant
                self.keys.len() == self.vals.len(),
                i <= self.keys.len(),
                pairs.len() == i,
                forall|j: int|
                    0 <= j < i ==> (#[trigger] pairs[j]).0@ == self.keys[j]@ && pairs[j].1@
                        == self.vals[j]@,
            decreases self.keys.len() - i,
        {
            pairs.push((self.keys[i].clone(), self.vals[i].clone()));
            i += 1;
        }
        proof {
            assert(pair_keys(pairs@) =~= key_views(self.keys@));
            assert(pair_values(pairs@) =~= value_views(self.vals@));
        }
        pairs
    }

    /// Whether both maps hold the same entries, in whatever order.
    pub fn same_entries(&self, other: &Self) -> (same: bool)
        ensures
            same == (self@ == other@),
    {
        proof {
            use_type_invariant(self);
            use_type_invariant(other);
            lemma_lists_entries(key_views(self.keys@), value_views(self.vals@), self@);
            lemma_lists_entries(key_views(other.keys@), value_views(other.vals@), other@);
        }
        if self.keys.len() != other.keys.len() {
            return false;
        }
        let mut i: usize = 0;
        while i < self.keys.len()
            invariant
                i <= self.keys.len(),
                self.keys.len() == self.vals.len(),
                forall|j: int|
                    0 <= j < self.keys.len() ==> self@.contains_key(
                        #[trigger] key_views(self.keys@)[j],
                    ) && self@[key_views(self.keys@)[j]] == value_views(self.vals@)[j],
                forall|j: int|
                    0 <= j < i ==> other@.contains_key(#[trigger] key_views(self.keys@)[j])
                        && other@[key_views(self.keys@)[j]] == value_views(self.vals@)[j],
            decreases self.keys.len() - i,
        {
            assert(key_views(self.keys@)[i as int] == self.keys[i as int]@);
            match other.get(self.keys[i].as_str()) {
                Some(val) => {
                    if !(*val == self.vals[i]) {
                        return false;
                    }
                },
                None => {
                    return false;
                },
            }
            i += 1;
        }
        proof {
            let keys = key_views(self.keys@);
            assert(self@.dom().subset_of(other@.dom())) by {
                assert forall|k: Seq<char>| self@.dom().contains(k) implies other@.dom().contains(
                    k,
                ) by {
                    assert(keys[keys.index_of(k)] == k);
                }
            }
            vstd::set_lib::lemma_subset_equality(self@.dom(), other@.dom());
            assert forall|k: Seq<char>| self@.contains_key(k) implies self@[k] == other@[k] by {
                assert(keys[keys.index_of(k)] == k);
            }
            assert(self@ =~= other@);
        }
        true
    }
}

impl Clone for StringMap<String> {
    fn clone(&self) -> (c: Self)
        ensures
            c@ == self@,
    {
        proof {
            use_type_invariant(self);
        }
        let mut keys: Vec<String> = Vec::new();
        let mut vals: Vec<String> = Vec::new();
        let mut i: usize = 0;
        while i < self.keys.len()
            invariant
                self.keys.len() == self.vals.len(),
                i <= self.keys.len(),
                keys.len() == i,
                vals.len() == i,
                forall|j: int| 0 <= j < i ==> keys[j]@ == self.keys[j]@ && vals[j]@ == self.vals[j]@,
            decreases self.keys.len() - i,
        {
            keys.push(self.keys[i].clone());
            vals.push(self.vals[i].clone());
            i += 1;
        }
        proof {
            assert(key_views(keys@) =~= key_views(self.keys@));
        }
        StringMap { keys, vals }
    }
}

} // verus!
