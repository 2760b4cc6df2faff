use vstd::prelude::*;

use crate::string_set::{find_string, string_views};

verus! {

/// A map keyed by strings, kept as two parallel lists (keys without
/// repetitions, and their values) in the order in which keys were first added.
pub struct StringMap<V> {
    keys: Vec<String>,
    values: Vec<V>,
}

/// The map that pairs each key of `keys` with the value at the same position.
pub open spec fn pairs_to_map<V>(keys: Seq<Seq<char>>, values: Seq<V>) -> Map<Seq<char>, V> {
    Map::new(|k: Seq<char>| keys.contains(k), |k: Seq<char>| values[keys.index_of(k)])
}

/// In a list without repetitions, the position found for an element is its own.
pub proof fn lemma_index_of_unique(s: Seq<Seq<char>>, i: int)
    requires
        s.no_duplicates(),
        0 <= i < s.len(),
    ensures
        s.contains(s[i]),
        s.index_of(s[i]) == i,
{
    assert(s.contains(s[i]));
}

/// Keys without repetition, paired with values, make a map that holds
/// exactly those keys, each with its own value: putting back together what
/// was taken apart loses or changes no key.
pub proof fn law_pairs_keep_every_key<V>(keys: Seq<Seq<char>>, values: Seq<V>)
    requires
        keys.no_duplicates(),
        keys.len() == values.len(),
    ensures
        pairs_to_map(keys, values).dom() == keys.to_set(),
        pairs_to_map(keys, values).len() == keys.len(),
        forall|i: int| 0 <= i < keys.len() ==> #[trigger] pairs_to_map(keys, values)[keys[i]] == values[i],
{
    assert(pairs_to_map(keys, values).dom() =~= keys.to_set());
    keys.unique_seq_to_set();
    assert forall|i: int| 0 <= i < keys.len() implies #[trigger] pairs_to_map(keys, values)[keys[i]]
        == values[i] by {
        lemma_index_of_unique(keys, i);
    }
}

impl<V> View for StringMap<V> {
    type V = Map<Seq<char>, V>;

    closed spec fn view(&self) -> Map<Seq<char>, V> {
        pairs_to_map(string_views(self.keys@), self.values@)
    }
}

impl<V> StringMap<V> {
    #[verifier::type_invariant]
    closed spec fn well_formed(self) -> bool {
        &&& self.keys@.len() == self.values@.len()
        &&& string_views(self.keys@).no_duplicates()
    }

    /// The keys in the order in which they are kept.
    pub closed spec fn key_order(self) -> Seq<Seq<char>> {
        string_views(self.keys@)
    }

    /// The values, in the order of their keys.
    pub closed spec fn value_order(self) -> Seq<V> {
        self.values@
    }

    proof fn lemma_dom(self)
        requires
            self.well_formed(),
        ensures
            self@.dom() == self.key_order().to_set(),
            self@.dom().finite(),
            self@.len() == self.key_order().len(),
            forall|i: int|
                0 <= i < self.key_order().len() ==> #[trigger] self@[self.key_order()[i]]
                    == self.value_order()[i],
    {
        assert(self@.dom() =~= self.key_order().to_set());
        self.key_order().unique_seq_to_set();
        assert forall|i: int| 0 <= i < self.key_order().len() implies #[trigger] self@[self.key_order()[i]]
            == self.value_order()[i] by {
            lemma_index_of_unique(self.key_order(), i);
        }
    }

    /// An empty map.
    pub fn new() -> (r: StringMap<V>)
        ensures
            r@ == Map::<Seq<char>, V>::empty(),
    {
        let r = StringMap { keys: Vec::new(), values: Vec::new() };
        assert(string_views(r.keys@) =~= Seq::<Seq<char>>::empty());
        assert(r@ =~= Map::<Seq<char>, V>::empty());
        r
    }

    /// Number of keys.
    pub fn len(&self) -> (r: usize)
        ensures
            r == self@.len(),
    {
        proof {
            use_type_invariant(&*self);
            self.lemma_dom();
        }
        self.keys.len()
    }

    /// The value held for `key`, if any.
    pub fn get(&self, key: &str) -> (r: Option<&V>)
        ensures
            match r {
                Some(v) => self@.contains_key(key@) && *v == self@[key@],
                None => !self@.contains_key(key@),
            },
    {
        proof {
            use_type_invariant(&*self);
            self.lemma_dom();
        }
        let owned = key.to_owned();
        match find_string(&self.keys, &owned) {
            Some(i) => {
                assert(self@[self.key_order()[i as int]] == self.value_order()[i as int]);
                Some(&self.values[i])
            },
            None => None,
        }
    }

    /// Holds `value` for `key`, replacing what `key` held before, which is returned.
    pub fn insert(&mut self, key: String, value: V) -> (r: Option<V>)
        ensures
            final(self)@ == old(self)@.insert(key@, value),
            match r {
                Some(v) => old(self)@.contains_key(key@) && v == old(self)@[key@],
                None => !old(self)@.contains_key(key@),
            },
    {
        proof {
            use_type_invariant(&*self);
            self.lemma_dom();
        }
        let ghost before_keys = self.key_order();
        let ghost before_values = self.value_order();
        let ghost kv = key@;
        let mut this: StringMap<V> = StringMap::new();
        std::mem::swap(&mut this, self);
        let StringMap { keys, values } = this;
        let mut keys = keys;
        let mut values = values;
        assert(string_views(keys@) == before_keys);
        let found = find_string(&keys, &key);
        match found {
            Some(i) => {
                assert(before_keys[i as int] == kv);
                let old_value = values.remove(i);
                values.insert(i, value);
                proof {
                    assert(old_value == before_values[i as int]);
                    assert(string_views(keys@) == before_keys);
                    assert(values@ == before_values.update(i as int, value));
                    lemma_index_of_unique(before_keys, i as int);
                    assert(pairs_to_map(string_views(keys@), values@) =~= pairs_to_map(
                        before_keys,
                        before_values,
                    ).insert(kv, value)) by {
                        assert forall|k: Seq<char>| #[trigger]
                            before_keys.contains(k) implies pairs_to_map(
                            before_keys,
                            values@,
                        )[k] == pairs_to_map(before_keys, before_values).insert(kv, value)[k] by {
                            let j = before_keys.index_of(k);
                            if k != kv {
                                assert(j != i);
                            }
                        }
                    }
                }
                *self = StringMap { keys, values };
                Some(old_value)
            },
            None => {
                keys.push(key);
                values.push(value);
                proof {
                    let after = string_views(keys@);
                    assert(after =~= before_keys.push(kv));
                    assert(after.no_duplicates()) by {
                        assert forall|a: int, b: int|
                            0 <= a < after.len() && 0 <= b < after.len() && a != b implies after[a]
                                != after[b] by {
                            if a < before_keys.len() && b < before_keys.len() {
                            } else if a == before_keys.len() {
                                assert(before_keys.contains(before_keys[b]));
                            } else {
                                assert(before_keys.contains(before_keys[a]));
                            }
                        }
                    }
                    assert(pairs_to_map(after, values@) =~= pairs_to_map(
                        before_keys,
                        before_values,
                    ).insert(kv, value)) by {
                        assert forall|k: Seq<char>| #[trigger]
                            after.contains(k) <==> (before_keys.contains(k) || k == kv) by {
                            if after.contains(k) {
                                let j = choose|j: int| 0 <= j < after.len() && after[j] == k;
                                if j < before_keys.len() {
                                    assert(before_keys[j] == k);
                                }
                            }
                            if before_keys.contains(k) {
                                let j = choose|j: int|
                                    0 <= j < before_keys.len() && before_keys[j] == k;
                                assert(after[j] == k);
                            }
                            if k == kv {
                                assert(after[before_keys.len() as int] == k);
                            }
                        }
                        assert forall|k: Seq<char>| #[trigger]
                            after.contains(k) implies pairs_to_map(after, values@)[k]
                            == pairs_to_map(before_keys, before_values).insert(kv, value)[k] by {
                            if k == kv {
                                lemma_index_of_unique(after, before_keys.len() as int);
                            } else {
                                let j = choose|j: int|
                                    0 <= j < before_keys.len() && before_keys[j] == k;
                                assert(after[j] == k);
                                lemma_index_of_unique(after, j);
                                lemma_index_of_unique(before_keys, j);
                            }
                        }
                    }
                }
                *self = StringMap { keys, values };
                None
            },
        }
    }

    /// Takes the map apart into its keys and their values, in order.
    pub fn into_parts(self) -> (r: (Vec<String>, Vec<V>))
        ensures
            string_views(r.0@) == self.key_order(),
            r.1@ == self.value_order(),
            r.0@.len() == r.1@.len(),
            string_views(r.0@).no_duplicates(),
            self@.dom() == string_views(r.0@).to_set(),
            forall|i: int| 0 <= i < r.1@.len() ==> self@[string_views(r.0@)[i]] == #[trigger] r.1@[i],
            pairs_to_map(string_views(r.0@), r.1@) == self@,
    {
        proof {
            use_type_invariant(&self);
            self.lemma_dom();
        }
        let StringMap { keys, values } = self;
        (keys, values)
    }

    /// The map that holds, for each key, the value paired with its last
    /// occurrence in `keys`.
    pub fn from_parts(keys: Vec<String>, values: Vec<V>) -> (r: StringMap<V>)
        requires
            keys@.len() == values@.len(),
        ensures
            r@.dom() == string_views(keys@).to_set(),
            forall|i: int|
                0 <= i < keys@.len() && (forall|j: int| i < j < keys@.len() ==> keys@[j]@ != keys@[i]@)
                    ==> r@[keys@[i]@] == #[trigger] values@[i],
            string_views(keys@).no_duplicates() ==> r@ == pairs_to_map(string_views(keys@), values@),
    {
        let mut map: StringMap<V> = StringMap::new();
        let mut keys = keys;
        let mut values = values;
        let ghost all_keys = keys@;
        let ghost all_values = values@;
        let n = keys.len();
        // Consume the lists from the back: take the pairs out in reverse and
        // insert them in their original order.
        let mut rev_keys: Vec<String> = Vec::new();
        let mut rev_values: Vec<V> = Vec::new();
        while keys.len() > 0
            invariant
                keys@.len() == values@.len(),
                keys@ == all_keys.take(keys@.len() as int),
                values@ == all_values.take(values@.len() as int),
                rev_keys@.len() == rev_values@.len(),
                keys@.len() + rev_keys@.len() == n,
                n == all_keys.len(),
                all_keys.len() == all_values.len(),
                forall|j: int|
                    0 <= j < rev_keys@.len() ==> rev_keys@[j] == all_keys[n - 1 - j]
                        && rev_values@[j] == all_values[n - 1 - j],
            decreases keys@.len(),
        {
            let k = keys.pop().unwrap();
            let v = values.pop().unwrap();
            rev_keys.push(k);
            rev_values.push(v);
        }
        let mut i: usize = 0;
        while rev_keys.len() > 0
            invariant
                rev_keys@.len() == rev_values@.len(),
                i + rev_keys@.len() == n,
                n == all_keys.len(),
                all_keys.len() == all_values.len(),
                forall|j: int|
                    0 <= j < rev_keys@.len() ==> rev_keys@[j] == all_keys[n - 1 - j]
                        && rev_values@[j] == all_values[n - 1 - j],
                map@.dom() == string_views(all_keys.take(i as int)).to_set(),
                forall|a: int|
                    0 <= a < i && (forall|b: int| a < b < i ==> all_keys[b]@ != all_keys[a]@)
                        ==> map@[all_keys[a]@] == #[trigger] all_values[a],
            decreases rev_keys@.len(),
        {
            let k = rev_keys.pop().unwrap();
            let v = rev_values.pop().unwrap();
            assert(k == all_keys[i as int]);
            assert(v == all_values[i as int]);
            let ghost before = map@;
            map.insert(k, v);
            proof {
                let t0 = string_views(all_keys.take(i as int));
                let t1 = string_views(all_keys.take(i + 1));
                assert(t1 =~= t0.push(all_keys[i as int]@));
                assert(t1.to_set() =~= t0.to_set().insert(all_keys[i as int]@)) by {
                    assert forall|x: Seq<char>| t1.to_set().contains(x) <==> t0.to_set().insert(
                        all_keys[i as int]@,
                    ).contains(x) by {
                        if t1.contains(x) {
                            let j = choose|j: int| 0 <= j < t1.len() && t1[j] == x;
                            if j < t0.len() {
                                assert(t0[j] == x);
                            }
                        }
                        if t0.contains(x) {
                            let j = choose|j: int| 0 <= j < t0.len() && t0[j] == x;
                            assert(t1[j] == x);
                        }
                        if x == all_keys[i as int]@ {
                            assert(t1[i as int] == x);
                        }
                    }
                }
                assert forall|a: int|
                    0 <= a < i + 1 && (forall|b: int| a < b < i + 1 ==> all_keys[b]@ != all_keys[a]@)
                        implies map@[all_keys[a]@] == #[trigger] all_values[a] by {
                    if a < i {
                        assert(all_keys[i as int]@ != all_keys[a]@);
                        assert(forall|b: int| a < b < i ==> all_keys[b]@ != all_keys[a]@);
                    }
                }
            }
            i = i + 1;
        }
        assert(all_keys.take(n as int) =~= all_keys);
        proof {
            let ks = string_views(all_keys);
            if ks.no_duplicates() {
                assert forall|k: Seq<char>| #[trigger] ks.contains(k) implies map@[k]
                    == pairs_to_map(ks, all_values)[k] by {
                    let i = ks.index_of(k);
                    assert(ks[i] == all_keys[i]@);
                    assert forall|b: int| i < b < all_keys.len() implies all_keys[b]@ != all_keys[i]@ by {
                        assert(ks[b] == all_keys[b]@);
                    }
                }
                assert(map@.dom() =~= pairs_to_map(ks, all_values).dom());
                assert(map@ =~= pairs_to_map(ks, all_values));
            }
        }
        map
    }
}

impl<V: Clone> Clone for StringMap<V> {
    /// A copy holding the same keys, in the same order, each with a clone of its value.
    fn clone(&self) -> (r: Self)
        ensures
            r.key_order() == self.key_order(),
            r.value_order().len() == self.value_order().len(),
            forall|i: int|
                0 <= i < self.value_order().len() ==> cloned::<V>(
                    self.value_order()[i],
                    #[trigger] r.value_order()[i],
                ),
    {
        proof {
            use_type_invariant(&*self);
        }
        let n = self.keys.len();
        let mut keys: Vec<String> = Vec::new();
        let mut values: Vec<V> = Vec::new();
        let mut i: usize = 0;
        while i < n
            invariant
                n == self.keys@.len(),
                n == self.values@.len(),
                i <= n,
                keys@.len() == i,
                values@.len() == i,
                forall|j: int| 0 <= j < i ==> keys@[j] == self.keys@[j],
                forall|j: int|
                    0 <= j < i ==> cloned::<V>(self.values@[j], #[trigger] values@[j]),
            decreases n - i,
        {
            keys.push(self.keys[i].clone());
            values.push(self.values[i].clone());
            i = i + 1;
        }
        proof {
            assert(keys@ =~= self.keys@);
        }
        StringMap { keys, values }
    }
}

} // verus!
