use vstd::prelude::*;

verus! {

/// The character sequences of a list of strings, in order.
pub open spec fn string_views(items: Seq<String>) -> Seq<Seq<char>> {
    items.map_values(|s: String| s@)
}

/// Position of `key` in `items`, if it occurs there.
pub fn find_string(items: &Vec<String>, key: &String) -> (r: Option<usize>)
    ensures
        match r {
            Some(i) => i < items@.len() && string_views(items@)[i as int] == key@,
            None => !string_views(items@).contains(key@),
        },
{
    let n = items.len();
    let mut i: usize = 0;
    while i < n
        invariant
            n == items@.len(),
            i <= n,
            forall|j: int| 0 <= j < i ==> items@[j]@ != key@,
        decreases n - i,
    {
        if items[i] == *key {
            return Some(i);
        }
        i = i + 1;
    }
    proof {
        if string_views(items@).contains(key@) {
            let j = choose|j: int|
                0 <= j < string_views(items@).len() && string_views(items@)[j] == key@;
            assert(items@[j]@ == key@);
        }
    }
    None
}

/// A set of strings, kept as a list without repetitions in the order in
/// which the strings were first added.
pub struct StringSet {
    items: Vec<String>,
}

impl View for StringSet {
    type V = Set<Seq<char>>;

    closed spec fn view(&self) -> Set<Seq<char>> {
        string_views(self.items@).to_set()
    }
}

impl StringSet {
    #[verifier::type_invariant]
    closed spec fn no_repeats(self) -> bool {
        string_views(self.items@).no_duplicates()
    }

    /// The members in the order in which they are kept.
    pub closed spec fn entries(self) -> Seq<Seq<char>> {
        string_views(self.items@)
    }

    /// The members, in order, hold no repetition and make up the set.
    proof fn lemma_entries(self)
        requires
            self.no_repeats(),
        ensures
            self.entries().no_duplicates(),
            self.entries().to_set() == self@,
            self@.finite(),
            self@.len() == self.entries().len(),
    {
        self.entries().unique_seq_to_set();
    }

    /// An empty set.
    pub fn new() -> (r: StringSet)
        ensures
            r@ == Set::<Seq<char>>::empty(),
            r.entries() == Seq::<Seq<char>>::empty(),
    {
        let r = StringSet { items: Vec::new() };
        assert(string_views(r.items@) =~= Seq::<Seq<char>>::empty());
        assert(r@ =~= Set::<Seq<char>>::empty());
        r
    }

    /// Number of members.
    pub fn len(&self) -> (r: usize)
        ensures
            r == self@.len(),
    {
        proof {
            use_type_invariant(&*self);
            self.lemma_entries();
        }
        self.items.len()
    }

    /// Whether `key` is a member.
    pub fn contains(&self, key: &str) -> (r: bool)
        ensures
            r == self@.contains(key@),
    {
        let owned = key.to_owned();
        proof {
            use_type_invariant(&*self);
            self.lemma_entries();
        }
        match find_string(&self.items, &owned) {
            Some(i) => {
                assert(self.entries()[i as int] == key@);
                assert(self.entries().contains(key@));
                true
            },
            None => false,
        }
    }

    /// Adds `key`; returns whether it was absent before.
    pub fn insert(&mut self, key: String) -> (r: bool)
        ensures
            final(self)@ == old(self)@.insert(key@),
            r == !old(self)@.contains(key@),
    {
        proof {
            use_type_invariant(&*self);
            self.lemma_entries();
        }
        match find_string(&self.items, &key) {
            Some(i) => {
                assert(self.entries()[i as int] == key@);
                assert(self.entries().contains(key@));
                assert(self@.contains(key@));
                assert(self@.insert(key@) =~= self@);
                false
            },
            None => {
                let ghost before = self.entries();
                let ghost kv = key@;
                let mut items: Vec<String> = Vec::new();
                std::mem::swap(&mut items, &mut self.items);
                items.push(key);
                proof {
                    let after = string_views(items@);
                    assert(after =~= before.push(kv));
                    assert(after.no_duplicates()) by {
                        assert forall|a: int, b: int|
                            0 <= a < after.len() && 0 <= b < after.len() && a != b implies after[a]
                                != after[b] by {
                            if a < before.len() && b < before.len() {
                            } else if a == before.len() {
                                assert(before.contains(before[b]));
                            } else {
                                assert(before.contains(before[a]));
                            }
                        }
                    }
                }
                self.items = items;
                proof {
                    assert(self.entries() =~= before.push(kv));
                    assert(self@ =~= old(self)@.insert(kv)) by {
                        assert forall|x: Seq<char>| self@.contains(x) <==> old(
                            self,
                        )@.insert(kv).contains(x) by {
                            if self@.contains(x) {
                                let j = choose|j: int|
                                    0 <= j < self.entries().len() && self.entries()[j] == x;
                                if j < before.len() {
                                    assert(before.contains(x));
                                }
                            }
                            if old(self)@.contains(x) {
                                let j = choose|j: int| 0 <= j < before.len() && before[j] == x;
                                assert(self.entries()[j] == x);
                                assert(self.entries().contains(x));
                            }
                            if x == kv {
                                assert(self.entries()[before.len() as int] == kv);
                                assert(self.entries().contains(x));
                            }
                        }
                    }
                }
                true
            },
        }
    }

    /// Removes `key`; returns whether it was present before.
    pub fn remove(&mut self, key: &str) -> (r: bool)
        ensures
            final(self)@ == old(self)@.remove(key@),
            r == old(self)@.contains(key@),
    {
        proof {
            use_type_invariant(&*self);
            self.lemma_entries();
        }
        let owned = key.to_owned();
        match find_string(&self.items, &owned) {
            None => {
                assert(!self@.contains(key@));
                assert(self@.remove(key@) =~= self@);
                false
            },
            Some(i) => {
                let ghost before = self.entries();
                let ghost kv = key@;
                assert(before[i as int] == kv);
                let mut items: Vec<String> = Vec::new();
                std::mem::swap(&mut items, &mut self.items);
                items.remove(i);
                proof {
                    let after = string_views(items@);
                    assert(after =~= before.remove(i as int));
                    assert(after.no_duplicates()) by {
                        assert forall|a: int, b: int|
                            0 <= a < after.len() && 0 <= b < after.len() && a != b implies after[a]
                                != after[b] by {
                            let a0 = if a < i { a } else { a + 1 };
                            let b0 = if b < i { b } else { b + 1 };
                            assert(after[a] == before[a0]);
                            assert(after[b] == before[b0]);
                        }
                    }
                }
                self.items = items;
                proof {
                    assert(self.entries() =~= before.remove(i as int));
                    assert(self@ =~= old(self)@.remove(kv)) by {
                        assert forall|x: Seq<char>| self@.contains(x) <==> old(
                            self,
                        )@.remove(kv).contains(x) by {
                            if self@.contains(x) {
                                let j = choose|j: int|
                                    0 <= j < self.entries().len() && self.entries()[j] == x;
                                let j0 = if j < i { j } else { j + 1 };
                                assert(before[j0] == x);
                                assert(before.contains(x));
                                assert(j0 != i);
                            }
                            if old(self)@.remove(kv).contains(x) {
                                let j = choose|j: int| 0 <= j < before.len() && before[j] == x;
                                assert(j != i);
                                let j1 = if j < i { j } else { j - 1 };
                                assert(self.entries()[j1] == x);
                                assert(self.entries().contains(x));
                            }
                        }
                    }
                }
                true
            },
        }
    }

    /// The members as a list, in the order in which they are kept.
    pub fn to_vec(&self) -> (r: Vec<String>)
        ensures
            string_views(r@) == self.entries(),
            string_views(r@).no_duplicates(),
            string_views(r@).to_set() == self@,
    {
        proof {
            use_type_invariant(&*self);
        }
        let mut out: Vec<String> = Vec::new();
        let n = self.items.len();
        let mut i: usize = 0;
        while i < n
            invariant
                n == self.items@.len(),
                i <= n,
                string_views(out@) =~= self.entries().take(i as int),
            decreases n - i,
        {
            let ghost prev = out@;
            let s = self.items[i].clone();
            out.push(s);
            assert(out@ == prev.push(self.items@[i as int]));
            assert(string_views(prev).len() == prev.len());
            assert(string_views(out@).len() == out@.len());
            assert(self.entries().len() == self.items@.len());
            assert forall|j: int| 0 <= j < i + 1 implies #[trigger] string_views(out@)[j]
                == self.entries().take(i + 1)[j] by {
                if j < i {
                    assert(string_views(prev)[j] == self.entries().take(i as int)[j]);
                }
            }
            assert(string_views(out@) =~= self.entries().take(i + 1));
            i = i + 1;
        }
        assert(self.entries().take(n as int) =~= self.entries());
        out
    }

    /// The set of the strings in `items`; a repeated string is kept once.
    pub fn from_vec(items: Vec<String>) -> (r: StringSet)
        ensures
            r@ == string_views(items@).to_set(),
    {
        let mut set = StringSet::new();
        let n = items.len();
        let mut i: usize = 0;
        while i < n
            invariant
                n == items@.len(),
                i <= n,
                set@ =~= string_views(items@).take(i as int).to_set(),
            decreases n - i,
        {
            let s = items[i].clone();
            set.insert(s);
            proof {
                let t0 = string_views(items@).take(i as int);
                let t1 = string_views(items@).take(i + 1);
                assert(t1 =~= t0.push(items@[i as int]@));
                assert(t1.to_set() =~= t0.to_set().insert(items@[i as int]@)) by {
                    assert forall|x: Seq<char>| t1.to_set().contains(x) <==> t0.to_set().insert(
                        items@[i as int]@,
                    ).contains(x) by {
                        if t1.contains(x) {
                            let j = choose|j: int| 0 <= j < t1.len() && t1[j] == x;
                            if j < t0.len() {
                                assert(t0[j] == x);
                            }
                        }
                        if t0.contains(x) {
                            let j = choose|j: int| 0 <= j < t0.len() && t0[j] == x;
                            assert(t1[j] == x);
                        }
                        if x == items@[i as int]@ {
                            assert(t1[i as int] == x);
                        }
                    }
                }
            }
            i = i + 1;
        }
        assert(string_views(items@).take(n as int) =~= string_views(items@));
        set
    }
}

impl Clone for StringSet {
    fn clone(&self) -> (r: StringSet)
        ensures
            r@ == self@,
            r.entries() == self.entries(),
    {
        proof {
            use_type_invariant(self);
        }
        let items = self.to_vec();
        StringSet { items }
    }
}

} // verus!
