use vstd::prelude::*;

verus! {

/// One keyed record.
pub struct Record<V> {
    pub key: String,
    pub value: V,
}

/// A keyed collection in which no key occurs twice; new keys go to the end.
pub struct Records<V> {
    entries: Vec<Record<V>>,
}

/// No key occurs twice in `s`.
pub open spec fn distinct_keys<V>(s: Seq<Record<V>>) -> bool {
    forall|i: int, j: int| 0 <= i < j < s.len() ==> s[i].key@ != s[j].key@
}

/// `k` is the key of some record of `s`.
pub open spec fn has_key<V>(s: Seq<Record<V>>, k: Seq<char>) -> bool {
    exists|i: int| 0 <= i < s.len() && #[trigger] s[i].key@ == k
}

/// A place in `s` where `k` is the key, if there is one.
pub open spec fn place_of<V>(s: Seq<Record<V>>, k: Seq<char>) -> int {
    choose|i: int| 0 <= i < s.len() && #[trigger] s[i].key@ == k
}

/// The map from each key of `s` to the value recorded under it.
pub open spec fn as_map<V>(s: Seq<Record<V>>) -> Map<Seq<char>, V> {
    Map::new(|k: Seq<char>| has_key(s, k), |k: Seq<char>| s[place_of(s, k)].value)
}

proof fn lemma_place<V>(s: Seq<Record<V>>, i: int)
    requires
        distinct_keys(s),
        0 <= i < s.len(),
    ensures
        has_key(s, s[i].key@),
        place_of(s, s[i].key@) == i,
        as_map(s).contains_key(s[i].key@),
        as_map(s)[s[i].key@] == s[i].value,
{
    let k = s[i].key@;
    assert(s[i].key@ == k);
    let j = place_of(s, k);
    assert(0 <= j < s.len() && s[j].key@ == k);
    if j != i {
        if j < i {
            assert(s[j].key@ != s[i].key@);
        } else {
            assert(s[i].key@ != s[j].key@);
        }
    }
}

proof fn lemma_push<V>(s: Seq<Record<V>>, r: Record<V>)
    requires
        distinct_keys(s),
        !has_key(s, r.key@),
    ensures
        distinct_keys(s.push(r)),
        as_map(s.push(r)) == as_map(s).insert(r.key@, r.value),
{
    let t = s.push(r);
    assert forall|i: int, j: int| 0 <= i < j < t.len() implies t[i].key@ != t[j].key@ by {
        if j == s.len() {
            assert(s[i].key@ == t[i].key@);
        } else {
            assert(s[i].key@ != s[j].key@);
        }
    }
    assert forall|k: Seq<char>| has_key(t, k) <==> (has_key(s, k) || k == r.key@) by {
        if has_key(t, k) {
            let i = place_of(t, k);
            if i < s.len() {
                assert(s[i].key@ == k);
            }
        }
        if has_key(s, k) {
            let i = place_of(s, k);
            assert(t[i].key@ == k);
        }
        if k == r.key@ {
            assert(t[s.len() as int].key@ == k);
        }
    }
    assert forall|k: Seq<char>| has_key(t, k) implies #[trigger] as_map(t)[k] == as_map(s).insert(
        r.key@,
        r.value,
    )[k] by {
        if k == r.key@ {
            lemma_place(t, s.len() as int);
        } else {
            let i = place_of(s, k);
            lemma_place(s, i);
            assert(t[i] == s[i]);
            lemma_place(t, i);
        }
    }
    assert(as_map(t) =~= as_map(s).insert(r.key@, r.value));
}

proof fn lemma_update<V>(s: Seq<Record<V>>, i: int, r: Record<V>)
    requires
        distinct_keys(s),
        0 <= i < s.len(),
        r.key@ == s[i].key@,
    ensures
        distinct_keys(s.update(i, r)),
        as_map(s.update(i, r)) == as_map(s).insert(r.key@, r.value),
{
    let t = s.update(i, r);
    assert forall|a: int, b: int| 0 <= a < b < t.len() implies t[a].key@ != t[b].key@ by {
        assert(s[a].key@ != s[b].key@);
        assert(t[a].key@ == s[a].key@);
        assert(t[b].key@ == s[b].key@);
    }
    assert forall|k: Seq<char>| has_key(t, k) <==> has_key(s, k) by {
        if has_key(t, k) {
            let j = place_of(t, k);
            assert(s[j].key@ == k);
        }
        if has_key(s, k) {
            let j = place_of(s, k);
            assert(t[j].key@ == k);
        }
    }
    lemma_place(s, i);
    assert forall|k: Seq<char>| has_key(t, k) implies #[trigger] as_map(t)[k] == as_map(s).insert(
        r.key@,
        r.value,
    )[k] by {
        if k == r.key@ {
            lemma_place(t, i);
        } else {
            let j = place_of(s, k);
            lemma_place(s, j);
            assert(t[j] == s[j]);
            lemma_place(t, j);
        }
    }
    assert(as_map(t) =~= as_map(s).insert(r.key@, r.value));
}

proof fn lemma_remove<V>(s: Seq<Record<V>>, i: int)
    requires
        distinct_keys(s),
        0 <= i < s.len(),
    ensures
        distinct_keys(s.remove(i)),
        as_map(s.remove(i)) == as_map(s).remove(s[i].key@),
{
    let t = s.remove(i);
    let key = s[i].key@;
    assert forall|a: int, b: int| 0 <= a < b < t.len() implies t[a].key@ != t[b].key@ by {
        let a0 = if a < i { a } else { a + 1 };
        let b0 = if b < i { b } else { b + 1 };
        assert(t[a] == s[a0]);
        assert(t[b] == s[b0]);
        assert(s[a0].key@ != s[b0].key@);
    }
    assert forall|k: Seq<char>| has_key(t, k) <==> (has_key(s, k) && k != key) by {
        if has_key(t, k) {
            let j = place_of(t, k);
            let j0 = if j < i { j } else { j + 1 };
            assert(t[j] == s[j0]);
            assert(s[j0].key@ == k);
            if j0 < i {
                assert(s[j0].key@ != s[i].key@);
            } else {
                assert(s[i].key@ != s[j0].key@);
            }
        }
        if has_key(s, k) && k != key {
            let j = place_of(s, k);
            let j1 = if j < i { j } else { j - 1 };
            assert(t[j1] == s[j]);
            assert(t[j1].key@ == k);
        }
    }
    assert forall|k: Seq<char>| has_key(t, k) implies #[trigger] as_map(t)[k] == as_map(s).remove(
        key,
    )[k] by {
        let j = place_of(t, k);
        let j0 = if j < i { j } else { j + 1 };
        assert(t[j] == s[j0]);
        lemma_place(t, j);
        lemma_place(s, j0);
    }
    assert(as_map(t) =~= as_map(s).remove(key));
}

impl<V> Records<V> {
    #[verifier::type_invariant]
    spec fn keys_are_distinct(self) -> bool {
        distinct_keys(self.entries@)
    }
}

impl<V: Copy> Records<V> {
    /// The records in the order in which their keys first came.
    pub closed spec fn items(&self) -> Seq<Record<V>> {
        self.entries@
    }

    /// The collection as a map from key to value.
    pub open spec fn view(&self) -> Map<Seq<char>, V> {
        as_map(self.items())
    }

    /// The empty collection.
    pub fn new() -> (r: Self)
        ensures
            r.items() == Seq::<Record<V>>::empty(),
            r@ == Map::<Seq<char>, V>::empty(),
    {
        let r = Records { entries: Vec::new() };
        assert(as_map(r.entries@) =~= Map::<Seq<char>, V>::empty());
        r
    }

    /// Number of records.
    pub fn len(&self) -> (n: usize)
        ensures
            n == self.items().len(),
    {
        self.entries.len()
    }

    /// Key of the record at place `i`.
    pub fn key_at(&self, i: usize) -> (k: &String)
        requires
            i < self.items().len(),
        ensures
            k@ == self.items()[i as int].key@,
    {
        &self.entries[i].key
    }

    /// Value of the record at place `i`.
    pub fn value_at(&self, i: usize) -> (v: V)
        requires
            i < self.items().len(),
        ensures
            v == self.items()[i as int].value,
            self@.contains_key(self.items()[i as int].key@),
            self@[self.items()[i as int].key@] == v,
    {
        proof {
            use_type_invariant(self);
            lemma_place(self.entries@, i as int);
        }
        self.entries[i].value
    }

    fn find(&self, key: &String) -> (r: Option<usize>)
        ensures
            match r {
                Some(i) => i < self.entries@.len() && self.entries@[i as int].key@ == key@,
                None => !has_key(self.entries@, key@),
            },
    {
        let mut i: usize = 0;
        while i < self.entries.len()
            invariant
                i <= self.entries@.len(),
                forall|j: int| 0 <= j < i ==> self.entries@[j].key@ != key@,
            decreases self.entries@.len() - i,
        {
            if self.entries[i].key == *key {
                return Some(i);
            }
            i += 1;
        }
        None
    }

    /// The value recorded under `key`, if any.
    pub fn get(&self, key: &String) -> (r: Option<V>)
        ensures
            r == if self@.contains_key(key@) {
                Some(self@[key@])
            } else {
                None
            },
    {
        proof {
            use_type_invariant(self);
        }
        match self.find(key) {
            Some(i) => {
                proof {
                    lemma_place(self.entries@, i as int);
                }
                Some(self.entries[i].value)
            },
            None => None,
        }
    }

    /// Records `value` under `key` and gives back what stood there before. A key that is new
    /// goes to the end; one that is present keeps its place.
    pub fn insert(&mut self, key: String, value: V) -> (r: Option<V>)
        ensures
            final(self)@ == old(self)@.insert(key@, value),
            r == if old(self)@.contains_key(key@) {
                Some(old(self)@[key@])
            } else {
                None
            },
            !old(self)@.contains_key(key@) ==> final(self).items() == old(self).items().push(
                Record { key, value },
            ),
    {
        proof {
            use_type_invariant(&*self);
        }
        let found = self.find(&key);
        let mut entries = Vec::new();
        std::mem::swap(&mut entries, &mut self.entries);
        let r = match found {
            Some(i) => {
                let before = entries[i].value;
                proof {
                    lemma_place(entries@, i as int);
                    lemma_update(entries@, i as int, Record { key, value });
                }
                entries.set(i, Record { key, value });
                Some(before)
            },
            None => {
                proof {
                    lemma_push(entries@, Record { key, value });
                }
                entries.push(Record { key, value });
                None
            },
        };
        self.entries = entries;
        r
    }

    /// Takes the record under `key` out and gives its value back; the others keep their order.
    pub fn remove(&mut self, key: &String) -> (r: Option<V>)
        ensures
            final(self)@ == old(self)@.remove(key@),
            r == if old(self)@.contains_key(key@) {
                Some(old(self)@[key@])
            } else {
                None
            },
            old(self)@.contains_key(key@) ==> exists|i: int|
                0 <= i < old(self).items().len() && #[trigger] old(self).items()[i].key@ == key@
                    && old(self).items()[i].value == old(self)@[key@] && final(self).items()
                    == old(self).items().remove(i),
            !old(self)@.contains_key(key@) ==> final(self).items() == old(self).items(),
    {
        proof {
            use_type_invariant(&*self);
        }
        match self.find(key) {
            Some(i) => {
                let mut entries = Vec::new();
                std::mem::swap(&mut entries, &mut self.entries);
                proof {
                    lemma_place(entries@, i as int);
                    lemma_remove(entries@, i as int);
                }
                let taken = entries.remove(i);
                self.entries = entries;
                Some(taken.value)
            },
            None => {
                assert(old(self)@.remove(key@) =~= old(self)@);
                None
            },
        }
    }
}

} // verus!
