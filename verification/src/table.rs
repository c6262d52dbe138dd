//! A map from text keys to values, kept as a vector of entries whose keys are
//! pairwise distinct. It stands where the service keeps a `HashMap<String, _>`
//! (the tickers of a session, the sessions of the server).

use vstd::prelude::*;

verus! {

/// The map that a sequence of distinct-keyed entries stands for.
pub open spec fn map_of<V>(s: Seq<(String, V)>) -> Map<Seq<char>, V>
    decreases s.len(),
{
    if s.len() == 0 {
        Map::empty()
    } else {
        map_of(s.drop_last()).insert(s.last().0@, s.last().1)
    }
}

/// No two entries share a key.
pub open spec fn keys_distinct<V>(s: Seq<(String, V)>) -> bool {
    forall|i: int, j: int|
        0 <= i < s.len() && 0 <= j < s.len() && i != j ==> #[trigger] s[i].0@ != #[trigger] s[j].0@
}

/// A key is in the map exactly when some entry carries it, and an entry's value
/// is what the map gives for its key.
pub proof fn lemma_map_of_entries<V>(s: Seq<(String, V)>)
    requires
        keys_distinct(s),
    ensures
        forall|k: Seq<char>|
            #[trigger] map_of(s).dom().contains(k) <==> exists|i: int| 0 <= i < s.len() && s[i].0@ == k,
        forall|i: int| 0 <= i < s.len() ==> #[trigger] map_of(s)[s[i].0@] == s[i].1,
        map_of(s).dom().finite(),
        map_of(s).dom().len() == s.len(),
    decreases s.len(),
{
    if s.len() > 0 {
        let t = s.drop_last();
        assert(keys_distinct(t));
        lemma_map_of_entries(t);
        let last = s.last();
        assert(!map_of(t).dom().contains(last.0@)) by {
            if map_of(t).dom().contains(last.0@) {
                let i = choose|i: int| 0 <= i < t.len() && t[i].0@ == last.0@;
                assert(s[i].0@ == s[s.len() - 1].0@);
            }
        }
        assert forall|k: Seq<char>|
            #[trigger] map_of(s).dom().contains(k) <==> exists|i: int| 0 <= i < s.len() && s[i].0@ == k by {
            if map_of(s).dom().contains(k) {
                if k == last.0@ {
                    assert(s[s.len() - 1].0@ == k);
                } else {
                    let i = choose|i: int| 0 <= i < t.len() && t[i].0@ == k;
                    assert(s[i].0@ == k);
                }
            }
            if exists|i: int| 0 <= i < s.len() && s[i].0@ == k {
                let i = choose|i: int| 0 <= i < s.len() && s[i].0@ == k;
                if i < s.len() - 1 {
                    assert(t[i].0@ == k);
                }
            }
        }
        assert forall|i: int| 0 <= i < s.len() implies #[trigger] map_of(s)[s[i].0@] == s[i].1 by {
            if i < s.len() - 1 {
                assert(t[i] == s[i]);
                assert(s[i].0@ != last.0@);
            }
        }
    }
}

/// Taking out the entry at `i` takes its key out of the map.
pub proof fn lemma_map_of_remove<V>(s: Seq<(String, V)>, i: int)
    requires
        keys_distinct(s),
        0 <= i < s.len(),
    ensures
        keys_distinct(s.remove(i)),
        map_of(s.remove(i)) == map_of(s).remove(s[i].0@),
{
    let r = s.remove(i);
    assert(keys_distinct(r)) by {
        assert forall|a: int, b: int|
            0 <= a < r.len() && 0 <= b < r.len() && a != b implies #[trigger] r[a].0@ != #[trigger] r[b].0@ by {
            let a2 = if a < i { a } else { a + 1 };
            let b2 = if b < i { b } else { b + 1 };
            assert(r[a] == s[a2]);
            assert(r[b] == s[b2]);
        }
    }
    lemma_map_of_entries(s);
    lemma_map_of_entries(r);
    assert(map_of(r) =~= map_of(s).remove(s[i].0@)) by {
        assert forall|k: Seq<char>| #[trigger] map_of(r).dom().contains(k) <==> map_of(s).remove(s[i].0@).dom().contains(k) by {
            if map_of(r).dom().contains(k) {
                let a = choose|a: int| 0 <= a < r.len() && r[a].0@ == k;
                let a2 = if a < i { a } else { a + 1 };
                assert(r[a] == s[a2]);
            }
            if map_of(s).remove(s[i].0@).dom().contains(k) {
                let a = choose|a: int| 0 <= a < s.len() && s[a].0@ == k;
                assert(a != i);
                let a2 = if a < i { a } else { a - 1 };
                assert(r[a2] == s[a]);
            }
        }
        assert forall|k: Seq<char>| #[trigger] map_of(r).dom().contains(k) implies map_of(r)[k] == map_of(s)[k] by {
            let a = choose|a: int| 0 <= a < r.len() && r[a].0@ == k;
            let a2 = if a < i { a } else { a + 1 };
            assert(r[a] == s[a2]);
        }
    }
}

/// Replacing the value of the entry at `i` (its key kept) replaces it in the map.
pub proof fn lemma_map_of_update<V>(s: Seq<(String, V)>, i: int, e: (String, V))
    requires
        keys_distinct(s),
        0 <= i < s.len(),
        e.0@ == s[i].0@,
    ensures
        keys_distinct(s.update(i, e)),
        map_of(s.update(i, e)) == map_of(s).insert(e.0@, e.1),
{
    let u = s.update(i, e);
    assert(keys_distinct(u)) by {
        assert forall|a: int, b: int|
            0 <= a < u.len() && 0 <= b < u.len() && a != b implies #[trigger] u[a].0@ != #[trigger] u[b].0@ by {
            assert(u[a].0@ == s[a].0@);
            assert(u[b].0@ == s[b].0@);
        }
    }
    lemma_map_of_entries(s);
    lemma_map_of_entries(u);
    assert(map_of(u) =~= map_of(s).insert(e.0@, e.1)) by {
        assert forall|k: Seq<char>| #[trigger] map_of(u).dom().contains(k) <==> map_of(s).insert(e.0@, e.1).dom().contains(k) by {
            if map_of(u).dom().contains(k) {
                let a = choose|a: int| 0 <= a < u.len() && u[a].0@ == k;
                assert(s[a].0@ == k);
            }
            if map_of(s).dom().contains(k) {
                let a = choose|a: int| 0 <= a < s.len() && s[a].0@ == k;
                assert(u[a].0@ == k);
            }
            assert(u[i].0@ == e.0@);
        }
        assert forall|k: Seq<char>| #[trigger] map_of(u).dom().contains(k) implies map_of(u)[k] == map_of(s).insert(e.0@, e.1)[k] by {
            let a = choose|a: int| 0 <= a < u.len() && u[a].0@ == k;
            if a != i {
                assert(u[a] == s[a]);
            }
        }
    }
}

/// Appending an entry with a fresh key adds it to the map.
pub proof fn lemma_map_of_push<V>(s: Seq<(String, V)>, e: (String, V))
    requires
        keys_distinct(s),
        !map_of(s).dom().contains(e.0@),
    ensures
        keys_distinct(s.push(e)),
        map_of(s.push(e)) == map_of(s).insert(e.0@, e.1),
{
    lemma_map_of_entries(s);
    let p = s.push(e);
    assert(p.drop_last() =~= s);
    assert(keys_distinct(p)) by {
        assert forall|a: int, b: int|
            0 <= a < p.len() && 0 <= b < p.len() && a != b implies #[trigger] p[a].0@ != #[trigger] p[b].0@ by {
            if a == s.len() {
                assert(p[b] == s[b]);
            } else if b == s.len() {
                assert(p[a] == s[a]);
            } else {
                assert(p[a] == s[a]);
                assert(p[b] == s[b]);
            }
        }
    }
}

/// A map from text keys to values.
pub struct Table<V> {
    entries: Vec<(String, V)>,
}

impl<V> View for Table<V> {
    type V = Map<Seq<char>, V>;

    closed spec fn view(&self) -> Map<Seq<char>, V> {
        map_of(self.entries@)
    }
}

impl<V> Table<V> {
    /// The table's entries have pairwise distinct keys.
    pub closed spec fn wf(&self) -> bool {
        keys_distinct(self.entries@)
    }

    /// The well-formed table's map is finite.
    pub proof fn lemma_finite(&self)
        requires
            self.wf(),
        ensures
            self@.dom().finite(),
    {
        lemma_map_of_entries(self.entries@);
    }

    /// An empty table.
    pub fn new() -> (t: Self)
        ensures
            t.wf(),
            t@ == Map::<Seq<char>, V>::empty(),
    {
        Table { entries: Vec::new() }
    }

    /// The number of keys.
    pub fn len(&self) -> (n: usize)
        requires
            self.wf(),
        ensures
            n == self@.dom().len(),
    {
        proof {
            lemma_map_of_entries(self.entries@);
        }
        self.entries.len()
    }

    fn find(&self, key: &String) -> (r: Option<usize>)
        requires
            self.wf(),
        ensures
            match r {
                Some(i) => i < self.entries@.len() && self.entries@[i as int].0@ == key@,
                None => forall|i: int| 0 <= i < self.entries@.len() ==> self.entries@[i].0@ != key@,
            },
            r is Some <==> self@.dom().contains(key@),
    {
        proof {
            lemma_map_of_entries(self.entries@);
        }
        let mut i: usize = 0;
        while i < self.entries.len()
            invariant
                self.wf(),
                i <= self.entries@.len(),
                forall|j: int| 0 <= j < i ==> self.entries@[j].0@ != key@,
            decreases self.entries@.len() - i,
        {
            if self.entries[i].0 == *key {
                proof {
                    lemma_map_of_entries(self.entries@);
                }
                return Some(i);
            }
            i = i + 1;
        }
        None
    }

    /// Whether the key is in the table.
    pub fn contains_key(&self, key: &String) -> (r: bool)
        requires
            self.wf(),
        ensures
            r == self@.dom().contains(key@),
    {
        self.find(key).is_some()
    }

    /// The value stored under the key.
    pub fn get(&self, key: &String) -> (r: Option<&V>)
        requires
            self.wf(),
        ensures
            match r {
                Some(v) => self@.dom().contains(key@) && *v == self@[key@],
                None => !self@.dom().contains(key@),
            },
    {
        proof {
            lemma_map_of_entries(self.entries@);
        }
        match self.find(key) {
            Some(i) => Some(&self.entries[i].1),
            None => None,
        }
    }

    /// Stores `value` under `key`, handing back the value that was there.
    pub fn insert(&mut self, key: String, value: V) -> (r: Option<V>)
        requires
            old(self).wf(),
        ensures
            final(self).wf(),
            final(self)@ == old(self)@.insert(key@, value),
            match r {
                Some(v) => old(self)@.dom().contains(key@) && v == old(self)@[key@],
                None => !old(self)@.dom().contains(key@),
            },
    {
        proof {
            lemma_map_of_entries(self.entries@);
        }
        match self.find(&key) {
            Some(i) => {
                let ghost k = key@;
                let ghost s = self.entries@;
                let mut entry = (key, value);
                std::mem::swap(&mut entry, &mut self.entries[i]);
                proof {
                    lemma_map_of_update(s, i as int, self.entries@[i as int]);
                    assert(self.entries@ =~= s.update(i as int, self.entries@[i as int]));
                    assert(entry == s[i as int]);
                }
                Some(entry.1)
            },
            None => {
                proof {
                    lemma_map_of_push(self.entries@, (key, value));
                }
                self.entries.push((key, value));
                None
            },
        }
    }

    /// Takes the key out of the table, handing back its value.
    pub fn remove(&mut self, key: &String) -> (r: Option<V>)
        requires
            old(self).wf(),
        ensures
            final(self).wf(),
            final(self)@ == old(self)@.remove(key@),
            match r {
                Some(v) => old(self)@.dom().contains(key@) && v == old(self)@[key@],
                None => !old(self)@.dom().contains(key@),
            },
    {
        proof {
            lemma_map_of_entries(self.entries@);
        }
        match self.find(key) {
            Some(i) => {
                proof {
                    lemma_map_of_remove(self.entries@, i as int);
                }
                let entry = self.entries.remove(i);
                Some(entry.1)
            },
            None => {
                assert(old(self)@.remove(key@) =~= old(self)@);
                None
            },
        }
    }

    /// The keys of the table, each once.
    pub fn keys(&self) -> (r: Vec<String>)
        requires
            self.wf(),
        ensures
            r@.len() == self@.dom().len(),
            forall|i: int| 0 <= i < r@.len() ==> self@.dom().contains(#[trigger] r@[i]@),
            forall|k: Seq<char>| #[trigger] self@.dom().contains(k) ==> exists|i: int| 0 <= i < r@.len() && r@[i]@ == k,
            forall|i: int, j: int| 0 <= i < r@.len() && 0 <= j < r@.len() && i != j ==> #[trigger] r@[i]@ != #[trigger] r@[j]@,
    {
        proof {
            lemma_map_of_entries(self.entries@);
        }
        let mut r: Vec<String> = Vec::new();
        let mut i: usize = 0;
        while i < self.entries.len()
            invariant
                i <= self.entries@.len(),
                r@.len() == i,
                forall|j: int| 0 <= j < i ==> #[trigger] r@[j]@ == self.entries@[j].0@,
            decreases self.entries@.len() - i,
        {
            r.push(self.entries[i].0.clone());
            i = i + 1;
        }
        proof {
            assert forall|k: Seq<char>| #[trigger] self@.dom().contains(k) implies exists|i: int| 0 <= i < r@.len() && r@[i]@ == k by {
                let j = choose|j: int| 0 <= j < self.entries@.len() && self.entries@[j].0@ == k;
                assert(r@[j]@ == k);
            }
            assert forall|a: int| 0 <= a < r@.len() implies self@.dom().contains(#[trigger] r@[a]@) by {
                assert(r@[a]@ == self.entries@[a].0@);
            }
            assert forall|a: int, b: int| 0 <= a < r@.len() && 0 <= b < r@.len() && a != b implies #[trigger] r@[a]@ != #[trigger] r@[b]@ by {
                assert(r@[a]@ == self.entries@[a].0@);
                assert(r@[b]@ == self.entries@[b].0@);
            }
        }
        r
    }

    /// The values of the table, one for each key.
    pub fn values(&self) -> (r: Vec<&V>)
        requires
            self.wf(),
        ensures
            r@.len() == self@.dom().len(),
            forall|i: int| 0 <= i < r@.len() ==> self@.contains_value(*#[trigger] r@[i]),
            forall|k: Seq<char>| #[trigger] self@.dom().contains(k) ==> exists|i: int| 0 <= i < r@.len() && *r@[i] == self@[k],
    {
        proof {
            lemma_map_of_entries(self.entries@);
        }
        let mut r: Vec<&V> = Vec::new();
        let mut i: usize = 0;
        while i < self.entries.len()
            invariant
                i <= self.entries@.len(),
                r@.len() == i,
                forall|j: int| 0 <= j < i ==> *#[trigger] r@[j] == self.entries@[j].1,
            decreases self.entries@.len() - i,
        {
            r.push(&self.entries[i].1);
            i = i + 1;
        }
        proof {
            lemma_map_of_entries(self.entries@);
            assert forall|k: Seq<char>| #[trigger] self@.dom().contains(k) implies exists|i: int| 0 <= i < r@.len() && *r@[i] == self@[k] by {
                let j = choose|j: int| 0 <= j < self.entries@.len() && self.entries@[j].0@ == k;
                assert(*r@[j] == self.entries@[j].1);
            }
            assert forall|a: int| 0 <= a < r@.len() implies self@.contains_value(*#[trigger] r@[a]) by {
                let k = self.entries@[a].0@;
                assert(self@.dom().contains(k));
                assert(map_of(self.entries@)[self.entries@[a].0@] == self.entries@[a].1);
                assert(self@[k] == *r@[a]);
            }
        }
        r
    }
}

} // verus!
