//! A small map from account names to values, kept as a list of entries in
//! which no account occurs twice.

use vstd::prelude::*;

verus! {

/// The account names of a list of entries, in order.
pub open spec fn entry_keys<V>(s: Seq<(Seq<char>, V)>) -> Seq<Seq<char>> {
    s.map_values(|e: (Seq<char>, V)| e.0)
}

/// No account name occurs twice in the entries.
pub open spec fn keys_distinct<V>(s: Seq<(Seq<char>, V)>) -> bool {
    forall|i: int, j: int|
        0 <= i < s.len() && 0 <= j < s.len() && i != j ==> #[trigger] s[i].0 != #[trigger] s[j].0
}

/// An index of an entry named `k`, when there is one.
pub open spec fn entry_index<V>(s: Seq<(Seq<char>, V)>, k: Seq<char>) -> int {
    choose|i: int| 0 <= i < s.len() && #[trigger] s[i].0 == k
}

/// The map that a list of entries with distinct names stands for.
pub open spec fn entries_to_map<V>(s: Seq<(Seq<char>, V)>) -> Map<Seq<char>, V> {
    Map::new(
        |k: Seq<char>| exists|i: int| 0 <= i < s.len() && #[trigger] s[i].0 == k,
        |k: Seq<char>| s[entry_index(s, k)].1,
    )
}

/// With distinct names, the entry at index `i` is what the map holds for its name.
pub proof fn lemma_entry_in_map<V>(s: Seq<(Seq<char>, V)>, i: int)
    requires
        keys_distinct(s),
        0 <= i < s.len(),
    ensures
        entries_to_map(s).contains_key(s[i].0),
        entries_to_map(s)[s[i].0] == s[i].1,
{
    let k = s[i].0;
    assert(exists|j: int| 0 <= j < s.len() && #[trigger] s[j].0 == k);
    let j = choose|j: int| 0 <= j < s.len() && #[trigger] s[j].0 == k;
    assert(j == i);
}

/// What the map holds for a name is the value of some entry with that name.
pub proof fn lemma_map_value_from_entry<V>(s: Seq<(Seq<char>, V)>, k: Seq<char>) -> (j: int)
    requires
        entries_to_map(s).contains_key(k),
    ensures
        0 <= j < s.len(),
        s[j].0 == k,
        entries_to_map(s)[k] == s[j].1,
{
    entry_index(s, k)
}

/// With distinct names the map has as many keys as there are entries.
pub proof fn lemma_map_size<V>(s: Seq<(Seq<char>, V)>)
    requires
        keys_distinct(s),
    ensures
        entries_to_map(s).dom().finite(),
        entries_to_map(s).dom().len() == s.len(),
{
    let keys = entry_keys(s);
    assert(keys.no_duplicates()) by {
        assert forall|i: int, j: int| 0 <= i < keys.len() && 0 <= j < keys.len() && i != j implies keys[i] != keys[j] by {
            assert(keys[i] == s[i].0);
            assert(keys[j] == s[j].0);
        }
    }
    keys.unique_seq_to_set();
    vstd::seq_lib::seq_to_set_is_finite(keys);
    assert forall|k: Seq<char>| entries_to_map(s).dom().contains(k) <==> keys.to_set().contains(k) by {
        if entries_to_map(s).dom().contains(k) {
            let j = choose|j: int| 0 <= j < s.len() && #[trigger] s[j].0 == k;
            assert(keys[j] == k);
        }
        if keys.to_set().contains(k) {
            let j = choose|j: int| 0 <= j < keys.len() && keys[j] == k;
            assert(s[j].0 == k);
        }
    }
    assert(entries_to_map(s).dom() =~= keys.to_set());
}

/// A name that no entry carries is not in the map.
pub proof fn lemma_absent_from_map<V>(s: Seq<(Seq<char>, V)>, k: Seq<char>)
    requires
        forall|i: int| 0 <= i < s.len() ==> #[trigger] s[i].0 != k,
    ensures
        !entries_to_map(s).contains_key(k),
{
}

/// Replacing the value of an existing entry keeps the names distinct and
/// updates the map at that name.
pub proof fn lemma_update_entry<V>(s: Seq<(Seq<char>, V)>, i: int, k: Seq<char>, v: V)
    requires
        keys_distinct(s),
        0 <= i < s.len(),
        s[i].0 == k,
    ensures
        keys_distinct(s.update(i, (k, v))),
        entries_to_map(s.update(i, (k, v))) == entries_to_map(s).insert(k, v),
{
    let t = s.update(i, (k, v));
    assert forall|a: int, b: int|
        0 <= a < t.len() && 0 <= b < t.len() && a != b implies #[trigger] t[a].0 != #[trigger] t[b].0 by {
        assert(t[a].0 == s[a].0);
        assert(t[b].0 == s[b].0);
    }
    let m = entries_to_map(s).insert(k, v);
    assert forall|key: Seq<char>| #[trigger] entries_to_map(t).contains_key(key) <==> m.contains_key(key) by {
        if m.contains_key(key) {
            if key == k {
                assert(t[i].0 == key);
            } else {
                let j = choose|j: int| 0 <= j < s.len() && #[trigger] s[j].0 == key;
                assert(t[j].0 == key);
            }
        }
        if entries_to_map(t).contains_key(key) {
            let j = choose|j: int| 0 <= j < t.len() && #[trigger] t[j].0 == key;
            assert(s[j].0 == key);
        }
    }
    assert forall|key: Seq<char>| #[trigger] entries_to_map(t).contains_key(key) implies entries_to_map(t)[key] == m[key] by {
        let j = choose|j: int| 0 <= j < t.len() && #[trigger] t[j].0 == key;
        lemma_entry_in_map(t, j);
        if j != i {
            assert(s[j].0 == key);
            lemma_entry_in_map(s, j);
        }
    }
    assert(entries_to_map(t) =~= m);
}

/// Adding an entry under a new name keeps the names distinct and adds that
/// name to the map.
pub proof fn lemma_push_entry<V>(s: Seq<(Seq<char>, V)>, k: Seq<char>, v: V)
    requires
        keys_distinct(s),
        forall|i: int| 0 <= i < s.len() ==> #[trigger] s[i].0 != k,
    ensures
        keys_distinct(s.push((k, v))),
        entries_to_map(s.push((k, v))) == entries_to_map(s).insert(k, v),
{
    let t = s.push((k, v));
    let n = s.len() as int;
    assert forall|a: int, b: int|
        0 <= a < t.len() && 0 <= b < t.len() && a != b implies #[trigger] t[a].0 != #[trigger] t[b].0 by {
        if a < n {
            assert(t[a].0 == s[a].0);
        }
        if b < n {
            assert(t[b].0 == s[b].0);
        }
    }
    let m = entries_to_map(s).insert(k, v);
    assert forall|key: Seq<char>| #[trigger] entries_to_map(t).contains_key(key) <==> m.contains_key(key) by {
        if m.contains_key(key) {
            if key == k {
                assert(t[n].0 == key);
            } else {
                let j = choose|j: int| 0 <= j < s.len() && #[trigger] s[j].0 == key;
                assert(t[j].0 == key);
            }
        }
        if entries_to_map(t).contains_key(key) && key != k {
            let j = choose|j: int| 0 <= j < t.len() && #[trigger] t[j].0 == key;
            assert(s[j].0 == key);
        }
    }
    assert forall|key: Seq<char>| #[trigger] entries_to_map(t).contains_key(key) implies entries_to_map(t)[key] == m[key] by {
        let j = choose|j: int| 0 <= j < t.len() && #[trigger] t[j].0 == key;
        lemma_entry_in_map(t, j);
        if j != n {
            assert(s[j].0 == key);
            lemma_entry_in_map(s, j);
        }
    }
    assert(entries_to_map(t) =~= m);
}

/// Map from account names to values; no account occurs twice.
pub struct AccountMap<V> {
    entries: Vec<(String, V)>,
}

impl<V> AccountMap<V> {
    /// The entries with each name taken by its characters.
    pub closed spec fn entry_seq(self) -> Seq<(Seq<char>, V)> {
        self.entries@.map_values(|e: (String, V)| (e.0@, e.1))
    }

    /// The entries never name an account twice.
    #[verifier::type_invariant]
    pub open spec fn names_distinct(self) -> bool {
        keys_distinct(self.entry_seq())
    }
}

impl<V> View for AccountMap<V> {
    type V = Map<Seq<char>, V>;

    open spec fn view(&self) -> Map<Seq<char>, V> {
        entries_to_map(self.entry_seq())
    }
}

impl<V: Copy> AccountMap<V> {
    /// An empty map.
    pub fn new() -> (r: Self)
        ensures
            r.entry_seq() == Seq::<(Seq<char>, V)>::empty(),
            r@ == Map::<Seq<char>, V>::empty(),
    {
        let r = AccountMap { entries: Vec::new() };
        assert(r.entry_seq() =~= Seq::<(Seq<char>, V)>::empty());
        assert(r@ =~= Map::<Seq<char>, V>::empty());
        r
    }

    /// Number of accounts in the map.
    pub fn len(&self) -> (r: usize)
        ensures
            r == self.entry_seq().len(),
            r == self@.dom().len(),
            self@.dom().finite(),
    {
        proof {
            use_type_invariant(self);
            lemma_map_size(self.entry_seq());
        }
        self.entries.len()
    }

    /// The name and value of the entry at index `i`.
    pub fn entry_at(&self, i: usize) -> (r: (&String, V))
        requires
            i < self.entry_seq().len(),
        ensures
            r.0@ == self.entry_seq()[i as int].0,
            r.1 == self.entry_seq()[i as int].1,
    {
        let e = &self.entries[i];
        (&e.0, e.1)
    }

    /// Index of the entry for `k`, if there is one.
    pub fn position(&self, k: &str) -> (r: Option<usize>)
        ensures
            match r {
                Some(i) => i < self.entry_seq().len() && self.entry_seq()[i as int].0 == k@,
                None => forall|i: int|
                    0 <= i < self.entry_seq().len() ==> #[trigger] self.entry_seq()[i].0 != k@,
            },
    {
        let key = String::from_str(k);
        let n = self.entries.len();
        let mut i: usize = 0;
        while i < n
            invariant
                n == self.entry_seq().len(),
                i <= n,
                forall|j: int| 0 <= j < i ==> #[trigger] self.entry_seq()[j].0 != k@,
                key@ == k@,
            decreases n - i,
        {
            if self.entries[i].0 == key {
                return Some(i);
            }
            i = i + 1;
        }
        None
    }

    /// The value held for `k`, if any.
    pub fn get(&self, k: &str) -> (r: Option<V>)
        ensures
            match r {
                Some(v) => self@.contains_key(k@) && v == self@[k@],
                None => !self@.contains_key(k@),
            },
    {
        proof {
            use_type_invariant(self);
        }
        match self.position(k) {
            Some(i) => {
                proof {
                    lemma_entry_in_map(self.entry_seq(), i as int);
                }
                Some(self.entries[i].1)
            },
            None => {
                proof {
                    lemma_absent_from_map(self.entry_seq(), k@);
                }
                None
            },
        }
    }

    /// Sets the value for `k`: the entry of `k` is updated in place, or a new
    /// entry is added at the end.
    pub fn insert(&mut self, k: String, v: V)
        ensures
            final(self)@ == old(self)@.insert(k@, v),
            match old(self).position_spec(k@) {
                Some(i) => final(self).entry_seq() == old(self).entry_seq().update(i, (k@, v)),
                None => final(self).entry_seq() == old(self).entry_seq().push((k@, v)),
            },
    {
        proof {
            use_type_invariant(&*self);
        }
        let ghost old_seq = self.entry_seq();
        let ghost old_map = self@;
        let pos = self.position(k.as_str());
        let mut entries: Vec<(String, V)> = Vec::new();
        std::mem::swap(&mut entries, &mut self.entries);
        assert(entries@.map_values(|e: (String, V)| (e.0@, e.1)) =~= old_seq);
        match pos {
            Some(i) => {
                proof {
                    assert(old(self).position_spec(k@) == Some(i as int)) by {
                        old(self).lemma_position_spec(k@, i as int);
                    }
                }
                proof {
                    lemma_update_entry(old_seq, i as int, k@, v);
                }
                entries.set(i, (k, v));
                assert(entries@.map_values(|e: (String, V)| (e.0@, e.1)) =~= old_seq.update(
                    i as int,
                    (k@, v),
                ));
            },
            None => {
                proof {
                    assert(old(self).position_spec(k@) is None);
                }
                proof {
                    lemma_push_entry(old_seq, k@, v);
                }
                entries.push((k, v));
                assert(entries@.map_values(|e: (String, V)| (e.0@, e.1)) =~= old_seq.push((k@, v)));
            },
        }
        self.entries = entries;
    }
}

impl<V> AccountMap<V> {
    /// Index of the entry named `k`, if any.
    pub open spec fn position_spec(self, k: Seq<char>) -> Option<int> {
        if exists|i: int| 0 <= i < self.entry_seq().len() && #[trigger] self.entry_seq()[i].0 == k {
            Some(choose|i: int| 0 <= i < self.entry_seq().len() && #[trigger] self.entry_seq()[i].0 == k)
        } else {
            None
        }
    }

    /// The index found by `position_spec` is the only one with that name.
    pub proof fn lemma_position_spec(self, k: Seq<char>, i: int)
        requires
            keys_distinct(self.entry_seq()),
            0 <= i < self.entry_seq().len(),
            self.entry_seq()[i].0 == k,
        ensures
            self.position_spec(k) == Some(i),
    {
        let s = self.entry_seq();
        let j = choose|j: int| 0 <= j < s.len() && #[trigger] s[j].0 == k;
        assert(j == i);
    }
}

} // verus!
