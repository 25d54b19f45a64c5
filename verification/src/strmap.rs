//! A map keyed by strings, kept as a list of distinct keys with their values.
use vstd::prelude::*;

verus! {

/// The map described by a list of entries, later entries overriding earlier ones.
pub open spec fn map_of<V>(s: Seq<(String, V)>) -> Map<Seq<char>, V>
    decreases s.len(),
{
    if s.len() == 0 {
        Map::empty()
    } else {
        map_of(s.drop_last()).insert(s.last().0@, s.last().1)
    }
}

/// No key occurs twice in the list.
pub open spec fn keys_distinct<V>(s: Seq<(String, V)>) -> bool {
    forall|i: int, j: int| 0 <= i < s.len() && 0 <= j < s.len() && i != j ==> s[i].0@ != s[j].0@
}

/// The keys of the list, in order.
pub open spec fn keys_of<V>(s: Seq<(String, V)>) -> Seq<Seq<char>> {
    s.map_values(|e: (String, V)| e.0@)
}

pub proof fn lemma_map_of_dom<V>(s: Seq<(String, V)>, k: Seq<char>)
    ensures
        map_of(s).dom().contains(k) <==> exists|i: int| 0 <= i < s.len() && #[trigger] s[i].0@ == k,
    decreases s.len(),
{
    if s.len() > 0 {
        lemma_map_of_dom(s.drop_last(), k);
        if map_of(s).dom().contains(k) {
            if s.last().0@ != k {
                let i = choose|i: int| 0 <= i < s.drop_last().len() && #[trigger] s.drop_last()[i].0@ == k;
                assert(s[i].0@ == k);
            } else {
                assert(s[s.len() - 1].0@ == k);
            }
        }
        if exists|i: int| 0 <= i < s.len() && #[trigger] s[i].0@ == k {
            let i = choose|i: int| 0 <= i < s.len() && #[trigger] s[i].0@ == k;
            if i < s.len() - 1 {
                assert(s.drop_last()[i].0@ == k);
            }
        }
    }
}

pub proof fn lemma_map_of_value<V>(s: Seq<(String, V)>, i: int)
    requires
        keys_distinct(s),
        0 <= i < s.len(),
    ensures
        map_of(s).dom().contains(s[i].0@),
        map_of(s)[s[i].0@] == s[i].1,
    decreases s.len(),
{
    lemma_map_of_dom(s, s[i].0@);
    if i < s.len() - 1 {
        let t = s.drop_last();
        assert(keys_distinct(t));
        assert(t[i] == s[i]);
        lemma_map_of_value(t, i);
        assert(s.last().0@ != s[i].0@);
    }
}

pub proof fn lemma_map_of_len<V>(s: Seq<(String, V)>)
    requires
        keys_distinct(s),
    ensures
        map_of(s).dom().finite(),
        map_of(s).dom().len() == s.len(),
    decreases s.len(),
{
    if s.len() > 0 {
        let t = s.drop_last();
        assert(keys_distinct(t));
        lemma_map_of_len(t);
        lemma_map_of_dom(t, s.last().0@);
        assert(!map_of(t).dom().contains(s.last().0@));
    }
}

/// Replacing the value of an entry of a list of distinct keys replaces the
/// value under its key.
pub proof fn lemma_map_of_update<V>(s: Seq<(String, V)>, i: int, v: V)
    requires
        keys_distinct(s),
        0 <= i < s.len(),
    ensures
        keys_distinct(s.update(i, (s[i].0, v))),
        map_of(s.update(i, (s[i].0, v))) == map_of(s).insert(s[i].0@, v),
{
    let t = s.update(i, (s[i].0, v));
    assert(keys_distinct(t)) by {
        assert forall|a: int, b: int| 0 <= a < t.len() && 0 <= b < t.len() && a != b implies t[a].0@ != t[b].0@ by {
            assert(t[a].0@ == s[a].0@);
            assert(t[b].0@ == s[b].0@);
        }
    }
    assert forall|key: Seq<char>| #[trigger] map_of(t).dom().contains(key) <==> map_of(s).insert(
        s[i].0@,
        v,
    ).dom().contains(key) by {
        lemma_map_of_dom(t, key);
        lemma_map_of_dom(s, key);
        if map_of(t).dom().contains(key) {
            let j = choose|j: int| 0 <= j < t.len() && #[trigger] t[j].0@ == key;
            assert(s[j].0@ == key);
        }
        if map_of(s).dom().contains(key) {
            let j = choose|j: int| 0 <= j < s.len() && #[trigger] s[j].0@ == key;
            assert(t[j].0@ == key);
        }
        if key == s[i].0@ {
            assert(t[i].0@ == key);
        }
    }
    assert forall|key: Seq<char>| #[trigger] map_of(t).dom().contains(key) implies map_of(t)[key] == map_of(
        s,
    ).insert(s[i].0@, v)[key] by {
        lemma_map_of_dom(t, key);
        let j = choose|j: int| 0 <= j < t.len() && #[trigger] t[j].0@ == key;
        lemma_map_of_value(t, j);
        if j != i {
            assert(t[j] == s[j]);
            lemma_map_of_value(s, j);
        }
    }
    assert(map_of(t) =~= map_of(s).insert(s[i].0@, v));
}

/// A finite map from strings to values.
pub struct StrMap<V> {
    pub entries: Vec<(String, V)>,
}

impl<V> View for StrMap<V> {
    type V = Map<Seq<char>, V>;

    open spec fn view(&self) -> Map<Seq<char>, V> {
        map_of(self.entries@)
    }
}

impl<V> StrMap<V> {
    /// Well-formedness: every key occurs once.
    pub open spec fn wf(&self) -> bool {
        keys_distinct(self.entries@)
    }

    /// The keys, in the order in which they were first inserted.
    pub open spec fn key_seq(&self) -> Seq<Seq<char>> {
        keys_of(self.entries@)
    }

    /// An empty map.
    pub fn new() -> (m: Self)
        ensures
            m.wf(),
            m@ == Map::<Seq<char>, V>::empty(),
            m.entries@.len() == 0,
    {
        StrMap { entries: Vec::new() }
    }

    /// Position of `k` in the list of entries, if it is a key.
    pub fn find(&self, k: &String) -> (res: Option<usize>)
        requires
            self.wf(),
        ensures
            match res {
                Some(i) => i < self.entries@.len() && self.entries@[i as int].0@ == k@,
                None => !self@.dom().contains(k@),
            },
            res is Some <==> self@.dom().contains(k@),
    {
        let mut i: usize = 0;
        while i < self.entries.len()
            invariant
                i <= self.entries@.len(),
                forall|j: int| 0 <= j < i ==> self.entries@[j].0@ != k@,
            decreases self.entries@.len() - i,
        {
            if self.entries[i].0 == *k {
                proof {
                    lemma_map_of_dom(self.entries@, k@);
                }
                return Some(i);
            }
            i = i + 1;
        }
        proof {
            lemma_map_of_dom(self.entries@, k@);
        }
        None
    }

    /// Whether `k` is a key.
    pub fn contains_key(&self, k: &String) -> (res: bool)
        requires
            self.wf(),
        ensures
            res == self@.dom().contains(k@),
    {
        self.find(k).is_some()
    }

    /// The value stored under `k`, if any.
    pub fn get(&self, k: &String) -> (res: Option<&V>)
        requires
            self.wf(),
        ensures
            match res {
                Some(v) => self@.dom().contains(k@) && self@[k@] == *v,
                None => !self@.dom().contains(k@),
            },
    {
        match self.find(k) {
            Some(i) => {
                proof {
                    lemma_map_of_value(self.entries@, i as int);
                }
                Some(&self.entries[i].1)
            },
            None => None,
        }
    }

    /// Number of keys.
    pub fn len(&self) -> (res: usize)
        requires
            self.wf(),
        ensures
            res == self@.dom().len(),
    {
        proof {
            lemma_map_of_len(self.entries@);
        }
        self.entries.len()
    }

    /// Stores `v` under `k`, replacing any earlier value. A new key goes last.
    pub fn insert(&mut self, k: String, v: V)
        requires
            old(self).wf(),
        ensures
            final(self).wf(),
            final(self)@ == old(self)@.insert(k@, v),
            old(self)@.dom().contains(k@) ==> final(self).key_seq() == old(self).key_seq(),
            !old(self)@.dom().contains(k@) ==> final(self).key_seq() == old(self).key_seq().push(k@),
            !old(self)@.dom().contains(k@) ==> final(self).entries@ == old(self).entries@.push((k, v)),
    {
        let ghost old_entries = self.entries@;
        let ghost kv = k@;
        match self.find(&k) {
            Some(i) => {
                self.entries.set(i, (k, v));
                proof {
                    let s = self.entries@;
                    assert(keys_distinct(s));
                    assert forall|key: Seq<char>| #[trigger] map_of(s).dom().contains(key)
                        <==> map_of(old_entries).insert(kv, v).dom().contains(key) by {
                        lemma_map_of_dom(s, key);
                        lemma_map_of_dom(old_entries, key);
                        if key == kv {
                            assert(s[i as int].0@ == key);
                        } else if map_of(old_entries).dom().contains(key) {
                            let j = choose|j: int| 0 <= j < old_entries.len() && #[trigger] old_entries[j].0@ == key;
                            assert(s[j].0@ == key);
                        } else if map_of(s).dom().contains(key) {
                            let j = choose|j: int| 0 <= j < s.len() && #[trigger] s[j].0@ == key;
                            assert(old_entries[j].0@ == key);
                        }
                    }
                    assert forall|key: Seq<char>| #[trigger] map_of(s).dom().contains(key)
                        implies map_of(s)[key] == map_of(old_entries).insert(kv, v)[key] by {
                        lemma_map_of_dom(s, key);
                        let j = choose|j: int| 0 <= j < s.len() && #[trigger] s[j].0@ == key;
                        lemma_map_of_value(s, j);
                        if j != i {
                            assert(old_entries[j] == s[j]);
                            lemma_map_of_value(old_entries, j);
                        }
                    }
                    assert(map_of(s) =~= map_of(old_entries).insert(kv, v));
                    assert(keys_of(s) =~= keys_of(old_entries));
                }
            },
            None => {
                self.entries.push((k, v));
                proof {
                    let s = self.entries@;
                    assert(s.drop_last() =~= old_entries);
                    assert forall|a: int, b: int| 0 <= a < s.len() && 0 <= b < s.len() && a != b
                        implies s[a].0@ != s[b].0@ by {
                        if a == s.len() - 1 {
                            lemma_map_of_dom(old_entries, kv);
                            assert(old_entries[b].0@ == s[b].0@);
                        } else if b == s.len() - 1 {
                            lemma_map_of_dom(old_entries, kv);
                            assert(old_entries[a].0@ == s[a].0@);
                        }
                    }
                    assert(keys_of(s) =~= keys_of(old_entries).push(kv));
                }
            },
        }
    }

    /// The value of the entry at `i`, to change in place.
    pub fn value_at_mut(&mut self, i: usize) -> (r: &mut V)
        requires
            i < old(self).entries@.len(),
        ensures
            *r == old(self).entries@[i as int].1,
            final(self).entries@ == old(self).entries@.update(i as int, (old(self).entries@[i as int].0, *final(r))),
    {
        &mut self.entries[i].1
    }

    /// Replaces the value of the entry at `i`.
    pub fn set_value_at(&mut self, i: usize, v: V)
        requires
            old(self).wf(),
            i < old(self).entries@.len(),
        ensures
            final(self).wf(),
            final(self).entries@ == old(self).entries@.update(i as int, (old(self).entries@[i as int].0, v)),
            final(self)@ == old(self)@.insert(old(self).entries@[i as int].0@, v),
    {
        let ghost old_entries = self.entries@;
        let r = self.value_at_mut(i);
        *r = v;
        proof {
            lemma_map_of_update(old_entries, i as int, v);
        }
    }

    /// The keys, in order.
    pub fn keys(&self) -> (res: Vec<String>)
        ensures
            res@.len() == self.entries@.len(),
            forall|j: int| 0 <= j < res@.len() ==> #[trigger] res@[j]@ == self.entries@[j].0@,
    {
        let mut out: Vec<String> = Vec::new();
        let mut i: usize = 0;
        while i < self.entries.len()
            invariant
                i <= self.entries@.len(),
                out@.len() == i,
                forall|j: int| 0 <= j < i ==> #[trigger] out@[j]@ == self.entries@[j].0@,
            decreases self.entries@.len() - i,
        {
            out.push(self.entries[i].0.clone());
            i = i + 1;
        }
        out
    }

    /// Removes `k` and its value, if present.
    pub fn remove(&mut self, k: &String)
        requires
            old(self).wf(),
        ensures
            final(self).wf(),
            final(self)@ == old(self)@.remove(k@),
            !old(self)@.dom().contains(k@) ==> final(self).entries@ == old(self).entries@,
            old(self)@.dom().contains(k@) ==> exists|i: int| 0 <= i < old(self).entries@.len()
                && #[trigger] old(self).entries@[i].0@ == k@ && final(self).entries@ == old(self).entries@.remove(i),
    {
        let ghost old_entries = self.entries@;
        match self.find(k) {
            Some(i) => {
                self.entries.remove(i);
                proof {
                    let s = self.entries@;
                    assert(s =~= old_entries.remove(i as int));
                    assert(keys_distinct(s)) by {
                        assert forall|a: int, b: int| 0 <= a < s.len() && 0 <= b < s.len() && a != b
                            implies s[a].0@ != s[b].0@ by {
                            let a2 = if a < i { a } else { a + 1 };
                            let b2 = if b < i { b } else { b + 1 };
                            assert(s[a] == old_entries[a2]);
                            assert(s[b] == old_entries[b2]);
                        }
                    }
                    assert forall|key: Seq<char>| #[trigger] map_of(s).dom().contains(key)
                        <==> map_of(old_entries).remove(k@).dom().contains(key) by {
                        lemma_map_of_dom(s, key);
                        lemma_map_of_dom(old_entries, key);
                        if map_of(s).dom().contains(key) {
                            let j = choose|j: int| 0 <= j < s.len() && #[trigger] s[j].0@ == key;
                            let j2 = if j < i { j } else { j + 1 };
                            assert(old_entries[j2] == s[j]);
                            assert(j2 != i);
                        }
                        if key != k@ && map_of(old_entries).dom().contains(key) {
                            let j = choose|j: int| 0 <= j < old_entries.len() && #[trigger] old_entries[j].0@ == key;
                            assert(j != i);
                            let j3 = if j < i { j } else { j - 1 };
                            assert(s[j3] == old_entries[j]);
                        }
                    }
                    assert forall|key: Seq<char>| #[trigger] map_of(s).dom().contains(key)
                        implies map_of(s)[key] == map_of(old_entries).remove(k@)[key] by {
                        lemma_map_of_dom(s, key);
                        let j = choose|j: int| 0 <= j < s.len() && #[trigger] s[j].0@ == key;
                        let j2 = if j < i { j } else { j + 1 };
                        assert(old_entries[j2] == s[j]);
                        lemma_map_of_value(s, j);
                        lemma_map_of_value(old_entries, j2);
                    }
                    assert(map_of(s) =~= map_of(old_entries).remove(k@));
                    assert(old_entries[i as int].0@ == k@);
                }
            },
            None => {
                assert(self@ =~= old(self)@.remove(k@));
            },
        }
    }
}

impl<V: Copy> StrMap<V> {
    /// A copy of the map.
    pub fn copy(&self) -> (res: Self)
        requires
            self.wf(),
        ensures
            res.wf(),
            res@ == self@,
            res.key_seq() == self.key_seq(),
            res.entries@ == self.entries@,
    {
        let mut entries: Vec<(String, V)> = Vec::new();
        let mut i: usize = 0;
        while i < self.entries.len()
            invariant
                i <= self.entries@.len(),
                entries@.len() == i,
                forall|j: int| 0 <= j < i ==> #[trigger] entries@[j] == self.entries@[j],
            decreases self.entries@.len() - i,
        {
            let k = self.entries[i].0.clone();
            let v = self.entries[i].1;
            entries.push((k, v));
            i = i + 1;
        }
        assert(entries@ =~= self.entries@);
        StrMap { entries }
    }
}

} // verus!
