use vstd::prelude::*;

use crate::types::KeyEq;

verus! {

/// The map that a list of writes leaves behind: a later write to a key wins.
pub closed spec fn map_of<K, V>(s: Seq<(K, V)>) -> Map<K, V>
    decreases s.len(),
{
    if s.len() == 0 {
        Map::empty()
    } else {
        map_of(s.drop_last()).insert(s.last().0, s.last().1)
    }
}

/// A key-value store: each record is owned by the table and is read and
/// written by copy.
pub struct Table<K, V> {
    entries: Vec<(K, V)>,
}

impl<K: KeyEq, V: Copy> View for Table<K, V> {
    type V = Map<K, V>;

    closed spec fn view(&self) -> Map<K, V> {
        map_of(self.entries@)
    }
}

proof fn lemma_map_of_update<K, V>(s: Seq<(K, V)>, i: int, v: V)
    requires
        0 <= i < s.len(),
        forall|j: int| i < j < s.len() ==> s[j].0 != s[i].0,
    ensures
        map_of(s.update(i, (s[i].0, v))) == map_of(s).insert(s[i].0, v),
    decreases s.len(),
{
    let t = s.update(i, (s[i].0, v));
    if i == s.len() - 1 {
        assert(t.drop_last() =~= s.drop_last());
        assert(map_of(t) =~= map_of(s).insert(s[i].0, v));
    } else {
        let d = s.drop_last();
        assert(t.drop_last() =~= d.update(i, (d[i].0, v)));
        lemma_map_of_update(d, i, v);
        assert(map_of(t) =~= map_of(s).insert(s[i].0, v));
    }
}

impl<K: KeyEq, V: Copy> Table<K, V> {
    pub fn new() -> (r: Table<K, V>)
        ensures
            r@ == Map::<K, V>::empty(),
    {
        Table { entries: Vec::new() }
    }

    /// Position of the last write to `k`.
    fn find(&self, k: &K) -> (r: Option<usize>)
        ensures
            match r {
                Some(i) => {
                    &&& i < self.entries@.len()
                    &&& self.entries@[i as int].0 == *k
                    &&& forall|j: int| i < j < self.entries@.len() ==> self.entries@[j].0 != *k
                    &&& self@.contains_key(*k)
                    &&& self@[*k] == self.entries@[i as int].1
                },
                None => !self@.contains_key(*k),
            },
    {
        let mut i: usize = self.entries.len();
        assert(self.entries@.take(i as int) =~= self.entries@);
        while i > 0
            invariant
                i <= self.entries@.len(),
                forall|j: int| i <= j < self.entries@.len() ==> self.entries@[j].0 != *k,
                self@.contains_key(*k) == map_of(self.entries@.take(i as int)).contains_key(*k),
                self@.contains_key(*k) ==> self@[*k] == map_of(self.entries@.take(i as int))[*k],
            decreases i,
        {
            let ghost pre = self.entries@.take(i as int);
            assert(pre.drop_last() =~= self.entries@.take(i - 1));
            if self.entries[i - 1].0.key_eq(k) {
                return Some(i - 1);
            }
            i = i - 1;
        }
        assert(self.entries@.take(0) =~= Seq::<(K, V)>::empty());
        None
    }

    pub fn get(&self, k: &K) -> (r: Option<V>)
        ensures
            r == (if self@.contains_key(*k) {
                Some(self@[*k])
            } else {
                None
            }),
    {
        match self.find(k) {
            Some(i) => Some(self.entries[i].1),
            None => None,
        }
    }

    pub fn set(&mut self, k: K, v: V)
        ensures
            final(self)@ == old(self)@.insert(k, v),
    {
        match self.find(&k) {
            Some(i) => {
                proof {
                    lemma_map_of_update(self.entries@, i as int, v);
                }
                self.entries.set(i, (k, v));
            },
            None => {
                let ghost s = self.entries@;
                self.entries.push((k, v));
                assert(self.entries@.drop_last() =~= s);
            },
        }
    }
}

} // verus!
