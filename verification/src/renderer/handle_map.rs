use vstd::prelude::*;

verus! {

/// An association from handle values to resources. The keys are unique,
/// and the view is the corresponding finite map.
pub struct HandleMap<T> {
    entries: Vec<(u64, T)>,
}

/// The map described by a sequence of key-value pairs, later entries
/// winning (under the uniqueness invariant there are no duplicates).
pub open spec fn entries_map<T>(s: Seq<(u64, T)>) -> Map<int, T>
    decreases s.len(),
{
    if s.len() == 0 {
        Map::empty()
    } else {
        entries_map(s.drop_last()).insert(s.last().0 as int, s.last().1)
    }
}

/// Pairwise distinct keys.
pub open spec fn keys_distinct<T>(s: Seq<(u64, T)>) -> bool {
    forall|i: int, j: int| 0 <= i < j < s.len() ==> (#[trigger] s[i]).0 != (#[trigger] s[j]).0
}

/// A key is in the map exactly when some entry carries it.
pub proof fn lemma_entries_map_dom<T>(s: Seq<(u64, T)>, k: int)
    ensures
        entries_map(s).dom().contains(k) <==> exists|i: int|
            0 <= i < s.len() && (#[trigger] s[i]).0 as int == k,
    decreases s.len(),
{
    if s.len() > 0 {
        lemma_entries_map_dom(s.drop_last(), k);
        if s.last().0 as int == k {
            assert((s[s.len() - 1]).0 as int == k);
        } else {
            if exists|i: int| 0 <= i < s.len() && (#[trigger] s[i]).0 as int == k {
                let i = choose|i: int| 0 <= i < s.len() && (#[trigger] s[i]).0 as int == k;
                assert((s.drop_last()[i]).0 as int == k);
            }
        }
    }
}

/// Under distinct keys, the entry at `i` is what the map stores for its
/// key.
pub proof fn lemma_entries_map_get<T>(s: Seq<(u64, T)>, i: int)
    requires
        keys_distinct(s),
        0 <= i < s.len(),
    ensures
        entries_map(s).dom().contains(s[i].0 as int),
        entries_map(s)[s[i].0 as int] == s[i].1,
    decreases s.len(),
{
    if i == s.len() - 1 {
    } else {
        lemma_entries_map_get(s.drop_last(), i);
    }
}

/// Under distinct keys, removing the entry at `i` removes its key from
/// the map.
pub proof fn lemma_entries_map_remove<T>(s: Seq<(u64, T)>, i: int)
    requires
        keys_distinct(s),
        0 <= i < s.len(),
    ensures
        keys_distinct(s.remove(i)),
        entries_map(s.remove(i)) == entries_map(s).remove(s[i].0 as int),
    decreases s.len(),
{
    let k = s[i].0 as int;
    if i == s.len() - 1 {
        assert(s.remove(i) =~= s.drop_last());
        lemma_entries_map_dom(s.drop_last(), k);
        assert(entries_map(s.drop_last()) =~= entries_map(s).remove(k));
    } else {
        lemma_entries_map_remove(s.drop_last(), i);
        assert(s.remove(i).drop_last() =~= s.drop_last().remove(i));
        assert(s.remove(i).last() == s.last());
        assert(entries_map(s.remove(i)) == entries_map(s.drop_last().remove(i)).insert(
            s.last().0 as int,
            s.last().1,
        ));
        assert(s.last().0 as int != k);
        assert(entries_map(s.drop_last()).remove(k).insert(s.last().0 as int, s.last().1)
            =~= entries_map(s).remove(k));
    }
}

impl<T> View for HandleMap<T> {
    type V = Map<int, T>;

    closed spec fn view(&self) -> Map<int, T> {
        entries_map(self.entries@)
    }
}

impl<T> HandleMap<T> {
    /// Unique keys throughout.
    pub closed spec fn wf(self) -> bool {
        keys_distinct(self.entries@)
    }

    pub fn new() -> (r: Self)
        ensures
            r.wf(),
            r@ == Map::<int, T>::empty(),
    {
        HandleMap { entries: Vec::new() }
    }

    /// Whether `id` is present.
    pub fn contains(&self, id: u64) -> (r: bool)
        requires
            self.wf(),
        ensures
            r == self@.dom().contains(id as int),
    {
        let n = self.entries.len();
        let mut i: usize = 0;
        while i < n
            invariant
                n == self.entries@.len(),
                i <= n,
                self.wf(),
                forall|ii: int| 0 <= ii < i ==> (#[trigger] self.entries@[ii]).0 != id,
            decreases n - i,
        {
            if self.entries[i].0 == id {
                proof {
                    lemma_entries_map_get(self.entries@, i as int);
                }
                return true;
            }
            i += 1;
        }
        proof {
            lemma_entries_map_dom(self.entries@, id as int);
        }
        false
    }

    /// The resource stored for `id`, if any.
    pub fn get(&self, id: u64) -> (r: Option<&T>)
        requires
            self.wf(),
        ensures
            match r {
                Option::Some(v) => self@.dom().contains(id as int) && *v == self@[id as int],
                Option::None => !self@.dom().contains(id as int),
            },
    {
        let n = self.entries.len();
        let mut i: usize = 0;
        while i < n
            invariant
                n == self.entries@.len(),
                i <= n,
                self.wf(),
                forall|ii: int| 0 <= ii < i ==> (#[trigger] self.entries@[ii]).0 != id,
            decreases n - i,
        {
            if self.entries[i].0 == id {
                proof {
                    lemma_entries_map_get(self.entries@, i as int);
                }
                return Some(&self.entries[i].1);
            }
            i += 1;
        }
        proof {
            lemma_entries_map_dom(self.entries@, id as int);
        }
        None
    }

    /// Adds a fresh key.
    pub fn insert(&mut self, id: u64, value: T)
        requires
            old(self).wf(),
            !old(self)@.dom().contains(id as int),
        ensures
            final(self).wf(),
            final(self)@ == old(self)@.insert(id as int, value),
    {
        proof {
            lemma_entries_map_dom(self.entries@, id as int);
        }
        self.entries.push((id, value));
        proof {
            assert(self.entries@.drop_last() =~= old(self).entries@);
        }
    }

    /// Removes a key if present; absent keys are a no-op.
    pub fn remove(&mut self, id: u64)
        requires
            old(self).wf(),
        ensures
            final(self).wf(),
            final(self)@ == old(self)@.remove(id as int),
    {
        let n = self.entries.len();
        let mut i: usize = 0;
        while i < n
            invariant
                n == self.entries@.len(),
                i <= n,
                self.wf(),
                *self == *old(self),
                forall|ii: int| 0 <= ii < i ==> (#[trigger] self.entries@[ii]).0 != id,
            decreases n - i,
        {
            if self.entries[i].0 == id {
                proof {
                    lemma_entries_map_remove(self.entries@, i as int);
                }
                self.entries.remove(i);
                return ;
            }
            i += 1;
        }
        proof {
            lemma_entries_map_dom(self.entries@, id as int);
            assert(self@.remove(id as int) =~= self@);
        }
    }

    /// Replaces the resource stored for an existing key.
    pub fn update(&mut self, id: u64, value: T)
        requires
            old(self).wf(),
            old(self)@.dom().contains(id as int),
        ensures
            final(self).wf(),
            final(self)@ == old(self)@.insert(id as int, value),
    {
        self.remove(id);
        self.insert(id, value);
        proof {
            assert(old(self)@.remove(id as int).insert(id as int, value) =~= old(self)@.insert(
                id as int,
                value,
            ));
        }
    }
}

} // verus!
