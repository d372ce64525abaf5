//! A small map from ids to values that can be listed.

use vstd::prelude::*;

verus! {

/// A map from ids to values, held as one row per id.
pub struct Table<V> {
    ids: Vec<String>,
    values: Vec<V>,
}

/// The ids of a list, as text.
pub open spec fn texts(ids: Seq<String>) -> Seq<Seq<char>> {
    ids.map_values(|id: String| id@)
}

/// Whether a list names every id of a set, each once.
pub open spec fn lists(ids: Seq<String>, set: Set<Seq<char>>) -> bool {
    texts(ids).no_duplicates() && texts(ids).to_set() == set
}

impl<V> View for Table<V> {
    type V = Map<Seq<char>, V>;

    closed spec fn view(&self) -> Map<Seq<char>, V> {
        Map::new(
            |id: Seq<char>| exists|i: int| self.row(i, id),
            |id: Seq<char>| self.values@[choose|i: int| self.row(i, id)],
        )
    }
}

impl<V> Table<V> {
    /// Whether row `i` belongs to `id`.
    spec fn row(&self, i: int, id: Seq<char>) -> bool {
        0 <= i < self.ids@.len() && self.ids@[i]@ == id
    }

    /// Every row has a value, and no id has two rows.
    pub closed spec fn wf(&self) -> bool {
        &&& self.ids@.len() == self.values@.len()
        &&& forall|i: int, j: int|
            0 <= i < j < self.ids@.len() ==> self.ids@[i]@ != self.ids@[j]@
    }

    proof fn lemma_row(&self, i: int)
        requires
            self.wf(),
            0 <= i < self.ids@.len(),
        ensures
            self@.contains_key(self.ids@[i]@),
            self@[self.ids@[i]@] == self.values@[i],
    {
        let id = self.ids@[i]@;
        assert(self.row(i, id));
        let k = choose|k: int| self.row(k, id);
        assert(self.row(k, id));
        assert(k == i);
    }

    /// Another value in a row is another value for the row's id.
    proof fn lemma_update(t: Self, u: Self, i: int, v: V)
        requires
            t.wf(),
            0 <= i < t.ids@.len(),
            u.ids@ == t.ids@,
            u.values@ == t.values@.update(i, v),
        ensures
            u.wf(),
            u@ == t@.insert(t.ids@[i]@, v),
    {
        assert forall|id: Seq<char>| u@.contains_key(id) == t@.insert(t.ids@[i]@, v).contains_key(
            id,
        ) by {
            t.lemma_row(i);
            assert forall|k: int| u.row(k, id) == t.row(k, id) by {}
        }
        assert forall|id: Seq<char>| #[trigger] u@.contains_key(id) implies u@[id] == t@.insert(
            t.ids@[i]@,
            v,
        )[id] by {
            let k = choose|k: int| u.row(k, id);
            assert(u.row(k, id));
            u.lemma_row(k);
            t.lemma_row(k);
        }
        assert(u@ =~= t@.insert(t.ids@[i]@, v));
    }

    pub fn new() -> (t: Self)
        ensures
            t.wf(),
            t@ == Map::<Seq<char>, V>::empty(),
    {
        let t = Table { ids: Vec::new(), values: Vec::new() };
        assert(t@ =~= Map::<Seq<char>, V>::empty());
        t
    }

    /// The row of an id.
    fn find(&self, id: &str) -> (r: Option<usize>)
        requires
            self.wf(),
        ensures
            match r {
                Some(i) => self.row(i as int, id@) && self@.contains_key(id@) && self@[id@]
                    == self.values@[i as int],
                None => !self@.contains_key(id@),
            },
    {
        let wanted: String = id.to_owned();
        let mut i: usize = 0;
        while i < self.ids.len()
            invariant
                self.wf(),
                wanted@ == id@,
                0 <= i <= self.ids@.len(),
                forall|j: int| 0 <= j < i ==> self.ids@[j]@ != id@,
            decreases self.ids@.len() - i,
        {
            if self.ids[i] == wanted {
                proof {
                    self.lemma_row(i as int);
                }
                return Some(i);
            }
            i += 1;
        }
        None
    }

    pub fn get(&self, id: &str) -> (v: Option<&V>)
        requires
            self.wf(),
        ensures
            match v {
                Some(v) => self@.contains_key(id@) && *v == self@[id@],
                None => !self@.contains_key(id@),
            },
    {
        match self.find(id) {
            Some(i) => Some(&self.values[i]),
            None => None,
        }
    }

    pub fn get_mut(&mut self, id: &str) -> (v: Option<&mut V>)
        requires
            old(self).wf(),
        ensures
            final(self).wf(),
            match v {
                Some(v) => old(self)@.contains_key(id@) && *v == old(self)@[id@] && final(self)@
                    == old(self)@.insert(id@, *final(v)),
                None => !old(self)@.contains_key(id@) && final(self)@ == old(self)@,
            },
    {
        match self.find(id) {
            Some(i) => {
                proof {
                    let t = *self;
                    assert forall|u: Self, v: V|
                        #![trigger u.wf(), t.values@.update(i as int, v)]
                        u.ids@ == t.ids@ && u.values@ == t.values@.update(i as int, v) implies u.wf()
                        && u@ == t@.insert(id@, v) by {
                        Self::lemma_update(t, u, i as int, v);
                    }
                }
                Some(&mut self.values[i])
            },
            None => None,
        }
    }

    /// Sets the value of an id, whether or not it had one.
    pub fn insert(&mut self, id: String, v: V)
        requires
            old(self).wf(),
        ensures
            final(self).wf(),
            final(self)@ == old(self)@.insert(id@, v),
    {
        match self.find(id.as_str()) {
            Some(i) => {
                self.values[i] = v;
                proof {
                    Self::lemma_update(*old(self), *self, i as int, v);
                }
            },
            None => {
                let ghost key = id@;
                self.ids.push(id);
                self.values.push(v);
                proof {
                    let n = old(self).ids@.len() as int;
                    assert forall|i: int| 0 <= i < n implies old(self).ids@[i]@ != key by {
                        old(self).lemma_row(i);
                    }
                    self.lemma_row(n);
                    assert forall|k: Seq<char>| #[trigger] self@.contains_key(k) == old(
                        self,
                    )@.insert(key, v).contains_key(k) by {
                        if old(self)@.contains_key(k) {
                            let i = choose|i: int| old(self).row(i, k);
                            assert(self.row(i, k));
                        }
                        if self@.contains_key(k) && k != key {
                            let i = choose|i: int| self.row(i, k);
                            assert(old(self).row(i, k));
                        }
                    }
                    assert forall|k: Seq<char>| #[trigger] self@.contains_key(k) implies self@[k]
                        == old(self)@.insert(key, v)[k] by {
                        let i = choose|i: int| self.row(i, k);
                        assert(self.row(i, k));
                        self.lemma_row(i);
                        if i < n {
                            old(self).lemma_row(i);
                        }
                    }
                    assert(self@ =~= old(self)@.insert(key, v));
                }
            },
        }
    }

    /// Takes an id out of the table, with its value.
    pub fn remove(&mut self, id: &str) -> (v: Option<V>)
        requires
            old(self).wf(),
        ensures
            final(self).wf(),
            final(self)@ == old(self)@.remove(id@),
            match v {
                Some(v) => old(self)@.contains_key(id@) && v == old(self)@[id@],
                None => !old(self)@.contains_key(id@),
            },
    {
        match self.find(id) {
            Some(i) => {
                let _ = self.ids.remove(i);
                let v = self.values.remove(i);
                proof {
                    let at = i as int;
                    assert forall|a: int, b: int| 0 <= a < b < self.ids@.len() implies self.ids@[a]@
                        != self.ids@[b]@ by {
                        let a0 = if a < at { a } else { a + 1 };
                        let b0 = if b < at { b } else { b + 1 };
                        assert(old(self).ids@[a0]@ != old(self).ids@[b0]@);
                    }
                    assert forall|k: Seq<char>| #[trigger] self@.contains_key(k) == old(
                        self,
                    )@.remove(id@).contains_key(k) by {
                        if old(self)@.contains_key(k) && k != id@ {
                            let a = choose|a: int| old(self).row(a, k);
                            assert(old(self).row(a, k));
                            assert(self.row(if a < at { a } else { a - 1 }, k));
                        }
                        if self@.contains_key(k) {
                            let a = choose|a: int| self.row(a, k);
                            assert(self.row(a, k));
                            let a0 = if a < at { a } else { a + 1 };
                            assert(old(self).row(a0, k));
                            if k == id@ {
                                assert(old(self).ids@[a0]@ == old(self).ids@[at]@);
                                assert(false);
                            }
                        }
                    }
                    assert forall|k: Seq<char>| #[trigger] self@.contains_key(k) implies self@[k]
                        == old(self)@.remove(id@)[k] by {
                        let a = choose|a: int| self.row(a, k);
                        assert(self.row(a, k));
                        self.lemma_row(a);
                        old(self).lemma_row(if a < at { a } else { a + 1 });
                    }
                    assert(self@ =~= old(self)@.remove(id@));
                }
                Some(v)
            },
            None => {
                assert(self@ =~= old(self)@.remove(id@));
                None
            },
        }
    }

    /// The ids of the table, each once, in the order of the rows.
    pub fn ids(&self) -> (ids: &Vec<String>)
        requires
            self.wf(),
        ensures
            lists(ids@, self@.dom()),
    {
        proof {
            assert forall|k: Seq<char>| #[trigger] self@.contains_key(k) == texts(
                self.ids@,
            ).to_set().contains(k) by {
                if self@.contains_key(k) {
                    let a = choose|a: int| self.row(a, k);
                    assert(self.row(a, k));
                    assert(texts(self.ids@)[a] == k);
                }
                if texts(self.ids@).contains(k) {
                    let a = choose|a: int| 0 <= a < self.ids@.len() && texts(self.ids@)[a] == k;
                    assert(self.row(a, k));
                }
            }
            assert(texts(self.ids@).to_set() =~= self@.dom());
        }
        &self.ids
    }
}

/// A list of ids holds each id of its set once, and no other.
pub proof fn law_lists_hold_each_id_once(ids: Seq<String>, set: Set<Seq<char>>, id: Seq<char>)
    requires
        lists(ids, set),
    ensures
        set.contains(id) <==> exists|i: int| 0 <= i < ids.len() && (#[trigger] ids[i])@ == id,
        forall|i: int, j: int|
            0 <= i < j < ids.len() ==> (#[trigger] ids[i])@ != (#[trigger] ids[j])@,
        ids.len() == set.len(),
{
    texts(ids).unique_seq_to_set();
    if set.contains(id) {
        assert(texts(ids).contains(id));
        let i = choose|i: int| 0 <= i < texts(ids).len() && texts(ids)[i] == id;
        assert(ids[i]@ == id);
    }
    if exists|i: int| 0 <= i < ids.len() && (#[trigger] ids[i])@ == id {
        let i = choose|i: int| 0 <= i < ids.len() && (#[trigger] ids[i])@ == id;
        assert(texts(ids)[i] == id);
    }
    assert forall|i: int, j: int| 0 <= i < j < ids.len() implies (#[trigger] ids[i])@ != (
    #[trigger] ids[j])@ by {
        assert(texts(ids)[i] != texts(ids)[j]);
    }
}

} // verus!
