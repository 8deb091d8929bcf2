//! A table of values by name, each name at most once: plugin commands and
//! native components are registered in such tables.

use vstd::prelude::*;

verus! {

/// The map that `(key, value)` entries describe, later entries winning.
pub open spec fn entries_map<H>(e: Seq<(Seq<char>, H)>) -> Map<Seq<char>, H>
    decreases e.len(),
{
    if e.len() == 0 {
        Map::empty()
    } else {
        entries_map(e.drop_last()).insert(e.last().0, e.last().1)
    }
}

pub open spec fn keys_unique<H>(e: Seq<(Seq<char>, H)>) -> bool {
    forall|i: int, j: int| 0 <= i < j < e.len() ==> e[i].0 != e[j].0
}

proof fn lemma_entries_map_at<H>(e: Seq<(Seq<char>, H)>, i: int)
    requires
        keys_unique(e),
        0 <= i < e.len(),
    ensures
        entries_map(e).contains_key(e[i].0),
        entries_map(e)[e[i].0] == e[i].1,
    decreases e.len(),
{
    if i < e.len() - 1 {
        let t = e.drop_last();
        assert(keys_unique(t));
        lemma_entries_map_at(t, i);
        assert(t[i] == e[i]);
    }
}

proof fn lemma_entries_map_keys<H>(e: Seq<(Seq<char>, H)>, k: Seq<char>)
    ensures
        entries_map(e).contains_key(k) <==> exists|i: int| 0 <= i < e.len() && #[trigger] e[i].0 == k,
    decreases e.len(),
{
    if e.len() > 0 {
        let t = e.drop_last();
        lemma_entries_map_keys(t, k);
        if entries_map(e).contains_key(k) && k != e.last().0 {
            let i = choose|i: int| 0 <= i < t.len() && #[trigger] t[i].0 == k;
            assert(e[i].0 == k);
        }
        if exists|i: int| 0 <= i < e.len() && #[trigger] e[i].0 == k {
            let i = choose|i: int| 0 <= i < e.len() && #[trigger] e[i].0 == k;
            if i < e.len() - 1 {
                assert(t[i].0 == k);
            }
        }
    }
}

proof fn lemma_entries_map_update<H>(e: Seq<(Seq<char>, H)>, i: int, h: H)
    requires
        keys_unique(e),
        0 <= i < e.len(),
    ensures
        entries_map(e.update(i, (e[i].0, h))) == entries_map(e).insert(e[i].0, h),
    decreases e.len(),
{
    let k = e[i].0;
    let u = e.update(i, (k, h));
    if i == e.len() - 1 {
        assert(u.drop_last() =~= e.drop_last());
        assert(entries_map(u) =~= entries_map(e).insert(k, h));
    } else {
        let t = e.drop_last();
        assert(keys_unique(t));
        lemma_entries_map_update(t, i, h);
        assert(u.drop_last() =~= t.update(i, (k, h)));
        assert(e.last().0 != k);
        assert(entries_map(u) =~= entries_map(e).insert(k, h));
    }
}

/// A table of values by name (each name at most once).
pub struct NameTable<H> {
    entries: Vec<(String, H)>,
}

impl<H> NameTable<H> {
    /// The `(name, handler)` entries in insertion order.
    pub closed spec fn pairs(&self) -> Seq<(Seq<char>, H)> {
        self.entries@.map_values(|p: (String, H)| (p.0@, p.1))
    }

    pub closed spec fn wf(&self) -> bool {
        keys_unique(self.pairs())
    }

    pub fn new() -> (r: Self)
        ensures
            r.wf(),
            r@ == Map::<Seq<char>, H>::empty(),
    {
        let r = NameTable { entries: Vec::new() };
        proof {
            assert(r.pairs() =~= Seq::<(Seq<char>, H)>::empty());
        }
        r
    }

    /// Index of the entry named `name`.
    fn find(&self, name: &str) -> (r: Option<usize>)
        ensures
            r matches Some(i) ==> i < self.pairs().len() && self.pairs()[i as int].0 == name@,
            r is None ==> forall|i: int| 0 <= i < self.pairs().len() ==> #[trigger] self.pairs()[i].0 != name@,
    {
        let mut i: usize = 0;
        while i < self.entries.len()
            invariant
                0 <= i <= self.entries@.len(),
                forall|j: int| 0 <= j < i ==> #[trigger] self.pairs()[j].0 != name@,
            decreases self.entries@.len() - i,
        {
            if crate::text_util::str_eq(self.entries[i].0.as_str(), name) {
                return Some(i);
            }
            i = i + 1;
        }
        None
    }

    /// Set the value named `name` (replacing any earlier one); `true` when
    /// one was replaced.
    pub fn insert(&mut self, name: String, handler: H) -> (r: bool)
        requires
            old(self).wf(),
        ensures
            final(self).wf(),
            final(self)@ == old(self)@.insert(name@, handler),
            r == old(self)@.contains_key(name@),
    {
        let ghost e = self.pairs();
        proof {
            lemma_entries_map_keys(e, name@);
        }
        match self.find(name.as_str()) {
            Some(i) => {
                proof {
                    lemma_entries_map_update(e, i as int, handler);
                }
                self.entries.set(i, (name, handler));
                proof {
                    assert(self.pairs() =~= e.update(i as int, (e[i as int].0, handler)));
                }
                true
            },
            None => {
                self.entries.push((name, handler));
                proof {
                    assert(self.pairs() =~= e.push((name@, handler)));
                    assert(self.pairs().drop_last() =~= e);
                }
                false
            },
        }
    }

    /// The entries, in insertion order.
    pub fn into_pairs(self) -> (r: Vec<(String, H)>)
        ensures
            r@.map_values(|p: (String, H)| (p.0@, p.1)) == self.pairs(),
    {
        self.entries
    }

    /// The value named `name`.
    pub fn get(&self, name: &str) -> (r: Option<&H>)
        requires
            self.wf(),
        ensures
            match r {
                Some(h) => self@.contains_key(name@) && *h == self@[name@],
                None => !self@.contains_key(name@),
            },
    {
        proof {
            lemma_entries_map_keys(self.pairs(), name@);
        }
        match self.find(name) {
            Some(i) => {
                proof {
                    lemma_entries_map_at(self.pairs(), i as int);
                }
                Some(&self.entries[i].1)
            },
            None => None,
        }
    }
}

impl<H> View for NameTable<H> {
    type V = Map<Seq<char>, H>;

    open spec fn view(&self) -> Map<Seq<char>, H> {
        entries_map(self.pairs())
    }
}


/// `m` with the entries of `es` inserted in order.
pub open spec fn insert_all<H>(m: Map<Seq<char>, H>, es: Seq<(Seq<char>, H)>) -> Map<Seq<char>, H>
    decreases es.len(),
{
    if es.len() == 0 {
        m
    } else {
        insert_all(m, es.drop_last()).insert(es.last().0, es.last().1)
    }
}

pub proof fn lemma_insert_all_push<H>(m: Map<Seq<char>, H>, es: Seq<(Seq<char>, H)>, x: (Seq<char>, H))
    ensures
        insert_all(m, es.push(x)) == insert_all(m, es).insert(x.0, x.1),
{
    assert(es.push(x).drop_last() =~= es);
}

/// The entries of `e` whose value is not `v`, in order.
pub open spec fn without_value(e: Seq<(Seq<char>, u64)>, v: u64) -> Seq<(Seq<char>, u64)>
    decreases e.len(),
{
    if e.len() == 0 {
        e
    } else {
        let rest = without_value(e.drop_last(), v);
        if e.last().1 != v {
            rest.push(e.last())
        } else {
            rest
        }
    }
}

proof fn lemma_without_value(e: Seq<(Seq<char>, u64)>, v: u64)
    requires
        keys_unique(e),
    ensures
        keys_unique(without_value(e, v)),
        forall|i: int| 0 <= i < without_value(e, v).len() ==> exists|j: int| 0 <= j < e.len() && #[trigger] without_value(e, v)[i] == e[j] && e[j].1 != v,
        entries_map(without_value(e, v)) == Map::new(
            |k: Seq<char>| entries_map(e).contains_key(k) && entries_map(e)[k] != v,
            |k: Seq<char>| entries_map(e)[k],
        ),
    decreases e.len(),
{
    if e.len() > 0 {
        let t = e.drop_last();
        assert(keys_unique(t));
        lemma_without_value(t, v);
        let w = without_value(t, v);
        assert forall|i: int| 0 <= i < w.len() implies exists|j: int| 0 <= j < e.len() && #[trigger] w[i] == e[j] && e[j].1 != v by {
            let j = choose|j: int| 0 <= j < t.len() && #[trigger] w[i] == t[j] && t[j].1 != v;
            assert(w[i] == e[j]);
        }
        let last = e.last();
        if last.1 != v {
            let r = w.push(last);
            assert forall|i: int, j: int| 0 <= i < j < r.len() implies r[i].0 != r[j].0 by {
                if j == r.len() - 1 {
                    let jj = choose|jj: int| 0 <= jj < t.len() && #[trigger] w[i] == t[jj] && t[jj].1 != v;
                    assert(t[jj] == e[jj]);
                    assert(e[jj].0 != e[e.len() - 1].0);
                } else {
                    assert(r[i] == w[i] && r[j] == w[j]);
                }
            }
            assert forall|i: int| 0 <= i < r.len() implies exists|j: int| 0 <= j < e.len() && #[trigger] r[i] == e[j] && e[j].1 != v by {
                if i == r.len() - 1 {
                    assert(r[i] == e[e.len() - 1]);
                } else {
                    assert(r[i] == w[i]);
                }
            }
        }
        lemma_entries_map_keys(t, last.0);
        assert forall|j: int| 0 <= j < t.len() implies #[trigger] t[j].0 != last.0 by {
            assert(t[j] == e[j]);
        }
        assert(!entries_map(t).contains_key(last.0));
        assert(entries_map(e) == entries_map(t).insert(last.0, last.1));
        if last.1 != v {
            assert(w.push(last).drop_last() =~= w);
            assert(entries_map(without_value(e, v)) == entries_map(w).insert(last.0, last.1));
        } else {
            assert(without_value(e, v) == w);
        }
        assert(entries_map(without_value(e, v)) =~= Map::new(
            |k: Seq<char>| entries_map(e).contains_key(k) && entries_map(e)[k] != v,
            |k: Seq<char>| entries_map(e)[k],
        ));
    } else {
        assert(entries_map(without_value(e, v)) =~= Map::new(
            |k: Seq<char>| entries_map(e).contains_key(k) && entries_map(e)[k] != v,
            |k: Seq<char>| entries_map(e)[k],
        ));
    }
}

impl NameTable<u64> {
    /// Drop every name that maps to `v`.
    pub fn remove_value(&mut self, v: u64)
        requires
            old(self).wf(),
        ensures
            final(self).wf(),
            final(self)@ == Map::new(
                |k: Seq<char>| old(self)@.contains_key(k) && old(self)@[k] != v,
                |k: Seq<char>| old(self)@[k],
            ),
    {
        let ghost e = self.pairs();
        let mut rest: Vec<(String, u64)> = Vec::new();
        std::mem::swap(&mut self.entries, &mut rest);
        let mut i: usize = 0;
        let n = rest.len();
        let ghost src = rest@;
        proof {
            assert(e.take(0) =~= Seq::<(Seq<char>, u64)>::empty());
            assert(self.pairs() =~= Seq::<(Seq<char>, u64)>::empty());
        }
        while i < n
            invariant
                n == src.len(),
                e == src.map_values(|p: (String, u64)| (p.0@, p.1)),
                0 <= i <= n,
                rest@ == src.skip(i as int),
                self.pairs() == without_value(e.take(i as int), v),
            decreases n - i,
        {
            let ghost before = self.pairs();
            let item = rest.remove(0);
            proof {
                assert(src.skip(i as int)[0] == src[i as int]);
                assert(src.skip(i as int).drop_first() =~= src.skip(i + 1));
                assert(e.take(i + 1).drop_last() =~= e.take(i as int));
                assert(e.take(i + 1).last() == (item.0@, item.1));
            }
            if item.1 != v {
                self.entries.push(item);
                proof {
                    assert(self.pairs() =~= before.push((item.0@, item.1)));
                }
            }
            i = i + 1;
        }
        proof {
            assert(e.take(n as int) =~= e);
            lemma_without_value(e, v);
        }
    }
}

} // verus!
