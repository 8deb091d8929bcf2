//! The timer queue of the JavaScript job executor. `setTimeout` and
//! `setInterval` jobs are parked by due instant; a pump pass dispatches only
//! the jobs already due and leaves future ones parked, and the runtime arms a
//! wake-up timer for the earliest parked deadline. Instants are nanoseconds
//! on the engine's monotonic clock.

use vstd::prelude::*;

verus! {

/// `s` ordered by due instant (ties keep their enqueue order).
pub open spec fn due_sorted<J>(s: Seq<(u64, J)>) -> bool {
    forall|i: int, j: int| 0 <= i <= j < s.len() ==> s[i].0 <= s[j].0
}

/// `s` with `x` placed after every entry due no later than it.
pub open spec fn insert_by_due<J>(s: Seq<(u64, J)>, x: (u64, J)) -> Seq<(u64, J)>
    decreases s.len(),
{
    if s.len() == 0 || s.last().0 <= x.0 {
        s.push(x)
    } else {
        insert_by_due(s.drop_last(), x).push(s.last())
    }
}

/// Number of leading entries of `s` due strictly before `now`.
pub open spec fn due_count<J>(s: Seq<(u64, J)>, now: u64) -> nat
    decreases s.len(),
{
    if s.len() == 0 || s[0].0 >= now {
        0
    } else {
        1 + due_count(s.drop_first(), now)
    }
}

proof fn lemma_insert_by_due<J>(s: Seq<(u64, J)>, x: (u64, J))
    requires
        due_sorted(s),
    ensures
        due_sorted(insert_by_due(s, x)),
        insert_by_due(s, x).len() == s.len() + 1,
        insert_by_due(s, x).to_multiset() == s.to_multiset().insert(x),
        exists|p: int|
            0 <= p <= s.len() && #[trigger] insert_by_due(s, x) == s.take(p).push(x) + s.skip(p),
    decreases s.len(),
{
    broadcast use vstd::seq_lib::group_to_multiset_ensures;

    if s.len() == 0 || s.last().0 <= x.0 {
        assert(s.take(s.len() as int).push(x) + s.skip(s.len() as int) =~= s.push(x));
    } else {
        let t = s.drop_last();
        assert(due_sorted(t));
        lemma_insert_by_due(t, x);
        let p = choose|p: int| 0 <= p <= t.len() && #[trigger] insert_by_due(t, x) == t.take(p).push(x) + t.skip(p);
        let r = insert_by_due(s, x);
        assert(r =~= s.take(p).push(x) + s.skip(p)) by {
            assert(s.take(p) =~= t.take(p));
            assert(s.skip(p) =~= t.skip(p).push(s.last()));
        }
        assert(t.push(s.last()) =~= s);
        assert forall|i: int, j: int| 0 <= i <= j < r.len() implies r[i].0 <= r[j].0 by {
            let u = insert_by_due(t, x);
            if j == r.len() - 1 {
                if i < r.len() - 1 {
                    // u[i] is x or an entry of t, all due no later than s.last()
                    if i < p {
                        assert(u[i] == t[i]);
                    } else if i > p {
                        assert(u[i] == t[i - 1]);
                    }
                }
            }
        }
    }
}

proof fn lemma_due_count<J>(s: Seq<(u64, J)>, now: u64)
    requires
        due_sorted(s),
    ensures
        due_count(s, now) <= s.len(),
        forall|i: int| 0 <= i < due_count(s, now) ==> s[i].0 < now,
        forall|i: int| due_count(s, now) <= i < s.len() ==> s[i].0 >= now,
    decreases s.len(),
{
    if s.len() > 0 && s[0].0 < now {
        let t = s.drop_first();
        assert(due_sorted(t));
        lemma_due_count(t, now);
        assert forall|i: int| 0 <= i < due_count(s, now) implies s[i].0 < now by {
            if i > 0 {
                assert(s[i] == t[i - 1]);
            }
        }
        assert forall|i: int| due_count(s, now) <= i < s.len() implies s[i].0 >= now by {
            assert(s[i] == t[i - 1]);
        }
    }
}

/// Clock jobs parked by due instant.
pub struct ClockQueue<J> {
    jobs: Vec<(u64, J)>,
}

impl<J> ClockQueue<J> {
    /// The parked `(due, job)` pairs, earliest first.
    pub closed spec fn entries(&self) -> Seq<(u64, J)> {
        self.jobs@
    }

    pub closed spec fn wf(&self) -> bool {
        due_sorted(self.jobs@)
    }

    pub fn new() -> (r: Self)
        ensures
            r.wf(),
            r.entries() == Seq::<(u64, J)>::empty(),
    {
        ClockQueue { jobs: Vec::new() }
    }

    /// Park `job` until `due`, after every job due no later.
    pub fn enqueue(&mut self, due: u64, job: J)
        requires
            old(self).wf(),
        ensures
            final(self).wf(),
            final(self).entries() == insert_by_due(old(self).entries(), (due, job)),
    {
        let ghost s = self.jobs@;
        proof {
            lemma_insert_by_due(s, (due, job));
        }
        let mut p = self.jobs.len();
        proof {
            assert(s.take(s.len() as int) =~= s);
            assert(insert_by_due(s, (due, job)) + s.skip(s.len() as int) =~= insert_by_due(s, (due, job)));
        }
        while p > 0 && self.jobs[p - 1].0 > due
            invariant
                self.jobs@ == s,
                0 <= p <= s.len(),
                insert_by_due(s, (due, job)) == insert_by_due(s.take(p as int), (due, job)) + s.skip(p as int),
                forall|i: int| p <= i < s.len() ==> s[i].0 > due,
            decreases p,
        {
            proof {
                let t = s.take(p as int);
                assert(t.drop_last() =~= s.take(p - 1));
                assert(t.last() == s[p - 1]);
                assert(s.skip(p - 1) =~= seq![s[p - 1]] + s.skip(p as int));
                assert(insert_by_due(t, (due, job)) == insert_by_due(t.drop_last(), (due, job)).push(t.last()));
                assert(insert_by_due(t.drop_last(), (due, job)).push(t.last()) + s.skip(p as int)
                    =~= insert_by_due(t.drop_last(), (due, job)) + s.skip(p - 1));
            }
            p = p - 1;
        }
        proof {
            let t = s.take(p as int);
            if p > 0 {
                assert(t.last() == s[p - 1]);
            }
            assert(insert_by_due(t, (due, job)) == t.push((due, job)));
            assert(t.push((due, job)) + s.skip(p as int) =~= s.insert(p as int, (due, job)));
        }
        self.jobs.insert(p, (due, job));
    }

    /// The earliest parked deadline.
    pub fn next_due(&self) -> (r: Option<u64>)
        requires
            self.wf(),
        ensures
            self.entries().len() == 0 ==> r is None,
            self.entries().len() > 0 ==> r == Some(self.entries()[0].0),
            r matches Some(d) ==> forall|i: int| 0 <= i < self.entries().len() ==> d <= #[trigger] self.entries()[i].0,
    {
        if self.jobs.len() == 0 {
            None
        } else {
            Some(self.jobs[0].0)
        }
    }

    /// Whether no parked job is due before `now` (jobs due exactly at `now`
    /// wait for the next pass).
    pub fn nothing_due(&self, now: u64) -> (r: bool)
        requires
            self.wf(),
        ensures
            r == (forall|i: int| 0 <= i < self.entries().len() ==> #[trigger] self.entries()[i].0 >= now),
    {
        match self.next_due() {
            None => true,
            Some(d) => {
                proof {
                    if d < now {
                        assert(self.entries()[0].0 < now);
                    }
                }
                d >= now
            },
        }
    }

    /// Take every job due strictly before `now`, earliest first; later ones
    /// stay parked.
    pub fn take_due(&mut self, now: u64) -> (r: Vec<(u64, J)>)
        requires
            old(self).wf(),
        ensures
            final(self).wf(),
            r@ == old(self).entries().take(due_count(old(self).entries(), now) as int),
            final(self).entries() == old(self).entries().skip(due_count(old(self).entries(), now) as int),
            forall|i: int| 0 <= i < r@.len() ==> #[trigger] r@[i].0 < now,
            forall|i: int| 0 <= i < final(self).entries().len() ==> #[trigger] final(self).entries()[i].0 >= now,
    {
        let ghost s = self.jobs@;
        proof {
            lemma_due_count(s, now);
        }
        let mut k: usize = 0;
        while k < self.jobs.len() && self.jobs[k].0 < now
            invariant
                self.jobs@ == s,
                due_sorted(s),
                0 <= k <= due_count(s, now),
                due_count(s, now) <= s.len(),
                forall|i: int| 0 <= i < due_count(s, now) ==> s[i].0 < now,
                forall|i: int| due_count(s, now) <= i < s.len() ==> s[i].0 >= now,
            decreases s.len() - k,
        {
            k = k + 1;
        }
        let mut due = self.jobs.split_off(k);
        std::mem::swap(&mut self.jobs, &mut due);
        proof {
            assert(self.jobs@ =~= s.skip(k as int));
            assert(due@ =~= s.take(k as int));
        }
        due
    }

    /// Drop every parked job.
    pub fn clear(&mut self)
        ensures
            final(self).wf(),
            final(self).entries() == Seq::<(u64, J)>::empty(),
    {
        self.jobs.clear();
    }

    /// Keep only the parked jobs whose flag in `keep` (one per job, in order) is set.
    pub fn retain_flagged(&mut self, keep: &Vec<bool>)
        requires
            old(self).wf(),
            keep@.len() == old(self).entries().len(),
        ensures
            final(self).wf(),
            final(self).entries() == kept_entries(old(self).entries(), keep@),
    {
        let ghost s = self.jobs@;
        let mut rest: Vec<(u64, J)> = Vec::new();
        std::mem::swap(&mut self.jobs, &mut rest);
        let mut out: Vec<(u64, J)> = Vec::new();
        let mut i: usize = 0;
        while i < keep.len()
            invariant
                0 <= i <= keep@.len(),
                keep@.len() == s.len(),
                rest@ == s.skip(i as int),
                out@ == kept_entries(s.take(i as int), keep@.take(i as int)),
                due_sorted(s),
            decreases keep@.len() - i,
        {
            proof {
                assert(rest@.len() > 0);
            }
            let e = rest.remove(0);
            proof {
                assert(s.take(i + 1).drop_last() =~= s.take(i as int));
                assert(keep@.take(i + 1).drop_last() =~= keep@.take(i as int));
                assert(s.skip(i as int).drop_first() =~= s.skip(i + 1));
            }
            if keep[i] {
                out.push(e);
            }
            i = i + 1;
        }
        proof {
            assert(s.take(s.len() as int) =~= s);
            assert(keep@.take(keep@.len() as int) =~= keep@);
            lemma_kept_sorted(s, keep@);
        }
        self.jobs = out;
    }
}

/// The entries of `s` whose flag in `keep` is set, in order.
pub open spec fn kept_entries<J>(s: Seq<(u64, J)>, keep: Seq<bool>) -> Seq<(u64, J)>
    decreases s.len(),
{
    if s.len() == 0 || keep.len() == 0 {
        Seq::empty()
    } else if keep.last() {
        kept_entries(s.drop_last(), keep.drop_last()).push(s.last())
    } else {
        kept_entries(s.drop_last(), keep.drop_last())
    }
}

proof fn lemma_kept_bounded<J>(s: Seq<(u64, J)>, keep: Seq<bool>, b: u64)
    requires
        forall|j: int| 0 <= j < s.len() ==> #[trigger] s[j].0 <= b,
    ensures
        forall|i: int| 0 <= i < kept_entries(s, keep).len() ==> #[trigger] kept_entries(s, keep)[i].0 <= b,
    decreases s.len(),
{
    if s.len() > 0 && keep.len() > 0 {
        let t = s.drop_last();
        assert forall|j: int| 0 <= j < t.len() implies #[trigger] t[j].0 <= b by {
            assert(t[j] == s[j]);
        }
        lemma_kept_bounded(t, keep.drop_last(), b);
        assert(s[s.len() - 1].0 <= b);
        let k = kept_entries(t, keep.drop_last());
        if keep.last() {
            assert forall|i: int| 0 <= i < k.push(s.last()).len() implies #[trigger] k.push(s.last())[i].0 <= b by {
                if i < k.len() {
                    assert(k.push(s.last())[i] == k[i]);
                }
            }
        }
    }
}

proof fn lemma_kept_sorted<J>(s: Seq<(u64, J)>, keep: Seq<bool>)
    requires
        due_sorted(s),
    ensures
        due_sorted(kept_entries(s, keep)),
    decreases s.len(),
{
    if s.len() > 0 && keep.len() > 0 {
        let t = s.drop_last();
        assert(due_sorted(t));
        lemma_kept_sorted(t, keep.drop_last());
        let k = kept_entries(t, keep.drop_last());
        if keep.last() {
            let last = s.last().0;
            assert forall|j: int| 0 <= j < t.len() implies #[trigger] t[j].0 <= last by {
                assert(t[j] == s[j]);
            }
            lemma_kept_bounded(t, keep.drop_last(), last);
            let r = k.push(s.last());
            assert forall|i: int, j: int| 0 <= i <= j < r.len() implies r[i].0 <= r[j].0 by {
                if j == r.len() - 1 && i < j {
                    assert(r[i] == k[i]);
                } else if j < r.len() - 1 {
                    assert(r[i] == k[i] && r[j] == k[j]);
                }
            }
        }
    }
}

} // verus!
