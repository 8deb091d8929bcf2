//! Ordered lists of element ids: removal of every occurrence of an id, and
//! first / last occurrence lookup.

use vstd::prelude::*;

verus! {

/// `s` with every occurrence of `x` removed (order of the rest kept).
pub open spec fn without(s: Seq<u64>, x: u64) -> Seq<u64>
    decreases s.len(),
{
    if s.len() == 0 {
        s
    } else {
        let rest = without(s.drop_last(), x);
        if s.last() == x {
            rest
        } else {
            rest.push(s.last())
        }
    }
}

/// What survives a removal: exactly the other elements.
pub proof fn lemma_without_contains(s: Seq<u64>, x: u64)
    ensures
        forall|y: u64| #[trigger] without(s, x).contains(y) <==> (s.contains(y) && y != x),
        without(s, x).len() <= s.len(),
    decreases s.len(),
{
    if s.len() > 0 {
        lemma_without_contains(s.drop_last(), x);
        let rest = without(s.drop_last(), x);
        assert forall|y: u64| #[trigger] without(s, x).contains(y) <==> (s.contains(y) && y != x) by {
            if s.contains(y) && y != x {
                let i = choose|i: int| 0 <= i < s.len() && s[i] == y;
                if i < s.len() - 1 {
                    assert(s.drop_last()[i] == y);
                    assert(rest.contains(y));
                    if s.last() != x {
                        let j = choose|j: int| 0 <= j < rest.len() && rest[j] == y;
                        assert(rest.push(s.last())[j] == y);
                    }
                } else {
                    assert(s.last() == y);
                    assert(rest.push(s.last())[rest.len() as int] == y);
                }
            }
            if without(s, x).contains(y) {
                if s.last() != x {
                    let j = choose|j: int|
                        0 <= j < rest.push(s.last()).len() && rest.push(s.last())[j] == y;
                    if j < rest.len() {
                        assert(rest[j] == y);
                        assert(rest.contains(y));
                        let i = choose|i: int| 0 <= i < s.drop_last().len() && s.drop_last()[i] == y;
                        assert(s[i] == y);
                    } else {
                        assert(s[s.len() - 1] == y);
                    }
                } else {
                    assert(rest.contains(y));
                    let i = choose|i: int| 0 <= i < s.drop_last().len() && s.drop_last()[i] == y;
                    assert(s[i] == y);
                }
            }
        }
    }
}

/// Removing an element that is absent changes nothing.
pub proof fn lemma_without_absent(s: Seq<u64>, x: u64)
    requires
        !s.contains(x),
    ensures
        without(s, x) == s,
    decreases s.len(),
{
    if s.len() > 0 {
        assert(!s.drop_last().contains(x)) by {
            if s.drop_last().contains(x) {
                let i = choose|i: int| 0 <= i < s.drop_last().len() && s.drop_last()[i] == x;
                assert(s[i] == x);
            }
        }
        lemma_without_absent(s.drop_last(), x);
        assert(s.last() != x) by {
            assert(s[s.len() - 1] == s.last());
        }
        assert(s.drop_last().push(s.last()) =~= s);
    }
}

/// Removing an element that is present makes the list strictly shorter.
pub proof fn lemma_without_present(s: Seq<u64>, x: u64)
    requires
        s.contains(x),
    ensures
        without(s, x).len() < s.len(),
    decreases s.len(),
{
    lemma_without_contains(s.drop_last(), x);
    if s.last() != x {
        assert(s.drop_last().contains(x)) by {
            let i = choose|i: int| 0 <= i < s.len() && s[i] == x;
            assert(i != s.len() - 1);
            assert(s.drop_last()[i] == x);
        }
        lemma_without_present(s.drop_last(), x);
    }
}

/// Removal keeps a duplicate-free list duplicate-free.
pub proof fn lemma_without_no_dup(s: Seq<u64>, x: u64)
    requires
        s.no_duplicates(),
    ensures
        without(s, x).no_duplicates(),
    decreases s.len(),
{
    if s.len() > 0 {
        let d = s.drop_last();
        assert(d.no_duplicates()) by {
            assert forall|i: int, j: int|
                0 <= i < d.len() && 0 <= j < d.len() && i != j implies d[i] != d[j] by {
                assert(d[i] == s[i] && d[j] == s[j]);
            }
        }
        lemma_without_no_dup(d, x);
        lemma_without_contains(d, x);
        let rest = without(d, x);
        if s.last() != x {
            assert(!d.contains(s.last())) by {
                if d.contains(s.last()) {
                    let i = choose|i: int| 0 <= i < d.len() && d[i] == s.last();
                    assert(s[i] == s[s.len() - 1]);
                }
            }
            assert(!rest.contains(s.last()));
            let r = rest.push(s.last());
            assert forall|i: int, j: int|
                0 <= i < r.len() && 0 <= j < r.len() && i != j implies r[i] != r[j] by {
                if i < rest.len() && j < rest.len() {
                } else if i < rest.len() {
                    assert(r[j] == s.last());
                    assert(rest[i] != s.last()) by {
                        if rest[i] == s.last() {
                            assert(rest.contains(s.last()));
                        }
                    }
                } else if j < rest.len() {
                    assert(r[i] == s.last());
                    assert(rest[j] != s.last()) by {
                        if rest[j] == s.last() {
                            assert(rest.contains(s.last()));
                        }
                    }
                }
            }
        }
    }
}

/// Remove every occurrence of `x` from `v`.
pub fn remove_all(v: &mut Vec<u64>, x: u64)
    ensures
        final(v)@ == without(old(v)@, x),
{
    let ghost s = v@;
    let mut out: Vec<u64> = Vec::new();
    let mut i: usize = 0;
    while i < v.len()
        invariant
            v@ == s,
            0 <= i <= s.len(),
            out@ == without(s.take(i as int), x),
        decreases s.len() - i,
    {
        proof {
            assert(s.take(i + 1).drop_last() =~= s.take(i as int));
            assert(s.take(i + 1).last() == s[i as int]);
        }
        if v[i] != x {
            out.push(v[i]);
        }
        i = i + 1;
    }
    proof {
        assert(s.take(s.len() as int) =~= s);
    }
    *v = out;
}

/// Index of the first occurrence of `x` in `v`.
pub fn find_first(v: &Vec<u64>, x: u64) -> (r: Option<usize>)
    ensures
        match r {
            Some(i) => v@.index_of_first(x) == Some(i as int) && i < v@.len() && v@[i as int] == x,
            None => v@.index_of_first(x) == None::<int>,
        },
{
    proof {
        v@.index_of_first_ensures(x);
    }
    let mut i: usize = 0;
    while i < v.len()
        invariant
            0 <= i <= v@.len(),
            forall|j: int| 0 <= j < i ==> v@[j] != x,
        decreases v@.len() - i,
    {
        if v[i] == x {
            proof {
                v@.index_of_first_ensures(x);
                assert(v@[i as int] == x);
                let k = v@.index_of_first(x)->0;
                assert(k == i);
            }
            return Some(i);
        }
        i = i + 1;
    }
    proof {
        assert(!v@.contains(x));
    }
    None
}

/// Index of the last occurrence of `x` in `v`.
pub fn find_last(v: &Vec<u64>, x: u64) -> (r: Option<usize>)
    ensures
        match r {
            Some(i) => v@.index_of_last(x) == Some(i as int) && i < v@.len() && v@[i as int] == x,
            None => v@.index_of_last(x) == None::<int>,
        },
{
    proof {
        v@.index_of_last_ensures(x);
    }
    let mut i: usize = v.len();
    while i > 0
        invariant
            0 <= i <= v@.len(),
            forall|j: int| i <= j < v@.len() ==> v@[j] != x,
        decreases i,
    {
        if v[i - 1] == x {
            proof {
                v@.index_of_last_ensures(x);
                assert(v@[i - 1] == x);
                let k = v@.index_of_last(x)->0;
                assert(k == i - 1);
            }
            return Some(i - 1);
        }
        i = i - 1;
    }
    proof {
        assert(!v@.contains(x));
    }
    None
}

} // verus!
