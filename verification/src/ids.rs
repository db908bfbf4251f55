//! Sets of ids for the batch lookups of the list pages.
use vstd::prelude::*;

verus! {

pub open spec fn strictly_sorted(s: Seq<i64>) -> bool {
    forall|i: int, j: int| 0 <= i < j < s.len() ==> s[i] < s[j]
}

pub open spec fn same_members(a: Seq<i64>, b: Seq<i64>) -> bool {
    forall|v: i64| a.contains(v) <==> b.contains(v)
}

/// The ids in increasing order, each once (`sort_unstable` then `dedup`).
pub fn sorted_unique(ids: &Vec<i64>) -> (r: Vec<i64>)
    ensures
        strictly_sorted(r@),
        same_members(r@, ids@),
{
    let mut r: Vec<i64> = Vec::new();
    let mut i: usize = 0;
    while i < ids.len()
        invariant
            i <= ids.len(),
            strictly_sorted(r@),
            same_members(r@, ids@.take(i as int)),
        decreases ids.len() - i,
    {
        let x = ids[i];
        let mut p: usize = 0;
        while p < r.len() && r[p] < x
            invariant
                p <= r.len(),
                strictly_sorted(r@),
                forall|k: int| 0 <= k < p ==> r@[k] < x,
            decreases r.len() - p,
        {
            p = p + 1;
        }
        let ghost old_r = r@;
        if p < r.len() && r[p] == x {
            // already there
        } else {
            r.insert(p, x);
            assert(r@ == old_r.insert(p as int, x));
            assert forall|a: int, b: int| 0 <= a < b < r@.len() implies r@[a] < r@[b] by {
                if b < p {
                    assert(r@[a] == old_r[a] && r@[b] == old_r[b]);
                } else if b == p {
                    assert(r@[a] == old_r[a]);
                } else if a < p {
                    assert(r@[b] == old_r[b - 1]);
                    assert(old_r[b - 1] > x || p < old_r.len());
                    if a < p {
                        assert(r@[a] == old_r[a]);
                    }
                } else if a == p {
                    assert(r@[b] == old_r[b - 1]);
                    assert(old_r[p as int] >= x);
                    assert(old_r[p as int] != x);
                    if b - 1 > p {
                        assert(old_r[p as int] < old_r[b - 1]);
                    }
                } else {
                    assert(r@[a] == old_r[a - 1] && r@[b] == old_r[b - 1]);
                }
            }
        }
        proof {
            let t = ids@.take(i + 1);
            assert(t =~= ids@.take(i as int).push(x));
            assert forall|v: i64| r@.contains(v) <==> t.contains(v) by {
                if r@.contains(v) {
                    let k = choose|k: int| 0 <= k < r@.len() && r@[k] == v;
                    if v != x {
                        if k < p {
                            assert(old_r[k] == v);
                            assert(old_r.contains(v));
                        } else if r@.len() == old_r.len() {
                            assert(old_r[k] == v);
                            assert(old_r.contains(v));
                        } else if k > p {
                            assert(old_r[k - 1] == v);
                            assert(old_r.contains(v));
                        }
                        assert(ids@.take(i as int).contains(v));
                        let m = choose|m: int| 0 <= m < i && ids@.take(i as int)[m] == v;
                        assert(t[m] == v);
                    } else {
                        assert(t[i as int] == x);
                    }
                }
                if t.contains(v) {
                    let m = choose|m: int| 0 <= m < t.len() && t[m] == v;
                    if m < i {
                        assert(ids@.take(i as int)[m] == v);
                        assert(old_r.contains(v));
                        let k = choose|k: int| 0 <= k < old_r.len() && old_r[k] == v;
                        if r@.len() == old_r.len() {
                            assert(r@[k] == v);
                        } else if k < p {
                            assert(r@[k] == v);
                        } else {
                            assert(r@[k + 1] == v);
                        }
                    } else {
                        if r@.len() == old_r.len() {
                            assert(r@[p as int] == x);
                        } else {
                            assert(r@[p as int] == x);
                        }
                    }
                }
            }
        }
        i = i + 1;
    }
    assert(ids@.take(ids.len() as int) =~= ids@);
    r
}

pub open spec fn no_repeats(s: Seq<i64>) -> bool {
    forall|i: int, j: int| 0 <= i < j < s.len() ==> s[i] != s[j]
}

/// The ids each once, in the order they first occur.
pub fn distinct_ids(ids: &Vec<i64>) -> (r: Vec<i64>)
    ensures
        no_repeats(r@),
        same_members(r@, ids@),
{
    let mut r: Vec<i64> = Vec::new();
    let mut i: usize = 0;
    while i < ids.len()
        invariant
            i <= ids.len(),
            no_repeats(r@),
            same_members(r@, ids@.take(i as int)),
        decreases ids.len() - i,
    {
        let x = ids[i];
        let mut seen = false;
        let mut k: usize = 0;
        while k < r.len()
            invariant
                k <= r.len(),
                seen <==> exists|m: int| 0 <= m < k && r@[m] == x,
            decreases r.len() - k,
        {
            if r[k] == x {
                seen = true;
            }
            k = k + 1;
        }
        let ghost old_r = r@;
        if !seen {
            r.push(x);
        }
        proof {
            let t = ids@.take(i + 1);
            assert(t =~= ids@.take(i as int).push(x));
            assert forall|v: i64| r@.contains(v) <==> t.contains(v) by {
                if r@.contains(v) {
                    let k2 = choose|k2: int| 0 <= k2 < r@.len() && r@[k2] == v;
                    if k2 < old_r.len() {
                        assert(old_r[k2] == v);
                        assert(old_r.contains(v));
                        let m = choose|m: int| 0 <= m < i && ids@.take(i as int)[m] == v;
                        assert(t[m] == v);
                    } else {
                        assert(t[i as int] == v);
                    }
                }
                if t.contains(v) {
                    let m = choose|m: int| 0 <= m < t.len() && t[m] == v;
                    if m < i {
                        assert(ids@.take(i as int)[m] == v);
                        assert(old_r.contains(v));
                        let k2 = choose|k2: int| 0 <= k2 < old_r.len() && old_r[k2] == v;
                        assert(r@[k2] == v);
                    } else if seen {
                        let k2 = choose|k2: int| 0 <= k2 < old_r.len() && old_r[k2] == x;
                        assert(r@[k2] == v);
                    } else {
                        assert(r@[old_r.len() as int] == v);
                    }
                }
            }
        }
        i = i + 1;
    }
    assert(ids@.take(ids.len() as int) =~= ids@);
    r
}

/// How many distinct ids a list holds.
pub open spec fn distinct_ids_count(ids: Seq<i64>) -> nat {
    ids.to_set().len()
}

/// A list without repeats has as many members as ids.
pub proof fn lemma_distinct_count(r: Seq<i64>, ids: Seq<i64>)
    requires
        no_repeats(r),
        same_members(r, ids),
    ensures
        r.len() == distinct_ids_count(ids),
{
    assert(r.to_set() =~= ids.to_set()) by {
        assert forall|v: i64| r.to_set().contains(v) <==> ids.to_set().contains(v) by {
            assert(r.contains(v) <==> ids.contains(v));
        }
    }
    r.unique_seq_to_set();
}

/// Sorting and removing repeats gives one answer for a set of ids: two
/// strictly increasing lists with the same members are the same list, so
/// the result does not depend on the order or the repeats of the input.
pub proof fn lemma_sorted_members_determine(a: Seq<i64>, b: Seq<i64>)
    requires
        strictly_sorted(a),
        strictly_sorted(b),
        same_members(a, b),
    ensures
        a == b,
    decreases a.len() + b.len(),
{
    if a.len() == 0 {
        if b.len() > 0 {
            assert(b.contains(b[0]));
            assert(a.contains(b[0]));
        }
        assert(a =~= b);
    } else if b.len() == 0 {
        assert(a.contains(a[0]));
        assert(b.contains(a[0]));
    } else {
        // the greatest members agree
        let x = a.last();
        let y = b.last();
        assert(a.contains(x));
        assert(b.contains(x));
        assert(b.contains(y));
        assert(a.contains(y));
        let ix = choose|k: int| 0 <= k < b.len() && b[k] == x;
        let iy = choose|k: int| 0 <= k < a.len() && a[k] == y;
        assert(x <= y) by {
            if ix < b.len() - 1 {
                assert(b[ix] < b[b.len() - 1]);
            }
        }
        assert(y <= x) by {
            if iy < a.len() - 1 {
                assert(a[iy] < a[a.len() - 1]);
            }
        }
        let a2 = a.drop_last();
        let b2 = b.drop_last();
        assert forall|v: i64| a2.contains(v) <==> b2.contains(v) by {
            if a2.contains(v) {
                let k = choose|k: int| 0 <= k < a2.len() && a2[k] == v;
                assert(a[k] == v && a[k] < x);
                assert(b.contains(v));
                let m = choose|m: int| 0 <= m < b.len() && b[m] == v;
                assert(m != b.len() - 1);
                assert(b2[m] == v);
            }
            if b2.contains(v) {
                let k = choose|k: int| 0 <= k < b2.len() && b2[k] == v;
                assert(b[k] == v && b[k] < y);
                assert(a.contains(v));
                let m = choose|m: int| 0 <= m < a.len() && a[m] == v;
                assert(m != a.len() - 1);
                assert(a2[m] == v);
            }
        }
        lemma_sorted_members_determine(a2, b2);
        assert(a =~= a2.push(x));
        assert(b =~= b2.push(y));
    }
}

} // verus!
