//! Sorting the row collection by the identity field, ascending or
//! descending, together with the permutation lemma that column reordering
//! shares.

use vstd::prelude::*;
use vstd::seq_lib::group_to_multiset_ensures;
use crate::stock::Stock;

verus! {

/// The table's row order: `a` may stand at or before `b` in the chosen
/// direction.
pub open spec fn ids_in_order(a: int, b: int, descending: bool) -> bool {
    if descending {
        a >= b
    } else {
        a <= b
    }
}

/// The first `n` rows are sorted by id in the given direction.
pub open spec fn sorted_prefix(s: Seq<Stock>, n: int, descending: bool) -> bool {
    forall|i: int, j: int|
        0 <= i < j < n ==> ids_in_order(
            (#[trigger] s[i]).id as int,
            (#[trigger] s[j]).id as int,
            descending,
        )
}

/// The row sequence is sorted by id in the given direction: non-increasing
/// when `descending`, non-decreasing otherwise.
pub open spec fn sorted_by_id(s: Seq<Stock>, descending: bool) -> bool {
    sorted_prefix(s, s.len() as int, descending)
}

/// Removing the element at `from` and reinserting it at `to` permutes the
/// sequence: the multiset of elements and the length are unchanged.
pub proof fn lemma_remove_insert_multiset<A>(s: Seq<A>, from: int, to: int)
    requires
        0 <= from < s.len(),
        0 <= to < s.len(),
    ensures
        s.remove(from).insert(to, s[from]).len() == s.len(),
        s.remove(from).insert(to, s[from]).to_multiset() == s.to_multiset(),
{
    broadcast use group_to_multiset_ensures;

    let x = s[from];
    let r = s.remove(from);
    assert(s.contains(x));
    assert(s.to_multiset().count(x) > 0);
    assert(r.insert(to, x).to_multiset() == r.to_multiset().insert(x));
    assert(r.to_multiset() == s.to_multiset().remove(x));
    assert(s.to_multiset().remove(x).insert(x) =~= s.to_multiset());
}

/// `true` iff a row with id `earlier` may not stand before one with id
/// `later` in the chosen direction.
fn ids_out_of_order(earlier: usize, later: usize, descending: bool) -> (r: bool)
    ensures
        r == !ids_in_order(earlier as int, later as int, descending),
{
    if descending {
        earlier < later
    } else {
        earlier > later
    }
}

/// Insertion sort of the rows by id. The result is sorted in the chosen
/// direction and is a permutation of the input; an input that is already
/// sorted comes back exactly unchanged, which makes sorting idempotent.
pub fn sort_stocks_by_id(v: &mut Vec<Stock>, descending: bool)
    ensures
        final(v)@.len() == old(v)@.len(),
        final(v)@.to_multiset() == old(v)@.to_multiset(),
        sorted_by_id(final(v)@, descending),
        sorted_by_id(old(v)@, descending) ==> final(v)@ == old(v)@,
{
    let ghost orig = v@;
    let len = v.len();
    if len == 0 {
        return ;
    }
    for i in 1..len
        invariant
            v@.len() == orig.len(),
            len == orig.len(),
            1 <= i <= len,
            v@.to_multiset() == orig.to_multiset(),
            sorted_prefix(v@, i as int, descending),
            sorted_by_id(orig, descending) ==> v@ == orig,
    {
        let ghost cur = v@;
        let x_id = v[i].id;
        let mut p = i;
        while p > 0 && ids_out_of_order(v[p - 1].id, x_id, descending)
            invariant
                0 < i < v@.len(),
                0 <= p <= i,
                v@ == cur,
                x_id == cur[i as int].id,
                sorted_prefix(cur, i as int, descending),
                forall|k: int|
                    p <= k < i ==> !ids_in_order(
                        (#[trigger] cur[k]).id as int,
                        x_id as int,
                        descending,
                    ),
                sorted_by_id(orig, descending) ==> p == i && cur == orig,
            decreases p,
        {
            proof {
                if sorted_by_id(orig, descending) {
                    assert(cur[p - 1] == orig[p - 1]);
                    assert(cur[i as int] == orig[i as int]);
                    assert(ids_in_order(orig[p - 1].id as int, orig[i as int].id as int,
                            descending));
                    assert(false);
                }
            }
            p = p - 1;
        }
        proof {
            if p > 0 {
                assert(ids_in_order(cur[p - 1].id as int, x_id as int, descending));
            }
        }
        if p != i {
            let moved = v.remove(i);
            v.insert(p, moved);
            proof {
                lemma_remove_insert_multiset(cur, i as int, p as int);
                let upd = v@;
                assert(upd == cur.remove(i as int).insert(p as int, cur[i as int]));
                assert(upd.len() == cur.len());
                assert forall|k: int| 0 <= k < i + 1 implies (#[trigger] upd[k]) == (if k < p {
                    cur[k]
                } else if k == p {
                    cur[i as int]
                } else {
                    cur[k - 1]
                }) by {
                    assert(upd == cur.remove(i as int).insert(p as int, cur[i as int]));
                }
                assert forall|a: int, b: int| 0 <= a < b < i + 1 implies ids_in_order(
                    upd[a].id as int,
                    upd[b].id as int,
                    descending,
                ) by {
                    if a == p {
                        // `upd[a]` is the moved row; everything it passed is
                        // strictly after it.
                        assert(!ids_in_order(cur[b - 1].id as int, x_id as int, descending));
                    } else if b == p {
                        // `a < p`: the scan stopped at `p`, so `cur[p - 1]`
                        // is in order with the moved row.
                        if a < p - 1 {
                            assert(ids_in_order(cur[a].id as int, cur[p - 1].id as int,
                                    descending));
                        }
                    } else if a < p && b > p {
                        if a < b - 1 {
                            assert(ids_in_order(cur[a].id as int, cur[b - 1].id as int,
                                    descending));
                        }
                    }
                }
                assert(sorted_prefix(v@, i + 1, descending));
            }
        } else {
            proof {
                assert forall|a: int, b: int| 0 <= a < b < i + 1 implies ids_in_order(
                    v@[a].id as int,
                    v@[b].id as int,
                    descending,
                ) by {
                    if b == i {
                        // `p == i > 0`: the scan stopped immediately, so the
                        // last sorted row is in order with row `i`.
                        if a < i - 1 {
                            assert(ids_in_order(cur[a].id as int, cur[i - 1].id as int,
                                    descending));
                        }
                        assert(ids_in_order(cur[i - 1].id as int, x_id as int, descending));
                    }
                }
                assert(sorted_prefix(v@, i + 1, descending));
            }
        }
    }
    proof {
        assert(sorted_prefix(v@, len as int, descending));
    }
}

} // verus!
