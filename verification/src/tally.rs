//! Counting and listing the elements of a sequence that satisfy a predicate.

use vstd::prelude::*;

verus! {

/// How many elements of `s` satisfy `pred`.
pub open spec fn count_where<A>(s: Seq<A>, pred: spec_fn(A) -> bool) -> nat
    decreases s.len(),
{
    if s.len() == 0 {
        0
    } else {
        count_where(s.drop_last(), pred) + if pred(s.last()) { 1nat } else { 0nat }
    }
}

/// The count of a prefix grows by one exactly when the next element satisfies
/// the predicate.
pub proof fn lemma_count_take_step<A>(s: Seq<A>, pred: spec_fn(A) -> bool, i: int)
    requires
        0 <= i < s.len(),
    ensures
        count_where(s.take(i + 1), pred) == count_where(s.take(i), pred) + if pred(s[i]) {
            1nat
        } else {
            0nat
        },
{
    assert(s.take(i + 1).drop_last() =~= s.take(i));
}

/// The positions among the first `k` elements of `s` that satisfy `pred`,
/// in order.
pub open spec fn positions_where<A>(s: Seq<A>, pred: spec_fn(A) -> bool, k: nat) -> Seq<usize>
    decreases k,
{
    if k == 0 {
        Seq::empty()
    } else {
        let before = positions_where(s, pred, (k - 1) as nat);
        if pred(s[k - 1]) {
            before.push((k - 1) as usize)
        } else {
            before
        }
    }
}

/// A position list holds exactly the positions that satisfy the predicate:
/// each listed position is below `k` and satisfies it, the positions rise,
/// and every satisfying position below `k` is listed.
pub proof fn lemma_positions_where_exact<A>(s: Seq<A>, pred: spec_fn(A) -> bool, k: nat)
    requires
        k <= s.len(),
        s.len() <= usize::MAX,
    ensures
        forall|j: int|
            0 <= j < positions_where(s, pred, k).len() ==> {
                let p = #[trigger] positions_where(s, pred, k)[j];
                p < k && pred(s[p as int])
            },
        forall|i: int, j: int|
            0 <= i < j < positions_where(s, pred, k).len() ==> #[trigger] positions_where(
                s,
                pred,
                k,
            )[i] < #[trigger] positions_where(s, pred, k)[j],
        forall|p: int|
            0 <= p < k && pred(#[trigger] s[p]) ==> positions_where(s, pred, k).contains(
                p as usize,
            ),
    decreases k,
{
    if k > 0 {
        let k1 = (k - 1) as nat;
        lemma_positions_where_exact(s, pred, k1);
        let before = positions_where(s, pred, k1);
        if pred(s[k - 1]) {
            let last = (k - 1) as usize;
            assert(last == k - 1);
            let after = before.push(last);
            assert(after == positions_where(s, pred, k));
            assert forall|j: int| 0 <= j < after.len() implies {
                let p = #[trigger] after[j];
                p < k && pred(s[p as int])
            } by {
                if j < before.len() {
                    assert(after[j] == before[j]);
                }
            }
            assert forall|i: int, j: int| 0 <= i < j < after.len() implies #[trigger] after[i]
                < #[trigger] after[j] by {
                assert(after[i] == before[i]);
                if j < before.len() {
                    assert(after[j] == before[j]);
                } else {
                    assert(before[i] < k1);
                }
            }
            assert forall|p: int| 0 <= p < k && pred(#[trigger] s[p]) implies after.contains(
                p as usize,
            ) by {
                if p < k - 1 {
                    assert(before.contains(p as usize));
                    let j = choose|j: int| 0 <= j < before.len() && before[j] == p as usize;
                    assert(after[j] == p as usize);
                } else {
                    assert(after[before.len() as int] == p as usize);
                }
            }
        }
    }
}

/// One more element extends the position list exactly when it satisfies the
/// predicate.
pub proof fn lemma_positions_where_step<A>(s: Seq<A>, pred: spec_fn(A) -> bool, i: int)
    requires
        0 <= i < s.len(),
    ensures
        positions_where(s, pred, (i + 1) as nat) == if pred(s[i]) {
            positions_where(s, pred, i as nat).push(i as usize)
        } else {
            positions_where(s, pred, i as nat)
        },
{
}

/// The predicate on items that holds when `pred` holds of the item's key.
pub open spec fn keyed<A, B>(key: spec_fn(B) -> A, pred: spec_fn(A) -> bool) -> spec_fn(B) -> bool {
    |b: B| pred(key(b))
}

/// The items at the listed positions.
pub open spec fn picked<B>(items: Seq<B>, positions: Seq<usize>) -> Seq<B> {
    positions.map_values(|p: usize| items[p as int])
}

/// Listing the positions whose key satisfies `pred`, then taking the items
/// at those positions, filters the items by their key, order kept.
pub proof fn lemma_picked_positions_filter<A, B>(
    items: Seq<B>,
    key: spec_fn(B) -> A,
    pred: spec_fn(A) -> bool,
    k: nat,
)
    requires
        k <= items.len(),
        items.len() <= usize::MAX,
    ensures
        picked(items, positions_where(items.map_values(key), pred, k)) == items.take(
            k as int,
        ).filter(keyed(key, pred)),
    decreases k,
{
    reveal(Seq::filter);
    let keys = items.map_values(key);
    if k == 0 {
        assert(items.take(0) =~= Seq::<B>::empty());
        assert(picked(items, positions_where(keys, pred, 0)) =~= Seq::<B>::empty());
    } else {
        lemma_picked_positions_filter(items, key, pred, (k - 1) as nat);
        let t = items.take(k as int);
        assert(t.drop_last() =~= items.take(k - 1));
        assert(t.last() == items[k - 1]);
        assert(keys[k - 1] == key(items[k - 1]));
        let before = positions_where(keys, pred, (k - 1) as nat);
        if pred(keys[k - 1]) {
            assert(picked(items, before.push((k - 1) as usize)) =~= picked(items, before).push(
                items[k - 1],
            ));
        }
    }
}

} // verus!
