//! Sequences of rows: their views, and what filtering does to them.

use vstd::prelude::*;

verus! {

/// The views of the rows, in their order.
pub open spec fn views<T: View>(rows: Seq<T>) -> Seq<T::V> {
    Seq::new(rows.len(), |i: int| rows[i]@)
}

/// The views of a sequence that has grown by one row.
pub proof fn lemma_views_push<T: View>(rows: Seq<T>, row: T)
    ensures
        views(rows.push(row)) == views(rows).push(row@),
{
    assert(views(rows.push(row)) =~= views(rows).push(row@));
}

/// A filter keeps the last row where it passes and drops it where not.
pub proof fn lemma_filter_push<T>(rows: Seq<T>, row: T, keep: spec_fn(T) -> bool)
    ensures
        rows.push(row).filter(keep) == if keep(row) {
            rows.filter(keep).push(row)
        } else {
            rows.filter(keep)
        },
{
    reveal(Seq::filter);
    assert(rows.push(row).drop_last() =~= rows);
}

/// A filter of no rows keeps none.
pub proof fn lemma_filter_empty<T>(keep: spec_fn(T) -> bool)
    ensures
        Seq::<T>::empty().filter(keep) == Seq::<T>::empty(),
{
    reveal(Seq::filter);
}

/// The filter of one row more than the first `n`.
pub proof fn lemma_filter_take<T>(rows: Seq<T>, n: int, keep: spec_fn(T) -> bool)
    requires
        0 <= n < rows.len(),
    ensures
        rows.take(n + 1).filter(keep) == if keep(rows[n]) {
            rows.take(n).filter(keep).push(rows[n])
        } else {
            rows.take(n).filter(keep)
        },
{
    assert(rows.take(n + 1) =~= rows.take(n).push(rows[n]));
    lemma_filter_push(rows.take(n), rows[n], keep);
}

/// A filter that no row passes keeps none.
pub proof fn lemma_filter_none<T>(rows: Seq<T>, keep: spec_fn(T) -> bool)
    requires
        forall|i: int| 0 <= i < rows.len() ==> !keep(#[trigger] rows[i]),
    ensures
        rows.filter(keep) == Seq::<T>::empty(),
    decreases rows.len(),
{
    reveal(Seq::filter);
    if rows.len() > 0 {
        lemma_filter_none(rows.drop_last(), keep);
    }
}

/// A filter that every row passes keeps all.
pub proof fn lemma_filter_all<T>(rows: Seq<T>, keep: spec_fn(T) -> bool)
    requires
        forall|i: int| 0 <= i < rows.len() ==> keep(#[trigger] rows[i]),
    ensures
        rows.filter(keep) == rows,
    decreases rows.len(),
{
    reveal(Seq::filter);
    if rows.len() > 0 {
        lemma_filter_all(rows.drop_last(), keep);
        assert(rows.drop_last().push(rows.last()) =~= rows);
    }
}

/// Every row that a filter keeps passes it and stands in the rows it was
/// taken from, and every row that passes is kept.
pub proof fn lemma_filter_rows<T>(rows: Seq<T>, keep: spec_fn(T) -> bool)
    ensures
        forall|i: int|
            0 <= i < rows.filter(keep).len() ==> keep(#[trigger] rows.filter(keep)[i])
                && rows.contains(rows.filter(keep)[i]),
        forall|i: int|
            0 <= i < rows.len() && keep(#[trigger] rows[i]) ==> rows.filter(keep).contains(rows[i]),
    decreases rows.len(),
{
    reveal(Seq::filter);
    if rows.len() > 0 {
        let front = rows.drop_last();
        lemma_filter_rows(front, keep);
        let kept = rows.filter(keep);
        assert forall|i: int| 0 <= i < kept.len() implies keep(#[trigger] kept[i]) && rows.contains(
            kept[i],
        ) by {
            if i < front.filter(keep).len() {
                let r = front.filter(keep)[i];
                assert(front.contains(r));
                let j = choose|j: int| 0 <= j < front.len() && front[j] == r;
                assert(rows[j] == r);
            } else {
                assert(kept[i] == rows.last());
                assert(rows[rows.len() - 1] == rows.last());
            }
        }
        assert forall|i: int| 0 <= i < rows.len() && keep(#[trigger] rows[i]) implies kept.contains(
            rows[i],
        ) by {
            if i < front.len() {
                assert(front[i] == rows[i]);
                assert(front.filter(keep).contains(front[i]));
                let j = choose|j: int|
                    0 <= j < front.filter(keep).len() && front.filter(keep)[j] == front[i];
                assert(kept[j] == rows[i]);
            } else {
                assert(kept[kept.len() - 1] == rows[i]);
            }
        }
    }
}

/// A filter and a change of the rows may swap places where the change
/// leaves alone what the filter looks at.
pub proof fn lemma_filter_mapped<T>(rows: Seq<T>, change: spec_fn(T) -> T, keep: spec_fn(T) -> bool)
    requires
        forall|row: T| #[trigger] keep(change(row)) == keep(row),
    ensures
        rows.map_values(change).filter(keep) == rows.filter(keep).map_values(change),
    decreases rows.len(),
{
    reveal(Seq::filter);
    if rows.len() == 0 {
        assert(rows.map_values(change) =~= Seq::<T>::empty());
        assert(rows.filter(keep).map_values(change) =~= Seq::<T>::empty());
    } else {
        let front = rows.drop_last();
        lemma_filter_mapped(front, change, keep);
        assert(rows.map_values(change).drop_last() =~= front.map_values(change));
        assert(rows.map_values(change).last() == change(rows.last()));
        if keep(rows.last()) {
            assert(front.filter(keep).push(rows.last()).map_values(change) =~= front.filter(
                keep,
            ).map_values(change).push(change(rows.last())));
        }
    }
}

} // verus!
