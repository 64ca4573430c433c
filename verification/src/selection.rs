//! Facts about the rows that a predicate selects from a table, a table being
//! a sequence of rows in the order in which they were stored.

use vstd::prelude::*;

verus! {

/// The predicate that holds of the rows of which `pred` does not hold.
pub open spec fn negate<A>(pred: spec_fn(A) -> bool) -> spec_fn(A) -> bool {
    |row: A| !pred(row)
}

/// Selecting from a table with one more row selects that row too, or not.
pub proof fn lemma_select_push<A>(rows: Seq<A>, row: A, pred: spec_fn(A) -> bool)
    ensures
        rows.push(row).filter(pred) == if pred(row) {
            rows.filter(pred).push(row)
        } else {
            rows.filter(pred)
        },
{
    reveal(Seq::filter);
    assert(rows.push(row).drop_last() =~= rows);
}

/// Selecting from the first `n + 1` rows extends what the first `n` rows give.
pub proof fn lemma_select_step<A>(rows: Seq<A>, n: int, pred: spec_fn(A) -> bool)
    requires
        0 <= n < rows.len(),
    ensures
        rows.take(n + 1).filter(pred) == if pred(rows[n]) {
            rows.take(n).filter(pred).push(rows[n])
        } else {
            rows.take(n).filter(pred)
        },
{
    assert(rows.take(n + 1) =~= rows.take(n).push(rows[n]));
    lemma_select_push(rows.take(n), rows[n], pred);
}

/// Nothing is selected from an empty table.
pub proof fn lemma_select_empty<A>(pred: spec_fn(A) -> bool)
    ensures
        Seq::<A>::empty().filter(pred) == Seq::<A>::empty(),
{
    reveal(Seq::filter);
}

/// Every row is either selected by a predicate or by its negation.
pub proof fn lemma_select_partition<A>(rows: Seq<A>, pred: spec_fn(A) -> bool)
    ensures
        rows.filter(pred).len() + rows.filter(negate(pred)).len() == rows.len(),
    decreases rows.len(),
{
    reveal(Seq::filter);
    if rows.len() > 0 {
        lemma_select_partition(rows.drop_last(), pred);
    }
}

/// A selected row is a row of the table, and the predicate holds of it.
pub proof fn lemma_selected_is_member<A>(rows: Seq<A>, pred: spec_fn(A) -> bool, k: int)
    requires
        0 <= k < rows.filter(pred).len(),
    ensures
        pred(rows.filter(pred)[k]),
        rows.contains(rows.filter(pred)[k]),
    decreases rows.len(),
{
    reveal(Seq::filter);
    if rows.len() > 0 {
        let head = rows.drop_last();
        if k < head.filter(pred).len() {
            lemma_selected_is_member(head, pred, k);
            let j = choose|j: int| 0 <= j < head.len() && head[j] == head.filter(pred)[k];
            assert(rows[j] == rows.filter(pred)[k]);
        } else {
            assert(rows[rows.len() - 1] == rows.filter(pred)[k]);
        }
    }
}

/// A row of the table of which the predicate holds is selected.
pub proof fn lemma_member_is_selected<A>(rows: Seq<A>, pred: spec_fn(A) -> bool, i: int)
    requires
        0 <= i < rows.len(),
        pred(rows[i]),
    ensures
        rows.filter(pred).contains(rows[i]),
    decreases rows.len(),
{
    reveal(Seq::filter);
    let head = rows.drop_last();
    let picked = rows.filter(pred);
    if i < rows.len() - 1 {
        lemma_member_is_selected(head, pred, i);
        let k = choose|k: int| 0 <= k < head.filter(pred).len() && head.filter(pred)[k] == head[i];
        assert(picked[k] == rows[i]);
    } else {
        assert(picked[picked.len() - 1] == rows[i]);
    }
}

/// Rows that differ pairwise in a key still do so after a selection.
pub proof fn lemma_select_keeps_keys_distinct<A, K>(
    rows: Seq<A>,
    pred: spec_fn(A) -> bool,
    key: spec_fn(A) -> K,
)
    requires
        forall|i: int, j: int| 0 <= i < j < rows.len() ==> key(rows[i]) != key(rows[j]),
    ensures
        forall|i: int, j: int|
            0 <= i < j < rows.filter(pred).len() ==> key(rows.filter(pred)[i]) != key(
                rows.filter(pred)[j],
            ),
    decreases rows.len(),
{
    reveal(Seq::filter);
    if rows.len() > 0 {
        let head = rows.drop_last();
        let last = rows.last();
        assert forall|i: int, j: int| 0 <= i < j < head.len() implies key(head[i]) != key(
            head[j],
        ) by {
            assert(head[i] == rows[i] && head[j] == rows[j]);
        }
        lemma_select_keeps_keys_distinct(head, pred, key);
        let picked = rows.filter(pred);
        assert forall|i: int, j: int| 0 <= i < j < picked.len() implies key(picked[i]) != key(
            picked[j],
        ) by {
            if j < head.filter(pred).len() {
                assert(picked[i] == head.filter(pred)[i]);
                assert(picked[j] == head.filter(pred)[j]);
            } else {
                assert(picked[j] == last);
                assert(picked[i] == head.filter(pred)[i]);
                lemma_selected_is_member(head, pred, i);
                let x = choose|x: int| 0 <= x < head.len() && head[x] == head.filter(pred)[i];
                assert(rows[x] == picked[i]);
                assert(rows[rows.len() - 1] == last);
            }
        }
    }
}

/// Where the predicate holds of no row, nothing is selected.
pub proof fn lemma_select_none<A>(rows: Seq<A>, pred: spec_fn(A) -> bool)
    requires
        forall|i: int| 0 <= i < rows.len() ==> !pred(#[trigger] rows[i]),
    ensures
        rows.filter(pred) == Seq::<A>::empty(),
        rows.filter(negate(pred)) == rows,
    decreases rows.len(),
{
    reveal(Seq::filter);
    if rows.len() > 0 {
        let head = rows.drop_last();
        assert forall|i: int| 0 <= i < head.len() implies !pred(#[trigger] head[i]) by {
            assert(head[i] == rows[i]);
        }
        lemma_select_none(head, pred);
        assert(head.push(rows.last()) =~= rows);
    }
}

/// Where rows differ pairwise in a key and a predicate holds only of rows
/// with one and the same key, it selects at most one row, and one if it holds
/// of any.
pub proof fn lemma_count_of_key<A, K>(rows: Seq<A>, pred: spec_fn(A) -> bool, key: spec_fn(A) -> K)
    requires
        forall|i: int, j: int| 0 <= i < j < rows.len() ==> key(rows[i]) != key(rows[j]),
        forall|i: int, j: int|
            0 <= i < rows.len() && 0 <= j < rows.len() && pred(rows[i]) && pred(rows[j]) ==> key(
                rows[i],
            ) == key(rows[j]),
    ensures
        rows.filter(pred).len() <= 1,
        (exists|i: int| 0 <= i < rows.len() && pred(rows[i])) ==> rows.filter(pred).len() == 1,
{
    let picked = rows.filter(pred);
    lemma_select_keeps_keys_distinct(rows, pred, key);
    if picked.len() >= 2 {
        lemma_selected_is_member(rows, pred, 0);
        lemma_selected_is_member(rows, pred, 1);
        let x = choose|x: int| 0 <= x < rows.len() && rows[x] == picked[0];
        let y = choose|y: int| 0 <= y < rows.len() && rows[y] == picked[1];
        assert(key(picked[0]) == key(picked[1]));
        assert(false);
    }
    if exists|i: int| 0 <= i < rows.len() && pred(rows[i]) {
        let i = choose|i: int| 0 <= i < rows.len() && pred(rows[i]);
        lemma_member_is_selected(rows, pred, i);
    }
}

} // verus!
