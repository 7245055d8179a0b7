//! Facts about tables held as sequences of rows: the first row that
//! matches, and what a filter keeps.

use vstd::prelude::*;

verus! {

/// The first row that satisfies `wanted`, if any.
pub open spec fn first_match<A>(rows: Seq<A>, wanted: spec_fn(A) -> bool)
    -> Option<A> {
    let found = rows.filter(wanted);
    if found.len() > 0 {
        Some(found[0])
    } else {
        None
    }
}

/// A prefix that holds no match adds nothing in front of the first match.
pub proof fn lemma_first_match_at<A>(
    rows: Seq<A>,
    wanted: spec_fn(A) -> bool,
    i: int,
)
    requires
        0 <= i < rows.len(),
        wanted(rows[i]),
        rows.take(i).filter(wanted).len() == 0,
    ensures
        first_match(rows, wanted) == Some(rows[i]),
        rows.filter(wanted).len() > 0,
{
    let head = rows.take(i + 1);
    let tail = rows.skip(i + 1);
    assert(head =~= rows.take(i).push(rows[i]));
    rows.take(i).lemma_filter_push(rows[i], wanted);
    assert(rows =~= head + tail);
    Seq::filter_distributes_over_add(head, tail, wanted);
    assert(rows.take(i).filter(wanted) =~= Seq::<A>::empty());
}

/// A filter over one more row of the table.
pub proof fn lemma_filter_step<A>(
    rows: Seq<A>,
    wanted: spec_fn(A) -> bool,
    i: int,
)
    requires
        0 <= i < rows.len(),
    ensures
        rows.take(i + 1).filter(wanted) == if wanted(rows[i]) {
            rows.take(i).filter(wanted).push(rows[i])
        } else {
            rows.take(i).filter(wanted)
        },
{
    assert(rows.take(i + 1) =~= rows.take(i).push(rows[i]));
    rows.take(i).lemma_filter_push(rows[i], wanted);
}

/// A filter keeps a table whose rows all pass it as it is.
pub proof fn lemma_filter_of_passing<A>(rows: Seq<A>, keep: spec_fn(A) -> bool)
    requires
        forall|i: int| 0 <= i < rows.len() ==> keep(#[trigger] rows[i]),
    ensures
        rows.filter(keep) == rows,
    decreases rows.len(),
{
    reveal(Seq::filter);
    if rows.len() > 0 {
        let front = rows.drop_last();
        assert forall|i: int| 0 <= i < front.len() implies keep(#[trigger] front[i]) by {
            assert(front[i] == rows[i]);
        }
        lemma_filter_of_passing(front, keep);
        assert(keep(rows[rows.len() - 1]));
        assert(front.push(rows.last()) =~= rows);
    }
}

/// A row is in a filtered table exactly when it is in the table and passes
/// the filter.
pub proof fn lemma_filter_membership<A>(
    rows: Seq<A>,
    keep: spec_fn(A) -> bool,
    row: A,
)
    ensures
        rows.filter(keep).contains(row) <==> rows.contains(row) && keep(row),
    decreases rows.len(),
{
    reveal(Seq::filter);
    if rows.len() > 0 {
        let front = rows.drop_last();
        lemma_filter_membership(front, keep, row);
        if rows.contains(row) {
            let i = choose|i: int| 0 <= i < rows.len() && rows[i] == row;
            if i < rows.len() - 1 {
                assert(front[i] == row);
            }
        }
        if front.contains(row) {
            let i = choose|i: int| 0 <= i < front.len() && front[i] == row;
            assert(rows[i] == row);
        }
        if keep(rows.last()) {
            let kept = front.filter(keep);
            let all = kept.push(rows.last());
            if all.contains(row) {
                let i = choose|i: int| 0 <= i < all.len() && all[i] == row;
                if i < kept.len() {
                    assert(kept[i] == row);
                } else {
                    assert(rows[rows.len() - 1] == row);
                }
            }
            if kept.contains(row) {
                let i = choose|i: int| 0 <= i < kept.len() && kept[i] == row;
                assert(all[i] == row);
            }
            if row == rows.last() {
                assert(all[all.len() - 1] == row);
                assert(rows[rows.len() - 1] == row);
            }
        }
    }
}

} // verus!
