//! Facts about sequences that the proofs of this crate share.

use vstd::prelude::*;

verus! {

/// Filtering keeps the first element that passes as its own first element.
pub proof fn lemma_filter_first<A>(s: Seq<A>, pred: spec_fn(A) -> bool, m: int)
    requires
        0 <= m < s.len(),
        pred(s[m]),
        forall|j: int| 0 <= j < m ==> !pred(#[trigger] s[j]),
    ensures
        s.filter(pred).len() > 0,
        s.filter(pred)[0] == s[m],
    decreases s.len(),
{
    reveal(Seq::filter);
    let front = s.drop_last();
    if m == s.len() - 1 {
        // Nothing before `m` passes, so the filter of the front is empty.
        if front.filter(pred).len() > 0 {
            let x = front.filter(pred)[0];
            front.lemma_filter_pred(pred, 0);
            front.lemma_filter_contains_rev(pred, x);
            let j = choose|j: int| 0 <= j < front.len() && front[j] == x;
            assert(!pred(s[j]));
        }
    } else {
        lemma_filter_first(front, pred, m);
    }
}

/// A sequence whose elements all pass a test is its own filter.
pub proof fn lemma_filter_all<A>(s: Seq<A>, pred: spec_fn(A) -> bool)
    requires
        forall|i: int| 0 <= i < s.len() ==> pred(#[trigger] s[i]),
    ensures
        s.filter(pred) == s,
    decreases s.len(),
{
    reveal(Seq::filter);
    if s.len() > 0 {
        lemma_filter_all(s.drop_last(), pred);
    }
}

/// What a filtered sequence holds: the elements of the sequence that pass.
pub proof fn lemma_filter_membership<A>(s: Seq<A>, pred: spec_fn(A) -> bool, x: A)
    ensures
        s.filter(pred).contains(x) <==> s.contains(x) && pred(x),
{
    if s.filter(pred).contains(x) {
        s.lemma_filter_contains_rev(pred, x);
        let i = choose|i: int| 0 <= i < s.filter(pred).len() && s.filter(pred)[i] == x;
        s.lemma_filter_pred(pred, i);
    }
    if s.contains(x) && pred(x) {
        let i = choose|i: int| 0 <= i < s.len() && s[i] == x;
        s.lemma_filter_contains(pred, i);
    }
}

/// Where every part holds eight items, the parts laid end to end hold item
/// `j` of part `i` at position `8 * i + j`.
pub proof fn lemma_flatten_eights<A>(parts: Seq<Seq<A>>)
    requires
        forall|i: int| 0 <= i < parts.len() ==> (#[trigger] parts[i]).len() == 8,
    ensures
        parts.flatten().len() == 8 * parts.len(),
        forall|i: int, j: int|
            0 <= i < parts.len() && 0 <= j < 8 ==> parts.flatten()[8 * i + j]
                == #[trigger] parts[i][j],
    decreases parts.len(),
{
    if parts.len() > 0 {
        let front = parts.drop_last();
        lemma_flatten_eights(front);
        front.lemma_flatten_push(parts.last());
        assert(front.push(parts.last()) =~= parts);
        assert forall|i: int, j: int| 0 <= i < parts.len() && 0 <= j < 8 implies parts.flatten()[8
            * i + j] == #[trigger] parts[i][j] by {
            if i < front.len() {
                assert(front.flatten()[8 * i + j] == front[i][j]);
            }
        }
    }
}

/// Every item of parts laid end to end is an item of one of the parts.
pub proof fn lemma_flatten_member<A>(parts: Seq<Seq<A>>, k: int)
    requires
        0 <= k < parts.flatten().len(),
    ensures
        exists|i: int, j: int|
            0 <= i < parts.len() && 0 <= j < parts[i].len() && parts.flatten()[k]
                == #[trigger] parts[i][j],
    decreases parts.len(),
{
    if parts.len() > 0 {
        let front = parts.drop_last();
        front.lemma_flatten_push(parts.last());
        assert(front.push(parts.last()) =~= parts);
        if k < front.flatten().len() {
            lemma_flatten_member(front, k);
            let (i, j) = choose|i: int, j: int|
                0 <= i < front.len() && 0 <= j < front[i].len() && front.flatten()[k]
                    == #[trigger] front[i][j];
            assert(parts.flatten()[k] == parts[i][j]);
        } else {
            let i = parts.len() - 1;
            let j = k - front.flatten().len();
            assert(parts.flatten()[k] == parts[i][j]);
        }
    }
}

} // verus!
