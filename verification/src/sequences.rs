//! Facts about filtered and flattened sequences that the laws of the rules
//! rest on.
use vstd::prelude::*;
use vstd::seq_lib::lemma_flatten_concat;

verus! {

/// Every element that a filter keeps satisfies the predicate and stands
/// somewhere in the filtered sequence.
pub proof fn lemma_filter_origin<A>(items: Seq<A>, pred: spec_fn(A) -> bool, k: int)
    requires
        0 <= k < items.filter(pred).len(),
    ensures
        pred(items.filter(pred)[k]),
        exists|j: int| 0 <= j < items.len() && #[trigger] items[j] == items.filter(pred)[k],
{
    let kept = items.filter(pred);
    items.lemma_filter_pred(pred, k);
    assert(kept.contains(kept[k]));
    items.lemma_filter_contains_rev(pred, kept[k]);
}

/// A filter keeps the order of the elements: two elements that it keeps
/// stand in the filtered sequence in the same order.
pub proof fn lemma_filter_keeps_order<A>(
    items: Seq<A>,
    pred: spec_fn(A) -> bool,
    k1: int,
    k2: int,
)
    requires
        0 <= k1 < k2 < items.filter(pred).len(),
    ensures
        exists|j1: int, j2: int|
            0 <= j1 < j2 < items.len() && #[trigger] items[j1] == items.filter(pred)[k1]
                && #[trigger] items[j2] == items.filter(pred)[k2],
    decreases items.len(),
{
    reveal(Seq::filter);
    let kept = items.filter(pred);
    let rest = items.drop_last();
    let last = items.last();
    assert(items =~= rest.push(last));
    rest.lemma_filter_push(last, pred);
    if pred(last) && k2 == rest.filter(pred).len() {
        lemma_filter_origin(rest, pred, k1);
        let j1 = choose|j: int| 0 <= j < rest.len() && #[trigger] rest[j] == rest.filter(pred)[k1];
        let j2 = items.len() - 1;
        assert(items[j1] == kept[k1] && items[j2] == kept[k2]);
    } else {
        lemma_filter_keeps_order(rest, pred, k1, k2);
        let (j1, j2) = choose|j1: int, j2: int|
            0 <= j1 < j2 < rest.len() && #[trigger] rest[j1] == rest.filter(pred)[k1]
                && #[trigger] rest[j2] == rest.filter(pred)[k2];
        assert(items[j1] == kept[k1] && items[j2] == kept[k2]);
    }
}

/// A filter keeps nothing of a sequence in which no element satisfies the
/// predicate.
pub proof fn lemma_filter_none<A>(items: Seq<A>, pred: spec_fn(A) -> bool)
    requires
        forall|i: int| 0 <= i < items.len() ==> !pred(#[trigger] items[i]),
    ensures
        items.filter(pred) == Seq::<A>::empty(),
{
    if items.filter(pred).len() > 0 {
        lemma_filter_origin(items, pred, 0);
    }
    assert(items.filter(pred) =~= Seq::<A>::empty());
}

/// A filter keeps a single element exactly when it satisfies the predicate.
pub proof fn lemma_filter_single<A>(item: A, pred: spec_fn(A) -> bool)
    ensures
        seq![item].filter(pred) == if pred(item) {
            seq![item]
        } else {
            Seq::<A>::empty()
        },
{
    reveal(Seq::filter);
    assert(seq![item] =~= Seq::<A>::empty().push(item));
    Seq::<A>::empty().lemma_filter_push(item, pred);
    assert(Seq::<A>::empty().filter(pred) =~= Seq::<A>::empty());
    assert(Seq::<A>::empty().push(item) =~= seq![item]);
}

/// A filter works on each side of a position separately: what it keeps of
/// a sequence is what it keeps before the position, then the element at the
/// position where it satisfies the predicate, then what it keeps behind.
pub proof fn lemma_filter_around<A>(items: Seq<A>, pred: spec_fn(A) -> bool, at: int)
    requires
        0 <= at < items.len(),
    ensures
        items.filter(pred) == items.take(at).filter(pred) + (if pred(items[at]) {
            seq![items[at]]
        } else {
            Seq::<A>::empty()
        }) + items.skip(at + 1).filter(pred),
{
    let before = items.take(at);
    let behind = items.skip(at + 1);
    assert(items =~= before + seq![items[at]] + behind);
    Seq::filter_distributes_over_add(before + seq![items[at]], behind, pred);
    Seq::filter_distributes_over_add(before, seq![items[at]], pred);
    lemma_filter_single(items[at], pred);
}

/// A filter keeps exactly the two elements at `first` and `second`, in this
/// order, where they are the only ones that satisfy the predicate.
pub proof fn lemma_filter_two<A>(items: Seq<A>, pred: spec_fn(A) -> bool, first: int, second: int)
    requires
        0 <= first < second < items.len(),
        forall|i: int|
            0 <= i < items.len() ==> (pred(#[trigger] items[i]) <==> (i == first || i == second)),
    ensures
        items.filter(pred) == seq![items[first], items[second]],
{
    let front = items.take(second);
    assert(items.filter(pred) == front.filter(pred).push(items[second])) by {
        lemma_filter_around(items, pred, second);
        lemma_filter_none(items.skip(second + 1), pred);
        assert(front.filter(pred) + seq![items[second]] + Seq::<A>::empty()
            =~= front.filter(pred).push(items[second]));
    }
    assert(front.filter(pred) == seq![items[first]]) by {
        lemma_filter_around(front, pred, first);
        lemma_filter_none(front.take(first), pred);
        lemma_filter_none(front.skip(first + 1), pred);
        assert(Seq::<A>::empty() + seq![front[first]] + Seq::<A>::empty() =~= seq![items[first]]);
    }
    assert(seq![items[first]].push(items[second]) =~= seq![items[first], items[second]]);
}

/// Every element of a flattened mapping stems from one element of the
/// mapped sequence.
pub proof fn lemma_flat_map_origin<A, B>(items: Seq<A>, f: spec_fn(A) -> Seq<B>, k: int)
    requires
        0 <= k < items.flat_map(f).len(),
    ensures
        exists|i: int, j: int|
            0 <= i < items.len() && 0 <= j < f(items[i]).len() && #[trigger] f(items[i])[j]
                == items.flat_map(f)[k],
    decreases items.len(),
{
    if items.len() == 0 {
        assert(items.map_values(f) =~= Seq::<Seq<B>>::empty());
    } else {
        let rest = items.drop_last();
        let last = items.last();
        assert(items =~= rest.push(last));
        rest.lemma_flat_map_push(f, last);
        if k < rest.flat_map(f).len() {
            lemma_flat_map_origin(rest, f, k);
            let (i, j) = choose|i: int, j: int|
                0 <= i < rest.len() && 0 <= j < f(rest[i]).len() && #[trigger] f(rest[i])[j]
                    == rest.flat_map(f)[k];
            assert(f(items[i])[j] == items.flat_map(f)[k]);
        } else {
            let i = items.len() - 1;
            let j = k - rest.flat_map(f).len();
            assert(f(items[i])[j] == items.flat_map(f)[k]);
        }
    }
}

/// A flattened mapping of a concatenation is the concatenation of the
/// flattened mappings.
pub proof fn lemma_flat_map_concat<A, B>(left: Seq<A>, right: Seq<A>, f: spec_fn(A) -> Seq<B>)
    ensures
        (left + right).flat_map(f) == left.flat_map(f) + right.flat_map(f),
{
    assert((left + right).map_values(f) =~= left.map_values(f) + right.map_values(f));
    lemma_flatten_concat(left.map_values(f), right.map_values(f));
}

/// A flattened mapping is empty where every element maps to the empty
/// sequence.
pub proof fn lemma_flat_map_nothing<A, B>(items: Seq<A>, f: spec_fn(A) -> Seq<B>)
    requires
        forall|i: int| 0 <= i < items.len() ==> (#[trigger] f(items[i])).len() == 0,
    ensures
        items.flat_map(f) == Seq::<B>::empty(),
{
    if items.flat_map(f).len() > 0 {
        lemma_flat_map_origin(items, f, 0);
    }
    assert(items.flat_map(f) =~= Seq::<B>::empty());
}

} // verus!
