//! Mathematical values of texts and of sequences.

use vstd::prelude::*;

verus! {

/// The mathematical values of a sequence of items, one by one.
pub open spec fn views<T: View>(items: Seq<T>) -> Seq<T::V> {
    items.map_values(|item: T| item@)
}

/// The value of a text that may be missing.
pub open spec fn text_view(text: Option<String>) -> Option<Seq<char>> {
    match text {
        Some(t) => Some(t@),
        None => None,
    }
}

/// The values of a sequence with one more item are the values of the
/// sequence with the value of that item.
pub proof fn lemma_views_push<T: View>(items: Seq<T>, item: T)
    ensures
        views(items.push(item)) == views(items).push(item@),
{
    assert(views(items.push(item)) =~= views(items).push(item@));
}

/// Taking out an item that a predicate does not hold of leaves what the
/// predicate selects as it is.
pub proof fn lemma_filter_without<A>(items: Seq<A>, i: int, pred: spec_fn(A) -> bool)
    requires
        0 <= i < items.len(),
        !pred(items[i]),
    ensures
        items.remove(i).filter(pred) == items.filter(pred),
{
    let before = items.take(i);
    let after = items.skip(i + 1);
    let this = seq![items[i]];
    assert(items =~= before + this + after);
    assert(items.remove(i) =~= before + after);
    assert(this.filter(pred) =~= Seq::<A>::empty()) by {
        Seq::<A>::empty().lemma_filter_push(items[i], pred);
        assert(Seq::<A>::empty().push(items[i]) =~= this);
        reveal(Seq::filter);
    }
    Seq::filter_distributes_over_add(before, this, pred);
    Seq::filter_distributes_over_add(before + this, after, pred);
    Seq::filter_distributes_over_add(before, after, pred);
    assert(items.filter(pred) =~= items.remove(i).filter(pred));
}

} // verus!
