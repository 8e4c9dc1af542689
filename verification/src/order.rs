//! Putting lists in order without disturbing ties.

use vstd::prelude::*;

verus! {

/// Things that can be put in order.
pub trait Ranked: Sized {
    /// Whether this item stands strictly ahead of another.
    spec fn ahead(self, other: Self) -> bool;

    /// Whether the item has a place in the order at all.
    spec fn placed(self) -> bool;

    /// Among placed items, being ahead is a strict order whose ties are transitive.
    proof fn lemma_ranked(a: Self, b: Self, c: Self)
        requires
            a.placed(),
            b.placed(),
            c.placed(),
        ensures
            !a.ahead(a),
            a.ahead(b) ==> !b.ahead(a),
            !b.ahead(a) && !c.ahead(b) ==> !c.ahead(a),
    ;

    /// Whether this item stands strictly ahead of another.
    fn is_ahead(&self, other: &Self) -> (r: bool)
        ensures
            r == self.ahead(*other),
    ;
}

/// An ordered list with one more item, which goes in front of the items at the end
/// that it is ahead of.
pub open spec fn inserted<T: Ranked>(list: Seq<T>, item: T) -> Seq<T>
    decreases list.len(),
{
    if list.len() > 0 && item.ahead(list.last()) {
        inserted(list.drop_last(), item).push(list.last())
    } else {
        list.push(item)
    }
}

/// The items in order; those of which none is ahead keep the order they came in.
pub open spec fn ordered<T: Ranked>(items: Seq<T>) -> Seq<T>
    decreases items.len(),
{
    if items.len() == 0 {
        Seq::empty()
    } else {
        inserted(ordered(items.drop_last()), items.last())
    }
}

proof fn lemma_inserted_at<T: Ranked>(list: Seq<T>, item: T, at: int)
    requires
        0 <= at <= list.len(),
        forall|k: int| at <= k < list.len() ==> item.ahead(#[trigger] list[k]),
        at > 0 ==> !item.ahead(list[at - 1]),
    ensures
        inserted(list, item) == list.insert(at, item),
    decreases list.len(),
{
    if at < list.len() {
        lemma_inserted_at(list.drop_last(), item, at);
        assert(list.drop_last().insert(at, item).push(list.last()) =~= list.insert(at, item));
    } else {
        assert(list.push(item) =~= list.insert(at, item));
    }
}

/// Puts a list in order.
pub fn sort<T: Ranked>(items: Vec<T>) -> (r: Vec<T>)
    ensures
        r@ == ordered(items@),
{
    let ghost all = items@;
    let mut r: Vec<T> = Vec::new();
    for item in it: items
        invariant
            it.seq() == all,
            r@ == ordered(all.take(it.index() as int)),
    {
        let ghost before = r@;
        let mut at: usize = r.len();
        while at > 0 && item.is_ahead(&r[at - 1])
            invariant
                at <= r@.len(),
                r@ == before,
                forall|k: int| at <= k < r@.len() ==> item.ahead(#[trigger] r@[k]),
            decreases at,
        {
            at -= 1;
        }
        proof {
            lemma_inserted_at(before, item, at as int);
            let next = all.take(it.index() + 1);
            assert(next.drop_last() =~= all.take(it.index() as int));
            assert(next.last() == item);
        }
        r.insert(at, item);
    }
    assert(all.take(all.len() as int) =~= all);
    r
}

proof fn lemma_inserted_multiset<T: Ranked>(list: Seq<T>, item: T)
    ensures
        inserted(list, item).to_multiset() == list.to_multiset().insert(item),
        inserted(list, item).len() == list.len() + 1,
    decreases list.len(),
{
    broadcast use vstd::seq_lib::group_to_multiset_ensures;

    if list.len() > 0 && item.ahead(list.last()) {
        let rest = list.drop_last();
        lemma_inserted_multiset(rest, item);
        assert(rest.push(list.last()) =~= list);
        assert(inserted(list, item).to_multiset() =~= list.to_multiset().insert(item));
    }
}

/// Ordering a list keeps its items: each comes out as often as it went in.
pub proof fn law_ordering_keeps_items<T: Ranked>(items: Seq<T>)
    ensures
        ordered(items).to_multiset() == items.to_multiset(),
        ordered(items).len() == items.len(),
    decreases items.len(),
{
    broadcast use vstd::seq_lib::group_to_multiset_ensures;

    if items.len() > 0 {
        let rest = items.drop_last();
        law_ordering_keeps_items(rest);
        lemma_inserted_multiset(ordered(rest), items.last());
        assert(rest.push(items.last()) =~= items);
    } else {
        assert(items =~= Seq::empty());
    }
}

/// Whether every item has a place in the order.
pub open spec fn all_placed<T: Ranked>(items: Seq<T>) -> bool {
    forall|i: int| 0 <= i < items.len() ==> (#[trigger] items[i]).placed()
}

/// Whether no item stands behind one that it is ahead of.
pub open spec fn in_order<T: Ranked>(items: Seq<T>) -> bool {
    forall|i: int, j: int| 0 <= i < j < items.len() ==> !(#[trigger] items[j]).ahead(
        #[trigger] items[i],
    )
}

proof fn lemma_inserted_in_order<T: Ranked>(list: Seq<T>, item: T)
    requires
        all_placed(list),
        item.placed(),
        in_order(list),
    ensures
        all_placed(inserted(list, item)),
        in_order(inserted(list, item)),
        forall|i: int|
            0 <= i < inserted(list, item).len() ==> (#[trigger] inserted(list, item)[i]) == item
                || list.contains(inserted(list, item)[i]),
    decreases list.len(),
{
    let out = inserted(list, item);
    if list.len() > 0 && item.ahead(list.last()) {
        let rest = list.drop_last();
        lemma_inserted_in_order(rest, item);
        assert forall|i: int, j: int| 0 <= i < j < out.len() implies !(#[trigger] out[j]).ahead(
            #[trigger] out[i],
        ) by {
            if j == out.len() - 1 {
                assert(out[j] == list.last());
                assert(out[i] == inserted(rest, item)[i]);
                if out[i] == item {
                    T::lemma_ranked(item, list.last(), item);
                } else {
                    let k = choose|k: int| 0 <= k < rest.len() && rest[k] == out[i];
                    assert(list[k] == out[i]);
                }
            } else {
                assert(out[i] == inserted(rest, item)[i]);
                assert(out[j] == inserted(rest, item)[j]);
            }
        }
        assert forall|i: int| 0 <= i < out.len() implies (#[trigger] out[i]).placed() && (out[i]
            == item || list.contains(out[i])) by {
            if i < out.len() - 1 {
                assert(out[i] == inserted(rest, item)[i]);
                if out[i] != item {
                    let k = choose|k: int| 0 <= k < rest.len() && rest[k] == out[i];
                    assert(list[k] == out[i]);
                }
            } else {
                assert(list[list.len() - 1] == out[i]);
            }
        }
    } else {
        assert forall|i: int, j: int| 0 <= i < j < out.len() implies !(#[trigger] out[j]).ahead(
            #[trigger] out[i],
        ) by {
            if j == list.len() {
                assert(out[i] == list[i]);
                if i < list.len() - 1 {
                    assert(!list.last().ahead(list[i]));
                    T::lemma_ranked(list[i], list.last(), item);
                }
            } else {
                assert(out[i] == list[i] && out[j] == list[j]);
            }
        }
        assert forall|i: int| 0 <= i < out.len() implies (#[trigger] out[i]).placed() && (out[i]
            == item || list.contains(out[i])) by {
            if i < list.len() {
                assert(out[i] == list[i]);
            }
        }
    }
}

/// Ordering puts no item behind one that it is ahead of.
pub proof fn law_ordering_orders<T: Ranked>(items: Seq<T>)
    requires
        all_placed(items),
    ensures
        in_order(ordered(items)),
        all_placed(ordered(items)),
    decreases items.len(),
{
    if items.len() > 0 {
        let rest = items.drop_last();
        assert forall|i: int| 0 <= i < rest.len() implies (#[trigger] rest[i]).placed() by {
            assert(rest[i] == items[i]);
        }
        law_ordering_orders(rest);
        lemma_inserted_in_order(ordered(rest), items.last());
    }
}

/// Whether neither of two items is ahead of the other.
pub open spec fn tied<T: Ranked>(a: T, b: T) -> bool {
    !a.ahead(b) && !b.ahead(a)
}

proof fn lemma_inserted_ties<T: Ranked>(list: Seq<T>, item: T, model: T)
    requires
        all_placed(list),
        item.placed(),
        model.placed(),
    ensures
        inserted(list, item).filter(|t: T| tied(model, t)) == list.push(item).filter(
            |t: T| tied(model, t),
        ),
    decreases list.len(),
{
    let pred = |t: T| tied(model, t);
    if list.len() > 0 && item.ahead(list.last()) {
        let rest = list.drop_last();
        let last = list.last();
        assert forall|i: int| 0 <= i < rest.len() implies (#[trigger] rest[i]).placed() by {
            assert(rest[i] == list[i]);
        }
        lemma_inserted_ties(rest, item, model);
        assert(rest.push(last) =~= list);
        inserted(rest, item).lemma_filter_push(last, pred);
        rest.lemma_filter_push(item, pred);
        rest.lemma_filter_push(last, pred);
        list.lemma_filter_push(item, pred);
        if tied(model, item) && tied(model, last) {
            T::lemma_ranked(last, model, item);
        }
        assert(!(pred(item) && pred(last)));
    }
}

/// Ordering keeps ties as they came: the items tied with any one item come out in
/// the order in which they went in.
pub proof fn law_ordering_is_stable<T: Ranked>(items: Seq<T>, model: T)
    requires
        all_placed(items),
        model.placed(),
    ensures
        ordered(items).filter(|t: T| tied(model, t)) == items.filter(|t: T| tied(model, t)),
    decreases items.len(),
{
    let pred = |t: T| tied(model, t);
    if items.len() > 0 {
        let rest = items.drop_last();
        assert forall|i: int| 0 <= i < rest.len() implies (#[trigger] rest[i]).placed() by {
            assert(rest[i] == items[i]);
        }
        law_ordering_is_stable(rest, model);
        law_ordering_orders(rest);
        lemma_inserted_ties(ordered(rest), items.last(), model);
        ordered(rest).lemma_filter_push(items.last(), pred);
        rest.lemma_filter_push(items.last(), pred);
        assert(rest.push(items.last()) =~= items);
    } else {
        assert(items =~= ordered(items));
    }
}

} // verus!
