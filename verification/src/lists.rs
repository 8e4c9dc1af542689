//! Picking items out of lists.

use vstd::prelude::*;

verus! {

/// Whether a test can be put to any item and answers as a predicate does.
pub open spec fn decides<T, F: Fn(&T) -> bool>(test: F, keep: spec_fn(T) -> bool) -> bool {
    &&& forall|t: T| #[trigger] test.requires((&t,))
    &&& forall|t: T, b: bool| #[trigger] test.ensures((&t,), b) ==> b == keep(t)
}

proof fn lemma_next<T>(all: Seq<T>, i: int, keep: spec_fn(T) -> bool)
    requires
        0 <= i < all.len(),
    ensures
        all.take(i + 1).filter(keep) == if keep(all[i]) {
            all.take(i).filter(keep).push(all[i])
        } else {
            all.take(i).filter(keep)
        },
{
    all.take(i).lemma_filter_push(all[i], keep);
    assert(all.take(i + 1) =~= all.take(i).push(all[i]));
}

/// The items that pass a test, in the order of the list.
pub(crate) fn kept<T, F: Fn(&T) -> bool>(
    items: Vec<T>,
    test: F,
    Ghost(keep): Ghost<spec_fn(T) -> bool>,
) -> (r: Vec<T>)
    requires
        decides(test, keep),
    ensures
        r@ == items@.filter(keep),
{
    let ghost all = items@;
    let mut r: Vec<T> = Vec::new();
    assert(all.take(0).filter(keep) =~= Seq::empty());
    for item in it: items
        invariant
            it.seq() == all,
            decides(test, keep),
            r@ == all.take(it.index() as int).filter(keep),
    {
        proof {
            lemma_next(all, it.index() as int, keep);
        }
        if test(&item) {
            r.push(item);
        }
    }
    assert(all.take(all.len() as int) =~= all);
    r
}

/// How many items pass a test.
pub(crate) fn how_many<T, F: Fn(&T) -> bool>(
    items: &Vec<T>,
    test: F,
    Ghost(keep): Ghost<spec_fn(T) -> bool>,
) -> (r: usize)
    requires
        decides(test, keep),
    ensures
        r == items@.filter(keep).len(),
        r <= items@.len(),
{
    let mut count: usize = 0;
    let mut i: usize = 0;
    assert(items@.take(0).filter(keep) =~= Seq::empty());
    while i < items.len()
        invariant
            i <= items@.len(),
            count <= i,
            decides(test, keep),
            count == items@.take(i as int).filter(keep).len(),
        decreases items@.len() - i,
    {
        proof {
            lemma_next(items@, i as int, keep);
        }
        if test(&items[i]) {
            count += 1;
        }
        i += 1;
    }
    assert(items@.take(i as int) =~= items@);
    count
}

/// A filtered list holds what the list holds and the predicate lets through.
pub(crate) proof fn lemma_filtered<T>(list: Seq<T>, keep: spec_fn(T) -> bool, item: T)
    ensures
        list.filter(keep).contains(item) == (list.contains(item) && keep(item)),
    decreases list.len(),
{
    if list.len() == 0 {
        assert(list.filter(keep) =~= Seq::empty());
    } else {
        let rest = list.drop_last();
        let last = list.last();
        lemma_filtered(rest, keep, item);
        assert(rest.push(last) =~= list);
        rest.lemma_filter_push(last, keep);
        let kept = rest.filter(keep);
        if list.contains(item) {
            let i = choose|i: int| 0 <= i < list.len() && list[i] == item;
            if i < rest.len() {
                assert(rest[i] == item);
            }
        }
        if rest.contains(item) {
            let i = choose|i: int| 0 <= i < rest.len() && rest[i] == item;
            assert(list[i] == item);
        }
        assert(list[list.len() - 1] == last);
        if kept.contains(item) {
            let i = choose|i: int| 0 <= i < kept.len() && kept[i] == item;
            assert(kept.push(last)[i] == item);
        }
        assert(kept.push(last)[kept.len() as int] == last);
        if kept.push(last).contains(item) && item != last {
            let i = choose|i: int| 0 <= i < kept.push(last).len() && kept.push(last)[i] == item;
            assert(kept[i] == item);
        }
    }
}

/// A predicate that lets every item through leaves a list as it is.
pub(crate) proof fn lemma_filter_all<T>(list: Seq<T>, keep: spec_fn(T) -> bool)
    requires
        forall|i: int| 0 <= i < list.len() ==> keep(#[trigger] list[i]),
    ensures
        list.filter(keep) == list,
    decreases list.len(),
{
    if list.len() > 0 {
        let rest = list.drop_last();
        assert forall|i: int| 0 <= i < rest.len() implies keep(#[trigger] rest[i]) by {
            assert(rest[i] == list[i]);
        }
        lemma_filter_all(rest, keep);
        assert(rest.push(list.last()) =~= list);
        rest.lemma_filter_push(list.last(), keep);
    } else {
        assert(list.filter(keep) =~= list);
    }
}

} // verus!
