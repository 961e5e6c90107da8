//! Finding and keeping the items of a list that have a property.
use vstd::prelude::*;

use crate::text::views;

verus! {

/// The position of the first item that has the property.
pub open spec fn first_at<T>(items: Seq<T>, holds: spec_fn(T) -> bool) -> Option<usize>
    decreases items.len(),
{
    if items.len() == 0 {
        None
    } else {
        match first_at(items.drop_last(), holds) {
            Some(at) => Some(at),
            None => if holds(items.last()) {
                Some((items.len() - 1) as usize)
            } else {
                None
            },
        }
    }
}

/// The items that have the property, in order.
pub open spec fn kept<T>(items: Seq<T>, holds: spec_fn(T) -> bool) -> Seq<T>
    decreases items.len(),
{
    if items.len() == 0 {
        Seq::empty()
    } else {
        let before = kept(items.drop_last(), holds);
        if holds(items.last()) {
            before.push(items.last())
        } else {
            before
        }
    }
}

/// One more item is found if it has the property and none before it has, and is kept if it has it.
pub proof fn lemma_take_one_more<T>(items: Seq<T>, at: int, holds: spec_fn(T) -> bool)
    requires
        0 <= at < items.len(),
    ensures
        kept(items.take(at + 1), holds) == (if holds(items[at]) {
            kept(items.take(at), holds).push(items[at])
        } else {
            kept(items.take(at), holds)
        }),
        first_at(items.take(at), holds) is None ==> first_at(items.take(at + 1), holds) == (
        if holds(items[at]) {
            Some(at as usize)
        } else {
            None
        }),
        first_at(items.take(at), holds) is Some ==> first_at(items.take(at + 1), holds)
            == first_at(items.take(at), holds),
{
    assert(items.take(at + 1).drop_last() =~= items.take(at));
}

/// What was found first stays the first when more items follow.
pub proof fn lemma_first_at_extends<T>(items: Seq<T>, count: int, holds: spec_fn(T) -> bool)
    requires
        0 <= count <= items.len(),
        first_at(items.take(count), holds) is Some,
    ensures
        first_at(items, holds) == first_at(items.take(count), holds),
    decreases items.len() - count,
{
    if count < items.len() {
        lemma_take_one_more(items, count, holds);
        lemma_first_at_extends(items, count + 1, holds);
    } else {
        assert(items.take(count) =~= items);
    }
}

/// The first position is that of an item with the property, and no item before it has it; there is
/// none exactly where no item has it.
pub proof fn lemma_first_at<T>(items: Seq<T>, holds: spec_fn(T) -> bool)
    requires
        items.len() <= usize::MAX,
    ensures
        match first_at(items, holds) {
            Some(at) => {
                &&& at < items.len()
                &&& holds(items[at as int])
                &&& forall|i: int| 0 <= i < at ==> !holds(#[trigger] items[i])
            },
            None => forall|i: int| 0 <= i < items.len() ==> !holds(#[trigger] items[i]),
        },
    decreases items.len(),
{
    if items.len() > 0 {
        let shorter = items.drop_last();
        lemma_first_at(shorter, holds);
        match first_at(shorter, holds) {
            Some(at) => {
                assert(items[at as int] == shorter[at as int]);
                assert forall|i: int| 0 <= i < at implies !holds(#[trigger] items[i]) by {
                    assert(items[i] == shorter[i]);
                }
            },
            None => {
                assert forall|i: int| 0 <= i < items.len() - 1 implies !holds(
                    #[trigger] items[i],
                ) by {
                    assert(items[i] == shorter[i]);
                }
            },
        }
    }
}

/// The kept items are exactly the items that have the property.
pub proof fn lemma_kept<T>(items: Seq<T>, holds: spec_fn(T) -> bool)
    ensures
        forall|item: T| #[trigger]
            kept(items, holds).contains(item) <==> items.contains(item) && holds(item),
        kept(items, holds).len() <= items.len(),
    decreases items.len(),
{
    if items.len() > 0 {
        let shorter = items.drop_last();
        let before = kept(shorter, holds);
        let all = kept(items, holds);
        lemma_kept(shorter, holds);
        assert forall|item: T| #[trigger] all.contains(item) <==> items.contains(item) && holds(
            item,
        ) by {
            if all.contains(item) {
                let at = choose|at: int| 0 <= at < all.len() && all[at] == item;
                if at < before.len() {
                    assert(before[at] == item);
                    assert(before.contains(item));
                    let i = choose|i: int| 0 <= i < shorter.len() && shorter[i] == item;
                    assert(items[i] == item);
                } else {
                    assert(items[items.len() - 1] == item);
                }
            }
            if items.contains(item) && holds(item) {
                let i = choose|i: int| 0 <= i < items.len() && items[i] == item;
                if i < shorter.len() {
                    assert(shorter[i] == item);
                    assert(shorter.contains(item));
                    assert(before.contains(item));
                    let at = choose|at: int| 0 <= at < before.len() && before[at] == item;
                    assert(all[at] == item);
                } else {
                    assert(all[all.len() - 1] == item);
                }
            }
        }
    }
}

/// The position of the first item with the property that `test` tests for.
pub(crate) fn position<T: View, F: Fn(&T) -> bool>(
    items: &Vec<T>,
    holds: Ghost<spec_fn(T::V) -> bool>,
    test: F,
) -> (index: Option<usize>)
    requires
        forall|item: &T| call_requires(test, (item,)),
        forall|item: &T, yes: bool|
            #[trigger] call_ensures(test, (item,), yes) ==> yes == holds@(item@),
    ensures
        index == first_at(views(items@), holds@),
{
    let ghost all = views(items@);
    for i in 0..items.len()
        invariant
            all == views(items@),
            forall|item: &T| call_requires(test, (item,)),
            forall|item: &T, yes: bool|
                #[trigger] call_ensures(test, (item,), yes) ==> yes == holds@(item@),
            first_at(all.take(i as int), holds@) is None,
    {
        proof {
            lemma_take_one_more(all, i as int, holds@);
        }
        if test(&items[i]) {
            proof {
                lemma_first_at_extends(all, i + 1, holds@);
            }
            return Some(i);
        }
    }
    assert(all.take(all.len() as int) =~= all);
    None
}

} // verus!
