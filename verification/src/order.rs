//! The order of texts, and sorting that keeps equal items in place.
use vstd::prelude::*;
use vstd::relations::{sorted_by, total_ordering};
use vstd::seq_lib::lemma_sorted_unique;
use vstd::set_lib::{lemma_int_range, lemma_subset_equality, set_int_range};

use crate::text::{letters, views};

verus! {

// ---------------------------------------------------------------------------------------------
// Texts
// ---------------------------------------------------------------------------------------------

/// `a` comes before `b` in dictionary order of code points, or is the same text.
pub open spec fn text_at_most(a: Seq<char>, b: Seq<char>) -> bool
    decreases a.len(),
{
    if a.len() == 0 {
        true
    } else if b.len() == 0 {
        false
    } else if a[0] != b[0] {
        a[0] < b[0]
    } else {
        text_at_most(a.drop_first(), b.drop_first())
    }
}

/// Of two texts one comes first.
pub proof fn lemma_text_total(a: Seq<char>, b: Seq<char>)
    ensures
        text_at_most(a, b) || text_at_most(b, a),
    decreases a.len(),
{
    if a.len() > 0 && b.len() > 0 {
        lemma_text_total(a.drop_first(), b.drop_first());
    }
}

/// The order of texts is transitive.
pub proof fn lemma_text_transitive(a: Seq<char>, b: Seq<char>, c: Seq<char>)
    requires
        text_at_most(a, b),
        text_at_most(b, c),
    ensures
        text_at_most(a, c),
    decreases a.len(),
{
    if a.len() > 0 && b.len() > 0 && c.len() > 0 && a[0] == b[0] && b[0] == c[0] {
        lemma_text_transitive(a.drop_first(), b.drop_first(), c.drop_first());
    }
}

/// Two texts that each come no later than the other are the same.
pub proof fn lemma_text_antisymmetric(a: Seq<char>, b: Seq<char>)
    requires
        text_at_most(a, b),
        text_at_most(b, a),
    ensures
        a == b,
    decreases a.len(),
{
    if a.len() == 0 || b.len() == 0 {
        assert(a.len() == 0 && b.len() == 0);
        assert(a =~= b);
    } else {
        assert(a[0] == b[0]);
        lemma_text_antisymmetric(a.drop_first(), b.drop_first());
        assert(a.len() == b.len());
        assert forall|i: int| 0 <= i < a.len() implies a[i] == b[i] by {
            if i > 0 {
                assert(a.drop_first()[i - 1] == b.drop_first()[i - 1]);
            }
        }
        assert(a =~= b);
    }
}

/// Whether `a` comes before `b` in dictionary order of code points, or is the same text.
pub fn no_later(a: &str, b: &str) -> (yes: bool)
    ensures
        yes == text_at_most(a@, b@),
{
    let left: Vec<char> = letters(a);
    let right: Vec<char> = letters(b);
    let mut i: usize = 0;
    assert(a@.skip(0) =~= a@);
    assert(b@.skip(0) =~= b@);
    while i < left.len() && i < right.len()
        invariant
            left@ == a@,
            right@ == b@,
            i <= left.len(),
            i <= right.len(),
            text_at_most(a@, b@) == text_at_most(a@.skip(i as int), b@.skip(i as int)),
        decreases left.len() - i,
    {
        if left[i] != right[i] {
            return left[i] < right[i];
        }
        assert(a@.skip(i as int).drop_first() =~= a@.skip(i + 1));
        assert(b@.skip(i as int).drop_first() =~= b@.skip(i + 1));
        i = i + 1;
    }
    i == left.len()
}

// ---------------------------------------------------------------------------------------------
// Sorting
// ---------------------------------------------------------------------------------------------

/// Items with a rank: any two can be compared, and the comparison is transitive.
pub trait Ranked: View + Sized {
    /// The item `a` ranks no later than the item `b`.
    spec fn ranks(a: Self::V, b: Self::V) -> bool;

    proof fn ranks_total(a: Self::V, b: Self::V)
        ensures
            Self::ranks(a, b) || Self::ranks(b, a),
    ;

    proof fn ranks_transitive(a: Self::V, b: Self::V, c: Self::V)
        requires
            Self::ranks(a, b),
            Self::ranks(b, c),
        ensures
            Self::ranks(a, c),
    ;

    /// Whether this item ranks no later than `other`.
    fn ranks_no_later(&self, other: &Self) -> (yes: bool)
        ensures
            yes == Self::ranks(self@, other@),
    ;
}

/// `output` holds the items of `input` from position `from` on, each once, where `origin` tells
/// from which position each came. Items stand by rank, and by position where the rank is equal.
pub open spec fn arranged<T: Ranked>(
    input: Seq<T::V>,
    output: Seq<T::V>,
    origin: Seq<int>,
    from: int,
) -> bool {
    &&& output.len() == input.len() - from
    &&& origin.len() == output.len()
    &&& forall|i: int| 0 <= i < origin.len() ==> from <= #[trigger] origin[i] < input.len()
    &&& forall|i: int| 0 <= i < origin.len() ==> #[trigger] output[i] == input[origin[i]]
    &&& forall|i: int, j: int|
        0 <= i < j < origin.len() ==> #[trigger] origin[i] != #[trigger] origin[j]
    &&& forall|i: int, j: int|
        #![trigger output[i], output[j]]
        0 <= i < j < output.len() ==> T::ranks(output[i], output[j]) && (T::ranks(
            output[j],
            output[i],
        ) ==> origin[i] < origin[j])
}

/// `output` holds the items of `input`, each once, by rank; items of equal rank keep their order.
pub open spec fn sorted_stably<T: Ranked>(input: Seq<T::V>, output: Seq<T::V>) -> bool {
    exists|origin: Seq<int>| arranged::<T>(input, output, origin, 0)
}

/// The first position in `sorted` whose item ranks no earlier than `item`.
fn first_not_before<T: Ranked>(sorted: &Vec<T>, item: &T) -> (at: usize)
    requires
        forall|i: int, j: int|
            #![trigger views(sorted@)[i], views(sorted@)[j]]
            0 <= i < j < sorted@.len() ==> T::ranks(views(sorted@)[i], views(sorted@)[j]),
    ensures
        at <= sorted@.len(),
        forall|i: int| 0 <= i < at ==> !T::ranks(item@, #[trigger] views(sorted@)[i]),
        forall|i: int| at <= i < sorted@.len() ==> T::ranks(item@, #[trigger] views(sorted@)[i]),
{
    let ghost seen = views(sorted@);
    let mut low: usize = 0;
    let mut high: usize = sorted.len();
    while low < high
        invariant
            seen == views(sorted@),
            low <= high <= sorted@.len(),
            forall|i: int, j: int|
                #![trigger seen[i], seen[j]]
                0 <= i < j < seen.len() ==> T::ranks(seen[i], seen[j]),
            forall|i: int| 0 <= i < low ==> !T::ranks(item@, #[trigger] seen[i]),
            forall|i: int| high <= i < seen.len() ==> T::ranks(item@, #[trigger] seen[i]),
        decreases high - low,
    {
        let middle: usize = low + (high - low) / 2;
        assert(seen[middle as int] == sorted@[middle as int]@);
        if item.ranks_no_later(&sorted[middle]) {
            proof {
                assert forall|i: int| middle <= i < seen.len() implies T::ranks(
                    item@,
                    #[trigger] seen[i],
                ) by {
                    if middle < i {
                        T::ranks_transitive(item@, seen[middle as int], seen[i]);
                    }
                }
            }
            high = middle;
        } else {
            proof {
                assert forall|i: int| 0 <= i <= middle implies !T::ranks(
                    item@,
                    #[trigger] seen[i],
                ) by {
                    if i < middle && T::ranks(item@, seen[i]) {
                        T::ranks_transitive(item@, seen[i], seen[middle as int]);
                    }
                }
            }
            low = middle + 1;
        }
    }
    low
}

/// Inserting the item at `from - 1` before the first item that does not rank before it keeps the
/// items arranged.
proof fn lemma_insert_arranged<T: Ranked>(
    input: Seq<T::V>,
    output: Seq<T::V>,
    origin: Seq<int>,
    from: int,
    at: int,
)
    requires
        arranged::<T>(input, output, origin, from),
        0 < from <= input.len(),
        0 <= at <= output.len(),
        forall|i: int| 0 <= i < at ==> !T::ranks(input[from - 1], #[trigger] output[i]),
        forall|i: int| at <= i < output.len() ==> T::ranks(input[from - 1], #[trigger] output[i]),
    ensures
        arranged::<T>(
            input,
            output.insert(at, input[from - 1]),
            origin.insert(at, from - 1),
            from - 1,
        ),
{
    let item = input[from - 1];
    let grown = output.insert(at, item);
    let places = origin.insert(at, from - 1);
    assert forall|i: int, j: int|
        #![trigger grown[i], grown[j]]
        0 <= i < j < grown.len() implies T::ranks(grown[i], grown[j]) && (T::ranks(
        grown[j],
        grown[i],
    ) ==> places[i] < places[j]) by {
        let before = if i < at { i } else { i - 1 };
        let after = if j < at { j } else { j - 1 };
        if j == at {
            T::ranks_total(item, output[i]);
            assert(!T::ranks(item, output[i]));
        } else if i == at {
            assert(T::ranks(item, output[after]));
            assert(origin[after] >= from);
        } else {
            assert(grown[i] == output[before]);
            assert(grown[j] == output[after]);
            assert(before < after);
        }
    }
    assert forall|i: int, j: int| 0 <= i < j < places.len() implies #[trigger] places[i]
        != #[trigger] places[j] by {
        let before = if i < at { i } else { i - 1 };
        let after = if j < at { j } else { j - 1 };
        if i != at {
            assert(origin[before] >= from);
        }
        if j != at {
            assert(origin[after] >= from);
        }
    }
    assert forall|i: int| 0 <= i < places.len() implies #[trigger] grown[i] == input[places[i]] by {
        let before = if i < at { i } else { i - 1 };
        if i != at {
            assert(grown[i] == output[before]);
        }
    }
    assert forall|i: int| 0 <= i < places.len() implies from - 1 <= #[trigger] places[i]
        < input.len() by {
        let before = if i < at { i } else { i - 1 };
        if i != at {
            assert(places[i] == origin[before]);
        }
    }
}

/// The items by rank; items of equal rank keep their order.
pub fn sort<T: Ranked>(items: Vec<T>) -> (sorted: Vec<T>)
    ensures
        sorted_stably::<T>(views(items@), views(sorted@)),
{
    let ghost input = views(items@);
    let ghost given = items@;
    let mut rest: Vec<T> = items;
    let mut sorted: Vec<T> = Vec::new();
    let ghost mut origin: Seq<int> = Seq::empty();
    while rest.len() > 0
        invariant
            input == views(given),
            rest@.len() <= given.len(),
            rest@ == given.take(rest@.len() as int),
            arranged::<T>(input, views(sorted@), origin, rest@.len() as int),
        decreases rest.len(),
    {
        let ghost from = rest@.len() as int;
        let ghost before = sorted@;
        match rest.pop() {
            Some(item) => {
                assert(item@ == input[from - 1]);
                let at: usize = first_not_before(&sorted, &item);
                sorted.insert(at, item);
                proof {
                    lemma_insert_arranged::<T>(input, views(before), origin, from, at as int);
                    origin = origin.insert(at as int, from - 1);
                    assert(views(sorted@) =~= views(before).insert(at as int, item@));
                    assert(rest@ =~= given.take(from - 1));
                }
            },
            None => {},
        }
    }
    sorted
}

// ---------------------------------------------------------------------------------------------
// What sorting fixes
// ---------------------------------------------------------------------------------------------

/// Two sequences without duplicates that hold the same values in the same order are equal.
pub proof fn lemma_same_members_same_order<A>(x: Seq<A>, y: Seq<A>, leq: spec_fn(A, A) -> bool)
    requires
        total_ordering(leq),
        sorted_by(x, leq),
        sorted_by(y, leq),
        x.no_duplicates(),
        y.no_duplicates(),
        forall|v: A| #[trigger] x.contains(v) <==> y.contains(v),
    ensures
        x == y,
{
    broadcast use vstd::multiset::group_multiset_axioms;
    broadcast use vstd::seq_lib::group_to_multiset_ensures;

    x.lemma_multiset_has_no_duplicates();
    y.lemma_multiset_has_no_duplicates();
    assert forall|v: A| #[trigger] x.to_multiset().count(v) == y.to_multiset().count(v) by {
        assert(x.contains(v) <==> x.to_multiset().count(v) > 0);
        assert(y.contains(v) <==> y.to_multiset().count(v) > 0);
    }
    assert(x.to_multiset() =~= y.to_multiset());
    lemma_sorted_unique(x, y, leq);
}

/// Every position of the input is the origin of some item of the output.
pub proof fn lemma_every_position_has_a_place<T: Ranked>(
    input: Seq<T::V>,
    output: Seq<T::V>,
    origin: Seq<int>,
)
    requires
        arranged::<T>(input, output, origin, 0),
    ensures
        origin.no_duplicates(),
        forall|k: int| #[trigger] origin.contains(k) <==> 0 <= k < input.len(),
{
    let positions = set_int_range(0, input.len() as int);
    lemma_int_range(0, input.len() as int);
    assert(origin.no_duplicates());
    origin.unique_seq_to_set();
    assert forall|k: int| origin.to_set().contains(k) implies #[trigger] positions.contains(k) by {
        let i = choose|i: int| 0 <= i < origin.len() && origin[i] == k;
        assert(0 <= origin[i] < input.len());
    }
    lemma_subset_equality(origin.to_set(), positions);
    assert forall|k: int| #[trigger] origin.contains(k) <==> 0 <= k < input.len() by {
        assert(origin.to_set().contains(k) <==> positions.contains(k));
    }
}

/// Sorting neither loses nor invents an item.
pub proof fn law_sort_keeps_items<T: Ranked>(input: Seq<T::V>, output: Seq<T::V>)
    requires
        sorted_stably::<T>(input, output),
    ensures
        output.len() == input.len(),
        forall|v: T::V| #[trigger] output.contains(v) <==> input.contains(v),
{
    let origin = choose|origin: Seq<int>| arranged::<T>(input, output, origin, 0);
    lemma_every_position_has_a_place::<T>(input, output, origin);
    assert forall|v: T::V| #[trigger] output.contains(v) <==> input.contains(v) by {
        if output.contains(v) {
            let i = choose|i: int| 0 <= i < output.len() && output[i] == v;
            assert(output[i] == input[origin[i]]);
            assert(input[origin[i]] == v);
        }
        if input.contains(v) {
            let k = choose|k: int| 0 <= k < input.len() && input[k] == v;
            assert(origin.contains(k));
            let i = choose|i: int| 0 <= i < origin.len() && origin[i] == k;
            assert(output[i] == input[origin[i]]);
        }
    }
}

/// The order by rank and then by position, on the positions of `input`.
spec fn position_order<T: Ranked>(input: Seq<T::V>) -> spec_fn(int, int) -> bool {
    |i: int, j: int|
        T::ranks(input[i], input[j]) && (T::ranks(input[j], input[i]) ==> i <= j)
}

/// There is one way to sort a sequence: two results of sorting the same items are the same.
pub proof fn law_sort_is_determined<T: Ranked>(
    input: Seq<T::V>,
    first: Seq<T::V>,
    second: Seq<T::V>,
)
    requires
        sorted_stably::<T>(input, first),
        sorted_stably::<T>(input, second),
    ensures
        first == second,
{
    let a = choose|origin: Seq<int>| arranged::<T>(input, first, origin, 0);
    let b = choose|origin: Seq<int>| arranged::<T>(input, second, origin, 0);
    let leq = position_order::<T>(input);
    lemma_every_position_has_a_place::<T>(input, first, a);
    lemma_every_position_has_a_place::<T>(input, second, b);
    assert forall|i: int| #[trigger] leq(i, i) by {
        T::ranks_total(input[i], input[i]);
    }
    assert forall|i: int, j: int, k: int|
        #[trigger] leq(i, j) && #[trigger] leq(j, k) implies leq(i, k) by {
        T::ranks_transitive(input[i], input[j], input[k]);
        if T::ranks(input[k], input[i]) {
            T::ranks_transitive(input[j], input[k], input[i]);
            T::ranks_transitive(input[k], input[i], input[j]);
        }
    }
    assert forall|i: int, j: int| #[trigger] leq(i, j) || #[trigger] leq(j, i) by {
        T::ranks_total(input[i], input[j]);
    }
    assert(total_ordering(leq));
    assert forall|i: int, j: int| 0 <= i < j < a.len() implies #[trigger] leq(a[i], a[j]) by {
        assert(first[i] == input[a[i]]);
        assert(first[j] == input[a[j]]);
    }
    assert forall|i: int, j: int| 0 <= i < j < b.len() implies #[trigger] leq(b[i], b[j]) by {
        assert(second[i] == input[b[i]]);
        assert(second[j] == input[b[j]]);
    }
    assert forall|k: int| #[trigger] a.contains(k) <==> b.contains(k) by {
        assert(b.contains(k) <==> 0 <= k < input.len());
    }
    lemma_same_members_same_order(a, b, leq);
    assert forall|i: int| 0 <= i < first.len() implies first[i] == second[i] by {
        assert(first[i] == input[a[i]]);
        assert(second[i] == input[b[i]]);
    }
    assert(first =~= second);
}

} // verus!
