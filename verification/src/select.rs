//! Picking items out of a list by position.

use vstd::prelude::*;

verus! {

/// The positions, in order, of the items a predicate picks.
pub open spec fn matching<T>(items: Seq<T>, picks: spec_fn(T) -> bool) -> Seq<int>
    decreases items.len(),
{
    if items.len() == 0 {
        Seq::empty()
    } else {
        let before = matching(items.drop_last(), picks);
        if picks(items.last()) {
            before.push(items.len() - 1)
        } else {
            before
        }
    }
}

/// Positions as mathematical numbers.
pub open spec fn positions(v: Seq<usize>) -> Seq<int> {
    v.map_values(|i: usize| i as int)
}

/// The positions, in order, of the items a test picks.
pub(crate) fn matching_items<T>(
    items: &[T],
    test: impl Fn(&T) -> bool,
    picks: Ghost<spec_fn(T) -> bool>,
) -> (r: Vec<usize>)
    requires
        forall|x: &T| #[trigger] test.requires((x,)),
        forall|x: &T, b: bool| #[trigger] test.ensures((x,), b) ==> b == picks@(*x),
    ensures
        positions(r@) == matching(items@, picks@),
        forall|i: int| 0 <= i < r@.len() ==> #[trigger] r@[i] < items@.len(),
{
    let mut picked: Vec<usize> = Vec::new();
    assert(positions(picked@) =~= Seq::empty());
    for i in 0..items.len()
        invariant
            forall|x: &T| #[trigger] test.requires((x,)),
            forall|x: &T, b: bool| #[trigger] test.ensures((x,), b) ==> b == picks@(*x),
            positions(picked@) == matching(items@.take(i as int), picks@),
            forall|k: int| 0 <= k < picked@.len() ==> #[trigger] picked@[k] < i,
    {
        let ghost part = items@.take(i + 1);
        assert(part.drop_last() =~= items@.take(i as int));
        assert(part.last() == items@[i as int]);
        let ghost before = picked@;
        if test(&items[i]) {
            picked.push(i);
            assert(positions(picked@) =~= positions(before).push(i as int));
        }
    }
    assert(items@.take(items@.len() as int) =~= items@);
    picked
}

/// The positions a predicate picks are those of the items it holds of, each once and
/// in order.
pub proof fn matching_is_exact<T>(items: Seq<T>, picks: spec_fn(T) -> bool)
    ensures
        forall|k: int| #[trigger]
            matching(items, picks).contains(k) <==> 0 <= k < items.len() && picks(items[k]),
        forall|i: int, j: int|
            0 <= i < j < matching(items, picks).len() ==> #[trigger] matching(items, picks)[i]
                < #[trigger] matching(items, picks)[j],
    decreases items.len(),
{
    let picked = matching(items, picks);
    if items.len() > 0 {
        let rest = items.drop_last();
        let before = matching(rest, picks);
        matching_is_exact(rest, picks);
        assert forall|k: int| #[trigger] picked.contains(k) implies 0 <= k < items.len() && picks(
            items[k],
        ) by {
            let i = choose|i: int| 0 <= i < picked.len() && picked[i] == k;
            if i < before.len() {
                assert(before.contains(before[i]));
                assert(rest[k] == items[k]);
            }
        }
        assert forall|k: int| 0 <= k < items.len() && picks(items[k]) implies #[trigger]
        picked.contains(k) by {
            if k < rest.len() {
                assert(rest[k] == items[k]);
                assert(before.contains(k));
                let i = choose|i: int| 0 <= i < before.len() && before[i] == k;
                assert(picked[i] == k);
            } else {
                assert(picked[picked.len() - 1] == k);
            }
        }
        assert forall|i: int, j: int| 0 <= i < j < picked.len() implies #[trigger] picked[i]
            < #[trigger] picked[j] by {
            assert(before.contains(before[i]));
            if j < before.len() {
                assert(before[i] < before[j]);
            }
        }
    }
}

/// The position of the first item a predicate picks.
pub open spec fn first_match<T>(items: Seq<T>, picks: spec_fn(T) -> bool) -> Option<int> {
    let picked = matching(items, picks);
    if picked.len() > 0 {
        Some(picked[0])
    } else {
        None
    }
}

/// The position of the first item a test picks.
pub(crate) fn first_matching<T>(
    items: &[T],
    test: impl Fn(&T) -> bool,
    picks: Ghost<spec_fn(T) -> bool>,
) -> (r: Option<usize>)
    requires
        forall|x: &T| #[trigger] test.requires((x,)),
        forall|x: &T, b: bool| #[trigger] test.ensures((x,), b) ==> b == picks@(*x),
    ensures
        match r {
            Some(k) => first_match(items@, picks@) == Some(k as int) && k < items@.len() && picks@(
                items@[k as int],
            ) && forall|j: int| 0 <= j < k ==> !picks@(#[trigger] items@[j]),
            None => first_match(items@, picks@) is None && forall|j: int|
                0 <= j < items@.len() ==> !picks@(#[trigger] items@[j]),
        },
{
    let picked = matching_items(items, test, picks);
    proof {
        let all = matching(items@, picks@);
        matching_is_exact(items@, picks@);
        if all.len() > 0 {
            assert(all[0] == picked@[0]);
            assert(all.contains(all[0]));
            assert forall|j: int| 0 <= j < all[0] implies !picks@(#[trigger] items@[j]) by {
                if picks@(items@[j]) {
                    assert(all.contains(j));
                    let i = choose|i: int| 0 <= i < all.len() && all[i] == j;
                    if i > 0 {
                        assert(all[0] < all[i]);
                    }
                }
            }
        } else {
            assert forall|j: int| 0 <= j < items@.len() implies !picks@(#[trigger] items@[j]) by {
                if picks@(items@[j]) {
                    assert(all.contains(j));
                }
            }
        }
    }
    if picked.len() > 0 {
        Some(picked[0])
    } else {
        None
    }
}

/// The first item a predicate picks is one it holds of, with none before it; none is found
/// exactly where it holds of no item.
pub proof fn the_first_match_is_the_first<T>(items: Seq<T>, picks: spec_fn(T) -> bool)
    ensures
        match first_match(items, picks) {
            Some(k) => 0 <= k < items.len() && picks(items[k]) && forall|j: int|
                0 <= j < k ==> !picks(#[trigger] items[j]),
            None => forall|j: int| 0 <= j < items.len() ==> !picks(#[trigger] items[j]),
        },
{
    let all = matching(items, picks);
    matching_is_exact(items, picks);
    if all.len() > 0 {
        assert(all.contains(all[0]));
        assert forall|j: int| 0 <= j < all[0] implies !picks(#[trigger] items[j]) by {
            if picks(items[j]) {
                assert(all.contains(j));
                let i = choose|i: int| 0 <= i < all.len() && all[i] == j;
                if i > 0 {
                    assert(all[0] < all[i]);
                }
            }
        }
    } else {
        assert forall|j: int| 0 <= j < items.len() implies !picks(#[trigger] items[j]) by {
            if picks(items[j]) {
                assert(all.contains(j));
            }
        }
    }
}

} // verus!
