//! Generic functions: scanning a slice for its largest element, and functions
//! whose bounds are written inline or in a `where` clause.

use core::cmp::Ordering;
use vstd::prelude::*;
use vstd::std_specs::cmp::PartialOrdSpec;

verus! {

/// The element kept by a left-to-right scan of `s` that replaces its
/// candidate whenever an element compares greater than the candidate held so
/// far.
pub open spec fn largest_scan<T: PartialOrd>(s: Seq<T>) -> T
    recommends
        s.len() > 0,
    decreases s.len(),
{
    if s.len() <= 1 {
        s[0]
    } else {
        let prev = largest_scan(s.drop_last());
        if s.last().partial_cmp_spec(&prev) == Some(Ordering::Greater) {
            s.last()
        } else {
            prev
        }
    }
}

/// Scans the slice left to right and returns the element that `largest_scan`
/// describes; for a type whose ordering obeys its specification and is total,
/// that is the maximum.
pub fn largest<T: PartialOrd + Copy>(list: &[T]) -> (r: T)
    requires
        list@.len() > 0,
        T::obeys_partial_cmp_spec(),
    ensures
        r == largest_scan(list@),
{
    let mut largest = list[0];
    assert(list@.take(1) =~= seq![list@[0]]);
    for i in 1..list.len()
        invariant
            0 < i <= list@.len(),
            T::obeys_partial_cmp_spec(),
            largest == largest_scan(list@.take(i as int)),
    {
        let item = list[i];
        proof {
            assert(list@.take(i + 1).drop_last() =~= list@.take(i as int));
            assert(list@.take(i + 1).last() == list@[i as int]);
        }
        if item > largest {
            largest = item;
        }
    }
    proof {
        assert(list@.take(list@.len() as int) =~= list@);
    }
    largest
}

/// For integers the scan candidate is replaced exactly on a strictly greater
/// element, so the scan result is an element of the sequence that no element
/// exceeds.
pub proof fn lemma_largest_scan_is_max(s: Seq<i32>)
    requires
        s.len() > 0,
    ensures
        s.contains(largest_scan(s)),
        forall|i: int| 0 <= i < s.len() ==> s[i] <= largest_scan(s),
    decreases s.len(),
{
    if s.len() <= 1 {
        assert(s[0] == largest_scan(s));
    } else {
        lemma_largest_scan_is_max(s.drop_last());
        let prev = largest_scan(s.drop_last());
        assert(s.drop_last().contains(prev));
        let j = choose|j: int| 0 <= j < s.drop_last().len() && s.drop_last()[j] == prev;
        assert(s[j] == prev);
        assert(forall|i: int| 0 <= i < s.len() - 1 ==> s[i] == s.drop_last()[i]);
    }
}

/// Returns one, whatever the two borrowed values are.
pub fn some_function<T: core::fmt::Display + Clone, U: Clone + core::fmt::Debug>(t: &T, u: &U) -> (r:
    i32)
    ensures
        r == 1,
{
    return 1;
}

/// Returns one, whatever the two borrowed values are; the bounds are spelled
/// out in a `where` clause.
pub fn some_function_with_where_clause<T, U>(t: &T, u: &U) -> (r: i32) where
    T: core::fmt::Display + Clone,
    U: Clone + core::fmt::Debug,

    ensures
        r == 1,
{
    return 1;
}

} // verus!
