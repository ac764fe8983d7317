//! In-place updates of fixed-size arrays.

use vstd::prelude::*;

verus! {

/// Adds one to every element of a five-element array, in place.
pub fn plus_one(arr: &mut [i32; 5])
    requires
        forall|i: int| 0 <= i < 5 ==> old(arr)@[i] < i32::MAX,
    ensures
        forall|i: int| 0 <= i < 5 ==> final(arr)@[i] == old(arr)@[i] + 1,
{
    for i in 0..5usize
        invariant
            forall|j: int| 0 <= j < 5 ==> old(arr)@[j] < i32::MAX,
            forall|j: int| 0 <= j < i ==> arr@[j] == old(arr)@[j] + 1,
            forall|j: int| i <= j < 5 ==> arr@[j] == old(arr)@[j],
    {
        arr[i] = arr[i] + 1;
    }
}

/// Adds one to every element of a five-element array, in place.
pub fn each_plus_one(arr: &mut [i32; 5])
    requires
        forall|i: int| 0 <= i < 5 ==> old(arr)@[i] < i32::MAX,
    ensures
        forall|i: int| 0 <= i < 5 ==> final(arr)@[i] == old(arr)@[i] + 1,
{
    for i in 0..5usize
        invariant
            forall|j: int| 0 <= j < 5 ==> old(arr)@[j] < i32::MAX,
            forall|j: int| 0 <= j < i ==> arr@[j] == old(arr)@[j] + 1,
            forall|j: int| i <= j < 5 ==> arr@[j] == old(arr)@[j],
    {
        arr[i] = arr[i] + 1;
    }
}

} // verus!
