use vstd::prelude::*;

verus! {

/// Looks up position `i` in a five-element array. An index past the last
/// valid position (4) is rejected with `None`; in particular, asking for
/// position 5 of a five-element array fails instead of being clamped onto
/// the array's edge.
pub fn element_at(a: &[i32; 5], i: usize) -> (r: Option<i32>)
    ensures
        i < 5 ==> r == Some(a@[i as int]),
        i >= 5 ==> r is None,
{
    if i < 5 {
        Some(a[i])
    } else {
        None
    }
}

} // verus!
