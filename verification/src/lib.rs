use vstd::prelude::*;

verus! {

/// Returns its argument plus one.
///
/// The argument must be strictly below `i32::MAX`, so the sum always fits
/// in an `i32` and the function never panics.
pub fn add_one(x: i32) -> (r: i32)
    requires
        x < i32::MAX,
    ensures
        r == x + 1,
{
    x + 1
}

} // verus!
