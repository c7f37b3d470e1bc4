//! Small arithmetic helpers.

use vstd::prelude::*;

verus! {

/// Adds two numbers; the sum must fit in `i32`.
pub fn add(a: i32, b: i32) -> (r: i32)
    requires
        i32::MIN <= a + b <= i32::MAX,
    ensures
        r == a + b,
{
    a + b
}

} // verus!
