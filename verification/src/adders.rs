use vstd::prelude::*;

verus! {

/// Adds two machine integers. The caller must keep the mathematical sum
/// within the range of `i32`; under that condition the result is exactly
/// `x + y`.
pub fn okadd(x: i32, y: i32) -> (r: i32)
    requires
        i32::MIN <= x + y <= i32::MAX,
    ensures
        r == x + y,
{
    x + y
}

/// A deliberately flawed addition, kept to show that a wrong body can be
/// told apart from a right one: it ignores `y` entirely and returns `x`
/// doubled. The contract records the flaw rather than hiding it.
pub fn crapadd(x: i32, _y: i32) -> (r: i32)
    requires
        i32::MIN <= x + x <= i32::MAX,
    ensures
        r == x + x,
{
    return x + x;
}

} // verus!
