use vstd::prelude::*;

verus! {

/// The mathematical value of incrementing a 32-bit signed integer with
/// two's-complement wraparound: every value but the maximum goes to its
/// successor, and the maximum wraps to the minimum.
pub open spec fn inc_spec(x: int) -> int {
    if x == i32::MAX {
        i32::MIN as int
    } else {
        x + 1
    }
}

/// Increments a 32-bit signed integer by one.
///
/// Overflow policy: the maximum representable value wraps around to the
/// minimum representable value; every other input maps to its successor.
pub fn inc(x: i32) -> (r: i32)
    ensures
        r == inc_spec(x as int),
        x < i32::MAX ==> r == x + 1,
        x == i32::MAX ==> r == i32::MIN,
{
    if x == i32::MAX {
        i32::MIN
    } else {
        x + 1
    }
}

/// Incrementing is deterministic: any two results that meet `inc`'s
/// contract on the same input are equal.
pub proof fn lemma_inc_deterministic(x: i32, r1: i32, r2: i32)
    requires
        r1 == inc_spec(x as int),
        r2 == inc_spec(x as int),
    ensures
        r1 == r2,
{
}

} // verus!
