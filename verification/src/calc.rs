//! The arithmetic of the calculator guest program that the embedded virtual
//! machine runs: the pre-multiplication step its exported entry points share.

use vstd::prelude::*;

verus! {

/// The guest's pre-multiplication step: the product where the first operand
/// dominates; the quotient where it does not and the divisor is non-zero;
/// zero otherwise — both operands are then zero. A dominating product beyond
/// the type's range is a contract violation.
pub fn pre_mul(a: u32, b: u32) -> (r: u32)
    requires
        a > b ==> a * b <= u32::MAX,
    ensures
        a > b ==> r == a * b,
        a <= b && b != 0 ==> r == a / b,
        a <= b && b == 0 ==> r == 0,
{
    if a > b {
        a * b
    } else if b != 0 {
        a / b
    } else {
        a - b
    }
}

} // verus!
