//! A verified model of a shared-state worker pool: a fixed number of
//! workers share one in-memory cell through an exclusive lock or a
//! shared/exclusive lock, or hand messages to a single consumer through
//! an ordered queue. The lock disciplines, the poisoning of a lock whose
//! holder terminated abnormally, the queue's delivery order and its
//! termination once every sender is gone are all stated as contracts and
//! proved.

use vstd::prelude::*;

pub mod channel;
pub mod counter;
pub mod outcome;
pub mod pool;
pub mod refcount;
pub mod rwcell;

verus! {

/// Truncating integer division (the quotient is rounded toward zero),
/// written over mathematical integers. `/` on `int` is Euclidean, so the
/// negative-dividend case is mirrored through negation.
pub open spec fn div_toward_zero(a: int, b: int) -> int {
    if a >= 0 {
        a / b
    } else {
        -((-a) / b)
    }
}

/// Divides `a` by `b`, refusing a zero divisor instead of failing.
///
/// The one remaining overflowing input, `i32::MIN / -1`, is excluded by
/// precondition.
pub fn divide(a: i32, b: i32) -> (r: Option<i32>)
    requires
        !(a == i32::MIN && b == -1),
    ensures
        b == 0 ==> r is None,
        b != 0 ==> (r matches Some(q) && q == div_toward_zero(a as int, b as int)),
{
    if b == 0 {
        None
    } else {
        proof {
            let ga = a as int;
            let gb = b as int;
            assert(i32::MIN <= (if ga >= 0 {
                ga / gb
            } else {
                -((-ga) / gb)
            }) <= i32::MAX) by (nonlinear_arith)
                requires
                    i32::MIN <= ga <= i32::MAX,
                    i32::MIN <= gb <= i32::MAX,
                    gb != 0,
                    !(ga == i32::MIN && gb == -1),
            ;
        }
        Some(a / b)
    }
}

} // verus!
