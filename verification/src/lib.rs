//! A process context reporter: lookup and filtering over an environment
//! snapshot, debug-style rendering of the invocation arguments, and a small
//! arithmetic helper.

use vstd::prelude::*;

pub mod env;
pub mod render;
pub mod report;

verus! {

/// What 32-bit two's-complement arithmetic keeps of `n`, for an `n` that
/// lies at most one full range outside of `i32`: `n` moved by 2^32 back into
/// the range.
pub open spec fn wrapped(n: int) -> int {
    if n > i32::MAX {
        n - 0x1_0000_0000
    } else if n < i32::MIN {
        n + 0x1_0000_0000
    } else {
        n
    }
}

/// Sum of two signed 32-bit integers. A sum outside of `i32` wraps around:
/// the result is the one `i32` that differs from the exact sum by a multiple
/// of 2^32.
pub fn add(a: i32, b: i32) -> (sum: i32)
    ensures
        sum == wrapped(a + b),
        i32::MIN <= a + b <= i32::MAX ==> sum == a + b,
        (sum - (a + b)) % 0x1_0000_0000 == 0,
{
    a.wrapping_add(b)
}

} // verus!
