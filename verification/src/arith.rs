//! Overflow-safe arithmetic for fields reached through validated views.
//!
//! State that participates in a balance, counter or quantity computation must
//! be updated only through these operations.  Each returns `Some` exactly
//! when the mathematically exact result fits the width, and `None` otherwise,
//! so a caller can abort instead of applying a silently wrapped value.

use vstd::prelude::*;

verus! {

/// `Some(a + b)` exactly when the sum fits a `u64`, else `None`.
pub fn checked_add(a: u64, b: u64) -> (r: Option<u64>)
    ensures
        a + b <= u64::MAX ==> r == Some((a + b) as u64),
        a + b > u64::MAX ==> r is None,
{
    a.checked_add(b)
}

/// `Some(a - b)` exactly when the difference is non-negative, else `None`.
pub fn checked_sub(a: u64, b: u64) -> (r: Option<u64>)
    ensures
        b <= a ==> r == Some((a - b) as u64),
        b > a ==> r is None,
{
    a.checked_sub(b)
}

/// `Some(a * b)` exactly when the product fits a `u64`, else `None`.
pub fn checked_mul(a: u64, b: u64) -> (r: Option<u64>)
    ensures
        a * b <= u64::MAX ==> r == Some((a * b) as u64),
        a * b > u64::MAX ==> r is None,
{
    a.checked_mul(b)
}

} // verus!
