use vstd::prelude::*;

use crate::errors::ErrorCode;

verus! {

/// Overflow-checked addition of two amounts. Overflow is an integrity
/// violation, surfaced loudly as `ArithmeticOverflow` rather than wrapped or
/// clamped.
pub fn checked_add_u64(a: u64, b: u64) -> (r: Result<u64, ErrorCode>)
    ensures
        a + b <= u64::MAX ==> r == Ok::<u64, ErrorCode>((a + b) as u64),
        a + b > u64::MAX ==> r == Err::<u64, ErrorCode>(ErrorCode::ArithmeticOverflow),
{
    if b <= u64::MAX - a {
        Ok(a + b)
    } else {
        Err(ErrorCode::ArithmeticOverflow)
    }
}

/// Underflow-checked subtraction of two amounts. Underflow is an integrity
/// violation, surfaced loudly as `ArithmeticUnderflow`.
pub fn checked_sub_u64(a: u64, b: u64) -> (r: Result<u64, ErrorCode>)
    ensures
        b <= a ==> r == Ok::<u64, ErrorCode>((a - b) as u64),
        b > a ==> r == Err::<u64, ErrorCode>(ErrorCode::ArithmeticUnderflow),
{
    if b <= a {
        Ok(a - b)
    } else {
        Err(ErrorCode::ArithmeticUnderflow)
    }
}

/// Whether spending `amount` on top of `spent` stays within `limit`,
/// computed without any intermediate overflow.
pub fn within_limit(spent: u64, amount: u64, limit: u64) -> (r: bool)
    ensures
        r == (spent + amount <= limit),
{
    if spent > limit {
        false
    } else {
        amount <= limit - spent
    }
}

} // verus!
