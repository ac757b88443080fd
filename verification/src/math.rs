//! Overflow-safe fixed-point scaling: the one arithmetic primitive every
//! fill and fee computation routes through.

use vstd::prelude::*;

use crate::errors::ErrorCode;

verus! {

/// Exact rational scaling: the integer floor of `y * m / d`.
pub open spec fn scale_exact(y: int, m: int, d: int) -> int {
    (y * m) / d
}

/// `floor(y * m / d)`, computed through a 128-bit intermediate so the
/// multiply cannot overflow before the divide reduces it. Fails exactly
/// when the divisor is zero or the quotient does not fit in 64 bits.
/// Truncation is deliberate policy: residual dust is a shortfall to the
/// payer, never a windfall the counterparty must cover.
pub fn scale(y: u64, m: u64, d: u64) -> (r: Result<u64, ErrorCode>)
    ensures
        d != 0 && scale_exact(y as int, m as int, d as int) <= u64::MAX ==>
            (r matches Ok(v) && v == scale_exact(y as int, m as int, d as int)),
        d == 0 || scale_exact(y as int, m as int, d as int) > u64::MAX ==>
            r == Err::<u64, ErrorCode>(ErrorCode::Overflow),
{
    if d == 0 {
        return Err(ErrorCode::Overflow);
    }
    assert((y as int) * (m as int) <= (u64::MAX as int) * (u64::MAX as int)) by (nonlinear_arith)
        requires
            y as int <= u64::MAX as int,
            m as int <= u64::MAX as int,
            0 <= y as int,
            0 <= m as int,
    ;
    let wide: u128 = (y as u128) * (m as u128);
    let q: u128 = wide / (d as u128);
    if q > u64::MAX as u128 {
        Err(ErrorCode::Overflow)
    } else {
        Ok(q as u64)
    }
}

} // verus!
