//! Stopping an order early: the authority reclaims the unfilled balance.

use vstd::prelude::*;

use crate::errors::ErrorCode;
use crate::order::{Order, OrderModel};
use crate::whitelist::bytes_eq;

verus! {

/// Exactly when and why a stop is refused.
pub open spec fn stop_err(o: OrderModel, caller: Seq<u8>, now: Option<i64>) -> Option<ErrorCode> {
    if caller != o.authority {
        Some(ErrorCode::InvalidAuthority)
    } else if now is None {
        Some(ErrorCode::InvalidCurrentDate)
    } else {
        None
    }
}

/// The record after a stop: nothing remains to fill, and if the order was
/// still running its end date is clamped to the stop time, so the order is
/// unambiguously ended for any observer of the window. The end date is
/// only ever moved earlier, never later.
pub open spec fn stop_next(o: OrderModel, now: int) -> OrderModel {
    (OrderModel {
        remaining_amount: 0,
        end_date: if o.end_date > now {
            now
        } else {
            o.end_date
        },
        ..o
    })
}

/// Stop the order. Returns the refund owed to the maker: exactly the
/// remaining amount at the time of the stop, which the host transfers
/// back out of escrow.
pub fn exec(order: &mut Order, caller: &Vec<u8>, now: Option<i64>) -> (r: Result<u64, ErrorCode>)
    ensures
        match stop_err(old(order)@, caller@, now) {
            Some(e) => r == Err::<u64, ErrorCode>(e) && *final(order) == *old(order),
            None => r == Ok::<u64, ErrorCode>(old(order).remaining_amount)
                && final(order)@ == stop_next(old(order)@, now->0 as int),
        },
        old(order)@.wf() ==> final(order)@.wf(),
{
    if !bytes_eq(caller, &order.authority) {
        return Err(ErrorCode::InvalidAuthority);
    }
    let t = match now {
        Some(t) => t,
        None => return Err(ErrorCode::InvalidCurrentDate),
    };
    let refund = order.remaining_amount;
    order.remaining_amount = 0;
    if order.end_date > t {
        order.end_date = t;
    }
    proof {
        assert(order@ =~= stop_next(old(order)@, t as int));
    }
    Ok(refund)
}

} // verus!
