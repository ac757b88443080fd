//! Pausing an order: the authority blocks further takes until it resumes.

use vstd::prelude::*;

use crate::errors::ErrorCode;
use crate::order::{Order, OrderModel, OrderState};
use crate::whitelist::bytes_eq;

verus! {

/// The record after a pause: only the state changes.
pub open spec fn pause_next(o: OrderModel) -> OrderModel {
    (OrderModel { state: OrderState::Paused, ..o })
}

/// Pause the order. Only the authority may; otherwise unconditional.
pub fn exec(order: &mut Order, caller: &Vec<u8>) -> (r: Result<(), ErrorCode>)
    ensures
        caller@ != old(order)@.authority ==> (r == Err::<(), ErrorCode>(ErrorCode::InvalidAuthority)
            && *final(order) == *old(order)),
        caller@ == old(order)@.authority ==> (r == Ok::<(), ErrorCode>(())
            && final(order)@ == pause_next(old(order)@)),
        old(order)@.wf() ==> final(order)@.wf(),
{
    if !bytes_eq(caller, &order.authority) {
        return Err(ErrorCode::InvalidAuthority);
    }
    order.state = OrderState::Paused;
    proof {
        assert(order@ =~= pause_next(old(order)@));
    }
    Ok(())
}

} // verus!
