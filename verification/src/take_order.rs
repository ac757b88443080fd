//! Taking an order: the one operation open to counterparties.
//!
//! A take validates the order's state, its validity window and the taker's
//! eligibility, delegates the arithmetic to the fill engine, and only then
//! updates the record. The host requests the (up to) four transfer legs of
//! the returned outcome after this returns successfully; its execution
//! model undoes the record update as a unit if any transfer is rejected.

use vstd::prelude::*;

use crate::errors::ErrorCode;
use crate::fill::{ask_leg, bid_leg, capacity, fill, fill_arith_overflows, fill_outcome};
use crate::fill::{lemma_counterparty_fits, FillDirection, FillOutcome};
use crate::order::{Order, OrderModel, OrderState};
use crate::whitelist::eligible;

verus! {

/// The arithmetic of one take goes through: the requested amount is within
/// capacity, the fees fit, and both record updates stay within their
/// committed totals.
pub open spec fn take_arith_ok(o: OrderModel, requested: int, dir: FillDirection) -> bool {
    &&& 0 < requested <= capacity(o, dir)
    &&& !fill_arith_overflows(o, dir, requested)
    &&& bid_leg(o, dir, requested) <= o.remaining_amount
    &&& o.filled_amount + ask_leg(o, dir, requested) <= o.b
}

/// Exactly when and why a take is refused, in the order the checks run:
/// state, amount, clock, window, eligibility, arithmetic.
pub open spec fn take_err(
    o: OrderModel,
    requested: int,
    dir: FillDirection,
    siblings: Seq<Seq<u8>>,
    taker: Seq<u8>,
    now: Option<i64>,
) -> Option<ErrorCode> {
    if o.state != OrderState::Initialized {
        Some(ErrorCode::PausedOrder)
    } else if requested <= 0 || requested > capacity(o, dir) {
        Some(ErrorCode::InvalidAmount)
    } else if now is None {
        Some(ErrorCode::InvalidCurrentDate)
    } else if o.start_date > now->0 {
        Some(ErrorCode::NotStartedOrder)
    } else if o.end_date <= now->0 {
        Some(ErrorCode::EndedOrder)
    } else if !eligible(o.whitelist, siblings, taker) {
        Some(ErrorCode::NotInWhitelist)
    } else if !take_arith_ok(o, requested, dir) {
        Some(ErrorCode::Overflow)
    } else {
        None
    }
}

/// The record after a successful take: the bid leg leaves the remaining
/// amount, the ask leg joins the filled amount, nothing else moves.
pub open spec fn take_next(o: OrderModel, requested: int, dir: FillDirection) -> OrderModel {
    (OrderModel {
        remaining_amount: o.remaining_amount - bid_leg(o, dir, requested),
        filled_amount: o.filled_amount + ask_leg(o, dir, requested),
        ..o
    })
}

/// Take `requested`, measured on the `dir` leg, out of the order. On any
/// error the record is untouched; on success it is updated and the outcome
/// lists the transfer legs the host must now request.
pub fn exec(
    order: &mut Order,
    taker: &Vec<u8>,
    requested: u64,
    dir: FillDirection,
    merkle_proof: Vec<Vec<u8>>,
    now: Option<i64>,
) -> (r: Result<FillOutcome, ErrorCode>)
    requires
        old(order)@.wf(),
    ensures
        final(order)@.wf(),
        match take_err(old(order)@, requested as int, dir, merkle_proof.deep_view(), taker@, now) {
            Some(e) => r == Err::<FillOutcome, ErrorCode>(e) && *final(order) == *old(order),
            None => r == Ok::<FillOutcome, ErrorCode>(fill_outcome(old(order)@, requested as int, dir))
                && final(order)@ == take_next(old(order)@, requested as int, dir),
        },
{
    if !order.is_active() {
        return Err(ErrorCode::PausedOrder);
    }
    let cap: u64 = match dir {
        FillDirection::BidSide => order.remaining_amount,
        FillDirection::AskSide => order.b - order.filled_amount,
    };
    if requested == 0 || requested > cap {
        return Err(ErrorCode::InvalidAmount);
    }
    let t = match now {
        Some(t) => t,
        None => return Err(ErrorCode::InvalidCurrentDate),
    };
    if order.start_date > t {
        return Err(ErrorCode::NotStartedOrder);
    }
    if order.end_date <= t {
        return Err(ErrorCode::EndedOrder);
    }
    if !order.is_whitelist(merkle_proof, taker) {
        return Err(ErrorCode::NotInWhitelist);
    }
    let out = match fill(order, requested, dir) {
        Ok(out) => out,
        Err(e) => return Err(e),
    };
    proof {
        lemma_counterparty_fits(order@, dir, requested as int);
    }
    let bid_amount: u64 = match dir {
        FillDirection::BidSide => requested,
        FillDirection::AskSide => out.counterparty_amount,
    };
    let ask_amount: u64 = match dir {
        FillDirection::BidSide => out.counterparty_amount,
        FillDirection::AskSide => requested,
    };
    if bid_amount > order.remaining_amount {
        return Err(ErrorCode::Overflow);
    }
    if ask_amount > order.b - order.filled_amount {
        return Err(ErrorCode::Overflow);
    }
    order.remaining_amount = order.remaining_amount - bid_amount;
    order.filled_amount = order.filled_amount + ask_amount;
    proof {
        assert(order@ =~= take_next(old(order)@, requested as int, dir));
    }
    Ok(out)
}

} // verus!
