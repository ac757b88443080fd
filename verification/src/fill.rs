//! The fill engine: pro-rata partial-fill arithmetic over a live order.
//!
//! A taker names an amount on one leg of the swap; the amount on the other
//! leg is derived by linear ratio against the order's full committed
//! amounts, and each transfer leg is reduced by its fee before it is handed
//! to the transfer collaborator. Nothing here mutates the order: the engine
//! only computes what a take would move.

use vstd::prelude::*;

use crate::constants::DECIMALS;
use crate::errors::ErrorCode;
use crate::math::{scale, scale_exact};
use crate::order::{Order, OrderModel};
use vstd::arithmetic::div_mod::{lemma_div_is_ordered, lemma_div_multiples_vanish, lemma_div_of0};
use vstd::arithmetic::mul::lemma_mul_inequality;

verus! {

/// Which leg the requested amount is measured on.
#[derive(Clone, Copy, Debug, PartialEq, Eq, Structural)]
pub enum FillDirection {
    /// The taker names the bid-side amount to be released from escrow; the
    /// ask-side amount owed in exchange is derived pro rata.
    BidSide,
    /// The taker names the ask-side amount they pay toward the maker's ask
    /// total; the bid-side amount released is derived pro rata.
    AskSide,
}

/// Everything one successful fill moves, before the record is updated.
#[derive(Clone, Copy, Debug, PartialEq, Eq, Structural)]
pub struct FillOutcome {
    /// The derived amount, on the leg the taker did not name.
    pub counterparty_amount: u64,
    /// Fee charged on the ask-side inflow, owed to the fee collector.
    pub maker_fee: u64,
    /// Fee charged on the bid-side outflow, owed to the fee collector.
    pub taker_fee: u64,
    /// Ask-side amount handed to the maker, net of the maker fee.
    pub net_amount_in: u64,
    /// Bid-side amount released to the taker, net of the taker fee.
    pub net_amount_out: u64,
}

/// Remaining capacity on the leg the requested amount is measured against.
pub open spec fn capacity(o: OrderModel, dir: FillDirection) -> int {
    match dir {
        FillDirection::BidSide => o.remaining_amount,
        FillDirection::AskSide => o.b - o.filled_amount,
    }
}

/// The derived amount on the other leg: the requested amount scaled by the
/// order's committed ratio, floored.
pub open spec fn counterparty_amount(o: OrderModel, dir: FillDirection, requested: int) -> int {
    match dir {
        FillDirection::BidSide => scale_exact(requested, o.b, o.a),
        FillDirection::AskSide => scale_exact(requested, o.a, o.b),
    }
}

/// The bid-side outflow of the fill: what leaves escrow toward the taker.
pub open spec fn bid_leg(o: OrderModel, dir: FillDirection, requested: int) -> int {
    match dir {
        FillDirection::BidSide => requested,
        FillDirection::AskSide => counterparty_amount(o, dir, requested),
    }
}

/// The ask-side inflow of the fill: what the taker pays toward the maker.
pub open spec fn ask_leg(o: OrderModel, dir: FillDirection, requested: int) -> int {
    match dir {
        FillDirection::BidSide => counterparty_amount(o, dir, requested),
        FillDirection::AskSide => requested,
    }
}

/// Fee on the leg flowing to the maker's benefit.
pub open spec fn maker_fee_amount(o: OrderModel, dir: FillDirection, requested: int) -> int {
    scale_exact(ask_leg(o, dir, requested), o.maker_fee, DECIMALS as int)
}

/// Fee on the leg flowing out of escrow to the taker.
pub open spec fn taker_fee_amount(o: OrderModel, dir: FillDirection, requested: int) -> int {
    scale_exact(bid_leg(o, dir, requested), o.taker_fee, DECIMALS as int)
}

/// The fee arithmetic fails when a fee does not fit the amount width or
/// exceeds the leg it is charged on (possible: the rates are not bounded).
pub open spec fn fill_arith_overflows(o: OrderModel, dir: FillDirection, requested: int) -> bool {
    ||| maker_fee_amount(o, dir, requested) > u64::MAX
    ||| taker_fee_amount(o, dir, requested) > u64::MAX
    ||| maker_fee_amount(o, dir, requested) > ask_leg(o, dir, requested)
    ||| taker_fee_amount(o, dir, requested) > bid_leg(o, dir, requested)
}

/// Exactly when and why a fill is refused.
pub open spec fn fill_err(o: OrderModel, requested: int, dir: FillDirection) -> Option<ErrorCode> {
    if requested <= 0 || requested > capacity(o, dir) {
        Some(ErrorCode::InvalidAmount)
    } else if fill_arith_overflows(o, dir, requested) {
        Some(ErrorCode::Overflow)
    } else {
        None
    }
}

/// What a successful fill returns.
pub open spec fn fill_outcome(o: OrderModel, requested: int, dir: FillDirection) -> FillOutcome {
    (FillOutcome {
        counterparty_amount: counterparty_amount(o, dir, requested) as u64,
        maker_fee: maker_fee_amount(o, dir, requested) as u64,
        taker_fee: taker_fee_amount(o, dir, requested) as u64,
        net_amount_in: (ask_leg(o, dir, requested) - maker_fee_amount(o, dir, requested)) as u64,
        net_amount_out: (bid_leg(o, dir, requested) - taker_fee_amount(o, dir, requested)) as u64,
    })
}

/// Within capacity, the derived leg never exceeds the opposite committed
/// total, so the ratio arithmetic itself cannot overflow.
pub proof fn lemma_counterparty_fits(o: OrderModel, dir: FillDirection, requested: int)
    requires
        o.wf(),
        0 < requested <= capacity(o, dir),
    ensures
        0 <= counterparty_amount(o, dir, requested) <= u64::MAX,
{
    match dir {
        FillDirection::BidSide => {
            lemma_mul_inequality(requested, o.a, o.b);
            lemma_div_is_ordered(requested * o.b, o.a * o.b, o.a);
            lemma_div_multiples_vanish(o.b, o.a);
            lemma_div_of0(o.a);
            lemma_mul_inequality(0, requested, o.b);
            lemma_div_is_ordered(0, requested * o.b, o.a);
        },
        FillDirection::AskSide => {
            lemma_mul_inequality(requested, o.b, o.a);
            lemma_div_is_ordered(requested * o.a, o.b * o.a, o.b);
            lemma_div_multiples_vanish(o.a, o.b);
            lemma_div_of0(o.b);
            lemma_mul_inequality(0, requested, o.a);
            lemma_div_is_ordered(0, requested * o.a, o.b);
        },
    }
}

/// Compute what a fill of `requested`, measured on the `dir` leg, would
/// move. The requested amount must be positive and within the remaining
/// capacity of its leg — violating either is an error, not a silent clamp —
/// and every arithmetic step must fit, else nothing is reported moved.
pub fn fill(order: &Order, requested: u64, dir: FillDirection) -> (r: Result<FillOutcome, ErrorCode>)
    requires
        order@.wf(),
    ensures
        fill_err(order@, requested as int, dir) matches Some(e) ==> r == Err::<FillOutcome, ErrorCode>(e),
        fill_err(order@, requested as int, dir) is None ==> r == Ok::<FillOutcome, ErrorCode>(
            fill_outcome(order@, requested as int, dir),
        ),
{
    if requested == 0 {
        return Err(ErrorCode::InvalidAmount);
    }
    let cap: u64 = match dir {
        FillDirection::BidSide => order.remaining_amount,
        FillDirection::AskSide => order.b - order.filled_amount,
    };
    if requested > cap {
        return Err(ErrorCode::InvalidAmount);
    }
    proof {
        lemma_counterparty_fits(order@, dir, requested as int);
    }
    let cpty: u64 = match dir {
        FillDirection::BidSide => match scale(requested, order.b, order.a) {
            Ok(v) => v,
            Err(e) => return Err(e),
        },
        FillDirection::AskSide => match scale(requested, order.a, order.b) {
            Ok(v) => v,
            Err(e) => return Err(e),
        },
    };
    let bid_amount: u64 = match dir {
        FillDirection::BidSide => requested,
        FillDirection::AskSide => cpty,
    };
    let ask_amount: u64 = match dir {
        FillDirection::BidSide => cpty,
        FillDirection::AskSide => requested,
    };
    let maker_fee: u64 = match scale(ask_amount, order.maker_fee as u64, DECIMALS) {
        Ok(v) => v,
        Err(e) => return Err(e),
    };
    let taker_fee: u64 = match scale(bid_amount, order.taker_fee as u64, DECIMALS) {
        Ok(v) => v,
        Err(e) => return Err(e),
    };
    if maker_fee > ask_amount || taker_fee > bid_amount {
        return Err(ErrorCode::Overflow);
    }
    Ok(FillOutcome {
        counterparty_amount: cpty,
        maker_fee,
        taker_fee,
        net_amount_in: ask_amount - maker_fee,
        net_amount_out: bid_amount - taker_fee,
    })
}

} // verus!
