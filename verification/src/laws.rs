//! The laws of the order book, stated and proved once and for all inputs:
//! what creation establishes, what sequences of takes conserve, what a
//! fill at exact capacity does, and how pause, resume and stop interact
//! with takes.

use vstd::prelude::*;

use crate::constants::DECIMALS;
use crate::errors::ErrorCode;
use crate::fill::{ask_leg, bid_leg, capacity, counterparty_amount, fill_err};
use crate::fill::{lemma_counterparty_fits, FillDirection};
use crate::make_order::make_model;
use crate::math::scale_exact;
use crate::order::{OrderModel, OrderState};
use crate::pause::pause_next;
use crate::resume::resume_next;
use crate::stop::stop_next;
use crate::take_order::{take_arith_ok, take_err, take_next};
use vstd::arithmetic::div_mod::{
    lemma_div_is_ordered, lemma_div_multiples_vanish, lemma_div_multiples_vanish_fancy,
    lemma_div_of0, lemma_fundamental_div_mod, lemma_mod_bound,
};
use vstd::arithmetic::mul::lemma_mul_inequality;

verus! {

/// Creation law: immediately after a create, the whole bid amount remains,
/// nothing is filled, and the order is live.
pub proof fn lemma_create_initializes(
    authority: Seq<u8>,
    a_token: Seq<u8>,
    b_token: Seq<u8>,
    a: int,
    b: int,
    maker_fee: int,
    taker_fee: int,
    taxman: Seq<u8>,
    start_date: int,
    end_date: int,
    whitelist: Seq<u8>,
)
    ensures
        ({
            let o = make_model(
                authority, a_token, b_token, a, b, maker_fee, taker_fee, taxman, start_date,
                end_date, whitelist,
            );
            &&& o.remaining_amount == a
            &&& o.filled_amount == 0
            &&& o.state == OrderState::Initialized
        }),
{
}

/// Drain law: a take of exactly the remaining capacity of a leg leaves
/// that leg with no capacity at all.
pub proof fn lemma_full_drain(o: OrderModel, dir: FillDirection)
    requires
        o.wf(),
        take_arith_ok(o, capacity(o, dir), dir),
    ensures
        capacity(take_next(o, capacity(o, dir), dir), dir) == 0,
{
}

/// Rejection law: a requested amount of zero, or in excess of the
/// remaining capacity by as little as one unit, is refused as an invalid
/// amount — by the fill engine and by the take operation alike.
pub proof fn lemma_overfill_rejected(
    o: OrderModel,
    dir: FillDirection,
    requested: int,
    siblings: Seq<Seq<u8>>,
    taker: Seq<u8>,
    now: Option<i64>,
)
    requires
        requested <= 0 || requested > capacity(o, dir),
    ensures
        fill_err(o, requested, dir) == Some(ErrorCode::InvalidAmount),
        o.state == OrderState::Initialized ==> take_err(o, requested, dir, siblings, taker, now)
            == Some(ErrorCode::InvalidAmount),
{
}

/// The bid side never lags the ask side: enough of the escrow remains to
/// cover the still-unfilled share of the ask total. Fresh orders have it,
/// and ask-side takes keep it; it is what makes an ask-side take's derived
/// leg always fit the remaining amount.
pub open spec fn ask_balanced(o: OrderModel) -> bool {
    o.remaining_amount * o.b >= (o.b - o.filled_amount) * o.a
}

/// The bid side never leads the ask side by more than the rounding dust of
/// one division: the dual of `ask_balanced`, kept by bid-side takes, and
/// what makes a bid-side take's derived leg always fit the unfilled share.
pub open spec fn bid_balanced(o: OrderModel) -> bool {
    o.remaining_amount * o.b <= (o.b - o.filled_amount) * o.a + o.a - 1
}

/// A fresh order — full remaining amount, nothing filled — is balanced in
/// both directions.
pub proof fn lemma_fresh_order_balanced(o: OrderModel)
    requires
        o.wf(),
        o.remaining_amount == o.a,
        o.filled_amount == 0,
    ensures
        ask_balanced(o),
        bid_balanced(o),
{
    assert(o.a * o.b >= o.b * o.a && o.a * o.b <= o.b * o.a + o.a - 1) by (nonlinear_arith)
        requires
            o.a >= 1,
    ;
}

/// A fee at a rate within the base denominator fits within the leg it is
/// charged on.
pub proof fn lemma_fee_fits(leg: int, rate: int)
    requires
        0 <= leg,
        0 <= rate <= DECIMALS as int,
    ensures
        0 <= scale_exact(leg, rate, DECIMALS as int) <= leg,
{
    let d = DECIMALS as int;
    lemma_mul_inequality(0, leg, rate);
    lemma_div_of0(d);
    lemma_div_is_ordered(0, leg * rate, d);
    assert(leg * rate <= d * leg) by (nonlinear_arith)
        requires
            0 <= leg,
            0 <= rate <= d,
    ;
    lemma_div_is_ordered(leg * rate, d * leg, d);
    lemma_div_multiples_vanish(leg, d);
}

/// Success law for the fill arithmetic: any positive request within
/// capacity goes through whole, provided the order is balanced for the
/// direction and neither fee rate exceeds the base denominator.
pub proof fn lemma_take_arith_ok(o: OrderModel, dir: FillDirection, requested: int)
    requires
        o.wf(),
        0 < requested <= capacity(o, dir),
        o.maker_fee <= DECIMALS as int,
        o.taker_fee <= DECIMALS as int,
        dir == FillDirection::AskSide ==> ask_balanced(o),
        dir == FillDirection::BidSide ==> bid_balanced(o),
    ensures
        take_arith_ok(o, requested, dir),
{
    lemma_counterparty_fits(o, dir, requested);
    lemma_fee_fits(ask_leg(o, dir, requested), o.maker_fee);
    lemma_fee_fits(bid_leg(o, dir, requested), o.taker_fee);
    match dir {
        FillDirection::AskSide => {
            lemma_mul_inequality(requested, o.b - o.filled_amount, o.a);
            lemma_div_is_ordered(requested * o.a, o.remaining_amount * o.b, o.b);
            lemma_div_multiples_vanish(o.remaining_amount, o.b);
            assert((o.b * o.remaining_amount) == o.remaining_amount * o.b) by (nonlinear_arith);
        },
        FillDirection::BidSide => {
            lemma_mul_inequality(requested, o.remaining_amount, o.b);
            lemma_div_is_ordered(
                requested * o.b,
                (o.b - o.filled_amount) * o.a + o.a - 1,
                o.a,
            );
            lemma_div_multiples_vanish_fancy(o.b - o.filled_amount, o.a - 1, o.a);
            assert(o.a * (o.b - o.filled_amount) == (o.b - o.filled_amount) * o.a)
                by (nonlinear_arith);
        },
    }
}

/// Ask-side takes preserve the ask-side balance.
pub proof fn lemma_take_preserves_ask_balanced(o: OrderModel, requested: int)
    requires
        o.wf(),
        ask_balanced(o),
        take_arith_ok(o, requested, FillDirection::AskSide),
    ensures
        ask_balanced(take_next(o, requested, FillDirection::AskSide)),
{
    let x = counterparty_amount(o, FillDirection::AskSide, requested);
    lemma_fundamental_div_mod(requested * o.a, o.b);
    lemma_mod_bound(requested * o.a, o.b);
    assert((o.remaining_amount - x) * o.b >= (o.b - (o.filled_amount + requested)) * o.a)
        by (nonlinear_arith)
        requires
            o.remaining_amount * o.b >= (o.b - o.filled_amount) * o.a,
            o.b * x <= requested * o.a,
    ;
}

/// Bid-side takes preserve the bid-side balance.
pub proof fn lemma_take_preserves_bid_balanced(o: OrderModel, requested: int)
    requires
        o.wf(),
        bid_balanced(o),
        take_arith_ok(o, requested, FillDirection::BidSide),
    ensures
        bid_balanced(take_next(o, requested, FillDirection::BidSide)),
{
    let c = counterparty_amount(o, FillDirection::BidSide, requested);
    lemma_fundamental_div_mod(requested * o.b, o.a);
    lemma_mod_bound(requested * o.b, o.a);
    assert((o.remaining_amount - requested) * o.b <= (o.b - (o.filled_amount + c)) * o.a + o.a
        - 1) by (nonlinear_arith)
        requires
            o.remaining_amount * o.b <= (o.b - o.filled_amount) * o.a + o.a - 1,
            o.a * c <= requested * o.b,
    ;
}

/// One acceptable take keeps the record well-formed, and both its legs are
/// nonnegative.
pub proof fn lemma_take_step_wf(o: OrderModel, requested: int, dir: FillDirection)
    requires
        o.wf(),
        take_arith_ok(o, requested, dir),
    ensures
        take_next(o, requested, dir).wf(),
        bid_leg(o, dir, requested) >= 0,
        ask_leg(o, dir, requested) >= 0,
{
    lemma_counterparty_fits(o, dir, requested);
}

/// Is every take of the sequence arithmetically acceptable, each against
/// the record the previous ones produce?
pub open spec fn takes_ok(o: OrderModel, dir: FillDirection, reqs: Seq<int>) -> bool
    decreases reqs.len(),
{
    reqs.len() == 0 || (take_arith_ok(o, reqs[0], dir) && takes_ok(
        take_next(o, reqs[0], dir),
        dir,
        reqs.skip(1),
    ))
}

/// The record after the whole sequence of takes.
pub open spec fn apply_takes(o: OrderModel, dir: FillDirection, reqs: Seq<int>) -> OrderModel
    decreases reqs.len(),
{
    if reqs.len() == 0 {
        o
    } else {
        apply_takes(take_next(o, reqs[0], dir), dir, reqs.skip(1))
    }
}

/// Total of the bid-side legs the sequence consumes out of escrow.
pub open spec fn total_bid_consumed(o: OrderModel, dir: FillDirection, reqs: Seq<int>) -> int
    decreases reqs.len(),
{
    if reqs.len() == 0 {
        0
    } else {
        bid_leg(o, dir, reqs[0]) + total_bid_consumed(take_next(o, reqs[0], dir), dir, reqs.skip(1))
    }
}

/// Total of the ask-side legs the sequence pays toward the maker.
pub open spec fn total_ask_received(o: OrderModel, dir: FillDirection, reqs: Seq<int>) -> int
    decreases reqs.len(),
{
    if reqs.len() == 0 {
        0
    } else {
        ask_leg(o, dir, reqs[0]) + total_ask_received(take_next(o, reqs[0], dir), dir, reqs.skip(1))
    }
}

/// Conservation law: across any sequence of acceptable takes, what left
/// the remaining amount is exactly the sum of the bid legs, what joined
/// the filled amount is exactly the sum of the ask legs, neither sum
/// exceeds what the record had to give, and the committed totals and the
/// state never move.
pub proof fn lemma_take_conservation(o: OrderModel, dir: FillDirection, reqs: Seq<int>)
    requires
        o.wf(),
        takes_ok(o, dir, reqs),
    ensures
        ({
            let o2 = apply_takes(o, dir, reqs);
            &&& o2.wf()
            &&& o2.a == o.a
            &&& o2.b == o.b
            &&& o2.state == o.state
            &&& o.remaining_amount - o2.remaining_amount == total_bid_consumed(o, dir, reqs)
            &&& o2.filled_amount - o.filled_amount == total_ask_received(o, dir, reqs)
            &&& 0 <= total_bid_consumed(o, dir, reqs) <= o.remaining_amount
            &&& 0 <= total_ask_received(o, dir, reqs) <= o.b - o.filled_amount
        }),
    decreases reqs.len(),
{
    if reqs.len() > 0 {
        lemma_take_step_wf(o, reqs[0], dir);
        lemma_take_conservation(take_next(o, reqs[0], dir), dir, reqs.skip(1));
    }
}

/// Pause law: pausing blocks any take with the paused-state error (and so,
/// by the take contract, leaves the amounts unchanged), resuming restores
/// the order exactly as it was, and a take after the resume is decided
/// exactly as it would have been before the pause.
pub proof fn lemma_pause_take_resume(
    o: OrderModel,
    requested: int,
    dir: FillDirection,
    siblings: Seq<Seq<u8>>,
    taker: Seq<u8>,
    now: Option<i64>,
)
    requires
        o.state == OrderState::Initialized,
    ensures
        take_err(pause_next(o), requested, dir, siblings, taker, now)
            == Some(ErrorCode::PausedOrder),
        resume_next(pause_next(o)) == o,
        take_err(resume_next(pause_next(o)), requested, dir, siblings, taker, now)
            == take_err(o, requested, dir, siblings, taker, now),
{
    assert(resume_next(pause_next(o)) =~= o);
}

/// Stop law: a stop zeroes the remaining amount; a stop before the end
/// date moves the end date to the stop time, one at or after it leaves the
/// end date alone; and nothing else of the record moves. The refund the
/// operation reports is the pre-stop remaining amount by its contract.
pub proof fn lemma_stop(o: OrderModel, now: int)
    ensures
        stop_next(o, now).remaining_amount == 0,
        o.end_date > now ==> stop_next(o, now).end_date == now,
        o.end_date <= now ==> stop_next(o, now).end_date == o.end_date,
        stop_next(o, now).end_date <= o.end_date,
        stop_next(o, now).filled_amount == o.filled_amount,
        stop_next(o, now).a == o.a,
        stop_next(o, now).b == o.b,
        stop_next(o, now).state == o.state,
{
}

} // verus!
