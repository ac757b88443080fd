//! Verified core of an over-the-counter bilateral token-swap order.
//!
//! A maker escrows a quantity of one asset and publishes terms under which
//! eligible takers may exchange the other asset for a proportional share,
//! with protocol fees deducted on both legs. This crate holds the order's
//! data invariants and the algorithms that mutate it: the lifecycle state
//! machine, the pro-rata fill arithmetic, the fee model, and the
//! Merkle-proof allow-list gate. Custody of funds, account plumbing and
//! signature checks are the host environment's concern; the library works
//! on plain values and tells its caller which transfers to request.

pub mod constants;
pub mod errors;
pub mod fill;
pub mod laws;
pub mod make_order;
pub mod math;
pub mod order;
pub mod pause;
pub mod resume;
pub mod stop;
pub mod take_order;
pub mod whitelist;

use vstd::prelude::*;

use crate::constants::HASH_SIZE;
use crate::errors::ErrorCode;
use crate::fill::{fill_outcome, FillDirection, FillOutcome};
use crate::order::Order;

verus! {

/// The call surface for the maker's create operation; see
/// [`make_order::exec`].
pub fn make_order(
    authority: Vec<u8>,
    a_token: Vec<u8>,
    b_token: Vec<u8>,
    a: u64,
    b: u64,
    maker_fee: u32,
    taker_fee: u32,
    taxman: Vec<u8>,
    start_date: i64,
    end_date: i64,
    whitelist: Vec<u8>,
    now: Option<i64>,
) -> (r: Result<Order, ErrorCode>)
    requires
        whitelist@.len() == HASH_SIZE,
    ensures
        match make_order::make_err(a as int, b as int, a_token@, b_token@, start_date as int, end_date as int, now) {
            Some(e) => r == Err::<Order, ErrorCode>(e),
            None => (r matches Ok(o)
                && o@ == make_order::make_model(
                    authority@,
                    a_token@,
                    b_token@,
                    a as int,
                    b as int,
                    maker_fee as int,
                    taker_fee as int,
                    taxman@,
                    start_date as int,
                    end_date as int,
                    whitelist@,
                )
                && o@.wf()),
        },
{
    make_order::exec(
        authority, a_token, b_token, a, b, maker_fee, taker_fee, taxman, start_date, end_date,
        whitelist, now,
    )
}

/// The call surface for a counterparty's take operation; see
/// [`take_order::exec`].
pub fn take_order(
    order: &mut Order,
    taker: &Vec<u8>,
    requested: u64,
    dir: FillDirection,
    merkle_proof: Vec<Vec<u8>>,
    now: Option<i64>,
) -> (r: Result<FillOutcome, ErrorCode>)
    requires
        old(order)@.wf(),
    ensures
        final(order)@.wf(),
        match take_order::take_err(old(order)@, requested as int, dir, merkle_proof.deep_view(), taker@, now) {
            Some(e) => r == Err::<FillOutcome, ErrorCode>(e) && *final(order) == *old(order),
            None => r == Ok::<FillOutcome, ErrorCode>(fill_outcome(old(order)@, requested as int, dir))
                && final(order)@ == take_order::take_next(old(order)@, requested as int, dir),
        },
{
    take_order::exec(order, taker, requested, dir, merkle_proof, now)
}

/// The call surface for the authority's pause operation; see
/// [`pause::exec`].
pub fn pause(order: &mut Order, caller: &Vec<u8>) -> (r: Result<(), ErrorCode>)
    ensures
        caller@ != old(order)@.authority ==> (r == Err::<(), ErrorCode>(ErrorCode::InvalidAuthority)
            && *final(order) == *old(order)),
        caller@ == old(order)@.authority ==> (r == Ok::<(), ErrorCode>(())
            && final(order)@ == pause::pause_next(old(order)@)),
        old(order)@.wf() ==> final(order)@.wf(),
{
    pause::exec(order, caller)
}

/// The call surface for the authority's resume operation; see
/// [`resume::exec`].
pub fn resume(order: &mut Order, caller: &Vec<u8>) -> (r: Result<(), ErrorCode>)
    ensures
        caller@ != old(order)@.authority ==> (r == Err::<(), ErrorCode>(ErrorCode::InvalidAuthority)
            && *final(order) == *old(order)),
        caller@ == old(order)@.authority ==> (r == Ok::<(), ErrorCode>(())
            && final(order)@ == resume::resume_next(old(order)@)),
        old(order)@.wf() ==> final(order)@.wf(),
{
    resume::exec(order, caller)
}

/// The call surface for the authority's stop operation; see [`stop::exec`].
pub fn stop(order: &mut Order, caller: &Vec<u8>, now: Option<i64>) -> (r: Result<u64, ErrorCode>)
    ensures
        match stop::stop_err(old(order)@, caller@, now) {
            Some(e) => r == Err::<u64, ErrorCode>(e) && *final(order) == *old(order),
            None => r == Ok::<u64, ErrorCode>(old(order).remaining_amount)
                && final(order)@ == stop::stop_next(old(order)@, now->0 as int),
        },
        old(order)@.wf() ==> final(order)@.wf(),
{
    stop::exec(order, caller, now)
}

} // verus!
