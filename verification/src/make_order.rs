//! Creation of an order: validation of the terms and the initial record.
//!
//! The caller escrows the full bid amount with the transfer collaborator;
//! this module only validates and builds the record, so nothing is
//! persisted when a precondition fails.

use vstd::prelude::*;

use crate::constants::HASH_SIZE;
use crate::errors::ErrorCode;
use crate::order::{Order, OrderModel, OrderState};
use crate::whitelist::bytes_eq;

verus! {

/// Exactly when and why creation is refused: non-positive escrow amounts,
/// identical asset kinds, or an end date that does not lie strictly after
/// both the start date and the current time.
pub open spec fn make_err(
    a: int,
    b: int,
    a_token: Seq<u8>,
    b_token: Seq<u8>,
    start_date: int,
    end_date: int,
    now: Option<i64>,
) -> Option<ErrorCode> {
    if a <= 0 || b <= 0 {
        Some(ErrorCode::InvalidAmount)
    } else if a_token == b_token {
        Some(ErrorCode::InvalidToken)
    } else if end_date <= start_date {
        Some(ErrorCode::InvalidEndDate)
    } else if now is None {
        Some(ErrorCode::InvalidCurrentDate)
    } else if end_date <= now->0 {
        Some(ErrorCode::InvalidEndDate)
    } else {
        None
    }
}

/// The record a successful creation writes: the terms verbatim, the full
/// bid amount still remaining, nothing filled, and the order live.
pub open spec fn make_model(
    authority: Seq<u8>,
    a_token: Seq<u8>,
    b_token: Seq<u8>,
    a: int,
    b: int,
    maker_fee: int,
    taker_fee: int,
    taxman: Seq<u8>,
    start_date: int,
    end_date: int,
    whitelist: Seq<u8>,
) -> OrderModel {
    (OrderModel {
        authority,
        a_token,
        b_token,
        a,
        b,
        remaining_amount: a,
        filled_amount: 0,
        maker_fee,
        taker_fee,
        taxman,
        start_date,
        end_date,
        whitelist,
        state: OrderState::Initialized,
    })
}

/// Validate the terms and build the initial record. The host escrows the
/// full bid amount only when this returns an order.
pub fn exec(
    authority: Vec<u8>,
    a_token: Vec<u8>,
    b_token: Vec<u8>,
    a: u64,
    b: u64,
    maker_fee: u32,
    taker_fee: u32,
    taxman: Vec<u8>,
    start_date: i64,
    end_date: i64,
    whitelist: Vec<u8>,
    now: Option<i64>,
) -> (r: Result<Order, ErrorCode>)
    requires
        whitelist@.len() == HASH_SIZE,
    ensures
        match make_err(a as int, b as int, a_token@, b_token@, start_date as int, end_date as int, now) {
            Some(e) => r == Err::<Order, ErrorCode>(e),
            None => (r matches Ok(o)
                && o@ == make_model(
                    authority@,
                    a_token@,
                    b_token@,
                    a as int,
                    b as int,
                    maker_fee as int,
                    taker_fee as int,
                    taxman@,
                    start_date as int,
                    end_date as int,
                    whitelist@,
                )
                && o@.wf()),
        },
{
    if a == 0 || b == 0 {
        return Err(ErrorCode::InvalidAmount);
    }
    if bytes_eq(&a_token, &b_token) {
        return Err(ErrorCode::InvalidToken);
    }
    if end_date <= start_date {
        return Err(ErrorCode::InvalidEndDate);
    }
    let t = match now {
        Some(t) => t,
        None => return Err(ErrorCode::InvalidCurrentDate),
    };
    if end_date <= t {
        return Err(ErrorCode::InvalidEndDate);
    }
    Ok(Order {
        authority,
        a_token,
        b_token,
        a,
        b,
        remaining_amount: a,
        filled_amount: 0,
        maker_fee,
        taker_fee,
        taxman,
        start_date,
        end_date,
        whitelist,
        state: OrderState::Initialized,
    })
}

} // verus!
