use sen_otc_prog::errors::ErrorCode;
use sen_otc_prog::fill::{fill, FillDirection};
use sen_otc_prog::order::{Order, OrderState};
use sen_otc_prog::whitelist::leaf_hash;
use sen_otc_prog::{make_order, pause, resume, stop, take_order};

fn auth() -> Vec<u8> {
    vec![9u8; 32]
}

fn taker_id() -> Vec<u8> {
    vec![7u8; 32]
}

fn open_root() -> Vec<u8> {
    vec![0u8; 32]
}

fn new_order(a: u64, b: u64, maker_fee: u32, taker_fee: u32) -> Order {
    make_order(
        auth(),
        vec![1u8; 32],
        vec![2u8; 32],
        a,
        b,
        maker_fee,
        taker_fee,
        vec![3u8; 32],
        0,
        100,
        open_root(),
        Some(10),
    )
    .unwrap()
}

#[test]
fn create_initializes_the_record() {
    let o = new_order(1000, 2000, 5, 6);
    assert_eq!(o.remaining_amount, 1000);
    assert_eq!(o.filled_amount, 0);
    assert_eq!(o.a, 1000);
    assert_eq!(o.b, 2000);
    assert_eq!(o.maker_fee, 5);
    assert_eq!(o.taker_fee, 6);
    assert_eq!(o.start_date, 0);
    assert_eq!(o.end_date, 100);
    assert_eq!(o.state, OrderState::Initialized);
    assert_eq!(o.authority, auth());
}

#[test]
fn create_rejects_zero_amounts() {
    let r = make_order(
        auth(), vec![1u8; 32], vec![2u8; 32], 0, 2000, 0, 0, vec![3u8; 32], 0, 100, open_root(),
        Some(10),
    );
    assert_eq!(r.err(), Some(ErrorCode::InvalidAmount));
    let r = make_order(
        auth(), vec![1u8; 32], vec![2u8; 32], 1000, 0, 0, 0, vec![3u8; 32], 0, 100, open_root(),
        Some(10),
    );
    assert_eq!(r.err(), Some(ErrorCode::InvalidAmount));
}

#[test]
fn create_rejects_identical_tokens() {
    let r = make_order(
        auth(), vec![1u8; 32], vec![1u8; 32], 1000, 2000, 0, 0, vec![3u8; 32], 0, 100,
        open_root(), Some(10),
    );
    assert_eq!(r.err(), Some(ErrorCode::InvalidToken));
}

#[test]
fn create_rejects_bad_end_date() {
    // end date not after the start date
    let r = make_order(
        auth(), vec![1u8; 32], vec![2u8; 32], 1000, 2000, 0, 0, vec![3u8; 32], 100, 100,
        open_root(), Some(10),
    );
    assert_eq!(r.err(), Some(ErrorCode::InvalidEndDate));
    // end date not after the current time
    let r = make_order(
        auth(), vec![1u8; 32], vec![2u8; 32], 1000, 2000, 0, 0, vec![3u8; 32], 0, 100,
        open_root(), Some(100),
    );
    assert_eq!(r.err(), Some(ErrorCode::InvalidEndDate));
}

#[test]
fn create_requires_a_clock() {
    let r = make_order(
        auth(), vec![1u8; 32], vec![2u8; 32], 1000, 2000, 0, 0, vec![3u8; 32], 0, 100,
        open_root(), None,
    );
    assert_eq!(r.err(), Some(ErrorCode::InvalidCurrentDate));
}

#[test]
fn take_bid_side_scenario() {
    // bid 1000, ask 2000, no fees: naming 500 of the bid side owes 1000 of
    // the ask side and leaves half the order.
    let mut o = new_order(1000, 2000, 0, 0);
    let out = take_order(&mut o, &taker_id(), 500, FillDirection::BidSide, vec![], Some(50))
        .unwrap();
    assert_eq!(out.counterparty_amount, 1000);
    assert_eq!(out.maker_fee, 0);
    assert_eq!(out.taker_fee, 0);
    assert_eq!(out.net_amount_in, 1000);
    assert_eq!(out.net_amount_out, 500);
    assert_eq!(o.remaining_amount, 500);
    assert_eq!(o.filled_amount, 1000);
}

#[test]
fn take_ask_side_scenario() {
    let mut o = new_order(1000, 2000, 0, 0);
    let out = take_order(&mut o, &taker_id(), 500, FillDirection::AskSide, vec![], Some(50))
        .unwrap();
    assert_eq!(out.counterparty_amount, 250);
    assert_eq!(out.net_amount_in, 500);
    assert_eq!(out.net_amount_out, 250);
    assert_eq!(o.remaining_amount, 750);
    assert_eq!(o.filled_amount, 500);
}

#[test]
fn take_charges_exact_fees() {
    // maker fee 1%, taker fee 2% of their legs
    let mut o = new_order(1000, 2000, 10_000_000, 20_000_000);
    let out = take_order(&mut o, &taker_id(), 500, FillDirection::AskSide, vec![], Some(50))
        .unwrap();
    assert_eq!(out.counterparty_amount, 250);
    assert_eq!(out.maker_fee, 5); // 1% of the 500 paid in
    assert_eq!(out.taker_fee, 5); // 2% of the 250 released
    assert_eq!(out.net_amount_in, 495);
    assert_eq!(out.net_amount_out, 245);
    // the record moves by the gross legs
    assert_eq!(o.remaining_amount, 750);
    assert_eq!(o.filled_amount, 500);
}

#[test]
fn take_exact_capacity_drains_it() {
    let mut o = new_order(1000, 2000, 0, 0);
    let out = take_order(&mut o, &taker_id(), 2000, FillDirection::AskSide, vec![], Some(50))
        .unwrap();
    assert_eq!(out.counterparty_amount, 1000);
    assert_eq!(o.remaining_amount, 0);
    assert_eq!(o.filled_amount, 2000);
}

#[test]
fn take_one_unit_over_capacity_fails() {
    let mut o = new_order(1000, 2000, 0, 0);
    let r = take_order(&mut o, &taker_id(), 2001, FillDirection::AskSide, vec![], Some(50));
    assert_eq!(r.err(), Some(ErrorCode::InvalidAmount));
    let r = take_order(&mut o, &taker_id(), 1001, FillDirection::BidSide, vec![], Some(50));
    assert_eq!(r.err(), Some(ErrorCode::InvalidAmount));
    let r = take_order(&mut o, &taker_id(), 0, FillDirection::AskSide, vec![], Some(50));
    assert_eq!(r.err(), Some(ErrorCode::InvalidAmount));
    assert_eq!(o.remaining_amount, 1000);
    assert_eq!(o.filled_amount, 0);
}

#[test]
fn take_respects_the_window() {
    let mut o = new_order(1000, 2000, 0, 0);
    o.start_date = 10;
    let r = take_order(&mut o, &taker_id(), 500, FillDirection::AskSide, vec![], Some(5));
    assert_eq!(r.err(), Some(ErrorCode::NotStartedOrder));
    let r = take_order(&mut o, &taker_id(), 500, FillDirection::AskSide, vec![], Some(100));
    assert_eq!(r.err(), Some(ErrorCode::EndedOrder));
    let r = take_order(&mut o, &taker_id(), 500, FillDirection::AskSide, vec![], None);
    assert_eq!(r.err(), Some(ErrorCode::InvalidCurrentDate));
    assert_eq!(o.remaining_amount, 1000);
    assert!(take_order(&mut o, &taker_id(), 500, FillDirection::AskSide, vec![], Some(10)).is_ok());
}

#[test]
fn take_requires_eligibility() {
    let allowed = taker_id();
    let mut o = new_order(1000, 2000, 0, 0);
    o.whitelist = leaf_hash(&allowed);
    let r = take_order(&mut o, &vec![8u8; 32], 500, FillDirection::AskSide, vec![], Some(50));
    assert_eq!(r.err(), Some(ErrorCode::NotInWhitelist));
    assert_eq!(o.remaining_amount, 1000);
    assert!(take_order(&mut o, &allowed, 500, FillDirection::AskSide, vec![], Some(50)).is_ok());
}

#[test]
fn fee_rate_above_base_overflows() {
    // a rate of 200% makes the fee exceed its leg
    let mut o = new_order(1000, 2000, 2_000_000_000, 0);
    let r = take_order(&mut o, &taker_id(), 500, FillDirection::AskSide, vec![], Some(50));
    assert_eq!(r.err(), Some(ErrorCode::Overflow));
    assert_eq!(o.remaining_amount, 1000);
    assert_eq!(o.filled_amount, 0);
}

#[test]
fn pause_blocks_and_resume_reopens() {
    let mut o = new_order(1000, 2000, 0, 0);
    pause(&mut o, &auth()).unwrap();
    assert_eq!(o.state, OrderState::Paused);
    let r = take_order(&mut o, &taker_id(), 500, FillDirection::AskSide, vec![], Some(50));
    assert_eq!(r.err(), Some(ErrorCode::PausedOrder));
    assert_eq!(o.remaining_amount, 1000);
    assert_eq!(o.filled_amount, 0);
    resume(&mut o, &auth()).unwrap();
    assert_eq!(o.state, OrderState::Initialized);
    let out = take_order(&mut o, &taker_id(), 500, FillDirection::AskSide, vec![], Some(50))
        .unwrap();
    assert_eq!(out.counterparty_amount, 250);
    assert_eq!(o.remaining_amount, 750);
    assert_eq!(o.filled_amount, 500);
}

#[test]
fn pause_and_resume_require_the_authority() {
    let mut o = new_order(1000, 2000, 0, 0);
    assert_eq!(pause(&mut o, &vec![8u8; 32]).err(), Some(ErrorCode::InvalidAuthority));
    assert_eq!(o.state, OrderState::Initialized);
    pause(&mut o, &auth()).unwrap();
    assert_eq!(resume(&mut o, &vec![8u8; 32]).err(), Some(ErrorCode::InvalidAuthority));
    assert_eq!(o.state, OrderState::Paused);
}

#[test]
fn stop_before_the_end_clamps_the_end_date() {
    let mut o = new_order(1000, 2000, 0, 0);
    take_order(&mut o, &taker_id(), 500, FillDirection::AskSide, vec![], Some(20)).unwrap();
    let refund = stop(&mut o, &auth(), Some(50)).unwrap();
    assert_eq!(refund, 750);
    assert_eq!(o.remaining_amount, 0);
    assert_eq!(o.end_date, 50);
    assert_eq!(o.filled_amount, 500);
}

#[test]
fn stop_after_the_end_keeps_the_end_date() {
    let mut o = new_order(1000, 2000, 0, 0);
    let refund = stop(&mut o, &auth(), Some(150)).unwrap();
    assert_eq!(refund, 1000);
    assert_eq!(o.remaining_amount, 0);
    assert_eq!(o.end_date, 100);
}

#[test]
fn stop_requires_authority_and_clock() {
    let mut o = new_order(1000, 2000, 0, 0);
    assert_eq!(stop(&mut o, &vec![8u8; 32], Some(50)).err(), Some(ErrorCode::InvalidAuthority));
    assert_eq!(stop(&mut o, &auth(), None).err(), Some(ErrorCode::InvalidCurrentDate));
    assert_eq!(o.remaining_amount, 1000);
    assert_eq!(o.end_date, 100);
}

#[test]
fn fill_engine_computes_without_mutating() {
    let o = new_order(1000, 2000, 10_000_000, 20_000_000);
    let out = fill(&o, 500, FillDirection::AskSide).unwrap();
    assert_eq!(out.counterparty_amount, 250);
    assert_eq!(out.maker_fee, 5);
    assert_eq!(out.taker_fee, 5);
    assert_eq!(out.net_amount_in, 495);
    assert_eq!(out.net_amount_out, 245);
    assert_eq!(o.remaining_amount, 1000);
    assert_eq!(o.filled_amount, 0);
    assert_eq!(fill(&o, 0, FillDirection::BidSide).err(), Some(ErrorCode::InvalidAmount));
}

#[test]
fn successive_takes_conserve_the_totals() {
    let mut o = new_order(10, 3, 0, 0);
    let mut consumed: u64 = 0;
    let mut received: u64 = 0;
    for _ in 0..3 {
        let out = take_order(&mut o, &taker_id(), 1, FillDirection::AskSide, vec![], Some(50))
            .unwrap();
        consumed += out.counterparty_amount;
        received += 1;
    }
    assert_eq!(o.a - o.remaining_amount, consumed);
    assert_eq!(o.filled_amount, received);
    assert_eq!(o.filled_amount, 3);
    // rounding dust stays with the escrow: 3 * floor(10 / 3) == 9
    assert_eq!(o.remaining_amount, 1);
}
