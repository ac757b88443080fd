//! The order record, its mathematical model and its invariants.

use vstd::prelude::*;

use crate::constants::{DECIMALS, HASH_SIZE};
use crate::errors::ErrorCode;
use crate::math::{scale, scale_exact};
use crate::whitelist::{eligible, keccak_of, merkle_fold};
use crate::whitelist::{all_zero, bytes_eq, hash_pair, leaf_hash, lemma_fold_snoc};

verus! {

/// Lifecycle state of an order. Terminal completion is not a state of its
/// own: an order is ended once `remaining_amount` is zero or its validity
/// window has passed.
#[derive(Clone, Copy, Debug, PartialEq, Eq, Structural)]
pub enum OrderState {
    Uninitialized,
    Initialized,
    Paused,
}

impl Default for OrderState {
    /// A record not yet written by a create is uninitialized.
    fn default() -> (r: Self)
        ensures
            r == OrderState::Uninitialized,
    {
        OrderState::Uninitialized
    }
}

/// A single swap agreement: the maker escrows `a` of the bid asset and asks
/// `b` of the ask asset in return, pro rata.
///
/// Identities (the maker, the two asset kinds, the fee collector, the
/// allow-list root) are opaque byte strings to this library; the host
/// environment gives them meaning.
#[derive(Debug)]
pub struct Order {
    /// The maker; only it may pause, resume or stop the order.
    pub authority: Vec<u8>,
    /// Asset kind the maker escrowed.
    pub a_token: Vec<u8>,
    /// Asset kind the maker wants in return.
    pub b_token: Vec<u8>,
    /// Total bid-asset quantity escrowed at creation; immutable afterwards.
    pub a: u64,
    /// Total ask-asset quantity wanted at full fill; immutable afterwards.
    pub b: u64,
    /// Unfilled portion of `a`; only ever decreases.
    pub remaining_amount: u64,
    /// Cumulative ask-asset amount received; only ever increases.
    pub filled_amount: u64,
    /// Maker fee rate, numerator over `DECIMALS`.
    pub maker_fee: u32,
    /// Taker fee rate, numerator over `DECIMALS`.
    pub taker_fee: u32,
    /// Destination of collected fees.
    pub taxman: Vec<u8>,
    /// First instant (inclusive) at which the order may be taken.
    pub start_date: i64,
    /// First instant at which the order may no longer be taken.
    pub end_date: i64,
    /// Merkle root of the allow-list; all zeroes means anyone may take.
    pub whitelist: Vec<u8>,
    pub state: OrderState,
}

/// The order as mathematics: unbounded integers and byte sequences.
/// Every contract in this crate speaks of this model.
#[verifier::ext_equal]
pub ghost struct OrderModel {
    pub authority: Seq<u8>,
    pub a_token: Seq<u8>,
    pub b_token: Seq<u8>,
    pub a: int,
    pub b: int,
    pub remaining_amount: int,
    pub filled_amount: int,
    pub maker_fee: int,
    pub taker_fee: int,
    pub taxman: Seq<u8>,
    pub start_date: int,
    pub end_date: int,
    pub whitelist: Seq<u8>,
    pub state: OrderState,
}

impl View for Order {
    type V = OrderModel;

    open spec fn view(&self) -> OrderModel {
        OrderModel {
            authority: self.authority@,
            a_token: self.a_token@,
            b_token: self.b_token@,
            a: self.a as int,
            b: self.b as int,
            remaining_amount: self.remaining_amount as int,
            filled_amount: self.filled_amount as int,
            maker_fee: self.maker_fee as int,
            taker_fee: self.taker_fee as int,
            taxman: self.taxman@,
            start_date: self.start_date as int,
            end_date: self.end_date as int,
            whitelist: self.whitelist@,
            state: self.state,
        }
    }
}

impl OrderModel {
    /// Well-formedness: what creation establishes and every operation keeps.
    pub open spec fn wf(self) -> bool {
        &&& 0 < self.a <= u64::MAX
        &&& 0 < self.b <= u64::MAX
        &&& 0 <= self.remaining_amount <= self.a
        &&& 0 <= self.filled_amount <= self.b
        &&& 0 <= self.maker_fee <= u32::MAX
        &&& 0 <= self.taker_fee <= u32::MAX
        &&& i64::MIN <= self.start_date <= i64::MAX
        &&& i64::MIN <= self.end_date <= i64::MAX
        &&& self.whitelist.len() == HASH_SIZE
        &&& self.a_token != self.b_token
    }
}

impl Order {
    /// An order accepts takes only in the initialized state.
    pub fn is_active(&self) -> (r: bool)
        ensures
            r == (self@.state == OrderState::Initialized),
    {
        self.state == OrderState::Initialized
    }

    /// Does `proof` place `taker` under the stored allow-list root?
    /// An all-zero root admits everyone.
    pub fn is_whitelist(&self, proof: Vec<Vec<u8>>, taker: &Vec<u8>) -> (r: bool)
        ensures
            r == eligible(self@.whitelist, proof.deep_view(), taker@),
    {
        if all_zero(&self.whitelist) {
            return true;
        }
        let ghost siblings: Seq<Seq<u8>> = proof.deep_view();
        let mut child = leaf_hash(taker);
        let mut i: usize = 0;
        proof {
            assert(siblings.take(0) =~= Seq::<Seq<u8>>::empty());
        }
        while i < proof.len()
            invariant
                i <= proof.len(),
                siblings == proof.deep_view(),
                siblings.len() == proof.len(),
                child@ == merkle_fold(keccak_of(taker@), siblings.take(i as int)),
            decreases proof.len() - i,
        {
            proof {
                assert(siblings[i as int] =~= proof@[i as int]@);
                assert(siblings.take(i + 1) =~= siblings.take(i as int).push(siblings[i as int]));
                lemma_fold_snoc(keccak_of(taker@), siblings.take(i as int), siblings[i as int]);
            }
            child = hash_pair(&child, &proof[i]);
            i += 1;
        }
        proof {
            assert(siblings.take(proof.len() as int) =~= siblings);
        }
        bytes_eq(&child, &self.whitelist)
    }

    /// The bid-side amount released for an ask-side payment `y`:
    /// `floor(y * a / b)`.
    pub fn compute_x(&self, y: u64) -> (r: Option<u64>)
        ensures
            self@.b != 0 && scale_exact(y as int, self@.a, self@.b) <= u64::MAX ==>
                (r matches Some(v) && v == scale_exact(y as int, self@.a, self@.b)),
            self@.b == 0 || scale_exact(y as int, self@.a, self@.b) > u64::MAX ==>
                r is None,
    {
        match scale(y, self.a, self.b) {
            Ok(v) => Some(v),
            Err(_) => None,
        }
    }

    /// The maker fee charged on an ask-side payment `y`:
    /// `floor(y * maker_fee / DECIMALS)`.
    pub fn compute_maker_fee(&self, y: u64) -> (r: Option<u64>)
        ensures
            scale_exact(y as int, self@.maker_fee, DECIMALS as int) <= u64::MAX ==>
                (r matches Some(v) && v == scale_exact(y as int, self@.maker_fee, DECIMALS as int)),
            scale_exact(y as int, self@.maker_fee, DECIMALS as int) > u64::MAX ==>
                r is None,
    {
        match scale(y, self.maker_fee as u64, DECIMALS) {
            Ok(v) => Some(v),
            Err(_) => None,
        }
    }

    /// The taker fee charged on a bid-side release `x`:
    /// `floor(x * taker_fee / DECIMALS)`.
    pub fn compute_taker_fee(&self, x: u64) -> (r: Option<u64>)
        ensures
            scale_exact(x as int, self@.taker_fee, DECIMALS as int) <= u64::MAX ==>
                (r matches Some(v) && v == scale_exact(x as int, self@.taker_fee, DECIMALS as int)),
            scale_exact(x as int, self@.taker_fee, DECIMALS as int) > u64::MAX ==>
                r is None,
    {
        match scale(x, self.taker_fee as u64, DECIMALS) {
            Ok(v) => Some(v),
            Err(_) => None,
        }
    }
}

} // verus!
