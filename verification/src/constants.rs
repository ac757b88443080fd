use vstd::prelude::*;

verus! {

/// Base denominator of the fixed-point fee rates: a rate `r` charges
/// `r / DECIMALS` of the leg it applies to.
pub const DECIMALS: u64 = 1_000_000_000;

/// Byte length of identities and of Merkle hashes.
pub const HASH_SIZE: usize = 32;

} // verus!
