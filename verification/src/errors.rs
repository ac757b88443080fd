use vstd::prelude::*;

verus! {

/// Every failure an order operation can report. Each error is terminal for
/// the operation that raised it and leaves the order record unchanged.
#[derive(Clone, Copy, Debug, PartialEq, Eq, Structural)]
pub enum ErrorCode {
    /// An intermediate or final value would not fit its representable range.
    Overflow,
    /// The program address for the escrow could not be derived (host concern).
    NoBump,
    /// A non-positive amount, or one beyond the remaining capacity.
    InvalidAmount,
    /// The two exchanged assets must differ.
    InvalidToken,
    /// The current time is before the order's start date.
    NotStartedOrder,
    /// The proposal is still running (reserved by the host's call surface).
    NotEndedProposal,
    /// The current time is at or past the order's end date.
    EndedOrder,
    /// A take was attempted while the order is not in the initialized state.
    PausedOrder,
    /// The current time could not be obtained.
    InvalidCurrentDate,
    /// The start date is malformed.
    InvalidStartDate,
    /// The end date does not exceed both the start date and the current time.
    InvalidEndDate,
    /// The Merkle proof does not resolve to the stored allow-list root.
    NotInWhitelist,
    /// The caller is not the order's authority.
    InvalidAuthority,
}

} // verus!
