//! The error taxonomy: every rejected operation names the violated
//! precondition, and a rejected operation never mutates any entity.

use vstd::prelude::*;

verus! {

/// Why an operation on a market was rejected.
#[derive(Clone, Copy, Debug, PartialEq, Eq, Structural)]
pub enum MarketError {
    /// Question exceeds the maximum length.
    QuestionTooLong,
    /// End time must lie strictly in the future at creation.
    InvalidEndTime,
    /// Fee basis points outside the allowed range.
    InvalidFeeBps,
    /// Batch interval outside the allowed range.
    InvalidBatchInterval,
    /// Resolver quorum outside the allowed range.
    InvalidQuorum,
    /// The market's end time has passed.
    MarketEnded,
    /// The market's end time has not passed yet.
    MarketNotEnded,
    /// The market is already past the state the operation requires.
    MarketAlreadyResolved,
    /// The market has not been resolved yet.
    MarketNotResolved,
    /// A zero amount was supplied where a positive one is required.
    InsufficientCollateral,
    /// No resolver slot is left, or more attestations than resolvers.
    InsufficientResolvers,
    /// The stake is below the required minimum.
    InsufficientStake,
    /// This identity already staked as a resolver for this market.
    ResolverAlreadyStaked,
    /// This resolver already submitted its attestation.
    AlreadyAttested,
    /// Empty or malformed attestation or resolution payload.
    InvalidAttestation,
    /// The current batch window has not closed yet.
    BatchWindowOpen,
    /// A state commitment was the zero sentinel.
    InvalidStateCommitment,
    /// Checked arithmetic overflowed; the operation is rejected unapplied.
    Overflow,
    /// A final outcome was neither NO nor YES.
    InvalidOutcome,
    /// Redeemed tokens are not on the winning side.
    OutcomeMismatch,
    /// Caller or record does not match the expected owner.
    Unauthorized,
    /// A computation result does not fit the current reserve state.
    InvalidCfmmState,
    /// The post-trade price exceeds the caller's maximum acceptable price.
    SlippageExceeded,
    /// The confidential computation reported failure.
    ComputationFailed,
    /// The confidential computation was aborted.
    ComputationAborted,
    /// A computation of this kind is already outstanding, or the handle is
    /// already in use.
    ComputationOutstanding,
    /// No pending computation matches this handle.
    UnknownComputation,
    /// The operation is not legal in the market's current lifecycle state.
    InvalidResolutionState,
}

} // verus!
