//! Domain events: immutable, append-only facts the host emits when an
//! operation changes a market.  Each carries the market identifier and the
//! deltas or timestamps a consumer needs; the builders pin every field to
//! the market state they describe.

use vstd::prelude::*;

use crate::state::Market;
use crate::state::Outcome;

verus! {

/// A private trade was queued to the confidential compute collaborator.
#[derive(Clone, Copy, Debug, PartialEq, Eq, Structural)]
pub struct PrivateTradeQueued {
    pub market: u64,
    pub user: u64,
    pub timestamp: i64,
}

/// A private trade's result was applied to the market, moving its
/// cumulative volume by the signed delta.
#[derive(Clone, Copy, Debug, PartialEq, Eq, Structural)]
pub struct PrivateTradeExecuted {
    pub market: u64,
    pub volume_delta: i64,
    pub timestamp: i64,
}

/// A batch was cleared at one uniform price.
#[derive(Clone, Copy, Debug, PartialEq, Eq, Structural)]
pub struct BatchCleared {
    pub market: u64,
    pub uniform_price: u64,
    pub timestamp: i64,
}

/// The market's outcome was finalized.  The outcome travels as one byte:
/// 0 = NO, 1 = YES, 255 = unresolved.
#[derive(Clone, Copy, Debug, PartialEq, Eq, Structural)]
pub struct MarketResolved {
    pub market: u64,
    pub outcome: u8,
    pub timestamp: i64,
}

/// A resolver's attestation was recorded, with the count and quorum that
/// gate the transition to resolution.
#[derive(Clone, Copy, Debug, PartialEq, Eq, Structural)]
pub struct AttestationSubmitted {
    pub market: u64,
    pub resolver: u64,
    pub timestamp: i64,
    pub count: u8,
    pub quorum: u8,
}

/// The byte form of an outcome: 0 = NO, 1 = YES, 255 = unresolved.
pub open spec fn spec_outcome_byte(outcome: Outcome) -> u8 {
    match outcome {
        Outcome::Unresolved => 255,
        Outcome::No => 0,
        Outcome::Yes => 1,
    }
}

impl Market {
    /// The event for a just-queued private trade.
    pub fn trade_queued_event(&self, user: u64, timestamp: i64) -> (e: PrivateTradeQueued)
        ensures
            e == (PrivateTradeQueued { market: self.id, user, timestamp }),
    {
        PrivateTradeQueued { market: self.id, user, timestamp }
    }

    /// The event for an applied private trade result, carrying the signed
    /// volume delta the application caused.
    pub fn trade_executed_event(&self, volume_delta: i64, timestamp: i64) -> (e:
        PrivateTradeExecuted)
        ensures
            e == (PrivateTradeExecuted { market: self.id, volume_delta, timestamp }),
    {
        PrivateTradeExecuted { market: self.id, volume_delta, timestamp }
    }

    /// The event for a cleared batch.
    pub fn batch_cleared_event(&self, uniform_price: u64, timestamp: i64) -> (e: BatchCleared)
        ensures
            e == (BatchCleared { market: self.id, uniform_price, timestamp }),
    {
        BatchCleared { market: self.id, uniform_price, timestamp }
    }

    /// The event for a finalized outcome, carrying the byte form of the
    /// market's final outcome.
    pub fn market_resolved_event(&self, timestamp: i64) -> (e: MarketResolved)
        ensures
            e == (MarketResolved {
                market: self.id,
                outcome: spec_outcome_byte(self.final_outcome),
                timestamp,
            }),
    {
        let outcome: u8 = match self.final_outcome {
            Outcome::Unresolved => 255,
            Outcome::No => 0,
            Outcome::Yes => 1,
        };
        MarketResolved { market: self.id, outcome, timestamp }
    }

    /// The event for a recorded attestation, carrying the market's current
    /// attestation count against its quorum.
    pub fn attestation_event(&self, resolver: u64, timestamp: i64) -> (e: AttestationSubmitted)
        ensures
            e == (AttestationSubmitted {
                market: self.id,
                resolver,
                timestamp,
                count: self.attestation_count,
                quorum: self.resolver_quorum,
            }),
    {
        AttestationSubmitted {
            market: self.id,
            resolver,
            timestamp,
            count: self.attestation_count,
            quorum: self.resolver_quorum,
        }
    }
}

} // verus!
