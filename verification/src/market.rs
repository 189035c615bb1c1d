//! The market state machine: lifecycle gating for every operation, the
//! creation-time bounds, and the atomic application of computation results.
//!
//! Every state-mutating operation checks the current lifecycle state
//! against its allow-list first and rejects with a state-violation error
//! otherwise; a rejected operation leaves every entity unchanged.  The
//! quorum-crossing attestation — and only that one — moves the market to
//! `Computing` and queues the resolution computation.

use vstd::prelude::*;

use crate::batch::BatchClearResult;
use crate::cfmm::CfmmState;
use crate::constants::MAX_BATCH_INTERVAL;
use crate::constants::MAX_FEE_BPS;
use crate::constants::MAX_QUESTION_LEN;
use crate::constants::MAX_RESOLVERS;
use crate::constants::MIN_BATCH_INTERVAL;
use crate::constants::MIN_FEE_BPS;
use crate::constants::MIN_QUORUM;
use crate::constants::MIN_RESOLVER_STAKE;
use crate::constants::PRICE_SCALE;
use crate::errors::MarketError;
use crate::gateway::ComputationGateway;
use crate::gateway::ComputationKind;
use crate::gateway::ComputationOutcome;
use crate::gateway::PendingComputation;
use crate::gateway::gw_handle_ok;
use crate::gateway::gw_has_kind;
use crate::gateway::gw_has_offset;
use crate::resolution::ResolutionResult;
use crate::state::Commitment;
use crate::state::Market;
use crate::state::Outcome;
use crate::state::ResolutionState;
use crate::state::Resolver;
use crate::state::ResolverStore;
use crate::state::Side;
use crate::state::attested_count;
use crate::state::has_resolver;
use crate::state::lemma_attested_le_staked;
use crate::state::lemma_counts_after_attest;
use crate::state::lemma_counts_after_push;
use crate::state::resolvers_wf;
use crate::state::staked_count;
use crate::state::lemma_resolver_idx_unique;
use crate::state::resolver_idx;

verus! {

/// The first creation bound the arguments violate, if any: question length,
/// time ordering, fee, interval and quorum ranges, and the schedule of the
/// first batch window fitting in a timestamp.
pub open spec fn create_market_check(
    question_len: int,
    end_time: i64,
    fee_bps: u16,
    batch_interval: i64,
    resolver_quorum: u8,
    now: i64,
) -> Option<MarketError> {
    if question_len > MAX_QUESTION_LEN {
        Some(MarketError::QuestionTooLong)
    } else if end_time <= now {
        Some(MarketError::InvalidEndTime)
    } else if fee_bps < MIN_FEE_BPS || fee_bps > MAX_FEE_BPS {
        Some(MarketError::InvalidFeeBps)
    } else if batch_interval < MIN_BATCH_INTERVAL || batch_interval > MAX_BATCH_INTERVAL {
        Some(MarketError::InvalidBatchInterval)
    } else if resolver_quorum < MIN_QUORUM || resolver_quorum > MAX_RESOLVERS {
        Some(MarketError::InvalidQuorum)
    } else if now + batch_interval > i64::MAX {
        Some(MarketError::Overflow)
    } else {
        None
    }
}

/// Initializes a market in `Active` at time `now`.  Fails, creating
/// nothing, exactly on the first violated creation bound; otherwise the
/// market starts with empty reserves, zero counters, the zero-sentinel
/// commitments, an unresolved outcome, and its first batch window closing
/// one interval from `now`.
pub fn create_market(
    id: u64,
    creator: u64,
    question: Vec<u8>,
    end_time: i64,
    fee_bps: u16,
    batch_interval: i64,
    resolver_quorum: u8,
    now: i64,
) -> (r: Result<Market, MarketError>)
    ensures
        create_market_check(
            question@.len() as int,
            end_time,
            fee_bps,
            batch_interval,
            resolver_quorum,
            now,
        ) matches Some(e) ==> r == Err::<Market, MarketError>(e),
        create_market_check(
            question@.len() as int,
            end_time,
            fee_bps,
            batch_interval,
            resolver_quorum,
            now,
        ) is None ==> (r matches Ok(m) && m.wf() && m.id == id && m.creator == creator
            && m.question@ == question@ && m.end_time == end_time && m.fee_bps == fee_bps
            && m.batch_interval == batch_interval && m.next_batch_clear == now + batch_interval
            && m.resolver_quorum == resolver_quorum && m.resolver_count == 0
            && m.attestation_count == 0 && m.cfmm_state_commitment.spec_is_zero()
            && m.yes_reserves == 0 && m.no_reserves == 0 && m.total_volume == 0
            && m.batch_order_root.spec_is_zero() && m.batch_order_count == 0
            && m.resolution_state is Active && m.final_outcome is Unresolved),
{
    if question.len() > MAX_QUESTION_LEN {
        return Err(MarketError::QuestionTooLong);
    }
    if end_time <= now {
        return Err(MarketError::InvalidEndTime);
    }
    if fee_bps < MIN_FEE_BPS || fee_bps > MAX_FEE_BPS {
        return Err(MarketError::InvalidFeeBps);
    }
    if batch_interval < MIN_BATCH_INTERVAL || batch_interval > MAX_BATCH_INTERVAL {
        return Err(MarketError::InvalidBatchInterval);
    }
    if resolver_quorum < MIN_QUORUM || resolver_quorum > MAX_RESOLVERS {
        return Err(MarketError::InvalidQuorum);
    }
    let next_batch_clear = match now.checked_add(batch_interval) {
        Some(v) => v,
        None => {
            return Err(MarketError::Overflow);
        },
    };
    Ok(
        Market {
            id,
            creator,
            question,
            end_time,
            fee_bps,
            batch_interval,
            next_batch_clear,
            resolver_quorum,
            resolver_count: 0,
            attestation_count: 0,
            cfmm_state_commitment: Commitment::zero(),
            yes_reserves: 0,
            no_reserves: 0,
            total_volume: 0,
            batch_order_root: Commitment::zero(),
            batch_order_count: 0,
            resolution_state: ResolutionState::Active,
            final_outcome: Outcome::Unresolved,
        },
    )
}

impl Market {
    /// Gates a collateral deposit: the market must still be active and
    /// unexpired, and the amount positive.  The token movement itself lives
    /// with the external token ledger.
    pub fn deposit_collateral(&self, amount: u64, now: i64) -> (r: Result<(), MarketError>)
        ensures
            !(self.resolution_state is Active) ==> r == Err::<(), MarketError>(
                MarketError::MarketAlreadyResolved,
            ),
            self.resolution_state is Active && now >= self.end_time ==> r == Err::<(), MarketError>(
                MarketError::MarketEnded,
            ),
            self.is_open(now) && amount == 0 ==> r == Err::<(), MarketError>(
                MarketError::InsufficientCollateral,
            ),
            self.is_open(now) && amount > 0 ==> r == Ok::<(), MarketError>(()),
    {
        if !matches!(self.resolution_state, ResolutionState::Active) {
            return Err(MarketError::MarketAlreadyResolved);
        }
        if now >= self.end_time {
            return Err(MarketError::MarketEnded);
        }
        if amount == 0 {
            return Err(MarketError::InsufficientCollateral);
        }
        Ok(())
    }

    /// Gates minting of paired outcome tokens: only the market's creator
    /// may mint, and only a positive amount.  The mint itself lives with
    /// the external token ledger.
    pub fn mint_outcome_tokens(&self, caller: u64, amount: u64) -> (r: Result<(), MarketError>)
        ensures
            caller != self.creator ==> r == Err::<(), MarketError>(MarketError::Unauthorized),
            caller == self.creator && amount == 0 ==> r == Err::<(), MarketError>(
                MarketError::InsufficientCollateral,
            ),
            caller == self.creator && amount > 0 ==> r == Ok::<(), MarketError>(()),
    {
        if caller != self.creator {
            return Err(MarketError::Unauthorized);
        }
        if amount == 0 {
            return Err(MarketError::InsufficientCollateral);
        }
        Ok(())
    }

    /// True when `side` is the market's winning side.
    pub open spec fn winning_side(self, side: Side) -> bool {
        (side is Yes && self.final_outcome is Yes) || (side is No && self.final_outcome is No)
    }

    /// Redemption, gated on the outcome: burning `amount` winning-side
    /// tokens credits exactly `amount` collateral, one to one.  Fails with
    /// `MarketNotResolved` before resolution, with `InsufficientCollateral`
    /// on a zero amount, and with `OutcomeMismatch` for any positive amount
    /// of losing-side tokens.  The burn and the credit themselves live with
    /// the external token ledger.
    pub fn redeem_tokens(&self, side: Side, amount: u64) -> (r: Result<u64, MarketError>)
        ensures
            !(self.resolution_state is Resolved) ==> r == Err::<u64, MarketError>(
                MarketError::MarketNotResolved,
            ),
            self.resolution_state is Resolved && amount == 0 ==> r == Err::<u64, MarketError>(
                MarketError::InsufficientCollateral,
            ),
            self.resolution_state is Resolved && amount > 0 && !self.winning_side(side) ==> r
                == Err::<u64, MarketError>(MarketError::OutcomeMismatch),
            self.resolution_state is Resolved && amount > 0 && self.winning_side(side) ==> r
                == Ok::<u64, MarketError>(amount),
    {
        if !matches!(self.resolution_state, ResolutionState::Resolved) {
            return Err(MarketError::MarketNotResolved);
        }
        if amount == 0 {
            return Err(MarketError::InsufficientCollateral);
        }
        let wins = match (side, self.final_outcome) {
            (Side::Yes, Outcome::Yes) => true,
            (Side::No, Outcome::No) => true,
            _ => false,
        };
        if !wins {
            return Err(MarketError::OutcomeMismatch);
        }
        Ok(amount)
    }

    /// The first violated staking precondition, if any.
    pub open spec fn stake_check(
        self,
        store: Seq<Resolver>,
        authority: u64,
        amount: u64,
        now: i64,
    ) -> Option<MarketError> {
        if !(self.resolution_state is Active) {
            Some(MarketError::MarketAlreadyResolved)
        } else if now >= self.end_time {
            Some(MarketError::MarketEnded)
        } else if self.resolver_count >= MAX_RESOLVERS {
            Some(MarketError::InsufficientResolvers)
        } else if amount < MIN_RESOLVER_STAKE {
            Some(MarketError::InsufficientStake)
        } else if has_resolver(store, self.id, authority) {
            Some(MarketError::ResolverAlreadyStaked)
        } else {
            None
        }
    }

    /// Stakes `authority` as a resolver for this market: creates the one
    /// resolver record for the (market, authority) pair and counts it.
    /// Fails, changing nothing, exactly on the first violated precondition:
    /// the market must be active and unexpired, a resolver slot free, the
    /// stake at least the minimum, and the pair not yet staked.  The stake
    /// transfer itself lives with the external token ledger.
    pub fn stake_resolver(
        &mut self,
        store: &mut ResolverStore,
        authority: u64,
        amount: u64,
        now: i64,
    ) -> (r: Result<(), MarketError>)
        requires
            old(self).wf(),
            old(store).wf(),
        ensures
            final(self).wf(),
            final(store).wf(),
            old(self).stake_check(old(store)@, authority, amount, now) matches Some(e) ==> r
                == Err::<(), MarketError>(e) && *final(self) == *old(self) && final(store)@ == old(store)@,
            old(self).stake_check(old(store)@, authority, amount, now) is None ==> (r == Ok::<
                (),
                MarketError,
            >(()) && *final(self) == (Market {
                resolver_count: (old(self).resolver_count + 1) as u8,
                ..*old(self)
            }) && final(store)@.len() == old(store)@.len() + 1 && final(store)@.subrange(
                0,
                old(store)@.len() as int,
            ) == old(store)@ && final(store)@.last().authority == authority
                && final(store)@.last().market == old(self).id && final(store)@.last().stake_amount
                == amount && !final(store)@.last().has_attested
                && final(store)@.last().attestation_commitment.spec_is_zero()
                && final(store)@.last().staked_at == now && staked_count(
                final(store)@,
                old(self).id,
            ) == staked_count(old(store)@, old(self).id) + 1 && attested_count(
                final(store)@,
                old(self).id,
            ) == attested_count(old(store)@, old(self).id)),
    {
        if !matches!(self.resolution_state, ResolutionState::Active) {
            return Err(MarketError::MarketAlreadyResolved);
        }
        if now >= self.end_time {
            return Err(MarketError::MarketEnded);
        }
        if self.resolver_count >= MAX_RESOLVERS {
            return Err(MarketError::InsufficientResolvers);
        }
        if amount < MIN_RESOLVER_STAKE {
            return Err(MarketError::InsufficientStake);
        }
        match store.find(self.id, authority) {
            Some(_) => {
                return Err(MarketError::ResolverAlreadyStaked);
            },
            None => {},
        }
        let record = Resolver {
            authority,
            market: self.id,
            stake_amount: amount,
            has_attested: false,
            attestation_commitment: Commitment::zero(),
            staked_at: now,
        };
        let ghost old_records = store@;
        store.records.push(record);
        self.resolver_count = self.resolver_count + 1;
        proof {
            lemma_counts_after_push(old_records, self.id, record);
            assert(store@.subrange(0, old_records.len() as int) =~= old_records);
            assert forall|i: int, j: int| 0 <= i < j < store@.len() implies !(store@[i].market
                == store@[j].market && store@[i].authority == store@[j].authority) by {
                if j == store@.len() - 1 {
                    assert(store@[i] == old_records[i]);
                    assert(!has_resolver(old_records, self.id, authority));
                }
            }
        }
        Ok(())
    }

    /// The first violated precondition of queuing a private trade, if any.
    pub open spec fn trade_submit_check(self, now: i64) -> Option<MarketError> {
        if !(self.resolution_state is Active) {
            Some(MarketError::MarketAlreadyResolved)
        } else if now >= self.end_time {
            Some(MarketError::MarketEnded)
        } else {
            None
        }
    }

    /// Queues a confidential trade computation under the caller-supplied
    /// handle.  The encrypted order itself travels to the collaborator
    /// outside this engine; here the market must be active and unexpired,
    /// and no other trade computation may be outstanding for it.  On
    /// failure nothing changes.
    pub fn submit_private_trade(
        &self,
        gateway: &mut ComputationGateway,
        offset: u64,
        now: i64,
    ) -> (r: Result<(), MarketError>)
        requires
            old(gateway).wf(),
        ensures
            final(gateway).wf(),
            self.trade_submit_check(now) matches Some(e) ==> r == Err::<(), MarketError>(e)
                && final(gateway)@ == old(gateway)@,
            self.trade_submit_check(now) is None && (gw_has_offset(
                old(gateway)@,
                offset,
            ) || gw_has_kind(
                old(gateway)@,
                self.id,
                ComputationKind::Trade,
            )) ==> r == Err::<(), MarketError>(MarketError::ComputationOutstanding)
                && final(gateway)@ == old(gateway)@,
            self.trade_submit_check(now) is None && !(gw_has_offset(
                old(gateway)@,
                offset,
            ) || gw_has_kind(
                old(gateway)@,
                self.id,
                ComputationKind::Trade,
            )) ==> r == Ok::<(), MarketError>(()) && final(gateway)@ == old(gateway)@.push(
                (PendingComputation {
                    offset,
                    market_id: self.id,
                    kind: ComputationKind::Trade,
                }),
            ),
    {
        if !matches!(self.resolution_state, ResolutionState::Active) {
            return Err(MarketError::MarketAlreadyResolved);
        }
        if now >= self.end_time {
            return Err(MarketError::MarketEnded);
        }
        gateway.queue(offset, self.id, ComputationKind::Trade)
    }

    /// The first violated precondition of submitting batch orders, if any.
    pub open spec fn batch_submit_check(self, order_count: u32, now: i64) -> Option<MarketError> {
        if !(self.resolution_state is Active) {
            Some(MarketError::MarketAlreadyResolved)
        } else if now >= self.end_time {
            Some(MarketError::MarketEnded)
        } else if now >= self.next_batch_clear {
            Some(MarketError::BatchWindowOpen)
        } else if self.batch_order_count + order_count > u32::MAX {
            Some(MarketError::Overflow)
        } else {
            None
        }
    }

    /// Records a submission of `order_count` committed batch orders and
    /// queues the batch-clear computation under the caller-supplied handle.
    /// The orders themselves stay private; the market keeps only their
    /// count and commitment root.  Fails, changing nothing, outside the
    /// open batch window, on an inactive or expired market, on counter
    /// overflow, or while a batch-clear computation is already outstanding.
    pub fn submit_batch_order(
        &mut self,
        gateway: &mut ComputationGateway,
        offset: u64,
        order_root: Commitment,
        order_count: u32,
        now: i64,
    ) -> (r: Result<(), MarketError>)
        requires
            old(self).wf(),
            old(gateway).wf(),
        ensures
            final(self).wf(),
            final(gateway).wf(),
            old(self).batch_submit_check(order_count, now) matches Some(e) ==> r == Err::<
                (),
                MarketError,
            >(e) && *final(self) == *old(self) && final(gateway)@ == old(gateway)@,
            old(self).batch_submit_check(order_count, now) is None && (
            gw_has_offset(old(gateway)@, offset) || gw_has_kind(
                old(gateway)@,
                old(self).id,
                ComputationKind::BatchClear,
            )) ==> r == Err::<(), MarketError>(MarketError::ComputationOutstanding) && *final(self)
                == *old(self) && final(gateway)@ == old(gateway)@,
            old(self).batch_submit_check(order_count, now) is None && !(
            gw_has_offset(old(gateway)@, offset) || gw_has_kind(
                old(gateway)@,
                old(self).id,
                ComputationKind::BatchClear,
            )) ==> r == Ok::<(), MarketError>(()) && *final(self) == (Market {
                batch_order_count: (old(self).batch_order_count + order_count) as u32,
                batch_order_root: order_root,
                ..*old(self)
            }) && final(gateway)@ == old(gateway)@.push(
                (PendingComputation {
                    offset,
                    market_id: old(self).id,
                    kind: ComputationKind::BatchClear,
                }),
            ),
    {
        if !matches!(self.resolution_state, ResolutionState::Active) {
            return Err(MarketError::MarketAlreadyResolved);
        }
        if now >= self.end_time {
            return Err(MarketError::MarketEnded);
        }
        if now >= self.next_batch_clear {
            return Err(MarketError::BatchWindowOpen);
        }
        let new_count = match self.batch_order_count.checked_add(order_count) {
            Some(v) => v,
            None => {
                return Err(MarketError::Overflow);
            },
        };
        match gateway.queue(offset, self.id, ComputationKind::BatchClear) {
            Ok(()) => {},
            Err(e) => {
                return Err(e);
            },
        }
        self.batch_order_count = new_count;
        self.batch_order_root = order_root;
        Ok(())
    }

    /// True when one more attestation makes the count reach the quorum:
    /// that attestation is the one that fires the transition to
    /// `Computing`.
    pub open spec fn attestation_triggers(self) -> bool {
        self.attestation_count + 1 >= self.resolver_quorum
    }

    /// The market after accepting one attestation: the count grows by one,
    /// and the state moves to `Computing` exactly when the quorum is
    /// reached, to `AwaitingAttestation` otherwise.
    pub open spec fn attested_market(self) -> Market {
        Market {
            attestation_count: (self.attestation_count + 1) as u8,
            resolution_state: if self.attestation_triggers() {
                ResolutionState::Computing
            } else {
                ResolutionState::AwaitingAttestation
            },
            ..self
        }
    }

    /// The first violated precondition of submitting an attestation, if
    /// any: the caller must hold the resolver record, the market must be
    /// past its end time and not yet computing or resolved, the payload
    /// non-empty, the resolver not yet attested, the counters consistent,
    /// and — on the quorum-crossing attestation — the resolution
    /// computation must be queueable.
    pub open spec fn attestation_check(
        self,
        store: Seq<Resolver>,
        g: Seq<PendingComputation>,
        authority: u64,
        offset: u64,
        attestation: Commitment,
        now: i64,
    ) -> Option<MarketError> {
        if !has_resolver(store, self.id, authority) {
            Some(MarketError::Unauthorized)
        } else if now < self.end_time {
            Some(MarketError::MarketNotEnded)
        } else if !(self.resolution_state is Active || self.resolution_state
            is AwaitingAttestation) {
            Some(MarketError::MarketAlreadyResolved)
        } else if attestation.spec_is_zero() {
            Some(MarketError::InvalidAttestation)
        } else if store[resolver_idx(store, self.id, authority)].has_attested {
            Some(MarketError::AlreadyAttested)
        } else if self.attestation_count >= self.resolver_count {
            Some(MarketError::InsufficientResolvers)
        } else if self.attestation_triggers() && (gw_has_offset(g, offset) || gw_has_kind(
            g,
            self.id,
            ComputationKind::Resolution,
        )) {
            Some(MarketError::ComputationOutstanding)
        } else {
            None
        }
    }

    /// Records one resolver's attestation.  The first attestation after
    /// the end time moves an `Active` market to `AwaitingAttestation`; the
    /// attestation that first makes the count reach the quorum — and only
    /// that one — moves the market to `Computing` and queues the
    /// resolution computation, returning `Ok(true)`.  Every other accepted
    /// attestation returns `Ok(false)`.  Fails, changing nothing, exactly
    /// on the first violated precondition.
    pub fn submit_attestation(
        &mut self,
        store: &mut ResolverStore,
        gateway: &mut ComputationGateway,
        authority: u64,
        offset: u64,
        attestation: Commitment,
        now: i64,
    ) -> (r: Result<bool, MarketError>)
        requires
            old(self).wf(),
            old(store).wf(),
            old(gateway).wf(),
        ensures
            final(self).wf(),
            final(store).wf(),
            final(gateway).wf(),
            old(self).attestation_check(
                old(store)@,
                old(gateway)@,
                authority,
                offset,
                attestation,
                now,
            ) matches Some(e) ==> (r == Err::<bool, MarketError>(e) && *final(self) == *old(self)
                && final(store)@ == old(store)@ && final(gateway)@ == old(gateway)@),
            old(self).attestation_check(
                old(store)@,
                old(gateway)@,
                authority,
                offset,
                attestation,
                now,
            ) is None ==> (r == Ok::<bool, MarketError>(old(self).attestation_triggers())
                && *final(self) == old(self).attested_market()
                && final(store)@ == old(store)@.update(
                resolver_idx(old(store)@, old(self).id, authority),
                (Resolver {
                    has_attested: true,
                    attestation_commitment: attestation,
                    ..old(store)@[resolver_idx(old(store)@, old(self).id, authority)]
                }),
            ) && (old(self).attestation_triggers() ==> final(gateway)@ == old(gateway)@.push(
                (PendingComputation {
                    offset,
                    market_id: old(self).id,
                    kind: ComputationKind::Resolution,
                }),
            )) && (!old(self).attestation_triggers() ==> final(gateway)@ == old(gateway)@)
                && staked_count(final(store)@, old(self).id) == staked_count(
                old(store)@,
                old(self).id,
            ) && attested_count(final(store)@, old(self).id) == attested_count(
                old(store)@,
                old(self).id,
            ) + 1),
    {
        let idx = match store.find(self.id, authority) {
            Some(i) => i,
            None => {
                return Err(MarketError::Unauthorized);
            },
        };
        proof {
            lemma_resolver_idx_unique(store@, self.id, authority, idx as int);
        }
        if now < self.end_time {
            return Err(MarketError::MarketNotEnded);
        }
        if !matches!(
            self.resolution_state,
            ResolutionState::Active | ResolutionState::AwaitingAttestation
        ) {
            return Err(MarketError::MarketAlreadyResolved);
        }
        if attestation.is_zero() {
            return Err(MarketError::InvalidAttestation);
        }
        if store.records[idx].has_attested {
            return Err(MarketError::AlreadyAttested);
        }
        if self.attestation_count >= self.resolver_count {
            return Err(MarketError::InsufficientResolvers);
        }
        let triggers = self.attestation_count + 1 >= self.resolver_quorum;
        if triggers {
            match gateway.queue(offset, self.id, ComputationKind::Resolution) {
                Ok(()) => {},
                Err(e) => {
                    return Err(e);
                },
            }
        }
        let ghost old_store_view = store@;
        let record = &mut store.records[idx];
        record.has_attested = true;
        record.attestation_commitment = attestation;
        self.attestation_count = self.attestation_count + 1;
        self.resolution_state = if triggers {
            ResolutionState::Computing
        } else {
            ResolutionState::AwaitingAttestation
        };
        proof {
            let s_new = store@;
            lemma_counts_after_attest(old_store_view, self.id, idx as int, s_new[idx as int]);
            assert forall|i: int, j: int| 0 <= i < j < s_new.len() implies !(s_new[i].market
                == s_new[j].market && s_new[i].authority == s_new[j].authority) by {
                assert(s_new[i].market == old_store_view[i].market && s_new[i].authority
                    == old_store_view[i].authority);
                assert(s_new[j].market == old_store_view[j].market && s_new[j].authority
                    == old_store_view[j].authority);
            }
            assert forall|i: int| 0 <= i < s_new.len() implies (#[trigger] s_new[i]).wf() by {
                if i != idx as int {
                    assert(s_new[i] == old_store_view[i]);
                }
            }
        }
        Ok(triggers)
    }

    /// The first violated precondition of a manual resolution, if any.
    pub open spec fn resolve_check(self, final_outcome: u8, proof_len: int) -> Option<
        MarketError,
    > {
        if !(self.resolution_state is Computing) {
            Some(MarketError::MarketNotResolved)
        } else if final_outcome != 0 && final_outcome != 1 {
            Some(MarketError::InvalidOutcome)
        } else if proof_len == 0 {
            Some(MarketError::InvalidAttestation)
        } else {
            None
        }
    }

    /// Finalizes the outcome on the manual resolution path: the market must
    /// be `Computing`, the outcome binary (0 = NO, 1 = YES), and the proof
    /// payload non-empty.  On success the market becomes `Resolved` with
    /// the outcome written exactly once; on failure nothing changes.
    pub fn resolve_market(&mut self, final_outcome: u8, resolution_proof: &Vec<u8>) -> (r: Result<
        (),
        MarketError,
    >)
        requires
            old(self).wf(),
        ensures
            final(self).wf(),
            old(self).resolve_check(final_outcome, resolution_proof@.len() as int) matches Some(e)
                ==> r == Err::<(), MarketError>(e) && *final(self) == *old(self),
            old(self).resolve_check(final_outcome, resolution_proof@.len() as int) is None ==> r
                == Ok::<(), MarketError>(()) && *final(self) == (Market {
                resolution_state: ResolutionState::Resolved,
                final_outcome: if final_outcome == 1 {
                    Outcome::Yes
                } else {
                    Outcome::No
                },
                ..*old(self)
            }),
    {
        if !matches!(self.resolution_state, ResolutionState::Computing) {
            return Err(MarketError::MarketNotResolved);
        }
        if final_outcome != 0 && final_outcome != 1 {
            return Err(MarketError::InvalidOutcome);
        }
        if resolution_proof.len() == 0 {
            return Err(MarketError::InvalidAttestation);
        }
        self.resolution_state = ResolutionState::Resolved;
        self.final_outcome = if final_outcome == 1 {
            Outcome::Yes
        } else {
            Outcome::No
        };
        Ok(())
    }

    /// The first violated precondition of an externally computed reserve
    /// update, if any: the market must be active, the new commitment real,
    /// the signed deltas must keep both reserves within 64 bits, and the
    /// resulting reserve product must stay positive.
    pub open spec fn update_cfmm_check(
        self,
        new_state_commitment: Commitment,
        reserve_delta_yes: i64,
        reserve_delta_no: i64,
    ) -> Option<MarketError> {
        if !(self.resolution_state is Active) {
            Some(MarketError::MarketAlreadyResolved)
        } else if new_state_commitment.spec_is_zero() {
            Some(MarketError::InvalidStateCommitment)
        } else if self.yes_reserves + reserve_delta_yes > u64::MAX || self.yes_reserves
            + reserve_delta_yes < 0 || self.no_reserves + reserve_delta_no > u64::MAX
            || self.no_reserves + reserve_delta_no < 0 {
            Some(MarketError::Overflow)
        } else if self.yes_reserves + reserve_delta_yes == 0 || self.no_reserves + reserve_delta_no
            == 0 {
            Some(MarketError::InvalidCfmmState)
        } else {
            None
        }
    }

    /// Applies externally computed signed reserve deltas together with the
    /// fresh state commitment.  Fails, changing nothing, on a non-active
    /// market, a zero-sentinel commitment, a delta that leaves 64 bits, or
    /// a resulting non-positive reserve product; with non-negative deltas
    /// the reserves are non-decreasing.
    pub fn update_cfmm_state(
        &mut self,
        new_state_commitment: Commitment,
        reserve_delta_yes: i64,
        reserve_delta_no: i64,
    ) -> (r: Result<(), MarketError>)
        requires
            old(self).wf(),
        ensures
            final(self).wf(),
            old(self).update_cfmm_check(new_state_commitment, reserve_delta_yes, reserve_delta_no)
                matches Some(e) ==> r == Err::<(), MarketError>(e) && *final(self) == *old(self),
            old(self).update_cfmm_check(new_state_commitment, reserve_delta_yes, reserve_delta_no)
                is None ==> r == Ok::<(), MarketError>(()) && *final(self) == (Market {
                cfmm_state_commitment: new_state_commitment,
                yes_reserves: (old(self).yes_reserves + reserve_delta_yes) as u64,
                no_reserves: (old(self).no_reserves + reserve_delta_no) as u64,
                ..*old(self)
            }) && final(self).yes_reserves > 0 && final(self).no_reserves > 0,
            r is Ok && reserve_delta_yes >= 0 && reserve_delta_no >= 0 ==> final(self).yes_reserves
                >= old(self).yes_reserves && final(self).no_reserves >= old(self).no_reserves,
    {
        if !matches!(self.resolution_state, ResolutionState::Active) {
            return Err(MarketError::MarketAlreadyResolved);
        }
        if new_state_commitment.is_zero() {
            return Err(MarketError::InvalidStateCommitment);
        }
        let new_yes = match self.yes_reserves.checked_add_signed(reserve_delta_yes) {
            Some(v) => v,
            None => {
                return Err(MarketError::Overflow);
            },
        };
        let new_no = match self.no_reserves.checked_add_signed(reserve_delta_no) {
            Some(v) => v,
            None => {
                return Err(MarketError::Overflow);
            },
        };
        if new_yes == 0 || new_no == 0 {
            return Err(MarketError::InvalidCfmmState);
        }
        self.cfmm_state_commitment = new_state_commitment;
        self.yes_reserves = new_yes;
        self.no_reserves = new_no;
        Ok(())
    }

    /// The first violated precondition of applying a batch clear, if any:
    /// the market must be active, the batch window closed, the new
    /// commitment real, the price within scale, and the next window's close
    /// must fit in a timestamp.
    pub open spec fn apply_batch_clear_check(
        self,
        new_state_commitment: Commitment,
        uniform_price: u64,
        now: i64,
    ) -> Option<MarketError> {
        if !(self.resolution_state is Active) {
            Some(MarketError::MarketAlreadyResolved)
        } else if now < self.next_batch_clear {
            Some(MarketError::BatchWindowOpen)
        } else if new_state_commitment.spec_is_zero() {
            Some(MarketError::InvalidStateCommitment)
        } else if uniform_price > PRICE_SCALE {
            Some(MarketError::InvalidCfmmState)
        } else if now + self.batch_interval > i64::MAX {
            Some(MarketError::Overflow)
        } else {
            None
        }
    }

    /// Applies a cleared batch's new state commitment: resets the batch
    /// counters and schedules the next window exactly one interval after
    /// the clearing time, producing a rolling cadence.  Fails, changing
    /// nothing, while the window is still open, on a zero-sentinel
    /// commitment, or on a price outside the fixed-point scale.
    pub fn apply_batch_clear(
        &mut self,
        new_state_commitment: Commitment,
        uniform_price: u64,
        now: i64,
    ) -> (r: Result<(), MarketError>)
        requires
            old(self).wf(),
        ensures
            final(self).wf(),
            old(self).apply_batch_clear_check(new_state_commitment, uniform_price, now) matches
                Some(e) ==> r == Err::<(), MarketError>(e) && *final(self) == *old(self),
            old(self).apply_batch_clear_check(new_state_commitment, uniform_price, now) is None
                ==> r == Ok::<(), MarketError>(()) && *final(self) == (Market {
                cfmm_state_commitment: new_state_commitment,
                batch_order_count: 0,
                batch_order_root: final(self).batch_order_root,
                next_batch_clear: (now + old(self).batch_interval) as i64,
                ..*old(self)
            }) && final(self).batch_order_root.spec_is_zero(),
    {
        if !matches!(self.resolution_state, ResolutionState::Active) {
            return Err(MarketError::MarketAlreadyResolved);
        }
        if now < self.next_batch_clear {
            return Err(MarketError::BatchWindowOpen);
        }
        if new_state_commitment.is_zero() {
            return Err(MarketError::InvalidStateCommitment);
        }
        if uniform_price > PRICE_SCALE {
            return Err(MarketError::InvalidCfmmState);
        }
        let next = match now.checked_add(self.batch_interval) {
            Some(v) => v,
            None => {
                return Err(MarketError::Overflow);
            },
        };
        self.cfmm_state_commitment = new_state_commitment;
        self.batch_order_count = 0;
        self.batch_order_root = Commitment::zero();
        self.next_batch_clear = next;
        Ok(())
    }

    /// The public reserve snapshot that travels with every queued
    /// computation: the aggregate reserves the collaborator computes over.
    pub fn reserve_snapshot(&self) -> (s: CfmmState)
        ensures
            s == (CfmmState { yes_reserves: self.yes_reserves, no_reserves: self.no_reserves }),
    {
        CfmmState { yes_reserves: self.yes_reserves, no_reserves: self.no_reserves }
    }

    /// The first reason to reject a successful trade computation's payload,
    /// if any: the market must still be active, the fresh commitment real,
    /// the reported reserves no smaller than the current ones, and the
    /// grown volume must fit in 64 bits.
    pub open spec fn trade_callback_check(self, payload: CfmmState, new_commitment: Commitment) -> Option<MarketError> {
        if !(self.resolution_state is Active) {
            Some(MarketError::MarketAlreadyResolved)
        } else if new_commitment.spec_is_zero() {
            Some(MarketError::InvalidStateCommitment)
        } else if payload.yes_reserves < self.yes_reserves || payload.no_reserves
            < self.no_reserves {
            Some(MarketError::InvalidCfmmState)
        } else if self.total_volume + (payload.yes_reserves - self.yes_reserves)
            + (payload.no_reserves - self.no_reserves) > u64::MAX {
            Some(MarketError::Overflow)
        } else {
            None
        }
    }

    /// The market after applying a trade computation's result.
    pub open spec fn traded_market(self, payload: CfmmState, new_commitment: Commitment) -> Market {
        Market {
            yes_reserves: payload.yes_reserves,
            no_reserves: payload.no_reserves,
            cfmm_state_commitment: new_commitment,
            total_volume: (self.total_volume + (payload.yes_reserves - self.yes_reserves) + (
            payload.no_reserves - self.no_reserves)) as u64,
            ..self
        }
    }

    /// Applies the callback of a queued trade computation.  The handle is
    /// validated first: an unknown or already-retired handle, or one
    /// belonging to another market or kind, is rejected with nothing
    /// changed.  A valid handle is retired exactly once, whatever follows:
    /// a reported failure or abort surfaces as its own error with the
    /// market untouched, and a success payload is validated — reserves may
    /// only grow — before the market adopts the new reserves, commitment
    /// and volume atomically.
    pub fn private_trade_callback(
        &mut self,
        gateway: &mut ComputationGateway,
        offset: u64,
        outcome: ComputationOutcome<CfmmState>,
        new_commitment: Commitment,
    ) -> (r: Result<(), MarketError>)
        requires
            old(self).wf(),
            old(gateway).wf(),
        ensures
            final(self).wf(),
            final(gateway).wf(),
            !gw_has_offset(old(gateway)@, offset) ==> (r == Err::<(), MarketError>(
                MarketError::UnknownComputation,
            ) && *final(self) == *old(self) && final(gateway)@ == old(gateway)@),
            gw_has_offset(old(gateway)@, offset) && !gw_handle_ok(
                old(gateway)@,
                offset,
                old(self).id,
                ComputationKind::Trade,
            ) ==> (r == Err::<(), MarketError>(MarketError::Unauthorized) && *final(self) == *old(self) && final(gateway)@ == old(gateway)@),
            gw_handle_ok(old(gateway)@, offset, old(self).id, ComputationKind::Trade) ==> (
            !gw_has_offset(final(gateway)@, offset) && final(gateway)@.len() == old(gateway)@.len() - 1 && (exists|i: int|
                0 <= i < old(gateway)@.len() && final(gateway)@ == old(gateway)@.remove(i))),
            gw_handle_ok(old(gateway)@, offset, old(self).id, ComputationKind::Trade) ==> match outcome {
                ComputationOutcome::Failure => r == Err::<(), MarketError>(
                    MarketError::ComputationFailed,
                ) && *final(self) == *old(self),
                ComputationOutcome::Aborted => r == Err::<(), MarketError>(
                    MarketError::ComputationAborted,
                ) && *final(self) == *old(self),
                ComputationOutcome::Success(payload) => match old(self).trade_callback_check(
                    payload,
                    new_commitment,
                ) {
                    Some(e) => r == Err::<(), MarketError>(e) && *final(self) == *old(self),
                    None => r == Ok::<(), MarketError>(()) && *final(self) == old(self).traded_market(payload, new_commitment) && final(self).yes_reserves >= old(self).yes_reserves && final(self).no_reserves >= old(self).no_reserves,
                },
            },
    {
        match gateway.deliver_expected(offset, self.id, ComputationKind::Trade) {
            Ok(_) => {},
            Err(e) => {
                return Err(e);
            },
        }
        let payload = match outcome {
            ComputationOutcome::Success(p) => p,
            ComputationOutcome::Failure => {
                return Err(MarketError::ComputationFailed);
            },
            ComputationOutcome::Aborted => {
                return Err(MarketError::ComputationAborted);
            },
        };
        if !matches!(self.resolution_state, ResolutionState::Active) {
            return Err(MarketError::MarketAlreadyResolved);
        }
        if new_commitment.is_zero() {
            return Err(MarketError::InvalidStateCommitment);
        }
        if payload.yes_reserves < self.yes_reserves || payload.no_reserves < self.no_reserves {
            return Err(MarketError::InvalidCfmmState);
        }
        let growth = match (payload.yes_reserves - self.yes_reserves).checked_add(
            payload.no_reserves - self.no_reserves,
        ) {
            Some(v) => v,
            None => {
                return Err(MarketError::Overflow);
            },
        };
        let new_volume = match self.total_volume.checked_add(growth) {
            Some(v) => v,
            None => {
                return Err(MarketError::Overflow);
            },
        };
        self.yes_reserves = payload.yes_reserves;
        self.no_reserves = payload.no_reserves;
        self.cfmm_state_commitment = new_commitment;
        self.total_volume = new_volume;
        Ok(())
    }

    /// The first reason to reject a successful batch-clear computation's
    /// result, if any: the market must still be active with the window
    /// closed, the commitment real, the price within scale, the new
    /// reserves must equal the current ones grown by the opposite side's
    /// fill, and the grown volume and next window close must fit.
    pub open spec fn batch_callback_check(
        self,
        res: BatchClearResult,
        new_commitment: Commitment,
        now: i64,
    ) -> Option<MarketError> {
        if !(self.resolution_state is Active) {
            Some(MarketError::MarketAlreadyResolved)
        } else if now < self.next_batch_clear {
            Some(MarketError::BatchWindowOpen)
        } else if new_commitment.spec_is_zero() {
            Some(MarketError::InvalidStateCommitment)
        } else if res.clearing_price > PRICE_SCALE {
            Some(MarketError::InvalidCfmmState)
        } else if res.new_yes_reserves != self.yes_reserves + res.total_no_filled
            || res.new_no_reserves != self.no_reserves + res.total_yes_filled {
            Some(MarketError::InvalidCfmmState)
        } else if self.total_volume + res.total_yes_filled + res.total_no_filled > u64::MAX {
            Some(MarketError::Overflow)
        } else if now + self.batch_interval > i64::MAX {
            Some(MarketError::Overflow)
        } else {
            None
        }
    }

    /// The market after applying a batch clear at time `now`;
    /// `cleared_root` stands for the reset (zero-sentinel) order root.
    pub open spec fn batch_cleared_market(
        self,
        res: BatchClearResult,
        new_commitment: Commitment,
        now: i64,
        cleared_root: Commitment,
    ) -> Market {
        Market {
            yes_reserves: res.new_yes_reserves,
            no_reserves: res.new_no_reserves,
            cfmm_state_commitment: new_commitment,
            total_volume: (self.total_volume + res.total_yes_filled + res.total_no_filled) as u64,
            batch_order_count: 0,
            batch_order_root: cleared_root,
            next_batch_clear: (now + self.batch_interval) as i64,
            ..self
        }
    }

    /// Applies the callback of a queued batch-clear computation.  Handle
    /// validation and retirement work as in `private_trade_callback`.  A
    /// success result is validated — the window must have closed, the
    /// price must be within scale, and each reserve must grow by exactly
    /// the opposite side's fill — then the market adopts the new reserves
    /// and commitment, resets the batch counters, and schedules the next
    /// window one interval after `now`.
    pub fn batch_clear_callback(
        &mut self,
        gateway: &mut ComputationGateway,
        offset: u64,
        outcome: ComputationOutcome<BatchClearResult>,
        new_commitment: Commitment,
        now: i64,
    ) -> (r: Result<(), MarketError>)
        requires
            old(self).wf(),
            old(gateway).wf(),
        ensures
            final(self).wf(),
            final(gateway).wf(),
            !gw_has_offset(old(gateway)@, offset) ==> (r == Err::<(), MarketError>(
                MarketError::UnknownComputation,
            ) && *final(self) == *old(self) && final(gateway)@ == old(gateway)@),
            gw_has_offset(old(gateway)@, offset) && !gw_handle_ok(
                old(gateway)@,
                offset,
                old(self).id,
                ComputationKind::BatchClear,
            ) ==> (r == Err::<(), MarketError>(MarketError::Unauthorized) && *final(self) == *old(self) && final(gateway)@ == old(gateway)@),
            gw_handle_ok(old(gateway)@, offset, old(self).id, ComputationKind::BatchClear) ==> (
            !gw_has_offset(final(gateway)@, offset) && final(gateway)@.len() == old(gateway)@.len() - 1),
            gw_handle_ok(old(gateway)@, offset, old(self).id, ComputationKind::BatchClear)
                ==> match outcome {
                ComputationOutcome::Failure => r == Err::<(), MarketError>(
                    MarketError::ComputationFailed,
                ) && *final(self) == *old(self),
                ComputationOutcome::Aborted => r == Err::<(), MarketError>(
                    MarketError::ComputationAborted,
                ) && *final(self) == *old(self),
                ComputationOutcome::Success(res) => match old(self).batch_callback_check(
                    res,
                    new_commitment,
                    now,
                ) {
                    Some(e) => r == Err::<(), MarketError>(e) && *final(self) == *old(self),
                    None => r == Ok::<(), MarketError>(()) && *final(self) == old(self).batch_cleared_market(res, new_commitment, now, final(self).batch_order_root)
                        && final(self).batch_order_root.spec_is_zero() && final(self).yes_reserves
                        >= old(self).yes_reserves && final(self).no_reserves >= old(self).no_reserves,
                },
            },
    {
        match gateway.deliver_expected(offset, self.id, ComputationKind::BatchClear) {
            Ok(_) => {},
            Err(e) => {
                return Err(e);
            },
        }
        let res = match outcome {
            ComputationOutcome::Success(p) => p,
            ComputationOutcome::Failure => {
                return Err(MarketError::ComputationFailed);
            },
            ComputationOutcome::Aborted => {
                return Err(MarketError::ComputationAborted);
            },
        };
        if !matches!(self.resolution_state, ResolutionState::Active) {
            return Err(MarketError::MarketAlreadyResolved);
        }
        if now < self.next_batch_clear {
            return Err(MarketError::BatchWindowOpen);
        }
        if new_commitment.is_zero() {
            return Err(MarketError::InvalidStateCommitment);
        }
        if res.clearing_price > PRICE_SCALE {
            return Err(MarketError::InvalidCfmmState);
        }
        let expected_yes = match self.yes_reserves.checked_add(res.total_no_filled) {
            Some(v) => v,
            None => {
                return Err(MarketError::InvalidCfmmState);
            },
        };
        let expected_no = match self.no_reserves.checked_add(res.total_yes_filled) {
            Some(v) => v,
            None => {
                return Err(MarketError::InvalidCfmmState);
            },
        };
        if res.new_yes_reserves != expected_yes || res.new_no_reserves != expected_no {
            return Err(MarketError::InvalidCfmmState);
        }
        let fills = match res.total_yes_filled.checked_add(res.total_no_filled) {
            Some(v) => v,
            None => {
                return Err(MarketError::Overflow);
            },
        };
        let new_volume = match self.total_volume.checked_add(fills) {
            Some(v) => v,
            None => {
                return Err(MarketError::Overflow);
            },
        };
        let next = match now.checked_add(self.batch_interval) {
            Some(v) => v,
            None => {
                return Err(MarketError::Overflow);
            },
        };
        self.yes_reserves = res.new_yes_reserves;
        self.no_reserves = res.new_no_reserves;
        self.cfmm_state_commitment = new_commitment;
        self.total_volume = new_volume;
        self.batch_order_count = 0;
        self.batch_order_root = Commitment::zero();
        self.next_batch_clear = next;
        Ok(())
    }

    /// The market after a successful resolution result: `Resolved`, with
    /// the binary outcome written exactly once.
    pub open spec fn resolved_market(self, res: ResolutionResult) -> Market {
        Market {
            resolution_state: ResolutionState::Resolved,
            final_outcome: if res.final_outcome {
                Outcome::Yes
            } else {
                Outcome::No
            },
            ..self
        }
    }

    /// Applies the callback of the queued resolution computation.  Handle
    /// validation and retirement work as in `private_trade_callback`.  A
    /// reported failure or abort retires the handle but leaves the market
    /// in `Computing`, resolvable by a retry; a success result requires
    /// `Computing` and moves the market to `Resolved` with the outcome
    /// written exactly once.
    pub fn resolve_market_callback(
        &mut self,
        gateway: &mut ComputationGateway,
        offset: u64,
        outcome: ComputationOutcome<ResolutionResult>,
    ) -> (r: Result<(), MarketError>)
        requires
            old(self).wf(),
            old(gateway).wf(),
        ensures
            final(self).wf(),
            final(gateway).wf(),
            !gw_has_offset(old(gateway)@, offset) ==> (r == Err::<(), MarketError>(
                MarketError::UnknownComputation,
            ) && *final(self) == *old(self) && final(gateway)@ == old(gateway)@),
            gw_has_offset(old(gateway)@, offset) && !gw_handle_ok(
                old(gateway)@,
                offset,
                old(self).id,
                ComputationKind::Resolution,
            ) ==> (r == Err::<(), MarketError>(MarketError::Unauthorized) && *final(self) == *old(self) && final(gateway)@ == old(gateway)@),
            gw_handle_ok(old(gateway)@, offset, old(self).id, ComputationKind::Resolution) ==> (
            !gw_has_offset(final(gateway)@, offset) && final(gateway)@.len() == old(gateway)@.len() - 1),
            gw_handle_ok(old(gateway)@, offset, old(self).id, ComputationKind::Resolution)
                ==> match outcome {
                ComputationOutcome::Failure => r == Err::<(), MarketError>(
                    MarketError::ComputationFailed,
                ) && *final(self) == *old(self),
                ComputationOutcome::Aborted => r == Err::<(), MarketError>(
                    MarketError::ComputationAborted,
                ) && *final(self) == *old(self),
                ComputationOutcome::Success(res) => if old(self).resolution_state is Computing {
                    r == Ok::<(), MarketError>(()) && *final(self) == old(self).resolved_market(
                        res,
                    ) && final(self).resolution_state is Resolved
                } else {
                    r == Err::<(), MarketError>(MarketError::InvalidResolutionState) && *final(self) == *old(self)
                },
            },
    {
        match gateway.deliver_expected(offset, self.id, ComputationKind::Resolution) {
            Ok(_) => {},
            Err(e) => {
                return Err(e);
            },
        }
        let res = match outcome {
            ComputationOutcome::Success(p) => p,
            ComputationOutcome::Failure => {
                return Err(MarketError::ComputationFailed);
            },
            ComputationOutcome::Aborted => {
                return Err(MarketError::ComputationAborted);
            },
        };
        if !matches!(self.resolution_state, ResolutionState::Computing) {
            return Err(MarketError::InvalidResolutionState);
        }
        self.resolution_state = ResolutionState::Resolved;
        self.final_outcome = if res.final_outcome {
            Outcome::Yes
        } else {
            Outcome::No
        };
        Ok(())
    }
}

/// A market's counters agree with a store when they count exactly its
/// staked and its attested resolver records there.  Creation establishes
/// this for the empty store, and staking and attesting each move the
/// matching counter and count together.
pub open spec fn counts_consistent(m: Market, s: Seq<Resolver>) -> bool {
    &&& m.resolver_count == staked_count(s, m.id)
    &&& m.attestation_count == attested_count(s, m.id)
}

/// For a market whose counters agree with its store, an attestation from a
/// staked resolver that has not yet attested always finds room: the
/// attested count is strictly below the staked count, so the counter guard
/// in `attestation_check` cannot be the violated precondition.
pub proof fn lemma_consistent_counts_never_block(m: Market, s: Seq<Resolver>, authority: u64)
    requires
        counts_consistent(m, s),
        resolvers_wf(s),
        has_resolver(s, m.id, authority),
        !s[resolver_idx(s, m.id, authority)].has_attested,
    ensures
        m.attestation_count < m.resolver_count,
{
    let i = resolver_idx(s, m.id, authority);
    assert(0 <= i < s.len() && s[i].market == m.id && s[i].authority == authority);
    lemma_attested_le_staked(s, m.id);
}

/// A rank on lifecycle states in transition order: transitions may only
/// increase it.
pub open spec fn state_rank(s: ResolutionState) -> int {
    match s {
        ResolutionState::Active => 0,
        ResolutionState::AwaitingAttestation => 1,
        ResolutionState::Computing => 2,
        ResolutionState::Resolved => 3,
    }
}

/// Lifecycle transitions never regress.  An accepted attestation moves the
/// state forward from `Active` or `AwaitingAttestation`, a resolution
/// result moves `Computing` to the terminal `Resolved`, and the reserve
/// and batch appliers leave the state where it was; the end time fixed at
/// creation never changes under any of them.
pub proof fn lemma_lifecycle_monotonic(
    m: Market,
    res: ResolutionResult,
    payload: CfmmState,
    clear: BatchClearResult,
    new_commitment: Commitment,
    now: i64,
    cleared_root: Commitment,
)
    ensures
        m.resolution_state is Active || m.resolution_state is AwaitingAttestation ==> state_rank(
            m.attested_market().resolution_state,
        ) >= state_rank(m.resolution_state),
        m.resolution_state is Computing ==> state_rank(m.resolved_market(res).resolution_state)
            > state_rank(m.resolution_state),
        m.traded_market(payload, new_commitment).resolution_state == m.resolution_state,
        m.batch_cleared_market(clear, new_commitment, now, cleared_root).resolution_state
            == m.resolution_state,
        m.attested_market().end_time == m.end_time,
        m.resolved_market(res).end_time == m.end_time,
        m.traded_market(payload, new_commitment).end_time == m.end_time,
        m.batch_cleared_market(clear, new_commitment, now, cleared_root).end_time == m.end_time,
{
}

/// The quorum transition fires exactly once.  An accepted attestation moves
/// the market to `Computing` exactly when it is the one that first makes
/// the attestation count reach the quorum; below the quorum the market
/// stands in `AwaitingAttestation` with the count still short of the
/// quorum, so no earlier attestation fires the transition.
pub proof fn lemma_quorum_transition_fires_once(
    m: Market,
    store: Seq<Resolver>,
    g: Seq<PendingComputation>,
    authority: u64,
    offset: u64,
    attestation: Commitment,
    now: i64,
)
    requires
        m.wf(),
    ensures
        m.attestation_check(store, g, authority, offset, attestation, now) is None ==> (
        m.attested_market().resolution_state is Computing <==> m.attestation_triggers()),
        m.attestation_check(store, g, authority, offset, attestation, now) is None
            && !m.attestation_triggers() ==> m.attested_market().resolution_state
            is AwaitingAttestation && m.attested_market().attestation_count < m.resolver_quorum,
{
}

/// No attestation fires after the quorum transition: a market that is
/// already `Computing` — or `Resolved` — rejects every further
/// attestation, so the transition cannot re-trigger.
pub proof fn lemma_no_attestation_after_quorum(
    m: Market,
    store: Seq<Resolver>,
    g: Seq<PendingComputation>,
    authority: u64,
    offset: u64,
    attestation: Commitment,
    now: i64,
)
    requires
        m.resolution_state is Computing || m.resolution_state is Resolved,
    ensures
        m.attestation_check(store, g, authority, offset, attestation, now) matches Some(_),
{
}

/// Growing two factors of a positive product keeps the product positive.
proof fn lemma_grown_product_positive(y0: int, n0: int, y1: int, n1: int)
    requires
        y0 >= 0,
        n0 >= 0,
        y0 * n0 > 0,
        y1 >= y0,
        n1 >= n0,
    ensures
        y1 * n1 > 0,
{
    assert(y1 * n1 > 0) by (nonlinear_arith)
        requires
            y0 >= 0,
            n0 >= 0,
            y0 * n0 > 0,
            y1 >= y0,
            n1 >= n0,
    ;
}

/// Reserves never shrink under an accepted trade computation result, and a
/// positive reserve product stays positive.
pub proof fn lemma_trade_callback_reserves_monotonic(
    m: Market,
    payload: CfmmState,
    new_commitment: Commitment,
)
    requires
        m.trade_callback_check(payload, new_commitment) is None,
    ensures
        m.traded_market(payload, new_commitment).yes_reserves >= m.yes_reserves,
        m.traded_market(payload, new_commitment).no_reserves >= m.no_reserves,
        m.yes_reserves * m.no_reserves > 0 ==> m.traded_market(payload, new_commitment).yes_reserves
            * m.traded_market(payload, new_commitment).no_reserves > 0,
{
    let t = m.traded_market(payload, new_commitment);
    if m.yes_reserves * m.no_reserves > 0 {
        lemma_grown_product_positive(
            m.yes_reserves as int,
            m.no_reserves as int,
            t.yes_reserves as int,
            t.no_reserves as int,
        );
    }
}

/// Reserves never shrink under an accepted batch-clear result, and a
/// positive reserve product stays positive.
pub proof fn lemma_batch_callback_reserves_monotonic(
    m: Market,
    res: BatchClearResult,
    new_commitment: Commitment,
    now: i64,
    cleared_root: Commitment,
)
    requires
        m.batch_callback_check(res, new_commitment, now) is None,
    ensures
        m.batch_cleared_market(res, new_commitment, now, cleared_root).yes_reserves
            >= m.yes_reserves,
        m.batch_cleared_market(res, new_commitment, now, cleared_root).no_reserves
            >= m.no_reserves,
        m.yes_reserves * m.no_reserves > 0 ==> m.batch_cleared_market(
            res,
            new_commitment,
            now,
            cleared_root,
        ).yes_reserves * m.batch_cleared_market(res, new_commitment, now, cleared_root).no_reserves
            > 0,
{
    let t = m.batch_cleared_market(res, new_commitment, now, cleared_root);
    if m.yes_reserves * m.no_reserves > 0 {
        lemma_grown_product_positive(
            m.yes_reserves as int,
            m.no_reserves as int,
            t.yes_reserves as int,
            t.no_reserves as int,
        );
    }
}

/// An accepted externally computed reserve update with non-negative deltas
/// keeps reserves non-decreasing, and every accepted update — whatever the
/// deltas' signs — leaves a positive reserve product.
pub proof fn lemma_update_cfmm_reserves(
    m: Market,
    new_commitment: Commitment,
    reserve_delta_yes: i64,
    reserve_delta_no: i64,
)
    requires
        m.update_cfmm_check(new_commitment, reserve_delta_yes, reserve_delta_no) is None,
    ensures
        (m.yes_reserves + reserve_delta_yes) * (m.no_reserves + reserve_delta_no) > 0,
        reserve_delta_yes >= 0 ==> m.yes_reserves + reserve_delta_yes >= m.yes_reserves,
        reserve_delta_no >= 0 ==> m.no_reserves + reserve_delta_no >= m.no_reserves,
{
    vstd::arithmetic::mul::lemma_mul_strictly_positive(
        m.yes_reserves + reserve_delta_yes,
        m.no_reserves + reserve_delta_no,
    );
}

} // verus!
