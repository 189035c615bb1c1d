//! The persistent entities: the market record, its resolver records, and the
//! opaque commitments that stand in for private state.

use vstd::prelude::*;

use crate::constants::MAX_QUESTION_LEN;
use crate::constants::MAX_RESOLVERS;
use crate::constants::MIN_BATCH_INTERVAL;
use crate::constants::MAX_BATCH_INTERVAL;
use crate::constants::MIN_FEE_BPS;
use crate::constants::MAX_FEE_BPS;
use crate::constants::MIN_QUORUM;
use crate::constants::MIN_RESOLVER_STAKE;
use crate::sums::additive;
use crate::sums::nonneg_step;
use crate::sums::lemma_fold_push;
use crate::sums::lemma_fold_shift;
use crate::sums::lemma_fold_update;

verus! {

/// Which outcome side a token or an order is on.
#[derive(Clone, Copy, Debug, PartialEq, Eq, Structural)]
pub enum Side {
    Yes,
    No,
}

/// The market's final outcome: unresolved until resolution, then NO or YES.
#[derive(Clone, Copy, Debug, PartialEq, Eq, Structural)]
pub enum Outcome {
    Unresolved,
    No,
    Yes,
}

/// Lifecycle state of a market.  Transitions are linear and never regress:
/// `Active` → `AwaitingAttestation` → `Computing` → `Resolved`.
#[derive(Clone, Copy, Debug, PartialEq, Eq, Structural)]
pub enum ResolutionState {
    /// Trading, staking and batch submission are open.
    Active,
    /// The end time has passed and the first attestation arrived.
    AwaitingAttestation,
    /// Quorum was reached; a resolution computation is outstanding.
    Computing,
    /// A resolution result was applied; the market is read-only.
    Resolved,
}

/// An opaque fixed-size token standing in for private state.  The engine
/// never interprets its bytes; it only distinguishes the all-zero sentinel,
/// which marks "no commitment yet" and is rejected where a real commitment
/// is required.
#[derive(Clone, Copy, Debug, PartialEq, Eq)]
pub struct Commitment {
    pub bytes: [u8; 32],
}

impl Commitment {
    /// True when every byte is zero: the "absent" sentinel.
    pub open spec fn spec_is_zero(self) -> bool {
        forall|i: int| 0 <= i < 32 ==> self.bytes[i] == 0
    }

    /// The all-zero sentinel.
    pub fn zero() -> (r: Commitment)
        ensures
            r.spec_is_zero(),
    {
        Commitment { bytes: [0u8; 32] }
    }

    /// Wraps raw bytes.
    pub fn new(bytes: [u8; 32]) -> (r: Commitment)
        ensures
            r.bytes == bytes,
    {
        Commitment { bytes }
    }

    /// Decides whether this commitment is the zero sentinel.
    pub fn is_zero(&self) -> (r: bool)
        ensures
            r == self.spec_is_zero(),
    {
        let mut i: usize = 0;
        while i < 32
            invariant
                i <= 32,
                forall|j: int| 0 <= j < i ==> self.bytes[j] == 0,
            decreases 32 - i,
        {
            if self.bytes[i] != 0 {
                return false;
            }
            i = i + 1;
        }
        true
    }
}

/// One prediction market: lifecycle state, public aggregate reserves, batch
/// bookkeeping and resolution counters.
#[derive(Debug)]
pub struct Market {
    /// Repository key of this market.
    pub id: u64,
    /// Identity of the creator.
    pub creator: u64,
    /// The question text, at most `MAX_QUESTION_LEN` bytes.
    pub question: Vec<u8>,
    /// Unix timestamp after which trading stops and attestation opens.
    pub end_time: i64,
    /// Fee in basis points, within `[MIN_FEE_BPS, MAX_FEE_BPS]`.
    pub fee_bps: u16,
    /// Batch auction interval in seconds, within the allowed range.
    pub batch_interval: i64,
    /// When the currently open batch window closes.
    pub next_batch_clear: i64,
    /// How many distinct attesting resolvers trigger resolution.
    pub resolver_quorum: u8,
    /// Number of resolvers currently staked.
    pub resolver_count: u8,
    /// Number of resolvers who have submitted an attestation.
    pub attestation_count: u8,
    /// Commitment to the private CFMM reserve detail.
    pub cfmm_state_commitment: Commitment,
    /// Public aggregate YES reserves.
    pub yes_reserves: u64,
    /// Public aggregate NO reserves.
    pub no_reserves: u64,
    /// Cumulative traded volume.
    pub total_volume: u64,
    /// Commitment root over the orders of the open batch.
    pub batch_order_root: Commitment,
    /// Number of orders in the open batch.
    pub batch_order_count: u32,
    /// Lifecycle state.
    pub resolution_state: ResolutionState,
    /// Final outcome; `Unresolved` exactly until the market is `Resolved`.
    pub final_outcome: Outcome,
}

impl Market {
    /// Well-formedness: the bounds fixed at creation hold, the counters obey
    /// their caps, and the final outcome is set exactly when resolved.
    pub open spec fn wf(self) -> bool {
        &&& self.question@.len() <= MAX_QUESTION_LEN
        &&& MIN_FEE_BPS <= self.fee_bps <= MAX_FEE_BPS
        &&& MIN_BATCH_INTERVAL <= self.batch_interval <= MAX_BATCH_INTERVAL
        &&& MIN_QUORUM <= self.resolver_quorum <= MAX_RESOLVERS
        &&& self.resolver_count <= MAX_RESOLVERS
        &&& self.attestation_count <= self.resolver_count
        &&& (self.resolution_state is Resolved <==> !(self.final_outcome is Unresolved))
    }

    /// True while the market still accepts trading-phase operations at
    /// time `now`.
    pub open spec fn is_open(self, now: i64) -> bool {
        self.resolution_state is Active && now < self.end_time
    }
}

/// One staking party's resolver record for one market.  At most one record
/// exists per (market, authority) pair, and `has_attested` flips from false
/// to true exactly once.
#[derive(Clone, Copy, Debug, PartialEq, Eq)]
pub struct Resolver {
    /// The staking identity.
    pub authority: u64,
    /// The market this resolver staked for.
    pub market: u64,
    /// Amount staked; at least `MIN_RESOLVER_STAKE`.
    pub stake_amount: u64,
    /// Whether this resolver has submitted its attestation.
    pub has_attested: bool,
    /// Commitment to the private attestation, set once upon attesting.
    pub attestation_commitment: Commitment,
    /// When the stake was placed.
    pub staked_at: i64,
}

impl Resolver {
    /// Well-formedness: the stake meets the minimum, and the attestation
    /// commitment is the zero sentinel exactly until the resolver attests.
    pub open spec fn wf(self) -> bool {
        &&& self.stake_amount >= MIN_RESOLVER_STAKE
        &&& (!self.has_attested ==> self.attestation_commitment.spec_is_zero())
        &&& (self.has_attested ==> !self.attestation_commitment.spec_is_zero())
    }
}

/// True when some record in `s` belongs to `(market_id, authority)`.
pub open spec fn has_resolver(s: Seq<Resolver>, market_id: u64, authority: u64) -> bool {
    exists|i: int|
        0 <= i < s.len() && s[i].market == market_id && s[i].authority == authority
}

/// The index of the record for `(market_id, authority)`; meaningful only
/// when `has_resolver` holds, and then unique under `resolvers_wf`.
pub open spec fn resolver_idx(s: Seq<Resolver>, market_id: u64, authority: u64) -> int {
    choose|i: int| 0 <= i < s.len() && s[i].market == market_id && s[i].authority == authority
}

/// Well-formedness of a collection of resolver records: no two records
/// share a (market, authority) pair, and every record is itself well
/// formed.
pub open spec fn resolvers_wf(s: Seq<Resolver>) -> bool {
    &&& forall|i: int, j: int|
        0 <= i < j < s.len() ==> !(s[i].market == s[j].market && s[i].authority == s[j].authority)
    &&& forall|i: int| 0 <= i < s.len() ==> (#[trigger] s[i]).wf()
}

/// Under `resolvers_wf`, any index holding the pair is the one
/// `resolver_idx` names.
pub proof fn lemma_resolver_idx_unique(s: Seq<Resolver>, market_id: u64, authority: u64, i: int)
    requires
        resolvers_wf(s),
        0 <= i < s.len(),
        s[i].market == market_id,
        s[i].authority == authority,
    ensures
        resolver_idx(s, market_id, authority) == i,
        has_resolver(s, market_id, authority),
{
    assert(has_resolver(s, market_id, authority));
    let j = resolver_idx(s, market_id, authority);
    if i < j {
        assert(!(s[i].market == s[j].market && s[i].authority == s[j].authority));
    } else if j < i {
        assert(!(s[j].market == s[i].market && s[j].authority == s[i].authority));
    }
}

/// The contribution of one record to a market's staked-resolver count.
pub open spec fn staked_step(market_id: u64) -> spec_fn(Resolver, int) -> int {
    |r: Resolver, acc: int| if r.market == market_id { acc + 1 } else { acc }
}

/// The contribution of one record to a market's attested-resolver count.
pub open spec fn attested_step(market_id: u64) -> spec_fn(Resolver, int) -> int {
    |r: Resolver, acc: int| if r.market == market_id && r.has_attested { acc + 1 } else { acc }
}

/// How many records in `s` are staked for the market.
pub open spec fn staked_count(s: Seq<Resolver>, market_id: u64) -> int {
    s.fold_right(staked_step(market_id), 0)
}

/// How many records in `s` have attested for the market.
pub open spec fn attested_count(s: Seq<Resolver>, market_id: u64) -> int {
    s.fold_right(attested_step(market_id), 0)
}

/// The counting steps are additive with non-negative contributions.
proof fn lemma_count_step_props(market_id: u64)
    ensures
        additive(staked_step(market_id)),
        additive(attested_step(market_id)),
        nonneg_step(staked_step(market_id)),
        nonneg_step(attested_step(market_id)),
{
}

/// Pushing a not-yet-attested record for the market raises its staked
/// count by one and leaves its attested count alone; a record of another
/// market changes neither.
pub proof fn lemma_counts_after_push(s: Seq<Resolver>, market_id: u64, r: Resolver)
    ensures
        r.market == market_id ==> staked_count(s.push(r), market_id) == staked_count(s, market_id)
            + 1,
        r.market != market_id ==> staked_count(s.push(r), market_id) == staked_count(s, market_id),
        r.market == market_id && r.has_attested ==> attested_count(s.push(r), market_id)
            == attested_count(s, market_id) + 1,
        !(r.market == market_id && r.has_attested) ==> attested_count(s.push(r), market_id)
            == attested_count(s, market_id),
{
    lemma_count_step_props(market_id);
    lemma_fold_push(s, staked_step(market_id), r);
    lemma_fold_push(s, attested_step(market_id), r);
}

/// Marking the record at `i` as attested, its pair unchanged, raises the
/// market's attested count by one and leaves its staked count alone.
pub proof fn lemma_counts_after_attest(s: Seq<Resolver>, market_id: u64, i: int, r: Resolver)
    requires
        0 <= i < s.len(),
        s[i].market == market_id,
        !s[i].has_attested,
        r.market == market_id,
        r.has_attested,
    ensures
        staked_count(s.update(i, r), market_id) == staked_count(s, market_id),
        attested_count(s.update(i, r), market_id) == attested_count(s, market_id) + 1,
{
    lemma_count_step_props(market_id);
    lemma_fold_update(s, staked_step(market_id), i, r);
    lemma_fold_update(s, attested_step(market_id), i, r);
}

/// At most as many records have attested for a market as are staked for
/// it; and while some staked record has not attested yet, strictly fewer.
pub proof fn lemma_attested_le_staked(s: Seq<Resolver>, market_id: u64)
    ensures
        0 <= attested_count(s, market_id) <= staked_count(s, market_id),
        (exists|i: int|
            0 <= i < s.len() && s[i].market == market_id && !s[i].has_attested) ==> attested_count(
            s,
            market_id,
        ) < staked_count(s, market_id),
    decreases s.len(),
{
    lemma_count_step_props(market_id);
    if s.len() > 0 {
        lemma_attested_le_staked(s.drop_last(), market_id);
        lemma_fold_shift(s.drop_last(), staked_step(market_id), staked_step(market_id)(s.last(), 0));
        lemma_fold_shift(
            s.drop_last(),
            attested_step(market_id),
            attested_step(market_id)(s.last(), 0),
        );
        if exists|i: int| 0 <= i < s.len() && s[i].market == market_id && !s[i].has_attested {
            let i = choose|i: int|
                0 <= i < s.len() && s[i].market == market_id && !s[i].has_attested;
            if i < s.len() - 1 {
                assert(s.drop_last()[i] == s[i]);
            }
        }
    }
}

/// The keyed store of resolver records: the repository that replaces
/// derived per-pair storage.  Its invariant is the data-model rule that at
/// most one record exists per (market, authority) pair.
pub struct ResolverStore {
    pub records: Vec<Resolver>,
}

impl View for ResolverStore {
    type V = Seq<Resolver>;

    open spec fn view(&self) -> Seq<Resolver> {
        self.records@
    }
}

impl ResolverStore {
    /// Well-formedness of the store's records.
    pub open spec fn wf(self) -> bool {
        resolvers_wf(self@)
    }

    /// An empty store.
    pub fn new() -> (r: ResolverStore)
        ensures
            r@ == Seq::<Resolver>::empty(),
            r.wf(),
    {
        let r = ResolverStore { records: Vec::new() };
        assert(r@ =~= Seq::<Resolver>::empty());
        r
    }

    /// Number of records held.
    pub fn len(&self) -> (r: usize)
        ensures
            r == self@.len(),
    {
        self.records.len()
    }

    /// Finds the index of the record for `(market_id, authority)`, if any.
    pub fn find(&self, market_id: u64, authority: u64) -> (r: Option<usize>)
        ensures
            match r {
                Some(i) => i < self@.len() && self@[i as int].market == market_id
                    && self@[i as int].authority == authority,
                None => !has_resolver(self@, market_id, authority),
            },
    {
        let n = self.records.len();
        let mut i: usize = 0;
        while i < n
            invariant
                n == self@.len(),
                i <= n,
                forall|j: int|
                    0 <= j < i ==> !(self@[j].market == market_id && self@[j].authority
                        == authority),
            decreases n - i,
        {
            if self.records[i].market == market_id && self.records[i].authority == authority {
                return Some(i);
            }
            i = i + 1;
        }
        None
    }
}

} // verus!
