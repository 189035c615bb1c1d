//! The computation gateway: the queue/callback protocol between the ledger
//! and the confidential compute collaborator.
//!
//! Queuing a computation records an ephemeral `PendingComputation` under a
//! caller-supplied offset (the computation handle).  At most one
//! computation per market and kind may be outstanding, and a handle is
//! consumed by at most one callback: delivery retires the handle, and a
//! second delivery for the same handle is rejected without any mutation.

use vstd::prelude::*;

use crate::errors::MarketError;

verus! {

/// Which operation a queued computation settles.
#[derive(Clone, Copy, Debug, PartialEq, Eq, Structural)]
pub enum ComputationKind {
    /// A private trade against the CFMM reserves.
    Trade,
    /// A batch auction clearing.
    BatchClear,
    /// A quorum-triggered market resolution.
    Resolution,
}

/// The ephemeral record correlating a queued computation with the market
/// operation waiting on it, keyed by the caller-supplied offset.
#[derive(Clone, Copy, Debug, PartialEq, Eq, Structural)]
pub struct PendingComputation {
    /// The computation handle.
    pub offset: u64,
    /// The market the computation belongs to.
    pub market_id: u64,
    /// The operation kind the result will settle.
    pub kind: ComputationKind,
}

/// What the collaborator reports back for one queued computation.  There is
/// no client-initiated cancel: every computation ends in exactly one of
/// these.
#[derive(Debug)]
pub enum ComputationOutcome<T> {
    /// The computation finished and produced a result payload.
    Success(T),
    /// The computation failed.
    Failure,
    /// The computation was aborted.
    Aborted,
}

/// True when some record in `s` carries this handle.
pub open spec fn gw_has_offset(s: Seq<PendingComputation>, offset: u64) -> bool {
    exists|i: int| 0 <= i < s.len() && s[i].offset == offset
}

/// True when a computation of this kind is outstanding for this market.
pub open spec fn gw_has_kind(s: Seq<PendingComputation>, market_id: u64, kind: ComputationKind) -> bool {
    exists|i: int| 0 <= i < s.len() && s[i].market_id == market_id && s[i].kind == kind
}

/// Well-formedness of the pending set: handles are unique, and no two
/// records share a (market, kind) pair.
pub open spec fn gw_wf(s: Seq<PendingComputation>) -> bool {
    forall|i: int, j: int|
        0 <= i < j < s.len() ==> s[i].offset != s[j].offset && !(s[i].market_id == s[j].market_id
            && s[i].kind == s[j].kind)
}

/// The gateway: owns the pending computations of all markets.
pub struct ComputationGateway {
    pub pending: Vec<PendingComputation>,
}

impl View for ComputationGateway {
    type V = Seq<PendingComputation>;

    open spec fn view(&self) -> Seq<PendingComputation> {
        self.pending@
    }
}

impl ComputationGateway {
    /// Well-formedness of the gateway's pending set.
    pub open spec fn wf(self) -> bool {
        gw_wf(self@)
    }

    /// A gateway with nothing outstanding.
    pub fn new() -> (r: ComputationGateway)
        ensures
            r@ == Seq::<PendingComputation>::empty(),
            r.wf(),
    {
        let r = ComputationGateway { pending: Vec::new() };
        assert(r@ =~= Seq::<PendingComputation>::empty());
        r
    }

    /// Number of outstanding computations.
    pub fn len(&self) -> (r: usize)
        ensures
            r == self@.len(),
    {
        self.pending.len()
    }

    /// Decides whether this handle is outstanding.
    pub fn contains_offset(&self, offset: u64) -> (r: bool)
        ensures
            r == gw_has_offset(self@, offset),
    {
        let n = self.pending.len();
        let mut i: usize = 0;
        while i < n
            invariant
                n == self@.len(),
                i <= n,
                forall|j: int| 0 <= j < i ==> self@[j].offset != offset,
            decreases n - i,
        {
            if self.pending[i].offset == offset {
                return true;
            }
            i = i + 1;
        }
        false
    }

    /// Decides whether a computation of `kind` is outstanding for the
    /// market.
    pub fn contains_kind(&self, market_id: u64, kind: ComputationKind) -> (r: bool)
        ensures
            r == gw_has_kind(self@, market_id, kind),
    {
        let n = self.pending.len();
        let mut i: usize = 0;
        while i < n
            invariant
                n == self@.len(),
                i <= n,
                forall|j: int|
                    0 <= j < i ==> !(self@[j].market_id == market_id && self@[j].kind == kind),
            decreases n - i,
        {
            if self.pending[i].market_id == market_id && self.pending[i].kind == kind {
                return true;
            }
            i = i + 1;
        }
        false
    }

    /// Queues a computation under the caller-supplied handle.  Fails with
    /// `ComputationOutstanding`, changing nothing, when the handle is
    /// already in use or a computation of the same kind is already
    /// outstanding for this market.
    pub fn queue(&mut self, offset: u64, market_id: u64, kind: ComputationKind) -> (r: Result<
        (),
        MarketError,
    >)
        requires
            old(self).wf(),
        ensures
            final(self).wf(),
            gw_has_offset(old(self)@, offset) || gw_has_kind(old(self)@, market_id, kind)
                ==> r == Err::<(), MarketError>(MarketError::ComputationOutstanding) && final(self)@
                == old(self)@,
            !(gw_has_offset(old(self)@, offset) || gw_has_kind(old(self)@, market_id, kind))
                ==> r == Ok::<(), MarketError>(()) && final(self)@ == old(self)@.push(
                (PendingComputation { offset, market_id, kind }),
            ),
    {
        if self.contains_offset(offset) {
            return Err(MarketError::ComputationOutstanding);
        }
        if self.contains_kind(market_id, kind) {
            return Err(MarketError::ComputationOutstanding);
        }
        self.pending.push(PendingComputation { offset, market_id, kind });
        Ok(())
    }

    /// Delivers the callback for a handle: removes and returns the pending
    /// record.  Fails with `UnknownComputation`, changing nothing, when no
    /// record carries the handle — in particular on any second delivery of
    /// an already-retired handle.
    pub fn deliver(&mut self, offset: u64) -> (r: Result<PendingComputation, MarketError>)
        requires
            old(self).wf(),
        ensures
            final(self).wf(),
            !gw_has_offset(old(self)@, offset) ==> r == Err::<PendingComputation, MarketError>(
                MarketError::UnknownComputation,
            ) && final(self)@ == old(self)@,
            gw_has_offset(old(self)@, offset) ==> (exists|i: int|
                0 <= i < old(self)@.len() && old(self)@[i].offset == offset && r == Ok::<
                    PendingComputation,
                    MarketError,
                >(old(self)@[i]) && final(self)@ == old(self)@.remove(i)),
            r matches Ok(p) ==> p.offset == offset && !gw_has_offset(final(self)@, offset),
    {
        let n = self.pending.len();
        let mut i: usize = 0;
        while i < n
            invariant
                self@ == old(self)@,
                gw_wf(self@),
                n == self@.len(),
                i <= n,
                forall|j: int| 0 <= j < i ==> self@[j].offset != offset,
            decreases n - i,
        {
            if self.pending[i].offset == offset {
                let record = self.pending[i];
                let ghost old_view = self@;
                self.pending.remove(i);
                proof {
                    old_view.remove_ensures(i as int);
                    lemma_remove_keeps_wf(old_view, i as int);
                    assert(!gw_has_offset(self@, offset));
                }
                return Ok(record);
            }
            i = i + 1;
        }
        Err(MarketError::UnknownComputation)
    }
}

/// True when the handle is outstanding and belongs to this market and
/// kind.
pub open spec fn gw_handle_ok(
    s: Seq<PendingComputation>,
    offset: u64,
    market_id: u64,
    kind: ComputationKind,
) -> bool {
    exists|i: int|
        0 <= i < s.len() && s[i].offset == offset && s[i].market_id == market_id && s[i].kind
            == kind
}

impl ComputationGateway {
    /// Delivers the callback for a handle that must belong to the given
    /// market and kind.  Fails with `UnknownComputation` when no record
    /// carries the handle — in particular on any second delivery — and
    /// with `Unauthorized` when the record belongs to another market or
    /// kind; either failure changes nothing.  On success the record is
    /// removed: the handle is retired and cannot be delivered again.
    pub fn deliver_expected(
        &mut self,
        offset: u64,
        market_id: u64,
        kind: ComputationKind,
    ) -> (r: Result<PendingComputation, MarketError>)
        requires
            old(self).wf(),
        ensures
            final(self).wf(),
            !gw_has_offset(old(self)@, offset) ==> r == Err::<PendingComputation, MarketError>(
                MarketError::UnknownComputation,
            ),
            gw_has_offset(old(self)@, offset) && !gw_handle_ok(
                old(self)@,
                offset,
                market_id,
                kind,
            ) ==> r == Err::<PendingComputation, MarketError>(MarketError::Unauthorized),
            r matches Err(_) ==> final(self)@ == old(self)@,
            gw_handle_ok(old(self)@, offset, market_id, kind) ==> (r matches Ok(p) && (exists|
                i: int,
            |
                0 <= i < old(self)@.len() && old(self)@[i] == p && final(self)@ == old(
                    self,
                )@.remove(i))),
            r matches Ok(p) ==> p.offset == offset && p.market_id == market_id && p.kind == kind
                && !gw_has_offset(final(self)@, offset) && final(self)@.len() == old(self)@.len()
                - 1,
    {
        let n = self.pending.len();
        let mut i: usize = 0;
        while i < n
            invariant
                self@ == old(self)@,
                gw_wf(self@),
                n == self@.len(),
                i <= n,
                forall|j: int| 0 <= j < i ==> self@[j].offset != offset,
            decreases n - i,
        {
            if self.pending[i].offset == offset {
                let record = self.pending[i];
                if !(record.market_id == market_id && record.kind == kind) {
                    proof {
                        assert forall|k: int|
                            0 <= k < self@.len() && self@[k].offset == offset implies k
                            == i as int by {
                            if k != i as int {
                                if k < i as int {
                                    assert(self@[k].offset != self@[i as int].offset);
                                } else {
                                    assert(self@[i as int].offset != self@[k].offset);
                                }
                            }
                        }
                    }
                    return Err(MarketError::Unauthorized);
                }
                let ghost old_view = self@;
                self.pending.remove(i);
                proof {
                    old_view.remove_ensures(i as int);
                    lemma_remove_keeps_wf(old_view, i as int);
                }
                return Ok(record);
            }
            i = i + 1;
        }
        Err(MarketError::UnknownComputation)
    }
}

/// Removing a record keeps the pending set well formed, and removing the
/// record that carries a handle removes the only one: the handle is retired
/// for good, so a repeated delivery finds nothing.
pub proof fn lemma_remove_keeps_wf(s: Seq<PendingComputation>, k: int)
    requires
        gw_wf(s),
        0 <= k < s.len(),
    ensures
        gw_wf(s.remove(k)),
        !gw_has_offset(s.remove(k), s[k].offset),
        !gw_has_kind(s.remove(k), s[k].market_id, s[k].kind),
{
    s.remove_ensures(k);
    let t = s.remove(k);
    assert forall|i: int, j: int| 0 <= i < j < t.len() implies t[i].offset != t[j].offset && !(
    t[i].market_id == t[j].market_id && t[i].kind == t[j].kind) by {
        let oi = if i < k {
            i
        } else {
            i + 1
        };
        let oj = if j < k {
            j
        } else {
            j + 1
        };
        assert(t[i] == s[oi]);
        assert(t[j] == s[oj]);
    }
    assert forall|i: int| 0 <= i < t.len() implies t[i].offset != s[k].offset && !(t[i].market_id
        == s[k].market_id && t[i].kind == s[k].kind) by {
        let oi = if i < k {
            i
        } else {
            i + 1
        };
        assert(t[i] == s[oi]);
    }
}

} // verus!
