//! The transaction state machine.
//!
//! A [`Transaction`] is the unit of atomicity over one session: it begins
//! with a native begin call, accumulates changes on a working view of the
//! session's stores, and either publishes them all at commit or discards
//! them all at abort. A session refuses to begin a second transaction while
//! one is in progress, exactly as the native engine does.
//!
//! A transaction that is dropped without commit or abort never touched the
//! committed stores, so its changes vanish with it; the session is then
//! released with [`FilterEngine::abort_abandoned`], whose effect on the
//! session equals that of an explicit abort
//! ([`lemma_abandoned_matches_abort`]).

use vstd::prelude::*;

use crate::engine::{
    clone_filters, clone_sublayers, filters_view, sublayers_view, EngineV, FilterEngine,
    FilterRecord, FilterRecordV, SubLayerRecord, SubLayerRecordV,
};
use crate::error::{WfpError, STATUS_NO_TXN_IN_PROGRESS, STATUS_TXN_IN_PROGRESS};

verus! {

/// An in-progress transaction: the session's stores as this transaction
/// sees and changes them, unpublished until commit.
pub struct Transaction {
    /// The working view of the filter store.
    pub filters: Vec<FilterRecord>,
    /// The working view of the sublayer store.
    pub sublayers: Vec<SubLayerRecord>,
    /// The id the engine will give the next filter added here.
    pub next_filter_id: u64,
}

/// What a [`Transaction`] holds.
#[verifier::ext_equal]
pub ghost struct TransactionV {
    /// The working view of the filter store.
    pub filters: Seq<FilterRecordV>,
    /// The working view of the sublayer store.
    pub sublayers: Seq<SubLayerRecordV>,
    /// The id the engine will give the next filter added here.
    pub next_filter_id: u64,
}

impl View for Transaction {
    type V = TransactionV;

    open spec fn view(&self) -> TransactionV {
        TransactionV {
            filters: filters_view(self.filters@),
            sublayers: sublayers_view(self.sublayers@),
            next_filter_id: self.next_filter_id,
        }
    }
}

/// How beginning a transaction relates the session before (`e0`) to the
/// session after (`e1`) and the fresh transaction (`t`): the session is
/// unchanged but for the in-progress mark, and the transaction's working
/// view is the committed state.
pub open spec fn begin_post(e0: EngineV, e1: EngineV, t: TransactionV) -> bool {
    &&& e1 == (EngineV { txn_active: true, ..e0 })
    &&& t.filters == e0.filters
    &&& t.sublayers == e0.sublayers
    &&& t.next_filter_id == e0.next_filter_id
}

/// How committing relates the session before (`e0`) to the transaction's
/// working view (`t`) and the session after (`e1`): the working view is
/// published wholesale — every change in it becomes visible together — and
/// the in-progress mark is cleared.
pub open spec fn commit_post(e0: EngineV, t: TransactionV, e1: EngineV) -> bool {
    e1 == (EngineV {
        filters: t.filters,
        sublayers: t.sublayers,
        next_filter_id: t.next_filter_id,
        txn_active: false,
        ..e0
    })
}

/// How aborting relates the session before (`e0`) to the session after
/// (`e1`): the committed stores stand untouched — every change the
/// transaction made is rolled back — and the in-progress mark is cleared.
pub open spec fn abort_post(e0: EngineV, e1: EngineV) -> bool {
    e1 == (EngineV { txn_active: false, ..e0 })
}

impl Transaction {
    /// Begins a transaction on the session.
    ///
    /// Fails with the native in-progress status when the session already
    /// has a transaction in progress, leaving the session unchanged;
    /// otherwise marks the session and hands back a transaction whose
    /// working view is the committed state.
    pub fn new(engine: &mut FilterEngine) -> (r: Result<Transaction, WfpError>)
        ensures
            old(engine)@.txn_active ==> {
                &&& r is Err
                &&& r->Err_0 == WfpError::Os(STATUS_TXN_IN_PROGRESS)
                &&& final(engine)@ == old(engine)@
            },
            !old(engine)@.txn_active ==> {
                &&& r is Ok
                &&& begin_post(old(engine)@, final(engine)@, r.unwrap()@)
            },
    {
        if engine.txn_active {
            return Err(WfpError::Os(STATUS_TXN_IN_PROGRESS));
        }
        engine.txn_active = true;
        let txn = Transaction {
            filters: clone_filters(&engine.filters),
            sublayers: clone_sublayers(&engine.sublayers),
            next_filter_id: engine.next_filter_id,
        };
        proof {
            assert(final(engine)@ =~= (EngineV { txn_active: true, ..old(engine)@ }));
        }
        Ok(txn)
    }

    /// Commits the transaction: publishes its working view as the session's
    /// committed state. Consuming the transaction here is what makes a
    /// second commit of the same transaction unwritable.
    ///
    /// Fails with the native no-transaction status when the session has no
    /// transaction in progress, leaving the session unchanged.
    pub fn commit(self, engine: &mut FilterEngine) -> (r: Result<(), WfpError>)
        ensures
            old(engine)@.txn_active ==> {
                &&& r is Ok
                &&& commit_post(old(engine)@, self@, final(engine)@)
            },
            !old(engine)@.txn_active ==> {
                &&& r is Err
                &&& r->Err_0 == WfpError::Os(STATUS_NO_TXN_IN_PROGRESS)
                &&& final(engine)@ == old(engine)@
            },
    {
        if !engine.txn_active {
            return Err(WfpError::Os(STATUS_NO_TXN_IN_PROGRESS));
        }
        engine.filters = self.filters;
        engine.sublayers = self.sublayers;
        engine.next_filter_id = self.next_filter_id;
        engine.txn_active = false;
        proof {
            assert(final(engine)@ =~= (EngineV {
                filters: self@.filters,
                sublayers: self@.sublayers,
                next_filter_id: self@.next_filter_id,
                txn_active: false,
                ..old(engine)@
            }));
        }
        Ok(())
    }

    /// Aborts the transaction: discards its working view and rolls the
    /// session back to the committed state, which was never touched.
    ///
    /// Fails with the native no-transaction status when the session has no
    /// transaction in progress, leaving the session unchanged.
    pub fn abort(self, engine: &mut FilterEngine) -> (r: Result<(), WfpError>)
        ensures
            old(engine)@.txn_active ==> {
                &&& r is Ok
                &&& abort_post(old(engine)@, final(engine)@)
            },
            !old(engine)@.txn_active ==> {
                &&& r is Err
                &&& r->Err_0 == WfpError::Os(STATUS_NO_TXN_IN_PROGRESS)
                &&& final(engine)@ == old(engine)@
            },
    {
        if !engine.txn_active {
            return Err(WfpError::Os(STATUS_NO_TXN_IN_PROGRESS));
        }
        engine.txn_active = false;
        proof {
            assert(final(engine)@ =~= (EngineV { txn_active: false, ..old(engine)@ }));
        }
        Ok(())
    }
}

impl FilterEngine {
    /// Releases a session whose transaction was dropped without commit or
    /// abort: clears the in-progress mark and nothing else. The dropped
    /// transaction's working view vanished with it, so the committed stores
    /// already stand as an explicit abort would leave them.
    pub fn abort_abandoned(&mut self)
        ensures
            abort_post(old(self)@, final(self)@),
    {
        self.txn_active = false;
        proof {
            assert(final(self)@ =~= (EngineV { txn_active: false, ..old(self)@ }));
        }
    }
}

/// Abandoning a transaction equals aborting it: a session released after
/// its transaction was dropped without commit or abort is in exactly the
/// state an explicit abort leaves; in particular no filter the transaction
/// added is visible in either.
pub proof fn lemma_abandoned_matches_abort(e0: EngineV, e_dropped: EngineV, e_aborted: EngineV)
    requires
        abort_post(e0, e_dropped),
        abort_post(e0, e_aborted),
    ensures
        e_dropped == e_aborted,
        e_dropped.filters == e0.filters,
{
}

/// Transaction atomicity: two filters added inside one transaction are
/// visible together after commit, in the order they were added, and
/// neither is visible after abort.
pub proof fn lemma_transaction_atomicity(
    e0: EngineV,
    e1: EngineV,
    t0: TransactionV,
    t1: TransactionV,
    t2: TransactionV,
    r1: FilterRecordV,
    r2: FilterRecordV,
    e_commit: EngineV,
    e_abort: EngineV,
)
    requires
        begin_post(e0, e1, t0),
        t1.filters == t0.filters.push(r1),
        t2.filters == t1.filters.push(r2),
        commit_post(e1, t2, e_commit),
        abort_post(e1, e_abort),
    ensures
        e_abort.filters == e0.filters,
        e_commit.filters == e0.filters.push(r1).push(r2),
{
}

} // verus!
