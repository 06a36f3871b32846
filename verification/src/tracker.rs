//! The open transaction of each session.

use crate::statement::ObservedView;
use std::collections::HashMap;
use vstd::prelude::*;
use vstd::std_specs::hash::*;

verus! {

/// The transaction that `session_id` has open in `open`, if it has one.
pub open spec fn tag(open: Map<u32, u128>, session_id: u32) -> Option<u128> {
    if open.contains_key(session_id) {
        Some(open[session_id])
    } else {
        None
    }
}

/// The open transactions after an observation: `BEGIN` gives the session the
/// transaction `txn` in place of any it had, `COMMIT` takes the session's
/// transaction away, and nothing else changes anything.
pub open spec fn track(open: Map<u32, u128>, observed: ObservedView, txn: u128) -> Map<u32, u128> {
    match observed {
        ObservedView::Begin { session_id } => open.insert(session_id, txn),
        ObservedView::Commit { session_id } => open.remove(session_id),
        _ => open,
    }
}

/// A `COMMIT` of a session that has no transaction open changes nothing.
pub proof fn law_commit_without_begin_changes_nothing(
    open: Map<u32, u128>,
    session_id: u32,
    txn: u128,
)
    requires
        !open.contains_key(session_id),
    ensures
        track(open, ObservedView::Commit { session_id }, txn) == open,
        forall|other: u32|
            tag(track(open, ObservedView::Commit { session_id }, txn), other) == tag(open, other),
{
    assert(open.remove(session_id) =~= open);
}

/// Which transaction each session has open. A session has at most one; the
/// tracker is a map from session to transaction.
pub struct TransactionTracker {
    open: HashMap<u32, u128>,
}

impl View for TransactionTracker {
    type V = Map<u32, u128>;

    closed spec fn view(&self) -> Map<u32, u128> {
        self.open@
    }
}

impl TransactionTracker {
    /// A tracker in which no session has a transaction open.
    pub fn new() -> (tracker: Self)
        ensures
            tracker@ == Map::<u32, u128>::empty(),
    {
        TransactionTracker { open: HashMap::new() }
    }

    /// Opens transaction `txn` for `session_id`. A transaction that the
    /// session still had open is forgotten: the last one wins.
    pub fn begin(&mut self, session_id: u32, txn: u128)
        ensures
            final(self)@ == old(self)@.insert(session_id, txn),
    {
        broadcast use group_hash_axioms;

        self.open.insert(session_id, txn);
    }

    /// Closes the transaction of `session_id`. Where the session has none
    /// open, nothing changes.
    pub fn commit(&mut self, session_id: u32)
        ensures
            final(self)@ == old(self)@.remove(session_id),
            !old(self)@.contains_key(session_id) ==> final(self)@ == old(self)@,
    {
        broadcast use group_hash_axioms;

        self.open.remove(&session_id);
        assert(!old(self)@.contains_key(session_id) ==> old(self)@.remove(session_id) =~= old(
            self,
        )@);
    }

    /// The transaction that `session_id` has open, if it has one.
    pub fn lookup(&self, session_id: u32) -> (txn: Option<u128>)
        ensures
            txn == tag(self@, session_id),
    {
        broadcast use group_hash_axioms;

        match self.open.get(&session_id) {
            Some(txn) => Some(*txn),
            None => None,
        }
    }
}

} // verus!
