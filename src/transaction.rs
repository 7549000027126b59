//! A double-entry transaction: a wrapper around one engine transaction record.
use vstd::prelude::*;

use crate::engine::{EngineCall, RecordKind, Target};
use crate::handle::{EditState, Handle, HandleView};
use crate::list::{fresh, ListCursor, ListSource};

verus! {

/// A double-entry transaction: splits that must sum to zero, with a date and description.
#[derive(Debug)]
pub struct Transaction {
    handle: Handle,
}

impl View for Transaction {
    type V = HandleView;

    closed spec fn view(&self) -> HandleView {
        self.handle@
    }
}

impl Transaction {
    /// What a borrowed wrapper of the record at `ptr` holds.
    pub open spec fn borrowed_view(ptr: u64) -> HandleView {
        HandleView { ptr, owned: false, state: EditState::Committed }
    }

    /// Wraps a transaction that the engine has just allocated; the wrapper owns it.
    pub fn new(ptr: u64) -> (r: Transaction)
        requires
            ptr != 0,
        ensures
            r@ == (HandleView { ptr, owned: true, state: EditState::Unattached }),
    {
        Transaction { handle: Handle::new(ptr) }
    }

    /// Wraps an address that the engine returned, or nothing for null.
    pub fn from_raw(ptr: u64, owned: bool) -> (r: Option<Transaction>)
        ensures
            r is None <==> ptr == 0,
            r matches Some(a) ==> a@ == (HandleView { owned, ..Transaction::borrowed_view(ptr) }),
    {
        match Handle::from_raw(ptr, owned) {
            Some(handle) => Some(Transaction { handle }),
            None => None,
        }
    }

    /// A borrowed wrapper of the record at a non-null address.
    pub fn borrowed(ptr: u64) -> (r: Transaction)
        requires
            ptr != 0,
        ensures
            r@ == Transaction::borrowed_view(ptr),
    {
        Transaction { handle: Handle::borrowed(ptr) }
    }

    /// The record's address.
    pub fn as_ptr(&self) -> (r: u64)
        ensures
            r == self@.ptr,
            r != 0,
    {
        self.handle.as_ptr()
    }

    /// Whether releasing this wrapper destroys the record.
    pub fn is_owned(&self) -> (r: bool)
        ensures
            r == self@.owned,
    {
        self.handle.is_owned()
    }

    /// Marks this transaction as not owned by this wrapper, once a container
    /// owns its lifetime.
    pub fn mark_unowned(&mut self)
        ensures
            final(self)@ == (HandleView { owned: false, ..old(self)@ }),
    {
        self.handle.mark_unowned();
    }

    /// Begins an edit session: the begin-edit call, or nothing when one is
    /// already open.
    pub fn begin_edit(&mut self) -> (r: Option<EngineCall>)
        ensures
            old(self)@.state == EditState::Editing ==> r is None,
            old(self)@.state != EditState::Editing ==> r == Some(
                EngineCall::BeginEdit { kind: RecordKind::Transaction, target: Target::Existing(old(self)@.ptr) },
            ),
            final(self)@ == (HandleView { state: EditState::Editing, ..old(self)@ }),
    {
        self.handle.begin_edit(RecordKind::Transaction)
    }

    /// Commits the open edit session: the commit call, or nothing when no
    /// session is open.
    pub fn commit_edit(&mut self) -> (r: Option<EngineCall>)
        ensures
            old(self)@.state == EditState::Editing ==> r == Some(
                EngineCall::CommitEdit { kind: RecordKind::Transaction, target: Target::Existing(old(self)@.ptr) },
            ) && final(self)@ == (HandleView { state: EditState::Committed, ..old(self)@ }),
            old(self)@.state != EditState::Editing ==> r is None && final(self)@ == old(self)@,
    {
        self.handle.commit_edit(RecordKind::Transaction)
    }

    /// The calls that releasing this wrapper makes. For an owned transaction:
    /// a begin-edit unless the engine reports it open already, the destroy,
    /// and a commit. None for a borrowed one.
    pub open spec fn release_plan(ptr: u64, owned: bool, engine_open: bool) -> Seq<EngineCall> {
        if owned {
            let begin: Seq<EngineCall> = if engine_open {
                Seq::empty()
            } else {
                seq![EngineCall::BeginEdit { kind: RecordKind::Transaction, target: Target::Existing(ptr) }]
            };
            begin + seq![
                EngineCall::Destroy { kind: RecordKind::Transaction, target: Target::Existing(ptr) },
                EngineCall::CommitEdit { kind: RecordKind::Transaction, target: Target::Existing(ptr) },
            ]
        } else {
            Seq::empty()
        }
    }

    /// The calls that releasing this wrapper makes, given whether the engine
    /// reports the transaction open for editing.
    pub fn drop_calls(&self, engine_open: bool) -> (r: Vec<EngineCall>)
        ensures
            r@ == Transaction::release_plan(self@.ptr, self@.owned, engine_open),
    {
        let ptr = self.as_ptr();
        let mut calls: Vec<EngineCall> = Vec::new();
        if self.is_owned() {
            if !engine_open {
                calls.push(EngineCall::BeginEdit { kind: RecordKind::Transaction, target: Target::Existing(ptr) });
            }
            calls.push(EngineCall::Destroy { kind: RecordKind::Transaction, target: Target::Existing(ptr) });
            calls.push(EngineCall::CommitEdit { kind: RecordKind::Transaction, target: Target::Existing(ptr) });
        }
        proof {
            assert(calls@ =~= Transaction::release_plan(self@.ptr, self@.owned, engine_open));
        }
        calls
    }

    /// A walk over the splits of this transaction.
    pub fn splits(&self) -> (r: ListCursor)
        ensures
            r.wf(),
            r@ == fresh(ListSource::TransactionSplits(self@.ptr)),
    {
        ListCursor::new(ListSource::TransactionSplits(self.as_ptr()))
    }
}

} // verus!
