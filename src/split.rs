//! One side of a transaction: a wrapper around one engine split record.
use vstd::prelude::*;

use crate::engine::{EngineCall, RecordKind, Target};
use crate::handle::{EditState, Handle, HandleView};
use crate::reconcile::{CLEARED, RECONCILED};

verus! {

/// One side of a double-entry transaction, posting an amount to an account.
#[derive(Debug)]
pub struct Split {
    handle: Handle,
}

impl View for Split {
    type V = HandleView;

    closed spec fn view(&self) -> HandleView {
        self.handle@
    }
}

impl Split {
    /// What a borrowed wrapper of the record at `ptr` holds.
    pub open spec fn borrowed_view(ptr: u64) -> HandleView {
        HandleView { ptr, owned: false, state: EditState::Committed }
    }

    /// Wraps a split that the engine has just allocated; the wrapper owns it.
    pub fn new(ptr: u64) -> (r: Split)
        requires
            ptr != 0,
        ensures
            r@ == (HandleView { ptr, owned: true, state: EditState::Unattached }),
    {
        Split { handle: Handle::new(ptr) }
    }

    /// Wraps an address that the engine returned, or nothing for null.
    pub fn from_raw(ptr: u64, owned: bool) -> (r: Option<Split>)
        ensures
            r is None <==> ptr == 0,
            r matches Some(a) ==> a@ == (HandleView { owned, ..Split::borrowed_view(ptr) }),
    {
        match Handle::from_raw(ptr, owned) {
            Some(handle) => Some(Split { handle }),
            None => None,
        }
    }

    /// A borrowed wrapper of the record at a non-null address.
    pub fn borrowed(ptr: u64) -> (r: Split)
        requires
            ptr != 0,
        ensures
            r@ == Split::borrowed_view(ptr),
    {
        Split { handle: Handle::borrowed(ptr) }
    }

    /// The record's address.
    pub fn as_ptr(&self) -> (r: u64)
        ensures
            r == self@.ptr,
            r != 0,
    {
        self.handle.as_ptr()
    }

    /// Whether releasing this wrapper destroys the record.
    pub fn is_owned(&self) -> (r: bool)
        ensures
            r == self@.owned,
    {
        self.handle.is_owned()
    }

    /// Marks this split as not owned by this wrapper, once a container
    /// owns its lifetime.
    pub fn mark_unowned(&mut self)
        ensures
            final(self)@ == (HandleView { owned: false, ..old(self)@ }),
    {
        self.handle.mark_unowned();
    }

    /// The calls that releasing this wrapper makes: the destroy for an owned
    /// split, none for a borrowed one.
    pub open spec fn release_plan(ptr: u64, owned: bool) -> Seq<EngineCall> {
        if owned {
            seq![EngineCall::Destroy { kind: RecordKind::Split, target: Target::Existing(ptr) }]
        } else {
            Seq::empty()
        }
    }

    /// The calls that releasing this wrapper makes.
    pub fn drop_calls(&self) -> (r: Vec<EngineCall>)
        ensures
            r@ == Split::release_plan(self@.ptr, self@.owned),
    {
        let ptr = self.as_ptr();
        if self.is_owned() {
            vec![EngineCall::Destroy { kind: RecordKind::Split, target: Target::Existing(ptr) }]
        } else {
            Vec::new()
        }
    }

    /// True for the reconciled state.
    pub fn is_reconciled(state: char) -> (r: bool)
        ensures
            r == (state == RECONCILED),
    {
        state == RECONCILED
    }

    /// True for the cleared state.
    pub fn is_cleared(state: char) -> (r: bool)
        ensures
            r == (state == CLEARED),
    {
        state == CLEARED
    }
}

} // verus!
