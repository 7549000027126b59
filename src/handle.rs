//! The ownership and edit-session state shared by every record wrapper.
use vstd::prelude::*;

use crate::account::Account;
use crate::book::Book;
use crate::engine::{destroy_count, EngineCall, RecordKind, Target};
use crate::split::Split;
use crate::transaction::Transaction;

verus! {

/// Where a record stands in its edit cycle, as far as its wrapper knows.
#[derive(Clone, Copy, Debug, PartialEq, Eq, Structural, Hash)]
pub enum EditState {
    /// Freshly allocated, never edited.
    Unattached,
    /// Between a begin-edit and its commit.
    Editing,
    /// Edits flushed; the record is consistent for readers.
    Committed,
}

/// What a record wrapper holds, seen from contracts.
pub struct HandleView {
    pub ptr: u64,
    pub owned: bool,
    pub state: EditState,
}

/// A wrapper around one engine record, by its non-null address. An owned
/// wrapper is responsible for destroying the record; a borrowed one never is.
#[derive(Debug)]
pub struct Handle {
    ptr: u64,
    owned: bool,
    state: EditState,
}

impl View for Handle {
    type V = HandleView;

    closed spec fn view(&self) -> HandleView {
        HandleView { ptr: self.ptr, owned: self.owned, state: self.state }
    }
}

impl Handle {
    /// A wrapper never holds a null address.
    #[verifier::type_invariant]
    spec fn non_null(self) -> bool {
        self.ptr != 0
    }

    /// Wraps a record that the engine has just allocated; the wrapper owns it.
    pub fn new(ptr: u64) -> (r: Handle)
        requires
            ptr != 0,
        ensures
            r@ == (HandleView { ptr, owned: true, state: EditState::Unattached }),
    {
        Handle { ptr, owned: true, state: EditState::Unattached }
    }

    /// Wraps an address that the engine returned, or nothing for null.
    pub fn from_raw(ptr: u64, owned: bool) -> (r: Option<Handle>)
        ensures
            r is None <==> ptr == 0,
            r matches Some(h) ==> h@ == (HandleView {
                ptr,
                owned,
                state: EditState::Committed,
            }),
    {
        if ptr == 0 {
            None
        } else {
            Some(Handle { ptr, owned, state: EditState::Committed })
        }
    }

    /// A borrowed wrapper of a record at a non-null address.
    pub fn borrowed(ptr: u64) -> (r: Handle)
        requires
            ptr != 0,
        ensures
            r@ == (HandleView { ptr, owned: false, state: EditState::Committed }),
    {
        Handle { ptr, owned: false, state: EditState::Committed }
    }

    /// The record's address.
    pub fn as_ptr(&self) -> (r: u64)
        ensures
            r == self@.ptr,
            r != 0,
    {
        proof {
            use_type_invariant(self);
        }
        self.ptr
    }

    /// Whether this wrapper destroys the record when released.
    pub fn is_owned(&self) -> (r: bool)
        ensures
            r == self@.owned,
    {
        self.owned
    }

    /// The edit state.
    pub fn state(&self) -> (r: EditState)
        ensures
            r == self@.state,
    {
        self.state
    }

    /// Hands the record's lifetime to a container that now owns it.
    pub fn mark_unowned(&mut self)
        ensures
            final(self)@ == (HandleView { owned: false, ..old(self)@ }),
    {
        proof {
            use_type_invariant(&*self);
        }
        self.owned = false;
    }

    /// Starts an edit session on a record of the given kind: the begin-edit
    /// call, or nothing when one is already open.
    pub fn begin_edit(&mut self, kind: RecordKind) -> (r: Option<EngineCall>)
        ensures
            old(self)@.state == EditState::Editing ==> r is None,
            old(self)@.state != EditState::Editing ==> r == Some(
                EngineCall::BeginEdit { kind, target: Target::Existing(old(self)@.ptr) },
            ),
            final(self)@ == (HandleView { state: EditState::Editing, ..old(self)@ }),
    {
        proof {
            use_type_invariant(&*self);
        }
        if self.state == EditState::Editing {
            None
        } else {
            self.state = EditState::Editing;
            Some(EngineCall::BeginEdit { kind, target: Target::Existing(self.ptr) })
        }
    }

    /// Ends an open edit session on a record of the given kind: the commit
    /// call, or nothing when no session is open.
    pub fn commit_edit(&mut self, kind: RecordKind) -> (r: Option<EngineCall>)
        ensures
            old(self)@.state == EditState::Editing ==> r == Some(
                EngineCall::CommitEdit { kind, target: Target::Existing(old(self)@.ptr) },
            ) && final(self)@ == (HandleView { state: EditState::Committed, ..old(self)@ }),
            old(self)@.state != EditState::Editing ==> r is None && final(self)@ == old(self)@,
    {
        proof {
            use_type_invariant(&*self);
        }
        if self.state == EditState::Editing {
            self.state = EditState::Committed;
            Some(EngineCall::CommitEdit { kind, target: Target::Existing(self.ptr) })
        } else {
            None
        }
    }
}

/// Releasing a wrapper destroys its record exactly once while the wrapper
/// owns it, as a freshly allocated wrapper does, and never once ownership has
/// been handed off with `mark_unowned`.
pub proof fn lemma_release_destroys_iff_owned(ptr: u64, engine_open: bool)
    ensures
        destroy_count(Account::release_plan(ptr, true)) == 1,
        destroy_count(Account::release_plan(ptr, false)) == 0,
        destroy_count(Split::release_plan(ptr, true)) == 1,
        destroy_count(Split::release_plan(ptr, false)) == 0,
        destroy_count(Transaction::release_plan(ptr, true, engine_open)) == 1,
        destroy_count(Transaction::release_plan(ptr, false, engine_open)) == 0,
        destroy_count(Book::release_plan(ptr, true)) == 1,
        destroy_count(Book::release_plan(ptr, false)) == 0,
{
    reveal_with_fuel(destroy_count, 4);
    let a = Account::release_plan(ptr, true);
    assert(a.drop_last() =~= seq![a[0]]);
    assert(a.drop_last().drop_last() =~= Seq::<EngineCall>::empty());
    let s = Split::release_plan(ptr, true);
    assert(s.drop_last() =~= Seq::<EngineCall>::empty());
    let b = Book::release_plan(ptr, true);
    assert(b.drop_last() =~= Seq::<EngineCall>::empty());
    let t = Transaction::release_plan(ptr, true, engine_open);
    if engine_open {
        assert(t.drop_last() =~= seq![t[0]]);
        assert(t.drop_last().drop_last() =~= Seq::<EngineCall>::empty());
    } else {
        assert(t.drop_last() =~= seq![t[0], t[1]]);
        assert(t.drop_last().drop_last() =~= seq![t[0]]);
        assert(t.drop_last().drop_last().drop_last() =~= Seq::<EngineCall>::empty());
    }
}

} // verus!
