//! The top-level container of all accounting data: a wrapper around one engine book.
use vstd::prelude::*;

use crate::engine::{EngineCall, RecordKind, Target};
use crate::handle::{EditState, Handle, HandleView};

verus! {

/// The top-level container of all accounting data.
#[derive(Debug)]
pub struct Book {
    handle: Handle,
}

impl View for Book {
    type V = HandleView;

    closed spec fn view(&self) -> HandleView {
        self.handle@
    }
}

impl Book {
    /// What a borrowed wrapper of the record at `ptr` holds.
    pub open spec fn borrowed_view(ptr: u64) -> HandleView {
        HandleView { ptr, owned: false, state: EditState::Committed }
    }

    /// Wraps a book that the engine has just allocated; the wrapper owns it.
    pub fn new(ptr: u64) -> (r: Book)
        requires
            ptr != 0,
        ensures
            r@ == (HandleView { ptr, owned: true, state: EditState::Unattached }),
    {
        Book { handle: Handle::new(ptr) }
    }

    /// Wraps an address that the engine returned, or nothing for null.
    pub fn from_raw(ptr: u64, owned: bool) -> (r: Option<Book>)
        ensures
            r is None <==> ptr == 0,
            r matches Some(a) ==> a@ == (HandleView { owned, ..Book::borrowed_view(ptr) }),
    {
        match Handle::from_raw(ptr, owned) {
            Some(handle) => Some(Book { handle }),
            None => None,
        }
    }

    /// A borrowed wrapper of the record at a non-null address.
    pub fn borrowed(ptr: u64) -> (r: Book)
        requires
            ptr != 0,
        ensures
            r@ == Book::borrowed_view(ptr),
    {
        Book { handle: Handle::borrowed(ptr) }
    }

    /// The record's address.
    pub fn as_ptr(&self) -> (r: u64)
        ensures
            r == self@.ptr,
            r != 0,
    {
        self.handle.as_ptr()
    }

    /// Whether releasing this wrapper destroys the record.
    pub fn is_owned(&self) -> (r: bool)
        ensures
            r == self@.owned,
    {
        self.handle.is_owned()
    }

    /// Marks this book as not owned by this wrapper, once a container
    /// owns its lifetime.
    pub fn mark_unowned(&mut self)
        ensures
            final(self)@ == (HandleView { owned: false, ..old(self)@ }),
    {
        self.handle.mark_unowned();
    }

    /// The calls that releasing this wrapper makes: the destroy, which takes
    /// every record of the book with it, for an owned book; none for a
    /// borrowed one.
    pub open spec fn release_plan(ptr: u64, owned: bool) -> Seq<EngineCall> {
        if owned {
            seq![EngineCall::Destroy { kind: RecordKind::Book, target: Target::Existing(ptr) }]
        } else {
            Seq::empty()
        }
    }

    /// The calls that releasing this wrapper makes.
    pub fn drop_calls(&self) -> (r: Vec<EngineCall>)
        ensures
            r@ == Book::release_plan(self@.ptr, self@.owned),
    {
        let ptr = self.as_ptr();
        if self.is_owned() {
            vec![EngineCall::Destroy { kind: RecordKind::Book, target: Target::Existing(ptr) }]
        } else {
            Vec::new()
        }
    }
}

} // verus!
