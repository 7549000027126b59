//! A ledger account: a wrapper around one engine account record.
use vstd::prelude::*;

use crate::engine::{EngineCall, RecordKind, Target};
use crate::error::Error;
use crate::handle::{EditState, Handle, HandleView};
use crate::list::{fresh, ListCursor, ListSource};

verus! {

/// Account types, in the order of the engine's codes, starting at zero.
#[allow(non_camel_case_types)]
#[derive(Clone, Copy, Debug, PartialEq, Eq, Structural, Hash)]
pub enum GNCAccountType {
    ACCT_TYPE_BANK,
    ACCT_TYPE_CASH,
    ACCT_TYPE_ASSET,
    ACCT_TYPE_CREDIT,
    ACCT_TYPE_LIABILITY,
    ACCT_TYPE_STOCK,
    ACCT_TYPE_MUTUAL,
    ACCT_TYPE_CURRENCY,
    ACCT_TYPE_INCOME,
    ACCT_TYPE_EXPENSE,
    ACCT_TYPE_EQUITY,
    ACCT_TYPE_RECEIVABLE,
    ACCT_TYPE_PAYABLE,
    ACCT_TYPE_ROOT,
    ACCT_TYPE_TRADING,
    ACCT_TYPE_CHECKING,
    ACCT_TYPE_SAVINGS,
    ACCT_TYPE_MONEYMRKT,
    ACCT_TYPE_CREDITLINE,
}

/// The account types in code order: the type with code `i` stands at `i`.
pub open spec fn account_types() -> Seq<GNCAccountType> {
    seq![
        GNCAccountType::ACCT_TYPE_BANK,
        GNCAccountType::ACCT_TYPE_CASH,
        GNCAccountType::ACCT_TYPE_ASSET,
        GNCAccountType::ACCT_TYPE_CREDIT,
        GNCAccountType::ACCT_TYPE_LIABILITY,
        GNCAccountType::ACCT_TYPE_STOCK,
        GNCAccountType::ACCT_TYPE_MUTUAL,
        GNCAccountType::ACCT_TYPE_CURRENCY,
        GNCAccountType::ACCT_TYPE_INCOME,
        GNCAccountType::ACCT_TYPE_EXPENSE,
        GNCAccountType::ACCT_TYPE_EQUITY,
        GNCAccountType::ACCT_TYPE_RECEIVABLE,
        GNCAccountType::ACCT_TYPE_PAYABLE,
        GNCAccountType::ACCT_TYPE_ROOT,
        GNCAccountType::ACCT_TYPE_TRADING,
        GNCAccountType::ACCT_TYPE_CHECKING,
        GNCAccountType::ACCT_TYPE_SAVINGS,
        GNCAccountType::ACCT_TYPE_MONEYMRKT,
        GNCAccountType::ACCT_TYPE_CREDITLINE,
    ]
}

impl GNCAccountType {
    /// The engine's code for this type.
    pub fn code(&self) -> (r: i32)
        ensures
            0 <= r < account_types().len(),
            account_types()[r as int] == *self,
    {
        match self {
            GNCAccountType::ACCT_TYPE_BANK => 0,
            GNCAccountType::ACCT_TYPE_CASH => 1,
            GNCAccountType::ACCT_TYPE_ASSET => 2,
            GNCAccountType::ACCT_TYPE_CREDIT => 3,
            GNCAccountType::ACCT_TYPE_LIABILITY => 4,
            GNCAccountType::ACCT_TYPE_STOCK => 5,
            GNCAccountType::ACCT_TYPE_MUTUAL => 6,
            GNCAccountType::ACCT_TYPE_CURRENCY => 7,
            GNCAccountType::ACCT_TYPE_INCOME => 8,
            GNCAccountType::ACCT_TYPE_EXPENSE => 9,
            GNCAccountType::ACCT_TYPE_EQUITY => 10,
            GNCAccountType::ACCT_TYPE_RECEIVABLE => 11,
            GNCAccountType::ACCT_TYPE_PAYABLE => 12,
            GNCAccountType::ACCT_TYPE_ROOT => 13,
            GNCAccountType::ACCT_TYPE_TRADING => 14,
            GNCAccountType::ACCT_TYPE_CHECKING => 15,
            GNCAccountType::ACCT_TYPE_SAVINGS => 16,
            GNCAccountType::ACCT_TYPE_MONEYMRKT => 17,
            GNCAccountType::ACCT_TYPE_CREDITLINE => 18,
        }
    }

    /// The type with the given code; an unknown code is an error.
    pub fn from_code(code: i32) -> (r: Result<GNCAccountType, Error>)
        ensures
            0 <= code < account_types().len() ==> r == Ok::<GNCAccountType, Error>(
                account_types()[code as int],
            ),
            !(0 <= code < account_types().len()) ==> r == Err::<GNCAccountType, Error>(
                Error::InvalidAccountType(code),
            ),
    {
        match code {
            0 => Ok(GNCAccountType::ACCT_TYPE_BANK),
            1 => Ok(GNCAccountType::ACCT_TYPE_CASH),
            2 => Ok(GNCAccountType::ACCT_TYPE_ASSET),
            3 => Ok(GNCAccountType::ACCT_TYPE_CREDIT),
            4 => Ok(GNCAccountType::ACCT_TYPE_LIABILITY),
            5 => Ok(GNCAccountType::ACCT_TYPE_STOCK),
            6 => Ok(GNCAccountType::ACCT_TYPE_MUTUAL),
            7 => Ok(GNCAccountType::ACCT_TYPE_CURRENCY),
            8 => Ok(GNCAccountType::ACCT_TYPE_INCOME),
            9 => Ok(GNCAccountType::ACCT_TYPE_EXPENSE),
            10 => Ok(GNCAccountType::ACCT_TYPE_EQUITY),
            11 => Ok(GNCAccountType::ACCT_TYPE_RECEIVABLE),
            12 => Ok(GNCAccountType::ACCT_TYPE_PAYABLE),
            13 => Ok(GNCAccountType::ACCT_TYPE_ROOT),
            14 => Ok(GNCAccountType::ACCT_TYPE_TRADING),
            15 => Ok(GNCAccountType::ACCT_TYPE_CHECKING),
            16 => Ok(GNCAccountType::ACCT_TYPE_SAVINGS),
            17 => Ok(GNCAccountType::ACCT_TYPE_MONEYMRKT),
            18 => Ok(GNCAccountType::ACCT_TYPE_CREDITLINE),
            _ => Err(Error::InvalidAccountType(code)),
        }
    }
}

/// A ledger account, organised in a tree and holding splits in one commodity.
#[derive(Debug)]
pub struct Account {
    handle: Handle,
}

impl View for Account {
    type V = HandleView;

    closed spec fn view(&self) -> HandleView {
        self.handle@
    }
}

impl Account {
    /// What a borrowed wrapper of the record at `ptr` holds.
    pub open spec fn borrowed_view(ptr: u64) -> HandleView {
        HandleView { ptr, owned: false, state: EditState::Committed }
    }

    /// Wraps an account that the engine has just allocated; the wrapper owns it.
    pub fn new(ptr: u64) -> (r: Account)
        requires
            ptr != 0,
        ensures
            r@ == (HandleView { ptr, owned: true, state: EditState::Unattached }),
    {
        Account { handle: Handle::new(ptr) }
    }

    /// Wraps an address that the engine returned, or nothing for null.
    pub fn from_raw(ptr: u64, owned: bool) -> (r: Option<Account>)
        ensures
            r is None <==> ptr == 0,
            r matches Some(a) ==> a@ == (HandleView { owned, ..Account::borrowed_view(ptr) }),
    {
        match Handle::from_raw(ptr, owned) {
            Some(handle) => Some(Account { handle }),
            None => None,
        }
    }

    /// A borrowed wrapper of the record at a non-null address.
    pub fn borrowed(ptr: u64) -> (r: Account)
        requires
            ptr != 0,
        ensures
            r@ == Account::borrowed_view(ptr),
    {
        Account { handle: Handle::borrowed(ptr) }
    }

    /// The record's address.
    pub fn as_ptr(&self) -> (r: u64)
        ensures
            r == self@.ptr,
            r != 0,
    {
        self.handle.as_ptr()
    }

    /// Whether releasing this wrapper destroys the record.
    pub fn is_owned(&self) -> (r: bool)
        ensures
            r == self@.owned,
    {
        self.handle.is_owned()
    }

    /// Marks this account as not owned by this wrapper, once a container
    /// owns its lifetime.
    pub fn mark_unowned(&mut self)
        ensures
            final(self)@ == (HandleView { owned: false, ..old(self)@ }),
    {
        self.handle.mark_unowned();
    }

    /// Begins an edit session: the begin-edit call, or nothing when one is
    /// already open.
    pub fn begin_edit(&mut self) -> (r: Option<EngineCall>)
        ensures
            old(self)@.state == EditState::Editing ==> r is None,
            old(self)@.state != EditState::Editing ==> r == Some(
                EngineCall::BeginEdit { kind: RecordKind::Account, target: Target::Existing(old(self)@.ptr) },
            ),
            final(self)@ == (HandleView { state: EditState::Editing, ..old(self)@ }),
    {
        self.handle.begin_edit(RecordKind::Account)
    }

    /// Commits the open edit session: the commit call, or nothing when no
    /// session is open.
    pub fn commit_edit(&mut self) -> (r: Option<EngineCall>)
        ensures
            old(self)@.state == EditState::Editing ==> r == Some(
                EngineCall::CommitEdit { kind: RecordKind::Account, target: Target::Existing(old(self)@.ptr) },
            ) && final(self)@ == (HandleView { state: EditState::Committed, ..old(self)@ }),
            old(self)@.state != EditState::Editing ==> r is None && final(self)@ == old(self)@,
    {
        self.handle.commit_edit(RecordKind::Account)
    }

    /// The calls that releasing this wrapper makes: for an owned account, a
    /// begin-edit and then the destroy; none for a borrowed one.
    pub open spec fn release_plan(ptr: u64, owned: bool) -> Seq<EngineCall> {
        if owned {
            seq![
                EngineCall::BeginEdit { kind: RecordKind::Account, target: Target::Existing(ptr) },
                EngineCall::Destroy { kind: RecordKind::Account, target: Target::Existing(ptr) },
            ]
        } else {
            Seq::empty()
        }
    }

    /// The calls that releasing this wrapper makes.
    pub fn drop_calls(&self) -> (r: Vec<EngineCall>)
        ensures
            r@ == Account::release_plan(self@.ptr, self@.owned),
    {
        let ptr = self.as_ptr();
        if self.is_owned() {
            vec![
                EngineCall::BeginEdit { kind: RecordKind::Account, target: Target::Existing(ptr) },
                EngineCall::Destroy { kind: RecordKind::Account, target: Target::Existing(ptr) },
            ]
        } else {
            Vec::new()
        }
    }

    /// A walk over the immediate children of this account.
    pub fn children(&self) -> (r: ListCursor)
        ensures
            r.wf(),
            r@ == fresh(ListSource::AccountChildren(self@.ptr)),
    {
        ListCursor::new(ListSource::AccountChildren(self.as_ptr()))
    }

    /// A walk over all descendants of this account, depth first.
    pub fn descendants(&self) -> (r: ListCursor)
        ensures
            r.wf(),
            r@ == fresh(ListSource::AccountDescendants(self@.ptr)),
    {
        ListCursor::new(ListSource::AccountDescendants(self.as_ptr()))
    }

    /// A walk over the splits posted to this account.
    pub fn splits(&self) -> (r: ListCursor)
        ensures
            r.wf(),
            r@ == fresh(ListSource::AccountSplits(self@.ptr)),
    {
        ListCursor::new(ListSource::AccountSplits(self.as_ptr()))
    }
}

} // verus!
