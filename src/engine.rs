//! The vocabulary of requests that this library hands to the accounting
//! engine. A caller performs the calls of a sequence in order; a call that
//! names [`Target::Created`] refers to a record made earlier in the same
//! sequence.
use vstd::prelude::*;

use crate::numeric::{Guid, Numeric};
use crate::owner::Owner;

verus! {

/// The kinds of engine record that this library wraps.
#[derive(Clone, Copy, Debug, PartialEq, Eq, Structural, Hash)]
pub enum RecordKind {
    Book,
    Session,
    Account,
    Split,
    Transaction,
    Customer,
    Vendor,
    Employee,
    Job,
    Invoice,
    Entry,
    Query,
}

/// The record that a call acts on.
#[derive(Clone, Copy, Debug, PartialEq, Eq, Structural, Hash)]
pub enum Target {
    /// A record that already exists, by its address.
    Existing(u64),
    /// The record made by the n-th `Create` call of the same sequence,
    /// counting from zero.
    Created(usize),
}

/// Text fields that a sequence may set.
#[derive(Clone, Copy, Debug, PartialEq, Eq, Structural, Hash)]
pub enum TextField {
    Description,
    Num,
    Notes,
    Memo,
    Id,
    BillingId,
    Action,
}

/// Rational-valued fields that a sequence may set.
#[derive(Clone, Copy, Debug, PartialEq, Eq, Structural, Hash)]
pub enum AmountField {
    /// A split's amount, in its account's commodity.
    Amount,
    /// A split's value, in its transaction's currency.
    Value,
    /// An entry's invoice price.
    InvPrice,
    /// An entry's quantity.
    Quantity,
}

/// Links from one record to another.
#[derive(Clone, Copy, Debug, PartialEq, Eq, Structural, Hash)]
pub enum LinkField {
    /// The account that a split posts to.
    SplitAccount,
    /// The transaction that a split belongs to.
    SplitParent,
    /// The income account of an invoice entry.
    EntryInvAccount,
}

/// How a session opens its data store.
#[derive(Clone, Copy, Debug, PartialEq, Eq, Structural, Hash)]
pub enum SessionOpenMode {
    NormalOpen,
    NewStore,
    NewOverwrite,
    ReadOnly,
    BreakLock,
}

/// How a query term joins the terms before it.
#[derive(Clone, Copy, Debug, PartialEq, Eq, Structural, Hash)]
pub enum QofQueryOp {
    And,
    Or,
    Nand,
    Nor,
    Xor,
}

/// One request to the engine.
#[derive(Debug)]
pub enum EngineCall {
    /// Allocate a new record of a kind in a book.
    Create { kind: RecordKind, book: u64 },
    /// Open an edit session on a record.
    BeginEdit { kind: RecordKind, target: Target },
    /// Close an edit session, flushing the changes.
    CommitEdit { kind: RecordKind, target: Target },
    /// Destroy a record.
    Destroy { kind: RecordKind, target: Target },
    /// Set a text field.
    SetText { kind: RecordKind, field: TextField, target: Target, text: String },
    /// Set a transaction's posted date from day, month and year.
    SetDate { target: Target, day: i32, month: i32, year: i32 },
    /// Set an invoice's opening time, in seconds.
    SetDateOpened { target: Target, time: i64 },
    /// Set a rational-valued field.
    SetAmount { which: AmountField, target: Target, value: Numeric },
    /// Point a record at another.
    Link { link: LinkField, target: Target, to: Target },
    /// Set an invoice's owner.
    SetOwner { target: Target, owner: Owner },
    /// Attach a session to a data store.
    SessionBegin { session: u64, uri: String, mode: SessionOpenMode },
    /// Load a session's data.
    SessionLoad { session: u64 },
    /// Release a session's data store (locks and the like).
    SessionEnd { session: u64 },
    /// Start the engine; needed once, before anything else.
    InitEngine,
    /// Add a term to a query: the parameter path must lead to this identity.
    /// The path list is handed over to the query, which frees it.
    AddGuidMatch { query: u64, params: Vec<String>, guid: Guid, op: QofQueryOp },
    /// Add a term to a query: the parameter path must lead to this flag.
    /// The path list is handed over to the query, which frees it.
    AddBooleanMatch { query: u64, params: Vec<String>, value: bool, op: QofQueryOp },
}

/// Whether the engine has been started, as far as this process knows.
/// Starting it is idempotent: only the first request yields a call.
#[derive(Debug)]
pub struct EngineInit {
    started: bool,
}

impl View for EngineInit {
    type V = bool;

    closed spec fn view(&self) -> bool {
        self.started
    }
}

impl EngineInit {
    /// An engine that has not been started.
    pub fn new() -> (r: EngineInit)
        ensures
            !r@,
    {
        EngineInit { started: false }
    }

    /// Whether the engine has been started.
    pub fn is_initialized(&self) -> (r: bool)
        ensures
            r == self@,
    {
        self.started
    }

    /// Starts the engine: the start call the first time, nothing after.
    pub fn init(&mut self) -> (r: Option<EngineCall>)
        ensures
            final(self)@,
            !old(self)@ ==> r matches Some(EngineCall::InitEngine),
            old(self)@ ==> r is None,
    {
        if self.started {
            None
        } else {
            self.started = true;
            Some(EngineCall::InitEngine)
        }
    }
}

/// Text that the engine can take: C strings end at the first NUL, so a
/// NUL inside the text cannot be passed on.
pub open spec fn encodable(s: Seq<char>) -> bool {
    !s.contains('\0')
}

/// Whether the engine can take this text.
pub fn is_encodable(s: &str) -> (r: bool)
    ensures
        r == encodable(s@),
{
    let n = s.unicode_len();
    let mut i: usize = 0;
    while i < n
        invariant
            n == s@.len(),
            i <= n,
            forall|j: int| 0 <= j < i ==> #[trigger] s@[j] != '\0',
        decreases n - i,
    {
        if s.get_char(i) == '\0' {
            return false;
        }
        i = i + 1;
    }
    true
}

/// The number of destroy requests in a sequence of calls.
pub open spec fn destroy_count(calls: Seq<EngineCall>) -> nat
    decreases calls.len(),
{
    if calls.len() == 0 {
        0
    } else {
        destroy_count(calls.drop_last()) + if calls.last() is Destroy {
            1nat
        } else {
            0nat
        }
    }
}

/// The number of allocation requests in a sequence of calls.
pub open spec fn create_count(calls: Seq<EngineCall>) -> nat
    decreases calls.len(),
{
    if calls.len() == 0 {
        0
    } else {
        create_count(calls.drop_last()) + if calls.last() is Create {
            1nat
        } else {
            0nat
        }
    }
}

/// Allocation requests add up over concatenation.
pub proof fn lemma_create_count_concat(a: Seq<EngineCall>, b: Seq<EngineCall>)
    ensures
        create_count(a + b) == create_count(a) + create_count(b),
    decreases b.len(),
{
    if b.len() == 0 {
        assert(a + b =~= a);
    } else {
        lemma_create_count_concat(a, b.drop_last());
        assert((a + b).drop_last() =~= a + b.drop_last());
    }
}

} // verus!
