//! Walking a list that the engine returns: one cell read at a time, never
//! past the first null link, copying each element's address into a sequence
//! that the caller owns. The walk frees nothing.
use vstd::prelude::*;

use crate::account::Account;
use crate::handle::HandleView;
use crate::split::Split;
use crate::transaction::Transaction;

verus! {

/// The engine list that a walk reads.
#[derive(Clone, Copy, Debug, PartialEq, Eq, Structural, Hash)]
pub enum ListSource {
    /// The immediate children of an account.
    AccountChildren(u64),
    /// Every descendant of an account, depth first.
    AccountDescendants(u64),
    /// The splits posted to an account.
    AccountSplits(u64),
    /// The splits of a transaction.
    TransactionSplits(u64),
    /// The results of running a query.
    QueryResults(u64),
    /// The entries of a tax table.
    TaxTableEntries(u64),
}

impl ListSource {
    /// Whether the list handed out is a fresh copy that the caller frees
    /// once walked (an account's children and descendants). The other lists
    /// belong to the engine, which still needs them: they are never freed
    /// here.
    pub fn caller_owns_cells(&self) -> (r: bool)
        ensures
            r == (self is AccountChildren || self is AccountDescendants),
    {
        match self {
            ListSource::AccountChildren(_) => true,
            ListSource::AccountDescendants(_) => true,
            _ => false,
        }
    }
}

/// One list cell as the engine holds it: an element address and the address
/// of the next cell, null at the end.
#[derive(Clone, Copy, Debug, PartialEq, Eq, Structural, Hash)]
pub struct ListCell {
    pub data: u64,
    pub next: u64,
}

/// What the walk needs the engine to read next.
#[derive(Clone, Copy, Debug, PartialEq, Eq, Structural, Hash)]
pub enum ListRead {
    /// Ask for the list itself: the address of its first cell.
    Head(ListSource),
    /// Read the cell at an address.
    Cell(u64),
}

/// The state of a walk, seen from contracts.
pub struct CursorView {
    pub source: ListSource,
    pub started: bool,
    pub at: u64,
    pub items: Seq<u64>,
}

/// A walk that has not read anything yet.
pub open spec fn fresh(source: ListSource) -> CursorView {
    CursorView { source, started: false, at: 0, items: Seq::empty() }
}

/// The walk once the engine has given the list's first cell.
pub open spec fn with_head(v: CursorView, head: u64) -> CursorView {
    CursorView { started: true, at: head, items: Seq::empty(), ..v }
}

/// The walk once the engine has given the cell at `v.at`: a non-null element
/// is kept, and the walk moves to the next cell.
pub open spec fn step(v: CursorView, cell: ListCell) -> CursorView {
    CursorView {
        at: cell.next,
        items: if cell.data != 0 {
            v.items.push(cell.data)
        } else {
            v.items
        },
        ..v
    }
}

/// The non-null elements of the first `fuel` cells of a list that starts at
/// `p`, in list order, where `cells` gives the cell at each address.
pub open spec fn walk(cells: spec_fn(u64) -> ListCell, p: u64, fuel: nat) -> Seq<u64>
    decreases fuel,
{
    if fuel == 0 || p == 0 {
        Seq::empty()
    } else {
        let c = cells(p);
        let first: Seq<u64> = if c.data != 0 {
            seq![c.data]
        } else {
            Seq::empty()
        };
        first + walk(cells, c.next, (fuel - 1) as nat)
    }
}

/// A walk that is given, up to `fuel` times, the cell at its position.
pub open spec fn run(v: CursorView, cells: spec_fn(u64) -> ListCell, fuel: nat) -> CursorView
    decreases fuel,
{
    if fuel == 0 || v.at == 0 {
        v
    } else {
        run(step(v, cells(v.at)), cells, (fuel - 1) as nat)
    }
}

/// A started walk keeps what it has and adds the list's elements from its
/// position on, in order.
pub proof fn lemma_run_appends(v: CursorView, cells: spec_fn(u64) -> ListCell, fuel: nat)
    ensures
        run(v, cells, fuel).items == v.items + walk(cells, v.at, fuel),
        run(v, cells, fuel).source == v.source,
    decreases fuel,
{
    if fuel == 0 || v.at == 0 {
        assert(v.items + Seq::<u64>::empty() =~= v.items);
    } else {
        let c = cells(v.at);
        let w = step(v, c);
        lemma_run_appends(w, cells, (fuel - 1) as nat);
        let first: Seq<u64> = if c.data != 0 {
            seq![c.data]
        } else {
            Seq::empty()
        };
        assert(w.items =~= v.items + first);
        assert(v.items + first + walk(cells, c.next, (fuel - 1) as nat) =~= v.items + (first + walk(
            cells,
            c.next,
            (fuel - 1) as nat,
        )));
    }
}

/// Every walk of the same list, whether fresh or restarted, collects the
/// list's non-null elements in list order; so two walks from the same head
/// over the same cells collect the same elements.
pub proof fn lemma_walk_in_list_order(
    source: ListSource,
    cells: spec_fn(u64) -> ListCell,
    head: u64,
    fuel: nat,
)
    ensures
        run(with_head(fresh(source), head), cells, fuel).items == walk(cells, head, fuel),
        head == 0 ==> run(with_head(fresh(source), head), cells, fuel).items.len() == 0,
{
    lemma_run_appends(with_head(fresh(source), head), cells, fuel);
    assert(Seq::<u64>::empty() + walk(cells, head, fuel) =~= walk(cells, head, fuel));
}

/// A walk over an engine list.
#[derive(Debug)]
pub struct ListCursor {
    source: ListSource,
    started: bool,
    at: u64,
    items: Vec<u64>,
}

impl View for ListCursor {
    type V = CursorView;

    closed spec fn view(&self) -> CursorView {
        CursorView { source: self.source, started: self.started, at: self.at, items: self.items@ }
    }
}

impl ListCursor {
    /// Every collected element is a non-null address.
    pub closed spec fn wf(&self) -> bool {
        forall|i: int| 0 <= i < self.items@.len() ==> #[trigger] self.items@[i] != 0
    }

    /// A walk over a list that has not been asked for yet.
    pub fn new(source: ListSource) -> (r: ListCursor)
        ensures
            r@ == fresh(source),
            r.wf(),
    {
        ListCursor { source, started: false, at: 0, items: Vec::new() }
    }

    /// The list being walked.
    pub fn source(&self) -> (r: ListSource)
        ensures
            r == self@.source,
    {
        self.source
    }

    /// What to read next: the list's head, the cell at the current
    /// position, or nothing once a null link has been reached.
    pub fn next_read(&self) -> (r: Option<ListRead>)
        ensures
            !self@.started ==> r == Some(ListRead::Head(self@.source)),
            self@.started && self@.at == 0 ==> r is None,
            self@.started && self@.at != 0 ==> r == Some(ListRead::Cell(self@.at)),
    {
        if !self.started {
            Some(ListRead::Head(self.source))
        } else if self.at == 0 {
            None
        } else {
            Some(ListRead::Cell(self.at))
        }
    }

    /// True once the walk has reached a null link.
    pub fn is_done(&self) -> (r: bool)
        ensures
            r == (self@.started && self@.at == 0),
    {
        self.started && self.at == 0
    }

    /// Takes the address of the list's first cell, null for an empty list.
    pub fn on_head(&mut self, head: u64)
        requires
            !old(self)@.started,
        ensures
            final(self)@ == with_head(old(self)@, head),
            final(self).wf(),
    {
        self.started = true;
        self.at = head;
        self.items = Vec::new();
    }

    /// Takes the cell at the current position.
    pub fn on_cell(&mut self, cell: ListCell)
        requires
            old(self).wf(),
            old(self)@.started,
            old(self)@.at != 0,
        ensures
            final(self)@ == step(old(self)@, cell),
            final(self).wf(),
    {
        if cell.data != 0 {
            self.items.push(cell.data);
        }
        self.at = cell.next;
        proof {
            assert(forall|i: int|
                0 <= i < self.items@.len() ==> #[trigger] self.items@[i] != 0);
        }
    }

    /// Starts over: the list is asked for again, since the engine may have
    /// changed it since the last walk.
    pub fn restart(&mut self)
        ensures
            final(self)@ == fresh(old(self)@.source),
            final(self).wf(),
    {
        self.started = false;
        self.at = 0;
        self.items = Vec::new();
    }

    /// The element addresses collected so far, in list order.
    pub fn items(&self) -> (r: Vec<u64>)
        ensures
            r@ == self@.items,
    {
        self.items.clone()
    }

    /// The collected elements as borrowed split wrappers.
    pub fn splits(&self) -> (r: Vec<Split>)
        requires
            self.wf(),
        ensures
            r@.len() == self@.items.len(),
            forall|i: int|
                0 <= i < r@.len() ==> #[trigger] r@[i]@ == Split::borrowed_view(self@.items[i]),
    {
        let mut out: Vec<Split> = Vec::new();
        let mut i: usize = 0;
        while i < self.items.len()
            invariant
                i <= self.items@.len(),
                out@.len() == i,
                forall|j: int| 0 <= j < self.items@.len() ==> #[trigger] self.items@[j] != 0,
                forall|j: int|
                    0 <= j < i ==> #[trigger] out@[j]@ == Split::borrowed_view(self.items@[j]),
            decreases self.items@.len() - i,
        {
            out.push(Split::borrowed(self.items[i]));
            i = i + 1;
        }
        out
    }

    /// The collected elements as borrowed account wrappers.
    pub fn accounts(&self) -> (r: Vec<Account>)
        requires
            self.wf(),
        ensures
            r@.len() == self@.items.len(),
            forall|i: int|
                0 <= i < r@.len() ==> #[trigger] r@[i]@ == Account::borrowed_view(self@.items[i]),
    {
        let mut out: Vec<Account> = Vec::new();
        let mut i: usize = 0;
        while i < self.items.len()
            invariant
                i <= self.items@.len(),
                out@.len() == i,
                forall|j: int| 0 <= j < self.items@.len() ==> #[trigger] self.items@[j] != 0,
                forall|j: int|
                    0 <= j < i ==> #[trigger] out@[j]@ == Account::borrowed_view(self.items@[j]),
            decreases self.items@.len() - i,
        {
            out.push(Account::borrowed(self.items[i]));
            i = i + 1;
        }
        out
    }

    /// The collected elements as borrowed transaction wrappers.
    pub fn transactions(&self) -> (r: Vec<Transaction>)
        requires
            self.wf(),
        ensures
            r@.len() == self@.items.len(),
            forall|i: int|
                0 <= i < r@.len() ==> #[trigger] r@[i]@ == Transaction::borrowed_view(
                    self@.items[i],
                ),
    {
        let mut out: Vec<Transaction> = Vec::new();
        let mut i: usize = 0;
        while i < self.items.len()
            invariant
                i <= self.items@.len(),
                out@.len() == i,
                forall|j: int| 0 <= j < self.items@.len() ==> #[trigger] self.items@[j] != 0,
                forall|j: int|
                    0 <= j < i ==> #[trigger] out@[j]@ == Transaction::borrowed_view(
                        self.items@[j],
                    ),
            decreases self.items@.len() - i,
        {
            out.push(Transaction::borrowed(self.items[i]));
            i = i + 1;
        }
        out
    }
}

} // verus!
