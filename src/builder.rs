//! Fluent construction of balanced transactions and of invoices. A builder
//! validates everything first and then yields the engine calls that create
//! the records; a failed build yields no call at all.
use vstd::prelude::*;

use crate::account::Account;
use crate::book::Book;
use crate::engine::{
    create_count, lemma_create_count_concat, encodable, is_encodable, AmountField, EngineCall, LinkField, RecordKind, Target, TextField,
};
use crate::error::Error;
use crate::numeric::{checked_lcm, divides, lcm_spec, lemma_lcm_divisible, Numeric};
use crate::owner::Owner;

verus! {

/// An intended split: an account, a signed amount, and an optional memo.
#[derive(Debug)]
pub struct SplitDraft {
    pub account: u64,
    pub amount: Numeric,
    pub memo: Option<String>,
}

/// Builder for a transaction with splits.
#[derive(Debug)]
pub struct TransactionBuilder {
    pub book: u64,
    pub description: Option<String>,
    pub num: Option<String>,
    pub notes: Option<String>,
    /// Day, month and year.
    pub date_posted: Option<(i32, i32, i32)>,
    pub currency_mnemonic: Option<String>,
    pub splits: Vec<SplitDraft>,
}

/// Optional text is absent or encodable.
pub open spec fn opt_encodable(t: Option<String>) -> bool {
    t matches Some(s) ==> encodable(s@)
}

/// The least common multiple of 1 and the first `n` denominators.
pub open spec fn common_denom(drafts: Seq<SplitDraft>, n: int) -> int
    decreases n,
{
    if n <= 0 {
        1
    } else {
        lcm_spec(common_denom(drafts, n - 1), drafts[n - 1].amount.denom as int)
    }
}

/// Every denominator is non-zero and the common denominator of every prefix
/// fits in 64 bits.
pub open spec fn denominators_ok(drafts: Seq<SplitDraft>) -> bool {
    forall|k: int|
        0 <= k < drafts.len() ==> #[trigger] drafts[k].amount.denom != 0 && common_denom(
            drafts,
            k + 1,
        ) <= i64::MAX
}

/// The factor that brings a fraction over `d` to one over `l`: `l / d`,
/// rounded toward zero.
pub open spec fn scale_factor(l: int, d: int) -> int {
    if d < 0 {
        -(l / -d)
    } else {
        l / d
    }
}

/// A draft's numerator over the denominator `l`.
pub open spec fn scaled(d: SplitDraft, l: int) -> int {
    d.amount.num * scale_factor(l, d.amount.denom as int)
}

/// The sum of the first `n` scaled numerators.
pub open spec fn scaled_sum(drafts: Seq<SplitDraft>, l: int, n: int) -> int
    decreases n,
{
    if n <= 0 {
        0
    } else {
        scaled_sum(drafts, l, n - 1) + scaled(drafts[n - 1], l)
    }
}

/// Every scaled numerator and every running total fits in 64 bits.
pub open spec fn sums_fit(drafts: Seq<SplitDraft>, l: int) -> bool {
    forall|k: int|
        0 <= k < drafts.len() ==> i64::MIN <= #[trigger] scaled(drafts[k], l) <= i64::MAX
            && i64::MIN <= scaled_sum(drafts, l, k + 1) <= i64::MAX
}

/// Divisibility carries over: a divisor of a divisor of `c` divides `c`.
proof fn lemma_divides_trans(a: int, b: int, c: int)
    requires
        divides(a, b),
        divides(b, c),
    ensures
        divides(a, c),
{
    let k1 = choose|k: int| b == #[trigger] (a * k);
    let k2 = choose|k: int| c == #[trigger] (b * k);
    assert(c == a * (k1 * k2)) by (nonlinear_arith)
        requires
            b == a * k1,
            c == b * k2,
    ;
}

/// With non-zero denominators, the common denominator of a prefix is
/// positive and a multiple of each denominator in it.
proof fn lemma_common_denom_multiple(drafts: Seq<SplitDraft>, n: int)
    requires
        0 <= n <= drafts.len(),
        forall|k: int| 0 <= k < n ==> #[trigger] drafts[k].amount.denom != 0,
    ensures
        common_denom(drafts, n) > 0,
        forall|k: int|
            0 <= k < n ==> divides(#[trigger] drafts[k].amount.denom as int, common_denom(drafts, n)),
    decreases n,
{
    if n > 0 {
        lemma_common_denom_multiple(drafts, n - 1);
        let prev = common_denom(drafts, n - 1);
        let d = drafts[n - 1].amount.denom as int;
        lemma_lcm_divisible(prev, d);
        assert forall|k: int|
            0 <= k < n implies divides(#[trigger] drafts[k].amount.denom as int, common_denom(drafts, n)) by {
            if k < n - 1 {
                lemma_divides_trans(drafts[k].amount.denom as int, prev, common_denom(drafts, n));
            }
        }
    }
}

/// Bringing a draft over the common denominator is exact: the scaled
/// numerator over the common denominator is the draft's own fraction. So the
/// scaled numerators sum to zero exactly when the drafts' fractions do.
pub proof fn lemma_scaling_is_exact(drafts: Seq<SplitDraft>, k: int)
    requires
        0 <= k < drafts.len(),
        forall|j: int| 0 <= j < drafts.len() ==> #[trigger] drafts[j].amount.denom != 0,
    ensures
        scaled(drafts[k], total_denom(drafts)) * drafts[k].amount.denom == drafts[k].amount.num
            * total_denom(drafts),
{
    let l = common_denom(drafts, drafts.len() as int);
    lemma_common_denom_multiple(drafts, drafts.len() as int);
    let d = drafts[k].amount.denom as int;
    let num = drafts[k].amount.num as int;
    assert(divides(d, l));
    let q = choose|q: int| l == #[trigger] (d * q);
    if d > 0 {
        vstd::arithmetic::div_mod::lemma_div_multiples_vanish(q, d);
        assert(scale_factor(l, d) == q);
    } else {
        assert(l == (-d) * (-q)) by (nonlinear_arith)
            requires
                l == d * q,
        ;
        vstd::arithmetic::div_mod::lemma_div_multiples_vanish(-q, -d);
        assert(scale_factor(l, d) == q);
    }
    assert(num * q * d == num * l) by (nonlinear_arith)
        requires
            l == d * q,
    ;
}

/// The least common multiple of all denominators.
pub open spec fn total_denom(drafts: Seq<SplitDraft>) -> int {
    common_denom(drafts, drafts.len() as int)
}

/// The sum of all numerators brought over the common denominator: zero
/// exactly when the drafts balance.
pub open spec fn residual(drafts: Seq<SplitDraft>) -> int {
    scaled_sum(drafts, total_denom(drafts), drafts.len() as int)
}

/// The balance check stays within 64 bits: no zero denominator, and every
/// partial common denominator, scaled numerator and running total fits.
pub open spec fn arithmetic_fits(drafts: Seq<SplitDraft>) -> bool {
    denominators_ok(drafts) && sums_fit(drafts, total_denom(drafts))
}

/// A text call for an optional value.
pub open spec fn text_call(
    kind: RecordKind,
    field: TextField,
    target: Target,
    t: Option<String>,
) -> Seq<EngineCall> {
    match t {
        Some(text) => seq![EngineCall::SetText { kind, field, target, text }],
        None => Seq::empty(),
    }
}

/// The calls that create the `i`-th split of a transaction, which is the
/// record made first.
pub open spec fn split_plan(book: u64, i: int, d: SplitDraft) -> Seq<EngineCall> {
    let me = Target::Created((i + 1) as usize);
    seq![
        EngineCall::Create { kind: RecordKind::Split, book },
        EngineCall::Link { link: LinkField::SplitAccount, target: me, to: Target::Existing(d.account) },
        EngineCall::Link { link: LinkField::SplitParent, target: me, to: Target::Created(0) },
        EngineCall::SetAmount { which: AmountField::Amount, target: me, value: d.amount },
        EngineCall::SetAmount { which: AmountField::Value, target: me, value: d.amount },
    ] + text_call(RecordKind::Split, TextField::Memo, me, d.memo)
}

/// The calls that create the first `n` splits.
pub open spec fn splits_plan(book: u64, drafts: Seq<SplitDraft>, n: int) -> Seq<EngineCall>
    decreases n,
{
    if n <= 0 {
        Seq::empty()
    } else {
        splits_plan(book, drafts, n - 1) + split_plan(book, n - 1, drafts[n - 1])
    }
}

/// The calls that set a transaction's description, number, notes and date.
pub open spec fn header_plan(b: TransactionBuilder) -> Seq<EngineCall> {
    let t = Target::Created(0);
    let date: Seq<EngineCall> = match b.date_posted {
        Some((day, month, year)) => seq![EngineCall::SetDate { target: t, day, month, year }],
        None => Seq::empty(),
    };
    text_call(RecordKind::Transaction, TextField::Description, t, b.description) + text_call(
        RecordKind::Transaction,
        TextField::Num,
        t,
        b.num,
    ) + text_call(RecordKind::Transaction, TextField::Notes, t, b.notes) + date
}

/// The calls that create a transaction and its splits: allocate the
/// transaction, open it, set its header, create each split inside it, and
/// commit.
pub open spec fn transaction_plan(b: TransactionBuilder) -> Seq<EngineCall> {
    let t = Target::Created(0);
    seq![
        EngineCall::Create { kind: RecordKind::Transaction, book: b.book },
        EngineCall::BeginEdit { kind: RecordKind::Transaction, target: t },
    ] + header_plan(b) + splits_plan(b.book, b.splits@, b.splits@.len() as int) + seq![
        EngineCall::CommitEdit { kind: RecordKind::Transaction, target: t },
    ]
}

/// A text call allocates nothing.
proof fn lemma_text_call_creates_nothing(
    kind: RecordKind,
    field: TextField,
    target: Target,
    t: Option<String>,
)
    ensures
        create_count(text_call(kind, field, target, t)) == 0,
{
    reveal_with_fuel(create_count, 2);
}

/// Creating the first `n` splits allocates exactly `n` records.
proof fn lemma_splits_plan_creates(book: u64, drafts: Seq<SplitDraft>, n: int)
    requires
        0 <= n <= drafts.len(),
    ensures
        create_count(splits_plan(book, drafts, n)) == n,
    decreases n,
{
    reveal_with_fuel(create_count, 6);
    if n > 0 {
        lemma_splits_plan_creates(book, drafts, n - 1);
        let d = drafts[n - 1];
        let me = Target::Created(n as usize);
        let fixed: Seq<EngineCall> = seq![
            EngineCall::Create { kind: RecordKind::Split, book },
            EngineCall::Link { link: LinkField::SplitAccount, target: me, to: Target::Existing(d.account) },
            EngineCall::Link { link: LinkField::SplitParent, target: me, to: Target::Created(0) },
            EngineCall::SetAmount { which: AmountField::Amount, target: me, value: d.amount },
            EngineCall::SetAmount { which: AmountField::Value, target: me, value: d.amount },
        ];
        assert(fixed.drop_last().drop_last().drop_last().drop_last() =~= seq![fixed[0]]);
        assert(seq![fixed[0]].drop_last() =~= Seq::<EngineCall>::empty());
        assert(create_count(fixed) == 1);
        lemma_text_call_creates_nothing(RecordKind::Split, TextField::Memo, me, d.memo);
        lemma_create_count_concat(fixed, text_call(RecordKind::Split, TextField::Memo, me, d.memo));
        lemma_create_count_concat(splits_plan(book, drafts, n - 1), split_plan(book, n - 1, d));
    }
}

/// A successful build allocates exactly one transaction and one split per
/// draft; a failed build returns no calls, so it allocates nothing.
pub proof fn lemma_transaction_plan_allocations(b: TransactionBuilder)
    ensures
        create_count(transaction_plan(b)) == b.splits@.len() + 1,
{
    reveal_with_fuel(create_count, 3);
    let t = Target::Created(0);
    let open: Seq<EngineCall> = seq![
        EngineCall::Create { kind: RecordKind::Transaction, book: b.book },
        EngineCall::BeginEdit { kind: RecordKind::Transaction, target: t },
    ];
    let close: Seq<EngineCall> = seq![EngineCall::CommitEdit { kind: RecordKind::Transaction, target: t }];
    assert(open.drop_last() =~= seq![open[0]]);
    assert(seq![open[0]].drop_last() =~= Seq::<EngineCall>::empty());
    assert(close.drop_last() =~= Seq::<EngineCall>::empty());
    let date: Seq<EngineCall> = match b.date_posted {
        Some((day, month, year)) => seq![EngineCall::SetDate { target: t, day, month, year }],
        None => Seq::empty(),
    };
    if date.len() == 1 {
        assert(date.drop_last() =~= Seq::<EngineCall>::empty());
    }
    let d1 = text_call(RecordKind::Transaction, TextField::Description, t, b.description);
    let d2 = text_call(RecordKind::Transaction, TextField::Num, t, b.num);
    let d3 = text_call(RecordKind::Transaction, TextField::Notes, t, b.notes);
    lemma_text_call_creates_nothing(RecordKind::Transaction, TextField::Description, t, b.description);
    lemma_text_call_creates_nothing(RecordKind::Transaction, TextField::Num, t, b.num);
    lemma_text_call_creates_nothing(RecordKind::Transaction, TextField::Notes, t, b.notes);
    lemma_create_count_concat(d1, d2);
    lemma_create_count_concat(d1 + d2, d3);
    lemma_create_count_concat(d1 + d2 + d3, date);
    let splits = splits_plan(b.book, b.splits@, b.splits@.len() as int);
    lemma_splits_plan_creates(b.book, b.splits@, b.splits@.len() as int);
    lemma_create_count_concat(open, header_plan(b));
    lemma_create_count_concat(open + header_plan(b), splits);
    lemma_create_count_concat(open + header_plan(b) + splits, close);
}

/// All text of a transaction builder is encodable.
pub open spec fn transaction_text_ok(b: TransactionBuilder) -> bool {
    &&& opt_encodable(b.description)
    &&& opt_encodable(b.num)
    &&& opt_encodable(b.notes)
    &&& forall|k: int| 0 <= k < b.splits@.len() ==> opt_encodable(#[trigger] b.splits@[k].memo)
}

/// A copy of optional text.
fn copy_text(t: &Option<String>) -> (r: Option<String>)
    ensures
        r == *t,
{
    match t {
        Some(s) => Some(s.clone()),
        None => None,
    }
}

/// Whether optional text is absent or encodable.
fn check_text(t: &Option<String>) -> (r: bool)
    ensures
        r == opt_encodable(*t),
{
    match t {
        Some(s) => is_encodable(s.as_str()),
        None => true,
    }
}

impl TransactionBuilder {
    /// A builder for a transaction in the given book, with no splits yet.
    pub fn new(book: &Book) -> (r: TransactionBuilder)
        ensures
            r.book == book@.ptr,
            r.description is None,
            r.num is None,
            r.notes is None,
            r.date_posted is None,
            r.currency_mnemonic is None,
            r.splits@.len() == 0,
    {
        TransactionBuilder {
            book: book.as_ptr(),
            description: None,
            num: None,
            notes: None,
            date_posted: None,
            currency_mnemonic: None,
            splits: Vec::new(),
        }
    }

    /// Sets the description.
    pub fn description(self, desc: &str) -> (r: TransactionBuilder)
        ensures
            r.description matches Some(s) && s@ == desc@,
            r == (TransactionBuilder { description: r.description, ..self }),
    {
        TransactionBuilder { description: Some(String::from_str(desc)), ..self }
    }

    /// Sets the transaction number.
    pub fn num(self, num: &str) -> (r: TransactionBuilder)
        ensures
            r.num matches Some(s) && s@ == num@,
            r == (TransactionBuilder { num: r.num, ..self }),
    {
        TransactionBuilder { num: Some(String::from_str(num)), ..self }
    }

    /// Sets the notes.
    pub fn notes(self, notes: &str) -> (r: TransactionBuilder)
        ensures
            r.notes matches Some(s) && s@ == notes@,
            r == (TransactionBuilder { notes: r.notes, ..self }),
    {
        TransactionBuilder { notes: Some(String::from_str(notes)), ..self }
    }

    /// Sets the posted date from day, month and year.
    pub fn date(self, day: i32, month: i32, year: i32) -> (r: TransactionBuilder)
        ensures
            r == (TransactionBuilder { date_posted: Some((day, month, year)), ..self }),
    {
        TransactionBuilder { date_posted: Some((day, month, year)), ..self }
    }

    /// Sets the currency mnemonic, such as "USD".
    pub fn currency(self, mnemonic: &str) -> (r: TransactionBuilder)
        ensures
            r.currency_mnemonic matches Some(s) && s@ == mnemonic@,
            r == (TransactionBuilder { currency_mnemonic: r.currency_mnemonic, ..self }),
    {
        TransactionBuilder { currency_mnemonic: Some(String::from_str(mnemonic)), ..self }
    }

    /// Adds a split of `amount` to `account`.
    pub fn split(self, account: &Account, amount: Numeric, memo: Option<&str>) -> (r:
        TransactionBuilder)
        ensures
            r.splits@.len() == self.splits@.len() + 1,
            r.splits@.drop_last() == self.splits@,
            r.splits@.last().account == account@.ptr,
            r.splits@.last().amount == amount,
            memo is None ==> r.splits@.last().memo is None,
            memo matches Some(m) ==> r.splits@.last().memo matches Some(s) && s@ == m@,
            r == (TransactionBuilder { splits: r.splits, ..self }),
    {
        let mut splits = self.splits;
        let memo: Option<String> = match memo {
            Some(m) => Some(String::from_str(m)),
            None => None,
        };
        splits.push(SplitDraft { account: account.as_ptr(), amount, memo });
        proof {
            assert(splits@.drop_last() =~= self.splits@);
        }
        TransactionBuilder { splits, ..self }
    }

    /// Adds a transfer: `amount` taken from `from` and given to `to`.
    pub fn transfer(self, from: &Account, to: &Account, amount: Numeric, memo: Option<&str>) -> (r:
        TransactionBuilder)
        requires
            amount.num != i64::MIN,
        ensures
            r.splits@.len() == self.splits@.len() + 2,
            r.splits@.subrange(0, self.splits@.len() as int) == self.splits@,
            r.splits@[self.splits@.len() as int].account == from@.ptr,
            r.splits@[self.splits@.len() as int].amount == amount.spec_neg(),
            r.splits@.last().account == to@.ptr,
            r.splits@.last().amount == amount,
            r == (TransactionBuilder { splits: r.splits, ..self }),
    {
        let n = Ghost(self.splits@.len());
        let b = self.split(from, amount.neg(), memo);
        let r = b.split(to, amount, memo);
        proof {
            assert(r.splits@.subrange(0, n@ as int) =~= r.splits@.drop_last().drop_last());
        }
        r
    }

    /// Validates the drafts and yields the calls that create the transaction.
    ///
    /// Fails, before any call, with an invalid-operation error when there is
    /// no split or some text holds a NUL; with a numeric error when a
    /// denominator is zero or the arithmetic leaves 64 bits; and with the
    /// residual when the splits, brought over their least common
    /// denominator, do not sum to zero.
    pub fn build(self) -> (r: Result<Vec<EngineCall>, Error>)
        ensures
            self.splits@.len() == 0 || !transaction_text_ok(self) ==> (r matches Err(
                Error::InvalidOperation(_),
            )),
            self.splits@.len() > 0 && transaction_text_ok(self) ==> {
                let d = self.splits@;
                &&& !arithmetic_fits(d) ==> (r matches Err(Error::Numeric(_)))
                &&& arithmetic_fits(d) && residual(d) != 0 ==> r == Err::<Vec<EngineCall>, Error>(
                    Error::Unbalanced(Numeric { num: residual(d) as i64, denom: total_denom(d) as i64 }),
                )
                &&& arithmetic_fits(d) && residual(d) == 0 ==> (r matches Ok(calls) && calls@
                    == transaction_plan(self))
            },
    {
        let n = self.splits.len();
        if n == 0 {
            return Err(Error::InvalidOperation("a transaction needs at least one split".to_string()));
        }
        if !check_text(&self.description) || !check_text(&self.num) || !check_text(&self.notes) {
            return Err(Error::InvalidOperation("text holds a NUL character".to_string()));
        }
        let mut i: usize = 0;
        while i < n
            invariant
                n == self.splits@.len(),
                i <= n,
                forall|k: int| 0 <= k < i ==> opt_encodable(#[trigger] self.splits@[k].memo),
            decreases n - i,
        {
            if !check_text(&self.splits[i].memo) {
                return Err(Error::InvalidOperation("text holds a NUL character".to_string()));
            }
            i = i + 1;
        }
        let l = match self.common_denominator() {
            Some(l) => l,
            None => {
                return Err(Error::Numeric("a denominator is zero or too large".to_string()));
            },
        };
        let total = match self.scaled_total(l) {
            Some(t) => t,
            None => {
                return Err(Error::Numeric("the scaled amounts do not fit in 64 bits".to_string()));
            },
        };
        if total != 0 {
            return Err(Error::Unbalanced(Numeric::new(total, l)));
        }
        Ok(self.plan())
    }

    /// The least common multiple of all denominators, or `None` when one is
    /// zero or a partial result leaves 64 bits.
    fn common_denominator(&self) -> (r: Option<i64>)
        ensures
            r is Some <==> denominators_ok(self.splits@),
            r matches Some(l) ==> l as int == common_denom(self.splits@, self.splits@.len() as int)
                && l > 0,
    {
        let n = self.splits.len();
        let mut acc: i64 = 1;
        let mut i: usize = 0;
        while i < n
            invariant
                n == self.splits@.len(),
                i <= n,
                acc > 0,
                acc as int == common_denom(self.splits@, i as int),
                forall|k: int|
                    0 <= k < i ==> #[trigger] self.splits@[k].amount.denom != 0 && common_denom(
                        self.splits@,
                        k + 1,
                    ) <= i64::MAX,
            decreases n - i,
        {
            let d = self.splits[i].amount.denom;
            if d == 0 {
                return None;
            }
            proof {
                crate::numeric::lemma_lcm_divisible(acc as int, d as int);
            }
            match checked_lcm(acc, d) {
                Some(v) => {
                    acc = v;
                },
                None => {
                    return None;
                },
            }
            i = i + 1;
        }
        Some(acc)
    }

    /// The sum of the numerators over the common denominator `l`, or `None`
    /// when a scaled numerator or a running total leaves 64 bits.
    fn scaled_total(&self, l: i64) -> (r: Option<i64>)
        requires
            l > 0,
            forall|k: int| 0 <= k < self.splits@.len() ==> #[trigger] self.splits@[k].amount.denom != 0,
        ensures
            r is Some <==> sums_fit(self.splits@, l as int),
            r matches Some(t) ==> t as int == scaled_sum(self.splits@, l as int, self.splits@.len() as int),
    {
        let n = self.splits.len();
        let mut total: i64 = 0;
        let mut i: usize = 0;
        while i < n
            invariant
                n == self.splits@.len(),
                i <= n,
                l > 0,
                forall|k: int| 0 <= k < n ==> #[trigger] self.splits@[k].amount.denom != 0,
                total as int == scaled_sum(self.splits@, l as int, i as int),
                forall|k: int|
                    0 <= k < i ==> i64::MIN <= #[trigger] scaled(self.splits@[k], l as int)
                        <= i64::MAX && i64::MIN <= scaled_sum(self.splits@, l as int, k + 1)
                        <= i64::MAX,
            decreases n - i,
        {
            let a = self.splits[i].amount;
            let m: u64 = if a.denom < 0 {
                (-(a.denom as i128)) as u64
            } else {
                a.denom as u64
            };
            let q: u64 = (l as u64) / m;
            proof {
                assert(q <= l) by (nonlinear_arith)
                    requires
                        q == (l as int) / (m as int),
                        m >= 1,
                        l > 0,
                ;
            }
            let f: i64 = if a.denom < 0 {
                -(q as i64)
            } else {
                q as i64
            };
            assert(f as int == scale_factor(l as int, a.denom as int));
            assert(scaled(self.splits@[i as int], l as int) == a.num * f);
            assert(scaled_sum(self.splits@, l as int, i + 1) == total + a.num * f);
            let t = match a.num.checked_mul(f) {
                Some(t) => t,
                None => {
                    return None;
                },
            };
            match total.checked_add(t) {
                Some(s) => {
                    total = s;
                },
                None => {
                    return None;
                },
            }
            i = i + 1;
        }
        Some(total)
    }

    /// The calls that create the transaction and its splits.
    fn plan(&self) -> (r: Vec<EngineCall>)
        ensures
            r@ == transaction_plan(*self),
    {
        let t = Target::Created(0);
        let mut calls: Vec<EngineCall> = Vec::new();
        calls.push(EngineCall::Create { kind: RecordKind::Transaction, book: self.book });
        calls.push(EngineCall::BeginEdit { kind: RecordKind::Transaction, target: t });
        push_text(&mut calls, RecordKind::Transaction, TextField::Description, t, &self.description);
        push_text(&mut calls, RecordKind::Transaction, TextField::Num, t, &self.num);
        push_text(&mut calls, RecordKind::Transaction, TextField::Notes, t, &self.notes);
        match self.date_posted {
            Some((day, month, year)) => {
                calls.push(EngineCall::SetDate { target: t, day, month, year });
            },
            None => {},
        }
        proof {
            assert(calls@ =~= seq![
                EngineCall::Create { kind: RecordKind::Transaction, book: self.book },
                EngineCall::BeginEdit { kind: RecordKind::Transaction, target: t },
            ] + header_plan(*self));
        }
        let ghost start = calls@;
        let n = self.splits.len();
        let mut i: usize = 0;
        while i < n
            invariant
                n == self.splits@.len(),
                i <= n,
                t == Target::Created(0),
                calls@ == start + splits_plan(self.book, self.splits@, i as int),
            decreases n - i,
        {
            let d = &self.splits[i];
            let me = Target::Created(i + 1);
            let ghost before = calls@;
            calls.push(EngineCall::Create { kind: RecordKind::Split, book: self.book });
            calls.push(
                EngineCall::Link { link: LinkField::SplitAccount, target: me, to: Target::Existing(d.account) },
            );
            calls.push(EngineCall::Link { link: LinkField::SplitParent, target: me, to: t });
            calls.push(EngineCall::SetAmount { which: AmountField::Amount, target: me, value: d.amount });
            calls.push(EngineCall::SetAmount { which: AmountField::Value, target: me, value: d.amount });
            push_text(&mut calls, RecordKind::Split, TextField::Memo, me, &d.memo);
            proof {
                assert(calls@ =~= before + split_plan(self.book, i as int, self.splits@[i as int]));
                assert(calls@ =~= start + splits_plan(self.book, self.splits@, i + 1));
            }
            i = i + 1;
        }
        calls.push(EngineCall::CommitEdit { kind: RecordKind::Transaction, target: t });
        proof {
            assert(calls@ =~= transaction_plan(*self));
        }
        calls
    }
}

/// An intended invoice line: description, price, quantity, income account,
/// and an optional action.
#[derive(Debug)]
pub struct EntryDraft {
    pub description: String,
    pub price: Numeric,
    pub quantity: Numeric,
    pub account: u64,
    pub action: Option<String>,
}

/// Builder for an invoice with entries.
#[derive(Debug)]
pub struct InvoiceBuilder {
    pub book: u64,
    pub id: Option<String>,
    pub notes: Option<String>,
    pub billing_id: Option<String>,
    pub owner: Option<Owner>,
    pub date_opened: Option<i64>,
    pub entries: Vec<EntryDraft>,
}

/// The calls that create the `i`-th entry of an invoice, which is the record
/// made first.
pub open spec fn entry_plan(book: u64, i: int, e: EntryDraft) -> Seq<EngineCall> {
    let me = Target::Created((i + 1) as usize);
    seq![
        EngineCall::Create { kind: RecordKind::Entry, book },
        EngineCall::BeginEdit { kind: RecordKind::Entry, target: me },
        EngineCall::SetText {
            kind: RecordKind::Entry,
            field: TextField::Description,
            target: me,
            text: e.description,
        },
        EngineCall::SetAmount { which: AmountField::InvPrice, target: me, value: e.price },
        EngineCall::SetAmount { which: AmountField::Quantity, target: me, value: e.quantity },
        EngineCall::Link { link: LinkField::EntryInvAccount, target: me, to: Target::Existing(e.account) },
    ] + text_call(RecordKind::Entry, TextField::Action, me, e.action) + seq![
        EngineCall::CommitEdit { kind: RecordKind::Entry, target: me },
    ]
}

/// The calls that create the first `n` entries.
pub open spec fn entries_plan(book: u64, entries: Seq<EntryDraft>, n: int) -> Seq<EngineCall>
    decreases n,
{
    if n <= 0 {
        Seq::empty()
    } else {
        entries_plan(book, entries, n - 1) + entry_plan(book, n - 1, entries[n - 1])
    }
}

/// The calls that set an invoice's id, notes, billing id, owner and opening date.
pub open spec fn invoice_header_plan(b: InvoiceBuilder) -> Seq<EngineCall> {
    let t = Target::Created(0);
    let owner: Seq<EngineCall> = match b.owner {
        Some(o) => seq![EngineCall::SetOwner { target: t, owner: o }],
        None => Seq::empty(),
    };
    let date: Seq<EngineCall> = match b.date_opened {
        Some(time) => seq![EngineCall::SetDateOpened { target: t, time }],
        None => Seq::empty(),
    };
    text_call(RecordKind::Invoice, TextField::Id, t, b.id) + text_call(
        RecordKind::Invoice,
        TextField::Notes,
        t,
        b.notes,
    ) + text_call(RecordKind::Invoice, TextField::BillingId, t, b.billing_id) + owner + date
}

/// The calls that create an invoice and its entries: allocate and open the
/// invoice, set its header, create and commit each entry, and commit the
/// invoice.
pub open spec fn invoice_plan(b: InvoiceBuilder) -> Seq<EngineCall> {
    let t = Target::Created(0);
    seq![
        EngineCall::Create { kind: RecordKind::Invoice, book: b.book },
        EngineCall::BeginEdit { kind: RecordKind::Invoice, target: t },
    ] + invoice_header_plan(b) + entries_plan(b.book, b.entries@, b.entries@.len() as int) + seq![
        EngineCall::CommitEdit { kind: RecordKind::Invoice, target: t },
    ]
}

/// All text of an invoice builder is encodable.
pub open spec fn invoice_text_ok(b: InvoiceBuilder) -> bool {
    &&& opt_encodable(b.id)
    &&& opt_encodable(b.notes)
    &&& opt_encodable(b.billing_id)
    &&& forall|k: int|
        0 <= k < b.entries@.len() ==> encodable((#[trigger] b.entries@[k]).description@)
            && opt_encodable(b.entries@[k].action)
}

impl InvoiceBuilder {
    /// A builder for an invoice in the given book, with no entries yet.
    pub fn new(book: &Book) -> (r: InvoiceBuilder)
        ensures
            r.book == book@.ptr,
            r.id is None,
            r.notes is None,
            r.billing_id is None,
            r.owner is None,
            r.date_opened is None,
            r.entries@.len() == 0,
    {
        InvoiceBuilder {
            book: book.as_ptr(),
            id: None,
            notes: None,
            billing_id: None,
            owner: None,
            date_opened: None,
            entries: Vec::new(),
        }
    }

    /// Sets the invoice id.
    pub fn id(self, id: &str) -> (r: InvoiceBuilder)
        ensures
            r.id matches Some(s) && s@ == id@,
            r == (InvoiceBuilder { id: r.id, ..self }),
    {
        InvoiceBuilder { id: Some(String::from_str(id)), ..self }
    }

    /// Sets the notes.
    pub fn notes(self, notes: &str) -> (r: InvoiceBuilder)
        ensures
            r.notes matches Some(s) && s@ == notes@,
            r == (InvoiceBuilder { notes: r.notes, ..self }),
    {
        InvoiceBuilder { notes: Some(String::from_str(notes)), ..self }
    }

    /// Sets the billing id.
    pub fn billing_id(self, billing_id: &str) -> (r: InvoiceBuilder)
        ensures
            r.billing_id matches Some(s) && s@ == billing_id@,
            r == (InvoiceBuilder { billing_id: r.billing_id, ..self }),
    {
        InvoiceBuilder { billing_id: Some(String::from_str(billing_id)), ..self }
    }

    /// Sets the owner: a customer, vendor, employee or job.
    pub fn owner(self, owner: &Owner) -> (r: InvoiceBuilder)
        ensures
            r == (InvoiceBuilder { owner: Some(*owner), ..self }),
    {
        InvoiceBuilder { owner: Some(*owner), ..self }
    }

    /// Sets the opening date, in seconds.
    pub fn date_opened(self, date: i64) -> (r: InvoiceBuilder)
        ensures
            r == (InvoiceBuilder { date_opened: Some(date), ..self }),
    {
        InvoiceBuilder { date_opened: Some(date), ..self }
    }

    /// Adds an entry.
    pub fn entry(self, description: &str, price: Numeric, quantity: Numeric, account: &Account) -> (r:
        InvoiceBuilder)
        ensures
            r.entries@.len() == self.entries@.len() + 1,
            r.entries@.drop_last() == self.entries@,
            r.entries@.last().description@ == description@,
            r.entries@.last().price == price,
            r.entries@.last().quantity == quantity,
            r.entries@.last().account == account@.ptr,
            r.entries@.last().action is None,
            r == (InvoiceBuilder { entries: r.entries, ..self }),
    {
        let mut entries = self.entries;
        entries.push(
            EntryDraft {
                description: String::from_str(description),
                price,
                quantity,
                account: account.as_ptr(),
                action: None,
            },
        );
        proof {
            assert(entries@.drop_last() =~= self.entries@);
        }
        InvoiceBuilder { entries, ..self }
    }

    /// Adds an entry with an action.
    pub fn entry_with_action(
        self,
        description: &str,
        price: Numeric,
        quantity: Numeric,
        account: &Account,
        action: &str,
    ) -> (r: InvoiceBuilder)
        ensures
            r.entries@.len() == self.entries@.len() + 1,
            r.entries@.drop_last() == self.entries@,
            r.entries@.last().description@ == description@,
            r.entries@.last().price == price,
            r.entries@.last().quantity == quantity,
            r.entries@.last().account == account@.ptr,
            r.entries@.last().action matches Some(s) && s@ == action@,
            r == (InvoiceBuilder { entries: r.entries, ..self }),
    {
        let mut entries = self.entries;
        entries.push(
            EntryDraft {
                description: String::from_str(description),
                price,
                quantity,
                account: account.as_ptr(),
                action: Some(String::from_str(action)),
            },
        );
        proof {
            assert(entries@.drop_last() =~= self.entries@);
        }
        InvoiceBuilder { entries, ..self }
    }

    /// Validates the text and yields the calls that create the invoice and
    /// its entries. Fails, before any call, with an invalid-operation error
    /// when some text holds a NUL.
    pub fn build(self) -> (r: Result<Vec<EngineCall>, Error>)
        ensures
            !invoice_text_ok(self) ==> (r matches Err(Error::InvalidOperation(_))),
            invoice_text_ok(self) ==> (r matches Ok(calls) && calls@ == invoice_plan(self)),
    {
        if !check_text(&self.id) || !check_text(&self.notes) || !check_text(&self.billing_id) {
            return Err(Error::InvalidOperation("text holds a NUL character".to_string()));
        }
        let n = self.entries.len();
        let mut i: usize = 0;
        while i < n
            invariant
                n == self.entries@.len(),
                i <= n,
                forall|k: int|
                    0 <= k < i ==> encodable((#[trigger] self.entries@[k]).description@)
                        && opt_encodable(self.entries@[k].action),
            decreases n - i,
        {
            let e = &self.entries[i];
            if !is_encodable(e.description.as_str()) || !check_text(&e.action) {
                return Err(Error::InvalidOperation("text holds a NUL character".to_string()));
            }
            assert(encodable(self.entries@[i as int].description@));
            i = i + 1;
        }
        Ok(self.plan())
    }

    /// The calls that create the invoice and its entries.
    fn plan(&self) -> (r: Vec<EngineCall>)
        ensures
            r@ == invoice_plan(*self),
    {
        let t = Target::Created(0);
        let mut calls: Vec<EngineCall> = Vec::new();
        calls.push(EngineCall::Create { kind: RecordKind::Invoice, book: self.book });
        calls.push(EngineCall::BeginEdit { kind: RecordKind::Invoice, target: t });
        push_text(&mut calls, RecordKind::Invoice, TextField::Id, t, &self.id);
        push_text(&mut calls, RecordKind::Invoice, TextField::Notes, t, &self.notes);
        push_text(&mut calls, RecordKind::Invoice, TextField::BillingId, t, &self.billing_id);
        match self.owner {
            Some(o) => {
                calls.push(EngineCall::SetOwner { target: t, owner: o });
            },
            None => {},
        }
        match self.date_opened {
            Some(time) => {
                calls.push(EngineCall::SetDateOpened { target: t, time });
            },
            None => {},
        }
        proof {
            assert(calls@ =~= seq![
                EngineCall::Create { kind: RecordKind::Invoice, book: self.book },
                EngineCall::BeginEdit { kind: RecordKind::Invoice, target: t },
            ] + invoice_header_plan(*self));
        }
        let ghost start = calls@;
        let n = self.entries.len();
        let mut i: usize = 0;
        while i < n
            invariant
                n == self.entries@.len(),
                i <= n,
                t == Target::Created(0),
                calls@ == start + entries_plan(self.book, self.entries@, i as int),
            decreases n - i,
        {
            let e = &self.entries[i];
            let me = Target::Created(i + 1);
            let ghost before = calls@;
            calls.push(EngineCall::Create { kind: RecordKind::Entry, book: self.book });
            calls.push(EngineCall::BeginEdit { kind: RecordKind::Entry, target: me });
            calls.push(
                EngineCall::SetText {
                    kind: RecordKind::Entry,
                    field: TextField::Description,
                    target: me,
                    text: e.description.clone(),
                },
            );
            calls.push(EngineCall::SetAmount { which: AmountField::InvPrice, target: me, value: e.price });
            calls.push(EngineCall::SetAmount { which: AmountField::Quantity, target: me, value: e.quantity });
            calls.push(
                EngineCall::Link { link: LinkField::EntryInvAccount, target: me, to: Target::Existing(e.account) },
            );
            push_text(&mut calls, RecordKind::Entry, TextField::Action, me, &e.action);
            calls.push(EngineCall::CommitEdit { kind: RecordKind::Entry, target: me });
            proof {
                assert(calls@ =~= before + entry_plan(self.book, i as int, self.entries@[i as int]));
                assert(calls@ =~= start + entries_plan(self.book, self.entries@, i + 1));
            }
            i = i + 1;
        }
        calls.push(EngineCall::CommitEdit { kind: RecordKind::Invoice, target: t });
        proof {
            assert(calls@ =~= invoice_plan(*self));
        }
        calls
    }
}

/// Appends the call that sets optional text, if there is any.
fn push_text(
    calls: &mut Vec<EngineCall>,
    kind: RecordKind,
    field: TextField,
    target: Target,
    t: &Option<String>,
)
    ensures
        final(calls)@ == old(calls)@ + text_call(kind, field, target, *t),
{
    match copy_text(t) {
        Some(text) => {
            calls.push(EngineCall::SetText { kind, field, target, text });
        },
        None => {},
    }
    proof {
        assert(final(calls)@ =~= old(calls)@ + text_call(kind, field, target, *t));
    }
}

} // verus!
