use gnucash_sys::builder::EntryDraft;
use gnucash_sys::engine::{AmountField, LinkField, TextField};
use gnucash_sys::{
    Account, Book, Customer, EngineCall, Error, Guid, InvoiceBuilder, Numeric, RecordKind, Target,
    TransactionBuilder,
};

fn creates(calls: &[EngineCall]) -> usize {
    calls.iter().filter(|c| matches!(c, EngineCall::Create { .. })).count()
}

#[test]
fn balanced_splits_build() {
    let book = Book::new(0x10);
    let a = Account::new(0xa0);
    let b = Account::new(0xb0);
    let calls = TransactionBuilder::new(&book)
        .description("Groceries")
        .date(15, 1, 2024)
        .split(&a, Numeric::new(-5000, 100), None)
        .split(&b, Numeric::new(5000, 100), Some("food"))
        .build()
        .expect("balanced");
    assert_eq!(creates(&calls), 3);
    assert!(matches!(calls[0], EngineCall::Create { kind: RecordKind::Transaction, book: 0x10 }));
    assert!(matches!(
        calls[1],
        EngineCall::BeginEdit { kind: RecordKind::Transaction, target: Target::Created(0) }
    ));
    match &calls[2] {
        EngineCall::SetText { field: TextField::Description, text, .. } => assert_eq!(text, "Groceries"),
        other => panic!("unexpected {:?}", other),
    }
    assert!(matches!(calls[3], EngineCall::SetDate { day: 15, month: 1, year: 2024, .. }));
    assert!(matches!(calls[4], EngineCall::Create { kind: RecordKind::Split, book: 0x10 }));
    assert!(matches!(
        calls[5],
        EngineCall::Link {
            link: LinkField::SplitAccount,
            target: Target::Created(1),
            to: Target::Existing(0xa0)
        }
    ));
    assert!(matches!(
        calls[6],
        EngineCall::Link { link: LinkField::SplitParent, target: Target::Created(1), to: Target::Created(0) }
    ));
    match calls[7] {
        EngineCall::SetAmount { which: AmountField::Amount, value, .. } => {
            assert_eq!(value, Numeric::new(-5000, 100))
        }
        ref other => panic!("unexpected {:?}", other),
    }
    match &calls[14] {
        EngineCall::SetText { field: TextField::Memo, target: Target::Created(2), text, .. } => {
            assert_eq!(text, "food")
        }
        other => panic!("unexpected {:?}", other),
    }
    assert!(matches!(
        calls.last(),
        Some(EngineCall::CommitEdit { kind: RecordKind::Transaction, target: Target::Created(0) })
    ));
    assert_eq!(calls.len(), 16);
}

#[test]
fn imbalanced_splits_report_the_residual() {
    let book = Book::new(0x10);
    let a = Account::new(0xa0);
    let b = Account::new(0xb0);
    let r = TransactionBuilder::new(&book)
        .split(&a, Numeric::new(-5000, 100), None)
        .split(&b, Numeric::new(4000, 100), None)
        .build();
    match r {
        Err(Error::Unbalanced(residual)) => {
            assert_eq!(residual, Numeric::new(-1000, 100));
            assert_eq!(residual.abs(), Numeric::new(1000, 100));
        }
        other => panic!("unexpected {:?}", other),
    }
}

#[test]
fn empty_draft_list_is_an_invalid_operation() {
    let book = Book::new(0x10);
    let r = TransactionBuilder::new(&book).description("nothing").build();
    assert!(matches!(r, Err(Error::InvalidOperation(_))));
}

#[test]
fn denominators_are_brought_to_their_lcm() {
    let book = Book::new(0x10);
    let a = Account::new(0xa0);
    let b = Account::new(0xb0);
    let c = Account::new(0xc0);
    // 1/4 + 1/6 - 5/12 = 0
    let ok = TransactionBuilder::new(&book)
        .split(&a, Numeric::new(1, 4), None)
        .split(&b, Numeric::new(1, 6), None)
        .split(&c, Numeric::new(-5, 12), None)
        .build();
    assert!(ok.is_ok());
    // 1/4 + 1/6 = 5/12
    let r = TransactionBuilder::new(&book)
        .split(&a, Numeric::new(1, 4), None)
        .split(&b, Numeric::new(1, 6), None)
        .build();
    assert_eq!(r.err(), Some(Error::Unbalanced(Numeric::new(5, 12))));
    // a negative denominator: 3/-4 + 3/4 = 0
    let neg = TransactionBuilder::new(&book)
        .split(&a, Numeric::new(3, -4), None)
        .split(&b, Numeric::new(3, 4), None)
        .build();
    assert!(neg.is_ok());
}

#[test]
fn zero_denominator_is_a_numeric_error() {
    let book = Book::new(0x10);
    let a = Account::new(0xa0);
    let r = TransactionBuilder::new(&book).split(&a, Numeric::new(0, 0), None).build();
    assert!(matches!(r, Err(Error::Numeric(_))));
}

#[test]
fn overflowing_sum_is_a_numeric_error() {
    let book = Book::new(0x10);
    let a = Account::new(0xa0);
    let r = TransactionBuilder::new(&book)
        .split(&a, Numeric::new(i64::MAX, 1), None)
        .split(&a, Numeric::new(i64::MAX, 1), None)
        .build();
    assert!(matches!(r, Err(Error::Numeric(_))));
}

#[test]
fn text_with_nul_is_an_invalid_operation() {
    let book = Book::new(0x10);
    let a = Account::new(0xa0);
    let b = Account::new(0xb0);
    let r = TransactionBuilder::new(&book)
        .split(&a, Numeric::new(-1, 1), Some("bad\0memo"))
        .split(&b, Numeric::new(1, 1), None)
        .build();
    assert!(matches!(r, Err(Error::InvalidOperation(_))));
}

#[test]
fn transfer_adds_two_offsetting_splits() {
    let book = Book::new(0x10);
    let a = Account::new(0xa0);
    let b = Account::new(0xb0);
    let builder = TransactionBuilder::new(&book).transfer(&a, &b, Numeric::new(2500, 100), Some("move"));
    assert_eq!(builder.splits.len(), 2);
    assert_eq!(builder.splits[0].account, 0xa0);
    assert_eq!(builder.splits[0].amount, Numeric::new(-2500, 100));
    assert_eq!(builder.splits[1].account, 0xb0);
    assert_eq!(builder.splits[1].amount, Numeric::new(2500, 100));
    assert_eq!(builder.splits[1].memo.as_deref(), Some("move"));
    assert!(builder.build().is_ok());
}

#[test]
fn invoice_build_creates_invoice_and_entries() {
    let book = Book::new(0x10);
    let income = Account::new(0xd0);
    let customer = Customer::new(0xe0, Guid::from_bytes([7u8; 16]));
    let owner = customer.to_owner();
    let calls = InvoiceBuilder::new(&book)
        .id("INV-001")
        .owner(&owner)
        .date_opened(1_700_000_000)
        .entry("Consulting", Numeric::new(10000, 100), Numeric::new(1, 1), &income)
        .entry_with_action("Travel", Numeric::new(500, 100), Numeric::new(2, 1), &income, "Hours")
        .build()
        .expect("valid");
    assert_eq!(creates(&calls), 3);
    assert!(matches!(calls[0], EngineCall::Create { kind: RecordKind::Invoice, book: 0x10 }));
    match &calls[2] {
        EngineCall::SetText { field: TextField::Id, text, .. } => assert_eq!(text, "INV-001"),
        other => panic!("unexpected {:?}", other),
    }
    match &calls[3] {
        EngineCall::SetOwner { owner, .. } => assert!(owner.equal(&customer.to_owner())),
        other => panic!("unexpected {:?}", other),
    }
    assert!(matches!(calls[4], EngineCall::SetDateOpened { time: 1_700_000_000, .. }));
    assert!(matches!(calls[5], EngineCall::Create { kind: RecordKind::Entry, .. }));
    assert!(matches!(
        calls[10],
        EngineCall::Link { link: LinkField::EntryInvAccount, target: Target::Created(1), to: Target::Existing(0xd0) }
    ));
    assert!(matches!(
        calls[11],
        EngineCall::CommitEdit { kind: RecordKind::Entry, target: Target::Created(1) }
    ));
    match &calls[18] {
        EngineCall::SetText { field: TextField::Action, text, .. } => assert_eq!(text, "Hours"),
        other => panic!("unexpected {:?}", other),
    }
    assert!(matches!(
        calls.last(),
        Some(EngineCall::CommitEdit { kind: RecordKind::Invoice, target: Target::Created(0) })
    ));
    assert_eq!(calls.len(), 21);
}

#[test]
fn invoice_text_with_nul_is_an_invalid_operation() {
    let book = Book::new(0x10);
    let mut builder = InvoiceBuilder::new(&book).id("INV-2");
    builder.entries.push(EntryDraft {
        description: String::from("a\0b"),
        price: Numeric::new(1, 1),
        quantity: Numeric::new(1, 1),
        account: 0xd0,
        action: None,
    });
    assert!(matches!(builder.build(), Err(Error::InvalidOperation(_))));
}
