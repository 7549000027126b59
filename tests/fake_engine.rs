use gnucash_sys::{
    Account, Book, EngineCall, Error, Numeric, RecordKind, Split, Target, Transaction,
    TransactionBuilder,
};

/// A stand-in for the engine that counts what it is asked to do.
#[derive(Default)]
struct FakeEngine {
    next: u64,
    allocations: usize,
    destroyed: Vec<u64>,
    open_edits: i64,
}

impl FakeEngine {
    fn run(&mut self, calls: Vec<EngineCall>) -> Vec<u64> {
        let mut created = Vec::new();
        let resolve = |t: Target, created: &Vec<u64>| match t {
            Target::Existing(a) => a,
            Target::Created(i) => created[i],
        };
        for call in calls {
            match call {
                EngineCall::Create { .. } => {
                    self.next += 0x10;
                    self.allocations += 1;
                    created.push(0x1000 + self.next);
                }
                EngineCall::BeginEdit { .. } => self.open_edits += 1,
                EngineCall::CommitEdit { .. } => self.open_edits -= 1,
                EngineCall::Destroy { target, .. } => self.destroyed.push(resolve(target, &created)),
                _ => {}
            }
        }
        created
    }
}

#[test]
fn failed_builds_allocate_nothing() {
    let mut engine = FakeEngine::default();
    let book = Book::new(0x10);
    let a = Account::new(0xa0);
    let b = Account::new(0xb0);
    for r in [
        TransactionBuilder::new(&book).build(),
        TransactionBuilder::new(&book)
            .split(&a, Numeric::new(-5000, 100), None)
            .split(&b, Numeric::new(4000, 100), None)
            .build(),
    ] {
        assert!(r.is_err());
        if let Ok(calls) = r {
            engine.run(calls);
        }
    }
    assert_eq!(engine.allocations, 0);
    let r = TransactionBuilder::new(&book).build();
    assert!(matches!(r, Err(Error::InvalidOperation(_))));
}

#[test]
fn successful_build_allocates_one_record_per_split_plus_one() {
    let mut engine = FakeEngine::default();
    let book = Book::new(0x10);
    let a = Account::new(0xa0);
    let b = Account::new(0xb0);
    let calls = TransactionBuilder::new(&book)
        .split(&a, Numeric::new(-5000, 100), None)
        .split(&b, Numeric::new(5000, 100), None)
        .build()
        .expect("balanced");
    let created = engine.run(calls);
    assert_eq!(engine.allocations, 3);
    assert_eq!(created.len(), 3);
    assert_eq!(engine.open_edits, 0);
    let txn = Transaction::new(created[0]);
    engine.run(txn.drop_calls(false));
    assert_eq!(engine.destroyed, vec![created[0]]);
}

#[test]
fn ownership_hand_off_decides_destruction() {
    let mut engine = FakeEngine::default();
    let mut handed_off = Split::new(0x51);
    handed_off.mark_unowned();
    engine.run(handed_off.drop_calls());
    assert!(engine.destroyed.is_empty());
    let kept = Split::new(0x52);
    engine.run(kept.drop_calls());
    assert_eq!(engine.destroyed, vec![0x52]);
    let account = Account::new(0xa1);
    engine.run(account.drop_calls());
    assert_eq!(engine.destroyed, vec![0x52, 0xa1]);
}
