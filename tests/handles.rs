use gnucash_sys::session::{ERR_BACKEND_BAD_URL, ERR_BACKEND_NO_ERR};
use gnucash_sys::{
    Account, Book, EditState, EngineCall, OpenStage, QofBackendError, RecordKind, Session,
    SessionOpenMode, Split, Target, Transaction,
};

fn destroys(calls: &[EngineCall]) -> usize {
    calls.iter().filter(|c| matches!(c, EngineCall::Destroy { .. })).count()
}

#[test]
fn marked_unowned_wrapper_never_destroys() {
    let mut a = Account::new(0xa0);
    a.mark_unowned();
    assert!(!a.is_owned());
    assert!(a.drop_calls().is_empty());
    let mut s = Split::new(0x51);
    s.mark_unowned();
    assert_eq!(destroys(&s.drop_calls()), 0);
    let mut t = Transaction::new(0x71);
    t.mark_unowned();
    assert_eq!(destroys(&t.drop_calls(false)), 0);
    let mut b = Book::new(0xb1);
    b.mark_unowned();
    assert_eq!(destroys(&b.drop_calls()), 0);
}

#[test]
fn owned_wrapper_destroys_exactly_once() {
    let a = Account::new(0xa0);
    assert!(a.is_owned());
    let calls = a.drop_calls();
    assert_eq!(destroys(&calls), 1);
    assert!(matches!(
        calls[0],
        EngineCall::BeginEdit { kind: RecordKind::Account, target: Target::Existing(0xa0) }
    ));
    assert!(matches!(
        calls[1],
        EngineCall::Destroy { kind: RecordKind::Account, target: Target::Existing(0xa0) }
    ));
    assert_eq!(destroys(&Split::new(0x51).drop_calls()), 1);
    assert_eq!(destroys(&Book::new(0xb1).drop_calls()), 1);
}

#[test]
fn transaction_release_brackets_the_destroy() {
    let t = Transaction::new(0x71);
    let closed = t.drop_calls(false);
    assert_eq!(closed.len(), 3);
    assert!(matches!(closed[0], EngineCall::BeginEdit { kind: RecordKind::Transaction, .. }));
    assert!(matches!(closed[1], EngineCall::Destroy { kind: RecordKind::Transaction, .. }));
    assert!(matches!(closed[2], EngineCall::CommitEdit { kind: RecordKind::Transaction, .. }));
    let open = t.drop_calls(true);
    assert_eq!(open.len(), 2);
    assert!(matches!(open[0], EngineCall::Destroy { .. }));
    assert_eq!(destroys(&open), 1);
}

#[test]
fn borrowed_wrappers_from_raw() {
    assert!(Account::from_raw(0, false).is_none());
    let a = Account::from_raw(0xa0, false).expect("non-null");
    assert_eq!(a.as_ptr(), 0xa0);
    assert!(a.drop_calls().is_empty());
    let owned = Transaction::from_raw(0x71, true).expect("non-null");
    assert_eq!(destroys(&owned.drop_calls(true)), 1);
}

#[test]
fn edit_session_bracketing() {
    let mut a = Account::new(0xa0);
    assert!(matches!(
        a.begin_edit(),
        Some(EngineCall::BeginEdit { kind: RecordKind::Account, target: Target::Existing(0xa0) })
    ));
    assert!(a.begin_edit().is_none());
    assert!(matches!(a.commit_edit(), Some(EngineCall::CommitEdit { .. })));
    assert!(a.commit_edit().is_none());
    let mut t = Transaction::new(0x71);
    assert!(t.commit_edit().is_none());
    assert!(matches!(t.begin_edit(), Some(EngineCall::BeginEdit { kind: RecordKind::Transaction, .. })));
    let _ = EditState::Editing;
}

#[test]
fn session_release_ends_then_destroys() {
    let s = Session::new(0x5e);
    let calls = s.drop_calls();
    assert!(matches!(calls[0], EngineCall::SessionEnd { session: 0x5e }));
    assert!(matches!(
        calls[1],
        EngineCall::Destroy { kind: RecordKind::Session, target: Target::Existing(0x5e) }
    ));
}

#[test]
fn session_open_walks_begin_then_load() {
    let mut open = Session::open(Session::new(0x5e), "/tmp/books.gnucash", SessionOpenMode::NormalOpen);
    match open.next_call() {
        Some(EngineCall::SessionBegin { session, uri, mode }) => {
            assert_eq!(session, 0x5e);
            assert_eq!(uri, "file:///tmp/books.gnucash");
            assert_eq!(mode, SessionOpenMode::NormalOpen);
        }
        other => panic!("unexpected {:?}", other),
    }
    open.report(QofBackendError { code: ERR_BACKEND_NO_ERR });
    assert!(matches!(open.next_call(), Some(EngineCall::SessionLoad { session: 0x5e })));
    assert!(open.outcome().is_none());
    open.report(QofBackendError { code: ERR_BACKEND_NO_ERR });
    assert_eq!(open.stage(), OpenStage::Opened);
    assert!(open.next_call().is_none());
    assert_eq!(open.outcome(), Some(Ok(())));
    assert_eq!(open.into_session().as_ptr(), 0x5e);
}

#[test]
fn session_open_keeps_a_given_scheme_and_relays_errors() {
    let mut open = Session::open_readonly(Session::new(0x5e), "sqlite3:///data/books");
    match open.next_call() {
        Some(EngineCall::SessionBegin { uri, mode, .. }) => {
            assert_eq!(uri, "sqlite3:///data/books");
            assert_eq!(mode, SessionOpenMode::ReadOnly);
        }
        other => panic!("unexpected {:?}", other),
    }
    open.report(QofBackendError { code: 7 });
    assert_eq!(open.outcome(), Some(Err(QofBackendError { code: 7 })));
    assert!(open.next_call().is_none());
}

#[test]
fn session_open_refuses_an_address_with_nul() {
    let open = Session::open(Session::new(0x5e), "bad\0path", SessionOpenMode::NormalOpen);
    assert_eq!(open.outcome(), Some(Err(QofBackendError { code: ERR_BACKEND_BAD_URL })));
    assert!(open.next_call().is_none());
}
