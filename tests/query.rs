use gnucash_sys::{obj_types, params, EngineCall, EngineInit, Error, Guid, QofQueryOp, Query, RecordKind, Target};

#[test]
fn guid_term_hands_over_an_owned_path() {
    let q = Query::new(0x9a);
    let g = Guid::from_bytes([4u8; 16]);
    match q.add_guid_match(&[params::SPLIT_ACCOUNT, params::QOF_PARAM_GUID], &g, QofQueryOp::And) {
        Ok(EngineCall::AddGuidMatch { query, params, guid, op }) => {
            assert_eq!(query, 0x9a);
            assert_eq!(params, vec![String::from("account"), String::from("guid")]);
            assert_eq!(guid.as_bytes(), &[4u8; 16]);
            assert_eq!(op, QofQueryOp::And);
        }
        other => panic!("unexpected {:?}", other),
    }
}

#[test]
fn boolean_term_and_bad_names() {
    let q = Query::new(0x9a);
    match q.add_boolean_match(&["trans", "is-closing"], true, QofQueryOp::Or) {
        Ok(EngineCall::AddBooleanMatch { params, value, op, .. }) => {
            assert_eq!(params.len(), 2);
            assert!(value);
            assert_eq!(op, QofQueryOp::Or);
        }
        other => panic!("unexpected {:?}", other),
    }
    let bad = q.add_boolean_match(&["tr\0ans"], true, QofQueryOp::Or);
    assert!(matches!(bad, Err(Error::InvalidOperation(_))));
    assert_eq!(obj_types::SPLIT, "Split");
    assert_eq!(obj_types::TRANSACTION, "Trans");
}

#[test]
fn query_release_destroys_it() {
    let calls = Query::new(0x9a).drop_calls();
    assert_eq!(calls.len(), 1);
    assert!(matches!(
        calls[0],
        EngineCall::Destroy { kind: RecordKind::Query, target: Target::Existing(0x9a) }
    ));
}

#[test]
fn engine_starts_once() {
    let mut e = EngineInit::new();
    assert!(!e.is_initialized());
    assert!(matches!(e.init(), Some(EngineCall::InitEngine)));
    assert!(e.is_initialized());
    assert!(e.init().is_none());
    assert!(e.init().is_none());
}
