use gnucash_sys::{reconcile, txn_type, Error, GNCAccountType, Numeric, Split};

#[test]
fn test_account_type_enum() {
    assert_eq!(GNCAccountType::ACCT_TYPE_BANK as i32, 0);
    assert_eq!(GNCAccountType::ACCT_TYPE_CASH as i32, 1);
    assert_eq!(GNCAccountType::ACCT_TYPE_ASSET as i32, 2);
}

#[test]
fn account_type_codes_round_trip() {
    assert_eq!(GNCAccountType::ACCT_TYPE_BANK.code(), 0);
    assert_eq!(GNCAccountType::ACCT_TYPE_CREDITLINE.code(), 18);
    assert_eq!(GNCAccountType::from_code(2), Ok(GNCAccountType::ACCT_TYPE_ASSET));
    assert_eq!(GNCAccountType::from_code(19), Err(Error::InvalidAccountType(19)));
    assert_eq!(GNCAccountType::from_code(-1), Err(Error::InvalidAccountType(-1)));
}

#[test]
fn test_reconcile_constants() {
    assert_eq!(reconcile::CLEARED, 'c');
    assert_eq!(reconcile::RECONCILED, 'y');
    assert_eq!(reconcile::FROZEN, 'f');
    assert_eq!(reconcile::NOT_RECONCILED, 'n');
    assert_eq!(reconcile::VOIDED, 'v');
}

#[test]
fn reconcile_state_tests() {
    assert!(Split::is_reconciled('y'));
    assert!(!Split::is_reconciled('c'));
    assert!(Split::is_cleared('c'));
    assert!(!Split::is_cleared('n'));
}

#[test]
fn test_txn_type_constants() {
    assert_eq!(txn_type::NONE, '\0');
    assert_eq!(txn_type::INVOICE, 'I');
    assert_eq!(txn_type::PAYMENT, 'P');
    assert_eq!(txn_type::LINK, 'L');
}

#[test]
fn error_messages() {
    assert_eq!(Error::ReadOnly.to_string(), "operation failed: object is read-only");
    assert_eq!(Error::InvalidAccountType(-3).to_string(), "invalid account type: -3");
    assert_eq!(
        Error::Unbalanced(Numeric::new(-1000, 100)).to_string(),
        "transaction is not balanced by -1000/100"
    );
    assert_eq!(Error::InvalidOperation(String::from("x")).to_string(), "invalid operation: x");
    assert_eq!(Error::Other(String::from("plain")).to_string(), "plain");
    assert_eq!(Error::NullPointer(String::from("Account")).to_string(), "null pointer in Account");
}
