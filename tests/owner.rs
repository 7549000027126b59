use gnucash_sys::{Customer, Employee, Guid, Job, Owner, OwnerType, TypedOwner, Vendor};

fn guid(b: u8) -> Guid {
    Guid::from_bytes([b; 16])
}

#[test]
fn customer_round_trip_keeps_identity() {
    let c = Customer::new(0xc1, guid(1));
    let o = c.to_owner();
    assert_eq!(o.owner_type(), OwnerType::Customer);
    assert!(o.is_customer());
    assert!(!o.is_undefined());
    assert_eq!(o.guid().map(|g| *g.as_bytes()), Some([1u8; 16]));
    let back = o.customer().expect("a customer");
    assert_eq!(back.as_ptr(), 0xc1);
    assert_eq!(back.guid().as_bytes(), &[1u8; 16]);
    assert!(o.vendor().is_none());
    assert!(o.job().is_none());
}

#[test]
fn vendor_employee_job_report_their_own_kind() {
    let v = Vendor::new(0xd1, guid(2)).to_owner();
    assert_eq!(v.owner_type(), OwnerType::Vendor);
    assert_eq!(v.vendor().expect("a vendor").as_ptr(), 0xd1);
    let e = Employee::new(0xd2, guid(3)).to_owner();
    assert_eq!(e.owner_type(), OwnerType::Employee);
    assert!(e.is_employee());
    assert_eq!(e.employee().expect("an employee").guid().as_bytes(), &[3u8; 16]);
    let j = Job::new(0xd3, guid(4)).to_owner();
    assert_eq!(j.owner_type(), OwnerType::Job);
    assert!(j.is_job());
    assert!(j.customer().is_none());
    for o in [v, e, j] {
        assert_ne!(o.owner_type(), OwnerType::Undefined);
    }
}

#[test]
fn undefined_owner() {
    let o = Owner::new();
    assert!(o.is_undefined());
    assert_eq!(o.guid(), None);
    assert!(o.customer().is_none());
    assert_eq!(o.entity(), 0);
}

#[test]
fn equality_and_order_by_kind_then_identity() {
    let c1 = Customer::new(0xc1, guid(1)).to_owner();
    let c1_again = Customer::new(0xc9, guid(1)).to_owner();
    let c2 = Customer::new(0xc2, guid(2)).to_owner();
    let v1 = Vendor::new(0xd1, guid(1)).to_owner();
    let j0 = Job::new(0xd3, guid(0)).to_owner();
    assert!(c1.equal(&c1_again));
    assert_eq!(c1.compare(&c1_again), 0);
    assert!(!c1.equal(&c2));
    assert_eq!(c1.compare(&c2), -1);
    assert_eq!(c2.compare(&c1), 1);
    assert!(!c1.equal(&v1));
    assert_eq!(c2.compare(&v1), -1);
    assert_eq!(j0.compare(&c2), 1);
    assert_eq!(Owner::new().compare(&c1), -1);
    let copy = c2.clone();
    assert!(copy.equal(&c2));
}

#[test]
fn typed_owner_narrows_by_reference() {
    let c = Customer::new(0xc1, guid(5));
    let t = TypedOwner::Customer(&c);
    assert!(t.to_owner().is_customer());
    assert_eq!(t.guid().as_bytes(), &[5u8; 16]);
    let j = Job::new(0xd3, guid(6));
    assert_eq!(TypedOwner::Job(&j).to_owner().owner_type(), OwnerType::Job);
}
