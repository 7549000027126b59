//! The polymorphic business owner: a customer, vendor, employee or job,
//! carried by value as its kind, record address and identity.
use vstd::prelude::*;

use crate::numeric::{compare_seq, lemma_compare_seq, Guid};

verus! {

/// The kinds of owner. The declaration order is the engine's.
#[derive(Clone, Copy, Debug, PartialEq, Eq, Structural, Hash)]
pub enum OwnerType {
    Undefined,
    Customer,
    Job,
    Vendor,
    Employee,
}

impl OwnerType {
    /// Position in the engine's order of owner kinds.
    pub open spec fn spec_rank(self) -> int {
        match self {
            OwnerType::Undefined => 0,
            OwnerType::Customer => 1,
            OwnerType::Job => 2,
            OwnerType::Vendor => 3,
            OwnerType::Employee => 4,
        }
    }

    /// Position in the engine's order of owner kinds.
    pub fn rank(&self) -> (r: u8)
        ensures
            r as int == self.spec_rank(),
    {
        match self {
            OwnerType::Undefined => 0,
            OwnerType::Customer => 1,
            OwnerType::Job => 2,
            OwnerType::Vendor => 3,
            OwnerType::Employee => 4,
        }
    }
}

/// A business entity as contracts see it: its record address and identity.
pub struct EntityView {
    pub ptr: u64,
    pub guid: Guid,
}

/// An owner as contracts see it.
pub struct OwnerView {
    pub owner_type: OwnerType,
    pub entity: u64,
    pub guid: Guid,
}

/// The owner that narrows an entity of the given kind.
pub open spec fn owner_of(kind: OwnerType, e: EntityView) -> OwnerView {
    OwnerView { owner_type: kind, entity: e.ptr, guid: e.guid }
}

/// The entity of the given kind that an owner stands for, if it is of that kind.
pub open spec fn narrow(o: OwnerView, kind: OwnerType) -> Option<EntityView> {
    if o.owner_type == kind {
        Some(EntityView { ptr: o.entity, guid: o.guid })
    } else {
        None
    }
}

/// Owners in the total order by kind, then identity: -1, 0 or 1.
pub open spec fn owner_order(a: OwnerView, b: OwnerView) -> int {
    if a.owner_type.spec_rank() < b.owner_type.spec_rank() {
        -1
    } else if a.owner_type.spec_rank() > b.owner_type.spec_rank() {
        1
    } else {
        compare_seq(a.guid.bytes(), b.guid.bytes())
    }
}

/// The order on owners is total and fit for sorting: swapping the operands
/// flips the result, and two owners tie exactly when they are equal in kind
/// and identity.
pub proof fn lemma_owner_order(a: OwnerView, b: OwnerView)
    ensures
        owner_order(a, b) == -owner_order(b, a),
        owner_order(a, b) == 0 <==> (a.owner_type == b.owner_type && a.guid.bytes() == b.guid.bytes()),
{
    lemma_compare_seq(a.guid.bytes(), b.guid.bytes());
    if a.owner_type.spec_rank() == b.owner_type.spec_rank() {
        assert(a.owner_type == b.owner_type);
    }
}

/// A customer record, by address and identity.
#[derive(Clone, Copy, Debug)]
pub struct Customer {
    ptr: u64,
    guid: Guid,
}

impl View for Customer {
    type V = EntityView;

    closed spec fn view(&self) -> EntityView {
        EntityView { ptr: self.ptr, guid: self.guid }
    }
}

impl Customer {
    /// The record address is never null.
    #[verifier::type_invariant]
    spec fn non_null(self) -> bool {
        self.ptr != 0
    }

    /// Wraps a customer at a non-null address, with the identity the engine gave it.
    pub fn new(ptr: u64, guid: Guid) -> (r: Customer)
        requires
            ptr != 0,
        ensures
            r@ == (EntityView { ptr, guid }),
    {
        Customer { ptr, guid }
    }

    /// The record's address.
    pub fn as_ptr(&self) -> (r: u64)
        ensures
            r == self@.ptr,
            r != 0,
    {
        proof {
            use_type_invariant(self);
        }
        self.ptr
    }

    /// The record's identity.
    pub fn guid(&self) -> (r: Guid)
        ensures
            r == self@.guid,
    {
        self.guid
    }

    /// The owner that stands for this customer.
    pub fn to_owner(&self) -> (r: Owner)
        ensures
            r@ == owner_of(OwnerType::Customer, self@),
    {
        proof {
            use_type_invariant(self);
        }
        Owner { owner_type: OwnerType::Customer, entity: self.ptr, guid: self.guid }
    }
}

/// A vendor record, by address and identity.
#[derive(Clone, Copy, Debug)]
pub struct Vendor {
    ptr: u64,
    guid: Guid,
}

impl View for Vendor {
    type V = EntityView;

    closed spec fn view(&self) -> EntityView {
        EntityView { ptr: self.ptr, guid: self.guid }
    }
}

impl Vendor {
    /// The record address is never null.
    #[verifier::type_invariant]
    spec fn non_null(self) -> bool {
        self.ptr != 0
    }

    /// Wraps a vendor at a non-null address, with the identity the engine gave it.
    pub fn new(ptr: u64, guid: Guid) -> (r: Vendor)
        requires
            ptr != 0,
        ensures
            r@ == (EntityView { ptr, guid }),
    {
        Vendor { ptr, guid }
    }

    /// The record's address.
    pub fn as_ptr(&self) -> (r: u64)
        ensures
            r == self@.ptr,
            r != 0,
    {
        proof {
            use_type_invariant(self);
        }
        self.ptr
    }

    /// The record's identity.
    pub fn guid(&self) -> (r: Guid)
        ensures
            r == self@.guid,
    {
        self.guid
    }

    /// The owner that stands for this vendor.
    pub fn to_owner(&self) -> (r: Owner)
        ensures
            r@ == owner_of(OwnerType::Vendor, self@),
    {
        proof {
            use_type_invariant(self);
        }
        Owner { owner_type: OwnerType::Vendor, entity: self.ptr, guid: self.guid }
    }
}

/// An employee record, by address and identity.
#[derive(Clone, Copy, Debug)]
pub struct Employee {
    ptr: u64,
    guid: Guid,
}

impl View for Employee {
    type V = EntityView;

    closed spec fn view(&self) -> EntityView {
        EntityView { ptr: self.ptr, guid: self.guid }
    }
}

impl Employee {
    /// The record address is never null.
    #[verifier::type_invariant]
    spec fn non_null(self) -> bool {
        self.ptr != 0
    }

    /// Wraps an employee at a non-null address, with the identity the engine gave it.
    pub fn new(ptr: u64, guid: Guid) -> (r: Employee)
        requires
            ptr != 0,
        ensures
            r@ == (EntityView { ptr, guid }),
    {
        Employee { ptr, guid }
    }

    /// The record's address.
    pub fn as_ptr(&self) -> (r: u64)
        ensures
            r == self@.ptr,
            r != 0,
    {
        proof {
            use_type_invariant(self);
        }
        self.ptr
    }

    /// The record's identity.
    pub fn guid(&self) -> (r: Guid)
        ensures
            r == self@.guid,
    {
        self.guid
    }

    /// The owner that stands for this employee.
    pub fn to_owner(&self) -> (r: Owner)
        ensures
            r@ == owner_of(OwnerType::Employee, self@),
    {
        proof {
            use_type_invariant(self);
        }
        Owner { owner_type: OwnerType::Employee, entity: self.ptr, guid: self.guid }
    }
}

/// A job record, by address and identity.
#[derive(Clone, Copy, Debug)]
pub struct Job {
    ptr: u64,
    guid: Guid,
}

impl View for Job {
    type V = EntityView;

    closed spec fn view(&self) -> EntityView {
        EntityView { ptr: self.ptr, guid: self.guid }
    }
}

impl Job {
    /// The record address is never null.
    #[verifier::type_invariant]
    spec fn non_null(self) -> bool {
        self.ptr != 0
    }

    /// Wraps a job at a non-null address, with the identity the engine gave it.
    pub fn new(ptr: u64, guid: Guid) -> (r: Job)
        requires
            ptr != 0,
        ensures
            r@ == (EntityView { ptr, guid }),
    {
        Job { ptr, guid }
    }

    /// The record's address.
    pub fn as_ptr(&self) -> (r: u64)
        ensures
            r == self@.ptr,
            r != 0,
    {
        proof {
            use_type_invariant(self);
        }
        self.ptr
    }

    /// The record's identity.
    pub fn guid(&self) -> (r: Guid)
        ensures
            r == self@.guid,
    {
        self.guid
    }

    /// The owner that stands for this job.
    pub fn to_owner(&self) -> (r: Owner)
        ensures
            r@ == owner_of(OwnerType::Job, self@),
    {
        proof {
            use_type_invariant(self);
        }
        Owner { owner_type: OwnerType::Job, entity: self.ptr, guid: self.guid }
    }
}

/// An owner: a customer, vendor, employee or job, or undefined. Equality
/// and order go by kind and identity, never by address.
#[derive(Clone, Copy, Debug)]
pub struct Owner {
    owner_type: OwnerType,
    entity: u64,
    guid: Guid,
}

impl View for Owner {
    type V = OwnerView;

    closed spec fn view(&self) -> OwnerView {
        OwnerView { owner_type: self.owner_type, entity: self.entity, guid: self.guid }
    }
}

impl Owner {
    /// A defined owner stands for a record at a non-null address.
    #[verifier::type_invariant]
    spec fn defined_non_null(self) -> bool {
        self.owner_type != OwnerType::Undefined ==> self.entity != 0
    }

    /// The undefined owner.
    pub fn new() -> (r: Owner)
        ensures
            r@.owner_type == OwnerType::Undefined,
            r@.entity == 0,
            forall|i: int| 0 <= i < 16 ==> #[trigger] r@.guid.bytes()[i] == 0,
    {
        Owner { owner_type: OwnerType::Undefined, entity: 0, guid: Guid::null() }
    }

    /// The kind of owner.
    pub fn owner_type(&self) -> (r: OwnerType)
        ensures
            r == self@.owner_type,
    {
        self.owner_type
    }

    /// The address of the record that the owner stands for; null when undefined.
    pub fn entity(&self) -> (r: u64)
        ensures
            r == self@.entity,
    {
        self.entity
    }

    /// The identity of the owner; none when undefined.
    pub fn guid(&self) -> (r: Option<Guid>)
        ensures
            self@.owner_type == OwnerType::Undefined ==> r is None,
            self@.owner_type != OwnerType::Undefined ==> r == Some(self@.guid),
    {
        if self.owner_type == OwnerType::Undefined {
            None
        } else {
            Some(self.guid)
        }
    }

    /// Equal kind and equal identity.
    pub fn equal(&self, other: &Owner) -> (r: bool)
        ensures
            r == (self@.owner_type == other@.owner_type && self@.guid == other@.guid),
    {
        self.owner_type == other.owner_type && self.guid.compare(&other.guid) == 0
    }

    /// The total order by kind first, then identity: -1, 0 or 1.
    pub fn compare(&self, other: &Owner) -> (r: i32)
        ensures
            r as int == owner_order(self@, other@),
    {
        let a = self.owner_type.rank();
        let b = other.owner_type.rank();
        if a < b {
            -1
        } else if a > b {
            1
        } else {
            self.guid.compare(&other.guid)
        }
    }

    /// True when undefined.
    pub fn is_undefined(&self) -> (r: bool)
        ensures
            r == (self@.owner_type == OwnerType::Undefined),
    {
        self.owner_type == OwnerType::Undefined
    }

    /// True for a customer.
    pub fn is_customer(&self) -> (r: bool)
        ensures
            r == (self@.owner_type == OwnerType::Customer),
    {
        self.owner_type == OwnerType::Customer
    }

    /// The customer this owner stands for, if it is one.
    pub fn customer(&self) -> (r: Option<Customer>)
        ensures
            r is Some == (self@.owner_type == OwnerType::Customer),
            r matches Some(x) ==> Some(x@) == narrow(self@, OwnerType::Customer),
    {
        proof {
            use_type_invariant(self);
        }
        if self.owner_type == OwnerType::Customer {
            Some(Customer { ptr: self.entity, guid: self.guid })
        } else {
            None
        }
    }

    /// True for a vendor.
    pub fn is_vendor(&self) -> (r: bool)
        ensures
            r == (self@.owner_type == OwnerType::Vendor),
    {
        self.owner_type == OwnerType::Vendor
    }

    /// The vendor this owner stands for, if it is one.
    pub fn vendor(&self) -> (r: Option<Vendor>)
        ensures
            r is Some == (self@.owner_type == OwnerType::Vendor),
            r matches Some(x) ==> Some(x@) == narrow(self@, OwnerType::Vendor),
    {
        proof {
            use_type_invariant(self);
        }
        if self.owner_type == OwnerType::Vendor {
            Some(Vendor { ptr: self.entity, guid: self.guid })
        } else {
            None
        }
    }

    /// True for an employee.
    pub fn is_employee(&self) -> (r: bool)
        ensures
            r == (self@.owner_type == OwnerType::Employee),
    {
        self.owner_type == OwnerType::Employee
    }

    /// The employee this owner stands for, if it is one.
    pub fn employee(&self) -> (r: Option<Employee>)
        ensures
            r is Some == (self@.owner_type == OwnerType::Employee),
            r matches Some(x) ==> Some(x@) == narrow(self@, OwnerType::Employee),
    {
        proof {
            use_type_invariant(self);
        }
        if self.owner_type == OwnerType::Employee {
            Some(Employee { ptr: self.entity, guid: self.guid })
        } else {
            None
        }
    }

    /// True for a job.
    pub fn is_job(&self) -> (r: bool)
        ensures
            r == (self@.owner_type == OwnerType::Job),
    {
        self.owner_type == OwnerType::Job
    }

    /// The job this owner stands for, if it is one.
    pub fn job(&self) -> (r: Option<Job>)
        ensures
            r is Some == (self@.owner_type == OwnerType::Job),
            r matches Some(x) ==> Some(x@) == narrow(self@, OwnerType::Job),
    {
        proof {
            use_type_invariant(self);
        }
        if self.owner_type == OwnerType::Job {
            Some(Job { ptr: self.entity, guid: self.guid })
        } else {
            None
        }
    }

}

/// An owner given by a reference to the entity it stands for.
#[derive(Debug)]
pub enum TypedOwner<'a> {
    Customer(&'a Customer),
    Vendor(&'a Vendor),
    Employee(&'a Employee),
    Job(&'a Job),
}

impl<'a> TypedOwner<'a> {
    /// The owner value for the referenced entity.
    pub fn to_owner(&self) -> (r: Owner)
        ensures
            match *self {
                TypedOwner::Customer(c) => r@ == owner_of(OwnerType::Customer, c@),
                TypedOwner::Vendor(v) => r@ == owner_of(OwnerType::Vendor, v@),
                TypedOwner::Employee(e) => r@ == owner_of(OwnerType::Employee, e@),
                TypedOwner::Job(j) => r@ == owner_of(OwnerType::Job, j@),
            },
    {
        match self {
            TypedOwner::Customer(c) => c.to_owner(),
            TypedOwner::Vendor(v) => v.to_owner(),
            TypedOwner::Employee(e) => e.to_owner(),
            TypedOwner::Job(j) => j.to_owner(),
        }
    }

    /// The identity of the referenced entity.
    pub fn guid(&self) -> (r: Guid)
        ensures
            r == self.to_owner_spec().guid,
    {
        match self {
            TypedOwner::Customer(c) => c.guid(),
            TypedOwner::Vendor(v) => v.guid(),
            TypedOwner::Employee(e) => e.guid(),
            TypedOwner::Job(j) => j.guid(),
        }
    }

    /// The owner for the referenced entity, in contracts.
    pub open spec fn to_owner_spec(&self) -> OwnerView {
        match *self {
            TypedOwner::Customer(c) => owner_of(OwnerType::Customer, c@),
            TypedOwner::Vendor(v) => owner_of(OwnerType::Vendor, v@),
            TypedOwner::Employee(e) => owner_of(OwnerType::Employee, e@),
            TypedOwner::Job(j) => owner_of(OwnerType::Job, j@),
        }
    }
}

/// Narrowing an entity into an owner and back gives the same entity, its
/// identity included, and the owner reports the entity's own kind, never
/// undefined; it narrows to no other kind.
pub proof fn lemma_owner_round_trip(kind: OwnerType, other: OwnerType, e: EntityView)
    requires
        kind != OwnerType::Undefined,
        other != kind,
    ensures
        owner_of(kind, e).owner_type == kind,
        owner_of(kind, e).owner_type != OwnerType::Undefined,
        narrow(owner_of(kind, e), kind) == Some(e),
        narrow(owner_of(kind, e), other) is None,
{
}

} // verus!
