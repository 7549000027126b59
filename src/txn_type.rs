//! Transaction type codes.
use vstd::prelude::*;

verus! {

/// No particular type.
pub const NONE: char = '\0';

/// Posted from an invoice.
pub const INVOICE: char = 'I';

/// A payment.
pub const PAYMENT: char = 'P';

/// Links other transactions.
pub const LINK: char = 'L';

} // verus!
