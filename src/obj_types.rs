//! Object type names that a query can search for.
use vstd::prelude::*;

verus! {

pub const SPLIT: &'static str = "Split";

pub const TRANSACTION: &'static str = "Trans";

pub const ACCOUNT: &'static str = "Account";

} // verus!
