//! Reconcile states of a split.
use vstd::prelude::*;

verus! {

/// Cleared.
pub const CLEARED: char = 'c';

/// Reconciled.
pub const RECONCILED: char = 'y';

/// Frozen into an accounting period.
pub const FROZEN: char = 'f';

/// Not reconciled.
pub const NOT_RECONCILED: char = 'n';

/// Voided.
pub const VOIDED: char = 'v';

} // verus!
