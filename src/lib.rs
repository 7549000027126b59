//! Safe handles, exact rationals and balanced-transaction construction for a
//! double-entry accounting engine that is reached through a C-style interface.
//!
//! The engine itself is not called from here. Every operation that needs it is
//! described as a sequence of [`engine::EngineCall`] values, which the embedding
//! program performs in order; what the engine reports back (a new record's
//! address, a list cell, an error code) is handed to the library as plain values.
use vstd::prelude::*;

pub mod account;
pub mod book;
pub mod builder;
pub mod engine;
pub mod error;
pub mod handle;
pub mod list;
pub mod numeric;
pub mod obj_types;
pub mod owner;
pub mod params;
pub mod query;
pub mod reconcile;
pub mod session;
pub mod split;
pub mod text;
pub mod transaction;
pub mod txn_type;

pub use account::{Account, GNCAccountType};
pub use book::Book;
pub use builder::{EntryDraft, InvoiceBuilder, SplitDraft, TransactionBuilder};
pub use engine::{EngineCall, EngineInit, QofQueryOp, RecordKind, SessionOpenMode, Target};
pub use error::{Error, Result};
pub use handle::{EditState, Handle};
pub use list::{ListCell, ListCursor, ListRead, ListSource};
pub use owner::{Customer, Employee, Job, Owner, OwnerType, TypedOwner, Vendor};
pub use numeric::{gcd, lcm, Guid, Numeric, ValueKind};
pub use query::Query;
pub use session::{OpenStage, QofBackendError, Session, SessionOpen};
pub use split::Split;
pub use transaction::Transaction;

verus! {

} // verus!
