//! Errors reported by the library.
use vstd::prelude::*;

use crate::numeric::{numeric_text, Numeric};
use crate::text::{push_signed_decimal, signed_decimal};

verus! {

/// An error of an engine operation, by kind.
#[derive(Debug, PartialEq, Eq)]
pub enum Error {
    /// A null address was met where a record was expected.
    NullPointer(String),
    /// A GUID string could not be read.
    InvalidGuid(String),
    /// The object is read-only.
    ReadOnly,
    /// The splits of a transaction do not sum to zero; carries the residual
    /// over the common denominator.
    Unbalanced(Numeric),
    /// An account type code that the engine does not define.
    InvalidAccountType(i32),
    /// Text could not be converted.
    StringConversion(String),
    /// Rational arithmetic failed: a zero denominator, or a value beyond 64 bits.
    Numeric(String),
    /// The operation is not valid for its arguments.
    InvalidOperation(String),
    /// An error that the session layer relayed.
    Session(String),
    /// Any other error, with its message.
    Other(String),
}

/// The result of an engine operation.
pub type Result<T> = core::result::Result<T, Error>;

/// The message of an error.
pub open spec fn error_text(e: Error) -> Seq<char> {
    match e {
        Error::NullPointer(ctx) => "null pointer in "@ + ctx@,
        Error::InvalidGuid(t) => "invalid GUID: "@ + t@,
        Error::ReadOnly => "operation failed: object is read-only"@,
        Error::Unbalanced(r) => "transaction is not balanced by "@ + numeric_text(r),
        Error::InvalidAccountType(t) => "invalid account type: "@ + signed_decimal(t as int),
        Error::StringConversion(t) => "string conversion error: "@ + t@,
        Error::Numeric(t) => "numeric error: "@ + t@,
        Error::InvalidOperation(t) => "invalid operation: "@ + t@,
        Error::Session(t) => "session error: "@ + t@,
        Error::Other(t) => t@,
    }
}

impl Error {
    /// The message of this error.
    pub fn to_string(&self) -> (r: String)
        ensures
            r@ == error_text(*self),
    {
        let mut s = String::new();
        match self {
            Error::NullPointer(ctx) => {
                s.append("null pointer in ");
                s.append(ctx.as_str());
            },
            Error::InvalidGuid(t) => {
                s.append("invalid GUID: ");
                s.append(t.as_str());
            },
            Error::ReadOnly => {
                s.append("operation failed: object is read-only");
            },
            Error::Unbalanced(r) => {
                s.append("transaction is not balanced by ");
                let t = r.to_string();
                s.append(t.as_str());
            },
            Error::InvalidAccountType(t) => {
                s.append("invalid account type: ");
                push_signed_decimal(&mut s, *t as i64);
            },
            Error::StringConversion(t) => {
                s.append("string conversion error: ");
                s.append(t.as_str());
            },
            Error::Numeric(t) => {
                s.append("numeric error: ");
                s.append(t.as_str());
            },
            Error::InvalidOperation(t) => {
                s.append("invalid operation: ");
                s.append(t.as_str());
            },
            Error::Session(t) => {
                s.append("session error: ");
                s.append(t.as_str());
            },
            Error::Other(t) => {
                s.append(t.as_str());
            },
        }
        proof {
            assert(s@ =~= error_text(*self));
        }
        s
    }
}

} // verus!
